//! Query entry point over an optional series: distinguishes an unknown
//! series from one that has too few observations for the requested scale.

use vstd::prelude::*;
use crate::models::{pow10, StatsResult, TradingData};

verus! {

/// Why a statistics query returned no statistics.
#[derive(Clone, Copy, Debug, PartialEq, Eq, Structural)]
pub enum StatsError {
    /// The series name was never appended to.
    UnknownSeries,
    /// The series holds fewer observations than the requested window length.
    InsufficientData,
}

/// Answers a query for scale `k` against the result of the caller's series
/// lookup: `UnknownSeries` exactly when the lookup found nothing,
/// `InsufficientData` exactly when the found series holds fewer than 10^k
/// observations, and the series' statistics otherwise.
pub fn query_stats(data: Option<&TradingData>, k: i32) -> (r: Result<StatsResult, StatsError>)
    requires
        1 <= k <= 8,
        data matches Some(d) ==> d.wf(),
    ensures
        r == Err::<StatsResult, StatsError>(StatsError::UnknownSeries) <==> data is None,
        data matches Some(d)
            ==> (r == Err::<StatsResult, StatsError>(StatsError::InsufficientData) <==> d.data_points@.len()
                < pow10(k as nat)),
        data matches Some(d) ==> (r is Ok <==> d.data_points@.len() >= pow10(k as nat)),
        data matches Some(d) ==> (d.consistent() && r is Ok ==> Some(r->Ok_0) == d.stats_of(
            k as int,
        )),
{
    match data {
        None => Err(StatsError::UnknownSeries),
        Some(d) => match d.get_stats(k) {
            Some(s) => Ok(s),
            None => Err(StatsError::InsufficientData),
        },
    }
}

} // verus!
