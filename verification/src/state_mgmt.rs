//! What the gateway concludes from the history of a point: whether a new
//! value is plausible, and which states of an enumerated point have to be
//! reported as switched off.
//!
//! The history itself is kept by the caller. It hands in the aggregate of a
//! point's past values, or the latest row of each state, and acts on the
//! answer.

use vstd::prelude::*;
use vstd::string::*;
use crate::consts::CHECK_DEVIATIONS_COUNT;
use crate::payload::{split_unique, split_unique_id};
use crate::scaled::{Scaled, MICROS_PER_UNIT};
use crate::text::{contains_string, starts_with, str_eq, texts};
use crate::topics::{unique_id, unique_id_text};

verus! {

/// One stored value of a point.
#[allow(non_camel_case_types)]
#[derive(Clone, Debug)]
pub struct point_history {
    pub uniqueid: String,
    /// The value as it was stored, in its serialised form.
    pub value: String,
    pub timestamp: String,
}

/// One state that an enumerated point was ever seen in.
#[derive(Clone, Debug, Default)]
pub struct BitfieldHistory {
    pub uniqueid: String,
    pub field_name: String,
}

/// The aggregate of the stored values of one point.
#[derive(Clone, Copy, Debug)]
pub struct AggregatedMeasurements {
    pub min: Scaled,
    pub max: Scaled,
    pub avg: Scaled,
    pub median: Scaled,
    /// How many values the aggregate was taken of.
    pub count: i16,
    pub stdev: Scaled,
}

/// The standard deviation that a band is built from, in millionths: its
/// magnitude, and at least one whole unit, so that a nearly constant history
/// does not make every change look implausible.
pub open spec fn floored_stdev(stdev: int) -> int {
    let magnitude = if stdev < 0 {
        -stdev
    } else {
        stdev
    };
    if magnitude < MICROS_PER_UNIT {
        MICROS_PER_UNIT as int
    } else {
        magnitude
    }
}

/// Half the width of the band around the median within which a value is
/// unremarkable, in millionths.
pub open spec fn deviation_band(h: AggregatedMeasurements, threshold: u16) -> int {
    floored_stdev(h.stdev.micros as int) * threshold
}

/// Whether `value` is implausible against the history `h`: it lies below
/// the smallest or above the largest value seen so far, and it also lies
/// outside the band around the median.
pub open spec fn implausible(value: Scaled, h: AggregatedMeasurements, threshold: u16) -> bool {
    let v = value.micros as int;
    let band = deviation_band(h, threshold);
    &&& v < h.min.micros || v > h.max.micros
    &&& v > h.median.micros + band || v < h.median.micros - band
}

/// The deviation threshold of a point that may configure none.
pub open spec fn threshold_or_default(configured: Option<u16>) -> u16 {
    match configured {
        Some(t) => t,
        None => CHECK_DEVIATIONS_COUNT,
    }
}

/// Whether a value is flagged as an anomaly. Without a history, or with a
/// history of no values, nothing can be said and the value is taken as
/// plausible.
pub open spec fn anomaly_flagged(
    value: Scaled,
    history: Option<AggregatedMeasurements>,
    configured: Option<u16>,
) -> bool {
    match history {
        Some(h) => h.count > 0 && implausible(value, h, threshold_or_default(configured)),
        None => false,
    }
}

/// Judges a new value of a point against the aggregate of its history.
///
/// The answer is for the log only: a flagged value is published all the
/// same.
pub fn check_deviation(
    value: Scaled,
    history: Option<&AggregatedMeasurements>,
    configured: Option<u16>,
) -> (r: bool)
    ensures
        r == anomaly_flagged(
            value,
            match history {
                Some(h) => Some(*h),
                None => None,
            },
            configured,
        ),
{
    let h = match history {
        Some(h) => h,
        None => {
            return false;
        },
    };
    if h.count <= 0 {
        return false;
    }
    let threshold: u16 = match configured {
        Some(t) => t,
        None => CHECK_DEVIATIONS_COUNT,
    };
    let s: i128 = h.stdev.micros as i128;
    let magnitude: i128 = if s < 0 {
        -s
    } else {
        s
    };
    let floored: i128 = if magnitude < MICROS_PER_UNIT as i128 {
        MICROS_PER_UNIT as i128
    } else {
        magnitude
    };
    assert(floored * threshold <= 0x8000_0000_0000_0000 * 0xffff) by (nonlinear_arith)
        requires
            0 <= floored <= 0x8000_0000_0000_0000,
            0 <= threshold <= 0xffff,
    ;
    assert(floored * threshold >= 0) by (nonlinear_arith)
        requires
            0 <= floored,
            0 <= threshold,
    ;
    let band: i128 = floored * (threshold as i128);
    let v: i128 = value.micros as i128;
    let median: i128 = h.median.micros as i128;
    let outside_range: bool = v < h.min.micros as i128 || v > h.max.micros as i128;
    let outside_band: bool = v > median + band || v < median - band;
    outside_range && outside_band
}

/// The serialised form under which the `on` of a state is stored.
pub open spec fn stored_on() -> Seq<char> {
    "\"on\""@
}

/// Whether the latest stored value of a state says that it is on. A state
/// without a stored value is not on.
pub fn check_on(latest: Option<&point_history>) -> (r: bool)
    ensures
        r == (latest matches Some(row) && row.value@ == stored_on()),
{
    match latest {
        Some(row) => str_eq(row.value.as_str(), "\"on\""),
        None => false,
    }
}

/// What the identifiers of all states of one point begin with:
/// `{serial}.{model}.{point}.`, taken from the identifier of one of them.
pub open spec fn state_prefix(u: Seq<char>) -> Option<Seq<char>> {
    match split_unique(u) {
        Some((sn, model, point, _)) => Some(unique_id_text(sn, model, point) + "."@),
        None => None,
    }
}

/// Builds the prefix that the identifiers of all states of one point share.
pub fn state_prefix_of(u: &str) -> (r: Option<String>)
    ensures
        match r {
            Some(p) => state_prefix(u@) == Some(p@),
            None => state_prefix(u@) is None,
        },
{
    match split_unique_id(u) {
        Some((sn, model, point, _)) => {
            let mut p = unique_id(sn, model, point);
            p.append(".");
            Some(p)
        },
        None => None,
    }
}

/// Whether the state of the row `row` has to be reported as switched off:
/// it belongs to the point, its latest value is on, and it is not among the
/// states that are set now.
pub open spec fn is_stale(present: Seq<Seq<char>>, prefix: Seq<char>, row: point_history) -> bool {
    &&& prefix.is_prefix_of(row.uniqueid@)
    &&& row.value@ == stored_on()
    &&& !present.contains(row.uniqueid@)
}

/// The identifiers of the rows in `latest` that are stale, in their order.
pub open spec fn stale_ids(
    present: Seq<Seq<char>>,
    prefix: Seq<char>,
    latest: Seq<point_history>,
) -> Seq<Seq<char>>
    decreases latest.len(),
{
    if latest.len() == 0 {
        Seq::empty()
    } else {
        let rest = stale_ids(present, prefix, latest.drop_last());
        if is_stale(present, prefix, latest.last()) {
            rest.push(latest.last().uniqueid@)
        } else {
            rest
        }
    }
}

/// The states of an enumerated point that have to be reported as switched
/// off, given the states that are set now and the latest stored row of each
/// state. Where no state is set now, or where the first identifier does not
/// name a state, there is nothing to go by and no state is reported.
pub open spec fn needs_adjust(present: Seq<String>, latest: Seq<point_history>) -> Seq<Seq<char>> {
    if present.len() == 0 {
        Seq::empty()
    } else {
        match state_prefix(present[0]@) {
            Some(prefix) => stale_ids(texts(present), prefix, latest),
            None => Seq::empty(),
        }
    }
}

/// Finds the states of an enumerated point that were on when last stored and
/// are no longer set.
///
/// `uniques_present` holds the identifiers of the states that are set now,
/// `latest` the latest stored row of each state of the gateway.
pub fn check_needs_adjust(uniques_present: &Vec<String>, latest: &Vec<point_history>) -> (r: Vec<
    String,
>)
    ensures
        texts(r@) == needs_adjust(uniques_present@, latest@),
{
    let mut out: Vec<String> = Vec::new();
    if uniques_present.len() == 0 {
        assert(texts(out@) =~= Seq::<Seq<char>>::empty());
        return out;
    }
    let prefix = match state_prefix_of(uniques_present[0].as_str()) {
        Some(p) => p,
        None => {
            assert(texts(out@) =~= Seq::<Seq<char>>::empty());
            return out;
        },
    };
    let n: usize = latest.len();
    let mut i: usize = 0;
    assert(texts(out@) =~= stale_ids(texts(uniques_present@), prefix@, latest@.take(0)));
    while i < n
        invariant
            n == latest@.len(),
            i <= n,
            texts(out@) == stale_ids(texts(uniques_present@), prefix@, latest@.take(i as int)),
        decreases n - i,
    {
        let row = &latest[i];
        assert(latest@.take(i + 1).drop_last() =~= latest@.take(i as int));
        assert(latest@.take(i + 1).last() == latest@[i as int]);
        if starts_with(row.uniqueid.as_str(), prefix.as_str()) && check_on(Some(row))
            && !contains_string(uniques_present, row.uniqueid.as_str()) {
            let ghost before = out@;
            out.push(row.uniqueid.clone());
            assert(texts(out@) =~= texts(before).push(row.uniqueid@));
        }
        i = i + 1;
    }
    assert(latest@.take(n as int) =~= latest@);
    out
}

} // verus!
