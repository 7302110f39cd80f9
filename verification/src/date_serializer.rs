//! Times as they are written into messages.

use chrono::{DateTime, SecondsFormat, Utc};
use vstd::prelude::*;
use vstd::string::*;
use crate::text::opt_text;

verus! {

/// The text that writes the moment `secs` seconds after the epoch in
/// universal time, to the second, as the calendar library renders it; `None`
/// for a moment that its calendar does not reach.
pub uninterp spec fn rfc3339_of(secs: i64) -> Option<Seq<char>>;

/// Renders a moment in universal time.
///
/// Turns the seconds into a `chrono::DateTime<Utc>` with
/// `DateTime::from_timestamp`, which gives `None` outside the calendar's
/// range, and renders it with `DateTime::to_rfc3339_opts`, asking for whole
/// seconds and the letter `Z` for the zone. The result depends on the
/// seconds alone; the contract gives it a name and claims nothing else.
#[verifier::external_body]
fn render_utc_seconds(secs: i64) -> (r: Option<String>)
    ensures
        opt_text(r) == rfc3339_of(secs),
{
    match DateTime::<Utc>::from_timestamp(secs, 0) {
        Some(t) => Some(t.to_rfc3339_opts(SecondsFormat::Secs, true)),
        None => None,
    }
}

/// The form in which a moment is written into a message, or `None` for a
/// moment that the calendar does not reach.
pub fn time_to_json(secs: i64) -> (r: Option<String>)
    ensures
        opt_text(r) == rfc3339_of(secs),
{
    render_utc_seconds(secs)
}

} // verus!
