use vstd::prelude::*;

verus! {

/// Reads the wall clock through `chrono::Utc::now`: its whole seconds since the
/// Unix epoch (`timestamp`) and the nanoseconds past them
/// (`timestamp_subsec_nanos`). Nothing is promised of the values.
#[verifier::external_body]
fn now_parts() -> (i64, u32) {
    let t = chrono::Utc::now();
    (t.timestamp(), t.timestamp_subsec_nanos())
}

/// The wall-clock time in nanoseconds since the Unix epoch.
pub(crate) fn now_nanos() -> i128 {
    let (secs, nanos) = now_parts();
    secs as i128 * 1_000_000_000 + nanos as i128
}

} // verus!
