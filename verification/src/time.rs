//! Durations, and their forms in task documents and deadlines.
use std::time::Duration;
use vstd::prelude::*;

verus! {

/// The length of a duration in nanoseconds.
pub uninterp spec fn duration_nanos(duration: Duration) -> nat;

/// `std::time::Duration::as_nanos`: the length in nanoseconds. A duration has whole seconds that fit
/// into 64 bits, and less than a second on top.
pub assume_specification[ Duration::as_nanos ](duration: &Duration) -> (nanos: u128)
    ensures
        nanos == duration_nanos(*duration),
        nanos < 18_446_744_073_709_551_616_000_000_000u128,
;

/// `std::time::Duration::as_millis`: the whole milliseconds that the duration contains.
pub assume_specification[ Duration::as_millis ](duration: &Duration) -> (millis: u128)
    ensures
        millis == duration_nanos(*duration) / 1_000_000,
;

/// `std::time::Duration::from_millis`: a duration of that many milliseconds.
pub assume_specification[ Duration::from_millis ](millis: u64) -> (duration: Duration)
    ensures
        duration_nanos(duration) == millis * 1_000_000,
;

/// `std::time::Duration::from_secs`: a duration of that many seconds.
pub assume_specification[ Duration::from_secs ](secs: u64) -> (duration: Duration)
    ensures
        duration_nanos(duration) == secs * 1_000_000_000,
;

/// `std::time::Duration::new`: a duration of that many seconds and that many nanoseconds on top,
/// less than a second of them.
pub assume_specification[ Duration::new ](secs: u64, nanos: u32) -> (duration: Duration)
    requires
        nanos < 1_000_000_000,
    ensures
        duration_nanos(duration) == secs * 1_000_000_000 + nanos,
;

/// The whole milliseconds in a duration.
pub open spec fn duration_millis(duration: Duration) -> nat {
    duration_nanos(duration) / 1_000_000
}

/// A duration as a task document stores it: whole milliseconds, cut to 64 bits.
pub open spec fn stored_millis(duration: Duration) -> i64 {
    (duration_millis(duration) as u128) as i64
}

/// The same in executable form.
pub fn duration_to_stored_millis(duration: Duration) -> (millis: i64)
    ensures
        millis == stored_millis(duration),
{
    let millis: u128 = duration.as_millis();
    #[verifier::truncate]
    (millis as i64)
}

/// A stored number of milliseconds, read back. Negative numbers stand for no duration at all.
pub open spec fn stored_millis_nanos(millis: i64) -> Option<nat> {
    if millis >= 0 {
        Some((millis * 1_000_000) as nat)
    } else {
        None
    }
}

/// The duration that a stored number of milliseconds stands for.
pub fn duration_from_stored_millis(millis: i64) -> (duration: Option<Duration>)
    ensures
        match duration {
            Some(duration) => stored_millis_nanos(millis) == Some(duration_nanos(duration)),
            None => stored_millis_nanos(millis) is None,
        },
{
    if millis >= 0 {
        Some(Duration::from_millis(millis as u64))
    } else {
        None
    }
}

/// The number, or the largest that 64 bits can hold where it exceeds that.
pub open spec fn capped(value: int) -> i64 {
    if value > i64::MAX {
        i64::MAX
    } else {
        value as i64
    }
}

/// The instant `duration` after `millis`, in milliseconds. What lies beyond the last instant that
/// 64 bits can hold becomes that last instant.
pub fn deadline_after(millis: i64, duration: Duration) -> (deadline: i64)
    ensures
        deadline == capped(millis + capped(duration_millis(duration) as int)),
{
    let length: u128 = duration.as_millis();
    let length: i64 = if length > 9_223_372_036_854_775_807u128 {
        i64::MAX
    } else {
        length as i64
    };
    if millis > i64::MAX - length {
        i64::MAX
    } else {
        millis + length
    }
}

/// Reading back a stored duration gives the duration again, cut to whole milliseconds, as long as
/// those fit into 63 bits.
pub proof fn stored_millis_read_back(duration: Duration)
    requires
        duration_millis(duration) <= i64::MAX,
    ensures
        stored_millis_nanos(stored_millis(duration)) == Some(
            duration_millis(duration) * 1_000_000,
        ),
{
}

} // verus!
