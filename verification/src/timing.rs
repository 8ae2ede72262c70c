use vstd::prelude::*;

verus! {

/// Relies on `std::time::SystemTime::now` and `duration_since`: the
/// milliseconds since the Unix epoch, or `0` if the clock reads earlier than
/// the epoch.  Nothing is promised of the clock's value.
#[verifier::external_body]
fn unix_millis_now() -> u128 {
    match std::time::SystemTime::now().duration_since(std::time::UNIX_EPOCH) {
        Ok(d) => d.as_millis(),
        Err(_) => 0,
    }
}

/// The deadline `future` milliseconds past `now`, if it is representable.
pub fn millis_deadline(now: u128, future: u128) -> (r: Option<u128>)
    ensures
        now + future <= u128::MAX ==> r == Some((now + future) as u128),
        now + future > u128::MAX ==> r is None,
{
    now.checked_add(future)
}

/// A timestamp `future_millis` milliseconds past the clock's current
/// reading; `None` only if that leaves the representable range.
pub fn get_valid_timestamp(future_millis: u128) -> (r: Option<u128>)
    ensures
        r matches Some(t) ==> t >= future_millis,
{
    let now = unix_millis_now();
    millis_deadline(now, future_millis)
}

} // verus!
