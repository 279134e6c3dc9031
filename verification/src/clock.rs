use vstd::prelude::*;

verus! {

#[verifier::external_type_specification]
#[verifier::external_body]
pub struct ExSystemTime(std::time::SystemTime);

/// Relies on `std::time::SystemTime::now` for capture timestamps.  The value
/// depends on the system clock, so nothing is assumed about it.
#[verifier::external_body]
pub fn now() -> std::time::SystemTime {
    std::time::SystemTime::now()
}

} // verus!
