//! The numeric bridge into the host's double-precision integer domain.
//!
//! The host runtime represents every number as a double-precision value, which
//! holds integers exactly only up to `MAX_SAFE_INTEGER`. Any magnitude that
//! crosses the boundary must first pass through this bridge; a magnitude
//! beyond the ceiling is refused outright rather than silently truncated.

use vstd::prelude::*;

verus! {

/// The largest integer magnitude that the host's double-precision numbers
/// represent exactly: 2^53 - 1.
pub const MAX_SAFE_INTEGER: u64 = 9007199254740991;

/// A magnitude was too large to cross the boundary without losing precision.
/// This signals a contract violation by the caller, not an expected runtime
/// condition: callers at the host edge treat it as fatal.
#[derive(Clone, Copy, PartialEq, Eq, Debug)]
pub struct PrecisionLossError;

/// An unsigned magnitude guaranteed to be at most `MAX_SAFE_INTEGER`, and
/// therefore exactly representable as a host double-precision number.
/// The host edge may cast the carried value to its numeric type without loss.
#[derive(Clone, Copy, PartialEq, Eq, Debug)]
pub struct SafeDouble {
    value: u64,
}

impl SafeDouble {
    /// The integer magnitude this safe double stands for.
    pub closed spec fn spec_value(self) -> u64 {
        self.value
    }

    /// A safe double is well formed when its magnitude lies within the
    /// exactly-representable range.
    pub open spec fn wf(self) -> bool {
        self.spec_value() <= MAX_SAFE_INTEGER
    }

    /// Reads the magnitude back as an unsigned integer.
    pub fn value(&self) -> (r: u64)
        ensures
            r == self.spec_value(),
    {
        self.value
    }
}

/// Whether a magnitude fits the host's exactly-representable integer range.
pub open spec fn fits_safe_double(n: nat) -> bool {
    n <= MAX_SAFE_INTEGER
}

/// What the bridge does with a magnitude: carried across unchanged when it
/// fits, refused when it does not.
pub open spec fn spec_to_safe(n: nat) -> Option<nat> {
    if fits_safe_double(n) {
        Some(n)
    } else {
        None
    }
}

/// Bridges a 64-bit magnitude into the host's safe integer domain.
/// Succeeds exactly on magnitudes up to `MAX_SAFE_INTEGER`, and carries the
/// value across unchanged.
pub fn from_u64(number: u64) -> (r: Result<SafeDouble, PrecisionLossError>)
    ensures
        r is Ok <==> number <= MAX_SAFE_INTEGER,
        r matches Ok(s) ==> s.wf() && s.spec_value() == number,
        r matches Ok(s) ==> spec_to_safe(number as nat) == Some(s.spec_value() as nat),
        r is Err ==> spec_to_safe(number as nat) is None,
{
    if number <= MAX_SAFE_INTEGER {
        Ok(SafeDouble { value: number })
    } else {
        Err(PrecisionLossError)
    }
}

/// Bridges a 128-bit magnitude (a millisecond timestamp may in principle
/// exceed 64 bits) into the host's safe integer domain, under the same
/// contract as `from_u64`.
pub fn from_u128(number: u128) -> (r: Result<SafeDouble, PrecisionLossError>)
    ensures
        r is Ok <==> number <= MAX_SAFE_INTEGER as u128,
        r matches Ok(s) ==> s.wf() && s.spec_value() == number,
        r matches Ok(s) ==> spec_to_safe(number as nat) == Some(s.spec_value() as nat),
        r is Err ==> spec_to_safe(number as nat) is None,
{
    if number <= MAX_SAFE_INTEGER as u128 {
        Ok(SafeDouble { value: number as u64 })
    } else {
        Err(PrecisionLossError)
    }
}

/// Every magnitude within the safe range round-trips across the boundary to
/// the identical integer value.
pub proof fn lemma_safe_round_trip(n: nat)
    requires
        fits_safe_double(n),
    ensures
        spec_to_safe(n) == Some(n),
{
}

/// Every magnitude beyond the safe range is refused by the bridge: no partial
/// or truncated value ever crosses the boundary.
pub proof fn lemma_precision_loss_refused(n: nat)
    requires
        !fits_safe_double(n),
    ensures
        spec_to_safe(n) is None,
{
}

} // verus!
