//! A small arithmetic core: addition of two 64-bit unsigned integers, plus a
//! boundary adapter that takes operands as they arrive from a dynamically
//! typed host runtime and reports a conversion failure as a catchable error.
//!
//! Overflow policy: the core function wraps around modulo 2^64. The choice is
//! deliberate and stated in the contract of [`add`], so a sum that exceeds
//! `u64::MAX` deterministically wraps rather than panicking.

use vstd::prelude::*;

verus! {

/// The sum of `left` and `right` reduced modulo 2^64: the exact mathematical
/// sum when it fits in a `u64`, and the wrapped-around value otherwise.
pub open spec fn wrapped_sum(left: u64, right: u64) -> u64 {
    if left + right > u64::MAX {
        (left + right - 0x1_0000_0000_0000_0000) as u64
    } else {
        (left + right) as u64
    }
}

/// Adds two numbers together, wrapping around modulo 2^64 on overflow.
pub fn add(left: u64, right: u64) -> (sum: u64)
    ensures
        sum == wrapped_sum(left, right),
{
    left.wrapping_add(right)
}

/// What the boundary adapter reads of a numeric value handed over by the
/// host runtime, whose integers are signed and of unbounded width: either
/// the value fits the native unsigned 64-bit width, or it is out of range
/// on one of the two sides.
#[derive(Clone, Copy, Debug, PartialEq, Eq, Structural)]
pub enum HostInt {
    /// A host integer representable as a `u64`.
    Value(u64),
    /// A negative host integer.
    Negative,
    /// A non-negative host integer larger than `u64::MAX`.
    TooLarge,
}

/// The one failure the library reports: an operand from the host runtime
/// could not be converted to the native unsigned 64-bit width.
#[derive(Clone, Copy, Debug, PartialEq, Eq, Structural)]
pub enum AddError {
    /// An operand was negative or exceeded `u64::MAX`.
    Conversion,
}

impl AddError {
    /// A human-readable description of the failure, for the host runtime's
    /// error-reporting channel.
    pub fn message(&self) -> (m: String)
        ensures
            m@ == "cannot convert operand to an unsigned 64-bit integer"@,
    {
        "cannot convert operand to an unsigned 64-bit integer".to_owned()
    }
}

/// The outcome of the exposed operation: the wrapped sum when both operands
/// convert to the native width, and a conversion error otherwise.
pub open spec fn exposed_sum(left: HostInt, right: HostInt) -> Result<u64, AddError> {
    match (left, right) {
        (HostInt::Value(a), HostInt::Value(b)) => Ok(wrapped_sum(a, b)),
        _ => Err(AddError::Conversion),
    }
}

/// The exposed operation behind the foreign-call boundary: converts both
/// operands to the native width, adds them, and reports an operand that is
/// negative or too large as an error rather than truncating it.
pub fn add_exposed(left: HostInt, right: HostInt) -> (result: Result<u64, AddError>)
    ensures
        result == exposed_sum(left, right),
{
    match (left, right) {
        (HostInt::Value(a), HostInt::Value(b)) => Ok(crate::add(a, b)),
        _ => Err(AddError::Conversion),
    }
}

/// When the mathematical sum fits in a `u64`, the wrapped sum is exactly
/// `left + right`.
pub proof fn lemma_add_exact(left: u64, right: u64)
    requires
        left + right <= u64::MAX,
    ensures
        wrapped_sum(left, right) == left + right,
{
}

/// Zero is an identity element of the addition.
pub proof fn lemma_add_identity(n: u64)
    ensures
        wrapped_sum(0, n) == n,
{
}

/// The addition is commutative, on wrapping inputs as well.
pub proof fn lemma_add_commutative(left: u64, right: u64)
    ensures
        wrapped_sum(left, right) == wrapped_sum(right, left),
{
}

/// The addition is associative, on wrapping inputs as well.
pub proof fn lemma_add_associative(a: u64, b: u64, c: u64)
    ensures
        wrapped_sum(wrapped_sum(a, b), c) == wrapped_sum(a, wrapped_sum(b, c)),
{
}

/// An operand that fails conversion from the host representation — negative
/// or too large — makes the exposed operation report an error, whatever the
/// other operand is.
pub proof fn lemma_unconvertible_operand_rejected(left: HostInt, right: HostInt)
    requires
        !(left is Value) || !(right is Value),
    ensures
        exposed_sum(left, right) == Err::<u64, AddError>(AddError::Conversion),
{
}

} // verus!
