use vstd::prelude::*;

verus! {

/// The sign bit of a double.
pub const SIGN_BIT: u64 = 0x8000_0000_0000_0000;

/// The bit pattern of positive infinity: exponent all ones, mantissa zero.
pub const INFINITY_BITS: u64 = 0x7FF0_0000_0000_0000;

/// Why a lex rank cannot be computed.
#[derive(Debug, Clone, Copy, PartialEq, Eq, Structural)]
pub enum LexRankError {
    /// A value below zero was given, or fed to the transform.
    NegativeValue,
    /// The sequence holds no value, so the recurrence has no first element.
    EmptyInput,
}

/// The double with bit pattern `bits` compares below zero.
///
/// That is: the sign bit is set, and the magnitude is neither zero (`-0.0`
/// equals zero) nor above infinity's (a NaN compares with nothing).
pub open spec fn is_negative_bits(bits: u64) -> bool {
    bits >= SIGN_BIT && 0 < bits - SIGN_BIT <= INFINITY_BITS
}

/// Tells whether the double with bit pattern `bits` is below zero.
pub fn is_negative(bits: u64) -> (r: bool)
    ensures
        r == is_negative_bits(bits),
{
    bits >= SIGN_BIT && bits - SIGN_BIT > 0 && bits - SIGN_BIT <= INFINITY_BITS
}

/// Some value of `values` is below zero.
pub open spec fn has_negative(values: Seq<u64>) -> bool {
    exists|i: int| 0 <= i < values.len() && #[trigger] is_negative_bits(values[i])
}

/// What validating `values` yields: a value below zero is rejected first,
/// then an empty sequence; any other sequence passes.
pub open spec fn validation_outcome(values: Seq<u64>) -> Result<(), LexRankError> {
    if has_negative(values) {
        Err(LexRankError::NegativeValue)
    } else if values.len() == 0 {
        Err(LexRankError::EmptyInput)
    } else {
        Ok(())
    }
}

/// The guard of a transform: its argument must not be below zero.
pub fn check_transform_argument(bits: u64) -> (r: Result<(), LexRankError>)
    ensures
        r is Err <==> is_negative_bits(bits),
        r is Err ==> r == Err::<(), LexRankError>(LexRankError::NegativeValue),
{
    if is_negative(bits) {
        Err(LexRankError::NegativeValue)
    } else {
        Ok(())
    }
}

/// Checks the whole sequence before the recurrence starts.
///
/// It fails with `NegativeValue` if any value is below zero, else with
/// `EmptyInput` if there is no value, and passes otherwise.
pub fn validate_values(values: &Vec<u64>) -> (r: Result<(), LexRankError>)
    ensures
        r == validation_outcome(values@),
        r == Err::<(), LexRankError>(LexRankError::NegativeValue) <==> has_negative(values@),
        r == Err::<(), LexRankError>(LexRankError::EmptyInput) <==> values@.len() == 0,
        r is Ok <==> values@.len() > 0 && !has_negative(values@),
{
    let n: usize = values.len();
    let mut i: usize = 0;
    while i < n
        invariant
            n == values@.len(),
            i <= n,
            forall|j: int| 0 <= j < i ==> !#[trigger] is_negative_bits(values@[j]),
        decreases n - i,
    {
        if is_negative(values[i]) {
            return Err(LexRankError::NegativeValue);
        }
        i = i + 1;
    }
    if n == 0 {
        Err(LexRankError::EmptyInput)
    } else {
        Ok(())
    }
}

/// A sequence with a value below zero is rejected with `NegativeValue`,
/// whichever transform the recurrence would use: validation runs before any
/// transform is called.
pub proof fn lemma_negative_element_rejected(values: Seq<u64>, i: int)
    requires
        0 <= i < values.len(),
        is_negative_bits(values[i]),
    ensures
        validation_outcome(values) == Err::<(), LexRankError>(LexRankError::NegativeValue),
{
    assert(has_negative(values));
}

} // verus!
