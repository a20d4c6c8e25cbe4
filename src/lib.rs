//! Input validation for the lex-rank recurrence.
//!
//! A value of the recurrence is an IEEE-754 double. This library sees each one
//! by its 64-bit pattern (as `f64::to_bits` gives it) and decides, exactly as
//! the float comparison `v < 0.0` does, which values are rejected.
pub mod validate;

pub use validate::{
    check_transform_argument, is_negative, lemma_negative_element_rejected, validate_values,
    LexRankError,
};
