//! Reasons a predicate cannot be translated into a storage condition.

use vstd::prelude::*;

verus! {

/// A hard translation failure.
///
/// Every variant marks structurally invalid or untranslatable input and
/// aborts the whole translation immediately. The distinguished non-error
/// outcome `Ok(None)` of the tree translator — "valid input, push-down not
/// possible here" — is deliberately *not* an error: callers use it to decide
/// to evaluate the predicate locally instead of failing the query.
#[derive(Debug, Clone, Copy, PartialEq, Eq, Structural)]
pub enum TranslateError {
    /// The operand's shape is not representable in the condition algebra:
    /// a tagged variable, or a key kind the property extractor does not
    /// accept.
    UnsupportedOperand,
    /// The comparison operator is outside the enumerated set the storage
    /// backend understands.
    UnsupportedComparator,
    /// A literal constant could not be converted to the storage's typed
    /// property representation.
    ConstantConversionFailed,
    /// The input was not a structural predicate tree at all, so no push-down
    /// is attempted.
    GeneralExpressionUnsupported,
}

} // verus!
