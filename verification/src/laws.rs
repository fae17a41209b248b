//! Laws of the translation, stated once for all inputs and proved.
//!
//! Each law is phrased over the spec functions of [`crate::translate`],
//! which the executable translators are proved to compute exactly.

use vstd::prelude::*;

use crate::condition::{CmpOperator, Condition, PredCondition};
use crate::error::TranslateError;
use crate::expr::{Logical, Operand, Predicate, Predicates};
use crate::translate::{
    spec_condition_of, spec_pred_condition, spec_store_comparator, spec_store_operand,
    spec_store_property, spec_var_prop_id,
};

verus! {

/// The empty predicate always translates to "no condition to push down",
/// never to a failure: it is intentionally empty, not invalid.
pub proof fn lemma_init_translates_to_none()
    ensures
        spec_condition_of(Predicates::Init) == Ok::<Option<Condition>, TranslateError>(None),
{
}

/// A has-property test translates to exactly the "has property" leaf for
/// the operand's property identifier; an operand of any other shape makes
/// the test fail with that operand's error.
pub proof fn lemma_single_item_translation(op: Operand)
    ensures
        spec_var_prop_id(op) matches Ok(key) ==> spec_condition_of(Predicates::SingleItem(op))
            == Ok::<Option<Condition>, TranslateError>(
            Some(Condition::Pred(PredCondition::HasProp(key))),
        ),
        spec_var_prop_id(op) matches Err(e) ==> spec_condition_of(Predicates::SingleItem(op))
            == Err::<Option<Condition>, TranslateError>(e),
{
}

/// Each of the eight supported comparators maps to its exact storage
/// counterpart, and every other operator is refused as unsupported.
pub proof fn lemma_comparator_map()
    ensures
        spec_store_comparator(Logical::Eq) == Ok::<CmpOperator, TranslateError>(CmpOperator::Equal),
        spec_store_comparator(Logical::Ne) == Ok::<CmpOperator, TranslateError>(
            CmpOperator::NotEqual,
        ),
        spec_store_comparator(Logical::Lt) == Ok::<CmpOperator, TranslateError>(
            CmpOperator::LessThan,
        ),
        spec_store_comparator(Logical::Le) == Ok::<CmpOperator, TranslateError>(
            CmpOperator::LessEqual,
        ),
        spec_store_comparator(Logical::Gt) == Ok::<CmpOperator, TranslateError>(
            CmpOperator::GreaterThan,
        ),
        spec_store_comparator(Logical::Ge) == Ok::<CmpOperator, TranslateError>(
            CmpOperator::GreaterEqual,
        ),
        spec_store_comparator(Logical::Within) == Ok::<CmpOperator, TranslateError>(
            CmpOperator::WithIn,
        ),
        spec_store_comparator(Logical::Without) == Ok::<CmpOperator, TranslateError>(
            CmpOperator::WithOut,
        ),
        forall|cmp: Logical|
            !(cmp is Eq || cmp is Ne || cmp is Lt || cmp is Le || cmp is Gt || cmp is Ge
                || cmp is Within || cmp is Without) ==> #[trigger] spec_store_comparator(cmp)
                == Err::<CmpOperator, TranslateError>(TranslateError::UnsupportedComparator),
{
}

/// A comparison leaf translates both operands independently and maps the
/// comparator one to one; the first failure — left operand, then right
/// operand, then comparator — aborts the leaf with exactly that error.
pub proof fn lemma_predicate_leaf_translation(pred: Predicate)
    ensures
        spec_store_operand(pred.left) matches Ok(left) ==> spec_store_operand(pred.right) matches Ok(right)
            ==> spec_store_comparator(pred.cmp) matches Ok(cmp) ==> spec_condition_of(
            Predicates::Predicate(pred),
        ) == Ok::<Option<Condition>, TranslateError>(
            Some(Condition::Pred((PredCondition::Pred { left, cmp, right }))),
        ),
        spec_store_operand(pred.left) matches Err(e) ==> spec_condition_of(
            Predicates::Predicate(pred),
        ) == Err::<Option<Condition>, TranslateError>(e),
        spec_store_operand(pred.left) is Ok ==> (spec_store_operand(pred.right) matches Err(e)
            ==> spec_condition_of(Predicates::Predicate(pred)) == Err::<
            Option<Condition>,
            TranslateError,
        >(e)),
        spec_store_operand(pred.left) is Ok && spec_store_operand(pred.right) is Ok ==> (
        spec_store_comparator(pred.cmp) matches Err(e) ==> spec_condition_of(
            Predicates::Predicate(pred),
        ) == Err::<Option<Condition>, TranslateError>(e)),
{
}

/// Negation is pushed down exactly when its operand is: a translatable
/// operand yields the negated condition, an untranslatable one degrades the
/// whole NOT to "no condition" (never to a partial condition), and a hard
/// failure passes through unchanged.
pub proof fn lemma_not_translation(p: Predicates)
    ensures
        spec_condition_of(p) matches Ok(Some(c)) ==> spec_condition_of(
            Predicates::Not(Box::new(p)),
        ) == Ok::<Option<Condition>, TranslateError>(Some(Condition::Not(Box::new(c)))),
        spec_condition_of(p) == Ok::<Option<Condition>, TranslateError>(None) ==> spec_condition_of(
            Predicates::Not(Box::new(p)),
        ) == Ok::<Option<Condition>, TranslateError>(None),
        spec_condition_of(p) matches Err(e) ==> spec_condition_of(Predicates::Not(Box::new(p)))
            == Err::<Option<Condition>, TranslateError>(e),
{
}

/// AND is both-or-nothing: it yields a condition — the conjunction, left
/// before right — exactly when both operands yield one, and degrades to "no
/// condition" when either side does.
pub proof fn lemma_and_both_or_nothing(l: Predicates, r: Predicates)
    ensures
        spec_condition_of(l) matches Ok(lo) ==> spec_condition_of(r) matches Ok(ro)
            ==> spec_condition_of(Predicates::And((Box::new(l), Box::new(r)))) == Ok::<
            Option<Condition>,
            TranslateError,
        >(
            match (lo, ro) {
                (Option::Some(lc), Option::Some(rc)) => Some(
                    Condition::And(Box::new(lc), Box::new(rc)),
                ),
                _ => None,
            },
        ),
{
}

/// OR obeys the same both-or-nothing law as AND, combined with logical OR:
/// pushing down only one disjunct would silently narrow the result set, so
/// a disjunction is pushed down whole or not at all.
pub proof fn lemma_or_both_or_nothing(l: Predicates, r: Predicates)
    ensures
        spec_condition_of(l) matches Ok(lo) ==> spec_condition_of(r) matches Ok(ro)
            ==> spec_condition_of(Predicates::Or((Box::new(l), Box::new(r)))) == Ok::<
            Option<Condition>,
            TranslateError,
        >(
            match (lo, ro) {
                (Option::Some(lc), Option::Some(rc)) => Some(
                    Condition::Or(Box::new(lc), Box::new(rc)),
                ),
                _ => None,
            },
        ),
{
}

/// Translation is a pure function of its input: any two results the
/// translator's contract admits for the same tree are equal, so translating
/// the same tree twice yields structurally equal results.
pub proof fn lemma_translation_deterministic(
    preds: Predicates,
    r1: Result<Option<Condition>, TranslateError>,
    r2: Result<Option<Condition>, TranslateError>,
)
    requires
        r1 == spec_condition_of(preds),
        r2 == spec_condition_of(preds),
    ensures
        r1 == r2,
{
}

/// A constant that fails generic-to-typed conversion fails the whole
/// enclosing comparison leaf: the offending operand is never dropped.
pub proof fn lemma_constant_failure_fails_leaf(pred: Predicate)
    requires
        (pred.left is Const && spec_store_property(pred.left->Const_0) is Err) || (
        spec_store_operand(pred.left) is Ok && pred.right is Const && spec_store_property(
            pred.right->Const_0,
        ) is Err),
    ensures
        spec_pred_condition(pred) is Err,
        spec_condition_of(Predicates::Predicate(pred)) is Err,
{
}

/// A hard failure in either subtree aborts every enclosing connective:
/// NOT, AND and OR all surface it instead of dropping the failed part.
pub proof fn lemma_error_propagation(l: Predicates, r: Predicates)
    requires
        spec_condition_of(l) is Err || spec_condition_of(r) is Err,
    ensures
        spec_condition_of(Predicates::And((Box::new(l), Box::new(r)))) is Err,
        spec_condition_of(Predicates::Or((Box::new(l), Box::new(r)))) is Err,
        spec_condition_of(l) is Err ==> spec_condition_of(Predicates::Not(Box::new(l))) is Err,
{
}

} // verus!
