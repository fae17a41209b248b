//! The translation itself: from the engine's predicate algebra into the
//! storage backend's condition algebra.
//!
//! Every executable function returns exactly what its companion spec
//! function computes, so the whole translation is pinned down functionally.
//! The spec functions distinguish three outcomes, as the contract demands:
//! `Err` for structurally invalid input, `Ok(None)` for valid input whose
//! push-down is not possible (the caller falls back to local evaluation),
//! and `Ok(Some(c))` for a fully pushed-down equivalent condition.

use vstd::prelude::*;

use crate::condition::{
    CmpOperator, Condition, ConditionBuilder, PredCondition, PropId, Property, StoreOperand,
};
use crate::error::TranslateError;
use crate::expr::{
    Logical, NameOrId, Object, Operand, PEvaluator, Predicate, Predicates, Primitives, PropKey,
};

verus! {

/// The property identifier an operand resolves to, if it is an untagged
/// variable over a concrete property identifier; every other shape is
/// unsupported.
pub open spec fn spec_var_prop_id(op: Operand) -> Result<PropId, TranslateError> {
    match op {
        Operand::Var {
            tag: Option::None,
            prop_key: Option::Some(PropKey::Key(NameOrId::Id(id))),
        } => Ok(id),
        _ => Err(TranslateError::UnsupportedOperand),
    }
}

/// The storage-typed value a generic engine value converts to; values
/// outside the storage's typed domain fail.
pub open spec fn spec_store_property(obj: Object) -> Result<Property, TranslateError> {
    match obj {
        Object::Primitive(Primitives::Byte(b)) => Ok(Property::Byte(b)),
        Object::Primitive(Primitives::Integer(i)) => Ok(Property::Int(i)),
        Object::Primitive(Primitives::Long(l)) => Ok(Property::Long(l)),
        _ => Err(TranslateError::ConstantConversionFailed),
    }
}

/// The storage operand an engine operand translates to: an untagged
/// variable over a property identifier, the label or the element identifier
/// becomes the corresponding storage reference, and a constant becomes a
/// typed storage constant if it converts.
pub open spec fn spec_store_operand(op: Operand) -> Result<StoreOperand, TranslateError> {
    match op {
        Operand::Var { tag: Option::None, prop_key: Option::Some(key) } => match key {
            PropKey::Key(NameOrId::Id(id)) => Ok(StoreOperand::PropId(id)),
            PropKey::Label => Ok(StoreOperand::Label),
            PropKey::Id => Ok(StoreOperand::Id),
            _ => Err(TranslateError::UnsupportedOperand),
        },
        Operand::Const(obj) => match spec_store_property(obj) {
            Ok(prop) => Ok(StoreOperand::Const(prop)),
            Err(e) => Err(e),
        },
        _ => Err(TranslateError::UnsupportedOperand),
    }
}

/// The storage comparator an engine comparator maps to, one to one for the
/// eight supported comparators; everything else is unsupported.
pub open spec fn spec_store_comparator(cmp: Logical) -> Result<CmpOperator, TranslateError> {
    match cmp {
        Logical::Eq => Ok(CmpOperator::Equal),
        Logical::Ne => Ok(CmpOperator::NotEqual),
        Logical::Lt => Ok(CmpOperator::LessThan),
        Logical::Le => Ok(CmpOperator::LessEqual),
        Logical::Gt => Ok(CmpOperator::GreaterThan),
        Logical::Ge => Ok(CmpOperator::GreaterEqual),
        Logical::Within => Ok(CmpOperator::WithIn),
        Logical::Without => Ok(CmpOperator::WithOut),
        _ => Err(TranslateError::UnsupportedComparator),
    }
}

/// The storage leaf a comparison translates to: left operand first, then
/// right operand, then the comparator — the first failure wins.
pub open spec fn spec_pred_condition(pred: Predicate) -> Result<PredCondition, TranslateError> {
    match spec_store_operand(pred.left) {
        Err(e) => Err(e),
        Ok(left) => match spec_store_operand(pred.right) {
            Err(e) => Err(e),
            Ok(right) => match spec_store_comparator(pred.cmp) {
                Err(e) => Err(e),
                Ok(cmp) => Ok(PredCondition::Pred { left, cmp, right }),
            },
        },
    }
}

/// The full translation of a predicate tree.
///
/// `Init` carries no condition; a comparison or has-property leaf becomes a
/// leaf condition; NOT is pushed down only when its operand is, AND and OR
/// only when both their operands are (both-or-nothing); a hard failure
/// anywhere aborts the whole translation, left subtree before right.
pub open spec fn spec_condition_of(preds: Predicates) -> Result<
    Option<Condition>,
    TranslateError,
>
    decreases preds,
{
    match preds {
        Predicates::Init => Ok(None),
        Predicates::SingleItem(op) => match spec_var_prop_id(op) {
            Err(e) => Err(e),
            Ok(key) => Ok(Some(Condition::Pred(PredCondition::HasProp(key)))),
        },
        Predicates::Predicate(pred) => match spec_pred_condition(pred) {
            Err(e) => Err(e),
            Ok(pc) => Ok(Some(Condition::Pred(pc))),
        },
        Predicates::Not(inner) => match spec_condition_of(*inner) {
            Err(e) => Err(e),
            Ok(Option::Some(c)) => Ok(Some(Condition::Not(Box::new(c)))),
            Ok(Option::None) => Ok(None),
        },
        Predicates::And((left, right)) => match spec_condition_of(*left) {
            Err(e) => Err(e),
            Ok(lo) => match spec_condition_of(*right) {
                Err(e) => Err(e),
                Ok(ro) => match (lo, ro) {
                    (Option::Some(lc), Option::Some(rc)) => Ok(
                        Some(Condition::And(Box::new(lc), Box::new(rc))),
                    ),
                    _ => Ok(None),
                },
            },
        },
        Predicates::Or((left, right)) => match spec_condition_of(*left) {
            Err(e) => Err(e),
            Ok(lo) => match spec_condition_of(*right) {
                Err(e) => Err(e),
                Ok(ro) => match (lo, ro) {
                    (Option::Some(lc), Option::Some(rc)) => Ok(
                        Some(Condition::Or(Box::new(lc), Box::new(rc))),
                    ),
                    _ => Ok(None),
                },
            },
        },
    }
}

/// The full translation of the engine's compiled filter: a structural tree
/// is translated, a general expression is refused outright.
pub open spec fn spec_condition_of_eval(pe: PEvaluator) -> Result<
    Option<Condition>,
    TranslateError,
> {
    match pe {
        PEvaluator::General => Err(TranslateError::GeneralExpressionUnsupported),
        PEvaluator::Predicates(preds) => spec_condition_of(preds),
    }
}

impl Operand {
    /// Extract the property identifier alone, for the has-property test.
    pub fn get_var_prop_id(&self) -> (r: Result<PropId, TranslateError>)
        ensures
            r == spec_var_prop_id(*self),
    {
        match self {
            Operand::Var { tag: Option::None, prop_key: Option::Some(prop_key) } => match prop_key {
                PropKey::Key(NameOrId::Id(id)) => Ok(*id),
                _ => Err(TranslateError::UnsupportedOperand),
            },
            _ => Err(TranslateError::UnsupportedOperand),
        }
    }

    /// Translate this operand into a storage operand.
    pub fn to_store_operand(&self) -> (r: Result<StoreOperand, TranslateError>)
        ensures
            r == spec_store_operand(*self),
    {
        match self {
            Operand::Var { tag: Option::None, prop_key: Option::Some(prop_key) } => match prop_key {
                PropKey::Key(NameOrId::Id(id)) => Ok(StoreOperand::PropId(*id)),
                PropKey::Label => Ok(StoreOperand::Label),
                PropKey::Id => Ok(StoreOperand::Id),
                _ => Err(TranslateError::UnsupportedOperand),
            },
            Operand::Const(obj) => match obj.to_store_property() {
                Ok(prop) => Ok(StoreOperand::Const(prop)),
                Err(e) => Err(e),
            },
            _ => Err(TranslateError::UnsupportedOperand),
        }
    }
}

impl Object {
    /// Convert this generic value into the storage's typed representation.
    pub fn to_store_property(&self) -> (r: Result<Property, TranslateError>)
        ensures
            r == spec_store_property(*self),
    {
        match self {
            Object::Primitive(Primitives::Byte(b)) => Ok(Property::Byte(*b)),
            Object::Primitive(Primitives::Integer(i)) => Ok(Property::Int(*i)),
            Object::Primitive(Primitives::Long(l)) => Ok(Property::Long(*l)),
            _ => Err(TranslateError::ConstantConversionFailed),
        }
    }
}

impl Predicate {
    /// Translate this comparison into a storage leaf condition.
    pub fn to_pred_condition(&self) -> (r: Result<PredCondition, TranslateError>)
        ensures
            r == spec_pred_condition(*self),
    {
        let left = match self.left.to_store_operand() {
            Ok(l) => l,
            Err(e) => {
                return Err(e);
            },
        };
        let right = match self.right.to_store_operand() {
            Ok(rt) => rt,
            Err(e) => {
                return Err(e);
            },
        };
        let cmp = match self.cmp {
            Logical::Eq => CmpOperator::Equal,
            Logical::Ne => CmpOperator::NotEqual,
            Logical::Lt => CmpOperator::LessThan,
            Logical::Le => CmpOperator::LessEqual,
            Logical::Gt => CmpOperator::GreaterThan,
            Logical::Ge => CmpOperator::GreaterEqual,
            Logical::Within => CmpOperator::WithIn,
            Logical::Without => CmpOperator::WithOut,
            _ => {
                return Err(TranslateError::UnsupportedComparator);
            },
        };
        Ok(PredCondition::new_predicate(left, cmp, right))
    }
}

impl Predicates {
    /// Translate this predicate tree into a storage condition, `Ok(None)`
    /// when push-down is not possible, or a hard failure.
    pub fn to_condition(&self) -> (r: Result<Option<Condition>, TranslateError>)
        ensures
            r == spec_condition_of(*self),
        decreases *self,
    {
        match self {
            Predicates::Init => Ok(None),
            Predicates::SingleItem(op) => {
                let key = match op.get_var_prop_id() {
                    Ok(k) => k,
                    Err(e) => {
                        return Err(e);
                    },
                };
                let mut builder = ConditionBuilder::new();
                builder.and(Condition::new(PredCondition::new_has_prop(key)));
                Ok(builder.build())
            },
            Predicates::Predicate(pred) => {
                let pc = match pred.to_pred_condition() {
                    Ok(pc) => pc,
                    Err(e) => {
                        return Err(e);
                    },
                };
                let mut builder = ConditionBuilder::new();
                builder.and(Condition::new(pc));
                Ok(builder.build())
            },
            Predicates::Not(inner) => {
                let cond = match inner.to_condition() {
                    Ok(c) => c,
                    Err(e) => {
                        return Err(e);
                    },
                };
                match cond {
                    Option::Some(cond) => {
                        let mut builder = ConditionBuilder::new();
                        builder.and(cond);
                        builder.not();
                        Ok(builder.build())
                    },
                    Option::None => Ok(None),
                }
            },
            Predicates::And((left, right)) => {
                let left_cond = match left.to_condition() {
                    Ok(c) => c,
                    Err(e) => {
                        return Err(e);
                    },
                };
                let right_cond = match right.to_condition() {
                    Ok(c) => c,
                    Err(e) => {
                        return Err(e);
                    },
                };
                match (left_cond, right_cond) {
                    (Option::Some(lc), Option::Some(rc)) => {
                        let mut builder = ConditionBuilder::new();
                        builder.and(lc);
                        builder.and(rc);
                        Ok(builder.build())
                    },
                    _ => Ok(None),
                }
            },
            Predicates::Or((left, right)) => {
                let left_cond = match left.to_condition() {
                    Ok(c) => c,
                    Err(e) => {
                        return Err(e);
                    },
                };
                let right_cond = match right.to_condition() {
                    Ok(c) => c,
                    Err(e) => {
                        return Err(e);
                    },
                };
                match (left_cond, right_cond) {
                    (Option::Some(lc), Option::Some(rc)) => {
                        let mut builder = ConditionBuilder::new();
                        builder.and(lc);
                        builder.or(rc);
                        Ok(builder.build())
                    },
                    _ => Ok(None),
                }
            },
        }
    }
}

impl PEvaluator {
    /// Translate the engine's compiled filter; a general expression is
    /// refused with a hard failure.
    pub fn to_condition(&self) -> (r: Result<Option<Condition>, TranslateError>)
        ensures
            r == spec_condition_of_eval(*self),
    {
        match self {
            PEvaluator::General => Err(TranslateError::GeneralExpressionUnsupported),
            PEvaluator::Predicates(preds) => preds.to_condition(),
        }
    }
}

} // verus!
