//! The storage backend's condition algebra: the output side of the
//! translation.
//!
//! A pushed-down filter is a [`Condition`] tree over comparison leaves on
//! storage operands, assembled through the incremental [`ConditionBuilder`].

use vstd::prelude::*;

verus! {

/// A property identifier as the storage backend addresses properties.
pub type PropId = u32;

/// A typed property value in the storage backend's representation.
///
/// The storage domain covers the signed integer primitives; engine values
/// outside it cannot be pushed down.
#[derive(Debug, Clone, Copy, PartialEq, Eq, Structural)]
pub enum Property {
    Byte(i8),
    Int(i32),
    Long(i64),
}

/// An atomic term of a storage-side comparison.
#[derive(Debug, Clone, Copy, PartialEq, Eq, Structural)]
pub enum StoreOperand {
    /// A property of the element, by identifier.
    PropId(PropId),
    /// The element's label.
    Label,
    /// The element's identifier.
    Id,
    /// A typed constant.
    Const(Property),
}

/// The storage backend's comparator set.
#[derive(Debug, Clone, Copy, PartialEq, Eq, Structural)]
pub enum CmpOperator {
    Equal,
    NotEqual,
    LessThan,
    LessEqual,
    GreaterThan,
    GreaterEqual,
    WithIn,
    WithOut,
}

/// A leaf condition: a comparison, or a "has this property" test.
#[derive(Debug, Clone, Copy, PartialEq, Eq, Structural)]
pub enum PredCondition {
    /// The element carries the property with this identifier.
    HasProp(PropId),
    /// `left cmp right` over storage operands.
    Pred { left: StoreOperand, cmp: CmpOperator, right: StoreOperand },
}

impl PredCondition {
    /// The "has this property" leaf.
    pub fn new_has_prop(prop: PropId) -> (r: Self)
        ensures
            r == PredCondition::HasProp(prop),
    {
        PredCondition::HasProp(prop)
    }

    /// A comparison leaf.
    pub fn new_predicate(left: StoreOperand, cmp: CmpOperator, right: StoreOperand) -> (r: Self)
        ensures
            r == (PredCondition::Pred { left, cmp, right }),
    {
        PredCondition::Pred { left, cmp, right }
    }
}

/// A storage-native filter condition: leaves combined with AND, OR and NOT.
#[derive(Debug, PartialEq, Eq)]
pub enum Condition {
    Pred(PredCondition),
    And(Box<Condition>, Box<Condition>),
    Or(Box<Condition>, Box<Condition>),
    Not(Box<Condition>),
}

impl Condition {
    /// The condition consisting of a single leaf.
    pub fn new(pred: PredCondition) -> (r: Self)
        ensures
            r == Condition::Pred(pred),
    {
        Condition::Pred(pred)
    }
}

/// An incremental accumulator for a [`Condition`].
///
/// It starts empty; `and` and `or` attach a further condition to whatever
/// has accumulated so far (left-associatively, in call order), and `not`
/// negates the whole accumulated expression. `build` yields the result, or
/// `None` if no condition was ever added. The exact combination order
/// matters: it determines the associativity of the emitted condition.
pub struct ConditionBuilder {
    cond: Option<Condition>,
}

impl ConditionBuilder {
    /// What the builder has accumulated so far.
    pub closed spec fn pending(self) -> Option<Condition> {
        self.cond
    }

    /// The empty builder.
    pub fn new() -> (r: Self)
        ensures
            r.pending() is None,
    {
        ConditionBuilder { cond: None }
    }

    /// Conjoin `cond` to the accumulated condition; a first condition is
    /// taken as is.
    pub fn and(&mut self, cond: Condition)
        ensures
            final(self).pending() == match old(self).pending() {
                Option::None => Some(cond),
                Option::Some(prev) => Some(Condition::And(Box::new(prev), Box::new(cond))),
            },
    {
        self.cond = match self.cond.take() {
            Option::None => Some(cond),
            Option::Some(prev) => Some(Condition::And(Box::new(prev), Box::new(cond))),
        };
    }

    /// Disjoin `cond` to the accumulated condition; a first condition is
    /// taken as is.
    pub fn or(&mut self, cond: Condition)
        ensures
            final(self).pending() == match old(self).pending() {
                Option::None => Some(cond),
                Option::Some(prev) => Some(Condition::Or(Box::new(prev), Box::new(cond))),
            },
    {
        self.cond = match self.cond.take() {
            Option::None => Some(cond),
            Option::Some(prev) => Some(Condition::Or(Box::new(prev), Box::new(cond))),
        };
    }

    /// Negate the whole accumulated condition; an empty builder stays empty.
    pub fn not(&mut self)
        ensures
            final(self).pending() == match old(self).pending() {
                Option::None => None::<Condition>,
                Option::Some(prev) => Some(Condition::Not(Box::new(prev))),
            },
    {
        self.cond = match self.cond.take() {
            Option::None => None,
            Option::Some(prev) => Some(Condition::Not(Box::new(prev))),
        };
    }

    /// The accumulated condition, or `None` if nothing was ever added.
    pub fn build(self) -> (r: Option<Condition>)
        ensures
            r == self.pending(),
    {
        self.cond
    }
}

} // verus!
