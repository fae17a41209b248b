//! The query engine's predicate algebra: the input side of the translation.
//!
//! A filter is a [`Predicates`] tree whose leaves compare [`Operand`]s —
//! variable references into the current graph element, or literal constants
//! in the engine's generic value representation.

use vstd::prelude::*;

verus! {

/// A name or a numeric identifier, as the engine addresses properties.
///
/// Only the numeric form can be pushed down; the storage backend addresses
/// properties by identifier alone.
#[derive(Debug, Clone, PartialEq, Eq)]
pub enum NameOrId {
    Name(String),
    Id(u32),
}

/// Which datum of a graph element a variable reads.
#[derive(Debug, Clone, PartialEq, Eq)]
pub enum PropKey {
    /// The element's own identifier.
    Id,
    /// The element's label.
    Label,
    /// The number of properties the element carries.
    Len,
    /// All properties at once.
    All,
    /// One property, addressed by name or identifier.
    Key(NameOrId),
}

/// A primitive literal in the engine's generic value representation.
#[derive(Debug, Clone, Copy, PartialEq, Eq, Structural)]
pub enum Primitives {
    Byte(i8),
    Integer(i32),
    Long(i64),
    ULLong(u128),
}

/// A literal constant in the engine's generic value representation.
///
/// The engine's value domain is wider than the storage backend's typed
/// property domain; values outside the storage domain fail conversion.
#[derive(Debug, Clone, PartialEq, Eq)]
pub enum Object {
    Primitive(Primitives),
    Str(String),
    Null,
}

/// An atomic term of a comparison: a variable reference or a constant.
#[derive(Debug, PartialEq, Eq)]
pub enum Operand {
    /// A literal constant.
    Const(Object),
    /// A variable. `tag` names which previously bound graph element the
    /// variable reads (`None` means the current element); `prop_key` names
    /// the datum read from it (`None` means the element itself).
    Var { tag: Option<NameOrId>, prop_key: Option<PropKey> },
    /// Several variables at once, as a list.
    Vars(Vec<Operand>),
    /// Several variables at once, as a key/value map.
    VarMap(Vec<Operand>),
}

/// The engine's comparison and logical operator set.
///
/// Only the eight comparators from `Eq` through `Without` are meaningful in
/// a comparison leaf; the remaining variants appear elsewhere in the
/// engine's expression language and are invalid input for this translator.
#[derive(Debug, Clone, Copy, PartialEq, Eq, Structural)]
pub enum Logical {
    Eq,
    Ne,
    Lt,
    Le,
    Gt,
    Ge,
    Within,
    Without,
    Startswith,
    Endswith,
    Regex,
    Isnull,
    And,
    Or,
    Not,
}

/// A single comparison: `left cmp right`.
#[derive(Debug, PartialEq, Eq)]
pub struct Predicate {
    pub left: Operand,
    pub cmp: Logical,
    pub right: Operand,
}

/// A boolean filter expression tree.
#[derive(Debug, PartialEq, Eq)]
pub enum Predicates {
    /// The empty predicate: no filtering at all.
    Init,
    /// An implicit "the element has this property" test.
    SingleItem(Operand),
    /// A single comparison leaf.
    Predicate(Predicate),
    /// Logical negation.
    Not(Box<Predicates>),
    /// Logical conjunction.
    And((Box<Predicates>, Box<Predicates>)),
    /// Logical disjunction.
    Or((Box<Predicates>, Box<Predicates>)),
}

/// The engine's compiled filter, as handed to the storage adapter.
///
/// A filter is either a structural [`Predicates`] tree, which this crate can
/// try to push down, or a general compiled expression, which it cannot.
#[derive(Debug, PartialEq, Eq)]
pub enum PEvaluator {
    /// An arbitrary compiled expression. Its internals are never inspected
    /// here: translation refuses it outright.
    General,
    /// A structural predicate tree.
    Predicates(Predicates),
}

} // verus!
