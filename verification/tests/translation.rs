use predicate_pushdown::condition::{
    CmpOperator, Condition, ConditionBuilder, PredCondition, Property, StoreOperand,
};
use predicate_pushdown::error::TranslateError;
use predicate_pushdown::expr::{
    Logical, NameOrId, Object, Operand, PEvaluator, Predicate, Predicates, Primitives, PropKey,
};

fn prop_var(id: u32) -> Operand {
    Operand::Var { tag: None, prop_key: Some(PropKey::Key(NameOrId::Id(id))) }
}

fn int_const(i: i32) -> Operand {
    Operand::Const(Object::Primitive(Primitives::Integer(i)))
}

#[test]
fn test_predicates_to_condition() {
    // test empty Predicates
    let pred = &Predicates::Init;
    let cond = pred.to_condition();
    assert!(cond.is_ok());
    assert_eq!(cond.unwrap(), None);

    // test SingleItem Predicates
    let oprand = Operand::Var { tag: None, prop_key: Some(PropKey::Key(NameOrId::Id(1))) };
    let pred = &Predicates::SingleItem(oprand);
    let mut builder = ConditionBuilder::new();
    builder.and(Condition::Pred(PredCondition::new_has_prop(1)));
    let target = builder.build();
    let cond = pred.to_condition();
    assert!(cond.is_ok());
    let cond = cond.unwrap();
    assert_eq!(cond, target);

    // test Predicates
    let left = Operand::Var { tag: None, prop_key: Some(PropKey::Key(NameOrId::Id(1))) };
    let right = Operand::Const(Object::Primitive(Primitives::Integer(10)));
    let cmp = Logical::Eq;

    let pred = &Predicates::Predicate(Predicate { left, cmp, right });

    let mut builder = ConditionBuilder::new();
    builder.and(Condition::Pred(PredCondition::new_predicate(
        StoreOperand::PropId(1),
        CmpOperator::Equal,
        StoreOperand::Const(Property::Int(10)),
    )));
    let target = builder.build();
    let cond = pred.to_condition();
    assert!(cond.is_ok());
    let cond = cond.unwrap();
    assert_eq!(cond, target);

    // test not Predicates
    let oprand = Operand::Var { tag: None, prop_key: Some(PropKey::Key(NameOrId::Id(1))) };
    let pred = &Predicates::Not(Box::new(Predicates::SingleItem(oprand)));
    let mut builder = ConditionBuilder::new();
    builder.and(Condition::Pred(PredCondition::new_has_prop(1)));
    builder.not();
    let target = builder.build();
    let cond = pred.to_condition();
    assert!(cond.is_ok());
    let cond = cond.unwrap();
    assert_eq!(cond, target);

    // test and Predicates
    let left = Operand::Var { tag: None, prop_key: Some(PropKey::Key(NameOrId::Id(1))) };
    let right = Operand::Const(Object::Primitive(Primitives::Integer(10)));
    let cmp = Logical::Ge;

    let pred_left = Predicates::Predicate(Predicate { left, cmp, right });

    let left = Operand::Var { tag: None, prop_key: Some(PropKey::Key(NameOrId::Id(1))) };
    let right = Operand::Const(Object::Primitive(Primitives::Integer(20)));
    let cmp = Logical::Le;

    let pred_right = Predicates::Predicate(Predicate { left, cmp, right });

    let pred = &Predicates::And((Box::new(pred_left), Box::new(pred_right)));

    let mut builder = ConditionBuilder::new();
    builder.and(Condition::Pred(PredCondition::new_predicate(
        StoreOperand::PropId(1),
        CmpOperator::GreaterEqual,
        StoreOperand::Const(Property::Int(10)),
    )));
    builder.and(Condition::Pred(PredCondition::new_predicate(
        StoreOperand::PropId(1),
        CmpOperator::LessEqual,
        StoreOperand::Const(Property::Int(20)),
    )));
    let target = builder.build();
    let cond = pred.to_condition();
    assert!(cond.is_ok());
    let cond = cond.unwrap();
    assert_eq!(cond, target);

    // test or Predicates
    let left = Operand::Var { tag: None, prop_key: Some(PropKey::Key(NameOrId::Id(1))) };
    let right = Operand::Const(Object::Primitive(Primitives::Integer(10)));
    let cmp = Logical::Ge;

    let pred_left = Predicates::Predicate(Predicate { left, cmp, right });

    let left = Operand::Var { tag: None, prop_key: Some(PropKey::Key(NameOrId::Id(1))) };
    let right = Operand::Const(Object::Primitive(Primitives::Integer(20)));
    let cmp = Logical::Le;

    let pred_right = Predicates::Predicate(Predicate { left, cmp, right });

    let pred = &Predicates::Or((Box::new(pred_left), Box::new(pred_right)));

    let mut builder = ConditionBuilder::new();
    builder.and(Condition::Pred(PredCondition::new_predicate(
        StoreOperand::PropId(1),
        CmpOperator::GreaterEqual,
        StoreOperand::Const(Property::Int(10)),
    )));
    builder.or(Condition::Pred(PredCondition::new_predicate(
        StoreOperand::PropId(1),
        CmpOperator::LessEqual,
        StoreOperand::Const(Property::Int(20)),
    )));
    let target = builder.build();
    let cond = pred.to_condition();
    assert!(cond.is_ok());
    let cond = cond.unwrap();
    assert_eq!(cond, target);
}

#[test]
fn init_translates_to_no_condition() {
    assert_eq!(Predicates::Init.to_condition(), Ok(None));
}

#[test]
fn single_item_over_non_property_operands_fails() {
    let tagged = Operand::Var {
        tag: Some(NameOrId::Id(2)),
        prop_key: Some(PropKey::Key(NameOrId::Id(1))),
    };
    assert_eq!(
        Predicates::SingleItem(tagged).to_condition(),
        Err(TranslateError::UnsupportedOperand)
    );

    let label = Operand::Var { tag: None, prop_key: Some(PropKey::Label) };
    assert_eq!(
        Predicates::SingleItem(label).to_condition(),
        Err(TranslateError::UnsupportedOperand)
    );

    let named = Operand::Var {
        tag: None,
        prop_key: Some(PropKey::Key(NameOrId::Name(String::from("age")))),
    };
    assert_eq!(
        Predicates::SingleItem(named).to_condition(),
        Err(TranslateError::UnsupportedOperand)
    );

    assert_eq!(
        Predicates::SingleItem(int_const(1)).to_condition(),
        Err(TranslateError::UnsupportedOperand)
    );
}

#[test]
fn each_comparator_maps_exactly() {
    let table = [
        (Logical::Eq, CmpOperator::Equal),
        (Logical::Ne, CmpOperator::NotEqual),
        (Logical::Lt, CmpOperator::LessThan),
        (Logical::Le, CmpOperator::LessEqual),
        (Logical::Gt, CmpOperator::GreaterThan),
        (Logical::Ge, CmpOperator::GreaterEqual),
        (Logical::Within, CmpOperator::WithIn),
        (Logical::Without, CmpOperator::WithOut),
    ];
    for (cmp, store_cmp) in table {
        let pred = Predicates::Predicate(Predicate { left: prop_var(1), cmp, right: int_const(10) });
        let expected = Condition::Pred(PredCondition::Pred {
            left: StoreOperand::PropId(1),
            cmp: store_cmp,
            right: StoreOperand::Const(Property::Int(10)),
        });
        assert_eq!(pred.to_condition(), Ok(Some(expected)));
    }
}

#[test]
fn out_of_set_comparator_fails() {
    for cmp in [Logical::Startswith, Logical::Endswith, Logical::Regex, Logical::Isnull, Logical::And, Logical::Or, Logical::Not] {
        let pred = Predicates::Predicate(Predicate { left: prop_var(1), cmp, right: int_const(10) });
        assert_eq!(pred.to_condition(), Err(TranslateError::UnsupportedComparator));
    }
}

#[test]
fn not_of_untranslatable_degrades_to_none() {
    let pred = Predicates::Not(Box::new(Predicates::Init));
    assert_eq!(pred.to_condition(), Ok(None));
}

#[test]
fn and_degrades_to_none_when_either_side_does() {
    let leaf = || Predicates::Predicate(Predicate {
        left: prop_var(1),
        cmp: Logical::Ge,
        right: int_const(10),
    });
    let left_none = Predicates::And((Box::new(Predicates::Init), Box::new(leaf())));
    assert_eq!(left_none.to_condition(), Ok(None));
    let right_none = Predicates::And((Box::new(leaf()), Box::new(Predicates::Init)));
    assert_eq!(right_none.to_condition(), Ok(None));
    let both_none = Predicates::And((Box::new(Predicates::Init), Box::new(Predicates::Init)));
    assert_eq!(both_none.to_condition(), Ok(None));
}

#[test]
fn or_degrades_to_none_when_either_side_does() {
    let leaf = || Predicates::Predicate(Predicate {
        left: prop_var(1),
        cmp: Logical::Le,
        right: int_const(20),
    });
    let left_none = Predicates::Or((Box::new(Predicates::Init), Box::new(leaf())));
    assert_eq!(left_none.to_condition(), Ok(None));
    let right_none = Predicates::Or((Box::new(leaf()), Box::new(Predicates::Init)));
    assert_eq!(right_none.to_condition(), Ok(None));
}

#[test]
fn translating_twice_yields_equal_results() {
    let pred = Predicates::And((
        Box::new(Predicates::Predicate(Predicate {
            left: prop_var(1),
            cmp: Logical::Ge,
            right: int_const(10),
        })),
        Box::new(Predicates::Not(Box::new(Predicates::SingleItem(prop_var(2))))),
    ));
    assert_eq!(pred.to_condition(), pred.to_condition());

    let untranslatable = Predicates::Or((Box::new(Predicates::Init), Box::new(Predicates::Init)));
    assert_eq!(untranslatable.to_condition(), untranslatable.to_condition());
}

#[test]
fn failed_constant_conversion_fails_enclosing_tree() {
    let bad_leaf = || Predicates::Predicate(Predicate {
        left: prop_var(1),
        cmp: Logical::Eq,
        right: Operand::Const(Object::Null),
    });
    let good_leaf = || Predicates::Predicate(Predicate {
        left: prop_var(1),
        cmp: Logical::Ge,
        right: int_const(10),
    });

    assert_eq!(bad_leaf().to_condition(), Err(TranslateError::ConstantConversionFailed));

    let under_and = Predicates::And((Box::new(good_leaf()), Box::new(bad_leaf())));
    assert_eq!(under_and.to_condition(), Err(TranslateError::ConstantConversionFailed));

    let under_or = Predicates::Or((Box::new(bad_leaf()), Box::new(good_leaf())));
    assert_eq!(under_or.to_condition(), Err(TranslateError::ConstantConversionFailed));

    let under_not = Predicates::Not(Box::new(bad_leaf()));
    assert_eq!(under_not.to_condition(), Err(TranslateError::ConstantConversionFailed));

    // the error surfaces even when the sibling could not be pushed down
    let beside_none = Predicates::And((Box::new(Predicates::Init), Box::new(bad_leaf())));
    assert_eq!(beside_none.to_condition(), Err(TranslateError::ConstantConversionFailed));
}

#[test]
fn general_expression_is_refused() {
    assert_eq!(
        PEvaluator::General.to_condition(),
        Err(TranslateError::GeneralExpressionUnsupported)
    );
}

#[test]
fn evaluator_over_predicates_translates_the_tree() {
    let pe = PEvaluator::Predicates(Predicates::SingleItem(prop_var(7)));
    assert_eq!(
        pe.to_condition(),
        Ok(Some(Condition::Pred(PredCondition::HasProp(7))))
    );
    assert_eq!(PEvaluator::Predicates(Predicates::Init).to_condition(), Ok(None));
}
