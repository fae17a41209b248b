use predicate_pushdown::condition::{Condition, ConditionBuilder, PredCondition};

fn leaf(prop: u32) -> Condition {
    Condition::new(PredCondition::new_has_prop(prop))
}

#[test]
fn empty_builder_builds_nothing() {
    let builder = ConditionBuilder::new();
    assert_eq!(builder.build(), None);
}

#[test]
fn first_condition_is_taken_as_is() {
    let mut builder = ConditionBuilder::new();
    builder.and(leaf(1));
    assert_eq!(builder.build(), Some(leaf(1)));
}

#[test]
fn and_then_or_chain_associates_left() {
    let mut builder = ConditionBuilder::new();
    builder.and(leaf(1));
    builder.and(leaf(2));
    builder.or(leaf(3));
    let expected = Condition::Or(
        Box::new(Condition::And(Box::new(leaf(1)), Box::new(leaf(2)))),
        Box::new(leaf(3)),
    );
    assert_eq!(builder.build(), Some(expected));
}

#[test]
fn not_negates_the_whole_accumulated_condition() {
    let mut builder = ConditionBuilder::new();
    builder.and(leaf(1));
    builder.or(leaf(2));
    builder.not();
    let expected = Condition::Not(Box::new(Condition::Or(Box::new(leaf(1)), Box::new(leaf(2)))));
    assert_eq!(builder.build(), Some(expected));
}

#[test]
fn not_on_empty_builder_stays_empty() {
    let mut builder = ConditionBuilder::new();
    builder.not();
    assert_eq!(builder.build(), None);
}
