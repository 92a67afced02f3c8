use analytics::builder::QueryBuilder;
use analytics::descriptor::Aggregate;
use analytics::descriptor::Order;
use analytics::errors::QueryBuildingError;
use analytics::errors::QueryResult;
use analytics::filter::FilterTypes;
use analytics::source::AnalyticsCollection;
use analytics::source::SqlxClient;

/// A value without a text in the transactional backend.
const NAMELESS: AnalyticsCollection = AnalyticsCollection::SdkEvents;

/// A value with a text in the transactional backend.
const NAMED: AnalyticsCollection = AnalyticsCollection::Refund;

const UNTOUCHED: &str = "SELECT count FROM payment_attempt WHERE ( status = 'succeeded' )";

fn builder() -> QueryBuilder<SqlxClient> {
    let mut builder: QueryBuilder<SqlxClient> = QueryBuilder::new(AnalyticsCollection::Payment);
    builder.add_select_column("count").unwrap();
    builder.add_filter_clause("status", "succeeded").unwrap();
    builder
}

fn assert_rejected<V: std::fmt::Debug>(outcome: QueryResult<V>, builder: &mut QueryBuilder<SqlxClient>) {
    assert!(matches!(outcome, Err(QueryBuildingError::SqlSerializeError)));
    assert_eq!(builder.build_query().unwrap(), UNTOUCHED);
    assert_eq!(builder.get_filter_type_clause(), None);
}

#[test]
fn an_unrenderable_column_is_not_selected() {
    let mut b = builder();
    let outcome = b.add_select_column(NAMELESS);
    assert_rejected(outcome, &mut b);
    let outcome = b.add_outer_select_column(NAMELESS);
    assert_rejected(outcome, &mut b);
}

#[test]
fn a_renderable_table_value_is_selected_by_its_name() {
    let mut b = builder();
    b.add_select_column(NAMED).unwrap();
    assert_eq!(
        b.build_query().unwrap(),
        "SELECT count, refund FROM payment_attempt WHERE ( status = 'succeeded' )"
    );
}

#[test]
fn a_filter_with_an_unrenderable_operand_is_not_added() {
    let mut b = builder();
    let outcome = b.add_filter_clause(NAMELESS, "x");
    assert_rejected(outcome, &mut b);
    let outcome = b.add_filter_clause("x", NAMELESS);
    assert_rejected(outcome, &mut b);
    let outcome = b.add_bool_filter_clause(NAMELESS, true);
    assert_rejected(outcome, &mut b);
    let outcome = b.add_negative_filter_clause("x", NAMELESS);
    assert_rejected(outcome, &mut b);
    let outcome = b.add_custom_filter_clause(NAMELESS, NAMELESS, FilterTypes::Like);
    assert_rejected(outcome, &mut b);
}

#[test]
fn a_membership_with_an_unrenderable_value_is_not_added() {
    let mut b = builder();
    let outcome = b.add_filter_in_range_clause("table", &[NAMED, NAMELESS, NAMED]);
    assert_rejected(outcome, &mut b);
    let outcome = b.add_filter_in_range_clause(NAMELESS, &["a"]);
    assert_rejected(outcome, &mut b);
    b.add_filter_in_range_clause("table", &[NAMED, AnalyticsCollection::Dispute]).unwrap();
    assert_eq!(
        b.build_query().unwrap(),
        "SELECT count FROM payment_attempt WHERE ( status = 'succeeded' AND table IN ('refund', 'dispute') )"
    );
}

#[test]
fn an_unrenderable_grouping_or_ordering_is_not_added() {
    let mut b = builder();
    let outcome = b.add_group_by_clause(NAMELESS);
    assert_rejected(outcome, &mut b);
    let outcome = b.add_order_by_clause(NAMELESS, Order::Ascending);
    assert_rejected(outcome, &mut b);
    let outcome = b.add_order_by_clause("count", NAMELESS);
    assert_rejected(outcome, &mut b);
    let outcome = b.set_limit_by(3, &[NAMED, NAMELESS]);
    assert_rejected(outcome, &mut b);
}

#[test]
fn an_unrenderable_condition_is_not_added() {
    let mut b = builder();
    let outcome =
        b.add_having_clause(Aggregate::Sum { field: NAMELESS, alias: None }, FilterTypes::Gt, 1u64);
    assert_rejected(outcome, &mut b);
    let outcome =
        b.add_having_clause(Aggregate::Sum { field: "amount", alias: None }, FilterTypes::Gt, NAMELESS);
    assert_rejected(outcome, &mut b);
}

#[test]
fn an_unrenderable_top_n_changes_nothing() {
    let mut b = builder();
    let outcome = b.add_top_n_clause(&[NAMED, NAMELESS], 3, "count", Order::Descending);
    assert_rejected(outcome, &mut b);
    let outcome = b.add_top_n_clause(&["merchant_id"], 3, NAMELESS, Order::Descending);
    assert_rejected(outcome, &mut b);
}

#[test]
fn joining_fails_on_the_first_unrenderable_value() {
    let mut b = builder();
    let outcome = b.transform_to_sql_values(&[NAMELESS, NAMED]);
    assert_rejected(outcome, &mut b);
    assert_eq!(b.transform_to_sql_values(&[NAMED, NAMED]).unwrap(), "refund, refund");
}
