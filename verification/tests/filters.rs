use analytics::builder::QueryBuilder;
use analytics::filter::filter_type_to_sql;
use analytics::filter::Filter;
use analytics::filter::FilterCombinator;
use analytics::filter::FilterTypes;
use analytics::source::AnalyticsCollection;
use analytics::source::SqlxClient;
use analytics::source::TableEngine;
use analytics::to_sql::ToSql;

fn leaf(l: &str, op: FilterTypes, r: &str) -> Filter {
    Filter::Plain(String::from(l), op, String::from(r))
}

fn where_clause(builder: &mut QueryBuilder<SqlxClient>) -> String {
    let text = builder.build_query().unwrap();
    let prefix = "SELECT count FROM payment_attempt WHERE ";
    assert!(text.starts_with(prefix));
    String::from(&text[prefix.len()..])
}

fn counting_payments() -> QueryBuilder<SqlxClient> {
    let mut builder: QueryBuilder<SqlxClient> = QueryBuilder::new(AnalyticsCollection::Payment);
    builder.add_select_column("count").unwrap();
    builder
}

#[test]
fn every_operator_has_its_template() {
    assert_eq!(filter_type_to_sql("a", FilterTypes::Equal, "b"), "a = 'b'");
    assert_eq!(filter_type_to_sql("a", FilterTypes::NotEqual, "b"), "a != 'b'");
    assert_eq!(filter_type_to_sql("a", FilterTypes::EqualBool, "b"), "a = b");
    assert_eq!(filter_type_to_sql("a", FilterTypes::In, "'b', 'c'"), "a IN ('b', 'c')");
    assert_eq!(filter_type_to_sql("a", FilterTypes::Gte, "b"), "a >= 'b'");
    assert_eq!(filter_type_to_sql("a", FilterTypes::Lte, "b"), "a <= 'b'");
    assert_eq!(filter_type_to_sql("a", FilterTypes::Gt, "b"), "a > b");
    assert_eq!(filter_type_to_sql("a", FilterTypes::Like, "b"), "a LIKE '%b%'");
    assert_eq!(filter_type_to_sql("a", FilterTypes::NotLike, "b"), "a NOT LIKE '%b%'");
    assert_eq!(filter_type_to_sql("a", FilterTypes::IsNotNull, "b"), "a IS NOT NULL");
}

#[test]
fn operands_are_copied_as_they_are() {
    assert_eq!(filter_type_to_sql("", FilterTypes::Equal, ""), " = ''");
    assert_eq!(filter_type_to_sql("näme", FilterTypes::Like, "a'b c"), "näme LIKE '%a'b c%'");
}

#[test]
fn the_initial_tree_is_an_empty_conjunction() {
    assert_eq!(Filter::default().render(), "(  )");
    assert!(matches!(Filter::default(), Filter::NestedFilter(FilterCombinator::And, children) if children.is_empty()));
}

#[test]
fn a_node_joins_its_children_inside_one_pair_of_parentheses() {
    let tree = Filter::NestedFilter(
        FilterCombinator::Or,
        vec![
            leaf("a", FilterTypes::Equal, "1"),
            Filter::NestedFilter(
                FilterCombinator::And,
                vec![leaf("b", FilterTypes::Gt, "2"), leaf("c", FilterTypes::Lte, "3")],
            ),
            Filter::NestedFilter(FilterCombinator::Or, vec![]),
        ],
    );
    assert_eq!(tree.render(), "( a = '1' OR ( b > 2 AND c <= '3' ) OR (  ) )");
    let rendered: Result<String, _> = ToSql::<SqlxClient>::to_sql(&tree, &TableEngine::BasicTree);
    assert_eq!(rendered.unwrap(), "( a = '1' OR ( b > 2 AND c <= '3' ) OR (  ) )");
}

#[test]
fn a_single_child_has_no_combinator_beside_it() {
    let tree = Filter::NestedFilter(FilterCombinator::Or, vec![leaf("a", FilterTypes::Equal, "1")]);
    assert_eq!(tree.render(), "( a = '1' )");
}

#[test]
fn a_copy_of_a_tree_renders_alike() {
    let tree = Filter::NestedFilter(
        FilterCombinator::And,
        vec![
            leaf("a", FilterTypes::Equal, "1"),
            Filter::NestedFilter(FilterCombinator::Or, vec![leaf("b", FilterTypes::Like, "x")]),
        ],
    );
    assert_eq!(tree.clone().render(), tree.render());
    assert_eq!(tree.clone().render(), "( a = '1' AND ( b LIKE '%x%' ) )");
}

#[test]
fn combinators_render_with_blanks_on_both_sides() {
    let and: Result<String, _> =
        ToSql::<SqlxClient>::to_sql(&FilterCombinator::And, &TableEngine::BasicTree);
    let or: Result<String, _> =
        ToSql::<SqlxClient>::to_sql(&FilterCombinator::Or, &TableEngine::BasicTree);
    assert_eq!(and.unwrap(), " AND ");
    assert_eq!(or.unwrap(), " OR ");
    assert!(matches!(FilterCombinator::default(), FilterCombinator::And));
}

#[test]
fn added_filters_are_joined_by_and_in_the_order_of_their_addition() {
    let mut builder = counting_payments();
    builder.add_filter_clause("status", "succeeded").unwrap();
    builder.add_filter_in_range_clause("currency", &["USD", "EUR"]).unwrap();
    builder.add_custom_filter_clause("amount", 100u64, FilterTypes::Gte).unwrap();
    builder.add_custom_filter_clause("amount", 900u64, FilterTypes::Lte).unwrap();
    builder.add_custom_filter_clause("attempts", 2u64, FilterTypes::Gt).unwrap();
    builder.add_negative_filter_clause("connector", "dummy").unwrap();
    builder.add_bool_filter_clause("is_test", false).unwrap();
    assert_eq!(
        where_clause(&mut builder),
        "( status = 'succeeded' AND currency IN ('USD', 'EUR') AND amount >= '100' \
         AND amount <= '900' AND attempts > 2 AND connector != 'dummy' AND is_test = 0 )"
    );
}

#[test]
fn values_of_a_membership_lose_their_blanks_and_gain_quotes() {
    let mut builder = counting_payments();
    builder.add_filter_in_range_clause("merchant_id", &[" m 1 ", "m2", "  "]).unwrap();
    assert_eq!(where_clause(&mut builder), "( merchant_id IN ('m1', 'm2', '') )");
}

#[test]
fn a_membership_of_nothing_is_an_empty_list() {
    let mut builder = counting_payments();
    let none: [&str; 0] = [];
    builder.add_filter_in_range_clause("merchant_id", &none).unwrap();
    assert_eq!(where_clause(&mut builder), "( merchant_id IN () )");
}

#[test]
fn only_blanks_are_stripped_from_a_membership() {
    let mut builder = counting_payments();
    builder.add_filter_in_range_clause("k", &["a\tb", "c'd e", "é f"]).unwrap();
    assert_eq!(where_clause(&mut builder), "( k IN ('a\tb', 'c'de', 'éf') )");
}

#[test]
fn like_filters_wrap_the_operand_in_percent_signs() {
    let mut builder = counting_payments();
    builder.add_custom_filter_clause("name", "abc", FilterTypes::Like).unwrap();
    builder.add_custom_filter_clause("name", "xyz", FilterTypes::NotLike).unwrap();
    builder.add_custom_filter_clause("name", "", FilterTypes::IsNotNull).unwrap();
    assert_eq!(
        where_clause(&mut builder),
        "( name LIKE '%abc%' AND name NOT LIKE '%xyz%' AND name IS NOT NULL )"
    );
}
