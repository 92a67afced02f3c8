use analytics::descriptor::Aggregate;
use analytics::descriptor::LimitByClause;
use analytics::descriptor::Order;
use analytics::descriptor::Window;
use analytics::errors::PostProcessingError;
use analytics::errors::QueryBuildingError;
use analytics::ids::CustomerId;
use analytics::ids::MerchantId;
use analytics::ids::OrganizationId;
use analytics::ids::PaymentId;
use analytics::ids::ProfileId;
use analytics::source::AnalyticsCollection;
use analytics::source::AnalyticsDataSource;
use analytics::source::ClickhouseClient;
use analytics::source::ParsingError;
use analytics::source::SqlxClient;
use analytics::source::TableEngine;
use analytics::text::join_strings;
use analytics::text::strip_spaces;
use analytics::text::u64_to_string;
use analytics::to_sql::ToSql;

const SIGNED: TableEngine = TableEngine::CollapsingMergeTree { sign: "sign_flag" };

fn sqlx<V: ToSql<SqlxClient>>(value: V) -> String {
    value.to_sql(&TableEngine::BasicTree).unwrap()
}

fn clickhouse<V: ToSql<ClickhouseClient>>(value: V, table_engine: TableEngine) -> String {
    value.to_sql(&table_engine).unwrap()
}

#[test]
fn numbers_render_as_decimal_numerals() {
    assert_eq!(u64_to_string(0), "0");
    assert_eq!(u64_to_string(7), "7");
    assert_eq!(u64_to_string(10), "10");
    assert_eq!(u64_to_string(1905), "1905");
    assert_eq!(u64_to_string(1000000), "1000000");
    assert_eq!(u64_to_string(18446744073709551615), "18446744073709551615");
    assert_eq!(sqlx(42u64), "42");
    assert_eq!(sqlx(&42u64), "42");
    for n in [0u64, 9, 10, 99, 100, 12345, 4294967296, 9999999999999999999] {
        assert_eq!(u64_to_string(n), n.to_string());
    }
}

#[test]
fn strings_render_as_themselves() {
    assert_eq!(sqlx("merchant id"), "merchant id");
    assert_eq!(sqlx(String::from("a'b")), "a'b");
    assert_eq!(sqlx(&String::from("")), "");
    assert_eq!(clickhouse("x", SIGNED), "x");
}

#[test]
fn an_owned_flag_is_a_digit_and_a_borrowed_flag_a_word() {
    assert_eq!(sqlx(true), "1");
    assert_eq!(sqlx(false), "0");
    assert_eq!(sqlx(&true), "true");
    assert_eq!(sqlx(&false), "false");
}

#[test]
fn identifiers_render_as_their_text() {
    let merchant = MerchantId::new(String::from("merchant_1"));
    assert_eq!(merchant.get_string_repr(), "merchant_1");
    assert_eq!(sqlx(&merchant), "merchant_1");
    assert_eq!(sqlx(merchant), "merchant_1");
    assert_eq!(sqlx(&OrganizationId::new(String::from("org_1"))), "org_1");
    assert_eq!(sqlx(ProfileId::new(String::from("pro_1"))), "pro_1");
    assert_eq!(sqlx(&PaymentId::new(String::from("pay_1"))), "pay_1");
    assert_eq!(sqlx(CustomerId::new(String::from("cus_1"))), "cus_1");
    assert_eq!(CustomerId::new(String::from("cus 2")).get_string_repr(), "cus 2");
}

#[test]
fn directions_render_in_lower_case() {
    assert_eq!(Order::Ascending.to_string(), "asc");
    assert_eq!(Order::Descending.to_string(), "desc");
    assert_eq!(sqlx(Order::Ascending), "asc");
    assert_eq!(clickhouse(Order::Descending, TableEngine::BasicTree), "desc");
}

#[test]
fn tables_have_a_name_in_each_backend_that_holds_them() {
    assert_eq!(sqlx(AnalyticsCollection::Payment), "payment_attempt");
    assert_eq!(sqlx(AnalyticsCollection::Refund), "refund");
    assert_eq!(sqlx(AnalyticsCollection::FraudCheck), "fraud_check");
    assert_eq!(sqlx(AnalyticsCollection::PaymentIntent), "payment_intent");
    assert_eq!(sqlx(AnalyticsCollection::Dispute), "dispute");
    let missing: Result<String, ParsingError> =
        ToSql::<SqlxClient>::to_sql(&AnalyticsCollection::ApiEvents, &TableEngine::BasicTree);
    assert!(matches!(missing, Err(ParsingError::UnknownError)));
    let names = [
        (AnalyticsCollection::Payment, "payment_attempts"),
        (AnalyticsCollection::PaymentSessionized, "sessionizer_payment_attempts"),
        (AnalyticsCollection::Refund, "refunds"),
        (AnalyticsCollection::RefundSessionized, "sessionizer_refunds"),
        (AnalyticsCollection::FraudCheck, "fraud_check"),
        (AnalyticsCollection::SdkEvents, "sdk_events_audit"),
        (AnalyticsCollection::SdkEventsAnalytics, "sdk_events"),
        (AnalyticsCollection::ApiEvents, "api_events_audit"),
        (AnalyticsCollection::PaymentIntent, "payment_intents"),
        (AnalyticsCollection::PaymentIntentSessionized, "sessionizer_payment_intents"),
        (AnalyticsCollection::ConnectorEvents, "connector_events_audit"),
        (AnalyticsCollection::OutgoingWebhookEvent, "outgoing_webhook_events_audit"),
        (AnalyticsCollection::Authentications, "authentications"),
        (AnalyticsCollection::Dispute, "dispute"),
        (AnalyticsCollection::DisputeSessionized, "sessionizer_dispute"),
        (AnalyticsCollection::ApiEventsAnalytics, "api_events"),
        (AnalyticsCollection::ActivePaymentsAnalytics, "active_payments"),
        (AnalyticsCollection::RoutingEvents, "routing_events_audit"),
    ];
    for (table, name) in names {
        assert_eq!(clickhouse(table, TableEngine::BasicTree), name);
    }
}

#[test]
fn the_transactional_backend_stores_every_table_plainly() {
    assert!(matches!(
        SqlxClient::get_table_engine(AnalyticsCollection::Payment),
        TableEngine::BasicTree
    ));
    assert!(matches!(
        SqlxClient::get_table_engine(AnalyticsCollection::ApiEvents),
        TableEngine::BasicTree
    ));
}

#[test]
fn the_analytical_backend_stores_the_ledger_tables_with_a_sign() {
    for table in [
        AnalyticsCollection::Payment,
        AnalyticsCollection::PaymentSessionized,
        AnalyticsCollection::Refund,
        AnalyticsCollection::RefundSessionized,
        AnalyticsCollection::FraudCheck,
        AnalyticsCollection::PaymentIntent,
        AnalyticsCollection::PaymentIntentSessionized,
        AnalyticsCollection::Authentications,
        AnalyticsCollection::Dispute,
        AnalyticsCollection::DisputeSessionized,
    ] {
        assert!(matches!(
            ClickhouseClient::get_table_engine(table),
            TableEngine::CollapsingMergeTree { sign: "sign_flag" }
        ));
    }
    for table in [
        AnalyticsCollection::SdkEvents,
        AnalyticsCollection::SdkEventsAnalytics,
        AnalyticsCollection::ApiEvents,
        AnalyticsCollection::ConnectorEvents,
        AnalyticsCollection::OutgoingWebhookEvent,
        AnalyticsCollection::ApiEventsAnalytics,
        AnalyticsCollection::ActivePaymentsAnalytics,
        AnalyticsCollection::RoutingEvents,
    ] {
        assert!(matches!(ClickhouseClient::get_table_engine(table), TableEngine::BasicTree));
    }
}

#[test]
fn aggregates_of_the_transactional_backend() {
    assert_eq!(sqlx(Aggregate::<&str>::Count { field: None, alias: None }), "COUNT(*)");
    assert_eq!(
        sqlx(Aggregate::<&str>::Count { field: None, alias: Some("count") }),
        "COUNT(*) AS count"
    );
    assert_eq!(sqlx(Aggregate::Count { field: Some("id"), alias: Some("n") }), "COUNT(id) AS n");
    assert_eq!(sqlx(Aggregate::Sum { field: "amount", alias: Some("total") }), "SUM(amount) AS total");
    assert_eq!(sqlx(Aggregate::Min { field: "amount", alias: None }), "MIN(amount)");
    assert_eq!(sqlx(Aggregate::Max { field: "amount", alias: Some("top") }), "MAX(amount) AS top");
    assert_eq!(
        sqlx(Aggregate::DistinctCount { field: "customer_id", alias: Some("customers") }),
        "COUNT(DISTINCT customer_id) AS customers"
    );
    assert_eq!(
        sqlx(Aggregate::Percentile { field: "latency", alias: Some("p"), percentile: Some(&95) }),
        "PERCENTILE_CONT(0.95) WITHIN GROUP (ORDER BY latency ASC) AS p"
    );
    assert_eq!(
        sqlx(Aggregate::Percentile { field: "latency", alias: None, percentile: None }),
        "PERCENTILE_CONT(0.50) WITHIN GROUP (ORDER BY latency ASC)"
    );
}

#[test]
fn aggregates_of_the_analytical_backend_on_a_plain_table() {
    let plain = TableEngine::BasicTree;
    assert_eq!(clickhouse(Aggregate::<&str>::Count { field: None, alias: None }, plain), "COUNT(*)");
    assert_eq!(
        clickhouse(Aggregate::Count { field: Some("id"), alias: Some("n") }, plain),
        "COUNT(id) AS n"
    );
    assert_eq!(clickhouse(Aggregate::Sum { field: "amount", alias: None }, plain), "SUM(amount)");
    assert_eq!(clickhouse(Aggregate::Min { field: "amount", alias: None }, plain), "MIN(amount)");
    assert_eq!(clickhouse(Aggregate::Max { field: "amount", alias: None }, plain), "MAX(amount)");
    assert_eq!(
        clickhouse(Aggregate::DistinctCount { field: "customer_id", alias: None }, plain),
        "COUNT(DISTINCT customer_id)"
    );
    assert_eq!(
        clickhouse(
            Aggregate::Percentile { field: "latency", alias: Some("p"), percentile: Some(&7) },
            plain
        ),
        "quantilesExact(0.7)(latency)[1] AS p"
    );
    assert_eq!(
        clickhouse(Aggregate::Percentile { field: "latency", alias: None, percentile: None }, plain),
        "quantilesExact(0.50)(latency)[1]"
    );
}

#[test]
fn counts_and_sums_on_a_signed_table_weigh_the_rows_by_their_sign() {
    assert_eq!(
        clickhouse(Aggregate::<&str>::Count { field: None, alias: Some("count") }, SIGNED),
        "SUM(sign_flag) AS count"
    );
    assert_eq!(
        clickhouse(Aggregate::Count { field: Some("id"), alias: None }, SIGNED),
        "SUM(sign_flag)"
    );
    assert_eq!(
        clickhouse(Aggregate::Sum { field: "amount", alias: Some("total") }, SIGNED),
        "SUM(sign_flag * amount) AS total"
    );
    assert_eq!(clickhouse(Aggregate::Min { field: "amount", alias: None }, SIGNED), "MIN(amount)");
    assert_eq!(
        clickhouse(
            Aggregate::Count { field: Some("id"), alias: None },
            TableEngine::CollapsingMergeTree { sign: "marker" }
        ),
        "SUM(marker)"
    );
}

#[test]
fn an_aggregate_fails_where_its_field_has_no_text() {
    let nested = Aggregate::Sum { field: AnalyticsCollection::ApiEvents, alias: None };
    let outcome: Result<String, ParsingError> =
        ToSql::<SqlxClient>::to_sql(&nested, &TableEngine::BasicTree);
    assert!(matches!(outcome, Err(ParsingError::UnknownError)));
}

#[test]
fn a_window_has_only_the_parts_it_was_given() {
    let partition = || Some(String::from("merchant_id, currency"));
    let ordering = || Some((String::from("count"), Order::Descending));
    assert_eq!(
        sqlx(Window::Sum { field: "count", partition_by: partition(), order_by: ordering(), alias: Some("total") }),
        "SUM(count) OVER (PARTITION BY merchant_id, currency ORDER BY count desc) AS total"
    );
    assert_eq!(
        sqlx(Window::Sum { field: "count", partition_by: partition(), order_by: None, alias: None }),
        "SUM(count) OVER (PARTITION BY merchant_id, currency)"
    );
    assert_eq!(
        sqlx(Window::Sum { field: "count", partition_by: None, order_by: ordering(), alias: None }),
        "SUM(count) OVER (ORDER BY count desc)"
    );
    assert_eq!(
        sqlx(Window::Sum { field: "count", partition_by: None, order_by: None, alias: Some("all") }),
        "SUM(count) OVER () AS all"
    );
    assert_eq!(
        clickhouse(
            Window::RowNumber {
                field: "",
                partition_by: Some(String::from("merchant_id")),
                order_by: Some((String::from("count"), Order::Ascending)),
                alias: Some("top_n"),
            },
            SIGNED
        ),
        "ROW_NUMBER() OVER (PARTITION BY merchant_id ORDER BY count asc) AS top_n"
    );
    assert_eq!(
        sqlx(Window::RowNumber { field: "ignored", partition_by: None, order_by: None, alias: None }),
        "ROW_NUMBER() OVER ()"
    );
}

#[test]
fn a_cap_names_its_number_and_its_columns() {
    let cap = LimitByClause::new(3, vec![String::from("merchant_id"), String::from("currency")]);
    assert_eq!(cap.to_string(), "LIMIT 3 BY merchant_id, currency");
    assert_eq!(LimitByClause::new(0, vec![]).to_string(), "LIMIT 0 BY ");
}

#[test]
fn errors_have_their_messages() {
    assert_eq!(
        QueryBuildingError::NotImplemented(String::from("window frames")).to_string(),
        "Not Implemented: window frames"
    );
    assert_eq!(QueryBuildingError::SqlSerializeError.to_string(), "Failed to Serialize to SQL");
    assert_eq!(
        QueryBuildingError::InvalidQuery("no select fields provided").to_string(),
        "Failed to build sql query: no select fields provided"
    );
    assert_eq!(
        PostProcessingError::BucketClipping.to_string(),
        "Error Clipping values to bucket sizes"
    );
}

#[test]
fn parts_are_joined_with_the_separator_between_them() {
    let parts = vec![String::from("a"), String::from(""), String::from("c")];
    assert_eq!(join_strings(&parts, ", "), "a, , c");
    assert_eq!(join_strings(&vec![String::from("only")], " AND "), "only");
    assert_eq!(join_strings(&Vec::new(), ", "), "");
}

#[test]
fn stripping_removes_blanks_and_nothing_else() {
    assert_eq!(strip_spaces(" a b  c "), "abc");
    assert_eq!(strip_spaces(""), "");
    assert_eq!(strip_spaces("   "), "");
    assert_eq!(strip_spaces("tab\there\nnew"), "tab\there\nnew");
    assert_eq!(strip_spaces("ü ber"), "über");
}
