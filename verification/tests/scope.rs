use analytics::builder::QueryBuilder;
use analytics::clause::QueryFilter;
use analytics::ids::MerchantId;
use analytics::ids::OrganizationId;
use analytics::ids::ProfileId;
use analytics::scope::AuthInfo;
use analytics::source::AnalyticsCollection;
use analytics::source::ClickhouseClient;
use analytics::source::SqlxClient;

fn organization() -> OrganizationId {
    OrganizationId::new(String::from("org_1"))
}

fn merchant(id: &str) -> MerchantId {
    MerchantId::new(String::from(id))
}

fn profile(id: &str) -> ProfileId {
    ProfileId::new(String::from(id))
}

fn filters_of(scope: &AuthInfo) -> String {
    let mut builder: QueryBuilder<SqlxClient> = QueryBuilder::new(AnalyticsCollection::Payment);
    builder.add_select_column("count").unwrap();
    scope.set_filter_clause(&mut builder).unwrap();
    let text = builder.build_query().unwrap();
    let prefix = "SELECT count FROM payment_attempt WHERE ";
    assert!(text.starts_with(prefix));
    String::from(&text[prefix.len()..])
}

fn conjuncts(filters: &str) -> usize {
    filters.split(" AND ").count()
}

#[test]
fn an_organization_is_one_filter() {
    let filters = filters_of(&AuthInfo::OrgLevel { org_id: organization() });
    assert_eq!(filters, "( organization_id = 'org_1' )");
    assert_eq!(conjuncts(&filters), 1);
}

#[test]
fn merchants_of_an_organization_are_two_filters() {
    let filters = filters_of(&AuthInfo::MerchantLevel {
        org_id: organization(),
        merchant_ids: vec![merchant("m1"), merchant("m2")],
    });
    assert_eq!(filters, "( organization_id = 'org_1' AND merchant_id IN ('m1', 'm2') )");
    assert_eq!(conjuncts(&filters), 2);
}

#[test]
fn profiles_of_a_merchant_are_three_filters() {
    let filters = filters_of(&AuthInfo::ProfileLevel {
        org_id: organization(),
        merchant_id: merchant("m1"),
        profile_ids: vec![profile("p1"), profile("p2"), profile("p3")],
    });
    assert_eq!(
        filters,
        "( organization_id = 'org_1' AND merchant_id = 'm1' AND profile_id IN ('p1', 'p2', 'p3') )"
    );
    assert_eq!(conjuncts(&filters), 3);
}

#[test]
fn a_scope_without_merchants_matches_none() {
    let filters =
        filters_of(&AuthInfo::MerchantLevel { org_id: organization(), merchant_ids: vec![] });
    assert_eq!(filters, "( organization_id = 'org_1' AND merchant_id IN () )");
}

#[test]
fn later_filters_narrow_the_scope_further() {
    let mut builder: QueryBuilder<ClickhouseClient> =
        QueryBuilder::new(AnalyticsCollection::Payment);
    builder.add_select_column("count").unwrap();
    let scope = AuthInfo::MerchantLevel {
        org_id: organization(),
        merchant_ids: vec![merchant("m 1")],
    };
    scope.set_filter_clause(&mut builder).unwrap();
    builder.add_filter_clause("status", "succeeded").unwrap();
    assert_eq!(
        builder.build_query().unwrap(),
        "SELECT count FROM payment_attempts WHERE ( organization_id = 'org_1' AND merchant_id IN ('m1') AND status = 'succeeded' )"
    );
}

#[test]
fn an_id_held_twice_is_written_twice() {
    let filters = filters_of(&AuthInfo::MerchantLevel {
        org_id: organization(),
        merchant_ids: vec![merchant("m1"), merchant("m2"), merchant("m1")],
    });
    assert_eq!(filters, "( organization_id = 'org_1' AND merchant_id IN ('m1', 'm2', 'm1') )");
    assert_eq!(conjuncts(&filters), 2);
}
