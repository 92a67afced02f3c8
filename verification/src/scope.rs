//! What every query is narrowed by: the tenant on whose behalf it is made,
//! and the span of time it looks at.

use vstd::prelude::*;

use crate::builder::quoted_without_spaces;
use crate::builder::renderings;
use crate::builder::views_of;
use crate::builder::QueryBuilder;
use crate::clause::QueryFilter;
use crate::errors::QueryResult;
use crate::filter::lemma_with_none;
use crate::filter::lemma_with_one_more;
use crate::filter::FilterTypes;
use crate::filter::FilterView;
use crate::granularity::Timestamp;
use crate::ids::MerchantId;
use crate::ids::OrganizationId;
use crate::ids::ProfileId;
use crate::source::AnalyticsDataSource;
use crate::source::TableEngine;
use crate::text::join;
use crate::to_sql::ToSql;

verus! {

/// The tenant a query is made for: a whole organization, some merchants of
/// one, or some profiles of one merchant. The merchants and the profiles of
/// a scope are a set, held as a list: see `ids_are_distinct`.
#[derive(Debug)]
pub enum AuthInfo {
    OrgLevel { org_id: OrganizationId },
    MerchantLevel { org_id: OrganizationId, merchant_ids: Vec<MerchantId> },
    ProfileLevel { org_id: OrganizationId, merchant_id: MerchantId, profile_ids: Vec<ProfileId> },
}

impl AuthInfo {
    /// The ids of the scope, in the order they are held: the merchants of
    /// an organization, the profiles of a merchant, none for a whole
    /// organization.
    pub open spec fn member_ids(self) -> Seq<Seq<char>> {
        match self {
            AuthInfo::OrgLevel { org_id } => Seq::empty(),
            AuthInfo::MerchantLevel { org_id, merchant_ids } => views_of(merchant_ids@),
            AuthInfo::ProfileLevel { org_id, merchant_id, profile_ids } => views_of(profile_ids@),
        }
    }

    /// No merchant and no profile is held twice: the list of ids is a set.
    /// A scope is meant to be so; its filters are defined either way.
    pub open spec fn ids_are_distinct(self) -> bool {
        self.member_ids().no_duplicates()
    }
}

/// The filter `key = 'value'`.
pub open spec fn equality(key: Seq<char>, value: Seq<char>) -> FilterView {
    FilterView::Plain(key, FilterTypes::Equal, value)
}

/// The filter `key IN (..)` over the values, each stripped of its blanks and
/// put between single quotes, with `, ` between neighbours.
pub open spec fn membership(key: Seq<char>, values: Seq<Seq<char>>) -> FilterView {
    FilterView::Plain(key, FilterTypes::In, join(quoted_without_spaces(values), ", "@))
}

/// The filters of each scope. The organization is required at every level;
/// a narrower level requires more on top of it.
///
/// The list of a membership has one entry for every id that the scope
/// holds, in the order held. An id held twice is therefore written twice;
/// the list then matches the same rows as with the id written once.
pub open spec fn scope_filters(scope: AuthInfo) -> Seq<FilterView> {
    match scope {
        AuthInfo::OrgLevel { org_id } => seq![equality("organization_id"@, org_id@)],
        AuthInfo::MerchantLevel { org_id, merchant_ids } => seq![
            equality("organization_id"@, org_id@),
            membership("merchant_id"@, views_of(merchant_ids@)),
        ],
        AuthInfo::ProfileLevel { org_id, merchant_id, profile_ids } => seq![
            equality("organization_id"@, org_id@),
            equality("merchant_id"@, merchant_id@),
            membership("profile_id"@, views_of(profile_ids@)),
        ],
    }
}

/// An identifier always has a text, so a scope adds all its filters, for
/// every backend.
impl<T: AnalyticsDataSource> QueryFilter<T> for AuthInfo {
    open spec fn added_filters(&self, table_engine: TableEngine) -> Seq<FilterView> {
        scope_filters(*self)
    }

    open spec fn adds_all(&self, table_engine: TableEngine) -> bool {
        true
    }

    fn set_filter_clause(&self, builder: &mut QueryBuilder<T>) -> (res: QueryResult<()>) {
        let ghost before = builder@;
        let ghost engine = before.table_engine;
        proof {
            lemma_with_none(before.filters);
        }
        match self {
            AuthInfo::OrgLevel { org_id } => {
                proof {
                    lemma_with_one_more(
                        before.filters,
                        Seq::empty(),
                        equality("organization_id"@, org_id@),
                    );
                    assert(scope_filters(*self) =~= Seq::<FilterView>::empty().push(
                        equality("organization_id"@, org_id@),
                    ));
                }
                match builder.add_filter_clause("organization_id", org_id) {
                    Ok(()) => {},
                    Err(e) => {
                        return Err(e);
                    },
                }
            },
            AuthInfo::MerchantLevel { org_id, merchant_ids } => {
                proof {
                    let first = equality("organization_id"@, org_id@);
                    let second = membership("merchant_id"@, views_of(merchant_ids@));
                    lemma_with_one_more(before.filters, Seq::empty(), first);
                    lemma_with_one_more(before.filters, seq![first], second);
                    assert(scope_filters(*self) =~= seq![first].push(second));
                    assert(seq![first] =~= Seq::<FilterView>::empty().push(first));
                    assert(renderings::<T, MerchantId>(views_of(merchant_ids@), engine)
                        =~= views_of(merchant_ids@));
                }
                match builder.add_filter_clause("organization_id", org_id) {
                    Ok(()) => {},
                    Err(e) => {
                        return Err(e);
                    },
                }
                match builder.add_filter_in_range_clause("merchant_id", merchant_ids.as_slice()) {
                    Ok(()) => {},
                    Err(e) => {
                        return Err(e);
                    },
                }
            },
            AuthInfo::ProfileLevel { org_id, merchant_id, profile_ids } => {
                proof {
                    let first = equality("organization_id"@, org_id@);
                    let second = equality("merchant_id"@, merchant_id@);
                    let third = membership("profile_id"@, views_of(profile_ids@));
                    lemma_with_one_more(before.filters, Seq::empty(), first);
                    lemma_with_one_more(before.filters, seq![first], second);
                    lemma_with_one_more(before.filters, seq![first, second], third);
                    assert(scope_filters(*self) =~= seq![first, second].push(third));
                    assert(seq![first, second] =~= seq![first].push(second));
                    assert(seq![first] =~= Seq::<FilterView>::empty().push(first));
                    assert(renderings::<T, ProfileId>(views_of(profile_ids@), engine) =~= views_of(
                        profile_ids@,
                    ));
                }
                match builder.add_filter_clause("organization_id", org_id) {
                    Ok(()) => {},
                    Err(e) => {
                        return Err(e);
                    },
                }
                match builder.add_filter_clause("merchant_id", merchant_id) {
                    Ok(()) => {},
                    Err(e) => {
                        return Err(e);
                    },
                }
                match builder.add_filter_in_range_clause("profile_id", profile_ids.as_slice()) {
                    Ok(()) => {},
                    Err(e) => {
                        return Err(e);
                    },
                }
            },
        }
        Ok(())
    }
}

/// Where the ids of a scope are distinct, the list holds as many ids as the
/// set of them has members.
pub proof fn lemma_distinct_ids_are_a_set(scope: AuthInfo)
    requires
        scope.ids_are_distinct(),
    ensures
        scope.member_ids().to_set().len() == scope.member_ids().len(),
        scope is MerchantLevel ==> scope_filters(scope)[1] == membership(
            "merchant_id"@,
            scope.member_ids(),
        ),
        scope is ProfileLevel ==> scope_filters(scope)[2] == membership(
            "profile_id"@,
            scope.member_ids(),
        ),
{
    scope.member_ids().unique_seq_to_set();
}

/// A scope adds one filter at the level of the organization, two at that of
/// its merchants and three at that of a merchant's profiles, and the first
/// of them always requires the organization.
pub proof fn lemma_scope_filter_count(scope: AuthInfo)
    ensures
        scope is OrgLevel ==> scope_filters(scope).len() == 1,
        scope is MerchantLevel ==> scope_filters(scope).len() == 2,
        scope is ProfileLevel ==> scope_filters(scope).len() == 3,
        scope_filters(scope)[0] matches FilterView::Plain(key, op, _) && key
            == "organization_id"@ && op is Equal,
{
}

/// A span of time: from a first instant on, up to a last one if there is
/// one.
#[derive(Debug, Clone, Copy)]
pub struct TimeRange {
    pub start_time: Timestamp,
    pub end_time: Option<Timestamp>,
}

/// The filter that keeps the rows created at or after the rendered instant.
pub open spec fn not_before(instant: Seq<char>) -> FilterView {
    FilterView::Plain("created_at"@, FilterTypes::Gte, instant)
}

/// The filter that keeps the rows created at or before the rendered instant.
pub open spec fn not_after(instant: Seq<char>) -> FilterView {
    FilterView::Plain("created_at"@, FilterTypes::Lte, instant)
}

/// A span narrows a query of any backend that can write an instant.
impl<T: AnalyticsDataSource> QueryFilter<T> for TimeRange where Timestamp: ToSql<T> {
    open spec fn added_filters(&self, table_engine: TableEngine) -> Seq<FilterView> {
        match <Timestamp as ToSql<T>>::sql(self.start_time, table_engine) {
            Ok(start) => match self.end_time {
                Some(end_time) => match <Timestamp as ToSql<T>>::sql(end_time, table_engine) {
                    Ok(end) => seq![not_before(start), not_after(end)],
                    Err(_) => seq![not_before(start)],
                },
                None => seq![not_before(start)],
            },
            Err(_) => Seq::empty(),
        }
    }

    open spec fn adds_all(&self, table_engine: TableEngine) -> bool {
        &&& <Timestamp as ToSql<T>>::sql(self.start_time, table_engine) is Ok
        &&& self.end_time matches Some(end_time) ==> <Timestamp as ToSql<T>>::sql(
            end_time,
            table_engine,
        ) is Ok
    }

    fn set_filter_clause(&self, builder: &mut QueryBuilder<T>) -> (res: QueryResult<()>)
        ensures
            res is Err ==> crate::builder::failed_to_serialize(res),
    {
        let ghost before = builder@;
        let ghost engine = before.table_engine;
        proof {
            lemma_with_none(before.filters);
            match <Timestamp as ToSql<T>>::sql(self.start_time, engine) {
                Ok(start) => {
                    lemma_with_one_more(before.filters, Seq::empty(), not_before(start));
                    assert(seq![not_before(start)] =~= Seq::<FilterView>::empty().push(
                        not_before(start),
                    ));
                    match self.end_time {
                        Some(end_time) => match <Timestamp as ToSql<T>>::sql(end_time, engine) {
                            Ok(end) => {
                                lemma_with_one_more(
                                    before.filters,
                                    seq![not_before(start)],
                                    not_after(end),
                                );
                                assert(seq![not_before(start), not_after(end)]
                                    =~= seq![not_before(start)].push(not_after(end)));
                            },
                            Err(_) => {},
                        },
                        None => {},
                    }
                },
                Err(_) => {},
            }
        }
        match builder.add_custom_filter_clause("created_at", self.start_time, FilterTypes::Gte) {
            Ok(()) => {},
            Err(e) => {
                return Err(e);
            },
        }
        match self.end_time {
            Some(end) => {
                match builder.add_custom_filter_clause("created_at", end, FilterTypes::Lte) {
                    Ok(()) => {},
                    Err(e) => {
                        return Err(e);
                    },
                }
            },
            None => {},
        }
        Ok(())
    }
}

} // verus!
