//! The query builder: it collects rendered fragments clause by clause and
//! assembles them, in one fixed order, into the text of a query.

use std::marker::PhantomData;
use vstd::prelude::*;
use vstd::string::StringExecFns;

use crate::descriptor::Aggregate;
use crate::descriptor::AggregateView;
use crate::descriptor::LimitByClause;
use crate::descriptor::LimitByView;
use crate::descriptor::Order;
use crate::descriptor::TopN;
use crate::descriptor::TopNView;
use crate::descriptor::Window;
use crate::descriptor::WindowView;
use crate::errors::no_select_fields;
use crate::errors::QueryBuildingError;
use crate::errors::QueryResult;
use crate::filter::filter_type_text;
use crate::filter::filter_type_to_sql;
use crate::filter::Filter;
use crate::filter::FilterCombinator;
use crate::filter::FilterTypes;
use crate::filter::FilterView;
use crate::granularity::Granularity;
use crate::source::AnalyticsCollection;
use crate::source::AnalyticsDataSource;
use crate::source::ParsingError;
use crate::source::TableEngine;
use crate::text::decimal;
use crate::text::join;
use crate::text::join_strings;
use crate::text::lemma_texts_push;
use crate::text::strip_spaces;
use crate::text::texts;
use crate::text::u64_to_string;
use crate::text::without_spaces;
use crate::to_sql::rendered;
use crate::to_sql::ToSql;

verus! {

/// One condition on the groups of a query: a rendered aggregate, an
/// operator and a rendered value.
pub type HavingView = (Seq<char>, FilterTypes, Seq<char>);

/// What a builder holds, as a mathematical value.
pub struct QueryView {
    pub columns: Seq<Seq<char>>,
    pub filters: FilterView,
    pub group_by: Seq<Seq<char>>,
    pub order_by: Seq<Seq<char>>,
    pub having: Option<Seq<HavingView>>,
    pub limit_by: Option<LimitByView>,
    pub outer_select: Seq<Seq<char>>,
    pub top_n: Option<TopNView>,
    pub table: AnalyticsCollection,
    pub distinct: bool,
    pub table_engine: TableEngine,
}

/// The conditions of a list of having entries, in order.
pub open spec fn having_views(entries: Seq<(String, FilterTypes, String)>) -> Seq<HavingView> {
    Seq::new(entries.len(), |i: int| (entries[i].0@, entries[i].1, entries[i].2@))
}

/// The text of each condition: its operator's template over its operands.
pub open spec fn having_texts(entries: Seq<HavingView>) -> Seq<Seq<char>> {
    Seq::new(entries.len(), |i: int| filter_type_text(entries[i].0, entries[i].1, entries[i].2))
}

/// The views of a list of values, in order.
pub open spec fn views_of<V: View>(values: Seq<V>) -> Seq<V::V> {
    Seq::new(values.len(), |i: int| values[i]@)
}

/// Every one of the values renders.
pub open spec fn all_render<T: AnalyticsDataSource, V: ToSql<T>>(
    values: Seq<V::V>,
    table_engine: TableEngine,
) -> bool {
    forall|i: int| 0 <= i < values.len() ==> (#[trigger] V::sql(values[i], table_engine)) is Ok
}

/// The texts that the values render to, in order.
pub open spec fn renderings<T: AnalyticsDataSource, V: ToSql<T>>(
    values: Seq<V::V>,
    table_engine: TableEngine,
) -> Seq<Seq<char>> {
    Seq::new(
        values.len(),
        |i: int|
            match V::sql(values[i], table_engine) {
                Ok(text) => text,
                Err(_) => Seq::empty(),
            },
    )
}

/// Each text without its blanks, between single quotes.
pub open spec fn quoted_without_spaces(parts: Seq<Seq<char>>) -> Seq<Seq<char>> {
    Seq::new(parts.len(), |i: int| "'"@ + without_spaces(parts[i]) + "'"@)
}

/// The window column that a top-N adds to the outer selection: the number
/// of each row within its group, under the alias `top_n`.
pub open spec fn top_n_window(
    columns: Seq<char>,
    order_column: Seq<char>,
    order: Order,
) -> WindowView<Seq<char>> {
    WindowView::RowNumber {
        field: ""@,
        partition_by: Some(columns),
        order_by: Some((order_column, order)),
        alias: Some("top_n"@),
    }
}

/// The number of minutes in a bucket of the width, as written in a query.
pub open spec fn minutes_text(granularity: Granularity) -> Seq<char> {
    match granularity {
        Granularity::OneMin => "1"@,
        Granularity::FiveMin => "5"@,
        Granularity::FifteenMin => "15"@,
        Granularity::ThirtyMin => "30"@,
        Granularity::OneHour => "60"@,
        Granularity::OneDay => "1440"@,
    }
}

/// The rendering failed: a value had no text.
pub open spec fn failed_to_serialize<V>(res: QueryResult<V>) -> bool {
    res matches Err(QueryBuildingError::SqlSerializeError)
}

/// How an assembly ends.
pub enum Assembly {
    /// Nothing is selected: there is no query.
    NoSelectFields,
    /// The table, or the aggregate of the sign column, has no text.
    Unrenderable,
    /// The text of the query, and what the builder holds afterwards.
    Query { text: Seq<char>, state: QueryView },
}

impl QueryView {
    /// What a new builder on `table` holds: no clause, and a conjunction of
    /// no filters.
    pub open spec fn initial(table: AnalyticsCollection, table_engine: TableEngine) -> QueryView {
        QueryView {
            columns: Seq::empty(),
            filters: FilterView::empty(),
            group_by: Seq::empty(),
            order_by: Seq::empty(),
            having: None,
            limit_by: None,
            outer_select: Seq::empty(),
            top_n: None,
            table,
            distinct: false,
            table_engine,
        }
    }

    /// The same with one more selected column.
    pub open spec fn with_column(self, column: Seq<char>) -> QueryView {
        QueryView { columns: self.columns.push(column), ..self }
    }

    /// The same with one more filter in the tree.
    pub open spec fn with_filter(self, filter: FilterView) -> QueryView {
        QueryView { filters: self.filters.with(filter), ..self }
    }

    /// The same with one more grouping column.
    pub open spec fn with_group_by(self, column: Seq<char>) -> QueryView {
        QueryView { group_by: self.group_by.push(column), ..self }
    }

    /// The same with one more ordering.
    pub open spec fn with_order_by(self, column: Seq<char>) -> QueryView {
        QueryView { order_by: self.order_by.push(column), ..self }
    }

    /// The same with one more outer column.
    pub open spec fn with_outer_select(self, column: Seq<char>) -> QueryView {
        QueryView { outer_select: self.outer_select.push(column), ..self }
    }

    /// The same with one more condition on the groups, after those set
    /// before.
    pub open spec fn with_having(self, entry: HavingView) -> QueryView {
        QueryView {
            having: Some(
                match self.having {
                    Some(entries) => entries.push(entry),
                    None => seq![entry],
                },
            ),
            ..self
        }
    }

    /// The sign column that the grouped rows have to be weighed by: that of
    /// a table stored with one, in a query with a GROUP BY clause.
    pub open spec fn sign_column(self) -> Option<&'static str> {
        if self.group_by.len() > 0 {
            match self.table_engine {
                TableEngine::CollapsingMergeTree { sign } => Some(sign),
                TableEngine::BasicTree => None,
            }
        } else {
            None
        }
    }

    /// `SELECT`, `DISTINCT` if asked for, the columns, `FROM` and the table.
    pub open spec fn select_text(self, table: Seq<char>) -> Seq<char> {
        "SELECT "@ + (if self.distinct {
            "DISTINCT "@
        } else {
            Seq::empty()
        }) + join(self.columns, ", "@) + " FROM "@ + table
    }

    /// ` WHERE ` and the filters, unless their text is empty.
    pub open spec fn where_text(self) -> Seq<char> {
        if self.filters.text().len() == 0 {
            Seq::empty()
        } else {
            " WHERE "@ + self.filters.text()
        }
    }

    /// ` GROUP BY ` and the grouping columns, if there are any.
    pub open spec fn group_by_text(self) -> Seq<char> {
        if self.group_by.len() == 0 {
            Seq::empty()
        } else {
            " GROUP BY "@ + join(self.group_by, ", "@)
        }
    }

    /// ` HAVING ` and the conditions joined by ` AND `, if any were set.
    pub open spec fn having_text(self) -> Seq<char> {
        match self.having {
            Some(entries) => " HAVING "@ + join(having_texts(entries), " AND "@),
            None => Seq::empty(),
        }
    }

    /// ` ORDER BY ` and the ordering columns, if there are any.
    pub open spec fn order_by_text(self) -> Seq<char> {
        if self.order_by.len() == 0 {
            Seq::empty()
        } else {
            " ORDER BY "@ + join(self.order_by, ", "@)
        }
    }

    /// A blank and the cap on the rows of each group, if one is set.
    pub open spec fn limit_by_text(self) -> Seq<char> {
        match self.limit_by {
            Some(limit_by) => " "@ + limit_by.text(),
            None => Seq::empty(),
        }
    }

    /// What follows the table in the query on it: the WHERE, GROUP BY,
    /// HAVING, ORDER BY and LIMIT BY clauses, in this order.
    pub open spec fn tail_text(self) -> Seq<char> {
        self.where_text() + self.group_by_text() + self.having_text() + self.order_by_text()
            + self.limit_by_text()
    }

    /// The query on the table itself.
    pub open spec fn base_text(self, table: Seq<char>) -> Seq<char> {
        self.select_text(table) + self.tail_text()
    }

    /// The query on the table, inside a selection of the outer columns if
    /// there are any.
    pub open spec fn projected_text(self, table: Seq<char>) -> Seq<char> {
        if self.outer_select.len() == 0 {
            self.base_text(table)
        } else {
            "SELECT "@ + join(self.outer_select, ", "@) + " FROM ("@ + self.base_text(table)
                + ") _"@
        }
    }

    /// The whole query: with a top-N, the projected query is wrapped once
    /// more and only the rows numbered up to the count are kept.
    pub open spec fn text(self, table: Seq<char>) -> Seq<char> {
        match self.top_n {
            Some(top_n) => "SELECT * FROM ("@ + self.projected_text(table)
                + ") _ WHERE top_n <= "@ + decimal(top_n.count as nat),
            None => self.projected_text(table),
        }
    }
}

/// The condition that a table with a sign column puts on every group: the
/// count of the sign column, which the backend renders over the signs, is at
/// least one. Groups whose rows were all retracted are left out by it.
pub open spec fn sign_condition<T: AnalyticsDataSource>(
    sign: &'static str,
    table_engine: TableEngine,
) -> Result<HavingView, ParsingError> where Aggregate<&'static str>: ToSql<T> {
    match <Aggregate<&'static str> as ToSql<T>>::sql(
        AggregateView::Count { field: Some(sign@), alias: None },
        table_engine,
    ) {
        Ok(aggregate) => Ok((aggregate, FilterTypes::Gte, "1"@)),
        Err(e) => Err(e),
    }
}

/// What assembling a query of backend `T` from `query` comes to.
///
/// Without a selected column there is no query, whatever else is set. A
/// table that the backend cannot name fails the assembly. Where the query
/// groups the rows of a table with a sign column, the condition on the sign
/// is added to what the builder holds, on every assembly anew, and the text
/// is that of the builder with it.
pub open spec fn assembly<T: AnalyticsDataSource>(query: QueryView) -> Assembly where
    AnalyticsCollection: ToSql<T>,
    Aggregate<&'static str>: ToSql<T>,
{
    if query.columns.len() == 0 {
        Assembly::NoSelectFields
    } else {
        match <AnalyticsCollection as ToSql<T>>::sql(query.table, query.table_engine) {
            Ok(table) => match query.sign_column() {
                Some(sign) => match sign_condition::<T>(sign, query.table_engine) {
                    Ok(condition) => Assembly::Query {
                        text: query.with_having(condition).text(table),
                        state: query.with_having(condition),
                    },
                    Err(_) => Assembly::Unrenderable,
                },
                None => Assembly::Query { text: query.text(table), state: query },
            },
            Err(_) => Assembly::Unrenderable,
        }
    }
}

/// The query builder of backend `T`.
#[derive(Debug)]
pub struct QueryBuilder<T: AnalyticsDataSource> {
    columns: Vec<String>,
    filters: Filter,
    group_by: Vec<String>,
    order_by: Vec<String>,
    having: Option<Vec<(String, FilterTypes, String)>>,
    limit_by: Option<LimitByClause>,
    outer_select: Vec<String>,
    top_n: Option<TopN>,
    table: AnalyticsCollection,
    distinct: bool,
    db_type: PhantomData<T>,
    table_engine: TableEngine,
}

/// The view holds every field but the marker of the backend, which has no
/// value: the backend is the type `T` itself.
impl<T: AnalyticsDataSource> View for QueryBuilder<T> {
    type V = QueryView;

    closed spec fn view(&self) -> QueryView {
        QueryView {
            columns: texts(self.columns@),
            filters: self.filters@,
            group_by: texts(self.group_by@),
            order_by: texts(self.order_by@),
            having: match self.having {
                Some(entries) => Some(having_views(entries@)),
                None => None,
            },
            limit_by: match self.limit_by {
                Some(limit_by) => Some(limit_by@),
                None => None,
            },
            outer_select: texts(self.outer_select@),
            top_n: match self.top_n {
                Some(top_n) => Some(top_n@),
                None => None,
            },
            table: self.table,
            distinct: self.distinct,
            table_engine: self.table_engine,
        }
    }
}

/// Renders the values in order, up to the first that has no text.
fn render_all<T: AnalyticsDataSource, V: ToSql<T>>(values: &[V], table_engine: &TableEngine) -> (res:
    Option<Vec<String>>)
    ensures
        res is Some <==> all_render::<T, V>(views_of(values@), *table_engine),
        res is Some ==> texts(res->Some_0@) == renderings::<T, V>(
            views_of(values@),
            *table_engine,
        ),
{
    let mut parts: Vec<String> = Vec::new();
    let mut i: usize = 0;
    while i < values.len()
        invariant
            i <= values.len(),
            parts@.len() == i,
            forall|j: int|
                0 <= j < i ==> (#[trigger] V::sql(views_of(values@)[j], *table_engine)) == Ok::<
                    Seq<char>,
                    ParsingError,
                >(parts@[j]@),
        decreases values.len() - i,
    {
        match values[i].to_sql(table_engine) {
            Ok(part) => {
                parts.push(part);
            },
            Err(_) => {
                assert(V::sql(views_of(values@)[i as int], *table_engine) is Err);
                return None;
            },
        }
        i += 1;
    }
    assert(texts(parts@) =~= renderings::<T, V>(views_of(values@), *table_engine));
    Some(parts)
}

impl<T: AnalyticsDataSource> QueryBuilder<T> {
    /// A builder on `table`, stored as the backend stores it, with no clause
    /// yet.
    pub fn new(table: AnalyticsCollection) -> (builder: Self)
        ensures
            builder@ == QueryView::initial(table, T::table_engine(table)),
    {
        let builder = QueryBuilder {
            columns: Vec::new(),
            filters: Filter::default(),
            group_by: Vec::new(),
            order_by: Vec::new(),
            having: None,
            limit_by: None,
            outer_select: Vec::new(),
            top_n: None,
            table,
            distinct: false,
            db_type: PhantomData,
            table_engine: T::get_table_engine(table),
        };
        proof {
            let initial = QueryView::initial(table, T::table_engine(table));
            assert(builder@.columns =~= initial.columns);
            assert(builder@.group_by =~= initial.group_by);
            assert(builder@.order_by =~= initial.order_by);
            assert(builder@.outer_select =~= initial.outer_select);
        }
        builder
    }

    /// Selects the rendered column, after those selected before.
    pub fn add_select_column<C: ToSql<T>>(&mut self, column: C) -> (res: QueryResult<()>)
        ensures
            match C::sql(column@, old(self)@.table_engine) {
                Ok(text) => res is Ok && final(self)@ == old(self)@.with_column(text),
                Err(_) => failed_to_serialize(res) && final(self)@ == old(self)@,
            },
    {
        match column.to_sql(&self.table_engine) {
            Ok(text) => {
                proof {
                    lemma_texts_push(self.columns@, text);
                }
                self.columns.push(text);
                Ok(())
            },
            Err(_) => Err(QueryBuildingError::SqlSerializeError),
        }
    }

    /// Selects each distinct row once.
    pub fn set_distinct(&mut self)
        ensures
            final(self)@ == (QueryView { distinct: true, ..old(self)@ }),
    {
        self.distinct = true
    }

    /// The values rendered and joined by `, `.
    pub fn transform_to_sql_values<V: ToSql<T>>(&mut self, values: &[V]) -> (res: QueryResult<
        String,
    >)
        ensures
            final(self)@ == old(self)@,
            all_render::<T, V>(views_of(values@), old(self)@.table_engine) ==> res is Ok
                && res->Ok_0@ == join(
                renderings::<T, V>(views_of(values@), old(self)@.table_engine),
                ", "@,
            ),
            !all_render::<T, V>(views_of(values@), old(self)@.table_engine) ==> failed_to_serialize(
                res,
            ),
    {
        match render_all::<T, V>(values, &self.table_engine) {
            Some(parts) => Ok(join_strings(&parts, ", ")),
            None => Err(QueryBuildingError::SqlSerializeError),
        }
    }

    /// Adds the filter `key = 'value'`.
    pub fn add_filter_clause<K: ToSql<T>, V: ToSql<T>>(&mut self, key: K, value: V) -> (res:
        QueryResult<()>)
        ensures
            match (
                K::sql(key@, old(self)@.table_engine),
                V::sql(value@, old(self)@.table_engine),
            ) {
                (Ok(l), Ok(r)) => res is Ok && final(self)@ == old(self)@.with_filter(
                    FilterView::Plain(l, FilterTypes::Equal, r),
                ),
                _ => failed_to_serialize(res) && final(self)@ == old(self)@,
            },
    {
        self.add_custom_filter_clause(key, value, FilterTypes::Equal)
    }

    /// Adds the filter `key = value`, the value unquoted.
    pub fn add_bool_filter_clause<K: ToSql<T>, V: ToSql<T>>(&mut self, key: K, value: V) -> (res:
        QueryResult<()>)
        ensures
            match (
                K::sql(key@, old(self)@.table_engine),
                V::sql(value@, old(self)@.table_engine),
            ) {
                (Ok(l), Ok(r)) => res is Ok && final(self)@ == old(self)@.with_filter(
                    FilterView::Plain(l, FilterTypes::EqualBool, r),
                ),
                _ => failed_to_serialize(res) && final(self)@ == old(self)@,
            },
    {
        self.add_custom_filter_clause(key, value, FilterTypes::EqualBool)
    }

    /// Adds the filter `key != 'value'`.
    pub fn add_negative_filter_clause<K: ToSql<T>, V: ToSql<T>>(
        &mut self,
        key: K,
        value: V,
    ) -> (res: QueryResult<()>)
        ensures
            match (
                K::sql(key@, old(self)@.table_engine),
                V::sql(value@, old(self)@.table_engine),
            ) {
                (Ok(l), Ok(r)) => res is Ok && final(self)@ == old(self)@.with_filter(
                    FilterView::Plain(l, FilterTypes::NotEqual, r),
                ),
                _ => failed_to_serialize(res) && final(self)@ == old(self)@,
            },
    {
        self.add_custom_filter_clause(key, value, FilterTypes::NotEqual)
    }

    /// Adds the comparison of the two rendered operands to the filters.
    pub fn add_custom_filter_clause<L: ToSql<T>, R: ToSql<T>>(
        &mut self,
        lhs: L,
        rhs: R,
        comparison: FilterTypes,
    ) -> (res: QueryResult<()>)
        ensures
            match (L::sql(lhs@, old(self)@.table_engine), R::sql(rhs@, old(self)@.table_engine)) {
                (Ok(l), Ok(r)) => res is Ok && final(self)@ == old(self)@.with_filter(
                    FilterView::Plain(l, comparison, r),
                ),
                _ => failed_to_serialize(res) && final(self)@ == old(self)@,
            },
    {
        let l = match lhs.to_sql(&self.table_engine) {
            Ok(l) => l,
            Err(_) => {
                return Err(QueryBuildingError::SqlSerializeError);
            },
        };
        let r = match rhs.to_sql(&self.table_engine) {
            Ok(r) => r,
            Err(_) => {
                return Err(QueryBuildingError::SqlSerializeError);
            },
        };
        self.add_nested_filter_clause(Filter::Plain(l, comparison, r));
        Ok(())
    }

    /// Adds a filter to the tree: as the last child of the node at its
    /// root, or, where the root is a bare comparison, as the second child of
    /// a new conjunction whose first child is that comparison.
    pub fn add_nested_filter_clause(&mut self, filter: Filter)
        ensures
            final(self)@ == old(self)@.with_filter(filter@),
    {
        let ghost before = self.filters@;
        let mut current = Filter::default();
        std::mem::swap(&mut self.filters, &mut current);
        match current {
            Filter::NestedFilter(combinator, mut filters) => {
                filters.push(filter);
                self.filters = Filter::NestedFilter(combinator, filters);
                assert(self.filters@->NestedFilter_1 =~= before->NestedFilter_1.push(filter@));
            },
            Filter::Plain(l, op, r) => {
                let mut filters: Vec<Filter> = Vec::new();
                filters.push(Filter::Plain(l, op, r));
                filters.push(filter);
                self.filters = Filter::NestedFilter(FilterCombinator::And, filters);
                assert(self.filters@->NestedFilter_1 =~= seq![before, filter@]);
            },
        }
    }

    /// Adds the filter `key IN (..)`: each value is rendered, stripped of
    /// its blanks and put between single quotes, and the values are joined
    /// by `, `.
    pub fn add_filter_in_range_clause<K: ToSql<T>, V: ToSql<T>>(
        &mut self,
        key: K,
        values: &[V],
    ) -> (res: QueryResult<()>)
        ensures
            match K::sql(key@, old(self)@.table_engine) {
                Ok(l) if all_render::<T, V>(views_of(values@), old(self)@.table_engine) => res is Ok
                    && final(self)@ == old(self)@.with_filter(
                    FilterView::Plain(
                        l,
                        FilterTypes::In,
                        join(
                            quoted_without_spaces(
                                renderings::<T, V>(views_of(values@), old(self)@.table_engine),
                            ),
                            ", "@,
                        ),
                    ),
                ),
                _ => failed_to_serialize(res) && final(self)@ == old(self)@,
            },
    {
        let parts = match render_all::<T, V>(values, &self.table_engine) {
            Some(parts) => parts,
            None => {
                return Err(QueryBuildingError::SqlSerializeError);
            },
        };
        let mut quoted: Vec<String> = Vec::new();
        let mut i: usize = 0;
        while i < parts.len()
            invariant
                i <= parts.len(),
                quoted@.len() == i,
                forall|j: int|
                    0 <= j < i ==> (#[trigger] quoted@[j])@ == "'"@ + without_spaces(parts@[j]@)
                        + "'"@,
            decreases parts.len() - i,
        {
            let mut part = String::from_str("'");
            part.append(strip_spaces(parts[i].as_str()).as_str());
            part.append("'");
            quoted.push(part);
            i += 1;
        }
        assert(texts(quoted@) =~= quoted_without_spaces(texts(parts@)));
        let list = join_strings(&quoted, ", ");
        self.add_custom_filter_clause(key, list, FilterTypes::In)
    }

    /// Groups by the rendered column, after those grouped by before.
    pub fn add_group_by_clause<C: ToSql<T>>(&mut self, column: C) -> (res: QueryResult<()>)
        ensures
            match C::sql(column@, old(self)@.table_engine) {
                Ok(text) => res is Ok && final(self)@ == old(self)@.with_group_by(text),
                Err(_) => failed_to_serialize(res) && final(self)@ == old(self)@,
            },
    {
        match column.to_sql(&self.table_engine) {
            Ok(text) => {
                proof {
                    lemma_texts_push(self.group_by@, text);
                }
                self.group_by.push(text);
                Ok(())
            },
            Err(_) => Err(QueryBuildingError::SqlSerializeError),
        }
    }

    /// Adds an ordering: the rendered column, a blank, the rendered
    /// direction.
    pub fn add_order_by_clause<C: ToSql<T>, O: ToSql<T>>(&mut self, column: C, order: O) -> (res:
        QueryResult<()>)
        ensures
            match (
                C::sql(column@, old(self)@.table_engine),
                O::sql(order@, old(self)@.table_engine),
            ) {
                (Ok(c), Ok(o)) => res is Ok && final(self)@ == old(self)@.with_order_by(
                    c + " "@ + o,
                ),
                _ => failed_to_serialize(res) && final(self)@ == old(self)@,
            },
    {
        let mut text = match column.to_sql(&self.table_engine) {
            Ok(c) => c,
            Err(_) => {
                return Err(QueryBuildingError::SqlSerializeError);
            },
        };
        let direction = match order.to_sql(&self.table_engine) {
            Ok(o) => o,
            Err(_) => {
                return Err(QueryBuildingError::SqlSerializeError);
            },
        };
        text.append(" ");
        text.append(direction.as_str());
        proof {
            lemma_texts_push(self.order_by@, text);
        }
        self.order_by.push(text);
        Ok(())
    }

    /// Caps the rows of each group of the rendered columns at `limit`,
    /// replacing an earlier cap.
    pub fn set_limit_by<V: ToSql<T>>(&mut self, limit: u64, columns: &[V]) -> (res: QueryResult<
        (),
    >)
        ensures
            all_render::<T, V>(views_of(columns@), old(self)@.table_engine) ==> res is Ok
                && final(self)@ == (QueryView {
                limit_by: Some(
                    LimitByView {
                        limit,
                        columns: renderings::<T, V>(
                            views_of(columns@),
                            old(self)@.table_engine,
                        ),
                    },
                ),
                ..old(self)@
            }),
            !all_render::<T, V>(views_of(columns@), old(self)@.table_engine)
                ==> failed_to_serialize(res) && final(self)@ == old(self)@,
    {
        match render_all::<T, V>(columns, &self.table_engine) {
            Some(parts) => {
                self.limit_by = Some(LimitByClause::new(limit, parts));
                Ok(())
            },
            None => Err(QueryBuildingError::SqlSerializeError),
        }
    }

    /// Selects the start of each row's bucket as the column `time_bucket`.
    pub fn add_granularity_in_mins(&mut self, granularity: Granularity) -> (res: QueryResult<()>)
        ensures
            res is Ok,
            final(self)@ == old(self)@.with_column(
                "toStartOfInterval(created_at, INTERVAL "@ + minutes_text(granularity)
                    + " MINUTE) as time_bucket"@,
            ),
    {
        let interval = match granularity {
            Granularity::OneMin => "1",
            Granularity::FiveMin => "5",
            Granularity::FifteenMin => "15",
            Granularity::ThirtyMin => "30",
            Granularity::OneHour => "60",
            Granularity::OneDay => "1440",
        };
        let mut column = String::from_str("toStartOfInterval(created_at, INTERVAL ");
        column.append(interval);
        column.append(" MINUTE) as time_bucket");
        proof {
            lemma_texts_push(self.columns@, column);
        }
        self.columns.push(column);
        Ok(())
    }

    /// The text of the filters.
    fn get_filter_clause(&self) -> (clause: String)
        ensures
            clause@ == self@.filters.text(),
    {
        self.filters.render()
    }

    /// The selected columns, joined by `, `.
    fn get_select_clause(&self) -> (clause: String)
        ensures
            clause@ == join(self@.columns, ", "@),
    {
        join_strings(&self.columns, ", ")
    }

    /// The grouping columns, joined by `, `.
    fn get_group_by_clause(&self) -> (clause: String)
        ensures
            clause@ == join(self@.group_by, ", "@),
    {
        join_strings(&self.group_by, ", ")
    }

    /// The outer columns, joined by `, `.
    fn get_outer_select_clause(&self) -> (clause: String)
        ensures
            clause@ == join(self@.outer_select, ", "@),
    {
        join_strings(&self.outer_select, ", ")
    }

    /// Adds a condition on the groups: the rendered aggregate compared with
    /// the rendered value.
    pub fn add_having_clause<R, V: ToSql<T>>(
        &mut self,
        aggregate: Aggregate<R>,
        filter_type: FilterTypes,
        value: V,
    ) -> (res: QueryResult<()>) where Aggregate<R>: ToSql<T>
        ensures
            match (
                <Aggregate<R> as ToSql<T>>::sql(aggregate@, old(self)@.table_engine),
                V::sql(value@, old(self)@.table_engine),
            ) {
                (Ok(a), Ok(v)) => res is Ok && final(self)@ == old(self)@.with_having(
                    (a, filter_type, v),
                ),
                _ => failed_to_serialize(res) && final(self)@ == old(self)@,
            },
    {
        let a = match aggregate.to_sql(&self.table_engine) {
            Ok(a) => a,
            Err(_) => {
                return Err(QueryBuildingError::SqlSerializeError);
            },
        };
        let v = match value.to_sql(&self.table_engine) {
            Ok(v) => v,
            Err(_) => {
                return Err(QueryBuildingError::SqlSerializeError);
            },
        };
        let ghost entry = (a@, filter_type, v@);
        let mut entries = match self.having.take() {
            Some(entries) => entries,
            None => Vec::new(),
        };
        let ghost earlier = entries@;
        entries.push((a, filter_type, v));
        assert(having_views(entries@) =~= having_views(earlier).push(entry));
        assert(having_views(Seq::<(String, FilterTypes, String)>::empty().push((a, filter_type, v)))
            =~= seq![entry]);
        self.having = Some(entries);
        Ok(())
    }

    /// Selects the rendered column from the query on the table: with at
    /// least one such column, the assembled query is wrapped in a selection
    /// of them.
    pub fn add_outer_select_column<C: ToSql<T>>(&mut self, column: C) -> (res: QueryResult<()>)
        ensures
            match C::sql(column@, old(self)@.table_engine) {
                Ok(text) => res is Ok && final(self)@ == old(self)@.with_outer_select(text),
                Err(_) => failed_to_serialize(res) && final(self)@ == old(self)@,
            },
    {
        match column.to_sql(&self.table_engine) {
            Ok(text) => {
                proof {
                    lemma_texts_push(self.outer_select@, text);
                }
                self.outer_select.push(text);
                Ok(())
            },
            Err(_) => Err(QueryBuildingError::SqlSerializeError),
        }
    }

    /// Keeps of each group of the rendered columns the first `count` rows in
    /// the order of the rendered column: the number of each row within its
    /// group joins the outer selection as `top_n`, and the assembled query
    /// keeps the rows whose number is at most `count`.
    pub fn add_top_n_clause<V: ToSql<T>, C: ToSql<T>>(
        &mut self,
        columns: &[V],
        count: u64,
        order_column: C,
        order: Order,
    ) -> (res: QueryResult<()>) where Window<&'static str>: ToSql<T>
        ensures
            match C::sql(order_column@, old(self)@.table_engine) {
                Ok(o) if all_render::<T, V>(views_of(columns@), old(self)@.table_engine) => {
                    let partition = join(
                        renderings::<T, V>(views_of(columns@), old(self)@.table_engine),
                        ", "@,
                    );
                    match <Window<&'static str> as ToSql<T>>::sql(
                        top_n_window(partition, o, order),
                        old(self)@.table_engine,
                    ) {
                        Ok(window) => res is Ok && final(self)@ == (QueryView {
                            top_n: Some(
                                TopNView { columns: partition, count, order_column: o, order },
                            ),
                            ..old(self)@.with_outer_select(window)
                        }),
                        Err(_) => failed_to_serialize(res) && final(self)@ == old(self)@,
                    }
                },
                _ => failed_to_serialize(res) && final(self)@ == old(self)@,
            },
    {
        let partition = match self.transform_to_sql_values(columns) {
            Ok(partition) => partition,
            Err(_) => {
                return Err(QueryBuildingError::SqlSerializeError);
            },
        };
        let order_by = match order_column.to_sql(&self.table_engine) {
            Ok(order_by) => order_by,
            Err(_) => {
                return Err(QueryBuildingError::SqlSerializeError);
            },
        };
        let window: Window<&'static str> = Window::RowNumber {
            field: "",
            partition_by: Some(partition.clone()),
            order_by: Some((order_by.clone(), order)),
            alias: Some("top_n"),
        };
        assert(window@ == top_n_window(partition@, order_by@, order));
        match self.add_outer_select_column(window) {
            Ok(()) => {},
            Err(_) => {
                return Err(QueryBuildingError::SqlSerializeError);
            },
        }
        self.top_n = Some(TopN { columns: partition, count, order_column: order_by, order });
        Ok(())
    }

    /// Assembles the query.
    ///
    /// The clauses come in one fixed order: SELECT and FROM, WHERE, GROUP
    /// BY, HAVING, ORDER BY, LIMIT BY; then the selection of the outer
    /// columns round it, if there are any; then the top-N round that, if
    /// one is set. The builder keeps what it holds and can assemble again.
    pub fn build_query(&mut self) -> (res: QueryResult<String>) where
        AnalyticsCollection: ToSql<T>,
        Aggregate<&'static str>: ToSql<T>,
        Window<&'static str>: ToSql<T>,

        ensures
            match assembly::<T>(old(self)@) {
                Assembly::NoSelectFields => res matches Err(QueryBuildingError::InvalidQuery(reason))
                    && reason@ == no_select_fields() && final(self)@ == old(self)@,
                Assembly::Unrenderable => failed_to_serialize(res) && final(self)@ == old(self)@,
                Assembly::Query { text, state } => res is Ok && res->Ok_0@ == text && final(self)@
                    == state,
            },
            res is Ok ==> "SELECT "@.is_prefix_of(res->Ok_0@),
    {
        if self.columns.len() == 0 {
            return Err(QueryBuildingError::InvalidQuery("no select fields provided"));
        }
        let mut query = String::from_str("SELECT ");
        if self.distinct {
            query.append("DISTINCT ");
        } else {
            assert(query@ + Seq::<char>::empty() =~= query@);
        }
        query.append(self.get_select_clause().as_str());
        query.append(" FROM ");
        let table = match self.table.to_sql(&self.table_engine) {
            Ok(table) => table,
            Err(_) => {
                return Err(QueryBuildingError::SqlSerializeError);
            },
        };
        query.append(table.as_str());
        assert(query@ == self@.select_text(table@));

        let filter_clause = self.get_filter_clause();
        let mut where_clause = String::new();
        if !filter_clause.as_str().is_empty() {
            where_clause.append(" WHERE ");
            where_clause.append(filter_clause.as_str());
            assert(where_clause@ =~= " WHERE "@ + filter_clause@);
        }
        assert(where_clause@ == self@.where_text());

        let mut group_clause = String::new();
        if self.group_by.len() > 0 {
            group_clause.append(" GROUP BY ");
            group_clause.append(self.get_group_by_clause().as_str());
            assert(group_clause@ =~= " GROUP BY "@ + join(self@.group_by, ", "@));
            match self.table_engine {
                TableEngine::CollapsingMergeTree { sign } => {
                    let count: Aggregate<&'static str> = Aggregate::Count {
                        field: Some(sign),
                        alias: None,
                    };
                    match self.add_having_clause(count, FilterTypes::Gte, "1") {
                        Ok(()) => {},
                        Err(_) => {
                            return Err(QueryBuildingError::SqlSerializeError);
                        },
                    }
                },
                TableEngine::BasicTree => {},
            }
        }
        assert(group_clause@ == self@.group_by_text());

        let mut having_clause = String::new();
        match self.get_filter_type_clause() {
            Some(condition) => {
                having_clause.append(" HAVING ");
                having_clause.append(condition.as_str());
                assert(having_clause@ =~= " HAVING "@ + condition@);
            },
            None => {},
        }

        let mut order_clause = String::new();
        if self.order_by.len() > 0 {
            order_clause.append(" ORDER BY ");
            order_clause.append(join_strings(&self.order_by, ", ").as_str());
            assert(order_clause@ =~= " ORDER BY "@ + join(self@.order_by, ", "@));
        }

        let mut limit_clause = String::new();
        match &self.limit_by {
            Some(limit_by) => {
                limit_clause.append(" ");
                limit_clause.append(limit_by.to_string().as_str());
                assert(limit_clause@ =~= " "@ + limit_by@.text());
            },
            None => {},
        }

        let mut tail = where_clause;
        tail.append(group_clause.as_str());
        tail.append(having_clause.as_str());
        tail.append(order_clause.as_str());
        tail.append(limit_clause.as_str());
        assert(tail@ == self@.tail_text());
        query.append(tail.as_str());
        assert(query@ == self@.base_text(table@));

        if self.outer_select.len() > 0 {
            let mut outer = String::from_str("SELECT ");
            outer.append(self.get_outer_select_clause().as_str());
            outer.append(" FROM (");
            outer.append(query.as_str());
            outer.append(") _");
            query = outer;
        }
        assert(query@ == self@.projected_text(table@));

        match &self.top_n {
            Some(top_n) => {
                let mut top = String::from_str("SELECT * FROM (");
                top.append(query.as_str());
                top.append(") _ WHERE top_n <= ");
                top.append(u64_to_string(top_n.count).as_str());
                query = top;
            },
            None => {},
        }
        assert(query@ == self@.text(table@));
        proof {
            lemma_query_starts_with_select(self@, table@);
        }
        Ok(query)
    }

    /// The conditions on the groups, joined by ` AND `, if any were set.
    pub fn get_filter_type_clause(&self) -> (clause: Option<String>)
        ensures
            match self@.having {
                Some(entries) => clause is Some && clause->Some_0@ == join(
                    having_texts(entries),
                    " AND "@,
                ),
                None => clause is None,
            },
    {
        match &self.having {
            Some(entries) => {
                let mut parts: Vec<String> = Vec::new();
                let mut i: usize = 0;
                while i < entries.len()
                    invariant
                        i <= entries.len(),
                        parts@.len() == i,
                        forall|j: int|
                            0 <= j < i ==> (#[trigger] parts@[j])@ == filter_type_text(
                                entries@[j].0@,
                                entries@[j].1,
                                entries@[j].2@,
                            ),
                    decreases entries.len() - i,
                {
                    let entry = &entries[i];
                    parts.push(filter_type_to_sql(entry.0.as_str(), entry.1, entry.2.as_str()));
                    i += 1;
                }
                assert(texts(parts@) =~= having_texts(having_views(entries@)));
                Some(join_strings(&parts, " AND "))
            },
            None => None,
        }
    }
}

/// What the wrapping layers write before the query on the table.
pub open spec fn wrapping_prefix(query: QueryView) -> Seq<char> {
    (if query.top_n is Some {
        "SELECT * FROM ("@
    } else {
        Seq::empty()
    }) + (if query.outer_select.len() == 0 {
        Seq::empty()
    } else {
        "SELECT "@ + join(query.outer_select, ", "@) + " FROM ("@
    })
}

/// What the wrapping layers write after the query on the table.
pub open spec fn wrapping_suffix(query: QueryView) -> Seq<char> {
    (if query.outer_select.len() == 0 {
        Seq::empty()
    } else {
        ") _"@
    }) + (match query.top_n {
        Some(top_n) => ") _ WHERE top_n <= "@ + decimal(top_n.count as nat),
        None => Seq::empty(),
    })
}

/// Every assembled text begins with `SELECT `, wrapped or not.
pub proof fn lemma_query_starts_with_select(query: QueryView, table: Seq<char>)
    ensures
        "SELECT "@.is_prefix_of(query.base_text(table)),
        "SELECT "@.is_prefix_of(query.projected_text(table)),
        "SELECT "@.is_prefix_of(query.text(table)),
{
    reveal_strlit("SELECT ");
    reveal_strlit("SELECT * FROM (");
    assert("SELECT "@.is_prefix_of(query.base_text(table)));
    assert("SELECT "@.is_prefix_of(query.projected_text(table)));
}

/// The assembled text is the query on the table between the wrapping
/// layers, and the query on the table names the table once: after the
/// selected columns comes ` FROM `, then the table, then the clauses, none
/// of which depends on the table.
pub proof fn lemma_query_selects_from_the_table_once(query: QueryView, table: Seq<char>)
    ensures
        query.text(table) == wrapping_prefix(query) + query.base_text(table) + wrapping_suffix(
            query,
        ),
        query.base_text(table) == "SELECT "@ + (if query.distinct {
            "DISTINCT "@
        } else {
            Seq::empty()
        }) + join(query.columns, ", "@) + " FROM "@ + table + query.tail_text(),
{
    let base = query.base_text(table);
    assert(query.text(table) =~= wrapping_prefix(query) + base + wrapping_suffix(query));
}

/// Without a selected column no query is assembled, whatever else the
/// builder holds.
pub proof fn lemma_nothing_selected_is_no_query<T: AnalyticsDataSource>(query: QueryView) where
    AnalyticsCollection: ToSql<T>,
    Aggregate<&'static str>: ToSql<T>,

    requires
        query.columns.len() == 0,
    ensures
        assembly::<T>(query) is NoSelectFields,
{
}

/// The WHERE clause is never left out: no filter has an empty text, not
/// even the conjunction of nothing, which a query without filters writes as
/// ` WHERE (  )`.
pub proof fn lemma_where_clause_is_always_written(query: QueryView)
    ensures
        query.where_text() == " WHERE "@ + query.filters.text(),
        query.filters == FilterView::empty() ==> query.where_text() == " WHERE "@ + ("( "@
            + Seq::<char>::empty() + " )"@),
{
    crate::filter::lemma_filter_text_is_not_empty(query.filters);
    assert(FilterView::texts_of(Seq::<FilterView>::empty()) =~= Seq::<Seq<char>>::empty());
}

/// After any sequence of additions to the filters of a new builder, the
/// WHERE clause is ` WHERE `, then one pair of parentheses round the texts
/// of the added filters, in the order of their addition, with ` AND `
/// between neighbours.
pub proof fn lemma_where_clause_is_conjunction(query: QueryView, filters: Seq<FilterView>)
    requires
        query.filters == FilterView::empty().with_all(filters),
    ensures
        query.where_text() == " WHERE "@ + ("( "@ + join(
            FilterView::texts_of(filters),
            " AND "@,
        ) + " )"@),
{
    crate::filter::lemma_added_filters_render_as_conjunction(filters);
    crate::filter::lemma_filter_text_is_not_empty(query.filters);
}

/// A query that groups the rows of a table with a sign column comes out of
/// the assembly with the condition on the sign as its last HAVING
/// condition: the backend's count of the sign column, at least `1`. Every
/// other query comes out holding what it held.
pub proof fn lemma_sign_condition_is_added<T: AnalyticsDataSource>(query: QueryView) where
    AnalyticsCollection: ToSql<T>,
    Aggregate<&'static str>: ToSql<T>,

    requires
        assembly::<T>(query) is Query,
    ensures
        match query.sign_column() {
            Some(sign) => {
                let state = assembly::<T>(query)->state;
                &&& sign_condition::<T>(sign, query.table_engine) matches Ok(condition)
                &&& condition.1 is Gte
                &&& condition.2 == "1"@
                &&& state == query.with_having(condition)
                &&& state.having matches Some(entries)
                &&& entries.len() >= 1
                &&& entries.last() == condition
                &&& state.having_text() == " HAVING "@ + join(having_texts(entries), " AND "@)
                &&& having_texts(entries).last() == condition.0 + " >= '"@ + condition.2 + "'"@
            },
            None => assembly::<T>(query)->state == query,
        },
        query.table_engine is BasicTree ==> query.sign_column() is None,
        query.group_by.len() == 0 ==> query.sign_column() is None,
{
}

/// A query that needs no condition on a sign comes out of the assembly as
/// it went in, so assembling it again gives the same text. One that needs
/// the condition comes out with one more HAVING condition each time.
pub proof fn lemma_assembly_repeats<T: AnalyticsDataSource>(query: QueryView) where
    AnalyticsCollection: ToSql<T>,
    Aggregate<&'static str>: ToSql<T>,

    requires
        assembly::<T>(query) is Query,
    ensures
        query.sign_column() is None ==> assembly::<T>(assembly::<T>(query)->state) == assembly::<T>(
            query,
        ),
        query.sign_column() is Some ==> assembly::<T>(assembly::<T>(query)->state) is Query
            && assembly::<T>(assembly::<T>(query)->state)->state.having->Some_0.len()
            == assembly::<T>(query)->state.having->Some_0.len() + 1,
{
}

/// In the analytical backend the count of the sign column is the sum of the
/// signs, so the condition reads `SUM(<sign>) >= '1'`.
pub proof fn lemma_sign_condition_sums_the_signs(sign: &'static str)
    ensures
        sign_condition::<crate::source::ClickhouseClient>(
            sign,
            TableEngine::CollapsingMergeTree { sign },
        ) matches Ok(condition) && condition == ("SUM("@ + sign@ + ")"@, FilterTypes::Gte, "1"@),
        filter_type_text("SUM("@ + sign@ + ")"@, FilterTypes::Gte, "1"@) == "SUM("@ + sign@ + ")"@
            + " >= '"@ + "1"@ + "'"@,
{
    assert("SUM("@ + sign@ + ")"@ + Seq::<char>::empty() =~= "SUM("@ + sign@ + ")"@);
}

} // verus!
