//! What a query can compute and cap: aggregates, window functions, the
//! direction of an ordering, and the two ways to keep only some rows of each
//! group.

use vstd::prelude::*;
use vstd::string::StringExecFns;

use crate::source::AnalyticsDataSource;
use crate::source::ClickhouseClient;
use crate::source::ParsingError;
use crate::source::SqlxClient;
use crate::source::TableEngine;
use crate::text::decimal;
use crate::text::join;
use crate::text::join_strings;
use crate::text::texts;
use crate::text::u64_to_string;
use crate::to_sql::ToSql;

verus! {

/// The direction of an ordering.
#[derive(Debug, Clone, Copy, PartialEq, Eq, Structural)]
pub enum Order {
    Ascending,
    Descending,
}

impl View for Order {
    type V = Order;

    open spec fn view(&self) -> Order {
        *self
    }
}

impl Order {
    /// The keyword of the direction, in lower case.
    pub open spec fn text(self) -> Seq<char> {
        match self {
            Order::Ascending => "asc"@,
            Order::Descending => "desc"@,
        }
    }

    pub fn to_string(&self) -> (keyword: String)
        ensures
            keyword@ == self.text(),
    {
        match self {
            Order::Ascending => String::from_str("asc"),
            Order::Descending => String::from_str("desc"),
        }
    }
}

impl<T: AnalyticsDataSource> ToSql<T> for Order {
    open spec fn sql(value: Order, table_engine: TableEngine) -> Result<Seq<char>, ParsingError> {
        Ok(value.text())
    }

    fn to_sql(&self, table_engine: &TableEngine) -> (res: Result<String, ParsingError>) {
        Ok(self.to_string())
    }
}

/// An aggregate over the rows of a group.
#[derive(Debug)]
pub enum Aggregate<R> {
    Count { field: Option<R>, alias: Option<&'static str> },
    Sum { field: R, alias: Option<&'static str> },
    Min { field: R, alias: Option<&'static str> },
    Max { field: R, alias: Option<&'static str> },
    Percentile { field: R, alias: Option<&'static str>, percentile: Option<&'static u8> },
    DistinctCount { field: R, alias: Option<&'static str> },
}

/// An aggregate as a mathematical value.
pub enum AggregateView<V> {
    Count { field: Option<V>, alias: Option<Seq<char>> },
    Sum { field: V, alias: Option<Seq<char>> },
    Min { field: V, alias: Option<Seq<char>> },
    Max { field: V, alias: Option<Seq<char>> },
    Percentile { field: V, alias: Option<Seq<char>>, percentile: Option<u8> },
    DistinctCount { field: V, alias: Option<Seq<char>> },
}

/// The text of an alias, where there is one.
pub open spec fn alias_view(alias: Option<&'static str>) -> Option<Seq<char>> {
    match alias {
        Some(name) => Some(name@),
        None => None,
    }
}

impl<R: View> View for Aggregate<R> {
    type V = AggregateView<R::V>;

    open spec fn view(&self) -> AggregateView<R::V> {
        match self {
            Aggregate::Count { field, alias } => AggregateView::Count {
                field: match field {
                    Some(f) => Some(f@),
                    None => None,
                },
                alias: alias_view(*alias),
            },
            Aggregate::Sum { field, alias } => AggregateView::Sum {
                field: field@,
                alias: alias_view(*alias),
            },
            Aggregate::Min { field, alias } => AggregateView::Min {
                field: field@,
                alias: alias_view(*alias),
            },
            Aggregate::Max { field, alias } => AggregateView::Max {
                field: field@,
                alias: alias_view(*alias),
            },
            Aggregate::Percentile { field, alias, percentile } => AggregateView::Percentile {
                field: field@,
                alias: alias_view(*alias),
                percentile: match percentile {
                    Some(p) => Some(**p),
                    None => None,
                },
            },
            Aggregate::DistinctCount { field, alias } => AggregateView::DistinctCount {
                field: field@,
                alias: alias_view(*alias),
            },
        }
    }
}

/// ` AS ` and the alias, or nothing.
pub open spec fn alias_text(alias: Option<Seq<char>>) -> Seq<char> {
    match alias {
        Some(name) => " AS "@ + name,
        None => Seq::empty(),
    }
}

/// A function applied to one rendered argument, with its alias:
/// `opening`, the argument, `closing`, the alias.
pub open spec fn call_text(
    opening: Seq<char>,
    argument: Result<Seq<char>, ParsingError>,
    closing: Seq<char>,
    alias: Option<Seq<char>>,
) -> Result<Seq<char>, ParsingError> {
    match argument {
        Ok(text) => Ok(opening + text + closing + alias_text(alias)),
        Err(e) => Err(e),
    }
}

/// The digits written after `0.` as the fraction of a percentile: those of
/// the number given, or `50`, the median, where none is.
pub open spec fn percentile_digits(percentile: Option<u8>) -> Seq<char> {
    match percentile {
        Some(p) => decimal(p as nat),
        None => "50"@,
    }
}

/// The count of the rows of a group: `COUNT(*)`, or `COUNT` of the field
/// where one is given.
pub open spec fn count_text(
    field: Option<Result<Seq<char>, ParsingError>>,
    alias: Option<Seq<char>>,
) -> Result<Seq<char>, ParsingError> {
    match field {
        Some(rendering) => call_text("COUNT("@, rendering, ")"@, alias),
        None => Ok("COUNT(*)"@ + alias_text(alias)),
    }
}

fn alias_string(alias: Option<&'static str>) -> (text: String)
    ensures
        text@ == alias_text(alias_view(alias)),
{
    match alias {
        Some(name) => {
            let mut text = String::from_str(" AS ");
            text.append(name);
            text
        },
        None => String::new(),
    }
}

fn call_string(
    opening: &str,
    argument: Result<String, ParsingError>,
    closing: &str,
    alias: Option<&'static str>,
) -> (res: Result<String, ParsingError>)
    ensures
        crate::to_sql::rendered(res) == call_text(
            opening@,
            crate::to_sql::rendered(argument),
            closing@,
            alias_view(alias),
        ),
{
    match argument {
        Ok(text) => {
            let mut call = String::from_str(opening);
            call.append(text.as_str());
            call.append(closing);
            call.append(alias_string(alias).as_str());
            Ok(call)
        },
        Err(e) => Err(e),
    }
}

fn percentile_string(percentile: Option<&'static u8>) -> (digits: String)
    ensures
        digits@ == percentile_digits(
            match percentile {
                Some(p) => Some(*p),
                None => None,
            },
        ),
{
    match percentile {
        Some(p) => u64_to_string(*p as u64),
        None => String::from_str("50"),
    }
}

fn count_string<T: AnalyticsDataSource, R: ToSql<T>>(
    field: &Option<R>,
    alias: Option<&'static str>,
    table_engine: &TableEngine,
) -> (res: Result<String, ParsingError>)
    ensures
        crate::to_sql::rendered(res) == count_text(
            match field {
                Some(f) => Some(R::sql(f@, *table_engine)),
                None => None,
            },
            alias_view(alias),
        ),
{
    match field {
        Some(f) => call_string("COUNT(", f.to_sql(table_engine), ")", alias),
        None => {
            let mut call = String::from_str("COUNT(*)");
            call.append(alias_string(alias).as_str());
            Ok(call)
        },
    }
}

/// Aggregates in the transactional backend. A percentile is the continuous
/// one, taken over the field in ascending order.
impl<R: ToSql<SqlxClient>> ToSql<SqlxClient> for Aggregate<R> {
    open spec fn sql(value: AggregateView<R::V>, table_engine: TableEngine) -> Result<
        Seq<char>,
        ParsingError,
    > {
        match value {
            AggregateView::Count { field, alias } => count_text(
                match field {
                    Some(f) => Some(R::sql(f, table_engine)),
                    None => None,
                },
                alias,
            ),
            AggregateView::Sum { field, alias } => call_text(
                "SUM("@,
                R::sql(field, table_engine),
                ")"@,
                alias,
            ),
            AggregateView::Min { field, alias } => call_text(
                "MIN("@,
                R::sql(field, table_engine),
                ")"@,
                alias,
            ),
            AggregateView::Max { field, alias } => call_text(
                "MAX("@,
                R::sql(field, table_engine),
                ")"@,
                alias,
            ),
            AggregateView::Percentile { field, alias, percentile } => call_text(
                "PERCENTILE_CONT(0."@ + percentile_digits(percentile)
                    + ") WITHIN GROUP (ORDER BY "@,
                R::sql(field, table_engine),
                " ASC)"@,
                alias,
            ),
            AggregateView::DistinctCount { field, alias } => call_text(
                "COUNT(DISTINCT "@,
                R::sql(field, table_engine),
                ")"@,
                alias,
            ),
        }
    }

    fn to_sql(&self, table_engine: &TableEngine) -> (res: Result<String, ParsingError>) {
        match self {
            Aggregate::Count { field, alias } => count_string::<SqlxClient, R>(
                field,
                *alias,
                table_engine,
            ),
            Aggregate::Sum { field, alias } => call_string(
                "SUM(",
                field.to_sql(table_engine),
                ")",
                *alias,
            ),
            Aggregate::Min { field, alias } => call_string(
                "MIN(",
                field.to_sql(table_engine),
                ")",
                *alias,
            ),
            Aggregate::Max { field, alias } => call_string(
                "MAX(",
                field.to_sql(table_engine),
                ")",
                *alias,
            ),
            Aggregate::Percentile { field, alias, percentile } => {
                let mut opening = String::from_str("PERCENTILE_CONT(0.");
                opening.append(percentile_string(*percentile).as_str());
                opening.append(") WITHIN GROUP (ORDER BY ");
                call_string(opening.as_str(), field.to_sql(table_engine), " ASC)", *alias)
            },
            Aggregate::DistinctCount { field, alias } => call_string(
                "COUNT(DISTINCT ",
                field.to_sql(table_engine),
                ")",
                *alias,
            ),
        }
    }
}

/// Aggregates in the analytical backend. On a table with a sign column the
/// rows of a group count by their signs: a count is the sum of the signs,
/// whatever field it names, and a sum weighs each value by its sign. A
/// percentile is the exact quantile.
impl<R: ToSql<ClickhouseClient>> ToSql<ClickhouseClient> for Aggregate<R> {
    open spec fn sql(value: AggregateView<R::V>, table_engine: TableEngine) -> Result<
        Seq<char>,
        ParsingError,
    > {
        match value {
            AggregateView::Count { field, alias } => match table_engine {
                TableEngine::CollapsingMergeTree { sign } => Ok(
                    "SUM("@ + sign@ + ")"@ + alias_text(alias),
                ),
                TableEngine::BasicTree => count_text(
                    match field {
                        Some(f) => Some(R::sql(f, table_engine)),
                        None => None,
                    },
                    alias,
                ),
            },
            AggregateView::Sum { field, alias } => match table_engine {
                TableEngine::CollapsingMergeTree { sign } => call_text(
                    "SUM("@ + sign@ + " * "@,
                    R::sql(field, table_engine),
                    ")"@,
                    alias,
                ),
                TableEngine::BasicTree => call_text(
                    "SUM("@,
                    R::sql(field, table_engine),
                    ")"@,
                    alias,
                ),
            },
            AggregateView::Min { field, alias } => call_text(
                "MIN("@,
                R::sql(field, table_engine),
                ")"@,
                alias,
            ),
            AggregateView::Max { field, alias } => call_text(
                "MAX("@,
                R::sql(field, table_engine),
                ")"@,
                alias,
            ),
            AggregateView::Percentile { field, alias, percentile } => call_text(
                "quantilesExact(0."@ + percentile_digits(percentile) + ")("@,
                R::sql(field, table_engine),
                ")[1]"@,
                alias,
            ),
            AggregateView::DistinctCount { field, alias } => call_text(
                "COUNT(DISTINCT "@,
                R::sql(field, table_engine),
                ")"@,
                alias,
            ),
        }
    }

    fn to_sql(&self, table_engine: &TableEngine) -> (res: Result<String, ParsingError>) {
        match self {
            Aggregate::Count { field, alias } => match table_engine {
                TableEngine::CollapsingMergeTree { sign } => {
                    let mut call = String::from_str("SUM(");
                    call.append(sign);
                    call.append(")");
                    call.append(alias_string(*alias).as_str());
                    Ok(call)
                },
                TableEngine::BasicTree => count_string::<ClickhouseClient, R>(
                    field,
                    *alias,
                    table_engine,
                ),
            },
            Aggregate::Sum { field, alias } => match table_engine {
                TableEngine::CollapsingMergeTree { sign } => {
                    let mut opening = String::from_str("SUM(");
                    opening.append(sign);
                    opening.append(" * ");
                    call_string(opening.as_str(), field.to_sql(table_engine), ")", *alias)
                },
                TableEngine::BasicTree => call_string(
                    "SUM(",
                    field.to_sql(table_engine),
                    ")",
                    *alias,
                ),
            },
            Aggregate::Min { field, alias } => call_string(
                "MIN(",
                field.to_sql(table_engine),
                ")",
                *alias,
            ),
            Aggregate::Max { field, alias } => call_string(
                "MAX(",
                field.to_sql(table_engine),
                ")",
                *alias,
            ),
            Aggregate::Percentile { field, alias, percentile } => {
                let mut opening = String::from_str("quantilesExact(0.");
                opening.append(percentile_string(*percentile).as_str());
                opening.append(")(");
                call_string(opening.as_str(), field.to_sql(table_engine), ")[1]", *alias)
            },
            Aggregate::DistinctCount { field, alias } => call_string(
                "COUNT(DISTINCT ",
                field.to_sql(table_engine),
                ")",
                *alias,
            ),
        }
    }
}

/// A window function over the rows of a partition.
#[derive(Debug)]
pub enum Window<R> {
    Sum {
        field: R,
        partition_by: Option<String>,
        order_by: Option<(String, Order)>,
        alias: Option<&'static str>,
    },
    RowNumber {
        field: R,
        partition_by: Option<String>,
        order_by: Option<(String, Order)>,
        alias: Option<&'static str>,
    },
}

/// A window function as a mathematical value.
pub enum WindowView<V> {
    Sum {
        field: V,
        partition_by: Option<Seq<char>>,
        order_by: Option<(Seq<char>, Order)>,
        alias: Option<Seq<char>>,
    },
    RowNumber {
        field: V,
        partition_by: Option<Seq<char>>,
        order_by: Option<(Seq<char>, Order)>,
        alias: Option<Seq<char>>,
    },
}

/// The text of the partitioning columns, where there are any.
pub open spec fn partition_view(partition_by: Option<String>) -> Option<Seq<char>> {
    match partition_by {
        Some(columns) => Some(columns@),
        None => None,
    }
}

/// The text of the ordering column and its direction, where there is one.
pub open spec fn ordering_view(order_by: Option<(String, Order)>) -> Option<(Seq<char>, Order)> {
    match order_by {
        Some((column, order)) => Some((column@, order)),
        None => None,
    }
}

impl<R: View> View for Window<R> {
    type V = WindowView<R::V>;

    open spec fn view(&self) -> WindowView<R::V> {
        match self {
            Window::Sum { field, partition_by, order_by, alias } => WindowView::Sum {
                field: field@,
                partition_by: partition_view(*partition_by),
                order_by: ordering_view(*order_by),
                alias: alias_view(*alias),
            },
            Window::RowNumber { field, partition_by, order_by, alias } => WindowView::RowNumber {
                field: field@,
                partition_by: partition_view(*partition_by),
                order_by: ordering_view(*order_by),
                alias: alias_view(*alias),
            },
        }
    }
}

/// The window a function ranges over: `OVER (`, the partitioning and the
/// ordering that were given, `)`. Where both are given one blank parts them.
pub open spec fn over_text(
    partition_by: Option<Seq<char>>,
    order_by: Option<(Seq<char>, Order)>,
) -> Seq<char> {
    match (partition_by, order_by) {
        (Some(columns), Some((column, order))) => "OVER (PARTITION BY "@ + columns + " ORDER BY "@
            + column + " "@ + order.text() + ")"@,
        (Some(columns), None) => "OVER (PARTITION BY "@ + columns + ")"@,
        (None, Some((column, order))) => "OVER (ORDER BY "@ + column + " "@ + order.text() + ")"@,
        (None, None) => "OVER ()"@,
    }
}

/// The text of a window function, alike in both backends: the function
/// applied to the rendered field, its window and its alias. The number of a
/// row takes no argument, so its field is not rendered.
pub open spec fn window_text<T: AnalyticsDataSource, R: ToSql<T>>(
    value: WindowView<R::V>,
    table_engine: TableEngine,
) -> Result<Seq<char>, ParsingError> {
    match value {
        WindowView::Sum { field, partition_by, order_by, alias } => call_text(
            "SUM("@,
            R::sql(field, table_engine),
            ") "@ + over_text(partition_by, order_by),
            alias,
        ),
        WindowView::RowNumber { field, partition_by, order_by, alias } => Ok(
            "ROW_NUMBER() "@ + over_text(partition_by, order_by) + alias_text(alias),
        ),
    }
}

fn over_string(partition_by: &Option<String>, order_by: &Option<(String, Order)>) -> (text: String)
    ensures
        text@ == over_text(partition_view(*partition_by), ordering_view(*order_by)),
{
    let mut text = String::from_str("OVER (");
    match partition_by {
        Some(columns) => {
            text.append("PARTITION BY ");
            text.append(columns.as_str());
        },
        None => {},
    }
    match order_by {
        Some((column, order)) => {
            match partition_by {
                Some(_) => {
                    text.append(" ");
                },
                None => {},
            }
            text.append("ORDER BY ");
            text.append(column.as_str());
            text.append(" ");
            text.append(order.to_string().as_str());
        },
        None => {},
    }
    text.append(")");
    proof {
        reveal_strlit("OVER (");
        reveal_strlit("OVER ()");
        reveal_strlit("OVER (PARTITION BY ");
        reveal_strlit("OVER (ORDER BY ");
        reveal_strlit("PARTITION BY ");
        reveal_strlit("ORDER BY ");
        reveal_strlit(" ORDER BY ");
        reveal_strlit(" ");
        reveal_strlit(")");
        assert(text@ =~= over_text(partition_view(*partition_by), ordering_view(*order_by)));
    }
    text
}

fn window_string<T: AnalyticsDataSource, R: ToSql<T>>(
    window: &Window<R>,
    table_engine: &TableEngine,
) -> (res: Result<String, ParsingError>)
    ensures
        crate::to_sql::rendered(res) == window_text::<T, R>(window@, *table_engine),
{
    match window {
        Window::Sum { field, partition_by, order_by, alias } => {
            let mut closing = String::from_str(") ");
            closing.append(over_string(partition_by, order_by).as_str());
            call_string("SUM(", field.to_sql(table_engine), closing.as_str(), *alias)
        },
        Window::RowNumber { field, partition_by, order_by, alias } => {
            let mut call = String::from_str("ROW_NUMBER() ");
            call.append(over_string(partition_by, order_by).as_str());
            call.append(alias_string(*alias).as_str());
            Ok(call)
        },
    }
}

impl<R: ToSql<SqlxClient>> ToSql<SqlxClient> for Window<R> {
    open spec fn sql(value: WindowView<R::V>, table_engine: TableEngine) -> Result<
        Seq<char>,
        ParsingError,
    > {
        window_text::<SqlxClient, R>(value, table_engine)
    }

    fn to_sql(&self, table_engine: &TableEngine) -> (res: Result<String, ParsingError>) {
        window_string::<SqlxClient, R>(self, table_engine)
    }
}

impl<R: ToSql<ClickhouseClient>> ToSql<ClickhouseClient> for Window<R> {
    open spec fn sql(value: WindowView<R::V>, table_engine: TableEngine) -> Result<
        Seq<char>,
        ParsingError,
    > {
        window_text::<ClickhouseClient, R>(value, table_engine)
    }

    fn to_sql(&self, table_engine: &TableEngine) -> (res: Result<String, ParsingError>) {
        window_string::<ClickhouseClient, R>(self, table_engine)
    }
}

/// Keep of each group the first `count` rows in the order given: the rows
/// are numbered within their group and those numbered above `count` dropped.
#[derive(Debug)]
pub struct TopN {
    pub columns: String,
    pub count: u64,
    pub order_column: String,
    pub order: Order,
}

/// A top-N as a mathematical value.
pub struct TopNView {
    pub columns: Seq<char>,
    pub count: u64,
    pub order_column: Seq<char>,
    pub order: Order,
}

impl View for TopN {
    type V = TopNView;

    open spec fn view(&self) -> TopNView {
        TopNView {
            columns: self.columns@,
            count: self.count,
            order_column: self.order_column@,
            order: self.order,
        }
    }
}

/// The backend's own cap on the rows of each group.
#[derive(Debug)]
pub struct LimitByClause {
    limit: u64,
    columns: Vec<String>,
}

/// A cap on the rows of each group as a mathematical value.
pub struct LimitByView {
    pub limit: u64,
    pub columns: Seq<Seq<char>>,
}

impl LimitByView {
    /// `LIMIT`, the number of rows, `BY`, the columns with `, ` between.
    pub open spec fn text(self) -> Seq<char> {
        "LIMIT "@ + decimal(self.limit as nat) + " BY "@ + join(self.columns, ", "@)
    }
}

impl View for LimitByClause {
    type V = LimitByView;

    closed spec fn view(&self) -> LimitByView {
        LimitByView { limit: self.limit, columns: texts(self.columns@) }
    }
}

impl LimitByClause {
    pub fn new(limit: u64, columns: Vec<String>) -> (clause: Self)
        ensures
            clause@ == (LimitByView { limit, columns: texts(columns@) }),
    {
        LimitByClause { limit, columns }
    }

    pub fn to_string(&self) -> (text: String)
        ensures
            text@ == self@.text(),
    {
        let mut text = String::from_str("LIMIT ");
        text.append(u64_to_string(self.limit).as_str());
        text.append(" BY ");
        text.append(join_strings(&self.columns, ", ").as_str());
        text
    }
}

} // verus!
