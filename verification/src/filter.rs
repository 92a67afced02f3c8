//! Filters: a comparison of two rendered operands, or a list of filters
//! joined by a combinator, and the text each of them stands for.

use vstd::prelude::*;
use vstd::string::StringExecFns;

use crate::source::AnalyticsDataSource;
use crate::source::ParsingError;
use crate::source::TableEngine;
use crate::text::join;
use crate::text::join_strings;
use crate::text::texts;
use crate::to_sql::ToSql;

verus! {

/// How the two operands of a comparison are related.
#[derive(Debug, Clone, Copy)]
pub enum FilterTypes {
    Equal,
    NotEqual,
    EqualBool,
    In,
    Gte,
    Lte,
    Gt,
    Like,
    NotLike,
    IsNotNull,
}

impl View for FilterTypes {
    type V = FilterTypes;

    open spec fn view(&self) -> FilterTypes {
        *self
    }
}

/// The text of one comparison. Every operator has one template; the operands
/// are copied into it unchanged.
pub open spec fn filter_type_text(l: Seq<char>, op: FilterTypes, r: Seq<char>) -> Seq<char> {
    match op {
        FilterTypes::EqualBool => l + " = "@ + r,
        FilterTypes::Equal => l + " = '"@ + r + "'"@,
        FilterTypes::NotEqual => l + " != '"@ + r + "'"@,
        FilterTypes::In => l + " IN ("@ + r + ")"@,
        FilterTypes::Gte => l + " >= '"@ + r + "'"@,
        FilterTypes::Gt => l + " > "@ + r,
        FilterTypes::Lte => l + " <= '"@ + r + "'"@,
        FilterTypes::Like => l + " LIKE '%"@ + r + "%'"@,
        FilterTypes::NotLike => l + " NOT LIKE '%"@ + r + "%'"@,
        FilterTypes::IsNotNull => l + " IS NOT NULL"@,
    }
}

/// Writes one comparison by the template of its operator.
pub fn filter_type_to_sql(l: &str, op: FilterTypes, r: &str) -> (s: String)
    ensures
        s@ == filter_type_text(l@, op, r@),
{
    let mut s = String::from_str(l);
    match op {
        FilterTypes::EqualBool => {
            s.append(" = ");
            s.append(r);
        },
        FilterTypes::Equal => {
            s.append(" = '");
            s.append(r);
            s.append("'");
        },
        FilterTypes::NotEqual => {
            s.append(" != '");
            s.append(r);
            s.append("'");
        },
        FilterTypes::In => {
            s.append(" IN (");
            s.append(r);
            s.append(")");
        },
        FilterTypes::Gte => {
            s.append(" >= '");
            s.append(r);
            s.append("'");
        },
        FilterTypes::Gt => {
            s.append(" > ");
            s.append(r);
        },
        FilterTypes::Lte => {
            s.append(" <= '");
            s.append(r);
            s.append("'");
        },
        FilterTypes::Like => {
            s.append(" LIKE '%");
            s.append(r);
            s.append("%'");
        },
        FilterTypes::NotLike => {
            s.append(" NOT LIKE '%");
            s.append(r);
            s.append("%'");
        },
        FilterTypes::IsNotNull => {
            s.append(" IS NOT NULL");
        },
    }
    s
}

/// How the children of a node are joined.
#[derive(Debug, Clone, Copy)]
pub enum FilterCombinator {
    And,
    Or,
}

impl View for FilterCombinator {
    type V = FilterCombinator;

    open spec fn view(&self) -> FilterCombinator {
        *self
    }
}

impl Default for FilterCombinator {
    fn default() -> (combinator: Self)
        ensures
            combinator == FilterCombinator::And,
    {
        FilterCombinator::And
    }
}

/// The separator a combinator writes between two children.
pub open spec fn combinator_text(combinator: FilterCombinator) -> Seq<char> {
    match combinator {
        FilterCombinator::And => " AND "@,
        FilterCombinator::Or => " OR "@,
    }
}

impl<T: AnalyticsDataSource> ToSql<T> for FilterCombinator {
    open spec fn sql(value: FilterCombinator, table_engine: TableEngine) -> Result<
        Seq<char>,
        ParsingError,
    > {
        Ok(combinator_text(value))
    }

    fn to_sql(&self, table_engine: &TableEngine) -> (res: Result<String, ParsingError>) {
        match self {
            FilterCombinator::And => Ok(String::from_str(" AND ")),
            FilterCombinator::Or => Ok(String::from_str(" OR ")),
        }
    }
}

/// A filter tree.
#[derive(Debug)]
pub enum Filter {
    /// Left operand, operator, right operand: all already rendered.
    Plain(String, FilterTypes, String),
    /// The children, joined by the combinator, in one pair of parentheses.
    NestedFilter(FilterCombinator, Vec<Filter>),
}

/// A filter tree as a mathematical value.
pub enum FilterView {
    Plain(Seq<char>, FilterTypes, Seq<char>),
    NestedFilter(FilterCombinator, Seq<FilterView>),
}

impl View for Filter {
    type V = FilterView;

    open spec fn view(&self) -> FilterView
        decreases self,
    {
        match self {
            Filter::Plain(l, op, r) => FilterView::Plain(l@, *op, r@),
            Filter::NestedFilter(combinator, filters) => FilterView::NestedFilter(
                *combinator,
                Seq::new(
                    filters@.len(),
                    |i: int|
                        if 0 <= i < filters@.len() {
                            filters@[i]@
                        } else {
                            FilterView::empty()
                        },
                ),
            ),
        }
    }
}

impl Clone for Filter {
    fn clone(&self) -> (copy: Self)
        ensures
            copy@ == self@,
        decreases self,
    {
        match self {
            Filter::Plain(l, op, r) => Filter::Plain(l.clone(), *op, r.clone()),
            Filter::NestedFilter(combinator, filters) => {
                let mut copies: Vec<Filter> = Vec::new();
                let mut i: usize = 0;
                while i < filters.len()
                    invariant
                        i <= filters.len(),
                        copies@.len() == i,
                        self is NestedFilter,
                        self->NestedFilter_0 == *combinator,
                        self->NestedFilter_1 == *filters,
                        forall|j: int| 0 <= j < i ==> (#[trigger] copies@[j])@ == filters@[j]@,
                    decreases filters.len() - i,
                {
                    proof {
                        vstd::std_specs::vec::axiom_vec_index_decreases(*filters, i as int);
                    }
                    let copy = filters[i].clone();
                    copies.push(copy);
                    i += 1;
                }
                let copy = Filter::NestedFilter(*combinator, copies);
                assert(copy@ == self@) by {
                    assert(copy@->NestedFilter_1 =~= self@->NestedFilter_1);
                }
                copy
            },
        }
    }
}

impl FilterView {
    /// The tree a builder starts from: a conjunction of nothing.
    pub open spec fn empty() -> FilterView {
        FilterView::NestedFilter(FilterCombinator::And, Seq::empty())
    }

    /// The texts of a node's children, in order.
    pub open spec fn texts_of(children: Seq<FilterView>) -> Seq<Seq<char>>
        decreases children, 0int,
    {
        Seq::new(
            children.len(),
            |i: int|
                if 0 <= i < children.len() {
                    children[i].text()
                } else {
                    Seq::empty()
                },
        )
    }

    /// The text of the tree. A node writes its children between `( ` and
    /// ` )`, whatever their number: without children it is `(  )`.
    pub open spec fn text(self) -> Seq<char>
        decreases self, 1int,
    {
        match self {
            FilterView::Plain(l, op, r) => filter_type_text(l, op, r),
            FilterView::NestedFilter(combinator, children) => "( "@ + join(
                Self::texts_of(children),
                combinator_text(combinator),
            ) + " )"@,
        }
    }

    /// The tree with one more filter. A node takes it as its last child; a
    /// bare comparison becomes the first child of a new conjunction and the
    /// filter the second.
    pub open spec fn with(self, filter: FilterView) -> FilterView {
        match self {
            FilterView::NestedFilter(combinator, children) => FilterView::NestedFilter(
                combinator,
                children.push(filter),
            ),
            FilterView::Plain(_, _, _) => FilterView::NestedFilter(
                FilterCombinator::And,
                seq![self, filter],
            ),
        }
    }

    /// The tree with each of `filters` added in turn.
    pub open spec fn with_all(self, filters: Seq<FilterView>) -> FilterView
        decreases filters.len(),
    {
        if filters.len() == 0 {
            self
        } else {
            self.with_all(filters.drop_last()).with(filters.last())
        }
    }
}

impl Default for Filter {
    fn default() -> (filter: Self)
        ensures
            filter@ == FilterView::empty(),
    {
        let filter = Filter::NestedFilter(FilterCombinator::And, Vec::new());
        assert(filter@->NestedFilter_1 =~= Seq::empty());
        filter
    }
}

impl Filter {
    /// The text of the tree.
    pub fn render(&self) -> (rendering: String)
        ensures
            rendering@ == self@.text(),
        decreases self,
    {
        match self {
            Filter::Plain(l, op, r) => filter_type_to_sql(l.as_str(), *op, r.as_str()),
            Filter::NestedFilter(combinator, filters) => {
                let mut parts: Vec<String> = Vec::new();
                let mut i: usize = 0;
                while i < filters.len()
                    invariant
                        i <= filters.len(),
                        parts@.len() == i,
                        self is NestedFilter,
                        self->NestedFilter_1 == *filters,
                        forall|j: int| 0 <= j < i ==> (#[trigger] parts@[j])@ == filters@[j]@.text(),
                    decreases filters.len() - i,
                {
                    proof {
                        vstd::std_specs::vec::axiom_vec_index_decreases(*filters, i as int);
                    }
                    let part = filters[i].render();
                    parts.push(part);
                    i += 1;
                }
                let separator = match combinator {
                    FilterCombinator::And => " AND ",
                    FilterCombinator::Or => " OR ",
                };
                let mut rendering = String::from_str("( ");
                rendering.append(join_strings(&parts, separator).as_str());
                rendering.append(" )");
                proof {
                    assert(texts(parts@) =~= FilterView::texts_of(self@->NestedFilter_1));
                }
                rendering
            },
        }
    }
}

/// A filter renders alike for every backend and never fails.
impl<T: AnalyticsDataSource> ToSql<T> for Filter {
    open spec fn sql(value: FilterView, table_engine: TableEngine) -> Result<
        Seq<char>,
        ParsingError,
    > {
        Ok(value.text())
    }

    fn to_sql(&self, table_engine: &TableEngine) -> (res: Result<String, ParsingError>) {
        Ok(self.render())
    }
}

/// Whatever the tree was, with one more filter it is a node: the bare
/// comparison a tree could be is gone after the first addition.
pub proof fn lemma_with_is_a_node(tree: FilterView, filter: FilterView)
    ensures
        tree.with(filter) is NestedFilter,
        tree is NestedFilter ==> tree.with(filter)->NestedFilter_0 == tree->NestedFilter_0,
{
}

/// Adding no filter leaves the tree as it is.
pub proof fn lemma_with_none(tree: FilterView)
    ensures
        tree.with_all(Seq::empty()) == tree,
{
}

/// Adding one more filter after some others adds it to what they gave.
pub proof fn lemma_with_one_more(tree: FilterView, filters: Seq<FilterView>, filter: FilterView)
    ensures
        tree.with_all(filters.push(filter)) == tree.with_all(filters).with(filter),
{
    assert(filters.push(filter).drop_last() =~= filters);
}

/// Adding filters one by one to the tree a builder starts from gives the
/// conjunction of exactly those filters, in the order they were added.
pub proof fn lemma_added_filters_are_children(filters: Seq<FilterView>)
    ensures
        FilterView::empty().with_all(filters) == FilterView::NestedFilter(
            FilterCombinator::And,
            filters,
        ),
    decreases filters.len(),
{
    if filters.len() == 0 {
        assert(filters =~= Seq::empty());
    } else {
        lemma_added_filters_are_children(filters.drop_last());
        assert(filters.drop_last().push(filters.last()) =~= filters);
    }
}

/// The text of a builder's filters after any sequence of additions to the
/// initial tree: one pair of parentheses round the texts of the added
/// filters, in the order of their addition, with ` AND ` between neighbours.
/// An added comparison contributes the text of its operator's template.
pub proof fn lemma_added_filters_render_as_conjunction(filters: Seq<FilterView>)
    ensures
        FilterView::empty().with_all(filters).text() == "( "@ + join(
            FilterView::texts_of(filters),
            " AND "@,
        ) + " )"@,
        forall|i: int|
            0 <= i < filters.len() ==> (#[trigger] filters[i] matches FilterView::Plain(l, op, r)
                ==> FilterView::texts_of(filters)[i] == filter_type_text(l, op, r)),
{
    lemma_added_filters_are_children(filters);
}

/// No filter renders to the empty text: a comparison holds at least its
/// operator, a node at least its parentheses.
pub proof fn lemma_filter_text_is_not_empty(filter: FilterView)
    ensures
        filter.text().len() > 0,
{
    reveal_strlit(" = ");
    reveal_strlit(" = '");
    reveal_strlit(" != '");
    reveal_strlit(" IN (");
    reveal_strlit(" >= '");
    reveal_strlit(" > ");
    reveal_strlit(" <= '");
    reveal_strlit(" LIKE '%");
    reveal_strlit(" NOT LIKE '%");
    reveal_strlit(" IS NOT NULL");
    reveal_strlit("( ");
}

} // verus!
