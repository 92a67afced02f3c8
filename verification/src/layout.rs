//! Where the keywords `FROM` and `HAVING` stand in the text of a query whose
//! fragments do not hold them: the fragments are taken as given, so a word
//! can be counted only in a query whose fragments are free of it.

use vstd::prelude::*;

use crate::builder::assembly;
use crate::builder::having_texts;
use crate::builder::wrapping_prefix;
use crate::builder::wrapping_suffix;
use crate::builder::HavingView;
use crate::builder::QueryView;
use crate::descriptor::Aggregate;
use crate::filter::combinator_text;
use crate::filter::filter_type_text;
use crate::filter::FilterTypes;
use crate::filter::FilterView;
use crate::occurrence::all_free_of;
use crate::occurrence::closes_clear;
use crate::occurrence::free_of;
use crate::occurrence::lemma_append_after_closing;
use crate::occurrence::lemma_append_opening;
use crate::occurrence::lemma_ends_of_a_concatenation;
use crate::occurrence::lemma_free_after_closing;
use crate::occurrence::lemma_free_before_opening;
use crate::occurrence::lemma_join_is_free;
use crate::occurrence::lemma_lacking_a_character;
use crate::occurrence::lemma_places_in_a_concatenation;
use crate::occurrence::lemma_prepend_free;
use crate::occurrence::occurs_at;
use crate::occurrence::opens_clear;
use crate::occurrence::separates;
use crate::source::AnalyticsCollection;
use crate::source::AnalyticsDataSource;
use crate::text::decimal;
use crate::text::digit_char;
use crate::text::join;
use crate::to_sql::ToSql;

verus! {

/// No operand of a comparison in the tree holds `word`.
pub open spec fn operands_free_of(filter: FilterView, word: Seq<char>) -> bool
    decreases filter,
{
    match filter {
        FilterView::Plain(l, _, r) => free_of(l, word) && free_of(r, word),
        FilterView::NestedFilter(_, children) => forall|i: int|
            0 <= i < children.len() ==> operands_free_of(#[trigger] children[i], word),
    }
}

/// No aggregate and no value of the conditions holds `word`.
pub open spec fn conditions_free_of(entries: Seq<HavingView>, word: Seq<char>) -> bool {
    forall|i: int|
        0 <= i < entries.len() ==> free_of((#[trigger] entries[i]).0, word) && free_of(
            entries[i].2,
            word,
        )
}

/// No fragment that the query on the table is made of holds `word`: no
/// selected, grouping or ordering column, no operand of a filter or of a
/// condition on the groups, no column of the cap.
pub open spec fn fragments_free_of(query: QueryView, word: Seq<char>) -> bool {
    &&& all_free_of(query.columns, word)
    &&& operands_free_of(query.filters, word)
    &&& all_free_of(query.group_by, word)
    &&& query.having matches Some(entries) ==> conditions_free_of(entries, word)
    &&& all_free_of(query.order_by, word)
    &&& query.limit_by matches Some(limit_by) ==> all_free_of(limit_by.columns, word)
}

/// What the clauses write between the fragments, `FROM` and `HAVING` left
/// aside, can stand next to any fragment without making `word`; and `word`
/// holds no digit.
pub open spec fn clause_texts_separate(word: Seq<char>) -> bool {
    &&& separates(", "@, word)
    &&& separates(" WHERE "@, word)
    &&& separates(" GROUP BY "@, word)
    &&& separates(" AND "@, word)
    &&& separates(" OR "@, word)
    &&& separates(" ORDER BY "@, word)
    &&& separates(" "@, word)
    &&& separates("LIMIT "@, word)
    &&& separates(" BY "@, word)
    &&& separates("( "@, word)
    &&& separates(" )"@, word)
    &&& separates(" = "@, word)
    &&& separates(" = '"@, word)
    &&& separates("'"@, word)
    &&& separates(" != '"@, word)
    &&& separates(" IN ("@, word)
    &&& separates(")"@, word)
    &&& separates(" >= '"@, word)
    &&& separates(" > "@, word)
    &&& separates(" <= '"@, word)
    &&& separates(" LIKE '%"@, word)
    &&& separates("%'"@, word)
    &&& separates(" NOT LIKE '%"@, word)
    &&& separates(" IS NOT NULL"@, word)
    &&& separates("SELECT "@, word)
    &&& separates("DISTINCT "@, word)
    &&& word.len() > 0
    &&& forall|d: nat| d < 10 ==> word[0] != #[trigger] digit_char(d)
}

/// A text that lacks one character of `word`, does not begin with a later
/// character of it and does not end with an earlier one, separates.
proof fn lemma_separates(text: Seq<char>, word: Seq<char>, k: int)
    requires
        0 <= k < word.len(),
        text.len() > 0,
        forall|i: int| 0 <= i < text.len() ==> text[i] != word[k],
        forall|j: int| 1 <= j < word.len() ==> text[0] != word[j],
        forall|j: int| 0 <= j < word.len() - 1 ==> text.last() != word[j],
    ensures
        separates(text, word),
{
    lemma_lacking_a_character(text, word, k);
}

/// What stands between the members of a list or round a group:
/// each separates `FROM`.
proof fn lemma_joiners_separate_from()
    ensures
        separates(", "@, "FROM"@),
        separates(" AND "@, "FROM"@),
        separates(" OR "@, "FROM"@),
        separates("( "@, "FROM"@),
        separates(" )"@, "FROM"@),
{
    reveal_strlit("FROM");
    reveal_strlit(", ");
    reveal_strlit(" AND ");
    reveal_strlit(" OR ");
    reveal_strlit("( ");
    reveal_strlit(" )");
    lemma_separates(", "@, "FROM"@, 0);
    lemma_separates(" AND "@, "FROM"@, 0);
    lemma_separates(" OR "@, "FROM"@, 0);
    lemma_separates("( "@, "FROM"@, 0);
    lemma_separates(" )"@, "FROM"@, 0);
}

/// The keywords of the clauses after the table, and the words of the cap:
/// each separates `FROM`.
proof fn lemma_keywords_separate_from()
    ensures
        separates(" WHERE "@, "FROM"@),
        separates(" GROUP BY "@, "FROM"@),
        separates(" ORDER BY "@, "FROM"@),
        separates(" "@, "FROM"@),
        separates("LIMIT "@, "FROM"@),
        separates(" BY "@, "FROM"@),
{
    reveal_strlit("FROM");
    reveal_strlit(" WHERE ");
    reveal_strlit(" GROUP BY ");
    reveal_strlit(" ORDER BY ");
    reveal_strlit(" ");
    reveal_strlit("LIMIT ");
    reveal_strlit(" BY ");
    lemma_separates(" WHERE "@, "FROM"@, 0);
    lemma_separates(" GROUP BY "@, "FROM"@, 0);
    lemma_separates(" ORDER BY "@, "FROM"@, 0);
    lemma_separates(" "@, "FROM"@, 0);
    lemma_separates("LIMIT "@, "FROM"@, 0);
    lemma_separates(" BY "@, "FROM"@, 0);
}

/// What the equalities, and the order of unquoted operands, are written with:
/// each separates `FROM`.
proof fn lemma_equalities_separate_from()
    ensures
        separates(" = "@, "FROM"@),
        separates(" = '"@, "FROM"@),
        separates("'"@, "FROM"@),
        separates(" != '"@, "FROM"@),
        separates(" > "@, "FROM"@),
{
    reveal_strlit("FROM");
    reveal_strlit(" = ");
    reveal_strlit(" = '");
    reveal_strlit("'");
    reveal_strlit(" != '");
    reveal_strlit(" > ");
    lemma_separates(" = "@, "FROM"@, 0);
    lemma_separates(" = '"@, "FROM"@, 0);
    lemma_separates("'"@, "FROM"@, 0);
    lemma_separates(" != '"@, "FROM"@, 0);
    lemma_separates(" > "@, "FROM"@, 0);
}

/// What the memberships and the ranges are written with:
/// each separates `FROM`.
proof fn lemma_ranges_separate_from()
    ensures
        separates(" IN ("@, "FROM"@),
        separates(")"@, "FROM"@),
        separates(" >= '"@, "FROM"@),
        separates(" <= '"@, "FROM"@),
{
    reveal_strlit("FROM");
    reveal_strlit(" IN (");
    reveal_strlit(")");
    reveal_strlit(" >= '");
    reveal_strlit(" <= '");
    lemma_separates(" IN ("@, "FROM"@, 0);
    lemma_separates(")"@, "FROM"@, 0);
    lemma_separates(" >= '"@, "FROM"@, 0);
    lemma_separates(" <= '"@, "FROM"@, 0);
}

/// What the pattern matches and the test for a value are written with:
/// each separates `FROM`.
proof fn lemma_patterns_separate_from()
    ensures
        separates(" LIKE '%"@, "FROM"@),
        separates("%'"@, "FROM"@),
        separates(" NOT LIKE '%"@, "FROM"@),
        separates(" IS NOT NULL"@, "FROM"@),
{
    reveal_strlit("FROM");
    reveal_strlit(" LIKE '%");
    reveal_strlit("%'");
    reveal_strlit(" NOT LIKE '%");
    reveal_strlit(" IS NOT NULL");
    lemma_separates(" LIKE '%"@, "FROM"@, 0);
    lemma_separates("%'"@, "FROM"@, 0);
    lemma_separates(" NOT LIKE '%"@, "FROM"@, 0);
    lemma_separates(" IS NOT NULL"@, "FROM"@, 0);
}

/// The keywords of the selection, and `HAVING` between its blanks:
/// each separates `FROM`.
proof fn lemma_selection_separate_from()
    ensures
        separates("SELECT "@, "FROM"@),
        separates("DISTINCT "@, "FROM"@),
        separates(" HAVING "@, "FROM"@),
{
    reveal_strlit("FROM");
    reveal_strlit("SELECT ");
    reveal_strlit("DISTINCT ");
    reveal_strlit(" HAVING ");
    lemma_separates("SELECT "@, "FROM"@, 0);
    lemma_separates("DISTINCT "@, "FROM"@, 0);
    lemma_separates(" HAVING "@, "FROM"@, 0);
}

/// What the clauses write separates `FROM`, and so does `HAVING` between
/// its blanks.
pub proof fn lemma_clause_texts_separate_from()
    ensures
        clause_texts_separate("FROM"@),
        separates(" HAVING "@, "FROM"@),
{
    lemma_joiners_separate_from();
    lemma_keywords_separate_from();
    lemma_equalities_separate_from();
    lemma_ranges_separate_from();
    lemma_patterns_separate_from();
    lemma_selection_separate_from();
    reveal_strlit("FROM");
}

/// What stands between the members of a list or round a group:
/// each separates `HAVING`.
proof fn lemma_joiners_separate_having()
    ensures
        separates(", "@, "HAVING"@),
        separates(" AND "@, "HAVING"@),
        separates(" OR "@, "HAVING"@),
        separates("( "@, "HAVING"@),
        separates(" )"@, "HAVING"@),
{
    reveal_strlit("HAVING");
    reveal_strlit(", ");
    reveal_strlit(" AND ");
    reveal_strlit(" OR ");
    reveal_strlit("( ");
    reveal_strlit(" )");
    lemma_separates(", "@, "HAVING"@, 2);
    lemma_separates(" AND "@, "HAVING"@, 2);
    lemma_separates(" OR "@, "HAVING"@, 2);
    lemma_separates("( "@, "HAVING"@, 2);
    lemma_separates(" )"@, "HAVING"@, 2);
}

/// The keywords of the clauses after the table, and the words of the cap:
/// each separates `HAVING`.
proof fn lemma_keywords_separate_having()
    ensures
        separates(" WHERE "@, "HAVING"@),
        separates(" GROUP BY "@, "HAVING"@),
        separates(" ORDER BY "@, "HAVING"@),
        separates(" "@, "HAVING"@),
        separates("LIMIT "@, "HAVING"@),
        separates(" BY "@, "HAVING"@),
{
    reveal_strlit("HAVING");
    reveal_strlit(" WHERE ");
    reveal_strlit(" GROUP BY ");
    reveal_strlit(" ORDER BY ");
    reveal_strlit(" ");
    reveal_strlit("LIMIT ");
    reveal_strlit(" BY ");
    lemma_separates(" WHERE "@, "HAVING"@, 2);
    lemma_separates(" GROUP BY "@, "HAVING"@, 2);
    lemma_separates(" ORDER BY "@, "HAVING"@, 2);
    lemma_separates(" "@, "HAVING"@, 2);
    lemma_separates("LIMIT "@, "HAVING"@, 2);
    lemma_separates(" BY "@, "HAVING"@, 2);
}

/// What the equalities, and the order of unquoted operands, are written with:
/// each separates `HAVING`.
proof fn lemma_equalities_separate_having()
    ensures
        separates(" = "@, "HAVING"@),
        separates(" = '"@, "HAVING"@),
        separates("'"@, "HAVING"@),
        separates(" != '"@, "HAVING"@),
        separates(" > "@, "HAVING"@),
{
    reveal_strlit("HAVING");
    reveal_strlit(" = ");
    reveal_strlit(" = '");
    reveal_strlit("'");
    reveal_strlit(" != '");
    reveal_strlit(" > ");
    lemma_separates(" = "@, "HAVING"@, 2);
    lemma_separates(" = '"@, "HAVING"@, 2);
    lemma_separates("'"@, "HAVING"@, 2);
    lemma_separates(" != '"@, "HAVING"@, 2);
    lemma_separates(" > "@, "HAVING"@, 2);
}

/// What the memberships and the ranges are written with:
/// each separates `HAVING`.
proof fn lemma_ranges_separate_having()
    ensures
        separates(" IN ("@, "HAVING"@),
        separates(")"@, "HAVING"@),
        separates(" >= '"@, "HAVING"@),
        separates(" <= '"@, "HAVING"@),
{
    reveal_strlit("HAVING");
    reveal_strlit(" IN (");
    reveal_strlit(")");
    reveal_strlit(" >= '");
    reveal_strlit(" <= '");
    lemma_separates(" IN ("@, "HAVING"@, 2);
    lemma_separates(")"@, "HAVING"@, 2);
    lemma_separates(" >= '"@, "HAVING"@, 2);
    lemma_separates(" <= '"@, "HAVING"@, 2);
}

/// What the pattern matches and the test for a value are written with:
/// each separates `HAVING`.
proof fn lemma_patterns_separate_having()
    ensures
        separates(" LIKE '%"@, "HAVING"@),
        separates("%'"@, "HAVING"@),
        separates(" NOT LIKE '%"@, "HAVING"@),
        separates(" IS NOT NULL"@, "HAVING"@),
{
    reveal_strlit("HAVING");
    reveal_strlit(" LIKE '%");
    reveal_strlit("%'");
    reveal_strlit(" NOT LIKE '%");
    reveal_strlit(" IS NOT NULL");
    lemma_separates(" LIKE '%"@, "HAVING"@, 2);
    lemma_separates("%'"@, "HAVING"@, 2);
    lemma_separates(" NOT LIKE '%"@, "HAVING"@, 2);
    lemma_separates(" IS NOT NULL"@, "HAVING"@, 2);
}

/// The keywords of the selection, and `FROM` between its blanks:
/// each separates `HAVING`.
proof fn lemma_selection_separate_having()
    ensures
        separates("SELECT "@, "HAVING"@),
        separates("DISTINCT "@, "HAVING"@),
        separates(" FROM "@, "HAVING"@),
{
    reveal_strlit("HAVING");
    reveal_strlit("SELECT ");
    reveal_strlit("DISTINCT ");
    reveal_strlit(" FROM ");
    lemma_separates("SELECT "@, "HAVING"@, 2);
    lemma_separates("DISTINCT "@, "HAVING"@, 2);
    lemma_separates(" FROM "@, "HAVING"@, 2);
}

/// What the clauses write separates `HAVING`, and so does `FROM` between
/// its blanks.
pub proof fn lemma_clause_texts_separate_having()
    ensures
        clause_texts_separate("HAVING"@),
        separates(" FROM "@, "HAVING"@),
{
    lemma_joiners_separate_having();
    lemma_keywords_separate_having();
    lemma_equalities_separate_having();
    lemma_ranges_separate_having();
    lemma_patterns_separate_having();
    lemma_selection_separate_having();
    reveal_strlit("HAVING");
}

/// After a text free of `word`, a separator of it and then an operand free
/// of it: all free of `word`, and clear before the operand.
proof fn lemma_wrapped_operand(
    before: Seq<char>,
    opening: Seq<char>,
    operand: Seq<char>,
    word: Seq<char>,
)
    requires
        free_of(before, word),
        separates(opening, word),
        free_of(operand, word),
    ensures
        free_of(before + opening + operand, word),
        free_of(before + opening, word),
        closes_clear(before + opening, word),
{
    lemma_free_before_opening(before, opening, word);
    lemma_ends_of_a_concatenation(before, opening, word);
    lemma_free_after_closing(before + opening, operand, word);
}

/// A comparison of two operands free of `word` is free of it.
pub proof fn lemma_comparison_is_free(l: Seq<char>, op: FilterTypes, r: Seq<char>, word: Seq<char>)
    requires
        free_of(l, word),
        free_of(r, word),
        clause_texts_separate(word),
    ensures
        free_of(filter_type_text(l, op, r), word),
{
    match op {
        FilterTypes::EqualBool => {
            lemma_wrapped_operand(l, " = "@, r, word);
        },
        FilterTypes::Equal => {
            lemma_wrapped_operand(l, " = '"@, r, word);
            lemma_free_before_opening(l + " = '"@ + r, "'"@, word);
        },
        FilterTypes::NotEqual => {
            lemma_wrapped_operand(l, " != '"@, r, word);
            lemma_free_before_opening(l + " != '"@ + r, "'"@, word);
        },
        FilterTypes::In => {
            lemma_wrapped_operand(l, " IN ("@, r, word);
            lemma_free_before_opening(l + " IN ("@ + r, ")"@, word);
        },
        FilterTypes::Gte => {
            lemma_wrapped_operand(l, " >= '"@, r, word);
            lemma_free_before_opening(l + " >= '"@ + r, "'"@, word);
        },
        FilterTypes::Gt => {
            lemma_wrapped_operand(l, " > "@, r, word);
        },
        FilterTypes::Lte => {
            lemma_wrapped_operand(l, " <= '"@, r, word);
            lemma_free_before_opening(l + " <= '"@ + r, "'"@, word);
        },
        FilterTypes::Like => {
            lemma_wrapped_operand(l, " LIKE '%"@, r, word);
            lemma_free_before_opening(l + " LIKE '%"@ + r, "%'"@, word);
        },
        FilterTypes::NotLike => {
            lemma_wrapped_operand(l, " NOT LIKE '%"@, r, word);
            lemma_free_before_opening(l + " NOT LIKE '%"@ + r, "%'"@, word);
        },
        FilterTypes::IsNotNull => {
            lemma_free_before_opening(l, " IS NOT NULL"@, word);
        },
    }
}

/// A filter tree whose operands are free of `word` renders free of it.
pub proof fn lemma_filter_is_free(filter: FilterView, word: Seq<char>)
    requires
        operands_free_of(filter, word),
        clause_texts_separate(word),
    ensures
        free_of(filter.text(), word),
    decreases filter,
{
    match filter {
        FilterView::Plain(l, op, r) => {
            lemma_comparison_is_free(l, op, r, word);
        },
        FilterView::NestedFilter(combinator, children) => {
            let parts = FilterView::texts_of(children);
            assert(all_free_of(parts, word)) by {
                assert forall|i: int| 0 <= i < parts.len() implies free_of(
                    #[trigger] parts[i],
                    word,
                ) by {
                    assert(operands_free_of(children[i], word));
                    lemma_filter_is_free(children[i], word);
                }
            }
            let sep = combinator_text(combinator);
            assert(separates(sep, word));
            lemma_join_is_free(parts, sep, word);
            lemma_free_after_closing("( "@, join(parts, sep), word);
            lemma_free_before_opening("( "@ + join(parts, sep), " )"@, word);
        },
    }
}

/// Every character of a numeral is a digit.
proof fn lemma_numeral_is_digits(n: nat, i: int)
    requires
        0 <= i < decimal(n).len(),
    ensures
        exists|d: nat| d < 10 && decimal(n)[i] == #[trigger] digit_char(d),
    decreases n,
{
    if n < 10 {
        assert(decimal(n)[i] == digit_char(n));
    } else {
        if i < decimal(n / 10).len() {
            lemma_numeral_is_digits(n / 10, i);
        } else {
            assert(decimal(n)[i] == digit_char(n % 10));
        }
    }
}

/// A numeral is free of a word that does not begin with a digit.
proof fn lemma_numeral_is_free(n: nat, word: Seq<char>)
    requires
        word.len() > 0,
        forall|d: nat| d < 10 ==> word[0] != #[trigger] digit_char(d),
    ensures
        free_of(decimal(n), word),
{
    assert forall|i: int| 0 <= i < decimal(n).len() implies decimal(n)[i] != word[0] by {
        lemma_numeral_is_digits(n, i);
    }
    lemma_lacking_a_character(decimal(n), word, 0);
}

/// What is free of `word` and empty or clear at its start stays so when
/// more of the kind is appended.
proof fn lemma_clause_after_clause(a: Seq<char>, b: Seq<char>, word: Seq<char>)
    requires
        free_of(a, word),
        a.len() == 0 || opens_clear(a, word),
        free_of(b, word),
        b.len() == 0 || opens_clear(b, word),
    ensures
        free_of(a + b, word),
        (a + b).len() == 0 || opens_clear(a + b, word),
{
    lemma_free_before_opening(a, b, word);
    if a.len() == 0 {
        assert(a + b =~= b);
    } else {
        lemma_ends_of_a_concatenation(a, b, word);
    }
}

/// A keyword before a list of fragments: free of `word` and clear at its
/// start, as the keyword is.
proof fn lemma_keyword_and_list(
    keyword: Seq<char>,
    parts: Seq<Seq<char>>,
    sep: Seq<char>,
    word: Seq<char>,
)
    requires
        separates(keyword, word),
        separates(sep, word),
        all_free_of(parts, word),
    ensures
        free_of(keyword + join(parts, sep), word),
        opens_clear(keyword + join(parts, sep), word),
{
    lemma_join_is_free(parts, sep, word);
    lemma_free_after_closing(keyword, join(parts, sep), word);
    lemma_ends_of_a_concatenation(keyword, join(parts, sep), word);
}

/// The clauses after the table are free of a word that their fragments are
/// free of, unless it is the keyword of one of them; and they begin with a
/// blank.
pub proof fn lemma_tail_is_free(query: QueryView, word: Seq<char>)
    requires
        fragments_free_of(query, word),
        clause_texts_separate(word),
        query.having is Some ==> separates(" HAVING "@, word),
    ensures
        free_of(query.tail_text(), word),
        query.tail_text().len() == 0 || opens_clear(query.tail_text(), word),
{
    let empty = Seq::<char>::empty();
    assert(free_of(empty, word)) by {
        lemma_join_is_free(Seq::<Seq<char>>::empty(), ", "@, word);
    }
    let w = query.where_text();
    assert(free_of(w, word) && (w.len() == 0 || opens_clear(w, word))) by {
        lemma_filter_is_free(query.filters, word);
        if query.filters.text().len() != 0 {
            lemma_free_after_closing(" WHERE "@, query.filters.text(), word);
            lemma_ends_of_a_concatenation(" WHERE "@, query.filters.text(), word);
        }
    }
    let g = query.group_by_text();
    assert(free_of(g, word) && (g.len() == 0 || opens_clear(g, word))) by {
        if query.group_by.len() != 0 {
            lemma_keyword_and_list(" GROUP BY "@, query.group_by, ", "@, word);
        }
    }
    let h = query.having_text();
    assert(free_of(h, word) && (h.len() == 0 || opens_clear(h, word))) by {
        match query.having {
            Some(entries) => {
                let parts = having_texts(entries);
                assert(all_free_of(parts, word)) by {
                    assert forall|i: int| 0 <= i < parts.len() implies free_of(
                        #[trigger] parts[i],
                        word,
                    ) by {
                        assert(free_of(entries[i].0, word) && free_of(entries[i].2, word));
                        lemma_comparison_is_free(entries[i].0, entries[i].1, entries[i].2, word);
                    }
                }
                lemma_keyword_and_list(" HAVING "@, parts, " AND "@, word);
            },
            None => {},
        }
    }
    let o = query.order_by_text();
    assert(free_of(o, word) && (o.len() == 0 || opens_clear(o, word))) by {
        if query.order_by.len() != 0 {
            lemma_keyword_and_list(" ORDER BY "@, query.order_by, ", "@, word);
        }
    }
    let l = query.limit_by_text();
    assert(free_of(l, word) && (l.len() == 0 || opens_clear(l, word))) by {
        match query.limit_by {
            Some(limit_by) => {
                let number = decimal(limit_by.limit as nat);
                lemma_numeral_is_free(limit_by.limit as nat, word);
                lemma_wrapped_operand(empty, "LIMIT "@, number, word);
                assert(empty + "LIMIT "@ =~= "LIMIT "@);
                lemma_join_is_free(limit_by.columns, ", "@, word);
                lemma_wrapped_operand(
                    "LIMIT "@ + number,
                    " BY "@,
                    join(limit_by.columns, ", "@),
                    word,
                );
                lemma_free_after_closing(" "@, limit_by.text(), word);
                lemma_ends_of_a_concatenation(" "@, limit_by.text(), word);
            },
            None => {},
        }
    }
    lemma_clause_after_clause(w, g, word);
    lemma_clause_after_clause(w + g, h, word);
    lemma_clause_after_clause(w + g + h, o, word);
    lemma_clause_after_clause(w + g + h + o, l, word);
}

/// The selected columns after `SELECT` and, if asked for, `DISTINCT`.
pub open spec fn selection_text(query: QueryView) -> Seq<char> {
    "SELECT "@ + (if query.distinct {
        "DISTINCT "@
    } else {
        Seq::empty()
    }) + join(query.columns, ", "@)
}

/// The selection is free of a word that the selected columns are free of
/// and that is no keyword of it.
proof fn lemma_selection_is_free(query: QueryView, word: Seq<char>)
    requires
        all_free_of(query.columns, word),
        clause_texts_separate(word),
    ensures
        free_of(selection_text(query), word),
{
    let start = "SELECT "@ + (if query.distinct {
        "DISTINCT "@
    } else {
        Seq::empty()
    });
    if query.distinct {
        lemma_free_before_opening("SELECT "@, "DISTINCT "@, word);
        lemma_ends_of_a_concatenation("SELECT "@, "DISTINCT "@, word);
    } else {
        assert(start =~= "SELECT "@);
    }
    lemma_join_is_free(query.columns, ", "@, word);
    lemma_free_after_closing(start, join(query.columns, ", "@), word);
}

/// `FROM` stands in ` FROM ` after the first blank, and nowhere else.
proof fn lemma_from_between_blanks(at: int)
    ensures
        occurs_at(" FROM "@, "FROM"@, at) <==> at == 1,
{
    reveal_strlit(" FROM ");
    reveal_strlit("FROM");
    if at == 1 {
        assert(" FROM "@.subrange(1, 5) =~= "FROM"@);
    }
    if occurs_at(" FROM "@, "FROM"@, at) {
        assert(" FROM "@.subrange(at, at + 4)[0] == " FROM "@[at]);
    }
}

/// In the query on the table, if no fragment and not the table's name holds
/// the word `FROM`, the word stands once: after the selected columns,
/// between two blanks, before the table. So the query has one FROM clause,
/// and it is that of the table.
pub proof fn lemma_from_stands_once(query: QueryView, table: Seq<char>)
    requires
        fragments_free_of(query, "FROM"@),
        free_of(table, "FROM"@),
    ensures
        forall|at: int| #[trigger]
            occurs_at(query.base_text(table), "FROM"@, at) <==> at == selection_text(query).len()
                + 1,
        forall|at: int| #[trigger]
            occurs_at(query.base_text(table), " FROM "@, at) <==> at == selection_text(
                query,
            ).len(),
        query.base_text(table) == selection_text(query) + " FROM "@ + table + query.tail_text(),
{
    let word = "FROM"@;
    let head = selection_text(query);
    let keyword = " FROM "@;
    let tail = query.tail_text();
    let base = query.base_text(table);
    lemma_clause_texts_separate_from();
    lemma_selection_is_free(query, word);
    lemma_tail_is_free(query, word);
    reveal_strlit(" FROM ");
    reveal_strlit("FROM");
    assert(opens_clear(keyword, word));
    assert(closes_clear(keyword, word));
    lemma_prepend_free(head, keyword, word);
    lemma_ends_of_a_concatenation(head, keyword, word);
    lemma_append_after_closing(head + keyword, table, word);
    lemma_append_opening(head + keyword + table, tail, word);
    assert forall|at: int| #[trigger] occurs_at(base, word, at) <==> at == head.len() + 1 by {
        lemma_from_between_blanks(at - head.len());
        assert(occurs_at(base, word, at) <==> occurs_at(head + keyword + table, word, at));
        assert(occurs_at(head + keyword + table, word, at) <==> occurs_at(
            head + keyword,
            word,
            at,
        ));
    }
    assert forall|at: int| #[trigger] occurs_at(base, keyword, at) <==> at == head.len() by {
        if occurs_at(base, keyword, at) {
            assert(base.subrange(at + 1, at + 5) =~= base.subrange(at, at + 6).subrange(1, 5));
            assert(keyword.subrange(1, 5) =~= word);
            assert(occurs_at(base, word, at + 1));
        }
        if at == head.len() {
            assert(base.subrange(at, at + 6) =~= keyword);
        }
    }
}

/// A query without conditions on the groups, on which the assembly sets
/// none, has no HAVING clause: if no fragment and not the table's name holds
/// the word `HAVING`, the query on the table is free of it.
pub proof fn lemma_no_having_without_conditions(query: QueryView, table: Seq<char>)
    requires
        query.having is None,
        fragments_free_of(query, "HAVING"@),
        free_of(table, "HAVING"@),
    ensures
        free_of(query.base_text(table), "HAVING"@),
        free_of(query.base_text(table), " HAVING "@),
{
    let word = "HAVING"@;
    let head = selection_text(query);
    let base = query.base_text(table);
    lemma_clause_texts_separate_having();
    lemma_selection_is_free(query, word);
    lemma_tail_is_free(query, word);
    lemma_wrapped_operand(head, " FROM "@, table, word);
    lemma_free_before_opening(head + " FROM "@ + table, query.tail_text(), word);
    reveal_strlit(" HAVING ");
    reveal_strlit("HAVING");
    assert forall|at: int| !occurs_at(base, " HAVING "@, at) by {
        if occurs_at(base, " HAVING "@, at) {
            assert(base.subrange(at + 1, at + 7) =~= base.subrange(at, at + 8).subrange(1, 7));
            assert(" HAVING "@.subrange(1, 7) =~= word);
            assert(occurs_at(base, word, at + 1));
        }
    }
}

/// The outer columns after `SELECT`.
pub open spec fn outer_selection_text(query: QueryView) -> Seq<char> {
    "SELECT "@ + join(query.outer_select, ", "@)
}

/// Where `FROM` stands in what the wrapping layers write.
proof fn lemma_from_in_the_layers(at: int)
    ensures
        occurs_at("SELECT * FROM ("@, "FROM"@, at) <==> at == 9,
        occurs_at(" FROM ("@, "FROM"@, at) <==> at == 1,
        closes_clear("SELECT * FROM ("@, "FROM"@),
        closes_clear(" FROM ("@, "FROM"@),
        opens_clear(" FROM ("@, "FROM"@),
        "SELECT * FROM ("@.len() == 15,
        " FROM ("@.len() == 7,
        separates(") _"@, "FROM"@),
        separates(") _ WHERE top_n <= "@, "FROM"@),
{
    reveal_strlit("FROM");
    reveal_strlit("SELECT * FROM (");
    reveal_strlit(" FROM (");
    reveal_strlit(") _");
    reveal_strlit(") _ WHERE top_n <= ");
    lemma_separates(") _"@, "FROM"@, 0);
    lemma_separates(") _ WHERE top_n <= "@, "FROM"@, 0);
    if at == 9 {
        assert("SELECT * FROM ("@.subrange(9, 13) =~= "FROM"@);
    }
    if at == 1 {
        assert(" FROM ("@.subrange(1, 5) =~= "FROM"@);
    }
    if occurs_at("SELECT * FROM ("@, "FROM"@, at) {
        assert("SELECT * FROM ("@.subrange(at, at + 4)[0] == "SELECT * FROM ("@[at]);
    }
    if occurs_at(" FROM ("@, "FROM"@, at) {
        assert(" FROM ("@.subrange(at, at + 4)[0] == " FROM ("@[at]);
    }
}

/// What the wrapping layers write separates `HAVING`.
proof fn lemma_layers_separate_having()
    ensures
        separates("SELECT * FROM ("@, "HAVING"@),
        separates(" FROM ("@, "HAVING"@),
        separates(") _"@, "HAVING"@),
        separates(") _ WHERE top_n <= "@, "HAVING"@),
{
    reveal_strlit("HAVING");
    reveal_strlit("SELECT * FROM (");
    reveal_strlit(" FROM (");
    reveal_strlit(") _");
    reveal_strlit(") _ WHERE top_n <= ");
    lemma_separates("SELECT * FROM ("@, "HAVING"@, 2);
    lemma_separates(" FROM ("@, "HAVING"@, 2);
    lemma_separates(") _"@, "HAVING"@, 2);
    lemma_separates(") _ WHERE top_n <= "@, "HAVING"@, 2);
}

/// What the wrapping layers write after the query on the table is free of a
/// word that their own texts separate, and empty or clear at its start.
proof fn lemma_suffix_is_free(query: QueryView, word: Seq<char>)
    requires
        clause_texts_separate(word),
        separates(") _"@, word),
        separates(") _ WHERE top_n <= "@, word),
    ensures
        free_of(wrapping_suffix(query), word),
        wrapping_suffix(query).len() == 0 || opens_clear(wrapping_suffix(query), word),
{
    let empty = Seq::<char>::empty();
    assert(free_of(empty, word)) by {
        lemma_join_is_free(Seq::<Seq<char>>::empty(), ", "@, word);
    }
    let first = if query.outer_select.len() == 0 {
        empty
    } else {
        ") _"@
    };
    let second = match query.top_n {
        Some(top_n) => ") _ WHERE top_n <= "@ + decimal(top_n.count as nat),
        None => empty,
    };
    match query.top_n {
        Some(top_n) => {
            lemma_numeral_is_free(top_n.count as nat, word);
            lemma_wrapped_operand(
                empty,
                ") _ WHERE top_n <= "@,
                decimal(top_n.count as nat),
                word,
            );
            assert(empty + ") _ WHERE top_n <= "@ =~= ") _ WHERE top_n <= "@);
            lemma_ends_of_a_concatenation(
                ") _ WHERE top_n <= "@,
                decimal(top_n.count as nat),
                word,
            );
        },
        None => {},
    }
    lemma_clause_after_clause(first, second, word);
}

/// In the whole text of a query, if no fragment and not the table's name
/// holds the word `FROM`, the word stands once for the table and once more
/// for each wrapping layer: at the start of the text for a top-N, after the
/// outer columns for an outer selection. It stands nowhere else.
pub proof fn lemma_from_stands_once_a_layer(query: QueryView, table: Seq<char>)
    requires
        fragments_free_of(query, "FROM"@),
        all_free_of(query.outer_select, "FROM"@),
        free_of(table, "FROM"@),
    ensures
        ({
            let top = if query.top_n is Some {
                15int
            } else {
                0int
            };
            let of_the_top_n = 9int;
            let of_the_outer_selection = top + outer_selection_text(query).len() + 1;
            let of_the_table = wrapping_prefix(query).len() + selection_text(query).len() + 1;
            &&& forall|at: int| #[trigger]
                occurs_at(query.text(table), "FROM"@, at) <==> {
                    ||| query.top_n is Some && at == of_the_top_n
                    ||| query.outer_select.len() > 0 && at == of_the_outer_selection
                    ||| at == of_the_table
                }
            &&& query.top_n is Some ==> of_the_top_n < of_the_outer_selection && of_the_top_n
                < of_the_table
            &&& query.outer_select.len() > 0 ==> of_the_outer_selection < of_the_table
        }),
{
    let word = "FROM"@;
    let empty = Seq::<char>::empty();
    let base = query.base_text(table);
    let suffix = wrapping_suffix(query);
    let top_layer = if query.top_n is Some {
        "SELECT * FROM ("@
    } else {
        empty
    };
    let outer_layer = if query.outer_select.len() == 0 {
        empty
    } else {
        outer_selection_text(query) + " FROM ("@
    };
    let prefix = top_layer + outer_layer;
    assert(prefix == wrapping_prefix(query));
    crate::builder::lemma_query_selects_from_the_table_once(query, table);
    lemma_clause_texts_separate_from();
    lemma_from_stands_once(query, table);
    lemma_from_in_the_layers(0);
    reveal_strlit("SELECT ");
    if query.outer_select.len() != 0 {
        lemma_keyword_and_list("SELECT "@, query.outer_select, ", "@, word);
        lemma_prepend_free(outer_selection_text(query), " FROM ("@, word);
        lemma_ends_of_a_concatenation(outer_selection_text(query), " FROM ("@, word);
    }
    lemma_places_in_a_concatenation(top_layer, outer_layer, word);
    if outer_layer.len() == 0 {
        assert(prefix =~= top_layer);
    } else {
        lemma_ends_of_a_concatenation(top_layer, outer_layer, word);
    }
    lemma_places_in_a_concatenation(prefix, base, word);
    lemma_suffix_is_free(query, word);
    lemma_append_opening(prefix + base, suffix, word);
    let top = top_layer.len() as int;
    let of_the_outer_selection = top + outer_selection_text(query).len() + 1;
    let of_the_table = prefix.len() + selection_text(query).len() + 1;
    assert forall|at: int| #[trigger]
        occurs_at(query.text(table), word, at) <==> {
            ||| query.top_n is Some && at == 9
            ||| query.outer_select.len() > 0 && at == of_the_outer_selection
            ||| at == of_the_table
        } by {
        lemma_from_in_the_layers(at);
        lemma_from_in_the_layers(at - top - outer_selection_text(query).len());
        assert(occurs_at(query.text(table), word, at) <==> occurs_at(prefix + base, word, at));
        assert(occurs_at(prefix + base, word, at) <==> occurs_at(prefix, word, at) || (at
            >= prefix.len() && occurs_at(base, word, at - prefix.len())));
        assert(occurs_at(prefix, word, at) <==> occurs_at(top_layer, word, at) || (at >= top
            && occurs_at(outer_layer, word, at - top)));
        if query.top_n is None {
            assert(!occurs_at(empty, word, at));
        }
        if query.outer_select.len() == 0 {
            assert(!occurs_at(empty, word, at - top));
        } else {
            assert(occurs_at(outer_layer, word, at - top) <==> at - top
                >= outer_selection_text(query).len() && occurs_at(
                " FROM ("@,
                word,
                at - top - outer_selection_text(query).len(),
            ));
        }
    }
}

/// A query without conditions on the groups has no HAVING clause in the
/// whole of its text, if no fragment and not the table's name holds the word
/// `HAVING`.
pub proof fn lemma_no_having_in_the_text(query: QueryView, table: Seq<char>)
    requires
        query.having is None,
        fragments_free_of(query, "HAVING"@),
        all_free_of(query.outer_select, "HAVING"@),
        free_of(table, "HAVING"@),
    ensures
        free_of(query.text(table), "HAVING"@),
        free_of(query.text(table), " HAVING "@),
{
    let word = "HAVING"@;
    let empty = Seq::<char>::empty();
    let base = query.base_text(table);
    let suffix = wrapping_suffix(query);
    let text = query.text(table);
    let top_layer = if query.top_n is Some {
        "SELECT * FROM ("@
    } else {
        empty
    };
    let outer_layer = if query.outer_select.len() == 0 {
        empty
    } else {
        outer_selection_text(query) + " FROM ("@
    };
    let prefix = top_layer + outer_layer;
    assert(prefix == wrapping_prefix(query));
    crate::builder::lemma_query_selects_from_the_table_once(query, table);
    lemma_clause_texts_separate_having();
    lemma_layers_separate_having();
    lemma_no_having_without_conditions(query, table);
    assert(free_of(empty, word)) by {
        lemma_join_is_free(Seq::<Seq<char>>::empty(), ", "@, word);
    }
    if query.outer_select.len() != 0 {
        lemma_keyword_and_list("SELECT "@, query.outer_select, ", "@, word);
        lemma_free_before_opening(outer_selection_text(query), " FROM ("@, word);
        lemma_ends_of_a_concatenation(outer_selection_text(query), " FROM ("@, word);
    }
    lemma_clause_after_clause(top_layer, outer_layer, word);
    if outer_layer.len() == 0 {
        assert(prefix =~= top_layer);
    } else {
        lemma_ends_of_a_concatenation(top_layer, outer_layer, word);
    }
    lemma_free_after_closing(prefix, base, word);
    lemma_suffix_is_free(query, word);
    lemma_free_before_opening(prefix + base, suffix, word);
    reveal_strlit(" HAVING ");
    reveal_strlit("HAVING");
    assert forall|at: int| !occurs_at(text, " HAVING "@, at) by {
        if occurs_at(text, " HAVING "@, at) {
            assert(text.subrange(at + 1, at + 7) =~= text.subrange(at, at + 8).subrange(1, 7));
            assert(" HAVING "@.subrange(1, 7) =~= word);
            assert(occurs_at(text, word, at + 1));
        }
    }
}

/// A query that has no condition on its groups and needs none on a sign (its
/// table is stored plainly, or its rows are not grouped) comes out of the
/// assembly without one, and its text has no HAVING clause, if no fragment
/// and not the table's name holds the word `HAVING`.
pub proof fn lemma_plain_assembly_has_no_having<T: AnalyticsDataSource>(query: QueryView) where
    AnalyticsCollection: ToSql<T>,
    Aggregate<&'static str>: ToSql<T>,

    requires
        assembly::<T>(query) is Query,
        query.having is None,
        query.table_engine is BasicTree || query.group_by.len() == 0,
        fragments_free_of(query, "HAVING"@),
        all_free_of(query.outer_select, "HAVING"@),
        <AnalyticsCollection as ToSql<T>>::sql(query.table, query.table_engine) matches Ok(table)
            && free_of(table, "HAVING"@),
    ensures
        assembly::<T>(query)->state == query,
        assembly::<T>(query)->state.having is None,
        free_of(assembly::<T>(query)->text, " HAVING "@),
{
    let table = <AnalyticsCollection as ToSql<T>>::sql(query.table, query.table_engine)->Ok_0;
    lemma_no_having_in_the_text(query, table);
}

} // verus!
