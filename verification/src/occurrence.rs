//! Where a word stands in a text, and what joining texts does to that.

use vstd::prelude::*;

use crate::text::join;

verus! {

/// `word` stands in `text` from position `at` on.
pub open spec fn occurs_at(text: Seq<char>, word: Seq<char>, at: int) -> bool {
    &&& 0 <= at
    &&& at + word.len() <= text.len()
    &&& text.subrange(at, at + word.len()) == word
}

/// `word` stands nowhere in `text`.
pub open spec fn free_of(text: Seq<char>, word: Seq<char>) -> bool {
    forall|at: int| !occurs_at(text, word, at)
}

/// Every one of the texts is free of `word`.
pub open spec fn all_free_of(texts: Seq<Seq<char>>, word: Seq<char>) -> bool {
    forall|i: int| 0 <= i < texts.len() ==> free_of(#[trigger] texts[i], word)
}

/// `text` begins with a character that cannot carry on `word`: none of the
/// characters of `word` after its first.
pub open spec fn opens_clear(text: Seq<char>, word: Seq<char>) -> bool {
    text.len() > 0 && forall|k: int| 1 <= k < word.len() ==> text[0] != #[trigger] word[k]
}

/// `text` ends with a character that cannot begin `word`: none of the
/// characters of `word` before its last.
pub open spec fn closes_clear(text: Seq<char>, word: Seq<char>) -> bool {
    text.len() > 0 && forall|k: int| 0 <= k < word.len() - 1 ==> text.last() != #[trigger] word[k]
}

/// A text that can stand between any two others without making `word`: it
/// is free of the word and clear at both ends.
pub open spec fn separates(text: Seq<char>, word: Seq<char>) -> bool {
    free_of(text, word) && opens_clear(text, word) && closes_clear(text, word)
}

/// A text that lacks one character of `word` is free of `word`.
pub proof fn lemma_lacking_a_character(text: Seq<char>, word: Seq<char>, k: int)
    requires
        0 <= k < word.len(),
        forall|i: int| 0 <= i < text.len() ==> text[i] != word[k],
    ensures
        free_of(text, word),
{
    assert forall|at: int| !occurs_at(text, word, at) by {
        if occurs_at(text, word, at) {
            assert(text.subrange(at, at + word.len())[k] == text[at + k]);
        }
    }
}

/// Where two texts meet clear of `word` (one of them is empty, or the
/// first ends clear, or the second begins clear), `word` stands in the
/// whole where it stands in the first, and where it stands in the second,
/// moved by the length of the first: nowhere across the seam.
pub proof fn lemma_places_in_a_concatenation(a: Seq<char>, b: Seq<char>, word: Seq<char>)
    requires
        a.len() == 0 || b.len() == 0 || closes_clear(a, word) || opens_clear(b, word),
    ensures
        forall|at: int| #[trigger]
            occurs_at(a + b, word, at) <==> occurs_at(a, word, at) || (at >= a.len() && occurs_at(
                b,
                word,
                at - a.len(),
            )),
{
    let n = word.len() as int;
    assert forall|at: int| #[trigger]
        occurs_at(a + b, word, at) <==> occurs_at(a, word, at) || (at >= a.len() && occurs_at(
            b,
            word,
            at - a.len(),
        )) by {
        if occurs_at(a, word, at) {
            assert((a + b).subrange(at, at + n) =~= a.subrange(at, at + n));
        }
        if at >= a.len() && occurs_at(b, word, at - a.len()) {
            assert((a + b).subrange(at, at + n) =~= b.subrange(at - a.len(), at - a.len() + n));
        }
        if occurs_at(a + b, word, at) {
            if at + n <= a.len() {
                assert((a + b).subrange(at, at + n) =~= a.subrange(at, at + n));
            } else if at >= a.len() {
                assert((a + b).subrange(at, at + n) =~= b.subrange(at - a.len(), at - a.len() + n));
            } else {
                let k = a.len() - at;
                assert((a + b).subrange(at, at + n)[k] == (a + b)[at + k]);
                assert((a + b).subrange(at, at + n)[k - 1] == (a + b)[at + k - 1]);
                assert((a + b)[a.len() as int] == b[0]);
                assert((a + b)[a.len() - 1] == a.last());
                assert(b[0] == word[k]);
                assert(a.last() == word[k - 1]);
            }
        }
    }
}

/// Appending a text that is free of `word` and clear at its start adds no
/// place where `word` stands, and takes none away.
pub proof fn lemma_append_opening(a: Seq<char>, b: Seq<char>, word: Seq<char>)
    requires
        free_of(b, word),
        b.len() == 0 || opens_clear(b, word),
    ensures
        forall|at: int| #[trigger] occurs_at(a + b, word, at) <==> occurs_at(a, word, at),
{
    lemma_places_in_a_concatenation(a, b, word);
}

/// Appending a text that is free of `word` to one that is clear at its end
/// adds no place where `word` stands, and takes none away.
pub proof fn lemma_append_after_closing(a: Seq<char>, b: Seq<char>, word: Seq<char>)
    requires
        free_of(b, word),
        a.len() == 0 || closes_clear(a, word),
    ensures
        forall|at: int| #[trigger] occurs_at(a + b, word, at) <==> occurs_at(a, word, at),
{
    lemma_places_in_a_concatenation(a, b, word);
}

/// Before a text that is clear at its start, a text that is free of `word`
/// only moves the places where `word` stands, by its own length.
pub proof fn lemma_prepend_free(a: Seq<char>, b: Seq<char>, word: Seq<char>)
    requires
        free_of(a, word),
        b.len() == 0 || opens_clear(b, word),
    ensures
        forall|at: int| #[trigger]
            occurs_at(a + b, word, at) <==> at >= a.len() && occurs_at(b, word, at - a.len()),
{
    lemma_places_in_a_concatenation(a, b, word);
}

/// Two texts free of `word` stay free of it when joined, if the second is
/// empty or clear at its start.
pub proof fn lemma_free_before_opening(a: Seq<char>, b: Seq<char>, word: Seq<char>)
    requires
        free_of(a, word),
        free_of(b, word),
        b.len() == 0 || opens_clear(b, word),
    ensures
        free_of(a + b, word),
{
    lemma_append_opening(a, b, word);
}

/// Two texts free of `word` stay free of it when joined, if the first is
/// empty or clear at its end.
pub proof fn lemma_free_after_closing(a: Seq<char>, b: Seq<char>, word: Seq<char>)
    requires
        free_of(a, word),
        free_of(b, word),
        a.len() == 0 || closes_clear(a, word),
    ensures
        free_of(a + b, word),
{
    lemma_append_after_closing(a, b, word);
}

/// A text begins as its first part does, and ends as its last part does.
pub proof fn lemma_ends_of_a_concatenation(a: Seq<char>, b: Seq<char>, word: Seq<char>)
    ensures
        opens_clear(a, word) ==> opens_clear(a + b, word),
        closes_clear(b, word) ==> closes_clear(a + b, word),
{
    if opens_clear(a, word) {
        assert((a + b)[0] == a[0]);
    }
    if closes_clear(b, word) {
        assert((a + b).last() == b.last());
    }
}

/// Texts free of `word`, joined by a separator of `word`, are free of it.
pub proof fn lemma_join_is_free(parts: Seq<Seq<char>>, sep: Seq<char>, word: Seq<char>)
    requires
        all_free_of(parts, word),
        separates(sep, word),
    ensures
        free_of(join(parts, sep), word),
    decreases parts.len(),
{
    if parts.len() == 0 {
        assert forall|at: int| !occurs_at(Seq::<char>::empty(), word, at) by {
            if occurs_at(Seq::<char>::empty(), word, at) {
                assert(word.len() == 0);
                assert(sep.subrange(0, 0) =~= word);
                assert(occurs_at(sep, word, 0));
            }
        }
    } else if parts.len() == 1 {
        assert(free_of(parts[0], word));
    } else {
        let before = parts.drop_last();
        assert(all_free_of(before, word)) by {
            assert forall|i: int| 0 <= i < before.len() implies free_of(
                #[trigger] before[i],
                word,
            ) by {
                assert(before[i] == parts[i]);
            }
        }
        lemma_join_is_free(before, sep, word);
        lemma_free_before_opening(join(before, sep), sep, word);
        lemma_ends_of_a_concatenation(join(before, sep), sep, word);
        assert(free_of(parts.last(), word)) by {
            assert(parts.last() == parts[parts.len() - 1]);
        }
        lemma_free_after_closing(join(before, sep) + sep, parts.last(), word);
    }
}

} // verus!
