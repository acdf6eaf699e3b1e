//! Text: lexical order and equality, copies, and cutting and trimming.

use vstd::prelude::*;
use vstd::std_specs::iter::IteratorSpec;
use vstd::string::StrSliceExecFns;

verus! {

/// `a` comes strictly before `b` in lexical order: at the first place where
/// they differ `a` has the smaller character, or `a` is a proper prefix of `b`.
pub open spec fn text_lt(a: Seq<char>, b: Seq<char>) -> bool
    decreases a.len(),
{
    if b.len() == 0 {
        false
    } else if a.len() == 0 {
        true
    } else if a[0] != b[0] {
        a[0] < b[0]
    } else {
        text_lt(a.drop_first(), b.drop_first())
    }
}

/// No text comes before itself.
pub proof fn lemma_text_lt_irreflexive(a: Seq<char>)
    ensures
        !text_lt(a, a),
    decreases a.len(),
{
    if a.len() > 0 {
        lemma_text_lt_irreflexive(a.drop_first());
    }
}

/// Of two texts at most one comes before the other.
pub proof fn lemma_text_lt_asymmetric(a: Seq<char>, b: Seq<char>)
    ensures
        !(text_lt(a, b) && text_lt(b, a)),
    decreases a.len(),
{
    if a.len() > 0 && b.len() > 0 && a[0] == b[0] {
        lemma_text_lt_asymmetric(a.drop_first(), b.drop_first());
    }
}

/// Lexical order is transitive.
pub proof fn lemma_text_lt_transitive(a: Seq<char>, b: Seq<char>, c: Seq<char>)
    requires
        text_lt(a, b),
        text_lt(b, c),
    ensures
        text_lt(a, c),
    decreases a.len(),
{
    if a.len() > 0 && b.len() > 0 && c.len() > 0 && a[0] == b[0] && b[0] == c[0] {
        lemma_text_lt_transitive(a.drop_first(), b.drop_first(), c.drop_first());
    }
}

/// Two different texts are ordered one way or the other.
pub proof fn lemma_text_lt_total(a: Seq<char>, b: Seq<char>)
    ensures
        a == b || text_lt(a, b) || text_lt(b, a),
    decreases a.len(),
{
    if a.len() == 0 || b.len() == 0 {
        if a.len() == 0 && b.len() == 0 {
            assert(a =~= b);
        }
    } else if a[0] == b[0] {
        lemma_text_lt_total(a.drop_first(), b.drop_first());
        if a.drop_first() == b.drop_first() {
            assert(a =~= seq![a[0]] + a.drop_first());
            assert(b =~= seq![b[0]] + b.drop_first());
        }
    }
}

/// Copies an optional text.
pub fn clone_text(text: &Option<String>) -> (copy: Option<String>)
    ensures
        copy.deep_view() == text.deep_view(),
{
    match text {
        Some(s) => Some(s.clone()),
        None => None,
    }
}

/// Borrows an optional text.
pub fn borrow_text(text: &Option<String>) -> (borrowed: Option<&str>)
    ensures
        borrowed.deep_view() == text.deep_view(),
{
    match text {
        Some(s) => Some(s.as_str()),
        None => None,
    }
}

/// Whether two strings hold the same characters.
pub fn text_equal(a: &str, b: &str) -> (same: bool)
    ensures
        same == (a@ == b@),
{
    broadcast use vstd::string::group_string_axioms;

    let mut left = a.chars();
    let mut right = b.chars();
    loop
        invariant
            left.obeys_prophetic_iter_laws(),
            right.obeys_prophetic_iter_laws(),
            left.decrease() is Some,
            (a@ == b@) == (left.remaining() == right.remaining()),
        decreases left.decrease()->0,
    {
        let ghost rest_left = left.remaining();
        let ghost rest_right = right.remaining();
        let next_left = left.next();
        let next_right = right.next();
        match (next_left, next_right) {
            (None, None) => {
                assert(rest_left =~= rest_right);
                return true;
            },
            (Some(ca), Some(cb)) => {
                if ca != cb {
                    return false;
                }
                assert(rest_left =~= seq![ca] + rest_left.drop_first());
                assert(rest_right =~= seq![cb] + rest_right.drop_first());
            },
            _ => {
                return false;
            },
        }
    }
}

/// Decides lexical order on two strings in one pass over their characters.
pub fn text_before(a: &str, b: &str) -> (before: bool)
    ensures
        before == text_lt(a@, b@),
{
    broadcast use vstd::string::group_string_axioms;

    let mut left = a.chars();
    let mut right = b.chars();
    loop
        invariant
            left.obeys_prophetic_iter_laws(),
            right.obeys_prophetic_iter_laws(),
            left.decrease() is Some,
            text_lt(a@, b@) == text_lt(left.remaining(), right.remaining()),
        decreases left.decrease()->0,
    {
        let next_right = right.next();
        let next_left = left.next();
        match next_right {
            None => {
                return false;
            },
            Some(cb) => {
                match next_left {
                    None => {
                        return true;
                    },
                    Some(ca) => {
                        if ca != cb {
                            return ca < cb;
                        }
                    },
                }
            },
        }
    }
}

/// A text without the white space at its two ends.
pub uninterp spec fn trimmed(text: Seq<char>) -> Seq<char>;

/// A text with every character in lower case.
pub uninterp spec fn lowercased(text: Seq<char>) -> Seq<char>;

/// Takes the white space off the two ends of a text.
///
/// Trusted: calls `str::trim`, which returns the text without the characters
/// at its start and its end that Unicode classes as white space. The result
/// depends on the text alone.
#[verifier::external_body]
pub(crate) fn trim_text(text: &str) -> (out: String)
    ensures
        out@ == trimmed(text@),
{
    text.trim().to_string()
}

/// Puts a text in lower case.
///
/// Trusted: calls `str::to_lowercase`, which maps each character as Unicode
/// prescribes. The result depends on the text alone.
#[verifier::external_body]
pub(crate) fn lowercase_text(text: &str) -> (out: String)
    ensures
        out@ == lowercased(text@),
{
    text.to_lowercase()
}

/// The pieces that the separator cuts a text into, in order: the text up to
/// its first occurrence, between each two, and after the last. A text with
/// `n` occurrences has `n + 1` pieces, some of which may be empty.
pub open spec fn split_on(s: Seq<char>, sep: char) -> Seq<Seq<char>>
    decreases s.len(),
{
    if s.len() == 0 {
        seq![Seq::<char>::empty()]
    } else {
        let before = split_on(s.drop_last(), sep);
        if s.last() == sep {
            before.push(Seq::<char>::empty())
        } else {
            before.drop_last().push(before.last().push(s.last()))
        }
    }
}

/// The pieces that the separator cuts a text into, each without the white
/// space at its ends.
pub open spec fn trimmed_pieces(s: Seq<char>, sep: char) -> Seq<Seq<char>> {
    Seq::new(split_on(s, sep).len(), |i: int| trimmed(split_on(s, sep)[i]))
}

/// Cuts a text at each occurrence of the separator and takes the white space
/// off the ends of each piece.
pub fn split_and_trim(text: &str, sep: char) -> (pieces: Vec<String>)
    ensures
        pieces.deep_view() == trimmed_pieces(text@, sep),
{
    broadcast use vstd::string::group_string_axioms;

    let n = text.unicode_len();
    let mut pieces: Vec<String> = Vec::new();
    let mut chars = text.chars();
    let mut from: usize = 0;
    let mut i: usize = 0;
    proof {
        assert(text@.take(0) =~= Seq::<char>::empty());
        assert(text@.skip(0) =~= text@);
        assert(text@.subrange(0, 0) =~= Seq::<char>::empty());
        assert(split_on(text@.take(0), sep) =~= Seq::<Seq<char>>::empty().push(text@.subrange(0, 0)));
    }
    let ghost mut done: Seq<Seq<char>> = Seq::empty();
    assert(pieces.deep_view() =~= Seq::new(done.len(), |k: int| trimmed(done[k])));
    loop
        invariant
            chars.obeys_prophetic_iter_laws(),
            chars.decrease() is Some,
            n == text@.len(),
            from <= i <= n,
            chars.remaining() == text@.skip(i as int),
            split_on(text@.take(i as int), sep) == done.push(text@.subrange(from as int, i as int)),
            pieces.deep_view() == Seq::new(done.len(), |k: int| trimmed(done[k])),
        decreases chars.decrease()->0,
    {
        match chars.next() {
            Some(c) => {
                proof {
                    assert(text@.skip(i as int)[0] == text@[i as int]);
                    assert(text@.skip(i as int).drop_first() =~= text@.skip(i + 1));
                    assert(text@.take(i + 1).drop_last() =~= text@.take(i as int));
                    assert(text@.take(i + 1).last() == c);
                }
                if c == sep {
                    let piece = trim_text(text.substring_char(from, i));
                    let ghost before = pieces.deep_view();
                    let ghost raw = text@.subrange(from as int, i as int);
                    pieces.push(piece);
                    proof {
                        assert(pieces.deep_view() =~= before.push(trimmed(raw)));
                        done = done.push(raw);
                        assert(pieces.deep_view() =~= Seq::new(done.len(), |k: int| trimmed(done[k])));
                        assert(text@.subrange(i + 1, i + 1) =~= Seq::<char>::empty());
                    }
                    from = i + 1;
                } else {
                    proof {
                        let piece = text@.subrange(from as int, i as int);
                        assert(done.push(piece).drop_last() =~= done);
                        assert(piece.push(c) =~= text@.subrange(from as int, i + 1));
                    }
                }
                i += 1;
            },
            None => {
                proof {
                    assert(text@.skip(i as int).len() == 0);
                    assert(text@.take(i as int) =~= text@);
                }
                let piece = trim_text(text.substring_char(from, i));
                let ghost before = pieces.deep_view();
                let ghost raw = text@.subrange(from as int, i as int);
                pieces.push(piece);
                proof {
                    assert(pieces.deep_view() =~= before.push(trimmed(raw)));
                    assert(pieces.deep_view() =~= trimmed_pieces(text@, sep));
                }
                return pieces;
            },
        }
    }
}

} // verus!
