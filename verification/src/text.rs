//! Texts as sequences of characters, and values of sequences.

use vstd::prelude::*;
use vstd::std_specs::iter::IteratorSpec;
use vstd::string::next_postcondition;

verus! {

/// The characters of a text, in order.
pub fn to_chars(text: &str) -> (chars: Vec<char>)
    ensures
        chars@ == text@,
{
    broadcast use {next_postcondition, vstd::string::axiom_spec_iter};

    let mut chars: Vec<char> = Vec::new();
    let mut rest = text.chars();
    loop
        invariant
            chars@ + rest.remaining() == text@,
            rest.decrease() is Some,
        decreases rest.decrease()->0,
    {
        let ghost before = rest.remaining();
        match rest.next() {
            Some(c) => {
                assert(chars@.push(c) + before.drop_first() =~= chars@ + before);
                chars.push(c);
            },
            None => {
                assert(chars@ + before =~= chars@);
                return chars;
            },
        }
    }
}

/// Whether two texts hold the same characters.
pub fn same_text(left: &str, right: &str) -> (same: bool)
    ensures
        same == (left@ == right@),
{
    broadcast use {next_postcondition, vstd::string::axiom_spec_iter};

    let mut a = left.chars();
    let mut b = right.chars();
    let ghost mut shared: Seq<char> = Seq::empty();
    proof {
        assert(shared + a.remaining() =~= left@);
        assert(shared + b.remaining() =~= right@);
    }
    loop
        invariant
            shared + a.remaining() == left@,
            shared + b.remaining() == right@,
            a.decrease() is Some,
        decreases a.decrease()->0,
    {
        let ghost rest_a = a.remaining();
        let ghost rest_b = b.remaining();
        match (a.next(), b.next()) {
            (Some(x), Some(y)) => {
                if x != y {
                    assert(left@[shared.len() as int] == x);
                    assert(right@[shared.len() as int] == y);
                    return false;
                }
                proof {
                    assert(shared.push(x) + rest_a.drop_first() =~= shared + rest_a);
                    assert(shared.push(y) + rest_b.drop_first() =~= shared + rest_b);
                    shared = shared.push(x);
                }
            },
            (None, None) => {
                assert(shared + rest_a =~= shared);
                assert(shared + rest_b =~= shared);
                return true;
            },
            _ => {
                assert(left@.len() != right@.len());
                return false;
            },
        }
    }
}

/// The mathematical values of a sequence of items, item by item.
pub open spec fn views<T: View>(items: Seq<T>) -> Seq<T::V> {
    items.map_values(|item: T| item@)
}

/// No items have no values.
pub proof fn lemma_views_empty<T: View>()
    ensures
        views(Seq::<T>::empty()) == Seq::<T::V>::empty(),
{
    assert(views(Seq::<T>::empty()) =~= Seq::<T::V>::empty());
}

/// Adding an item at the end adds its value at the end.
pub proof fn lemma_views_push<T: View>(items: Seq<T>, item: T)
    ensures
        views(items.push(item)) == views(items).push(item@),
{
    assert(views(items.push(item)) =~= views(items).push(item@));
}

/// The mathematical value of an item that may be absent.
pub open spec fn option_view<T: View>(item: Option<T>) -> Option<T::V> {
    match item {
        Some(inner) => Some(inner@),
        None => None,
    }
}

/// Where `c` first occurs in `s`, or the length of `s` where it does not.
pub open spec fn first_index(s: Seq<char>, c: char) -> int
    decreases s.len(),
{
    if s.len() == 0 || s[0] == c {
        0
    } else {
        1 + first_index(s.skip(1), c)
    }
}

/// The pieces of `s` between occurrences of `separator`, empty pieces
/// included: one piece more than there are separators.
pub open spec fn split_spec(s: Seq<char>, separator: char) -> Seq<Seq<char>>
    decreases s.len(),
{
    let i = first_index(s, separator);
    if 0 <= i < s.len() {
        seq![s.take(i)] + split_spec(s.skip(i + 1), separator)
    } else {
        seq![s]
    }
}

/// The first occurrence is at `k` when `c` stands there and nowhere before;
/// with `k` the length of `s`, `c` does not occur.
pub proof fn lemma_first_index(s: Seq<char>, c: char, k: int)
    requires
        0 <= k <= s.len(),
        forall|j: int| 0 <= j < k ==> s[j] != c,
        k < s.len() ==> s[k] == c,
    ensures
        first_index(s, c) == k,
    decreases k,
{
    if k > 0 {
        let rest = s.skip(1);
        assert forall|j: int| 0 <= j < k - 1 implies rest[j] != c by {
            assert(rest[j] == s[j + 1]);
        }
        lemma_first_index(rest, c, k - 1);
    }
}

/// Splits `text` at every `separator`, keeping empty pieces.
pub fn split(text: &str, separator: char) -> (pieces: Vec<String>)
    ensures
        views(pieces@) == split_spec(text@, separator),
{
    let chars = to_chars(text);
    let mut pieces: Vec<String> = Vec::new();
    let mut start: usize = 0;
    let mut i: usize = 0;
    proof {
        assert(views(pieces@) =~= Seq::<Seq<char>>::empty());
        assert(text@.skip(0) =~= text@);
    }
    while i < chars.len()
        invariant
            chars@ == text@,
            start <= i <= chars.len(),
            forall|j: int| start <= j < i ==> chars@[j] != separator,
            views(pieces@) + split_spec(text@.skip(start as int), separator) == split_spec(
                text@,
                separator,
            ),
        decreases chars.len() - i,
    {
        if chars[i] == separator {
            let piece = String::from_str(text.substring_char(start, i));
            proof {
                let rest = text@.skip(start as int);
                assert forall|j: int| 0 <= j < i - start implies rest[j] != separator by {
                    assert(rest[j] == chars@[start + j]);
                }
                lemma_first_index(rest, separator, i - start);
                assert(rest.take(i - start) =~= text@.subrange(start as int, i as int));
                assert(rest.skip(i - start + 1) =~= text@.skip(i + 1));
                assert(views(pieces@.push(piece)) =~= views(pieces@).push(piece@));
                assert(views(pieces@).push(piece@) + split_spec(text@.skip(i + 1), separator)
                    =~= views(pieces@) + split_spec(rest, separator));
            }
            pieces.push(piece);
            start = i + 1;
        }
        i += 1;
    }
    let piece = String::from_str(text.substring_char(start, i));
    proof {
        let rest = text@.skip(start as int);
        assert forall|j: int| 0 <= j < rest.len() implies rest[j] != separator by {
            assert(rest[j] == chars@[start + j]);
        }
        lemma_first_index(rest, separator, rest.len() as int);
        assert(rest =~= text@.subrange(start as int, i as int));
        assert(views(pieces@.push(piece)) =~= views(pieces@).push(piece@));
        assert(views(pieces@).push(piece@) =~= views(pieces@) + seq![rest]);
    }
    pieces.push(piece);
    pieces
}

} // verus!
