//! Key expressions: the `/`-separated names that everything in a session is addressed by.
//!
//! A key expression is a sequence of non-empty chunks. A chunk `*` stands for any one chunk, a chunk
//! `**` for any number of them, and `$*` inside a chunk for any characters. Of the expressions that
//! stand for the same keys only one, the canonical one, is a key expression here.
use vstd::prelude::*;

use crate::error::KeyexprError;
use crate::text::chars_of;

verus! {

/// A chunk starts at position `i`.
pub open spec fn chunk_starts(chars: Seq<char>, i: int) -> bool {
    i == 0 || chars[i - 1] == '/'
}

/// A chunk ends with position `i`.
pub open spec fn chunk_ends(chars: Seq<char>, i: int) -> bool {
    i + 1 == chars.len() || chars[i + 1] == '/'
}

/// Position `i` holds the character `c`.
pub open spec fn holds(chars: Seq<char>, i: int, c: char) -> bool {
    0 <= i < chars.len() && chars[i] == c
}

/// The separator at `i` has a chunk on either side.
pub open spec fn separator_ok(chars: Seq<char>, i: int) -> bool {
    !chunk_starts(chars, i) && i + 1 < chars.len()
}

/// The `$` at `i` opens a `$*` that is not a chunk by itself and that no other `$*` follows.
pub open spec fn dollar_ok(chars: Seq<char>, i: int) -> bool {
    &&& holds(chars, i + 1, '*')
    &&& !holds(chars, i + 2, '$')
    &&& !(chunk_starts(chars, i) && chunk_ends(chars, i + 1))
}

/// The `*` at `i` belongs to a `$*` or to a chunk `*` or `**`; a chunk `**` is not followed by
/// another such chunk.
pub open spec fn star_ok(chars: Seq<char>, i: int) -> bool {
    ||| holds(chars, i - 1, '$')
    ||| chunk_starts(chars, i) && chunk_ends(chars, i)
    ||| chunk_starts(chars, i) && holds(chars, i + 1, '*') && chunk_ends(chars, i + 1)
    ||| holds(chars, i - 1, '*') && chunk_starts(chars, i - 1) && chunk_ends(chars, i) && !holds(
        chars,
        i + 2,
        '*',
    )
}

/// Position `i` breaks no rule of key expressions.
pub open spec fn position_ok(chars: Seq<char>, i: int) -> bool {
    let c = chars[i];
    if c == '/' {
        separator_ok(chars, i)
    } else if c == '$' {
        dollar_ok(chars, i)
    } else if c == '*' {
        star_ok(chars, i)
    } else {
        c != '#' && c != '?'
    }
}

/// The text is a canonical key expression.
pub open spec fn is_keyexpr(chars: Seq<char>) -> bool {
    &&& chars.len() > 0
    &&& forall|i: int| 0 <= i < chars.len() ==> #[trigger] position_ok(chars, i)
}

/// The text is a key expression that stands for one key only.
pub open spec fn is_nonwild(chars: Seq<char>) -> bool {
    is_keyexpr(chars) && !chars.contains('*')
}

/// No chunk of a key expression is empty: it neither starts nor ends with a separator, and holds no
/// two in a row.
pub proof fn law_keyexprs_have_no_empty_chunk(chars: Seq<char>, i: int)
    requires
        is_keyexpr(chars),
    ensures
        chars[0] != '/',
        chars.last() != '/',
        0 <= i < chars.len() - 1 ==> !(chars[i] == '/' && chars[i + 1] == '/'),
{
    assert(position_ok(chars, 0));
    assert(position_ok(chars, chars.len() - 1));
    if 0 <= i < chars.len() - 1 {
        assert(position_ok(chars, i + 1));
    }
}

/// What one chunk may be: a wildcard `*` or `**`, or characters other than `#` and `?` in which every
/// `*` belongs to a `$*`, every `$` opens one, no `$*` follows another and which are more than a
/// `$*` alone.
pub proof fn law_one_chunk_is_a_keyexpr(chunk: Seq<char>)
    requires
        !chunk.contains('/'),
    ensures
        is_keyexpr(chunk) <==> {
            ||| chunk == seq!['*']
            ||| chunk == seq!['*', '*']
            ||| {
                &&& chunk.len() > 0
                &&& chunk != seq!['$', '*']
                &&& forall|i: int|
                    0 <= i < chunk.len() ==> {
                        let c = #[trigger] chunk[i];
                        &&& c != '#' && c != '?'
                        &&& c == '*' ==> i > 0 && chunk[i - 1] == '$'
                        &&& c == '$' ==> i + 1 < chunk.len() && chunk[i + 1] == '*'
                        &&& c == '$' && i + 2 < chunk.len() ==> chunk[i + 2] != '$'
                    }
            }
        },
{
    assert forall|i: int| 0 <= i < chunk.len() implies #[trigger] chunk[i] != '/' by {
        assert(chunk.contains(chunk[i]));
    }
    let plain = forall|i: int|
        0 <= i < chunk.len() ==> {
            let c = #[trigger] chunk[i];
            &&& c != '#' && c != '?'
            &&& c == '*' ==> i > 0 && chunk[i - 1] == '$'
            &&& c == '$' ==> i + 1 < chunk.len() && chunk[i + 1] == '*'
            &&& c == '$' && i + 2 < chunk.len() ==> chunk[i + 2] != '$'
        };
    if is_keyexpr(chunk) {
        assert(position_ok(chunk, 0));
        if chunk[0] == '*' {
            if chunk.len() == 1 {
                assert(chunk == seq!['*']);
            } else {
                assert(chunk == seq!['*', '*']);
            }
        } else {
            assert forall|i: int| 0 <= i < chunk.len() implies {
                let c = #[trigger] chunk[i];
                &&& c != '#' && c != '?'
                &&& c == '*' ==> i > 0 && chunk[i - 1] == '$'
                &&& c == '$' ==> i + 1 < chunk.len() && chunk[i + 1] == '*'
                &&& c == '$' && i + 2 < chunk.len() ==> chunk[i + 2] != '$'
            } by {
                assert(position_ok(chunk, i));
            }
            if chunk == seq!['$', '*'] {
                assert(chunk[0] == '$' && chunk[1] == '*');
            }
        }
    } else if chunk == seq!['*'] {
        assert forall|i: int| 0 <= i < chunk.len() implies #[trigger] position_ok(chunk, i) by {}
    } else if chunk == seq!['*', '*'] {
        assert forall|i: int| 0 <= i < chunk.len() implies #[trigger] position_ok(chunk, i) by {
            assert(chunk[0] == '*' && chunk[1] == '*');
        }
    } else if chunk.len() > 0 && chunk != seq!['$', '*'] && plain {
        assert forall|i: int| 0 <= i < chunk.len() implies #[trigger] position_ok(chunk, i) by {
            let c = chunk[i];
            if c == '$' && i == 0 && chunk.len() == 2 {
                assert(chunk =~= seq!['$', '*']);
            }
        }
    }
}

/// A text is a key expression if and only if what stands before a separator is one and what stands
/// after it is one. Only a chunk `**` in front of a chunk that starts with `*` is excepted: the two
/// would not be canonical. With the rule for one chunk this says of every text whether it is a key
/// expression.
pub proof fn law_keyexprs_are_made_of_chunks(before: Seq<char>, after: Seq<char>)
    ensures
        is_keyexpr(before + seq!['/'] + after) <==> {
            &&& is_keyexpr(before)
            &&& is_keyexpr(after)
            &&& !(after[0] == '*' && before.len() >= 2 && before[before.len() - 1] == '*'
                && before[before.len() - 2] == '*' && (before.len() == 2 || before[before.len() - 3]
                == '/'))
        },
{
    let whole = before + seq!['/'] + after;
    let cut = before.len() as int;
    assert(whole[cut] == '/');
    assert forall|i: int| 0 <= i < cut implies whole[i] == before[i] by {}
    assert forall|j: int| 0 <= j < after.len() implies whole[cut + 1 + j] == after[j] by {}
    let clash = after[0] == '*' && before.len() >= 2 && before[before.len() - 1] == '*'
        && before[before.len() - 2] == '*' && (before.len() == 2 || before[before.len() - 3]
        == '/');
    if is_keyexpr(whole) {
        assert(position_ok(whole, cut));
        assert(cut > 0 && after.len() > 0);
        assert forall|i: int| 0 <= i < cut implies #[trigger] position_ok(before, i) by {
            assert(position_ok(whole, i));
        }
        assert forall|j: int| 0 <= j < after.len() implies #[trigger] position_ok(after, j) by {
            assert(position_ok(whole, cut + 1 + j));
            assert(after[j] == whole[cut + 1 + j]);
        }
        if clash {
            assert(position_ok(whole, cut - 1));
            assert(whole[cut + 1] == '*');
        }
    }
    if is_keyexpr(before) && is_keyexpr(after) && !clash {
        assert forall|i: int| 0 <= i < whole.len() implies #[trigger] position_ok(whole, i) by {
            if i < cut {
                assert(position_ok(before, i));
            } else if i == cut {
                assert(position_ok(before, cut - 1));
                assert(position_ok(after, 0));
            } else {
                let j = i - cut - 1;
                assert(position_ok(after, j));
                assert(whole[i] == after[j]);
                assert(j > 0 ==> whole[i - 1] == after[j - 1]);
                assert(j > 1 ==> whole[i - 2] == after[j - 2]);
                assert(j + 1 < after.len() ==> whole[i + 1] == after[j + 1]);
                assert(j + 2 < after.len() ==> whole[i + 2] == after[j + 2]);
            }
        }
    }
}

/// A key expression stands for one key only if and only if it holds no `*`.
pub proof fn law_wildcards_are_stars(chars: Seq<char>)
    ensures
        !is_keyexpr(Seq::<char>::empty()),
        is_nonwild(chars) <==> is_keyexpr(chars) && forall|i: int|
            0 <= i < chars.len() ==> chars[i] != '*',
{
}

/// Two key expressions joined by a separator.
pub open spec fn joined(prefix: Seq<char>, suffix: Seq<char>) -> Seq<char> {
    prefix + seq!['/'] + suffix
}

/// A key expression after a wild-free one and a separator is a key expression.
pub proof fn lemma_joined_is_keyexpr(prefix: Seq<char>, suffix: Seq<char>)
    requires
        is_nonwild(prefix),
        is_keyexpr(suffix),
    ensures
        is_keyexpr(joined(prefix, suffix)),
{
    let whole = joined(prefix, suffix);
    let cut = prefix.len() as int;
    assert forall|i: int| 0 <= i < whole.len() implies #[trigger] position_ok(whole, i) by {
        if i < cut {
            assert(whole[i] == prefix[i]);
            assert(position_ok(prefix, i));
            assert(prefix[i] != '*');
            if i + 1 < cut {
                assert(prefix[i + 1] != '*');
            }
        } else if i == cut {
            assert(position_ok(prefix, cut - 1));
            assert(position_ok(suffix, 0));
            assert(whole[cut - 1] == prefix[cut - 1]);
        } else {
            let j = i - cut - 1;
            assert(whole[i] == suffix[j]);
            assert(position_ok(suffix, j));
            assert(j > 0 ==> whole[i - 1] == suffix[j - 1]);
            assert(j > 1 ==> whole[i - 2] == suffix[j - 2]);
            assert(j + 1 < suffix.len() ==> whole[i + 1] == suffix[j + 1]);
            assert(j + 2 < suffix.len() ==> whole[i + 2] == suffix[j + 2]);
            assert(j + 3 < suffix.len() ==> whole[i + 3] == suffix[j + 3]);
        }
    }
}

fn char_at(chars: &Vec<char>, i: usize, c: char) -> (there: bool)
    ensures
        there == holds(chars@, i as int, c),
{
    i < chars.len() && chars[i] == c
}

fn starts_chunk(chars: &Vec<char>, i: usize) -> (starts: bool)
    requires
        i < chars@.len(),
    ensures
        starts == chunk_starts(chars@, i as int),
{
    i == 0 || chars[i - 1] == '/'
}

fn ends_chunk(chars: &Vec<char>, i: usize) -> (ends: bool)
    requires
        i < chars@.len(),
    ensures
        ends == chunk_ends(chars@, i as int),
{
    i == chars.len() - 1 || chars[i + 1] == '/'
}

fn check_position(chars: &Vec<char>, i: usize) -> (ok: bool)
    requires
        i < chars@.len(),
    ensures
        ok == position_ok(chars@, i as int),
{
    let last: usize = chars.len() - 1;
    let c: char = chars[i];
    if c == '/' {
        !starts_chunk(chars, i) && i < last
    } else if c == '$' {
        i < last && chars[i + 1] == '*' && !(i + 1 < last && chars[i + 2] == '$') && !(
        starts_chunk(chars, i) && ends_chunk(chars, i + 1))
    } else if c == '*' {
        (i > 0 && chars[i - 1] == '$') || (starts_chunk(chars, i) && ends_chunk(chars, i)) || (
        starts_chunk(chars, i) && i < last && chars[i + 1] == '*' && ends_chunk(chars, i + 1)) || (i
            > 0 && chars[i - 1] == '*' && starts_chunk(chars, i - 1) && ends_chunk(chars, i) && !(i
            < last && char_at(chars, i + 2, '*')))
    } else {
        c != '#' && c != '?'
    }
}

fn check_keyexpr(chars: &Vec<char>) -> (ok: bool)
    ensures
        ok == is_keyexpr(chars@),
{
    if chars.len() == 0 {
        return false;
    }
    let mut i: usize = 0;
    while i < chars.len()
        invariant
            i <= chars@.len(),
            forall|j: int| 0 <= j < i ==> #[trigger] position_ok(chars@, j),
        decreases chars.len() - i,
    {
        if !check_position(chars, i) {
            return false;
        }
        i = i + 1;
    }
    true
}

/// A key expression.
#[derive(Clone, Copy, Debug, PartialEq, Eq)]
pub struct KeyExpr<'a> {
    text: &'a str,
}

impl<'a> View for KeyExpr<'a> {
    type V = Seq<char>;

    closed spec fn view(&self) -> Seq<char> {
        self.text@
    }
}

impl<'a> KeyExpr<'a> {
    #[verifier::type_invariant]
    spec fn wf(self) -> bool {
        is_keyexpr(self.text@)
    }

    /// The key expression with the text `text`, if that is one.
    pub fn new(text: &'a str) -> (ke: Result<KeyExpr<'a>, KeyexprError>)
        ensures
            ke is Ok <==> is_keyexpr(text@),
            ke matches Ok(ke) ==> ke@ == text@,
            ke matches Err(e) ==> e == KeyexprError::NotCanonical,
    {
        let chars: Vec<char> = chars_of(text);
        if check_keyexpr(&chars) {
            Ok(KeyExpr { text })
        } else {
            Err(KeyexprError::NotCanonical)
        }
    }

    /// The key expression with the text `text`, which is known to be one.
    pub fn from_str_unchecked(text: &'a str) -> (ke: KeyExpr<'a>)
        requires
            is_keyexpr(text@),
        ensures
            ke@ == text@,
    {
        KeyExpr { text }
    }

    pub fn as_str(&self) -> (text: &'a str)
        ensures
            text@ == self@,
            is_keyexpr(text@),
    {
        proof {
            use_type_invariant(self);
        }
        self.text
    }
}

/// A key expression without wildcards.
#[derive(Clone, Copy, Debug, PartialEq, Eq)]
pub struct NonWildKeyExpr<'a> {
    text: &'a str,
}

impl<'a> View for NonWildKeyExpr<'a> {
    type V = Seq<char>;

    closed spec fn view(&self) -> Seq<char> {
        self.text@
    }
}

impl<'a> NonWildKeyExpr<'a> {
    #[verifier::type_invariant]
    spec fn wf(self) -> bool {
        is_nonwild(self.text@)
    }

    /// `ke` itself, unless it holds a wildcard.
    pub fn new(ke: KeyExpr<'a>) -> (nonwild: Result<NonWildKeyExpr<'a>, KeyexprError>)
        ensures
            nonwild is Ok <==> is_nonwild(ke@),
            nonwild matches Ok(nonwild) ==> nonwild@ == ke@,
            nonwild matches Err(e) ==> e == KeyexprError::Wild,
    {
        proof {
            use_type_invariant(&ke);
        }
        let chars: Vec<char> = chars_of(ke.text);
        let mut i: usize = 0;
        while i < chars.len()
            invariant
                i <= chars@.len(),
                chars@ == ke@,
                forall|j: int| 0 <= j < i ==> chars@[j] != '*',
            decreases chars.len() - i,
        {
            if chars[i] == '*' {
                return Err(KeyexprError::Wild);
            }
            i = i + 1;
        }
        Ok(NonWildKeyExpr { text: ke.text })
    }

    pub fn as_str(&self) -> (text: &'a str)
        ensures
            text@ == self@,
            is_nonwild(text@),
    {
        proof {
            use_type_invariant(self);
        }
        self.text
    }
}

/// A text becomes a key expression as it is, or not at all, and a key expression with a wildcard is
/// no namespace.
pub proof fn law_texts_become_keyexprs_as_they_are<'a>()
    ensures
        forall|text: &'a str, ke: Result<KeyExpr<'a>, KeyexprError>| #[trigger]
            call_ensures(KeyExpr::<'a>::new, (text,), ke) ==> {
                &&& ke is Ok <==> is_keyexpr(text@)
                &&& ke matches Ok(ke) ==> ke@ == text@
                &&& ke matches Err(error) ==> error == KeyexprError::NotCanonical
            },
        forall|ke: KeyExpr<'a>, nonwild: Result<NonWildKeyExpr<'a>, KeyexprError>| #[trigger]
            call_ensures(NonWildKeyExpr::<'a>::new, (ke,), nonwild) && is_keyexpr(ke@) ==> {
                &&& nonwild is Ok <==> !ke@.contains('*')
                &&& nonwild matches Ok(nonwild) ==> nonwild@ == ke@
                &&& nonwild matches Err(error) ==> error == KeyexprError::Wild
            },
{
}

} // verus!
