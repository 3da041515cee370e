use vstd::prelude::*;
use vstd::string::StrSliceExecFns;

verus! {

/// Number of bytes that `chars` take in UTF-8.
pub open spec fn utf8_len(chars: Seq<char>) -> nat {
    vstd::utf8::encode_utf8(chars).len()
}

pub proof fn lemma_utf8_len_concat(a: Seq<char>, b: Seq<char>)
    ensures
        utf8_len(a + b) == utf8_len(a) + utf8_len(b),
    decreases a.len(),
{
    if a.len() == 0 {
        assert(a + b == b);
    } else {
        lemma_utf8_len_concat(a.drop_first(), b);
        assert((a + b).drop_first() == a.drop_first() + b);
    }
}

pub proof fn lemma_utf8_len_ascii(chars: Seq<char>)
    requires
        vstd::utf8::is_ascii_chars(chars),
    ensures
        utf8_len(chars) == chars.len(),
{
    vstd::utf8::is_ascii_chars_encode_utf8(chars);
}

/// The characters of `text`, in order.
pub(crate) fn chars_of(text: &str) -> (chars: Vec<char>)
    ensures
        chars@ == text@,
{
    let mut chars: Vec<char> = Vec::new();
    for c in it: text.chars()
        invariant
            it.seq() == text@,
            chars@ == text@.take(it.index() as int),
    {
        assert(text@.take(it.index() as int + 1) == chars@.push(c));
        chars.push(c);
    }
    assert(text@.take(text@.len() as int) == text@);
    chars
}

/// Whether two texts hold the same characters.
pub(crate) fn same_text(a: &str, b: &str) -> (same: bool)
    ensures
        same <==> a@ == b@,
{
    let left: Vec<char> = chars_of(a);
    let right: Vec<char> = chars_of(b);
    if left.len() != right.len() {
        return false;
    }
    let mut at: usize = 0;
    while at < left.len()
        invariant
            at <= left@.len() == right@.len(),
            left@ == a@,
            right@ == b@,
            forall|i: int| 0 <= i < at ==> left@[i] == right@[i],
        decreases left.len() - at,
    {
        if left[at] != right[at] {
            return false;
        }
        at = at + 1;
    }
    assert(left@ == right@);
    true
}

/// What follows `prefix` in `text`, if `text` starts with it.
pub(crate) fn strip_prefix<'a>(text: &'a str, prefix: &str) -> (tail: Option<&'a str>)
    ensures
        tail is Some <==> prefix@.is_prefix_of(text@),
        tail matches Some(tail) ==> tail@ == text@.skip(prefix@.len() as int),
{
    let whole: Vec<char> = chars_of(text);
    let start: Vec<char> = chars_of(prefix);
    if start.len() > whole.len() {
        return None;
    }
    let mut at: usize = 0;
    while at < start.len()
        invariant
            at <= start@.len() <= whole@.len(),
            whole@ == text@,
            start@ == prefix@,
            forall|i: int| 0 <= i < at ==> start@[i] == whole@[i],
        decreases start.len() - at,
    {
        if start[at] != whole[at] {
            assert(start@[at as int] != whole@.take(start@.len() as int)[at as int]);
            return None;
        }
        at = at + 1;
    }
    assert(start@ == whole@.take(start@.len() as int));
    Some(text.substring_char(start.len(), whole.len()))
}

} // verus!
