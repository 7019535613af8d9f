//! Text helpers: editing a line of text, blank lines, and searching a text
//! without regard to case.
//!
//! The standard library classifies, lower-cases and edits characters. What
//! is taken from it on trust is stated here, once for each of its functions
//! that the library calls. The search for a text in a text is the library's
//! own and is proved.

use vstd::prelude::*;

verus! {

/// Whether a character is white space: whether it has the Unicode property
/// White_Space. These are the tab, the line and page breaks, the space and
/// the other spaces and separators of Unicode, twenty-five characters in all.
pub open spec fn whitespace(c: char) -> bool {
    let code = c as u32;
    ||| 0x0009 <= code <= 0x000D
    ||| code == 0x0020
    ||| code == 0x0085
    ||| code == 0x00A0
    ||| code == 0x1680
    ||| 0x2000 <= code <= 0x200A
    ||| code == 0x2028
    ||| code == 0x2029
    ||| code == 0x202F
    ||| code == 0x205F
    ||| code == 0x3000
}

/// The lower-case form of a text, as `str::to_lowercase` computes it from the
/// text alone.
pub uninterp spec fn lowercase(s: Seq<char>) -> Seq<char>;

/// A text is blank when it holds nothing but white space.
pub open spec fn blank(s: Seq<char>) -> bool {
    forall|i: int| 0 <= i < s.len() ==> whitespace(#[trigger] s[i])
}

/// Whether `needle` stands in `haystack` at position `at`.
pub open spec fn occurs_at(needle: Seq<char>, haystack: Seq<char>, at: int) -> bool {
    &&& 0 <= at
    &&& at + needle.len() <= haystack.len()
    &&& haystack.subrange(at, at + needle.len()) == needle
}

/// Whether `needle` occurs in `haystack` as a contiguous run of characters.
/// The empty text occurs in every text.
pub open spec fn occurs_in(needle: Seq<char>, haystack: Seq<char>) -> bool {
    exists|at: int| occurs_at(needle, haystack, at)
}

/// `char::is_whitespace`: whether the character has the Unicode property
/// White_Space, which `whitespace` spells out.
pub assume_specification[ char::is_whitespace ](c: char) -> (r: bool)
    ensures
        r == whitespace(c),
;

/// `str::to_lowercase`: the result depends on the text alone, and is given
/// the name `lowercase`.
pub assume_specification[ str::to_lowercase ](s: &str) -> (r: String)
    ensures
        r@ == lowercase(s@),
;

/// `String::push`: the character is appended at the end.
pub assume_specification[ String::push ](s: &mut String, c: char)
    ensures
        final(s)@ == old(s)@.push(c),
;

/// `String::pop`: the last character is removed and returned; an empty text
/// stays empty and yields `None`.
pub assume_specification[ String::pop ](s: &mut String) -> (r: Option<char>)
    ensures
        old(s)@.len() == 0 ==> r is None && final(s)@ == old(s)@,
        old(s)@.len() > 0 ==> r == Some(old(s)@.last()) && final(s)@ == old(s)@.drop_last(),
;

/// `String::clear`: nothing is left of the text.
pub assume_specification[ String::clear ](s: &mut String)
    ensures
        final(s)@ == Seq::<char>::empty(),
;

/// The characters of a text, in order.
fn chars_of(s: &str) -> (r: Vec<char>)
    ensures
        r@ == s@,
{
    let mut r: Vec<char> = Vec::new();
    for c in it: s.chars()
        invariant
            it.seq() == s@,
            r@ == s@.take(it.index()),
    {
        assert(s@.take(it.index() + 1) =~= s@.take(it.index()).push(c));
        r.push(c);
    }
    assert(s@.take(s@.len() as int) =~= s@);
    r
}

/// Whether `needle` occurs in `haystack` as a contiguous run of characters.
fn contains_chars(haystack: &Vec<char>, needle: &Vec<char>) -> (r: bool)
    ensures
        r == occurs_in(needle@, haystack@),
{
    let n = haystack.len();
    let m = needle.len();
    if m > n {
        return false;
    }
    let last: usize = n - m;
    let mut at: usize = 0;
    while at <= last
        invariant
            n == haystack.len(),
            m == needle.len(),
            last == n - m,
            at <= last + 1,
            forall|k: int| 0 <= k < at ==> !occurs_at(needle@, haystack@, k),
        decreases last + 1 - at,
    {
        let mut matched: usize = 0;
        while matched < m && haystack[at + matched] == needle[matched]
            invariant
                n == haystack.len(),
                m == needle.len(),
                at + m <= n,
                matched <= m,
                forall|t: int| 0 <= t < matched ==> haystack@[at + t] == needle@[t],
            decreases m - matched,
        {
            matched += 1;
        }
        if matched == m {
            assert(haystack@.subrange(at as int, at + m) =~= needle@);
            assert(occurs_at(needle@, haystack@, at as int));
            return true;
        }
        assert(!occurs_at(needle@, haystack@, at as int)) by {
            if haystack@.subrange(at as int, at + m) == needle@ {
                assert(haystack@.subrange(at as int, at + m)[matched as int]
                    == needle@[matched as int]);
            }
        }
        at += 1;
    }
    false
}

/// Whether `needle` occurs in `haystack` as a contiguous run of characters.
pub fn contains_text(haystack: &str, needle: &str) -> (r: bool)
    ensures
        r == occurs_in(needle@, haystack@),
{
    let haystack_chars = chars_of(haystack);
    let needle_chars = chars_of(needle);
    contains_chars(&haystack_chars, &needle_chars)
}

/// Whether `s` is empty or holds only white space.
pub fn is_blank(s: &str) -> (r: bool)
    ensures
        r == blank(s@),
{
    let mut all: bool = true;
    for c in it: s.chars()
        invariant
            it.seq() == s@,
            all == (forall|i: int| 0 <= i < it.index() ==> whitespace(#[trigger] s@[i])),
    {
        if !c.is_whitespace() {
            all = false;
        }
    }
    all
}

} // verus!
