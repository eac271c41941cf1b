//! White space and letter case in attribute values, and the comparison of
//! names.

use vstd::prelude::*;
use vstd::string::*;
use vstd::utf8::*;

verus! {

/// Whether a character is white space between tokens: space, tab, line feed,
/// carriage return or form feed.
pub open spec fn is_space(c: char) -> bool {
    c == ' ' || c == '\t' || c == '\n' || c == '\r' || c == '\x0c'
}

/// The code of a character, with the capital letters A to Z folded onto the
/// small ones.
pub open spec fn fold_case(c: char) -> int {
    if 'A' <= c <= 'Z' {
        c as int + 32
    } else {
        c as int
    }
}

/// Whether two texts are equal up to the case of the letters A to Z.
pub open spec fn same_ignoring_case(a: Seq<char>, b: Seq<char>) -> bool {
    &&& a.len() == b.len()
    &&& forall|i: int| 0 <= i < a.len() ==> fold_case(#[trigger] a[i]) == fold_case(b[i])
}

/// The number of white-space characters that a text begins with.
pub open spec fn leading_spaces(s: Seq<char>) -> nat
    decreases s.len(),
{
    if s.len() > 0 && is_space(s[0]) {
        1 + leading_spaces(s.drop_first())
    } else {
        0
    }
}

/// The number of white-space characters that a text ends with.
pub open spec fn trailing_spaces(s: Seq<char>) -> nat
    decreases s.len(),
{
    if s.len() > 0 && is_space(s.last()) {
        1 + trailing_spaces(s.drop_last())
    } else {
        0
    }
}

/// A text without the white space at its two ends.
pub open spec fn trimmed(s: Seq<char>) -> Seq<char> {
    let start = leading_spaces(s) as int;
    let end = s.len() - trailing_spaces(s);
    if start < end {
        s.subrange(start, end)
    } else {
        Seq::empty()
    }
}

/// The leading white space of a text is a run of white-space characters,
/// and it ends at the end of the text or before a character that is none.
pub proof fn lemma_leading_spaces(s: Seq<char>)
    ensures
        leading_spaces(s) <= s.len(),
        forall|i: int| 0 <= i < leading_spaces(s) ==> is_space(#[trigger] s[i]),
        leading_spaces(s) < s.len() ==> !is_space(s[leading_spaces(s) as int]),
    decreases s.len(),
{
    if s.len() > 0 && is_space(s[0]) {
        let rest = s.drop_first();
        lemma_leading_spaces(rest);
        assert forall|i: int| 0 <= i < leading_spaces(s) implies is_space(#[trigger] s[i]) by {
            if i > 0 {
                assert(s[i] == rest[i - 1]);
            }
        }
        if leading_spaces(s) < s.len() {
            assert(s[leading_spaces(s) as int] == rest[leading_spaces(rest) as int]);
        }
    }
}

/// The trailing white space of a text is a run of white-space characters,
/// and it begins at the start of the text or after a character that is none.
pub proof fn lemma_trailing_spaces(s: Seq<char>)
    ensures
        trailing_spaces(s) <= s.len(),
        forall|i: int| s.len() - trailing_spaces(s) <= i < s.len() ==> is_space(#[trigger] s[i]),
        trailing_spaces(s) < s.len() ==> !is_space(s[s.len() - trailing_spaces(s) - 1]),
    decreases s.len(),
{
    if s.len() > 0 && is_space(s.last()) {
        let rest = s.drop_last();
        lemma_trailing_spaces(rest);
        assert forall|i: int| s.len() - trailing_spaces(s) <= i < s.len() implies is_space(
            #[trigger] s[i],
        ) by {
            if i < s.len() - 1 {
                assert(s[i] == rest[i]);
            }
        }
        if trailing_spaces(s) < s.len() {
            assert(s[s.len() - trailing_spaces(s) - 1] == rest[rest.len() - trailing_spaces(rest)
                - 1]);
        }
    }
}

/// Whether a byte is one of the white-space characters.
fn is_space_byte(b: u8) -> (space: bool)
    ensures
        space == (b == 0x20 || b == 0x09 || b == 0x0a || b == 0x0d || b == 0x0c),
{
    b == 0x20 || b == 0x09 || b == 0x0a || b == 0x0d || b == 0x0c
}

/// A byte with the capital letters A to Z folded onto the small ones.
fn fold_byte(b: u8) -> (folded: u8)
    ensures
        folded == if 0x41 <= b <= 0x5a {
            b + 32
        } else {
            b as int
        },
{
    if 0x41 <= b && b <= 0x5a {
        b + 32
    } else {
        b
    }
}

/// The bounds of an ASCII text without the white space at its two ends:
/// `trimmed` is the part of the text between them.
pub(crate) fn trim_ascii(text: &str) -> (bounds: (usize, usize))
    requires
        text.is_ascii(),
    ensures
        bounds.0 <= bounds.1 <= text@.len(),
        trimmed(text@) == text@.subrange(bounds.0 as int, bounds.1 as int),
{
    broadcast use is_ascii_spec_bytes;

    let bytes = text.as_bytes();
    let n: usize = bytes.len();
    proof {
        lemma_leading_spaces(text@);
        lemma_trailing_spaces(text@);
    }
    let mut start: usize = 0;
    while start < n && is_space_byte(bytes[start])
        invariant
            start <= n,
            n == text@.len(),
            text.is_ascii(),
            bytes@ == text.spec_bytes(),
            forall|i: int| 0 <= i < start ==> is_space(#[trigger] text@[i]),
        decreases n - start,
    {
        start += 1;
    }
    assert(start == leading_spaces(text@));
    let mut end: usize = n;
    while end > start && is_space_byte(bytes[end - 1])
        invariant
            start <= end <= n,
            n == text@.len(),
            text.is_ascii(),
            bytes@ == text.spec_bytes(),
            forall|i: int| end <= i < n ==> is_space(#[trigger] text@[i]),
        decreases end,
    {
        end -= 1;
    }
    proof {
        if start < n {
            assert(!is_space(text@[start as int]));
            assert(end == n - trailing_spaces(text@));
        } else {
            assert(text@.subrange(start as int, end as int) =~= Seq::<char>::empty());
        }
    }
    (start, end)
}

/// Whether the part of an ASCII text between two bounds equals a word, up to
/// the case of the letters A to Z.
pub(crate) fn matches_word(text: &str, start: usize, end: usize, word: &str) -> (same: bool)
    requires
        text.is_ascii(),
        word.is_ascii(),
        start <= end <= text@.len(),
    ensures
        same == same_ignoring_case(text@.subrange(start as int, end as int), word@),
{
    broadcast use is_ascii_spec_bytes;

    let bytes = text.as_bytes();
    let letters = word.as_bytes();
    let n: usize = letters.len();
    let ghost part = text@.subrange(start as int, end as int);
    if end - start != n {
        return false;
    }
    let mut i: usize = 0;
    while i < n
        invariant
            i <= n,
            n == word@.len(),
            n == end - start,
            start <= end <= text@.len(),
            text.is_ascii(),
            word.is_ascii(),
            bytes@ == text.spec_bytes(),
            letters@ == word.spec_bytes(),
            part == text@.subrange(start as int, end as int),
            forall|j: int| 0 <= j < i ==> fold_case(#[trigger] part[j]) == fold_case(word@[j]),
        decreases n - i,
    {
        if fold_byte(bytes[start + i]) != fold_byte(letters[i]) {
            assert(part[i as int] == text@[start + i]);
            assert(fold_case(part[i as int]) != fold_case(word@[i as int]));
            return false;
        }
        assert(part[i as int] == text@[start + i]);
        i += 1;
    }
    true
}

/// A text with a character outside ASCII equals no ASCII word, whatever the
/// white space at its ends and the case of its letters.
pub proof fn lemma_not_ascii_matches_no_word(text: Seq<char>, word: Seq<char>)
    requires
        !is_ascii_chars(text),
        is_ascii_chars(word),
    ensures
        !same_ignoring_case(trimmed(text), word),
{
    lemma_leading_spaces(text);
    lemma_trailing_spaces(text);
    let i = choose|i: int| 0 <= i < text.len() && !('\0' <= #[trigger] text[i] <= '\u{7f}');
    let start = leading_spaces(text) as int;
    let end = text.len() - trailing_spaces(text);
    assert(!is_space(text[i]));
    assert(start <= i < end);
    let part = trimmed(text);
    assert(part[i - start] == text[i]);
    if same_ignoring_case(part, word) {
        assert(fold_case(part[i - start]) == fold_case(word[i - start]));
        assert('\0' <= word[i - start] <= '\u{7f}');
    }
}

/// Whether two texts are the same sequence of characters.
pub(crate) fn same_text(a: &str, b: &str) -> (same: bool)
    ensures
        same == (a@ == b@),
{
    let left = a.as_bytes();
    let right = b.as_bytes();
    let n: usize = left.len();
    proof {
        encode_utf8_valid_utf8(a@);
        encode_utf8_valid_utf8(b@);
        encode_utf8_decode_utf8(a@);
        encode_utf8_decode_utf8(b@);
    }
    if right.len() != n {
        return false;
    }
    let mut i: usize = 0;
    while i < n
        invariant
            i <= n,
            n == left@.len(),
            n == right@.len(),
            left@ == a.spec_bytes(),
            right@ == b.spec_bytes(),
            valid_utf8(a.spec_bytes()),
            valid_utf8(b.spec_bytes()),
            decode_utf8(a.spec_bytes()) == a@,
            decode_utf8(b.spec_bytes()) == b@,
            forall|j: int| 0 <= j < i ==> left@[j] == right@[j],
        decreases n - i,
    {
        if left[i] != right[i] {
            return false;
        }
        i += 1;
    }
    assert(left@ =~= right@);
    true
}

} // verus!
