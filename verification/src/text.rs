//! Text as HTTP header fields carry it: visible ASCII, comma separated lists,
//! and comparisons of strings.
use std::string::FromUtf8Error;
use vstd::prelude::*;
use vstd::utf8::*;

verus! {

/// Whether a byte may stand in a header value that is read as text: a visible
/// ASCII character, a space or a horizontal tab.
pub open spec fn is_visible(b: u8) -> bool {
    32 <= b < 127 || b == 9
}

/// The text that the bytes of a header value hold, if all of them are visible.
pub open spec fn visible_text(bytes: Seq<u8>) -> Option<Seq<char>> {
    if forall|i: int| 0 <= i < bytes.len() ==> is_visible(#[trigger] bytes[i]) {
        Some(Seq::new(bytes.len(), |i: int| bytes[i] as char))
    } else {
        None
    }
}

/// Whether a character is a space or a horizontal tab.
pub open spec fn is_blank(c: char) -> bool {
    c == ' ' || c == '\t'
}

/// `text` without the blanks at its two ends.
pub open spec fn trimmed(text: Seq<char>) -> Seq<char>
    decreases text.len(),
{
    if text.len() == 0 {
        text
    } else if is_blank(text.first()) {
        trimmed(text.drop_first())
    } else if is_blank(text.last()) {
        trimmed(text.drop_last())
    } else {
        text
    }
}

/// The lower case form of an ASCII character.
pub open spec fn lower_char(c: char) -> char {
    if 'A' <= c <= 'Z' {
        ((c as u8) + 32) as char
    } else {
        c
    }
}

/// The lower case form of an ASCII text.
pub open spec fn lowered(text: Seq<char>) -> Seq<char> {
    text.map_values(|c: char| lower_char(c))
}

/// Whether the positions from `start` up to `end` are one item of the comma
/// separated list `text`.
pub open spec fn is_list_item(text: Seq<char>, start: int, end: int) -> bool {
    &&& 0 <= start <= end <= text.len()
    &&& start == 0 || text[start - 1] == ','
    &&& end == text.len() || text[end] == ','
    &&& forall|i: int| start <= i < end ==> text[i] != ','
}

/// Whether one item of the comma separated list `text` is `word`, blanks
/// around the item and the case of its letters aside.
pub open spec fn lists_word(text: Seq<char>, word: Seq<char>) -> bool {
    exists|start: int, end: int| #[trigger]
        is_list_item(text, start, end) && lowered(trimmed(text.subrange(start, end))) == word
}

/// The error of a conversion from bytes to text.
#[verifier::external_type_specification]
#[verifier::external_body]
pub struct ExFromUtf8Error(FromUtf8Error);

/// The bytes that a failed conversion was given, which its error holds.
pub uninterp spec fn rejected_bytes(error: FromUtf8Error) -> Seq<u8>;

/// What the error of a conversion says of the bytes that it rejected.
pub uninterp spec fn utf8_complaint(bytes: Seq<u8>) -> Seq<char>;

/// `String::from_utf8` takes exactly the valid UTF-8 byte strings, and gives
/// the text that they encode. Its error holds the bytes that were rejected.
pub assume_specification[ String::from_utf8 ](bytes: Vec<u8>) -> (text: Result<
    String,
    FromUtf8Error,
>)
    ensures
        match text {
            Ok(s) => valid_utf8(bytes@) && s@ == decode_utf8(bytes@),
            Err(e) => !valid_utf8(bytes@) && rejected_bytes(e) == bytes@,
        },
;

/// Calls the `Display` of `FromUtf8Error`, which writes where the rejected
/// bytes stop being valid: a text that depends on those bytes alone.
#[verifier::external_body]
pub(crate) fn utf8_error_text(error: &FromUtf8Error) -> (text: String)
    ensures
        text@ == utf8_complaint(rejected_bytes(*error)),
{
    error.to_string()
}

/// Two texts are equal when their UTF-8 bytes are.
pub(crate) proof fn lemma_utf8_injective(a: Seq<char>, b: Seq<char>)
    ensures
        encode_utf8(a) == encode_utf8(b) <==> a == b,
{
    encode_utf8_decode_utf8(a);
    encode_utf8_decode_utf8(b);
}

/// Visible bytes are the UTF-8 form of the text that they hold.
pub(crate) proof fn lemma_visible_utf8(bytes: Seq<u8>)
    requires
        visible_text(bytes) is Some,
    ensures
        valid_utf8(bytes),
        encode_utf8(visible_text(bytes)->0) == bytes,
        decode_utf8(bytes) == visible_text(bytes)->0,
{
    let chars = visible_text(bytes)->0;
    assert forall|i: int| 0 <= i < chars.len() implies '\0' <= #[trigger] chars[i] <= '\u{7f}' by {
        assert(is_visible(bytes[i]));
    }
    is_ascii_chars_encode_utf8(chars);
    assert(encode_utf8(chars) =~= bytes);
    encode_utf8_valid_utf8(chars);
    encode_utf8_decode_utf8(chars);
}

/// Whether two byte strings are the same.
pub fn bytes_equal(a: &[u8], b: &[u8]) -> (equal: bool)
    ensures
        equal == (a@ == b@),
{
    if a.len() != b.len() {
        return false;
    }
    let mut i: usize = 0;
    while i < a.len()
        invariant
            i <= a@.len(),
            a@.len() == b@.len(),
            forall|j: int| 0 <= j < i ==> a@[j] == b@[j],
        decreases a@.len() - i,
    {
        if a[i] != b[i] {
            return false;
        }
        i += 1;
    }
    assert(a@ =~= b@);
    true
}

/// Whether two texts are the same.
pub fn text_equal(a: &str, b: &str) -> (equal: bool)
    ensures
        equal == (a@ == b@),
{
    proof {
        lemma_utf8_injective(a@, b@);
    }
    bytes_equal(a.as_bytes(), b.as_bytes())
}

/// Whether every byte is visible.
fn all_visible(bytes: &[u8]) -> (all: bool)
    ensures
        all == (visible_text(bytes@) is Some),
{
    let mut i: usize = 0;
    while i < bytes.len()
        invariant
            i <= bytes@.len(),
            forall|j: int| 0 <= j < i ==> is_visible(#[trigger] bytes@[j]),
        decreases bytes@.len() - i,
    {
        let b = bytes[i];
        if !(b >= 32 && b < 127 || b == 9) {
            assert(!is_visible(bytes@[i as int]));
            return false;
        }
        i += 1;
    }
    true
}

/// The text of a header value, or `None` where a byte of it is not visible.
pub fn read_visible(bytes: Vec<u8>) -> (text: Option<String>)
    ensures
        match text {
            Some(s) => visible_text(bytes@) == Some(s@),
            None => visible_text(bytes@) is None,
        },
{
    if !all_visible(bytes.as_slice()) {
        return None;
    }
    proof {
        lemma_visible_utf8(bytes@);
    }
    match String::from_utf8(bytes) {
        Ok(s) => Some(s),
        Err(_) => None,
    }
}

/// Trimming stops at the first and at the last character that is no blank.
proof fn lemma_trimmed(text: Seq<char>, a: int, b: int)
    requires
        0 <= a <= b <= text.len(),
        forall|i: int| 0 <= i < a ==> is_blank(#[trigger] text[i]),
        forall|i: int| b <= i < text.len() ==> is_blank(#[trigger] text[i]),
        a < b ==> !is_blank(text[a]) && !is_blank(text[b - 1]),
    ensures
        trimmed(text) == text.subrange(a, b),
    decreases text.len(),
{
    if text.len() == 0 {
        assert(text =~= text.subrange(a, b));
    } else if is_blank(text.first()) {
        let rest = text.drop_first();
        if a > 0 {
            lemma_trimmed(rest, a - 1, b - 1);
            assert(rest.subrange(a - 1, b - 1) =~= text.subrange(a, b));
        } else {
            lemma_trimmed(rest, 0, 0);
            assert(rest.subrange(0, 0) =~= text.subrange(a, b));
        }
    } else if is_blank(text.last()) {
        let rest = text.drop_last();
        lemma_trimmed(rest, a, b);
        assert(rest.subrange(a, b) =~= text.subrange(a, b));
    } else {
        assert(text =~= text.subrange(a, b));
    }
}

/// The bounds of the part of `bytes` between `start` and `end` that trimming
/// leaves.
fn trim_range(bytes: &[u8], start: usize, end: usize) -> (range: (usize, usize))
    requires
        start <= end <= bytes@.len(),
        visible_text(bytes@) is Some,
    ensures
        start <= range.0 <= range.1 <= end,
        trimmed((visible_text(bytes@)->0).subrange(start as int, end as int))
            == (visible_text(bytes@)->0).subrange(range.0 as int, range.1 as int),
{
    let ghost text = visible_text(bytes@)->0;
    let mut a: usize = start;
    while a < end && (bytes[a] == 32 || bytes[a] == 9)
        invariant
            start <= a <= end <= bytes@.len(),
            text == Seq::new(bytes@.len(), |i: int| bytes@[i] as char),
            forall|i: int| start <= i < a ==> is_blank(#[trigger] text[i]),
        decreases end - a,
    {
        a += 1;
    }
    let mut b: usize = end;
    while b > a && (bytes[b - 1] == 32 || bytes[b - 1] == 9)
        invariant
            start <= a <= b <= end <= bytes@.len(),
            text == Seq::new(bytes@.len(), |i: int| bytes@[i] as char),
            forall|i: int| b <= i < end ==> is_blank(#[trigger] text[i]),
        decreases b - a,
    {
        b -= 1;
    }
    proof {
        let item = text.subrange(start as int, end as int);
        assert(a < b ==> !is_blank(text[a as int]) && !is_blank(text[b - 1])) by {
            if a < b {
                assert(is_visible(bytes@[a as int]) && is_visible(bytes@[b - 1]));
            }
        }
        lemma_trimmed(item, a - start, b - start);
        assert(item.subrange(a - start, b - start) =~= text.subrange(a as int, b as int));
    }
    (a, b)
}

/// Whether the part of `bytes` between `a` and `b` is `word`, the case of its
/// letters aside.
fn is_word_at(bytes: &[u8], a: usize, b: usize, word: &str) -> (found: bool)
    requires
        a <= b <= bytes@.len(),
        visible_text(bytes@) is Some,
        is_ascii_chars(word@),
    ensures
        found == (lowered((visible_text(bytes@)->0).subrange(a as int, b as int)) == word@),
{
    let ghost text = visible_text(bytes@)->0;
    let ghost part = lowered(text.subrange(a as int, b as int));
    let word_bytes = word.as_bytes();
    proof {
        is_ascii_chars_encode_utf8(word@);
    }
    if word_bytes.len() != b - a {
        return false;
    }
    let mut i: usize = 0;
    while i < word_bytes.len()
        invariant
            i <= word_bytes@.len() == b - a,
            a <= b <= bytes@.len(),
            visible_text(bytes@) == Some(text),
            part == lowered(text.subrange(a as int, b as int)),
            word_bytes@ == encode_utf8(word@),
            is_ascii_chars(word@),
            word@.len() == word_bytes@.len(),
            forall|j: int| 0 <= j < word@.len() ==> #[trigger] word@[j] as u8 == word_bytes@[j],
            forall|j: int| 0 <= j < i ==> part[j] == #[trigger] word@[j],
        decreases word_bytes@.len() - i,
    {
        let c = bytes[a + i];
        let lower = if c >= 65 && c <= 90 {
            c + 32
        } else {
            c
        };
        proof {
            assert(is_visible(bytes@[a + i]));
            assert(text[a + i] == c as char);
            assert(part[i as int] == lower_char(c as char));
            assert(part[i as int] == lower as char);
            assert('\0' <= word@[i as int] <= '\u{7f}');
        }
        if lower != word_bytes[i] {
            assert(part[i as int] != word@[i as int]);
            return false;
        }
        i += 1;
    }
    assert(part =~= word@);
    true
}

/// Whether a header value is text, and one item of it as a comma separated list
/// is `word`, blanks around the item and the case of its letters aside.
pub fn list_has_word(bytes: &[u8], word: &str) -> (found: bool)
    requires
        is_ascii_chars(word@),
    ensures
        found == (visible_text(bytes@) matches Some(text) && lists_word(text, word@)),
{
    if !all_visible(bytes) {
        return false;
    }
    let ghost text = visible_text(bytes@)->0;
    let mut start: usize = 0;
    loop
        invariant
            start <= bytes@.len(),
            visible_text(bytes@) == Some(text),
            is_ascii_chars(word@),
            start == 0 || text[start - 1] == ',',
            forall|s: int, e: int|
                s < start && #[trigger] is_list_item(text, s, e) ==> lowered(
                    trimmed(text.subrange(s, e)),
                ) != word@,
        decreases bytes@.len() - start,
    {
        let mut end: usize = start;
        while end < bytes.len() && bytes[end] != 44
            invariant
                start <= end <= bytes@.len(),
                visible_text(bytes@) == Some(text),
                forall|i: int| start <= i < end ==> #[trigger] text[i] != ',',
            decreases bytes@.len() - end,
        {
            assert(is_visible(bytes@[end as int]));
            end += 1;
        }
        let (a, b) = trim_range(bytes, start, end);
        assert(is_list_item(text, start as int, end as int));
        if is_word_at(bytes, a, b, word) {
            return true;
        }
        proof {
            assert forall|s: int, e: int|
                s <= end && #[trigger] is_list_item(text, s, e) implies lowered(
                trimmed(text.subrange(s, e)),
            ) != word@ by {
                if s == start {
                    if e < end {
                        assert(text[e] != ',');
                    } else if e > end {
                        assert(text[end as int] == ',');
                    }
                } else if s > start {
                    assert(text[s - 1] == ',');
                }
            }
        }
        if end == bytes.len() {
            return false;
        }
        start = end + 1;
    }
}

} // verus!
