//! What holds of header values read as text and as lists.
use crate::laws::joined_lists_list_both;
use crate::text::{
    bytes_equal, is_blank, is_list_item, is_visible, lemma_visible_utf8, list_has_word, lists_word,
    lower_char, lowered, read_visible, text_equal, trimmed, visible_text,
};
use vstd::prelude::*;
use vstd::utf8::*;

verus! {

/// A header value is text exactly where each byte of it is a tab or a printable
/// ASCII character. The text has one character for each byte, that of the same
/// number, and these bytes are its UTF-8 form.
pub proof fn visible_bytes_are_their_text(bytes: Seq<u8>)
    ensures
        visible_text(bytes) is Some <==> forall|i: int|
            0 <= i < bytes.len() ==> #[trigger] bytes[i] == 9 || 32 <= bytes[i] <= 126,
        visible_text(bytes) matches Some(text) ==> {
            &&& text.len() == bytes.len()
            &&& forall|i: int| 0 <= i < text.len() ==> #[trigger] text[i] as int == bytes[i] as int
            &&& encode_utf8(text) == bytes
        },
{
    if visible_text(bytes) is Some {
        lemma_visible_utf8(bytes);
        assert forall|i: int| 0 <= i < bytes.len() implies #[trigger] bytes[i] == 9 || 32 <= bytes[i]
            <= 126 by {
            assert(is_visible(bytes[i]));
        }
        let text = visible_text(bytes)->0;
        assert forall|i: int| 0 <= i < text.len() implies #[trigger] text[i] as int
            == bytes[i] as int by {
            assert(is_visible(bytes[i]));
            assert(text[i] == bytes[i] as char);
        }
    }
    if forall|i: int| 0 <= i < bytes.len() ==> #[trigger] bytes[i] == 9 || 32 <= bytes[i] <= 126 {
        assert(forall|i: int| 0 <= i < bytes.len() ==> is_visible(#[trigger] bytes[i]));
    }
}

/// A text of tabs and printable ASCII characters is what its bytes are read as,
/// and no two texts are read from the same bytes.
pub proof fn plain_text_is_read_back(text: Seq<char>)
    requires
        forall|i: int| 0 <= i < text.len() ==> #[trigger] text[i] == '\t' || ' ' <= text[i] <= '~',
    ensures
        visible_text(encode_utf8(text)) == Some(text),
{
    let bytes = encode_utf8(text);
    assert forall|i: int| 0 <= i < text.len() implies '\0' <= #[trigger] text[i] <= '\u{7f}' by {}
    is_ascii_chars_encode_utf8(text);
    assert forall|i: int| 0 <= i < bytes.len() implies is_visible(#[trigger] bytes[i]) by {
        assert(text[i] == '\t' || ' ' <= text[i] <= '~');
        assert(bytes[i] == text[i] as u8);
    }
    lemma_visible_utf8(bytes);
    encode_utf8_decode_utf8(text);
}

/// Where trimming finds the ends of what it leaves.
proof fn lemma_trim_bounds(text: Seq<char>) -> (range: (int, int))
    ensures
        0 <= range.0 <= range.1 <= text.len(),
        trimmed(text) == text.subrange(range.0, range.1),
        forall|i: int| 0 <= i < range.0 ==> is_blank(#[trigger] text[i]),
        forall|i: int| range.1 <= i < text.len() ==> is_blank(#[trigger] text[i]),
        range.0 < range.1 ==> !is_blank(text[range.0]) && !is_blank(text[range.1 - 1]),
    decreases text.len(),
{
    let n = text.len() as int;
    if n == 0 {
        assert(text.subrange(0, 0) =~= text);
        (0, 0)
    } else if is_blank(text.first()) {
        let rest = text.drop_first();
        let (a, b) = lemma_trim_bounds(rest);
        assert(forall|i: int| 0 < i < n ==> #[trigger] text[i] == rest[i - 1]);
        assert(text.subrange(a + 1, b + 1) =~= rest.subrange(a, b));
        (a + 1, b + 1)
    } else if is_blank(text.last()) {
        let rest = text.drop_last();
        let (a, b) = lemma_trim_bounds(rest);
        assert(forall|i: int| 0 <= i < n - 1 ==> #[trigger] text[i] == rest[i]);
        assert(text.subrange(a, b) =~= rest.subrange(a, b));
        (a, b)
    } else {
        assert(text.subrange(0, n) =~= text);
        (0, n)
    }
}

/// What trimming leaves of a text lies between two runs of spaces and tabs that
/// reach to its ends, and neither begins nor ends with one.
pub proof fn trimming_takes_the_blanks_at_the_ends(text: Seq<char>)
    ensures
        exists|a: int, b: int|
            {
                &&& 0 <= a <= b <= text.len()
                &&& trimmed(text) == #[trigger] text.subrange(a, b)
                &&& forall|i: int| 0 <= i < a ==> #[trigger] text[i] == ' ' || text[i] == '\t'
                &&& forall|i: int|
                    b <= i < text.len() ==> #[trigger] text[i] == ' ' || text[i] == '\t'
            },
        trimmed(text).len() > 0 ==> {
            &&& trimmed(text)[0] != ' ' && trimmed(text)[0] != '\t'
            &&& trimmed(text).last() != ' ' && trimmed(text).last() != '\t'
        },
{
    let (a, b) = lemma_trim_bounds(text);
    assert(trimmed(text) == text.subrange(a, b));
    assert(forall|i: int| 0 <= i < a ==> is_blank(#[trigger] text[i]));
}

/// A space or a tab more at either end of a text does not change what trimming
/// leaves of it.
pub proof fn more_blanks_are_trimmed_too(text: Seq<char>, blank: char)
    requires
        blank == ' ' || blank == '\t',
    ensures
        trimmed(seq![blank] + text) == trimmed(text),
        trimmed(text + seq![blank]) == trimmed(text),
    decreases text.len(),
{
    let before = seq![blank] + text;
    assert(before.first() == blank);
    assert(before.drop_first() =~= text);
    let after = text + seq![blank];
    assert(after.last() == blank);
    assert(after.drop_last() =~= text);
    if text.len() == 0 {
        assert(after.drop_first() =~= text);
    } else {
        assert(after.first() == text.first());
        if is_blank(text.first()) {
            more_blanks_are_trimmed_too(text.drop_first(), blank);
            assert(after.drop_first() =~= text.drop_first() + seq![blank]);
        }
    }
}

/// A text in lower case has the same characters, but for each letter from A to Z
/// the small letter, which stands 32 places after it.
pub proof fn lower_case_changes_capitals_only(text: Seq<char>)
    ensures
        lowered(text).len() == text.len(),
        forall|i: int|
            0 <= i < text.len() ==> #[trigger] lowered(text)[i] as int == if 'A' <= text[i] <= 'Z' {
                text[i] as int + 32
            } else {
                text[i] as int
            },
{
    assert forall|i: int| 0 <= i < text.len() implies #[trigger] lowered(text)[i] as int
        == if 'A' <= text[i] <= 'Z' {
        text[i] as int + 32
    } else {
        text[i] as int
    } by {
        assert(lowered(text)[i] == lower_char(text[i]));
    }
}

/// A list without a comma has one item: the text itself, without the blanks at
/// its ends and in lower case.
pub proof fn a_text_without_comma_is_one_item(text: Seq<char>, word: Seq<char>)
    requires
        forall|i: int| 0 <= i < text.len() ==> #[trigger] text[i] != ',',
    ensures
        lists_word(text, word) <==> lowered(trimmed(text)) == word,
{
    let n = text.len() as int;
    assert(text.subrange(0, n) =~= text);
    assert(is_list_item(text, 0, n));
    assert forall|s: int, e: int| #[trigger] is_list_item(text, s, e) implies s == 0 && e == n by {
        if s > 0 {
            assert(text[s - 1] != ',');
        }
        if e < n {
            assert(text[e] != ',');
        }
    }
}

/// A list has a word wherever an item of it is that word, blanks at its ends and
/// the case of its letters aside: the only item, the last, the first, or one
/// between others.
pub proof fn a_listed_word_is_found(
    before: Seq<char>,
    item: Seq<char>,
    after: Seq<char>,
    word: Seq<char>,
)
    requires
        forall|i: int| 0 <= i < item.len() ==> #[trigger] item[i] != ',',
        lowered(trimmed(item)) == word,
    ensures
        lists_word(item, word),
        lists_word(before + seq![','] + item, word),
        lists_word(item + seq![','] + after, word),
        lists_word(before + seq![','] + item + seq![','] + after, word),
{
    a_text_without_comma_is_one_item(item, word);
    joined_lists_list_both(before, item, word);
    joined_lists_list_both(item, after, word);
    joined_lists_list_both(before + seq![','] + item, after, word);
}

/// A header value is read as text exactly where its bytes are tabs and printable
/// ASCII characters, and then it is read as the text of these bytes.
pub proof fn reading_a_value_gives_its_text(bytes: Vec<u8>, text: Option<String>)
    requires
        call_ensures(read_visible, (bytes,), text),
    ensures
        text is Some <==> forall|i: int|
            0 <= i < bytes@.len() ==> #[trigger] bytes@[i] == 9 || 32 <= bytes@[i] <= 126,
        text matches Some(s) ==> encode_utf8(s@) == bytes@,
{
    visible_bytes_are_their_text(bytes@);
}

/// A header value has a word as one item of a list exactly where it is text and
/// this text lists the word; a value with another byte than tabs and printable
/// ASCII characters has no word.
pub proof fn only_text_has_words(bytes: &[u8], word: &str, found: bool)
    requires
        is_ascii_chars(word@),
        call_ensures(list_has_word, (bytes, word), found),
    ensures
        (exists|i: int|
            0 <= i < bytes@.len() && #[trigger] bytes@[i] != 9 && !(32 <= bytes@[i] <= 126))
            ==> !found,
        forall|text: Seq<char>|
            visible_text(bytes@) == Some(text) ==> (found <==> #[trigger] lists_word(text, word@)),
{
    visible_bytes_are_their_text(bytes@);
}

/// Two values that are text and are joined by a comma have the words that either
/// of them has.
pub proof fn joined_values_have_the_words_of_both(
    first: &[u8],
    second: &[u8],
    joined: &[u8],
    word: &str,
    in_first: bool,
    in_second: bool,
    in_joined: bool,
)
    requires
        is_ascii_chars(word@),
        joined@ == first@ + seq![44u8] + second@,
        visible_text(first@) is Some,
        visible_text(second@) is Some,
        call_ensures(list_has_word, (first, word), in_first),
        call_ensures(list_has_word, (second, word), in_second),
        call_ensures(list_has_word, (joined, word), in_joined),
    ensures
        in_joined <==> in_first || in_second,
{
    let a = visible_text(first@)->0;
    let b = visible_text(second@)->0;
    visible_bytes_are_their_text(first@);
    visible_bytes_are_their_text(second@);
    visible_bytes_are_their_text(joined@);
    assert forall|i: int| 0 <= i < joined@.len() implies #[trigger] joined@[i] == 9 || 32 <= joined@[i]
        <= 126 by {
        if i < first@.len() {
            assert(joined@[i] == first@[i]);
        } else if i > first@.len() {
            assert(joined@[i] == second@[i - first@.len() - 1]);
        }
    }
    let all = visible_text(joined@)->0;
    assert(all =~= a + seq![','] + b) by {
        assert forall|i: int| 0 <= i < all.len() implies #[trigger] all[i] == (a + seq![','] + b)[i] by {
            assert(all[i] as int == joined@[i] as int);
            if i < a.len() {
                assert(a[i] as int == first@[i] as int);
            } else if i > a.len() {
                assert(b[i - a.len() - 1] as int == second@[i - a.len() - 1] as int);
            }
        }
    }
    joined_lists_list_both(a, b, word@);
}

/// A header value without a comma has a word as an item of a list exactly where
/// it is text and, blanks at its ends and the case of its letters aside, the
/// word.
pub proof fn a_value_without_comma_has_one_word(bytes: &[u8], word: &str, found: bool)
    requires
        is_ascii_chars(word@),
        forall|i: int| 0 <= i < bytes@.len() ==> #[trigger] bytes@[i] != 44,
        call_ensures(list_has_word, (bytes, word), found),
    ensures
        found <==> (visible_text(bytes@) matches Some(text) && lowered(trimmed(text)) == word@),
{
    visible_bytes_are_their_text(bytes@);
    if visible_text(bytes@) is Some {
        let text = visible_text(bytes@)->0;
        assert forall|i: int| 0 <= i < text.len() implies #[trigger] text[i] != ',' by {
            assert(text[i] as int == bytes@[i] as int);
        }
        a_text_without_comma_is_one_item(text, word@);
    }
}

/// Two byte strings, and two texts, are told to be equal exactly where they have
/// the same length and the same elements.
pub proof fn equal_means_the_same_elements(
    a: &[u8],
    b: &[u8],
    bytes: bool,
    s: &str,
    t: &str,
    texts: bool,
)
    requires
        call_ensures(bytes_equal, (a, b), bytes),
        call_ensures(text_equal, (s, t), texts),
    ensures
        bytes <==> a@.len() == b@.len() && forall|i: int| 0 <= i < a@.len() ==> a@[i] == b@[i],
        texts <==> s@.len() == t@.len() && forall|i: int| 0 <= i < s@.len() ==> s@[i] == t@[i],
{
    if a@.len() == b@.len() && forall|i: int| 0 <= i < a@.len() ==> a@[i] == b@[i] {
        assert(a@ =~= b@);
    }
    if s@.len() == t@.len() && forall|i: int| 0 <= i < s@.len() ==> s@[i] == t@[i] {
        assert(s@ =~= t@);
    }
}

} // verus!
