//! Text operations that the pipeline relies on.

use vstd::prelude::*;

verus! {

/// The text that `String::from_utf8_lossy` decodes from `bytes`: the decoded
/// characters, with each ill-formed part replaced as the standard library
/// documents.
pub uninterp spec fn utf8_lossy(bytes: Seq<u8>) -> Seq<char>;

/// Whether `text` ends with `suffix`, character by character.
pub(crate) fn ends_with(text: &str, suffix: &str) -> (res: bool)
    ensures
        res == suffix@.is_suffix_of(text@),
{
    let text_len: usize = text.unicode_len();
    let suffix_len: usize = suffix.unicode_len();
    if suffix_len > text_len {
        return false;
    }
    let start: usize = text_len - suffix_len;
    let ghost tail = text@.subrange(start as int, text_len as int);
    let mut i: usize = 0;
    while i < suffix_len
        invariant
            i <= suffix_len,
            text_len == text@.len(),
            suffix_len == suffix@.len(),
            start + suffix_len == text_len,
            tail == text@.subrange(start as int, text_len as int),
            forall|j: int| 0 <= j < i ==> suffix@[j] == tail[j],
        decreases suffix_len - i,
    {
        if suffix.get_char(i) != text.get_char(start + i) {
            assert(suffix@[i as int] != tail[i as int]);
            return false;
        }
        i = i + 1;
    }
    assert(suffix@ =~= tail);
    true
}

/// Calls `String::from_utf8_lossy` and takes ownership of the text. Trusted:
/// the result is the one that [`utf8_lossy`] names for the bytes.
#[verifier::external_body]
pub(crate) fn decode_lossy(bytes: &[u8]) -> (res: String)
    ensures
        res@ == utf8_lossy(bytes@),
{
    String::from_utf8_lossy(bytes).into_owned()
}

/// The view of each element of `items`, in order.
pub open spec fn views<T: View>(items: Seq<T>) -> Seq<T::V> {
    items.map_values(|item: T| item@)
}

/// The views of a concatenation are the concatenated views.
pub proof fn lemma_views_concat<T: View>(a: Seq<T>, b: Seq<T>)
    ensures
        views(a + b) == views(a) + views(b),
{
}

/// The text of one decimal digit.
pub open spec fn digit_text(digit: nat) -> Seq<char> {
    if digit == 0 {
        "0"@
    } else if digit == 1 {
        "1"@
    } else if digit == 2 {
        "2"@
    } else if digit == 3 {
        "3"@
    } else if digit == 4 {
        "4"@
    } else if digit == 5 {
        "5"@
    } else if digit == 6 {
        "6"@
    } else if digit == 7 {
        "7"@
    } else if digit == 8 {
        "8"@
    } else {
        "9"@
    }
}

/// The decimal text of a number, without leading zeros.
pub open spec fn decimal_text(number: nat) -> Seq<char>
    decreases number,
{
    if number < 10 {
        digit_text(number)
    } else {
        decimal_text(number / 10) + digit_text(number % 10)
    }
}

/// The text of the digit `value`.
fn digit(value: usize) -> (res: &'static str)
    requires
        value < 10,
    ensures
        res@ == digit_text(value as nat),
{
    if value == 0 {
        "0"
    } else if value == 1 {
        "1"
    } else if value == 2 {
        "2"
    } else if value == 3 {
        "3"
    } else if value == 4 {
        "4"
    } else if value == 5 {
        "5"
    } else if value == 6 {
        "6"
    } else if value == 7 {
        "7"
    } else if value == 8 {
        "8"
    } else {
        "9"
    }
}

/// Writes `number` in decimal.
pub fn decimal(number: usize) -> (res: String)
    ensures
        res@ == decimal_text(number as nat),
    decreases number,
{
    if number < 10 {
        String::from_str(digit(number))
    } else {
        decimal(number / 10).concat(digit(number % 10))
    }
}

} // verus!
