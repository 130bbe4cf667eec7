//! The textual forms of a 128-bit identifier value: 32 lower-case hexadecimal
//! digits, most significant first, written either without separators or in the
//! canonical 8-4-4-4-12 grouping.

use vstd::prelude::*;
use vstd::utf8::is_ascii_chars;

verus! {

/// The `i`-th hexadecimal digit of `value`, counted from the most significant.
pub open spec fn nibble(value: u128, i: int) -> u128 {
    (value >> (((31 - i) * 4) as u128)) & 0xf
}

/// The lower-case character for a digit value below 16.
pub open spec fn hex_char(digit: u128) -> char {
    if digit < 10 {
        (digit + 48) as char
    } else {
        (digit + 87) as char
    }
}

/// `c` is one of `0`-`9`, `a`-`f`.
pub open spec fn is_lower_hex(c: char) -> bool {
    ('0' <= c && c <= '9') || ('a' <= c && c <= 'f')
}

/// The places of the four separators in the hyphenated form.
pub open spec fn is_separator_index(i: int) -> bool {
    i == 8 || i == 13 || i == 18 || i == 23
}

/// How many separators stand before place `i` of the hyphenated form.
pub open spec fn separators_before(i: int) -> int {
    if i < 8 {
        0
    } else if i < 13 {
        1
    } else if i < 18 {
        2
    } else if i < 23 {
        3
    } else {
        4
    }
}

/// The 32-character form: every digit of `value`, no separators.
pub open spec fn simple_text(value: u128) -> Seq<char> {
    Seq::new(32, |i: int| hex_char(nibble(value, i)))
}

/// The 36-character canonical form, such as
/// `67e55044-10b1-426f-9247-bb680e5fe0c8`.
pub open spec fn hyphenated_text(value: u128) -> Seq<char> {
    Seq::new(
        36,
        |i: int|
            if is_separator_index(i) {
                '-'
            } else {
                hex_char(nibble(value, i - separators_before(i)))
            },
    )
}

/// `value` carries the marks of a randomly generated identifier: version 4
/// in digit 12 and the two leading bits `10` in digit 16.
pub open spec fn is_random_version(value: u128) -> bool {
    (value >> 76) & 0xf == 4 && (value >> 62) & 0x3 == 2
}

/// Forcing the version digit and the variant bits of any 128 bits, as is done
/// when a random value is generated, gives a value with those marks.
pub proof fn lemma_forced_marks(bits: u128)
    ensures
        is_random_version(bits & 0xFFFFFFFFFFFF4FFFBFFFFFFFFFFFFFFF | 0x40008000000000000000),
{
    assert(((bits & 0xFFFFFFFFFFFF4FFFBFFFFFFFFFFFFFFF | 0x40008000000000000000) >> 76) & 0xf
        == 4) by (bit_vector);
    assert(((bits & 0xFFFFFFFFFFFF4FFFBFFFFFFFFFFFFFFF | 0x40008000000000000000) >> 62) & 0x3
        == 2) by (bit_vector);
}

/// `text` is the canonical hyphenated form of some randomly generated value.
pub open spec fn is_canonical_random(text: Seq<char>) -> bool {
    exists|value: u128| is_random_version(value) && text == #[trigger] hyphenated_text(value)
}

/// `text` is the separator-free form of some randomly generated value.
pub open spec fn is_simple_random(text: Seq<char>) -> bool {
    exists|value: u128| is_random_version(value) && text == #[trigger] simple_text(value)
}

/// Every digit value below 16 is written as a lower-case hexadecimal digit,
/// which is an ASCII character and never the separator.
pub proof fn lemma_hex_char(digit: u128)
    requires
        digit < 16,
    ensures
        is_lower_hex(hex_char(digit)),
        hex_char(digit) != '-',
        (hex_char(digit) as u32) < 128,
{
}

/// A nibble is a digit value below 16.
pub proof fn lemma_nibble_bound(value: u128, i: int)
    requires
        0 <= i < 32,
    ensures
        nibble(value, i) < 16,
{
    let shift = ((31 - i) * 4) as u128;
    assert((value >> shift) & 0xf < 16) by (bit_vector);
}

/// The shape of the canonical form: 36 characters, separators at places 8, 13,
/// 18 and 23, lower-case hexadecimal digits everywhere else.
pub proof fn lemma_hyphenated_shape(value: u128)
    ensures
        hyphenated_text(value).len() == 36,
        forall|i: int|
            0 <= i < 36 ==> (#[trigger] hyphenated_text(value)[i] == '-' <==> is_separator_index(
                i,
            )),
        forall|i: int|
            0 <= i < 36 && !is_separator_index(i) ==> is_lower_hex(
                #[trigger] hyphenated_text(value)[i],
            ),
{
    assert forall|i: int| 0 <= i < 36 && !is_separator_index(i) implies is_lower_hex(
        #[trigger] hyphenated_text(value)[i],
    ) && hyphenated_text(value)[i] != '-' by {
        let k = i - separators_before(i);
        lemma_nibble_bound(value, k);
        lemma_hex_char(nibble(value, k));
    }
}

/// The shape of the separator-free form: 32 lower-case hexadecimal digits, so
/// no separator anywhere.
pub proof fn lemma_simple_shape(value: u128)
    ensures
        simple_text(value).len() == 32,
        forall|i: int| 0 <= i < 32 ==> is_lower_hex(#[trigger] simple_text(value)[i]),
        forall|i: int| 0 <= i < 32 ==> #[trigger] simple_text(value)[i] != '-',
{
    assert forall|i: int| 0 <= i < 32 implies is_lower_hex(#[trigger] simple_text(value)[i])
        && simple_text(value)[i] != '-' by {
        lemma_nibble_bound(value, i);
        lemma_hex_char(nibble(value, i));
    }
}

/// In the canonical form of a randomly generated value the version digit is
/// `4` and the variant digit is one of `8`, `9`, `a`, `b`.
pub proof fn lemma_random_marks(value: u128)
    requires
        is_random_version(value),
    ensures
        hyphenated_text(value)[14] == '4',
        ({
            let c = hyphenated_text(value)[19];
            c == '8' || c == '9' || c == 'a' || c == 'b'
        }),
        simple_text(value)[12] == '4',
        ({
            let c = simple_text(value)[16];
            c == '8' || c == '9' || c == 'a' || c == 'b'
        }),
{
    assert(nibble(value, 12) == (value >> 76) & 0xf);
    assert(nibble(value, 16) == (value >> 60) & 0xf);
    assert((value >> 62) & 0x3 == 2 ==> ((value >> 60) & 0xf == 8 || (value >> 60) & 0xf == 9
        || (value >> 60) & 0xf == 10 || (value >> 60) & 0xf == 11)) by (bit_vector);
}

/// The canonical form consists of ASCII characters only.
pub proof fn lemma_hyphenated_is_ascii(value: u128)
    ensures
        is_ascii_chars(hyphenated_text(value)),
{
    assert forall|i: int| 0 <= i < hyphenated_text(value).len() implies '\0'
        <= #[trigger] hyphenated_text(value)[i] <= '\u{7f}' by {
        if !is_separator_index(i) {
            let k = i - separators_before(i);
            lemma_nibble_bound(value, k);
            lemma_hex_char(nibble(value, k));
        }
    }
}

/// Every text that is the canonical form of a randomly generated value has
/// the canonical shape: 36 characters, separators at places 8, 13, 18 and 23
/// and nowhere else, lower-case hexadecimal digits at the other places, the
/// version digit `4` at place 14 and one of `8`, `9`, `a`, `b` at place 19.
pub proof fn lemma_canonical_random_shape(text: Seq<char>)
    requires
        is_canonical_random(text),
    ensures
        text.len() == 36,
        forall|i: int| 0 <= i < 36 ==> (#[trigger] text[i] == '-' <==> is_separator_index(i)),
        forall|i: int| 0 <= i < 36 && !is_separator_index(i) ==> is_lower_hex(#[trigger] text[i]),
        text[14] == '4',
        text[19] == '8' || text[19] == '9' || text[19] == 'a' || text[19] == 'b',
{
    let value = choose|value: u128|
        is_random_version(value) && text == #[trigger] hyphenated_text(value);
    lemma_hyphenated_shape(value);
    lemma_random_marks(value);
}

} // verus!
