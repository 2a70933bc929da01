//! Item identifiers: 128-bit values, drawn at random when an item is created
//! and written in fragments and paths as 32 hexadecimal digits in five groups.

use vstd::prelude::*;
use crate::escape::{html_escaped, is_markup_char, lemma_escape_plain};

verus! {

/// The lower-case hexadecimal digit for a value from 0 to 15.
pub open spec fn hex_digit(n: int) -> char {
    seq!['0', '1', '2', '3', '4', '5', '6', '7', '8', '9', 'a', 'b', 'c', 'd', 'e', 'f'][n]
}

/// The `k`-th of the 32 hexadecimal digits of `id`, the most significant
/// being digit 0.
pub open spec fn id_digit(id: u128, k: int) -> int
    recommends
        0 <= k < 32,
{
    ((id >> ((4 * (31 - k)) as u128)) & 0xf) as int
}

/// The character at position `i` of the 36 characters of an identifier's
/// text: hyphens after the 8th, 12th, 16th and 20th digit.
pub open spec fn id_char(id: u128, i: int) -> char
    recommends
        0 <= i < 36,
{
    if i == 8 || i == 13 || i == 18 || i == 23 {
        '-'
    } else if i < 8 {
        hex_digit(id_digit(id, i))
    } else if i < 13 {
        hex_digit(id_digit(id, i - 1))
    } else if i < 18 {
        hex_digit(id_digit(id, i - 2))
    } else if i < 23 {
        hex_digit(id_digit(id, i - 3))
    } else {
        hex_digit(id_digit(id, i - 4))
    }
}

/// The text of an identifier, as in `67e55044-10b1-426f-9247-bb680e5fe0c8`.
pub open spec fn id_text(id: u128) -> Seq<char> {
    Seq::new(36, |i: int| id_char(id, i))
}

/// Whether `id` carries the marks of a randomly drawn identifier: version
/// digit 4 and the two variant bits `10`.
pub open spec fn is_random_id(id: u128) -> bool {
    id & 0x0000_0000_0000_f000_c000_0000_0000_0000 == 0x0000_0000_0000_4000_8000_0000_0000_0000
}

/// Calls `uuid::Uuid::new_v4` and hands back its 128 bits (`Uuid::as_u128`).
/// Trusted: whatever random bits were drawn, the version digit is forced to 4
/// and the variant bits to `10`. Nothing else is known of the value.
#[verifier::external_body]
pub(crate) fn fresh_id() -> (id: u128)
    ensures
        is_random_id(id),
{
    uuid::Uuid::new_v4().as_u128()
}

/// Formats `uuid::Uuid::from_u128(id)` through its `Display` impl. Trusted:
/// the text is the hyphenated lower-case form, the digits taken from the most
/// significant byte down.
#[verifier::external_body]
pub(crate) fn format_id(id: u128) -> (out: String)
    ensures
        out@ == id_text(id),
{
    uuid::Uuid::from_u128(id).to_string()
}

/// Every digit of an identifier is a value from 0 to 15.
pub proof fn lemma_id_digit_range(id: u128, k: int)
    requires
        0 <= k < 32,
    ensures
        0 <= id_digit(id, k) < 16,
{
    let shift = (4 * (31 - k)) as u128;
    assert((id >> shift) & 0xf < 16) by (bit_vector);
}

/// An identifier's text is 36 characters long and holds only digits, the
/// letters `a` to `f` and hyphens, so it stands in a fragment as it is:
/// escaping would not change it.
pub proof fn lemma_id_text_is_plain(id: u128)
    ensures
        id_text(id).len() == 36,
        forall|i: int| 0 <= i < 36 ==> !is_markup_char(#[trigger] id_text(id)[i]),
        html_escaped(id_text(id)) == id_text(id),
{
    assert forall|i: int| 0 <= i < 36 implies !is_markup_char(#[trigger] id_text(id)[i]) by {
        if i < 8 {
            lemma_id_digit_range(id, i);
        } else if 8 < i < 13 {
            lemma_id_digit_range(id, i - 1);
        } else if 13 < i < 18 {
            lemma_id_digit_range(id, i - 2);
        } else if 18 < i < 23 {
            lemma_id_digit_range(id, i - 3);
        } else if 23 < i {
            lemma_id_digit_range(id, i - 4);
        }
    }
    lemma_escape_plain(id_text(id));
}

/// The position in an identifier's text at which digit `k` stands.
pub open spec fn digit_place(k: int) -> int
    recommends
        0 <= k < 32,
{
    if k < 8 {
        k
    } else if k < 12 {
        k + 1
    } else if k < 16 {
        k + 2
    } else if k < 20 {
        k + 3
    } else {
        k + 4
    }
}

/// Two identifiers with the same text agree in their first `k + 1` digits.
proof fn lemma_same_leading_digits(a: u128, b: u128, k: int)
    requires
        id_text(a) == id_text(b),
        0 <= k < 32,
    ensures
        a >> ((4 * (31 - k)) as u128) == b >> ((4 * (31 - k)) as u128),
    decreases k,
{
    lemma_id_digit_range(a, k);
    lemma_id_digit_range(b, k);
    assert(id_text(a)[digit_place(k)] == hex_digit(id_digit(a, k)));
    assert(id_text(b)[digit_place(k)] == hex_digit(id_digit(b, k)));
    assert(id_digit(a, k) == id_digit(b, k));
    let low = (4 * (31 - k)) as u128;
    assert((a >> low) & 0xf == (b >> low) & 0xf);
    if k == 0 {
        assert(a >> 124u128 == (a >> 124u128) & 0xf) by (bit_vector);
        assert(b >> 124u128 == (b >> 124u128) & 0xf) by (bit_vector);
    } else {
        lemma_same_leading_digits(a, b, k - 1);
        let high = (4 * (32 - k)) as u128;
        assert(a >> low == b >> low) by (bit_vector)
            requires
                low <= 120,
                high == low + 4,
                a >> high == b >> high,
                (a >> low) & 0xf == (b >> low) & 0xf,
        ;
    }
}

/// Two identifiers with the same text are the same identifier, so the items
/// of a well-formed list have fragments with different element ids.
pub proof fn lemma_id_text_is_injective(a: u128, b: u128)
    requires
        id_text(a) == id_text(b),
    ensures
        a == b,
{
    lemma_same_leading_digits(a, b, 31);
    assert(a >> 0u128 == a) by (bit_vector);
    assert(b >> 0u128 == b) by (bit_vector);
}

} // verus!
