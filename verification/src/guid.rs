//! The 128-bit globally-unique identifier that names writer classes and
//! instances, and its canonical text form.
//!
//! The identifier is held as plain values — one 32-bit word, two 16-bit
//! words and eight bytes — exactly the grouping its canonical text uses:
//! 32 uppercase hexadecimal digits grouped by hyphens and wrapped in
//! braces.

use vstd::prelude::*;
use crate::hex::{hex_of, is_upper_hex_digit, lemma_hex_char_is_digit, lemma_nibble_at_bound, nibble_at, append_hex};

verus! {

/// A 128-bit globally-unique identifier, in its standard field layout.
#[derive(Clone, Copy, Debug)]
pub struct Guid {
    pub data1: u32,
    pub data2: u16,
    pub data3: u16,
    pub data4: [u8; 8],
}

/// The canonical braced, hyphen-grouped, uppercase text of an identifier:
/// `{XXXXXXXX-XXXX-XXXX-XXXX-XXXXXXXXXXXX}`, 38 characters in all.
pub open spec fn guid_text(g: Guid) -> Seq<char> {
    seq!['{'] + hex_of(g.data1, 8) + seq!['-'] + hex_of(g.data2 as u32, 4) + seq!['-'] + hex_of(
        g.data3 as u32,
        4,
    ) + seq!['-'] + hex_of(g.data4[0] as u32, 2) + hex_of(g.data4[1] as u32, 2) + seq!['-']
        + hex_of(g.data4[2] as u32, 2) + hex_of(g.data4[3] as u32, 2) + hex_of(
        g.data4[4] as u32,
        2,
    ) + hex_of(g.data4[5] as u32, 2) + hex_of(g.data4[6] as u32, 2) + hex_of(g.data4[7] as u32, 2)
        + seq!['}']
}

/// Renders an identifier in its canonical text form.  Total: every value
/// yields the well-formed 38-character text, and equal values yield equal
/// text.
pub fn guid_to_string(guid: &Guid) -> (r: String)
    ensures
        r@ == guid_text(*guid),
        r@.len() == 38,
{
    let mut s = String::new();
    proof {
        reveal_strlit("{");
        reveal_strlit("-");
        reveal_strlit("}");
        assert("{"@ =~= seq!['{']);
        assert("-"@ =~= seq!['-']);
        assert("}"@ =~= seq!['}']);
    }
    s.append("{");
    append_hex(&mut s, guid.data1, 8);
    s.append("-");
    append_hex(&mut s, guid.data2 as u32, 4);
    s.append("-");
    append_hex(&mut s, guid.data3 as u32, 4);
    s.append("-");
    append_hex(&mut s, guid.data4[0] as u32, 2);
    append_hex(&mut s, guid.data4[1] as u32, 2);
    s.append("-");
    append_hex(&mut s, guid.data4[2] as u32, 2);
    append_hex(&mut s, guid.data4[3] as u32, 2);
    append_hex(&mut s, guid.data4[4] as u32, 2);
    append_hex(&mut s, guid.data4[5] as u32, 2);
    append_hex(&mut s, guid.data4[6] as u32, 2);
    append_hex(&mut s, guid.data4[7] as u32, 2);
    s.append("}");
    proof {
        assert(s@ =~= guid_text(*guid));
    }
    s
}

/// The canonical text is always well formed: 38 characters, braces at the
/// ends, hyphens at positions 9, 14, 19 and 24, and an uppercase
/// hexadecimal digit at every other position.
pub proof fn lemma_guid_text_shape(g: Guid)
    ensures
        guid_text(g).len() == 38,
        guid_text(g)[0] == '{',
        guid_text(g)[37] == '}',
        guid_text(g)[9] == '-',
        guid_text(g)[14] == '-',
        guid_text(g)[19] == '-',
        guid_text(g)[24] == '-',
        forall|i: int|
            0 < i < 37 && i != 9 && i != 14 && i != 19 && i != 24 ==> is_upper_hex_digit(
                #[trigger] guid_text(g)[i],
            ),
{
    assert forall|i: int|
        0 < i < 37 && i != 9 && i != 14 && i != 19 && i != 24 implies is_upper_hex_digit(
        #[trigger] guid_text(g)[i],
    ) by {
        lemma_guid_digit(g, i);
    }
}

proof fn lemma_guid_digit(g: Guid, i: int)
    requires
        0 < i < 37,
        i != 9 && i != 14 && i != 19 && i != 24,
    ensures
        is_upper_hex_digit(guid_text(g)[i]),
{
    lemma_all_nibbles_are_digits(g.data1);
    lemma_all_nibbles_are_digits(g.data2 as u32);
    lemma_all_nibbles_are_digits(g.data3 as u32);
    lemma_all_nibbles_are_digits(g.data4[0] as u32);
    lemma_all_nibbles_are_digits(g.data4[1] as u32);
    lemma_all_nibbles_are_digits(g.data4[2] as u32);
    lemma_all_nibbles_are_digits(g.data4[3] as u32);
    lemma_all_nibbles_are_digits(g.data4[4] as u32);
    lemma_all_nibbles_are_digits(g.data4[5] as u32);
    lemma_all_nibbles_are_digits(g.data4[6] as u32);
    lemma_all_nibbles_are_digits(g.data4[7] as u32);
}

proof fn lemma_all_nibbles_are_digits(v: u32)
    ensures
        forall|j: int, n: nat|
            n <= 8 && 0 <= j < n ==> is_upper_hex_digit(#[trigger] hex_of(v, n)[j]),
{
    assert forall|j: int, n: nat| n <= 8 && 0 <= j < n implies is_upper_hex_digit(
        #[trigger] hex_of(v, n)[j],
    ) by {
        let k: u32 = (((n - 1 - j) * 4)) as u32;
        lemma_nibble_at_bound(v, k);
        lemma_hex_char_is_digit(nibble_at(v, k) as int);
    }
}

} // verus!
