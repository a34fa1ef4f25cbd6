//! Status codes of the backup subsystem and their textual rendering.
//!
//! Every call into the platform's backup API reports a signed 32-bit
//! status code (an HRESULT).  Zero is the one success value the pipeline
//! accepts at its strict steps; a negative code is a failure wherever the
//! original API's `FAILED` test is meant.

use vstd::prelude::*;
use crate::hex::{hex_char, hex_of, is_upper_hex_digit, lemma_hex_char_is_digit, lemma_nibble_at_bound, nibble_at, append_hex};

verus! {

/// The well-known success status.
pub const S_OK: i32 = 0;

/// The null-argument status: a required pointer argument was null.
pub const E_POINTER: i32 = -2147467261;

/// A status code reports failure exactly when its sign bit is set,
/// that is, when it is negative as a signed 32-bit value.
pub open spec fn failed(hr: i32) -> bool {
    hr < 0
}

/// The textual form of a status code: `0x` followed by the eight
/// uppercase hexadecimal digits of its 32-bit pattern, zero-padded.
pub open spec fn status_text(hr: i32) -> Seq<char> {
    seq!['0', 'x'] + hex_of(hr as u32, 8)
}

/// Formats a status code as `0x` plus eight zero-padded uppercase
/// hexadecimal digits.  Total: every 32-bit code yields exactly ten
/// characters, the last eight of them uppercase hexadecimal digits.
pub fn hresult_to_hex(hr: i32) -> (r: String)
    ensures
        r@ == status_text(hr),
        r@.len() == 10,
        r@[0] == '0' && r@[1] == 'x',
        forall|i: int| 2 <= i < 10 ==> is_upper_hex_digit(#[trigger] r@[i]),
{
    let mut s = String::new();
    proof {
        reveal_strlit("0x");
        assert("0x"@ =~= seq!['0', 'x']);
    }
    s.append("0x");
    append_hex(&mut s, hr as u32, 8);
    proof {
        assert(s@ =~= status_text(hr));
        assert forall|i: int| 2 <= i < 10 implies is_upper_hex_digit(#[trigger] s@[i]) by {
            let k: u32 = ((8 - 1 - (i - 2)) * 4) as u32;
            lemma_nibble_at_bound(hr as u32, k);
            assert(s@[i] == hex_char(nibble_at(hr as u32, k) as int));
            lemma_hex_char_is_digit(nibble_at(hr as u32, k) as int);
        }
    }
    s
}

} // verus!
