//! Uppercase hexadecimal rendering of machine integers, digit by digit.

use vstd::prelude::*;

verus! {

/// The uppercase hexadecimal digit for a value between 0 and 15.
pub open spec fn hex_char(d: int) -> char {
    if d == 0 {
        '0'
    } else if d == 1 {
        '1'
    } else if d == 2 {
        '2'
    } else if d == 3 {
        '3'
    } else if d == 4 {
        '4'
    } else if d == 5 {
        '5'
    } else if d == 6 {
        '6'
    } else if d == 7 {
        '7'
    } else if d == 8 {
        '8'
    } else if d == 9 {
        '9'
    } else if d == 10 {
        'A'
    } else if d == 11 {
        'B'
    } else if d == 12 {
        'C'
    } else if d == 13 {
        'D'
    } else if d == 14 {
        'E'
    } else {
        'F'
    }
}

pub open spec fn is_upper_hex_digit(c: char) -> bool {
    ('0' <= c && c <= '9') || ('A' <= c && c <= 'F')
}

pub proof fn lemma_hex_char_is_digit(d: int)
    requires
        0 <= d < 16,
    ensures
        is_upper_hex_digit(hex_char(d)),
{
}

/// The nibble of `v` that sits `k` bits above the least significant bit.
pub open spec fn nibble_at(v: u32, k: u32) -> u32 {
    (v >> k) & 0xF
}

pub proof fn lemma_nibble_at_bound(v: u32, k: u32)
    ensures
        nibble_at(v, k) < 16,
{
    assert((v >> k) & 0xF < 16) by (bit_vector);
}

/// The most significant `n` nibbles of `v` written as uppercase hexadecimal
/// characters, where `v` is read as an `n`-nibble value.
pub open spec fn hex_of(v: u32, n: nat) -> Seq<char>
    recommends
        n <= 8,
{
    Seq::new(n, |i: int| hex_char(nibble_at(v, (((n - 1 - i) * 4)) as u32) as int))
}

/// The one-character string for a hexadecimal digit value.
pub fn hex_digit_str(d: u8) -> (r: &'static str)
    requires
        d < 16,
    ensures
        r@ == seq![hex_char(d as int)],
{
    match d {
        0 => {
            proof {
                reveal_strlit("0");
                assert("0"@ =~= seq![hex_char(0)]);
            }
            "0"
        },
        1 => {
            proof {
                reveal_strlit("1");
                assert("1"@ =~= seq![hex_char(1)]);
            }
            "1"
        },
        2 => {
            proof {
                reveal_strlit("2");
                assert("2"@ =~= seq![hex_char(2)]);
            }
            "2"
        },
        3 => {
            proof {
                reveal_strlit("3");
                assert("3"@ =~= seq![hex_char(3)]);
            }
            "3"
        },
        4 => {
            proof {
                reveal_strlit("4");
                assert("4"@ =~= seq![hex_char(4)]);
            }
            "4"
        },
        5 => {
            proof {
                reveal_strlit("5");
                assert("5"@ =~= seq![hex_char(5)]);
            }
            "5"
        },
        6 => {
            proof {
                reveal_strlit("6");
                assert("6"@ =~= seq![hex_char(6)]);
            }
            "6"
        },
        7 => {
            proof {
                reveal_strlit("7");
                assert("7"@ =~= seq![hex_char(7)]);
            }
            "7"
        },
        8 => {
            proof {
                reveal_strlit("8");
                assert("8"@ =~= seq![hex_char(8)]);
            }
            "8"
        },
        9 => {
            proof {
                reveal_strlit("9");
                assert("9"@ =~= seq![hex_char(9)]);
            }
            "9"
        },
        10 => {
            proof {
                reveal_strlit("A");
                assert("A"@ =~= seq![hex_char(10)]);
            }
            "A"
        },
        11 => {
            proof {
                reveal_strlit("B");
                assert("B"@ =~= seq![hex_char(11)]);
            }
            "B"
        },
        12 => {
            proof {
                reveal_strlit("C");
                assert("C"@ =~= seq![hex_char(12)]);
            }
            "C"
        },
        13 => {
            proof {
                reveal_strlit("D");
                assert("D"@ =~= seq![hex_char(13)]);
            }
            "D"
        },
        14 => {
            proof {
                reveal_strlit("E");
                assert("E"@ =~= seq![hex_char(14)]);
            }
            "E"
        },
        _ => {
            proof {
                reveal_strlit("F");
                assert("F"@ =~= seq![hex_char(15)]);
            }
            "F"
        },
    }
}

/// Appends the `digits`-nibble uppercase hexadecimal rendering of `v` to `s`.
pub fn append_hex(s: &mut String, v: u32, digits: usize)
    requires
        1 <= digits <= 8,
    ensures
        final(s)@ == old(s)@ + hex_of(v, digits as nat),
{
    let ghost base: Seq<char> = s@;
    let mut i: usize = 0;
    while i < digits
        invariant
            1 <= digits <= 8,
            i <= digits,
            s@ == base + Seq::new(
                i as nat,
                |j: int| hex_char(nibble_at(v, (((digits - 1 - j) * 4)) as u32) as int),
            ),
        decreases digits - i,
    {
        let k: u32 = ((digits - 1 - i) as u32) * 4;
        let nib: u32 = (v >> k) & 0xF;
        proof {
            lemma_nibble_at_bound(v, k);
        }
        let d: &'static str = hex_digit_str(nib as u8);
        s.append(d);
        proof {
            assert(s@ =~= base + Seq::new(
                (i + 1) as nat,
                |j: int| hex_char(nibble_at(v, (((digits - 1 - j) * 4)) as u32) as int),
            ));
        }
        i = i + 1;
    }
    proof {
        assert(s@ =~= base + hex_of(v, digits as nat));
    }
}

} // verus!
