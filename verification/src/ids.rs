//! Identifiers for recordings and tokens, and their textual forms.
//!
//! Both kinds of identifier are 128-bit values shown in the usual
//! hyphenated form, 32 lowercase hex digits in groups of 8-4-4-4-12.

use vstd::prelude::*;

verus! {

use vstd::string::StringExecFns;

/// Identifies one recording.
#[derive(Clone, Copy, Debug, PartialEq, Eq, Hash, Structural)]
pub struct RecordingId {
    pub value: u128,
}

/// Identifies one consent token.
#[derive(Clone, Copy, Debug, PartialEq, Eq, Hash, Structural)]
pub struct TokenId {
    pub value: u128,
}

/// The character for one value below sixteen: `0`-`9`, then `a`-`f`.
pub open spec fn hex_digit_char(n: u8) -> char {
    if n == 0 {
        '0'
    } else if n == 1 {
        '1'
    } else if n == 2 {
        '2'
    } else if n == 3 {
        '3'
    } else if n == 4 {
        '4'
    } else if n == 5 {
        '5'
    } else if n == 6 {
        '6'
    } else if n == 7 {
        '7'
    } else if n == 8 {
        '8'
    } else if n == 9 {
        '9'
    } else if n == 10 {
        'a'
    } else if n == 11 {
        'b'
    } else if n == 12 {
        'c'
    } else if n == 13 {
        'd'
    } else if n == 14 {
        'e'
    } else {
        'f'
    }
}

/// How many hyphens the hyphenated form has before position `i`.
pub open spec fn hyphens_before(i: int) -> int {
    if i < 9 {
        0
    } else if i < 14 {
        1
    } else if i < 19 {
        2
    } else if i < 24 {
        3
    } else {
        4
    }
}

/// The hex digit (0 = most significant) shown at position `i` of the
/// hyphenated form, for positions that are not hyphens.
pub open spec fn hex_position(i: int) -> int {
    i - hyphens_before(i)
}

/// Hex digit `k` of `v`, counting from the most significant.
pub open spec fn nibble(v: u128, k: int) -> u8 {
    (((v >> (((31 - k) * 4) as u128)) & 0xf) as u8)
}

/// The character at position `i` of the hyphenated form of `v`.
pub open spec fn uuid_char_at(v: u128, i: int) -> char {
    if i == 8 || i == 13 || i == 18 || i == 23 {
        '-'
    } else {
        hex_digit_char(nibble(v, hex_position(i)))
    }
}

/// The hyphenated form of `v`: 36 characters, hyphens at positions 8,
/// 13, 18 and 23.
pub open spec fn uuid_seq(v: u128) -> Seq<char> {
    Seq::new(36, |i: int| uuid_char_at(v, i))
}

/// Appends the single character for a value below sixteen.
fn append_hex_digit(out: &mut String, d: u8)
    requires
        d < 16,
    ensures
        final(out)@ == old(out)@ + seq![hex_digit_char(d)],
{
    proof {
        reveal_strlit("0");
        reveal_strlit("1");
        reveal_strlit("2");
        reveal_strlit("3");
        reveal_strlit("4");
        reveal_strlit("5");
        reveal_strlit("6");
        reveal_strlit("7");
        reveal_strlit("8");
        reveal_strlit("9");
        reveal_strlit("a");
        reveal_strlit("b");
        reveal_strlit("c");
        reveal_strlit("d");
        reveal_strlit("e");
        reveal_strlit("f");
    }
    if d == 0 {
        out.append("0");
    } else if d == 1 {
        out.append("1");
    } else if d == 2 {
        out.append("2");
    } else if d == 3 {
        out.append("3");
    } else if d == 4 {
        out.append("4");
    } else if d == 5 {
        out.append("5");
    } else if d == 6 {
        out.append("6");
    } else if d == 7 {
        out.append("7");
    } else if d == 8 {
        out.append("8");
    } else if d == 9 {
        out.append("9");
    } else if d == 10 {
        out.append("a");
    } else if d == 11 {
        out.append("b");
    } else if d == 12 {
        out.append("c");
    } else if d == 13 {
        out.append("d");
    } else if d == 14 {
        out.append("e");
    } else {
        out.append("f");
    }
    proof {
        assert(final(out)@ =~= old(out)@ + seq![hex_digit_char(d)]);
    }
}

/// The hyphenated textual form of a 128-bit identifier.
pub fn hyphenated_text(v: u128) -> (r: String)
    ensures
        r@ == uuid_seq(v),
{
    let mut out = String::new();
    let mut i: usize = 0;
    while i < 36
        invariant
            i <= 36,
            out@ =~= uuid_seq(v).subrange(0, i as int),
        decreases 36 - i,
    {
        if i == 8 || i == 13 || i == 18 || i == 23 {
            proof {
                reveal_strlit("-");
            }
            out.append("-");
            proof {
                assert(out@ =~= uuid_seq(v).subrange(0, i as int) + seq!['-']);
            }
        } else {
            let hb: u128 = if i < 9 {
                0
            } else if i < 14 {
                1
            } else if i < 19 {
                2
            } else if i < 24 {
                3
            } else {
                4
            };
            let pos: u128 = (i as u128) - hb;
            let sh: u128 = (31 - pos) * 4;
            let masked: u128 = (v >> sh) & 0xf;
            assert((v >> sh) & 0xf < 16) by (bit_vector);
            let d: u8 = masked as u8;
            assert(d == nibble(v, hex_position(i as int)));
            append_hex_digit(&mut out, d);
        }
        proof {
            assert(uuid_seq(v).subrange(0, i + 1 as int) =~= uuid_seq(v).subrange(0, i as int)
                + seq![uuid_char_at(v, i as int)]);
            assert(out@ =~= uuid_seq(v).subrange(0, i + 1 as int));
        }
        i = i + 1;
    }
    proof {
        assert(out@ =~= uuid_seq(v));
    }
    out
}

impl RecordingId {
    pub fn new(value: u128) -> (r: Self)
        ensures
            r.value == value,
    {
        RecordingId { value }
    }

    /// The hyphenated textual form of this identifier.
    pub fn text(&self) -> (r: String)
        ensures
            r@ == uuid_seq(self.value),
    {
        hyphenated_text(self.value)
    }
}

impl TokenId {
    pub fn new(value: u128) -> (r: Self)
        ensures
            r.value == value,
    {
        TokenId { value }
    }

    /// The hyphenated textual form of this identifier.
    pub fn text(&self) -> (r: String)
        ensures
            r@ == uuid_seq(self.value),
    {
        hyphenated_text(self.value)
    }
}

/// The decimal form of `n`, most significant digit first.
pub open spec fn dec_seq(n: nat) -> Seq<char>
    decreases n,
{
    if n < 10 {
        seq![hex_digit_char(n as u8)]
    } else {
        dec_seq(n / 10) + seq![hex_digit_char((n % 10) as u8)]
    }
}

/// The decimal textual form of `n`.
pub fn decimal_text(n: u64) -> (r: String)
    ensures
        r@ == dec_seq(n as nat),
    decreases n,
{
    if n < 10 {
        let mut out = String::new();
        append_hex_digit(&mut out, n as u8);
        proof {
            assert(out@ =~= dec_seq(n as nat));
        }
        out
    } else {
        let mut out = decimal_text(n / 10);
        append_hex_digit(&mut out, (n % 10) as u8);
        proof {
            assert(out@ =~= dec_seq(n as nat));
        }
        out
    }
}

} // verus!
