//! Unique identifiers of telemetry items.
use vstd::prelude::*;

use vstd::string::*;

verus! {

/// A 128-bit universally unique identifier.
#[derive(Debug, Clone, Copy, PartialEq, Eq, Structural)]
pub struct Uuid {
    bits: u128,
}

impl View for Uuid {
    type V = u128;

    closed spec fn view(&self) -> u128 {
        self.bits
    }
}

/// The version number a UUID carries in its bits 76 to 79.
pub open spec fn version_of(bits: u128) -> u128 {
    (bits >> 76u128) & 0xf
}

/// The variant a UUID carries in its bits 62 and 63.
pub open spec fn variant_of(bits: u128) -> u128 {
    (bits >> 62u128) & 0x3
}

/// Generates a new instance of unique identifier with `uuid::Uuid::new_v4`
/// and keeps its value (`Uuid::as_u128`). Its bits are random, apart from
/// those `new_v4` sets: version 4 and the RFC 4122 variant (`0b10`).
#[verifier::external_body]
pub fn new() -> (r: Uuid)
    ensures
        version_of(r@) == 4,
        variant_of(r@) == 2,
{
    Uuid { bits: uuid::Uuid::new_v4().as_u128() }
}

/// Lowercase hexadecimal digit of `d`.
pub open spec fn hex_char(d: u128) -> char {
    if d < 10 {
        (48 + d) as char
    } else {
        (87 + d) as char
    }
}

/// The `n`-th hexadecimal digit of `bits`, most significant first.
pub open spec fn nibble(bits: u128, n: int) -> u128 {
    (bits >> ((124 - 4 * n) as u128)) & 0xf
}

/// Whether a dash stands at position `p` of the hyphenated form.
pub open spec fn is_dash_position(p: int) -> bool {
    p == 8 || p == 13 || p == 18 || p == 23
}

/// Which hexadecimal digit stands at position `p` of the hyphenated form.
pub open spec fn digit_at(p: int) -> int {
    if p < 8 {
        p
    } else if p < 13 {
        p - 1
    } else if p < 18 {
        p - 2
    } else if p < 23 {
        p - 3
    } else {
        p - 4
    }
}

/// The hyphenated form: 32 lowercase hexadecimal digits, most significant
/// first, in groups of 8, 4, 4, 4 and 12 separated by dashes.
pub open spec fn hyphenated(bits: u128) -> Seq<char> {
    Seq::new(
        36,
        |p: int|
            if is_dash_position(p) {
                '-'
            } else {
                hex_char(nibble(bits, digit_at(p)))
            },
    )
}

/// The one-character text of hexadecimal digit `d`.
fn hex_text(d: u128) -> (r: &'static str)
    requires
        d < 16,
    ensures
        r@ == seq![hex_char(d)],
{
    proof {
        reveal_strlit("0");
        reveal_strlit("1");
        reveal_strlit("2");
        reveal_strlit("3");
        reveal_strlit("4");
        reveal_strlit("5");
        reveal_strlit("6");
        reveal_strlit("7");
        reveal_strlit("8");
        reveal_strlit("9");
        reveal_strlit("a");
        reveal_strlit("b");
        reveal_strlit("c");
        reveal_strlit("d");
        reveal_strlit("e");
        reveal_strlit("f");
    }
    match d {
        0 => "0",
        1 => "1",
        2 => "2",
        3 => "3",
        4 => "4",
        5 => "5",
        6 => "6",
        7 => "7",
        8 => "8",
        9 => "9",
        10 => "a",
        11 => "b",
        12 => "c",
        13 => "d",
        14 => "e",
        _ => "f",
    }
}


/// Value of a lowercase hexadecimal digit character.
pub open spec fn hex_value(c: char) -> int {
    if '0' <= c && c <= '9' {
        c as int - 48
    } else {
        c as int - 87
    }
}

/// Whether `c` is a lowercase hexadecimal digit.
pub open spec fn is_lower_hex(c: char) -> bool {
    ('0' <= c && c <= '9') || ('a' <= c && c <= 'f')
}

/// Value of a sequence of hexadecimal digits, most significant first.
pub open spec fn hex_digits_value(s: Seq<char>) -> int
    decreases s.len(),
{
    if s.len() == 0 {
        0
    } else {
        hex_digits_value(s.drop_last()) * 16 + hex_value(s.last())
    }
}

/// The text with the characters at positions 8, 13, 18 and 23 taken out.
pub open spec fn without_group_dashes(s: Seq<char>) -> Seq<char> {
    s.remove(23).remove(18).remove(13).remove(8)
}

proof fn lemma_hex_char_value(d: u128)
    requires
        d < 16,
    ensures
        is_lower_hex(hex_char(d)),
        hex_value(hex_char(d)) == d,
{
}

proof fn lemma_shift_step(x: u128, s: u128)
    by (bit_vector)
    requires
        s <= 120,
    ensures
        (x >> (s + 4)) * 16 + ((x >> s) & 0xf) == x >> s,
{
}

proof fn lemma_nibble_bound(x: u128, s: u128)
    by (bit_vector)
    ensures
        (x >> s) & 0xf < 16,
{
}

proof fn lemma_top_nibble(x: u128)
    by (bit_vector)
    ensures
        (x >> 124u128) & 0xf == x >> 124u128,
        x >> 0u128 == x,
{
}

proof fn lemma_prefix_value(bits: u128, j: int)
    requires
        1 <= j <= 32,
    ensures
        hex_digits_value(Seq::new(32, |k: int| hex_char(nibble(bits, k))).take(j)) == bits >> ((128
            - 4 * j) as u128),
    decreases j,
{
    let d = Seq::new(32, |k: int| hex_char(nibble(bits, k)));
    lemma_nibble_bound(bits, (124 - 4 * (j - 1)) as u128);
    lemma_hex_char_value(nibble(bits, j - 1));
    if j == 1 {
        lemma_top_nibble(bits);
        assert(d.take(1).drop_last() =~= Seq::<char>::empty());
        assert(hex_digits_value(d.take(1).drop_last()) == 0);
        assert(d.take(1).last() == d[0]);
        assert(hex_value(d[0]) == nibble(bits, 0));
        assert(nibble(bits, 0) == (bits >> 124u128) & 0xf);
        assert(hex_digits_value(d.take(1)) == bits >> 124u128);
    } else {
        lemma_prefix_value(bits, j - 1);
        let s = (128 - 4 * j) as u128;
        lemma_shift_step(bits, s);
        assert(d.take(j).drop_last() =~= d.take(j - 1));
        assert((s + 4) as u128 == (128 - 4 * (j - 1)) as u128);
        assert(d.take(j).last() == d[j - 1]);
        assert(hex_value(d[j - 1]) == nibble(bits, j - 1));
        assert(nibble(bits, j - 1) == (bits >> s) & 0xf);
        assert(hex_digits_value(d.take(j)) == hex_digits_value(d.take(j - 1)) * 16 + nibble(bits, j - 1));
    }
}

/// Law: the hyphenated form is 36 characters with dashes at positions 8,
/// 13, 18 and 23; the other 32 are lowercase hexadecimal digits which, read
/// most significant first, give back the identifier's 128 bits.
pub proof fn lemma_hyphenated_reads_back(bits: u128)
    ensures
        hyphenated(bits).len() == 36,
        hyphenated(bits)[8] == '-' && hyphenated(bits)[13] == '-' && hyphenated(bits)[18] == '-'
            && hyphenated(bits)[23] == '-',
        without_group_dashes(hyphenated(bits)).len() == 32,
        forall|k: int|
            0 <= k < 32 ==> is_lower_hex(#[trigger] without_group_dashes(hyphenated(bits))[k]),
        hex_digits_value(without_group_dashes(hyphenated(bits))) == bits,
{
    let h = hyphenated(bits);
    let d = Seq::new(32, |k: int| hex_char(nibble(bits, k)));
    assert(without_group_dashes(h) =~= d) by {
        assert forall|k: int| 0 <= k < 32 implies without_group_dashes(h)[k] == d[k] by {
            let p = if k < 8 {
                k
            } else if k < 12 {
                k + 1
            } else if k < 16 {
                k + 2
            } else if k < 20 {
                k + 3
            } else {
                k + 4
            };
            assert(without_group_dashes(h)[k] == h[p]);
            assert(digit_at(p) == k);
        }
    }
    assert forall|k: int| 0 <= k < 32 implies is_lower_hex(#[trigger] d[k]) by {
        lemma_nibble_bound(bits, (124 - 4 * k) as u128);
        lemma_hex_char_value(nibble(bits, k));
    }
    lemma_prefix_value(bits, 32);
    lemma_top_nibble(bits);
    assert(d.take(32) =~= d);
}

impl Uuid {
    /// The identifier with these 128 bits.
    pub fn from_u128(bits: u128) -> (r: Uuid)
        ensures
            r@ == bits,
    {
        Uuid { bits }
    }

    /// The 128 bits of the identifier.
    pub fn as_u128(&self) -> (r: u128)
        ensures
            r == self@,
    {
        self.bits
    }

    /// The identifier in its hyphenated text form.
    pub fn to_hyphenated_string(&self) -> (r: String)
        ensures
            r@ == hyphenated(self@),
    {
        let bits = self.bits;
        let mut out = String::new();
        let mut n: usize = 0;
        while n < 32
            invariant
                0 <= n <= 32,
                bits == self@,
                out@.len() == n + (if n > 20 { 4int } else if n > 16 { 3int } else if n > 12 {
                    2int
                } else if n > 8 {
                    1int
                } else {
                    0int
                }),
                out@ =~= hyphenated(bits).take(out@.len() as int),
            decreases 32 - n,
        {
            proof {
                reveal_strlit("-");
            }
            if n == 8 || n == 12 || n == 16 || n == 20 {
                out.append("-");
            }
            let shift: u128 = 124 - 4 * n as u128;
            let d = (bits >> shift) & 0xf;
            assert(d < 16) by (bit_vector)
                requires
                    d == (bits >> shift) & 0xf,
            ;
            out.append(hex_text(d));
            n += 1;
        }
        out
    }
}

} // verus!
