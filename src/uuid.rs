//! The text form of a 128-bit identifier: 32 lowercase hex digits grouped
//! 8-4-4-4-12 by dashes. Parsing accepts either case and nothing else.
use vstd::prelude::*;
use vstd::utf8::{
    valid_utf8, decode_utf8, encode_utf8, partial_valid_utf8, partial_valid_utf8_extend_ascii_block,
    is_leading_byte_width_1, decode_utf8_encode_utf8,
};
use vstd::arithmetic::div_mod::{lemma_div_denominator, lemma_fundamental_div_mod};
use crate::primitives::{UUID4, utf8_str};

verus! {

pub open spec fn pow16(k: nat) -> nat
    decreases k,
{
    if k == 0 {
        1
    } else {
        16 * pow16((k - 1) as nat)
    }
}

/// Hex digit `k` of `x`, counting from the most significant.
pub open spec fn nibble(x: u128, k: nat) -> nat {
    (x as nat / pow16((31 - k) as nat)) % 16
}

pub open spec fn hex_byte(n: nat) -> u8 {
    if n < 10 {
        (48 + n) as u8
    } else {
        (87 + n) as u8
    }
}

pub open spec fn hex_val(b: u8) -> Option<nat> {
    if 48 <= b <= 57 {
        Some((b - 48) as nat)
    } else if 97 <= b <= 102 {
        Some((b - 87) as nat)
    } else if 65 <= b <= 70 {
        Some((b - 55) as nat)
    } else {
        None
    }
}

pub open spec fn is_dash_pos(i: int) -> bool {
    i == 8 || i == 13 || i == 18 || i == 23
}

/// Which digit stands at text position `i`.
pub open spec fn digit_index(i: int) -> int {
    i - (if i > 23 {
        4int
    } else if i > 18 {
        3int
    } else if i > 13 {
        2int
    } else if i > 8 {
        1int
    } else {
        0int
    })
}

/// Where digit `k` stands in the text.
pub open spec fn digit_pos(k: int) -> int {
    k + (if k >= 20 {
        4int
    } else if k >= 16 {
        3int
    } else if k >= 12 {
        2int
    } else if k >= 8 {
        1int
    } else {
        0int
    })
}

/// The text form of `x`, as ASCII bytes.
pub open spec fn uuid_text(x: u128) -> Seq<u8> {
    Seq::new(
        36,
        |i: int|
            if is_dash_pos(i) {
                45u8
            } else {
                hex_byte(nibble(x, digit_index(i) as nat))
            },
    )
}

pub open spec fn uuid_text_ok(b: Seq<u8>) -> bool {
    &&& b.len() == 36
    &&& forall|i: int|
        0 <= i < 36 ==> if is_dash_pos(i) {
            #[trigger] b[i] == 45
        } else {
            hex_val(b[i]) is Some
        }
}

/// The number that the first `k` digits spell.
pub open spec fn uuid_value(b: Seq<u8>, k: nat) -> nat
    decreases k,
{
    if k == 0 {
        0
    } else {
        uuid_value(b, (k - 1) as nat) * 16 + hex_val(b[digit_pos(k - 1)])->Some_0
    }
}

/// The identifier that a text names, or nothing when it is malformed.
pub open spec fn spec_uuid_parse(b: Seq<u8>) -> Option<u128> {
    if uuid_text_ok(b) {
        Some(uuid_value(b, 32) as u128)
    } else {
        None
    }
}

proof fn lemma_pow16_32()
    ensures
        pow16(32) == 0x1_0000_0000_0000_0000_0000_0000_0000_0000,
{
    reveal_with_fuel(pow16, 33);
}

proof fn lemma_pow16_positive(k: nat)
    ensures
        pow16(k) > 0,
    decreases k,
{
    if k > 0 {
        lemma_pow16_positive((k - 1) as nat);
    }
}

proof fn lemma_uuid_value(x: u128, k: nat)
    requires
        k <= 32,
    ensures
        uuid_value(uuid_text(x), k) == x as nat / pow16((32 - k) as nat),
    decreases k,
{
    let t = uuid_text(x);
    if k == 0 {
        lemma_pow16_32();
        assert(x as nat / pow16(32) == 0) by (nonlinear_arith)
            requires
                x < pow16(32),
        ;
    } else {
        lemma_uuid_value(x, (k - 1) as nat);
        let j = (32 - k) as nat;
        lemma_pow16_positive(j);
        let a = x as nat / pow16(j);
        assert(digit_index(digit_pos(k - 1)) == k - 1);
        assert(!is_dash_pos(digit_pos(k - 1)));
        assert(t[digit_pos(k - 1)] == hex_byte(nibble(x, (k - 1) as nat)));
        assert((31 - (k - 1)) as nat == j);
        assert(hex_val(hex_byte(nibble(x, (k - 1) as nat))) == Some(a % 16));
        lemma_div_denominator(x as int, pow16(j) as int, 16);
        assert(pow16(j + 1) == pow16(j) * 16);
        assert(x as nat / pow16(j + 1) == a / 16);
        lemma_fundamental_div_mod(a as int, 16);
    }
}

/// The text form of an identifier parses back to it.
pub proof fn lemma_uuid_text_round_trip(x: u128)
    ensures
        spec_uuid_parse(uuid_text(x)) == Some(x),
        valid_utf8(uuid_text(x)),
        encode_utf8(decode_utf8(uuid_text(x))) == uuid_text(x),
{
    let t = uuid_text(x);
    assert forall|i: int| 0 <= i < 36 && !is_dash_pos(i) implies hex_val(t[i]) is Some by {
        let n = nibble(x, digit_index(i) as nat);
        assert(n < 16);
    }
    lemma_uuid_value(x, 32);
    assert(pow16(0) == 1);
    assert(x as nat / 1 == x);
    assert forall|i: int| 0 <= 0 <= i < 36 <= t.len() implies #[trigger] is_leading_byte_width_1(
        t[i],
    ) by {
        if !is_dash_pos(i) {
            assert(nibble(x, digit_index(i) as nat) < 16);
        }
    }
    assert(t.subrange(0, 0) =~= Seq::<u8>::empty());
    assert(valid_utf8(Seq::<u8>::empty()));
    assert(partial_valid_utf8(t, 0));
    partial_valid_utf8_extend_ascii_block(t, 0, 36);
    assert(t.subrange(0, 36) =~= t);
    decode_utf8_encode_utf8(t);
}

fn hex_val_exec(b: u8) -> (r: Option<u8>)
    ensures
        match hex_val(b) {
            Some(v) => r == Some(v as u8),
            None => r is None,
        },
{
    if 48 <= b && b <= 57 {
        Some(b - 48)
    } else if 97 <= b && b <= 102 {
        Some(b - 87)
    } else if 65 <= b && b <= 70 {
        Some(b - 55)
    } else {
        None
    }
}

impl UUID4 {
    /// The text form, as ASCII bytes.
    pub fn text_bytes(&self) -> (r: Vec<u8>)
        ensures
            r@ == uuid_text(self.raw),
    {
        let x = self.raw;
        let mut digits: Vec<u8> = vec![0u8; 32];
        let mut y: u128 = x;
        let mut k: usize = 32;
        proof {
            assert(pow16(0) == 1);
            assert(x as nat / pow16(0) == x as nat);
        }
        while k > 0
            invariant
                k <= 32,
                digits@.len() == 32,
                y as nat == x as nat / pow16((32 - k) as nat),
                forall|j: int| k <= j < 32 ==> #[trigger] digits@[j] == hex_byte(nibble(x, j as nat)),
            decreases k,
        {
            let d: u8 = (y % 16) as u8;
            let h: u8 = if d < 10 {
                48 + d
            } else {
                87 + d
            };
            proof {
                let j = (32 - k) as nat;
                lemma_pow16_positive(j);
                assert((31 - (k - 1)) as nat == j);
                lemma_div_denominator(x as int, pow16(j) as int, 16);
                assert(pow16(j + 1) == pow16(j) * 16);
            }
            digits.set(k - 1, h);
            y = y / 16;
            k = k - 1;
        }
        let mut out: Vec<u8> = Vec::new();
        let mut i: usize = 0;
        while i < 36
            invariant
                i <= 36,
                digits@.len() == 32,
                forall|j: int| 0 <= j < 32 ==> #[trigger] digits@[j] == hex_byte(nibble(x, j as nat)),
                out@ =~= uuid_text(x).take(i as int),
            decreases 36 - i,
        {
            if i == 8 || i == 13 || i == 18 || i == 23 {
                out.push(45u8);
            } else {
                let k: usize = if i > 23 {
                    i - 4
                } else if i > 18 {
                    i - 3
                } else if i > 13 {
                    i - 2
                } else if i > 8 {
                    i - 1
                } else {
                    i
                };
                out.push(digits[k]);
            }
            i = i + 1;
        }
        assert(out@ =~= uuid_text(x));
        out
    }

    /// The text form: 32 lowercase hex digits grouped 8-4-4-4-12.
    pub fn to_string(&self) -> (r: String)
        ensures
            r@ == decode_utf8(uuid_text(self.raw)),
            encode_utf8(r@) == uuid_text(self.raw),
    {
        let bytes = self.text_bytes();
        proof {
            lemma_uuid_text_round_trip(self.raw);
        }
        match utf8_str(bytes.as_slice()) {
            Some(s) => s.to_owned(),
            None => String::new(),
        }
    }

    /// Reads the text form; anything else, including a string with the
    /// wrong length, grouping or digits, is refused.
    pub fn parse(s: &str) -> (r: Option<UUID4>)
        ensures
            match spec_uuid_parse(encode_utf8(s@)) {
                Some(x) => r == Some(UUID4 { raw: x }),
                None => r is None,
            },
    {
        let b = s.as_bytes();
        if b.len() != 36 {
            return None;
        }
        let mut acc: u128 = 0;
        let mut i: usize = 0;
        let mut k: usize = 0;
        proof {
            lemma_pow16_32();
        }
        while i < 36
            invariant
                b@ == encode_utf8(s@),
                b@.len() == 36,
                i <= 36,
                k == digit_index(i as int) || (i == 36 && k == 32) || (is_dash_pos(i as int) && k
                    == digit_index(i as int)),
                k <= 32,
                k as int == i - (if i > 23 {
                    4int
                } else if i > 18 {
                    3int
                } else if i > 13 {
                    2int
                } else if i > 8 {
                    1int
                } else {
                    0int
                }),
                forall|j: int|
                    0 <= j < i ==> if is_dash_pos(j) {
                        #[trigger] b@[j] == 45
                    } else {
                        hex_val(b@[j]) is Some
                    },
                acc == uuid_value(b@, k as nat),
                acc < pow16(k as nat),
                pow16(32) == 0x1_0000_0000_0000_0000_0000_0000_0000_0000,
            decreases 36 - i,
        {
            if i == 8 || i == 13 || i == 18 || i == 23 {
                if b[i] != 45 {
                    return None;
                }
            } else {
                match hex_val_exec(b[i]) {
                    None => {
                        return None;
                    },
                    Some(v) => {
                        proof {
                            assert(digit_pos(k as int) == i);
                            lemma_pow16_monotonic((k + 1) as nat, 32);
                            assert(acc * 16 + v < 16 * pow16(k as nat)) by (nonlinear_arith)
                                requires
                                    acc < pow16(k as nat),
                                    v < 16,
                            ;
                        }
                        acc = acc * 16 + v as u128;
                        k = k + 1;
                    },
                }
            }
            i = i + 1;
        }
        assert(uuid_text_ok(b@));
        Some(UUID4 { raw: acc })
    }
}

proof fn lemma_pow16_monotonic(a: nat, b: nat)
    requires
        a <= b,
    ensures
        pow16(a) <= pow16(b),
    decreases b,
{
    if a < b {
        lemma_pow16_monotonic(a, (b - 1) as nat);
    }
}

} // verus!
