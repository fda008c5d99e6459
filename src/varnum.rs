//! Variable-length signed integers: seven data bits per byte, least
//! significant group first, high bit set on every byte but the last. The
//! value's two's-complement bit pattern is what gets encoded, so a negative
//! number always takes the maximum byte count.
use vstd::prelude::*;
use crate::codec::{Codec, DeserializeErr, SpecResult, read_matches};

verus! {

/// A 32-bit integer on the wire in at most five bytes.
#[derive(Debug, Clone, Copy, PartialEq, Eq, Structural)]
pub struct VarInt(pub i32);

/// A 64-bit integer on the wire in at most ten bytes.
#[derive(Debug, Clone, Copy, PartialEq, Eq, Structural)]
pub struct VarLong(pub i64);

/// Most bytes a `VarInt` may take.
pub const VARINT_MAX_BYTES: usize = 5;

/// Most bytes a `VarLong` may take.
pub const VARLONG_MAX_BYTES: usize = 10;

pub open spec fn pow128(k: nat) -> nat
    decreases k,
{
    if k == 0 {
        1
    } else {
        128 * pow128((k - 1) as nat)
    }
}

/// The shortest encoding of a non-negative number.
pub open spec fn var_num_bytes(u: nat) -> Seq<u8>
    decreases u,
{
    if u < 128 {
        seq![u as u8]
    } else {
        seq![((u % 128) + 128) as u8] + var_num_bytes(u / 128)
    }
}

/// How many bytes the encoding at the front of `s` takes: it ends at the first
/// byte without the continuation bit, which must come within `max` bytes.
pub open spec fn var_num_end(s: Seq<u8>, max: nat) -> Result<nat, DeserializeErr>
    decreases max,
{
    if max == 0 {
        Err(DeserializeErr::VarNumTooLong)
    } else if s.len() == 0 {
        Err(DeserializeErr::Eof)
    } else if s[0] < 128 {
        Ok(1)
    } else {
        match var_num_end(s.drop_first(), (max - 1) as nat) {
            Ok(n) => Ok(n + 1),
            Err(e) => Err(e),
        }
    }
}

/// The number that the first `n` bytes of `s` spell, low group first.
pub open spec fn var_num_digits(s: Seq<u8>, n: nat) -> nat
    decreases n,
{
    if n == 0 || s.len() == 0 {
        0
    } else {
        (s[0] % 128) as nat + 128 * var_num_digits(s.drop_first(), (n - 1) as nat)
    }
}

pub open spec fn spec_varint_serialize(v: i32) -> Seq<u8> {
    var_num_bytes((v as u32) as nat)
}

pub open spec fn spec_varint_deserialize(s: Seq<u8>) -> SpecResult<i32> {
    match var_num_end(s, 5) {
        Ok(n) => Ok((((var_num_digits(s, n) as u32) as i32), s.skip(n as int))),
        Err(e) => Err(e),
    }
}

pub open spec fn spec_varlong_serialize(v: i64) -> Seq<u8> {
    var_num_bytes((v as u64) as nat)
}

pub open spec fn spec_varlong_deserialize(s: Seq<u8>) -> SpecResult<i64> {
    match var_num_end(s, 10) {
        Ok(n) => Ok((((var_num_digits(s, n) as u64) as i64), s.skip(n as int))),
        Err(e) => Err(e),
    }
}

pub proof fn lemma_pow128_monotonic(a: nat, b: nat)
    requires
        a <= b,
    ensures
        pow128(a) <= pow128(b),
    decreases b,
{
    if a < b {
        lemma_pow128_monotonic(a, (b - 1) as nat);
    }
}

proof fn lemma_pow128_values()
    ensures
        pow128(4) == 0x1000_0000,
        pow128(5) == 0x8_0000_0000,
        pow128(9) == 0x8000_0000_0000_0000,
        pow128(10) == 0x40_0000_0000_0000_0000,
{
    reveal_with_fuel(pow128, 11);
}

/// The encoding of a number below `128^k` takes at most `k` bytes.
pub proof fn lemma_var_num_bytes_len(u: nat, k: nat)
    requires
        k >= 1,
        u < pow128(k),
    ensures
        1 <= var_num_bytes(u).len() <= k,
    decreases u,
{
    if u >= 128 {
        assert(k >= 2) by {
            if k == 1 {
                reveal_with_fuel(pow128, 2);
            }
        }
        assert(u / 128 < pow128((k - 1) as nat)) by (nonlinear_arith)
            requires
                u < 128 * pow128((k - 1) as nat),
        ;
        lemma_var_num_bytes_len(u / 128, (k - 1) as nat);
    }
}

/// The bytes that a read consumes end within `max` and within the input.
pub proof fn lemma_var_num_end_bounds(s: Seq<u8>, max: nat)
    ensures
        var_num_end(s, max) matches Ok(n) ==> 1 <= n <= max && n <= s.len(),
    decreases max,
{
    if max > 0 && s.len() > 0 && s[0] >= 128 {
        lemma_var_num_end_bounds(s.drop_first(), (max - 1) as nat);
    }
}

/// `n` bytes spell a number below `128^n`.
pub proof fn lemma_var_num_digits_bound(s: Seq<u8>, n: nat)
    ensures
        var_num_digits(s, n) < pow128(n),
    decreases n,
{
    if n > 0 && s.len() > 0 {
        let rest = var_num_digits(s.drop_first(), (n - 1) as nat);
        lemma_var_num_digits_bound(s.drop_first(), (n - 1) as nat);
        let d = (s[0] % 128) as nat;
        let p = pow128((n - 1) as nat);
        assert(d + 128 * rest < 128 * p) by (nonlinear_arith)
            requires
                d < 128,
                rest < p,
        ;
    } else {
        lemma_pow128_monotonic(0, n);
    }
}

/// Reading the shortest encoding of `u` consumes exactly it and spells `u`.
pub proof fn lemma_var_num_round_trip(u: nat, rest: Seq<u8>, max: nat)
    requires
        var_num_bytes(u).len() <= max,
    ensures
        var_num_end(var_num_bytes(u) + rest, max) == Ok::<nat, DeserializeErr>(
            var_num_bytes(u).len(),
        ),
        var_num_digits(var_num_bytes(u) + rest, var_num_bytes(u).len()) == u,
        (var_num_bytes(u) + rest).skip(var_num_bytes(u).len() as int) == rest,
    decreases u,
{
    let s = var_num_bytes(u) + rest;
    if u < 128 {
        assert(s[0] == u as u8);
        assert(s.drop_first().len() == rest.len());
        assert(var_num_digits(s.drop_first(), 0) == 0);
        assert(s.skip(1) =~= rest);
    } else {
        let tail = var_num_bytes(u / 128);
        assert(s.drop_first() =~= tail + rest);
        lemma_var_num_round_trip(u / 128, rest, (max - 1) as nat);
        assert(s.skip(var_num_bytes(u).len() as int) =~= (tail + rest).skip(tail.len() as int));
    }
}

spec fn shift_end(r: Result<nat, DeserializeErr>, k: nat) -> Result<nat, DeserializeErr> {
    match r {
        Ok(n) => Ok(n + k),
        Err(e) => Err(e),
    }
}

/// What the writer emits for a `VarInt` is never longer than any byte
/// sequence that the reader takes, in full, as the same number; the reader
/// also accepts such longer forms.
pub proof fn lemma_varint_minimal(s: Seq<u8>, v: i32)
    requires
        spec_varint_deserialize(s) == Ok::<(i32, Seq<u8>), DeserializeErr>((v, Seq::empty())),
    ensures
        spec_varint_serialize(v).len() <= s.len(),
{
    lemma_var_num_end_bounds(s, 5);
    let n = var_num_end(s, 5)->Ok_0;
    assert(s.skip(n as int).len() == 0);
    let d = var_num_digits(s, n);
    lemma_var_num_digits_bound(s, n);
    lemma_pow128_values();
    let u = (v as u32) as nat;
    if n == 5 {
        lemma_var_num_bytes_len(u, 5);
    } else {
        lemma_pow128_monotonic(n, 4);
        let du: u32 = d as u32;
        assert(du == d);
        assert((du as i32) == v);
        assert(du < 0x1000_0000u32 && (du as i32) == v ==> (v as u32) == du) by (bit_vector);
        lemma_var_num_bytes_len(u, n);
    }
}

/// What the writer emits for a `VarLong` is never longer than any byte
/// sequence that the reader takes, in full, as the same number.
pub proof fn lemma_varlong_minimal(s: Seq<u8>, v: i64)
    requires
        spec_varlong_deserialize(s) == Ok::<(i64, Seq<u8>), DeserializeErr>((v, Seq::empty())),
    ensures
        spec_varlong_serialize(v).len() <= s.len(),
{
    lemma_var_num_end_bounds(s, 10);
    let n = var_num_end(s, 10)->Ok_0;
    assert(s.skip(n as int).len() == 0);
    let d = var_num_digits(s, n);
    lemma_var_num_digits_bound(s, n);
    lemma_pow128_values();
    let u = (v as u64) as nat;
    if n == 10 {
        lemma_var_num_bytes_len(u, 10);
    } else {
        lemma_pow128_monotonic(n, 9);
        let du: u64 = d as u64;
        assert(du == d);
        assert((du as i64) == v);
        assert(du < 0x8000_0000_0000_0000u64 && (du as i64) == v ==> (v as u64) == du)
            by (bit_vector);
        lemma_var_num_bytes_len(u, n);
    }
}

/// The shortest encoding of `u` stretched by one redundant zero group: the
/// last byte gets the continuation bit and a zero byte follows.
pub open spec fn var_num_padded(u: nat) -> Seq<u8>
    decreases u,
{
    if u < 128 {
        seq![(u + 128) as u8, 0u8]
    } else {
        seq![((u % 128) + 128) as u8] + var_num_padded(u / 128)
    }
}

proof fn lemma_var_num_padded(u: nat, rest: Seq<u8>, max: nat)
    requires
        var_num_bytes(u).len() + 1 <= max,
    ensures
        var_num_padded(u).len() == var_num_bytes(u).len() + 1,
        var_num_end(var_num_padded(u) + rest, max) == Ok::<nat, DeserializeErr>(
            var_num_padded(u).len(),
        ),
        var_num_digits(var_num_padded(u) + rest, var_num_padded(u).len()) == u,
        (var_num_padded(u) + rest).skip(var_num_padded(u).len() as int) == rest,
    decreases u,
{
    let s = var_num_padded(u) + rest;
    if u < 128 {
        let t = s.drop_first();
        assert(t =~= seq![0u8] + rest);
        assert(t.drop_first() =~= rest);
        assert(var_num_digits(t.drop_first(), 0) == 0);
        assert(var_num_digits(t, 1) == 0);
        assert(s.skip(2) =~= rest);
    } else {
        let tail = var_num_padded(u / 128);
        assert(s.drop_first() =~= tail + rest);
        lemma_var_num_padded(u / 128, rest, (max - 1) as nat);
        assert(s.skip(var_num_padded(u).len() as int) =~= (tail + rest).skip(tail.len() as int));
    }
}

/// The reader accepts a non-minimal encoding too: any number below 2^28
/// written one group longer than it needs reads back as the same number.
pub proof fn lemma_varint_accepts_padding(v: i32, rest: Seq<u8>)
    requires
        0 <= v < 0x1000_0000,
    ensures
        var_num_padded(v as nat).len() == spec_varint_serialize(v).len() + 1,
        spec_varint_deserialize(var_num_padded(v as nat) + rest) == Ok::<(i32, Seq<u8>), DeserializeErr>(
            (v, rest),
        ),
{
    lemma_pow128_values();
    assert((v as u32) as nat == v as nat);
    lemma_var_num_bytes_len(v as nat, 4);
    lemma_var_num_padded(v as nat, rest, 5);
    assert(((v as nat) as u32) as i32 == v);
}

/// The writer's encoding takes the fewest 7-bit groups that hold `u`:
/// every byte but the last has the continuation bit, and the last is zero
/// only when it is the lone byte of the number zero.
pub proof fn lemma_var_num_bytes_shape(u: nat)
    ensures
        var_num_bytes(u).len() >= 1,
        u < pow128(var_num_bytes(u).len()),
        var_num_bytes(u).len() == 1 || u >= pow128((var_num_bytes(u).len() - 1) as nat),
        forall|i: int| 0 <= i < var_num_bytes(u).len() - 1 ==> #[trigger] var_num_bytes(u)[i] >= 128,
        var_num_bytes(u)[var_num_bytes(u).len() - 1] < 128,
        var_num_bytes(u)[var_num_bytes(u).len() - 1] == 0 ==> u == 0,
    decreases u,
{
    reveal_with_fuel(pow128, 2);
    if u >= 128 {
        let t = var_num_bytes(u / 128);
        let b = var_num_bytes(u);
        lemma_var_num_bytes_shape(u / 128);
        let m = t.len();
        let q = u / 128;
        let p = pow128(m);
        assert(u < 128 * p) by (nonlinear_arith)
            requires
                q < p,
                q == u / 128,
        ;
        if m > 1 {
            let p1 = pow128((m - 1) as nat);
            assert(u >= 128 * p1) by (nonlinear_arith)
                requires
                    q >= p1,
                    q == u / 128,
            ;
        }
        assert(b == seq![((u % 128) + 128) as u8] + t);
        assert forall|i: int| 0 <= i < b.len() - 1 implies #[trigger] b[i] >= 128 by {
            if i > 0 {
                assert(b[i] == t[i - 1]);
            }
        }
        assert(b[b.len() - 1] == t[m - 1]);
    }
}

/// A `VarInt` takes the fewest 7-bit groups that hold its bit pattern, and
/// never more than five bytes.
pub proof fn lemma_varint_shape(v: i32)
    ensures
        1 <= spec_varint_serialize(v).len() <= 5,
        (v as u32) < pow128(spec_varint_serialize(v).len()),
        spec_varint_serialize(v).len() == 1 || (v as u32) >= pow128(
            (spec_varint_serialize(v).len() - 1) as nat,
        ),
{
    lemma_pow128_values();
    lemma_var_num_bytes_shape((v as u32) as nat);
    lemma_var_num_bytes_len((v as u32) as nat, 5);
}

proof fn lemma_var_num_prefix(a: Seq<u8>, rest: Seq<u8>, max: nat)
    requires
        var_num_end(a, max) == Ok::<nat, DeserializeErr>(a.len()),
    ensures
        var_num_end(a + rest, max) == Ok::<nat, DeserializeErr>(a.len()),
        var_num_digits(a + rest, a.len()) == var_num_digits(a, a.len()),
    decreases max,
{
    lemma_var_num_end_bounds(a, max);
    let s = a + rest;
    assert(s[0] == a[0]);
    if a[0] < 128 {
        assert(var_num_digits(s.drop_first(), 0) == 0);
        assert(var_num_digits(a.drop_first(), 0) == 0);
    } else {
        assert(s.drop_first() =~= a.drop_first() + rest);
        lemma_var_num_prefix(a.drop_first(), rest, (max - 1) as nat);
    }
}

/// Whatever form the reader accepts for a number, longer than needed or
/// not, it reads that number back and leaves exactly what follows, so the
/// choice of form never changes a decode.
pub proof fn lemma_varint_any_form(a: Seq<u8>, v: i32, rest: Seq<u8>)
    requires
        spec_varint_deserialize(a) == Ok::<(i32, Seq<u8>), DeserializeErr>((v, Seq::empty())),
    ensures
        spec_varint_deserialize(a + rest) == Ok::<(i32, Seq<u8>), DeserializeErr>((v, rest)),
{
    lemma_var_num_end_bounds(a, 5);
    let n = var_num_end(a, 5)->Ok_0;
    assert(a.skip(n as int).len() == 0);
    lemma_var_num_prefix(a, rest, 5);
    assert((a + rest).skip(n as int) =~= rest);
}

/// Appends the shortest encoding of `u`.
fn write_var_num(u: u64, to: &mut Vec<u8>)
    ensures
        final(to)@ == old(to)@ + var_num_bytes(u as nat),
{
    let ghost start = to@;
    let mut x: u64 = u;
    while x >= 128
        invariant
            to@ + var_num_bytes(x as nat) == start + var_num_bytes(u as nat),
        decreases x,
    {
        let b: u8 = ((x % 128) + 128) as u8;
        let ghost before = to@;
        to.push(b);
        assert(to@ + var_num_bytes((x / 128) as nat) =~= before + var_num_bytes(x as nat));
        x = x / 128;
    }
    let ghost before = to@;
    to.push(x as u8);
    assert(to@ =~= before + var_num_bytes(x as nat));
}

/// Reads a variable-length number of at most `max` bytes, giving the number
/// its bytes spell before any truncation.
fn read_var_num(data: &[u8], max: usize) -> (r: Result<(u128, &[u8]), DeserializeErr>)
    requires
        1 <= max <= 10,
    ensures
        match r {
            Ok((acc, rest)) => var_num_end(data@, max as nat) matches Ok(n) && acc
                == var_num_digits(data@, n) && rest@ == data@.skip(n as int),
            Err(e) => var_num_end(data@, max as nat) == Err::<nat, DeserializeErr>(e),
        },
{
    let mut i: usize = 0;
    assert(data@.skip(0) =~= data@);
    while i < max && i < data.len() && data[i] >= 128
        invariant
            i <= max <= 10,
            i <= data.len(),
            var_num_end(data@, max as nat) == shift_end(
                var_num_end(data@.skip(i as int), (max - i) as nat),
                i as nat,
            ),
        decreases max - i,
    {
        assert(data@.skip(i as int).drop_first() =~= data@.skip(i + 1));
        i = i + 1;
    }
    if i == max {
        return Err(DeserializeErr::VarNumTooLong);
    }
    if i == data.len() {
        return Err(DeserializeErr::Eof);
    }
    let n: usize = i + 1;
    let mut j: usize = n;
    let mut acc: u128 = 0;
    assert(data@.skip(n as int).len() >= 0);
    while j > 0
        invariant
            j <= n <= max <= 10,
            n <= data.len(),
            acc == var_num_digits(data@.skip(j as int), (n - j) as nat),
            acc < pow128((n - j) as nat),
        decreases j,
    {
        let ghost k = (n - j) as nat;
        assert(data@.skip(j - 1).drop_first() =~= data@.skip(j as int));
        proof {
            lemma_pow128_values();
            lemma_pow128_monotonic(k, 9);
        }
        let d: u8 = data[j - 1] % 128;
        assert(acc * 128 + d < 128 * pow128(k)) by (nonlinear_arith)
            requires
                acc < pow128(k),
                d < 128,
        ;
        acc = acc * 128 + d as u128;
        j = j - 1;
    }
    assert(data@.skip(0) =~= data@);
    let rest = &data[n..data.len()];
    assert(rest@ =~= data@.skip(n as int));
    Ok((acc, rest))
}

impl VarInt {
    /// A count or length that fits in a `VarInt`.
    pub fn from_usize(u: usize) -> (r: VarInt)
        requires
            u <= i32::MAX,
        ensures
            r.0 == u,
    {
        VarInt(u as i32)
    }
}

impl Codec for VarInt {
    type Model = i32;

    open spec fn model(&self) -> i32 {
        self.0
    }

    open spec fn encodable(m: i32) -> bool {
        true
    }

    open spec fn legal(m: i32) -> bool {
        true
    }

    open spec fn spec_serialize(m: i32) -> Seq<u8> {
        spec_varint_serialize(m)
    }

    open spec fn spec_deserialize(s: Seq<u8>) -> SpecResult<i32> {
        spec_varint_deserialize(s)
    }

    proof fn lemma_round_trip(m: i32, rest: Seq<u8>) {
        let u = (m as u32) as nat;
        lemma_pow128_values();
        lemma_var_num_bytes_len(u, 5);
        lemma_var_num_round_trip(u, rest, 5);
        assert(((m as u32) as i32) == m) by (bit_vector);
    }

    fn mc_serialize(&self, to: &mut Vec<u8>) {
        write_var_num(self.0 as u32 as u64, to);
    }

    fn mc_deserialize(data: &[u8]) -> (r: Result<(Self, &[u8]), DeserializeErr>) {
        match read_var_num(data, VARINT_MAX_BYTES) {
            Ok((acc, rest)) => Ok((VarInt((acc as u32) as i32), rest)),
            Err(e) => Err(e),
        }
    }
}

impl Codec for VarLong {
    type Model = i64;

    open spec fn model(&self) -> i64 {
        self.0
    }

    open spec fn encodable(m: i64) -> bool {
        true
    }

    open spec fn legal(m: i64) -> bool {
        true
    }

    open spec fn spec_serialize(m: i64) -> Seq<u8> {
        spec_varlong_serialize(m)
    }

    open spec fn spec_deserialize(s: Seq<u8>) -> SpecResult<i64> {
        spec_varlong_deserialize(s)
    }

    proof fn lemma_round_trip(m: i64, rest: Seq<u8>) {
        let u = (m as u64) as nat;
        lemma_pow128_values();
        lemma_var_num_bytes_len(u, 10);
        lemma_var_num_round_trip(u, rest, 10);
        assert(((m as u64) as i64) == m) by (bit_vector);
    }

    fn mc_serialize(&self, to: &mut Vec<u8>) {
        write_var_num(self.0 as u64, to);
    }

    fn mc_deserialize(data: &[u8]) -> (r: Result<(Self, &[u8]), DeserializeErr>) {
        match read_var_num(data, VARLONG_MAX_BYTES) {
            Ok((acc, rest)) => Ok((VarLong((acc as u64) as i64), rest)),
            Err(e) => Err(e),
        }
    }
}

} // verus!
