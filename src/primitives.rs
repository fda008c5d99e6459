//! Fixed-width big-endian integers, booleans, IEEE-754 floats carried as
//! their bit patterns, UTF-8 strings with a `VarInt` byte-length prefix, and
//! 128-bit identifiers.
use vstd::prelude::*;
use vstd::utf8::{valid_utf8, decode_utf8, encode_utf8, encode_scalar, encode_utf8_valid_utf8, encode_utf8_decode_utf8};
use crate::codec::{Codec, DeserializeErr, SpecResult, read_matches};
use crate::varnum::{VarInt, spec_varint_serialize, spec_varint_deserialize};

verus! {

/// Splits off the first `n` bytes.
pub fn take_bytes(data: &[u8], n: usize) -> (r: Result<(&[u8], &[u8]), DeserializeErr>)
    ensures
        match r {
            Ok((head, rest)) => n <= data@.len() && head@ == data@.take(n as int) && rest@
                == data@.skip(n as int),
            Err(e) => n > data@.len() && e == DeserializeErr::Eof,
        },
{
    if n > data.len() {
        Err(DeserializeErr::Eof)
    } else {
        let head = &data[0..n];
        let rest = &data[n..data.len()];
        assert(head@ =~= data@.take(n as int));
        assert(rest@ =~= data@.skip(n as int));
        Ok((head, rest))
    }
}

pub open spec fn be16(x: u16) -> Seq<u8> {
    seq![(x >> 8u16) as u8, x as u8]
}

pub open spec fn from_be16(s: Seq<u8>) -> u16 {
    ((s[0] as u16) << 8u16) | (s[1] as u16)
}

pub open spec fn be32(x: u32) -> Seq<u8> {
    seq![(x >> 24u32) as u8, (x >> 16u32) as u8, (x >> 8u32) as u8, x as u8]
}

pub open spec fn from_be32(s: Seq<u8>) -> u32 {
    ((s[0] as u32) << 24u32) | ((s[1] as u32) << 16u32) | ((s[2] as u32) << 8u32) | (s[3] as u32)
}

pub open spec fn be64(x: u64) -> Seq<u8> {
    be32((x >> 32u64) as u32) + be32(x as u32)
}

pub open spec fn from_be64(s: Seq<u8>) -> u64 {
    ((from_be32(s.take(4)) as u64) << 32u64) | (from_be32(s.skip(4)) as u64)
}

/// Reads `n` bytes in the model: the bytes and what follows, or end of input.
pub open spec fn spec_take(s: Seq<u8>, n: nat) -> SpecResult<Seq<u8>> {
    if s.len() < n {
        Err(DeserializeErr::Eof)
    } else {
        Ok((s.take(n as int), s.skip(n as int)))
    }
}

proof fn lemma_be16(x: u16)
    ensures
        from_be16(be16(x)) == x,
{
    let b0 = (x >> 8u16) as u8;
    let b1 = x as u8;
    assert((((x >> 8u16) as u8 as u16) << 8u16) | ((x as u8) as u16) == x) by (bit_vector);
}

proof fn lemma_be32(x: u32)
    ensures
        from_be32(be32(x)) == x,
{
    assert((((x >> 24u32) as u8 as u32) << 24u32) | (((x >> 16u32) as u8 as u32) << 16u32) | (((x
        >> 8u32) as u8 as u32) << 8u32) | ((x as u8) as u32) == x) by (bit_vector);
}

pub proof fn lemma_be64(x: u64)
    ensures
        from_be64(be64(x)) == x,
{
    let s = be64(x);
    assert(s.take(4) =~= be32((x >> 32u64) as u32));
    assert(s.skip(4) =~= be32(x as u32));
    lemma_be32((x >> 32u64) as u32);
    lemma_be32(x as u32);
    assert(((((x >> 32u64) as u32) as u64) << 32u64) | ((x as u32) as u64) == x) by (bit_vector);
}

pub proof fn lemma_take_concat(a: Seq<u8>, rest: Seq<u8>)
    ensures
        spec_take(a + rest, a.len()) == Ok::<(Seq<u8>, Seq<u8>), DeserializeErr>((a, rest)),
{
    assert((a + rest).take(a.len() as int) =~= a);
    assert((a + rest).skip(a.len() as int) =~= rest);
}

fn write_be16(x: u16, to: &mut Vec<u8>)
    ensures
        final(to)@ == old(to)@ + be16(x),
{
    let ghost start = to@;
    to.push((x >> 8) as u8);
    to.push(x as u8);
    assert(to@ =~= start + be16(x));
}

fn write_be32(x: u32, to: &mut Vec<u8>)
    ensures
        final(to)@ == old(to)@ + be32(x),
{
    let ghost start = to@;
    to.push((x >> 24) as u8);
    to.push((x >> 16) as u8);
    to.push((x >> 8) as u8);
    to.push(x as u8);
    assert(to@ =~= start + be32(x));
}

pub fn write_be64(x: u64, to: &mut Vec<u8>)
    ensures
        final(to)@ == old(to)@ + be64(x),
{
    let ghost start = to@;
    write_be32((x >> 32) as u32, to);
    write_be32(x as u32, to);
    assert(to@ =~= start + be64(x));
}

fn read_be16(data: &[u8]) -> (r: Result<(u16, &[u8]), DeserializeErr>)
    ensures
        match r {
            Ok((v, rest)) => spec_take(data@, 2) matches Ok((b, srest)) && v == from_be16(b)
                && rest@ == srest,
            Err(e) => spec_take(data@, 2) == Err::<(Seq<u8>, Seq<u8>), DeserializeErr>(e),
        },
{
    let (b, rest) = take_bytes(data, 2)?;
    Ok((((b[0] as u16) << 8) | (b[1] as u16), rest))
}

fn read_be32(data: &[u8]) -> (r: Result<(u32, &[u8]), DeserializeErr>)
    ensures
        match r {
            Ok((v, rest)) => spec_take(data@, 4) matches Ok((b, srest)) && v == from_be32(b)
                && rest@ == srest,
            Err(e) => spec_take(data@, 4) == Err::<(Seq<u8>, Seq<u8>), DeserializeErr>(e),
        },
{
    let (b, rest) = take_bytes(data, 4)?;
    Ok((
        ((b[0] as u32) << 24) | ((b[1] as u32) << 16) | ((b[2] as u32) << 8) | (b[3] as u32),
        rest,
    ))
}

pub fn read_be64(data: &[u8]) -> (r: Result<(u64, &[u8]), DeserializeErr>)
    ensures
        match r {
            Ok((v, rest)) => spec_take(data@, 8) matches Ok((b, srest)) && v == from_be64(b)
                && rest@ == srest,
            Err(e) => spec_take(data@, 8) == Err::<(Seq<u8>, Seq<u8>), DeserializeErr>(e),
        },
{
    let (b, rest) = take_bytes(data, 8)?;
    let hi = ((b[0] as u32) << 24) | ((b[1] as u32) << 16) | ((b[2] as u32) << 8) | (b[3] as u32);
    let lo = ((b[4] as u32) << 24) | ((b[5] as u32) << 16) | ((b[6] as u32) << 8) | (b[7] as u32);
    assert(b@.take(4)[0] == b@[0] && b@.take(4)[1] == b@[1] && b@.take(4)[2] == b@[2]
        && b@.take(4)[3] == b@[3]);
    assert(b@.skip(4)[0] == b@[4] && b@.skip(4)[1] == b@[5] && b@.skip(4)[2] == b@[6]
        && b@.skip(4)[3] == b@[7]);
    Ok((((hi as u64) << 32) | (lo as u64), rest))
}


impl Codec for u16 {
    type Model = u16;

    open spec fn model(&self) -> u16 {
        *self
    }

    open spec fn encodable(m: u16) -> bool {
        true
    }

    open spec fn legal(m: u16) -> bool {
        true
    }

    open spec fn spec_serialize(m: u16) -> Seq<u8> {
        be16(m)
    }

    open spec fn spec_deserialize(s: Seq<u8>) -> SpecResult<u16> {
        match spec_take(s, 2) {
            Ok((b, rest)) => Ok((from_be16(b), rest)),
            Err(e) => Err(e),
        }
    }

    proof fn lemma_round_trip(m: u16, rest: Seq<u8>) {
        lemma_take_concat(be16(m), rest);
        lemma_be16(m);
        
    }

    fn mc_serialize(&self, to: &mut Vec<u8>) {
        let m = *self;
        write_be16(m, to);
    }

    fn mc_deserialize(data: &[u8]) -> (r: Result<(Self, &[u8]), DeserializeErr>) {
        let (x, rest) = read_be16(data)?;
        Ok((x, rest))
    }
}

impl Codec for i16 {
    type Model = i16;

    open spec fn model(&self) -> i16 {
        *self
    }

    open spec fn encodable(m: i16) -> bool {
        true
    }

    open spec fn legal(m: i16) -> bool {
        true
    }

    open spec fn spec_serialize(m: i16) -> Seq<u8> {
        be16(m as u16)
    }

    open spec fn spec_deserialize(s: Seq<u8>) -> SpecResult<i16> {
        match spec_take(s, 2) {
            Ok((b, rest)) => Ok((from_be16(b) as i16, rest)),
            Err(e) => Err(e),
        }
    }

    proof fn lemma_round_trip(m: i16, rest: Seq<u8>) {
        lemma_take_concat(be16(m as u16), rest);
        lemma_be16(m as u16);
        assert(((m as u16) as i16) == m) by (bit_vector);
    }

    fn mc_serialize(&self, to: &mut Vec<u8>) {
        let m = *self;
        write_be16(m as u16, to);
    }

    fn mc_deserialize(data: &[u8]) -> (r: Result<(Self, &[u8]), DeserializeErr>) {
        let (x, rest) = read_be16(data)?;
        Ok((x as i16, rest))
    }
}

impl Codec for i32 {
    type Model = i32;

    open spec fn model(&self) -> i32 {
        *self
    }

    open spec fn encodable(m: i32) -> bool {
        true
    }

    open spec fn legal(m: i32) -> bool {
        true
    }

    open spec fn spec_serialize(m: i32) -> Seq<u8> {
        be32(m as u32)
    }

    open spec fn spec_deserialize(s: Seq<u8>) -> SpecResult<i32> {
        match spec_take(s, 4) {
            Ok((b, rest)) => Ok((from_be32(b) as i32, rest)),
            Err(e) => Err(e),
        }
    }

    proof fn lemma_round_trip(m: i32, rest: Seq<u8>) {
        lemma_take_concat(be32(m as u32), rest);
        lemma_be32(m as u32);
        assert(((m as u32) as i32) == m) by (bit_vector);
    }

    fn mc_serialize(&self, to: &mut Vec<u8>) {
        let m = *self;
        write_be32(m as u32, to);
    }

    fn mc_deserialize(data: &[u8]) -> (r: Result<(Self, &[u8]), DeserializeErr>) {
        let (x, rest) = read_be32(data)?;
        Ok((x as i32, rest))
    }
}

impl Codec for i64 {
    type Model = i64;

    open spec fn model(&self) -> i64 {
        *self
    }

    open spec fn encodable(m: i64) -> bool {
        true
    }

    open spec fn legal(m: i64) -> bool {
        true
    }

    open spec fn spec_serialize(m: i64) -> Seq<u8> {
        be64(m as u64)
    }

    open spec fn spec_deserialize(s: Seq<u8>) -> SpecResult<i64> {
        match spec_take(s, 8) {
            Ok((b, rest)) => Ok((from_be64(b) as i64, rest)),
            Err(e) => Err(e),
        }
    }

    proof fn lemma_round_trip(m: i64, rest: Seq<u8>) {
        lemma_take_concat(be64(m as u64), rest);
        lemma_be64(m as u64);
        assert(((m as u64) as i64) == m) by (bit_vector);
    }

    fn mc_serialize(&self, to: &mut Vec<u8>) {
        let m = *self;
        write_be64(m as u64, to);
    }

    fn mc_deserialize(data: &[u8]) -> (r: Result<(Self, &[u8]), DeserializeErr>) {
        let (x, rest) = read_be64(data)?;
        Ok((x as i64, rest))
    }
}

impl Codec for u8 {
    type Model = u8;

    open spec fn model(&self) -> u8 {
        *self
    }

    open spec fn encodable(m: u8) -> bool {
        true
    }

    open spec fn legal(m: u8) -> bool {
        true
    }

    open spec fn spec_serialize(m: u8) -> Seq<u8> {
        seq![m]
    }

    open spec fn spec_deserialize(s: Seq<u8>) -> SpecResult<u8> {
        if s.len() == 0 {
            Err(DeserializeErr::Eof)
        } else {
            Ok((s[0], s.skip(1)))
        }
    }

    proof fn lemma_round_trip(m: u8, rest: Seq<u8>) {
        assert((seq![m] + rest).skip(1) =~= rest);
    }

    fn mc_serialize(&self, to: &mut Vec<u8>) {
        to.push(*self);
    }

    fn mc_deserialize(data: &[u8]) -> (r: Result<(Self, &[u8]), DeserializeErr>) {
        let (b, rest) = take_bytes(data, 1)?;
        Ok((b[0], rest))
    }
}

impl Codec for i8 {
    type Model = i8;

    open spec fn model(&self) -> i8 {
        *self
    }

    open spec fn encodable(m: i8) -> bool {
        true
    }

    open spec fn legal(m: i8) -> bool {
        true
    }

    open spec fn spec_serialize(m: i8) -> Seq<u8> {
        seq![m as u8]
    }

    open spec fn spec_deserialize(s: Seq<u8>) -> SpecResult<i8> {
        if s.len() == 0 {
            Err(DeserializeErr::Eof)
        } else {
            Ok((s[0] as i8, s.skip(1)))
        }
    }

    proof fn lemma_round_trip(m: i8, rest: Seq<u8>) {
        assert((seq![m as u8] + rest).skip(1) =~= rest);
        assert(((m as u8) as i8) == m) by (bit_vector);
    }

    fn mc_serialize(&self, to: &mut Vec<u8>) {
        to.push(*self as u8);
    }

    fn mc_deserialize(data: &[u8]) -> (r: Result<(Self, &[u8]), DeserializeErr>) {
        let (b, rest) = take_bytes(data, 1)?;
        Ok((b[0] as i8, rest))
    }
}

impl Codec for bool {
    type Model = bool;

    open spec fn model(&self) -> bool {
        *self
    }

    open spec fn encodable(m: bool) -> bool {
        true
    }

    open spec fn legal(m: bool) -> bool {
        true
    }

    open spec fn spec_serialize(m: bool) -> Seq<u8> {
        seq![if m { 1u8 } else { 0u8 }]
    }

    /// Only 0 and 1 are booleans.
    open spec fn spec_deserialize(s: Seq<u8>) -> SpecResult<bool> {
        if s.len() == 0 {
            Err(DeserializeErr::Eof)
        } else if s[0] == 0 {
            Ok((false, s.skip(1)))
        } else if s[0] == 1 {
            Ok((true, s.skip(1)))
        } else {
            Err(DeserializeErr::InvalidBool(s[0]))
        }
    }

    proof fn lemma_round_trip(m: bool, rest: Seq<u8>) {
        assert((Self::spec_serialize(m) + rest).skip(1) =~= rest);
    }

    fn mc_serialize(&self, to: &mut Vec<u8>) {
        to.push(if *self { 1u8 } else { 0u8 });
    }

    fn mc_deserialize(data: &[u8]) -> (r: Result<(Self, &[u8]), DeserializeErr>) {
        let (b, rest) = take_bytes(data, 1)?;
        if b[0] == 0 {
            Ok((false, rest))
        } else if b[0] == 1 {
            Ok((true, rest))
        } else {
            Err(DeserializeErr::InvalidBool(b[0]))
        }
    }
}

/// A single-precision float, carried as its IEEE-754 bit pattern.
#[derive(Debug, Clone, Copy, PartialEq, Eq, Structural)]
pub struct Float32 {
    pub bits: u32,
}

/// A double-precision float, carried as its IEEE-754 bit pattern.
#[derive(Debug, Clone, Copy, PartialEq, Eq, Structural)]
pub struct Float64 {
    pub bits: u64,
}

impl Codec for Float32 {
    type Model = Float32;

    open spec fn model(&self) -> Float32 {
        *self
    }

    open spec fn encodable(m: Float32) -> bool {
        true
    }

    open spec fn legal(m: Float32) -> bool {
        true
    }

    open spec fn spec_serialize(m: Float32) -> Seq<u8> {
        be32(m.bits)
    }

    open spec fn spec_deserialize(s: Seq<u8>) -> SpecResult<Float32> {
        match spec_take(s, 4) {
            Ok((b, rest)) => Ok((Float32 { bits: from_be32(b) }, rest)),
            Err(e) => Err(e),
        }
    }

    proof fn lemma_round_trip(m: Float32, rest: Seq<u8>) {
        lemma_take_concat(be32(m.bits), rest);
        lemma_be32(m.bits);
    }

    fn mc_serialize(&self, to: &mut Vec<u8>) {
        write_be32(self.bits, to);
    }

    fn mc_deserialize(data: &[u8]) -> (r: Result<(Self, &[u8]), DeserializeErr>) {
        let (x, rest) = read_be32(data)?;
        Ok((Float32 { bits: x }, rest))
    }
}

impl Codec for Float64 {
    type Model = Float64;

    open spec fn model(&self) -> Float64 {
        *self
    }

    open spec fn encodable(m: Float64) -> bool {
        true
    }

    open spec fn legal(m: Float64) -> bool {
        true
    }

    open spec fn spec_serialize(m: Float64) -> Seq<u8> {
        be64(m.bits)
    }

    open spec fn spec_deserialize(s: Seq<u8>) -> SpecResult<Float64> {
        match spec_take(s, 8) {
            Ok((b, rest)) => Ok((Float64 { bits: from_be64(b) }, rest)),
            Err(e) => Err(e),
        }
    }

    proof fn lemma_round_trip(m: Float64, rest: Seq<u8>) {
        lemma_take_concat(be64(m.bits), rest);
        lemma_be64(m.bits);
    }

    fn mc_serialize(&self, to: &mut Vec<u8>) {
        write_be64(self.bits, to);
    }

    fn mc_deserialize(data: &[u8]) -> (r: Result<(Self, &[u8]), DeserializeErr>) {
        let (x, rest) = read_be64(data)?;
        Ok((Float64 { bits: x }, rest))
    }
}


/// Relies on `std::str::from_utf8`: it succeeds exactly on valid UTF-8, and the
/// string it gives then holds the characters that those bytes encode.
#[verifier::external_body]
pub(crate) fn utf8_str(b: &[u8]) -> (r: Option<&str>)
    ensures
        r is Some <==> valid_utf8(b@),
        r matches Some(s) ==> s@ == decode_utf8(b@),
{
    std::str::from_utf8(b).ok()
}

pub open spec fn spec_string_serialize(m: Seq<char>) -> Seq<u8> {
    spec_varint_serialize(encode_utf8(m).len() as i32) + encode_utf8(m)
}

/// A `VarInt` byte length, then that many bytes of UTF-8.
#[verifier::opaque]
pub open spec fn spec_string_deserialize(s: Seq<u8>) -> SpecResult<Seq<char>> {
    match spec_varint_deserialize(s) {
        Err(e) => Err(e),
        Ok((len, s1)) => if len < 0 {
            Err(DeserializeErr::NegativeLength(len as i64))
        } else {
            match spec_take(s1, len as nat) {
                Err(e) => Err(e),
                Ok((b, rest)) => if valid_utf8(b) {
                    Ok((decode_utf8(b), rest))
                } else {
                    Err(DeserializeErr::BadStringEncoding)
                },
            }
        },
    }
}

/// Each character takes at most four bytes of UTF-8.
pub proof fn lemma_encode_utf8_len(s: Seq<char>)
    ensures
        encode_utf8(s).len() <= 4 * s.len(),
    decreases s.len(),
{
    if s.len() > 0 {
        assert(encode_scalar(s[0] as u32).len() <= 4);
        lemma_encode_utf8_len(s.drop_first());
    }
}

/// A short string always fits its length prefix.
pub proof fn lemma_tag_encodable(t: Seq<char>)
    requires
        t.len() <= 64,
    ensures
        encode_utf8(t).len() <= i32::MAX,
{
    lemma_encode_utf8_len(t);
}

/// Writes a string slice exactly as a `String` with the same characters.
pub fn write_str(s: &str, to: &mut Vec<u8>)
    requires
        encode_utf8(s@).len() <= i32::MAX,
    ensures
        final(to)@ == old(to)@ + spec_string_serialize(s@),
{
    let bytes = s.as_bytes();
    VarInt::from_usize(bytes.len()).mc_serialize(to);
    let ghost mid = to@;
    to.extend_from_slice(bytes);
    assert(to@ =~= mid + bytes@);
}

/// Whether two string slices hold the same characters, compared byte by byte.
pub fn str_eq(a: &str, b: &str) -> (r: bool)
    ensures
        r == (a@ == b@),
{
    let x = a.as_bytes();
    let y = b.as_bytes();
    proof {
        encode_utf8_decode_utf8(a@);
        encode_utf8_decode_utf8(b@);
    }
    if x.len() != y.len() {
        return false;
    }
    let mut i: usize = 0;
    while i < x.len()
        invariant
            x@ == encode_utf8(a@),
            y@ == encode_utf8(b@),
            x@.len() == y@.len(),
            i <= x@.len(),
            forall|j: int| 0 <= j < i ==> x@[j] == y@[j],
        decreases x@.len() - i,
    {
        if x[i] != y[i] {
            assert(a@ != b@) by {
                if a@ == b@ {
                    assert(x@ == encode_utf8(a@));
                    assert(y@ == encode_utf8(b@));
                    assert(x@[i as int] == y@[i as int]);
                }
            }
            return false;
        }
        i = i + 1;
    }
    assert(x@ =~= y@);
    true
}

impl Codec for String {
    type Model = Seq<char>;

    open spec fn model(&self) -> Seq<char> {
        self@
    }

    open spec fn encodable(m: Seq<char>) -> bool {
        encode_utf8(m).len() <= i32::MAX
    }

    open spec fn legal(m: Seq<char>) -> bool {
        encode_utf8(m).len() <= i32::MAX
    }

    open spec fn spec_serialize(m: Seq<char>) -> Seq<u8> {
        spec_string_serialize(m)
    }

    open spec fn spec_deserialize(s: Seq<u8>) -> SpecResult<Seq<char>> {
        spec_string_deserialize(s)
    }

    proof fn lemma_round_trip(m: Seq<char>, rest: Seq<u8>) {
        reveal(spec_string_deserialize);
        let enc = encode_utf8(m);
        let len = enc.len() as i32;
        assert(spec_string_serialize(m) + rest =~= spec_varint_serialize(len) + (enc + rest));
        VarInt::lemma_round_trip(len, enc + rest);
        lemma_take_concat(enc, rest);
        encode_utf8_valid_utf8(m);
        encode_utf8_decode_utf8(m);
    }

    fn mc_serialize(&self, to: &mut Vec<u8>) {
        write_str(self.as_str(), to);
    }

    fn mc_deserialize(data: &[u8]) -> (r: Result<(Self, &[u8]), DeserializeErr>) {
        reveal(spec_string_deserialize);
        let (len, rest) = VarInt::mc_deserialize(data)?;
        if len.0 < 0 {
            return Err(DeserializeErr::NegativeLength(len.0 as i64));
        }
        let (b, rest) = take_bytes(rest, len.0 as usize)?;
        match utf8_str(b) {
            Some(s) => Ok((s.to_owned(), rest)),
            None => Err(DeserializeErr::BadStringEncoding),
        }
    }
}

/// A 128-bit identifier: sixteen raw bytes on the wire, most significant first.
#[derive(Debug, Clone, Copy, PartialEq, Eq, Structural)]
pub struct UUID4 {
    pub raw: u128,
}

pub open spec fn spec_uuid_serialize(x: u128) -> Seq<u8> {
    be64((x >> 64u128) as u64) + be64(x as u64)
}

impl Codec for UUID4 {
    type Model = u128;

    open spec fn model(&self) -> u128 {
        self.raw
    }

    open spec fn encodable(m: u128) -> bool {
        true
    }

    open spec fn legal(m: u128) -> bool {
        true
    }

    open spec fn spec_serialize(m: u128) -> Seq<u8> {
        spec_uuid_serialize(m)
    }

    open spec fn spec_deserialize(s: Seq<u8>) -> SpecResult<u128> {
        match spec_take(s, 16) {
            Ok((b, rest)) => Ok(
                (((from_be64(b.take(8)) as u128) << 64u128) | (from_be64(b.skip(8)) as u128), rest),
            ),
            Err(e) => Err(e),
        }
    }

    proof fn lemma_round_trip(m: u128, rest: Seq<u8>) {
        let enc = spec_uuid_serialize(m);
        lemma_take_concat(enc, rest);
        assert(enc.take(8) =~= be64((m >> 64u128) as u64));
        assert(enc.skip(8) =~= be64(m as u64));
        lemma_be64((m >> 64u128) as u64);
        lemma_be64(m as u64);
        assert(((((m >> 64u128) as u64) as u128) << 64u128) | ((m as u64) as u128) == m)
            by (bit_vector);
    }

    fn mc_serialize(&self, to: &mut Vec<u8>) {
        let ghost start = to@;
        write_be64((self.raw >> 64) as u64, to);
        write_be64(self.raw as u64, to);
        assert(to@ =~= start + spec_uuid_serialize(self.raw));
    }

    fn mc_deserialize(data: &[u8]) -> (r: Result<(Self, &[u8]), DeserializeErr>) {
        let (hi, mid) = read_be64(data)?;
        let (lo, rest) = read_be64(mid)?;
        assert(data@.take(16).take(8) =~= data@.take(8));
        assert(data@.take(16).skip(8) =~= mid@.take(8));
        assert(rest@ =~= data@.skip(16));
        Ok((UUID4 { raw: ((hi as u128) << 64) | (lo as u128) }, rest))
    }
}

} // verus!
