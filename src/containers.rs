//! Container combinators: presence-tagged optional values, sequences with a
//! count prefix of a configurable integer type, and "all remaining bytes".
use vstd::prelude::*;
use std::marker::PhantomData;
use crate::codec::{Codec, DeserializeErr, SpecResult, read_matches};
use crate::varnum::VarInt;

verus! {

/// The models of a sequence of runtime values.
pub open spec fn models<T: Codec>(v: Seq<T>) -> Seq<T::Model> {
    v.map_values(|x: T| x.model())
}

/// The encodings of each element, one after the other.
pub open spec fn spec_serialize_all<T: Codec>(ms: Seq<T::Model>) -> Seq<u8>
    decreases ms.len(),
{
    if ms.len() == 0 {
        Seq::empty()
    } else {
        T::spec_serialize(ms[0]) + spec_serialize_all::<T>(ms.drop_first())
    }
}

/// Exactly `n` elements, one after the other; the first failure ends the read.
pub open spec fn spec_deserialize_n<T: Codec>(s: Seq<u8>, n: nat) -> SpecResult<Seq<T::Model>>
    decreases n,
{
    if n == 0 {
        Ok((Seq::empty(), s))
    } else {
        match T::spec_deserialize(s) {
            Err(e) => Err(e),
            Ok((x, r)) => match spec_deserialize_n::<T>(r, (n - 1) as nat) {
                Err(e) => Err(e),
                Ok((xs, r2)) => Ok((seq![x] + xs, r2)),
            },
        }
    }
}

pub open spec fn all_encodable<T: Codec>(ms: Seq<T::Model>) -> bool {
    forall|i: int| 0 <= i < ms.len() ==> #[trigger] T::encodable(ms[i])
}

pub open spec fn all_legal<T: Codec>(ms: Seq<T::Model>) -> bool {
    forall|i: int| 0 <= i < ms.len() ==> #[trigger] T::legal(ms[i])
}

pub open spec fn prepend<M>(xs: Seq<M>, r: SpecResult<Seq<M>>) -> SpecResult<Seq<M>> {
    match r {
        Ok((ys, rest)) => Ok((xs + ys, rest)),
        Err(e) => Err(e),
    }
}

pub proof fn lemma_serialize_all_push<T: Codec>(ms: Seq<T::Model>, m: T::Model)
    ensures
        spec_serialize_all::<T>(ms.push(m)) == spec_serialize_all::<T>(ms) + T::spec_serialize(m),
    decreases ms.len(),
{
    if ms.len() == 0 {
        let p = ms.push(m);
        assert(p.drop_first() =~= Seq::<T::Model>::empty());
        assert(p[0] == m);
        assert(spec_serialize_all::<T>(ms) =~= Seq::<u8>::empty());
        assert(spec_serialize_all::<T>(p.drop_first()) =~= Seq::<u8>::empty());
        assert(spec_serialize_all::<T>(p) == T::spec_serialize(p[0]) + spec_serialize_all::<T>(
            p.drop_first(),
        ));
        assert(T::spec_serialize(m) + Seq::<u8>::empty() =~= T::spec_serialize(m));
        assert(Seq::<u8>::empty() + T::spec_serialize(m) =~= T::spec_serialize(m));
    } else {
        assert(ms.push(m).drop_first() =~= ms.drop_first().push(m));
        lemma_serialize_all_push::<T>(ms.drop_first(), m);
        assert(spec_serialize_all::<T>(ms.push(m)) =~= spec_serialize_all::<T>(ms)
            + T::spec_serialize(m));
    }
}

/// Reading `ms.len()` elements from their encodings gives back `ms`.
pub proof fn lemma_deserialize_n_round_trip<T: Codec>(ms: Seq<T::Model>, rest: Seq<u8>)
    requires
        all_legal::<T>(ms),
    ensures
        all_encodable::<T>(ms),
        spec_deserialize_n::<T>(spec_serialize_all::<T>(ms) + rest, ms.len()) == Ok::<
            (Seq<T::Model>, Seq<u8>),
            DeserializeErr,
        >((ms, rest)),
    decreases ms.len(),
{
    if ms.len() == 0 {
        assert(Seq::<u8>::empty() + rest =~= rest);
        assert(ms =~= Seq::<T::Model>::empty());
    } else {
        let tail = ms.drop_first();
        let tail_bytes = spec_serialize_all::<T>(tail) + rest;
        assert(spec_serialize_all::<T>(ms) + rest =~= T::spec_serialize(ms[0]) + tail_bytes);
        assert(T::legal(ms[0]));
        T::lemma_round_trip(ms[0], tail_bytes);
        assert forall|i: int| 0 <= i < tail.len() implies #[trigger] T::legal(tail[i]) by {
            assert(T::legal(ms[i + 1]));
        }
        lemma_deserialize_n_round_trip::<T>(tail, rest);
        assert(seq![ms[0]] + tail =~= ms);
        assert forall|i: int| 0 <= i < ms.len() implies #[trigger] T::encodable(ms[i]) by {
            if i == 0 {
            } else {
                assert(T::encodable(tail[i - 1]));
            }
        }
    }
}

/// A successful read of `n` elements gives exactly `n` of them.
pub proof fn lemma_deserialize_n_len<T: Codec>(s: Seq<u8>, n: nat)
    ensures
        spec_deserialize_n::<T>(s, n) matches Ok((xs, _)) ==> xs.len() == n,
    decreases n,
{
    if n > 0 {
        if let Ok((x, r)) = T::spec_deserialize(s) {
            lemma_deserialize_n_len::<T>(r, (n - 1) as nat);
        }
    }
}

/// Writes each element in order.
pub fn write_all<T: Codec>(items: &Vec<T>, to: &mut Vec<u8>)
    requires
        all_encodable::<T>(models(items@)),
    ensures
        final(to)@ == old(to)@ + spec_serialize_all::<T>(models(items@)),
{
    let ghost start = to@;
    let mut i: usize = 0;
    assert(models(items@.take(0)) =~= Seq::<T::Model>::empty());
    assert(start + Seq::<u8>::empty() =~= start);
    while i < items.len()
        invariant
            i <= items@.len(),
            all_encodable::<T>(models(items@)),
            to@ == start + spec_serialize_all::<T>(models(items@.take(i as int))),
        decreases items@.len() - i,
    {
        proof {
            lemma_serialize_all_push::<T>(models(items@.take(i as int)), items@[i as int].model());
            assert(models(items@.take(i + 1)) =~= models(items@.take(i as int)).push(
                items@[i as int].model(),
            ));
            assert(T::encodable(models(items@)[i as int]));
        }
        let ghost before = to@;
        items[i].mc_serialize(to);
        assert(to@ =~= start + spec_serialize_all::<T>(models(items@.take(i + 1))));
        i = i + 1;
    }
    assert(items@.take(i as int) =~= items@);
}

/// Reads exactly `n` elements in order, stopping at the first failure.
pub fn read_n<T: Codec>(data: &[u8], n: u64) -> (r: Result<(Vec<T>, &[u8]), DeserializeErr>)
    ensures
        read_matches(r, |v: Vec<T>| models(v@), spec_deserialize_n::<T>(data@, n as nat)),
{
    let mut out: Vec<T> = Vec::new();
    let mut cur = data;
    let mut i: u64 = 0;
    proof {
        if let Ok((ys, r)) = spec_deserialize_n::<T>(data@, n as nat) {
            assert(Seq::<T::Model>::empty() + ys =~= ys);
        }
        assert(models(out@) =~= Seq::<T::Model>::empty());
    }
    while i < n
        invariant
            i <= n,
            spec_deserialize_n::<T>(data@, n as nat) == prepend(
                models(out@),
                spec_deserialize_n::<T>(cur@, (n - i) as nat),
            ),
        decreases n - i,
    {
        match T::mc_deserialize(cur) {
            Ok((x, rest)) => {
                proof {
                    let tail = spec_deserialize_n::<T>(rest@, (n - i - 1) as nat);
                    assert(spec_deserialize_n::<T>(cur@, (n - i) as nat) == prepend(
                        seq![x.model()],
                        tail,
                    ));
                    if let Ok((ys, r)) = tail {
                        assert(models(out@) + (seq![x.model()] + ys) =~= models(out@).push(
                            x.model(),
                        ) + ys);
                    }
                    assert(models(out@.push(x)) =~= models(out@).push(x.model()));
                }
                out.push(x);
                cur = rest;
                i = i + 1;
            },
            Err(e) => {
                return Err(e);
            },
        }
    }
    proof {
        assert(models(out@) + Seq::<T::Model>::empty() =~= models(out@));
    }
    Ok((out, cur))
}

impl<T: Codec> Codec for Option<T> {
    type Model = Option<T::Model>;

    open spec fn model(&self) -> Option<T::Model> {
        match self {
            Some(x) => Some(x.model()),
            None => None,
        }
    }

    open spec fn encodable(m: Option<T::Model>) -> bool {
        match m {
            Some(x) => T::encodable(x),
            None => true,
        }
    }

    open spec fn legal(m: Option<T::Model>) -> bool {
        match m {
            Some(x) => T::legal(x),
            None => true,
        }
    }

    /// A presence boolean, then the value when present.
    open spec fn spec_serialize(m: Option<T::Model>) -> Seq<u8> {
        match m {
            Some(x) => seq![1u8] + T::spec_serialize(x),
            None => seq![0u8],
        }
    }

    open spec fn spec_deserialize(s: Seq<u8>) -> SpecResult<Option<T::Model>> {
        match bool::spec_deserialize(s) {
            Err(e) => Err(e),
            Ok((false, r)) => Ok((None, r)),
            Ok((true, r)) => match T::spec_deserialize(r) {
                Err(e) => Err(e),
                Ok((x, r2)) => Ok((Some(x), r2)),
            },
        }
    }

    proof fn lemma_round_trip(m: Option<T::Model>, rest: Seq<u8>) {
        match m {
            Some(x) => {
                T::lemma_round_trip(x, rest);
                assert((seq![1u8] + T::spec_serialize(x) + rest).skip(1) =~= T::spec_serialize(x)
                    + rest);
            },
            None => {
                assert((seq![0u8] + rest).skip(1) =~= rest);
            },
        }
    }

    fn mc_serialize(&self, to: &mut Vec<u8>) {
        match self {
            Some(x) => {
                let ghost start = to@;
                to.push(1u8);
                x.mc_serialize(to);
                assert(to@ =~= start + (seq![1u8] + T::spec_serialize(x.model())));
            },
            None => {
                to.push(0u8);
            },
        }
    }

    fn mc_deserialize(data: &[u8]) -> (r: Result<(Self, &[u8]), DeserializeErr>) {
        let (present, rest) = bool::mc_deserialize(data)?;
        if present {
            let (x, rest) = T::mc_deserialize(rest)?;
            Ok((Some(x), rest))
        } else {
            Ok((None, rest))
        }
    }
}

/// The encoding of a value that is written only when present, with no
/// presence marker of its own.
pub open spec fn spec_opt_bytes<T: Codec>(o: Option<T::Model>) -> Seq<u8> {
    match o {
        Some(x) => T::spec_serialize(x),
        None => Seq::empty(),
    }
}

/// Reads a value only when an earlier field says it is present.
pub open spec fn spec_read_if<T: Codec>(present: bool, s: Seq<u8>) -> SpecResult<Option<T::Model>> {
    if present {
        match T::spec_deserialize(s) {
            Ok((x, r)) => Ok((Some(x), r)),
            Err(e) => Err(e),
        }
    } else {
        Ok((None, s))
    }
}

pub proof fn lemma_read_if_round_trip<T: Codec>(o: Option<T::Model>, rest: Seq<u8>)
    requires
        Option::<T>::legal(o),
    ensures
        Option::<T>::encodable(o),
        spec_read_if::<T>(o is Some, spec_opt_bytes::<T>(o) + rest) == Ok::<
            (Option<T::Model>, Seq<u8>),
            DeserializeErr,
        >((o, rest)),
{
    match o {
        Some(x) => T::lemma_round_trip(x, rest),
        None => assert(Seq::<u8>::empty() + rest =~= rest),
    }
}

pub fn write_opt<T: Codec>(o: &Option<T>, to: &mut Vec<u8>)
    requires
        Option::<T>::encodable(o.model()),
    ensures
        final(to)@ == old(to)@ + spec_opt_bytes::<T>(o.model()),
{
    match o {
        Some(x) => x.mc_serialize(to),
        None => assert(to@ =~= to@ + Seq::<u8>::empty()),
    }
}

pub fn read_if<T: Codec>(present: bool, data: &[u8]) -> (r: Result<(Option<T>, &[u8]), DeserializeErr>)
    ensures
        read_matches(r, |o: Option<T>| o.model(), spec_read_if::<T>(present, data@)),
{
    if present {
        let (x, rest) = T::mc_deserialize(data)?;
        Ok((Some(x), rest))
    } else {
        Ok((None, data))
    }
}

pub fn varint_to_usize(v: VarInt) -> (r: usize)
    requires
        v.0 >= 0,
    ensures
        r == v.0,
{
    v.0 as usize
}

pub fn varint_from_usize(u: usize) -> (r: VarInt)
    requires
        u <= i32::MAX,
    ensures
        r.0 == u,
{
    VarInt(u as i32)
}

pub fn i16_to_usize(v: i16) -> (r: usize)
    requires
        v >= 0,
    ensures
        r == v,
{
    v as usize
}

pub fn i16_from_usize(u: usize) -> (r: i16)
    requires
        u <= i16::MAX,
    ensures
        r == u,
{
    u as i16
}

pub fn i32_to_usize(v: i32) -> (r: usize)
    requires
        v >= 0,
    ensures
        r == v,
{
    v as usize
}

pub fn i32_from_usize(u: usize) -> (r: i32)
    requires
        u <= i32::MAX,
    ensures
        r == u,
{
    u as i32
}

pub fn i8_to_usize(v: i8) -> (r: usize)
    requires
        v >= 0,
    ensures
        r == v,
{
    v as usize
}

pub fn i8_from_usize(u: usize) -> (r: i8)
    requires
        u <= i8::MAX,
    ensures
        r == u,
{
    u as i8
}

/// An integer type that serves as the count prefix of a sequence.
pub trait CountPrefix: Codec {
    /// The count that a prefix value stands for; negative ones are rejected.
    spec fn count_of(m: Self::Model) -> int;

    /// The prefix value written for a count.
    spec fn prefix_of(n: nat) -> Self::Model;

    /// The largest count the prefix can carry.
    spec fn max_count() -> nat;

    proof fn lemma_prefix(n: nat)
        requires
            n <= Self::max_count(),
        ensures
            Self::count_of(Self::prefix_of(n)) == n,
            Self::legal(Self::prefix_of(n)),
    ;

    proof fn lemma_count_range(m: Self::Model)
        ensures
            Self::count_of(m) <= Self::max_count(),
            i64::MIN <= Self::count_of(m),
    ;

    fn to_count(&self) -> (r: usize)
        requires
            Self::count_of(self.model()) >= 0,
        ensures
            r == Self::count_of(self.model()),
    ;

    fn count_as_i64(&self) -> (r: i64)
        ensures
            r == Self::count_of(self.model()),
    ;

    fn from_count(n: usize) -> (r: Self)
        requires
            n <= Self::max_count(),
        ensures
            r.model() == Self::prefix_of(n as nat),
    ;
}

impl CountPrefix for VarInt {
    open spec fn count_of(m: i32) -> int {
        m as int
    }

    open spec fn prefix_of(n: nat) -> i32 {
        n as i32
    }

    open spec fn max_count() -> nat {
        i32::MAX as nat
    }

    proof fn lemma_prefix(n: nat) {
    }

    proof fn lemma_count_range(m: i32) {
    }

    fn to_count(&self) -> (r: usize) {
        varint_to_usize(*self)
    }

    fn count_as_i64(&self) -> (r: i64) {
        self.0 as i64
    }

    fn from_count(n: usize) -> (r: Self) {
        varint_from_usize(n)
    }
}

impl CountPrefix for i16 {
    open spec fn count_of(m: i16) -> int {
        m as int
    }

    open spec fn prefix_of(n: nat) -> i16 {
        n as i16
    }

    open spec fn max_count() -> nat {
        i16::MAX as nat
    }

    proof fn lemma_prefix(n: nat) {
    }

    proof fn lemma_count_range(m: i16) {
    }

    fn to_count(&self) -> (r: usize) {
        i16_to_usize(*self)
    }

    fn count_as_i64(&self) -> (r: i64) {
        *self as i64
    }

    fn from_count(n: usize) -> (r: Self) {
        i16_from_usize(n)
    }
}

impl CountPrefix for i32 {
    open spec fn count_of(m: i32) -> int {
        m as int
    }

    open spec fn prefix_of(n: nat) -> i32 {
        n as i32
    }

    open spec fn max_count() -> nat {
        i32::MAX as nat
    }

    proof fn lemma_prefix(n: nat) {
    }

    proof fn lemma_count_range(m: i32) {
    }

    fn to_count(&self) -> (r: usize) {
        i32_to_usize(*self)
    }

    fn count_as_i64(&self) -> (r: i64) {
        *self as i64
    }

    fn from_count(n: usize) -> (r: Self) {
        i32_from_usize(n)
    }
}

impl CountPrefix for i8 {
    open spec fn count_of(m: i8) -> int {
        m as int
    }

    open spec fn prefix_of(n: nat) -> i8 {
        n as i8
    }

    open spec fn max_count() -> nat {
        i8::MAX as nat
    }

    proof fn lemma_prefix(n: nat) {
    }

    proof fn lemma_count_range(m: i8) {
    }

    fn to_count(&self) -> (r: usize) {
        i8_to_usize(*self)
    }

    fn count_as_i64(&self) -> (r: i64) {
        *self as i64
    }

    fn from_count(n: usize) -> (r: Self) {
        i8_from_usize(n)
    }
}

/// A sequence preceded by its element count, written as an `N`.
#[derive(Debug, PartialEq, Eq)]
pub struct CountedArray<T, N> {
    pub data: Vec<T>,
    pub prefix: PhantomData<N>,
}

/// Counted by a `VarInt`.
pub type VarIntCountedArray<T> = CountedArray<T, VarInt>;

/// Counted by a big-endian `i16`.
pub type ShortCountedArray<T> = CountedArray<T, i16>;

/// Counted by a big-endian `i32`.
pub type IntCountedArray<T> = CountedArray<T, i32>;

/// Counted by a single signed byte.
pub type ByteCountedArray<T> = CountedArray<T, i8>;

impl<T: Clone, N> Clone for CountedArray<T, N> {
    fn clone(&self) -> Self {
        CountedArray { data: self.data.clone(), prefix: PhantomData }
    }
}

impl<T, N> CountedArray<T, N> {
    pub fn new(data: Vec<T>) -> (r: Self)
        ensures
            r.data@ == data@,
    {
        CountedArray { data, prefix: PhantomData }
    }
}

pub open spec fn spec_counted_serialize<T: Codec, N: CountPrefix>(ms: Seq<T::Model>) -> Seq<u8> {
    N::spec_serialize(N::prefix_of(ms.len())) + spec_serialize_all::<T>(ms)
}

/// The count, then exactly that many elements.
pub open spec fn spec_counted_deserialize<T: Codec, N: CountPrefix>(s: Seq<u8>) -> SpecResult<
    Seq<T::Model>,
> {
    match N::spec_deserialize(s) {
        Err(e) => Err(e),
        Ok((c, r)) => if N::count_of(c) < 0 {
            Err(DeserializeErr::NegativeLength(N::count_of(c) as i64))
        } else {
            spec_deserialize_n::<T>(r, N::count_of(c) as nat)
        },
    }
}

impl<T: Codec, N: CountPrefix> Codec for CountedArray<T, N> {
    type Model = Seq<T::Model>;

    open spec fn model(&self) -> Seq<T::Model> {
        models(self.data@)
    }

    open spec fn encodable(m: Seq<T::Model>) -> bool {
        m.len() <= N::max_count() && all_encodable::<T>(m)
    }

    open spec fn legal(m: Seq<T::Model>) -> bool {
        m.len() <= N::max_count() && all_legal::<T>(m)
    }

    open spec fn spec_serialize(m: Seq<T::Model>) -> Seq<u8> {
        spec_counted_serialize::<T, N>(m)
    }

    open spec fn spec_deserialize(s: Seq<u8>) -> SpecResult<Seq<T::Model>> {
        spec_counted_deserialize::<T, N>(s)
    }

    proof fn lemma_round_trip(m: Seq<T::Model>, rest: Seq<u8>) {
        let body = spec_serialize_all::<T>(m) + rest;
        N::lemma_prefix(m.len());
        N::lemma_round_trip(N::prefix_of(m.len()), body);
        assert(spec_counted_serialize::<T, N>(m) + rest =~= N::spec_serialize(N::prefix_of(m.len()))
            + body);
        lemma_deserialize_n_round_trip::<T>(m, rest);
    }

    fn mc_serialize(&self, to: &mut Vec<u8>) {
        let ghost start = to@;
        let prefix = N::from_count(self.data.len());
        proof {
            N::lemma_prefix(self.data@.len());
            N::lemma_round_trip(N::prefix_of(self.data@.len()), Seq::empty());
        }
        prefix.mc_serialize(to);
        write_all(&self.data, to);
        assert(to@ =~= start + spec_counted_serialize::<T, N>(models(self.data@)));
    }

    fn mc_deserialize(data: &[u8]) -> (r: Result<(Self, &[u8]), DeserializeErr>) {
        let (c, rest) = N::mc_deserialize(data)?;
        proof {
            N::lemma_count_range(c.model());
        }
        let count = c.count_as_i64();
        if count < 0 {
            return Err(DeserializeErr::NegativeLength(count));
        }
        let (items, rest) = read_n::<T>(rest, c.to_count() as u64)?;
        Ok((CountedArray::new(items), rest))
    }
}

/// The emitted count is the true number of elements, and a read gives exactly
/// as many elements as its count field says.
pub proof fn lemma_counted_fidelity<T: Codec, N: CountPrefix>(m: Seq<T::Model>, s: Seq<u8>)
    ensures
        m.len() <= N::max_count() ==> (N::spec_deserialize(spec_counted_serialize::<T, N>(m))
            matches Ok((c, _)) && N::count_of(c) == m.len()),
        spec_counted_deserialize::<T, N>(s) matches Ok((xs, _)) ==> (N::spec_deserialize(s) matches Ok(
            (c, _),
        ) && N::count_of(c) == xs.len()),
{
    if m.len() <= N::max_count() {
        N::lemma_prefix(m.len());
        N::lemma_round_trip(N::prefix_of(m.len()), spec_serialize_all::<T>(m));
    }
    if let Ok((c, r)) = N::spec_deserialize(s) {
        if N::count_of(c) >= 0 {
            lemma_deserialize_n_len::<T>(r, N::count_of(c) as nat);
        }
    }
}

/// Everything left in the input; only ever the last field of a body.
#[derive(Debug, Clone, PartialEq, Eq)]
pub struct RemainingBytes {
    pub data: Vec<u8>,
}

impl RemainingBytes {
    pub fn mc_serialize(&self, to: &mut Vec<u8>)
        ensures
            final(to)@ == old(to)@ + self.data@,
    {
        let ghost start = to@;
        to.extend_from_slice(self.data.as_slice());
        assert(to@ =~= start + self.data@);
    }

    /// Takes every remaining byte and always succeeds with nothing left.
    pub fn mc_deserialize(data: &[u8]) -> (r: Result<(RemainingBytes, &[u8]), DeserializeErr>)
        ensures
            r matches Ok((v, rest)) && v.data@ == data@ && rest@.len() == 0,
    {
        let rest = &data[data.len()..data.len()];
        Ok((RemainingBytes { data: vstd::slice::slice_to_vec(data) }, rest))
    }

    pub fn into_vec(self) -> (r: Vec<u8>)
        ensures
            r@ == self.data@,
    {
        self.data
    }

    pub fn from_vec(data: Vec<u8>) -> (r: RemainingBytes)
        ensures
            r.data@ == data@,
    {
        RemainingBytes { data }
    }
}

} // verus!
