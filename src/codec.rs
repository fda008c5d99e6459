//! The serialization contract shared by every wire type.
//!
//! The write side appends bytes to a `Vec<u8>` sink. The read side consumes a
//! prefix of an immutable byte slice and hands back the decoded value together
//! with the remaining bytes, or an error. Each type states both sides over a
//! mathematical model of its values, and proves that reading what it wrote
//! gives back the same model and leaves exactly the bytes that followed.
use vstd::prelude::*;

verus! {

/// Why a decode failed.
#[derive(Debug, Clone, Copy, PartialEq, Eq, Structural)]
pub enum DeserializeErr {
    /// Fewer bytes were available than a field requires.
    Eof,
    /// A variable-length integer ran past its maximum byte count.
    VarNumTooLong,
    /// A count or length prefix was negative.
    NegativeLength(i64),
    /// A string field did not hold valid UTF-8.
    BadStringEncoding,
    /// A boolean byte was neither 0 nor 1.
    InvalidBool(u8),
    /// A numeric discriminant that names no known variant.
    UnknownTag(i64),
    /// A string discriminant that names no known variant.
    UnknownStringTag,
    /// A lighting section whose declared length is not the fixed section size.
    BadSectionLength(i32),
}

/// The result of a read in the model: the decoded model value and the bytes
/// that remain after it.
pub type SpecResult<M> = Result<(M, Seq<u8>), DeserializeErr>;

/// Relates the outcome of an executable read to the outcome in the model.
pub open spec fn read_matches<T, M>(
    r: Result<(T, &[u8]), DeserializeErr>,
    model_of: spec_fn(T) -> M,
    expected: SpecResult<M>,
) -> bool {
    match r {
        Ok((v, rest)) => expected == Ok::<(M, Seq<u8>), DeserializeErr>((model_of(v), rest@)),
        Err(e) => expected == Err::<(M, Seq<u8>), DeserializeErr>(e),
    }
}

/// A type with a byte-exact wire encoding.
pub trait Codec: Sized {
    /// The mathematical value that a runtime value stands for.
    type Model;

    spec fn model(&self) -> Self::Model;

    /// Values that the writer accepts (lengths that fit their prefix).
    spec fn encodable(m: Self::Model) -> bool;

    /// Values that survive a write followed by a read.
    spec fn legal(m: Self::Model) -> bool;

    spec fn spec_serialize(m: Self::Model) -> Seq<u8>;

    spec fn spec_deserialize(s: Seq<u8>) -> SpecResult<Self::Model>;

    /// Reading what was written gives back the value and leaves exactly the
    /// bytes that followed the encoding.
    proof fn lemma_round_trip(m: Self::Model, rest: Seq<u8>)
        requires
            Self::legal(m),
        ensures
            Self::encodable(m),
            Self::spec_deserialize(Self::spec_serialize(m) + rest) == Ok::<
                (Self::Model, Seq<u8>),
                DeserializeErr,
            >((m, rest)),
    ;

    fn mc_serialize(&self, to: &mut Vec<u8>)
        requires
            Self::encodable(self.model()),
        ensures
            final(to)@ == old(to)@ + Self::spec_serialize(self.model()),
    ;

    fn mc_deserialize(data: &[u8]) -> (r: Result<(Self, &[u8]), DeserializeErr>)
        ensures
            read_matches(r, |v: Self| v.model(), Self::spec_deserialize(data@)),
    ;
}

/// For every wire type and every legal value, decoding the encoding gives
/// back the value and consumes exactly the encoding, whatever follows it.
pub proof fn round_trip_law<T: Codec>(m: T::Model, rest: Seq<u8>)
    requires
        T::legal(m),
    ensures
        T::spec_deserialize(T::spec_serialize(m) + rest) == Ok::<(T::Model, Seq<u8>), DeserializeErr>(
            (m, rest),
        ),
        T::spec_deserialize(T::spec_serialize(m)) == Ok::<(T::Model, Seq<u8>), DeserializeErr>(
            (m, Seq::empty()),
        ),
{
    T::lemma_round_trip(m, rest);
    T::lemma_round_trip(m, Seq::empty());
    assert(T::spec_serialize(m) + Seq::<u8>::empty() =~= T::spec_serialize(m));
}

} // verus!
