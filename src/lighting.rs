//! Light updates: for each of the eighteen vertical sections of a chunk
//! column, sky light and block light may each carry a buffer of exactly
//! 2048 bytes. An "update" bitmask says which sections carry one, and its
//! complement, the "reset" bitmask, is sent too; both are derived from which
//! sections are present, never stored.
use vstd::prelude::*;
use crate::codec::{Codec, DeserializeErr, SpecResult, read_matches};
use crate::varnum::{VarInt, spec_varint_serialize, spec_varint_deserialize};
use crate::primitives::{take_bytes, spec_take};

verus! {

/// Bytes in one section's light buffer.
pub const LIGHT_DATA_LENGTH: usize = 2048;

/// Sections in one chunk column.
pub const LIGHT_DATA_SECTIONS: usize = 18;

/// One kind of light for every section of a column: `data[i]` holds
/// section `i`'s buffer, or nothing when the section is not sent.
#[derive(Debug, Clone, PartialEq, Eq)]
pub struct LightingData {
    pub data: Vec<Option<Vec<u8>>>,
}

pub open spec fn section_model(o: Option<Vec<u8>>) -> Option<Seq<u8>> {
    match o {
        Some(b) => Some(b@),
        None => None,
    }
}

pub open spec fn sections_model(v: Seq<Option<Vec<u8>>>) -> Seq<Option<Seq<u8>>> {
    v.map_values(|o: Option<Vec<u8>>| section_model(o))
}

/// Eighteen sections, each buffer exactly 2048 bytes.
pub open spec fn sections_wf(m: Seq<Option<Seq<u8>>>) -> bool {
    &&& m.len() == LIGHT_DATA_SECTIONS
    &&& forall|i: int| 0 <= i < m.len() ==> (#[trigger] m[i] matches Some(b) ==> b.len()
        == LIGHT_DATA_LENGTH)
}

pub open spec fn pow2(k: nat) -> nat
    decreases k,
{
    if k == 0 {
        1
    } else {
        2 * pow2((k - 1) as nat)
    }
}

/// The bitmask of sections from `i` up, shifted down by `i`: bit `j` is set
/// when section `i + j`'s presence equals `has`.
pub open spec fn mask_from(m: Seq<Option<Seq<u8>>>, has: bool, i: nat) -> nat
    decreases LIGHT_DATA_SECTIONS - i,
{
    if i >= LIGHT_DATA_SECTIONS {
        0
    } else {
        (if (m[i as int] is Some) == has {
            1nat
        } else {
            0nat
        }) + 2 * mask_from(m, has, i + 1)
    }
}

/// The sections that `has` picks, as a bitmask: the update mask for `true`,
/// the reset mask for `false`.
pub open spec fn spec_mask(m: Seq<Option<Seq<u8>>>, has: bool) -> i32 {
    mask_from(m, has, 0) as i32
}

pub open spec fn section_bytes(o: Option<Seq<u8>>) -> Seq<u8> {
    match o {
        Some(b) => spec_varint_serialize(LIGHT_DATA_LENGTH as i32) + b,
        None => Seq::empty(),
    }
}

/// The buffers of the present sections from `i` up, in order, each with its
/// length in front.
pub open spec fn data_bytes_from(m: Seq<Option<Seq<u8>>>, i: nat) -> Seq<u8>
    decreases LIGHT_DATA_SECTIONS - i,
{
    if i >= LIGHT_DATA_SECTIONS {
        Seq::empty()
    } else {
        section_bytes(m[i as int]) + data_bytes_from(m, i + 1)
    }
}

pub open spec fn prepend_section(
    o: Option<Seq<u8>>,
    r: SpecResult<Seq<Option<Seq<u8>>>>,
) -> SpecResult<Seq<Option<Seq<u8>>>> {
    match r {
        Ok((xs, rest)) => Ok((seq![o] + xs, rest)),
        Err(e) => Err(e),
    }
}

pub open spec fn prepend_sections(
    os: Seq<Option<Seq<u8>>>,
    r: SpecResult<Seq<Option<Seq<u8>>>>,
) -> SpecResult<Seq<Option<Seq<u8>>>> {
    match r {
        Ok((xs, rest)) => Ok((os + xs, rest)),
        Err(e) => Err(e),
    }
}

/// Reads `n` sections whose presence bits are the low bits of `rem`: each
/// present one is a `VarInt` length, which must be 2048, then the buffer.
pub open spec fn spec_sections(rem: nat, s: Seq<u8>, n: nat) -> SpecResult<Seq<Option<Seq<u8>>>>
    decreases n,
{
    if n == 0 {
        Ok((Seq::empty(), s))
    } else if rem % 2 == 1 {
        match spec_varint_deserialize(s) {
            Err(e) => Err(e),
            Ok((len, r)) => if len != LIGHT_DATA_LENGTH as i32 {
                Err(DeserializeErr::BadSectionLength(len))
            } else {
                match spec_take(r, LIGHT_DATA_LENGTH as nat) {
                    Err(e) => Err(e),
                    Ok((b, r2)) => prepend_section(
                        Some(b),
                        spec_sections(rem / 2, r2, (n - 1) as nat),
                    ),
                }
            },
        }
    } else {
        prepend_section(None, spec_sections(rem / 2, s, (n - 1) as nat))
    }
}

/// Every section, as `mask` says.
pub open spec fn spec_lighting_deserialize(mask: i32, s: Seq<u8>) -> SpecResult<
    Seq<Option<Seq<u8>>>,
> {
    spec_sections((mask as u32) as nat, s, LIGHT_DATA_SECTIONS as nat)
}

proof fn lemma_pow2_18()
    ensures
        pow2(17) == 0x20000,
        pow2(18) == 0x40000,
{
    reveal_with_fuel(pow2, 19);
}

proof fn lemma_pow2_monotonic(a: nat, b: nat)
    requires
        a <= b,
    ensures
        pow2(a) <= pow2(b),
    decreases b,
{
    if a < b {
        lemma_pow2_monotonic(a, (b - 1) as nat);
    }
}

proof fn lemma_mask_from_bound(m: Seq<Option<Seq<u8>>>, has: bool, i: nat)
    requires
        i <= LIGHT_DATA_SECTIONS,
    ensures
        mask_from(m, has, i) < pow2((LIGHT_DATA_SECTIONS - i) as nat),
    decreases LIGHT_DATA_SECTIONS - i,
{
    if i < LIGHT_DATA_SECTIONS {
        lemma_mask_from_bound(m, has, i + 1);
    }
}

/// Reading the sections that a mask announces gives back every section and
/// stops right after the last buffer.
proof fn lemma_sections_round_trip(m: Seq<Option<Seq<u8>>>, i: nat, rest: Seq<u8>)
    requires
        sections_wf(m),
        i <= LIGHT_DATA_SECTIONS,
    ensures
        spec_sections(mask_from(m, true, i), data_bytes_from(m, i) + rest, (LIGHT_DATA_SECTIONS - i) as nat)
            == Ok::<(Seq<Option<Seq<u8>>>, Seq<u8>), DeserializeErr>(
            (m.subrange(i as int, LIGHT_DATA_SECTIONS as int), rest),
        ),
    decreases LIGHT_DATA_SECTIONS - i,
{
    if i == LIGHT_DATA_SECTIONS {
        assert(m.subrange(i as int, LIGHT_DATA_SECTIONS as int) =~= Seq::<Option<Seq<u8>>>::empty());
        assert(Seq::<u8>::empty() + rest =~= rest);
    } else {
        let tail = data_bytes_from(m, i + 1) + rest;
        lemma_sections_round_trip(m, i + 1, rest);
        let rem = mask_from(m, true, i);
        assert(rem / 2 == mask_from(m, true, i + 1));
        assert(m.subrange(i as int, LIGHT_DATA_SECTIONS as int) =~= seq![m[i as int]]
            + m.subrange((i + 1) as int, LIGHT_DATA_SECTIONS as int));
        match m[i as int] {
            Some(b) => {
                assert(rem % 2 == 1);
                assert(data_bytes_from(m, i) + rest =~= spec_varint_serialize(
                    LIGHT_DATA_LENGTH as i32,
                ) + (b + tail));
                VarInt::lemma_round_trip(LIGHT_DATA_LENGTH as i32, b + tail);
                assert((b + tail).take(LIGHT_DATA_LENGTH as int) =~= b);
                assert((b + tail).skip(LIGHT_DATA_LENGTH as int) =~= tail);
            },
            None => {
                assert(rem % 2 == 0);
                assert(data_bytes_from(m, i) + rest =~= tail);
            },
        }
    }
}

impl LightingData {
    pub open spec fn spec_model(&self) -> Seq<Option<Seq<u8>>> {
        sections_model(self.data@)
    }

    pub open spec fn wf(&self) -> bool {
        sections_wf(self.spec_model())
    }

    /// Reads the sections that `update_mask` announces; bits above the
    /// eighteenth are ignored.
    pub fn deserialize(update_mask: VarInt, data: &[u8]) -> (r: Result<
        (LightingData, &[u8]),
        DeserializeErr,
    >)
        ensures
            read_matches(
                r,
                |v: LightingData| v.spec_model(),
                spec_lighting_deserialize(update_mask.0, data@),
            ),
            r matches Ok((v, _)) ==> v.wf(),
    {
        let mut out: Vec<Option<Vec<u8>>> = Vec::new();
        let mut rem: u32 = update_mask.0 as u32;
        let mut cur = data;
        let mut i: usize = 0;
        proof {
            if let Ok((ys, r)) = spec_lighting_deserialize(update_mask.0, data@) {
                assert(Seq::<Option<Seq<u8>>>::empty() + ys =~= ys);
            }
            assert(sections_model(out@) =~= Seq::<Option<Seq<u8>>>::empty());
        }
        while i < LIGHT_DATA_SECTIONS
            invariant
                i <= LIGHT_DATA_SECTIONS,
                out@.len() == i,
                forall|j: int| 0 <= j < i ==> (#[trigger] sections_model(out@)[j] matches Some(b)
                    ==> b.len() == LIGHT_DATA_LENGTH),
                spec_lighting_deserialize(update_mask.0, data@) == prepend_sections(
                    sections_model(out@),
                    spec_sections(rem as nat, cur@, (LIGHT_DATA_SECTIONS - i) as nat),
                ),
            decreases LIGHT_DATA_SECTIONS - i,
        {
            let ghost n = (LIGHT_DATA_SECTIONS - i) as nat;
            let ghost before = sections_model(out@);
            if rem % 2 == 1 {
                let (length, rest) = VarInt::mc_deserialize(cur)?;
                if length.0 != LIGHT_DATA_LENGTH as i32 {
                    return Err(DeserializeErr::BadSectionLength(length.0));
                }
                let (section, rest) = take_bytes(rest, LIGHT_DATA_LENGTH)?;
                let buf = vstd::slice::slice_to_vec(section);
                proof {
                    let tail = spec_sections((rem / 2) as nat, rest@, (n - 1) as nat);
                    if let Ok((ys, r)) = tail {
                        assert(before + (seq![Some(buf@)] + ys) =~= before.push(Some(buf@)) + ys);
                    }
                }
                out.push(Some(buf));
                cur = rest;
            } else {
                proof {
                    let tail = spec_sections((rem / 2) as nat, cur@, (n - 1) as nat);
                    if let Ok((ys, r)) = tail {
                        assert(before + (seq![None] + ys) =~= before.push(None) + ys);
                    }
                }
                out.push(None);
            }
            assert(sections_model(out@) =~= before.push(section_model(out@[i as int])));
            rem = rem / 2;
            i = i + 1;
        }
        proof {
            assert(sections_model(out@) + Seq::<Option<Seq<u8>>>::empty() =~= sections_model(out@));
        }
        Ok((LightingData { data: out }, cur))
    }

    /// The sections present, as a bitmask.
    pub fn update_mask(&self) -> (r: VarInt)
        requires
            self.wf(),
        ensures
            r.0 == spec_mask(self.spec_model(), true),
    {
        self.compute_has_mask(true)
    }

    /// The sections absent, as a bitmask.
    pub fn reset_mask(&self) -> (r: VarInt)
        requires
            self.wf(),
        ensures
            r.0 == spec_mask(self.spec_model(), false),
    {
        self.compute_has_mask(false)
    }

    /// The bitmask of the sections whose presence equals `has`.
    pub fn compute_has_mask(&self, has: bool) -> (r: VarInt)
        requires
            self.wf(),
        ensures
            r.0 == spec_mask(self.spec_model(), has),
            0 <= r.0 < 0x40000,
    {
        let ghost m = self.spec_model();
        let mut out: u32 = 0;
        let mut i: usize = LIGHT_DATA_SECTIONS;
        proof {
            lemma_pow2_18();
        }
        while i > 0
            invariant
                i <= LIGHT_DATA_SECTIONS,
                self.data@.len() == LIGHT_DATA_SECTIONS,
                m == self.spec_model(),
                out == mask_from(m, has, i as nat),
                out < pow2((LIGHT_DATA_SECTIONS - i) as nat),
                pow2(18) == 0x40000,
            decreases i,
        {
            proof {
                lemma_mask_from_bound(m, has, 0);
                lemma_mask_from_bound(m, has, (i - 1) as nat);
                lemma_pow2_18();
                lemma_pow2_monotonic((LIGHT_DATA_SECTIONS - i) as nat, 17);
            }
            let bit: u32 = if self.data[i - 1].is_some() == has {
                1
            } else {
                0
            };
            assert(m[i - 1] == section_model(self.data@[i - 1]));
            out = 2 * out + bit;
            i = i - 1;
        }
        proof {
            lemma_mask_from_bound(m, has, 0);
        }
        VarInt(out as i32)
    }

    /// Writes each present section's length and buffer, in section order.
    pub fn serialize_data(&self, to: &mut Vec<u8>)
        requires
            self.wf(),
        ensures
            final(to)@ == old(to)@ + data_bytes_from(self.spec_model(), 0),
    {
        let ghost m = self.spec_model();
        let ghost start = to@;
        let mut i: usize = 0;
        proof {
            assert(start + Seq::<u8>::empty() =~= start);
        }
        while i < LIGHT_DATA_SECTIONS
            invariant
                i <= LIGHT_DATA_SECTIONS,
                self.data@.len() == LIGHT_DATA_SECTIONS,
                m == self.spec_model(),
                to@ + data_bytes_from(m, i as nat) == start + data_bytes_from(m, 0),
            decreases LIGHT_DATA_SECTIONS - i,
        {
            let ghost before = to@;
            assert(m[i as int] == section_model(self.data@[i as int]));
            match &self.data[i] {
                Some(contents) => {
                    VarInt(LIGHT_DATA_LENGTH as i32).mc_serialize(to);
                    let ghost mid = to@;
                    to.extend_from_slice(contents.as_slice());
                    assert(to@ =~= mid + contents@);
                    assert(to@ + data_bytes_from(m, (i + 1) as nat) =~= before + data_bytes_from(
                        m,
                        i as nat,
                    ));
                },
                None => {
                    assert(data_bytes_from(m, i as nat) =~= data_bytes_from(m, (i + 1) as nat));
                },
            }
            i = i + 1;
        }
        assert(to@ =~= start + data_bytes_from(m, 0));
    }
}

/// Sky light and block light of one chunk column as values.
pub struct LightingUpdateModel {
    pub skylight: Seq<Option<Seq<u8>>>,
    pub blocklight: Seq<Option<Seq<u8>>>,
}

/// Sky light and block light of one chunk column.
#[derive(Debug, Clone, PartialEq, Eq)]
pub struct LightingUpdateSpec {
    pub skylight_data: LightingData,
    pub blocklight_data: LightingData,
}

proof fn lemma_lighting_round_trip(m: Seq<Option<Seq<u8>>>, rest: Seq<u8>)
    requires
        sections_wf(m),
    ensures
        spec_lighting_deserialize(spec_mask(m, true), data_bytes_from(m, 0) + rest) == Ok::<
            (Seq<Option<Seq<u8>>>, Seq<u8>),
            DeserializeErr,
        >((m, rest)),
{
    lemma_mask_from_bound(m, true, 0);
    lemma_pow2_18();
    let x = mask_from(m, true, 0);
    assert((x as i32) as u32 as nat == x);
    lemma_sections_round_trip(m, 0, rest);
    assert(m.subrange(0, LIGHT_DATA_SECTIONS as int) =~= m);
}

impl Codec for LightingUpdateSpec {
    type Model = LightingUpdateModel;

    open spec fn model(&self) -> LightingUpdateModel {
        LightingUpdateModel {
            skylight: self.skylight_data.spec_model(),
            blocklight: self.blocklight_data.spec_model(),
        }
    }

    open spec fn encodable(m: LightingUpdateModel) -> bool {
        sections_wf(m.skylight) && sections_wf(m.blocklight)
    }

    open spec fn legal(m: LightingUpdateModel) -> bool {
        sections_wf(m.skylight) && sections_wf(m.blocklight)
    }

    /// Both update masks, both reset masks, then the sky light buffers and
    /// the block light buffers.
    open spec fn spec_serialize(m: LightingUpdateModel) -> Seq<u8> {
        spec_varint_serialize(spec_mask(m.skylight, true)) + spec_varint_serialize(
            spec_mask(m.blocklight, true),
        ) + spec_varint_serialize(spec_mask(m.skylight, false)) + spec_varint_serialize(
            spec_mask(m.blocklight, false),
        ) + data_bytes_from(m.skylight, 0) + data_bytes_from(m.blocklight, 0)
    }

    /// The reset masks are read and not used: the update masks decide.
    open spec fn spec_deserialize(s: Seq<u8>) -> SpecResult<LightingUpdateModel> {
        match spec_varint_deserialize(s) {
            Err(e) => Err(e),
            Ok((sky, r1)) => match spec_varint_deserialize(r1) {
                Err(e) => Err(e),
                Ok((block, r2)) => match spec_varint_deserialize(r2) {
                    Err(e) => Err(e),
                    Ok((_, r3)) => match spec_varint_deserialize(r3) {
                        Err(e) => Err(e),
                        Ok((_, r4)) => match spec_lighting_deserialize(sky, r4) {
                            Err(e) => Err(e),
                            Ok((skylight, r5)) => match spec_lighting_deserialize(block, r5) {
                                Err(e) => Err(e),
                                Ok((blocklight, r6)) => Ok(
                                    (LightingUpdateModel { skylight, blocklight }, r6),
                                ),
                            },
                        },
                    },
                },
            },
        }
    }

    #[verifier::rlimit(100)]
    #[verifier::spinoff_prover]
    proof fn lemma_round_trip(m: LightingUpdateModel, rest: Seq<u8>) {
        let t5 = data_bytes_from(m.blocklight, 0) + rest;
        let t4 = data_bytes_from(m.skylight, 0) + t5;
        let t3 = spec_varint_serialize(spec_mask(m.blocklight, false)) + t4;
        let t2 = spec_varint_serialize(spec_mask(m.skylight, false)) + t3;
        let t1 = spec_varint_serialize(spec_mask(m.blocklight, true)) + t2;
        assert(Self::spec_serialize(m) + rest =~= spec_varint_serialize(spec_mask(m.skylight, true))
            + t1);
        VarInt::lemma_round_trip(spec_mask(m.skylight, true), t1);
        VarInt::lemma_round_trip(spec_mask(m.blocklight, true), t2);
        VarInt::lemma_round_trip(spec_mask(m.skylight, false), t3);
        VarInt::lemma_round_trip(spec_mask(m.blocklight, false), t4);
        lemma_lighting_round_trip(m.skylight, t5);
        lemma_lighting_round_trip(m.blocklight, rest);
    }

    fn mc_serialize(&self, to: &mut Vec<u8>) {
        let ghost start = to@;
        self.skylight_data.update_mask().mc_serialize(to);
        self.blocklight_data.update_mask().mc_serialize(to);
        self.skylight_data.reset_mask().mc_serialize(to);
        self.blocklight_data.reset_mask().mc_serialize(to);
        self.skylight_data.serialize_data(to);
        self.blocklight_data.serialize_data(to);
        assert(to@ =~= start + Self::spec_serialize(self.model()));
    }

    fn mc_deserialize(data: &[u8]) -> (r: Result<(Self, &[u8]), DeserializeErr>) {
        let (skylight_update_mask, rest) = VarInt::mc_deserialize(data)?;
        let (blocklight_update_mask, rest) = VarInt::mc_deserialize(rest)?;
        let (_, rest) = VarInt::mc_deserialize(rest)?;
        let (_, rest) = VarInt::mc_deserialize(rest)?;
        let (skylight_data, rest) = LightingData::deserialize(skylight_update_mask, rest)?;
        let (blocklight_data, rest) = LightingData::deserialize(blocklight_update_mask, rest)?;
        Ok((LightingUpdateSpec { skylight_data, blocklight_data }, rest))
    }
}

} // verus!
