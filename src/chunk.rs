//! A chunk column: coordinates, whether the whole column is sent, which
//! vertical sections carry data, height-map tag data, the biome of every
//! cell when the whole column is sent, the section data as a counted byte
//! buffer, and a counted sequence of block-entity tags.
use vstd::prelude::*;
use crate::codec::{Codec, DeserializeErr, SpecResult, read_matches};
use crate::varnum::{VarInt, spec_varint_serialize, spec_varint_deserialize};
use crate::containers::{
    VarIntCountedArray, CountedArray, models, spec_serialize_all, spec_deserialize_n,
    lemma_deserialize_n_round_trip, lemma_deserialize_n_len, write_all, read_n,
};
use crate::nbt::NamedNbtTag;

verus! {

/// Biome ids in a whole column.
pub const BIOMES_LEN: usize = 1024;

/// A chunk column as values.
pub struct ChunkDataModel {
    pub chunk_x: i32,
    pub chunk_z: i32,
    pub primary_bit_mask: i32,
    pub heightmaps: Seq<u8>,
    pub biomes: Option<Seq<i32>>,
    pub data: Seq<u8>,
    pub block_entities: Seq<Seq<u8>>,
}

/// A chunk column. The biomes are present exactly when the whole column is
/// sent, and then there are 1024 of them.
#[derive(Debug, Clone, PartialEq, Eq)]
pub struct ChunkData {
    pub chunk_x: i32,
    pub chunk_z: i32,
    pub primary_bit_mask: VarInt,
    pub heightmaps: NamedNbtTag,
    pub biomes: Option<Vec<i32>>,
    pub data: VarIntCountedArray<u8>,
    pub block_entities: Vec<NamedNbtTag>,
}

pub open spec fn spec_biome_bytes(o: Option<Seq<i32>>) -> Seq<u8> {
    match o {
        Some(b) => spec_serialize_all::<i32>(b),
        None => Seq::empty(),
    }
}

/// Reads 1024 biome ids when the column is whole.
pub open spec fn spec_read_biomes(full: bool, s: Seq<u8>) -> SpecResult<Option<Seq<i32>>> {
    if full {
        match spec_deserialize_n::<i32>(s, BIOMES_LEN as nat) {
            Err(e) => Err(e),
            Ok((b, r)) => Ok((Some(b), r)),
        }
    } else {
        Ok((None, s))
    }
}

pub open spec fn biomes_model(o: Option<Vec<i32>>) -> Option<Seq<i32>> {
    match o {
        Some(b) => Some(b@),
        None => None,
    }
}

proof fn lemma_i32_models(v: Seq<i32>)
    ensures
        models(v) == v,
{
    assert(models(v) =~= v);
}

impl Codec for ChunkData {
    type Model = ChunkDataModel;

    open spec fn model(&self) -> ChunkDataModel {
        ChunkDataModel {
            chunk_x: self.chunk_x,
            chunk_z: self.chunk_z,
            primary_bit_mask: self.primary_bit_mask.0,
            heightmaps: self.heightmaps.raw@,
            biomes: biomes_model(self.biomes),
            data: self.data.model(),
            block_entities: models(self.block_entities@),
        }
    }

    /// A whole column carries exactly 1024 biomes, since no count is sent.
    open spec fn encodable(m: ChunkDataModel) -> bool {
        &&& m.biomes matches Some(b) ==> b.len() == BIOMES_LEN
        &&& VarIntCountedArray::<u8>::encodable(m.data)
        &&& VarIntCountedArray::<NamedNbtTag>::encodable(m.block_entities)
    }

    open spec fn legal(m: ChunkDataModel) -> bool {
        &&& NamedNbtTag::legal(m.heightmaps)
        &&& m.biomes matches Some(b) ==> b.len() == BIOMES_LEN
        &&& VarIntCountedArray::<u8>::legal(m.data)
        &&& VarIntCountedArray::<NamedNbtTag>::legal(m.block_entities)
    }

    open spec fn spec_serialize(m: ChunkDataModel) -> Seq<u8> {
        i32::spec_serialize(m.chunk_x) + i32::spec_serialize(m.chunk_z) + bool::spec_serialize(
            m.biomes is Some,
        ) + spec_varint_serialize(m.primary_bit_mask) + m.heightmaps + spec_biome_bytes(m.biomes)
            + VarIntCountedArray::<u8>::spec_serialize(m.data)
            + VarIntCountedArray::<NamedNbtTag>::spec_serialize(m.block_entities)
    }

    open spec fn spec_deserialize(s: Seq<u8>) -> SpecResult<ChunkDataModel> {
        match i32::spec_deserialize(s) {
            Err(e) => Err(e),
            Ok((chunk_x, r1)) => match i32::spec_deserialize(r1) {
                Err(e) => Err(e),
                Ok((chunk_z, r2)) => match bool::spec_deserialize(r2) {
                    Err(e) => Err(e),
                    Ok((full, r3)) => match spec_varint_deserialize(r3) {
                        Err(e) => Err(e),
                        Ok((primary_bit_mask, r4)) => match NamedNbtTag::spec_deserialize(r4) {
                            Err(e) => Err(e),
                            Ok((heightmaps, r5)) => match spec_read_biomes(full, r5) {
                                Err(e) => Err(e),
                                Ok((biomes, r6)) => match VarIntCountedArray::<
                                    u8,
                                >::spec_deserialize(r6) {
                                    Err(e) => Err(e),
                                    Ok((data, r7)) => match VarIntCountedArray::<
                                        NamedNbtTag,
                                    >::spec_deserialize(r7) {
                                        Err(e) => Err(e),
                                        Ok((block_entities, r8)) => Ok(
                                            (
                                                ChunkDataModel {
                                                    chunk_x,
                                                    chunk_z,
                                                    primary_bit_mask,
                                                    heightmaps,
                                                    biomes,
                                                    data,
                                                    block_entities,
                                                },
                                                r8,
                                            ),
                                        ),
                                    },
                                },
                            },
                        },
                    },
                },
            },
        }
    }

    #[verifier::rlimit(80)]
    proof fn lemma_round_trip(m: ChunkDataModel, rest: Seq<u8>) {
        let t7 = VarIntCountedArray::<NamedNbtTag>::spec_serialize(m.block_entities) + rest;
        let t6 = VarIntCountedArray::<u8>::spec_serialize(m.data) + t7;
        let t5 = spec_biome_bytes(m.biomes) + t6;
        let t4 = m.heightmaps + t5;
        let t3 = spec_varint_serialize(m.primary_bit_mask) + t4;
        let t2 = bool::spec_serialize(m.biomes is Some) + t3;
        let t1 = i32::spec_serialize(m.chunk_z) + t2;
        assert(Self::spec_serialize(m) + rest =~= i32::spec_serialize(m.chunk_x) + t1);
        i32::lemma_round_trip(m.chunk_x, t1);
        i32::lemma_round_trip(m.chunk_z, t2);
        bool::lemma_round_trip(m.biomes is Some, t3);
        VarInt::lemma_round_trip(m.primary_bit_mask, t4);
        NamedNbtTag::lemma_round_trip(m.heightmaps, t5);
        match m.biomes {
            Some(b) => {
                lemma_deserialize_n_round_trip::<i32>(b, t6);
            },
            None => {
                assert(t5 =~= t6);
            },
        }
        VarIntCountedArray::<u8>::lemma_round_trip(m.data, t7);
        VarIntCountedArray::<NamedNbtTag>::lemma_round_trip(m.block_entities, rest);
    }

    fn mc_serialize(&self, to: &mut Vec<u8>) {
        let ghost start = to@;
        self.chunk_x.mc_serialize(to);
        self.chunk_z.mc_serialize(to);
        let full_chunk = self.biomes.is_some();
        full_chunk.mc_serialize(to);
        self.primary_bit_mask.mc_serialize(to);
        self.heightmaps.mc_serialize(to);
        if let Some(biomes) = &self.biomes {
            proof {
                lemma_i32_models(biomes@);
            }
            write_all(biomes, to);
        }
        self.data.mc_serialize(to);
        VarInt(self.block_entities.len() as i32).mc_serialize(to);
        write_all(&self.block_entities, to);
        assert(to@ =~= start + Self::spec_serialize(self.model()));
    }

    fn mc_deserialize(data: &[u8]) -> (r: Result<(Self, &[u8]), DeserializeErr>) {
        let (chunk_x, rest) = i32::mc_deserialize(data)?;
        let (chunk_z, rest) = i32::mc_deserialize(rest)?;
        let (is_full_chunk, rest) = bool::mc_deserialize(rest)?;
        let (primary_bit_mask, rest) = VarInt::mc_deserialize(rest)?;
        let (heightmaps, rest) = NamedNbtTag::mc_deserialize(rest)?;
        let (biomes, rest) = if is_full_chunk {
            let (biomes, rest) = read_n::<i32>(rest, BIOMES_LEN as u64)?;
            proof {
                lemma_i32_models(biomes@);
            }
            (Some(biomes), rest)
        } else {
            (None, rest)
        };
        let (chunk_data, rest) = VarIntCountedArray::<u8>::mc_deserialize(rest)?;
        let (block_entities, rest) = VarIntCountedArray::<NamedNbtTag>::mc_deserialize(rest)?;
        Ok((
            ChunkData {
                chunk_x,
                chunk_z,
                primary_bit_mask,
                heightmaps,
                biomes,
                data: chunk_data,
                block_entities: block_entities.data,
            },
            rest,
        ))
    }
}

/// A decoded whole column carries exactly 1024 biomes. (The block entities
/// are a counted sequence, whose fidelity `lemma_counted_fidelity` states.)
pub proof fn lemma_chunk_counts(s: Seq<u8>)
    ensures
        ChunkData::spec_deserialize(s) matches Ok((c, _)) ==> (c.biomes matches Some(b) ==> b.len()
            == BIOMES_LEN),
{
    if let Ok((_, r1)) = i32::spec_deserialize(s) {
        if let Ok((_, r2)) = i32::spec_deserialize(r1) {
            if let Ok((_, r3)) = bool::spec_deserialize(r2) {
                if let Ok((_, r4)) = spec_varint_deserialize(r3) {
                    if let Ok((_, r5)) = NamedNbtTag::spec_deserialize(r4) {
                        lemma_deserialize_n_len::<i32>(r5, BIOMES_LEN as nat);
                    }
                }
            }
        }
    }
}

} // verus!
