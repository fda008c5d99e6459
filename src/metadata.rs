//! Entity metadata: a self-terminating list of entries, each an index byte
//! and a value tagged by a `VarInt`, ended by the index byte 0xFF, and the
//! value types those entries carry.
use vstd::prelude::*;
use vstd::pervasive::arbitrary;
use vstd::seq_lib::lemma_concat_associative;
use crate::codec::{Codec, DeserializeErr, SpecResult, read_matches};
use crate::varnum::{VarInt, spec_varint_serialize, spec_varint_deserialize};
use crate::primitives::{
    Float32, UUID4, be64, from_be64, spec_take, write_be64, read_be64, lemma_be64, lemma_take_concat,
    spec_string_serialize, spec_string_deserialize,
};
use crate::nbt::NamedNbtTag;
use crate::recipes::Slot;

verus! {

/// A rotation as values.
pub struct EntityRotationModel {
    pub x: <Float32 as Codec>::Model,
    pub y: <Float32 as Codec>::Model,
    pub z: <Float32 as Codec>::Model,
}

/// Rotation about each axis, in degrees.
#[derive(Debug, Clone, Copy, PartialEq, Eq)]
pub struct EntityRotation {
    pub x: Float32,
    pub y: Float32,
    pub z: Float32,
}

impl Codec for EntityRotation {
    type Model = EntityRotationModel;

    open spec fn model(&self) -> EntityRotationModel {
        EntityRotationModel { x: self.x.model(), y: self.y.model(), z: self.z.model() }
    }

    open spec fn encodable(m: EntityRotationModel) -> bool {
        Float32::encodable(m.x) && Float32::encodable(m.y) && Float32::encodable(m.z)
    }

    open spec fn legal(m: EntityRotationModel) -> bool {
        Float32::legal(m.x) && Float32::legal(m.y) && Float32::legal(m.z)
    }

    open spec fn spec_serialize(m: EntityRotationModel) -> Seq<u8> {
        Float32::spec_serialize(m.x) + Float32::spec_serialize(m.y) + Float32::spec_serialize(m.z)
    }

    open spec fn spec_deserialize(s: Seq<u8>) -> SpecResult<EntityRotationModel> {
        match Float32::spec_deserialize(s) {
            Err(e) => Err(e),
            Ok((x, r1)) => match Float32::spec_deserialize(r1) {
                Err(e) => Err(e),
                Ok((y, r2)) => match Float32::spec_deserialize(r2) {
                    Err(e) => Err(e),
                    Ok((z, r3)) => Ok((EntityRotationModel { x, y, z }, r3)),
                },
            },
        }
    }

    proof fn lemma_round_trip(m: EntityRotationModel, rest: Seq<u8>) {
        let t2 = Float32::spec_serialize(m.z) + rest;
        let t1 = Float32::spec_serialize(m.y) + t2;
        let p1 = Float32::spec_serialize(m.x);
        let p2 = p1 + Float32::spec_serialize(m.y);
        let p3 = p2 + Float32::spec_serialize(m.z);
        assert(Self::spec_serialize(m) == p3);
        lemma_concat_associative(p2, Float32::spec_serialize(m.z), rest);
        lemma_concat_associative(p1, Float32::spec_serialize(m.y), t2);
        Float32::lemma_round_trip(m.x, t1);
        Float32::lemma_round_trip(m.y, t2);
        Float32::lemma_round_trip(m.z, rest);
    }

    fn mc_serialize(&self, to: &mut Vec<u8>) {
        let ghost start = to@;
        self.x.mc_serialize(to);
        self.y.mc_serialize(to);
        proof {
            lemma_concat_associative(start, Float32::spec_serialize(self.x.model()), Float32::spec_serialize(self.y.model()));
        }
        self.z.mc_serialize(to);
        proof {
            lemma_concat_associative(start, Float32::spec_serialize(self.x.model()) + Float32::spec_serialize(self.y.model()), Float32::spec_serialize(self.z.model()));
        }
        assert(to@ =~= start + Self::spec_serialize(self.model()));
    }

    fn mc_deserialize(data: &[u8]) -> (r: Result<(Self, &[u8]), DeserializeErr>) {
        let (x, rest) = Float32::mc_deserialize(data)?;
        let (y, rest) = Float32::mc_deserialize(rest)?;
        let (z, rest) = Float32::mc_deserialize(rest)?;
        Ok((EntityRotation { x, y, z }, rest))
    }
}

/// A block face direction.
#[derive(Debug, Clone, Copy, PartialEq, Eq, Structural)]
pub enum EntityDirection {
    Down,
    Up,
    North,
    South,
    West,
    East,
}

impl EntityDirection {
    pub open spec fn spec_id(m: EntityDirection) -> i32 {
        match m {
            EntityDirection::Down => 0,
            EntityDirection::Up => 1,
            EntityDirection::North => 2,
            EntityDirection::South => 3,
            EntityDirection::West => 4,
            EntityDirection::East => 5,
        }
    }

    pub open spec fn spec_of_id(id: i32) -> Option<EntityDirection> {
        match id {
            0 => Some(EntityDirection::Down),
            1 => Some(EntityDirection::Up),
            2 => Some(EntityDirection::North),
            3 => Some(EntityDirection::South),
            4 => Some(EntityDirection::West),
            5 => Some(EntityDirection::East),
            _ => None,
        }
    }

    /// The discriminant written for this variant.
    pub fn id(&self) -> (r: i32)
        ensures
            r == Self::spec_id(*self),
    {
        match self {
            EntityDirection::Down => 0,
            EntityDirection::Up => 1,
            EntityDirection::North => 2,
            EntityDirection::South => 3,
            EntityDirection::West => 4,
            EntityDirection::East => 5,
        }
    }
}

impl Codec for EntityDirection {
    type Model = EntityDirection;

    open spec fn model(&self) -> EntityDirection {
        *self
    }

    open spec fn encodable(m: EntityDirection) -> bool {
        true
    }

    open spec fn legal(m: EntityDirection) -> bool {
        true
    }

    open spec fn spec_serialize(m: EntityDirection) -> Seq<u8> {
        spec_varint_serialize(Self::spec_id(m))
    }

    /// A discriminant that names no variant is an error carrying it.
    open spec fn spec_deserialize(s: Seq<u8>) -> SpecResult<EntityDirection> {
        match spec_varint_deserialize(s) {
            Err(e) => Err(e),
            Ok((id, rest)) => match Self::spec_of_id(id) {
                Some(v) => Ok((v, rest)),
                None => Err(DeserializeErr::UnknownTag(id as i64)),
            },
        }
    }

    proof fn lemma_round_trip(m: EntityDirection, rest: Seq<u8>) {
        VarInt::lemma_round_trip(Self::spec_id(m), rest);
    }

    fn mc_serialize(&self, to: &mut Vec<u8>) {
        VarInt(self.id()).mc_serialize(to);
    }

    fn mc_deserialize(data: &[u8]) -> (r: Result<(Self, &[u8]), DeserializeErr>) {
        let (id, rest) = VarInt::mc_deserialize(data)?;
        let id = id.0;
        match id {
            0 => Ok((EntityDirection::Down, rest)),
            1 => Ok((EntityDirection::Up, rest)),
            2 => Ok((EntityDirection::North, rest)),
            3 => Ok((EntityDirection::South, rest)),
            4 => Ok((EntityDirection::West, rest)),
            5 => Ok((EntityDirection::East, rest)),
            _ => Err(DeserializeErr::UnknownTag(id as i64)),
        }
    }
}

/// A villager's biome type.
#[derive(Debug, Clone, Copy, PartialEq, Eq, Structural)]
pub enum VillagerType {
    Desert,
    Jungle,
    Plains,
    Savanna,
    Snow,
    Swamp,
    Taiga,
}

impl VillagerType {
    pub open spec fn spec_id(m: VillagerType) -> i32 {
        match m {
            VillagerType::Desert => 0,
            VillagerType::Jungle => 1,
            VillagerType::Plains => 2,
            VillagerType::Savanna => 3,
            VillagerType::Snow => 4,
            VillagerType::Swamp => 5,
            VillagerType::Taiga => 6,
        }
    }

    pub open spec fn spec_of_id(id: i32) -> Option<VillagerType> {
        match id {
            0 => Some(VillagerType::Desert),
            1 => Some(VillagerType::Jungle),
            2 => Some(VillagerType::Plains),
            3 => Some(VillagerType::Savanna),
            4 => Some(VillagerType::Snow),
            5 => Some(VillagerType::Swamp),
            6 => Some(VillagerType::Taiga),
            _ => None,
        }
    }

    /// The discriminant written for this variant.
    pub fn id(&self) -> (r: i32)
        ensures
            r == Self::spec_id(*self),
    {
        match self {
            VillagerType::Desert => 0,
            VillagerType::Jungle => 1,
            VillagerType::Plains => 2,
            VillagerType::Savanna => 3,
            VillagerType::Snow => 4,
            VillagerType::Swamp => 5,
            VillagerType::Taiga => 6,
        }
    }
}

impl Codec for VillagerType {
    type Model = VillagerType;

    open spec fn model(&self) -> VillagerType {
        *self
    }

    open spec fn encodable(m: VillagerType) -> bool {
        true
    }

    open spec fn legal(m: VillagerType) -> bool {
        true
    }

    open spec fn spec_serialize(m: VillagerType) -> Seq<u8> {
        spec_varint_serialize(Self::spec_id(m))
    }

    /// A discriminant that names no variant is an error carrying it.
    open spec fn spec_deserialize(s: Seq<u8>) -> SpecResult<VillagerType> {
        match spec_varint_deserialize(s) {
            Err(e) => Err(e),
            Ok((id, rest)) => match Self::spec_of_id(id) {
                Some(v) => Ok((v, rest)),
                None => Err(DeserializeErr::UnknownTag(id as i64)),
            },
        }
    }

    proof fn lemma_round_trip(m: VillagerType, rest: Seq<u8>) {
        VarInt::lemma_round_trip(Self::spec_id(m), rest);
    }

    fn mc_serialize(&self, to: &mut Vec<u8>) {
        VarInt(self.id()).mc_serialize(to);
    }

    fn mc_deserialize(data: &[u8]) -> (r: Result<(Self, &[u8]), DeserializeErr>) {
        let (id, rest) = VarInt::mc_deserialize(data)?;
        let id = id.0;
        match id {
            0 => Ok((VillagerType::Desert, rest)),
            1 => Ok((VillagerType::Jungle, rest)),
            2 => Ok((VillagerType::Plains, rest)),
            3 => Ok((VillagerType::Savanna, rest)),
            4 => Ok((VillagerType::Snow, rest)),
            5 => Ok((VillagerType::Swamp, rest)),
            6 => Ok((VillagerType::Taiga, rest)),
            _ => Err(DeserializeErr::UnknownTag(id as i64)),
        }
    }
}

/// A villager's profession.
#[derive(Debug, Clone, Copy, PartialEq, Eq, Structural)]
pub enum VillagerProfession {
    NoProfession,
    Armorer,
    Butcher,
    Cartographer,
    Cleric,
    Farmer,
    Fisherman,
    Fletcher,
    LeatherWorker,
    Librarian,
    Mason,
    Nitwit,
    Shepherd,
    Toolsmith,
    Weaponsmith,
}

impl VillagerProfession {
    pub open spec fn spec_id(m: VillagerProfession) -> i32 {
        match m {
            VillagerProfession::NoProfession => 0,
            VillagerProfession::Armorer => 1,
            VillagerProfession::Butcher => 2,
            VillagerProfession::Cartographer => 3,
            VillagerProfession::Cleric => 4,
            VillagerProfession::Farmer => 5,
            VillagerProfession::Fisherman => 6,
            VillagerProfession::Fletcher => 7,
            VillagerProfession::LeatherWorker => 8,
            VillagerProfession::Librarian => 9,
            VillagerProfession::Mason => 10,
            VillagerProfession::Nitwit => 11,
            VillagerProfession::Shepherd => 12,
            VillagerProfession::Toolsmith => 13,
            VillagerProfession::Weaponsmith => 14,
        }
    }

    pub open spec fn spec_of_id(id: i32) -> Option<VillagerProfession> {
        match id {
            0 => Some(VillagerProfession::NoProfession),
            1 => Some(VillagerProfession::Armorer),
            2 => Some(VillagerProfession::Butcher),
            3 => Some(VillagerProfession::Cartographer),
            4 => Some(VillagerProfession::Cleric),
            5 => Some(VillagerProfession::Farmer),
            6 => Some(VillagerProfession::Fisherman),
            7 => Some(VillagerProfession::Fletcher),
            8 => Some(VillagerProfession::LeatherWorker),
            9 => Some(VillagerProfession::Librarian),
            10 => Some(VillagerProfession::Mason),
            11 => Some(VillagerProfession::Nitwit),
            12 => Some(VillagerProfession::Shepherd),
            13 => Some(VillagerProfession::Toolsmith),
            14 => Some(VillagerProfession::Weaponsmith),
            _ => None,
        }
    }

    /// The discriminant written for this variant.
    pub fn id(&self) -> (r: i32)
        ensures
            r == Self::spec_id(*self),
    {
        match self {
            VillagerProfession::NoProfession => 0,
            VillagerProfession::Armorer => 1,
            VillagerProfession::Butcher => 2,
            VillagerProfession::Cartographer => 3,
            VillagerProfession::Cleric => 4,
            VillagerProfession::Farmer => 5,
            VillagerProfession::Fisherman => 6,
            VillagerProfession::Fletcher => 7,
            VillagerProfession::LeatherWorker => 8,
            VillagerProfession::Librarian => 9,
            VillagerProfession::Mason => 10,
            VillagerProfession::Nitwit => 11,
            VillagerProfession::Shepherd => 12,
            VillagerProfession::Toolsmith => 13,
            VillagerProfession::Weaponsmith => 14,
        }
    }
}

impl Codec for VillagerProfession {
    type Model = VillagerProfession;

    open spec fn model(&self) -> VillagerProfession {
        *self
    }

    open spec fn encodable(m: VillagerProfession) -> bool {
        true
    }

    open spec fn legal(m: VillagerProfession) -> bool {
        true
    }

    open spec fn spec_serialize(m: VillagerProfession) -> Seq<u8> {
        spec_varint_serialize(Self::spec_id(m))
    }

    /// A discriminant that names no variant is an error carrying it.
    open spec fn spec_deserialize(s: Seq<u8>) -> SpecResult<VillagerProfession> {
        match spec_varint_deserialize(s) {
            Err(e) => Err(e),
            Ok((id, rest)) => match Self::spec_of_id(id) {
                Some(v) => Ok((v, rest)),
                None => Err(DeserializeErr::UnknownTag(id as i64)),
            },
        }
    }

    proof fn lemma_round_trip(m: VillagerProfession, rest: Seq<u8>) {
        VarInt::lemma_round_trip(Self::spec_id(m), rest);
    }

    fn mc_serialize(&self, to: &mut Vec<u8>) {
        VarInt(self.id()).mc_serialize(to);
    }

    fn mc_deserialize(data: &[u8]) -> (r: Result<(Self, &[u8]), DeserializeErr>) {
        let (id, rest) = VarInt::mc_deserialize(data)?;
        let id = id.0;
        match id {
            0 => Ok((VillagerProfession::NoProfession, rest)),
            1 => Ok((VillagerProfession::Armorer, rest)),
            2 => Ok((VillagerProfession::Butcher, rest)),
            3 => Ok((VillagerProfession::Cartographer, rest)),
            4 => Ok((VillagerProfession::Cleric, rest)),
            5 => Ok((VillagerProfession::Farmer, rest)),
            6 => Ok((VillagerProfession::Fisherman, rest)),
            7 => Ok((VillagerProfession::Fletcher, rest)),
            8 => Ok((VillagerProfession::LeatherWorker, rest)),
            9 => Ok((VillagerProfession::Librarian, rest)),
            10 => Ok((VillagerProfession::Mason, rest)),
            11 => Ok((VillagerProfession::Nitwit, rest)),
            12 => Ok((VillagerProfession::Shepherd, rest)),
            13 => Ok((VillagerProfession::Toolsmith, rest)),
            14 => Ok((VillagerProfession::Weaponsmith, rest)),
            _ => Err(DeserializeErr::UnknownTag(id as i64)),
        }
    }
}

/// An entity's pose.
#[derive(Debug, Clone, Copy, PartialEq, Eq, Structural)]
pub enum EntityPose {
    Standing,
    FallFlying,
    Sleeping,
    Swimming,
    SpinAttack,
    Sneaking,
    Dying,
}

impl EntityPose {
    pub open spec fn spec_id(m: EntityPose) -> i32 {
        match m {
            EntityPose::Standing => 0,
            EntityPose::FallFlying => 1,
            EntityPose::Sleeping => 2,
            EntityPose::Swimming => 3,
            EntityPose::SpinAttack => 4,
            EntityPose::Sneaking => 5,
            EntityPose::Dying => 6,
        }
    }

    pub open spec fn spec_of_id(id: i32) -> Option<EntityPose> {
        match id {
            0 => Some(EntityPose::Standing),
            1 => Some(EntityPose::FallFlying),
            2 => Some(EntityPose::Sleeping),
            3 => Some(EntityPose::Swimming),
            4 => Some(EntityPose::SpinAttack),
            5 => Some(EntityPose::Sneaking),
            6 => Some(EntityPose::Dying),
            _ => None,
        }
    }

    /// The discriminant written for this variant.
    pub fn id(&self) -> (r: i32)
        ensures
            r == Self::spec_id(*self),
    {
        match self {
            EntityPose::Standing => 0,
            EntityPose::FallFlying => 1,
            EntityPose::Sleeping => 2,
            EntityPose::Swimming => 3,
            EntityPose::SpinAttack => 4,
            EntityPose::Sneaking => 5,
            EntityPose::Dying => 6,
        }
    }
}

impl Codec for EntityPose {
    type Model = EntityPose;

    open spec fn model(&self) -> EntityPose {
        *self
    }

    open spec fn encodable(m: EntityPose) -> bool {
        true
    }

    open spec fn legal(m: EntityPose) -> bool {
        true
    }

    open spec fn spec_serialize(m: EntityPose) -> Seq<u8> {
        spec_varint_serialize(Self::spec_id(m))
    }

    /// A discriminant that names no variant is an error carrying it.
    open spec fn spec_deserialize(s: Seq<u8>) -> SpecResult<EntityPose> {
        match spec_varint_deserialize(s) {
            Err(e) => Err(e),
            Ok((id, rest)) => match Self::spec_of_id(id) {
                Some(v) => Ok((v, rest)),
                None => Err(DeserializeErr::UnknownTag(id as i64)),
            },
        }
    }

    proof fn lemma_round_trip(m: EntityPose, rest: Seq<u8>) {
        VarInt::lemma_round_trip(Self::spec_id(m), rest);
    }

    fn mc_serialize(&self, to: &mut Vec<u8>) {
        VarInt(self.id()).mc_serialize(to);
    }

    fn mc_deserialize(data: &[u8]) -> (r: Result<(Self, &[u8]), DeserializeErr>) {
        let (id, rest) = VarInt::mc_deserialize(data)?;
        let id = id.0;
        match id {
            0 => Ok((EntityPose::Standing, rest)),
            1 => Ok((EntityPose::FallFlying, rest)),
            2 => Ok((EntityPose::Sleeping, rest)),
            3 => Ok((EntityPose::Swimming, rest)),
            4 => Ok((EntityPose::SpinAttack, rest)),
            5 => Ok((EntityPose::Sneaking, rest)),
            6 => Ok((EntityPose::Dying, rest)),
            _ => Err(DeserializeErr::UnknownTag(id as i64)),
        }
    }
}

/// Villager data as values.
pub struct EntityVillagerDataModel {
    pub villager_type: <VillagerType as Codec>::Model,
    pub villager_profession: <VillagerProfession as Codec>::Model,
    pub level: <VarInt as Codec>::Model,
}

/// A villager's type, profession and level.
#[derive(Debug, Clone, Copy, PartialEq, Eq)]
pub struct EntityVillagerData {
    pub villager_type: VillagerType,
    pub villager_profession: VillagerProfession,
    pub level: VarInt,
}

impl Codec for EntityVillagerData {
    type Model = EntityVillagerDataModel;

    open spec fn model(&self) -> EntityVillagerDataModel {
        EntityVillagerDataModel { villager_type: self.villager_type.model(), villager_profession: self.villager_profession.model(), level: self.level.model() }
    }

    open spec fn encodable(m: EntityVillagerDataModel) -> bool {
        VillagerType::encodable(m.villager_type) && VillagerProfession::encodable(m.villager_profession) && VarInt::encodable(m.level)
    }

    open spec fn legal(m: EntityVillagerDataModel) -> bool {
        VillagerType::legal(m.villager_type) && VillagerProfession::legal(m.villager_profession) && VarInt::legal(m.level)
    }

    open spec fn spec_serialize(m: EntityVillagerDataModel) -> Seq<u8> {
        VillagerType::spec_serialize(m.villager_type) + VillagerProfession::spec_serialize(m.villager_profession) + VarInt::spec_serialize(m.level)
    }

    open spec fn spec_deserialize(s: Seq<u8>) -> SpecResult<EntityVillagerDataModel> {
        match VillagerType::spec_deserialize(s) {
            Err(e) => Err(e),
            Ok((villager_type, r1)) => match VillagerProfession::spec_deserialize(r1) {
                Err(e) => Err(e),
                Ok((villager_profession, r2)) => match VarInt::spec_deserialize(r2) {
                    Err(e) => Err(e),
                    Ok((level, r3)) => Ok((EntityVillagerDataModel { villager_type, villager_profession, level }, r3)),
                },
            },
        }
    }

    proof fn lemma_round_trip(m: EntityVillagerDataModel, rest: Seq<u8>) {
        let t2 = VarInt::spec_serialize(m.level) + rest;
        let t1 = VillagerProfession::spec_serialize(m.villager_profession) + t2;
        let p1 = VillagerType::spec_serialize(m.villager_type);
        let p2 = p1 + VillagerProfession::spec_serialize(m.villager_profession);
        let p3 = p2 + VarInt::spec_serialize(m.level);
        assert(Self::spec_serialize(m) == p3);
        lemma_concat_associative(p2, VarInt::spec_serialize(m.level), rest);
        lemma_concat_associative(p1, VillagerProfession::spec_serialize(m.villager_profession), t2);
        VillagerType::lemma_round_trip(m.villager_type, t1);
        VillagerProfession::lemma_round_trip(m.villager_profession, t2);
        VarInt::lemma_round_trip(m.level, rest);
    }

    fn mc_serialize(&self, to: &mut Vec<u8>) {
        let ghost start = to@;
        self.villager_type.mc_serialize(to);
        self.villager_profession.mc_serialize(to);
        proof {
            lemma_concat_associative(start, VillagerType::spec_serialize(self.villager_type.model()), VillagerProfession::spec_serialize(self.villager_profession.model()));
        }
        self.level.mc_serialize(to);
        proof {
            lemma_concat_associative(start, VillagerType::spec_serialize(self.villager_type.model()) + VillagerProfession::spec_serialize(self.villager_profession.model()), VarInt::spec_serialize(self.level.model()));
        }
        assert(to@ =~= start + Self::spec_serialize(self.model()));
    }

    fn mc_deserialize(data: &[u8]) -> (r: Result<(Self, &[u8]), DeserializeErr>) {
        let (villager_type, rest) = VillagerType::mc_deserialize(data)?;
        let (villager_profession, rest) = VillagerProfession::mc_deserialize(rest)?;
        let (level, rest) = VarInt::mc_deserialize(rest)?;
        Ok((EntityVillagerData { villager_type, villager_profession, level }, rest))
    }
}

/// Block particle data as values.
pub struct BlockParticleDataModel {
    pub block_state: <VarInt as Codec>::Model,
}

/// The block state a block particle shows.
#[derive(Debug, Clone, Copy, PartialEq, Eq)]
pub struct BlockParticleData {
    pub block_state: VarInt,
}

impl Codec for BlockParticleData {
    type Model = BlockParticleDataModel;

    open spec fn model(&self) -> BlockParticleDataModel {
        BlockParticleDataModel { block_state: self.block_state.model() }
    }

    open spec fn encodable(m: BlockParticleDataModel) -> bool {
        VarInt::encodable(m.block_state)
    }

    open spec fn legal(m: BlockParticleDataModel) -> bool {
        VarInt::legal(m.block_state)
    }

    open spec fn spec_serialize(m: BlockParticleDataModel) -> Seq<u8> {
        VarInt::spec_serialize(m.block_state)
    }

    open spec fn spec_deserialize(s: Seq<u8>) -> SpecResult<BlockParticleDataModel> {
        match VarInt::spec_deserialize(s) {
            Err(e) => Err(e),
            Ok((block_state, r1)) => Ok((BlockParticleDataModel { block_state }, r1)),
        }
    }

    proof fn lemma_round_trip(m: BlockParticleDataModel, rest: Seq<u8>) {
        VarInt::lemma_round_trip(m.block_state, rest);
    }

    fn mc_serialize(&self, to: &mut Vec<u8>) {
        let ghost start = to@;
        self.block_state.mc_serialize(to);
        assert(to@ =~= start + Self::spec_serialize(self.model()));
    }

    fn mc_deserialize(data: &[u8]) -> (r: Result<(Self, &[u8]), DeserializeErr>) {
        let (block_state, rest) = VarInt::mc_deserialize(data)?;
        Ok((BlockParticleData { block_state }, rest))
    }
}

/// Dust particle data as values.
pub struct DustParticleDataModel {
    pub red: <Float32 as Codec>::Model,
    pub green: <Float32 as Codec>::Model,
    pub blue: <Float32 as Codec>::Model,
    pub scale: <Float32 as Codec>::Model,
}

/// The colour and size of a dust particle.
#[derive(Debug, Clone, Copy, PartialEq, Eq)]
pub struct DustParticleData {
    pub red: Float32,
    pub green: Float32,
    pub blue: Float32,
    pub scale: Float32,
}

impl Codec for DustParticleData {
    type Model = DustParticleDataModel;

    open spec fn model(&self) -> DustParticleDataModel {
        DustParticleDataModel { red: self.red.model(), green: self.green.model(), blue: self.blue.model(), scale: self.scale.model() }
    }

    open spec fn encodable(m: DustParticleDataModel) -> bool {
        Float32::encodable(m.red) && Float32::encodable(m.green) && Float32::encodable(m.blue) && Float32::encodable(m.scale)
    }

    open spec fn legal(m: DustParticleDataModel) -> bool {
        Float32::legal(m.red) && Float32::legal(m.green) && Float32::legal(m.blue) && Float32::legal(m.scale)
    }

    open spec fn spec_serialize(m: DustParticleDataModel) -> Seq<u8> {
        Float32::spec_serialize(m.red) + Float32::spec_serialize(m.green) + Float32::spec_serialize(m.blue) + Float32::spec_serialize(m.scale)
    }

    open spec fn spec_deserialize(s: Seq<u8>) -> SpecResult<DustParticleDataModel> {
        match Float32::spec_deserialize(s) {
            Err(e) => Err(e),
            Ok((red, r1)) => match Float32::spec_deserialize(r1) {
                Err(e) => Err(e),
                Ok((green, r2)) => match Float32::spec_deserialize(r2) {
                    Err(e) => Err(e),
                    Ok((blue, r3)) => match Float32::spec_deserialize(r3) {
                        Err(e) => Err(e),
                        Ok((scale, r4)) => Ok((DustParticleDataModel { red, green, blue, scale }, r4)),
                    },
                },
            },
        }
    }

    #[verifier::rlimit(100)]
    #[verifier::spinoff_prover]
    proof fn lemma_round_trip(m: DustParticleDataModel, rest: Seq<u8>) {
        let t3 = Float32::spec_serialize(m.scale) + rest;
        let t2 = Float32::spec_serialize(m.blue) + t3;
        let t1 = Float32::spec_serialize(m.green) + t2;
        let p1 = Float32::spec_serialize(m.red);
        let p2 = p1 + Float32::spec_serialize(m.green);
        let p3 = p2 + Float32::spec_serialize(m.blue);
        let p4 = p3 + Float32::spec_serialize(m.scale);
        assert(Self::spec_serialize(m) == p4);
        lemma_concat_associative(p3, Float32::spec_serialize(m.scale), rest);
        lemma_concat_associative(p2, Float32::spec_serialize(m.blue), t3);
        lemma_concat_associative(p1, Float32::spec_serialize(m.green), t2);
        Float32::lemma_round_trip(m.red, t1);
        assert(Float32::spec_deserialize(Self::spec_serialize(m) + rest) == Ok::<(<Float32 as Codec>::Model, Seq<u8>), DeserializeErr>((m.red, t1)));
        Float32::lemma_round_trip(m.green, t2);
        assert(Float32::spec_deserialize(t1) == Ok::<(<Float32 as Codec>::Model, Seq<u8>), DeserializeErr>((m.green, t2)));
        Float32::lemma_round_trip(m.blue, t3);
        assert(Float32::spec_deserialize(t2) == Ok::<(<Float32 as Codec>::Model, Seq<u8>), DeserializeErr>((m.blue, t3)));
        Float32::lemma_round_trip(m.scale, rest);
        assert(Float32::spec_deserialize(t3) == Ok::<(<Float32 as Codec>::Model, Seq<u8>), DeserializeErr>((m.scale, rest)));
    }

    fn mc_serialize(&self, to: &mut Vec<u8>) {
        let ghost start = to@;
        self.red.mc_serialize(to);
        self.green.mc_serialize(to);
        proof {
            lemma_concat_associative(start, Float32::spec_serialize(self.red.model()), Float32::spec_serialize(self.green.model()));
        }
        self.blue.mc_serialize(to);
        proof {
            lemma_concat_associative(start, Float32::spec_serialize(self.red.model()) + Float32::spec_serialize(self.green.model()), Float32::spec_serialize(self.blue.model()));
        }
        self.scale.mc_serialize(to);
        proof {
            lemma_concat_associative(start, Float32::spec_serialize(self.red.model()) + Float32::spec_serialize(self.green.model()) + Float32::spec_serialize(self.blue.model()), Float32::spec_serialize(self.scale.model()));
        }
        assert(to@ =~= start + Self::spec_serialize(self.model()));
    }

    fn mc_deserialize(data: &[u8]) -> (r: Result<(Self, &[u8]), DeserializeErr>) {
        let (red, rest) = Float32::mc_deserialize(data)?;
        let (green, rest) = Float32::mc_deserialize(rest)?;
        let (blue, rest) = Float32::mc_deserialize(rest)?;
        let (scale, rest) = Float32::mc_deserialize(rest)?;
        Ok((DustParticleData { red, green, blue, scale }, rest))
    }
}

/// A chat component, carried as its JSON text.
#[derive(Debug, Clone, PartialEq, Eq)]
pub struct Chat {
    pub json: String,
}

impl Codec for Chat {
    type Model = Seq<char>;

    open spec fn model(&self) -> Seq<char> {
        self.json@
    }

    open spec fn encodable(m: Seq<char>) -> bool {
        String::encodable(m)
    }

    open spec fn legal(m: Seq<char>) -> bool {
        String::legal(m)
    }

    open spec fn spec_serialize(m: Seq<char>) -> Seq<u8> {
        spec_string_serialize(m)
    }

    open spec fn spec_deserialize(s: Seq<u8>) -> SpecResult<Seq<char>> {
        spec_string_deserialize(s)
    }

    proof fn lemma_round_trip(m: Seq<char>, rest: Seq<u8>) {
        String::lemma_round_trip(m, rest);
    }

    fn mc_serialize(&self, to: &mut Vec<u8>) {
        self.json.mc_serialize(to);
    }

    fn mc_deserialize(data: &[u8]) -> (r: Result<(Self, &[u8]), DeserializeErr>) {
        let (json, rest) = String::mc_deserialize(data)?;
        Ok((Chat { json }, rest))
    }
}

/// A block position packed into one big-endian 64-bit integer: `x` in the
/// top 26 bits, `z` in the next 26 and `y` in the low 12, each in two's
/// complement.
#[derive(Debug, Clone, Copy, PartialEq, Eq, Structural)]
pub struct IntPosition {
    pub x: i32,
    pub y: i16,
    pub z: i32,
}

/// `v` as an unsigned field of a width whose range is `m`.
pub open spec fn unsigned_field(v: int, m: int) -> int {
    if v < 0 {
        v + m
    } else {
        v
    }
}

/// An unsigned field of a width whose range is `m`, read as two's complement.
pub open spec fn signed_field(u: int, m: int) -> int {
    if u >= m / 2 {
        u - m
    } else {
        u
    }
}

pub open spec fn pack_position(p: IntPosition) -> u64 {
    (unsigned_field(p.x as int, 0x400_0000) * 0x40_0000_0000 + unsigned_field(p.z as int, 0x400_0000)
        * 0x1000 + unsigned_field(p.y as int, 0x1000)) as u64
}

pub open spec fn unpack_position(raw: u64) -> IntPosition {
    IntPosition {
        x: signed_field(raw as int / 0x40_0000_0000, 0x400_0000) as i32,
        y: signed_field(raw as int % 0x1000, 0x1000) as i16,
        z: signed_field((raw as int / 0x1000) % 0x400_0000, 0x400_0000) as i32,
    }
}

impl Codec for IntPosition {
    type Model = IntPosition;

    open spec fn model(&self) -> IntPosition {
        *self
    }

    /// Each coordinate must fit its field.
    open spec fn encodable(m: IntPosition) -> bool {
        -0x200_0000 <= m.x < 0x200_0000 && -0x800 <= m.y < 0x800 && -0x200_0000 <= m.z < 0x200_0000
    }

    open spec fn legal(m: IntPosition) -> bool {
        Self::encodable(m)
    }

    open spec fn spec_serialize(m: IntPosition) -> Seq<u8> {
        be64(pack_position(m))
    }

    open spec fn spec_deserialize(s: Seq<u8>) -> SpecResult<IntPosition> {
        match spec_take(s, 8) {
            Err(e) => Err(e),
            Ok((b, r)) => Ok((unpack_position(from_be64(b)), r)),
        }
    }

    proof fn lemma_round_trip(m: IntPosition, rest: Seq<u8>) {
        let ux = unsigned_field(m.x as int, 0x400_0000);
        let uz = unsigned_field(m.z as int, 0x400_0000);
        let uy = unsigned_field(m.y as int, 0x1000);
        let raw = ux * 0x40_0000_0000 + uz * 0x1000 + uy;
        assert(raw / 0x40_0000_0000 == ux && raw % 0x1000 == uy && (raw / 0x1000) % 0x400_0000 == uz
            && 0 <= raw < 0x1_0000_0000_0000_0000) by (nonlinear_arith)
            requires
                0 <= ux < 0x400_0000,
                0 <= uz < 0x400_0000,
                0 <= uy < 0x1000,
                raw == ux * 0x40_0000_0000 + uz * 0x1000 + uy,
        ;
        lemma_take_concat(be64(pack_position(m)), rest);
        lemma_be64(pack_position(m));
    }

    fn mc_serialize(&self, to: &mut Vec<u8>) {
        let ux: u64 = if self.x < 0 {
            (self.x as i64 + 0x400_0000) as u64
        } else {
            self.x as u64
        };
        let uz: u64 = if self.z < 0 {
            (self.z as i64 + 0x400_0000) as u64
        } else {
            self.z as u64
        };
        let uy: u64 = if self.y < 0 {
            (self.y as i64 + 0x1000) as u64
        } else {
            self.y as u64
        };
        let raw: u64 = ux * 0x40_0000_0000 + uz * 0x1000 + uy;
        write_be64(raw, to);
    }

    fn mc_deserialize(data: &[u8]) -> (r: Result<(Self, &[u8]), DeserializeErr>) {
        let (raw, rest) = read_be64(data)?;
        let ux = raw / 0x40_0000_0000;
        let uz = (raw / 0x1000) % 0x400_0000;
        let uy = raw % 0x1000;
        let x: i64 = if ux >= 0x200_0000 {
            ux as i64 - 0x400_0000
        } else {
            ux as i64
        };
        let z: i64 = if uz >= 0x200_0000 {
            uz as i64 - 0x400_0000
        } else {
            uz as i64
        };
        let y: i64 = if uy >= 0x800 {
            uy as i64 - 0x1000
        } else {
            uy as i64
        };
        Ok((IntPosition { x: x as i32, y: y as i16, z: z as i32 }, rest))
    }
}

/// An entity's metadata entry as values.
pub struct EntityMetadataFieldModel {
    pub index: u8,
    pub data: EntityMetadataFieldDataModel,
}

/// One metadata entry: a slot index and a tagged value.
#[derive(Debug, Clone, PartialEq, Eq)]
pub struct EntityMetadataField {
    pub index: u8,
    pub data: EntityMetadataFieldData,
}

pub open spec fn field_model(f: EntityMetadataField) -> EntityMetadataFieldModel {
    EntityMetadataFieldModel { index: f.index, data: f.data.model() }
}

pub open spec fn fields_model(fs: Seq<EntityMetadataField>) -> Seq<EntityMetadataFieldModel> {
    fs.map_values(|f: EntityMetadataField| field_model(f))
}

/// The index byte that ends the entries.
pub const METADATA_END: u8 = 0xFF;

pub open spec fn spec_entries_bytes(fs: Seq<EntityMetadataFieldModel>) -> Seq<u8>
    decreases fs.len(),
{
    if fs.len() == 0 {
        Seq::empty()
    } else {
        seq![fs[0].index] + EntityMetadataFieldData::spec_serialize(fs[0].data) + spec_entries_bytes(
            fs.drop_first(),
        )
    }
}

/// Entries up to and including the first end byte in an index position.
pub open spec fn spec_entries(s: Seq<u8>) -> SpecResult<Seq<EntityMetadataFieldModel>>
    decreases s.len(),
{
    if s.len() == 0 {
        Err(DeserializeErr::Eof)
    } else if s[0] == METADATA_END {
        Ok((Seq::empty(), s.skip(1)))
    } else {
        match EntityMetadataFieldData::spec_deserialize(s.skip(1)) {
            Err(e) => Err(e),
            Ok((data, r)) => if r.len() < s.len() {
                match spec_entries(r) {
                    Err(e) => Err(e),
                    Ok((fs, r2)) => Ok(
                        (seq![EntityMetadataFieldModel { index: s[0], data }] + fs, r2),
                    ),
                }
            } else {
                Err(DeserializeErr::Eof)
            },
        }
    }
}

/// An entity's metadata: entries, each an index byte and a tagged value,
/// ended by the index byte 0xFF; there is no count.
#[derive(Debug, Clone, PartialEq, Eq)]
pub struct EntityMetadata {
    pub fields: Vec<EntityMetadataField>,
}

/// The first position holding `index`, if any.
pub open spec fn first_with_index(fs: Seq<EntityMetadataField>, index: u8) -> Option<int> {
    if exists|i: int| 0 <= i < fs.len() && (#[trigger] fs[i]).index == index {
        Some(
            choose|i: int|
                0 <= i < fs.len() && (#[trigger] fs[i]).index == index && forall|j: int|
                    0 <= j < i ==> (#[trigger] fs[j]).index != index,
        )
    } else {
        None
    }
}

proof fn lemma_first_with_index(fs: Seq<EntityMetadataField>, index: u8, i: int)
    requires
        0 <= i < fs.len(),
        fs[i].index == index,
        forall|j: int| 0 <= j < i ==> (#[trigger] fs[j]).index != index,
    ensures
        first_with_index(fs, index) == Some(i),
{
    let k = choose|k: int|
        0 <= k < fs.len() && (#[trigger] fs[k]).index == index && forall|j: int|
            0 <= j < k ==> (#[trigger] fs[j]).index != index;
    assert(0 <= k < fs.len() && fs[k].index == index && forall|j: int|
        0 <= j < k ==> (#[trigger] fs[j]).index != index);
    if k < i {
        assert(fs[k].index != index);
    } else if k > i {
        assert(fs[i].index != index);
    }
}

/// Reading entries written with any tail after them stops right after the
/// end byte and gives back the entries.
#[verifier::rlimit(100)]
#[verifier::spinoff_prover]
pub proof fn lemma_entries_round_trip(fs: Seq<EntityMetadataFieldModel>, rest: Seq<u8>)
    requires
        forall|i: int|
            0 <= i < fs.len() ==> (#[trigger] fs[i]).index != METADATA_END
                && EntityMetadataFieldData::legal(fs[i].data),
    ensures
        spec_entries(spec_entries_bytes(fs) + seq![METADATA_END] + rest) == Ok::<
            (Seq<EntityMetadataFieldModel>, Seq<u8>),
            DeserializeErr,
        >((fs, rest)),
    decreases fs.len(),
{
    let s = spec_entries_bytes(fs) + seq![METADATA_END] + rest;
    if fs.len() == 0 {
        assert(s =~= seq![METADATA_END] + rest);
        assert(s.skip(1) =~= rest);
        assert(fs =~= Seq::<EntityMetadataFieldModel>::empty());
    } else {
        let tail = fs.drop_first();
        let after = spec_entries_bytes(tail) + seq![METADATA_END] + rest;
        assert(s =~= seq![fs[0].index] + (EntityMetadataFieldData::spec_serialize(fs[0].data)
            + after));
        assert(s.skip(1) =~= EntityMetadataFieldData::spec_serialize(fs[0].data) + after);
        EntityMetadataFieldData::lemma_round_trip(fs[0].data, after);
        assert forall|i: int| 0 <= i < tail.len() implies (#[trigger] tail[i]).index
            != METADATA_END && EntityMetadataFieldData::legal(tail[i].data) by {
            assert(tail[i] == fs[i + 1]);
        }
        lemma_entries_round_trip(tail, rest);
        assert(seq![EntityMetadataFieldModel { index: fs[0].index, data: fs[0].data }] + tail
            =~= fs);
    }
}

/// A lone end byte is an empty set of entries, and nothing after it is read.
pub proof fn lemma_entries_stop_at_end(rest: Seq<u8>)
    ensures
        spec_entries(seq![METADATA_END] + rest) == Ok::<
            (Seq<EntityMetadataFieldModel>, Seq<u8>),
            DeserializeErr,
        >((Seq::empty(), rest)),
{
    assert((seq![METADATA_END] + rest).skip(1) =~= rest);
}

impl EntityMetadata {
    /// Sets the value at `index`: the first entry with that index takes it,
    /// or a new entry goes at the end.
    pub fn set(&mut self, index: u8, data: EntityMetadataFieldData)
        ensures
            final(self).fields@ == match first_with_index(old(self).fields@, index) {
                Some(i) => old(self).fields@.update(i, EntityMetadataField { index, data }),
                None => old(self).fields@.push(EntityMetadataField { index, data }),
            },
    {
        let mut i: usize = 0;
        while i < self.fields.len()
            invariant
                i <= self.fields@.len(),
                self.fields@ == old(self).fields@,
                forall|j: int| 0 <= j < i ==> (#[trigger] self.fields@[j]).index != index,
            decreases self.fields@.len() - i,
        {
            if self.fields[i].index == index {
                proof {
                    lemma_first_with_index(self.fields@, index, i as int);
                }
                self.fields.set(i, EntityMetadataField { index, data });
                return;
            }
            i = i + 1;
        }
        self.fields.push(EntityMetadataField { index, data });
    }

    /// The value of the first entry with `index`, if any.
    pub fn get(&self, index: u8) -> (r: Option<&EntityMetadataFieldData>)
        ensures
            match first_with_index(self.fields@, index) {
                Some(i) => r == Some(&self.fields@[i].data),
                None => r is None,
            },
    {
        let mut i: usize = 0;
        while i < self.fields.len()
            invariant
                i <= self.fields@.len(),
                forall|j: int| 0 <= j < i ==> (#[trigger] self.fields@[j]).index != index,
            decreases self.fields@.len() - i,
        {
            if self.fields[i].index == index {
                proof {
                    lemma_first_with_index(self.fields@, index, i as int);
                }
                return Some(&self.fields[i].data);
            }
            i = i + 1;
        }
        None
    }
}

impl Codec for EntityMetadata {
    type Model = Seq<EntityMetadataFieldModel>;

    open spec fn model(&self) -> Seq<EntityMetadataFieldModel> {
        fields_model(self.fields@)
    }

    open spec fn encodable(m: Seq<EntityMetadataFieldModel>) -> bool {
        forall|i: int| 0 <= i < m.len() ==> EntityMetadataFieldData::encodable(#[trigger] m[i].data)
    }

    /// An entry at index 0xFF would read as the end.
    open spec fn legal(m: Seq<EntityMetadataFieldModel>) -> bool {
        forall|i: int|
            0 <= i < m.len() ==> (#[trigger] m[i]).index != METADATA_END
                && EntityMetadataFieldData::legal(m[i].data)
    }

    open spec fn spec_serialize(m: Seq<EntityMetadataFieldModel>) -> Seq<u8> {
        spec_entries_bytes(m) + seq![METADATA_END]
    }

    open spec fn spec_deserialize(s: Seq<u8>) -> SpecResult<Seq<EntityMetadataFieldModel>> {
        spec_entries(s)
    }

    proof fn lemma_round_trip(m: Seq<EntityMetadataFieldModel>, rest: Seq<u8>) {
        lemma_entries_round_trip(m, rest);
        assert forall|i: int| 0 <= i < m.len() implies EntityMetadataFieldData::encodable(
            #[trigger] m[i].data,
        ) by {
            EntityMetadataFieldData::lemma_round_trip(m[i].data, rest);
        }
    }

    fn mc_serialize(&self, to: &mut Vec<u8>) {
        let ghost start = to@;
        let mut i: usize = 0;
        assert(fields_model(self.fields@).skip(0) =~= fields_model(self.fields@));
        while i < self.fields.len()
            invariant
                i <= self.fields@.len(),
                Self::encodable(self.model()),
                to@ + spec_entries_bytes(fields_model(self.fields@).skip(i as int)) == start
                    + spec_entries_bytes(fields_model(self.fields@)),
            decreases self.fields@.len() - i,
        {
            let ghost before = to@;
            let ghost fm = fields_model(self.fields@);
            assert(fm.skip(i as int).drop_first() =~= fm.skip(i + 1));
            assert(fm.skip(i as int)[0] == field_model(self.fields@[i as int]));
            assert(EntityMetadataFieldData::encodable(fm[i as int].data));
            let field = &self.fields[i];
            to.push(field.index);
            field.data.mc_serialize(to);
            assert(to@ + spec_entries_bytes(fm.skip(i + 1)) =~= before + spec_entries_bytes(
                fm.skip(i as int),
            ));
            i = i + 1;
        }
        assert(fields_model(self.fields@).skip(i as int) =~= Seq::<EntityMetadataFieldModel>::empty());
        assert(fields_model(self.fields@).skip(0) =~= fields_model(self.fields@));
        let ghost mid = to@;
        to.push(METADATA_END);
        assert(to@ =~= start + Self::spec_serialize(self.model()));
    }

    fn mc_deserialize(data: &[u8]) -> (r: Result<(Self, &[u8]), DeserializeErr>) {
        let mut fields: Vec<EntityMetadataField> = Vec::new();
        let mut cur = data;
        proof {
            if let Ok((ys, r)) = spec_entries(data@) {
                assert(Seq::<EntityMetadataFieldModel>::empty() + ys =~= ys);
            }
            assert(fields_model(fields@) =~= Seq::<EntityMetadataFieldModel>::empty());
        }
        loop
            invariant
                spec_entries(data@) == prepend_fields(fields_model(fields@), spec_entries(cur@)),
            decreases cur@.len(),
        {
            let (index, rest) = u8::mc_deserialize(cur)?;
            if index == METADATA_END {
                proof {
                    assert(fields_model(fields@) + Seq::<EntityMetadataFieldModel>::empty()
                        =~= fields_model(fields@));
                }
                return Ok((EntityMetadata { fields }, rest));
            }
            let (field, rest) = EntityMetadataFieldData::mc_deserialize(rest)?;
            if rest.len() >= cur.len() {
                return Err(DeserializeErr::Eof);
            }
            let f = EntityMetadataField { index, data: field };
            proof {
                let ghost before = fields_model(fields@);
                if let Ok((ys, r2)) = spec_entries(rest@) {
                    assert(before + (seq![field_model(f)] + ys) =~= before.push(field_model(f))
                        + ys);
                }
                assert(fields_model(fields@.push(f)) =~= before.push(field_model(f)));
            }
            fields.push(f);
            cur = rest;
        }
    }
}

pub open spec fn prepend_fields(
    xs: Seq<EntityMetadataFieldModel>,
    r: SpecResult<Seq<EntityMetadataFieldModel>>,
) -> SpecResult<Seq<EntityMetadataFieldModel>> {
    match r {
        Ok((ys, rest)) => Ok((xs + ys, rest)),
        Err(e) => Err(e),
    }
}

/// A particle as values.
pub enum ParticleSpecModel {
    AmbientEntityEffect,
    AngryVillager,
    Barrier,
    Block(<BlockParticleData as Codec>::Model),
    Bubble,
    Cloud,
    Crit,
    DamageIndicator,
    DragonBreath,
    DrippingLava,
    FallingLava,
    LandingLava,
    DrippingWater,
    FallingWater,
    Dust(<DustParticleData as Codec>::Model),
    Effect,
    ElderGuardian,
    EnchantedHit,
    Enchant,
    EndRod,
    EntityEffect,
    ExposionEmitter,
    Explosion,
    FallingDust(<DustParticleData as Codec>::Model),
    Firework,
    Fishing,
    Flame,
    Flash,
    HappyVillager,
    Composter,
    Heart,
    InstantEffect,
    Item(<Option<Slot> as Codec>::Model),
    ItemSlime,
    ItemSnowball,
    LargeSmoke,
    Lava,
    Mycelium,
    Note,
    Poof,
    Portal,
    Rain,
    Smoke,
    Sneeze,
    Spit,
    SquidInk,
    SweepAttack,
    TotemOfUndying,
    Underwater,
    Splash,
    Witch,
    BubblePop,
    CurrentDown,
    BubbleColumnUp,
    Nautilus,
    Dolphin,
    CampfireCosySmoke,
    CampfireSignalSmoke,
    DrippingHoney,
    FallingHoney,
    LandingHoney,
    FallingNectar,
}

/// A particle kind; a few carry data.
#[derive(Debug, Clone, PartialEq, Eq)]
pub enum ParticleSpec {
    AmbientEntityEffect,
    AngryVillager,
    Barrier,
    Block(BlockParticleData),
    Bubble,
    Cloud,
    Crit,
    DamageIndicator,
    DragonBreath,
    DrippingLava,
    FallingLava,
    LandingLava,
    DrippingWater,
    FallingWater,
    Dust(DustParticleData),
    Effect,
    ElderGuardian,
    EnchantedHit,
    Enchant,
    EndRod,
    EntityEffect,
    ExposionEmitter,
    Explosion,
    FallingDust(DustParticleData),
    Firework,
    Fishing,
    Flame,
    Flash,
    HappyVillager,
    Composter,
    Heart,
    InstantEffect,
    Item(Option<Slot>),
    ItemSlime,
    ItemSnowball,
    LargeSmoke,
    Lava,
    Mycelium,
    Note,
    Poof,
    Portal,
    Rain,
    Smoke,
    Sneeze,
    Spit,
    SquidInk,
    SweepAttack,
    TotemOfUndying,
    Underwater,
    Splash,
    Witch,
    BubblePop,
    CurrentDown,
    BubbleColumnUp,
    Nautilus,
    Dolphin,
    CampfireCosySmoke,
    CampfireSignalSmoke,
    DrippingHoney,
    FallingHoney,
    LandingHoney,
    FallingNectar,
}

impl ParticleSpec {
    pub open spec fn spec_id(m: ParticleSpecModel) -> i32 {
        match m {
            ParticleSpecModel::AmbientEntityEffect => 0i32,
            ParticleSpecModel::AngryVillager => 1i32,
            ParticleSpecModel::Barrier => 2i32,
            ParticleSpecModel::Block(_) => 3i32,
            ParticleSpecModel::Bubble => 4i32,
            ParticleSpecModel::Cloud => 5i32,
            ParticleSpecModel::Crit => 6i32,
            ParticleSpecModel::DamageIndicator => 7i32,
            ParticleSpecModel::DragonBreath => 8i32,
            ParticleSpecModel::DrippingLava => 9i32,
            ParticleSpecModel::FallingLava => 10i32,
            ParticleSpecModel::LandingLava => 11i32,
            ParticleSpecModel::DrippingWater => 12i32,
            ParticleSpecModel::FallingWater => 13i32,
            ParticleSpecModel::Dust(_) => 14i32,
            ParticleSpecModel::Effect => 15i32,
            ParticleSpecModel::ElderGuardian => 16i32,
            ParticleSpecModel::EnchantedHit => 17i32,
            ParticleSpecModel::Enchant => 18i32,
            ParticleSpecModel::EndRod => 19i32,
            ParticleSpecModel::EntityEffect => 20i32,
            ParticleSpecModel::ExposionEmitter => 21i32,
            ParticleSpecModel::Explosion => 22i32,
            ParticleSpecModel::FallingDust(_) => 23i32,
            ParticleSpecModel::Firework => 24i32,
            ParticleSpecModel::Fishing => 25i32,
            ParticleSpecModel::Flame => 26i32,
            ParticleSpecModel::Flash => 27i32,
            ParticleSpecModel::HappyVillager => 28i32,
            ParticleSpecModel::Composter => 29i32,
            ParticleSpecModel::Heart => 30i32,
            ParticleSpecModel::InstantEffect => 31i32,
            ParticleSpecModel::Item(_) => 32i32,
            ParticleSpecModel::ItemSlime => 33i32,
            ParticleSpecModel::ItemSnowball => 34i32,
            ParticleSpecModel::LargeSmoke => 35i32,
            ParticleSpecModel::Lava => 36i32,
            ParticleSpecModel::Mycelium => 37i32,
            ParticleSpecModel::Note => 38i32,
            ParticleSpecModel::Poof => 39i32,
            ParticleSpecModel::Portal => 40i32,
            ParticleSpecModel::Rain => 41i32,
            ParticleSpecModel::Smoke => 42i32,
            ParticleSpecModel::Sneeze => 43i32,
            ParticleSpecModel::Spit => 44i32,
            ParticleSpecModel::SquidInk => 45i32,
            ParticleSpecModel::SweepAttack => 46i32,
            ParticleSpecModel::TotemOfUndying => 47i32,
            ParticleSpecModel::Underwater => 48i32,
            ParticleSpecModel::Splash => 49i32,
            ParticleSpecModel::Witch => 50i32,
            ParticleSpecModel::BubblePop => 51i32,
            ParticleSpecModel::CurrentDown => 52i32,
            ParticleSpecModel::BubbleColumnUp => 53i32,
            ParticleSpecModel::Nautilus => 54i32,
            ParticleSpecModel::Dolphin => 55i32,
            ParticleSpecModel::CampfireCosySmoke => 56i32,
            ParticleSpecModel::CampfireSignalSmoke => 57i32,
            ParticleSpecModel::DrippingHoney => 58i32,
            ParticleSpecModel::FallingHoney => 59i32,
            ParticleSpecModel::LandingHoney => 60i32,
            ParticleSpecModel::FallingNectar => 61i32,
        }
    }

    /// Reads the payload of `m`'s variant from `r`.
    pub open spec fn spec_payload(m: ParticleSpecModel, r: Seq<u8>) -> SpecResult<ParticleSpecModel> {
        match m {
            ParticleSpecModel::AmbientEntityEffect => Ok((ParticleSpecModel::AmbientEntityEffect, r)),
            ParticleSpecModel::AngryVillager => Ok((ParticleSpecModel::AngryVillager, r)),
            ParticleSpecModel::Barrier => Ok((ParticleSpecModel::Barrier, r)),
            ParticleSpecModel::Block(_) => match BlockParticleData::spec_deserialize(r) {
                Ok((p, r2)) => Ok((ParticleSpecModel::Block(p), r2)),
                Err(e) => Err(e),
            },
            ParticleSpecModel::Bubble => Ok((ParticleSpecModel::Bubble, r)),
            ParticleSpecModel::Cloud => Ok((ParticleSpecModel::Cloud, r)),
            ParticleSpecModel::Crit => Ok((ParticleSpecModel::Crit, r)),
            ParticleSpecModel::DamageIndicator => Ok((ParticleSpecModel::DamageIndicator, r)),
            ParticleSpecModel::DragonBreath => Ok((ParticleSpecModel::DragonBreath, r)),
            ParticleSpecModel::DrippingLava => Ok((ParticleSpecModel::DrippingLava, r)),
            ParticleSpecModel::FallingLava => Ok((ParticleSpecModel::FallingLava, r)),
            ParticleSpecModel::LandingLava => Ok((ParticleSpecModel::LandingLava, r)),
            ParticleSpecModel::DrippingWater => Ok((ParticleSpecModel::DrippingWater, r)),
            ParticleSpecModel::FallingWater => Ok((ParticleSpecModel::FallingWater, r)),
            ParticleSpecModel::Dust(_) => match DustParticleData::spec_deserialize(r) {
                Ok((p, r2)) => Ok((ParticleSpecModel::Dust(p), r2)),
                Err(e) => Err(e),
            },
            ParticleSpecModel::Effect => Ok((ParticleSpecModel::Effect, r)),
            ParticleSpecModel::ElderGuardian => Ok((ParticleSpecModel::ElderGuardian, r)),
            ParticleSpecModel::EnchantedHit => Ok((ParticleSpecModel::EnchantedHit, r)),
            ParticleSpecModel::Enchant => Ok((ParticleSpecModel::Enchant, r)),
            ParticleSpecModel::EndRod => Ok((ParticleSpecModel::EndRod, r)),
            ParticleSpecModel::EntityEffect => Ok((ParticleSpecModel::EntityEffect, r)),
            ParticleSpecModel::ExposionEmitter => Ok((ParticleSpecModel::ExposionEmitter, r)),
            ParticleSpecModel::Explosion => Ok((ParticleSpecModel::Explosion, r)),
            ParticleSpecModel::FallingDust(_) => match DustParticleData::spec_deserialize(r) {
                Ok((p, r2)) => Ok((ParticleSpecModel::FallingDust(p), r2)),
                Err(e) => Err(e),
            },
            ParticleSpecModel::Firework => Ok((ParticleSpecModel::Firework, r)),
            ParticleSpecModel::Fishing => Ok((ParticleSpecModel::Fishing, r)),
            ParticleSpecModel::Flame => Ok((ParticleSpecModel::Flame, r)),
            ParticleSpecModel::Flash => Ok((ParticleSpecModel::Flash, r)),
            ParticleSpecModel::HappyVillager => Ok((ParticleSpecModel::HappyVillager, r)),
            ParticleSpecModel::Composter => Ok((ParticleSpecModel::Composter, r)),
            ParticleSpecModel::Heart => Ok((ParticleSpecModel::Heart, r)),
            ParticleSpecModel::InstantEffect => Ok((ParticleSpecModel::InstantEffect, r)),
            ParticleSpecModel::Item(_) => match Option::<Slot>::spec_deserialize(r) {
                Ok((p, r2)) => Ok((ParticleSpecModel::Item(p), r2)),
                Err(e) => Err(e),
            },
            ParticleSpecModel::ItemSlime => Ok((ParticleSpecModel::ItemSlime, r)),
            ParticleSpecModel::ItemSnowball => Ok((ParticleSpecModel::ItemSnowball, r)),
            ParticleSpecModel::LargeSmoke => Ok((ParticleSpecModel::LargeSmoke, r)),
            ParticleSpecModel::Lava => Ok((ParticleSpecModel::Lava, r)),
            ParticleSpecModel::Mycelium => Ok((ParticleSpecModel::Mycelium, r)),
            ParticleSpecModel::Note => Ok((ParticleSpecModel::Note, r)),
            ParticleSpecModel::Poof => Ok((ParticleSpecModel::Poof, r)),
            ParticleSpecModel::Portal => Ok((ParticleSpecModel::Portal, r)),
            ParticleSpecModel::Rain => Ok((ParticleSpecModel::Rain, r)),
            ParticleSpecModel::Smoke => Ok((ParticleSpecModel::Smoke, r)),
            ParticleSpecModel::Sneeze => Ok((ParticleSpecModel::Sneeze, r)),
            ParticleSpecModel::Spit => Ok((ParticleSpecModel::Spit, r)),
            ParticleSpecModel::SquidInk => Ok((ParticleSpecModel::SquidInk, r)),
            ParticleSpecModel::SweepAttack => Ok((ParticleSpecModel::SweepAttack, r)),
            ParticleSpecModel::TotemOfUndying => Ok((ParticleSpecModel::TotemOfUndying, r)),
            ParticleSpecModel::Underwater => Ok((ParticleSpecModel::Underwater, r)),
            ParticleSpecModel::Splash => Ok((ParticleSpecModel::Splash, r)),
            ParticleSpecModel::Witch => Ok((ParticleSpecModel::Witch, r)),
            ParticleSpecModel::BubblePop => Ok((ParticleSpecModel::BubblePop, r)),
            ParticleSpecModel::CurrentDown => Ok((ParticleSpecModel::CurrentDown, r)),
            ParticleSpecModel::BubbleColumnUp => Ok((ParticleSpecModel::BubbleColumnUp, r)),
            ParticleSpecModel::Nautilus => Ok((ParticleSpecModel::Nautilus, r)),
            ParticleSpecModel::Dolphin => Ok((ParticleSpecModel::Dolphin, r)),
            ParticleSpecModel::CampfireCosySmoke => Ok((ParticleSpecModel::CampfireCosySmoke, r)),
            ParticleSpecModel::CampfireSignalSmoke => Ok((ParticleSpecModel::CampfireSignalSmoke, r)),
            ParticleSpecModel::DrippingHoney => Ok((ParticleSpecModel::DrippingHoney, r)),
            ParticleSpecModel::FallingHoney => Ok((ParticleSpecModel::FallingHoney, r)),
            ParticleSpecModel::LandingHoney => Ok((ParticleSpecModel::LandingHoney, r)),
            ParticleSpecModel::FallingNectar => Ok((ParticleSpecModel::FallingNectar, r)),
        }
    }

    /// The variant that a discriminant names, with its payload read from
    /// `r`; a discriminant that names no variant is an error carrying it.
    pub open spec fn spec_from_id(id: i32, r: Seq<u8>) -> SpecResult<ParticleSpecModel> {
        match id {
            0i32 => Self::spec_payload(ParticleSpecModel::AmbientEntityEffect, r),
            1i32 => Self::spec_payload(ParticleSpecModel::AngryVillager, r),
            2i32 => Self::spec_payload(ParticleSpecModel::Barrier, r),
            3i32 => Self::spec_payload(ParticleSpecModel::Block(arbitrary()), r),
            4i32 => Self::spec_payload(ParticleSpecModel::Bubble, r),
            5i32 => Self::spec_payload(ParticleSpecModel::Cloud, r),
            6i32 => Self::spec_payload(ParticleSpecModel::Crit, r),
            7i32 => Self::spec_payload(ParticleSpecModel::DamageIndicator, r),
            8i32 => Self::spec_payload(ParticleSpecModel::DragonBreath, r),
            9i32 => Self::spec_payload(ParticleSpecModel::DrippingLava, r),
            10i32 => Self::spec_payload(ParticleSpecModel::FallingLava, r),
            11i32 => Self::spec_payload(ParticleSpecModel::LandingLava, r),
            12i32 => Self::spec_payload(ParticleSpecModel::DrippingWater, r),
            13i32 => Self::spec_payload(ParticleSpecModel::FallingWater, r),
            14i32 => Self::spec_payload(ParticleSpecModel::Dust(arbitrary()), r),
            15i32 => Self::spec_payload(ParticleSpecModel::Effect, r),
            16i32 => Self::spec_payload(ParticleSpecModel::ElderGuardian, r),
            17i32 => Self::spec_payload(ParticleSpecModel::EnchantedHit, r),
            18i32 => Self::spec_payload(ParticleSpecModel::Enchant, r),
            19i32 => Self::spec_payload(ParticleSpecModel::EndRod, r),
            20i32 => Self::spec_payload(ParticleSpecModel::EntityEffect, r),
            21i32 => Self::spec_payload(ParticleSpecModel::ExposionEmitter, r),
            22i32 => Self::spec_payload(ParticleSpecModel::Explosion, r),
            23i32 => Self::spec_payload(ParticleSpecModel::FallingDust(arbitrary()), r),
            24i32 => Self::spec_payload(ParticleSpecModel::Firework, r),
            25i32 => Self::spec_payload(ParticleSpecModel::Fishing, r),
            26i32 => Self::spec_payload(ParticleSpecModel::Flame, r),
            27i32 => Self::spec_payload(ParticleSpecModel::Flash, r),
            28i32 => Self::spec_payload(ParticleSpecModel::HappyVillager, r),
            29i32 => Self::spec_payload(ParticleSpecModel::Composter, r),
            30i32 => Self::spec_payload(ParticleSpecModel::Heart, r),
            31i32 => Self::spec_payload(ParticleSpecModel::InstantEffect, r),
            32i32 => Self::spec_payload(ParticleSpecModel::Item(arbitrary()), r),
            33i32 => Self::spec_payload(ParticleSpecModel::ItemSlime, r),
            34i32 => Self::spec_payload(ParticleSpecModel::ItemSnowball, r),
            35i32 => Self::spec_payload(ParticleSpecModel::LargeSmoke, r),
            36i32 => Self::spec_payload(ParticleSpecModel::Lava, r),
            37i32 => Self::spec_payload(ParticleSpecModel::Mycelium, r),
            38i32 => Self::spec_payload(ParticleSpecModel::Note, r),
            39i32 => Self::spec_payload(ParticleSpecModel::Poof, r),
            40i32 => Self::spec_payload(ParticleSpecModel::Portal, r),
            41i32 => Self::spec_payload(ParticleSpecModel::Rain, r),
            42i32 => Self::spec_payload(ParticleSpecModel::Smoke, r),
            43i32 => Self::spec_payload(ParticleSpecModel::Sneeze, r),
            44i32 => Self::spec_payload(ParticleSpecModel::Spit, r),
            45i32 => Self::spec_payload(ParticleSpecModel::SquidInk, r),
            46i32 => Self::spec_payload(ParticleSpecModel::SweepAttack, r),
            47i32 => Self::spec_payload(ParticleSpecModel::TotemOfUndying, r),
            48i32 => Self::spec_payload(ParticleSpecModel::Underwater, r),
            49i32 => Self::spec_payload(ParticleSpecModel::Splash, r),
            50i32 => Self::spec_payload(ParticleSpecModel::Witch, r),
            51i32 => Self::spec_payload(ParticleSpecModel::BubblePop, r),
            52i32 => Self::spec_payload(ParticleSpecModel::CurrentDown, r),
            53i32 => Self::spec_payload(ParticleSpecModel::BubbleColumnUp, r),
            54i32 => Self::spec_payload(ParticleSpecModel::Nautilus, r),
            55i32 => Self::spec_payload(ParticleSpecModel::Dolphin, r),
            56i32 => Self::spec_payload(ParticleSpecModel::CampfireCosySmoke, r),
            57i32 => Self::spec_payload(ParticleSpecModel::CampfireSignalSmoke, r),
            58i32 => Self::spec_payload(ParticleSpecModel::DrippingHoney, r),
            59i32 => Self::spec_payload(ParticleSpecModel::FallingHoney, r),
            60i32 => Self::spec_payload(ParticleSpecModel::LandingHoney, r),
            61i32 => Self::spec_payload(ParticleSpecModel::FallingNectar, r),
            _ => Err(DeserializeErr::UnknownTag(id as i64)),
        }
    }

    pub open spec fn spec_payload_bytes(m: ParticleSpecModel) -> Seq<u8> {
        match m {
            ParticleSpecModel::Block(p) => BlockParticleData::spec_serialize(p),
            ParticleSpecModel::Dust(p) => DustParticleData::spec_serialize(p),
            ParticleSpecModel::FallingDust(p) => DustParticleData::spec_serialize(p),
            ParticleSpecModel::Item(p) => Option::<Slot>::spec_serialize(p),
            _ => Seq::empty(),
        }
    }

    /// The discriminant of this variant.
    pub fn id(&self) -> (r: i32)
        ensures
            r == Self::spec_id(self.model()),
    {
        match self {
            ParticleSpec::AmbientEntityEffect => 0,
            ParticleSpec::AngryVillager => 1,
            ParticleSpec::Barrier => 2,
            ParticleSpec::Block(_) => 3,
            ParticleSpec::Bubble => 4,
            ParticleSpec::Cloud => 5,
            ParticleSpec::Crit => 6,
            ParticleSpec::DamageIndicator => 7,
            ParticleSpec::DragonBreath => 8,
            ParticleSpec::DrippingLava => 9,
            ParticleSpec::FallingLava => 10,
            ParticleSpec::LandingLava => 11,
            ParticleSpec::DrippingWater => 12,
            ParticleSpec::FallingWater => 13,
            ParticleSpec::Dust(_) => 14,
            ParticleSpec::Effect => 15,
            ParticleSpec::ElderGuardian => 16,
            ParticleSpec::EnchantedHit => 17,
            ParticleSpec::Enchant => 18,
            ParticleSpec::EndRod => 19,
            ParticleSpec::EntityEffect => 20,
            ParticleSpec::ExposionEmitter => 21,
            ParticleSpec::Explosion => 22,
            ParticleSpec::FallingDust(_) => 23,
            ParticleSpec::Firework => 24,
            ParticleSpec::Fishing => 25,
            ParticleSpec::Flame => 26,
            ParticleSpec::Flash => 27,
            ParticleSpec::HappyVillager => 28,
            ParticleSpec::Composter => 29,
            ParticleSpec::Heart => 30,
            ParticleSpec::InstantEffect => 31,
            ParticleSpec::Item(_) => 32,
            ParticleSpec::ItemSlime => 33,
            ParticleSpec::ItemSnowball => 34,
            ParticleSpec::LargeSmoke => 35,
            ParticleSpec::Lava => 36,
            ParticleSpec::Mycelium => 37,
            ParticleSpec::Note => 38,
            ParticleSpec::Poof => 39,
            ParticleSpec::Portal => 40,
            ParticleSpec::Rain => 41,
            ParticleSpec::Smoke => 42,
            ParticleSpec::Sneeze => 43,
            ParticleSpec::Spit => 44,
            ParticleSpec::SquidInk => 45,
            ParticleSpec::SweepAttack => 46,
            ParticleSpec::TotemOfUndying => 47,
            ParticleSpec::Underwater => 48,
            ParticleSpec::Splash => 49,
            ParticleSpec::Witch => 50,
            ParticleSpec::BubblePop => 51,
            ParticleSpec::CurrentDown => 52,
            ParticleSpec::BubbleColumnUp => 53,
            ParticleSpec::Nautilus => 54,
            ParticleSpec::Dolphin => 55,
            ParticleSpec::CampfireCosySmoke => 56,
            ParticleSpec::CampfireSignalSmoke => 57,
            ParticleSpec::DrippingHoney => 58,
            ParticleSpec::FallingHoney => 59,
            ParticleSpec::LandingHoney => 60,
            ParticleSpec::FallingNectar => 61,
        }
    }

    /// Writes the payload alone.
    pub fn serialize_body(&self, to: &mut Vec<u8>)
        requires
            Self::encodable(self.model()),
        ensures
            final(to)@ == old(to)@ + Self::spec_payload_bytes(self.model()),
    {
        match self {
            ParticleSpec::Block(p) => p.mc_serialize(to),
            ParticleSpec::Dust(p) => p.mc_serialize(to),
            ParticleSpec::FallingDust(p) => p.mc_serialize(to),
            ParticleSpec::Item(p) => p.mc_serialize(to),
            _ => {},
        }
        assert(to@ =~= to@ + Seq::<u8>::empty());
    }

    /// Reads the payload of the variant that `id` names.
    pub fn deserialize_with_id(id: i32, data: &[u8]) -> (r: Result<(Self, &[u8]), DeserializeErr>)
        ensures
            read_matches(r, |v: Self| v.model(), Self::spec_from_id(id, data@)),
    {
        match id {
            0 => Ok((ParticleSpec::AmbientEntityEffect, data)),
            1 => Ok((ParticleSpec::AngryVillager, data)),
            2 => Ok((ParticleSpec::Barrier, data)),
            3 => {
                let (p, rest) = BlockParticleData::mc_deserialize(data)?;
                Ok((ParticleSpec::Block(p), rest))
            },
            4 => Ok((ParticleSpec::Bubble, data)),
            5 => Ok((ParticleSpec::Cloud, data)),
            6 => Ok((ParticleSpec::Crit, data)),
            7 => Ok((ParticleSpec::DamageIndicator, data)),
            8 => Ok((ParticleSpec::DragonBreath, data)),
            9 => Ok((ParticleSpec::DrippingLava, data)),
            10 => Ok((ParticleSpec::FallingLava, data)),
            11 => Ok((ParticleSpec::LandingLava, data)),
            12 => Ok((ParticleSpec::DrippingWater, data)),
            13 => Ok((ParticleSpec::FallingWater, data)),
            14 => {
                let (p, rest) = DustParticleData::mc_deserialize(data)?;
                Ok((ParticleSpec::Dust(p), rest))
            },
            15 => Ok((ParticleSpec::Effect, data)),
            16 => Ok((ParticleSpec::ElderGuardian, data)),
            17 => Ok((ParticleSpec::EnchantedHit, data)),
            18 => Ok((ParticleSpec::Enchant, data)),
            19 => Ok((ParticleSpec::EndRod, data)),
            20 => Ok((ParticleSpec::EntityEffect, data)),
            21 => Ok((ParticleSpec::ExposionEmitter, data)),
            22 => Ok((ParticleSpec::Explosion, data)),
            23 => {
                let (p, rest) = DustParticleData::mc_deserialize(data)?;
                Ok((ParticleSpec::FallingDust(p), rest))
            },
            24 => Ok((ParticleSpec::Firework, data)),
            25 => Ok((ParticleSpec::Fishing, data)),
            26 => Ok((ParticleSpec::Flame, data)),
            27 => Ok((ParticleSpec::Flash, data)),
            28 => Ok((ParticleSpec::HappyVillager, data)),
            29 => Ok((ParticleSpec::Composter, data)),
            30 => Ok((ParticleSpec::Heart, data)),
            31 => Ok((ParticleSpec::InstantEffect, data)),
            32 => {
                let (p, rest) = Option::<Slot>::mc_deserialize(data)?;
                Ok((ParticleSpec::Item(p), rest))
            },
            33 => Ok((ParticleSpec::ItemSlime, data)),
            34 => Ok((ParticleSpec::ItemSnowball, data)),
            35 => Ok((ParticleSpec::LargeSmoke, data)),
            36 => Ok((ParticleSpec::Lava, data)),
            37 => Ok((ParticleSpec::Mycelium, data)),
            38 => Ok((ParticleSpec::Note, data)),
            39 => Ok((ParticleSpec::Poof, data)),
            40 => Ok((ParticleSpec::Portal, data)),
            41 => Ok((ParticleSpec::Rain, data)),
            42 => Ok((ParticleSpec::Smoke, data)),
            43 => Ok((ParticleSpec::Sneeze, data)),
            44 => Ok((ParticleSpec::Spit, data)),
            45 => Ok((ParticleSpec::SquidInk, data)),
            46 => Ok((ParticleSpec::SweepAttack, data)),
            47 => Ok((ParticleSpec::TotemOfUndying, data)),
            48 => Ok((ParticleSpec::Underwater, data)),
            49 => Ok((ParticleSpec::Splash, data)),
            50 => Ok((ParticleSpec::Witch, data)),
            51 => Ok((ParticleSpec::BubblePop, data)),
            52 => Ok((ParticleSpec::CurrentDown, data)),
            53 => Ok((ParticleSpec::BubbleColumnUp, data)),
            54 => Ok((ParticleSpec::Nautilus, data)),
            55 => Ok((ParticleSpec::Dolphin, data)),
            56 => Ok((ParticleSpec::CampfireCosySmoke, data)),
            57 => Ok((ParticleSpec::CampfireSignalSmoke, data)),
            58 => Ok((ParticleSpec::DrippingHoney, data)),
            59 => Ok((ParticleSpec::FallingHoney, data)),
            60 => Ok((ParticleSpec::LandingHoney, data)),
            61 => Ok((ParticleSpec::FallingNectar, data)),
            _ => Err(DeserializeErr::UnknownTag(id as i64)),
        }
    }

    pub proof fn lemma_payload_round_trip(m: ParticleSpecModel, rest: Seq<u8>)
        requires
            Self::legal(m),
        ensures
            Self::encodable(m),
            Self::spec_from_id(Self::spec_id(m), Self::spec_payload_bytes(m) + rest) == Ok::<
                (ParticleSpecModel, Seq<u8>),
                DeserializeErr,
            >((m, rest)),
    {
        match m {
            ParticleSpecModel::Block(p) => BlockParticleData::lemma_round_trip(p, rest),
            ParticleSpecModel::Dust(p) => DustParticleData::lemma_round_trip(p, rest),
            ParticleSpecModel::FallingDust(p) => DustParticleData::lemma_round_trip(p, rest),
            ParticleSpecModel::Item(p) => Option::<Slot>::lemma_round_trip(p, rest),
            _ => assert(Seq::<u8>::empty() + rest =~= rest),
        }
    }
}

impl Codec for ParticleSpec {
    type Model = ParticleSpecModel;

    open spec fn model(&self) -> ParticleSpecModel {
        match self {
            ParticleSpec::AmbientEntityEffect => ParticleSpecModel::AmbientEntityEffect,
            ParticleSpec::AngryVillager => ParticleSpecModel::AngryVillager,
            ParticleSpec::Barrier => ParticleSpecModel::Barrier,
            ParticleSpec::Block(p) => ParticleSpecModel::Block(p.model()),
            ParticleSpec::Bubble => ParticleSpecModel::Bubble,
            ParticleSpec::Cloud => ParticleSpecModel::Cloud,
            ParticleSpec::Crit => ParticleSpecModel::Crit,
            ParticleSpec::DamageIndicator => ParticleSpecModel::DamageIndicator,
            ParticleSpec::DragonBreath => ParticleSpecModel::DragonBreath,
            ParticleSpec::DrippingLava => ParticleSpecModel::DrippingLava,
            ParticleSpec::FallingLava => ParticleSpecModel::FallingLava,
            ParticleSpec::LandingLava => ParticleSpecModel::LandingLava,
            ParticleSpec::DrippingWater => ParticleSpecModel::DrippingWater,
            ParticleSpec::FallingWater => ParticleSpecModel::FallingWater,
            ParticleSpec::Dust(p) => ParticleSpecModel::Dust(p.model()),
            ParticleSpec::Effect => ParticleSpecModel::Effect,
            ParticleSpec::ElderGuardian => ParticleSpecModel::ElderGuardian,
            ParticleSpec::EnchantedHit => ParticleSpecModel::EnchantedHit,
            ParticleSpec::Enchant => ParticleSpecModel::Enchant,
            ParticleSpec::EndRod => ParticleSpecModel::EndRod,
            ParticleSpec::EntityEffect => ParticleSpecModel::EntityEffect,
            ParticleSpec::ExposionEmitter => ParticleSpecModel::ExposionEmitter,
            ParticleSpec::Explosion => ParticleSpecModel::Explosion,
            ParticleSpec::FallingDust(p) => ParticleSpecModel::FallingDust(p.model()),
            ParticleSpec::Firework => ParticleSpecModel::Firework,
            ParticleSpec::Fishing => ParticleSpecModel::Fishing,
            ParticleSpec::Flame => ParticleSpecModel::Flame,
            ParticleSpec::Flash => ParticleSpecModel::Flash,
            ParticleSpec::HappyVillager => ParticleSpecModel::HappyVillager,
            ParticleSpec::Composter => ParticleSpecModel::Composter,
            ParticleSpec::Heart => ParticleSpecModel::Heart,
            ParticleSpec::InstantEffect => ParticleSpecModel::InstantEffect,
            ParticleSpec::Item(p) => ParticleSpecModel::Item(p.model()),
            ParticleSpec::ItemSlime => ParticleSpecModel::ItemSlime,
            ParticleSpec::ItemSnowball => ParticleSpecModel::ItemSnowball,
            ParticleSpec::LargeSmoke => ParticleSpecModel::LargeSmoke,
            ParticleSpec::Lava => ParticleSpecModel::Lava,
            ParticleSpec::Mycelium => ParticleSpecModel::Mycelium,
            ParticleSpec::Note => ParticleSpecModel::Note,
            ParticleSpec::Poof => ParticleSpecModel::Poof,
            ParticleSpec::Portal => ParticleSpecModel::Portal,
            ParticleSpec::Rain => ParticleSpecModel::Rain,
            ParticleSpec::Smoke => ParticleSpecModel::Smoke,
            ParticleSpec::Sneeze => ParticleSpecModel::Sneeze,
            ParticleSpec::Spit => ParticleSpecModel::Spit,
            ParticleSpec::SquidInk => ParticleSpecModel::SquidInk,
            ParticleSpec::SweepAttack => ParticleSpecModel::SweepAttack,
            ParticleSpec::TotemOfUndying => ParticleSpecModel::TotemOfUndying,
            ParticleSpec::Underwater => ParticleSpecModel::Underwater,
            ParticleSpec::Splash => ParticleSpecModel::Splash,
            ParticleSpec::Witch => ParticleSpecModel::Witch,
            ParticleSpec::BubblePop => ParticleSpecModel::BubblePop,
            ParticleSpec::CurrentDown => ParticleSpecModel::CurrentDown,
            ParticleSpec::BubbleColumnUp => ParticleSpecModel::BubbleColumnUp,
            ParticleSpec::Nautilus => ParticleSpecModel::Nautilus,
            ParticleSpec::Dolphin => ParticleSpecModel::Dolphin,
            ParticleSpec::CampfireCosySmoke => ParticleSpecModel::CampfireCosySmoke,
            ParticleSpec::CampfireSignalSmoke => ParticleSpecModel::CampfireSignalSmoke,
            ParticleSpec::DrippingHoney => ParticleSpecModel::DrippingHoney,
            ParticleSpec::FallingHoney => ParticleSpecModel::FallingHoney,
            ParticleSpec::LandingHoney => ParticleSpecModel::LandingHoney,
            ParticleSpec::FallingNectar => ParticleSpecModel::FallingNectar,
        }
    }

    open spec fn encodable(m: ParticleSpecModel) -> bool {
        match m {
            ParticleSpecModel::Block(p) => BlockParticleData::encodable(p),
            ParticleSpecModel::Dust(p) => DustParticleData::encodable(p),
            ParticleSpecModel::FallingDust(p) => DustParticleData::encodable(p),
            ParticleSpecModel::Item(p) => Option::<Slot>::encodable(p),
            _ => true,
        }
    }

    open spec fn legal(m: ParticleSpecModel) -> bool {
        match m {
            ParticleSpecModel::Block(p) => BlockParticleData::legal(p),
            ParticleSpecModel::Dust(p) => DustParticleData::legal(p),
            ParticleSpecModel::FallingDust(p) => DustParticleData::legal(p),
            ParticleSpecModel::Item(p) => Option::<Slot>::legal(p),
            _ => true,
        }
    }

    /// The discriminant as a `VarInt`, then the variant's payload.
    open spec fn spec_serialize(m: ParticleSpecModel) -> Seq<u8> {
        spec_varint_serialize(Self::spec_id(m)) + Self::spec_payload_bytes(m)
    }

    open spec fn spec_deserialize(s: Seq<u8>) -> SpecResult<ParticleSpecModel> {
        match spec_varint_deserialize(s) {
            Err(e) => Err(e),
            Ok((id, r)) => Self::spec_from_id(id, r),
        }
    }

    proof fn lemma_round_trip(m: ParticleSpecModel, rest: Seq<u8>) {
        let payload = Self::spec_payload_bytes(m) + rest;
        VarInt::lemma_round_trip(Self::spec_id(m), payload);
        assert(Self::spec_serialize(m) + rest =~= spec_varint_serialize(Self::spec_id(m)) + payload);
        Self::lemma_payload_round_trip(m, rest);
    }

    fn mc_serialize(&self, to: &mut Vec<u8>) {
        let ghost start = to@;
        VarInt(self.id()).mc_serialize(to);
        self.serialize_body(to);
        assert(to@ =~= start + Self::spec_serialize(self.model()));
    }

    fn mc_deserialize(data: &[u8]) -> (r: Result<(Self, &[u8]), DeserializeErr>) {
        let (id, rest) = VarInt::mc_deserialize(data)?;
        Self::deserialize_with_id(id.0, rest)
    }
}

/// A metadata value as values.
pub enum EntityMetadataFieldDataModel {
    Byte(<i8 as Codec>::Model),
    VarInt(<VarInt as Codec>::Model),
    Float(<Float32 as Codec>::Model),
    String(<String as Codec>::Model),
    Chat(<Chat as Codec>::Model),
    OptChat(<Option<Chat> as Codec>::Model),
    Slot(<Option<Slot> as Codec>::Model),
    Boolean(<bool as Codec>::Model),
    Rotation(<EntityRotation as Codec>::Model),
    Position(<IntPosition as Codec>::Model),
    OptPosition(<Option<IntPosition> as Codec>::Model),
    Direction(<EntityDirection as Codec>::Model),
    OptUUID(<Option<UUID4> as Codec>::Model),
    OptBlockId(<VarInt as Codec>::Model),
    NBT(<NamedNbtTag as Codec>::Model),
    Particle(<ParticleSpec as Codec>::Model),
    VillagerData(<EntityVillagerData as Codec>::Model),
    OptVarInt(<VarInt as Codec>::Model),
    Pose(<EntityPose as Codec>::Model),
}

/// The value of one metadata entry, tagged by a `VarInt`.
#[derive(Debug, Clone, PartialEq, Eq)]
pub enum EntityMetadataFieldData {
    Byte(i8),
    VarInt(VarInt),
    Float(Float32),
    String(String),
    Chat(Chat),
    OptChat(Option<Chat>),
    Slot(Option<Slot>),
    Boolean(bool),
    Rotation(EntityRotation),
    Position(IntPosition),
    OptPosition(Option<IntPosition>),
    Direction(EntityDirection),
    OptUUID(Option<UUID4>),
    OptBlockId(VarInt),
    NBT(NamedNbtTag),
    Particle(ParticleSpec),
    VillagerData(EntityVillagerData),
    OptVarInt(VarInt),
    Pose(EntityPose),
}

impl EntityMetadataFieldData {
    pub open spec fn spec_id(m: EntityMetadataFieldDataModel) -> i32 {
        match m {
            EntityMetadataFieldDataModel::Byte(_) => 0i32,
            EntityMetadataFieldDataModel::VarInt(_) => 1i32,
            EntityMetadataFieldDataModel::Float(_) => 2i32,
            EntityMetadataFieldDataModel::String(_) => 3i32,
            EntityMetadataFieldDataModel::Chat(_) => 4i32,
            EntityMetadataFieldDataModel::OptChat(_) => 5i32,
            EntityMetadataFieldDataModel::Slot(_) => 6i32,
            EntityMetadataFieldDataModel::Boolean(_) => 7i32,
            EntityMetadataFieldDataModel::Rotation(_) => 8i32,
            EntityMetadataFieldDataModel::Position(_) => 9i32,
            EntityMetadataFieldDataModel::OptPosition(_) => 10i32,
            EntityMetadataFieldDataModel::Direction(_) => 11i32,
            EntityMetadataFieldDataModel::OptUUID(_) => 12i32,
            EntityMetadataFieldDataModel::OptBlockId(_) => 13i32,
            EntityMetadataFieldDataModel::NBT(_) => 14i32,
            EntityMetadataFieldDataModel::Particle(_) => 15i32,
            EntityMetadataFieldDataModel::VillagerData(_) => 16i32,
            EntityMetadataFieldDataModel::OptVarInt(_) => 17i32,
            EntityMetadataFieldDataModel::Pose(_) => 18i32,
        }
    }

    /// Reads the payload of `m`'s variant from `r`.
    pub open spec fn spec_payload(m: EntityMetadataFieldDataModel, r: Seq<u8>) -> SpecResult<EntityMetadataFieldDataModel> {
        match m {
            EntityMetadataFieldDataModel::Byte(_) => match i8::spec_deserialize(r) {
                Ok((p, r2)) => Ok((EntityMetadataFieldDataModel::Byte(p), r2)),
                Err(e) => Err(e),
            },
            EntityMetadataFieldDataModel::VarInt(_) => match VarInt::spec_deserialize(r) {
                Ok((p, r2)) => Ok((EntityMetadataFieldDataModel::VarInt(p), r2)),
                Err(e) => Err(e),
            },
            EntityMetadataFieldDataModel::Float(_) => match Float32::spec_deserialize(r) {
                Ok((p, r2)) => Ok((EntityMetadataFieldDataModel::Float(p), r2)),
                Err(e) => Err(e),
            },
            EntityMetadataFieldDataModel::String(_) => match String::spec_deserialize(r) {
                Ok((p, r2)) => Ok((EntityMetadataFieldDataModel::String(p), r2)),
                Err(e) => Err(e),
            },
            EntityMetadataFieldDataModel::Chat(_) => match Chat::spec_deserialize(r) {
                Ok((p, r2)) => Ok((EntityMetadataFieldDataModel::Chat(p), r2)),
                Err(e) => Err(e),
            },
            EntityMetadataFieldDataModel::OptChat(_) => match Option::<Chat>::spec_deserialize(r) {
                Ok((p, r2)) => Ok((EntityMetadataFieldDataModel::OptChat(p), r2)),
                Err(e) => Err(e),
            },
            EntityMetadataFieldDataModel::Slot(_) => match Option::<Slot>::spec_deserialize(r) {
                Ok((p, r2)) => Ok((EntityMetadataFieldDataModel::Slot(p), r2)),
                Err(e) => Err(e),
            },
            EntityMetadataFieldDataModel::Boolean(_) => match bool::spec_deserialize(r) {
                Ok((p, r2)) => Ok((EntityMetadataFieldDataModel::Boolean(p), r2)),
                Err(e) => Err(e),
            },
            EntityMetadataFieldDataModel::Rotation(_) => match EntityRotation::spec_deserialize(r) {
                Ok((p, r2)) => Ok((EntityMetadataFieldDataModel::Rotation(p), r2)),
                Err(e) => Err(e),
            },
            EntityMetadataFieldDataModel::Position(_) => match IntPosition::spec_deserialize(r) {
                Ok((p, r2)) => Ok((EntityMetadataFieldDataModel::Position(p), r2)),
                Err(e) => Err(e),
            },
            EntityMetadataFieldDataModel::OptPosition(_) => match Option::<IntPosition>::spec_deserialize(r) {
                Ok((p, r2)) => Ok((EntityMetadataFieldDataModel::OptPosition(p), r2)),
                Err(e) => Err(e),
            },
            EntityMetadataFieldDataModel::Direction(_) => match EntityDirection::spec_deserialize(r) {
                Ok((p, r2)) => Ok((EntityMetadataFieldDataModel::Direction(p), r2)),
                Err(e) => Err(e),
            },
            EntityMetadataFieldDataModel::OptUUID(_) => match Option::<UUID4>::spec_deserialize(r) {
                Ok((p, r2)) => Ok((EntityMetadataFieldDataModel::OptUUID(p), r2)),
                Err(e) => Err(e),
            },
            EntityMetadataFieldDataModel::OptBlockId(_) => match VarInt::spec_deserialize(r) {
                Ok((p, r2)) => Ok((EntityMetadataFieldDataModel::OptBlockId(p), r2)),
                Err(e) => Err(e),
            },
            EntityMetadataFieldDataModel::NBT(_) => match NamedNbtTag::spec_deserialize(r) {
                Ok((p, r2)) => Ok((EntityMetadataFieldDataModel::NBT(p), r2)),
                Err(e) => Err(e),
            },
            EntityMetadataFieldDataModel::Particle(_) => match ParticleSpec::spec_deserialize(r) {
                Ok((p, r2)) => Ok((EntityMetadataFieldDataModel::Particle(p), r2)),
                Err(e) => Err(e),
            },
            EntityMetadataFieldDataModel::VillagerData(_) => match EntityVillagerData::spec_deserialize(r) {
                Ok((p, r2)) => Ok((EntityMetadataFieldDataModel::VillagerData(p), r2)),
                Err(e) => Err(e),
            },
            EntityMetadataFieldDataModel::OptVarInt(_) => match VarInt::spec_deserialize(r) {
                Ok((p, r2)) => Ok((EntityMetadataFieldDataModel::OptVarInt(p), r2)),
                Err(e) => Err(e),
            },
            EntityMetadataFieldDataModel::Pose(_) => match EntityPose::spec_deserialize(r) {
                Ok((p, r2)) => Ok((EntityMetadataFieldDataModel::Pose(p), r2)),
                Err(e) => Err(e),
            },
        }
    }

    /// The variant that a discriminant names, with its payload read from
    /// `r`; a discriminant that names no variant is an error carrying it.
    pub open spec fn spec_from_id(id: i32, r: Seq<u8>) -> SpecResult<EntityMetadataFieldDataModel> {
        match id {
            0i32 => Self::spec_payload(EntityMetadataFieldDataModel::Byte(arbitrary()), r),
            1i32 => Self::spec_payload(EntityMetadataFieldDataModel::VarInt(arbitrary()), r),
            2i32 => Self::spec_payload(EntityMetadataFieldDataModel::Float(arbitrary()), r),
            3i32 => Self::spec_payload(EntityMetadataFieldDataModel::String(arbitrary()), r),
            4i32 => Self::spec_payload(EntityMetadataFieldDataModel::Chat(arbitrary()), r),
            5i32 => Self::spec_payload(EntityMetadataFieldDataModel::OptChat(arbitrary()), r),
            6i32 => Self::spec_payload(EntityMetadataFieldDataModel::Slot(arbitrary()), r),
            7i32 => Self::spec_payload(EntityMetadataFieldDataModel::Boolean(arbitrary()), r),
            8i32 => Self::spec_payload(EntityMetadataFieldDataModel::Rotation(arbitrary()), r),
            9i32 => Self::spec_payload(EntityMetadataFieldDataModel::Position(arbitrary()), r),
            10i32 => Self::spec_payload(EntityMetadataFieldDataModel::OptPosition(arbitrary()), r),
            11i32 => Self::spec_payload(EntityMetadataFieldDataModel::Direction(arbitrary()), r),
            12i32 => Self::spec_payload(EntityMetadataFieldDataModel::OptUUID(arbitrary()), r),
            13i32 => Self::spec_payload(EntityMetadataFieldDataModel::OptBlockId(arbitrary()), r),
            14i32 => Self::spec_payload(EntityMetadataFieldDataModel::NBT(arbitrary()), r),
            15i32 => Self::spec_payload(EntityMetadataFieldDataModel::Particle(arbitrary()), r),
            16i32 => Self::spec_payload(EntityMetadataFieldDataModel::VillagerData(arbitrary()), r),
            17i32 => Self::spec_payload(EntityMetadataFieldDataModel::OptVarInt(arbitrary()), r),
            18i32 => Self::spec_payload(EntityMetadataFieldDataModel::Pose(arbitrary()), r),
            _ => Err(DeserializeErr::UnknownTag(id as i64)),
        }
    }

    pub open spec fn spec_payload_bytes(m: EntityMetadataFieldDataModel) -> Seq<u8> {
        match m {
            EntityMetadataFieldDataModel::Byte(p) => i8::spec_serialize(p),
            EntityMetadataFieldDataModel::VarInt(p) => VarInt::spec_serialize(p),
            EntityMetadataFieldDataModel::Float(p) => Float32::spec_serialize(p),
            EntityMetadataFieldDataModel::String(p) => String::spec_serialize(p),
            EntityMetadataFieldDataModel::Chat(p) => Chat::spec_serialize(p),
            EntityMetadataFieldDataModel::OptChat(p) => Option::<Chat>::spec_serialize(p),
            EntityMetadataFieldDataModel::Slot(p) => Option::<Slot>::spec_serialize(p),
            EntityMetadataFieldDataModel::Boolean(p) => bool::spec_serialize(p),
            EntityMetadataFieldDataModel::Rotation(p) => EntityRotation::spec_serialize(p),
            EntityMetadataFieldDataModel::Position(p) => IntPosition::spec_serialize(p),
            EntityMetadataFieldDataModel::OptPosition(p) => Option::<IntPosition>::spec_serialize(p),
            EntityMetadataFieldDataModel::Direction(p) => EntityDirection::spec_serialize(p),
            EntityMetadataFieldDataModel::OptUUID(p) => Option::<UUID4>::spec_serialize(p),
            EntityMetadataFieldDataModel::OptBlockId(p) => VarInt::spec_serialize(p),
            EntityMetadataFieldDataModel::NBT(p) => NamedNbtTag::spec_serialize(p),
            EntityMetadataFieldDataModel::Particle(p) => ParticleSpec::spec_serialize(p),
            EntityMetadataFieldDataModel::VillagerData(p) => EntityVillagerData::spec_serialize(p),
            EntityMetadataFieldDataModel::OptVarInt(p) => VarInt::spec_serialize(p),
            EntityMetadataFieldDataModel::Pose(p) => EntityPose::spec_serialize(p),
        }
    }

    /// The discriminant of this variant.
    pub fn id(&self) -> (r: i32)
        ensures
            r == Self::spec_id(self.model()),
    {
        match self {
            EntityMetadataFieldData::Byte(_) => 0,
            EntityMetadataFieldData::VarInt(_) => 1,
            EntityMetadataFieldData::Float(_) => 2,
            EntityMetadataFieldData::String(_) => 3,
            EntityMetadataFieldData::Chat(_) => 4,
            EntityMetadataFieldData::OptChat(_) => 5,
            EntityMetadataFieldData::Slot(_) => 6,
            EntityMetadataFieldData::Boolean(_) => 7,
            EntityMetadataFieldData::Rotation(_) => 8,
            EntityMetadataFieldData::Position(_) => 9,
            EntityMetadataFieldData::OptPosition(_) => 10,
            EntityMetadataFieldData::Direction(_) => 11,
            EntityMetadataFieldData::OptUUID(_) => 12,
            EntityMetadataFieldData::OptBlockId(_) => 13,
            EntityMetadataFieldData::NBT(_) => 14,
            EntityMetadataFieldData::Particle(_) => 15,
            EntityMetadataFieldData::VillagerData(_) => 16,
            EntityMetadataFieldData::OptVarInt(_) => 17,
            EntityMetadataFieldData::Pose(_) => 18,
        }
    }

    /// Writes the payload alone.
    pub fn serialize_body(&self, to: &mut Vec<u8>)
        requires
            Self::encodable(self.model()),
        ensures
            final(to)@ == old(to)@ + Self::spec_payload_bytes(self.model()),
    {
        match self {
            EntityMetadataFieldData::Byte(p) => p.mc_serialize(to),
            EntityMetadataFieldData::VarInt(p) => p.mc_serialize(to),
            EntityMetadataFieldData::Float(p) => p.mc_serialize(to),
            EntityMetadataFieldData::String(p) => p.mc_serialize(to),
            EntityMetadataFieldData::Chat(p) => p.mc_serialize(to),
            EntityMetadataFieldData::OptChat(p) => p.mc_serialize(to),
            EntityMetadataFieldData::Slot(p) => p.mc_serialize(to),
            EntityMetadataFieldData::Boolean(p) => p.mc_serialize(to),
            EntityMetadataFieldData::Rotation(p) => p.mc_serialize(to),
            EntityMetadataFieldData::Position(p) => p.mc_serialize(to),
            EntityMetadataFieldData::OptPosition(p) => p.mc_serialize(to),
            EntityMetadataFieldData::Direction(p) => p.mc_serialize(to),
            EntityMetadataFieldData::OptUUID(p) => p.mc_serialize(to),
            EntityMetadataFieldData::OptBlockId(p) => p.mc_serialize(to),
            EntityMetadataFieldData::NBT(p) => p.mc_serialize(to),
            EntityMetadataFieldData::Particle(p) => p.mc_serialize(to),
            EntityMetadataFieldData::VillagerData(p) => p.mc_serialize(to),
            EntityMetadataFieldData::OptVarInt(p) => p.mc_serialize(to),
            EntityMetadataFieldData::Pose(p) => p.mc_serialize(to),
        }
        assert(to@ =~= to@ + Seq::<u8>::empty());
    }

    /// Reads the payload of the variant that `id` names.
    pub fn deserialize_with_id(id: i32, data: &[u8]) -> (r: Result<(Self, &[u8]), DeserializeErr>)
        ensures
            read_matches(r, |v: Self| v.model(), Self::spec_from_id(id, data@)),
    {
        match id {
            0 => {
                let (p, rest) = i8::mc_deserialize(data)?;
                Ok((EntityMetadataFieldData::Byte(p), rest))
            },
            1 => {
                let (p, rest) = VarInt::mc_deserialize(data)?;
                Ok((EntityMetadataFieldData::VarInt(p), rest))
            },
            2 => {
                let (p, rest) = Float32::mc_deserialize(data)?;
                Ok((EntityMetadataFieldData::Float(p), rest))
            },
            3 => {
                let (p, rest) = String::mc_deserialize(data)?;
                Ok((EntityMetadataFieldData::String(p), rest))
            },
            4 => {
                let (p, rest) = Chat::mc_deserialize(data)?;
                Ok((EntityMetadataFieldData::Chat(p), rest))
            },
            5 => {
                let (p, rest) = Option::<Chat>::mc_deserialize(data)?;
                Ok((EntityMetadataFieldData::OptChat(p), rest))
            },
            6 => {
                let (p, rest) = Option::<Slot>::mc_deserialize(data)?;
                Ok((EntityMetadataFieldData::Slot(p), rest))
            },
            7 => {
                let (p, rest) = bool::mc_deserialize(data)?;
                Ok((EntityMetadataFieldData::Boolean(p), rest))
            },
            8 => {
                let (p, rest) = EntityRotation::mc_deserialize(data)?;
                Ok((EntityMetadataFieldData::Rotation(p), rest))
            },
            9 => {
                let (p, rest) = IntPosition::mc_deserialize(data)?;
                Ok((EntityMetadataFieldData::Position(p), rest))
            },
            10 => {
                let (p, rest) = Option::<IntPosition>::mc_deserialize(data)?;
                Ok((EntityMetadataFieldData::OptPosition(p), rest))
            },
            11 => {
                let (p, rest) = EntityDirection::mc_deserialize(data)?;
                Ok((EntityMetadataFieldData::Direction(p), rest))
            },
            12 => {
                let (p, rest) = Option::<UUID4>::mc_deserialize(data)?;
                Ok((EntityMetadataFieldData::OptUUID(p), rest))
            },
            13 => {
                let (p, rest) = VarInt::mc_deserialize(data)?;
                Ok((EntityMetadataFieldData::OptBlockId(p), rest))
            },
            14 => {
                let (p, rest) = NamedNbtTag::mc_deserialize(data)?;
                Ok((EntityMetadataFieldData::NBT(p), rest))
            },
            15 => {
                let (p, rest) = ParticleSpec::mc_deserialize(data)?;
                Ok((EntityMetadataFieldData::Particle(p), rest))
            },
            16 => {
                let (p, rest) = EntityVillagerData::mc_deserialize(data)?;
                Ok((EntityMetadataFieldData::VillagerData(p), rest))
            },
            17 => {
                let (p, rest) = VarInt::mc_deserialize(data)?;
                Ok((EntityMetadataFieldData::OptVarInt(p), rest))
            },
            18 => {
                let (p, rest) = EntityPose::mc_deserialize(data)?;
                Ok((EntityMetadataFieldData::Pose(p), rest))
            },
            _ => Err(DeserializeErr::UnknownTag(id as i64)),
        }
    }

    pub proof fn lemma_payload_round_trip(m: EntityMetadataFieldDataModel, rest: Seq<u8>)
        requires
            Self::legal(m),
        ensures
            Self::encodable(m),
            Self::spec_from_id(Self::spec_id(m), Self::spec_payload_bytes(m) + rest) == Ok::<
                (EntityMetadataFieldDataModel, Seq<u8>),
                DeserializeErr,
            >((m, rest)),
    {
        match m {
            EntityMetadataFieldDataModel::Byte(p) => i8::lemma_round_trip(p, rest),
            EntityMetadataFieldDataModel::VarInt(p) => VarInt::lemma_round_trip(p, rest),
            EntityMetadataFieldDataModel::Float(p) => Float32::lemma_round_trip(p, rest),
            EntityMetadataFieldDataModel::String(p) => String::lemma_round_trip(p, rest),
            EntityMetadataFieldDataModel::Chat(p) => Chat::lemma_round_trip(p, rest),
            EntityMetadataFieldDataModel::OptChat(p) => Option::<Chat>::lemma_round_trip(p, rest),
            EntityMetadataFieldDataModel::Slot(p) => Option::<Slot>::lemma_round_trip(p, rest),
            EntityMetadataFieldDataModel::Boolean(p) => bool::lemma_round_trip(p, rest),
            EntityMetadataFieldDataModel::Rotation(p) => EntityRotation::lemma_round_trip(p, rest),
            EntityMetadataFieldDataModel::Position(p) => IntPosition::lemma_round_trip(p, rest),
            EntityMetadataFieldDataModel::OptPosition(p) => Option::<IntPosition>::lemma_round_trip(p, rest),
            EntityMetadataFieldDataModel::Direction(p) => EntityDirection::lemma_round_trip(p, rest),
            EntityMetadataFieldDataModel::OptUUID(p) => Option::<UUID4>::lemma_round_trip(p, rest),
            EntityMetadataFieldDataModel::OptBlockId(p) => VarInt::lemma_round_trip(p, rest),
            EntityMetadataFieldDataModel::NBT(p) => NamedNbtTag::lemma_round_trip(p, rest),
            EntityMetadataFieldDataModel::Particle(p) => ParticleSpec::lemma_round_trip(p, rest),
            EntityMetadataFieldDataModel::VillagerData(p) => EntityVillagerData::lemma_round_trip(p, rest),
            EntityMetadataFieldDataModel::OptVarInt(p) => VarInt::lemma_round_trip(p, rest),
            EntityMetadataFieldDataModel::Pose(p) => EntityPose::lemma_round_trip(p, rest),
        }
    }
}

impl Codec for EntityMetadataFieldData {
    type Model = EntityMetadataFieldDataModel;

    open spec fn model(&self) -> EntityMetadataFieldDataModel {
        match self {
            EntityMetadataFieldData::Byte(p) => EntityMetadataFieldDataModel::Byte(p.model()),
            EntityMetadataFieldData::VarInt(p) => EntityMetadataFieldDataModel::VarInt(p.model()),
            EntityMetadataFieldData::Float(p) => EntityMetadataFieldDataModel::Float(p.model()),
            EntityMetadataFieldData::String(p) => EntityMetadataFieldDataModel::String(p.model()),
            EntityMetadataFieldData::Chat(p) => EntityMetadataFieldDataModel::Chat(p.model()),
            EntityMetadataFieldData::OptChat(p) => EntityMetadataFieldDataModel::OptChat(p.model()),
            EntityMetadataFieldData::Slot(p) => EntityMetadataFieldDataModel::Slot(p.model()),
            EntityMetadataFieldData::Boolean(p) => EntityMetadataFieldDataModel::Boolean(p.model()),
            EntityMetadataFieldData::Rotation(p) => EntityMetadataFieldDataModel::Rotation(p.model()),
            EntityMetadataFieldData::Position(p) => EntityMetadataFieldDataModel::Position(p.model()),
            EntityMetadataFieldData::OptPosition(p) => EntityMetadataFieldDataModel::OptPosition(p.model()),
            EntityMetadataFieldData::Direction(p) => EntityMetadataFieldDataModel::Direction(p.model()),
            EntityMetadataFieldData::OptUUID(p) => EntityMetadataFieldDataModel::OptUUID(p.model()),
            EntityMetadataFieldData::OptBlockId(p) => EntityMetadataFieldDataModel::OptBlockId(p.model()),
            EntityMetadataFieldData::NBT(p) => EntityMetadataFieldDataModel::NBT(p.model()),
            EntityMetadataFieldData::Particle(p) => EntityMetadataFieldDataModel::Particle(p.model()),
            EntityMetadataFieldData::VillagerData(p) => EntityMetadataFieldDataModel::VillagerData(p.model()),
            EntityMetadataFieldData::OptVarInt(p) => EntityMetadataFieldDataModel::OptVarInt(p.model()),
            EntityMetadataFieldData::Pose(p) => EntityMetadataFieldDataModel::Pose(p.model()),
        }
    }

    open spec fn encodable(m: EntityMetadataFieldDataModel) -> bool {
        match m {
            EntityMetadataFieldDataModel::Byte(p) => i8::encodable(p),
            EntityMetadataFieldDataModel::VarInt(p) => VarInt::encodable(p),
            EntityMetadataFieldDataModel::Float(p) => Float32::encodable(p),
            EntityMetadataFieldDataModel::String(p) => String::encodable(p),
            EntityMetadataFieldDataModel::Chat(p) => Chat::encodable(p),
            EntityMetadataFieldDataModel::OptChat(p) => Option::<Chat>::encodable(p),
            EntityMetadataFieldDataModel::Slot(p) => Option::<Slot>::encodable(p),
            EntityMetadataFieldDataModel::Boolean(p) => bool::encodable(p),
            EntityMetadataFieldDataModel::Rotation(p) => EntityRotation::encodable(p),
            EntityMetadataFieldDataModel::Position(p) => IntPosition::encodable(p),
            EntityMetadataFieldDataModel::OptPosition(p) => Option::<IntPosition>::encodable(p),
            EntityMetadataFieldDataModel::Direction(p) => EntityDirection::encodable(p),
            EntityMetadataFieldDataModel::OptUUID(p) => Option::<UUID4>::encodable(p),
            EntityMetadataFieldDataModel::OptBlockId(p) => VarInt::encodable(p),
            EntityMetadataFieldDataModel::NBT(p) => NamedNbtTag::encodable(p),
            EntityMetadataFieldDataModel::Particle(p) => ParticleSpec::encodable(p),
            EntityMetadataFieldDataModel::VillagerData(p) => EntityVillagerData::encodable(p),
            EntityMetadataFieldDataModel::OptVarInt(p) => VarInt::encodable(p),
            EntityMetadataFieldDataModel::Pose(p) => EntityPose::encodable(p),
        }
    }

    open spec fn legal(m: EntityMetadataFieldDataModel) -> bool {
        match m {
            EntityMetadataFieldDataModel::Byte(p) => i8::legal(p),
            EntityMetadataFieldDataModel::VarInt(p) => VarInt::legal(p),
            EntityMetadataFieldDataModel::Float(p) => Float32::legal(p),
            EntityMetadataFieldDataModel::String(p) => String::legal(p),
            EntityMetadataFieldDataModel::Chat(p) => Chat::legal(p),
            EntityMetadataFieldDataModel::OptChat(p) => Option::<Chat>::legal(p),
            EntityMetadataFieldDataModel::Slot(p) => Option::<Slot>::legal(p),
            EntityMetadataFieldDataModel::Boolean(p) => bool::legal(p),
            EntityMetadataFieldDataModel::Rotation(p) => EntityRotation::legal(p),
            EntityMetadataFieldDataModel::Position(p) => IntPosition::legal(p),
            EntityMetadataFieldDataModel::OptPosition(p) => Option::<IntPosition>::legal(p),
            EntityMetadataFieldDataModel::Direction(p) => EntityDirection::legal(p),
            EntityMetadataFieldDataModel::OptUUID(p) => Option::<UUID4>::legal(p),
            EntityMetadataFieldDataModel::OptBlockId(p) => VarInt::legal(p),
            EntityMetadataFieldDataModel::NBT(p) => NamedNbtTag::legal(p),
            EntityMetadataFieldDataModel::Particle(p) => ParticleSpec::legal(p),
            EntityMetadataFieldDataModel::VillagerData(p) => EntityVillagerData::legal(p),
            EntityMetadataFieldDataModel::OptVarInt(p) => VarInt::legal(p),
            EntityMetadataFieldDataModel::Pose(p) => EntityPose::legal(p),
        }
    }

    /// The discriminant as a `VarInt`, then the variant's payload.
    open spec fn spec_serialize(m: EntityMetadataFieldDataModel) -> Seq<u8> {
        spec_varint_serialize(Self::spec_id(m)) + Self::spec_payload_bytes(m)
    }

    open spec fn spec_deserialize(s: Seq<u8>) -> SpecResult<EntityMetadataFieldDataModel> {
        match spec_varint_deserialize(s) {
            Err(e) => Err(e),
            Ok((id, r)) => Self::spec_from_id(id, r),
        }
    }

    proof fn lemma_round_trip(m: EntityMetadataFieldDataModel, rest: Seq<u8>) {
        let payload = Self::spec_payload_bytes(m) + rest;
        VarInt::lemma_round_trip(Self::spec_id(m), payload);
        assert(Self::spec_serialize(m) + rest =~= spec_varint_serialize(Self::spec_id(m)) + payload);
        Self::lemma_payload_round_trip(m, rest);
    }

    fn mc_serialize(&self, to: &mut Vec<u8>) {
        let ghost start = to@;
        VarInt(self.id()).mc_serialize(to);
        self.serialize_body(to);
        assert(to@ =~= start + Self::spec_serialize(self.model()));
    }

    fn mc_deserialize(data: &[u8]) -> (r: Result<(Self, &[u8]), DeserializeErr>) {
        let (id, rest) = VarInt::mc_deserialize(data)?;
        Self::deserialize_with_id(id.0, rest)
    }
}

} // verus!
