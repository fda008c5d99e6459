//! The message catalogue's value types: tagged unions with a byte, `VarInt`
//! or `i32` discriminant, flag sets, string-tagged unions and plain field
//! records, each with the shape the protocol gives it.
use vstd::prelude::*;
use vstd::pervasive::arbitrary;
use vstd::seq_lib::lemma_concat_associative;
use crate::codec::{Codec, DeserializeErr, SpecResult, read_matches};
use crate::varnum::{spec_varint_serialize, spec_varint_deserialize};
use crate::primitives::{
    take_bytes, write_str, str_eq, lemma_tag_encodable, spec_string_serialize, spec_string_deserialize,
};
use crate::bodies::{AdvancementDisplayFlags, BlockChangeHorizontalPosition, GameMode, PlayerInfoAction, TeamMember};
use crate::containers::{VarIntCountedArray};
use crate::metadata::{Chat};
use crate::primitives::{Float32, Float64, UUID4};
use crate::recipes::{Slot};
use crate::varnum::{VarInt, VarLong};

verus! {

/// An angle as values.
pub struct AngleModel {
    pub value: <u8 as Codec>::Model,
}

/// A rotation in 256ths of a full turn
#[derive(Debug, Clone, Copy, PartialEq, Eq)]
pub struct Angle {
    pub value: u8,
}

impl Codec for Angle {
    type Model = AngleModel;

    open spec fn model(&self) -> AngleModel {
        AngleModel { value: self.value.model() }
    }

    open spec fn encodable(m: AngleModel) -> bool {
        u8::encodable(m.value)
    }

    open spec fn legal(m: AngleModel) -> bool {
        u8::legal(m.value)
    }

    open spec fn spec_serialize(m: AngleModel) -> Seq<u8> {
        u8::spec_serialize(m.value)
    }

    open spec fn spec_deserialize(s: Seq<u8>) -> SpecResult<AngleModel> {
        match u8::spec_deserialize(s) {
            Err(e) => Err(e),
            Ok((value, r1)) => Ok((AngleModel { value }, r1)),
        }
    }

    proof fn lemma_round_trip(m: AngleModel, rest: Seq<u8>) {
        u8::lemma_round_trip(m.value, rest);
    }

    fn mc_serialize(&self, to: &mut Vec<u8>) {
        let ghost start = to@;
        self.value.mc_serialize(to);
        assert(to@ =~= start + Self::spec_serialize(self.model()));
    }

    fn mc_deserialize(data: &[u8]) -> (r: Result<(Self, &[u8]), DeserializeErr>) {
        let (value, rest) = u8::mc_deserialize(data)?;
        Ok((Angle { value }, rest))
    }
}

/// A fixed-point number as values.
pub struct FixedIntModel {
    pub raw: <i32 as Codec>::Model,
}

/// A fixed-point number: the value times 32, rounded, as a big-endian `i32`
#[derive(Debug, Clone, Copy, PartialEq, Eq)]
pub struct FixedInt {
    pub raw: i32,
}

impl Codec for FixedInt {
    type Model = FixedIntModel;

    open spec fn model(&self) -> FixedIntModel {
        FixedIntModel { raw: self.raw.model() }
    }

    open spec fn encodable(m: FixedIntModel) -> bool {
        i32::encodable(m.raw)
    }

    open spec fn legal(m: FixedIntModel) -> bool {
        i32::legal(m.raw)
    }

    open spec fn spec_serialize(m: FixedIntModel) -> Seq<u8> {
        i32::spec_serialize(m.raw)
    }

    open spec fn spec_deserialize(s: Seq<u8>) -> SpecResult<FixedIntModel> {
        match i32::spec_deserialize(s) {
            Err(e) => Err(e),
            Ok((raw, r1)) => Ok((FixedIntModel { raw }, r1)),
        }
    }

    proof fn lemma_round_trip(m: FixedIntModel, rest: Seq<u8>) {
        i32::lemma_round_trip(m.raw, rest);
    }

    fn mc_serialize(&self, to: &mut Vec<u8>) {
        let ghost start = to@;
        self.raw.mc_serialize(to);
        assert(to@ =~= start + Self::spec_serialize(self.model()));
    }

    fn mc_deserialize(data: &[u8]) -> (r: Result<(Self, &[u8]), DeserializeErr>) {
        let (raw, rest) = i32::mc_deserialize(data)?;
        Ok((FixedInt { raw }, rest))
    }
}

/// A server status as values.
pub struct StatusSpecModel {
    pub json: <String as Codec>::Model,
}

/// The server status, carried as its JSON text
#[derive(Debug, Clone, PartialEq, Eq)]
pub struct StatusSpec {
    pub json: String,
}

impl Codec for StatusSpec {
    type Model = StatusSpecModel;

    open spec fn model(&self) -> StatusSpecModel {
        StatusSpecModel { json: self.json.model() }
    }

    open spec fn encodable(m: StatusSpecModel) -> bool {
        String::encodable(m.json)
    }

    open spec fn legal(m: StatusSpecModel) -> bool {
        String::legal(m.json)
    }

    open spec fn spec_serialize(m: StatusSpecModel) -> Seq<u8> {
        String::spec_serialize(m.json)
    }

    open spec fn spec_deserialize(s: Seq<u8>) -> SpecResult<StatusSpecModel> {
        match String::spec_deserialize(s) {
            Err(e) => Err(e),
            Ok((json, r1)) => Ok((StatusSpecModel { json }, r1)),
        }
    }

    proof fn lemma_round_trip(m: StatusSpecModel, rest: Seq<u8>) {
        String::lemma_round_trip(m.json, rest);
    }

    fn mc_serialize(&self, to: &mut Vec<u8>) {
        let ghost start = to@;
        self.json.mc_serialize(to);
        assert(to@ =~= start + Self::spec_serialize(self.model()));
    }

    fn mc_deserialize(data: &[u8]) -> (r: Result<(Self, &[u8]), DeserializeErr>) {
        let (json, rest) = String::mc_deserialize(data)?;
        Ok((StatusSpec { json }, rest))
    }
}

/// The cardinal direction of the protocol.
#[derive(Debug, Clone, Copy, PartialEq, Eq, Structural)]
pub enum CardinalDirection {
    South,
    West,
    North,
    East,
}

impl CardinalDirection {
    pub open spec fn spec_id(m: CardinalDirection) -> u8 {
        match m {
            CardinalDirection::South => 0,
            CardinalDirection::West => 1,
            CardinalDirection::North => 2,
            CardinalDirection::East => 3,
        }
    }

    pub open spec fn spec_of_id(id: u8) -> Option<CardinalDirection> {
        match id {
            0 => Some(CardinalDirection::South),
            1 => Some(CardinalDirection::West),
            2 => Some(CardinalDirection::North),
            3 => Some(CardinalDirection::East),
            _ => None,
        }
    }

    /// The discriminant written for this variant.
    pub fn id(&self) -> (r: u8)
        ensures
            r == Self::spec_id(*self),
    {
        match self {
            CardinalDirection::South => 0,
            CardinalDirection::West => 1,
            CardinalDirection::North => 2,
            CardinalDirection::East => 3,
        }
    }
}

impl Codec for CardinalDirection {
    type Model = CardinalDirection;

    open spec fn model(&self) -> CardinalDirection {
        *self
    }

    open spec fn encodable(m: CardinalDirection) -> bool {
        true
    }

    open spec fn legal(m: CardinalDirection) -> bool {
        true
    }

    open spec fn spec_serialize(m: CardinalDirection) -> Seq<u8> {
        seq![Self::spec_id(m)]
    }

    /// A discriminant that names no variant is an error carrying it.
    open spec fn spec_deserialize(s: Seq<u8>) -> SpecResult<CardinalDirection> {
        match u8::spec_deserialize(s) {
            Err(e) => Err(e),
            Ok((id, rest)) => match Self::spec_of_id(id) {
                Some(v) => Ok((v, rest)),
                None => Err(DeserializeErr::UnknownTag(id as i64)),
            },
        }
    }

    proof fn lemma_round_trip(m: CardinalDirection, rest: Seq<u8>) {
        u8::lemma_round_trip(Self::spec_id(m), rest);
    }

    fn mc_serialize(&self, to: &mut Vec<u8>) {
        to.push(self.id());
    }

    fn mc_deserialize(data: &[u8]) -> (r: Result<(Self, &[u8]), DeserializeErr>) {
        let (id, rest) = u8::mc_deserialize(data)?;
        match id {
            0 => Ok((CardinalDirection::South, rest)),
            1 => Ok((CardinalDirection::West, rest)),
            2 => Ok((CardinalDirection::North, rest)),
            3 => Ok((CardinalDirection::East, rest)),
            _ => Err(DeserializeErr::UnknownTag(id as i64)),
        }
    }
}

/// The entity animation kind of the protocol.
#[derive(Debug, Clone, Copy, PartialEq, Eq, Structural)]
pub enum EntityAnimationKind {
    SwingMainArm,
    TakeDamage,
    LeaveBed,
    SwingOffHand,
    CriticalEffect,
    MagicCriticalEffect,
}

impl EntityAnimationKind {
    pub open spec fn spec_id(m: EntityAnimationKind) -> u8 {
        match m {
            EntityAnimationKind::SwingMainArm => 0,
            EntityAnimationKind::TakeDamage => 1,
            EntityAnimationKind::LeaveBed => 2,
            EntityAnimationKind::SwingOffHand => 3,
            EntityAnimationKind::CriticalEffect => 4,
            EntityAnimationKind::MagicCriticalEffect => 5,
        }
    }

    pub open spec fn spec_of_id(id: u8) -> Option<EntityAnimationKind> {
        match id {
            0 => Some(EntityAnimationKind::SwingMainArm),
            1 => Some(EntityAnimationKind::TakeDamage),
            2 => Some(EntityAnimationKind::LeaveBed),
            3 => Some(EntityAnimationKind::SwingOffHand),
            4 => Some(EntityAnimationKind::CriticalEffect),
            5 => Some(EntityAnimationKind::MagicCriticalEffect),
            _ => None,
        }
    }

    /// The discriminant written for this variant.
    pub fn id(&self) -> (r: u8)
        ensures
            r == Self::spec_id(*self),
    {
        match self {
            EntityAnimationKind::SwingMainArm => 0,
            EntityAnimationKind::TakeDamage => 1,
            EntityAnimationKind::LeaveBed => 2,
            EntityAnimationKind::SwingOffHand => 3,
            EntityAnimationKind::CriticalEffect => 4,
            EntityAnimationKind::MagicCriticalEffect => 5,
        }
    }
}

impl Codec for EntityAnimationKind {
    type Model = EntityAnimationKind;

    open spec fn model(&self) -> EntityAnimationKind {
        *self
    }

    open spec fn encodable(m: EntityAnimationKind) -> bool {
        true
    }

    open spec fn legal(m: EntityAnimationKind) -> bool {
        true
    }

    open spec fn spec_serialize(m: EntityAnimationKind) -> Seq<u8> {
        seq![Self::spec_id(m)]
    }

    /// A discriminant that names no variant is an error carrying it.
    open spec fn spec_deserialize(s: Seq<u8>) -> SpecResult<EntityAnimationKind> {
        match u8::spec_deserialize(s) {
            Err(e) => Err(e),
            Ok((id, rest)) => match Self::spec_of_id(id) {
                Some(v) => Ok((v, rest)),
                None => Err(DeserializeErr::UnknownTag(id as i64)),
            },
        }
    }

    proof fn lemma_round_trip(m: EntityAnimationKind, rest: Seq<u8>) {
        u8::lemma_round_trip(Self::spec_id(m), rest);
    }

    fn mc_serialize(&self, to: &mut Vec<u8>) {
        to.push(self.id());
    }

    fn mc_deserialize(data: &[u8]) -> (r: Result<(Self, &[u8]), DeserializeErr>) {
        let (id, rest) = u8::mc_deserialize(data)?;
        match id {
            0 => Ok((EntityAnimationKind::SwingMainArm, rest)),
            1 => Ok((EntityAnimationKind::TakeDamage, rest)),
            2 => Ok((EntityAnimationKind::LeaveBed, rest)),
            3 => Ok((EntityAnimationKind::SwingOffHand, rest)),
            4 => Ok((EntityAnimationKind::CriticalEffect, rest)),
            5 => Ok((EntityAnimationKind::MagicCriticalEffect, rest)),
            _ => Err(DeserializeErr::UnknownTag(id as i64)),
        }
    }
}

/// A statistic category as values.
pub enum StatisticCategoryModel {
    Mined(<VarInt as Codec>::Model),
    Crafted(<VarInt as Codec>::Model),
    Used(<VarInt as Codec>::Model),
    Broken(<VarInt as Codec>::Model),
    PickedUp(<VarInt as Codec>::Model),
    Dropped(<VarInt as Codec>::Model),
    Killed(<VarInt as Codec>::Model),
    KilledBy(<VarInt as Codec>::Model),
    Custom(<StatisticKind as Codec>::Model),
}

/// The statistic category of the protocol.
#[derive(Debug, Clone, PartialEq, Eq)]
pub enum StatisticCategory {
    Mined(VarInt),
    Crafted(VarInt),
    Used(VarInt),
    Broken(VarInt),
    PickedUp(VarInt),
    Dropped(VarInt),
    Killed(VarInt),
    KilledBy(VarInt),
    Custom(StatisticKind),
}

impl StatisticCategory {
    pub open spec fn spec_id(m: StatisticCategoryModel) -> i32 {
        match m {
            StatisticCategoryModel::Mined(_) => 0i32,
            StatisticCategoryModel::Crafted(_) => 1i32,
            StatisticCategoryModel::Used(_) => 2i32,
            StatisticCategoryModel::Broken(_) => 3i32,
            StatisticCategoryModel::PickedUp(_) => 4i32,
            StatisticCategoryModel::Dropped(_) => 5i32,
            StatisticCategoryModel::Killed(_) => 6i32,
            StatisticCategoryModel::KilledBy(_) => 7i32,
            StatisticCategoryModel::Custom(_) => 8i32,
        }
    }

    /// Reads the payload of `m`'s variant from `r`.
    pub open spec fn spec_payload(m: StatisticCategoryModel, r: Seq<u8>) -> SpecResult<StatisticCategoryModel> {
        match m {
            StatisticCategoryModel::Mined(_) => match VarInt::spec_deserialize(r) {
                Ok((p, r2)) => Ok((StatisticCategoryModel::Mined(p), r2)),
                Err(e) => Err(e),
            },
            StatisticCategoryModel::Crafted(_) => match VarInt::spec_deserialize(r) {
                Ok((p, r2)) => Ok((StatisticCategoryModel::Crafted(p), r2)),
                Err(e) => Err(e),
            },
            StatisticCategoryModel::Used(_) => match VarInt::spec_deserialize(r) {
                Ok((p, r2)) => Ok((StatisticCategoryModel::Used(p), r2)),
                Err(e) => Err(e),
            },
            StatisticCategoryModel::Broken(_) => match VarInt::spec_deserialize(r) {
                Ok((p, r2)) => Ok((StatisticCategoryModel::Broken(p), r2)),
                Err(e) => Err(e),
            },
            StatisticCategoryModel::PickedUp(_) => match VarInt::spec_deserialize(r) {
                Ok((p, r2)) => Ok((StatisticCategoryModel::PickedUp(p), r2)),
                Err(e) => Err(e),
            },
            StatisticCategoryModel::Dropped(_) => match VarInt::spec_deserialize(r) {
                Ok((p, r2)) => Ok((StatisticCategoryModel::Dropped(p), r2)),
                Err(e) => Err(e),
            },
            StatisticCategoryModel::Killed(_) => match VarInt::spec_deserialize(r) {
                Ok((p, r2)) => Ok((StatisticCategoryModel::Killed(p), r2)),
                Err(e) => Err(e),
            },
            StatisticCategoryModel::KilledBy(_) => match VarInt::spec_deserialize(r) {
                Ok((p, r2)) => Ok((StatisticCategoryModel::KilledBy(p), r2)),
                Err(e) => Err(e),
            },
            StatisticCategoryModel::Custom(_) => match StatisticKind::spec_deserialize(r) {
                Ok((p, r2)) => Ok((StatisticCategoryModel::Custom(p), r2)),
                Err(e) => Err(e),
            },
        }
    }

    /// The variant that a discriminant names, with its payload read from
    /// `r`; a discriminant that names no variant is an error carrying it.
    pub open spec fn spec_from_id(id: i32, r: Seq<u8>) -> SpecResult<StatisticCategoryModel> {
        match id {
            0i32 => Self::spec_payload(StatisticCategoryModel::Mined(arbitrary()), r),
            1i32 => Self::spec_payload(StatisticCategoryModel::Crafted(arbitrary()), r),
            2i32 => Self::spec_payload(StatisticCategoryModel::Used(arbitrary()), r),
            3i32 => Self::spec_payload(StatisticCategoryModel::Broken(arbitrary()), r),
            4i32 => Self::spec_payload(StatisticCategoryModel::PickedUp(arbitrary()), r),
            5i32 => Self::spec_payload(StatisticCategoryModel::Dropped(arbitrary()), r),
            6i32 => Self::spec_payload(StatisticCategoryModel::Killed(arbitrary()), r),
            7i32 => Self::spec_payload(StatisticCategoryModel::KilledBy(arbitrary()), r),
            8i32 => Self::spec_payload(StatisticCategoryModel::Custom(arbitrary()), r),
            _ => Err(DeserializeErr::UnknownTag(id as i64)),
        }
    }

    pub open spec fn spec_payload_bytes(m: StatisticCategoryModel) -> Seq<u8> {
        match m {
            StatisticCategoryModel::Mined(p) => VarInt::spec_serialize(p),
            StatisticCategoryModel::Crafted(p) => VarInt::spec_serialize(p),
            StatisticCategoryModel::Used(p) => VarInt::spec_serialize(p),
            StatisticCategoryModel::Broken(p) => VarInt::spec_serialize(p),
            StatisticCategoryModel::PickedUp(p) => VarInt::spec_serialize(p),
            StatisticCategoryModel::Dropped(p) => VarInt::spec_serialize(p),
            StatisticCategoryModel::Killed(p) => VarInt::spec_serialize(p),
            StatisticCategoryModel::KilledBy(p) => VarInt::spec_serialize(p),
            StatisticCategoryModel::Custom(p) => StatisticKind::spec_serialize(p),
        }
    }

    /// The discriminant of this variant.
    pub fn id(&self) -> (r: i32)
        ensures
            r == Self::spec_id(self.model()),
    {
        match self {
            StatisticCategory::Mined(_) => 0,
            StatisticCategory::Crafted(_) => 1,
            StatisticCategory::Used(_) => 2,
            StatisticCategory::Broken(_) => 3,
            StatisticCategory::PickedUp(_) => 4,
            StatisticCategory::Dropped(_) => 5,
            StatisticCategory::Killed(_) => 6,
            StatisticCategory::KilledBy(_) => 7,
            StatisticCategory::Custom(_) => 8,
        }
    }

    /// Writes the payload alone.
    pub fn serialize_body(&self, to: &mut Vec<u8>)
        requires
            Self::encodable(self.model()),
        ensures
            final(to)@ == old(to)@ + Self::spec_payload_bytes(self.model()),
    {
        match self {
            StatisticCategory::Mined(p) => p.mc_serialize(to),
            StatisticCategory::Crafted(p) => p.mc_serialize(to),
            StatisticCategory::Used(p) => p.mc_serialize(to),
            StatisticCategory::Broken(p) => p.mc_serialize(to),
            StatisticCategory::PickedUp(p) => p.mc_serialize(to),
            StatisticCategory::Dropped(p) => p.mc_serialize(to),
            StatisticCategory::Killed(p) => p.mc_serialize(to),
            StatisticCategory::KilledBy(p) => p.mc_serialize(to),
            StatisticCategory::Custom(p) => p.mc_serialize(to),
        }
        assert(to@ =~= to@ + Seq::<u8>::empty());
    }

    /// Reads the payload of the variant that `id` names.
    pub fn deserialize_with_id(id: i32, data: &[u8]) -> (r: Result<(Self, &[u8]), DeserializeErr>)
        ensures
            read_matches(r, |v: Self| v.model(), Self::spec_from_id(id, data@)),
    {
        match id {
            0 => {
                let (p, rest) = VarInt::mc_deserialize(data)?;
                Ok((StatisticCategory::Mined(p), rest))
            },
            1 => {
                let (p, rest) = VarInt::mc_deserialize(data)?;
                Ok((StatisticCategory::Crafted(p), rest))
            },
            2 => {
                let (p, rest) = VarInt::mc_deserialize(data)?;
                Ok((StatisticCategory::Used(p), rest))
            },
            3 => {
                let (p, rest) = VarInt::mc_deserialize(data)?;
                Ok((StatisticCategory::Broken(p), rest))
            },
            4 => {
                let (p, rest) = VarInt::mc_deserialize(data)?;
                Ok((StatisticCategory::PickedUp(p), rest))
            },
            5 => {
                let (p, rest) = VarInt::mc_deserialize(data)?;
                Ok((StatisticCategory::Dropped(p), rest))
            },
            6 => {
                let (p, rest) = VarInt::mc_deserialize(data)?;
                Ok((StatisticCategory::Killed(p), rest))
            },
            7 => {
                let (p, rest) = VarInt::mc_deserialize(data)?;
                Ok((StatisticCategory::KilledBy(p), rest))
            },
            8 => {
                let (p, rest) = StatisticKind::mc_deserialize(data)?;
                Ok((StatisticCategory::Custom(p), rest))
            },
            _ => Err(DeserializeErr::UnknownTag(id as i64)),
        }
    }

    pub proof fn lemma_payload_round_trip(m: StatisticCategoryModel, rest: Seq<u8>)
        requires
            Self::legal(m),
        ensures
            Self::encodable(m),
            Self::spec_from_id(Self::spec_id(m), Self::spec_payload_bytes(m) + rest) == Ok::<
                (StatisticCategoryModel, Seq<u8>),
                DeserializeErr,
            >((m, rest)),
    {
        match m {
            StatisticCategoryModel::Mined(p) => VarInt::lemma_round_trip(p, rest),
            StatisticCategoryModel::Crafted(p) => VarInt::lemma_round_trip(p, rest),
            StatisticCategoryModel::Used(p) => VarInt::lemma_round_trip(p, rest),
            StatisticCategoryModel::Broken(p) => VarInt::lemma_round_trip(p, rest),
            StatisticCategoryModel::PickedUp(p) => VarInt::lemma_round_trip(p, rest),
            StatisticCategoryModel::Dropped(p) => VarInt::lemma_round_trip(p, rest),
            StatisticCategoryModel::Killed(p) => VarInt::lemma_round_trip(p, rest),
            StatisticCategoryModel::KilledBy(p) => VarInt::lemma_round_trip(p, rest),
            StatisticCategoryModel::Custom(p) => StatisticKind::lemma_round_trip(p, rest),
        }
    }
}

impl Codec for StatisticCategory {
    type Model = StatisticCategoryModel;

    open spec fn model(&self) -> StatisticCategoryModel {
        match self {
            StatisticCategory::Mined(p) => StatisticCategoryModel::Mined(p.model()),
            StatisticCategory::Crafted(p) => StatisticCategoryModel::Crafted(p.model()),
            StatisticCategory::Used(p) => StatisticCategoryModel::Used(p.model()),
            StatisticCategory::Broken(p) => StatisticCategoryModel::Broken(p.model()),
            StatisticCategory::PickedUp(p) => StatisticCategoryModel::PickedUp(p.model()),
            StatisticCategory::Dropped(p) => StatisticCategoryModel::Dropped(p.model()),
            StatisticCategory::Killed(p) => StatisticCategoryModel::Killed(p.model()),
            StatisticCategory::KilledBy(p) => StatisticCategoryModel::KilledBy(p.model()),
            StatisticCategory::Custom(p) => StatisticCategoryModel::Custom(p.model()),
        }
    }

    open spec fn encodable(m: StatisticCategoryModel) -> bool {
        match m {
            StatisticCategoryModel::Mined(p) => VarInt::encodable(p),
            StatisticCategoryModel::Crafted(p) => VarInt::encodable(p),
            StatisticCategoryModel::Used(p) => VarInt::encodable(p),
            StatisticCategoryModel::Broken(p) => VarInt::encodable(p),
            StatisticCategoryModel::PickedUp(p) => VarInt::encodable(p),
            StatisticCategoryModel::Dropped(p) => VarInt::encodable(p),
            StatisticCategoryModel::Killed(p) => VarInt::encodable(p),
            StatisticCategoryModel::KilledBy(p) => VarInt::encodable(p),
            StatisticCategoryModel::Custom(p) => StatisticKind::encodable(p),
        }
    }

    open spec fn legal(m: StatisticCategoryModel) -> bool {
        match m {
            StatisticCategoryModel::Mined(p) => VarInt::legal(p),
            StatisticCategoryModel::Crafted(p) => VarInt::legal(p),
            StatisticCategoryModel::Used(p) => VarInt::legal(p),
            StatisticCategoryModel::Broken(p) => VarInt::legal(p),
            StatisticCategoryModel::PickedUp(p) => VarInt::legal(p),
            StatisticCategoryModel::Dropped(p) => VarInt::legal(p),
            StatisticCategoryModel::Killed(p) => VarInt::legal(p),
            StatisticCategoryModel::KilledBy(p) => VarInt::legal(p),
            StatisticCategoryModel::Custom(p) => StatisticKind::legal(p),
        }
    }

    /// The discriminant as a `VarInt`, then the variant's payload.
    open spec fn spec_serialize(m: StatisticCategoryModel) -> Seq<u8> {
        spec_varint_serialize(Self::spec_id(m)) + Self::spec_payload_bytes(m)
    }

    open spec fn spec_deserialize(s: Seq<u8>) -> SpecResult<StatisticCategoryModel> {
        match spec_varint_deserialize(s) {
            Err(e) => Err(e),
            Ok((id, r)) => Self::spec_from_id(id, r),
        }
    }

    proof fn lemma_round_trip(m: StatisticCategoryModel, rest: Seq<u8>) {
        let payload = Self::spec_payload_bytes(m) + rest;
        VarInt::lemma_round_trip(Self::spec_id(m), payload);
        assert(Self::spec_serialize(m) + rest =~= spec_varint_serialize(Self::spec_id(m)) + payload);
        Self::lemma_payload_round_trip(m, rest);
    }

    fn mc_serialize(&self, to: &mut Vec<u8>) {
        let ghost start = to@;
        VarInt(self.id()).mc_serialize(to);
        self.serialize_body(to);
        assert(to@ =~= start + Self::spec_serialize(self.model()));
    }

    fn mc_deserialize(data: &[u8]) -> (r: Result<(Self, &[u8]), DeserializeErr>) {
        let (id, rest) = VarInt::mc_deserialize(data)?;
        Self::deserialize_with_id(id.0, rest)
    }
}

/// The statistic kind of the protocol.
#[derive(Debug, Clone, Copy, PartialEq, Eq, Structural)]
pub enum StatisticKind {
    LeaveGame,
    PlayOneMinute,
    TimeSinceDeath,
    SneakTime,
    WealkOneCm,
    CrouchOneCm,
    SprintOneCm,
    SwimOneCm,
    FallOneCm,
    ClimbOneCm,
    FlyOneCm,
    DiveOneCm,
    MinecartOneCm,
    BoatOneCm,
    PigOneCm,
    HorseOneCm,
    AviateOneCm,
    Jumps,
    Drops,
    DamageDealt,
    DamageTaken,
    Deaths,
    MobKills,
    AnimalsBread,
    PlayerKills,
    FishCaught,
    TalkedToVillager,
    TradedWithVillager,
    EatCakeSlice,
    FillCauldron,
    UseCauldron,
    CleanArmor,
    CleanBanner,
    InteractWithBrewingStand,
    InteractWithBeaccon,
    InspectDropper,
    InspectHopper,
    InspectDispenser,
    PlayNoteBlock,
    TuneNoteBlock,
    PotFlower,
    TriggerTrappedChest,
    OpenEnderChest,
    EnchantItem,
    PlayRecord,
    InteractWithFurnace,
    InteractWithCraftingTable,
    OpenChest,
    SleepInBed,
    OpenShulkerBox,
}

impl StatisticKind {
    pub open spec fn spec_id(m: StatisticKind) -> i32 {
        match m {
            StatisticKind::LeaveGame => 0,
            StatisticKind::PlayOneMinute => 1,
            StatisticKind::TimeSinceDeath => 2,
            StatisticKind::SneakTime => 3,
            StatisticKind::WealkOneCm => 4,
            StatisticKind::CrouchOneCm => 5,
            StatisticKind::SprintOneCm => 6,
            StatisticKind::SwimOneCm => 7,
            StatisticKind::FallOneCm => 8,
            StatisticKind::ClimbOneCm => 9,
            StatisticKind::FlyOneCm => 10,
            StatisticKind::DiveOneCm => 11,
            StatisticKind::MinecartOneCm => 12,
            StatisticKind::BoatOneCm => 13,
            StatisticKind::PigOneCm => 14,
            StatisticKind::HorseOneCm => 15,
            StatisticKind::AviateOneCm => 16,
            StatisticKind::Jumps => 17,
            StatisticKind::Drops => 18,
            StatisticKind::DamageDealt => 19,
            StatisticKind::DamageTaken => 20,
            StatisticKind::Deaths => 21,
            StatisticKind::MobKills => 22,
            StatisticKind::AnimalsBread => 23,
            StatisticKind::PlayerKills => 24,
            StatisticKind::FishCaught => 25,
            StatisticKind::TalkedToVillager => 26,
            StatisticKind::TradedWithVillager => 27,
            StatisticKind::EatCakeSlice => 28,
            StatisticKind::FillCauldron => 29,
            StatisticKind::UseCauldron => 30,
            StatisticKind::CleanArmor => 31,
            StatisticKind::CleanBanner => 32,
            StatisticKind::InteractWithBrewingStand => 33,
            StatisticKind::InteractWithBeaccon => 34,
            StatisticKind::InspectDropper => 35,
            StatisticKind::InspectHopper => 36,
            StatisticKind::InspectDispenser => 37,
            StatisticKind::PlayNoteBlock => 38,
            StatisticKind::TuneNoteBlock => 39,
            StatisticKind::PotFlower => 40,
            StatisticKind::TriggerTrappedChest => 41,
            StatisticKind::OpenEnderChest => 42,
            StatisticKind::EnchantItem => 43,
            StatisticKind::PlayRecord => 44,
            StatisticKind::InteractWithFurnace => 45,
            StatisticKind::InteractWithCraftingTable => 46,
            StatisticKind::OpenChest => 47,
            StatisticKind::SleepInBed => 48,
            StatisticKind::OpenShulkerBox => 49,
        }
    }

    pub open spec fn spec_of_id(id: i32) -> Option<StatisticKind> {
        match id {
            0 => Some(StatisticKind::LeaveGame),
            1 => Some(StatisticKind::PlayOneMinute),
            2 => Some(StatisticKind::TimeSinceDeath),
            3 => Some(StatisticKind::SneakTime),
            4 => Some(StatisticKind::WealkOneCm),
            5 => Some(StatisticKind::CrouchOneCm),
            6 => Some(StatisticKind::SprintOneCm),
            7 => Some(StatisticKind::SwimOneCm),
            8 => Some(StatisticKind::FallOneCm),
            9 => Some(StatisticKind::ClimbOneCm),
            10 => Some(StatisticKind::FlyOneCm),
            11 => Some(StatisticKind::DiveOneCm),
            12 => Some(StatisticKind::MinecartOneCm),
            13 => Some(StatisticKind::BoatOneCm),
            14 => Some(StatisticKind::PigOneCm),
            15 => Some(StatisticKind::HorseOneCm),
            16 => Some(StatisticKind::AviateOneCm),
            17 => Some(StatisticKind::Jumps),
            18 => Some(StatisticKind::Drops),
            19 => Some(StatisticKind::DamageDealt),
            20 => Some(StatisticKind::DamageTaken),
            21 => Some(StatisticKind::Deaths),
            22 => Some(StatisticKind::MobKills),
            23 => Some(StatisticKind::AnimalsBread),
            24 => Some(StatisticKind::PlayerKills),
            25 => Some(StatisticKind::FishCaught),
            26 => Some(StatisticKind::TalkedToVillager),
            27 => Some(StatisticKind::TradedWithVillager),
            28 => Some(StatisticKind::EatCakeSlice),
            29 => Some(StatisticKind::FillCauldron),
            30 => Some(StatisticKind::UseCauldron),
            31 => Some(StatisticKind::CleanArmor),
            32 => Some(StatisticKind::CleanBanner),
            33 => Some(StatisticKind::InteractWithBrewingStand),
            34 => Some(StatisticKind::InteractWithBeaccon),
            35 => Some(StatisticKind::InspectDropper),
            36 => Some(StatisticKind::InspectHopper),
            37 => Some(StatisticKind::InspectDispenser),
            38 => Some(StatisticKind::PlayNoteBlock),
            39 => Some(StatisticKind::TuneNoteBlock),
            40 => Some(StatisticKind::PotFlower),
            41 => Some(StatisticKind::TriggerTrappedChest),
            42 => Some(StatisticKind::OpenEnderChest),
            43 => Some(StatisticKind::EnchantItem),
            44 => Some(StatisticKind::PlayRecord),
            45 => Some(StatisticKind::InteractWithFurnace),
            46 => Some(StatisticKind::InteractWithCraftingTable),
            47 => Some(StatisticKind::OpenChest),
            48 => Some(StatisticKind::SleepInBed),
            49 => Some(StatisticKind::OpenShulkerBox),
            _ => None,
        }
    }

    /// The discriminant written for this variant.
    pub fn id(&self) -> (r: i32)
        ensures
            r == Self::spec_id(*self),
    {
        match self {
            StatisticKind::LeaveGame => 0,
            StatisticKind::PlayOneMinute => 1,
            StatisticKind::TimeSinceDeath => 2,
            StatisticKind::SneakTime => 3,
            StatisticKind::WealkOneCm => 4,
            StatisticKind::CrouchOneCm => 5,
            StatisticKind::SprintOneCm => 6,
            StatisticKind::SwimOneCm => 7,
            StatisticKind::FallOneCm => 8,
            StatisticKind::ClimbOneCm => 9,
            StatisticKind::FlyOneCm => 10,
            StatisticKind::DiveOneCm => 11,
            StatisticKind::MinecartOneCm => 12,
            StatisticKind::BoatOneCm => 13,
            StatisticKind::PigOneCm => 14,
            StatisticKind::HorseOneCm => 15,
            StatisticKind::AviateOneCm => 16,
            StatisticKind::Jumps => 17,
            StatisticKind::Drops => 18,
            StatisticKind::DamageDealt => 19,
            StatisticKind::DamageTaken => 20,
            StatisticKind::Deaths => 21,
            StatisticKind::MobKills => 22,
            StatisticKind::AnimalsBread => 23,
            StatisticKind::PlayerKills => 24,
            StatisticKind::FishCaught => 25,
            StatisticKind::TalkedToVillager => 26,
            StatisticKind::TradedWithVillager => 27,
            StatisticKind::EatCakeSlice => 28,
            StatisticKind::FillCauldron => 29,
            StatisticKind::UseCauldron => 30,
            StatisticKind::CleanArmor => 31,
            StatisticKind::CleanBanner => 32,
            StatisticKind::InteractWithBrewingStand => 33,
            StatisticKind::InteractWithBeaccon => 34,
            StatisticKind::InspectDropper => 35,
            StatisticKind::InspectHopper => 36,
            StatisticKind::InspectDispenser => 37,
            StatisticKind::PlayNoteBlock => 38,
            StatisticKind::TuneNoteBlock => 39,
            StatisticKind::PotFlower => 40,
            StatisticKind::TriggerTrappedChest => 41,
            StatisticKind::OpenEnderChest => 42,
            StatisticKind::EnchantItem => 43,
            StatisticKind::PlayRecord => 44,
            StatisticKind::InteractWithFurnace => 45,
            StatisticKind::InteractWithCraftingTable => 46,
            StatisticKind::OpenChest => 47,
            StatisticKind::SleepInBed => 48,
            StatisticKind::OpenShulkerBox => 49,
        }
    }
}

impl Codec for StatisticKind {
    type Model = StatisticKind;

    open spec fn model(&self) -> StatisticKind {
        *self
    }

    open spec fn encodable(m: StatisticKind) -> bool {
        true
    }

    open spec fn legal(m: StatisticKind) -> bool {
        true
    }

    open spec fn spec_serialize(m: StatisticKind) -> Seq<u8> {
        spec_varint_serialize(Self::spec_id(m))
    }

    /// A discriminant that names no variant is an error carrying it.
    open spec fn spec_deserialize(s: Seq<u8>) -> SpecResult<StatisticKind> {
        match spec_varint_deserialize(s) {
            Err(e) => Err(e),
            Ok((id, rest)) => match Self::spec_of_id(id) {
                Some(v) => Ok((v, rest)),
                None => Err(DeserializeErr::UnknownTag(id as i64)),
            },
        }
    }

    proof fn lemma_round_trip(m: StatisticKind, rest: Seq<u8>) {
        VarInt::lemma_round_trip(Self::spec_id(m), rest);
    }

    fn mc_serialize(&self, to: &mut Vec<u8>) {
        VarInt(self.id()).mc_serialize(to);
    }

    fn mc_deserialize(data: &[u8]) -> (r: Result<(Self, &[u8]), DeserializeErr>) {
        let (id, rest) = VarInt::mc_deserialize(data)?;
        let id = id.0;
        match id {
            0 => Ok((StatisticKind::LeaveGame, rest)),
            1 => Ok((StatisticKind::PlayOneMinute, rest)),
            2 => Ok((StatisticKind::TimeSinceDeath, rest)),
            3 => Ok((StatisticKind::SneakTime, rest)),
            4 => Ok((StatisticKind::WealkOneCm, rest)),
            5 => Ok((StatisticKind::CrouchOneCm, rest)),
            6 => Ok((StatisticKind::SprintOneCm, rest)),
            7 => Ok((StatisticKind::SwimOneCm, rest)),
            8 => Ok((StatisticKind::FallOneCm, rest)),
            9 => Ok((StatisticKind::ClimbOneCm, rest)),
            10 => Ok((StatisticKind::FlyOneCm, rest)),
            11 => Ok((StatisticKind::DiveOneCm, rest)),
            12 => Ok((StatisticKind::MinecartOneCm, rest)),
            13 => Ok((StatisticKind::BoatOneCm, rest)),
            14 => Ok((StatisticKind::PigOneCm, rest)),
            15 => Ok((StatisticKind::HorseOneCm, rest)),
            16 => Ok((StatisticKind::AviateOneCm, rest)),
            17 => Ok((StatisticKind::Jumps, rest)),
            18 => Ok((StatisticKind::Drops, rest)),
            19 => Ok((StatisticKind::DamageDealt, rest)),
            20 => Ok((StatisticKind::DamageTaken, rest)),
            21 => Ok((StatisticKind::Deaths, rest)),
            22 => Ok((StatisticKind::MobKills, rest)),
            23 => Ok((StatisticKind::AnimalsBread, rest)),
            24 => Ok((StatisticKind::PlayerKills, rest)),
            25 => Ok((StatisticKind::FishCaught, rest)),
            26 => Ok((StatisticKind::TalkedToVillager, rest)),
            27 => Ok((StatisticKind::TradedWithVillager, rest)),
            28 => Ok((StatisticKind::EatCakeSlice, rest)),
            29 => Ok((StatisticKind::FillCauldron, rest)),
            30 => Ok((StatisticKind::UseCauldron, rest)),
            31 => Ok((StatisticKind::CleanArmor, rest)),
            32 => Ok((StatisticKind::CleanBanner, rest)),
            33 => Ok((StatisticKind::InteractWithBrewingStand, rest)),
            34 => Ok((StatisticKind::InteractWithBeaccon, rest)),
            35 => Ok((StatisticKind::InspectDropper, rest)),
            36 => Ok((StatisticKind::InspectHopper, rest)),
            37 => Ok((StatisticKind::InspectDispenser, rest)),
            38 => Ok((StatisticKind::PlayNoteBlock, rest)),
            39 => Ok((StatisticKind::TuneNoteBlock, rest)),
            40 => Ok((StatisticKind::PotFlower, rest)),
            41 => Ok((StatisticKind::TriggerTrappedChest, rest)),
            42 => Ok((StatisticKind::OpenEnderChest, rest)),
            43 => Ok((StatisticKind::EnchantItem, rest)),
            44 => Ok((StatisticKind::PlayRecord, rest)),
            45 => Ok((StatisticKind::InteractWithFurnace, rest)),
            46 => Ok((StatisticKind::InteractWithCraftingTable, rest)),
            47 => Ok((StatisticKind::OpenChest, rest)),
            48 => Ok((StatisticKind::SleepInBed, rest)),
            49 => Ok((StatisticKind::OpenShulkerBox, rest)),
            _ => Err(DeserializeErr::UnknownTag(id as i64)),
        }
    }
}

/// The digging status of the protocol.
#[derive(Debug, Clone, Copy, PartialEq, Eq, Structural)]
pub enum DiggingStatus {
    Started,
    Cancelled,
    Finished,
}

impl DiggingStatus {
    pub open spec fn spec_id(m: DiggingStatus) -> u8 {
        match m {
            DiggingStatus::Started => 0,
            DiggingStatus::Cancelled => 1,
            DiggingStatus::Finished => 2,
        }
    }

    pub open spec fn spec_of_id(id: u8) -> Option<DiggingStatus> {
        match id {
            0 => Some(DiggingStatus::Started),
            1 => Some(DiggingStatus::Cancelled),
            2 => Some(DiggingStatus::Finished),
            _ => None,
        }
    }

    /// The discriminant written for this variant.
    pub fn id(&self) -> (r: u8)
        ensures
            r == Self::spec_id(*self),
    {
        match self {
            DiggingStatus::Started => 0,
            DiggingStatus::Cancelled => 1,
            DiggingStatus::Finished => 2,
        }
    }
}

impl Codec for DiggingStatus {
    type Model = DiggingStatus;

    open spec fn model(&self) -> DiggingStatus {
        *self
    }

    open spec fn encodable(m: DiggingStatus) -> bool {
        true
    }

    open spec fn legal(m: DiggingStatus) -> bool {
        true
    }

    open spec fn spec_serialize(m: DiggingStatus) -> Seq<u8> {
        seq![Self::spec_id(m)]
    }

    /// A discriminant that names no variant is an error carrying it.
    open spec fn spec_deserialize(s: Seq<u8>) -> SpecResult<DiggingStatus> {
        match u8::spec_deserialize(s) {
            Err(e) => Err(e),
            Ok((id, rest)) => match Self::spec_of_id(id) {
                Some(v) => Ok((v, rest)),
                None => Err(DeserializeErr::UnknownTag(id as i64)),
            },
        }
    }

    proof fn lemma_round_trip(m: DiggingStatus, rest: Seq<u8>) {
        u8::lemma_round_trip(Self::spec_id(m), rest);
    }

    fn mc_serialize(&self, to: &mut Vec<u8>) {
        to.push(self.id());
    }

    fn mc_deserialize(data: &[u8]) -> (r: Result<(Self, &[u8]), DeserializeErr>) {
        let (id, rest) = u8::mc_deserialize(data)?;
        match id {
            0 => Ok((DiggingStatus::Started, rest)),
            1 => Ok((DiggingStatus::Cancelled, rest)),
            2 => Ok((DiggingStatus::Finished, rest)),
            _ => Err(DeserializeErr::UnknownTag(id as i64)),
        }
    }
}

/// The block entity data action of the protocol.
#[derive(Debug, Clone, Copy, PartialEq, Eq, Structural)]
pub enum BlockEntityDataAction {
    SetMobSpawnerData,
    SetCommandBlockText,
    SetBeaconLevelAndPower,
    SetMobHeadRotationAndSkin,
    DeclareConduit,
    SetBannerColorAndPatterns,
    SetStructureTileEntityData,
    SetEndGatewayDestination,
    SetSignText,
    DeclareBed,
    SetJigsawBlockData,
    SetCampfireItems,
    BeehiveInformation,
}

impl BlockEntityDataAction {
    pub open spec fn spec_id(m: BlockEntityDataAction) -> u8 {
        match m {
            BlockEntityDataAction::SetMobSpawnerData => 1,
            BlockEntityDataAction::SetCommandBlockText => 2,
            BlockEntityDataAction::SetBeaconLevelAndPower => 3,
            BlockEntityDataAction::SetMobHeadRotationAndSkin => 4,
            BlockEntityDataAction::DeclareConduit => 5,
            BlockEntityDataAction::SetBannerColorAndPatterns => 6,
            BlockEntityDataAction::SetStructureTileEntityData => 7,
            BlockEntityDataAction::SetEndGatewayDestination => 8,
            BlockEntityDataAction::SetSignText => 9,
            BlockEntityDataAction::DeclareBed => 11,
            BlockEntityDataAction::SetJigsawBlockData => 12,
            BlockEntityDataAction::SetCampfireItems => 13,
            BlockEntityDataAction::BeehiveInformation => 14,
        }
    }

    pub open spec fn spec_of_id(id: u8) -> Option<BlockEntityDataAction> {
        match id {
            1 => Some(BlockEntityDataAction::SetMobSpawnerData),
            2 => Some(BlockEntityDataAction::SetCommandBlockText),
            3 => Some(BlockEntityDataAction::SetBeaconLevelAndPower),
            4 => Some(BlockEntityDataAction::SetMobHeadRotationAndSkin),
            5 => Some(BlockEntityDataAction::DeclareConduit),
            6 => Some(BlockEntityDataAction::SetBannerColorAndPatterns),
            7 => Some(BlockEntityDataAction::SetStructureTileEntityData),
            8 => Some(BlockEntityDataAction::SetEndGatewayDestination),
            9 => Some(BlockEntityDataAction::SetSignText),
            11 => Some(BlockEntityDataAction::DeclareBed),
            12 => Some(BlockEntityDataAction::SetJigsawBlockData),
            13 => Some(BlockEntityDataAction::SetCampfireItems),
            14 => Some(BlockEntityDataAction::BeehiveInformation),
            _ => None,
        }
    }

    /// The discriminant written for this variant.
    pub fn id(&self) -> (r: u8)
        ensures
            r == Self::spec_id(*self),
    {
        match self {
            BlockEntityDataAction::SetMobSpawnerData => 1,
            BlockEntityDataAction::SetCommandBlockText => 2,
            BlockEntityDataAction::SetBeaconLevelAndPower => 3,
            BlockEntityDataAction::SetMobHeadRotationAndSkin => 4,
            BlockEntityDataAction::DeclareConduit => 5,
            BlockEntityDataAction::SetBannerColorAndPatterns => 6,
            BlockEntityDataAction::SetStructureTileEntityData => 7,
            BlockEntityDataAction::SetEndGatewayDestination => 8,
            BlockEntityDataAction::SetSignText => 9,
            BlockEntityDataAction::DeclareBed => 11,
            BlockEntityDataAction::SetJigsawBlockData => 12,
            BlockEntityDataAction::SetCampfireItems => 13,
            BlockEntityDataAction::BeehiveInformation => 14,
        }
    }
}

impl Codec for BlockEntityDataAction {
    type Model = BlockEntityDataAction;

    open spec fn model(&self) -> BlockEntityDataAction {
        *self
    }

    open spec fn encodable(m: BlockEntityDataAction) -> bool {
        true
    }

    open spec fn legal(m: BlockEntityDataAction) -> bool {
        true
    }

    open spec fn spec_serialize(m: BlockEntityDataAction) -> Seq<u8> {
        seq![Self::spec_id(m)]
    }

    /// A discriminant that names no variant is an error carrying it.
    open spec fn spec_deserialize(s: Seq<u8>) -> SpecResult<BlockEntityDataAction> {
        match u8::spec_deserialize(s) {
            Err(e) => Err(e),
            Ok((id, rest)) => match Self::spec_of_id(id) {
                Some(v) => Ok((v, rest)),
                None => Err(DeserializeErr::UnknownTag(id as i64)),
            },
        }
    }

    proof fn lemma_round_trip(m: BlockEntityDataAction, rest: Seq<u8>) {
        u8::lemma_round_trip(Self::spec_id(m), rest);
    }

    fn mc_serialize(&self, to: &mut Vec<u8>) {
        to.push(self.id());
    }

    fn mc_deserialize(data: &[u8]) -> (r: Result<(Self, &[u8]), DeserializeErr>) {
        let (id, rest) = u8::mc_deserialize(data)?;
        match id {
            1 => Ok((BlockEntityDataAction::SetMobSpawnerData, rest)),
            2 => Ok((BlockEntityDataAction::SetCommandBlockText, rest)),
            3 => Ok((BlockEntityDataAction::SetBeaconLevelAndPower, rest)),
            4 => Ok((BlockEntityDataAction::SetMobHeadRotationAndSkin, rest)),
            5 => Ok((BlockEntityDataAction::DeclareConduit, rest)),
            6 => Ok((BlockEntityDataAction::SetBannerColorAndPatterns, rest)),
            7 => Ok((BlockEntityDataAction::SetStructureTileEntityData, rest)),
            8 => Ok((BlockEntityDataAction::SetEndGatewayDestination, rest)),
            9 => Ok((BlockEntityDataAction::SetSignText, rest)),
            11 => Ok((BlockEntityDataAction::DeclareBed, rest)),
            12 => Ok((BlockEntityDataAction::SetJigsawBlockData, rest)),
            13 => Ok((BlockEntityDataAction::SetCampfireItems, rest)),
            14 => Ok((BlockEntityDataAction::BeehiveInformation, rest)),
            _ => Err(DeserializeErr::UnknownTag(id as i64)),
        }
    }
}

/// The difficulty of the protocol.
#[derive(Debug, Clone, Copy, PartialEq, Eq, Structural)]
pub enum Difficulty {
    Peaceful,
    Easy,
    Normal,
    Hard,
}

impl Difficulty {
    pub open spec fn spec_id(m: Difficulty) -> u8 {
        match m {
            Difficulty::Peaceful => 0,
            Difficulty::Easy => 1,
            Difficulty::Normal => 2,
            Difficulty::Hard => 3,
        }
    }

    pub open spec fn spec_of_id(id: u8) -> Option<Difficulty> {
        match id {
            0 => Some(Difficulty::Peaceful),
            1 => Some(Difficulty::Easy),
            2 => Some(Difficulty::Normal),
            3 => Some(Difficulty::Hard),
            _ => None,
        }
    }

    /// The discriminant written for this variant.
    pub fn id(&self) -> (r: u8)
        ensures
            r == Self::spec_id(*self),
    {
        match self {
            Difficulty::Peaceful => 0,
            Difficulty::Easy => 1,
            Difficulty::Normal => 2,
            Difficulty::Hard => 3,
        }
    }
}

impl Codec for Difficulty {
    type Model = Difficulty;

    open spec fn model(&self) -> Difficulty {
        *self
    }

    open spec fn encodable(m: Difficulty) -> bool {
        true
    }

    open spec fn legal(m: Difficulty) -> bool {
        true
    }

    open spec fn spec_serialize(m: Difficulty) -> Seq<u8> {
        seq![Self::spec_id(m)]
    }

    /// A discriminant that names no variant is an error carrying it.
    open spec fn spec_deserialize(s: Seq<u8>) -> SpecResult<Difficulty> {
        match u8::spec_deserialize(s) {
            Err(e) => Err(e),
            Ok((id, rest)) => match Self::spec_of_id(id) {
                Some(v) => Ok((v, rest)),
                None => Err(DeserializeErr::UnknownTag(id as i64)),
            },
        }
    }

    proof fn lemma_round_trip(m: Difficulty, rest: Seq<u8>) {
        u8::lemma_round_trip(Self::spec_id(m), rest);
    }

    fn mc_serialize(&self, to: &mut Vec<u8>) {
        to.push(self.id());
    }

    fn mc_deserialize(data: &[u8]) -> (r: Result<(Self, &[u8]), DeserializeErr>) {
        let (id, rest) = u8::mc_deserialize(data)?;
        match id {
            0 => Ok((Difficulty::Peaceful, rest)),
            1 => Ok((Difficulty::Easy, rest)),
            2 => Ok((Difficulty::Normal, rest)),
            3 => Ok((Difficulty::Hard, rest)),
            _ => Err(DeserializeErr::UnknownTag(id as i64)),
        }
    }
}

/// The chat position of the protocol.
#[derive(Debug, Clone, Copy, PartialEq, Eq, Structural)]
pub enum ChatPosition {
    ChatBox,
    SystemMessage,
    Hotbar,
}

impl ChatPosition {
    pub open spec fn spec_id(m: ChatPosition) -> u8 {
        match m {
            ChatPosition::ChatBox => 0,
            ChatPosition::SystemMessage => 1,
            ChatPosition::Hotbar => 2,
        }
    }

    pub open spec fn spec_of_id(id: u8) -> Option<ChatPosition> {
        match id {
            0 => Some(ChatPosition::ChatBox),
            1 => Some(ChatPosition::SystemMessage),
            2 => Some(ChatPosition::Hotbar),
            _ => None,
        }
    }

    /// The discriminant written for this variant.
    pub fn id(&self) -> (r: u8)
        ensures
            r == Self::spec_id(*self),
    {
        match self {
            ChatPosition::ChatBox => 0,
            ChatPosition::SystemMessage => 1,
            ChatPosition::Hotbar => 2,
        }
    }
}

impl Codec for ChatPosition {
    type Model = ChatPosition;

    open spec fn model(&self) -> ChatPosition {
        *self
    }

    open spec fn encodable(m: ChatPosition) -> bool {
        true
    }

    open spec fn legal(m: ChatPosition) -> bool {
        true
    }

    open spec fn spec_serialize(m: ChatPosition) -> Seq<u8> {
        seq![Self::spec_id(m)]
    }

    /// A discriminant that names no variant is an error carrying it.
    open spec fn spec_deserialize(s: Seq<u8>) -> SpecResult<ChatPosition> {
        match u8::spec_deserialize(s) {
            Err(e) => Err(e),
            Ok((id, rest)) => match Self::spec_of_id(id) {
                Some(v) => Ok((v, rest)),
                None => Err(DeserializeErr::UnknownTag(id as i64)),
            },
        }
    }

    proof fn lemma_round_trip(m: ChatPosition, rest: Seq<u8>) {
        u8::lemma_round_trip(Self::spec_id(m), rest);
    }

    fn mc_serialize(&self, to: &mut Vec<u8>) {
        to.push(self.id());
    }

    fn mc_deserialize(data: &[u8]) -> (r: Result<(Self, &[u8]), DeserializeErr>) {
        let (id, rest) = u8::mc_deserialize(data)?;
        match id {
            0 => Ok((ChatPosition::ChatBox, rest)),
            1 => Ok((ChatPosition::SystemMessage, rest)),
            2 => Ok((ChatPosition::Hotbar, rest)),
            _ => Err(DeserializeErr::UnknownTag(id as i64)),
        }
    }
}

/// A boss bar action as values.
pub enum BossBarActionModel {
    Add(<BossBarAddSpec as Codec>::Model),
    Remove,
    UpdateHealth(<BossBarUpdateHealthSpec as Codec>::Model),
    UpdateTitle(<BossBarUpdateTitleSpec as Codec>::Model),
    UpdateStyle(<BossBarUpdateStyleSpec as Codec>::Model),
    UpdateFlags(<BossBarUpdateFlagsSpec as Codec>::Model),
}

/// The boss bar action of the protocol.
#[derive(Debug, Clone, PartialEq, Eq)]
pub enum BossBarAction {
    Add(BossBarAddSpec),
    Remove,
    UpdateHealth(BossBarUpdateHealthSpec),
    UpdateTitle(BossBarUpdateTitleSpec),
    UpdateStyle(BossBarUpdateStyleSpec),
    UpdateFlags(BossBarUpdateFlagsSpec),
}

impl BossBarAction {
    pub open spec fn spec_id(m: BossBarActionModel) -> i32 {
        match m {
            BossBarActionModel::Add(_) => 0i32,
            BossBarActionModel::Remove => 1i32,
            BossBarActionModel::UpdateHealth(_) => 2i32,
            BossBarActionModel::UpdateTitle(_) => 3i32,
            BossBarActionModel::UpdateStyle(_) => 4i32,
            BossBarActionModel::UpdateFlags(_) => 5i32,
        }
    }

    /// Reads the payload of `m`'s variant from `r`.
    pub open spec fn spec_payload(m: BossBarActionModel, r: Seq<u8>) -> SpecResult<BossBarActionModel> {
        match m {
            BossBarActionModel::Add(_) => match BossBarAddSpec::spec_deserialize(r) {
                Ok((p, r2)) => Ok((BossBarActionModel::Add(p), r2)),
                Err(e) => Err(e),
            },
            BossBarActionModel::Remove => Ok((BossBarActionModel::Remove, r)),
            BossBarActionModel::UpdateHealth(_) => match BossBarUpdateHealthSpec::spec_deserialize(r) {
                Ok((p, r2)) => Ok((BossBarActionModel::UpdateHealth(p), r2)),
                Err(e) => Err(e),
            },
            BossBarActionModel::UpdateTitle(_) => match BossBarUpdateTitleSpec::spec_deserialize(r) {
                Ok((p, r2)) => Ok((BossBarActionModel::UpdateTitle(p), r2)),
                Err(e) => Err(e),
            },
            BossBarActionModel::UpdateStyle(_) => match BossBarUpdateStyleSpec::spec_deserialize(r) {
                Ok((p, r2)) => Ok((BossBarActionModel::UpdateStyle(p), r2)),
                Err(e) => Err(e),
            },
            BossBarActionModel::UpdateFlags(_) => match BossBarUpdateFlagsSpec::spec_deserialize(r) {
                Ok((p, r2)) => Ok((BossBarActionModel::UpdateFlags(p), r2)),
                Err(e) => Err(e),
            },
        }
    }

    /// The variant that a discriminant names, with its payload read from
    /// `r`; a discriminant that names no variant is an error carrying it.
    pub open spec fn spec_from_id(id: i32, r: Seq<u8>) -> SpecResult<BossBarActionModel> {
        match id {
            0i32 => Self::spec_payload(BossBarActionModel::Add(arbitrary()), r),
            1i32 => Self::spec_payload(BossBarActionModel::Remove, r),
            2i32 => Self::spec_payload(BossBarActionModel::UpdateHealth(arbitrary()), r),
            3i32 => Self::spec_payload(BossBarActionModel::UpdateTitle(arbitrary()), r),
            4i32 => Self::spec_payload(BossBarActionModel::UpdateStyle(arbitrary()), r),
            5i32 => Self::spec_payload(BossBarActionModel::UpdateFlags(arbitrary()), r),
            _ => Err(DeserializeErr::UnknownTag(id as i64)),
        }
    }

    pub open spec fn spec_payload_bytes(m: BossBarActionModel) -> Seq<u8> {
        match m {
            BossBarActionModel::Add(p) => BossBarAddSpec::spec_serialize(p),
            BossBarActionModel::UpdateHealth(p) => BossBarUpdateHealthSpec::spec_serialize(p),
            BossBarActionModel::UpdateTitle(p) => BossBarUpdateTitleSpec::spec_serialize(p),
            BossBarActionModel::UpdateStyle(p) => BossBarUpdateStyleSpec::spec_serialize(p),
            BossBarActionModel::UpdateFlags(p) => BossBarUpdateFlagsSpec::spec_serialize(p),
            _ => Seq::empty(),
        }
    }

    /// The discriminant of this variant.
    pub fn id(&self) -> (r: i32)
        ensures
            r == Self::spec_id(self.model()),
    {
        match self {
            BossBarAction::Add(_) => 0,
            BossBarAction::Remove => 1,
            BossBarAction::UpdateHealth(_) => 2,
            BossBarAction::UpdateTitle(_) => 3,
            BossBarAction::UpdateStyle(_) => 4,
            BossBarAction::UpdateFlags(_) => 5,
        }
    }

    /// Writes the payload alone.
    pub fn serialize_body(&self, to: &mut Vec<u8>)
        requires
            Self::encodable(self.model()),
        ensures
            final(to)@ == old(to)@ + Self::spec_payload_bytes(self.model()),
    {
        match self {
            BossBarAction::Add(p) => p.mc_serialize(to),
            BossBarAction::UpdateHealth(p) => p.mc_serialize(to),
            BossBarAction::UpdateTitle(p) => p.mc_serialize(to),
            BossBarAction::UpdateStyle(p) => p.mc_serialize(to),
            BossBarAction::UpdateFlags(p) => p.mc_serialize(to),
            _ => {},
        }
        assert(to@ =~= to@ + Seq::<u8>::empty());
    }

    /// Reads the payload of the variant that `id` names.
    pub fn deserialize_with_id(id: i32, data: &[u8]) -> (r: Result<(Self, &[u8]), DeserializeErr>)
        ensures
            read_matches(r, |v: Self| v.model(), Self::spec_from_id(id, data@)),
    {
        match id {
            0 => {
                let (p, rest) = BossBarAddSpec::mc_deserialize(data)?;
                Ok((BossBarAction::Add(p), rest))
            },
            1 => Ok((BossBarAction::Remove, data)),
            2 => {
                let (p, rest) = BossBarUpdateHealthSpec::mc_deserialize(data)?;
                Ok((BossBarAction::UpdateHealth(p), rest))
            },
            3 => {
                let (p, rest) = BossBarUpdateTitleSpec::mc_deserialize(data)?;
                Ok((BossBarAction::UpdateTitle(p), rest))
            },
            4 => {
                let (p, rest) = BossBarUpdateStyleSpec::mc_deserialize(data)?;
                Ok((BossBarAction::UpdateStyle(p), rest))
            },
            5 => {
                let (p, rest) = BossBarUpdateFlagsSpec::mc_deserialize(data)?;
                Ok((BossBarAction::UpdateFlags(p), rest))
            },
            _ => Err(DeserializeErr::UnknownTag(id as i64)),
        }
    }

    pub proof fn lemma_payload_round_trip(m: BossBarActionModel, rest: Seq<u8>)
        requires
            Self::legal(m),
        ensures
            Self::encodable(m),
            Self::spec_from_id(Self::spec_id(m), Self::spec_payload_bytes(m) + rest) == Ok::<
                (BossBarActionModel, Seq<u8>),
                DeserializeErr,
            >((m, rest)),
    {
        match m {
            BossBarActionModel::Add(p) => BossBarAddSpec::lemma_round_trip(p, rest),
            BossBarActionModel::UpdateHealth(p) => BossBarUpdateHealthSpec::lemma_round_trip(p, rest),
            BossBarActionModel::UpdateTitle(p) => BossBarUpdateTitleSpec::lemma_round_trip(p, rest),
            BossBarActionModel::UpdateStyle(p) => BossBarUpdateStyleSpec::lemma_round_trip(p, rest),
            BossBarActionModel::UpdateFlags(p) => BossBarUpdateFlagsSpec::lemma_round_trip(p, rest),
            _ => assert(Seq::<u8>::empty() + rest =~= rest),
        }
    }
}

impl Codec for BossBarAction {
    type Model = BossBarActionModel;

    open spec fn model(&self) -> BossBarActionModel {
        match self {
            BossBarAction::Add(p) => BossBarActionModel::Add(p.model()),
            BossBarAction::Remove => BossBarActionModel::Remove,
            BossBarAction::UpdateHealth(p) => BossBarActionModel::UpdateHealth(p.model()),
            BossBarAction::UpdateTitle(p) => BossBarActionModel::UpdateTitle(p.model()),
            BossBarAction::UpdateStyle(p) => BossBarActionModel::UpdateStyle(p.model()),
            BossBarAction::UpdateFlags(p) => BossBarActionModel::UpdateFlags(p.model()),
        }
    }

    open spec fn encodable(m: BossBarActionModel) -> bool {
        match m {
            BossBarActionModel::Add(p) => BossBarAddSpec::encodable(p),
            BossBarActionModel::UpdateHealth(p) => BossBarUpdateHealthSpec::encodable(p),
            BossBarActionModel::UpdateTitle(p) => BossBarUpdateTitleSpec::encodable(p),
            BossBarActionModel::UpdateStyle(p) => BossBarUpdateStyleSpec::encodable(p),
            BossBarActionModel::UpdateFlags(p) => BossBarUpdateFlagsSpec::encodable(p),
            _ => true,
        }
    }

    open spec fn legal(m: BossBarActionModel) -> bool {
        match m {
            BossBarActionModel::Add(p) => BossBarAddSpec::legal(p),
            BossBarActionModel::UpdateHealth(p) => BossBarUpdateHealthSpec::legal(p),
            BossBarActionModel::UpdateTitle(p) => BossBarUpdateTitleSpec::legal(p),
            BossBarActionModel::UpdateStyle(p) => BossBarUpdateStyleSpec::legal(p),
            BossBarActionModel::UpdateFlags(p) => BossBarUpdateFlagsSpec::legal(p),
            _ => true,
        }
    }

    /// The discriminant as a `VarInt`, then the variant's payload.
    open spec fn spec_serialize(m: BossBarActionModel) -> Seq<u8> {
        spec_varint_serialize(Self::spec_id(m)) + Self::spec_payload_bytes(m)
    }

    open spec fn spec_deserialize(s: Seq<u8>) -> SpecResult<BossBarActionModel> {
        match spec_varint_deserialize(s) {
            Err(e) => Err(e),
            Ok((id, r)) => Self::spec_from_id(id, r),
        }
    }

    proof fn lemma_round_trip(m: BossBarActionModel, rest: Seq<u8>) {
        let payload = Self::spec_payload_bytes(m) + rest;
        VarInt::lemma_round_trip(Self::spec_id(m), payload);
        assert(Self::spec_serialize(m) + rest =~= spec_varint_serialize(Self::spec_id(m)) + payload);
        Self::lemma_payload_round_trip(m, rest);
    }

    fn mc_serialize(&self, to: &mut Vec<u8>) {
        let ghost start = to@;
        VarInt(self.id()).mc_serialize(to);
        self.serialize_body(to);
        assert(to@ =~= start + Self::spec_serialize(self.model()));
    }

    fn mc_deserialize(data: &[u8]) -> (r: Result<(Self, &[u8]), DeserializeErr>) {
        let (id, rest) = VarInt::mc_deserialize(data)?;
        Self::deserialize_with_id(id.0, rest)
    }
}

/// The boss bar color of the protocol.
#[derive(Debug, Clone, Copy, PartialEq, Eq, Structural)]
pub enum BossBarColor {
    Pink,
    Blue,
    Red,
    Green,
    Yellow,
    Purple,
    White,
}

impl BossBarColor {
    pub open spec fn spec_id(m: BossBarColor) -> i32 {
        match m {
            BossBarColor::Pink => 0,
            BossBarColor::Blue => 1,
            BossBarColor::Red => 2,
            BossBarColor::Green => 3,
            BossBarColor::Yellow => 4,
            BossBarColor::Purple => 5,
            BossBarColor::White => 6,
        }
    }

    pub open spec fn spec_of_id(id: i32) -> Option<BossBarColor> {
        match id {
            0 => Some(BossBarColor::Pink),
            1 => Some(BossBarColor::Blue),
            2 => Some(BossBarColor::Red),
            3 => Some(BossBarColor::Green),
            4 => Some(BossBarColor::Yellow),
            5 => Some(BossBarColor::Purple),
            6 => Some(BossBarColor::White),
            _ => None,
        }
    }

    /// The discriminant written for this variant.
    pub fn id(&self) -> (r: i32)
        ensures
            r == Self::spec_id(*self),
    {
        match self {
            BossBarColor::Pink => 0,
            BossBarColor::Blue => 1,
            BossBarColor::Red => 2,
            BossBarColor::Green => 3,
            BossBarColor::Yellow => 4,
            BossBarColor::Purple => 5,
            BossBarColor::White => 6,
        }
    }
}

impl Codec for BossBarColor {
    type Model = BossBarColor;

    open spec fn model(&self) -> BossBarColor {
        *self
    }

    open spec fn encodable(m: BossBarColor) -> bool {
        true
    }

    open spec fn legal(m: BossBarColor) -> bool {
        true
    }

    open spec fn spec_serialize(m: BossBarColor) -> Seq<u8> {
        spec_varint_serialize(Self::spec_id(m))
    }

    /// A discriminant that names no variant is an error carrying it.
    open spec fn spec_deserialize(s: Seq<u8>) -> SpecResult<BossBarColor> {
        match spec_varint_deserialize(s) {
            Err(e) => Err(e),
            Ok((id, rest)) => match Self::spec_of_id(id) {
                Some(v) => Ok((v, rest)),
                None => Err(DeserializeErr::UnknownTag(id as i64)),
            },
        }
    }

    proof fn lemma_round_trip(m: BossBarColor, rest: Seq<u8>) {
        VarInt::lemma_round_trip(Self::spec_id(m), rest);
    }

    fn mc_serialize(&self, to: &mut Vec<u8>) {
        VarInt(self.id()).mc_serialize(to);
    }

    fn mc_deserialize(data: &[u8]) -> (r: Result<(Self, &[u8]), DeserializeErr>) {
        let (id, rest) = VarInt::mc_deserialize(data)?;
        let id = id.0;
        match id {
            0 => Ok((BossBarColor::Pink, rest)),
            1 => Ok((BossBarColor::Blue, rest)),
            2 => Ok((BossBarColor::Red, rest)),
            3 => Ok((BossBarColor::Green, rest)),
            4 => Ok((BossBarColor::Yellow, rest)),
            5 => Ok((BossBarColor::Purple, rest)),
            6 => Ok((BossBarColor::White, rest)),
            _ => Err(DeserializeErr::UnknownTag(id as i64)),
        }
    }
}

/// The boss bar division of the protocol.
#[derive(Debug, Clone, Copy, PartialEq, Eq, Structural)]
pub enum BossBarDivision {
    NoDivision,
    SixNotches,
    TenNotches,
    TwelveNotches,
    TwentyNotches,
}

impl BossBarDivision {
    pub open spec fn spec_id(m: BossBarDivision) -> i32 {
        match m {
            BossBarDivision::NoDivision => 0,
            BossBarDivision::SixNotches => 1,
            BossBarDivision::TenNotches => 2,
            BossBarDivision::TwelveNotches => 3,
            BossBarDivision::TwentyNotches => 4,
        }
    }

    pub open spec fn spec_of_id(id: i32) -> Option<BossBarDivision> {
        match id {
            0 => Some(BossBarDivision::NoDivision),
            1 => Some(BossBarDivision::SixNotches),
            2 => Some(BossBarDivision::TenNotches),
            3 => Some(BossBarDivision::TwelveNotches),
            4 => Some(BossBarDivision::TwentyNotches),
            _ => None,
        }
    }

    /// The discriminant written for this variant.
    pub fn id(&self) -> (r: i32)
        ensures
            r == Self::spec_id(*self),
    {
        match self {
            BossBarDivision::NoDivision => 0,
            BossBarDivision::SixNotches => 1,
            BossBarDivision::TenNotches => 2,
            BossBarDivision::TwelveNotches => 3,
            BossBarDivision::TwentyNotches => 4,
        }
    }
}

impl Codec for BossBarDivision {
    type Model = BossBarDivision;

    open spec fn model(&self) -> BossBarDivision {
        *self
    }

    open spec fn encodable(m: BossBarDivision) -> bool {
        true
    }

    open spec fn legal(m: BossBarDivision) -> bool {
        true
    }

    open spec fn spec_serialize(m: BossBarDivision) -> Seq<u8> {
        spec_varint_serialize(Self::spec_id(m))
    }

    /// A discriminant that names no variant is an error carrying it.
    open spec fn spec_deserialize(s: Seq<u8>) -> SpecResult<BossBarDivision> {
        match spec_varint_deserialize(s) {
            Err(e) => Err(e),
            Ok((id, rest)) => match Self::spec_of_id(id) {
                Some(v) => Ok((v, rest)),
                None => Err(DeserializeErr::UnknownTag(id as i64)),
            },
        }
    }

    proof fn lemma_round_trip(m: BossBarDivision, rest: Seq<u8>) {
        VarInt::lemma_round_trip(Self::spec_id(m), rest);
    }

    fn mc_serialize(&self, to: &mut Vec<u8>) {
        VarInt(self.id()).mc_serialize(to);
    }

    fn mc_deserialize(data: &[u8]) -> (r: Result<(Self, &[u8]), DeserializeErr>) {
        let (id, rest) = VarInt::mc_deserialize(data)?;
        let id = id.0;
        match id {
            0 => Ok((BossBarDivision::NoDivision, rest)),
            1 => Ok((BossBarDivision::SixNotches, rest)),
            2 => Ok((BossBarDivision::TenNotches, rest)),
            3 => Ok((BossBarDivision::TwelveNotches, rest)),
            4 => Ok((BossBarDivision::TwentyNotches, rest)),
            _ => Err(DeserializeErr::UnknownTag(id as i64)),
        }
    }
}

/// The boss bar flags: one bit per flag.
#[derive(Debug, Clone, Copy, PartialEq, Eq, Structural)]
pub struct BossBarFlags {
    pub darken_sky: bool,
    pub dragon_bar: bool,
    pub create_fog: bool,
}

impl Codec for BossBarFlags {
    type Model = BossBarFlags;

    open spec fn model(&self) -> BossBarFlags {
        *self
    }

    open spec fn encodable(m: BossBarFlags) -> bool {
        true
    }

    open spec fn legal(m: BossBarFlags) -> bool {
        true
    }

    /// One byte with a bit per flag.
    open spec fn spec_serialize(m: BossBarFlags) -> Seq<u8> {
        seq![((if m.darken_sky { 1u8 } else { 0u8 }) + (if m.dragon_bar { 2u8 } else { 0u8 }) + (if m.create_fog { 4u8 } else { 0u8 })) as u8]
    }

    /// Bits that name no flag are ignored.
    open spec fn spec_deserialize(s: Seq<u8>) -> SpecResult<BossBarFlags> {
        if s.len() == 0 {
            Err(DeserializeErr::Eof)
        } else {
            Ok((BossBarFlags { darken_sky: (s[0] / 1) % 2 == 1, dragon_bar: (s[0] / 2) % 2 == 1, create_fog: (s[0] / 4) % 2 == 1 }, s.skip(1)))
        }
    }

    proof fn lemma_round_trip(m: BossBarFlags, rest: Seq<u8>) {
        assert((Self::spec_serialize(m) + rest).skip(1) =~= rest);
    }

    fn mc_serialize(&self, to: &mut Vec<u8>) {
        to.push(((if self.darken_sky { 1u8 } else { 0u8 }) + (if self.dragon_bar { 2u8 } else { 0u8 }) + (if self.create_fog { 4u8 } else { 0u8 })) as u8);
    }

    fn mc_deserialize(data: &[u8]) -> (r: Result<(Self, &[u8]), DeserializeErr>) {
        let (b, rest) = take_bytes(data, 1)?;
        Ok((BossBarFlags { darken_sky: (b[0] / 1) % 2 == 1, dragon_bar: (b[0] / 2) % 2 == 1, create_fog: (b[0] / 4) % 2 == 1 }, rest))
    }
}

/// A team action as values.
pub enum TeamActionModel {
    Create(<TeamActionCreateSpec as Codec>::Model),
    Remove,
    UpdateInfo(<TeamActionUpdateInfoSpec as Codec>::Model),
    AddPlayers(<TeamActionPlayerList as Codec>::Model),
    RemovePlayers(<TeamActionPlayerList as Codec>::Model),
}

/// The team action of the protocol.
#[derive(Debug, Clone, PartialEq, Eq)]
pub enum TeamAction {
    Create(TeamActionCreateSpec),
    Remove,
    UpdateInfo(TeamActionUpdateInfoSpec),
    AddPlayers(TeamActionPlayerList),
    RemovePlayers(TeamActionPlayerList),
}

impl TeamAction {
    pub open spec fn spec_id(m: TeamActionModel) -> u8 {
        match m {
            TeamActionModel::Create(_) => 0u8,
            TeamActionModel::Remove => 1u8,
            TeamActionModel::UpdateInfo(_) => 2u8,
            TeamActionModel::AddPlayers(_) => 3u8,
            TeamActionModel::RemovePlayers(_) => 4u8,
        }
    }

    /// Reads the payload of `m`'s variant from `r`.
    pub open spec fn spec_payload(m: TeamActionModel, r: Seq<u8>) -> SpecResult<TeamActionModel> {
        match m {
            TeamActionModel::Create(_) => match TeamActionCreateSpec::spec_deserialize(r) {
                Ok((p, r2)) => Ok((TeamActionModel::Create(p), r2)),
                Err(e) => Err(e),
            },
            TeamActionModel::Remove => Ok((TeamActionModel::Remove, r)),
            TeamActionModel::UpdateInfo(_) => match TeamActionUpdateInfoSpec::spec_deserialize(r) {
                Ok((p, r2)) => Ok((TeamActionModel::UpdateInfo(p), r2)),
                Err(e) => Err(e),
            },
            TeamActionModel::AddPlayers(_) => match TeamActionPlayerList::spec_deserialize(r) {
                Ok((p, r2)) => Ok((TeamActionModel::AddPlayers(p), r2)),
                Err(e) => Err(e),
            },
            TeamActionModel::RemovePlayers(_) => match TeamActionPlayerList::spec_deserialize(r) {
                Ok((p, r2)) => Ok((TeamActionModel::RemovePlayers(p), r2)),
                Err(e) => Err(e),
            },
        }
    }

    /// The variant that a discriminant names, with its payload read from
    /// `r`; a discriminant that names no variant is an error carrying it.
    pub open spec fn spec_from_id(id: u8, r: Seq<u8>) -> SpecResult<TeamActionModel> {
        match id {
            0u8 => Self::spec_payload(TeamActionModel::Create(arbitrary()), r),
            1u8 => Self::spec_payload(TeamActionModel::Remove, r),
            2u8 => Self::spec_payload(TeamActionModel::UpdateInfo(arbitrary()), r),
            3u8 => Self::spec_payload(TeamActionModel::AddPlayers(arbitrary()), r),
            4u8 => Self::spec_payload(TeamActionModel::RemovePlayers(arbitrary()), r),
            _ => Err(DeserializeErr::UnknownTag(id as i64)),
        }
    }

    pub open spec fn spec_payload_bytes(m: TeamActionModel) -> Seq<u8> {
        match m {
            TeamActionModel::Create(p) => TeamActionCreateSpec::spec_serialize(p),
            TeamActionModel::UpdateInfo(p) => TeamActionUpdateInfoSpec::spec_serialize(p),
            TeamActionModel::AddPlayers(p) => TeamActionPlayerList::spec_serialize(p),
            TeamActionModel::RemovePlayers(p) => TeamActionPlayerList::spec_serialize(p),
            _ => Seq::empty(),
        }
    }

    /// The discriminant of this variant.
    pub fn id(&self) -> (r: u8)
        ensures
            r == Self::spec_id(self.model()),
    {
        match self {
            TeamAction::Create(_) => 0,
            TeamAction::Remove => 1,
            TeamAction::UpdateInfo(_) => 2,
            TeamAction::AddPlayers(_) => 3,
            TeamAction::RemovePlayers(_) => 4,
        }
    }

    /// Writes the payload alone.
    pub fn serialize_body(&self, to: &mut Vec<u8>)
        requires
            Self::encodable(self.model()),
        ensures
            final(to)@ == old(to)@ + Self::spec_payload_bytes(self.model()),
    {
        match self {
            TeamAction::Create(p) => p.mc_serialize(to),
            TeamAction::UpdateInfo(p) => p.mc_serialize(to),
            TeamAction::AddPlayers(p) => p.mc_serialize(to),
            TeamAction::RemovePlayers(p) => p.mc_serialize(to),
            _ => {},
        }
        assert(to@ =~= to@ + Seq::<u8>::empty());
    }

    /// Reads the payload of the variant that `id` names.
    pub fn deserialize_with_id(id: u8, data: &[u8]) -> (r: Result<(Self, &[u8]), DeserializeErr>)
        ensures
            read_matches(r, |v: Self| v.model(), Self::spec_from_id(id, data@)),
    {
        match id {
            0 => {
                let (p, rest) = TeamActionCreateSpec::mc_deserialize(data)?;
                Ok((TeamAction::Create(p), rest))
            },
            1 => Ok((TeamAction::Remove, data)),
            2 => {
                let (p, rest) = TeamActionUpdateInfoSpec::mc_deserialize(data)?;
                Ok((TeamAction::UpdateInfo(p), rest))
            },
            3 => {
                let (p, rest) = TeamActionPlayerList::mc_deserialize(data)?;
                Ok((TeamAction::AddPlayers(p), rest))
            },
            4 => {
                let (p, rest) = TeamActionPlayerList::mc_deserialize(data)?;
                Ok((TeamAction::RemovePlayers(p), rest))
            },
            _ => Err(DeserializeErr::UnknownTag(id as i64)),
        }
    }

    pub proof fn lemma_payload_round_trip(m: TeamActionModel, rest: Seq<u8>)
        requires
            Self::legal(m),
        ensures
            Self::encodable(m),
            Self::spec_from_id(Self::spec_id(m), Self::spec_payload_bytes(m) + rest) == Ok::<
                (TeamActionModel, Seq<u8>),
                DeserializeErr,
            >((m, rest)),
    {
        match m {
            TeamActionModel::Create(p) => TeamActionCreateSpec::lemma_round_trip(p, rest),
            TeamActionModel::UpdateInfo(p) => TeamActionUpdateInfoSpec::lemma_round_trip(p, rest),
            TeamActionModel::AddPlayers(p) => TeamActionPlayerList::lemma_round_trip(p, rest),
            TeamActionModel::RemovePlayers(p) => TeamActionPlayerList::lemma_round_trip(p, rest),
            _ => assert(Seq::<u8>::empty() + rest =~= rest),
        }
    }
}

impl Codec for TeamAction {
    type Model = TeamActionModel;

    open spec fn model(&self) -> TeamActionModel {
        match self {
            TeamAction::Create(p) => TeamActionModel::Create(p.model()),
            TeamAction::Remove => TeamActionModel::Remove,
            TeamAction::UpdateInfo(p) => TeamActionModel::UpdateInfo(p.model()),
            TeamAction::AddPlayers(p) => TeamActionModel::AddPlayers(p.model()),
            TeamAction::RemovePlayers(p) => TeamActionModel::RemovePlayers(p.model()),
        }
    }

    open spec fn encodable(m: TeamActionModel) -> bool {
        match m {
            TeamActionModel::Create(p) => TeamActionCreateSpec::encodable(p),
            TeamActionModel::UpdateInfo(p) => TeamActionUpdateInfoSpec::encodable(p),
            TeamActionModel::AddPlayers(p) => TeamActionPlayerList::encodable(p),
            TeamActionModel::RemovePlayers(p) => TeamActionPlayerList::encodable(p),
            _ => true,
        }
    }

    open spec fn legal(m: TeamActionModel) -> bool {
        match m {
            TeamActionModel::Create(p) => TeamActionCreateSpec::legal(p),
            TeamActionModel::UpdateInfo(p) => TeamActionUpdateInfoSpec::legal(p),
            TeamActionModel::AddPlayers(p) => TeamActionPlayerList::legal(p),
            TeamActionModel::RemovePlayers(p) => TeamActionPlayerList::legal(p),
            _ => true,
        }
    }

    /// The discriminant as a byte, then the variant's payload.
    open spec fn spec_serialize(m: TeamActionModel) -> Seq<u8> {
        seq![Self::spec_id(m)] + Self::spec_payload_bytes(m)
    }

    open spec fn spec_deserialize(s: Seq<u8>) -> SpecResult<TeamActionModel> {
        match u8::spec_deserialize(s) {
            Err(e) => Err(e),
            Ok((id, r)) => Self::spec_from_id(id, r),
        }
    }

    proof fn lemma_round_trip(m: TeamActionModel, rest: Seq<u8>) {
        let payload = Self::spec_payload_bytes(m) + rest;
        u8::lemma_round_trip(Self::spec_id(m), payload);
        assert(Self::spec_serialize(m) + rest =~= seq![Self::spec_id(m)] + payload);
        Self::lemma_payload_round_trip(m, rest);
    }

    fn mc_serialize(&self, to: &mut Vec<u8>) {
        let ghost start = to@;
        to.push(self.id());
        self.serialize_body(to);
        assert(to@ =~= start + Self::spec_serialize(self.model()));
    }

    fn mc_deserialize(data: &[u8]) -> (r: Result<(Self, &[u8]), DeserializeErr>) {
        let (id, rest) = u8::mc_deserialize(data)?;
        Self::deserialize_with_id(id, rest)
    }
}

/// The team tag name visibility of the protocol.
#[derive(Debug, Clone, Copy, PartialEq, Eq)]
pub enum TeamTagNameVisibility {
    Always,
    HideForOtherTeams,
    HideForOwnTeam,
    Never,
}

impl TeamTagNameVisibility {
    /// The string that names each variant on the wire.
    pub open spec fn spec_tag(m: TeamTagNameVisibility) -> Seq<char> {
        match m {
            TeamTagNameVisibility::Always => "always"@,
            TeamTagNameVisibility::HideForOtherTeams => "hideForOtherTeams"@,
            TeamTagNameVisibility::HideForOwnTeam => "hideForOwnTeam"@,
            TeamTagNameVisibility::Never => "never"@,
        }
    }

    /// Reads the payload of `m`'s variant from `r`.
    pub open spec fn spec_payload(m: TeamTagNameVisibility, r: Seq<u8>) -> SpecResult<TeamTagNameVisibility> {
        match m {
            TeamTagNameVisibility::Always => Ok((TeamTagNameVisibility::Always, r)),
            TeamTagNameVisibility::HideForOtherTeams => Ok((TeamTagNameVisibility::HideForOtherTeams, r)),
            TeamTagNameVisibility::HideForOwnTeam => Ok((TeamTagNameVisibility::HideForOwnTeam, r)),
            TeamTagNameVisibility::Never => Ok((TeamTagNameVisibility::Never, r)),
        }
    }

    /// The variant that a tag names, with its payload read from `r`; a tag
    /// that names no variant is an error.
    #[verifier::opaque]
    pub open spec fn spec_from_tag(t: Seq<char>, r: Seq<u8>) -> SpecResult<TeamTagNameVisibility> {
        if t == "always"@ {
            Self::spec_payload(TeamTagNameVisibility::Always, r)
        } else if t == "hideForOtherTeams"@ {
            Self::spec_payload(TeamTagNameVisibility::HideForOtherTeams, r)
        } else if t == "hideForOwnTeam"@ {
            Self::spec_payload(TeamTagNameVisibility::HideForOwnTeam, r)
        } else if t == "never"@ {
            Self::spec_payload(TeamTagNameVisibility::Never, r)
        } else {
            Err(DeserializeErr::UnknownStringTag)
        }
    }

    pub open spec fn spec_payload_bytes(m: TeamTagNameVisibility) -> Seq<u8> {
        Seq::empty()
    }

    /// The string that names this variant.
    pub fn id(&self) -> (r: &'static str)
        ensures
            r@ == Self::spec_tag(self.model()),
    {
        match self {
            TeamTagNameVisibility::Always => "always",
            TeamTagNameVisibility::HideForOtherTeams => "hideForOtherTeams",
            TeamTagNameVisibility::HideForOwnTeam => "hideForOwnTeam",
            TeamTagNameVisibility::Never => "never",
        }
    }

    /// Writes the payload alone.
    pub fn serialize_body(&self, to: &mut Vec<u8>)
        requires
            Self::encodable(self.model()),
        ensures
            final(to)@ == old(to)@ + Self::spec_payload_bytes(self.model()),
    {
        
        assert(to@ =~= to@ + Seq::<u8>::empty());
    }

    /// Reads the payload of the variant that `t` names.
    pub fn deserialize_with_id<'a>(t: &str, data: &'a [u8]) -> (r: Result<(Self, &'a [u8]), DeserializeErr>)
        ensures
            read_matches(r, |v: Self| v.model(), Self::spec_from_tag(t@, data@)),
    {
        reveal(TeamTagNameVisibility::spec_from_tag);
        if str_eq(t, "always") {
            Ok((TeamTagNameVisibility::Always, data))
        } else if str_eq(t, "hideForOtherTeams") {
            Ok((TeamTagNameVisibility::HideForOtherTeams, data))
        } else if str_eq(t, "hideForOwnTeam") {
            Ok((TeamTagNameVisibility::HideForOwnTeam, data))
        } else if str_eq(t, "never") {
            Ok((TeamTagNameVisibility::Never, data))
        } else {
            Err(DeserializeErr::UnknownStringTag)
        }
    }
}

/// No two variants share a tag, so a tag leads back to its own variant.
proof fn lemma_team_tag_name_visibility_tags(m: TeamTagNameVisibility, r: Seq<u8>)
    ensures
        TeamTagNameVisibility::spec_from_tag(TeamTagNameVisibility::spec_tag(m), r) == TeamTagNameVisibility::spec_payload(m, r),
        TeamTagNameVisibility::spec_tag(m).len() <= 64,
{
    reveal(TeamTagNameVisibility::spec_from_tag);
    reveal_strlit("always");
    reveal_strlit("hideForOtherTeams");
    reveal_strlit("hideForOwnTeam");
    reveal_strlit("never");
    assert("always"@.len() == 6);
    assert("hideForOtherTeams"@.len() == 17);
    assert("hideForOwnTeam"@.len() == 14);
    assert("never"@.len() == 5);
    match m {
            TeamTagNameVisibility::Always => {},
            TeamTagNameVisibility::HideForOtherTeams => {},
            TeamTagNameVisibility::HideForOwnTeam => {},
            TeamTagNameVisibility::Never => {},
    }
}

/// A variant's payload reads back as the variant.
pub proof fn lemma_team_tag_name_visibility_tags_payload(m: TeamTagNameVisibility, rest: Seq<u8>)
    requires
        TeamTagNameVisibility::legal(m),
    ensures
        TeamTagNameVisibility::encodable(m),
        TeamTagNameVisibility::spec_payload(m, TeamTagNameVisibility::spec_payload_bytes(m) + rest) == Ok::<(TeamTagNameVisibility, Seq<u8>), DeserializeErr>((m, rest)),
{
    assert(TeamTagNameVisibility::spec_payload_bytes(m) + rest =~= rest);
}

impl Codec for TeamTagNameVisibility {
    type Model = TeamTagNameVisibility;

    open spec fn model(&self) -> TeamTagNameVisibility {
        *self
    }

    open spec fn encodable(m: TeamTagNameVisibility) -> bool {
        true
    }

    open spec fn legal(m: TeamTagNameVisibility) -> bool {
        true
    }

    /// The tag as a string, then the variant's payload.
    open spec fn spec_serialize(m: TeamTagNameVisibility) -> Seq<u8> {
        spec_string_serialize(Self::spec_tag(m)) + Self::spec_payload_bytes(m)
    }

    open spec fn spec_deserialize(s: Seq<u8>) -> SpecResult<TeamTagNameVisibility> {
        match spec_string_deserialize(s) {
            Err(e) => Err(e),
            Ok((t, r)) => Self::spec_from_tag(t, r),
        }
    }

    proof fn lemma_round_trip(m: TeamTagNameVisibility, rest: Seq<u8>) {
        let payload = Self::spec_payload_bytes(m) + rest;
        lemma_team_tag_name_visibility_tags(m, payload);
        lemma_tag_encodable(Self::spec_tag(m));
        String::lemma_round_trip(Self::spec_tag(m), payload);
        assert(Self::spec_serialize(m) + rest =~= spec_string_serialize(Self::spec_tag(m)) + payload);
        lemma_team_tag_name_visibility_tags_payload(m, rest);
    }

    fn mc_serialize(&self, to: &mut Vec<u8>) {
        let ghost start = to@;
        let t = self.id();
        proof {
            lemma_team_tag_name_visibility_tags(self.model(), Seq::empty());
            lemma_tag_encodable(t@);
        }
        write_str(t, to);
        self.serialize_body(to);
        assert(to@ =~= start + Self::spec_serialize(self.model()));
    }

    fn mc_deserialize(data: &[u8]) -> (r: Result<(Self, &[u8]), DeserializeErr>) {
        let (t, rest) = String::mc_deserialize(data)?;
        Self::deserialize_with_id(t.as_str(), rest)
    }
}

/// The team collision rule of the protocol.
#[derive(Debug, Clone, Copy, PartialEq, Eq)]
pub enum TeamCollisionRule {
    Always,
    PushForOtherTeams,
    PushOwnTeam,
    Never,
}

impl TeamCollisionRule {
    /// The string that names each variant on the wire.
    pub open spec fn spec_tag(m: TeamCollisionRule) -> Seq<char> {
        match m {
            TeamCollisionRule::Always => "always"@,
            TeamCollisionRule::PushForOtherTeams => "pushForOtherTeams"@,
            TeamCollisionRule::PushOwnTeam => "pushOwnTeam"@,
            TeamCollisionRule::Never => "never"@,
        }
    }

    /// Reads the payload of `m`'s variant from `r`.
    pub open spec fn spec_payload(m: TeamCollisionRule, r: Seq<u8>) -> SpecResult<TeamCollisionRule> {
        match m {
            TeamCollisionRule::Always => Ok((TeamCollisionRule::Always, r)),
            TeamCollisionRule::PushForOtherTeams => Ok((TeamCollisionRule::PushForOtherTeams, r)),
            TeamCollisionRule::PushOwnTeam => Ok((TeamCollisionRule::PushOwnTeam, r)),
            TeamCollisionRule::Never => Ok((TeamCollisionRule::Never, r)),
        }
    }

    /// The variant that a tag names, with its payload read from `r`; a tag
    /// that names no variant is an error.
    #[verifier::opaque]
    pub open spec fn spec_from_tag(t: Seq<char>, r: Seq<u8>) -> SpecResult<TeamCollisionRule> {
        if t == "always"@ {
            Self::spec_payload(TeamCollisionRule::Always, r)
        } else if t == "pushForOtherTeams"@ {
            Self::spec_payload(TeamCollisionRule::PushForOtherTeams, r)
        } else if t == "pushOwnTeam"@ {
            Self::spec_payload(TeamCollisionRule::PushOwnTeam, r)
        } else if t == "never"@ {
            Self::spec_payload(TeamCollisionRule::Never, r)
        } else {
            Err(DeserializeErr::UnknownStringTag)
        }
    }

    pub open spec fn spec_payload_bytes(m: TeamCollisionRule) -> Seq<u8> {
        Seq::empty()
    }

    /// The string that names this variant.
    pub fn id(&self) -> (r: &'static str)
        ensures
            r@ == Self::spec_tag(self.model()),
    {
        match self {
            TeamCollisionRule::Always => "always",
            TeamCollisionRule::PushForOtherTeams => "pushForOtherTeams",
            TeamCollisionRule::PushOwnTeam => "pushOwnTeam",
            TeamCollisionRule::Never => "never",
        }
    }

    /// Writes the payload alone.
    pub fn serialize_body(&self, to: &mut Vec<u8>)
        requires
            Self::encodable(self.model()),
        ensures
            final(to)@ == old(to)@ + Self::spec_payload_bytes(self.model()),
    {
        
        assert(to@ =~= to@ + Seq::<u8>::empty());
    }

    /// Reads the payload of the variant that `t` names.
    pub fn deserialize_with_id<'a>(t: &str, data: &'a [u8]) -> (r: Result<(Self, &'a [u8]), DeserializeErr>)
        ensures
            read_matches(r, |v: Self| v.model(), Self::spec_from_tag(t@, data@)),
    {
        reveal(TeamCollisionRule::spec_from_tag);
        if str_eq(t, "always") {
            Ok((TeamCollisionRule::Always, data))
        } else if str_eq(t, "pushForOtherTeams") {
            Ok((TeamCollisionRule::PushForOtherTeams, data))
        } else if str_eq(t, "pushOwnTeam") {
            Ok((TeamCollisionRule::PushOwnTeam, data))
        } else if str_eq(t, "never") {
            Ok((TeamCollisionRule::Never, data))
        } else {
            Err(DeserializeErr::UnknownStringTag)
        }
    }
}

/// No two variants share a tag, so a tag leads back to its own variant.
proof fn lemma_team_collision_rule_tags(m: TeamCollisionRule, r: Seq<u8>)
    ensures
        TeamCollisionRule::spec_from_tag(TeamCollisionRule::spec_tag(m), r) == TeamCollisionRule::spec_payload(m, r),
        TeamCollisionRule::spec_tag(m).len() <= 64,
{
    reveal(TeamCollisionRule::spec_from_tag);
    reveal_strlit("always");
    reveal_strlit("pushForOtherTeams");
    reveal_strlit("pushOwnTeam");
    reveal_strlit("never");
    assert("always"@.len() == 6);
    assert("pushForOtherTeams"@.len() == 17);
    assert("pushOwnTeam"@.len() == 11);
    assert("never"@.len() == 5);
    match m {
            TeamCollisionRule::Always => {},
            TeamCollisionRule::PushForOtherTeams => {},
            TeamCollisionRule::PushOwnTeam => {},
            TeamCollisionRule::Never => {},
    }
}

/// A variant's payload reads back as the variant.
pub proof fn lemma_team_collision_rule_tags_payload(m: TeamCollisionRule, rest: Seq<u8>)
    requires
        TeamCollisionRule::legal(m),
    ensures
        TeamCollisionRule::encodable(m),
        TeamCollisionRule::spec_payload(m, TeamCollisionRule::spec_payload_bytes(m) + rest) == Ok::<(TeamCollisionRule, Seq<u8>), DeserializeErr>((m, rest)),
{
    assert(TeamCollisionRule::spec_payload_bytes(m) + rest =~= rest);
}

impl Codec for TeamCollisionRule {
    type Model = TeamCollisionRule;

    open spec fn model(&self) -> TeamCollisionRule {
        *self
    }

    open spec fn encodable(m: TeamCollisionRule) -> bool {
        true
    }

    open spec fn legal(m: TeamCollisionRule) -> bool {
        true
    }

    /// The tag as a string, then the variant's payload.
    open spec fn spec_serialize(m: TeamCollisionRule) -> Seq<u8> {
        spec_string_serialize(Self::spec_tag(m)) + Self::spec_payload_bytes(m)
    }

    open spec fn spec_deserialize(s: Seq<u8>) -> SpecResult<TeamCollisionRule> {
        match spec_string_deserialize(s) {
            Err(e) => Err(e),
            Ok((t, r)) => Self::spec_from_tag(t, r),
        }
    }

    proof fn lemma_round_trip(m: TeamCollisionRule, rest: Seq<u8>) {
        let payload = Self::spec_payload_bytes(m) + rest;
        lemma_team_collision_rule_tags(m, payload);
        lemma_tag_encodable(Self::spec_tag(m));
        String::lemma_round_trip(Self::spec_tag(m), payload);
        assert(Self::spec_serialize(m) + rest =~= spec_string_serialize(Self::spec_tag(m)) + payload);
        lemma_team_collision_rule_tags_payload(m, rest);
    }

    fn mc_serialize(&self, to: &mut Vec<u8>) {
        let ghost start = to@;
        let t = self.id();
        proof {
            lemma_team_collision_rule_tags(self.model(), Seq::empty());
            lemma_tag_encodable(t@);
        }
        write_str(t, to);
        self.serialize_body(to);
        assert(to@ =~= start + Self::spec_serialize(self.model()));
    }

    fn mc_deserialize(data: &[u8]) -> (r: Result<(Self, &[u8]), DeserializeErr>) {
        let (t, rest) = String::mc_deserialize(data)?;
        Self::deserialize_with_id(t.as_str(), rest)
    }
}

/// The team friendly flags: one bit per flag.
#[derive(Debug, Clone, Copy, PartialEq, Eq, Structural)]
pub struct TeamFriendlyFlags {
    pub allow_friendly_fire: bool,
    pub show_invisible_teammates: bool,
}

impl Codec for TeamFriendlyFlags {
    type Model = TeamFriendlyFlags;

    open spec fn model(&self) -> TeamFriendlyFlags {
        *self
    }

    open spec fn encodable(m: TeamFriendlyFlags) -> bool {
        true
    }

    open spec fn legal(m: TeamFriendlyFlags) -> bool {
        true
    }

    /// One byte with a bit per flag.
    open spec fn spec_serialize(m: TeamFriendlyFlags) -> Seq<u8> {
        seq![((if m.allow_friendly_fire { 1u8 } else { 0u8 }) + (if m.show_invisible_teammates { 2u8 } else { 0u8 })) as u8]
    }

    /// Bits that name no flag are ignored.
    open spec fn spec_deserialize(s: Seq<u8>) -> SpecResult<TeamFriendlyFlags> {
        if s.len() == 0 {
            Err(DeserializeErr::Eof)
        } else {
            Ok((TeamFriendlyFlags { allow_friendly_fire: (s[0] / 1) % 2 == 1, show_invisible_teammates: (s[0] / 2) % 2 == 1 }, s.skip(1)))
        }
    }

    proof fn lemma_round_trip(m: TeamFriendlyFlags, rest: Seq<u8>) {
        assert((Self::spec_serialize(m) + rest).skip(1) =~= rest);
    }

    fn mc_serialize(&self, to: &mut Vec<u8>) {
        to.push(((if self.allow_friendly_fire { 1u8 } else { 0u8 }) + (if self.show_invisible_teammates { 2u8 } else { 0u8 })) as u8);
    }

    fn mc_deserialize(data: &[u8]) -> (r: Result<(Self, &[u8]), DeserializeErr>) {
        let (b, rest) = take_bytes(data, 1)?;
        Ok((TeamFriendlyFlags { allow_friendly_fire: (b[0] / 1) % 2 == 1, show_invisible_teammates: (b[0] / 2) % 2 == 1 }, rest))
    }
}

/// A title action spec as values.
pub enum TitleActionSpecModel {
    SetTitle(<Chat as Codec>::Model),
    SetSubtitle(<Chat as Codec>::Model),
    SetActionBar(<Chat as Codec>::Model),
    SetTimesAndDisplay(<TitleTimesSpec as Codec>::Model),
    Hide,
    Reset,
}

/// The title action spec of the protocol.
#[derive(Debug, Clone, PartialEq, Eq)]
pub enum TitleActionSpec {
    SetTitle(Chat),
    SetSubtitle(Chat),
    SetActionBar(Chat),
    SetTimesAndDisplay(TitleTimesSpec),
    Hide,
    Reset,
}

impl TitleActionSpec {
    pub open spec fn spec_id(m: TitleActionSpecModel) -> i32 {
        match m {
            TitleActionSpecModel::SetTitle(_) => 0i32,
            TitleActionSpecModel::SetSubtitle(_) => 1i32,
            TitleActionSpecModel::SetActionBar(_) => 2i32,
            TitleActionSpecModel::SetTimesAndDisplay(_) => 3i32,
            TitleActionSpecModel::Hide => 4i32,
            TitleActionSpecModel::Reset => 5i32,
        }
    }

    /// Reads the payload of `m`'s variant from `r`.
    pub open spec fn spec_payload(m: TitleActionSpecModel, r: Seq<u8>) -> SpecResult<TitleActionSpecModel> {
        match m {
            TitleActionSpecModel::SetTitle(_) => match Chat::spec_deserialize(r) {
                Ok((p, r2)) => Ok((TitleActionSpecModel::SetTitle(p), r2)),
                Err(e) => Err(e),
            },
            TitleActionSpecModel::SetSubtitle(_) => match Chat::spec_deserialize(r) {
                Ok((p, r2)) => Ok((TitleActionSpecModel::SetSubtitle(p), r2)),
                Err(e) => Err(e),
            },
            TitleActionSpecModel::SetActionBar(_) => match Chat::spec_deserialize(r) {
                Ok((p, r2)) => Ok((TitleActionSpecModel::SetActionBar(p), r2)),
                Err(e) => Err(e),
            },
            TitleActionSpecModel::SetTimesAndDisplay(_) => match TitleTimesSpec::spec_deserialize(r) {
                Ok((p, r2)) => Ok((TitleActionSpecModel::SetTimesAndDisplay(p), r2)),
                Err(e) => Err(e),
            },
            TitleActionSpecModel::Hide => Ok((TitleActionSpecModel::Hide, r)),
            TitleActionSpecModel::Reset => Ok((TitleActionSpecModel::Reset, r)),
        }
    }

    /// The variant that a discriminant names, with its payload read from
    /// `r`; a discriminant that names no variant is an error carrying it.
    pub open spec fn spec_from_id(id: i32, r: Seq<u8>) -> SpecResult<TitleActionSpecModel> {
        match id {
            0i32 => Self::spec_payload(TitleActionSpecModel::SetTitle(arbitrary()), r),
            1i32 => Self::spec_payload(TitleActionSpecModel::SetSubtitle(arbitrary()), r),
            2i32 => Self::spec_payload(TitleActionSpecModel::SetActionBar(arbitrary()), r),
            3i32 => Self::spec_payload(TitleActionSpecModel::SetTimesAndDisplay(arbitrary()), r),
            4i32 => Self::spec_payload(TitleActionSpecModel::Hide, r),
            5i32 => Self::spec_payload(TitleActionSpecModel::Reset, r),
            _ => Err(DeserializeErr::UnknownTag(id as i64)),
        }
    }

    pub open spec fn spec_payload_bytes(m: TitleActionSpecModel) -> Seq<u8> {
        match m {
            TitleActionSpecModel::SetTitle(p) => Chat::spec_serialize(p),
            TitleActionSpecModel::SetSubtitle(p) => Chat::spec_serialize(p),
            TitleActionSpecModel::SetActionBar(p) => Chat::spec_serialize(p),
            TitleActionSpecModel::SetTimesAndDisplay(p) => TitleTimesSpec::spec_serialize(p),
            _ => Seq::empty(),
        }
    }

    /// The discriminant of this variant.
    pub fn id(&self) -> (r: i32)
        ensures
            r == Self::spec_id(self.model()),
    {
        match self {
            TitleActionSpec::SetTitle(_) => 0,
            TitleActionSpec::SetSubtitle(_) => 1,
            TitleActionSpec::SetActionBar(_) => 2,
            TitleActionSpec::SetTimesAndDisplay(_) => 3,
            TitleActionSpec::Hide => 4,
            TitleActionSpec::Reset => 5,
        }
    }

    /// Writes the payload alone.
    pub fn serialize_body(&self, to: &mut Vec<u8>)
        requires
            Self::encodable(self.model()),
        ensures
            final(to)@ == old(to)@ + Self::spec_payload_bytes(self.model()),
    {
        match self {
            TitleActionSpec::SetTitle(p) => p.mc_serialize(to),
            TitleActionSpec::SetSubtitle(p) => p.mc_serialize(to),
            TitleActionSpec::SetActionBar(p) => p.mc_serialize(to),
            TitleActionSpec::SetTimesAndDisplay(p) => p.mc_serialize(to),
            _ => {},
        }
        assert(to@ =~= to@ + Seq::<u8>::empty());
    }

    /// Reads the payload of the variant that `id` names.
    pub fn deserialize_with_id(id: i32, data: &[u8]) -> (r: Result<(Self, &[u8]), DeserializeErr>)
        ensures
            read_matches(r, |v: Self| v.model(), Self::spec_from_id(id, data@)),
    {
        match id {
            0 => {
                let (p, rest) = Chat::mc_deserialize(data)?;
                Ok((TitleActionSpec::SetTitle(p), rest))
            },
            1 => {
                let (p, rest) = Chat::mc_deserialize(data)?;
                Ok((TitleActionSpec::SetSubtitle(p), rest))
            },
            2 => {
                let (p, rest) = Chat::mc_deserialize(data)?;
                Ok((TitleActionSpec::SetActionBar(p), rest))
            },
            3 => {
                let (p, rest) = TitleTimesSpec::mc_deserialize(data)?;
                Ok((TitleActionSpec::SetTimesAndDisplay(p), rest))
            },
            4 => Ok((TitleActionSpec::Hide, data)),
            5 => Ok((TitleActionSpec::Reset, data)),
            _ => Err(DeserializeErr::UnknownTag(id as i64)),
        }
    }

    pub proof fn lemma_payload_round_trip(m: TitleActionSpecModel, rest: Seq<u8>)
        requires
            Self::legal(m),
        ensures
            Self::encodable(m),
            Self::spec_from_id(Self::spec_id(m), Self::spec_payload_bytes(m) + rest) == Ok::<
                (TitleActionSpecModel, Seq<u8>),
                DeserializeErr,
            >((m, rest)),
    {
        match m {
            TitleActionSpecModel::SetTitle(p) => Chat::lemma_round_trip(p, rest),
            TitleActionSpecModel::SetSubtitle(p) => Chat::lemma_round_trip(p, rest),
            TitleActionSpecModel::SetActionBar(p) => Chat::lemma_round_trip(p, rest),
            TitleActionSpecModel::SetTimesAndDisplay(p) => TitleTimesSpec::lemma_round_trip(p, rest),
            _ => assert(Seq::<u8>::empty() + rest =~= rest),
        }
    }
}

impl Codec for TitleActionSpec {
    type Model = TitleActionSpecModel;

    open spec fn model(&self) -> TitleActionSpecModel {
        match self {
            TitleActionSpec::SetTitle(p) => TitleActionSpecModel::SetTitle(p.model()),
            TitleActionSpec::SetSubtitle(p) => TitleActionSpecModel::SetSubtitle(p.model()),
            TitleActionSpec::SetActionBar(p) => TitleActionSpecModel::SetActionBar(p.model()),
            TitleActionSpec::SetTimesAndDisplay(p) => TitleActionSpecModel::SetTimesAndDisplay(p.model()),
            TitleActionSpec::Hide => TitleActionSpecModel::Hide,
            TitleActionSpec::Reset => TitleActionSpecModel::Reset,
        }
    }

    open spec fn encodable(m: TitleActionSpecModel) -> bool {
        match m {
            TitleActionSpecModel::SetTitle(p) => Chat::encodable(p),
            TitleActionSpecModel::SetSubtitle(p) => Chat::encodable(p),
            TitleActionSpecModel::SetActionBar(p) => Chat::encodable(p),
            TitleActionSpecModel::SetTimesAndDisplay(p) => TitleTimesSpec::encodable(p),
            _ => true,
        }
    }

    open spec fn legal(m: TitleActionSpecModel) -> bool {
        match m {
            TitleActionSpecModel::SetTitle(p) => Chat::legal(p),
            TitleActionSpecModel::SetSubtitle(p) => Chat::legal(p),
            TitleActionSpecModel::SetActionBar(p) => Chat::legal(p),
            TitleActionSpecModel::SetTimesAndDisplay(p) => TitleTimesSpec::legal(p),
            _ => true,
        }
    }

    /// The discriminant as a `VarInt`, then the variant's payload.
    open spec fn spec_serialize(m: TitleActionSpecModel) -> Seq<u8> {
        spec_varint_serialize(Self::spec_id(m)) + Self::spec_payload_bytes(m)
    }

    open spec fn spec_deserialize(s: Seq<u8>) -> SpecResult<TitleActionSpecModel> {
        match spec_varint_deserialize(s) {
            Err(e) => Err(e),
            Ok((id, r)) => Self::spec_from_id(id, r),
        }
    }

    proof fn lemma_round_trip(m: TitleActionSpecModel, rest: Seq<u8>) {
        let payload = Self::spec_payload_bytes(m) + rest;
        VarInt::lemma_round_trip(Self::spec_id(m), payload);
        assert(Self::spec_serialize(m) + rest =~= spec_varint_serialize(Self::spec_id(m)) + payload);
        Self::lemma_payload_round_trip(m, rest);
    }

    fn mc_serialize(&self, to: &mut Vec<u8>) {
        let ghost start = to@;
        VarInt(self.id()).mc_serialize(to);
        self.serialize_body(to);
        assert(to@ =~= start + Self::spec_serialize(self.model()));
    }

    fn mc_deserialize(data: &[u8]) -> (r: Result<(Self, &[u8]), DeserializeErr>) {
        let (id, rest) = VarInt::mc_deserialize(data)?;
        Self::deserialize_with_id(id.0, rest)
    }
}

/// A dimension as values.
pub enum DimensionModel {
    Nether,
    Overworld,
    End,
}

/// The dimension of the protocol.
#[derive(Debug, Clone, PartialEq, Eq)]
pub enum Dimension {
    Nether,
    Overworld,
    End,
}

impl Dimension {
    pub open spec fn spec_id(m: DimensionModel) -> i32 {
        match m {
            DimensionModel::Nether => -1i32,
            DimensionModel::Overworld => 0i32,
            DimensionModel::End => 1i32,
        }
    }

    /// Reads the payload of `m`'s variant from `r`.
    pub open spec fn spec_payload(m: DimensionModel, r: Seq<u8>) -> SpecResult<DimensionModel> {
        match m {
            DimensionModel::Nether => Ok((DimensionModel::Nether, r)),
            DimensionModel::Overworld => Ok((DimensionModel::Overworld, r)),
            DimensionModel::End => Ok((DimensionModel::End, r)),
        }
    }

    /// The variant that a discriminant names, with its payload read from
    /// `r`; a discriminant that names no variant is an error carrying it.
    pub open spec fn spec_from_id(id: i32, r: Seq<u8>) -> SpecResult<DimensionModel> {
        match id {
            -1i32 => Self::spec_payload(DimensionModel::Nether, r),
            0i32 => Self::spec_payload(DimensionModel::Overworld, r),
            1i32 => Self::spec_payload(DimensionModel::End, r),
            _ => Err(DeserializeErr::UnknownTag(id as i64)),
        }
    }

    pub open spec fn spec_payload_bytes(m: DimensionModel) -> Seq<u8> {
        match m {

            _ => Seq::empty(),
        }
    }

    /// The discriminant of this variant.
    pub fn id(&self) -> (r: i32)
        ensures
            r == Self::spec_id(self.model()),
    {
        match self {
            Dimension::Nether => -1,
            Dimension::Overworld => 0,
            Dimension::End => 1,
        }
    }

    /// Writes the payload alone.
    pub fn serialize_body(&self, to: &mut Vec<u8>)
        requires
            Self::encodable(self.model()),
        ensures
            final(to)@ == old(to)@ + Self::spec_payload_bytes(self.model()),
    {
        match self {

            _ => {},
        }
        assert(to@ =~= to@ + Seq::<u8>::empty());
    }

    /// Reads the payload of the variant that `id` names.
    pub fn deserialize_with_id(id: i32, data: &[u8]) -> (r: Result<(Self, &[u8]), DeserializeErr>)
        ensures
            read_matches(r, |v: Self| v.model(), Self::spec_from_id(id, data@)),
    {
        match id {
            -1 => Ok((Dimension::Nether, data)),
            0 => Ok((Dimension::Overworld, data)),
            1 => Ok((Dimension::End, data)),
            _ => Err(DeserializeErr::UnknownTag(id as i64)),
        }
    }

    pub proof fn lemma_payload_round_trip(m: DimensionModel, rest: Seq<u8>)
        requires
            Self::legal(m),
        ensures
            Self::encodable(m),
            Self::spec_from_id(Self::spec_id(m), Self::spec_payload_bytes(m) + rest) == Ok::<
                (DimensionModel, Seq<u8>),
                DeserializeErr,
            >((m, rest)),
    {
        match m {

            _ => assert(Seq::<u8>::empty() + rest =~= rest),
        }
    }
}

impl Codec for Dimension {
    type Model = DimensionModel;

    open spec fn model(&self) -> DimensionModel {
        match self {
            Dimension::Nether => DimensionModel::Nether,
            Dimension::Overworld => DimensionModel::Overworld,
            Dimension::End => DimensionModel::End,
        }
    }

    open spec fn encodable(m: DimensionModel) -> bool {
        match m {

            _ => true,
        }
    }

    open spec fn legal(m: DimensionModel) -> bool {
        match m {

            _ => true,
        }
    }

    /// The discriminant as a big-endian `i32`, then the variant's payload.
    open spec fn spec_serialize(m: DimensionModel) -> Seq<u8> {
        i32::spec_serialize(Self::spec_id(m)) + Self::spec_payload_bytes(m)
    }

    open spec fn spec_deserialize(s: Seq<u8>) -> SpecResult<DimensionModel> {
        match i32::spec_deserialize(s) {
            Err(e) => Err(e),
            Ok((id, r)) => Self::spec_from_id(id, r),
        }
    }

    proof fn lemma_round_trip(m: DimensionModel, rest: Seq<u8>) {
        let payload = Self::spec_payload_bytes(m) + rest;
        i32::lemma_round_trip(Self::spec_id(m), payload);
        assert(Self::spec_serialize(m) + rest =~= i32::spec_serialize(Self::spec_id(m)) + payload);
        Self::lemma_payload_round_trip(m, rest);
    }

    fn mc_serialize(&self, to: &mut Vec<u8>) {
        let ghost start = to@;
        self.id().mc_serialize(to);
        self.serialize_body(to);
        assert(to@ =~= start + Self::spec_serialize(self.model()));
    }

    fn mc_deserialize(data: &[u8]) -> (r: Result<(Self, &[u8]), DeserializeErr>) {
        let (id, rest) = i32::mc_deserialize(data)?;
        Self::deserialize_with_id(id, rest)
    }
}

/// The map icon type of the protocol.
#[derive(Debug, Clone, Copy, PartialEq, Eq, Structural)]
pub enum MapIconType {
    WhiteArrow,
    GreenArrow,
    RedArrow,
    BlueArrow,
    WhiteCross,
    RedPointer,
    WhiteCircle,
    SmallWhiteCircle,
    Mansion,
    Temple,
    WhiteBanner,
    OrangeBanner,
    MagentaBanner,
    YellowBanner,
    LimeBanner,
    PinkBanner,
    GrayBanner,
    LightGrayBanner,
    CyanBanner,
    PurpleBanner,
    BlueBanner,
    BrownBanner,
    GreenBanner,
    RedBanner,
    BlackBanner,
    TreasureMarker,
}

impl MapIconType {
    pub open spec fn spec_id(m: MapIconType) -> i32 {
        match m {
            MapIconType::WhiteArrow => 0,
            MapIconType::GreenArrow => 1,
            MapIconType::RedArrow => 2,
            MapIconType::BlueArrow => 3,
            MapIconType::WhiteCross => 4,
            MapIconType::RedPointer => 5,
            MapIconType::WhiteCircle => 6,
            MapIconType::SmallWhiteCircle => 7,
            MapIconType::Mansion => 8,
            MapIconType::Temple => 9,
            MapIconType::WhiteBanner => 10,
            MapIconType::OrangeBanner => 11,
            MapIconType::MagentaBanner => 12,
            MapIconType::YellowBanner => 13,
            MapIconType::LimeBanner => 14,
            MapIconType::PinkBanner => 15,
            MapIconType::GrayBanner => 16,
            MapIconType::LightGrayBanner => 17,
            MapIconType::CyanBanner => 18,
            MapIconType::PurpleBanner => 19,
            MapIconType::BlueBanner => 20,
            MapIconType::BrownBanner => 21,
            MapIconType::GreenBanner => 22,
            MapIconType::RedBanner => 23,
            MapIconType::BlackBanner => 24,
            MapIconType::TreasureMarker => 25,
        }
    }

    pub open spec fn spec_of_id(id: i32) -> Option<MapIconType> {
        match id {
            0 => Some(MapIconType::WhiteArrow),
            1 => Some(MapIconType::GreenArrow),
            2 => Some(MapIconType::RedArrow),
            3 => Some(MapIconType::BlueArrow),
            4 => Some(MapIconType::WhiteCross),
            5 => Some(MapIconType::RedPointer),
            6 => Some(MapIconType::WhiteCircle),
            7 => Some(MapIconType::SmallWhiteCircle),
            8 => Some(MapIconType::Mansion),
            9 => Some(MapIconType::Temple),
            10 => Some(MapIconType::WhiteBanner),
            11 => Some(MapIconType::OrangeBanner),
            12 => Some(MapIconType::MagentaBanner),
            13 => Some(MapIconType::YellowBanner),
            14 => Some(MapIconType::LimeBanner),
            15 => Some(MapIconType::PinkBanner),
            16 => Some(MapIconType::GrayBanner),
            17 => Some(MapIconType::LightGrayBanner),
            18 => Some(MapIconType::CyanBanner),
            19 => Some(MapIconType::PurpleBanner),
            20 => Some(MapIconType::BlueBanner),
            21 => Some(MapIconType::BrownBanner),
            22 => Some(MapIconType::GreenBanner),
            23 => Some(MapIconType::RedBanner),
            24 => Some(MapIconType::BlackBanner),
            25 => Some(MapIconType::TreasureMarker),
            _ => None,
        }
    }

    /// The discriminant written for this variant.
    pub fn id(&self) -> (r: i32)
        ensures
            r == Self::spec_id(*self),
    {
        match self {
            MapIconType::WhiteArrow => 0,
            MapIconType::GreenArrow => 1,
            MapIconType::RedArrow => 2,
            MapIconType::BlueArrow => 3,
            MapIconType::WhiteCross => 4,
            MapIconType::RedPointer => 5,
            MapIconType::WhiteCircle => 6,
            MapIconType::SmallWhiteCircle => 7,
            MapIconType::Mansion => 8,
            MapIconType::Temple => 9,
            MapIconType::WhiteBanner => 10,
            MapIconType::OrangeBanner => 11,
            MapIconType::MagentaBanner => 12,
            MapIconType::YellowBanner => 13,
            MapIconType::LimeBanner => 14,
            MapIconType::PinkBanner => 15,
            MapIconType::GrayBanner => 16,
            MapIconType::LightGrayBanner => 17,
            MapIconType::CyanBanner => 18,
            MapIconType::PurpleBanner => 19,
            MapIconType::BlueBanner => 20,
            MapIconType::BrownBanner => 21,
            MapIconType::GreenBanner => 22,
            MapIconType::RedBanner => 23,
            MapIconType::BlackBanner => 24,
            MapIconType::TreasureMarker => 25,
        }
    }
}

impl Codec for MapIconType {
    type Model = MapIconType;

    open spec fn model(&self) -> MapIconType {
        *self
    }

    open spec fn encodable(m: MapIconType) -> bool {
        true
    }

    open spec fn legal(m: MapIconType) -> bool {
        true
    }

    open spec fn spec_serialize(m: MapIconType) -> Seq<u8> {
        spec_varint_serialize(Self::spec_id(m))
    }

    /// A discriminant that names no variant is an error carrying it.
    open spec fn spec_deserialize(s: Seq<u8>) -> SpecResult<MapIconType> {
        match spec_varint_deserialize(s) {
            Err(e) => Err(e),
            Ok((id, rest)) => match Self::spec_of_id(id) {
                Some(v) => Ok((v, rest)),
                None => Err(DeserializeErr::UnknownTag(id as i64)),
            },
        }
    }

    proof fn lemma_round_trip(m: MapIconType, rest: Seq<u8>) {
        VarInt::lemma_round_trip(Self::spec_id(m), rest);
    }

    fn mc_serialize(&self, to: &mut Vec<u8>) {
        VarInt(self.id()).mc_serialize(to);
    }

    fn mc_deserialize(data: &[u8]) -> (r: Result<(Self, &[u8]), DeserializeErr>) {
        let (id, rest) = VarInt::mc_deserialize(data)?;
        let id = id.0;
        match id {
            0 => Ok((MapIconType::WhiteArrow, rest)),
            1 => Ok((MapIconType::GreenArrow, rest)),
            2 => Ok((MapIconType::RedArrow, rest)),
            3 => Ok((MapIconType::BlueArrow, rest)),
            4 => Ok((MapIconType::WhiteCross, rest)),
            5 => Ok((MapIconType::RedPointer, rest)),
            6 => Ok((MapIconType::WhiteCircle, rest)),
            7 => Ok((MapIconType::SmallWhiteCircle, rest)),
            8 => Ok((MapIconType::Mansion, rest)),
            9 => Ok((MapIconType::Temple, rest)),
            10 => Ok((MapIconType::WhiteBanner, rest)),
            11 => Ok((MapIconType::OrangeBanner, rest)),
            12 => Ok((MapIconType::MagentaBanner, rest)),
            13 => Ok((MapIconType::YellowBanner, rest)),
            14 => Ok((MapIconType::LimeBanner, rest)),
            15 => Ok((MapIconType::PinkBanner, rest)),
            16 => Ok((MapIconType::GrayBanner, rest)),
            17 => Ok((MapIconType::LightGrayBanner, rest)),
            18 => Ok((MapIconType::CyanBanner, rest)),
            19 => Ok((MapIconType::PurpleBanner, rest)),
            20 => Ok((MapIconType::BlueBanner, rest)),
            21 => Ok((MapIconType::BrownBanner, rest)),
            22 => Ok((MapIconType::GreenBanner, rest)),
            23 => Ok((MapIconType::RedBanner, rest)),
            24 => Ok((MapIconType::BlackBanner, rest)),
            25 => Ok((MapIconType::TreasureMarker, rest)),
            _ => Err(DeserializeErr::UnknownTag(id as i64)),
        }
    }
}

/// The hand of the protocol.
#[derive(Debug, Clone, Copy, PartialEq, Eq, Structural)]
pub enum Hand {
    MainHand,
    OffHand,
}

impl Hand {
    pub open spec fn spec_id(m: Hand) -> i32 {
        match m {
            Hand::MainHand => 0,
            Hand::OffHand => 1,
        }
    }

    pub open spec fn spec_of_id(id: i32) -> Option<Hand> {
        match id {
            0 => Some(Hand::MainHand),
            1 => Some(Hand::OffHand),
            _ => None,
        }
    }

    /// The discriminant written for this variant.
    pub fn id(&self) -> (r: i32)
        ensures
            r == Self::spec_id(*self),
    {
        match self {
            Hand::MainHand => 0,
            Hand::OffHand => 1,
        }
    }
}

impl Codec for Hand {
    type Model = Hand;

    open spec fn model(&self) -> Hand {
        *self
    }

    open spec fn encodable(m: Hand) -> bool {
        true
    }

    open spec fn legal(m: Hand) -> bool {
        true
    }

    open spec fn spec_serialize(m: Hand) -> Seq<u8> {
        spec_varint_serialize(Self::spec_id(m))
    }

    /// A discriminant that names no variant is an error carrying it.
    open spec fn spec_deserialize(s: Seq<u8>) -> SpecResult<Hand> {
        match spec_varint_deserialize(s) {
            Err(e) => Err(e),
            Ok((id, rest)) => match Self::spec_of_id(id) {
                Some(v) => Ok((v, rest)),
                None => Err(DeserializeErr::UnknownTag(id as i64)),
            },
        }
    }

    proof fn lemma_round_trip(m: Hand, rest: Seq<u8>) {
        VarInt::lemma_round_trip(Self::spec_id(m), rest);
    }

    fn mc_serialize(&self, to: &mut Vec<u8>) {
        VarInt(self.id()).mc_serialize(to);
    }

    fn mc_deserialize(data: &[u8]) -> (r: Result<(Self, &[u8]), DeserializeErr>) {
        let (id, rest) = VarInt::mc_deserialize(data)?;
        let id = id.0;
        match id {
            0 => Ok((Hand::MainHand, rest)),
            1 => Ok((Hand::OffHand, rest)),
            _ => Err(DeserializeErr::UnknownTag(id as i64)),
        }
    }
}

/// The window type of the protocol.
#[derive(Debug, Clone, Copy, PartialEq, Eq, Structural)]
pub enum WindowType {
    GenericOneRow,
    GenericTwoRow,
    GenericThreeRow,
    GenericFourRow,
    GenericFiveRow,
    GenericSixRow,
    GenericSquare,
    Anvil,
    Beacon,
    BlastFurnace,
    BrewingStand,
    CraftingTable,
    EnchantmentTable,
    Furnace,
    Grindstone,
    Hopper,
    Lectern,
    Loom,
    Merchant,
    ShulkerBox,
    Smoker,
    Cartography,
    StoneCutter,
}

impl WindowType {
    pub open spec fn spec_id(m: WindowType) -> i32 {
        match m {
            WindowType::GenericOneRow => 0,
            WindowType::GenericTwoRow => 1,
            WindowType::GenericThreeRow => 2,
            WindowType::GenericFourRow => 3,
            WindowType::GenericFiveRow => 4,
            WindowType::GenericSixRow => 5,
            WindowType::GenericSquare => 6,
            WindowType::Anvil => 7,
            WindowType::Beacon => 8,
            WindowType::BlastFurnace => 9,
            WindowType::BrewingStand => 10,
            WindowType::CraftingTable => 11,
            WindowType::EnchantmentTable => 12,
            WindowType::Furnace => 13,
            WindowType::Grindstone => 14,
            WindowType::Hopper => 15,
            WindowType::Lectern => 16,
            WindowType::Loom => 17,
            WindowType::Merchant => 18,
            WindowType::ShulkerBox => 19,
            WindowType::Smoker => 20,
            WindowType::Cartography => 21,
            WindowType::StoneCutter => 22,
        }
    }

    pub open spec fn spec_of_id(id: i32) -> Option<WindowType> {
        match id {
            0 => Some(WindowType::GenericOneRow),
            1 => Some(WindowType::GenericTwoRow),
            2 => Some(WindowType::GenericThreeRow),
            3 => Some(WindowType::GenericFourRow),
            4 => Some(WindowType::GenericFiveRow),
            5 => Some(WindowType::GenericSixRow),
            6 => Some(WindowType::GenericSquare),
            7 => Some(WindowType::Anvil),
            8 => Some(WindowType::Beacon),
            9 => Some(WindowType::BlastFurnace),
            10 => Some(WindowType::BrewingStand),
            11 => Some(WindowType::CraftingTable),
            12 => Some(WindowType::EnchantmentTable),
            13 => Some(WindowType::Furnace),
            14 => Some(WindowType::Grindstone),
            15 => Some(WindowType::Hopper),
            16 => Some(WindowType::Lectern),
            17 => Some(WindowType::Loom),
            18 => Some(WindowType::Merchant),
            19 => Some(WindowType::ShulkerBox),
            20 => Some(WindowType::Smoker),
            21 => Some(WindowType::Cartography),
            22 => Some(WindowType::StoneCutter),
            _ => None,
        }
    }

    /// The discriminant written for this variant.
    pub fn id(&self) -> (r: i32)
        ensures
            r == Self::spec_id(*self),
    {
        match self {
            WindowType::GenericOneRow => 0,
            WindowType::GenericTwoRow => 1,
            WindowType::GenericThreeRow => 2,
            WindowType::GenericFourRow => 3,
            WindowType::GenericFiveRow => 4,
            WindowType::GenericSixRow => 5,
            WindowType::GenericSquare => 6,
            WindowType::Anvil => 7,
            WindowType::Beacon => 8,
            WindowType::BlastFurnace => 9,
            WindowType::BrewingStand => 10,
            WindowType::CraftingTable => 11,
            WindowType::EnchantmentTable => 12,
            WindowType::Furnace => 13,
            WindowType::Grindstone => 14,
            WindowType::Hopper => 15,
            WindowType::Lectern => 16,
            WindowType::Loom => 17,
            WindowType::Merchant => 18,
            WindowType::ShulkerBox => 19,
            WindowType::Smoker => 20,
            WindowType::Cartography => 21,
            WindowType::StoneCutter => 22,
        }
    }
}

impl Codec for WindowType {
    type Model = WindowType;

    open spec fn model(&self) -> WindowType {
        *self
    }

    open spec fn encodable(m: WindowType) -> bool {
        true
    }

    open spec fn legal(m: WindowType) -> bool {
        true
    }

    open spec fn spec_serialize(m: WindowType) -> Seq<u8> {
        spec_varint_serialize(Self::spec_id(m))
    }

    /// A discriminant that names no variant is an error carrying it.
    open spec fn spec_deserialize(s: Seq<u8>) -> SpecResult<WindowType> {
        match spec_varint_deserialize(s) {
            Err(e) => Err(e),
            Ok((id, rest)) => match Self::spec_of_id(id) {
                Some(v) => Ok((v, rest)),
                None => Err(DeserializeErr::UnknownTag(id as i64)),
            },
        }
    }

    proof fn lemma_round_trip(m: WindowType, rest: Seq<u8>) {
        VarInt::lemma_round_trip(Self::spec_id(m), rest);
    }

    fn mc_serialize(&self, to: &mut Vec<u8>) {
        VarInt(self.id()).mc_serialize(to);
    }

    fn mc_deserialize(data: &[u8]) -> (r: Result<(Self, &[u8]), DeserializeErr>) {
        let (id, rest) = VarInt::mc_deserialize(data)?;
        let id = id.0;
        match id {
            0 => Ok((WindowType::GenericOneRow, rest)),
            1 => Ok((WindowType::GenericTwoRow, rest)),
            2 => Ok((WindowType::GenericThreeRow, rest)),
            3 => Ok((WindowType::GenericFourRow, rest)),
            4 => Ok((WindowType::GenericFiveRow, rest)),
            5 => Ok((WindowType::GenericSixRow, rest)),
            6 => Ok((WindowType::GenericSquare, rest)),
            7 => Ok((WindowType::Anvil, rest)),
            8 => Ok((WindowType::Beacon, rest)),
            9 => Ok((WindowType::BlastFurnace, rest)),
            10 => Ok((WindowType::BrewingStand, rest)),
            11 => Ok((WindowType::CraftingTable, rest)),
            12 => Ok((WindowType::EnchantmentTable, rest)),
            13 => Ok((WindowType::Furnace, rest)),
            14 => Ok((WindowType::Grindstone, rest)),
            15 => Ok((WindowType::Hopper, rest)),
            16 => Ok((WindowType::Lectern, rest)),
            17 => Ok((WindowType::Loom, rest)),
            18 => Ok((WindowType::Merchant, rest)),
            19 => Ok((WindowType::ShulkerBox, rest)),
            20 => Ok((WindowType::Smoker, rest)),
            21 => Ok((WindowType::Cartography, rest)),
            22 => Ok((WindowType::StoneCutter, rest)),
            _ => Err(DeserializeErr::UnknownTag(id as i64)),
        }
    }
}

/// The player ability flags: one bit per flag.
#[derive(Debug, Clone, Copy, PartialEq, Eq, Structural)]
pub struct PlayerAbilityFlags {
    pub invulnerable: bool,
    pub flying: bool,
    pub allow_flying: bool,
    pub instant_break: bool,
}

impl Codec for PlayerAbilityFlags {
    type Model = PlayerAbilityFlags;

    open spec fn model(&self) -> PlayerAbilityFlags {
        *self
    }

    open spec fn encodable(m: PlayerAbilityFlags) -> bool {
        true
    }

    open spec fn legal(m: PlayerAbilityFlags) -> bool {
        true
    }

    /// One byte with a bit per flag.
    open spec fn spec_serialize(m: PlayerAbilityFlags) -> Seq<u8> {
        seq![((if m.invulnerable { 1u8 } else { 0u8 }) + (if m.flying { 2u8 } else { 0u8 }) + (if m.allow_flying { 4u8 } else { 0u8 }) + (if m.instant_break { 8u8 } else { 0u8 })) as u8]
    }

    /// Bits that name no flag are ignored.
    open spec fn spec_deserialize(s: Seq<u8>) -> SpecResult<PlayerAbilityFlags> {
        if s.len() == 0 {
            Err(DeserializeErr::Eof)
        } else {
            Ok((PlayerAbilityFlags { invulnerable: (s[0] / 1) % 2 == 1, flying: (s[0] / 2) % 2 == 1, allow_flying: (s[0] / 4) % 2 == 1, instant_break: (s[0] / 8) % 2 == 1 }, s.skip(1)))
        }
    }

    proof fn lemma_round_trip(m: PlayerAbilityFlags, rest: Seq<u8>) {
        assert((Self::spec_serialize(m) + rest).skip(1) =~= rest);
    }

    fn mc_serialize(&self, to: &mut Vec<u8>) {
        to.push(((if self.invulnerable { 1u8 } else { 0u8 }) + (if self.flying { 2u8 } else { 0u8 }) + (if self.allow_flying { 4u8 } else { 0u8 }) + (if self.instant_break { 8u8 } else { 0u8 })) as u8);
    }

    fn mc_deserialize(data: &[u8]) -> (r: Result<(Self, &[u8]), DeserializeErr>) {
        let (b, rest) = take_bytes(data, 1)?;
        Ok((PlayerAbilityFlags { invulnerable: (b[0] / 1) % 2 == 1, flying: (b[0] / 2) % 2 == 1, allow_flying: (b[0] / 4) % 2 == 1, instant_break: (b[0] / 8) % 2 == 1 }, rest))
    }
}

/// A combat event as values.
pub enum CombatEventModel {
    Enter,
    End(<CombatEndSpec as Codec>::Model),
    EntityDead(<CombatEntityDeadSpec as Codec>::Model),
}

/// The combat event of the protocol.
#[derive(Debug, Clone, PartialEq, Eq)]
pub enum CombatEvent {
    Enter,
    End(CombatEndSpec),
    EntityDead(CombatEntityDeadSpec),
}

impl CombatEvent {
    pub open spec fn spec_id(m: CombatEventModel) -> i32 {
        match m {
            CombatEventModel::Enter => 0i32,
            CombatEventModel::End(_) => 1i32,
            CombatEventModel::EntityDead(_) => 2i32,
        }
    }

    /// Reads the payload of `m`'s variant from `r`.
    pub open spec fn spec_payload(m: CombatEventModel, r: Seq<u8>) -> SpecResult<CombatEventModel> {
        match m {
            CombatEventModel::Enter => Ok((CombatEventModel::Enter, r)),
            CombatEventModel::End(_) => match CombatEndSpec::spec_deserialize(r) {
                Ok((p, r2)) => Ok((CombatEventModel::End(p), r2)),
                Err(e) => Err(e),
            },
            CombatEventModel::EntityDead(_) => match CombatEntityDeadSpec::spec_deserialize(r) {
                Ok((p, r2)) => Ok((CombatEventModel::EntityDead(p), r2)),
                Err(e) => Err(e),
            },
        }
    }

    /// The variant that a discriminant names, with its payload read from
    /// `r`; a discriminant that names no variant is an error carrying it.
    pub open spec fn spec_from_id(id: i32, r: Seq<u8>) -> SpecResult<CombatEventModel> {
        match id {
            0i32 => Self::spec_payload(CombatEventModel::Enter, r),
            1i32 => Self::spec_payload(CombatEventModel::End(arbitrary()), r),
            2i32 => Self::spec_payload(CombatEventModel::EntityDead(arbitrary()), r),
            _ => Err(DeserializeErr::UnknownTag(id as i64)),
        }
    }

    pub open spec fn spec_payload_bytes(m: CombatEventModel) -> Seq<u8> {
        match m {
            CombatEventModel::End(p) => CombatEndSpec::spec_serialize(p),
            CombatEventModel::EntityDead(p) => CombatEntityDeadSpec::spec_serialize(p),
            _ => Seq::empty(),
        }
    }

    /// The discriminant of this variant.
    pub fn id(&self) -> (r: i32)
        ensures
            r == Self::spec_id(self.model()),
    {
        match self {
            CombatEvent::Enter => 0,
            CombatEvent::End(_) => 1,
            CombatEvent::EntityDead(_) => 2,
        }
    }

    /// Writes the payload alone.
    pub fn serialize_body(&self, to: &mut Vec<u8>)
        requires
            Self::encodable(self.model()),
        ensures
            final(to)@ == old(to)@ + Self::spec_payload_bytes(self.model()),
    {
        match self {
            CombatEvent::End(p) => p.mc_serialize(to),
            CombatEvent::EntityDead(p) => p.mc_serialize(to),
            _ => {},
        }
        assert(to@ =~= to@ + Seq::<u8>::empty());
    }

    /// Reads the payload of the variant that `id` names.
    pub fn deserialize_with_id(id: i32, data: &[u8]) -> (r: Result<(Self, &[u8]), DeserializeErr>)
        ensures
            read_matches(r, |v: Self| v.model(), Self::spec_from_id(id, data@)),
    {
        match id {
            0 => Ok((CombatEvent::Enter, data)),
            1 => {
                let (p, rest) = CombatEndSpec::mc_deserialize(data)?;
                Ok((CombatEvent::End(p), rest))
            },
            2 => {
                let (p, rest) = CombatEntityDeadSpec::mc_deserialize(data)?;
                Ok((CombatEvent::EntityDead(p), rest))
            },
            _ => Err(DeserializeErr::UnknownTag(id as i64)),
        }
    }

    pub proof fn lemma_payload_round_trip(m: CombatEventModel, rest: Seq<u8>)
        requires
            Self::legal(m),
        ensures
            Self::encodable(m),
            Self::spec_from_id(Self::spec_id(m), Self::spec_payload_bytes(m) + rest) == Ok::<
                (CombatEventModel, Seq<u8>),
                DeserializeErr,
            >((m, rest)),
    {
        match m {
            CombatEventModel::End(p) => CombatEndSpec::lemma_round_trip(p, rest),
            CombatEventModel::EntityDead(p) => CombatEntityDeadSpec::lemma_round_trip(p, rest),
            _ => assert(Seq::<u8>::empty() + rest =~= rest),
        }
    }
}

impl Codec for CombatEvent {
    type Model = CombatEventModel;

    open spec fn model(&self) -> CombatEventModel {
        match self {
            CombatEvent::Enter => CombatEventModel::Enter,
            CombatEvent::End(p) => CombatEventModel::End(p.model()),
            CombatEvent::EntityDead(p) => CombatEventModel::EntityDead(p.model()),
        }
    }

    open spec fn encodable(m: CombatEventModel) -> bool {
        match m {
            CombatEventModel::End(p) => CombatEndSpec::encodable(p),
            CombatEventModel::EntityDead(p) => CombatEntityDeadSpec::encodable(p),
            _ => true,
        }
    }

    open spec fn legal(m: CombatEventModel) -> bool {
        match m {
            CombatEventModel::End(p) => CombatEndSpec::legal(p),
            CombatEventModel::EntityDead(p) => CombatEntityDeadSpec::legal(p),
            _ => true,
        }
    }

    /// The discriminant as a `VarInt`, then the variant's payload.
    open spec fn spec_serialize(m: CombatEventModel) -> Seq<u8> {
        spec_varint_serialize(Self::spec_id(m)) + Self::spec_payload_bytes(m)
    }

    open spec fn spec_deserialize(s: Seq<u8>) -> SpecResult<CombatEventModel> {
        match spec_varint_deserialize(s) {
            Err(e) => Err(e),
            Ok((id, r)) => Self::spec_from_id(id, r),
        }
    }

    proof fn lemma_round_trip(m: CombatEventModel, rest: Seq<u8>) {
        let payload = Self::spec_payload_bytes(m) + rest;
        VarInt::lemma_round_trip(Self::spec_id(m), payload);
        assert(Self::spec_serialize(m) + rest =~= spec_varint_serialize(Self::spec_id(m)) + payload);
        Self::lemma_payload_round_trip(m, rest);
    }

    fn mc_serialize(&self, to: &mut Vec<u8>) {
        let ghost start = to@;
        VarInt(self.id()).mc_serialize(to);
        self.serialize_body(to);
        assert(to@ =~= start + Self::spec_serialize(self.model()));
    }

    fn mc_deserialize(data: &[u8]) -> (r: Result<(Self, &[u8]), DeserializeErr>) {
        let (id, rest) = VarInt::mc_deserialize(data)?;
        Self::deserialize_with_id(id.0, rest)
    }
}

/// A player info action list as values.
pub enum PlayerInfoActionListModel {
    Add(<VarIntCountedArray<PlayerInfoAction<PlayerAddActionSpec>> as Codec>::Model),
    UpdateGameMode(<VarIntCountedArray<PlayerInfoAction<GameMode>> as Codec>::Model),
    UpdateLatency(<VarIntCountedArray<PlayerInfoAction<VarInt>> as Codec>::Model),
    UpdateDisplayName(<VarIntCountedArray<PlayerInfoAction<Option<Chat>>> as Codec>::Model),
    Remove(<VarIntCountedArray<UUID4> as Codec>::Model),
}

/// The player info action list of the protocol.
#[derive(Debug, Clone, PartialEq, Eq)]
pub enum PlayerInfoActionList {
    Add(VarIntCountedArray<PlayerInfoAction<PlayerAddActionSpec>>),
    UpdateGameMode(VarIntCountedArray<PlayerInfoAction<GameMode>>),
    UpdateLatency(VarIntCountedArray<PlayerInfoAction<VarInt>>),
    UpdateDisplayName(VarIntCountedArray<PlayerInfoAction<Option<Chat>>>),
    Remove(VarIntCountedArray<UUID4>),
}

impl PlayerInfoActionList {
    pub open spec fn spec_id(m: PlayerInfoActionListModel) -> i32 {
        match m {
            PlayerInfoActionListModel::Add(_) => 0i32,
            PlayerInfoActionListModel::UpdateGameMode(_) => 1i32,
            PlayerInfoActionListModel::UpdateLatency(_) => 2i32,
            PlayerInfoActionListModel::UpdateDisplayName(_) => 3i32,
            PlayerInfoActionListModel::Remove(_) => 4i32,
        }
    }

    /// Reads the payload of `m`'s variant from `r`.
    pub open spec fn spec_payload(m: PlayerInfoActionListModel, r: Seq<u8>) -> SpecResult<PlayerInfoActionListModel> {
        match m {
            PlayerInfoActionListModel::Add(_) => match VarIntCountedArray::<PlayerInfoAction<PlayerAddActionSpec>>::spec_deserialize(r) {
                Ok((p, r2)) => Ok((PlayerInfoActionListModel::Add(p), r2)),
                Err(e) => Err(e),
            },
            PlayerInfoActionListModel::UpdateGameMode(_) => match VarIntCountedArray::<PlayerInfoAction<GameMode>>::spec_deserialize(r) {
                Ok((p, r2)) => Ok((PlayerInfoActionListModel::UpdateGameMode(p), r2)),
                Err(e) => Err(e),
            },
            PlayerInfoActionListModel::UpdateLatency(_) => match VarIntCountedArray::<PlayerInfoAction<VarInt>>::spec_deserialize(r) {
                Ok((p, r2)) => Ok((PlayerInfoActionListModel::UpdateLatency(p), r2)),
                Err(e) => Err(e),
            },
            PlayerInfoActionListModel::UpdateDisplayName(_) => match VarIntCountedArray::<PlayerInfoAction<Option<Chat>>>::spec_deserialize(r) {
                Ok((p, r2)) => Ok((PlayerInfoActionListModel::UpdateDisplayName(p), r2)),
                Err(e) => Err(e),
            },
            PlayerInfoActionListModel::Remove(_) => match VarIntCountedArray::<UUID4>::spec_deserialize(r) {
                Ok((p, r2)) => Ok((PlayerInfoActionListModel::Remove(p), r2)),
                Err(e) => Err(e),
            },
        }
    }

    /// The variant that a discriminant names, with its payload read from
    /// `r`; a discriminant that names no variant is an error carrying it.
    pub open spec fn spec_from_id(id: i32, r: Seq<u8>) -> SpecResult<PlayerInfoActionListModel> {
        match id {
            0i32 => Self::spec_payload(PlayerInfoActionListModel::Add(arbitrary()), r),
            1i32 => Self::spec_payload(PlayerInfoActionListModel::UpdateGameMode(arbitrary()), r),
            2i32 => Self::spec_payload(PlayerInfoActionListModel::UpdateLatency(arbitrary()), r),
            3i32 => Self::spec_payload(PlayerInfoActionListModel::UpdateDisplayName(arbitrary()), r),
            4i32 => Self::spec_payload(PlayerInfoActionListModel::Remove(arbitrary()), r),
            _ => Err(DeserializeErr::UnknownTag(id as i64)),
        }
    }

    pub open spec fn spec_payload_bytes(m: PlayerInfoActionListModel) -> Seq<u8> {
        match m {
            PlayerInfoActionListModel::Add(p) => VarIntCountedArray::<PlayerInfoAction<PlayerAddActionSpec>>::spec_serialize(p),
            PlayerInfoActionListModel::UpdateGameMode(p) => VarIntCountedArray::<PlayerInfoAction<GameMode>>::spec_serialize(p),
            PlayerInfoActionListModel::UpdateLatency(p) => VarIntCountedArray::<PlayerInfoAction<VarInt>>::spec_serialize(p),
            PlayerInfoActionListModel::UpdateDisplayName(p) => VarIntCountedArray::<PlayerInfoAction<Option<Chat>>>::spec_serialize(p),
            PlayerInfoActionListModel::Remove(p) => VarIntCountedArray::<UUID4>::spec_serialize(p),
        }
    }

    /// The discriminant of this variant.
    pub fn id(&self) -> (r: i32)
        ensures
            r == Self::spec_id(self.model()),
    {
        match self {
            PlayerInfoActionList::Add(_) => 0,
            PlayerInfoActionList::UpdateGameMode(_) => 1,
            PlayerInfoActionList::UpdateLatency(_) => 2,
            PlayerInfoActionList::UpdateDisplayName(_) => 3,
            PlayerInfoActionList::Remove(_) => 4,
        }
    }

    /// Writes the payload alone.
    pub fn serialize_body(&self, to: &mut Vec<u8>)
        requires
            Self::encodable(self.model()),
        ensures
            final(to)@ == old(to)@ + Self::spec_payload_bytes(self.model()),
    {
        match self {
            PlayerInfoActionList::Add(p) => p.mc_serialize(to),
            PlayerInfoActionList::UpdateGameMode(p) => p.mc_serialize(to),
            PlayerInfoActionList::UpdateLatency(p) => p.mc_serialize(to),
            PlayerInfoActionList::UpdateDisplayName(p) => p.mc_serialize(to),
            PlayerInfoActionList::Remove(p) => p.mc_serialize(to),
        }
        assert(to@ =~= to@ + Seq::<u8>::empty());
    }

    /// Reads the payload of the variant that `id` names.
    pub fn deserialize_with_id(id: i32, data: &[u8]) -> (r: Result<(Self, &[u8]), DeserializeErr>)
        ensures
            read_matches(r, |v: Self| v.model(), Self::spec_from_id(id, data@)),
    {
        match id {
            0 => {
                let (p, rest) = VarIntCountedArray::<PlayerInfoAction<PlayerAddActionSpec>>::mc_deserialize(data)?;
                Ok((PlayerInfoActionList::Add(p), rest))
            },
            1 => {
                let (p, rest) = VarIntCountedArray::<PlayerInfoAction<GameMode>>::mc_deserialize(data)?;
                Ok((PlayerInfoActionList::UpdateGameMode(p), rest))
            },
            2 => {
                let (p, rest) = VarIntCountedArray::<PlayerInfoAction<VarInt>>::mc_deserialize(data)?;
                Ok((PlayerInfoActionList::UpdateLatency(p), rest))
            },
            3 => {
                let (p, rest) = VarIntCountedArray::<PlayerInfoAction<Option<Chat>>>::mc_deserialize(data)?;
                Ok((PlayerInfoActionList::UpdateDisplayName(p), rest))
            },
            4 => {
                let (p, rest) = VarIntCountedArray::<UUID4>::mc_deserialize(data)?;
                Ok((PlayerInfoActionList::Remove(p), rest))
            },
            _ => Err(DeserializeErr::UnknownTag(id as i64)),
        }
    }

    pub proof fn lemma_payload_round_trip(m: PlayerInfoActionListModel, rest: Seq<u8>)
        requires
            Self::legal(m),
        ensures
            Self::encodable(m),
            Self::spec_from_id(Self::spec_id(m), Self::spec_payload_bytes(m) + rest) == Ok::<
                (PlayerInfoActionListModel, Seq<u8>),
                DeserializeErr,
            >((m, rest)),
    {
        match m {
            PlayerInfoActionListModel::Add(p) => VarIntCountedArray::<PlayerInfoAction<PlayerAddActionSpec>>::lemma_round_trip(p, rest),
            PlayerInfoActionListModel::UpdateGameMode(p) => VarIntCountedArray::<PlayerInfoAction<GameMode>>::lemma_round_trip(p, rest),
            PlayerInfoActionListModel::UpdateLatency(p) => VarIntCountedArray::<PlayerInfoAction<VarInt>>::lemma_round_trip(p, rest),
            PlayerInfoActionListModel::UpdateDisplayName(p) => VarIntCountedArray::<PlayerInfoAction<Option<Chat>>>::lemma_round_trip(p, rest),
            PlayerInfoActionListModel::Remove(p) => VarIntCountedArray::<UUID4>::lemma_round_trip(p, rest),
        }
    }
}

impl Codec for PlayerInfoActionList {
    type Model = PlayerInfoActionListModel;

    open spec fn model(&self) -> PlayerInfoActionListModel {
        match self {
            PlayerInfoActionList::Add(p) => PlayerInfoActionListModel::Add(p.model()),
            PlayerInfoActionList::UpdateGameMode(p) => PlayerInfoActionListModel::UpdateGameMode(p.model()),
            PlayerInfoActionList::UpdateLatency(p) => PlayerInfoActionListModel::UpdateLatency(p.model()),
            PlayerInfoActionList::UpdateDisplayName(p) => PlayerInfoActionListModel::UpdateDisplayName(p.model()),
            PlayerInfoActionList::Remove(p) => PlayerInfoActionListModel::Remove(p.model()),
        }
    }

    open spec fn encodable(m: PlayerInfoActionListModel) -> bool {
        match m {
            PlayerInfoActionListModel::Add(p) => VarIntCountedArray::<PlayerInfoAction<PlayerAddActionSpec>>::encodable(p),
            PlayerInfoActionListModel::UpdateGameMode(p) => VarIntCountedArray::<PlayerInfoAction<GameMode>>::encodable(p),
            PlayerInfoActionListModel::UpdateLatency(p) => VarIntCountedArray::<PlayerInfoAction<VarInt>>::encodable(p),
            PlayerInfoActionListModel::UpdateDisplayName(p) => VarIntCountedArray::<PlayerInfoAction<Option<Chat>>>::encodable(p),
            PlayerInfoActionListModel::Remove(p) => VarIntCountedArray::<UUID4>::encodable(p),
        }
    }

    open spec fn legal(m: PlayerInfoActionListModel) -> bool {
        match m {
            PlayerInfoActionListModel::Add(p) => VarIntCountedArray::<PlayerInfoAction<PlayerAddActionSpec>>::legal(p),
            PlayerInfoActionListModel::UpdateGameMode(p) => VarIntCountedArray::<PlayerInfoAction<GameMode>>::legal(p),
            PlayerInfoActionListModel::UpdateLatency(p) => VarIntCountedArray::<PlayerInfoAction<VarInt>>::legal(p),
            PlayerInfoActionListModel::UpdateDisplayName(p) => VarIntCountedArray::<PlayerInfoAction<Option<Chat>>>::legal(p),
            PlayerInfoActionListModel::Remove(p) => VarIntCountedArray::<UUID4>::legal(p),
        }
    }

    /// The discriminant as a `VarInt`, then the variant's payload.
    open spec fn spec_serialize(m: PlayerInfoActionListModel) -> Seq<u8> {
        spec_varint_serialize(Self::spec_id(m)) + Self::spec_payload_bytes(m)
    }

    open spec fn spec_deserialize(s: Seq<u8>) -> SpecResult<PlayerInfoActionListModel> {
        match spec_varint_deserialize(s) {
            Err(e) => Err(e),
            Ok((id, r)) => Self::spec_from_id(id, r),
        }
    }

    proof fn lemma_round_trip(m: PlayerInfoActionListModel, rest: Seq<u8>) {
        let payload = Self::spec_payload_bytes(m) + rest;
        VarInt::lemma_round_trip(Self::spec_id(m), payload);
        assert(Self::spec_serialize(m) + rest =~= spec_varint_serialize(Self::spec_id(m)) + payload);
        Self::lemma_payload_round_trip(m, rest);
    }

    fn mc_serialize(&self, to: &mut Vec<u8>) {
        let ghost start = to@;
        VarInt(self.id()).mc_serialize(to);
        self.serialize_body(to);
        assert(to@ =~= start + Self::spec_serialize(self.model()));
    }

    fn mc_deserialize(data: &[u8]) -> (r: Result<(Self, &[u8]), DeserializeErr>) {
        let (id, rest) = VarInt::mc_deserialize(data)?;
        Self::deserialize_with_id(id.0, rest)
    }
}

/// The face player kind of the protocol.
#[derive(Debug, Clone, Copy, PartialEq, Eq, Structural)]
pub enum FacePlayerKind {
    Feet,
    Eyes,
}

impl FacePlayerKind {
    pub open spec fn spec_id(m: FacePlayerKind) -> i32 {
        match m {
            FacePlayerKind::Feet => 0,
            FacePlayerKind::Eyes => 1,
        }
    }

    pub open spec fn spec_of_id(id: i32) -> Option<FacePlayerKind> {
        match id {
            0 => Some(FacePlayerKind::Feet),
            1 => Some(FacePlayerKind::Eyes),
            _ => None,
        }
    }

    /// The discriminant written for this variant.
    pub fn id(&self) -> (r: i32)
        ensures
            r == Self::spec_id(*self),
    {
        match self {
            FacePlayerKind::Feet => 0,
            FacePlayerKind::Eyes => 1,
        }
    }
}

impl Codec for FacePlayerKind {
    type Model = FacePlayerKind;

    open spec fn model(&self) -> FacePlayerKind {
        *self
    }

    open spec fn encodable(m: FacePlayerKind) -> bool {
        true
    }

    open spec fn legal(m: FacePlayerKind) -> bool {
        true
    }

    open spec fn spec_serialize(m: FacePlayerKind) -> Seq<u8> {
        spec_varint_serialize(Self::spec_id(m))
    }

    /// A discriminant that names no variant is an error carrying it.
    open spec fn spec_deserialize(s: Seq<u8>) -> SpecResult<FacePlayerKind> {
        match spec_varint_deserialize(s) {
            Err(e) => Err(e),
            Ok((id, rest)) => match Self::spec_of_id(id) {
                Some(v) => Ok((v, rest)),
                None => Err(DeserializeErr::UnknownTag(id as i64)),
            },
        }
    }

    proof fn lemma_round_trip(m: FacePlayerKind, rest: Seq<u8>) {
        VarInt::lemma_round_trip(Self::spec_id(m), rest);
    }

    fn mc_serialize(&self, to: &mut Vec<u8>) {
        VarInt(self.id()).mc_serialize(to);
    }

    fn mc_deserialize(data: &[u8]) -> (r: Result<(Self, &[u8]), DeserializeErr>) {
        let (id, rest) = VarInt::mc_deserialize(data)?;
        let id = id.0;
        match id {
            0 => Ok((FacePlayerKind::Feet, rest)),
            1 => Ok((FacePlayerKind::Eyes, rest)),
            _ => Err(DeserializeErr::UnknownTag(id as i64)),
        }
    }
}

/// The position and look flags: one bit per flag.
#[derive(Debug, Clone, Copy, PartialEq, Eq, Structural)]
pub struct PositionAndLookFlags {
    pub x: bool,
    pub y: bool,
    pub z: bool,
    pub y_rotation: bool,
    pub x_rotation: bool,
}

impl Codec for PositionAndLookFlags {
    type Model = PositionAndLookFlags;

    open spec fn model(&self) -> PositionAndLookFlags {
        *self
    }

    open spec fn encodable(m: PositionAndLookFlags) -> bool {
        true
    }

    open spec fn legal(m: PositionAndLookFlags) -> bool {
        true
    }

    /// One byte with a bit per flag.
    open spec fn spec_serialize(m: PositionAndLookFlags) -> Seq<u8> {
        seq![((if m.x { 1u8 } else { 0u8 }) + (if m.y { 2u8 } else { 0u8 }) + (if m.z { 4u8 } else { 0u8 }) + (if m.y_rotation { 8u8 } else { 0u8 }) + (if m.x_rotation { 16u8 } else { 0u8 })) as u8]
    }

    /// Bits that name no flag are ignored.
    open spec fn spec_deserialize(s: Seq<u8>) -> SpecResult<PositionAndLookFlags> {
        if s.len() == 0 {
            Err(DeserializeErr::Eof)
        } else {
            Ok((PositionAndLookFlags { x: (s[0] / 1) % 2 == 1, y: (s[0] / 2) % 2 == 1, z: (s[0] / 4) % 2 == 1, y_rotation: (s[0] / 8) % 2 == 1, x_rotation: (s[0] / 16) % 2 == 1 }, s.skip(1)))
        }
    }

    proof fn lemma_round_trip(m: PositionAndLookFlags, rest: Seq<u8>) {
        assert((Self::spec_serialize(m) + rest).skip(1) =~= rest);
    }

    fn mc_serialize(&self, to: &mut Vec<u8>) {
        to.push(((if self.x { 1u8 } else { 0u8 }) + (if self.y { 2u8 } else { 0u8 }) + (if self.z { 4u8 } else { 0u8 }) + (if self.y_rotation { 8u8 } else { 0u8 }) + (if self.x_rotation { 16u8 } else { 0u8 })) as u8);
    }

    fn mc_deserialize(data: &[u8]) -> (r: Result<(Self, &[u8]), DeserializeErr>) {
        let (b, rest) = take_bytes(data, 1)?;
        Ok((PositionAndLookFlags { x: (b[0] / 1) % 2 == 1, y: (b[0] / 2) % 2 == 1, z: (b[0] / 4) % 2 == 1, y_rotation: (b[0] / 8) % 2 == 1, x_rotation: (b[0] / 16) % 2 == 1 }, rest))
    }
}

/// The entity effect kind of the protocol.
#[derive(Debug, Clone, Copy, PartialEq, Eq, Structural)]
pub enum EntityEffectKind {
    Speed,
    Slowness,
    Haste,
    MiningFatigue,
    Strength,
    InstantHealth,
    InstantDamage,
    JumpBoost,
    Nausea,
    Regeneration,
    Resistance,
    FireResistance,
    WaterBreathing,
    Invisibility,
    Blindness,
    NightVision,
    Hunger,
    Weakness,
    Poison,
    Wither,
    HealthBoost,
    Absorption,
    Saturation,
    Glowing,
    Levetation,
    Luck,
    Unluck,
    SlowFalling,
    ConduitPower,
    DolphinsGrace,
    BadOmen,
    HeroOfTheVillage,
}

impl EntityEffectKind {
    pub open spec fn spec_id(m: EntityEffectKind) -> u8 {
        match m {
            EntityEffectKind::Speed => 1,
            EntityEffectKind::Slowness => 2,
            EntityEffectKind::Haste => 3,
            EntityEffectKind::MiningFatigue => 4,
            EntityEffectKind::Strength => 5,
            EntityEffectKind::InstantHealth => 6,
            EntityEffectKind::InstantDamage => 7,
            EntityEffectKind::JumpBoost => 8,
            EntityEffectKind::Nausea => 9,
            EntityEffectKind::Regeneration => 10,
            EntityEffectKind::Resistance => 11,
            EntityEffectKind::FireResistance => 12,
            EntityEffectKind::WaterBreathing => 13,
            EntityEffectKind::Invisibility => 14,
            EntityEffectKind::Blindness => 15,
            EntityEffectKind::NightVision => 16,
            EntityEffectKind::Hunger => 17,
            EntityEffectKind::Weakness => 18,
            EntityEffectKind::Poison => 19,
            EntityEffectKind::Wither => 20,
            EntityEffectKind::HealthBoost => 21,
            EntityEffectKind::Absorption => 22,
            EntityEffectKind::Saturation => 23,
            EntityEffectKind::Glowing => 24,
            EntityEffectKind::Levetation => 25,
            EntityEffectKind::Luck => 26,
            EntityEffectKind::Unluck => 27,
            EntityEffectKind::SlowFalling => 28,
            EntityEffectKind::ConduitPower => 29,
            EntityEffectKind::DolphinsGrace => 30,
            EntityEffectKind::BadOmen => 31,
            EntityEffectKind::HeroOfTheVillage => 32,
        }
    }

    pub open spec fn spec_of_id(id: u8) -> Option<EntityEffectKind> {
        match id {
            1 => Some(EntityEffectKind::Speed),
            2 => Some(EntityEffectKind::Slowness),
            3 => Some(EntityEffectKind::Haste),
            4 => Some(EntityEffectKind::MiningFatigue),
            5 => Some(EntityEffectKind::Strength),
            6 => Some(EntityEffectKind::InstantHealth),
            7 => Some(EntityEffectKind::InstantDamage),
            8 => Some(EntityEffectKind::JumpBoost),
            9 => Some(EntityEffectKind::Nausea),
            10 => Some(EntityEffectKind::Regeneration),
            11 => Some(EntityEffectKind::Resistance),
            12 => Some(EntityEffectKind::FireResistance),
            13 => Some(EntityEffectKind::WaterBreathing),
            14 => Some(EntityEffectKind::Invisibility),
            15 => Some(EntityEffectKind::Blindness),
            16 => Some(EntityEffectKind::NightVision),
            17 => Some(EntityEffectKind::Hunger),
            18 => Some(EntityEffectKind::Weakness),
            19 => Some(EntityEffectKind::Poison),
            20 => Some(EntityEffectKind::Wither),
            21 => Some(EntityEffectKind::HealthBoost),
            22 => Some(EntityEffectKind::Absorption),
            23 => Some(EntityEffectKind::Saturation),
            24 => Some(EntityEffectKind::Glowing),
            25 => Some(EntityEffectKind::Levetation),
            26 => Some(EntityEffectKind::Luck),
            27 => Some(EntityEffectKind::Unluck),
            28 => Some(EntityEffectKind::SlowFalling),
            29 => Some(EntityEffectKind::ConduitPower),
            30 => Some(EntityEffectKind::DolphinsGrace),
            31 => Some(EntityEffectKind::BadOmen),
            32 => Some(EntityEffectKind::HeroOfTheVillage),
            _ => None,
        }
    }

    /// The discriminant written for this variant.
    pub fn id(&self) -> (r: u8)
        ensures
            r == Self::spec_id(*self),
    {
        match self {
            EntityEffectKind::Speed => 1,
            EntityEffectKind::Slowness => 2,
            EntityEffectKind::Haste => 3,
            EntityEffectKind::MiningFatigue => 4,
            EntityEffectKind::Strength => 5,
            EntityEffectKind::InstantHealth => 6,
            EntityEffectKind::InstantDamage => 7,
            EntityEffectKind::JumpBoost => 8,
            EntityEffectKind::Nausea => 9,
            EntityEffectKind::Regeneration => 10,
            EntityEffectKind::Resistance => 11,
            EntityEffectKind::FireResistance => 12,
            EntityEffectKind::WaterBreathing => 13,
            EntityEffectKind::Invisibility => 14,
            EntityEffectKind::Blindness => 15,
            EntityEffectKind::NightVision => 16,
            EntityEffectKind::Hunger => 17,
            EntityEffectKind::Weakness => 18,
            EntityEffectKind::Poison => 19,
            EntityEffectKind::Wither => 20,
            EntityEffectKind::HealthBoost => 21,
            EntityEffectKind::Absorption => 22,
            EntityEffectKind::Saturation => 23,
            EntityEffectKind::Glowing => 24,
            EntityEffectKind::Levetation => 25,
            EntityEffectKind::Luck => 26,
            EntityEffectKind::Unluck => 27,
            EntityEffectKind::SlowFalling => 28,
            EntityEffectKind::ConduitPower => 29,
            EntityEffectKind::DolphinsGrace => 30,
            EntityEffectKind::BadOmen => 31,
            EntityEffectKind::HeroOfTheVillage => 32,
        }
    }
}

impl Codec for EntityEffectKind {
    type Model = EntityEffectKind;

    open spec fn model(&self) -> EntityEffectKind {
        *self
    }

    open spec fn encodable(m: EntityEffectKind) -> bool {
        true
    }

    open spec fn legal(m: EntityEffectKind) -> bool {
        true
    }

    open spec fn spec_serialize(m: EntityEffectKind) -> Seq<u8> {
        seq![Self::spec_id(m)]
    }

    /// A discriminant that names no variant is an error carrying it.
    open spec fn spec_deserialize(s: Seq<u8>) -> SpecResult<EntityEffectKind> {
        match u8::spec_deserialize(s) {
            Err(e) => Err(e),
            Ok((id, rest)) => match Self::spec_of_id(id) {
                Some(v) => Ok((v, rest)),
                None => Err(DeserializeErr::UnknownTag(id as i64)),
            },
        }
    }

    proof fn lemma_round_trip(m: EntityEffectKind, rest: Seq<u8>) {
        u8::lemma_round_trip(Self::spec_id(m), rest);
    }

    fn mc_serialize(&self, to: &mut Vec<u8>) {
        to.push(self.id());
    }

    fn mc_deserialize(data: &[u8]) -> (r: Result<(Self, &[u8]), DeserializeErr>) {
        let (id, rest) = u8::mc_deserialize(data)?;
        match id {
            1 => Ok((EntityEffectKind::Speed, rest)),
            2 => Ok((EntityEffectKind::Slowness, rest)),
            3 => Ok((EntityEffectKind::Haste, rest)),
            4 => Ok((EntityEffectKind::MiningFatigue, rest)),
            5 => Ok((EntityEffectKind::Strength, rest)),
            6 => Ok((EntityEffectKind::InstantHealth, rest)),
            7 => Ok((EntityEffectKind::InstantDamage, rest)),
            8 => Ok((EntityEffectKind::JumpBoost, rest)),
            9 => Ok((EntityEffectKind::Nausea, rest)),
            10 => Ok((EntityEffectKind::Regeneration, rest)),
            11 => Ok((EntityEffectKind::Resistance, rest)),
            12 => Ok((EntityEffectKind::FireResistance, rest)),
            13 => Ok((EntityEffectKind::WaterBreathing, rest)),
            14 => Ok((EntityEffectKind::Invisibility, rest)),
            15 => Ok((EntityEffectKind::Blindness, rest)),
            16 => Ok((EntityEffectKind::NightVision, rest)),
            17 => Ok((EntityEffectKind::Hunger, rest)),
            18 => Ok((EntityEffectKind::Weakness, rest)),
            19 => Ok((EntityEffectKind::Poison, rest)),
            20 => Ok((EntityEffectKind::Wither, rest)),
            21 => Ok((EntityEffectKind::HealthBoost, rest)),
            22 => Ok((EntityEffectKind::Absorption, rest)),
            23 => Ok((EntityEffectKind::Saturation, rest)),
            24 => Ok((EntityEffectKind::Glowing, rest)),
            25 => Ok((EntityEffectKind::Levetation, rest)),
            26 => Ok((EntityEffectKind::Luck, rest)),
            27 => Ok((EntityEffectKind::Unluck, rest)),
            28 => Ok((EntityEffectKind::SlowFalling, rest)),
            29 => Ok((EntityEffectKind::ConduitPower, rest)),
            30 => Ok((EntityEffectKind::DolphinsGrace, rest)),
            31 => Ok((EntityEffectKind::BadOmen, rest)),
            32 => Ok((EntityEffectKind::HeroOfTheVillage, rest)),
            _ => Err(DeserializeErr::UnknownTag(id as i64)),
        }
    }
}

/// A world border action as values.
pub enum WorldBorderActionModel {
    SetSize(<WorldBorderSetSizeSpec as Codec>::Model),
    LerpSize(<WorldBorderLerpSizeSpec as Codec>::Model),
    SetCenter(<WorldBorderSetCenterSpec as Codec>::Model),
    Initialize(<WorldBorderInitiaializeSpec as Codec>::Model),
    SetWarningTime(<WorldBorderWarningTimeSpec as Codec>::Model),
    SetWarningBlocks(<WorldBorderWarningBlocksSpec as Codec>::Model),
}

/// The world border action of the protocol.
#[derive(Debug, Clone, PartialEq, Eq)]
pub enum WorldBorderAction {
    SetSize(WorldBorderSetSizeSpec),
    LerpSize(WorldBorderLerpSizeSpec),
    SetCenter(WorldBorderSetCenterSpec),
    Initialize(WorldBorderInitiaializeSpec),
    SetWarningTime(WorldBorderWarningTimeSpec),
    SetWarningBlocks(WorldBorderWarningBlocksSpec),
}

impl WorldBorderAction {
    pub open spec fn spec_id(m: WorldBorderActionModel) -> i32 {
        match m {
            WorldBorderActionModel::SetSize(_) => 0i32,
            WorldBorderActionModel::LerpSize(_) => 1i32,
            WorldBorderActionModel::SetCenter(_) => 2i32,
            WorldBorderActionModel::Initialize(_) => 3i32,
            WorldBorderActionModel::SetWarningTime(_) => 4i32,
            WorldBorderActionModel::SetWarningBlocks(_) => 5i32,
        }
    }

    /// Reads the payload of `m`'s variant from `r`.
    pub open spec fn spec_payload(m: WorldBorderActionModel, r: Seq<u8>) -> SpecResult<WorldBorderActionModel> {
        match m {
            WorldBorderActionModel::SetSize(_) => match WorldBorderSetSizeSpec::spec_deserialize(r) {
                Ok((p, r2)) => Ok((WorldBorderActionModel::SetSize(p), r2)),
                Err(e) => Err(e),
            },
            WorldBorderActionModel::LerpSize(_) => match WorldBorderLerpSizeSpec::spec_deserialize(r) {
                Ok((p, r2)) => Ok((WorldBorderActionModel::LerpSize(p), r2)),
                Err(e) => Err(e),
            },
            WorldBorderActionModel::SetCenter(_) => match WorldBorderSetCenterSpec::spec_deserialize(r) {
                Ok((p, r2)) => Ok((WorldBorderActionModel::SetCenter(p), r2)),
                Err(e) => Err(e),
            },
            WorldBorderActionModel::Initialize(_) => match WorldBorderInitiaializeSpec::spec_deserialize(r) {
                Ok((p, r2)) => Ok((WorldBorderActionModel::Initialize(p), r2)),
                Err(e) => Err(e),
            },
            WorldBorderActionModel::SetWarningTime(_) => match WorldBorderWarningTimeSpec::spec_deserialize(r) {
                Ok((p, r2)) => Ok((WorldBorderActionModel::SetWarningTime(p), r2)),
                Err(e) => Err(e),
            },
            WorldBorderActionModel::SetWarningBlocks(_) => match WorldBorderWarningBlocksSpec::spec_deserialize(r) {
                Ok((p, r2)) => Ok((WorldBorderActionModel::SetWarningBlocks(p), r2)),
                Err(e) => Err(e),
            },
        }
    }

    /// The variant that a discriminant names, with its payload read from
    /// `r`; a discriminant that names no variant is an error carrying it.
    pub open spec fn spec_from_id(id: i32, r: Seq<u8>) -> SpecResult<WorldBorderActionModel> {
        match id {
            0i32 => Self::spec_payload(WorldBorderActionModel::SetSize(arbitrary()), r),
            1i32 => Self::spec_payload(WorldBorderActionModel::LerpSize(arbitrary()), r),
            2i32 => Self::spec_payload(WorldBorderActionModel::SetCenter(arbitrary()), r),
            3i32 => Self::spec_payload(WorldBorderActionModel::Initialize(arbitrary()), r),
            4i32 => Self::spec_payload(WorldBorderActionModel::SetWarningTime(arbitrary()), r),
            5i32 => Self::spec_payload(WorldBorderActionModel::SetWarningBlocks(arbitrary()), r),
            _ => Err(DeserializeErr::UnknownTag(id as i64)),
        }
    }

    pub open spec fn spec_payload_bytes(m: WorldBorderActionModel) -> Seq<u8> {
        match m {
            WorldBorderActionModel::SetSize(p) => WorldBorderSetSizeSpec::spec_serialize(p),
            WorldBorderActionModel::LerpSize(p) => WorldBorderLerpSizeSpec::spec_serialize(p),
            WorldBorderActionModel::SetCenter(p) => WorldBorderSetCenterSpec::spec_serialize(p),
            WorldBorderActionModel::Initialize(p) => WorldBorderInitiaializeSpec::spec_serialize(p),
            WorldBorderActionModel::SetWarningTime(p) => WorldBorderWarningTimeSpec::spec_serialize(p),
            WorldBorderActionModel::SetWarningBlocks(p) => WorldBorderWarningBlocksSpec::spec_serialize(p),
        }
    }

    /// The discriminant of this variant.
    pub fn id(&self) -> (r: i32)
        ensures
            r == Self::spec_id(self.model()),
    {
        match self {
            WorldBorderAction::SetSize(_) => 0,
            WorldBorderAction::LerpSize(_) => 1,
            WorldBorderAction::SetCenter(_) => 2,
            WorldBorderAction::Initialize(_) => 3,
            WorldBorderAction::SetWarningTime(_) => 4,
            WorldBorderAction::SetWarningBlocks(_) => 5,
        }
    }

    /// Writes the payload alone.
    pub fn serialize_body(&self, to: &mut Vec<u8>)
        requires
            Self::encodable(self.model()),
        ensures
            final(to)@ == old(to)@ + Self::spec_payload_bytes(self.model()),
    {
        match self {
            WorldBorderAction::SetSize(p) => p.mc_serialize(to),
            WorldBorderAction::LerpSize(p) => p.mc_serialize(to),
            WorldBorderAction::SetCenter(p) => p.mc_serialize(to),
            WorldBorderAction::Initialize(p) => p.mc_serialize(to),
            WorldBorderAction::SetWarningTime(p) => p.mc_serialize(to),
            WorldBorderAction::SetWarningBlocks(p) => p.mc_serialize(to),
        }
        assert(to@ =~= to@ + Seq::<u8>::empty());
    }

    /// Reads the payload of the variant that `id` names.
    pub fn deserialize_with_id(id: i32, data: &[u8]) -> (r: Result<(Self, &[u8]), DeserializeErr>)
        ensures
            read_matches(r, |v: Self| v.model(), Self::spec_from_id(id, data@)),
    {
        match id {
            0 => {
                let (p, rest) = WorldBorderSetSizeSpec::mc_deserialize(data)?;
                Ok((WorldBorderAction::SetSize(p), rest))
            },
            1 => {
                let (p, rest) = WorldBorderLerpSizeSpec::mc_deserialize(data)?;
                Ok((WorldBorderAction::LerpSize(p), rest))
            },
            2 => {
                let (p, rest) = WorldBorderSetCenterSpec::mc_deserialize(data)?;
                Ok((WorldBorderAction::SetCenter(p), rest))
            },
            3 => {
                let (p, rest) = WorldBorderInitiaializeSpec::mc_deserialize(data)?;
                Ok((WorldBorderAction::Initialize(p), rest))
            },
            4 => {
                let (p, rest) = WorldBorderWarningTimeSpec::mc_deserialize(data)?;
                Ok((WorldBorderAction::SetWarningTime(p), rest))
            },
            5 => {
                let (p, rest) = WorldBorderWarningBlocksSpec::mc_deserialize(data)?;
                Ok((WorldBorderAction::SetWarningBlocks(p), rest))
            },
            _ => Err(DeserializeErr::UnknownTag(id as i64)),
        }
    }

    pub proof fn lemma_payload_round_trip(m: WorldBorderActionModel, rest: Seq<u8>)
        requires
            Self::legal(m),
        ensures
            Self::encodable(m),
            Self::spec_from_id(Self::spec_id(m), Self::spec_payload_bytes(m) + rest) == Ok::<
                (WorldBorderActionModel, Seq<u8>),
                DeserializeErr,
            >((m, rest)),
    {
        match m {
            WorldBorderActionModel::SetSize(p) => WorldBorderSetSizeSpec::lemma_round_trip(p, rest),
            WorldBorderActionModel::LerpSize(p) => WorldBorderLerpSizeSpec::lemma_round_trip(p, rest),
            WorldBorderActionModel::SetCenter(p) => WorldBorderSetCenterSpec::lemma_round_trip(p, rest),
            WorldBorderActionModel::Initialize(p) => WorldBorderInitiaializeSpec::lemma_round_trip(p, rest),
            WorldBorderActionModel::SetWarningTime(p) => WorldBorderWarningTimeSpec::lemma_round_trip(p, rest),
            WorldBorderActionModel::SetWarningBlocks(p) => WorldBorderWarningBlocksSpec::lemma_round_trip(p, rest),
        }
    }
}

impl Codec for WorldBorderAction {
    type Model = WorldBorderActionModel;

    open spec fn model(&self) -> WorldBorderActionModel {
        match self {
            WorldBorderAction::SetSize(p) => WorldBorderActionModel::SetSize(p.model()),
            WorldBorderAction::LerpSize(p) => WorldBorderActionModel::LerpSize(p.model()),
            WorldBorderAction::SetCenter(p) => WorldBorderActionModel::SetCenter(p.model()),
            WorldBorderAction::Initialize(p) => WorldBorderActionModel::Initialize(p.model()),
            WorldBorderAction::SetWarningTime(p) => WorldBorderActionModel::SetWarningTime(p.model()),
            WorldBorderAction::SetWarningBlocks(p) => WorldBorderActionModel::SetWarningBlocks(p.model()),
        }
    }

    open spec fn encodable(m: WorldBorderActionModel) -> bool {
        match m {
            WorldBorderActionModel::SetSize(p) => WorldBorderSetSizeSpec::encodable(p),
            WorldBorderActionModel::LerpSize(p) => WorldBorderLerpSizeSpec::encodable(p),
            WorldBorderActionModel::SetCenter(p) => WorldBorderSetCenterSpec::encodable(p),
            WorldBorderActionModel::Initialize(p) => WorldBorderInitiaializeSpec::encodable(p),
            WorldBorderActionModel::SetWarningTime(p) => WorldBorderWarningTimeSpec::encodable(p),
            WorldBorderActionModel::SetWarningBlocks(p) => WorldBorderWarningBlocksSpec::encodable(p),
        }
    }

    open spec fn legal(m: WorldBorderActionModel) -> bool {
        match m {
            WorldBorderActionModel::SetSize(p) => WorldBorderSetSizeSpec::legal(p),
            WorldBorderActionModel::LerpSize(p) => WorldBorderLerpSizeSpec::legal(p),
            WorldBorderActionModel::SetCenter(p) => WorldBorderSetCenterSpec::legal(p),
            WorldBorderActionModel::Initialize(p) => WorldBorderInitiaializeSpec::legal(p),
            WorldBorderActionModel::SetWarningTime(p) => WorldBorderWarningTimeSpec::legal(p),
            WorldBorderActionModel::SetWarningBlocks(p) => WorldBorderWarningBlocksSpec::legal(p),
        }
    }

    /// The discriminant as a `VarInt`, then the variant's payload.
    open spec fn spec_serialize(m: WorldBorderActionModel) -> Seq<u8> {
        spec_varint_serialize(Self::spec_id(m)) + Self::spec_payload_bytes(m)
    }

    open spec fn spec_deserialize(s: Seq<u8>) -> SpecResult<WorldBorderActionModel> {
        match spec_varint_deserialize(s) {
            Err(e) => Err(e),
            Ok((id, r)) => Self::spec_from_id(id, r),
        }
    }

    proof fn lemma_round_trip(m: WorldBorderActionModel, rest: Seq<u8>) {
        let payload = Self::spec_payload_bytes(m) + rest;
        VarInt::lemma_round_trip(Self::spec_id(m), payload);
        assert(Self::spec_serialize(m) + rest =~= spec_varint_serialize(Self::spec_id(m)) + payload);
        Self::lemma_payload_round_trip(m, rest);
    }

    fn mc_serialize(&self, to: &mut Vec<u8>) {
        let ghost start = to@;
        VarInt(self.id()).mc_serialize(to);
        self.serialize_body(to);
        assert(to@ =~= start + Self::spec_serialize(self.model()));
    }

    fn mc_deserialize(data: &[u8]) -> (r: Result<(Self, &[u8]), DeserializeErr>) {
        let (id, rest) = VarInt::mc_deserialize(data)?;
        Self::deserialize_with_id(id.0, rest)
    }
}

/// A scoreboard position as values.
pub enum ScoreboardPositionModel {
    List,
    Sidebar,
    BelowName,
    TeamSpecific(<i8 as Codec>::Model),
}

/// The scoreboard position of the protocol.
#[derive(Debug, Clone, PartialEq, Eq)]
pub enum ScoreboardPosition {
    List,
    Sidebar,
    BelowName,
    TeamSpecific(i8),
}

impl ScoreboardPosition {
    pub open spec fn spec_id(m: ScoreboardPositionModel) -> u8 {
        match m {
            ScoreboardPositionModel::List => 0u8,
            ScoreboardPositionModel::Sidebar => 1u8,
            ScoreboardPositionModel::BelowName => 2u8,
            ScoreboardPositionModel::TeamSpecific(_) => 3u8,
        }
    }

    /// Reads the payload of `m`'s variant from `r`.
    pub open spec fn spec_payload(m: ScoreboardPositionModel, r: Seq<u8>) -> SpecResult<ScoreboardPositionModel> {
        match m {
            ScoreboardPositionModel::List => Ok((ScoreboardPositionModel::List, r)),
            ScoreboardPositionModel::Sidebar => Ok((ScoreboardPositionModel::Sidebar, r)),
            ScoreboardPositionModel::BelowName => Ok((ScoreboardPositionModel::BelowName, r)),
            ScoreboardPositionModel::TeamSpecific(_) => match i8::spec_deserialize(r) {
                Ok((p, r2)) => Ok((ScoreboardPositionModel::TeamSpecific(p), r2)),
                Err(e) => Err(e),
            },
        }
    }

    /// The variant that a discriminant names, with its payload read from
    /// `r`; a discriminant that names no variant is an error carrying it.
    pub open spec fn spec_from_id(id: u8, r: Seq<u8>) -> SpecResult<ScoreboardPositionModel> {
        match id {
            0u8 => Self::spec_payload(ScoreboardPositionModel::List, r),
            1u8 => Self::spec_payload(ScoreboardPositionModel::Sidebar, r),
            2u8 => Self::spec_payload(ScoreboardPositionModel::BelowName, r),
            3u8 => Self::spec_payload(ScoreboardPositionModel::TeamSpecific(arbitrary()), r),
            _ => Err(DeserializeErr::UnknownTag(id as i64)),
        }
    }

    pub open spec fn spec_payload_bytes(m: ScoreboardPositionModel) -> Seq<u8> {
        match m {
            ScoreboardPositionModel::TeamSpecific(p) => i8::spec_serialize(p),
            _ => Seq::empty(),
        }
    }

    /// The discriminant of this variant.
    pub fn id(&self) -> (r: u8)
        ensures
            r == Self::spec_id(self.model()),
    {
        match self {
            ScoreboardPosition::List => 0,
            ScoreboardPosition::Sidebar => 1,
            ScoreboardPosition::BelowName => 2,
            ScoreboardPosition::TeamSpecific(_) => 3,
        }
    }

    /// Writes the payload alone.
    pub fn serialize_body(&self, to: &mut Vec<u8>)
        requires
            Self::encodable(self.model()),
        ensures
            final(to)@ == old(to)@ + Self::spec_payload_bytes(self.model()),
    {
        match self {
            ScoreboardPosition::TeamSpecific(p) => p.mc_serialize(to),
            _ => {},
        }
        assert(to@ =~= to@ + Seq::<u8>::empty());
    }

    /// Reads the payload of the variant that `id` names.
    pub fn deserialize_with_id(id: u8, data: &[u8]) -> (r: Result<(Self, &[u8]), DeserializeErr>)
        ensures
            read_matches(r, |v: Self| v.model(), Self::spec_from_id(id, data@)),
    {
        match id {
            0 => Ok((ScoreboardPosition::List, data)),
            1 => Ok((ScoreboardPosition::Sidebar, data)),
            2 => Ok((ScoreboardPosition::BelowName, data)),
            3 => {
                let (p, rest) = i8::mc_deserialize(data)?;
                Ok((ScoreboardPosition::TeamSpecific(p), rest))
            },
            _ => Err(DeserializeErr::UnknownTag(id as i64)),
        }
    }

    pub proof fn lemma_payload_round_trip(m: ScoreboardPositionModel, rest: Seq<u8>)
        requires
            Self::legal(m),
        ensures
            Self::encodable(m),
            Self::spec_from_id(Self::spec_id(m), Self::spec_payload_bytes(m) + rest) == Ok::<
                (ScoreboardPositionModel, Seq<u8>),
                DeserializeErr,
            >((m, rest)),
    {
        match m {
            ScoreboardPositionModel::TeamSpecific(p) => i8::lemma_round_trip(p, rest),
            _ => assert(Seq::<u8>::empty() + rest =~= rest),
        }
    }
}

impl Codec for ScoreboardPosition {
    type Model = ScoreboardPositionModel;

    open spec fn model(&self) -> ScoreboardPositionModel {
        match self {
            ScoreboardPosition::List => ScoreboardPositionModel::List,
            ScoreboardPosition::Sidebar => ScoreboardPositionModel::Sidebar,
            ScoreboardPosition::BelowName => ScoreboardPositionModel::BelowName,
            ScoreboardPosition::TeamSpecific(p) => ScoreboardPositionModel::TeamSpecific(p.model()),
        }
    }

    open spec fn encodable(m: ScoreboardPositionModel) -> bool {
        match m {
            ScoreboardPositionModel::TeamSpecific(p) => i8::encodable(p),
            _ => true,
        }
    }

    open spec fn legal(m: ScoreboardPositionModel) -> bool {
        match m {
            ScoreboardPositionModel::TeamSpecific(p) => i8::legal(p),
            _ => true,
        }
    }

    /// The discriminant as a byte, then the variant's payload.
    open spec fn spec_serialize(m: ScoreboardPositionModel) -> Seq<u8> {
        seq![Self::spec_id(m)] + Self::spec_payload_bytes(m)
    }

    open spec fn spec_deserialize(s: Seq<u8>) -> SpecResult<ScoreboardPositionModel> {
        match u8::spec_deserialize(s) {
            Err(e) => Err(e),
            Ok((id, r)) => Self::spec_from_id(id, r),
        }
    }

    proof fn lemma_round_trip(m: ScoreboardPositionModel, rest: Seq<u8>) {
        let payload = Self::spec_payload_bytes(m) + rest;
        u8::lemma_round_trip(Self::spec_id(m), payload);
        assert(Self::spec_serialize(m) + rest =~= seq![Self::spec_id(m)] + payload);
        Self::lemma_payload_round_trip(m, rest);
    }

    fn mc_serialize(&self, to: &mut Vec<u8>) {
        let ghost start = to@;
        to.push(self.id());
        self.serialize_body(to);
        assert(to@ =~= start + Self::spec_serialize(self.model()));
    }

    fn mc_deserialize(data: &[u8]) -> (r: Result<(Self, &[u8]), DeserializeErr>) {
        let (id, rest) = u8::mc_deserialize(data)?;
        Self::deserialize_with_id(id, rest)
    }
}

/// The equipment slot of the protocol.
#[derive(Debug, Clone, Copy, PartialEq, Eq, Structural)]
pub enum EquipmentSlot {
    MainHand,
    OffHand,
    ArmorBoots,
    ArmorLeggings,
    ArmorChestplate,
    ArmorHelmet,
}

impl EquipmentSlot {
    pub open spec fn spec_id(m: EquipmentSlot) -> i32 {
        match m {
            EquipmentSlot::MainHand => 0,
            EquipmentSlot::OffHand => 1,
            EquipmentSlot::ArmorBoots => 2,
            EquipmentSlot::ArmorLeggings => 3,
            EquipmentSlot::ArmorChestplate => 4,
            EquipmentSlot::ArmorHelmet => 5,
        }
    }

    pub open spec fn spec_of_id(id: i32) -> Option<EquipmentSlot> {
        match id {
            0 => Some(EquipmentSlot::MainHand),
            1 => Some(EquipmentSlot::OffHand),
            2 => Some(EquipmentSlot::ArmorBoots),
            3 => Some(EquipmentSlot::ArmorLeggings),
            4 => Some(EquipmentSlot::ArmorChestplate),
            5 => Some(EquipmentSlot::ArmorHelmet),
            _ => None,
        }
    }

    /// The discriminant written for this variant.
    pub fn id(&self) -> (r: i32)
        ensures
            r == Self::spec_id(*self),
    {
        match self {
            EquipmentSlot::MainHand => 0,
            EquipmentSlot::OffHand => 1,
            EquipmentSlot::ArmorBoots => 2,
            EquipmentSlot::ArmorLeggings => 3,
            EquipmentSlot::ArmorChestplate => 4,
            EquipmentSlot::ArmorHelmet => 5,
        }
    }
}

impl Codec for EquipmentSlot {
    type Model = EquipmentSlot;

    open spec fn model(&self) -> EquipmentSlot {
        *self
    }

    open spec fn encodable(m: EquipmentSlot) -> bool {
        true
    }

    open spec fn legal(m: EquipmentSlot) -> bool {
        true
    }

    open spec fn spec_serialize(m: EquipmentSlot) -> Seq<u8> {
        spec_varint_serialize(Self::spec_id(m))
    }

    /// A discriminant that names no variant is an error carrying it.
    open spec fn spec_deserialize(s: Seq<u8>) -> SpecResult<EquipmentSlot> {
        match spec_varint_deserialize(s) {
            Err(e) => Err(e),
            Ok((id, rest)) => match Self::spec_of_id(id) {
                Some(v) => Ok((v, rest)),
                None => Err(DeserializeErr::UnknownTag(id as i64)),
            },
        }
    }

    proof fn lemma_round_trip(m: EquipmentSlot, rest: Seq<u8>) {
        VarInt::lemma_round_trip(Self::spec_id(m), rest);
    }

    fn mc_serialize(&self, to: &mut Vec<u8>) {
        VarInt(self.id()).mc_serialize(to);
    }

    fn mc_deserialize(data: &[u8]) -> (r: Result<(Self, &[u8]), DeserializeErr>) {
        let (id, rest) = VarInt::mc_deserialize(data)?;
        let id = id.0;
        match id {
            0 => Ok((EquipmentSlot::MainHand, rest)),
            1 => Ok((EquipmentSlot::OffHand, rest)),
            2 => Ok((EquipmentSlot::ArmorBoots, rest)),
            3 => Ok((EquipmentSlot::ArmorLeggings, rest)),
            4 => Ok((EquipmentSlot::ArmorChestplate, rest)),
            5 => Ok((EquipmentSlot::ArmorHelmet, rest)),
            _ => Err(DeserializeErr::UnknownTag(id as i64)),
        }
    }
}

/// A scoreboard objective action as values.
pub enum ScoreboardObjectiveActionModel {
    Create(<ScoreboardObjectiveSpec as Codec>::Model),
    Remove,
    UpdateText(<ScoreboardObjectiveSpec as Codec>::Model),
}

/// The scoreboard objective action of the protocol.
#[derive(Debug, Clone, PartialEq, Eq)]
pub enum ScoreboardObjectiveAction {
    Create(ScoreboardObjectiveSpec),
    Remove,
    UpdateText(ScoreboardObjectiveSpec),
}

impl ScoreboardObjectiveAction {
    pub open spec fn spec_id(m: ScoreboardObjectiveActionModel) -> u8 {
        match m {
            ScoreboardObjectiveActionModel::Create(_) => 0u8,
            ScoreboardObjectiveActionModel::Remove => 1u8,
            ScoreboardObjectiveActionModel::UpdateText(_) => 2u8,
        }
    }

    /// Reads the payload of `m`'s variant from `r`.
    pub open spec fn spec_payload(m: ScoreboardObjectiveActionModel, r: Seq<u8>) -> SpecResult<ScoreboardObjectiveActionModel> {
        match m {
            ScoreboardObjectiveActionModel::Create(_) => match ScoreboardObjectiveSpec::spec_deserialize(r) {
                Ok((p, r2)) => Ok((ScoreboardObjectiveActionModel::Create(p), r2)),
                Err(e) => Err(e),
            },
            ScoreboardObjectiveActionModel::Remove => Ok((ScoreboardObjectiveActionModel::Remove, r)),
            ScoreboardObjectiveActionModel::UpdateText(_) => match ScoreboardObjectiveSpec::spec_deserialize(r) {
                Ok((p, r2)) => Ok((ScoreboardObjectiveActionModel::UpdateText(p), r2)),
                Err(e) => Err(e),
            },
        }
    }

    /// The variant that a discriminant names, with its payload read from
    /// `r`; a discriminant that names no variant is an error carrying it.
    pub open spec fn spec_from_id(id: u8, r: Seq<u8>) -> SpecResult<ScoreboardObjectiveActionModel> {
        match id {
            0u8 => Self::spec_payload(ScoreboardObjectiveActionModel::Create(arbitrary()), r),
            1u8 => Self::spec_payload(ScoreboardObjectiveActionModel::Remove, r),
            2u8 => Self::spec_payload(ScoreboardObjectiveActionModel::UpdateText(arbitrary()), r),
            _ => Err(DeserializeErr::UnknownTag(id as i64)),
        }
    }

    pub open spec fn spec_payload_bytes(m: ScoreboardObjectiveActionModel) -> Seq<u8> {
        match m {
            ScoreboardObjectiveActionModel::Create(p) => ScoreboardObjectiveSpec::spec_serialize(p),
            ScoreboardObjectiveActionModel::UpdateText(p) => ScoreboardObjectiveSpec::spec_serialize(p),
            _ => Seq::empty(),
        }
    }

    /// The discriminant of this variant.
    pub fn id(&self) -> (r: u8)
        ensures
            r == Self::spec_id(self.model()),
    {
        match self {
            ScoreboardObjectiveAction::Create(_) => 0,
            ScoreboardObjectiveAction::Remove => 1,
            ScoreboardObjectiveAction::UpdateText(_) => 2,
        }
    }

    /// Writes the payload alone.
    pub fn serialize_body(&self, to: &mut Vec<u8>)
        requires
            Self::encodable(self.model()),
        ensures
            final(to)@ == old(to)@ + Self::spec_payload_bytes(self.model()),
    {
        match self {
            ScoreboardObjectiveAction::Create(p) => p.mc_serialize(to),
            ScoreboardObjectiveAction::UpdateText(p) => p.mc_serialize(to),
            _ => {},
        }
        assert(to@ =~= to@ + Seq::<u8>::empty());
    }

    /// Reads the payload of the variant that `id` names.
    pub fn deserialize_with_id(id: u8, data: &[u8]) -> (r: Result<(Self, &[u8]), DeserializeErr>)
        ensures
            read_matches(r, |v: Self| v.model(), Self::spec_from_id(id, data@)),
    {
        match id {
            0 => {
                let (p, rest) = ScoreboardObjectiveSpec::mc_deserialize(data)?;
                Ok((ScoreboardObjectiveAction::Create(p), rest))
            },
            1 => Ok((ScoreboardObjectiveAction::Remove, data)),
            2 => {
                let (p, rest) = ScoreboardObjectiveSpec::mc_deserialize(data)?;
                Ok((ScoreboardObjectiveAction::UpdateText(p), rest))
            },
            _ => Err(DeserializeErr::UnknownTag(id as i64)),
        }
    }

    pub proof fn lemma_payload_round_trip(m: ScoreboardObjectiveActionModel, rest: Seq<u8>)
        requires
            Self::legal(m),
        ensures
            Self::encodable(m),
            Self::spec_from_id(Self::spec_id(m), Self::spec_payload_bytes(m) + rest) == Ok::<
                (ScoreboardObjectiveActionModel, Seq<u8>),
                DeserializeErr,
            >((m, rest)),
    {
        match m {
            ScoreboardObjectiveActionModel::Create(p) => ScoreboardObjectiveSpec::lemma_round_trip(p, rest),
            ScoreboardObjectiveActionModel::UpdateText(p) => ScoreboardObjectiveSpec::lemma_round_trip(p, rest),
            _ => assert(Seq::<u8>::empty() + rest =~= rest),
        }
    }
}

impl Codec for ScoreboardObjectiveAction {
    type Model = ScoreboardObjectiveActionModel;

    open spec fn model(&self) -> ScoreboardObjectiveActionModel {
        match self {
            ScoreboardObjectiveAction::Create(p) => ScoreboardObjectiveActionModel::Create(p.model()),
            ScoreboardObjectiveAction::Remove => ScoreboardObjectiveActionModel::Remove,
            ScoreboardObjectiveAction::UpdateText(p) => ScoreboardObjectiveActionModel::UpdateText(p.model()),
        }
    }

    open spec fn encodable(m: ScoreboardObjectiveActionModel) -> bool {
        match m {
            ScoreboardObjectiveActionModel::Create(p) => ScoreboardObjectiveSpec::encodable(p),
            ScoreboardObjectiveActionModel::UpdateText(p) => ScoreboardObjectiveSpec::encodable(p),
            _ => true,
        }
    }

    open spec fn legal(m: ScoreboardObjectiveActionModel) -> bool {
        match m {
            ScoreboardObjectiveActionModel::Create(p) => ScoreboardObjectiveSpec::legal(p),
            ScoreboardObjectiveActionModel::UpdateText(p) => ScoreboardObjectiveSpec::legal(p),
            _ => true,
        }
    }

    /// The discriminant as a byte, then the variant's payload.
    open spec fn spec_serialize(m: ScoreboardObjectiveActionModel) -> Seq<u8> {
        seq![Self::spec_id(m)] + Self::spec_payload_bytes(m)
    }

    open spec fn spec_deserialize(s: Seq<u8>) -> SpecResult<ScoreboardObjectiveActionModel> {
        match u8::spec_deserialize(s) {
            Err(e) => Err(e),
            Ok((id, r)) => Self::spec_from_id(id, r),
        }
    }

    proof fn lemma_round_trip(m: ScoreboardObjectiveActionModel, rest: Seq<u8>) {
        let payload = Self::spec_payload_bytes(m) + rest;
        u8::lemma_round_trip(Self::spec_id(m), payload);
        assert(Self::spec_serialize(m) + rest =~= seq![Self::spec_id(m)] + payload);
        Self::lemma_payload_round_trip(m, rest);
    }

    fn mc_serialize(&self, to: &mut Vec<u8>) {
        let ghost start = to@;
        to.push(self.id());
        self.serialize_body(to);
        assert(to@ =~= start + Self::spec_serialize(self.model()));
    }

    fn mc_deserialize(data: &[u8]) -> (r: Result<(Self, &[u8]), DeserializeErr>) {
        let (id, rest) = u8::mc_deserialize(data)?;
        Self::deserialize_with_id(id, rest)
    }
}

/// The scoreboard objective kind of the protocol.
#[derive(Debug, Clone, Copy, PartialEq, Eq, Structural)]
pub enum ScoreboardObjectiveKind {
    Integer,
    Hearts,
}

impl ScoreboardObjectiveKind {
    pub open spec fn spec_id(m: ScoreboardObjectiveKind) -> i32 {
        match m {
            ScoreboardObjectiveKind::Integer => 0,
            ScoreboardObjectiveKind::Hearts => 1,
        }
    }

    pub open spec fn spec_of_id(id: i32) -> Option<ScoreboardObjectiveKind> {
        match id {
            0 => Some(ScoreboardObjectiveKind::Integer),
            1 => Some(ScoreboardObjectiveKind::Hearts),
            _ => None,
        }
    }

    /// The discriminant written for this variant.
    pub fn id(&self) -> (r: i32)
        ensures
            r == Self::spec_id(*self),
    {
        match self {
            ScoreboardObjectiveKind::Integer => 0,
            ScoreboardObjectiveKind::Hearts => 1,
        }
    }
}

impl Codec for ScoreboardObjectiveKind {
    type Model = ScoreboardObjectiveKind;

    open spec fn model(&self) -> ScoreboardObjectiveKind {
        *self
    }

    open spec fn encodable(m: ScoreboardObjectiveKind) -> bool {
        true
    }

    open spec fn legal(m: ScoreboardObjectiveKind) -> bool {
        true
    }

    open spec fn spec_serialize(m: ScoreboardObjectiveKind) -> Seq<u8> {
        spec_varint_serialize(Self::spec_id(m))
    }

    /// A discriminant that names no variant is an error carrying it.
    open spec fn spec_deserialize(s: Seq<u8>) -> SpecResult<ScoreboardObjectiveKind> {
        match spec_varint_deserialize(s) {
            Err(e) => Err(e),
            Ok((id, rest)) => match Self::spec_of_id(id) {
                Some(v) => Ok((v, rest)),
                None => Err(DeserializeErr::UnknownTag(id as i64)),
            },
        }
    }

    proof fn lemma_round_trip(m: ScoreboardObjectiveKind, rest: Seq<u8>) {
        VarInt::lemma_round_trip(Self::spec_id(m), rest);
    }

    fn mc_serialize(&self, to: &mut Vec<u8>) {
        VarInt(self.id()).mc_serialize(to);
    }

    fn mc_deserialize(data: &[u8]) -> (r: Result<(Self, &[u8]), DeserializeErr>) {
        let (id, rest) = VarInt::mc_deserialize(data)?;
        let id = id.0;
        match id {
            0 => Ok((ScoreboardObjectiveKind::Integer, rest)),
            1 => Ok((ScoreboardObjectiveKind::Hearts, rest)),
            _ => Err(DeserializeErr::UnknownTag(id as i64)),
        }
    }
}

/// The advancement frame type of the protocol.
#[derive(Debug, Clone, Copy, PartialEq, Eq, Structural)]
pub enum AdvancementFrameType {
    Task,
    Challenge,
    Goal,
}

impl AdvancementFrameType {
    pub open spec fn spec_id(m: AdvancementFrameType) -> i32 {
        match m {
            AdvancementFrameType::Task => 0,
            AdvancementFrameType::Challenge => 1,
            AdvancementFrameType::Goal => 2,
        }
    }

    pub open spec fn spec_of_id(id: i32) -> Option<AdvancementFrameType> {
        match id {
            0 => Some(AdvancementFrameType::Task),
            1 => Some(AdvancementFrameType::Challenge),
            2 => Some(AdvancementFrameType::Goal),
            _ => None,
        }
    }

    /// The discriminant written for this variant.
    pub fn id(&self) -> (r: i32)
        ensures
            r == Self::spec_id(*self),
    {
        match self {
            AdvancementFrameType::Task => 0,
            AdvancementFrameType::Challenge => 1,
            AdvancementFrameType::Goal => 2,
        }
    }
}

impl Codec for AdvancementFrameType {
    type Model = AdvancementFrameType;

    open spec fn model(&self) -> AdvancementFrameType {
        *self
    }

    open spec fn encodable(m: AdvancementFrameType) -> bool {
        true
    }

    open spec fn legal(m: AdvancementFrameType) -> bool {
        true
    }

    open spec fn spec_serialize(m: AdvancementFrameType) -> Seq<u8> {
        spec_varint_serialize(Self::spec_id(m))
    }

    /// A discriminant that names no variant is an error carrying it.
    open spec fn spec_deserialize(s: Seq<u8>) -> SpecResult<AdvancementFrameType> {
        match spec_varint_deserialize(s) {
            Err(e) => Err(e),
            Ok((id, rest)) => match Self::spec_of_id(id) {
                Some(v) => Ok((v, rest)),
                None => Err(DeserializeErr::UnknownTag(id as i64)),
            },
        }
    }

    proof fn lemma_round_trip(m: AdvancementFrameType, rest: Seq<u8>) {
        VarInt::lemma_round_trip(Self::spec_id(m), rest);
    }

    fn mc_serialize(&self, to: &mut Vec<u8>) {
        VarInt(self.id()).mc_serialize(to);
    }

    fn mc_deserialize(data: &[u8]) -> (r: Result<(Self, &[u8]), DeserializeErr>) {
        let (id, rest) = VarInt::mc_deserialize(data)?;
        let id = id.0;
        match id {
            0 => Ok((AdvancementFrameType::Task, rest)),
            1 => Ok((AdvancementFrameType::Challenge, rest)),
            2 => Ok((AdvancementFrameType::Goal, rest)),
            _ => Err(DeserializeErr::UnknownTag(id as i64)),
        }
    }
}

/// The entity property modifier operation of the protocol.
#[derive(Debug, Clone, Copy, PartialEq, Eq, Structural)]
pub enum EntityPropertyModifierOperation {
    AddSubtractAmount,
    AddSubtractAmountPercentOfCurrent,
    MultiplyByAmountPercent,
}

impl EntityPropertyModifierOperation {
    pub open spec fn spec_id(m: EntityPropertyModifierOperation) -> u8 {
        match m {
            EntityPropertyModifierOperation::AddSubtractAmount => 0,
            EntityPropertyModifierOperation::AddSubtractAmountPercentOfCurrent => 1,
            EntityPropertyModifierOperation::MultiplyByAmountPercent => 2,
        }
    }

    pub open spec fn spec_of_id(id: u8) -> Option<EntityPropertyModifierOperation> {
        match id {
            0 => Some(EntityPropertyModifierOperation::AddSubtractAmount),
            1 => Some(EntityPropertyModifierOperation::AddSubtractAmountPercentOfCurrent),
            2 => Some(EntityPropertyModifierOperation::MultiplyByAmountPercent),
            _ => None,
        }
    }

    /// The discriminant written for this variant.
    pub fn id(&self) -> (r: u8)
        ensures
            r == Self::spec_id(*self),
    {
        match self {
            EntityPropertyModifierOperation::AddSubtractAmount => 0,
            EntityPropertyModifierOperation::AddSubtractAmountPercentOfCurrent => 1,
            EntityPropertyModifierOperation::MultiplyByAmountPercent => 2,
        }
    }
}

impl Codec for EntityPropertyModifierOperation {
    type Model = EntityPropertyModifierOperation;

    open spec fn model(&self) -> EntityPropertyModifierOperation {
        *self
    }

    open spec fn encodable(m: EntityPropertyModifierOperation) -> bool {
        true
    }

    open spec fn legal(m: EntityPropertyModifierOperation) -> bool {
        true
    }

    open spec fn spec_serialize(m: EntityPropertyModifierOperation) -> Seq<u8> {
        seq![Self::spec_id(m)]
    }

    /// A discriminant that names no variant is an error carrying it.
    open spec fn spec_deserialize(s: Seq<u8>) -> SpecResult<EntityPropertyModifierOperation> {
        match u8::spec_deserialize(s) {
            Err(e) => Err(e),
            Ok((id, rest)) => match Self::spec_of_id(id) {
                Some(v) => Ok((v, rest)),
                None => Err(DeserializeErr::UnknownTag(id as i64)),
            },
        }
    }

    proof fn lemma_round_trip(m: EntityPropertyModifierOperation, rest: Seq<u8>) {
        u8::lemma_round_trip(Self::spec_id(m), rest);
    }

    fn mc_serialize(&self, to: &mut Vec<u8>) {
        to.push(self.id());
    }

    fn mc_deserialize(data: &[u8]) -> (r: Result<(Self, &[u8]), DeserializeErr>) {
        let (id, rest) = u8::mc_deserialize(data)?;
        match id {
            0 => Ok((EntityPropertyModifierOperation::AddSubtractAmount, rest)),
            1 => Ok((EntityPropertyModifierOperation::AddSubtractAmountPercentOfCurrent, rest)),
            2 => Ok((EntityPropertyModifierOperation::MultiplyByAmountPercent, rest)),
            _ => Err(DeserializeErr::UnknownTag(id as i64)),
        }
    }
}

/// The entity effect flags: one bit per flag.
#[derive(Debug, Clone, Copy, PartialEq, Eq, Structural)]
pub struct EntityEffectFlags {
    pub ambient: bool,
    pub show_particles: bool,
    pub show_icon: bool,
}

impl Codec for EntityEffectFlags {
    type Model = EntityEffectFlags;

    open spec fn model(&self) -> EntityEffectFlags {
        *self
    }

    open spec fn encodable(m: EntityEffectFlags) -> bool {
        true
    }

    open spec fn legal(m: EntityEffectFlags) -> bool {
        true
    }

    /// One byte with a bit per flag.
    open spec fn spec_serialize(m: EntityEffectFlags) -> Seq<u8> {
        seq![((if m.ambient { 1u8 } else { 0u8 }) + (if m.show_particles { 2u8 } else { 0u8 }) + (if m.show_icon { 4u8 } else { 0u8 })) as u8]
    }

    /// Bits that name no flag are ignored.
    open spec fn spec_deserialize(s: Seq<u8>) -> SpecResult<EntityEffectFlags> {
        if s.len() == 0 {
            Err(DeserializeErr::Eof)
        } else {
            Ok((EntityEffectFlags { ambient: (s[0] / 1) % 2 == 1, show_particles: (s[0] / 2) % 2 == 1, show_icon: (s[0] / 4) % 2 == 1 }, s.skip(1)))
        }
    }

    proof fn lemma_round_trip(m: EntityEffectFlags, rest: Seq<u8>) {
        assert((Self::spec_serialize(m) + rest).skip(1) =~= rest);
    }

    fn mc_serialize(&self, to: &mut Vec<u8>) {
        to.push(((if self.ambient { 1u8 } else { 0u8 }) + (if self.show_particles { 2u8 } else { 0u8 }) + (if self.show_icon { 4u8 } else { 0u8 })) as u8);
    }

    fn mc_deserialize(data: &[u8]) -> (r: Result<(Self, &[u8]), DeserializeErr>) {
        let (b, rest) = take_bytes(data, 1)?;
        Ok((EntityEffectFlags { ambient: (b[0] / 1) % 2 == 1, show_particles: (b[0] / 2) % 2 == 1, show_icon: (b[0] / 4) % 2 == 1 }, rest))
    }
}

/// The client status action of the protocol.
#[derive(Debug, Clone, Copy, PartialEq, Eq, Structural)]
pub enum ClientStatusAction {
    PerformRespawn,
    RequestStats,
}

impl ClientStatusAction {
    pub open spec fn spec_id(m: ClientStatusAction) -> i32 {
        match m {
            ClientStatusAction::PerformRespawn => 0,
            ClientStatusAction::RequestStats => 1,
        }
    }

    pub open spec fn spec_of_id(id: i32) -> Option<ClientStatusAction> {
        match id {
            0 => Some(ClientStatusAction::PerformRespawn),
            1 => Some(ClientStatusAction::RequestStats),
            _ => None,
        }
    }

    /// The discriminant written for this variant.
    pub fn id(&self) -> (r: i32)
        ensures
            r == Self::spec_id(*self),
    {
        match self {
            ClientStatusAction::PerformRespawn => 0,
            ClientStatusAction::RequestStats => 1,
        }
    }
}

impl Codec for ClientStatusAction {
    type Model = ClientStatusAction;

    open spec fn model(&self) -> ClientStatusAction {
        *self
    }

    open spec fn encodable(m: ClientStatusAction) -> bool {
        true
    }

    open spec fn legal(m: ClientStatusAction) -> bool {
        true
    }

    open spec fn spec_serialize(m: ClientStatusAction) -> Seq<u8> {
        spec_varint_serialize(Self::spec_id(m))
    }

    /// A discriminant that names no variant is an error carrying it.
    open spec fn spec_deserialize(s: Seq<u8>) -> SpecResult<ClientStatusAction> {
        match spec_varint_deserialize(s) {
            Err(e) => Err(e),
            Ok((id, rest)) => match Self::spec_of_id(id) {
                Some(v) => Ok((v, rest)),
                None => Err(DeserializeErr::UnknownTag(id as i64)),
            },
        }
    }

    proof fn lemma_round_trip(m: ClientStatusAction, rest: Seq<u8>) {
        VarInt::lemma_round_trip(Self::spec_id(m), rest);
    }

    fn mc_serialize(&self, to: &mut Vec<u8>) {
        VarInt(self.id()).mc_serialize(to);
    }

    fn mc_deserialize(data: &[u8]) -> (r: Result<(Self, &[u8]), DeserializeErr>) {
        let (id, rest) = VarInt::mc_deserialize(data)?;
        let id = id.0;
        match id {
            0 => Ok((ClientStatusAction::PerformRespawn, rest)),
            1 => Ok((ClientStatusAction::RequestStats, rest)),
            _ => Err(DeserializeErr::UnknownTag(id as i64)),
        }
    }
}

/// The client chat mode of the protocol.
#[derive(Debug, Clone, Copy, PartialEq, Eq, Structural)]
pub enum ClientChatMode {
    Enabled,
    CommandsOnly,
    Hidden,
}

impl ClientChatMode {
    pub open spec fn spec_id(m: ClientChatMode) -> i32 {
        match m {
            ClientChatMode::Enabled => 0,
            ClientChatMode::CommandsOnly => 1,
            ClientChatMode::Hidden => 2,
        }
    }

    pub open spec fn spec_of_id(id: i32) -> Option<ClientChatMode> {
        match id {
            0 => Some(ClientChatMode::Enabled),
            1 => Some(ClientChatMode::CommandsOnly),
            2 => Some(ClientChatMode::Hidden),
            _ => None,
        }
    }

    /// The discriminant written for this variant.
    pub fn id(&self) -> (r: i32)
        ensures
            r == Self::spec_id(*self),
    {
        match self {
            ClientChatMode::Enabled => 0,
            ClientChatMode::CommandsOnly => 1,
            ClientChatMode::Hidden => 2,
        }
    }
}

impl Codec for ClientChatMode {
    type Model = ClientChatMode;

    open spec fn model(&self) -> ClientChatMode {
        *self
    }

    open spec fn encodable(m: ClientChatMode) -> bool {
        true
    }

    open spec fn legal(m: ClientChatMode) -> bool {
        true
    }

    open spec fn spec_serialize(m: ClientChatMode) -> Seq<u8> {
        spec_varint_serialize(Self::spec_id(m))
    }

    /// A discriminant that names no variant is an error carrying it.
    open spec fn spec_deserialize(s: Seq<u8>) -> SpecResult<ClientChatMode> {
        match spec_varint_deserialize(s) {
            Err(e) => Err(e),
            Ok((id, rest)) => match Self::spec_of_id(id) {
                Some(v) => Ok((v, rest)),
                None => Err(DeserializeErr::UnknownTag(id as i64)),
            },
        }
    }

    proof fn lemma_round_trip(m: ClientChatMode, rest: Seq<u8>) {
        VarInt::lemma_round_trip(Self::spec_id(m), rest);
    }

    fn mc_serialize(&self, to: &mut Vec<u8>) {
        VarInt(self.id()).mc_serialize(to);
    }

    fn mc_deserialize(data: &[u8]) -> (r: Result<(Self, &[u8]), DeserializeErr>) {
        let (id, rest) = VarInt::mc_deserialize(data)?;
        let id = id.0;
        match id {
            0 => Ok((ClientChatMode::Enabled, rest)),
            1 => Ok((ClientChatMode::CommandsOnly, rest)),
            2 => Ok((ClientChatMode::Hidden, rest)),
            _ => Err(DeserializeErr::UnknownTag(id as i64)),
        }
    }
}

/// The client main hand of the protocol.
#[derive(Debug, Clone, Copy, PartialEq, Eq, Structural)]
pub enum ClientMainHand {
    Left,
    Right,
}

impl ClientMainHand {
    pub open spec fn spec_id(m: ClientMainHand) -> i32 {
        match m {
            ClientMainHand::Left => 0,
            ClientMainHand::Right => 1,
        }
    }

    pub open spec fn spec_of_id(id: i32) -> Option<ClientMainHand> {
        match id {
            0 => Some(ClientMainHand::Left),
            1 => Some(ClientMainHand::Right),
            _ => None,
        }
    }

    /// The discriminant written for this variant.
    pub fn id(&self) -> (r: i32)
        ensures
            r == Self::spec_id(*self),
    {
        match self {
            ClientMainHand::Left => 0,
            ClientMainHand::Right => 1,
        }
    }
}

impl Codec for ClientMainHand {
    type Model = ClientMainHand;

    open spec fn model(&self) -> ClientMainHand {
        *self
    }

    open spec fn encodable(m: ClientMainHand) -> bool {
        true
    }

    open spec fn legal(m: ClientMainHand) -> bool {
        true
    }

    open spec fn spec_serialize(m: ClientMainHand) -> Seq<u8> {
        spec_varint_serialize(Self::spec_id(m))
    }

    /// A discriminant that names no variant is an error carrying it.
    open spec fn spec_deserialize(s: Seq<u8>) -> SpecResult<ClientMainHand> {
        match spec_varint_deserialize(s) {
            Err(e) => Err(e),
            Ok((id, rest)) => match Self::spec_of_id(id) {
                Some(v) => Ok((v, rest)),
                None => Err(DeserializeErr::UnknownTag(id as i64)),
            },
        }
    }

    proof fn lemma_round_trip(m: ClientMainHand, rest: Seq<u8>) {
        VarInt::lemma_round_trip(Self::spec_id(m), rest);
    }

    fn mc_serialize(&self, to: &mut Vec<u8>) {
        VarInt(self.id()).mc_serialize(to);
    }

    fn mc_deserialize(data: &[u8]) -> (r: Result<(Self, &[u8]), DeserializeErr>) {
        let (id, rest) = VarInt::mc_deserialize(data)?;
        let id = id.0;
        match id {
            0 => Ok((ClientMainHand::Left, rest)),
            1 => Ok((ClientMainHand::Right, rest)),
            _ => Err(DeserializeErr::UnknownTag(id as i64)),
        }
    }
}

/// The client displayed skin parts: one bit per flag.
#[derive(Debug, Clone, Copy, PartialEq, Eq, Structural)]
pub struct ClientDisplayedSkinParts {
    pub cape_enabled: bool,
    pub jacket_enabled: bool,
    pub left_sleeve_enabled: bool,
    pub right_sleeve_enabled: bool,
    pub left_pants_leg_enabled: bool,
    pub right_pant_legs_enabled: bool,
    pub hat_enabled: bool,
}

impl Codec for ClientDisplayedSkinParts {
    type Model = ClientDisplayedSkinParts;

    open spec fn model(&self) -> ClientDisplayedSkinParts {
        *self
    }

    open spec fn encodable(m: ClientDisplayedSkinParts) -> bool {
        true
    }

    open spec fn legal(m: ClientDisplayedSkinParts) -> bool {
        true
    }

    /// One byte with a bit per flag.
    open spec fn spec_serialize(m: ClientDisplayedSkinParts) -> Seq<u8> {
        seq![((if m.cape_enabled { 1u8 } else { 0u8 }) + (if m.jacket_enabled { 2u8 } else { 0u8 }) + (if m.left_sleeve_enabled { 4u8 } else { 0u8 }) + (if m.right_sleeve_enabled { 8u8 } else { 0u8 }) + (if m.left_pants_leg_enabled { 16u8 } else { 0u8 }) + (if m.right_pant_legs_enabled { 32u8 } else { 0u8 }) + (if m.hat_enabled { 64u8 } else { 0u8 })) as u8]
    }

    /// Bits that name no flag are ignored.
    open spec fn spec_deserialize(s: Seq<u8>) -> SpecResult<ClientDisplayedSkinParts> {
        if s.len() == 0 {
            Err(DeserializeErr::Eof)
        } else {
            Ok((ClientDisplayedSkinParts { cape_enabled: (s[0] / 1) % 2 == 1, jacket_enabled: (s[0] / 2) % 2 == 1, left_sleeve_enabled: (s[0] / 4) % 2 == 1, right_sleeve_enabled: (s[0] / 8) % 2 == 1, left_pants_leg_enabled: (s[0] / 16) % 2 == 1, right_pant_legs_enabled: (s[0] / 32) % 2 == 1, hat_enabled: (s[0] / 64) % 2 == 1 }, s.skip(1)))
        }
    }

    proof fn lemma_round_trip(m: ClientDisplayedSkinParts, rest: Seq<u8>) {
        assert((Self::spec_serialize(m) + rest).skip(1) =~= rest);
    }

    fn mc_serialize(&self, to: &mut Vec<u8>) {
        to.push(((if self.cape_enabled { 1u8 } else { 0u8 }) + (if self.jacket_enabled { 2u8 } else { 0u8 }) + (if self.left_sleeve_enabled { 4u8 } else { 0u8 }) + (if self.right_sleeve_enabled { 8u8 } else { 0u8 }) + (if self.left_pants_leg_enabled { 16u8 } else { 0u8 }) + (if self.right_pant_legs_enabled { 32u8 } else { 0u8 }) + (if self.hat_enabled { 64u8 } else { 0u8 })) as u8);
    }

    fn mc_deserialize(data: &[u8]) -> (r: Result<(Self, &[u8]), DeserializeErr>) {
        let (b, rest) = take_bytes(data, 1)?;
        Ok((ClientDisplayedSkinParts { cape_enabled: (b[0] / 1) % 2 == 1, jacket_enabled: (b[0] / 2) % 2 == 1, left_sleeve_enabled: (b[0] / 4) % 2 == 1, right_sleeve_enabled: (b[0] / 8) % 2 == 1, left_pants_leg_enabled: (b[0] / 16) % 2 == 1, right_pant_legs_enabled: (b[0] / 32) % 2 == 1, hat_enabled: (b[0] / 64) % 2 == 1 }, rest))
    }
}

/// The inventory operation mode of the protocol.
#[derive(Debug, Clone, Copy, PartialEq, Eq, Structural)]
pub enum InventoryOperationMode {
    MouseClick,
    ShiftClick,
    NumberClick,
    MiddleClick,
    DropClick,
    Drag,
    DoubleClick,
}

impl InventoryOperationMode {
    pub open spec fn spec_id(m: InventoryOperationMode) -> i32 {
        match m {
            InventoryOperationMode::MouseClick => 0,
            InventoryOperationMode::ShiftClick => 1,
            InventoryOperationMode::NumberClick => 2,
            InventoryOperationMode::MiddleClick => 3,
            InventoryOperationMode::DropClick => 4,
            InventoryOperationMode::Drag => 5,
            InventoryOperationMode::DoubleClick => 6,
        }
    }

    pub open spec fn spec_of_id(id: i32) -> Option<InventoryOperationMode> {
        match id {
            0 => Some(InventoryOperationMode::MouseClick),
            1 => Some(InventoryOperationMode::ShiftClick),
            2 => Some(InventoryOperationMode::NumberClick),
            3 => Some(InventoryOperationMode::MiddleClick),
            4 => Some(InventoryOperationMode::DropClick),
            5 => Some(InventoryOperationMode::Drag),
            6 => Some(InventoryOperationMode::DoubleClick),
            _ => None,
        }
    }

    /// The discriminant written for this variant.
    pub fn id(&self) -> (r: i32)
        ensures
            r == Self::spec_id(*self),
    {
        match self {
            InventoryOperationMode::MouseClick => 0,
            InventoryOperationMode::ShiftClick => 1,
            InventoryOperationMode::NumberClick => 2,
            InventoryOperationMode::MiddleClick => 3,
            InventoryOperationMode::DropClick => 4,
            InventoryOperationMode::Drag => 5,
            InventoryOperationMode::DoubleClick => 6,
        }
    }
}

impl Codec for InventoryOperationMode {
    type Model = InventoryOperationMode;

    open spec fn model(&self) -> InventoryOperationMode {
        *self
    }

    open spec fn encodable(m: InventoryOperationMode) -> bool {
        true
    }

    open spec fn legal(m: InventoryOperationMode) -> bool {
        true
    }

    open spec fn spec_serialize(m: InventoryOperationMode) -> Seq<u8> {
        spec_varint_serialize(Self::spec_id(m))
    }

    /// A discriminant that names no variant is an error carrying it.
    open spec fn spec_deserialize(s: Seq<u8>) -> SpecResult<InventoryOperationMode> {
        match spec_varint_deserialize(s) {
            Err(e) => Err(e),
            Ok((id, rest)) => match Self::spec_of_id(id) {
                Some(v) => Ok((v, rest)),
                None => Err(DeserializeErr::UnknownTag(id as i64)),
            },
        }
    }

    proof fn lemma_round_trip(m: InventoryOperationMode, rest: Seq<u8>) {
        VarInt::lemma_round_trip(Self::spec_id(m), rest);
    }

    fn mc_serialize(&self, to: &mut Vec<u8>) {
        VarInt(self.id()).mc_serialize(to);
    }

    fn mc_deserialize(data: &[u8]) -> (r: Result<(Self, &[u8]), DeserializeErr>) {
        let (id, rest) = VarInt::mc_deserialize(data)?;
        let id = id.0;
        match id {
            0 => Ok((InventoryOperationMode::MouseClick, rest)),
            1 => Ok((InventoryOperationMode::ShiftClick, rest)),
            2 => Ok((InventoryOperationMode::NumberClick, rest)),
            3 => Ok((InventoryOperationMode::MiddleClick, rest)),
            4 => Ok((InventoryOperationMode::DropClick, rest)),
            5 => Ok((InventoryOperationMode::Drag, rest)),
            6 => Ok((InventoryOperationMode::DoubleClick, rest)),
            _ => Err(DeserializeErr::UnknownTag(id as i64)),
        }
    }
}

/// A interact kind as values.
pub enum InteractKindModel {
    Interact(<Hand as Codec>::Model),
    Attack,
    InteractAt(<InteractAtSpec as Codec>::Model),
}

/// The interact kind of the protocol.
#[derive(Debug, Clone, PartialEq, Eq)]
pub enum InteractKind {
    Interact(Hand),
    Attack,
    InteractAt(InteractAtSpec),
}

impl InteractKind {
    pub open spec fn spec_id(m: InteractKindModel) -> i32 {
        match m {
            InteractKindModel::Interact(_) => 0i32,
            InteractKindModel::Attack => 1i32,
            InteractKindModel::InteractAt(_) => 2i32,
        }
    }

    /// Reads the payload of `m`'s variant from `r`.
    pub open spec fn spec_payload(m: InteractKindModel, r: Seq<u8>) -> SpecResult<InteractKindModel> {
        match m {
            InteractKindModel::Interact(_) => match Hand::spec_deserialize(r) {
                Ok((p, r2)) => Ok((InteractKindModel::Interact(p), r2)),
                Err(e) => Err(e),
            },
            InteractKindModel::Attack => Ok((InteractKindModel::Attack, r)),
            InteractKindModel::InteractAt(_) => match InteractAtSpec::spec_deserialize(r) {
                Ok((p, r2)) => Ok((InteractKindModel::InteractAt(p), r2)),
                Err(e) => Err(e),
            },
        }
    }

    /// The variant that a discriminant names, with its payload read from
    /// `r`; a discriminant that names no variant is an error carrying it.
    pub open spec fn spec_from_id(id: i32, r: Seq<u8>) -> SpecResult<InteractKindModel> {
        match id {
            0i32 => Self::spec_payload(InteractKindModel::Interact(arbitrary()), r),
            1i32 => Self::spec_payload(InteractKindModel::Attack, r),
            2i32 => Self::spec_payload(InteractKindModel::InteractAt(arbitrary()), r),
            _ => Err(DeserializeErr::UnknownTag(id as i64)),
        }
    }

    pub open spec fn spec_payload_bytes(m: InteractKindModel) -> Seq<u8> {
        match m {
            InteractKindModel::Interact(p) => Hand::spec_serialize(p),
            InteractKindModel::InteractAt(p) => InteractAtSpec::spec_serialize(p),
            _ => Seq::empty(),
        }
    }

    /// The discriminant of this variant.
    pub fn id(&self) -> (r: i32)
        ensures
            r == Self::spec_id(self.model()),
    {
        match self {
            InteractKind::Interact(_) => 0,
            InteractKind::Attack => 1,
            InteractKind::InteractAt(_) => 2,
        }
    }

    /// Writes the payload alone.
    pub fn serialize_body(&self, to: &mut Vec<u8>)
        requires
            Self::encodable(self.model()),
        ensures
            final(to)@ == old(to)@ + Self::spec_payload_bytes(self.model()),
    {
        match self {
            InteractKind::Interact(p) => p.mc_serialize(to),
            InteractKind::InteractAt(p) => p.mc_serialize(to),
            _ => {},
        }
        assert(to@ =~= to@ + Seq::<u8>::empty());
    }

    /// Reads the payload of the variant that `id` names.
    pub fn deserialize_with_id(id: i32, data: &[u8]) -> (r: Result<(Self, &[u8]), DeserializeErr>)
        ensures
            read_matches(r, |v: Self| v.model(), Self::spec_from_id(id, data@)),
    {
        match id {
            0 => {
                let (p, rest) = Hand::mc_deserialize(data)?;
                Ok((InteractKind::Interact(p), rest))
            },
            1 => Ok((InteractKind::Attack, data)),
            2 => {
                let (p, rest) = InteractAtSpec::mc_deserialize(data)?;
                Ok((InteractKind::InteractAt(p), rest))
            },
            _ => Err(DeserializeErr::UnknownTag(id as i64)),
        }
    }

    pub proof fn lemma_payload_round_trip(m: InteractKindModel, rest: Seq<u8>)
        requires
            Self::legal(m),
        ensures
            Self::encodable(m),
            Self::spec_from_id(Self::spec_id(m), Self::spec_payload_bytes(m) + rest) == Ok::<
                (InteractKindModel, Seq<u8>),
                DeserializeErr,
            >((m, rest)),
    {
        match m {
            InteractKindModel::Interact(p) => Hand::lemma_round_trip(p, rest),
            InteractKindModel::InteractAt(p) => InteractAtSpec::lemma_round_trip(p, rest),
            _ => assert(Seq::<u8>::empty() + rest =~= rest),
        }
    }
}

impl Codec for InteractKind {
    type Model = InteractKindModel;

    open spec fn model(&self) -> InteractKindModel {
        match self {
            InteractKind::Interact(p) => InteractKindModel::Interact(p.model()),
            InteractKind::Attack => InteractKindModel::Attack,
            InteractKind::InteractAt(p) => InteractKindModel::InteractAt(p.model()),
        }
    }

    open spec fn encodable(m: InteractKindModel) -> bool {
        match m {
            InteractKindModel::Interact(p) => Hand::encodable(p),
            InteractKindModel::InteractAt(p) => InteractAtSpec::encodable(p),
            _ => true,
        }
    }

    open spec fn legal(m: InteractKindModel) -> bool {
        match m {
            InteractKindModel::Interact(p) => Hand::legal(p),
            InteractKindModel::InteractAt(p) => InteractAtSpec::legal(p),
            _ => true,
        }
    }

    /// The discriminant as a `VarInt`, then the variant's payload.
    open spec fn spec_serialize(m: InteractKindModel) -> Seq<u8> {
        spec_varint_serialize(Self::spec_id(m)) + Self::spec_payload_bytes(m)
    }

    open spec fn spec_deserialize(s: Seq<u8>) -> SpecResult<InteractKindModel> {
        match spec_varint_deserialize(s) {
            Err(e) => Err(e),
            Ok((id, r)) => Self::spec_from_id(id, r),
        }
    }

    proof fn lemma_round_trip(m: InteractKindModel, rest: Seq<u8>) {
        let payload = Self::spec_payload_bytes(m) + rest;
        VarInt::lemma_round_trip(Self::spec_id(m), payload);
        assert(Self::spec_serialize(m) + rest =~= spec_varint_serialize(Self::spec_id(m)) + payload);
        Self::lemma_payload_round_trip(m, rest);
    }

    fn mc_serialize(&self, to: &mut Vec<u8>) {
        let ghost start = to@;
        VarInt(self.id()).mc_serialize(to);
        self.serialize_body(to);
        assert(to@ =~= start + Self::spec_serialize(self.model()));
    }

    fn mc_deserialize(data: &[u8]) -> (r: Result<(Self, &[u8]), DeserializeErr>) {
        let (id, rest) = VarInt::mc_deserialize(data)?;
        Self::deserialize_with_id(id.0, rest)
    }
}

/// The client player abilities: one bit per flag.
#[derive(Debug, Clone, Copy, PartialEq, Eq, Structural)]
pub struct ClientPlayerAbilities {
    pub creative: bool,
    pub flying: bool,
    pub fly_enabled: bool,
    pub damaged_disabled: bool,
}

impl Codec for ClientPlayerAbilities {
    type Model = ClientPlayerAbilities;

    open spec fn model(&self) -> ClientPlayerAbilities {
        *self
    }

    open spec fn encodable(m: ClientPlayerAbilities) -> bool {
        true
    }

    open spec fn legal(m: ClientPlayerAbilities) -> bool {
        true
    }

    /// One byte with a bit per flag.
    open spec fn spec_serialize(m: ClientPlayerAbilities) -> Seq<u8> {
        seq![((if m.creative { 1u8 } else { 0u8 }) + (if m.flying { 2u8 } else { 0u8 }) + (if m.fly_enabled { 4u8 } else { 0u8 }) + (if m.damaged_disabled { 8u8 } else { 0u8 })) as u8]
    }

    /// Bits that name no flag are ignored.
    open spec fn spec_deserialize(s: Seq<u8>) -> SpecResult<ClientPlayerAbilities> {
        if s.len() == 0 {
            Err(DeserializeErr::Eof)
        } else {
            Ok((ClientPlayerAbilities { creative: (s[0] / 1) % 2 == 1, flying: (s[0] / 2) % 2 == 1, fly_enabled: (s[0] / 4) % 2 == 1, damaged_disabled: (s[0] / 8) % 2 == 1 }, s.skip(1)))
        }
    }

    proof fn lemma_round_trip(m: ClientPlayerAbilities, rest: Seq<u8>) {
        assert((Self::spec_serialize(m) + rest).skip(1) =~= rest);
    }

    fn mc_serialize(&self, to: &mut Vec<u8>) {
        to.push(((if self.creative { 1u8 } else { 0u8 }) + (if self.flying { 2u8 } else { 0u8 }) + (if self.fly_enabled { 4u8 } else { 0u8 }) + (if self.damaged_disabled { 8u8 } else { 0u8 })) as u8);
    }

    fn mc_deserialize(data: &[u8]) -> (r: Result<(Self, &[u8]), DeserializeErr>) {
        let (b, rest) = take_bytes(data, 1)?;
        Ok((ClientPlayerAbilities { creative: (b[0] / 1) % 2 == 1, flying: (b[0] / 2) % 2 == 1, fly_enabled: (b[0] / 4) % 2 == 1, damaged_disabled: (b[0] / 8) % 2 == 1 }, rest))
    }
}

/// The player digging status of the protocol.
#[derive(Debug, Clone, Copy, PartialEq, Eq, Structural)]
pub enum PlayerDiggingStatus {
    Started,
    Cancelled,
    Finished,
    DropStack,
    DropItem,
    ShootArrowOrFishEating,
    SwapItemInHand,
}

impl PlayerDiggingStatus {
    pub open spec fn spec_id(m: PlayerDiggingStatus) -> i32 {
        match m {
            PlayerDiggingStatus::Started => 0,
            PlayerDiggingStatus::Cancelled => 1,
            PlayerDiggingStatus::Finished => 2,
            PlayerDiggingStatus::DropStack => 3,
            PlayerDiggingStatus::DropItem => 4,
            PlayerDiggingStatus::ShootArrowOrFishEating => 5,
            PlayerDiggingStatus::SwapItemInHand => 6,
        }
    }

    pub open spec fn spec_of_id(id: i32) -> Option<PlayerDiggingStatus> {
        match id {
            0 => Some(PlayerDiggingStatus::Started),
            1 => Some(PlayerDiggingStatus::Cancelled),
            2 => Some(PlayerDiggingStatus::Finished),
            3 => Some(PlayerDiggingStatus::DropStack),
            4 => Some(PlayerDiggingStatus::DropItem),
            5 => Some(PlayerDiggingStatus::ShootArrowOrFishEating),
            6 => Some(PlayerDiggingStatus::SwapItemInHand),
            _ => None,
        }
    }

    /// The discriminant written for this variant.
    pub fn id(&self) -> (r: i32)
        ensures
            r == Self::spec_id(*self),
    {
        match self {
            PlayerDiggingStatus::Started => 0,
            PlayerDiggingStatus::Cancelled => 1,
            PlayerDiggingStatus::Finished => 2,
            PlayerDiggingStatus::DropStack => 3,
            PlayerDiggingStatus::DropItem => 4,
            PlayerDiggingStatus::ShootArrowOrFishEating => 5,
            PlayerDiggingStatus::SwapItemInHand => 6,
        }
    }
}

impl Codec for PlayerDiggingStatus {
    type Model = PlayerDiggingStatus;

    open spec fn model(&self) -> PlayerDiggingStatus {
        *self
    }

    open spec fn encodable(m: PlayerDiggingStatus) -> bool {
        true
    }

    open spec fn legal(m: PlayerDiggingStatus) -> bool {
        true
    }

    open spec fn spec_serialize(m: PlayerDiggingStatus) -> Seq<u8> {
        spec_varint_serialize(Self::spec_id(m))
    }

    /// A discriminant that names no variant is an error carrying it.
    open spec fn spec_deserialize(s: Seq<u8>) -> SpecResult<PlayerDiggingStatus> {
        match spec_varint_deserialize(s) {
            Err(e) => Err(e),
            Ok((id, rest)) => match Self::spec_of_id(id) {
                Some(v) => Ok((v, rest)),
                None => Err(DeserializeErr::UnknownTag(id as i64)),
            },
        }
    }

    proof fn lemma_round_trip(m: PlayerDiggingStatus, rest: Seq<u8>) {
        VarInt::lemma_round_trip(Self::spec_id(m), rest);
    }

    fn mc_serialize(&self, to: &mut Vec<u8>) {
        VarInt(self.id()).mc_serialize(to);
    }

    fn mc_deserialize(data: &[u8]) -> (r: Result<(Self, &[u8]), DeserializeErr>) {
        let (id, rest) = VarInt::mc_deserialize(data)?;
        let id = id.0;
        match id {
            0 => Ok((PlayerDiggingStatus::Started, rest)),
            1 => Ok((PlayerDiggingStatus::Cancelled, rest)),
            2 => Ok((PlayerDiggingStatus::Finished, rest)),
            3 => Ok((PlayerDiggingStatus::DropStack, rest)),
            4 => Ok((PlayerDiggingStatus::DropItem, rest)),
            5 => Ok((PlayerDiggingStatus::ShootArrowOrFishEating, rest)),
            6 => Ok((PlayerDiggingStatus::SwapItemInHand, rest)),
            _ => Err(DeserializeErr::UnknownTag(id as i64)),
        }
    }
}

/// The digging face of the protocol.
#[derive(Debug, Clone, Copy, PartialEq, Eq, Structural)]
pub enum DiggingFace {
    Bottom,
    Top,
    North,
    South,
    West,
    East,
}

impl DiggingFace {
    pub open spec fn spec_id(m: DiggingFace) -> u8 {
        match m {
            DiggingFace::Bottom => 0,
            DiggingFace::Top => 1,
            DiggingFace::North => 2,
            DiggingFace::South => 3,
            DiggingFace::West => 4,
            DiggingFace::East => 5,
        }
    }

    pub open spec fn spec_of_id(id: u8) -> Option<DiggingFace> {
        match id {
            0 => Some(DiggingFace::Bottom),
            1 => Some(DiggingFace::Top),
            2 => Some(DiggingFace::North),
            3 => Some(DiggingFace::South),
            4 => Some(DiggingFace::West),
            5 => Some(DiggingFace::East),
            _ => None,
        }
    }

    /// The discriminant written for this variant.
    pub fn id(&self) -> (r: u8)
        ensures
            r == Self::spec_id(*self),
    {
        match self {
            DiggingFace::Bottom => 0,
            DiggingFace::Top => 1,
            DiggingFace::North => 2,
            DiggingFace::South => 3,
            DiggingFace::West => 4,
            DiggingFace::East => 5,
        }
    }
}

impl Codec for DiggingFace {
    type Model = DiggingFace;

    open spec fn model(&self) -> DiggingFace {
        *self
    }

    open spec fn encodable(m: DiggingFace) -> bool {
        true
    }

    open spec fn legal(m: DiggingFace) -> bool {
        true
    }

    open spec fn spec_serialize(m: DiggingFace) -> Seq<u8> {
        seq![Self::spec_id(m)]
    }

    /// A discriminant that names no variant is an error carrying it.
    open spec fn spec_deserialize(s: Seq<u8>) -> SpecResult<DiggingFace> {
        match u8::spec_deserialize(s) {
            Err(e) => Err(e),
            Ok((id, rest)) => match Self::spec_of_id(id) {
                Some(v) => Ok((v, rest)),
                None => Err(DeserializeErr::UnknownTag(id as i64)),
            },
        }
    }

    proof fn lemma_round_trip(m: DiggingFace, rest: Seq<u8>) {
        u8::lemma_round_trip(Self::spec_id(m), rest);
    }

    fn mc_serialize(&self, to: &mut Vec<u8>) {
        to.push(self.id());
    }

    fn mc_deserialize(data: &[u8]) -> (r: Result<(Self, &[u8]), DeserializeErr>) {
        let (id, rest) = u8::mc_deserialize(data)?;
        match id {
            0 => Ok((DiggingFace::Bottom, rest)),
            1 => Ok((DiggingFace::Top, rest)),
            2 => Ok((DiggingFace::North, rest)),
            3 => Ok((DiggingFace::South, rest)),
            4 => Ok((DiggingFace::West, rest)),
            5 => Ok((DiggingFace::East, rest)),
            _ => Err(DeserializeErr::UnknownTag(id as i64)),
        }
    }
}

/// The entity action kind of the protocol.
#[derive(Debug, Clone, Copy, PartialEq, Eq, Structural)]
pub enum EntityActionKind {
    StartSneaking,
    StopSneaking,
    LeaveBed,
    StartSprinting,
    StopSprinting,
    StartJumpWithHorse,
    StopJumpWithHorse,
    OpenHorseInventory,
    StartFlyingWithElytra,
}

impl EntityActionKind {
    pub open spec fn spec_id(m: EntityActionKind) -> i32 {
        match m {
            EntityActionKind::StartSneaking => 0,
            EntityActionKind::StopSneaking => 1,
            EntityActionKind::LeaveBed => 2,
            EntityActionKind::StartSprinting => 3,
            EntityActionKind::StopSprinting => 4,
            EntityActionKind::StartJumpWithHorse => 5,
            EntityActionKind::StopJumpWithHorse => 6,
            EntityActionKind::OpenHorseInventory => 7,
            EntityActionKind::StartFlyingWithElytra => 8,
        }
    }

    pub open spec fn spec_of_id(id: i32) -> Option<EntityActionKind> {
        match id {
            0 => Some(EntityActionKind::StartSneaking),
            1 => Some(EntityActionKind::StopSneaking),
            2 => Some(EntityActionKind::LeaveBed),
            3 => Some(EntityActionKind::StartSprinting),
            4 => Some(EntityActionKind::StopSprinting),
            5 => Some(EntityActionKind::StartJumpWithHorse),
            6 => Some(EntityActionKind::StopJumpWithHorse),
            7 => Some(EntityActionKind::OpenHorseInventory),
            8 => Some(EntityActionKind::StartFlyingWithElytra),
            _ => None,
        }
    }

    /// The discriminant written for this variant.
    pub fn id(&self) -> (r: i32)
        ensures
            r == Self::spec_id(*self),
    {
        match self {
            EntityActionKind::StartSneaking => 0,
            EntityActionKind::StopSneaking => 1,
            EntityActionKind::LeaveBed => 2,
            EntityActionKind::StartSprinting => 3,
            EntityActionKind::StopSprinting => 4,
            EntityActionKind::StartJumpWithHorse => 5,
            EntityActionKind::StopJumpWithHorse => 6,
            EntityActionKind::OpenHorseInventory => 7,
            EntityActionKind::StartFlyingWithElytra => 8,
        }
    }
}

impl Codec for EntityActionKind {
    type Model = EntityActionKind;

    open spec fn model(&self) -> EntityActionKind {
        *self
    }

    open spec fn encodable(m: EntityActionKind) -> bool {
        true
    }

    open spec fn legal(m: EntityActionKind) -> bool {
        true
    }

    open spec fn spec_serialize(m: EntityActionKind) -> Seq<u8> {
        spec_varint_serialize(Self::spec_id(m))
    }

    /// A discriminant that names no variant is an error carrying it.
    open spec fn spec_deserialize(s: Seq<u8>) -> SpecResult<EntityActionKind> {
        match spec_varint_deserialize(s) {
            Err(e) => Err(e),
            Ok((id, rest)) => match Self::spec_of_id(id) {
                Some(v) => Ok((v, rest)),
                None => Err(DeserializeErr::UnknownTag(id as i64)),
            },
        }
    }

    proof fn lemma_round_trip(m: EntityActionKind, rest: Seq<u8>) {
        VarInt::lemma_round_trip(Self::spec_id(m), rest);
    }

    fn mc_serialize(&self, to: &mut Vec<u8>) {
        VarInt(self.id()).mc_serialize(to);
    }

    fn mc_deserialize(data: &[u8]) -> (r: Result<(Self, &[u8]), DeserializeErr>) {
        let (id, rest) = VarInt::mc_deserialize(data)?;
        let id = id.0;
        match id {
            0 => Ok((EntityActionKind::StartSneaking, rest)),
            1 => Ok((EntityActionKind::StopSneaking, rest)),
            2 => Ok((EntityActionKind::LeaveBed, rest)),
            3 => Ok((EntityActionKind::StartSprinting, rest)),
            4 => Ok((EntityActionKind::StopSprinting, rest)),
            5 => Ok((EntityActionKind::StartJumpWithHorse, rest)),
            6 => Ok((EntityActionKind::StopJumpWithHorse, rest)),
            7 => Ok((EntityActionKind::OpenHorseInventory, rest)),
            8 => Ok((EntityActionKind::StartFlyingWithElytra, rest)),
            _ => Err(DeserializeErr::UnknownTag(id as i64)),
        }
    }
}

/// The steer vehicle flags: one bit per flag.
#[derive(Debug, Clone, Copy, PartialEq, Eq, Structural)]
pub struct SteerVehicleFlags {
    pub jump: bool,
    pub unmount: bool,
}

impl Codec for SteerVehicleFlags {
    type Model = SteerVehicleFlags;

    open spec fn model(&self) -> SteerVehicleFlags {
        *self
    }

    open spec fn encodable(m: SteerVehicleFlags) -> bool {
        true
    }

    open spec fn legal(m: SteerVehicleFlags) -> bool {
        true
    }

    /// One byte with a bit per flag.
    open spec fn spec_serialize(m: SteerVehicleFlags) -> Seq<u8> {
        seq![((if m.jump { 1u8 } else { 0u8 }) + (if m.unmount { 2u8 } else { 0u8 })) as u8]
    }

    /// Bits that name no flag are ignored.
    open spec fn spec_deserialize(s: Seq<u8>) -> SpecResult<SteerVehicleFlags> {
        if s.len() == 0 {
            Err(DeserializeErr::Eof)
        } else {
            Ok((SteerVehicleFlags { jump: (s[0] / 1) % 2 == 1, unmount: (s[0] / 2) % 2 == 1 }, s.skip(1)))
        }
    }

    proof fn lemma_round_trip(m: SteerVehicleFlags, rest: Seq<u8>) {
        assert((Self::spec_serialize(m) + rest).skip(1) =~= rest);
    }

    fn mc_serialize(&self, to: &mut Vec<u8>) {
        to.push(((if self.jump { 1u8 } else { 0u8 }) + (if self.unmount { 2u8 } else { 0u8 })) as u8);
    }

    fn mc_deserialize(data: &[u8]) -> (r: Result<(Self, &[u8]), DeserializeErr>) {
        let (b, rest) = take_bytes(data, 1)?;
        Ok((SteerVehicleFlags { jump: (b[0] / 1) % 2 == 1, unmount: (b[0] / 2) % 2 == 1 }, rest))
    }
}

/// A recipe book status as values.
pub enum RecipeBookStatusModel {
    Displayed(<String as Codec>::Model),
    States(<RecipeBookStates as Codec>::Model),
}

/// The recipe book status of the protocol.
#[derive(Debug, Clone, PartialEq, Eq)]
pub enum RecipeBookStatus {
    Displayed(String),
    States(RecipeBookStates),
}

impl RecipeBookStatus {
    pub open spec fn spec_id(m: RecipeBookStatusModel) -> i32 {
        match m {
            RecipeBookStatusModel::Displayed(_) => 0i32,
            RecipeBookStatusModel::States(_) => 1i32,
        }
    }

    /// Reads the payload of `m`'s variant from `r`.
    pub open spec fn spec_payload(m: RecipeBookStatusModel, r: Seq<u8>) -> SpecResult<RecipeBookStatusModel> {
        match m {
            RecipeBookStatusModel::Displayed(_) => match String::spec_deserialize(r) {
                Ok((p, r2)) => Ok((RecipeBookStatusModel::Displayed(p), r2)),
                Err(e) => Err(e),
            },
            RecipeBookStatusModel::States(_) => match RecipeBookStates::spec_deserialize(r) {
                Ok((p, r2)) => Ok((RecipeBookStatusModel::States(p), r2)),
                Err(e) => Err(e),
            },
        }
    }

    /// The variant that a discriminant names, with its payload read from
    /// `r`; a discriminant that names no variant is an error carrying it.
    pub open spec fn spec_from_id(id: i32, r: Seq<u8>) -> SpecResult<RecipeBookStatusModel> {
        match id {
            0i32 => Self::spec_payload(RecipeBookStatusModel::Displayed(arbitrary()), r),
            1i32 => Self::spec_payload(RecipeBookStatusModel::States(arbitrary()), r),
            _ => Err(DeserializeErr::UnknownTag(id as i64)),
        }
    }

    pub open spec fn spec_payload_bytes(m: RecipeBookStatusModel) -> Seq<u8> {
        match m {
            RecipeBookStatusModel::Displayed(p) => String::spec_serialize(p),
            RecipeBookStatusModel::States(p) => RecipeBookStates::spec_serialize(p),
        }
    }

    /// The discriminant of this variant.
    pub fn id(&self) -> (r: i32)
        ensures
            r == Self::spec_id(self.model()),
    {
        match self {
            RecipeBookStatus::Displayed(_) => 0,
            RecipeBookStatus::States(_) => 1,
        }
    }

    /// Writes the payload alone.
    pub fn serialize_body(&self, to: &mut Vec<u8>)
        requires
            Self::encodable(self.model()),
        ensures
            final(to)@ == old(to)@ + Self::spec_payload_bytes(self.model()),
    {
        match self {
            RecipeBookStatus::Displayed(p) => p.mc_serialize(to),
            RecipeBookStatus::States(p) => p.mc_serialize(to),
        }
        assert(to@ =~= to@ + Seq::<u8>::empty());
    }

    /// Reads the payload of the variant that `id` names.
    pub fn deserialize_with_id(id: i32, data: &[u8]) -> (r: Result<(Self, &[u8]), DeserializeErr>)
        ensures
            read_matches(r, |v: Self| v.model(), Self::spec_from_id(id, data@)),
    {
        match id {
            0 => {
                let (p, rest) = String::mc_deserialize(data)?;
                Ok((RecipeBookStatus::Displayed(p), rest))
            },
            1 => {
                let (p, rest) = RecipeBookStates::mc_deserialize(data)?;
                Ok((RecipeBookStatus::States(p), rest))
            },
            _ => Err(DeserializeErr::UnknownTag(id as i64)),
        }
    }

    pub proof fn lemma_payload_round_trip(m: RecipeBookStatusModel, rest: Seq<u8>)
        requires
            Self::legal(m),
        ensures
            Self::encodable(m),
            Self::spec_from_id(Self::spec_id(m), Self::spec_payload_bytes(m) + rest) == Ok::<
                (RecipeBookStatusModel, Seq<u8>),
                DeserializeErr,
            >((m, rest)),
    {
        match m {
            RecipeBookStatusModel::Displayed(p) => String::lemma_round_trip(p, rest),
            RecipeBookStatusModel::States(p) => RecipeBookStates::lemma_round_trip(p, rest),
        }
    }
}

impl Codec for RecipeBookStatus {
    type Model = RecipeBookStatusModel;

    open spec fn model(&self) -> RecipeBookStatusModel {
        match self {
            RecipeBookStatus::Displayed(p) => RecipeBookStatusModel::Displayed(p.model()),
            RecipeBookStatus::States(p) => RecipeBookStatusModel::States(p.model()),
        }
    }

    open spec fn encodable(m: RecipeBookStatusModel) -> bool {
        match m {
            RecipeBookStatusModel::Displayed(p) => String::encodable(p),
            RecipeBookStatusModel::States(p) => RecipeBookStates::encodable(p),
        }
    }

    open spec fn legal(m: RecipeBookStatusModel) -> bool {
        match m {
            RecipeBookStatusModel::Displayed(p) => String::legal(p),
            RecipeBookStatusModel::States(p) => RecipeBookStates::legal(p),
        }
    }

    /// The discriminant as a `VarInt`, then the variant's payload.
    open spec fn spec_serialize(m: RecipeBookStatusModel) -> Seq<u8> {
        spec_varint_serialize(Self::spec_id(m)) + Self::spec_payload_bytes(m)
    }

    open spec fn spec_deserialize(s: Seq<u8>) -> SpecResult<RecipeBookStatusModel> {
        match spec_varint_deserialize(s) {
            Err(e) => Err(e),
            Ok((id, r)) => Self::spec_from_id(id, r),
        }
    }

    proof fn lemma_round_trip(m: RecipeBookStatusModel, rest: Seq<u8>) {
        let payload = Self::spec_payload_bytes(m) + rest;
        VarInt::lemma_round_trip(Self::spec_id(m), payload);
        assert(Self::spec_serialize(m) + rest =~= spec_varint_serialize(Self::spec_id(m)) + payload);
        Self::lemma_payload_round_trip(m, rest);
    }

    fn mc_serialize(&self, to: &mut Vec<u8>) {
        let ghost start = to@;
        VarInt(self.id()).mc_serialize(to);
        self.serialize_body(to);
        assert(to@ =~= start + Self::spec_serialize(self.model()));
    }

    fn mc_deserialize(data: &[u8]) -> (r: Result<(Self, &[u8]), DeserializeErr>) {
        let (id, rest) = VarInt::mc_deserialize(data)?;
        Self::deserialize_with_id(id.0, rest)
    }
}

/// The resource pack status of the protocol.
#[derive(Debug, Clone, Copy, PartialEq, Eq, Structural)]
pub enum ResourcePackStatus {
    Loaded,
    Declined,
    FailedDownload,
    Accepted,
}

impl ResourcePackStatus {
    pub open spec fn spec_id(m: ResourcePackStatus) -> i32 {
        match m {
            ResourcePackStatus::Loaded => 0,
            ResourcePackStatus::Declined => 1,
            ResourcePackStatus::FailedDownload => 2,
            ResourcePackStatus::Accepted => 3,
        }
    }

    pub open spec fn spec_of_id(id: i32) -> Option<ResourcePackStatus> {
        match id {
            0 => Some(ResourcePackStatus::Loaded),
            1 => Some(ResourcePackStatus::Declined),
            2 => Some(ResourcePackStatus::FailedDownload),
            3 => Some(ResourcePackStatus::Accepted),
            _ => None,
        }
    }

    /// The discriminant written for this variant.
    pub fn id(&self) -> (r: i32)
        ensures
            r == Self::spec_id(*self),
    {
        match self {
            ResourcePackStatus::Loaded => 0,
            ResourcePackStatus::Declined => 1,
            ResourcePackStatus::FailedDownload => 2,
            ResourcePackStatus::Accepted => 3,
        }
    }
}

impl Codec for ResourcePackStatus {
    type Model = ResourcePackStatus;

    open spec fn model(&self) -> ResourcePackStatus {
        *self
    }

    open spec fn encodable(m: ResourcePackStatus) -> bool {
        true
    }

    open spec fn legal(m: ResourcePackStatus) -> bool {
        true
    }

    open spec fn spec_serialize(m: ResourcePackStatus) -> Seq<u8> {
        spec_varint_serialize(Self::spec_id(m))
    }

    /// A discriminant that names no variant is an error carrying it.
    open spec fn spec_deserialize(s: Seq<u8>) -> SpecResult<ResourcePackStatus> {
        match spec_varint_deserialize(s) {
            Err(e) => Err(e),
            Ok((id, rest)) => match Self::spec_of_id(id) {
                Some(v) => Ok((v, rest)),
                None => Err(DeserializeErr::UnknownTag(id as i64)),
            },
        }
    }

    proof fn lemma_round_trip(m: ResourcePackStatus, rest: Seq<u8>) {
        VarInt::lemma_round_trip(Self::spec_id(m), rest);
    }

    fn mc_serialize(&self, to: &mut Vec<u8>) {
        VarInt(self.id()).mc_serialize(to);
    }

    fn mc_deserialize(data: &[u8]) -> (r: Result<(Self, &[u8]), DeserializeErr>) {
        let (id, rest) = VarInt::mc_deserialize(data)?;
        let id = id.0;
        match id {
            0 => Ok((ResourcePackStatus::Loaded, rest)),
            1 => Ok((ResourcePackStatus::Declined, rest)),
            2 => Ok((ResourcePackStatus::FailedDownload, rest)),
            3 => Ok((ResourcePackStatus::Accepted, rest)),
            _ => Err(DeserializeErr::UnknownTag(id as i64)),
        }
    }
}

/// A advancement tab action as values.
pub enum AdvancementTabActionModel {
    Opened(<String as Codec>::Model),
    Closed,
}

/// The advancement tab action of the protocol.
#[derive(Debug, Clone, PartialEq, Eq)]
pub enum AdvancementTabAction {
    Opened(String),
    Closed,
}

impl AdvancementTabAction {
    pub open spec fn spec_id(m: AdvancementTabActionModel) -> i32 {
        match m {
            AdvancementTabActionModel::Opened(_) => 0i32,
            AdvancementTabActionModel::Closed => 1i32,
        }
    }

    /// Reads the payload of `m`'s variant from `r`.
    pub open spec fn spec_payload(m: AdvancementTabActionModel, r: Seq<u8>) -> SpecResult<AdvancementTabActionModel> {
        match m {
            AdvancementTabActionModel::Opened(_) => match String::spec_deserialize(r) {
                Ok((p, r2)) => Ok((AdvancementTabActionModel::Opened(p), r2)),
                Err(e) => Err(e),
            },
            AdvancementTabActionModel::Closed => Ok((AdvancementTabActionModel::Closed, r)),
        }
    }

    /// The variant that a discriminant names, with its payload read from
    /// `r`; a discriminant that names no variant is an error carrying it.
    pub open spec fn spec_from_id(id: i32, r: Seq<u8>) -> SpecResult<AdvancementTabActionModel> {
        match id {
            0i32 => Self::spec_payload(AdvancementTabActionModel::Opened(arbitrary()), r),
            1i32 => Self::spec_payload(AdvancementTabActionModel::Closed, r),
            _ => Err(DeserializeErr::UnknownTag(id as i64)),
        }
    }

    pub open spec fn spec_payload_bytes(m: AdvancementTabActionModel) -> Seq<u8> {
        match m {
            AdvancementTabActionModel::Opened(p) => String::spec_serialize(p),
            _ => Seq::empty(),
        }
    }

    /// The discriminant of this variant.
    pub fn id(&self) -> (r: i32)
        ensures
            r == Self::spec_id(self.model()),
    {
        match self {
            AdvancementTabAction::Opened(_) => 0,
            AdvancementTabAction::Closed => 1,
        }
    }

    /// Writes the payload alone.
    pub fn serialize_body(&self, to: &mut Vec<u8>)
        requires
            Self::encodable(self.model()),
        ensures
            final(to)@ == old(to)@ + Self::spec_payload_bytes(self.model()),
    {
        match self {
            AdvancementTabAction::Opened(p) => p.mc_serialize(to),
            _ => {},
        }
        assert(to@ =~= to@ + Seq::<u8>::empty());
    }

    /// Reads the payload of the variant that `id` names.
    pub fn deserialize_with_id(id: i32, data: &[u8]) -> (r: Result<(Self, &[u8]), DeserializeErr>)
        ensures
            read_matches(r, |v: Self| v.model(), Self::spec_from_id(id, data@)),
    {
        match id {
            0 => {
                let (p, rest) = String::mc_deserialize(data)?;
                Ok((AdvancementTabAction::Opened(p), rest))
            },
            1 => Ok((AdvancementTabAction::Closed, data)),
            _ => Err(DeserializeErr::UnknownTag(id as i64)),
        }
    }

    pub proof fn lemma_payload_round_trip(m: AdvancementTabActionModel, rest: Seq<u8>)
        requires
            Self::legal(m),
        ensures
            Self::encodable(m),
            Self::spec_from_id(Self::spec_id(m), Self::spec_payload_bytes(m) + rest) == Ok::<
                (AdvancementTabActionModel, Seq<u8>),
                DeserializeErr,
            >((m, rest)),
    {
        match m {
            AdvancementTabActionModel::Opened(p) => String::lemma_round_trip(p, rest),
            _ => assert(Seq::<u8>::empty() + rest =~= rest),
        }
    }
}

impl Codec for AdvancementTabAction {
    type Model = AdvancementTabActionModel;

    open spec fn model(&self) -> AdvancementTabActionModel {
        match self {
            AdvancementTabAction::Opened(p) => AdvancementTabActionModel::Opened(p.model()),
            AdvancementTabAction::Closed => AdvancementTabActionModel::Closed,
        }
    }

    open spec fn encodable(m: AdvancementTabActionModel) -> bool {
        match m {
            AdvancementTabActionModel::Opened(p) => String::encodable(p),
            _ => true,
        }
    }

    open spec fn legal(m: AdvancementTabActionModel) -> bool {
        match m {
            AdvancementTabActionModel::Opened(p) => String::legal(p),
            _ => true,
        }
    }

    /// The discriminant as a `VarInt`, then the variant's payload.
    open spec fn spec_serialize(m: AdvancementTabActionModel) -> Seq<u8> {
        spec_varint_serialize(Self::spec_id(m)) + Self::spec_payload_bytes(m)
    }

    open spec fn spec_deserialize(s: Seq<u8>) -> SpecResult<AdvancementTabActionModel> {
        match spec_varint_deserialize(s) {
            Err(e) => Err(e),
            Ok((id, r)) => Self::spec_from_id(id, r),
        }
    }

    proof fn lemma_round_trip(m: AdvancementTabActionModel, rest: Seq<u8>) {
        let payload = Self::spec_payload_bytes(m) + rest;
        VarInt::lemma_round_trip(Self::spec_id(m), payload);
        assert(Self::spec_serialize(m) + rest =~= spec_varint_serialize(Self::spec_id(m)) + payload);
        Self::lemma_payload_round_trip(m, rest);
    }

    fn mc_serialize(&self, to: &mut Vec<u8>) {
        let ghost start = to@;
        VarInt(self.id()).mc_serialize(to);
        self.serialize_body(to);
        assert(to@ =~= start + Self::spec_serialize(self.model()));
    }

    fn mc_deserialize(data: &[u8]) -> (r: Result<(Self, &[u8]), DeserializeErr>) {
        let (id, rest) = VarInt::mc_deserialize(data)?;
        Self::deserialize_with_id(id.0, rest)
    }
}

/// The command block mode of the protocol.
#[derive(Debug, Clone, Copy, PartialEq, Eq, Structural)]
pub enum CommandBlockMode {
    Sequence,
    Auto,
    Redstone,
}

impl CommandBlockMode {
    pub open spec fn spec_id(m: CommandBlockMode) -> i32 {
        match m {
            CommandBlockMode::Sequence => 0,
            CommandBlockMode::Auto => 1,
            CommandBlockMode::Redstone => 2,
        }
    }

    pub open spec fn spec_of_id(id: i32) -> Option<CommandBlockMode> {
        match id {
            0 => Some(CommandBlockMode::Sequence),
            1 => Some(CommandBlockMode::Auto),
            2 => Some(CommandBlockMode::Redstone),
            _ => None,
        }
    }

    /// The discriminant written for this variant.
    pub fn id(&self) -> (r: i32)
        ensures
            r == Self::spec_id(*self),
    {
        match self {
            CommandBlockMode::Sequence => 0,
            CommandBlockMode::Auto => 1,
            CommandBlockMode::Redstone => 2,
        }
    }
}

impl Codec for CommandBlockMode {
    type Model = CommandBlockMode;

    open spec fn model(&self) -> CommandBlockMode {
        *self
    }

    open spec fn encodable(m: CommandBlockMode) -> bool {
        true
    }

    open spec fn legal(m: CommandBlockMode) -> bool {
        true
    }

    open spec fn spec_serialize(m: CommandBlockMode) -> Seq<u8> {
        spec_varint_serialize(Self::spec_id(m))
    }

    /// A discriminant that names no variant is an error carrying it.
    open spec fn spec_deserialize(s: Seq<u8>) -> SpecResult<CommandBlockMode> {
        match spec_varint_deserialize(s) {
            Err(e) => Err(e),
            Ok((id, rest)) => match Self::spec_of_id(id) {
                Some(v) => Ok((v, rest)),
                None => Err(DeserializeErr::UnknownTag(id as i64)),
            },
        }
    }

    proof fn lemma_round_trip(m: CommandBlockMode, rest: Seq<u8>) {
        VarInt::lemma_round_trip(Self::spec_id(m), rest);
    }

    fn mc_serialize(&self, to: &mut Vec<u8>) {
        VarInt(self.id()).mc_serialize(to);
    }

    fn mc_deserialize(data: &[u8]) -> (r: Result<(Self, &[u8]), DeserializeErr>) {
        let (id, rest) = VarInt::mc_deserialize(data)?;
        let id = id.0;
        match id {
            0 => Ok((CommandBlockMode::Sequence, rest)),
            1 => Ok((CommandBlockMode::Auto, rest)),
            2 => Ok((CommandBlockMode::Redstone, rest)),
            _ => Err(DeserializeErr::UnknownTag(id as i64)),
        }
    }
}

/// The command block flags: one bit per flag.
#[derive(Debug, Clone, Copy, PartialEq, Eq, Structural)]
pub struct CommandBlockFlags {
    pub track_output: bool,
    pub conditional: bool,
    pub automatic: bool,
}

impl Codec for CommandBlockFlags {
    type Model = CommandBlockFlags;

    open spec fn model(&self) -> CommandBlockFlags {
        *self
    }

    open spec fn encodable(m: CommandBlockFlags) -> bool {
        true
    }

    open spec fn legal(m: CommandBlockFlags) -> bool {
        true
    }

    /// One byte with a bit per flag.
    open spec fn spec_serialize(m: CommandBlockFlags) -> Seq<u8> {
        seq![((if m.track_output { 1u8 } else { 0u8 }) + (if m.conditional { 2u8 } else { 0u8 }) + (if m.automatic { 4u8 } else { 0u8 })) as u8]
    }

    /// Bits that name no flag are ignored.
    open spec fn spec_deserialize(s: Seq<u8>) -> SpecResult<CommandBlockFlags> {
        if s.len() == 0 {
            Err(DeserializeErr::Eof)
        } else {
            Ok((CommandBlockFlags { track_output: (s[0] / 1) % 2 == 1, conditional: (s[0] / 2) % 2 == 1, automatic: (s[0] / 4) % 2 == 1 }, s.skip(1)))
        }
    }

    proof fn lemma_round_trip(m: CommandBlockFlags, rest: Seq<u8>) {
        assert((Self::spec_serialize(m) + rest).skip(1) =~= rest);
    }

    fn mc_serialize(&self, to: &mut Vec<u8>) {
        to.push(((if self.track_output { 1u8 } else { 0u8 }) + (if self.conditional { 2u8 } else { 0u8 }) + (if self.automatic { 4u8 } else { 0u8 })) as u8);
    }

    fn mc_deserialize(data: &[u8]) -> (r: Result<(Self, &[u8]), DeserializeErr>) {
        let (b, rest) = take_bytes(data, 1)?;
        Ok((CommandBlockFlags { track_output: (b[0] / 1) % 2 == 1, conditional: (b[0] / 2) % 2 == 1, automatic: (b[0] / 4) % 2 == 1 }, rest))
    }
}

/// The update structure block action of the protocol.
#[derive(Debug, Clone, Copy, PartialEq, Eq, Structural)]
pub enum UpdateStructureBlockAction {
    UpdateData,
    SaveStructure,
    LoadStructure,
    DetectSize,
}

impl UpdateStructureBlockAction {
    pub open spec fn spec_id(m: UpdateStructureBlockAction) -> i32 {
        match m {
            UpdateStructureBlockAction::UpdateData => 0,
            UpdateStructureBlockAction::SaveStructure => 1,
            UpdateStructureBlockAction::LoadStructure => 2,
            UpdateStructureBlockAction::DetectSize => 3,
        }
    }

    pub open spec fn spec_of_id(id: i32) -> Option<UpdateStructureBlockAction> {
        match id {
            0 => Some(UpdateStructureBlockAction::UpdateData),
            1 => Some(UpdateStructureBlockAction::SaveStructure),
            2 => Some(UpdateStructureBlockAction::LoadStructure),
            3 => Some(UpdateStructureBlockAction::DetectSize),
            _ => None,
        }
    }

    /// The discriminant written for this variant.
    pub fn id(&self) -> (r: i32)
        ensures
            r == Self::spec_id(*self),
    {
        match self {
            UpdateStructureBlockAction::UpdateData => 0,
            UpdateStructureBlockAction::SaveStructure => 1,
            UpdateStructureBlockAction::LoadStructure => 2,
            UpdateStructureBlockAction::DetectSize => 3,
        }
    }
}

impl Codec for UpdateStructureBlockAction {
    type Model = UpdateStructureBlockAction;

    open spec fn model(&self) -> UpdateStructureBlockAction {
        *self
    }

    open spec fn encodable(m: UpdateStructureBlockAction) -> bool {
        true
    }

    open spec fn legal(m: UpdateStructureBlockAction) -> bool {
        true
    }

    open spec fn spec_serialize(m: UpdateStructureBlockAction) -> Seq<u8> {
        spec_varint_serialize(Self::spec_id(m))
    }

    /// A discriminant that names no variant is an error carrying it.
    open spec fn spec_deserialize(s: Seq<u8>) -> SpecResult<UpdateStructureBlockAction> {
        match spec_varint_deserialize(s) {
            Err(e) => Err(e),
            Ok((id, rest)) => match Self::spec_of_id(id) {
                Some(v) => Ok((v, rest)),
                None => Err(DeserializeErr::UnknownTag(id as i64)),
            },
        }
    }

    proof fn lemma_round_trip(m: UpdateStructureBlockAction, rest: Seq<u8>) {
        VarInt::lemma_round_trip(Self::spec_id(m), rest);
    }

    fn mc_serialize(&self, to: &mut Vec<u8>) {
        VarInt(self.id()).mc_serialize(to);
    }

    fn mc_deserialize(data: &[u8]) -> (r: Result<(Self, &[u8]), DeserializeErr>) {
        let (id, rest) = VarInt::mc_deserialize(data)?;
        let id = id.0;
        match id {
            0 => Ok((UpdateStructureBlockAction::UpdateData, rest)),
            1 => Ok((UpdateStructureBlockAction::SaveStructure, rest)),
            2 => Ok((UpdateStructureBlockAction::LoadStructure, rest)),
            3 => Ok((UpdateStructureBlockAction::DetectSize, rest)),
            _ => Err(DeserializeErr::UnknownTag(id as i64)),
        }
    }
}

/// The update structure block mode of the protocol.
#[derive(Debug, Clone, Copy, PartialEq, Eq, Structural)]
pub enum UpdateStructureBlockMode {
    Save,
    Load,
    Corner,
    Data,
}

impl UpdateStructureBlockMode {
    pub open spec fn spec_id(m: UpdateStructureBlockMode) -> i32 {
        match m {
            UpdateStructureBlockMode::Save => 0,
            UpdateStructureBlockMode::Load => 1,
            UpdateStructureBlockMode::Corner => 2,
            UpdateStructureBlockMode::Data => 3,
        }
    }

    pub open spec fn spec_of_id(id: i32) -> Option<UpdateStructureBlockMode> {
        match id {
            0 => Some(UpdateStructureBlockMode::Save),
            1 => Some(UpdateStructureBlockMode::Load),
            2 => Some(UpdateStructureBlockMode::Corner),
            3 => Some(UpdateStructureBlockMode::Data),
            _ => None,
        }
    }

    /// The discriminant written for this variant.
    pub fn id(&self) -> (r: i32)
        ensures
            r == Self::spec_id(*self),
    {
        match self {
            UpdateStructureBlockMode::Save => 0,
            UpdateStructureBlockMode::Load => 1,
            UpdateStructureBlockMode::Corner => 2,
            UpdateStructureBlockMode::Data => 3,
        }
    }
}

impl Codec for UpdateStructureBlockMode {
    type Model = UpdateStructureBlockMode;

    open spec fn model(&self) -> UpdateStructureBlockMode {
        *self
    }

    open spec fn encodable(m: UpdateStructureBlockMode) -> bool {
        true
    }

    open spec fn legal(m: UpdateStructureBlockMode) -> bool {
        true
    }

    open spec fn spec_serialize(m: UpdateStructureBlockMode) -> Seq<u8> {
        spec_varint_serialize(Self::spec_id(m))
    }

    /// A discriminant that names no variant is an error carrying it.
    open spec fn spec_deserialize(s: Seq<u8>) -> SpecResult<UpdateStructureBlockMode> {
        match spec_varint_deserialize(s) {
            Err(e) => Err(e),
            Ok((id, rest)) => match Self::spec_of_id(id) {
                Some(v) => Ok((v, rest)),
                None => Err(DeserializeErr::UnknownTag(id as i64)),
            },
        }
    }

    proof fn lemma_round_trip(m: UpdateStructureBlockMode, rest: Seq<u8>) {
        VarInt::lemma_round_trip(Self::spec_id(m), rest);
    }

    fn mc_serialize(&self, to: &mut Vec<u8>) {
        VarInt(self.id()).mc_serialize(to);
    }

    fn mc_deserialize(data: &[u8]) -> (r: Result<(Self, &[u8]), DeserializeErr>) {
        let (id, rest) = VarInt::mc_deserialize(data)?;
        let id = id.0;
        match id {
            0 => Ok((UpdateStructureBlockMode::Save, rest)),
            1 => Ok((UpdateStructureBlockMode::Load, rest)),
            2 => Ok((UpdateStructureBlockMode::Corner, rest)),
            3 => Ok((UpdateStructureBlockMode::Data, rest)),
            _ => Err(DeserializeErr::UnknownTag(id as i64)),
        }
    }
}

/// The update structure block mirror of the protocol.
#[derive(Debug, Clone, Copy, PartialEq, Eq, Structural)]
pub enum UpdateStructureBlockMirror {
    NoMirror,
    LeftRight,
    FrontBack,
}

impl UpdateStructureBlockMirror {
    pub open spec fn spec_id(m: UpdateStructureBlockMirror) -> i32 {
        match m {
            UpdateStructureBlockMirror::NoMirror => 0,
            UpdateStructureBlockMirror::LeftRight => 1,
            UpdateStructureBlockMirror::FrontBack => 2,
        }
    }

    pub open spec fn spec_of_id(id: i32) -> Option<UpdateStructureBlockMirror> {
        match id {
            0 => Some(UpdateStructureBlockMirror::NoMirror),
            1 => Some(UpdateStructureBlockMirror::LeftRight),
            2 => Some(UpdateStructureBlockMirror::FrontBack),
            _ => None,
        }
    }

    /// The discriminant written for this variant.
    pub fn id(&self) -> (r: i32)
        ensures
            r == Self::spec_id(*self),
    {
        match self {
            UpdateStructureBlockMirror::NoMirror => 0,
            UpdateStructureBlockMirror::LeftRight => 1,
            UpdateStructureBlockMirror::FrontBack => 2,
        }
    }
}

impl Codec for UpdateStructureBlockMirror {
    type Model = UpdateStructureBlockMirror;

    open spec fn model(&self) -> UpdateStructureBlockMirror {
        *self
    }

    open spec fn encodable(m: UpdateStructureBlockMirror) -> bool {
        true
    }

    open spec fn legal(m: UpdateStructureBlockMirror) -> bool {
        true
    }

    open spec fn spec_serialize(m: UpdateStructureBlockMirror) -> Seq<u8> {
        spec_varint_serialize(Self::spec_id(m))
    }

    /// A discriminant that names no variant is an error carrying it.
    open spec fn spec_deserialize(s: Seq<u8>) -> SpecResult<UpdateStructureBlockMirror> {
        match spec_varint_deserialize(s) {
            Err(e) => Err(e),
            Ok((id, rest)) => match Self::spec_of_id(id) {
                Some(v) => Ok((v, rest)),
                None => Err(DeserializeErr::UnknownTag(id as i64)),
            },
        }
    }

    proof fn lemma_round_trip(m: UpdateStructureBlockMirror, rest: Seq<u8>) {
        VarInt::lemma_round_trip(Self::spec_id(m), rest);
    }

    fn mc_serialize(&self, to: &mut Vec<u8>) {
        VarInt(self.id()).mc_serialize(to);
    }

    fn mc_deserialize(data: &[u8]) -> (r: Result<(Self, &[u8]), DeserializeErr>) {
        let (id, rest) = VarInt::mc_deserialize(data)?;
        let id = id.0;
        match id {
            0 => Ok((UpdateStructureBlockMirror::NoMirror, rest)),
            1 => Ok((UpdateStructureBlockMirror::LeftRight, rest)),
            2 => Ok((UpdateStructureBlockMirror::FrontBack, rest)),
            _ => Err(DeserializeErr::UnknownTag(id as i64)),
        }
    }
}

/// The update structure block rotation of the protocol.
#[derive(Debug, Clone, Copy, PartialEq, Eq, Structural)]
pub enum UpdateStructureBlockRotation {
    NoRotation,
    Clockwise90,
    Clockwise180,
    CounterClockwise90,
}

impl UpdateStructureBlockRotation {
    pub open spec fn spec_id(m: UpdateStructureBlockRotation) -> i32 {
        match m {
            UpdateStructureBlockRotation::NoRotation => 0,
            UpdateStructureBlockRotation::Clockwise90 => 1,
            UpdateStructureBlockRotation::Clockwise180 => 2,
            UpdateStructureBlockRotation::CounterClockwise90 => 3,
        }
    }

    pub open spec fn spec_of_id(id: i32) -> Option<UpdateStructureBlockRotation> {
        match id {
            0 => Some(UpdateStructureBlockRotation::NoRotation),
            1 => Some(UpdateStructureBlockRotation::Clockwise90),
            2 => Some(UpdateStructureBlockRotation::Clockwise180),
            3 => Some(UpdateStructureBlockRotation::CounterClockwise90),
            _ => None,
        }
    }

    /// The discriminant written for this variant.
    pub fn id(&self) -> (r: i32)
        ensures
            r == Self::spec_id(*self),
    {
        match self {
            UpdateStructureBlockRotation::NoRotation => 0,
            UpdateStructureBlockRotation::Clockwise90 => 1,
            UpdateStructureBlockRotation::Clockwise180 => 2,
            UpdateStructureBlockRotation::CounterClockwise90 => 3,
        }
    }
}

impl Codec for UpdateStructureBlockRotation {
    type Model = UpdateStructureBlockRotation;

    open spec fn model(&self) -> UpdateStructureBlockRotation {
        *self
    }

    open spec fn encodable(m: UpdateStructureBlockRotation) -> bool {
        true
    }

    open spec fn legal(m: UpdateStructureBlockRotation) -> bool {
        true
    }

    open spec fn spec_serialize(m: UpdateStructureBlockRotation) -> Seq<u8> {
        spec_varint_serialize(Self::spec_id(m))
    }

    /// A discriminant that names no variant is an error carrying it.
    open spec fn spec_deserialize(s: Seq<u8>) -> SpecResult<UpdateStructureBlockRotation> {
        match spec_varint_deserialize(s) {
            Err(e) => Err(e),
            Ok((id, rest)) => match Self::spec_of_id(id) {
                Some(v) => Ok((v, rest)),
                None => Err(DeserializeErr::UnknownTag(id as i64)),
            },
        }
    }

    proof fn lemma_round_trip(m: UpdateStructureBlockRotation, rest: Seq<u8>) {
        VarInt::lemma_round_trip(Self::spec_id(m), rest);
    }

    fn mc_serialize(&self, to: &mut Vec<u8>) {
        VarInt(self.id()).mc_serialize(to);
    }

    fn mc_deserialize(data: &[u8]) -> (r: Result<(Self, &[u8]), DeserializeErr>) {
        let (id, rest) = VarInt::mc_deserialize(data)?;
        let id = id.0;
        match id {
            0 => Ok((UpdateStructureBlockRotation::NoRotation, rest)),
            1 => Ok((UpdateStructureBlockRotation::Clockwise90, rest)),
            2 => Ok((UpdateStructureBlockRotation::Clockwise180, rest)),
            3 => Ok((UpdateStructureBlockRotation::CounterClockwise90, rest)),
            _ => Err(DeserializeErr::UnknownTag(id as i64)),
        }
    }
}

/// The update structure block flags: one bit per flag.
#[derive(Debug, Clone, Copy, PartialEq, Eq, Structural)]
pub struct UpdateStructureBlockFlags {
    pub ignore_entities: bool,
    pub show_air: bool,
    pub show_bounding_box: bool,
}

impl Codec for UpdateStructureBlockFlags {
    type Model = UpdateStructureBlockFlags;

    open spec fn model(&self) -> UpdateStructureBlockFlags {
        *self
    }

    open spec fn encodable(m: UpdateStructureBlockFlags) -> bool {
        true
    }

    open spec fn legal(m: UpdateStructureBlockFlags) -> bool {
        true
    }

    /// One byte with a bit per flag.
    open spec fn spec_serialize(m: UpdateStructureBlockFlags) -> Seq<u8> {
        seq![((if m.ignore_entities { 1u8 } else { 0u8 }) + (if m.show_air { 2u8 } else { 0u8 }) + (if m.show_bounding_box { 4u8 } else { 0u8 })) as u8]
    }

    /// Bits that name no flag are ignored.
    open spec fn spec_deserialize(s: Seq<u8>) -> SpecResult<UpdateStructureBlockFlags> {
        if s.len() == 0 {
            Err(DeserializeErr::Eof)
        } else {
            Ok((UpdateStructureBlockFlags { ignore_entities: (s[0] / 1) % 2 == 1, show_air: (s[0] / 2) % 2 == 1, show_bounding_box: (s[0] / 4) % 2 == 1 }, s.skip(1)))
        }
    }

    proof fn lemma_round_trip(m: UpdateStructureBlockFlags, rest: Seq<u8>) {
        assert((Self::spec_serialize(m) + rest).skip(1) =~= rest);
    }

    fn mc_serialize(&self, to: &mut Vec<u8>) {
        to.push(((if self.ignore_entities { 1u8 } else { 0u8 }) + (if self.show_air { 2u8 } else { 0u8 }) + (if self.show_bounding_box { 4u8 } else { 0u8 })) as u8);
    }

    fn mc_deserialize(data: &[u8]) -> (r: Result<(Self, &[u8]), DeserializeErr>) {
        let (b, rest) = take_bytes(data, 1)?;
        Ok((UpdateStructureBlockFlags { ignore_entities: (b[0] / 1) % 2 == 1, show_air: (b[0] / 2) % 2 == 1, show_bounding_box: (b[0] / 4) % 2 == 1 }, rest))
    }
}

/// The recipe unlock action of the protocol.
#[derive(Debug, Clone, Copy, PartialEq, Eq, Structural)]
pub enum RecipeUnlockAction {
    Init,
    Add,
    Remove,
}

impl RecipeUnlockAction {
    pub open spec fn spec_id(m: RecipeUnlockAction) -> i32 {
        match m {
            RecipeUnlockAction::Init => 0,
            RecipeUnlockAction::Add => 1,
            RecipeUnlockAction::Remove => 2,
        }
    }

    pub open spec fn spec_of_id(id: i32) -> Option<RecipeUnlockAction> {
        match id {
            0 => Some(RecipeUnlockAction::Init),
            1 => Some(RecipeUnlockAction::Add),
            2 => Some(RecipeUnlockAction::Remove),
            _ => None,
        }
    }

    /// The discriminant written for this variant.
    pub fn id(&self) -> (r: i32)
        ensures
            r == Self::spec_id(*self),
    {
        match self {
            RecipeUnlockAction::Init => 0,
            RecipeUnlockAction::Add => 1,
            RecipeUnlockAction::Remove => 2,
        }
    }
}

impl Codec for RecipeUnlockAction {
    type Model = RecipeUnlockAction;

    open spec fn model(&self) -> RecipeUnlockAction {
        *self
    }

    open spec fn encodable(m: RecipeUnlockAction) -> bool {
        true
    }

    open spec fn legal(m: RecipeUnlockAction) -> bool {
        true
    }

    open spec fn spec_serialize(m: RecipeUnlockAction) -> Seq<u8> {
        spec_varint_serialize(Self::spec_id(m))
    }

    /// A discriminant that names no variant is an error carrying it.
    open spec fn spec_deserialize(s: Seq<u8>) -> SpecResult<RecipeUnlockAction> {
        match spec_varint_deserialize(s) {
            Err(e) => Err(e),
            Ok((id, rest)) => match Self::spec_of_id(id) {
                Some(v) => Ok((v, rest)),
                None => Err(DeserializeErr::UnknownTag(id as i64)),
            },
        }
    }

    proof fn lemma_round_trip(m: RecipeUnlockAction, rest: Seq<u8>) {
        VarInt::lemma_round_trip(Self::spec_id(m), rest);
    }

    fn mc_serialize(&self, to: &mut Vec<u8>) {
        VarInt(self.id()).mc_serialize(to);
    }

    fn mc_deserialize(data: &[u8]) -> (r: Result<(Self, &[u8]), DeserializeErr>) {
        let (id, rest) = VarInt::mc_deserialize(data)?;
        let id = id.0;
        match id {
            0 => Ok((RecipeUnlockAction::Init, rest)),
            1 => Ok((RecipeUnlockAction::Add, rest)),
            2 => Ok((RecipeUnlockAction::Remove, rest)),
            _ => Err(DeserializeErr::UnknownTag(id as i64)),
        }
    }
}

/// A statistic as values.
pub struct StatisticModel {
    pub kind: <StatisticCategory as Codec>::Model,
    pub value: <VarInt as Codec>::Model,
}

/// The statistic
#[derive(Debug, Clone, PartialEq, Eq)]
pub struct Statistic {
    pub kind: StatisticCategory,
    pub value: VarInt,
}

impl Codec for Statistic {
    type Model = StatisticModel;

    open spec fn model(&self) -> StatisticModel {
        StatisticModel { kind: self.kind.model(), value: self.value.model() }
    }

    open spec fn encodable(m: StatisticModel) -> bool {
        StatisticCategory::encodable(m.kind) && VarInt::encodable(m.value)
    }

    open spec fn legal(m: StatisticModel) -> bool {
        StatisticCategory::legal(m.kind) && VarInt::legal(m.value)
    }

    open spec fn spec_serialize(m: StatisticModel) -> Seq<u8> {
        StatisticCategory::spec_serialize(m.kind) + VarInt::spec_serialize(m.value)
    }

    open spec fn spec_deserialize(s: Seq<u8>) -> SpecResult<StatisticModel> {
        match StatisticCategory::spec_deserialize(s) {
            Err(e) => Err(e),
            Ok((kind, r1)) => match VarInt::spec_deserialize(r1) {
                Err(e) => Err(e),
                Ok((value, r2)) => Ok((StatisticModel { kind, value }, r2)),
            },
        }
    }

    proof fn lemma_round_trip(m: StatisticModel, rest: Seq<u8>) {
        let t1 = VarInt::spec_serialize(m.value) + rest;
        let p1 = StatisticCategory::spec_serialize(m.kind);
        let p2 = p1 + VarInt::spec_serialize(m.value);
        assert(Self::spec_serialize(m) == p2);
        lemma_concat_associative(p1, VarInt::spec_serialize(m.value), rest);
        StatisticCategory::lemma_round_trip(m.kind, t1);
        VarInt::lemma_round_trip(m.value, rest);
    }

    fn mc_serialize(&self, to: &mut Vec<u8>) {
        let ghost start = to@;
        self.kind.mc_serialize(to);
        self.value.mc_serialize(to);
        proof {
            lemma_concat_associative(start, StatisticCategory::spec_serialize(self.kind.model()), VarInt::spec_serialize(self.value.model()));
        }
        assert(to@ =~= start + Self::spec_serialize(self.model()));
    }

    fn mc_deserialize(data: &[u8]) -> (r: Result<(Self, &[u8]), DeserializeErr>) {
        let (kind, rest) = StatisticCategory::mc_deserialize(data)?;
        let (value, rest) = VarInt::mc_deserialize(rest)?;
        Ok((Statistic { kind, value }, rest))
    }
}

/// A multi block change record as values.
pub struct MultiBlockChangeRecordModel {
    pub horizontal_position: <BlockChangeHorizontalPosition as Codec>::Model,
    pub y_coordinate: <u8 as Codec>::Model,
    pub block_id: <VarInt as Codec>::Model,
}

/// The multi block change record
#[derive(Debug, Clone, PartialEq, Eq)]
pub struct MultiBlockChangeRecord {
    pub horizontal_position: BlockChangeHorizontalPosition,
    pub y_coordinate: u8,
    pub block_id: VarInt,
}

impl Codec for MultiBlockChangeRecord {
    type Model = MultiBlockChangeRecordModel;

    open spec fn model(&self) -> MultiBlockChangeRecordModel {
        MultiBlockChangeRecordModel { horizontal_position: self.horizontal_position.model(), y_coordinate: self.y_coordinate.model(), block_id: self.block_id.model() }
    }

    open spec fn encodable(m: MultiBlockChangeRecordModel) -> bool {
        BlockChangeHorizontalPosition::encodable(m.horizontal_position) && u8::encodable(m.y_coordinate) && VarInt::encodable(m.block_id)
    }

    open spec fn legal(m: MultiBlockChangeRecordModel) -> bool {
        BlockChangeHorizontalPosition::legal(m.horizontal_position) && u8::legal(m.y_coordinate) && VarInt::legal(m.block_id)
    }

    open spec fn spec_serialize(m: MultiBlockChangeRecordModel) -> Seq<u8> {
        BlockChangeHorizontalPosition::spec_serialize(m.horizontal_position) + u8::spec_serialize(m.y_coordinate) + VarInt::spec_serialize(m.block_id)
    }

    open spec fn spec_deserialize(s: Seq<u8>) -> SpecResult<MultiBlockChangeRecordModel> {
        match BlockChangeHorizontalPosition::spec_deserialize(s) {
            Err(e) => Err(e),
            Ok((horizontal_position, r1)) => match u8::spec_deserialize(r1) {
                Err(e) => Err(e),
                Ok((y_coordinate, r2)) => match VarInt::spec_deserialize(r2) {
                    Err(e) => Err(e),
                    Ok((block_id, r3)) => Ok((MultiBlockChangeRecordModel { horizontal_position, y_coordinate, block_id }, r3)),
                },
            },
        }
    }

    proof fn lemma_round_trip(m: MultiBlockChangeRecordModel, rest: Seq<u8>) {
        let t2 = VarInt::spec_serialize(m.block_id) + rest;
        let t1 = u8::spec_serialize(m.y_coordinate) + t2;
        let p1 = BlockChangeHorizontalPosition::spec_serialize(m.horizontal_position);
        let p2 = p1 + u8::spec_serialize(m.y_coordinate);
        let p3 = p2 + VarInt::spec_serialize(m.block_id);
        assert(Self::spec_serialize(m) == p3);
        lemma_concat_associative(p2, VarInt::spec_serialize(m.block_id), rest);
        lemma_concat_associative(p1, u8::spec_serialize(m.y_coordinate), t2);
        BlockChangeHorizontalPosition::lemma_round_trip(m.horizontal_position, t1);
        u8::lemma_round_trip(m.y_coordinate, t2);
        VarInt::lemma_round_trip(m.block_id, rest);
    }

    fn mc_serialize(&self, to: &mut Vec<u8>) {
        let ghost start = to@;
        self.horizontal_position.mc_serialize(to);
        self.y_coordinate.mc_serialize(to);
        proof {
            lemma_concat_associative(start, BlockChangeHorizontalPosition::spec_serialize(self.horizontal_position.model()), u8::spec_serialize(self.y_coordinate.model()));
        }
        self.block_id.mc_serialize(to);
        proof {
            lemma_concat_associative(start, BlockChangeHorizontalPosition::spec_serialize(self.horizontal_position.model()) + u8::spec_serialize(self.y_coordinate.model()), VarInt::spec_serialize(self.block_id.model()));
        }
        assert(to@ =~= start + Self::spec_serialize(self.model()));
    }

    fn mc_deserialize(data: &[u8]) -> (r: Result<(Self, &[u8]), DeserializeErr>) {
        let (horizontal_position, rest) = BlockChangeHorizontalPosition::mc_deserialize(data)?;
        let (y_coordinate, rest) = u8::mc_deserialize(rest)?;
        let (block_id, rest) = VarInt::mc_deserialize(rest)?;
        Ok((MultiBlockChangeRecord { horizontal_position, y_coordinate, block_id }, rest))
    }
}

/// A boss bar add spec as values.
pub struct BossBarAddSpecModel {
    pub title: <Chat as Codec>::Model,
    pub health: <Float32 as Codec>::Model,
    pub color: <BossBarColor as Codec>::Model,
    pub division: <BossBarDivision as Codec>::Model,
    pub flags: <BossBarFlags as Codec>::Model,
}

/// The boss bar add spec
#[derive(Debug, Clone, PartialEq, Eq)]
pub struct BossBarAddSpec {
    pub title: Chat,
    pub health: Float32,
    pub color: BossBarColor,
    pub division: BossBarDivision,
    pub flags: BossBarFlags,
}

impl Codec for BossBarAddSpec {
    type Model = BossBarAddSpecModel;

    open spec fn model(&self) -> BossBarAddSpecModel {
        BossBarAddSpecModel { title: self.title.model(), health: self.health.model(), color: self.color.model(), division: self.division.model(), flags: self.flags.model() }
    }

    open spec fn encodable(m: BossBarAddSpecModel) -> bool {
        Chat::encodable(m.title) && Float32::encodable(m.health) && BossBarColor::encodable(m.color) && BossBarDivision::encodable(m.division) && BossBarFlags::encodable(m.flags)
    }

    open spec fn legal(m: BossBarAddSpecModel) -> bool {
        Chat::legal(m.title) && Float32::legal(m.health) && BossBarColor::legal(m.color) && BossBarDivision::legal(m.division) && BossBarFlags::legal(m.flags)
    }

    open spec fn spec_serialize(m: BossBarAddSpecModel) -> Seq<u8> {
        Chat::spec_serialize(m.title) + Float32::spec_serialize(m.health) + BossBarColor::spec_serialize(m.color) + BossBarDivision::spec_serialize(m.division) + BossBarFlags::spec_serialize(m.flags)
    }

    open spec fn spec_deserialize(s: Seq<u8>) -> SpecResult<BossBarAddSpecModel> {
        match Chat::spec_deserialize(s) {
            Err(e) => Err(e),
            Ok((title, r1)) => match Float32::spec_deserialize(r1) {
                Err(e) => Err(e),
                Ok((health, r2)) => match BossBarColor::spec_deserialize(r2) {
                    Err(e) => Err(e),
                    Ok((color, r3)) => match BossBarDivision::spec_deserialize(r3) {
                        Err(e) => Err(e),
                        Ok((division, r4)) => match BossBarFlags::spec_deserialize(r4) {
                            Err(e) => Err(e),
                            Ok((flags, r5)) => Ok((BossBarAddSpecModel { title, health, color, division, flags }, r5)),
                        },
                    },
                },
            },
        }
    }

    #[verifier::rlimit(100)]
    #[verifier::spinoff_prover]
    proof fn lemma_round_trip(m: BossBarAddSpecModel, rest: Seq<u8>) {
        let t4 = BossBarFlags::spec_serialize(m.flags) + rest;
        let t3 = BossBarDivision::spec_serialize(m.division) + t4;
        let t2 = BossBarColor::spec_serialize(m.color) + t3;
        let t1 = Float32::spec_serialize(m.health) + t2;
        let p1 = Chat::spec_serialize(m.title);
        let p2 = p1 + Float32::spec_serialize(m.health);
        let p3 = p2 + BossBarColor::spec_serialize(m.color);
        let p4 = p3 + BossBarDivision::spec_serialize(m.division);
        let p5 = p4 + BossBarFlags::spec_serialize(m.flags);
        assert(Self::spec_serialize(m) == p5);
        lemma_concat_associative(p4, BossBarFlags::spec_serialize(m.flags), rest);
        lemma_concat_associative(p3, BossBarDivision::spec_serialize(m.division), t4);
        lemma_concat_associative(p2, BossBarColor::spec_serialize(m.color), t3);
        lemma_concat_associative(p1, Float32::spec_serialize(m.health), t2);
        Chat::lemma_round_trip(m.title, t1);
        assert(Chat::spec_deserialize(Self::spec_serialize(m) + rest) == Ok::<(<Chat as Codec>::Model, Seq<u8>), DeserializeErr>((m.title, t1)));
        Float32::lemma_round_trip(m.health, t2);
        assert(Float32::spec_deserialize(t1) == Ok::<(<Float32 as Codec>::Model, Seq<u8>), DeserializeErr>((m.health, t2)));
        BossBarColor::lemma_round_trip(m.color, t3);
        assert(BossBarColor::spec_deserialize(t2) == Ok::<(<BossBarColor as Codec>::Model, Seq<u8>), DeserializeErr>((m.color, t3)));
        BossBarDivision::lemma_round_trip(m.division, t4);
        assert(BossBarDivision::spec_deserialize(t3) == Ok::<(<BossBarDivision as Codec>::Model, Seq<u8>), DeserializeErr>((m.division, t4)));
        BossBarFlags::lemma_round_trip(m.flags, rest);
        assert(BossBarFlags::spec_deserialize(t4) == Ok::<(<BossBarFlags as Codec>::Model, Seq<u8>), DeserializeErr>((m.flags, rest)));
    }

    fn mc_serialize(&self, to: &mut Vec<u8>) {
        let ghost start = to@;
        self.title.mc_serialize(to);
        self.health.mc_serialize(to);
        proof {
            lemma_concat_associative(start, Chat::spec_serialize(self.title.model()), Float32::spec_serialize(self.health.model()));
        }
        self.color.mc_serialize(to);
        proof {
            lemma_concat_associative(start, Chat::spec_serialize(self.title.model()) + Float32::spec_serialize(self.health.model()), BossBarColor::spec_serialize(self.color.model()));
        }
        self.division.mc_serialize(to);
        proof {
            lemma_concat_associative(start, Chat::spec_serialize(self.title.model()) + Float32::spec_serialize(self.health.model()) + BossBarColor::spec_serialize(self.color.model()), BossBarDivision::spec_serialize(self.division.model()));
        }
        self.flags.mc_serialize(to);
        proof {
            lemma_concat_associative(start, Chat::spec_serialize(self.title.model()) + Float32::spec_serialize(self.health.model()) + BossBarColor::spec_serialize(self.color.model()) + BossBarDivision::spec_serialize(self.division.model()), BossBarFlags::spec_serialize(self.flags.model()));
        }
        assert(to@ =~= start + Self::spec_serialize(self.model()));
    }

    fn mc_deserialize(data: &[u8]) -> (r: Result<(Self, &[u8]), DeserializeErr>) {
        let (title, rest) = Chat::mc_deserialize(data)?;
        let (health, rest) = Float32::mc_deserialize(rest)?;
        let (color, rest) = BossBarColor::mc_deserialize(rest)?;
        let (division, rest) = BossBarDivision::mc_deserialize(rest)?;
        let (flags, rest) = BossBarFlags::mc_deserialize(rest)?;
        Ok((BossBarAddSpec { title, health, color, division, flags }, rest))
    }
}

/// A boss bar update health spec as values.
pub struct BossBarUpdateHealthSpecModel {
    pub health: <Float32 as Codec>::Model,
}

/// The boss bar update health spec
#[derive(Debug, Clone, PartialEq, Eq)]
pub struct BossBarUpdateHealthSpec {
    pub health: Float32,
}

impl Codec for BossBarUpdateHealthSpec {
    type Model = BossBarUpdateHealthSpecModel;

    open spec fn model(&self) -> BossBarUpdateHealthSpecModel {
        BossBarUpdateHealthSpecModel { health: self.health.model() }
    }

    open spec fn encodable(m: BossBarUpdateHealthSpecModel) -> bool {
        Float32::encodable(m.health)
    }

    open spec fn legal(m: BossBarUpdateHealthSpecModel) -> bool {
        Float32::legal(m.health)
    }

    open spec fn spec_serialize(m: BossBarUpdateHealthSpecModel) -> Seq<u8> {
        Float32::spec_serialize(m.health)
    }

    open spec fn spec_deserialize(s: Seq<u8>) -> SpecResult<BossBarUpdateHealthSpecModel> {
        match Float32::spec_deserialize(s) {
            Err(e) => Err(e),
            Ok((health, r1)) => Ok((BossBarUpdateHealthSpecModel { health }, r1)),
        }
    }

    proof fn lemma_round_trip(m: BossBarUpdateHealthSpecModel, rest: Seq<u8>) {
        Float32::lemma_round_trip(m.health, rest);
    }

    fn mc_serialize(&self, to: &mut Vec<u8>) {
        let ghost start = to@;
        self.health.mc_serialize(to);
        assert(to@ =~= start + Self::spec_serialize(self.model()));
    }

    fn mc_deserialize(data: &[u8]) -> (r: Result<(Self, &[u8]), DeserializeErr>) {
        let (health, rest) = Float32::mc_deserialize(data)?;
        Ok((BossBarUpdateHealthSpec { health }, rest))
    }
}

/// A boss bar update title spec as values.
pub struct BossBarUpdateTitleSpecModel {
    pub title: <String as Codec>::Model,
}

/// The boss bar update title spec
#[derive(Debug, Clone, PartialEq, Eq)]
pub struct BossBarUpdateTitleSpec {
    pub title: String,
}

impl Codec for BossBarUpdateTitleSpec {
    type Model = BossBarUpdateTitleSpecModel;

    open spec fn model(&self) -> BossBarUpdateTitleSpecModel {
        BossBarUpdateTitleSpecModel { title: self.title.model() }
    }

    open spec fn encodable(m: BossBarUpdateTitleSpecModel) -> bool {
        String::encodable(m.title)
    }

    open spec fn legal(m: BossBarUpdateTitleSpecModel) -> bool {
        String::legal(m.title)
    }

    open spec fn spec_serialize(m: BossBarUpdateTitleSpecModel) -> Seq<u8> {
        String::spec_serialize(m.title)
    }

    open spec fn spec_deserialize(s: Seq<u8>) -> SpecResult<BossBarUpdateTitleSpecModel> {
        match String::spec_deserialize(s) {
            Err(e) => Err(e),
            Ok((title, r1)) => Ok((BossBarUpdateTitleSpecModel { title }, r1)),
        }
    }

    proof fn lemma_round_trip(m: BossBarUpdateTitleSpecModel, rest: Seq<u8>) {
        String::lemma_round_trip(m.title, rest);
    }

    fn mc_serialize(&self, to: &mut Vec<u8>) {
        let ghost start = to@;
        self.title.mc_serialize(to);
        assert(to@ =~= start + Self::spec_serialize(self.model()));
    }

    fn mc_deserialize(data: &[u8]) -> (r: Result<(Self, &[u8]), DeserializeErr>) {
        let (title, rest) = String::mc_deserialize(data)?;
        Ok((BossBarUpdateTitleSpec { title }, rest))
    }
}

/// A boss bar update style spec as values.
pub struct BossBarUpdateStyleSpecModel {
    pub color: <BossBarColor as Codec>::Model,
    pub dividers: <BossBarDivision as Codec>::Model,
}

/// The boss bar update style spec
#[derive(Debug, Clone, PartialEq, Eq)]
pub struct BossBarUpdateStyleSpec {
    pub color: BossBarColor,
    pub dividers: BossBarDivision,
}

impl Codec for BossBarUpdateStyleSpec {
    type Model = BossBarUpdateStyleSpecModel;

    open spec fn model(&self) -> BossBarUpdateStyleSpecModel {
        BossBarUpdateStyleSpecModel { color: self.color.model(), dividers: self.dividers.model() }
    }

    open spec fn encodable(m: BossBarUpdateStyleSpecModel) -> bool {
        BossBarColor::encodable(m.color) && BossBarDivision::encodable(m.dividers)
    }

    open spec fn legal(m: BossBarUpdateStyleSpecModel) -> bool {
        BossBarColor::legal(m.color) && BossBarDivision::legal(m.dividers)
    }

    open spec fn spec_serialize(m: BossBarUpdateStyleSpecModel) -> Seq<u8> {
        BossBarColor::spec_serialize(m.color) + BossBarDivision::spec_serialize(m.dividers)
    }

    open spec fn spec_deserialize(s: Seq<u8>) -> SpecResult<BossBarUpdateStyleSpecModel> {
        match BossBarColor::spec_deserialize(s) {
            Err(e) => Err(e),
            Ok((color, r1)) => match BossBarDivision::spec_deserialize(r1) {
                Err(e) => Err(e),
                Ok((dividers, r2)) => Ok((BossBarUpdateStyleSpecModel { color, dividers }, r2)),
            },
        }
    }

    proof fn lemma_round_trip(m: BossBarUpdateStyleSpecModel, rest: Seq<u8>) {
        let t1 = BossBarDivision::spec_serialize(m.dividers) + rest;
        let p1 = BossBarColor::spec_serialize(m.color);
        let p2 = p1 + BossBarDivision::spec_serialize(m.dividers);
        assert(Self::spec_serialize(m) == p2);
        lemma_concat_associative(p1, BossBarDivision::spec_serialize(m.dividers), rest);
        BossBarColor::lemma_round_trip(m.color, t1);
        BossBarDivision::lemma_round_trip(m.dividers, rest);
    }

    fn mc_serialize(&self, to: &mut Vec<u8>) {
        let ghost start = to@;
        self.color.mc_serialize(to);
        self.dividers.mc_serialize(to);
        proof {
            lemma_concat_associative(start, BossBarColor::spec_serialize(self.color.model()), BossBarDivision::spec_serialize(self.dividers.model()));
        }
        assert(to@ =~= start + Self::spec_serialize(self.model()));
    }

    fn mc_deserialize(data: &[u8]) -> (r: Result<(Self, &[u8]), DeserializeErr>) {
        let (color, rest) = BossBarColor::mc_deserialize(data)?;
        let (dividers, rest) = BossBarDivision::mc_deserialize(rest)?;
        Ok((BossBarUpdateStyleSpec { color, dividers }, rest))
    }
}

/// A boss bar update flags spec as values.
pub struct BossBarUpdateFlagsSpecModel {
    pub flags: <BossBarFlags as Codec>::Model,
}

/// The boss bar update flags spec
#[derive(Debug, Clone, PartialEq, Eq)]
pub struct BossBarUpdateFlagsSpec {
    pub flags: BossBarFlags,
}

impl Codec for BossBarUpdateFlagsSpec {
    type Model = BossBarUpdateFlagsSpecModel;

    open spec fn model(&self) -> BossBarUpdateFlagsSpecModel {
        BossBarUpdateFlagsSpecModel { flags: self.flags.model() }
    }

    open spec fn encodable(m: BossBarUpdateFlagsSpecModel) -> bool {
        BossBarFlags::encodable(m.flags)
    }

    open spec fn legal(m: BossBarUpdateFlagsSpecModel) -> bool {
        BossBarFlags::legal(m.flags)
    }

    open spec fn spec_serialize(m: BossBarUpdateFlagsSpecModel) -> Seq<u8> {
        BossBarFlags::spec_serialize(m.flags)
    }

    open spec fn spec_deserialize(s: Seq<u8>) -> SpecResult<BossBarUpdateFlagsSpecModel> {
        match BossBarFlags::spec_deserialize(s) {
            Err(e) => Err(e),
            Ok((flags, r1)) => Ok((BossBarUpdateFlagsSpecModel { flags }, r1)),
        }
    }

    proof fn lemma_round_trip(m: BossBarUpdateFlagsSpecModel, rest: Seq<u8>) {
        BossBarFlags::lemma_round_trip(m.flags, rest);
    }

    fn mc_serialize(&self, to: &mut Vec<u8>) {
        let ghost start = to@;
        self.flags.mc_serialize(to);
        assert(to@ =~= start + Self::spec_serialize(self.model()));
    }

    fn mc_deserialize(data: &[u8]) -> (r: Result<(Self, &[u8]), DeserializeErr>) {
        let (flags, rest) = BossBarFlags::mc_deserialize(data)?;
        Ok((BossBarUpdateFlagsSpec { flags }, rest))
    }
}

/// A tab complete match as values.
pub struct TabCompleteMatchModel {
    pub match_: <String as Codec>::Model,
    pub tooltip: <Option<Chat> as Codec>::Model,
}

/// The tab complete match
#[derive(Debug, Clone, PartialEq, Eq)]
pub struct TabCompleteMatch {
    pub match_: String,
    pub tooltip: Option<Chat>,
}

impl Codec for TabCompleteMatch {
    type Model = TabCompleteMatchModel;

    open spec fn model(&self) -> TabCompleteMatchModel {
        TabCompleteMatchModel { match_: self.match_.model(), tooltip: self.tooltip.model() }
    }

    open spec fn encodable(m: TabCompleteMatchModel) -> bool {
        String::encodable(m.match_) && Option::<Chat>::encodable(m.tooltip)
    }

    open spec fn legal(m: TabCompleteMatchModel) -> bool {
        String::legal(m.match_) && Option::<Chat>::legal(m.tooltip)
    }

    open spec fn spec_serialize(m: TabCompleteMatchModel) -> Seq<u8> {
        String::spec_serialize(m.match_) + Option::<Chat>::spec_serialize(m.tooltip)
    }

    open spec fn spec_deserialize(s: Seq<u8>) -> SpecResult<TabCompleteMatchModel> {
        match String::spec_deserialize(s) {
            Err(e) => Err(e),
            Ok((match_, r1)) => match Option::<Chat>::spec_deserialize(r1) {
                Err(e) => Err(e),
                Ok((tooltip, r2)) => Ok((TabCompleteMatchModel { match_, tooltip }, r2)),
            },
        }
    }

    proof fn lemma_round_trip(m: TabCompleteMatchModel, rest: Seq<u8>) {
        let t1 = Option::<Chat>::spec_serialize(m.tooltip) + rest;
        let p1 = String::spec_serialize(m.match_);
        let p2 = p1 + Option::<Chat>::spec_serialize(m.tooltip);
        assert(Self::spec_serialize(m) == p2);
        lemma_concat_associative(p1, Option::<Chat>::spec_serialize(m.tooltip), rest);
        String::lemma_round_trip(m.match_, t1);
        Option::<Chat>::lemma_round_trip(m.tooltip, rest);
    }

    fn mc_serialize(&self, to: &mut Vec<u8>) {
        let ghost start = to@;
        self.match_.mc_serialize(to);
        self.tooltip.mc_serialize(to);
        proof {
            lemma_concat_associative(start, String::spec_serialize(self.match_.model()), Option::<Chat>::spec_serialize(self.tooltip.model()));
        }
        assert(to@ =~= start + Self::spec_serialize(self.model()));
    }

    fn mc_deserialize(data: &[u8]) -> (r: Result<(Self, &[u8]), DeserializeErr>) {
        let (match_, rest) = String::mc_deserialize(data)?;
        let (tooltip, rest) = Option::<Chat>::mc_deserialize(rest)?;
        Ok((TabCompleteMatch { match_, tooltip }, rest))
    }
}

/// A team action player list as values.
pub struct TeamActionPlayerListModel {
    pub entities: <VarIntCountedArray<TeamMember> as Codec>::Model,
}

/// The team action player list
#[derive(Debug, Clone, PartialEq, Eq)]
pub struct TeamActionPlayerList {
    pub entities: VarIntCountedArray<TeamMember>,
}

impl Codec for TeamActionPlayerList {
    type Model = TeamActionPlayerListModel;

    open spec fn model(&self) -> TeamActionPlayerListModel {
        TeamActionPlayerListModel { entities: self.entities.model() }
    }

    open spec fn encodable(m: TeamActionPlayerListModel) -> bool {
        VarIntCountedArray::<TeamMember>::encodable(m.entities)
    }

    open spec fn legal(m: TeamActionPlayerListModel) -> bool {
        VarIntCountedArray::<TeamMember>::legal(m.entities)
    }

    open spec fn spec_serialize(m: TeamActionPlayerListModel) -> Seq<u8> {
        VarIntCountedArray::<TeamMember>::spec_serialize(m.entities)
    }

    open spec fn spec_deserialize(s: Seq<u8>) -> SpecResult<TeamActionPlayerListModel> {
        match VarIntCountedArray::<TeamMember>::spec_deserialize(s) {
            Err(e) => Err(e),
            Ok((entities, r1)) => Ok((TeamActionPlayerListModel { entities }, r1)),
        }
    }

    proof fn lemma_round_trip(m: TeamActionPlayerListModel, rest: Seq<u8>) {
        VarIntCountedArray::<TeamMember>::lemma_round_trip(m.entities, rest);
    }

    fn mc_serialize(&self, to: &mut Vec<u8>) {
        let ghost start = to@;
        self.entities.mc_serialize(to);
        assert(to@ =~= start + Self::spec_serialize(self.model()));
    }

    fn mc_deserialize(data: &[u8]) -> (r: Result<(Self, &[u8]), DeserializeErr>) {
        let (entities, rest) = VarIntCountedArray::<TeamMember>::mc_deserialize(data)?;
        Ok((TeamActionPlayerList { entities }, rest))
    }
}

/// A team action create spec as values.
pub struct TeamActionCreateSpecModel {
    pub display_name: <Chat as Codec>::Model,
    pub friendly_flags: <TeamFriendlyFlags as Codec>::Model,
    pub tag_name_visibility: <TeamTagNameVisibility as Codec>::Model,
    pub collision_rule: <TeamCollisionRule as Codec>::Model,
    pub color: <VarInt as Codec>::Model,
    pub prefix: <Chat as Codec>::Model,
    pub suffix: <Chat as Codec>::Model,
    pub entities: <VarIntCountedArray<TeamMember> as Codec>::Model,
}

/// The team action create spec
#[derive(Debug, Clone, PartialEq, Eq)]
pub struct TeamActionCreateSpec {
    pub display_name: Chat,
    pub friendly_flags: TeamFriendlyFlags,
    pub tag_name_visibility: TeamTagNameVisibility,
    pub collision_rule: TeamCollisionRule,
    pub color: VarInt,
    pub prefix: Chat,
    pub suffix: Chat,
    pub entities: VarIntCountedArray<TeamMember>,
}

impl Codec for TeamActionCreateSpec {
    type Model = TeamActionCreateSpecModel;

    open spec fn model(&self) -> TeamActionCreateSpecModel {
        TeamActionCreateSpecModel { display_name: self.display_name.model(), friendly_flags: self.friendly_flags.model(), tag_name_visibility: self.tag_name_visibility.model(), collision_rule: self.collision_rule.model(), color: self.color.model(), prefix: self.prefix.model(), suffix: self.suffix.model(), entities: self.entities.model() }
    }

    open spec fn encodable(m: TeamActionCreateSpecModel) -> bool {
        Chat::encodable(m.display_name) && TeamFriendlyFlags::encodable(m.friendly_flags) && TeamTagNameVisibility::encodable(m.tag_name_visibility) && TeamCollisionRule::encodable(m.collision_rule) && VarInt::encodable(m.color) && Chat::encodable(m.prefix) && Chat::encodable(m.suffix) && VarIntCountedArray::<TeamMember>::encodable(m.entities)
    }

    open spec fn legal(m: TeamActionCreateSpecModel) -> bool {
        Chat::legal(m.display_name) && TeamFriendlyFlags::legal(m.friendly_flags) && TeamTagNameVisibility::legal(m.tag_name_visibility) && TeamCollisionRule::legal(m.collision_rule) && VarInt::legal(m.color) && Chat::legal(m.prefix) && Chat::legal(m.suffix) && VarIntCountedArray::<TeamMember>::legal(m.entities)
    }

    open spec fn spec_serialize(m: TeamActionCreateSpecModel) -> Seq<u8> {
        Chat::spec_serialize(m.display_name) + TeamFriendlyFlags::spec_serialize(m.friendly_flags) + TeamTagNameVisibility::spec_serialize(m.tag_name_visibility) + TeamCollisionRule::spec_serialize(m.collision_rule) + VarInt::spec_serialize(m.color) + Chat::spec_serialize(m.prefix) + Chat::spec_serialize(m.suffix) + VarIntCountedArray::<TeamMember>::spec_serialize(m.entities)
    }

    open spec fn spec_deserialize(s: Seq<u8>) -> SpecResult<TeamActionCreateSpecModel> {
        match Chat::spec_deserialize(s) {
            Err(e) => Err(e),
            Ok((display_name, r1)) => match TeamFriendlyFlags::spec_deserialize(r1) {
                Err(e) => Err(e),
                Ok((friendly_flags, r2)) => match TeamTagNameVisibility::spec_deserialize(r2) {
                    Err(e) => Err(e),
                    Ok((tag_name_visibility, r3)) => match TeamCollisionRule::spec_deserialize(r3) {
                        Err(e) => Err(e),
                        Ok((collision_rule, r4)) => match VarInt::spec_deserialize(r4) {
                            Err(e) => Err(e),
                            Ok((color, r5)) => match Chat::spec_deserialize(r5) {
                                Err(e) => Err(e),
                                Ok((prefix, r6)) => match Chat::spec_deserialize(r6) {
                                    Err(e) => Err(e),
                                    Ok((suffix, r7)) => match VarIntCountedArray::<TeamMember>::spec_deserialize(r7) {
                                        Err(e) => Err(e),
                                        Ok((entities, r8)) => Ok((TeamActionCreateSpecModel { display_name, friendly_flags, tag_name_visibility, collision_rule, color, prefix, suffix, entities }, r8)),
                                    },
                                },
                            },
                        },
                    },
                },
            },
        }
    }

    #[verifier::rlimit(100)]
    #[verifier::spinoff_prover]
    proof fn lemma_round_trip(m: TeamActionCreateSpecModel, rest: Seq<u8>) {
        let t7 = VarIntCountedArray::<TeamMember>::spec_serialize(m.entities) + rest;
        let t6 = Chat::spec_serialize(m.suffix) + t7;
        let t5 = Chat::spec_serialize(m.prefix) + t6;
        let t4 = VarInt::spec_serialize(m.color) + t5;
        let t3 = TeamCollisionRule::spec_serialize(m.collision_rule) + t4;
        let t2 = TeamTagNameVisibility::spec_serialize(m.tag_name_visibility) + t3;
        let t1 = TeamFriendlyFlags::spec_serialize(m.friendly_flags) + t2;
        let p1 = Chat::spec_serialize(m.display_name);
        let p2 = p1 + TeamFriendlyFlags::spec_serialize(m.friendly_flags);
        let p3 = p2 + TeamTagNameVisibility::spec_serialize(m.tag_name_visibility);
        let p4 = p3 + TeamCollisionRule::spec_serialize(m.collision_rule);
        let p5 = p4 + VarInt::spec_serialize(m.color);
        let p6 = p5 + Chat::spec_serialize(m.prefix);
        let p7 = p6 + Chat::spec_serialize(m.suffix);
        let p8 = p7 + VarIntCountedArray::<TeamMember>::spec_serialize(m.entities);
        assert(Self::spec_serialize(m) == p8);
        lemma_concat_associative(p7, VarIntCountedArray::<TeamMember>::spec_serialize(m.entities), rest);
        lemma_concat_associative(p6, Chat::spec_serialize(m.suffix), t7);
        lemma_concat_associative(p5, Chat::spec_serialize(m.prefix), t6);
        lemma_concat_associative(p4, VarInt::spec_serialize(m.color), t5);
        lemma_concat_associative(p3, TeamCollisionRule::spec_serialize(m.collision_rule), t4);
        lemma_concat_associative(p2, TeamTagNameVisibility::spec_serialize(m.tag_name_visibility), t3);
        lemma_concat_associative(p1, TeamFriendlyFlags::spec_serialize(m.friendly_flags), t2);
        Chat::lemma_round_trip(m.display_name, t1);
        assert(Chat::spec_deserialize(Self::spec_serialize(m) + rest) == Ok::<(<Chat as Codec>::Model, Seq<u8>), DeserializeErr>((m.display_name, t1)));
        TeamFriendlyFlags::lemma_round_trip(m.friendly_flags, t2);
        assert(TeamFriendlyFlags::spec_deserialize(t1) == Ok::<(<TeamFriendlyFlags as Codec>::Model, Seq<u8>), DeserializeErr>((m.friendly_flags, t2)));
        TeamTagNameVisibility::lemma_round_trip(m.tag_name_visibility, t3);
        assert(TeamTagNameVisibility::spec_deserialize(t2) == Ok::<(<TeamTagNameVisibility as Codec>::Model, Seq<u8>), DeserializeErr>((m.tag_name_visibility, t3)));
        TeamCollisionRule::lemma_round_trip(m.collision_rule, t4);
        assert(TeamCollisionRule::spec_deserialize(t3) == Ok::<(<TeamCollisionRule as Codec>::Model, Seq<u8>), DeserializeErr>((m.collision_rule, t4)));
        VarInt::lemma_round_trip(m.color, t5);
        assert(VarInt::spec_deserialize(t4) == Ok::<(<VarInt as Codec>::Model, Seq<u8>), DeserializeErr>((m.color, t5)));
        Chat::lemma_round_trip(m.prefix, t6);
        assert(Chat::spec_deserialize(t5) == Ok::<(<Chat as Codec>::Model, Seq<u8>), DeserializeErr>((m.prefix, t6)));
        Chat::lemma_round_trip(m.suffix, t7);
        assert(Chat::spec_deserialize(t6) == Ok::<(<Chat as Codec>::Model, Seq<u8>), DeserializeErr>((m.suffix, t7)));
        VarIntCountedArray::<TeamMember>::lemma_round_trip(m.entities, rest);
        assert(VarIntCountedArray::<TeamMember>::spec_deserialize(t7) == Ok::<(<VarIntCountedArray<TeamMember> as Codec>::Model, Seq<u8>), DeserializeErr>((m.entities, rest)));
    }

    fn mc_serialize(&self, to: &mut Vec<u8>) {
        let ghost start = to@;
        self.display_name.mc_serialize(to);
        self.friendly_flags.mc_serialize(to);
        proof {
            lemma_concat_associative(start, Chat::spec_serialize(self.display_name.model()), TeamFriendlyFlags::spec_serialize(self.friendly_flags.model()));
        }
        self.tag_name_visibility.mc_serialize(to);
        proof {
            lemma_concat_associative(start, Chat::spec_serialize(self.display_name.model()) + TeamFriendlyFlags::spec_serialize(self.friendly_flags.model()), TeamTagNameVisibility::spec_serialize(self.tag_name_visibility.model()));
        }
        self.collision_rule.mc_serialize(to);
        proof {
            lemma_concat_associative(start, Chat::spec_serialize(self.display_name.model()) + TeamFriendlyFlags::spec_serialize(self.friendly_flags.model()) + TeamTagNameVisibility::spec_serialize(self.tag_name_visibility.model()), TeamCollisionRule::spec_serialize(self.collision_rule.model()));
        }
        self.color.mc_serialize(to);
        proof {
            lemma_concat_associative(start, Chat::spec_serialize(self.display_name.model()) + TeamFriendlyFlags::spec_serialize(self.friendly_flags.model()) + TeamTagNameVisibility::spec_serialize(self.tag_name_visibility.model()) + TeamCollisionRule::spec_serialize(self.collision_rule.model()), VarInt::spec_serialize(self.color.model()));
        }
        self.prefix.mc_serialize(to);
        proof {
            lemma_concat_associative(start, Chat::spec_serialize(self.display_name.model()) + TeamFriendlyFlags::spec_serialize(self.friendly_flags.model()) + TeamTagNameVisibility::spec_serialize(self.tag_name_visibility.model()) + TeamCollisionRule::spec_serialize(self.collision_rule.model()) + VarInt::spec_serialize(self.color.model()), Chat::spec_serialize(self.prefix.model()));
        }
        self.suffix.mc_serialize(to);
        proof {
            lemma_concat_associative(start, Chat::spec_serialize(self.display_name.model()) + TeamFriendlyFlags::spec_serialize(self.friendly_flags.model()) + TeamTagNameVisibility::spec_serialize(self.tag_name_visibility.model()) + TeamCollisionRule::spec_serialize(self.collision_rule.model()) + VarInt::spec_serialize(self.color.model()) + Chat::spec_serialize(self.prefix.model()), Chat::spec_serialize(self.suffix.model()));
        }
        self.entities.mc_serialize(to);
        proof {
            lemma_concat_associative(start, Chat::spec_serialize(self.display_name.model()) + TeamFriendlyFlags::spec_serialize(self.friendly_flags.model()) + TeamTagNameVisibility::spec_serialize(self.tag_name_visibility.model()) + TeamCollisionRule::spec_serialize(self.collision_rule.model()) + VarInt::spec_serialize(self.color.model()) + Chat::spec_serialize(self.prefix.model()) + Chat::spec_serialize(self.suffix.model()), VarIntCountedArray::<TeamMember>::spec_serialize(self.entities.model()));
        }
        assert(to@ =~= start + Self::spec_serialize(self.model()));
    }

    fn mc_deserialize(data: &[u8]) -> (r: Result<(Self, &[u8]), DeserializeErr>) {
        let (display_name, rest) = Chat::mc_deserialize(data)?;
        let (friendly_flags, rest) = TeamFriendlyFlags::mc_deserialize(rest)?;
        let (tag_name_visibility, rest) = TeamTagNameVisibility::mc_deserialize(rest)?;
        let (collision_rule, rest) = TeamCollisionRule::mc_deserialize(rest)?;
        let (color, rest) = VarInt::mc_deserialize(rest)?;
        let (prefix, rest) = Chat::mc_deserialize(rest)?;
        let (suffix, rest) = Chat::mc_deserialize(rest)?;
        let (entities, rest) = VarIntCountedArray::<TeamMember>::mc_deserialize(rest)?;
        Ok((TeamActionCreateSpec { display_name, friendly_flags, tag_name_visibility, collision_rule, color, prefix, suffix, entities }, rest))
    }
}

/// A team action update info spec as values.
pub struct TeamActionUpdateInfoSpecModel {
    pub display_name: <Chat as Codec>::Model,
    pub friendly_flags: <TeamFriendlyFlags as Codec>::Model,
    pub tag_name_visibility: <TeamTagNameVisibility as Codec>::Model,
    pub collision_rule: <TeamCollisionRule as Codec>::Model,
    pub color: <VarInt as Codec>::Model,
    pub prefix: <Chat as Codec>::Model,
    pub suffix: <Chat as Codec>::Model,
}

/// The team action update info spec
#[derive(Debug, Clone, PartialEq, Eq)]
pub struct TeamActionUpdateInfoSpec {
    pub display_name: Chat,
    pub friendly_flags: TeamFriendlyFlags,
    pub tag_name_visibility: TeamTagNameVisibility,
    pub collision_rule: TeamCollisionRule,
    pub color: VarInt,
    pub prefix: Chat,
    pub suffix: Chat,
}

impl Codec for TeamActionUpdateInfoSpec {
    type Model = TeamActionUpdateInfoSpecModel;

    open spec fn model(&self) -> TeamActionUpdateInfoSpecModel {
        TeamActionUpdateInfoSpecModel { display_name: self.display_name.model(), friendly_flags: self.friendly_flags.model(), tag_name_visibility: self.tag_name_visibility.model(), collision_rule: self.collision_rule.model(), color: self.color.model(), prefix: self.prefix.model(), suffix: self.suffix.model() }
    }

    open spec fn encodable(m: TeamActionUpdateInfoSpecModel) -> bool {
        Chat::encodable(m.display_name) && TeamFriendlyFlags::encodable(m.friendly_flags) && TeamTagNameVisibility::encodable(m.tag_name_visibility) && TeamCollisionRule::encodable(m.collision_rule) && VarInt::encodable(m.color) && Chat::encodable(m.prefix) && Chat::encodable(m.suffix)
    }

    open spec fn legal(m: TeamActionUpdateInfoSpecModel) -> bool {
        Chat::legal(m.display_name) && TeamFriendlyFlags::legal(m.friendly_flags) && TeamTagNameVisibility::legal(m.tag_name_visibility) && TeamCollisionRule::legal(m.collision_rule) && VarInt::legal(m.color) && Chat::legal(m.prefix) && Chat::legal(m.suffix)
    }

    open spec fn spec_serialize(m: TeamActionUpdateInfoSpecModel) -> Seq<u8> {
        Chat::spec_serialize(m.display_name) + TeamFriendlyFlags::spec_serialize(m.friendly_flags) + TeamTagNameVisibility::spec_serialize(m.tag_name_visibility) + TeamCollisionRule::spec_serialize(m.collision_rule) + VarInt::spec_serialize(m.color) + Chat::spec_serialize(m.prefix) + Chat::spec_serialize(m.suffix)
    }

    open spec fn spec_deserialize(s: Seq<u8>) -> SpecResult<TeamActionUpdateInfoSpecModel> {
        match Chat::spec_deserialize(s) {
            Err(e) => Err(e),
            Ok((display_name, r1)) => match TeamFriendlyFlags::spec_deserialize(r1) {
                Err(e) => Err(e),
                Ok((friendly_flags, r2)) => match TeamTagNameVisibility::spec_deserialize(r2) {
                    Err(e) => Err(e),
                    Ok((tag_name_visibility, r3)) => match TeamCollisionRule::spec_deserialize(r3) {
                        Err(e) => Err(e),
                        Ok((collision_rule, r4)) => match VarInt::spec_deserialize(r4) {
                            Err(e) => Err(e),
                            Ok((color, r5)) => match Chat::spec_deserialize(r5) {
                                Err(e) => Err(e),
                                Ok((prefix, r6)) => match Chat::spec_deserialize(r6) {
                                    Err(e) => Err(e),
                                    Ok((suffix, r7)) => Ok((TeamActionUpdateInfoSpecModel { display_name, friendly_flags, tag_name_visibility, collision_rule, color, prefix, suffix }, r7)),
                                },
                            },
                        },
                    },
                },
            },
        }
    }

    #[verifier::rlimit(100)]
    #[verifier::spinoff_prover]
    proof fn lemma_round_trip(m: TeamActionUpdateInfoSpecModel, rest: Seq<u8>) {
        let t6 = Chat::spec_serialize(m.suffix) + rest;
        let t5 = Chat::spec_serialize(m.prefix) + t6;
        let t4 = VarInt::spec_serialize(m.color) + t5;
        let t3 = TeamCollisionRule::spec_serialize(m.collision_rule) + t4;
        let t2 = TeamTagNameVisibility::spec_serialize(m.tag_name_visibility) + t3;
        let t1 = TeamFriendlyFlags::spec_serialize(m.friendly_flags) + t2;
        let p1 = Chat::spec_serialize(m.display_name);
        let p2 = p1 + TeamFriendlyFlags::spec_serialize(m.friendly_flags);
        let p3 = p2 + TeamTagNameVisibility::spec_serialize(m.tag_name_visibility);
        let p4 = p3 + TeamCollisionRule::spec_serialize(m.collision_rule);
        let p5 = p4 + VarInt::spec_serialize(m.color);
        let p6 = p5 + Chat::spec_serialize(m.prefix);
        let p7 = p6 + Chat::spec_serialize(m.suffix);
        assert(Self::spec_serialize(m) == p7);
        lemma_concat_associative(p6, Chat::spec_serialize(m.suffix), rest);
        lemma_concat_associative(p5, Chat::spec_serialize(m.prefix), t6);
        lemma_concat_associative(p4, VarInt::spec_serialize(m.color), t5);
        lemma_concat_associative(p3, TeamCollisionRule::spec_serialize(m.collision_rule), t4);
        lemma_concat_associative(p2, TeamTagNameVisibility::spec_serialize(m.tag_name_visibility), t3);
        lemma_concat_associative(p1, TeamFriendlyFlags::spec_serialize(m.friendly_flags), t2);
        Chat::lemma_round_trip(m.display_name, t1);
        assert(Chat::spec_deserialize(Self::spec_serialize(m) + rest) == Ok::<(<Chat as Codec>::Model, Seq<u8>), DeserializeErr>((m.display_name, t1)));
        TeamFriendlyFlags::lemma_round_trip(m.friendly_flags, t2);
        assert(TeamFriendlyFlags::spec_deserialize(t1) == Ok::<(<TeamFriendlyFlags as Codec>::Model, Seq<u8>), DeserializeErr>((m.friendly_flags, t2)));
        TeamTagNameVisibility::lemma_round_trip(m.tag_name_visibility, t3);
        assert(TeamTagNameVisibility::spec_deserialize(t2) == Ok::<(<TeamTagNameVisibility as Codec>::Model, Seq<u8>), DeserializeErr>((m.tag_name_visibility, t3)));
        TeamCollisionRule::lemma_round_trip(m.collision_rule, t4);
        assert(TeamCollisionRule::spec_deserialize(t3) == Ok::<(<TeamCollisionRule as Codec>::Model, Seq<u8>), DeserializeErr>((m.collision_rule, t4)));
        VarInt::lemma_round_trip(m.color, t5);
        assert(VarInt::spec_deserialize(t4) == Ok::<(<VarInt as Codec>::Model, Seq<u8>), DeserializeErr>((m.color, t5)));
        Chat::lemma_round_trip(m.prefix, t6);
        assert(Chat::spec_deserialize(t5) == Ok::<(<Chat as Codec>::Model, Seq<u8>), DeserializeErr>((m.prefix, t6)));
        Chat::lemma_round_trip(m.suffix, rest);
        assert(Chat::spec_deserialize(t6) == Ok::<(<Chat as Codec>::Model, Seq<u8>), DeserializeErr>((m.suffix, rest)));
    }

    fn mc_serialize(&self, to: &mut Vec<u8>) {
        let ghost start = to@;
        self.display_name.mc_serialize(to);
        self.friendly_flags.mc_serialize(to);
        proof {
            lemma_concat_associative(start, Chat::spec_serialize(self.display_name.model()), TeamFriendlyFlags::spec_serialize(self.friendly_flags.model()));
        }
        self.tag_name_visibility.mc_serialize(to);
        proof {
            lemma_concat_associative(start, Chat::spec_serialize(self.display_name.model()) + TeamFriendlyFlags::spec_serialize(self.friendly_flags.model()), TeamTagNameVisibility::spec_serialize(self.tag_name_visibility.model()));
        }
        self.collision_rule.mc_serialize(to);
        proof {
            lemma_concat_associative(start, Chat::spec_serialize(self.display_name.model()) + TeamFriendlyFlags::spec_serialize(self.friendly_flags.model()) + TeamTagNameVisibility::spec_serialize(self.tag_name_visibility.model()), TeamCollisionRule::spec_serialize(self.collision_rule.model()));
        }
        self.color.mc_serialize(to);
        proof {
            lemma_concat_associative(start, Chat::spec_serialize(self.display_name.model()) + TeamFriendlyFlags::spec_serialize(self.friendly_flags.model()) + TeamTagNameVisibility::spec_serialize(self.tag_name_visibility.model()) + TeamCollisionRule::spec_serialize(self.collision_rule.model()), VarInt::spec_serialize(self.color.model()));
        }
        self.prefix.mc_serialize(to);
        proof {
            lemma_concat_associative(start, Chat::spec_serialize(self.display_name.model()) + TeamFriendlyFlags::spec_serialize(self.friendly_flags.model()) + TeamTagNameVisibility::spec_serialize(self.tag_name_visibility.model()) + TeamCollisionRule::spec_serialize(self.collision_rule.model()) + VarInt::spec_serialize(self.color.model()), Chat::spec_serialize(self.prefix.model()));
        }
        self.suffix.mc_serialize(to);
        proof {
            lemma_concat_associative(start, Chat::spec_serialize(self.display_name.model()) + TeamFriendlyFlags::spec_serialize(self.friendly_flags.model()) + TeamTagNameVisibility::spec_serialize(self.tag_name_visibility.model()) + TeamCollisionRule::spec_serialize(self.collision_rule.model()) + VarInt::spec_serialize(self.color.model()) + Chat::spec_serialize(self.prefix.model()), Chat::spec_serialize(self.suffix.model()));
        }
        assert(to@ =~= start + Self::spec_serialize(self.model()));
    }

    fn mc_deserialize(data: &[u8]) -> (r: Result<(Self, &[u8]), DeserializeErr>) {
        let (display_name, rest) = Chat::mc_deserialize(data)?;
        let (friendly_flags, rest) = TeamFriendlyFlags::mc_deserialize(rest)?;
        let (tag_name_visibility, rest) = TeamTagNameVisibility::mc_deserialize(rest)?;
        let (collision_rule, rest) = TeamCollisionRule::mc_deserialize(rest)?;
        let (color, rest) = VarInt::mc_deserialize(rest)?;
        let (prefix, rest) = Chat::mc_deserialize(rest)?;
        let (suffix, rest) = Chat::mc_deserialize(rest)?;
        Ok((TeamActionUpdateInfoSpec { display_name, friendly_flags, tag_name_visibility, collision_rule, color, prefix, suffix }, rest))
    }
}

/// A title times spec as values.
pub struct TitleTimesSpecModel {
    pub fade_in: <i32 as Codec>::Model,
    pub stay: <i32 as Codec>::Model,
    pub fade_out: <i32 as Codec>::Model,
}

/// The title times spec
#[derive(Debug, Clone, PartialEq, Eq)]
pub struct TitleTimesSpec {
    pub fade_in: i32,
    pub stay: i32,
    pub fade_out: i32,
}

impl Codec for TitleTimesSpec {
    type Model = TitleTimesSpecModel;

    open spec fn model(&self) -> TitleTimesSpecModel {
        TitleTimesSpecModel { fade_in: self.fade_in.model(), stay: self.stay.model(), fade_out: self.fade_out.model() }
    }

    open spec fn encodable(m: TitleTimesSpecModel) -> bool {
        i32::encodable(m.fade_in) && i32::encodable(m.stay) && i32::encodable(m.fade_out)
    }

    open spec fn legal(m: TitleTimesSpecModel) -> bool {
        i32::legal(m.fade_in) && i32::legal(m.stay) && i32::legal(m.fade_out)
    }

    open spec fn spec_serialize(m: TitleTimesSpecModel) -> Seq<u8> {
        i32::spec_serialize(m.fade_in) + i32::spec_serialize(m.stay) + i32::spec_serialize(m.fade_out)
    }

    open spec fn spec_deserialize(s: Seq<u8>) -> SpecResult<TitleTimesSpecModel> {
        match i32::spec_deserialize(s) {
            Err(e) => Err(e),
            Ok((fade_in, r1)) => match i32::spec_deserialize(r1) {
                Err(e) => Err(e),
                Ok((stay, r2)) => match i32::spec_deserialize(r2) {
                    Err(e) => Err(e),
                    Ok((fade_out, r3)) => Ok((TitleTimesSpecModel { fade_in, stay, fade_out }, r3)),
                },
            },
        }
    }

    proof fn lemma_round_trip(m: TitleTimesSpecModel, rest: Seq<u8>) {
        let t2 = i32::spec_serialize(m.fade_out) + rest;
        let t1 = i32::spec_serialize(m.stay) + t2;
        let p1 = i32::spec_serialize(m.fade_in);
        let p2 = p1 + i32::spec_serialize(m.stay);
        let p3 = p2 + i32::spec_serialize(m.fade_out);
        assert(Self::spec_serialize(m) == p3);
        lemma_concat_associative(p2, i32::spec_serialize(m.fade_out), rest);
        lemma_concat_associative(p1, i32::spec_serialize(m.stay), t2);
        i32::lemma_round_trip(m.fade_in, t1);
        i32::lemma_round_trip(m.stay, t2);
        i32::lemma_round_trip(m.fade_out, rest);
    }

    fn mc_serialize(&self, to: &mut Vec<u8>) {
        let ghost start = to@;
        self.fade_in.mc_serialize(to);
        self.stay.mc_serialize(to);
        proof {
            lemma_concat_associative(start, i32::spec_serialize(self.fade_in.model()), i32::spec_serialize(self.stay.model()));
        }
        self.fade_out.mc_serialize(to);
        proof {
            lemma_concat_associative(start, i32::spec_serialize(self.fade_in.model()) + i32::spec_serialize(self.stay.model()), i32::spec_serialize(self.fade_out.model()));
        }
        assert(to@ =~= start + Self::spec_serialize(self.model()));
    }

    fn mc_deserialize(data: &[u8]) -> (r: Result<(Self, &[u8]), DeserializeErr>) {
        let (fade_in, rest) = i32::mc_deserialize(data)?;
        let (stay, rest) = i32::mc_deserialize(rest)?;
        let (fade_out, rest) = i32::mc_deserialize(rest)?;
        Ok((TitleTimesSpec { fade_in, stay, fade_out }, rest))
    }
}

/// A explosion record as values.
pub struct ExplosionRecordModel {
    pub x: <i8 as Codec>::Model,
    pub y: <i8 as Codec>::Model,
    pub z: <i8 as Codec>::Model,
}

/// The explosion record
#[derive(Debug, Clone, PartialEq, Eq)]
pub struct ExplosionRecord {
    pub x: i8,
    pub y: i8,
    pub z: i8,
}

impl Codec for ExplosionRecord {
    type Model = ExplosionRecordModel;

    open spec fn model(&self) -> ExplosionRecordModel {
        ExplosionRecordModel { x: self.x.model(), y: self.y.model(), z: self.z.model() }
    }

    open spec fn encodable(m: ExplosionRecordModel) -> bool {
        i8::encodable(m.x) && i8::encodable(m.y) && i8::encodable(m.z)
    }

    open spec fn legal(m: ExplosionRecordModel) -> bool {
        i8::legal(m.x) && i8::legal(m.y) && i8::legal(m.z)
    }

    open spec fn spec_serialize(m: ExplosionRecordModel) -> Seq<u8> {
        i8::spec_serialize(m.x) + i8::spec_serialize(m.y) + i8::spec_serialize(m.z)
    }

    open spec fn spec_deserialize(s: Seq<u8>) -> SpecResult<ExplosionRecordModel> {
        match i8::spec_deserialize(s) {
            Err(e) => Err(e),
            Ok((x, r1)) => match i8::spec_deserialize(r1) {
                Err(e) => Err(e),
                Ok((y, r2)) => match i8::spec_deserialize(r2) {
                    Err(e) => Err(e),
                    Ok((z, r3)) => Ok((ExplosionRecordModel { x, y, z }, r3)),
                },
            },
        }
    }

    proof fn lemma_round_trip(m: ExplosionRecordModel, rest: Seq<u8>) {
        let t2 = i8::spec_serialize(m.z) + rest;
        let t1 = i8::spec_serialize(m.y) + t2;
        let p1 = i8::spec_serialize(m.x);
        let p2 = p1 + i8::spec_serialize(m.y);
        let p3 = p2 + i8::spec_serialize(m.z);
        assert(Self::spec_serialize(m) == p3);
        lemma_concat_associative(p2, i8::spec_serialize(m.z), rest);
        lemma_concat_associative(p1, i8::spec_serialize(m.y), t2);
        i8::lemma_round_trip(m.x, t1);
        i8::lemma_round_trip(m.y, t2);
        i8::lemma_round_trip(m.z, rest);
    }

    fn mc_serialize(&self, to: &mut Vec<u8>) {
        let ghost start = to@;
        self.x.mc_serialize(to);
        self.y.mc_serialize(to);
        proof {
            lemma_concat_associative(start, i8::spec_serialize(self.x.model()), i8::spec_serialize(self.y.model()));
        }
        self.z.mc_serialize(to);
        proof {
            lemma_concat_associative(start, i8::spec_serialize(self.x.model()) + i8::spec_serialize(self.y.model()), i8::spec_serialize(self.z.model()));
        }
        assert(to@ =~= start + Self::spec_serialize(self.model()));
    }

    fn mc_deserialize(data: &[u8]) -> (r: Result<(Self, &[u8]), DeserializeErr>) {
        let (x, rest) = i8::mc_deserialize(data)?;
        let (y, rest) = i8::mc_deserialize(rest)?;
        let (z, rest) = i8::mc_deserialize(rest)?;
        Ok((ExplosionRecord { x, y, z }, rest))
    }
}

/// A map icon spec as values.
pub struct MapIconSpecModel {
    pub kind: <MapIconType as Codec>::Model,
    pub x: <i8 as Codec>::Model,
    pub z: <i8 as Codec>::Model,
    pub direction: <i8 as Codec>::Model,
    pub display_name: <Option<Chat> as Codec>::Model,
}

/// The map icon spec
#[derive(Debug, Clone, PartialEq, Eq)]
pub struct MapIconSpec {
    pub kind: MapIconType,
    pub x: i8,
    pub z: i8,
    pub direction: i8,
    pub display_name: Option<Chat>,
}

impl Codec for MapIconSpec {
    type Model = MapIconSpecModel;

    open spec fn model(&self) -> MapIconSpecModel {
        MapIconSpecModel { kind: self.kind.model(), x: self.x.model(), z: self.z.model(), direction: self.direction.model(), display_name: self.display_name.model() }
    }

    open spec fn encodable(m: MapIconSpecModel) -> bool {
        MapIconType::encodable(m.kind) && i8::encodable(m.x) && i8::encodable(m.z) && i8::encodable(m.direction) && Option::<Chat>::encodable(m.display_name)
    }

    open spec fn legal(m: MapIconSpecModel) -> bool {
        MapIconType::legal(m.kind) && i8::legal(m.x) && i8::legal(m.z) && i8::legal(m.direction) && Option::<Chat>::legal(m.display_name)
    }

    open spec fn spec_serialize(m: MapIconSpecModel) -> Seq<u8> {
        MapIconType::spec_serialize(m.kind) + i8::spec_serialize(m.x) + i8::spec_serialize(m.z) + i8::spec_serialize(m.direction) + Option::<Chat>::spec_serialize(m.display_name)
    }

    open spec fn spec_deserialize(s: Seq<u8>) -> SpecResult<MapIconSpecModel> {
        match MapIconType::spec_deserialize(s) {
            Err(e) => Err(e),
            Ok((kind, r1)) => match i8::spec_deserialize(r1) {
                Err(e) => Err(e),
                Ok((x, r2)) => match i8::spec_deserialize(r2) {
                    Err(e) => Err(e),
                    Ok((z, r3)) => match i8::spec_deserialize(r3) {
                        Err(e) => Err(e),
                        Ok((direction, r4)) => match Option::<Chat>::spec_deserialize(r4) {
                            Err(e) => Err(e),
                            Ok((display_name, r5)) => Ok((MapIconSpecModel { kind, x, z, direction, display_name }, r5)),
                        },
                    },
                },
            },
        }
    }

    #[verifier::rlimit(100)]
    #[verifier::spinoff_prover]
    proof fn lemma_round_trip(m: MapIconSpecModel, rest: Seq<u8>) {
        let t4 = Option::<Chat>::spec_serialize(m.display_name) + rest;
        let t3 = i8::spec_serialize(m.direction) + t4;
        let t2 = i8::spec_serialize(m.z) + t3;
        let t1 = i8::spec_serialize(m.x) + t2;
        let p1 = MapIconType::spec_serialize(m.kind);
        let p2 = p1 + i8::spec_serialize(m.x);
        let p3 = p2 + i8::spec_serialize(m.z);
        let p4 = p3 + i8::spec_serialize(m.direction);
        let p5 = p4 + Option::<Chat>::spec_serialize(m.display_name);
        assert(Self::spec_serialize(m) == p5);
        lemma_concat_associative(p4, Option::<Chat>::spec_serialize(m.display_name), rest);
        lemma_concat_associative(p3, i8::spec_serialize(m.direction), t4);
        lemma_concat_associative(p2, i8::spec_serialize(m.z), t3);
        lemma_concat_associative(p1, i8::spec_serialize(m.x), t2);
        MapIconType::lemma_round_trip(m.kind, t1);
        assert(MapIconType::spec_deserialize(Self::spec_serialize(m) + rest) == Ok::<(<MapIconType as Codec>::Model, Seq<u8>), DeserializeErr>((m.kind, t1)));
        i8::lemma_round_trip(m.x, t2);
        assert(i8::spec_deserialize(t1) == Ok::<(<i8 as Codec>::Model, Seq<u8>), DeserializeErr>((m.x, t2)));
        i8::lemma_round_trip(m.z, t3);
        assert(i8::spec_deserialize(t2) == Ok::<(<i8 as Codec>::Model, Seq<u8>), DeserializeErr>((m.z, t3)));
        i8::lemma_round_trip(m.direction, t4);
        assert(i8::spec_deserialize(t3) == Ok::<(<i8 as Codec>::Model, Seq<u8>), DeserializeErr>((m.direction, t4)));
        Option::<Chat>::lemma_round_trip(m.display_name, rest);
        assert(Option::<Chat>::spec_deserialize(t4) == Ok::<(<Option<Chat> as Codec>::Model, Seq<u8>), DeserializeErr>((m.display_name, rest)));
    }

    fn mc_serialize(&self, to: &mut Vec<u8>) {
        let ghost start = to@;
        self.kind.mc_serialize(to);
        self.x.mc_serialize(to);
        proof {
            lemma_concat_associative(start, MapIconType::spec_serialize(self.kind.model()), i8::spec_serialize(self.x.model()));
        }
        self.z.mc_serialize(to);
        proof {
            lemma_concat_associative(start, MapIconType::spec_serialize(self.kind.model()) + i8::spec_serialize(self.x.model()), i8::spec_serialize(self.z.model()));
        }
        self.direction.mc_serialize(to);
        proof {
            lemma_concat_associative(start, MapIconType::spec_serialize(self.kind.model()) + i8::spec_serialize(self.x.model()) + i8::spec_serialize(self.z.model()), i8::spec_serialize(self.direction.model()));
        }
        self.display_name.mc_serialize(to);
        proof {
            lemma_concat_associative(start, MapIconType::spec_serialize(self.kind.model()) + i8::spec_serialize(self.x.model()) + i8::spec_serialize(self.z.model()) + i8::spec_serialize(self.direction.model()), Option::<Chat>::spec_serialize(self.display_name.model()));
        }
        assert(to@ =~= start + Self::spec_serialize(self.model()));
    }

    fn mc_deserialize(data: &[u8]) -> (r: Result<(Self, &[u8]), DeserializeErr>) {
        let (kind, rest) = MapIconType::mc_deserialize(data)?;
        let (x, rest) = i8::mc_deserialize(rest)?;
        let (z, rest) = i8::mc_deserialize(rest)?;
        let (direction, rest) = i8::mc_deserialize(rest)?;
        let (display_name, rest) = Option::<Chat>::mc_deserialize(rest)?;
        Ok((MapIconSpec { kind, x, z, direction, display_name }, rest))
    }
}

/// A trade spec as values.
pub struct TradeSpecModel {
    pub input_item_1: <Option<Slot> as Codec>::Model,
    pub output_item: <Option<Slot> as Codec>::Model,
    pub input_item_2: <Option<Slot> as Codec>::Model,
    pub trade_disabled: <bool as Codec>::Model,
    pub trade_uses: <i32 as Codec>::Model,
    pub max_trade_uses: <i32 as Codec>::Model,
    pub xp: <i32 as Codec>::Model,
    pub special_price: <i32 as Codec>::Model,
    pub price_multiplier: <Float32 as Codec>::Model,
    pub demand: <i32 as Codec>::Model,
}

/// The trade spec
#[derive(Debug, Clone, PartialEq, Eq)]
pub struct TradeSpec {
    pub input_item_1: Option<Slot>,
    pub output_item: Option<Slot>,
    pub input_item_2: Option<Slot>,
    pub trade_disabled: bool,
    pub trade_uses: i32,
    pub max_trade_uses: i32,
    pub xp: i32,
    pub special_price: i32,
    pub price_multiplier: Float32,
    pub demand: i32,
}

impl Codec for TradeSpec {
    type Model = TradeSpecModel;

    open spec fn model(&self) -> TradeSpecModel {
        TradeSpecModel { input_item_1: self.input_item_1.model(), output_item: self.output_item.model(), input_item_2: self.input_item_2.model(), trade_disabled: self.trade_disabled.model(), trade_uses: self.trade_uses.model(), max_trade_uses: self.max_trade_uses.model(), xp: self.xp.model(), special_price: self.special_price.model(), price_multiplier: self.price_multiplier.model(), demand: self.demand.model() }
    }

    open spec fn encodable(m: TradeSpecModel) -> bool {
        Option::<Slot>::encodable(m.input_item_1) && Option::<Slot>::encodable(m.output_item) && Option::<Slot>::encodable(m.input_item_2) && bool::encodable(m.trade_disabled) && i32::encodable(m.trade_uses) && i32::encodable(m.max_trade_uses) && i32::encodable(m.xp) && i32::encodable(m.special_price) && Float32::encodable(m.price_multiplier) && i32::encodable(m.demand)
    }

    open spec fn legal(m: TradeSpecModel) -> bool {
        Option::<Slot>::legal(m.input_item_1) && Option::<Slot>::legal(m.output_item) && Option::<Slot>::legal(m.input_item_2) && bool::legal(m.trade_disabled) && i32::legal(m.trade_uses) && i32::legal(m.max_trade_uses) && i32::legal(m.xp) && i32::legal(m.special_price) && Float32::legal(m.price_multiplier) && i32::legal(m.demand)
    }

    open spec fn spec_serialize(m: TradeSpecModel) -> Seq<u8> {
        Option::<Slot>::spec_serialize(m.input_item_1) + Option::<Slot>::spec_serialize(m.output_item) + Option::<Slot>::spec_serialize(m.input_item_2) + bool::spec_serialize(m.trade_disabled) + i32::spec_serialize(m.trade_uses) + i32::spec_serialize(m.max_trade_uses) + i32::spec_serialize(m.xp) + i32::spec_serialize(m.special_price) + Float32::spec_serialize(m.price_multiplier) + i32::spec_serialize(m.demand)
    }

    open spec fn spec_deserialize(s: Seq<u8>) -> SpecResult<TradeSpecModel> {
        match Option::<Slot>::spec_deserialize(s) {
            Err(e) => Err(e),
            Ok((input_item_1, r1)) => match Option::<Slot>::spec_deserialize(r1) {
                Err(e) => Err(e),
                Ok((output_item, r2)) => match Option::<Slot>::spec_deserialize(r2) {
                    Err(e) => Err(e),
                    Ok((input_item_2, r3)) => match bool::spec_deserialize(r3) {
                        Err(e) => Err(e),
                        Ok((trade_disabled, r4)) => match i32::spec_deserialize(r4) {
                            Err(e) => Err(e),
                            Ok((trade_uses, r5)) => match i32::spec_deserialize(r5) {
                                Err(e) => Err(e),
                                Ok((max_trade_uses, r6)) => match i32::spec_deserialize(r6) {
                                    Err(e) => Err(e),
                                    Ok((xp, r7)) => match i32::spec_deserialize(r7) {
                                        Err(e) => Err(e),
                                        Ok((special_price, r8)) => match Float32::spec_deserialize(r8) {
                                            Err(e) => Err(e),
                                            Ok((price_multiplier, r9)) => match i32::spec_deserialize(r9) {
                                                Err(e) => Err(e),
                                                Ok((demand, r10)) => Ok((TradeSpecModel { input_item_1, output_item, input_item_2, trade_disabled, trade_uses, max_trade_uses, xp, special_price, price_multiplier, demand }, r10)),
                                            },
                                        },
                                    },
                                },
                            },
                        },
                    },
                },
            },
        }
    }

    #[verifier::rlimit(100)]
    #[verifier::spinoff_prover]
    proof fn lemma_round_trip(m: TradeSpecModel, rest: Seq<u8>) {
        let t9 = i32::spec_serialize(m.demand) + rest;
        let t8 = Float32::spec_serialize(m.price_multiplier) + t9;
        let t7 = i32::spec_serialize(m.special_price) + t8;
        let t6 = i32::spec_serialize(m.xp) + t7;
        let t5 = i32::spec_serialize(m.max_trade_uses) + t6;
        let t4 = i32::spec_serialize(m.trade_uses) + t5;
        let t3 = bool::spec_serialize(m.trade_disabled) + t4;
        let t2 = Option::<Slot>::spec_serialize(m.input_item_2) + t3;
        let t1 = Option::<Slot>::spec_serialize(m.output_item) + t2;
        let p1 = Option::<Slot>::spec_serialize(m.input_item_1);
        let p2 = p1 + Option::<Slot>::spec_serialize(m.output_item);
        let p3 = p2 + Option::<Slot>::spec_serialize(m.input_item_2);
        let p4 = p3 + bool::spec_serialize(m.trade_disabled);
        let p5 = p4 + i32::spec_serialize(m.trade_uses);
        let p6 = p5 + i32::spec_serialize(m.max_trade_uses);
        let p7 = p6 + i32::spec_serialize(m.xp);
        let p8 = p7 + i32::spec_serialize(m.special_price);
        let p9 = p8 + Float32::spec_serialize(m.price_multiplier);
        let p10 = p9 + i32::spec_serialize(m.demand);
        assert(Self::spec_serialize(m) == p10);
        lemma_concat_associative(p9, i32::spec_serialize(m.demand), rest);
        lemma_concat_associative(p8, Float32::spec_serialize(m.price_multiplier), t9);
        lemma_concat_associative(p7, i32::spec_serialize(m.special_price), t8);
        lemma_concat_associative(p6, i32::spec_serialize(m.xp), t7);
        lemma_concat_associative(p5, i32::spec_serialize(m.max_trade_uses), t6);
        lemma_concat_associative(p4, i32::spec_serialize(m.trade_uses), t5);
        lemma_concat_associative(p3, bool::spec_serialize(m.trade_disabled), t4);
        lemma_concat_associative(p2, Option::<Slot>::spec_serialize(m.input_item_2), t3);
        lemma_concat_associative(p1, Option::<Slot>::spec_serialize(m.output_item), t2);
        Option::<Slot>::lemma_round_trip(m.input_item_1, t1);
        assert(Option::<Slot>::spec_deserialize(Self::spec_serialize(m) + rest) == Ok::<(<Option<Slot> as Codec>::Model, Seq<u8>), DeserializeErr>((m.input_item_1, t1)));
        Option::<Slot>::lemma_round_trip(m.output_item, t2);
        assert(Option::<Slot>::spec_deserialize(t1) == Ok::<(<Option<Slot> as Codec>::Model, Seq<u8>), DeserializeErr>((m.output_item, t2)));
        Option::<Slot>::lemma_round_trip(m.input_item_2, t3);
        assert(Option::<Slot>::spec_deserialize(t2) == Ok::<(<Option<Slot> as Codec>::Model, Seq<u8>), DeserializeErr>((m.input_item_2, t3)));
        bool::lemma_round_trip(m.trade_disabled, t4);
        assert(bool::spec_deserialize(t3) == Ok::<(<bool as Codec>::Model, Seq<u8>), DeserializeErr>((m.trade_disabled, t4)));
        i32::lemma_round_trip(m.trade_uses, t5);
        assert(i32::spec_deserialize(t4) == Ok::<(<i32 as Codec>::Model, Seq<u8>), DeserializeErr>((m.trade_uses, t5)));
        i32::lemma_round_trip(m.max_trade_uses, t6);
        assert(i32::spec_deserialize(t5) == Ok::<(<i32 as Codec>::Model, Seq<u8>), DeserializeErr>((m.max_trade_uses, t6)));
        i32::lemma_round_trip(m.xp, t7);
        assert(i32::spec_deserialize(t6) == Ok::<(<i32 as Codec>::Model, Seq<u8>), DeserializeErr>((m.xp, t7)));
        i32::lemma_round_trip(m.special_price, t8);
        assert(i32::spec_deserialize(t7) == Ok::<(<i32 as Codec>::Model, Seq<u8>), DeserializeErr>((m.special_price, t8)));
        Float32::lemma_round_trip(m.price_multiplier, t9);
        assert(Float32::spec_deserialize(t8) == Ok::<(<Float32 as Codec>::Model, Seq<u8>), DeserializeErr>((m.price_multiplier, t9)));
        i32::lemma_round_trip(m.demand, rest);
        assert(i32::spec_deserialize(t9) == Ok::<(<i32 as Codec>::Model, Seq<u8>), DeserializeErr>((m.demand, rest)));
    }

    fn mc_serialize(&self, to: &mut Vec<u8>) {
        let ghost start = to@;
        self.input_item_1.mc_serialize(to);
        self.output_item.mc_serialize(to);
        proof {
            lemma_concat_associative(start, Option::<Slot>::spec_serialize(self.input_item_1.model()), Option::<Slot>::spec_serialize(self.output_item.model()));
        }
        self.input_item_2.mc_serialize(to);
        proof {
            lemma_concat_associative(start, Option::<Slot>::spec_serialize(self.input_item_1.model()) + Option::<Slot>::spec_serialize(self.output_item.model()), Option::<Slot>::spec_serialize(self.input_item_2.model()));
        }
        self.trade_disabled.mc_serialize(to);
        proof {
            lemma_concat_associative(start, Option::<Slot>::spec_serialize(self.input_item_1.model()) + Option::<Slot>::spec_serialize(self.output_item.model()) + Option::<Slot>::spec_serialize(self.input_item_2.model()), bool::spec_serialize(self.trade_disabled.model()));
        }
        self.trade_uses.mc_serialize(to);
        proof {
            lemma_concat_associative(start, Option::<Slot>::spec_serialize(self.input_item_1.model()) + Option::<Slot>::spec_serialize(self.output_item.model()) + Option::<Slot>::spec_serialize(self.input_item_2.model()) + bool::spec_serialize(self.trade_disabled.model()), i32::spec_serialize(self.trade_uses.model()));
        }
        self.max_trade_uses.mc_serialize(to);
        proof {
            lemma_concat_associative(start, Option::<Slot>::spec_serialize(self.input_item_1.model()) + Option::<Slot>::spec_serialize(self.output_item.model()) + Option::<Slot>::spec_serialize(self.input_item_2.model()) + bool::spec_serialize(self.trade_disabled.model()) + i32::spec_serialize(self.trade_uses.model()), i32::spec_serialize(self.max_trade_uses.model()));
        }
        self.xp.mc_serialize(to);
        proof {
            lemma_concat_associative(start, Option::<Slot>::spec_serialize(self.input_item_1.model()) + Option::<Slot>::spec_serialize(self.output_item.model()) + Option::<Slot>::spec_serialize(self.input_item_2.model()) + bool::spec_serialize(self.trade_disabled.model()) + i32::spec_serialize(self.trade_uses.model()) + i32::spec_serialize(self.max_trade_uses.model()), i32::spec_serialize(self.xp.model()));
        }
        self.special_price.mc_serialize(to);
        proof {
            lemma_concat_associative(start, Option::<Slot>::spec_serialize(self.input_item_1.model()) + Option::<Slot>::spec_serialize(self.output_item.model()) + Option::<Slot>::spec_serialize(self.input_item_2.model()) + bool::spec_serialize(self.trade_disabled.model()) + i32::spec_serialize(self.trade_uses.model()) + i32::spec_serialize(self.max_trade_uses.model()) + i32::spec_serialize(self.xp.model()), i32::spec_serialize(self.special_price.model()));
        }
        self.price_multiplier.mc_serialize(to);
        proof {
            lemma_concat_associative(start, Option::<Slot>::spec_serialize(self.input_item_1.model()) + Option::<Slot>::spec_serialize(self.output_item.model()) + Option::<Slot>::spec_serialize(self.input_item_2.model()) + bool::spec_serialize(self.trade_disabled.model()) + i32::spec_serialize(self.trade_uses.model()) + i32::spec_serialize(self.max_trade_uses.model()) + i32::spec_serialize(self.xp.model()) + i32::spec_serialize(self.special_price.model()), Float32::spec_serialize(self.price_multiplier.model()));
        }
        self.demand.mc_serialize(to);
        proof {
            lemma_concat_associative(start, Option::<Slot>::spec_serialize(self.input_item_1.model()) + Option::<Slot>::spec_serialize(self.output_item.model()) + Option::<Slot>::spec_serialize(self.input_item_2.model()) + bool::spec_serialize(self.trade_disabled.model()) + i32::spec_serialize(self.trade_uses.model()) + i32::spec_serialize(self.max_trade_uses.model()) + i32::spec_serialize(self.xp.model()) + i32::spec_serialize(self.special_price.model()) + Float32::spec_serialize(self.price_multiplier.model()), i32::spec_serialize(self.demand.model()));
        }
        assert(to@ =~= start + Self::spec_serialize(self.model()));
    }

    fn mc_deserialize(data: &[u8]) -> (r: Result<(Self, &[u8]), DeserializeErr>) {
        let (input_item_1, rest) = Option::<Slot>::mc_deserialize(data)?;
        let (output_item, rest) = Option::<Slot>::mc_deserialize(rest)?;
        let (input_item_2, rest) = Option::<Slot>::mc_deserialize(rest)?;
        let (trade_disabled, rest) = bool::mc_deserialize(rest)?;
        let (trade_uses, rest) = i32::mc_deserialize(rest)?;
        let (max_trade_uses, rest) = i32::mc_deserialize(rest)?;
        let (xp, rest) = i32::mc_deserialize(rest)?;
        let (special_price, rest) = i32::mc_deserialize(rest)?;
        let (price_multiplier, rest) = Float32::mc_deserialize(rest)?;
        let (demand, rest) = i32::mc_deserialize(rest)?;
        Ok((TradeSpec { input_item_1, output_item, input_item_2, trade_disabled, trade_uses, max_trade_uses, xp, special_price, price_multiplier, demand }, rest))
    }
}

/// A combat end spec as values.
pub struct CombatEndSpecModel {
    pub duration_ticks: <VarInt as Codec>::Model,
    pub entity_id: <i32 as Codec>::Model,
}

/// The combat end spec
#[derive(Debug, Clone, PartialEq, Eq)]
pub struct CombatEndSpec {
    pub duration_ticks: VarInt,
    pub entity_id: i32,
}

impl Codec for CombatEndSpec {
    type Model = CombatEndSpecModel;

    open spec fn model(&self) -> CombatEndSpecModel {
        CombatEndSpecModel { duration_ticks: self.duration_ticks.model(), entity_id: self.entity_id.model() }
    }

    open spec fn encodable(m: CombatEndSpecModel) -> bool {
        VarInt::encodable(m.duration_ticks) && i32::encodable(m.entity_id)
    }

    open spec fn legal(m: CombatEndSpecModel) -> bool {
        VarInt::legal(m.duration_ticks) && i32::legal(m.entity_id)
    }

    open spec fn spec_serialize(m: CombatEndSpecModel) -> Seq<u8> {
        VarInt::spec_serialize(m.duration_ticks) + i32::spec_serialize(m.entity_id)
    }

    open spec fn spec_deserialize(s: Seq<u8>) -> SpecResult<CombatEndSpecModel> {
        match VarInt::spec_deserialize(s) {
            Err(e) => Err(e),
            Ok((duration_ticks, r1)) => match i32::spec_deserialize(r1) {
                Err(e) => Err(e),
                Ok((entity_id, r2)) => Ok((CombatEndSpecModel { duration_ticks, entity_id }, r2)),
            },
        }
    }

    proof fn lemma_round_trip(m: CombatEndSpecModel, rest: Seq<u8>) {
        let t1 = i32::spec_serialize(m.entity_id) + rest;
        let p1 = VarInt::spec_serialize(m.duration_ticks);
        let p2 = p1 + i32::spec_serialize(m.entity_id);
        assert(Self::spec_serialize(m) == p2);
        lemma_concat_associative(p1, i32::spec_serialize(m.entity_id), rest);
        VarInt::lemma_round_trip(m.duration_ticks, t1);
        i32::lemma_round_trip(m.entity_id, rest);
    }

    fn mc_serialize(&self, to: &mut Vec<u8>) {
        let ghost start = to@;
        self.duration_ticks.mc_serialize(to);
        self.entity_id.mc_serialize(to);
        proof {
            lemma_concat_associative(start, VarInt::spec_serialize(self.duration_ticks.model()), i32::spec_serialize(self.entity_id.model()));
        }
        assert(to@ =~= start + Self::spec_serialize(self.model()));
    }

    fn mc_deserialize(data: &[u8]) -> (r: Result<(Self, &[u8]), DeserializeErr>) {
        let (duration_ticks, rest) = VarInt::mc_deserialize(data)?;
        let (entity_id, rest) = i32::mc_deserialize(rest)?;
        Ok((CombatEndSpec { duration_ticks, entity_id }, rest))
    }
}

/// A combat entity dead spec as values.
pub struct CombatEntityDeadSpecModel {
    pub player_id: <VarInt as Codec>::Model,
    pub entity_id: <i32 as Codec>::Model,
    pub message: <Chat as Codec>::Model,
}

/// The combat entity dead spec
#[derive(Debug, Clone, PartialEq, Eq)]
pub struct CombatEntityDeadSpec {
    pub player_id: VarInt,
    pub entity_id: i32,
    pub message: Chat,
}

impl Codec for CombatEntityDeadSpec {
    type Model = CombatEntityDeadSpecModel;

    open spec fn model(&self) -> CombatEntityDeadSpecModel {
        CombatEntityDeadSpecModel { player_id: self.player_id.model(), entity_id: self.entity_id.model(), message: self.message.model() }
    }

    open spec fn encodable(m: CombatEntityDeadSpecModel) -> bool {
        VarInt::encodable(m.player_id) && i32::encodable(m.entity_id) && Chat::encodable(m.message)
    }

    open spec fn legal(m: CombatEntityDeadSpecModel) -> bool {
        VarInt::legal(m.player_id) && i32::legal(m.entity_id) && Chat::legal(m.message)
    }

    open spec fn spec_serialize(m: CombatEntityDeadSpecModel) -> Seq<u8> {
        VarInt::spec_serialize(m.player_id) + i32::spec_serialize(m.entity_id) + Chat::spec_serialize(m.message)
    }

    open spec fn spec_deserialize(s: Seq<u8>) -> SpecResult<CombatEntityDeadSpecModel> {
        match VarInt::spec_deserialize(s) {
            Err(e) => Err(e),
            Ok((player_id, r1)) => match i32::spec_deserialize(r1) {
                Err(e) => Err(e),
                Ok((entity_id, r2)) => match Chat::spec_deserialize(r2) {
                    Err(e) => Err(e),
                    Ok((message, r3)) => Ok((CombatEntityDeadSpecModel { player_id, entity_id, message }, r3)),
                },
            },
        }
    }

    proof fn lemma_round_trip(m: CombatEntityDeadSpecModel, rest: Seq<u8>) {
        let t2 = Chat::spec_serialize(m.message) + rest;
        let t1 = i32::spec_serialize(m.entity_id) + t2;
        let p1 = VarInt::spec_serialize(m.player_id);
        let p2 = p1 + i32::spec_serialize(m.entity_id);
        let p3 = p2 + Chat::spec_serialize(m.message);
        assert(Self::spec_serialize(m) == p3);
        lemma_concat_associative(p2, Chat::spec_serialize(m.message), rest);
        lemma_concat_associative(p1, i32::spec_serialize(m.entity_id), t2);
        VarInt::lemma_round_trip(m.player_id, t1);
        i32::lemma_round_trip(m.entity_id, t2);
        Chat::lemma_round_trip(m.message, rest);
    }

    fn mc_serialize(&self, to: &mut Vec<u8>) {
        let ghost start = to@;
        self.player_id.mc_serialize(to);
        self.entity_id.mc_serialize(to);
        proof {
            lemma_concat_associative(start, VarInt::spec_serialize(self.player_id.model()), i32::spec_serialize(self.entity_id.model()));
        }
        self.message.mc_serialize(to);
        proof {
            lemma_concat_associative(start, VarInt::spec_serialize(self.player_id.model()) + i32::spec_serialize(self.entity_id.model()), Chat::spec_serialize(self.message.model()));
        }
        assert(to@ =~= start + Self::spec_serialize(self.model()));
    }

    fn mc_deserialize(data: &[u8]) -> (r: Result<(Self, &[u8]), DeserializeErr>) {
        let (player_id, rest) = VarInt::mc_deserialize(data)?;
        let (entity_id, rest) = i32::mc_deserialize(rest)?;
        let (message, rest) = Chat::mc_deserialize(rest)?;
        Ok((CombatEntityDeadSpec { player_id, entity_id, message }, rest))
    }
}

/// A player add action spec as values.
pub struct PlayerAddActionSpecModel {
    pub name: <String as Codec>::Model,
    pub properties: <VarIntCountedArray<PlayerAddProperty> as Codec>::Model,
    pub game_mode: <GameMode as Codec>::Model,
    pub ping_ms: <VarInt as Codec>::Model,
    pub display_name: <Option<Chat> as Codec>::Model,
}

/// The player add action spec
#[derive(Debug, Clone, PartialEq, Eq)]
pub struct PlayerAddActionSpec {
    pub name: String,
    pub properties: VarIntCountedArray<PlayerAddProperty>,
    pub game_mode: GameMode,
    pub ping_ms: VarInt,
    pub display_name: Option<Chat>,
}

impl Codec for PlayerAddActionSpec {
    type Model = PlayerAddActionSpecModel;

    open spec fn model(&self) -> PlayerAddActionSpecModel {
        PlayerAddActionSpecModel { name: self.name.model(), properties: self.properties.model(), game_mode: self.game_mode.model(), ping_ms: self.ping_ms.model(), display_name: self.display_name.model() }
    }

    open spec fn encodable(m: PlayerAddActionSpecModel) -> bool {
        String::encodable(m.name) && VarIntCountedArray::<PlayerAddProperty>::encodable(m.properties) && GameMode::encodable(m.game_mode) && VarInt::encodable(m.ping_ms) && Option::<Chat>::encodable(m.display_name)
    }

    open spec fn legal(m: PlayerAddActionSpecModel) -> bool {
        String::legal(m.name) && VarIntCountedArray::<PlayerAddProperty>::legal(m.properties) && GameMode::legal(m.game_mode) && VarInt::legal(m.ping_ms) && Option::<Chat>::legal(m.display_name)
    }

    open spec fn spec_serialize(m: PlayerAddActionSpecModel) -> Seq<u8> {
        String::spec_serialize(m.name) + VarIntCountedArray::<PlayerAddProperty>::spec_serialize(m.properties) + GameMode::spec_serialize(m.game_mode) + VarInt::spec_serialize(m.ping_ms) + Option::<Chat>::spec_serialize(m.display_name)
    }

    open spec fn spec_deserialize(s: Seq<u8>) -> SpecResult<PlayerAddActionSpecModel> {
        match String::spec_deserialize(s) {
            Err(e) => Err(e),
            Ok((name, r1)) => match VarIntCountedArray::<PlayerAddProperty>::spec_deserialize(r1) {
                Err(e) => Err(e),
                Ok((properties, r2)) => match GameMode::spec_deserialize(r2) {
                    Err(e) => Err(e),
                    Ok((game_mode, r3)) => match VarInt::spec_deserialize(r3) {
                        Err(e) => Err(e),
                        Ok((ping_ms, r4)) => match Option::<Chat>::spec_deserialize(r4) {
                            Err(e) => Err(e),
                            Ok((display_name, r5)) => Ok((PlayerAddActionSpecModel { name, properties, game_mode, ping_ms, display_name }, r5)),
                        },
                    },
                },
            },
        }
    }

    #[verifier::rlimit(100)]
    #[verifier::spinoff_prover]
    proof fn lemma_round_trip(m: PlayerAddActionSpecModel, rest: Seq<u8>) {
        let t4 = Option::<Chat>::spec_serialize(m.display_name) + rest;
        let t3 = VarInt::spec_serialize(m.ping_ms) + t4;
        let t2 = GameMode::spec_serialize(m.game_mode) + t3;
        let t1 = VarIntCountedArray::<PlayerAddProperty>::spec_serialize(m.properties) + t2;
        let p1 = String::spec_serialize(m.name);
        let p2 = p1 + VarIntCountedArray::<PlayerAddProperty>::spec_serialize(m.properties);
        let p3 = p2 + GameMode::spec_serialize(m.game_mode);
        let p4 = p3 + VarInt::spec_serialize(m.ping_ms);
        let p5 = p4 + Option::<Chat>::spec_serialize(m.display_name);
        assert(Self::spec_serialize(m) == p5);
        lemma_concat_associative(p4, Option::<Chat>::spec_serialize(m.display_name), rest);
        lemma_concat_associative(p3, VarInt::spec_serialize(m.ping_ms), t4);
        lemma_concat_associative(p2, GameMode::spec_serialize(m.game_mode), t3);
        lemma_concat_associative(p1, VarIntCountedArray::<PlayerAddProperty>::spec_serialize(m.properties), t2);
        String::lemma_round_trip(m.name, t1);
        assert(String::spec_deserialize(Self::spec_serialize(m) + rest) == Ok::<(<String as Codec>::Model, Seq<u8>), DeserializeErr>((m.name, t1)));
        VarIntCountedArray::<PlayerAddProperty>::lemma_round_trip(m.properties, t2);
        assert(VarIntCountedArray::<PlayerAddProperty>::spec_deserialize(t1) == Ok::<(<VarIntCountedArray<PlayerAddProperty> as Codec>::Model, Seq<u8>), DeserializeErr>((m.properties, t2)));
        GameMode::lemma_round_trip(m.game_mode, t3);
        assert(GameMode::spec_deserialize(t2) == Ok::<(<GameMode as Codec>::Model, Seq<u8>), DeserializeErr>((m.game_mode, t3)));
        VarInt::lemma_round_trip(m.ping_ms, t4);
        assert(VarInt::spec_deserialize(t3) == Ok::<(<VarInt as Codec>::Model, Seq<u8>), DeserializeErr>((m.ping_ms, t4)));
        Option::<Chat>::lemma_round_trip(m.display_name, rest);
        assert(Option::<Chat>::spec_deserialize(t4) == Ok::<(<Option<Chat> as Codec>::Model, Seq<u8>), DeserializeErr>((m.display_name, rest)));
    }

    fn mc_serialize(&self, to: &mut Vec<u8>) {
        let ghost start = to@;
        self.name.mc_serialize(to);
        self.properties.mc_serialize(to);
        proof {
            lemma_concat_associative(start, String::spec_serialize(self.name.model()), VarIntCountedArray::<PlayerAddProperty>::spec_serialize(self.properties.model()));
        }
        self.game_mode.mc_serialize(to);
        proof {
            lemma_concat_associative(start, String::spec_serialize(self.name.model()) + VarIntCountedArray::<PlayerAddProperty>::spec_serialize(self.properties.model()), GameMode::spec_serialize(self.game_mode.model()));
        }
        self.ping_ms.mc_serialize(to);
        proof {
            lemma_concat_associative(start, String::spec_serialize(self.name.model()) + VarIntCountedArray::<PlayerAddProperty>::spec_serialize(self.properties.model()) + GameMode::spec_serialize(self.game_mode.model()), VarInt::spec_serialize(self.ping_ms.model()));
        }
        self.display_name.mc_serialize(to);
        proof {
            lemma_concat_associative(start, String::spec_serialize(self.name.model()) + VarIntCountedArray::<PlayerAddProperty>::spec_serialize(self.properties.model()) + GameMode::spec_serialize(self.game_mode.model()) + VarInt::spec_serialize(self.ping_ms.model()), Option::<Chat>::spec_serialize(self.display_name.model()));
        }
        assert(to@ =~= start + Self::spec_serialize(self.model()));
    }

    fn mc_deserialize(data: &[u8]) -> (r: Result<(Self, &[u8]), DeserializeErr>) {
        let (name, rest) = String::mc_deserialize(data)?;
        let (properties, rest) = VarIntCountedArray::<PlayerAddProperty>::mc_deserialize(rest)?;
        let (game_mode, rest) = GameMode::mc_deserialize(rest)?;
        let (ping_ms, rest) = VarInt::mc_deserialize(rest)?;
        let (display_name, rest) = Option::<Chat>::mc_deserialize(rest)?;
        Ok((PlayerAddActionSpec { name, properties, game_mode, ping_ms, display_name }, rest))
    }
}

/// A player add property as values.
pub struct PlayerAddPropertyModel {
    pub name: <String as Codec>::Model,
    pub value: <String as Codec>::Model,
    pub signature: <Option<String> as Codec>::Model,
}

/// The player add property
#[derive(Debug, Clone, PartialEq, Eq)]
pub struct PlayerAddProperty {
    pub name: String,
    pub value: String,
    pub signature: Option<String>,
}

impl Codec for PlayerAddProperty {
    type Model = PlayerAddPropertyModel;

    open spec fn model(&self) -> PlayerAddPropertyModel {
        PlayerAddPropertyModel { name: self.name.model(), value: self.value.model(), signature: self.signature.model() }
    }

    open spec fn encodable(m: PlayerAddPropertyModel) -> bool {
        String::encodable(m.name) && String::encodable(m.value) && Option::<String>::encodable(m.signature)
    }

    open spec fn legal(m: PlayerAddPropertyModel) -> bool {
        String::legal(m.name) && String::legal(m.value) && Option::<String>::legal(m.signature)
    }

    open spec fn spec_serialize(m: PlayerAddPropertyModel) -> Seq<u8> {
        String::spec_serialize(m.name) + String::spec_serialize(m.value) + Option::<String>::spec_serialize(m.signature)
    }

    open spec fn spec_deserialize(s: Seq<u8>) -> SpecResult<PlayerAddPropertyModel> {
        match String::spec_deserialize(s) {
            Err(e) => Err(e),
            Ok((name, r1)) => match String::spec_deserialize(r1) {
                Err(e) => Err(e),
                Ok((value, r2)) => match Option::<String>::spec_deserialize(r2) {
                    Err(e) => Err(e),
                    Ok((signature, r3)) => Ok((PlayerAddPropertyModel { name, value, signature }, r3)),
                },
            },
        }
    }

    proof fn lemma_round_trip(m: PlayerAddPropertyModel, rest: Seq<u8>) {
        let t2 = Option::<String>::spec_serialize(m.signature) + rest;
        let t1 = String::spec_serialize(m.value) + t2;
        let p1 = String::spec_serialize(m.name);
        let p2 = p1 + String::spec_serialize(m.value);
        let p3 = p2 + Option::<String>::spec_serialize(m.signature);
        assert(Self::spec_serialize(m) == p3);
        lemma_concat_associative(p2, Option::<String>::spec_serialize(m.signature), rest);
        lemma_concat_associative(p1, String::spec_serialize(m.value), t2);
        String::lemma_round_trip(m.name, t1);
        String::lemma_round_trip(m.value, t2);
        Option::<String>::lemma_round_trip(m.signature, rest);
    }

    fn mc_serialize(&self, to: &mut Vec<u8>) {
        let ghost start = to@;
        self.name.mc_serialize(to);
        self.value.mc_serialize(to);
        proof {
            lemma_concat_associative(start, String::spec_serialize(self.name.model()), String::spec_serialize(self.value.model()));
        }
        self.signature.mc_serialize(to);
        proof {
            lemma_concat_associative(start, String::spec_serialize(self.name.model()) + String::spec_serialize(self.value.model()), Option::<String>::spec_serialize(self.signature.model()));
        }
        assert(to@ =~= start + Self::spec_serialize(self.model()));
    }

    fn mc_deserialize(data: &[u8]) -> (r: Result<(Self, &[u8]), DeserializeErr>) {
        let (name, rest) = String::mc_deserialize(data)?;
        let (value, rest) = String::mc_deserialize(rest)?;
        let (signature, rest) = Option::<String>::mc_deserialize(rest)?;
        Ok((PlayerAddProperty { name, value, signature }, rest))
    }
}

/// A face player entity target as values.
pub struct FacePlayerEntityTargetModel {
    pub entity_id: <VarInt as Codec>::Model,
    pub kind: <FacePlayerKind as Codec>::Model,
}

/// The face player entity target
#[derive(Debug, Clone, PartialEq, Eq)]
pub struct FacePlayerEntityTarget {
    pub entity_id: VarInt,
    pub kind: FacePlayerKind,
}

impl Codec for FacePlayerEntityTarget {
    type Model = FacePlayerEntityTargetModel;

    open spec fn model(&self) -> FacePlayerEntityTargetModel {
        FacePlayerEntityTargetModel { entity_id: self.entity_id.model(), kind: self.kind.model() }
    }

    open spec fn encodable(m: FacePlayerEntityTargetModel) -> bool {
        VarInt::encodable(m.entity_id) && FacePlayerKind::encodable(m.kind)
    }

    open spec fn legal(m: FacePlayerEntityTargetModel) -> bool {
        VarInt::legal(m.entity_id) && FacePlayerKind::legal(m.kind)
    }

    open spec fn spec_serialize(m: FacePlayerEntityTargetModel) -> Seq<u8> {
        VarInt::spec_serialize(m.entity_id) + FacePlayerKind::spec_serialize(m.kind)
    }

    open spec fn spec_deserialize(s: Seq<u8>) -> SpecResult<FacePlayerEntityTargetModel> {
        match VarInt::spec_deserialize(s) {
            Err(e) => Err(e),
            Ok((entity_id, r1)) => match FacePlayerKind::spec_deserialize(r1) {
                Err(e) => Err(e),
                Ok((kind, r2)) => Ok((FacePlayerEntityTargetModel { entity_id, kind }, r2)),
            },
        }
    }

    proof fn lemma_round_trip(m: FacePlayerEntityTargetModel, rest: Seq<u8>) {
        let t1 = FacePlayerKind::spec_serialize(m.kind) + rest;
        let p1 = VarInt::spec_serialize(m.entity_id);
        let p2 = p1 + FacePlayerKind::spec_serialize(m.kind);
        assert(Self::spec_serialize(m) == p2);
        lemma_concat_associative(p1, FacePlayerKind::spec_serialize(m.kind), rest);
        VarInt::lemma_round_trip(m.entity_id, t1);
        FacePlayerKind::lemma_round_trip(m.kind, rest);
    }

    fn mc_serialize(&self, to: &mut Vec<u8>) {
        let ghost start = to@;
        self.entity_id.mc_serialize(to);
        self.kind.mc_serialize(to);
        proof {
            lemma_concat_associative(start, VarInt::spec_serialize(self.entity_id.model()), FacePlayerKind::spec_serialize(self.kind.model()));
        }
        assert(to@ =~= start + Self::spec_serialize(self.model()));
    }

    fn mc_deserialize(data: &[u8]) -> (r: Result<(Self, &[u8]), DeserializeErr>) {
        let (entity_id, rest) = VarInt::mc_deserialize(data)?;
        let (kind, rest) = FacePlayerKind::mc_deserialize(rest)?;
        Ok((FacePlayerEntityTarget { entity_id, kind }, rest))
    }
}

/// A world border set size spec as values.
pub struct WorldBorderSetSizeSpecModel {
    pub diameter: <Float64 as Codec>::Model,
}

/// The world border set size spec
#[derive(Debug, Clone, PartialEq, Eq)]
pub struct WorldBorderSetSizeSpec {
    pub diameter: Float64,
}

impl Codec for WorldBorderSetSizeSpec {
    type Model = WorldBorderSetSizeSpecModel;

    open spec fn model(&self) -> WorldBorderSetSizeSpecModel {
        WorldBorderSetSizeSpecModel { diameter: self.diameter.model() }
    }

    open spec fn encodable(m: WorldBorderSetSizeSpecModel) -> bool {
        Float64::encodable(m.diameter)
    }

    open spec fn legal(m: WorldBorderSetSizeSpecModel) -> bool {
        Float64::legal(m.diameter)
    }

    open spec fn spec_serialize(m: WorldBorderSetSizeSpecModel) -> Seq<u8> {
        Float64::spec_serialize(m.diameter)
    }

    open spec fn spec_deserialize(s: Seq<u8>) -> SpecResult<WorldBorderSetSizeSpecModel> {
        match Float64::spec_deserialize(s) {
            Err(e) => Err(e),
            Ok((diameter, r1)) => Ok((WorldBorderSetSizeSpecModel { diameter }, r1)),
        }
    }

    proof fn lemma_round_trip(m: WorldBorderSetSizeSpecModel, rest: Seq<u8>) {
        Float64::lemma_round_trip(m.diameter, rest);
    }

    fn mc_serialize(&self, to: &mut Vec<u8>) {
        let ghost start = to@;
        self.diameter.mc_serialize(to);
        assert(to@ =~= start + Self::spec_serialize(self.model()));
    }

    fn mc_deserialize(data: &[u8]) -> (r: Result<(Self, &[u8]), DeserializeErr>) {
        let (diameter, rest) = Float64::mc_deserialize(data)?;
        Ok((WorldBorderSetSizeSpec { diameter }, rest))
    }
}

/// A world border lerp size spec as values.
pub struct WorldBorderLerpSizeSpecModel {
    pub old_diameter: <Float64 as Codec>::Model,
    pub new_diameter: <Float64 as Codec>::Model,
    pub speed: <VarLong as Codec>::Model,
}

/// The world border lerp size spec
#[derive(Debug, Clone, PartialEq, Eq)]
pub struct WorldBorderLerpSizeSpec {
    pub old_diameter: Float64,
    pub new_diameter: Float64,
    pub speed: VarLong,
}

impl Codec for WorldBorderLerpSizeSpec {
    type Model = WorldBorderLerpSizeSpecModel;

    open spec fn model(&self) -> WorldBorderLerpSizeSpecModel {
        WorldBorderLerpSizeSpecModel { old_diameter: self.old_diameter.model(), new_diameter: self.new_diameter.model(), speed: self.speed.model() }
    }

    open spec fn encodable(m: WorldBorderLerpSizeSpecModel) -> bool {
        Float64::encodable(m.old_diameter) && Float64::encodable(m.new_diameter) && VarLong::encodable(m.speed)
    }

    open spec fn legal(m: WorldBorderLerpSizeSpecModel) -> bool {
        Float64::legal(m.old_diameter) && Float64::legal(m.new_diameter) && VarLong::legal(m.speed)
    }

    open spec fn spec_serialize(m: WorldBorderLerpSizeSpecModel) -> Seq<u8> {
        Float64::spec_serialize(m.old_diameter) + Float64::spec_serialize(m.new_diameter) + VarLong::spec_serialize(m.speed)
    }

    open spec fn spec_deserialize(s: Seq<u8>) -> SpecResult<WorldBorderLerpSizeSpecModel> {
        match Float64::spec_deserialize(s) {
            Err(e) => Err(e),
            Ok((old_diameter, r1)) => match Float64::spec_deserialize(r1) {
                Err(e) => Err(e),
                Ok((new_diameter, r2)) => match VarLong::spec_deserialize(r2) {
                    Err(e) => Err(e),
                    Ok((speed, r3)) => Ok((WorldBorderLerpSizeSpecModel { old_diameter, new_diameter, speed }, r3)),
                },
            },
        }
    }

    proof fn lemma_round_trip(m: WorldBorderLerpSizeSpecModel, rest: Seq<u8>) {
        let t2 = VarLong::spec_serialize(m.speed) + rest;
        let t1 = Float64::spec_serialize(m.new_diameter) + t2;
        let p1 = Float64::spec_serialize(m.old_diameter);
        let p2 = p1 + Float64::spec_serialize(m.new_diameter);
        let p3 = p2 + VarLong::spec_serialize(m.speed);
        assert(Self::spec_serialize(m) == p3);
        lemma_concat_associative(p2, VarLong::spec_serialize(m.speed), rest);
        lemma_concat_associative(p1, Float64::spec_serialize(m.new_diameter), t2);
        Float64::lemma_round_trip(m.old_diameter, t1);
        Float64::lemma_round_trip(m.new_diameter, t2);
        VarLong::lemma_round_trip(m.speed, rest);
    }

    fn mc_serialize(&self, to: &mut Vec<u8>) {
        let ghost start = to@;
        self.old_diameter.mc_serialize(to);
        self.new_diameter.mc_serialize(to);
        proof {
            lemma_concat_associative(start, Float64::spec_serialize(self.old_diameter.model()), Float64::spec_serialize(self.new_diameter.model()));
        }
        self.speed.mc_serialize(to);
        proof {
            lemma_concat_associative(start, Float64::spec_serialize(self.old_diameter.model()) + Float64::spec_serialize(self.new_diameter.model()), VarLong::spec_serialize(self.speed.model()));
        }
        assert(to@ =~= start + Self::spec_serialize(self.model()));
    }

    fn mc_deserialize(data: &[u8]) -> (r: Result<(Self, &[u8]), DeserializeErr>) {
        let (old_diameter, rest) = Float64::mc_deserialize(data)?;
        let (new_diameter, rest) = Float64::mc_deserialize(rest)?;
        let (speed, rest) = VarLong::mc_deserialize(rest)?;
        Ok((WorldBorderLerpSizeSpec { old_diameter, new_diameter, speed }, rest))
    }
}

/// A world border set center spec as values.
pub struct WorldBorderSetCenterSpecModel {
    pub x: <Float64 as Codec>::Model,
    pub z: <Float64 as Codec>::Model,
}

/// The world border set center spec
#[derive(Debug, Clone, PartialEq, Eq)]
pub struct WorldBorderSetCenterSpec {
    pub x: Float64,
    pub z: Float64,
}

impl Codec for WorldBorderSetCenterSpec {
    type Model = WorldBorderSetCenterSpecModel;

    open spec fn model(&self) -> WorldBorderSetCenterSpecModel {
        WorldBorderSetCenterSpecModel { x: self.x.model(), z: self.z.model() }
    }

    open spec fn encodable(m: WorldBorderSetCenterSpecModel) -> bool {
        Float64::encodable(m.x) && Float64::encodable(m.z)
    }

    open spec fn legal(m: WorldBorderSetCenterSpecModel) -> bool {
        Float64::legal(m.x) && Float64::legal(m.z)
    }

    open spec fn spec_serialize(m: WorldBorderSetCenterSpecModel) -> Seq<u8> {
        Float64::spec_serialize(m.x) + Float64::spec_serialize(m.z)
    }

    open spec fn spec_deserialize(s: Seq<u8>) -> SpecResult<WorldBorderSetCenterSpecModel> {
        match Float64::spec_deserialize(s) {
            Err(e) => Err(e),
            Ok((x, r1)) => match Float64::spec_deserialize(r1) {
                Err(e) => Err(e),
                Ok((z, r2)) => Ok((WorldBorderSetCenterSpecModel { x, z }, r2)),
            },
        }
    }

    proof fn lemma_round_trip(m: WorldBorderSetCenterSpecModel, rest: Seq<u8>) {
        let t1 = Float64::spec_serialize(m.z) + rest;
        let p1 = Float64::spec_serialize(m.x);
        let p2 = p1 + Float64::spec_serialize(m.z);
        assert(Self::spec_serialize(m) == p2);
        lemma_concat_associative(p1, Float64::spec_serialize(m.z), rest);
        Float64::lemma_round_trip(m.x, t1);
        Float64::lemma_round_trip(m.z, rest);
    }

    fn mc_serialize(&self, to: &mut Vec<u8>) {
        let ghost start = to@;
        self.x.mc_serialize(to);
        self.z.mc_serialize(to);
        proof {
            lemma_concat_associative(start, Float64::spec_serialize(self.x.model()), Float64::spec_serialize(self.z.model()));
        }
        assert(to@ =~= start + Self::spec_serialize(self.model()));
    }

    fn mc_deserialize(data: &[u8]) -> (r: Result<(Self, &[u8]), DeserializeErr>) {
        let (x, rest) = Float64::mc_deserialize(data)?;
        let (z, rest) = Float64::mc_deserialize(rest)?;
        Ok((WorldBorderSetCenterSpec { x, z }, rest))
    }
}

/// A world border initiaialize spec as values.
pub struct WorldBorderInitiaializeSpecModel {
    pub x: <Float64 as Codec>::Model,
    pub z: <Float64 as Codec>::Model,
    pub old_diameter: <Float64 as Codec>::Model,
    pub new_diameter: <Float64 as Codec>::Model,
    pub speed: <VarLong as Codec>::Model,
    pub portal_teleport_boundary: <VarLong as Codec>::Model,
    pub warning_time: <VarInt as Codec>::Model,
    pub warning_blocks: <VarInt as Codec>::Model,
}

/// The world border initiaialize spec
#[derive(Debug, Clone, PartialEq, Eq)]
pub struct WorldBorderInitiaializeSpec {
    pub x: Float64,
    pub z: Float64,
    pub old_diameter: Float64,
    pub new_diameter: Float64,
    pub speed: VarLong,
    pub portal_teleport_boundary: VarLong,
    pub warning_time: VarInt,
    pub warning_blocks: VarInt,
}

impl Codec for WorldBorderInitiaializeSpec {
    type Model = WorldBorderInitiaializeSpecModel;

    open spec fn model(&self) -> WorldBorderInitiaializeSpecModel {
        WorldBorderInitiaializeSpecModel { x: self.x.model(), z: self.z.model(), old_diameter: self.old_diameter.model(), new_diameter: self.new_diameter.model(), speed: self.speed.model(), portal_teleport_boundary: self.portal_teleport_boundary.model(), warning_time: self.warning_time.model(), warning_blocks: self.warning_blocks.model() }
    }

    open spec fn encodable(m: WorldBorderInitiaializeSpecModel) -> bool {
        Float64::encodable(m.x) && Float64::encodable(m.z) && Float64::encodable(m.old_diameter) && Float64::encodable(m.new_diameter) && VarLong::encodable(m.speed) && VarLong::encodable(m.portal_teleport_boundary) && VarInt::encodable(m.warning_time) && VarInt::encodable(m.warning_blocks)
    }

    open spec fn legal(m: WorldBorderInitiaializeSpecModel) -> bool {
        Float64::legal(m.x) && Float64::legal(m.z) && Float64::legal(m.old_diameter) && Float64::legal(m.new_diameter) && VarLong::legal(m.speed) && VarLong::legal(m.portal_teleport_boundary) && VarInt::legal(m.warning_time) && VarInt::legal(m.warning_blocks)
    }

    open spec fn spec_serialize(m: WorldBorderInitiaializeSpecModel) -> Seq<u8> {
        Float64::spec_serialize(m.x) + Float64::spec_serialize(m.z) + Float64::spec_serialize(m.old_diameter) + Float64::spec_serialize(m.new_diameter) + VarLong::spec_serialize(m.speed) + VarLong::spec_serialize(m.portal_teleport_boundary) + VarInt::spec_serialize(m.warning_time) + VarInt::spec_serialize(m.warning_blocks)
    }

    open spec fn spec_deserialize(s: Seq<u8>) -> SpecResult<WorldBorderInitiaializeSpecModel> {
        match Float64::spec_deserialize(s) {
            Err(e) => Err(e),
            Ok((x, r1)) => match Float64::spec_deserialize(r1) {
                Err(e) => Err(e),
                Ok((z, r2)) => match Float64::spec_deserialize(r2) {
                    Err(e) => Err(e),
                    Ok((old_diameter, r3)) => match Float64::spec_deserialize(r3) {
                        Err(e) => Err(e),
                        Ok((new_diameter, r4)) => match VarLong::spec_deserialize(r4) {
                            Err(e) => Err(e),
                            Ok((speed, r5)) => match VarLong::spec_deserialize(r5) {
                                Err(e) => Err(e),
                                Ok((portal_teleport_boundary, r6)) => match VarInt::spec_deserialize(r6) {
                                    Err(e) => Err(e),
                                    Ok((warning_time, r7)) => match VarInt::spec_deserialize(r7) {
                                        Err(e) => Err(e),
                                        Ok((warning_blocks, r8)) => Ok((WorldBorderInitiaializeSpecModel { x, z, old_diameter, new_diameter, speed, portal_teleport_boundary, warning_time, warning_blocks }, r8)),
                                    },
                                },
                            },
                        },
                    },
                },
            },
        }
    }

    #[verifier::rlimit(100)]
    #[verifier::spinoff_prover]
    proof fn lemma_round_trip(m: WorldBorderInitiaializeSpecModel, rest: Seq<u8>) {
        let t7 = VarInt::spec_serialize(m.warning_blocks) + rest;
        let t6 = VarInt::spec_serialize(m.warning_time) + t7;
        let t5 = VarLong::spec_serialize(m.portal_teleport_boundary) + t6;
        let t4 = VarLong::spec_serialize(m.speed) + t5;
        let t3 = Float64::spec_serialize(m.new_diameter) + t4;
        let t2 = Float64::spec_serialize(m.old_diameter) + t3;
        let t1 = Float64::spec_serialize(m.z) + t2;
        let p1 = Float64::spec_serialize(m.x);
        let p2 = p1 + Float64::spec_serialize(m.z);
        let p3 = p2 + Float64::spec_serialize(m.old_diameter);
        let p4 = p3 + Float64::spec_serialize(m.new_diameter);
        let p5 = p4 + VarLong::spec_serialize(m.speed);
        let p6 = p5 + VarLong::spec_serialize(m.portal_teleport_boundary);
        let p7 = p6 + VarInt::spec_serialize(m.warning_time);
        let p8 = p7 + VarInt::spec_serialize(m.warning_blocks);
        assert(Self::spec_serialize(m) == p8);
        lemma_concat_associative(p7, VarInt::spec_serialize(m.warning_blocks), rest);
        lemma_concat_associative(p6, VarInt::spec_serialize(m.warning_time), t7);
        lemma_concat_associative(p5, VarLong::spec_serialize(m.portal_teleport_boundary), t6);
        lemma_concat_associative(p4, VarLong::spec_serialize(m.speed), t5);
        lemma_concat_associative(p3, Float64::spec_serialize(m.new_diameter), t4);
        lemma_concat_associative(p2, Float64::spec_serialize(m.old_diameter), t3);
        lemma_concat_associative(p1, Float64::spec_serialize(m.z), t2);
        Float64::lemma_round_trip(m.x, t1);
        assert(Float64::spec_deserialize(Self::spec_serialize(m) + rest) == Ok::<(<Float64 as Codec>::Model, Seq<u8>), DeserializeErr>((m.x, t1)));
        Float64::lemma_round_trip(m.z, t2);
        assert(Float64::spec_deserialize(t1) == Ok::<(<Float64 as Codec>::Model, Seq<u8>), DeserializeErr>((m.z, t2)));
        Float64::lemma_round_trip(m.old_diameter, t3);
        assert(Float64::spec_deserialize(t2) == Ok::<(<Float64 as Codec>::Model, Seq<u8>), DeserializeErr>((m.old_diameter, t3)));
        Float64::lemma_round_trip(m.new_diameter, t4);
        assert(Float64::spec_deserialize(t3) == Ok::<(<Float64 as Codec>::Model, Seq<u8>), DeserializeErr>((m.new_diameter, t4)));
        VarLong::lemma_round_trip(m.speed, t5);
        assert(VarLong::spec_deserialize(t4) == Ok::<(<VarLong as Codec>::Model, Seq<u8>), DeserializeErr>((m.speed, t5)));
        VarLong::lemma_round_trip(m.portal_teleport_boundary, t6);
        assert(VarLong::spec_deserialize(t5) == Ok::<(<VarLong as Codec>::Model, Seq<u8>), DeserializeErr>((m.portal_teleport_boundary, t6)));
        VarInt::lemma_round_trip(m.warning_time, t7);
        assert(VarInt::spec_deserialize(t6) == Ok::<(<VarInt as Codec>::Model, Seq<u8>), DeserializeErr>((m.warning_time, t7)));
        VarInt::lemma_round_trip(m.warning_blocks, rest);
        assert(VarInt::spec_deserialize(t7) == Ok::<(<VarInt as Codec>::Model, Seq<u8>), DeserializeErr>((m.warning_blocks, rest)));
    }

    fn mc_serialize(&self, to: &mut Vec<u8>) {
        let ghost start = to@;
        self.x.mc_serialize(to);
        self.z.mc_serialize(to);
        proof {
            lemma_concat_associative(start, Float64::spec_serialize(self.x.model()), Float64::spec_serialize(self.z.model()));
        }
        self.old_diameter.mc_serialize(to);
        proof {
            lemma_concat_associative(start, Float64::spec_serialize(self.x.model()) + Float64::spec_serialize(self.z.model()), Float64::spec_serialize(self.old_diameter.model()));
        }
        self.new_diameter.mc_serialize(to);
        proof {
            lemma_concat_associative(start, Float64::spec_serialize(self.x.model()) + Float64::spec_serialize(self.z.model()) + Float64::spec_serialize(self.old_diameter.model()), Float64::spec_serialize(self.new_diameter.model()));
        }
        self.speed.mc_serialize(to);
        proof {
            lemma_concat_associative(start, Float64::spec_serialize(self.x.model()) + Float64::spec_serialize(self.z.model()) + Float64::spec_serialize(self.old_diameter.model()) + Float64::spec_serialize(self.new_diameter.model()), VarLong::spec_serialize(self.speed.model()));
        }
        self.portal_teleport_boundary.mc_serialize(to);
        proof {
            lemma_concat_associative(start, Float64::spec_serialize(self.x.model()) + Float64::spec_serialize(self.z.model()) + Float64::spec_serialize(self.old_diameter.model()) + Float64::spec_serialize(self.new_diameter.model()) + VarLong::spec_serialize(self.speed.model()), VarLong::spec_serialize(self.portal_teleport_boundary.model()));
        }
        self.warning_time.mc_serialize(to);
        proof {
            lemma_concat_associative(start, Float64::spec_serialize(self.x.model()) + Float64::spec_serialize(self.z.model()) + Float64::spec_serialize(self.old_diameter.model()) + Float64::spec_serialize(self.new_diameter.model()) + VarLong::spec_serialize(self.speed.model()) + VarLong::spec_serialize(self.portal_teleport_boundary.model()), VarInt::spec_serialize(self.warning_time.model()));
        }
        self.warning_blocks.mc_serialize(to);
        proof {
            lemma_concat_associative(start, Float64::spec_serialize(self.x.model()) + Float64::spec_serialize(self.z.model()) + Float64::spec_serialize(self.old_diameter.model()) + Float64::spec_serialize(self.new_diameter.model()) + VarLong::spec_serialize(self.speed.model()) + VarLong::spec_serialize(self.portal_teleport_boundary.model()) + VarInt::spec_serialize(self.warning_time.model()), VarInt::spec_serialize(self.warning_blocks.model()));
        }
        assert(to@ =~= start + Self::spec_serialize(self.model()));
    }

    fn mc_deserialize(data: &[u8]) -> (r: Result<(Self, &[u8]), DeserializeErr>) {
        let (x, rest) = Float64::mc_deserialize(data)?;
        let (z, rest) = Float64::mc_deserialize(rest)?;
        let (old_diameter, rest) = Float64::mc_deserialize(rest)?;
        let (new_diameter, rest) = Float64::mc_deserialize(rest)?;
        let (speed, rest) = VarLong::mc_deserialize(rest)?;
        let (portal_teleport_boundary, rest) = VarLong::mc_deserialize(rest)?;
        let (warning_time, rest) = VarInt::mc_deserialize(rest)?;
        let (warning_blocks, rest) = VarInt::mc_deserialize(rest)?;
        Ok((WorldBorderInitiaializeSpec { x, z, old_diameter, new_diameter, speed, portal_teleport_boundary, warning_time, warning_blocks }, rest))
    }
}

/// A world border warning time spec as values.
pub struct WorldBorderWarningTimeSpecModel {
    pub warning_time: <VarInt as Codec>::Model,
}

/// The world border warning time spec
#[derive(Debug, Clone, PartialEq, Eq)]
pub struct WorldBorderWarningTimeSpec {
    pub warning_time: VarInt,
}

impl Codec for WorldBorderWarningTimeSpec {
    type Model = WorldBorderWarningTimeSpecModel;

    open spec fn model(&self) -> WorldBorderWarningTimeSpecModel {
        WorldBorderWarningTimeSpecModel { warning_time: self.warning_time.model() }
    }

    open spec fn encodable(m: WorldBorderWarningTimeSpecModel) -> bool {
        VarInt::encodable(m.warning_time)
    }

    open spec fn legal(m: WorldBorderWarningTimeSpecModel) -> bool {
        VarInt::legal(m.warning_time)
    }

    open spec fn spec_serialize(m: WorldBorderWarningTimeSpecModel) -> Seq<u8> {
        VarInt::spec_serialize(m.warning_time)
    }

    open spec fn spec_deserialize(s: Seq<u8>) -> SpecResult<WorldBorderWarningTimeSpecModel> {
        match VarInt::spec_deserialize(s) {
            Err(e) => Err(e),
            Ok((warning_time, r1)) => Ok((WorldBorderWarningTimeSpecModel { warning_time }, r1)),
        }
    }

    proof fn lemma_round_trip(m: WorldBorderWarningTimeSpecModel, rest: Seq<u8>) {
        VarInt::lemma_round_trip(m.warning_time, rest);
    }

    fn mc_serialize(&self, to: &mut Vec<u8>) {
        let ghost start = to@;
        self.warning_time.mc_serialize(to);
        assert(to@ =~= start + Self::spec_serialize(self.model()));
    }

    fn mc_deserialize(data: &[u8]) -> (r: Result<(Self, &[u8]), DeserializeErr>) {
        let (warning_time, rest) = VarInt::mc_deserialize(data)?;
        Ok((WorldBorderWarningTimeSpec { warning_time }, rest))
    }
}

/// A world border warning blocks spec as values.
pub struct WorldBorderWarningBlocksSpecModel {
    pub warning_blocks: <VarInt as Codec>::Model,
}

/// The world border warning blocks spec
#[derive(Debug, Clone, PartialEq, Eq)]
pub struct WorldBorderWarningBlocksSpec {
    pub warning_blocks: VarInt,
}

impl Codec for WorldBorderWarningBlocksSpec {
    type Model = WorldBorderWarningBlocksSpecModel;

    open spec fn model(&self) -> WorldBorderWarningBlocksSpecModel {
        WorldBorderWarningBlocksSpecModel { warning_blocks: self.warning_blocks.model() }
    }

    open spec fn encodable(m: WorldBorderWarningBlocksSpecModel) -> bool {
        VarInt::encodable(m.warning_blocks)
    }

    open spec fn legal(m: WorldBorderWarningBlocksSpecModel) -> bool {
        VarInt::legal(m.warning_blocks)
    }

    open spec fn spec_serialize(m: WorldBorderWarningBlocksSpecModel) -> Seq<u8> {
        VarInt::spec_serialize(m.warning_blocks)
    }

    open spec fn spec_deserialize(s: Seq<u8>) -> SpecResult<WorldBorderWarningBlocksSpecModel> {
        match VarInt::spec_deserialize(s) {
            Err(e) => Err(e),
            Ok((warning_blocks, r1)) => Ok((WorldBorderWarningBlocksSpecModel { warning_blocks }, r1)),
        }
    }

    proof fn lemma_round_trip(m: WorldBorderWarningBlocksSpecModel, rest: Seq<u8>) {
        VarInt::lemma_round_trip(m.warning_blocks, rest);
    }

    fn mc_serialize(&self, to: &mut Vec<u8>) {
        let ghost start = to@;
        self.warning_blocks.mc_serialize(to);
        assert(to@ =~= start + Self::spec_serialize(self.model()));
    }

    fn mc_deserialize(data: &[u8]) -> (r: Result<(Self, &[u8]), DeserializeErr>) {
        let (warning_blocks, rest) = VarInt::mc_deserialize(data)?;
        Ok((WorldBorderWarningBlocksSpec { warning_blocks }, rest))
    }
}

/// A scoreboard objective spec as values.
pub struct ScoreboardObjectiveSpecModel {
    pub text: <Chat as Codec>::Model,
    pub kind: <ScoreboardObjectiveKind as Codec>::Model,
}

/// The scoreboard objective spec
#[derive(Debug, Clone, PartialEq, Eq)]
pub struct ScoreboardObjectiveSpec {
    pub text: Chat,
    pub kind: ScoreboardObjectiveKind,
}

impl Codec for ScoreboardObjectiveSpec {
    type Model = ScoreboardObjectiveSpecModel;

    open spec fn model(&self) -> ScoreboardObjectiveSpecModel {
        ScoreboardObjectiveSpecModel { text: self.text.model(), kind: self.kind.model() }
    }

    open spec fn encodable(m: ScoreboardObjectiveSpecModel) -> bool {
        Chat::encodable(m.text) && ScoreboardObjectiveKind::encodable(m.kind)
    }

    open spec fn legal(m: ScoreboardObjectiveSpecModel) -> bool {
        Chat::legal(m.text) && ScoreboardObjectiveKind::legal(m.kind)
    }

    open spec fn spec_serialize(m: ScoreboardObjectiveSpecModel) -> Seq<u8> {
        Chat::spec_serialize(m.text) + ScoreboardObjectiveKind::spec_serialize(m.kind)
    }

    open spec fn spec_deserialize(s: Seq<u8>) -> SpecResult<ScoreboardObjectiveSpecModel> {
        match Chat::spec_deserialize(s) {
            Err(e) => Err(e),
            Ok((text, r1)) => match ScoreboardObjectiveKind::spec_deserialize(r1) {
                Err(e) => Err(e),
                Ok((kind, r2)) => Ok((ScoreboardObjectiveSpecModel { text, kind }, r2)),
            },
        }
    }

    proof fn lemma_round_trip(m: ScoreboardObjectiveSpecModel, rest: Seq<u8>) {
        let t1 = ScoreboardObjectiveKind::spec_serialize(m.kind) + rest;
        let p1 = Chat::spec_serialize(m.text);
        let p2 = p1 + ScoreboardObjectiveKind::spec_serialize(m.kind);
        assert(Self::spec_serialize(m) == p2);
        lemma_concat_associative(p1, ScoreboardObjectiveKind::spec_serialize(m.kind), rest);
        Chat::lemma_round_trip(m.text, t1);
        ScoreboardObjectiveKind::lemma_round_trip(m.kind, rest);
    }

    fn mc_serialize(&self, to: &mut Vec<u8>) {
        let ghost start = to@;
        self.text.mc_serialize(to);
        self.kind.mc_serialize(to);
        proof {
            lemma_concat_associative(start, Chat::spec_serialize(self.text.model()), ScoreboardObjectiveKind::spec_serialize(self.kind.model()));
        }
        assert(to@ =~= start + Self::spec_serialize(self.model()));
    }

    fn mc_deserialize(data: &[u8]) -> (r: Result<(Self, &[u8]), DeserializeErr>) {
        let (text, rest) = Chat::mc_deserialize(data)?;
        let (kind, rest) = ScoreboardObjectiveKind::mc_deserialize(rest)?;
        Ok((ScoreboardObjectiveSpec { text, kind }, rest))
    }
}

/// A advancement mapping entry spec as values.
pub struct AdvancementMappingEntrySpecModel {
    pub key: <String as Codec>::Model,
    pub value: <AdvancementSpec as Codec>::Model,
}

/// The advancement mapping entry spec
#[derive(Debug, Clone, PartialEq, Eq)]
pub struct AdvancementMappingEntrySpec {
    pub key: String,
    pub value: AdvancementSpec,
}

impl Codec for AdvancementMappingEntrySpec {
    type Model = AdvancementMappingEntrySpecModel;

    open spec fn model(&self) -> AdvancementMappingEntrySpecModel {
        AdvancementMappingEntrySpecModel { key: self.key.model(), value: self.value.model() }
    }

    open spec fn encodable(m: AdvancementMappingEntrySpecModel) -> bool {
        String::encodable(m.key) && AdvancementSpec::encodable(m.value)
    }

    open spec fn legal(m: AdvancementMappingEntrySpecModel) -> bool {
        String::legal(m.key) && AdvancementSpec::legal(m.value)
    }

    open spec fn spec_serialize(m: AdvancementMappingEntrySpecModel) -> Seq<u8> {
        String::spec_serialize(m.key) + AdvancementSpec::spec_serialize(m.value)
    }

    open spec fn spec_deserialize(s: Seq<u8>) -> SpecResult<AdvancementMappingEntrySpecModel> {
        match String::spec_deserialize(s) {
            Err(e) => Err(e),
            Ok((key, r1)) => match AdvancementSpec::spec_deserialize(r1) {
                Err(e) => Err(e),
                Ok((value, r2)) => Ok((AdvancementMappingEntrySpecModel { key, value }, r2)),
            },
        }
    }

    proof fn lemma_round_trip(m: AdvancementMappingEntrySpecModel, rest: Seq<u8>) {
        let t1 = AdvancementSpec::spec_serialize(m.value) + rest;
        let p1 = String::spec_serialize(m.key);
        let p2 = p1 + AdvancementSpec::spec_serialize(m.value);
        assert(Self::spec_serialize(m) == p2);
        lemma_concat_associative(p1, AdvancementSpec::spec_serialize(m.value), rest);
        String::lemma_round_trip(m.key, t1);
        AdvancementSpec::lemma_round_trip(m.value, rest);
    }

    fn mc_serialize(&self, to: &mut Vec<u8>) {
        let ghost start = to@;
        self.key.mc_serialize(to);
        self.value.mc_serialize(to);
        proof {
            lemma_concat_associative(start, String::spec_serialize(self.key.model()), AdvancementSpec::spec_serialize(self.value.model()));
        }
        assert(to@ =~= start + Self::spec_serialize(self.model()));
    }

    fn mc_deserialize(data: &[u8]) -> (r: Result<(Self, &[u8]), DeserializeErr>) {
        let (key, rest) = String::mc_deserialize(data)?;
        let (value, rest) = AdvancementSpec::mc_deserialize(rest)?;
        Ok((AdvancementMappingEntrySpec { key, value }, rest))
    }
}

/// A advancement spec as values.
pub struct AdvancementSpecModel {
    pub parent: <Option<String> as Codec>::Model,
    pub display: <Option<AdvancementDisplaySpec> as Codec>::Model,
    pub criteria: <VarIntCountedArray<String> as Codec>::Model,
    pub requirements: <VarIntCountedArray<VarIntCountedArray<String>> as Codec>::Model,
}

/// The advancement spec
#[derive(Debug, Clone, PartialEq, Eq)]
pub struct AdvancementSpec {
    pub parent: Option<String>,
    pub display: Option<AdvancementDisplaySpec>,
    pub criteria: VarIntCountedArray<String>,
    pub requirements: VarIntCountedArray<VarIntCountedArray<String>>,
}

impl Codec for AdvancementSpec {
    type Model = AdvancementSpecModel;

    open spec fn model(&self) -> AdvancementSpecModel {
        AdvancementSpecModel { parent: self.parent.model(), display: self.display.model(), criteria: self.criteria.model(), requirements: self.requirements.model() }
    }

    open spec fn encodable(m: AdvancementSpecModel) -> bool {
        Option::<String>::encodable(m.parent) && Option::<AdvancementDisplaySpec>::encodable(m.display) && VarIntCountedArray::<String>::encodable(m.criteria) && VarIntCountedArray::<VarIntCountedArray<String>>::encodable(m.requirements)
    }

    open spec fn legal(m: AdvancementSpecModel) -> bool {
        Option::<String>::legal(m.parent) && Option::<AdvancementDisplaySpec>::legal(m.display) && VarIntCountedArray::<String>::legal(m.criteria) && VarIntCountedArray::<VarIntCountedArray<String>>::legal(m.requirements)
    }

    open spec fn spec_serialize(m: AdvancementSpecModel) -> Seq<u8> {
        Option::<String>::spec_serialize(m.parent) + Option::<AdvancementDisplaySpec>::spec_serialize(m.display) + VarIntCountedArray::<String>::spec_serialize(m.criteria) + VarIntCountedArray::<VarIntCountedArray<String>>::spec_serialize(m.requirements)
    }

    open spec fn spec_deserialize(s: Seq<u8>) -> SpecResult<AdvancementSpecModel> {
        match Option::<String>::spec_deserialize(s) {
            Err(e) => Err(e),
            Ok((parent, r1)) => match Option::<AdvancementDisplaySpec>::spec_deserialize(r1) {
                Err(e) => Err(e),
                Ok((display, r2)) => match VarIntCountedArray::<String>::spec_deserialize(r2) {
                    Err(e) => Err(e),
                    Ok((criteria, r3)) => match VarIntCountedArray::<VarIntCountedArray<String>>::spec_deserialize(r3) {
                        Err(e) => Err(e),
                        Ok((requirements, r4)) => Ok((AdvancementSpecModel { parent, display, criteria, requirements }, r4)),
                    },
                },
            },
        }
    }

    #[verifier::rlimit(100)]
    #[verifier::spinoff_prover]
    proof fn lemma_round_trip(m: AdvancementSpecModel, rest: Seq<u8>) {
        let t3 = VarIntCountedArray::<VarIntCountedArray<String>>::spec_serialize(m.requirements) + rest;
        let t2 = VarIntCountedArray::<String>::spec_serialize(m.criteria) + t3;
        let t1 = Option::<AdvancementDisplaySpec>::spec_serialize(m.display) + t2;
        let p1 = Option::<String>::spec_serialize(m.parent);
        let p2 = p1 + Option::<AdvancementDisplaySpec>::spec_serialize(m.display);
        let p3 = p2 + VarIntCountedArray::<String>::spec_serialize(m.criteria);
        let p4 = p3 + VarIntCountedArray::<VarIntCountedArray<String>>::spec_serialize(m.requirements);
        assert(Self::spec_serialize(m) == p4);
        lemma_concat_associative(p3, VarIntCountedArray::<VarIntCountedArray<String>>::spec_serialize(m.requirements), rest);
        lemma_concat_associative(p2, VarIntCountedArray::<String>::spec_serialize(m.criteria), t3);
        lemma_concat_associative(p1, Option::<AdvancementDisplaySpec>::spec_serialize(m.display), t2);
        Option::<String>::lemma_round_trip(m.parent, t1);
        assert(Option::<String>::spec_deserialize(Self::spec_serialize(m) + rest) == Ok::<(<Option<String> as Codec>::Model, Seq<u8>), DeserializeErr>((m.parent, t1)));
        Option::<AdvancementDisplaySpec>::lemma_round_trip(m.display, t2);
        assert(Option::<AdvancementDisplaySpec>::spec_deserialize(t1) == Ok::<(<Option<AdvancementDisplaySpec> as Codec>::Model, Seq<u8>), DeserializeErr>((m.display, t2)));
        VarIntCountedArray::<String>::lemma_round_trip(m.criteria, t3);
        assert(VarIntCountedArray::<String>::spec_deserialize(t2) == Ok::<(<VarIntCountedArray<String> as Codec>::Model, Seq<u8>), DeserializeErr>((m.criteria, t3)));
        VarIntCountedArray::<VarIntCountedArray<String>>::lemma_round_trip(m.requirements, rest);
        assert(VarIntCountedArray::<VarIntCountedArray<String>>::spec_deserialize(t3) == Ok::<(<VarIntCountedArray<VarIntCountedArray<String>> as Codec>::Model, Seq<u8>), DeserializeErr>((m.requirements, rest)));
    }

    fn mc_serialize(&self, to: &mut Vec<u8>) {
        let ghost start = to@;
        self.parent.mc_serialize(to);
        self.display.mc_serialize(to);
        proof {
            lemma_concat_associative(start, Option::<String>::spec_serialize(self.parent.model()), Option::<AdvancementDisplaySpec>::spec_serialize(self.display.model()));
        }
        self.criteria.mc_serialize(to);
        proof {
            lemma_concat_associative(start, Option::<String>::spec_serialize(self.parent.model()) + Option::<AdvancementDisplaySpec>::spec_serialize(self.display.model()), VarIntCountedArray::<String>::spec_serialize(self.criteria.model()));
        }
        self.requirements.mc_serialize(to);
        proof {
            lemma_concat_associative(start, Option::<String>::spec_serialize(self.parent.model()) + Option::<AdvancementDisplaySpec>::spec_serialize(self.display.model()) + VarIntCountedArray::<String>::spec_serialize(self.criteria.model()), VarIntCountedArray::<VarIntCountedArray<String>>::spec_serialize(self.requirements.model()));
        }
        assert(to@ =~= start + Self::spec_serialize(self.model()));
    }

    fn mc_deserialize(data: &[u8]) -> (r: Result<(Self, &[u8]), DeserializeErr>) {
        let (parent, rest) = Option::<String>::mc_deserialize(data)?;
        let (display, rest) = Option::<AdvancementDisplaySpec>::mc_deserialize(rest)?;
        let (criteria, rest) = VarIntCountedArray::<String>::mc_deserialize(rest)?;
        let (requirements, rest) = VarIntCountedArray::<VarIntCountedArray<String>>::mc_deserialize(rest)?;
        Ok((AdvancementSpec { parent, display, criteria, requirements }, rest))
    }
}

/// A advancement display spec as values.
pub struct AdvancementDisplaySpecModel {
    pub title: <Chat as Codec>::Model,
    pub description: <Chat as Codec>::Model,
    pub icon: <Option<Slot> as Codec>::Model,
    pub frame_type: <AdvancementFrameType as Codec>::Model,
    pub flags: <AdvancementDisplayFlags as Codec>::Model,
    pub x: <Float32 as Codec>::Model,
    pub y: <Float32 as Codec>::Model,
}

/// The advancement display spec
#[derive(Debug, Clone, PartialEq, Eq)]
pub struct AdvancementDisplaySpec {
    pub title: Chat,
    pub description: Chat,
    pub icon: Option<Slot>,
    pub frame_type: AdvancementFrameType,
    pub flags: AdvancementDisplayFlags,
    pub x: Float32,
    pub y: Float32,
}

impl Codec for AdvancementDisplaySpec {
    type Model = AdvancementDisplaySpecModel;

    open spec fn model(&self) -> AdvancementDisplaySpecModel {
        AdvancementDisplaySpecModel { title: self.title.model(), description: self.description.model(), icon: self.icon.model(), frame_type: self.frame_type.model(), flags: self.flags.model(), x: self.x.model(), y: self.y.model() }
    }

    open spec fn encodable(m: AdvancementDisplaySpecModel) -> bool {
        Chat::encodable(m.title) && Chat::encodable(m.description) && Option::<Slot>::encodable(m.icon) && AdvancementFrameType::encodable(m.frame_type) && AdvancementDisplayFlags::encodable(m.flags) && Float32::encodable(m.x) && Float32::encodable(m.y)
    }

    open spec fn legal(m: AdvancementDisplaySpecModel) -> bool {
        Chat::legal(m.title) && Chat::legal(m.description) && Option::<Slot>::legal(m.icon) && AdvancementFrameType::legal(m.frame_type) && AdvancementDisplayFlags::legal(m.flags) && Float32::legal(m.x) && Float32::legal(m.y)
    }

    open spec fn spec_serialize(m: AdvancementDisplaySpecModel) -> Seq<u8> {
        Chat::spec_serialize(m.title) + Chat::spec_serialize(m.description) + Option::<Slot>::spec_serialize(m.icon) + AdvancementFrameType::spec_serialize(m.frame_type) + AdvancementDisplayFlags::spec_serialize(m.flags) + Float32::spec_serialize(m.x) + Float32::spec_serialize(m.y)
    }

    open spec fn spec_deserialize(s: Seq<u8>) -> SpecResult<AdvancementDisplaySpecModel> {
        match Chat::spec_deserialize(s) {
            Err(e) => Err(e),
            Ok((title, r1)) => match Chat::spec_deserialize(r1) {
                Err(e) => Err(e),
                Ok((description, r2)) => match Option::<Slot>::spec_deserialize(r2) {
                    Err(e) => Err(e),
                    Ok((icon, r3)) => match AdvancementFrameType::spec_deserialize(r3) {
                        Err(e) => Err(e),
                        Ok((frame_type, r4)) => match AdvancementDisplayFlags::spec_deserialize(r4) {
                            Err(e) => Err(e),
                            Ok((flags, r5)) => match Float32::spec_deserialize(r5) {
                                Err(e) => Err(e),
                                Ok((x, r6)) => match Float32::spec_deserialize(r6) {
                                    Err(e) => Err(e),
                                    Ok((y, r7)) => Ok((AdvancementDisplaySpecModel { title, description, icon, frame_type, flags, x, y }, r7)),
                                },
                            },
                        },
                    },
                },
            },
        }
    }

    #[verifier::rlimit(100)]
    #[verifier::spinoff_prover]
    proof fn lemma_round_trip(m: AdvancementDisplaySpecModel, rest: Seq<u8>) {
        let t6 = Float32::spec_serialize(m.y) + rest;
        let t5 = Float32::spec_serialize(m.x) + t6;
        let t4 = AdvancementDisplayFlags::spec_serialize(m.flags) + t5;
        let t3 = AdvancementFrameType::spec_serialize(m.frame_type) + t4;
        let t2 = Option::<Slot>::spec_serialize(m.icon) + t3;
        let t1 = Chat::spec_serialize(m.description) + t2;
        let p1 = Chat::spec_serialize(m.title);
        let p2 = p1 + Chat::spec_serialize(m.description);
        let p3 = p2 + Option::<Slot>::spec_serialize(m.icon);
        let p4 = p3 + AdvancementFrameType::spec_serialize(m.frame_type);
        let p5 = p4 + AdvancementDisplayFlags::spec_serialize(m.flags);
        let p6 = p5 + Float32::spec_serialize(m.x);
        let p7 = p6 + Float32::spec_serialize(m.y);
        assert(Self::spec_serialize(m) == p7);
        lemma_concat_associative(p6, Float32::spec_serialize(m.y), rest);
        lemma_concat_associative(p5, Float32::spec_serialize(m.x), t6);
        lemma_concat_associative(p4, AdvancementDisplayFlags::spec_serialize(m.flags), t5);
        lemma_concat_associative(p3, AdvancementFrameType::spec_serialize(m.frame_type), t4);
        lemma_concat_associative(p2, Option::<Slot>::spec_serialize(m.icon), t3);
        lemma_concat_associative(p1, Chat::spec_serialize(m.description), t2);
        Chat::lemma_round_trip(m.title, t1);
        assert(Chat::spec_deserialize(Self::spec_serialize(m) + rest) == Ok::<(<Chat as Codec>::Model, Seq<u8>), DeserializeErr>((m.title, t1)));
        Chat::lemma_round_trip(m.description, t2);
        assert(Chat::spec_deserialize(t1) == Ok::<(<Chat as Codec>::Model, Seq<u8>), DeserializeErr>((m.description, t2)));
        Option::<Slot>::lemma_round_trip(m.icon, t3);
        assert(Option::<Slot>::spec_deserialize(t2) == Ok::<(<Option<Slot> as Codec>::Model, Seq<u8>), DeserializeErr>((m.icon, t3)));
        AdvancementFrameType::lemma_round_trip(m.frame_type, t4);
        assert(AdvancementFrameType::spec_deserialize(t3) == Ok::<(<AdvancementFrameType as Codec>::Model, Seq<u8>), DeserializeErr>((m.frame_type, t4)));
        AdvancementDisplayFlags::lemma_round_trip(m.flags, t5);
        assert(AdvancementDisplayFlags::spec_deserialize(t4) == Ok::<(<AdvancementDisplayFlags as Codec>::Model, Seq<u8>), DeserializeErr>((m.flags, t5)));
        Float32::lemma_round_trip(m.x, t6);
        assert(Float32::spec_deserialize(t5) == Ok::<(<Float32 as Codec>::Model, Seq<u8>), DeserializeErr>((m.x, t6)));
        Float32::lemma_round_trip(m.y, rest);
        assert(Float32::spec_deserialize(t6) == Ok::<(<Float32 as Codec>::Model, Seq<u8>), DeserializeErr>((m.y, rest)));
    }

    fn mc_serialize(&self, to: &mut Vec<u8>) {
        let ghost start = to@;
        self.title.mc_serialize(to);
        self.description.mc_serialize(to);
        proof {
            lemma_concat_associative(start, Chat::spec_serialize(self.title.model()), Chat::spec_serialize(self.description.model()));
        }
        self.icon.mc_serialize(to);
        proof {
            lemma_concat_associative(start, Chat::spec_serialize(self.title.model()) + Chat::spec_serialize(self.description.model()), Option::<Slot>::spec_serialize(self.icon.model()));
        }
        self.frame_type.mc_serialize(to);
        proof {
            lemma_concat_associative(start, Chat::spec_serialize(self.title.model()) + Chat::spec_serialize(self.description.model()) + Option::<Slot>::spec_serialize(self.icon.model()), AdvancementFrameType::spec_serialize(self.frame_type.model()));
        }
        self.flags.mc_serialize(to);
        proof {
            lemma_concat_associative(start, Chat::spec_serialize(self.title.model()) + Chat::spec_serialize(self.description.model()) + Option::<Slot>::spec_serialize(self.icon.model()) + AdvancementFrameType::spec_serialize(self.frame_type.model()), AdvancementDisplayFlags::spec_serialize(self.flags.model()));
        }
        self.x.mc_serialize(to);
        proof {
            lemma_concat_associative(start, Chat::spec_serialize(self.title.model()) + Chat::spec_serialize(self.description.model()) + Option::<Slot>::spec_serialize(self.icon.model()) + AdvancementFrameType::spec_serialize(self.frame_type.model()) + AdvancementDisplayFlags::spec_serialize(self.flags.model()), Float32::spec_serialize(self.x.model()));
        }
        self.y.mc_serialize(to);
        proof {
            lemma_concat_associative(start, Chat::spec_serialize(self.title.model()) + Chat::spec_serialize(self.description.model()) + Option::<Slot>::spec_serialize(self.icon.model()) + AdvancementFrameType::spec_serialize(self.frame_type.model()) + AdvancementDisplayFlags::spec_serialize(self.flags.model()) + Float32::spec_serialize(self.x.model()), Float32::spec_serialize(self.y.model()));
        }
        assert(to@ =~= start + Self::spec_serialize(self.model()));
    }

    fn mc_deserialize(data: &[u8]) -> (r: Result<(Self, &[u8]), DeserializeErr>) {
        let (title, rest) = Chat::mc_deserialize(data)?;
        let (description, rest) = Chat::mc_deserialize(rest)?;
        let (icon, rest) = Option::<Slot>::mc_deserialize(rest)?;
        let (frame_type, rest) = AdvancementFrameType::mc_deserialize(rest)?;
        let (flags, rest) = AdvancementDisplayFlags::mc_deserialize(rest)?;
        let (x, rest) = Float32::mc_deserialize(rest)?;
        let (y, rest) = Float32::mc_deserialize(rest)?;
        Ok((AdvancementDisplaySpec { title, description, icon, frame_type, flags, x, y }, rest))
    }
}

/// A advancement progress entry spec as values.
pub struct AdvancementProgressEntrySpecModel {
    pub key: <String as Codec>::Model,
    pub value: <AdvancementProgressSpec as Codec>::Model,
}

/// The advancement progress entry spec
#[derive(Debug, Clone, PartialEq, Eq)]
pub struct AdvancementProgressEntrySpec {
    pub key: String,
    pub value: AdvancementProgressSpec,
}

impl Codec for AdvancementProgressEntrySpec {
    type Model = AdvancementProgressEntrySpecModel;

    open spec fn model(&self) -> AdvancementProgressEntrySpecModel {
        AdvancementProgressEntrySpecModel { key: self.key.model(), value: self.value.model() }
    }

    open spec fn encodable(m: AdvancementProgressEntrySpecModel) -> bool {
        String::encodable(m.key) && AdvancementProgressSpec::encodable(m.value)
    }

    open spec fn legal(m: AdvancementProgressEntrySpecModel) -> bool {
        String::legal(m.key) && AdvancementProgressSpec::legal(m.value)
    }

    open spec fn spec_serialize(m: AdvancementProgressEntrySpecModel) -> Seq<u8> {
        String::spec_serialize(m.key) + AdvancementProgressSpec::spec_serialize(m.value)
    }

    open spec fn spec_deserialize(s: Seq<u8>) -> SpecResult<AdvancementProgressEntrySpecModel> {
        match String::spec_deserialize(s) {
            Err(e) => Err(e),
            Ok((key, r1)) => match AdvancementProgressSpec::spec_deserialize(r1) {
                Err(e) => Err(e),
                Ok((value, r2)) => Ok((AdvancementProgressEntrySpecModel { key, value }, r2)),
            },
        }
    }

    proof fn lemma_round_trip(m: AdvancementProgressEntrySpecModel, rest: Seq<u8>) {
        let t1 = AdvancementProgressSpec::spec_serialize(m.value) + rest;
        let p1 = String::spec_serialize(m.key);
        let p2 = p1 + AdvancementProgressSpec::spec_serialize(m.value);
        assert(Self::spec_serialize(m) == p2);
        lemma_concat_associative(p1, AdvancementProgressSpec::spec_serialize(m.value), rest);
        String::lemma_round_trip(m.key, t1);
        AdvancementProgressSpec::lemma_round_trip(m.value, rest);
    }

    fn mc_serialize(&self, to: &mut Vec<u8>) {
        let ghost start = to@;
        self.key.mc_serialize(to);
        self.value.mc_serialize(to);
        proof {
            lemma_concat_associative(start, String::spec_serialize(self.key.model()), AdvancementProgressSpec::spec_serialize(self.value.model()));
        }
        assert(to@ =~= start + Self::spec_serialize(self.model()));
    }

    fn mc_deserialize(data: &[u8]) -> (r: Result<(Self, &[u8]), DeserializeErr>) {
        let (key, rest) = String::mc_deserialize(data)?;
        let (value, rest) = AdvancementProgressSpec::mc_deserialize(rest)?;
        Ok((AdvancementProgressEntrySpec { key, value }, rest))
    }
}

/// A advancement progress spec as values.
pub struct AdvancementProgressSpecModel {
    pub criteria: <VarIntCountedArray<AdvancementCriteriaSpec> as Codec>::Model,
}

/// The advancement progress spec
#[derive(Debug, Clone, PartialEq, Eq)]
pub struct AdvancementProgressSpec {
    pub criteria: VarIntCountedArray<AdvancementCriteriaSpec>,
}

impl Codec for AdvancementProgressSpec {
    type Model = AdvancementProgressSpecModel;

    open spec fn model(&self) -> AdvancementProgressSpecModel {
        AdvancementProgressSpecModel { criteria: self.criteria.model() }
    }

    open spec fn encodable(m: AdvancementProgressSpecModel) -> bool {
        VarIntCountedArray::<AdvancementCriteriaSpec>::encodable(m.criteria)
    }

    open spec fn legal(m: AdvancementProgressSpecModel) -> bool {
        VarIntCountedArray::<AdvancementCriteriaSpec>::legal(m.criteria)
    }

    open spec fn spec_serialize(m: AdvancementProgressSpecModel) -> Seq<u8> {
        VarIntCountedArray::<AdvancementCriteriaSpec>::spec_serialize(m.criteria)
    }

    open spec fn spec_deserialize(s: Seq<u8>) -> SpecResult<AdvancementProgressSpecModel> {
        match VarIntCountedArray::<AdvancementCriteriaSpec>::spec_deserialize(s) {
            Err(e) => Err(e),
            Ok((criteria, r1)) => Ok((AdvancementProgressSpecModel { criteria }, r1)),
        }
    }

    proof fn lemma_round_trip(m: AdvancementProgressSpecModel, rest: Seq<u8>) {
        VarIntCountedArray::<AdvancementCriteriaSpec>::lemma_round_trip(m.criteria, rest);
    }

    fn mc_serialize(&self, to: &mut Vec<u8>) {
        let ghost start = to@;
        self.criteria.mc_serialize(to);
        assert(to@ =~= start + Self::spec_serialize(self.model()));
    }

    fn mc_deserialize(data: &[u8]) -> (r: Result<(Self, &[u8]), DeserializeErr>) {
        let (criteria, rest) = VarIntCountedArray::<AdvancementCriteriaSpec>::mc_deserialize(data)?;
        Ok((AdvancementProgressSpec { criteria }, rest))
    }
}

/// A advancement criteria spec as values.
pub struct AdvancementCriteriaSpecModel {
    pub identifier: <String as Codec>::Model,
    pub progress: <AdvancementCriterionProgressSpec as Codec>::Model,
}

/// The advancement criteria spec
#[derive(Debug, Clone, PartialEq, Eq)]
pub struct AdvancementCriteriaSpec {
    pub identifier: String,
    pub progress: AdvancementCriterionProgressSpec,
}

impl Codec for AdvancementCriteriaSpec {
    type Model = AdvancementCriteriaSpecModel;

    open spec fn model(&self) -> AdvancementCriteriaSpecModel {
        AdvancementCriteriaSpecModel { identifier: self.identifier.model(), progress: self.progress.model() }
    }

    open spec fn encodable(m: AdvancementCriteriaSpecModel) -> bool {
        String::encodable(m.identifier) && AdvancementCriterionProgressSpec::encodable(m.progress)
    }

    open spec fn legal(m: AdvancementCriteriaSpecModel) -> bool {
        String::legal(m.identifier) && AdvancementCriterionProgressSpec::legal(m.progress)
    }

    open spec fn spec_serialize(m: AdvancementCriteriaSpecModel) -> Seq<u8> {
        String::spec_serialize(m.identifier) + AdvancementCriterionProgressSpec::spec_serialize(m.progress)
    }

    open spec fn spec_deserialize(s: Seq<u8>) -> SpecResult<AdvancementCriteriaSpecModel> {
        match String::spec_deserialize(s) {
            Err(e) => Err(e),
            Ok((identifier, r1)) => match AdvancementCriterionProgressSpec::spec_deserialize(r1) {
                Err(e) => Err(e),
                Ok((progress, r2)) => Ok((AdvancementCriteriaSpecModel { identifier, progress }, r2)),
            },
        }
    }

    proof fn lemma_round_trip(m: AdvancementCriteriaSpecModel, rest: Seq<u8>) {
        let t1 = AdvancementCriterionProgressSpec::spec_serialize(m.progress) + rest;
        let p1 = String::spec_serialize(m.identifier);
        let p2 = p1 + AdvancementCriterionProgressSpec::spec_serialize(m.progress);
        assert(Self::spec_serialize(m) == p2);
        lemma_concat_associative(p1, AdvancementCriterionProgressSpec::spec_serialize(m.progress), rest);
        String::lemma_round_trip(m.identifier, t1);
        AdvancementCriterionProgressSpec::lemma_round_trip(m.progress, rest);
    }

    fn mc_serialize(&self, to: &mut Vec<u8>) {
        let ghost start = to@;
        self.identifier.mc_serialize(to);
        self.progress.mc_serialize(to);
        proof {
            lemma_concat_associative(start, String::spec_serialize(self.identifier.model()), AdvancementCriterionProgressSpec::spec_serialize(self.progress.model()));
        }
        assert(to@ =~= start + Self::spec_serialize(self.model()));
    }

    fn mc_deserialize(data: &[u8]) -> (r: Result<(Self, &[u8]), DeserializeErr>) {
        let (identifier, rest) = String::mc_deserialize(data)?;
        let (progress, rest) = AdvancementCriterionProgressSpec::mc_deserialize(rest)?;
        Ok((AdvancementCriteriaSpec { identifier, progress }, rest))
    }
}

/// A advancement criterion progress spec as values.
pub struct AdvancementCriterionProgressSpecModel {
    pub achieved_at: <Option<i64> as Codec>::Model,
}

/// The advancement criterion progress spec
#[derive(Debug, Clone, PartialEq, Eq)]
pub struct AdvancementCriterionProgressSpec {
    pub achieved_at: Option<i64>,
}

impl Codec for AdvancementCriterionProgressSpec {
    type Model = AdvancementCriterionProgressSpecModel;

    open spec fn model(&self) -> AdvancementCriterionProgressSpecModel {
        AdvancementCriterionProgressSpecModel { achieved_at: self.achieved_at.model() }
    }

    open spec fn encodable(m: AdvancementCriterionProgressSpecModel) -> bool {
        Option::<i64>::encodable(m.achieved_at)
    }

    open spec fn legal(m: AdvancementCriterionProgressSpecModel) -> bool {
        Option::<i64>::legal(m.achieved_at)
    }

    open spec fn spec_serialize(m: AdvancementCriterionProgressSpecModel) -> Seq<u8> {
        Option::<i64>::spec_serialize(m.achieved_at)
    }

    open spec fn spec_deserialize(s: Seq<u8>) -> SpecResult<AdvancementCriterionProgressSpecModel> {
        match Option::<i64>::spec_deserialize(s) {
            Err(e) => Err(e),
            Ok((achieved_at, r1)) => Ok((AdvancementCriterionProgressSpecModel { achieved_at }, r1)),
        }
    }

    proof fn lemma_round_trip(m: AdvancementCriterionProgressSpecModel, rest: Seq<u8>) {
        Option::<i64>::lemma_round_trip(m.achieved_at, rest);
    }

    fn mc_serialize(&self, to: &mut Vec<u8>) {
        let ghost start = to@;
        self.achieved_at.mc_serialize(to);
        assert(to@ =~= start + Self::spec_serialize(self.model()));
    }

    fn mc_deserialize(data: &[u8]) -> (r: Result<(Self, &[u8]), DeserializeErr>) {
        let (achieved_at, rest) = Option::<i64>::mc_deserialize(data)?;
        Ok((AdvancementCriterionProgressSpec { achieved_at }, rest))
    }
}

/// A entity property spec as values.
pub struct EntityPropertySpecModel {
    pub key: <String as Codec>::Model,
    pub value: <Float64 as Codec>::Model,
    pub modifiers: <VarIntCountedArray<EntityPropertyModifierSpec> as Codec>::Model,
}

/// The entity property spec
#[derive(Debug, Clone, PartialEq, Eq)]
pub struct EntityPropertySpec {
    pub key: String,
    pub value: Float64,
    pub modifiers: VarIntCountedArray<EntityPropertyModifierSpec>,
}

impl Codec for EntityPropertySpec {
    type Model = EntityPropertySpecModel;

    open spec fn model(&self) -> EntityPropertySpecModel {
        EntityPropertySpecModel { key: self.key.model(), value: self.value.model(), modifiers: self.modifiers.model() }
    }

    open spec fn encodable(m: EntityPropertySpecModel) -> bool {
        String::encodable(m.key) && Float64::encodable(m.value) && VarIntCountedArray::<EntityPropertyModifierSpec>::encodable(m.modifiers)
    }

    open spec fn legal(m: EntityPropertySpecModel) -> bool {
        String::legal(m.key) && Float64::legal(m.value) && VarIntCountedArray::<EntityPropertyModifierSpec>::legal(m.modifiers)
    }

    open spec fn spec_serialize(m: EntityPropertySpecModel) -> Seq<u8> {
        String::spec_serialize(m.key) + Float64::spec_serialize(m.value) + VarIntCountedArray::<EntityPropertyModifierSpec>::spec_serialize(m.modifiers)
    }

    open spec fn spec_deserialize(s: Seq<u8>) -> SpecResult<EntityPropertySpecModel> {
        match String::spec_deserialize(s) {
            Err(e) => Err(e),
            Ok((key, r1)) => match Float64::spec_deserialize(r1) {
                Err(e) => Err(e),
                Ok((value, r2)) => match VarIntCountedArray::<EntityPropertyModifierSpec>::spec_deserialize(r2) {
                    Err(e) => Err(e),
                    Ok((modifiers, r3)) => Ok((EntityPropertySpecModel { key, value, modifiers }, r3)),
                },
            },
        }
    }

    proof fn lemma_round_trip(m: EntityPropertySpecModel, rest: Seq<u8>) {
        let t2 = VarIntCountedArray::<EntityPropertyModifierSpec>::spec_serialize(m.modifiers) + rest;
        let t1 = Float64::spec_serialize(m.value) + t2;
        let p1 = String::spec_serialize(m.key);
        let p2 = p1 + Float64::spec_serialize(m.value);
        let p3 = p2 + VarIntCountedArray::<EntityPropertyModifierSpec>::spec_serialize(m.modifiers);
        assert(Self::spec_serialize(m) == p3);
        lemma_concat_associative(p2, VarIntCountedArray::<EntityPropertyModifierSpec>::spec_serialize(m.modifiers), rest);
        lemma_concat_associative(p1, Float64::spec_serialize(m.value), t2);
        String::lemma_round_trip(m.key, t1);
        Float64::lemma_round_trip(m.value, t2);
        VarIntCountedArray::<EntityPropertyModifierSpec>::lemma_round_trip(m.modifiers, rest);
    }

    fn mc_serialize(&self, to: &mut Vec<u8>) {
        let ghost start = to@;
        self.key.mc_serialize(to);
        self.value.mc_serialize(to);
        proof {
            lemma_concat_associative(start, String::spec_serialize(self.key.model()), Float64::spec_serialize(self.value.model()));
        }
        self.modifiers.mc_serialize(to);
        proof {
            lemma_concat_associative(start, String::spec_serialize(self.key.model()) + Float64::spec_serialize(self.value.model()), VarIntCountedArray::<EntityPropertyModifierSpec>::spec_serialize(self.modifiers.model()));
        }
        assert(to@ =~= start + Self::spec_serialize(self.model()));
    }

    fn mc_deserialize(data: &[u8]) -> (r: Result<(Self, &[u8]), DeserializeErr>) {
        let (key, rest) = String::mc_deserialize(data)?;
        let (value, rest) = Float64::mc_deserialize(rest)?;
        let (modifiers, rest) = VarIntCountedArray::<EntityPropertyModifierSpec>::mc_deserialize(rest)?;
        Ok((EntityPropertySpec { key, value, modifiers }, rest))
    }
}

/// A entity property modifier spec as values.
pub struct EntityPropertyModifierSpecModel {
    pub uuid: <UUID4 as Codec>::Model,
    pub amount: <Float64 as Codec>::Model,
    pub operation: <EntityPropertyModifierOperation as Codec>::Model,
}

/// The entity property modifier spec
#[derive(Debug, Clone, PartialEq, Eq)]
pub struct EntityPropertyModifierSpec {
    pub uuid: UUID4,
    pub amount: Float64,
    pub operation: EntityPropertyModifierOperation,
}

impl Codec for EntityPropertyModifierSpec {
    type Model = EntityPropertyModifierSpecModel;

    open spec fn model(&self) -> EntityPropertyModifierSpecModel {
        EntityPropertyModifierSpecModel { uuid: self.uuid.model(), amount: self.amount.model(), operation: self.operation.model() }
    }

    open spec fn encodable(m: EntityPropertyModifierSpecModel) -> bool {
        UUID4::encodable(m.uuid) && Float64::encodable(m.amount) && EntityPropertyModifierOperation::encodable(m.operation)
    }

    open spec fn legal(m: EntityPropertyModifierSpecModel) -> bool {
        UUID4::legal(m.uuid) && Float64::legal(m.amount) && EntityPropertyModifierOperation::legal(m.operation)
    }

    open spec fn spec_serialize(m: EntityPropertyModifierSpecModel) -> Seq<u8> {
        UUID4::spec_serialize(m.uuid) + Float64::spec_serialize(m.amount) + EntityPropertyModifierOperation::spec_serialize(m.operation)
    }

    open spec fn spec_deserialize(s: Seq<u8>) -> SpecResult<EntityPropertyModifierSpecModel> {
        match UUID4::spec_deserialize(s) {
            Err(e) => Err(e),
            Ok((uuid, r1)) => match Float64::spec_deserialize(r1) {
                Err(e) => Err(e),
                Ok((amount, r2)) => match EntityPropertyModifierOperation::spec_deserialize(r2) {
                    Err(e) => Err(e),
                    Ok((operation, r3)) => Ok((EntityPropertyModifierSpecModel { uuid, amount, operation }, r3)),
                },
            },
        }
    }

    proof fn lemma_round_trip(m: EntityPropertyModifierSpecModel, rest: Seq<u8>) {
        let t2 = EntityPropertyModifierOperation::spec_serialize(m.operation) + rest;
        let t1 = Float64::spec_serialize(m.amount) + t2;
        let p1 = UUID4::spec_serialize(m.uuid);
        let p2 = p1 + Float64::spec_serialize(m.amount);
        let p3 = p2 + EntityPropertyModifierOperation::spec_serialize(m.operation);
        assert(Self::spec_serialize(m) == p3);
        lemma_concat_associative(p2, EntityPropertyModifierOperation::spec_serialize(m.operation), rest);
        lemma_concat_associative(p1, Float64::spec_serialize(m.amount), t2);
        UUID4::lemma_round_trip(m.uuid, t1);
        Float64::lemma_round_trip(m.amount, t2);
        EntityPropertyModifierOperation::lemma_round_trip(m.operation, rest);
    }

    fn mc_serialize(&self, to: &mut Vec<u8>) {
        let ghost start = to@;
        self.uuid.mc_serialize(to);
        self.amount.mc_serialize(to);
        proof {
            lemma_concat_associative(start, UUID4::spec_serialize(self.uuid.model()), Float64::spec_serialize(self.amount.model()));
        }
        self.operation.mc_serialize(to);
        proof {
            lemma_concat_associative(start, UUID4::spec_serialize(self.uuid.model()) + Float64::spec_serialize(self.amount.model()), EntityPropertyModifierOperation::spec_serialize(self.operation.model()));
        }
        assert(to@ =~= start + Self::spec_serialize(self.model()));
    }

    fn mc_deserialize(data: &[u8]) -> (r: Result<(Self, &[u8]), DeserializeErr>) {
        let (uuid, rest) = UUID4::mc_deserialize(data)?;
        let (amount, rest) = Float64::mc_deserialize(rest)?;
        let (operation, rest) = EntityPropertyModifierOperation::mc_deserialize(rest)?;
        Ok((EntityPropertyModifierSpec { uuid, amount, operation }, rest))
    }
}

/// A tag spec as values.
pub struct TagSpecModel {
    pub name: <String as Codec>::Model,
    pub entries: <VarIntCountedArray<VarInt> as Codec>::Model,
}

/// The tag spec
#[derive(Debug, Clone, PartialEq, Eq)]
pub struct TagSpec {
    pub name: String,
    pub entries: VarIntCountedArray<VarInt>,
}

impl Codec for TagSpec {
    type Model = TagSpecModel;

    open spec fn model(&self) -> TagSpecModel {
        TagSpecModel { name: self.name.model(), entries: self.entries.model() }
    }

    open spec fn encodable(m: TagSpecModel) -> bool {
        String::encodable(m.name) && VarIntCountedArray::<VarInt>::encodable(m.entries)
    }

    open spec fn legal(m: TagSpecModel) -> bool {
        String::legal(m.name) && VarIntCountedArray::<VarInt>::legal(m.entries)
    }

    open spec fn spec_serialize(m: TagSpecModel) -> Seq<u8> {
        String::spec_serialize(m.name) + VarIntCountedArray::<VarInt>::spec_serialize(m.entries)
    }

    open spec fn spec_deserialize(s: Seq<u8>) -> SpecResult<TagSpecModel> {
        match String::spec_deserialize(s) {
            Err(e) => Err(e),
            Ok((name, r1)) => match VarIntCountedArray::<VarInt>::spec_deserialize(r1) {
                Err(e) => Err(e),
                Ok((entries, r2)) => Ok((TagSpecModel { name, entries }, r2)),
            },
        }
    }

    proof fn lemma_round_trip(m: TagSpecModel, rest: Seq<u8>) {
        let t1 = VarIntCountedArray::<VarInt>::spec_serialize(m.entries) + rest;
        let p1 = String::spec_serialize(m.name);
        let p2 = p1 + VarIntCountedArray::<VarInt>::spec_serialize(m.entries);
        assert(Self::spec_serialize(m) == p2);
        lemma_concat_associative(p1, VarIntCountedArray::<VarInt>::spec_serialize(m.entries), rest);
        String::lemma_round_trip(m.name, t1);
        VarIntCountedArray::<VarInt>::lemma_round_trip(m.entries, rest);
    }

    fn mc_serialize(&self, to: &mut Vec<u8>) {
        let ghost start = to@;
        self.name.mc_serialize(to);
        self.entries.mc_serialize(to);
        proof {
            lemma_concat_associative(start, String::spec_serialize(self.name.model()), VarIntCountedArray::<VarInt>::spec_serialize(self.entries.model()));
        }
        assert(to@ =~= start + Self::spec_serialize(self.model()));
    }

    fn mc_deserialize(data: &[u8]) -> (r: Result<(Self, &[u8]), DeserializeErr>) {
        let (name, rest) = String::mc_deserialize(data)?;
        let (entries, rest) = VarIntCountedArray::<VarInt>::mc_deserialize(rest)?;
        Ok((TagSpec { name, entries }, rest))
    }
}

/// A interact at spec as values.
pub struct InteractAtSpecModel {
    pub target_x: <Float32 as Codec>::Model,
    pub target_y: <Float32 as Codec>::Model,
    pub target_z: <Float32 as Codec>::Model,
    pub hand: <Hand as Codec>::Model,
}

/// The interact at spec
#[derive(Debug, Clone, PartialEq, Eq)]
pub struct InteractAtSpec {
    pub target_x: Float32,
    pub target_y: Float32,
    pub target_z: Float32,
    pub hand: Hand,
}

impl Codec for InteractAtSpec {
    type Model = InteractAtSpecModel;

    open spec fn model(&self) -> InteractAtSpecModel {
        InteractAtSpecModel { target_x: self.target_x.model(), target_y: self.target_y.model(), target_z: self.target_z.model(), hand: self.hand.model() }
    }

    open spec fn encodable(m: InteractAtSpecModel) -> bool {
        Float32::encodable(m.target_x) && Float32::encodable(m.target_y) && Float32::encodable(m.target_z) && Hand::encodable(m.hand)
    }

    open spec fn legal(m: InteractAtSpecModel) -> bool {
        Float32::legal(m.target_x) && Float32::legal(m.target_y) && Float32::legal(m.target_z) && Hand::legal(m.hand)
    }

    open spec fn spec_serialize(m: InteractAtSpecModel) -> Seq<u8> {
        Float32::spec_serialize(m.target_x) + Float32::spec_serialize(m.target_y) + Float32::spec_serialize(m.target_z) + Hand::spec_serialize(m.hand)
    }

    open spec fn spec_deserialize(s: Seq<u8>) -> SpecResult<InteractAtSpecModel> {
        match Float32::spec_deserialize(s) {
            Err(e) => Err(e),
            Ok((target_x, r1)) => match Float32::spec_deserialize(r1) {
                Err(e) => Err(e),
                Ok((target_y, r2)) => match Float32::spec_deserialize(r2) {
                    Err(e) => Err(e),
                    Ok((target_z, r3)) => match Hand::spec_deserialize(r3) {
                        Err(e) => Err(e),
                        Ok((hand, r4)) => Ok((InteractAtSpecModel { target_x, target_y, target_z, hand }, r4)),
                    },
                },
            },
        }
    }

    #[verifier::rlimit(100)]
    #[verifier::spinoff_prover]
    proof fn lemma_round_trip(m: InteractAtSpecModel, rest: Seq<u8>) {
        let t3 = Hand::spec_serialize(m.hand) + rest;
        let t2 = Float32::spec_serialize(m.target_z) + t3;
        let t1 = Float32::spec_serialize(m.target_y) + t2;
        let p1 = Float32::spec_serialize(m.target_x);
        let p2 = p1 + Float32::spec_serialize(m.target_y);
        let p3 = p2 + Float32::spec_serialize(m.target_z);
        let p4 = p3 + Hand::spec_serialize(m.hand);
        assert(Self::spec_serialize(m) == p4);
        lemma_concat_associative(p3, Hand::spec_serialize(m.hand), rest);
        lemma_concat_associative(p2, Float32::spec_serialize(m.target_z), t3);
        lemma_concat_associative(p1, Float32::spec_serialize(m.target_y), t2);
        Float32::lemma_round_trip(m.target_x, t1);
        assert(Float32::spec_deserialize(Self::spec_serialize(m) + rest) == Ok::<(<Float32 as Codec>::Model, Seq<u8>), DeserializeErr>((m.target_x, t1)));
        Float32::lemma_round_trip(m.target_y, t2);
        assert(Float32::spec_deserialize(t1) == Ok::<(<Float32 as Codec>::Model, Seq<u8>), DeserializeErr>((m.target_y, t2)));
        Float32::lemma_round_trip(m.target_z, t3);
        assert(Float32::spec_deserialize(t2) == Ok::<(<Float32 as Codec>::Model, Seq<u8>), DeserializeErr>((m.target_z, t3)));
        Hand::lemma_round_trip(m.hand, rest);
        assert(Hand::spec_deserialize(t3) == Ok::<(<Hand as Codec>::Model, Seq<u8>), DeserializeErr>((m.hand, rest)));
    }

    fn mc_serialize(&self, to: &mut Vec<u8>) {
        let ghost start = to@;
        self.target_x.mc_serialize(to);
        self.target_y.mc_serialize(to);
        proof {
            lemma_concat_associative(start, Float32::spec_serialize(self.target_x.model()), Float32::spec_serialize(self.target_y.model()));
        }
        self.target_z.mc_serialize(to);
        proof {
            lemma_concat_associative(start, Float32::spec_serialize(self.target_x.model()) + Float32::spec_serialize(self.target_y.model()), Float32::spec_serialize(self.target_z.model()));
        }
        self.hand.mc_serialize(to);
        proof {
            lemma_concat_associative(start, Float32::spec_serialize(self.target_x.model()) + Float32::spec_serialize(self.target_y.model()) + Float32::spec_serialize(self.target_z.model()), Hand::spec_serialize(self.hand.model()));
        }
        assert(to@ =~= start + Self::spec_serialize(self.model()));
    }

    fn mc_deserialize(data: &[u8]) -> (r: Result<(Self, &[u8]), DeserializeErr>) {
        let (target_x, rest) = Float32::mc_deserialize(data)?;
        let (target_y, rest) = Float32::mc_deserialize(rest)?;
        let (target_z, rest) = Float32::mc_deserialize(rest)?;
        let (hand, rest) = Hand::mc_deserialize(rest)?;
        Ok((InteractAtSpec { target_x, target_y, target_z, hand }, rest))
    }
}

/// A recipe book states as values.
pub struct RecipeBookStatesModel {
    pub crafting_book_open: <bool as Codec>::Model,
    pub craftinb_filter_active: <bool as Codec>::Model,
    pub smelting_book_open: <bool as Codec>::Model,
    pub smelting_filter_active: <bool as Codec>::Model,
    pub blasting_book_open: <bool as Codec>::Model,
    pub blasting_filter_active: <bool as Codec>::Model,
    pub smoking_book_open: <bool as Codec>::Model,
    pub smoking_filter_active: <bool as Codec>::Model,
}

/// The recipe book states
#[derive(Debug, Clone, PartialEq, Eq)]
pub struct RecipeBookStates {
    pub crafting_book_open: bool,
    pub craftinb_filter_active: bool,
    pub smelting_book_open: bool,
    pub smelting_filter_active: bool,
    pub blasting_book_open: bool,
    pub blasting_filter_active: bool,
    pub smoking_book_open: bool,
    pub smoking_filter_active: bool,
}

impl Codec for RecipeBookStates {
    type Model = RecipeBookStatesModel;

    open spec fn model(&self) -> RecipeBookStatesModel {
        RecipeBookStatesModel { crafting_book_open: self.crafting_book_open.model(), craftinb_filter_active: self.craftinb_filter_active.model(), smelting_book_open: self.smelting_book_open.model(), smelting_filter_active: self.smelting_filter_active.model(), blasting_book_open: self.blasting_book_open.model(), blasting_filter_active: self.blasting_filter_active.model(), smoking_book_open: self.smoking_book_open.model(), smoking_filter_active: self.smoking_filter_active.model() }
    }

    open spec fn encodable(m: RecipeBookStatesModel) -> bool {
        bool::encodable(m.crafting_book_open) && bool::encodable(m.craftinb_filter_active) && bool::encodable(m.smelting_book_open) && bool::encodable(m.smelting_filter_active) && bool::encodable(m.blasting_book_open) && bool::encodable(m.blasting_filter_active) && bool::encodable(m.smoking_book_open) && bool::encodable(m.smoking_filter_active)
    }

    open spec fn legal(m: RecipeBookStatesModel) -> bool {
        bool::legal(m.crafting_book_open) && bool::legal(m.craftinb_filter_active) && bool::legal(m.smelting_book_open) && bool::legal(m.smelting_filter_active) && bool::legal(m.blasting_book_open) && bool::legal(m.blasting_filter_active) && bool::legal(m.smoking_book_open) && bool::legal(m.smoking_filter_active)
    }

    open spec fn spec_serialize(m: RecipeBookStatesModel) -> Seq<u8> {
        bool::spec_serialize(m.crafting_book_open) + bool::spec_serialize(m.craftinb_filter_active) + bool::spec_serialize(m.smelting_book_open) + bool::spec_serialize(m.smelting_filter_active) + bool::spec_serialize(m.blasting_book_open) + bool::spec_serialize(m.blasting_filter_active) + bool::spec_serialize(m.smoking_book_open) + bool::spec_serialize(m.smoking_filter_active)
    }

    open spec fn spec_deserialize(s: Seq<u8>) -> SpecResult<RecipeBookStatesModel> {
        match bool::spec_deserialize(s) {
            Err(e) => Err(e),
            Ok((crafting_book_open, r1)) => match bool::spec_deserialize(r1) {
                Err(e) => Err(e),
                Ok((craftinb_filter_active, r2)) => match bool::spec_deserialize(r2) {
                    Err(e) => Err(e),
                    Ok((smelting_book_open, r3)) => match bool::spec_deserialize(r3) {
                        Err(e) => Err(e),
                        Ok((smelting_filter_active, r4)) => match bool::spec_deserialize(r4) {
                            Err(e) => Err(e),
                            Ok((blasting_book_open, r5)) => match bool::spec_deserialize(r5) {
                                Err(e) => Err(e),
                                Ok((blasting_filter_active, r6)) => match bool::spec_deserialize(r6) {
                                    Err(e) => Err(e),
                                    Ok((smoking_book_open, r7)) => match bool::spec_deserialize(r7) {
                                        Err(e) => Err(e),
                                        Ok((smoking_filter_active, r8)) => Ok((RecipeBookStatesModel { crafting_book_open, craftinb_filter_active, smelting_book_open, smelting_filter_active, blasting_book_open, blasting_filter_active, smoking_book_open, smoking_filter_active }, r8)),
                                    },
                                },
                            },
                        },
                    },
                },
            },
        }
    }

    #[verifier::rlimit(100)]
    #[verifier::spinoff_prover]
    proof fn lemma_round_trip(m: RecipeBookStatesModel, rest: Seq<u8>) {
        let t7 = bool::spec_serialize(m.smoking_filter_active) + rest;
        let t6 = bool::spec_serialize(m.smoking_book_open) + t7;
        let t5 = bool::spec_serialize(m.blasting_filter_active) + t6;
        let t4 = bool::spec_serialize(m.blasting_book_open) + t5;
        let t3 = bool::spec_serialize(m.smelting_filter_active) + t4;
        let t2 = bool::spec_serialize(m.smelting_book_open) + t3;
        let t1 = bool::spec_serialize(m.craftinb_filter_active) + t2;
        let p1 = bool::spec_serialize(m.crafting_book_open);
        let p2 = p1 + bool::spec_serialize(m.craftinb_filter_active);
        let p3 = p2 + bool::spec_serialize(m.smelting_book_open);
        let p4 = p3 + bool::spec_serialize(m.smelting_filter_active);
        let p5 = p4 + bool::spec_serialize(m.blasting_book_open);
        let p6 = p5 + bool::spec_serialize(m.blasting_filter_active);
        let p7 = p6 + bool::spec_serialize(m.smoking_book_open);
        let p8 = p7 + bool::spec_serialize(m.smoking_filter_active);
        assert(Self::spec_serialize(m) == p8);
        lemma_concat_associative(p7, bool::spec_serialize(m.smoking_filter_active), rest);
        lemma_concat_associative(p6, bool::spec_serialize(m.smoking_book_open), t7);
        lemma_concat_associative(p5, bool::spec_serialize(m.blasting_filter_active), t6);
        lemma_concat_associative(p4, bool::spec_serialize(m.blasting_book_open), t5);
        lemma_concat_associative(p3, bool::spec_serialize(m.smelting_filter_active), t4);
        lemma_concat_associative(p2, bool::spec_serialize(m.smelting_book_open), t3);
        lemma_concat_associative(p1, bool::spec_serialize(m.craftinb_filter_active), t2);
        bool::lemma_round_trip(m.crafting_book_open, t1);
        assert(bool::spec_deserialize(Self::spec_serialize(m) + rest) == Ok::<(<bool as Codec>::Model, Seq<u8>), DeserializeErr>((m.crafting_book_open, t1)));
        bool::lemma_round_trip(m.craftinb_filter_active, t2);
        assert(bool::spec_deserialize(t1) == Ok::<(<bool as Codec>::Model, Seq<u8>), DeserializeErr>((m.craftinb_filter_active, t2)));
        bool::lemma_round_trip(m.smelting_book_open, t3);
        assert(bool::spec_deserialize(t2) == Ok::<(<bool as Codec>::Model, Seq<u8>), DeserializeErr>((m.smelting_book_open, t3)));
        bool::lemma_round_trip(m.smelting_filter_active, t4);
        assert(bool::spec_deserialize(t3) == Ok::<(<bool as Codec>::Model, Seq<u8>), DeserializeErr>((m.smelting_filter_active, t4)));
        bool::lemma_round_trip(m.blasting_book_open, t5);
        assert(bool::spec_deserialize(t4) == Ok::<(<bool as Codec>::Model, Seq<u8>), DeserializeErr>((m.blasting_book_open, t5)));
        bool::lemma_round_trip(m.blasting_filter_active, t6);
        assert(bool::spec_deserialize(t5) == Ok::<(<bool as Codec>::Model, Seq<u8>), DeserializeErr>((m.blasting_filter_active, t6)));
        bool::lemma_round_trip(m.smoking_book_open, t7);
        assert(bool::spec_deserialize(t6) == Ok::<(<bool as Codec>::Model, Seq<u8>), DeserializeErr>((m.smoking_book_open, t7)));
        bool::lemma_round_trip(m.smoking_filter_active, rest);
        assert(bool::spec_deserialize(t7) == Ok::<(<bool as Codec>::Model, Seq<u8>), DeserializeErr>((m.smoking_filter_active, rest)));
    }

    fn mc_serialize(&self, to: &mut Vec<u8>) {
        let ghost start = to@;
        self.crafting_book_open.mc_serialize(to);
        self.craftinb_filter_active.mc_serialize(to);
        proof {
            lemma_concat_associative(start, bool::spec_serialize(self.crafting_book_open.model()), bool::spec_serialize(self.craftinb_filter_active.model()));
        }
        self.smelting_book_open.mc_serialize(to);
        proof {
            lemma_concat_associative(start, bool::spec_serialize(self.crafting_book_open.model()) + bool::spec_serialize(self.craftinb_filter_active.model()), bool::spec_serialize(self.smelting_book_open.model()));
        }
        self.smelting_filter_active.mc_serialize(to);
        proof {
            lemma_concat_associative(start, bool::spec_serialize(self.crafting_book_open.model()) + bool::spec_serialize(self.craftinb_filter_active.model()) + bool::spec_serialize(self.smelting_book_open.model()), bool::spec_serialize(self.smelting_filter_active.model()));
        }
        self.blasting_book_open.mc_serialize(to);
        proof {
            lemma_concat_associative(start, bool::spec_serialize(self.crafting_book_open.model()) + bool::spec_serialize(self.craftinb_filter_active.model()) + bool::spec_serialize(self.smelting_book_open.model()) + bool::spec_serialize(self.smelting_filter_active.model()), bool::spec_serialize(self.blasting_book_open.model()));
        }
        self.blasting_filter_active.mc_serialize(to);
        proof {
            lemma_concat_associative(start, bool::spec_serialize(self.crafting_book_open.model()) + bool::spec_serialize(self.craftinb_filter_active.model()) + bool::spec_serialize(self.smelting_book_open.model()) + bool::spec_serialize(self.smelting_filter_active.model()) + bool::spec_serialize(self.blasting_book_open.model()), bool::spec_serialize(self.blasting_filter_active.model()));
        }
        self.smoking_book_open.mc_serialize(to);
        proof {
            lemma_concat_associative(start, bool::spec_serialize(self.crafting_book_open.model()) + bool::spec_serialize(self.craftinb_filter_active.model()) + bool::spec_serialize(self.smelting_book_open.model()) + bool::spec_serialize(self.smelting_filter_active.model()) + bool::spec_serialize(self.blasting_book_open.model()) + bool::spec_serialize(self.blasting_filter_active.model()), bool::spec_serialize(self.smoking_book_open.model()));
        }
        self.smoking_filter_active.mc_serialize(to);
        proof {
            lemma_concat_associative(start, bool::spec_serialize(self.crafting_book_open.model()) + bool::spec_serialize(self.craftinb_filter_active.model()) + bool::spec_serialize(self.smelting_book_open.model()) + bool::spec_serialize(self.smelting_filter_active.model()) + bool::spec_serialize(self.blasting_book_open.model()) + bool::spec_serialize(self.blasting_filter_active.model()) + bool::spec_serialize(self.smoking_book_open.model()), bool::spec_serialize(self.smoking_filter_active.model()));
        }
        assert(to@ =~= start + Self::spec_serialize(self.model()));
    }

    fn mc_deserialize(data: &[u8]) -> (r: Result<(Self, &[u8]), DeserializeErr>) {
        let (crafting_book_open, rest) = bool::mc_deserialize(data)?;
        let (craftinb_filter_active, rest) = bool::mc_deserialize(rest)?;
        let (smelting_book_open, rest) = bool::mc_deserialize(rest)?;
        let (smelting_filter_active, rest) = bool::mc_deserialize(rest)?;
        let (blasting_book_open, rest) = bool::mc_deserialize(rest)?;
        let (blasting_filter_active, rest) = bool::mc_deserialize(rest)?;
        let (smoking_book_open, rest) = bool::mc_deserialize(rest)?;
        let (smoking_filter_active, rest) = bool::mc_deserialize(rest)?;
        Ok((RecipeBookStates { crafting_book_open, craftinb_filter_active, smelting_book_open, smelting_filter_active, blasting_book_open, blasting_filter_active, smoking_book_open, smoking_filter_active }, rest))
    }
}

} // verus!
