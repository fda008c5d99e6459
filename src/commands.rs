//! The command graph: a flat sequence of nodes that refer to each other by
//! index. One flag byte per node packs its kind (bits 0-1), whether it is
//! executable (bit 2), whether a redirect index follows (bit 3) and, for
//! argument nodes, whether a suggestions provider follows (bit 4).
use vstd::prelude::*;
use vstd::pervasive::arbitrary;
use crate::codec::{Codec, DeserializeErr, SpecResult, read_matches};
use crate::varnum::{VarInt, spec_varint_serialize, spec_varint_deserialize};
use crate::containers::{
    VarIntCountedArray, spec_opt_bytes, spec_read_if, lemma_read_if_round_trip, write_opt, read_if,
};
use crate::primitives::{
    Float32, Float64, take_bytes, write_str, str_eq, lemma_tag_encodable, spec_string_serialize,
    spec_string_deserialize,
};

verus! {

/// Restrictions on an entity selector argument.
#[derive(Debug, Clone, Copy, PartialEq, Eq, Structural)]
pub struct EntityParserFlags {
    pub single_target: bool,
    pub players_only: bool,
}

impl Codec for EntityParserFlags {
    type Model = EntityParserFlags;

    open spec fn model(&self) -> EntityParserFlags {
        *self
    }

    open spec fn encodable(m: EntityParserFlags) -> bool {
        true
    }

    open spec fn legal(m: EntityParserFlags) -> bool {
        true
    }

    /// One byte with a bit per flag.
    open spec fn spec_serialize(m: EntityParserFlags) -> Seq<u8> {
        seq![((if m.single_target { 1u8 } else { 0u8 }) + (if m.players_only { 2u8 } else { 0u8 })) as u8]
    }

    /// Bits that name no flag are ignored.
    open spec fn spec_deserialize(s: Seq<u8>) -> SpecResult<EntityParserFlags> {
        if s.len() == 0 {
            Err(DeserializeErr::Eof)
        } else {
            Ok((EntityParserFlags { single_target: (s[0] / 1) % 2 == 1, players_only: (s[0] / 2) % 2 == 1 }, s.skip(1)))
        }
    }

    proof fn lemma_round_trip(m: EntityParserFlags, rest: Seq<u8>) {
        assert((Self::spec_serialize(m) + rest).skip(1) =~= rest);
    }

    fn mc_serialize(&self, to: &mut Vec<u8>) {
        to.push(((if self.single_target { 1u8 } else { 0u8 }) + (if self.players_only { 2u8 } else { 0u8 })) as u8);
    }

    fn mc_deserialize(data: &[u8]) -> (r: Result<(Self, &[u8]), DeserializeErr>) {
        let (b, rest) = take_bytes(data, 1)?;
        Ok((EntityParserFlags { single_target: (b[0] / 1) % 2 == 1, players_only: (b[0] / 2) % 2 == 1 }, rest))
    }
}

/// Options of a score holder argument.
#[derive(Debug, Clone, Copy, PartialEq, Eq, Structural)]
pub struct ScoreHolderFlags {
    pub multiple: bool,
}

impl Codec for ScoreHolderFlags {
    type Model = ScoreHolderFlags;

    open spec fn model(&self) -> ScoreHolderFlags {
        *self
    }

    open spec fn encodable(m: ScoreHolderFlags) -> bool {
        true
    }

    open spec fn legal(m: ScoreHolderFlags) -> bool {
        true
    }

    /// One byte with a bit per flag.
    open spec fn spec_serialize(m: ScoreHolderFlags) -> Seq<u8> {
        seq![((if m.multiple { 1u8 } else { 0u8 })) as u8]
    }

    /// Bits that name no flag are ignored.
    open spec fn spec_deserialize(s: Seq<u8>) -> SpecResult<ScoreHolderFlags> {
        if s.len() == 0 {
            Err(DeserializeErr::Eof)
        } else {
            Ok((ScoreHolderFlags { multiple: (s[0] / 1) % 2 == 1 }, s.skip(1)))
        }
    }

    proof fn lemma_round_trip(m: ScoreHolderFlags, rest: Seq<u8>) {
        assert((Self::spec_serialize(m) + rest).skip(1) =~= rest);
    }

    fn mc_serialize(&self, to: &mut Vec<u8>) {
        to.push(((if self.multiple { 1u8 } else { 0u8 })) as u8);
    }

    fn mc_deserialize(data: &[u8]) -> (r: Result<(Self, &[u8]), DeserializeErr>) {
        let (b, rest) = take_bytes(data, 1)?;
        Ok((ScoreHolderFlags { multiple: (b[0] / 1) % 2 == 1 }, rest))
    }
}

/// How much text a string argument takes.
#[derive(Debug, Clone, Copy, PartialEq, Eq, Structural)]
pub enum StringParserMode {
    SingleWord,
    QuotablePharse,
    GreedyPhrase,
}

impl StringParserMode {
    pub open spec fn spec_id(m: StringParserMode) -> i32 {
        match m {
            StringParserMode::SingleWord => 0,
            StringParserMode::QuotablePharse => 1,
            StringParserMode::GreedyPhrase => 2,
        }
    }

    pub open spec fn spec_of_id(id: i32) -> Option<StringParserMode> {
        match id {
            0 => Some(StringParserMode::SingleWord),
            1 => Some(StringParserMode::QuotablePharse),
            2 => Some(StringParserMode::GreedyPhrase),
            _ => None,
        }
    }

    /// The discriminant written for this variant.
    pub fn id(&self) -> (r: i32)
        ensures
            r == Self::spec_id(*self),
    {
        match self {
            StringParserMode::SingleWord => 0,
            StringParserMode::QuotablePharse => 1,
            StringParserMode::GreedyPhrase => 2,
        }
    }
}

impl Codec for StringParserMode {
    type Model = StringParserMode;

    open spec fn model(&self) -> StringParserMode {
        *self
    }

    open spec fn encodable(m: StringParserMode) -> bool {
        true
    }

    open spec fn legal(m: StringParserMode) -> bool {
        true
    }

    open spec fn spec_serialize(m: StringParserMode) -> Seq<u8> {
        spec_varint_serialize(Self::spec_id(m))
    }

    /// A discriminant that names no variant is an error carrying it.
    open spec fn spec_deserialize(s: Seq<u8>) -> SpecResult<StringParserMode> {
        match spec_varint_deserialize(s) {
            Err(e) => Err(e),
            Ok((id, rest)) => match Self::spec_of_id(id) {
                Some(v) => Ok((v, rest)),
                None => Err(DeserializeErr::UnknownTag(id as i64)),
            },
        }
    }

    proof fn lemma_round_trip(m: StringParserMode, rest: Seq<u8>) {
        VarInt::lemma_round_trip(Self::spec_id(m), rest);
    }

    fn mc_serialize(&self, to: &mut Vec<u8>) {
        VarInt(self.id()).mc_serialize(to);
    }

    fn mc_deserialize(data: &[u8]) -> (r: Result<(Self, &[u8]), DeserializeErr>) {
        let (id, rest) = VarInt::mc_deserialize(data)?;
        let id = id.0;
        match id {
            0 => Ok((StringParserMode::SingleWord, rest)),
            1 => Ok((StringParserMode::QuotablePharse, rest)),
            2 => Ok((StringParserMode::GreedyPhrase, rest)),
            _ => Err(DeserializeErr::UnknownTag(id as i64)),
        }
    }
}

/// Optional bounds of a numeric argument. One byte says which are present
/// (bit 0 the minimum, bit 1 the maximum); they follow in that order.
#[derive(Debug, Clone, Copy, PartialEq, Eq)]
pub struct NumParserProps<T> {
    pub min: Option<T>,
    pub max: Option<T>,
}

pub type DoubleParserProps = NumParserProps<Float64>;

pub type FloatParserProps = NumParserProps<Float32>;

pub type IntegerParserProps = NumParserProps<i32>;

pub open spec fn presence_byte(a: bool, b: bool) -> u8 {
    ((if a { 1u8 } else { 0u8 }) + (if b { 2u8 } else { 0u8 })) as u8
}

impl<T: Codec> Codec for NumParserProps<T> {
    type Model = NumParserProps<T::Model>;

    open spec fn model(&self) -> NumParserProps<T::Model> {
        NumParserProps { min: self.min.model(), max: self.max.model() }
    }

    open spec fn encodable(m: NumParserProps<T::Model>) -> bool {
        Option::<T>::encodable(m.min) && Option::<T>::encodable(m.max)
    }

    open spec fn legal(m: NumParserProps<T::Model>) -> bool {
        Option::<T>::legal(m.min) && Option::<T>::legal(m.max)
    }

    open spec fn spec_serialize(m: NumParserProps<T::Model>) -> Seq<u8> {
        seq![presence_byte(m.min is Some, m.max is Some)] + spec_opt_bytes::<T>(m.min)
            + spec_opt_bytes::<T>(m.max)
    }

    open spec fn spec_deserialize(s: Seq<u8>) -> SpecResult<NumParserProps<T::Model>> {
        match u8::spec_deserialize(s) {
            Err(e) => Err(e),
            Ok((f, r)) => match spec_read_if::<T>(f % 2 == 1, r) {
                Err(e) => Err(e),
                Ok((min, r2)) => match spec_read_if::<T>((f / 2) % 2 == 1, r2) {
                    Err(e) => Err(e),
                    Ok((max, r3)) => Ok((NumParserProps { min, max }, r3)),
                },
            },
        }
    }

    proof fn lemma_round_trip(m: NumParserProps<T::Model>, rest: Seq<u8>) {
        let f = presence_byte(m.min is Some, m.max is Some);
        let tail = spec_opt_bytes::<T>(m.max) + rest;
        let body = spec_opt_bytes::<T>(m.min) + tail;
        assert(Self::spec_serialize(m) + rest =~= seq![f] + body);
        u8::lemma_round_trip(f, body);
        lemma_read_if_round_trip::<T>(m.min, tail);
        lemma_read_if_round_trip::<T>(m.max, rest);
    }

    fn mc_serialize(&self, to: &mut Vec<u8>) {
        let ghost start = to@;
        let f: u8 = (if self.min.is_some() { 1u8 } else { 0u8 }) + (if self.max.is_some() {
            2u8
        } else {
            0u8
        });
        to.push(f);
        write_opt(&self.min, to);
        write_opt(&self.max, to);
        assert(to@ =~= start + Self::spec_serialize(self.model()));
    }

    fn mc_deserialize(data: &[u8]) -> (r: Result<(Self, &[u8]), DeserializeErr>) {
        let (f, rest) = u8::mc_deserialize(data)?;
        let (min, rest) = read_if::<T>(f % 2 == 1, rest)?;
        let (max, rest) = read_if::<T>((f / 2) % 2 == 1, rest)?;
        Ok((NumParserProps { min, max }, rest))
    }
}

/// Whether a range argument accepts decimals.
#[derive(Debug, Clone, Copy, PartialEq, Eq, Structural)]
pub struct RangeParserProps {
    pub decimal: bool,
}

impl Codec for RangeParserProps {
    type Model = RangeParserProps;

    open spec fn model(&self) -> RangeParserProps {
        *self
    }

    open spec fn encodable(m: RangeParserProps) -> bool {
        true
    }

    open spec fn legal(m: RangeParserProps) -> bool {
        true
    }

    open spec fn spec_serialize(m: RangeParserProps) -> Seq<u8> {
        bool::spec_serialize(m.decimal)
    }

    open spec fn spec_deserialize(s: Seq<u8>) -> SpecResult<RangeParserProps> {
        match bool::spec_deserialize(s) {
            Err(e) => Err(e),
            Ok((decimal, r)) => Ok((RangeParserProps { decimal }, r)),
        }
    }

    proof fn lemma_round_trip(m: RangeParserProps, rest: Seq<u8>) {
        bool::lemma_round_trip(m.decimal, rest);
    }

    fn mc_serialize(&self, to: &mut Vec<u8>) {
        self.decimal.mc_serialize(to);
    }

    fn mc_deserialize(data: &[u8]) -> (r: Result<(Self, &[u8]), DeserializeErr>) {
        let (decimal, rest) = bool::mc_deserialize(data)?;
        Ok((RangeParserProps { decimal }, rest))
    }
}

/// How an argument node parses its text, named by a string tag; a few carry parameters.
#[derive(Debug, Clone, Copy, PartialEq, Eq)]
pub enum CommandParserSpec {
    Bool,
    Double(NumParserProps<Float64>),
    Float(NumParserProps<Float32>),
    Integer(NumParserProps<i32>),
    StringParser(StringParserMode),
    Entity(EntityParserFlags),
    GameProfile,
    BlockPosition,
    ColumnPosition,
    Vec3,
    Vec2,
    BlockState,
    BlockPredicate,
    ItemStack,
    ItemPredicate,
    Color,
    Component,
    Message,
    Nbt,
    NbtPath,
    Objective,
    ObjectiveCriteria,
    Operation,
    Particle,
    Rotation,
    ScoreboardSlot,
    ScoreHolder(ScoreHolderFlags),
    Swizzle,
    Team,
    ItemSlot,
    ResourceLocation,
    MobEffect,
    Function,
    EntityAnchor,
    Range(RangeParserProps),
    IntRange,
    FloatRange,
    ItemEnchantment,
    EntitySummon,
    Dimension,
    UUID,
    NbtTag,
    NbtCompoundTag,
    Time,
}

impl CommandParserSpec {
    /// The string that names each variant on the wire.
    pub open spec fn spec_tag(m: CommandParserSpec) -> Seq<char> {
        match m {
            CommandParserSpec::Bool => "brigadier:bool"@,
            CommandParserSpec::Double(_) => "brigadier:double"@,
            CommandParserSpec::Float(_) => "brigadier:float"@,
            CommandParserSpec::Integer(_) => "brigadier:integer"@,
            CommandParserSpec::StringParser(_) => "brigadier:string"@,
            CommandParserSpec::Entity(_) => "minecraft:entity"@,
            CommandParserSpec::GameProfile => "minecraft:game_profile"@,
            CommandParserSpec::BlockPosition => "minecraft:block_pos"@,
            CommandParserSpec::ColumnPosition => "minecraft:column_pos"@,
            CommandParserSpec::Vec3 => "minecraft:vec3"@,
            CommandParserSpec::Vec2 => "minecraft:vec2"@,
            CommandParserSpec::BlockState => "minecraft:block_state"@,
            CommandParserSpec::BlockPredicate => "minecraft:block_predicate"@,
            CommandParserSpec::ItemStack => "minecraft:item_stack"@,
            CommandParserSpec::ItemPredicate => "minecraft:item_predicate"@,
            CommandParserSpec::Color => "minecraft:color"@,
            CommandParserSpec::Component => "minecraft:component"@,
            CommandParserSpec::Message => "minecraft:message"@,
            CommandParserSpec::Nbt => "minecraft:nbt"@,
            CommandParserSpec::NbtPath => "minecraft:nbt_path"@,
            CommandParserSpec::Objective => "minecraft:objective"@,
            CommandParserSpec::ObjectiveCriteria => "minecraft:objective_criteria"@,
            CommandParserSpec::Operation => "minecraft:operation"@,
            CommandParserSpec::Particle => "minecraft:particle"@,
            CommandParserSpec::Rotation => "minecraft:rotation"@,
            CommandParserSpec::ScoreboardSlot => "minecraft:scoreboard_slot"@,
            CommandParserSpec::ScoreHolder(_) => "minecraft:score_holder"@,
            CommandParserSpec::Swizzle => "minecraft:swizzle"@,
            CommandParserSpec::Team => "minecraft:team"@,
            CommandParserSpec::ItemSlot => "minecraft:item_slot"@,
            CommandParserSpec::ResourceLocation => "minecraft:resource_location"@,
            CommandParserSpec::MobEffect => "minecraft:mob_effect"@,
            CommandParserSpec::Function => "minecraft:function"@,
            CommandParserSpec::EntityAnchor => "minecraft:entity_anchor"@,
            CommandParserSpec::Range(_) => "minecraft:range"@,
            CommandParserSpec::IntRange => "minecraft:int_range"@,
            CommandParserSpec::FloatRange => "minecraft:float_range"@,
            CommandParserSpec::ItemEnchantment => "minecraft:item_enchantment"@,
            CommandParserSpec::EntitySummon => "minecraft:entity_summon"@,
            CommandParserSpec::Dimension => "minecraft:dimension"@,
            CommandParserSpec::UUID => "minecraft:uuid"@,
            CommandParserSpec::NbtTag => "minecraft:nbt_tag"@,
            CommandParserSpec::NbtCompoundTag => "minecraft:nbt_compound_tag"@,
            CommandParserSpec::Time => "minecraft:time"@,
        }
    }

    /// Reads the payload of `m`'s variant from `r`.
    pub open spec fn spec_payload(m: CommandParserSpec, r: Seq<u8>) -> SpecResult<CommandParserSpec> {
        match m {
            CommandParserSpec::Bool => Ok((CommandParserSpec::Bool, r)),
            CommandParserSpec::Double(_) => match NumParserProps::<Float64>::spec_deserialize(r) {
                Ok((p, r2)) => Ok((CommandParserSpec::Double(p), r2)),
                Err(e) => Err(e),
            },
            CommandParserSpec::Float(_) => match NumParserProps::<Float32>::spec_deserialize(r) {
                Ok((p, r2)) => Ok((CommandParserSpec::Float(p), r2)),
                Err(e) => Err(e),
            },
            CommandParserSpec::Integer(_) => match NumParserProps::<i32>::spec_deserialize(r) {
                Ok((p, r2)) => Ok((CommandParserSpec::Integer(p), r2)),
                Err(e) => Err(e),
            },
            CommandParserSpec::StringParser(_) => match StringParserMode::spec_deserialize(r) {
                Ok((p, r2)) => Ok((CommandParserSpec::StringParser(p), r2)),
                Err(e) => Err(e),
            },
            CommandParserSpec::Entity(_) => match EntityParserFlags::spec_deserialize(r) {
                Ok((p, r2)) => Ok((CommandParserSpec::Entity(p), r2)),
                Err(e) => Err(e),
            },
            CommandParserSpec::GameProfile => Ok((CommandParserSpec::GameProfile, r)),
            CommandParserSpec::BlockPosition => Ok((CommandParserSpec::BlockPosition, r)),
            CommandParserSpec::ColumnPosition => Ok((CommandParserSpec::ColumnPosition, r)),
            CommandParserSpec::Vec3 => Ok((CommandParserSpec::Vec3, r)),
            CommandParserSpec::Vec2 => Ok((CommandParserSpec::Vec2, r)),
            CommandParserSpec::BlockState => Ok((CommandParserSpec::BlockState, r)),
            CommandParserSpec::BlockPredicate => Ok((CommandParserSpec::BlockPredicate, r)),
            CommandParserSpec::ItemStack => Ok((CommandParserSpec::ItemStack, r)),
            CommandParserSpec::ItemPredicate => Ok((CommandParserSpec::ItemPredicate, r)),
            CommandParserSpec::Color => Ok((CommandParserSpec::Color, r)),
            CommandParserSpec::Component => Ok((CommandParserSpec::Component, r)),
            CommandParserSpec::Message => Ok((CommandParserSpec::Message, r)),
            CommandParserSpec::Nbt => Ok((CommandParserSpec::Nbt, r)),
            CommandParserSpec::NbtPath => Ok((CommandParserSpec::NbtPath, r)),
            CommandParserSpec::Objective => Ok((CommandParserSpec::Objective, r)),
            CommandParserSpec::ObjectiveCriteria => Ok((CommandParserSpec::ObjectiveCriteria, r)),
            CommandParserSpec::Operation => Ok((CommandParserSpec::Operation, r)),
            CommandParserSpec::Particle => Ok((CommandParserSpec::Particle, r)),
            CommandParserSpec::Rotation => Ok((CommandParserSpec::Rotation, r)),
            CommandParserSpec::ScoreboardSlot => Ok((CommandParserSpec::ScoreboardSlot, r)),
            CommandParserSpec::ScoreHolder(_) => match ScoreHolderFlags::spec_deserialize(r) {
                Ok((p, r2)) => Ok((CommandParserSpec::ScoreHolder(p), r2)),
                Err(e) => Err(e),
            },
            CommandParserSpec::Swizzle => Ok((CommandParserSpec::Swizzle, r)),
            CommandParserSpec::Team => Ok((CommandParserSpec::Team, r)),
            CommandParserSpec::ItemSlot => Ok((CommandParserSpec::ItemSlot, r)),
            CommandParserSpec::ResourceLocation => Ok((CommandParserSpec::ResourceLocation, r)),
            CommandParserSpec::MobEffect => Ok((CommandParserSpec::MobEffect, r)),
            CommandParserSpec::Function => Ok((CommandParserSpec::Function, r)),
            CommandParserSpec::EntityAnchor => Ok((CommandParserSpec::EntityAnchor, r)),
            CommandParserSpec::Range(_) => match RangeParserProps::spec_deserialize(r) {
                Ok((p, r2)) => Ok((CommandParserSpec::Range(p), r2)),
                Err(e) => Err(e),
            },
            CommandParserSpec::IntRange => Ok((CommandParserSpec::IntRange, r)),
            CommandParserSpec::FloatRange => Ok((CommandParserSpec::FloatRange, r)),
            CommandParserSpec::ItemEnchantment => Ok((CommandParserSpec::ItemEnchantment, r)),
            CommandParserSpec::EntitySummon => Ok((CommandParserSpec::EntitySummon, r)),
            CommandParserSpec::Dimension => Ok((CommandParserSpec::Dimension, r)),
            CommandParserSpec::UUID => Ok((CommandParserSpec::UUID, r)),
            CommandParserSpec::NbtTag => Ok((CommandParserSpec::NbtTag, r)),
            CommandParserSpec::NbtCompoundTag => Ok((CommandParserSpec::NbtCompoundTag, r)),
            CommandParserSpec::Time => Ok((CommandParserSpec::Time, r)),
        }
    }

    /// The variant that a tag names, with its payload read from `r`; a tag
    /// that names no variant is an error.
    #[verifier::opaque]
    pub open spec fn spec_from_tag(t: Seq<char>, r: Seq<u8>) -> SpecResult<CommandParserSpec> {
        if t == "brigadier:bool"@ {
            Self::spec_payload(CommandParserSpec::Bool, r)
        } else if t == "brigadier:double"@ {
            Self::spec_payload(CommandParserSpec::Double(arbitrary()), r)
        } else if t == "brigadier:float"@ {
            Self::spec_payload(CommandParserSpec::Float(arbitrary()), r)
        } else if t == "brigadier:integer"@ {
            Self::spec_payload(CommandParserSpec::Integer(arbitrary()), r)
        } else if t == "brigadier:string"@ {
            Self::spec_payload(CommandParserSpec::StringParser(arbitrary()), r)
        } else if t == "minecraft:entity"@ {
            Self::spec_payload(CommandParserSpec::Entity(arbitrary()), r)
        } else if t == "minecraft:game_profile"@ {
            Self::spec_payload(CommandParserSpec::GameProfile, r)
        } else if t == "minecraft:block_pos"@ {
            Self::spec_payload(CommandParserSpec::BlockPosition, r)
        } else if t == "minecraft:column_pos"@ {
            Self::spec_payload(CommandParserSpec::ColumnPosition, r)
        } else if t == "minecraft:vec3"@ {
            Self::spec_payload(CommandParserSpec::Vec3, r)
        } else if t == "minecraft:vec2"@ {
            Self::spec_payload(CommandParserSpec::Vec2, r)
        } else if t == "minecraft:block_state"@ {
            Self::spec_payload(CommandParserSpec::BlockState, r)
        } else if t == "minecraft:block_predicate"@ {
            Self::spec_payload(CommandParserSpec::BlockPredicate, r)
        } else if t == "minecraft:item_stack"@ {
            Self::spec_payload(CommandParserSpec::ItemStack, r)
        } else if t == "minecraft:item_predicate"@ {
            Self::spec_payload(CommandParserSpec::ItemPredicate, r)
        } else if t == "minecraft:color"@ {
            Self::spec_payload(CommandParserSpec::Color, r)
        } else if t == "minecraft:component"@ {
            Self::spec_payload(CommandParserSpec::Component, r)
        } else if t == "minecraft:message"@ {
            Self::spec_payload(CommandParserSpec::Message, r)
        } else if t == "minecraft:nbt"@ {
            Self::spec_payload(CommandParserSpec::Nbt, r)
        } else if t == "minecraft:nbt_path"@ {
            Self::spec_payload(CommandParserSpec::NbtPath, r)
        } else if t == "minecraft:objective"@ {
            Self::spec_payload(CommandParserSpec::Objective, r)
        } else if t == "minecraft:objective_criteria"@ {
            Self::spec_payload(CommandParserSpec::ObjectiveCriteria, r)
        } else if t == "minecraft:operation"@ {
            Self::spec_payload(CommandParserSpec::Operation, r)
        } else if t == "minecraft:particle"@ {
            Self::spec_payload(CommandParserSpec::Particle, r)
        } else if t == "minecraft:rotation"@ {
            Self::spec_payload(CommandParserSpec::Rotation, r)
        } else if t == "minecraft:scoreboard_slot"@ {
            Self::spec_payload(CommandParserSpec::ScoreboardSlot, r)
        } else if t == "minecraft:score_holder"@ {
            Self::spec_payload(CommandParserSpec::ScoreHolder(arbitrary()), r)
        } else if t == "minecraft:swizzle"@ {
            Self::spec_payload(CommandParserSpec::Swizzle, r)
        } else if t == "minecraft:team"@ {
            Self::spec_payload(CommandParserSpec::Team, r)
        } else if t == "minecraft:item_slot"@ {
            Self::spec_payload(CommandParserSpec::ItemSlot, r)
        } else if t == "minecraft:resource_location"@ {
            Self::spec_payload(CommandParserSpec::ResourceLocation, r)
        } else if t == "minecraft:mob_effect"@ {
            Self::spec_payload(CommandParserSpec::MobEffect, r)
        } else if t == "minecraft:function"@ {
            Self::spec_payload(CommandParserSpec::Function, r)
        } else if t == "minecraft:entity_anchor"@ {
            Self::spec_payload(CommandParserSpec::EntityAnchor, r)
        } else if t == "minecraft:range"@ {
            Self::spec_payload(CommandParserSpec::Range(arbitrary()), r)
        } else if t == "minecraft:int_range"@ {
            Self::spec_payload(CommandParserSpec::IntRange, r)
        } else if t == "minecraft:float_range"@ {
            Self::spec_payload(CommandParserSpec::FloatRange, r)
        } else if t == "minecraft:item_enchantment"@ {
            Self::spec_payload(CommandParserSpec::ItemEnchantment, r)
        } else if t == "minecraft:entity_summon"@ {
            Self::spec_payload(CommandParserSpec::EntitySummon, r)
        } else if t == "minecraft:dimension"@ {
            Self::spec_payload(CommandParserSpec::Dimension, r)
        } else if t == "minecraft:uuid"@ {
            Self::spec_payload(CommandParserSpec::UUID, r)
        } else if t == "minecraft:nbt_tag"@ {
            Self::spec_payload(CommandParserSpec::NbtTag, r)
        } else if t == "minecraft:nbt_compound_tag"@ {
            Self::spec_payload(CommandParserSpec::NbtCompoundTag, r)
        } else if t == "minecraft:time"@ {
            Self::spec_payload(CommandParserSpec::Time, r)
        } else {
            Err(DeserializeErr::UnknownStringTag)
        }
    }

    pub open spec fn spec_payload_bytes(m: CommandParserSpec) -> Seq<u8> {
        match m {
            CommandParserSpec::Double(p) => NumParserProps::<Float64>::spec_serialize(p),
            CommandParserSpec::Float(p) => NumParserProps::<Float32>::spec_serialize(p),
            CommandParserSpec::Integer(p) => NumParserProps::<i32>::spec_serialize(p),
            CommandParserSpec::StringParser(p) => StringParserMode::spec_serialize(p),
            CommandParserSpec::Entity(p) => EntityParserFlags::spec_serialize(p),
            CommandParserSpec::ScoreHolder(p) => ScoreHolderFlags::spec_serialize(p),
            CommandParserSpec::Range(p) => RangeParserProps::spec_serialize(p),
            _ => Seq::empty(),
        }
    }

    /// The string that names this variant.
    pub fn id(&self) -> (r: &'static str)
        ensures
            r@ == Self::spec_tag(self.model()),
    {
        match self {
            CommandParserSpec::Bool => "brigadier:bool",
            CommandParserSpec::Double(_) => "brigadier:double",
            CommandParserSpec::Float(_) => "brigadier:float",
            CommandParserSpec::Integer(_) => "brigadier:integer",
            CommandParserSpec::StringParser(_) => "brigadier:string",
            CommandParserSpec::Entity(_) => "minecraft:entity",
            CommandParserSpec::GameProfile => "minecraft:game_profile",
            CommandParserSpec::BlockPosition => "minecraft:block_pos",
            CommandParserSpec::ColumnPosition => "minecraft:column_pos",
            CommandParserSpec::Vec3 => "minecraft:vec3",
            CommandParserSpec::Vec2 => "minecraft:vec2",
            CommandParserSpec::BlockState => "minecraft:block_state",
            CommandParserSpec::BlockPredicate => "minecraft:block_predicate",
            CommandParserSpec::ItemStack => "minecraft:item_stack",
            CommandParserSpec::ItemPredicate => "minecraft:item_predicate",
            CommandParserSpec::Color => "minecraft:color",
            CommandParserSpec::Component => "minecraft:component",
            CommandParserSpec::Message => "minecraft:message",
            CommandParserSpec::Nbt => "minecraft:nbt",
            CommandParserSpec::NbtPath => "minecraft:nbt_path",
            CommandParserSpec::Objective => "minecraft:objective",
            CommandParserSpec::ObjectiveCriteria => "minecraft:objective_criteria",
            CommandParserSpec::Operation => "minecraft:operation",
            CommandParserSpec::Particle => "minecraft:particle",
            CommandParserSpec::Rotation => "minecraft:rotation",
            CommandParserSpec::ScoreboardSlot => "minecraft:scoreboard_slot",
            CommandParserSpec::ScoreHolder(_) => "minecraft:score_holder",
            CommandParserSpec::Swizzle => "minecraft:swizzle",
            CommandParserSpec::Team => "minecraft:team",
            CommandParserSpec::ItemSlot => "minecraft:item_slot",
            CommandParserSpec::ResourceLocation => "minecraft:resource_location",
            CommandParserSpec::MobEffect => "minecraft:mob_effect",
            CommandParserSpec::Function => "minecraft:function",
            CommandParserSpec::EntityAnchor => "minecraft:entity_anchor",
            CommandParserSpec::Range(_) => "minecraft:range",
            CommandParserSpec::IntRange => "minecraft:int_range",
            CommandParserSpec::FloatRange => "minecraft:float_range",
            CommandParserSpec::ItemEnchantment => "minecraft:item_enchantment",
            CommandParserSpec::EntitySummon => "minecraft:entity_summon",
            CommandParserSpec::Dimension => "minecraft:dimension",
            CommandParserSpec::UUID => "minecraft:uuid",
            CommandParserSpec::NbtTag => "minecraft:nbt_tag",
            CommandParserSpec::NbtCompoundTag => "minecraft:nbt_compound_tag",
            CommandParserSpec::Time => "minecraft:time",
        }
    }

    /// Writes the payload alone.
    pub fn serialize_body(&self, to: &mut Vec<u8>)
        requires
            Self::encodable(self.model()),
        ensures
            final(to)@ == old(to)@ + Self::spec_payload_bytes(self.model()),
    {
        match self {
            CommandParserSpec::Double(p) => p.mc_serialize(to),
            CommandParserSpec::Float(p) => p.mc_serialize(to),
            CommandParserSpec::Integer(p) => p.mc_serialize(to),
            CommandParserSpec::StringParser(p) => p.mc_serialize(to),
            CommandParserSpec::Entity(p) => p.mc_serialize(to),
            CommandParserSpec::ScoreHolder(p) => p.mc_serialize(to),
            CommandParserSpec::Range(p) => p.mc_serialize(to),
            _ => {},
        }
    }

    /// Reads the payload of the variant that `t` names.
    pub fn deserialize_with_id<'a>(t: &str, data: &'a [u8]) -> (r: Result<(Self, &'a [u8]), DeserializeErr>)
        ensures
            read_matches(r, |v: Self| v.model(), Self::spec_from_tag(t@, data@)),
    {
        reveal(CommandParserSpec::spec_from_tag);
        if str_eq(t, "brigadier:bool") {
            Ok((CommandParserSpec::Bool, data))
        } else if str_eq(t, "brigadier:double") {
            let (p, rest) = NumParserProps::<Float64>::mc_deserialize(data)?;
            Ok((CommandParserSpec::Double(p), rest))
        } else if str_eq(t, "brigadier:float") {
            let (p, rest) = NumParserProps::<Float32>::mc_deserialize(data)?;
            Ok((CommandParserSpec::Float(p), rest))
        } else if str_eq(t, "brigadier:integer") {
            let (p, rest) = NumParserProps::<i32>::mc_deserialize(data)?;
            Ok((CommandParserSpec::Integer(p), rest))
        } else if str_eq(t, "brigadier:string") {
            let (p, rest) = StringParserMode::mc_deserialize(data)?;
            Ok((CommandParserSpec::StringParser(p), rest))
        } else if str_eq(t, "minecraft:entity") {
            let (p, rest) = EntityParserFlags::mc_deserialize(data)?;
            Ok((CommandParserSpec::Entity(p), rest))
        } else if str_eq(t, "minecraft:game_profile") {
            Ok((CommandParserSpec::GameProfile, data))
        } else if str_eq(t, "minecraft:block_pos") {
            Ok((CommandParserSpec::BlockPosition, data))
        } else if str_eq(t, "minecraft:column_pos") {
            Ok((CommandParserSpec::ColumnPosition, data))
        } else if str_eq(t, "minecraft:vec3") {
            Ok((CommandParserSpec::Vec3, data))
        } else if str_eq(t, "minecraft:vec2") {
            Ok((CommandParserSpec::Vec2, data))
        } else if str_eq(t, "minecraft:block_state") {
            Ok((CommandParserSpec::BlockState, data))
        } else if str_eq(t, "minecraft:block_predicate") {
            Ok((CommandParserSpec::BlockPredicate, data))
        } else if str_eq(t, "minecraft:item_stack") {
            Ok((CommandParserSpec::ItemStack, data))
        } else if str_eq(t, "minecraft:item_predicate") {
            Ok((CommandParserSpec::ItemPredicate, data))
        } else if str_eq(t, "minecraft:color") {
            Ok((CommandParserSpec::Color, data))
        } else if str_eq(t, "minecraft:component") {
            Ok((CommandParserSpec::Component, data))
        } else if str_eq(t, "minecraft:message") {
            Ok((CommandParserSpec::Message, data))
        } else if str_eq(t, "minecraft:nbt") {
            Ok((CommandParserSpec::Nbt, data))
        } else if str_eq(t, "minecraft:nbt_path") {
            Ok((CommandParserSpec::NbtPath, data))
        } else if str_eq(t, "minecraft:objective") {
            Ok((CommandParserSpec::Objective, data))
        } else if str_eq(t, "minecraft:objective_criteria") {
            Ok((CommandParserSpec::ObjectiveCriteria, data))
        } else if str_eq(t, "minecraft:operation") {
            Ok((CommandParserSpec::Operation, data))
        } else if str_eq(t, "minecraft:particle") {
            Ok((CommandParserSpec::Particle, data))
        } else if str_eq(t, "minecraft:rotation") {
            Ok((CommandParserSpec::Rotation, data))
        } else if str_eq(t, "minecraft:scoreboard_slot") {
            Ok((CommandParserSpec::ScoreboardSlot, data))
        } else if str_eq(t, "minecraft:score_holder") {
            let (p, rest) = ScoreHolderFlags::mc_deserialize(data)?;
            Ok((CommandParserSpec::ScoreHolder(p), rest))
        } else if str_eq(t, "minecraft:swizzle") {
            Ok((CommandParserSpec::Swizzle, data))
        } else if str_eq(t, "minecraft:team") {
            Ok((CommandParserSpec::Team, data))
        } else if str_eq(t, "minecraft:item_slot") {
            Ok((CommandParserSpec::ItemSlot, data))
        } else if str_eq(t, "minecraft:resource_location") {
            Ok((CommandParserSpec::ResourceLocation, data))
        } else if str_eq(t, "minecraft:mob_effect") {
            Ok((CommandParserSpec::MobEffect, data))
        } else if str_eq(t, "minecraft:function") {
            Ok((CommandParserSpec::Function, data))
        } else if str_eq(t, "minecraft:entity_anchor") {
            Ok((CommandParserSpec::EntityAnchor, data))
        } else if str_eq(t, "minecraft:range") {
            let (p, rest) = RangeParserProps::mc_deserialize(data)?;
            Ok((CommandParserSpec::Range(p), rest))
        } else if str_eq(t, "minecraft:int_range") {
            Ok((CommandParserSpec::IntRange, data))
        } else if str_eq(t, "minecraft:float_range") {
            Ok((CommandParserSpec::FloatRange, data))
        } else if str_eq(t, "minecraft:item_enchantment") {
            Ok((CommandParserSpec::ItemEnchantment, data))
        } else if str_eq(t, "minecraft:entity_summon") {
            Ok((CommandParserSpec::EntitySummon, data))
        } else if str_eq(t, "minecraft:dimension") {
            Ok((CommandParserSpec::Dimension, data))
        } else if str_eq(t, "minecraft:uuid") {
            Ok((CommandParserSpec::UUID, data))
        } else if str_eq(t, "minecraft:nbt_tag") {
            Ok((CommandParserSpec::NbtTag, data))
        } else if str_eq(t, "minecraft:nbt_compound_tag") {
            Ok((CommandParserSpec::NbtCompoundTag, data))
        } else if str_eq(t, "minecraft:time") {
            Ok((CommandParserSpec::Time, data))
        } else {
            Err(DeserializeErr::UnknownStringTag)
        }
    }
}

/// No two variants share a tag, so a tag leads back to its own variant.
proof fn lemma_parser_tags(m: CommandParserSpec, r: Seq<u8>)
    ensures
        CommandParserSpec::spec_from_tag(CommandParserSpec::spec_tag(m), r) == CommandParserSpec::spec_payload(m, r),
        CommandParserSpec::spec_tag(m).len() <= 64,
{
    reveal(CommandParserSpec::spec_from_tag);
    reveal_strlit("brigadier:bool");
    reveal_strlit("brigadier:double");
    reveal_strlit("brigadier:float");
    reveal_strlit("brigadier:integer");
    reveal_strlit("brigadier:string");
    reveal_strlit("minecraft:entity");
    reveal_strlit("minecraft:game_profile");
    reveal_strlit("minecraft:block_pos");
    reveal_strlit("minecraft:column_pos");
    reveal_strlit("minecraft:vec3");
    reveal_strlit("minecraft:vec2");
    reveal_strlit("minecraft:block_state");
    reveal_strlit("minecraft:block_predicate");
    reveal_strlit("minecraft:item_stack");
    reveal_strlit("minecraft:item_predicate");
    reveal_strlit("minecraft:color");
    reveal_strlit("minecraft:component");
    reveal_strlit("minecraft:message");
    reveal_strlit("minecraft:nbt");
    reveal_strlit("minecraft:nbt_path");
    reveal_strlit("minecraft:objective");
    reveal_strlit("minecraft:objective_criteria");
    reveal_strlit("minecraft:operation");
    reveal_strlit("minecraft:particle");
    reveal_strlit("minecraft:rotation");
    reveal_strlit("minecraft:scoreboard_slot");
    reveal_strlit("minecraft:score_holder");
    reveal_strlit("minecraft:swizzle");
    reveal_strlit("minecraft:team");
    reveal_strlit("minecraft:item_slot");
    reveal_strlit("minecraft:resource_location");
    reveal_strlit("minecraft:mob_effect");
    reveal_strlit("minecraft:function");
    reveal_strlit("minecraft:entity_anchor");
    reveal_strlit("minecraft:range");
    reveal_strlit("minecraft:int_range");
    reveal_strlit("minecraft:float_range");
    reveal_strlit("minecraft:item_enchantment");
    reveal_strlit("minecraft:entity_summon");
    reveal_strlit("minecraft:dimension");
    reveal_strlit("minecraft:uuid");
    reveal_strlit("minecraft:nbt_tag");
    reveal_strlit("minecraft:nbt_compound_tag");
    reveal_strlit("minecraft:time");
    assert("brigadier:bool"@.len() == 14);
    assert("brigadier:double"@.len() == 16);
    assert("brigadier:float"@.len() == 15);
    assert("brigadier:integer"@.len() == 17);
    assert("brigadier:string"@.len() == 16);
    assert("minecraft:entity"@.len() == 16);
    assert("minecraft:game_profile"@.len() == 22);
    assert("minecraft:block_pos"@.len() == 19);
    assert("minecraft:column_pos"@.len() == 20);
    assert("minecraft:vec3"@.len() == 14);
    assert("minecraft:vec2"@.len() == 14);
    assert("minecraft:block_state"@.len() == 21);
    assert("minecraft:block_predicate"@.len() == 25);
    assert("minecraft:item_stack"@.len() == 20);
    assert("minecraft:item_predicate"@.len() == 24);
    assert("minecraft:color"@.len() == 15);
    assert("minecraft:component"@.len() == 19);
    assert("minecraft:message"@.len() == 17);
    assert("minecraft:nbt"@.len() == 13);
    assert("minecraft:nbt_path"@.len() == 18);
    assert("minecraft:objective"@.len() == 19);
    assert("minecraft:objective_criteria"@.len() == 28);
    assert("minecraft:operation"@.len() == 19);
    assert("minecraft:particle"@.len() == 18);
    assert("minecraft:rotation"@.len() == 18);
    assert("minecraft:scoreboard_slot"@.len() == 25);
    assert("minecraft:score_holder"@.len() == 22);
    assert("minecraft:swizzle"@.len() == 17);
    assert("minecraft:team"@.len() == 14);
    assert("minecraft:item_slot"@.len() == 19);
    assert("minecraft:resource_location"@.len() == 27);
    assert("minecraft:mob_effect"@.len() == 20);
    assert("minecraft:function"@.len() == 18);
    assert("minecraft:entity_anchor"@.len() == 23);
    assert("minecraft:range"@.len() == 15);
    assert("minecraft:int_range"@.len() == 19);
    assert("minecraft:float_range"@.len() == 21);
    assert("minecraft:item_enchantment"@.len() == 26);
    assert("minecraft:entity_summon"@.len() == 23);
    assert("minecraft:dimension"@.len() == 19);
    assert("minecraft:uuid"@.len() == 14);
    assert("minecraft:nbt_tag"@.len() == 17);
    assert("minecraft:nbt_compound_tag"@.len() == 26);
    assert("minecraft:time"@.len() == 14);
    assert("brigadier:string"@[10] != "brigadier:double"@[10]);
    assert("minecraft:entity"@[0] != "brigadier:double"@[0]);
    assert("minecraft:entity"@[0] != "brigadier:string"@[0]);
    assert("minecraft:vec3"@[0] != "brigadier:bool"@[0]);
    assert("minecraft:vec2"@[0] != "brigadier:bool"@[0]);
    assert("minecraft:vec2"@[13] != "minecraft:vec3"@[13]);
    assert("minecraft:item_stack"@[10] != "minecraft:column_pos"@[10]);
    assert("minecraft:color"@[0] != "brigadier:float"@[0]);
    assert("minecraft:component"@[10] != "minecraft:block_pos"@[10]);
    assert("minecraft:message"@[0] != "brigadier:integer"@[0]);
    assert("minecraft:objective"@[10] != "minecraft:block_pos"@[10]);
    assert("minecraft:objective"@[10] != "minecraft:component"@[10]);
    assert("minecraft:operation"@[10] != "minecraft:block_pos"@[10]);
    assert("minecraft:operation"@[10] != "minecraft:component"@[10]);
    assert("minecraft:operation"@[11] != "minecraft:objective"@[11]);
    assert("minecraft:particle"@[10] != "minecraft:nbt_path"@[10]);
    assert("minecraft:rotation"@[10] != "minecraft:nbt_path"@[10]);
    assert("minecraft:rotation"@[10] != "minecraft:particle"@[10]);
    assert("minecraft:scoreboard_slot"@[10] != "minecraft:block_predicate"@[10]);
    assert("minecraft:score_holder"@[10] != "minecraft:game_profile"@[10]);
    assert("minecraft:swizzle"@[0] != "brigadier:integer"@[0]);
    assert("minecraft:swizzle"@[10] != "minecraft:message"@[10]);
    assert("minecraft:team"@[0] != "brigadier:bool"@[0]);
    assert("minecraft:team"@[10] != "minecraft:vec3"@[10]);
    assert("minecraft:team"@[10] != "minecraft:vec2"@[10]);
    assert("minecraft:item_slot"@[10] != "minecraft:block_pos"@[10]);
    assert("minecraft:item_slot"@[10] != "minecraft:component"@[10]);
    assert("minecraft:item_slot"@[10] != "minecraft:objective"@[10]);
    assert("minecraft:item_slot"@[10] != "minecraft:operation"@[10]);
    assert("minecraft:mob_effect"@[10] != "minecraft:column_pos"@[10]);
    assert("minecraft:mob_effect"@[10] != "minecraft:item_stack"@[10]);
    assert("minecraft:function"@[10] != "minecraft:nbt_path"@[10]);
    assert("minecraft:function"@[10] != "minecraft:particle"@[10]);
    assert("minecraft:function"@[10] != "minecraft:rotation"@[10]);
    assert("minecraft:range"@[0] != "brigadier:float"@[0]);
    assert("minecraft:range"@[10] != "minecraft:color"@[10]);
    assert("minecraft:int_range"@[10] != "minecraft:block_pos"@[10]);
    assert("minecraft:int_range"@[10] != "minecraft:component"@[10]);
    assert("minecraft:int_range"@[10] != "minecraft:objective"@[10]);
    assert("minecraft:int_range"@[10] != "minecraft:operation"@[10]);
    assert("minecraft:int_range"@[11] != "minecraft:item_slot"@[11]);
    assert("minecraft:float_range"@[10] != "minecraft:block_state"@[10]);
    assert("minecraft:entity_summon"@[17] != "minecraft:entity_anchor"@[17]);
    assert("minecraft:dimension"@[10] != "minecraft:block_pos"@[10]);
    assert("minecraft:dimension"@[10] != "minecraft:component"@[10]);
    assert("minecraft:dimension"@[10] != "minecraft:objective"@[10]);
    assert("minecraft:dimension"@[10] != "minecraft:operation"@[10]);
    assert("minecraft:dimension"@[10] != "minecraft:item_slot"@[10]);
    assert("minecraft:dimension"@[10] != "minecraft:int_range"@[10]);
    assert("minecraft:uuid"@[0] != "brigadier:bool"@[0]);
    assert("minecraft:uuid"@[10] != "minecraft:vec3"@[10]);
    assert("minecraft:uuid"@[10] != "minecraft:vec2"@[10]);
    assert("minecraft:uuid"@[10] != "minecraft:team"@[10]);
    assert("minecraft:nbt_tag"@[0] != "brigadier:integer"@[0]);
    assert("minecraft:nbt_tag"@[10] != "minecraft:message"@[10]);
    assert("minecraft:nbt_tag"@[10] != "minecraft:swizzle"@[10]);
    assert("minecraft:nbt_compound_tag"@[10] != "minecraft:item_enchantment"@[10]);
    assert("minecraft:time"@[0] != "brigadier:bool"@[0]);
    assert("minecraft:time"@[10] != "minecraft:vec3"@[10]);
    assert("minecraft:time"@[10] != "minecraft:vec2"@[10]);
    assert("minecraft:time"@[11] != "minecraft:team"@[11]);
    assert("minecraft:time"@[10] != "minecraft:uuid"@[10]);
    match m {
            CommandParserSpec::Bool => {},
            CommandParserSpec::Double(_) => {},
            CommandParserSpec::Float(_) => {},
            CommandParserSpec::Integer(_) => {},
            CommandParserSpec::StringParser(_) => {},
            CommandParserSpec::Entity(_) => {},
            CommandParserSpec::GameProfile => {},
            CommandParserSpec::BlockPosition => {},
            CommandParserSpec::ColumnPosition => {},
            CommandParserSpec::Vec3 => {},
            CommandParserSpec::Vec2 => {},
            CommandParserSpec::BlockState => {},
            CommandParserSpec::BlockPredicate => {},
            CommandParserSpec::ItemStack => {},
            CommandParserSpec::ItemPredicate => {},
            CommandParserSpec::Color => {},
            CommandParserSpec::Component => {},
            CommandParserSpec::Message => {},
            CommandParserSpec::Nbt => {},
            CommandParserSpec::NbtPath => {},
            CommandParserSpec::Objective => {},
            CommandParserSpec::ObjectiveCriteria => {},
            CommandParserSpec::Operation => {},
            CommandParserSpec::Particle => {},
            CommandParserSpec::Rotation => {},
            CommandParserSpec::ScoreboardSlot => {},
            CommandParserSpec::ScoreHolder(_) => {},
            CommandParserSpec::Swizzle => {},
            CommandParserSpec::Team => {},
            CommandParserSpec::ItemSlot => {},
            CommandParserSpec::ResourceLocation => {},
            CommandParserSpec::MobEffect => {},
            CommandParserSpec::Function => {},
            CommandParserSpec::EntityAnchor => {},
            CommandParserSpec::Range(_) => {},
            CommandParserSpec::IntRange => {},
            CommandParserSpec::FloatRange => {},
            CommandParserSpec::ItemEnchantment => {},
            CommandParserSpec::EntitySummon => {},
            CommandParserSpec::Dimension => {},
            CommandParserSpec::UUID => {},
            CommandParserSpec::NbtTag => {},
            CommandParserSpec::NbtCompoundTag => {},
            CommandParserSpec::Time => {},
    }
}

/// A variant's payload reads back as the variant.
pub proof fn lemma_parser_tags_payload(m: CommandParserSpec, rest: Seq<u8>)
    requires
        CommandParserSpec::legal(m),
    ensures
        CommandParserSpec::encodable(m),
        CommandParserSpec::spec_payload(m, CommandParserSpec::spec_payload_bytes(m) + rest) == Ok::<(CommandParserSpec, Seq<u8>), DeserializeErr>((m, rest)),
{
    match m {
            CommandParserSpec::Double(p) => NumParserProps::<Float64>::lemma_round_trip(p, rest),
            CommandParserSpec::Float(p) => NumParserProps::<Float32>::lemma_round_trip(p, rest),
            CommandParserSpec::Integer(p) => NumParserProps::<i32>::lemma_round_trip(p, rest),
            CommandParserSpec::StringParser(p) => StringParserMode::lemma_round_trip(p, rest),
            CommandParserSpec::Entity(p) => EntityParserFlags::lemma_round_trip(p, rest),
            CommandParserSpec::ScoreHolder(p) => ScoreHolderFlags::lemma_round_trip(p, rest),
            CommandParserSpec::Range(p) => RangeParserProps::lemma_round_trip(p, rest),
            _ => {},
        }
}

impl Codec for CommandParserSpec {
    type Model = CommandParserSpec;

    open spec fn model(&self) -> CommandParserSpec {
        match self {
            CommandParserSpec::Double(p) => CommandParserSpec::Double(p.model()),
            CommandParserSpec::Float(p) => CommandParserSpec::Float(p.model()),
            CommandParserSpec::Integer(p) => CommandParserSpec::Integer(p.model()),
            CommandParserSpec::StringParser(p) => CommandParserSpec::StringParser(p.model()),
            CommandParserSpec::Entity(p) => CommandParserSpec::Entity(p.model()),
            CommandParserSpec::ScoreHolder(p) => CommandParserSpec::ScoreHolder(p.model()),
            CommandParserSpec::Range(p) => CommandParserSpec::Range(p.model()),
            _ => *self,
        }
    }

    open spec fn encodable(m: CommandParserSpec) -> bool {
        match m {
            CommandParserSpec::Double(p) => NumParserProps::<Float64>::encodable(p),
            CommandParserSpec::Float(p) => NumParserProps::<Float32>::encodable(p),
            CommandParserSpec::Integer(p) => NumParserProps::<i32>::encodable(p),
            CommandParserSpec::StringParser(p) => StringParserMode::encodable(p),
            CommandParserSpec::Entity(p) => EntityParserFlags::encodable(p),
            CommandParserSpec::ScoreHolder(p) => ScoreHolderFlags::encodable(p),
            CommandParserSpec::Range(p) => RangeParserProps::encodable(p),
            _ => true,
        }
    }

    open spec fn legal(m: CommandParserSpec) -> bool {
        match m {
            CommandParserSpec::Double(p) => NumParserProps::<Float64>::legal(p),
            CommandParserSpec::Float(p) => NumParserProps::<Float32>::legal(p),
            CommandParserSpec::Integer(p) => NumParserProps::<i32>::legal(p),
            CommandParserSpec::StringParser(p) => StringParserMode::legal(p),
            CommandParserSpec::Entity(p) => EntityParserFlags::legal(p),
            CommandParserSpec::ScoreHolder(p) => ScoreHolderFlags::legal(p),
            CommandParserSpec::Range(p) => RangeParserProps::legal(p),
            _ => true,
        }
    }

    /// The tag as a string, then the variant's payload.
    open spec fn spec_serialize(m: CommandParserSpec) -> Seq<u8> {
        spec_string_serialize(Self::spec_tag(m)) + Self::spec_payload_bytes(m)
    }

    open spec fn spec_deserialize(s: Seq<u8>) -> SpecResult<CommandParserSpec> {
        match spec_string_deserialize(s) {
            Err(e) => Err(e),
            Ok((t, r)) => Self::spec_from_tag(t, r),
        }
    }

    proof fn lemma_round_trip(m: CommandParserSpec, rest: Seq<u8>) {
        let payload = Self::spec_payload_bytes(m) + rest;
        lemma_parser_tags(m, payload);
        lemma_tag_encodable(Self::spec_tag(m));
        String::lemma_round_trip(Self::spec_tag(m), payload);
        assert(Self::spec_serialize(m) + rest =~= spec_string_serialize(Self::spec_tag(m)) + payload);
        lemma_parser_tags_payload(m, rest);
    }

    fn mc_serialize(&self, to: &mut Vec<u8>) {
        let ghost start = to@;
        let t = self.id();
        proof {
            lemma_parser_tags(self.model(), Seq::empty());
            lemma_tag_encodable(t@);
        }
        write_str(t, to);
        self.serialize_body(to);
        assert(to@ =~= start + Self::spec_serialize(self.model()));
    }

    fn mc_deserialize(data: &[u8]) -> (r: Result<(Self, &[u8]), DeserializeErr>) {
        let (t, rest) = String::mc_deserialize(data)?;
        Self::deserialize_with_id(t.as_str(), rest)
    }
}

/// Where the suggestions for an argument come from.
#[derive(Debug, Clone, Copy, PartialEq, Eq)]
pub enum SuggestionsTypeSpec {
    AskServer,
    AllRecipes,
    AvailableSounds,
    SummonableEntities,
}

impl SuggestionsTypeSpec {
    /// The string that names each variant on the wire.
    pub open spec fn spec_tag(m: SuggestionsTypeSpec) -> Seq<char> {
        match m {
            SuggestionsTypeSpec::AskServer => "minecraft:ask_server"@,
            SuggestionsTypeSpec::AllRecipes => "minecraft:all_recipes"@,
            SuggestionsTypeSpec::AvailableSounds => "minecraft:available_sounds"@,
            SuggestionsTypeSpec::SummonableEntities => "minecraft:summonable_entities"@,
        }
    }

    /// Reads the payload of `m`'s variant from `r`.
    pub open spec fn spec_payload(m: SuggestionsTypeSpec, r: Seq<u8>) -> SpecResult<SuggestionsTypeSpec> {
        match m {
            SuggestionsTypeSpec::AskServer => Ok((SuggestionsTypeSpec::AskServer, r)),
            SuggestionsTypeSpec::AllRecipes => Ok((SuggestionsTypeSpec::AllRecipes, r)),
            SuggestionsTypeSpec::AvailableSounds => Ok((SuggestionsTypeSpec::AvailableSounds, r)),
            SuggestionsTypeSpec::SummonableEntities => Ok((SuggestionsTypeSpec::SummonableEntities, r)),
        }
    }

    /// The variant that a tag names, with its payload read from `r`; a tag
    /// that names no variant is an error.
    #[verifier::opaque]
    pub open spec fn spec_from_tag(t: Seq<char>, r: Seq<u8>) -> SpecResult<SuggestionsTypeSpec> {
        if t == "minecraft:ask_server"@ {
            Self::spec_payload(SuggestionsTypeSpec::AskServer, r)
        } else if t == "minecraft:all_recipes"@ {
            Self::spec_payload(SuggestionsTypeSpec::AllRecipes, r)
        } else if t == "minecraft:available_sounds"@ {
            Self::spec_payload(SuggestionsTypeSpec::AvailableSounds, r)
        } else if t == "minecraft:summonable_entities"@ {
            Self::spec_payload(SuggestionsTypeSpec::SummonableEntities, r)
        } else {
            Err(DeserializeErr::UnknownStringTag)
        }
    }

    pub open spec fn spec_payload_bytes(m: SuggestionsTypeSpec) -> Seq<u8> {
        Seq::empty()
    }

    /// The string that names this variant.
    pub fn id(&self) -> (r: &'static str)
        ensures
            r@ == Self::spec_tag(self.model()),
    {
        match self {
            SuggestionsTypeSpec::AskServer => "minecraft:ask_server",
            SuggestionsTypeSpec::AllRecipes => "minecraft:all_recipes",
            SuggestionsTypeSpec::AvailableSounds => "minecraft:available_sounds",
            SuggestionsTypeSpec::SummonableEntities => "minecraft:summonable_entities",
        }
    }

    /// Writes the payload alone.
    pub fn serialize_body(&self, to: &mut Vec<u8>)
        requires
            Self::encodable(self.model()),
        ensures
            final(to)@ == old(to)@ + Self::spec_payload_bytes(self.model()),
    {
        
        assert(to@ =~= to@ + Seq::<u8>::empty());
    }

    /// Reads the payload of the variant that `t` names.
    pub fn deserialize_with_id<'a>(t: &str, data: &'a [u8]) -> (r: Result<(Self, &'a [u8]), DeserializeErr>)
        ensures
            read_matches(r, |v: Self| v.model(), Self::spec_from_tag(t@, data@)),
    {
        reveal(SuggestionsTypeSpec::spec_from_tag);
        if str_eq(t, "minecraft:ask_server") {
            Ok((SuggestionsTypeSpec::AskServer, data))
        } else if str_eq(t, "minecraft:all_recipes") {
            Ok((SuggestionsTypeSpec::AllRecipes, data))
        } else if str_eq(t, "minecraft:available_sounds") {
            Ok((SuggestionsTypeSpec::AvailableSounds, data))
        } else if str_eq(t, "minecraft:summonable_entities") {
            Ok((SuggestionsTypeSpec::SummonableEntities, data))
        } else {
            Err(DeserializeErr::UnknownStringTag)
        }
    }
}

/// No two variants share a tag, so a tag leads back to its own variant.
proof fn lemma_suggestions_tags(m: SuggestionsTypeSpec, r: Seq<u8>)
    ensures
        SuggestionsTypeSpec::spec_from_tag(SuggestionsTypeSpec::spec_tag(m), r) == SuggestionsTypeSpec::spec_payload(m, r),
        SuggestionsTypeSpec::spec_tag(m).len() <= 64,
{
    reveal(SuggestionsTypeSpec::spec_from_tag);
    reveal_strlit("minecraft:ask_server");
    reveal_strlit("minecraft:all_recipes");
    reveal_strlit("minecraft:available_sounds");
    reveal_strlit("minecraft:summonable_entities");
    assert("minecraft:ask_server"@.len() == 20);
    assert("minecraft:all_recipes"@.len() == 21);
    assert("minecraft:available_sounds"@.len() == 26);
    assert("minecraft:summonable_entities"@.len() == 29);
    match m {
            SuggestionsTypeSpec::AskServer => {},
            SuggestionsTypeSpec::AllRecipes => {},
            SuggestionsTypeSpec::AvailableSounds => {},
            SuggestionsTypeSpec::SummonableEntities => {},
    }
}

/// A variant's payload reads back as the variant.
pub proof fn lemma_suggestions_tags_payload(m: SuggestionsTypeSpec, rest: Seq<u8>)
    requires
        SuggestionsTypeSpec::legal(m),
    ensures
        SuggestionsTypeSpec::encodable(m),
        SuggestionsTypeSpec::spec_payload(m, SuggestionsTypeSpec::spec_payload_bytes(m) + rest) == Ok::<(SuggestionsTypeSpec, Seq<u8>), DeserializeErr>((m, rest)),
{
    assert(SuggestionsTypeSpec::spec_payload_bytes(m) + rest =~= rest);
}

impl Codec for SuggestionsTypeSpec {
    type Model = SuggestionsTypeSpec;

    open spec fn model(&self) -> SuggestionsTypeSpec {
        *self
    }

    open spec fn encodable(m: SuggestionsTypeSpec) -> bool {
        true
    }

    open spec fn legal(m: SuggestionsTypeSpec) -> bool {
        true
    }

    /// The tag as a string, then the variant's payload.
    open spec fn spec_serialize(m: SuggestionsTypeSpec) -> Seq<u8> {
        spec_string_serialize(Self::spec_tag(m)) + Self::spec_payload_bytes(m)
    }

    open spec fn spec_deserialize(s: Seq<u8>) -> SpecResult<SuggestionsTypeSpec> {
        match spec_string_deserialize(s) {
            Err(e) => Err(e),
            Ok((t, r)) => Self::spec_from_tag(t, r),
        }
    }

    proof fn lemma_round_trip(m: SuggestionsTypeSpec, rest: Seq<u8>) {
        let payload = Self::spec_payload_bytes(m) + rest;
        lemma_suggestions_tags(m, payload);
        lemma_tag_encodable(Self::spec_tag(m));
        String::lemma_round_trip(Self::spec_tag(m), payload);
        assert(Self::spec_serialize(m) + rest =~= spec_string_serialize(Self::spec_tag(m)) + payload);
        lemma_suggestions_tags_payload(m, rest);
    }

    fn mc_serialize(&self, to: &mut Vec<u8>) {
        let ghost start = to@;
        let t = self.id();
        proof {
            lemma_suggestions_tags(self.model(), Seq::empty());
            lemma_tag_encodable(t@);
        }
        write_str(t, to);
        self.serialize_body(to);
        assert(to@ =~= start + Self::spec_serialize(self.model()));
    }

    fn mc_deserialize(data: &[u8]) -> (r: Result<(Self, &[u8]), DeserializeErr>) {
        let (t, rest) = String::mc_deserialize(data)?;
        Self::deserialize_with_id(t.as_str(), rest)
    }
}

/// A literal node: matches its own name.
#[derive(Debug, Clone, PartialEq, Eq)]
pub struct CommandLiteralNodeSpec {
    pub name: String,
}

impl Codec for CommandLiteralNodeSpec {
    type Model = Seq<char>;

    open spec fn model(&self) -> Seq<char> {
        self.name@
    }

    open spec fn encodable(m: Seq<char>) -> bool {
        String::encodable(m)
    }

    open spec fn legal(m: Seq<char>) -> bool {
        String::legal(m)
    }

    open spec fn spec_serialize(m: Seq<char>) -> Seq<u8> {
        spec_string_serialize(m)
    }

    open spec fn spec_deserialize(s: Seq<u8>) -> SpecResult<Seq<char>> {
        spec_string_deserialize(s)
    }

    proof fn lemma_round_trip(m: Seq<char>, rest: Seq<u8>) {
        String::lemma_round_trip(m, rest);
    }

    fn mc_serialize(&self, to: &mut Vec<u8>) {
        self.name.mc_serialize(to);
    }

    fn mc_deserialize(data: &[u8]) -> (r: Result<(Self, &[u8]), DeserializeErr>) {
        let (name, rest) = String::mc_deserialize(data)?;
        Ok((CommandLiteralNodeSpec { name }, rest))
    }
}

/// An argument node as values.
pub struct ArgumentModel {
    pub name: Seq<char>,
    pub parser: CommandParserSpec,
    pub suggestions_types: Option<SuggestionsTypeSpec>,
}

/// An argument node: a name, how its text parses, and optionally where its
/// suggestions come from. Whether the last is present is told by the
/// enclosing node's flag byte, not by a marker of its own.
#[derive(Debug, Clone, PartialEq, Eq)]
pub struct CommandArgumentNodeSpec {
    pub name: String,
    pub parser: CommandParserSpec,
    pub suggestions_types: Option<SuggestionsTypeSpec>,
}

impl CommandArgumentNodeSpec {
    pub open spec fn spec_model(&self) -> ArgumentModel {
        ArgumentModel {
            name: self.name@,
            parser: self.parser.model(),
            suggestions_types: self.suggestions_types,
        }
    }

    pub open spec fn spec_encodable(m: ArgumentModel) -> bool {
        String::encodable(m.name) && CommandParserSpec::encodable(m.parser)
    }

    pub open spec fn spec_serialize_body(m: ArgumentModel) -> Seq<u8> {
        spec_string_serialize(m.name) + CommandParserSpec::spec_serialize(m.parser) + spec_opt_bytes::<
            SuggestionsTypeSpec,
        >(m.suggestions_types)
    }

    pub open spec fn spec_deserialize_body(has_suggestion_types: bool, s: Seq<u8>) -> SpecResult<
        ArgumentModel,
    > {
        match spec_string_deserialize(s) {
            Err(e) => Err(e),
            Ok((name, r)) => match CommandParserSpec::spec_deserialize(r) {
                Err(e) => Err(e),
                Ok((parser, r2)) => match spec_read_if::<SuggestionsTypeSpec>(
                    has_suggestion_types,
                    r2,
                ) {
                    Err(e) => Err(e),
                    Ok((suggestions_types, r3)) => Ok(
                        (ArgumentModel { name, parser, suggestions_types }, r3),
                    ),
                },
            },
        }
    }

    pub proof fn lemma_body_round_trip(m: ArgumentModel, rest: Seq<u8>)
        requires
            Self::spec_encodable(m),
        ensures
            Self::spec_deserialize_body(m.suggestions_types is Some, Self::spec_serialize_body(m) + rest)
                == Ok::<(ArgumentModel, Seq<u8>), DeserializeErr>((m, rest)),
    {
        let t2 = spec_opt_bytes::<SuggestionsTypeSpec>(m.suggestions_types) + rest;
        let t1 = CommandParserSpec::spec_serialize(m.parser) + t2;
        assert(Self::spec_serialize_body(m) + rest =~= spec_string_serialize(m.name) + t1);
        String::lemma_round_trip(m.name, t1);
        CommandParserSpec::lemma_round_trip(m.parser, t2);
        lemma_read_if_round_trip::<SuggestionsTypeSpec>(m.suggestions_types, rest);
    }

    pub fn serialize(&self, to: &mut Vec<u8>)
        requires
            Self::spec_encodable(self.spec_model()),
        ensures
            final(to)@ == old(to)@ + Self::spec_serialize_body(self.spec_model()),
    {
        let ghost start = to@;
        self.name.mc_serialize(to);
        self.parser.mc_serialize(to);
        write_opt(&self.suggestions_types, to);
        assert(to@ =~= start + Self::spec_serialize_body(self.spec_model()));
    }

    pub fn deserialize(has_suggestion_types: bool, data: &[u8]) -> (r: Result<
        (Self, &[u8]),
        DeserializeErr,
    >)
        ensures
            read_matches(
                r,
                |v: Self| v.spec_model(),
                Self::spec_deserialize_body(has_suggestion_types, data@),
            ),
    {
        let (name, rest) = String::mc_deserialize(data)?;
        let (parser, rest) = CommandParserSpec::mc_deserialize(rest)?;
        let (suggestions_types, rest) = read_if::<SuggestionsTypeSpec>(has_suggestion_types, rest)?;
        Ok((CommandArgumentNodeSpec { name, parser, suggestions_types }, rest))
    }
}

/// What a node does.
#[derive(Debug, Clone, PartialEq, Eq)]
pub enum CommandNode {
    Root,
    Argument(CommandArgumentNodeSpec),
    Literal(CommandLiteralNodeSpec),
}

/// What a node does, as values.
pub enum NodeModel {
    Root,
    Argument(ArgumentModel),
    Literal(Seq<char>),
}

/// One node of the command graph as values.
pub struct NodeSpecModel {
    pub children_indices: Seq<i32>,
    pub redirect_node: Option<i32>,
    pub is_executable: bool,
    pub node: NodeModel,
}

/// One node of the command graph. Children and the redirect are indices
/// into the same flat sequence of nodes.
#[derive(Debug, Clone, PartialEq, Eq)]
pub struct CommandNodeSpec {
    pub children_indices: VarIntCountedArray<VarInt>,
    pub redirect_node: Option<VarInt>,
    pub is_executable: bool,
    pub node: CommandNode,
}

pub open spec fn node_model(n: CommandNode) -> NodeModel {
    match n {
        CommandNode::Root => NodeModel::Root,
        CommandNode::Argument(a) => NodeModel::Argument(a.spec_model()),
        CommandNode::Literal(l) => NodeModel::Literal(l.name@),
    }
}

/// The flag byte: kind in bits 0-1, then executable, redirect present and
/// suggestions present.
pub open spec fn node_flags(m: NodeSpecModel) -> u8 {
    let kind: int = match m.node {
        NodeModel::Root => 0,
        NodeModel::Literal(_) => 1,
        NodeModel::Argument(_) => 2,
    };
    let sugg: int = match m.node {
        NodeModel::Argument(a) => if a.suggestions_types is Some {
            16
        } else {
            0
        },
        _ => 0,
    };
    (kind + (if m.is_executable { 4int } else { 0int }) + (if m.redirect_node is Some {
        8int
    } else {
        0int
    }) + sugg) as u8
}

pub open spec fn node_kind(n: NodeModel) -> u8 {
    match n {
        NodeModel::Root => 0,
        NodeModel::Literal(_) => 1,
        NodeModel::Argument(_) => 2,
    }
}

pub open spec fn node_has_suggestions(n: NodeModel) -> bool {
    match n {
        NodeModel::Argument(a) => a.suggestions_types is Some,
        _ => false,
    }
}

/// Each field of a node can be read back from its flag byte.
proof fn lemma_node_flags(m: NodeSpecModel)
    ensures
        node_flags(m) % 4 == node_kind(m.node),
        ((node_flags(m) / 4) % 2 == 1) == m.is_executable,
        ((node_flags(m) / 8) % 2 == 1) == (m.redirect_node is Some),
        ((node_flags(m) / 16) % 2 == 1) == node_has_suggestions(m.node),
{
    let k = node_kind(m.node) as int;
    let e: int = if m.is_executable { 1 } else { 0 };
    let r: int = if m.redirect_node is Some { 1 } else { 0 };
    let g: int = if node_has_suggestions(m.node) { 1 } else { 0 };
    assert(node_flags(m) == k + 4 * e + 8 * r + 16 * g);
    assert(0 <= k < 4 && 0 <= e < 2 && 0 <= r < 2 && 0 <= g < 2);
    assert((k + 4 * e + 8 * r + 16 * g) % 4 == k && ((k + 4 * e + 8 * r + 16 * g) / 4) % 2 == e
        && ((k + 4 * e + 8 * r + 16 * g) / 8) % 2 == r && ((k + 4 * e + 8 * r + 16 * g) / 16) % 2
        == g) by (nonlinear_arith)
        requires
            0 <= k < 4 && 0 <= e < 2 && 0 <= r < 2 && 0 <= g < 2,
    ;
}

pub open spec fn node_body_bytes(n: NodeModel) -> Seq<u8> {
    match n {
        NodeModel::Root => Seq::empty(),
        NodeModel::Literal(name) => spec_string_serialize(name),
        NodeModel::Argument(a) => CommandArgumentNodeSpec::spec_serialize_body(a),
    }
}

/// The kind-specific part of a node, chosen by the low two flag bits.
pub open spec fn spec_node_body(flags: u8, s: Seq<u8>) -> SpecResult<NodeModel> {
    if flags % 4 == 0 {
        Ok((NodeModel::Root, s))
    } else if flags % 4 == 1 {
        match spec_string_deserialize(s) {
            Err(e) => Err(e),
            Ok((name, r)) => Ok((NodeModel::Literal(name), r)),
        }
    } else if flags % 4 == 2 {
        match CommandArgumentNodeSpec::spec_deserialize_body((flags / 16) % 2 == 1, s) {
            Err(e) => Err(e),
            Ok((a, r)) => Ok((NodeModel::Argument(a), r)),
        }
    } else {
        Err(DeserializeErr::UnknownTag(3))
    }
}

pub open spec fn node_encodable(n: NodeModel) -> bool {
    match n {
        NodeModel::Root => true,
        NodeModel::Literal(name) => String::encodable(name),
        NodeModel::Argument(a) => CommandArgumentNodeSpec::spec_encodable(a),
    }
}

impl Codec for CommandNodeSpec {
    type Model = NodeSpecModel;

    open spec fn model(&self) -> NodeSpecModel {
        NodeSpecModel {
            children_indices: self.children_indices.model(),
            redirect_node: self.redirect_node.model(),
            is_executable: self.is_executable,
            node: node_model(self.node),
        }
    }

    open spec fn encodable(m: NodeSpecModel) -> bool {
        VarIntCountedArray::<VarInt>::encodable(m.children_indices) && node_encodable(m.node)
    }

    open spec fn legal(m: NodeSpecModel) -> bool {
        Self::encodable(m)
    }

    /// The flag byte, the child indices, the redirect index when present,
    /// then the kind-specific body.
    open spec fn spec_serialize(m: NodeSpecModel) -> Seq<u8> {
        seq![node_flags(m)] + VarIntCountedArray::<VarInt>::spec_serialize(m.children_indices)
            + spec_opt_bytes::<VarInt>(m.redirect_node) + node_body_bytes(m.node)
    }

    open spec fn spec_deserialize(s: Seq<u8>) -> SpecResult<NodeSpecModel> {
        match u8::spec_deserialize(s) {
            Err(e) => Err(e),
            Ok((f, r)) => match VarIntCountedArray::<VarInt>::spec_deserialize(r) {
                Err(e) => Err(e),
                Ok((children_indices, r2)) => match spec_read_if::<VarInt>((f / 8) % 2 == 1, r2) {
                    Err(e) => Err(e),
                    Ok((redirect_node, r3)) => match spec_node_body(f, r3) {
                        Err(e) => Err(e),
                        Ok((node, r4)) => Ok(
                            (
                                NodeSpecModel {
                                    children_indices,
                                    redirect_node,
                                    is_executable: (f / 4) % 2 == 1,
                                    node,
                                },
                                r4,
                            ),
                        ),
                    },
                },
            },
        }
    }

    proof fn lemma_round_trip(m: NodeSpecModel, rest: Seq<u8>) {
        let f = node_flags(m);
        let t3 = node_body_bytes(m.node) + rest;
        let t2 = spec_opt_bytes::<VarInt>(m.redirect_node) + t3;
        let t1 = VarIntCountedArray::<VarInt>::spec_serialize(m.children_indices) + t2;
        assert(Self::spec_serialize(m) + rest =~= seq![f] + t1);
        lemma_node_flags(m);
        u8::lemma_round_trip(f, t1);
        VarIntCountedArray::<VarInt>::lemma_round_trip(m.children_indices, t2);
        lemma_read_if_round_trip::<VarInt>(m.redirect_node, t3);
        match m.node {
            NodeModel::Root => {
                assert(t3 =~= rest);
            },
            NodeModel::Literal(name) => {
                String::lemma_round_trip(name, rest);
            },
            NodeModel::Argument(a) => {
                CommandArgumentNodeSpec::lemma_body_round_trip(a, rest);
            },
        }
    }

    fn mc_serialize(&self, to: &mut Vec<u8>) {
        let ghost start = to@;
        let mut flags: u8 = match &self.node {
            CommandNode::Root => 0x00,
            CommandNode::Literal(_) => 0x01,
            CommandNode::Argument(_) => 0x02,
        };
        if self.is_executable {
            flags = flags + 0x04;
        }
        if self.redirect_node.is_some() {
            flags = flags + 0x08;
        }
        if let CommandNode::Argument(body) = &self.node {
            if body.suggestions_types.is_some() {
                flags = flags + 0x10;
            }
        }
        assert(flags == node_flags(self.model()));
        to.push(flags);
        self.children_indices.mc_serialize(to);
        write_opt(&self.redirect_node, to);
        match &self.node {
            CommandNode::Root => {},
            CommandNode::Argument(body) => body.serialize(to),
            CommandNode::Literal(body) => body.mc_serialize(to),
        }
        assert(to@ =~= start + Self::spec_serialize(self.model()));
    }

    fn mc_deserialize(data: &[u8]) -> (r: Result<(Self, &[u8]), DeserializeErr>) {
        let (flags, rest) = u8::mc_deserialize(data)?;
        let (children_indices, rest) = VarIntCountedArray::<VarInt>::mc_deserialize(rest)?;
        let (redirect_node, rest) = read_if::<VarInt>((flags / 8) % 2 == 1, rest)?;
        let is_executable = (flags / 4) % 2 == 1;
        let (node, rest) = if flags % 4 == 0 {
            (CommandNode::Root, rest)
        } else if flags % 4 == 1 {
            let (body, rest) = CommandLiteralNodeSpec::mc_deserialize(rest)?;
            (CommandNode::Literal(body), rest)
        } else if flags % 4 == 2 {
            let (body, rest) = CommandArgumentNodeSpec::deserialize((flags / 16) % 2 == 1, rest)?;
            (CommandNode::Argument(body), rest)
        } else {
            return Err(DeserializeErr::UnknownTag(3));
        };
        Ok((CommandNodeSpec { children_indices, redirect_node, is_executable, node }, rest))
    }
}

} // verus!
