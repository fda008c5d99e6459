//! Message bodies whose layout is not a flat run of fields: presence told
//! by flag bits, a discriminant split from its payload by another field, and
//! bit-packed coordinates.
use vstd::prelude::*;
use crate::codec::{Codec, DeserializeErr, SpecResult, read_matches};
use crate::varnum::{VarInt, spec_varint_serialize, spec_varint_deserialize};
use crate::primitives::{spec_string_serialize, spec_string_deserialize};
use crate::containers::{
    VarIntCountedArray, spec_opt_bytes, spec_read_if, lemma_read_if_round_trip, write_opt, read_if,
};
use crate::primitives::{UUID4, take_bytes, lemma_take_concat};
use crate::uuid::{uuid_text, spec_uuid_parse, lemma_uuid_text_round_trip};
use vstd::utf8::encode_utf8;
use crate::commands::presence_byte;

verus! {

/// The mixer channel a sound plays on.
#[derive(Debug, Clone, Copy, PartialEq, Eq, Structural)]
pub enum SoundCategory {
    Master,
    Music,
    Records,
    Weather,
    Block,
    Hostile,
    Neutral,
    Player,
    Ambient,
    Voice,
}

impl SoundCategory {
    pub open spec fn spec_id(m: SoundCategory) -> i32 {
        match m {
            SoundCategory::Master => 0,
            SoundCategory::Music => 1,
            SoundCategory::Records => 2,
            SoundCategory::Weather => 3,
            SoundCategory::Block => 4,
            SoundCategory::Hostile => 5,
            SoundCategory::Neutral => 6,
            SoundCategory::Player => 7,
            SoundCategory::Ambient => 8,
            SoundCategory::Voice => 9,
        }
    }

    pub open spec fn spec_of_id(id: i32) -> Option<SoundCategory> {
        match id {
            0 => Some(SoundCategory::Master),
            1 => Some(SoundCategory::Music),
            2 => Some(SoundCategory::Records),
            3 => Some(SoundCategory::Weather),
            4 => Some(SoundCategory::Block),
            5 => Some(SoundCategory::Hostile),
            6 => Some(SoundCategory::Neutral),
            7 => Some(SoundCategory::Player),
            8 => Some(SoundCategory::Ambient),
            9 => Some(SoundCategory::Voice),
            _ => None,
        }
    }

    /// The discriminant written for this variant.
    pub fn id(&self) -> (r: i32)
        ensures
            r == Self::spec_id(*self),
    {
        match self {
            SoundCategory::Master => 0,
            SoundCategory::Music => 1,
            SoundCategory::Records => 2,
            SoundCategory::Weather => 3,
            SoundCategory::Block => 4,
            SoundCategory::Hostile => 5,
            SoundCategory::Neutral => 6,
            SoundCategory::Player => 7,
            SoundCategory::Ambient => 8,
            SoundCategory::Voice => 9,
        }
    }
}

impl Codec for SoundCategory {
    type Model = SoundCategory;

    open spec fn model(&self) -> SoundCategory {
        *self
    }

    open spec fn encodable(m: SoundCategory) -> bool {
        true
    }

    open spec fn legal(m: SoundCategory) -> bool {
        true
    }

    open spec fn spec_serialize(m: SoundCategory) -> Seq<u8> {
        spec_varint_serialize(Self::spec_id(m))
    }

    /// A discriminant that names no variant is an error carrying it.
    open spec fn spec_deserialize(s: Seq<u8>) -> SpecResult<SoundCategory> {
        match spec_varint_deserialize(s) {
            Err(e) => Err(e),
            Ok((id, rest)) => match Self::spec_of_id(id) {
                Some(v) => Ok((v, rest)),
                None => Err(DeserializeErr::UnknownTag(id as i64)),
            },
        }
    }

    proof fn lemma_round_trip(m: SoundCategory, rest: Seq<u8>) {
        VarInt::lemma_round_trip(Self::spec_id(m), rest);
    }

    fn mc_serialize(&self, to: &mut Vec<u8>) {
        VarInt(self.id()).mc_serialize(to);
    }

    fn mc_deserialize(data: &[u8]) -> (r: Result<(Self, &[u8]), DeserializeErr>) {
        let (id, rest) = VarInt::mc_deserialize(data)?;
        let id = id.0;
        match id {
            0 => Ok((SoundCategory::Master, rest)),
            1 => Ok((SoundCategory::Music, rest)),
            2 => Ok((SoundCategory::Records, rest)),
            3 => Ok((SoundCategory::Weather, rest)),
            4 => Ok((SoundCategory::Block, rest)),
            5 => Ok((SoundCategory::Hostile, rest)),
            6 => Ok((SoundCategory::Neutral, rest)),
            7 => Ok((SoundCategory::Player, rest)),
            8 => Ok((SoundCategory::Ambient, rest)),
            9 => Ok((SoundCategory::Voice, rest)),
            _ => Err(DeserializeErr::UnknownTag(id as i64)),
        }
    }
}

/// The state a handshake asks to move to.
#[derive(Debug, Clone, Copy, PartialEq, Eq, Structural)]
pub enum HandshakeNextState {
    Status,
    Login,
}

impl HandshakeNextState {
    pub open spec fn spec_id(m: HandshakeNextState) -> u8 {
        match m {
            HandshakeNextState::Status => 1,
            HandshakeNextState::Login => 2,
        }
    }

    pub open spec fn spec_of_id(id: u8) -> Option<HandshakeNextState> {
        match id {
            1 => Some(HandshakeNextState::Status),
            2 => Some(HandshakeNextState::Login),
            _ => None,
        }
    }

    /// The discriminant written for this variant.
    pub fn id(&self) -> (r: u8)
        ensures
            r == Self::spec_id(*self),
    {
        match self {
            HandshakeNextState::Status => 1,
            HandshakeNextState::Login => 2,
        }
    }
}

impl Codec for HandshakeNextState {
    type Model = HandshakeNextState;

    open spec fn model(&self) -> HandshakeNextState {
        *self
    }

    open spec fn encodable(m: HandshakeNextState) -> bool {
        true
    }

    open spec fn legal(m: HandshakeNextState) -> bool {
        true
    }

    open spec fn spec_serialize(m: HandshakeNextState) -> Seq<u8> {
        seq![Self::spec_id(m)]
    }

    /// A discriminant that names no variant is an error carrying it.
    open spec fn spec_deserialize(s: Seq<u8>) -> SpecResult<HandshakeNextState> {
        match u8::spec_deserialize(s) {
            Err(e) => Err(e),
            Ok((id, rest)) => match Self::spec_of_id(id) {
                Some(v) => Ok((v, rest)),
                None => Err(DeserializeErr::UnknownTag(id as i64)),
            },
        }
    }

    proof fn lemma_round_trip(m: HandshakeNextState, rest: Seq<u8>) {
        u8::lemma_round_trip(Self::spec_id(m), rest);
    }

    fn mc_serialize(&self, to: &mut Vec<u8>) {
        to.push(self.id());
    }

    fn mc_deserialize(data: &[u8]) -> (r: Result<(Self, &[u8]), DeserializeErr>) {
        let (id, rest) = u8::mc_deserialize(data)?;
        match id {
            1 => Ok((HandshakeNextState::Status, rest)),
            2 => Ok((HandshakeNextState::Login, rest)),
            _ => Err(DeserializeErr::UnknownTag(id as i64)),
        }
    }
}

/// A player's game mode.
#[derive(Debug, Clone, Copy, PartialEq, Eq, Structural)]
pub enum GameMode {
    Survival,
    Creative,
    Adventure,
    Spectator,
}

impl GameMode {
    pub open spec fn spec_id(m: GameMode) -> u8 {
        match m {
            GameMode::Survival => 0,
            GameMode::Creative => 1,
            GameMode::Adventure => 2,
            GameMode::Spectator => 3,
        }
    }

    pub open spec fn spec_of_id(id: u8) -> Option<GameMode> {
        match id {
            0 => Some(GameMode::Survival),
            1 => Some(GameMode::Creative),
            2 => Some(GameMode::Adventure),
            3 => Some(GameMode::Spectator),
            _ => None,
        }
    }

    /// The discriminant written for this variant.
    pub fn id(&self) -> (r: u8)
        ensures
            r == Self::spec_id(*self),
    {
        match self {
            GameMode::Survival => 0,
            GameMode::Creative => 1,
            GameMode::Adventure => 2,
            GameMode::Spectator => 3,
        }
    }
}

impl Codec for GameMode {
    type Model = GameMode;

    open spec fn model(&self) -> GameMode {
        *self
    }

    open spec fn encodable(m: GameMode) -> bool {
        true
    }

    open spec fn legal(m: GameMode) -> bool {
        true
    }

    open spec fn spec_serialize(m: GameMode) -> Seq<u8> {
        seq![Self::spec_id(m)]
    }

    /// A discriminant that names no variant is an error carrying it.
    open spec fn spec_deserialize(s: Seq<u8>) -> SpecResult<GameMode> {
        match u8::spec_deserialize(s) {
            Err(e) => Err(e),
            Ok((id, rest)) => match Self::spec_of_id(id) {
                Some(v) => Ok((v, rest)),
                None => Err(DeserializeErr::UnknownTag(id as i64)),
            },
        }
    }

    proof fn lemma_round_trip(m: GameMode, rest: Seq<u8>) {
        u8::lemma_round_trip(Self::spec_id(m), rest);
    }

    fn mc_serialize(&self, to: &mut Vec<u8>) {
        to.push(self.id());
    }

    fn mc_deserialize(data: &[u8]) -> (r: Result<(Self, &[u8]), DeserializeErr>) {
        let (id, rest) = u8::mc_deserialize(data)?;
        match id {
            0 => Ok((GameMode::Survival, rest)),
            1 => Ok((GameMode::Creative, rest)),
            2 => Ok((GameMode::Adventure, rest)),
            3 => Ok((GameMode::Spectator, rest)),
            _ => Err(DeserializeErr::UnknownTag(id as i64)),
        }
    }
}

/// What follows the end credits.
#[derive(Debug, Clone, Copy, PartialEq, Eq, Structural)]
pub enum WinGameAction {
    Respawn,
    RollCreditsAndRespawn,
}

impl WinGameAction {
    pub open spec fn spec_id(m: WinGameAction) -> u8 {
        match m {
            WinGameAction::Respawn => 0,
            WinGameAction::RollCreditsAndRespawn => 1,
        }
    }

    pub open spec fn spec_of_id(id: u8) -> Option<WinGameAction> {
        match id {
            0 => Some(WinGameAction::Respawn),
            1 => Some(WinGameAction::RollCreditsAndRespawn),
            _ => None,
        }
    }

    /// The discriminant written for this variant.
    pub fn id(&self) -> (r: u8)
        ensures
            r == Self::spec_id(*self),
    {
        match self {
            WinGameAction::Respawn => 0,
            WinGameAction::RollCreditsAndRespawn => 1,
        }
    }
}

impl Codec for WinGameAction {
    type Model = WinGameAction;

    open spec fn model(&self) -> WinGameAction {
        *self
    }

    open spec fn encodable(m: WinGameAction) -> bool {
        true
    }

    open spec fn legal(m: WinGameAction) -> bool {
        true
    }

    open spec fn spec_serialize(m: WinGameAction) -> Seq<u8> {
        seq![Self::spec_id(m)]
    }

    /// A discriminant that names no variant is an error carrying it.
    open spec fn spec_deserialize(s: Seq<u8>) -> SpecResult<WinGameAction> {
        match u8::spec_deserialize(s) {
            Err(e) => Err(e),
            Ok((id, rest)) => match Self::spec_of_id(id) {
                Some(v) => Ok((v, rest)),
                None => Err(DeserializeErr::UnknownTag(id as i64)),
            },
        }
    }

    proof fn lemma_round_trip(m: WinGameAction, rest: Seq<u8>) {
        u8::lemma_round_trip(Self::spec_id(m), rest);
    }

    fn mc_serialize(&self, to: &mut Vec<u8>) {
        to.push(self.id());
    }

    fn mc_deserialize(data: &[u8]) -> (r: Result<(Self, &[u8]), DeserializeErr>) {
        let (id, rest) = u8::mc_deserialize(data)?;
        match id {
            0 => Ok((WinGameAction::Respawn, rest)),
            1 => Ok((WinGameAction::RollCreditsAndRespawn, rest)),
            _ => Err(DeserializeErr::UnknownTag(id as i64)),
        }
    }
}

/// A demo-mode message.
#[derive(Debug, Clone, Copy, PartialEq, Eq, Structural)]
pub enum DemoEvent {
    ShowWelcomeScreen,
    TellMovementControls,
    TellJumpControl,
    TellInventoryControl,
    EndDemo,
}

impl DemoEvent {
    pub open spec fn spec_id(m: DemoEvent) -> u8 {
        match m {
            DemoEvent::ShowWelcomeScreen => 0,
            DemoEvent::TellMovementControls => 101,
            DemoEvent::TellJumpControl => 102,
            DemoEvent::TellInventoryControl => 103,
            DemoEvent::EndDemo => 104,
        }
    }

    pub open spec fn spec_of_id(id: u8) -> Option<DemoEvent> {
        match id {
            0 => Some(DemoEvent::ShowWelcomeScreen),
            101 => Some(DemoEvent::TellMovementControls),
            102 => Some(DemoEvent::TellJumpControl),
            103 => Some(DemoEvent::TellInventoryControl),
            104 => Some(DemoEvent::EndDemo),
            _ => None,
        }
    }

    /// The discriminant written for this variant.
    pub fn id(&self) -> (r: u8)
        ensures
            r == Self::spec_id(*self),
    {
        match self {
            DemoEvent::ShowWelcomeScreen => 0,
            DemoEvent::TellMovementControls => 101,
            DemoEvent::TellJumpControl => 102,
            DemoEvent::TellInventoryControl => 103,
            DemoEvent::EndDemo => 104,
        }
    }
}

impl Codec for DemoEvent {
    type Model = DemoEvent;

    open spec fn model(&self) -> DemoEvent {
        *self
    }

    open spec fn encodable(m: DemoEvent) -> bool {
        true
    }

    open spec fn legal(m: DemoEvent) -> bool {
        true
    }

    open spec fn spec_serialize(m: DemoEvent) -> Seq<u8> {
        seq![Self::spec_id(m)]
    }

    /// A discriminant that names no variant is an error carrying it.
    open spec fn spec_deserialize(s: Seq<u8>) -> SpecResult<DemoEvent> {
        match u8::spec_deserialize(s) {
            Err(e) => Err(e),
            Ok((id, rest)) => match Self::spec_of_id(id) {
                Some(v) => Ok((v, rest)),
                None => Err(DeserializeErr::UnknownTag(id as i64)),
            },
        }
    }

    proof fn lemma_round_trip(m: DemoEvent, rest: Seq<u8>) {
        u8::lemma_round_trip(Self::spec_id(m), rest);
    }

    fn mc_serialize(&self, to: &mut Vec<u8>) {
        to.push(self.id());
    }

    fn mc_deserialize(data: &[u8]) -> (r: Result<(Self, &[u8]), DeserializeErr>) {
        let (id, rest) = u8::mc_deserialize(data)?;
        match id {
            0 => Ok((DemoEvent::ShowWelcomeScreen, rest)),
            101 => Ok((DemoEvent::TellMovementControls, rest)),
            102 => Ok((DemoEvent::TellJumpControl, rest)),
            103 => Ok((DemoEvent::TellInventoryControl, rest)),
            104 => Ok((DemoEvent::EndDemo, rest)),
            _ => Err(DeserializeErr::UnknownTag(id as i64)),
        }
    }
}

/// How a respawn is offered.
#[derive(Debug, Clone, Copy, PartialEq, Eq, Structural)]
pub enum RespawnRequestType {
    Screen,
    Immediate,
}

impl RespawnRequestType {
    pub open spec fn spec_id(m: RespawnRequestType) -> u8 {
        match m {
            RespawnRequestType::Screen => 0,
            RespawnRequestType::Immediate => 1,
        }
    }

    pub open spec fn spec_of_id(id: u8) -> Option<RespawnRequestType> {
        match id {
            0 => Some(RespawnRequestType::Screen),
            1 => Some(RespawnRequestType::Immediate),
            _ => None,
        }
    }

    /// The discriminant written for this variant.
    pub fn id(&self) -> (r: u8)
        ensures
            r == Self::spec_id(*self),
    {
        match self {
            RespawnRequestType::Screen => 0,
            RespawnRequestType::Immediate => 1,
        }
    }
}

impl Codec for RespawnRequestType {
    type Model = RespawnRequestType;

    open spec fn model(&self) -> RespawnRequestType {
        *self
    }

    open spec fn encodable(m: RespawnRequestType) -> bool {
        true
    }

    open spec fn legal(m: RespawnRequestType) -> bool {
        true
    }

    open spec fn spec_serialize(m: RespawnRequestType) -> Seq<u8> {
        seq![Self::spec_id(m)]
    }

    /// A discriminant that names no variant is an error carrying it.
    open spec fn spec_deserialize(s: Seq<u8>) -> SpecResult<RespawnRequestType> {
        match u8::spec_deserialize(s) {
            Err(e) => Err(e),
            Ok((id, rest)) => match Self::spec_of_id(id) {
                Some(v) => Ok((v, rest)),
                None => Err(DeserializeErr::UnknownTag(id as i64)),
            },
        }
    }

    proof fn lemma_round_trip(m: RespawnRequestType, rest: Seq<u8>) {
        u8::lemma_round_trip(Self::spec_id(m), rest);
    }

    fn mc_serialize(&self, to: &mut Vec<u8>) {
        to.push(self.id());
    }

    fn mc_deserialize(data: &[u8]) -> (r: Result<(Self, &[u8]), DeserializeErr>) {
        let (id, rest) = u8::mc_deserialize(data)?;
        match id {
            0 => Ok((RespawnRequestType::Screen, rest)),
            1 => Ok((RespawnRequestType::Immediate, rest)),
            _ => Err(DeserializeErr::UnknownTag(id as i64)),
        }
    }
}

/// A stop-sound request as values.
pub struct StopSoundModel {
    pub source: Option<SoundCategory>,
    pub sound: Option<Seq<char>>,
}

/// Stops sounds by category, by name, or both. A flag byte says which
/// follow: bit 0 the category, bit 1 the name; they follow in that order.
#[derive(Debug, Clone, PartialEq, Eq)]
pub struct StopSoundSpec {
    pub source: Option<SoundCategory>,
    pub sound: Option<String>,
}

impl Codec for StopSoundSpec {
    type Model = StopSoundModel;

    open spec fn model(&self) -> StopSoundModel {
        StopSoundModel { source: self.source, sound: self.sound.model() }
    }

    open spec fn encodable(m: StopSoundModel) -> bool {
        Option::<String>::encodable(m.sound)
    }

    open spec fn legal(m: StopSoundModel) -> bool {
        Option::<String>::legal(m.sound)
    }

    open spec fn spec_serialize(m: StopSoundModel) -> Seq<u8> {
        seq![presence_byte(m.source is Some, m.sound is Some)] + spec_opt_bytes::<SoundCategory>(
            m.source,
        ) + spec_opt_bytes::<String>(m.sound)
    }

    open spec fn spec_deserialize(s: Seq<u8>) -> SpecResult<StopSoundModel> {
        match u8::spec_deserialize(s) {
            Err(e) => Err(e),
            Ok((f, r)) => match spec_read_if::<SoundCategory>(f % 2 == 1, r) {
                Err(e) => Err(e),
                Ok((source, r2)) => match spec_read_if::<String>((f / 2) % 2 == 1, r2) {
                    Err(e) => Err(e),
                    Ok((sound, r3)) => Ok((StopSoundModel { source, sound }, r3)),
                },
            },
        }
    }

    proof fn lemma_round_trip(m: StopSoundModel, rest: Seq<u8>) {
        let f = presence_byte(m.source is Some, m.sound is Some);
        let t2 = spec_opt_bytes::<String>(m.sound) + rest;
        let t1 = spec_opt_bytes::<SoundCategory>(m.source) + t2;
        assert(Self::spec_serialize(m) + rest =~= seq![f] + t1);
        u8::lemma_round_trip(f, t1);
        lemma_read_if_round_trip::<SoundCategory>(m.source, t2);
        lemma_read_if_round_trip::<String>(m.sound, rest);
    }

    fn mc_serialize(&self, to: &mut Vec<u8>) {
        let ghost start = to@;
        let mut flags: u8 = 0;
        if self.sound.is_some() {
            flags = flags + 0x02;
        }
        if self.source.is_some() {
            flags = flags + 0x01;
        }
        to.push(flags);
        write_opt(&self.source, to);
        write_opt(&self.sound, to);
        assert(to@ =~= start + Self::spec_serialize(self.model()));
    }

    fn mc_deserialize(data: &[u8]) -> (r: Result<(Self, &[u8]), DeserializeErr>) {
        let (flags, rest) = u8::mc_deserialize(data)?;
        let (source, rest) = read_if::<SoundCategory>(flags % 2 == 1, rest)?;
        let (sound, rest) = read_if::<String>((flags / 2) % 2 == 1, rest)?;
        Ok((StopSoundSpec { source, sound }, rest))
    }
}

/// What happens to a score: set to a value, or removed.
#[derive(Debug, Clone, Copy, PartialEq, Eq, Structural)]
pub enum UpdateScoreAction {
    Upsert(VarInt),
    Remove,
}

impl UpdateScoreAction {
    pub open spec fn spec_id(m: UpdateScoreAction) -> u8 {
        match m {
            UpdateScoreAction::Upsert(_) => 0,
            UpdateScoreAction::Remove => 1,
        }
    }

    pub open spec fn spec_body(m: UpdateScoreAction) -> Seq<u8> {
        match m {
            UpdateScoreAction::Upsert(v) => spec_varint_serialize(v.0),
            UpdateScoreAction::Remove => Seq::empty(),
        }
    }

    /// The variant that `id` names, with its payload read from `s`.
    pub open spec fn spec_with_id(id: u8, s: Seq<u8>) -> SpecResult<UpdateScoreAction> {
        if id == 0 {
            match spec_varint_deserialize(s) {
                Err(e) => Err(e),
                Ok((v, r)) => Ok((UpdateScoreAction::Upsert(VarInt(v)), r)),
            }
        } else if id == 1 {
            Ok((UpdateScoreAction::Remove, s))
        } else {
            Err(DeserializeErr::UnknownTag(id as i64))
        }
    }

    pub proof fn lemma_body_round_trip(m: UpdateScoreAction, rest: Seq<u8>)
        ensures
            Self::spec_with_id(Self::spec_id(m), Self::spec_body(m) + rest) == Ok::<
                (UpdateScoreAction, Seq<u8>),
                DeserializeErr,
            >((m, rest)),
    {
        match m {
            UpdateScoreAction::Upsert(v) => VarInt::lemma_round_trip(v.0, rest),
            UpdateScoreAction::Remove => assert(Seq::<u8>::empty() + rest =~= rest),
        }
    }

    pub fn id(&self) -> (r: u8)
        ensures
            r == Self::spec_id(*self),
    {
        match self {
            UpdateScoreAction::Upsert(_) => 0,
            UpdateScoreAction::Remove => 1,
        }
    }

    pub fn serialize_body(&self, to: &mut Vec<u8>)
        ensures
            final(to)@ == old(to)@ + Self::spec_body(*self),
    {
        match self {
            UpdateScoreAction::Upsert(v) => v.mc_serialize(to),
            UpdateScoreAction::Remove => assert(to@ =~= to@ + Seq::<u8>::empty()),
        }
    }

    pub fn deserialize_with_id(id: u8, data: &[u8]) -> (r: Result<
        (UpdateScoreAction, &[u8]),
        DeserializeErr,
    >)
        ensures
            read_matches(r, |v: UpdateScoreAction| v, Self::spec_with_id(id, data@)),
    {
        if id == 0 {
            let (v, rest) = VarInt::mc_deserialize(data)?;
            Ok((UpdateScoreAction::Upsert(v), rest))
        } else if id == 1 {
            Ok((UpdateScoreAction::Remove, data))
        } else {
            Err(DeserializeErr::UnknownTag(id as i64))
        }
    }
}

/// A score update as values.
pub struct UpdateScoreModel {
    pub objective_name: Seq<char>,
    pub action: UpdateScoreAction,
}

/// A score update. On the wire the action's discriminant comes first, then
/// the objective name, then the action's payload.
#[derive(Debug, Clone, PartialEq, Eq)]
pub struct UpdateScoreSpec {
    pub objective_name: String,
    pub action: UpdateScoreAction,
}

impl Codec for UpdateScoreSpec {
    type Model = UpdateScoreModel;

    open spec fn model(&self) -> UpdateScoreModel {
        UpdateScoreModel { objective_name: self.objective_name@, action: self.action }
    }

    open spec fn encodable(m: UpdateScoreModel) -> bool {
        String::encodable(m.objective_name)
    }

    open spec fn legal(m: UpdateScoreModel) -> bool {
        String::legal(m.objective_name)
    }

    open spec fn spec_serialize(m: UpdateScoreModel) -> Seq<u8> {
        seq![UpdateScoreAction::spec_id(m.action)] + spec_string_serialize(m.objective_name)
            + UpdateScoreAction::spec_body(m.action)
    }

    open spec fn spec_deserialize(s: Seq<u8>) -> SpecResult<UpdateScoreModel> {
        match u8::spec_deserialize(s) {
            Err(e) => Err(e),
            Ok((id, r)) => match spec_string_deserialize(r) {
                Err(e) => Err(e),
                Ok((objective_name, r2)) => match UpdateScoreAction::spec_with_id(id, r2) {
                    Err(e) => Err(e),
                    Ok((action, r3)) => Ok((UpdateScoreModel { objective_name, action }, r3)),
                },
            },
        }
    }

    proof fn lemma_round_trip(m: UpdateScoreModel, rest: Seq<u8>) {
        let id = UpdateScoreAction::spec_id(m.action);
        let t2 = UpdateScoreAction::spec_body(m.action) + rest;
        let t1 = spec_string_serialize(m.objective_name) + t2;
        assert(Self::spec_serialize(m) + rest =~= seq![id] + t1);
        u8::lemma_round_trip(id, t1);
        String::lemma_round_trip(m.objective_name, t2);
        UpdateScoreAction::lemma_body_round_trip(m.action, rest);
    }

    fn mc_serialize(&self, to: &mut Vec<u8>) {
        let ghost start = to@;
        to.push(self.action.id());
        self.objective_name.mc_serialize(to);
        self.action.serialize_body(to);
        assert(to@ =~= start + Self::spec_serialize(self.model()));
    }

    fn mc_deserialize(data: &[u8]) -> (r: Result<(Self, &[u8]), DeserializeErr>) {
        let (action_id, rest) = u8::mc_deserialize(data)?;
        let (objective_name, rest) = String::mc_deserialize(rest)?;
        let (action, rest) = UpdateScoreAction::deserialize_with_id(action_id, rest)?;
        Ok((UpdateScoreSpec { objective_name, action }, rest))
    }
}

/// Advancement display flags as values.
pub struct AdvancementDisplayFlagsModel {
    pub background_texture: Option<Seq<char>>,
    pub show_toast: bool,
    pub hidden: bool,
}

/// A big-endian `i32` of flags (bit 0 a background texture follows, bit 1
/// show a toast, bit 2 hidden), then the texture name when bit 0 is set.
#[derive(Debug, Clone, PartialEq, Eq)]
pub struct AdvancementDisplayFlags {
    pub background_texture: Option<String>,
    pub show_toast: bool,
    pub hidden: bool,
}

pub open spec fn advancement_flags(m: AdvancementDisplayFlagsModel) -> i32 {
    ((if m.background_texture is Some { 1int } else { 0int }) + (if m.show_toast {
        2int
    } else {
        0int
    }) + (if m.hidden { 4int } else { 0int })) as i32
}

pub open spec fn flag_bit(raw: i32, k: nat) -> bool {
    ((raw as u32) as nat / k) % 2 == 1
}

impl Codec for AdvancementDisplayFlags {
    type Model = AdvancementDisplayFlagsModel;

    open spec fn model(&self) -> AdvancementDisplayFlagsModel {
        AdvancementDisplayFlagsModel {
            background_texture: self.background_texture.model(),
            show_toast: self.show_toast,
            hidden: self.hidden,
        }
    }

    open spec fn encodable(m: AdvancementDisplayFlagsModel) -> bool {
        Option::<String>::encodable(m.background_texture)
    }

    open spec fn legal(m: AdvancementDisplayFlagsModel) -> bool {
        Option::<String>::legal(m.background_texture)
    }

    open spec fn spec_serialize(m: AdvancementDisplayFlagsModel) -> Seq<u8> {
        i32::spec_serialize(advancement_flags(m)) + spec_opt_bytes::<String>(m.background_texture)
    }

    /// Bits that name no flag are ignored.
    open spec fn spec_deserialize(s: Seq<u8>) -> SpecResult<AdvancementDisplayFlagsModel> {
        match i32::spec_deserialize(s) {
            Err(e) => Err(e),
            Ok((raw, r)) => match spec_read_if::<String>(flag_bit(raw, 1), r) {
                Err(e) => Err(e),
                Ok((background_texture, r2)) => Ok(
                    (
                        AdvancementDisplayFlagsModel {
                            background_texture,
                            show_toast: flag_bit(raw, 2),
                            hidden: flag_bit(raw, 4),
                        },
                        r2,
                    ),
                ),
            },
        }
    }

    proof fn lemma_round_trip(m: AdvancementDisplayFlagsModel, rest: Seq<u8>) {
        let raw = advancement_flags(m);
        let t1 = spec_opt_bytes::<String>(m.background_texture) + rest;
        i32::lemma_round_trip(raw, t1);
        lemma_read_if_round_trip::<String>(m.background_texture, rest);
        let a: int = if m.background_texture is Some { 1 } else { 0 };
        let b: int = if m.show_toast { 1 } else { 0 };
        let c: int = if m.hidden { 1 } else { 0 };
        assert(raw == a + 2 * b + 4 * c);
        assert((raw as u32) as nat == raw);
        assert(((a + 2 * b + 4 * c) / 1) % 2 == a && ((a + 2 * b + 4 * c) / 2) % 2 == b && ((a + 2 * b
            + 4 * c) / 4) % 2 == c) by (nonlinear_arith)
            requires
                0 <= a < 2 && 0 <= b < 2 && 0 <= c < 2,
        ;
        assert(flag_bit(raw, 1) == (m.background_texture is Some));
        assert(flag_bit(raw, 2) == m.show_toast);
        assert(flag_bit(raw, 4) == m.hidden);
        assert(i32::spec_deserialize(i32::spec_serialize(raw) + t1) == Ok::<(i32, Seq<u8>), DeserializeErr>((raw, t1)));
        assert(Self::spec_serialize(m) + rest =~= i32::spec_serialize(raw) + t1);
    }

    fn mc_serialize(&self, to: &mut Vec<u8>) {
        let ghost start = to@;
        let mut raw_flags: i32 = 0;
        if self.background_texture.is_some() {
            raw_flags = raw_flags + 0x01;
        }
        if self.show_toast {
            raw_flags = raw_flags + 0x02;
        }
        if self.hidden {
            raw_flags = raw_flags + 0x04;
        }
        raw_flags.mc_serialize(to);
        write_opt(&self.background_texture, to);
        assert(to@ =~= start + Self::spec_serialize(self.model()));
    }

    fn mc_deserialize(data: &[u8]) -> (r: Result<(Self, &[u8]), DeserializeErr>) {
        let (raw_flags, rest) = i32::mc_deserialize(data)?;
        let bits = raw_flags as u32;
        let (background_texture, rest) = read_if::<String>(bits % 2 == 1, rest)?;
        Ok((
            AdvancementDisplayFlags {
                background_texture,
                show_toast: (bits / 2) % 2 == 1,
                hidden: (bits / 4) % 2 == 1,
            },
            rest,
        ))
    }
}

/// A horizontal position inside a chunk section: two numbers below 16
/// packed into one byte, `x` in the high half.
#[derive(Debug, Clone, Copy, PartialEq, Eq, Structural)]
pub struct BlockChangeHorizontalPosition {
    pub rel_x: u8,
    pub rel_z: u8,
}

impl Codec for BlockChangeHorizontalPosition {
    type Model = BlockChangeHorizontalPosition;

    open spec fn model(&self) -> BlockChangeHorizontalPosition {
        *self
    }

    open spec fn encodable(m: BlockChangeHorizontalPosition) -> bool {
        true
    }

    /// Only the low four bits of each coordinate are written.
    open spec fn legal(m: BlockChangeHorizontalPosition) -> bool {
        m.rel_x < 16 && m.rel_z < 16
    }

    open spec fn spec_serialize(m: BlockChangeHorizontalPosition) -> Seq<u8> {
        seq![((m.rel_x % 16) * 16 + m.rel_z % 16) as u8]
    }

    open spec fn spec_deserialize(s: Seq<u8>) -> SpecResult<BlockChangeHorizontalPosition> {
        match u8::spec_deserialize(s) {
            Err(e) => Err(e),
            Ok((b, r)) => Ok((BlockChangeHorizontalPosition { rel_x: b / 16, rel_z: b % 16 }, r)),
        }
    }

    proof fn lemma_round_trip(m: BlockChangeHorizontalPosition, rest: Seq<u8>) {
        let b = ((m.rel_x % 16) * 16 + m.rel_z % 16) as u8;
        u8::lemma_round_trip(b, rest);
    }

    fn mc_serialize(&self, to: &mut Vec<u8>) {
        to.push((self.rel_x % 16) * 16 + self.rel_z % 16);
    }

    fn mc_deserialize(data: &[u8]) -> (r: Result<(Self, &[u8]), DeserializeErr>) {
        let (b, rest) = u8::mc_deserialize(data)?;
        Ok((BlockChangeHorizontalPosition { rel_x: b / 16, rel_z: b % 16 }, rest))
    }
}

/// The handshake that opens a connection, as values.
pub struct HandshakeModel {
    pub version: i32,
    pub server_address: Seq<char>,
    pub server_port: u16,
    pub next_state: HandshakeNextState,
}

/// The handshake that opens a connection and picks the next state.
#[derive(Debug, Clone, PartialEq, Eq)]
pub struct HandshakeSpec {
    pub version: VarInt,
    pub server_address: String,
    pub server_port: u16,
    pub next_state: HandshakeNextState,
}

impl Codec for HandshakeSpec {
    type Model = HandshakeModel;

    open spec fn model(&self) -> HandshakeModel {
        HandshakeModel {
            version: self.version.0,
            server_address: self.server_address@,
            server_port: self.server_port,
            next_state: self.next_state,
        }
    }

    open spec fn encodable(m: HandshakeModel) -> bool {
        String::encodable(m.server_address)
    }

    open spec fn legal(m: HandshakeModel) -> bool {
        String::legal(m.server_address)
    }

    open spec fn spec_serialize(m: HandshakeModel) -> Seq<u8> {
        spec_varint_serialize(m.version) + spec_string_serialize(m.server_address)
            + u16::spec_serialize(m.server_port) + HandshakeNextState::spec_serialize(m.next_state)
    }

    open spec fn spec_deserialize(s: Seq<u8>) -> SpecResult<HandshakeModel> {
        match spec_varint_deserialize(s) {
            Err(e) => Err(e),
            Ok((version, r)) => match spec_string_deserialize(r) {
                Err(e) => Err(e),
                Ok((server_address, r2)) => match u16::spec_deserialize(r2) {
                    Err(e) => Err(e),
                    Ok((server_port, r3)) => match HandshakeNextState::spec_deserialize(r3) {
                        Err(e) => Err(e),
                        Ok((next_state, r4)) => Ok(
                            (HandshakeModel { version, server_address, server_port, next_state }, r4),
                        ),
                    },
                },
            },
        }
    }

    proof fn lemma_round_trip(m: HandshakeModel, rest: Seq<u8>) {
        let t3 = HandshakeNextState::spec_serialize(m.next_state) + rest;
        let t2 = u16::spec_serialize(m.server_port) + t3;
        let t1 = spec_string_serialize(m.server_address) + t2;
        assert(Self::spec_serialize(m) + rest =~= spec_varint_serialize(m.version) + t1);
        VarInt::lemma_round_trip(m.version, t1);
        String::lemma_round_trip(m.server_address, t2);
        u16::lemma_round_trip(m.server_port, t3);
        HandshakeNextState::lemma_round_trip(m.next_state, rest);
    }

    fn mc_serialize(&self, to: &mut Vec<u8>) {
        let ghost start = to@;
        self.version.mc_serialize(to);
        self.server_address.mc_serialize(to);
        self.server_port.mc_serialize(to);
        self.next_state.mc_serialize(to);
        assert(to@ =~= start + Self::spec_serialize(self.model()));
    }

    fn mc_deserialize(data: &[u8]) -> (r: Result<(Self, &[u8]), DeserializeErr>) {
        let (version, rest) = VarInt::mc_deserialize(data)?;
        let (server_address, rest) = String::mc_deserialize(rest)?;
        let (server_port, rest) = u16::mc_deserialize(rest)?;
        let (next_state, rest) = HandshakeNextState::mc_deserialize(rest)?;
        Ok((HandshakeSpec { version, server_address, server_port, next_state }, rest))
    }
}

/// A rectangle of map pixels as values.
pub struct MapColumnsSpecModel {
    pub columns: u8,
    pub rows: u8,
    pub x: u8,
    pub z: u8,
    pub data: Seq<u8>,
}

/// A rectangle of map pixels that changed.
#[derive(Debug, Clone, PartialEq, Eq)]
pub struct MapColumnsSpec {
    pub columns: u8,
    pub rows: u8,
    pub x: u8,
    pub z: u8,
    pub data: VarIntCountedArray<u8>,
}

impl Codec for MapColumnsSpec {
    type Model = MapColumnsSpecModel;

    open spec fn model(&self) -> MapColumnsSpecModel {
        MapColumnsSpecModel {
            columns: self.columns,
            rows: self.rows,
            x: self.x,
            z: self.z,
            data: self.data.model(),
        }
    }

    open spec fn encodable(m: MapColumnsSpecModel) -> bool {
        VarIntCountedArray::<u8>::encodable(m.data)
    }

    open spec fn legal(m: MapColumnsSpecModel) -> bool {
        VarIntCountedArray::<u8>::legal(m.data)
    }

    open spec fn spec_serialize(m: MapColumnsSpecModel) -> Seq<u8> {
        seq![m.columns, m.rows, m.x, m.z] + VarIntCountedArray::<u8>::spec_serialize(m.data)
    }

    open spec fn spec_deserialize(s: Seq<u8>) -> SpecResult<MapColumnsSpecModel> {
        if s.len() < 4 {
            Err(DeserializeErr::Eof)
        } else {
            match VarIntCountedArray::<u8>::spec_deserialize(s.skip(4)) {
                Err(e) => Err(e),
                Ok((data, r)) => Ok(
                    (MapColumnsSpecModel { columns: s[0], rows: s[1], x: s[2], z: s[3], data }, r),
                ),
            }
        }
    }

    proof fn lemma_round_trip(m: MapColumnsSpecModel, rest: Seq<u8>) {
        let t = VarIntCountedArray::<u8>::spec_serialize(m.data) + rest;
        assert((Self::spec_serialize(m) + rest).skip(4) =~= t);
        VarIntCountedArray::<u8>::lemma_round_trip(m.data, rest);
    }

    fn mc_serialize(&self, to: &mut Vec<u8>) {
        let ghost start = to@;
        to.push(self.columns);
        to.push(self.rows);
        to.push(self.x);
        to.push(self.z);
        self.data.mc_serialize(to);
        assert(to@ =~= start + Self::spec_serialize(self.model()));
    }

    fn mc_deserialize(data: &[u8]) -> (r: Result<(Self, &[u8]), DeserializeErr>) {
        let (head, rest) = take_bytes(data, 4)?;
        let (cells, rest) = VarIntCountedArray::<u8>::mc_deserialize(rest)?;
        Ok((MapColumnsSpec { columns: head[0], rows: head[1], x: head[2], z: head[3], data: cells }, rest))
    }
}

/// Map pixel changes as values.
pub enum MapColumnsModel {
    NoUpdates,
    Updated(MapColumnsSpecModel),
}

/// Map pixel changes: a zero column count stands for none, and any other
/// count starts the changed rectangle.
#[derive(Debug, Clone, PartialEq, Eq)]
pub enum MapColumns {
    NoUpdates,
    Updated(MapColumnsSpec),
}

impl MapColumns {
    pub fn into_option(self) -> (r: Option<MapColumnsSpec>)
        ensures
            match self {
                MapColumns::NoUpdates => r is None,
                MapColumns::Updated(body) => r == Some(body),
            },
    {
        match self {
            MapColumns::NoUpdates => None,
            MapColumns::Updated(body) => Some(body),
        }
    }

    pub fn from_option(other: Option<MapColumnsSpec>) -> (r: MapColumns)
        ensures
            match other {
                None => r is NoUpdates,
                Some(body) => r == MapColumns::Updated(body),
            },
    {
        match other {
            Some(body) => MapColumns::Updated(body),
            None => MapColumns::NoUpdates,
        }
    }
}

impl Codec for MapColumns {
    type Model = MapColumnsModel;

    open spec fn model(&self) -> MapColumnsModel {
        match self {
            MapColumns::NoUpdates => MapColumnsModel::NoUpdates,
            MapColumns::Updated(body) => MapColumnsModel::Updated(body.model()),
        }
    }

    open spec fn encodable(m: MapColumnsModel) -> bool {
        match m {
            MapColumnsModel::NoUpdates => true,
            MapColumnsModel::Updated(body) => MapColumnsSpec::encodable(body),
        }
    }

    /// A changed rectangle with no columns would read back as no change.
    open spec fn legal(m: MapColumnsModel) -> bool {
        match m {
            MapColumnsModel::NoUpdates => true,
            MapColumnsModel::Updated(body) => MapColumnsSpec::legal(body) && body.columns != 0,
        }
    }

    open spec fn spec_serialize(m: MapColumnsModel) -> Seq<u8> {
        match m {
            MapColumnsModel::NoUpdates => seq![0u8],
            MapColumnsModel::Updated(body) => MapColumnsSpec::spec_serialize(body),
        }
    }

    open spec fn spec_deserialize(s: Seq<u8>) -> SpecResult<MapColumnsModel> {
        match u8::spec_deserialize(s) {
            Err(e) => Err(e),
            Ok((columns, r)) => if columns == 0 {
                Ok((MapColumnsModel::NoUpdates, r))
            } else {
                match MapColumnsSpec::spec_deserialize(s) {
                    Err(e) => Err(e),
                    Ok((body, r2)) => Ok((MapColumnsModel::Updated(body), r2)),
                }
            },
        }
    }

    proof fn lemma_round_trip(m: MapColumnsModel, rest: Seq<u8>) {
        match m {
            MapColumnsModel::NoUpdates => u8::lemma_round_trip(0u8, rest),
            MapColumnsModel::Updated(body) => {
                MapColumnsSpec::lemma_round_trip(body, rest);
                assert((MapColumnsSpec::spec_serialize(body) + rest)[0] == body.columns);
            },
        }
    }

    fn mc_serialize(&self, to: &mut Vec<u8>) {
        match self {
            MapColumns::NoUpdates => to.push(0u8),
            MapColumns::Updated(body) => body.mc_serialize(to),
        }
    }

    fn mc_deserialize(data: &[u8]) -> (r: Result<(Self, &[u8]), DeserializeErr>) {
        let (columns, rest) = u8::mc_deserialize(data)?;
        if columns == 0 {
            Ok((MapColumns::NoUpdates, rest))
        } else {
            let (body, rest) = MapColumnsSpec::mc_deserialize(data)?;
            Ok((MapColumns::Updated(body), rest))
        }
    }
}

/// A team member as values.
pub enum TeamMemberModel {
    Player(Seq<char>),
    Entity(u128),
}

/// A team member, told apart by the text alone: a string in the
/// identifier's text form names an entity, any other names a player.
#[derive(Debug, Clone, PartialEq, Eq)]
pub enum TeamMember {
    Player(String),
    Entity(UUID4),
}

impl Codec for TeamMember {
    type Model = TeamMemberModel;

    open spec fn model(&self) -> TeamMemberModel {
        match self {
            TeamMember::Player(name) => TeamMemberModel::Player(name@),
            TeamMember::Entity(id) => TeamMemberModel::Entity(id.raw),
        }
    }

    open spec fn encodable(m: TeamMemberModel) -> bool {
        match m {
            TeamMemberModel::Player(name) => String::encodable(name),
            TeamMemberModel::Entity(_) => true,
        }
    }

    /// A player whose name reads as an identifier would come back as an
    /// entity.
    open spec fn legal(m: TeamMemberModel) -> bool {
        match m {
            TeamMemberModel::Player(name) => String::legal(name) && spec_uuid_parse(
                encode_utf8(name),
            ) is None,
            TeamMemberModel::Entity(_) => true,
        }
    }

    open spec fn spec_serialize(m: TeamMemberModel) -> Seq<u8> {
        match m {
            TeamMemberModel::Player(name) => spec_string_serialize(name),
            TeamMemberModel::Entity(x) => spec_varint_serialize(36) + uuid_text(x),
        }
    }

    open spec fn spec_deserialize(s: Seq<u8>) -> SpecResult<TeamMemberModel> {
        match spec_string_deserialize(s) {
            Err(e) => Err(e),
            Ok((t, r)) => match spec_uuid_parse(encode_utf8(t)) {
                Some(x) => Ok((TeamMemberModel::Entity(x), r)),
                None => Ok((TeamMemberModel::Player(t), r)),
            },
        }
    }

    proof fn lemma_round_trip(m: TeamMemberModel, rest: Seq<u8>) {
        match m {
            TeamMemberModel::Player(name) => {
                String::lemma_round_trip(name, rest);
            },
            TeamMemberModel::Entity(x) => {
                reveal(spec_string_deserialize);
                let t = uuid_text(x);
                lemma_uuid_text_round_trip(x);
                assert(Self::spec_serialize(m) + rest =~= spec_varint_serialize(36) + (t + rest));
                VarInt::lemma_round_trip(36, t + rest);
                lemma_take_concat(t, rest);
            },
        }
    }

    fn mc_serialize(&self, to: &mut Vec<u8>) {
        match self {
            TeamMember::Player(username) => username.mc_serialize(to),
            TeamMember::Entity(entity_id) => {
                let ghost start = to@;
                VarInt(36).mc_serialize(to);
                let text = entity_id.text_bytes();
                let ghost mid = to@;
                to.extend_from_slice(text.as_slice());
                assert(to@ =~= mid + text@);
                assert(to@ =~= start + Self::spec_serialize(self.model()));
            },
        }
    }

    fn mc_deserialize(data: &[u8]) -> (r: Result<(Self, &[u8]), DeserializeErr>) {
        let (raw, rest) = String::mc_deserialize(data)?;
        match UUID4::parse(raw.as_str()) {
            Some(entity_id) => Ok((TeamMember::Entity(entity_id), rest)),
            None => Ok((TeamMember::Player(raw), rest)),
        }
    }
}

/// One player's entry in a player-list update: the player's identifier,
/// then the action's own fields.
#[derive(Debug, Clone, PartialEq, Eq)]
pub struct PlayerInfoAction<A> {
    pub uuid: UUID4,
    pub action: A,
}

impl<A: Codec> Codec for PlayerInfoAction<A> {
    type Model = (u128, A::Model);

    open spec fn model(&self) -> (u128, A::Model) {
        (self.uuid.raw, self.action.model())
    }

    open spec fn encodable(m: (u128, A::Model)) -> bool {
        A::encodable(m.1)
    }

    open spec fn legal(m: (u128, A::Model)) -> bool {
        A::legal(m.1)
    }

    open spec fn spec_serialize(m: (u128, A::Model)) -> Seq<u8> {
        UUID4::spec_serialize(m.0) + A::spec_serialize(m.1)
    }

    open spec fn spec_deserialize(s: Seq<u8>) -> SpecResult<(u128, A::Model)> {
        match UUID4::spec_deserialize(s) {
            Err(e) => Err(e),
            Ok((uuid, r)) => match A::spec_deserialize(r) {
                Err(e) => Err(e),
                Ok((action, r2)) => Ok(((uuid, action), r2)),
            },
        }
    }

    proof fn lemma_round_trip(m: (u128, A::Model), rest: Seq<u8>) {
        let t = A::spec_serialize(m.1) + rest;
        assert(Self::spec_serialize(m) + rest =~= UUID4::spec_serialize(m.0) + t);
        UUID4::lemma_round_trip(m.0, t);
        A::lemma_round_trip(m.1, rest);
    }

    fn mc_serialize(&self, to: &mut Vec<u8>) {
        let ghost start = to@;
        self.uuid.mc_serialize(to);
        self.action.mc_serialize(to);
        assert(to@ =~= start + Self::spec_serialize(self.model()));
    }

    fn mc_deserialize(data: &[u8]) -> (r: Result<(Self, &[u8]), DeserializeErr>) {
        let (uuid, rest) = UUID4::mc_deserialize(data)?;
        let (action, rest) = A::mc_deserialize(rest)?;
        Ok((PlayerInfoAction { uuid, action }, rest))
    }
}

} // verus!
