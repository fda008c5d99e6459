//! The body of every message in the catalogue, each a fixed sequence of
//! fields in the order the protocol gives them.
use vstd::prelude::*;
use vstd::seq_lib::lemma_concat_associative;
use crate::codec::{Codec, DeserializeErr, SpecResult, read_matches};
use crate::bodies::{GameMode, MapColumns, SoundCategory, StopSoundSpec, TeamMember, UpdateScoreSpec};
use crate::catalogue::{AdvancementMappingEntrySpec, AdvancementProgressEntrySpec, AdvancementTabAction, Angle, BlockEntityDataAction, BossBarAction, CardinalDirection, ChatPosition, ClientChatMode, ClientDisplayedSkinParts, ClientMainHand, ClientPlayerAbilities, ClientStatusAction, CombatEvent, CommandBlockFlags, CommandBlockMode, Difficulty, DiggingFace, DiggingStatus, Dimension, EntityActionKind, EntityAnimationKind, EntityEffectFlags, EntityEffectKind, EntityPropertySpec, EquipmentSlot, ExplosionRecord, FacePlayerEntityTarget, FacePlayerKind, FixedInt, Hand, InteractKind, InventoryOperationMode, MapIconSpec, MultiBlockChangeRecord, PlayerAbilityFlags, PlayerDiggingStatus, PlayerInfoActionList, PositionAndLookFlags, RecipeBookStatus, RecipeUnlockAction, ResourcePackStatus, ScoreboardObjectiveAction, ScoreboardPosition, Statistic, StatusSpec, SteerVehicleFlags, TabCompleteMatch, TagSpec, TeamAction, TitleActionSpec, TradeSpec, UpdateStructureBlockAction, UpdateStructureBlockFlags, UpdateStructureBlockMirror, UpdateStructureBlockMode, UpdateStructureBlockRotation, WindowType, WorldBorderAction};
use crate::chunk::{ChunkData};
use crate::commands::{CommandNodeSpec};
use crate::containers::{ByteCountedArray, IntCountedArray, RemainingBytes, ShortCountedArray, VarIntCountedArray};
use crate::lighting::{LightingUpdateSpec};
use crate::metadata::{Chat, EntityMetadata, IntPosition};
use crate::nbt::{NamedNbtTag};
use crate::primitives::{Float32, Float64, UUID4};
use crate::recipes::{RecipeSpec, Slot};
use crate::varnum::{VarInt, VarLong};

verus! {

/// The body of the status request message, as values.
pub struct StatusRequestSpecModel {}

/// The body of the status request message.
#[derive(Debug, Clone, Copy, PartialEq, Eq)]
pub struct StatusRequestSpec {}

impl Codec for StatusRequestSpec {
    type Model = StatusRequestSpecModel;

    open spec fn model(&self) -> StatusRequestSpecModel {
        StatusRequestSpecModel {}
    }

    open spec fn encodable(m: StatusRequestSpecModel) -> bool {
        true
    }

    open spec fn legal(m: StatusRequestSpecModel) -> bool {
        true
    }

    /// No bytes at all.
    open spec fn spec_serialize(m: StatusRequestSpecModel) -> Seq<u8> {
        Seq::empty()
    }

    open spec fn spec_deserialize(s: Seq<u8>) -> SpecResult<StatusRequestSpecModel> {
        Ok((StatusRequestSpecModel {}, s))
    }

    proof fn lemma_round_trip(m: StatusRequestSpecModel, rest: Seq<u8>) {
        assert(Seq::<u8>::empty() + rest =~= rest);
    }

    fn mc_serialize(&self, to: &mut Vec<u8>) {
        assert(to@ =~= to@ + Seq::<u8>::empty());
    }

    fn mc_deserialize(data: &[u8]) -> (r: Result<(Self, &[u8]), DeserializeErr>) {
        Ok((StatusRequestSpec {}, data))
    }
}

/// The body of the status ping message, as values.
pub struct StatusPingSpecModel {
    pub payload: <i64 as Codec>::Model,
}

/// The body of the status ping message
#[derive(Debug, Clone, PartialEq, Eq)]
pub struct StatusPingSpec {
    pub payload: i64,
}

impl Codec for StatusPingSpec {
    type Model = StatusPingSpecModel;

    open spec fn model(&self) -> StatusPingSpecModel {
        StatusPingSpecModel { payload: self.payload.model() }
    }

    open spec fn encodable(m: StatusPingSpecModel) -> bool {
        i64::encodable(m.payload)
    }

    open spec fn legal(m: StatusPingSpecModel) -> bool {
        i64::legal(m.payload)
    }

    open spec fn spec_serialize(m: StatusPingSpecModel) -> Seq<u8> {
        i64::spec_serialize(m.payload)
    }

    open spec fn spec_deserialize(s: Seq<u8>) -> SpecResult<StatusPingSpecModel> {
        match i64::spec_deserialize(s) {
            Err(e) => Err(e),
            Ok((payload, r1)) => Ok((StatusPingSpecModel { payload }, r1)),
        }
    }

    proof fn lemma_round_trip(m: StatusPingSpecModel, rest: Seq<u8>) {
        i64::lemma_round_trip(m.payload, rest);
    }

    fn mc_serialize(&self, to: &mut Vec<u8>) {
        let ghost start = to@;
        self.payload.mc_serialize(to);
        assert(to@ =~= start + Self::spec_serialize(self.model()));
    }

    fn mc_deserialize(data: &[u8]) -> (r: Result<(Self, &[u8]), DeserializeErr>) {
        let (payload, rest) = i64::mc_deserialize(data)?;
        Ok((StatusPingSpec { payload }, rest))
    }
}

/// The body of the status response message, as values.
pub struct StatusResponseSpecModel {
    pub response: <StatusSpec as Codec>::Model,
}

/// The body of the status response message
#[derive(Debug, Clone, PartialEq, Eq)]
pub struct StatusResponseSpec {
    pub response: StatusSpec,
}

impl Codec for StatusResponseSpec {
    type Model = StatusResponseSpecModel;

    open spec fn model(&self) -> StatusResponseSpecModel {
        StatusResponseSpecModel { response: self.response.model() }
    }

    open spec fn encodable(m: StatusResponseSpecModel) -> bool {
        StatusSpec::encodable(m.response)
    }

    open spec fn legal(m: StatusResponseSpecModel) -> bool {
        StatusSpec::legal(m.response)
    }

    open spec fn spec_serialize(m: StatusResponseSpecModel) -> Seq<u8> {
        StatusSpec::spec_serialize(m.response)
    }

    open spec fn spec_deserialize(s: Seq<u8>) -> SpecResult<StatusResponseSpecModel> {
        match StatusSpec::spec_deserialize(s) {
            Err(e) => Err(e),
            Ok((response, r1)) => Ok((StatusResponseSpecModel { response }, r1)),
        }
    }

    proof fn lemma_round_trip(m: StatusResponseSpecModel, rest: Seq<u8>) {
        StatusSpec::lemma_round_trip(m.response, rest);
    }

    fn mc_serialize(&self, to: &mut Vec<u8>) {
        let ghost start = to@;
        self.response.mc_serialize(to);
        assert(to@ =~= start + Self::spec_serialize(self.model()));
    }

    fn mc_deserialize(data: &[u8]) -> (r: Result<(Self, &[u8]), DeserializeErr>) {
        let (response, rest) = StatusSpec::mc_deserialize(data)?;
        Ok((StatusResponseSpec { response }, rest))
    }
}

/// The body of the status pong message, as values.
pub struct StatusPongSpecModel {
    pub payload: <i64 as Codec>::Model,
}

/// The body of the status pong message
#[derive(Debug, Clone, PartialEq, Eq)]
pub struct StatusPongSpec {
    pub payload: i64,
}

impl Codec for StatusPongSpec {
    type Model = StatusPongSpecModel;

    open spec fn model(&self) -> StatusPongSpecModel {
        StatusPongSpecModel { payload: self.payload.model() }
    }

    open spec fn encodable(m: StatusPongSpecModel) -> bool {
        i64::encodable(m.payload)
    }

    open spec fn legal(m: StatusPongSpecModel) -> bool {
        i64::legal(m.payload)
    }

    open spec fn spec_serialize(m: StatusPongSpecModel) -> Seq<u8> {
        i64::spec_serialize(m.payload)
    }

    open spec fn spec_deserialize(s: Seq<u8>) -> SpecResult<StatusPongSpecModel> {
        match i64::spec_deserialize(s) {
            Err(e) => Err(e),
            Ok((payload, r1)) => Ok((StatusPongSpecModel { payload }, r1)),
        }
    }

    proof fn lemma_round_trip(m: StatusPongSpecModel, rest: Seq<u8>) {
        i64::lemma_round_trip(m.payload, rest);
    }

    fn mc_serialize(&self, to: &mut Vec<u8>) {
        let ghost start = to@;
        self.payload.mc_serialize(to);
        assert(to@ =~= start + Self::spec_serialize(self.model()));
    }

    fn mc_deserialize(data: &[u8]) -> (r: Result<(Self, &[u8]), DeserializeErr>) {
        let (payload, rest) = i64::mc_deserialize(data)?;
        Ok((StatusPongSpec { payload }, rest))
    }
}

/// The body of the login disconnect message, as values.
pub struct LoginDisconnectSpecModel {
    pub message: <Chat as Codec>::Model,
}

/// The body of the login disconnect message
#[derive(Debug, Clone, PartialEq, Eq)]
pub struct LoginDisconnectSpec {
    pub message: Chat,
}

impl Codec for LoginDisconnectSpec {
    type Model = LoginDisconnectSpecModel;

    open spec fn model(&self) -> LoginDisconnectSpecModel {
        LoginDisconnectSpecModel { message: self.message.model() }
    }

    open spec fn encodable(m: LoginDisconnectSpecModel) -> bool {
        Chat::encodable(m.message)
    }

    open spec fn legal(m: LoginDisconnectSpecModel) -> bool {
        Chat::legal(m.message)
    }

    open spec fn spec_serialize(m: LoginDisconnectSpecModel) -> Seq<u8> {
        Chat::spec_serialize(m.message)
    }

    open spec fn spec_deserialize(s: Seq<u8>) -> SpecResult<LoginDisconnectSpecModel> {
        match Chat::spec_deserialize(s) {
            Err(e) => Err(e),
            Ok((message, r1)) => Ok((LoginDisconnectSpecModel { message }, r1)),
        }
    }

    proof fn lemma_round_trip(m: LoginDisconnectSpecModel, rest: Seq<u8>) {
        Chat::lemma_round_trip(m.message, rest);
    }

    fn mc_serialize(&self, to: &mut Vec<u8>) {
        let ghost start = to@;
        self.message.mc_serialize(to);
        assert(to@ =~= start + Self::spec_serialize(self.model()));
    }

    fn mc_deserialize(data: &[u8]) -> (r: Result<(Self, &[u8]), DeserializeErr>) {
        let (message, rest) = Chat::mc_deserialize(data)?;
        Ok((LoginDisconnectSpec { message }, rest))
    }
}

/// The body of the login encryption request message, as values.
pub struct LoginEncryptionRequestSpecModel {
    pub server_id: <String as Codec>::Model,
    pub public_key: <VarIntCountedArray<u8> as Codec>::Model,
    pub verify_token: <VarIntCountedArray<u8> as Codec>::Model,
}

/// The body of the login encryption request message
#[derive(Debug, Clone, PartialEq, Eq)]
pub struct LoginEncryptionRequestSpec {
    pub server_id: String,
    pub public_key: VarIntCountedArray<u8>,
    pub verify_token: VarIntCountedArray<u8>,
}

impl Codec for LoginEncryptionRequestSpec {
    type Model = LoginEncryptionRequestSpecModel;

    open spec fn model(&self) -> LoginEncryptionRequestSpecModel {
        LoginEncryptionRequestSpecModel { server_id: self.server_id.model(), public_key: self.public_key.model(), verify_token: self.verify_token.model() }
    }

    open spec fn encodable(m: LoginEncryptionRequestSpecModel) -> bool {
        String::encodable(m.server_id) && VarIntCountedArray::<u8>::encodable(m.public_key) && VarIntCountedArray::<u8>::encodable(m.verify_token)
    }

    open spec fn legal(m: LoginEncryptionRequestSpecModel) -> bool {
        String::legal(m.server_id) && VarIntCountedArray::<u8>::legal(m.public_key) && VarIntCountedArray::<u8>::legal(m.verify_token)
    }

    open spec fn spec_serialize(m: LoginEncryptionRequestSpecModel) -> Seq<u8> {
        String::spec_serialize(m.server_id) + VarIntCountedArray::<u8>::spec_serialize(m.public_key) + VarIntCountedArray::<u8>::spec_serialize(m.verify_token)
    }

    open spec fn spec_deserialize(s: Seq<u8>) -> SpecResult<LoginEncryptionRequestSpecModel> {
        match String::spec_deserialize(s) {
            Err(e) => Err(e),
            Ok((server_id, r1)) => match VarIntCountedArray::<u8>::spec_deserialize(r1) {
                Err(e) => Err(e),
                Ok((public_key, r2)) => match VarIntCountedArray::<u8>::spec_deserialize(r2) {
                    Err(e) => Err(e),
                    Ok((verify_token, r3)) => Ok((LoginEncryptionRequestSpecModel { server_id, public_key, verify_token }, r3)),
                },
            },
        }
    }

    proof fn lemma_round_trip(m: LoginEncryptionRequestSpecModel, rest: Seq<u8>) {
        let t2 = VarIntCountedArray::<u8>::spec_serialize(m.verify_token) + rest;
        let t1 = VarIntCountedArray::<u8>::spec_serialize(m.public_key) + t2;
        let p1 = String::spec_serialize(m.server_id);
        let p2 = p1 + VarIntCountedArray::<u8>::spec_serialize(m.public_key);
        let p3 = p2 + VarIntCountedArray::<u8>::spec_serialize(m.verify_token);
        assert(Self::spec_serialize(m) == p3);
        lemma_concat_associative(p2, VarIntCountedArray::<u8>::spec_serialize(m.verify_token), rest);
        lemma_concat_associative(p1, VarIntCountedArray::<u8>::spec_serialize(m.public_key), t2);
        String::lemma_round_trip(m.server_id, t1);
        VarIntCountedArray::<u8>::lemma_round_trip(m.public_key, t2);
        VarIntCountedArray::<u8>::lemma_round_trip(m.verify_token, rest);
    }

    fn mc_serialize(&self, to: &mut Vec<u8>) {
        let ghost start = to@;
        self.server_id.mc_serialize(to);
        self.public_key.mc_serialize(to);
        proof {
            lemma_concat_associative(start, String::spec_serialize(self.server_id.model()), VarIntCountedArray::<u8>::spec_serialize(self.public_key.model()));
        }
        self.verify_token.mc_serialize(to);
        proof {
            lemma_concat_associative(start, String::spec_serialize(self.server_id.model()) + VarIntCountedArray::<u8>::spec_serialize(self.public_key.model()), VarIntCountedArray::<u8>::spec_serialize(self.verify_token.model()));
        }
        assert(to@ =~= start + Self::spec_serialize(self.model()));
    }

    fn mc_deserialize(data: &[u8]) -> (r: Result<(Self, &[u8]), DeserializeErr>) {
        let (server_id, rest) = String::mc_deserialize(data)?;
        let (public_key, rest) = VarIntCountedArray::<u8>::mc_deserialize(rest)?;
        let (verify_token, rest) = VarIntCountedArray::<u8>::mc_deserialize(rest)?;
        Ok((LoginEncryptionRequestSpec { server_id, public_key, verify_token }, rest))
    }
}

/// The body of the login success message, as values.
pub struct LoginSuccessSpecModel {
    pub uuid_string: <String as Codec>::Model,
    pub username: <String as Codec>::Model,
}

/// The body of the login success message
#[derive(Debug, Clone, PartialEq, Eq)]
pub struct LoginSuccessSpec {
    pub uuid_string: String,
    pub username: String,
}

impl Codec for LoginSuccessSpec {
    type Model = LoginSuccessSpecModel;

    open spec fn model(&self) -> LoginSuccessSpecModel {
        LoginSuccessSpecModel { uuid_string: self.uuid_string.model(), username: self.username.model() }
    }

    open spec fn encodable(m: LoginSuccessSpecModel) -> bool {
        String::encodable(m.uuid_string) && String::encodable(m.username)
    }

    open spec fn legal(m: LoginSuccessSpecModel) -> bool {
        String::legal(m.uuid_string) && String::legal(m.username)
    }

    open spec fn spec_serialize(m: LoginSuccessSpecModel) -> Seq<u8> {
        String::spec_serialize(m.uuid_string) + String::spec_serialize(m.username)
    }

    open spec fn spec_deserialize(s: Seq<u8>) -> SpecResult<LoginSuccessSpecModel> {
        match String::spec_deserialize(s) {
            Err(e) => Err(e),
            Ok((uuid_string, r1)) => match String::spec_deserialize(r1) {
                Err(e) => Err(e),
                Ok((username, r2)) => Ok((LoginSuccessSpecModel { uuid_string, username }, r2)),
            },
        }
    }

    proof fn lemma_round_trip(m: LoginSuccessSpecModel, rest: Seq<u8>) {
        let t1 = String::spec_serialize(m.username) + rest;
        let p1 = String::spec_serialize(m.uuid_string);
        let p2 = p1 + String::spec_serialize(m.username);
        assert(Self::spec_serialize(m) == p2);
        lemma_concat_associative(p1, String::spec_serialize(m.username), rest);
        String::lemma_round_trip(m.uuid_string, t1);
        String::lemma_round_trip(m.username, rest);
    }

    fn mc_serialize(&self, to: &mut Vec<u8>) {
        let ghost start = to@;
        self.uuid_string.mc_serialize(to);
        self.username.mc_serialize(to);
        proof {
            lemma_concat_associative(start, String::spec_serialize(self.uuid_string.model()), String::spec_serialize(self.username.model()));
        }
        assert(to@ =~= start + Self::spec_serialize(self.model()));
    }

    fn mc_deserialize(data: &[u8]) -> (r: Result<(Self, &[u8]), DeserializeErr>) {
        let (uuid_string, rest) = String::mc_deserialize(data)?;
        let (username, rest) = String::mc_deserialize(rest)?;
        Ok((LoginSuccessSpec { uuid_string, username }, rest))
    }
}

/// The body of the login set compression message, as values.
pub struct LoginSetCompressionSpecModel {
    pub threshold: <VarInt as Codec>::Model,
}

/// The body of the login set compression message
#[derive(Debug, Clone, PartialEq, Eq)]
pub struct LoginSetCompressionSpec {
    pub threshold: VarInt,
}

impl Codec for LoginSetCompressionSpec {
    type Model = LoginSetCompressionSpecModel;

    open spec fn model(&self) -> LoginSetCompressionSpecModel {
        LoginSetCompressionSpecModel { threshold: self.threshold.model() }
    }

    open spec fn encodable(m: LoginSetCompressionSpecModel) -> bool {
        VarInt::encodable(m.threshold)
    }

    open spec fn legal(m: LoginSetCompressionSpecModel) -> bool {
        VarInt::legal(m.threshold)
    }

    open spec fn spec_serialize(m: LoginSetCompressionSpecModel) -> Seq<u8> {
        VarInt::spec_serialize(m.threshold)
    }

    open spec fn spec_deserialize(s: Seq<u8>) -> SpecResult<LoginSetCompressionSpecModel> {
        match VarInt::spec_deserialize(s) {
            Err(e) => Err(e),
            Ok((threshold, r1)) => Ok((LoginSetCompressionSpecModel { threshold }, r1)),
        }
    }

    proof fn lemma_round_trip(m: LoginSetCompressionSpecModel, rest: Seq<u8>) {
        VarInt::lemma_round_trip(m.threshold, rest);
    }

    fn mc_serialize(&self, to: &mut Vec<u8>) {
        let ghost start = to@;
        self.threshold.mc_serialize(to);
        assert(to@ =~= start + Self::spec_serialize(self.model()));
    }

    fn mc_deserialize(data: &[u8]) -> (r: Result<(Self, &[u8]), DeserializeErr>) {
        let (threshold, rest) = VarInt::mc_deserialize(data)?;
        Ok((LoginSetCompressionSpec { threshold }, rest))
    }
}

/// The body of the login plugin request message, as values.
pub struct LoginPluginRequestSpecModel {
    pub message_id: <VarInt as Codec>::Model,
    pub channel: <String as Codec>::Model,
    pub data: Seq<u8>,
}

/// The body of the login plugin request message. The last field takes every remaining byte.
#[derive(Debug, Clone, PartialEq, Eq)]
pub struct LoginPluginRequestSpec {
    pub message_id: VarInt,
    pub channel: String,
    pub data: RemainingBytes,
}

impl LoginPluginRequestSpec {
    pub open spec fn spec_model(&self) -> LoginPluginRequestSpecModel {
        LoginPluginRequestSpecModel { message_id: self.message_id.model(), channel: self.channel.model(), data: self.data.data@ }
    }

    pub open spec fn legal(m: LoginPluginRequestSpecModel) -> bool {
        VarInt::legal(m.message_id) && String::legal(m.channel)
    }

    pub open spec fn encodable(m: LoginPluginRequestSpecModel) -> bool {
        VarInt::encodable(m.message_id) && String::encodable(m.channel)
    }

    pub open spec fn spec_serialize(m: LoginPluginRequestSpecModel) -> Seq<u8> {
        VarInt::spec_serialize(m.message_id) + String::spec_serialize(m.channel) + m.data
    }

    /// The fields in order; the last takes all that is left.
    pub open spec fn spec_deserialize(s: Seq<u8>) -> SpecResult<LoginPluginRequestSpecModel> {
        match VarInt::spec_deserialize(s) {
            Err(e) => Err(e),
            Ok((message_id, r1)) => match String::spec_deserialize(r1) {
                Err(e) => Err(e),
                Ok((channel, r2)) => Ok((LoginPluginRequestSpecModel { message_id, channel, data: r2 }, Seq::empty())),
            },
        }
    }

    /// A body reads back from its own encoding.
    #[verifier::rlimit(100)]
    #[verifier::spinoff_prover]
    pub proof fn lemma_round_trip(m: LoginPluginRequestSpecModel)
        requires
            Self::legal(m),
        ensures
            Self::encodable(m),
            Self::spec_deserialize(Self::spec_serialize(m)) == Ok::<(LoginPluginRequestSpecModel, Seq<u8>), DeserializeErr>(
                (m, Seq::empty()),
            ),
    {
        let t1 = String::spec_serialize(m.channel) + m.data;
        assert(Self::spec_serialize(m) =~= VarInt::spec_serialize(m.message_id) + t1);
        VarInt::lemma_round_trip(m.message_id, t1);
        String::lemma_round_trip(m.channel, m.data);
    }

    pub fn mc_serialize(&self, to: &mut Vec<u8>)
        requires
            Self::encodable(self.spec_model()),
        ensures
            final(to)@ == old(to)@ + Self::spec_serialize(self.spec_model()),
    {
        let ghost start = to@;
        self.message_id.mc_serialize(to);
        self.channel.mc_serialize(to);
        self.data.mc_serialize(to);
        assert(to@ =~= start + Self::spec_serialize(self.spec_model()));
    }

    pub fn mc_deserialize(data: &[u8]) -> (r: Result<(LoginPluginRequestSpec, &[u8]), DeserializeErr>)
        ensures
            read_matches(r, |v: LoginPluginRequestSpec| v.spec_model(), Self::spec_deserialize(data@)),
    {
        let (message_id, rest) = VarInt::mc_deserialize(data)?;
        let (channel, rest) = String::mc_deserialize(rest)?;
        let (data, rest) = RemainingBytes::mc_deserialize(rest)?;
        assert(rest@ =~= Seq::<u8>::empty());
        Ok((LoginPluginRequestSpec { message_id, channel, data }, rest))
    }
}

/// The body of the login start message, as values.
pub struct LoginStartSpecModel {
    pub name: <String as Codec>::Model,
}

/// The body of the login start message
#[derive(Debug, Clone, PartialEq, Eq)]
pub struct LoginStartSpec {
    pub name: String,
}

impl Codec for LoginStartSpec {
    type Model = LoginStartSpecModel;

    open spec fn model(&self) -> LoginStartSpecModel {
        LoginStartSpecModel { name: self.name.model() }
    }

    open spec fn encodable(m: LoginStartSpecModel) -> bool {
        String::encodable(m.name)
    }

    open spec fn legal(m: LoginStartSpecModel) -> bool {
        String::legal(m.name)
    }

    open spec fn spec_serialize(m: LoginStartSpecModel) -> Seq<u8> {
        String::spec_serialize(m.name)
    }

    open spec fn spec_deserialize(s: Seq<u8>) -> SpecResult<LoginStartSpecModel> {
        match String::spec_deserialize(s) {
            Err(e) => Err(e),
            Ok((name, r1)) => Ok((LoginStartSpecModel { name }, r1)),
        }
    }

    proof fn lemma_round_trip(m: LoginStartSpecModel, rest: Seq<u8>) {
        String::lemma_round_trip(m.name, rest);
    }

    fn mc_serialize(&self, to: &mut Vec<u8>) {
        let ghost start = to@;
        self.name.mc_serialize(to);
        assert(to@ =~= start + Self::spec_serialize(self.model()));
    }

    fn mc_deserialize(data: &[u8]) -> (r: Result<(Self, &[u8]), DeserializeErr>) {
        let (name, rest) = String::mc_deserialize(data)?;
        Ok((LoginStartSpec { name }, rest))
    }
}

/// The body of the login encryption response message, as values.
pub struct LoginEncryptionResponseSpecModel {
    pub shared_secret: <VarIntCountedArray<u8> as Codec>::Model,
    pub verify_token: <VarIntCountedArray<u8> as Codec>::Model,
}

/// The body of the login encryption response message
#[derive(Debug, Clone, PartialEq, Eq)]
pub struct LoginEncryptionResponseSpec {
    pub shared_secret: VarIntCountedArray<u8>,
    pub verify_token: VarIntCountedArray<u8>,
}

impl Codec for LoginEncryptionResponseSpec {
    type Model = LoginEncryptionResponseSpecModel;

    open spec fn model(&self) -> LoginEncryptionResponseSpecModel {
        LoginEncryptionResponseSpecModel { shared_secret: self.shared_secret.model(), verify_token: self.verify_token.model() }
    }

    open spec fn encodable(m: LoginEncryptionResponseSpecModel) -> bool {
        VarIntCountedArray::<u8>::encodable(m.shared_secret) && VarIntCountedArray::<u8>::encodable(m.verify_token)
    }

    open spec fn legal(m: LoginEncryptionResponseSpecModel) -> bool {
        VarIntCountedArray::<u8>::legal(m.shared_secret) && VarIntCountedArray::<u8>::legal(m.verify_token)
    }

    open spec fn spec_serialize(m: LoginEncryptionResponseSpecModel) -> Seq<u8> {
        VarIntCountedArray::<u8>::spec_serialize(m.shared_secret) + VarIntCountedArray::<u8>::spec_serialize(m.verify_token)
    }

    open spec fn spec_deserialize(s: Seq<u8>) -> SpecResult<LoginEncryptionResponseSpecModel> {
        match VarIntCountedArray::<u8>::spec_deserialize(s) {
            Err(e) => Err(e),
            Ok((shared_secret, r1)) => match VarIntCountedArray::<u8>::spec_deserialize(r1) {
                Err(e) => Err(e),
                Ok((verify_token, r2)) => Ok((LoginEncryptionResponseSpecModel { shared_secret, verify_token }, r2)),
            },
        }
    }

    proof fn lemma_round_trip(m: LoginEncryptionResponseSpecModel, rest: Seq<u8>) {
        let t1 = VarIntCountedArray::<u8>::spec_serialize(m.verify_token) + rest;
        let p1 = VarIntCountedArray::<u8>::spec_serialize(m.shared_secret);
        let p2 = p1 + VarIntCountedArray::<u8>::spec_serialize(m.verify_token);
        assert(Self::spec_serialize(m) == p2);
        lemma_concat_associative(p1, VarIntCountedArray::<u8>::spec_serialize(m.verify_token), rest);
        VarIntCountedArray::<u8>::lemma_round_trip(m.shared_secret, t1);
        VarIntCountedArray::<u8>::lemma_round_trip(m.verify_token, rest);
    }

    fn mc_serialize(&self, to: &mut Vec<u8>) {
        let ghost start = to@;
        self.shared_secret.mc_serialize(to);
        self.verify_token.mc_serialize(to);
        proof {
            lemma_concat_associative(start, VarIntCountedArray::<u8>::spec_serialize(self.shared_secret.model()), VarIntCountedArray::<u8>::spec_serialize(self.verify_token.model()));
        }
        assert(to@ =~= start + Self::spec_serialize(self.model()));
    }

    fn mc_deserialize(data: &[u8]) -> (r: Result<(Self, &[u8]), DeserializeErr>) {
        let (shared_secret, rest) = VarIntCountedArray::<u8>::mc_deserialize(data)?;
        let (verify_token, rest) = VarIntCountedArray::<u8>::mc_deserialize(rest)?;
        Ok((LoginEncryptionResponseSpec { shared_secret, verify_token }, rest))
    }
}

/// The body of the login plugin response message, as values.
pub struct LoginPluginResponseSpecModel {
    pub message_id: <VarInt as Codec>::Model,
    pub successful: <bool as Codec>::Model,
    pub data: Seq<u8>,
}

/// The body of the login plugin response message. The last field takes every remaining byte.
#[derive(Debug, Clone, PartialEq, Eq)]
pub struct LoginPluginResponseSpec {
    pub message_id: VarInt,
    pub successful: bool,
    pub data: RemainingBytes,
}

impl LoginPluginResponseSpec {
    pub open spec fn spec_model(&self) -> LoginPluginResponseSpecModel {
        LoginPluginResponseSpecModel { message_id: self.message_id.model(), successful: self.successful.model(), data: self.data.data@ }
    }

    pub open spec fn legal(m: LoginPluginResponseSpecModel) -> bool {
        VarInt::legal(m.message_id) && bool::legal(m.successful)
    }

    pub open spec fn encodable(m: LoginPluginResponseSpecModel) -> bool {
        VarInt::encodable(m.message_id) && bool::encodable(m.successful)
    }

    pub open spec fn spec_serialize(m: LoginPluginResponseSpecModel) -> Seq<u8> {
        VarInt::spec_serialize(m.message_id) + bool::spec_serialize(m.successful) + m.data
    }

    /// The fields in order; the last takes all that is left.
    pub open spec fn spec_deserialize(s: Seq<u8>) -> SpecResult<LoginPluginResponseSpecModel> {
        match VarInt::spec_deserialize(s) {
            Err(e) => Err(e),
            Ok((message_id, r1)) => match bool::spec_deserialize(r1) {
                Err(e) => Err(e),
                Ok((successful, r2)) => Ok((LoginPluginResponseSpecModel { message_id, successful, data: r2 }, Seq::empty())),
            },
        }
    }

    /// A body reads back from its own encoding.
    #[verifier::rlimit(100)]
    #[verifier::spinoff_prover]
    pub proof fn lemma_round_trip(m: LoginPluginResponseSpecModel)
        requires
            Self::legal(m),
        ensures
            Self::encodable(m),
            Self::spec_deserialize(Self::spec_serialize(m)) == Ok::<(LoginPluginResponseSpecModel, Seq<u8>), DeserializeErr>(
                (m, Seq::empty()),
            ),
    {
        let t1 = bool::spec_serialize(m.successful) + m.data;
        assert(Self::spec_serialize(m) =~= VarInt::spec_serialize(m.message_id) + t1);
        VarInt::lemma_round_trip(m.message_id, t1);
        bool::lemma_round_trip(m.successful, m.data);
    }

    pub fn mc_serialize(&self, to: &mut Vec<u8>)
        requires
            Self::encodable(self.spec_model()),
        ensures
            final(to)@ == old(to)@ + Self::spec_serialize(self.spec_model()),
    {
        let ghost start = to@;
        self.message_id.mc_serialize(to);
        self.successful.mc_serialize(to);
        self.data.mc_serialize(to);
        assert(to@ =~= start + Self::spec_serialize(self.spec_model()));
    }

    pub fn mc_deserialize(data: &[u8]) -> (r: Result<(LoginPluginResponseSpec, &[u8]), DeserializeErr>)
        ensures
            read_matches(r, |v: LoginPluginResponseSpec| v.spec_model(), Self::spec_deserialize(data@)),
    {
        let (message_id, rest) = VarInt::mc_deserialize(data)?;
        let (successful, rest) = bool::mc_deserialize(rest)?;
        let (data, rest) = RemainingBytes::mc_deserialize(rest)?;
        assert(rest@ =~= Seq::<u8>::empty());
        Ok((LoginPluginResponseSpec { message_id, successful, data }, rest))
    }
}

/// The body of the play spawn entity message, as values.
pub struct PlaySpawnEntitySpecModel {
    pub entity_id: <VarInt as Codec>::Model,
    pub object_uuid: <UUID4 as Codec>::Model,
    pub entity_type: <VarInt as Codec>::Model,
    pub x: <Float64 as Codec>::Model,
    pub y: <Float64 as Codec>::Model,
    pub z: <Float64 as Codec>::Model,
    pub pitch: <Angle as Codec>::Model,
    pub yaw: <Angle as Codec>::Model,
    pub data: <i32 as Codec>::Model,
    pub velocity_x: <i16 as Codec>::Model,
    pub velocity_y: <i16 as Codec>::Model,
    pub velocity_z: <i16 as Codec>::Model,
}

/// The body of the play spawn entity message
#[derive(Debug, Clone, PartialEq, Eq)]
pub struct PlaySpawnEntitySpec {
    pub entity_id: VarInt,
    pub object_uuid: UUID4,
    pub entity_type: VarInt,
    pub x: Float64,
    pub y: Float64,
    pub z: Float64,
    pub pitch: Angle,
    pub yaw: Angle,
    pub data: i32,
    pub velocity_x: i16,
    pub velocity_y: i16,
    pub velocity_z: i16,
}

impl Codec for PlaySpawnEntitySpec {
    type Model = PlaySpawnEntitySpecModel;

    open spec fn model(&self) -> PlaySpawnEntitySpecModel {
        PlaySpawnEntitySpecModel { entity_id: self.entity_id.model(), object_uuid: self.object_uuid.model(), entity_type: self.entity_type.model(), x: self.x.model(), y: self.y.model(), z: self.z.model(), pitch: self.pitch.model(), yaw: self.yaw.model(), data: self.data.model(), velocity_x: self.velocity_x.model(), velocity_y: self.velocity_y.model(), velocity_z: self.velocity_z.model() }
    }

    open spec fn encodable(m: PlaySpawnEntitySpecModel) -> bool {
        VarInt::encodable(m.entity_id) && UUID4::encodable(m.object_uuid) && VarInt::encodable(m.entity_type) && Float64::encodable(m.x) && Float64::encodable(m.y) && Float64::encodable(m.z) && Angle::encodable(m.pitch) && Angle::encodable(m.yaw) && i32::encodable(m.data) && i16::encodable(m.velocity_x) && i16::encodable(m.velocity_y) && i16::encodable(m.velocity_z)
    }

    open spec fn legal(m: PlaySpawnEntitySpecModel) -> bool {
        VarInt::legal(m.entity_id) && UUID4::legal(m.object_uuid) && VarInt::legal(m.entity_type) && Float64::legal(m.x) && Float64::legal(m.y) && Float64::legal(m.z) && Angle::legal(m.pitch) && Angle::legal(m.yaw) && i32::legal(m.data) && i16::legal(m.velocity_x) && i16::legal(m.velocity_y) && i16::legal(m.velocity_z)
    }

    open spec fn spec_serialize(m: PlaySpawnEntitySpecModel) -> Seq<u8> {
        VarInt::spec_serialize(m.entity_id) + UUID4::spec_serialize(m.object_uuid) + VarInt::spec_serialize(m.entity_type) + Float64::spec_serialize(m.x) + Float64::spec_serialize(m.y) + Float64::spec_serialize(m.z) + Angle::spec_serialize(m.pitch) + Angle::spec_serialize(m.yaw) + i32::spec_serialize(m.data) + i16::spec_serialize(m.velocity_x) + i16::spec_serialize(m.velocity_y) + i16::spec_serialize(m.velocity_z)
    }

    open spec fn spec_deserialize(s: Seq<u8>) -> SpecResult<PlaySpawnEntitySpecModel> {
        match VarInt::spec_deserialize(s) {
            Err(e) => Err(e),
            Ok((entity_id, r1)) => match UUID4::spec_deserialize(r1) {
                Err(e) => Err(e),
                Ok((object_uuid, r2)) => match VarInt::spec_deserialize(r2) {
                    Err(e) => Err(e),
                    Ok((entity_type, r3)) => match Float64::spec_deserialize(r3) {
                        Err(e) => Err(e),
                        Ok((x, r4)) => match Float64::spec_deserialize(r4) {
                            Err(e) => Err(e),
                            Ok((y, r5)) => match Float64::spec_deserialize(r5) {
                                Err(e) => Err(e),
                                Ok((z, r6)) => match Angle::spec_deserialize(r6) {
                                    Err(e) => Err(e),
                                    Ok((pitch, r7)) => match Angle::spec_deserialize(r7) {
                                        Err(e) => Err(e),
                                        Ok((yaw, r8)) => match i32::spec_deserialize(r8) {
                                            Err(e) => Err(e),
                                            Ok((data, r9)) => match i16::spec_deserialize(r9) {
                                                Err(e) => Err(e),
                                                Ok((velocity_x, r10)) => match i16::spec_deserialize(r10) {
                                                    Err(e) => Err(e),
                                                    Ok((velocity_y, r11)) => match i16::spec_deserialize(r11) {
                                                        Err(e) => Err(e),
                                                        Ok((velocity_z, r12)) => Ok((PlaySpawnEntitySpecModel { entity_id, object_uuid, entity_type, x, y, z, pitch, yaw, data, velocity_x, velocity_y, velocity_z }, r12)),
                                                    },
                                                },
                                            },
                                        },
                                    },
                                },
                            },
                        },
                    },
                },
            },
        }
    }

    #[verifier::rlimit(100)]
    #[verifier::spinoff_prover]
    proof fn lemma_round_trip(m: PlaySpawnEntitySpecModel, rest: Seq<u8>) {
        let t11 = i16::spec_serialize(m.velocity_z) + rest;
        let t10 = i16::spec_serialize(m.velocity_y) + t11;
        let t9 = i16::spec_serialize(m.velocity_x) + t10;
        let t8 = i32::spec_serialize(m.data) + t9;
        let t7 = Angle::spec_serialize(m.yaw) + t8;
        let t6 = Angle::spec_serialize(m.pitch) + t7;
        let t5 = Float64::spec_serialize(m.z) + t6;
        let t4 = Float64::spec_serialize(m.y) + t5;
        let t3 = Float64::spec_serialize(m.x) + t4;
        let t2 = VarInt::spec_serialize(m.entity_type) + t3;
        let t1 = UUID4::spec_serialize(m.object_uuid) + t2;
        let p1 = VarInt::spec_serialize(m.entity_id);
        let p2 = p1 + UUID4::spec_serialize(m.object_uuid);
        let p3 = p2 + VarInt::spec_serialize(m.entity_type);
        let p4 = p3 + Float64::spec_serialize(m.x);
        let p5 = p4 + Float64::spec_serialize(m.y);
        let p6 = p5 + Float64::spec_serialize(m.z);
        let p7 = p6 + Angle::spec_serialize(m.pitch);
        let p8 = p7 + Angle::spec_serialize(m.yaw);
        let p9 = p8 + i32::spec_serialize(m.data);
        let p10 = p9 + i16::spec_serialize(m.velocity_x);
        let p11 = p10 + i16::spec_serialize(m.velocity_y);
        let p12 = p11 + i16::spec_serialize(m.velocity_z);
        assert(Self::spec_serialize(m) == p12);
        lemma_concat_associative(p11, i16::spec_serialize(m.velocity_z), rest);
        lemma_concat_associative(p10, i16::spec_serialize(m.velocity_y), t11);
        lemma_concat_associative(p9, i16::spec_serialize(m.velocity_x), t10);
        lemma_concat_associative(p8, i32::spec_serialize(m.data), t9);
        lemma_concat_associative(p7, Angle::spec_serialize(m.yaw), t8);
        lemma_concat_associative(p6, Angle::spec_serialize(m.pitch), t7);
        lemma_concat_associative(p5, Float64::spec_serialize(m.z), t6);
        lemma_concat_associative(p4, Float64::spec_serialize(m.y), t5);
        lemma_concat_associative(p3, Float64::spec_serialize(m.x), t4);
        lemma_concat_associative(p2, VarInt::spec_serialize(m.entity_type), t3);
        lemma_concat_associative(p1, UUID4::spec_serialize(m.object_uuid), t2);
        VarInt::lemma_round_trip(m.entity_id, t1);
        assert(VarInt::spec_deserialize(Self::spec_serialize(m) + rest) == Ok::<(<VarInt as Codec>::Model, Seq<u8>), DeserializeErr>((m.entity_id, t1)));
        UUID4::lemma_round_trip(m.object_uuid, t2);
        assert(UUID4::spec_deserialize(t1) == Ok::<(<UUID4 as Codec>::Model, Seq<u8>), DeserializeErr>((m.object_uuid, t2)));
        VarInt::lemma_round_trip(m.entity_type, t3);
        assert(VarInt::spec_deserialize(t2) == Ok::<(<VarInt as Codec>::Model, Seq<u8>), DeserializeErr>((m.entity_type, t3)));
        Float64::lemma_round_trip(m.x, t4);
        assert(Float64::spec_deserialize(t3) == Ok::<(<Float64 as Codec>::Model, Seq<u8>), DeserializeErr>((m.x, t4)));
        Float64::lemma_round_trip(m.y, t5);
        assert(Float64::spec_deserialize(t4) == Ok::<(<Float64 as Codec>::Model, Seq<u8>), DeserializeErr>((m.y, t5)));
        Float64::lemma_round_trip(m.z, t6);
        assert(Float64::spec_deserialize(t5) == Ok::<(<Float64 as Codec>::Model, Seq<u8>), DeserializeErr>((m.z, t6)));
        Angle::lemma_round_trip(m.pitch, t7);
        assert(Angle::spec_deserialize(t6) == Ok::<(<Angle as Codec>::Model, Seq<u8>), DeserializeErr>((m.pitch, t7)));
        Angle::lemma_round_trip(m.yaw, t8);
        assert(Angle::spec_deserialize(t7) == Ok::<(<Angle as Codec>::Model, Seq<u8>), DeserializeErr>((m.yaw, t8)));
        i32::lemma_round_trip(m.data, t9);
        assert(i32::spec_deserialize(t8) == Ok::<(<i32 as Codec>::Model, Seq<u8>), DeserializeErr>((m.data, t9)));
        i16::lemma_round_trip(m.velocity_x, t10);
        assert(i16::spec_deserialize(t9) == Ok::<(<i16 as Codec>::Model, Seq<u8>), DeserializeErr>((m.velocity_x, t10)));
        i16::lemma_round_trip(m.velocity_y, t11);
        assert(i16::spec_deserialize(t10) == Ok::<(<i16 as Codec>::Model, Seq<u8>), DeserializeErr>((m.velocity_y, t11)));
        i16::lemma_round_trip(m.velocity_z, rest);
        assert(i16::spec_deserialize(t11) == Ok::<(<i16 as Codec>::Model, Seq<u8>), DeserializeErr>((m.velocity_z, rest)));
    }

    fn mc_serialize(&self, to: &mut Vec<u8>) {
        let ghost start = to@;
        self.entity_id.mc_serialize(to);
        self.object_uuid.mc_serialize(to);
        proof {
            lemma_concat_associative(start, VarInt::spec_serialize(self.entity_id.model()), UUID4::spec_serialize(self.object_uuid.model()));
        }
        self.entity_type.mc_serialize(to);
        proof {
            lemma_concat_associative(start, VarInt::spec_serialize(self.entity_id.model()) + UUID4::spec_serialize(self.object_uuid.model()), VarInt::spec_serialize(self.entity_type.model()));
        }
        self.x.mc_serialize(to);
        proof {
            lemma_concat_associative(start, VarInt::spec_serialize(self.entity_id.model()) + UUID4::spec_serialize(self.object_uuid.model()) + VarInt::spec_serialize(self.entity_type.model()), Float64::spec_serialize(self.x.model()));
        }
        self.y.mc_serialize(to);
        proof {
            lemma_concat_associative(start, VarInt::spec_serialize(self.entity_id.model()) + UUID4::spec_serialize(self.object_uuid.model()) + VarInt::spec_serialize(self.entity_type.model()) + Float64::spec_serialize(self.x.model()), Float64::spec_serialize(self.y.model()));
        }
        self.z.mc_serialize(to);
        proof {
            lemma_concat_associative(start, VarInt::spec_serialize(self.entity_id.model()) + UUID4::spec_serialize(self.object_uuid.model()) + VarInt::spec_serialize(self.entity_type.model()) + Float64::spec_serialize(self.x.model()) + Float64::spec_serialize(self.y.model()), Float64::spec_serialize(self.z.model()));
        }
        self.pitch.mc_serialize(to);
        proof {
            lemma_concat_associative(start, VarInt::spec_serialize(self.entity_id.model()) + UUID4::spec_serialize(self.object_uuid.model()) + VarInt::spec_serialize(self.entity_type.model()) + Float64::spec_serialize(self.x.model()) + Float64::spec_serialize(self.y.model()) + Float64::spec_serialize(self.z.model()), Angle::spec_serialize(self.pitch.model()));
        }
        self.yaw.mc_serialize(to);
        proof {
            lemma_concat_associative(start, VarInt::spec_serialize(self.entity_id.model()) + UUID4::spec_serialize(self.object_uuid.model()) + VarInt::spec_serialize(self.entity_type.model()) + Float64::spec_serialize(self.x.model()) + Float64::spec_serialize(self.y.model()) + Float64::spec_serialize(self.z.model()) + Angle::spec_serialize(self.pitch.model()), Angle::spec_serialize(self.yaw.model()));
        }
        self.data.mc_serialize(to);
        proof {
            lemma_concat_associative(start, VarInt::spec_serialize(self.entity_id.model()) + UUID4::spec_serialize(self.object_uuid.model()) + VarInt::spec_serialize(self.entity_type.model()) + Float64::spec_serialize(self.x.model()) + Float64::spec_serialize(self.y.model()) + Float64::spec_serialize(self.z.model()) + Angle::spec_serialize(self.pitch.model()) + Angle::spec_serialize(self.yaw.model()), i32::spec_serialize(self.data.model()));
        }
        self.velocity_x.mc_serialize(to);
        proof {
            lemma_concat_associative(start, VarInt::spec_serialize(self.entity_id.model()) + UUID4::spec_serialize(self.object_uuid.model()) + VarInt::spec_serialize(self.entity_type.model()) + Float64::spec_serialize(self.x.model()) + Float64::spec_serialize(self.y.model()) + Float64::spec_serialize(self.z.model()) + Angle::spec_serialize(self.pitch.model()) + Angle::spec_serialize(self.yaw.model()) + i32::spec_serialize(self.data.model()), i16::spec_serialize(self.velocity_x.model()));
        }
        self.velocity_y.mc_serialize(to);
        proof {
            lemma_concat_associative(start, VarInt::spec_serialize(self.entity_id.model()) + UUID4::spec_serialize(self.object_uuid.model()) + VarInt::spec_serialize(self.entity_type.model()) + Float64::spec_serialize(self.x.model()) + Float64::spec_serialize(self.y.model()) + Float64::spec_serialize(self.z.model()) + Angle::spec_serialize(self.pitch.model()) + Angle::spec_serialize(self.yaw.model()) + i32::spec_serialize(self.data.model()) + i16::spec_serialize(self.velocity_x.model()), i16::spec_serialize(self.velocity_y.model()));
        }
        self.velocity_z.mc_serialize(to);
        proof {
            lemma_concat_associative(start, VarInt::spec_serialize(self.entity_id.model()) + UUID4::spec_serialize(self.object_uuid.model()) + VarInt::spec_serialize(self.entity_type.model()) + Float64::spec_serialize(self.x.model()) + Float64::spec_serialize(self.y.model()) + Float64::spec_serialize(self.z.model()) + Angle::spec_serialize(self.pitch.model()) + Angle::spec_serialize(self.yaw.model()) + i32::spec_serialize(self.data.model()) + i16::spec_serialize(self.velocity_x.model()) + i16::spec_serialize(self.velocity_y.model()), i16::spec_serialize(self.velocity_z.model()));
        }
        assert(to@ =~= start + Self::spec_serialize(self.model()));
    }

    fn mc_deserialize(data: &[u8]) -> (r: Result<(Self, &[u8]), DeserializeErr>) {
        let (entity_id, rest) = VarInt::mc_deserialize(data)?;
        let (object_uuid, rest) = UUID4::mc_deserialize(rest)?;
        let (entity_type, rest) = VarInt::mc_deserialize(rest)?;
        let (x, rest) = Float64::mc_deserialize(rest)?;
        let (y, rest) = Float64::mc_deserialize(rest)?;
        let (z, rest) = Float64::mc_deserialize(rest)?;
        let (pitch, rest) = Angle::mc_deserialize(rest)?;
        let (yaw, rest) = Angle::mc_deserialize(rest)?;
        let (data, rest) = i32::mc_deserialize(rest)?;
        let (velocity_x, rest) = i16::mc_deserialize(rest)?;
        let (velocity_y, rest) = i16::mc_deserialize(rest)?;
        let (velocity_z, rest) = i16::mc_deserialize(rest)?;
        Ok((PlaySpawnEntitySpec { entity_id, object_uuid, entity_type, x, y, z, pitch, yaw, data, velocity_x, velocity_y, velocity_z }, rest))
    }
}

/// The body of the play spawn experience orb message, as values.
pub struct PlaySpawnExperienceOrbSpecModel {
    pub entity_id: <VarInt as Codec>::Model,
    pub x: <Float64 as Codec>::Model,
    pub y: <Float64 as Codec>::Model,
    pub z: <Float64 as Codec>::Model,
    pub count: <i16 as Codec>::Model,
}

/// The body of the play spawn experience orb message
#[derive(Debug, Clone, PartialEq, Eq)]
pub struct PlaySpawnExperienceOrbSpec {
    pub entity_id: VarInt,
    pub x: Float64,
    pub y: Float64,
    pub z: Float64,
    pub count: i16,
}

impl Codec for PlaySpawnExperienceOrbSpec {
    type Model = PlaySpawnExperienceOrbSpecModel;

    open spec fn model(&self) -> PlaySpawnExperienceOrbSpecModel {
        PlaySpawnExperienceOrbSpecModel { entity_id: self.entity_id.model(), x: self.x.model(), y: self.y.model(), z: self.z.model(), count: self.count.model() }
    }

    open spec fn encodable(m: PlaySpawnExperienceOrbSpecModel) -> bool {
        VarInt::encodable(m.entity_id) && Float64::encodable(m.x) && Float64::encodable(m.y) && Float64::encodable(m.z) && i16::encodable(m.count)
    }

    open spec fn legal(m: PlaySpawnExperienceOrbSpecModel) -> bool {
        VarInt::legal(m.entity_id) && Float64::legal(m.x) && Float64::legal(m.y) && Float64::legal(m.z) && i16::legal(m.count)
    }

    open spec fn spec_serialize(m: PlaySpawnExperienceOrbSpecModel) -> Seq<u8> {
        VarInt::spec_serialize(m.entity_id) + Float64::spec_serialize(m.x) + Float64::spec_serialize(m.y) + Float64::spec_serialize(m.z) + i16::spec_serialize(m.count)
    }

    open spec fn spec_deserialize(s: Seq<u8>) -> SpecResult<PlaySpawnExperienceOrbSpecModel> {
        match VarInt::spec_deserialize(s) {
            Err(e) => Err(e),
            Ok((entity_id, r1)) => match Float64::spec_deserialize(r1) {
                Err(e) => Err(e),
                Ok((x, r2)) => match Float64::spec_deserialize(r2) {
                    Err(e) => Err(e),
                    Ok((y, r3)) => match Float64::spec_deserialize(r3) {
                        Err(e) => Err(e),
                        Ok((z, r4)) => match i16::spec_deserialize(r4) {
                            Err(e) => Err(e),
                            Ok((count, r5)) => Ok((PlaySpawnExperienceOrbSpecModel { entity_id, x, y, z, count }, r5)),
                        },
                    },
                },
            },
        }
    }

    #[verifier::rlimit(100)]
    #[verifier::spinoff_prover]
    proof fn lemma_round_trip(m: PlaySpawnExperienceOrbSpecModel, rest: Seq<u8>) {
        let t4 = i16::spec_serialize(m.count) + rest;
        let t3 = Float64::spec_serialize(m.z) + t4;
        let t2 = Float64::spec_serialize(m.y) + t3;
        let t1 = Float64::spec_serialize(m.x) + t2;
        let p1 = VarInt::spec_serialize(m.entity_id);
        let p2 = p1 + Float64::spec_serialize(m.x);
        let p3 = p2 + Float64::spec_serialize(m.y);
        let p4 = p3 + Float64::spec_serialize(m.z);
        let p5 = p4 + i16::spec_serialize(m.count);
        assert(Self::spec_serialize(m) == p5);
        lemma_concat_associative(p4, i16::spec_serialize(m.count), rest);
        lemma_concat_associative(p3, Float64::spec_serialize(m.z), t4);
        lemma_concat_associative(p2, Float64::spec_serialize(m.y), t3);
        lemma_concat_associative(p1, Float64::spec_serialize(m.x), t2);
        VarInt::lemma_round_trip(m.entity_id, t1);
        assert(VarInt::spec_deserialize(Self::spec_serialize(m) + rest) == Ok::<(<VarInt as Codec>::Model, Seq<u8>), DeserializeErr>((m.entity_id, t1)));
        Float64::lemma_round_trip(m.x, t2);
        assert(Float64::spec_deserialize(t1) == Ok::<(<Float64 as Codec>::Model, Seq<u8>), DeserializeErr>((m.x, t2)));
        Float64::lemma_round_trip(m.y, t3);
        assert(Float64::spec_deserialize(t2) == Ok::<(<Float64 as Codec>::Model, Seq<u8>), DeserializeErr>((m.y, t3)));
        Float64::lemma_round_trip(m.z, t4);
        assert(Float64::spec_deserialize(t3) == Ok::<(<Float64 as Codec>::Model, Seq<u8>), DeserializeErr>((m.z, t4)));
        i16::lemma_round_trip(m.count, rest);
        assert(i16::spec_deserialize(t4) == Ok::<(<i16 as Codec>::Model, Seq<u8>), DeserializeErr>((m.count, rest)));
    }

    fn mc_serialize(&self, to: &mut Vec<u8>) {
        let ghost start = to@;
        self.entity_id.mc_serialize(to);
        self.x.mc_serialize(to);
        proof {
            lemma_concat_associative(start, VarInt::spec_serialize(self.entity_id.model()), Float64::spec_serialize(self.x.model()));
        }
        self.y.mc_serialize(to);
        proof {
            lemma_concat_associative(start, VarInt::spec_serialize(self.entity_id.model()) + Float64::spec_serialize(self.x.model()), Float64::spec_serialize(self.y.model()));
        }
        self.z.mc_serialize(to);
        proof {
            lemma_concat_associative(start, VarInt::spec_serialize(self.entity_id.model()) + Float64::spec_serialize(self.x.model()) + Float64::spec_serialize(self.y.model()), Float64::spec_serialize(self.z.model()));
        }
        self.count.mc_serialize(to);
        proof {
            lemma_concat_associative(start, VarInt::spec_serialize(self.entity_id.model()) + Float64::spec_serialize(self.x.model()) + Float64::spec_serialize(self.y.model()) + Float64::spec_serialize(self.z.model()), i16::spec_serialize(self.count.model()));
        }
        assert(to@ =~= start + Self::spec_serialize(self.model()));
    }

    fn mc_deserialize(data: &[u8]) -> (r: Result<(Self, &[u8]), DeserializeErr>) {
        let (entity_id, rest) = VarInt::mc_deserialize(data)?;
        let (x, rest) = Float64::mc_deserialize(rest)?;
        let (y, rest) = Float64::mc_deserialize(rest)?;
        let (z, rest) = Float64::mc_deserialize(rest)?;
        let (count, rest) = i16::mc_deserialize(rest)?;
        Ok((PlaySpawnExperienceOrbSpec { entity_id, x, y, z, count }, rest))
    }
}

/// The body of the play spawn weather entity message, as values.
pub struct PlaySpawnWeatherEntitySpecModel {
    pub entity_id: <VarInt as Codec>::Model,
    pub entity_type: <u8 as Codec>::Model,
    pub x: <Float64 as Codec>::Model,
    pub y: <Float64 as Codec>::Model,
    pub z: <Float64 as Codec>::Model,
}

/// The body of the play spawn weather entity message
#[derive(Debug, Clone, PartialEq, Eq)]
pub struct PlaySpawnWeatherEntitySpec {
    pub entity_id: VarInt,
    pub entity_type: u8,
    pub x: Float64,
    pub y: Float64,
    pub z: Float64,
}

impl Codec for PlaySpawnWeatherEntitySpec {
    type Model = PlaySpawnWeatherEntitySpecModel;

    open spec fn model(&self) -> PlaySpawnWeatherEntitySpecModel {
        PlaySpawnWeatherEntitySpecModel { entity_id: self.entity_id.model(), entity_type: self.entity_type.model(), x: self.x.model(), y: self.y.model(), z: self.z.model() }
    }

    open spec fn encodable(m: PlaySpawnWeatherEntitySpecModel) -> bool {
        VarInt::encodable(m.entity_id) && u8::encodable(m.entity_type) && Float64::encodable(m.x) && Float64::encodable(m.y) && Float64::encodable(m.z)
    }

    open spec fn legal(m: PlaySpawnWeatherEntitySpecModel) -> bool {
        VarInt::legal(m.entity_id) && u8::legal(m.entity_type) && Float64::legal(m.x) && Float64::legal(m.y) && Float64::legal(m.z)
    }

    open spec fn spec_serialize(m: PlaySpawnWeatherEntitySpecModel) -> Seq<u8> {
        VarInt::spec_serialize(m.entity_id) + u8::spec_serialize(m.entity_type) + Float64::spec_serialize(m.x) + Float64::spec_serialize(m.y) + Float64::spec_serialize(m.z)
    }

    open spec fn spec_deserialize(s: Seq<u8>) -> SpecResult<PlaySpawnWeatherEntitySpecModel> {
        match VarInt::spec_deserialize(s) {
            Err(e) => Err(e),
            Ok((entity_id, r1)) => match u8::spec_deserialize(r1) {
                Err(e) => Err(e),
                Ok((entity_type, r2)) => match Float64::spec_deserialize(r2) {
                    Err(e) => Err(e),
                    Ok((x, r3)) => match Float64::spec_deserialize(r3) {
                        Err(e) => Err(e),
                        Ok((y, r4)) => match Float64::spec_deserialize(r4) {
                            Err(e) => Err(e),
                            Ok((z, r5)) => Ok((PlaySpawnWeatherEntitySpecModel { entity_id, entity_type, x, y, z }, r5)),
                        },
                    },
                },
            },
        }
    }

    #[verifier::rlimit(100)]
    #[verifier::spinoff_prover]
    proof fn lemma_round_trip(m: PlaySpawnWeatherEntitySpecModel, rest: Seq<u8>) {
        let t4 = Float64::spec_serialize(m.z) + rest;
        let t3 = Float64::spec_serialize(m.y) + t4;
        let t2 = Float64::spec_serialize(m.x) + t3;
        let t1 = u8::spec_serialize(m.entity_type) + t2;
        let p1 = VarInt::spec_serialize(m.entity_id);
        let p2 = p1 + u8::spec_serialize(m.entity_type);
        let p3 = p2 + Float64::spec_serialize(m.x);
        let p4 = p3 + Float64::spec_serialize(m.y);
        let p5 = p4 + Float64::spec_serialize(m.z);
        assert(Self::spec_serialize(m) == p5);
        lemma_concat_associative(p4, Float64::spec_serialize(m.z), rest);
        lemma_concat_associative(p3, Float64::spec_serialize(m.y), t4);
        lemma_concat_associative(p2, Float64::spec_serialize(m.x), t3);
        lemma_concat_associative(p1, u8::spec_serialize(m.entity_type), t2);
        VarInt::lemma_round_trip(m.entity_id, t1);
        assert(VarInt::spec_deserialize(Self::spec_serialize(m) + rest) == Ok::<(<VarInt as Codec>::Model, Seq<u8>), DeserializeErr>((m.entity_id, t1)));
        u8::lemma_round_trip(m.entity_type, t2);
        assert(u8::spec_deserialize(t1) == Ok::<(<u8 as Codec>::Model, Seq<u8>), DeserializeErr>((m.entity_type, t2)));
        Float64::lemma_round_trip(m.x, t3);
        assert(Float64::spec_deserialize(t2) == Ok::<(<Float64 as Codec>::Model, Seq<u8>), DeserializeErr>((m.x, t3)));
        Float64::lemma_round_trip(m.y, t4);
        assert(Float64::spec_deserialize(t3) == Ok::<(<Float64 as Codec>::Model, Seq<u8>), DeserializeErr>((m.y, t4)));
        Float64::lemma_round_trip(m.z, rest);
        assert(Float64::spec_deserialize(t4) == Ok::<(<Float64 as Codec>::Model, Seq<u8>), DeserializeErr>((m.z, rest)));
    }

    fn mc_serialize(&self, to: &mut Vec<u8>) {
        let ghost start = to@;
        self.entity_id.mc_serialize(to);
        self.entity_type.mc_serialize(to);
        proof {
            lemma_concat_associative(start, VarInt::spec_serialize(self.entity_id.model()), u8::spec_serialize(self.entity_type.model()));
        }
        self.x.mc_serialize(to);
        proof {
            lemma_concat_associative(start, VarInt::spec_serialize(self.entity_id.model()) + u8::spec_serialize(self.entity_type.model()), Float64::spec_serialize(self.x.model()));
        }
        self.y.mc_serialize(to);
        proof {
            lemma_concat_associative(start, VarInt::spec_serialize(self.entity_id.model()) + u8::spec_serialize(self.entity_type.model()) + Float64::spec_serialize(self.x.model()), Float64::spec_serialize(self.y.model()));
        }
        self.z.mc_serialize(to);
        proof {
            lemma_concat_associative(start, VarInt::spec_serialize(self.entity_id.model()) + u8::spec_serialize(self.entity_type.model()) + Float64::spec_serialize(self.x.model()) + Float64::spec_serialize(self.y.model()), Float64::spec_serialize(self.z.model()));
        }
        assert(to@ =~= start + Self::spec_serialize(self.model()));
    }

    fn mc_deserialize(data: &[u8]) -> (r: Result<(Self, &[u8]), DeserializeErr>) {
        let (entity_id, rest) = VarInt::mc_deserialize(data)?;
        let (entity_type, rest) = u8::mc_deserialize(rest)?;
        let (x, rest) = Float64::mc_deserialize(rest)?;
        let (y, rest) = Float64::mc_deserialize(rest)?;
        let (z, rest) = Float64::mc_deserialize(rest)?;
        Ok((PlaySpawnWeatherEntitySpec { entity_id, entity_type, x, y, z }, rest))
    }
}

/// The body of the play spawn living entity message, as values.
pub struct PlaySpawnLivingEntitySpecModel {
    pub entity_id: <VarInt as Codec>::Model,
    pub entity_uuid: <UUID4 as Codec>::Model,
    pub entity_type: <VarInt as Codec>::Model,
    pub x: <Float64 as Codec>::Model,
    pub y: <Float64 as Codec>::Model,
    pub z: <Float64 as Codec>::Model,
    pub yaw: <Angle as Codec>::Model,
    pub pitch: <Angle as Codec>::Model,
    pub head_pitch: <Angle as Codec>::Model,
    pub velocity_x: <i16 as Codec>::Model,
    pub velocity_y: <i16 as Codec>::Model,
    pub velocity_z: <i16 as Codec>::Model,
}

/// The body of the play spawn living entity message
#[derive(Debug, Clone, PartialEq, Eq)]
pub struct PlaySpawnLivingEntitySpec {
    pub entity_id: VarInt,
    pub entity_uuid: UUID4,
    pub entity_type: VarInt,
    pub x: Float64,
    pub y: Float64,
    pub z: Float64,
    pub yaw: Angle,
    pub pitch: Angle,
    pub head_pitch: Angle,
    pub velocity_x: i16,
    pub velocity_y: i16,
    pub velocity_z: i16,
}

impl Codec for PlaySpawnLivingEntitySpec {
    type Model = PlaySpawnLivingEntitySpecModel;

    open spec fn model(&self) -> PlaySpawnLivingEntitySpecModel {
        PlaySpawnLivingEntitySpecModel { entity_id: self.entity_id.model(), entity_uuid: self.entity_uuid.model(), entity_type: self.entity_type.model(), x: self.x.model(), y: self.y.model(), z: self.z.model(), yaw: self.yaw.model(), pitch: self.pitch.model(), head_pitch: self.head_pitch.model(), velocity_x: self.velocity_x.model(), velocity_y: self.velocity_y.model(), velocity_z: self.velocity_z.model() }
    }

    open spec fn encodable(m: PlaySpawnLivingEntitySpecModel) -> bool {
        VarInt::encodable(m.entity_id) && UUID4::encodable(m.entity_uuid) && VarInt::encodable(m.entity_type) && Float64::encodable(m.x) && Float64::encodable(m.y) && Float64::encodable(m.z) && Angle::encodable(m.yaw) && Angle::encodable(m.pitch) && Angle::encodable(m.head_pitch) && i16::encodable(m.velocity_x) && i16::encodable(m.velocity_y) && i16::encodable(m.velocity_z)
    }

    open spec fn legal(m: PlaySpawnLivingEntitySpecModel) -> bool {
        VarInt::legal(m.entity_id) && UUID4::legal(m.entity_uuid) && VarInt::legal(m.entity_type) && Float64::legal(m.x) && Float64::legal(m.y) && Float64::legal(m.z) && Angle::legal(m.yaw) && Angle::legal(m.pitch) && Angle::legal(m.head_pitch) && i16::legal(m.velocity_x) && i16::legal(m.velocity_y) && i16::legal(m.velocity_z)
    }

    open spec fn spec_serialize(m: PlaySpawnLivingEntitySpecModel) -> Seq<u8> {
        VarInt::spec_serialize(m.entity_id) + UUID4::spec_serialize(m.entity_uuid) + VarInt::spec_serialize(m.entity_type) + Float64::spec_serialize(m.x) + Float64::spec_serialize(m.y) + Float64::spec_serialize(m.z) + Angle::spec_serialize(m.yaw) + Angle::spec_serialize(m.pitch) + Angle::spec_serialize(m.head_pitch) + i16::spec_serialize(m.velocity_x) + i16::spec_serialize(m.velocity_y) + i16::spec_serialize(m.velocity_z)
    }

    open spec fn spec_deserialize(s: Seq<u8>) -> SpecResult<PlaySpawnLivingEntitySpecModel> {
        match VarInt::spec_deserialize(s) {
            Err(e) => Err(e),
            Ok((entity_id, r1)) => match UUID4::spec_deserialize(r1) {
                Err(e) => Err(e),
                Ok((entity_uuid, r2)) => match VarInt::spec_deserialize(r2) {
                    Err(e) => Err(e),
                    Ok((entity_type, r3)) => match Float64::spec_deserialize(r3) {
                        Err(e) => Err(e),
                        Ok((x, r4)) => match Float64::spec_deserialize(r4) {
                            Err(e) => Err(e),
                            Ok((y, r5)) => match Float64::spec_deserialize(r5) {
                                Err(e) => Err(e),
                                Ok((z, r6)) => match Angle::spec_deserialize(r6) {
                                    Err(e) => Err(e),
                                    Ok((yaw, r7)) => match Angle::spec_deserialize(r7) {
                                        Err(e) => Err(e),
                                        Ok((pitch, r8)) => match Angle::spec_deserialize(r8) {
                                            Err(e) => Err(e),
                                            Ok((head_pitch, r9)) => match i16::spec_deserialize(r9) {
                                                Err(e) => Err(e),
                                                Ok((velocity_x, r10)) => match i16::spec_deserialize(r10) {
                                                    Err(e) => Err(e),
                                                    Ok((velocity_y, r11)) => match i16::spec_deserialize(r11) {
                                                        Err(e) => Err(e),
                                                        Ok((velocity_z, r12)) => Ok((PlaySpawnLivingEntitySpecModel { entity_id, entity_uuid, entity_type, x, y, z, yaw, pitch, head_pitch, velocity_x, velocity_y, velocity_z }, r12)),
                                                    },
                                                },
                                            },
                                        },
                                    },
                                },
                            },
                        },
                    },
                },
            },
        }
    }

    #[verifier::rlimit(100)]
    #[verifier::spinoff_prover]
    proof fn lemma_round_trip(m: PlaySpawnLivingEntitySpecModel, rest: Seq<u8>) {
        let t11 = i16::spec_serialize(m.velocity_z) + rest;
        let t10 = i16::spec_serialize(m.velocity_y) + t11;
        let t9 = i16::spec_serialize(m.velocity_x) + t10;
        let t8 = Angle::spec_serialize(m.head_pitch) + t9;
        let t7 = Angle::spec_serialize(m.pitch) + t8;
        let t6 = Angle::spec_serialize(m.yaw) + t7;
        let t5 = Float64::spec_serialize(m.z) + t6;
        let t4 = Float64::spec_serialize(m.y) + t5;
        let t3 = Float64::spec_serialize(m.x) + t4;
        let t2 = VarInt::spec_serialize(m.entity_type) + t3;
        let t1 = UUID4::spec_serialize(m.entity_uuid) + t2;
        let p1 = VarInt::spec_serialize(m.entity_id);
        let p2 = p1 + UUID4::spec_serialize(m.entity_uuid);
        let p3 = p2 + VarInt::spec_serialize(m.entity_type);
        let p4 = p3 + Float64::spec_serialize(m.x);
        let p5 = p4 + Float64::spec_serialize(m.y);
        let p6 = p5 + Float64::spec_serialize(m.z);
        let p7 = p6 + Angle::spec_serialize(m.yaw);
        let p8 = p7 + Angle::spec_serialize(m.pitch);
        let p9 = p8 + Angle::spec_serialize(m.head_pitch);
        let p10 = p9 + i16::spec_serialize(m.velocity_x);
        let p11 = p10 + i16::spec_serialize(m.velocity_y);
        let p12 = p11 + i16::spec_serialize(m.velocity_z);
        assert(Self::spec_serialize(m) == p12);
        lemma_concat_associative(p11, i16::spec_serialize(m.velocity_z), rest);
        lemma_concat_associative(p10, i16::spec_serialize(m.velocity_y), t11);
        lemma_concat_associative(p9, i16::spec_serialize(m.velocity_x), t10);
        lemma_concat_associative(p8, Angle::spec_serialize(m.head_pitch), t9);
        lemma_concat_associative(p7, Angle::spec_serialize(m.pitch), t8);
        lemma_concat_associative(p6, Angle::spec_serialize(m.yaw), t7);
        lemma_concat_associative(p5, Float64::spec_serialize(m.z), t6);
        lemma_concat_associative(p4, Float64::spec_serialize(m.y), t5);
        lemma_concat_associative(p3, Float64::spec_serialize(m.x), t4);
        lemma_concat_associative(p2, VarInt::spec_serialize(m.entity_type), t3);
        lemma_concat_associative(p1, UUID4::spec_serialize(m.entity_uuid), t2);
        VarInt::lemma_round_trip(m.entity_id, t1);
        assert(VarInt::spec_deserialize(Self::spec_serialize(m) + rest) == Ok::<(<VarInt as Codec>::Model, Seq<u8>), DeserializeErr>((m.entity_id, t1)));
        UUID4::lemma_round_trip(m.entity_uuid, t2);
        assert(UUID4::spec_deserialize(t1) == Ok::<(<UUID4 as Codec>::Model, Seq<u8>), DeserializeErr>((m.entity_uuid, t2)));
        VarInt::lemma_round_trip(m.entity_type, t3);
        assert(VarInt::spec_deserialize(t2) == Ok::<(<VarInt as Codec>::Model, Seq<u8>), DeserializeErr>((m.entity_type, t3)));
        Float64::lemma_round_trip(m.x, t4);
        assert(Float64::spec_deserialize(t3) == Ok::<(<Float64 as Codec>::Model, Seq<u8>), DeserializeErr>((m.x, t4)));
        Float64::lemma_round_trip(m.y, t5);
        assert(Float64::spec_deserialize(t4) == Ok::<(<Float64 as Codec>::Model, Seq<u8>), DeserializeErr>((m.y, t5)));
        Float64::lemma_round_trip(m.z, t6);
        assert(Float64::spec_deserialize(t5) == Ok::<(<Float64 as Codec>::Model, Seq<u8>), DeserializeErr>((m.z, t6)));
        Angle::lemma_round_trip(m.yaw, t7);
        assert(Angle::spec_deserialize(t6) == Ok::<(<Angle as Codec>::Model, Seq<u8>), DeserializeErr>((m.yaw, t7)));
        Angle::lemma_round_trip(m.pitch, t8);
        assert(Angle::spec_deserialize(t7) == Ok::<(<Angle as Codec>::Model, Seq<u8>), DeserializeErr>((m.pitch, t8)));
        Angle::lemma_round_trip(m.head_pitch, t9);
        assert(Angle::spec_deserialize(t8) == Ok::<(<Angle as Codec>::Model, Seq<u8>), DeserializeErr>((m.head_pitch, t9)));
        i16::lemma_round_trip(m.velocity_x, t10);
        assert(i16::spec_deserialize(t9) == Ok::<(<i16 as Codec>::Model, Seq<u8>), DeserializeErr>((m.velocity_x, t10)));
        i16::lemma_round_trip(m.velocity_y, t11);
        assert(i16::spec_deserialize(t10) == Ok::<(<i16 as Codec>::Model, Seq<u8>), DeserializeErr>((m.velocity_y, t11)));
        i16::lemma_round_trip(m.velocity_z, rest);
        assert(i16::spec_deserialize(t11) == Ok::<(<i16 as Codec>::Model, Seq<u8>), DeserializeErr>((m.velocity_z, rest)));
    }

    fn mc_serialize(&self, to: &mut Vec<u8>) {
        let ghost start = to@;
        self.entity_id.mc_serialize(to);
        self.entity_uuid.mc_serialize(to);
        proof {
            lemma_concat_associative(start, VarInt::spec_serialize(self.entity_id.model()), UUID4::spec_serialize(self.entity_uuid.model()));
        }
        self.entity_type.mc_serialize(to);
        proof {
            lemma_concat_associative(start, VarInt::spec_serialize(self.entity_id.model()) + UUID4::spec_serialize(self.entity_uuid.model()), VarInt::spec_serialize(self.entity_type.model()));
        }
        self.x.mc_serialize(to);
        proof {
            lemma_concat_associative(start, VarInt::spec_serialize(self.entity_id.model()) + UUID4::spec_serialize(self.entity_uuid.model()) + VarInt::spec_serialize(self.entity_type.model()), Float64::spec_serialize(self.x.model()));
        }
        self.y.mc_serialize(to);
        proof {
            lemma_concat_associative(start, VarInt::spec_serialize(self.entity_id.model()) + UUID4::spec_serialize(self.entity_uuid.model()) + VarInt::spec_serialize(self.entity_type.model()) + Float64::spec_serialize(self.x.model()), Float64::spec_serialize(self.y.model()));
        }
        self.z.mc_serialize(to);
        proof {
            lemma_concat_associative(start, VarInt::spec_serialize(self.entity_id.model()) + UUID4::spec_serialize(self.entity_uuid.model()) + VarInt::spec_serialize(self.entity_type.model()) + Float64::spec_serialize(self.x.model()) + Float64::spec_serialize(self.y.model()), Float64::spec_serialize(self.z.model()));
        }
        self.yaw.mc_serialize(to);
        proof {
            lemma_concat_associative(start, VarInt::spec_serialize(self.entity_id.model()) + UUID4::spec_serialize(self.entity_uuid.model()) + VarInt::spec_serialize(self.entity_type.model()) + Float64::spec_serialize(self.x.model()) + Float64::spec_serialize(self.y.model()) + Float64::spec_serialize(self.z.model()), Angle::spec_serialize(self.yaw.model()));
        }
        self.pitch.mc_serialize(to);
        proof {
            lemma_concat_associative(start, VarInt::spec_serialize(self.entity_id.model()) + UUID4::spec_serialize(self.entity_uuid.model()) + VarInt::spec_serialize(self.entity_type.model()) + Float64::spec_serialize(self.x.model()) + Float64::spec_serialize(self.y.model()) + Float64::spec_serialize(self.z.model()) + Angle::spec_serialize(self.yaw.model()), Angle::spec_serialize(self.pitch.model()));
        }
        self.head_pitch.mc_serialize(to);
        proof {
            lemma_concat_associative(start, VarInt::spec_serialize(self.entity_id.model()) + UUID4::spec_serialize(self.entity_uuid.model()) + VarInt::spec_serialize(self.entity_type.model()) + Float64::spec_serialize(self.x.model()) + Float64::spec_serialize(self.y.model()) + Float64::spec_serialize(self.z.model()) + Angle::spec_serialize(self.yaw.model()) + Angle::spec_serialize(self.pitch.model()), Angle::spec_serialize(self.head_pitch.model()));
        }
        self.velocity_x.mc_serialize(to);
        proof {
            lemma_concat_associative(start, VarInt::spec_serialize(self.entity_id.model()) + UUID4::spec_serialize(self.entity_uuid.model()) + VarInt::spec_serialize(self.entity_type.model()) + Float64::spec_serialize(self.x.model()) + Float64::spec_serialize(self.y.model()) + Float64::spec_serialize(self.z.model()) + Angle::spec_serialize(self.yaw.model()) + Angle::spec_serialize(self.pitch.model()) + Angle::spec_serialize(self.head_pitch.model()), i16::spec_serialize(self.velocity_x.model()));
        }
        self.velocity_y.mc_serialize(to);
        proof {
            lemma_concat_associative(start, VarInt::spec_serialize(self.entity_id.model()) + UUID4::spec_serialize(self.entity_uuid.model()) + VarInt::spec_serialize(self.entity_type.model()) + Float64::spec_serialize(self.x.model()) + Float64::spec_serialize(self.y.model()) + Float64::spec_serialize(self.z.model()) + Angle::spec_serialize(self.yaw.model()) + Angle::spec_serialize(self.pitch.model()) + Angle::spec_serialize(self.head_pitch.model()) + i16::spec_serialize(self.velocity_x.model()), i16::spec_serialize(self.velocity_y.model()));
        }
        self.velocity_z.mc_serialize(to);
        proof {
            lemma_concat_associative(start, VarInt::spec_serialize(self.entity_id.model()) + UUID4::spec_serialize(self.entity_uuid.model()) + VarInt::spec_serialize(self.entity_type.model()) + Float64::spec_serialize(self.x.model()) + Float64::spec_serialize(self.y.model()) + Float64::spec_serialize(self.z.model()) + Angle::spec_serialize(self.yaw.model()) + Angle::spec_serialize(self.pitch.model()) + Angle::spec_serialize(self.head_pitch.model()) + i16::spec_serialize(self.velocity_x.model()) + i16::spec_serialize(self.velocity_y.model()), i16::spec_serialize(self.velocity_z.model()));
        }
        assert(to@ =~= start + Self::spec_serialize(self.model()));
    }

    fn mc_deserialize(data: &[u8]) -> (r: Result<(Self, &[u8]), DeserializeErr>) {
        let (entity_id, rest) = VarInt::mc_deserialize(data)?;
        let (entity_uuid, rest) = UUID4::mc_deserialize(rest)?;
        let (entity_type, rest) = VarInt::mc_deserialize(rest)?;
        let (x, rest) = Float64::mc_deserialize(rest)?;
        let (y, rest) = Float64::mc_deserialize(rest)?;
        let (z, rest) = Float64::mc_deserialize(rest)?;
        let (yaw, rest) = Angle::mc_deserialize(rest)?;
        let (pitch, rest) = Angle::mc_deserialize(rest)?;
        let (head_pitch, rest) = Angle::mc_deserialize(rest)?;
        let (velocity_x, rest) = i16::mc_deserialize(rest)?;
        let (velocity_y, rest) = i16::mc_deserialize(rest)?;
        let (velocity_z, rest) = i16::mc_deserialize(rest)?;
        Ok((PlaySpawnLivingEntitySpec { entity_id, entity_uuid, entity_type, x, y, z, yaw, pitch, head_pitch, velocity_x, velocity_y, velocity_z }, rest))
    }
}

/// The body of the play spawn painting message, as values.
pub struct PlaySpawnPaintingSpecModel {
    pub entity_id: <VarInt as Codec>::Model,
    pub entity_uuid: <UUID4 as Codec>::Model,
    pub motive: <VarInt as Codec>::Model,
    pub location: <IntPosition as Codec>::Model,
    pub direction: <CardinalDirection as Codec>::Model,
}

/// The body of the play spawn painting message
#[derive(Debug, Clone, PartialEq, Eq)]
pub struct PlaySpawnPaintingSpec {
    pub entity_id: VarInt,
    pub entity_uuid: UUID4,
    pub motive: VarInt,
    pub location: IntPosition,
    pub direction: CardinalDirection,
}

impl Codec for PlaySpawnPaintingSpec {
    type Model = PlaySpawnPaintingSpecModel;

    open spec fn model(&self) -> PlaySpawnPaintingSpecModel {
        PlaySpawnPaintingSpecModel { entity_id: self.entity_id.model(), entity_uuid: self.entity_uuid.model(), motive: self.motive.model(), location: self.location.model(), direction: self.direction.model() }
    }

    open spec fn encodable(m: PlaySpawnPaintingSpecModel) -> bool {
        VarInt::encodable(m.entity_id) && UUID4::encodable(m.entity_uuid) && VarInt::encodable(m.motive) && IntPosition::encodable(m.location) && CardinalDirection::encodable(m.direction)
    }

    open spec fn legal(m: PlaySpawnPaintingSpecModel) -> bool {
        VarInt::legal(m.entity_id) && UUID4::legal(m.entity_uuid) && VarInt::legal(m.motive) && IntPosition::legal(m.location) && CardinalDirection::legal(m.direction)
    }

    open spec fn spec_serialize(m: PlaySpawnPaintingSpecModel) -> Seq<u8> {
        VarInt::spec_serialize(m.entity_id) + UUID4::spec_serialize(m.entity_uuid) + VarInt::spec_serialize(m.motive) + IntPosition::spec_serialize(m.location) + CardinalDirection::spec_serialize(m.direction)
    }

    open spec fn spec_deserialize(s: Seq<u8>) -> SpecResult<PlaySpawnPaintingSpecModel> {
        match VarInt::spec_deserialize(s) {
            Err(e) => Err(e),
            Ok((entity_id, r1)) => match UUID4::spec_deserialize(r1) {
                Err(e) => Err(e),
                Ok((entity_uuid, r2)) => match VarInt::spec_deserialize(r2) {
                    Err(e) => Err(e),
                    Ok((motive, r3)) => match IntPosition::spec_deserialize(r3) {
                        Err(e) => Err(e),
                        Ok((location, r4)) => match CardinalDirection::spec_deserialize(r4) {
                            Err(e) => Err(e),
                            Ok((direction, r5)) => Ok((PlaySpawnPaintingSpecModel { entity_id, entity_uuid, motive, location, direction }, r5)),
                        },
                    },
                },
            },
        }
    }

    #[verifier::rlimit(100)]
    #[verifier::spinoff_prover]
    proof fn lemma_round_trip(m: PlaySpawnPaintingSpecModel, rest: Seq<u8>) {
        let t4 = CardinalDirection::spec_serialize(m.direction) + rest;
        let t3 = IntPosition::spec_serialize(m.location) + t4;
        let t2 = VarInt::spec_serialize(m.motive) + t3;
        let t1 = UUID4::spec_serialize(m.entity_uuid) + t2;
        let p1 = VarInt::spec_serialize(m.entity_id);
        let p2 = p1 + UUID4::spec_serialize(m.entity_uuid);
        let p3 = p2 + VarInt::spec_serialize(m.motive);
        let p4 = p3 + IntPosition::spec_serialize(m.location);
        let p5 = p4 + CardinalDirection::spec_serialize(m.direction);
        assert(Self::spec_serialize(m) == p5);
        lemma_concat_associative(p4, CardinalDirection::spec_serialize(m.direction), rest);
        lemma_concat_associative(p3, IntPosition::spec_serialize(m.location), t4);
        lemma_concat_associative(p2, VarInt::spec_serialize(m.motive), t3);
        lemma_concat_associative(p1, UUID4::spec_serialize(m.entity_uuid), t2);
        VarInt::lemma_round_trip(m.entity_id, t1);
        assert(VarInt::spec_deserialize(Self::spec_serialize(m) + rest) == Ok::<(<VarInt as Codec>::Model, Seq<u8>), DeserializeErr>((m.entity_id, t1)));
        UUID4::lemma_round_trip(m.entity_uuid, t2);
        assert(UUID4::spec_deserialize(t1) == Ok::<(<UUID4 as Codec>::Model, Seq<u8>), DeserializeErr>((m.entity_uuid, t2)));
        VarInt::lemma_round_trip(m.motive, t3);
        assert(VarInt::spec_deserialize(t2) == Ok::<(<VarInt as Codec>::Model, Seq<u8>), DeserializeErr>((m.motive, t3)));
        IntPosition::lemma_round_trip(m.location, t4);
        assert(IntPosition::spec_deserialize(t3) == Ok::<(<IntPosition as Codec>::Model, Seq<u8>), DeserializeErr>((m.location, t4)));
        CardinalDirection::lemma_round_trip(m.direction, rest);
        assert(CardinalDirection::spec_deserialize(t4) == Ok::<(<CardinalDirection as Codec>::Model, Seq<u8>), DeserializeErr>((m.direction, rest)));
    }

    fn mc_serialize(&self, to: &mut Vec<u8>) {
        let ghost start = to@;
        self.entity_id.mc_serialize(to);
        self.entity_uuid.mc_serialize(to);
        proof {
            lemma_concat_associative(start, VarInt::spec_serialize(self.entity_id.model()), UUID4::spec_serialize(self.entity_uuid.model()));
        }
        self.motive.mc_serialize(to);
        proof {
            lemma_concat_associative(start, VarInt::spec_serialize(self.entity_id.model()) + UUID4::spec_serialize(self.entity_uuid.model()), VarInt::spec_serialize(self.motive.model()));
        }
        self.location.mc_serialize(to);
        proof {
            lemma_concat_associative(start, VarInt::spec_serialize(self.entity_id.model()) + UUID4::spec_serialize(self.entity_uuid.model()) + VarInt::spec_serialize(self.motive.model()), IntPosition::spec_serialize(self.location.model()));
        }
        self.direction.mc_serialize(to);
        proof {
            lemma_concat_associative(start, VarInt::spec_serialize(self.entity_id.model()) + UUID4::spec_serialize(self.entity_uuid.model()) + VarInt::spec_serialize(self.motive.model()) + IntPosition::spec_serialize(self.location.model()), CardinalDirection::spec_serialize(self.direction.model()));
        }
        assert(to@ =~= start + Self::spec_serialize(self.model()));
    }

    fn mc_deserialize(data: &[u8]) -> (r: Result<(Self, &[u8]), DeserializeErr>) {
        let (entity_id, rest) = VarInt::mc_deserialize(data)?;
        let (entity_uuid, rest) = UUID4::mc_deserialize(rest)?;
        let (motive, rest) = VarInt::mc_deserialize(rest)?;
        let (location, rest) = IntPosition::mc_deserialize(rest)?;
        let (direction, rest) = CardinalDirection::mc_deserialize(rest)?;
        Ok((PlaySpawnPaintingSpec { entity_id, entity_uuid, motive, location, direction }, rest))
    }
}

/// The body of the play spawn player message, as values.
pub struct PlaySpawnPlayerSpecModel {
    pub entity_id: <VarInt as Codec>::Model,
    pub uuid: <UUID4 as Codec>::Model,
    pub x: <Float64 as Codec>::Model,
    pub y: <Float64 as Codec>::Model,
    pub z: <Float64 as Codec>::Model,
    pub yaw: <Angle as Codec>::Model,
    pub pitch: <Angle as Codec>::Model,
}

/// The body of the play spawn player message
#[derive(Debug, Clone, PartialEq, Eq)]
pub struct PlaySpawnPlayerSpec {
    pub entity_id: VarInt,
    pub uuid: UUID4,
    pub x: Float64,
    pub y: Float64,
    pub z: Float64,
    pub yaw: Angle,
    pub pitch: Angle,
}

impl Codec for PlaySpawnPlayerSpec {
    type Model = PlaySpawnPlayerSpecModel;

    open spec fn model(&self) -> PlaySpawnPlayerSpecModel {
        PlaySpawnPlayerSpecModel { entity_id: self.entity_id.model(), uuid: self.uuid.model(), x: self.x.model(), y: self.y.model(), z: self.z.model(), yaw: self.yaw.model(), pitch: self.pitch.model() }
    }

    open spec fn encodable(m: PlaySpawnPlayerSpecModel) -> bool {
        VarInt::encodable(m.entity_id) && UUID4::encodable(m.uuid) && Float64::encodable(m.x) && Float64::encodable(m.y) && Float64::encodable(m.z) && Angle::encodable(m.yaw) && Angle::encodable(m.pitch)
    }

    open spec fn legal(m: PlaySpawnPlayerSpecModel) -> bool {
        VarInt::legal(m.entity_id) && UUID4::legal(m.uuid) && Float64::legal(m.x) && Float64::legal(m.y) && Float64::legal(m.z) && Angle::legal(m.yaw) && Angle::legal(m.pitch)
    }

    open spec fn spec_serialize(m: PlaySpawnPlayerSpecModel) -> Seq<u8> {
        VarInt::spec_serialize(m.entity_id) + UUID4::spec_serialize(m.uuid) + Float64::spec_serialize(m.x) + Float64::spec_serialize(m.y) + Float64::spec_serialize(m.z) + Angle::spec_serialize(m.yaw) + Angle::spec_serialize(m.pitch)
    }

    open spec fn spec_deserialize(s: Seq<u8>) -> SpecResult<PlaySpawnPlayerSpecModel> {
        match VarInt::spec_deserialize(s) {
            Err(e) => Err(e),
            Ok((entity_id, r1)) => match UUID4::spec_deserialize(r1) {
                Err(e) => Err(e),
                Ok((uuid, r2)) => match Float64::spec_deserialize(r2) {
                    Err(e) => Err(e),
                    Ok((x, r3)) => match Float64::spec_deserialize(r3) {
                        Err(e) => Err(e),
                        Ok((y, r4)) => match Float64::spec_deserialize(r4) {
                            Err(e) => Err(e),
                            Ok((z, r5)) => match Angle::spec_deserialize(r5) {
                                Err(e) => Err(e),
                                Ok((yaw, r6)) => match Angle::spec_deserialize(r6) {
                                    Err(e) => Err(e),
                                    Ok((pitch, r7)) => Ok((PlaySpawnPlayerSpecModel { entity_id, uuid, x, y, z, yaw, pitch }, r7)),
                                },
                            },
                        },
                    },
                },
            },
        }
    }

    #[verifier::rlimit(100)]
    #[verifier::spinoff_prover]
    proof fn lemma_round_trip(m: PlaySpawnPlayerSpecModel, rest: Seq<u8>) {
        let t6 = Angle::spec_serialize(m.pitch) + rest;
        let t5 = Angle::spec_serialize(m.yaw) + t6;
        let t4 = Float64::spec_serialize(m.z) + t5;
        let t3 = Float64::spec_serialize(m.y) + t4;
        let t2 = Float64::spec_serialize(m.x) + t3;
        let t1 = UUID4::spec_serialize(m.uuid) + t2;
        let p1 = VarInt::spec_serialize(m.entity_id);
        let p2 = p1 + UUID4::spec_serialize(m.uuid);
        let p3 = p2 + Float64::spec_serialize(m.x);
        let p4 = p3 + Float64::spec_serialize(m.y);
        let p5 = p4 + Float64::spec_serialize(m.z);
        let p6 = p5 + Angle::spec_serialize(m.yaw);
        let p7 = p6 + Angle::spec_serialize(m.pitch);
        assert(Self::spec_serialize(m) == p7);
        lemma_concat_associative(p6, Angle::spec_serialize(m.pitch), rest);
        lemma_concat_associative(p5, Angle::spec_serialize(m.yaw), t6);
        lemma_concat_associative(p4, Float64::spec_serialize(m.z), t5);
        lemma_concat_associative(p3, Float64::spec_serialize(m.y), t4);
        lemma_concat_associative(p2, Float64::spec_serialize(m.x), t3);
        lemma_concat_associative(p1, UUID4::spec_serialize(m.uuid), t2);
        VarInt::lemma_round_trip(m.entity_id, t1);
        assert(VarInt::spec_deserialize(Self::spec_serialize(m) + rest) == Ok::<(<VarInt as Codec>::Model, Seq<u8>), DeserializeErr>((m.entity_id, t1)));
        UUID4::lemma_round_trip(m.uuid, t2);
        assert(UUID4::spec_deserialize(t1) == Ok::<(<UUID4 as Codec>::Model, Seq<u8>), DeserializeErr>((m.uuid, t2)));
        Float64::lemma_round_trip(m.x, t3);
        assert(Float64::spec_deserialize(t2) == Ok::<(<Float64 as Codec>::Model, Seq<u8>), DeserializeErr>((m.x, t3)));
        Float64::lemma_round_trip(m.y, t4);
        assert(Float64::spec_deserialize(t3) == Ok::<(<Float64 as Codec>::Model, Seq<u8>), DeserializeErr>((m.y, t4)));
        Float64::lemma_round_trip(m.z, t5);
        assert(Float64::spec_deserialize(t4) == Ok::<(<Float64 as Codec>::Model, Seq<u8>), DeserializeErr>((m.z, t5)));
        Angle::lemma_round_trip(m.yaw, t6);
        assert(Angle::spec_deserialize(t5) == Ok::<(<Angle as Codec>::Model, Seq<u8>), DeserializeErr>((m.yaw, t6)));
        Angle::lemma_round_trip(m.pitch, rest);
        assert(Angle::spec_deserialize(t6) == Ok::<(<Angle as Codec>::Model, Seq<u8>), DeserializeErr>((m.pitch, rest)));
    }

    fn mc_serialize(&self, to: &mut Vec<u8>) {
        let ghost start = to@;
        self.entity_id.mc_serialize(to);
        self.uuid.mc_serialize(to);
        proof {
            lemma_concat_associative(start, VarInt::spec_serialize(self.entity_id.model()), UUID4::spec_serialize(self.uuid.model()));
        }
        self.x.mc_serialize(to);
        proof {
            lemma_concat_associative(start, VarInt::spec_serialize(self.entity_id.model()) + UUID4::spec_serialize(self.uuid.model()), Float64::spec_serialize(self.x.model()));
        }
        self.y.mc_serialize(to);
        proof {
            lemma_concat_associative(start, VarInt::spec_serialize(self.entity_id.model()) + UUID4::spec_serialize(self.uuid.model()) + Float64::spec_serialize(self.x.model()), Float64::spec_serialize(self.y.model()));
        }
        self.z.mc_serialize(to);
        proof {
            lemma_concat_associative(start, VarInt::spec_serialize(self.entity_id.model()) + UUID4::spec_serialize(self.uuid.model()) + Float64::spec_serialize(self.x.model()) + Float64::spec_serialize(self.y.model()), Float64::spec_serialize(self.z.model()));
        }
        self.yaw.mc_serialize(to);
        proof {
            lemma_concat_associative(start, VarInt::spec_serialize(self.entity_id.model()) + UUID4::spec_serialize(self.uuid.model()) + Float64::spec_serialize(self.x.model()) + Float64::spec_serialize(self.y.model()) + Float64::spec_serialize(self.z.model()), Angle::spec_serialize(self.yaw.model()));
        }
        self.pitch.mc_serialize(to);
        proof {
            lemma_concat_associative(start, VarInt::spec_serialize(self.entity_id.model()) + UUID4::spec_serialize(self.uuid.model()) + Float64::spec_serialize(self.x.model()) + Float64::spec_serialize(self.y.model()) + Float64::spec_serialize(self.z.model()) + Angle::spec_serialize(self.yaw.model()), Angle::spec_serialize(self.pitch.model()));
        }
        assert(to@ =~= start + Self::spec_serialize(self.model()));
    }

    fn mc_deserialize(data: &[u8]) -> (r: Result<(Self, &[u8]), DeserializeErr>) {
        let (entity_id, rest) = VarInt::mc_deserialize(data)?;
        let (uuid, rest) = UUID4::mc_deserialize(rest)?;
        let (x, rest) = Float64::mc_deserialize(rest)?;
        let (y, rest) = Float64::mc_deserialize(rest)?;
        let (z, rest) = Float64::mc_deserialize(rest)?;
        let (yaw, rest) = Angle::mc_deserialize(rest)?;
        let (pitch, rest) = Angle::mc_deserialize(rest)?;
        Ok((PlaySpawnPlayerSpec { entity_id, uuid, x, y, z, yaw, pitch }, rest))
    }
}

/// The body of the play entity animation message, as values.
pub struct PlayEntityAnimationSpecModel {
    pub entity_id: <VarInt as Codec>::Model,
    pub animation: <EntityAnimationKind as Codec>::Model,
}

/// The body of the play entity animation message
#[derive(Debug, Clone, PartialEq, Eq)]
pub struct PlayEntityAnimationSpec {
    pub entity_id: VarInt,
    pub animation: EntityAnimationKind,
}

impl Codec for PlayEntityAnimationSpec {
    type Model = PlayEntityAnimationSpecModel;

    open spec fn model(&self) -> PlayEntityAnimationSpecModel {
        PlayEntityAnimationSpecModel { entity_id: self.entity_id.model(), animation: self.animation.model() }
    }

    open spec fn encodable(m: PlayEntityAnimationSpecModel) -> bool {
        VarInt::encodable(m.entity_id) && EntityAnimationKind::encodable(m.animation)
    }

    open spec fn legal(m: PlayEntityAnimationSpecModel) -> bool {
        VarInt::legal(m.entity_id) && EntityAnimationKind::legal(m.animation)
    }

    open spec fn spec_serialize(m: PlayEntityAnimationSpecModel) -> Seq<u8> {
        VarInt::spec_serialize(m.entity_id) + EntityAnimationKind::spec_serialize(m.animation)
    }

    open spec fn spec_deserialize(s: Seq<u8>) -> SpecResult<PlayEntityAnimationSpecModel> {
        match VarInt::spec_deserialize(s) {
            Err(e) => Err(e),
            Ok((entity_id, r1)) => match EntityAnimationKind::spec_deserialize(r1) {
                Err(e) => Err(e),
                Ok((animation, r2)) => Ok((PlayEntityAnimationSpecModel { entity_id, animation }, r2)),
            },
        }
    }

    proof fn lemma_round_trip(m: PlayEntityAnimationSpecModel, rest: Seq<u8>) {
        let t1 = EntityAnimationKind::spec_serialize(m.animation) + rest;
        let p1 = VarInt::spec_serialize(m.entity_id);
        let p2 = p1 + EntityAnimationKind::spec_serialize(m.animation);
        assert(Self::spec_serialize(m) == p2);
        lemma_concat_associative(p1, EntityAnimationKind::spec_serialize(m.animation), rest);
        VarInt::lemma_round_trip(m.entity_id, t1);
        EntityAnimationKind::lemma_round_trip(m.animation, rest);
    }

    fn mc_serialize(&self, to: &mut Vec<u8>) {
        let ghost start = to@;
        self.entity_id.mc_serialize(to);
        self.animation.mc_serialize(to);
        proof {
            lemma_concat_associative(start, VarInt::spec_serialize(self.entity_id.model()), EntityAnimationKind::spec_serialize(self.animation.model()));
        }
        assert(to@ =~= start + Self::spec_serialize(self.model()));
    }

    fn mc_deserialize(data: &[u8]) -> (r: Result<(Self, &[u8]), DeserializeErr>) {
        let (entity_id, rest) = VarInt::mc_deserialize(data)?;
        let (animation, rest) = EntityAnimationKind::mc_deserialize(rest)?;
        Ok((PlayEntityAnimationSpec { entity_id, animation }, rest))
    }
}

/// The body of the play statistics message, as values.
pub struct PlayStatisticsSpecModel {
    pub entries: <VarIntCountedArray<Statistic> as Codec>::Model,
}

/// The body of the play statistics message
#[derive(Debug, Clone, PartialEq, Eq)]
pub struct PlayStatisticsSpec {
    pub entries: VarIntCountedArray<Statistic>,
}

impl Codec for PlayStatisticsSpec {
    type Model = PlayStatisticsSpecModel;

    open spec fn model(&self) -> PlayStatisticsSpecModel {
        PlayStatisticsSpecModel { entries: self.entries.model() }
    }

    open spec fn encodable(m: PlayStatisticsSpecModel) -> bool {
        VarIntCountedArray::<Statistic>::encodable(m.entries)
    }

    open spec fn legal(m: PlayStatisticsSpecModel) -> bool {
        VarIntCountedArray::<Statistic>::legal(m.entries)
    }

    open spec fn spec_serialize(m: PlayStatisticsSpecModel) -> Seq<u8> {
        VarIntCountedArray::<Statistic>::spec_serialize(m.entries)
    }

    open spec fn spec_deserialize(s: Seq<u8>) -> SpecResult<PlayStatisticsSpecModel> {
        match VarIntCountedArray::<Statistic>::spec_deserialize(s) {
            Err(e) => Err(e),
            Ok((entries, r1)) => Ok((PlayStatisticsSpecModel { entries }, r1)),
        }
    }

    proof fn lemma_round_trip(m: PlayStatisticsSpecModel, rest: Seq<u8>) {
        VarIntCountedArray::<Statistic>::lemma_round_trip(m.entries, rest);
    }

    fn mc_serialize(&self, to: &mut Vec<u8>) {
        let ghost start = to@;
        self.entries.mc_serialize(to);
        assert(to@ =~= start + Self::spec_serialize(self.model()));
    }

    fn mc_deserialize(data: &[u8]) -> (r: Result<(Self, &[u8]), DeserializeErr>) {
        let (entries, rest) = VarIntCountedArray::<Statistic>::mc_deserialize(data)?;
        Ok((PlayStatisticsSpec { entries }, rest))
    }
}

/// The body of the play acknowledge player digging message, as values.
pub struct PlayAcknowledgePlayerDiggingSpecModel {
    pub location: <IntPosition as Codec>::Model,
    pub block: <VarInt as Codec>::Model,
    pub status: <DiggingStatus as Codec>::Model,
    pub successful: <bool as Codec>::Model,
}

/// The body of the play acknowledge player digging message
#[derive(Debug, Clone, PartialEq, Eq)]
pub struct PlayAcknowledgePlayerDiggingSpec {
    pub location: IntPosition,
    pub block: VarInt,
    pub status: DiggingStatus,
    pub successful: bool,
}

impl Codec for PlayAcknowledgePlayerDiggingSpec {
    type Model = PlayAcknowledgePlayerDiggingSpecModel;

    open spec fn model(&self) -> PlayAcknowledgePlayerDiggingSpecModel {
        PlayAcknowledgePlayerDiggingSpecModel { location: self.location.model(), block: self.block.model(), status: self.status.model(), successful: self.successful.model() }
    }

    open spec fn encodable(m: PlayAcknowledgePlayerDiggingSpecModel) -> bool {
        IntPosition::encodable(m.location) && VarInt::encodable(m.block) && DiggingStatus::encodable(m.status) && bool::encodable(m.successful)
    }

    open spec fn legal(m: PlayAcknowledgePlayerDiggingSpecModel) -> bool {
        IntPosition::legal(m.location) && VarInt::legal(m.block) && DiggingStatus::legal(m.status) && bool::legal(m.successful)
    }

    open spec fn spec_serialize(m: PlayAcknowledgePlayerDiggingSpecModel) -> Seq<u8> {
        IntPosition::spec_serialize(m.location) + VarInt::spec_serialize(m.block) + DiggingStatus::spec_serialize(m.status) + bool::spec_serialize(m.successful)
    }

    open spec fn spec_deserialize(s: Seq<u8>) -> SpecResult<PlayAcknowledgePlayerDiggingSpecModel> {
        match IntPosition::spec_deserialize(s) {
            Err(e) => Err(e),
            Ok((location, r1)) => match VarInt::spec_deserialize(r1) {
                Err(e) => Err(e),
                Ok((block, r2)) => match DiggingStatus::spec_deserialize(r2) {
                    Err(e) => Err(e),
                    Ok((status, r3)) => match bool::spec_deserialize(r3) {
                        Err(e) => Err(e),
                        Ok((successful, r4)) => Ok((PlayAcknowledgePlayerDiggingSpecModel { location, block, status, successful }, r4)),
                    },
                },
            },
        }
    }

    #[verifier::rlimit(100)]
    #[verifier::spinoff_prover]
    proof fn lemma_round_trip(m: PlayAcknowledgePlayerDiggingSpecModel, rest: Seq<u8>) {
        let t3 = bool::spec_serialize(m.successful) + rest;
        let t2 = DiggingStatus::spec_serialize(m.status) + t3;
        let t1 = VarInt::spec_serialize(m.block) + t2;
        let p1 = IntPosition::spec_serialize(m.location);
        let p2 = p1 + VarInt::spec_serialize(m.block);
        let p3 = p2 + DiggingStatus::spec_serialize(m.status);
        let p4 = p3 + bool::spec_serialize(m.successful);
        assert(Self::spec_serialize(m) == p4);
        lemma_concat_associative(p3, bool::spec_serialize(m.successful), rest);
        lemma_concat_associative(p2, DiggingStatus::spec_serialize(m.status), t3);
        lemma_concat_associative(p1, VarInt::spec_serialize(m.block), t2);
        IntPosition::lemma_round_trip(m.location, t1);
        assert(IntPosition::spec_deserialize(Self::spec_serialize(m) + rest) == Ok::<(<IntPosition as Codec>::Model, Seq<u8>), DeserializeErr>((m.location, t1)));
        VarInt::lemma_round_trip(m.block, t2);
        assert(VarInt::spec_deserialize(t1) == Ok::<(<VarInt as Codec>::Model, Seq<u8>), DeserializeErr>((m.block, t2)));
        DiggingStatus::lemma_round_trip(m.status, t3);
        assert(DiggingStatus::spec_deserialize(t2) == Ok::<(<DiggingStatus as Codec>::Model, Seq<u8>), DeserializeErr>((m.status, t3)));
        bool::lemma_round_trip(m.successful, rest);
        assert(bool::spec_deserialize(t3) == Ok::<(<bool as Codec>::Model, Seq<u8>), DeserializeErr>((m.successful, rest)));
    }

    fn mc_serialize(&self, to: &mut Vec<u8>) {
        let ghost start = to@;
        self.location.mc_serialize(to);
        self.block.mc_serialize(to);
        proof {
            lemma_concat_associative(start, IntPosition::spec_serialize(self.location.model()), VarInt::spec_serialize(self.block.model()));
        }
        self.status.mc_serialize(to);
        proof {
            lemma_concat_associative(start, IntPosition::spec_serialize(self.location.model()) + VarInt::spec_serialize(self.block.model()), DiggingStatus::spec_serialize(self.status.model()));
        }
        self.successful.mc_serialize(to);
        proof {
            lemma_concat_associative(start, IntPosition::spec_serialize(self.location.model()) + VarInt::spec_serialize(self.block.model()) + DiggingStatus::spec_serialize(self.status.model()), bool::spec_serialize(self.successful.model()));
        }
        assert(to@ =~= start + Self::spec_serialize(self.model()));
    }

    fn mc_deserialize(data: &[u8]) -> (r: Result<(Self, &[u8]), DeserializeErr>) {
        let (location, rest) = IntPosition::mc_deserialize(data)?;
        let (block, rest) = VarInt::mc_deserialize(rest)?;
        let (status, rest) = DiggingStatus::mc_deserialize(rest)?;
        let (successful, rest) = bool::mc_deserialize(rest)?;
        Ok((PlayAcknowledgePlayerDiggingSpec { location, block, status, successful }, rest))
    }
}

/// The body of the play block break animation message, as values.
pub struct PlayBlockBreakAnimationSpecModel {
    pub entity_id: <VarInt as Codec>::Model,
    pub location: <IntPosition as Codec>::Model,
    pub destroy_stage: <i8 as Codec>::Model,
}

/// The body of the play block break animation message
#[derive(Debug, Clone, PartialEq, Eq)]
pub struct PlayBlockBreakAnimationSpec {
    pub entity_id: VarInt,
    pub location: IntPosition,
    pub destroy_stage: i8,
}

impl Codec for PlayBlockBreakAnimationSpec {
    type Model = PlayBlockBreakAnimationSpecModel;

    open spec fn model(&self) -> PlayBlockBreakAnimationSpecModel {
        PlayBlockBreakAnimationSpecModel { entity_id: self.entity_id.model(), location: self.location.model(), destroy_stage: self.destroy_stage.model() }
    }

    open spec fn encodable(m: PlayBlockBreakAnimationSpecModel) -> bool {
        VarInt::encodable(m.entity_id) && IntPosition::encodable(m.location) && i8::encodable(m.destroy_stage)
    }

    open spec fn legal(m: PlayBlockBreakAnimationSpecModel) -> bool {
        VarInt::legal(m.entity_id) && IntPosition::legal(m.location) && i8::legal(m.destroy_stage)
    }

    open spec fn spec_serialize(m: PlayBlockBreakAnimationSpecModel) -> Seq<u8> {
        VarInt::spec_serialize(m.entity_id) + IntPosition::spec_serialize(m.location) + i8::spec_serialize(m.destroy_stage)
    }

    open spec fn spec_deserialize(s: Seq<u8>) -> SpecResult<PlayBlockBreakAnimationSpecModel> {
        match VarInt::spec_deserialize(s) {
            Err(e) => Err(e),
            Ok((entity_id, r1)) => match IntPosition::spec_deserialize(r1) {
                Err(e) => Err(e),
                Ok((location, r2)) => match i8::spec_deserialize(r2) {
                    Err(e) => Err(e),
                    Ok((destroy_stage, r3)) => Ok((PlayBlockBreakAnimationSpecModel { entity_id, location, destroy_stage }, r3)),
                },
            },
        }
    }

    proof fn lemma_round_trip(m: PlayBlockBreakAnimationSpecModel, rest: Seq<u8>) {
        let t2 = i8::spec_serialize(m.destroy_stage) + rest;
        let t1 = IntPosition::spec_serialize(m.location) + t2;
        let p1 = VarInt::spec_serialize(m.entity_id);
        let p2 = p1 + IntPosition::spec_serialize(m.location);
        let p3 = p2 + i8::spec_serialize(m.destroy_stage);
        assert(Self::spec_serialize(m) == p3);
        lemma_concat_associative(p2, i8::spec_serialize(m.destroy_stage), rest);
        lemma_concat_associative(p1, IntPosition::spec_serialize(m.location), t2);
        VarInt::lemma_round_trip(m.entity_id, t1);
        IntPosition::lemma_round_trip(m.location, t2);
        i8::lemma_round_trip(m.destroy_stage, rest);
    }

    fn mc_serialize(&self, to: &mut Vec<u8>) {
        let ghost start = to@;
        self.entity_id.mc_serialize(to);
        self.location.mc_serialize(to);
        proof {
            lemma_concat_associative(start, VarInt::spec_serialize(self.entity_id.model()), IntPosition::spec_serialize(self.location.model()));
        }
        self.destroy_stage.mc_serialize(to);
        proof {
            lemma_concat_associative(start, VarInt::spec_serialize(self.entity_id.model()) + IntPosition::spec_serialize(self.location.model()), i8::spec_serialize(self.destroy_stage.model()));
        }
        assert(to@ =~= start + Self::spec_serialize(self.model()));
    }

    fn mc_deserialize(data: &[u8]) -> (r: Result<(Self, &[u8]), DeserializeErr>) {
        let (entity_id, rest) = VarInt::mc_deserialize(data)?;
        let (location, rest) = IntPosition::mc_deserialize(rest)?;
        let (destroy_stage, rest) = i8::mc_deserialize(rest)?;
        Ok((PlayBlockBreakAnimationSpec { entity_id, location, destroy_stage }, rest))
    }
}

/// The body of the play block entity data message, as values.
pub struct PlayBlockEntityDataSpecModel {
    pub location: <IntPosition as Codec>::Model,
    pub action: <BlockEntityDataAction as Codec>::Model,
    pub nbt_data: <NamedNbtTag as Codec>::Model,
}

/// The body of the play block entity data message
#[derive(Debug, Clone, PartialEq, Eq)]
pub struct PlayBlockEntityDataSpec {
    pub location: IntPosition,
    pub action: BlockEntityDataAction,
    pub nbt_data: NamedNbtTag,
}

impl Codec for PlayBlockEntityDataSpec {
    type Model = PlayBlockEntityDataSpecModel;

    open spec fn model(&self) -> PlayBlockEntityDataSpecModel {
        PlayBlockEntityDataSpecModel { location: self.location.model(), action: self.action.model(), nbt_data: self.nbt_data.model() }
    }

    open spec fn encodable(m: PlayBlockEntityDataSpecModel) -> bool {
        IntPosition::encodable(m.location) && BlockEntityDataAction::encodable(m.action) && NamedNbtTag::encodable(m.nbt_data)
    }

    open spec fn legal(m: PlayBlockEntityDataSpecModel) -> bool {
        IntPosition::legal(m.location) && BlockEntityDataAction::legal(m.action) && NamedNbtTag::legal(m.nbt_data)
    }

    open spec fn spec_serialize(m: PlayBlockEntityDataSpecModel) -> Seq<u8> {
        IntPosition::spec_serialize(m.location) + BlockEntityDataAction::spec_serialize(m.action) + NamedNbtTag::spec_serialize(m.nbt_data)
    }

    open spec fn spec_deserialize(s: Seq<u8>) -> SpecResult<PlayBlockEntityDataSpecModel> {
        match IntPosition::spec_deserialize(s) {
            Err(e) => Err(e),
            Ok((location, r1)) => match BlockEntityDataAction::spec_deserialize(r1) {
                Err(e) => Err(e),
                Ok((action, r2)) => match NamedNbtTag::spec_deserialize(r2) {
                    Err(e) => Err(e),
                    Ok((nbt_data, r3)) => Ok((PlayBlockEntityDataSpecModel { location, action, nbt_data }, r3)),
                },
            },
        }
    }

    proof fn lemma_round_trip(m: PlayBlockEntityDataSpecModel, rest: Seq<u8>) {
        let t2 = NamedNbtTag::spec_serialize(m.nbt_data) + rest;
        let t1 = BlockEntityDataAction::spec_serialize(m.action) + t2;
        let p1 = IntPosition::spec_serialize(m.location);
        let p2 = p1 + BlockEntityDataAction::spec_serialize(m.action);
        let p3 = p2 + NamedNbtTag::spec_serialize(m.nbt_data);
        assert(Self::spec_serialize(m) == p3);
        lemma_concat_associative(p2, NamedNbtTag::spec_serialize(m.nbt_data), rest);
        lemma_concat_associative(p1, BlockEntityDataAction::spec_serialize(m.action), t2);
        IntPosition::lemma_round_trip(m.location, t1);
        BlockEntityDataAction::lemma_round_trip(m.action, t2);
        NamedNbtTag::lemma_round_trip(m.nbt_data, rest);
    }

    fn mc_serialize(&self, to: &mut Vec<u8>) {
        let ghost start = to@;
        self.location.mc_serialize(to);
        self.action.mc_serialize(to);
        proof {
            lemma_concat_associative(start, IntPosition::spec_serialize(self.location.model()), BlockEntityDataAction::spec_serialize(self.action.model()));
        }
        self.nbt_data.mc_serialize(to);
        proof {
            lemma_concat_associative(start, IntPosition::spec_serialize(self.location.model()) + BlockEntityDataAction::spec_serialize(self.action.model()), NamedNbtTag::spec_serialize(self.nbt_data.model()));
        }
        assert(to@ =~= start + Self::spec_serialize(self.model()));
    }

    fn mc_deserialize(data: &[u8]) -> (r: Result<(Self, &[u8]), DeserializeErr>) {
        let (location, rest) = IntPosition::mc_deserialize(data)?;
        let (action, rest) = BlockEntityDataAction::mc_deserialize(rest)?;
        let (nbt_data, rest) = NamedNbtTag::mc_deserialize(rest)?;
        Ok((PlayBlockEntityDataSpec { location, action, nbt_data }, rest))
    }
}

/// The body of the play block action message, as values.
pub struct PlayBlockActionSpecModel {
    pub location: <IntPosition as Codec>::Model,
    pub action_id: <u8 as Codec>::Model,
    pub action_payload: <u8 as Codec>::Model,
    pub block_type: <VarInt as Codec>::Model,
}

/// The body of the play block action message
#[derive(Debug, Clone, PartialEq, Eq)]
pub struct PlayBlockActionSpec {
    pub location: IntPosition,
    pub action_id: u8,
    pub action_payload: u8,
    pub block_type: VarInt,
}

impl Codec for PlayBlockActionSpec {
    type Model = PlayBlockActionSpecModel;

    open spec fn model(&self) -> PlayBlockActionSpecModel {
        PlayBlockActionSpecModel { location: self.location.model(), action_id: self.action_id.model(), action_payload: self.action_payload.model(), block_type: self.block_type.model() }
    }

    open spec fn encodable(m: PlayBlockActionSpecModel) -> bool {
        IntPosition::encodable(m.location) && u8::encodable(m.action_id) && u8::encodable(m.action_payload) && VarInt::encodable(m.block_type)
    }

    open spec fn legal(m: PlayBlockActionSpecModel) -> bool {
        IntPosition::legal(m.location) && u8::legal(m.action_id) && u8::legal(m.action_payload) && VarInt::legal(m.block_type)
    }

    open spec fn spec_serialize(m: PlayBlockActionSpecModel) -> Seq<u8> {
        IntPosition::spec_serialize(m.location) + u8::spec_serialize(m.action_id) + u8::spec_serialize(m.action_payload) + VarInt::spec_serialize(m.block_type)
    }

    open spec fn spec_deserialize(s: Seq<u8>) -> SpecResult<PlayBlockActionSpecModel> {
        match IntPosition::spec_deserialize(s) {
            Err(e) => Err(e),
            Ok((location, r1)) => match u8::spec_deserialize(r1) {
                Err(e) => Err(e),
                Ok((action_id, r2)) => match u8::spec_deserialize(r2) {
                    Err(e) => Err(e),
                    Ok((action_payload, r3)) => match VarInt::spec_deserialize(r3) {
                        Err(e) => Err(e),
                        Ok((block_type, r4)) => Ok((PlayBlockActionSpecModel { location, action_id, action_payload, block_type }, r4)),
                    },
                },
            },
        }
    }

    #[verifier::rlimit(100)]
    #[verifier::spinoff_prover]
    proof fn lemma_round_trip(m: PlayBlockActionSpecModel, rest: Seq<u8>) {
        let t3 = VarInt::spec_serialize(m.block_type) + rest;
        let t2 = u8::spec_serialize(m.action_payload) + t3;
        let t1 = u8::spec_serialize(m.action_id) + t2;
        let p1 = IntPosition::spec_serialize(m.location);
        let p2 = p1 + u8::spec_serialize(m.action_id);
        let p3 = p2 + u8::spec_serialize(m.action_payload);
        let p4 = p3 + VarInt::spec_serialize(m.block_type);
        assert(Self::spec_serialize(m) == p4);
        lemma_concat_associative(p3, VarInt::spec_serialize(m.block_type), rest);
        lemma_concat_associative(p2, u8::spec_serialize(m.action_payload), t3);
        lemma_concat_associative(p1, u8::spec_serialize(m.action_id), t2);
        IntPosition::lemma_round_trip(m.location, t1);
        assert(IntPosition::spec_deserialize(Self::spec_serialize(m) + rest) == Ok::<(<IntPosition as Codec>::Model, Seq<u8>), DeserializeErr>((m.location, t1)));
        u8::lemma_round_trip(m.action_id, t2);
        assert(u8::spec_deserialize(t1) == Ok::<(<u8 as Codec>::Model, Seq<u8>), DeserializeErr>((m.action_id, t2)));
        u8::lemma_round_trip(m.action_payload, t3);
        assert(u8::spec_deserialize(t2) == Ok::<(<u8 as Codec>::Model, Seq<u8>), DeserializeErr>((m.action_payload, t3)));
        VarInt::lemma_round_trip(m.block_type, rest);
        assert(VarInt::spec_deserialize(t3) == Ok::<(<VarInt as Codec>::Model, Seq<u8>), DeserializeErr>((m.block_type, rest)));
    }

    fn mc_serialize(&self, to: &mut Vec<u8>) {
        let ghost start = to@;
        self.location.mc_serialize(to);
        self.action_id.mc_serialize(to);
        proof {
            lemma_concat_associative(start, IntPosition::spec_serialize(self.location.model()), u8::spec_serialize(self.action_id.model()));
        }
        self.action_payload.mc_serialize(to);
        proof {
            lemma_concat_associative(start, IntPosition::spec_serialize(self.location.model()) + u8::spec_serialize(self.action_id.model()), u8::spec_serialize(self.action_payload.model()));
        }
        self.block_type.mc_serialize(to);
        proof {
            lemma_concat_associative(start, IntPosition::spec_serialize(self.location.model()) + u8::spec_serialize(self.action_id.model()) + u8::spec_serialize(self.action_payload.model()), VarInt::spec_serialize(self.block_type.model()));
        }
        assert(to@ =~= start + Self::spec_serialize(self.model()));
    }

    fn mc_deserialize(data: &[u8]) -> (r: Result<(Self, &[u8]), DeserializeErr>) {
        let (location, rest) = IntPosition::mc_deserialize(data)?;
        let (action_id, rest) = u8::mc_deserialize(rest)?;
        let (action_payload, rest) = u8::mc_deserialize(rest)?;
        let (block_type, rest) = VarInt::mc_deserialize(rest)?;
        Ok((PlayBlockActionSpec { location, action_id, action_payload, block_type }, rest))
    }
}

/// The body of the play block change message, as values.
pub struct PlayBlockChangeSpecModel {
    pub location: <IntPosition as Codec>::Model,
    pub block_id: <VarInt as Codec>::Model,
}

/// The body of the play block change message
#[derive(Debug, Clone, PartialEq, Eq)]
pub struct PlayBlockChangeSpec {
    pub location: IntPosition,
    pub block_id: VarInt,
}

impl Codec for PlayBlockChangeSpec {
    type Model = PlayBlockChangeSpecModel;

    open spec fn model(&self) -> PlayBlockChangeSpecModel {
        PlayBlockChangeSpecModel { location: self.location.model(), block_id: self.block_id.model() }
    }

    open spec fn encodable(m: PlayBlockChangeSpecModel) -> bool {
        IntPosition::encodable(m.location) && VarInt::encodable(m.block_id)
    }

    open spec fn legal(m: PlayBlockChangeSpecModel) -> bool {
        IntPosition::legal(m.location) && VarInt::legal(m.block_id)
    }

    open spec fn spec_serialize(m: PlayBlockChangeSpecModel) -> Seq<u8> {
        IntPosition::spec_serialize(m.location) + VarInt::spec_serialize(m.block_id)
    }

    open spec fn spec_deserialize(s: Seq<u8>) -> SpecResult<PlayBlockChangeSpecModel> {
        match IntPosition::spec_deserialize(s) {
            Err(e) => Err(e),
            Ok((location, r1)) => match VarInt::spec_deserialize(r1) {
                Err(e) => Err(e),
                Ok((block_id, r2)) => Ok((PlayBlockChangeSpecModel { location, block_id }, r2)),
            },
        }
    }

    proof fn lemma_round_trip(m: PlayBlockChangeSpecModel, rest: Seq<u8>) {
        let t1 = VarInt::spec_serialize(m.block_id) + rest;
        let p1 = IntPosition::spec_serialize(m.location);
        let p2 = p1 + VarInt::spec_serialize(m.block_id);
        assert(Self::spec_serialize(m) == p2);
        lemma_concat_associative(p1, VarInt::spec_serialize(m.block_id), rest);
        IntPosition::lemma_round_trip(m.location, t1);
        VarInt::lemma_round_trip(m.block_id, rest);
    }

    fn mc_serialize(&self, to: &mut Vec<u8>) {
        let ghost start = to@;
        self.location.mc_serialize(to);
        self.block_id.mc_serialize(to);
        proof {
            lemma_concat_associative(start, IntPosition::spec_serialize(self.location.model()), VarInt::spec_serialize(self.block_id.model()));
        }
        assert(to@ =~= start + Self::spec_serialize(self.model()));
    }

    fn mc_deserialize(data: &[u8]) -> (r: Result<(Self, &[u8]), DeserializeErr>) {
        let (location, rest) = IntPosition::mc_deserialize(data)?;
        let (block_id, rest) = VarInt::mc_deserialize(rest)?;
        Ok((PlayBlockChangeSpec { location, block_id }, rest))
    }
}

/// The body of the play boss bar message, as values.
pub struct PlayBossBarSpecModel {
    pub uuid: <UUID4 as Codec>::Model,
    pub action: <BossBarAction as Codec>::Model,
}

/// The body of the play boss bar message
#[derive(Debug, Clone, PartialEq, Eq)]
pub struct PlayBossBarSpec {
    pub uuid: UUID4,
    pub action: BossBarAction,
}

impl Codec for PlayBossBarSpec {
    type Model = PlayBossBarSpecModel;

    open spec fn model(&self) -> PlayBossBarSpecModel {
        PlayBossBarSpecModel { uuid: self.uuid.model(), action: self.action.model() }
    }

    open spec fn encodable(m: PlayBossBarSpecModel) -> bool {
        UUID4::encodable(m.uuid) && BossBarAction::encodable(m.action)
    }

    open spec fn legal(m: PlayBossBarSpecModel) -> bool {
        UUID4::legal(m.uuid) && BossBarAction::legal(m.action)
    }

    open spec fn spec_serialize(m: PlayBossBarSpecModel) -> Seq<u8> {
        UUID4::spec_serialize(m.uuid) + BossBarAction::spec_serialize(m.action)
    }

    open spec fn spec_deserialize(s: Seq<u8>) -> SpecResult<PlayBossBarSpecModel> {
        match UUID4::spec_deserialize(s) {
            Err(e) => Err(e),
            Ok((uuid, r1)) => match BossBarAction::spec_deserialize(r1) {
                Err(e) => Err(e),
                Ok((action, r2)) => Ok((PlayBossBarSpecModel { uuid, action }, r2)),
            },
        }
    }

    proof fn lemma_round_trip(m: PlayBossBarSpecModel, rest: Seq<u8>) {
        let t1 = BossBarAction::spec_serialize(m.action) + rest;
        let p1 = UUID4::spec_serialize(m.uuid);
        let p2 = p1 + BossBarAction::spec_serialize(m.action);
        assert(Self::spec_serialize(m) == p2);
        lemma_concat_associative(p1, BossBarAction::spec_serialize(m.action), rest);
        UUID4::lemma_round_trip(m.uuid, t1);
        BossBarAction::lemma_round_trip(m.action, rest);
    }

    fn mc_serialize(&self, to: &mut Vec<u8>) {
        let ghost start = to@;
        self.uuid.mc_serialize(to);
        self.action.mc_serialize(to);
        proof {
            lemma_concat_associative(start, UUID4::spec_serialize(self.uuid.model()), BossBarAction::spec_serialize(self.action.model()));
        }
        assert(to@ =~= start + Self::spec_serialize(self.model()));
    }

    fn mc_deserialize(data: &[u8]) -> (r: Result<(Self, &[u8]), DeserializeErr>) {
        let (uuid, rest) = UUID4::mc_deserialize(data)?;
        let (action, rest) = BossBarAction::mc_deserialize(rest)?;
        Ok((PlayBossBarSpec { uuid, action }, rest))
    }
}

/// The body of the play server difficulty message, as values.
pub struct PlayServerDifficultySpecModel {
    pub difficulty: <Difficulty as Codec>::Model,
    pub locked: <bool as Codec>::Model,
}

/// The body of the play server difficulty message
#[derive(Debug, Clone, PartialEq, Eq)]
pub struct PlayServerDifficultySpec {
    pub difficulty: Difficulty,
    pub locked: bool,
}

impl Codec for PlayServerDifficultySpec {
    type Model = PlayServerDifficultySpecModel;

    open spec fn model(&self) -> PlayServerDifficultySpecModel {
        PlayServerDifficultySpecModel { difficulty: self.difficulty.model(), locked: self.locked.model() }
    }

    open spec fn encodable(m: PlayServerDifficultySpecModel) -> bool {
        Difficulty::encodable(m.difficulty) && bool::encodable(m.locked)
    }

    open spec fn legal(m: PlayServerDifficultySpecModel) -> bool {
        Difficulty::legal(m.difficulty) && bool::legal(m.locked)
    }

    open spec fn spec_serialize(m: PlayServerDifficultySpecModel) -> Seq<u8> {
        Difficulty::spec_serialize(m.difficulty) + bool::spec_serialize(m.locked)
    }

    open spec fn spec_deserialize(s: Seq<u8>) -> SpecResult<PlayServerDifficultySpecModel> {
        match Difficulty::spec_deserialize(s) {
            Err(e) => Err(e),
            Ok((difficulty, r1)) => match bool::spec_deserialize(r1) {
                Err(e) => Err(e),
                Ok((locked, r2)) => Ok((PlayServerDifficultySpecModel { difficulty, locked }, r2)),
            },
        }
    }

    proof fn lemma_round_trip(m: PlayServerDifficultySpecModel, rest: Seq<u8>) {
        let t1 = bool::spec_serialize(m.locked) + rest;
        let p1 = Difficulty::spec_serialize(m.difficulty);
        let p2 = p1 + bool::spec_serialize(m.locked);
        assert(Self::spec_serialize(m) == p2);
        lemma_concat_associative(p1, bool::spec_serialize(m.locked), rest);
        Difficulty::lemma_round_trip(m.difficulty, t1);
        bool::lemma_round_trip(m.locked, rest);
    }

    fn mc_serialize(&self, to: &mut Vec<u8>) {
        let ghost start = to@;
        self.difficulty.mc_serialize(to);
        self.locked.mc_serialize(to);
        proof {
            lemma_concat_associative(start, Difficulty::spec_serialize(self.difficulty.model()), bool::spec_serialize(self.locked.model()));
        }
        assert(to@ =~= start + Self::spec_serialize(self.model()));
    }

    fn mc_deserialize(data: &[u8]) -> (r: Result<(Self, &[u8]), DeserializeErr>) {
        let (difficulty, rest) = Difficulty::mc_deserialize(data)?;
        let (locked, rest) = bool::mc_deserialize(rest)?;
        Ok((PlayServerDifficultySpec { difficulty, locked }, rest))
    }
}

/// The body of the play server chat message message, as values.
pub struct PlayServerChatMessageSpecModel {
    pub message: <Chat as Codec>::Model,
    pub position: <ChatPosition as Codec>::Model,
}

/// The body of the play server chat message message
#[derive(Debug, Clone, PartialEq, Eq)]
pub struct PlayServerChatMessageSpec {
    pub message: Chat,
    pub position: ChatPosition,
}

impl Codec for PlayServerChatMessageSpec {
    type Model = PlayServerChatMessageSpecModel;

    open spec fn model(&self) -> PlayServerChatMessageSpecModel {
        PlayServerChatMessageSpecModel { message: self.message.model(), position: self.position.model() }
    }

    open spec fn encodable(m: PlayServerChatMessageSpecModel) -> bool {
        Chat::encodable(m.message) && ChatPosition::encodable(m.position)
    }

    open spec fn legal(m: PlayServerChatMessageSpecModel) -> bool {
        Chat::legal(m.message) && ChatPosition::legal(m.position)
    }

    open spec fn spec_serialize(m: PlayServerChatMessageSpecModel) -> Seq<u8> {
        Chat::spec_serialize(m.message) + ChatPosition::spec_serialize(m.position)
    }

    open spec fn spec_deserialize(s: Seq<u8>) -> SpecResult<PlayServerChatMessageSpecModel> {
        match Chat::spec_deserialize(s) {
            Err(e) => Err(e),
            Ok((message, r1)) => match ChatPosition::spec_deserialize(r1) {
                Err(e) => Err(e),
                Ok((position, r2)) => Ok((PlayServerChatMessageSpecModel { message, position }, r2)),
            },
        }
    }

    proof fn lemma_round_trip(m: PlayServerChatMessageSpecModel, rest: Seq<u8>) {
        let t1 = ChatPosition::spec_serialize(m.position) + rest;
        let p1 = Chat::spec_serialize(m.message);
        let p2 = p1 + ChatPosition::spec_serialize(m.position);
        assert(Self::spec_serialize(m) == p2);
        lemma_concat_associative(p1, ChatPosition::spec_serialize(m.position), rest);
        Chat::lemma_round_trip(m.message, t1);
        ChatPosition::lemma_round_trip(m.position, rest);
    }

    fn mc_serialize(&self, to: &mut Vec<u8>) {
        let ghost start = to@;
        self.message.mc_serialize(to);
        self.position.mc_serialize(to);
        proof {
            lemma_concat_associative(start, Chat::spec_serialize(self.message.model()), ChatPosition::spec_serialize(self.position.model()));
        }
        assert(to@ =~= start + Self::spec_serialize(self.model()));
    }

    fn mc_deserialize(data: &[u8]) -> (r: Result<(Self, &[u8]), DeserializeErr>) {
        let (message, rest) = Chat::mc_deserialize(data)?;
        let (position, rest) = ChatPosition::mc_deserialize(rest)?;
        Ok((PlayServerChatMessageSpec { message, position }, rest))
    }
}

/// The body of the play multi block change message, as values.
pub struct PlayMultiBlockChangeSpecModel {
    pub chunk_x: <i32 as Codec>::Model,
    pub chunk_z: <i32 as Codec>::Model,
    pub changes: <VarIntCountedArray<MultiBlockChangeRecord> as Codec>::Model,
}

/// The body of the play multi block change message
#[derive(Debug, Clone, PartialEq, Eq)]
pub struct PlayMultiBlockChangeSpec {
    pub chunk_x: i32,
    pub chunk_z: i32,
    pub changes: VarIntCountedArray<MultiBlockChangeRecord>,
}

impl Codec for PlayMultiBlockChangeSpec {
    type Model = PlayMultiBlockChangeSpecModel;

    open spec fn model(&self) -> PlayMultiBlockChangeSpecModel {
        PlayMultiBlockChangeSpecModel { chunk_x: self.chunk_x.model(), chunk_z: self.chunk_z.model(), changes: self.changes.model() }
    }

    open spec fn encodable(m: PlayMultiBlockChangeSpecModel) -> bool {
        i32::encodable(m.chunk_x) && i32::encodable(m.chunk_z) && VarIntCountedArray::<MultiBlockChangeRecord>::encodable(m.changes)
    }

    open spec fn legal(m: PlayMultiBlockChangeSpecModel) -> bool {
        i32::legal(m.chunk_x) && i32::legal(m.chunk_z) && VarIntCountedArray::<MultiBlockChangeRecord>::legal(m.changes)
    }

    open spec fn spec_serialize(m: PlayMultiBlockChangeSpecModel) -> Seq<u8> {
        i32::spec_serialize(m.chunk_x) + i32::spec_serialize(m.chunk_z) + VarIntCountedArray::<MultiBlockChangeRecord>::spec_serialize(m.changes)
    }

    open spec fn spec_deserialize(s: Seq<u8>) -> SpecResult<PlayMultiBlockChangeSpecModel> {
        match i32::spec_deserialize(s) {
            Err(e) => Err(e),
            Ok((chunk_x, r1)) => match i32::spec_deserialize(r1) {
                Err(e) => Err(e),
                Ok((chunk_z, r2)) => match VarIntCountedArray::<MultiBlockChangeRecord>::spec_deserialize(r2) {
                    Err(e) => Err(e),
                    Ok((changes, r3)) => Ok((PlayMultiBlockChangeSpecModel { chunk_x, chunk_z, changes }, r3)),
                },
            },
        }
    }

    proof fn lemma_round_trip(m: PlayMultiBlockChangeSpecModel, rest: Seq<u8>) {
        let t2 = VarIntCountedArray::<MultiBlockChangeRecord>::spec_serialize(m.changes) + rest;
        let t1 = i32::spec_serialize(m.chunk_z) + t2;
        let p1 = i32::spec_serialize(m.chunk_x);
        let p2 = p1 + i32::spec_serialize(m.chunk_z);
        let p3 = p2 + VarIntCountedArray::<MultiBlockChangeRecord>::spec_serialize(m.changes);
        assert(Self::spec_serialize(m) == p3);
        lemma_concat_associative(p2, VarIntCountedArray::<MultiBlockChangeRecord>::spec_serialize(m.changes), rest);
        lemma_concat_associative(p1, i32::spec_serialize(m.chunk_z), t2);
        i32::lemma_round_trip(m.chunk_x, t1);
        i32::lemma_round_trip(m.chunk_z, t2);
        VarIntCountedArray::<MultiBlockChangeRecord>::lemma_round_trip(m.changes, rest);
    }

    fn mc_serialize(&self, to: &mut Vec<u8>) {
        let ghost start = to@;
        self.chunk_x.mc_serialize(to);
        self.chunk_z.mc_serialize(to);
        proof {
            lemma_concat_associative(start, i32::spec_serialize(self.chunk_x.model()), i32::spec_serialize(self.chunk_z.model()));
        }
        self.changes.mc_serialize(to);
        proof {
            lemma_concat_associative(start, i32::spec_serialize(self.chunk_x.model()) + i32::spec_serialize(self.chunk_z.model()), VarIntCountedArray::<MultiBlockChangeRecord>::spec_serialize(self.changes.model()));
        }
        assert(to@ =~= start + Self::spec_serialize(self.model()));
    }

    fn mc_deserialize(data: &[u8]) -> (r: Result<(Self, &[u8]), DeserializeErr>) {
        let (chunk_x, rest) = i32::mc_deserialize(data)?;
        let (chunk_z, rest) = i32::mc_deserialize(rest)?;
        let (changes, rest) = VarIntCountedArray::<MultiBlockChangeRecord>::mc_deserialize(rest)?;
        Ok((PlayMultiBlockChangeSpec { chunk_x, chunk_z, changes }, rest))
    }
}

/// The body of the play tab complete message, as values.
pub struct PlayTabCompleteSpecModel {
    pub id: <VarInt as Codec>::Model,
    pub start: <VarInt as Codec>::Model,
    pub length: <VarInt as Codec>::Model,
    pub matches: <VarIntCountedArray<TabCompleteMatch> as Codec>::Model,
}

/// The body of the play tab complete message
#[derive(Debug, Clone, PartialEq, Eq)]
pub struct PlayTabCompleteSpec {
    pub id: VarInt,
    pub start: VarInt,
    pub length: VarInt,
    pub matches: VarIntCountedArray<TabCompleteMatch>,
}

impl Codec for PlayTabCompleteSpec {
    type Model = PlayTabCompleteSpecModel;

    open spec fn model(&self) -> PlayTabCompleteSpecModel {
        PlayTabCompleteSpecModel { id: self.id.model(), start: self.start.model(), length: self.length.model(), matches: self.matches.model() }
    }

    open spec fn encodable(m: PlayTabCompleteSpecModel) -> bool {
        VarInt::encodable(m.id) && VarInt::encodable(m.start) && VarInt::encodable(m.length) && VarIntCountedArray::<TabCompleteMatch>::encodable(m.matches)
    }

    open spec fn legal(m: PlayTabCompleteSpecModel) -> bool {
        VarInt::legal(m.id) && VarInt::legal(m.start) && VarInt::legal(m.length) && VarIntCountedArray::<TabCompleteMatch>::legal(m.matches)
    }

    open spec fn spec_serialize(m: PlayTabCompleteSpecModel) -> Seq<u8> {
        VarInt::spec_serialize(m.id) + VarInt::spec_serialize(m.start) + VarInt::spec_serialize(m.length) + VarIntCountedArray::<TabCompleteMatch>::spec_serialize(m.matches)
    }

    open spec fn spec_deserialize(s: Seq<u8>) -> SpecResult<PlayTabCompleteSpecModel> {
        match VarInt::spec_deserialize(s) {
            Err(e) => Err(e),
            Ok((id, r1)) => match VarInt::spec_deserialize(r1) {
                Err(e) => Err(e),
                Ok((start, r2)) => match VarInt::spec_deserialize(r2) {
                    Err(e) => Err(e),
                    Ok((length, r3)) => match VarIntCountedArray::<TabCompleteMatch>::spec_deserialize(r3) {
                        Err(e) => Err(e),
                        Ok((matches, r4)) => Ok((PlayTabCompleteSpecModel { id, start, length, matches }, r4)),
                    },
                },
            },
        }
    }

    #[verifier::rlimit(100)]
    #[verifier::spinoff_prover]
    proof fn lemma_round_trip(m: PlayTabCompleteSpecModel, rest: Seq<u8>) {
        let t3 = VarIntCountedArray::<TabCompleteMatch>::spec_serialize(m.matches) + rest;
        let t2 = VarInt::spec_serialize(m.length) + t3;
        let t1 = VarInt::spec_serialize(m.start) + t2;
        let p1 = VarInt::spec_serialize(m.id);
        let p2 = p1 + VarInt::spec_serialize(m.start);
        let p3 = p2 + VarInt::spec_serialize(m.length);
        let p4 = p3 + VarIntCountedArray::<TabCompleteMatch>::spec_serialize(m.matches);
        assert(Self::spec_serialize(m) == p4);
        lemma_concat_associative(p3, VarIntCountedArray::<TabCompleteMatch>::spec_serialize(m.matches), rest);
        lemma_concat_associative(p2, VarInt::spec_serialize(m.length), t3);
        lemma_concat_associative(p1, VarInt::spec_serialize(m.start), t2);
        VarInt::lemma_round_trip(m.id, t1);
        assert(VarInt::spec_deserialize(Self::spec_serialize(m) + rest) == Ok::<(<VarInt as Codec>::Model, Seq<u8>), DeserializeErr>((m.id, t1)));
        VarInt::lemma_round_trip(m.start, t2);
        assert(VarInt::spec_deserialize(t1) == Ok::<(<VarInt as Codec>::Model, Seq<u8>), DeserializeErr>((m.start, t2)));
        VarInt::lemma_round_trip(m.length, t3);
        assert(VarInt::spec_deserialize(t2) == Ok::<(<VarInt as Codec>::Model, Seq<u8>), DeserializeErr>((m.length, t3)));
        VarIntCountedArray::<TabCompleteMatch>::lemma_round_trip(m.matches, rest);
        assert(VarIntCountedArray::<TabCompleteMatch>::spec_deserialize(t3) == Ok::<(<VarIntCountedArray<TabCompleteMatch> as Codec>::Model, Seq<u8>), DeserializeErr>((m.matches, rest)));
    }

    fn mc_serialize(&self, to: &mut Vec<u8>) {
        let ghost start = to@;
        self.id.mc_serialize(to);
        self.start.mc_serialize(to);
        proof {
            lemma_concat_associative(start, VarInt::spec_serialize(self.id.model()), VarInt::spec_serialize(self.start.model()));
        }
        self.length.mc_serialize(to);
        proof {
            lemma_concat_associative(start, VarInt::spec_serialize(self.id.model()) + VarInt::spec_serialize(self.start.model()), VarInt::spec_serialize(self.length.model()));
        }
        self.matches.mc_serialize(to);
        proof {
            lemma_concat_associative(start, VarInt::spec_serialize(self.id.model()) + VarInt::spec_serialize(self.start.model()) + VarInt::spec_serialize(self.length.model()), VarIntCountedArray::<TabCompleteMatch>::spec_serialize(self.matches.model()));
        }
        assert(to@ =~= start + Self::spec_serialize(self.model()));
    }

    fn mc_deserialize(data: &[u8]) -> (r: Result<(Self, &[u8]), DeserializeErr>) {
        let (id, rest) = VarInt::mc_deserialize(data)?;
        let (start, rest) = VarInt::mc_deserialize(rest)?;
        let (length, rest) = VarInt::mc_deserialize(rest)?;
        let (matches, rest) = VarIntCountedArray::<TabCompleteMatch>::mc_deserialize(rest)?;
        Ok((PlayTabCompleteSpec { id, start, length, matches }, rest))
    }
}

/// The body of the play declare commands message, as values.
pub struct PlayDeclareCommandsSpecModel {
    pub nodes: <VarIntCountedArray<CommandNodeSpec> as Codec>::Model,
    pub root_index: <VarInt as Codec>::Model,
}

/// The body of the play declare commands message
#[derive(Debug, Clone, PartialEq, Eq)]
pub struct PlayDeclareCommandsSpec {
    pub nodes: VarIntCountedArray<CommandNodeSpec>,
    pub root_index: VarInt,
}

impl Codec for PlayDeclareCommandsSpec {
    type Model = PlayDeclareCommandsSpecModel;

    open spec fn model(&self) -> PlayDeclareCommandsSpecModel {
        PlayDeclareCommandsSpecModel { nodes: self.nodes.model(), root_index: self.root_index.model() }
    }

    open spec fn encodable(m: PlayDeclareCommandsSpecModel) -> bool {
        VarIntCountedArray::<CommandNodeSpec>::encodable(m.nodes) && VarInt::encodable(m.root_index)
    }

    open spec fn legal(m: PlayDeclareCommandsSpecModel) -> bool {
        VarIntCountedArray::<CommandNodeSpec>::legal(m.nodes) && VarInt::legal(m.root_index)
    }

    open spec fn spec_serialize(m: PlayDeclareCommandsSpecModel) -> Seq<u8> {
        VarIntCountedArray::<CommandNodeSpec>::spec_serialize(m.nodes) + VarInt::spec_serialize(m.root_index)
    }

    open spec fn spec_deserialize(s: Seq<u8>) -> SpecResult<PlayDeclareCommandsSpecModel> {
        match VarIntCountedArray::<CommandNodeSpec>::spec_deserialize(s) {
            Err(e) => Err(e),
            Ok((nodes, r1)) => match VarInt::spec_deserialize(r1) {
                Err(e) => Err(e),
                Ok((root_index, r2)) => Ok((PlayDeclareCommandsSpecModel { nodes, root_index }, r2)),
            },
        }
    }

    proof fn lemma_round_trip(m: PlayDeclareCommandsSpecModel, rest: Seq<u8>) {
        let t1 = VarInt::spec_serialize(m.root_index) + rest;
        let p1 = VarIntCountedArray::<CommandNodeSpec>::spec_serialize(m.nodes);
        let p2 = p1 + VarInt::spec_serialize(m.root_index);
        assert(Self::spec_serialize(m) == p2);
        lemma_concat_associative(p1, VarInt::spec_serialize(m.root_index), rest);
        VarIntCountedArray::<CommandNodeSpec>::lemma_round_trip(m.nodes, t1);
        VarInt::lemma_round_trip(m.root_index, rest);
    }

    fn mc_serialize(&self, to: &mut Vec<u8>) {
        let ghost start = to@;
        self.nodes.mc_serialize(to);
        self.root_index.mc_serialize(to);
        proof {
            lemma_concat_associative(start, VarIntCountedArray::<CommandNodeSpec>::spec_serialize(self.nodes.model()), VarInt::spec_serialize(self.root_index.model()));
        }
        assert(to@ =~= start + Self::spec_serialize(self.model()));
    }

    fn mc_deserialize(data: &[u8]) -> (r: Result<(Self, &[u8]), DeserializeErr>) {
        let (nodes, rest) = VarIntCountedArray::<CommandNodeSpec>::mc_deserialize(data)?;
        let (root_index, rest) = VarInt::mc_deserialize(rest)?;
        Ok((PlayDeclareCommandsSpec { nodes, root_index }, rest))
    }
}

/// The body of the play server window confirmation message, as values.
pub struct PlayServerWindowConfirmationSpecModel {
    pub window_id: <u8 as Codec>::Model,
    pub action_number: <i16 as Codec>::Model,
    pub accepted: <bool as Codec>::Model,
}

/// The body of the play server window confirmation message
#[derive(Debug, Clone, PartialEq, Eq)]
pub struct PlayServerWindowConfirmationSpec {
    pub window_id: u8,
    pub action_number: i16,
    pub accepted: bool,
}

impl Codec for PlayServerWindowConfirmationSpec {
    type Model = PlayServerWindowConfirmationSpecModel;

    open spec fn model(&self) -> PlayServerWindowConfirmationSpecModel {
        PlayServerWindowConfirmationSpecModel { window_id: self.window_id.model(), action_number: self.action_number.model(), accepted: self.accepted.model() }
    }

    open spec fn encodable(m: PlayServerWindowConfirmationSpecModel) -> bool {
        u8::encodable(m.window_id) && i16::encodable(m.action_number) && bool::encodable(m.accepted)
    }

    open spec fn legal(m: PlayServerWindowConfirmationSpecModel) -> bool {
        u8::legal(m.window_id) && i16::legal(m.action_number) && bool::legal(m.accepted)
    }

    open spec fn spec_serialize(m: PlayServerWindowConfirmationSpecModel) -> Seq<u8> {
        u8::spec_serialize(m.window_id) + i16::spec_serialize(m.action_number) + bool::spec_serialize(m.accepted)
    }

    open spec fn spec_deserialize(s: Seq<u8>) -> SpecResult<PlayServerWindowConfirmationSpecModel> {
        match u8::spec_deserialize(s) {
            Err(e) => Err(e),
            Ok((window_id, r1)) => match i16::spec_deserialize(r1) {
                Err(e) => Err(e),
                Ok((action_number, r2)) => match bool::spec_deserialize(r2) {
                    Err(e) => Err(e),
                    Ok((accepted, r3)) => Ok((PlayServerWindowConfirmationSpecModel { window_id, action_number, accepted }, r3)),
                },
            },
        }
    }

    proof fn lemma_round_trip(m: PlayServerWindowConfirmationSpecModel, rest: Seq<u8>) {
        let t2 = bool::spec_serialize(m.accepted) + rest;
        let t1 = i16::spec_serialize(m.action_number) + t2;
        let p1 = u8::spec_serialize(m.window_id);
        let p2 = p1 + i16::spec_serialize(m.action_number);
        let p3 = p2 + bool::spec_serialize(m.accepted);
        assert(Self::spec_serialize(m) == p3);
        lemma_concat_associative(p2, bool::spec_serialize(m.accepted), rest);
        lemma_concat_associative(p1, i16::spec_serialize(m.action_number), t2);
        u8::lemma_round_trip(m.window_id, t1);
        i16::lemma_round_trip(m.action_number, t2);
        bool::lemma_round_trip(m.accepted, rest);
    }

    fn mc_serialize(&self, to: &mut Vec<u8>) {
        let ghost start = to@;
        self.window_id.mc_serialize(to);
        self.action_number.mc_serialize(to);
        proof {
            lemma_concat_associative(start, u8::spec_serialize(self.window_id.model()), i16::spec_serialize(self.action_number.model()));
        }
        self.accepted.mc_serialize(to);
        proof {
            lemma_concat_associative(start, u8::spec_serialize(self.window_id.model()) + i16::spec_serialize(self.action_number.model()), bool::spec_serialize(self.accepted.model()));
        }
        assert(to@ =~= start + Self::spec_serialize(self.model()));
    }

    fn mc_deserialize(data: &[u8]) -> (r: Result<(Self, &[u8]), DeserializeErr>) {
        let (window_id, rest) = u8::mc_deserialize(data)?;
        let (action_number, rest) = i16::mc_deserialize(rest)?;
        let (accepted, rest) = bool::mc_deserialize(rest)?;
        Ok((PlayServerWindowConfirmationSpec { window_id, action_number, accepted }, rest))
    }
}

/// The body of the play server close window message, as values.
pub struct PlayServerCloseWindowSpecModel {
    pub window_id: <u8 as Codec>::Model,
}

/// The body of the play server close window message
#[derive(Debug, Clone, PartialEq, Eq)]
pub struct PlayServerCloseWindowSpec {
    pub window_id: u8,
}

impl Codec for PlayServerCloseWindowSpec {
    type Model = PlayServerCloseWindowSpecModel;

    open spec fn model(&self) -> PlayServerCloseWindowSpecModel {
        PlayServerCloseWindowSpecModel { window_id: self.window_id.model() }
    }

    open spec fn encodable(m: PlayServerCloseWindowSpecModel) -> bool {
        u8::encodable(m.window_id)
    }

    open spec fn legal(m: PlayServerCloseWindowSpecModel) -> bool {
        u8::legal(m.window_id)
    }

    open spec fn spec_serialize(m: PlayServerCloseWindowSpecModel) -> Seq<u8> {
        u8::spec_serialize(m.window_id)
    }

    open spec fn spec_deserialize(s: Seq<u8>) -> SpecResult<PlayServerCloseWindowSpecModel> {
        match u8::spec_deserialize(s) {
            Err(e) => Err(e),
            Ok((window_id, r1)) => Ok((PlayServerCloseWindowSpecModel { window_id }, r1)),
        }
    }

    proof fn lemma_round_trip(m: PlayServerCloseWindowSpecModel, rest: Seq<u8>) {
        u8::lemma_round_trip(m.window_id, rest);
    }

    fn mc_serialize(&self, to: &mut Vec<u8>) {
        let ghost start = to@;
        self.window_id.mc_serialize(to);
        assert(to@ =~= start + Self::spec_serialize(self.model()));
    }

    fn mc_deserialize(data: &[u8]) -> (r: Result<(Self, &[u8]), DeserializeErr>) {
        let (window_id, rest) = u8::mc_deserialize(data)?;
        Ok((PlayServerCloseWindowSpec { window_id }, rest))
    }
}

/// The body of the play window items message, as values.
pub struct PlayWindowItemsSpecModel {
    pub window_id: <u8 as Codec>::Model,
    pub slots: <ShortCountedArray<Option<Slot>> as Codec>::Model,
}

/// The body of the play window items message
#[derive(Debug, Clone, PartialEq, Eq)]
pub struct PlayWindowItemsSpec {
    pub window_id: u8,
    pub slots: ShortCountedArray<Option<Slot>>,
}

impl Codec for PlayWindowItemsSpec {
    type Model = PlayWindowItemsSpecModel;

    open spec fn model(&self) -> PlayWindowItemsSpecModel {
        PlayWindowItemsSpecModel { window_id: self.window_id.model(), slots: self.slots.model() }
    }

    open spec fn encodable(m: PlayWindowItemsSpecModel) -> bool {
        u8::encodable(m.window_id) && ShortCountedArray::<Option<Slot>>::encodable(m.slots)
    }

    open spec fn legal(m: PlayWindowItemsSpecModel) -> bool {
        u8::legal(m.window_id) && ShortCountedArray::<Option<Slot>>::legal(m.slots)
    }

    open spec fn spec_serialize(m: PlayWindowItemsSpecModel) -> Seq<u8> {
        u8::spec_serialize(m.window_id) + ShortCountedArray::<Option<Slot>>::spec_serialize(m.slots)
    }

    open spec fn spec_deserialize(s: Seq<u8>) -> SpecResult<PlayWindowItemsSpecModel> {
        match u8::spec_deserialize(s) {
            Err(e) => Err(e),
            Ok((window_id, r1)) => match ShortCountedArray::<Option<Slot>>::spec_deserialize(r1) {
                Err(e) => Err(e),
                Ok((slots, r2)) => Ok((PlayWindowItemsSpecModel { window_id, slots }, r2)),
            },
        }
    }

    proof fn lemma_round_trip(m: PlayWindowItemsSpecModel, rest: Seq<u8>) {
        let t1 = ShortCountedArray::<Option<Slot>>::spec_serialize(m.slots) + rest;
        let p1 = u8::spec_serialize(m.window_id);
        let p2 = p1 + ShortCountedArray::<Option<Slot>>::spec_serialize(m.slots);
        assert(Self::spec_serialize(m) == p2);
        lemma_concat_associative(p1, ShortCountedArray::<Option<Slot>>::spec_serialize(m.slots), rest);
        u8::lemma_round_trip(m.window_id, t1);
        ShortCountedArray::<Option<Slot>>::lemma_round_trip(m.slots, rest);
    }

    fn mc_serialize(&self, to: &mut Vec<u8>) {
        let ghost start = to@;
        self.window_id.mc_serialize(to);
        self.slots.mc_serialize(to);
        proof {
            lemma_concat_associative(start, u8::spec_serialize(self.window_id.model()), ShortCountedArray::<Option<Slot>>::spec_serialize(self.slots.model()));
        }
        assert(to@ =~= start + Self::spec_serialize(self.model()));
    }

    fn mc_deserialize(data: &[u8]) -> (r: Result<(Self, &[u8]), DeserializeErr>) {
        let (window_id, rest) = u8::mc_deserialize(data)?;
        let (slots, rest) = ShortCountedArray::<Option<Slot>>::mc_deserialize(rest)?;
        Ok((PlayWindowItemsSpec { window_id, slots }, rest))
    }
}

/// The body of the play window property message, as values.
pub struct PlayWindowPropertySpecModel {
    pub window_id: <u8 as Codec>::Model,
    pub property: <i16 as Codec>::Model,
    pub value: <i16 as Codec>::Model,
}

/// The body of the play window property message
#[derive(Debug, Clone, PartialEq, Eq)]
pub struct PlayWindowPropertySpec {
    pub window_id: u8,
    pub property: i16,
    pub value: i16,
}

impl Codec for PlayWindowPropertySpec {
    type Model = PlayWindowPropertySpecModel;

    open spec fn model(&self) -> PlayWindowPropertySpecModel {
        PlayWindowPropertySpecModel { window_id: self.window_id.model(), property: self.property.model(), value: self.value.model() }
    }

    open spec fn encodable(m: PlayWindowPropertySpecModel) -> bool {
        u8::encodable(m.window_id) && i16::encodable(m.property) && i16::encodable(m.value)
    }

    open spec fn legal(m: PlayWindowPropertySpecModel) -> bool {
        u8::legal(m.window_id) && i16::legal(m.property) && i16::legal(m.value)
    }

    open spec fn spec_serialize(m: PlayWindowPropertySpecModel) -> Seq<u8> {
        u8::spec_serialize(m.window_id) + i16::spec_serialize(m.property) + i16::spec_serialize(m.value)
    }

    open spec fn spec_deserialize(s: Seq<u8>) -> SpecResult<PlayWindowPropertySpecModel> {
        match u8::spec_deserialize(s) {
            Err(e) => Err(e),
            Ok((window_id, r1)) => match i16::spec_deserialize(r1) {
                Err(e) => Err(e),
                Ok((property, r2)) => match i16::spec_deserialize(r2) {
                    Err(e) => Err(e),
                    Ok((value, r3)) => Ok((PlayWindowPropertySpecModel { window_id, property, value }, r3)),
                },
            },
        }
    }

    proof fn lemma_round_trip(m: PlayWindowPropertySpecModel, rest: Seq<u8>) {
        let t2 = i16::spec_serialize(m.value) + rest;
        let t1 = i16::spec_serialize(m.property) + t2;
        let p1 = u8::spec_serialize(m.window_id);
        let p2 = p1 + i16::spec_serialize(m.property);
        let p3 = p2 + i16::spec_serialize(m.value);
        assert(Self::spec_serialize(m) == p3);
        lemma_concat_associative(p2, i16::spec_serialize(m.value), rest);
        lemma_concat_associative(p1, i16::spec_serialize(m.property), t2);
        u8::lemma_round_trip(m.window_id, t1);
        i16::lemma_round_trip(m.property, t2);
        i16::lemma_round_trip(m.value, rest);
    }

    fn mc_serialize(&self, to: &mut Vec<u8>) {
        let ghost start = to@;
        self.window_id.mc_serialize(to);
        self.property.mc_serialize(to);
        proof {
            lemma_concat_associative(start, u8::spec_serialize(self.window_id.model()), i16::spec_serialize(self.property.model()));
        }
        self.value.mc_serialize(to);
        proof {
            lemma_concat_associative(start, u8::spec_serialize(self.window_id.model()) + i16::spec_serialize(self.property.model()), i16::spec_serialize(self.value.model()));
        }
        assert(to@ =~= start + Self::spec_serialize(self.model()));
    }

    fn mc_deserialize(data: &[u8]) -> (r: Result<(Self, &[u8]), DeserializeErr>) {
        let (window_id, rest) = u8::mc_deserialize(data)?;
        let (property, rest) = i16::mc_deserialize(rest)?;
        let (value, rest) = i16::mc_deserialize(rest)?;
        Ok((PlayWindowPropertySpec { window_id, property, value }, rest))
    }
}

/// The body of the play set slot message, as values.
pub struct PlaySetSlotSpecModel {
    pub window_id: <u8 as Codec>::Model,
    pub slow: <i16 as Codec>::Model,
    pub slot_data: <Option<Slot> as Codec>::Model,
}

/// The body of the play set slot message
#[derive(Debug, Clone, PartialEq, Eq)]
pub struct PlaySetSlotSpec {
    pub window_id: u8,
    pub slow: i16,
    pub slot_data: Option<Slot>,
}

impl Codec for PlaySetSlotSpec {
    type Model = PlaySetSlotSpecModel;

    open spec fn model(&self) -> PlaySetSlotSpecModel {
        PlaySetSlotSpecModel { window_id: self.window_id.model(), slow: self.slow.model(), slot_data: self.slot_data.model() }
    }

    open spec fn encodable(m: PlaySetSlotSpecModel) -> bool {
        u8::encodable(m.window_id) && i16::encodable(m.slow) && Option::<Slot>::encodable(m.slot_data)
    }

    open spec fn legal(m: PlaySetSlotSpecModel) -> bool {
        u8::legal(m.window_id) && i16::legal(m.slow) && Option::<Slot>::legal(m.slot_data)
    }

    open spec fn spec_serialize(m: PlaySetSlotSpecModel) -> Seq<u8> {
        u8::spec_serialize(m.window_id) + i16::spec_serialize(m.slow) + Option::<Slot>::spec_serialize(m.slot_data)
    }

    open spec fn spec_deserialize(s: Seq<u8>) -> SpecResult<PlaySetSlotSpecModel> {
        match u8::spec_deserialize(s) {
            Err(e) => Err(e),
            Ok((window_id, r1)) => match i16::spec_deserialize(r1) {
                Err(e) => Err(e),
                Ok((slow, r2)) => match Option::<Slot>::spec_deserialize(r2) {
                    Err(e) => Err(e),
                    Ok((slot_data, r3)) => Ok((PlaySetSlotSpecModel { window_id, slow, slot_data }, r3)),
                },
            },
        }
    }

    proof fn lemma_round_trip(m: PlaySetSlotSpecModel, rest: Seq<u8>) {
        let t2 = Option::<Slot>::spec_serialize(m.slot_data) + rest;
        let t1 = i16::spec_serialize(m.slow) + t2;
        let p1 = u8::spec_serialize(m.window_id);
        let p2 = p1 + i16::spec_serialize(m.slow);
        let p3 = p2 + Option::<Slot>::spec_serialize(m.slot_data);
        assert(Self::spec_serialize(m) == p3);
        lemma_concat_associative(p2, Option::<Slot>::spec_serialize(m.slot_data), rest);
        lemma_concat_associative(p1, i16::spec_serialize(m.slow), t2);
        u8::lemma_round_trip(m.window_id, t1);
        i16::lemma_round_trip(m.slow, t2);
        Option::<Slot>::lemma_round_trip(m.slot_data, rest);
    }

    fn mc_serialize(&self, to: &mut Vec<u8>) {
        let ghost start = to@;
        self.window_id.mc_serialize(to);
        self.slow.mc_serialize(to);
        proof {
            lemma_concat_associative(start, u8::spec_serialize(self.window_id.model()), i16::spec_serialize(self.slow.model()));
        }
        self.slot_data.mc_serialize(to);
        proof {
            lemma_concat_associative(start, u8::spec_serialize(self.window_id.model()) + i16::spec_serialize(self.slow.model()), Option::<Slot>::spec_serialize(self.slot_data.model()));
        }
        assert(to@ =~= start + Self::spec_serialize(self.model()));
    }

    fn mc_deserialize(data: &[u8]) -> (r: Result<(Self, &[u8]), DeserializeErr>) {
        let (window_id, rest) = u8::mc_deserialize(data)?;
        let (slow, rest) = i16::mc_deserialize(rest)?;
        let (slot_data, rest) = Option::<Slot>::mc_deserialize(rest)?;
        Ok((PlaySetSlotSpec { window_id, slow, slot_data }, rest))
    }
}

/// The body of the play set cooldown message, as values.
pub struct PlaySetCooldownSpecModel {
    pub item_id: <VarInt as Codec>::Model,
    pub cooldown_ticks: <VarInt as Codec>::Model,
}

/// The body of the play set cooldown message
#[derive(Debug, Clone, PartialEq, Eq)]
pub struct PlaySetCooldownSpec {
    pub item_id: VarInt,
    pub cooldown_ticks: VarInt,
}

impl Codec for PlaySetCooldownSpec {
    type Model = PlaySetCooldownSpecModel;

    open spec fn model(&self) -> PlaySetCooldownSpecModel {
        PlaySetCooldownSpecModel { item_id: self.item_id.model(), cooldown_ticks: self.cooldown_ticks.model() }
    }

    open spec fn encodable(m: PlaySetCooldownSpecModel) -> bool {
        VarInt::encodable(m.item_id) && VarInt::encodable(m.cooldown_ticks)
    }

    open spec fn legal(m: PlaySetCooldownSpecModel) -> bool {
        VarInt::legal(m.item_id) && VarInt::legal(m.cooldown_ticks)
    }

    open spec fn spec_serialize(m: PlaySetCooldownSpecModel) -> Seq<u8> {
        VarInt::spec_serialize(m.item_id) + VarInt::spec_serialize(m.cooldown_ticks)
    }

    open spec fn spec_deserialize(s: Seq<u8>) -> SpecResult<PlaySetCooldownSpecModel> {
        match VarInt::spec_deserialize(s) {
            Err(e) => Err(e),
            Ok((item_id, r1)) => match VarInt::spec_deserialize(r1) {
                Err(e) => Err(e),
                Ok((cooldown_ticks, r2)) => Ok((PlaySetCooldownSpecModel { item_id, cooldown_ticks }, r2)),
            },
        }
    }

    proof fn lemma_round_trip(m: PlaySetCooldownSpecModel, rest: Seq<u8>) {
        let t1 = VarInt::spec_serialize(m.cooldown_ticks) + rest;
        let p1 = VarInt::spec_serialize(m.item_id);
        let p2 = p1 + VarInt::spec_serialize(m.cooldown_ticks);
        assert(Self::spec_serialize(m) == p2);
        lemma_concat_associative(p1, VarInt::spec_serialize(m.cooldown_ticks), rest);
        VarInt::lemma_round_trip(m.item_id, t1);
        VarInt::lemma_round_trip(m.cooldown_ticks, rest);
    }

    fn mc_serialize(&self, to: &mut Vec<u8>) {
        let ghost start = to@;
        self.item_id.mc_serialize(to);
        self.cooldown_ticks.mc_serialize(to);
        proof {
            lemma_concat_associative(start, VarInt::spec_serialize(self.item_id.model()), VarInt::spec_serialize(self.cooldown_ticks.model()));
        }
        assert(to@ =~= start + Self::spec_serialize(self.model()));
    }

    fn mc_deserialize(data: &[u8]) -> (r: Result<(Self, &[u8]), DeserializeErr>) {
        let (item_id, rest) = VarInt::mc_deserialize(data)?;
        let (cooldown_ticks, rest) = VarInt::mc_deserialize(rest)?;
        Ok((PlaySetCooldownSpec { item_id, cooldown_ticks }, rest))
    }
}

/// The body of the play server plugin message message, as values.
pub struct PlayServerPluginMessageSpecModel {
    pub channel: <String as Codec>::Model,
    pub data: Seq<u8>,
}

/// The body of the play server plugin message message. The last field takes every remaining byte.
#[derive(Debug, Clone, PartialEq, Eq)]
pub struct PlayServerPluginMessageSpec {
    pub channel: String,
    pub data: RemainingBytes,
}

impl PlayServerPluginMessageSpec {
    pub open spec fn spec_model(&self) -> PlayServerPluginMessageSpecModel {
        PlayServerPluginMessageSpecModel { channel: self.channel.model(), data: self.data.data@ }
    }

    pub open spec fn legal(m: PlayServerPluginMessageSpecModel) -> bool {
        String::legal(m.channel)
    }

    pub open spec fn encodable(m: PlayServerPluginMessageSpecModel) -> bool {
        String::encodable(m.channel)
    }

    pub open spec fn spec_serialize(m: PlayServerPluginMessageSpecModel) -> Seq<u8> {
        String::spec_serialize(m.channel) + m.data
    }

    /// The fields in order; the last takes all that is left.
    pub open spec fn spec_deserialize(s: Seq<u8>) -> SpecResult<PlayServerPluginMessageSpecModel> {
        match String::spec_deserialize(s) {
            Err(e) => Err(e),
            Ok((channel, r1)) => Ok((PlayServerPluginMessageSpecModel { channel, data: r1 }, Seq::empty())),
        }
    }

    /// A body reads back from its own encoding.
    #[verifier::rlimit(100)]
    #[verifier::spinoff_prover]
    pub proof fn lemma_round_trip(m: PlayServerPluginMessageSpecModel)
        requires
            Self::legal(m),
        ensures
            Self::encodable(m),
            Self::spec_deserialize(Self::spec_serialize(m)) == Ok::<(PlayServerPluginMessageSpecModel, Seq<u8>), DeserializeErr>(
                (m, Seq::empty()),
            ),
    {
        assert(Self::spec_serialize(m) =~= String::spec_serialize(m.channel) + m.data);
        String::lemma_round_trip(m.channel, m.data);
    }

    pub fn mc_serialize(&self, to: &mut Vec<u8>)
        requires
            Self::encodable(self.spec_model()),
        ensures
            final(to)@ == old(to)@ + Self::spec_serialize(self.spec_model()),
    {
        let ghost start = to@;
        self.channel.mc_serialize(to);
        self.data.mc_serialize(to);
        assert(to@ =~= start + Self::spec_serialize(self.spec_model()));
    }

    pub fn mc_deserialize(data: &[u8]) -> (r: Result<(PlayServerPluginMessageSpec, &[u8]), DeserializeErr>)
        ensures
            read_matches(r, |v: PlayServerPluginMessageSpec| v.spec_model(), Self::spec_deserialize(data@)),
    {
        let (channel, rest) = String::mc_deserialize(data)?;
        let (data, rest) = RemainingBytes::mc_deserialize(rest)?;
        assert(rest@ =~= Seq::<u8>::empty());
        Ok((PlayServerPluginMessageSpec { channel, data }, rest))
    }
}

/// The body of the play named sound effect message, as values.
pub struct PlayNamedSoundEffectSpecModel {
    pub sound_name: <String as Codec>::Model,
    pub sound_category: <SoundCategory as Codec>::Model,
    pub position_x: <FixedInt as Codec>::Model,
    pub position_y: <FixedInt as Codec>::Model,
    pub position_z: <FixedInt as Codec>::Model,
    pub volume: <Float32 as Codec>::Model,
    pub pitch: <Float32 as Codec>::Model,
}

/// The body of the play named sound effect message
#[derive(Debug, Clone, PartialEq, Eq)]
pub struct PlayNamedSoundEffectSpec {
    pub sound_name: String,
    pub sound_category: SoundCategory,
    pub position_x: FixedInt,
    pub position_y: FixedInt,
    pub position_z: FixedInt,
    pub volume: Float32,
    pub pitch: Float32,
}

impl Codec for PlayNamedSoundEffectSpec {
    type Model = PlayNamedSoundEffectSpecModel;

    open spec fn model(&self) -> PlayNamedSoundEffectSpecModel {
        PlayNamedSoundEffectSpecModel { sound_name: self.sound_name.model(), sound_category: self.sound_category.model(), position_x: self.position_x.model(), position_y: self.position_y.model(), position_z: self.position_z.model(), volume: self.volume.model(), pitch: self.pitch.model() }
    }

    open spec fn encodable(m: PlayNamedSoundEffectSpecModel) -> bool {
        String::encodable(m.sound_name) && SoundCategory::encodable(m.sound_category) && FixedInt::encodable(m.position_x) && FixedInt::encodable(m.position_y) && FixedInt::encodable(m.position_z) && Float32::encodable(m.volume) && Float32::encodable(m.pitch)
    }

    open spec fn legal(m: PlayNamedSoundEffectSpecModel) -> bool {
        String::legal(m.sound_name) && SoundCategory::legal(m.sound_category) && FixedInt::legal(m.position_x) && FixedInt::legal(m.position_y) && FixedInt::legal(m.position_z) && Float32::legal(m.volume) && Float32::legal(m.pitch)
    }

    open spec fn spec_serialize(m: PlayNamedSoundEffectSpecModel) -> Seq<u8> {
        String::spec_serialize(m.sound_name) + SoundCategory::spec_serialize(m.sound_category) + FixedInt::spec_serialize(m.position_x) + FixedInt::spec_serialize(m.position_y) + FixedInt::spec_serialize(m.position_z) + Float32::spec_serialize(m.volume) + Float32::spec_serialize(m.pitch)
    }

    open spec fn spec_deserialize(s: Seq<u8>) -> SpecResult<PlayNamedSoundEffectSpecModel> {
        match String::spec_deserialize(s) {
            Err(e) => Err(e),
            Ok((sound_name, r1)) => match SoundCategory::spec_deserialize(r1) {
                Err(e) => Err(e),
                Ok((sound_category, r2)) => match FixedInt::spec_deserialize(r2) {
                    Err(e) => Err(e),
                    Ok((position_x, r3)) => match FixedInt::spec_deserialize(r3) {
                        Err(e) => Err(e),
                        Ok((position_y, r4)) => match FixedInt::spec_deserialize(r4) {
                            Err(e) => Err(e),
                            Ok((position_z, r5)) => match Float32::spec_deserialize(r5) {
                                Err(e) => Err(e),
                                Ok((volume, r6)) => match Float32::spec_deserialize(r6) {
                                    Err(e) => Err(e),
                                    Ok((pitch, r7)) => Ok((PlayNamedSoundEffectSpecModel { sound_name, sound_category, position_x, position_y, position_z, volume, pitch }, r7)),
                                },
                            },
                        },
                    },
                },
            },
        }
    }

    #[verifier::rlimit(100)]
    #[verifier::spinoff_prover]
    proof fn lemma_round_trip(m: PlayNamedSoundEffectSpecModel, rest: Seq<u8>) {
        let t6 = Float32::spec_serialize(m.pitch) + rest;
        let t5 = Float32::spec_serialize(m.volume) + t6;
        let t4 = FixedInt::spec_serialize(m.position_z) + t5;
        let t3 = FixedInt::spec_serialize(m.position_y) + t4;
        let t2 = FixedInt::spec_serialize(m.position_x) + t3;
        let t1 = SoundCategory::spec_serialize(m.sound_category) + t2;
        let p1 = String::spec_serialize(m.sound_name);
        let p2 = p1 + SoundCategory::spec_serialize(m.sound_category);
        let p3 = p2 + FixedInt::spec_serialize(m.position_x);
        let p4 = p3 + FixedInt::spec_serialize(m.position_y);
        let p5 = p4 + FixedInt::spec_serialize(m.position_z);
        let p6 = p5 + Float32::spec_serialize(m.volume);
        let p7 = p6 + Float32::spec_serialize(m.pitch);
        assert(Self::spec_serialize(m) == p7);
        lemma_concat_associative(p6, Float32::spec_serialize(m.pitch), rest);
        lemma_concat_associative(p5, Float32::spec_serialize(m.volume), t6);
        lemma_concat_associative(p4, FixedInt::spec_serialize(m.position_z), t5);
        lemma_concat_associative(p3, FixedInt::spec_serialize(m.position_y), t4);
        lemma_concat_associative(p2, FixedInt::spec_serialize(m.position_x), t3);
        lemma_concat_associative(p1, SoundCategory::spec_serialize(m.sound_category), t2);
        String::lemma_round_trip(m.sound_name, t1);
        assert(String::spec_deserialize(Self::spec_serialize(m) + rest) == Ok::<(<String as Codec>::Model, Seq<u8>), DeserializeErr>((m.sound_name, t1)));
        SoundCategory::lemma_round_trip(m.sound_category, t2);
        assert(SoundCategory::spec_deserialize(t1) == Ok::<(<SoundCategory as Codec>::Model, Seq<u8>), DeserializeErr>((m.sound_category, t2)));
        FixedInt::lemma_round_trip(m.position_x, t3);
        assert(FixedInt::spec_deserialize(t2) == Ok::<(<FixedInt as Codec>::Model, Seq<u8>), DeserializeErr>((m.position_x, t3)));
        FixedInt::lemma_round_trip(m.position_y, t4);
        assert(FixedInt::spec_deserialize(t3) == Ok::<(<FixedInt as Codec>::Model, Seq<u8>), DeserializeErr>((m.position_y, t4)));
        FixedInt::lemma_round_trip(m.position_z, t5);
        assert(FixedInt::spec_deserialize(t4) == Ok::<(<FixedInt as Codec>::Model, Seq<u8>), DeserializeErr>((m.position_z, t5)));
        Float32::lemma_round_trip(m.volume, t6);
        assert(Float32::spec_deserialize(t5) == Ok::<(<Float32 as Codec>::Model, Seq<u8>), DeserializeErr>((m.volume, t6)));
        Float32::lemma_round_trip(m.pitch, rest);
        assert(Float32::spec_deserialize(t6) == Ok::<(<Float32 as Codec>::Model, Seq<u8>), DeserializeErr>((m.pitch, rest)));
    }

    fn mc_serialize(&self, to: &mut Vec<u8>) {
        let ghost start = to@;
        self.sound_name.mc_serialize(to);
        self.sound_category.mc_serialize(to);
        proof {
            lemma_concat_associative(start, String::spec_serialize(self.sound_name.model()), SoundCategory::spec_serialize(self.sound_category.model()));
        }
        self.position_x.mc_serialize(to);
        proof {
            lemma_concat_associative(start, String::spec_serialize(self.sound_name.model()) + SoundCategory::spec_serialize(self.sound_category.model()), FixedInt::spec_serialize(self.position_x.model()));
        }
        self.position_y.mc_serialize(to);
        proof {
            lemma_concat_associative(start, String::spec_serialize(self.sound_name.model()) + SoundCategory::spec_serialize(self.sound_category.model()) + FixedInt::spec_serialize(self.position_x.model()), FixedInt::spec_serialize(self.position_y.model()));
        }
        self.position_z.mc_serialize(to);
        proof {
            lemma_concat_associative(start, String::spec_serialize(self.sound_name.model()) + SoundCategory::spec_serialize(self.sound_category.model()) + FixedInt::spec_serialize(self.position_x.model()) + FixedInt::spec_serialize(self.position_y.model()), FixedInt::spec_serialize(self.position_z.model()));
        }
        self.volume.mc_serialize(to);
        proof {
            lemma_concat_associative(start, String::spec_serialize(self.sound_name.model()) + SoundCategory::spec_serialize(self.sound_category.model()) + FixedInt::spec_serialize(self.position_x.model()) + FixedInt::spec_serialize(self.position_y.model()) + FixedInt::spec_serialize(self.position_z.model()), Float32::spec_serialize(self.volume.model()));
        }
        self.pitch.mc_serialize(to);
        proof {
            lemma_concat_associative(start, String::spec_serialize(self.sound_name.model()) + SoundCategory::spec_serialize(self.sound_category.model()) + FixedInt::spec_serialize(self.position_x.model()) + FixedInt::spec_serialize(self.position_y.model()) + FixedInt::spec_serialize(self.position_z.model()) + Float32::spec_serialize(self.volume.model()), Float32::spec_serialize(self.pitch.model()));
        }
        assert(to@ =~= start + Self::spec_serialize(self.model()));
    }

    fn mc_deserialize(data: &[u8]) -> (r: Result<(Self, &[u8]), DeserializeErr>) {
        let (sound_name, rest) = String::mc_deserialize(data)?;
        let (sound_category, rest) = SoundCategory::mc_deserialize(rest)?;
        let (position_x, rest) = FixedInt::mc_deserialize(rest)?;
        let (position_y, rest) = FixedInt::mc_deserialize(rest)?;
        let (position_z, rest) = FixedInt::mc_deserialize(rest)?;
        let (volume, rest) = Float32::mc_deserialize(rest)?;
        let (pitch, rest) = Float32::mc_deserialize(rest)?;
        Ok((PlayNamedSoundEffectSpec { sound_name, sound_category, position_x, position_y, position_z, volume, pitch }, rest))
    }
}

/// The body of the play disconnect message, as values.
pub struct PlayDisconnectSpecModel {
    pub reason: <Chat as Codec>::Model,
}

/// The body of the play disconnect message
#[derive(Debug, Clone, PartialEq, Eq)]
pub struct PlayDisconnectSpec {
    pub reason: Chat,
}

impl Codec for PlayDisconnectSpec {
    type Model = PlayDisconnectSpecModel;

    open spec fn model(&self) -> PlayDisconnectSpecModel {
        PlayDisconnectSpecModel { reason: self.reason.model() }
    }

    open spec fn encodable(m: PlayDisconnectSpecModel) -> bool {
        Chat::encodable(m.reason)
    }

    open spec fn legal(m: PlayDisconnectSpecModel) -> bool {
        Chat::legal(m.reason)
    }

    open spec fn spec_serialize(m: PlayDisconnectSpecModel) -> Seq<u8> {
        Chat::spec_serialize(m.reason)
    }

    open spec fn spec_deserialize(s: Seq<u8>) -> SpecResult<PlayDisconnectSpecModel> {
        match Chat::spec_deserialize(s) {
            Err(e) => Err(e),
            Ok((reason, r1)) => Ok((PlayDisconnectSpecModel { reason }, r1)),
        }
    }

    proof fn lemma_round_trip(m: PlayDisconnectSpecModel, rest: Seq<u8>) {
        Chat::lemma_round_trip(m.reason, rest);
    }

    fn mc_serialize(&self, to: &mut Vec<u8>) {
        let ghost start = to@;
        self.reason.mc_serialize(to);
        assert(to@ =~= start + Self::spec_serialize(self.model()));
    }

    fn mc_deserialize(data: &[u8]) -> (r: Result<(Self, &[u8]), DeserializeErr>) {
        let (reason, rest) = Chat::mc_deserialize(data)?;
        Ok((PlayDisconnectSpec { reason }, rest))
    }
}

/// The body of the play entity status message, as values.
pub struct PlayEntityStatusSpecModel {
    pub entity_id: <i32 as Codec>::Model,
    pub raw_status: <u8 as Codec>::Model,
}

/// The body of the play entity status message
#[derive(Debug, Clone, PartialEq, Eq)]
pub struct PlayEntityStatusSpec {
    pub entity_id: i32,
    pub raw_status: u8,
}

impl Codec for PlayEntityStatusSpec {
    type Model = PlayEntityStatusSpecModel;

    open spec fn model(&self) -> PlayEntityStatusSpecModel {
        PlayEntityStatusSpecModel { entity_id: self.entity_id.model(), raw_status: self.raw_status.model() }
    }

    open spec fn encodable(m: PlayEntityStatusSpecModel) -> bool {
        i32::encodable(m.entity_id) && u8::encodable(m.raw_status)
    }

    open spec fn legal(m: PlayEntityStatusSpecModel) -> bool {
        i32::legal(m.entity_id) && u8::legal(m.raw_status)
    }

    open spec fn spec_serialize(m: PlayEntityStatusSpecModel) -> Seq<u8> {
        i32::spec_serialize(m.entity_id) + u8::spec_serialize(m.raw_status)
    }

    open spec fn spec_deserialize(s: Seq<u8>) -> SpecResult<PlayEntityStatusSpecModel> {
        match i32::spec_deserialize(s) {
            Err(e) => Err(e),
            Ok((entity_id, r1)) => match u8::spec_deserialize(r1) {
                Err(e) => Err(e),
                Ok((raw_status, r2)) => Ok((PlayEntityStatusSpecModel { entity_id, raw_status }, r2)),
            },
        }
    }

    proof fn lemma_round_trip(m: PlayEntityStatusSpecModel, rest: Seq<u8>) {
        let t1 = u8::spec_serialize(m.raw_status) + rest;
        let p1 = i32::spec_serialize(m.entity_id);
        let p2 = p1 + u8::spec_serialize(m.raw_status);
        assert(Self::spec_serialize(m) == p2);
        lemma_concat_associative(p1, u8::spec_serialize(m.raw_status), rest);
        i32::lemma_round_trip(m.entity_id, t1);
        u8::lemma_round_trip(m.raw_status, rest);
    }

    fn mc_serialize(&self, to: &mut Vec<u8>) {
        let ghost start = to@;
        self.entity_id.mc_serialize(to);
        self.raw_status.mc_serialize(to);
        proof {
            lemma_concat_associative(start, i32::spec_serialize(self.entity_id.model()), u8::spec_serialize(self.raw_status.model()));
        }
        assert(to@ =~= start + Self::spec_serialize(self.model()));
    }

    fn mc_deserialize(data: &[u8]) -> (r: Result<(Self, &[u8]), DeserializeErr>) {
        let (entity_id, rest) = i32::mc_deserialize(data)?;
        let (raw_status, rest) = u8::mc_deserialize(rest)?;
        Ok((PlayEntityStatusSpec { entity_id, raw_status }, rest))
    }
}

/// The body of the play explosion message, as values.
pub struct PlayExplosionSpecModel {
    pub x: <Float32 as Codec>::Model,
    pub y: <Float32 as Codec>::Model,
    pub z: <Float32 as Codec>::Model,
    pub strength: <Float32 as Codec>::Model,
    pub records: <IntCountedArray<ExplosionRecord> as Codec>::Model,
    pub player_motion_x: <Float32 as Codec>::Model,
    pub player_motion_y: <Float32 as Codec>::Model,
    pub player_motion_z: <Float32 as Codec>::Model,
}

/// The body of the play explosion message
#[derive(Debug, Clone, PartialEq, Eq)]
pub struct PlayExplosionSpec {
    pub x: Float32,
    pub y: Float32,
    pub z: Float32,
    pub strength: Float32,
    pub records: IntCountedArray<ExplosionRecord>,
    pub player_motion_x: Float32,
    pub player_motion_y: Float32,
    pub player_motion_z: Float32,
}

impl Codec for PlayExplosionSpec {
    type Model = PlayExplosionSpecModel;

    open spec fn model(&self) -> PlayExplosionSpecModel {
        PlayExplosionSpecModel { x: self.x.model(), y: self.y.model(), z: self.z.model(), strength: self.strength.model(), records: self.records.model(), player_motion_x: self.player_motion_x.model(), player_motion_y: self.player_motion_y.model(), player_motion_z: self.player_motion_z.model() }
    }

    open spec fn encodable(m: PlayExplosionSpecModel) -> bool {
        Float32::encodable(m.x) && Float32::encodable(m.y) && Float32::encodable(m.z) && Float32::encodable(m.strength) && IntCountedArray::<ExplosionRecord>::encodable(m.records) && Float32::encodable(m.player_motion_x) && Float32::encodable(m.player_motion_y) && Float32::encodable(m.player_motion_z)
    }

    open spec fn legal(m: PlayExplosionSpecModel) -> bool {
        Float32::legal(m.x) && Float32::legal(m.y) && Float32::legal(m.z) && Float32::legal(m.strength) && IntCountedArray::<ExplosionRecord>::legal(m.records) && Float32::legal(m.player_motion_x) && Float32::legal(m.player_motion_y) && Float32::legal(m.player_motion_z)
    }

    open spec fn spec_serialize(m: PlayExplosionSpecModel) -> Seq<u8> {
        Float32::spec_serialize(m.x) + Float32::spec_serialize(m.y) + Float32::spec_serialize(m.z) + Float32::spec_serialize(m.strength) + IntCountedArray::<ExplosionRecord>::spec_serialize(m.records) + Float32::spec_serialize(m.player_motion_x) + Float32::spec_serialize(m.player_motion_y) + Float32::spec_serialize(m.player_motion_z)
    }

    open spec fn spec_deserialize(s: Seq<u8>) -> SpecResult<PlayExplosionSpecModel> {
        match Float32::spec_deserialize(s) {
            Err(e) => Err(e),
            Ok((x, r1)) => match Float32::spec_deserialize(r1) {
                Err(e) => Err(e),
                Ok((y, r2)) => match Float32::spec_deserialize(r2) {
                    Err(e) => Err(e),
                    Ok((z, r3)) => match Float32::spec_deserialize(r3) {
                        Err(e) => Err(e),
                        Ok((strength, r4)) => match IntCountedArray::<ExplosionRecord>::spec_deserialize(r4) {
                            Err(e) => Err(e),
                            Ok((records, r5)) => match Float32::spec_deserialize(r5) {
                                Err(e) => Err(e),
                                Ok((player_motion_x, r6)) => match Float32::spec_deserialize(r6) {
                                    Err(e) => Err(e),
                                    Ok((player_motion_y, r7)) => match Float32::spec_deserialize(r7) {
                                        Err(e) => Err(e),
                                        Ok((player_motion_z, r8)) => Ok((PlayExplosionSpecModel { x, y, z, strength, records, player_motion_x, player_motion_y, player_motion_z }, r8)),
                                    },
                                },
                            },
                        },
                    },
                },
            },
        }
    }

    #[verifier::rlimit(100)]
    #[verifier::spinoff_prover]
    proof fn lemma_round_trip(m: PlayExplosionSpecModel, rest: Seq<u8>) {
        let t7 = Float32::spec_serialize(m.player_motion_z) + rest;
        let t6 = Float32::spec_serialize(m.player_motion_y) + t7;
        let t5 = Float32::spec_serialize(m.player_motion_x) + t6;
        let t4 = IntCountedArray::<ExplosionRecord>::spec_serialize(m.records) + t5;
        let t3 = Float32::spec_serialize(m.strength) + t4;
        let t2 = Float32::spec_serialize(m.z) + t3;
        let t1 = Float32::spec_serialize(m.y) + t2;
        let p1 = Float32::spec_serialize(m.x);
        let p2 = p1 + Float32::spec_serialize(m.y);
        let p3 = p2 + Float32::spec_serialize(m.z);
        let p4 = p3 + Float32::spec_serialize(m.strength);
        let p5 = p4 + IntCountedArray::<ExplosionRecord>::spec_serialize(m.records);
        let p6 = p5 + Float32::spec_serialize(m.player_motion_x);
        let p7 = p6 + Float32::spec_serialize(m.player_motion_y);
        let p8 = p7 + Float32::spec_serialize(m.player_motion_z);
        assert(Self::spec_serialize(m) == p8);
        lemma_concat_associative(p7, Float32::spec_serialize(m.player_motion_z), rest);
        lemma_concat_associative(p6, Float32::spec_serialize(m.player_motion_y), t7);
        lemma_concat_associative(p5, Float32::spec_serialize(m.player_motion_x), t6);
        lemma_concat_associative(p4, IntCountedArray::<ExplosionRecord>::spec_serialize(m.records), t5);
        lemma_concat_associative(p3, Float32::spec_serialize(m.strength), t4);
        lemma_concat_associative(p2, Float32::spec_serialize(m.z), t3);
        lemma_concat_associative(p1, Float32::spec_serialize(m.y), t2);
        Float32::lemma_round_trip(m.x, t1);
        assert(Float32::spec_deserialize(Self::spec_serialize(m) + rest) == Ok::<(<Float32 as Codec>::Model, Seq<u8>), DeserializeErr>((m.x, t1)));
        Float32::lemma_round_trip(m.y, t2);
        assert(Float32::spec_deserialize(t1) == Ok::<(<Float32 as Codec>::Model, Seq<u8>), DeserializeErr>((m.y, t2)));
        Float32::lemma_round_trip(m.z, t3);
        assert(Float32::spec_deserialize(t2) == Ok::<(<Float32 as Codec>::Model, Seq<u8>), DeserializeErr>((m.z, t3)));
        Float32::lemma_round_trip(m.strength, t4);
        assert(Float32::spec_deserialize(t3) == Ok::<(<Float32 as Codec>::Model, Seq<u8>), DeserializeErr>((m.strength, t4)));
        IntCountedArray::<ExplosionRecord>::lemma_round_trip(m.records, t5);
        assert(IntCountedArray::<ExplosionRecord>::spec_deserialize(t4) == Ok::<(<IntCountedArray<ExplosionRecord> as Codec>::Model, Seq<u8>), DeserializeErr>((m.records, t5)));
        Float32::lemma_round_trip(m.player_motion_x, t6);
        assert(Float32::spec_deserialize(t5) == Ok::<(<Float32 as Codec>::Model, Seq<u8>), DeserializeErr>((m.player_motion_x, t6)));
        Float32::lemma_round_trip(m.player_motion_y, t7);
        assert(Float32::spec_deserialize(t6) == Ok::<(<Float32 as Codec>::Model, Seq<u8>), DeserializeErr>((m.player_motion_y, t7)));
        Float32::lemma_round_trip(m.player_motion_z, rest);
        assert(Float32::spec_deserialize(t7) == Ok::<(<Float32 as Codec>::Model, Seq<u8>), DeserializeErr>((m.player_motion_z, rest)));
    }

    fn mc_serialize(&self, to: &mut Vec<u8>) {
        let ghost start = to@;
        self.x.mc_serialize(to);
        self.y.mc_serialize(to);
        proof {
            lemma_concat_associative(start, Float32::spec_serialize(self.x.model()), Float32::spec_serialize(self.y.model()));
        }
        self.z.mc_serialize(to);
        proof {
            lemma_concat_associative(start, Float32::spec_serialize(self.x.model()) + Float32::spec_serialize(self.y.model()), Float32::spec_serialize(self.z.model()));
        }
        self.strength.mc_serialize(to);
        proof {
            lemma_concat_associative(start, Float32::spec_serialize(self.x.model()) + Float32::spec_serialize(self.y.model()) + Float32::spec_serialize(self.z.model()), Float32::spec_serialize(self.strength.model()));
        }
        self.records.mc_serialize(to);
        proof {
            lemma_concat_associative(start, Float32::spec_serialize(self.x.model()) + Float32::spec_serialize(self.y.model()) + Float32::spec_serialize(self.z.model()) + Float32::spec_serialize(self.strength.model()), IntCountedArray::<ExplosionRecord>::spec_serialize(self.records.model()));
        }
        self.player_motion_x.mc_serialize(to);
        proof {
            lemma_concat_associative(start, Float32::spec_serialize(self.x.model()) + Float32::spec_serialize(self.y.model()) + Float32::spec_serialize(self.z.model()) + Float32::spec_serialize(self.strength.model()) + IntCountedArray::<ExplosionRecord>::spec_serialize(self.records.model()), Float32::spec_serialize(self.player_motion_x.model()));
        }
        self.player_motion_y.mc_serialize(to);
        proof {
            lemma_concat_associative(start, Float32::spec_serialize(self.x.model()) + Float32::spec_serialize(self.y.model()) + Float32::spec_serialize(self.z.model()) + Float32::spec_serialize(self.strength.model()) + IntCountedArray::<ExplosionRecord>::spec_serialize(self.records.model()) + Float32::spec_serialize(self.player_motion_x.model()), Float32::spec_serialize(self.player_motion_y.model()));
        }
        self.player_motion_z.mc_serialize(to);
        proof {
            lemma_concat_associative(start, Float32::spec_serialize(self.x.model()) + Float32::spec_serialize(self.y.model()) + Float32::spec_serialize(self.z.model()) + Float32::spec_serialize(self.strength.model()) + IntCountedArray::<ExplosionRecord>::spec_serialize(self.records.model()) + Float32::spec_serialize(self.player_motion_x.model()) + Float32::spec_serialize(self.player_motion_y.model()), Float32::spec_serialize(self.player_motion_z.model()));
        }
        assert(to@ =~= start + Self::spec_serialize(self.model()));
    }

    fn mc_deserialize(data: &[u8]) -> (r: Result<(Self, &[u8]), DeserializeErr>) {
        let (x, rest) = Float32::mc_deserialize(data)?;
        let (y, rest) = Float32::mc_deserialize(rest)?;
        let (z, rest) = Float32::mc_deserialize(rest)?;
        let (strength, rest) = Float32::mc_deserialize(rest)?;
        let (records, rest) = IntCountedArray::<ExplosionRecord>::mc_deserialize(rest)?;
        let (player_motion_x, rest) = Float32::mc_deserialize(rest)?;
        let (player_motion_y, rest) = Float32::mc_deserialize(rest)?;
        let (player_motion_z, rest) = Float32::mc_deserialize(rest)?;
        Ok((PlayExplosionSpec { x, y, z, strength, records, player_motion_x, player_motion_y, player_motion_z }, rest))
    }
}

/// The body of the play unload chunk message, as values.
pub struct PlayUnloadChunkSpecModel {
    pub x: <i32 as Codec>::Model,
    pub y: <i32 as Codec>::Model,
}

/// The body of the play unload chunk message
#[derive(Debug, Clone, PartialEq, Eq)]
pub struct PlayUnloadChunkSpec {
    pub x: i32,
    pub y: i32,
}

impl Codec for PlayUnloadChunkSpec {
    type Model = PlayUnloadChunkSpecModel;

    open spec fn model(&self) -> PlayUnloadChunkSpecModel {
        PlayUnloadChunkSpecModel { x: self.x.model(), y: self.y.model() }
    }

    open spec fn encodable(m: PlayUnloadChunkSpecModel) -> bool {
        i32::encodable(m.x) && i32::encodable(m.y)
    }

    open spec fn legal(m: PlayUnloadChunkSpecModel) -> bool {
        i32::legal(m.x) && i32::legal(m.y)
    }

    open spec fn spec_serialize(m: PlayUnloadChunkSpecModel) -> Seq<u8> {
        i32::spec_serialize(m.x) + i32::spec_serialize(m.y)
    }

    open spec fn spec_deserialize(s: Seq<u8>) -> SpecResult<PlayUnloadChunkSpecModel> {
        match i32::spec_deserialize(s) {
            Err(e) => Err(e),
            Ok((x, r1)) => match i32::spec_deserialize(r1) {
                Err(e) => Err(e),
                Ok((y, r2)) => Ok((PlayUnloadChunkSpecModel { x, y }, r2)),
            },
        }
    }

    proof fn lemma_round_trip(m: PlayUnloadChunkSpecModel, rest: Seq<u8>) {
        let t1 = i32::spec_serialize(m.y) + rest;
        let p1 = i32::spec_serialize(m.x);
        let p2 = p1 + i32::spec_serialize(m.y);
        assert(Self::spec_serialize(m) == p2);
        lemma_concat_associative(p1, i32::spec_serialize(m.y), rest);
        i32::lemma_round_trip(m.x, t1);
        i32::lemma_round_trip(m.y, rest);
    }

    fn mc_serialize(&self, to: &mut Vec<u8>) {
        let ghost start = to@;
        self.x.mc_serialize(to);
        self.y.mc_serialize(to);
        proof {
            lemma_concat_associative(start, i32::spec_serialize(self.x.model()), i32::spec_serialize(self.y.model()));
        }
        assert(to@ =~= start + Self::spec_serialize(self.model()));
    }

    fn mc_deserialize(data: &[u8]) -> (r: Result<(Self, &[u8]), DeserializeErr>) {
        let (x, rest) = i32::mc_deserialize(data)?;
        let (y, rest) = i32::mc_deserialize(rest)?;
        Ok((PlayUnloadChunkSpec { x, y }, rest))
    }
}

/// The body of the play change game state message: a reason byte, then a float whose meaning the reason decides, as values.
pub struct PlayChangeGameStateSpecModel {
    pub reason: <u8 as Codec>::Model,
    pub value: <Float32 as Codec>::Model,
}

/// The body of the play change game state message: a reason byte, then a float whose meaning the reason decides
#[derive(Debug, Clone, PartialEq, Eq)]
pub struct PlayChangeGameStateSpec {
    pub reason: u8,
    pub value: Float32,
}

impl Codec for PlayChangeGameStateSpec {
    type Model = PlayChangeGameStateSpecModel;

    open spec fn model(&self) -> PlayChangeGameStateSpecModel {
        PlayChangeGameStateSpecModel { reason: self.reason.model(), value: self.value.model() }
    }

    open spec fn encodable(m: PlayChangeGameStateSpecModel) -> bool {
        u8::encodable(m.reason) && Float32::encodable(m.value)
    }

    open spec fn legal(m: PlayChangeGameStateSpecModel) -> bool {
        u8::legal(m.reason) && Float32::legal(m.value)
    }

    open spec fn spec_serialize(m: PlayChangeGameStateSpecModel) -> Seq<u8> {
        u8::spec_serialize(m.reason) + Float32::spec_serialize(m.value)
    }

    open spec fn spec_deserialize(s: Seq<u8>) -> SpecResult<PlayChangeGameStateSpecModel> {
        match u8::spec_deserialize(s) {
            Err(e) => Err(e),
            Ok((reason, r1)) => match Float32::spec_deserialize(r1) {
                Err(e) => Err(e),
                Ok((value, r2)) => Ok((PlayChangeGameStateSpecModel { reason, value }, r2)),
            },
        }
    }

    proof fn lemma_round_trip(m: PlayChangeGameStateSpecModel, rest: Seq<u8>) {
        let t1 = Float32::spec_serialize(m.value) + rest;
        let p1 = u8::spec_serialize(m.reason);
        let p2 = p1 + Float32::spec_serialize(m.value);
        assert(Self::spec_serialize(m) == p2);
        lemma_concat_associative(p1, Float32::spec_serialize(m.value), rest);
        u8::lemma_round_trip(m.reason, t1);
        Float32::lemma_round_trip(m.value, rest);
    }

    fn mc_serialize(&self, to: &mut Vec<u8>) {
        let ghost start = to@;
        self.reason.mc_serialize(to);
        self.value.mc_serialize(to);
        proof {
            lemma_concat_associative(start, u8::spec_serialize(self.reason.model()), Float32::spec_serialize(self.value.model()));
        }
        assert(to@ =~= start + Self::spec_serialize(self.model()));
    }

    fn mc_deserialize(data: &[u8]) -> (r: Result<(Self, &[u8]), DeserializeErr>) {
        let (reason, rest) = u8::mc_deserialize(data)?;
        let (value, rest) = Float32::mc_deserialize(rest)?;
        Ok((PlayChangeGameStateSpec { reason, value }, rest))
    }
}

/// The body of the play open horse window message, as values.
pub struct PlayOpenHorseWindowSpecModel {
    pub window_id: <u8 as Codec>::Model,
    pub number_of_slots: <VarInt as Codec>::Model,
    pub entity_id: <i32 as Codec>::Model,
}

/// The body of the play open horse window message
#[derive(Debug, Clone, PartialEq, Eq)]
pub struct PlayOpenHorseWindowSpec {
    pub window_id: u8,
    pub number_of_slots: VarInt,
    pub entity_id: i32,
}

impl Codec for PlayOpenHorseWindowSpec {
    type Model = PlayOpenHorseWindowSpecModel;

    open spec fn model(&self) -> PlayOpenHorseWindowSpecModel {
        PlayOpenHorseWindowSpecModel { window_id: self.window_id.model(), number_of_slots: self.number_of_slots.model(), entity_id: self.entity_id.model() }
    }

    open spec fn encodable(m: PlayOpenHorseWindowSpecModel) -> bool {
        u8::encodable(m.window_id) && VarInt::encodable(m.number_of_slots) && i32::encodable(m.entity_id)
    }

    open spec fn legal(m: PlayOpenHorseWindowSpecModel) -> bool {
        u8::legal(m.window_id) && VarInt::legal(m.number_of_slots) && i32::legal(m.entity_id)
    }

    open spec fn spec_serialize(m: PlayOpenHorseWindowSpecModel) -> Seq<u8> {
        u8::spec_serialize(m.window_id) + VarInt::spec_serialize(m.number_of_slots) + i32::spec_serialize(m.entity_id)
    }

    open spec fn spec_deserialize(s: Seq<u8>) -> SpecResult<PlayOpenHorseWindowSpecModel> {
        match u8::spec_deserialize(s) {
            Err(e) => Err(e),
            Ok((window_id, r1)) => match VarInt::spec_deserialize(r1) {
                Err(e) => Err(e),
                Ok((number_of_slots, r2)) => match i32::spec_deserialize(r2) {
                    Err(e) => Err(e),
                    Ok((entity_id, r3)) => Ok((PlayOpenHorseWindowSpecModel { window_id, number_of_slots, entity_id }, r3)),
                },
            },
        }
    }

    proof fn lemma_round_trip(m: PlayOpenHorseWindowSpecModel, rest: Seq<u8>) {
        let t2 = i32::spec_serialize(m.entity_id) + rest;
        let t1 = VarInt::spec_serialize(m.number_of_slots) + t2;
        let p1 = u8::spec_serialize(m.window_id);
        let p2 = p1 + VarInt::spec_serialize(m.number_of_slots);
        let p3 = p2 + i32::spec_serialize(m.entity_id);
        assert(Self::spec_serialize(m) == p3);
        lemma_concat_associative(p2, i32::spec_serialize(m.entity_id), rest);
        lemma_concat_associative(p1, VarInt::spec_serialize(m.number_of_slots), t2);
        u8::lemma_round_trip(m.window_id, t1);
        VarInt::lemma_round_trip(m.number_of_slots, t2);
        i32::lemma_round_trip(m.entity_id, rest);
    }

    fn mc_serialize(&self, to: &mut Vec<u8>) {
        let ghost start = to@;
        self.window_id.mc_serialize(to);
        self.number_of_slots.mc_serialize(to);
        proof {
            lemma_concat_associative(start, u8::spec_serialize(self.window_id.model()), VarInt::spec_serialize(self.number_of_slots.model()));
        }
        self.entity_id.mc_serialize(to);
        proof {
            lemma_concat_associative(start, u8::spec_serialize(self.window_id.model()) + VarInt::spec_serialize(self.number_of_slots.model()), i32::spec_serialize(self.entity_id.model()));
        }
        assert(to@ =~= start + Self::spec_serialize(self.model()));
    }

    fn mc_deserialize(data: &[u8]) -> (r: Result<(Self, &[u8]), DeserializeErr>) {
        let (window_id, rest) = u8::mc_deserialize(data)?;
        let (number_of_slots, rest) = VarInt::mc_deserialize(rest)?;
        let (entity_id, rest) = i32::mc_deserialize(rest)?;
        Ok((PlayOpenHorseWindowSpec { window_id, number_of_slots, entity_id }, rest))
    }
}

/// The body of the play server keep alive message, as values.
pub struct PlayServerKeepAliveSpecModel {
    pub id: <i64 as Codec>::Model,
}

/// The body of the play server keep alive message
#[derive(Debug, Clone, PartialEq, Eq)]
pub struct PlayServerKeepAliveSpec {
    pub id: i64,
}

impl Codec for PlayServerKeepAliveSpec {
    type Model = PlayServerKeepAliveSpecModel;

    open spec fn model(&self) -> PlayServerKeepAliveSpecModel {
        PlayServerKeepAliveSpecModel { id: self.id.model() }
    }

    open spec fn encodable(m: PlayServerKeepAliveSpecModel) -> bool {
        i64::encodable(m.id)
    }

    open spec fn legal(m: PlayServerKeepAliveSpecModel) -> bool {
        i64::legal(m.id)
    }

    open spec fn spec_serialize(m: PlayServerKeepAliveSpecModel) -> Seq<u8> {
        i64::spec_serialize(m.id)
    }

    open spec fn spec_deserialize(s: Seq<u8>) -> SpecResult<PlayServerKeepAliveSpecModel> {
        match i64::spec_deserialize(s) {
            Err(e) => Err(e),
            Ok((id, r1)) => Ok((PlayServerKeepAliveSpecModel { id }, r1)),
        }
    }

    proof fn lemma_round_trip(m: PlayServerKeepAliveSpecModel, rest: Seq<u8>) {
        i64::lemma_round_trip(m.id, rest);
    }

    fn mc_serialize(&self, to: &mut Vec<u8>) {
        let ghost start = to@;
        self.id.mc_serialize(to);
        assert(to@ =~= start + Self::spec_serialize(self.model()));
    }

    fn mc_deserialize(data: &[u8]) -> (r: Result<(Self, &[u8]), DeserializeErr>) {
        let (id, rest) = i64::mc_deserialize(data)?;
        Ok((PlayServerKeepAliveSpec { id }, rest))
    }
}

/// The body of the play chunk data message, as values.
pub struct PlayChunkDataWrapperModel {
    pub data: <ChunkData as Codec>::Model,
}

/// The body of the play chunk data message
#[derive(Debug, Clone, PartialEq, Eq)]
pub struct PlayChunkDataWrapper {
    pub data: ChunkData,
}

impl Codec for PlayChunkDataWrapper {
    type Model = PlayChunkDataWrapperModel;

    open spec fn model(&self) -> PlayChunkDataWrapperModel {
        PlayChunkDataWrapperModel { data: self.data.model() }
    }

    open spec fn encodable(m: PlayChunkDataWrapperModel) -> bool {
        ChunkData::encodable(m.data)
    }

    open spec fn legal(m: PlayChunkDataWrapperModel) -> bool {
        ChunkData::legal(m.data)
    }

    open spec fn spec_serialize(m: PlayChunkDataWrapperModel) -> Seq<u8> {
        ChunkData::spec_serialize(m.data)
    }

    open spec fn spec_deserialize(s: Seq<u8>) -> SpecResult<PlayChunkDataWrapperModel> {
        match ChunkData::spec_deserialize(s) {
            Err(e) => Err(e),
            Ok((data, r1)) => Ok((PlayChunkDataWrapperModel { data }, r1)),
        }
    }

    proof fn lemma_round_trip(m: PlayChunkDataWrapperModel, rest: Seq<u8>) {
        ChunkData::lemma_round_trip(m.data, rest);
    }

    fn mc_serialize(&self, to: &mut Vec<u8>) {
        let ghost start = to@;
        self.data.mc_serialize(to);
        assert(to@ =~= start + Self::spec_serialize(self.model()));
    }

    fn mc_deserialize(data: &[u8]) -> (r: Result<(Self, &[u8]), DeserializeErr>) {
        let (data, rest) = ChunkData::mc_deserialize(data)?;
        Ok((PlayChunkDataWrapper { data }, rest))
    }
}

/// The body of the play effect message, as values.
pub struct PlayEffectSpecModel {
    pub effect_id: <i32 as Codec>::Model,
    pub location: <IntPosition as Codec>::Model,
    pub data: <i32 as Codec>::Model,
    pub disable_relative_volume: <bool as Codec>::Model,
}

/// The body of the play effect message
#[derive(Debug, Clone, PartialEq, Eq)]
pub struct PlayEffectSpec {
    pub effect_id: i32,
    pub location: IntPosition,
    pub data: i32,
    pub disable_relative_volume: bool,
}

impl Codec for PlayEffectSpec {
    type Model = PlayEffectSpecModel;

    open spec fn model(&self) -> PlayEffectSpecModel {
        PlayEffectSpecModel { effect_id: self.effect_id.model(), location: self.location.model(), data: self.data.model(), disable_relative_volume: self.disable_relative_volume.model() }
    }

    open spec fn encodable(m: PlayEffectSpecModel) -> bool {
        i32::encodable(m.effect_id) && IntPosition::encodable(m.location) && i32::encodable(m.data) && bool::encodable(m.disable_relative_volume)
    }

    open spec fn legal(m: PlayEffectSpecModel) -> bool {
        i32::legal(m.effect_id) && IntPosition::legal(m.location) && i32::legal(m.data) && bool::legal(m.disable_relative_volume)
    }

    open spec fn spec_serialize(m: PlayEffectSpecModel) -> Seq<u8> {
        i32::spec_serialize(m.effect_id) + IntPosition::spec_serialize(m.location) + i32::spec_serialize(m.data) + bool::spec_serialize(m.disable_relative_volume)
    }

    open spec fn spec_deserialize(s: Seq<u8>) -> SpecResult<PlayEffectSpecModel> {
        match i32::spec_deserialize(s) {
            Err(e) => Err(e),
            Ok((effect_id, r1)) => match IntPosition::spec_deserialize(r1) {
                Err(e) => Err(e),
                Ok((location, r2)) => match i32::spec_deserialize(r2) {
                    Err(e) => Err(e),
                    Ok((data, r3)) => match bool::spec_deserialize(r3) {
                        Err(e) => Err(e),
                        Ok((disable_relative_volume, r4)) => Ok((PlayEffectSpecModel { effect_id, location, data, disable_relative_volume }, r4)),
                    },
                },
            },
        }
    }

    #[verifier::rlimit(100)]
    #[verifier::spinoff_prover]
    proof fn lemma_round_trip(m: PlayEffectSpecModel, rest: Seq<u8>) {
        let t3 = bool::spec_serialize(m.disable_relative_volume) + rest;
        let t2 = i32::spec_serialize(m.data) + t3;
        let t1 = IntPosition::spec_serialize(m.location) + t2;
        let p1 = i32::spec_serialize(m.effect_id);
        let p2 = p1 + IntPosition::spec_serialize(m.location);
        let p3 = p2 + i32::spec_serialize(m.data);
        let p4 = p3 + bool::spec_serialize(m.disable_relative_volume);
        assert(Self::spec_serialize(m) == p4);
        lemma_concat_associative(p3, bool::spec_serialize(m.disable_relative_volume), rest);
        lemma_concat_associative(p2, i32::spec_serialize(m.data), t3);
        lemma_concat_associative(p1, IntPosition::spec_serialize(m.location), t2);
        i32::lemma_round_trip(m.effect_id, t1);
        assert(i32::spec_deserialize(Self::spec_serialize(m) + rest) == Ok::<(<i32 as Codec>::Model, Seq<u8>), DeserializeErr>((m.effect_id, t1)));
        IntPosition::lemma_round_trip(m.location, t2);
        assert(IntPosition::spec_deserialize(t1) == Ok::<(<IntPosition as Codec>::Model, Seq<u8>), DeserializeErr>((m.location, t2)));
        i32::lemma_round_trip(m.data, t3);
        assert(i32::spec_deserialize(t2) == Ok::<(<i32 as Codec>::Model, Seq<u8>), DeserializeErr>((m.data, t3)));
        bool::lemma_round_trip(m.disable_relative_volume, rest);
        assert(bool::spec_deserialize(t3) == Ok::<(<bool as Codec>::Model, Seq<u8>), DeserializeErr>((m.disable_relative_volume, rest)));
    }

    fn mc_serialize(&self, to: &mut Vec<u8>) {
        let ghost start = to@;
        self.effect_id.mc_serialize(to);
        self.location.mc_serialize(to);
        proof {
            lemma_concat_associative(start, i32::spec_serialize(self.effect_id.model()), IntPosition::spec_serialize(self.location.model()));
        }
        self.data.mc_serialize(to);
        proof {
            lemma_concat_associative(start, i32::spec_serialize(self.effect_id.model()) + IntPosition::spec_serialize(self.location.model()), i32::spec_serialize(self.data.model()));
        }
        self.disable_relative_volume.mc_serialize(to);
        proof {
            lemma_concat_associative(start, i32::spec_serialize(self.effect_id.model()) + IntPosition::spec_serialize(self.location.model()) + i32::spec_serialize(self.data.model()), bool::spec_serialize(self.disable_relative_volume.model()));
        }
        assert(to@ =~= start + Self::spec_serialize(self.model()));
    }

    fn mc_deserialize(data: &[u8]) -> (r: Result<(Self, &[u8]), DeserializeErr>) {
        let (effect_id, rest) = i32::mc_deserialize(data)?;
        let (location, rest) = IntPosition::mc_deserialize(rest)?;
        let (data, rest) = i32::mc_deserialize(rest)?;
        let (disable_relative_volume, rest) = bool::mc_deserialize(rest)?;
        Ok((PlayEffectSpec { effect_id, location, data, disable_relative_volume }, rest))
    }
}

/// The body of the play particle message, as values.
pub struct PlayParticleSpecModel {
    pub particle_id: <i32 as Codec>::Model,
    pub long_distance: <bool as Codec>::Model,
    pub x: <Float64 as Codec>::Model,
    pub y: <Float64 as Codec>::Model,
    pub z: <Float64 as Codec>::Model,
    pub offset_x: <Float32 as Codec>::Model,
    pub offset_y: <Float32 as Codec>::Model,
    pub offset_z: <Float32 as Codec>::Model,
    pub particle_data: <i32 as Codec>::Model,
    pub data: Seq<u8>,
}

/// The body of the play particle message. The last field takes every remaining byte.
#[derive(Debug, Clone, PartialEq, Eq)]
pub struct PlayParticleSpec {
    pub particle_id: i32,
    pub long_distance: bool,
    pub x: Float64,
    pub y: Float64,
    pub z: Float64,
    pub offset_x: Float32,
    pub offset_y: Float32,
    pub offset_z: Float32,
    pub particle_data: i32,
    pub data: RemainingBytes,
}

impl PlayParticleSpec {
    pub open spec fn spec_model(&self) -> PlayParticleSpecModel {
        PlayParticleSpecModel { particle_id: self.particle_id.model(), long_distance: self.long_distance.model(), x: self.x.model(), y: self.y.model(), z: self.z.model(), offset_x: self.offset_x.model(), offset_y: self.offset_y.model(), offset_z: self.offset_z.model(), particle_data: self.particle_data.model(), data: self.data.data@ }
    }

    pub open spec fn legal(m: PlayParticleSpecModel) -> bool {
        i32::legal(m.particle_id) && bool::legal(m.long_distance) && Float64::legal(m.x) && Float64::legal(m.y) && Float64::legal(m.z) && Float32::legal(m.offset_x) && Float32::legal(m.offset_y) && Float32::legal(m.offset_z) && i32::legal(m.particle_data)
    }

    pub open spec fn encodable(m: PlayParticleSpecModel) -> bool {
        i32::encodable(m.particle_id) && bool::encodable(m.long_distance) && Float64::encodable(m.x) && Float64::encodable(m.y) && Float64::encodable(m.z) && Float32::encodable(m.offset_x) && Float32::encodable(m.offset_y) && Float32::encodable(m.offset_z) && i32::encodable(m.particle_data)
    }

    pub open spec fn spec_serialize(m: PlayParticleSpecModel) -> Seq<u8> {
        i32::spec_serialize(m.particle_id) + bool::spec_serialize(m.long_distance) + Float64::spec_serialize(m.x) + Float64::spec_serialize(m.y) + Float64::spec_serialize(m.z) + Float32::spec_serialize(m.offset_x) + Float32::spec_serialize(m.offset_y) + Float32::spec_serialize(m.offset_z) + i32::spec_serialize(m.particle_data) + m.data
    }

    /// The fields in order; the last takes all that is left.
    pub open spec fn spec_deserialize(s: Seq<u8>) -> SpecResult<PlayParticleSpecModel> {
        match i32::spec_deserialize(s) {
            Err(e) => Err(e),
            Ok((particle_id, r1)) => match bool::spec_deserialize(r1) {
                Err(e) => Err(e),
                Ok((long_distance, r2)) => match Float64::spec_deserialize(r2) {
                    Err(e) => Err(e),
                    Ok((x, r3)) => match Float64::spec_deserialize(r3) {
                        Err(e) => Err(e),
                        Ok((y, r4)) => match Float64::spec_deserialize(r4) {
                            Err(e) => Err(e),
                            Ok((z, r5)) => match Float32::spec_deserialize(r5) {
                                Err(e) => Err(e),
                                Ok((offset_x, r6)) => match Float32::spec_deserialize(r6) {
                                    Err(e) => Err(e),
                                    Ok((offset_y, r7)) => match Float32::spec_deserialize(r7) {
                                        Err(e) => Err(e),
                                        Ok((offset_z, r8)) => match i32::spec_deserialize(r8) {
                                            Err(e) => Err(e),
                                            Ok((particle_data, r9)) => Ok((PlayParticleSpecModel { particle_id, long_distance, x, y, z, offset_x, offset_y, offset_z, particle_data, data: r9 }, Seq::empty())),
                                        },
                                    },
                                },
                            },
                        },
                    },
                },
            },
        }
    }

    /// A body reads back from its own encoding.
    #[verifier::rlimit(100)]
    #[verifier::spinoff_prover]
    pub proof fn lemma_round_trip(m: PlayParticleSpecModel)
        requires
            Self::legal(m),
        ensures
            Self::encodable(m),
            Self::spec_deserialize(Self::spec_serialize(m)) == Ok::<(PlayParticleSpecModel, Seq<u8>), DeserializeErr>(
                (m, Seq::empty()),
            ),
    {
        let t8 = i32::spec_serialize(m.particle_data) + m.data;
        let t7 = Float32::spec_serialize(m.offset_z) + t8;
        let t6 = Float32::spec_serialize(m.offset_y) + t7;
        let t5 = Float32::spec_serialize(m.offset_x) + t6;
        let t4 = Float64::spec_serialize(m.z) + t5;
        let t3 = Float64::spec_serialize(m.y) + t4;
        let t2 = Float64::spec_serialize(m.x) + t3;
        let t1 = bool::spec_serialize(m.long_distance) + t2;
        assert(Self::spec_serialize(m) =~= i32::spec_serialize(m.particle_id) + t1);
        i32::lemma_round_trip(m.particle_id, t1);
        bool::lemma_round_trip(m.long_distance, t2);
        Float64::lemma_round_trip(m.x, t3);
        Float64::lemma_round_trip(m.y, t4);
        Float64::lemma_round_trip(m.z, t5);
        Float32::lemma_round_trip(m.offset_x, t6);
        Float32::lemma_round_trip(m.offset_y, t7);
        Float32::lemma_round_trip(m.offset_z, t8);
        i32::lemma_round_trip(m.particle_data, m.data);
    }

    pub fn mc_serialize(&self, to: &mut Vec<u8>)
        requires
            Self::encodable(self.spec_model()),
        ensures
            final(to)@ == old(to)@ + Self::spec_serialize(self.spec_model()),
    {
        let ghost start = to@;
        self.particle_id.mc_serialize(to);
        self.long_distance.mc_serialize(to);
        self.x.mc_serialize(to);
        self.y.mc_serialize(to);
        self.z.mc_serialize(to);
        self.offset_x.mc_serialize(to);
        self.offset_y.mc_serialize(to);
        self.offset_z.mc_serialize(to);
        self.particle_data.mc_serialize(to);
        self.data.mc_serialize(to);
        assert(to@ =~= start + Self::spec_serialize(self.spec_model()));
    }

    pub fn mc_deserialize(data: &[u8]) -> (r: Result<(PlayParticleSpec, &[u8]), DeserializeErr>)
        ensures
            read_matches(r, |v: PlayParticleSpec| v.spec_model(), Self::spec_deserialize(data@)),
    {
        let (particle_id, rest) = i32::mc_deserialize(data)?;
        let (long_distance, rest) = bool::mc_deserialize(rest)?;
        let (x, rest) = Float64::mc_deserialize(rest)?;
        let (y, rest) = Float64::mc_deserialize(rest)?;
        let (z, rest) = Float64::mc_deserialize(rest)?;
        let (offset_x, rest) = Float32::mc_deserialize(rest)?;
        let (offset_y, rest) = Float32::mc_deserialize(rest)?;
        let (offset_z, rest) = Float32::mc_deserialize(rest)?;
        let (particle_data, rest) = i32::mc_deserialize(rest)?;
        let (data, rest) = RemainingBytes::mc_deserialize(rest)?;
        assert(rest@ =~= Seq::<u8>::empty());
        Ok((PlayParticleSpec { particle_id, long_distance, x, y, z, offset_x, offset_y, offset_z, particle_data, data }, rest))
    }
}

/// The body of the play update light message, as values.
pub struct PlayUpdateLightSpecModel {
    pub chunk_x: <VarInt as Codec>::Model,
    pub chunk_z: <VarInt as Codec>::Model,
    pub update: <LightingUpdateSpec as Codec>::Model,
}

/// The body of the play update light message
#[derive(Debug, Clone, PartialEq, Eq)]
pub struct PlayUpdateLightSpec {
    pub chunk_x: VarInt,
    pub chunk_z: VarInt,
    pub update: LightingUpdateSpec,
}

impl Codec for PlayUpdateLightSpec {
    type Model = PlayUpdateLightSpecModel;

    open spec fn model(&self) -> PlayUpdateLightSpecModel {
        PlayUpdateLightSpecModel { chunk_x: self.chunk_x.model(), chunk_z: self.chunk_z.model(), update: self.update.model() }
    }

    open spec fn encodable(m: PlayUpdateLightSpecModel) -> bool {
        VarInt::encodable(m.chunk_x) && VarInt::encodable(m.chunk_z) && LightingUpdateSpec::encodable(m.update)
    }

    open spec fn legal(m: PlayUpdateLightSpecModel) -> bool {
        VarInt::legal(m.chunk_x) && VarInt::legal(m.chunk_z) && LightingUpdateSpec::legal(m.update)
    }

    open spec fn spec_serialize(m: PlayUpdateLightSpecModel) -> Seq<u8> {
        VarInt::spec_serialize(m.chunk_x) + VarInt::spec_serialize(m.chunk_z) + LightingUpdateSpec::spec_serialize(m.update)
    }

    open spec fn spec_deserialize(s: Seq<u8>) -> SpecResult<PlayUpdateLightSpecModel> {
        match VarInt::spec_deserialize(s) {
            Err(e) => Err(e),
            Ok((chunk_x, r1)) => match VarInt::spec_deserialize(r1) {
                Err(e) => Err(e),
                Ok((chunk_z, r2)) => match LightingUpdateSpec::spec_deserialize(r2) {
                    Err(e) => Err(e),
                    Ok((update, r3)) => Ok((PlayUpdateLightSpecModel { chunk_x, chunk_z, update }, r3)),
                },
            },
        }
    }

    proof fn lemma_round_trip(m: PlayUpdateLightSpecModel, rest: Seq<u8>) {
        let t2 = LightingUpdateSpec::spec_serialize(m.update) + rest;
        let t1 = VarInt::spec_serialize(m.chunk_z) + t2;
        let p1 = VarInt::spec_serialize(m.chunk_x);
        let p2 = p1 + VarInt::spec_serialize(m.chunk_z);
        let p3 = p2 + LightingUpdateSpec::spec_serialize(m.update);
        assert(Self::spec_serialize(m) == p3);
        lemma_concat_associative(p2, LightingUpdateSpec::spec_serialize(m.update), rest);
        lemma_concat_associative(p1, VarInt::spec_serialize(m.chunk_z), t2);
        VarInt::lemma_round_trip(m.chunk_x, t1);
        VarInt::lemma_round_trip(m.chunk_z, t2);
        LightingUpdateSpec::lemma_round_trip(m.update, rest);
    }

    fn mc_serialize(&self, to: &mut Vec<u8>) {
        let ghost start = to@;
        self.chunk_x.mc_serialize(to);
        self.chunk_z.mc_serialize(to);
        proof {
            lemma_concat_associative(start, VarInt::spec_serialize(self.chunk_x.model()), VarInt::spec_serialize(self.chunk_z.model()));
        }
        self.update.mc_serialize(to);
        proof {
            lemma_concat_associative(start, VarInt::spec_serialize(self.chunk_x.model()) + VarInt::spec_serialize(self.chunk_z.model()), LightingUpdateSpec::spec_serialize(self.update.model()));
        }
        assert(to@ =~= start + Self::spec_serialize(self.model()));
    }

    fn mc_deserialize(data: &[u8]) -> (r: Result<(Self, &[u8]), DeserializeErr>) {
        let (chunk_x, rest) = VarInt::mc_deserialize(data)?;
        let (chunk_z, rest) = VarInt::mc_deserialize(rest)?;
        let (update, rest) = LightingUpdateSpec::mc_deserialize(rest)?;
        Ok((PlayUpdateLightSpec { chunk_x, chunk_z, update }, rest))
    }
}

/// The body of the play join game message, as values.
pub struct PlayJoinGameSpecModel {
    pub entity_id: <i32 as Codec>::Model,
    pub gamemode: <GameMode as Codec>::Model,
    pub dimension: <Dimension as Codec>::Model,
    pub hashed_seed: <i64 as Codec>::Model,
    pub max_players: <u8 as Codec>::Model,
    pub level_type: <String as Codec>::Model,
    pub view_distance: <VarInt as Codec>::Model,
    pub reduced_debug_info: <bool as Codec>::Model,
    pub enable_respawn_screen: <bool as Codec>::Model,
}

/// The body of the play join game message
#[derive(Debug, Clone, PartialEq, Eq)]
pub struct PlayJoinGameSpec {
    pub entity_id: i32,
    pub gamemode: GameMode,
    pub dimension: Dimension,
    pub hashed_seed: i64,
    pub max_players: u8,
    pub level_type: String,
    pub view_distance: VarInt,
    pub reduced_debug_info: bool,
    pub enable_respawn_screen: bool,
}

impl Codec for PlayJoinGameSpec {
    type Model = PlayJoinGameSpecModel;

    open spec fn model(&self) -> PlayJoinGameSpecModel {
        PlayJoinGameSpecModel { entity_id: self.entity_id.model(), gamemode: self.gamemode.model(), dimension: self.dimension.model(), hashed_seed: self.hashed_seed.model(), max_players: self.max_players.model(), level_type: self.level_type.model(), view_distance: self.view_distance.model(), reduced_debug_info: self.reduced_debug_info.model(), enable_respawn_screen: self.enable_respawn_screen.model() }
    }

    open spec fn encodable(m: PlayJoinGameSpecModel) -> bool {
        i32::encodable(m.entity_id) && GameMode::encodable(m.gamemode) && Dimension::encodable(m.dimension) && i64::encodable(m.hashed_seed) && u8::encodable(m.max_players) && String::encodable(m.level_type) && VarInt::encodable(m.view_distance) && bool::encodable(m.reduced_debug_info) && bool::encodable(m.enable_respawn_screen)
    }

    open spec fn legal(m: PlayJoinGameSpecModel) -> bool {
        i32::legal(m.entity_id) && GameMode::legal(m.gamemode) && Dimension::legal(m.dimension) && i64::legal(m.hashed_seed) && u8::legal(m.max_players) && String::legal(m.level_type) && VarInt::legal(m.view_distance) && bool::legal(m.reduced_debug_info) && bool::legal(m.enable_respawn_screen)
    }

    open spec fn spec_serialize(m: PlayJoinGameSpecModel) -> Seq<u8> {
        i32::spec_serialize(m.entity_id) + GameMode::spec_serialize(m.gamemode) + Dimension::spec_serialize(m.dimension) + i64::spec_serialize(m.hashed_seed) + u8::spec_serialize(m.max_players) + String::spec_serialize(m.level_type) + VarInt::spec_serialize(m.view_distance) + bool::spec_serialize(m.reduced_debug_info) + bool::spec_serialize(m.enable_respawn_screen)
    }

    open spec fn spec_deserialize(s: Seq<u8>) -> SpecResult<PlayJoinGameSpecModel> {
        match i32::spec_deserialize(s) {
            Err(e) => Err(e),
            Ok((entity_id, r1)) => match GameMode::spec_deserialize(r1) {
                Err(e) => Err(e),
                Ok((gamemode, r2)) => match Dimension::spec_deserialize(r2) {
                    Err(e) => Err(e),
                    Ok((dimension, r3)) => match i64::spec_deserialize(r3) {
                        Err(e) => Err(e),
                        Ok((hashed_seed, r4)) => match u8::spec_deserialize(r4) {
                            Err(e) => Err(e),
                            Ok((max_players, r5)) => match String::spec_deserialize(r5) {
                                Err(e) => Err(e),
                                Ok((level_type, r6)) => match VarInt::spec_deserialize(r6) {
                                    Err(e) => Err(e),
                                    Ok((view_distance, r7)) => match bool::spec_deserialize(r7) {
                                        Err(e) => Err(e),
                                        Ok((reduced_debug_info, r8)) => match bool::spec_deserialize(r8) {
                                            Err(e) => Err(e),
                                            Ok((enable_respawn_screen, r9)) => Ok((PlayJoinGameSpecModel { entity_id, gamemode, dimension, hashed_seed, max_players, level_type, view_distance, reduced_debug_info, enable_respawn_screen }, r9)),
                                        },
                                    },
                                },
                            },
                        },
                    },
                },
            },
        }
    }

    #[verifier::rlimit(100)]
    #[verifier::spinoff_prover]
    proof fn lemma_round_trip(m: PlayJoinGameSpecModel, rest: Seq<u8>) {
        let t8 = bool::spec_serialize(m.enable_respawn_screen) + rest;
        let t7 = bool::spec_serialize(m.reduced_debug_info) + t8;
        let t6 = VarInt::spec_serialize(m.view_distance) + t7;
        let t5 = String::spec_serialize(m.level_type) + t6;
        let t4 = u8::spec_serialize(m.max_players) + t5;
        let t3 = i64::spec_serialize(m.hashed_seed) + t4;
        let t2 = Dimension::spec_serialize(m.dimension) + t3;
        let t1 = GameMode::spec_serialize(m.gamemode) + t2;
        let p1 = i32::spec_serialize(m.entity_id);
        let p2 = p1 + GameMode::spec_serialize(m.gamemode);
        let p3 = p2 + Dimension::spec_serialize(m.dimension);
        let p4 = p3 + i64::spec_serialize(m.hashed_seed);
        let p5 = p4 + u8::spec_serialize(m.max_players);
        let p6 = p5 + String::spec_serialize(m.level_type);
        let p7 = p6 + VarInt::spec_serialize(m.view_distance);
        let p8 = p7 + bool::spec_serialize(m.reduced_debug_info);
        let p9 = p8 + bool::spec_serialize(m.enable_respawn_screen);
        assert(Self::spec_serialize(m) == p9);
        lemma_concat_associative(p8, bool::spec_serialize(m.enable_respawn_screen), rest);
        lemma_concat_associative(p7, bool::spec_serialize(m.reduced_debug_info), t8);
        lemma_concat_associative(p6, VarInt::spec_serialize(m.view_distance), t7);
        lemma_concat_associative(p5, String::spec_serialize(m.level_type), t6);
        lemma_concat_associative(p4, u8::spec_serialize(m.max_players), t5);
        lemma_concat_associative(p3, i64::spec_serialize(m.hashed_seed), t4);
        lemma_concat_associative(p2, Dimension::spec_serialize(m.dimension), t3);
        lemma_concat_associative(p1, GameMode::spec_serialize(m.gamemode), t2);
        i32::lemma_round_trip(m.entity_id, t1);
        assert(i32::spec_deserialize(Self::spec_serialize(m) + rest) == Ok::<(<i32 as Codec>::Model, Seq<u8>), DeserializeErr>((m.entity_id, t1)));
        GameMode::lemma_round_trip(m.gamemode, t2);
        assert(GameMode::spec_deserialize(t1) == Ok::<(<GameMode as Codec>::Model, Seq<u8>), DeserializeErr>((m.gamemode, t2)));
        Dimension::lemma_round_trip(m.dimension, t3);
        assert(Dimension::spec_deserialize(t2) == Ok::<(<Dimension as Codec>::Model, Seq<u8>), DeserializeErr>((m.dimension, t3)));
        i64::lemma_round_trip(m.hashed_seed, t4);
        assert(i64::spec_deserialize(t3) == Ok::<(<i64 as Codec>::Model, Seq<u8>), DeserializeErr>((m.hashed_seed, t4)));
        u8::lemma_round_trip(m.max_players, t5);
        assert(u8::spec_deserialize(t4) == Ok::<(<u8 as Codec>::Model, Seq<u8>), DeserializeErr>((m.max_players, t5)));
        String::lemma_round_trip(m.level_type, t6);
        assert(String::spec_deserialize(t5) == Ok::<(<String as Codec>::Model, Seq<u8>), DeserializeErr>((m.level_type, t6)));
        VarInt::lemma_round_trip(m.view_distance, t7);
        assert(VarInt::spec_deserialize(t6) == Ok::<(<VarInt as Codec>::Model, Seq<u8>), DeserializeErr>((m.view_distance, t7)));
        bool::lemma_round_trip(m.reduced_debug_info, t8);
        assert(bool::spec_deserialize(t7) == Ok::<(<bool as Codec>::Model, Seq<u8>), DeserializeErr>((m.reduced_debug_info, t8)));
        bool::lemma_round_trip(m.enable_respawn_screen, rest);
        assert(bool::spec_deserialize(t8) == Ok::<(<bool as Codec>::Model, Seq<u8>), DeserializeErr>((m.enable_respawn_screen, rest)));
    }

    fn mc_serialize(&self, to: &mut Vec<u8>) {
        let ghost start = to@;
        self.entity_id.mc_serialize(to);
        self.gamemode.mc_serialize(to);
        proof {
            lemma_concat_associative(start, i32::spec_serialize(self.entity_id.model()), GameMode::spec_serialize(self.gamemode.model()));
        }
        self.dimension.mc_serialize(to);
        proof {
            lemma_concat_associative(start, i32::spec_serialize(self.entity_id.model()) + GameMode::spec_serialize(self.gamemode.model()), Dimension::spec_serialize(self.dimension.model()));
        }
        self.hashed_seed.mc_serialize(to);
        proof {
            lemma_concat_associative(start, i32::spec_serialize(self.entity_id.model()) + GameMode::spec_serialize(self.gamemode.model()) + Dimension::spec_serialize(self.dimension.model()), i64::spec_serialize(self.hashed_seed.model()));
        }
        self.max_players.mc_serialize(to);
        proof {
            lemma_concat_associative(start, i32::spec_serialize(self.entity_id.model()) + GameMode::spec_serialize(self.gamemode.model()) + Dimension::spec_serialize(self.dimension.model()) + i64::spec_serialize(self.hashed_seed.model()), u8::spec_serialize(self.max_players.model()));
        }
        self.level_type.mc_serialize(to);
        proof {
            lemma_concat_associative(start, i32::spec_serialize(self.entity_id.model()) + GameMode::spec_serialize(self.gamemode.model()) + Dimension::spec_serialize(self.dimension.model()) + i64::spec_serialize(self.hashed_seed.model()) + u8::spec_serialize(self.max_players.model()), String::spec_serialize(self.level_type.model()));
        }
        self.view_distance.mc_serialize(to);
        proof {
            lemma_concat_associative(start, i32::spec_serialize(self.entity_id.model()) + GameMode::spec_serialize(self.gamemode.model()) + Dimension::spec_serialize(self.dimension.model()) + i64::spec_serialize(self.hashed_seed.model()) + u8::spec_serialize(self.max_players.model()) + String::spec_serialize(self.level_type.model()), VarInt::spec_serialize(self.view_distance.model()));
        }
        self.reduced_debug_info.mc_serialize(to);
        proof {
            lemma_concat_associative(start, i32::spec_serialize(self.entity_id.model()) + GameMode::spec_serialize(self.gamemode.model()) + Dimension::spec_serialize(self.dimension.model()) + i64::spec_serialize(self.hashed_seed.model()) + u8::spec_serialize(self.max_players.model()) + String::spec_serialize(self.level_type.model()) + VarInt::spec_serialize(self.view_distance.model()), bool::spec_serialize(self.reduced_debug_info.model()));
        }
        self.enable_respawn_screen.mc_serialize(to);
        proof {
            lemma_concat_associative(start, i32::spec_serialize(self.entity_id.model()) + GameMode::spec_serialize(self.gamemode.model()) + Dimension::spec_serialize(self.dimension.model()) + i64::spec_serialize(self.hashed_seed.model()) + u8::spec_serialize(self.max_players.model()) + String::spec_serialize(self.level_type.model()) + VarInt::spec_serialize(self.view_distance.model()) + bool::spec_serialize(self.reduced_debug_info.model()), bool::spec_serialize(self.enable_respawn_screen.model()));
        }
        assert(to@ =~= start + Self::spec_serialize(self.model()));
    }

    fn mc_deserialize(data: &[u8]) -> (r: Result<(Self, &[u8]), DeserializeErr>) {
        let (entity_id, rest) = i32::mc_deserialize(data)?;
        let (gamemode, rest) = GameMode::mc_deserialize(rest)?;
        let (dimension, rest) = Dimension::mc_deserialize(rest)?;
        let (hashed_seed, rest) = i64::mc_deserialize(rest)?;
        let (max_players, rest) = u8::mc_deserialize(rest)?;
        let (level_type, rest) = String::mc_deserialize(rest)?;
        let (view_distance, rest) = VarInt::mc_deserialize(rest)?;
        let (reduced_debug_info, rest) = bool::mc_deserialize(rest)?;
        let (enable_respawn_screen, rest) = bool::mc_deserialize(rest)?;
        Ok((PlayJoinGameSpec { entity_id, gamemode, dimension, hashed_seed, max_players, level_type, view_distance, reduced_debug_info, enable_respawn_screen }, rest))
    }
}

/// The body of the play map data message, as values.
pub struct PlayMapDataSpecModel {
    pub map_id: <VarInt as Codec>::Model,
    pub scale: <i8 as Codec>::Model,
    pub tracking_position: <bool as Codec>::Model,
    pub locked: <bool as Codec>::Model,
    pub icons: <VarIntCountedArray<MapIconSpec> as Codec>::Model,
    pub columns: <MapColumns as Codec>::Model,
}

/// The body of the play map data message
#[derive(Debug, Clone, PartialEq, Eq)]
pub struct PlayMapDataSpec {
    pub map_id: VarInt,
    pub scale: i8,
    pub tracking_position: bool,
    pub locked: bool,
    pub icons: VarIntCountedArray<MapIconSpec>,
    pub columns: MapColumns,
}

impl Codec for PlayMapDataSpec {
    type Model = PlayMapDataSpecModel;

    open spec fn model(&self) -> PlayMapDataSpecModel {
        PlayMapDataSpecModel { map_id: self.map_id.model(), scale: self.scale.model(), tracking_position: self.tracking_position.model(), locked: self.locked.model(), icons: self.icons.model(), columns: self.columns.model() }
    }

    open spec fn encodable(m: PlayMapDataSpecModel) -> bool {
        VarInt::encodable(m.map_id) && i8::encodable(m.scale) && bool::encodable(m.tracking_position) && bool::encodable(m.locked) && VarIntCountedArray::<MapIconSpec>::encodable(m.icons) && MapColumns::encodable(m.columns)
    }

    open spec fn legal(m: PlayMapDataSpecModel) -> bool {
        VarInt::legal(m.map_id) && i8::legal(m.scale) && bool::legal(m.tracking_position) && bool::legal(m.locked) && VarIntCountedArray::<MapIconSpec>::legal(m.icons) && MapColumns::legal(m.columns)
    }

    open spec fn spec_serialize(m: PlayMapDataSpecModel) -> Seq<u8> {
        VarInt::spec_serialize(m.map_id) + i8::spec_serialize(m.scale) + bool::spec_serialize(m.tracking_position) + bool::spec_serialize(m.locked) + VarIntCountedArray::<MapIconSpec>::spec_serialize(m.icons) + MapColumns::spec_serialize(m.columns)
    }

    open spec fn spec_deserialize(s: Seq<u8>) -> SpecResult<PlayMapDataSpecModel> {
        match VarInt::spec_deserialize(s) {
            Err(e) => Err(e),
            Ok((map_id, r1)) => match i8::spec_deserialize(r1) {
                Err(e) => Err(e),
                Ok((scale, r2)) => match bool::spec_deserialize(r2) {
                    Err(e) => Err(e),
                    Ok((tracking_position, r3)) => match bool::spec_deserialize(r3) {
                        Err(e) => Err(e),
                        Ok((locked, r4)) => match VarIntCountedArray::<MapIconSpec>::spec_deserialize(r4) {
                            Err(e) => Err(e),
                            Ok((icons, r5)) => match MapColumns::spec_deserialize(r5) {
                                Err(e) => Err(e),
                                Ok((columns, r6)) => Ok((PlayMapDataSpecModel { map_id, scale, tracking_position, locked, icons, columns }, r6)),
                            },
                        },
                    },
                },
            },
        }
    }

    #[verifier::rlimit(100)]
    #[verifier::spinoff_prover]
    proof fn lemma_round_trip(m: PlayMapDataSpecModel, rest: Seq<u8>) {
        let t5 = MapColumns::spec_serialize(m.columns) + rest;
        let t4 = VarIntCountedArray::<MapIconSpec>::spec_serialize(m.icons) + t5;
        let t3 = bool::spec_serialize(m.locked) + t4;
        let t2 = bool::spec_serialize(m.tracking_position) + t3;
        let t1 = i8::spec_serialize(m.scale) + t2;
        let p1 = VarInt::spec_serialize(m.map_id);
        let p2 = p1 + i8::spec_serialize(m.scale);
        let p3 = p2 + bool::spec_serialize(m.tracking_position);
        let p4 = p3 + bool::spec_serialize(m.locked);
        let p5 = p4 + VarIntCountedArray::<MapIconSpec>::spec_serialize(m.icons);
        let p6 = p5 + MapColumns::spec_serialize(m.columns);
        assert(Self::spec_serialize(m) == p6);
        lemma_concat_associative(p5, MapColumns::spec_serialize(m.columns), rest);
        lemma_concat_associative(p4, VarIntCountedArray::<MapIconSpec>::spec_serialize(m.icons), t5);
        lemma_concat_associative(p3, bool::spec_serialize(m.locked), t4);
        lemma_concat_associative(p2, bool::spec_serialize(m.tracking_position), t3);
        lemma_concat_associative(p1, i8::spec_serialize(m.scale), t2);
        VarInt::lemma_round_trip(m.map_id, t1);
        assert(VarInt::spec_deserialize(Self::spec_serialize(m) + rest) == Ok::<(<VarInt as Codec>::Model, Seq<u8>), DeserializeErr>((m.map_id, t1)));
        i8::lemma_round_trip(m.scale, t2);
        assert(i8::spec_deserialize(t1) == Ok::<(<i8 as Codec>::Model, Seq<u8>), DeserializeErr>((m.scale, t2)));
        bool::lemma_round_trip(m.tracking_position, t3);
        assert(bool::spec_deserialize(t2) == Ok::<(<bool as Codec>::Model, Seq<u8>), DeserializeErr>((m.tracking_position, t3)));
        bool::lemma_round_trip(m.locked, t4);
        assert(bool::spec_deserialize(t3) == Ok::<(<bool as Codec>::Model, Seq<u8>), DeserializeErr>((m.locked, t4)));
        VarIntCountedArray::<MapIconSpec>::lemma_round_trip(m.icons, t5);
        assert(VarIntCountedArray::<MapIconSpec>::spec_deserialize(t4) == Ok::<(<VarIntCountedArray<MapIconSpec> as Codec>::Model, Seq<u8>), DeserializeErr>((m.icons, t5)));
        MapColumns::lemma_round_trip(m.columns, rest);
        assert(MapColumns::spec_deserialize(t5) == Ok::<(<MapColumns as Codec>::Model, Seq<u8>), DeserializeErr>((m.columns, rest)));
    }

    fn mc_serialize(&self, to: &mut Vec<u8>) {
        let ghost start = to@;
        self.map_id.mc_serialize(to);
        self.scale.mc_serialize(to);
        proof {
            lemma_concat_associative(start, VarInt::spec_serialize(self.map_id.model()), i8::spec_serialize(self.scale.model()));
        }
        self.tracking_position.mc_serialize(to);
        proof {
            lemma_concat_associative(start, VarInt::spec_serialize(self.map_id.model()) + i8::spec_serialize(self.scale.model()), bool::spec_serialize(self.tracking_position.model()));
        }
        self.locked.mc_serialize(to);
        proof {
            lemma_concat_associative(start, VarInt::spec_serialize(self.map_id.model()) + i8::spec_serialize(self.scale.model()) + bool::spec_serialize(self.tracking_position.model()), bool::spec_serialize(self.locked.model()));
        }
        self.icons.mc_serialize(to);
        proof {
            lemma_concat_associative(start, VarInt::spec_serialize(self.map_id.model()) + i8::spec_serialize(self.scale.model()) + bool::spec_serialize(self.tracking_position.model()) + bool::spec_serialize(self.locked.model()), VarIntCountedArray::<MapIconSpec>::spec_serialize(self.icons.model()));
        }
        self.columns.mc_serialize(to);
        proof {
            lemma_concat_associative(start, VarInt::spec_serialize(self.map_id.model()) + i8::spec_serialize(self.scale.model()) + bool::spec_serialize(self.tracking_position.model()) + bool::spec_serialize(self.locked.model()) + VarIntCountedArray::<MapIconSpec>::spec_serialize(self.icons.model()), MapColumns::spec_serialize(self.columns.model()));
        }
        assert(to@ =~= start + Self::spec_serialize(self.model()));
    }

    fn mc_deserialize(data: &[u8]) -> (r: Result<(Self, &[u8]), DeserializeErr>) {
        let (map_id, rest) = VarInt::mc_deserialize(data)?;
        let (scale, rest) = i8::mc_deserialize(rest)?;
        let (tracking_position, rest) = bool::mc_deserialize(rest)?;
        let (locked, rest) = bool::mc_deserialize(rest)?;
        let (icons, rest) = VarIntCountedArray::<MapIconSpec>::mc_deserialize(rest)?;
        let (columns, rest) = MapColumns::mc_deserialize(rest)?;
        Ok((PlayMapDataSpec { map_id, scale, tracking_position, locked, icons, columns }, rest))
    }
}

/// The body of the play trade list message, as values.
pub struct PlayTradeListSpecModel {
    pub window_id: <VarInt as Codec>::Model,
    pub trades: <ByteCountedArray<TradeSpec> as Codec>::Model,
    pub villager_level: <VarInt as Codec>::Model,
    pub experience: <VarInt as Codec>::Model,
    pub regular_villager: <bool as Codec>::Model,
    pub can_restock: <bool as Codec>::Model,
}

/// The body of the play trade list message
#[derive(Debug, Clone, PartialEq, Eq)]
pub struct PlayTradeListSpec {
    pub window_id: VarInt,
    pub trades: ByteCountedArray<TradeSpec>,
    pub villager_level: VarInt,
    pub experience: VarInt,
    pub regular_villager: bool,
    pub can_restock: bool,
}

impl Codec for PlayTradeListSpec {
    type Model = PlayTradeListSpecModel;

    open spec fn model(&self) -> PlayTradeListSpecModel {
        PlayTradeListSpecModel { window_id: self.window_id.model(), trades: self.trades.model(), villager_level: self.villager_level.model(), experience: self.experience.model(), regular_villager: self.regular_villager.model(), can_restock: self.can_restock.model() }
    }

    open spec fn encodable(m: PlayTradeListSpecModel) -> bool {
        VarInt::encodable(m.window_id) && ByteCountedArray::<TradeSpec>::encodable(m.trades) && VarInt::encodable(m.villager_level) && VarInt::encodable(m.experience) && bool::encodable(m.regular_villager) && bool::encodable(m.can_restock)
    }

    open spec fn legal(m: PlayTradeListSpecModel) -> bool {
        VarInt::legal(m.window_id) && ByteCountedArray::<TradeSpec>::legal(m.trades) && VarInt::legal(m.villager_level) && VarInt::legal(m.experience) && bool::legal(m.regular_villager) && bool::legal(m.can_restock)
    }

    open spec fn spec_serialize(m: PlayTradeListSpecModel) -> Seq<u8> {
        VarInt::spec_serialize(m.window_id) + ByteCountedArray::<TradeSpec>::spec_serialize(m.trades) + VarInt::spec_serialize(m.villager_level) + VarInt::spec_serialize(m.experience) + bool::spec_serialize(m.regular_villager) + bool::spec_serialize(m.can_restock)
    }

    open spec fn spec_deserialize(s: Seq<u8>) -> SpecResult<PlayTradeListSpecModel> {
        match VarInt::spec_deserialize(s) {
            Err(e) => Err(e),
            Ok((window_id, r1)) => match ByteCountedArray::<TradeSpec>::spec_deserialize(r1) {
                Err(e) => Err(e),
                Ok((trades, r2)) => match VarInt::spec_deserialize(r2) {
                    Err(e) => Err(e),
                    Ok((villager_level, r3)) => match VarInt::spec_deserialize(r3) {
                        Err(e) => Err(e),
                        Ok((experience, r4)) => match bool::spec_deserialize(r4) {
                            Err(e) => Err(e),
                            Ok((regular_villager, r5)) => match bool::spec_deserialize(r5) {
                                Err(e) => Err(e),
                                Ok((can_restock, r6)) => Ok((PlayTradeListSpecModel { window_id, trades, villager_level, experience, regular_villager, can_restock }, r6)),
                            },
                        },
                    },
                },
            },
        }
    }

    #[verifier::rlimit(100)]
    #[verifier::spinoff_prover]
    proof fn lemma_round_trip(m: PlayTradeListSpecModel, rest: Seq<u8>) {
        let t5 = bool::spec_serialize(m.can_restock) + rest;
        let t4 = bool::spec_serialize(m.regular_villager) + t5;
        let t3 = VarInt::spec_serialize(m.experience) + t4;
        let t2 = VarInt::spec_serialize(m.villager_level) + t3;
        let t1 = ByteCountedArray::<TradeSpec>::spec_serialize(m.trades) + t2;
        let p1 = VarInt::spec_serialize(m.window_id);
        let p2 = p1 + ByteCountedArray::<TradeSpec>::spec_serialize(m.trades);
        let p3 = p2 + VarInt::spec_serialize(m.villager_level);
        let p4 = p3 + VarInt::spec_serialize(m.experience);
        let p5 = p4 + bool::spec_serialize(m.regular_villager);
        let p6 = p5 + bool::spec_serialize(m.can_restock);
        assert(Self::spec_serialize(m) == p6);
        lemma_concat_associative(p5, bool::spec_serialize(m.can_restock), rest);
        lemma_concat_associative(p4, bool::spec_serialize(m.regular_villager), t5);
        lemma_concat_associative(p3, VarInt::spec_serialize(m.experience), t4);
        lemma_concat_associative(p2, VarInt::spec_serialize(m.villager_level), t3);
        lemma_concat_associative(p1, ByteCountedArray::<TradeSpec>::spec_serialize(m.trades), t2);
        VarInt::lemma_round_trip(m.window_id, t1);
        assert(VarInt::spec_deserialize(Self::spec_serialize(m) + rest) == Ok::<(<VarInt as Codec>::Model, Seq<u8>), DeserializeErr>((m.window_id, t1)));
        ByteCountedArray::<TradeSpec>::lemma_round_trip(m.trades, t2);
        assert(ByteCountedArray::<TradeSpec>::spec_deserialize(t1) == Ok::<(<ByteCountedArray<TradeSpec> as Codec>::Model, Seq<u8>), DeserializeErr>((m.trades, t2)));
        VarInt::lemma_round_trip(m.villager_level, t3);
        assert(VarInt::spec_deserialize(t2) == Ok::<(<VarInt as Codec>::Model, Seq<u8>), DeserializeErr>((m.villager_level, t3)));
        VarInt::lemma_round_trip(m.experience, t4);
        assert(VarInt::spec_deserialize(t3) == Ok::<(<VarInt as Codec>::Model, Seq<u8>), DeserializeErr>((m.experience, t4)));
        bool::lemma_round_trip(m.regular_villager, t5);
        assert(bool::spec_deserialize(t4) == Ok::<(<bool as Codec>::Model, Seq<u8>), DeserializeErr>((m.regular_villager, t5)));
        bool::lemma_round_trip(m.can_restock, rest);
        assert(bool::spec_deserialize(t5) == Ok::<(<bool as Codec>::Model, Seq<u8>), DeserializeErr>((m.can_restock, rest)));
    }

    fn mc_serialize(&self, to: &mut Vec<u8>) {
        let ghost start = to@;
        self.window_id.mc_serialize(to);
        self.trades.mc_serialize(to);
        proof {
            lemma_concat_associative(start, VarInt::spec_serialize(self.window_id.model()), ByteCountedArray::<TradeSpec>::spec_serialize(self.trades.model()));
        }
        self.villager_level.mc_serialize(to);
        proof {
            lemma_concat_associative(start, VarInt::spec_serialize(self.window_id.model()) + ByteCountedArray::<TradeSpec>::spec_serialize(self.trades.model()), VarInt::spec_serialize(self.villager_level.model()));
        }
        self.experience.mc_serialize(to);
        proof {
            lemma_concat_associative(start, VarInt::spec_serialize(self.window_id.model()) + ByteCountedArray::<TradeSpec>::spec_serialize(self.trades.model()) + VarInt::spec_serialize(self.villager_level.model()), VarInt::spec_serialize(self.experience.model()));
        }
        self.regular_villager.mc_serialize(to);
        proof {
            lemma_concat_associative(start, VarInt::spec_serialize(self.window_id.model()) + ByteCountedArray::<TradeSpec>::spec_serialize(self.trades.model()) + VarInt::spec_serialize(self.villager_level.model()) + VarInt::spec_serialize(self.experience.model()), bool::spec_serialize(self.regular_villager.model()));
        }
        self.can_restock.mc_serialize(to);
        proof {
            lemma_concat_associative(start, VarInt::spec_serialize(self.window_id.model()) + ByteCountedArray::<TradeSpec>::spec_serialize(self.trades.model()) + VarInt::spec_serialize(self.villager_level.model()) + VarInt::spec_serialize(self.experience.model()) + bool::spec_serialize(self.regular_villager.model()), bool::spec_serialize(self.can_restock.model()));
        }
        assert(to@ =~= start + Self::spec_serialize(self.model()));
    }

    fn mc_deserialize(data: &[u8]) -> (r: Result<(Self, &[u8]), DeserializeErr>) {
        let (window_id, rest) = VarInt::mc_deserialize(data)?;
        let (trades, rest) = ByteCountedArray::<TradeSpec>::mc_deserialize(rest)?;
        let (villager_level, rest) = VarInt::mc_deserialize(rest)?;
        let (experience, rest) = VarInt::mc_deserialize(rest)?;
        let (regular_villager, rest) = bool::mc_deserialize(rest)?;
        let (can_restock, rest) = bool::mc_deserialize(rest)?;
        Ok((PlayTradeListSpec { window_id, trades, villager_level, experience, regular_villager, can_restock }, rest))
    }
}

/// The body of the play entity position message, as values.
pub struct PlayEntityPositionSpecModel {
    pub entity_id: <VarInt as Codec>::Model,
    pub delta_x: <i16 as Codec>::Model,
    pub delta_y: <i16 as Codec>::Model,
    pub delta_z: <i16 as Codec>::Model,
    pub on_ground: <bool as Codec>::Model,
}

/// The body of the play entity position message
#[derive(Debug, Clone, PartialEq, Eq)]
pub struct PlayEntityPositionSpec {
    pub entity_id: VarInt,
    pub delta_x: i16,
    pub delta_y: i16,
    pub delta_z: i16,
    pub on_ground: bool,
}

impl Codec for PlayEntityPositionSpec {
    type Model = PlayEntityPositionSpecModel;

    open spec fn model(&self) -> PlayEntityPositionSpecModel {
        PlayEntityPositionSpecModel { entity_id: self.entity_id.model(), delta_x: self.delta_x.model(), delta_y: self.delta_y.model(), delta_z: self.delta_z.model(), on_ground: self.on_ground.model() }
    }

    open spec fn encodable(m: PlayEntityPositionSpecModel) -> bool {
        VarInt::encodable(m.entity_id) && i16::encodable(m.delta_x) && i16::encodable(m.delta_y) && i16::encodable(m.delta_z) && bool::encodable(m.on_ground)
    }

    open spec fn legal(m: PlayEntityPositionSpecModel) -> bool {
        VarInt::legal(m.entity_id) && i16::legal(m.delta_x) && i16::legal(m.delta_y) && i16::legal(m.delta_z) && bool::legal(m.on_ground)
    }

    open spec fn spec_serialize(m: PlayEntityPositionSpecModel) -> Seq<u8> {
        VarInt::spec_serialize(m.entity_id) + i16::spec_serialize(m.delta_x) + i16::spec_serialize(m.delta_y) + i16::spec_serialize(m.delta_z) + bool::spec_serialize(m.on_ground)
    }

    open spec fn spec_deserialize(s: Seq<u8>) -> SpecResult<PlayEntityPositionSpecModel> {
        match VarInt::spec_deserialize(s) {
            Err(e) => Err(e),
            Ok((entity_id, r1)) => match i16::spec_deserialize(r1) {
                Err(e) => Err(e),
                Ok((delta_x, r2)) => match i16::spec_deserialize(r2) {
                    Err(e) => Err(e),
                    Ok((delta_y, r3)) => match i16::spec_deserialize(r3) {
                        Err(e) => Err(e),
                        Ok((delta_z, r4)) => match bool::spec_deserialize(r4) {
                            Err(e) => Err(e),
                            Ok((on_ground, r5)) => Ok((PlayEntityPositionSpecModel { entity_id, delta_x, delta_y, delta_z, on_ground }, r5)),
                        },
                    },
                },
            },
        }
    }

    #[verifier::rlimit(100)]
    #[verifier::spinoff_prover]
    proof fn lemma_round_trip(m: PlayEntityPositionSpecModel, rest: Seq<u8>) {
        let t4 = bool::spec_serialize(m.on_ground) + rest;
        let t3 = i16::spec_serialize(m.delta_z) + t4;
        let t2 = i16::spec_serialize(m.delta_y) + t3;
        let t1 = i16::spec_serialize(m.delta_x) + t2;
        let p1 = VarInt::spec_serialize(m.entity_id);
        let p2 = p1 + i16::spec_serialize(m.delta_x);
        let p3 = p2 + i16::spec_serialize(m.delta_y);
        let p4 = p3 + i16::spec_serialize(m.delta_z);
        let p5 = p4 + bool::spec_serialize(m.on_ground);
        assert(Self::spec_serialize(m) == p5);
        lemma_concat_associative(p4, bool::spec_serialize(m.on_ground), rest);
        lemma_concat_associative(p3, i16::spec_serialize(m.delta_z), t4);
        lemma_concat_associative(p2, i16::spec_serialize(m.delta_y), t3);
        lemma_concat_associative(p1, i16::spec_serialize(m.delta_x), t2);
        VarInt::lemma_round_trip(m.entity_id, t1);
        assert(VarInt::spec_deserialize(Self::spec_serialize(m) + rest) == Ok::<(<VarInt as Codec>::Model, Seq<u8>), DeserializeErr>((m.entity_id, t1)));
        i16::lemma_round_trip(m.delta_x, t2);
        assert(i16::spec_deserialize(t1) == Ok::<(<i16 as Codec>::Model, Seq<u8>), DeserializeErr>((m.delta_x, t2)));
        i16::lemma_round_trip(m.delta_y, t3);
        assert(i16::spec_deserialize(t2) == Ok::<(<i16 as Codec>::Model, Seq<u8>), DeserializeErr>((m.delta_y, t3)));
        i16::lemma_round_trip(m.delta_z, t4);
        assert(i16::spec_deserialize(t3) == Ok::<(<i16 as Codec>::Model, Seq<u8>), DeserializeErr>((m.delta_z, t4)));
        bool::lemma_round_trip(m.on_ground, rest);
        assert(bool::spec_deserialize(t4) == Ok::<(<bool as Codec>::Model, Seq<u8>), DeserializeErr>((m.on_ground, rest)));
    }

    fn mc_serialize(&self, to: &mut Vec<u8>) {
        let ghost start = to@;
        self.entity_id.mc_serialize(to);
        self.delta_x.mc_serialize(to);
        proof {
            lemma_concat_associative(start, VarInt::spec_serialize(self.entity_id.model()), i16::spec_serialize(self.delta_x.model()));
        }
        self.delta_y.mc_serialize(to);
        proof {
            lemma_concat_associative(start, VarInt::spec_serialize(self.entity_id.model()) + i16::spec_serialize(self.delta_x.model()), i16::spec_serialize(self.delta_y.model()));
        }
        self.delta_z.mc_serialize(to);
        proof {
            lemma_concat_associative(start, VarInt::spec_serialize(self.entity_id.model()) + i16::spec_serialize(self.delta_x.model()) + i16::spec_serialize(self.delta_y.model()), i16::spec_serialize(self.delta_z.model()));
        }
        self.on_ground.mc_serialize(to);
        proof {
            lemma_concat_associative(start, VarInt::spec_serialize(self.entity_id.model()) + i16::spec_serialize(self.delta_x.model()) + i16::spec_serialize(self.delta_y.model()) + i16::spec_serialize(self.delta_z.model()), bool::spec_serialize(self.on_ground.model()));
        }
        assert(to@ =~= start + Self::spec_serialize(self.model()));
    }

    fn mc_deserialize(data: &[u8]) -> (r: Result<(Self, &[u8]), DeserializeErr>) {
        let (entity_id, rest) = VarInt::mc_deserialize(data)?;
        let (delta_x, rest) = i16::mc_deserialize(rest)?;
        let (delta_y, rest) = i16::mc_deserialize(rest)?;
        let (delta_z, rest) = i16::mc_deserialize(rest)?;
        let (on_ground, rest) = bool::mc_deserialize(rest)?;
        Ok((PlayEntityPositionSpec { entity_id, delta_x, delta_y, delta_z, on_ground }, rest))
    }
}

/// The body of the play entity position and rotation message, as values.
pub struct PlayEntityPositionAndRotationSpecModel {
    pub entity_id: <VarInt as Codec>::Model,
    pub delta_x: <i16 as Codec>::Model,
    pub delta_y: <i16 as Codec>::Model,
    pub delta_z: <i16 as Codec>::Model,
    pub yaw: <Angle as Codec>::Model,
    pub pitch: <Angle as Codec>::Model,
    pub on_ground: <bool as Codec>::Model,
}

/// The body of the play entity position and rotation message
#[derive(Debug, Clone, PartialEq, Eq)]
pub struct PlayEntityPositionAndRotationSpec {
    pub entity_id: VarInt,
    pub delta_x: i16,
    pub delta_y: i16,
    pub delta_z: i16,
    pub yaw: Angle,
    pub pitch: Angle,
    pub on_ground: bool,
}

impl Codec for PlayEntityPositionAndRotationSpec {
    type Model = PlayEntityPositionAndRotationSpecModel;

    open spec fn model(&self) -> PlayEntityPositionAndRotationSpecModel {
        PlayEntityPositionAndRotationSpecModel { entity_id: self.entity_id.model(), delta_x: self.delta_x.model(), delta_y: self.delta_y.model(), delta_z: self.delta_z.model(), yaw: self.yaw.model(), pitch: self.pitch.model(), on_ground: self.on_ground.model() }
    }

    open spec fn encodable(m: PlayEntityPositionAndRotationSpecModel) -> bool {
        VarInt::encodable(m.entity_id) && i16::encodable(m.delta_x) && i16::encodable(m.delta_y) && i16::encodable(m.delta_z) && Angle::encodable(m.yaw) && Angle::encodable(m.pitch) && bool::encodable(m.on_ground)
    }

    open spec fn legal(m: PlayEntityPositionAndRotationSpecModel) -> bool {
        VarInt::legal(m.entity_id) && i16::legal(m.delta_x) && i16::legal(m.delta_y) && i16::legal(m.delta_z) && Angle::legal(m.yaw) && Angle::legal(m.pitch) && bool::legal(m.on_ground)
    }

    open spec fn spec_serialize(m: PlayEntityPositionAndRotationSpecModel) -> Seq<u8> {
        VarInt::spec_serialize(m.entity_id) + i16::spec_serialize(m.delta_x) + i16::spec_serialize(m.delta_y) + i16::spec_serialize(m.delta_z) + Angle::spec_serialize(m.yaw) + Angle::spec_serialize(m.pitch) + bool::spec_serialize(m.on_ground)
    }

    open spec fn spec_deserialize(s: Seq<u8>) -> SpecResult<PlayEntityPositionAndRotationSpecModel> {
        match VarInt::spec_deserialize(s) {
            Err(e) => Err(e),
            Ok((entity_id, r1)) => match i16::spec_deserialize(r1) {
                Err(e) => Err(e),
                Ok((delta_x, r2)) => match i16::spec_deserialize(r2) {
                    Err(e) => Err(e),
                    Ok((delta_y, r3)) => match i16::spec_deserialize(r3) {
                        Err(e) => Err(e),
                        Ok((delta_z, r4)) => match Angle::spec_deserialize(r4) {
                            Err(e) => Err(e),
                            Ok((yaw, r5)) => match Angle::spec_deserialize(r5) {
                                Err(e) => Err(e),
                                Ok((pitch, r6)) => match bool::spec_deserialize(r6) {
                                    Err(e) => Err(e),
                                    Ok((on_ground, r7)) => Ok((PlayEntityPositionAndRotationSpecModel { entity_id, delta_x, delta_y, delta_z, yaw, pitch, on_ground }, r7)),
                                },
                            },
                        },
                    },
                },
            },
        }
    }

    #[verifier::rlimit(100)]
    #[verifier::spinoff_prover]
    proof fn lemma_round_trip(m: PlayEntityPositionAndRotationSpecModel, rest: Seq<u8>) {
        let t6 = bool::spec_serialize(m.on_ground) + rest;
        let t5 = Angle::spec_serialize(m.pitch) + t6;
        let t4 = Angle::spec_serialize(m.yaw) + t5;
        let t3 = i16::spec_serialize(m.delta_z) + t4;
        let t2 = i16::spec_serialize(m.delta_y) + t3;
        let t1 = i16::spec_serialize(m.delta_x) + t2;
        let p1 = VarInt::spec_serialize(m.entity_id);
        let p2 = p1 + i16::spec_serialize(m.delta_x);
        let p3 = p2 + i16::spec_serialize(m.delta_y);
        let p4 = p3 + i16::spec_serialize(m.delta_z);
        let p5 = p4 + Angle::spec_serialize(m.yaw);
        let p6 = p5 + Angle::spec_serialize(m.pitch);
        let p7 = p6 + bool::spec_serialize(m.on_ground);
        assert(Self::spec_serialize(m) == p7);
        lemma_concat_associative(p6, bool::spec_serialize(m.on_ground), rest);
        lemma_concat_associative(p5, Angle::spec_serialize(m.pitch), t6);
        lemma_concat_associative(p4, Angle::spec_serialize(m.yaw), t5);
        lemma_concat_associative(p3, i16::spec_serialize(m.delta_z), t4);
        lemma_concat_associative(p2, i16::spec_serialize(m.delta_y), t3);
        lemma_concat_associative(p1, i16::spec_serialize(m.delta_x), t2);
        VarInt::lemma_round_trip(m.entity_id, t1);
        assert(VarInt::spec_deserialize(Self::spec_serialize(m) + rest) == Ok::<(<VarInt as Codec>::Model, Seq<u8>), DeserializeErr>((m.entity_id, t1)));
        i16::lemma_round_trip(m.delta_x, t2);
        assert(i16::spec_deserialize(t1) == Ok::<(<i16 as Codec>::Model, Seq<u8>), DeserializeErr>((m.delta_x, t2)));
        i16::lemma_round_trip(m.delta_y, t3);
        assert(i16::spec_deserialize(t2) == Ok::<(<i16 as Codec>::Model, Seq<u8>), DeserializeErr>((m.delta_y, t3)));
        i16::lemma_round_trip(m.delta_z, t4);
        assert(i16::spec_deserialize(t3) == Ok::<(<i16 as Codec>::Model, Seq<u8>), DeserializeErr>((m.delta_z, t4)));
        Angle::lemma_round_trip(m.yaw, t5);
        assert(Angle::spec_deserialize(t4) == Ok::<(<Angle as Codec>::Model, Seq<u8>), DeserializeErr>((m.yaw, t5)));
        Angle::lemma_round_trip(m.pitch, t6);
        assert(Angle::spec_deserialize(t5) == Ok::<(<Angle as Codec>::Model, Seq<u8>), DeserializeErr>((m.pitch, t6)));
        bool::lemma_round_trip(m.on_ground, rest);
        assert(bool::spec_deserialize(t6) == Ok::<(<bool as Codec>::Model, Seq<u8>), DeserializeErr>((m.on_ground, rest)));
    }

    fn mc_serialize(&self, to: &mut Vec<u8>) {
        let ghost start = to@;
        self.entity_id.mc_serialize(to);
        self.delta_x.mc_serialize(to);
        proof {
            lemma_concat_associative(start, VarInt::spec_serialize(self.entity_id.model()), i16::spec_serialize(self.delta_x.model()));
        }
        self.delta_y.mc_serialize(to);
        proof {
            lemma_concat_associative(start, VarInt::spec_serialize(self.entity_id.model()) + i16::spec_serialize(self.delta_x.model()), i16::spec_serialize(self.delta_y.model()));
        }
        self.delta_z.mc_serialize(to);
        proof {
            lemma_concat_associative(start, VarInt::spec_serialize(self.entity_id.model()) + i16::spec_serialize(self.delta_x.model()) + i16::spec_serialize(self.delta_y.model()), i16::spec_serialize(self.delta_z.model()));
        }
        self.yaw.mc_serialize(to);
        proof {
            lemma_concat_associative(start, VarInt::spec_serialize(self.entity_id.model()) + i16::spec_serialize(self.delta_x.model()) + i16::spec_serialize(self.delta_y.model()) + i16::spec_serialize(self.delta_z.model()), Angle::spec_serialize(self.yaw.model()));
        }
        self.pitch.mc_serialize(to);
        proof {
            lemma_concat_associative(start, VarInt::spec_serialize(self.entity_id.model()) + i16::spec_serialize(self.delta_x.model()) + i16::spec_serialize(self.delta_y.model()) + i16::spec_serialize(self.delta_z.model()) + Angle::spec_serialize(self.yaw.model()), Angle::spec_serialize(self.pitch.model()));
        }
        self.on_ground.mc_serialize(to);
        proof {
            lemma_concat_associative(start, VarInt::spec_serialize(self.entity_id.model()) + i16::spec_serialize(self.delta_x.model()) + i16::spec_serialize(self.delta_y.model()) + i16::spec_serialize(self.delta_z.model()) + Angle::spec_serialize(self.yaw.model()) + Angle::spec_serialize(self.pitch.model()), bool::spec_serialize(self.on_ground.model()));
        }
        assert(to@ =~= start + Self::spec_serialize(self.model()));
    }

    fn mc_deserialize(data: &[u8]) -> (r: Result<(Self, &[u8]), DeserializeErr>) {
        let (entity_id, rest) = VarInt::mc_deserialize(data)?;
        let (delta_x, rest) = i16::mc_deserialize(rest)?;
        let (delta_y, rest) = i16::mc_deserialize(rest)?;
        let (delta_z, rest) = i16::mc_deserialize(rest)?;
        let (yaw, rest) = Angle::mc_deserialize(rest)?;
        let (pitch, rest) = Angle::mc_deserialize(rest)?;
        let (on_ground, rest) = bool::mc_deserialize(rest)?;
        Ok((PlayEntityPositionAndRotationSpec { entity_id, delta_x, delta_y, delta_z, yaw, pitch, on_ground }, rest))
    }
}

/// The body of the play entity rotation message, as values.
pub struct PlayEntityRotationSpecModel {
    pub entity_id: <VarInt as Codec>::Model,
    pub yaw: <Angle as Codec>::Model,
    pub pitch: <Angle as Codec>::Model,
    pub on_ground: <bool as Codec>::Model,
}

/// The body of the play entity rotation message
#[derive(Debug, Clone, PartialEq, Eq)]
pub struct PlayEntityRotationSpec {
    pub entity_id: VarInt,
    pub yaw: Angle,
    pub pitch: Angle,
    pub on_ground: bool,
}

impl Codec for PlayEntityRotationSpec {
    type Model = PlayEntityRotationSpecModel;

    open spec fn model(&self) -> PlayEntityRotationSpecModel {
        PlayEntityRotationSpecModel { entity_id: self.entity_id.model(), yaw: self.yaw.model(), pitch: self.pitch.model(), on_ground: self.on_ground.model() }
    }

    open spec fn encodable(m: PlayEntityRotationSpecModel) -> bool {
        VarInt::encodable(m.entity_id) && Angle::encodable(m.yaw) && Angle::encodable(m.pitch) && bool::encodable(m.on_ground)
    }

    open spec fn legal(m: PlayEntityRotationSpecModel) -> bool {
        VarInt::legal(m.entity_id) && Angle::legal(m.yaw) && Angle::legal(m.pitch) && bool::legal(m.on_ground)
    }

    open spec fn spec_serialize(m: PlayEntityRotationSpecModel) -> Seq<u8> {
        VarInt::spec_serialize(m.entity_id) + Angle::spec_serialize(m.yaw) + Angle::spec_serialize(m.pitch) + bool::spec_serialize(m.on_ground)
    }

    open spec fn spec_deserialize(s: Seq<u8>) -> SpecResult<PlayEntityRotationSpecModel> {
        match VarInt::spec_deserialize(s) {
            Err(e) => Err(e),
            Ok((entity_id, r1)) => match Angle::spec_deserialize(r1) {
                Err(e) => Err(e),
                Ok((yaw, r2)) => match Angle::spec_deserialize(r2) {
                    Err(e) => Err(e),
                    Ok((pitch, r3)) => match bool::spec_deserialize(r3) {
                        Err(e) => Err(e),
                        Ok((on_ground, r4)) => Ok((PlayEntityRotationSpecModel { entity_id, yaw, pitch, on_ground }, r4)),
                    },
                },
            },
        }
    }

    #[verifier::rlimit(100)]
    #[verifier::spinoff_prover]
    proof fn lemma_round_trip(m: PlayEntityRotationSpecModel, rest: Seq<u8>) {
        let t3 = bool::spec_serialize(m.on_ground) + rest;
        let t2 = Angle::spec_serialize(m.pitch) + t3;
        let t1 = Angle::spec_serialize(m.yaw) + t2;
        let p1 = VarInt::spec_serialize(m.entity_id);
        let p2 = p1 + Angle::spec_serialize(m.yaw);
        let p3 = p2 + Angle::spec_serialize(m.pitch);
        let p4 = p3 + bool::spec_serialize(m.on_ground);
        assert(Self::spec_serialize(m) == p4);
        lemma_concat_associative(p3, bool::spec_serialize(m.on_ground), rest);
        lemma_concat_associative(p2, Angle::spec_serialize(m.pitch), t3);
        lemma_concat_associative(p1, Angle::spec_serialize(m.yaw), t2);
        VarInt::lemma_round_trip(m.entity_id, t1);
        assert(VarInt::spec_deserialize(Self::spec_serialize(m) + rest) == Ok::<(<VarInt as Codec>::Model, Seq<u8>), DeserializeErr>((m.entity_id, t1)));
        Angle::lemma_round_trip(m.yaw, t2);
        assert(Angle::spec_deserialize(t1) == Ok::<(<Angle as Codec>::Model, Seq<u8>), DeserializeErr>((m.yaw, t2)));
        Angle::lemma_round_trip(m.pitch, t3);
        assert(Angle::spec_deserialize(t2) == Ok::<(<Angle as Codec>::Model, Seq<u8>), DeserializeErr>((m.pitch, t3)));
        bool::lemma_round_trip(m.on_ground, rest);
        assert(bool::spec_deserialize(t3) == Ok::<(<bool as Codec>::Model, Seq<u8>), DeserializeErr>((m.on_ground, rest)));
    }

    fn mc_serialize(&self, to: &mut Vec<u8>) {
        let ghost start = to@;
        self.entity_id.mc_serialize(to);
        self.yaw.mc_serialize(to);
        proof {
            lemma_concat_associative(start, VarInt::spec_serialize(self.entity_id.model()), Angle::spec_serialize(self.yaw.model()));
        }
        self.pitch.mc_serialize(to);
        proof {
            lemma_concat_associative(start, VarInt::spec_serialize(self.entity_id.model()) + Angle::spec_serialize(self.yaw.model()), Angle::spec_serialize(self.pitch.model()));
        }
        self.on_ground.mc_serialize(to);
        proof {
            lemma_concat_associative(start, VarInt::spec_serialize(self.entity_id.model()) + Angle::spec_serialize(self.yaw.model()) + Angle::spec_serialize(self.pitch.model()), bool::spec_serialize(self.on_ground.model()));
        }
        assert(to@ =~= start + Self::spec_serialize(self.model()));
    }

    fn mc_deserialize(data: &[u8]) -> (r: Result<(Self, &[u8]), DeserializeErr>) {
        let (entity_id, rest) = VarInt::mc_deserialize(data)?;
        let (yaw, rest) = Angle::mc_deserialize(rest)?;
        let (pitch, rest) = Angle::mc_deserialize(rest)?;
        let (on_ground, rest) = bool::mc_deserialize(rest)?;
        Ok((PlayEntityRotationSpec { entity_id, yaw, pitch, on_ground }, rest))
    }
}

/// The body of the play entity movement message, as values.
pub struct PlayEntityMovementSpecModel {
    pub entity_id: <VarInt as Codec>::Model,
}

/// The body of the play entity movement message
#[derive(Debug, Clone, PartialEq, Eq)]
pub struct PlayEntityMovementSpec {
    pub entity_id: VarInt,
}

impl Codec for PlayEntityMovementSpec {
    type Model = PlayEntityMovementSpecModel;

    open spec fn model(&self) -> PlayEntityMovementSpecModel {
        PlayEntityMovementSpecModel { entity_id: self.entity_id.model() }
    }

    open spec fn encodable(m: PlayEntityMovementSpecModel) -> bool {
        VarInt::encodable(m.entity_id)
    }

    open spec fn legal(m: PlayEntityMovementSpecModel) -> bool {
        VarInt::legal(m.entity_id)
    }

    open spec fn spec_serialize(m: PlayEntityMovementSpecModel) -> Seq<u8> {
        VarInt::spec_serialize(m.entity_id)
    }

    open spec fn spec_deserialize(s: Seq<u8>) -> SpecResult<PlayEntityMovementSpecModel> {
        match VarInt::spec_deserialize(s) {
            Err(e) => Err(e),
            Ok((entity_id, r1)) => Ok((PlayEntityMovementSpecModel { entity_id }, r1)),
        }
    }

    proof fn lemma_round_trip(m: PlayEntityMovementSpecModel, rest: Seq<u8>) {
        VarInt::lemma_round_trip(m.entity_id, rest);
    }

    fn mc_serialize(&self, to: &mut Vec<u8>) {
        let ghost start = to@;
        self.entity_id.mc_serialize(to);
        assert(to@ =~= start + Self::spec_serialize(self.model()));
    }

    fn mc_deserialize(data: &[u8]) -> (r: Result<(Self, &[u8]), DeserializeErr>) {
        let (entity_id, rest) = VarInt::mc_deserialize(data)?;
        Ok((PlayEntityMovementSpec { entity_id }, rest))
    }
}

/// The body of the play server vehicle move message, as values.
pub struct PlayEntityVehicleMoveSpecModel {
    pub x: <Float64 as Codec>::Model,
    pub y: <Float64 as Codec>::Model,
    pub z: <Float64 as Codec>::Model,
    pub yaw: <Float32 as Codec>::Model,
    pub pitch: <Float32 as Codec>::Model,
}

/// The body of the play server vehicle move message
#[derive(Debug, Clone, PartialEq, Eq)]
pub struct PlayEntityVehicleMoveSpec {
    pub x: Float64,
    pub y: Float64,
    pub z: Float64,
    pub yaw: Float32,
    pub pitch: Float32,
}

impl Codec for PlayEntityVehicleMoveSpec {
    type Model = PlayEntityVehicleMoveSpecModel;

    open spec fn model(&self) -> PlayEntityVehicleMoveSpecModel {
        PlayEntityVehicleMoveSpecModel { x: self.x.model(), y: self.y.model(), z: self.z.model(), yaw: self.yaw.model(), pitch: self.pitch.model() }
    }

    open spec fn encodable(m: PlayEntityVehicleMoveSpecModel) -> bool {
        Float64::encodable(m.x) && Float64::encodable(m.y) && Float64::encodable(m.z) && Float32::encodable(m.yaw) && Float32::encodable(m.pitch)
    }

    open spec fn legal(m: PlayEntityVehicleMoveSpecModel) -> bool {
        Float64::legal(m.x) && Float64::legal(m.y) && Float64::legal(m.z) && Float32::legal(m.yaw) && Float32::legal(m.pitch)
    }

    open spec fn spec_serialize(m: PlayEntityVehicleMoveSpecModel) -> Seq<u8> {
        Float64::spec_serialize(m.x) + Float64::spec_serialize(m.y) + Float64::spec_serialize(m.z) + Float32::spec_serialize(m.yaw) + Float32::spec_serialize(m.pitch)
    }

    open spec fn spec_deserialize(s: Seq<u8>) -> SpecResult<PlayEntityVehicleMoveSpecModel> {
        match Float64::spec_deserialize(s) {
            Err(e) => Err(e),
            Ok((x, r1)) => match Float64::spec_deserialize(r1) {
                Err(e) => Err(e),
                Ok((y, r2)) => match Float64::spec_deserialize(r2) {
                    Err(e) => Err(e),
                    Ok((z, r3)) => match Float32::spec_deserialize(r3) {
                        Err(e) => Err(e),
                        Ok((yaw, r4)) => match Float32::spec_deserialize(r4) {
                            Err(e) => Err(e),
                            Ok((pitch, r5)) => Ok((PlayEntityVehicleMoveSpecModel { x, y, z, yaw, pitch }, r5)),
                        },
                    },
                },
            },
        }
    }

    #[verifier::rlimit(100)]
    #[verifier::spinoff_prover]
    proof fn lemma_round_trip(m: PlayEntityVehicleMoveSpecModel, rest: Seq<u8>) {
        let t4 = Float32::spec_serialize(m.pitch) + rest;
        let t3 = Float32::spec_serialize(m.yaw) + t4;
        let t2 = Float64::spec_serialize(m.z) + t3;
        let t1 = Float64::spec_serialize(m.y) + t2;
        let p1 = Float64::spec_serialize(m.x);
        let p2 = p1 + Float64::spec_serialize(m.y);
        let p3 = p2 + Float64::spec_serialize(m.z);
        let p4 = p3 + Float32::spec_serialize(m.yaw);
        let p5 = p4 + Float32::spec_serialize(m.pitch);
        assert(Self::spec_serialize(m) == p5);
        lemma_concat_associative(p4, Float32::spec_serialize(m.pitch), rest);
        lemma_concat_associative(p3, Float32::spec_serialize(m.yaw), t4);
        lemma_concat_associative(p2, Float64::spec_serialize(m.z), t3);
        lemma_concat_associative(p1, Float64::spec_serialize(m.y), t2);
        Float64::lemma_round_trip(m.x, t1);
        assert(Float64::spec_deserialize(Self::spec_serialize(m) + rest) == Ok::<(<Float64 as Codec>::Model, Seq<u8>), DeserializeErr>((m.x, t1)));
        Float64::lemma_round_trip(m.y, t2);
        assert(Float64::spec_deserialize(t1) == Ok::<(<Float64 as Codec>::Model, Seq<u8>), DeserializeErr>((m.y, t2)));
        Float64::lemma_round_trip(m.z, t3);
        assert(Float64::spec_deserialize(t2) == Ok::<(<Float64 as Codec>::Model, Seq<u8>), DeserializeErr>((m.z, t3)));
        Float32::lemma_round_trip(m.yaw, t4);
        assert(Float32::spec_deserialize(t3) == Ok::<(<Float32 as Codec>::Model, Seq<u8>), DeserializeErr>((m.yaw, t4)));
        Float32::lemma_round_trip(m.pitch, rest);
        assert(Float32::spec_deserialize(t4) == Ok::<(<Float32 as Codec>::Model, Seq<u8>), DeserializeErr>((m.pitch, rest)));
    }

    fn mc_serialize(&self, to: &mut Vec<u8>) {
        let ghost start = to@;
        self.x.mc_serialize(to);
        self.y.mc_serialize(to);
        proof {
            lemma_concat_associative(start, Float64::spec_serialize(self.x.model()), Float64::spec_serialize(self.y.model()));
        }
        self.z.mc_serialize(to);
        proof {
            lemma_concat_associative(start, Float64::spec_serialize(self.x.model()) + Float64::spec_serialize(self.y.model()), Float64::spec_serialize(self.z.model()));
        }
        self.yaw.mc_serialize(to);
        proof {
            lemma_concat_associative(start, Float64::spec_serialize(self.x.model()) + Float64::spec_serialize(self.y.model()) + Float64::spec_serialize(self.z.model()), Float32::spec_serialize(self.yaw.model()));
        }
        self.pitch.mc_serialize(to);
        proof {
            lemma_concat_associative(start, Float64::spec_serialize(self.x.model()) + Float64::spec_serialize(self.y.model()) + Float64::spec_serialize(self.z.model()) + Float32::spec_serialize(self.yaw.model()), Float32::spec_serialize(self.pitch.model()));
        }
        assert(to@ =~= start + Self::spec_serialize(self.model()));
    }

    fn mc_deserialize(data: &[u8]) -> (r: Result<(Self, &[u8]), DeserializeErr>) {
        let (x, rest) = Float64::mc_deserialize(data)?;
        let (y, rest) = Float64::mc_deserialize(rest)?;
        let (z, rest) = Float64::mc_deserialize(rest)?;
        let (yaw, rest) = Float32::mc_deserialize(rest)?;
        let (pitch, rest) = Float32::mc_deserialize(rest)?;
        Ok((PlayEntityVehicleMoveSpec { x, y, z, yaw, pitch }, rest))
    }
}

/// The body of the play open book message, as values.
pub struct PlayOpenBookSpecModel {
    pub hand: <Hand as Codec>::Model,
}

/// The body of the play open book message
#[derive(Debug, Clone, PartialEq, Eq)]
pub struct PlayOpenBookSpec {
    pub hand: Hand,
}

impl Codec for PlayOpenBookSpec {
    type Model = PlayOpenBookSpecModel;

    open spec fn model(&self) -> PlayOpenBookSpecModel {
        PlayOpenBookSpecModel { hand: self.hand.model() }
    }

    open spec fn encodable(m: PlayOpenBookSpecModel) -> bool {
        Hand::encodable(m.hand)
    }

    open spec fn legal(m: PlayOpenBookSpecModel) -> bool {
        Hand::legal(m.hand)
    }

    open spec fn spec_serialize(m: PlayOpenBookSpecModel) -> Seq<u8> {
        Hand::spec_serialize(m.hand)
    }

    open spec fn spec_deserialize(s: Seq<u8>) -> SpecResult<PlayOpenBookSpecModel> {
        match Hand::spec_deserialize(s) {
            Err(e) => Err(e),
            Ok((hand, r1)) => Ok((PlayOpenBookSpecModel { hand }, r1)),
        }
    }

    proof fn lemma_round_trip(m: PlayOpenBookSpecModel, rest: Seq<u8>) {
        Hand::lemma_round_trip(m.hand, rest);
    }

    fn mc_serialize(&self, to: &mut Vec<u8>) {
        let ghost start = to@;
        self.hand.mc_serialize(to);
        assert(to@ =~= start + Self::spec_serialize(self.model()));
    }

    fn mc_deserialize(data: &[u8]) -> (r: Result<(Self, &[u8]), DeserializeErr>) {
        let (hand, rest) = Hand::mc_deserialize(data)?;
        Ok((PlayOpenBookSpec { hand }, rest))
    }
}

/// The body of the play open window message, as values.
pub struct PlayOpenWindowSpecModel {
    pub id: <VarInt as Codec>::Model,
    pub kind: <WindowType as Codec>::Model,
    pub title: <String as Codec>::Model,
}

/// The body of the play open window message
#[derive(Debug, Clone, PartialEq, Eq)]
pub struct PlayOpenWindowSpec {
    pub id: VarInt,
    pub kind: WindowType,
    pub title: String,
}

impl Codec for PlayOpenWindowSpec {
    type Model = PlayOpenWindowSpecModel;

    open spec fn model(&self) -> PlayOpenWindowSpecModel {
        PlayOpenWindowSpecModel { id: self.id.model(), kind: self.kind.model(), title: self.title.model() }
    }

    open spec fn encodable(m: PlayOpenWindowSpecModel) -> bool {
        VarInt::encodable(m.id) && WindowType::encodable(m.kind) && String::encodable(m.title)
    }

    open spec fn legal(m: PlayOpenWindowSpecModel) -> bool {
        VarInt::legal(m.id) && WindowType::legal(m.kind) && String::legal(m.title)
    }

    open spec fn spec_serialize(m: PlayOpenWindowSpecModel) -> Seq<u8> {
        VarInt::spec_serialize(m.id) + WindowType::spec_serialize(m.kind) + String::spec_serialize(m.title)
    }

    open spec fn spec_deserialize(s: Seq<u8>) -> SpecResult<PlayOpenWindowSpecModel> {
        match VarInt::spec_deserialize(s) {
            Err(e) => Err(e),
            Ok((id, r1)) => match WindowType::spec_deserialize(r1) {
                Err(e) => Err(e),
                Ok((kind, r2)) => match String::spec_deserialize(r2) {
                    Err(e) => Err(e),
                    Ok((title, r3)) => Ok((PlayOpenWindowSpecModel { id, kind, title }, r3)),
                },
            },
        }
    }

    proof fn lemma_round_trip(m: PlayOpenWindowSpecModel, rest: Seq<u8>) {
        let t2 = String::spec_serialize(m.title) + rest;
        let t1 = WindowType::spec_serialize(m.kind) + t2;
        let p1 = VarInt::spec_serialize(m.id);
        let p2 = p1 + WindowType::spec_serialize(m.kind);
        let p3 = p2 + String::spec_serialize(m.title);
        assert(Self::spec_serialize(m) == p3);
        lemma_concat_associative(p2, String::spec_serialize(m.title), rest);
        lemma_concat_associative(p1, WindowType::spec_serialize(m.kind), t2);
        VarInt::lemma_round_trip(m.id, t1);
        WindowType::lemma_round_trip(m.kind, t2);
        String::lemma_round_trip(m.title, rest);
    }

    fn mc_serialize(&self, to: &mut Vec<u8>) {
        let ghost start = to@;
        self.id.mc_serialize(to);
        self.kind.mc_serialize(to);
        proof {
            lemma_concat_associative(start, VarInt::spec_serialize(self.id.model()), WindowType::spec_serialize(self.kind.model()));
        }
        self.title.mc_serialize(to);
        proof {
            lemma_concat_associative(start, VarInt::spec_serialize(self.id.model()) + WindowType::spec_serialize(self.kind.model()), String::spec_serialize(self.title.model()));
        }
        assert(to@ =~= start + Self::spec_serialize(self.model()));
    }

    fn mc_deserialize(data: &[u8]) -> (r: Result<(Self, &[u8]), DeserializeErr>) {
        let (id, rest) = VarInt::mc_deserialize(data)?;
        let (kind, rest) = WindowType::mc_deserialize(rest)?;
        let (title, rest) = String::mc_deserialize(rest)?;
        Ok((PlayOpenWindowSpec { id, kind, title }, rest))
    }
}

/// The body of the play open sign editor message, as values.
pub struct PlayOpenSignEditorSpecModel {
    pub location: <IntPosition as Codec>::Model,
}

/// The body of the play open sign editor message
#[derive(Debug, Clone, PartialEq, Eq)]
pub struct PlayOpenSignEditorSpec {
    pub location: IntPosition,
}

impl Codec for PlayOpenSignEditorSpec {
    type Model = PlayOpenSignEditorSpecModel;

    open spec fn model(&self) -> PlayOpenSignEditorSpecModel {
        PlayOpenSignEditorSpecModel { location: self.location.model() }
    }

    open spec fn encodable(m: PlayOpenSignEditorSpecModel) -> bool {
        IntPosition::encodable(m.location)
    }

    open spec fn legal(m: PlayOpenSignEditorSpecModel) -> bool {
        IntPosition::legal(m.location)
    }

    open spec fn spec_serialize(m: PlayOpenSignEditorSpecModel) -> Seq<u8> {
        IntPosition::spec_serialize(m.location)
    }

    open spec fn spec_deserialize(s: Seq<u8>) -> SpecResult<PlayOpenSignEditorSpecModel> {
        match IntPosition::spec_deserialize(s) {
            Err(e) => Err(e),
            Ok((location, r1)) => Ok((PlayOpenSignEditorSpecModel { location }, r1)),
        }
    }

    proof fn lemma_round_trip(m: PlayOpenSignEditorSpecModel, rest: Seq<u8>) {
        IntPosition::lemma_round_trip(m.location, rest);
    }

    fn mc_serialize(&self, to: &mut Vec<u8>) {
        let ghost start = to@;
        self.location.mc_serialize(to);
        assert(to@ =~= start + Self::spec_serialize(self.model()));
    }

    fn mc_deserialize(data: &[u8]) -> (r: Result<(Self, &[u8]), DeserializeErr>) {
        let (location, rest) = IntPosition::mc_deserialize(data)?;
        Ok((PlayOpenSignEditorSpec { location }, rest))
    }
}

/// The body of the play craft recipe response message, as values.
pub struct PlayCraftRecipeResponseSpecModel {
    pub window_id: <u8 as Codec>::Model,
    pub recipe: <String as Codec>::Model,
}

/// The body of the play craft recipe response message
#[derive(Debug, Clone, PartialEq, Eq)]
pub struct PlayCraftRecipeResponseSpec {
    pub window_id: u8,
    pub recipe: String,
}

impl Codec for PlayCraftRecipeResponseSpec {
    type Model = PlayCraftRecipeResponseSpecModel;

    open spec fn model(&self) -> PlayCraftRecipeResponseSpecModel {
        PlayCraftRecipeResponseSpecModel { window_id: self.window_id.model(), recipe: self.recipe.model() }
    }

    open spec fn encodable(m: PlayCraftRecipeResponseSpecModel) -> bool {
        u8::encodable(m.window_id) && String::encodable(m.recipe)
    }

    open spec fn legal(m: PlayCraftRecipeResponseSpecModel) -> bool {
        u8::legal(m.window_id) && String::legal(m.recipe)
    }

    open spec fn spec_serialize(m: PlayCraftRecipeResponseSpecModel) -> Seq<u8> {
        u8::spec_serialize(m.window_id) + String::spec_serialize(m.recipe)
    }

    open spec fn spec_deserialize(s: Seq<u8>) -> SpecResult<PlayCraftRecipeResponseSpecModel> {
        match u8::spec_deserialize(s) {
            Err(e) => Err(e),
            Ok((window_id, r1)) => match String::spec_deserialize(r1) {
                Err(e) => Err(e),
                Ok((recipe, r2)) => Ok((PlayCraftRecipeResponseSpecModel { window_id, recipe }, r2)),
            },
        }
    }

    proof fn lemma_round_trip(m: PlayCraftRecipeResponseSpecModel, rest: Seq<u8>) {
        let t1 = String::spec_serialize(m.recipe) + rest;
        let p1 = u8::spec_serialize(m.window_id);
        let p2 = p1 + String::spec_serialize(m.recipe);
        assert(Self::spec_serialize(m) == p2);
        lemma_concat_associative(p1, String::spec_serialize(m.recipe), rest);
        u8::lemma_round_trip(m.window_id, t1);
        String::lemma_round_trip(m.recipe, rest);
    }

    fn mc_serialize(&self, to: &mut Vec<u8>) {
        let ghost start = to@;
        self.window_id.mc_serialize(to);
        self.recipe.mc_serialize(to);
        proof {
            lemma_concat_associative(start, u8::spec_serialize(self.window_id.model()), String::spec_serialize(self.recipe.model()));
        }
        assert(to@ =~= start + Self::spec_serialize(self.model()));
    }

    fn mc_deserialize(data: &[u8]) -> (r: Result<(Self, &[u8]), DeserializeErr>) {
        let (window_id, rest) = u8::mc_deserialize(data)?;
        let (recipe, rest) = String::mc_deserialize(rest)?;
        Ok((PlayCraftRecipeResponseSpec { window_id, recipe }, rest))
    }
}

/// The body of the play server player abilities message, as values.
pub struct PlayServerPlayerAbilitiesSpecModel {
    pub flags: <PlayerAbilityFlags as Codec>::Model,
    pub flying_speed: <Float32 as Codec>::Model,
    pub field_of_view_modifier: <Float32 as Codec>::Model,
}

/// The body of the play server player abilities message
#[derive(Debug, Clone, PartialEq, Eq)]
pub struct PlayServerPlayerAbilitiesSpec {
    pub flags: PlayerAbilityFlags,
    pub flying_speed: Float32,
    pub field_of_view_modifier: Float32,
}

impl Codec for PlayServerPlayerAbilitiesSpec {
    type Model = PlayServerPlayerAbilitiesSpecModel;

    open spec fn model(&self) -> PlayServerPlayerAbilitiesSpecModel {
        PlayServerPlayerAbilitiesSpecModel { flags: self.flags.model(), flying_speed: self.flying_speed.model(), field_of_view_modifier: self.field_of_view_modifier.model() }
    }

    open spec fn encodable(m: PlayServerPlayerAbilitiesSpecModel) -> bool {
        PlayerAbilityFlags::encodable(m.flags) && Float32::encodable(m.flying_speed) && Float32::encodable(m.field_of_view_modifier)
    }

    open spec fn legal(m: PlayServerPlayerAbilitiesSpecModel) -> bool {
        PlayerAbilityFlags::legal(m.flags) && Float32::legal(m.flying_speed) && Float32::legal(m.field_of_view_modifier)
    }

    open spec fn spec_serialize(m: PlayServerPlayerAbilitiesSpecModel) -> Seq<u8> {
        PlayerAbilityFlags::spec_serialize(m.flags) + Float32::spec_serialize(m.flying_speed) + Float32::spec_serialize(m.field_of_view_modifier)
    }

    open spec fn spec_deserialize(s: Seq<u8>) -> SpecResult<PlayServerPlayerAbilitiesSpecModel> {
        match PlayerAbilityFlags::spec_deserialize(s) {
            Err(e) => Err(e),
            Ok((flags, r1)) => match Float32::spec_deserialize(r1) {
                Err(e) => Err(e),
                Ok((flying_speed, r2)) => match Float32::spec_deserialize(r2) {
                    Err(e) => Err(e),
                    Ok((field_of_view_modifier, r3)) => Ok((PlayServerPlayerAbilitiesSpecModel { flags, flying_speed, field_of_view_modifier }, r3)),
                },
            },
        }
    }

    proof fn lemma_round_trip(m: PlayServerPlayerAbilitiesSpecModel, rest: Seq<u8>) {
        let t2 = Float32::spec_serialize(m.field_of_view_modifier) + rest;
        let t1 = Float32::spec_serialize(m.flying_speed) + t2;
        let p1 = PlayerAbilityFlags::spec_serialize(m.flags);
        let p2 = p1 + Float32::spec_serialize(m.flying_speed);
        let p3 = p2 + Float32::spec_serialize(m.field_of_view_modifier);
        assert(Self::spec_serialize(m) == p3);
        lemma_concat_associative(p2, Float32::spec_serialize(m.field_of_view_modifier), rest);
        lemma_concat_associative(p1, Float32::spec_serialize(m.flying_speed), t2);
        PlayerAbilityFlags::lemma_round_trip(m.flags, t1);
        Float32::lemma_round_trip(m.flying_speed, t2);
        Float32::lemma_round_trip(m.field_of_view_modifier, rest);
    }

    fn mc_serialize(&self, to: &mut Vec<u8>) {
        let ghost start = to@;
        self.flags.mc_serialize(to);
        self.flying_speed.mc_serialize(to);
        proof {
            lemma_concat_associative(start, PlayerAbilityFlags::spec_serialize(self.flags.model()), Float32::spec_serialize(self.flying_speed.model()));
        }
        self.field_of_view_modifier.mc_serialize(to);
        proof {
            lemma_concat_associative(start, PlayerAbilityFlags::spec_serialize(self.flags.model()) + Float32::spec_serialize(self.flying_speed.model()), Float32::spec_serialize(self.field_of_view_modifier.model()));
        }
        assert(to@ =~= start + Self::spec_serialize(self.model()));
    }

    fn mc_deserialize(data: &[u8]) -> (r: Result<(Self, &[u8]), DeserializeErr>) {
        let (flags, rest) = PlayerAbilityFlags::mc_deserialize(data)?;
        let (flying_speed, rest) = Float32::mc_deserialize(rest)?;
        let (field_of_view_modifier, rest) = Float32::mc_deserialize(rest)?;
        Ok((PlayServerPlayerAbilitiesSpec { flags, flying_speed, field_of_view_modifier }, rest))
    }
}

/// The body of the play combat event message, as values.
pub struct PlayCombatEventSpecModel {
    pub event: <CombatEvent as Codec>::Model,
}

/// The body of the play combat event message
#[derive(Debug, Clone, PartialEq, Eq)]
pub struct PlayCombatEventSpec {
    pub event: CombatEvent,
}

impl Codec for PlayCombatEventSpec {
    type Model = PlayCombatEventSpecModel;

    open spec fn model(&self) -> PlayCombatEventSpecModel {
        PlayCombatEventSpecModel { event: self.event.model() }
    }

    open spec fn encodable(m: PlayCombatEventSpecModel) -> bool {
        CombatEvent::encodable(m.event)
    }

    open spec fn legal(m: PlayCombatEventSpecModel) -> bool {
        CombatEvent::legal(m.event)
    }

    open spec fn spec_serialize(m: PlayCombatEventSpecModel) -> Seq<u8> {
        CombatEvent::spec_serialize(m.event)
    }

    open spec fn spec_deserialize(s: Seq<u8>) -> SpecResult<PlayCombatEventSpecModel> {
        match CombatEvent::spec_deserialize(s) {
            Err(e) => Err(e),
            Ok((event, r1)) => Ok((PlayCombatEventSpecModel { event }, r1)),
        }
    }

    proof fn lemma_round_trip(m: PlayCombatEventSpecModel, rest: Seq<u8>) {
        CombatEvent::lemma_round_trip(m.event, rest);
    }

    fn mc_serialize(&self, to: &mut Vec<u8>) {
        let ghost start = to@;
        self.event.mc_serialize(to);
        assert(to@ =~= start + Self::spec_serialize(self.model()));
    }

    fn mc_deserialize(data: &[u8]) -> (r: Result<(Self, &[u8]), DeserializeErr>) {
        let (event, rest) = CombatEvent::mc_deserialize(data)?;
        Ok((PlayCombatEventSpec { event }, rest))
    }
}

/// The body of the play player info message, as values.
pub struct PlayPlayerInfoSpecModel {
    pub actions: <PlayerInfoActionList as Codec>::Model,
}

/// The body of the play player info message
#[derive(Debug, Clone, PartialEq, Eq)]
pub struct PlayPlayerInfoSpec {
    pub actions: PlayerInfoActionList,
}

impl Codec for PlayPlayerInfoSpec {
    type Model = PlayPlayerInfoSpecModel;

    open spec fn model(&self) -> PlayPlayerInfoSpecModel {
        PlayPlayerInfoSpecModel { actions: self.actions.model() }
    }

    open spec fn encodable(m: PlayPlayerInfoSpecModel) -> bool {
        PlayerInfoActionList::encodable(m.actions)
    }

    open spec fn legal(m: PlayPlayerInfoSpecModel) -> bool {
        PlayerInfoActionList::legal(m.actions)
    }

    open spec fn spec_serialize(m: PlayPlayerInfoSpecModel) -> Seq<u8> {
        PlayerInfoActionList::spec_serialize(m.actions)
    }

    open spec fn spec_deserialize(s: Seq<u8>) -> SpecResult<PlayPlayerInfoSpecModel> {
        match PlayerInfoActionList::spec_deserialize(s) {
            Err(e) => Err(e),
            Ok((actions, r1)) => Ok((PlayPlayerInfoSpecModel { actions }, r1)),
        }
    }

    proof fn lemma_round_trip(m: PlayPlayerInfoSpecModel, rest: Seq<u8>) {
        PlayerInfoActionList::lemma_round_trip(m.actions, rest);
    }

    fn mc_serialize(&self, to: &mut Vec<u8>) {
        let ghost start = to@;
        self.actions.mc_serialize(to);
        assert(to@ =~= start + Self::spec_serialize(self.model()));
    }

    fn mc_deserialize(data: &[u8]) -> (r: Result<(Self, &[u8]), DeserializeErr>) {
        let (actions, rest) = PlayerInfoActionList::mc_deserialize(data)?;
        Ok((PlayPlayerInfoSpec { actions }, rest))
    }
}

/// The body of the play face player message, as values.
pub struct PlayFacePlayerSpecModel {
    pub face_kind: <FacePlayerKind as Codec>::Model,
    pub target_x: <Float64 as Codec>::Model,
    pub target_y: <Float64 as Codec>::Model,
    pub target_z: <Float64 as Codec>::Model,
    pub entity: <Option<FacePlayerEntityTarget> as Codec>::Model,
}

/// The body of the play face player message
#[derive(Debug, Clone, PartialEq, Eq)]
pub struct PlayFacePlayerSpec {
    pub face_kind: FacePlayerKind,
    pub target_x: Float64,
    pub target_y: Float64,
    pub target_z: Float64,
    pub entity: Option<FacePlayerEntityTarget>,
}

impl Codec for PlayFacePlayerSpec {
    type Model = PlayFacePlayerSpecModel;

    open spec fn model(&self) -> PlayFacePlayerSpecModel {
        PlayFacePlayerSpecModel { face_kind: self.face_kind.model(), target_x: self.target_x.model(), target_y: self.target_y.model(), target_z: self.target_z.model(), entity: self.entity.model() }
    }

    open spec fn encodable(m: PlayFacePlayerSpecModel) -> bool {
        FacePlayerKind::encodable(m.face_kind) && Float64::encodable(m.target_x) && Float64::encodable(m.target_y) && Float64::encodable(m.target_z) && Option::<FacePlayerEntityTarget>::encodable(m.entity)
    }

    open spec fn legal(m: PlayFacePlayerSpecModel) -> bool {
        FacePlayerKind::legal(m.face_kind) && Float64::legal(m.target_x) && Float64::legal(m.target_y) && Float64::legal(m.target_z) && Option::<FacePlayerEntityTarget>::legal(m.entity)
    }

    open spec fn spec_serialize(m: PlayFacePlayerSpecModel) -> Seq<u8> {
        FacePlayerKind::spec_serialize(m.face_kind) + Float64::spec_serialize(m.target_x) + Float64::spec_serialize(m.target_y) + Float64::spec_serialize(m.target_z) + Option::<FacePlayerEntityTarget>::spec_serialize(m.entity)
    }

    open spec fn spec_deserialize(s: Seq<u8>) -> SpecResult<PlayFacePlayerSpecModel> {
        match FacePlayerKind::spec_deserialize(s) {
            Err(e) => Err(e),
            Ok((face_kind, r1)) => match Float64::spec_deserialize(r1) {
                Err(e) => Err(e),
                Ok((target_x, r2)) => match Float64::spec_deserialize(r2) {
                    Err(e) => Err(e),
                    Ok((target_y, r3)) => match Float64::spec_deserialize(r3) {
                        Err(e) => Err(e),
                        Ok((target_z, r4)) => match Option::<FacePlayerEntityTarget>::spec_deserialize(r4) {
                            Err(e) => Err(e),
                            Ok((entity, r5)) => Ok((PlayFacePlayerSpecModel { face_kind, target_x, target_y, target_z, entity }, r5)),
                        },
                    },
                },
            },
        }
    }

    #[verifier::rlimit(100)]
    #[verifier::spinoff_prover]
    proof fn lemma_round_trip(m: PlayFacePlayerSpecModel, rest: Seq<u8>) {
        let t4 = Option::<FacePlayerEntityTarget>::spec_serialize(m.entity) + rest;
        let t3 = Float64::spec_serialize(m.target_z) + t4;
        let t2 = Float64::spec_serialize(m.target_y) + t3;
        let t1 = Float64::spec_serialize(m.target_x) + t2;
        let p1 = FacePlayerKind::spec_serialize(m.face_kind);
        let p2 = p1 + Float64::spec_serialize(m.target_x);
        let p3 = p2 + Float64::spec_serialize(m.target_y);
        let p4 = p3 + Float64::spec_serialize(m.target_z);
        let p5 = p4 + Option::<FacePlayerEntityTarget>::spec_serialize(m.entity);
        assert(Self::spec_serialize(m) == p5);
        lemma_concat_associative(p4, Option::<FacePlayerEntityTarget>::spec_serialize(m.entity), rest);
        lemma_concat_associative(p3, Float64::spec_serialize(m.target_z), t4);
        lemma_concat_associative(p2, Float64::spec_serialize(m.target_y), t3);
        lemma_concat_associative(p1, Float64::spec_serialize(m.target_x), t2);
        FacePlayerKind::lemma_round_trip(m.face_kind, t1);
        assert(FacePlayerKind::spec_deserialize(Self::spec_serialize(m) + rest) == Ok::<(<FacePlayerKind as Codec>::Model, Seq<u8>), DeserializeErr>((m.face_kind, t1)));
        Float64::lemma_round_trip(m.target_x, t2);
        assert(Float64::spec_deserialize(t1) == Ok::<(<Float64 as Codec>::Model, Seq<u8>), DeserializeErr>((m.target_x, t2)));
        Float64::lemma_round_trip(m.target_y, t3);
        assert(Float64::spec_deserialize(t2) == Ok::<(<Float64 as Codec>::Model, Seq<u8>), DeserializeErr>((m.target_y, t3)));
        Float64::lemma_round_trip(m.target_z, t4);
        assert(Float64::spec_deserialize(t3) == Ok::<(<Float64 as Codec>::Model, Seq<u8>), DeserializeErr>((m.target_z, t4)));
        Option::<FacePlayerEntityTarget>::lemma_round_trip(m.entity, rest);
        assert(Option::<FacePlayerEntityTarget>::spec_deserialize(t4) == Ok::<(<Option<FacePlayerEntityTarget> as Codec>::Model, Seq<u8>), DeserializeErr>((m.entity, rest)));
    }

    fn mc_serialize(&self, to: &mut Vec<u8>) {
        let ghost start = to@;
        self.face_kind.mc_serialize(to);
        self.target_x.mc_serialize(to);
        proof {
            lemma_concat_associative(start, FacePlayerKind::spec_serialize(self.face_kind.model()), Float64::spec_serialize(self.target_x.model()));
        }
        self.target_y.mc_serialize(to);
        proof {
            lemma_concat_associative(start, FacePlayerKind::spec_serialize(self.face_kind.model()) + Float64::spec_serialize(self.target_x.model()), Float64::spec_serialize(self.target_y.model()));
        }
        self.target_z.mc_serialize(to);
        proof {
            lemma_concat_associative(start, FacePlayerKind::spec_serialize(self.face_kind.model()) + Float64::spec_serialize(self.target_x.model()) + Float64::spec_serialize(self.target_y.model()), Float64::spec_serialize(self.target_z.model()));
        }
        self.entity.mc_serialize(to);
        proof {
            lemma_concat_associative(start, FacePlayerKind::spec_serialize(self.face_kind.model()) + Float64::spec_serialize(self.target_x.model()) + Float64::spec_serialize(self.target_y.model()) + Float64::spec_serialize(self.target_z.model()), Option::<FacePlayerEntityTarget>::spec_serialize(self.entity.model()));
        }
        assert(to@ =~= start + Self::spec_serialize(self.model()));
    }

    fn mc_deserialize(data: &[u8]) -> (r: Result<(Self, &[u8]), DeserializeErr>) {
        let (face_kind, rest) = FacePlayerKind::mc_deserialize(data)?;
        let (target_x, rest) = Float64::mc_deserialize(rest)?;
        let (target_y, rest) = Float64::mc_deserialize(rest)?;
        let (target_z, rest) = Float64::mc_deserialize(rest)?;
        let (entity, rest) = Option::<FacePlayerEntityTarget>::mc_deserialize(rest)?;
        Ok((PlayFacePlayerSpec { face_kind, target_x, target_y, target_z, entity }, rest))
    }
}

/// The body of the play server player position and look message, as values.
pub struct PlayServerPlayerPositionAndLookSpecModel {
    pub x: <Float64 as Codec>::Model,
    pub y: <Float64 as Codec>::Model,
    pub z: <Float64 as Codec>::Model,
    pub yaw: <Float32 as Codec>::Model,
    pub pitch: <Float32 as Codec>::Model,
    pub flags: <PositionAndLookFlags as Codec>::Model,
    pub teleport_id: <VarInt as Codec>::Model,
}

/// The body of the play server player position and look message
#[derive(Debug, Clone, PartialEq, Eq)]
pub struct PlayServerPlayerPositionAndLookSpec {
    pub x: Float64,
    pub y: Float64,
    pub z: Float64,
    pub yaw: Float32,
    pub pitch: Float32,
    pub flags: PositionAndLookFlags,
    pub teleport_id: VarInt,
}

impl Codec for PlayServerPlayerPositionAndLookSpec {
    type Model = PlayServerPlayerPositionAndLookSpecModel;

    open spec fn model(&self) -> PlayServerPlayerPositionAndLookSpecModel {
        PlayServerPlayerPositionAndLookSpecModel { x: self.x.model(), y: self.y.model(), z: self.z.model(), yaw: self.yaw.model(), pitch: self.pitch.model(), flags: self.flags.model(), teleport_id: self.teleport_id.model() }
    }

    open spec fn encodable(m: PlayServerPlayerPositionAndLookSpecModel) -> bool {
        Float64::encodable(m.x) && Float64::encodable(m.y) && Float64::encodable(m.z) && Float32::encodable(m.yaw) && Float32::encodable(m.pitch) && PositionAndLookFlags::encodable(m.flags) && VarInt::encodable(m.teleport_id)
    }

    open spec fn legal(m: PlayServerPlayerPositionAndLookSpecModel) -> bool {
        Float64::legal(m.x) && Float64::legal(m.y) && Float64::legal(m.z) && Float32::legal(m.yaw) && Float32::legal(m.pitch) && PositionAndLookFlags::legal(m.flags) && VarInt::legal(m.teleport_id)
    }

    open spec fn spec_serialize(m: PlayServerPlayerPositionAndLookSpecModel) -> Seq<u8> {
        Float64::spec_serialize(m.x) + Float64::spec_serialize(m.y) + Float64::spec_serialize(m.z) + Float32::spec_serialize(m.yaw) + Float32::spec_serialize(m.pitch) + PositionAndLookFlags::spec_serialize(m.flags) + VarInt::spec_serialize(m.teleport_id)
    }

    open spec fn spec_deserialize(s: Seq<u8>) -> SpecResult<PlayServerPlayerPositionAndLookSpecModel> {
        match Float64::spec_deserialize(s) {
            Err(e) => Err(e),
            Ok((x, r1)) => match Float64::spec_deserialize(r1) {
                Err(e) => Err(e),
                Ok((y, r2)) => match Float64::spec_deserialize(r2) {
                    Err(e) => Err(e),
                    Ok((z, r3)) => match Float32::spec_deserialize(r3) {
                        Err(e) => Err(e),
                        Ok((yaw, r4)) => match Float32::spec_deserialize(r4) {
                            Err(e) => Err(e),
                            Ok((pitch, r5)) => match PositionAndLookFlags::spec_deserialize(r5) {
                                Err(e) => Err(e),
                                Ok((flags, r6)) => match VarInt::spec_deserialize(r6) {
                                    Err(e) => Err(e),
                                    Ok((teleport_id, r7)) => Ok((PlayServerPlayerPositionAndLookSpecModel { x, y, z, yaw, pitch, flags, teleport_id }, r7)),
                                },
                            },
                        },
                    },
                },
            },
        }
    }

    #[verifier::rlimit(100)]
    #[verifier::spinoff_prover]
    proof fn lemma_round_trip(m: PlayServerPlayerPositionAndLookSpecModel, rest: Seq<u8>) {
        let t6 = VarInt::spec_serialize(m.teleport_id) + rest;
        let t5 = PositionAndLookFlags::spec_serialize(m.flags) + t6;
        let t4 = Float32::spec_serialize(m.pitch) + t5;
        let t3 = Float32::spec_serialize(m.yaw) + t4;
        let t2 = Float64::spec_serialize(m.z) + t3;
        let t1 = Float64::spec_serialize(m.y) + t2;
        let p1 = Float64::spec_serialize(m.x);
        let p2 = p1 + Float64::spec_serialize(m.y);
        let p3 = p2 + Float64::spec_serialize(m.z);
        let p4 = p3 + Float32::spec_serialize(m.yaw);
        let p5 = p4 + Float32::spec_serialize(m.pitch);
        let p6 = p5 + PositionAndLookFlags::spec_serialize(m.flags);
        let p7 = p6 + VarInt::spec_serialize(m.teleport_id);
        assert(Self::spec_serialize(m) == p7);
        lemma_concat_associative(p6, VarInt::spec_serialize(m.teleport_id), rest);
        lemma_concat_associative(p5, PositionAndLookFlags::spec_serialize(m.flags), t6);
        lemma_concat_associative(p4, Float32::spec_serialize(m.pitch), t5);
        lemma_concat_associative(p3, Float32::spec_serialize(m.yaw), t4);
        lemma_concat_associative(p2, Float64::spec_serialize(m.z), t3);
        lemma_concat_associative(p1, Float64::spec_serialize(m.y), t2);
        Float64::lemma_round_trip(m.x, t1);
        assert(Float64::spec_deserialize(Self::spec_serialize(m) + rest) == Ok::<(<Float64 as Codec>::Model, Seq<u8>), DeserializeErr>((m.x, t1)));
        Float64::lemma_round_trip(m.y, t2);
        assert(Float64::spec_deserialize(t1) == Ok::<(<Float64 as Codec>::Model, Seq<u8>), DeserializeErr>((m.y, t2)));
        Float64::lemma_round_trip(m.z, t3);
        assert(Float64::spec_deserialize(t2) == Ok::<(<Float64 as Codec>::Model, Seq<u8>), DeserializeErr>((m.z, t3)));
        Float32::lemma_round_trip(m.yaw, t4);
        assert(Float32::spec_deserialize(t3) == Ok::<(<Float32 as Codec>::Model, Seq<u8>), DeserializeErr>((m.yaw, t4)));
        Float32::lemma_round_trip(m.pitch, t5);
        assert(Float32::spec_deserialize(t4) == Ok::<(<Float32 as Codec>::Model, Seq<u8>), DeserializeErr>((m.pitch, t5)));
        PositionAndLookFlags::lemma_round_trip(m.flags, t6);
        assert(PositionAndLookFlags::spec_deserialize(t5) == Ok::<(<PositionAndLookFlags as Codec>::Model, Seq<u8>), DeserializeErr>((m.flags, t6)));
        VarInt::lemma_round_trip(m.teleport_id, rest);
        assert(VarInt::spec_deserialize(t6) == Ok::<(<VarInt as Codec>::Model, Seq<u8>), DeserializeErr>((m.teleport_id, rest)));
    }

    fn mc_serialize(&self, to: &mut Vec<u8>) {
        let ghost start = to@;
        self.x.mc_serialize(to);
        self.y.mc_serialize(to);
        proof {
            lemma_concat_associative(start, Float64::spec_serialize(self.x.model()), Float64::spec_serialize(self.y.model()));
        }
        self.z.mc_serialize(to);
        proof {
            lemma_concat_associative(start, Float64::spec_serialize(self.x.model()) + Float64::spec_serialize(self.y.model()), Float64::spec_serialize(self.z.model()));
        }
        self.yaw.mc_serialize(to);
        proof {
            lemma_concat_associative(start, Float64::spec_serialize(self.x.model()) + Float64::spec_serialize(self.y.model()) + Float64::spec_serialize(self.z.model()), Float32::spec_serialize(self.yaw.model()));
        }
        self.pitch.mc_serialize(to);
        proof {
            lemma_concat_associative(start, Float64::spec_serialize(self.x.model()) + Float64::spec_serialize(self.y.model()) + Float64::spec_serialize(self.z.model()) + Float32::spec_serialize(self.yaw.model()), Float32::spec_serialize(self.pitch.model()));
        }
        self.flags.mc_serialize(to);
        proof {
            lemma_concat_associative(start, Float64::spec_serialize(self.x.model()) + Float64::spec_serialize(self.y.model()) + Float64::spec_serialize(self.z.model()) + Float32::spec_serialize(self.yaw.model()) + Float32::spec_serialize(self.pitch.model()), PositionAndLookFlags::spec_serialize(self.flags.model()));
        }
        self.teleport_id.mc_serialize(to);
        proof {
            lemma_concat_associative(start, Float64::spec_serialize(self.x.model()) + Float64::spec_serialize(self.y.model()) + Float64::spec_serialize(self.z.model()) + Float32::spec_serialize(self.yaw.model()) + Float32::spec_serialize(self.pitch.model()) + PositionAndLookFlags::spec_serialize(self.flags.model()), VarInt::spec_serialize(self.teleport_id.model()));
        }
        assert(to@ =~= start + Self::spec_serialize(self.model()));
    }

    fn mc_deserialize(data: &[u8]) -> (r: Result<(Self, &[u8]), DeserializeErr>) {
        let (x, rest) = Float64::mc_deserialize(data)?;
        let (y, rest) = Float64::mc_deserialize(rest)?;
        let (z, rest) = Float64::mc_deserialize(rest)?;
        let (yaw, rest) = Float32::mc_deserialize(rest)?;
        let (pitch, rest) = Float32::mc_deserialize(rest)?;
        let (flags, rest) = PositionAndLookFlags::mc_deserialize(rest)?;
        let (teleport_id, rest) = VarInt::mc_deserialize(rest)?;
        Ok((PlayServerPlayerPositionAndLookSpec { x, y, z, yaw, pitch, flags, teleport_id }, rest))
    }
}

/// The body of the play unlock recipes message, as values.
pub struct PlayUnlockRecipesSpecModel {
    pub action: <RecipeUnlockAction as Codec>::Model,
    pub crafting_book_open: <bool as Codec>::Model,
    pub crafting_book_active: <bool as Codec>::Model,
    pub smelting_book_open: <bool as Codec>::Model,
    pub smelting_book_active: <bool as Codec>::Model,
    pub recipe_ids: <VarIntCountedArray<String> as Codec>::Model,
    pub other_recipe_ids: Seq<u8>,
}

/// The body of the play unlock recipes message. The last field takes every remaining byte.
#[derive(Debug, Clone, PartialEq, Eq)]
pub struct PlayUnlockRecipesSpec {
    pub action: RecipeUnlockAction,
    pub crafting_book_open: bool,
    pub crafting_book_active: bool,
    pub smelting_book_open: bool,
    pub smelting_book_active: bool,
    pub recipe_ids: VarIntCountedArray<String>,
    pub other_recipe_ids: RemainingBytes,
}

impl PlayUnlockRecipesSpec {
    pub open spec fn spec_model(&self) -> PlayUnlockRecipesSpecModel {
        PlayUnlockRecipesSpecModel { action: self.action.model(), crafting_book_open: self.crafting_book_open.model(), crafting_book_active: self.crafting_book_active.model(), smelting_book_open: self.smelting_book_open.model(), smelting_book_active: self.smelting_book_active.model(), recipe_ids: self.recipe_ids.model(), other_recipe_ids: self.other_recipe_ids.data@ }
    }

    pub open spec fn legal(m: PlayUnlockRecipesSpecModel) -> bool {
        RecipeUnlockAction::legal(m.action) && bool::legal(m.crafting_book_open) && bool::legal(m.crafting_book_active) && bool::legal(m.smelting_book_open) && bool::legal(m.smelting_book_active) && VarIntCountedArray::<String>::legal(m.recipe_ids)
    }

    pub open spec fn encodable(m: PlayUnlockRecipesSpecModel) -> bool {
        RecipeUnlockAction::encodable(m.action) && bool::encodable(m.crafting_book_open) && bool::encodable(m.crafting_book_active) && bool::encodable(m.smelting_book_open) && bool::encodable(m.smelting_book_active) && VarIntCountedArray::<String>::encodable(m.recipe_ids)
    }

    pub open spec fn spec_serialize(m: PlayUnlockRecipesSpecModel) -> Seq<u8> {
        RecipeUnlockAction::spec_serialize(m.action) + bool::spec_serialize(m.crafting_book_open) + bool::spec_serialize(m.crafting_book_active) + bool::spec_serialize(m.smelting_book_open) + bool::spec_serialize(m.smelting_book_active) + VarIntCountedArray::<String>::spec_serialize(m.recipe_ids) + m.other_recipe_ids
    }

    /// The fields in order; the last takes all that is left.
    pub open spec fn spec_deserialize(s: Seq<u8>) -> SpecResult<PlayUnlockRecipesSpecModel> {
        match RecipeUnlockAction::spec_deserialize(s) {
            Err(e) => Err(e),
            Ok((action, r1)) => match bool::spec_deserialize(r1) {
                Err(e) => Err(e),
                Ok((crafting_book_open, r2)) => match bool::spec_deserialize(r2) {
                    Err(e) => Err(e),
                    Ok((crafting_book_active, r3)) => match bool::spec_deserialize(r3) {
                        Err(e) => Err(e),
                        Ok((smelting_book_open, r4)) => match bool::spec_deserialize(r4) {
                            Err(e) => Err(e),
                            Ok((smelting_book_active, r5)) => match VarIntCountedArray::<String>::spec_deserialize(r5) {
                                Err(e) => Err(e),
                                Ok((recipe_ids, r6)) => Ok((PlayUnlockRecipesSpecModel { action, crafting_book_open, crafting_book_active, smelting_book_open, smelting_book_active, recipe_ids, other_recipe_ids: r6 }, Seq::empty())),
                            },
                        },
                    },
                },
            },
        }
    }

    /// A body reads back from its own encoding.
    #[verifier::rlimit(100)]
    #[verifier::spinoff_prover]
    pub proof fn lemma_round_trip(m: PlayUnlockRecipesSpecModel)
        requires
            Self::legal(m),
        ensures
            Self::encodable(m),
            Self::spec_deserialize(Self::spec_serialize(m)) == Ok::<(PlayUnlockRecipesSpecModel, Seq<u8>), DeserializeErr>(
                (m, Seq::empty()),
            ),
    {
        let t5 = VarIntCountedArray::<String>::spec_serialize(m.recipe_ids) + m.other_recipe_ids;
        let t4 = bool::spec_serialize(m.smelting_book_active) + t5;
        let t3 = bool::spec_serialize(m.smelting_book_open) + t4;
        let t2 = bool::spec_serialize(m.crafting_book_active) + t3;
        let t1 = bool::spec_serialize(m.crafting_book_open) + t2;
        assert(Self::spec_serialize(m) =~= RecipeUnlockAction::spec_serialize(m.action) + t1);
        RecipeUnlockAction::lemma_round_trip(m.action, t1);
        bool::lemma_round_trip(m.crafting_book_open, t2);
        bool::lemma_round_trip(m.crafting_book_active, t3);
        bool::lemma_round_trip(m.smelting_book_open, t4);
        bool::lemma_round_trip(m.smelting_book_active, t5);
        VarIntCountedArray::<String>::lemma_round_trip(m.recipe_ids, m.other_recipe_ids);
    }

    pub fn mc_serialize(&self, to: &mut Vec<u8>)
        requires
            Self::encodable(self.spec_model()),
        ensures
            final(to)@ == old(to)@ + Self::spec_serialize(self.spec_model()),
    {
        let ghost start = to@;
        self.action.mc_serialize(to);
        self.crafting_book_open.mc_serialize(to);
        self.crafting_book_active.mc_serialize(to);
        self.smelting_book_open.mc_serialize(to);
        self.smelting_book_active.mc_serialize(to);
        self.recipe_ids.mc_serialize(to);
        self.other_recipe_ids.mc_serialize(to);
        assert(to@ =~= start + Self::spec_serialize(self.spec_model()));
    }

    pub fn mc_deserialize(data: &[u8]) -> (r: Result<(PlayUnlockRecipesSpec, &[u8]), DeserializeErr>)
        ensures
            read_matches(r, |v: PlayUnlockRecipesSpec| v.spec_model(), Self::spec_deserialize(data@)),
    {
        let (action, rest) = RecipeUnlockAction::mc_deserialize(data)?;
        let (crafting_book_open, rest) = bool::mc_deserialize(rest)?;
        let (crafting_book_active, rest) = bool::mc_deserialize(rest)?;
        let (smelting_book_open, rest) = bool::mc_deserialize(rest)?;
        let (smelting_book_active, rest) = bool::mc_deserialize(rest)?;
        let (recipe_ids, rest) = VarIntCountedArray::<String>::mc_deserialize(rest)?;
        let (other_recipe_ids, rest) = RemainingBytes::mc_deserialize(rest)?;
        assert(rest@ =~= Seq::<u8>::empty());
        Ok((PlayUnlockRecipesSpec { action, crafting_book_open, crafting_book_active, smelting_book_open, smelting_book_active, recipe_ids, other_recipe_ids }, rest))
    }
}

/// The body of the play destroy entities message, as values.
pub struct PlayDestroyEntitiesSpecModel {
    pub entity_ids: <VarIntCountedArray<VarInt> as Codec>::Model,
}

/// The body of the play destroy entities message
#[derive(Debug, Clone, PartialEq, Eq)]
pub struct PlayDestroyEntitiesSpec {
    pub entity_ids: VarIntCountedArray<VarInt>,
}

impl Codec for PlayDestroyEntitiesSpec {
    type Model = PlayDestroyEntitiesSpecModel;

    open spec fn model(&self) -> PlayDestroyEntitiesSpecModel {
        PlayDestroyEntitiesSpecModel { entity_ids: self.entity_ids.model() }
    }

    open spec fn encodable(m: PlayDestroyEntitiesSpecModel) -> bool {
        VarIntCountedArray::<VarInt>::encodable(m.entity_ids)
    }

    open spec fn legal(m: PlayDestroyEntitiesSpecModel) -> bool {
        VarIntCountedArray::<VarInt>::legal(m.entity_ids)
    }

    open spec fn spec_serialize(m: PlayDestroyEntitiesSpecModel) -> Seq<u8> {
        VarIntCountedArray::<VarInt>::spec_serialize(m.entity_ids)
    }

    open spec fn spec_deserialize(s: Seq<u8>) -> SpecResult<PlayDestroyEntitiesSpecModel> {
        match VarIntCountedArray::<VarInt>::spec_deserialize(s) {
            Err(e) => Err(e),
            Ok((entity_ids, r1)) => Ok((PlayDestroyEntitiesSpecModel { entity_ids }, r1)),
        }
    }

    proof fn lemma_round_trip(m: PlayDestroyEntitiesSpecModel, rest: Seq<u8>) {
        VarIntCountedArray::<VarInt>::lemma_round_trip(m.entity_ids, rest);
    }

    fn mc_serialize(&self, to: &mut Vec<u8>) {
        let ghost start = to@;
        self.entity_ids.mc_serialize(to);
        assert(to@ =~= start + Self::spec_serialize(self.model()));
    }

    fn mc_deserialize(data: &[u8]) -> (r: Result<(Self, &[u8]), DeserializeErr>) {
        let (entity_ids, rest) = VarIntCountedArray::<VarInt>::mc_deserialize(data)?;
        Ok((PlayDestroyEntitiesSpec { entity_ids }, rest))
    }
}

/// The body of the play remove entity effect message, as values.
pub struct PlayRemoveEntityEffectSpecModel {
    pub entity_id: <VarInt as Codec>::Model,
    pub effect: <EntityEffectKind as Codec>::Model,
}

/// The body of the play remove entity effect message
#[derive(Debug, Clone, PartialEq, Eq)]
pub struct PlayRemoveEntityEffectSpec {
    pub entity_id: VarInt,
    pub effect: EntityEffectKind,
}

impl Codec for PlayRemoveEntityEffectSpec {
    type Model = PlayRemoveEntityEffectSpecModel;

    open spec fn model(&self) -> PlayRemoveEntityEffectSpecModel {
        PlayRemoveEntityEffectSpecModel { entity_id: self.entity_id.model(), effect: self.effect.model() }
    }

    open spec fn encodable(m: PlayRemoveEntityEffectSpecModel) -> bool {
        VarInt::encodable(m.entity_id) && EntityEffectKind::encodable(m.effect)
    }

    open spec fn legal(m: PlayRemoveEntityEffectSpecModel) -> bool {
        VarInt::legal(m.entity_id) && EntityEffectKind::legal(m.effect)
    }

    open spec fn spec_serialize(m: PlayRemoveEntityEffectSpecModel) -> Seq<u8> {
        VarInt::spec_serialize(m.entity_id) + EntityEffectKind::spec_serialize(m.effect)
    }

    open spec fn spec_deserialize(s: Seq<u8>) -> SpecResult<PlayRemoveEntityEffectSpecModel> {
        match VarInt::spec_deserialize(s) {
            Err(e) => Err(e),
            Ok((entity_id, r1)) => match EntityEffectKind::spec_deserialize(r1) {
                Err(e) => Err(e),
                Ok((effect, r2)) => Ok((PlayRemoveEntityEffectSpecModel { entity_id, effect }, r2)),
            },
        }
    }

    proof fn lemma_round_trip(m: PlayRemoveEntityEffectSpecModel, rest: Seq<u8>) {
        let t1 = EntityEffectKind::spec_serialize(m.effect) + rest;
        let p1 = VarInt::spec_serialize(m.entity_id);
        let p2 = p1 + EntityEffectKind::spec_serialize(m.effect);
        assert(Self::spec_serialize(m) == p2);
        lemma_concat_associative(p1, EntityEffectKind::spec_serialize(m.effect), rest);
        VarInt::lemma_round_trip(m.entity_id, t1);
        EntityEffectKind::lemma_round_trip(m.effect, rest);
    }

    fn mc_serialize(&self, to: &mut Vec<u8>) {
        let ghost start = to@;
        self.entity_id.mc_serialize(to);
        self.effect.mc_serialize(to);
        proof {
            lemma_concat_associative(start, VarInt::spec_serialize(self.entity_id.model()), EntityEffectKind::spec_serialize(self.effect.model()));
        }
        assert(to@ =~= start + Self::spec_serialize(self.model()));
    }

    fn mc_deserialize(data: &[u8]) -> (r: Result<(Self, &[u8]), DeserializeErr>) {
        let (entity_id, rest) = VarInt::mc_deserialize(data)?;
        let (effect, rest) = EntityEffectKind::mc_deserialize(rest)?;
        Ok((PlayRemoveEntityEffectSpec { entity_id, effect }, rest))
    }
}

/// The body of the play resource pack send message, as values.
pub struct PlayResourcePackSendSpecModel {
    pub url: <String as Codec>::Model,
    pub hash: <String as Codec>::Model,
}

/// The body of the play resource pack send message
#[derive(Debug, Clone, PartialEq, Eq)]
pub struct PlayResourcePackSendSpec {
    pub url: String,
    pub hash: String,
}

impl Codec for PlayResourcePackSendSpec {
    type Model = PlayResourcePackSendSpecModel;

    open spec fn model(&self) -> PlayResourcePackSendSpecModel {
        PlayResourcePackSendSpecModel { url: self.url.model(), hash: self.hash.model() }
    }

    open spec fn encodable(m: PlayResourcePackSendSpecModel) -> bool {
        String::encodable(m.url) && String::encodable(m.hash)
    }

    open spec fn legal(m: PlayResourcePackSendSpecModel) -> bool {
        String::legal(m.url) && String::legal(m.hash)
    }

    open spec fn spec_serialize(m: PlayResourcePackSendSpecModel) -> Seq<u8> {
        String::spec_serialize(m.url) + String::spec_serialize(m.hash)
    }

    open spec fn spec_deserialize(s: Seq<u8>) -> SpecResult<PlayResourcePackSendSpecModel> {
        match String::spec_deserialize(s) {
            Err(e) => Err(e),
            Ok((url, r1)) => match String::spec_deserialize(r1) {
                Err(e) => Err(e),
                Ok((hash, r2)) => Ok((PlayResourcePackSendSpecModel { url, hash }, r2)),
            },
        }
    }

    proof fn lemma_round_trip(m: PlayResourcePackSendSpecModel, rest: Seq<u8>) {
        let t1 = String::spec_serialize(m.hash) + rest;
        let p1 = String::spec_serialize(m.url);
        let p2 = p1 + String::spec_serialize(m.hash);
        assert(Self::spec_serialize(m) == p2);
        lemma_concat_associative(p1, String::spec_serialize(m.hash), rest);
        String::lemma_round_trip(m.url, t1);
        String::lemma_round_trip(m.hash, rest);
    }

    fn mc_serialize(&self, to: &mut Vec<u8>) {
        let ghost start = to@;
        self.url.mc_serialize(to);
        self.hash.mc_serialize(to);
        proof {
            lemma_concat_associative(start, String::spec_serialize(self.url.model()), String::spec_serialize(self.hash.model()));
        }
        assert(to@ =~= start + Self::spec_serialize(self.model()));
    }

    fn mc_deserialize(data: &[u8]) -> (r: Result<(Self, &[u8]), DeserializeErr>) {
        let (url, rest) = String::mc_deserialize(data)?;
        let (hash, rest) = String::mc_deserialize(rest)?;
        Ok((PlayResourcePackSendSpec { url, hash }, rest))
    }
}

/// The body of the play respawn message, as values.
pub struct PlayRespawnSpecModel {
    pub dimension: <Dimension as Codec>::Model,
    pub hashed_seed: <i64 as Codec>::Model,
    pub gamemode: <GameMode as Codec>::Model,
    pub level_type: <String as Codec>::Model,
}

/// The body of the play respawn message
#[derive(Debug, Clone, PartialEq, Eq)]
pub struct PlayRespawnSpec {
    pub dimension: Dimension,
    pub hashed_seed: i64,
    pub gamemode: GameMode,
    pub level_type: String,
}

impl Codec for PlayRespawnSpec {
    type Model = PlayRespawnSpecModel;

    open spec fn model(&self) -> PlayRespawnSpecModel {
        PlayRespawnSpecModel { dimension: self.dimension.model(), hashed_seed: self.hashed_seed.model(), gamemode: self.gamemode.model(), level_type: self.level_type.model() }
    }

    open spec fn encodable(m: PlayRespawnSpecModel) -> bool {
        Dimension::encodable(m.dimension) && i64::encodable(m.hashed_seed) && GameMode::encodable(m.gamemode) && String::encodable(m.level_type)
    }

    open spec fn legal(m: PlayRespawnSpecModel) -> bool {
        Dimension::legal(m.dimension) && i64::legal(m.hashed_seed) && GameMode::legal(m.gamemode) && String::legal(m.level_type)
    }

    open spec fn spec_serialize(m: PlayRespawnSpecModel) -> Seq<u8> {
        Dimension::spec_serialize(m.dimension) + i64::spec_serialize(m.hashed_seed) + GameMode::spec_serialize(m.gamemode) + String::spec_serialize(m.level_type)
    }

    open spec fn spec_deserialize(s: Seq<u8>) -> SpecResult<PlayRespawnSpecModel> {
        match Dimension::spec_deserialize(s) {
            Err(e) => Err(e),
            Ok((dimension, r1)) => match i64::spec_deserialize(r1) {
                Err(e) => Err(e),
                Ok((hashed_seed, r2)) => match GameMode::spec_deserialize(r2) {
                    Err(e) => Err(e),
                    Ok((gamemode, r3)) => match String::spec_deserialize(r3) {
                        Err(e) => Err(e),
                        Ok((level_type, r4)) => Ok((PlayRespawnSpecModel { dimension, hashed_seed, gamemode, level_type }, r4)),
                    },
                },
            },
        }
    }

    #[verifier::rlimit(100)]
    #[verifier::spinoff_prover]
    proof fn lemma_round_trip(m: PlayRespawnSpecModel, rest: Seq<u8>) {
        let t3 = String::spec_serialize(m.level_type) + rest;
        let t2 = GameMode::spec_serialize(m.gamemode) + t3;
        let t1 = i64::spec_serialize(m.hashed_seed) + t2;
        let p1 = Dimension::spec_serialize(m.dimension);
        let p2 = p1 + i64::spec_serialize(m.hashed_seed);
        let p3 = p2 + GameMode::spec_serialize(m.gamemode);
        let p4 = p3 + String::spec_serialize(m.level_type);
        assert(Self::spec_serialize(m) == p4);
        lemma_concat_associative(p3, String::spec_serialize(m.level_type), rest);
        lemma_concat_associative(p2, GameMode::spec_serialize(m.gamemode), t3);
        lemma_concat_associative(p1, i64::spec_serialize(m.hashed_seed), t2);
        Dimension::lemma_round_trip(m.dimension, t1);
        assert(Dimension::spec_deserialize(Self::spec_serialize(m) + rest) == Ok::<(<Dimension as Codec>::Model, Seq<u8>), DeserializeErr>((m.dimension, t1)));
        i64::lemma_round_trip(m.hashed_seed, t2);
        assert(i64::spec_deserialize(t1) == Ok::<(<i64 as Codec>::Model, Seq<u8>), DeserializeErr>((m.hashed_seed, t2)));
        GameMode::lemma_round_trip(m.gamemode, t3);
        assert(GameMode::spec_deserialize(t2) == Ok::<(<GameMode as Codec>::Model, Seq<u8>), DeserializeErr>((m.gamemode, t3)));
        String::lemma_round_trip(m.level_type, rest);
        assert(String::spec_deserialize(t3) == Ok::<(<String as Codec>::Model, Seq<u8>), DeserializeErr>((m.level_type, rest)));
    }

    fn mc_serialize(&self, to: &mut Vec<u8>) {
        let ghost start = to@;
        self.dimension.mc_serialize(to);
        self.hashed_seed.mc_serialize(to);
        proof {
            lemma_concat_associative(start, Dimension::spec_serialize(self.dimension.model()), i64::spec_serialize(self.hashed_seed.model()));
        }
        self.gamemode.mc_serialize(to);
        proof {
            lemma_concat_associative(start, Dimension::spec_serialize(self.dimension.model()) + i64::spec_serialize(self.hashed_seed.model()), GameMode::spec_serialize(self.gamemode.model()));
        }
        self.level_type.mc_serialize(to);
        proof {
            lemma_concat_associative(start, Dimension::spec_serialize(self.dimension.model()) + i64::spec_serialize(self.hashed_seed.model()) + GameMode::spec_serialize(self.gamemode.model()), String::spec_serialize(self.level_type.model()));
        }
        assert(to@ =~= start + Self::spec_serialize(self.model()));
    }

    fn mc_deserialize(data: &[u8]) -> (r: Result<(Self, &[u8]), DeserializeErr>) {
        let (dimension, rest) = Dimension::mc_deserialize(data)?;
        let (hashed_seed, rest) = i64::mc_deserialize(rest)?;
        let (gamemode, rest) = GameMode::mc_deserialize(rest)?;
        let (level_type, rest) = String::mc_deserialize(rest)?;
        Ok((PlayRespawnSpec { dimension, hashed_seed, gamemode, level_type }, rest))
    }
}

/// The body of the play entity head look message, as values.
pub struct PlayEntityHeadLookSpecModel {
    pub entity_id: <VarInt as Codec>::Model,
    pub head_yaw: <Angle as Codec>::Model,
}

/// The body of the play entity head look message
#[derive(Debug, Clone, PartialEq, Eq)]
pub struct PlayEntityHeadLookSpec {
    pub entity_id: VarInt,
    pub head_yaw: Angle,
}

impl Codec for PlayEntityHeadLookSpec {
    type Model = PlayEntityHeadLookSpecModel;

    open spec fn model(&self) -> PlayEntityHeadLookSpecModel {
        PlayEntityHeadLookSpecModel { entity_id: self.entity_id.model(), head_yaw: self.head_yaw.model() }
    }

    open spec fn encodable(m: PlayEntityHeadLookSpecModel) -> bool {
        VarInt::encodable(m.entity_id) && Angle::encodable(m.head_yaw)
    }

    open spec fn legal(m: PlayEntityHeadLookSpecModel) -> bool {
        VarInt::legal(m.entity_id) && Angle::legal(m.head_yaw)
    }

    open spec fn spec_serialize(m: PlayEntityHeadLookSpecModel) -> Seq<u8> {
        VarInt::spec_serialize(m.entity_id) + Angle::spec_serialize(m.head_yaw)
    }

    open spec fn spec_deserialize(s: Seq<u8>) -> SpecResult<PlayEntityHeadLookSpecModel> {
        match VarInt::spec_deserialize(s) {
            Err(e) => Err(e),
            Ok((entity_id, r1)) => match Angle::spec_deserialize(r1) {
                Err(e) => Err(e),
                Ok((head_yaw, r2)) => Ok((PlayEntityHeadLookSpecModel { entity_id, head_yaw }, r2)),
            },
        }
    }

    proof fn lemma_round_trip(m: PlayEntityHeadLookSpecModel, rest: Seq<u8>) {
        let t1 = Angle::spec_serialize(m.head_yaw) + rest;
        let p1 = VarInt::spec_serialize(m.entity_id);
        let p2 = p1 + Angle::spec_serialize(m.head_yaw);
        assert(Self::spec_serialize(m) == p2);
        lemma_concat_associative(p1, Angle::spec_serialize(m.head_yaw), rest);
        VarInt::lemma_round_trip(m.entity_id, t1);
        Angle::lemma_round_trip(m.head_yaw, rest);
    }

    fn mc_serialize(&self, to: &mut Vec<u8>) {
        let ghost start = to@;
        self.entity_id.mc_serialize(to);
        self.head_yaw.mc_serialize(to);
        proof {
            lemma_concat_associative(start, VarInt::spec_serialize(self.entity_id.model()), Angle::spec_serialize(self.head_yaw.model()));
        }
        assert(to@ =~= start + Self::spec_serialize(self.model()));
    }

    fn mc_deserialize(data: &[u8]) -> (r: Result<(Self, &[u8]), DeserializeErr>) {
        let (entity_id, rest) = VarInt::mc_deserialize(data)?;
        let (head_yaw, rest) = Angle::mc_deserialize(rest)?;
        Ok((PlayEntityHeadLookSpec { entity_id, head_yaw }, rest))
    }
}

/// The body of the play select advancement tab message, as values.
pub struct PlaySelectAdvancementTabSpecModel {
    pub identifier: <Option<String> as Codec>::Model,
}

/// The body of the play select advancement tab message
#[derive(Debug, Clone, PartialEq, Eq)]
pub struct PlaySelectAdvancementTabSpec {
    pub identifier: Option<String>,
}

impl Codec for PlaySelectAdvancementTabSpec {
    type Model = PlaySelectAdvancementTabSpecModel;

    open spec fn model(&self) -> PlaySelectAdvancementTabSpecModel {
        PlaySelectAdvancementTabSpecModel { identifier: self.identifier.model() }
    }

    open spec fn encodable(m: PlaySelectAdvancementTabSpecModel) -> bool {
        Option::<String>::encodable(m.identifier)
    }

    open spec fn legal(m: PlaySelectAdvancementTabSpecModel) -> bool {
        Option::<String>::legal(m.identifier)
    }

    open spec fn spec_serialize(m: PlaySelectAdvancementTabSpecModel) -> Seq<u8> {
        Option::<String>::spec_serialize(m.identifier)
    }

    open spec fn spec_deserialize(s: Seq<u8>) -> SpecResult<PlaySelectAdvancementTabSpecModel> {
        match Option::<String>::spec_deserialize(s) {
            Err(e) => Err(e),
            Ok((identifier, r1)) => Ok((PlaySelectAdvancementTabSpecModel { identifier }, r1)),
        }
    }

    proof fn lemma_round_trip(m: PlaySelectAdvancementTabSpecModel, rest: Seq<u8>) {
        Option::<String>::lemma_round_trip(m.identifier, rest);
    }

    fn mc_serialize(&self, to: &mut Vec<u8>) {
        let ghost start = to@;
        self.identifier.mc_serialize(to);
        assert(to@ =~= start + Self::spec_serialize(self.model()));
    }

    fn mc_deserialize(data: &[u8]) -> (r: Result<(Self, &[u8]), DeserializeErr>) {
        let (identifier, rest) = Option::<String>::mc_deserialize(data)?;
        Ok((PlaySelectAdvancementTabSpec { identifier }, rest))
    }
}

/// The body of the play world border message, as values.
pub struct PlayWorldBorderSpecModel {
    pub action: <WorldBorderAction as Codec>::Model,
}

/// The body of the play world border message
#[derive(Debug, Clone, PartialEq, Eq)]
pub struct PlayWorldBorderSpec {
    pub action: WorldBorderAction,
}

impl Codec for PlayWorldBorderSpec {
    type Model = PlayWorldBorderSpecModel;

    open spec fn model(&self) -> PlayWorldBorderSpecModel {
        PlayWorldBorderSpecModel { action: self.action.model() }
    }

    open spec fn encodable(m: PlayWorldBorderSpecModel) -> bool {
        WorldBorderAction::encodable(m.action)
    }

    open spec fn legal(m: PlayWorldBorderSpecModel) -> bool {
        WorldBorderAction::legal(m.action)
    }

    open spec fn spec_serialize(m: PlayWorldBorderSpecModel) -> Seq<u8> {
        WorldBorderAction::spec_serialize(m.action)
    }

    open spec fn spec_deserialize(s: Seq<u8>) -> SpecResult<PlayWorldBorderSpecModel> {
        match WorldBorderAction::spec_deserialize(s) {
            Err(e) => Err(e),
            Ok((action, r1)) => Ok((PlayWorldBorderSpecModel { action }, r1)),
        }
    }

    proof fn lemma_round_trip(m: PlayWorldBorderSpecModel, rest: Seq<u8>) {
        WorldBorderAction::lemma_round_trip(m.action, rest);
    }

    fn mc_serialize(&self, to: &mut Vec<u8>) {
        let ghost start = to@;
        self.action.mc_serialize(to);
        assert(to@ =~= start + Self::spec_serialize(self.model()));
    }

    fn mc_deserialize(data: &[u8]) -> (r: Result<(Self, &[u8]), DeserializeErr>) {
        let (action, rest) = WorldBorderAction::mc_deserialize(data)?;
        Ok((PlayWorldBorderSpec { action }, rest))
    }
}

/// The body of the play camera message, as values.
pub struct PlayCameraSpecModel {
    pub camera_id: <VarInt as Codec>::Model,
}

/// The body of the play camera message
#[derive(Debug, Clone, PartialEq, Eq)]
pub struct PlayCameraSpec {
    pub camera_id: VarInt,
}

impl Codec for PlayCameraSpec {
    type Model = PlayCameraSpecModel;

    open spec fn model(&self) -> PlayCameraSpecModel {
        PlayCameraSpecModel { camera_id: self.camera_id.model() }
    }

    open spec fn encodable(m: PlayCameraSpecModel) -> bool {
        VarInt::encodable(m.camera_id)
    }

    open spec fn legal(m: PlayCameraSpecModel) -> bool {
        VarInt::legal(m.camera_id)
    }

    open spec fn spec_serialize(m: PlayCameraSpecModel) -> Seq<u8> {
        VarInt::spec_serialize(m.camera_id)
    }

    open spec fn spec_deserialize(s: Seq<u8>) -> SpecResult<PlayCameraSpecModel> {
        match VarInt::spec_deserialize(s) {
            Err(e) => Err(e),
            Ok((camera_id, r1)) => Ok((PlayCameraSpecModel { camera_id }, r1)),
        }
    }

    proof fn lemma_round_trip(m: PlayCameraSpecModel, rest: Seq<u8>) {
        VarInt::lemma_round_trip(m.camera_id, rest);
    }

    fn mc_serialize(&self, to: &mut Vec<u8>) {
        let ghost start = to@;
        self.camera_id.mc_serialize(to);
        assert(to@ =~= start + Self::spec_serialize(self.model()));
    }

    fn mc_deserialize(data: &[u8]) -> (r: Result<(Self, &[u8]), DeserializeErr>) {
        let (camera_id, rest) = VarInt::mc_deserialize(data)?;
        Ok((PlayCameraSpec { camera_id }, rest))
    }
}

/// The body of the play server held item change message, as values.
pub struct PlayServerHeldItemChangeSpecModel {
    pub slot: <i8 as Codec>::Model,
}

/// The body of the play server held item change message
#[derive(Debug, Clone, PartialEq, Eq)]
pub struct PlayServerHeldItemChangeSpec {
    pub slot: i8,
}

impl Codec for PlayServerHeldItemChangeSpec {
    type Model = PlayServerHeldItemChangeSpecModel;

    open spec fn model(&self) -> PlayServerHeldItemChangeSpecModel {
        PlayServerHeldItemChangeSpecModel { slot: self.slot.model() }
    }

    open spec fn encodable(m: PlayServerHeldItemChangeSpecModel) -> bool {
        i8::encodable(m.slot)
    }

    open spec fn legal(m: PlayServerHeldItemChangeSpecModel) -> bool {
        i8::legal(m.slot)
    }

    open spec fn spec_serialize(m: PlayServerHeldItemChangeSpecModel) -> Seq<u8> {
        i8::spec_serialize(m.slot)
    }

    open spec fn spec_deserialize(s: Seq<u8>) -> SpecResult<PlayServerHeldItemChangeSpecModel> {
        match i8::spec_deserialize(s) {
            Err(e) => Err(e),
            Ok((slot, r1)) => Ok((PlayServerHeldItemChangeSpecModel { slot }, r1)),
        }
    }

    proof fn lemma_round_trip(m: PlayServerHeldItemChangeSpecModel, rest: Seq<u8>) {
        i8::lemma_round_trip(m.slot, rest);
    }

    fn mc_serialize(&self, to: &mut Vec<u8>) {
        let ghost start = to@;
        self.slot.mc_serialize(to);
        assert(to@ =~= start + Self::spec_serialize(self.model()));
    }

    fn mc_deserialize(data: &[u8]) -> (r: Result<(Self, &[u8]), DeserializeErr>) {
        let (slot, rest) = i8::mc_deserialize(data)?;
        Ok((PlayServerHeldItemChangeSpec { slot }, rest))
    }
}

/// The body of the play update view position message, as values.
pub struct PlayUpdateViewPositionSpecModel {
    pub chunk_x: <VarInt as Codec>::Model,
    pub chunk_z: <VarInt as Codec>::Model,
}

/// The body of the play update view position message
#[derive(Debug, Clone, PartialEq, Eq)]
pub struct PlayUpdateViewPositionSpec {
    pub chunk_x: VarInt,
    pub chunk_z: VarInt,
}

impl Codec for PlayUpdateViewPositionSpec {
    type Model = PlayUpdateViewPositionSpecModel;

    open spec fn model(&self) -> PlayUpdateViewPositionSpecModel {
        PlayUpdateViewPositionSpecModel { chunk_x: self.chunk_x.model(), chunk_z: self.chunk_z.model() }
    }

    open spec fn encodable(m: PlayUpdateViewPositionSpecModel) -> bool {
        VarInt::encodable(m.chunk_x) && VarInt::encodable(m.chunk_z)
    }

    open spec fn legal(m: PlayUpdateViewPositionSpecModel) -> bool {
        VarInt::legal(m.chunk_x) && VarInt::legal(m.chunk_z)
    }

    open spec fn spec_serialize(m: PlayUpdateViewPositionSpecModel) -> Seq<u8> {
        VarInt::spec_serialize(m.chunk_x) + VarInt::spec_serialize(m.chunk_z)
    }

    open spec fn spec_deserialize(s: Seq<u8>) -> SpecResult<PlayUpdateViewPositionSpecModel> {
        match VarInt::spec_deserialize(s) {
            Err(e) => Err(e),
            Ok((chunk_x, r1)) => match VarInt::spec_deserialize(r1) {
                Err(e) => Err(e),
                Ok((chunk_z, r2)) => Ok((PlayUpdateViewPositionSpecModel { chunk_x, chunk_z }, r2)),
            },
        }
    }

    proof fn lemma_round_trip(m: PlayUpdateViewPositionSpecModel, rest: Seq<u8>) {
        let t1 = VarInt::spec_serialize(m.chunk_z) + rest;
        let p1 = VarInt::spec_serialize(m.chunk_x);
        let p2 = p1 + VarInt::spec_serialize(m.chunk_z);
        assert(Self::spec_serialize(m) == p2);
        lemma_concat_associative(p1, VarInt::spec_serialize(m.chunk_z), rest);
        VarInt::lemma_round_trip(m.chunk_x, t1);
        VarInt::lemma_round_trip(m.chunk_z, rest);
    }

    fn mc_serialize(&self, to: &mut Vec<u8>) {
        let ghost start = to@;
        self.chunk_x.mc_serialize(to);
        self.chunk_z.mc_serialize(to);
        proof {
            lemma_concat_associative(start, VarInt::spec_serialize(self.chunk_x.model()), VarInt::spec_serialize(self.chunk_z.model()));
        }
        assert(to@ =~= start + Self::spec_serialize(self.model()));
    }

    fn mc_deserialize(data: &[u8]) -> (r: Result<(Self, &[u8]), DeserializeErr>) {
        let (chunk_x, rest) = VarInt::mc_deserialize(data)?;
        let (chunk_z, rest) = VarInt::mc_deserialize(rest)?;
        Ok((PlayUpdateViewPositionSpec { chunk_x, chunk_z }, rest))
    }
}

/// The body of the play update view distance message, as values.
pub struct PlayUpdateViewDistanceSpecModel {
    pub view_distance: <VarInt as Codec>::Model,
}

/// The body of the play update view distance message
#[derive(Debug, Clone, PartialEq, Eq)]
pub struct PlayUpdateViewDistanceSpec {
    pub view_distance: VarInt,
}

impl Codec for PlayUpdateViewDistanceSpec {
    type Model = PlayUpdateViewDistanceSpecModel;

    open spec fn model(&self) -> PlayUpdateViewDistanceSpecModel {
        PlayUpdateViewDistanceSpecModel { view_distance: self.view_distance.model() }
    }

    open spec fn encodable(m: PlayUpdateViewDistanceSpecModel) -> bool {
        VarInt::encodable(m.view_distance)
    }

    open spec fn legal(m: PlayUpdateViewDistanceSpecModel) -> bool {
        VarInt::legal(m.view_distance)
    }

    open spec fn spec_serialize(m: PlayUpdateViewDistanceSpecModel) -> Seq<u8> {
        VarInt::spec_serialize(m.view_distance)
    }

    open spec fn spec_deserialize(s: Seq<u8>) -> SpecResult<PlayUpdateViewDistanceSpecModel> {
        match VarInt::spec_deserialize(s) {
            Err(e) => Err(e),
            Ok((view_distance, r1)) => Ok((PlayUpdateViewDistanceSpecModel { view_distance }, r1)),
        }
    }

    proof fn lemma_round_trip(m: PlayUpdateViewDistanceSpecModel, rest: Seq<u8>) {
        VarInt::lemma_round_trip(m.view_distance, rest);
    }

    fn mc_serialize(&self, to: &mut Vec<u8>) {
        let ghost start = to@;
        self.view_distance.mc_serialize(to);
        assert(to@ =~= start + Self::spec_serialize(self.model()));
    }

    fn mc_deserialize(data: &[u8]) -> (r: Result<(Self, &[u8]), DeserializeErr>) {
        let (view_distance, rest) = VarInt::mc_deserialize(data)?;
        Ok((PlayUpdateViewDistanceSpec { view_distance }, rest))
    }
}

/// The body of the play display scoreboard message, as values.
pub struct PlayDisplayScoreboardSpecModel {
    pub position: <ScoreboardPosition as Codec>::Model,
    pub score_name: <String as Codec>::Model,
}

/// The body of the play display scoreboard message
#[derive(Debug, Clone, PartialEq, Eq)]
pub struct PlayDisplayScoreboardSpec {
    pub position: ScoreboardPosition,
    pub score_name: String,
}

impl Codec for PlayDisplayScoreboardSpec {
    type Model = PlayDisplayScoreboardSpecModel;

    open spec fn model(&self) -> PlayDisplayScoreboardSpecModel {
        PlayDisplayScoreboardSpecModel { position: self.position.model(), score_name: self.score_name.model() }
    }

    open spec fn encodable(m: PlayDisplayScoreboardSpecModel) -> bool {
        ScoreboardPosition::encodable(m.position) && String::encodable(m.score_name)
    }

    open spec fn legal(m: PlayDisplayScoreboardSpecModel) -> bool {
        ScoreboardPosition::legal(m.position) && String::legal(m.score_name)
    }

    open spec fn spec_serialize(m: PlayDisplayScoreboardSpecModel) -> Seq<u8> {
        ScoreboardPosition::spec_serialize(m.position) + String::spec_serialize(m.score_name)
    }

    open spec fn spec_deserialize(s: Seq<u8>) -> SpecResult<PlayDisplayScoreboardSpecModel> {
        match ScoreboardPosition::spec_deserialize(s) {
            Err(e) => Err(e),
            Ok((position, r1)) => match String::spec_deserialize(r1) {
                Err(e) => Err(e),
                Ok((score_name, r2)) => Ok((PlayDisplayScoreboardSpecModel { position, score_name }, r2)),
            },
        }
    }

    proof fn lemma_round_trip(m: PlayDisplayScoreboardSpecModel, rest: Seq<u8>) {
        let t1 = String::spec_serialize(m.score_name) + rest;
        let p1 = ScoreboardPosition::spec_serialize(m.position);
        let p2 = p1 + String::spec_serialize(m.score_name);
        assert(Self::spec_serialize(m) == p2);
        lemma_concat_associative(p1, String::spec_serialize(m.score_name), rest);
        ScoreboardPosition::lemma_round_trip(m.position, t1);
        String::lemma_round_trip(m.score_name, rest);
    }

    fn mc_serialize(&self, to: &mut Vec<u8>) {
        let ghost start = to@;
        self.position.mc_serialize(to);
        self.score_name.mc_serialize(to);
        proof {
            lemma_concat_associative(start, ScoreboardPosition::spec_serialize(self.position.model()), String::spec_serialize(self.score_name.model()));
        }
        assert(to@ =~= start + Self::spec_serialize(self.model()));
    }

    fn mc_deserialize(data: &[u8]) -> (r: Result<(Self, &[u8]), DeserializeErr>) {
        let (position, rest) = ScoreboardPosition::mc_deserialize(data)?;
        let (score_name, rest) = String::mc_deserialize(rest)?;
        Ok((PlayDisplayScoreboardSpec { position, score_name }, rest))
    }
}

/// The body of the play entity metadata message, as values.
pub struct PlayEntityMetadataSpecModel {
    pub entity_id: <VarInt as Codec>::Model,
    pub metadata: <EntityMetadata as Codec>::Model,
}

/// The body of the play entity metadata message
#[derive(Debug, Clone, PartialEq, Eq)]
pub struct PlayEntityMetadataSpec {
    pub entity_id: VarInt,
    pub metadata: EntityMetadata,
}

impl Codec for PlayEntityMetadataSpec {
    type Model = PlayEntityMetadataSpecModel;

    open spec fn model(&self) -> PlayEntityMetadataSpecModel {
        PlayEntityMetadataSpecModel { entity_id: self.entity_id.model(), metadata: self.metadata.model() }
    }

    open spec fn encodable(m: PlayEntityMetadataSpecModel) -> bool {
        VarInt::encodable(m.entity_id) && EntityMetadata::encodable(m.metadata)
    }

    open spec fn legal(m: PlayEntityMetadataSpecModel) -> bool {
        VarInt::legal(m.entity_id) && EntityMetadata::legal(m.metadata)
    }

    open spec fn spec_serialize(m: PlayEntityMetadataSpecModel) -> Seq<u8> {
        VarInt::spec_serialize(m.entity_id) + EntityMetadata::spec_serialize(m.metadata)
    }

    open spec fn spec_deserialize(s: Seq<u8>) -> SpecResult<PlayEntityMetadataSpecModel> {
        match VarInt::spec_deserialize(s) {
            Err(e) => Err(e),
            Ok((entity_id, r1)) => match EntityMetadata::spec_deserialize(r1) {
                Err(e) => Err(e),
                Ok((metadata, r2)) => Ok((PlayEntityMetadataSpecModel { entity_id, metadata }, r2)),
            },
        }
    }

    proof fn lemma_round_trip(m: PlayEntityMetadataSpecModel, rest: Seq<u8>) {
        let t1 = EntityMetadata::spec_serialize(m.metadata) + rest;
        let p1 = VarInt::spec_serialize(m.entity_id);
        let p2 = p1 + EntityMetadata::spec_serialize(m.metadata);
        assert(Self::spec_serialize(m) == p2);
        lemma_concat_associative(p1, EntityMetadata::spec_serialize(m.metadata), rest);
        VarInt::lemma_round_trip(m.entity_id, t1);
        EntityMetadata::lemma_round_trip(m.metadata, rest);
    }

    fn mc_serialize(&self, to: &mut Vec<u8>) {
        let ghost start = to@;
        self.entity_id.mc_serialize(to);
        self.metadata.mc_serialize(to);
        proof {
            lemma_concat_associative(start, VarInt::spec_serialize(self.entity_id.model()), EntityMetadata::spec_serialize(self.metadata.model()));
        }
        assert(to@ =~= start + Self::spec_serialize(self.model()));
    }

    fn mc_deserialize(data: &[u8]) -> (r: Result<(Self, &[u8]), DeserializeErr>) {
        let (entity_id, rest) = VarInt::mc_deserialize(data)?;
        let (metadata, rest) = EntityMetadata::mc_deserialize(rest)?;
        Ok((PlayEntityMetadataSpec { entity_id, metadata }, rest))
    }
}

/// The body of the play attach entity message, as values.
pub struct PlayAttachEntitySpecModel {
    pub attached_entity_id: <i32 as Codec>::Model,
    pub holding_entity_id: <i32 as Codec>::Model,
}

/// The body of the play attach entity message
#[derive(Debug, Clone, PartialEq, Eq)]
pub struct PlayAttachEntitySpec {
    pub attached_entity_id: i32,
    pub holding_entity_id: i32,
}

impl Codec for PlayAttachEntitySpec {
    type Model = PlayAttachEntitySpecModel;

    open spec fn model(&self) -> PlayAttachEntitySpecModel {
        PlayAttachEntitySpecModel { attached_entity_id: self.attached_entity_id.model(), holding_entity_id: self.holding_entity_id.model() }
    }

    open spec fn encodable(m: PlayAttachEntitySpecModel) -> bool {
        i32::encodable(m.attached_entity_id) && i32::encodable(m.holding_entity_id)
    }

    open spec fn legal(m: PlayAttachEntitySpecModel) -> bool {
        i32::legal(m.attached_entity_id) && i32::legal(m.holding_entity_id)
    }

    open spec fn spec_serialize(m: PlayAttachEntitySpecModel) -> Seq<u8> {
        i32::spec_serialize(m.attached_entity_id) + i32::spec_serialize(m.holding_entity_id)
    }

    open spec fn spec_deserialize(s: Seq<u8>) -> SpecResult<PlayAttachEntitySpecModel> {
        match i32::spec_deserialize(s) {
            Err(e) => Err(e),
            Ok((attached_entity_id, r1)) => match i32::spec_deserialize(r1) {
                Err(e) => Err(e),
                Ok((holding_entity_id, r2)) => Ok((PlayAttachEntitySpecModel { attached_entity_id, holding_entity_id }, r2)),
            },
        }
    }

    proof fn lemma_round_trip(m: PlayAttachEntitySpecModel, rest: Seq<u8>) {
        let t1 = i32::spec_serialize(m.holding_entity_id) + rest;
        let p1 = i32::spec_serialize(m.attached_entity_id);
        let p2 = p1 + i32::spec_serialize(m.holding_entity_id);
        assert(Self::spec_serialize(m) == p2);
        lemma_concat_associative(p1, i32::spec_serialize(m.holding_entity_id), rest);
        i32::lemma_round_trip(m.attached_entity_id, t1);
        i32::lemma_round_trip(m.holding_entity_id, rest);
    }

    fn mc_serialize(&self, to: &mut Vec<u8>) {
        let ghost start = to@;
        self.attached_entity_id.mc_serialize(to);
        self.holding_entity_id.mc_serialize(to);
        proof {
            lemma_concat_associative(start, i32::spec_serialize(self.attached_entity_id.model()), i32::spec_serialize(self.holding_entity_id.model()));
        }
        assert(to@ =~= start + Self::spec_serialize(self.model()));
    }

    fn mc_deserialize(data: &[u8]) -> (r: Result<(Self, &[u8]), DeserializeErr>) {
        let (attached_entity_id, rest) = i32::mc_deserialize(data)?;
        let (holding_entity_id, rest) = i32::mc_deserialize(rest)?;
        Ok((PlayAttachEntitySpec { attached_entity_id, holding_entity_id }, rest))
    }
}

/// The body of the play entity velocity message, as values.
pub struct PlayEntityVelocitySpecModel {
    pub entity_id: <VarInt as Codec>::Model,
    pub velocity_x: <i16 as Codec>::Model,
    pub velocity_y: <i16 as Codec>::Model,
    pub velocity_z: <i16 as Codec>::Model,
}

/// The body of the play entity velocity message
#[derive(Debug, Clone, PartialEq, Eq)]
pub struct PlayEntityVelocitySpec {
    pub entity_id: VarInt,
    pub velocity_x: i16,
    pub velocity_y: i16,
    pub velocity_z: i16,
}

impl Codec for PlayEntityVelocitySpec {
    type Model = PlayEntityVelocitySpecModel;

    open spec fn model(&self) -> PlayEntityVelocitySpecModel {
        PlayEntityVelocitySpecModel { entity_id: self.entity_id.model(), velocity_x: self.velocity_x.model(), velocity_y: self.velocity_y.model(), velocity_z: self.velocity_z.model() }
    }

    open spec fn encodable(m: PlayEntityVelocitySpecModel) -> bool {
        VarInt::encodable(m.entity_id) && i16::encodable(m.velocity_x) && i16::encodable(m.velocity_y) && i16::encodable(m.velocity_z)
    }

    open spec fn legal(m: PlayEntityVelocitySpecModel) -> bool {
        VarInt::legal(m.entity_id) && i16::legal(m.velocity_x) && i16::legal(m.velocity_y) && i16::legal(m.velocity_z)
    }

    open spec fn spec_serialize(m: PlayEntityVelocitySpecModel) -> Seq<u8> {
        VarInt::spec_serialize(m.entity_id) + i16::spec_serialize(m.velocity_x) + i16::spec_serialize(m.velocity_y) + i16::spec_serialize(m.velocity_z)
    }

    open spec fn spec_deserialize(s: Seq<u8>) -> SpecResult<PlayEntityVelocitySpecModel> {
        match VarInt::spec_deserialize(s) {
            Err(e) => Err(e),
            Ok((entity_id, r1)) => match i16::spec_deserialize(r1) {
                Err(e) => Err(e),
                Ok((velocity_x, r2)) => match i16::spec_deserialize(r2) {
                    Err(e) => Err(e),
                    Ok((velocity_y, r3)) => match i16::spec_deserialize(r3) {
                        Err(e) => Err(e),
                        Ok((velocity_z, r4)) => Ok((PlayEntityVelocitySpecModel { entity_id, velocity_x, velocity_y, velocity_z }, r4)),
                    },
                },
            },
        }
    }

    #[verifier::rlimit(100)]
    #[verifier::spinoff_prover]
    proof fn lemma_round_trip(m: PlayEntityVelocitySpecModel, rest: Seq<u8>) {
        let t3 = i16::spec_serialize(m.velocity_z) + rest;
        let t2 = i16::spec_serialize(m.velocity_y) + t3;
        let t1 = i16::spec_serialize(m.velocity_x) + t2;
        let p1 = VarInt::spec_serialize(m.entity_id);
        let p2 = p1 + i16::spec_serialize(m.velocity_x);
        let p3 = p2 + i16::spec_serialize(m.velocity_y);
        let p4 = p3 + i16::spec_serialize(m.velocity_z);
        assert(Self::spec_serialize(m) == p4);
        lemma_concat_associative(p3, i16::spec_serialize(m.velocity_z), rest);
        lemma_concat_associative(p2, i16::spec_serialize(m.velocity_y), t3);
        lemma_concat_associative(p1, i16::spec_serialize(m.velocity_x), t2);
        VarInt::lemma_round_trip(m.entity_id, t1);
        assert(VarInt::spec_deserialize(Self::spec_serialize(m) + rest) == Ok::<(<VarInt as Codec>::Model, Seq<u8>), DeserializeErr>((m.entity_id, t1)));
        i16::lemma_round_trip(m.velocity_x, t2);
        assert(i16::spec_deserialize(t1) == Ok::<(<i16 as Codec>::Model, Seq<u8>), DeserializeErr>((m.velocity_x, t2)));
        i16::lemma_round_trip(m.velocity_y, t3);
        assert(i16::spec_deserialize(t2) == Ok::<(<i16 as Codec>::Model, Seq<u8>), DeserializeErr>((m.velocity_y, t3)));
        i16::lemma_round_trip(m.velocity_z, rest);
        assert(i16::spec_deserialize(t3) == Ok::<(<i16 as Codec>::Model, Seq<u8>), DeserializeErr>((m.velocity_z, rest)));
    }

    fn mc_serialize(&self, to: &mut Vec<u8>) {
        let ghost start = to@;
        self.entity_id.mc_serialize(to);
        self.velocity_x.mc_serialize(to);
        proof {
            lemma_concat_associative(start, VarInt::spec_serialize(self.entity_id.model()), i16::spec_serialize(self.velocity_x.model()));
        }
        self.velocity_y.mc_serialize(to);
        proof {
            lemma_concat_associative(start, VarInt::spec_serialize(self.entity_id.model()) + i16::spec_serialize(self.velocity_x.model()), i16::spec_serialize(self.velocity_y.model()));
        }
        self.velocity_z.mc_serialize(to);
        proof {
            lemma_concat_associative(start, VarInt::spec_serialize(self.entity_id.model()) + i16::spec_serialize(self.velocity_x.model()) + i16::spec_serialize(self.velocity_y.model()), i16::spec_serialize(self.velocity_z.model()));
        }
        assert(to@ =~= start + Self::spec_serialize(self.model()));
    }

    fn mc_deserialize(data: &[u8]) -> (r: Result<(Self, &[u8]), DeserializeErr>) {
        let (entity_id, rest) = VarInt::mc_deserialize(data)?;
        let (velocity_x, rest) = i16::mc_deserialize(rest)?;
        let (velocity_y, rest) = i16::mc_deserialize(rest)?;
        let (velocity_z, rest) = i16::mc_deserialize(rest)?;
        Ok((PlayEntityVelocitySpec { entity_id, velocity_x, velocity_y, velocity_z }, rest))
    }
}

/// The body of the play entity equipment message, as values.
pub struct PlayEntityEquiptmentSpecModel {
    pub entity_id: <VarInt as Codec>::Model,
    pub slot: <EquipmentSlot as Codec>::Model,
    pub item: <Option<Slot> as Codec>::Model,
}

/// The body of the play entity equipment message
#[derive(Debug, Clone, PartialEq, Eq)]
pub struct PlayEntityEquiptmentSpec {
    pub entity_id: VarInt,
    pub slot: EquipmentSlot,
    pub item: Option<Slot>,
}

impl Codec for PlayEntityEquiptmentSpec {
    type Model = PlayEntityEquiptmentSpecModel;

    open spec fn model(&self) -> PlayEntityEquiptmentSpecModel {
        PlayEntityEquiptmentSpecModel { entity_id: self.entity_id.model(), slot: self.slot.model(), item: self.item.model() }
    }

    open spec fn encodable(m: PlayEntityEquiptmentSpecModel) -> bool {
        VarInt::encodable(m.entity_id) && EquipmentSlot::encodable(m.slot) && Option::<Slot>::encodable(m.item)
    }

    open spec fn legal(m: PlayEntityEquiptmentSpecModel) -> bool {
        VarInt::legal(m.entity_id) && EquipmentSlot::legal(m.slot) && Option::<Slot>::legal(m.item)
    }

    open spec fn spec_serialize(m: PlayEntityEquiptmentSpecModel) -> Seq<u8> {
        VarInt::spec_serialize(m.entity_id) + EquipmentSlot::spec_serialize(m.slot) + Option::<Slot>::spec_serialize(m.item)
    }

    open spec fn spec_deserialize(s: Seq<u8>) -> SpecResult<PlayEntityEquiptmentSpecModel> {
        match VarInt::spec_deserialize(s) {
            Err(e) => Err(e),
            Ok((entity_id, r1)) => match EquipmentSlot::spec_deserialize(r1) {
                Err(e) => Err(e),
                Ok((slot, r2)) => match Option::<Slot>::spec_deserialize(r2) {
                    Err(e) => Err(e),
                    Ok((item, r3)) => Ok((PlayEntityEquiptmentSpecModel { entity_id, slot, item }, r3)),
                },
            },
        }
    }

    proof fn lemma_round_trip(m: PlayEntityEquiptmentSpecModel, rest: Seq<u8>) {
        let t2 = Option::<Slot>::spec_serialize(m.item) + rest;
        let t1 = EquipmentSlot::spec_serialize(m.slot) + t2;
        let p1 = VarInt::spec_serialize(m.entity_id);
        let p2 = p1 + EquipmentSlot::spec_serialize(m.slot);
        let p3 = p2 + Option::<Slot>::spec_serialize(m.item);
        assert(Self::spec_serialize(m) == p3);
        lemma_concat_associative(p2, Option::<Slot>::spec_serialize(m.item), rest);
        lemma_concat_associative(p1, EquipmentSlot::spec_serialize(m.slot), t2);
        VarInt::lemma_round_trip(m.entity_id, t1);
        EquipmentSlot::lemma_round_trip(m.slot, t2);
        Option::<Slot>::lemma_round_trip(m.item, rest);
    }

    fn mc_serialize(&self, to: &mut Vec<u8>) {
        let ghost start = to@;
        self.entity_id.mc_serialize(to);
        self.slot.mc_serialize(to);
        proof {
            lemma_concat_associative(start, VarInt::spec_serialize(self.entity_id.model()), EquipmentSlot::spec_serialize(self.slot.model()));
        }
        self.item.mc_serialize(to);
        proof {
            lemma_concat_associative(start, VarInt::spec_serialize(self.entity_id.model()) + EquipmentSlot::spec_serialize(self.slot.model()), Option::<Slot>::spec_serialize(self.item.model()));
        }
        assert(to@ =~= start + Self::spec_serialize(self.model()));
    }

    fn mc_deserialize(data: &[u8]) -> (r: Result<(Self, &[u8]), DeserializeErr>) {
        let (entity_id, rest) = VarInt::mc_deserialize(data)?;
        let (slot, rest) = EquipmentSlot::mc_deserialize(rest)?;
        let (item, rest) = Option::<Slot>::mc_deserialize(rest)?;
        Ok((PlayEntityEquiptmentSpec { entity_id, slot, item }, rest))
    }
}

/// The body of the play set experience message, as values.
pub struct PlaySetExperienceSpecModel {
    pub experience_bar: <Float32 as Codec>::Model,
    pub level: <VarInt as Codec>::Model,
    pub total_experience: <VarInt as Codec>::Model,
}

/// The body of the play set experience message
#[derive(Debug, Clone, PartialEq, Eq)]
pub struct PlaySetExperienceSpec {
    pub experience_bar: Float32,
    pub level: VarInt,
    pub total_experience: VarInt,
}

impl Codec for PlaySetExperienceSpec {
    type Model = PlaySetExperienceSpecModel;

    open spec fn model(&self) -> PlaySetExperienceSpecModel {
        PlaySetExperienceSpecModel { experience_bar: self.experience_bar.model(), level: self.level.model(), total_experience: self.total_experience.model() }
    }

    open spec fn encodable(m: PlaySetExperienceSpecModel) -> bool {
        Float32::encodable(m.experience_bar) && VarInt::encodable(m.level) && VarInt::encodable(m.total_experience)
    }

    open spec fn legal(m: PlaySetExperienceSpecModel) -> bool {
        Float32::legal(m.experience_bar) && VarInt::legal(m.level) && VarInt::legal(m.total_experience)
    }

    open spec fn spec_serialize(m: PlaySetExperienceSpecModel) -> Seq<u8> {
        Float32::spec_serialize(m.experience_bar) + VarInt::spec_serialize(m.level) + VarInt::spec_serialize(m.total_experience)
    }

    open spec fn spec_deserialize(s: Seq<u8>) -> SpecResult<PlaySetExperienceSpecModel> {
        match Float32::spec_deserialize(s) {
            Err(e) => Err(e),
            Ok((experience_bar, r1)) => match VarInt::spec_deserialize(r1) {
                Err(e) => Err(e),
                Ok((level, r2)) => match VarInt::spec_deserialize(r2) {
                    Err(e) => Err(e),
                    Ok((total_experience, r3)) => Ok((PlaySetExperienceSpecModel { experience_bar, level, total_experience }, r3)),
                },
            },
        }
    }

    proof fn lemma_round_trip(m: PlaySetExperienceSpecModel, rest: Seq<u8>) {
        let t2 = VarInt::spec_serialize(m.total_experience) + rest;
        let t1 = VarInt::spec_serialize(m.level) + t2;
        let p1 = Float32::spec_serialize(m.experience_bar);
        let p2 = p1 + VarInt::spec_serialize(m.level);
        let p3 = p2 + VarInt::spec_serialize(m.total_experience);
        assert(Self::spec_serialize(m) == p3);
        lemma_concat_associative(p2, VarInt::spec_serialize(m.total_experience), rest);
        lemma_concat_associative(p1, VarInt::spec_serialize(m.level), t2);
        Float32::lemma_round_trip(m.experience_bar, t1);
        VarInt::lemma_round_trip(m.level, t2);
        VarInt::lemma_round_trip(m.total_experience, rest);
    }

    fn mc_serialize(&self, to: &mut Vec<u8>) {
        let ghost start = to@;
        self.experience_bar.mc_serialize(to);
        self.level.mc_serialize(to);
        proof {
            lemma_concat_associative(start, Float32::spec_serialize(self.experience_bar.model()), VarInt::spec_serialize(self.level.model()));
        }
        self.total_experience.mc_serialize(to);
        proof {
            lemma_concat_associative(start, Float32::spec_serialize(self.experience_bar.model()) + VarInt::spec_serialize(self.level.model()), VarInt::spec_serialize(self.total_experience.model()));
        }
        assert(to@ =~= start + Self::spec_serialize(self.model()));
    }

    fn mc_deserialize(data: &[u8]) -> (r: Result<(Self, &[u8]), DeserializeErr>) {
        let (experience_bar, rest) = Float32::mc_deserialize(data)?;
        let (level, rest) = VarInt::mc_deserialize(rest)?;
        let (total_experience, rest) = VarInt::mc_deserialize(rest)?;
        Ok((PlaySetExperienceSpec { experience_bar, level, total_experience }, rest))
    }
}

/// The body of the play updatehealth message, as values.
pub struct PlayUpdateHealthSpecModel {
    pub health: <Float32 as Codec>::Model,
    pub food: <VarInt as Codec>::Model,
    pub saturation: <Float32 as Codec>::Model,
}

/// The body of the play updatehealth message
#[derive(Debug, Clone, PartialEq, Eq)]
pub struct PlayUpdateHealthSpec {
    pub health: Float32,
    pub food: VarInt,
    pub saturation: Float32,
}

impl Codec for PlayUpdateHealthSpec {
    type Model = PlayUpdateHealthSpecModel;

    open spec fn model(&self) -> PlayUpdateHealthSpecModel {
        PlayUpdateHealthSpecModel { health: self.health.model(), food: self.food.model(), saturation: self.saturation.model() }
    }

    open spec fn encodable(m: PlayUpdateHealthSpecModel) -> bool {
        Float32::encodable(m.health) && VarInt::encodable(m.food) && Float32::encodable(m.saturation)
    }

    open spec fn legal(m: PlayUpdateHealthSpecModel) -> bool {
        Float32::legal(m.health) && VarInt::legal(m.food) && Float32::legal(m.saturation)
    }

    open spec fn spec_serialize(m: PlayUpdateHealthSpecModel) -> Seq<u8> {
        Float32::spec_serialize(m.health) + VarInt::spec_serialize(m.food) + Float32::spec_serialize(m.saturation)
    }

    open spec fn spec_deserialize(s: Seq<u8>) -> SpecResult<PlayUpdateHealthSpecModel> {
        match Float32::spec_deserialize(s) {
            Err(e) => Err(e),
            Ok((health, r1)) => match VarInt::spec_deserialize(r1) {
                Err(e) => Err(e),
                Ok((food, r2)) => match Float32::spec_deserialize(r2) {
                    Err(e) => Err(e),
                    Ok((saturation, r3)) => Ok((PlayUpdateHealthSpecModel { health, food, saturation }, r3)),
                },
            },
        }
    }

    proof fn lemma_round_trip(m: PlayUpdateHealthSpecModel, rest: Seq<u8>) {
        let t2 = Float32::spec_serialize(m.saturation) + rest;
        let t1 = VarInt::spec_serialize(m.food) + t2;
        let p1 = Float32::spec_serialize(m.health);
        let p2 = p1 + VarInt::spec_serialize(m.food);
        let p3 = p2 + Float32::spec_serialize(m.saturation);
        assert(Self::spec_serialize(m) == p3);
        lemma_concat_associative(p2, Float32::spec_serialize(m.saturation), rest);
        lemma_concat_associative(p1, VarInt::spec_serialize(m.food), t2);
        Float32::lemma_round_trip(m.health, t1);
        VarInt::lemma_round_trip(m.food, t2);
        Float32::lemma_round_trip(m.saturation, rest);
    }

    fn mc_serialize(&self, to: &mut Vec<u8>) {
        let ghost start = to@;
        self.health.mc_serialize(to);
        self.food.mc_serialize(to);
        proof {
            lemma_concat_associative(start, Float32::spec_serialize(self.health.model()), VarInt::spec_serialize(self.food.model()));
        }
        self.saturation.mc_serialize(to);
        proof {
            lemma_concat_associative(start, Float32::spec_serialize(self.health.model()) + VarInt::spec_serialize(self.food.model()), Float32::spec_serialize(self.saturation.model()));
        }
        assert(to@ =~= start + Self::spec_serialize(self.model()));
    }

    fn mc_deserialize(data: &[u8]) -> (r: Result<(Self, &[u8]), DeserializeErr>) {
        let (health, rest) = Float32::mc_deserialize(data)?;
        let (food, rest) = VarInt::mc_deserialize(rest)?;
        let (saturation, rest) = Float32::mc_deserialize(rest)?;
        Ok((PlayUpdateHealthSpec { health, food, saturation }, rest))
    }
}

/// The body of the play scoreboard objective message, as values.
pub struct PlayScoreboardObjectiveSpecModel {
    pub objective_name: <String as Codec>::Model,
    pub action: <ScoreboardObjectiveAction as Codec>::Model,
}

/// The body of the play scoreboard objective message
#[derive(Debug, Clone, PartialEq, Eq)]
pub struct PlayScoreboardObjectiveSpec {
    pub objective_name: String,
    pub action: ScoreboardObjectiveAction,
}

impl Codec for PlayScoreboardObjectiveSpec {
    type Model = PlayScoreboardObjectiveSpecModel;

    open spec fn model(&self) -> PlayScoreboardObjectiveSpecModel {
        PlayScoreboardObjectiveSpecModel { objective_name: self.objective_name.model(), action: self.action.model() }
    }

    open spec fn encodable(m: PlayScoreboardObjectiveSpecModel) -> bool {
        String::encodable(m.objective_name) && ScoreboardObjectiveAction::encodable(m.action)
    }

    open spec fn legal(m: PlayScoreboardObjectiveSpecModel) -> bool {
        String::legal(m.objective_name) && ScoreboardObjectiveAction::legal(m.action)
    }

    open spec fn spec_serialize(m: PlayScoreboardObjectiveSpecModel) -> Seq<u8> {
        String::spec_serialize(m.objective_name) + ScoreboardObjectiveAction::spec_serialize(m.action)
    }

    open spec fn spec_deserialize(s: Seq<u8>) -> SpecResult<PlayScoreboardObjectiveSpecModel> {
        match String::spec_deserialize(s) {
            Err(e) => Err(e),
            Ok((objective_name, r1)) => match ScoreboardObjectiveAction::spec_deserialize(r1) {
                Err(e) => Err(e),
                Ok((action, r2)) => Ok((PlayScoreboardObjectiveSpecModel { objective_name, action }, r2)),
            },
        }
    }

    proof fn lemma_round_trip(m: PlayScoreboardObjectiveSpecModel, rest: Seq<u8>) {
        let t1 = ScoreboardObjectiveAction::spec_serialize(m.action) + rest;
        let p1 = String::spec_serialize(m.objective_name);
        let p2 = p1 + ScoreboardObjectiveAction::spec_serialize(m.action);
        assert(Self::spec_serialize(m) == p2);
        lemma_concat_associative(p1, ScoreboardObjectiveAction::spec_serialize(m.action), rest);
        String::lemma_round_trip(m.objective_name, t1);
        ScoreboardObjectiveAction::lemma_round_trip(m.action, rest);
    }

    fn mc_serialize(&self, to: &mut Vec<u8>) {
        let ghost start = to@;
        self.objective_name.mc_serialize(to);
        self.action.mc_serialize(to);
        proof {
            lemma_concat_associative(start, String::spec_serialize(self.objective_name.model()), ScoreboardObjectiveAction::spec_serialize(self.action.model()));
        }
        assert(to@ =~= start + Self::spec_serialize(self.model()));
    }

    fn mc_deserialize(data: &[u8]) -> (r: Result<(Self, &[u8]), DeserializeErr>) {
        let (objective_name, rest) = String::mc_deserialize(data)?;
        let (action, rest) = ScoreboardObjectiveAction::mc_deserialize(rest)?;
        Ok((PlayScoreboardObjectiveSpec { objective_name, action }, rest))
    }
}

/// The body of the play set passengers message, as values.
pub struct PlaySetPassengersSpecModel {
    pub entity_id: <VarInt as Codec>::Model,
    pub passenger_entitiy_ids: <VarIntCountedArray<VarInt> as Codec>::Model,
}

/// The body of the play set passengers message
#[derive(Debug, Clone, PartialEq, Eq)]
pub struct PlaySetPassengersSpec {
    pub entity_id: VarInt,
    pub passenger_entitiy_ids: VarIntCountedArray<VarInt>,
}

impl Codec for PlaySetPassengersSpec {
    type Model = PlaySetPassengersSpecModel;

    open spec fn model(&self) -> PlaySetPassengersSpecModel {
        PlaySetPassengersSpecModel { entity_id: self.entity_id.model(), passenger_entitiy_ids: self.passenger_entitiy_ids.model() }
    }

    open spec fn encodable(m: PlaySetPassengersSpecModel) -> bool {
        VarInt::encodable(m.entity_id) && VarIntCountedArray::<VarInt>::encodable(m.passenger_entitiy_ids)
    }

    open spec fn legal(m: PlaySetPassengersSpecModel) -> bool {
        VarInt::legal(m.entity_id) && VarIntCountedArray::<VarInt>::legal(m.passenger_entitiy_ids)
    }

    open spec fn spec_serialize(m: PlaySetPassengersSpecModel) -> Seq<u8> {
        VarInt::spec_serialize(m.entity_id) + VarIntCountedArray::<VarInt>::spec_serialize(m.passenger_entitiy_ids)
    }

    open spec fn spec_deserialize(s: Seq<u8>) -> SpecResult<PlaySetPassengersSpecModel> {
        match VarInt::spec_deserialize(s) {
            Err(e) => Err(e),
            Ok((entity_id, r1)) => match VarIntCountedArray::<VarInt>::spec_deserialize(r1) {
                Err(e) => Err(e),
                Ok((passenger_entitiy_ids, r2)) => Ok((PlaySetPassengersSpecModel { entity_id, passenger_entitiy_ids }, r2)),
            },
        }
    }

    proof fn lemma_round_trip(m: PlaySetPassengersSpecModel, rest: Seq<u8>) {
        let t1 = VarIntCountedArray::<VarInt>::spec_serialize(m.passenger_entitiy_ids) + rest;
        let p1 = VarInt::spec_serialize(m.entity_id);
        let p2 = p1 + VarIntCountedArray::<VarInt>::spec_serialize(m.passenger_entitiy_ids);
        assert(Self::spec_serialize(m) == p2);
        lemma_concat_associative(p1, VarIntCountedArray::<VarInt>::spec_serialize(m.passenger_entitiy_ids), rest);
        VarInt::lemma_round_trip(m.entity_id, t1);
        VarIntCountedArray::<VarInt>::lemma_round_trip(m.passenger_entitiy_ids, rest);
    }

    fn mc_serialize(&self, to: &mut Vec<u8>) {
        let ghost start = to@;
        self.entity_id.mc_serialize(to);
        self.passenger_entitiy_ids.mc_serialize(to);
        proof {
            lemma_concat_associative(start, VarInt::spec_serialize(self.entity_id.model()), VarIntCountedArray::<VarInt>::spec_serialize(self.passenger_entitiy_ids.model()));
        }
        assert(to@ =~= start + Self::spec_serialize(self.model()));
    }

    fn mc_deserialize(data: &[u8]) -> (r: Result<(Self, &[u8]), DeserializeErr>) {
        let (entity_id, rest) = VarInt::mc_deserialize(data)?;
        let (passenger_entitiy_ids, rest) = VarIntCountedArray::<VarInt>::mc_deserialize(rest)?;
        Ok((PlaySetPassengersSpec { entity_id, passenger_entitiy_ids }, rest))
    }
}

/// The body of the play teams message, as values.
pub struct PlayTeamsSpecModel {
    pub team_name: <String as Codec>::Model,
    pub action: <TeamAction as Codec>::Model,
}

/// The body of the play teams message
#[derive(Debug, Clone, PartialEq, Eq)]
pub struct PlayTeamsSpec {
    pub team_name: String,
    pub action: TeamAction,
}

impl Codec for PlayTeamsSpec {
    type Model = PlayTeamsSpecModel;

    open spec fn model(&self) -> PlayTeamsSpecModel {
        PlayTeamsSpecModel { team_name: self.team_name.model(), action: self.action.model() }
    }

    open spec fn encodable(m: PlayTeamsSpecModel) -> bool {
        String::encodable(m.team_name) && TeamAction::encodable(m.action)
    }

    open spec fn legal(m: PlayTeamsSpecModel) -> bool {
        String::legal(m.team_name) && TeamAction::legal(m.action)
    }

    open spec fn spec_serialize(m: PlayTeamsSpecModel) -> Seq<u8> {
        String::spec_serialize(m.team_name) + TeamAction::spec_serialize(m.action)
    }

    open spec fn spec_deserialize(s: Seq<u8>) -> SpecResult<PlayTeamsSpecModel> {
        match String::spec_deserialize(s) {
            Err(e) => Err(e),
            Ok((team_name, r1)) => match TeamAction::spec_deserialize(r1) {
                Err(e) => Err(e),
                Ok((action, r2)) => Ok((PlayTeamsSpecModel { team_name, action }, r2)),
            },
        }
    }

    proof fn lemma_round_trip(m: PlayTeamsSpecModel, rest: Seq<u8>) {
        let t1 = TeamAction::spec_serialize(m.action) + rest;
        let p1 = String::spec_serialize(m.team_name);
        let p2 = p1 + TeamAction::spec_serialize(m.action);
        assert(Self::spec_serialize(m) == p2);
        lemma_concat_associative(p1, TeamAction::spec_serialize(m.action), rest);
        String::lemma_round_trip(m.team_name, t1);
        TeamAction::lemma_round_trip(m.action, rest);
    }

    fn mc_serialize(&self, to: &mut Vec<u8>) {
        let ghost start = to@;
        self.team_name.mc_serialize(to);
        self.action.mc_serialize(to);
        proof {
            lemma_concat_associative(start, String::spec_serialize(self.team_name.model()), TeamAction::spec_serialize(self.action.model()));
        }
        assert(to@ =~= start + Self::spec_serialize(self.model()));
    }

    fn mc_deserialize(data: &[u8]) -> (r: Result<(Self, &[u8]), DeserializeErr>) {
        let (team_name, rest) = String::mc_deserialize(data)?;
        let (action, rest) = TeamAction::mc_deserialize(rest)?;
        Ok((PlayTeamsSpec { team_name, action }, rest))
    }
}

/// The body of the play update score message, as values.
pub struct PlayUpdateScoreSpecModel {
    pub entity_name: <TeamMember as Codec>::Model,
    pub update: <UpdateScoreSpec as Codec>::Model,
}

/// The body of the play update score message
#[derive(Debug, Clone, PartialEq, Eq)]
pub struct PlayUpdateScoreSpec {
    pub entity_name: TeamMember,
    pub update: UpdateScoreSpec,
}

impl Codec for PlayUpdateScoreSpec {
    type Model = PlayUpdateScoreSpecModel;

    open spec fn model(&self) -> PlayUpdateScoreSpecModel {
        PlayUpdateScoreSpecModel { entity_name: self.entity_name.model(), update: self.update.model() }
    }

    open spec fn encodable(m: PlayUpdateScoreSpecModel) -> bool {
        TeamMember::encodable(m.entity_name) && UpdateScoreSpec::encodable(m.update)
    }

    open spec fn legal(m: PlayUpdateScoreSpecModel) -> bool {
        TeamMember::legal(m.entity_name) && UpdateScoreSpec::legal(m.update)
    }

    open spec fn spec_serialize(m: PlayUpdateScoreSpecModel) -> Seq<u8> {
        TeamMember::spec_serialize(m.entity_name) + UpdateScoreSpec::spec_serialize(m.update)
    }

    open spec fn spec_deserialize(s: Seq<u8>) -> SpecResult<PlayUpdateScoreSpecModel> {
        match TeamMember::spec_deserialize(s) {
            Err(e) => Err(e),
            Ok((entity_name, r1)) => match UpdateScoreSpec::spec_deserialize(r1) {
                Err(e) => Err(e),
                Ok((update, r2)) => Ok((PlayUpdateScoreSpecModel { entity_name, update }, r2)),
            },
        }
    }

    proof fn lemma_round_trip(m: PlayUpdateScoreSpecModel, rest: Seq<u8>) {
        let t1 = UpdateScoreSpec::spec_serialize(m.update) + rest;
        let p1 = TeamMember::spec_serialize(m.entity_name);
        let p2 = p1 + UpdateScoreSpec::spec_serialize(m.update);
        assert(Self::spec_serialize(m) == p2);
        lemma_concat_associative(p1, UpdateScoreSpec::spec_serialize(m.update), rest);
        TeamMember::lemma_round_trip(m.entity_name, t1);
        UpdateScoreSpec::lemma_round_trip(m.update, rest);
    }

    fn mc_serialize(&self, to: &mut Vec<u8>) {
        let ghost start = to@;
        self.entity_name.mc_serialize(to);
        self.update.mc_serialize(to);
        proof {
            lemma_concat_associative(start, TeamMember::spec_serialize(self.entity_name.model()), UpdateScoreSpec::spec_serialize(self.update.model()));
        }
        assert(to@ =~= start + Self::spec_serialize(self.model()));
    }

    fn mc_deserialize(data: &[u8]) -> (r: Result<(Self, &[u8]), DeserializeErr>) {
        let (entity_name, rest) = TeamMember::mc_deserialize(data)?;
        let (update, rest) = UpdateScoreSpec::mc_deserialize(rest)?;
        Ok((PlayUpdateScoreSpec { entity_name, update }, rest))
    }
}

/// The body of the play spawn position message, as values.
pub struct PlaySpawnPositionSpecModel {
    pub location: <IntPosition as Codec>::Model,
}

/// The body of the play spawn position message
#[derive(Debug, Clone, PartialEq, Eq)]
pub struct PlaySpawnPositionSpec {
    pub location: IntPosition,
}

impl Codec for PlaySpawnPositionSpec {
    type Model = PlaySpawnPositionSpecModel;

    open spec fn model(&self) -> PlaySpawnPositionSpecModel {
        PlaySpawnPositionSpecModel { location: self.location.model() }
    }

    open spec fn encodable(m: PlaySpawnPositionSpecModel) -> bool {
        IntPosition::encodable(m.location)
    }

    open spec fn legal(m: PlaySpawnPositionSpecModel) -> bool {
        IntPosition::legal(m.location)
    }

    open spec fn spec_serialize(m: PlaySpawnPositionSpecModel) -> Seq<u8> {
        IntPosition::spec_serialize(m.location)
    }

    open spec fn spec_deserialize(s: Seq<u8>) -> SpecResult<PlaySpawnPositionSpecModel> {
        match IntPosition::spec_deserialize(s) {
            Err(e) => Err(e),
            Ok((location, r1)) => Ok((PlaySpawnPositionSpecModel { location }, r1)),
        }
    }

    proof fn lemma_round_trip(m: PlaySpawnPositionSpecModel, rest: Seq<u8>) {
        IntPosition::lemma_round_trip(m.location, rest);
    }

    fn mc_serialize(&self, to: &mut Vec<u8>) {
        let ghost start = to@;
        self.location.mc_serialize(to);
        assert(to@ =~= start + Self::spec_serialize(self.model()));
    }

    fn mc_deserialize(data: &[u8]) -> (r: Result<(Self, &[u8]), DeserializeErr>) {
        let (location, rest) = IntPosition::mc_deserialize(data)?;
        Ok((PlaySpawnPositionSpec { location }, rest))
    }
}

/// The body of the play time update message, as values.
pub struct PlayTimeUpdateSpecModel {
    pub world_age: <i64 as Codec>::Model,
    pub time_of_day: <i64 as Codec>::Model,
}

/// The body of the play time update message
#[derive(Debug, Clone, PartialEq, Eq)]
pub struct PlayTimeUpdateSpec {
    pub world_age: i64,
    pub time_of_day: i64,
}

impl Codec for PlayTimeUpdateSpec {
    type Model = PlayTimeUpdateSpecModel;

    open spec fn model(&self) -> PlayTimeUpdateSpecModel {
        PlayTimeUpdateSpecModel { world_age: self.world_age.model(), time_of_day: self.time_of_day.model() }
    }

    open spec fn encodable(m: PlayTimeUpdateSpecModel) -> bool {
        i64::encodable(m.world_age) && i64::encodable(m.time_of_day)
    }

    open spec fn legal(m: PlayTimeUpdateSpecModel) -> bool {
        i64::legal(m.world_age) && i64::legal(m.time_of_day)
    }

    open spec fn spec_serialize(m: PlayTimeUpdateSpecModel) -> Seq<u8> {
        i64::spec_serialize(m.world_age) + i64::spec_serialize(m.time_of_day)
    }

    open spec fn spec_deserialize(s: Seq<u8>) -> SpecResult<PlayTimeUpdateSpecModel> {
        match i64::spec_deserialize(s) {
            Err(e) => Err(e),
            Ok((world_age, r1)) => match i64::spec_deserialize(r1) {
                Err(e) => Err(e),
                Ok((time_of_day, r2)) => Ok((PlayTimeUpdateSpecModel { world_age, time_of_day }, r2)),
            },
        }
    }

    proof fn lemma_round_trip(m: PlayTimeUpdateSpecModel, rest: Seq<u8>) {
        let t1 = i64::spec_serialize(m.time_of_day) + rest;
        let p1 = i64::spec_serialize(m.world_age);
        let p2 = p1 + i64::spec_serialize(m.time_of_day);
        assert(Self::spec_serialize(m) == p2);
        lemma_concat_associative(p1, i64::spec_serialize(m.time_of_day), rest);
        i64::lemma_round_trip(m.world_age, t1);
        i64::lemma_round_trip(m.time_of_day, rest);
    }

    fn mc_serialize(&self, to: &mut Vec<u8>) {
        let ghost start = to@;
        self.world_age.mc_serialize(to);
        self.time_of_day.mc_serialize(to);
        proof {
            lemma_concat_associative(start, i64::spec_serialize(self.world_age.model()), i64::spec_serialize(self.time_of_day.model()));
        }
        assert(to@ =~= start + Self::spec_serialize(self.model()));
    }

    fn mc_deserialize(data: &[u8]) -> (r: Result<(Self, &[u8]), DeserializeErr>) {
        let (world_age, rest) = i64::mc_deserialize(data)?;
        let (time_of_day, rest) = i64::mc_deserialize(rest)?;
        Ok((PlayTimeUpdateSpec { world_age, time_of_day }, rest))
    }
}

/// The body of the play title message, as values.
pub struct PlayTitleSpecModel {
    pub action: <TitleActionSpec as Codec>::Model,
}

/// The body of the play title message
#[derive(Debug, Clone, PartialEq, Eq)]
pub struct PlayTitleSpec {
    pub action: TitleActionSpec,
}

impl Codec for PlayTitleSpec {
    type Model = PlayTitleSpecModel;

    open spec fn model(&self) -> PlayTitleSpecModel {
        PlayTitleSpecModel { action: self.action.model() }
    }

    open spec fn encodable(m: PlayTitleSpecModel) -> bool {
        TitleActionSpec::encodable(m.action)
    }

    open spec fn legal(m: PlayTitleSpecModel) -> bool {
        TitleActionSpec::legal(m.action)
    }

    open spec fn spec_serialize(m: PlayTitleSpecModel) -> Seq<u8> {
        TitleActionSpec::spec_serialize(m.action)
    }

    open spec fn spec_deserialize(s: Seq<u8>) -> SpecResult<PlayTitleSpecModel> {
        match TitleActionSpec::spec_deserialize(s) {
            Err(e) => Err(e),
            Ok((action, r1)) => Ok((PlayTitleSpecModel { action }, r1)),
        }
    }

    proof fn lemma_round_trip(m: PlayTitleSpecModel, rest: Seq<u8>) {
        TitleActionSpec::lemma_round_trip(m.action, rest);
    }

    fn mc_serialize(&self, to: &mut Vec<u8>) {
        let ghost start = to@;
        self.action.mc_serialize(to);
        assert(to@ =~= start + Self::spec_serialize(self.model()));
    }

    fn mc_deserialize(data: &[u8]) -> (r: Result<(Self, &[u8]), DeserializeErr>) {
        let (action, rest) = TitleActionSpec::mc_deserialize(data)?;
        Ok((PlayTitleSpec { action }, rest))
    }
}

/// The body of the play entity sound effect message, as values.
pub struct PlayEntitySoundEffectSpecModel {
    pub sound_id: <VarInt as Codec>::Model,
    pub sound_category: <SoundCategory as Codec>::Model,
    pub entity_id: <VarInt as Codec>::Model,
    pub volume: <Float32 as Codec>::Model,
    pub pitch: <Float32 as Codec>::Model,
}

/// The body of the play entity sound effect message
#[derive(Debug, Clone, PartialEq, Eq)]
pub struct PlayEntitySoundEffectSpec {
    pub sound_id: VarInt,
    pub sound_category: SoundCategory,
    pub entity_id: VarInt,
    pub volume: Float32,
    pub pitch: Float32,
}

impl Codec for PlayEntitySoundEffectSpec {
    type Model = PlayEntitySoundEffectSpecModel;

    open spec fn model(&self) -> PlayEntitySoundEffectSpecModel {
        PlayEntitySoundEffectSpecModel { sound_id: self.sound_id.model(), sound_category: self.sound_category.model(), entity_id: self.entity_id.model(), volume: self.volume.model(), pitch: self.pitch.model() }
    }

    open spec fn encodable(m: PlayEntitySoundEffectSpecModel) -> bool {
        VarInt::encodable(m.sound_id) && SoundCategory::encodable(m.sound_category) && VarInt::encodable(m.entity_id) && Float32::encodable(m.volume) && Float32::encodable(m.pitch)
    }

    open spec fn legal(m: PlayEntitySoundEffectSpecModel) -> bool {
        VarInt::legal(m.sound_id) && SoundCategory::legal(m.sound_category) && VarInt::legal(m.entity_id) && Float32::legal(m.volume) && Float32::legal(m.pitch)
    }

    open spec fn spec_serialize(m: PlayEntitySoundEffectSpecModel) -> Seq<u8> {
        VarInt::spec_serialize(m.sound_id) + SoundCategory::spec_serialize(m.sound_category) + VarInt::spec_serialize(m.entity_id) + Float32::spec_serialize(m.volume) + Float32::spec_serialize(m.pitch)
    }

    open spec fn spec_deserialize(s: Seq<u8>) -> SpecResult<PlayEntitySoundEffectSpecModel> {
        match VarInt::spec_deserialize(s) {
            Err(e) => Err(e),
            Ok((sound_id, r1)) => match SoundCategory::spec_deserialize(r1) {
                Err(e) => Err(e),
                Ok((sound_category, r2)) => match VarInt::spec_deserialize(r2) {
                    Err(e) => Err(e),
                    Ok((entity_id, r3)) => match Float32::spec_deserialize(r3) {
                        Err(e) => Err(e),
                        Ok((volume, r4)) => match Float32::spec_deserialize(r4) {
                            Err(e) => Err(e),
                            Ok((pitch, r5)) => Ok((PlayEntitySoundEffectSpecModel { sound_id, sound_category, entity_id, volume, pitch }, r5)),
                        },
                    },
                },
            },
        }
    }

    #[verifier::rlimit(100)]
    #[verifier::spinoff_prover]
    proof fn lemma_round_trip(m: PlayEntitySoundEffectSpecModel, rest: Seq<u8>) {
        let t4 = Float32::spec_serialize(m.pitch) + rest;
        let t3 = Float32::spec_serialize(m.volume) + t4;
        let t2 = VarInt::spec_serialize(m.entity_id) + t3;
        let t1 = SoundCategory::spec_serialize(m.sound_category) + t2;
        let p1 = VarInt::spec_serialize(m.sound_id);
        let p2 = p1 + SoundCategory::spec_serialize(m.sound_category);
        let p3 = p2 + VarInt::spec_serialize(m.entity_id);
        let p4 = p3 + Float32::spec_serialize(m.volume);
        let p5 = p4 + Float32::spec_serialize(m.pitch);
        assert(Self::spec_serialize(m) == p5);
        lemma_concat_associative(p4, Float32::spec_serialize(m.pitch), rest);
        lemma_concat_associative(p3, Float32::spec_serialize(m.volume), t4);
        lemma_concat_associative(p2, VarInt::spec_serialize(m.entity_id), t3);
        lemma_concat_associative(p1, SoundCategory::spec_serialize(m.sound_category), t2);
        VarInt::lemma_round_trip(m.sound_id, t1);
        assert(VarInt::spec_deserialize(Self::spec_serialize(m) + rest) == Ok::<(<VarInt as Codec>::Model, Seq<u8>), DeserializeErr>((m.sound_id, t1)));
        SoundCategory::lemma_round_trip(m.sound_category, t2);
        assert(SoundCategory::spec_deserialize(t1) == Ok::<(<SoundCategory as Codec>::Model, Seq<u8>), DeserializeErr>((m.sound_category, t2)));
        VarInt::lemma_round_trip(m.entity_id, t3);
        assert(VarInt::spec_deserialize(t2) == Ok::<(<VarInt as Codec>::Model, Seq<u8>), DeserializeErr>((m.entity_id, t3)));
        Float32::lemma_round_trip(m.volume, t4);
        assert(Float32::spec_deserialize(t3) == Ok::<(<Float32 as Codec>::Model, Seq<u8>), DeserializeErr>((m.volume, t4)));
        Float32::lemma_round_trip(m.pitch, rest);
        assert(Float32::spec_deserialize(t4) == Ok::<(<Float32 as Codec>::Model, Seq<u8>), DeserializeErr>((m.pitch, rest)));
    }

    fn mc_serialize(&self, to: &mut Vec<u8>) {
        let ghost start = to@;
        self.sound_id.mc_serialize(to);
        self.sound_category.mc_serialize(to);
        proof {
            lemma_concat_associative(start, VarInt::spec_serialize(self.sound_id.model()), SoundCategory::spec_serialize(self.sound_category.model()));
        }
        self.entity_id.mc_serialize(to);
        proof {
            lemma_concat_associative(start, VarInt::spec_serialize(self.sound_id.model()) + SoundCategory::spec_serialize(self.sound_category.model()), VarInt::spec_serialize(self.entity_id.model()));
        }
        self.volume.mc_serialize(to);
        proof {
            lemma_concat_associative(start, VarInt::spec_serialize(self.sound_id.model()) + SoundCategory::spec_serialize(self.sound_category.model()) + VarInt::spec_serialize(self.entity_id.model()), Float32::spec_serialize(self.volume.model()));
        }
        self.pitch.mc_serialize(to);
        proof {
            lemma_concat_associative(start, VarInt::spec_serialize(self.sound_id.model()) + SoundCategory::spec_serialize(self.sound_category.model()) + VarInt::spec_serialize(self.entity_id.model()) + Float32::spec_serialize(self.volume.model()), Float32::spec_serialize(self.pitch.model()));
        }
        assert(to@ =~= start + Self::spec_serialize(self.model()));
    }

    fn mc_deserialize(data: &[u8]) -> (r: Result<(Self, &[u8]), DeserializeErr>) {
        let (sound_id, rest) = VarInt::mc_deserialize(data)?;
        let (sound_category, rest) = SoundCategory::mc_deserialize(rest)?;
        let (entity_id, rest) = VarInt::mc_deserialize(rest)?;
        let (volume, rest) = Float32::mc_deserialize(rest)?;
        let (pitch, rest) = Float32::mc_deserialize(rest)?;
        Ok((PlayEntitySoundEffectSpec { sound_id, sound_category, entity_id, volume, pitch }, rest))
    }
}

/// The body of the play sound effect message, as values.
pub struct PlaySoundEffectSpecModel {
    pub sound_id: <VarInt as Codec>::Model,
    pub sound_category: <SoundCategory as Codec>::Model,
    pub position_x: <FixedInt as Codec>::Model,
    pub position_y: <FixedInt as Codec>::Model,
    pub position_z: <FixedInt as Codec>::Model,
    pub volume: <Float32 as Codec>::Model,
    pub pitch: <Float32 as Codec>::Model,
}

/// The body of the play sound effect message
#[derive(Debug, Clone, PartialEq, Eq)]
pub struct PlaySoundEffectSpec {
    pub sound_id: VarInt,
    pub sound_category: SoundCategory,
    pub position_x: FixedInt,
    pub position_y: FixedInt,
    pub position_z: FixedInt,
    pub volume: Float32,
    pub pitch: Float32,
}

impl Codec for PlaySoundEffectSpec {
    type Model = PlaySoundEffectSpecModel;

    open spec fn model(&self) -> PlaySoundEffectSpecModel {
        PlaySoundEffectSpecModel { sound_id: self.sound_id.model(), sound_category: self.sound_category.model(), position_x: self.position_x.model(), position_y: self.position_y.model(), position_z: self.position_z.model(), volume: self.volume.model(), pitch: self.pitch.model() }
    }

    open spec fn encodable(m: PlaySoundEffectSpecModel) -> bool {
        VarInt::encodable(m.sound_id) && SoundCategory::encodable(m.sound_category) && FixedInt::encodable(m.position_x) && FixedInt::encodable(m.position_y) && FixedInt::encodable(m.position_z) && Float32::encodable(m.volume) && Float32::encodable(m.pitch)
    }

    open spec fn legal(m: PlaySoundEffectSpecModel) -> bool {
        VarInt::legal(m.sound_id) && SoundCategory::legal(m.sound_category) && FixedInt::legal(m.position_x) && FixedInt::legal(m.position_y) && FixedInt::legal(m.position_z) && Float32::legal(m.volume) && Float32::legal(m.pitch)
    }

    open spec fn spec_serialize(m: PlaySoundEffectSpecModel) -> Seq<u8> {
        VarInt::spec_serialize(m.sound_id) + SoundCategory::spec_serialize(m.sound_category) + FixedInt::spec_serialize(m.position_x) + FixedInt::spec_serialize(m.position_y) + FixedInt::spec_serialize(m.position_z) + Float32::spec_serialize(m.volume) + Float32::spec_serialize(m.pitch)
    }

    open spec fn spec_deserialize(s: Seq<u8>) -> SpecResult<PlaySoundEffectSpecModel> {
        match VarInt::spec_deserialize(s) {
            Err(e) => Err(e),
            Ok((sound_id, r1)) => match SoundCategory::spec_deserialize(r1) {
                Err(e) => Err(e),
                Ok((sound_category, r2)) => match FixedInt::spec_deserialize(r2) {
                    Err(e) => Err(e),
                    Ok((position_x, r3)) => match FixedInt::spec_deserialize(r3) {
                        Err(e) => Err(e),
                        Ok((position_y, r4)) => match FixedInt::spec_deserialize(r4) {
                            Err(e) => Err(e),
                            Ok((position_z, r5)) => match Float32::spec_deserialize(r5) {
                                Err(e) => Err(e),
                                Ok((volume, r6)) => match Float32::spec_deserialize(r6) {
                                    Err(e) => Err(e),
                                    Ok((pitch, r7)) => Ok((PlaySoundEffectSpecModel { sound_id, sound_category, position_x, position_y, position_z, volume, pitch }, r7)),
                                },
                            },
                        },
                    },
                },
            },
        }
    }

    #[verifier::rlimit(100)]
    #[verifier::spinoff_prover]
    proof fn lemma_round_trip(m: PlaySoundEffectSpecModel, rest: Seq<u8>) {
        let t6 = Float32::spec_serialize(m.pitch) + rest;
        let t5 = Float32::spec_serialize(m.volume) + t6;
        let t4 = FixedInt::spec_serialize(m.position_z) + t5;
        let t3 = FixedInt::spec_serialize(m.position_y) + t4;
        let t2 = FixedInt::spec_serialize(m.position_x) + t3;
        let t1 = SoundCategory::spec_serialize(m.sound_category) + t2;
        let p1 = VarInt::spec_serialize(m.sound_id);
        let p2 = p1 + SoundCategory::spec_serialize(m.sound_category);
        let p3 = p2 + FixedInt::spec_serialize(m.position_x);
        let p4 = p3 + FixedInt::spec_serialize(m.position_y);
        let p5 = p4 + FixedInt::spec_serialize(m.position_z);
        let p6 = p5 + Float32::spec_serialize(m.volume);
        let p7 = p6 + Float32::spec_serialize(m.pitch);
        assert(Self::spec_serialize(m) == p7);
        lemma_concat_associative(p6, Float32::spec_serialize(m.pitch), rest);
        lemma_concat_associative(p5, Float32::spec_serialize(m.volume), t6);
        lemma_concat_associative(p4, FixedInt::spec_serialize(m.position_z), t5);
        lemma_concat_associative(p3, FixedInt::spec_serialize(m.position_y), t4);
        lemma_concat_associative(p2, FixedInt::spec_serialize(m.position_x), t3);
        lemma_concat_associative(p1, SoundCategory::spec_serialize(m.sound_category), t2);
        VarInt::lemma_round_trip(m.sound_id, t1);
        assert(VarInt::spec_deserialize(Self::spec_serialize(m) + rest) == Ok::<(<VarInt as Codec>::Model, Seq<u8>), DeserializeErr>((m.sound_id, t1)));
        SoundCategory::lemma_round_trip(m.sound_category, t2);
        assert(SoundCategory::spec_deserialize(t1) == Ok::<(<SoundCategory as Codec>::Model, Seq<u8>), DeserializeErr>((m.sound_category, t2)));
        FixedInt::lemma_round_trip(m.position_x, t3);
        assert(FixedInt::spec_deserialize(t2) == Ok::<(<FixedInt as Codec>::Model, Seq<u8>), DeserializeErr>((m.position_x, t3)));
        FixedInt::lemma_round_trip(m.position_y, t4);
        assert(FixedInt::spec_deserialize(t3) == Ok::<(<FixedInt as Codec>::Model, Seq<u8>), DeserializeErr>((m.position_y, t4)));
        FixedInt::lemma_round_trip(m.position_z, t5);
        assert(FixedInt::spec_deserialize(t4) == Ok::<(<FixedInt as Codec>::Model, Seq<u8>), DeserializeErr>((m.position_z, t5)));
        Float32::lemma_round_trip(m.volume, t6);
        assert(Float32::spec_deserialize(t5) == Ok::<(<Float32 as Codec>::Model, Seq<u8>), DeserializeErr>((m.volume, t6)));
        Float32::lemma_round_trip(m.pitch, rest);
        assert(Float32::spec_deserialize(t6) == Ok::<(<Float32 as Codec>::Model, Seq<u8>), DeserializeErr>((m.pitch, rest)));
    }

    fn mc_serialize(&self, to: &mut Vec<u8>) {
        let ghost start = to@;
        self.sound_id.mc_serialize(to);
        self.sound_category.mc_serialize(to);
        proof {
            lemma_concat_associative(start, VarInt::spec_serialize(self.sound_id.model()), SoundCategory::spec_serialize(self.sound_category.model()));
        }
        self.position_x.mc_serialize(to);
        proof {
            lemma_concat_associative(start, VarInt::spec_serialize(self.sound_id.model()) + SoundCategory::spec_serialize(self.sound_category.model()), FixedInt::spec_serialize(self.position_x.model()));
        }
        self.position_y.mc_serialize(to);
        proof {
            lemma_concat_associative(start, VarInt::spec_serialize(self.sound_id.model()) + SoundCategory::spec_serialize(self.sound_category.model()) + FixedInt::spec_serialize(self.position_x.model()), FixedInt::spec_serialize(self.position_y.model()));
        }
        self.position_z.mc_serialize(to);
        proof {
            lemma_concat_associative(start, VarInt::spec_serialize(self.sound_id.model()) + SoundCategory::spec_serialize(self.sound_category.model()) + FixedInt::spec_serialize(self.position_x.model()) + FixedInt::spec_serialize(self.position_y.model()), FixedInt::spec_serialize(self.position_z.model()));
        }
        self.volume.mc_serialize(to);
        proof {
            lemma_concat_associative(start, VarInt::spec_serialize(self.sound_id.model()) + SoundCategory::spec_serialize(self.sound_category.model()) + FixedInt::spec_serialize(self.position_x.model()) + FixedInt::spec_serialize(self.position_y.model()) + FixedInt::spec_serialize(self.position_z.model()), Float32::spec_serialize(self.volume.model()));
        }
        self.pitch.mc_serialize(to);
        proof {
            lemma_concat_associative(start, VarInt::spec_serialize(self.sound_id.model()) + SoundCategory::spec_serialize(self.sound_category.model()) + FixedInt::spec_serialize(self.position_x.model()) + FixedInt::spec_serialize(self.position_y.model()) + FixedInt::spec_serialize(self.position_z.model()) + Float32::spec_serialize(self.volume.model()), Float32::spec_serialize(self.pitch.model()));
        }
        assert(to@ =~= start + Self::spec_serialize(self.model()));
    }

    fn mc_deserialize(data: &[u8]) -> (r: Result<(Self, &[u8]), DeserializeErr>) {
        let (sound_id, rest) = VarInt::mc_deserialize(data)?;
        let (sound_category, rest) = SoundCategory::mc_deserialize(rest)?;
        let (position_x, rest) = FixedInt::mc_deserialize(rest)?;
        let (position_y, rest) = FixedInt::mc_deserialize(rest)?;
        let (position_z, rest) = FixedInt::mc_deserialize(rest)?;
        let (volume, rest) = Float32::mc_deserialize(rest)?;
        let (pitch, rest) = Float32::mc_deserialize(rest)?;
        Ok((PlaySoundEffectSpec { sound_id, sound_category, position_x, position_y, position_z, volume, pitch }, rest))
    }
}

/// The body of the play stop sound message, as values.
pub struct PlayStopSoundSpecModel {
    pub spec: <StopSoundSpec as Codec>::Model,
}

/// The body of the play stop sound message
#[derive(Debug, Clone, PartialEq, Eq)]
pub struct PlayStopSoundSpec {
    pub spec: StopSoundSpec,
}

impl Codec for PlayStopSoundSpec {
    type Model = PlayStopSoundSpecModel;

    open spec fn model(&self) -> PlayStopSoundSpecModel {
        PlayStopSoundSpecModel { spec: self.spec.model() }
    }

    open spec fn encodable(m: PlayStopSoundSpecModel) -> bool {
        StopSoundSpec::encodable(m.spec)
    }

    open spec fn legal(m: PlayStopSoundSpecModel) -> bool {
        StopSoundSpec::legal(m.spec)
    }

    open spec fn spec_serialize(m: PlayStopSoundSpecModel) -> Seq<u8> {
        StopSoundSpec::spec_serialize(m.spec)
    }

    open spec fn spec_deserialize(s: Seq<u8>) -> SpecResult<PlayStopSoundSpecModel> {
        match StopSoundSpec::spec_deserialize(s) {
            Err(e) => Err(e),
            Ok((spec, r1)) => Ok((PlayStopSoundSpecModel { spec }, r1)),
        }
    }

    proof fn lemma_round_trip(m: PlayStopSoundSpecModel, rest: Seq<u8>) {
        StopSoundSpec::lemma_round_trip(m.spec, rest);
    }

    fn mc_serialize(&self, to: &mut Vec<u8>) {
        let ghost start = to@;
        self.spec.mc_serialize(to);
        assert(to@ =~= start + Self::spec_serialize(self.model()));
    }

    fn mc_deserialize(data: &[u8]) -> (r: Result<(Self, &[u8]), DeserializeErr>) {
        let (spec, rest) = StopSoundSpec::mc_deserialize(data)?;
        Ok((PlayStopSoundSpec { spec }, rest))
    }
}

/// The body of the player player list header and footer message, as values.
pub struct PlayPlayerListHeaderAndFooterSpecModel {
    pub header: <Chat as Codec>::Model,
    pub footer: <Chat as Codec>::Model,
}

/// The body of the player player list header and footer message
#[derive(Debug, Clone, PartialEq, Eq)]
pub struct PlayPlayerListHeaderAndFooterSpec {
    pub header: Chat,
    pub footer: Chat,
}

impl Codec for PlayPlayerListHeaderAndFooterSpec {
    type Model = PlayPlayerListHeaderAndFooterSpecModel;

    open spec fn model(&self) -> PlayPlayerListHeaderAndFooterSpecModel {
        PlayPlayerListHeaderAndFooterSpecModel { header: self.header.model(), footer: self.footer.model() }
    }

    open spec fn encodable(m: PlayPlayerListHeaderAndFooterSpecModel) -> bool {
        Chat::encodable(m.header) && Chat::encodable(m.footer)
    }

    open spec fn legal(m: PlayPlayerListHeaderAndFooterSpecModel) -> bool {
        Chat::legal(m.header) && Chat::legal(m.footer)
    }

    open spec fn spec_serialize(m: PlayPlayerListHeaderAndFooterSpecModel) -> Seq<u8> {
        Chat::spec_serialize(m.header) + Chat::spec_serialize(m.footer)
    }

    open spec fn spec_deserialize(s: Seq<u8>) -> SpecResult<PlayPlayerListHeaderAndFooterSpecModel> {
        match Chat::spec_deserialize(s) {
            Err(e) => Err(e),
            Ok((header, r1)) => match Chat::spec_deserialize(r1) {
                Err(e) => Err(e),
                Ok((footer, r2)) => Ok((PlayPlayerListHeaderAndFooterSpecModel { header, footer }, r2)),
            },
        }
    }

    proof fn lemma_round_trip(m: PlayPlayerListHeaderAndFooterSpecModel, rest: Seq<u8>) {
        let t1 = Chat::spec_serialize(m.footer) + rest;
        let p1 = Chat::spec_serialize(m.header);
        let p2 = p1 + Chat::spec_serialize(m.footer);
        assert(Self::spec_serialize(m) == p2);
        lemma_concat_associative(p1, Chat::spec_serialize(m.footer), rest);
        Chat::lemma_round_trip(m.header, t1);
        Chat::lemma_round_trip(m.footer, rest);
    }

    fn mc_serialize(&self, to: &mut Vec<u8>) {
        let ghost start = to@;
        self.header.mc_serialize(to);
        self.footer.mc_serialize(to);
        proof {
            lemma_concat_associative(start, Chat::spec_serialize(self.header.model()), Chat::spec_serialize(self.footer.model()));
        }
        assert(to@ =~= start + Self::spec_serialize(self.model()));
    }

    fn mc_deserialize(data: &[u8]) -> (r: Result<(Self, &[u8]), DeserializeErr>) {
        let (header, rest) = Chat::mc_deserialize(data)?;
        let (footer, rest) = Chat::mc_deserialize(rest)?;
        Ok((PlayPlayerListHeaderAndFooterSpec { header, footer }, rest))
    }
}

/// The body of the play nbt query response message, as values.
pub struct PlayNbtQueryResponseSpecModel {
    pub transaction_id: <VarInt as Codec>::Model,
    pub nbt: <NamedNbtTag as Codec>::Model,
}

/// The body of the play nbt query response message
#[derive(Debug, Clone, PartialEq, Eq)]
pub struct PlayNbtQueryResponseSpec {
    pub transaction_id: VarInt,
    pub nbt: NamedNbtTag,
}

impl Codec for PlayNbtQueryResponseSpec {
    type Model = PlayNbtQueryResponseSpecModel;

    open spec fn model(&self) -> PlayNbtQueryResponseSpecModel {
        PlayNbtQueryResponseSpecModel { transaction_id: self.transaction_id.model(), nbt: self.nbt.model() }
    }

    open spec fn encodable(m: PlayNbtQueryResponseSpecModel) -> bool {
        VarInt::encodable(m.transaction_id) && NamedNbtTag::encodable(m.nbt)
    }

    open spec fn legal(m: PlayNbtQueryResponseSpecModel) -> bool {
        VarInt::legal(m.transaction_id) && NamedNbtTag::legal(m.nbt)
    }

    open spec fn spec_serialize(m: PlayNbtQueryResponseSpecModel) -> Seq<u8> {
        VarInt::spec_serialize(m.transaction_id) + NamedNbtTag::spec_serialize(m.nbt)
    }

    open spec fn spec_deserialize(s: Seq<u8>) -> SpecResult<PlayNbtQueryResponseSpecModel> {
        match VarInt::spec_deserialize(s) {
            Err(e) => Err(e),
            Ok((transaction_id, r1)) => match NamedNbtTag::spec_deserialize(r1) {
                Err(e) => Err(e),
                Ok((nbt, r2)) => Ok((PlayNbtQueryResponseSpecModel { transaction_id, nbt }, r2)),
            },
        }
    }

    proof fn lemma_round_trip(m: PlayNbtQueryResponseSpecModel, rest: Seq<u8>) {
        let t1 = NamedNbtTag::spec_serialize(m.nbt) + rest;
        let p1 = VarInt::spec_serialize(m.transaction_id);
        let p2 = p1 + NamedNbtTag::spec_serialize(m.nbt);
        assert(Self::spec_serialize(m) == p2);
        lemma_concat_associative(p1, NamedNbtTag::spec_serialize(m.nbt), rest);
        VarInt::lemma_round_trip(m.transaction_id, t1);
        NamedNbtTag::lemma_round_trip(m.nbt, rest);
    }

    fn mc_serialize(&self, to: &mut Vec<u8>) {
        let ghost start = to@;
        self.transaction_id.mc_serialize(to);
        self.nbt.mc_serialize(to);
        proof {
            lemma_concat_associative(start, VarInt::spec_serialize(self.transaction_id.model()), NamedNbtTag::spec_serialize(self.nbt.model()));
        }
        assert(to@ =~= start + Self::spec_serialize(self.model()));
    }

    fn mc_deserialize(data: &[u8]) -> (r: Result<(Self, &[u8]), DeserializeErr>) {
        let (transaction_id, rest) = VarInt::mc_deserialize(data)?;
        let (nbt, rest) = NamedNbtTag::mc_deserialize(rest)?;
        Ok((PlayNbtQueryResponseSpec { transaction_id, nbt }, rest))
    }
}

/// The body of the play collect item message, as values.
pub struct PlayCollectItemSpecModel {
    pub collected_entity_id: <VarInt as Codec>::Model,
    pub collector_entity_id: <VarInt as Codec>::Model,
    pub pickup_item_count: <VarInt as Codec>::Model,
}

/// The body of the play collect item message
#[derive(Debug, Clone, PartialEq, Eq)]
pub struct PlayCollectItemSpec {
    pub collected_entity_id: VarInt,
    pub collector_entity_id: VarInt,
    pub pickup_item_count: VarInt,
}

impl Codec for PlayCollectItemSpec {
    type Model = PlayCollectItemSpecModel;

    open spec fn model(&self) -> PlayCollectItemSpecModel {
        PlayCollectItemSpecModel { collected_entity_id: self.collected_entity_id.model(), collector_entity_id: self.collector_entity_id.model(), pickup_item_count: self.pickup_item_count.model() }
    }

    open spec fn encodable(m: PlayCollectItemSpecModel) -> bool {
        VarInt::encodable(m.collected_entity_id) && VarInt::encodable(m.collector_entity_id) && VarInt::encodable(m.pickup_item_count)
    }

    open spec fn legal(m: PlayCollectItemSpecModel) -> bool {
        VarInt::legal(m.collected_entity_id) && VarInt::legal(m.collector_entity_id) && VarInt::legal(m.pickup_item_count)
    }

    open spec fn spec_serialize(m: PlayCollectItemSpecModel) -> Seq<u8> {
        VarInt::spec_serialize(m.collected_entity_id) + VarInt::spec_serialize(m.collector_entity_id) + VarInt::spec_serialize(m.pickup_item_count)
    }

    open spec fn spec_deserialize(s: Seq<u8>) -> SpecResult<PlayCollectItemSpecModel> {
        match VarInt::spec_deserialize(s) {
            Err(e) => Err(e),
            Ok((collected_entity_id, r1)) => match VarInt::spec_deserialize(r1) {
                Err(e) => Err(e),
                Ok((collector_entity_id, r2)) => match VarInt::spec_deserialize(r2) {
                    Err(e) => Err(e),
                    Ok((pickup_item_count, r3)) => Ok((PlayCollectItemSpecModel { collected_entity_id, collector_entity_id, pickup_item_count }, r3)),
                },
            },
        }
    }

    proof fn lemma_round_trip(m: PlayCollectItemSpecModel, rest: Seq<u8>) {
        let t2 = VarInt::spec_serialize(m.pickup_item_count) + rest;
        let t1 = VarInt::spec_serialize(m.collector_entity_id) + t2;
        let p1 = VarInt::spec_serialize(m.collected_entity_id);
        let p2 = p1 + VarInt::spec_serialize(m.collector_entity_id);
        let p3 = p2 + VarInt::spec_serialize(m.pickup_item_count);
        assert(Self::spec_serialize(m) == p3);
        lemma_concat_associative(p2, VarInt::spec_serialize(m.pickup_item_count), rest);
        lemma_concat_associative(p1, VarInt::spec_serialize(m.collector_entity_id), t2);
        VarInt::lemma_round_trip(m.collected_entity_id, t1);
        VarInt::lemma_round_trip(m.collector_entity_id, t2);
        VarInt::lemma_round_trip(m.pickup_item_count, rest);
    }

    fn mc_serialize(&self, to: &mut Vec<u8>) {
        let ghost start = to@;
        self.collected_entity_id.mc_serialize(to);
        self.collector_entity_id.mc_serialize(to);
        proof {
            lemma_concat_associative(start, VarInt::spec_serialize(self.collected_entity_id.model()), VarInt::spec_serialize(self.collector_entity_id.model()));
        }
        self.pickup_item_count.mc_serialize(to);
        proof {
            lemma_concat_associative(start, VarInt::spec_serialize(self.collected_entity_id.model()) + VarInt::spec_serialize(self.collector_entity_id.model()), VarInt::spec_serialize(self.pickup_item_count.model()));
        }
        assert(to@ =~= start + Self::spec_serialize(self.model()));
    }

    fn mc_deserialize(data: &[u8]) -> (r: Result<(Self, &[u8]), DeserializeErr>) {
        let (collected_entity_id, rest) = VarInt::mc_deserialize(data)?;
        let (collector_entity_id, rest) = VarInt::mc_deserialize(rest)?;
        let (pickup_item_count, rest) = VarInt::mc_deserialize(rest)?;
        Ok((PlayCollectItemSpec { collected_entity_id, collector_entity_id, pickup_item_count }, rest))
    }
}

/// The body of the play entity teleport message, as values.
pub struct PlayEntityTeleportSpecModel {
    pub entity_id: <VarInt as Codec>::Model,
    pub x: <Float64 as Codec>::Model,
    pub y: <Float64 as Codec>::Model,
    pub z: <Float64 as Codec>::Model,
    pub yaw: <Angle as Codec>::Model,
    pub pitch: <Angle as Codec>::Model,
    pub on_ground: <bool as Codec>::Model,
}

/// The body of the play entity teleport message
#[derive(Debug, Clone, PartialEq, Eq)]
pub struct PlayEntityTeleportSpec {
    pub entity_id: VarInt,
    pub x: Float64,
    pub y: Float64,
    pub z: Float64,
    pub yaw: Angle,
    pub pitch: Angle,
    pub on_ground: bool,
}

impl Codec for PlayEntityTeleportSpec {
    type Model = PlayEntityTeleportSpecModel;

    open spec fn model(&self) -> PlayEntityTeleportSpecModel {
        PlayEntityTeleportSpecModel { entity_id: self.entity_id.model(), x: self.x.model(), y: self.y.model(), z: self.z.model(), yaw: self.yaw.model(), pitch: self.pitch.model(), on_ground: self.on_ground.model() }
    }

    open spec fn encodable(m: PlayEntityTeleportSpecModel) -> bool {
        VarInt::encodable(m.entity_id) && Float64::encodable(m.x) && Float64::encodable(m.y) && Float64::encodable(m.z) && Angle::encodable(m.yaw) && Angle::encodable(m.pitch) && bool::encodable(m.on_ground)
    }

    open spec fn legal(m: PlayEntityTeleportSpecModel) -> bool {
        VarInt::legal(m.entity_id) && Float64::legal(m.x) && Float64::legal(m.y) && Float64::legal(m.z) && Angle::legal(m.yaw) && Angle::legal(m.pitch) && bool::legal(m.on_ground)
    }

    open spec fn spec_serialize(m: PlayEntityTeleportSpecModel) -> Seq<u8> {
        VarInt::spec_serialize(m.entity_id) + Float64::spec_serialize(m.x) + Float64::spec_serialize(m.y) + Float64::spec_serialize(m.z) + Angle::spec_serialize(m.yaw) + Angle::spec_serialize(m.pitch) + bool::spec_serialize(m.on_ground)
    }

    open spec fn spec_deserialize(s: Seq<u8>) -> SpecResult<PlayEntityTeleportSpecModel> {
        match VarInt::spec_deserialize(s) {
            Err(e) => Err(e),
            Ok((entity_id, r1)) => match Float64::spec_deserialize(r1) {
                Err(e) => Err(e),
                Ok((x, r2)) => match Float64::spec_deserialize(r2) {
                    Err(e) => Err(e),
                    Ok((y, r3)) => match Float64::spec_deserialize(r3) {
                        Err(e) => Err(e),
                        Ok((z, r4)) => match Angle::spec_deserialize(r4) {
                            Err(e) => Err(e),
                            Ok((yaw, r5)) => match Angle::spec_deserialize(r5) {
                                Err(e) => Err(e),
                                Ok((pitch, r6)) => match bool::spec_deserialize(r6) {
                                    Err(e) => Err(e),
                                    Ok((on_ground, r7)) => Ok((PlayEntityTeleportSpecModel { entity_id, x, y, z, yaw, pitch, on_ground }, r7)),
                                },
                            },
                        },
                    },
                },
            },
        }
    }

    #[verifier::rlimit(100)]
    #[verifier::spinoff_prover]
    proof fn lemma_round_trip(m: PlayEntityTeleportSpecModel, rest: Seq<u8>) {
        let t6 = bool::spec_serialize(m.on_ground) + rest;
        let t5 = Angle::spec_serialize(m.pitch) + t6;
        let t4 = Angle::spec_serialize(m.yaw) + t5;
        let t3 = Float64::spec_serialize(m.z) + t4;
        let t2 = Float64::spec_serialize(m.y) + t3;
        let t1 = Float64::spec_serialize(m.x) + t2;
        let p1 = VarInt::spec_serialize(m.entity_id);
        let p2 = p1 + Float64::spec_serialize(m.x);
        let p3 = p2 + Float64::spec_serialize(m.y);
        let p4 = p3 + Float64::spec_serialize(m.z);
        let p5 = p4 + Angle::spec_serialize(m.yaw);
        let p6 = p5 + Angle::spec_serialize(m.pitch);
        let p7 = p6 + bool::spec_serialize(m.on_ground);
        assert(Self::spec_serialize(m) == p7);
        lemma_concat_associative(p6, bool::spec_serialize(m.on_ground), rest);
        lemma_concat_associative(p5, Angle::spec_serialize(m.pitch), t6);
        lemma_concat_associative(p4, Angle::spec_serialize(m.yaw), t5);
        lemma_concat_associative(p3, Float64::spec_serialize(m.z), t4);
        lemma_concat_associative(p2, Float64::spec_serialize(m.y), t3);
        lemma_concat_associative(p1, Float64::spec_serialize(m.x), t2);
        VarInt::lemma_round_trip(m.entity_id, t1);
        assert(VarInt::spec_deserialize(Self::spec_serialize(m) + rest) == Ok::<(<VarInt as Codec>::Model, Seq<u8>), DeserializeErr>((m.entity_id, t1)));
        Float64::lemma_round_trip(m.x, t2);
        assert(Float64::spec_deserialize(t1) == Ok::<(<Float64 as Codec>::Model, Seq<u8>), DeserializeErr>((m.x, t2)));
        Float64::lemma_round_trip(m.y, t3);
        assert(Float64::spec_deserialize(t2) == Ok::<(<Float64 as Codec>::Model, Seq<u8>), DeserializeErr>((m.y, t3)));
        Float64::lemma_round_trip(m.z, t4);
        assert(Float64::spec_deserialize(t3) == Ok::<(<Float64 as Codec>::Model, Seq<u8>), DeserializeErr>((m.z, t4)));
        Angle::lemma_round_trip(m.yaw, t5);
        assert(Angle::spec_deserialize(t4) == Ok::<(<Angle as Codec>::Model, Seq<u8>), DeserializeErr>((m.yaw, t5)));
        Angle::lemma_round_trip(m.pitch, t6);
        assert(Angle::spec_deserialize(t5) == Ok::<(<Angle as Codec>::Model, Seq<u8>), DeserializeErr>((m.pitch, t6)));
        bool::lemma_round_trip(m.on_ground, rest);
        assert(bool::spec_deserialize(t6) == Ok::<(<bool as Codec>::Model, Seq<u8>), DeserializeErr>((m.on_ground, rest)));
    }

    fn mc_serialize(&self, to: &mut Vec<u8>) {
        let ghost start = to@;
        self.entity_id.mc_serialize(to);
        self.x.mc_serialize(to);
        proof {
            lemma_concat_associative(start, VarInt::spec_serialize(self.entity_id.model()), Float64::spec_serialize(self.x.model()));
        }
        self.y.mc_serialize(to);
        proof {
            lemma_concat_associative(start, VarInt::spec_serialize(self.entity_id.model()) + Float64::spec_serialize(self.x.model()), Float64::spec_serialize(self.y.model()));
        }
        self.z.mc_serialize(to);
        proof {
            lemma_concat_associative(start, VarInt::spec_serialize(self.entity_id.model()) + Float64::spec_serialize(self.x.model()) + Float64::spec_serialize(self.y.model()), Float64::spec_serialize(self.z.model()));
        }
        self.yaw.mc_serialize(to);
        proof {
            lemma_concat_associative(start, VarInt::spec_serialize(self.entity_id.model()) + Float64::spec_serialize(self.x.model()) + Float64::spec_serialize(self.y.model()) + Float64::spec_serialize(self.z.model()), Angle::spec_serialize(self.yaw.model()));
        }
        self.pitch.mc_serialize(to);
        proof {
            lemma_concat_associative(start, VarInt::spec_serialize(self.entity_id.model()) + Float64::spec_serialize(self.x.model()) + Float64::spec_serialize(self.y.model()) + Float64::spec_serialize(self.z.model()) + Angle::spec_serialize(self.yaw.model()), Angle::spec_serialize(self.pitch.model()));
        }
        self.on_ground.mc_serialize(to);
        proof {
            lemma_concat_associative(start, VarInt::spec_serialize(self.entity_id.model()) + Float64::spec_serialize(self.x.model()) + Float64::spec_serialize(self.y.model()) + Float64::spec_serialize(self.z.model()) + Angle::spec_serialize(self.yaw.model()) + Angle::spec_serialize(self.pitch.model()), bool::spec_serialize(self.on_ground.model()));
        }
        assert(to@ =~= start + Self::spec_serialize(self.model()));
    }

    fn mc_deserialize(data: &[u8]) -> (r: Result<(Self, &[u8]), DeserializeErr>) {
        let (entity_id, rest) = VarInt::mc_deserialize(data)?;
        let (x, rest) = Float64::mc_deserialize(rest)?;
        let (y, rest) = Float64::mc_deserialize(rest)?;
        let (z, rest) = Float64::mc_deserialize(rest)?;
        let (yaw, rest) = Angle::mc_deserialize(rest)?;
        let (pitch, rest) = Angle::mc_deserialize(rest)?;
        let (on_ground, rest) = bool::mc_deserialize(rest)?;
        Ok((PlayEntityTeleportSpec { entity_id, x, y, z, yaw, pitch, on_ground }, rest))
    }
}

/// The body of the play advancements message, as values.
pub struct PlayAdvancementsSpecModel {
    pub reset: <bool as Codec>::Model,
    pub mappings: <VarIntCountedArray<AdvancementMappingEntrySpec> as Codec>::Model,
    pub identifiers: <VarIntCountedArray<String> as Codec>::Model,
    pub progress: <VarIntCountedArray<AdvancementProgressEntrySpec> as Codec>::Model,
}

/// The body of the play advancements message
#[derive(Debug, Clone, PartialEq, Eq)]
pub struct PlayAdvancementsSpec {
    pub reset: bool,
    pub mappings: VarIntCountedArray<AdvancementMappingEntrySpec>,
    pub identifiers: VarIntCountedArray<String>,
    pub progress: VarIntCountedArray<AdvancementProgressEntrySpec>,
}

impl Codec for PlayAdvancementsSpec {
    type Model = PlayAdvancementsSpecModel;

    open spec fn model(&self) -> PlayAdvancementsSpecModel {
        PlayAdvancementsSpecModel { reset: self.reset.model(), mappings: self.mappings.model(), identifiers: self.identifiers.model(), progress: self.progress.model() }
    }

    open spec fn encodable(m: PlayAdvancementsSpecModel) -> bool {
        bool::encodable(m.reset) && VarIntCountedArray::<AdvancementMappingEntrySpec>::encodable(m.mappings) && VarIntCountedArray::<String>::encodable(m.identifiers) && VarIntCountedArray::<AdvancementProgressEntrySpec>::encodable(m.progress)
    }

    open spec fn legal(m: PlayAdvancementsSpecModel) -> bool {
        bool::legal(m.reset) && VarIntCountedArray::<AdvancementMappingEntrySpec>::legal(m.mappings) && VarIntCountedArray::<String>::legal(m.identifiers) && VarIntCountedArray::<AdvancementProgressEntrySpec>::legal(m.progress)
    }

    open spec fn spec_serialize(m: PlayAdvancementsSpecModel) -> Seq<u8> {
        bool::spec_serialize(m.reset) + VarIntCountedArray::<AdvancementMappingEntrySpec>::spec_serialize(m.mappings) + VarIntCountedArray::<String>::spec_serialize(m.identifiers) + VarIntCountedArray::<AdvancementProgressEntrySpec>::spec_serialize(m.progress)
    }

    open spec fn spec_deserialize(s: Seq<u8>) -> SpecResult<PlayAdvancementsSpecModel> {
        match bool::spec_deserialize(s) {
            Err(e) => Err(e),
            Ok((reset, r1)) => match VarIntCountedArray::<AdvancementMappingEntrySpec>::spec_deserialize(r1) {
                Err(e) => Err(e),
                Ok((mappings, r2)) => match VarIntCountedArray::<String>::spec_deserialize(r2) {
                    Err(e) => Err(e),
                    Ok((identifiers, r3)) => match VarIntCountedArray::<AdvancementProgressEntrySpec>::spec_deserialize(r3) {
                        Err(e) => Err(e),
                        Ok((progress, r4)) => Ok((PlayAdvancementsSpecModel { reset, mappings, identifiers, progress }, r4)),
                    },
                },
            },
        }
    }

    #[verifier::rlimit(100)]
    #[verifier::spinoff_prover]
    proof fn lemma_round_trip(m: PlayAdvancementsSpecModel, rest: Seq<u8>) {
        let t3 = VarIntCountedArray::<AdvancementProgressEntrySpec>::spec_serialize(m.progress) + rest;
        let t2 = VarIntCountedArray::<String>::spec_serialize(m.identifiers) + t3;
        let t1 = VarIntCountedArray::<AdvancementMappingEntrySpec>::spec_serialize(m.mappings) + t2;
        let p1 = bool::spec_serialize(m.reset);
        let p2 = p1 + VarIntCountedArray::<AdvancementMappingEntrySpec>::spec_serialize(m.mappings);
        let p3 = p2 + VarIntCountedArray::<String>::spec_serialize(m.identifiers);
        let p4 = p3 + VarIntCountedArray::<AdvancementProgressEntrySpec>::spec_serialize(m.progress);
        assert(Self::spec_serialize(m) == p4);
        lemma_concat_associative(p3, VarIntCountedArray::<AdvancementProgressEntrySpec>::spec_serialize(m.progress), rest);
        lemma_concat_associative(p2, VarIntCountedArray::<String>::spec_serialize(m.identifiers), t3);
        lemma_concat_associative(p1, VarIntCountedArray::<AdvancementMappingEntrySpec>::spec_serialize(m.mappings), t2);
        bool::lemma_round_trip(m.reset, t1);
        assert(bool::spec_deserialize(Self::spec_serialize(m) + rest) == Ok::<(<bool as Codec>::Model, Seq<u8>), DeserializeErr>((m.reset, t1)));
        VarIntCountedArray::<AdvancementMappingEntrySpec>::lemma_round_trip(m.mappings, t2);
        assert(VarIntCountedArray::<AdvancementMappingEntrySpec>::spec_deserialize(t1) == Ok::<(<VarIntCountedArray<AdvancementMappingEntrySpec> as Codec>::Model, Seq<u8>), DeserializeErr>((m.mappings, t2)));
        VarIntCountedArray::<String>::lemma_round_trip(m.identifiers, t3);
        assert(VarIntCountedArray::<String>::spec_deserialize(t2) == Ok::<(<VarIntCountedArray<String> as Codec>::Model, Seq<u8>), DeserializeErr>((m.identifiers, t3)));
        VarIntCountedArray::<AdvancementProgressEntrySpec>::lemma_round_trip(m.progress, rest);
        assert(VarIntCountedArray::<AdvancementProgressEntrySpec>::spec_deserialize(t3) == Ok::<(<VarIntCountedArray<AdvancementProgressEntrySpec> as Codec>::Model, Seq<u8>), DeserializeErr>((m.progress, rest)));
    }

    fn mc_serialize(&self, to: &mut Vec<u8>) {
        let ghost start = to@;
        self.reset.mc_serialize(to);
        self.mappings.mc_serialize(to);
        proof {
            lemma_concat_associative(start, bool::spec_serialize(self.reset.model()), VarIntCountedArray::<AdvancementMappingEntrySpec>::spec_serialize(self.mappings.model()));
        }
        self.identifiers.mc_serialize(to);
        proof {
            lemma_concat_associative(start, bool::spec_serialize(self.reset.model()) + VarIntCountedArray::<AdvancementMappingEntrySpec>::spec_serialize(self.mappings.model()), VarIntCountedArray::<String>::spec_serialize(self.identifiers.model()));
        }
        self.progress.mc_serialize(to);
        proof {
            lemma_concat_associative(start, bool::spec_serialize(self.reset.model()) + VarIntCountedArray::<AdvancementMappingEntrySpec>::spec_serialize(self.mappings.model()) + VarIntCountedArray::<String>::spec_serialize(self.identifiers.model()), VarIntCountedArray::<AdvancementProgressEntrySpec>::spec_serialize(self.progress.model()));
        }
        assert(to@ =~= start + Self::spec_serialize(self.model()));
    }

    fn mc_deserialize(data: &[u8]) -> (r: Result<(Self, &[u8]), DeserializeErr>) {
        let (reset, rest) = bool::mc_deserialize(data)?;
        let (mappings, rest) = VarIntCountedArray::<AdvancementMappingEntrySpec>::mc_deserialize(rest)?;
        let (identifiers, rest) = VarIntCountedArray::<String>::mc_deserialize(rest)?;
        let (progress, rest) = VarIntCountedArray::<AdvancementProgressEntrySpec>::mc_deserialize(rest)?;
        Ok((PlayAdvancementsSpec { reset, mappings, identifiers, progress }, rest))
    }
}

/// The body of the play entity properties message, as values.
pub struct PlayEntityPropertiesSpecModel {
    pub entity_id: <VarInt as Codec>::Model,
    pub properties: <IntCountedArray<EntityPropertySpec> as Codec>::Model,
}

/// The body of the play entity properties message
#[derive(Debug, Clone, PartialEq, Eq)]
pub struct PlayEntityPropertiesSpec {
    pub entity_id: VarInt,
    pub properties: IntCountedArray<EntityPropertySpec>,
}

impl Codec for PlayEntityPropertiesSpec {
    type Model = PlayEntityPropertiesSpecModel;

    open spec fn model(&self) -> PlayEntityPropertiesSpecModel {
        PlayEntityPropertiesSpecModel { entity_id: self.entity_id.model(), properties: self.properties.model() }
    }

    open spec fn encodable(m: PlayEntityPropertiesSpecModel) -> bool {
        VarInt::encodable(m.entity_id) && IntCountedArray::<EntityPropertySpec>::encodable(m.properties)
    }

    open spec fn legal(m: PlayEntityPropertiesSpecModel) -> bool {
        VarInt::legal(m.entity_id) && IntCountedArray::<EntityPropertySpec>::legal(m.properties)
    }

    open spec fn spec_serialize(m: PlayEntityPropertiesSpecModel) -> Seq<u8> {
        VarInt::spec_serialize(m.entity_id) + IntCountedArray::<EntityPropertySpec>::spec_serialize(m.properties)
    }

    open spec fn spec_deserialize(s: Seq<u8>) -> SpecResult<PlayEntityPropertiesSpecModel> {
        match VarInt::spec_deserialize(s) {
            Err(e) => Err(e),
            Ok((entity_id, r1)) => match IntCountedArray::<EntityPropertySpec>::spec_deserialize(r1) {
                Err(e) => Err(e),
                Ok((properties, r2)) => Ok((PlayEntityPropertiesSpecModel { entity_id, properties }, r2)),
            },
        }
    }

    proof fn lemma_round_trip(m: PlayEntityPropertiesSpecModel, rest: Seq<u8>) {
        let t1 = IntCountedArray::<EntityPropertySpec>::spec_serialize(m.properties) + rest;
        let p1 = VarInt::spec_serialize(m.entity_id);
        let p2 = p1 + IntCountedArray::<EntityPropertySpec>::spec_serialize(m.properties);
        assert(Self::spec_serialize(m) == p2);
        lemma_concat_associative(p1, IntCountedArray::<EntityPropertySpec>::spec_serialize(m.properties), rest);
        VarInt::lemma_round_trip(m.entity_id, t1);
        IntCountedArray::<EntityPropertySpec>::lemma_round_trip(m.properties, rest);
    }

    fn mc_serialize(&self, to: &mut Vec<u8>) {
        let ghost start = to@;
        self.entity_id.mc_serialize(to);
        self.properties.mc_serialize(to);
        proof {
            lemma_concat_associative(start, VarInt::spec_serialize(self.entity_id.model()), IntCountedArray::<EntityPropertySpec>::spec_serialize(self.properties.model()));
        }
        assert(to@ =~= start + Self::spec_serialize(self.model()));
    }

    fn mc_deserialize(data: &[u8]) -> (r: Result<(Self, &[u8]), DeserializeErr>) {
        let (entity_id, rest) = VarInt::mc_deserialize(data)?;
        let (properties, rest) = IntCountedArray::<EntityPropertySpec>::mc_deserialize(rest)?;
        Ok((PlayEntityPropertiesSpec { entity_id, properties }, rest))
    }
}

/// The body of the play entity effect message, as values.
pub struct PlayEntityEffectSpecModel {
    pub entity_id: <VarInt as Codec>::Model,
    pub effect_id: <EntityEffectKind as Codec>::Model,
    pub amplifier: <i8 as Codec>::Model,
    pub duration_ticks: <VarInt as Codec>::Model,
    pub flags: <EntityEffectFlags as Codec>::Model,
}

/// The body of the play entity effect message
#[derive(Debug, Clone, PartialEq, Eq)]
pub struct PlayEntityEffectSpec {
    pub entity_id: VarInt,
    pub effect_id: EntityEffectKind,
    pub amplifier: i8,
    pub duration_ticks: VarInt,
    pub flags: EntityEffectFlags,
}

impl Codec for PlayEntityEffectSpec {
    type Model = PlayEntityEffectSpecModel;

    open spec fn model(&self) -> PlayEntityEffectSpecModel {
        PlayEntityEffectSpecModel { entity_id: self.entity_id.model(), effect_id: self.effect_id.model(), amplifier: self.amplifier.model(), duration_ticks: self.duration_ticks.model(), flags: self.flags.model() }
    }

    open spec fn encodable(m: PlayEntityEffectSpecModel) -> bool {
        VarInt::encodable(m.entity_id) && EntityEffectKind::encodable(m.effect_id) && i8::encodable(m.amplifier) && VarInt::encodable(m.duration_ticks) && EntityEffectFlags::encodable(m.flags)
    }

    open spec fn legal(m: PlayEntityEffectSpecModel) -> bool {
        VarInt::legal(m.entity_id) && EntityEffectKind::legal(m.effect_id) && i8::legal(m.amplifier) && VarInt::legal(m.duration_ticks) && EntityEffectFlags::legal(m.flags)
    }

    open spec fn spec_serialize(m: PlayEntityEffectSpecModel) -> Seq<u8> {
        VarInt::spec_serialize(m.entity_id) + EntityEffectKind::spec_serialize(m.effect_id) + i8::spec_serialize(m.amplifier) + VarInt::spec_serialize(m.duration_ticks) + EntityEffectFlags::spec_serialize(m.flags)
    }

    open spec fn spec_deserialize(s: Seq<u8>) -> SpecResult<PlayEntityEffectSpecModel> {
        match VarInt::spec_deserialize(s) {
            Err(e) => Err(e),
            Ok((entity_id, r1)) => match EntityEffectKind::spec_deserialize(r1) {
                Err(e) => Err(e),
                Ok((effect_id, r2)) => match i8::spec_deserialize(r2) {
                    Err(e) => Err(e),
                    Ok((amplifier, r3)) => match VarInt::spec_deserialize(r3) {
                        Err(e) => Err(e),
                        Ok((duration_ticks, r4)) => match EntityEffectFlags::spec_deserialize(r4) {
                            Err(e) => Err(e),
                            Ok((flags, r5)) => Ok((PlayEntityEffectSpecModel { entity_id, effect_id, amplifier, duration_ticks, flags }, r5)),
                        },
                    },
                },
            },
        }
    }

    #[verifier::rlimit(100)]
    #[verifier::spinoff_prover]
    proof fn lemma_round_trip(m: PlayEntityEffectSpecModel, rest: Seq<u8>) {
        let t4 = EntityEffectFlags::spec_serialize(m.flags) + rest;
        let t3 = VarInt::spec_serialize(m.duration_ticks) + t4;
        let t2 = i8::spec_serialize(m.amplifier) + t3;
        let t1 = EntityEffectKind::spec_serialize(m.effect_id) + t2;
        let p1 = VarInt::spec_serialize(m.entity_id);
        let p2 = p1 + EntityEffectKind::spec_serialize(m.effect_id);
        let p3 = p2 + i8::spec_serialize(m.amplifier);
        let p4 = p3 + VarInt::spec_serialize(m.duration_ticks);
        let p5 = p4 + EntityEffectFlags::spec_serialize(m.flags);
        assert(Self::spec_serialize(m) == p5);
        lemma_concat_associative(p4, EntityEffectFlags::spec_serialize(m.flags), rest);
        lemma_concat_associative(p3, VarInt::spec_serialize(m.duration_ticks), t4);
        lemma_concat_associative(p2, i8::spec_serialize(m.amplifier), t3);
        lemma_concat_associative(p1, EntityEffectKind::spec_serialize(m.effect_id), t2);
        VarInt::lemma_round_trip(m.entity_id, t1);
        assert(VarInt::spec_deserialize(Self::spec_serialize(m) + rest) == Ok::<(<VarInt as Codec>::Model, Seq<u8>), DeserializeErr>((m.entity_id, t1)));
        EntityEffectKind::lemma_round_trip(m.effect_id, t2);
        assert(EntityEffectKind::spec_deserialize(t1) == Ok::<(<EntityEffectKind as Codec>::Model, Seq<u8>), DeserializeErr>((m.effect_id, t2)));
        i8::lemma_round_trip(m.amplifier, t3);
        assert(i8::spec_deserialize(t2) == Ok::<(<i8 as Codec>::Model, Seq<u8>), DeserializeErr>((m.amplifier, t3)));
        VarInt::lemma_round_trip(m.duration_ticks, t4);
        assert(VarInt::spec_deserialize(t3) == Ok::<(<VarInt as Codec>::Model, Seq<u8>), DeserializeErr>((m.duration_ticks, t4)));
        EntityEffectFlags::lemma_round_trip(m.flags, rest);
        assert(EntityEffectFlags::spec_deserialize(t4) == Ok::<(<EntityEffectFlags as Codec>::Model, Seq<u8>), DeserializeErr>((m.flags, rest)));
    }

    fn mc_serialize(&self, to: &mut Vec<u8>) {
        let ghost start = to@;
        self.entity_id.mc_serialize(to);
        self.effect_id.mc_serialize(to);
        proof {
            lemma_concat_associative(start, VarInt::spec_serialize(self.entity_id.model()), EntityEffectKind::spec_serialize(self.effect_id.model()));
        }
        self.amplifier.mc_serialize(to);
        proof {
            lemma_concat_associative(start, VarInt::spec_serialize(self.entity_id.model()) + EntityEffectKind::spec_serialize(self.effect_id.model()), i8::spec_serialize(self.amplifier.model()));
        }
        self.duration_ticks.mc_serialize(to);
        proof {
            lemma_concat_associative(start, VarInt::spec_serialize(self.entity_id.model()) + EntityEffectKind::spec_serialize(self.effect_id.model()) + i8::spec_serialize(self.amplifier.model()), VarInt::spec_serialize(self.duration_ticks.model()));
        }
        self.flags.mc_serialize(to);
        proof {
            lemma_concat_associative(start, VarInt::spec_serialize(self.entity_id.model()) + EntityEffectKind::spec_serialize(self.effect_id.model()) + i8::spec_serialize(self.amplifier.model()) + VarInt::spec_serialize(self.duration_ticks.model()), EntityEffectFlags::spec_serialize(self.flags.model()));
        }
        assert(to@ =~= start + Self::spec_serialize(self.model()));
    }

    fn mc_deserialize(data: &[u8]) -> (r: Result<(Self, &[u8]), DeserializeErr>) {
        let (entity_id, rest) = VarInt::mc_deserialize(data)?;
        let (effect_id, rest) = EntityEffectKind::mc_deserialize(rest)?;
        let (amplifier, rest) = i8::mc_deserialize(rest)?;
        let (duration_ticks, rest) = VarInt::mc_deserialize(rest)?;
        let (flags, rest) = EntityEffectFlags::mc_deserialize(rest)?;
        Ok((PlayEntityEffectSpec { entity_id, effect_id, amplifier, duration_ticks, flags }, rest))
    }
}

/// The body of the play declare recipes message, as values.
pub struct PlayDeclareRecipesSpecModel {
    pub recipes: <VarIntCountedArray<RecipeSpec> as Codec>::Model,
}

/// The body of the play declare recipes message
#[derive(Debug, Clone, PartialEq, Eq)]
pub struct PlayDeclareRecipesSpec {
    pub recipes: VarIntCountedArray<RecipeSpec>,
}

impl Codec for PlayDeclareRecipesSpec {
    type Model = PlayDeclareRecipesSpecModel;

    open spec fn model(&self) -> PlayDeclareRecipesSpecModel {
        PlayDeclareRecipesSpecModel { recipes: self.recipes.model() }
    }

    open spec fn encodable(m: PlayDeclareRecipesSpecModel) -> bool {
        VarIntCountedArray::<RecipeSpec>::encodable(m.recipes)
    }

    open spec fn legal(m: PlayDeclareRecipesSpecModel) -> bool {
        VarIntCountedArray::<RecipeSpec>::legal(m.recipes)
    }

    open spec fn spec_serialize(m: PlayDeclareRecipesSpecModel) -> Seq<u8> {
        VarIntCountedArray::<RecipeSpec>::spec_serialize(m.recipes)
    }

    open spec fn spec_deserialize(s: Seq<u8>) -> SpecResult<PlayDeclareRecipesSpecModel> {
        match VarIntCountedArray::<RecipeSpec>::spec_deserialize(s) {
            Err(e) => Err(e),
            Ok((recipes, r1)) => Ok((PlayDeclareRecipesSpecModel { recipes }, r1)),
        }
    }

    proof fn lemma_round_trip(m: PlayDeclareRecipesSpecModel, rest: Seq<u8>) {
        VarIntCountedArray::<RecipeSpec>::lemma_round_trip(m.recipes, rest);
    }

    fn mc_serialize(&self, to: &mut Vec<u8>) {
        let ghost start = to@;
        self.recipes.mc_serialize(to);
        assert(to@ =~= start + Self::spec_serialize(self.model()));
    }

    fn mc_deserialize(data: &[u8]) -> (r: Result<(Self, &[u8]), DeserializeErr>) {
        let (recipes, rest) = VarIntCountedArray::<RecipeSpec>::mc_deserialize(data)?;
        Ok((PlayDeclareRecipesSpec { recipes }, rest))
    }
}

/// The body of the play tags message, as values.
pub struct PlayTagsSpecModel {
    pub block_tags: <VarIntCountedArray<TagSpec> as Codec>::Model,
    pub item_tags: <VarIntCountedArray<TagSpec> as Codec>::Model,
    pub fluid_tags: <VarIntCountedArray<TagSpec> as Codec>::Model,
    pub entity_tags: <VarIntCountedArray<TagSpec> as Codec>::Model,
}

/// The body of the play tags message
#[derive(Debug, Clone, PartialEq, Eq)]
pub struct PlayTagsSpec {
    pub block_tags: VarIntCountedArray<TagSpec>,
    pub item_tags: VarIntCountedArray<TagSpec>,
    pub fluid_tags: VarIntCountedArray<TagSpec>,
    pub entity_tags: VarIntCountedArray<TagSpec>,
}

impl Codec for PlayTagsSpec {
    type Model = PlayTagsSpecModel;

    open spec fn model(&self) -> PlayTagsSpecModel {
        PlayTagsSpecModel { block_tags: self.block_tags.model(), item_tags: self.item_tags.model(), fluid_tags: self.fluid_tags.model(), entity_tags: self.entity_tags.model() }
    }

    open spec fn encodable(m: PlayTagsSpecModel) -> bool {
        VarIntCountedArray::<TagSpec>::encodable(m.block_tags) && VarIntCountedArray::<TagSpec>::encodable(m.item_tags) && VarIntCountedArray::<TagSpec>::encodable(m.fluid_tags) && VarIntCountedArray::<TagSpec>::encodable(m.entity_tags)
    }

    open spec fn legal(m: PlayTagsSpecModel) -> bool {
        VarIntCountedArray::<TagSpec>::legal(m.block_tags) && VarIntCountedArray::<TagSpec>::legal(m.item_tags) && VarIntCountedArray::<TagSpec>::legal(m.fluid_tags) && VarIntCountedArray::<TagSpec>::legal(m.entity_tags)
    }

    open spec fn spec_serialize(m: PlayTagsSpecModel) -> Seq<u8> {
        VarIntCountedArray::<TagSpec>::spec_serialize(m.block_tags) + VarIntCountedArray::<TagSpec>::spec_serialize(m.item_tags) + VarIntCountedArray::<TagSpec>::spec_serialize(m.fluid_tags) + VarIntCountedArray::<TagSpec>::spec_serialize(m.entity_tags)
    }

    open spec fn spec_deserialize(s: Seq<u8>) -> SpecResult<PlayTagsSpecModel> {
        match VarIntCountedArray::<TagSpec>::spec_deserialize(s) {
            Err(e) => Err(e),
            Ok((block_tags, r1)) => match VarIntCountedArray::<TagSpec>::spec_deserialize(r1) {
                Err(e) => Err(e),
                Ok((item_tags, r2)) => match VarIntCountedArray::<TagSpec>::spec_deserialize(r2) {
                    Err(e) => Err(e),
                    Ok((fluid_tags, r3)) => match VarIntCountedArray::<TagSpec>::spec_deserialize(r3) {
                        Err(e) => Err(e),
                        Ok((entity_tags, r4)) => Ok((PlayTagsSpecModel { block_tags, item_tags, fluid_tags, entity_tags }, r4)),
                    },
                },
            },
        }
    }

    #[verifier::rlimit(100)]
    #[verifier::spinoff_prover]
    proof fn lemma_round_trip(m: PlayTagsSpecModel, rest: Seq<u8>) {
        let t3 = VarIntCountedArray::<TagSpec>::spec_serialize(m.entity_tags) + rest;
        let t2 = VarIntCountedArray::<TagSpec>::spec_serialize(m.fluid_tags) + t3;
        let t1 = VarIntCountedArray::<TagSpec>::spec_serialize(m.item_tags) + t2;
        let p1 = VarIntCountedArray::<TagSpec>::spec_serialize(m.block_tags);
        let p2 = p1 + VarIntCountedArray::<TagSpec>::spec_serialize(m.item_tags);
        let p3 = p2 + VarIntCountedArray::<TagSpec>::spec_serialize(m.fluid_tags);
        let p4 = p3 + VarIntCountedArray::<TagSpec>::spec_serialize(m.entity_tags);
        assert(Self::spec_serialize(m) == p4);
        lemma_concat_associative(p3, VarIntCountedArray::<TagSpec>::spec_serialize(m.entity_tags), rest);
        lemma_concat_associative(p2, VarIntCountedArray::<TagSpec>::spec_serialize(m.fluid_tags), t3);
        lemma_concat_associative(p1, VarIntCountedArray::<TagSpec>::spec_serialize(m.item_tags), t2);
        VarIntCountedArray::<TagSpec>::lemma_round_trip(m.block_tags, t1);
        assert(VarIntCountedArray::<TagSpec>::spec_deserialize(Self::spec_serialize(m) + rest) == Ok::<(<VarIntCountedArray<TagSpec> as Codec>::Model, Seq<u8>), DeserializeErr>((m.block_tags, t1)));
        VarIntCountedArray::<TagSpec>::lemma_round_trip(m.item_tags, t2);
        assert(VarIntCountedArray::<TagSpec>::spec_deserialize(t1) == Ok::<(<VarIntCountedArray<TagSpec> as Codec>::Model, Seq<u8>), DeserializeErr>((m.item_tags, t2)));
        VarIntCountedArray::<TagSpec>::lemma_round_trip(m.fluid_tags, t3);
        assert(VarIntCountedArray::<TagSpec>::spec_deserialize(t2) == Ok::<(<VarIntCountedArray<TagSpec> as Codec>::Model, Seq<u8>), DeserializeErr>((m.fluid_tags, t3)));
        VarIntCountedArray::<TagSpec>::lemma_round_trip(m.entity_tags, rest);
        assert(VarIntCountedArray::<TagSpec>::spec_deserialize(t3) == Ok::<(<VarIntCountedArray<TagSpec> as Codec>::Model, Seq<u8>), DeserializeErr>((m.entity_tags, rest)));
    }

    fn mc_serialize(&self, to: &mut Vec<u8>) {
        let ghost start = to@;
        self.block_tags.mc_serialize(to);
        self.item_tags.mc_serialize(to);
        proof {
            lemma_concat_associative(start, VarIntCountedArray::<TagSpec>::spec_serialize(self.block_tags.model()), VarIntCountedArray::<TagSpec>::spec_serialize(self.item_tags.model()));
        }
        self.fluid_tags.mc_serialize(to);
        proof {
            lemma_concat_associative(start, VarIntCountedArray::<TagSpec>::spec_serialize(self.block_tags.model()) + VarIntCountedArray::<TagSpec>::spec_serialize(self.item_tags.model()), VarIntCountedArray::<TagSpec>::spec_serialize(self.fluid_tags.model()));
        }
        self.entity_tags.mc_serialize(to);
        proof {
            lemma_concat_associative(start, VarIntCountedArray::<TagSpec>::spec_serialize(self.block_tags.model()) + VarIntCountedArray::<TagSpec>::spec_serialize(self.item_tags.model()) + VarIntCountedArray::<TagSpec>::spec_serialize(self.fluid_tags.model()), VarIntCountedArray::<TagSpec>::spec_serialize(self.entity_tags.model()));
        }
        assert(to@ =~= start + Self::spec_serialize(self.model()));
    }

    fn mc_deserialize(data: &[u8]) -> (r: Result<(Self, &[u8]), DeserializeErr>) {
        let (block_tags, rest) = VarIntCountedArray::<TagSpec>::mc_deserialize(data)?;
        let (item_tags, rest) = VarIntCountedArray::<TagSpec>::mc_deserialize(rest)?;
        let (fluid_tags, rest) = VarIntCountedArray::<TagSpec>::mc_deserialize(rest)?;
        let (entity_tags, rest) = VarIntCountedArray::<TagSpec>::mc_deserialize(rest)?;
        Ok((PlayTagsSpec { block_tags, item_tags, fluid_tags, entity_tags }, rest))
    }
}

/// The body of the play teleport confirm message, as values.
pub struct PlayTeleportConfirmSpecModel {
    pub teleport_id: <VarInt as Codec>::Model,
}

/// The body of the play teleport confirm message
#[derive(Debug, Clone, PartialEq, Eq)]
pub struct PlayTeleportConfirmSpec {
    pub teleport_id: VarInt,
}

impl Codec for PlayTeleportConfirmSpec {
    type Model = PlayTeleportConfirmSpecModel;

    open spec fn model(&self) -> PlayTeleportConfirmSpecModel {
        PlayTeleportConfirmSpecModel { teleport_id: self.teleport_id.model() }
    }

    open spec fn encodable(m: PlayTeleportConfirmSpecModel) -> bool {
        VarInt::encodable(m.teleport_id)
    }

    open spec fn legal(m: PlayTeleportConfirmSpecModel) -> bool {
        VarInt::legal(m.teleport_id)
    }

    open spec fn spec_serialize(m: PlayTeleportConfirmSpecModel) -> Seq<u8> {
        VarInt::spec_serialize(m.teleport_id)
    }

    open spec fn spec_deserialize(s: Seq<u8>) -> SpecResult<PlayTeleportConfirmSpecModel> {
        match VarInt::spec_deserialize(s) {
            Err(e) => Err(e),
            Ok((teleport_id, r1)) => Ok((PlayTeleportConfirmSpecModel { teleport_id }, r1)),
        }
    }

    proof fn lemma_round_trip(m: PlayTeleportConfirmSpecModel, rest: Seq<u8>) {
        VarInt::lemma_round_trip(m.teleport_id, rest);
    }

    fn mc_serialize(&self, to: &mut Vec<u8>) {
        let ghost start = to@;
        self.teleport_id.mc_serialize(to);
        assert(to@ =~= start + Self::spec_serialize(self.model()));
    }

    fn mc_deserialize(data: &[u8]) -> (r: Result<(Self, &[u8]), DeserializeErr>) {
        let (teleport_id, rest) = VarInt::mc_deserialize(data)?;
        Ok((PlayTeleportConfirmSpec { teleport_id }, rest))
    }
}

/// The body of the play query block nbt message, as values.
pub struct PlayQueryBlockNbtSpecModel {
    pub transaction_id: <VarInt as Codec>::Model,
    pub location: <IntPosition as Codec>::Model,
}

/// The body of the play query block nbt message
#[derive(Debug, Clone, PartialEq, Eq)]
pub struct PlayQueryBlockNbtSpec {
    pub transaction_id: VarInt,
    pub location: IntPosition,
}

impl Codec for PlayQueryBlockNbtSpec {
    type Model = PlayQueryBlockNbtSpecModel;

    open spec fn model(&self) -> PlayQueryBlockNbtSpecModel {
        PlayQueryBlockNbtSpecModel { transaction_id: self.transaction_id.model(), location: self.location.model() }
    }

    open spec fn encodable(m: PlayQueryBlockNbtSpecModel) -> bool {
        VarInt::encodable(m.transaction_id) && IntPosition::encodable(m.location)
    }

    open spec fn legal(m: PlayQueryBlockNbtSpecModel) -> bool {
        VarInt::legal(m.transaction_id) && IntPosition::legal(m.location)
    }

    open spec fn spec_serialize(m: PlayQueryBlockNbtSpecModel) -> Seq<u8> {
        VarInt::spec_serialize(m.transaction_id) + IntPosition::spec_serialize(m.location)
    }

    open spec fn spec_deserialize(s: Seq<u8>) -> SpecResult<PlayQueryBlockNbtSpecModel> {
        match VarInt::spec_deserialize(s) {
            Err(e) => Err(e),
            Ok((transaction_id, r1)) => match IntPosition::spec_deserialize(r1) {
                Err(e) => Err(e),
                Ok((location, r2)) => Ok((PlayQueryBlockNbtSpecModel { transaction_id, location }, r2)),
            },
        }
    }

    proof fn lemma_round_trip(m: PlayQueryBlockNbtSpecModel, rest: Seq<u8>) {
        let t1 = IntPosition::spec_serialize(m.location) + rest;
        let p1 = VarInt::spec_serialize(m.transaction_id);
        let p2 = p1 + IntPosition::spec_serialize(m.location);
        assert(Self::spec_serialize(m) == p2);
        lemma_concat_associative(p1, IntPosition::spec_serialize(m.location), rest);
        VarInt::lemma_round_trip(m.transaction_id, t1);
        IntPosition::lemma_round_trip(m.location, rest);
    }

    fn mc_serialize(&self, to: &mut Vec<u8>) {
        let ghost start = to@;
        self.transaction_id.mc_serialize(to);
        self.location.mc_serialize(to);
        proof {
            lemma_concat_associative(start, VarInt::spec_serialize(self.transaction_id.model()), IntPosition::spec_serialize(self.location.model()));
        }
        assert(to@ =~= start + Self::spec_serialize(self.model()));
    }

    fn mc_deserialize(data: &[u8]) -> (r: Result<(Self, &[u8]), DeserializeErr>) {
        let (transaction_id, rest) = VarInt::mc_deserialize(data)?;
        let (location, rest) = IntPosition::mc_deserialize(rest)?;
        Ok((PlayQueryBlockNbtSpec { transaction_id, location }, rest))
    }
}

/// The body of the play query entity nbt message, as values.
pub struct PlayQueryEntityNbtSpecModel {
    pub transaction_id: <VarInt as Codec>::Model,
    pub entity_id: <VarInt as Codec>::Model,
}

/// The body of the play query entity nbt message
#[derive(Debug, Clone, PartialEq, Eq)]
pub struct PlayQueryEntityNbtSpec {
    pub transaction_id: VarInt,
    pub entity_id: VarInt,
}

impl Codec for PlayQueryEntityNbtSpec {
    type Model = PlayQueryEntityNbtSpecModel;

    open spec fn model(&self) -> PlayQueryEntityNbtSpecModel {
        PlayQueryEntityNbtSpecModel { transaction_id: self.transaction_id.model(), entity_id: self.entity_id.model() }
    }

    open spec fn encodable(m: PlayQueryEntityNbtSpecModel) -> bool {
        VarInt::encodable(m.transaction_id) && VarInt::encodable(m.entity_id)
    }

    open spec fn legal(m: PlayQueryEntityNbtSpecModel) -> bool {
        VarInt::legal(m.transaction_id) && VarInt::legal(m.entity_id)
    }

    open spec fn spec_serialize(m: PlayQueryEntityNbtSpecModel) -> Seq<u8> {
        VarInt::spec_serialize(m.transaction_id) + VarInt::spec_serialize(m.entity_id)
    }

    open spec fn spec_deserialize(s: Seq<u8>) -> SpecResult<PlayQueryEntityNbtSpecModel> {
        match VarInt::spec_deserialize(s) {
            Err(e) => Err(e),
            Ok((transaction_id, r1)) => match VarInt::spec_deserialize(r1) {
                Err(e) => Err(e),
                Ok((entity_id, r2)) => Ok((PlayQueryEntityNbtSpecModel { transaction_id, entity_id }, r2)),
            },
        }
    }

    proof fn lemma_round_trip(m: PlayQueryEntityNbtSpecModel, rest: Seq<u8>) {
        let t1 = VarInt::spec_serialize(m.entity_id) + rest;
        let p1 = VarInt::spec_serialize(m.transaction_id);
        let p2 = p1 + VarInt::spec_serialize(m.entity_id);
        assert(Self::spec_serialize(m) == p2);
        lemma_concat_associative(p1, VarInt::spec_serialize(m.entity_id), rest);
        VarInt::lemma_round_trip(m.transaction_id, t1);
        VarInt::lemma_round_trip(m.entity_id, rest);
    }

    fn mc_serialize(&self, to: &mut Vec<u8>) {
        let ghost start = to@;
        self.transaction_id.mc_serialize(to);
        self.entity_id.mc_serialize(to);
        proof {
            lemma_concat_associative(start, VarInt::spec_serialize(self.transaction_id.model()), VarInt::spec_serialize(self.entity_id.model()));
        }
        assert(to@ =~= start + Self::spec_serialize(self.model()));
    }

    fn mc_deserialize(data: &[u8]) -> (r: Result<(Self, &[u8]), DeserializeErr>) {
        let (transaction_id, rest) = VarInt::mc_deserialize(data)?;
        let (entity_id, rest) = VarInt::mc_deserialize(rest)?;
        Ok((PlayQueryEntityNbtSpec { transaction_id, entity_id }, rest))
    }
}

/// The body of the play set difficulty message, as values.
pub struct PlaySetDifficultySpecModel {
    pub new_difficulty: <Difficulty as Codec>::Model,
}

/// The body of the play set difficulty message
#[derive(Debug, Clone, PartialEq, Eq)]
pub struct PlaySetDifficultySpec {
    pub new_difficulty: Difficulty,
}

impl Codec for PlaySetDifficultySpec {
    type Model = PlaySetDifficultySpecModel;

    open spec fn model(&self) -> PlaySetDifficultySpecModel {
        PlaySetDifficultySpecModel { new_difficulty: self.new_difficulty.model() }
    }

    open spec fn encodable(m: PlaySetDifficultySpecModel) -> bool {
        Difficulty::encodable(m.new_difficulty)
    }

    open spec fn legal(m: PlaySetDifficultySpecModel) -> bool {
        Difficulty::legal(m.new_difficulty)
    }

    open spec fn spec_serialize(m: PlaySetDifficultySpecModel) -> Seq<u8> {
        Difficulty::spec_serialize(m.new_difficulty)
    }

    open spec fn spec_deserialize(s: Seq<u8>) -> SpecResult<PlaySetDifficultySpecModel> {
        match Difficulty::spec_deserialize(s) {
            Err(e) => Err(e),
            Ok((new_difficulty, r1)) => Ok((PlaySetDifficultySpecModel { new_difficulty }, r1)),
        }
    }

    proof fn lemma_round_trip(m: PlaySetDifficultySpecModel, rest: Seq<u8>) {
        Difficulty::lemma_round_trip(m.new_difficulty, rest);
    }

    fn mc_serialize(&self, to: &mut Vec<u8>) {
        let ghost start = to@;
        self.new_difficulty.mc_serialize(to);
        assert(to@ =~= start + Self::spec_serialize(self.model()));
    }

    fn mc_deserialize(data: &[u8]) -> (r: Result<(Self, &[u8]), DeserializeErr>) {
        let (new_difficulty, rest) = Difficulty::mc_deserialize(data)?;
        Ok((PlaySetDifficultySpec { new_difficulty }, rest))
    }
}

/// The body of the play client chat message message, as values.
pub struct PlayClientChatMessageSpecModel {
    pub message: <String as Codec>::Model,
}

/// The body of the play client chat message message
#[derive(Debug, Clone, PartialEq, Eq)]
pub struct PlayClientChatMessageSpec {
    pub message: String,
}

impl Codec for PlayClientChatMessageSpec {
    type Model = PlayClientChatMessageSpecModel;

    open spec fn model(&self) -> PlayClientChatMessageSpecModel {
        PlayClientChatMessageSpecModel { message: self.message.model() }
    }

    open spec fn encodable(m: PlayClientChatMessageSpecModel) -> bool {
        String::encodable(m.message)
    }

    open spec fn legal(m: PlayClientChatMessageSpecModel) -> bool {
        String::legal(m.message)
    }

    open spec fn spec_serialize(m: PlayClientChatMessageSpecModel) -> Seq<u8> {
        String::spec_serialize(m.message)
    }

    open spec fn spec_deserialize(s: Seq<u8>) -> SpecResult<PlayClientChatMessageSpecModel> {
        match String::spec_deserialize(s) {
            Err(e) => Err(e),
            Ok((message, r1)) => Ok((PlayClientChatMessageSpecModel { message }, r1)),
        }
    }

    proof fn lemma_round_trip(m: PlayClientChatMessageSpecModel, rest: Seq<u8>) {
        String::lemma_round_trip(m.message, rest);
    }

    fn mc_serialize(&self, to: &mut Vec<u8>) {
        let ghost start = to@;
        self.message.mc_serialize(to);
        assert(to@ =~= start + Self::spec_serialize(self.model()));
    }

    fn mc_deserialize(data: &[u8]) -> (r: Result<(Self, &[u8]), DeserializeErr>) {
        let (message, rest) = String::mc_deserialize(data)?;
        Ok((PlayClientChatMessageSpec { message }, rest))
    }
}

/// The body of the play client status message, as values.
pub struct PlayClientStatusSpecModel {
    pub action: <ClientStatusAction as Codec>::Model,
}

/// The body of the play client status message
#[derive(Debug, Clone, PartialEq, Eq)]
pub struct PlayClientStatusSpec {
    pub action: ClientStatusAction,
}

impl Codec for PlayClientStatusSpec {
    type Model = PlayClientStatusSpecModel;

    open spec fn model(&self) -> PlayClientStatusSpecModel {
        PlayClientStatusSpecModel { action: self.action.model() }
    }

    open spec fn encodable(m: PlayClientStatusSpecModel) -> bool {
        ClientStatusAction::encodable(m.action)
    }

    open spec fn legal(m: PlayClientStatusSpecModel) -> bool {
        ClientStatusAction::legal(m.action)
    }

    open spec fn spec_serialize(m: PlayClientStatusSpecModel) -> Seq<u8> {
        ClientStatusAction::spec_serialize(m.action)
    }

    open spec fn spec_deserialize(s: Seq<u8>) -> SpecResult<PlayClientStatusSpecModel> {
        match ClientStatusAction::spec_deserialize(s) {
            Err(e) => Err(e),
            Ok((action, r1)) => Ok((PlayClientStatusSpecModel { action }, r1)),
        }
    }

    proof fn lemma_round_trip(m: PlayClientStatusSpecModel, rest: Seq<u8>) {
        ClientStatusAction::lemma_round_trip(m.action, rest);
    }

    fn mc_serialize(&self, to: &mut Vec<u8>) {
        let ghost start = to@;
        self.action.mc_serialize(to);
        assert(to@ =~= start + Self::spec_serialize(self.model()));
    }

    fn mc_deserialize(data: &[u8]) -> (r: Result<(Self, &[u8]), DeserializeErr>) {
        let (action, rest) = ClientStatusAction::mc_deserialize(data)?;
        Ok((PlayClientStatusSpec { action }, rest))
    }
}

/// The body of the play client settings message, as values.
pub struct PlayClientSettingsSpecModel {
    pub locale: <String as Codec>::Model,
    pub view_distance: <i8 as Codec>::Model,
    pub chat_mode: <ClientChatMode as Codec>::Model,
    pub chat_colors: <bool as Codec>::Model,
    pub displayed_skin_parts: <ClientDisplayedSkinParts as Codec>::Model,
    pub main_hand: <ClientMainHand as Codec>::Model,
}

/// The body of the play client settings message
#[derive(Debug, Clone, PartialEq, Eq)]
pub struct PlayClientSettingsSpec {
    pub locale: String,
    pub view_distance: i8,
    pub chat_mode: ClientChatMode,
    pub chat_colors: bool,
    pub displayed_skin_parts: ClientDisplayedSkinParts,
    pub main_hand: ClientMainHand,
}

impl Codec for PlayClientSettingsSpec {
    type Model = PlayClientSettingsSpecModel;

    open spec fn model(&self) -> PlayClientSettingsSpecModel {
        PlayClientSettingsSpecModel { locale: self.locale.model(), view_distance: self.view_distance.model(), chat_mode: self.chat_mode.model(), chat_colors: self.chat_colors.model(), displayed_skin_parts: self.displayed_skin_parts.model(), main_hand: self.main_hand.model() }
    }

    open spec fn encodable(m: PlayClientSettingsSpecModel) -> bool {
        String::encodable(m.locale) && i8::encodable(m.view_distance) && ClientChatMode::encodable(m.chat_mode) && bool::encodable(m.chat_colors) && ClientDisplayedSkinParts::encodable(m.displayed_skin_parts) && ClientMainHand::encodable(m.main_hand)
    }

    open spec fn legal(m: PlayClientSettingsSpecModel) -> bool {
        String::legal(m.locale) && i8::legal(m.view_distance) && ClientChatMode::legal(m.chat_mode) && bool::legal(m.chat_colors) && ClientDisplayedSkinParts::legal(m.displayed_skin_parts) && ClientMainHand::legal(m.main_hand)
    }

    open spec fn spec_serialize(m: PlayClientSettingsSpecModel) -> Seq<u8> {
        String::spec_serialize(m.locale) + i8::spec_serialize(m.view_distance) + ClientChatMode::spec_serialize(m.chat_mode) + bool::spec_serialize(m.chat_colors) + ClientDisplayedSkinParts::spec_serialize(m.displayed_skin_parts) + ClientMainHand::spec_serialize(m.main_hand)
    }

    open spec fn spec_deserialize(s: Seq<u8>) -> SpecResult<PlayClientSettingsSpecModel> {
        match String::spec_deserialize(s) {
            Err(e) => Err(e),
            Ok((locale, r1)) => match i8::spec_deserialize(r1) {
                Err(e) => Err(e),
                Ok((view_distance, r2)) => match ClientChatMode::spec_deserialize(r2) {
                    Err(e) => Err(e),
                    Ok((chat_mode, r3)) => match bool::spec_deserialize(r3) {
                        Err(e) => Err(e),
                        Ok((chat_colors, r4)) => match ClientDisplayedSkinParts::spec_deserialize(r4) {
                            Err(e) => Err(e),
                            Ok((displayed_skin_parts, r5)) => match ClientMainHand::spec_deserialize(r5) {
                                Err(e) => Err(e),
                                Ok((main_hand, r6)) => Ok((PlayClientSettingsSpecModel { locale, view_distance, chat_mode, chat_colors, displayed_skin_parts, main_hand }, r6)),
                            },
                        },
                    },
                },
            },
        }
    }

    #[verifier::rlimit(100)]
    #[verifier::spinoff_prover]
    proof fn lemma_round_trip(m: PlayClientSettingsSpecModel, rest: Seq<u8>) {
        let t5 = ClientMainHand::spec_serialize(m.main_hand) + rest;
        let t4 = ClientDisplayedSkinParts::spec_serialize(m.displayed_skin_parts) + t5;
        let t3 = bool::spec_serialize(m.chat_colors) + t4;
        let t2 = ClientChatMode::spec_serialize(m.chat_mode) + t3;
        let t1 = i8::spec_serialize(m.view_distance) + t2;
        let p1 = String::spec_serialize(m.locale);
        let p2 = p1 + i8::spec_serialize(m.view_distance);
        let p3 = p2 + ClientChatMode::spec_serialize(m.chat_mode);
        let p4 = p3 + bool::spec_serialize(m.chat_colors);
        let p5 = p4 + ClientDisplayedSkinParts::spec_serialize(m.displayed_skin_parts);
        let p6 = p5 + ClientMainHand::spec_serialize(m.main_hand);
        assert(Self::spec_serialize(m) == p6);
        lemma_concat_associative(p5, ClientMainHand::spec_serialize(m.main_hand), rest);
        lemma_concat_associative(p4, ClientDisplayedSkinParts::spec_serialize(m.displayed_skin_parts), t5);
        lemma_concat_associative(p3, bool::spec_serialize(m.chat_colors), t4);
        lemma_concat_associative(p2, ClientChatMode::spec_serialize(m.chat_mode), t3);
        lemma_concat_associative(p1, i8::spec_serialize(m.view_distance), t2);
        String::lemma_round_trip(m.locale, t1);
        assert(String::spec_deserialize(Self::spec_serialize(m) + rest) == Ok::<(<String as Codec>::Model, Seq<u8>), DeserializeErr>((m.locale, t1)));
        i8::lemma_round_trip(m.view_distance, t2);
        assert(i8::spec_deserialize(t1) == Ok::<(<i8 as Codec>::Model, Seq<u8>), DeserializeErr>((m.view_distance, t2)));
        ClientChatMode::lemma_round_trip(m.chat_mode, t3);
        assert(ClientChatMode::spec_deserialize(t2) == Ok::<(<ClientChatMode as Codec>::Model, Seq<u8>), DeserializeErr>((m.chat_mode, t3)));
        bool::lemma_round_trip(m.chat_colors, t4);
        assert(bool::spec_deserialize(t3) == Ok::<(<bool as Codec>::Model, Seq<u8>), DeserializeErr>((m.chat_colors, t4)));
        ClientDisplayedSkinParts::lemma_round_trip(m.displayed_skin_parts, t5);
        assert(ClientDisplayedSkinParts::spec_deserialize(t4) == Ok::<(<ClientDisplayedSkinParts as Codec>::Model, Seq<u8>), DeserializeErr>((m.displayed_skin_parts, t5)));
        ClientMainHand::lemma_round_trip(m.main_hand, rest);
        assert(ClientMainHand::spec_deserialize(t5) == Ok::<(<ClientMainHand as Codec>::Model, Seq<u8>), DeserializeErr>((m.main_hand, rest)));
    }

    fn mc_serialize(&self, to: &mut Vec<u8>) {
        let ghost start = to@;
        self.locale.mc_serialize(to);
        self.view_distance.mc_serialize(to);
        proof {
            lemma_concat_associative(start, String::spec_serialize(self.locale.model()), i8::spec_serialize(self.view_distance.model()));
        }
        self.chat_mode.mc_serialize(to);
        proof {
            lemma_concat_associative(start, String::spec_serialize(self.locale.model()) + i8::spec_serialize(self.view_distance.model()), ClientChatMode::spec_serialize(self.chat_mode.model()));
        }
        self.chat_colors.mc_serialize(to);
        proof {
            lemma_concat_associative(start, String::spec_serialize(self.locale.model()) + i8::spec_serialize(self.view_distance.model()) + ClientChatMode::spec_serialize(self.chat_mode.model()), bool::spec_serialize(self.chat_colors.model()));
        }
        self.displayed_skin_parts.mc_serialize(to);
        proof {
            lemma_concat_associative(start, String::spec_serialize(self.locale.model()) + i8::spec_serialize(self.view_distance.model()) + ClientChatMode::spec_serialize(self.chat_mode.model()) + bool::spec_serialize(self.chat_colors.model()), ClientDisplayedSkinParts::spec_serialize(self.displayed_skin_parts.model()));
        }
        self.main_hand.mc_serialize(to);
        proof {
            lemma_concat_associative(start, String::spec_serialize(self.locale.model()) + i8::spec_serialize(self.view_distance.model()) + ClientChatMode::spec_serialize(self.chat_mode.model()) + bool::spec_serialize(self.chat_colors.model()) + ClientDisplayedSkinParts::spec_serialize(self.displayed_skin_parts.model()), ClientMainHand::spec_serialize(self.main_hand.model()));
        }
        assert(to@ =~= start + Self::spec_serialize(self.model()));
    }

    fn mc_deserialize(data: &[u8]) -> (r: Result<(Self, &[u8]), DeserializeErr>) {
        let (locale, rest) = String::mc_deserialize(data)?;
        let (view_distance, rest) = i8::mc_deserialize(rest)?;
        let (chat_mode, rest) = ClientChatMode::mc_deserialize(rest)?;
        let (chat_colors, rest) = bool::mc_deserialize(rest)?;
        let (displayed_skin_parts, rest) = ClientDisplayedSkinParts::mc_deserialize(rest)?;
        let (main_hand, rest) = ClientMainHand::mc_deserialize(rest)?;
        Ok((PlayClientSettingsSpec { locale, view_distance, chat_mode, chat_colors, displayed_skin_parts, main_hand }, rest))
    }
}

/// The body of the play client tab complete message, as values.
pub struct PlayClientTabCompleteSpecModel {
    pub transaction_id: <VarInt as Codec>::Model,
    pub text: <String as Codec>::Model,
}

/// The body of the play client tab complete message
#[derive(Debug, Clone, PartialEq, Eq)]
pub struct PlayClientTabCompleteSpec {
    pub transaction_id: VarInt,
    pub text: String,
}

impl Codec for PlayClientTabCompleteSpec {
    type Model = PlayClientTabCompleteSpecModel;

    open spec fn model(&self) -> PlayClientTabCompleteSpecModel {
        PlayClientTabCompleteSpecModel { transaction_id: self.transaction_id.model(), text: self.text.model() }
    }

    open spec fn encodable(m: PlayClientTabCompleteSpecModel) -> bool {
        VarInt::encodable(m.transaction_id) && String::encodable(m.text)
    }

    open spec fn legal(m: PlayClientTabCompleteSpecModel) -> bool {
        VarInt::legal(m.transaction_id) && String::legal(m.text)
    }

    open spec fn spec_serialize(m: PlayClientTabCompleteSpecModel) -> Seq<u8> {
        VarInt::spec_serialize(m.transaction_id) + String::spec_serialize(m.text)
    }

    open spec fn spec_deserialize(s: Seq<u8>) -> SpecResult<PlayClientTabCompleteSpecModel> {
        match VarInt::spec_deserialize(s) {
            Err(e) => Err(e),
            Ok((transaction_id, r1)) => match String::spec_deserialize(r1) {
                Err(e) => Err(e),
                Ok((text, r2)) => Ok((PlayClientTabCompleteSpecModel { transaction_id, text }, r2)),
            },
        }
    }

    proof fn lemma_round_trip(m: PlayClientTabCompleteSpecModel, rest: Seq<u8>) {
        let t1 = String::spec_serialize(m.text) + rest;
        let p1 = VarInt::spec_serialize(m.transaction_id);
        let p2 = p1 + String::spec_serialize(m.text);
        assert(Self::spec_serialize(m) == p2);
        lemma_concat_associative(p1, String::spec_serialize(m.text), rest);
        VarInt::lemma_round_trip(m.transaction_id, t1);
        String::lemma_round_trip(m.text, rest);
    }

    fn mc_serialize(&self, to: &mut Vec<u8>) {
        let ghost start = to@;
        self.transaction_id.mc_serialize(to);
        self.text.mc_serialize(to);
        proof {
            lemma_concat_associative(start, VarInt::spec_serialize(self.transaction_id.model()), String::spec_serialize(self.text.model()));
        }
        assert(to@ =~= start + Self::spec_serialize(self.model()));
    }

    fn mc_deserialize(data: &[u8]) -> (r: Result<(Self, &[u8]), DeserializeErr>) {
        let (transaction_id, rest) = VarInt::mc_deserialize(data)?;
        let (text, rest) = String::mc_deserialize(rest)?;
        Ok((PlayClientTabCompleteSpec { transaction_id, text }, rest))
    }
}

/// The body of the play client window confirmation message, as values.
pub struct PlayClientWindowConfirmationSpecModel {
    pub window_id: <i8 as Codec>::Model,
    pub action_num: <i16 as Codec>::Model,
    pub accepted: <bool as Codec>::Model,
}

/// The body of the play client window confirmation message
#[derive(Debug, Clone, PartialEq, Eq)]
pub struct PlayClientWindowConfirmationSpec {
    pub window_id: i8,
    pub action_num: i16,
    pub accepted: bool,
}

impl Codec for PlayClientWindowConfirmationSpec {
    type Model = PlayClientWindowConfirmationSpecModel;

    open spec fn model(&self) -> PlayClientWindowConfirmationSpecModel {
        PlayClientWindowConfirmationSpecModel { window_id: self.window_id.model(), action_num: self.action_num.model(), accepted: self.accepted.model() }
    }

    open spec fn encodable(m: PlayClientWindowConfirmationSpecModel) -> bool {
        i8::encodable(m.window_id) && i16::encodable(m.action_num) && bool::encodable(m.accepted)
    }

    open spec fn legal(m: PlayClientWindowConfirmationSpecModel) -> bool {
        i8::legal(m.window_id) && i16::legal(m.action_num) && bool::legal(m.accepted)
    }

    open spec fn spec_serialize(m: PlayClientWindowConfirmationSpecModel) -> Seq<u8> {
        i8::spec_serialize(m.window_id) + i16::spec_serialize(m.action_num) + bool::spec_serialize(m.accepted)
    }

    open spec fn spec_deserialize(s: Seq<u8>) -> SpecResult<PlayClientWindowConfirmationSpecModel> {
        match i8::spec_deserialize(s) {
            Err(e) => Err(e),
            Ok((window_id, r1)) => match i16::spec_deserialize(r1) {
                Err(e) => Err(e),
                Ok((action_num, r2)) => match bool::spec_deserialize(r2) {
                    Err(e) => Err(e),
                    Ok((accepted, r3)) => Ok((PlayClientWindowConfirmationSpecModel { window_id, action_num, accepted }, r3)),
                },
            },
        }
    }

    proof fn lemma_round_trip(m: PlayClientWindowConfirmationSpecModel, rest: Seq<u8>) {
        let t2 = bool::spec_serialize(m.accepted) + rest;
        let t1 = i16::spec_serialize(m.action_num) + t2;
        let p1 = i8::spec_serialize(m.window_id);
        let p2 = p1 + i16::spec_serialize(m.action_num);
        let p3 = p2 + bool::spec_serialize(m.accepted);
        assert(Self::spec_serialize(m) == p3);
        lemma_concat_associative(p2, bool::spec_serialize(m.accepted), rest);
        lemma_concat_associative(p1, i16::spec_serialize(m.action_num), t2);
        i8::lemma_round_trip(m.window_id, t1);
        i16::lemma_round_trip(m.action_num, t2);
        bool::lemma_round_trip(m.accepted, rest);
    }

    fn mc_serialize(&self, to: &mut Vec<u8>) {
        let ghost start = to@;
        self.window_id.mc_serialize(to);
        self.action_num.mc_serialize(to);
        proof {
            lemma_concat_associative(start, i8::spec_serialize(self.window_id.model()), i16::spec_serialize(self.action_num.model()));
        }
        self.accepted.mc_serialize(to);
        proof {
            lemma_concat_associative(start, i8::spec_serialize(self.window_id.model()) + i16::spec_serialize(self.action_num.model()), bool::spec_serialize(self.accepted.model()));
        }
        assert(to@ =~= start + Self::spec_serialize(self.model()));
    }

    fn mc_deserialize(data: &[u8]) -> (r: Result<(Self, &[u8]), DeserializeErr>) {
        let (window_id, rest) = i8::mc_deserialize(data)?;
        let (action_num, rest) = i16::mc_deserialize(rest)?;
        let (accepted, rest) = bool::mc_deserialize(rest)?;
        Ok((PlayClientWindowConfirmationSpec { window_id, action_num, accepted }, rest))
    }
}

/// The body of the play click window button message, as values.
pub struct PlayClickWindowButtonSpecModel {
    pub window_id: <i8 as Codec>::Model,
    pub button_id: <i8 as Codec>::Model,
}

/// The body of the play click window button message
#[derive(Debug, Clone, PartialEq, Eq)]
pub struct PlayClickWindowButtonSpec {
    pub window_id: i8,
    pub button_id: i8,
}

impl Codec for PlayClickWindowButtonSpec {
    type Model = PlayClickWindowButtonSpecModel;

    open spec fn model(&self) -> PlayClickWindowButtonSpecModel {
        PlayClickWindowButtonSpecModel { window_id: self.window_id.model(), button_id: self.button_id.model() }
    }

    open spec fn encodable(m: PlayClickWindowButtonSpecModel) -> bool {
        i8::encodable(m.window_id) && i8::encodable(m.button_id)
    }

    open spec fn legal(m: PlayClickWindowButtonSpecModel) -> bool {
        i8::legal(m.window_id) && i8::legal(m.button_id)
    }

    open spec fn spec_serialize(m: PlayClickWindowButtonSpecModel) -> Seq<u8> {
        i8::spec_serialize(m.window_id) + i8::spec_serialize(m.button_id)
    }

    open spec fn spec_deserialize(s: Seq<u8>) -> SpecResult<PlayClickWindowButtonSpecModel> {
        match i8::spec_deserialize(s) {
            Err(e) => Err(e),
            Ok((window_id, r1)) => match i8::spec_deserialize(r1) {
                Err(e) => Err(e),
                Ok((button_id, r2)) => Ok((PlayClickWindowButtonSpecModel { window_id, button_id }, r2)),
            },
        }
    }

    proof fn lemma_round_trip(m: PlayClickWindowButtonSpecModel, rest: Seq<u8>) {
        let t1 = i8::spec_serialize(m.button_id) + rest;
        let p1 = i8::spec_serialize(m.window_id);
        let p2 = p1 + i8::spec_serialize(m.button_id);
        assert(Self::spec_serialize(m) == p2);
        lemma_concat_associative(p1, i8::spec_serialize(m.button_id), rest);
        i8::lemma_round_trip(m.window_id, t1);
        i8::lemma_round_trip(m.button_id, rest);
    }

    fn mc_serialize(&self, to: &mut Vec<u8>) {
        let ghost start = to@;
        self.window_id.mc_serialize(to);
        self.button_id.mc_serialize(to);
        proof {
            lemma_concat_associative(start, i8::spec_serialize(self.window_id.model()), i8::spec_serialize(self.button_id.model()));
        }
        assert(to@ =~= start + Self::spec_serialize(self.model()));
    }

    fn mc_deserialize(data: &[u8]) -> (r: Result<(Self, &[u8]), DeserializeErr>) {
        let (window_id, rest) = i8::mc_deserialize(data)?;
        let (button_id, rest) = i8::mc_deserialize(rest)?;
        Ok((PlayClickWindowButtonSpec { window_id, button_id }, rest))
    }
}

/// The body of the play click window message, as values.
pub struct PlayClickWindowSpecModel {
    pub window_id: <u8 as Codec>::Model,
    pub slot: <i16 as Codec>::Model,
    pub button: <i8 as Codec>::Model,
    pub action_number: <i16 as Codec>::Model,
    pub mode: <InventoryOperationMode as Codec>::Model,
    pub clicked_item: <Option<Slot> as Codec>::Model,
}

/// The body of the play click window message
#[derive(Debug, Clone, PartialEq, Eq)]
pub struct PlayClickWindowSpec {
    pub window_id: u8,
    pub slot: i16,
    pub button: i8,
    pub action_number: i16,
    pub mode: InventoryOperationMode,
    pub clicked_item: Option<Slot>,
}

impl Codec for PlayClickWindowSpec {
    type Model = PlayClickWindowSpecModel;

    open spec fn model(&self) -> PlayClickWindowSpecModel {
        PlayClickWindowSpecModel { window_id: self.window_id.model(), slot: self.slot.model(), button: self.button.model(), action_number: self.action_number.model(), mode: self.mode.model(), clicked_item: self.clicked_item.model() }
    }

    open spec fn encodable(m: PlayClickWindowSpecModel) -> bool {
        u8::encodable(m.window_id) && i16::encodable(m.slot) && i8::encodable(m.button) && i16::encodable(m.action_number) && InventoryOperationMode::encodable(m.mode) && Option::<Slot>::encodable(m.clicked_item)
    }

    open spec fn legal(m: PlayClickWindowSpecModel) -> bool {
        u8::legal(m.window_id) && i16::legal(m.slot) && i8::legal(m.button) && i16::legal(m.action_number) && InventoryOperationMode::legal(m.mode) && Option::<Slot>::legal(m.clicked_item)
    }

    open spec fn spec_serialize(m: PlayClickWindowSpecModel) -> Seq<u8> {
        u8::spec_serialize(m.window_id) + i16::spec_serialize(m.slot) + i8::spec_serialize(m.button) + i16::spec_serialize(m.action_number) + InventoryOperationMode::spec_serialize(m.mode) + Option::<Slot>::spec_serialize(m.clicked_item)
    }

    open spec fn spec_deserialize(s: Seq<u8>) -> SpecResult<PlayClickWindowSpecModel> {
        match u8::spec_deserialize(s) {
            Err(e) => Err(e),
            Ok((window_id, r1)) => match i16::spec_deserialize(r1) {
                Err(e) => Err(e),
                Ok((slot, r2)) => match i8::spec_deserialize(r2) {
                    Err(e) => Err(e),
                    Ok((button, r3)) => match i16::spec_deserialize(r3) {
                        Err(e) => Err(e),
                        Ok((action_number, r4)) => match InventoryOperationMode::spec_deserialize(r4) {
                            Err(e) => Err(e),
                            Ok((mode, r5)) => match Option::<Slot>::spec_deserialize(r5) {
                                Err(e) => Err(e),
                                Ok((clicked_item, r6)) => Ok((PlayClickWindowSpecModel { window_id, slot, button, action_number, mode, clicked_item }, r6)),
                            },
                        },
                    },
                },
            },
        }
    }

    #[verifier::rlimit(100)]
    #[verifier::spinoff_prover]
    proof fn lemma_round_trip(m: PlayClickWindowSpecModel, rest: Seq<u8>) {
        let t5 = Option::<Slot>::spec_serialize(m.clicked_item) + rest;
        let t4 = InventoryOperationMode::spec_serialize(m.mode) + t5;
        let t3 = i16::spec_serialize(m.action_number) + t4;
        let t2 = i8::spec_serialize(m.button) + t3;
        let t1 = i16::spec_serialize(m.slot) + t2;
        let p1 = u8::spec_serialize(m.window_id);
        let p2 = p1 + i16::spec_serialize(m.slot);
        let p3 = p2 + i8::spec_serialize(m.button);
        let p4 = p3 + i16::spec_serialize(m.action_number);
        let p5 = p4 + InventoryOperationMode::spec_serialize(m.mode);
        let p6 = p5 + Option::<Slot>::spec_serialize(m.clicked_item);
        assert(Self::spec_serialize(m) == p6);
        lemma_concat_associative(p5, Option::<Slot>::spec_serialize(m.clicked_item), rest);
        lemma_concat_associative(p4, InventoryOperationMode::spec_serialize(m.mode), t5);
        lemma_concat_associative(p3, i16::spec_serialize(m.action_number), t4);
        lemma_concat_associative(p2, i8::spec_serialize(m.button), t3);
        lemma_concat_associative(p1, i16::spec_serialize(m.slot), t2);
        u8::lemma_round_trip(m.window_id, t1);
        assert(u8::spec_deserialize(Self::spec_serialize(m) + rest) == Ok::<(<u8 as Codec>::Model, Seq<u8>), DeserializeErr>((m.window_id, t1)));
        i16::lemma_round_trip(m.slot, t2);
        assert(i16::spec_deserialize(t1) == Ok::<(<i16 as Codec>::Model, Seq<u8>), DeserializeErr>((m.slot, t2)));
        i8::lemma_round_trip(m.button, t3);
        assert(i8::spec_deserialize(t2) == Ok::<(<i8 as Codec>::Model, Seq<u8>), DeserializeErr>((m.button, t3)));
        i16::lemma_round_trip(m.action_number, t4);
        assert(i16::spec_deserialize(t3) == Ok::<(<i16 as Codec>::Model, Seq<u8>), DeserializeErr>((m.action_number, t4)));
        InventoryOperationMode::lemma_round_trip(m.mode, t5);
        assert(InventoryOperationMode::spec_deserialize(t4) == Ok::<(<InventoryOperationMode as Codec>::Model, Seq<u8>), DeserializeErr>((m.mode, t5)));
        Option::<Slot>::lemma_round_trip(m.clicked_item, rest);
        assert(Option::<Slot>::spec_deserialize(t5) == Ok::<(<Option<Slot> as Codec>::Model, Seq<u8>), DeserializeErr>((m.clicked_item, rest)));
    }

    fn mc_serialize(&self, to: &mut Vec<u8>) {
        let ghost start = to@;
        self.window_id.mc_serialize(to);
        self.slot.mc_serialize(to);
        proof {
            lemma_concat_associative(start, u8::spec_serialize(self.window_id.model()), i16::spec_serialize(self.slot.model()));
        }
        self.button.mc_serialize(to);
        proof {
            lemma_concat_associative(start, u8::spec_serialize(self.window_id.model()) + i16::spec_serialize(self.slot.model()), i8::spec_serialize(self.button.model()));
        }
        self.action_number.mc_serialize(to);
        proof {
            lemma_concat_associative(start, u8::spec_serialize(self.window_id.model()) + i16::spec_serialize(self.slot.model()) + i8::spec_serialize(self.button.model()), i16::spec_serialize(self.action_number.model()));
        }
        self.mode.mc_serialize(to);
        proof {
            lemma_concat_associative(start, u8::spec_serialize(self.window_id.model()) + i16::spec_serialize(self.slot.model()) + i8::spec_serialize(self.button.model()) + i16::spec_serialize(self.action_number.model()), InventoryOperationMode::spec_serialize(self.mode.model()));
        }
        self.clicked_item.mc_serialize(to);
        proof {
            lemma_concat_associative(start, u8::spec_serialize(self.window_id.model()) + i16::spec_serialize(self.slot.model()) + i8::spec_serialize(self.button.model()) + i16::spec_serialize(self.action_number.model()) + InventoryOperationMode::spec_serialize(self.mode.model()), Option::<Slot>::spec_serialize(self.clicked_item.model()));
        }
        assert(to@ =~= start + Self::spec_serialize(self.model()));
    }

    fn mc_deserialize(data: &[u8]) -> (r: Result<(Self, &[u8]), DeserializeErr>) {
        let (window_id, rest) = u8::mc_deserialize(data)?;
        let (slot, rest) = i16::mc_deserialize(rest)?;
        let (button, rest) = i8::mc_deserialize(rest)?;
        let (action_number, rest) = i16::mc_deserialize(rest)?;
        let (mode, rest) = InventoryOperationMode::mc_deserialize(rest)?;
        let (clicked_item, rest) = Option::<Slot>::mc_deserialize(rest)?;
        Ok((PlayClickWindowSpec { window_id, slot, button, action_number, mode, clicked_item }, rest))
    }
}

/// The body of the play client close window message, as values.
pub struct PlayClientCloseWindowSpecModel {
    pub window_id: <u8 as Codec>::Model,
}

/// The body of the play client close window message
#[derive(Debug, Clone, PartialEq, Eq)]
pub struct PlayClientCloseWindowSpec {
    pub window_id: u8,
}

impl Codec for PlayClientCloseWindowSpec {
    type Model = PlayClientCloseWindowSpecModel;

    open spec fn model(&self) -> PlayClientCloseWindowSpecModel {
        PlayClientCloseWindowSpecModel { window_id: self.window_id.model() }
    }

    open spec fn encodable(m: PlayClientCloseWindowSpecModel) -> bool {
        u8::encodable(m.window_id)
    }

    open spec fn legal(m: PlayClientCloseWindowSpecModel) -> bool {
        u8::legal(m.window_id)
    }

    open spec fn spec_serialize(m: PlayClientCloseWindowSpecModel) -> Seq<u8> {
        u8::spec_serialize(m.window_id)
    }

    open spec fn spec_deserialize(s: Seq<u8>) -> SpecResult<PlayClientCloseWindowSpecModel> {
        match u8::spec_deserialize(s) {
            Err(e) => Err(e),
            Ok((window_id, r1)) => Ok((PlayClientCloseWindowSpecModel { window_id }, r1)),
        }
    }

    proof fn lemma_round_trip(m: PlayClientCloseWindowSpecModel, rest: Seq<u8>) {
        u8::lemma_round_trip(m.window_id, rest);
    }

    fn mc_serialize(&self, to: &mut Vec<u8>) {
        let ghost start = to@;
        self.window_id.mc_serialize(to);
        assert(to@ =~= start + Self::spec_serialize(self.model()));
    }

    fn mc_deserialize(data: &[u8]) -> (r: Result<(Self, &[u8]), DeserializeErr>) {
        let (window_id, rest) = u8::mc_deserialize(data)?;
        Ok((PlayClientCloseWindowSpec { window_id }, rest))
    }
}

/// The body of the play client plugin message message, as values.
pub struct PlayClientPluginMessageSpecModel {
    pub channel: <String as Codec>::Model,
    pub data: Seq<u8>,
}

/// The body of the play client plugin message message. The last field takes every remaining byte.
#[derive(Debug, Clone, PartialEq, Eq)]
pub struct PlayClientPluginMessageSpec {
    pub channel: String,
    pub data: RemainingBytes,
}

impl PlayClientPluginMessageSpec {
    pub open spec fn spec_model(&self) -> PlayClientPluginMessageSpecModel {
        PlayClientPluginMessageSpecModel { channel: self.channel.model(), data: self.data.data@ }
    }

    pub open spec fn legal(m: PlayClientPluginMessageSpecModel) -> bool {
        String::legal(m.channel)
    }

    pub open spec fn encodable(m: PlayClientPluginMessageSpecModel) -> bool {
        String::encodable(m.channel)
    }

    pub open spec fn spec_serialize(m: PlayClientPluginMessageSpecModel) -> Seq<u8> {
        String::spec_serialize(m.channel) + m.data
    }

    /// The fields in order; the last takes all that is left.
    pub open spec fn spec_deserialize(s: Seq<u8>) -> SpecResult<PlayClientPluginMessageSpecModel> {
        match String::spec_deserialize(s) {
            Err(e) => Err(e),
            Ok((channel, r1)) => Ok((PlayClientPluginMessageSpecModel { channel, data: r1 }, Seq::empty())),
        }
    }

    /// A body reads back from its own encoding.
    #[verifier::rlimit(100)]
    #[verifier::spinoff_prover]
    pub proof fn lemma_round_trip(m: PlayClientPluginMessageSpecModel)
        requires
            Self::legal(m),
        ensures
            Self::encodable(m),
            Self::spec_deserialize(Self::spec_serialize(m)) == Ok::<(PlayClientPluginMessageSpecModel, Seq<u8>), DeserializeErr>(
                (m, Seq::empty()),
            ),
    {
        assert(Self::spec_serialize(m) =~= String::spec_serialize(m.channel) + m.data);
        String::lemma_round_trip(m.channel, m.data);
    }

    pub fn mc_serialize(&self, to: &mut Vec<u8>)
        requires
            Self::encodable(self.spec_model()),
        ensures
            final(to)@ == old(to)@ + Self::spec_serialize(self.spec_model()),
    {
        let ghost start = to@;
        self.channel.mc_serialize(to);
        self.data.mc_serialize(to);
        assert(to@ =~= start + Self::spec_serialize(self.spec_model()));
    }

    pub fn mc_deserialize(data: &[u8]) -> (r: Result<(PlayClientPluginMessageSpec, &[u8]), DeserializeErr>)
        ensures
            read_matches(r, |v: PlayClientPluginMessageSpec| v.spec_model(), Self::spec_deserialize(data@)),
    {
        let (channel, rest) = String::mc_deserialize(data)?;
        let (data, rest) = RemainingBytes::mc_deserialize(rest)?;
        assert(rest@ =~= Seq::<u8>::empty());
        Ok((PlayClientPluginMessageSpec { channel, data }, rest))
    }
}

/// The body of the play edit book message, as values.
pub struct PlayEditBookSpecModel {
    pub new_book: <Option<Slot> as Codec>::Model,
    pub is_signing: <bool as Codec>::Model,
    pub hand: <Hand as Codec>::Model,
}

/// The body of the play edit book message
#[derive(Debug, Clone, PartialEq, Eq)]
pub struct PlayEditBookSpec {
    pub new_book: Option<Slot>,
    pub is_signing: bool,
    pub hand: Hand,
}

impl Codec for PlayEditBookSpec {
    type Model = PlayEditBookSpecModel;

    open spec fn model(&self) -> PlayEditBookSpecModel {
        PlayEditBookSpecModel { new_book: self.new_book.model(), is_signing: self.is_signing.model(), hand: self.hand.model() }
    }

    open spec fn encodable(m: PlayEditBookSpecModel) -> bool {
        Option::<Slot>::encodable(m.new_book) && bool::encodable(m.is_signing) && Hand::encodable(m.hand)
    }

    open spec fn legal(m: PlayEditBookSpecModel) -> bool {
        Option::<Slot>::legal(m.new_book) && bool::legal(m.is_signing) && Hand::legal(m.hand)
    }

    open spec fn spec_serialize(m: PlayEditBookSpecModel) -> Seq<u8> {
        Option::<Slot>::spec_serialize(m.new_book) + bool::spec_serialize(m.is_signing) + Hand::spec_serialize(m.hand)
    }

    open spec fn spec_deserialize(s: Seq<u8>) -> SpecResult<PlayEditBookSpecModel> {
        match Option::<Slot>::spec_deserialize(s) {
            Err(e) => Err(e),
            Ok((new_book, r1)) => match bool::spec_deserialize(r1) {
                Err(e) => Err(e),
                Ok((is_signing, r2)) => match Hand::spec_deserialize(r2) {
                    Err(e) => Err(e),
                    Ok((hand, r3)) => Ok((PlayEditBookSpecModel { new_book, is_signing, hand }, r3)),
                },
            },
        }
    }

    proof fn lemma_round_trip(m: PlayEditBookSpecModel, rest: Seq<u8>) {
        let t2 = Hand::spec_serialize(m.hand) + rest;
        let t1 = bool::spec_serialize(m.is_signing) + t2;
        let p1 = Option::<Slot>::spec_serialize(m.new_book);
        let p2 = p1 + bool::spec_serialize(m.is_signing);
        let p3 = p2 + Hand::spec_serialize(m.hand);
        assert(Self::spec_serialize(m) == p3);
        lemma_concat_associative(p2, Hand::spec_serialize(m.hand), rest);
        lemma_concat_associative(p1, bool::spec_serialize(m.is_signing), t2);
        Option::<Slot>::lemma_round_trip(m.new_book, t1);
        bool::lemma_round_trip(m.is_signing, t2);
        Hand::lemma_round_trip(m.hand, rest);
    }

    fn mc_serialize(&self, to: &mut Vec<u8>) {
        let ghost start = to@;
        self.new_book.mc_serialize(to);
        self.is_signing.mc_serialize(to);
        proof {
            lemma_concat_associative(start, Option::<Slot>::spec_serialize(self.new_book.model()), bool::spec_serialize(self.is_signing.model()));
        }
        self.hand.mc_serialize(to);
        proof {
            lemma_concat_associative(start, Option::<Slot>::spec_serialize(self.new_book.model()) + bool::spec_serialize(self.is_signing.model()), Hand::spec_serialize(self.hand.model()));
        }
        assert(to@ =~= start + Self::spec_serialize(self.model()));
    }

    fn mc_deserialize(data: &[u8]) -> (r: Result<(Self, &[u8]), DeserializeErr>) {
        let (new_book, rest) = Option::<Slot>::mc_deserialize(data)?;
        let (is_signing, rest) = bool::mc_deserialize(rest)?;
        let (hand, rest) = Hand::mc_deserialize(rest)?;
        Ok((PlayEditBookSpec { new_book, is_signing, hand }, rest))
    }
}

/// The body of the play interact entity message, as values.
pub struct PlayInteractEntitySpecModel {
    pub entity_id: <VarInt as Codec>::Model,
    pub kind: <InteractKind as Codec>::Model,
}

/// The body of the play interact entity message
#[derive(Debug, Clone, PartialEq, Eq)]
pub struct PlayInteractEntitySpec {
    pub entity_id: VarInt,
    pub kind: InteractKind,
}

impl Codec for PlayInteractEntitySpec {
    type Model = PlayInteractEntitySpecModel;

    open spec fn model(&self) -> PlayInteractEntitySpecModel {
        PlayInteractEntitySpecModel { entity_id: self.entity_id.model(), kind: self.kind.model() }
    }

    open spec fn encodable(m: PlayInteractEntitySpecModel) -> bool {
        VarInt::encodable(m.entity_id) && InteractKind::encodable(m.kind)
    }

    open spec fn legal(m: PlayInteractEntitySpecModel) -> bool {
        VarInt::legal(m.entity_id) && InteractKind::legal(m.kind)
    }

    open spec fn spec_serialize(m: PlayInteractEntitySpecModel) -> Seq<u8> {
        VarInt::spec_serialize(m.entity_id) + InteractKind::spec_serialize(m.kind)
    }

    open spec fn spec_deserialize(s: Seq<u8>) -> SpecResult<PlayInteractEntitySpecModel> {
        match VarInt::spec_deserialize(s) {
            Err(e) => Err(e),
            Ok((entity_id, r1)) => match InteractKind::spec_deserialize(r1) {
                Err(e) => Err(e),
                Ok((kind, r2)) => Ok((PlayInteractEntitySpecModel { entity_id, kind }, r2)),
            },
        }
    }

    proof fn lemma_round_trip(m: PlayInteractEntitySpecModel, rest: Seq<u8>) {
        let t1 = InteractKind::spec_serialize(m.kind) + rest;
        let p1 = VarInt::spec_serialize(m.entity_id);
        let p2 = p1 + InteractKind::spec_serialize(m.kind);
        assert(Self::spec_serialize(m) == p2);
        lemma_concat_associative(p1, InteractKind::spec_serialize(m.kind), rest);
        VarInt::lemma_round_trip(m.entity_id, t1);
        InteractKind::lemma_round_trip(m.kind, rest);
    }

    fn mc_serialize(&self, to: &mut Vec<u8>) {
        let ghost start = to@;
        self.entity_id.mc_serialize(to);
        self.kind.mc_serialize(to);
        proof {
            lemma_concat_associative(start, VarInt::spec_serialize(self.entity_id.model()), InteractKind::spec_serialize(self.kind.model()));
        }
        assert(to@ =~= start + Self::spec_serialize(self.model()));
    }

    fn mc_deserialize(data: &[u8]) -> (r: Result<(Self, &[u8]), DeserializeErr>) {
        let (entity_id, rest) = VarInt::mc_deserialize(data)?;
        let (kind, rest) = InteractKind::mc_deserialize(rest)?;
        Ok((PlayInteractEntitySpec { entity_id, kind }, rest))
    }
}

/// The body of the play client keep alive message, as values.
pub struct PlayClientKeepAliveSpecModel {
    pub id: <i64 as Codec>::Model,
}

/// The body of the play client keep alive message
#[derive(Debug, Clone, PartialEq, Eq)]
pub struct PlayClientKeepAliveSpec {
    pub id: i64,
}

impl Codec for PlayClientKeepAliveSpec {
    type Model = PlayClientKeepAliveSpecModel;

    open spec fn model(&self) -> PlayClientKeepAliveSpecModel {
        PlayClientKeepAliveSpecModel { id: self.id.model() }
    }

    open spec fn encodable(m: PlayClientKeepAliveSpecModel) -> bool {
        i64::encodable(m.id)
    }

    open spec fn legal(m: PlayClientKeepAliveSpecModel) -> bool {
        i64::legal(m.id)
    }

    open spec fn spec_serialize(m: PlayClientKeepAliveSpecModel) -> Seq<u8> {
        i64::spec_serialize(m.id)
    }

    open spec fn spec_deserialize(s: Seq<u8>) -> SpecResult<PlayClientKeepAliveSpecModel> {
        match i64::spec_deserialize(s) {
            Err(e) => Err(e),
            Ok((id, r1)) => Ok((PlayClientKeepAliveSpecModel { id }, r1)),
        }
    }

    proof fn lemma_round_trip(m: PlayClientKeepAliveSpecModel, rest: Seq<u8>) {
        i64::lemma_round_trip(m.id, rest);
    }

    fn mc_serialize(&self, to: &mut Vec<u8>) {
        let ghost start = to@;
        self.id.mc_serialize(to);
        assert(to@ =~= start + Self::spec_serialize(self.model()));
    }

    fn mc_deserialize(data: &[u8]) -> (r: Result<(Self, &[u8]), DeserializeErr>) {
        let (id, rest) = i64::mc_deserialize(data)?;
        Ok((PlayClientKeepAliveSpec { id }, rest))
    }
}

/// The body of the play lock difficulty message, as values.
pub struct PlayLockDifficultySpecModel {
    pub locked: <bool as Codec>::Model,
}

/// The body of the play lock difficulty message
#[derive(Debug, Clone, PartialEq, Eq)]
pub struct PlayLockDifficultySpec {
    pub locked: bool,
}

impl Codec for PlayLockDifficultySpec {
    type Model = PlayLockDifficultySpecModel;

    open spec fn model(&self) -> PlayLockDifficultySpecModel {
        PlayLockDifficultySpecModel { locked: self.locked.model() }
    }

    open spec fn encodable(m: PlayLockDifficultySpecModel) -> bool {
        bool::encodable(m.locked)
    }

    open spec fn legal(m: PlayLockDifficultySpecModel) -> bool {
        bool::legal(m.locked)
    }

    open spec fn spec_serialize(m: PlayLockDifficultySpecModel) -> Seq<u8> {
        bool::spec_serialize(m.locked)
    }

    open spec fn spec_deserialize(s: Seq<u8>) -> SpecResult<PlayLockDifficultySpecModel> {
        match bool::spec_deserialize(s) {
            Err(e) => Err(e),
            Ok((locked, r1)) => Ok((PlayLockDifficultySpecModel { locked }, r1)),
        }
    }

    proof fn lemma_round_trip(m: PlayLockDifficultySpecModel, rest: Seq<u8>) {
        bool::lemma_round_trip(m.locked, rest);
    }

    fn mc_serialize(&self, to: &mut Vec<u8>) {
        let ghost start = to@;
        self.locked.mc_serialize(to);
        assert(to@ =~= start + Self::spec_serialize(self.model()));
    }

    fn mc_deserialize(data: &[u8]) -> (r: Result<(Self, &[u8]), DeserializeErr>) {
        let (locked, rest) = bool::mc_deserialize(data)?;
        Ok((PlayLockDifficultySpec { locked }, rest))
    }
}

/// The body of the play player position message, as values.
pub struct PlayPlayerPositionSpecModel {
    pub x: <Float64 as Codec>::Model,
    pub feet_y: <Float64 as Codec>::Model,
    pub z: <Float64 as Codec>::Model,
    pub on_ground: <bool as Codec>::Model,
}

/// The body of the play player position message
#[derive(Debug, Clone, PartialEq, Eq)]
pub struct PlayPlayerPositionSpec {
    pub x: Float64,
    pub feet_y: Float64,
    pub z: Float64,
    pub on_ground: bool,
}

impl Codec for PlayPlayerPositionSpec {
    type Model = PlayPlayerPositionSpecModel;

    open spec fn model(&self) -> PlayPlayerPositionSpecModel {
        PlayPlayerPositionSpecModel { x: self.x.model(), feet_y: self.feet_y.model(), z: self.z.model(), on_ground: self.on_ground.model() }
    }

    open spec fn encodable(m: PlayPlayerPositionSpecModel) -> bool {
        Float64::encodable(m.x) && Float64::encodable(m.feet_y) && Float64::encodable(m.z) && bool::encodable(m.on_ground)
    }

    open spec fn legal(m: PlayPlayerPositionSpecModel) -> bool {
        Float64::legal(m.x) && Float64::legal(m.feet_y) && Float64::legal(m.z) && bool::legal(m.on_ground)
    }

    open spec fn spec_serialize(m: PlayPlayerPositionSpecModel) -> Seq<u8> {
        Float64::spec_serialize(m.x) + Float64::spec_serialize(m.feet_y) + Float64::spec_serialize(m.z) + bool::spec_serialize(m.on_ground)
    }

    open spec fn spec_deserialize(s: Seq<u8>) -> SpecResult<PlayPlayerPositionSpecModel> {
        match Float64::spec_deserialize(s) {
            Err(e) => Err(e),
            Ok((x, r1)) => match Float64::spec_deserialize(r1) {
                Err(e) => Err(e),
                Ok((feet_y, r2)) => match Float64::spec_deserialize(r2) {
                    Err(e) => Err(e),
                    Ok((z, r3)) => match bool::spec_deserialize(r3) {
                        Err(e) => Err(e),
                        Ok((on_ground, r4)) => Ok((PlayPlayerPositionSpecModel { x, feet_y, z, on_ground }, r4)),
                    },
                },
            },
        }
    }

    #[verifier::rlimit(100)]
    #[verifier::spinoff_prover]
    proof fn lemma_round_trip(m: PlayPlayerPositionSpecModel, rest: Seq<u8>) {
        let t3 = bool::spec_serialize(m.on_ground) + rest;
        let t2 = Float64::spec_serialize(m.z) + t3;
        let t1 = Float64::spec_serialize(m.feet_y) + t2;
        let p1 = Float64::spec_serialize(m.x);
        let p2 = p1 + Float64::spec_serialize(m.feet_y);
        let p3 = p2 + Float64::spec_serialize(m.z);
        let p4 = p3 + bool::spec_serialize(m.on_ground);
        assert(Self::spec_serialize(m) == p4);
        lemma_concat_associative(p3, bool::spec_serialize(m.on_ground), rest);
        lemma_concat_associative(p2, Float64::spec_serialize(m.z), t3);
        lemma_concat_associative(p1, Float64::spec_serialize(m.feet_y), t2);
        Float64::lemma_round_trip(m.x, t1);
        assert(Float64::spec_deserialize(Self::spec_serialize(m) + rest) == Ok::<(<Float64 as Codec>::Model, Seq<u8>), DeserializeErr>((m.x, t1)));
        Float64::lemma_round_trip(m.feet_y, t2);
        assert(Float64::spec_deserialize(t1) == Ok::<(<Float64 as Codec>::Model, Seq<u8>), DeserializeErr>((m.feet_y, t2)));
        Float64::lemma_round_trip(m.z, t3);
        assert(Float64::spec_deserialize(t2) == Ok::<(<Float64 as Codec>::Model, Seq<u8>), DeserializeErr>((m.z, t3)));
        bool::lemma_round_trip(m.on_ground, rest);
        assert(bool::spec_deserialize(t3) == Ok::<(<bool as Codec>::Model, Seq<u8>), DeserializeErr>((m.on_ground, rest)));
    }

    fn mc_serialize(&self, to: &mut Vec<u8>) {
        let ghost start = to@;
        self.x.mc_serialize(to);
        self.feet_y.mc_serialize(to);
        proof {
            lemma_concat_associative(start, Float64::spec_serialize(self.x.model()), Float64::spec_serialize(self.feet_y.model()));
        }
        self.z.mc_serialize(to);
        proof {
            lemma_concat_associative(start, Float64::spec_serialize(self.x.model()) + Float64::spec_serialize(self.feet_y.model()), Float64::spec_serialize(self.z.model()));
        }
        self.on_ground.mc_serialize(to);
        proof {
            lemma_concat_associative(start, Float64::spec_serialize(self.x.model()) + Float64::spec_serialize(self.feet_y.model()) + Float64::spec_serialize(self.z.model()), bool::spec_serialize(self.on_ground.model()));
        }
        assert(to@ =~= start + Self::spec_serialize(self.model()));
    }

    fn mc_deserialize(data: &[u8]) -> (r: Result<(Self, &[u8]), DeserializeErr>) {
        let (x, rest) = Float64::mc_deserialize(data)?;
        let (feet_y, rest) = Float64::mc_deserialize(rest)?;
        let (z, rest) = Float64::mc_deserialize(rest)?;
        let (on_ground, rest) = bool::mc_deserialize(rest)?;
        Ok((PlayPlayerPositionSpec { x, feet_y, z, on_ground }, rest))
    }
}

/// The body of the play client player position and rotation message, as values.
pub struct PlayClientPlayerPositionAndRotationSpecModel {
    pub x: <Float64 as Codec>::Model,
    pub feet_y: <Float64 as Codec>::Model,
    pub z: <Float64 as Codec>::Model,
    pub yaw: <Float32 as Codec>::Model,
    pub pitch: <Float32 as Codec>::Model,
    pub on_ground: <bool as Codec>::Model,
}

/// The body of the play client player position and rotation message
#[derive(Debug, Clone, PartialEq, Eq)]
pub struct PlayClientPlayerPositionAndRotationSpec {
    pub x: Float64,
    pub feet_y: Float64,
    pub z: Float64,
    pub yaw: Float32,
    pub pitch: Float32,
    pub on_ground: bool,
}

impl Codec for PlayClientPlayerPositionAndRotationSpec {
    type Model = PlayClientPlayerPositionAndRotationSpecModel;

    open spec fn model(&self) -> PlayClientPlayerPositionAndRotationSpecModel {
        PlayClientPlayerPositionAndRotationSpecModel { x: self.x.model(), feet_y: self.feet_y.model(), z: self.z.model(), yaw: self.yaw.model(), pitch: self.pitch.model(), on_ground: self.on_ground.model() }
    }

    open spec fn encodable(m: PlayClientPlayerPositionAndRotationSpecModel) -> bool {
        Float64::encodable(m.x) && Float64::encodable(m.feet_y) && Float64::encodable(m.z) && Float32::encodable(m.yaw) && Float32::encodable(m.pitch) && bool::encodable(m.on_ground)
    }

    open spec fn legal(m: PlayClientPlayerPositionAndRotationSpecModel) -> bool {
        Float64::legal(m.x) && Float64::legal(m.feet_y) && Float64::legal(m.z) && Float32::legal(m.yaw) && Float32::legal(m.pitch) && bool::legal(m.on_ground)
    }

    open spec fn spec_serialize(m: PlayClientPlayerPositionAndRotationSpecModel) -> Seq<u8> {
        Float64::spec_serialize(m.x) + Float64::spec_serialize(m.feet_y) + Float64::spec_serialize(m.z) + Float32::spec_serialize(m.yaw) + Float32::spec_serialize(m.pitch) + bool::spec_serialize(m.on_ground)
    }

    open spec fn spec_deserialize(s: Seq<u8>) -> SpecResult<PlayClientPlayerPositionAndRotationSpecModel> {
        match Float64::spec_deserialize(s) {
            Err(e) => Err(e),
            Ok((x, r1)) => match Float64::spec_deserialize(r1) {
                Err(e) => Err(e),
                Ok((feet_y, r2)) => match Float64::spec_deserialize(r2) {
                    Err(e) => Err(e),
                    Ok((z, r3)) => match Float32::spec_deserialize(r3) {
                        Err(e) => Err(e),
                        Ok((yaw, r4)) => match Float32::spec_deserialize(r4) {
                            Err(e) => Err(e),
                            Ok((pitch, r5)) => match bool::spec_deserialize(r5) {
                                Err(e) => Err(e),
                                Ok((on_ground, r6)) => Ok((PlayClientPlayerPositionAndRotationSpecModel { x, feet_y, z, yaw, pitch, on_ground }, r6)),
                            },
                        },
                    },
                },
            },
        }
    }

    #[verifier::rlimit(100)]
    #[verifier::spinoff_prover]
    proof fn lemma_round_trip(m: PlayClientPlayerPositionAndRotationSpecModel, rest: Seq<u8>) {
        let t5 = bool::spec_serialize(m.on_ground) + rest;
        let t4 = Float32::spec_serialize(m.pitch) + t5;
        let t3 = Float32::spec_serialize(m.yaw) + t4;
        let t2 = Float64::spec_serialize(m.z) + t3;
        let t1 = Float64::spec_serialize(m.feet_y) + t2;
        let p1 = Float64::spec_serialize(m.x);
        let p2 = p1 + Float64::spec_serialize(m.feet_y);
        let p3 = p2 + Float64::spec_serialize(m.z);
        let p4 = p3 + Float32::spec_serialize(m.yaw);
        let p5 = p4 + Float32::spec_serialize(m.pitch);
        let p6 = p5 + bool::spec_serialize(m.on_ground);
        assert(Self::spec_serialize(m) == p6);
        lemma_concat_associative(p5, bool::spec_serialize(m.on_ground), rest);
        lemma_concat_associative(p4, Float32::spec_serialize(m.pitch), t5);
        lemma_concat_associative(p3, Float32::spec_serialize(m.yaw), t4);
        lemma_concat_associative(p2, Float64::spec_serialize(m.z), t3);
        lemma_concat_associative(p1, Float64::spec_serialize(m.feet_y), t2);
        Float64::lemma_round_trip(m.x, t1);
        assert(Float64::spec_deserialize(Self::spec_serialize(m) + rest) == Ok::<(<Float64 as Codec>::Model, Seq<u8>), DeserializeErr>((m.x, t1)));
        Float64::lemma_round_trip(m.feet_y, t2);
        assert(Float64::spec_deserialize(t1) == Ok::<(<Float64 as Codec>::Model, Seq<u8>), DeserializeErr>((m.feet_y, t2)));
        Float64::lemma_round_trip(m.z, t3);
        assert(Float64::spec_deserialize(t2) == Ok::<(<Float64 as Codec>::Model, Seq<u8>), DeserializeErr>((m.z, t3)));
        Float32::lemma_round_trip(m.yaw, t4);
        assert(Float32::spec_deserialize(t3) == Ok::<(<Float32 as Codec>::Model, Seq<u8>), DeserializeErr>((m.yaw, t4)));
        Float32::lemma_round_trip(m.pitch, t5);
        assert(Float32::spec_deserialize(t4) == Ok::<(<Float32 as Codec>::Model, Seq<u8>), DeserializeErr>((m.pitch, t5)));
        bool::lemma_round_trip(m.on_ground, rest);
        assert(bool::spec_deserialize(t5) == Ok::<(<bool as Codec>::Model, Seq<u8>), DeserializeErr>((m.on_ground, rest)));
    }

    fn mc_serialize(&self, to: &mut Vec<u8>) {
        let ghost start = to@;
        self.x.mc_serialize(to);
        self.feet_y.mc_serialize(to);
        proof {
            lemma_concat_associative(start, Float64::spec_serialize(self.x.model()), Float64::spec_serialize(self.feet_y.model()));
        }
        self.z.mc_serialize(to);
        proof {
            lemma_concat_associative(start, Float64::spec_serialize(self.x.model()) + Float64::spec_serialize(self.feet_y.model()), Float64::spec_serialize(self.z.model()));
        }
        self.yaw.mc_serialize(to);
        proof {
            lemma_concat_associative(start, Float64::spec_serialize(self.x.model()) + Float64::spec_serialize(self.feet_y.model()) + Float64::spec_serialize(self.z.model()), Float32::spec_serialize(self.yaw.model()));
        }
        self.pitch.mc_serialize(to);
        proof {
            lemma_concat_associative(start, Float64::spec_serialize(self.x.model()) + Float64::spec_serialize(self.feet_y.model()) + Float64::spec_serialize(self.z.model()) + Float32::spec_serialize(self.yaw.model()), Float32::spec_serialize(self.pitch.model()));
        }
        self.on_ground.mc_serialize(to);
        proof {
            lemma_concat_associative(start, Float64::spec_serialize(self.x.model()) + Float64::spec_serialize(self.feet_y.model()) + Float64::spec_serialize(self.z.model()) + Float32::spec_serialize(self.yaw.model()) + Float32::spec_serialize(self.pitch.model()), bool::spec_serialize(self.on_ground.model()));
        }
        assert(to@ =~= start + Self::spec_serialize(self.model()));
    }

    fn mc_deserialize(data: &[u8]) -> (r: Result<(Self, &[u8]), DeserializeErr>) {
        let (x, rest) = Float64::mc_deserialize(data)?;
        let (feet_y, rest) = Float64::mc_deserialize(rest)?;
        let (z, rest) = Float64::mc_deserialize(rest)?;
        let (yaw, rest) = Float32::mc_deserialize(rest)?;
        let (pitch, rest) = Float32::mc_deserialize(rest)?;
        let (on_ground, rest) = bool::mc_deserialize(rest)?;
        Ok((PlayClientPlayerPositionAndRotationSpec { x, feet_y, z, yaw, pitch, on_ground }, rest))
    }
}

/// The body of the play player rotation message, as values.
pub struct PlayPlayerRotationSpecModel {
    pub yaw: <Float32 as Codec>::Model,
    pub pitch: <Float32 as Codec>::Model,
    pub on_ground: <bool as Codec>::Model,
}

/// The body of the play player rotation message
#[derive(Debug, Clone, PartialEq, Eq)]
pub struct PlayPlayerRotationSpec {
    pub yaw: Float32,
    pub pitch: Float32,
    pub on_ground: bool,
}

impl Codec for PlayPlayerRotationSpec {
    type Model = PlayPlayerRotationSpecModel;

    open spec fn model(&self) -> PlayPlayerRotationSpecModel {
        PlayPlayerRotationSpecModel { yaw: self.yaw.model(), pitch: self.pitch.model(), on_ground: self.on_ground.model() }
    }

    open spec fn encodable(m: PlayPlayerRotationSpecModel) -> bool {
        Float32::encodable(m.yaw) && Float32::encodable(m.pitch) && bool::encodable(m.on_ground)
    }

    open spec fn legal(m: PlayPlayerRotationSpecModel) -> bool {
        Float32::legal(m.yaw) && Float32::legal(m.pitch) && bool::legal(m.on_ground)
    }

    open spec fn spec_serialize(m: PlayPlayerRotationSpecModel) -> Seq<u8> {
        Float32::spec_serialize(m.yaw) + Float32::spec_serialize(m.pitch) + bool::spec_serialize(m.on_ground)
    }

    open spec fn spec_deserialize(s: Seq<u8>) -> SpecResult<PlayPlayerRotationSpecModel> {
        match Float32::spec_deserialize(s) {
            Err(e) => Err(e),
            Ok((yaw, r1)) => match Float32::spec_deserialize(r1) {
                Err(e) => Err(e),
                Ok((pitch, r2)) => match bool::spec_deserialize(r2) {
                    Err(e) => Err(e),
                    Ok((on_ground, r3)) => Ok((PlayPlayerRotationSpecModel { yaw, pitch, on_ground }, r3)),
                },
            },
        }
    }

    proof fn lemma_round_trip(m: PlayPlayerRotationSpecModel, rest: Seq<u8>) {
        let t2 = bool::spec_serialize(m.on_ground) + rest;
        let t1 = Float32::spec_serialize(m.pitch) + t2;
        let p1 = Float32::spec_serialize(m.yaw);
        let p2 = p1 + Float32::spec_serialize(m.pitch);
        let p3 = p2 + bool::spec_serialize(m.on_ground);
        assert(Self::spec_serialize(m) == p3);
        lemma_concat_associative(p2, bool::spec_serialize(m.on_ground), rest);
        lemma_concat_associative(p1, Float32::spec_serialize(m.pitch), t2);
        Float32::lemma_round_trip(m.yaw, t1);
        Float32::lemma_round_trip(m.pitch, t2);
        bool::lemma_round_trip(m.on_ground, rest);
    }

    fn mc_serialize(&self, to: &mut Vec<u8>) {
        let ghost start = to@;
        self.yaw.mc_serialize(to);
        self.pitch.mc_serialize(to);
        proof {
            lemma_concat_associative(start, Float32::spec_serialize(self.yaw.model()), Float32::spec_serialize(self.pitch.model()));
        }
        self.on_ground.mc_serialize(to);
        proof {
            lemma_concat_associative(start, Float32::spec_serialize(self.yaw.model()) + Float32::spec_serialize(self.pitch.model()), bool::spec_serialize(self.on_ground.model()));
        }
        assert(to@ =~= start + Self::spec_serialize(self.model()));
    }

    fn mc_deserialize(data: &[u8]) -> (r: Result<(Self, &[u8]), DeserializeErr>) {
        let (yaw, rest) = Float32::mc_deserialize(data)?;
        let (pitch, rest) = Float32::mc_deserialize(rest)?;
        let (on_ground, rest) = bool::mc_deserialize(rest)?;
        Ok((PlayPlayerRotationSpec { yaw, pitch, on_ground }, rest))
    }
}

/// The body of the play player movement message, as values.
pub struct PlayPlayerMovementSpecModel {
    pub on_ground: <bool as Codec>::Model,
}

/// The body of the play player movement message
#[derive(Debug, Clone, PartialEq, Eq)]
pub struct PlayPlayerMovementSpec {
    pub on_ground: bool,
}

impl Codec for PlayPlayerMovementSpec {
    type Model = PlayPlayerMovementSpecModel;

    open spec fn model(&self) -> PlayPlayerMovementSpecModel {
        PlayPlayerMovementSpecModel { on_ground: self.on_ground.model() }
    }

    open spec fn encodable(m: PlayPlayerMovementSpecModel) -> bool {
        bool::encodable(m.on_ground)
    }

    open spec fn legal(m: PlayPlayerMovementSpecModel) -> bool {
        bool::legal(m.on_ground)
    }

    open spec fn spec_serialize(m: PlayPlayerMovementSpecModel) -> Seq<u8> {
        bool::spec_serialize(m.on_ground)
    }

    open spec fn spec_deserialize(s: Seq<u8>) -> SpecResult<PlayPlayerMovementSpecModel> {
        match bool::spec_deserialize(s) {
            Err(e) => Err(e),
            Ok((on_ground, r1)) => Ok((PlayPlayerMovementSpecModel { on_ground }, r1)),
        }
    }

    proof fn lemma_round_trip(m: PlayPlayerMovementSpecModel, rest: Seq<u8>) {
        bool::lemma_round_trip(m.on_ground, rest);
    }

    fn mc_serialize(&self, to: &mut Vec<u8>) {
        let ghost start = to@;
        self.on_ground.mc_serialize(to);
        assert(to@ =~= start + Self::spec_serialize(self.model()));
    }

    fn mc_deserialize(data: &[u8]) -> (r: Result<(Self, &[u8]), DeserializeErr>) {
        let (on_ground, rest) = bool::mc_deserialize(data)?;
        Ok((PlayPlayerMovementSpec { on_ground }, rest))
    }
}

/// The body of the play client vehicle move message, as values.
pub struct PlayClientVehicleMoveSpecModel {
    pub x: <Float64 as Codec>::Model,
    pub y: <Float64 as Codec>::Model,
    pub z: <Float64 as Codec>::Model,
    pub yaw: <Float32 as Codec>::Model,
    pub pitch: <Float32 as Codec>::Model,
}

/// The body of the play client vehicle move message
#[derive(Debug, Clone, PartialEq, Eq)]
pub struct PlayClientVehicleMoveSpec {
    pub x: Float64,
    pub y: Float64,
    pub z: Float64,
    pub yaw: Float32,
    pub pitch: Float32,
}

impl Codec for PlayClientVehicleMoveSpec {
    type Model = PlayClientVehicleMoveSpecModel;

    open spec fn model(&self) -> PlayClientVehicleMoveSpecModel {
        PlayClientVehicleMoveSpecModel { x: self.x.model(), y: self.y.model(), z: self.z.model(), yaw: self.yaw.model(), pitch: self.pitch.model() }
    }

    open spec fn encodable(m: PlayClientVehicleMoveSpecModel) -> bool {
        Float64::encodable(m.x) && Float64::encodable(m.y) && Float64::encodable(m.z) && Float32::encodable(m.yaw) && Float32::encodable(m.pitch)
    }

    open spec fn legal(m: PlayClientVehicleMoveSpecModel) -> bool {
        Float64::legal(m.x) && Float64::legal(m.y) && Float64::legal(m.z) && Float32::legal(m.yaw) && Float32::legal(m.pitch)
    }

    open spec fn spec_serialize(m: PlayClientVehicleMoveSpecModel) -> Seq<u8> {
        Float64::spec_serialize(m.x) + Float64::spec_serialize(m.y) + Float64::spec_serialize(m.z) + Float32::spec_serialize(m.yaw) + Float32::spec_serialize(m.pitch)
    }

    open spec fn spec_deserialize(s: Seq<u8>) -> SpecResult<PlayClientVehicleMoveSpecModel> {
        match Float64::spec_deserialize(s) {
            Err(e) => Err(e),
            Ok((x, r1)) => match Float64::spec_deserialize(r1) {
                Err(e) => Err(e),
                Ok((y, r2)) => match Float64::spec_deserialize(r2) {
                    Err(e) => Err(e),
                    Ok((z, r3)) => match Float32::spec_deserialize(r3) {
                        Err(e) => Err(e),
                        Ok((yaw, r4)) => match Float32::spec_deserialize(r4) {
                            Err(e) => Err(e),
                            Ok((pitch, r5)) => Ok((PlayClientVehicleMoveSpecModel { x, y, z, yaw, pitch }, r5)),
                        },
                    },
                },
            },
        }
    }

    #[verifier::rlimit(100)]
    #[verifier::spinoff_prover]
    proof fn lemma_round_trip(m: PlayClientVehicleMoveSpecModel, rest: Seq<u8>) {
        let t4 = Float32::spec_serialize(m.pitch) + rest;
        let t3 = Float32::spec_serialize(m.yaw) + t4;
        let t2 = Float64::spec_serialize(m.z) + t3;
        let t1 = Float64::spec_serialize(m.y) + t2;
        let p1 = Float64::spec_serialize(m.x);
        let p2 = p1 + Float64::spec_serialize(m.y);
        let p3 = p2 + Float64::spec_serialize(m.z);
        let p4 = p3 + Float32::spec_serialize(m.yaw);
        let p5 = p4 + Float32::spec_serialize(m.pitch);
        assert(Self::spec_serialize(m) == p5);
        lemma_concat_associative(p4, Float32::spec_serialize(m.pitch), rest);
        lemma_concat_associative(p3, Float32::spec_serialize(m.yaw), t4);
        lemma_concat_associative(p2, Float64::spec_serialize(m.z), t3);
        lemma_concat_associative(p1, Float64::spec_serialize(m.y), t2);
        Float64::lemma_round_trip(m.x, t1);
        assert(Float64::spec_deserialize(Self::spec_serialize(m) + rest) == Ok::<(<Float64 as Codec>::Model, Seq<u8>), DeserializeErr>((m.x, t1)));
        Float64::lemma_round_trip(m.y, t2);
        assert(Float64::spec_deserialize(t1) == Ok::<(<Float64 as Codec>::Model, Seq<u8>), DeserializeErr>((m.y, t2)));
        Float64::lemma_round_trip(m.z, t3);
        assert(Float64::spec_deserialize(t2) == Ok::<(<Float64 as Codec>::Model, Seq<u8>), DeserializeErr>((m.z, t3)));
        Float32::lemma_round_trip(m.yaw, t4);
        assert(Float32::spec_deserialize(t3) == Ok::<(<Float32 as Codec>::Model, Seq<u8>), DeserializeErr>((m.yaw, t4)));
        Float32::lemma_round_trip(m.pitch, rest);
        assert(Float32::spec_deserialize(t4) == Ok::<(<Float32 as Codec>::Model, Seq<u8>), DeserializeErr>((m.pitch, rest)));
    }

    fn mc_serialize(&self, to: &mut Vec<u8>) {
        let ghost start = to@;
        self.x.mc_serialize(to);
        self.y.mc_serialize(to);
        proof {
            lemma_concat_associative(start, Float64::spec_serialize(self.x.model()), Float64::spec_serialize(self.y.model()));
        }
        self.z.mc_serialize(to);
        proof {
            lemma_concat_associative(start, Float64::spec_serialize(self.x.model()) + Float64::spec_serialize(self.y.model()), Float64::spec_serialize(self.z.model()));
        }
        self.yaw.mc_serialize(to);
        proof {
            lemma_concat_associative(start, Float64::spec_serialize(self.x.model()) + Float64::spec_serialize(self.y.model()) + Float64::spec_serialize(self.z.model()), Float32::spec_serialize(self.yaw.model()));
        }
        self.pitch.mc_serialize(to);
        proof {
            lemma_concat_associative(start, Float64::spec_serialize(self.x.model()) + Float64::spec_serialize(self.y.model()) + Float64::spec_serialize(self.z.model()) + Float32::spec_serialize(self.yaw.model()), Float32::spec_serialize(self.pitch.model()));
        }
        assert(to@ =~= start + Self::spec_serialize(self.model()));
    }

    fn mc_deserialize(data: &[u8]) -> (r: Result<(Self, &[u8]), DeserializeErr>) {
        let (x, rest) = Float64::mc_deserialize(data)?;
        let (y, rest) = Float64::mc_deserialize(rest)?;
        let (z, rest) = Float64::mc_deserialize(rest)?;
        let (yaw, rest) = Float32::mc_deserialize(rest)?;
        let (pitch, rest) = Float32::mc_deserialize(rest)?;
        Ok((PlayClientVehicleMoveSpec { x, y, z, yaw, pitch }, rest))
    }
}

/// The body of the play steer boat message, as values.
pub struct PlaySteerBoatSpecModel {
    pub left_paddle_turning: <bool as Codec>::Model,
    pub right_paddle_turning: <bool as Codec>::Model,
}

/// The body of the play steer boat message
#[derive(Debug, Clone, PartialEq, Eq)]
pub struct PlaySteerBoatSpec {
    pub left_paddle_turning: bool,
    pub right_paddle_turning: bool,
}

impl Codec for PlaySteerBoatSpec {
    type Model = PlaySteerBoatSpecModel;

    open spec fn model(&self) -> PlaySteerBoatSpecModel {
        PlaySteerBoatSpecModel { left_paddle_turning: self.left_paddle_turning.model(), right_paddle_turning: self.right_paddle_turning.model() }
    }

    open spec fn encodable(m: PlaySteerBoatSpecModel) -> bool {
        bool::encodable(m.left_paddle_turning) && bool::encodable(m.right_paddle_turning)
    }

    open spec fn legal(m: PlaySteerBoatSpecModel) -> bool {
        bool::legal(m.left_paddle_turning) && bool::legal(m.right_paddle_turning)
    }

    open spec fn spec_serialize(m: PlaySteerBoatSpecModel) -> Seq<u8> {
        bool::spec_serialize(m.left_paddle_turning) + bool::spec_serialize(m.right_paddle_turning)
    }

    open spec fn spec_deserialize(s: Seq<u8>) -> SpecResult<PlaySteerBoatSpecModel> {
        match bool::spec_deserialize(s) {
            Err(e) => Err(e),
            Ok((left_paddle_turning, r1)) => match bool::spec_deserialize(r1) {
                Err(e) => Err(e),
                Ok((right_paddle_turning, r2)) => Ok((PlaySteerBoatSpecModel { left_paddle_turning, right_paddle_turning }, r2)),
            },
        }
    }

    proof fn lemma_round_trip(m: PlaySteerBoatSpecModel, rest: Seq<u8>) {
        let t1 = bool::spec_serialize(m.right_paddle_turning) + rest;
        let p1 = bool::spec_serialize(m.left_paddle_turning);
        let p2 = p1 + bool::spec_serialize(m.right_paddle_turning);
        assert(Self::spec_serialize(m) == p2);
        lemma_concat_associative(p1, bool::spec_serialize(m.right_paddle_turning), rest);
        bool::lemma_round_trip(m.left_paddle_turning, t1);
        bool::lemma_round_trip(m.right_paddle_turning, rest);
    }

    fn mc_serialize(&self, to: &mut Vec<u8>) {
        let ghost start = to@;
        self.left_paddle_turning.mc_serialize(to);
        self.right_paddle_turning.mc_serialize(to);
        proof {
            lemma_concat_associative(start, bool::spec_serialize(self.left_paddle_turning.model()), bool::spec_serialize(self.right_paddle_turning.model()));
        }
        assert(to@ =~= start + Self::spec_serialize(self.model()));
    }

    fn mc_deserialize(data: &[u8]) -> (r: Result<(Self, &[u8]), DeserializeErr>) {
        let (left_paddle_turning, rest) = bool::mc_deserialize(data)?;
        let (right_paddle_turning, rest) = bool::mc_deserialize(rest)?;
        Ok((PlaySteerBoatSpec { left_paddle_turning, right_paddle_turning }, rest))
    }
}

/// The body of the play pick item message, as values.
pub struct PlayPickItemSpecModel {
    pub slot_idx: <VarInt as Codec>::Model,
}

/// The body of the play pick item message
#[derive(Debug, Clone, PartialEq, Eq)]
pub struct PlayPickItemSpec {
    pub slot_idx: VarInt,
}

impl Codec for PlayPickItemSpec {
    type Model = PlayPickItemSpecModel;

    open spec fn model(&self) -> PlayPickItemSpecModel {
        PlayPickItemSpecModel { slot_idx: self.slot_idx.model() }
    }

    open spec fn encodable(m: PlayPickItemSpecModel) -> bool {
        VarInt::encodable(m.slot_idx)
    }

    open spec fn legal(m: PlayPickItemSpecModel) -> bool {
        VarInt::legal(m.slot_idx)
    }

    open spec fn spec_serialize(m: PlayPickItemSpecModel) -> Seq<u8> {
        VarInt::spec_serialize(m.slot_idx)
    }

    open spec fn spec_deserialize(s: Seq<u8>) -> SpecResult<PlayPickItemSpecModel> {
        match VarInt::spec_deserialize(s) {
            Err(e) => Err(e),
            Ok((slot_idx, r1)) => Ok((PlayPickItemSpecModel { slot_idx }, r1)),
        }
    }

    proof fn lemma_round_trip(m: PlayPickItemSpecModel, rest: Seq<u8>) {
        VarInt::lemma_round_trip(m.slot_idx, rest);
    }

    fn mc_serialize(&self, to: &mut Vec<u8>) {
        let ghost start = to@;
        self.slot_idx.mc_serialize(to);
        assert(to@ =~= start + Self::spec_serialize(self.model()));
    }

    fn mc_deserialize(data: &[u8]) -> (r: Result<(Self, &[u8]), DeserializeErr>) {
        let (slot_idx, rest) = VarInt::mc_deserialize(data)?;
        Ok((PlayPickItemSpec { slot_idx }, rest))
    }
}

/// The body of the play craft recipe request message, as values.
pub struct PlayCraftRecipeRequestSpecModel {
    pub window_id: <i8 as Codec>::Model,
    pub recipe: <String as Codec>::Model,
    pub make_all: <bool as Codec>::Model,
}

/// The body of the play craft recipe request message
#[derive(Debug, Clone, PartialEq, Eq)]
pub struct PlayCraftRecipeRequestSpec {
    pub window_id: i8,
    pub recipe: String,
    pub make_all: bool,
}

impl Codec for PlayCraftRecipeRequestSpec {
    type Model = PlayCraftRecipeRequestSpecModel;

    open spec fn model(&self) -> PlayCraftRecipeRequestSpecModel {
        PlayCraftRecipeRequestSpecModel { window_id: self.window_id.model(), recipe: self.recipe.model(), make_all: self.make_all.model() }
    }

    open spec fn encodable(m: PlayCraftRecipeRequestSpecModel) -> bool {
        i8::encodable(m.window_id) && String::encodable(m.recipe) && bool::encodable(m.make_all)
    }

    open spec fn legal(m: PlayCraftRecipeRequestSpecModel) -> bool {
        i8::legal(m.window_id) && String::legal(m.recipe) && bool::legal(m.make_all)
    }

    open spec fn spec_serialize(m: PlayCraftRecipeRequestSpecModel) -> Seq<u8> {
        i8::spec_serialize(m.window_id) + String::spec_serialize(m.recipe) + bool::spec_serialize(m.make_all)
    }

    open spec fn spec_deserialize(s: Seq<u8>) -> SpecResult<PlayCraftRecipeRequestSpecModel> {
        match i8::spec_deserialize(s) {
            Err(e) => Err(e),
            Ok((window_id, r1)) => match String::spec_deserialize(r1) {
                Err(e) => Err(e),
                Ok((recipe, r2)) => match bool::spec_deserialize(r2) {
                    Err(e) => Err(e),
                    Ok((make_all, r3)) => Ok((PlayCraftRecipeRequestSpecModel { window_id, recipe, make_all }, r3)),
                },
            },
        }
    }

    proof fn lemma_round_trip(m: PlayCraftRecipeRequestSpecModel, rest: Seq<u8>) {
        let t2 = bool::spec_serialize(m.make_all) + rest;
        let t1 = String::spec_serialize(m.recipe) + t2;
        let p1 = i8::spec_serialize(m.window_id);
        let p2 = p1 + String::spec_serialize(m.recipe);
        let p3 = p2 + bool::spec_serialize(m.make_all);
        assert(Self::spec_serialize(m) == p3);
        lemma_concat_associative(p2, bool::spec_serialize(m.make_all), rest);
        lemma_concat_associative(p1, String::spec_serialize(m.recipe), t2);
        i8::lemma_round_trip(m.window_id, t1);
        String::lemma_round_trip(m.recipe, t2);
        bool::lemma_round_trip(m.make_all, rest);
    }

    fn mc_serialize(&self, to: &mut Vec<u8>) {
        let ghost start = to@;
        self.window_id.mc_serialize(to);
        self.recipe.mc_serialize(to);
        proof {
            lemma_concat_associative(start, i8::spec_serialize(self.window_id.model()), String::spec_serialize(self.recipe.model()));
        }
        self.make_all.mc_serialize(to);
        proof {
            lemma_concat_associative(start, i8::spec_serialize(self.window_id.model()) + String::spec_serialize(self.recipe.model()), bool::spec_serialize(self.make_all.model()));
        }
        assert(to@ =~= start + Self::spec_serialize(self.model()));
    }

    fn mc_deserialize(data: &[u8]) -> (r: Result<(Self, &[u8]), DeserializeErr>) {
        let (window_id, rest) = i8::mc_deserialize(data)?;
        let (recipe, rest) = String::mc_deserialize(rest)?;
        let (make_all, rest) = bool::mc_deserialize(rest)?;
        Ok((PlayCraftRecipeRequestSpec { window_id, recipe, make_all }, rest))
    }
}

/// The body of the play client player abilities message, as values.
pub struct PlayClientPlayerAbilitiesSpecModel {
    pub flags: <ClientPlayerAbilities as Codec>::Model,
    pub flying_speed: <Float32 as Codec>::Model,
    pub walking_speed: <Float32 as Codec>::Model,
}

/// The body of the play client player abilities message
#[derive(Debug, Clone, PartialEq, Eq)]
pub struct PlayClientPlayerAbilitiesSpec {
    pub flags: ClientPlayerAbilities,
    pub flying_speed: Float32,
    pub walking_speed: Float32,
}

impl Codec for PlayClientPlayerAbilitiesSpec {
    type Model = PlayClientPlayerAbilitiesSpecModel;

    open spec fn model(&self) -> PlayClientPlayerAbilitiesSpecModel {
        PlayClientPlayerAbilitiesSpecModel { flags: self.flags.model(), flying_speed: self.flying_speed.model(), walking_speed: self.walking_speed.model() }
    }

    open spec fn encodable(m: PlayClientPlayerAbilitiesSpecModel) -> bool {
        ClientPlayerAbilities::encodable(m.flags) && Float32::encodable(m.flying_speed) && Float32::encodable(m.walking_speed)
    }

    open spec fn legal(m: PlayClientPlayerAbilitiesSpecModel) -> bool {
        ClientPlayerAbilities::legal(m.flags) && Float32::legal(m.flying_speed) && Float32::legal(m.walking_speed)
    }

    open spec fn spec_serialize(m: PlayClientPlayerAbilitiesSpecModel) -> Seq<u8> {
        ClientPlayerAbilities::spec_serialize(m.flags) + Float32::spec_serialize(m.flying_speed) + Float32::spec_serialize(m.walking_speed)
    }

    open spec fn spec_deserialize(s: Seq<u8>) -> SpecResult<PlayClientPlayerAbilitiesSpecModel> {
        match ClientPlayerAbilities::spec_deserialize(s) {
            Err(e) => Err(e),
            Ok((flags, r1)) => match Float32::spec_deserialize(r1) {
                Err(e) => Err(e),
                Ok((flying_speed, r2)) => match Float32::spec_deserialize(r2) {
                    Err(e) => Err(e),
                    Ok((walking_speed, r3)) => Ok((PlayClientPlayerAbilitiesSpecModel { flags, flying_speed, walking_speed }, r3)),
                },
            },
        }
    }

    proof fn lemma_round_trip(m: PlayClientPlayerAbilitiesSpecModel, rest: Seq<u8>) {
        let t2 = Float32::spec_serialize(m.walking_speed) + rest;
        let t1 = Float32::spec_serialize(m.flying_speed) + t2;
        let p1 = ClientPlayerAbilities::spec_serialize(m.flags);
        let p2 = p1 + Float32::spec_serialize(m.flying_speed);
        let p3 = p2 + Float32::spec_serialize(m.walking_speed);
        assert(Self::spec_serialize(m) == p3);
        lemma_concat_associative(p2, Float32::spec_serialize(m.walking_speed), rest);
        lemma_concat_associative(p1, Float32::spec_serialize(m.flying_speed), t2);
        ClientPlayerAbilities::lemma_round_trip(m.flags, t1);
        Float32::lemma_round_trip(m.flying_speed, t2);
        Float32::lemma_round_trip(m.walking_speed, rest);
    }

    fn mc_serialize(&self, to: &mut Vec<u8>) {
        let ghost start = to@;
        self.flags.mc_serialize(to);
        self.flying_speed.mc_serialize(to);
        proof {
            lemma_concat_associative(start, ClientPlayerAbilities::spec_serialize(self.flags.model()), Float32::spec_serialize(self.flying_speed.model()));
        }
        self.walking_speed.mc_serialize(to);
        proof {
            lemma_concat_associative(start, ClientPlayerAbilities::spec_serialize(self.flags.model()) + Float32::spec_serialize(self.flying_speed.model()), Float32::spec_serialize(self.walking_speed.model()));
        }
        assert(to@ =~= start + Self::spec_serialize(self.model()));
    }

    fn mc_deserialize(data: &[u8]) -> (r: Result<(Self, &[u8]), DeserializeErr>) {
        let (flags, rest) = ClientPlayerAbilities::mc_deserialize(data)?;
        let (flying_speed, rest) = Float32::mc_deserialize(rest)?;
        let (walking_speed, rest) = Float32::mc_deserialize(rest)?;
        Ok((PlayClientPlayerAbilitiesSpec { flags, flying_speed, walking_speed }, rest))
    }
}

/// The body of the play player digging message, as values.
pub struct PlayPlayerDiggingSpecModel {
    pub status: <PlayerDiggingStatus as Codec>::Model,
    pub location: <IntPosition as Codec>::Model,
    pub face: <DiggingFace as Codec>::Model,
}

/// The body of the play player digging message
#[derive(Debug, Clone, PartialEq, Eq)]
pub struct PlayPlayerDiggingSpec {
    pub status: PlayerDiggingStatus,
    pub location: IntPosition,
    pub face: DiggingFace,
}

impl Codec for PlayPlayerDiggingSpec {
    type Model = PlayPlayerDiggingSpecModel;

    open spec fn model(&self) -> PlayPlayerDiggingSpecModel {
        PlayPlayerDiggingSpecModel { status: self.status.model(), location: self.location.model(), face: self.face.model() }
    }

    open spec fn encodable(m: PlayPlayerDiggingSpecModel) -> bool {
        PlayerDiggingStatus::encodable(m.status) && IntPosition::encodable(m.location) && DiggingFace::encodable(m.face)
    }

    open spec fn legal(m: PlayPlayerDiggingSpecModel) -> bool {
        PlayerDiggingStatus::legal(m.status) && IntPosition::legal(m.location) && DiggingFace::legal(m.face)
    }

    open spec fn spec_serialize(m: PlayPlayerDiggingSpecModel) -> Seq<u8> {
        PlayerDiggingStatus::spec_serialize(m.status) + IntPosition::spec_serialize(m.location) + DiggingFace::spec_serialize(m.face)
    }

    open spec fn spec_deserialize(s: Seq<u8>) -> SpecResult<PlayPlayerDiggingSpecModel> {
        match PlayerDiggingStatus::spec_deserialize(s) {
            Err(e) => Err(e),
            Ok((status, r1)) => match IntPosition::spec_deserialize(r1) {
                Err(e) => Err(e),
                Ok((location, r2)) => match DiggingFace::spec_deserialize(r2) {
                    Err(e) => Err(e),
                    Ok((face, r3)) => Ok((PlayPlayerDiggingSpecModel { status, location, face }, r3)),
                },
            },
        }
    }

    proof fn lemma_round_trip(m: PlayPlayerDiggingSpecModel, rest: Seq<u8>) {
        let t2 = DiggingFace::spec_serialize(m.face) + rest;
        let t1 = IntPosition::spec_serialize(m.location) + t2;
        let p1 = PlayerDiggingStatus::spec_serialize(m.status);
        let p2 = p1 + IntPosition::spec_serialize(m.location);
        let p3 = p2 + DiggingFace::spec_serialize(m.face);
        assert(Self::spec_serialize(m) == p3);
        lemma_concat_associative(p2, DiggingFace::spec_serialize(m.face), rest);
        lemma_concat_associative(p1, IntPosition::spec_serialize(m.location), t2);
        PlayerDiggingStatus::lemma_round_trip(m.status, t1);
        IntPosition::lemma_round_trip(m.location, t2);
        DiggingFace::lemma_round_trip(m.face, rest);
    }

    fn mc_serialize(&self, to: &mut Vec<u8>) {
        let ghost start = to@;
        self.status.mc_serialize(to);
        self.location.mc_serialize(to);
        proof {
            lemma_concat_associative(start, PlayerDiggingStatus::spec_serialize(self.status.model()), IntPosition::spec_serialize(self.location.model()));
        }
        self.face.mc_serialize(to);
        proof {
            lemma_concat_associative(start, PlayerDiggingStatus::spec_serialize(self.status.model()) + IntPosition::spec_serialize(self.location.model()), DiggingFace::spec_serialize(self.face.model()));
        }
        assert(to@ =~= start + Self::spec_serialize(self.model()));
    }

    fn mc_deserialize(data: &[u8]) -> (r: Result<(Self, &[u8]), DeserializeErr>) {
        let (status, rest) = PlayerDiggingStatus::mc_deserialize(data)?;
        let (location, rest) = IntPosition::mc_deserialize(rest)?;
        let (face, rest) = DiggingFace::mc_deserialize(rest)?;
        Ok((PlayPlayerDiggingSpec { status, location, face }, rest))
    }
}

/// The body of the play entity action message, as values.
pub struct PlayEntityActionSpecModel {
    pub entity_id: <VarInt as Codec>::Model,
    pub action: <EntityActionKind as Codec>::Model,
    pub jump_boot: <VarInt as Codec>::Model,
}

/// The body of the play entity action message
#[derive(Debug, Clone, PartialEq, Eq)]
pub struct PlayEntityActionSpec {
    pub entity_id: VarInt,
    pub action: EntityActionKind,
    pub jump_boot: VarInt,
}

impl Codec for PlayEntityActionSpec {
    type Model = PlayEntityActionSpecModel;

    open spec fn model(&self) -> PlayEntityActionSpecModel {
        PlayEntityActionSpecModel { entity_id: self.entity_id.model(), action: self.action.model(), jump_boot: self.jump_boot.model() }
    }

    open spec fn encodable(m: PlayEntityActionSpecModel) -> bool {
        VarInt::encodable(m.entity_id) && EntityActionKind::encodable(m.action) && VarInt::encodable(m.jump_boot)
    }

    open spec fn legal(m: PlayEntityActionSpecModel) -> bool {
        VarInt::legal(m.entity_id) && EntityActionKind::legal(m.action) && VarInt::legal(m.jump_boot)
    }

    open spec fn spec_serialize(m: PlayEntityActionSpecModel) -> Seq<u8> {
        VarInt::spec_serialize(m.entity_id) + EntityActionKind::spec_serialize(m.action) + VarInt::spec_serialize(m.jump_boot)
    }

    open spec fn spec_deserialize(s: Seq<u8>) -> SpecResult<PlayEntityActionSpecModel> {
        match VarInt::spec_deserialize(s) {
            Err(e) => Err(e),
            Ok((entity_id, r1)) => match EntityActionKind::spec_deserialize(r1) {
                Err(e) => Err(e),
                Ok((action, r2)) => match VarInt::spec_deserialize(r2) {
                    Err(e) => Err(e),
                    Ok((jump_boot, r3)) => Ok((PlayEntityActionSpecModel { entity_id, action, jump_boot }, r3)),
                },
            },
        }
    }

    proof fn lemma_round_trip(m: PlayEntityActionSpecModel, rest: Seq<u8>) {
        let t2 = VarInt::spec_serialize(m.jump_boot) + rest;
        let t1 = EntityActionKind::spec_serialize(m.action) + t2;
        let p1 = VarInt::spec_serialize(m.entity_id);
        let p2 = p1 + EntityActionKind::spec_serialize(m.action);
        let p3 = p2 + VarInt::spec_serialize(m.jump_boot);
        assert(Self::spec_serialize(m) == p3);
        lemma_concat_associative(p2, VarInt::spec_serialize(m.jump_boot), rest);
        lemma_concat_associative(p1, EntityActionKind::spec_serialize(m.action), t2);
        VarInt::lemma_round_trip(m.entity_id, t1);
        EntityActionKind::lemma_round_trip(m.action, t2);
        VarInt::lemma_round_trip(m.jump_boot, rest);
    }

    fn mc_serialize(&self, to: &mut Vec<u8>) {
        let ghost start = to@;
        self.entity_id.mc_serialize(to);
        self.action.mc_serialize(to);
        proof {
            lemma_concat_associative(start, VarInt::spec_serialize(self.entity_id.model()), EntityActionKind::spec_serialize(self.action.model()));
        }
        self.jump_boot.mc_serialize(to);
        proof {
            lemma_concat_associative(start, VarInt::spec_serialize(self.entity_id.model()) + EntityActionKind::spec_serialize(self.action.model()), VarInt::spec_serialize(self.jump_boot.model()));
        }
        assert(to@ =~= start + Self::spec_serialize(self.model()));
    }

    fn mc_deserialize(data: &[u8]) -> (r: Result<(Self, &[u8]), DeserializeErr>) {
        let (entity_id, rest) = VarInt::mc_deserialize(data)?;
        let (action, rest) = EntityActionKind::mc_deserialize(rest)?;
        let (jump_boot, rest) = VarInt::mc_deserialize(rest)?;
        Ok((PlayEntityActionSpec { entity_id, action, jump_boot }, rest))
    }
}

/// The body of the play steer vehicle message, as values.
pub struct PlaySteerVehicleSpecModel {
    pub sideways: <Float32 as Codec>::Model,
    pub forward: <Float32 as Codec>::Model,
    pub flags: <SteerVehicleFlags as Codec>::Model,
}

/// The body of the play steer vehicle message
#[derive(Debug, Clone, PartialEq, Eq)]
pub struct PlaySteerVehicleSpec {
    pub sideways: Float32,
    pub forward: Float32,
    pub flags: SteerVehicleFlags,
}

impl Codec for PlaySteerVehicleSpec {
    type Model = PlaySteerVehicleSpecModel;

    open spec fn model(&self) -> PlaySteerVehicleSpecModel {
        PlaySteerVehicleSpecModel { sideways: self.sideways.model(), forward: self.forward.model(), flags: self.flags.model() }
    }

    open spec fn encodable(m: PlaySteerVehicleSpecModel) -> bool {
        Float32::encodable(m.sideways) && Float32::encodable(m.forward) && SteerVehicleFlags::encodable(m.flags)
    }

    open spec fn legal(m: PlaySteerVehicleSpecModel) -> bool {
        Float32::legal(m.sideways) && Float32::legal(m.forward) && SteerVehicleFlags::legal(m.flags)
    }

    open spec fn spec_serialize(m: PlaySteerVehicleSpecModel) -> Seq<u8> {
        Float32::spec_serialize(m.sideways) + Float32::spec_serialize(m.forward) + SteerVehicleFlags::spec_serialize(m.flags)
    }

    open spec fn spec_deserialize(s: Seq<u8>) -> SpecResult<PlaySteerVehicleSpecModel> {
        match Float32::spec_deserialize(s) {
            Err(e) => Err(e),
            Ok((sideways, r1)) => match Float32::spec_deserialize(r1) {
                Err(e) => Err(e),
                Ok((forward, r2)) => match SteerVehicleFlags::spec_deserialize(r2) {
                    Err(e) => Err(e),
                    Ok((flags, r3)) => Ok((PlaySteerVehicleSpecModel { sideways, forward, flags }, r3)),
                },
            },
        }
    }

    proof fn lemma_round_trip(m: PlaySteerVehicleSpecModel, rest: Seq<u8>) {
        let t2 = SteerVehicleFlags::spec_serialize(m.flags) + rest;
        let t1 = Float32::spec_serialize(m.forward) + t2;
        let p1 = Float32::spec_serialize(m.sideways);
        let p2 = p1 + Float32::spec_serialize(m.forward);
        let p3 = p2 + SteerVehicleFlags::spec_serialize(m.flags);
        assert(Self::spec_serialize(m) == p3);
        lemma_concat_associative(p2, SteerVehicleFlags::spec_serialize(m.flags), rest);
        lemma_concat_associative(p1, Float32::spec_serialize(m.forward), t2);
        Float32::lemma_round_trip(m.sideways, t1);
        Float32::lemma_round_trip(m.forward, t2);
        SteerVehicleFlags::lemma_round_trip(m.flags, rest);
    }

    fn mc_serialize(&self, to: &mut Vec<u8>) {
        let ghost start = to@;
        self.sideways.mc_serialize(to);
        self.forward.mc_serialize(to);
        proof {
            lemma_concat_associative(start, Float32::spec_serialize(self.sideways.model()), Float32::spec_serialize(self.forward.model()));
        }
        self.flags.mc_serialize(to);
        proof {
            lemma_concat_associative(start, Float32::spec_serialize(self.sideways.model()) + Float32::spec_serialize(self.forward.model()), SteerVehicleFlags::spec_serialize(self.flags.model()));
        }
        assert(to@ =~= start + Self::spec_serialize(self.model()));
    }

    fn mc_deserialize(data: &[u8]) -> (r: Result<(Self, &[u8]), DeserializeErr>) {
        let (sideways, rest) = Float32::mc_deserialize(data)?;
        let (forward, rest) = Float32::mc_deserialize(rest)?;
        let (flags, rest) = SteerVehicleFlags::mc_deserialize(rest)?;
        Ok((PlaySteerVehicleSpec { sideways, forward, flags }, rest))
    }
}

/// The body of the play recipe book data message, as values.
pub struct PlayRecipeBookDataSpecModel {
    pub status: <RecipeBookStatus as Codec>::Model,
}

/// The body of the play recipe book data message
#[derive(Debug, Clone, PartialEq, Eq)]
pub struct PlayRecipeBookDataSpec {
    pub status: RecipeBookStatus,
}

impl Codec for PlayRecipeBookDataSpec {
    type Model = PlayRecipeBookDataSpecModel;

    open spec fn model(&self) -> PlayRecipeBookDataSpecModel {
        PlayRecipeBookDataSpecModel { status: self.status.model() }
    }

    open spec fn encodable(m: PlayRecipeBookDataSpecModel) -> bool {
        RecipeBookStatus::encodable(m.status)
    }

    open spec fn legal(m: PlayRecipeBookDataSpecModel) -> bool {
        RecipeBookStatus::legal(m.status)
    }

    open spec fn spec_serialize(m: PlayRecipeBookDataSpecModel) -> Seq<u8> {
        RecipeBookStatus::spec_serialize(m.status)
    }

    open spec fn spec_deserialize(s: Seq<u8>) -> SpecResult<PlayRecipeBookDataSpecModel> {
        match RecipeBookStatus::spec_deserialize(s) {
            Err(e) => Err(e),
            Ok((status, r1)) => Ok((PlayRecipeBookDataSpecModel { status }, r1)),
        }
    }

    proof fn lemma_round_trip(m: PlayRecipeBookDataSpecModel, rest: Seq<u8>) {
        RecipeBookStatus::lemma_round_trip(m.status, rest);
    }

    fn mc_serialize(&self, to: &mut Vec<u8>) {
        let ghost start = to@;
        self.status.mc_serialize(to);
        assert(to@ =~= start + Self::spec_serialize(self.model()));
    }

    fn mc_deserialize(data: &[u8]) -> (r: Result<(Self, &[u8]), DeserializeErr>) {
        let (status, rest) = RecipeBookStatus::mc_deserialize(data)?;
        Ok((PlayRecipeBookDataSpec { status }, rest))
    }
}

/// The body of the play name item message, as values.
pub struct PlayNameItemSpecModel {
    pub name: <String as Codec>::Model,
}

/// The body of the play name item message
#[derive(Debug, Clone, PartialEq, Eq)]
pub struct PlayNameItemSpec {
    pub name: String,
}

impl Codec for PlayNameItemSpec {
    type Model = PlayNameItemSpecModel;

    open spec fn model(&self) -> PlayNameItemSpecModel {
        PlayNameItemSpecModel { name: self.name.model() }
    }

    open spec fn encodable(m: PlayNameItemSpecModel) -> bool {
        String::encodable(m.name)
    }

    open spec fn legal(m: PlayNameItemSpecModel) -> bool {
        String::legal(m.name)
    }

    open spec fn spec_serialize(m: PlayNameItemSpecModel) -> Seq<u8> {
        String::spec_serialize(m.name)
    }

    open spec fn spec_deserialize(s: Seq<u8>) -> SpecResult<PlayNameItemSpecModel> {
        match String::spec_deserialize(s) {
            Err(e) => Err(e),
            Ok((name, r1)) => Ok((PlayNameItemSpecModel { name }, r1)),
        }
    }

    proof fn lemma_round_trip(m: PlayNameItemSpecModel, rest: Seq<u8>) {
        String::lemma_round_trip(m.name, rest);
    }

    fn mc_serialize(&self, to: &mut Vec<u8>) {
        let ghost start = to@;
        self.name.mc_serialize(to);
        assert(to@ =~= start + Self::spec_serialize(self.model()));
    }

    fn mc_deserialize(data: &[u8]) -> (r: Result<(Self, &[u8]), DeserializeErr>) {
        let (name, rest) = String::mc_deserialize(data)?;
        Ok((PlayNameItemSpec { name }, rest))
    }
}

/// The body of the play resource pack status message, as values.
pub struct PlayResourcePackStatusSpecModel {
    pub status: <ResourcePackStatus as Codec>::Model,
}

/// The body of the play resource pack status message
#[derive(Debug, Clone, PartialEq, Eq)]
pub struct PlayResourcePackStatusSpec {
    pub status: ResourcePackStatus,
}

impl Codec for PlayResourcePackStatusSpec {
    type Model = PlayResourcePackStatusSpecModel;

    open spec fn model(&self) -> PlayResourcePackStatusSpecModel {
        PlayResourcePackStatusSpecModel { status: self.status.model() }
    }

    open spec fn encodable(m: PlayResourcePackStatusSpecModel) -> bool {
        ResourcePackStatus::encodable(m.status)
    }

    open spec fn legal(m: PlayResourcePackStatusSpecModel) -> bool {
        ResourcePackStatus::legal(m.status)
    }

    open spec fn spec_serialize(m: PlayResourcePackStatusSpecModel) -> Seq<u8> {
        ResourcePackStatus::spec_serialize(m.status)
    }

    open spec fn spec_deserialize(s: Seq<u8>) -> SpecResult<PlayResourcePackStatusSpecModel> {
        match ResourcePackStatus::spec_deserialize(s) {
            Err(e) => Err(e),
            Ok((status, r1)) => Ok((PlayResourcePackStatusSpecModel { status }, r1)),
        }
    }

    proof fn lemma_round_trip(m: PlayResourcePackStatusSpecModel, rest: Seq<u8>) {
        ResourcePackStatus::lemma_round_trip(m.status, rest);
    }

    fn mc_serialize(&self, to: &mut Vec<u8>) {
        let ghost start = to@;
        self.status.mc_serialize(to);
        assert(to@ =~= start + Self::spec_serialize(self.model()));
    }

    fn mc_deserialize(data: &[u8]) -> (r: Result<(Self, &[u8]), DeserializeErr>) {
        let (status, rest) = ResourcePackStatus::mc_deserialize(data)?;
        Ok((PlayResourcePackStatusSpec { status }, rest))
    }
}

/// The body of the play advancement tab message, as values.
pub struct PlayAdvancementTabSpecModel {
    pub action: <AdvancementTabAction as Codec>::Model,
}

/// The body of the play advancement tab message
#[derive(Debug, Clone, PartialEq, Eq)]
pub struct PlayAdvancementTabSpec {
    pub action: AdvancementTabAction,
}

impl Codec for PlayAdvancementTabSpec {
    type Model = PlayAdvancementTabSpecModel;

    open spec fn model(&self) -> PlayAdvancementTabSpecModel {
        PlayAdvancementTabSpecModel { action: self.action.model() }
    }

    open spec fn encodable(m: PlayAdvancementTabSpecModel) -> bool {
        AdvancementTabAction::encodable(m.action)
    }

    open spec fn legal(m: PlayAdvancementTabSpecModel) -> bool {
        AdvancementTabAction::legal(m.action)
    }

    open spec fn spec_serialize(m: PlayAdvancementTabSpecModel) -> Seq<u8> {
        AdvancementTabAction::spec_serialize(m.action)
    }

    open spec fn spec_deserialize(s: Seq<u8>) -> SpecResult<PlayAdvancementTabSpecModel> {
        match AdvancementTabAction::spec_deserialize(s) {
            Err(e) => Err(e),
            Ok((action, r1)) => Ok((PlayAdvancementTabSpecModel { action }, r1)),
        }
    }

    proof fn lemma_round_trip(m: PlayAdvancementTabSpecModel, rest: Seq<u8>) {
        AdvancementTabAction::lemma_round_trip(m.action, rest);
    }

    fn mc_serialize(&self, to: &mut Vec<u8>) {
        let ghost start = to@;
        self.action.mc_serialize(to);
        assert(to@ =~= start + Self::spec_serialize(self.model()));
    }

    fn mc_deserialize(data: &[u8]) -> (r: Result<(Self, &[u8]), DeserializeErr>) {
        let (action, rest) = AdvancementTabAction::mc_deserialize(data)?;
        Ok((PlayAdvancementTabSpec { action }, rest))
    }
}

/// The body of the play select trade message, as values.
pub struct PlaySelectTradeSpecModel {
    pub selected_slot: <VarInt as Codec>::Model,
}

/// The body of the play select trade message
#[derive(Debug, Clone, PartialEq, Eq)]
pub struct PlaySelectTradeSpec {
    pub selected_slot: VarInt,
}

impl Codec for PlaySelectTradeSpec {
    type Model = PlaySelectTradeSpecModel;

    open spec fn model(&self) -> PlaySelectTradeSpecModel {
        PlaySelectTradeSpecModel { selected_slot: self.selected_slot.model() }
    }

    open spec fn encodable(m: PlaySelectTradeSpecModel) -> bool {
        VarInt::encodable(m.selected_slot)
    }

    open spec fn legal(m: PlaySelectTradeSpecModel) -> bool {
        VarInt::legal(m.selected_slot)
    }

    open spec fn spec_serialize(m: PlaySelectTradeSpecModel) -> Seq<u8> {
        VarInt::spec_serialize(m.selected_slot)
    }

    open spec fn spec_deserialize(s: Seq<u8>) -> SpecResult<PlaySelectTradeSpecModel> {
        match VarInt::spec_deserialize(s) {
            Err(e) => Err(e),
            Ok((selected_slot, r1)) => Ok((PlaySelectTradeSpecModel { selected_slot }, r1)),
        }
    }

    proof fn lemma_round_trip(m: PlaySelectTradeSpecModel, rest: Seq<u8>) {
        VarInt::lemma_round_trip(m.selected_slot, rest);
    }

    fn mc_serialize(&self, to: &mut Vec<u8>) {
        let ghost start = to@;
        self.selected_slot.mc_serialize(to);
        assert(to@ =~= start + Self::spec_serialize(self.model()));
    }

    fn mc_deserialize(data: &[u8]) -> (r: Result<(Self, &[u8]), DeserializeErr>) {
        let (selected_slot, rest) = VarInt::mc_deserialize(data)?;
        Ok((PlaySelectTradeSpec { selected_slot }, rest))
    }
}

/// The body of the play set beacon effect message, as values.
pub struct PlaySetBeaconEffectSpecModel {
    pub primary_effect: <VarInt as Codec>::Model,
    pub secondary_effect: <VarInt as Codec>::Model,
}

/// The body of the play set beacon effect message
#[derive(Debug, Clone, PartialEq, Eq)]
pub struct PlaySetBeaconEffectSpec {
    pub primary_effect: VarInt,
    pub secondary_effect: VarInt,
}

impl Codec for PlaySetBeaconEffectSpec {
    type Model = PlaySetBeaconEffectSpecModel;

    open spec fn model(&self) -> PlaySetBeaconEffectSpecModel {
        PlaySetBeaconEffectSpecModel { primary_effect: self.primary_effect.model(), secondary_effect: self.secondary_effect.model() }
    }

    open spec fn encodable(m: PlaySetBeaconEffectSpecModel) -> bool {
        VarInt::encodable(m.primary_effect) && VarInt::encodable(m.secondary_effect)
    }

    open spec fn legal(m: PlaySetBeaconEffectSpecModel) -> bool {
        VarInt::legal(m.primary_effect) && VarInt::legal(m.secondary_effect)
    }

    open spec fn spec_serialize(m: PlaySetBeaconEffectSpecModel) -> Seq<u8> {
        VarInt::spec_serialize(m.primary_effect) + VarInt::spec_serialize(m.secondary_effect)
    }

    open spec fn spec_deserialize(s: Seq<u8>) -> SpecResult<PlaySetBeaconEffectSpecModel> {
        match VarInt::spec_deserialize(s) {
            Err(e) => Err(e),
            Ok((primary_effect, r1)) => match VarInt::spec_deserialize(r1) {
                Err(e) => Err(e),
                Ok((secondary_effect, r2)) => Ok((PlaySetBeaconEffectSpecModel { primary_effect, secondary_effect }, r2)),
            },
        }
    }

    proof fn lemma_round_trip(m: PlaySetBeaconEffectSpecModel, rest: Seq<u8>) {
        let t1 = VarInt::spec_serialize(m.secondary_effect) + rest;
        let p1 = VarInt::spec_serialize(m.primary_effect);
        let p2 = p1 + VarInt::spec_serialize(m.secondary_effect);
        assert(Self::spec_serialize(m) == p2);
        lemma_concat_associative(p1, VarInt::spec_serialize(m.secondary_effect), rest);
        VarInt::lemma_round_trip(m.primary_effect, t1);
        VarInt::lemma_round_trip(m.secondary_effect, rest);
    }

    fn mc_serialize(&self, to: &mut Vec<u8>) {
        let ghost start = to@;
        self.primary_effect.mc_serialize(to);
        self.secondary_effect.mc_serialize(to);
        proof {
            lemma_concat_associative(start, VarInt::spec_serialize(self.primary_effect.model()), VarInt::spec_serialize(self.secondary_effect.model()));
        }
        assert(to@ =~= start + Self::spec_serialize(self.model()));
    }

    fn mc_deserialize(data: &[u8]) -> (r: Result<(Self, &[u8]), DeserializeErr>) {
        let (primary_effect, rest) = VarInt::mc_deserialize(data)?;
        let (secondary_effect, rest) = VarInt::mc_deserialize(rest)?;
        Ok((PlaySetBeaconEffectSpec { primary_effect, secondary_effect }, rest))
    }
}

/// The body of the play client held item change message, as values.
pub struct PlayClientHeldItemChangeSpecModel {
    pub slot: <i16 as Codec>::Model,
}

/// The body of the play client held item change message
#[derive(Debug, Clone, PartialEq, Eq)]
pub struct PlayClientHeldItemChangeSpec {
    pub slot: i16,
}

impl Codec for PlayClientHeldItemChangeSpec {
    type Model = PlayClientHeldItemChangeSpecModel;

    open spec fn model(&self) -> PlayClientHeldItemChangeSpecModel {
        PlayClientHeldItemChangeSpecModel { slot: self.slot.model() }
    }

    open spec fn encodable(m: PlayClientHeldItemChangeSpecModel) -> bool {
        i16::encodable(m.slot)
    }

    open spec fn legal(m: PlayClientHeldItemChangeSpecModel) -> bool {
        i16::legal(m.slot)
    }

    open spec fn spec_serialize(m: PlayClientHeldItemChangeSpecModel) -> Seq<u8> {
        i16::spec_serialize(m.slot)
    }

    open spec fn spec_deserialize(s: Seq<u8>) -> SpecResult<PlayClientHeldItemChangeSpecModel> {
        match i16::spec_deserialize(s) {
            Err(e) => Err(e),
            Ok((slot, r1)) => Ok((PlayClientHeldItemChangeSpecModel { slot }, r1)),
        }
    }

    proof fn lemma_round_trip(m: PlayClientHeldItemChangeSpecModel, rest: Seq<u8>) {
        i16::lemma_round_trip(m.slot, rest);
    }

    fn mc_serialize(&self, to: &mut Vec<u8>) {
        let ghost start = to@;
        self.slot.mc_serialize(to);
        assert(to@ =~= start + Self::spec_serialize(self.model()));
    }

    fn mc_deserialize(data: &[u8]) -> (r: Result<(Self, &[u8]), DeserializeErr>) {
        let (slot, rest) = i16::mc_deserialize(data)?;
        Ok((PlayClientHeldItemChangeSpec { slot }, rest))
    }
}

/// The body of the play update command block message, as values.
pub struct PlayUpdateCommandBlockSpecModel {
    pub location: <IntPosition as Codec>::Model,
    pub command: <String as Codec>::Model,
    pub mode: <CommandBlockMode as Codec>::Model,
    pub flags: <CommandBlockFlags as Codec>::Model,
}

/// The body of the play update command block message
#[derive(Debug, Clone, PartialEq, Eq)]
pub struct PlayUpdateCommandBlockSpec {
    pub location: IntPosition,
    pub command: String,
    pub mode: CommandBlockMode,
    pub flags: CommandBlockFlags,
}

impl Codec for PlayUpdateCommandBlockSpec {
    type Model = PlayUpdateCommandBlockSpecModel;

    open spec fn model(&self) -> PlayUpdateCommandBlockSpecModel {
        PlayUpdateCommandBlockSpecModel { location: self.location.model(), command: self.command.model(), mode: self.mode.model(), flags: self.flags.model() }
    }

    open spec fn encodable(m: PlayUpdateCommandBlockSpecModel) -> bool {
        IntPosition::encodable(m.location) && String::encodable(m.command) && CommandBlockMode::encodable(m.mode) && CommandBlockFlags::encodable(m.flags)
    }

    open spec fn legal(m: PlayUpdateCommandBlockSpecModel) -> bool {
        IntPosition::legal(m.location) && String::legal(m.command) && CommandBlockMode::legal(m.mode) && CommandBlockFlags::legal(m.flags)
    }

    open spec fn spec_serialize(m: PlayUpdateCommandBlockSpecModel) -> Seq<u8> {
        IntPosition::spec_serialize(m.location) + String::spec_serialize(m.command) + CommandBlockMode::spec_serialize(m.mode) + CommandBlockFlags::spec_serialize(m.flags)
    }

    open spec fn spec_deserialize(s: Seq<u8>) -> SpecResult<PlayUpdateCommandBlockSpecModel> {
        match IntPosition::spec_deserialize(s) {
            Err(e) => Err(e),
            Ok((location, r1)) => match String::spec_deserialize(r1) {
                Err(e) => Err(e),
                Ok((command, r2)) => match CommandBlockMode::spec_deserialize(r2) {
                    Err(e) => Err(e),
                    Ok((mode, r3)) => match CommandBlockFlags::spec_deserialize(r3) {
                        Err(e) => Err(e),
                        Ok((flags, r4)) => Ok((PlayUpdateCommandBlockSpecModel { location, command, mode, flags }, r4)),
                    },
                },
            },
        }
    }

    #[verifier::rlimit(100)]
    #[verifier::spinoff_prover]
    proof fn lemma_round_trip(m: PlayUpdateCommandBlockSpecModel, rest: Seq<u8>) {
        let t3 = CommandBlockFlags::spec_serialize(m.flags) + rest;
        let t2 = CommandBlockMode::spec_serialize(m.mode) + t3;
        let t1 = String::spec_serialize(m.command) + t2;
        let p1 = IntPosition::spec_serialize(m.location);
        let p2 = p1 + String::spec_serialize(m.command);
        let p3 = p2 + CommandBlockMode::spec_serialize(m.mode);
        let p4 = p3 + CommandBlockFlags::spec_serialize(m.flags);
        assert(Self::spec_serialize(m) == p4);
        lemma_concat_associative(p3, CommandBlockFlags::spec_serialize(m.flags), rest);
        lemma_concat_associative(p2, CommandBlockMode::spec_serialize(m.mode), t3);
        lemma_concat_associative(p1, String::spec_serialize(m.command), t2);
        IntPosition::lemma_round_trip(m.location, t1);
        assert(IntPosition::spec_deserialize(Self::spec_serialize(m) + rest) == Ok::<(<IntPosition as Codec>::Model, Seq<u8>), DeserializeErr>((m.location, t1)));
        String::lemma_round_trip(m.command, t2);
        assert(String::spec_deserialize(t1) == Ok::<(<String as Codec>::Model, Seq<u8>), DeserializeErr>((m.command, t2)));
        CommandBlockMode::lemma_round_trip(m.mode, t3);
        assert(CommandBlockMode::spec_deserialize(t2) == Ok::<(<CommandBlockMode as Codec>::Model, Seq<u8>), DeserializeErr>((m.mode, t3)));
        CommandBlockFlags::lemma_round_trip(m.flags, rest);
        assert(CommandBlockFlags::spec_deserialize(t3) == Ok::<(<CommandBlockFlags as Codec>::Model, Seq<u8>), DeserializeErr>((m.flags, rest)));
    }

    fn mc_serialize(&self, to: &mut Vec<u8>) {
        let ghost start = to@;
        self.location.mc_serialize(to);
        self.command.mc_serialize(to);
        proof {
            lemma_concat_associative(start, IntPosition::spec_serialize(self.location.model()), String::spec_serialize(self.command.model()));
        }
        self.mode.mc_serialize(to);
        proof {
            lemma_concat_associative(start, IntPosition::spec_serialize(self.location.model()) + String::spec_serialize(self.command.model()), CommandBlockMode::spec_serialize(self.mode.model()));
        }
        self.flags.mc_serialize(to);
        proof {
            lemma_concat_associative(start, IntPosition::spec_serialize(self.location.model()) + String::spec_serialize(self.command.model()) + CommandBlockMode::spec_serialize(self.mode.model()), CommandBlockFlags::spec_serialize(self.flags.model()));
        }
        assert(to@ =~= start + Self::spec_serialize(self.model()));
    }

    fn mc_deserialize(data: &[u8]) -> (r: Result<(Self, &[u8]), DeserializeErr>) {
        let (location, rest) = IntPosition::mc_deserialize(data)?;
        let (command, rest) = String::mc_deserialize(rest)?;
        let (mode, rest) = CommandBlockMode::mc_deserialize(rest)?;
        let (flags, rest) = CommandBlockFlags::mc_deserialize(rest)?;
        Ok((PlayUpdateCommandBlockSpec { location, command, mode, flags }, rest))
    }
}

/// The body of the play update command block minecart message, as values.
pub struct PlayUpdateCommandBlockMinecartSpecModel {
    pub entity_id: <VarInt as Codec>::Model,
    pub command: <String as Codec>::Model,
    pub track_output: <bool as Codec>::Model,
}

/// The body of the play update command block minecart message
#[derive(Debug, Clone, PartialEq, Eq)]
pub struct PlayUpdateCommandBlockMinecartSpec {
    pub entity_id: VarInt,
    pub command: String,
    pub track_output: bool,
}

impl Codec for PlayUpdateCommandBlockMinecartSpec {
    type Model = PlayUpdateCommandBlockMinecartSpecModel;

    open spec fn model(&self) -> PlayUpdateCommandBlockMinecartSpecModel {
        PlayUpdateCommandBlockMinecartSpecModel { entity_id: self.entity_id.model(), command: self.command.model(), track_output: self.track_output.model() }
    }

    open spec fn encodable(m: PlayUpdateCommandBlockMinecartSpecModel) -> bool {
        VarInt::encodable(m.entity_id) && String::encodable(m.command) && bool::encodable(m.track_output)
    }

    open spec fn legal(m: PlayUpdateCommandBlockMinecartSpecModel) -> bool {
        VarInt::legal(m.entity_id) && String::legal(m.command) && bool::legal(m.track_output)
    }

    open spec fn spec_serialize(m: PlayUpdateCommandBlockMinecartSpecModel) -> Seq<u8> {
        VarInt::spec_serialize(m.entity_id) + String::spec_serialize(m.command) + bool::spec_serialize(m.track_output)
    }

    open spec fn spec_deserialize(s: Seq<u8>) -> SpecResult<PlayUpdateCommandBlockMinecartSpecModel> {
        match VarInt::spec_deserialize(s) {
            Err(e) => Err(e),
            Ok((entity_id, r1)) => match String::spec_deserialize(r1) {
                Err(e) => Err(e),
                Ok((command, r2)) => match bool::spec_deserialize(r2) {
                    Err(e) => Err(e),
                    Ok((track_output, r3)) => Ok((PlayUpdateCommandBlockMinecartSpecModel { entity_id, command, track_output }, r3)),
                },
            },
        }
    }

    proof fn lemma_round_trip(m: PlayUpdateCommandBlockMinecartSpecModel, rest: Seq<u8>) {
        let t2 = bool::spec_serialize(m.track_output) + rest;
        let t1 = String::spec_serialize(m.command) + t2;
        let p1 = VarInt::spec_serialize(m.entity_id);
        let p2 = p1 + String::spec_serialize(m.command);
        let p3 = p2 + bool::spec_serialize(m.track_output);
        assert(Self::spec_serialize(m) == p3);
        lemma_concat_associative(p2, bool::spec_serialize(m.track_output), rest);
        lemma_concat_associative(p1, String::spec_serialize(m.command), t2);
        VarInt::lemma_round_trip(m.entity_id, t1);
        String::lemma_round_trip(m.command, t2);
        bool::lemma_round_trip(m.track_output, rest);
    }

    fn mc_serialize(&self, to: &mut Vec<u8>) {
        let ghost start = to@;
        self.entity_id.mc_serialize(to);
        self.command.mc_serialize(to);
        proof {
            lemma_concat_associative(start, VarInt::spec_serialize(self.entity_id.model()), String::spec_serialize(self.command.model()));
        }
        self.track_output.mc_serialize(to);
        proof {
            lemma_concat_associative(start, VarInt::spec_serialize(self.entity_id.model()) + String::spec_serialize(self.command.model()), bool::spec_serialize(self.track_output.model()));
        }
        assert(to@ =~= start + Self::spec_serialize(self.model()));
    }

    fn mc_deserialize(data: &[u8]) -> (r: Result<(Self, &[u8]), DeserializeErr>) {
        let (entity_id, rest) = VarInt::mc_deserialize(data)?;
        let (command, rest) = String::mc_deserialize(rest)?;
        let (track_output, rest) = bool::mc_deserialize(rest)?;
        Ok((PlayUpdateCommandBlockMinecartSpec { entity_id, command, track_output }, rest))
    }
}

/// The body of the play creative inventory action message, as values.
pub struct PlayCreativeInventoryActionSpecModel {
    pub slot: <i16 as Codec>::Model,
    pub clicked_item: <Option<Slot> as Codec>::Model,
}

/// The body of the play creative inventory action message
#[derive(Debug, Clone, PartialEq, Eq)]
pub struct PlayCreativeInventoryActionSpec {
    pub slot: i16,
    pub clicked_item: Option<Slot>,
}

impl Codec for PlayCreativeInventoryActionSpec {
    type Model = PlayCreativeInventoryActionSpecModel;

    open spec fn model(&self) -> PlayCreativeInventoryActionSpecModel {
        PlayCreativeInventoryActionSpecModel { slot: self.slot.model(), clicked_item: self.clicked_item.model() }
    }

    open spec fn encodable(m: PlayCreativeInventoryActionSpecModel) -> bool {
        i16::encodable(m.slot) && Option::<Slot>::encodable(m.clicked_item)
    }

    open spec fn legal(m: PlayCreativeInventoryActionSpecModel) -> bool {
        i16::legal(m.slot) && Option::<Slot>::legal(m.clicked_item)
    }

    open spec fn spec_serialize(m: PlayCreativeInventoryActionSpecModel) -> Seq<u8> {
        i16::spec_serialize(m.slot) + Option::<Slot>::spec_serialize(m.clicked_item)
    }

    open spec fn spec_deserialize(s: Seq<u8>) -> SpecResult<PlayCreativeInventoryActionSpecModel> {
        match i16::spec_deserialize(s) {
            Err(e) => Err(e),
            Ok((slot, r1)) => match Option::<Slot>::spec_deserialize(r1) {
                Err(e) => Err(e),
                Ok((clicked_item, r2)) => Ok((PlayCreativeInventoryActionSpecModel { slot, clicked_item }, r2)),
            },
        }
    }

    proof fn lemma_round_trip(m: PlayCreativeInventoryActionSpecModel, rest: Seq<u8>) {
        let t1 = Option::<Slot>::spec_serialize(m.clicked_item) + rest;
        let p1 = i16::spec_serialize(m.slot);
        let p2 = p1 + Option::<Slot>::spec_serialize(m.clicked_item);
        assert(Self::spec_serialize(m) == p2);
        lemma_concat_associative(p1, Option::<Slot>::spec_serialize(m.clicked_item), rest);
        i16::lemma_round_trip(m.slot, t1);
        Option::<Slot>::lemma_round_trip(m.clicked_item, rest);
    }

    fn mc_serialize(&self, to: &mut Vec<u8>) {
        let ghost start = to@;
        self.slot.mc_serialize(to);
        self.clicked_item.mc_serialize(to);
        proof {
            lemma_concat_associative(start, i16::spec_serialize(self.slot.model()), Option::<Slot>::spec_serialize(self.clicked_item.model()));
        }
        assert(to@ =~= start + Self::spec_serialize(self.model()));
    }

    fn mc_deserialize(data: &[u8]) -> (r: Result<(Self, &[u8]), DeserializeErr>) {
        let (slot, rest) = i16::mc_deserialize(data)?;
        let (clicked_item, rest) = Option::<Slot>::mc_deserialize(rest)?;
        Ok((PlayCreativeInventoryActionSpec { slot, clicked_item }, rest))
    }
}

/// The body of the play update jigsaw block message, as values.
pub struct PlayUpdateJigsawBlockSpecModel {
    pub location: <IntPosition as Codec>::Model,
    pub attachment_type: <String as Codec>::Model,
    pub target_pool: <String as Codec>::Model,
    pub final_state: <String as Codec>::Model,
}

/// The body of the play update jigsaw block message
#[derive(Debug, Clone, PartialEq, Eq)]
pub struct PlayUpdateJigsawBlockSpec {
    pub location: IntPosition,
    pub attachment_type: String,
    pub target_pool: String,
    pub final_state: String,
}

impl Codec for PlayUpdateJigsawBlockSpec {
    type Model = PlayUpdateJigsawBlockSpecModel;

    open spec fn model(&self) -> PlayUpdateJigsawBlockSpecModel {
        PlayUpdateJigsawBlockSpecModel { location: self.location.model(), attachment_type: self.attachment_type.model(), target_pool: self.target_pool.model(), final_state: self.final_state.model() }
    }

    open spec fn encodable(m: PlayUpdateJigsawBlockSpecModel) -> bool {
        IntPosition::encodable(m.location) && String::encodable(m.attachment_type) && String::encodable(m.target_pool) && String::encodable(m.final_state)
    }

    open spec fn legal(m: PlayUpdateJigsawBlockSpecModel) -> bool {
        IntPosition::legal(m.location) && String::legal(m.attachment_type) && String::legal(m.target_pool) && String::legal(m.final_state)
    }

    open spec fn spec_serialize(m: PlayUpdateJigsawBlockSpecModel) -> Seq<u8> {
        IntPosition::spec_serialize(m.location) + String::spec_serialize(m.attachment_type) + String::spec_serialize(m.target_pool) + String::spec_serialize(m.final_state)
    }

    open spec fn spec_deserialize(s: Seq<u8>) -> SpecResult<PlayUpdateJigsawBlockSpecModel> {
        match IntPosition::spec_deserialize(s) {
            Err(e) => Err(e),
            Ok((location, r1)) => match String::spec_deserialize(r1) {
                Err(e) => Err(e),
                Ok((attachment_type, r2)) => match String::spec_deserialize(r2) {
                    Err(e) => Err(e),
                    Ok((target_pool, r3)) => match String::spec_deserialize(r3) {
                        Err(e) => Err(e),
                        Ok((final_state, r4)) => Ok((PlayUpdateJigsawBlockSpecModel { location, attachment_type, target_pool, final_state }, r4)),
                    },
                },
            },
        }
    }

    #[verifier::rlimit(100)]
    #[verifier::spinoff_prover]
    proof fn lemma_round_trip(m: PlayUpdateJigsawBlockSpecModel, rest: Seq<u8>) {
        let t3 = String::spec_serialize(m.final_state) + rest;
        let t2 = String::spec_serialize(m.target_pool) + t3;
        let t1 = String::spec_serialize(m.attachment_type) + t2;
        let p1 = IntPosition::spec_serialize(m.location);
        let p2 = p1 + String::spec_serialize(m.attachment_type);
        let p3 = p2 + String::spec_serialize(m.target_pool);
        let p4 = p3 + String::spec_serialize(m.final_state);
        assert(Self::spec_serialize(m) == p4);
        lemma_concat_associative(p3, String::spec_serialize(m.final_state), rest);
        lemma_concat_associative(p2, String::spec_serialize(m.target_pool), t3);
        lemma_concat_associative(p1, String::spec_serialize(m.attachment_type), t2);
        IntPosition::lemma_round_trip(m.location, t1);
        assert(IntPosition::spec_deserialize(Self::spec_serialize(m) + rest) == Ok::<(<IntPosition as Codec>::Model, Seq<u8>), DeserializeErr>((m.location, t1)));
        String::lemma_round_trip(m.attachment_type, t2);
        assert(String::spec_deserialize(t1) == Ok::<(<String as Codec>::Model, Seq<u8>), DeserializeErr>((m.attachment_type, t2)));
        String::lemma_round_trip(m.target_pool, t3);
        assert(String::spec_deserialize(t2) == Ok::<(<String as Codec>::Model, Seq<u8>), DeserializeErr>((m.target_pool, t3)));
        String::lemma_round_trip(m.final_state, rest);
        assert(String::spec_deserialize(t3) == Ok::<(<String as Codec>::Model, Seq<u8>), DeserializeErr>((m.final_state, rest)));
    }

    fn mc_serialize(&self, to: &mut Vec<u8>) {
        let ghost start = to@;
        self.location.mc_serialize(to);
        self.attachment_type.mc_serialize(to);
        proof {
            lemma_concat_associative(start, IntPosition::spec_serialize(self.location.model()), String::spec_serialize(self.attachment_type.model()));
        }
        self.target_pool.mc_serialize(to);
        proof {
            lemma_concat_associative(start, IntPosition::spec_serialize(self.location.model()) + String::spec_serialize(self.attachment_type.model()), String::spec_serialize(self.target_pool.model()));
        }
        self.final_state.mc_serialize(to);
        proof {
            lemma_concat_associative(start, IntPosition::spec_serialize(self.location.model()) + String::spec_serialize(self.attachment_type.model()) + String::spec_serialize(self.target_pool.model()), String::spec_serialize(self.final_state.model()));
        }
        assert(to@ =~= start + Self::spec_serialize(self.model()));
    }

    fn mc_deserialize(data: &[u8]) -> (r: Result<(Self, &[u8]), DeserializeErr>) {
        let (location, rest) = IntPosition::mc_deserialize(data)?;
        let (attachment_type, rest) = String::mc_deserialize(rest)?;
        let (target_pool, rest) = String::mc_deserialize(rest)?;
        let (final_state, rest) = String::mc_deserialize(rest)?;
        Ok((PlayUpdateJigsawBlockSpec { location, attachment_type, target_pool, final_state }, rest))
    }
}

/// The body of the play update structure block message, as values.
pub struct PlayUpdateStructureBlockSpecModel {
    pub location: <IntPosition as Codec>::Model,
    pub action: <UpdateStructureBlockAction as Codec>::Model,
    pub mode: <UpdateStructureBlockMode as Codec>::Model,
    pub name: <String as Codec>::Model,
    pub offset_x: <i8 as Codec>::Model,
    pub offset_y: <i8 as Codec>::Model,
    pub offset_z: <i8 as Codec>::Model,
    pub size_x: <i8 as Codec>::Model,
    pub size_y: <i8 as Codec>::Model,
    pub size_z: <i8 as Codec>::Model,
    pub mirror: <UpdateStructureBlockMirror as Codec>::Model,
    pub rotation: <UpdateStructureBlockRotation as Codec>::Model,
    pub metadata: <String as Codec>::Model,
    pub integrity: <Float32 as Codec>::Model,
    pub seed: <VarLong as Codec>::Model,
    pub flags: <UpdateStructureBlockFlags as Codec>::Model,
}

/// The body of the play update structure block message
#[derive(Debug, Clone, PartialEq, Eq)]
pub struct PlayUpdateStructureBlockSpec {
    pub location: IntPosition,
    pub action: UpdateStructureBlockAction,
    pub mode: UpdateStructureBlockMode,
    pub name: String,
    pub offset_x: i8,
    pub offset_y: i8,
    pub offset_z: i8,
    pub size_x: i8,
    pub size_y: i8,
    pub size_z: i8,
    pub mirror: UpdateStructureBlockMirror,
    pub rotation: UpdateStructureBlockRotation,
    pub metadata: String,
    pub integrity: Float32,
    pub seed: VarLong,
    pub flags: UpdateStructureBlockFlags,
}

impl Codec for PlayUpdateStructureBlockSpec {
    type Model = PlayUpdateStructureBlockSpecModel;

    open spec fn model(&self) -> PlayUpdateStructureBlockSpecModel {
        PlayUpdateStructureBlockSpecModel { location: self.location.model(), action: self.action.model(), mode: self.mode.model(), name: self.name.model(), offset_x: self.offset_x.model(), offset_y: self.offset_y.model(), offset_z: self.offset_z.model(), size_x: self.size_x.model(), size_y: self.size_y.model(), size_z: self.size_z.model(), mirror: self.mirror.model(), rotation: self.rotation.model(), metadata: self.metadata.model(), integrity: self.integrity.model(), seed: self.seed.model(), flags: self.flags.model() }
    }

    open spec fn encodable(m: PlayUpdateStructureBlockSpecModel) -> bool {
        IntPosition::encodable(m.location) && UpdateStructureBlockAction::encodable(m.action) && UpdateStructureBlockMode::encodable(m.mode) && String::encodable(m.name) && i8::encodable(m.offset_x) && i8::encodable(m.offset_y) && i8::encodable(m.offset_z) && i8::encodable(m.size_x) && i8::encodable(m.size_y) && i8::encodable(m.size_z) && UpdateStructureBlockMirror::encodable(m.mirror) && UpdateStructureBlockRotation::encodable(m.rotation) && String::encodable(m.metadata) && Float32::encodable(m.integrity) && VarLong::encodable(m.seed) && UpdateStructureBlockFlags::encodable(m.flags)
    }

    open spec fn legal(m: PlayUpdateStructureBlockSpecModel) -> bool {
        IntPosition::legal(m.location) && UpdateStructureBlockAction::legal(m.action) && UpdateStructureBlockMode::legal(m.mode) && String::legal(m.name) && i8::legal(m.offset_x) && i8::legal(m.offset_y) && i8::legal(m.offset_z) && i8::legal(m.size_x) && i8::legal(m.size_y) && i8::legal(m.size_z) && UpdateStructureBlockMirror::legal(m.mirror) && UpdateStructureBlockRotation::legal(m.rotation) && String::legal(m.metadata) && Float32::legal(m.integrity) && VarLong::legal(m.seed) && UpdateStructureBlockFlags::legal(m.flags)
    }

    open spec fn spec_serialize(m: PlayUpdateStructureBlockSpecModel) -> Seq<u8> {
        IntPosition::spec_serialize(m.location) + UpdateStructureBlockAction::spec_serialize(m.action) + UpdateStructureBlockMode::spec_serialize(m.mode) + String::spec_serialize(m.name) + i8::spec_serialize(m.offset_x) + i8::spec_serialize(m.offset_y) + i8::spec_serialize(m.offset_z) + i8::spec_serialize(m.size_x) + i8::spec_serialize(m.size_y) + i8::spec_serialize(m.size_z) + UpdateStructureBlockMirror::spec_serialize(m.mirror) + UpdateStructureBlockRotation::spec_serialize(m.rotation) + String::spec_serialize(m.metadata) + Float32::spec_serialize(m.integrity) + VarLong::spec_serialize(m.seed) + UpdateStructureBlockFlags::spec_serialize(m.flags)
    }

    open spec fn spec_deserialize(s: Seq<u8>) -> SpecResult<PlayUpdateStructureBlockSpecModel> {
        match IntPosition::spec_deserialize(s) {
            Err(e) => Err(e),
            Ok((location, r1)) => match UpdateStructureBlockAction::spec_deserialize(r1) {
                Err(e) => Err(e),
                Ok((action, r2)) => match UpdateStructureBlockMode::spec_deserialize(r2) {
                    Err(e) => Err(e),
                    Ok((mode, r3)) => match String::spec_deserialize(r3) {
                        Err(e) => Err(e),
                        Ok((name, r4)) => match i8::spec_deserialize(r4) {
                            Err(e) => Err(e),
                            Ok((offset_x, r5)) => match i8::spec_deserialize(r5) {
                                Err(e) => Err(e),
                                Ok((offset_y, r6)) => match i8::spec_deserialize(r6) {
                                    Err(e) => Err(e),
                                    Ok((offset_z, r7)) => match i8::spec_deserialize(r7) {
                                        Err(e) => Err(e),
                                        Ok((size_x, r8)) => match i8::spec_deserialize(r8) {
                                            Err(e) => Err(e),
                                            Ok((size_y, r9)) => match i8::spec_deserialize(r9) {
                                                Err(e) => Err(e),
                                                Ok((size_z, r10)) => match UpdateStructureBlockMirror::spec_deserialize(r10) {
                                                    Err(e) => Err(e),
                                                    Ok((mirror, r11)) => match UpdateStructureBlockRotation::spec_deserialize(r11) {
                                                        Err(e) => Err(e),
                                                        Ok((rotation, r12)) => match String::spec_deserialize(r12) {
                                                            Err(e) => Err(e),
                                                            Ok((metadata, r13)) => match Float32::spec_deserialize(r13) {
                                                                Err(e) => Err(e),
                                                                Ok((integrity, r14)) => match VarLong::spec_deserialize(r14) {
                                                                    Err(e) => Err(e),
                                                                    Ok((seed, r15)) => match UpdateStructureBlockFlags::spec_deserialize(r15) {
                                                                        Err(e) => Err(e),
                                                                        Ok((flags, r16)) => Ok((PlayUpdateStructureBlockSpecModel { location, action, mode, name, offset_x, offset_y, offset_z, size_x, size_y, size_z, mirror, rotation, metadata, integrity, seed, flags }, r16)),
                                                                    },
                                                                },
                                                            },
                                                        },
                                                    },
                                                },
                                            },
                                        },
                                    },
                                },
                            },
                        },
                    },
                },
            },
        }
    }

    #[verifier::rlimit(100)]
    #[verifier::spinoff_prover]
    proof fn lemma_round_trip(m: PlayUpdateStructureBlockSpecModel, rest: Seq<u8>) {
        let t15 = UpdateStructureBlockFlags::spec_serialize(m.flags) + rest;
        let t14 = VarLong::spec_serialize(m.seed) + t15;
        let t13 = Float32::spec_serialize(m.integrity) + t14;
        let t12 = String::spec_serialize(m.metadata) + t13;
        let t11 = UpdateStructureBlockRotation::spec_serialize(m.rotation) + t12;
        let t10 = UpdateStructureBlockMirror::spec_serialize(m.mirror) + t11;
        let t9 = i8::spec_serialize(m.size_z) + t10;
        let t8 = i8::spec_serialize(m.size_y) + t9;
        let t7 = i8::spec_serialize(m.size_x) + t8;
        let t6 = i8::spec_serialize(m.offset_z) + t7;
        let t5 = i8::spec_serialize(m.offset_y) + t6;
        let t4 = i8::spec_serialize(m.offset_x) + t5;
        let t3 = String::spec_serialize(m.name) + t4;
        let t2 = UpdateStructureBlockMode::spec_serialize(m.mode) + t3;
        let t1 = UpdateStructureBlockAction::spec_serialize(m.action) + t2;
        let p1 = IntPosition::spec_serialize(m.location);
        let p2 = p1 + UpdateStructureBlockAction::spec_serialize(m.action);
        let p3 = p2 + UpdateStructureBlockMode::spec_serialize(m.mode);
        let p4 = p3 + String::spec_serialize(m.name);
        let p5 = p4 + i8::spec_serialize(m.offset_x);
        let p6 = p5 + i8::spec_serialize(m.offset_y);
        let p7 = p6 + i8::spec_serialize(m.offset_z);
        let p8 = p7 + i8::spec_serialize(m.size_x);
        let p9 = p8 + i8::spec_serialize(m.size_y);
        let p10 = p9 + i8::spec_serialize(m.size_z);
        let p11 = p10 + UpdateStructureBlockMirror::spec_serialize(m.mirror);
        let p12 = p11 + UpdateStructureBlockRotation::spec_serialize(m.rotation);
        let p13 = p12 + String::spec_serialize(m.metadata);
        let p14 = p13 + Float32::spec_serialize(m.integrity);
        let p15 = p14 + VarLong::spec_serialize(m.seed);
        let p16 = p15 + UpdateStructureBlockFlags::spec_serialize(m.flags);
        assert(Self::spec_serialize(m) == p16);
        lemma_concat_associative(p15, UpdateStructureBlockFlags::spec_serialize(m.flags), rest);
        lemma_concat_associative(p14, VarLong::spec_serialize(m.seed), t15);
        lemma_concat_associative(p13, Float32::spec_serialize(m.integrity), t14);
        lemma_concat_associative(p12, String::spec_serialize(m.metadata), t13);
        lemma_concat_associative(p11, UpdateStructureBlockRotation::spec_serialize(m.rotation), t12);
        lemma_concat_associative(p10, UpdateStructureBlockMirror::spec_serialize(m.mirror), t11);
        lemma_concat_associative(p9, i8::spec_serialize(m.size_z), t10);
        lemma_concat_associative(p8, i8::spec_serialize(m.size_y), t9);
        lemma_concat_associative(p7, i8::spec_serialize(m.size_x), t8);
        lemma_concat_associative(p6, i8::spec_serialize(m.offset_z), t7);
        lemma_concat_associative(p5, i8::spec_serialize(m.offset_y), t6);
        lemma_concat_associative(p4, i8::spec_serialize(m.offset_x), t5);
        lemma_concat_associative(p3, String::spec_serialize(m.name), t4);
        lemma_concat_associative(p2, UpdateStructureBlockMode::spec_serialize(m.mode), t3);
        lemma_concat_associative(p1, UpdateStructureBlockAction::spec_serialize(m.action), t2);
        IntPosition::lemma_round_trip(m.location, t1);
        assert(IntPosition::spec_deserialize(Self::spec_serialize(m) + rest) == Ok::<(<IntPosition as Codec>::Model, Seq<u8>), DeserializeErr>((m.location, t1)));
        UpdateStructureBlockAction::lemma_round_trip(m.action, t2);
        assert(UpdateStructureBlockAction::spec_deserialize(t1) == Ok::<(<UpdateStructureBlockAction as Codec>::Model, Seq<u8>), DeserializeErr>((m.action, t2)));
        UpdateStructureBlockMode::lemma_round_trip(m.mode, t3);
        assert(UpdateStructureBlockMode::spec_deserialize(t2) == Ok::<(<UpdateStructureBlockMode as Codec>::Model, Seq<u8>), DeserializeErr>((m.mode, t3)));
        String::lemma_round_trip(m.name, t4);
        assert(String::spec_deserialize(t3) == Ok::<(<String as Codec>::Model, Seq<u8>), DeserializeErr>((m.name, t4)));
        i8::lemma_round_trip(m.offset_x, t5);
        assert(i8::spec_deserialize(t4) == Ok::<(<i8 as Codec>::Model, Seq<u8>), DeserializeErr>((m.offset_x, t5)));
        i8::lemma_round_trip(m.offset_y, t6);
        assert(i8::spec_deserialize(t5) == Ok::<(<i8 as Codec>::Model, Seq<u8>), DeserializeErr>((m.offset_y, t6)));
        i8::lemma_round_trip(m.offset_z, t7);
        assert(i8::spec_deserialize(t6) == Ok::<(<i8 as Codec>::Model, Seq<u8>), DeserializeErr>((m.offset_z, t7)));
        i8::lemma_round_trip(m.size_x, t8);
        assert(i8::spec_deserialize(t7) == Ok::<(<i8 as Codec>::Model, Seq<u8>), DeserializeErr>((m.size_x, t8)));
        i8::lemma_round_trip(m.size_y, t9);
        assert(i8::spec_deserialize(t8) == Ok::<(<i8 as Codec>::Model, Seq<u8>), DeserializeErr>((m.size_y, t9)));
        i8::lemma_round_trip(m.size_z, t10);
        assert(i8::spec_deserialize(t9) == Ok::<(<i8 as Codec>::Model, Seq<u8>), DeserializeErr>((m.size_z, t10)));
        UpdateStructureBlockMirror::lemma_round_trip(m.mirror, t11);
        assert(UpdateStructureBlockMirror::spec_deserialize(t10) == Ok::<(<UpdateStructureBlockMirror as Codec>::Model, Seq<u8>), DeserializeErr>((m.mirror, t11)));
        UpdateStructureBlockRotation::lemma_round_trip(m.rotation, t12);
        assert(UpdateStructureBlockRotation::spec_deserialize(t11) == Ok::<(<UpdateStructureBlockRotation as Codec>::Model, Seq<u8>), DeserializeErr>((m.rotation, t12)));
        String::lemma_round_trip(m.metadata, t13);
        assert(String::spec_deserialize(t12) == Ok::<(<String as Codec>::Model, Seq<u8>), DeserializeErr>((m.metadata, t13)));
        Float32::lemma_round_trip(m.integrity, t14);
        assert(Float32::spec_deserialize(t13) == Ok::<(<Float32 as Codec>::Model, Seq<u8>), DeserializeErr>((m.integrity, t14)));
        VarLong::lemma_round_trip(m.seed, t15);
        assert(VarLong::spec_deserialize(t14) == Ok::<(<VarLong as Codec>::Model, Seq<u8>), DeserializeErr>((m.seed, t15)));
        UpdateStructureBlockFlags::lemma_round_trip(m.flags, rest);
        assert(UpdateStructureBlockFlags::spec_deserialize(t15) == Ok::<(<UpdateStructureBlockFlags as Codec>::Model, Seq<u8>), DeserializeErr>((m.flags, rest)));
    }

    fn mc_serialize(&self, to: &mut Vec<u8>) {
        let ghost start = to@;
        self.location.mc_serialize(to);
        self.action.mc_serialize(to);
        proof {
            lemma_concat_associative(start, IntPosition::spec_serialize(self.location.model()), UpdateStructureBlockAction::spec_serialize(self.action.model()));
        }
        self.mode.mc_serialize(to);
        proof {
            lemma_concat_associative(start, IntPosition::spec_serialize(self.location.model()) + UpdateStructureBlockAction::spec_serialize(self.action.model()), UpdateStructureBlockMode::spec_serialize(self.mode.model()));
        }
        self.name.mc_serialize(to);
        proof {
            lemma_concat_associative(start, IntPosition::spec_serialize(self.location.model()) + UpdateStructureBlockAction::spec_serialize(self.action.model()) + UpdateStructureBlockMode::spec_serialize(self.mode.model()), String::spec_serialize(self.name.model()));
        }
        self.offset_x.mc_serialize(to);
        proof {
            lemma_concat_associative(start, IntPosition::spec_serialize(self.location.model()) + UpdateStructureBlockAction::spec_serialize(self.action.model()) + UpdateStructureBlockMode::spec_serialize(self.mode.model()) + String::spec_serialize(self.name.model()), i8::spec_serialize(self.offset_x.model()));
        }
        self.offset_y.mc_serialize(to);
        proof {
            lemma_concat_associative(start, IntPosition::spec_serialize(self.location.model()) + UpdateStructureBlockAction::spec_serialize(self.action.model()) + UpdateStructureBlockMode::spec_serialize(self.mode.model()) + String::spec_serialize(self.name.model()) + i8::spec_serialize(self.offset_x.model()), i8::spec_serialize(self.offset_y.model()));
        }
        self.offset_z.mc_serialize(to);
        proof {
            lemma_concat_associative(start, IntPosition::spec_serialize(self.location.model()) + UpdateStructureBlockAction::spec_serialize(self.action.model()) + UpdateStructureBlockMode::spec_serialize(self.mode.model()) + String::spec_serialize(self.name.model()) + i8::spec_serialize(self.offset_x.model()) + i8::spec_serialize(self.offset_y.model()), i8::spec_serialize(self.offset_z.model()));
        }
        self.size_x.mc_serialize(to);
        proof {
            lemma_concat_associative(start, IntPosition::spec_serialize(self.location.model()) + UpdateStructureBlockAction::spec_serialize(self.action.model()) + UpdateStructureBlockMode::spec_serialize(self.mode.model()) + String::spec_serialize(self.name.model()) + i8::spec_serialize(self.offset_x.model()) + i8::spec_serialize(self.offset_y.model()) + i8::spec_serialize(self.offset_z.model()), i8::spec_serialize(self.size_x.model()));
        }
        self.size_y.mc_serialize(to);
        proof {
            lemma_concat_associative(start, IntPosition::spec_serialize(self.location.model()) + UpdateStructureBlockAction::spec_serialize(self.action.model()) + UpdateStructureBlockMode::spec_serialize(self.mode.model()) + String::spec_serialize(self.name.model()) + i8::spec_serialize(self.offset_x.model()) + i8::spec_serialize(self.offset_y.model()) + i8::spec_serialize(self.offset_z.model()) + i8::spec_serialize(self.size_x.model()), i8::spec_serialize(self.size_y.model()));
        }
        self.size_z.mc_serialize(to);
        proof {
            lemma_concat_associative(start, IntPosition::spec_serialize(self.location.model()) + UpdateStructureBlockAction::spec_serialize(self.action.model()) + UpdateStructureBlockMode::spec_serialize(self.mode.model()) + String::spec_serialize(self.name.model()) + i8::spec_serialize(self.offset_x.model()) + i8::spec_serialize(self.offset_y.model()) + i8::spec_serialize(self.offset_z.model()) + i8::spec_serialize(self.size_x.model()) + i8::spec_serialize(self.size_y.model()), i8::spec_serialize(self.size_z.model()));
        }
        self.mirror.mc_serialize(to);
        proof {
            lemma_concat_associative(start, IntPosition::spec_serialize(self.location.model()) + UpdateStructureBlockAction::spec_serialize(self.action.model()) + UpdateStructureBlockMode::spec_serialize(self.mode.model()) + String::spec_serialize(self.name.model()) + i8::spec_serialize(self.offset_x.model()) + i8::spec_serialize(self.offset_y.model()) + i8::spec_serialize(self.offset_z.model()) + i8::spec_serialize(self.size_x.model()) + i8::spec_serialize(self.size_y.model()) + i8::spec_serialize(self.size_z.model()), UpdateStructureBlockMirror::spec_serialize(self.mirror.model()));
        }
        self.rotation.mc_serialize(to);
        proof {
            lemma_concat_associative(start, IntPosition::spec_serialize(self.location.model()) + UpdateStructureBlockAction::spec_serialize(self.action.model()) + UpdateStructureBlockMode::spec_serialize(self.mode.model()) + String::spec_serialize(self.name.model()) + i8::spec_serialize(self.offset_x.model()) + i8::spec_serialize(self.offset_y.model()) + i8::spec_serialize(self.offset_z.model()) + i8::spec_serialize(self.size_x.model()) + i8::spec_serialize(self.size_y.model()) + i8::spec_serialize(self.size_z.model()) + UpdateStructureBlockMirror::spec_serialize(self.mirror.model()), UpdateStructureBlockRotation::spec_serialize(self.rotation.model()));
        }
        self.metadata.mc_serialize(to);
        proof {
            lemma_concat_associative(start, IntPosition::spec_serialize(self.location.model()) + UpdateStructureBlockAction::spec_serialize(self.action.model()) + UpdateStructureBlockMode::spec_serialize(self.mode.model()) + String::spec_serialize(self.name.model()) + i8::spec_serialize(self.offset_x.model()) + i8::spec_serialize(self.offset_y.model()) + i8::spec_serialize(self.offset_z.model()) + i8::spec_serialize(self.size_x.model()) + i8::spec_serialize(self.size_y.model()) + i8::spec_serialize(self.size_z.model()) + UpdateStructureBlockMirror::spec_serialize(self.mirror.model()) + UpdateStructureBlockRotation::spec_serialize(self.rotation.model()), String::spec_serialize(self.metadata.model()));
        }
        self.integrity.mc_serialize(to);
        proof {
            lemma_concat_associative(start, IntPosition::spec_serialize(self.location.model()) + UpdateStructureBlockAction::spec_serialize(self.action.model()) + UpdateStructureBlockMode::spec_serialize(self.mode.model()) + String::spec_serialize(self.name.model()) + i8::spec_serialize(self.offset_x.model()) + i8::spec_serialize(self.offset_y.model()) + i8::spec_serialize(self.offset_z.model()) + i8::spec_serialize(self.size_x.model()) + i8::spec_serialize(self.size_y.model()) + i8::spec_serialize(self.size_z.model()) + UpdateStructureBlockMirror::spec_serialize(self.mirror.model()) + UpdateStructureBlockRotation::spec_serialize(self.rotation.model()) + String::spec_serialize(self.metadata.model()), Float32::spec_serialize(self.integrity.model()));
        }
        self.seed.mc_serialize(to);
        proof {
            lemma_concat_associative(start, IntPosition::spec_serialize(self.location.model()) + UpdateStructureBlockAction::spec_serialize(self.action.model()) + UpdateStructureBlockMode::spec_serialize(self.mode.model()) + String::spec_serialize(self.name.model()) + i8::spec_serialize(self.offset_x.model()) + i8::spec_serialize(self.offset_y.model()) + i8::spec_serialize(self.offset_z.model()) + i8::spec_serialize(self.size_x.model()) + i8::spec_serialize(self.size_y.model()) + i8::spec_serialize(self.size_z.model()) + UpdateStructureBlockMirror::spec_serialize(self.mirror.model()) + UpdateStructureBlockRotation::spec_serialize(self.rotation.model()) + String::spec_serialize(self.metadata.model()) + Float32::spec_serialize(self.integrity.model()), VarLong::spec_serialize(self.seed.model()));
        }
        self.flags.mc_serialize(to);
        proof {
            lemma_concat_associative(start, IntPosition::spec_serialize(self.location.model()) + UpdateStructureBlockAction::spec_serialize(self.action.model()) + UpdateStructureBlockMode::spec_serialize(self.mode.model()) + String::spec_serialize(self.name.model()) + i8::spec_serialize(self.offset_x.model()) + i8::spec_serialize(self.offset_y.model()) + i8::spec_serialize(self.offset_z.model()) + i8::spec_serialize(self.size_x.model()) + i8::spec_serialize(self.size_y.model()) + i8::spec_serialize(self.size_z.model()) + UpdateStructureBlockMirror::spec_serialize(self.mirror.model()) + UpdateStructureBlockRotation::spec_serialize(self.rotation.model()) + String::spec_serialize(self.metadata.model()) + Float32::spec_serialize(self.integrity.model()) + VarLong::spec_serialize(self.seed.model()), UpdateStructureBlockFlags::spec_serialize(self.flags.model()));
        }
        assert(to@ =~= start + Self::spec_serialize(self.model()));
    }

    fn mc_deserialize(data: &[u8]) -> (r: Result<(Self, &[u8]), DeserializeErr>) {
        let (location, rest) = IntPosition::mc_deserialize(data)?;
        let (action, rest) = UpdateStructureBlockAction::mc_deserialize(rest)?;
        let (mode, rest) = UpdateStructureBlockMode::mc_deserialize(rest)?;
        let (name, rest) = String::mc_deserialize(rest)?;
        let (offset_x, rest) = i8::mc_deserialize(rest)?;
        let (offset_y, rest) = i8::mc_deserialize(rest)?;
        let (offset_z, rest) = i8::mc_deserialize(rest)?;
        let (size_x, rest) = i8::mc_deserialize(rest)?;
        let (size_y, rest) = i8::mc_deserialize(rest)?;
        let (size_z, rest) = i8::mc_deserialize(rest)?;
        let (mirror, rest) = UpdateStructureBlockMirror::mc_deserialize(rest)?;
        let (rotation, rest) = UpdateStructureBlockRotation::mc_deserialize(rest)?;
        let (metadata, rest) = String::mc_deserialize(rest)?;
        let (integrity, rest) = Float32::mc_deserialize(rest)?;
        let (seed, rest) = VarLong::mc_deserialize(rest)?;
        let (flags, rest) = UpdateStructureBlockFlags::mc_deserialize(rest)?;
        Ok((PlayUpdateStructureBlockSpec { location, action, mode, name, offset_x, offset_y, offset_z, size_x, size_y, size_z, mirror, rotation, metadata, integrity, seed, flags }, rest))
    }
}

/// The body of the play update sign message, as values.
pub struct PlayUpdateSignSpecModel {
    pub location: <IntPosition as Codec>::Model,
    pub line1: <String as Codec>::Model,
    pub line2: <String as Codec>::Model,
    pub line3: <String as Codec>::Model,
    pub line4: <String as Codec>::Model,
}

/// The body of the play update sign message
#[derive(Debug, Clone, PartialEq, Eq)]
pub struct PlayUpdateSignSpec {
    pub location: IntPosition,
    pub line1: String,
    pub line2: String,
    pub line3: String,
    pub line4: String,
}

impl Codec for PlayUpdateSignSpec {
    type Model = PlayUpdateSignSpecModel;

    open spec fn model(&self) -> PlayUpdateSignSpecModel {
        PlayUpdateSignSpecModel { location: self.location.model(), line1: self.line1.model(), line2: self.line2.model(), line3: self.line3.model(), line4: self.line4.model() }
    }

    open spec fn encodable(m: PlayUpdateSignSpecModel) -> bool {
        IntPosition::encodable(m.location) && String::encodable(m.line1) && String::encodable(m.line2) && String::encodable(m.line3) && String::encodable(m.line4)
    }

    open spec fn legal(m: PlayUpdateSignSpecModel) -> bool {
        IntPosition::legal(m.location) && String::legal(m.line1) && String::legal(m.line2) && String::legal(m.line3) && String::legal(m.line4)
    }

    open spec fn spec_serialize(m: PlayUpdateSignSpecModel) -> Seq<u8> {
        IntPosition::spec_serialize(m.location) + String::spec_serialize(m.line1) + String::spec_serialize(m.line2) + String::spec_serialize(m.line3) + String::spec_serialize(m.line4)
    }

    open spec fn spec_deserialize(s: Seq<u8>) -> SpecResult<PlayUpdateSignSpecModel> {
        match IntPosition::spec_deserialize(s) {
            Err(e) => Err(e),
            Ok((location, r1)) => match String::spec_deserialize(r1) {
                Err(e) => Err(e),
                Ok((line1, r2)) => match String::spec_deserialize(r2) {
                    Err(e) => Err(e),
                    Ok((line2, r3)) => match String::spec_deserialize(r3) {
                        Err(e) => Err(e),
                        Ok((line3, r4)) => match String::spec_deserialize(r4) {
                            Err(e) => Err(e),
                            Ok((line4, r5)) => Ok((PlayUpdateSignSpecModel { location, line1, line2, line3, line4 }, r5)),
                        },
                    },
                },
            },
        }
    }

    #[verifier::rlimit(100)]
    #[verifier::spinoff_prover]
    proof fn lemma_round_trip(m: PlayUpdateSignSpecModel, rest: Seq<u8>) {
        let t4 = String::spec_serialize(m.line4) + rest;
        let t3 = String::spec_serialize(m.line3) + t4;
        let t2 = String::spec_serialize(m.line2) + t3;
        let t1 = String::spec_serialize(m.line1) + t2;
        let p1 = IntPosition::spec_serialize(m.location);
        let p2 = p1 + String::spec_serialize(m.line1);
        let p3 = p2 + String::spec_serialize(m.line2);
        let p4 = p3 + String::spec_serialize(m.line3);
        let p5 = p4 + String::spec_serialize(m.line4);
        assert(Self::spec_serialize(m) == p5);
        lemma_concat_associative(p4, String::spec_serialize(m.line4), rest);
        lemma_concat_associative(p3, String::spec_serialize(m.line3), t4);
        lemma_concat_associative(p2, String::spec_serialize(m.line2), t3);
        lemma_concat_associative(p1, String::spec_serialize(m.line1), t2);
        IntPosition::lemma_round_trip(m.location, t1);
        assert(IntPosition::spec_deserialize(Self::spec_serialize(m) + rest) == Ok::<(<IntPosition as Codec>::Model, Seq<u8>), DeserializeErr>((m.location, t1)));
        String::lemma_round_trip(m.line1, t2);
        assert(String::spec_deserialize(t1) == Ok::<(<String as Codec>::Model, Seq<u8>), DeserializeErr>((m.line1, t2)));
        String::lemma_round_trip(m.line2, t3);
        assert(String::spec_deserialize(t2) == Ok::<(<String as Codec>::Model, Seq<u8>), DeserializeErr>((m.line2, t3)));
        String::lemma_round_trip(m.line3, t4);
        assert(String::spec_deserialize(t3) == Ok::<(<String as Codec>::Model, Seq<u8>), DeserializeErr>((m.line3, t4)));
        String::lemma_round_trip(m.line4, rest);
        assert(String::spec_deserialize(t4) == Ok::<(<String as Codec>::Model, Seq<u8>), DeserializeErr>((m.line4, rest)));
    }

    fn mc_serialize(&self, to: &mut Vec<u8>) {
        let ghost start = to@;
        self.location.mc_serialize(to);
        self.line1.mc_serialize(to);
        proof {
            lemma_concat_associative(start, IntPosition::spec_serialize(self.location.model()), String::spec_serialize(self.line1.model()));
        }
        self.line2.mc_serialize(to);
        proof {
            lemma_concat_associative(start, IntPosition::spec_serialize(self.location.model()) + String::spec_serialize(self.line1.model()), String::spec_serialize(self.line2.model()));
        }
        self.line3.mc_serialize(to);
        proof {
            lemma_concat_associative(start, IntPosition::spec_serialize(self.location.model()) + String::spec_serialize(self.line1.model()) + String::spec_serialize(self.line2.model()), String::spec_serialize(self.line3.model()));
        }
        self.line4.mc_serialize(to);
        proof {
            lemma_concat_associative(start, IntPosition::spec_serialize(self.location.model()) + String::spec_serialize(self.line1.model()) + String::spec_serialize(self.line2.model()) + String::spec_serialize(self.line3.model()), String::spec_serialize(self.line4.model()));
        }
        assert(to@ =~= start + Self::spec_serialize(self.model()));
    }

    fn mc_deserialize(data: &[u8]) -> (r: Result<(Self, &[u8]), DeserializeErr>) {
        let (location, rest) = IntPosition::mc_deserialize(data)?;
        let (line1, rest) = String::mc_deserialize(rest)?;
        let (line2, rest) = String::mc_deserialize(rest)?;
        let (line3, rest) = String::mc_deserialize(rest)?;
        let (line4, rest) = String::mc_deserialize(rest)?;
        Ok((PlayUpdateSignSpec { location, line1, line2, line3, line4 }, rest))
    }
}

/// The body of the play client animation message, as values.
pub struct PlayClientAnimationSpecModel {
    pub hand: <Hand as Codec>::Model,
}

/// The body of the play client animation message
#[derive(Debug, Clone, PartialEq, Eq)]
pub struct PlayClientAnimationSpec {
    pub hand: Hand,
}

impl Codec for PlayClientAnimationSpec {
    type Model = PlayClientAnimationSpecModel;

    open spec fn model(&self) -> PlayClientAnimationSpecModel {
        PlayClientAnimationSpecModel { hand: self.hand.model() }
    }

    open spec fn encodable(m: PlayClientAnimationSpecModel) -> bool {
        Hand::encodable(m.hand)
    }

    open spec fn legal(m: PlayClientAnimationSpecModel) -> bool {
        Hand::legal(m.hand)
    }

    open spec fn spec_serialize(m: PlayClientAnimationSpecModel) -> Seq<u8> {
        Hand::spec_serialize(m.hand)
    }

    open spec fn spec_deserialize(s: Seq<u8>) -> SpecResult<PlayClientAnimationSpecModel> {
        match Hand::spec_deserialize(s) {
            Err(e) => Err(e),
            Ok((hand, r1)) => Ok((PlayClientAnimationSpecModel { hand }, r1)),
        }
    }

    proof fn lemma_round_trip(m: PlayClientAnimationSpecModel, rest: Seq<u8>) {
        Hand::lemma_round_trip(m.hand, rest);
    }

    fn mc_serialize(&self, to: &mut Vec<u8>) {
        let ghost start = to@;
        self.hand.mc_serialize(to);
        assert(to@ =~= start + Self::spec_serialize(self.model()));
    }

    fn mc_deserialize(data: &[u8]) -> (r: Result<(Self, &[u8]), DeserializeErr>) {
        let (hand, rest) = Hand::mc_deserialize(data)?;
        Ok((PlayClientAnimationSpec { hand }, rest))
    }
}

/// The body of the play spectate message, as values.
pub struct PlaySpectateSpecModel {
    pub target: <UUID4 as Codec>::Model,
}

/// The body of the play spectate message
#[derive(Debug, Clone, PartialEq, Eq)]
pub struct PlaySpectateSpec {
    pub target: UUID4,
}

impl Codec for PlaySpectateSpec {
    type Model = PlaySpectateSpecModel;

    open spec fn model(&self) -> PlaySpectateSpecModel {
        PlaySpectateSpecModel { target: self.target.model() }
    }

    open spec fn encodable(m: PlaySpectateSpecModel) -> bool {
        UUID4::encodable(m.target)
    }

    open spec fn legal(m: PlaySpectateSpecModel) -> bool {
        UUID4::legal(m.target)
    }

    open spec fn spec_serialize(m: PlaySpectateSpecModel) -> Seq<u8> {
        UUID4::spec_serialize(m.target)
    }

    open spec fn spec_deserialize(s: Seq<u8>) -> SpecResult<PlaySpectateSpecModel> {
        match UUID4::spec_deserialize(s) {
            Err(e) => Err(e),
            Ok((target, r1)) => Ok((PlaySpectateSpecModel { target }, r1)),
        }
    }

    proof fn lemma_round_trip(m: PlaySpectateSpecModel, rest: Seq<u8>) {
        UUID4::lemma_round_trip(m.target, rest);
    }

    fn mc_serialize(&self, to: &mut Vec<u8>) {
        let ghost start = to@;
        self.target.mc_serialize(to);
        assert(to@ =~= start + Self::spec_serialize(self.model()));
    }

    fn mc_deserialize(data: &[u8]) -> (r: Result<(Self, &[u8]), DeserializeErr>) {
        let (target, rest) = UUID4::mc_deserialize(data)?;
        Ok((PlaySpectateSpec { target }, rest))
    }
}

/// The body of the play block placement message, as values.
pub struct PlayBlockPlacementSpecModel {
    pub hand: <Hand as Codec>::Model,
    pub location: <IntPosition as Codec>::Model,
    pub face: <DiggingFace as Codec>::Model,
    pub cursor_position_x: <Float32 as Codec>::Model,
    pub cursor_position_y: <Float32 as Codec>::Model,
    pub cursor_position_z: <Float32 as Codec>::Model,
    pub inside_block: <bool as Codec>::Model,
}

/// The body of the play block placement message
#[derive(Debug, Clone, PartialEq, Eq)]
pub struct PlayBlockPlacementSpec {
    pub hand: Hand,
    pub location: IntPosition,
    pub face: DiggingFace,
    pub cursor_position_x: Float32,
    pub cursor_position_y: Float32,
    pub cursor_position_z: Float32,
    pub inside_block: bool,
}

impl Codec for PlayBlockPlacementSpec {
    type Model = PlayBlockPlacementSpecModel;

    open spec fn model(&self) -> PlayBlockPlacementSpecModel {
        PlayBlockPlacementSpecModel { hand: self.hand.model(), location: self.location.model(), face: self.face.model(), cursor_position_x: self.cursor_position_x.model(), cursor_position_y: self.cursor_position_y.model(), cursor_position_z: self.cursor_position_z.model(), inside_block: self.inside_block.model() }
    }

    open spec fn encodable(m: PlayBlockPlacementSpecModel) -> bool {
        Hand::encodable(m.hand) && IntPosition::encodable(m.location) && DiggingFace::encodable(m.face) && Float32::encodable(m.cursor_position_x) && Float32::encodable(m.cursor_position_y) && Float32::encodable(m.cursor_position_z) && bool::encodable(m.inside_block)
    }

    open spec fn legal(m: PlayBlockPlacementSpecModel) -> bool {
        Hand::legal(m.hand) && IntPosition::legal(m.location) && DiggingFace::legal(m.face) && Float32::legal(m.cursor_position_x) && Float32::legal(m.cursor_position_y) && Float32::legal(m.cursor_position_z) && bool::legal(m.inside_block)
    }

    open spec fn spec_serialize(m: PlayBlockPlacementSpecModel) -> Seq<u8> {
        Hand::spec_serialize(m.hand) + IntPosition::spec_serialize(m.location) + DiggingFace::spec_serialize(m.face) + Float32::spec_serialize(m.cursor_position_x) + Float32::spec_serialize(m.cursor_position_y) + Float32::spec_serialize(m.cursor_position_z) + bool::spec_serialize(m.inside_block)
    }

    open spec fn spec_deserialize(s: Seq<u8>) -> SpecResult<PlayBlockPlacementSpecModel> {
        match Hand::spec_deserialize(s) {
            Err(e) => Err(e),
            Ok((hand, r1)) => match IntPosition::spec_deserialize(r1) {
                Err(e) => Err(e),
                Ok((location, r2)) => match DiggingFace::spec_deserialize(r2) {
                    Err(e) => Err(e),
                    Ok((face, r3)) => match Float32::spec_deserialize(r3) {
                        Err(e) => Err(e),
                        Ok((cursor_position_x, r4)) => match Float32::spec_deserialize(r4) {
                            Err(e) => Err(e),
                            Ok((cursor_position_y, r5)) => match Float32::spec_deserialize(r5) {
                                Err(e) => Err(e),
                                Ok((cursor_position_z, r6)) => match bool::spec_deserialize(r6) {
                                    Err(e) => Err(e),
                                    Ok((inside_block, r7)) => Ok((PlayBlockPlacementSpecModel { hand, location, face, cursor_position_x, cursor_position_y, cursor_position_z, inside_block }, r7)),
                                },
                            },
                        },
                    },
                },
            },
        }
    }

    #[verifier::rlimit(100)]
    #[verifier::spinoff_prover]
    proof fn lemma_round_trip(m: PlayBlockPlacementSpecModel, rest: Seq<u8>) {
        let t6 = bool::spec_serialize(m.inside_block) + rest;
        let t5 = Float32::spec_serialize(m.cursor_position_z) + t6;
        let t4 = Float32::spec_serialize(m.cursor_position_y) + t5;
        let t3 = Float32::spec_serialize(m.cursor_position_x) + t4;
        let t2 = DiggingFace::spec_serialize(m.face) + t3;
        let t1 = IntPosition::spec_serialize(m.location) + t2;
        let p1 = Hand::spec_serialize(m.hand);
        let p2 = p1 + IntPosition::spec_serialize(m.location);
        let p3 = p2 + DiggingFace::spec_serialize(m.face);
        let p4 = p3 + Float32::spec_serialize(m.cursor_position_x);
        let p5 = p4 + Float32::spec_serialize(m.cursor_position_y);
        let p6 = p5 + Float32::spec_serialize(m.cursor_position_z);
        let p7 = p6 + bool::spec_serialize(m.inside_block);
        assert(Self::spec_serialize(m) == p7);
        lemma_concat_associative(p6, bool::spec_serialize(m.inside_block), rest);
        lemma_concat_associative(p5, Float32::spec_serialize(m.cursor_position_z), t6);
        lemma_concat_associative(p4, Float32::spec_serialize(m.cursor_position_y), t5);
        lemma_concat_associative(p3, Float32::spec_serialize(m.cursor_position_x), t4);
        lemma_concat_associative(p2, DiggingFace::spec_serialize(m.face), t3);
        lemma_concat_associative(p1, IntPosition::spec_serialize(m.location), t2);
        Hand::lemma_round_trip(m.hand, t1);
        assert(Hand::spec_deserialize(Self::spec_serialize(m) + rest) == Ok::<(<Hand as Codec>::Model, Seq<u8>), DeserializeErr>((m.hand, t1)));
        IntPosition::lemma_round_trip(m.location, t2);
        assert(IntPosition::spec_deserialize(t1) == Ok::<(<IntPosition as Codec>::Model, Seq<u8>), DeserializeErr>((m.location, t2)));
        DiggingFace::lemma_round_trip(m.face, t3);
        assert(DiggingFace::spec_deserialize(t2) == Ok::<(<DiggingFace as Codec>::Model, Seq<u8>), DeserializeErr>((m.face, t3)));
        Float32::lemma_round_trip(m.cursor_position_x, t4);
        assert(Float32::spec_deserialize(t3) == Ok::<(<Float32 as Codec>::Model, Seq<u8>), DeserializeErr>((m.cursor_position_x, t4)));
        Float32::lemma_round_trip(m.cursor_position_y, t5);
        assert(Float32::spec_deserialize(t4) == Ok::<(<Float32 as Codec>::Model, Seq<u8>), DeserializeErr>((m.cursor_position_y, t5)));
        Float32::lemma_round_trip(m.cursor_position_z, t6);
        assert(Float32::spec_deserialize(t5) == Ok::<(<Float32 as Codec>::Model, Seq<u8>), DeserializeErr>((m.cursor_position_z, t6)));
        bool::lemma_round_trip(m.inside_block, rest);
        assert(bool::spec_deserialize(t6) == Ok::<(<bool as Codec>::Model, Seq<u8>), DeserializeErr>((m.inside_block, rest)));
    }

    fn mc_serialize(&self, to: &mut Vec<u8>) {
        let ghost start = to@;
        self.hand.mc_serialize(to);
        self.location.mc_serialize(to);
        proof {
            lemma_concat_associative(start, Hand::spec_serialize(self.hand.model()), IntPosition::spec_serialize(self.location.model()));
        }
        self.face.mc_serialize(to);
        proof {
            lemma_concat_associative(start, Hand::spec_serialize(self.hand.model()) + IntPosition::spec_serialize(self.location.model()), DiggingFace::spec_serialize(self.face.model()));
        }
        self.cursor_position_x.mc_serialize(to);
        proof {
            lemma_concat_associative(start, Hand::spec_serialize(self.hand.model()) + IntPosition::spec_serialize(self.location.model()) + DiggingFace::spec_serialize(self.face.model()), Float32::spec_serialize(self.cursor_position_x.model()));
        }
        self.cursor_position_y.mc_serialize(to);
        proof {
            lemma_concat_associative(start, Hand::spec_serialize(self.hand.model()) + IntPosition::spec_serialize(self.location.model()) + DiggingFace::spec_serialize(self.face.model()) + Float32::spec_serialize(self.cursor_position_x.model()), Float32::spec_serialize(self.cursor_position_y.model()));
        }
        self.cursor_position_z.mc_serialize(to);
        proof {
            lemma_concat_associative(start, Hand::spec_serialize(self.hand.model()) + IntPosition::spec_serialize(self.location.model()) + DiggingFace::spec_serialize(self.face.model()) + Float32::spec_serialize(self.cursor_position_x.model()) + Float32::spec_serialize(self.cursor_position_y.model()), Float32::spec_serialize(self.cursor_position_z.model()));
        }
        self.inside_block.mc_serialize(to);
        proof {
            lemma_concat_associative(start, Hand::spec_serialize(self.hand.model()) + IntPosition::spec_serialize(self.location.model()) + DiggingFace::spec_serialize(self.face.model()) + Float32::spec_serialize(self.cursor_position_x.model()) + Float32::spec_serialize(self.cursor_position_y.model()) + Float32::spec_serialize(self.cursor_position_z.model()), bool::spec_serialize(self.inside_block.model()));
        }
        assert(to@ =~= start + Self::spec_serialize(self.model()));
    }

    fn mc_deserialize(data: &[u8]) -> (r: Result<(Self, &[u8]), DeserializeErr>) {
        let (hand, rest) = Hand::mc_deserialize(data)?;
        let (location, rest) = IntPosition::mc_deserialize(rest)?;
        let (face, rest) = DiggingFace::mc_deserialize(rest)?;
        let (cursor_position_x, rest) = Float32::mc_deserialize(rest)?;
        let (cursor_position_y, rest) = Float32::mc_deserialize(rest)?;
        let (cursor_position_z, rest) = Float32::mc_deserialize(rest)?;
        let (inside_block, rest) = bool::mc_deserialize(rest)?;
        Ok((PlayBlockPlacementSpec { hand, location, face, cursor_position_x, cursor_position_y, cursor_position_z, inside_block }, rest))
    }
}

/// The body of the play use item message, as values.
pub struct PlayUseItemSpecModel {
    pub hand: <Hand as Codec>::Model,
}

/// The body of the play use item message
#[derive(Debug, Clone, PartialEq, Eq)]
pub struct PlayUseItemSpec {
    pub hand: Hand,
}

impl Codec for PlayUseItemSpec {
    type Model = PlayUseItemSpecModel;

    open spec fn model(&self) -> PlayUseItemSpecModel {
        PlayUseItemSpecModel { hand: self.hand.model() }
    }

    open spec fn encodable(m: PlayUseItemSpecModel) -> bool {
        Hand::encodable(m.hand)
    }

    open spec fn legal(m: PlayUseItemSpecModel) -> bool {
        Hand::legal(m.hand)
    }

    open spec fn spec_serialize(m: PlayUseItemSpecModel) -> Seq<u8> {
        Hand::spec_serialize(m.hand)
    }

    open spec fn spec_deserialize(s: Seq<u8>) -> SpecResult<PlayUseItemSpecModel> {
        match Hand::spec_deserialize(s) {
            Err(e) => Err(e),
            Ok((hand, r1)) => Ok((PlayUseItemSpecModel { hand }, r1)),
        }
    }

    proof fn lemma_round_trip(m: PlayUseItemSpecModel, rest: Seq<u8>) {
        Hand::lemma_round_trip(m.hand, rest);
    }

    fn mc_serialize(&self, to: &mut Vec<u8>) {
        let ghost start = to@;
        self.hand.mc_serialize(to);
        assert(to@ =~= start + Self::spec_serialize(self.model()));
    }

    fn mc_deserialize(data: &[u8]) -> (r: Result<(Self, &[u8]), DeserializeErr>) {
        let (hand, rest) = Hand::mc_deserialize(data)?;
        Ok((PlayUseItemSpec { hand }, rest))
    }
}

} // verus!
