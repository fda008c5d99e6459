//! The packet registry: which message shape a numeric id names in each
//! connection state and direction, and the raw frame that carries an id and
//! an undecoded body.
use vstd::prelude::*;
use crate::codec::{Codec, DeserializeErr, SpecResult, read_matches};
use crate::varnum::{VarInt, spec_varint_serialize, spec_varint_deserialize};
use crate::primitives::str_eq;

verus! {

/// Which way a message travels.
#[derive(Debug, Clone, Copy, PartialEq, Eq, Structural)]
pub enum PacketDirection {
    ClientBound,
    ServerBound,
}

impl PacketDirection {
    pub open spec fn spec_opposite(d: PacketDirection) -> PacketDirection {
        match d {
            PacketDirection::ClientBound => PacketDirection::ServerBound,
            PacketDirection::ServerBound => PacketDirection::ClientBound,
        }
    }

    pub fn opposite(&self) -> (r: PacketDirection)
        ensures
            r == Self::spec_opposite(*self),
            r != *self,
            Self::spec_opposite(r) == *self,
    {
        match self {
            PacketDirection::ClientBound => PacketDirection::ServerBound,
            PacketDirection::ServerBound => PacketDirection::ClientBound,
        }
    }
}

/// The phase of a connection; each has its own set of messages.
#[derive(Debug, Clone, Copy, PartialEq, Eq, Structural)]
pub enum State {
    Handshaking,
    Status,
    Login,
    Play,
}

impl State {
    pub open spec fn spec_name(s: State) -> Seq<char> {
        match s {
            State::Handshaking => "Handshaking"@,
            State::Status => "Status"@,
            State::Login => "Login"@,
            State::Play => "Play"@,
        }
    }

    pub fn name(&self) -> (r: String)
        ensures
            r@ == Self::spec_name(*self),
    {
        match self {
            State::Handshaking => "Handshaking",
            State::Status => "Status",
            State::Login => "Login",
            State::Play => "Play",
        }.to_owned()
    }
}

/// One message shape of the catalogue and where it is found.
#[derive(Debug, Clone, Copy, PartialEq, Eq)]
pub struct PacketEntry {
    pub name: &'static str,
    pub body_struct: &'static str,
    pub id: i32,
    pub state: State,
    pub direction: PacketDirection,
}

pub open spec fn same_key(a: PacketEntry, b: PacketEntry) -> bool {
    a.state == b.state && a.direction == b.direction && a.id == b.id
}

pub open spec fn has_key(e: PacketEntry, state: State, direction: PacketDirection, id: i32) -> bool {
    e.state == state && e.direction == direction && e.id == id
}

/// No two entries share a state, a direction and an id.
pub open spec fn keys_unique(es: Seq<PacketEntry>) -> bool {
    forall|i: int, j: int| 0 <= i < j < es.len() ==> !same_key(#[trigger] es[i], #[trigger] es[j])
}

/// Why a table could not become a registry.
#[derive(Debug, Clone, Copy, PartialEq, Eq, Structural)]
pub enum RegistryError {
    /// Two entries share this state, direction and id.
    DuplicateKey { state: State, direction: PacketDirection, id: i32 },
}

/// The version number of the protocol this catalogue describes.
pub const PROTOCOL_VERSION: i32 = 578;

/// An immutable table of message shapes, keyed by state, direction and id.
#[derive(Debug)]
pub struct Registry {
    entries: Vec<PacketEntry>,
    version: i32,
}

impl Registry {
    #[verifier::type_invariant]
    spec fn inv(&self) -> bool {
        keys_unique(self.entries@)
    }

    pub closed spec fn spec_entries(&self) -> Seq<PacketEntry> {
        self.entries@
    }

    pub closed spec fn spec_version(&self) -> i32 {
        self.version
    }

    /// Builds a registry, refusing a table in which two entries share a key.
    pub fn new(version: i32, entries: Vec<PacketEntry>) -> (r: Result<Registry, RegistryError>)
        ensures
            r is Ok <==> keys_unique(entries@),
            r matches Ok(reg) ==> reg.spec_entries() == entries@ && reg.spec_version() == version,
            r matches Err(RegistryError::DuplicateKey { state, direction, id }) ==> exists|
                i: int,
                j: int,
            |
                0 <= i < j < entries@.len() && same_key(entries@[i], entries@[j]) && has_key(
                    entries@[i],
                    state,
                    direction,
                    id,
                ),
    {
        let n = entries.len();
        let mut i: usize = 0;
        while i < n
            invariant
                n == entries@.len(),
                i <= n,
                forall|a: int, b: int|
                    0 <= a < i && a < b < n ==> !same_key(#[trigger] entries@[a], #[trigger] entries@[b]),
            decreases n - i,
        {
            let mut j: usize = i + 1;
            while j < n
                invariant
                    n == entries@.len(),
                    i < n,
                    i < j <= n,
                    forall|a: int, b: int|
                        0 <= a < i && a < b < n ==> !same_key(#[trigger] entries@[a], #[trigger] entries@[b]),
                    forall|b: int| i < b < j ==> !same_key(entries@[i as int], #[trigger] entries@[b]),
                decreases n - j,
            {
                let a = entries[i];
                let b = entries[j];
                if a.state == b.state && a.direction == b.direction && a.id == b.id {
                    assert(0 <= i < j < n && same_key(entries@[i as int], entries@[j as int])
                        && has_key(entries@[i as int], a.state, a.direction, a.id));
                    return Err(RegistryError::DuplicateKey { state: a.state, direction: a.direction, id: a.id });
                }
                j = j + 1;
            }
            i = i + 1;
        }
        Ok(Registry { entries, version })
    }

    pub fn version(&self) -> (r: i32)
        ensures
            r == self.spec_version(),
    {
        self.version
    }

    /// Every entry, in the order the table was given.
    pub fn packets(&self) -> (r: &Vec<PacketEntry>)
        ensures
            r@ == self.spec_entries(),
    {
        &self.entries
    }

    /// The shape that `id` names in `state` and `direction`, if any; keys are
    /// unique, so there is at most one.
    pub fn resolve(&self, state: State, direction: PacketDirection, id: i32) -> (r: Option<PacketEntry>)
        ensures
            match r {
                Some(e) => self.spec_entries().contains(e) && has_key(e, state, direction, id),
                None => forall|k: int|
                    0 <= k < self.spec_entries().len() ==> !has_key(
                        #[trigger] self.spec_entries()[k],
                        state,
                        direction,
                        id,
                    ),
            },
            forall|k: int|
                0 <= k < self.spec_entries().len() && has_key(
                    #[trigger] self.spec_entries()[k],
                    state,
                    direction,
                    id,
                ) ==> r == Some(self.spec_entries()[k]),
    {
        proof {
            use_type_invariant(self);
        }
        let mut k: usize = 0;
        while k < self.entries.len()
            invariant
                k <= self.entries@.len(),
                keys_unique(self.entries@),
                forall|a: int| 0 <= a < k ==> !has_key(#[trigger] self.entries@[a], state, direction, id),
            decreases self.entries@.len() - k,
        {
            let e = self.entries[k];
            if e.state == state && e.direction == direction && e.id == id {
                proof {
                    assert forall|b: int|
                        0 <= b < self.entries@.len() && has_key(
                            #[trigger] self.entries@[b],
                            state,
                            direction,
                            id,
                        ) implies self.entries@[b] == e by {
                        if b > k {
                            assert(!same_key(self.entries@[k as int], self.entries@[b]));
                        } else if b == k {
                            assert(self.entries@[b] == e);
                        }
                    }
                    assert(self.entries@[k as int] == e);
                }
                return Some(e);
            }
            k = k + 1;
        }
        None
    }

    /// Where the shape called `name` is found: its state, direction and id.
    pub fn id_of(&self, name: &str) -> (r: Option<PacketEntry>)
        ensures
            match r {
                Some(e) => self.spec_entries().contains(e) && e.name@ == name@,
                None => forall|k: int|
                    0 <= k < self.spec_entries().len() ==> (#[trigger] self.spec_entries()[k]).name@
                        != name@,
            },
    {
        let mut k: usize = 0;
        while k < self.entries.len()
            invariant
                k <= self.entries@.len(),
                forall|a: int| 0 <= a < k ==> (#[trigger] self.entries@[a]).name@ != name@,
            decreases self.entries@.len() - k,
        {
            let e = self.entries[k];
            if str_eq(e.name, name) {
                assert(self.entries@[k as int] == e);
                return Some(e);
            }
            k = k + 1;
        }
        None
    }

    /// The catalogue of protocol version 578. Its keys are unique, so it
    /// always becomes a registry.
    pub fn protocol_578() -> (r: Result<Registry, RegistryError>)
        ensures
            r is Ok,
            r matches Ok(reg) ==> reg.spec_version() == PROTOCOL_VERSION && reg.spec_entries()
                == catalogue_578(),
    {
        let entries = catalogue();
        proof {
            lemma_catalogue_keys_unique();
        }
        Registry::new(PROTOCOL_VERSION, entries)
    }
}

/// How many message shapes the catalogue holds.
pub const CATALOGUE_SIZE: usize = 152;

/// Entry `i` of the catalogue; entries are ordered by state, direction and
/// id.
pub open spec fn catalogue_entry(i: u8) -> PacketEntry {
    match i {
        0 => PacketEntry { name: "Handshake", body_struct: "HandshakeSpec", id: 0, state: State::Handshaking, direction: PacketDirection::ServerBound },
        1 => PacketEntry { name: "StatusResponse", body_struct: "StatusResponseSpec", id: 0, state: State::Status, direction: PacketDirection::ClientBound },
        2 => PacketEntry { name: "StatusPong", body_struct: "StatusPongSpec", id: 1, state: State::Status, direction: PacketDirection::ClientBound },
        3 => PacketEntry { name: "StatusRequest", body_struct: "StatusRequestSpec", id: 0, state: State::Status, direction: PacketDirection::ServerBound },
        4 => PacketEntry { name: "StatusPing", body_struct: "StatusPingSpec", id: 1, state: State::Status, direction: PacketDirection::ServerBound },
        5 => PacketEntry { name: "LoginDisconnect", body_struct: "LoginDisconnectSpec", id: 0, state: State::Login, direction: PacketDirection::ClientBound },
        6 => PacketEntry { name: "LoginEncryptionRequest", body_struct: "LoginEncryptionRequestSpec", id: 1, state: State::Login, direction: PacketDirection::ClientBound },
        7 => PacketEntry { name: "LoginSuccess", body_struct: "LoginSuccessSpec", id: 2, state: State::Login, direction: PacketDirection::ClientBound },
        8 => PacketEntry { name: "LoginSetCompression", body_struct: "LoginSetCompressionSpec", id: 3, state: State::Login, direction: PacketDirection::ClientBound },
        9 => PacketEntry { name: "LoginPluginRequest", body_struct: "LoginPluginRequestSpec", id: 4, state: State::Login, direction: PacketDirection::ClientBound },
        10 => PacketEntry { name: "LoginStart", body_struct: "LoginStartSpec", id: 0, state: State::Login, direction: PacketDirection::ServerBound },
        11 => PacketEntry { name: "LoginEncryptionResponse", body_struct: "LoginEncryptionResponseSpec", id: 1, state: State::Login, direction: PacketDirection::ServerBound },
        12 => PacketEntry { name: "LoginPluginResponse", body_struct: "LoginPluginResponseSpec", id: 2, state: State::Login, direction: PacketDirection::ServerBound },
        13 => PacketEntry { name: "PlaySpawnEntity", body_struct: "PlaySpawnEntitySpec", id: 0, state: State::Play, direction: PacketDirection::ClientBound },
        14 => PacketEntry { name: "PlaySpawnExperienceOrb", body_struct: "PlaySpawnExperienceOrbSpec", id: 1, state: State::Play, direction: PacketDirection::ClientBound },
        15 => PacketEntry { name: "PlaySpawnWeatherEntity", body_struct: "PlaySpawnWeatherEntitySpec", id: 2, state: State::Play, direction: PacketDirection::ClientBound },
        16 => PacketEntry { name: "PlaySpawnLivingEntity", body_struct: "PlaySpawnLivingEntitySpec", id: 3, state: State::Play, direction: PacketDirection::ClientBound },
        17 => PacketEntry { name: "PlaySpawnPainting", body_struct: "PlaySpawnPaintingSpec", id: 4, state: State::Play, direction: PacketDirection::ClientBound },
        18 => PacketEntry { name: "PlaySpawnPlayer", body_struct: "PlaySpawnPlayerSpec", id: 5, state: State::Play, direction: PacketDirection::ClientBound },
        19 => PacketEntry { name: "PlayEntityAnimation", body_struct: "PlayEntityAnimationSpec", id: 6, state: State::Play, direction: PacketDirection::ClientBound },
        20 => PacketEntry { name: "PlayStatistics", body_struct: "PlayStatisticsSpec", id: 7, state: State::Play, direction: PacketDirection::ClientBound },
        21 => PacketEntry { name: "PlayAcknowledgePlayerDigging", body_struct: "PlayAcknowledgePlayerDiggingSpec", id: 8, state: State::Play, direction: PacketDirection::ClientBound },
        22 => PacketEntry { name: "PlayBlockBreakAnimation", body_struct: "PlayBlockBreakAnimationSpec", id: 9, state: State::Play, direction: PacketDirection::ClientBound },
        23 => PacketEntry { name: "PlayBlockEntityData", body_struct: "PlayBlockEntityDataSpec", id: 10, state: State::Play, direction: PacketDirection::ClientBound },
        24 => PacketEntry { name: "PlayBlockAction", body_struct: "PlayBlockActionSpec", id: 11, state: State::Play, direction: PacketDirection::ClientBound },
        25 => PacketEntry { name: "PlayBlockChange", body_struct: "PlayBlockChangeSpec", id: 12, state: State::Play, direction: PacketDirection::ClientBound },
        26 => PacketEntry { name: "PlayBossBar", body_struct: "PlayBossBarSpec", id: 13, state: State::Play, direction: PacketDirection::ClientBound },
        27 => PacketEntry { name: "PlayServerDifficulty", body_struct: "PlayServerDifficultySpec", id: 14, state: State::Play, direction: PacketDirection::ClientBound },
        28 => PacketEntry { name: "PlayServerChatMessage", body_struct: "PlayServerChatMessageSpec", id: 15, state: State::Play, direction: PacketDirection::ClientBound },
        29 => PacketEntry { name: "PlayMultiBlockChange", body_struct: "PlayMultiBlockChangeSpec", id: 16, state: State::Play, direction: PacketDirection::ClientBound },
        30 => PacketEntry { name: "PlayTabComplete", body_struct: "PlayTabCompleteSpec", id: 17, state: State::Play, direction: PacketDirection::ClientBound },
        31 => PacketEntry { name: "PlayDeclareCommands", body_struct: "PlayDeclareCommandsSpec", id: 18, state: State::Play, direction: PacketDirection::ClientBound },
        32 => PacketEntry { name: "PlayServerWindowConfirmation", body_struct: "PlayServerWindowConfirmationSpec", id: 19, state: State::Play, direction: PacketDirection::ClientBound },
        33 => PacketEntry { name: "PlayServerCloseWindow", body_struct: "PlayServerCloseWindowSpec", id: 20, state: State::Play, direction: PacketDirection::ClientBound },
        34 => PacketEntry { name: "PlayWindowItems", body_struct: "PlayWindowItemsSpec", id: 21, state: State::Play, direction: PacketDirection::ClientBound },
        35 => PacketEntry { name: "PlayWindowProperty", body_struct: "PlayWindowPropertySpec", id: 22, state: State::Play, direction: PacketDirection::ClientBound },
        36 => PacketEntry { name: "PlaySetSlot", body_struct: "PlaySetSlotSpec", id: 23, state: State::Play, direction: PacketDirection::ClientBound },
        37 => PacketEntry { name: "PlaySetCooldown", body_struct: "PlaySetCooldownSpec", id: 24, state: State::Play, direction: PacketDirection::ClientBound },
        38 => PacketEntry { name: "PlayServerPluginMessage", body_struct: "PlayServerPluginMessageSpec", id: 25, state: State::Play, direction: PacketDirection::ClientBound },
        39 => PacketEntry { name: "PlayNamedSoundEffect", body_struct: "PlayNamedSoundEffectSpec", id: 26, state: State::Play, direction: PacketDirection::ClientBound },
        40 => PacketEntry { name: "PlayDisconnect", body_struct: "PlayDisconnectSpec", id: 27, state: State::Play, direction: PacketDirection::ClientBound },
        41 => PacketEntry { name: "PlayEntityStatus", body_struct: "PlayEntityStatusSpec", id: 28, state: State::Play, direction: PacketDirection::ClientBound },
        42 => PacketEntry { name: "PlayExplosion", body_struct: "PlayExplosionSpec", id: 29, state: State::Play, direction: PacketDirection::ClientBound },
        43 => PacketEntry { name: "PlayUnloadChunk", body_struct: "PlayUnloadChunkSpec", id: 30, state: State::Play, direction: PacketDirection::ClientBound },
        44 => PacketEntry { name: "PlayChangeGameState", body_struct: "PlayChangeGameStateSpec", id: 31, state: State::Play, direction: PacketDirection::ClientBound },
        45 => PacketEntry { name: "PlayOpenHorseWindow", body_struct: "PlayOpenHorseWindowSpec", id: 32, state: State::Play, direction: PacketDirection::ClientBound },
        46 => PacketEntry { name: "PlayServerKeepAlive", body_struct: "PlayServerKeepAliveSpec", id: 33, state: State::Play, direction: PacketDirection::ClientBound },
        47 => PacketEntry { name: "PlayChunkData", body_struct: "PlayChunkDataWrapper", id: 34, state: State::Play, direction: PacketDirection::ClientBound },
        48 => PacketEntry { name: "PlayEffect", body_struct: "PlayEffectSpec", id: 35, state: State::Play, direction: PacketDirection::ClientBound },
        49 => PacketEntry { name: "PlayParticle", body_struct: "PlayParticleSpec", id: 36, state: State::Play, direction: PacketDirection::ClientBound },
        50 => PacketEntry { name: "PlayUpdateLight", body_struct: "PlayUpdateLightSpec", id: 37, state: State::Play, direction: PacketDirection::ClientBound },
        51 => PacketEntry { name: "PlayJoinGame", body_struct: "PlayJoinGameSpec", id: 38, state: State::Play, direction: PacketDirection::ClientBound },
        52 => PacketEntry { name: "PlayMapData", body_struct: "PlayMapDataSpec", id: 39, state: State::Play, direction: PacketDirection::ClientBound },
        53 => PacketEntry { name: "PlayTradeList", body_struct: "PlayTradeListSpec", id: 40, state: State::Play, direction: PacketDirection::ClientBound },
        54 => PacketEntry { name: "PlayEntityPosition", body_struct: "PlayEntityPositionSpec", id: 41, state: State::Play, direction: PacketDirection::ClientBound },
        55 => PacketEntry { name: "PlayEntityPositionAndRotation", body_struct: "PlayEntityPositionAndRotationSpec", id: 42, state: State::Play, direction: PacketDirection::ClientBound },
        56 => PacketEntry { name: "PlayEntityRotation", body_struct: "PlayEntityRotationSpec", id: 43, state: State::Play, direction: PacketDirection::ClientBound },
        57 => PacketEntry { name: "PlayEntityMovement", body_struct: "PlayEntityMovementSpec", id: 44, state: State::Play, direction: PacketDirection::ClientBound },
        58 => PacketEntry { name: "PlayServerVehicleMove", body_struct: "PlayEntityVehicleMoveSpec", id: 45, state: State::Play, direction: PacketDirection::ClientBound },
        59 => PacketEntry { name: "PlayOpenBook", body_struct: "PlayOpenBookSpec", id: 46, state: State::Play, direction: PacketDirection::ClientBound },
        60 => PacketEntry { name: "PlayOpenWindow", body_struct: "PlayOpenWindowSpec", id: 47, state: State::Play, direction: PacketDirection::ClientBound },
        61 => PacketEntry { name: "PlayOpenSignEditor", body_struct: "PlayOpenSignEditorSpec", id: 48, state: State::Play, direction: PacketDirection::ClientBound },
        62 => PacketEntry { name: "PlayCraftRecipeResponse", body_struct: "PlayCraftRecipeResponseSpec", id: 49, state: State::Play, direction: PacketDirection::ClientBound },
        63 => PacketEntry { name: "PlayServerPlayerAbilities", body_struct: "PlayServerPlayerAbilitiesSpec", id: 50, state: State::Play, direction: PacketDirection::ClientBound },
        64 => PacketEntry { name: "PlayCombatEvent", body_struct: "PlayCombatEventSpec", id: 51, state: State::Play, direction: PacketDirection::ClientBound },
        65 => PacketEntry { name: "PlayPlayerInfo", body_struct: "PlayPlayerInfoSpec", id: 52, state: State::Play, direction: PacketDirection::ClientBound },
        66 => PacketEntry { name: "PlayFacePlayer", body_struct: "PlayFacePlayerSpec", id: 53, state: State::Play, direction: PacketDirection::ClientBound },
        67 => PacketEntry { name: "PlayServerPlayerPositionAndLook", body_struct: "PlayServerPlayerPositionAndLookSpec", id: 54, state: State::Play, direction: PacketDirection::ClientBound },
        68 => PacketEntry { name: "PlayUnlockRecipes", body_struct: "PlayUnlockRecipesSpec", id: 55, state: State::Play, direction: PacketDirection::ClientBound },
        69 => PacketEntry { name: "PlayDestroyEntities", body_struct: "PlayDestroyEntitiesSpec", id: 56, state: State::Play, direction: PacketDirection::ClientBound },
        70 => PacketEntry { name: "PlayRemoveEntityEffect", body_struct: "PlayRemoveEntityEffectSpec", id: 57, state: State::Play, direction: PacketDirection::ClientBound },
        71 => PacketEntry { name: "PlayResourcePackSend", body_struct: "PlayResourcePackSendSpec", id: 58, state: State::Play, direction: PacketDirection::ClientBound },
        72 => PacketEntry { name: "PlayRespawn", body_struct: "PlayRespawnSpec", id: 59, state: State::Play, direction: PacketDirection::ClientBound },
        73 => PacketEntry { name: "PlayEntityHeadLook", body_struct: "PlayEntityHeadLookSpec", id: 60, state: State::Play, direction: PacketDirection::ClientBound },
        74 => PacketEntry { name: "PlaySelectAdvancementTab", body_struct: "PlaySelectAdvancementTabSpec", id: 61, state: State::Play, direction: PacketDirection::ClientBound },
        75 => PacketEntry { name: "PlayWorldBorder", body_struct: "PlayWorldBorderSpec", id: 62, state: State::Play, direction: PacketDirection::ClientBound },
        76 => PacketEntry { name: "PlayCamera", body_struct: "PlayCameraSpec", id: 63, state: State::Play, direction: PacketDirection::ClientBound },
        77 => PacketEntry { name: "PlayServerHeldItemChange", body_struct: "PlayServerHeldItemChangeSpec", id: 64, state: State::Play, direction: PacketDirection::ClientBound },
        78 => PacketEntry { name: "PlayUpdateViewPosition", body_struct: "PlayUpdateViewPositionSpec", id: 65, state: State::Play, direction: PacketDirection::ClientBound },
        79 => PacketEntry { name: "PlayUpdateViewDistance", body_struct: "PlayUpdateViewDistanceSpec", id: 66, state: State::Play, direction: PacketDirection::ClientBound },
        80 => PacketEntry { name: "PlayDisplayScoreboard", body_struct: "PlayDisplayScoreboardSpec", id: 67, state: State::Play, direction: PacketDirection::ClientBound },
        81 => PacketEntry { name: "PlayEntityMetadata", body_struct: "PlayEntityMetadataSpec", id: 68, state: State::Play, direction: PacketDirection::ClientBound },
        82 => PacketEntry { name: "PlayAttachEntity", body_struct: "PlayAttachEntitySpec", id: 69, state: State::Play, direction: PacketDirection::ClientBound },
        83 => PacketEntry { name: "PlayEntityVelocity", body_struct: "PlayEntityVelocitySpec", id: 70, state: State::Play, direction: PacketDirection::ClientBound },
        84 => PacketEntry { name: "PlayEntityEquipment", body_struct: "PlayEntityEquiptmentSpec", id: 71, state: State::Play, direction: PacketDirection::ClientBound },
        85 => PacketEntry { name: "PlaySetExperience", body_struct: "PlaySetExperienceSpec", id: 72, state: State::Play, direction: PacketDirection::ClientBound },
        86 => PacketEntry { name: "PlayUpdatehealth", body_struct: "PlayUpdateHealthSpec", id: 73, state: State::Play, direction: PacketDirection::ClientBound },
        87 => PacketEntry { name: "PlayScoreboardObjective", body_struct: "PlayScoreboardObjectiveSpec", id: 74, state: State::Play, direction: PacketDirection::ClientBound },
        88 => PacketEntry { name: "PlaySetPassengers", body_struct: "PlaySetPassengersSpec", id: 75, state: State::Play, direction: PacketDirection::ClientBound },
        89 => PacketEntry { name: "PlayTeams", body_struct: "PlayTeamsSpec", id: 76, state: State::Play, direction: PacketDirection::ClientBound },
        90 => PacketEntry { name: "PlayUpdateScore", body_struct: "PlayUpdateScoreSpec", id: 77, state: State::Play, direction: PacketDirection::ClientBound },
        91 => PacketEntry { name: "PlaySpawnPosition", body_struct: "PlaySpawnPositionSpec", id: 78, state: State::Play, direction: PacketDirection::ClientBound },
        92 => PacketEntry { name: "PlayTimeUpdate", body_struct: "PlayTimeUpdateSpec", id: 79, state: State::Play, direction: PacketDirection::ClientBound },
        93 => PacketEntry { name: "PlayTitle", body_struct: "PlayTitleSpec", id: 80, state: State::Play, direction: PacketDirection::ClientBound },
        94 => PacketEntry { name: "PlayEntitySoundEffect", body_struct: "PlayEntitySoundEffectSpec", id: 81, state: State::Play, direction: PacketDirection::ClientBound },
        95 => PacketEntry { name: "PlaySoundEffect", body_struct: "PlaySoundEffectSpec", id: 82, state: State::Play, direction: PacketDirection::ClientBound },
        96 => PacketEntry { name: "PlayStopSound", body_struct: "PlayStopSoundSpec", id: 83, state: State::Play, direction: PacketDirection::ClientBound },
        97 => PacketEntry { name: "PlayerPlayerListHeaderAndFooter", body_struct: "PlayPlayerListHeaderAndFooterSpec", id: 84, state: State::Play, direction: PacketDirection::ClientBound },
        98 => PacketEntry { name: "PlayNbtQueryResponse", body_struct: "PlayNbtQueryResponseSpec", id: 85, state: State::Play, direction: PacketDirection::ClientBound },
        99 => PacketEntry { name: "PlayCollectItem", body_struct: "PlayCollectItemSpec", id: 86, state: State::Play, direction: PacketDirection::ClientBound },
        100 => PacketEntry { name: "PlayEntityTeleport", body_struct: "PlayEntityTeleportSpec", id: 87, state: State::Play, direction: PacketDirection::ClientBound },
        101 => PacketEntry { name: "PlayAdvancements", body_struct: "PlayAdvancementsSpec", id: 88, state: State::Play, direction: PacketDirection::ClientBound },
        102 => PacketEntry { name: "PlayEntityProperties", body_struct: "PlayEntityPropertiesSpec", id: 89, state: State::Play, direction: PacketDirection::ClientBound },
        103 => PacketEntry { name: "PlayEntityEffect", body_struct: "PlayEntityEffectSpec", id: 90, state: State::Play, direction: PacketDirection::ClientBound },
        104 => PacketEntry { name: "PlayDeclareRecipes", body_struct: "PlayDeclareRecipesSpec", id: 91, state: State::Play, direction: PacketDirection::ClientBound },
        105 => PacketEntry { name: "PlayTags", body_struct: "PlayTagsSpec", id: 92, state: State::Play, direction: PacketDirection::ClientBound },
        106 => PacketEntry { name: "PlayTeleportConfirm", body_struct: "PlayTeleportConfirmSpec", id: 0, state: State::Play, direction: PacketDirection::ServerBound },
        107 => PacketEntry { name: "PlayQueryBlockNbt", body_struct: "PlayQueryBlockNbtSpec", id: 1, state: State::Play, direction: PacketDirection::ServerBound },
        108 => PacketEntry { name: "PlaySetDifficulty", body_struct: "PlaySetDifficultySpec", id: 2, state: State::Play, direction: PacketDirection::ServerBound },
        109 => PacketEntry { name: "PlayClientChatMessage", body_struct: "PlayClientChatMessageSpec", id: 3, state: State::Play, direction: PacketDirection::ServerBound },
        110 => PacketEntry { name: "PlayClientStatus", body_struct: "PlayClientStatusSpec", id: 4, state: State::Play, direction: PacketDirection::ServerBound },
        111 => PacketEntry { name: "PlayClientSettings", body_struct: "PlayClientSettingsSpec", id: 5, state: State::Play, direction: PacketDirection::ServerBound },
        112 => PacketEntry { name: "PlayClientTabComplete", body_struct: "PlayClientTabCompleteSpec", id: 6, state: State::Play, direction: PacketDirection::ServerBound },
        113 => PacketEntry { name: "PlayClientWindowConfirmation", body_struct: "PlayClientWindowConfirmationSpec", id: 7, state: State::Play, direction: PacketDirection::ServerBound },
        114 => PacketEntry { name: "PlayClickWindowButton", body_struct: "PlayClickWindowButtonSpec", id: 8, state: State::Play, direction: PacketDirection::ServerBound },
        115 => PacketEntry { name: "PlayClickWindow", body_struct: "PlayClickWindowSpec", id: 9, state: State::Play, direction: PacketDirection::ServerBound },
        116 => PacketEntry { name: "PlayClientCloseWindow", body_struct: "PlayClientCloseWindowSpec", id: 10, state: State::Play, direction: PacketDirection::ServerBound },
        117 => PacketEntry { name: "PlayClientPluginMessage", body_struct: "PlayClientPluginMessageSpec", id: 11, state: State::Play, direction: PacketDirection::ServerBound },
        118 => PacketEntry { name: "PlayEditBook", body_struct: "PlayEditBookSpec", id: 12, state: State::Play, direction: PacketDirection::ServerBound },
        119 => PacketEntry { name: "PlayQueryEntityNbt", body_struct: "PlayQueryEntityNbtSpec", id: 13, state: State::Play, direction: PacketDirection::ServerBound },
        120 => PacketEntry { name: "PlayInteractEntity", body_struct: "PlayInteractEntitySpec", id: 14, state: State::Play, direction: PacketDirection::ServerBound },
        121 => PacketEntry { name: "PlayClientKeepAlive", body_struct: "PlayClientKeepAliveSpec", id: 15, state: State::Play, direction: PacketDirection::ServerBound },
        122 => PacketEntry { name: "PlayLockDifficulty", body_struct: "PlayLockDifficultySpec", id: 16, state: State::Play, direction: PacketDirection::ServerBound },
        123 => PacketEntry { name: "PlayPlayerPosition", body_struct: "PlayPlayerPositionSpec", id: 17, state: State::Play, direction: PacketDirection::ServerBound },
        124 => PacketEntry { name: "PlayClientPlayerPositionAndRotation", body_struct: "PlayClientPlayerPositionAndRotationSpec", id: 18, state: State::Play, direction: PacketDirection::ServerBound },
        125 => PacketEntry { name: "PlayPlayerRotation", body_struct: "PlayPlayerRotationSpec", id: 19, state: State::Play, direction: PacketDirection::ServerBound },
        126 => PacketEntry { name: "PlayPlayerMovement", body_struct: "PlayPlayerMovementSpec", id: 20, state: State::Play, direction: PacketDirection::ServerBound },
        127 => PacketEntry { name: "PlayClientVehicleMove", body_struct: "PlayClientVehicleMoveSpec", id: 21, state: State::Play, direction: PacketDirection::ServerBound },
        128 => PacketEntry { name: "PlaySteerBoat", body_struct: "PlaySteerBoatSpec", id: 22, state: State::Play, direction: PacketDirection::ServerBound },
        129 => PacketEntry { name: "PlayPickItem", body_struct: "PlayPickItemSpec", id: 23, state: State::Play, direction: PacketDirection::ServerBound },
        130 => PacketEntry { name: "PlayCraftRecipeRequest", body_struct: "PlayCraftRecipeRequestSpec", id: 24, state: State::Play, direction: PacketDirection::ServerBound },
        131 => PacketEntry { name: "PlayClientPlayerAbilities", body_struct: "PlayClientPlayerAbilitiesSpec", id: 25, state: State::Play, direction: PacketDirection::ServerBound },
        132 => PacketEntry { name: "PlayPlayerDigging", body_struct: "PlayPlayerDiggingSpec", id: 26, state: State::Play, direction: PacketDirection::ServerBound },
        133 => PacketEntry { name: "PlayEntityAction", body_struct: "PlayEntityActionSpec", id: 27, state: State::Play, direction: PacketDirection::ServerBound },
        134 => PacketEntry { name: "PlaySteerVehicle", body_struct: "PlaySteerVehicleSpec", id: 28, state: State::Play, direction: PacketDirection::ServerBound },
        135 => PacketEntry { name: "PlayRecipeBookData", body_struct: "PlayRecipeBookDataSpec", id: 29, state: State::Play, direction: PacketDirection::ServerBound },
        136 => PacketEntry { name: "PlayNameItem", body_struct: "PlayNameItemSpec", id: 30, state: State::Play, direction: PacketDirection::ServerBound },
        137 => PacketEntry { name: "PlayResourcePackStatus", body_struct: "PlayResourcePackStatusSpec", id: 31, state: State::Play, direction: PacketDirection::ServerBound },
        138 => PacketEntry { name: "PlayAdvancementTab", body_struct: "PlayAdvancementTabSpec", id: 32, state: State::Play, direction: PacketDirection::ServerBound },
        139 => PacketEntry { name: "PlaySelectTrade", body_struct: "PlaySelectTradeSpec", id: 33, state: State::Play, direction: PacketDirection::ServerBound },
        140 => PacketEntry { name: "PlaySetBeaconEffect", body_struct: "PlaySetBeaconEffectSpec", id: 34, state: State::Play, direction: PacketDirection::ServerBound },
        141 => PacketEntry { name: "PlayClientHeldItemChange", body_struct: "PlayClientHeldItemChangeSpec", id: 35, state: State::Play, direction: PacketDirection::ServerBound },
        142 => PacketEntry { name: "PlayUpdateCommandBlock", body_struct: "PlayUpdateCommandBlockSpec", id: 36, state: State::Play, direction: PacketDirection::ServerBound },
        143 => PacketEntry { name: "PlayUpdateCommandBlockMinecart", body_struct: "PlayUpdateCommandBlockMinecartSpec", id: 37, state: State::Play, direction: PacketDirection::ServerBound },
        144 => PacketEntry { name: "PlayCreativeInventoryAction", body_struct: "PlayCreativeInventoryActionSpec", id: 38, state: State::Play, direction: PacketDirection::ServerBound },
        145 => PacketEntry { name: "PlayUpdateJigsawBlock", body_struct: "PlayUpdateJigsawBlockSpec", id: 39, state: State::Play, direction: PacketDirection::ServerBound },
        146 => PacketEntry { name: "PlayUpdateStructureBlock", body_struct: "PlayUpdateStructureBlockSpec", id: 40, state: State::Play, direction: PacketDirection::ServerBound },
        147 => PacketEntry { name: "PlayUpdateSign", body_struct: "PlayUpdateSignSpec", id: 41, state: State::Play, direction: PacketDirection::ServerBound },
        148 => PacketEntry { name: "PlayClientAnimation", body_struct: "PlayClientAnimationSpec", id: 42, state: State::Play, direction: PacketDirection::ServerBound },
        149 => PacketEntry { name: "PlaySpectate", body_struct: "PlaySpectateSpec", id: 43, state: State::Play, direction: PacketDirection::ServerBound },
        150 => PacketEntry { name: "PlayBlockPlacement", body_struct: "PlayBlockPlacementSpec", id: 44, state: State::Play, direction: PacketDirection::ServerBound },
        _ => PacketEntry { name: "PlayUseItem", body_struct: "PlayUseItemSpec", id: 45, state: State::Play, direction: PacketDirection::ServerBound },
    }
}

/// Every message shape of protocol version 578 and where it is found.
pub open spec fn catalogue_578() -> Seq<PacketEntry> {
    Seq::new(CATALOGUE_SIZE as nat, |i: int| catalogue_entry(i as u8))
}

pub open spec fn state_rank(s: State) -> int {
    match s {
        State::Handshaking => 0,
        State::Status => 1,
        State::Login => 2,
        State::Play => 3,
    }
}

/// Orders keys by state, then direction, then id.
pub open spec fn key_rank(e: PacketEntry) -> int {
    (state_rank(e.state) * 2 + (if e.direction is ClientBound {
        0int
    } else {
        1int
    })) * 0x1_0000_0000 + e.id
}

proof fn lemma_sorted_lt(es: Seq<PacketEntry>, i: int, j: int)
    requires
        forall|k: int| 0 <= k < es.len() - 1 ==> key_rank(#[trigger] es[k]) < key_rank(es[k + 1]),
        0 <= i < j < es.len(),
    ensures
        key_rank(es[i]) < key_rank(es[j]),
    decreases j - i,
{
    if j > i + 1 {
        lemma_sorted_lt(es, i, j - 1);
        assert(key_rank(es[j - 1]) < key_rank(es[j]));
    } else {
        assert(key_rank(es[i]) < key_rank(es[i + 1]));
    }
}

/// Entries in strictly increasing key order have unique keys.
proof fn lemma_sorted_unique(es: Seq<PacketEntry>)
    requires
        forall|k: int| 0 <= k < es.len() - 1 ==> key_rank(#[trigger] es[k]) < key_rank(es[k + 1]),
    ensures
        keys_unique(es),
{
    assert forall|i: int, j: int| 0 <= i < j < es.len() implies !same_key(
        #[trigger] es[i],
        #[trigger] es[j],
    ) by {
        lemma_sorted_lt(es, i, j);
    }
}

/// No two entries of the catalogue share a key.
pub proof fn lemma_catalogue_keys_unique()
    ensures
        keys_unique(catalogue_578()),
{
    let es = catalogue_578();
    assert forall|k: int| 0 <= k < es.len() - 1 implies key_rank(#[trigger] es[k]) < key_rank(
        es[k + 1],
    ) by {
        assert(es[k] == catalogue_entry(k as u8));
        assert(es[k + 1] == catalogue_entry((k + 1) as u8));
    }
    lemma_sorted_unique(es);
}

fn catalogue_entry_exec(i: u8) -> (r: PacketEntry)
    ensures
        r == catalogue_entry(i),
{
    match i {
        0 => PacketEntry { name: "Handshake", body_struct: "HandshakeSpec", id: 0, state: State::Handshaking, direction: PacketDirection::ServerBound },
        1 => PacketEntry { name: "StatusResponse", body_struct: "StatusResponseSpec", id: 0, state: State::Status, direction: PacketDirection::ClientBound },
        2 => PacketEntry { name: "StatusPong", body_struct: "StatusPongSpec", id: 1, state: State::Status, direction: PacketDirection::ClientBound },
        3 => PacketEntry { name: "StatusRequest", body_struct: "StatusRequestSpec", id: 0, state: State::Status, direction: PacketDirection::ServerBound },
        4 => PacketEntry { name: "StatusPing", body_struct: "StatusPingSpec", id: 1, state: State::Status, direction: PacketDirection::ServerBound },
        5 => PacketEntry { name: "LoginDisconnect", body_struct: "LoginDisconnectSpec", id: 0, state: State::Login, direction: PacketDirection::ClientBound },
        6 => PacketEntry { name: "LoginEncryptionRequest", body_struct: "LoginEncryptionRequestSpec", id: 1, state: State::Login, direction: PacketDirection::ClientBound },
        7 => PacketEntry { name: "LoginSuccess", body_struct: "LoginSuccessSpec", id: 2, state: State::Login, direction: PacketDirection::ClientBound },
        8 => PacketEntry { name: "LoginSetCompression", body_struct: "LoginSetCompressionSpec", id: 3, state: State::Login, direction: PacketDirection::ClientBound },
        9 => PacketEntry { name: "LoginPluginRequest", body_struct: "LoginPluginRequestSpec", id: 4, state: State::Login, direction: PacketDirection::ClientBound },
        10 => PacketEntry { name: "LoginStart", body_struct: "LoginStartSpec", id: 0, state: State::Login, direction: PacketDirection::ServerBound },
        11 => PacketEntry { name: "LoginEncryptionResponse", body_struct: "LoginEncryptionResponseSpec", id: 1, state: State::Login, direction: PacketDirection::ServerBound },
        12 => PacketEntry { name: "LoginPluginResponse", body_struct: "LoginPluginResponseSpec", id: 2, state: State::Login, direction: PacketDirection::ServerBound },
        13 => PacketEntry { name: "PlaySpawnEntity", body_struct: "PlaySpawnEntitySpec", id: 0, state: State::Play, direction: PacketDirection::ClientBound },
        14 => PacketEntry { name: "PlaySpawnExperienceOrb", body_struct: "PlaySpawnExperienceOrbSpec", id: 1, state: State::Play, direction: PacketDirection::ClientBound },
        15 => PacketEntry { name: "PlaySpawnWeatherEntity", body_struct: "PlaySpawnWeatherEntitySpec", id: 2, state: State::Play, direction: PacketDirection::ClientBound },
        16 => PacketEntry { name: "PlaySpawnLivingEntity", body_struct: "PlaySpawnLivingEntitySpec", id: 3, state: State::Play, direction: PacketDirection::ClientBound },
        17 => PacketEntry { name: "PlaySpawnPainting", body_struct: "PlaySpawnPaintingSpec", id: 4, state: State::Play, direction: PacketDirection::ClientBound },
        18 => PacketEntry { name: "PlaySpawnPlayer", body_struct: "PlaySpawnPlayerSpec", id: 5, state: State::Play, direction: PacketDirection::ClientBound },
        19 => PacketEntry { name: "PlayEntityAnimation", body_struct: "PlayEntityAnimationSpec", id: 6, state: State::Play, direction: PacketDirection::ClientBound },
        20 => PacketEntry { name: "PlayStatistics", body_struct: "PlayStatisticsSpec", id: 7, state: State::Play, direction: PacketDirection::ClientBound },
        21 => PacketEntry { name: "PlayAcknowledgePlayerDigging", body_struct: "PlayAcknowledgePlayerDiggingSpec", id: 8, state: State::Play, direction: PacketDirection::ClientBound },
        22 => PacketEntry { name: "PlayBlockBreakAnimation", body_struct: "PlayBlockBreakAnimationSpec", id: 9, state: State::Play, direction: PacketDirection::ClientBound },
        23 => PacketEntry { name: "PlayBlockEntityData", body_struct: "PlayBlockEntityDataSpec", id: 10, state: State::Play, direction: PacketDirection::ClientBound },
        24 => PacketEntry { name: "PlayBlockAction", body_struct: "PlayBlockActionSpec", id: 11, state: State::Play, direction: PacketDirection::ClientBound },
        25 => PacketEntry { name: "PlayBlockChange", body_struct: "PlayBlockChangeSpec", id: 12, state: State::Play, direction: PacketDirection::ClientBound },
        26 => PacketEntry { name: "PlayBossBar", body_struct: "PlayBossBarSpec", id: 13, state: State::Play, direction: PacketDirection::ClientBound },
        27 => PacketEntry { name: "PlayServerDifficulty", body_struct: "PlayServerDifficultySpec", id: 14, state: State::Play, direction: PacketDirection::ClientBound },
        28 => PacketEntry { name: "PlayServerChatMessage", body_struct: "PlayServerChatMessageSpec", id: 15, state: State::Play, direction: PacketDirection::ClientBound },
        29 => PacketEntry { name: "PlayMultiBlockChange", body_struct: "PlayMultiBlockChangeSpec", id: 16, state: State::Play, direction: PacketDirection::ClientBound },
        30 => PacketEntry { name: "PlayTabComplete", body_struct: "PlayTabCompleteSpec", id: 17, state: State::Play, direction: PacketDirection::ClientBound },
        31 => PacketEntry { name: "PlayDeclareCommands", body_struct: "PlayDeclareCommandsSpec", id: 18, state: State::Play, direction: PacketDirection::ClientBound },
        32 => PacketEntry { name: "PlayServerWindowConfirmation", body_struct: "PlayServerWindowConfirmationSpec", id: 19, state: State::Play, direction: PacketDirection::ClientBound },
        33 => PacketEntry { name: "PlayServerCloseWindow", body_struct: "PlayServerCloseWindowSpec", id: 20, state: State::Play, direction: PacketDirection::ClientBound },
        34 => PacketEntry { name: "PlayWindowItems", body_struct: "PlayWindowItemsSpec", id: 21, state: State::Play, direction: PacketDirection::ClientBound },
        35 => PacketEntry { name: "PlayWindowProperty", body_struct: "PlayWindowPropertySpec", id: 22, state: State::Play, direction: PacketDirection::ClientBound },
        36 => PacketEntry { name: "PlaySetSlot", body_struct: "PlaySetSlotSpec", id: 23, state: State::Play, direction: PacketDirection::ClientBound },
        37 => PacketEntry { name: "PlaySetCooldown", body_struct: "PlaySetCooldownSpec", id: 24, state: State::Play, direction: PacketDirection::ClientBound },
        38 => PacketEntry { name: "PlayServerPluginMessage", body_struct: "PlayServerPluginMessageSpec", id: 25, state: State::Play, direction: PacketDirection::ClientBound },
        39 => PacketEntry { name: "PlayNamedSoundEffect", body_struct: "PlayNamedSoundEffectSpec", id: 26, state: State::Play, direction: PacketDirection::ClientBound },
        40 => PacketEntry { name: "PlayDisconnect", body_struct: "PlayDisconnectSpec", id: 27, state: State::Play, direction: PacketDirection::ClientBound },
        41 => PacketEntry { name: "PlayEntityStatus", body_struct: "PlayEntityStatusSpec", id: 28, state: State::Play, direction: PacketDirection::ClientBound },
        42 => PacketEntry { name: "PlayExplosion", body_struct: "PlayExplosionSpec", id: 29, state: State::Play, direction: PacketDirection::ClientBound },
        43 => PacketEntry { name: "PlayUnloadChunk", body_struct: "PlayUnloadChunkSpec", id: 30, state: State::Play, direction: PacketDirection::ClientBound },
        44 => PacketEntry { name: "PlayChangeGameState", body_struct: "PlayChangeGameStateSpec", id: 31, state: State::Play, direction: PacketDirection::ClientBound },
        45 => PacketEntry { name: "PlayOpenHorseWindow", body_struct: "PlayOpenHorseWindowSpec", id: 32, state: State::Play, direction: PacketDirection::ClientBound },
        46 => PacketEntry { name: "PlayServerKeepAlive", body_struct: "PlayServerKeepAliveSpec", id: 33, state: State::Play, direction: PacketDirection::ClientBound },
        47 => PacketEntry { name: "PlayChunkData", body_struct: "PlayChunkDataWrapper", id: 34, state: State::Play, direction: PacketDirection::ClientBound },
        48 => PacketEntry { name: "PlayEffect", body_struct: "PlayEffectSpec", id: 35, state: State::Play, direction: PacketDirection::ClientBound },
        49 => PacketEntry { name: "PlayParticle", body_struct: "PlayParticleSpec", id: 36, state: State::Play, direction: PacketDirection::ClientBound },
        50 => PacketEntry { name: "PlayUpdateLight", body_struct: "PlayUpdateLightSpec", id: 37, state: State::Play, direction: PacketDirection::ClientBound },
        51 => PacketEntry { name: "PlayJoinGame", body_struct: "PlayJoinGameSpec", id: 38, state: State::Play, direction: PacketDirection::ClientBound },
        52 => PacketEntry { name: "PlayMapData", body_struct: "PlayMapDataSpec", id: 39, state: State::Play, direction: PacketDirection::ClientBound },
        53 => PacketEntry { name: "PlayTradeList", body_struct: "PlayTradeListSpec", id: 40, state: State::Play, direction: PacketDirection::ClientBound },
        54 => PacketEntry { name: "PlayEntityPosition", body_struct: "PlayEntityPositionSpec", id: 41, state: State::Play, direction: PacketDirection::ClientBound },
        55 => PacketEntry { name: "PlayEntityPositionAndRotation", body_struct: "PlayEntityPositionAndRotationSpec", id: 42, state: State::Play, direction: PacketDirection::ClientBound },
        56 => PacketEntry { name: "PlayEntityRotation", body_struct: "PlayEntityRotationSpec", id: 43, state: State::Play, direction: PacketDirection::ClientBound },
        57 => PacketEntry { name: "PlayEntityMovement", body_struct: "PlayEntityMovementSpec", id: 44, state: State::Play, direction: PacketDirection::ClientBound },
        58 => PacketEntry { name: "PlayServerVehicleMove", body_struct: "PlayEntityVehicleMoveSpec", id: 45, state: State::Play, direction: PacketDirection::ClientBound },
        59 => PacketEntry { name: "PlayOpenBook", body_struct: "PlayOpenBookSpec", id: 46, state: State::Play, direction: PacketDirection::ClientBound },
        60 => PacketEntry { name: "PlayOpenWindow", body_struct: "PlayOpenWindowSpec", id: 47, state: State::Play, direction: PacketDirection::ClientBound },
        61 => PacketEntry { name: "PlayOpenSignEditor", body_struct: "PlayOpenSignEditorSpec", id: 48, state: State::Play, direction: PacketDirection::ClientBound },
        62 => PacketEntry { name: "PlayCraftRecipeResponse", body_struct: "PlayCraftRecipeResponseSpec", id: 49, state: State::Play, direction: PacketDirection::ClientBound },
        63 => PacketEntry { name: "PlayServerPlayerAbilities", body_struct: "PlayServerPlayerAbilitiesSpec", id: 50, state: State::Play, direction: PacketDirection::ClientBound },
        64 => PacketEntry { name: "PlayCombatEvent", body_struct: "PlayCombatEventSpec", id: 51, state: State::Play, direction: PacketDirection::ClientBound },
        65 => PacketEntry { name: "PlayPlayerInfo", body_struct: "PlayPlayerInfoSpec", id: 52, state: State::Play, direction: PacketDirection::ClientBound },
        66 => PacketEntry { name: "PlayFacePlayer", body_struct: "PlayFacePlayerSpec", id: 53, state: State::Play, direction: PacketDirection::ClientBound },
        67 => PacketEntry { name: "PlayServerPlayerPositionAndLook", body_struct: "PlayServerPlayerPositionAndLookSpec", id: 54, state: State::Play, direction: PacketDirection::ClientBound },
        68 => PacketEntry { name: "PlayUnlockRecipes", body_struct: "PlayUnlockRecipesSpec", id: 55, state: State::Play, direction: PacketDirection::ClientBound },
        69 => PacketEntry { name: "PlayDestroyEntities", body_struct: "PlayDestroyEntitiesSpec", id: 56, state: State::Play, direction: PacketDirection::ClientBound },
        70 => PacketEntry { name: "PlayRemoveEntityEffect", body_struct: "PlayRemoveEntityEffectSpec", id: 57, state: State::Play, direction: PacketDirection::ClientBound },
        71 => PacketEntry { name: "PlayResourcePackSend", body_struct: "PlayResourcePackSendSpec", id: 58, state: State::Play, direction: PacketDirection::ClientBound },
        72 => PacketEntry { name: "PlayRespawn", body_struct: "PlayRespawnSpec", id: 59, state: State::Play, direction: PacketDirection::ClientBound },
        73 => PacketEntry { name: "PlayEntityHeadLook", body_struct: "PlayEntityHeadLookSpec", id: 60, state: State::Play, direction: PacketDirection::ClientBound },
        74 => PacketEntry { name: "PlaySelectAdvancementTab", body_struct: "PlaySelectAdvancementTabSpec", id: 61, state: State::Play, direction: PacketDirection::ClientBound },
        75 => PacketEntry { name: "PlayWorldBorder", body_struct: "PlayWorldBorderSpec", id: 62, state: State::Play, direction: PacketDirection::ClientBound },
        76 => PacketEntry { name: "PlayCamera", body_struct: "PlayCameraSpec", id: 63, state: State::Play, direction: PacketDirection::ClientBound },
        77 => PacketEntry { name: "PlayServerHeldItemChange", body_struct: "PlayServerHeldItemChangeSpec", id: 64, state: State::Play, direction: PacketDirection::ClientBound },
        78 => PacketEntry { name: "PlayUpdateViewPosition", body_struct: "PlayUpdateViewPositionSpec", id: 65, state: State::Play, direction: PacketDirection::ClientBound },
        79 => PacketEntry { name: "PlayUpdateViewDistance", body_struct: "PlayUpdateViewDistanceSpec", id: 66, state: State::Play, direction: PacketDirection::ClientBound },
        80 => PacketEntry { name: "PlayDisplayScoreboard", body_struct: "PlayDisplayScoreboardSpec", id: 67, state: State::Play, direction: PacketDirection::ClientBound },
        81 => PacketEntry { name: "PlayEntityMetadata", body_struct: "PlayEntityMetadataSpec", id: 68, state: State::Play, direction: PacketDirection::ClientBound },
        82 => PacketEntry { name: "PlayAttachEntity", body_struct: "PlayAttachEntitySpec", id: 69, state: State::Play, direction: PacketDirection::ClientBound },
        83 => PacketEntry { name: "PlayEntityVelocity", body_struct: "PlayEntityVelocitySpec", id: 70, state: State::Play, direction: PacketDirection::ClientBound },
        84 => PacketEntry { name: "PlayEntityEquipment", body_struct: "PlayEntityEquiptmentSpec", id: 71, state: State::Play, direction: PacketDirection::ClientBound },
        85 => PacketEntry { name: "PlaySetExperience", body_struct: "PlaySetExperienceSpec", id: 72, state: State::Play, direction: PacketDirection::ClientBound },
        86 => PacketEntry { name: "PlayUpdatehealth", body_struct: "PlayUpdateHealthSpec", id: 73, state: State::Play, direction: PacketDirection::ClientBound },
        87 => PacketEntry { name: "PlayScoreboardObjective", body_struct: "PlayScoreboardObjectiveSpec", id: 74, state: State::Play, direction: PacketDirection::ClientBound },
        88 => PacketEntry { name: "PlaySetPassengers", body_struct: "PlaySetPassengersSpec", id: 75, state: State::Play, direction: PacketDirection::ClientBound },
        89 => PacketEntry { name: "PlayTeams", body_struct: "PlayTeamsSpec", id: 76, state: State::Play, direction: PacketDirection::ClientBound },
        90 => PacketEntry { name: "PlayUpdateScore", body_struct: "PlayUpdateScoreSpec", id: 77, state: State::Play, direction: PacketDirection::ClientBound },
        91 => PacketEntry { name: "PlaySpawnPosition", body_struct: "PlaySpawnPositionSpec", id: 78, state: State::Play, direction: PacketDirection::ClientBound },
        92 => PacketEntry { name: "PlayTimeUpdate", body_struct: "PlayTimeUpdateSpec", id: 79, state: State::Play, direction: PacketDirection::ClientBound },
        93 => PacketEntry { name: "PlayTitle", body_struct: "PlayTitleSpec", id: 80, state: State::Play, direction: PacketDirection::ClientBound },
        94 => PacketEntry { name: "PlayEntitySoundEffect", body_struct: "PlayEntitySoundEffectSpec", id: 81, state: State::Play, direction: PacketDirection::ClientBound },
        95 => PacketEntry { name: "PlaySoundEffect", body_struct: "PlaySoundEffectSpec", id: 82, state: State::Play, direction: PacketDirection::ClientBound },
        96 => PacketEntry { name: "PlayStopSound", body_struct: "PlayStopSoundSpec", id: 83, state: State::Play, direction: PacketDirection::ClientBound },
        97 => PacketEntry { name: "PlayerPlayerListHeaderAndFooter", body_struct: "PlayPlayerListHeaderAndFooterSpec", id: 84, state: State::Play, direction: PacketDirection::ClientBound },
        98 => PacketEntry { name: "PlayNbtQueryResponse", body_struct: "PlayNbtQueryResponseSpec", id: 85, state: State::Play, direction: PacketDirection::ClientBound },
        99 => PacketEntry { name: "PlayCollectItem", body_struct: "PlayCollectItemSpec", id: 86, state: State::Play, direction: PacketDirection::ClientBound },
        100 => PacketEntry { name: "PlayEntityTeleport", body_struct: "PlayEntityTeleportSpec", id: 87, state: State::Play, direction: PacketDirection::ClientBound },
        101 => PacketEntry { name: "PlayAdvancements", body_struct: "PlayAdvancementsSpec", id: 88, state: State::Play, direction: PacketDirection::ClientBound },
        102 => PacketEntry { name: "PlayEntityProperties", body_struct: "PlayEntityPropertiesSpec", id: 89, state: State::Play, direction: PacketDirection::ClientBound },
        103 => PacketEntry { name: "PlayEntityEffect", body_struct: "PlayEntityEffectSpec", id: 90, state: State::Play, direction: PacketDirection::ClientBound },
        104 => PacketEntry { name: "PlayDeclareRecipes", body_struct: "PlayDeclareRecipesSpec", id: 91, state: State::Play, direction: PacketDirection::ClientBound },
        105 => PacketEntry { name: "PlayTags", body_struct: "PlayTagsSpec", id: 92, state: State::Play, direction: PacketDirection::ClientBound },
        106 => PacketEntry { name: "PlayTeleportConfirm", body_struct: "PlayTeleportConfirmSpec", id: 0, state: State::Play, direction: PacketDirection::ServerBound },
        107 => PacketEntry { name: "PlayQueryBlockNbt", body_struct: "PlayQueryBlockNbtSpec", id: 1, state: State::Play, direction: PacketDirection::ServerBound },
        108 => PacketEntry { name: "PlaySetDifficulty", body_struct: "PlaySetDifficultySpec", id: 2, state: State::Play, direction: PacketDirection::ServerBound },
        109 => PacketEntry { name: "PlayClientChatMessage", body_struct: "PlayClientChatMessageSpec", id: 3, state: State::Play, direction: PacketDirection::ServerBound },
        110 => PacketEntry { name: "PlayClientStatus", body_struct: "PlayClientStatusSpec", id: 4, state: State::Play, direction: PacketDirection::ServerBound },
        111 => PacketEntry { name: "PlayClientSettings", body_struct: "PlayClientSettingsSpec", id: 5, state: State::Play, direction: PacketDirection::ServerBound },
        112 => PacketEntry { name: "PlayClientTabComplete", body_struct: "PlayClientTabCompleteSpec", id: 6, state: State::Play, direction: PacketDirection::ServerBound },
        113 => PacketEntry { name: "PlayClientWindowConfirmation", body_struct: "PlayClientWindowConfirmationSpec", id: 7, state: State::Play, direction: PacketDirection::ServerBound },
        114 => PacketEntry { name: "PlayClickWindowButton", body_struct: "PlayClickWindowButtonSpec", id: 8, state: State::Play, direction: PacketDirection::ServerBound },
        115 => PacketEntry { name: "PlayClickWindow", body_struct: "PlayClickWindowSpec", id: 9, state: State::Play, direction: PacketDirection::ServerBound },
        116 => PacketEntry { name: "PlayClientCloseWindow", body_struct: "PlayClientCloseWindowSpec", id: 10, state: State::Play, direction: PacketDirection::ServerBound },
        117 => PacketEntry { name: "PlayClientPluginMessage", body_struct: "PlayClientPluginMessageSpec", id: 11, state: State::Play, direction: PacketDirection::ServerBound },
        118 => PacketEntry { name: "PlayEditBook", body_struct: "PlayEditBookSpec", id: 12, state: State::Play, direction: PacketDirection::ServerBound },
        119 => PacketEntry { name: "PlayQueryEntityNbt", body_struct: "PlayQueryEntityNbtSpec", id: 13, state: State::Play, direction: PacketDirection::ServerBound },
        120 => PacketEntry { name: "PlayInteractEntity", body_struct: "PlayInteractEntitySpec", id: 14, state: State::Play, direction: PacketDirection::ServerBound },
        121 => PacketEntry { name: "PlayClientKeepAlive", body_struct: "PlayClientKeepAliveSpec", id: 15, state: State::Play, direction: PacketDirection::ServerBound },
        122 => PacketEntry { name: "PlayLockDifficulty", body_struct: "PlayLockDifficultySpec", id: 16, state: State::Play, direction: PacketDirection::ServerBound },
        123 => PacketEntry { name: "PlayPlayerPosition", body_struct: "PlayPlayerPositionSpec", id: 17, state: State::Play, direction: PacketDirection::ServerBound },
        124 => PacketEntry { name: "PlayClientPlayerPositionAndRotation", body_struct: "PlayClientPlayerPositionAndRotationSpec", id: 18, state: State::Play, direction: PacketDirection::ServerBound },
        125 => PacketEntry { name: "PlayPlayerRotation", body_struct: "PlayPlayerRotationSpec", id: 19, state: State::Play, direction: PacketDirection::ServerBound },
        126 => PacketEntry { name: "PlayPlayerMovement", body_struct: "PlayPlayerMovementSpec", id: 20, state: State::Play, direction: PacketDirection::ServerBound },
        127 => PacketEntry { name: "PlayClientVehicleMove", body_struct: "PlayClientVehicleMoveSpec", id: 21, state: State::Play, direction: PacketDirection::ServerBound },
        128 => PacketEntry { name: "PlaySteerBoat", body_struct: "PlaySteerBoatSpec", id: 22, state: State::Play, direction: PacketDirection::ServerBound },
        129 => PacketEntry { name: "PlayPickItem", body_struct: "PlayPickItemSpec", id: 23, state: State::Play, direction: PacketDirection::ServerBound },
        130 => PacketEntry { name: "PlayCraftRecipeRequest", body_struct: "PlayCraftRecipeRequestSpec", id: 24, state: State::Play, direction: PacketDirection::ServerBound },
        131 => PacketEntry { name: "PlayClientPlayerAbilities", body_struct: "PlayClientPlayerAbilitiesSpec", id: 25, state: State::Play, direction: PacketDirection::ServerBound },
        132 => PacketEntry { name: "PlayPlayerDigging", body_struct: "PlayPlayerDiggingSpec", id: 26, state: State::Play, direction: PacketDirection::ServerBound },
        133 => PacketEntry { name: "PlayEntityAction", body_struct: "PlayEntityActionSpec", id: 27, state: State::Play, direction: PacketDirection::ServerBound },
        134 => PacketEntry { name: "PlaySteerVehicle", body_struct: "PlaySteerVehicleSpec", id: 28, state: State::Play, direction: PacketDirection::ServerBound },
        135 => PacketEntry { name: "PlayRecipeBookData", body_struct: "PlayRecipeBookDataSpec", id: 29, state: State::Play, direction: PacketDirection::ServerBound },
        136 => PacketEntry { name: "PlayNameItem", body_struct: "PlayNameItemSpec", id: 30, state: State::Play, direction: PacketDirection::ServerBound },
        137 => PacketEntry { name: "PlayResourcePackStatus", body_struct: "PlayResourcePackStatusSpec", id: 31, state: State::Play, direction: PacketDirection::ServerBound },
        138 => PacketEntry { name: "PlayAdvancementTab", body_struct: "PlayAdvancementTabSpec", id: 32, state: State::Play, direction: PacketDirection::ServerBound },
        139 => PacketEntry { name: "PlaySelectTrade", body_struct: "PlaySelectTradeSpec", id: 33, state: State::Play, direction: PacketDirection::ServerBound },
        140 => PacketEntry { name: "PlaySetBeaconEffect", body_struct: "PlaySetBeaconEffectSpec", id: 34, state: State::Play, direction: PacketDirection::ServerBound },
        141 => PacketEntry { name: "PlayClientHeldItemChange", body_struct: "PlayClientHeldItemChangeSpec", id: 35, state: State::Play, direction: PacketDirection::ServerBound },
        142 => PacketEntry { name: "PlayUpdateCommandBlock", body_struct: "PlayUpdateCommandBlockSpec", id: 36, state: State::Play, direction: PacketDirection::ServerBound },
        143 => PacketEntry { name: "PlayUpdateCommandBlockMinecart", body_struct: "PlayUpdateCommandBlockMinecartSpec", id: 37, state: State::Play, direction: PacketDirection::ServerBound },
        144 => PacketEntry { name: "PlayCreativeInventoryAction", body_struct: "PlayCreativeInventoryActionSpec", id: 38, state: State::Play, direction: PacketDirection::ServerBound },
        145 => PacketEntry { name: "PlayUpdateJigsawBlock", body_struct: "PlayUpdateJigsawBlockSpec", id: 39, state: State::Play, direction: PacketDirection::ServerBound },
        146 => PacketEntry { name: "PlayUpdateStructureBlock", body_struct: "PlayUpdateStructureBlockSpec", id: 40, state: State::Play, direction: PacketDirection::ServerBound },
        147 => PacketEntry { name: "PlayUpdateSign", body_struct: "PlayUpdateSignSpec", id: 41, state: State::Play, direction: PacketDirection::ServerBound },
        148 => PacketEntry { name: "PlayClientAnimation", body_struct: "PlayClientAnimationSpec", id: 42, state: State::Play, direction: PacketDirection::ServerBound },
        149 => PacketEntry { name: "PlaySpectate", body_struct: "PlaySpectateSpec", id: 43, state: State::Play, direction: PacketDirection::ServerBound },
        150 => PacketEntry { name: "PlayBlockPlacement", body_struct: "PlayBlockPlacementSpec", id: 44, state: State::Play, direction: PacketDirection::ServerBound },
        _ => PacketEntry { name: "PlayUseItem", body_struct: "PlayUseItemSpec", id: 45, state: State::Play, direction: PacketDirection::ServerBound },
    }
}

fn catalogue() -> (r: Vec<PacketEntry>)
    ensures
        r@ == catalogue_578(),
{
    let mut out: Vec<PacketEntry> = Vec::new();
    let mut i: usize = 0;
    while i < CATALOGUE_SIZE
        invariant
            i <= CATALOGUE_SIZE,
            out@ =~= catalogue_578().take(i as int),
        decreases CATALOGUE_SIZE - i,
    {
        out.push(catalogue_entry_exec(i as u8));
        i = i + 1;
    }
    out
}

/// A frame as the transport hands it over: a message id and a body not yet
/// decoded.
#[derive(Debug, Clone, PartialEq, Eq)]
pub struct RawPacket {
    pub id: VarInt,
    pub body: Vec<u8>,
}

impl RawPacket {
    pub open spec fn spec_serialize(id: i32, body: Seq<u8>) -> Seq<u8> {
        spec_varint_serialize(id) + body
    }

    /// The id, then every remaining byte as the body.
    pub open spec fn spec_deserialize(s: Seq<u8>) -> Result<(i32, Seq<u8>), DeserializeErr> {
        match spec_varint_deserialize(s) {
            Err(e) => Err(e),
            Ok((id, r)) => Ok((id, r)),
        }
    }

    pub fn mc_serialize(&self, to: &mut Vec<u8>)
        ensures
            final(to)@ == old(to)@ + Self::spec_serialize(self.id.0, self.body@),
    {
        let ghost start = to@;
        self.id.mc_serialize(to);
        let ghost mid = to@;
        to.extend_from_slice(self.body.as_slice());
        assert(to@ =~= mid + self.body@);
        assert(to@ =~= start + Self::spec_serialize(self.id.0, self.body@));
    }

    pub fn mc_deserialize(data: &[u8]) -> (r: Result<RawPacket, DeserializeErr>)
        ensures
            match r {
                Ok(p) => Self::spec_deserialize(data@) == Ok::<(i32, Seq<u8>), DeserializeErr>(
                    (p.id.0, p.body@),
                ),
                Err(e) => Self::spec_deserialize(data@) == Err::<(i32, Seq<u8>), DeserializeErr>(e),
            },
    {
        let (id, rest) = VarInt::mc_deserialize(data)?;
        Ok(RawPacket { id, body: vstd::slice::slice_to_vec(rest) })
    }

    /// A frame reads back as the id and body it was written with.
    pub proof fn lemma_round_trip(id: i32, body: Seq<u8>)
        ensures
            Self::spec_deserialize(Self::spec_serialize(id, body)) == Ok::<
                (i32, Seq<u8>),
                DeserializeErr,
            >((id, body)),
    {
        VarInt::lemma_round_trip(id, body);
    }
}

} // verus!
