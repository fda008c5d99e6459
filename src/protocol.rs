//! Typed messages: one variant per entry of the catalogue, converted to and
//! from raw frames by the state, direction and id that the registry gives
//! each shape.
use vstd::prelude::*;
use crate::codec::{Codec, DeserializeErr};
use crate::varnum::VarInt;
use crate::registry::{State, PacketDirection, RawPacket};
use crate::bodies::HandshakeSpec;
use crate::packets::{
    LoginDisconnectSpec, LoginEncryptionRequestSpec, LoginEncryptionResponseSpec, LoginPluginRequestSpec, LoginPluginResponseSpec, LoginSetCompressionSpec, LoginStartSpec, LoginSuccessSpec, PlayAcknowledgePlayerDiggingSpec, PlayAdvancementTabSpec, PlayAdvancementsSpec, PlayAttachEntitySpec, PlayBlockActionSpec, PlayBlockBreakAnimationSpec, PlayBlockChangeSpec, PlayBlockEntityDataSpec, PlayBlockPlacementSpec, PlayBossBarSpec, PlayCameraSpec, PlayChangeGameStateSpec, PlayChunkDataWrapper, PlayClickWindowButtonSpec, PlayClickWindowSpec, PlayClientAnimationSpec, PlayClientChatMessageSpec, PlayClientCloseWindowSpec, PlayClientHeldItemChangeSpec, PlayClientKeepAliveSpec, PlayClientPlayerAbilitiesSpec, PlayClientPlayerPositionAndRotationSpec, PlayClientPluginMessageSpec, PlayClientSettingsSpec, PlayClientStatusSpec, PlayClientTabCompleteSpec, PlayClientVehicleMoveSpec, PlayClientWindowConfirmationSpec, PlayCollectItemSpec, PlayCombatEventSpec, PlayCraftRecipeRequestSpec, PlayCraftRecipeResponseSpec, PlayCreativeInventoryActionSpec, PlayDeclareCommandsSpec, PlayDeclareRecipesSpec, PlayDestroyEntitiesSpec, PlayDisconnectSpec, PlayDisplayScoreboardSpec, PlayEditBookSpec, PlayEffectSpec, PlayEntityActionSpec, PlayEntityAnimationSpec, PlayEntityEffectSpec, PlayEntityEquiptmentSpec, PlayEntityHeadLookSpec, PlayEntityMetadataSpec, PlayEntityMovementSpec, PlayEntityPositionAndRotationSpec, PlayEntityPositionSpec, PlayEntityPropertiesSpec, PlayEntityRotationSpec, PlayEntitySoundEffectSpec, PlayEntityStatusSpec, PlayEntityTeleportSpec, PlayEntityVehicleMoveSpec, PlayEntityVelocitySpec, PlayExplosionSpec, PlayFacePlayerSpec, PlayInteractEntitySpec, PlayJoinGameSpec, PlayLockDifficultySpec, PlayMapDataSpec, PlayMultiBlockChangeSpec, PlayNameItemSpec, PlayNamedSoundEffectSpec, PlayNbtQueryResponseSpec, PlayOpenBookSpec, PlayOpenHorseWindowSpec, PlayOpenSignEditorSpec, PlayOpenWindowSpec, PlayParticleSpec, PlayPickItemSpec, PlayPlayerDiggingSpec, PlayPlayerInfoSpec, PlayPlayerListHeaderAndFooterSpec, PlayPlayerMovementSpec, PlayPlayerPositionSpec, PlayPlayerRotationSpec, PlayQueryBlockNbtSpec, PlayQueryEntityNbtSpec, PlayRecipeBookDataSpec, PlayRemoveEntityEffectSpec, PlayResourcePackSendSpec, PlayResourcePackStatusSpec, PlayRespawnSpec, PlayScoreboardObjectiveSpec, PlaySelectAdvancementTabSpec, PlaySelectTradeSpec, PlayServerChatMessageSpec, PlayServerCloseWindowSpec, PlayServerDifficultySpec, PlayServerHeldItemChangeSpec, PlayServerKeepAliveSpec, PlayServerPlayerAbilitiesSpec, PlayServerPlayerPositionAndLookSpec, PlayServerPluginMessageSpec, PlayServerWindowConfirmationSpec, PlaySetBeaconEffectSpec, PlaySetCooldownSpec, PlaySetDifficultySpec, PlaySetExperienceSpec, PlaySetPassengersSpec, PlaySetSlotSpec, PlaySoundEffectSpec, PlaySpawnEntitySpec, PlaySpawnExperienceOrbSpec, PlaySpawnLivingEntitySpec, PlaySpawnPaintingSpec, PlaySpawnPlayerSpec, PlaySpawnPositionSpec, PlaySpawnWeatherEntitySpec, PlaySpectateSpec, PlayStatisticsSpec, PlaySteerBoatSpec, PlaySteerVehicleSpec, PlayStopSoundSpec, PlayTabCompleteSpec, PlayTagsSpec, PlayTeamsSpec, PlayTeleportConfirmSpec, PlayTimeUpdateSpec, PlayTitleSpec, PlayTradeListSpec, PlayUnloadChunkSpec, PlayUnlockRecipesSpec, PlayUpdateCommandBlockMinecartSpec, PlayUpdateCommandBlockSpec, PlayUpdateHealthSpec, PlayUpdateJigsawBlockSpec, PlayUpdateLightSpec, PlayUpdateScoreSpec, PlayUpdateSignSpec, PlayUpdateStructureBlockSpec, PlayUpdateViewDistanceSpec, PlayUpdateViewPositionSpec, PlayUseItemSpec, PlayWindowItemsSpec, PlayWindowPropertySpec, PlayWorldBorderSpec, StatusPingSpec, StatusPongSpec, StatusRequestSpec, StatusResponseSpec, LoginPluginRequestSpecModel, LoginPluginResponseSpecModel, PlayClientPluginMessageSpecModel, PlayParticleSpecModel, PlayServerPluginMessageSpecModel, PlayUnlockRecipesSpecModel,
};

verus! {

/// A message of the catalogue as values.
pub enum Packet578Model {
    Handshake(<HandshakeSpec as Codec>::Model),
    StatusRequest(<StatusRequestSpec as Codec>::Model),
    StatusPing(<StatusPingSpec as Codec>::Model),
    StatusResponse(<StatusResponseSpec as Codec>::Model),
    StatusPong(<StatusPongSpec as Codec>::Model),
    LoginDisconnect(<LoginDisconnectSpec as Codec>::Model),
    LoginEncryptionRequest(<LoginEncryptionRequestSpec as Codec>::Model),
    LoginSuccess(<LoginSuccessSpec as Codec>::Model),
    LoginSetCompression(<LoginSetCompressionSpec as Codec>::Model),
    LoginPluginRequest(LoginPluginRequestSpecModel),
    LoginStart(<LoginStartSpec as Codec>::Model),
    LoginEncryptionResponse(<LoginEncryptionResponseSpec as Codec>::Model),
    LoginPluginResponse(LoginPluginResponseSpecModel),
    PlaySpawnEntity(<PlaySpawnEntitySpec as Codec>::Model),
    PlaySpawnExperienceOrb(<PlaySpawnExperienceOrbSpec as Codec>::Model),
    PlaySpawnWeatherEntity(<PlaySpawnWeatherEntitySpec as Codec>::Model),
    PlaySpawnLivingEntity(<PlaySpawnLivingEntitySpec as Codec>::Model),
    PlaySpawnPainting(<PlaySpawnPaintingSpec as Codec>::Model),
    PlaySpawnPlayer(<PlaySpawnPlayerSpec as Codec>::Model),
    PlayEntityAnimation(<PlayEntityAnimationSpec as Codec>::Model),
    PlayStatistics(<PlayStatisticsSpec as Codec>::Model),
    PlayAcknowledgePlayerDigging(<PlayAcknowledgePlayerDiggingSpec as Codec>::Model),
    PlayBlockBreakAnimation(<PlayBlockBreakAnimationSpec as Codec>::Model),
    PlayBlockEntityData(<PlayBlockEntityDataSpec as Codec>::Model),
    PlayBlockAction(<PlayBlockActionSpec as Codec>::Model),
    PlayBlockChange(<PlayBlockChangeSpec as Codec>::Model),
    PlayBossBar(<PlayBossBarSpec as Codec>::Model),
    PlayServerDifficulty(<PlayServerDifficultySpec as Codec>::Model),
    PlayServerChatMessage(<PlayServerChatMessageSpec as Codec>::Model),
    PlayMultiBlockChange(<PlayMultiBlockChangeSpec as Codec>::Model),
    PlayTabComplete(<PlayTabCompleteSpec as Codec>::Model),
    PlayDeclareCommands(<PlayDeclareCommandsSpec as Codec>::Model),
    PlayServerWindowConfirmation(<PlayServerWindowConfirmationSpec as Codec>::Model),
    PlayServerCloseWindow(<PlayServerCloseWindowSpec as Codec>::Model),
    PlayWindowItems(<PlayWindowItemsSpec as Codec>::Model),
    PlayWindowProperty(<PlayWindowPropertySpec as Codec>::Model),
    PlaySetSlot(<PlaySetSlotSpec as Codec>::Model),
    PlaySetCooldown(<PlaySetCooldownSpec as Codec>::Model),
    PlayServerPluginMessage(PlayServerPluginMessageSpecModel),
    PlayNamedSoundEffect(<PlayNamedSoundEffectSpec as Codec>::Model),
    PlayDisconnect(<PlayDisconnectSpec as Codec>::Model),
    PlayEntityStatus(<PlayEntityStatusSpec as Codec>::Model),
    PlayExplosion(<PlayExplosionSpec as Codec>::Model),
    PlayUnloadChunk(<PlayUnloadChunkSpec as Codec>::Model),
    PlayChangeGameState(<PlayChangeGameStateSpec as Codec>::Model),
    PlayOpenHorseWindow(<PlayOpenHorseWindowSpec as Codec>::Model),
    PlayServerKeepAlive(<PlayServerKeepAliveSpec as Codec>::Model),
    PlayChunkData(<PlayChunkDataWrapper as Codec>::Model),
    PlayEffect(<PlayEffectSpec as Codec>::Model),
    PlayParticle(PlayParticleSpecModel),
    PlayUpdateLight(<PlayUpdateLightSpec as Codec>::Model),
    PlayJoinGame(<PlayJoinGameSpec as Codec>::Model),
    PlayMapData(<PlayMapDataSpec as Codec>::Model),
    PlayTradeList(<PlayTradeListSpec as Codec>::Model),
    PlayEntityPosition(<PlayEntityPositionSpec as Codec>::Model),
    PlayEntityPositionAndRotation(<PlayEntityPositionAndRotationSpec as Codec>::Model),
    PlayEntityRotation(<PlayEntityRotationSpec as Codec>::Model),
    PlayEntityMovement(<PlayEntityMovementSpec as Codec>::Model),
    PlayServerVehicleMove(<PlayEntityVehicleMoveSpec as Codec>::Model),
    PlayOpenBook(<PlayOpenBookSpec as Codec>::Model),
    PlayOpenWindow(<PlayOpenWindowSpec as Codec>::Model),
    PlayOpenSignEditor(<PlayOpenSignEditorSpec as Codec>::Model),
    PlayCraftRecipeResponse(<PlayCraftRecipeResponseSpec as Codec>::Model),
    PlayServerPlayerAbilities(<PlayServerPlayerAbilitiesSpec as Codec>::Model),
    PlayCombatEvent(<PlayCombatEventSpec as Codec>::Model),
    PlayPlayerInfo(<PlayPlayerInfoSpec as Codec>::Model),
    PlayFacePlayer(<PlayFacePlayerSpec as Codec>::Model),
    PlayServerPlayerPositionAndLook(<PlayServerPlayerPositionAndLookSpec as Codec>::Model),
    PlayUnlockRecipes(PlayUnlockRecipesSpecModel),
    PlayDestroyEntities(<PlayDestroyEntitiesSpec as Codec>::Model),
    PlayRemoveEntityEffect(<PlayRemoveEntityEffectSpec as Codec>::Model),
    PlayResourcePackSend(<PlayResourcePackSendSpec as Codec>::Model),
    PlayRespawn(<PlayRespawnSpec as Codec>::Model),
    PlayEntityHeadLook(<PlayEntityHeadLookSpec as Codec>::Model),
    PlaySelectAdvancementTab(<PlaySelectAdvancementTabSpec as Codec>::Model),
    PlayWorldBorder(<PlayWorldBorderSpec as Codec>::Model),
    PlayCamera(<PlayCameraSpec as Codec>::Model),
    PlayServerHeldItemChange(<PlayServerHeldItemChangeSpec as Codec>::Model),
    PlayUpdateViewPosition(<PlayUpdateViewPositionSpec as Codec>::Model),
    PlayUpdateViewDistance(<PlayUpdateViewDistanceSpec as Codec>::Model),
    PlayDisplayScoreboard(<PlayDisplayScoreboardSpec as Codec>::Model),
    PlayEntityMetadata(<PlayEntityMetadataSpec as Codec>::Model),
    PlayAttachEntity(<PlayAttachEntitySpec as Codec>::Model),
    PlayEntityVelocity(<PlayEntityVelocitySpec as Codec>::Model),
    PlayEntityEquipment(<PlayEntityEquiptmentSpec as Codec>::Model),
    PlaySetExperience(<PlaySetExperienceSpec as Codec>::Model),
    PlayUpdatehealth(<PlayUpdateHealthSpec as Codec>::Model),
    PlayScoreboardObjective(<PlayScoreboardObjectiveSpec as Codec>::Model),
    PlaySetPassengers(<PlaySetPassengersSpec as Codec>::Model),
    PlayTeams(<PlayTeamsSpec as Codec>::Model),
    PlayUpdateScore(<PlayUpdateScoreSpec as Codec>::Model),
    PlaySpawnPosition(<PlaySpawnPositionSpec as Codec>::Model),
    PlayTimeUpdate(<PlayTimeUpdateSpec as Codec>::Model),
    PlayTitle(<PlayTitleSpec as Codec>::Model),
    PlayEntitySoundEffect(<PlayEntitySoundEffectSpec as Codec>::Model),
    PlaySoundEffect(<PlaySoundEffectSpec as Codec>::Model),
    PlayStopSound(<PlayStopSoundSpec as Codec>::Model),
    PlayerPlayerListHeaderAndFooter(<PlayPlayerListHeaderAndFooterSpec as Codec>::Model),
    PlayNbtQueryResponse(<PlayNbtQueryResponseSpec as Codec>::Model),
    PlayCollectItem(<PlayCollectItemSpec as Codec>::Model),
    PlayEntityTeleport(<PlayEntityTeleportSpec as Codec>::Model),
    PlayAdvancements(<PlayAdvancementsSpec as Codec>::Model),
    PlayEntityProperties(<PlayEntityPropertiesSpec as Codec>::Model),
    PlayEntityEffect(<PlayEntityEffectSpec as Codec>::Model),
    PlayDeclareRecipes(<PlayDeclareRecipesSpec as Codec>::Model),
    PlayTags(<PlayTagsSpec as Codec>::Model),
    PlayTeleportConfirm(<PlayTeleportConfirmSpec as Codec>::Model),
    PlayQueryBlockNbt(<PlayQueryBlockNbtSpec as Codec>::Model),
    PlayQueryEntityNbt(<PlayQueryEntityNbtSpec as Codec>::Model),
    PlaySetDifficulty(<PlaySetDifficultySpec as Codec>::Model),
    PlayClientChatMessage(<PlayClientChatMessageSpec as Codec>::Model),
    PlayClientStatus(<PlayClientStatusSpec as Codec>::Model),
    PlayClientSettings(<PlayClientSettingsSpec as Codec>::Model),
    PlayClientTabComplete(<PlayClientTabCompleteSpec as Codec>::Model),
    PlayClientWindowConfirmation(<PlayClientWindowConfirmationSpec as Codec>::Model),
    PlayClickWindowButton(<PlayClickWindowButtonSpec as Codec>::Model),
    PlayClickWindow(<PlayClickWindowSpec as Codec>::Model),
    PlayClientCloseWindow(<PlayClientCloseWindowSpec as Codec>::Model),
    PlayClientPluginMessage(PlayClientPluginMessageSpecModel),
    PlayEditBook(<PlayEditBookSpec as Codec>::Model),
    PlayInteractEntity(<PlayInteractEntitySpec as Codec>::Model),
    PlayClientKeepAlive(<PlayClientKeepAliveSpec as Codec>::Model),
    PlayLockDifficulty(<PlayLockDifficultySpec as Codec>::Model),
    PlayPlayerPosition(<PlayPlayerPositionSpec as Codec>::Model),
    PlayClientPlayerPositionAndRotation(<PlayClientPlayerPositionAndRotationSpec as Codec>::Model),
    PlayPlayerRotation(<PlayPlayerRotationSpec as Codec>::Model),
    PlayPlayerMovement(<PlayPlayerMovementSpec as Codec>::Model),
    PlayClientVehicleMove(<PlayClientVehicleMoveSpec as Codec>::Model),
    PlaySteerBoat(<PlaySteerBoatSpec as Codec>::Model),
    PlayPickItem(<PlayPickItemSpec as Codec>::Model),
    PlayCraftRecipeRequest(<PlayCraftRecipeRequestSpec as Codec>::Model),
    PlayClientPlayerAbilities(<PlayClientPlayerAbilitiesSpec as Codec>::Model),
    PlayPlayerDigging(<PlayPlayerDiggingSpec as Codec>::Model),
    PlayEntityAction(<PlayEntityActionSpec as Codec>::Model),
    PlaySteerVehicle(<PlaySteerVehicleSpec as Codec>::Model),
    PlayRecipeBookData(<PlayRecipeBookDataSpec as Codec>::Model),
    PlayNameItem(<PlayNameItemSpec as Codec>::Model),
    PlayResourcePackStatus(<PlayResourcePackStatusSpec as Codec>::Model),
    PlayAdvancementTab(<PlayAdvancementTabSpec as Codec>::Model),
    PlaySelectTrade(<PlaySelectTradeSpec as Codec>::Model),
    PlaySetBeaconEffect(<PlaySetBeaconEffectSpec as Codec>::Model),
    PlayClientHeldItemChange(<PlayClientHeldItemChangeSpec as Codec>::Model),
    PlayUpdateCommandBlock(<PlayUpdateCommandBlockSpec as Codec>::Model),
    PlayUpdateCommandBlockMinecart(<PlayUpdateCommandBlockMinecartSpec as Codec>::Model),
    PlayCreativeInventoryAction(<PlayCreativeInventoryActionSpec as Codec>::Model),
    PlayUpdateJigsawBlock(<PlayUpdateJigsawBlockSpec as Codec>::Model),
    PlayUpdateStructureBlock(<PlayUpdateStructureBlockSpec as Codec>::Model),
    PlayUpdateSign(<PlayUpdateSignSpec as Codec>::Model),
    PlayClientAnimation(<PlayClientAnimationSpec as Codec>::Model),
    PlaySpectate(<PlaySpectateSpec as Codec>::Model),
    PlayBlockPlacement(<PlayBlockPlacementSpec as Codec>::Model),
    PlayUseItem(<PlayUseItemSpec as Codec>::Model),
}

/// A message of the catalogue, with its typed body.
#[derive(Debug, Clone, PartialEq)]
pub enum Packet578 {
    Handshake(HandshakeSpec),
    StatusRequest(StatusRequestSpec),
    StatusPing(StatusPingSpec),
    StatusResponse(StatusResponseSpec),
    StatusPong(StatusPongSpec),
    LoginDisconnect(LoginDisconnectSpec),
    LoginEncryptionRequest(LoginEncryptionRequestSpec),
    LoginSuccess(LoginSuccessSpec),
    LoginSetCompression(LoginSetCompressionSpec),
    LoginPluginRequest(LoginPluginRequestSpec),
    LoginStart(LoginStartSpec),
    LoginEncryptionResponse(LoginEncryptionResponseSpec),
    LoginPluginResponse(LoginPluginResponseSpec),
    PlaySpawnEntity(PlaySpawnEntitySpec),
    PlaySpawnExperienceOrb(PlaySpawnExperienceOrbSpec),
    PlaySpawnWeatherEntity(PlaySpawnWeatherEntitySpec),
    PlaySpawnLivingEntity(PlaySpawnLivingEntitySpec),
    PlaySpawnPainting(PlaySpawnPaintingSpec),
    PlaySpawnPlayer(PlaySpawnPlayerSpec),
    PlayEntityAnimation(PlayEntityAnimationSpec),
    PlayStatistics(PlayStatisticsSpec),
    PlayAcknowledgePlayerDigging(PlayAcknowledgePlayerDiggingSpec),
    PlayBlockBreakAnimation(PlayBlockBreakAnimationSpec),
    PlayBlockEntityData(PlayBlockEntityDataSpec),
    PlayBlockAction(PlayBlockActionSpec),
    PlayBlockChange(PlayBlockChangeSpec),
    PlayBossBar(PlayBossBarSpec),
    PlayServerDifficulty(PlayServerDifficultySpec),
    PlayServerChatMessage(PlayServerChatMessageSpec),
    PlayMultiBlockChange(PlayMultiBlockChangeSpec),
    PlayTabComplete(PlayTabCompleteSpec),
    PlayDeclareCommands(PlayDeclareCommandsSpec),
    PlayServerWindowConfirmation(PlayServerWindowConfirmationSpec),
    PlayServerCloseWindow(PlayServerCloseWindowSpec),
    PlayWindowItems(PlayWindowItemsSpec),
    PlayWindowProperty(PlayWindowPropertySpec),
    PlaySetSlot(PlaySetSlotSpec),
    PlaySetCooldown(PlaySetCooldownSpec),
    PlayServerPluginMessage(PlayServerPluginMessageSpec),
    PlayNamedSoundEffect(PlayNamedSoundEffectSpec),
    PlayDisconnect(PlayDisconnectSpec),
    PlayEntityStatus(PlayEntityStatusSpec),
    PlayExplosion(PlayExplosionSpec),
    PlayUnloadChunk(PlayUnloadChunkSpec),
    PlayChangeGameState(PlayChangeGameStateSpec),
    PlayOpenHorseWindow(PlayOpenHorseWindowSpec),
    PlayServerKeepAlive(PlayServerKeepAliveSpec),
    PlayChunkData(PlayChunkDataWrapper),
    PlayEffect(PlayEffectSpec),
    PlayParticle(PlayParticleSpec),
    PlayUpdateLight(PlayUpdateLightSpec),
    PlayJoinGame(PlayJoinGameSpec),
    PlayMapData(PlayMapDataSpec),
    PlayTradeList(PlayTradeListSpec),
    PlayEntityPosition(PlayEntityPositionSpec),
    PlayEntityPositionAndRotation(PlayEntityPositionAndRotationSpec),
    PlayEntityRotation(PlayEntityRotationSpec),
    PlayEntityMovement(PlayEntityMovementSpec),
    PlayServerVehicleMove(PlayEntityVehicleMoveSpec),
    PlayOpenBook(PlayOpenBookSpec),
    PlayOpenWindow(PlayOpenWindowSpec),
    PlayOpenSignEditor(PlayOpenSignEditorSpec),
    PlayCraftRecipeResponse(PlayCraftRecipeResponseSpec),
    PlayServerPlayerAbilities(PlayServerPlayerAbilitiesSpec),
    PlayCombatEvent(PlayCombatEventSpec),
    PlayPlayerInfo(PlayPlayerInfoSpec),
    PlayFacePlayer(PlayFacePlayerSpec),
    PlayServerPlayerPositionAndLook(PlayServerPlayerPositionAndLookSpec),
    PlayUnlockRecipes(PlayUnlockRecipesSpec),
    PlayDestroyEntities(PlayDestroyEntitiesSpec),
    PlayRemoveEntityEffect(PlayRemoveEntityEffectSpec),
    PlayResourcePackSend(PlayResourcePackSendSpec),
    PlayRespawn(PlayRespawnSpec),
    PlayEntityHeadLook(PlayEntityHeadLookSpec),
    PlaySelectAdvancementTab(PlaySelectAdvancementTabSpec),
    PlayWorldBorder(PlayWorldBorderSpec),
    PlayCamera(PlayCameraSpec),
    PlayServerHeldItemChange(PlayServerHeldItemChangeSpec),
    PlayUpdateViewPosition(PlayUpdateViewPositionSpec),
    PlayUpdateViewDistance(PlayUpdateViewDistanceSpec),
    PlayDisplayScoreboard(PlayDisplayScoreboardSpec),
    PlayEntityMetadata(PlayEntityMetadataSpec),
    PlayAttachEntity(PlayAttachEntitySpec),
    PlayEntityVelocity(PlayEntityVelocitySpec),
    PlayEntityEquipment(PlayEntityEquiptmentSpec),
    PlaySetExperience(PlaySetExperienceSpec),
    PlayUpdatehealth(PlayUpdateHealthSpec),
    PlayScoreboardObjective(PlayScoreboardObjectiveSpec),
    PlaySetPassengers(PlaySetPassengersSpec),
    PlayTeams(PlayTeamsSpec),
    PlayUpdateScore(PlayUpdateScoreSpec),
    PlaySpawnPosition(PlaySpawnPositionSpec),
    PlayTimeUpdate(PlayTimeUpdateSpec),
    PlayTitle(PlayTitleSpec),
    PlayEntitySoundEffect(PlayEntitySoundEffectSpec),
    PlaySoundEffect(PlaySoundEffectSpec),
    PlayStopSound(PlayStopSoundSpec),
    PlayerPlayerListHeaderAndFooter(PlayPlayerListHeaderAndFooterSpec),
    PlayNbtQueryResponse(PlayNbtQueryResponseSpec),
    PlayCollectItem(PlayCollectItemSpec),
    PlayEntityTeleport(PlayEntityTeleportSpec),
    PlayAdvancements(PlayAdvancementsSpec),
    PlayEntityProperties(PlayEntityPropertiesSpec),
    PlayEntityEffect(PlayEntityEffectSpec),
    PlayDeclareRecipes(PlayDeclareRecipesSpec),
    PlayTags(PlayTagsSpec),
    PlayTeleportConfirm(PlayTeleportConfirmSpec),
    PlayQueryBlockNbt(PlayQueryBlockNbtSpec),
    PlayQueryEntityNbt(PlayQueryEntityNbtSpec),
    PlaySetDifficulty(PlaySetDifficultySpec),
    PlayClientChatMessage(PlayClientChatMessageSpec),
    PlayClientStatus(PlayClientStatusSpec),
    PlayClientSettings(PlayClientSettingsSpec),
    PlayClientTabComplete(PlayClientTabCompleteSpec),
    PlayClientWindowConfirmation(PlayClientWindowConfirmationSpec),
    PlayClickWindowButton(PlayClickWindowButtonSpec),
    PlayClickWindow(PlayClickWindowSpec),
    PlayClientCloseWindow(PlayClientCloseWindowSpec),
    PlayClientPluginMessage(PlayClientPluginMessageSpec),
    PlayEditBook(PlayEditBookSpec),
    PlayInteractEntity(PlayInteractEntitySpec),
    PlayClientKeepAlive(PlayClientKeepAliveSpec),
    PlayLockDifficulty(PlayLockDifficultySpec),
    PlayPlayerPosition(PlayPlayerPositionSpec),
    PlayClientPlayerPositionAndRotation(PlayClientPlayerPositionAndRotationSpec),
    PlayPlayerRotation(PlayPlayerRotationSpec),
    PlayPlayerMovement(PlayPlayerMovementSpec),
    PlayClientVehicleMove(PlayClientVehicleMoveSpec),
    PlaySteerBoat(PlaySteerBoatSpec),
    PlayPickItem(PlayPickItemSpec),
    PlayCraftRecipeRequest(PlayCraftRecipeRequestSpec),
    PlayClientPlayerAbilities(PlayClientPlayerAbilitiesSpec),
    PlayPlayerDigging(PlayPlayerDiggingSpec),
    PlayEntityAction(PlayEntityActionSpec),
    PlaySteerVehicle(PlaySteerVehicleSpec),
    PlayRecipeBookData(PlayRecipeBookDataSpec),
    PlayNameItem(PlayNameItemSpec),
    PlayResourcePackStatus(PlayResourcePackStatusSpec),
    PlayAdvancementTab(PlayAdvancementTabSpec),
    PlaySelectTrade(PlaySelectTradeSpec),
    PlaySetBeaconEffect(PlaySetBeaconEffectSpec),
    PlayClientHeldItemChange(PlayClientHeldItemChangeSpec),
    PlayUpdateCommandBlock(PlayUpdateCommandBlockSpec),
    PlayUpdateCommandBlockMinecart(PlayUpdateCommandBlockMinecartSpec),
    PlayCreativeInventoryAction(PlayCreativeInventoryActionSpec),
    PlayUpdateJigsawBlock(PlayUpdateJigsawBlockSpec),
    PlayUpdateStructureBlock(PlayUpdateStructureBlockSpec),
    PlayUpdateSign(PlayUpdateSignSpec),
    PlayClientAnimation(PlayClientAnimationSpec),
    PlaySpectate(PlaySpectateSpec),
    PlayBlockPlacement(PlayBlockPlacementSpec),
    PlayUseItem(PlayUseItemSpec),
}

impl Packet578 {
    pub open spec fn model(&self) -> Packet578Model {
        match self {
            Packet578::Handshake(b) => Packet578Model::Handshake(b.model()),
            Packet578::StatusRequest(b) => Packet578Model::StatusRequest(b.model()),
            Packet578::StatusPing(b) => Packet578Model::StatusPing(b.model()),
            Packet578::StatusResponse(b) => Packet578Model::StatusResponse(b.model()),
            Packet578::StatusPong(b) => Packet578Model::StatusPong(b.model()),
            Packet578::LoginDisconnect(b) => Packet578Model::LoginDisconnect(b.model()),
            Packet578::LoginEncryptionRequest(b) => Packet578Model::LoginEncryptionRequest(b.model()),
            Packet578::LoginSuccess(b) => Packet578Model::LoginSuccess(b.model()),
            Packet578::LoginSetCompression(b) => Packet578Model::LoginSetCompression(b.model()),
            Packet578::LoginPluginRequest(b) => Packet578Model::LoginPluginRequest(b.spec_model()),
            Packet578::LoginStart(b) => Packet578Model::LoginStart(b.model()),
            Packet578::LoginEncryptionResponse(b) => Packet578Model::LoginEncryptionResponse(b.model()),
            Packet578::LoginPluginResponse(b) => Packet578Model::LoginPluginResponse(b.spec_model()),
            Packet578::PlaySpawnEntity(b) => Packet578Model::PlaySpawnEntity(b.model()),
            Packet578::PlaySpawnExperienceOrb(b) => Packet578Model::PlaySpawnExperienceOrb(b.model()),
            Packet578::PlaySpawnWeatherEntity(b) => Packet578Model::PlaySpawnWeatherEntity(b.model()),
            Packet578::PlaySpawnLivingEntity(b) => Packet578Model::PlaySpawnLivingEntity(b.model()),
            Packet578::PlaySpawnPainting(b) => Packet578Model::PlaySpawnPainting(b.model()),
            Packet578::PlaySpawnPlayer(b) => Packet578Model::PlaySpawnPlayer(b.model()),
            Packet578::PlayEntityAnimation(b) => Packet578Model::PlayEntityAnimation(b.model()),
            Packet578::PlayStatistics(b) => Packet578Model::PlayStatistics(b.model()),
            Packet578::PlayAcknowledgePlayerDigging(b) => Packet578Model::PlayAcknowledgePlayerDigging(b.model()),
            Packet578::PlayBlockBreakAnimation(b) => Packet578Model::PlayBlockBreakAnimation(b.model()),
            Packet578::PlayBlockEntityData(b) => Packet578Model::PlayBlockEntityData(b.model()),
            Packet578::PlayBlockAction(b) => Packet578Model::PlayBlockAction(b.model()),
            Packet578::PlayBlockChange(b) => Packet578Model::PlayBlockChange(b.model()),
            Packet578::PlayBossBar(b) => Packet578Model::PlayBossBar(b.model()),
            Packet578::PlayServerDifficulty(b) => Packet578Model::PlayServerDifficulty(b.model()),
            Packet578::PlayServerChatMessage(b) => Packet578Model::PlayServerChatMessage(b.model()),
            Packet578::PlayMultiBlockChange(b) => Packet578Model::PlayMultiBlockChange(b.model()),
            Packet578::PlayTabComplete(b) => Packet578Model::PlayTabComplete(b.model()),
            Packet578::PlayDeclareCommands(b) => Packet578Model::PlayDeclareCommands(b.model()),
            Packet578::PlayServerWindowConfirmation(b) => Packet578Model::PlayServerWindowConfirmation(b.model()),
            Packet578::PlayServerCloseWindow(b) => Packet578Model::PlayServerCloseWindow(b.model()),
            Packet578::PlayWindowItems(b) => Packet578Model::PlayWindowItems(b.model()),
            Packet578::PlayWindowProperty(b) => Packet578Model::PlayWindowProperty(b.model()),
            Packet578::PlaySetSlot(b) => Packet578Model::PlaySetSlot(b.model()),
            Packet578::PlaySetCooldown(b) => Packet578Model::PlaySetCooldown(b.model()),
            Packet578::PlayServerPluginMessage(b) => Packet578Model::PlayServerPluginMessage(b.spec_model()),
            Packet578::PlayNamedSoundEffect(b) => Packet578Model::PlayNamedSoundEffect(b.model()),
            Packet578::PlayDisconnect(b) => Packet578Model::PlayDisconnect(b.model()),
            Packet578::PlayEntityStatus(b) => Packet578Model::PlayEntityStatus(b.model()),
            Packet578::PlayExplosion(b) => Packet578Model::PlayExplosion(b.model()),
            Packet578::PlayUnloadChunk(b) => Packet578Model::PlayUnloadChunk(b.model()),
            Packet578::PlayChangeGameState(b) => Packet578Model::PlayChangeGameState(b.model()),
            Packet578::PlayOpenHorseWindow(b) => Packet578Model::PlayOpenHorseWindow(b.model()),
            Packet578::PlayServerKeepAlive(b) => Packet578Model::PlayServerKeepAlive(b.model()),
            Packet578::PlayChunkData(b) => Packet578Model::PlayChunkData(b.model()),
            Packet578::PlayEffect(b) => Packet578Model::PlayEffect(b.model()),
            Packet578::PlayParticle(b) => Packet578Model::PlayParticle(b.spec_model()),
            Packet578::PlayUpdateLight(b) => Packet578Model::PlayUpdateLight(b.model()),
            Packet578::PlayJoinGame(b) => Packet578Model::PlayJoinGame(b.model()),
            Packet578::PlayMapData(b) => Packet578Model::PlayMapData(b.model()),
            Packet578::PlayTradeList(b) => Packet578Model::PlayTradeList(b.model()),
            Packet578::PlayEntityPosition(b) => Packet578Model::PlayEntityPosition(b.model()),
            Packet578::PlayEntityPositionAndRotation(b) => Packet578Model::PlayEntityPositionAndRotation(b.model()),
            Packet578::PlayEntityRotation(b) => Packet578Model::PlayEntityRotation(b.model()),
            Packet578::PlayEntityMovement(b) => Packet578Model::PlayEntityMovement(b.model()),
            Packet578::PlayServerVehicleMove(b) => Packet578Model::PlayServerVehicleMove(b.model()),
            Packet578::PlayOpenBook(b) => Packet578Model::PlayOpenBook(b.model()),
            Packet578::PlayOpenWindow(b) => Packet578Model::PlayOpenWindow(b.model()),
            Packet578::PlayOpenSignEditor(b) => Packet578Model::PlayOpenSignEditor(b.model()),
            Packet578::PlayCraftRecipeResponse(b) => Packet578Model::PlayCraftRecipeResponse(b.model()),
            Packet578::PlayServerPlayerAbilities(b) => Packet578Model::PlayServerPlayerAbilities(b.model()),
            Packet578::PlayCombatEvent(b) => Packet578Model::PlayCombatEvent(b.model()),
            Packet578::PlayPlayerInfo(b) => Packet578Model::PlayPlayerInfo(b.model()),
            Packet578::PlayFacePlayer(b) => Packet578Model::PlayFacePlayer(b.model()),
            Packet578::PlayServerPlayerPositionAndLook(b) => Packet578Model::PlayServerPlayerPositionAndLook(b.model()),
            Packet578::PlayUnlockRecipes(b) => Packet578Model::PlayUnlockRecipes(b.spec_model()),
            Packet578::PlayDestroyEntities(b) => Packet578Model::PlayDestroyEntities(b.model()),
            Packet578::PlayRemoveEntityEffect(b) => Packet578Model::PlayRemoveEntityEffect(b.model()),
            Packet578::PlayResourcePackSend(b) => Packet578Model::PlayResourcePackSend(b.model()),
            Packet578::PlayRespawn(b) => Packet578Model::PlayRespawn(b.model()),
            Packet578::PlayEntityHeadLook(b) => Packet578Model::PlayEntityHeadLook(b.model()),
            Packet578::PlaySelectAdvancementTab(b) => Packet578Model::PlaySelectAdvancementTab(b.model()),
            Packet578::PlayWorldBorder(b) => Packet578Model::PlayWorldBorder(b.model()),
            Packet578::PlayCamera(b) => Packet578Model::PlayCamera(b.model()),
            Packet578::PlayServerHeldItemChange(b) => Packet578Model::PlayServerHeldItemChange(b.model()),
            Packet578::PlayUpdateViewPosition(b) => Packet578Model::PlayUpdateViewPosition(b.model()),
            Packet578::PlayUpdateViewDistance(b) => Packet578Model::PlayUpdateViewDistance(b.model()),
            Packet578::PlayDisplayScoreboard(b) => Packet578Model::PlayDisplayScoreboard(b.model()),
            Packet578::PlayEntityMetadata(b) => Packet578Model::PlayEntityMetadata(b.model()),
            Packet578::PlayAttachEntity(b) => Packet578Model::PlayAttachEntity(b.model()),
            Packet578::PlayEntityVelocity(b) => Packet578Model::PlayEntityVelocity(b.model()),
            Packet578::PlayEntityEquipment(b) => Packet578Model::PlayEntityEquipment(b.model()),
            Packet578::PlaySetExperience(b) => Packet578Model::PlaySetExperience(b.model()),
            Packet578::PlayUpdatehealth(b) => Packet578Model::PlayUpdatehealth(b.model()),
            Packet578::PlayScoreboardObjective(b) => Packet578Model::PlayScoreboardObjective(b.model()),
            Packet578::PlaySetPassengers(b) => Packet578Model::PlaySetPassengers(b.model()),
            Packet578::PlayTeams(b) => Packet578Model::PlayTeams(b.model()),
            Packet578::PlayUpdateScore(b) => Packet578Model::PlayUpdateScore(b.model()),
            Packet578::PlaySpawnPosition(b) => Packet578Model::PlaySpawnPosition(b.model()),
            Packet578::PlayTimeUpdate(b) => Packet578Model::PlayTimeUpdate(b.model()),
            Packet578::PlayTitle(b) => Packet578Model::PlayTitle(b.model()),
            Packet578::PlayEntitySoundEffect(b) => Packet578Model::PlayEntitySoundEffect(b.model()),
            Packet578::PlaySoundEffect(b) => Packet578Model::PlaySoundEffect(b.model()),
            Packet578::PlayStopSound(b) => Packet578Model::PlayStopSound(b.model()),
            Packet578::PlayerPlayerListHeaderAndFooter(b) => Packet578Model::PlayerPlayerListHeaderAndFooter(b.model()),
            Packet578::PlayNbtQueryResponse(b) => Packet578Model::PlayNbtQueryResponse(b.model()),
            Packet578::PlayCollectItem(b) => Packet578Model::PlayCollectItem(b.model()),
            Packet578::PlayEntityTeleport(b) => Packet578Model::PlayEntityTeleport(b.model()),
            Packet578::PlayAdvancements(b) => Packet578Model::PlayAdvancements(b.model()),
            Packet578::PlayEntityProperties(b) => Packet578Model::PlayEntityProperties(b.model()),
            Packet578::PlayEntityEffect(b) => Packet578Model::PlayEntityEffect(b.model()),
            Packet578::PlayDeclareRecipes(b) => Packet578Model::PlayDeclareRecipes(b.model()),
            Packet578::PlayTags(b) => Packet578Model::PlayTags(b.model()),
            Packet578::PlayTeleportConfirm(b) => Packet578Model::PlayTeleportConfirm(b.model()),
            Packet578::PlayQueryBlockNbt(b) => Packet578Model::PlayQueryBlockNbt(b.model()),
            Packet578::PlayQueryEntityNbt(b) => Packet578Model::PlayQueryEntityNbt(b.model()),
            Packet578::PlaySetDifficulty(b) => Packet578Model::PlaySetDifficulty(b.model()),
            Packet578::PlayClientChatMessage(b) => Packet578Model::PlayClientChatMessage(b.model()),
            Packet578::PlayClientStatus(b) => Packet578Model::PlayClientStatus(b.model()),
            Packet578::PlayClientSettings(b) => Packet578Model::PlayClientSettings(b.model()),
            Packet578::PlayClientTabComplete(b) => Packet578Model::PlayClientTabComplete(b.model()),
            Packet578::PlayClientWindowConfirmation(b) => Packet578Model::PlayClientWindowConfirmation(b.model()),
            Packet578::PlayClickWindowButton(b) => Packet578Model::PlayClickWindowButton(b.model()),
            Packet578::PlayClickWindow(b) => Packet578Model::PlayClickWindow(b.model()),
            Packet578::PlayClientCloseWindow(b) => Packet578Model::PlayClientCloseWindow(b.model()),
            Packet578::PlayClientPluginMessage(b) => Packet578Model::PlayClientPluginMessage(b.spec_model()),
            Packet578::PlayEditBook(b) => Packet578Model::PlayEditBook(b.model()),
            Packet578::PlayInteractEntity(b) => Packet578Model::PlayInteractEntity(b.model()),
            Packet578::PlayClientKeepAlive(b) => Packet578Model::PlayClientKeepAlive(b.model()),
            Packet578::PlayLockDifficulty(b) => Packet578Model::PlayLockDifficulty(b.model()),
            Packet578::PlayPlayerPosition(b) => Packet578Model::PlayPlayerPosition(b.model()),
            Packet578::PlayClientPlayerPositionAndRotation(b) => Packet578Model::PlayClientPlayerPositionAndRotation(b.model()),
            Packet578::PlayPlayerRotation(b) => Packet578Model::PlayPlayerRotation(b.model()),
            Packet578::PlayPlayerMovement(b) => Packet578Model::PlayPlayerMovement(b.model()),
            Packet578::PlayClientVehicleMove(b) => Packet578Model::PlayClientVehicleMove(b.model()),
            Packet578::PlaySteerBoat(b) => Packet578Model::PlaySteerBoat(b.model()),
            Packet578::PlayPickItem(b) => Packet578Model::PlayPickItem(b.model()),
            Packet578::PlayCraftRecipeRequest(b) => Packet578Model::PlayCraftRecipeRequest(b.model()),
            Packet578::PlayClientPlayerAbilities(b) => Packet578Model::PlayClientPlayerAbilities(b.model()),
            Packet578::PlayPlayerDigging(b) => Packet578Model::PlayPlayerDigging(b.model()),
            Packet578::PlayEntityAction(b) => Packet578Model::PlayEntityAction(b.model()),
            Packet578::PlaySteerVehicle(b) => Packet578Model::PlaySteerVehicle(b.model()),
            Packet578::PlayRecipeBookData(b) => Packet578Model::PlayRecipeBookData(b.model()),
            Packet578::PlayNameItem(b) => Packet578Model::PlayNameItem(b.model()),
            Packet578::PlayResourcePackStatus(b) => Packet578Model::PlayResourcePackStatus(b.model()),
            Packet578::PlayAdvancementTab(b) => Packet578Model::PlayAdvancementTab(b.model()),
            Packet578::PlaySelectTrade(b) => Packet578Model::PlaySelectTrade(b.model()),
            Packet578::PlaySetBeaconEffect(b) => Packet578Model::PlaySetBeaconEffect(b.model()),
            Packet578::PlayClientHeldItemChange(b) => Packet578Model::PlayClientHeldItemChange(b.model()),
            Packet578::PlayUpdateCommandBlock(b) => Packet578Model::PlayUpdateCommandBlock(b.model()),
            Packet578::PlayUpdateCommandBlockMinecart(b) => Packet578Model::PlayUpdateCommandBlockMinecart(b.model()),
            Packet578::PlayCreativeInventoryAction(b) => Packet578Model::PlayCreativeInventoryAction(b.model()),
            Packet578::PlayUpdateJigsawBlock(b) => Packet578Model::PlayUpdateJigsawBlock(b.model()),
            Packet578::PlayUpdateStructureBlock(b) => Packet578Model::PlayUpdateStructureBlock(b.model()),
            Packet578::PlayUpdateSign(b) => Packet578Model::PlayUpdateSign(b.model()),
            Packet578::PlayClientAnimation(b) => Packet578Model::PlayClientAnimation(b.model()),
            Packet578::PlaySpectate(b) => Packet578Model::PlaySpectate(b.model()),
            Packet578::PlayBlockPlacement(b) => Packet578Model::PlayBlockPlacement(b.model()),
            Packet578::PlayUseItem(b) => Packet578Model::PlayUseItem(b.model()),
        }
    }

    /// Where the message is found: its state, direction and id.
    pub open spec fn spec_key(m: Packet578Model) -> (State, PacketDirection, i32) {
        match m {
            Packet578Model::Handshake(_) => (State::Handshaking, PacketDirection::ServerBound, 0i32),
            Packet578Model::StatusRequest(_) => (State::Status, PacketDirection::ServerBound, 0i32),
            Packet578Model::StatusPing(_) => (State::Status, PacketDirection::ServerBound, 1i32),
            Packet578Model::StatusResponse(_) => (State::Status, PacketDirection::ClientBound, 0i32),
            Packet578Model::StatusPong(_) => (State::Status, PacketDirection::ClientBound, 1i32),
            Packet578Model::LoginDisconnect(_) => (State::Login, PacketDirection::ClientBound, 0i32),
            Packet578Model::LoginEncryptionRequest(_) => (State::Login, PacketDirection::ClientBound, 1i32),
            Packet578Model::LoginSuccess(_) => (State::Login, PacketDirection::ClientBound, 2i32),
            Packet578Model::LoginSetCompression(_) => (State::Login, PacketDirection::ClientBound, 3i32),
            Packet578Model::LoginPluginRequest(_) => (State::Login, PacketDirection::ClientBound, 4i32),
            Packet578Model::LoginStart(_) => (State::Login, PacketDirection::ServerBound, 0i32),
            Packet578Model::LoginEncryptionResponse(_) => (State::Login, PacketDirection::ServerBound, 1i32),
            Packet578Model::LoginPluginResponse(_) => (State::Login, PacketDirection::ServerBound, 2i32),
            Packet578Model::PlaySpawnEntity(_) => (State::Play, PacketDirection::ClientBound, 0i32),
            Packet578Model::PlaySpawnExperienceOrb(_) => (State::Play, PacketDirection::ClientBound, 1i32),
            Packet578Model::PlaySpawnWeatherEntity(_) => (State::Play, PacketDirection::ClientBound, 2i32),
            Packet578Model::PlaySpawnLivingEntity(_) => (State::Play, PacketDirection::ClientBound, 3i32),
            Packet578Model::PlaySpawnPainting(_) => (State::Play, PacketDirection::ClientBound, 4i32),
            Packet578Model::PlaySpawnPlayer(_) => (State::Play, PacketDirection::ClientBound, 5i32),
            Packet578Model::PlayEntityAnimation(_) => (State::Play, PacketDirection::ClientBound, 6i32),
            Packet578Model::PlayStatistics(_) => (State::Play, PacketDirection::ClientBound, 7i32),
            Packet578Model::PlayAcknowledgePlayerDigging(_) => (State::Play, PacketDirection::ClientBound, 8i32),
            Packet578Model::PlayBlockBreakAnimation(_) => (State::Play, PacketDirection::ClientBound, 9i32),
            Packet578Model::PlayBlockEntityData(_) => (State::Play, PacketDirection::ClientBound, 10i32),
            Packet578Model::PlayBlockAction(_) => (State::Play, PacketDirection::ClientBound, 11i32),
            Packet578Model::PlayBlockChange(_) => (State::Play, PacketDirection::ClientBound, 12i32),
            Packet578Model::PlayBossBar(_) => (State::Play, PacketDirection::ClientBound, 13i32),
            Packet578Model::PlayServerDifficulty(_) => (State::Play, PacketDirection::ClientBound, 14i32),
            Packet578Model::PlayServerChatMessage(_) => (State::Play, PacketDirection::ClientBound, 15i32),
            Packet578Model::PlayMultiBlockChange(_) => (State::Play, PacketDirection::ClientBound, 16i32),
            Packet578Model::PlayTabComplete(_) => (State::Play, PacketDirection::ClientBound, 17i32),
            Packet578Model::PlayDeclareCommands(_) => (State::Play, PacketDirection::ClientBound, 18i32),
            Packet578Model::PlayServerWindowConfirmation(_) => (State::Play, PacketDirection::ClientBound, 19i32),
            Packet578Model::PlayServerCloseWindow(_) => (State::Play, PacketDirection::ClientBound, 20i32),
            Packet578Model::PlayWindowItems(_) => (State::Play, PacketDirection::ClientBound, 21i32),
            Packet578Model::PlayWindowProperty(_) => (State::Play, PacketDirection::ClientBound, 22i32),
            Packet578Model::PlaySetSlot(_) => (State::Play, PacketDirection::ClientBound, 23i32),
            Packet578Model::PlaySetCooldown(_) => (State::Play, PacketDirection::ClientBound, 24i32),
            Packet578Model::PlayServerPluginMessage(_) => (State::Play, PacketDirection::ClientBound, 25i32),
            Packet578Model::PlayNamedSoundEffect(_) => (State::Play, PacketDirection::ClientBound, 26i32),
            Packet578Model::PlayDisconnect(_) => (State::Play, PacketDirection::ClientBound, 27i32),
            Packet578Model::PlayEntityStatus(_) => (State::Play, PacketDirection::ClientBound, 28i32),
            Packet578Model::PlayExplosion(_) => (State::Play, PacketDirection::ClientBound, 29i32),
            Packet578Model::PlayUnloadChunk(_) => (State::Play, PacketDirection::ClientBound, 30i32),
            Packet578Model::PlayChangeGameState(_) => (State::Play, PacketDirection::ClientBound, 31i32),
            Packet578Model::PlayOpenHorseWindow(_) => (State::Play, PacketDirection::ClientBound, 32i32),
            Packet578Model::PlayServerKeepAlive(_) => (State::Play, PacketDirection::ClientBound, 33i32),
            Packet578Model::PlayChunkData(_) => (State::Play, PacketDirection::ClientBound, 34i32),
            Packet578Model::PlayEffect(_) => (State::Play, PacketDirection::ClientBound, 35i32),
            Packet578Model::PlayParticle(_) => (State::Play, PacketDirection::ClientBound, 36i32),
            Packet578Model::PlayUpdateLight(_) => (State::Play, PacketDirection::ClientBound, 37i32),
            Packet578Model::PlayJoinGame(_) => (State::Play, PacketDirection::ClientBound, 38i32),
            Packet578Model::PlayMapData(_) => (State::Play, PacketDirection::ClientBound, 39i32),
            Packet578Model::PlayTradeList(_) => (State::Play, PacketDirection::ClientBound, 40i32),
            Packet578Model::PlayEntityPosition(_) => (State::Play, PacketDirection::ClientBound, 41i32),
            Packet578Model::PlayEntityPositionAndRotation(_) => (State::Play, PacketDirection::ClientBound, 42i32),
            Packet578Model::PlayEntityRotation(_) => (State::Play, PacketDirection::ClientBound, 43i32),
            Packet578Model::PlayEntityMovement(_) => (State::Play, PacketDirection::ClientBound, 44i32),
            Packet578Model::PlayServerVehicleMove(_) => (State::Play, PacketDirection::ClientBound, 45i32),
            Packet578Model::PlayOpenBook(_) => (State::Play, PacketDirection::ClientBound, 46i32),
            Packet578Model::PlayOpenWindow(_) => (State::Play, PacketDirection::ClientBound, 47i32),
            Packet578Model::PlayOpenSignEditor(_) => (State::Play, PacketDirection::ClientBound, 48i32),
            Packet578Model::PlayCraftRecipeResponse(_) => (State::Play, PacketDirection::ClientBound, 49i32),
            Packet578Model::PlayServerPlayerAbilities(_) => (State::Play, PacketDirection::ClientBound, 50i32),
            Packet578Model::PlayCombatEvent(_) => (State::Play, PacketDirection::ClientBound, 51i32),
            Packet578Model::PlayPlayerInfo(_) => (State::Play, PacketDirection::ClientBound, 52i32),
            Packet578Model::PlayFacePlayer(_) => (State::Play, PacketDirection::ClientBound, 53i32),
            Packet578Model::PlayServerPlayerPositionAndLook(_) => (State::Play, PacketDirection::ClientBound, 54i32),
            Packet578Model::PlayUnlockRecipes(_) => (State::Play, PacketDirection::ClientBound, 55i32),
            Packet578Model::PlayDestroyEntities(_) => (State::Play, PacketDirection::ClientBound, 56i32),
            Packet578Model::PlayRemoveEntityEffect(_) => (State::Play, PacketDirection::ClientBound, 57i32),
            Packet578Model::PlayResourcePackSend(_) => (State::Play, PacketDirection::ClientBound, 58i32),
            Packet578Model::PlayRespawn(_) => (State::Play, PacketDirection::ClientBound, 59i32),
            Packet578Model::PlayEntityHeadLook(_) => (State::Play, PacketDirection::ClientBound, 60i32),
            Packet578Model::PlaySelectAdvancementTab(_) => (State::Play, PacketDirection::ClientBound, 61i32),
            Packet578Model::PlayWorldBorder(_) => (State::Play, PacketDirection::ClientBound, 62i32),
            Packet578Model::PlayCamera(_) => (State::Play, PacketDirection::ClientBound, 63i32),
            Packet578Model::PlayServerHeldItemChange(_) => (State::Play, PacketDirection::ClientBound, 64i32),
            Packet578Model::PlayUpdateViewPosition(_) => (State::Play, PacketDirection::ClientBound, 65i32),
            Packet578Model::PlayUpdateViewDistance(_) => (State::Play, PacketDirection::ClientBound, 66i32),
            Packet578Model::PlayDisplayScoreboard(_) => (State::Play, PacketDirection::ClientBound, 67i32),
            Packet578Model::PlayEntityMetadata(_) => (State::Play, PacketDirection::ClientBound, 68i32),
            Packet578Model::PlayAttachEntity(_) => (State::Play, PacketDirection::ClientBound, 69i32),
            Packet578Model::PlayEntityVelocity(_) => (State::Play, PacketDirection::ClientBound, 70i32),
            Packet578Model::PlayEntityEquipment(_) => (State::Play, PacketDirection::ClientBound, 71i32),
            Packet578Model::PlaySetExperience(_) => (State::Play, PacketDirection::ClientBound, 72i32),
            Packet578Model::PlayUpdatehealth(_) => (State::Play, PacketDirection::ClientBound, 73i32),
            Packet578Model::PlayScoreboardObjective(_) => (State::Play, PacketDirection::ClientBound, 74i32),
            Packet578Model::PlaySetPassengers(_) => (State::Play, PacketDirection::ClientBound, 75i32),
            Packet578Model::PlayTeams(_) => (State::Play, PacketDirection::ClientBound, 76i32),
            Packet578Model::PlayUpdateScore(_) => (State::Play, PacketDirection::ClientBound, 77i32),
            Packet578Model::PlaySpawnPosition(_) => (State::Play, PacketDirection::ClientBound, 78i32),
            Packet578Model::PlayTimeUpdate(_) => (State::Play, PacketDirection::ClientBound, 79i32),
            Packet578Model::PlayTitle(_) => (State::Play, PacketDirection::ClientBound, 80i32),
            Packet578Model::PlayEntitySoundEffect(_) => (State::Play, PacketDirection::ClientBound, 81i32),
            Packet578Model::PlaySoundEffect(_) => (State::Play, PacketDirection::ClientBound, 82i32),
            Packet578Model::PlayStopSound(_) => (State::Play, PacketDirection::ClientBound, 83i32),
            Packet578Model::PlayerPlayerListHeaderAndFooter(_) => (State::Play, PacketDirection::ClientBound, 84i32),
            Packet578Model::PlayNbtQueryResponse(_) => (State::Play, PacketDirection::ClientBound, 85i32),
            Packet578Model::PlayCollectItem(_) => (State::Play, PacketDirection::ClientBound, 86i32),
            Packet578Model::PlayEntityTeleport(_) => (State::Play, PacketDirection::ClientBound, 87i32),
            Packet578Model::PlayAdvancements(_) => (State::Play, PacketDirection::ClientBound, 88i32),
            Packet578Model::PlayEntityProperties(_) => (State::Play, PacketDirection::ClientBound, 89i32),
            Packet578Model::PlayEntityEffect(_) => (State::Play, PacketDirection::ClientBound, 90i32),
            Packet578Model::PlayDeclareRecipes(_) => (State::Play, PacketDirection::ClientBound, 91i32),
            Packet578Model::PlayTags(_) => (State::Play, PacketDirection::ClientBound, 92i32),
            Packet578Model::PlayTeleportConfirm(_) => (State::Play, PacketDirection::ServerBound, 0i32),
            Packet578Model::PlayQueryBlockNbt(_) => (State::Play, PacketDirection::ServerBound, 1i32),
            Packet578Model::PlayQueryEntityNbt(_) => (State::Play, PacketDirection::ServerBound, 13i32),
            Packet578Model::PlaySetDifficulty(_) => (State::Play, PacketDirection::ServerBound, 2i32),
            Packet578Model::PlayClientChatMessage(_) => (State::Play, PacketDirection::ServerBound, 3i32),
            Packet578Model::PlayClientStatus(_) => (State::Play, PacketDirection::ServerBound, 4i32),
            Packet578Model::PlayClientSettings(_) => (State::Play, PacketDirection::ServerBound, 5i32),
            Packet578Model::PlayClientTabComplete(_) => (State::Play, PacketDirection::ServerBound, 6i32),
            Packet578Model::PlayClientWindowConfirmation(_) => (State::Play, PacketDirection::ServerBound, 7i32),
            Packet578Model::PlayClickWindowButton(_) => (State::Play, PacketDirection::ServerBound, 8i32),
            Packet578Model::PlayClickWindow(_) => (State::Play, PacketDirection::ServerBound, 9i32),
            Packet578Model::PlayClientCloseWindow(_) => (State::Play, PacketDirection::ServerBound, 10i32),
            Packet578Model::PlayClientPluginMessage(_) => (State::Play, PacketDirection::ServerBound, 11i32),
            Packet578Model::PlayEditBook(_) => (State::Play, PacketDirection::ServerBound, 12i32),
            Packet578Model::PlayInteractEntity(_) => (State::Play, PacketDirection::ServerBound, 14i32),
            Packet578Model::PlayClientKeepAlive(_) => (State::Play, PacketDirection::ServerBound, 15i32),
            Packet578Model::PlayLockDifficulty(_) => (State::Play, PacketDirection::ServerBound, 16i32),
            Packet578Model::PlayPlayerPosition(_) => (State::Play, PacketDirection::ServerBound, 17i32),
            Packet578Model::PlayClientPlayerPositionAndRotation(_) => (State::Play, PacketDirection::ServerBound, 18i32),
            Packet578Model::PlayPlayerRotation(_) => (State::Play, PacketDirection::ServerBound, 19i32),
            Packet578Model::PlayPlayerMovement(_) => (State::Play, PacketDirection::ServerBound, 20i32),
            Packet578Model::PlayClientVehicleMove(_) => (State::Play, PacketDirection::ServerBound, 21i32),
            Packet578Model::PlaySteerBoat(_) => (State::Play, PacketDirection::ServerBound, 22i32),
            Packet578Model::PlayPickItem(_) => (State::Play, PacketDirection::ServerBound, 23i32),
            Packet578Model::PlayCraftRecipeRequest(_) => (State::Play, PacketDirection::ServerBound, 24i32),
            Packet578Model::PlayClientPlayerAbilities(_) => (State::Play, PacketDirection::ServerBound, 25i32),
            Packet578Model::PlayPlayerDigging(_) => (State::Play, PacketDirection::ServerBound, 26i32),
            Packet578Model::PlayEntityAction(_) => (State::Play, PacketDirection::ServerBound, 27i32),
            Packet578Model::PlaySteerVehicle(_) => (State::Play, PacketDirection::ServerBound, 28i32),
            Packet578Model::PlayRecipeBookData(_) => (State::Play, PacketDirection::ServerBound, 29i32),
            Packet578Model::PlayNameItem(_) => (State::Play, PacketDirection::ServerBound, 30i32),
            Packet578Model::PlayResourcePackStatus(_) => (State::Play, PacketDirection::ServerBound, 31i32),
            Packet578Model::PlayAdvancementTab(_) => (State::Play, PacketDirection::ServerBound, 32i32),
            Packet578Model::PlaySelectTrade(_) => (State::Play, PacketDirection::ServerBound, 33i32),
            Packet578Model::PlaySetBeaconEffect(_) => (State::Play, PacketDirection::ServerBound, 34i32),
            Packet578Model::PlayClientHeldItemChange(_) => (State::Play, PacketDirection::ServerBound, 35i32),
            Packet578Model::PlayUpdateCommandBlock(_) => (State::Play, PacketDirection::ServerBound, 36i32),
            Packet578Model::PlayUpdateCommandBlockMinecart(_) => (State::Play, PacketDirection::ServerBound, 37i32),
            Packet578Model::PlayCreativeInventoryAction(_) => (State::Play, PacketDirection::ServerBound, 38i32),
            Packet578Model::PlayUpdateJigsawBlock(_) => (State::Play, PacketDirection::ServerBound, 39i32),
            Packet578Model::PlayUpdateStructureBlock(_) => (State::Play, PacketDirection::ServerBound, 40i32),
            Packet578Model::PlayUpdateSign(_) => (State::Play, PacketDirection::ServerBound, 41i32),
            Packet578Model::PlayClientAnimation(_) => (State::Play, PacketDirection::ServerBound, 42i32),
            Packet578Model::PlaySpectate(_) => (State::Play, PacketDirection::ServerBound, 43i32),
            Packet578Model::PlayBlockPlacement(_) => (State::Play, PacketDirection::ServerBound, 44i32),
            Packet578Model::PlayUseItem(_) => (State::Play, PacketDirection::ServerBound, 45i32),
        }
    }

    pub open spec fn legal(m: Packet578Model) -> bool {
        match m {
            Packet578Model::Handshake(b) => HandshakeSpec::legal(b),
            Packet578Model::StatusRequest(b) => StatusRequestSpec::legal(b),
            Packet578Model::StatusPing(b) => StatusPingSpec::legal(b),
            Packet578Model::StatusResponse(b) => StatusResponseSpec::legal(b),
            Packet578Model::StatusPong(b) => StatusPongSpec::legal(b),
            Packet578Model::LoginDisconnect(b) => LoginDisconnectSpec::legal(b),
            Packet578Model::LoginEncryptionRequest(b) => LoginEncryptionRequestSpec::legal(b),
            Packet578Model::LoginSuccess(b) => LoginSuccessSpec::legal(b),
            Packet578Model::LoginSetCompression(b) => LoginSetCompressionSpec::legal(b),
            Packet578Model::LoginPluginRequest(b) => LoginPluginRequestSpec::legal(b),
            Packet578Model::LoginStart(b) => LoginStartSpec::legal(b),
            Packet578Model::LoginEncryptionResponse(b) => LoginEncryptionResponseSpec::legal(b),
            Packet578Model::LoginPluginResponse(b) => LoginPluginResponseSpec::legal(b),
            Packet578Model::PlaySpawnEntity(b) => PlaySpawnEntitySpec::legal(b),
            Packet578Model::PlaySpawnExperienceOrb(b) => PlaySpawnExperienceOrbSpec::legal(b),
            Packet578Model::PlaySpawnWeatherEntity(b) => PlaySpawnWeatherEntitySpec::legal(b),
            Packet578Model::PlaySpawnLivingEntity(b) => PlaySpawnLivingEntitySpec::legal(b),
            Packet578Model::PlaySpawnPainting(b) => PlaySpawnPaintingSpec::legal(b),
            Packet578Model::PlaySpawnPlayer(b) => PlaySpawnPlayerSpec::legal(b),
            Packet578Model::PlayEntityAnimation(b) => PlayEntityAnimationSpec::legal(b),
            Packet578Model::PlayStatistics(b) => PlayStatisticsSpec::legal(b),
            Packet578Model::PlayAcknowledgePlayerDigging(b) => PlayAcknowledgePlayerDiggingSpec::legal(b),
            Packet578Model::PlayBlockBreakAnimation(b) => PlayBlockBreakAnimationSpec::legal(b),
            Packet578Model::PlayBlockEntityData(b) => PlayBlockEntityDataSpec::legal(b),
            Packet578Model::PlayBlockAction(b) => PlayBlockActionSpec::legal(b),
            Packet578Model::PlayBlockChange(b) => PlayBlockChangeSpec::legal(b),
            Packet578Model::PlayBossBar(b) => PlayBossBarSpec::legal(b),
            Packet578Model::PlayServerDifficulty(b) => PlayServerDifficultySpec::legal(b),
            Packet578Model::PlayServerChatMessage(b) => PlayServerChatMessageSpec::legal(b),
            Packet578Model::PlayMultiBlockChange(b) => PlayMultiBlockChangeSpec::legal(b),
            Packet578Model::PlayTabComplete(b) => PlayTabCompleteSpec::legal(b),
            Packet578Model::PlayDeclareCommands(b) => PlayDeclareCommandsSpec::legal(b),
            Packet578Model::PlayServerWindowConfirmation(b) => PlayServerWindowConfirmationSpec::legal(b),
            Packet578Model::PlayServerCloseWindow(b) => PlayServerCloseWindowSpec::legal(b),
            Packet578Model::PlayWindowItems(b) => PlayWindowItemsSpec::legal(b),
            Packet578Model::PlayWindowProperty(b) => PlayWindowPropertySpec::legal(b),
            Packet578Model::PlaySetSlot(b) => PlaySetSlotSpec::legal(b),
            Packet578Model::PlaySetCooldown(b) => PlaySetCooldownSpec::legal(b),
            Packet578Model::PlayServerPluginMessage(b) => PlayServerPluginMessageSpec::legal(b),
            Packet578Model::PlayNamedSoundEffect(b) => PlayNamedSoundEffectSpec::legal(b),
            Packet578Model::PlayDisconnect(b) => PlayDisconnectSpec::legal(b),
            Packet578Model::PlayEntityStatus(b) => PlayEntityStatusSpec::legal(b),
            Packet578Model::PlayExplosion(b) => PlayExplosionSpec::legal(b),
            Packet578Model::PlayUnloadChunk(b) => PlayUnloadChunkSpec::legal(b),
            Packet578Model::PlayChangeGameState(b) => PlayChangeGameStateSpec::legal(b),
            Packet578Model::PlayOpenHorseWindow(b) => PlayOpenHorseWindowSpec::legal(b),
            Packet578Model::PlayServerKeepAlive(b) => PlayServerKeepAliveSpec::legal(b),
            Packet578Model::PlayChunkData(b) => PlayChunkDataWrapper::legal(b),
            Packet578Model::PlayEffect(b) => PlayEffectSpec::legal(b),
            Packet578Model::PlayParticle(b) => PlayParticleSpec::legal(b),
            Packet578Model::PlayUpdateLight(b) => PlayUpdateLightSpec::legal(b),
            Packet578Model::PlayJoinGame(b) => PlayJoinGameSpec::legal(b),
            Packet578Model::PlayMapData(b) => PlayMapDataSpec::legal(b),
            Packet578Model::PlayTradeList(b) => PlayTradeListSpec::legal(b),
            Packet578Model::PlayEntityPosition(b) => PlayEntityPositionSpec::legal(b),
            Packet578Model::PlayEntityPositionAndRotation(b) => PlayEntityPositionAndRotationSpec::legal(b),
            Packet578Model::PlayEntityRotation(b) => PlayEntityRotationSpec::legal(b),
            Packet578Model::PlayEntityMovement(b) => PlayEntityMovementSpec::legal(b),
            Packet578Model::PlayServerVehicleMove(b) => PlayEntityVehicleMoveSpec::legal(b),
            Packet578Model::PlayOpenBook(b) => PlayOpenBookSpec::legal(b),
            Packet578Model::PlayOpenWindow(b) => PlayOpenWindowSpec::legal(b),
            Packet578Model::PlayOpenSignEditor(b) => PlayOpenSignEditorSpec::legal(b),
            Packet578Model::PlayCraftRecipeResponse(b) => PlayCraftRecipeResponseSpec::legal(b),
            Packet578Model::PlayServerPlayerAbilities(b) => PlayServerPlayerAbilitiesSpec::legal(b),
            Packet578Model::PlayCombatEvent(b) => PlayCombatEventSpec::legal(b),
            Packet578Model::PlayPlayerInfo(b) => PlayPlayerInfoSpec::legal(b),
            Packet578Model::PlayFacePlayer(b) => PlayFacePlayerSpec::legal(b),
            Packet578Model::PlayServerPlayerPositionAndLook(b) => PlayServerPlayerPositionAndLookSpec::legal(b),
            Packet578Model::PlayUnlockRecipes(b) => PlayUnlockRecipesSpec::legal(b),
            Packet578Model::PlayDestroyEntities(b) => PlayDestroyEntitiesSpec::legal(b),
            Packet578Model::PlayRemoveEntityEffect(b) => PlayRemoveEntityEffectSpec::legal(b),
            Packet578Model::PlayResourcePackSend(b) => PlayResourcePackSendSpec::legal(b),
            Packet578Model::PlayRespawn(b) => PlayRespawnSpec::legal(b),
            Packet578Model::PlayEntityHeadLook(b) => PlayEntityHeadLookSpec::legal(b),
            Packet578Model::PlaySelectAdvancementTab(b) => PlaySelectAdvancementTabSpec::legal(b),
            Packet578Model::PlayWorldBorder(b) => PlayWorldBorderSpec::legal(b),
            Packet578Model::PlayCamera(b) => PlayCameraSpec::legal(b),
            Packet578Model::PlayServerHeldItemChange(b) => PlayServerHeldItemChangeSpec::legal(b),
            Packet578Model::PlayUpdateViewPosition(b) => PlayUpdateViewPositionSpec::legal(b),
            Packet578Model::PlayUpdateViewDistance(b) => PlayUpdateViewDistanceSpec::legal(b),
            Packet578Model::PlayDisplayScoreboard(b) => PlayDisplayScoreboardSpec::legal(b),
            Packet578Model::PlayEntityMetadata(b) => PlayEntityMetadataSpec::legal(b),
            Packet578Model::PlayAttachEntity(b) => PlayAttachEntitySpec::legal(b),
            Packet578Model::PlayEntityVelocity(b) => PlayEntityVelocitySpec::legal(b),
            Packet578Model::PlayEntityEquipment(b) => PlayEntityEquiptmentSpec::legal(b),
            Packet578Model::PlaySetExperience(b) => PlaySetExperienceSpec::legal(b),
            Packet578Model::PlayUpdatehealth(b) => PlayUpdateHealthSpec::legal(b),
            Packet578Model::PlayScoreboardObjective(b) => PlayScoreboardObjectiveSpec::legal(b),
            Packet578Model::PlaySetPassengers(b) => PlaySetPassengersSpec::legal(b),
            Packet578Model::PlayTeams(b) => PlayTeamsSpec::legal(b),
            Packet578Model::PlayUpdateScore(b) => PlayUpdateScoreSpec::legal(b),
            Packet578Model::PlaySpawnPosition(b) => PlaySpawnPositionSpec::legal(b),
            Packet578Model::PlayTimeUpdate(b) => PlayTimeUpdateSpec::legal(b),
            Packet578Model::PlayTitle(b) => PlayTitleSpec::legal(b),
            Packet578Model::PlayEntitySoundEffect(b) => PlayEntitySoundEffectSpec::legal(b),
            Packet578Model::PlaySoundEffect(b) => PlaySoundEffectSpec::legal(b),
            Packet578Model::PlayStopSound(b) => PlayStopSoundSpec::legal(b),
            Packet578Model::PlayerPlayerListHeaderAndFooter(b) => PlayPlayerListHeaderAndFooterSpec::legal(b),
            Packet578Model::PlayNbtQueryResponse(b) => PlayNbtQueryResponseSpec::legal(b),
            Packet578Model::PlayCollectItem(b) => PlayCollectItemSpec::legal(b),
            Packet578Model::PlayEntityTeleport(b) => PlayEntityTeleportSpec::legal(b),
            Packet578Model::PlayAdvancements(b) => PlayAdvancementsSpec::legal(b),
            Packet578Model::PlayEntityProperties(b) => PlayEntityPropertiesSpec::legal(b),
            Packet578Model::PlayEntityEffect(b) => PlayEntityEffectSpec::legal(b),
            Packet578Model::PlayDeclareRecipes(b) => PlayDeclareRecipesSpec::legal(b),
            Packet578Model::PlayTags(b) => PlayTagsSpec::legal(b),
            Packet578Model::PlayTeleportConfirm(b) => PlayTeleportConfirmSpec::legal(b),
            Packet578Model::PlayQueryBlockNbt(b) => PlayQueryBlockNbtSpec::legal(b),
            Packet578Model::PlayQueryEntityNbt(b) => PlayQueryEntityNbtSpec::legal(b),
            Packet578Model::PlaySetDifficulty(b) => PlaySetDifficultySpec::legal(b),
            Packet578Model::PlayClientChatMessage(b) => PlayClientChatMessageSpec::legal(b),
            Packet578Model::PlayClientStatus(b) => PlayClientStatusSpec::legal(b),
            Packet578Model::PlayClientSettings(b) => PlayClientSettingsSpec::legal(b),
            Packet578Model::PlayClientTabComplete(b) => PlayClientTabCompleteSpec::legal(b),
            Packet578Model::PlayClientWindowConfirmation(b) => PlayClientWindowConfirmationSpec::legal(b),
            Packet578Model::PlayClickWindowButton(b) => PlayClickWindowButtonSpec::legal(b),
            Packet578Model::PlayClickWindow(b) => PlayClickWindowSpec::legal(b),
            Packet578Model::PlayClientCloseWindow(b) => PlayClientCloseWindowSpec::legal(b),
            Packet578Model::PlayClientPluginMessage(b) => PlayClientPluginMessageSpec::legal(b),
            Packet578Model::PlayEditBook(b) => PlayEditBookSpec::legal(b),
            Packet578Model::PlayInteractEntity(b) => PlayInteractEntitySpec::legal(b),
            Packet578Model::PlayClientKeepAlive(b) => PlayClientKeepAliveSpec::legal(b),
            Packet578Model::PlayLockDifficulty(b) => PlayLockDifficultySpec::legal(b),
            Packet578Model::PlayPlayerPosition(b) => PlayPlayerPositionSpec::legal(b),
            Packet578Model::PlayClientPlayerPositionAndRotation(b) => PlayClientPlayerPositionAndRotationSpec::legal(b),
            Packet578Model::PlayPlayerRotation(b) => PlayPlayerRotationSpec::legal(b),
            Packet578Model::PlayPlayerMovement(b) => PlayPlayerMovementSpec::legal(b),
            Packet578Model::PlayClientVehicleMove(b) => PlayClientVehicleMoveSpec::legal(b),
            Packet578Model::PlaySteerBoat(b) => PlaySteerBoatSpec::legal(b),
            Packet578Model::PlayPickItem(b) => PlayPickItemSpec::legal(b),
            Packet578Model::PlayCraftRecipeRequest(b) => PlayCraftRecipeRequestSpec::legal(b),
            Packet578Model::PlayClientPlayerAbilities(b) => PlayClientPlayerAbilitiesSpec::legal(b),
            Packet578Model::PlayPlayerDigging(b) => PlayPlayerDiggingSpec::legal(b),
            Packet578Model::PlayEntityAction(b) => PlayEntityActionSpec::legal(b),
            Packet578Model::PlaySteerVehicle(b) => PlaySteerVehicleSpec::legal(b),
            Packet578Model::PlayRecipeBookData(b) => PlayRecipeBookDataSpec::legal(b),
            Packet578Model::PlayNameItem(b) => PlayNameItemSpec::legal(b),
            Packet578Model::PlayResourcePackStatus(b) => PlayResourcePackStatusSpec::legal(b),
            Packet578Model::PlayAdvancementTab(b) => PlayAdvancementTabSpec::legal(b),
            Packet578Model::PlaySelectTrade(b) => PlaySelectTradeSpec::legal(b),
            Packet578Model::PlaySetBeaconEffect(b) => PlaySetBeaconEffectSpec::legal(b),
            Packet578Model::PlayClientHeldItemChange(b) => PlayClientHeldItemChangeSpec::legal(b),
            Packet578Model::PlayUpdateCommandBlock(b) => PlayUpdateCommandBlockSpec::legal(b),
            Packet578Model::PlayUpdateCommandBlockMinecart(b) => PlayUpdateCommandBlockMinecartSpec::legal(b),
            Packet578Model::PlayCreativeInventoryAction(b) => PlayCreativeInventoryActionSpec::legal(b),
            Packet578Model::PlayUpdateJigsawBlock(b) => PlayUpdateJigsawBlockSpec::legal(b),
            Packet578Model::PlayUpdateStructureBlock(b) => PlayUpdateStructureBlockSpec::legal(b),
            Packet578Model::PlayUpdateSign(b) => PlayUpdateSignSpec::legal(b),
            Packet578Model::PlayClientAnimation(b) => PlayClientAnimationSpec::legal(b),
            Packet578Model::PlaySpectate(b) => PlaySpectateSpec::legal(b),
            Packet578Model::PlayBlockPlacement(b) => PlayBlockPlacementSpec::legal(b),
            Packet578Model::PlayUseItem(b) => PlayUseItemSpec::legal(b),
        }
    }

    pub open spec fn encodable(m: Packet578Model) -> bool {
        match m {
            Packet578Model::Handshake(b) => HandshakeSpec::encodable(b),
            Packet578Model::StatusRequest(b) => StatusRequestSpec::encodable(b),
            Packet578Model::StatusPing(b) => StatusPingSpec::encodable(b),
            Packet578Model::StatusResponse(b) => StatusResponseSpec::encodable(b),
            Packet578Model::StatusPong(b) => StatusPongSpec::encodable(b),
            Packet578Model::LoginDisconnect(b) => LoginDisconnectSpec::encodable(b),
            Packet578Model::LoginEncryptionRequest(b) => LoginEncryptionRequestSpec::encodable(b),
            Packet578Model::LoginSuccess(b) => LoginSuccessSpec::encodable(b),
            Packet578Model::LoginSetCompression(b) => LoginSetCompressionSpec::encodable(b),
            Packet578Model::LoginPluginRequest(b) => LoginPluginRequestSpec::encodable(b),
            Packet578Model::LoginStart(b) => LoginStartSpec::encodable(b),
            Packet578Model::LoginEncryptionResponse(b) => LoginEncryptionResponseSpec::encodable(b),
            Packet578Model::LoginPluginResponse(b) => LoginPluginResponseSpec::encodable(b),
            Packet578Model::PlaySpawnEntity(b) => PlaySpawnEntitySpec::encodable(b),
            Packet578Model::PlaySpawnExperienceOrb(b) => PlaySpawnExperienceOrbSpec::encodable(b),
            Packet578Model::PlaySpawnWeatherEntity(b) => PlaySpawnWeatherEntitySpec::encodable(b),
            Packet578Model::PlaySpawnLivingEntity(b) => PlaySpawnLivingEntitySpec::encodable(b),
            Packet578Model::PlaySpawnPainting(b) => PlaySpawnPaintingSpec::encodable(b),
            Packet578Model::PlaySpawnPlayer(b) => PlaySpawnPlayerSpec::encodable(b),
            Packet578Model::PlayEntityAnimation(b) => PlayEntityAnimationSpec::encodable(b),
            Packet578Model::PlayStatistics(b) => PlayStatisticsSpec::encodable(b),
            Packet578Model::PlayAcknowledgePlayerDigging(b) => PlayAcknowledgePlayerDiggingSpec::encodable(b),
            Packet578Model::PlayBlockBreakAnimation(b) => PlayBlockBreakAnimationSpec::encodable(b),
            Packet578Model::PlayBlockEntityData(b) => PlayBlockEntityDataSpec::encodable(b),
            Packet578Model::PlayBlockAction(b) => PlayBlockActionSpec::encodable(b),
            Packet578Model::PlayBlockChange(b) => PlayBlockChangeSpec::encodable(b),
            Packet578Model::PlayBossBar(b) => PlayBossBarSpec::encodable(b),
            Packet578Model::PlayServerDifficulty(b) => PlayServerDifficultySpec::encodable(b),
            Packet578Model::PlayServerChatMessage(b) => PlayServerChatMessageSpec::encodable(b),
            Packet578Model::PlayMultiBlockChange(b) => PlayMultiBlockChangeSpec::encodable(b),
            Packet578Model::PlayTabComplete(b) => PlayTabCompleteSpec::encodable(b),
            Packet578Model::PlayDeclareCommands(b) => PlayDeclareCommandsSpec::encodable(b),
            Packet578Model::PlayServerWindowConfirmation(b) => PlayServerWindowConfirmationSpec::encodable(b),
            Packet578Model::PlayServerCloseWindow(b) => PlayServerCloseWindowSpec::encodable(b),
            Packet578Model::PlayWindowItems(b) => PlayWindowItemsSpec::encodable(b),
            Packet578Model::PlayWindowProperty(b) => PlayWindowPropertySpec::encodable(b),
            Packet578Model::PlaySetSlot(b) => PlaySetSlotSpec::encodable(b),
            Packet578Model::PlaySetCooldown(b) => PlaySetCooldownSpec::encodable(b),
            Packet578Model::PlayServerPluginMessage(b) => PlayServerPluginMessageSpec::encodable(b),
            Packet578Model::PlayNamedSoundEffect(b) => PlayNamedSoundEffectSpec::encodable(b),
            Packet578Model::PlayDisconnect(b) => PlayDisconnectSpec::encodable(b),
            Packet578Model::PlayEntityStatus(b) => PlayEntityStatusSpec::encodable(b),
            Packet578Model::PlayExplosion(b) => PlayExplosionSpec::encodable(b),
            Packet578Model::PlayUnloadChunk(b) => PlayUnloadChunkSpec::encodable(b),
            Packet578Model::PlayChangeGameState(b) => PlayChangeGameStateSpec::encodable(b),
            Packet578Model::PlayOpenHorseWindow(b) => PlayOpenHorseWindowSpec::encodable(b),
            Packet578Model::PlayServerKeepAlive(b) => PlayServerKeepAliveSpec::encodable(b),
            Packet578Model::PlayChunkData(b) => PlayChunkDataWrapper::encodable(b),
            Packet578Model::PlayEffect(b) => PlayEffectSpec::encodable(b),
            Packet578Model::PlayParticle(b) => PlayParticleSpec::encodable(b),
            Packet578Model::PlayUpdateLight(b) => PlayUpdateLightSpec::encodable(b),
            Packet578Model::PlayJoinGame(b) => PlayJoinGameSpec::encodable(b),
            Packet578Model::PlayMapData(b) => PlayMapDataSpec::encodable(b),
            Packet578Model::PlayTradeList(b) => PlayTradeListSpec::encodable(b),
            Packet578Model::PlayEntityPosition(b) => PlayEntityPositionSpec::encodable(b),
            Packet578Model::PlayEntityPositionAndRotation(b) => PlayEntityPositionAndRotationSpec::encodable(b),
            Packet578Model::PlayEntityRotation(b) => PlayEntityRotationSpec::encodable(b),
            Packet578Model::PlayEntityMovement(b) => PlayEntityMovementSpec::encodable(b),
            Packet578Model::PlayServerVehicleMove(b) => PlayEntityVehicleMoveSpec::encodable(b),
            Packet578Model::PlayOpenBook(b) => PlayOpenBookSpec::encodable(b),
            Packet578Model::PlayOpenWindow(b) => PlayOpenWindowSpec::encodable(b),
            Packet578Model::PlayOpenSignEditor(b) => PlayOpenSignEditorSpec::encodable(b),
            Packet578Model::PlayCraftRecipeResponse(b) => PlayCraftRecipeResponseSpec::encodable(b),
            Packet578Model::PlayServerPlayerAbilities(b) => PlayServerPlayerAbilitiesSpec::encodable(b),
            Packet578Model::PlayCombatEvent(b) => PlayCombatEventSpec::encodable(b),
            Packet578Model::PlayPlayerInfo(b) => PlayPlayerInfoSpec::encodable(b),
            Packet578Model::PlayFacePlayer(b) => PlayFacePlayerSpec::encodable(b),
            Packet578Model::PlayServerPlayerPositionAndLook(b) => PlayServerPlayerPositionAndLookSpec::encodable(b),
            Packet578Model::PlayUnlockRecipes(b) => PlayUnlockRecipesSpec::encodable(b),
            Packet578Model::PlayDestroyEntities(b) => PlayDestroyEntitiesSpec::encodable(b),
            Packet578Model::PlayRemoveEntityEffect(b) => PlayRemoveEntityEffectSpec::encodable(b),
            Packet578Model::PlayResourcePackSend(b) => PlayResourcePackSendSpec::encodable(b),
            Packet578Model::PlayRespawn(b) => PlayRespawnSpec::encodable(b),
            Packet578Model::PlayEntityHeadLook(b) => PlayEntityHeadLookSpec::encodable(b),
            Packet578Model::PlaySelectAdvancementTab(b) => PlaySelectAdvancementTabSpec::encodable(b),
            Packet578Model::PlayWorldBorder(b) => PlayWorldBorderSpec::encodable(b),
            Packet578Model::PlayCamera(b) => PlayCameraSpec::encodable(b),
            Packet578Model::PlayServerHeldItemChange(b) => PlayServerHeldItemChangeSpec::encodable(b),
            Packet578Model::PlayUpdateViewPosition(b) => PlayUpdateViewPositionSpec::encodable(b),
            Packet578Model::PlayUpdateViewDistance(b) => PlayUpdateViewDistanceSpec::encodable(b),
            Packet578Model::PlayDisplayScoreboard(b) => PlayDisplayScoreboardSpec::encodable(b),
            Packet578Model::PlayEntityMetadata(b) => PlayEntityMetadataSpec::encodable(b),
            Packet578Model::PlayAttachEntity(b) => PlayAttachEntitySpec::encodable(b),
            Packet578Model::PlayEntityVelocity(b) => PlayEntityVelocitySpec::encodable(b),
            Packet578Model::PlayEntityEquipment(b) => PlayEntityEquiptmentSpec::encodable(b),
            Packet578Model::PlaySetExperience(b) => PlaySetExperienceSpec::encodable(b),
            Packet578Model::PlayUpdatehealth(b) => PlayUpdateHealthSpec::encodable(b),
            Packet578Model::PlayScoreboardObjective(b) => PlayScoreboardObjectiveSpec::encodable(b),
            Packet578Model::PlaySetPassengers(b) => PlaySetPassengersSpec::encodable(b),
            Packet578Model::PlayTeams(b) => PlayTeamsSpec::encodable(b),
            Packet578Model::PlayUpdateScore(b) => PlayUpdateScoreSpec::encodable(b),
            Packet578Model::PlaySpawnPosition(b) => PlaySpawnPositionSpec::encodable(b),
            Packet578Model::PlayTimeUpdate(b) => PlayTimeUpdateSpec::encodable(b),
            Packet578Model::PlayTitle(b) => PlayTitleSpec::encodable(b),
            Packet578Model::PlayEntitySoundEffect(b) => PlayEntitySoundEffectSpec::encodable(b),
            Packet578Model::PlaySoundEffect(b) => PlaySoundEffectSpec::encodable(b),
            Packet578Model::PlayStopSound(b) => PlayStopSoundSpec::encodable(b),
            Packet578Model::PlayerPlayerListHeaderAndFooter(b) => PlayPlayerListHeaderAndFooterSpec::encodable(b),
            Packet578Model::PlayNbtQueryResponse(b) => PlayNbtQueryResponseSpec::encodable(b),
            Packet578Model::PlayCollectItem(b) => PlayCollectItemSpec::encodable(b),
            Packet578Model::PlayEntityTeleport(b) => PlayEntityTeleportSpec::encodable(b),
            Packet578Model::PlayAdvancements(b) => PlayAdvancementsSpec::encodable(b),
            Packet578Model::PlayEntityProperties(b) => PlayEntityPropertiesSpec::encodable(b),
            Packet578Model::PlayEntityEffect(b) => PlayEntityEffectSpec::encodable(b),
            Packet578Model::PlayDeclareRecipes(b) => PlayDeclareRecipesSpec::encodable(b),
            Packet578Model::PlayTags(b) => PlayTagsSpec::encodable(b),
            Packet578Model::PlayTeleportConfirm(b) => PlayTeleportConfirmSpec::encodable(b),
            Packet578Model::PlayQueryBlockNbt(b) => PlayQueryBlockNbtSpec::encodable(b),
            Packet578Model::PlayQueryEntityNbt(b) => PlayQueryEntityNbtSpec::encodable(b),
            Packet578Model::PlaySetDifficulty(b) => PlaySetDifficultySpec::encodable(b),
            Packet578Model::PlayClientChatMessage(b) => PlayClientChatMessageSpec::encodable(b),
            Packet578Model::PlayClientStatus(b) => PlayClientStatusSpec::encodable(b),
            Packet578Model::PlayClientSettings(b) => PlayClientSettingsSpec::encodable(b),
            Packet578Model::PlayClientTabComplete(b) => PlayClientTabCompleteSpec::encodable(b),
            Packet578Model::PlayClientWindowConfirmation(b) => PlayClientWindowConfirmationSpec::encodable(b),
            Packet578Model::PlayClickWindowButton(b) => PlayClickWindowButtonSpec::encodable(b),
            Packet578Model::PlayClickWindow(b) => PlayClickWindowSpec::encodable(b),
            Packet578Model::PlayClientCloseWindow(b) => PlayClientCloseWindowSpec::encodable(b),
            Packet578Model::PlayClientPluginMessage(b) => PlayClientPluginMessageSpec::encodable(b),
            Packet578Model::PlayEditBook(b) => PlayEditBookSpec::encodable(b),
            Packet578Model::PlayInteractEntity(b) => PlayInteractEntitySpec::encodable(b),
            Packet578Model::PlayClientKeepAlive(b) => PlayClientKeepAliveSpec::encodable(b),
            Packet578Model::PlayLockDifficulty(b) => PlayLockDifficultySpec::encodable(b),
            Packet578Model::PlayPlayerPosition(b) => PlayPlayerPositionSpec::encodable(b),
            Packet578Model::PlayClientPlayerPositionAndRotation(b) => PlayClientPlayerPositionAndRotationSpec::encodable(b),
            Packet578Model::PlayPlayerRotation(b) => PlayPlayerRotationSpec::encodable(b),
            Packet578Model::PlayPlayerMovement(b) => PlayPlayerMovementSpec::encodable(b),
            Packet578Model::PlayClientVehicleMove(b) => PlayClientVehicleMoveSpec::encodable(b),
            Packet578Model::PlaySteerBoat(b) => PlaySteerBoatSpec::encodable(b),
            Packet578Model::PlayPickItem(b) => PlayPickItemSpec::encodable(b),
            Packet578Model::PlayCraftRecipeRequest(b) => PlayCraftRecipeRequestSpec::encodable(b),
            Packet578Model::PlayClientPlayerAbilities(b) => PlayClientPlayerAbilitiesSpec::encodable(b),
            Packet578Model::PlayPlayerDigging(b) => PlayPlayerDiggingSpec::encodable(b),
            Packet578Model::PlayEntityAction(b) => PlayEntityActionSpec::encodable(b),
            Packet578Model::PlaySteerVehicle(b) => PlaySteerVehicleSpec::encodable(b),
            Packet578Model::PlayRecipeBookData(b) => PlayRecipeBookDataSpec::encodable(b),
            Packet578Model::PlayNameItem(b) => PlayNameItemSpec::encodable(b),
            Packet578Model::PlayResourcePackStatus(b) => PlayResourcePackStatusSpec::encodable(b),
            Packet578Model::PlayAdvancementTab(b) => PlayAdvancementTabSpec::encodable(b),
            Packet578Model::PlaySelectTrade(b) => PlaySelectTradeSpec::encodable(b),
            Packet578Model::PlaySetBeaconEffect(b) => PlaySetBeaconEffectSpec::encodable(b),
            Packet578Model::PlayClientHeldItemChange(b) => PlayClientHeldItemChangeSpec::encodable(b),
            Packet578Model::PlayUpdateCommandBlock(b) => PlayUpdateCommandBlockSpec::encodable(b),
            Packet578Model::PlayUpdateCommandBlockMinecart(b) => PlayUpdateCommandBlockMinecartSpec::encodable(b),
            Packet578Model::PlayCreativeInventoryAction(b) => PlayCreativeInventoryActionSpec::encodable(b),
            Packet578Model::PlayUpdateJigsawBlock(b) => PlayUpdateJigsawBlockSpec::encodable(b),
            Packet578Model::PlayUpdateStructureBlock(b) => PlayUpdateStructureBlockSpec::encodable(b),
            Packet578Model::PlayUpdateSign(b) => PlayUpdateSignSpec::encodable(b),
            Packet578Model::PlayClientAnimation(b) => PlayClientAnimationSpec::encodable(b),
            Packet578Model::PlaySpectate(b) => PlaySpectateSpec::encodable(b),
            Packet578Model::PlayBlockPlacement(b) => PlayBlockPlacementSpec::encodable(b),
            Packet578Model::PlayUseItem(b) => PlayUseItemSpec::encodable(b),
        }
    }

    /// The body's bytes.
    pub open spec fn spec_body(m: Packet578Model) -> Seq<u8> {
        match m {
            Packet578Model::Handshake(b) => HandshakeSpec::spec_serialize(b),
            Packet578Model::StatusRequest(b) => StatusRequestSpec::spec_serialize(b),
            Packet578Model::StatusPing(b) => StatusPingSpec::spec_serialize(b),
            Packet578Model::StatusResponse(b) => StatusResponseSpec::spec_serialize(b),
            Packet578Model::StatusPong(b) => StatusPongSpec::spec_serialize(b),
            Packet578Model::LoginDisconnect(b) => LoginDisconnectSpec::spec_serialize(b),
            Packet578Model::LoginEncryptionRequest(b) => LoginEncryptionRequestSpec::spec_serialize(b),
            Packet578Model::LoginSuccess(b) => LoginSuccessSpec::spec_serialize(b),
            Packet578Model::LoginSetCompression(b) => LoginSetCompressionSpec::spec_serialize(b),
            Packet578Model::LoginPluginRequest(b) => LoginPluginRequestSpec::spec_serialize(b),
            Packet578Model::LoginStart(b) => LoginStartSpec::spec_serialize(b),
            Packet578Model::LoginEncryptionResponse(b) => LoginEncryptionResponseSpec::spec_serialize(b),
            Packet578Model::LoginPluginResponse(b) => LoginPluginResponseSpec::spec_serialize(b),
            Packet578Model::PlaySpawnEntity(b) => PlaySpawnEntitySpec::spec_serialize(b),
            Packet578Model::PlaySpawnExperienceOrb(b) => PlaySpawnExperienceOrbSpec::spec_serialize(b),
            Packet578Model::PlaySpawnWeatherEntity(b) => PlaySpawnWeatherEntitySpec::spec_serialize(b),
            Packet578Model::PlaySpawnLivingEntity(b) => PlaySpawnLivingEntitySpec::spec_serialize(b),
            Packet578Model::PlaySpawnPainting(b) => PlaySpawnPaintingSpec::spec_serialize(b),
            Packet578Model::PlaySpawnPlayer(b) => PlaySpawnPlayerSpec::spec_serialize(b),
            Packet578Model::PlayEntityAnimation(b) => PlayEntityAnimationSpec::spec_serialize(b),
            Packet578Model::PlayStatistics(b) => PlayStatisticsSpec::spec_serialize(b),
            Packet578Model::PlayAcknowledgePlayerDigging(b) => PlayAcknowledgePlayerDiggingSpec::spec_serialize(b),
            Packet578Model::PlayBlockBreakAnimation(b) => PlayBlockBreakAnimationSpec::spec_serialize(b),
            Packet578Model::PlayBlockEntityData(b) => PlayBlockEntityDataSpec::spec_serialize(b),
            Packet578Model::PlayBlockAction(b) => PlayBlockActionSpec::spec_serialize(b),
            Packet578Model::PlayBlockChange(b) => PlayBlockChangeSpec::spec_serialize(b),
            Packet578Model::PlayBossBar(b) => PlayBossBarSpec::spec_serialize(b),
            Packet578Model::PlayServerDifficulty(b) => PlayServerDifficultySpec::spec_serialize(b),
            Packet578Model::PlayServerChatMessage(b) => PlayServerChatMessageSpec::spec_serialize(b),
            Packet578Model::PlayMultiBlockChange(b) => PlayMultiBlockChangeSpec::spec_serialize(b),
            Packet578Model::PlayTabComplete(b) => PlayTabCompleteSpec::spec_serialize(b),
            Packet578Model::PlayDeclareCommands(b) => PlayDeclareCommandsSpec::spec_serialize(b),
            Packet578Model::PlayServerWindowConfirmation(b) => PlayServerWindowConfirmationSpec::spec_serialize(b),
            Packet578Model::PlayServerCloseWindow(b) => PlayServerCloseWindowSpec::spec_serialize(b),
            Packet578Model::PlayWindowItems(b) => PlayWindowItemsSpec::spec_serialize(b),
            Packet578Model::PlayWindowProperty(b) => PlayWindowPropertySpec::spec_serialize(b),
            Packet578Model::PlaySetSlot(b) => PlaySetSlotSpec::spec_serialize(b),
            Packet578Model::PlaySetCooldown(b) => PlaySetCooldownSpec::spec_serialize(b),
            Packet578Model::PlayServerPluginMessage(b) => PlayServerPluginMessageSpec::spec_serialize(b),
            Packet578Model::PlayNamedSoundEffect(b) => PlayNamedSoundEffectSpec::spec_serialize(b),
            Packet578Model::PlayDisconnect(b) => PlayDisconnectSpec::spec_serialize(b),
            Packet578Model::PlayEntityStatus(b) => PlayEntityStatusSpec::spec_serialize(b),
            Packet578Model::PlayExplosion(b) => PlayExplosionSpec::spec_serialize(b),
            Packet578Model::PlayUnloadChunk(b) => PlayUnloadChunkSpec::spec_serialize(b),
            Packet578Model::PlayChangeGameState(b) => PlayChangeGameStateSpec::spec_serialize(b),
            Packet578Model::PlayOpenHorseWindow(b) => PlayOpenHorseWindowSpec::spec_serialize(b),
            Packet578Model::PlayServerKeepAlive(b) => PlayServerKeepAliveSpec::spec_serialize(b),
            Packet578Model::PlayChunkData(b) => PlayChunkDataWrapper::spec_serialize(b),
            Packet578Model::PlayEffect(b) => PlayEffectSpec::spec_serialize(b),
            Packet578Model::PlayParticle(b) => PlayParticleSpec::spec_serialize(b),
            Packet578Model::PlayUpdateLight(b) => PlayUpdateLightSpec::spec_serialize(b),
            Packet578Model::PlayJoinGame(b) => PlayJoinGameSpec::spec_serialize(b),
            Packet578Model::PlayMapData(b) => PlayMapDataSpec::spec_serialize(b),
            Packet578Model::PlayTradeList(b) => PlayTradeListSpec::spec_serialize(b),
            Packet578Model::PlayEntityPosition(b) => PlayEntityPositionSpec::spec_serialize(b),
            Packet578Model::PlayEntityPositionAndRotation(b) => PlayEntityPositionAndRotationSpec::spec_serialize(b),
            Packet578Model::PlayEntityRotation(b) => PlayEntityRotationSpec::spec_serialize(b),
            Packet578Model::PlayEntityMovement(b) => PlayEntityMovementSpec::spec_serialize(b),
            Packet578Model::PlayServerVehicleMove(b) => PlayEntityVehicleMoveSpec::spec_serialize(b),
            Packet578Model::PlayOpenBook(b) => PlayOpenBookSpec::spec_serialize(b),
            Packet578Model::PlayOpenWindow(b) => PlayOpenWindowSpec::spec_serialize(b),
            Packet578Model::PlayOpenSignEditor(b) => PlayOpenSignEditorSpec::spec_serialize(b),
            Packet578Model::PlayCraftRecipeResponse(b) => PlayCraftRecipeResponseSpec::spec_serialize(b),
            Packet578Model::PlayServerPlayerAbilities(b) => PlayServerPlayerAbilitiesSpec::spec_serialize(b),
            Packet578Model::PlayCombatEvent(b) => PlayCombatEventSpec::spec_serialize(b),
            Packet578Model::PlayPlayerInfo(b) => PlayPlayerInfoSpec::spec_serialize(b),
            Packet578Model::PlayFacePlayer(b) => PlayFacePlayerSpec::spec_serialize(b),
            Packet578Model::PlayServerPlayerPositionAndLook(b) => PlayServerPlayerPositionAndLookSpec::spec_serialize(b),
            Packet578Model::PlayUnlockRecipes(b) => PlayUnlockRecipesSpec::spec_serialize(b),
            Packet578Model::PlayDestroyEntities(b) => PlayDestroyEntitiesSpec::spec_serialize(b),
            Packet578Model::PlayRemoveEntityEffect(b) => PlayRemoveEntityEffectSpec::spec_serialize(b),
            Packet578Model::PlayResourcePackSend(b) => PlayResourcePackSendSpec::spec_serialize(b),
            Packet578Model::PlayRespawn(b) => PlayRespawnSpec::spec_serialize(b),
            Packet578Model::PlayEntityHeadLook(b) => PlayEntityHeadLookSpec::spec_serialize(b),
            Packet578Model::PlaySelectAdvancementTab(b) => PlaySelectAdvancementTabSpec::spec_serialize(b),
            Packet578Model::PlayWorldBorder(b) => PlayWorldBorderSpec::spec_serialize(b),
            Packet578Model::PlayCamera(b) => PlayCameraSpec::spec_serialize(b),
            Packet578Model::PlayServerHeldItemChange(b) => PlayServerHeldItemChangeSpec::spec_serialize(b),
            Packet578Model::PlayUpdateViewPosition(b) => PlayUpdateViewPositionSpec::spec_serialize(b),
            Packet578Model::PlayUpdateViewDistance(b) => PlayUpdateViewDistanceSpec::spec_serialize(b),
            Packet578Model::PlayDisplayScoreboard(b) => PlayDisplayScoreboardSpec::spec_serialize(b),
            Packet578Model::PlayEntityMetadata(b) => PlayEntityMetadataSpec::spec_serialize(b),
            Packet578Model::PlayAttachEntity(b) => PlayAttachEntitySpec::spec_serialize(b),
            Packet578Model::PlayEntityVelocity(b) => PlayEntityVelocitySpec::spec_serialize(b),
            Packet578Model::PlayEntityEquipment(b) => PlayEntityEquiptmentSpec::spec_serialize(b),
            Packet578Model::PlaySetExperience(b) => PlaySetExperienceSpec::spec_serialize(b),
            Packet578Model::PlayUpdatehealth(b) => PlayUpdateHealthSpec::spec_serialize(b),
            Packet578Model::PlayScoreboardObjective(b) => PlayScoreboardObjectiveSpec::spec_serialize(b),
            Packet578Model::PlaySetPassengers(b) => PlaySetPassengersSpec::spec_serialize(b),
            Packet578Model::PlayTeams(b) => PlayTeamsSpec::spec_serialize(b),
            Packet578Model::PlayUpdateScore(b) => PlayUpdateScoreSpec::spec_serialize(b),
            Packet578Model::PlaySpawnPosition(b) => PlaySpawnPositionSpec::spec_serialize(b),
            Packet578Model::PlayTimeUpdate(b) => PlayTimeUpdateSpec::spec_serialize(b),
            Packet578Model::PlayTitle(b) => PlayTitleSpec::spec_serialize(b),
            Packet578Model::PlayEntitySoundEffect(b) => PlayEntitySoundEffectSpec::spec_serialize(b),
            Packet578Model::PlaySoundEffect(b) => PlaySoundEffectSpec::spec_serialize(b),
            Packet578Model::PlayStopSound(b) => PlayStopSoundSpec::spec_serialize(b),
            Packet578Model::PlayerPlayerListHeaderAndFooter(b) => PlayPlayerListHeaderAndFooterSpec::spec_serialize(b),
            Packet578Model::PlayNbtQueryResponse(b) => PlayNbtQueryResponseSpec::spec_serialize(b),
            Packet578Model::PlayCollectItem(b) => PlayCollectItemSpec::spec_serialize(b),
            Packet578Model::PlayEntityTeleport(b) => PlayEntityTeleportSpec::spec_serialize(b),
            Packet578Model::PlayAdvancements(b) => PlayAdvancementsSpec::spec_serialize(b),
            Packet578Model::PlayEntityProperties(b) => PlayEntityPropertiesSpec::spec_serialize(b),
            Packet578Model::PlayEntityEffect(b) => PlayEntityEffectSpec::spec_serialize(b),
            Packet578Model::PlayDeclareRecipes(b) => PlayDeclareRecipesSpec::spec_serialize(b),
            Packet578Model::PlayTags(b) => PlayTagsSpec::spec_serialize(b),
            Packet578Model::PlayTeleportConfirm(b) => PlayTeleportConfirmSpec::spec_serialize(b),
            Packet578Model::PlayQueryBlockNbt(b) => PlayQueryBlockNbtSpec::spec_serialize(b),
            Packet578Model::PlayQueryEntityNbt(b) => PlayQueryEntityNbtSpec::spec_serialize(b),
            Packet578Model::PlaySetDifficulty(b) => PlaySetDifficultySpec::spec_serialize(b),
            Packet578Model::PlayClientChatMessage(b) => PlayClientChatMessageSpec::spec_serialize(b),
            Packet578Model::PlayClientStatus(b) => PlayClientStatusSpec::spec_serialize(b),
            Packet578Model::PlayClientSettings(b) => PlayClientSettingsSpec::spec_serialize(b),
            Packet578Model::PlayClientTabComplete(b) => PlayClientTabCompleteSpec::spec_serialize(b),
            Packet578Model::PlayClientWindowConfirmation(b) => PlayClientWindowConfirmationSpec::spec_serialize(b),
            Packet578Model::PlayClickWindowButton(b) => PlayClickWindowButtonSpec::spec_serialize(b),
            Packet578Model::PlayClickWindow(b) => PlayClickWindowSpec::spec_serialize(b),
            Packet578Model::PlayClientCloseWindow(b) => PlayClientCloseWindowSpec::spec_serialize(b),
            Packet578Model::PlayClientPluginMessage(b) => PlayClientPluginMessageSpec::spec_serialize(b),
            Packet578Model::PlayEditBook(b) => PlayEditBookSpec::spec_serialize(b),
            Packet578Model::PlayInteractEntity(b) => PlayInteractEntitySpec::spec_serialize(b),
            Packet578Model::PlayClientKeepAlive(b) => PlayClientKeepAliveSpec::spec_serialize(b),
            Packet578Model::PlayLockDifficulty(b) => PlayLockDifficultySpec::spec_serialize(b),
            Packet578Model::PlayPlayerPosition(b) => PlayPlayerPositionSpec::spec_serialize(b),
            Packet578Model::PlayClientPlayerPositionAndRotation(b) => PlayClientPlayerPositionAndRotationSpec::spec_serialize(b),
            Packet578Model::PlayPlayerRotation(b) => PlayPlayerRotationSpec::spec_serialize(b),
            Packet578Model::PlayPlayerMovement(b) => PlayPlayerMovementSpec::spec_serialize(b),
            Packet578Model::PlayClientVehicleMove(b) => PlayClientVehicleMoveSpec::spec_serialize(b),
            Packet578Model::PlaySteerBoat(b) => PlaySteerBoatSpec::spec_serialize(b),
            Packet578Model::PlayPickItem(b) => PlayPickItemSpec::spec_serialize(b),
            Packet578Model::PlayCraftRecipeRequest(b) => PlayCraftRecipeRequestSpec::spec_serialize(b),
            Packet578Model::PlayClientPlayerAbilities(b) => PlayClientPlayerAbilitiesSpec::spec_serialize(b),
            Packet578Model::PlayPlayerDigging(b) => PlayPlayerDiggingSpec::spec_serialize(b),
            Packet578Model::PlayEntityAction(b) => PlayEntityActionSpec::spec_serialize(b),
            Packet578Model::PlaySteerVehicle(b) => PlaySteerVehicleSpec::spec_serialize(b),
            Packet578Model::PlayRecipeBookData(b) => PlayRecipeBookDataSpec::spec_serialize(b),
            Packet578Model::PlayNameItem(b) => PlayNameItemSpec::spec_serialize(b),
            Packet578Model::PlayResourcePackStatus(b) => PlayResourcePackStatusSpec::spec_serialize(b),
            Packet578Model::PlayAdvancementTab(b) => PlayAdvancementTabSpec::spec_serialize(b),
            Packet578Model::PlaySelectTrade(b) => PlaySelectTradeSpec::spec_serialize(b),
            Packet578Model::PlaySetBeaconEffect(b) => PlaySetBeaconEffectSpec::spec_serialize(b),
            Packet578Model::PlayClientHeldItemChange(b) => PlayClientHeldItemChangeSpec::spec_serialize(b),
            Packet578Model::PlayUpdateCommandBlock(b) => PlayUpdateCommandBlockSpec::spec_serialize(b),
            Packet578Model::PlayUpdateCommandBlockMinecart(b) => PlayUpdateCommandBlockMinecartSpec::spec_serialize(b),
            Packet578Model::PlayCreativeInventoryAction(b) => PlayCreativeInventoryActionSpec::spec_serialize(b),
            Packet578Model::PlayUpdateJigsawBlock(b) => PlayUpdateJigsawBlockSpec::spec_serialize(b),
            Packet578Model::PlayUpdateStructureBlock(b) => PlayUpdateStructureBlockSpec::spec_serialize(b),
            Packet578Model::PlayUpdateSign(b) => PlayUpdateSignSpec::spec_serialize(b),
            Packet578Model::PlayClientAnimation(b) => PlayClientAnimationSpec::spec_serialize(b),
            Packet578Model::PlaySpectate(b) => PlaySpectateSpec::spec_serialize(b),
            Packet578Model::PlayBlockPlacement(b) => PlayBlockPlacementSpec::spec_serialize(b),
            Packet578Model::PlayUseItem(b) => PlayUseItemSpec::spec_serialize(b),
        }
    }

    /// The message that a body decodes to in `state` and `direction` under
    /// `id`; an id that names no shape there is an error carrying it. Bytes
    /// after the body are ignored.
    pub open spec fn spec_decode(
        state: State,
        direction: PacketDirection,
        id: i32,
        body: Seq<u8>,
    ) -> Result<Packet578Model, DeserializeErr> {
        match state {
            State::Handshaking => match direction {
                PacketDirection::ClientBound => spec_decode_handshaking_clientbound(id, body),
                PacketDirection::ServerBound => spec_decode_handshaking_serverbound(id, body),
            },
            State::Status => match direction {
                PacketDirection::ClientBound => spec_decode_status_clientbound(id, body),
                PacketDirection::ServerBound => spec_decode_status_serverbound(id, body),
            },
            State::Login => match direction {
                PacketDirection::ClientBound => spec_decode_login_clientbound(id, body),
                PacketDirection::ServerBound => spec_decode_login_serverbound(id, body),
            },
            State::Play => match direction {
                PacketDirection::ClientBound => spec_decode_play_clientbound(id, body),
                PacketDirection::ServerBound => spec_decode_play_serverbound(id, body),
            },
        }
    }

    #[verifier::rlimit(100)]
    #[verifier::spinoff_prover]
    pub fn key(&self) -> (r: (State, PacketDirection, i32))
        ensures
            r == Self::spec_key(self.model()),
    {
        match self {
            Packet578::Handshake(_) => (State::Handshaking, PacketDirection::ServerBound, 0),
            Packet578::StatusRequest(_) => (State::Status, PacketDirection::ServerBound, 0),
            Packet578::StatusPing(_) => (State::Status, PacketDirection::ServerBound, 1),
            Packet578::StatusResponse(_) => (State::Status, PacketDirection::ClientBound, 0),
            Packet578::StatusPong(_) => (State::Status, PacketDirection::ClientBound, 1),
            Packet578::LoginDisconnect(_) => (State::Login, PacketDirection::ClientBound, 0),
            Packet578::LoginEncryptionRequest(_) => (State::Login, PacketDirection::ClientBound, 1),
            Packet578::LoginSuccess(_) => (State::Login, PacketDirection::ClientBound, 2),
            Packet578::LoginSetCompression(_) => (State::Login, PacketDirection::ClientBound, 3),
            Packet578::LoginPluginRequest(_) => (State::Login, PacketDirection::ClientBound, 4),
            Packet578::LoginStart(_) => (State::Login, PacketDirection::ServerBound, 0),
            Packet578::LoginEncryptionResponse(_) => (State::Login, PacketDirection::ServerBound, 1),
            Packet578::LoginPluginResponse(_) => (State::Login, PacketDirection::ServerBound, 2),
            Packet578::PlaySpawnEntity(_) => (State::Play, PacketDirection::ClientBound, 0),
            Packet578::PlaySpawnExperienceOrb(_) => (State::Play, PacketDirection::ClientBound, 1),
            Packet578::PlaySpawnWeatherEntity(_) => (State::Play, PacketDirection::ClientBound, 2),
            Packet578::PlaySpawnLivingEntity(_) => (State::Play, PacketDirection::ClientBound, 3),
            Packet578::PlaySpawnPainting(_) => (State::Play, PacketDirection::ClientBound, 4),
            Packet578::PlaySpawnPlayer(_) => (State::Play, PacketDirection::ClientBound, 5),
            Packet578::PlayEntityAnimation(_) => (State::Play, PacketDirection::ClientBound, 6),
            Packet578::PlayStatistics(_) => (State::Play, PacketDirection::ClientBound, 7),
            Packet578::PlayAcknowledgePlayerDigging(_) => (State::Play, PacketDirection::ClientBound, 8),
            Packet578::PlayBlockBreakAnimation(_) => (State::Play, PacketDirection::ClientBound, 9),
            Packet578::PlayBlockEntityData(_) => (State::Play, PacketDirection::ClientBound, 10),
            Packet578::PlayBlockAction(_) => (State::Play, PacketDirection::ClientBound, 11),
            Packet578::PlayBlockChange(_) => (State::Play, PacketDirection::ClientBound, 12),
            Packet578::PlayBossBar(_) => (State::Play, PacketDirection::ClientBound, 13),
            Packet578::PlayServerDifficulty(_) => (State::Play, PacketDirection::ClientBound, 14),
            Packet578::PlayServerChatMessage(_) => (State::Play, PacketDirection::ClientBound, 15),
            Packet578::PlayMultiBlockChange(_) => (State::Play, PacketDirection::ClientBound, 16),
            Packet578::PlayTabComplete(_) => (State::Play, PacketDirection::ClientBound, 17),
            Packet578::PlayDeclareCommands(_) => (State::Play, PacketDirection::ClientBound, 18),
            Packet578::PlayServerWindowConfirmation(_) => (State::Play, PacketDirection::ClientBound, 19),
            Packet578::PlayServerCloseWindow(_) => (State::Play, PacketDirection::ClientBound, 20),
            Packet578::PlayWindowItems(_) => (State::Play, PacketDirection::ClientBound, 21),
            Packet578::PlayWindowProperty(_) => (State::Play, PacketDirection::ClientBound, 22),
            Packet578::PlaySetSlot(_) => (State::Play, PacketDirection::ClientBound, 23),
            Packet578::PlaySetCooldown(_) => (State::Play, PacketDirection::ClientBound, 24),
            Packet578::PlayServerPluginMessage(_) => (State::Play, PacketDirection::ClientBound, 25),
            Packet578::PlayNamedSoundEffect(_) => (State::Play, PacketDirection::ClientBound, 26),
            Packet578::PlayDisconnect(_) => (State::Play, PacketDirection::ClientBound, 27),
            Packet578::PlayEntityStatus(_) => (State::Play, PacketDirection::ClientBound, 28),
            Packet578::PlayExplosion(_) => (State::Play, PacketDirection::ClientBound, 29),
            Packet578::PlayUnloadChunk(_) => (State::Play, PacketDirection::ClientBound, 30),
            Packet578::PlayChangeGameState(_) => (State::Play, PacketDirection::ClientBound, 31),
            Packet578::PlayOpenHorseWindow(_) => (State::Play, PacketDirection::ClientBound, 32),
            Packet578::PlayServerKeepAlive(_) => (State::Play, PacketDirection::ClientBound, 33),
            Packet578::PlayChunkData(_) => (State::Play, PacketDirection::ClientBound, 34),
            Packet578::PlayEffect(_) => (State::Play, PacketDirection::ClientBound, 35),
            Packet578::PlayParticle(_) => (State::Play, PacketDirection::ClientBound, 36),
            Packet578::PlayUpdateLight(_) => (State::Play, PacketDirection::ClientBound, 37),
            Packet578::PlayJoinGame(_) => (State::Play, PacketDirection::ClientBound, 38),
            Packet578::PlayMapData(_) => (State::Play, PacketDirection::ClientBound, 39),
            Packet578::PlayTradeList(_) => (State::Play, PacketDirection::ClientBound, 40),
            Packet578::PlayEntityPosition(_) => (State::Play, PacketDirection::ClientBound, 41),
            Packet578::PlayEntityPositionAndRotation(_) => (State::Play, PacketDirection::ClientBound, 42),
            Packet578::PlayEntityRotation(_) => (State::Play, PacketDirection::ClientBound, 43),
            Packet578::PlayEntityMovement(_) => (State::Play, PacketDirection::ClientBound, 44),
            Packet578::PlayServerVehicleMove(_) => (State::Play, PacketDirection::ClientBound, 45),
            Packet578::PlayOpenBook(_) => (State::Play, PacketDirection::ClientBound, 46),
            Packet578::PlayOpenWindow(_) => (State::Play, PacketDirection::ClientBound, 47),
            Packet578::PlayOpenSignEditor(_) => (State::Play, PacketDirection::ClientBound, 48),
            Packet578::PlayCraftRecipeResponse(_) => (State::Play, PacketDirection::ClientBound, 49),
            Packet578::PlayServerPlayerAbilities(_) => (State::Play, PacketDirection::ClientBound, 50),
            Packet578::PlayCombatEvent(_) => (State::Play, PacketDirection::ClientBound, 51),
            Packet578::PlayPlayerInfo(_) => (State::Play, PacketDirection::ClientBound, 52),
            Packet578::PlayFacePlayer(_) => (State::Play, PacketDirection::ClientBound, 53),
            Packet578::PlayServerPlayerPositionAndLook(_) => (State::Play, PacketDirection::ClientBound, 54),
            Packet578::PlayUnlockRecipes(_) => (State::Play, PacketDirection::ClientBound, 55),
            Packet578::PlayDestroyEntities(_) => (State::Play, PacketDirection::ClientBound, 56),
            Packet578::PlayRemoveEntityEffect(_) => (State::Play, PacketDirection::ClientBound, 57),
            Packet578::PlayResourcePackSend(_) => (State::Play, PacketDirection::ClientBound, 58),
            Packet578::PlayRespawn(_) => (State::Play, PacketDirection::ClientBound, 59),
            Packet578::PlayEntityHeadLook(_) => (State::Play, PacketDirection::ClientBound, 60),
            Packet578::PlaySelectAdvancementTab(_) => (State::Play, PacketDirection::ClientBound, 61),
            Packet578::PlayWorldBorder(_) => (State::Play, PacketDirection::ClientBound, 62),
            Packet578::PlayCamera(_) => (State::Play, PacketDirection::ClientBound, 63),
            Packet578::PlayServerHeldItemChange(_) => (State::Play, PacketDirection::ClientBound, 64),
            Packet578::PlayUpdateViewPosition(_) => (State::Play, PacketDirection::ClientBound, 65),
            Packet578::PlayUpdateViewDistance(_) => (State::Play, PacketDirection::ClientBound, 66),
            Packet578::PlayDisplayScoreboard(_) => (State::Play, PacketDirection::ClientBound, 67),
            Packet578::PlayEntityMetadata(_) => (State::Play, PacketDirection::ClientBound, 68),
            Packet578::PlayAttachEntity(_) => (State::Play, PacketDirection::ClientBound, 69),
            Packet578::PlayEntityVelocity(_) => (State::Play, PacketDirection::ClientBound, 70),
            Packet578::PlayEntityEquipment(_) => (State::Play, PacketDirection::ClientBound, 71),
            Packet578::PlaySetExperience(_) => (State::Play, PacketDirection::ClientBound, 72),
            Packet578::PlayUpdatehealth(_) => (State::Play, PacketDirection::ClientBound, 73),
            Packet578::PlayScoreboardObjective(_) => (State::Play, PacketDirection::ClientBound, 74),
            Packet578::PlaySetPassengers(_) => (State::Play, PacketDirection::ClientBound, 75),
            Packet578::PlayTeams(_) => (State::Play, PacketDirection::ClientBound, 76),
            Packet578::PlayUpdateScore(_) => (State::Play, PacketDirection::ClientBound, 77),
            Packet578::PlaySpawnPosition(_) => (State::Play, PacketDirection::ClientBound, 78),
            Packet578::PlayTimeUpdate(_) => (State::Play, PacketDirection::ClientBound, 79),
            Packet578::PlayTitle(_) => (State::Play, PacketDirection::ClientBound, 80),
            Packet578::PlayEntitySoundEffect(_) => (State::Play, PacketDirection::ClientBound, 81),
            Packet578::PlaySoundEffect(_) => (State::Play, PacketDirection::ClientBound, 82),
            Packet578::PlayStopSound(_) => (State::Play, PacketDirection::ClientBound, 83),
            Packet578::PlayerPlayerListHeaderAndFooter(_) => (State::Play, PacketDirection::ClientBound, 84),
            Packet578::PlayNbtQueryResponse(_) => (State::Play, PacketDirection::ClientBound, 85),
            Packet578::PlayCollectItem(_) => (State::Play, PacketDirection::ClientBound, 86),
            Packet578::PlayEntityTeleport(_) => (State::Play, PacketDirection::ClientBound, 87),
            Packet578::PlayAdvancements(_) => (State::Play, PacketDirection::ClientBound, 88),
            Packet578::PlayEntityProperties(_) => (State::Play, PacketDirection::ClientBound, 89),
            Packet578::PlayEntityEffect(_) => (State::Play, PacketDirection::ClientBound, 90),
            Packet578::PlayDeclareRecipes(_) => (State::Play, PacketDirection::ClientBound, 91),
            Packet578::PlayTags(_) => (State::Play, PacketDirection::ClientBound, 92),
            Packet578::PlayTeleportConfirm(_) => (State::Play, PacketDirection::ServerBound, 0),
            Packet578::PlayQueryBlockNbt(_) => (State::Play, PacketDirection::ServerBound, 1),
            Packet578::PlayQueryEntityNbt(_) => (State::Play, PacketDirection::ServerBound, 13),
            Packet578::PlaySetDifficulty(_) => (State::Play, PacketDirection::ServerBound, 2),
            Packet578::PlayClientChatMessage(_) => (State::Play, PacketDirection::ServerBound, 3),
            Packet578::PlayClientStatus(_) => (State::Play, PacketDirection::ServerBound, 4),
            Packet578::PlayClientSettings(_) => (State::Play, PacketDirection::ServerBound, 5),
            Packet578::PlayClientTabComplete(_) => (State::Play, PacketDirection::ServerBound, 6),
            Packet578::PlayClientWindowConfirmation(_) => (State::Play, PacketDirection::ServerBound, 7),
            Packet578::PlayClickWindowButton(_) => (State::Play, PacketDirection::ServerBound, 8),
            Packet578::PlayClickWindow(_) => (State::Play, PacketDirection::ServerBound, 9),
            Packet578::PlayClientCloseWindow(_) => (State::Play, PacketDirection::ServerBound, 10),
            Packet578::PlayClientPluginMessage(_) => (State::Play, PacketDirection::ServerBound, 11),
            Packet578::PlayEditBook(_) => (State::Play, PacketDirection::ServerBound, 12),
            Packet578::PlayInteractEntity(_) => (State::Play, PacketDirection::ServerBound, 14),
            Packet578::PlayClientKeepAlive(_) => (State::Play, PacketDirection::ServerBound, 15),
            Packet578::PlayLockDifficulty(_) => (State::Play, PacketDirection::ServerBound, 16),
            Packet578::PlayPlayerPosition(_) => (State::Play, PacketDirection::ServerBound, 17),
            Packet578::PlayClientPlayerPositionAndRotation(_) => (State::Play, PacketDirection::ServerBound, 18),
            Packet578::PlayPlayerRotation(_) => (State::Play, PacketDirection::ServerBound, 19),
            Packet578::PlayPlayerMovement(_) => (State::Play, PacketDirection::ServerBound, 20),
            Packet578::PlayClientVehicleMove(_) => (State::Play, PacketDirection::ServerBound, 21),
            Packet578::PlaySteerBoat(_) => (State::Play, PacketDirection::ServerBound, 22),
            Packet578::PlayPickItem(_) => (State::Play, PacketDirection::ServerBound, 23),
            Packet578::PlayCraftRecipeRequest(_) => (State::Play, PacketDirection::ServerBound, 24),
            Packet578::PlayClientPlayerAbilities(_) => (State::Play, PacketDirection::ServerBound, 25),
            Packet578::PlayPlayerDigging(_) => (State::Play, PacketDirection::ServerBound, 26),
            Packet578::PlayEntityAction(_) => (State::Play, PacketDirection::ServerBound, 27),
            Packet578::PlaySteerVehicle(_) => (State::Play, PacketDirection::ServerBound, 28),
            Packet578::PlayRecipeBookData(_) => (State::Play, PacketDirection::ServerBound, 29),
            Packet578::PlayNameItem(_) => (State::Play, PacketDirection::ServerBound, 30),
            Packet578::PlayResourcePackStatus(_) => (State::Play, PacketDirection::ServerBound, 31),
            Packet578::PlayAdvancementTab(_) => (State::Play, PacketDirection::ServerBound, 32),
            Packet578::PlaySelectTrade(_) => (State::Play, PacketDirection::ServerBound, 33),
            Packet578::PlaySetBeaconEffect(_) => (State::Play, PacketDirection::ServerBound, 34),
            Packet578::PlayClientHeldItemChange(_) => (State::Play, PacketDirection::ServerBound, 35),
            Packet578::PlayUpdateCommandBlock(_) => (State::Play, PacketDirection::ServerBound, 36),
            Packet578::PlayUpdateCommandBlockMinecart(_) => (State::Play, PacketDirection::ServerBound, 37),
            Packet578::PlayCreativeInventoryAction(_) => (State::Play, PacketDirection::ServerBound, 38),
            Packet578::PlayUpdateJigsawBlock(_) => (State::Play, PacketDirection::ServerBound, 39),
            Packet578::PlayUpdateStructureBlock(_) => (State::Play, PacketDirection::ServerBound, 40),
            Packet578::PlayUpdateSign(_) => (State::Play, PacketDirection::ServerBound, 41),
            Packet578::PlayClientAnimation(_) => (State::Play, PacketDirection::ServerBound, 42),
            Packet578::PlaySpectate(_) => (State::Play, PacketDirection::ServerBound, 43),
            Packet578::PlayBlockPlacement(_) => (State::Play, PacketDirection::ServerBound, 44),
            Packet578::PlayUseItem(_) => (State::Play, PacketDirection::ServerBound, 45),
        }
    }

    pub open spec fn encodable_of(p: Packet578) -> bool {
        match p {
            Packet578::Handshake(b) => HandshakeSpec::encodable(b.model()),
            Packet578::StatusRequest(b) => StatusRequestSpec::encodable(b.model()),
            Packet578::StatusPing(b) => StatusPingSpec::encodable(b.model()),
            Packet578::StatusResponse(b) => StatusResponseSpec::encodable(b.model()),
            Packet578::StatusPong(b) => StatusPongSpec::encodable(b.model()),
            Packet578::LoginDisconnect(b) => LoginDisconnectSpec::encodable(b.model()),
            Packet578::LoginEncryptionRequest(b) => LoginEncryptionRequestSpec::encodable(b.model()),
            Packet578::LoginSuccess(b) => LoginSuccessSpec::encodable(b.model()),
            Packet578::LoginSetCompression(b) => LoginSetCompressionSpec::encodable(b.model()),
            Packet578::LoginPluginRequest(b) => LoginPluginRequestSpec::encodable(b.spec_model()),
            Packet578::LoginStart(b) => LoginStartSpec::encodable(b.model()),
            Packet578::LoginEncryptionResponse(b) => LoginEncryptionResponseSpec::encodable(b.model()),
            Packet578::LoginPluginResponse(b) => LoginPluginResponseSpec::encodable(b.spec_model()),
            Packet578::PlaySpawnEntity(b) => PlaySpawnEntitySpec::encodable(b.model()),
            Packet578::PlaySpawnExperienceOrb(b) => PlaySpawnExperienceOrbSpec::encodable(b.model()),
            Packet578::PlaySpawnWeatherEntity(b) => PlaySpawnWeatherEntitySpec::encodable(b.model()),
            Packet578::PlaySpawnLivingEntity(b) => PlaySpawnLivingEntitySpec::encodable(b.model()),
            Packet578::PlaySpawnPainting(b) => PlaySpawnPaintingSpec::encodable(b.model()),
            Packet578::PlaySpawnPlayer(b) => PlaySpawnPlayerSpec::encodable(b.model()),
            Packet578::PlayEntityAnimation(b) => PlayEntityAnimationSpec::encodable(b.model()),
            Packet578::PlayStatistics(b) => PlayStatisticsSpec::encodable(b.model()),
            Packet578::PlayAcknowledgePlayerDigging(b) => PlayAcknowledgePlayerDiggingSpec::encodable(b.model()),
            Packet578::PlayBlockBreakAnimation(b) => PlayBlockBreakAnimationSpec::encodable(b.model()),
            Packet578::PlayBlockEntityData(b) => PlayBlockEntityDataSpec::encodable(b.model()),
            Packet578::PlayBlockAction(b) => PlayBlockActionSpec::encodable(b.model()),
            Packet578::PlayBlockChange(b) => PlayBlockChangeSpec::encodable(b.model()),
            Packet578::PlayBossBar(b) => PlayBossBarSpec::encodable(b.model()),
            Packet578::PlayServerDifficulty(b) => PlayServerDifficultySpec::encodable(b.model()),
            Packet578::PlayServerChatMessage(b) => PlayServerChatMessageSpec::encodable(b.model()),
            Packet578::PlayMultiBlockChange(b) => PlayMultiBlockChangeSpec::encodable(b.model()),
            Packet578::PlayTabComplete(b) => PlayTabCompleteSpec::encodable(b.model()),
            Packet578::PlayDeclareCommands(b) => PlayDeclareCommandsSpec::encodable(b.model()),
            Packet578::PlayServerWindowConfirmation(b) => PlayServerWindowConfirmationSpec::encodable(b.model()),
            Packet578::PlayServerCloseWindow(b) => PlayServerCloseWindowSpec::encodable(b.model()),
            Packet578::PlayWindowItems(b) => PlayWindowItemsSpec::encodable(b.model()),
            Packet578::PlayWindowProperty(b) => PlayWindowPropertySpec::encodable(b.model()),
            Packet578::PlaySetSlot(b) => PlaySetSlotSpec::encodable(b.model()),
            Packet578::PlaySetCooldown(b) => PlaySetCooldownSpec::encodable(b.model()),
            Packet578::PlayServerPluginMessage(b) => PlayServerPluginMessageSpec::encodable(b.spec_model()),
            Packet578::PlayNamedSoundEffect(b) => PlayNamedSoundEffectSpec::encodable(b.model()),
            Packet578::PlayDisconnect(b) => PlayDisconnectSpec::encodable(b.model()),
            Packet578::PlayEntityStatus(b) => PlayEntityStatusSpec::encodable(b.model()),
            Packet578::PlayExplosion(b) => PlayExplosionSpec::encodable(b.model()),
            Packet578::PlayUnloadChunk(b) => PlayUnloadChunkSpec::encodable(b.model()),
            Packet578::PlayChangeGameState(b) => PlayChangeGameStateSpec::encodable(b.model()),
            Packet578::PlayOpenHorseWindow(b) => PlayOpenHorseWindowSpec::encodable(b.model()),
            Packet578::PlayServerKeepAlive(b) => PlayServerKeepAliveSpec::encodable(b.model()),
            Packet578::PlayChunkData(b) => PlayChunkDataWrapper::encodable(b.model()),
            Packet578::PlayEffect(b) => PlayEffectSpec::encodable(b.model()),
            Packet578::PlayParticle(b) => PlayParticleSpec::encodable(b.spec_model()),
            Packet578::PlayUpdateLight(b) => PlayUpdateLightSpec::encodable(b.model()),
            Packet578::PlayJoinGame(b) => PlayJoinGameSpec::encodable(b.model()),
            Packet578::PlayMapData(b) => PlayMapDataSpec::encodable(b.model()),
            Packet578::PlayTradeList(b) => PlayTradeListSpec::encodable(b.model()),
            Packet578::PlayEntityPosition(b) => PlayEntityPositionSpec::encodable(b.model()),
            Packet578::PlayEntityPositionAndRotation(b) => PlayEntityPositionAndRotationSpec::encodable(b.model()),
            Packet578::PlayEntityRotation(b) => PlayEntityRotationSpec::encodable(b.model()),
            Packet578::PlayEntityMovement(b) => PlayEntityMovementSpec::encodable(b.model()),
            Packet578::PlayServerVehicleMove(b) => PlayEntityVehicleMoveSpec::encodable(b.model()),
            Packet578::PlayOpenBook(b) => PlayOpenBookSpec::encodable(b.model()),
            Packet578::PlayOpenWindow(b) => PlayOpenWindowSpec::encodable(b.model()),
            Packet578::PlayOpenSignEditor(b) => PlayOpenSignEditorSpec::encodable(b.model()),
            Packet578::PlayCraftRecipeResponse(b) => PlayCraftRecipeResponseSpec::encodable(b.model()),
            Packet578::PlayServerPlayerAbilities(b) => PlayServerPlayerAbilitiesSpec::encodable(b.model()),
            Packet578::PlayCombatEvent(b) => PlayCombatEventSpec::encodable(b.model()),
            Packet578::PlayPlayerInfo(b) => PlayPlayerInfoSpec::encodable(b.model()),
            Packet578::PlayFacePlayer(b) => PlayFacePlayerSpec::encodable(b.model()),
            Packet578::PlayServerPlayerPositionAndLook(b) => PlayServerPlayerPositionAndLookSpec::encodable(b.model()),
            Packet578::PlayUnlockRecipes(b) => PlayUnlockRecipesSpec::encodable(b.spec_model()),
            Packet578::PlayDestroyEntities(b) => PlayDestroyEntitiesSpec::encodable(b.model()),
            Packet578::PlayRemoveEntityEffect(b) => PlayRemoveEntityEffectSpec::encodable(b.model()),
            Packet578::PlayResourcePackSend(b) => PlayResourcePackSendSpec::encodable(b.model()),
            Packet578::PlayRespawn(b) => PlayRespawnSpec::encodable(b.model()),
            Packet578::PlayEntityHeadLook(b) => PlayEntityHeadLookSpec::encodable(b.model()),
            Packet578::PlaySelectAdvancementTab(b) => PlaySelectAdvancementTabSpec::encodable(b.model()),
            Packet578::PlayWorldBorder(b) => PlayWorldBorderSpec::encodable(b.model()),
            Packet578::PlayCamera(b) => PlayCameraSpec::encodable(b.model()),
            Packet578::PlayServerHeldItemChange(b) => PlayServerHeldItemChangeSpec::encodable(b.model()),
            Packet578::PlayUpdateViewPosition(b) => PlayUpdateViewPositionSpec::encodable(b.model()),
            Packet578::PlayUpdateViewDistance(b) => PlayUpdateViewDistanceSpec::encodable(b.model()),
            Packet578::PlayDisplayScoreboard(b) => PlayDisplayScoreboardSpec::encodable(b.model()),
            Packet578::PlayEntityMetadata(b) => PlayEntityMetadataSpec::encodable(b.model()),
            Packet578::PlayAttachEntity(b) => PlayAttachEntitySpec::encodable(b.model()),
            Packet578::PlayEntityVelocity(b) => PlayEntityVelocitySpec::encodable(b.model()),
            Packet578::PlayEntityEquipment(b) => PlayEntityEquiptmentSpec::encodable(b.model()),
            Packet578::PlaySetExperience(b) => PlaySetExperienceSpec::encodable(b.model()),
            Packet578::PlayUpdatehealth(b) => PlayUpdateHealthSpec::encodable(b.model()),
            Packet578::PlayScoreboardObjective(b) => PlayScoreboardObjectiveSpec::encodable(b.model()),
            Packet578::PlaySetPassengers(b) => PlaySetPassengersSpec::encodable(b.model()),
            Packet578::PlayTeams(b) => PlayTeamsSpec::encodable(b.model()),
            Packet578::PlayUpdateScore(b) => PlayUpdateScoreSpec::encodable(b.model()),
            Packet578::PlaySpawnPosition(b) => PlaySpawnPositionSpec::encodable(b.model()),
            Packet578::PlayTimeUpdate(b) => PlayTimeUpdateSpec::encodable(b.model()),
            Packet578::PlayTitle(b) => PlayTitleSpec::encodable(b.model()),
            Packet578::PlayEntitySoundEffect(b) => PlayEntitySoundEffectSpec::encodable(b.model()),
            Packet578::PlaySoundEffect(b) => PlaySoundEffectSpec::encodable(b.model()),
            Packet578::PlayStopSound(b) => PlayStopSoundSpec::encodable(b.model()),
            Packet578::PlayerPlayerListHeaderAndFooter(b) => PlayPlayerListHeaderAndFooterSpec::encodable(b.model()),
            Packet578::PlayNbtQueryResponse(b) => PlayNbtQueryResponseSpec::encodable(b.model()),
            Packet578::PlayCollectItem(b) => PlayCollectItemSpec::encodable(b.model()),
            Packet578::PlayEntityTeleport(b) => PlayEntityTeleportSpec::encodable(b.model()),
            Packet578::PlayAdvancements(b) => PlayAdvancementsSpec::encodable(b.model()),
            Packet578::PlayEntityProperties(b) => PlayEntityPropertiesSpec::encodable(b.model()),
            Packet578::PlayEntityEffect(b) => PlayEntityEffectSpec::encodable(b.model()),
            Packet578::PlayDeclareRecipes(b) => PlayDeclareRecipesSpec::encodable(b.model()),
            Packet578::PlayTags(b) => PlayTagsSpec::encodable(b.model()),
            Packet578::PlayTeleportConfirm(b) => PlayTeleportConfirmSpec::encodable(b.model()),
            Packet578::PlayQueryBlockNbt(b) => PlayQueryBlockNbtSpec::encodable(b.model()),
            Packet578::PlayQueryEntityNbt(b) => PlayQueryEntityNbtSpec::encodable(b.model()),
            Packet578::PlaySetDifficulty(b) => PlaySetDifficultySpec::encodable(b.model()),
            Packet578::PlayClientChatMessage(b) => PlayClientChatMessageSpec::encodable(b.model()),
            Packet578::PlayClientStatus(b) => PlayClientStatusSpec::encodable(b.model()),
            Packet578::PlayClientSettings(b) => PlayClientSettingsSpec::encodable(b.model()),
            Packet578::PlayClientTabComplete(b) => PlayClientTabCompleteSpec::encodable(b.model()),
            Packet578::PlayClientWindowConfirmation(b) => PlayClientWindowConfirmationSpec::encodable(b.model()),
            Packet578::PlayClickWindowButton(b) => PlayClickWindowButtonSpec::encodable(b.model()),
            Packet578::PlayClickWindow(b) => PlayClickWindowSpec::encodable(b.model()),
            Packet578::PlayClientCloseWindow(b) => PlayClientCloseWindowSpec::encodable(b.model()),
            Packet578::PlayClientPluginMessage(b) => PlayClientPluginMessageSpec::encodable(b.spec_model()),
            Packet578::PlayEditBook(b) => PlayEditBookSpec::encodable(b.model()),
            Packet578::PlayInteractEntity(b) => PlayInteractEntitySpec::encodable(b.model()),
            Packet578::PlayClientKeepAlive(b) => PlayClientKeepAliveSpec::encodable(b.model()),
            Packet578::PlayLockDifficulty(b) => PlayLockDifficultySpec::encodable(b.model()),
            Packet578::PlayPlayerPosition(b) => PlayPlayerPositionSpec::encodable(b.model()),
            Packet578::PlayClientPlayerPositionAndRotation(b) => PlayClientPlayerPositionAndRotationSpec::encodable(b.model()),
            Packet578::PlayPlayerRotation(b) => PlayPlayerRotationSpec::encodable(b.model()),
            Packet578::PlayPlayerMovement(b) => PlayPlayerMovementSpec::encodable(b.model()),
            Packet578::PlayClientVehicleMove(b) => PlayClientVehicleMoveSpec::encodable(b.model()),
            Packet578::PlaySteerBoat(b) => PlaySteerBoatSpec::encodable(b.model()),
            Packet578::PlayPickItem(b) => PlayPickItemSpec::encodable(b.model()),
            Packet578::PlayCraftRecipeRequest(b) => PlayCraftRecipeRequestSpec::encodable(b.model()),
            Packet578::PlayClientPlayerAbilities(b) => PlayClientPlayerAbilitiesSpec::encodable(b.model()),
            Packet578::PlayPlayerDigging(b) => PlayPlayerDiggingSpec::encodable(b.model()),
            Packet578::PlayEntityAction(b) => PlayEntityActionSpec::encodable(b.model()),
            Packet578::PlaySteerVehicle(b) => PlaySteerVehicleSpec::encodable(b.model()),
            Packet578::PlayRecipeBookData(b) => PlayRecipeBookDataSpec::encodable(b.model()),
            Packet578::PlayNameItem(b) => PlayNameItemSpec::encodable(b.model()),
            Packet578::PlayResourcePackStatus(b) => PlayResourcePackStatusSpec::encodable(b.model()),
            Packet578::PlayAdvancementTab(b) => PlayAdvancementTabSpec::encodable(b.model()),
            Packet578::PlaySelectTrade(b) => PlaySelectTradeSpec::encodable(b.model()),
            Packet578::PlaySetBeaconEffect(b) => PlaySetBeaconEffectSpec::encodable(b.model()),
            Packet578::PlayClientHeldItemChange(b) => PlayClientHeldItemChangeSpec::encodable(b.model()),
            Packet578::PlayUpdateCommandBlock(b) => PlayUpdateCommandBlockSpec::encodable(b.model()),
            Packet578::PlayUpdateCommandBlockMinecart(b) => PlayUpdateCommandBlockMinecartSpec::encodable(b.model()),
            Packet578::PlayCreativeInventoryAction(b) => PlayCreativeInventoryActionSpec::encodable(b.model()),
            Packet578::PlayUpdateJigsawBlock(b) => PlayUpdateJigsawBlockSpec::encodable(b.model()),
            Packet578::PlayUpdateStructureBlock(b) => PlayUpdateStructureBlockSpec::encodable(b.model()),
            Packet578::PlayUpdateSign(b) => PlayUpdateSignSpec::encodable(b.model()),
            Packet578::PlayClientAnimation(b) => PlayClientAnimationSpec::encodable(b.model()),
            Packet578::PlaySpectate(b) => PlaySpectateSpec::encodable(b.model()),
            Packet578::PlayBlockPlacement(b) => PlayBlockPlacementSpec::encodable(b.model()),
            Packet578::PlayUseItem(b) => PlayUseItemSpec::encodable(b.model()),
        }
    }

    pub open spec fn spec_body_of(p: Packet578) -> Seq<u8> {
        match p {
            Packet578::Handshake(b) => HandshakeSpec::spec_serialize(b.model()),
            Packet578::StatusRequest(b) => StatusRequestSpec::spec_serialize(b.model()),
            Packet578::StatusPing(b) => StatusPingSpec::spec_serialize(b.model()),
            Packet578::StatusResponse(b) => StatusResponseSpec::spec_serialize(b.model()),
            Packet578::StatusPong(b) => StatusPongSpec::spec_serialize(b.model()),
            Packet578::LoginDisconnect(b) => LoginDisconnectSpec::spec_serialize(b.model()),
            Packet578::LoginEncryptionRequest(b) => LoginEncryptionRequestSpec::spec_serialize(b.model()),
            Packet578::LoginSuccess(b) => LoginSuccessSpec::spec_serialize(b.model()),
            Packet578::LoginSetCompression(b) => LoginSetCompressionSpec::spec_serialize(b.model()),
            Packet578::LoginPluginRequest(b) => LoginPluginRequestSpec::spec_serialize(b.spec_model()),
            Packet578::LoginStart(b) => LoginStartSpec::spec_serialize(b.model()),
            Packet578::LoginEncryptionResponse(b) => LoginEncryptionResponseSpec::spec_serialize(b.model()),
            Packet578::LoginPluginResponse(b) => LoginPluginResponseSpec::spec_serialize(b.spec_model()),
            Packet578::PlaySpawnEntity(b) => PlaySpawnEntitySpec::spec_serialize(b.model()),
            Packet578::PlaySpawnExperienceOrb(b) => PlaySpawnExperienceOrbSpec::spec_serialize(b.model()),
            Packet578::PlaySpawnWeatherEntity(b) => PlaySpawnWeatherEntitySpec::spec_serialize(b.model()),
            Packet578::PlaySpawnLivingEntity(b) => PlaySpawnLivingEntitySpec::spec_serialize(b.model()),
            Packet578::PlaySpawnPainting(b) => PlaySpawnPaintingSpec::spec_serialize(b.model()),
            Packet578::PlaySpawnPlayer(b) => PlaySpawnPlayerSpec::spec_serialize(b.model()),
            Packet578::PlayEntityAnimation(b) => PlayEntityAnimationSpec::spec_serialize(b.model()),
            Packet578::PlayStatistics(b) => PlayStatisticsSpec::spec_serialize(b.model()),
            Packet578::PlayAcknowledgePlayerDigging(b) => PlayAcknowledgePlayerDiggingSpec::spec_serialize(b.model()),
            Packet578::PlayBlockBreakAnimation(b) => PlayBlockBreakAnimationSpec::spec_serialize(b.model()),
            Packet578::PlayBlockEntityData(b) => PlayBlockEntityDataSpec::spec_serialize(b.model()),
            Packet578::PlayBlockAction(b) => PlayBlockActionSpec::spec_serialize(b.model()),
            Packet578::PlayBlockChange(b) => PlayBlockChangeSpec::spec_serialize(b.model()),
            Packet578::PlayBossBar(b) => PlayBossBarSpec::spec_serialize(b.model()),
            Packet578::PlayServerDifficulty(b) => PlayServerDifficultySpec::spec_serialize(b.model()),
            Packet578::PlayServerChatMessage(b) => PlayServerChatMessageSpec::spec_serialize(b.model()),
            Packet578::PlayMultiBlockChange(b) => PlayMultiBlockChangeSpec::spec_serialize(b.model()),
            Packet578::PlayTabComplete(b) => PlayTabCompleteSpec::spec_serialize(b.model()),
            Packet578::PlayDeclareCommands(b) => PlayDeclareCommandsSpec::spec_serialize(b.model()),
            Packet578::PlayServerWindowConfirmation(b) => PlayServerWindowConfirmationSpec::spec_serialize(b.model()),
            Packet578::PlayServerCloseWindow(b) => PlayServerCloseWindowSpec::spec_serialize(b.model()),
            Packet578::PlayWindowItems(b) => PlayWindowItemsSpec::spec_serialize(b.model()),
            Packet578::PlayWindowProperty(b) => PlayWindowPropertySpec::spec_serialize(b.model()),
            Packet578::PlaySetSlot(b) => PlaySetSlotSpec::spec_serialize(b.model()),
            Packet578::PlaySetCooldown(b) => PlaySetCooldownSpec::spec_serialize(b.model()),
            Packet578::PlayServerPluginMessage(b) => PlayServerPluginMessageSpec::spec_serialize(b.spec_model()),
            Packet578::PlayNamedSoundEffect(b) => PlayNamedSoundEffectSpec::spec_serialize(b.model()),
            Packet578::PlayDisconnect(b) => PlayDisconnectSpec::spec_serialize(b.model()),
            Packet578::PlayEntityStatus(b) => PlayEntityStatusSpec::spec_serialize(b.model()),
            Packet578::PlayExplosion(b) => PlayExplosionSpec::spec_serialize(b.model()),
            Packet578::PlayUnloadChunk(b) => PlayUnloadChunkSpec::spec_serialize(b.model()),
            Packet578::PlayChangeGameState(b) => PlayChangeGameStateSpec::spec_serialize(b.model()),
            Packet578::PlayOpenHorseWindow(b) => PlayOpenHorseWindowSpec::spec_serialize(b.model()),
            Packet578::PlayServerKeepAlive(b) => PlayServerKeepAliveSpec::spec_serialize(b.model()),
            Packet578::PlayChunkData(b) => PlayChunkDataWrapper::spec_serialize(b.model()),
            Packet578::PlayEffect(b) => PlayEffectSpec::spec_serialize(b.model()),
            Packet578::PlayParticle(b) => PlayParticleSpec::spec_serialize(b.spec_model()),
            Packet578::PlayUpdateLight(b) => PlayUpdateLightSpec::spec_serialize(b.model()),
            Packet578::PlayJoinGame(b) => PlayJoinGameSpec::spec_serialize(b.model()),
            Packet578::PlayMapData(b) => PlayMapDataSpec::spec_serialize(b.model()),
            Packet578::PlayTradeList(b) => PlayTradeListSpec::spec_serialize(b.model()),
            Packet578::PlayEntityPosition(b) => PlayEntityPositionSpec::spec_serialize(b.model()),
            Packet578::PlayEntityPositionAndRotation(b) => PlayEntityPositionAndRotationSpec::spec_serialize(b.model()),
            Packet578::PlayEntityRotation(b) => PlayEntityRotationSpec::spec_serialize(b.model()),
            Packet578::PlayEntityMovement(b) => PlayEntityMovementSpec::spec_serialize(b.model()),
            Packet578::PlayServerVehicleMove(b) => PlayEntityVehicleMoveSpec::spec_serialize(b.model()),
            Packet578::PlayOpenBook(b) => PlayOpenBookSpec::spec_serialize(b.model()),
            Packet578::PlayOpenWindow(b) => PlayOpenWindowSpec::spec_serialize(b.model()),
            Packet578::PlayOpenSignEditor(b) => PlayOpenSignEditorSpec::spec_serialize(b.model()),
            Packet578::PlayCraftRecipeResponse(b) => PlayCraftRecipeResponseSpec::spec_serialize(b.model()),
            Packet578::PlayServerPlayerAbilities(b) => PlayServerPlayerAbilitiesSpec::spec_serialize(b.model()),
            Packet578::PlayCombatEvent(b) => PlayCombatEventSpec::spec_serialize(b.model()),
            Packet578::PlayPlayerInfo(b) => PlayPlayerInfoSpec::spec_serialize(b.model()),
            Packet578::PlayFacePlayer(b) => PlayFacePlayerSpec::spec_serialize(b.model()),
            Packet578::PlayServerPlayerPositionAndLook(b) => PlayServerPlayerPositionAndLookSpec::spec_serialize(b.model()),
            Packet578::PlayUnlockRecipes(b) => PlayUnlockRecipesSpec::spec_serialize(b.spec_model()),
            Packet578::PlayDestroyEntities(b) => PlayDestroyEntitiesSpec::spec_serialize(b.model()),
            Packet578::PlayRemoveEntityEffect(b) => PlayRemoveEntityEffectSpec::spec_serialize(b.model()),
            Packet578::PlayResourcePackSend(b) => PlayResourcePackSendSpec::spec_serialize(b.model()),
            Packet578::PlayRespawn(b) => PlayRespawnSpec::spec_serialize(b.model()),
            Packet578::PlayEntityHeadLook(b) => PlayEntityHeadLookSpec::spec_serialize(b.model()),
            Packet578::PlaySelectAdvancementTab(b) => PlaySelectAdvancementTabSpec::spec_serialize(b.model()),
            Packet578::PlayWorldBorder(b) => PlayWorldBorderSpec::spec_serialize(b.model()),
            Packet578::PlayCamera(b) => PlayCameraSpec::spec_serialize(b.model()),
            Packet578::PlayServerHeldItemChange(b) => PlayServerHeldItemChangeSpec::spec_serialize(b.model()),
            Packet578::PlayUpdateViewPosition(b) => PlayUpdateViewPositionSpec::spec_serialize(b.model()),
            Packet578::PlayUpdateViewDistance(b) => PlayUpdateViewDistanceSpec::spec_serialize(b.model()),
            Packet578::PlayDisplayScoreboard(b) => PlayDisplayScoreboardSpec::spec_serialize(b.model()),
            Packet578::PlayEntityMetadata(b) => PlayEntityMetadataSpec::spec_serialize(b.model()),
            Packet578::PlayAttachEntity(b) => PlayAttachEntitySpec::spec_serialize(b.model()),
            Packet578::PlayEntityVelocity(b) => PlayEntityVelocitySpec::spec_serialize(b.model()),
            Packet578::PlayEntityEquipment(b) => PlayEntityEquiptmentSpec::spec_serialize(b.model()),
            Packet578::PlaySetExperience(b) => PlaySetExperienceSpec::spec_serialize(b.model()),
            Packet578::PlayUpdatehealth(b) => PlayUpdateHealthSpec::spec_serialize(b.model()),
            Packet578::PlayScoreboardObjective(b) => PlayScoreboardObjectiveSpec::spec_serialize(b.model()),
            Packet578::PlaySetPassengers(b) => PlaySetPassengersSpec::spec_serialize(b.model()),
            Packet578::PlayTeams(b) => PlayTeamsSpec::spec_serialize(b.model()),
            Packet578::PlayUpdateScore(b) => PlayUpdateScoreSpec::spec_serialize(b.model()),
            Packet578::PlaySpawnPosition(b) => PlaySpawnPositionSpec::spec_serialize(b.model()),
            Packet578::PlayTimeUpdate(b) => PlayTimeUpdateSpec::spec_serialize(b.model()),
            Packet578::PlayTitle(b) => PlayTitleSpec::spec_serialize(b.model()),
            Packet578::PlayEntitySoundEffect(b) => PlayEntitySoundEffectSpec::spec_serialize(b.model()),
            Packet578::PlaySoundEffect(b) => PlaySoundEffectSpec::spec_serialize(b.model()),
            Packet578::PlayStopSound(b) => PlayStopSoundSpec::spec_serialize(b.model()),
            Packet578::PlayerPlayerListHeaderAndFooter(b) => PlayPlayerListHeaderAndFooterSpec::spec_serialize(b.model()),
            Packet578::PlayNbtQueryResponse(b) => PlayNbtQueryResponseSpec::spec_serialize(b.model()),
            Packet578::PlayCollectItem(b) => PlayCollectItemSpec::spec_serialize(b.model()),
            Packet578::PlayEntityTeleport(b) => PlayEntityTeleportSpec::spec_serialize(b.model()),
            Packet578::PlayAdvancements(b) => PlayAdvancementsSpec::spec_serialize(b.model()),
            Packet578::PlayEntityProperties(b) => PlayEntityPropertiesSpec::spec_serialize(b.model()),
            Packet578::PlayEntityEffect(b) => PlayEntityEffectSpec::spec_serialize(b.model()),
            Packet578::PlayDeclareRecipes(b) => PlayDeclareRecipesSpec::spec_serialize(b.model()),
            Packet578::PlayTags(b) => PlayTagsSpec::spec_serialize(b.model()),
            Packet578::PlayTeleportConfirm(b) => PlayTeleportConfirmSpec::spec_serialize(b.model()),
            Packet578::PlayQueryBlockNbt(b) => PlayQueryBlockNbtSpec::spec_serialize(b.model()),
            Packet578::PlayQueryEntityNbt(b) => PlayQueryEntityNbtSpec::spec_serialize(b.model()),
            Packet578::PlaySetDifficulty(b) => PlaySetDifficultySpec::spec_serialize(b.model()),
            Packet578::PlayClientChatMessage(b) => PlayClientChatMessageSpec::spec_serialize(b.model()),
            Packet578::PlayClientStatus(b) => PlayClientStatusSpec::spec_serialize(b.model()),
            Packet578::PlayClientSettings(b) => PlayClientSettingsSpec::spec_serialize(b.model()),
            Packet578::PlayClientTabComplete(b) => PlayClientTabCompleteSpec::spec_serialize(b.model()),
            Packet578::PlayClientWindowConfirmation(b) => PlayClientWindowConfirmationSpec::spec_serialize(b.model()),
            Packet578::PlayClickWindowButton(b) => PlayClickWindowButtonSpec::spec_serialize(b.model()),
            Packet578::PlayClickWindow(b) => PlayClickWindowSpec::spec_serialize(b.model()),
            Packet578::PlayClientCloseWindow(b) => PlayClientCloseWindowSpec::spec_serialize(b.model()),
            Packet578::PlayClientPluginMessage(b) => PlayClientPluginMessageSpec::spec_serialize(b.spec_model()),
            Packet578::PlayEditBook(b) => PlayEditBookSpec::spec_serialize(b.model()),
            Packet578::PlayInteractEntity(b) => PlayInteractEntitySpec::spec_serialize(b.model()),
            Packet578::PlayClientKeepAlive(b) => PlayClientKeepAliveSpec::spec_serialize(b.model()),
            Packet578::PlayLockDifficulty(b) => PlayLockDifficultySpec::spec_serialize(b.model()),
            Packet578::PlayPlayerPosition(b) => PlayPlayerPositionSpec::spec_serialize(b.model()),
            Packet578::PlayClientPlayerPositionAndRotation(b) => PlayClientPlayerPositionAndRotationSpec::spec_serialize(b.model()),
            Packet578::PlayPlayerRotation(b) => PlayPlayerRotationSpec::spec_serialize(b.model()),
            Packet578::PlayPlayerMovement(b) => PlayPlayerMovementSpec::spec_serialize(b.model()),
            Packet578::PlayClientVehicleMove(b) => PlayClientVehicleMoveSpec::spec_serialize(b.model()),
            Packet578::PlaySteerBoat(b) => PlaySteerBoatSpec::spec_serialize(b.model()),
            Packet578::PlayPickItem(b) => PlayPickItemSpec::spec_serialize(b.model()),
            Packet578::PlayCraftRecipeRequest(b) => PlayCraftRecipeRequestSpec::spec_serialize(b.model()),
            Packet578::PlayClientPlayerAbilities(b) => PlayClientPlayerAbilitiesSpec::spec_serialize(b.model()),
            Packet578::PlayPlayerDigging(b) => PlayPlayerDiggingSpec::spec_serialize(b.model()),
            Packet578::PlayEntityAction(b) => PlayEntityActionSpec::spec_serialize(b.model()),
            Packet578::PlaySteerVehicle(b) => PlaySteerVehicleSpec::spec_serialize(b.model()),
            Packet578::PlayRecipeBookData(b) => PlayRecipeBookDataSpec::spec_serialize(b.model()),
            Packet578::PlayNameItem(b) => PlayNameItemSpec::spec_serialize(b.model()),
            Packet578::PlayResourcePackStatus(b) => PlayResourcePackStatusSpec::spec_serialize(b.model()),
            Packet578::PlayAdvancementTab(b) => PlayAdvancementTabSpec::spec_serialize(b.model()),
            Packet578::PlaySelectTrade(b) => PlaySelectTradeSpec::spec_serialize(b.model()),
            Packet578::PlaySetBeaconEffect(b) => PlaySetBeaconEffectSpec::spec_serialize(b.model()),
            Packet578::PlayClientHeldItemChange(b) => PlayClientHeldItemChangeSpec::spec_serialize(b.model()),
            Packet578::PlayUpdateCommandBlock(b) => PlayUpdateCommandBlockSpec::spec_serialize(b.model()),
            Packet578::PlayUpdateCommandBlockMinecart(b) => PlayUpdateCommandBlockMinecartSpec::spec_serialize(b.model()),
            Packet578::PlayCreativeInventoryAction(b) => PlayCreativeInventoryActionSpec::spec_serialize(b.model()),
            Packet578::PlayUpdateJigsawBlock(b) => PlayUpdateJigsawBlockSpec::spec_serialize(b.model()),
            Packet578::PlayUpdateStructureBlock(b) => PlayUpdateStructureBlockSpec::spec_serialize(b.model()),
            Packet578::PlayUpdateSign(b) => PlayUpdateSignSpec::spec_serialize(b.model()),
            Packet578::PlayClientAnimation(b) => PlayClientAnimationSpec::spec_serialize(b.model()),
            Packet578::PlaySpectate(b) => PlaySpectateSpec::spec_serialize(b.model()),
            Packet578::PlayBlockPlacement(b) => PlayBlockPlacementSpec::spec_serialize(b.model()),
            Packet578::PlayUseItem(b) => PlayUseItemSpec::spec_serialize(b.model()),
        }
    }

    /// What the frame of a message holds, said of the message itself and of
    /// its model alike.
    #[verifier::rlimit(100)]
    #[verifier::spinoff_prover]
    pub proof fn lemma_frame_of(p: Packet578)
        ensures
            Self::encodable_of(p) == Self::encodable(p.model()),
            Self::spec_body_of(p) == Self::spec_body(p.model()),
    {
        match p {
            Packet578::Handshake(_) => {},
            Packet578::StatusRequest(_) => {},
            Packet578::StatusPing(_) => {},
            Packet578::StatusResponse(_) => {},
            Packet578::StatusPong(_) => {},
            Packet578::LoginDisconnect(_) => {},
            Packet578::LoginEncryptionRequest(_) => {},
            Packet578::LoginSuccess(_) => {},
            Packet578::LoginSetCompression(_) => {},
            Packet578::LoginPluginRequest(_) => {},
            Packet578::LoginStart(_) => {},
            Packet578::LoginEncryptionResponse(_) => {},
            Packet578::LoginPluginResponse(_) => {},
            Packet578::PlaySpawnEntity(_) => {},
            Packet578::PlaySpawnExperienceOrb(_) => {},
            Packet578::PlaySpawnWeatherEntity(_) => {},
            Packet578::PlaySpawnLivingEntity(_) => {},
            Packet578::PlaySpawnPainting(_) => {},
            Packet578::PlaySpawnPlayer(_) => {},
            Packet578::PlayEntityAnimation(_) => {},
            Packet578::PlayStatistics(_) => {},
            Packet578::PlayAcknowledgePlayerDigging(_) => {},
            Packet578::PlayBlockBreakAnimation(_) => {},
            Packet578::PlayBlockEntityData(_) => {},
            Packet578::PlayBlockAction(_) => {},
            Packet578::PlayBlockChange(_) => {},
            Packet578::PlayBossBar(_) => {},
            Packet578::PlayServerDifficulty(_) => {},
            Packet578::PlayServerChatMessage(_) => {},
            Packet578::PlayMultiBlockChange(_) => {},
            Packet578::PlayTabComplete(_) => {},
            Packet578::PlayDeclareCommands(_) => {},
            Packet578::PlayServerWindowConfirmation(_) => {},
            Packet578::PlayServerCloseWindow(_) => {},
            Packet578::PlayWindowItems(_) => {},
            Packet578::PlayWindowProperty(_) => {},
            Packet578::PlaySetSlot(_) => {},
            Packet578::PlaySetCooldown(_) => {},
            Packet578::PlayServerPluginMessage(_) => {},
            Packet578::PlayNamedSoundEffect(_) => {},
            Packet578::PlayDisconnect(_) => {},
            Packet578::PlayEntityStatus(_) => {},
            Packet578::PlayExplosion(_) => {},
            Packet578::PlayUnloadChunk(_) => {},
            Packet578::PlayChangeGameState(_) => {},
            Packet578::PlayOpenHorseWindow(_) => {},
            Packet578::PlayServerKeepAlive(_) => {},
            Packet578::PlayChunkData(_) => {},
            Packet578::PlayEffect(_) => {},
            Packet578::PlayParticle(_) => {},
            Packet578::PlayUpdateLight(_) => {},
            Packet578::PlayJoinGame(_) => {},
            Packet578::PlayMapData(_) => {},
            Packet578::PlayTradeList(_) => {},
            Packet578::PlayEntityPosition(_) => {},
            Packet578::PlayEntityPositionAndRotation(_) => {},
            Packet578::PlayEntityRotation(_) => {},
            Packet578::PlayEntityMovement(_) => {},
            Packet578::PlayServerVehicleMove(_) => {},
            Packet578::PlayOpenBook(_) => {},
            Packet578::PlayOpenWindow(_) => {},
            Packet578::PlayOpenSignEditor(_) => {},
            Packet578::PlayCraftRecipeResponse(_) => {},
            Packet578::PlayServerPlayerAbilities(_) => {},
            Packet578::PlayCombatEvent(_) => {},
            Packet578::PlayPlayerInfo(_) => {},
            Packet578::PlayFacePlayer(_) => {},
            Packet578::PlayServerPlayerPositionAndLook(_) => {},
            Packet578::PlayUnlockRecipes(_) => {},
            Packet578::PlayDestroyEntities(_) => {},
            Packet578::PlayRemoveEntityEffect(_) => {},
            Packet578::PlayResourcePackSend(_) => {},
            Packet578::PlayRespawn(_) => {},
            Packet578::PlayEntityHeadLook(_) => {},
            Packet578::PlaySelectAdvancementTab(_) => {},
            Packet578::PlayWorldBorder(_) => {},
            Packet578::PlayCamera(_) => {},
            Packet578::PlayServerHeldItemChange(_) => {},
            Packet578::PlayUpdateViewPosition(_) => {},
            Packet578::PlayUpdateViewDistance(_) => {},
            Packet578::PlayDisplayScoreboard(_) => {},
            Packet578::PlayEntityMetadata(_) => {},
            Packet578::PlayAttachEntity(_) => {},
            Packet578::PlayEntityVelocity(_) => {},
            Packet578::PlayEntityEquipment(_) => {},
            Packet578::PlaySetExperience(_) => {},
            Packet578::PlayUpdatehealth(_) => {},
            Packet578::PlayScoreboardObjective(_) => {},
            Packet578::PlaySetPassengers(_) => {},
            Packet578::PlayTeams(_) => {},
            Packet578::PlayUpdateScore(_) => {},
            Packet578::PlaySpawnPosition(_) => {},
            Packet578::PlayTimeUpdate(_) => {},
            Packet578::PlayTitle(_) => {},
            Packet578::PlayEntitySoundEffect(_) => {},
            Packet578::PlaySoundEffect(_) => {},
            Packet578::PlayStopSound(_) => {},
            Packet578::PlayerPlayerListHeaderAndFooter(_) => {},
            Packet578::PlayNbtQueryResponse(_) => {},
            Packet578::PlayCollectItem(_) => {},
            Packet578::PlayEntityTeleport(_) => {},
            Packet578::PlayAdvancements(_) => {},
            Packet578::PlayEntityProperties(_) => {},
            Packet578::PlayEntityEffect(_) => {},
            Packet578::PlayDeclareRecipes(_) => {},
            Packet578::PlayTags(_) => {},
            Packet578::PlayTeleportConfirm(_) => {},
            Packet578::PlayQueryBlockNbt(_) => {},
            Packet578::PlayQueryEntityNbt(_) => {},
            Packet578::PlaySetDifficulty(_) => {},
            Packet578::PlayClientChatMessage(_) => {},
            Packet578::PlayClientStatus(_) => {},
            Packet578::PlayClientSettings(_) => {},
            Packet578::PlayClientTabComplete(_) => {},
            Packet578::PlayClientWindowConfirmation(_) => {},
            Packet578::PlayClickWindowButton(_) => {},
            Packet578::PlayClickWindow(_) => {},
            Packet578::PlayClientCloseWindow(_) => {},
            Packet578::PlayClientPluginMessage(_) => {},
            Packet578::PlayEditBook(_) => {},
            Packet578::PlayInteractEntity(_) => {},
            Packet578::PlayClientKeepAlive(_) => {},
            Packet578::PlayLockDifficulty(_) => {},
            Packet578::PlayPlayerPosition(_) => {},
            Packet578::PlayClientPlayerPositionAndRotation(_) => {},
            Packet578::PlayPlayerRotation(_) => {},
            Packet578::PlayPlayerMovement(_) => {},
            Packet578::PlayClientVehicleMove(_) => {},
            Packet578::PlaySteerBoat(_) => {},
            Packet578::PlayPickItem(_) => {},
            Packet578::PlayCraftRecipeRequest(_) => {},
            Packet578::PlayClientPlayerAbilities(_) => {},
            Packet578::PlayPlayerDigging(_) => {},
            Packet578::PlayEntityAction(_) => {},
            Packet578::PlaySteerVehicle(_) => {},
            Packet578::PlayRecipeBookData(_) => {},
            Packet578::PlayNameItem(_) => {},
            Packet578::PlayResourcePackStatus(_) => {},
            Packet578::PlayAdvancementTab(_) => {},
            Packet578::PlaySelectTrade(_) => {},
            Packet578::PlaySetBeaconEffect(_) => {},
            Packet578::PlayClientHeldItemChange(_) => {},
            Packet578::PlayUpdateCommandBlock(_) => {},
            Packet578::PlayUpdateCommandBlockMinecart(_) => {},
            Packet578::PlayCreativeInventoryAction(_) => {},
            Packet578::PlayUpdateJigsawBlock(_) => {},
            Packet578::PlayUpdateStructureBlock(_) => {},
            Packet578::PlayUpdateSign(_) => {},
            Packet578::PlayClientAnimation(_) => {},
            Packet578::PlaySpectate(_) => {},
            Packet578::PlayBlockPlacement(_) => {},
            Packet578::PlayUseItem(_) => {},
        }
    }

    /// The raw frame that carries this message: the id the registry gives
    /// its shape, and the body's bytes.
    #[verifier::rlimit(100)]
    #[verifier::spinoff_prover]
    pub fn to_raw(&self) -> (r: RawPacket)
        requires
            Self::encodable_of(*self),
        ensures
            r.id.0 == Self::spec_key(self.model()).2,
            r.body@ == Self::spec_body_of(*self),
    {
        let (_, _, id) = self.key();
        let mut body: Vec<u8> = Vec::new();
        match self {
            Packet578::Handshake(b) => b.mc_serialize(&mut body),
            Packet578::StatusRequest(b) => b.mc_serialize(&mut body),
            Packet578::StatusPing(b) => b.mc_serialize(&mut body),
            Packet578::StatusResponse(b) => b.mc_serialize(&mut body),
            Packet578::StatusPong(b) => b.mc_serialize(&mut body),
            Packet578::LoginDisconnect(b) => b.mc_serialize(&mut body),
            Packet578::LoginEncryptionRequest(b) => b.mc_serialize(&mut body),
            Packet578::LoginSuccess(b) => b.mc_serialize(&mut body),
            Packet578::LoginSetCompression(b) => b.mc_serialize(&mut body),
            Packet578::LoginPluginRequest(b) => b.mc_serialize(&mut body),
            Packet578::LoginStart(b) => b.mc_serialize(&mut body),
            Packet578::LoginEncryptionResponse(b) => b.mc_serialize(&mut body),
            Packet578::LoginPluginResponse(b) => b.mc_serialize(&mut body),
            Packet578::PlaySpawnEntity(b) => b.mc_serialize(&mut body),
            Packet578::PlaySpawnExperienceOrb(b) => b.mc_serialize(&mut body),
            Packet578::PlaySpawnWeatherEntity(b) => b.mc_serialize(&mut body),
            Packet578::PlaySpawnLivingEntity(b) => b.mc_serialize(&mut body),
            Packet578::PlaySpawnPainting(b) => b.mc_serialize(&mut body),
            Packet578::PlaySpawnPlayer(b) => b.mc_serialize(&mut body),
            Packet578::PlayEntityAnimation(b) => b.mc_serialize(&mut body),
            Packet578::PlayStatistics(b) => b.mc_serialize(&mut body),
            Packet578::PlayAcknowledgePlayerDigging(b) => b.mc_serialize(&mut body),
            Packet578::PlayBlockBreakAnimation(b) => b.mc_serialize(&mut body),
            Packet578::PlayBlockEntityData(b) => b.mc_serialize(&mut body),
            Packet578::PlayBlockAction(b) => b.mc_serialize(&mut body),
            Packet578::PlayBlockChange(b) => b.mc_serialize(&mut body),
            Packet578::PlayBossBar(b) => b.mc_serialize(&mut body),
            Packet578::PlayServerDifficulty(b) => b.mc_serialize(&mut body),
            Packet578::PlayServerChatMessage(b) => b.mc_serialize(&mut body),
            Packet578::PlayMultiBlockChange(b) => b.mc_serialize(&mut body),
            Packet578::PlayTabComplete(b) => b.mc_serialize(&mut body),
            Packet578::PlayDeclareCommands(b) => b.mc_serialize(&mut body),
            Packet578::PlayServerWindowConfirmation(b) => b.mc_serialize(&mut body),
            Packet578::PlayServerCloseWindow(b) => b.mc_serialize(&mut body),
            Packet578::PlayWindowItems(b) => b.mc_serialize(&mut body),
            Packet578::PlayWindowProperty(b) => b.mc_serialize(&mut body),
            Packet578::PlaySetSlot(b) => b.mc_serialize(&mut body),
            Packet578::PlaySetCooldown(b) => b.mc_serialize(&mut body),
            Packet578::PlayServerPluginMessage(b) => b.mc_serialize(&mut body),
            Packet578::PlayNamedSoundEffect(b) => b.mc_serialize(&mut body),
            Packet578::PlayDisconnect(b) => b.mc_serialize(&mut body),
            Packet578::PlayEntityStatus(b) => b.mc_serialize(&mut body),
            Packet578::PlayExplosion(b) => b.mc_serialize(&mut body),
            Packet578::PlayUnloadChunk(b) => b.mc_serialize(&mut body),
            Packet578::PlayChangeGameState(b) => b.mc_serialize(&mut body),
            Packet578::PlayOpenHorseWindow(b) => b.mc_serialize(&mut body),
            Packet578::PlayServerKeepAlive(b) => b.mc_serialize(&mut body),
            Packet578::PlayChunkData(b) => b.mc_serialize(&mut body),
            Packet578::PlayEffect(b) => b.mc_serialize(&mut body),
            Packet578::PlayParticle(b) => b.mc_serialize(&mut body),
            Packet578::PlayUpdateLight(b) => b.mc_serialize(&mut body),
            Packet578::PlayJoinGame(b) => b.mc_serialize(&mut body),
            Packet578::PlayMapData(b) => b.mc_serialize(&mut body),
            Packet578::PlayTradeList(b) => b.mc_serialize(&mut body),
            Packet578::PlayEntityPosition(b) => b.mc_serialize(&mut body),
            Packet578::PlayEntityPositionAndRotation(b) => b.mc_serialize(&mut body),
            Packet578::PlayEntityRotation(b) => b.mc_serialize(&mut body),
            Packet578::PlayEntityMovement(b) => b.mc_serialize(&mut body),
            Packet578::PlayServerVehicleMove(b) => b.mc_serialize(&mut body),
            Packet578::PlayOpenBook(b) => b.mc_serialize(&mut body),
            Packet578::PlayOpenWindow(b) => b.mc_serialize(&mut body),
            Packet578::PlayOpenSignEditor(b) => b.mc_serialize(&mut body),
            Packet578::PlayCraftRecipeResponse(b) => b.mc_serialize(&mut body),
            Packet578::PlayServerPlayerAbilities(b) => b.mc_serialize(&mut body),
            Packet578::PlayCombatEvent(b) => b.mc_serialize(&mut body),
            Packet578::PlayPlayerInfo(b) => b.mc_serialize(&mut body),
            Packet578::PlayFacePlayer(b) => b.mc_serialize(&mut body),
            Packet578::PlayServerPlayerPositionAndLook(b) => b.mc_serialize(&mut body),
            Packet578::PlayUnlockRecipes(b) => b.mc_serialize(&mut body),
            Packet578::PlayDestroyEntities(b) => b.mc_serialize(&mut body),
            Packet578::PlayRemoveEntityEffect(b) => b.mc_serialize(&mut body),
            Packet578::PlayResourcePackSend(b) => b.mc_serialize(&mut body),
            Packet578::PlayRespawn(b) => b.mc_serialize(&mut body),
            Packet578::PlayEntityHeadLook(b) => b.mc_serialize(&mut body),
            Packet578::PlaySelectAdvancementTab(b) => b.mc_serialize(&mut body),
            Packet578::PlayWorldBorder(b) => b.mc_serialize(&mut body),
            Packet578::PlayCamera(b) => b.mc_serialize(&mut body),
            Packet578::PlayServerHeldItemChange(b) => b.mc_serialize(&mut body),
            Packet578::PlayUpdateViewPosition(b) => b.mc_serialize(&mut body),
            Packet578::PlayUpdateViewDistance(b) => b.mc_serialize(&mut body),
            Packet578::PlayDisplayScoreboard(b) => b.mc_serialize(&mut body),
            Packet578::PlayEntityMetadata(b) => b.mc_serialize(&mut body),
            Packet578::PlayAttachEntity(b) => b.mc_serialize(&mut body),
            Packet578::PlayEntityVelocity(b) => b.mc_serialize(&mut body),
            Packet578::PlayEntityEquipment(b) => b.mc_serialize(&mut body),
            Packet578::PlaySetExperience(b) => b.mc_serialize(&mut body),
            Packet578::PlayUpdatehealth(b) => b.mc_serialize(&mut body),
            Packet578::PlayScoreboardObjective(b) => b.mc_serialize(&mut body),
            Packet578::PlaySetPassengers(b) => b.mc_serialize(&mut body),
            Packet578::PlayTeams(b) => b.mc_serialize(&mut body),
            Packet578::PlayUpdateScore(b) => b.mc_serialize(&mut body),
            Packet578::PlaySpawnPosition(b) => b.mc_serialize(&mut body),
            Packet578::PlayTimeUpdate(b) => b.mc_serialize(&mut body),
            Packet578::PlayTitle(b) => b.mc_serialize(&mut body),
            Packet578::PlayEntitySoundEffect(b) => b.mc_serialize(&mut body),
            Packet578::PlaySoundEffect(b) => b.mc_serialize(&mut body),
            Packet578::PlayStopSound(b) => b.mc_serialize(&mut body),
            Packet578::PlayerPlayerListHeaderAndFooter(b) => b.mc_serialize(&mut body),
            Packet578::PlayNbtQueryResponse(b) => b.mc_serialize(&mut body),
            Packet578::PlayCollectItem(b) => b.mc_serialize(&mut body),
            Packet578::PlayEntityTeleport(b) => b.mc_serialize(&mut body),
            Packet578::PlayAdvancements(b) => b.mc_serialize(&mut body),
            Packet578::PlayEntityProperties(b) => b.mc_serialize(&mut body),
            Packet578::PlayEntityEffect(b) => b.mc_serialize(&mut body),
            Packet578::PlayDeclareRecipes(b) => b.mc_serialize(&mut body),
            Packet578::PlayTags(b) => b.mc_serialize(&mut body),
            Packet578::PlayTeleportConfirm(b) => b.mc_serialize(&mut body),
            Packet578::PlayQueryBlockNbt(b) => b.mc_serialize(&mut body),
            Packet578::PlayQueryEntityNbt(b) => b.mc_serialize(&mut body),
            Packet578::PlaySetDifficulty(b) => b.mc_serialize(&mut body),
            Packet578::PlayClientChatMessage(b) => b.mc_serialize(&mut body),
            Packet578::PlayClientStatus(b) => b.mc_serialize(&mut body),
            Packet578::PlayClientSettings(b) => b.mc_serialize(&mut body),
            Packet578::PlayClientTabComplete(b) => b.mc_serialize(&mut body),
            Packet578::PlayClientWindowConfirmation(b) => b.mc_serialize(&mut body),
            Packet578::PlayClickWindowButton(b) => b.mc_serialize(&mut body),
            Packet578::PlayClickWindow(b) => b.mc_serialize(&mut body),
            Packet578::PlayClientCloseWindow(b) => b.mc_serialize(&mut body),
            Packet578::PlayClientPluginMessage(b) => b.mc_serialize(&mut body),
            Packet578::PlayEditBook(b) => b.mc_serialize(&mut body),
            Packet578::PlayInteractEntity(b) => b.mc_serialize(&mut body),
            Packet578::PlayClientKeepAlive(b) => b.mc_serialize(&mut body),
            Packet578::PlayLockDifficulty(b) => b.mc_serialize(&mut body),
            Packet578::PlayPlayerPosition(b) => b.mc_serialize(&mut body),
            Packet578::PlayClientPlayerPositionAndRotation(b) => b.mc_serialize(&mut body),
            Packet578::PlayPlayerRotation(b) => b.mc_serialize(&mut body),
            Packet578::PlayPlayerMovement(b) => b.mc_serialize(&mut body),
            Packet578::PlayClientVehicleMove(b) => b.mc_serialize(&mut body),
            Packet578::PlaySteerBoat(b) => b.mc_serialize(&mut body),
            Packet578::PlayPickItem(b) => b.mc_serialize(&mut body),
            Packet578::PlayCraftRecipeRequest(b) => b.mc_serialize(&mut body),
            Packet578::PlayClientPlayerAbilities(b) => b.mc_serialize(&mut body),
            Packet578::PlayPlayerDigging(b) => b.mc_serialize(&mut body),
            Packet578::PlayEntityAction(b) => b.mc_serialize(&mut body),
            Packet578::PlaySteerVehicle(b) => b.mc_serialize(&mut body),
            Packet578::PlayRecipeBookData(b) => b.mc_serialize(&mut body),
            Packet578::PlayNameItem(b) => b.mc_serialize(&mut body),
            Packet578::PlayResourcePackStatus(b) => b.mc_serialize(&mut body),
            Packet578::PlayAdvancementTab(b) => b.mc_serialize(&mut body),
            Packet578::PlaySelectTrade(b) => b.mc_serialize(&mut body),
            Packet578::PlaySetBeaconEffect(b) => b.mc_serialize(&mut body),
            Packet578::PlayClientHeldItemChange(b) => b.mc_serialize(&mut body),
            Packet578::PlayUpdateCommandBlock(b) => b.mc_serialize(&mut body),
            Packet578::PlayUpdateCommandBlockMinecart(b) => b.mc_serialize(&mut body),
            Packet578::PlayCreativeInventoryAction(b) => b.mc_serialize(&mut body),
            Packet578::PlayUpdateJigsawBlock(b) => b.mc_serialize(&mut body),
            Packet578::PlayUpdateStructureBlock(b) => b.mc_serialize(&mut body),
            Packet578::PlayUpdateSign(b) => b.mc_serialize(&mut body),
            Packet578::PlayClientAnimation(b) => b.mc_serialize(&mut body),
            Packet578::PlaySpectate(b) => b.mc_serialize(&mut body),
            Packet578::PlayBlockPlacement(b) => b.mc_serialize(&mut body),
            Packet578::PlayUseItem(b) => b.mc_serialize(&mut body),
        }
        RawPacket { id: VarInt(id), body }
    }

    /// The message that a raw frame carries in `state` and `direction`.
    #[verifier::rlimit(100)]
    #[verifier::spinoff_prover]
    pub fn from_raw(state: State, direction: PacketDirection, raw: &RawPacket) -> (r: Result<
        Packet578,
        DeserializeErr,
    >)
        ensures
            match r {
                Ok(p) => Self::spec_decode(state, direction, raw.id.0, raw.body@) == Ok::<
                    Packet578Model,
                    DeserializeErr,
                >(p.model()),
                Err(e) => Self::spec_decode(state, direction, raw.id.0, raw.body@) == Err::<
                    Packet578Model,
                    DeserializeErr,
                >(e),
            },
    {
        let id = raw.id.0;
        let body = raw.body.as_slice();
        match state {
            State::Handshaking => match direction {
                PacketDirection::ClientBound => from_raw_handshaking_clientbound(id, body),
                PacketDirection::ServerBound => from_raw_handshaking_serverbound(id, body),
            },
            State::Status => match direction {
                PacketDirection::ClientBound => from_raw_status_clientbound(id, body),
                PacketDirection::ServerBound => from_raw_status_serverbound(id, body),
            },
            State::Login => match direction {
                PacketDirection::ClientBound => from_raw_login_clientbound(id, body),
                PacketDirection::ServerBound => from_raw_login_serverbound(id, body),
            },
            State::Play => match direction {
                PacketDirection::ClientBound => from_raw_play_clientbound(id, body),
                PacketDirection::ServerBound => from_raw_play_serverbound(id, body),
            },
        }
    }

    /// A message reads back from the frame it is written to, in the state
    /// and direction the registry gives it.
    #[verifier::rlimit(100)]
    #[verifier::spinoff_prover]
    pub proof fn lemma_round_trip(m: Packet578Model)
        requires
            Self::legal(m),
        ensures
            Self::encodable(m),
            Self::spec_decode(Self::spec_key(m).0, Self::spec_key(m).1, Self::spec_key(m).2, Self::spec_body(m))
                == Ok::<Packet578Model, DeserializeErr>(m),
    {
        match m {
            Packet578Model::Handshake(v) => lemma_handshake(v),
            Packet578Model::StatusRequest(v) => lemma_status_request(v),
            Packet578Model::StatusPing(v) => lemma_status_ping(v),
            Packet578Model::StatusResponse(v) => lemma_status_response(v),
            Packet578Model::StatusPong(v) => lemma_status_pong(v),
            Packet578Model::LoginDisconnect(v) => lemma_login_disconnect(v),
            Packet578Model::LoginEncryptionRequest(v) => lemma_login_encryption_request(v),
            Packet578Model::LoginSuccess(v) => lemma_login_success(v),
            Packet578Model::LoginSetCompression(v) => lemma_login_set_compression(v),
            Packet578Model::LoginPluginRequest(v) => lemma_login_plugin_request(v),
            Packet578Model::LoginStart(v) => lemma_login_start(v),
            Packet578Model::LoginEncryptionResponse(v) => lemma_login_encryption_response(v),
            Packet578Model::LoginPluginResponse(v) => lemma_login_plugin_response(v),
            Packet578Model::PlaySpawnEntity(v) => lemma_play_spawn_entity(v),
            Packet578Model::PlaySpawnExperienceOrb(v) => lemma_play_spawn_experience_orb(v),
            Packet578Model::PlaySpawnWeatherEntity(v) => lemma_play_spawn_weather_entity(v),
            Packet578Model::PlaySpawnLivingEntity(v) => lemma_play_spawn_living_entity(v),
            Packet578Model::PlaySpawnPainting(v) => lemma_play_spawn_painting(v),
            Packet578Model::PlaySpawnPlayer(v) => lemma_play_spawn_player(v),
            Packet578Model::PlayEntityAnimation(v) => lemma_play_entity_animation(v),
            Packet578Model::PlayStatistics(v) => lemma_play_statistics(v),
            Packet578Model::PlayAcknowledgePlayerDigging(v) => lemma_play_acknowledge_player_digging(v),
            Packet578Model::PlayBlockBreakAnimation(v) => lemma_play_block_break_animation(v),
            Packet578Model::PlayBlockEntityData(v) => lemma_play_block_entity_data(v),
            Packet578Model::PlayBlockAction(v) => lemma_play_block_action(v),
            Packet578Model::PlayBlockChange(v) => lemma_play_block_change(v),
            Packet578Model::PlayBossBar(v) => lemma_play_boss_bar(v),
            Packet578Model::PlayServerDifficulty(v) => lemma_play_server_difficulty(v),
            Packet578Model::PlayServerChatMessage(v) => lemma_play_server_chat_message(v),
            Packet578Model::PlayMultiBlockChange(v) => lemma_play_multi_block_change(v),
            Packet578Model::PlayTabComplete(v) => lemma_play_tab_complete(v),
            Packet578Model::PlayDeclareCommands(v) => lemma_play_declare_commands(v),
            Packet578Model::PlayServerWindowConfirmation(v) => lemma_play_server_window_confirmation(v),
            Packet578Model::PlayServerCloseWindow(v) => lemma_play_server_close_window(v),
            Packet578Model::PlayWindowItems(v) => lemma_play_window_items(v),
            Packet578Model::PlayWindowProperty(v) => lemma_play_window_property(v),
            Packet578Model::PlaySetSlot(v) => lemma_play_set_slot(v),
            Packet578Model::PlaySetCooldown(v) => lemma_play_set_cooldown(v),
            Packet578Model::PlayServerPluginMessage(v) => lemma_play_server_plugin_message(v),
            Packet578Model::PlayNamedSoundEffect(v) => lemma_play_named_sound_effect(v),
            Packet578Model::PlayDisconnect(v) => lemma_play_disconnect(v),
            Packet578Model::PlayEntityStatus(v) => lemma_play_entity_status(v),
            Packet578Model::PlayExplosion(v) => lemma_play_explosion(v),
            Packet578Model::PlayUnloadChunk(v) => lemma_play_unload_chunk(v),
            Packet578Model::PlayChangeGameState(v) => lemma_play_change_game_state(v),
            Packet578Model::PlayOpenHorseWindow(v) => lemma_play_open_horse_window(v),
            Packet578Model::PlayServerKeepAlive(v) => lemma_play_server_keep_alive(v),
            Packet578Model::PlayChunkData(v) => lemma_play_chunk_data(v),
            Packet578Model::PlayEffect(v) => lemma_play_effect(v),
            Packet578Model::PlayParticle(v) => lemma_play_particle(v),
            Packet578Model::PlayUpdateLight(v) => lemma_play_update_light(v),
            Packet578Model::PlayJoinGame(v) => lemma_play_join_game(v),
            Packet578Model::PlayMapData(v) => lemma_play_map_data(v),
            Packet578Model::PlayTradeList(v) => lemma_play_trade_list(v),
            Packet578Model::PlayEntityPosition(v) => lemma_play_entity_position(v),
            Packet578Model::PlayEntityPositionAndRotation(v) => lemma_play_entity_position_and_rotation(v),
            Packet578Model::PlayEntityRotation(v) => lemma_play_entity_rotation(v),
            Packet578Model::PlayEntityMovement(v) => lemma_play_entity_movement(v),
            Packet578Model::PlayServerVehicleMove(v) => lemma_play_server_vehicle_move(v),
            Packet578Model::PlayOpenBook(v) => lemma_play_open_book(v),
            Packet578Model::PlayOpenWindow(v) => lemma_play_open_window(v),
            Packet578Model::PlayOpenSignEditor(v) => lemma_play_open_sign_editor(v),
            Packet578Model::PlayCraftRecipeResponse(v) => lemma_play_craft_recipe_response(v),
            Packet578Model::PlayServerPlayerAbilities(v) => lemma_play_server_player_abilities(v),
            Packet578Model::PlayCombatEvent(v) => lemma_play_combat_event(v),
            Packet578Model::PlayPlayerInfo(v) => lemma_play_player_info(v),
            Packet578Model::PlayFacePlayer(v) => lemma_play_face_player(v),
            Packet578Model::PlayServerPlayerPositionAndLook(v) => lemma_play_server_player_position_and_look(v),
            Packet578Model::PlayUnlockRecipes(v) => lemma_play_unlock_recipes(v),
            Packet578Model::PlayDestroyEntities(v) => lemma_play_destroy_entities(v),
            Packet578Model::PlayRemoveEntityEffect(v) => lemma_play_remove_entity_effect(v),
            Packet578Model::PlayResourcePackSend(v) => lemma_play_resource_pack_send(v),
            Packet578Model::PlayRespawn(v) => lemma_play_respawn(v),
            Packet578Model::PlayEntityHeadLook(v) => lemma_play_entity_head_look(v),
            Packet578Model::PlaySelectAdvancementTab(v) => lemma_play_select_advancement_tab(v),
            Packet578Model::PlayWorldBorder(v) => lemma_play_world_border(v),
            Packet578Model::PlayCamera(v) => lemma_play_camera(v),
            Packet578Model::PlayServerHeldItemChange(v) => lemma_play_server_held_item_change(v),
            Packet578Model::PlayUpdateViewPosition(v) => lemma_play_update_view_position(v),
            Packet578Model::PlayUpdateViewDistance(v) => lemma_play_update_view_distance(v),
            Packet578Model::PlayDisplayScoreboard(v) => lemma_play_display_scoreboard(v),
            Packet578Model::PlayEntityMetadata(v) => lemma_play_entity_metadata(v),
            Packet578Model::PlayAttachEntity(v) => lemma_play_attach_entity(v),
            Packet578Model::PlayEntityVelocity(v) => lemma_play_entity_velocity(v),
            Packet578Model::PlayEntityEquipment(v) => lemma_play_entity_equipment(v),
            Packet578Model::PlaySetExperience(v) => lemma_play_set_experience(v),
            Packet578Model::PlayUpdatehealth(v) => lemma_play_updatehealth(v),
            Packet578Model::PlayScoreboardObjective(v) => lemma_play_scoreboard_objective(v),
            Packet578Model::PlaySetPassengers(v) => lemma_play_set_passengers(v),
            Packet578Model::PlayTeams(v) => lemma_play_teams(v),
            Packet578Model::PlayUpdateScore(v) => lemma_play_update_score(v),
            Packet578Model::PlaySpawnPosition(v) => lemma_play_spawn_position(v),
            Packet578Model::PlayTimeUpdate(v) => lemma_play_time_update(v),
            Packet578Model::PlayTitle(v) => lemma_play_title(v),
            Packet578Model::PlayEntitySoundEffect(v) => lemma_play_entity_sound_effect(v),
            Packet578Model::PlaySoundEffect(v) => lemma_play_sound_effect(v),
            Packet578Model::PlayStopSound(v) => lemma_play_stop_sound(v),
            Packet578Model::PlayerPlayerListHeaderAndFooter(v) => lemma_player_player_list_header_and_footer(v),
            Packet578Model::PlayNbtQueryResponse(v) => lemma_play_nbt_query_response(v),
            Packet578Model::PlayCollectItem(v) => lemma_play_collect_item(v),
            Packet578Model::PlayEntityTeleport(v) => lemma_play_entity_teleport(v),
            Packet578Model::PlayAdvancements(v) => lemma_play_advancements(v),
            Packet578Model::PlayEntityProperties(v) => lemma_play_entity_properties(v),
            Packet578Model::PlayEntityEffect(v) => lemma_play_entity_effect(v),
            Packet578Model::PlayDeclareRecipes(v) => lemma_play_declare_recipes(v),
            Packet578Model::PlayTags(v) => lemma_play_tags(v),
            Packet578Model::PlayTeleportConfirm(v) => lemma_play_teleport_confirm(v),
            Packet578Model::PlayQueryBlockNbt(v) => lemma_play_query_block_nbt(v),
            Packet578Model::PlayQueryEntityNbt(v) => lemma_play_query_entity_nbt(v),
            Packet578Model::PlaySetDifficulty(v) => lemma_play_set_difficulty(v),
            Packet578Model::PlayClientChatMessage(v) => lemma_play_client_chat_message(v),
            Packet578Model::PlayClientStatus(v) => lemma_play_client_status(v),
            Packet578Model::PlayClientSettings(v) => lemma_play_client_settings(v),
            Packet578Model::PlayClientTabComplete(v) => lemma_play_client_tab_complete(v),
            Packet578Model::PlayClientWindowConfirmation(v) => lemma_play_client_window_confirmation(v),
            Packet578Model::PlayClickWindowButton(v) => lemma_play_click_window_button(v),
            Packet578Model::PlayClickWindow(v) => lemma_play_click_window(v),
            Packet578Model::PlayClientCloseWindow(v) => lemma_play_client_close_window(v),
            Packet578Model::PlayClientPluginMessage(v) => lemma_play_client_plugin_message(v),
            Packet578Model::PlayEditBook(v) => lemma_play_edit_book(v),
            Packet578Model::PlayInteractEntity(v) => lemma_play_interact_entity(v),
            Packet578Model::PlayClientKeepAlive(v) => lemma_play_client_keep_alive(v),
            Packet578Model::PlayLockDifficulty(v) => lemma_play_lock_difficulty(v),
            Packet578Model::PlayPlayerPosition(v) => lemma_play_player_position(v),
            Packet578Model::PlayClientPlayerPositionAndRotation(v) => lemma_play_client_player_position_and_rotation(v),
            Packet578Model::PlayPlayerRotation(v) => lemma_play_player_rotation(v),
            Packet578Model::PlayPlayerMovement(v) => lemma_play_player_movement(v),
            Packet578Model::PlayClientVehicleMove(v) => lemma_play_client_vehicle_move(v),
            Packet578Model::PlaySteerBoat(v) => lemma_play_steer_boat(v),
            Packet578Model::PlayPickItem(v) => lemma_play_pick_item(v),
            Packet578Model::PlayCraftRecipeRequest(v) => lemma_play_craft_recipe_request(v),
            Packet578Model::PlayClientPlayerAbilities(v) => lemma_play_client_player_abilities(v),
            Packet578Model::PlayPlayerDigging(v) => lemma_play_player_digging(v),
            Packet578Model::PlayEntityAction(v) => lemma_play_entity_action(v),
            Packet578Model::PlaySteerVehicle(v) => lemma_play_steer_vehicle(v),
            Packet578Model::PlayRecipeBookData(v) => lemma_play_recipe_book_data(v),
            Packet578Model::PlayNameItem(v) => lemma_play_name_item(v),
            Packet578Model::PlayResourcePackStatus(v) => lemma_play_resource_pack_status(v),
            Packet578Model::PlayAdvancementTab(v) => lemma_play_advancement_tab(v),
            Packet578Model::PlaySelectTrade(v) => lemma_play_select_trade(v),
            Packet578Model::PlaySetBeaconEffect(v) => lemma_play_set_beacon_effect(v),
            Packet578Model::PlayClientHeldItemChange(v) => lemma_play_client_held_item_change(v),
            Packet578Model::PlayUpdateCommandBlock(v) => lemma_play_update_command_block(v),
            Packet578Model::PlayUpdateCommandBlockMinecart(v) => lemma_play_update_command_block_minecart(v),
            Packet578Model::PlayCreativeInventoryAction(v) => lemma_play_creative_inventory_action(v),
            Packet578Model::PlayUpdateJigsawBlock(v) => lemma_play_update_jigsaw_block(v),
            Packet578Model::PlayUpdateStructureBlock(v) => lemma_play_update_structure_block(v),
            Packet578Model::PlayUpdateSign(v) => lemma_play_update_sign(v),
            Packet578Model::PlayClientAnimation(v) => lemma_play_client_animation(v),
            Packet578Model::PlaySpectate(v) => lemma_play_spectate(v),
            Packet578Model::PlayBlockPlacement(v) => lemma_play_block_placement(v),
            Packet578Model::PlayUseItem(v) => lemma_play_use_item(v),
        }
    }
}

/// The body of the handshake message, read as that message.
#[verifier::opaque]
pub open spec fn decode_handshake(body: Seq<u8>) -> Result<Packet578Model, DeserializeErr> {
    match HandshakeSpec::spec_deserialize(body) {
        Ok((v, _)) => Ok(Packet578Model::Handshake(v)),
        Err(e) => Err(e),
    }
}

#[verifier::rlimit(100)]
#[verifier::spinoff_prover]
proof fn lemma_handshake(v: <HandshakeSpec as Codec>::Model)
    requires
        HandshakeSpec::legal(v),
    ensures
        HandshakeSpec::encodable(v),
        Packet578::spec_decode(State::Handshaking, PacketDirection::ServerBound, 0i32, HandshakeSpec::spec_serialize(v))
            == Ok::<Packet578Model, DeserializeErr>(Packet578Model::Handshake(v)),
{
    reveal(decode_handshake);
    HandshakeSpec::lemma_round_trip(v, Seq::empty());
    assert(HandshakeSpec::spec_serialize(v) + Seq::<u8>::empty() =~= HandshakeSpec::spec_serialize(v));
}

/// The body of the status request message, read as that message.
#[verifier::opaque]
pub open spec fn decode_status_request(body: Seq<u8>) -> Result<Packet578Model, DeserializeErr> {
    match StatusRequestSpec::spec_deserialize(body) {
        Ok((v, _)) => Ok(Packet578Model::StatusRequest(v)),
        Err(e) => Err(e),
    }
}

#[verifier::rlimit(100)]
#[verifier::spinoff_prover]
proof fn lemma_status_request(v: <StatusRequestSpec as Codec>::Model)
    requires
        StatusRequestSpec::legal(v),
    ensures
        StatusRequestSpec::encodable(v),
        Packet578::spec_decode(State::Status, PacketDirection::ServerBound, 0i32, StatusRequestSpec::spec_serialize(v))
            == Ok::<Packet578Model, DeserializeErr>(Packet578Model::StatusRequest(v)),
{
    reveal(decode_status_request);
    StatusRequestSpec::lemma_round_trip(v, Seq::empty());
    assert(StatusRequestSpec::spec_serialize(v) + Seq::<u8>::empty() =~= StatusRequestSpec::spec_serialize(v));
}

/// The body of the status ping message, read as that message.
#[verifier::opaque]
pub open spec fn decode_status_ping(body: Seq<u8>) -> Result<Packet578Model, DeserializeErr> {
    match StatusPingSpec::spec_deserialize(body) {
        Ok((v, _)) => Ok(Packet578Model::StatusPing(v)),
        Err(e) => Err(e),
    }
}

#[verifier::rlimit(100)]
#[verifier::spinoff_prover]
proof fn lemma_status_ping(v: <StatusPingSpec as Codec>::Model)
    requires
        StatusPingSpec::legal(v),
    ensures
        StatusPingSpec::encodable(v),
        Packet578::spec_decode(State::Status, PacketDirection::ServerBound, 1i32, StatusPingSpec::spec_serialize(v))
            == Ok::<Packet578Model, DeserializeErr>(Packet578Model::StatusPing(v)),
{
    reveal(decode_status_ping);
    StatusPingSpec::lemma_round_trip(v, Seq::empty());
    assert(StatusPingSpec::spec_serialize(v) + Seq::<u8>::empty() =~= StatusPingSpec::spec_serialize(v));
}

/// The body of the status response message, read as that message.
#[verifier::opaque]
pub open spec fn decode_status_response(body: Seq<u8>) -> Result<Packet578Model, DeserializeErr> {
    match StatusResponseSpec::spec_deserialize(body) {
        Ok((v, _)) => Ok(Packet578Model::StatusResponse(v)),
        Err(e) => Err(e),
    }
}

#[verifier::rlimit(100)]
#[verifier::spinoff_prover]
proof fn lemma_status_response(v: <StatusResponseSpec as Codec>::Model)
    requires
        StatusResponseSpec::legal(v),
    ensures
        StatusResponseSpec::encodable(v),
        Packet578::spec_decode(State::Status, PacketDirection::ClientBound, 0i32, StatusResponseSpec::spec_serialize(v))
            == Ok::<Packet578Model, DeserializeErr>(Packet578Model::StatusResponse(v)),
{
    reveal(decode_status_response);
    StatusResponseSpec::lemma_round_trip(v, Seq::empty());
    assert(StatusResponseSpec::spec_serialize(v) + Seq::<u8>::empty() =~= StatusResponseSpec::spec_serialize(v));
}

/// The body of the status pong message, read as that message.
#[verifier::opaque]
pub open spec fn decode_status_pong(body: Seq<u8>) -> Result<Packet578Model, DeserializeErr> {
    match StatusPongSpec::spec_deserialize(body) {
        Ok((v, _)) => Ok(Packet578Model::StatusPong(v)),
        Err(e) => Err(e),
    }
}

#[verifier::rlimit(100)]
#[verifier::spinoff_prover]
proof fn lemma_status_pong(v: <StatusPongSpec as Codec>::Model)
    requires
        StatusPongSpec::legal(v),
    ensures
        StatusPongSpec::encodable(v),
        Packet578::spec_decode(State::Status, PacketDirection::ClientBound, 1i32, StatusPongSpec::spec_serialize(v))
            == Ok::<Packet578Model, DeserializeErr>(Packet578Model::StatusPong(v)),
{
    reveal(decode_status_pong);
    StatusPongSpec::lemma_round_trip(v, Seq::empty());
    assert(StatusPongSpec::spec_serialize(v) + Seq::<u8>::empty() =~= StatusPongSpec::spec_serialize(v));
}

/// The body of the login disconnect message, read as that message.
#[verifier::opaque]
pub open spec fn decode_login_disconnect(body: Seq<u8>) -> Result<Packet578Model, DeserializeErr> {
    match LoginDisconnectSpec::spec_deserialize(body) {
        Ok((v, _)) => Ok(Packet578Model::LoginDisconnect(v)),
        Err(e) => Err(e),
    }
}

#[verifier::rlimit(100)]
#[verifier::spinoff_prover]
proof fn lemma_login_disconnect(v: <LoginDisconnectSpec as Codec>::Model)
    requires
        LoginDisconnectSpec::legal(v),
    ensures
        LoginDisconnectSpec::encodable(v),
        Packet578::spec_decode(State::Login, PacketDirection::ClientBound, 0i32, LoginDisconnectSpec::spec_serialize(v))
            == Ok::<Packet578Model, DeserializeErr>(Packet578Model::LoginDisconnect(v)),
{
    reveal(decode_login_disconnect);
    LoginDisconnectSpec::lemma_round_trip(v, Seq::empty());
    assert(LoginDisconnectSpec::spec_serialize(v) + Seq::<u8>::empty() =~= LoginDisconnectSpec::spec_serialize(v));
}

/// The body of the login encryption request message, read as that message.
#[verifier::opaque]
pub open spec fn decode_login_encryption_request(body: Seq<u8>) -> Result<Packet578Model, DeserializeErr> {
    match LoginEncryptionRequestSpec::spec_deserialize(body) {
        Ok((v, _)) => Ok(Packet578Model::LoginEncryptionRequest(v)),
        Err(e) => Err(e),
    }
}

#[verifier::rlimit(100)]
#[verifier::spinoff_prover]
proof fn lemma_login_encryption_request(v: <LoginEncryptionRequestSpec as Codec>::Model)
    requires
        LoginEncryptionRequestSpec::legal(v),
    ensures
        LoginEncryptionRequestSpec::encodable(v),
        Packet578::spec_decode(State::Login, PacketDirection::ClientBound, 1i32, LoginEncryptionRequestSpec::spec_serialize(v))
            == Ok::<Packet578Model, DeserializeErr>(Packet578Model::LoginEncryptionRequest(v)),
{
    reveal(decode_login_encryption_request);
    LoginEncryptionRequestSpec::lemma_round_trip(v, Seq::empty());
    assert(LoginEncryptionRequestSpec::spec_serialize(v) + Seq::<u8>::empty() =~= LoginEncryptionRequestSpec::spec_serialize(v));
}

/// The body of the login success message, read as that message.
#[verifier::opaque]
pub open spec fn decode_login_success(body: Seq<u8>) -> Result<Packet578Model, DeserializeErr> {
    match LoginSuccessSpec::spec_deserialize(body) {
        Ok((v, _)) => Ok(Packet578Model::LoginSuccess(v)),
        Err(e) => Err(e),
    }
}

#[verifier::rlimit(100)]
#[verifier::spinoff_prover]
proof fn lemma_login_success(v: <LoginSuccessSpec as Codec>::Model)
    requires
        LoginSuccessSpec::legal(v),
    ensures
        LoginSuccessSpec::encodable(v),
        Packet578::spec_decode(State::Login, PacketDirection::ClientBound, 2i32, LoginSuccessSpec::spec_serialize(v))
            == Ok::<Packet578Model, DeserializeErr>(Packet578Model::LoginSuccess(v)),
{
    reveal(decode_login_success);
    LoginSuccessSpec::lemma_round_trip(v, Seq::empty());
    assert(LoginSuccessSpec::spec_serialize(v) + Seq::<u8>::empty() =~= LoginSuccessSpec::spec_serialize(v));
}

/// The body of the login set compression message, read as that message.
#[verifier::opaque]
pub open spec fn decode_login_set_compression(body: Seq<u8>) -> Result<Packet578Model, DeserializeErr> {
    match LoginSetCompressionSpec::spec_deserialize(body) {
        Ok((v, _)) => Ok(Packet578Model::LoginSetCompression(v)),
        Err(e) => Err(e),
    }
}

#[verifier::rlimit(100)]
#[verifier::spinoff_prover]
proof fn lemma_login_set_compression(v: <LoginSetCompressionSpec as Codec>::Model)
    requires
        LoginSetCompressionSpec::legal(v),
    ensures
        LoginSetCompressionSpec::encodable(v),
        Packet578::spec_decode(State::Login, PacketDirection::ClientBound, 3i32, LoginSetCompressionSpec::spec_serialize(v))
            == Ok::<Packet578Model, DeserializeErr>(Packet578Model::LoginSetCompression(v)),
{
    reveal(decode_login_set_compression);
    LoginSetCompressionSpec::lemma_round_trip(v, Seq::empty());
    assert(LoginSetCompressionSpec::spec_serialize(v) + Seq::<u8>::empty() =~= LoginSetCompressionSpec::spec_serialize(v));
}

/// The body of the login plugin request message, read as that message.
#[verifier::opaque]
pub open spec fn decode_login_plugin_request(body: Seq<u8>) -> Result<Packet578Model, DeserializeErr> {
    match LoginPluginRequestSpec::spec_deserialize(body) {
        Ok((v, _)) => Ok(Packet578Model::LoginPluginRequest(v)),
        Err(e) => Err(e),
    }
}

#[verifier::rlimit(100)]
#[verifier::spinoff_prover]
proof fn lemma_login_plugin_request(v: LoginPluginRequestSpecModel)
    requires
        LoginPluginRequestSpec::legal(v),
    ensures
        LoginPluginRequestSpec::encodable(v),
        Packet578::spec_decode(State::Login, PacketDirection::ClientBound, 4i32, LoginPluginRequestSpec::spec_serialize(v))
            == Ok::<Packet578Model, DeserializeErr>(Packet578Model::LoginPluginRequest(v)),
{
    reveal(decode_login_plugin_request);
    LoginPluginRequestSpec::lemma_round_trip(v);
}

/// The body of the login start message, read as that message.
#[verifier::opaque]
pub open spec fn decode_login_start(body: Seq<u8>) -> Result<Packet578Model, DeserializeErr> {
    match LoginStartSpec::spec_deserialize(body) {
        Ok((v, _)) => Ok(Packet578Model::LoginStart(v)),
        Err(e) => Err(e),
    }
}

#[verifier::rlimit(100)]
#[verifier::spinoff_prover]
proof fn lemma_login_start(v: <LoginStartSpec as Codec>::Model)
    requires
        LoginStartSpec::legal(v),
    ensures
        LoginStartSpec::encodable(v),
        Packet578::spec_decode(State::Login, PacketDirection::ServerBound, 0i32, LoginStartSpec::spec_serialize(v))
            == Ok::<Packet578Model, DeserializeErr>(Packet578Model::LoginStart(v)),
{
    reveal(decode_login_start);
    LoginStartSpec::lemma_round_trip(v, Seq::empty());
    assert(LoginStartSpec::spec_serialize(v) + Seq::<u8>::empty() =~= LoginStartSpec::spec_serialize(v));
}

/// The body of the login encryption response message, read as that message.
#[verifier::opaque]
pub open spec fn decode_login_encryption_response(body: Seq<u8>) -> Result<Packet578Model, DeserializeErr> {
    match LoginEncryptionResponseSpec::spec_deserialize(body) {
        Ok((v, _)) => Ok(Packet578Model::LoginEncryptionResponse(v)),
        Err(e) => Err(e),
    }
}

#[verifier::rlimit(100)]
#[verifier::spinoff_prover]
proof fn lemma_login_encryption_response(v: <LoginEncryptionResponseSpec as Codec>::Model)
    requires
        LoginEncryptionResponseSpec::legal(v),
    ensures
        LoginEncryptionResponseSpec::encodable(v),
        Packet578::spec_decode(State::Login, PacketDirection::ServerBound, 1i32, LoginEncryptionResponseSpec::spec_serialize(v))
            == Ok::<Packet578Model, DeserializeErr>(Packet578Model::LoginEncryptionResponse(v)),
{
    reveal(decode_login_encryption_response);
    LoginEncryptionResponseSpec::lemma_round_trip(v, Seq::empty());
    assert(LoginEncryptionResponseSpec::spec_serialize(v) + Seq::<u8>::empty() =~= LoginEncryptionResponseSpec::spec_serialize(v));
}

/// The body of the login plugin response message, read as that message.
#[verifier::opaque]
pub open spec fn decode_login_plugin_response(body: Seq<u8>) -> Result<Packet578Model, DeserializeErr> {
    match LoginPluginResponseSpec::spec_deserialize(body) {
        Ok((v, _)) => Ok(Packet578Model::LoginPluginResponse(v)),
        Err(e) => Err(e),
    }
}

#[verifier::rlimit(100)]
#[verifier::spinoff_prover]
proof fn lemma_login_plugin_response(v: LoginPluginResponseSpecModel)
    requires
        LoginPluginResponseSpec::legal(v),
    ensures
        LoginPluginResponseSpec::encodable(v),
        Packet578::spec_decode(State::Login, PacketDirection::ServerBound, 2i32, LoginPluginResponseSpec::spec_serialize(v))
            == Ok::<Packet578Model, DeserializeErr>(Packet578Model::LoginPluginResponse(v)),
{
    reveal(decode_login_plugin_response);
    LoginPluginResponseSpec::lemma_round_trip(v);
}

/// The body of the play spawn entity message, read as that message.
#[verifier::opaque]
pub open spec fn decode_play_spawn_entity(body: Seq<u8>) -> Result<Packet578Model, DeserializeErr> {
    match PlaySpawnEntitySpec::spec_deserialize(body) {
        Ok((v, _)) => Ok(Packet578Model::PlaySpawnEntity(v)),
        Err(e) => Err(e),
    }
}

#[verifier::rlimit(100)]
#[verifier::spinoff_prover]
proof fn lemma_play_spawn_entity(v: <PlaySpawnEntitySpec as Codec>::Model)
    requires
        PlaySpawnEntitySpec::legal(v),
    ensures
        PlaySpawnEntitySpec::encodable(v),
        Packet578::spec_decode(State::Play, PacketDirection::ClientBound, 0i32, PlaySpawnEntitySpec::spec_serialize(v))
            == Ok::<Packet578Model, DeserializeErr>(Packet578Model::PlaySpawnEntity(v)),
{
    reveal(decode_play_spawn_entity);
    PlaySpawnEntitySpec::lemma_round_trip(v, Seq::empty());
    assert(PlaySpawnEntitySpec::spec_serialize(v) + Seq::<u8>::empty() =~= PlaySpawnEntitySpec::spec_serialize(v));
}

/// The body of the play spawn experience orb message, read as that message.
#[verifier::opaque]
pub open spec fn decode_play_spawn_experience_orb(body: Seq<u8>) -> Result<Packet578Model, DeserializeErr> {
    match PlaySpawnExperienceOrbSpec::spec_deserialize(body) {
        Ok((v, _)) => Ok(Packet578Model::PlaySpawnExperienceOrb(v)),
        Err(e) => Err(e),
    }
}

#[verifier::rlimit(100)]
#[verifier::spinoff_prover]
proof fn lemma_play_spawn_experience_orb(v: <PlaySpawnExperienceOrbSpec as Codec>::Model)
    requires
        PlaySpawnExperienceOrbSpec::legal(v),
    ensures
        PlaySpawnExperienceOrbSpec::encodable(v),
        Packet578::spec_decode(State::Play, PacketDirection::ClientBound, 1i32, PlaySpawnExperienceOrbSpec::spec_serialize(v))
            == Ok::<Packet578Model, DeserializeErr>(Packet578Model::PlaySpawnExperienceOrb(v)),
{
    reveal(decode_play_spawn_experience_orb);
    PlaySpawnExperienceOrbSpec::lemma_round_trip(v, Seq::empty());
    assert(PlaySpawnExperienceOrbSpec::spec_serialize(v) + Seq::<u8>::empty() =~= PlaySpawnExperienceOrbSpec::spec_serialize(v));
}

/// The body of the play spawn weather entity message, read as that message.
#[verifier::opaque]
pub open spec fn decode_play_spawn_weather_entity(body: Seq<u8>) -> Result<Packet578Model, DeserializeErr> {
    match PlaySpawnWeatherEntitySpec::spec_deserialize(body) {
        Ok((v, _)) => Ok(Packet578Model::PlaySpawnWeatherEntity(v)),
        Err(e) => Err(e),
    }
}

#[verifier::rlimit(100)]
#[verifier::spinoff_prover]
proof fn lemma_play_spawn_weather_entity(v: <PlaySpawnWeatherEntitySpec as Codec>::Model)
    requires
        PlaySpawnWeatherEntitySpec::legal(v),
    ensures
        PlaySpawnWeatherEntitySpec::encodable(v),
        Packet578::spec_decode(State::Play, PacketDirection::ClientBound, 2i32, PlaySpawnWeatherEntitySpec::spec_serialize(v))
            == Ok::<Packet578Model, DeserializeErr>(Packet578Model::PlaySpawnWeatherEntity(v)),
{
    reveal(decode_play_spawn_weather_entity);
    PlaySpawnWeatherEntitySpec::lemma_round_trip(v, Seq::empty());
    assert(PlaySpawnWeatherEntitySpec::spec_serialize(v) + Seq::<u8>::empty() =~= PlaySpawnWeatherEntitySpec::spec_serialize(v));
}

/// The body of the play spawn living entity message, read as that message.
#[verifier::opaque]
pub open spec fn decode_play_spawn_living_entity(body: Seq<u8>) -> Result<Packet578Model, DeserializeErr> {
    match PlaySpawnLivingEntitySpec::spec_deserialize(body) {
        Ok((v, _)) => Ok(Packet578Model::PlaySpawnLivingEntity(v)),
        Err(e) => Err(e),
    }
}

#[verifier::rlimit(100)]
#[verifier::spinoff_prover]
proof fn lemma_play_spawn_living_entity(v: <PlaySpawnLivingEntitySpec as Codec>::Model)
    requires
        PlaySpawnLivingEntitySpec::legal(v),
    ensures
        PlaySpawnLivingEntitySpec::encodable(v),
        Packet578::spec_decode(State::Play, PacketDirection::ClientBound, 3i32, PlaySpawnLivingEntitySpec::spec_serialize(v))
            == Ok::<Packet578Model, DeserializeErr>(Packet578Model::PlaySpawnLivingEntity(v)),
{
    reveal(decode_play_spawn_living_entity);
    PlaySpawnLivingEntitySpec::lemma_round_trip(v, Seq::empty());
    assert(PlaySpawnLivingEntitySpec::spec_serialize(v) + Seq::<u8>::empty() =~= PlaySpawnLivingEntitySpec::spec_serialize(v));
}

/// The body of the play spawn painting message, read as that message.
#[verifier::opaque]
pub open spec fn decode_play_spawn_painting(body: Seq<u8>) -> Result<Packet578Model, DeserializeErr> {
    match PlaySpawnPaintingSpec::spec_deserialize(body) {
        Ok((v, _)) => Ok(Packet578Model::PlaySpawnPainting(v)),
        Err(e) => Err(e),
    }
}

#[verifier::rlimit(100)]
#[verifier::spinoff_prover]
proof fn lemma_play_spawn_painting(v: <PlaySpawnPaintingSpec as Codec>::Model)
    requires
        PlaySpawnPaintingSpec::legal(v),
    ensures
        PlaySpawnPaintingSpec::encodable(v),
        Packet578::spec_decode(State::Play, PacketDirection::ClientBound, 4i32, PlaySpawnPaintingSpec::spec_serialize(v))
            == Ok::<Packet578Model, DeserializeErr>(Packet578Model::PlaySpawnPainting(v)),
{
    reveal(decode_play_spawn_painting);
    PlaySpawnPaintingSpec::lemma_round_trip(v, Seq::empty());
    assert(PlaySpawnPaintingSpec::spec_serialize(v) + Seq::<u8>::empty() =~= PlaySpawnPaintingSpec::spec_serialize(v));
}

/// The body of the play spawn player message, read as that message.
#[verifier::opaque]
pub open spec fn decode_play_spawn_player(body: Seq<u8>) -> Result<Packet578Model, DeserializeErr> {
    match PlaySpawnPlayerSpec::spec_deserialize(body) {
        Ok((v, _)) => Ok(Packet578Model::PlaySpawnPlayer(v)),
        Err(e) => Err(e),
    }
}

#[verifier::rlimit(100)]
#[verifier::spinoff_prover]
proof fn lemma_play_spawn_player(v: <PlaySpawnPlayerSpec as Codec>::Model)
    requires
        PlaySpawnPlayerSpec::legal(v),
    ensures
        PlaySpawnPlayerSpec::encodable(v),
        Packet578::spec_decode(State::Play, PacketDirection::ClientBound, 5i32, PlaySpawnPlayerSpec::spec_serialize(v))
            == Ok::<Packet578Model, DeserializeErr>(Packet578Model::PlaySpawnPlayer(v)),
{
    reveal(decode_play_spawn_player);
    PlaySpawnPlayerSpec::lemma_round_trip(v, Seq::empty());
    assert(PlaySpawnPlayerSpec::spec_serialize(v) + Seq::<u8>::empty() =~= PlaySpawnPlayerSpec::spec_serialize(v));
}

/// The body of the play entity animation message, read as that message.
#[verifier::opaque]
pub open spec fn decode_play_entity_animation(body: Seq<u8>) -> Result<Packet578Model, DeserializeErr> {
    match PlayEntityAnimationSpec::spec_deserialize(body) {
        Ok((v, _)) => Ok(Packet578Model::PlayEntityAnimation(v)),
        Err(e) => Err(e),
    }
}

#[verifier::rlimit(100)]
#[verifier::spinoff_prover]
proof fn lemma_play_entity_animation(v: <PlayEntityAnimationSpec as Codec>::Model)
    requires
        PlayEntityAnimationSpec::legal(v),
    ensures
        PlayEntityAnimationSpec::encodable(v),
        Packet578::spec_decode(State::Play, PacketDirection::ClientBound, 6i32, PlayEntityAnimationSpec::spec_serialize(v))
            == Ok::<Packet578Model, DeserializeErr>(Packet578Model::PlayEntityAnimation(v)),
{
    reveal(decode_play_entity_animation);
    PlayEntityAnimationSpec::lemma_round_trip(v, Seq::empty());
    assert(PlayEntityAnimationSpec::spec_serialize(v) + Seq::<u8>::empty() =~= PlayEntityAnimationSpec::spec_serialize(v));
}

/// The body of the play statistics message, read as that message.
#[verifier::opaque]
pub open spec fn decode_play_statistics(body: Seq<u8>) -> Result<Packet578Model, DeserializeErr> {
    match PlayStatisticsSpec::spec_deserialize(body) {
        Ok((v, _)) => Ok(Packet578Model::PlayStatistics(v)),
        Err(e) => Err(e),
    }
}

#[verifier::rlimit(100)]
#[verifier::spinoff_prover]
proof fn lemma_play_statistics(v: <PlayStatisticsSpec as Codec>::Model)
    requires
        PlayStatisticsSpec::legal(v),
    ensures
        PlayStatisticsSpec::encodable(v),
        Packet578::spec_decode(State::Play, PacketDirection::ClientBound, 7i32, PlayStatisticsSpec::spec_serialize(v))
            == Ok::<Packet578Model, DeserializeErr>(Packet578Model::PlayStatistics(v)),
{
    reveal(decode_play_statistics);
    PlayStatisticsSpec::lemma_round_trip(v, Seq::empty());
    assert(PlayStatisticsSpec::spec_serialize(v) + Seq::<u8>::empty() =~= PlayStatisticsSpec::spec_serialize(v));
}

/// The body of the play acknowledge player digging message, read as that message.
#[verifier::opaque]
pub open spec fn decode_play_acknowledge_player_digging(body: Seq<u8>) -> Result<Packet578Model, DeserializeErr> {
    match PlayAcknowledgePlayerDiggingSpec::spec_deserialize(body) {
        Ok((v, _)) => Ok(Packet578Model::PlayAcknowledgePlayerDigging(v)),
        Err(e) => Err(e),
    }
}

#[verifier::rlimit(100)]
#[verifier::spinoff_prover]
proof fn lemma_play_acknowledge_player_digging(v: <PlayAcknowledgePlayerDiggingSpec as Codec>::Model)
    requires
        PlayAcknowledgePlayerDiggingSpec::legal(v),
    ensures
        PlayAcknowledgePlayerDiggingSpec::encodable(v),
        Packet578::spec_decode(State::Play, PacketDirection::ClientBound, 8i32, PlayAcknowledgePlayerDiggingSpec::spec_serialize(v))
            == Ok::<Packet578Model, DeserializeErr>(Packet578Model::PlayAcknowledgePlayerDigging(v)),
{
    reveal(decode_play_acknowledge_player_digging);
    PlayAcknowledgePlayerDiggingSpec::lemma_round_trip(v, Seq::empty());
    assert(PlayAcknowledgePlayerDiggingSpec::spec_serialize(v) + Seq::<u8>::empty() =~= PlayAcknowledgePlayerDiggingSpec::spec_serialize(v));
}

/// The body of the play block break animation message, read as that message.
#[verifier::opaque]
pub open spec fn decode_play_block_break_animation(body: Seq<u8>) -> Result<Packet578Model, DeserializeErr> {
    match PlayBlockBreakAnimationSpec::spec_deserialize(body) {
        Ok((v, _)) => Ok(Packet578Model::PlayBlockBreakAnimation(v)),
        Err(e) => Err(e),
    }
}

#[verifier::rlimit(100)]
#[verifier::spinoff_prover]
proof fn lemma_play_block_break_animation(v: <PlayBlockBreakAnimationSpec as Codec>::Model)
    requires
        PlayBlockBreakAnimationSpec::legal(v),
    ensures
        PlayBlockBreakAnimationSpec::encodable(v),
        Packet578::spec_decode(State::Play, PacketDirection::ClientBound, 9i32, PlayBlockBreakAnimationSpec::spec_serialize(v))
            == Ok::<Packet578Model, DeserializeErr>(Packet578Model::PlayBlockBreakAnimation(v)),
{
    reveal(decode_play_block_break_animation);
    PlayBlockBreakAnimationSpec::lemma_round_trip(v, Seq::empty());
    assert(PlayBlockBreakAnimationSpec::spec_serialize(v) + Seq::<u8>::empty() =~= PlayBlockBreakAnimationSpec::spec_serialize(v));
}

/// The body of the play block entity data message, read as that message.
#[verifier::opaque]
pub open spec fn decode_play_block_entity_data(body: Seq<u8>) -> Result<Packet578Model, DeserializeErr> {
    match PlayBlockEntityDataSpec::spec_deserialize(body) {
        Ok((v, _)) => Ok(Packet578Model::PlayBlockEntityData(v)),
        Err(e) => Err(e),
    }
}

#[verifier::rlimit(100)]
#[verifier::spinoff_prover]
proof fn lemma_play_block_entity_data(v: <PlayBlockEntityDataSpec as Codec>::Model)
    requires
        PlayBlockEntityDataSpec::legal(v),
    ensures
        PlayBlockEntityDataSpec::encodable(v),
        Packet578::spec_decode(State::Play, PacketDirection::ClientBound, 10i32, PlayBlockEntityDataSpec::spec_serialize(v))
            == Ok::<Packet578Model, DeserializeErr>(Packet578Model::PlayBlockEntityData(v)),
{
    reveal(decode_play_block_entity_data);
    PlayBlockEntityDataSpec::lemma_round_trip(v, Seq::empty());
    assert(PlayBlockEntityDataSpec::spec_serialize(v) + Seq::<u8>::empty() =~= PlayBlockEntityDataSpec::spec_serialize(v));
}

/// The body of the play block action message, read as that message.
#[verifier::opaque]
pub open spec fn decode_play_block_action(body: Seq<u8>) -> Result<Packet578Model, DeserializeErr> {
    match PlayBlockActionSpec::spec_deserialize(body) {
        Ok((v, _)) => Ok(Packet578Model::PlayBlockAction(v)),
        Err(e) => Err(e),
    }
}

#[verifier::rlimit(100)]
#[verifier::spinoff_prover]
proof fn lemma_play_block_action(v: <PlayBlockActionSpec as Codec>::Model)
    requires
        PlayBlockActionSpec::legal(v),
    ensures
        PlayBlockActionSpec::encodable(v),
        Packet578::spec_decode(State::Play, PacketDirection::ClientBound, 11i32, PlayBlockActionSpec::spec_serialize(v))
            == Ok::<Packet578Model, DeserializeErr>(Packet578Model::PlayBlockAction(v)),
{
    reveal(decode_play_block_action);
    PlayBlockActionSpec::lemma_round_trip(v, Seq::empty());
    assert(PlayBlockActionSpec::spec_serialize(v) + Seq::<u8>::empty() =~= PlayBlockActionSpec::spec_serialize(v));
}

/// The body of the play block change message, read as that message.
#[verifier::opaque]
pub open spec fn decode_play_block_change(body: Seq<u8>) -> Result<Packet578Model, DeserializeErr> {
    match PlayBlockChangeSpec::spec_deserialize(body) {
        Ok((v, _)) => Ok(Packet578Model::PlayBlockChange(v)),
        Err(e) => Err(e),
    }
}

#[verifier::rlimit(100)]
#[verifier::spinoff_prover]
proof fn lemma_play_block_change(v: <PlayBlockChangeSpec as Codec>::Model)
    requires
        PlayBlockChangeSpec::legal(v),
    ensures
        PlayBlockChangeSpec::encodable(v),
        Packet578::spec_decode(State::Play, PacketDirection::ClientBound, 12i32, PlayBlockChangeSpec::spec_serialize(v))
            == Ok::<Packet578Model, DeserializeErr>(Packet578Model::PlayBlockChange(v)),
{
    reveal(decode_play_block_change);
    PlayBlockChangeSpec::lemma_round_trip(v, Seq::empty());
    assert(PlayBlockChangeSpec::spec_serialize(v) + Seq::<u8>::empty() =~= PlayBlockChangeSpec::spec_serialize(v));
}

/// The body of the play boss bar message, read as that message.
#[verifier::opaque]
pub open spec fn decode_play_boss_bar(body: Seq<u8>) -> Result<Packet578Model, DeserializeErr> {
    match PlayBossBarSpec::spec_deserialize(body) {
        Ok((v, _)) => Ok(Packet578Model::PlayBossBar(v)),
        Err(e) => Err(e),
    }
}

#[verifier::rlimit(100)]
#[verifier::spinoff_prover]
proof fn lemma_play_boss_bar(v: <PlayBossBarSpec as Codec>::Model)
    requires
        PlayBossBarSpec::legal(v),
    ensures
        PlayBossBarSpec::encodable(v),
        Packet578::spec_decode(State::Play, PacketDirection::ClientBound, 13i32, PlayBossBarSpec::spec_serialize(v))
            == Ok::<Packet578Model, DeserializeErr>(Packet578Model::PlayBossBar(v)),
{
    reveal(decode_play_boss_bar);
    PlayBossBarSpec::lemma_round_trip(v, Seq::empty());
    assert(PlayBossBarSpec::spec_serialize(v) + Seq::<u8>::empty() =~= PlayBossBarSpec::spec_serialize(v));
}

/// The body of the play server difficulty message, read as that message.
#[verifier::opaque]
pub open spec fn decode_play_server_difficulty(body: Seq<u8>) -> Result<Packet578Model, DeserializeErr> {
    match PlayServerDifficultySpec::spec_deserialize(body) {
        Ok((v, _)) => Ok(Packet578Model::PlayServerDifficulty(v)),
        Err(e) => Err(e),
    }
}

#[verifier::rlimit(100)]
#[verifier::spinoff_prover]
proof fn lemma_play_server_difficulty(v: <PlayServerDifficultySpec as Codec>::Model)
    requires
        PlayServerDifficultySpec::legal(v),
    ensures
        PlayServerDifficultySpec::encodable(v),
        Packet578::spec_decode(State::Play, PacketDirection::ClientBound, 14i32, PlayServerDifficultySpec::spec_serialize(v))
            == Ok::<Packet578Model, DeserializeErr>(Packet578Model::PlayServerDifficulty(v)),
{
    reveal(decode_play_server_difficulty);
    PlayServerDifficultySpec::lemma_round_trip(v, Seq::empty());
    assert(PlayServerDifficultySpec::spec_serialize(v) + Seq::<u8>::empty() =~= PlayServerDifficultySpec::spec_serialize(v));
}

/// The body of the play server chat message message, read as that message.
#[verifier::opaque]
pub open spec fn decode_play_server_chat_message(body: Seq<u8>) -> Result<Packet578Model, DeserializeErr> {
    match PlayServerChatMessageSpec::spec_deserialize(body) {
        Ok((v, _)) => Ok(Packet578Model::PlayServerChatMessage(v)),
        Err(e) => Err(e),
    }
}

#[verifier::rlimit(100)]
#[verifier::spinoff_prover]
proof fn lemma_play_server_chat_message(v: <PlayServerChatMessageSpec as Codec>::Model)
    requires
        PlayServerChatMessageSpec::legal(v),
    ensures
        PlayServerChatMessageSpec::encodable(v),
        Packet578::spec_decode(State::Play, PacketDirection::ClientBound, 15i32, PlayServerChatMessageSpec::spec_serialize(v))
            == Ok::<Packet578Model, DeserializeErr>(Packet578Model::PlayServerChatMessage(v)),
{
    reveal(decode_play_server_chat_message);
    PlayServerChatMessageSpec::lemma_round_trip(v, Seq::empty());
    assert(PlayServerChatMessageSpec::spec_serialize(v) + Seq::<u8>::empty() =~= PlayServerChatMessageSpec::spec_serialize(v));
}

/// The body of the play multi block change message, read as that message.
#[verifier::opaque]
pub open spec fn decode_play_multi_block_change(body: Seq<u8>) -> Result<Packet578Model, DeserializeErr> {
    match PlayMultiBlockChangeSpec::spec_deserialize(body) {
        Ok((v, _)) => Ok(Packet578Model::PlayMultiBlockChange(v)),
        Err(e) => Err(e),
    }
}

#[verifier::rlimit(100)]
#[verifier::spinoff_prover]
proof fn lemma_play_multi_block_change(v: <PlayMultiBlockChangeSpec as Codec>::Model)
    requires
        PlayMultiBlockChangeSpec::legal(v),
    ensures
        PlayMultiBlockChangeSpec::encodable(v),
        Packet578::spec_decode(State::Play, PacketDirection::ClientBound, 16i32, PlayMultiBlockChangeSpec::spec_serialize(v))
            == Ok::<Packet578Model, DeserializeErr>(Packet578Model::PlayMultiBlockChange(v)),
{
    reveal(decode_play_multi_block_change);
    PlayMultiBlockChangeSpec::lemma_round_trip(v, Seq::empty());
    assert(PlayMultiBlockChangeSpec::spec_serialize(v) + Seq::<u8>::empty() =~= PlayMultiBlockChangeSpec::spec_serialize(v));
}

/// The body of the play tab complete message, read as that message.
#[verifier::opaque]
pub open spec fn decode_play_tab_complete(body: Seq<u8>) -> Result<Packet578Model, DeserializeErr> {
    match PlayTabCompleteSpec::spec_deserialize(body) {
        Ok((v, _)) => Ok(Packet578Model::PlayTabComplete(v)),
        Err(e) => Err(e),
    }
}

#[verifier::rlimit(100)]
#[verifier::spinoff_prover]
proof fn lemma_play_tab_complete(v: <PlayTabCompleteSpec as Codec>::Model)
    requires
        PlayTabCompleteSpec::legal(v),
    ensures
        PlayTabCompleteSpec::encodable(v),
        Packet578::spec_decode(State::Play, PacketDirection::ClientBound, 17i32, PlayTabCompleteSpec::spec_serialize(v))
            == Ok::<Packet578Model, DeserializeErr>(Packet578Model::PlayTabComplete(v)),
{
    reveal(decode_play_tab_complete);
    PlayTabCompleteSpec::lemma_round_trip(v, Seq::empty());
    assert(PlayTabCompleteSpec::spec_serialize(v) + Seq::<u8>::empty() =~= PlayTabCompleteSpec::spec_serialize(v));
}

/// The body of the play declare commands message, read as that message.
#[verifier::opaque]
pub open spec fn decode_play_declare_commands(body: Seq<u8>) -> Result<Packet578Model, DeserializeErr> {
    match PlayDeclareCommandsSpec::spec_deserialize(body) {
        Ok((v, _)) => Ok(Packet578Model::PlayDeclareCommands(v)),
        Err(e) => Err(e),
    }
}

#[verifier::rlimit(100)]
#[verifier::spinoff_prover]
proof fn lemma_play_declare_commands(v: <PlayDeclareCommandsSpec as Codec>::Model)
    requires
        PlayDeclareCommandsSpec::legal(v),
    ensures
        PlayDeclareCommandsSpec::encodable(v),
        Packet578::spec_decode(State::Play, PacketDirection::ClientBound, 18i32, PlayDeclareCommandsSpec::spec_serialize(v))
            == Ok::<Packet578Model, DeserializeErr>(Packet578Model::PlayDeclareCommands(v)),
{
    reveal(decode_play_declare_commands);
    PlayDeclareCommandsSpec::lemma_round_trip(v, Seq::empty());
    assert(PlayDeclareCommandsSpec::spec_serialize(v) + Seq::<u8>::empty() =~= PlayDeclareCommandsSpec::spec_serialize(v));
}

/// The body of the play server window confirmation message, read as that message.
#[verifier::opaque]
pub open spec fn decode_play_server_window_confirmation(body: Seq<u8>) -> Result<Packet578Model, DeserializeErr> {
    match PlayServerWindowConfirmationSpec::spec_deserialize(body) {
        Ok((v, _)) => Ok(Packet578Model::PlayServerWindowConfirmation(v)),
        Err(e) => Err(e),
    }
}

#[verifier::rlimit(100)]
#[verifier::spinoff_prover]
proof fn lemma_play_server_window_confirmation(v: <PlayServerWindowConfirmationSpec as Codec>::Model)
    requires
        PlayServerWindowConfirmationSpec::legal(v),
    ensures
        PlayServerWindowConfirmationSpec::encodable(v),
        Packet578::spec_decode(State::Play, PacketDirection::ClientBound, 19i32, PlayServerWindowConfirmationSpec::spec_serialize(v))
            == Ok::<Packet578Model, DeserializeErr>(Packet578Model::PlayServerWindowConfirmation(v)),
{
    reveal(decode_play_server_window_confirmation);
    PlayServerWindowConfirmationSpec::lemma_round_trip(v, Seq::empty());
    assert(PlayServerWindowConfirmationSpec::spec_serialize(v) + Seq::<u8>::empty() =~= PlayServerWindowConfirmationSpec::spec_serialize(v));
}

/// The body of the play server close window message, read as that message.
#[verifier::opaque]
pub open spec fn decode_play_server_close_window(body: Seq<u8>) -> Result<Packet578Model, DeserializeErr> {
    match PlayServerCloseWindowSpec::spec_deserialize(body) {
        Ok((v, _)) => Ok(Packet578Model::PlayServerCloseWindow(v)),
        Err(e) => Err(e),
    }
}

#[verifier::rlimit(100)]
#[verifier::spinoff_prover]
proof fn lemma_play_server_close_window(v: <PlayServerCloseWindowSpec as Codec>::Model)
    requires
        PlayServerCloseWindowSpec::legal(v),
    ensures
        PlayServerCloseWindowSpec::encodable(v),
        Packet578::spec_decode(State::Play, PacketDirection::ClientBound, 20i32, PlayServerCloseWindowSpec::spec_serialize(v))
            == Ok::<Packet578Model, DeserializeErr>(Packet578Model::PlayServerCloseWindow(v)),
{
    reveal(decode_play_server_close_window);
    PlayServerCloseWindowSpec::lemma_round_trip(v, Seq::empty());
    assert(PlayServerCloseWindowSpec::spec_serialize(v) + Seq::<u8>::empty() =~= PlayServerCloseWindowSpec::spec_serialize(v));
}

/// The body of the play window items message, read as that message.
#[verifier::opaque]
pub open spec fn decode_play_window_items(body: Seq<u8>) -> Result<Packet578Model, DeserializeErr> {
    match PlayWindowItemsSpec::spec_deserialize(body) {
        Ok((v, _)) => Ok(Packet578Model::PlayWindowItems(v)),
        Err(e) => Err(e),
    }
}

#[verifier::rlimit(100)]
#[verifier::spinoff_prover]
proof fn lemma_play_window_items(v: <PlayWindowItemsSpec as Codec>::Model)
    requires
        PlayWindowItemsSpec::legal(v),
    ensures
        PlayWindowItemsSpec::encodable(v),
        Packet578::spec_decode(State::Play, PacketDirection::ClientBound, 21i32, PlayWindowItemsSpec::spec_serialize(v))
            == Ok::<Packet578Model, DeserializeErr>(Packet578Model::PlayWindowItems(v)),
{
    reveal(decode_play_window_items);
    PlayWindowItemsSpec::lemma_round_trip(v, Seq::empty());
    assert(PlayWindowItemsSpec::spec_serialize(v) + Seq::<u8>::empty() =~= PlayWindowItemsSpec::spec_serialize(v));
}

/// The body of the play window property message, read as that message.
#[verifier::opaque]
pub open spec fn decode_play_window_property(body: Seq<u8>) -> Result<Packet578Model, DeserializeErr> {
    match PlayWindowPropertySpec::spec_deserialize(body) {
        Ok((v, _)) => Ok(Packet578Model::PlayWindowProperty(v)),
        Err(e) => Err(e),
    }
}

#[verifier::rlimit(100)]
#[verifier::spinoff_prover]
proof fn lemma_play_window_property(v: <PlayWindowPropertySpec as Codec>::Model)
    requires
        PlayWindowPropertySpec::legal(v),
    ensures
        PlayWindowPropertySpec::encodable(v),
        Packet578::spec_decode(State::Play, PacketDirection::ClientBound, 22i32, PlayWindowPropertySpec::spec_serialize(v))
            == Ok::<Packet578Model, DeserializeErr>(Packet578Model::PlayWindowProperty(v)),
{
    reveal(decode_play_window_property);
    PlayWindowPropertySpec::lemma_round_trip(v, Seq::empty());
    assert(PlayWindowPropertySpec::spec_serialize(v) + Seq::<u8>::empty() =~= PlayWindowPropertySpec::spec_serialize(v));
}

/// The body of the play set slot message, read as that message.
#[verifier::opaque]
pub open spec fn decode_play_set_slot(body: Seq<u8>) -> Result<Packet578Model, DeserializeErr> {
    match PlaySetSlotSpec::spec_deserialize(body) {
        Ok((v, _)) => Ok(Packet578Model::PlaySetSlot(v)),
        Err(e) => Err(e),
    }
}

#[verifier::rlimit(100)]
#[verifier::spinoff_prover]
proof fn lemma_play_set_slot(v: <PlaySetSlotSpec as Codec>::Model)
    requires
        PlaySetSlotSpec::legal(v),
    ensures
        PlaySetSlotSpec::encodable(v),
        Packet578::spec_decode(State::Play, PacketDirection::ClientBound, 23i32, PlaySetSlotSpec::spec_serialize(v))
            == Ok::<Packet578Model, DeserializeErr>(Packet578Model::PlaySetSlot(v)),
{
    reveal(decode_play_set_slot);
    PlaySetSlotSpec::lemma_round_trip(v, Seq::empty());
    assert(PlaySetSlotSpec::spec_serialize(v) + Seq::<u8>::empty() =~= PlaySetSlotSpec::spec_serialize(v));
}

/// The body of the play set cooldown message, read as that message.
#[verifier::opaque]
pub open spec fn decode_play_set_cooldown(body: Seq<u8>) -> Result<Packet578Model, DeserializeErr> {
    match PlaySetCooldownSpec::spec_deserialize(body) {
        Ok((v, _)) => Ok(Packet578Model::PlaySetCooldown(v)),
        Err(e) => Err(e),
    }
}

#[verifier::rlimit(100)]
#[verifier::spinoff_prover]
proof fn lemma_play_set_cooldown(v: <PlaySetCooldownSpec as Codec>::Model)
    requires
        PlaySetCooldownSpec::legal(v),
    ensures
        PlaySetCooldownSpec::encodable(v),
        Packet578::spec_decode(State::Play, PacketDirection::ClientBound, 24i32, PlaySetCooldownSpec::spec_serialize(v))
            == Ok::<Packet578Model, DeserializeErr>(Packet578Model::PlaySetCooldown(v)),
{
    reveal(decode_play_set_cooldown);
    PlaySetCooldownSpec::lemma_round_trip(v, Seq::empty());
    assert(PlaySetCooldownSpec::spec_serialize(v) + Seq::<u8>::empty() =~= PlaySetCooldownSpec::spec_serialize(v));
}

/// The body of the play server plugin message message, read as that message.
#[verifier::opaque]
pub open spec fn decode_play_server_plugin_message(body: Seq<u8>) -> Result<Packet578Model, DeserializeErr> {
    match PlayServerPluginMessageSpec::spec_deserialize(body) {
        Ok((v, _)) => Ok(Packet578Model::PlayServerPluginMessage(v)),
        Err(e) => Err(e),
    }
}

#[verifier::rlimit(100)]
#[verifier::spinoff_prover]
proof fn lemma_play_server_plugin_message(v: PlayServerPluginMessageSpecModel)
    requires
        PlayServerPluginMessageSpec::legal(v),
    ensures
        PlayServerPluginMessageSpec::encodable(v),
        Packet578::spec_decode(State::Play, PacketDirection::ClientBound, 25i32, PlayServerPluginMessageSpec::spec_serialize(v))
            == Ok::<Packet578Model, DeserializeErr>(Packet578Model::PlayServerPluginMessage(v)),
{
    reveal(decode_play_server_plugin_message);
    PlayServerPluginMessageSpec::lemma_round_trip(v);
}

/// The body of the play named sound effect message, read as that message.
#[verifier::opaque]
pub open spec fn decode_play_named_sound_effect(body: Seq<u8>) -> Result<Packet578Model, DeserializeErr> {
    match PlayNamedSoundEffectSpec::spec_deserialize(body) {
        Ok((v, _)) => Ok(Packet578Model::PlayNamedSoundEffect(v)),
        Err(e) => Err(e),
    }
}

#[verifier::rlimit(100)]
#[verifier::spinoff_prover]
proof fn lemma_play_named_sound_effect(v: <PlayNamedSoundEffectSpec as Codec>::Model)
    requires
        PlayNamedSoundEffectSpec::legal(v),
    ensures
        PlayNamedSoundEffectSpec::encodable(v),
        Packet578::spec_decode(State::Play, PacketDirection::ClientBound, 26i32, PlayNamedSoundEffectSpec::spec_serialize(v))
            == Ok::<Packet578Model, DeserializeErr>(Packet578Model::PlayNamedSoundEffect(v)),
{
    reveal(decode_play_named_sound_effect);
    PlayNamedSoundEffectSpec::lemma_round_trip(v, Seq::empty());
    assert(PlayNamedSoundEffectSpec::spec_serialize(v) + Seq::<u8>::empty() =~= PlayNamedSoundEffectSpec::spec_serialize(v));
}

/// The body of the play disconnect message, read as that message.
#[verifier::opaque]
pub open spec fn decode_play_disconnect(body: Seq<u8>) -> Result<Packet578Model, DeserializeErr> {
    match PlayDisconnectSpec::spec_deserialize(body) {
        Ok((v, _)) => Ok(Packet578Model::PlayDisconnect(v)),
        Err(e) => Err(e),
    }
}

#[verifier::rlimit(100)]
#[verifier::spinoff_prover]
proof fn lemma_play_disconnect(v: <PlayDisconnectSpec as Codec>::Model)
    requires
        PlayDisconnectSpec::legal(v),
    ensures
        PlayDisconnectSpec::encodable(v),
        Packet578::spec_decode(State::Play, PacketDirection::ClientBound, 27i32, PlayDisconnectSpec::spec_serialize(v))
            == Ok::<Packet578Model, DeserializeErr>(Packet578Model::PlayDisconnect(v)),
{
    reveal(decode_play_disconnect);
    PlayDisconnectSpec::lemma_round_trip(v, Seq::empty());
    assert(PlayDisconnectSpec::spec_serialize(v) + Seq::<u8>::empty() =~= PlayDisconnectSpec::spec_serialize(v));
}

/// The body of the play entity status message, read as that message.
#[verifier::opaque]
pub open spec fn decode_play_entity_status(body: Seq<u8>) -> Result<Packet578Model, DeserializeErr> {
    match PlayEntityStatusSpec::spec_deserialize(body) {
        Ok((v, _)) => Ok(Packet578Model::PlayEntityStatus(v)),
        Err(e) => Err(e),
    }
}

#[verifier::rlimit(100)]
#[verifier::spinoff_prover]
proof fn lemma_play_entity_status(v: <PlayEntityStatusSpec as Codec>::Model)
    requires
        PlayEntityStatusSpec::legal(v),
    ensures
        PlayEntityStatusSpec::encodable(v),
        Packet578::spec_decode(State::Play, PacketDirection::ClientBound, 28i32, PlayEntityStatusSpec::spec_serialize(v))
            == Ok::<Packet578Model, DeserializeErr>(Packet578Model::PlayEntityStatus(v)),
{
    reveal(decode_play_entity_status);
    PlayEntityStatusSpec::lemma_round_trip(v, Seq::empty());
    assert(PlayEntityStatusSpec::spec_serialize(v) + Seq::<u8>::empty() =~= PlayEntityStatusSpec::spec_serialize(v));
}

/// The body of the play explosion message, read as that message.
#[verifier::opaque]
pub open spec fn decode_play_explosion(body: Seq<u8>) -> Result<Packet578Model, DeserializeErr> {
    match PlayExplosionSpec::spec_deserialize(body) {
        Ok((v, _)) => Ok(Packet578Model::PlayExplosion(v)),
        Err(e) => Err(e),
    }
}

#[verifier::rlimit(100)]
#[verifier::spinoff_prover]
proof fn lemma_play_explosion(v: <PlayExplosionSpec as Codec>::Model)
    requires
        PlayExplosionSpec::legal(v),
    ensures
        PlayExplosionSpec::encodable(v),
        Packet578::spec_decode(State::Play, PacketDirection::ClientBound, 29i32, PlayExplosionSpec::spec_serialize(v))
            == Ok::<Packet578Model, DeserializeErr>(Packet578Model::PlayExplosion(v)),
{
    reveal(decode_play_explosion);
    PlayExplosionSpec::lemma_round_trip(v, Seq::empty());
    assert(PlayExplosionSpec::spec_serialize(v) + Seq::<u8>::empty() =~= PlayExplosionSpec::spec_serialize(v));
}

/// The body of the play unload chunk message, read as that message.
#[verifier::opaque]
pub open spec fn decode_play_unload_chunk(body: Seq<u8>) -> Result<Packet578Model, DeserializeErr> {
    match PlayUnloadChunkSpec::spec_deserialize(body) {
        Ok((v, _)) => Ok(Packet578Model::PlayUnloadChunk(v)),
        Err(e) => Err(e),
    }
}

#[verifier::rlimit(100)]
#[verifier::spinoff_prover]
proof fn lemma_play_unload_chunk(v: <PlayUnloadChunkSpec as Codec>::Model)
    requires
        PlayUnloadChunkSpec::legal(v),
    ensures
        PlayUnloadChunkSpec::encodable(v),
        Packet578::spec_decode(State::Play, PacketDirection::ClientBound, 30i32, PlayUnloadChunkSpec::spec_serialize(v))
            == Ok::<Packet578Model, DeserializeErr>(Packet578Model::PlayUnloadChunk(v)),
{
    reveal(decode_play_unload_chunk);
    PlayUnloadChunkSpec::lemma_round_trip(v, Seq::empty());
    assert(PlayUnloadChunkSpec::spec_serialize(v) + Seq::<u8>::empty() =~= PlayUnloadChunkSpec::spec_serialize(v));
}

/// The body of the play change game state message, read as that message.
#[verifier::opaque]
pub open spec fn decode_play_change_game_state(body: Seq<u8>) -> Result<Packet578Model, DeserializeErr> {
    match PlayChangeGameStateSpec::spec_deserialize(body) {
        Ok((v, _)) => Ok(Packet578Model::PlayChangeGameState(v)),
        Err(e) => Err(e),
    }
}

#[verifier::rlimit(100)]
#[verifier::spinoff_prover]
proof fn lemma_play_change_game_state(v: <PlayChangeGameStateSpec as Codec>::Model)
    requires
        PlayChangeGameStateSpec::legal(v),
    ensures
        PlayChangeGameStateSpec::encodable(v),
        Packet578::spec_decode(State::Play, PacketDirection::ClientBound, 31i32, PlayChangeGameStateSpec::spec_serialize(v))
            == Ok::<Packet578Model, DeserializeErr>(Packet578Model::PlayChangeGameState(v)),
{
    reveal(decode_play_change_game_state);
    PlayChangeGameStateSpec::lemma_round_trip(v, Seq::empty());
    assert(PlayChangeGameStateSpec::spec_serialize(v) + Seq::<u8>::empty() =~= PlayChangeGameStateSpec::spec_serialize(v));
}

/// The body of the play open horse window message, read as that message.
#[verifier::opaque]
pub open spec fn decode_play_open_horse_window(body: Seq<u8>) -> Result<Packet578Model, DeserializeErr> {
    match PlayOpenHorseWindowSpec::spec_deserialize(body) {
        Ok((v, _)) => Ok(Packet578Model::PlayOpenHorseWindow(v)),
        Err(e) => Err(e),
    }
}

#[verifier::rlimit(100)]
#[verifier::spinoff_prover]
proof fn lemma_play_open_horse_window(v: <PlayOpenHorseWindowSpec as Codec>::Model)
    requires
        PlayOpenHorseWindowSpec::legal(v),
    ensures
        PlayOpenHorseWindowSpec::encodable(v),
        Packet578::spec_decode(State::Play, PacketDirection::ClientBound, 32i32, PlayOpenHorseWindowSpec::spec_serialize(v))
            == Ok::<Packet578Model, DeserializeErr>(Packet578Model::PlayOpenHorseWindow(v)),
{
    reveal(decode_play_open_horse_window);
    PlayOpenHorseWindowSpec::lemma_round_trip(v, Seq::empty());
    assert(PlayOpenHorseWindowSpec::spec_serialize(v) + Seq::<u8>::empty() =~= PlayOpenHorseWindowSpec::spec_serialize(v));
}

/// The body of the play server keep alive message, read as that message.
#[verifier::opaque]
pub open spec fn decode_play_server_keep_alive(body: Seq<u8>) -> Result<Packet578Model, DeserializeErr> {
    match PlayServerKeepAliveSpec::spec_deserialize(body) {
        Ok((v, _)) => Ok(Packet578Model::PlayServerKeepAlive(v)),
        Err(e) => Err(e),
    }
}

#[verifier::rlimit(100)]
#[verifier::spinoff_prover]
proof fn lemma_play_server_keep_alive(v: <PlayServerKeepAliveSpec as Codec>::Model)
    requires
        PlayServerKeepAliveSpec::legal(v),
    ensures
        PlayServerKeepAliveSpec::encodable(v),
        Packet578::spec_decode(State::Play, PacketDirection::ClientBound, 33i32, PlayServerKeepAliveSpec::spec_serialize(v))
            == Ok::<Packet578Model, DeserializeErr>(Packet578Model::PlayServerKeepAlive(v)),
{
    reveal(decode_play_server_keep_alive);
    PlayServerKeepAliveSpec::lemma_round_trip(v, Seq::empty());
    assert(PlayServerKeepAliveSpec::spec_serialize(v) + Seq::<u8>::empty() =~= PlayServerKeepAliveSpec::spec_serialize(v));
}

/// The body of the play chunk data message, read as that message.
#[verifier::opaque]
pub open spec fn decode_play_chunk_data(body: Seq<u8>) -> Result<Packet578Model, DeserializeErr> {
    match PlayChunkDataWrapper::spec_deserialize(body) {
        Ok((v, _)) => Ok(Packet578Model::PlayChunkData(v)),
        Err(e) => Err(e),
    }
}

#[verifier::rlimit(100)]
#[verifier::spinoff_prover]
proof fn lemma_play_chunk_data(v: <PlayChunkDataWrapper as Codec>::Model)
    requires
        PlayChunkDataWrapper::legal(v),
    ensures
        PlayChunkDataWrapper::encodable(v),
        Packet578::spec_decode(State::Play, PacketDirection::ClientBound, 34i32, PlayChunkDataWrapper::spec_serialize(v))
            == Ok::<Packet578Model, DeserializeErr>(Packet578Model::PlayChunkData(v)),
{
    reveal(decode_play_chunk_data);
    PlayChunkDataWrapper::lemma_round_trip(v, Seq::empty());
    assert(PlayChunkDataWrapper::spec_serialize(v) + Seq::<u8>::empty() =~= PlayChunkDataWrapper::spec_serialize(v));
}

/// The body of the play effect message, read as that message.
#[verifier::opaque]
pub open spec fn decode_play_effect(body: Seq<u8>) -> Result<Packet578Model, DeserializeErr> {
    match PlayEffectSpec::spec_deserialize(body) {
        Ok((v, _)) => Ok(Packet578Model::PlayEffect(v)),
        Err(e) => Err(e),
    }
}

#[verifier::rlimit(100)]
#[verifier::spinoff_prover]
proof fn lemma_play_effect(v: <PlayEffectSpec as Codec>::Model)
    requires
        PlayEffectSpec::legal(v),
    ensures
        PlayEffectSpec::encodable(v),
        Packet578::spec_decode(State::Play, PacketDirection::ClientBound, 35i32, PlayEffectSpec::spec_serialize(v))
            == Ok::<Packet578Model, DeserializeErr>(Packet578Model::PlayEffect(v)),
{
    reveal(decode_play_effect);
    PlayEffectSpec::lemma_round_trip(v, Seq::empty());
    assert(PlayEffectSpec::spec_serialize(v) + Seq::<u8>::empty() =~= PlayEffectSpec::spec_serialize(v));
}

/// The body of the play particle message, read as that message.
#[verifier::opaque]
pub open spec fn decode_play_particle(body: Seq<u8>) -> Result<Packet578Model, DeserializeErr> {
    match PlayParticleSpec::spec_deserialize(body) {
        Ok((v, _)) => Ok(Packet578Model::PlayParticle(v)),
        Err(e) => Err(e),
    }
}

#[verifier::rlimit(100)]
#[verifier::spinoff_prover]
proof fn lemma_play_particle(v: PlayParticleSpecModel)
    requires
        PlayParticleSpec::legal(v),
    ensures
        PlayParticleSpec::encodable(v),
        Packet578::spec_decode(State::Play, PacketDirection::ClientBound, 36i32, PlayParticleSpec::spec_serialize(v))
            == Ok::<Packet578Model, DeserializeErr>(Packet578Model::PlayParticle(v)),
{
    reveal(decode_play_particle);
    PlayParticleSpec::lemma_round_trip(v);
}

/// The body of the play update light message, read as that message.
#[verifier::opaque]
pub open spec fn decode_play_update_light(body: Seq<u8>) -> Result<Packet578Model, DeserializeErr> {
    match PlayUpdateLightSpec::spec_deserialize(body) {
        Ok((v, _)) => Ok(Packet578Model::PlayUpdateLight(v)),
        Err(e) => Err(e),
    }
}

#[verifier::rlimit(100)]
#[verifier::spinoff_prover]
proof fn lemma_play_update_light(v: <PlayUpdateLightSpec as Codec>::Model)
    requires
        PlayUpdateLightSpec::legal(v),
    ensures
        PlayUpdateLightSpec::encodable(v),
        Packet578::spec_decode(State::Play, PacketDirection::ClientBound, 37i32, PlayUpdateLightSpec::spec_serialize(v))
            == Ok::<Packet578Model, DeserializeErr>(Packet578Model::PlayUpdateLight(v)),
{
    reveal(decode_play_update_light);
    PlayUpdateLightSpec::lemma_round_trip(v, Seq::empty());
    assert(PlayUpdateLightSpec::spec_serialize(v) + Seq::<u8>::empty() =~= PlayUpdateLightSpec::spec_serialize(v));
}

/// The body of the play join game message, read as that message.
#[verifier::opaque]
pub open spec fn decode_play_join_game(body: Seq<u8>) -> Result<Packet578Model, DeserializeErr> {
    match PlayJoinGameSpec::spec_deserialize(body) {
        Ok((v, _)) => Ok(Packet578Model::PlayJoinGame(v)),
        Err(e) => Err(e),
    }
}

#[verifier::rlimit(100)]
#[verifier::spinoff_prover]
proof fn lemma_play_join_game(v: <PlayJoinGameSpec as Codec>::Model)
    requires
        PlayJoinGameSpec::legal(v),
    ensures
        PlayJoinGameSpec::encodable(v),
        Packet578::spec_decode(State::Play, PacketDirection::ClientBound, 38i32, PlayJoinGameSpec::spec_serialize(v))
            == Ok::<Packet578Model, DeserializeErr>(Packet578Model::PlayJoinGame(v)),
{
    reveal(decode_play_join_game);
    PlayJoinGameSpec::lemma_round_trip(v, Seq::empty());
    assert(PlayJoinGameSpec::spec_serialize(v) + Seq::<u8>::empty() =~= PlayJoinGameSpec::spec_serialize(v));
}

/// The body of the play map data message, read as that message.
#[verifier::opaque]
pub open spec fn decode_play_map_data(body: Seq<u8>) -> Result<Packet578Model, DeserializeErr> {
    match PlayMapDataSpec::spec_deserialize(body) {
        Ok((v, _)) => Ok(Packet578Model::PlayMapData(v)),
        Err(e) => Err(e),
    }
}

#[verifier::rlimit(100)]
#[verifier::spinoff_prover]
proof fn lemma_play_map_data(v: <PlayMapDataSpec as Codec>::Model)
    requires
        PlayMapDataSpec::legal(v),
    ensures
        PlayMapDataSpec::encodable(v),
        Packet578::spec_decode(State::Play, PacketDirection::ClientBound, 39i32, PlayMapDataSpec::spec_serialize(v))
            == Ok::<Packet578Model, DeserializeErr>(Packet578Model::PlayMapData(v)),
{
    reveal(decode_play_map_data);
    PlayMapDataSpec::lemma_round_trip(v, Seq::empty());
    assert(PlayMapDataSpec::spec_serialize(v) + Seq::<u8>::empty() =~= PlayMapDataSpec::spec_serialize(v));
}

/// The body of the play trade list message, read as that message.
#[verifier::opaque]
pub open spec fn decode_play_trade_list(body: Seq<u8>) -> Result<Packet578Model, DeserializeErr> {
    match PlayTradeListSpec::spec_deserialize(body) {
        Ok((v, _)) => Ok(Packet578Model::PlayTradeList(v)),
        Err(e) => Err(e),
    }
}

#[verifier::rlimit(100)]
#[verifier::spinoff_prover]
proof fn lemma_play_trade_list(v: <PlayTradeListSpec as Codec>::Model)
    requires
        PlayTradeListSpec::legal(v),
    ensures
        PlayTradeListSpec::encodable(v),
        Packet578::spec_decode(State::Play, PacketDirection::ClientBound, 40i32, PlayTradeListSpec::spec_serialize(v))
            == Ok::<Packet578Model, DeserializeErr>(Packet578Model::PlayTradeList(v)),
{
    reveal(decode_play_trade_list);
    PlayTradeListSpec::lemma_round_trip(v, Seq::empty());
    assert(PlayTradeListSpec::spec_serialize(v) + Seq::<u8>::empty() =~= PlayTradeListSpec::spec_serialize(v));
}

/// The body of the play entity position message, read as that message.
#[verifier::opaque]
pub open spec fn decode_play_entity_position(body: Seq<u8>) -> Result<Packet578Model, DeserializeErr> {
    match PlayEntityPositionSpec::spec_deserialize(body) {
        Ok((v, _)) => Ok(Packet578Model::PlayEntityPosition(v)),
        Err(e) => Err(e),
    }
}

#[verifier::rlimit(100)]
#[verifier::spinoff_prover]
proof fn lemma_play_entity_position(v: <PlayEntityPositionSpec as Codec>::Model)
    requires
        PlayEntityPositionSpec::legal(v),
    ensures
        PlayEntityPositionSpec::encodable(v),
        Packet578::spec_decode(State::Play, PacketDirection::ClientBound, 41i32, PlayEntityPositionSpec::spec_serialize(v))
            == Ok::<Packet578Model, DeserializeErr>(Packet578Model::PlayEntityPosition(v)),
{
    reveal(decode_play_entity_position);
    PlayEntityPositionSpec::lemma_round_trip(v, Seq::empty());
    assert(PlayEntityPositionSpec::spec_serialize(v) + Seq::<u8>::empty() =~= PlayEntityPositionSpec::spec_serialize(v));
}

/// The body of the play entity position and rotation message, read as that message.
#[verifier::opaque]
pub open spec fn decode_play_entity_position_and_rotation(body: Seq<u8>) -> Result<Packet578Model, DeserializeErr> {
    match PlayEntityPositionAndRotationSpec::spec_deserialize(body) {
        Ok((v, _)) => Ok(Packet578Model::PlayEntityPositionAndRotation(v)),
        Err(e) => Err(e),
    }
}

#[verifier::rlimit(100)]
#[verifier::spinoff_prover]
proof fn lemma_play_entity_position_and_rotation(v: <PlayEntityPositionAndRotationSpec as Codec>::Model)
    requires
        PlayEntityPositionAndRotationSpec::legal(v),
    ensures
        PlayEntityPositionAndRotationSpec::encodable(v),
        Packet578::spec_decode(State::Play, PacketDirection::ClientBound, 42i32, PlayEntityPositionAndRotationSpec::spec_serialize(v))
            == Ok::<Packet578Model, DeserializeErr>(Packet578Model::PlayEntityPositionAndRotation(v)),
{
    reveal(decode_play_entity_position_and_rotation);
    PlayEntityPositionAndRotationSpec::lemma_round_trip(v, Seq::empty());
    assert(PlayEntityPositionAndRotationSpec::spec_serialize(v) + Seq::<u8>::empty() =~= PlayEntityPositionAndRotationSpec::spec_serialize(v));
}

/// The body of the play entity rotation message, read as that message.
#[verifier::opaque]
pub open spec fn decode_play_entity_rotation(body: Seq<u8>) -> Result<Packet578Model, DeserializeErr> {
    match PlayEntityRotationSpec::spec_deserialize(body) {
        Ok((v, _)) => Ok(Packet578Model::PlayEntityRotation(v)),
        Err(e) => Err(e),
    }
}

#[verifier::rlimit(100)]
#[verifier::spinoff_prover]
proof fn lemma_play_entity_rotation(v: <PlayEntityRotationSpec as Codec>::Model)
    requires
        PlayEntityRotationSpec::legal(v),
    ensures
        PlayEntityRotationSpec::encodable(v),
        Packet578::spec_decode(State::Play, PacketDirection::ClientBound, 43i32, PlayEntityRotationSpec::spec_serialize(v))
            == Ok::<Packet578Model, DeserializeErr>(Packet578Model::PlayEntityRotation(v)),
{
    reveal(decode_play_entity_rotation);
    PlayEntityRotationSpec::lemma_round_trip(v, Seq::empty());
    assert(PlayEntityRotationSpec::spec_serialize(v) + Seq::<u8>::empty() =~= PlayEntityRotationSpec::spec_serialize(v));
}

/// The body of the play entity movement message, read as that message.
#[verifier::opaque]
pub open spec fn decode_play_entity_movement(body: Seq<u8>) -> Result<Packet578Model, DeserializeErr> {
    match PlayEntityMovementSpec::spec_deserialize(body) {
        Ok((v, _)) => Ok(Packet578Model::PlayEntityMovement(v)),
        Err(e) => Err(e),
    }
}

#[verifier::rlimit(100)]
#[verifier::spinoff_prover]
proof fn lemma_play_entity_movement(v: <PlayEntityMovementSpec as Codec>::Model)
    requires
        PlayEntityMovementSpec::legal(v),
    ensures
        PlayEntityMovementSpec::encodable(v),
        Packet578::spec_decode(State::Play, PacketDirection::ClientBound, 44i32, PlayEntityMovementSpec::spec_serialize(v))
            == Ok::<Packet578Model, DeserializeErr>(Packet578Model::PlayEntityMovement(v)),
{
    reveal(decode_play_entity_movement);
    PlayEntityMovementSpec::lemma_round_trip(v, Seq::empty());
    assert(PlayEntityMovementSpec::spec_serialize(v) + Seq::<u8>::empty() =~= PlayEntityMovementSpec::spec_serialize(v));
}

/// The body of the play server vehicle move message, read as that message.
#[verifier::opaque]
pub open spec fn decode_play_server_vehicle_move(body: Seq<u8>) -> Result<Packet578Model, DeserializeErr> {
    match PlayEntityVehicleMoveSpec::spec_deserialize(body) {
        Ok((v, _)) => Ok(Packet578Model::PlayServerVehicleMove(v)),
        Err(e) => Err(e),
    }
}

#[verifier::rlimit(100)]
#[verifier::spinoff_prover]
proof fn lemma_play_server_vehicle_move(v: <PlayEntityVehicleMoveSpec as Codec>::Model)
    requires
        PlayEntityVehicleMoveSpec::legal(v),
    ensures
        PlayEntityVehicleMoveSpec::encodable(v),
        Packet578::spec_decode(State::Play, PacketDirection::ClientBound, 45i32, PlayEntityVehicleMoveSpec::spec_serialize(v))
            == Ok::<Packet578Model, DeserializeErr>(Packet578Model::PlayServerVehicleMove(v)),
{
    reveal(decode_play_server_vehicle_move);
    PlayEntityVehicleMoveSpec::lemma_round_trip(v, Seq::empty());
    assert(PlayEntityVehicleMoveSpec::spec_serialize(v) + Seq::<u8>::empty() =~= PlayEntityVehicleMoveSpec::spec_serialize(v));
}

/// The body of the play open book message, read as that message.
#[verifier::opaque]
pub open spec fn decode_play_open_book(body: Seq<u8>) -> Result<Packet578Model, DeserializeErr> {
    match PlayOpenBookSpec::spec_deserialize(body) {
        Ok((v, _)) => Ok(Packet578Model::PlayOpenBook(v)),
        Err(e) => Err(e),
    }
}

#[verifier::rlimit(100)]
#[verifier::spinoff_prover]
proof fn lemma_play_open_book(v: <PlayOpenBookSpec as Codec>::Model)
    requires
        PlayOpenBookSpec::legal(v),
    ensures
        PlayOpenBookSpec::encodable(v),
        Packet578::spec_decode(State::Play, PacketDirection::ClientBound, 46i32, PlayOpenBookSpec::spec_serialize(v))
            == Ok::<Packet578Model, DeserializeErr>(Packet578Model::PlayOpenBook(v)),
{
    reveal(decode_play_open_book);
    PlayOpenBookSpec::lemma_round_trip(v, Seq::empty());
    assert(PlayOpenBookSpec::spec_serialize(v) + Seq::<u8>::empty() =~= PlayOpenBookSpec::spec_serialize(v));
}

/// The body of the play open window message, read as that message.
#[verifier::opaque]
pub open spec fn decode_play_open_window(body: Seq<u8>) -> Result<Packet578Model, DeserializeErr> {
    match PlayOpenWindowSpec::spec_deserialize(body) {
        Ok((v, _)) => Ok(Packet578Model::PlayOpenWindow(v)),
        Err(e) => Err(e),
    }
}

#[verifier::rlimit(100)]
#[verifier::spinoff_prover]
proof fn lemma_play_open_window(v: <PlayOpenWindowSpec as Codec>::Model)
    requires
        PlayOpenWindowSpec::legal(v),
    ensures
        PlayOpenWindowSpec::encodable(v),
        Packet578::spec_decode(State::Play, PacketDirection::ClientBound, 47i32, PlayOpenWindowSpec::spec_serialize(v))
            == Ok::<Packet578Model, DeserializeErr>(Packet578Model::PlayOpenWindow(v)),
{
    reveal(decode_play_open_window);
    PlayOpenWindowSpec::lemma_round_trip(v, Seq::empty());
    assert(PlayOpenWindowSpec::spec_serialize(v) + Seq::<u8>::empty() =~= PlayOpenWindowSpec::spec_serialize(v));
}

/// The body of the play open sign editor message, read as that message.
#[verifier::opaque]
pub open spec fn decode_play_open_sign_editor(body: Seq<u8>) -> Result<Packet578Model, DeserializeErr> {
    match PlayOpenSignEditorSpec::spec_deserialize(body) {
        Ok((v, _)) => Ok(Packet578Model::PlayOpenSignEditor(v)),
        Err(e) => Err(e),
    }
}

#[verifier::rlimit(100)]
#[verifier::spinoff_prover]
proof fn lemma_play_open_sign_editor(v: <PlayOpenSignEditorSpec as Codec>::Model)
    requires
        PlayOpenSignEditorSpec::legal(v),
    ensures
        PlayOpenSignEditorSpec::encodable(v),
        Packet578::spec_decode(State::Play, PacketDirection::ClientBound, 48i32, PlayOpenSignEditorSpec::spec_serialize(v))
            == Ok::<Packet578Model, DeserializeErr>(Packet578Model::PlayOpenSignEditor(v)),
{
    reveal(decode_play_open_sign_editor);
    PlayOpenSignEditorSpec::lemma_round_trip(v, Seq::empty());
    assert(PlayOpenSignEditorSpec::spec_serialize(v) + Seq::<u8>::empty() =~= PlayOpenSignEditorSpec::spec_serialize(v));
}

/// The body of the play craft recipe response message, read as that message.
#[verifier::opaque]
pub open spec fn decode_play_craft_recipe_response(body: Seq<u8>) -> Result<Packet578Model, DeserializeErr> {
    match PlayCraftRecipeResponseSpec::spec_deserialize(body) {
        Ok((v, _)) => Ok(Packet578Model::PlayCraftRecipeResponse(v)),
        Err(e) => Err(e),
    }
}

#[verifier::rlimit(100)]
#[verifier::spinoff_prover]
proof fn lemma_play_craft_recipe_response(v: <PlayCraftRecipeResponseSpec as Codec>::Model)
    requires
        PlayCraftRecipeResponseSpec::legal(v),
    ensures
        PlayCraftRecipeResponseSpec::encodable(v),
        Packet578::spec_decode(State::Play, PacketDirection::ClientBound, 49i32, PlayCraftRecipeResponseSpec::spec_serialize(v))
            == Ok::<Packet578Model, DeserializeErr>(Packet578Model::PlayCraftRecipeResponse(v)),
{
    reveal(decode_play_craft_recipe_response);
    PlayCraftRecipeResponseSpec::lemma_round_trip(v, Seq::empty());
    assert(PlayCraftRecipeResponseSpec::spec_serialize(v) + Seq::<u8>::empty() =~= PlayCraftRecipeResponseSpec::spec_serialize(v));
}

/// The body of the play server player abilities message, read as that message.
#[verifier::opaque]
pub open spec fn decode_play_server_player_abilities(body: Seq<u8>) -> Result<Packet578Model, DeserializeErr> {
    match PlayServerPlayerAbilitiesSpec::spec_deserialize(body) {
        Ok((v, _)) => Ok(Packet578Model::PlayServerPlayerAbilities(v)),
        Err(e) => Err(e),
    }
}

#[verifier::rlimit(100)]
#[verifier::spinoff_prover]
proof fn lemma_play_server_player_abilities(v: <PlayServerPlayerAbilitiesSpec as Codec>::Model)
    requires
        PlayServerPlayerAbilitiesSpec::legal(v),
    ensures
        PlayServerPlayerAbilitiesSpec::encodable(v),
        Packet578::spec_decode(State::Play, PacketDirection::ClientBound, 50i32, PlayServerPlayerAbilitiesSpec::spec_serialize(v))
            == Ok::<Packet578Model, DeserializeErr>(Packet578Model::PlayServerPlayerAbilities(v)),
{
    reveal(decode_play_server_player_abilities);
    PlayServerPlayerAbilitiesSpec::lemma_round_trip(v, Seq::empty());
    assert(PlayServerPlayerAbilitiesSpec::spec_serialize(v) + Seq::<u8>::empty() =~= PlayServerPlayerAbilitiesSpec::spec_serialize(v));
}

/// The body of the play combat event message, read as that message.
#[verifier::opaque]
pub open spec fn decode_play_combat_event(body: Seq<u8>) -> Result<Packet578Model, DeserializeErr> {
    match PlayCombatEventSpec::spec_deserialize(body) {
        Ok((v, _)) => Ok(Packet578Model::PlayCombatEvent(v)),
        Err(e) => Err(e),
    }
}

#[verifier::rlimit(100)]
#[verifier::spinoff_prover]
proof fn lemma_play_combat_event(v: <PlayCombatEventSpec as Codec>::Model)
    requires
        PlayCombatEventSpec::legal(v),
    ensures
        PlayCombatEventSpec::encodable(v),
        Packet578::spec_decode(State::Play, PacketDirection::ClientBound, 51i32, PlayCombatEventSpec::spec_serialize(v))
            == Ok::<Packet578Model, DeserializeErr>(Packet578Model::PlayCombatEvent(v)),
{
    reveal(decode_play_combat_event);
    PlayCombatEventSpec::lemma_round_trip(v, Seq::empty());
    assert(PlayCombatEventSpec::spec_serialize(v) + Seq::<u8>::empty() =~= PlayCombatEventSpec::spec_serialize(v));
}

/// The body of the play player info message, read as that message.
#[verifier::opaque]
pub open spec fn decode_play_player_info(body: Seq<u8>) -> Result<Packet578Model, DeserializeErr> {
    match PlayPlayerInfoSpec::spec_deserialize(body) {
        Ok((v, _)) => Ok(Packet578Model::PlayPlayerInfo(v)),
        Err(e) => Err(e),
    }
}

#[verifier::rlimit(100)]
#[verifier::spinoff_prover]
proof fn lemma_play_player_info(v: <PlayPlayerInfoSpec as Codec>::Model)
    requires
        PlayPlayerInfoSpec::legal(v),
    ensures
        PlayPlayerInfoSpec::encodable(v),
        Packet578::spec_decode(State::Play, PacketDirection::ClientBound, 52i32, PlayPlayerInfoSpec::spec_serialize(v))
            == Ok::<Packet578Model, DeserializeErr>(Packet578Model::PlayPlayerInfo(v)),
{
    reveal(decode_play_player_info);
    PlayPlayerInfoSpec::lemma_round_trip(v, Seq::empty());
    assert(PlayPlayerInfoSpec::spec_serialize(v) + Seq::<u8>::empty() =~= PlayPlayerInfoSpec::spec_serialize(v));
}

/// The body of the play face player message, read as that message.
#[verifier::opaque]
pub open spec fn decode_play_face_player(body: Seq<u8>) -> Result<Packet578Model, DeserializeErr> {
    match PlayFacePlayerSpec::spec_deserialize(body) {
        Ok((v, _)) => Ok(Packet578Model::PlayFacePlayer(v)),
        Err(e) => Err(e),
    }
}

#[verifier::rlimit(100)]
#[verifier::spinoff_prover]
proof fn lemma_play_face_player(v: <PlayFacePlayerSpec as Codec>::Model)
    requires
        PlayFacePlayerSpec::legal(v),
    ensures
        PlayFacePlayerSpec::encodable(v),
        Packet578::spec_decode(State::Play, PacketDirection::ClientBound, 53i32, PlayFacePlayerSpec::spec_serialize(v))
            == Ok::<Packet578Model, DeserializeErr>(Packet578Model::PlayFacePlayer(v)),
{
    reveal(decode_play_face_player);
    PlayFacePlayerSpec::lemma_round_trip(v, Seq::empty());
    assert(PlayFacePlayerSpec::spec_serialize(v) + Seq::<u8>::empty() =~= PlayFacePlayerSpec::spec_serialize(v));
}

/// The body of the play server player position and look message, read as that message.
#[verifier::opaque]
pub open spec fn decode_play_server_player_position_and_look(body: Seq<u8>) -> Result<Packet578Model, DeserializeErr> {
    match PlayServerPlayerPositionAndLookSpec::spec_deserialize(body) {
        Ok((v, _)) => Ok(Packet578Model::PlayServerPlayerPositionAndLook(v)),
        Err(e) => Err(e),
    }
}

#[verifier::rlimit(100)]
#[verifier::spinoff_prover]
proof fn lemma_play_server_player_position_and_look(v: <PlayServerPlayerPositionAndLookSpec as Codec>::Model)
    requires
        PlayServerPlayerPositionAndLookSpec::legal(v),
    ensures
        PlayServerPlayerPositionAndLookSpec::encodable(v),
        Packet578::spec_decode(State::Play, PacketDirection::ClientBound, 54i32, PlayServerPlayerPositionAndLookSpec::spec_serialize(v))
            == Ok::<Packet578Model, DeserializeErr>(Packet578Model::PlayServerPlayerPositionAndLook(v)),
{
    reveal(decode_play_server_player_position_and_look);
    PlayServerPlayerPositionAndLookSpec::lemma_round_trip(v, Seq::empty());
    assert(PlayServerPlayerPositionAndLookSpec::spec_serialize(v) + Seq::<u8>::empty() =~= PlayServerPlayerPositionAndLookSpec::spec_serialize(v));
}

/// The body of the play unlock recipes message, read as that message.
#[verifier::opaque]
pub open spec fn decode_play_unlock_recipes(body: Seq<u8>) -> Result<Packet578Model, DeserializeErr> {
    match PlayUnlockRecipesSpec::spec_deserialize(body) {
        Ok((v, _)) => Ok(Packet578Model::PlayUnlockRecipes(v)),
        Err(e) => Err(e),
    }
}

#[verifier::rlimit(100)]
#[verifier::spinoff_prover]
proof fn lemma_play_unlock_recipes(v: PlayUnlockRecipesSpecModel)
    requires
        PlayUnlockRecipesSpec::legal(v),
    ensures
        PlayUnlockRecipesSpec::encodable(v),
        Packet578::spec_decode(State::Play, PacketDirection::ClientBound, 55i32, PlayUnlockRecipesSpec::spec_serialize(v))
            == Ok::<Packet578Model, DeserializeErr>(Packet578Model::PlayUnlockRecipes(v)),
{
    reveal(decode_play_unlock_recipes);
    PlayUnlockRecipesSpec::lemma_round_trip(v);
}

/// The body of the play destroy entities message, read as that message.
#[verifier::opaque]
pub open spec fn decode_play_destroy_entities(body: Seq<u8>) -> Result<Packet578Model, DeserializeErr> {
    match PlayDestroyEntitiesSpec::spec_deserialize(body) {
        Ok((v, _)) => Ok(Packet578Model::PlayDestroyEntities(v)),
        Err(e) => Err(e),
    }
}

#[verifier::rlimit(100)]
#[verifier::spinoff_prover]
proof fn lemma_play_destroy_entities(v: <PlayDestroyEntitiesSpec as Codec>::Model)
    requires
        PlayDestroyEntitiesSpec::legal(v),
    ensures
        PlayDestroyEntitiesSpec::encodable(v),
        Packet578::spec_decode(State::Play, PacketDirection::ClientBound, 56i32, PlayDestroyEntitiesSpec::spec_serialize(v))
            == Ok::<Packet578Model, DeserializeErr>(Packet578Model::PlayDestroyEntities(v)),
{
    reveal(decode_play_destroy_entities);
    PlayDestroyEntitiesSpec::lemma_round_trip(v, Seq::empty());
    assert(PlayDestroyEntitiesSpec::spec_serialize(v) + Seq::<u8>::empty() =~= PlayDestroyEntitiesSpec::spec_serialize(v));
}

/// The body of the play remove entity effect message, read as that message.
#[verifier::opaque]
pub open spec fn decode_play_remove_entity_effect(body: Seq<u8>) -> Result<Packet578Model, DeserializeErr> {
    match PlayRemoveEntityEffectSpec::spec_deserialize(body) {
        Ok((v, _)) => Ok(Packet578Model::PlayRemoveEntityEffect(v)),
        Err(e) => Err(e),
    }
}

#[verifier::rlimit(100)]
#[verifier::spinoff_prover]
proof fn lemma_play_remove_entity_effect(v: <PlayRemoveEntityEffectSpec as Codec>::Model)
    requires
        PlayRemoveEntityEffectSpec::legal(v),
    ensures
        PlayRemoveEntityEffectSpec::encodable(v),
        Packet578::spec_decode(State::Play, PacketDirection::ClientBound, 57i32, PlayRemoveEntityEffectSpec::spec_serialize(v))
            == Ok::<Packet578Model, DeserializeErr>(Packet578Model::PlayRemoveEntityEffect(v)),
{
    reveal(decode_play_remove_entity_effect);
    PlayRemoveEntityEffectSpec::lemma_round_trip(v, Seq::empty());
    assert(PlayRemoveEntityEffectSpec::spec_serialize(v) + Seq::<u8>::empty() =~= PlayRemoveEntityEffectSpec::spec_serialize(v));
}

/// The body of the play resource pack send message, read as that message.
#[verifier::opaque]
pub open spec fn decode_play_resource_pack_send(body: Seq<u8>) -> Result<Packet578Model, DeserializeErr> {
    match PlayResourcePackSendSpec::spec_deserialize(body) {
        Ok((v, _)) => Ok(Packet578Model::PlayResourcePackSend(v)),
        Err(e) => Err(e),
    }
}

#[verifier::rlimit(100)]
#[verifier::spinoff_prover]
proof fn lemma_play_resource_pack_send(v: <PlayResourcePackSendSpec as Codec>::Model)
    requires
        PlayResourcePackSendSpec::legal(v),
    ensures
        PlayResourcePackSendSpec::encodable(v),
        Packet578::spec_decode(State::Play, PacketDirection::ClientBound, 58i32, PlayResourcePackSendSpec::spec_serialize(v))
            == Ok::<Packet578Model, DeserializeErr>(Packet578Model::PlayResourcePackSend(v)),
{
    reveal(decode_play_resource_pack_send);
    PlayResourcePackSendSpec::lemma_round_trip(v, Seq::empty());
    assert(PlayResourcePackSendSpec::spec_serialize(v) + Seq::<u8>::empty() =~= PlayResourcePackSendSpec::spec_serialize(v));
}

/// The body of the play respawn message, read as that message.
#[verifier::opaque]
pub open spec fn decode_play_respawn(body: Seq<u8>) -> Result<Packet578Model, DeserializeErr> {
    match PlayRespawnSpec::spec_deserialize(body) {
        Ok((v, _)) => Ok(Packet578Model::PlayRespawn(v)),
        Err(e) => Err(e),
    }
}

#[verifier::rlimit(100)]
#[verifier::spinoff_prover]
proof fn lemma_play_respawn(v: <PlayRespawnSpec as Codec>::Model)
    requires
        PlayRespawnSpec::legal(v),
    ensures
        PlayRespawnSpec::encodable(v),
        Packet578::spec_decode(State::Play, PacketDirection::ClientBound, 59i32, PlayRespawnSpec::spec_serialize(v))
            == Ok::<Packet578Model, DeserializeErr>(Packet578Model::PlayRespawn(v)),
{
    reveal(decode_play_respawn);
    PlayRespawnSpec::lemma_round_trip(v, Seq::empty());
    assert(PlayRespawnSpec::spec_serialize(v) + Seq::<u8>::empty() =~= PlayRespawnSpec::spec_serialize(v));
}

/// The body of the play entity head look message, read as that message.
#[verifier::opaque]
pub open spec fn decode_play_entity_head_look(body: Seq<u8>) -> Result<Packet578Model, DeserializeErr> {
    match PlayEntityHeadLookSpec::spec_deserialize(body) {
        Ok((v, _)) => Ok(Packet578Model::PlayEntityHeadLook(v)),
        Err(e) => Err(e),
    }
}

#[verifier::rlimit(100)]
#[verifier::spinoff_prover]
proof fn lemma_play_entity_head_look(v: <PlayEntityHeadLookSpec as Codec>::Model)
    requires
        PlayEntityHeadLookSpec::legal(v),
    ensures
        PlayEntityHeadLookSpec::encodable(v),
        Packet578::spec_decode(State::Play, PacketDirection::ClientBound, 60i32, PlayEntityHeadLookSpec::spec_serialize(v))
            == Ok::<Packet578Model, DeserializeErr>(Packet578Model::PlayEntityHeadLook(v)),
{
    reveal(decode_play_entity_head_look);
    PlayEntityHeadLookSpec::lemma_round_trip(v, Seq::empty());
    assert(PlayEntityHeadLookSpec::spec_serialize(v) + Seq::<u8>::empty() =~= PlayEntityHeadLookSpec::spec_serialize(v));
}

/// The body of the play select advancement tab message, read as that message.
#[verifier::opaque]
pub open spec fn decode_play_select_advancement_tab(body: Seq<u8>) -> Result<Packet578Model, DeserializeErr> {
    match PlaySelectAdvancementTabSpec::spec_deserialize(body) {
        Ok((v, _)) => Ok(Packet578Model::PlaySelectAdvancementTab(v)),
        Err(e) => Err(e),
    }
}

#[verifier::rlimit(100)]
#[verifier::spinoff_prover]
proof fn lemma_play_select_advancement_tab(v: <PlaySelectAdvancementTabSpec as Codec>::Model)
    requires
        PlaySelectAdvancementTabSpec::legal(v),
    ensures
        PlaySelectAdvancementTabSpec::encodable(v),
        Packet578::spec_decode(State::Play, PacketDirection::ClientBound, 61i32, PlaySelectAdvancementTabSpec::spec_serialize(v))
            == Ok::<Packet578Model, DeserializeErr>(Packet578Model::PlaySelectAdvancementTab(v)),
{
    reveal(decode_play_select_advancement_tab);
    PlaySelectAdvancementTabSpec::lemma_round_trip(v, Seq::empty());
    assert(PlaySelectAdvancementTabSpec::spec_serialize(v) + Seq::<u8>::empty() =~= PlaySelectAdvancementTabSpec::spec_serialize(v));
}

/// The body of the play world border message, read as that message.
#[verifier::opaque]
pub open spec fn decode_play_world_border(body: Seq<u8>) -> Result<Packet578Model, DeserializeErr> {
    match PlayWorldBorderSpec::spec_deserialize(body) {
        Ok((v, _)) => Ok(Packet578Model::PlayWorldBorder(v)),
        Err(e) => Err(e),
    }
}

#[verifier::rlimit(100)]
#[verifier::spinoff_prover]
proof fn lemma_play_world_border(v: <PlayWorldBorderSpec as Codec>::Model)
    requires
        PlayWorldBorderSpec::legal(v),
    ensures
        PlayWorldBorderSpec::encodable(v),
        Packet578::spec_decode(State::Play, PacketDirection::ClientBound, 62i32, PlayWorldBorderSpec::spec_serialize(v))
            == Ok::<Packet578Model, DeserializeErr>(Packet578Model::PlayWorldBorder(v)),
{
    reveal(decode_play_world_border);
    PlayWorldBorderSpec::lemma_round_trip(v, Seq::empty());
    assert(PlayWorldBorderSpec::spec_serialize(v) + Seq::<u8>::empty() =~= PlayWorldBorderSpec::spec_serialize(v));
}

/// The body of the play camera message, read as that message.
#[verifier::opaque]
pub open spec fn decode_play_camera(body: Seq<u8>) -> Result<Packet578Model, DeserializeErr> {
    match PlayCameraSpec::spec_deserialize(body) {
        Ok((v, _)) => Ok(Packet578Model::PlayCamera(v)),
        Err(e) => Err(e),
    }
}

#[verifier::rlimit(100)]
#[verifier::spinoff_prover]
proof fn lemma_play_camera(v: <PlayCameraSpec as Codec>::Model)
    requires
        PlayCameraSpec::legal(v),
    ensures
        PlayCameraSpec::encodable(v),
        Packet578::spec_decode(State::Play, PacketDirection::ClientBound, 63i32, PlayCameraSpec::spec_serialize(v))
            == Ok::<Packet578Model, DeserializeErr>(Packet578Model::PlayCamera(v)),
{
    reveal(decode_play_camera);
    PlayCameraSpec::lemma_round_trip(v, Seq::empty());
    assert(PlayCameraSpec::spec_serialize(v) + Seq::<u8>::empty() =~= PlayCameraSpec::spec_serialize(v));
}

/// The body of the play server held item change message, read as that message.
#[verifier::opaque]
pub open spec fn decode_play_server_held_item_change(body: Seq<u8>) -> Result<Packet578Model, DeserializeErr> {
    match PlayServerHeldItemChangeSpec::spec_deserialize(body) {
        Ok((v, _)) => Ok(Packet578Model::PlayServerHeldItemChange(v)),
        Err(e) => Err(e),
    }
}

#[verifier::rlimit(100)]
#[verifier::spinoff_prover]
proof fn lemma_play_server_held_item_change(v: <PlayServerHeldItemChangeSpec as Codec>::Model)
    requires
        PlayServerHeldItemChangeSpec::legal(v),
    ensures
        PlayServerHeldItemChangeSpec::encodable(v),
        Packet578::spec_decode(State::Play, PacketDirection::ClientBound, 64i32, PlayServerHeldItemChangeSpec::spec_serialize(v))
            == Ok::<Packet578Model, DeserializeErr>(Packet578Model::PlayServerHeldItemChange(v)),
{
    reveal(decode_play_server_held_item_change);
    PlayServerHeldItemChangeSpec::lemma_round_trip(v, Seq::empty());
    assert(PlayServerHeldItemChangeSpec::spec_serialize(v) + Seq::<u8>::empty() =~= PlayServerHeldItemChangeSpec::spec_serialize(v));
}

/// The body of the play update view position message, read as that message.
#[verifier::opaque]
pub open spec fn decode_play_update_view_position(body: Seq<u8>) -> Result<Packet578Model, DeserializeErr> {
    match PlayUpdateViewPositionSpec::spec_deserialize(body) {
        Ok((v, _)) => Ok(Packet578Model::PlayUpdateViewPosition(v)),
        Err(e) => Err(e),
    }
}

#[verifier::rlimit(100)]
#[verifier::spinoff_prover]
proof fn lemma_play_update_view_position(v: <PlayUpdateViewPositionSpec as Codec>::Model)
    requires
        PlayUpdateViewPositionSpec::legal(v),
    ensures
        PlayUpdateViewPositionSpec::encodable(v),
        Packet578::spec_decode(State::Play, PacketDirection::ClientBound, 65i32, PlayUpdateViewPositionSpec::spec_serialize(v))
            == Ok::<Packet578Model, DeserializeErr>(Packet578Model::PlayUpdateViewPosition(v)),
{
    reveal(decode_play_update_view_position);
    PlayUpdateViewPositionSpec::lemma_round_trip(v, Seq::empty());
    assert(PlayUpdateViewPositionSpec::spec_serialize(v) + Seq::<u8>::empty() =~= PlayUpdateViewPositionSpec::spec_serialize(v));
}

/// The body of the play update view distance message, read as that message.
#[verifier::opaque]
pub open spec fn decode_play_update_view_distance(body: Seq<u8>) -> Result<Packet578Model, DeserializeErr> {
    match PlayUpdateViewDistanceSpec::spec_deserialize(body) {
        Ok((v, _)) => Ok(Packet578Model::PlayUpdateViewDistance(v)),
        Err(e) => Err(e),
    }
}

#[verifier::rlimit(100)]
#[verifier::spinoff_prover]
proof fn lemma_play_update_view_distance(v: <PlayUpdateViewDistanceSpec as Codec>::Model)
    requires
        PlayUpdateViewDistanceSpec::legal(v),
    ensures
        PlayUpdateViewDistanceSpec::encodable(v),
        Packet578::spec_decode(State::Play, PacketDirection::ClientBound, 66i32, PlayUpdateViewDistanceSpec::spec_serialize(v))
            == Ok::<Packet578Model, DeserializeErr>(Packet578Model::PlayUpdateViewDistance(v)),
{
    reveal(decode_play_update_view_distance);
    PlayUpdateViewDistanceSpec::lemma_round_trip(v, Seq::empty());
    assert(PlayUpdateViewDistanceSpec::spec_serialize(v) + Seq::<u8>::empty() =~= PlayUpdateViewDistanceSpec::spec_serialize(v));
}

/// The body of the play display scoreboard message, read as that message.
#[verifier::opaque]
pub open spec fn decode_play_display_scoreboard(body: Seq<u8>) -> Result<Packet578Model, DeserializeErr> {
    match PlayDisplayScoreboardSpec::spec_deserialize(body) {
        Ok((v, _)) => Ok(Packet578Model::PlayDisplayScoreboard(v)),
        Err(e) => Err(e),
    }
}

#[verifier::rlimit(100)]
#[verifier::spinoff_prover]
proof fn lemma_play_display_scoreboard(v: <PlayDisplayScoreboardSpec as Codec>::Model)
    requires
        PlayDisplayScoreboardSpec::legal(v),
    ensures
        PlayDisplayScoreboardSpec::encodable(v),
        Packet578::spec_decode(State::Play, PacketDirection::ClientBound, 67i32, PlayDisplayScoreboardSpec::spec_serialize(v))
            == Ok::<Packet578Model, DeserializeErr>(Packet578Model::PlayDisplayScoreboard(v)),
{
    reveal(decode_play_display_scoreboard);
    PlayDisplayScoreboardSpec::lemma_round_trip(v, Seq::empty());
    assert(PlayDisplayScoreboardSpec::spec_serialize(v) + Seq::<u8>::empty() =~= PlayDisplayScoreboardSpec::spec_serialize(v));
}

/// The body of the play entity metadata message, read as that message.
#[verifier::opaque]
pub open spec fn decode_play_entity_metadata(body: Seq<u8>) -> Result<Packet578Model, DeserializeErr> {
    match PlayEntityMetadataSpec::spec_deserialize(body) {
        Ok((v, _)) => Ok(Packet578Model::PlayEntityMetadata(v)),
        Err(e) => Err(e),
    }
}

#[verifier::rlimit(100)]
#[verifier::spinoff_prover]
proof fn lemma_play_entity_metadata(v: <PlayEntityMetadataSpec as Codec>::Model)
    requires
        PlayEntityMetadataSpec::legal(v),
    ensures
        PlayEntityMetadataSpec::encodable(v),
        Packet578::spec_decode(State::Play, PacketDirection::ClientBound, 68i32, PlayEntityMetadataSpec::spec_serialize(v))
            == Ok::<Packet578Model, DeserializeErr>(Packet578Model::PlayEntityMetadata(v)),
{
    reveal(decode_play_entity_metadata);
    PlayEntityMetadataSpec::lemma_round_trip(v, Seq::empty());
    assert(PlayEntityMetadataSpec::spec_serialize(v) + Seq::<u8>::empty() =~= PlayEntityMetadataSpec::spec_serialize(v));
}

/// The body of the play attach entity message, read as that message.
#[verifier::opaque]
pub open spec fn decode_play_attach_entity(body: Seq<u8>) -> Result<Packet578Model, DeserializeErr> {
    match PlayAttachEntitySpec::spec_deserialize(body) {
        Ok((v, _)) => Ok(Packet578Model::PlayAttachEntity(v)),
        Err(e) => Err(e),
    }
}

#[verifier::rlimit(100)]
#[verifier::spinoff_prover]
proof fn lemma_play_attach_entity(v: <PlayAttachEntitySpec as Codec>::Model)
    requires
        PlayAttachEntitySpec::legal(v),
    ensures
        PlayAttachEntitySpec::encodable(v),
        Packet578::spec_decode(State::Play, PacketDirection::ClientBound, 69i32, PlayAttachEntitySpec::spec_serialize(v))
            == Ok::<Packet578Model, DeserializeErr>(Packet578Model::PlayAttachEntity(v)),
{
    reveal(decode_play_attach_entity);
    PlayAttachEntitySpec::lemma_round_trip(v, Seq::empty());
    assert(PlayAttachEntitySpec::spec_serialize(v) + Seq::<u8>::empty() =~= PlayAttachEntitySpec::spec_serialize(v));
}

/// The body of the play entity velocity message, read as that message.
#[verifier::opaque]
pub open spec fn decode_play_entity_velocity(body: Seq<u8>) -> Result<Packet578Model, DeserializeErr> {
    match PlayEntityVelocitySpec::spec_deserialize(body) {
        Ok((v, _)) => Ok(Packet578Model::PlayEntityVelocity(v)),
        Err(e) => Err(e),
    }
}

#[verifier::rlimit(100)]
#[verifier::spinoff_prover]
proof fn lemma_play_entity_velocity(v: <PlayEntityVelocitySpec as Codec>::Model)
    requires
        PlayEntityVelocitySpec::legal(v),
    ensures
        PlayEntityVelocitySpec::encodable(v),
        Packet578::spec_decode(State::Play, PacketDirection::ClientBound, 70i32, PlayEntityVelocitySpec::spec_serialize(v))
            == Ok::<Packet578Model, DeserializeErr>(Packet578Model::PlayEntityVelocity(v)),
{
    reveal(decode_play_entity_velocity);
    PlayEntityVelocitySpec::lemma_round_trip(v, Seq::empty());
    assert(PlayEntityVelocitySpec::spec_serialize(v) + Seq::<u8>::empty() =~= PlayEntityVelocitySpec::spec_serialize(v));
}

/// The body of the play entity equipment message, read as that message.
#[verifier::opaque]
pub open spec fn decode_play_entity_equipment(body: Seq<u8>) -> Result<Packet578Model, DeserializeErr> {
    match PlayEntityEquiptmentSpec::spec_deserialize(body) {
        Ok((v, _)) => Ok(Packet578Model::PlayEntityEquipment(v)),
        Err(e) => Err(e),
    }
}

#[verifier::rlimit(100)]
#[verifier::spinoff_prover]
proof fn lemma_play_entity_equipment(v: <PlayEntityEquiptmentSpec as Codec>::Model)
    requires
        PlayEntityEquiptmentSpec::legal(v),
    ensures
        PlayEntityEquiptmentSpec::encodable(v),
        Packet578::spec_decode(State::Play, PacketDirection::ClientBound, 71i32, PlayEntityEquiptmentSpec::spec_serialize(v))
            == Ok::<Packet578Model, DeserializeErr>(Packet578Model::PlayEntityEquipment(v)),
{
    reveal(decode_play_entity_equipment);
    PlayEntityEquiptmentSpec::lemma_round_trip(v, Seq::empty());
    assert(PlayEntityEquiptmentSpec::spec_serialize(v) + Seq::<u8>::empty() =~= PlayEntityEquiptmentSpec::spec_serialize(v));
}

/// The body of the play set experience message, read as that message.
#[verifier::opaque]
pub open spec fn decode_play_set_experience(body: Seq<u8>) -> Result<Packet578Model, DeserializeErr> {
    match PlaySetExperienceSpec::spec_deserialize(body) {
        Ok((v, _)) => Ok(Packet578Model::PlaySetExperience(v)),
        Err(e) => Err(e),
    }
}

#[verifier::rlimit(100)]
#[verifier::spinoff_prover]
proof fn lemma_play_set_experience(v: <PlaySetExperienceSpec as Codec>::Model)
    requires
        PlaySetExperienceSpec::legal(v),
    ensures
        PlaySetExperienceSpec::encodable(v),
        Packet578::spec_decode(State::Play, PacketDirection::ClientBound, 72i32, PlaySetExperienceSpec::spec_serialize(v))
            == Ok::<Packet578Model, DeserializeErr>(Packet578Model::PlaySetExperience(v)),
{
    reveal(decode_play_set_experience);
    PlaySetExperienceSpec::lemma_round_trip(v, Seq::empty());
    assert(PlaySetExperienceSpec::spec_serialize(v) + Seq::<u8>::empty() =~= PlaySetExperienceSpec::spec_serialize(v));
}

/// The body of the play updatehealth message, read as that message.
#[verifier::opaque]
pub open spec fn decode_play_updatehealth(body: Seq<u8>) -> Result<Packet578Model, DeserializeErr> {
    match PlayUpdateHealthSpec::spec_deserialize(body) {
        Ok((v, _)) => Ok(Packet578Model::PlayUpdatehealth(v)),
        Err(e) => Err(e),
    }
}

#[verifier::rlimit(100)]
#[verifier::spinoff_prover]
proof fn lemma_play_updatehealth(v: <PlayUpdateHealthSpec as Codec>::Model)
    requires
        PlayUpdateHealthSpec::legal(v),
    ensures
        PlayUpdateHealthSpec::encodable(v),
        Packet578::spec_decode(State::Play, PacketDirection::ClientBound, 73i32, PlayUpdateHealthSpec::spec_serialize(v))
            == Ok::<Packet578Model, DeserializeErr>(Packet578Model::PlayUpdatehealth(v)),
{
    reveal(decode_play_updatehealth);
    PlayUpdateHealthSpec::lemma_round_trip(v, Seq::empty());
    assert(PlayUpdateHealthSpec::spec_serialize(v) + Seq::<u8>::empty() =~= PlayUpdateHealthSpec::spec_serialize(v));
}

/// The body of the play scoreboard objective message, read as that message.
#[verifier::opaque]
pub open spec fn decode_play_scoreboard_objective(body: Seq<u8>) -> Result<Packet578Model, DeserializeErr> {
    match PlayScoreboardObjectiveSpec::spec_deserialize(body) {
        Ok((v, _)) => Ok(Packet578Model::PlayScoreboardObjective(v)),
        Err(e) => Err(e),
    }
}

#[verifier::rlimit(100)]
#[verifier::spinoff_prover]
proof fn lemma_play_scoreboard_objective(v: <PlayScoreboardObjectiveSpec as Codec>::Model)
    requires
        PlayScoreboardObjectiveSpec::legal(v),
    ensures
        PlayScoreboardObjectiveSpec::encodable(v),
        Packet578::spec_decode(State::Play, PacketDirection::ClientBound, 74i32, PlayScoreboardObjectiveSpec::spec_serialize(v))
            == Ok::<Packet578Model, DeserializeErr>(Packet578Model::PlayScoreboardObjective(v)),
{
    reveal(decode_play_scoreboard_objective);
    PlayScoreboardObjectiveSpec::lemma_round_trip(v, Seq::empty());
    assert(PlayScoreboardObjectiveSpec::spec_serialize(v) + Seq::<u8>::empty() =~= PlayScoreboardObjectiveSpec::spec_serialize(v));
}

/// The body of the play set passengers message, read as that message.
#[verifier::opaque]
pub open spec fn decode_play_set_passengers(body: Seq<u8>) -> Result<Packet578Model, DeserializeErr> {
    match PlaySetPassengersSpec::spec_deserialize(body) {
        Ok((v, _)) => Ok(Packet578Model::PlaySetPassengers(v)),
        Err(e) => Err(e),
    }
}

#[verifier::rlimit(100)]
#[verifier::spinoff_prover]
proof fn lemma_play_set_passengers(v: <PlaySetPassengersSpec as Codec>::Model)
    requires
        PlaySetPassengersSpec::legal(v),
    ensures
        PlaySetPassengersSpec::encodable(v),
        Packet578::spec_decode(State::Play, PacketDirection::ClientBound, 75i32, PlaySetPassengersSpec::spec_serialize(v))
            == Ok::<Packet578Model, DeserializeErr>(Packet578Model::PlaySetPassengers(v)),
{
    reveal(decode_play_set_passengers);
    PlaySetPassengersSpec::lemma_round_trip(v, Seq::empty());
    assert(PlaySetPassengersSpec::spec_serialize(v) + Seq::<u8>::empty() =~= PlaySetPassengersSpec::spec_serialize(v));
}

/// The body of the play teams message, read as that message.
#[verifier::opaque]
pub open spec fn decode_play_teams(body: Seq<u8>) -> Result<Packet578Model, DeserializeErr> {
    match PlayTeamsSpec::spec_deserialize(body) {
        Ok((v, _)) => Ok(Packet578Model::PlayTeams(v)),
        Err(e) => Err(e),
    }
}

#[verifier::rlimit(100)]
#[verifier::spinoff_prover]
proof fn lemma_play_teams(v: <PlayTeamsSpec as Codec>::Model)
    requires
        PlayTeamsSpec::legal(v),
    ensures
        PlayTeamsSpec::encodable(v),
        Packet578::spec_decode(State::Play, PacketDirection::ClientBound, 76i32, PlayTeamsSpec::spec_serialize(v))
            == Ok::<Packet578Model, DeserializeErr>(Packet578Model::PlayTeams(v)),
{
    reveal(decode_play_teams);
    PlayTeamsSpec::lemma_round_trip(v, Seq::empty());
    assert(PlayTeamsSpec::spec_serialize(v) + Seq::<u8>::empty() =~= PlayTeamsSpec::spec_serialize(v));
}

/// The body of the play update score message, read as that message.
#[verifier::opaque]
pub open spec fn decode_play_update_score(body: Seq<u8>) -> Result<Packet578Model, DeserializeErr> {
    match PlayUpdateScoreSpec::spec_deserialize(body) {
        Ok((v, _)) => Ok(Packet578Model::PlayUpdateScore(v)),
        Err(e) => Err(e),
    }
}

#[verifier::rlimit(100)]
#[verifier::spinoff_prover]
proof fn lemma_play_update_score(v: <PlayUpdateScoreSpec as Codec>::Model)
    requires
        PlayUpdateScoreSpec::legal(v),
    ensures
        PlayUpdateScoreSpec::encodable(v),
        Packet578::spec_decode(State::Play, PacketDirection::ClientBound, 77i32, PlayUpdateScoreSpec::spec_serialize(v))
            == Ok::<Packet578Model, DeserializeErr>(Packet578Model::PlayUpdateScore(v)),
{
    reveal(decode_play_update_score);
    PlayUpdateScoreSpec::lemma_round_trip(v, Seq::empty());
    assert(PlayUpdateScoreSpec::spec_serialize(v) + Seq::<u8>::empty() =~= PlayUpdateScoreSpec::spec_serialize(v));
}

/// The body of the play spawn position message, read as that message.
#[verifier::opaque]
pub open spec fn decode_play_spawn_position(body: Seq<u8>) -> Result<Packet578Model, DeserializeErr> {
    match PlaySpawnPositionSpec::spec_deserialize(body) {
        Ok((v, _)) => Ok(Packet578Model::PlaySpawnPosition(v)),
        Err(e) => Err(e),
    }
}

#[verifier::rlimit(100)]
#[verifier::spinoff_prover]
proof fn lemma_play_spawn_position(v: <PlaySpawnPositionSpec as Codec>::Model)
    requires
        PlaySpawnPositionSpec::legal(v),
    ensures
        PlaySpawnPositionSpec::encodable(v),
        Packet578::spec_decode(State::Play, PacketDirection::ClientBound, 78i32, PlaySpawnPositionSpec::spec_serialize(v))
            == Ok::<Packet578Model, DeserializeErr>(Packet578Model::PlaySpawnPosition(v)),
{
    reveal(decode_play_spawn_position);
    PlaySpawnPositionSpec::lemma_round_trip(v, Seq::empty());
    assert(PlaySpawnPositionSpec::spec_serialize(v) + Seq::<u8>::empty() =~= PlaySpawnPositionSpec::spec_serialize(v));
}

/// The body of the play time update message, read as that message.
#[verifier::opaque]
pub open spec fn decode_play_time_update(body: Seq<u8>) -> Result<Packet578Model, DeserializeErr> {
    match PlayTimeUpdateSpec::spec_deserialize(body) {
        Ok((v, _)) => Ok(Packet578Model::PlayTimeUpdate(v)),
        Err(e) => Err(e),
    }
}

#[verifier::rlimit(100)]
#[verifier::spinoff_prover]
proof fn lemma_play_time_update(v: <PlayTimeUpdateSpec as Codec>::Model)
    requires
        PlayTimeUpdateSpec::legal(v),
    ensures
        PlayTimeUpdateSpec::encodable(v),
        Packet578::spec_decode(State::Play, PacketDirection::ClientBound, 79i32, PlayTimeUpdateSpec::spec_serialize(v))
            == Ok::<Packet578Model, DeserializeErr>(Packet578Model::PlayTimeUpdate(v)),
{
    reveal(decode_play_time_update);
    PlayTimeUpdateSpec::lemma_round_trip(v, Seq::empty());
    assert(PlayTimeUpdateSpec::spec_serialize(v) + Seq::<u8>::empty() =~= PlayTimeUpdateSpec::spec_serialize(v));
}

/// The body of the play title message, read as that message.
#[verifier::opaque]
pub open spec fn decode_play_title(body: Seq<u8>) -> Result<Packet578Model, DeserializeErr> {
    match PlayTitleSpec::spec_deserialize(body) {
        Ok((v, _)) => Ok(Packet578Model::PlayTitle(v)),
        Err(e) => Err(e),
    }
}

#[verifier::rlimit(100)]
#[verifier::spinoff_prover]
proof fn lemma_play_title(v: <PlayTitleSpec as Codec>::Model)
    requires
        PlayTitleSpec::legal(v),
    ensures
        PlayTitleSpec::encodable(v),
        Packet578::spec_decode(State::Play, PacketDirection::ClientBound, 80i32, PlayTitleSpec::spec_serialize(v))
            == Ok::<Packet578Model, DeserializeErr>(Packet578Model::PlayTitle(v)),
{
    reveal(decode_play_title);
    PlayTitleSpec::lemma_round_trip(v, Seq::empty());
    assert(PlayTitleSpec::spec_serialize(v) + Seq::<u8>::empty() =~= PlayTitleSpec::spec_serialize(v));
}

/// The body of the play entity sound effect message, read as that message.
#[verifier::opaque]
pub open spec fn decode_play_entity_sound_effect(body: Seq<u8>) -> Result<Packet578Model, DeserializeErr> {
    match PlayEntitySoundEffectSpec::spec_deserialize(body) {
        Ok((v, _)) => Ok(Packet578Model::PlayEntitySoundEffect(v)),
        Err(e) => Err(e),
    }
}

#[verifier::rlimit(100)]
#[verifier::spinoff_prover]
proof fn lemma_play_entity_sound_effect(v: <PlayEntitySoundEffectSpec as Codec>::Model)
    requires
        PlayEntitySoundEffectSpec::legal(v),
    ensures
        PlayEntitySoundEffectSpec::encodable(v),
        Packet578::spec_decode(State::Play, PacketDirection::ClientBound, 81i32, PlayEntitySoundEffectSpec::spec_serialize(v))
            == Ok::<Packet578Model, DeserializeErr>(Packet578Model::PlayEntitySoundEffect(v)),
{
    reveal(decode_play_entity_sound_effect);
    PlayEntitySoundEffectSpec::lemma_round_trip(v, Seq::empty());
    assert(PlayEntitySoundEffectSpec::spec_serialize(v) + Seq::<u8>::empty() =~= PlayEntitySoundEffectSpec::spec_serialize(v));
}

/// The body of the play sound effect message, read as that message.
#[verifier::opaque]
pub open spec fn decode_play_sound_effect(body: Seq<u8>) -> Result<Packet578Model, DeserializeErr> {
    match PlaySoundEffectSpec::spec_deserialize(body) {
        Ok((v, _)) => Ok(Packet578Model::PlaySoundEffect(v)),
        Err(e) => Err(e),
    }
}

#[verifier::rlimit(100)]
#[verifier::spinoff_prover]
proof fn lemma_play_sound_effect(v: <PlaySoundEffectSpec as Codec>::Model)
    requires
        PlaySoundEffectSpec::legal(v),
    ensures
        PlaySoundEffectSpec::encodable(v),
        Packet578::spec_decode(State::Play, PacketDirection::ClientBound, 82i32, PlaySoundEffectSpec::spec_serialize(v))
            == Ok::<Packet578Model, DeserializeErr>(Packet578Model::PlaySoundEffect(v)),
{
    reveal(decode_play_sound_effect);
    PlaySoundEffectSpec::lemma_round_trip(v, Seq::empty());
    assert(PlaySoundEffectSpec::spec_serialize(v) + Seq::<u8>::empty() =~= PlaySoundEffectSpec::spec_serialize(v));
}

/// The body of the play stop sound message, read as that message.
#[verifier::opaque]
pub open spec fn decode_play_stop_sound(body: Seq<u8>) -> Result<Packet578Model, DeserializeErr> {
    match PlayStopSoundSpec::spec_deserialize(body) {
        Ok((v, _)) => Ok(Packet578Model::PlayStopSound(v)),
        Err(e) => Err(e),
    }
}

#[verifier::rlimit(100)]
#[verifier::spinoff_prover]
proof fn lemma_play_stop_sound(v: <PlayStopSoundSpec as Codec>::Model)
    requires
        PlayStopSoundSpec::legal(v),
    ensures
        PlayStopSoundSpec::encodable(v),
        Packet578::spec_decode(State::Play, PacketDirection::ClientBound, 83i32, PlayStopSoundSpec::spec_serialize(v))
            == Ok::<Packet578Model, DeserializeErr>(Packet578Model::PlayStopSound(v)),
{
    reveal(decode_play_stop_sound);
    PlayStopSoundSpec::lemma_round_trip(v, Seq::empty());
    assert(PlayStopSoundSpec::spec_serialize(v) + Seq::<u8>::empty() =~= PlayStopSoundSpec::spec_serialize(v));
}

/// The body of the player player list header and footer message, read as that message.
#[verifier::opaque]
pub open spec fn decode_player_player_list_header_and_footer(body: Seq<u8>) -> Result<Packet578Model, DeserializeErr> {
    match PlayPlayerListHeaderAndFooterSpec::spec_deserialize(body) {
        Ok((v, _)) => Ok(Packet578Model::PlayerPlayerListHeaderAndFooter(v)),
        Err(e) => Err(e),
    }
}

#[verifier::rlimit(100)]
#[verifier::spinoff_prover]
proof fn lemma_player_player_list_header_and_footer(v: <PlayPlayerListHeaderAndFooterSpec as Codec>::Model)
    requires
        PlayPlayerListHeaderAndFooterSpec::legal(v),
    ensures
        PlayPlayerListHeaderAndFooterSpec::encodable(v),
        Packet578::spec_decode(State::Play, PacketDirection::ClientBound, 84i32, PlayPlayerListHeaderAndFooterSpec::spec_serialize(v))
            == Ok::<Packet578Model, DeserializeErr>(Packet578Model::PlayerPlayerListHeaderAndFooter(v)),
{
    reveal(decode_player_player_list_header_and_footer);
    PlayPlayerListHeaderAndFooterSpec::lemma_round_trip(v, Seq::empty());
    assert(PlayPlayerListHeaderAndFooterSpec::spec_serialize(v) + Seq::<u8>::empty() =~= PlayPlayerListHeaderAndFooterSpec::spec_serialize(v));
}

/// The body of the play nbt query response message, read as that message.
#[verifier::opaque]
pub open spec fn decode_play_nbt_query_response(body: Seq<u8>) -> Result<Packet578Model, DeserializeErr> {
    match PlayNbtQueryResponseSpec::spec_deserialize(body) {
        Ok((v, _)) => Ok(Packet578Model::PlayNbtQueryResponse(v)),
        Err(e) => Err(e),
    }
}

#[verifier::rlimit(100)]
#[verifier::spinoff_prover]
proof fn lemma_play_nbt_query_response(v: <PlayNbtQueryResponseSpec as Codec>::Model)
    requires
        PlayNbtQueryResponseSpec::legal(v),
    ensures
        PlayNbtQueryResponseSpec::encodable(v),
        Packet578::spec_decode(State::Play, PacketDirection::ClientBound, 85i32, PlayNbtQueryResponseSpec::spec_serialize(v))
            == Ok::<Packet578Model, DeserializeErr>(Packet578Model::PlayNbtQueryResponse(v)),
{
    reveal(decode_play_nbt_query_response);
    PlayNbtQueryResponseSpec::lemma_round_trip(v, Seq::empty());
    assert(PlayNbtQueryResponseSpec::spec_serialize(v) + Seq::<u8>::empty() =~= PlayNbtQueryResponseSpec::spec_serialize(v));
}

/// The body of the play collect item message, read as that message.
#[verifier::opaque]
pub open spec fn decode_play_collect_item(body: Seq<u8>) -> Result<Packet578Model, DeserializeErr> {
    match PlayCollectItemSpec::spec_deserialize(body) {
        Ok((v, _)) => Ok(Packet578Model::PlayCollectItem(v)),
        Err(e) => Err(e),
    }
}

#[verifier::rlimit(100)]
#[verifier::spinoff_prover]
proof fn lemma_play_collect_item(v: <PlayCollectItemSpec as Codec>::Model)
    requires
        PlayCollectItemSpec::legal(v),
    ensures
        PlayCollectItemSpec::encodable(v),
        Packet578::spec_decode(State::Play, PacketDirection::ClientBound, 86i32, PlayCollectItemSpec::spec_serialize(v))
            == Ok::<Packet578Model, DeserializeErr>(Packet578Model::PlayCollectItem(v)),
{
    reveal(decode_play_collect_item);
    PlayCollectItemSpec::lemma_round_trip(v, Seq::empty());
    assert(PlayCollectItemSpec::spec_serialize(v) + Seq::<u8>::empty() =~= PlayCollectItemSpec::spec_serialize(v));
}

/// The body of the play entity teleport message, read as that message.
#[verifier::opaque]
pub open spec fn decode_play_entity_teleport(body: Seq<u8>) -> Result<Packet578Model, DeserializeErr> {
    match PlayEntityTeleportSpec::spec_deserialize(body) {
        Ok((v, _)) => Ok(Packet578Model::PlayEntityTeleport(v)),
        Err(e) => Err(e),
    }
}

#[verifier::rlimit(100)]
#[verifier::spinoff_prover]
proof fn lemma_play_entity_teleport(v: <PlayEntityTeleportSpec as Codec>::Model)
    requires
        PlayEntityTeleportSpec::legal(v),
    ensures
        PlayEntityTeleportSpec::encodable(v),
        Packet578::spec_decode(State::Play, PacketDirection::ClientBound, 87i32, PlayEntityTeleportSpec::spec_serialize(v))
            == Ok::<Packet578Model, DeserializeErr>(Packet578Model::PlayEntityTeleport(v)),
{
    reveal(decode_play_entity_teleport);
    PlayEntityTeleportSpec::lemma_round_trip(v, Seq::empty());
    assert(PlayEntityTeleportSpec::spec_serialize(v) + Seq::<u8>::empty() =~= PlayEntityTeleportSpec::spec_serialize(v));
}

/// The body of the play advancements message, read as that message.
#[verifier::opaque]
pub open spec fn decode_play_advancements(body: Seq<u8>) -> Result<Packet578Model, DeserializeErr> {
    match PlayAdvancementsSpec::spec_deserialize(body) {
        Ok((v, _)) => Ok(Packet578Model::PlayAdvancements(v)),
        Err(e) => Err(e),
    }
}

#[verifier::rlimit(100)]
#[verifier::spinoff_prover]
proof fn lemma_play_advancements(v: <PlayAdvancementsSpec as Codec>::Model)
    requires
        PlayAdvancementsSpec::legal(v),
    ensures
        PlayAdvancementsSpec::encodable(v),
        Packet578::spec_decode(State::Play, PacketDirection::ClientBound, 88i32, PlayAdvancementsSpec::spec_serialize(v))
            == Ok::<Packet578Model, DeserializeErr>(Packet578Model::PlayAdvancements(v)),
{
    reveal(decode_play_advancements);
    PlayAdvancementsSpec::lemma_round_trip(v, Seq::empty());
    assert(PlayAdvancementsSpec::spec_serialize(v) + Seq::<u8>::empty() =~= PlayAdvancementsSpec::spec_serialize(v));
}

/// The body of the play entity properties message, read as that message.
#[verifier::opaque]
pub open spec fn decode_play_entity_properties(body: Seq<u8>) -> Result<Packet578Model, DeserializeErr> {
    match PlayEntityPropertiesSpec::spec_deserialize(body) {
        Ok((v, _)) => Ok(Packet578Model::PlayEntityProperties(v)),
        Err(e) => Err(e),
    }
}

#[verifier::rlimit(100)]
#[verifier::spinoff_prover]
proof fn lemma_play_entity_properties(v: <PlayEntityPropertiesSpec as Codec>::Model)
    requires
        PlayEntityPropertiesSpec::legal(v),
    ensures
        PlayEntityPropertiesSpec::encodable(v),
        Packet578::spec_decode(State::Play, PacketDirection::ClientBound, 89i32, PlayEntityPropertiesSpec::spec_serialize(v))
            == Ok::<Packet578Model, DeserializeErr>(Packet578Model::PlayEntityProperties(v)),
{
    reveal(decode_play_entity_properties);
    PlayEntityPropertiesSpec::lemma_round_trip(v, Seq::empty());
    assert(PlayEntityPropertiesSpec::spec_serialize(v) + Seq::<u8>::empty() =~= PlayEntityPropertiesSpec::spec_serialize(v));
}

/// The body of the play entity effect message, read as that message.
#[verifier::opaque]
pub open spec fn decode_play_entity_effect(body: Seq<u8>) -> Result<Packet578Model, DeserializeErr> {
    match PlayEntityEffectSpec::spec_deserialize(body) {
        Ok((v, _)) => Ok(Packet578Model::PlayEntityEffect(v)),
        Err(e) => Err(e),
    }
}

#[verifier::rlimit(100)]
#[verifier::spinoff_prover]
proof fn lemma_play_entity_effect(v: <PlayEntityEffectSpec as Codec>::Model)
    requires
        PlayEntityEffectSpec::legal(v),
    ensures
        PlayEntityEffectSpec::encodable(v),
        Packet578::spec_decode(State::Play, PacketDirection::ClientBound, 90i32, PlayEntityEffectSpec::spec_serialize(v))
            == Ok::<Packet578Model, DeserializeErr>(Packet578Model::PlayEntityEffect(v)),
{
    reveal(decode_play_entity_effect);
    PlayEntityEffectSpec::lemma_round_trip(v, Seq::empty());
    assert(PlayEntityEffectSpec::spec_serialize(v) + Seq::<u8>::empty() =~= PlayEntityEffectSpec::spec_serialize(v));
}

/// The body of the play declare recipes message, read as that message.
#[verifier::opaque]
pub open spec fn decode_play_declare_recipes(body: Seq<u8>) -> Result<Packet578Model, DeserializeErr> {
    match PlayDeclareRecipesSpec::spec_deserialize(body) {
        Ok((v, _)) => Ok(Packet578Model::PlayDeclareRecipes(v)),
        Err(e) => Err(e),
    }
}

#[verifier::rlimit(100)]
#[verifier::spinoff_prover]
proof fn lemma_play_declare_recipes(v: <PlayDeclareRecipesSpec as Codec>::Model)
    requires
        PlayDeclareRecipesSpec::legal(v),
    ensures
        PlayDeclareRecipesSpec::encodable(v),
        Packet578::spec_decode(State::Play, PacketDirection::ClientBound, 91i32, PlayDeclareRecipesSpec::spec_serialize(v))
            == Ok::<Packet578Model, DeserializeErr>(Packet578Model::PlayDeclareRecipes(v)),
{
    reveal(decode_play_declare_recipes);
    PlayDeclareRecipesSpec::lemma_round_trip(v, Seq::empty());
    assert(PlayDeclareRecipesSpec::spec_serialize(v) + Seq::<u8>::empty() =~= PlayDeclareRecipesSpec::spec_serialize(v));
}

/// The body of the play tags message, read as that message.
#[verifier::opaque]
pub open spec fn decode_play_tags(body: Seq<u8>) -> Result<Packet578Model, DeserializeErr> {
    match PlayTagsSpec::spec_deserialize(body) {
        Ok((v, _)) => Ok(Packet578Model::PlayTags(v)),
        Err(e) => Err(e),
    }
}

#[verifier::rlimit(100)]
#[verifier::spinoff_prover]
proof fn lemma_play_tags(v: <PlayTagsSpec as Codec>::Model)
    requires
        PlayTagsSpec::legal(v),
    ensures
        PlayTagsSpec::encodable(v),
        Packet578::spec_decode(State::Play, PacketDirection::ClientBound, 92i32, PlayTagsSpec::spec_serialize(v))
            == Ok::<Packet578Model, DeserializeErr>(Packet578Model::PlayTags(v)),
{
    reveal(decode_play_tags);
    PlayTagsSpec::lemma_round_trip(v, Seq::empty());
    assert(PlayTagsSpec::spec_serialize(v) + Seq::<u8>::empty() =~= PlayTagsSpec::spec_serialize(v));
}

/// The body of the play teleport confirm message, read as that message.
#[verifier::opaque]
pub open spec fn decode_play_teleport_confirm(body: Seq<u8>) -> Result<Packet578Model, DeserializeErr> {
    match PlayTeleportConfirmSpec::spec_deserialize(body) {
        Ok((v, _)) => Ok(Packet578Model::PlayTeleportConfirm(v)),
        Err(e) => Err(e),
    }
}

#[verifier::rlimit(100)]
#[verifier::spinoff_prover]
proof fn lemma_play_teleport_confirm(v: <PlayTeleportConfirmSpec as Codec>::Model)
    requires
        PlayTeleportConfirmSpec::legal(v),
    ensures
        PlayTeleportConfirmSpec::encodable(v),
        Packet578::spec_decode(State::Play, PacketDirection::ServerBound, 0i32, PlayTeleportConfirmSpec::spec_serialize(v))
            == Ok::<Packet578Model, DeserializeErr>(Packet578Model::PlayTeleportConfirm(v)),
{
    reveal(decode_play_teleport_confirm);
    PlayTeleportConfirmSpec::lemma_round_trip(v, Seq::empty());
    assert(PlayTeleportConfirmSpec::spec_serialize(v) + Seq::<u8>::empty() =~= PlayTeleportConfirmSpec::spec_serialize(v));
}

/// The body of the play query block nbt message, read as that message.
#[verifier::opaque]
pub open spec fn decode_play_query_block_nbt(body: Seq<u8>) -> Result<Packet578Model, DeserializeErr> {
    match PlayQueryBlockNbtSpec::spec_deserialize(body) {
        Ok((v, _)) => Ok(Packet578Model::PlayQueryBlockNbt(v)),
        Err(e) => Err(e),
    }
}

#[verifier::rlimit(100)]
#[verifier::spinoff_prover]
proof fn lemma_play_query_block_nbt(v: <PlayQueryBlockNbtSpec as Codec>::Model)
    requires
        PlayQueryBlockNbtSpec::legal(v),
    ensures
        PlayQueryBlockNbtSpec::encodable(v),
        Packet578::spec_decode(State::Play, PacketDirection::ServerBound, 1i32, PlayQueryBlockNbtSpec::spec_serialize(v))
            == Ok::<Packet578Model, DeserializeErr>(Packet578Model::PlayQueryBlockNbt(v)),
{
    reveal(decode_play_query_block_nbt);
    PlayQueryBlockNbtSpec::lemma_round_trip(v, Seq::empty());
    assert(PlayQueryBlockNbtSpec::spec_serialize(v) + Seq::<u8>::empty() =~= PlayQueryBlockNbtSpec::spec_serialize(v));
}

/// The body of the play query entity nbt message, read as that message.
#[verifier::opaque]
pub open spec fn decode_play_query_entity_nbt(body: Seq<u8>) -> Result<Packet578Model, DeserializeErr> {
    match PlayQueryEntityNbtSpec::spec_deserialize(body) {
        Ok((v, _)) => Ok(Packet578Model::PlayQueryEntityNbt(v)),
        Err(e) => Err(e),
    }
}

#[verifier::rlimit(100)]
#[verifier::spinoff_prover]
proof fn lemma_play_query_entity_nbt(v: <PlayQueryEntityNbtSpec as Codec>::Model)
    requires
        PlayQueryEntityNbtSpec::legal(v),
    ensures
        PlayQueryEntityNbtSpec::encodable(v),
        Packet578::spec_decode(State::Play, PacketDirection::ServerBound, 13i32, PlayQueryEntityNbtSpec::spec_serialize(v))
            == Ok::<Packet578Model, DeserializeErr>(Packet578Model::PlayQueryEntityNbt(v)),
{
    reveal(decode_play_query_entity_nbt);
    PlayQueryEntityNbtSpec::lemma_round_trip(v, Seq::empty());
    assert(PlayQueryEntityNbtSpec::spec_serialize(v) + Seq::<u8>::empty() =~= PlayQueryEntityNbtSpec::spec_serialize(v));
}

/// The body of the play set difficulty message, read as that message.
#[verifier::opaque]
pub open spec fn decode_play_set_difficulty(body: Seq<u8>) -> Result<Packet578Model, DeserializeErr> {
    match PlaySetDifficultySpec::spec_deserialize(body) {
        Ok((v, _)) => Ok(Packet578Model::PlaySetDifficulty(v)),
        Err(e) => Err(e),
    }
}

#[verifier::rlimit(100)]
#[verifier::spinoff_prover]
proof fn lemma_play_set_difficulty(v: <PlaySetDifficultySpec as Codec>::Model)
    requires
        PlaySetDifficultySpec::legal(v),
    ensures
        PlaySetDifficultySpec::encodable(v),
        Packet578::spec_decode(State::Play, PacketDirection::ServerBound, 2i32, PlaySetDifficultySpec::spec_serialize(v))
            == Ok::<Packet578Model, DeserializeErr>(Packet578Model::PlaySetDifficulty(v)),
{
    reveal(decode_play_set_difficulty);
    PlaySetDifficultySpec::lemma_round_trip(v, Seq::empty());
    assert(PlaySetDifficultySpec::spec_serialize(v) + Seq::<u8>::empty() =~= PlaySetDifficultySpec::spec_serialize(v));
}

/// The body of the play client chat message message, read as that message.
#[verifier::opaque]
pub open spec fn decode_play_client_chat_message(body: Seq<u8>) -> Result<Packet578Model, DeserializeErr> {
    match PlayClientChatMessageSpec::spec_deserialize(body) {
        Ok((v, _)) => Ok(Packet578Model::PlayClientChatMessage(v)),
        Err(e) => Err(e),
    }
}

#[verifier::rlimit(100)]
#[verifier::spinoff_prover]
proof fn lemma_play_client_chat_message(v: <PlayClientChatMessageSpec as Codec>::Model)
    requires
        PlayClientChatMessageSpec::legal(v),
    ensures
        PlayClientChatMessageSpec::encodable(v),
        Packet578::spec_decode(State::Play, PacketDirection::ServerBound, 3i32, PlayClientChatMessageSpec::spec_serialize(v))
            == Ok::<Packet578Model, DeserializeErr>(Packet578Model::PlayClientChatMessage(v)),
{
    reveal(decode_play_client_chat_message);
    PlayClientChatMessageSpec::lemma_round_trip(v, Seq::empty());
    assert(PlayClientChatMessageSpec::spec_serialize(v) + Seq::<u8>::empty() =~= PlayClientChatMessageSpec::spec_serialize(v));
}

/// The body of the play client status message, read as that message.
#[verifier::opaque]
pub open spec fn decode_play_client_status(body: Seq<u8>) -> Result<Packet578Model, DeserializeErr> {
    match PlayClientStatusSpec::spec_deserialize(body) {
        Ok((v, _)) => Ok(Packet578Model::PlayClientStatus(v)),
        Err(e) => Err(e),
    }
}

#[verifier::rlimit(100)]
#[verifier::spinoff_prover]
proof fn lemma_play_client_status(v: <PlayClientStatusSpec as Codec>::Model)
    requires
        PlayClientStatusSpec::legal(v),
    ensures
        PlayClientStatusSpec::encodable(v),
        Packet578::spec_decode(State::Play, PacketDirection::ServerBound, 4i32, PlayClientStatusSpec::spec_serialize(v))
            == Ok::<Packet578Model, DeserializeErr>(Packet578Model::PlayClientStatus(v)),
{
    reveal(decode_play_client_status);
    PlayClientStatusSpec::lemma_round_trip(v, Seq::empty());
    assert(PlayClientStatusSpec::spec_serialize(v) + Seq::<u8>::empty() =~= PlayClientStatusSpec::spec_serialize(v));
}

/// The body of the play client settings message, read as that message.
#[verifier::opaque]
pub open spec fn decode_play_client_settings(body: Seq<u8>) -> Result<Packet578Model, DeserializeErr> {
    match PlayClientSettingsSpec::spec_deserialize(body) {
        Ok((v, _)) => Ok(Packet578Model::PlayClientSettings(v)),
        Err(e) => Err(e),
    }
}

#[verifier::rlimit(100)]
#[verifier::spinoff_prover]
proof fn lemma_play_client_settings(v: <PlayClientSettingsSpec as Codec>::Model)
    requires
        PlayClientSettingsSpec::legal(v),
    ensures
        PlayClientSettingsSpec::encodable(v),
        Packet578::spec_decode(State::Play, PacketDirection::ServerBound, 5i32, PlayClientSettingsSpec::spec_serialize(v))
            == Ok::<Packet578Model, DeserializeErr>(Packet578Model::PlayClientSettings(v)),
{
    reveal(decode_play_client_settings);
    PlayClientSettingsSpec::lemma_round_trip(v, Seq::empty());
    assert(PlayClientSettingsSpec::spec_serialize(v) + Seq::<u8>::empty() =~= PlayClientSettingsSpec::spec_serialize(v));
}

/// The body of the play client tab complete message, read as that message.
#[verifier::opaque]
pub open spec fn decode_play_client_tab_complete(body: Seq<u8>) -> Result<Packet578Model, DeserializeErr> {
    match PlayClientTabCompleteSpec::spec_deserialize(body) {
        Ok((v, _)) => Ok(Packet578Model::PlayClientTabComplete(v)),
        Err(e) => Err(e),
    }
}

#[verifier::rlimit(100)]
#[verifier::spinoff_prover]
proof fn lemma_play_client_tab_complete(v: <PlayClientTabCompleteSpec as Codec>::Model)
    requires
        PlayClientTabCompleteSpec::legal(v),
    ensures
        PlayClientTabCompleteSpec::encodable(v),
        Packet578::spec_decode(State::Play, PacketDirection::ServerBound, 6i32, PlayClientTabCompleteSpec::spec_serialize(v))
            == Ok::<Packet578Model, DeserializeErr>(Packet578Model::PlayClientTabComplete(v)),
{
    reveal(decode_play_client_tab_complete);
    PlayClientTabCompleteSpec::lemma_round_trip(v, Seq::empty());
    assert(PlayClientTabCompleteSpec::spec_serialize(v) + Seq::<u8>::empty() =~= PlayClientTabCompleteSpec::spec_serialize(v));
}

/// The body of the play client window confirmation message, read as that message.
#[verifier::opaque]
pub open spec fn decode_play_client_window_confirmation(body: Seq<u8>) -> Result<Packet578Model, DeserializeErr> {
    match PlayClientWindowConfirmationSpec::spec_deserialize(body) {
        Ok((v, _)) => Ok(Packet578Model::PlayClientWindowConfirmation(v)),
        Err(e) => Err(e),
    }
}

#[verifier::rlimit(100)]
#[verifier::spinoff_prover]
proof fn lemma_play_client_window_confirmation(v: <PlayClientWindowConfirmationSpec as Codec>::Model)
    requires
        PlayClientWindowConfirmationSpec::legal(v),
    ensures
        PlayClientWindowConfirmationSpec::encodable(v),
        Packet578::spec_decode(State::Play, PacketDirection::ServerBound, 7i32, PlayClientWindowConfirmationSpec::spec_serialize(v))
            == Ok::<Packet578Model, DeserializeErr>(Packet578Model::PlayClientWindowConfirmation(v)),
{
    reveal(decode_play_client_window_confirmation);
    PlayClientWindowConfirmationSpec::lemma_round_trip(v, Seq::empty());
    assert(PlayClientWindowConfirmationSpec::spec_serialize(v) + Seq::<u8>::empty() =~= PlayClientWindowConfirmationSpec::spec_serialize(v));
}

/// The body of the play click window button message, read as that message.
#[verifier::opaque]
pub open spec fn decode_play_click_window_button(body: Seq<u8>) -> Result<Packet578Model, DeserializeErr> {
    match PlayClickWindowButtonSpec::spec_deserialize(body) {
        Ok((v, _)) => Ok(Packet578Model::PlayClickWindowButton(v)),
        Err(e) => Err(e),
    }
}

#[verifier::rlimit(100)]
#[verifier::spinoff_prover]
proof fn lemma_play_click_window_button(v: <PlayClickWindowButtonSpec as Codec>::Model)
    requires
        PlayClickWindowButtonSpec::legal(v),
    ensures
        PlayClickWindowButtonSpec::encodable(v),
        Packet578::spec_decode(State::Play, PacketDirection::ServerBound, 8i32, PlayClickWindowButtonSpec::spec_serialize(v))
            == Ok::<Packet578Model, DeserializeErr>(Packet578Model::PlayClickWindowButton(v)),
{
    reveal(decode_play_click_window_button);
    PlayClickWindowButtonSpec::lemma_round_trip(v, Seq::empty());
    assert(PlayClickWindowButtonSpec::spec_serialize(v) + Seq::<u8>::empty() =~= PlayClickWindowButtonSpec::spec_serialize(v));
}

/// The body of the play click window message, read as that message.
#[verifier::opaque]
pub open spec fn decode_play_click_window(body: Seq<u8>) -> Result<Packet578Model, DeserializeErr> {
    match PlayClickWindowSpec::spec_deserialize(body) {
        Ok((v, _)) => Ok(Packet578Model::PlayClickWindow(v)),
        Err(e) => Err(e),
    }
}

#[verifier::rlimit(100)]
#[verifier::spinoff_prover]
proof fn lemma_play_click_window(v: <PlayClickWindowSpec as Codec>::Model)
    requires
        PlayClickWindowSpec::legal(v),
    ensures
        PlayClickWindowSpec::encodable(v),
        Packet578::spec_decode(State::Play, PacketDirection::ServerBound, 9i32, PlayClickWindowSpec::spec_serialize(v))
            == Ok::<Packet578Model, DeserializeErr>(Packet578Model::PlayClickWindow(v)),
{
    reveal(decode_play_click_window);
    PlayClickWindowSpec::lemma_round_trip(v, Seq::empty());
    assert(PlayClickWindowSpec::spec_serialize(v) + Seq::<u8>::empty() =~= PlayClickWindowSpec::spec_serialize(v));
}

/// The body of the play client close window message, read as that message.
#[verifier::opaque]
pub open spec fn decode_play_client_close_window(body: Seq<u8>) -> Result<Packet578Model, DeserializeErr> {
    match PlayClientCloseWindowSpec::spec_deserialize(body) {
        Ok((v, _)) => Ok(Packet578Model::PlayClientCloseWindow(v)),
        Err(e) => Err(e),
    }
}

#[verifier::rlimit(100)]
#[verifier::spinoff_prover]
proof fn lemma_play_client_close_window(v: <PlayClientCloseWindowSpec as Codec>::Model)
    requires
        PlayClientCloseWindowSpec::legal(v),
    ensures
        PlayClientCloseWindowSpec::encodable(v),
        Packet578::spec_decode(State::Play, PacketDirection::ServerBound, 10i32, PlayClientCloseWindowSpec::spec_serialize(v))
            == Ok::<Packet578Model, DeserializeErr>(Packet578Model::PlayClientCloseWindow(v)),
{
    reveal(decode_play_client_close_window);
    PlayClientCloseWindowSpec::lemma_round_trip(v, Seq::empty());
    assert(PlayClientCloseWindowSpec::spec_serialize(v) + Seq::<u8>::empty() =~= PlayClientCloseWindowSpec::spec_serialize(v));
}

/// The body of the play client plugin message message, read as that message.
#[verifier::opaque]
pub open spec fn decode_play_client_plugin_message(body: Seq<u8>) -> Result<Packet578Model, DeserializeErr> {
    match PlayClientPluginMessageSpec::spec_deserialize(body) {
        Ok((v, _)) => Ok(Packet578Model::PlayClientPluginMessage(v)),
        Err(e) => Err(e),
    }
}

#[verifier::rlimit(100)]
#[verifier::spinoff_prover]
proof fn lemma_play_client_plugin_message(v: PlayClientPluginMessageSpecModel)
    requires
        PlayClientPluginMessageSpec::legal(v),
    ensures
        PlayClientPluginMessageSpec::encodable(v),
        Packet578::spec_decode(State::Play, PacketDirection::ServerBound, 11i32, PlayClientPluginMessageSpec::spec_serialize(v))
            == Ok::<Packet578Model, DeserializeErr>(Packet578Model::PlayClientPluginMessage(v)),
{
    reveal(decode_play_client_plugin_message);
    PlayClientPluginMessageSpec::lemma_round_trip(v);
}

/// The body of the play edit book message, read as that message.
#[verifier::opaque]
pub open spec fn decode_play_edit_book(body: Seq<u8>) -> Result<Packet578Model, DeserializeErr> {
    match PlayEditBookSpec::spec_deserialize(body) {
        Ok((v, _)) => Ok(Packet578Model::PlayEditBook(v)),
        Err(e) => Err(e),
    }
}

#[verifier::rlimit(100)]
#[verifier::spinoff_prover]
proof fn lemma_play_edit_book(v: <PlayEditBookSpec as Codec>::Model)
    requires
        PlayEditBookSpec::legal(v),
    ensures
        PlayEditBookSpec::encodable(v),
        Packet578::spec_decode(State::Play, PacketDirection::ServerBound, 12i32, PlayEditBookSpec::spec_serialize(v))
            == Ok::<Packet578Model, DeserializeErr>(Packet578Model::PlayEditBook(v)),
{
    reveal(decode_play_edit_book);
    PlayEditBookSpec::lemma_round_trip(v, Seq::empty());
    assert(PlayEditBookSpec::spec_serialize(v) + Seq::<u8>::empty() =~= PlayEditBookSpec::spec_serialize(v));
}

/// The body of the play interact entity message, read as that message.
#[verifier::opaque]
pub open spec fn decode_play_interact_entity(body: Seq<u8>) -> Result<Packet578Model, DeserializeErr> {
    match PlayInteractEntitySpec::spec_deserialize(body) {
        Ok((v, _)) => Ok(Packet578Model::PlayInteractEntity(v)),
        Err(e) => Err(e),
    }
}

#[verifier::rlimit(100)]
#[verifier::spinoff_prover]
proof fn lemma_play_interact_entity(v: <PlayInteractEntitySpec as Codec>::Model)
    requires
        PlayInteractEntitySpec::legal(v),
    ensures
        PlayInteractEntitySpec::encodable(v),
        Packet578::spec_decode(State::Play, PacketDirection::ServerBound, 14i32, PlayInteractEntitySpec::spec_serialize(v))
            == Ok::<Packet578Model, DeserializeErr>(Packet578Model::PlayInteractEntity(v)),
{
    reveal(decode_play_interact_entity);
    PlayInteractEntitySpec::lemma_round_trip(v, Seq::empty());
    assert(PlayInteractEntitySpec::spec_serialize(v) + Seq::<u8>::empty() =~= PlayInteractEntitySpec::spec_serialize(v));
}

/// The body of the play client keep alive message, read as that message.
#[verifier::opaque]
pub open spec fn decode_play_client_keep_alive(body: Seq<u8>) -> Result<Packet578Model, DeserializeErr> {
    match PlayClientKeepAliveSpec::spec_deserialize(body) {
        Ok((v, _)) => Ok(Packet578Model::PlayClientKeepAlive(v)),
        Err(e) => Err(e),
    }
}

#[verifier::rlimit(100)]
#[verifier::spinoff_prover]
proof fn lemma_play_client_keep_alive(v: <PlayClientKeepAliveSpec as Codec>::Model)
    requires
        PlayClientKeepAliveSpec::legal(v),
    ensures
        PlayClientKeepAliveSpec::encodable(v),
        Packet578::spec_decode(State::Play, PacketDirection::ServerBound, 15i32, PlayClientKeepAliveSpec::spec_serialize(v))
            == Ok::<Packet578Model, DeserializeErr>(Packet578Model::PlayClientKeepAlive(v)),
{
    reveal(decode_play_client_keep_alive);
    PlayClientKeepAliveSpec::lemma_round_trip(v, Seq::empty());
    assert(PlayClientKeepAliveSpec::spec_serialize(v) + Seq::<u8>::empty() =~= PlayClientKeepAliveSpec::spec_serialize(v));
}

/// The body of the play lock difficulty message, read as that message.
#[verifier::opaque]
pub open spec fn decode_play_lock_difficulty(body: Seq<u8>) -> Result<Packet578Model, DeserializeErr> {
    match PlayLockDifficultySpec::spec_deserialize(body) {
        Ok((v, _)) => Ok(Packet578Model::PlayLockDifficulty(v)),
        Err(e) => Err(e),
    }
}

#[verifier::rlimit(100)]
#[verifier::spinoff_prover]
proof fn lemma_play_lock_difficulty(v: <PlayLockDifficultySpec as Codec>::Model)
    requires
        PlayLockDifficultySpec::legal(v),
    ensures
        PlayLockDifficultySpec::encodable(v),
        Packet578::spec_decode(State::Play, PacketDirection::ServerBound, 16i32, PlayLockDifficultySpec::spec_serialize(v))
            == Ok::<Packet578Model, DeserializeErr>(Packet578Model::PlayLockDifficulty(v)),
{
    reveal(decode_play_lock_difficulty);
    PlayLockDifficultySpec::lemma_round_trip(v, Seq::empty());
    assert(PlayLockDifficultySpec::spec_serialize(v) + Seq::<u8>::empty() =~= PlayLockDifficultySpec::spec_serialize(v));
}

/// The body of the play player position message, read as that message.
#[verifier::opaque]
pub open spec fn decode_play_player_position(body: Seq<u8>) -> Result<Packet578Model, DeserializeErr> {
    match PlayPlayerPositionSpec::spec_deserialize(body) {
        Ok((v, _)) => Ok(Packet578Model::PlayPlayerPosition(v)),
        Err(e) => Err(e),
    }
}

#[verifier::rlimit(100)]
#[verifier::spinoff_prover]
proof fn lemma_play_player_position(v: <PlayPlayerPositionSpec as Codec>::Model)
    requires
        PlayPlayerPositionSpec::legal(v),
    ensures
        PlayPlayerPositionSpec::encodable(v),
        Packet578::spec_decode(State::Play, PacketDirection::ServerBound, 17i32, PlayPlayerPositionSpec::spec_serialize(v))
            == Ok::<Packet578Model, DeserializeErr>(Packet578Model::PlayPlayerPosition(v)),
{
    reveal(decode_play_player_position);
    PlayPlayerPositionSpec::lemma_round_trip(v, Seq::empty());
    assert(PlayPlayerPositionSpec::spec_serialize(v) + Seq::<u8>::empty() =~= PlayPlayerPositionSpec::spec_serialize(v));
}

/// The body of the play client player position and rotation message, read as that message.
#[verifier::opaque]
pub open spec fn decode_play_client_player_position_and_rotation(body: Seq<u8>) -> Result<Packet578Model, DeserializeErr> {
    match PlayClientPlayerPositionAndRotationSpec::spec_deserialize(body) {
        Ok((v, _)) => Ok(Packet578Model::PlayClientPlayerPositionAndRotation(v)),
        Err(e) => Err(e),
    }
}

#[verifier::rlimit(100)]
#[verifier::spinoff_prover]
proof fn lemma_play_client_player_position_and_rotation(v: <PlayClientPlayerPositionAndRotationSpec as Codec>::Model)
    requires
        PlayClientPlayerPositionAndRotationSpec::legal(v),
    ensures
        PlayClientPlayerPositionAndRotationSpec::encodable(v),
        Packet578::spec_decode(State::Play, PacketDirection::ServerBound, 18i32, PlayClientPlayerPositionAndRotationSpec::spec_serialize(v))
            == Ok::<Packet578Model, DeserializeErr>(Packet578Model::PlayClientPlayerPositionAndRotation(v)),
{
    reveal(decode_play_client_player_position_and_rotation);
    PlayClientPlayerPositionAndRotationSpec::lemma_round_trip(v, Seq::empty());
    assert(PlayClientPlayerPositionAndRotationSpec::spec_serialize(v) + Seq::<u8>::empty() =~= PlayClientPlayerPositionAndRotationSpec::spec_serialize(v));
}

/// The body of the play player rotation message, read as that message.
#[verifier::opaque]
pub open spec fn decode_play_player_rotation(body: Seq<u8>) -> Result<Packet578Model, DeserializeErr> {
    match PlayPlayerRotationSpec::spec_deserialize(body) {
        Ok((v, _)) => Ok(Packet578Model::PlayPlayerRotation(v)),
        Err(e) => Err(e),
    }
}

#[verifier::rlimit(100)]
#[verifier::spinoff_prover]
proof fn lemma_play_player_rotation(v: <PlayPlayerRotationSpec as Codec>::Model)
    requires
        PlayPlayerRotationSpec::legal(v),
    ensures
        PlayPlayerRotationSpec::encodable(v),
        Packet578::spec_decode(State::Play, PacketDirection::ServerBound, 19i32, PlayPlayerRotationSpec::spec_serialize(v))
            == Ok::<Packet578Model, DeserializeErr>(Packet578Model::PlayPlayerRotation(v)),
{
    reveal(decode_play_player_rotation);
    PlayPlayerRotationSpec::lemma_round_trip(v, Seq::empty());
    assert(PlayPlayerRotationSpec::spec_serialize(v) + Seq::<u8>::empty() =~= PlayPlayerRotationSpec::spec_serialize(v));
}

/// The body of the play player movement message, read as that message.
#[verifier::opaque]
pub open spec fn decode_play_player_movement(body: Seq<u8>) -> Result<Packet578Model, DeserializeErr> {
    match PlayPlayerMovementSpec::spec_deserialize(body) {
        Ok((v, _)) => Ok(Packet578Model::PlayPlayerMovement(v)),
        Err(e) => Err(e),
    }
}

#[verifier::rlimit(100)]
#[verifier::spinoff_prover]
proof fn lemma_play_player_movement(v: <PlayPlayerMovementSpec as Codec>::Model)
    requires
        PlayPlayerMovementSpec::legal(v),
    ensures
        PlayPlayerMovementSpec::encodable(v),
        Packet578::spec_decode(State::Play, PacketDirection::ServerBound, 20i32, PlayPlayerMovementSpec::spec_serialize(v))
            == Ok::<Packet578Model, DeserializeErr>(Packet578Model::PlayPlayerMovement(v)),
{
    reveal(decode_play_player_movement);
    PlayPlayerMovementSpec::lemma_round_trip(v, Seq::empty());
    assert(PlayPlayerMovementSpec::spec_serialize(v) + Seq::<u8>::empty() =~= PlayPlayerMovementSpec::spec_serialize(v));
}

/// The body of the play client vehicle move message, read as that message.
#[verifier::opaque]
pub open spec fn decode_play_client_vehicle_move(body: Seq<u8>) -> Result<Packet578Model, DeserializeErr> {
    match PlayClientVehicleMoveSpec::spec_deserialize(body) {
        Ok((v, _)) => Ok(Packet578Model::PlayClientVehicleMove(v)),
        Err(e) => Err(e),
    }
}

#[verifier::rlimit(100)]
#[verifier::spinoff_prover]
proof fn lemma_play_client_vehicle_move(v: <PlayClientVehicleMoveSpec as Codec>::Model)
    requires
        PlayClientVehicleMoveSpec::legal(v),
    ensures
        PlayClientVehicleMoveSpec::encodable(v),
        Packet578::spec_decode(State::Play, PacketDirection::ServerBound, 21i32, PlayClientVehicleMoveSpec::spec_serialize(v))
            == Ok::<Packet578Model, DeserializeErr>(Packet578Model::PlayClientVehicleMove(v)),
{
    reveal(decode_play_client_vehicle_move);
    PlayClientVehicleMoveSpec::lemma_round_trip(v, Seq::empty());
    assert(PlayClientVehicleMoveSpec::spec_serialize(v) + Seq::<u8>::empty() =~= PlayClientVehicleMoveSpec::spec_serialize(v));
}

/// The body of the play steer boat message, read as that message.
#[verifier::opaque]
pub open spec fn decode_play_steer_boat(body: Seq<u8>) -> Result<Packet578Model, DeserializeErr> {
    match PlaySteerBoatSpec::spec_deserialize(body) {
        Ok((v, _)) => Ok(Packet578Model::PlaySteerBoat(v)),
        Err(e) => Err(e),
    }
}

#[verifier::rlimit(100)]
#[verifier::spinoff_prover]
proof fn lemma_play_steer_boat(v: <PlaySteerBoatSpec as Codec>::Model)
    requires
        PlaySteerBoatSpec::legal(v),
    ensures
        PlaySteerBoatSpec::encodable(v),
        Packet578::spec_decode(State::Play, PacketDirection::ServerBound, 22i32, PlaySteerBoatSpec::spec_serialize(v))
            == Ok::<Packet578Model, DeserializeErr>(Packet578Model::PlaySteerBoat(v)),
{
    reveal(decode_play_steer_boat);
    PlaySteerBoatSpec::lemma_round_trip(v, Seq::empty());
    assert(PlaySteerBoatSpec::spec_serialize(v) + Seq::<u8>::empty() =~= PlaySteerBoatSpec::spec_serialize(v));
}

/// The body of the play pick item message, read as that message.
#[verifier::opaque]
pub open spec fn decode_play_pick_item(body: Seq<u8>) -> Result<Packet578Model, DeserializeErr> {
    match PlayPickItemSpec::spec_deserialize(body) {
        Ok((v, _)) => Ok(Packet578Model::PlayPickItem(v)),
        Err(e) => Err(e),
    }
}

#[verifier::rlimit(100)]
#[verifier::spinoff_prover]
proof fn lemma_play_pick_item(v: <PlayPickItemSpec as Codec>::Model)
    requires
        PlayPickItemSpec::legal(v),
    ensures
        PlayPickItemSpec::encodable(v),
        Packet578::spec_decode(State::Play, PacketDirection::ServerBound, 23i32, PlayPickItemSpec::spec_serialize(v))
            == Ok::<Packet578Model, DeserializeErr>(Packet578Model::PlayPickItem(v)),
{
    reveal(decode_play_pick_item);
    PlayPickItemSpec::lemma_round_trip(v, Seq::empty());
    assert(PlayPickItemSpec::spec_serialize(v) + Seq::<u8>::empty() =~= PlayPickItemSpec::spec_serialize(v));
}

/// The body of the play craft recipe request message, read as that message.
#[verifier::opaque]
pub open spec fn decode_play_craft_recipe_request(body: Seq<u8>) -> Result<Packet578Model, DeserializeErr> {
    match PlayCraftRecipeRequestSpec::spec_deserialize(body) {
        Ok((v, _)) => Ok(Packet578Model::PlayCraftRecipeRequest(v)),
        Err(e) => Err(e),
    }
}

#[verifier::rlimit(100)]
#[verifier::spinoff_prover]
proof fn lemma_play_craft_recipe_request(v: <PlayCraftRecipeRequestSpec as Codec>::Model)
    requires
        PlayCraftRecipeRequestSpec::legal(v),
    ensures
        PlayCraftRecipeRequestSpec::encodable(v),
        Packet578::spec_decode(State::Play, PacketDirection::ServerBound, 24i32, PlayCraftRecipeRequestSpec::spec_serialize(v))
            == Ok::<Packet578Model, DeserializeErr>(Packet578Model::PlayCraftRecipeRequest(v)),
{
    reveal(decode_play_craft_recipe_request);
    PlayCraftRecipeRequestSpec::lemma_round_trip(v, Seq::empty());
    assert(PlayCraftRecipeRequestSpec::spec_serialize(v) + Seq::<u8>::empty() =~= PlayCraftRecipeRequestSpec::spec_serialize(v));
}

/// The body of the play client player abilities message, read as that message.
#[verifier::opaque]
pub open spec fn decode_play_client_player_abilities(body: Seq<u8>) -> Result<Packet578Model, DeserializeErr> {
    match PlayClientPlayerAbilitiesSpec::spec_deserialize(body) {
        Ok((v, _)) => Ok(Packet578Model::PlayClientPlayerAbilities(v)),
        Err(e) => Err(e),
    }
}

#[verifier::rlimit(100)]
#[verifier::spinoff_prover]
proof fn lemma_play_client_player_abilities(v: <PlayClientPlayerAbilitiesSpec as Codec>::Model)
    requires
        PlayClientPlayerAbilitiesSpec::legal(v),
    ensures
        PlayClientPlayerAbilitiesSpec::encodable(v),
        Packet578::spec_decode(State::Play, PacketDirection::ServerBound, 25i32, PlayClientPlayerAbilitiesSpec::spec_serialize(v))
            == Ok::<Packet578Model, DeserializeErr>(Packet578Model::PlayClientPlayerAbilities(v)),
{
    reveal(decode_play_client_player_abilities);
    PlayClientPlayerAbilitiesSpec::lemma_round_trip(v, Seq::empty());
    assert(PlayClientPlayerAbilitiesSpec::spec_serialize(v) + Seq::<u8>::empty() =~= PlayClientPlayerAbilitiesSpec::spec_serialize(v));
}

/// The body of the play player digging message, read as that message.
#[verifier::opaque]
pub open spec fn decode_play_player_digging(body: Seq<u8>) -> Result<Packet578Model, DeserializeErr> {
    match PlayPlayerDiggingSpec::spec_deserialize(body) {
        Ok((v, _)) => Ok(Packet578Model::PlayPlayerDigging(v)),
        Err(e) => Err(e),
    }
}

#[verifier::rlimit(100)]
#[verifier::spinoff_prover]
proof fn lemma_play_player_digging(v: <PlayPlayerDiggingSpec as Codec>::Model)
    requires
        PlayPlayerDiggingSpec::legal(v),
    ensures
        PlayPlayerDiggingSpec::encodable(v),
        Packet578::spec_decode(State::Play, PacketDirection::ServerBound, 26i32, PlayPlayerDiggingSpec::spec_serialize(v))
            == Ok::<Packet578Model, DeserializeErr>(Packet578Model::PlayPlayerDigging(v)),
{
    reveal(decode_play_player_digging);
    PlayPlayerDiggingSpec::lemma_round_trip(v, Seq::empty());
    assert(PlayPlayerDiggingSpec::spec_serialize(v) + Seq::<u8>::empty() =~= PlayPlayerDiggingSpec::spec_serialize(v));
}

/// The body of the play entity action message, read as that message.
#[verifier::opaque]
pub open spec fn decode_play_entity_action(body: Seq<u8>) -> Result<Packet578Model, DeserializeErr> {
    match PlayEntityActionSpec::spec_deserialize(body) {
        Ok((v, _)) => Ok(Packet578Model::PlayEntityAction(v)),
        Err(e) => Err(e),
    }
}

#[verifier::rlimit(100)]
#[verifier::spinoff_prover]
proof fn lemma_play_entity_action(v: <PlayEntityActionSpec as Codec>::Model)
    requires
        PlayEntityActionSpec::legal(v),
    ensures
        PlayEntityActionSpec::encodable(v),
        Packet578::spec_decode(State::Play, PacketDirection::ServerBound, 27i32, PlayEntityActionSpec::spec_serialize(v))
            == Ok::<Packet578Model, DeserializeErr>(Packet578Model::PlayEntityAction(v)),
{
    reveal(decode_play_entity_action);
    PlayEntityActionSpec::lemma_round_trip(v, Seq::empty());
    assert(PlayEntityActionSpec::spec_serialize(v) + Seq::<u8>::empty() =~= PlayEntityActionSpec::spec_serialize(v));
}

/// The body of the play steer vehicle message, read as that message.
#[verifier::opaque]
pub open spec fn decode_play_steer_vehicle(body: Seq<u8>) -> Result<Packet578Model, DeserializeErr> {
    match PlaySteerVehicleSpec::spec_deserialize(body) {
        Ok((v, _)) => Ok(Packet578Model::PlaySteerVehicle(v)),
        Err(e) => Err(e),
    }
}

#[verifier::rlimit(100)]
#[verifier::spinoff_prover]
proof fn lemma_play_steer_vehicle(v: <PlaySteerVehicleSpec as Codec>::Model)
    requires
        PlaySteerVehicleSpec::legal(v),
    ensures
        PlaySteerVehicleSpec::encodable(v),
        Packet578::spec_decode(State::Play, PacketDirection::ServerBound, 28i32, PlaySteerVehicleSpec::spec_serialize(v))
            == Ok::<Packet578Model, DeserializeErr>(Packet578Model::PlaySteerVehicle(v)),
{
    reveal(decode_play_steer_vehicle);
    PlaySteerVehicleSpec::lemma_round_trip(v, Seq::empty());
    assert(PlaySteerVehicleSpec::spec_serialize(v) + Seq::<u8>::empty() =~= PlaySteerVehicleSpec::spec_serialize(v));
}

/// The body of the play recipe book data message, read as that message.
#[verifier::opaque]
pub open spec fn decode_play_recipe_book_data(body: Seq<u8>) -> Result<Packet578Model, DeserializeErr> {
    match PlayRecipeBookDataSpec::spec_deserialize(body) {
        Ok((v, _)) => Ok(Packet578Model::PlayRecipeBookData(v)),
        Err(e) => Err(e),
    }
}

#[verifier::rlimit(100)]
#[verifier::spinoff_prover]
proof fn lemma_play_recipe_book_data(v: <PlayRecipeBookDataSpec as Codec>::Model)
    requires
        PlayRecipeBookDataSpec::legal(v),
    ensures
        PlayRecipeBookDataSpec::encodable(v),
        Packet578::spec_decode(State::Play, PacketDirection::ServerBound, 29i32, PlayRecipeBookDataSpec::spec_serialize(v))
            == Ok::<Packet578Model, DeserializeErr>(Packet578Model::PlayRecipeBookData(v)),
{
    reveal(decode_play_recipe_book_data);
    PlayRecipeBookDataSpec::lemma_round_trip(v, Seq::empty());
    assert(PlayRecipeBookDataSpec::spec_serialize(v) + Seq::<u8>::empty() =~= PlayRecipeBookDataSpec::spec_serialize(v));
}

/// The body of the play name item message, read as that message.
#[verifier::opaque]
pub open spec fn decode_play_name_item(body: Seq<u8>) -> Result<Packet578Model, DeserializeErr> {
    match PlayNameItemSpec::spec_deserialize(body) {
        Ok((v, _)) => Ok(Packet578Model::PlayNameItem(v)),
        Err(e) => Err(e),
    }
}

#[verifier::rlimit(100)]
#[verifier::spinoff_prover]
proof fn lemma_play_name_item(v: <PlayNameItemSpec as Codec>::Model)
    requires
        PlayNameItemSpec::legal(v),
    ensures
        PlayNameItemSpec::encodable(v),
        Packet578::spec_decode(State::Play, PacketDirection::ServerBound, 30i32, PlayNameItemSpec::spec_serialize(v))
            == Ok::<Packet578Model, DeserializeErr>(Packet578Model::PlayNameItem(v)),
{
    reveal(decode_play_name_item);
    PlayNameItemSpec::lemma_round_trip(v, Seq::empty());
    assert(PlayNameItemSpec::spec_serialize(v) + Seq::<u8>::empty() =~= PlayNameItemSpec::spec_serialize(v));
}

/// The body of the play resource pack status message, read as that message.
#[verifier::opaque]
pub open spec fn decode_play_resource_pack_status(body: Seq<u8>) -> Result<Packet578Model, DeserializeErr> {
    match PlayResourcePackStatusSpec::spec_deserialize(body) {
        Ok((v, _)) => Ok(Packet578Model::PlayResourcePackStatus(v)),
        Err(e) => Err(e),
    }
}

#[verifier::rlimit(100)]
#[verifier::spinoff_prover]
proof fn lemma_play_resource_pack_status(v: <PlayResourcePackStatusSpec as Codec>::Model)
    requires
        PlayResourcePackStatusSpec::legal(v),
    ensures
        PlayResourcePackStatusSpec::encodable(v),
        Packet578::spec_decode(State::Play, PacketDirection::ServerBound, 31i32, PlayResourcePackStatusSpec::spec_serialize(v))
            == Ok::<Packet578Model, DeserializeErr>(Packet578Model::PlayResourcePackStatus(v)),
{
    reveal(decode_play_resource_pack_status);
    PlayResourcePackStatusSpec::lemma_round_trip(v, Seq::empty());
    assert(PlayResourcePackStatusSpec::spec_serialize(v) + Seq::<u8>::empty() =~= PlayResourcePackStatusSpec::spec_serialize(v));
}

/// The body of the play advancement tab message, read as that message.
#[verifier::opaque]
pub open spec fn decode_play_advancement_tab(body: Seq<u8>) -> Result<Packet578Model, DeserializeErr> {
    match PlayAdvancementTabSpec::spec_deserialize(body) {
        Ok((v, _)) => Ok(Packet578Model::PlayAdvancementTab(v)),
        Err(e) => Err(e),
    }
}

#[verifier::rlimit(100)]
#[verifier::spinoff_prover]
proof fn lemma_play_advancement_tab(v: <PlayAdvancementTabSpec as Codec>::Model)
    requires
        PlayAdvancementTabSpec::legal(v),
    ensures
        PlayAdvancementTabSpec::encodable(v),
        Packet578::spec_decode(State::Play, PacketDirection::ServerBound, 32i32, PlayAdvancementTabSpec::spec_serialize(v))
            == Ok::<Packet578Model, DeserializeErr>(Packet578Model::PlayAdvancementTab(v)),
{
    reveal(decode_play_advancement_tab);
    PlayAdvancementTabSpec::lemma_round_trip(v, Seq::empty());
    assert(PlayAdvancementTabSpec::spec_serialize(v) + Seq::<u8>::empty() =~= PlayAdvancementTabSpec::spec_serialize(v));
}

/// The body of the play select trade message, read as that message.
#[verifier::opaque]
pub open spec fn decode_play_select_trade(body: Seq<u8>) -> Result<Packet578Model, DeserializeErr> {
    match PlaySelectTradeSpec::spec_deserialize(body) {
        Ok((v, _)) => Ok(Packet578Model::PlaySelectTrade(v)),
        Err(e) => Err(e),
    }
}

#[verifier::rlimit(100)]
#[verifier::spinoff_prover]
proof fn lemma_play_select_trade(v: <PlaySelectTradeSpec as Codec>::Model)
    requires
        PlaySelectTradeSpec::legal(v),
    ensures
        PlaySelectTradeSpec::encodable(v),
        Packet578::spec_decode(State::Play, PacketDirection::ServerBound, 33i32, PlaySelectTradeSpec::spec_serialize(v))
            == Ok::<Packet578Model, DeserializeErr>(Packet578Model::PlaySelectTrade(v)),
{
    reveal(decode_play_select_trade);
    PlaySelectTradeSpec::lemma_round_trip(v, Seq::empty());
    assert(PlaySelectTradeSpec::spec_serialize(v) + Seq::<u8>::empty() =~= PlaySelectTradeSpec::spec_serialize(v));
}

/// The body of the play set beacon effect message, read as that message.
#[verifier::opaque]
pub open spec fn decode_play_set_beacon_effect(body: Seq<u8>) -> Result<Packet578Model, DeserializeErr> {
    match PlaySetBeaconEffectSpec::spec_deserialize(body) {
        Ok((v, _)) => Ok(Packet578Model::PlaySetBeaconEffect(v)),
        Err(e) => Err(e),
    }
}

#[verifier::rlimit(100)]
#[verifier::spinoff_prover]
proof fn lemma_play_set_beacon_effect(v: <PlaySetBeaconEffectSpec as Codec>::Model)
    requires
        PlaySetBeaconEffectSpec::legal(v),
    ensures
        PlaySetBeaconEffectSpec::encodable(v),
        Packet578::spec_decode(State::Play, PacketDirection::ServerBound, 34i32, PlaySetBeaconEffectSpec::spec_serialize(v))
            == Ok::<Packet578Model, DeserializeErr>(Packet578Model::PlaySetBeaconEffect(v)),
{
    reveal(decode_play_set_beacon_effect);
    PlaySetBeaconEffectSpec::lemma_round_trip(v, Seq::empty());
    assert(PlaySetBeaconEffectSpec::spec_serialize(v) + Seq::<u8>::empty() =~= PlaySetBeaconEffectSpec::spec_serialize(v));
}

/// The body of the play client held item change message, read as that message.
#[verifier::opaque]
pub open spec fn decode_play_client_held_item_change(body: Seq<u8>) -> Result<Packet578Model, DeserializeErr> {
    match PlayClientHeldItemChangeSpec::spec_deserialize(body) {
        Ok((v, _)) => Ok(Packet578Model::PlayClientHeldItemChange(v)),
        Err(e) => Err(e),
    }
}

#[verifier::rlimit(100)]
#[verifier::spinoff_prover]
proof fn lemma_play_client_held_item_change(v: <PlayClientHeldItemChangeSpec as Codec>::Model)
    requires
        PlayClientHeldItemChangeSpec::legal(v),
    ensures
        PlayClientHeldItemChangeSpec::encodable(v),
        Packet578::spec_decode(State::Play, PacketDirection::ServerBound, 35i32, PlayClientHeldItemChangeSpec::spec_serialize(v))
            == Ok::<Packet578Model, DeserializeErr>(Packet578Model::PlayClientHeldItemChange(v)),
{
    reveal(decode_play_client_held_item_change);
    PlayClientHeldItemChangeSpec::lemma_round_trip(v, Seq::empty());
    assert(PlayClientHeldItemChangeSpec::spec_serialize(v) + Seq::<u8>::empty() =~= PlayClientHeldItemChangeSpec::spec_serialize(v));
}

/// The body of the play update command block message, read as that message.
#[verifier::opaque]
pub open spec fn decode_play_update_command_block(body: Seq<u8>) -> Result<Packet578Model, DeserializeErr> {
    match PlayUpdateCommandBlockSpec::spec_deserialize(body) {
        Ok((v, _)) => Ok(Packet578Model::PlayUpdateCommandBlock(v)),
        Err(e) => Err(e),
    }
}

#[verifier::rlimit(100)]
#[verifier::spinoff_prover]
proof fn lemma_play_update_command_block(v: <PlayUpdateCommandBlockSpec as Codec>::Model)
    requires
        PlayUpdateCommandBlockSpec::legal(v),
    ensures
        PlayUpdateCommandBlockSpec::encodable(v),
        Packet578::spec_decode(State::Play, PacketDirection::ServerBound, 36i32, PlayUpdateCommandBlockSpec::spec_serialize(v))
            == Ok::<Packet578Model, DeserializeErr>(Packet578Model::PlayUpdateCommandBlock(v)),
{
    reveal(decode_play_update_command_block);
    PlayUpdateCommandBlockSpec::lemma_round_trip(v, Seq::empty());
    assert(PlayUpdateCommandBlockSpec::spec_serialize(v) + Seq::<u8>::empty() =~= PlayUpdateCommandBlockSpec::spec_serialize(v));
}

/// The body of the play update command block minecart message, read as that message.
#[verifier::opaque]
pub open spec fn decode_play_update_command_block_minecart(body: Seq<u8>) -> Result<Packet578Model, DeserializeErr> {
    match PlayUpdateCommandBlockMinecartSpec::spec_deserialize(body) {
        Ok((v, _)) => Ok(Packet578Model::PlayUpdateCommandBlockMinecart(v)),
        Err(e) => Err(e),
    }
}

#[verifier::rlimit(100)]
#[verifier::spinoff_prover]
proof fn lemma_play_update_command_block_minecart(v: <PlayUpdateCommandBlockMinecartSpec as Codec>::Model)
    requires
        PlayUpdateCommandBlockMinecartSpec::legal(v),
    ensures
        PlayUpdateCommandBlockMinecartSpec::encodable(v),
        Packet578::spec_decode(State::Play, PacketDirection::ServerBound, 37i32, PlayUpdateCommandBlockMinecartSpec::spec_serialize(v))
            == Ok::<Packet578Model, DeserializeErr>(Packet578Model::PlayUpdateCommandBlockMinecart(v)),
{
    reveal(decode_play_update_command_block_minecart);
    PlayUpdateCommandBlockMinecartSpec::lemma_round_trip(v, Seq::empty());
    assert(PlayUpdateCommandBlockMinecartSpec::spec_serialize(v) + Seq::<u8>::empty() =~= PlayUpdateCommandBlockMinecartSpec::spec_serialize(v));
}

/// The body of the play creative inventory action message, read as that message.
#[verifier::opaque]
pub open spec fn decode_play_creative_inventory_action(body: Seq<u8>) -> Result<Packet578Model, DeserializeErr> {
    match PlayCreativeInventoryActionSpec::spec_deserialize(body) {
        Ok((v, _)) => Ok(Packet578Model::PlayCreativeInventoryAction(v)),
        Err(e) => Err(e),
    }
}

#[verifier::rlimit(100)]
#[verifier::spinoff_prover]
proof fn lemma_play_creative_inventory_action(v: <PlayCreativeInventoryActionSpec as Codec>::Model)
    requires
        PlayCreativeInventoryActionSpec::legal(v),
    ensures
        PlayCreativeInventoryActionSpec::encodable(v),
        Packet578::spec_decode(State::Play, PacketDirection::ServerBound, 38i32, PlayCreativeInventoryActionSpec::spec_serialize(v))
            == Ok::<Packet578Model, DeserializeErr>(Packet578Model::PlayCreativeInventoryAction(v)),
{
    reveal(decode_play_creative_inventory_action);
    PlayCreativeInventoryActionSpec::lemma_round_trip(v, Seq::empty());
    assert(PlayCreativeInventoryActionSpec::spec_serialize(v) + Seq::<u8>::empty() =~= PlayCreativeInventoryActionSpec::spec_serialize(v));
}

/// The body of the play update jigsaw block message, read as that message.
#[verifier::opaque]
pub open spec fn decode_play_update_jigsaw_block(body: Seq<u8>) -> Result<Packet578Model, DeserializeErr> {
    match PlayUpdateJigsawBlockSpec::spec_deserialize(body) {
        Ok((v, _)) => Ok(Packet578Model::PlayUpdateJigsawBlock(v)),
        Err(e) => Err(e),
    }
}

#[verifier::rlimit(100)]
#[verifier::spinoff_prover]
proof fn lemma_play_update_jigsaw_block(v: <PlayUpdateJigsawBlockSpec as Codec>::Model)
    requires
        PlayUpdateJigsawBlockSpec::legal(v),
    ensures
        PlayUpdateJigsawBlockSpec::encodable(v),
        Packet578::spec_decode(State::Play, PacketDirection::ServerBound, 39i32, PlayUpdateJigsawBlockSpec::spec_serialize(v))
            == Ok::<Packet578Model, DeserializeErr>(Packet578Model::PlayUpdateJigsawBlock(v)),
{
    reveal(decode_play_update_jigsaw_block);
    PlayUpdateJigsawBlockSpec::lemma_round_trip(v, Seq::empty());
    assert(PlayUpdateJigsawBlockSpec::spec_serialize(v) + Seq::<u8>::empty() =~= PlayUpdateJigsawBlockSpec::spec_serialize(v));
}

/// The body of the play update structure block message, read as that message.
#[verifier::opaque]
pub open spec fn decode_play_update_structure_block(body: Seq<u8>) -> Result<Packet578Model, DeserializeErr> {
    match PlayUpdateStructureBlockSpec::spec_deserialize(body) {
        Ok((v, _)) => Ok(Packet578Model::PlayUpdateStructureBlock(v)),
        Err(e) => Err(e),
    }
}

#[verifier::rlimit(100)]
#[verifier::spinoff_prover]
proof fn lemma_play_update_structure_block(v: <PlayUpdateStructureBlockSpec as Codec>::Model)
    requires
        PlayUpdateStructureBlockSpec::legal(v),
    ensures
        PlayUpdateStructureBlockSpec::encodable(v),
        Packet578::spec_decode(State::Play, PacketDirection::ServerBound, 40i32, PlayUpdateStructureBlockSpec::spec_serialize(v))
            == Ok::<Packet578Model, DeserializeErr>(Packet578Model::PlayUpdateStructureBlock(v)),
{
    reveal(decode_play_update_structure_block);
    PlayUpdateStructureBlockSpec::lemma_round_trip(v, Seq::empty());
    assert(PlayUpdateStructureBlockSpec::spec_serialize(v) + Seq::<u8>::empty() =~= PlayUpdateStructureBlockSpec::spec_serialize(v));
}

/// The body of the play update sign message, read as that message.
#[verifier::opaque]
pub open spec fn decode_play_update_sign(body: Seq<u8>) -> Result<Packet578Model, DeserializeErr> {
    match PlayUpdateSignSpec::spec_deserialize(body) {
        Ok((v, _)) => Ok(Packet578Model::PlayUpdateSign(v)),
        Err(e) => Err(e),
    }
}

#[verifier::rlimit(100)]
#[verifier::spinoff_prover]
proof fn lemma_play_update_sign(v: <PlayUpdateSignSpec as Codec>::Model)
    requires
        PlayUpdateSignSpec::legal(v),
    ensures
        PlayUpdateSignSpec::encodable(v),
        Packet578::spec_decode(State::Play, PacketDirection::ServerBound, 41i32, PlayUpdateSignSpec::spec_serialize(v))
            == Ok::<Packet578Model, DeserializeErr>(Packet578Model::PlayUpdateSign(v)),
{
    reveal(decode_play_update_sign);
    PlayUpdateSignSpec::lemma_round_trip(v, Seq::empty());
    assert(PlayUpdateSignSpec::spec_serialize(v) + Seq::<u8>::empty() =~= PlayUpdateSignSpec::spec_serialize(v));
}

/// The body of the play client animation message, read as that message.
#[verifier::opaque]
pub open spec fn decode_play_client_animation(body: Seq<u8>) -> Result<Packet578Model, DeserializeErr> {
    match PlayClientAnimationSpec::spec_deserialize(body) {
        Ok((v, _)) => Ok(Packet578Model::PlayClientAnimation(v)),
        Err(e) => Err(e),
    }
}

#[verifier::rlimit(100)]
#[verifier::spinoff_prover]
proof fn lemma_play_client_animation(v: <PlayClientAnimationSpec as Codec>::Model)
    requires
        PlayClientAnimationSpec::legal(v),
    ensures
        PlayClientAnimationSpec::encodable(v),
        Packet578::spec_decode(State::Play, PacketDirection::ServerBound, 42i32, PlayClientAnimationSpec::spec_serialize(v))
            == Ok::<Packet578Model, DeserializeErr>(Packet578Model::PlayClientAnimation(v)),
{
    reveal(decode_play_client_animation);
    PlayClientAnimationSpec::lemma_round_trip(v, Seq::empty());
    assert(PlayClientAnimationSpec::spec_serialize(v) + Seq::<u8>::empty() =~= PlayClientAnimationSpec::spec_serialize(v));
}

/// The body of the play spectate message, read as that message.
#[verifier::opaque]
pub open spec fn decode_play_spectate(body: Seq<u8>) -> Result<Packet578Model, DeserializeErr> {
    match PlaySpectateSpec::spec_deserialize(body) {
        Ok((v, _)) => Ok(Packet578Model::PlaySpectate(v)),
        Err(e) => Err(e),
    }
}

#[verifier::rlimit(100)]
#[verifier::spinoff_prover]
proof fn lemma_play_spectate(v: <PlaySpectateSpec as Codec>::Model)
    requires
        PlaySpectateSpec::legal(v),
    ensures
        PlaySpectateSpec::encodable(v),
        Packet578::spec_decode(State::Play, PacketDirection::ServerBound, 43i32, PlaySpectateSpec::spec_serialize(v))
            == Ok::<Packet578Model, DeserializeErr>(Packet578Model::PlaySpectate(v)),
{
    reveal(decode_play_spectate);
    PlaySpectateSpec::lemma_round_trip(v, Seq::empty());
    assert(PlaySpectateSpec::spec_serialize(v) + Seq::<u8>::empty() =~= PlaySpectateSpec::spec_serialize(v));
}

/// The body of the play block placement message, read as that message.
#[verifier::opaque]
pub open spec fn decode_play_block_placement(body: Seq<u8>) -> Result<Packet578Model, DeserializeErr> {
    match PlayBlockPlacementSpec::spec_deserialize(body) {
        Ok((v, _)) => Ok(Packet578Model::PlayBlockPlacement(v)),
        Err(e) => Err(e),
    }
}

#[verifier::rlimit(100)]
#[verifier::spinoff_prover]
proof fn lemma_play_block_placement(v: <PlayBlockPlacementSpec as Codec>::Model)
    requires
        PlayBlockPlacementSpec::legal(v),
    ensures
        PlayBlockPlacementSpec::encodable(v),
        Packet578::spec_decode(State::Play, PacketDirection::ServerBound, 44i32, PlayBlockPlacementSpec::spec_serialize(v))
            == Ok::<Packet578Model, DeserializeErr>(Packet578Model::PlayBlockPlacement(v)),
{
    reveal(decode_play_block_placement);
    PlayBlockPlacementSpec::lemma_round_trip(v, Seq::empty());
    assert(PlayBlockPlacementSpec::spec_serialize(v) + Seq::<u8>::empty() =~= PlayBlockPlacementSpec::spec_serialize(v));
}

/// The body of the play use item message, read as that message.
#[verifier::opaque]
pub open spec fn decode_play_use_item(body: Seq<u8>) -> Result<Packet578Model, DeserializeErr> {
    match PlayUseItemSpec::spec_deserialize(body) {
        Ok((v, _)) => Ok(Packet578Model::PlayUseItem(v)),
        Err(e) => Err(e),
    }
}

#[verifier::rlimit(100)]
#[verifier::spinoff_prover]
proof fn lemma_play_use_item(v: <PlayUseItemSpec as Codec>::Model)
    requires
        PlayUseItemSpec::legal(v),
    ensures
        PlayUseItemSpec::encodable(v),
        Packet578::spec_decode(State::Play, PacketDirection::ServerBound, 45i32, PlayUseItemSpec::spec_serialize(v))
            == Ok::<Packet578Model, DeserializeErr>(Packet578Model::PlayUseItem(v)),
{
    reveal(decode_play_use_item);
    PlayUseItemSpec::lemma_round_trip(v, Seq::empty());
    assert(PlayUseItemSpec::spec_serialize(v) + Seq::<u8>::empty() =~= PlayUseItemSpec::spec_serialize(v));
}


/// The message that `id` names in this state and direction.
pub open spec fn spec_decode_handshaking_clientbound(id: i32, body: Seq<u8>) -> Result<Packet578Model, DeserializeErr> {
        {
            Err(DeserializeErr::UnknownTag(id as i64))
        }
}

#[verifier::rlimit(100)]
#[verifier::spinoff_prover]
fn from_raw_handshaking_clientbound_0(id: i32, body: &[u8]) -> (r: Result<Packet578, DeserializeErr>)
    requires
        true,
    ensures
        match r {
            Ok(p) => spec_decode_handshaking_clientbound(id, body@) == Ok::<Packet578Model, DeserializeErr>(p.model()),
            Err(e) => spec_decode_handshaking_clientbound(id, body@) == Err::<Packet578Model, DeserializeErr>(e),
        },
{
    {
        Err(DeserializeErr::UnknownTag(id as i64))
    }
}

fn from_raw_handshaking_clientbound(id: i32, body: &[u8]) -> (r: Result<Packet578, DeserializeErr>)
    ensures
        match r {
            Ok(p) => spec_decode_handshaking_clientbound(id, body@) == Ok::<Packet578Model, DeserializeErr>(p.model()),
            Err(e) => spec_decode_handshaking_clientbound(id, body@) == Err::<Packet578Model, DeserializeErr>(e),
        },
{
    {
        from_raw_handshaking_clientbound_0(id, body)
    }
}

/// The message that `id` names in this state and direction.
pub open spec fn spec_decode_handshaking_serverbound(id: i32, body: Seq<u8>) -> Result<Packet578Model, DeserializeErr> {
        if id == 0 {
            decode_handshake(body)
        } else {
            Err(DeserializeErr::UnknownTag(id as i64))
        }
}

#[verifier::rlimit(100)]
#[verifier::spinoff_prover]
fn from_raw_handshaking_serverbound_0(id: i32, body: &[u8]) -> (r: Result<Packet578, DeserializeErr>)
    requires
        true,
    ensures
        match r {
            Ok(p) => spec_decode_handshaking_serverbound(id, body@) == Ok::<Packet578Model, DeserializeErr>(p.model()),
            Err(e) => spec_decode_handshaking_serverbound(id, body@) == Err::<Packet578Model, DeserializeErr>(e),
        },
{
    if id == 0 {
        proof {
            reveal(decode_handshake);
        }
        let (v, _) = HandshakeSpec::mc_deserialize(body)?;
        Ok(Packet578::Handshake(v))
    } else {
        Err(DeserializeErr::UnknownTag(id as i64))
    }
}

fn from_raw_handshaking_serverbound(id: i32, body: &[u8]) -> (r: Result<Packet578, DeserializeErr>)
    ensures
        match r {
            Ok(p) => spec_decode_handshaking_serverbound(id, body@) == Ok::<Packet578Model, DeserializeErr>(p.model()),
            Err(e) => spec_decode_handshaking_serverbound(id, body@) == Err::<Packet578Model, DeserializeErr>(e),
        },
{
    {
        from_raw_handshaking_serverbound_0(id, body)
    }
}

/// The message that `id` names in this state and direction.
pub open spec fn spec_decode_status_clientbound(id: i32, body: Seq<u8>) -> Result<Packet578Model, DeserializeErr> {
        if id == 0 {
            decode_status_response(body)
        } else if id == 1 {
            decode_status_pong(body)
        } else {
            Err(DeserializeErr::UnknownTag(id as i64))
        }
}

#[verifier::rlimit(100)]
#[verifier::spinoff_prover]
fn from_raw_status_clientbound_0(id: i32, body: &[u8]) -> (r: Result<Packet578, DeserializeErr>)
    requires
        true,
    ensures
        match r {
            Ok(p) => spec_decode_status_clientbound(id, body@) == Ok::<Packet578Model, DeserializeErr>(p.model()),
            Err(e) => spec_decode_status_clientbound(id, body@) == Err::<Packet578Model, DeserializeErr>(e),
        },
{
    if id == 0 {
        proof {
            reveal(decode_status_response);
        }
        let (v, _) = StatusResponseSpec::mc_deserialize(body)?;
        Ok(Packet578::StatusResponse(v))
    } else if id == 1 {
        proof {
            reveal(decode_status_pong);
        }
        let (v, _) = StatusPongSpec::mc_deserialize(body)?;
        Ok(Packet578::StatusPong(v))
    } else {
        Err(DeserializeErr::UnknownTag(id as i64))
    }
}

fn from_raw_status_clientbound(id: i32, body: &[u8]) -> (r: Result<Packet578, DeserializeErr>)
    ensures
        match r {
            Ok(p) => spec_decode_status_clientbound(id, body@) == Ok::<Packet578Model, DeserializeErr>(p.model()),
            Err(e) => spec_decode_status_clientbound(id, body@) == Err::<Packet578Model, DeserializeErr>(e),
        },
{
    {
        from_raw_status_clientbound_0(id, body)
    }
}

/// The message that `id` names in this state and direction.
pub open spec fn spec_decode_status_serverbound(id: i32, body: Seq<u8>) -> Result<Packet578Model, DeserializeErr> {
        if id == 0 {
            decode_status_request(body)
        } else if id == 1 {
            decode_status_ping(body)
        } else {
            Err(DeserializeErr::UnknownTag(id as i64))
        }
}

#[verifier::rlimit(100)]
#[verifier::spinoff_prover]
fn from_raw_status_serverbound_0(id: i32, body: &[u8]) -> (r: Result<Packet578, DeserializeErr>)
    requires
        true,
    ensures
        match r {
            Ok(p) => spec_decode_status_serverbound(id, body@) == Ok::<Packet578Model, DeserializeErr>(p.model()),
            Err(e) => spec_decode_status_serverbound(id, body@) == Err::<Packet578Model, DeserializeErr>(e),
        },
{
    if id == 0 {
        proof {
            reveal(decode_status_request);
        }
        let (v, _) = StatusRequestSpec::mc_deserialize(body)?;
        Ok(Packet578::StatusRequest(v))
    } else if id == 1 {
        proof {
            reveal(decode_status_ping);
        }
        let (v, _) = StatusPingSpec::mc_deserialize(body)?;
        Ok(Packet578::StatusPing(v))
    } else {
        Err(DeserializeErr::UnknownTag(id as i64))
    }
}

fn from_raw_status_serverbound(id: i32, body: &[u8]) -> (r: Result<Packet578, DeserializeErr>)
    ensures
        match r {
            Ok(p) => spec_decode_status_serverbound(id, body@) == Ok::<Packet578Model, DeserializeErr>(p.model()),
            Err(e) => spec_decode_status_serverbound(id, body@) == Err::<Packet578Model, DeserializeErr>(e),
        },
{
    {
        from_raw_status_serverbound_0(id, body)
    }
}

/// The message that `id` names in this state and direction.
pub open spec fn spec_decode_login_clientbound(id: i32, body: Seq<u8>) -> Result<Packet578Model, DeserializeErr> {
        if id == 0 {
            decode_login_disconnect(body)
        } else if id == 1 {
            decode_login_encryption_request(body)
        } else if id == 2 {
            decode_login_success(body)
        } else if id == 3 {
            decode_login_set_compression(body)
        } else if id == 4 {
            decode_login_plugin_request(body)
        } else {
            Err(DeserializeErr::UnknownTag(id as i64))
        }
}

#[verifier::rlimit(100)]
#[verifier::spinoff_prover]
fn from_raw_login_clientbound_0(id: i32, body: &[u8]) -> (r: Result<Packet578, DeserializeErr>)
    requires
        true,
    ensures
        match r {
            Ok(p) => spec_decode_login_clientbound(id, body@) == Ok::<Packet578Model, DeserializeErr>(p.model()),
            Err(e) => spec_decode_login_clientbound(id, body@) == Err::<Packet578Model, DeserializeErr>(e),
        },
{
    if id == 0 {
        proof {
            reveal(decode_login_disconnect);
        }
        let (v, _) = LoginDisconnectSpec::mc_deserialize(body)?;
        Ok(Packet578::LoginDisconnect(v))
    } else if id == 1 {
        proof {
            reveal(decode_login_encryption_request);
        }
        let (v, _) = LoginEncryptionRequestSpec::mc_deserialize(body)?;
        Ok(Packet578::LoginEncryptionRequest(v))
    } else if id == 2 {
        proof {
            reveal(decode_login_success);
        }
        let (v, _) = LoginSuccessSpec::mc_deserialize(body)?;
        Ok(Packet578::LoginSuccess(v))
    } else if id == 3 {
        proof {
            reveal(decode_login_set_compression);
        }
        let (v, _) = LoginSetCompressionSpec::mc_deserialize(body)?;
        Ok(Packet578::LoginSetCompression(v))
    } else if id == 4 {
        proof {
            reveal(decode_login_plugin_request);
        }
        let (v, _) = LoginPluginRequestSpec::mc_deserialize(body)?;
        Ok(Packet578::LoginPluginRequest(v))
    } else {
        Err(DeserializeErr::UnknownTag(id as i64))
    }
}

fn from_raw_login_clientbound(id: i32, body: &[u8]) -> (r: Result<Packet578, DeserializeErr>)
    ensures
        match r {
            Ok(p) => spec_decode_login_clientbound(id, body@) == Ok::<Packet578Model, DeserializeErr>(p.model()),
            Err(e) => spec_decode_login_clientbound(id, body@) == Err::<Packet578Model, DeserializeErr>(e),
        },
{
    {
        from_raw_login_clientbound_0(id, body)
    }
}

/// The message that `id` names in this state and direction.
pub open spec fn spec_decode_login_serverbound(id: i32, body: Seq<u8>) -> Result<Packet578Model, DeserializeErr> {
        if id == 0 {
            decode_login_start(body)
        } else if id == 1 {
            decode_login_encryption_response(body)
        } else if id == 2 {
            decode_login_plugin_response(body)
        } else {
            Err(DeserializeErr::UnknownTag(id as i64))
        }
}

#[verifier::rlimit(100)]
#[verifier::spinoff_prover]
fn from_raw_login_serverbound_0(id: i32, body: &[u8]) -> (r: Result<Packet578, DeserializeErr>)
    requires
        true,
    ensures
        match r {
            Ok(p) => spec_decode_login_serverbound(id, body@) == Ok::<Packet578Model, DeserializeErr>(p.model()),
            Err(e) => spec_decode_login_serverbound(id, body@) == Err::<Packet578Model, DeserializeErr>(e),
        },
{
    if id == 0 {
        proof {
            reveal(decode_login_start);
        }
        let (v, _) = LoginStartSpec::mc_deserialize(body)?;
        Ok(Packet578::LoginStart(v))
    } else if id == 1 {
        proof {
            reveal(decode_login_encryption_response);
        }
        let (v, _) = LoginEncryptionResponseSpec::mc_deserialize(body)?;
        Ok(Packet578::LoginEncryptionResponse(v))
    } else if id == 2 {
        proof {
            reveal(decode_login_plugin_response);
        }
        let (v, _) = LoginPluginResponseSpec::mc_deserialize(body)?;
        Ok(Packet578::LoginPluginResponse(v))
    } else {
        Err(DeserializeErr::UnknownTag(id as i64))
    }
}

fn from_raw_login_serverbound(id: i32, body: &[u8]) -> (r: Result<Packet578, DeserializeErr>)
    ensures
        match r {
            Ok(p) => spec_decode_login_serverbound(id, body@) == Ok::<Packet578Model, DeserializeErr>(p.model()),
            Err(e) => spec_decode_login_serverbound(id, body@) == Err::<Packet578Model, DeserializeErr>(e),
        },
{
    {
        from_raw_login_serverbound_0(id, body)
    }
}

/// The message that `id` names in this state and direction.
pub open spec fn spec_decode_play_clientbound(id: i32, body: Seq<u8>) -> Result<Packet578Model, DeserializeErr> {
        if id == 0 {
            decode_play_spawn_entity(body)
        } else if id == 1 {
            decode_play_spawn_experience_orb(body)
        } else if id == 2 {
            decode_play_spawn_weather_entity(body)
        } else if id == 3 {
            decode_play_spawn_living_entity(body)
        } else if id == 4 {
            decode_play_spawn_painting(body)
        } else if id == 5 {
            decode_play_spawn_player(body)
        } else if id == 6 {
            decode_play_entity_animation(body)
        } else if id == 7 {
            decode_play_statistics(body)
        } else if id == 8 {
            decode_play_acknowledge_player_digging(body)
        } else if id == 9 {
            decode_play_block_break_animation(body)
        } else if id == 10 {
            decode_play_block_entity_data(body)
        } else if id == 11 {
            decode_play_block_action(body)
        } else if id == 12 {
            decode_play_block_change(body)
        } else if id == 13 {
            decode_play_boss_bar(body)
        } else if id == 14 {
            decode_play_server_difficulty(body)
        } else if id == 15 {
            decode_play_server_chat_message(body)
        } else if id == 16 {
            decode_play_multi_block_change(body)
        } else if id == 17 {
            decode_play_tab_complete(body)
        } else if id == 18 {
            decode_play_declare_commands(body)
        } else if id == 19 {
            decode_play_server_window_confirmation(body)
        } else if id == 20 {
            decode_play_server_close_window(body)
        } else if id == 21 {
            decode_play_window_items(body)
        } else if id == 22 {
            decode_play_window_property(body)
        } else if id == 23 {
            decode_play_set_slot(body)
        } else if id == 24 {
            decode_play_set_cooldown(body)
        } else if id == 25 {
            decode_play_server_plugin_message(body)
        } else if id == 26 {
            decode_play_named_sound_effect(body)
        } else if id == 27 {
            decode_play_disconnect(body)
        } else if id == 28 {
            decode_play_entity_status(body)
        } else if id == 29 {
            decode_play_explosion(body)
        } else if id == 30 {
            decode_play_unload_chunk(body)
        } else if id == 31 {
            decode_play_change_game_state(body)
        } else if id == 32 {
            decode_play_open_horse_window(body)
        } else if id == 33 {
            decode_play_server_keep_alive(body)
        } else if id == 34 {
            decode_play_chunk_data(body)
        } else if id == 35 {
            decode_play_effect(body)
        } else if id == 36 {
            decode_play_particle(body)
        } else if id == 37 {
            decode_play_update_light(body)
        } else if id == 38 {
            decode_play_join_game(body)
        } else if id == 39 {
            decode_play_map_data(body)
        } else if id == 40 {
            decode_play_trade_list(body)
        } else if id == 41 {
            decode_play_entity_position(body)
        } else if id == 42 {
            decode_play_entity_position_and_rotation(body)
        } else if id == 43 {
            decode_play_entity_rotation(body)
        } else if id == 44 {
            decode_play_entity_movement(body)
        } else if id == 45 {
            decode_play_server_vehicle_move(body)
        } else if id == 46 {
            decode_play_open_book(body)
        } else if id == 47 {
            decode_play_open_window(body)
        } else if id == 48 {
            decode_play_open_sign_editor(body)
        } else if id == 49 {
            decode_play_craft_recipe_response(body)
        } else if id == 50 {
            decode_play_server_player_abilities(body)
        } else if id == 51 {
            decode_play_combat_event(body)
        } else if id == 52 {
            decode_play_player_info(body)
        } else if id == 53 {
            decode_play_face_player(body)
        } else if id == 54 {
            decode_play_server_player_position_and_look(body)
        } else if id == 55 {
            decode_play_unlock_recipes(body)
        } else if id == 56 {
            decode_play_destroy_entities(body)
        } else if id == 57 {
            decode_play_remove_entity_effect(body)
        } else if id == 58 {
            decode_play_resource_pack_send(body)
        } else if id == 59 {
            decode_play_respawn(body)
        } else if id == 60 {
            decode_play_entity_head_look(body)
        } else if id == 61 {
            decode_play_select_advancement_tab(body)
        } else if id == 62 {
            decode_play_world_border(body)
        } else if id == 63 {
            decode_play_camera(body)
        } else if id == 64 {
            decode_play_server_held_item_change(body)
        } else if id == 65 {
            decode_play_update_view_position(body)
        } else if id == 66 {
            decode_play_update_view_distance(body)
        } else if id == 67 {
            decode_play_display_scoreboard(body)
        } else if id == 68 {
            decode_play_entity_metadata(body)
        } else if id == 69 {
            decode_play_attach_entity(body)
        } else if id == 70 {
            decode_play_entity_velocity(body)
        } else if id == 71 {
            decode_play_entity_equipment(body)
        } else if id == 72 {
            decode_play_set_experience(body)
        } else if id == 73 {
            decode_play_updatehealth(body)
        } else if id == 74 {
            decode_play_scoreboard_objective(body)
        } else if id == 75 {
            decode_play_set_passengers(body)
        } else if id == 76 {
            decode_play_teams(body)
        } else if id == 77 {
            decode_play_update_score(body)
        } else if id == 78 {
            decode_play_spawn_position(body)
        } else if id == 79 {
            decode_play_time_update(body)
        } else if id == 80 {
            decode_play_title(body)
        } else if id == 81 {
            decode_play_entity_sound_effect(body)
        } else if id == 82 {
            decode_play_sound_effect(body)
        } else if id == 83 {
            decode_play_stop_sound(body)
        } else if id == 84 {
            decode_player_player_list_header_and_footer(body)
        } else if id == 85 {
            decode_play_nbt_query_response(body)
        } else if id == 86 {
            decode_play_collect_item(body)
        } else if id == 87 {
            decode_play_entity_teleport(body)
        } else if id == 88 {
            decode_play_advancements(body)
        } else if id == 89 {
            decode_play_entity_properties(body)
        } else if id == 90 {
            decode_play_entity_effect(body)
        } else if id == 91 {
            decode_play_declare_recipes(body)
        } else if id == 92 {
            decode_play_tags(body)
        } else {
            Err(DeserializeErr::UnknownTag(id as i64))
        }
}

#[verifier::rlimit(100)]
#[verifier::spinoff_prover]
fn from_raw_play_clientbound_0(id: i32, body: &[u8]) -> (r: Result<Packet578, DeserializeErr>)
    requires
        id < 16,
    ensures
        match r {
            Ok(p) => spec_decode_play_clientbound(id, body@) == Ok::<Packet578Model, DeserializeErr>(p.model()),
            Err(e) => spec_decode_play_clientbound(id, body@) == Err::<Packet578Model, DeserializeErr>(e),
        },
{
    if id == 0 {
        proof {
            reveal(decode_play_spawn_entity);
        }
        let (v, _) = PlaySpawnEntitySpec::mc_deserialize(body)?;
        Ok(Packet578::PlaySpawnEntity(v))
    } else if id == 1 {
        proof {
            reveal(decode_play_spawn_experience_orb);
        }
        let (v, _) = PlaySpawnExperienceOrbSpec::mc_deserialize(body)?;
        Ok(Packet578::PlaySpawnExperienceOrb(v))
    } else if id == 2 {
        proof {
            reveal(decode_play_spawn_weather_entity);
        }
        let (v, _) = PlaySpawnWeatherEntitySpec::mc_deserialize(body)?;
        Ok(Packet578::PlaySpawnWeatherEntity(v))
    } else if id == 3 {
        proof {
            reveal(decode_play_spawn_living_entity);
        }
        let (v, _) = PlaySpawnLivingEntitySpec::mc_deserialize(body)?;
        Ok(Packet578::PlaySpawnLivingEntity(v))
    } else if id == 4 {
        proof {
            reveal(decode_play_spawn_painting);
        }
        let (v, _) = PlaySpawnPaintingSpec::mc_deserialize(body)?;
        Ok(Packet578::PlaySpawnPainting(v))
    } else if id == 5 {
        proof {
            reveal(decode_play_spawn_player);
        }
        let (v, _) = PlaySpawnPlayerSpec::mc_deserialize(body)?;
        Ok(Packet578::PlaySpawnPlayer(v))
    } else if id == 6 {
        proof {
            reveal(decode_play_entity_animation);
        }
        let (v, _) = PlayEntityAnimationSpec::mc_deserialize(body)?;
        Ok(Packet578::PlayEntityAnimation(v))
    } else if id == 7 {
        proof {
            reveal(decode_play_statistics);
        }
        let (v, _) = PlayStatisticsSpec::mc_deserialize(body)?;
        Ok(Packet578::PlayStatistics(v))
    } else if id == 8 {
        proof {
            reveal(decode_play_acknowledge_player_digging);
        }
        let (v, _) = PlayAcknowledgePlayerDiggingSpec::mc_deserialize(body)?;
        Ok(Packet578::PlayAcknowledgePlayerDigging(v))
    } else if id == 9 {
        proof {
            reveal(decode_play_block_break_animation);
        }
        let (v, _) = PlayBlockBreakAnimationSpec::mc_deserialize(body)?;
        Ok(Packet578::PlayBlockBreakAnimation(v))
    } else if id == 10 {
        proof {
            reveal(decode_play_block_entity_data);
        }
        let (v, _) = PlayBlockEntityDataSpec::mc_deserialize(body)?;
        Ok(Packet578::PlayBlockEntityData(v))
    } else if id == 11 {
        proof {
            reveal(decode_play_block_action);
        }
        let (v, _) = PlayBlockActionSpec::mc_deserialize(body)?;
        Ok(Packet578::PlayBlockAction(v))
    } else if id == 12 {
        proof {
            reveal(decode_play_block_change);
        }
        let (v, _) = PlayBlockChangeSpec::mc_deserialize(body)?;
        Ok(Packet578::PlayBlockChange(v))
    } else if id == 13 {
        proof {
            reveal(decode_play_boss_bar);
        }
        let (v, _) = PlayBossBarSpec::mc_deserialize(body)?;
        Ok(Packet578::PlayBossBar(v))
    } else if id == 14 {
        proof {
            reveal(decode_play_server_difficulty);
        }
        let (v, _) = PlayServerDifficultySpec::mc_deserialize(body)?;
        Ok(Packet578::PlayServerDifficulty(v))
    } else if id == 15 {
        proof {
            reveal(decode_play_server_chat_message);
        }
        let (v, _) = PlayServerChatMessageSpec::mc_deserialize(body)?;
        Ok(Packet578::PlayServerChatMessage(v))
    } else {
        Err(DeserializeErr::UnknownTag(id as i64))
    }
}

#[verifier::rlimit(100)]
#[verifier::spinoff_prover]
fn from_raw_play_clientbound_1(id: i32, body: &[u8]) -> (r: Result<Packet578, DeserializeErr>)
    requires
        16 <= id < 32,
    ensures
        match r {
            Ok(p) => spec_decode_play_clientbound(id, body@) == Ok::<Packet578Model, DeserializeErr>(p.model()),
            Err(e) => spec_decode_play_clientbound(id, body@) == Err::<Packet578Model, DeserializeErr>(e),
        },
{
    if id == 16 {
        proof {
            reveal(decode_play_multi_block_change);
        }
        let (v, _) = PlayMultiBlockChangeSpec::mc_deserialize(body)?;
        Ok(Packet578::PlayMultiBlockChange(v))
    } else if id == 17 {
        proof {
            reveal(decode_play_tab_complete);
        }
        let (v, _) = PlayTabCompleteSpec::mc_deserialize(body)?;
        Ok(Packet578::PlayTabComplete(v))
    } else if id == 18 {
        proof {
            reveal(decode_play_declare_commands);
        }
        let (v, _) = PlayDeclareCommandsSpec::mc_deserialize(body)?;
        Ok(Packet578::PlayDeclareCommands(v))
    } else if id == 19 {
        proof {
            reveal(decode_play_server_window_confirmation);
        }
        let (v, _) = PlayServerWindowConfirmationSpec::mc_deserialize(body)?;
        Ok(Packet578::PlayServerWindowConfirmation(v))
    } else if id == 20 {
        proof {
            reveal(decode_play_server_close_window);
        }
        let (v, _) = PlayServerCloseWindowSpec::mc_deserialize(body)?;
        Ok(Packet578::PlayServerCloseWindow(v))
    } else if id == 21 {
        proof {
            reveal(decode_play_window_items);
        }
        let (v, _) = PlayWindowItemsSpec::mc_deserialize(body)?;
        Ok(Packet578::PlayWindowItems(v))
    } else if id == 22 {
        proof {
            reveal(decode_play_window_property);
        }
        let (v, _) = PlayWindowPropertySpec::mc_deserialize(body)?;
        Ok(Packet578::PlayWindowProperty(v))
    } else if id == 23 {
        proof {
            reveal(decode_play_set_slot);
        }
        let (v, _) = PlaySetSlotSpec::mc_deserialize(body)?;
        Ok(Packet578::PlaySetSlot(v))
    } else if id == 24 {
        proof {
            reveal(decode_play_set_cooldown);
        }
        let (v, _) = PlaySetCooldownSpec::mc_deserialize(body)?;
        Ok(Packet578::PlaySetCooldown(v))
    } else if id == 25 {
        proof {
            reveal(decode_play_server_plugin_message);
        }
        let (v, _) = PlayServerPluginMessageSpec::mc_deserialize(body)?;
        Ok(Packet578::PlayServerPluginMessage(v))
    } else if id == 26 {
        proof {
            reveal(decode_play_named_sound_effect);
        }
        let (v, _) = PlayNamedSoundEffectSpec::mc_deserialize(body)?;
        Ok(Packet578::PlayNamedSoundEffect(v))
    } else if id == 27 {
        proof {
            reveal(decode_play_disconnect);
        }
        let (v, _) = PlayDisconnectSpec::mc_deserialize(body)?;
        Ok(Packet578::PlayDisconnect(v))
    } else if id == 28 {
        proof {
            reveal(decode_play_entity_status);
        }
        let (v, _) = PlayEntityStatusSpec::mc_deserialize(body)?;
        Ok(Packet578::PlayEntityStatus(v))
    } else if id == 29 {
        proof {
            reveal(decode_play_explosion);
        }
        let (v, _) = PlayExplosionSpec::mc_deserialize(body)?;
        Ok(Packet578::PlayExplosion(v))
    } else if id == 30 {
        proof {
            reveal(decode_play_unload_chunk);
        }
        let (v, _) = PlayUnloadChunkSpec::mc_deserialize(body)?;
        Ok(Packet578::PlayUnloadChunk(v))
    } else if id == 31 {
        proof {
            reveal(decode_play_change_game_state);
        }
        let (v, _) = PlayChangeGameStateSpec::mc_deserialize(body)?;
        Ok(Packet578::PlayChangeGameState(v))
    } else {
        Err(DeserializeErr::UnknownTag(id as i64))
    }
}

#[verifier::rlimit(100)]
#[verifier::spinoff_prover]
fn from_raw_play_clientbound_2(id: i32, body: &[u8]) -> (r: Result<Packet578, DeserializeErr>)
    requires
        32 <= id < 48,
    ensures
        match r {
            Ok(p) => spec_decode_play_clientbound(id, body@) == Ok::<Packet578Model, DeserializeErr>(p.model()),
            Err(e) => spec_decode_play_clientbound(id, body@) == Err::<Packet578Model, DeserializeErr>(e),
        },
{
    if id == 32 {
        proof {
            reveal(decode_play_open_horse_window);
        }
        let (v, _) = PlayOpenHorseWindowSpec::mc_deserialize(body)?;
        Ok(Packet578::PlayOpenHorseWindow(v))
    } else if id == 33 {
        proof {
            reveal(decode_play_server_keep_alive);
        }
        let (v, _) = PlayServerKeepAliveSpec::mc_deserialize(body)?;
        Ok(Packet578::PlayServerKeepAlive(v))
    } else if id == 34 {
        proof {
            reveal(decode_play_chunk_data);
        }
        let (v, _) = PlayChunkDataWrapper::mc_deserialize(body)?;
        Ok(Packet578::PlayChunkData(v))
    } else if id == 35 {
        proof {
            reveal(decode_play_effect);
        }
        let (v, _) = PlayEffectSpec::mc_deserialize(body)?;
        Ok(Packet578::PlayEffect(v))
    } else if id == 36 {
        proof {
            reveal(decode_play_particle);
        }
        let (v, _) = PlayParticleSpec::mc_deserialize(body)?;
        Ok(Packet578::PlayParticle(v))
    } else if id == 37 {
        proof {
            reveal(decode_play_update_light);
        }
        let (v, _) = PlayUpdateLightSpec::mc_deserialize(body)?;
        Ok(Packet578::PlayUpdateLight(v))
    } else if id == 38 {
        proof {
            reveal(decode_play_join_game);
        }
        let (v, _) = PlayJoinGameSpec::mc_deserialize(body)?;
        Ok(Packet578::PlayJoinGame(v))
    } else if id == 39 {
        proof {
            reveal(decode_play_map_data);
        }
        let (v, _) = PlayMapDataSpec::mc_deserialize(body)?;
        Ok(Packet578::PlayMapData(v))
    } else if id == 40 {
        proof {
            reveal(decode_play_trade_list);
        }
        let (v, _) = PlayTradeListSpec::mc_deserialize(body)?;
        Ok(Packet578::PlayTradeList(v))
    } else if id == 41 {
        proof {
            reveal(decode_play_entity_position);
        }
        let (v, _) = PlayEntityPositionSpec::mc_deserialize(body)?;
        Ok(Packet578::PlayEntityPosition(v))
    } else if id == 42 {
        proof {
            reveal(decode_play_entity_position_and_rotation);
        }
        let (v, _) = PlayEntityPositionAndRotationSpec::mc_deserialize(body)?;
        Ok(Packet578::PlayEntityPositionAndRotation(v))
    } else if id == 43 {
        proof {
            reveal(decode_play_entity_rotation);
        }
        let (v, _) = PlayEntityRotationSpec::mc_deserialize(body)?;
        Ok(Packet578::PlayEntityRotation(v))
    } else if id == 44 {
        proof {
            reveal(decode_play_entity_movement);
        }
        let (v, _) = PlayEntityMovementSpec::mc_deserialize(body)?;
        Ok(Packet578::PlayEntityMovement(v))
    } else if id == 45 {
        proof {
            reveal(decode_play_server_vehicle_move);
        }
        let (v, _) = PlayEntityVehicleMoveSpec::mc_deserialize(body)?;
        Ok(Packet578::PlayServerVehicleMove(v))
    } else if id == 46 {
        proof {
            reveal(decode_play_open_book);
        }
        let (v, _) = PlayOpenBookSpec::mc_deserialize(body)?;
        Ok(Packet578::PlayOpenBook(v))
    } else if id == 47 {
        proof {
            reveal(decode_play_open_window);
        }
        let (v, _) = PlayOpenWindowSpec::mc_deserialize(body)?;
        Ok(Packet578::PlayOpenWindow(v))
    } else {
        Err(DeserializeErr::UnknownTag(id as i64))
    }
}

#[verifier::rlimit(100)]
#[verifier::spinoff_prover]
fn from_raw_play_clientbound_3(id: i32, body: &[u8]) -> (r: Result<Packet578, DeserializeErr>)
    requires
        48 <= id < 64,
    ensures
        match r {
            Ok(p) => spec_decode_play_clientbound(id, body@) == Ok::<Packet578Model, DeserializeErr>(p.model()),
            Err(e) => spec_decode_play_clientbound(id, body@) == Err::<Packet578Model, DeserializeErr>(e),
        },
{
    if id == 48 {
        proof {
            reveal(decode_play_open_sign_editor);
        }
        let (v, _) = PlayOpenSignEditorSpec::mc_deserialize(body)?;
        Ok(Packet578::PlayOpenSignEditor(v))
    } else if id == 49 {
        proof {
            reveal(decode_play_craft_recipe_response);
        }
        let (v, _) = PlayCraftRecipeResponseSpec::mc_deserialize(body)?;
        Ok(Packet578::PlayCraftRecipeResponse(v))
    } else if id == 50 {
        proof {
            reveal(decode_play_server_player_abilities);
        }
        let (v, _) = PlayServerPlayerAbilitiesSpec::mc_deserialize(body)?;
        Ok(Packet578::PlayServerPlayerAbilities(v))
    } else if id == 51 {
        proof {
            reveal(decode_play_combat_event);
        }
        let (v, _) = PlayCombatEventSpec::mc_deserialize(body)?;
        Ok(Packet578::PlayCombatEvent(v))
    } else if id == 52 {
        proof {
            reveal(decode_play_player_info);
        }
        let (v, _) = PlayPlayerInfoSpec::mc_deserialize(body)?;
        Ok(Packet578::PlayPlayerInfo(v))
    } else if id == 53 {
        proof {
            reveal(decode_play_face_player);
        }
        let (v, _) = PlayFacePlayerSpec::mc_deserialize(body)?;
        Ok(Packet578::PlayFacePlayer(v))
    } else if id == 54 {
        proof {
            reveal(decode_play_server_player_position_and_look);
        }
        let (v, _) = PlayServerPlayerPositionAndLookSpec::mc_deserialize(body)?;
        Ok(Packet578::PlayServerPlayerPositionAndLook(v))
    } else if id == 55 {
        proof {
            reveal(decode_play_unlock_recipes);
        }
        let (v, _) = PlayUnlockRecipesSpec::mc_deserialize(body)?;
        Ok(Packet578::PlayUnlockRecipes(v))
    } else if id == 56 {
        proof {
            reveal(decode_play_destroy_entities);
        }
        let (v, _) = PlayDestroyEntitiesSpec::mc_deserialize(body)?;
        Ok(Packet578::PlayDestroyEntities(v))
    } else if id == 57 {
        proof {
            reveal(decode_play_remove_entity_effect);
        }
        let (v, _) = PlayRemoveEntityEffectSpec::mc_deserialize(body)?;
        Ok(Packet578::PlayRemoveEntityEffect(v))
    } else if id == 58 {
        proof {
            reveal(decode_play_resource_pack_send);
        }
        let (v, _) = PlayResourcePackSendSpec::mc_deserialize(body)?;
        Ok(Packet578::PlayResourcePackSend(v))
    } else if id == 59 {
        proof {
            reveal(decode_play_respawn);
        }
        let (v, _) = PlayRespawnSpec::mc_deserialize(body)?;
        Ok(Packet578::PlayRespawn(v))
    } else if id == 60 {
        proof {
            reveal(decode_play_entity_head_look);
        }
        let (v, _) = PlayEntityHeadLookSpec::mc_deserialize(body)?;
        Ok(Packet578::PlayEntityHeadLook(v))
    } else if id == 61 {
        proof {
            reveal(decode_play_select_advancement_tab);
        }
        let (v, _) = PlaySelectAdvancementTabSpec::mc_deserialize(body)?;
        Ok(Packet578::PlaySelectAdvancementTab(v))
    } else if id == 62 {
        proof {
            reveal(decode_play_world_border);
        }
        let (v, _) = PlayWorldBorderSpec::mc_deserialize(body)?;
        Ok(Packet578::PlayWorldBorder(v))
    } else if id == 63 {
        proof {
            reveal(decode_play_camera);
        }
        let (v, _) = PlayCameraSpec::mc_deserialize(body)?;
        Ok(Packet578::PlayCamera(v))
    } else {
        Err(DeserializeErr::UnknownTag(id as i64))
    }
}

#[verifier::rlimit(100)]
#[verifier::spinoff_prover]
fn from_raw_play_clientbound_4(id: i32, body: &[u8]) -> (r: Result<Packet578, DeserializeErr>)
    requires
        64 <= id < 80,
    ensures
        match r {
            Ok(p) => spec_decode_play_clientbound(id, body@) == Ok::<Packet578Model, DeserializeErr>(p.model()),
            Err(e) => spec_decode_play_clientbound(id, body@) == Err::<Packet578Model, DeserializeErr>(e),
        },
{
    if id == 64 {
        proof {
            reveal(decode_play_server_held_item_change);
        }
        let (v, _) = PlayServerHeldItemChangeSpec::mc_deserialize(body)?;
        Ok(Packet578::PlayServerHeldItemChange(v))
    } else if id == 65 {
        proof {
            reveal(decode_play_update_view_position);
        }
        let (v, _) = PlayUpdateViewPositionSpec::mc_deserialize(body)?;
        Ok(Packet578::PlayUpdateViewPosition(v))
    } else if id == 66 {
        proof {
            reveal(decode_play_update_view_distance);
        }
        let (v, _) = PlayUpdateViewDistanceSpec::mc_deserialize(body)?;
        Ok(Packet578::PlayUpdateViewDistance(v))
    } else if id == 67 {
        proof {
            reveal(decode_play_display_scoreboard);
        }
        let (v, _) = PlayDisplayScoreboardSpec::mc_deserialize(body)?;
        Ok(Packet578::PlayDisplayScoreboard(v))
    } else if id == 68 {
        proof {
            reveal(decode_play_entity_metadata);
        }
        let (v, _) = PlayEntityMetadataSpec::mc_deserialize(body)?;
        Ok(Packet578::PlayEntityMetadata(v))
    } else if id == 69 {
        proof {
            reveal(decode_play_attach_entity);
        }
        let (v, _) = PlayAttachEntitySpec::mc_deserialize(body)?;
        Ok(Packet578::PlayAttachEntity(v))
    } else if id == 70 {
        proof {
            reveal(decode_play_entity_velocity);
        }
        let (v, _) = PlayEntityVelocitySpec::mc_deserialize(body)?;
        Ok(Packet578::PlayEntityVelocity(v))
    } else if id == 71 {
        proof {
            reveal(decode_play_entity_equipment);
        }
        let (v, _) = PlayEntityEquiptmentSpec::mc_deserialize(body)?;
        Ok(Packet578::PlayEntityEquipment(v))
    } else if id == 72 {
        proof {
            reveal(decode_play_set_experience);
        }
        let (v, _) = PlaySetExperienceSpec::mc_deserialize(body)?;
        Ok(Packet578::PlaySetExperience(v))
    } else if id == 73 {
        proof {
            reveal(decode_play_updatehealth);
        }
        let (v, _) = PlayUpdateHealthSpec::mc_deserialize(body)?;
        Ok(Packet578::PlayUpdatehealth(v))
    } else if id == 74 {
        proof {
            reveal(decode_play_scoreboard_objective);
        }
        let (v, _) = PlayScoreboardObjectiveSpec::mc_deserialize(body)?;
        Ok(Packet578::PlayScoreboardObjective(v))
    } else if id == 75 {
        proof {
            reveal(decode_play_set_passengers);
        }
        let (v, _) = PlaySetPassengersSpec::mc_deserialize(body)?;
        Ok(Packet578::PlaySetPassengers(v))
    } else if id == 76 {
        proof {
            reveal(decode_play_teams);
        }
        let (v, _) = PlayTeamsSpec::mc_deserialize(body)?;
        Ok(Packet578::PlayTeams(v))
    } else if id == 77 {
        proof {
            reveal(decode_play_update_score);
        }
        let (v, _) = PlayUpdateScoreSpec::mc_deserialize(body)?;
        Ok(Packet578::PlayUpdateScore(v))
    } else if id == 78 {
        proof {
            reveal(decode_play_spawn_position);
        }
        let (v, _) = PlaySpawnPositionSpec::mc_deserialize(body)?;
        Ok(Packet578::PlaySpawnPosition(v))
    } else if id == 79 {
        proof {
            reveal(decode_play_time_update);
        }
        let (v, _) = PlayTimeUpdateSpec::mc_deserialize(body)?;
        Ok(Packet578::PlayTimeUpdate(v))
    } else {
        Err(DeserializeErr::UnknownTag(id as i64))
    }
}

#[verifier::rlimit(100)]
#[verifier::spinoff_prover]
fn from_raw_play_clientbound_5(id: i32, body: &[u8]) -> (r: Result<Packet578, DeserializeErr>)
    requires
        80 <= id,
    ensures
        match r {
            Ok(p) => spec_decode_play_clientbound(id, body@) == Ok::<Packet578Model, DeserializeErr>(p.model()),
            Err(e) => spec_decode_play_clientbound(id, body@) == Err::<Packet578Model, DeserializeErr>(e),
        },
{
    if id == 80 {
        proof {
            reveal(decode_play_title);
        }
        let (v, _) = PlayTitleSpec::mc_deserialize(body)?;
        Ok(Packet578::PlayTitle(v))
    } else if id == 81 {
        proof {
            reveal(decode_play_entity_sound_effect);
        }
        let (v, _) = PlayEntitySoundEffectSpec::mc_deserialize(body)?;
        Ok(Packet578::PlayEntitySoundEffect(v))
    } else if id == 82 {
        proof {
            reveal(decode_play_sound_effect);
        }
        let (v, _) = PlaySoundEffectSpec::mc_deserialize(body)?;
        Ok(Packet578::PlaySoundEffect(v))
    } else if id == 83 {
        proof {
            reveal(decode_play_stop_sound);
        }
        let (v, _) = PlayStopSoundSpec::mc_deserialize(body)?;
        Ok(Packet578::PlayStopSound(v))
    } else if id == 84 {
        proof {
            reveal(decode_player_player_list_header_and_footer);
        }
        let (v, _) = PlayPlayerListHeaderAndFooterSpec::mc_deserialize(body)?;
        Ok(Packet578::PlayerPlayerListHeaderAndFooter(v))
    } else if id == 85 {
        proof {
            reveal(decode_play_nbt_query_response);
        }
        let (v, _) = PlayNbtQueryResponseSpec::mc_deserialize(body)?;
        Ok(Packet578::PlayNbtQueryResponse(v))
    } else if id == 86 {
        proof {
            reveal(decode_play_collect_item);
        }
        let (v, _) = PlayCollectItemSpec::mc_deserialize(body)?;
        Ok(Packet578::PlayCollectItem(v))
    } else if id == 87 {
        proof {
            reveal(decode_play_entity_teleport);
        }
        let (v, _) = PlayEntityTeleportSpec::mc_deserialize(body)?;
        Ok(Packet578::PlayEntityTeleport(v))
    } else if id == 88 {
        proof {
            reveal(decode_play_advancements);
        }
        let (v, _) = PlayAdvancementsSpec::mc_deserialize(body)?;
        Ok(Packet578::PlayAdvancements(v))
    } else if id == 89 {
        proof {
            reveal(decode_play_entity_properties);
        }
        let (v, _) = PlayEntityPropertiesSpec::mc_deserialize(body)?;
        Ok(Packet578::PlayEntityProperties(v))
    } else if id == 90 {
        proof {
            reveal(decode_play_entity_effect);
        }
        let (v, _) = PlayEntityEffectSpec::mc_deserialize(body)?;
        Ok(Packet578::PlayEntityEffect(v))
    } else if id == 91 {
        proof {
            reveal(decode_play_declare_recipes);
        }
        let (v, _) = PlayDeclareRecipesSpec::mc_deserialize(body)?;
        Ok(Packet578::PlayDeclareRecipes(v))
    } else if id == 92 {
        proof {
            reveal(decode_play_tags);
        }
        let (v, _) = PlayTagsSpec::mc_deserialize(body)?;
        Ok(Packet578::PlayTags(v))
    } else {
        Err(DeserializeErr::UnknownTag(id as i64))
    }
}

fn from_raw_play_clientbound(id: i32, body: &[u8]) -> (r: Result<Packet578, DeserializeErr>)
    ensures
        match r {
            Ok(p) => spec_decode_play_clientbound(id, body@) == Ok::<Packet578Model, DeserializeErr>(p.model()),
            Err(e) => spec_decode_play_clientbound(id, body@) == Err::<Packet578Model, DeserializeErr>(e),
        },
{
    if id < 16 {
        from_raw_play_clientbound_0(id, body)
    } else if id < 32 {
        from_raw_play_clientbound_1(id, body)
    } else if id < 48 {
        from_raw_play_clientbound_2(id, body)
    } else if id < 64 {
        from_raw_play_clientbound_3(id, body)
    } else if id < 80 {
        from_raw_play_clientbound_4(id, body)
    } else {
        from_raw_play_clientbound_5(id, body)
    }
}

/// The message that `id` names in this state and direction.
pub open spec fn spec_decode_play_serverbound(id: i32, body: Seq<u8>) -> Result<Packet578Model, DeserializeErr> {
        if id == 0 {
            decode_play_teleport_confirm(body)
        } else if id == 1 {
            decode_play_query_block_nbt(body)
        } else if id == 2 {
            decode_play_set_difficulty(body)
        } else if id == 3 {
            decode_play_client_chat_message(body)
        } else if id == 4 {
            decode_play_client_status(body)
        } else if id == 5 {
            decode_play_client_settings(body)
        } else if id == 6 {
            decode_play_client_tab_complete(body)
        } else if id == 7 {
            decode_play_client_window_confirmation(body)
        } else if id == 8 {
            decode_play_click_window_button(body)
        } else if id == 9 {
            decode_play_click_window(body)
        } else if id == 10 {
            decode_play_client_close_window(body)
        } else if id == 11 {
            decode_play_client_plugin_message(body)
        } else if id == 12 {
            decode_play_edit_book(body)
        } else if id == 13 {
            decode_play_query_entity_nbt(body)
        } else if id == 14 {
            decode_play_interact_entity(body)
        } else if id == 15 {
            decode_play_client_keep_alive(body)
        } else if id == 16 {
            decode_play_lock_difficulty(body)
        } else if id == 17 {
            decode_play_player_position(body)
        } else if id == 18 {
            decode_play_client_player_position_and_rotation(body)
        } else if id == 19 {
            decode_play_player_rotation(body)
        } else if id == 20 {
            decode_play_player_movement(body)
        } else if id == 21 {
            decode_play_client_vehicle_move(body)
        } else if id == 22 {
            decode_play_steer_boat(body)
        } else if id == 23 {
            decode_play_pick_item(body)
        } else if id == 24 {
            decode_play_craft_recipe_request(body)
        } else if id == 25 {
            decode_play_client_player_abilities(body)
        } else if id == 26 {
            decode_play_player_digging(body)
        } else if id == 27 {
            decode_play_entity_action(body)
        } else if id == 28 {
            decode_play_steer_vehicle(body)
        } else if id == 29 {
            decode_play_recipe_book_data(body)
        } else if id == 30 {
            decode_play_name_item(body)
        } else if id == 31 {
            decode_play_resource_pack_status(body)
        } else if id == 32 {
            decode_play_advancement_tab(body)
        } else if id == 33 {
            decode_play_select_trade(body)
        } else if id == 34 {
            decode_play_set_beacon_effect(body)
        } else if id == 35 {
            decode_play_client_held_item_change(body)
        } else if id == 36 {
            decode_play_update_command_block(body)
        } else if id == 37 {
            decode_play_update_command_block_minecart(body)
        } else if id == 38 {
            decode_play_creative_inventory_action(body)
        } else if id == 39 {
            decode_play_update_jigsaw_block(body)
        } else if id == 40 {
            decode_play_update_structure_block(body)
        } else if id == 41 {
            decode_play_update_sign(body)
        } else if id == 42 {
            decode_play_client_animation(body)
        } else if id == 43 {
            decode_play_spectate(body)
        } else if id == 44 {
            decode_play_block_placement(body)
        } else if id == 45 {
            decode_play_use_item(body)
        } else {
            Err(DeserializeErr::UnknownTag(id as i64))
        }
}

#[verifier::rlimit(100)]
#[verifier::spinoff_prover]
fn from_raw_play_serverbound_0(id: i32, body: &[u8]) -> (r: Result<Packet578, DeserializeErr>)
    requires
        id < 16,
    ensures
        match r {
            Ok(p) => spec_decode_play_serverbound(id, body@) == Ok::<Packet578Model, DeserializeErr>(p.model()),
            Err(e) => spec_decode_play_serverbound(id, body@) == Err::<Packet578Model, DeserializeErr>(e),
        },
{
    if id == 0 {
        proof {
            reveal(decode_play_teleport_confirm);
        }
        let (v, _) = PlayTeleportConfirmSpec::mc_deserialize(body)?;
        Ok(Packet578::PlayTeleportConfirm(v))
    } else if id == 1 {
        proof {
            reveal(decode_play_query_block_nbt);
        }
        let (v, _) = PlayQueryBlockNbtSpec::mc_deserialize(body)?;
        Ok(Packet578::PlayQueryBlockNbt(v))
    } else if id == 2 {
        proof {
            reveal(decode_play_set_difficulty);
        }
        let (v, _) = PlaySetDifficultySpec::mc_deserialize(body)?;
        Ok(Packet578::PlaySetDifficulty(v))
    } else if id == 3 {
        proof {
            reveal(decode_play_client_chat_message);
        }
        let (v, _) = PlayClientChatMessageSpec::mc_deserialize(body)?;
        Ok(Packet578::PlayClientChatMessage(v))
    } else if id == 4 {
        proof {
            reveal(decode_play_client_status);
        }
        let (v, _) = PlayClientStatusSpec::mc_deserialize(body)?;
        Ok(Packet578::PlayClientStatus(v))
    } else if id == 5 {
        proof {
            reveal(decode_play_client_settings);
        }
        let (v, _) = PlayClientSettingsSpec::mc_deserialize(body)?;
        Ok(Packet578::PlayClientSettings(v))
    } else if id == 6 {
        proof {
            reveal(decode_play_client_tab_complete);
        }
        let (v, _) = PlayClientTabCompleteSpec::mc_deserialize(body)?;
        Ok(Packet578::PlayClientTabComplete(v))
    } else if id == 7 {
        proof {
            reveal(decode_play_client_window_confirmation);
        }
        let (v, _) = PlayClientWindowConfirmationSpec::mc_deserialize(body)?;
        Ok(Packet578::PlayClientWindowConfirmation(v))
    } else if id == 8 {
        proof {
            reveal(decode_play_click_window_button);
        }
        let (v, _) = PlayClickWindowButtonSpec::mc_deserialize(body)?;
        Ok(Packet578::PlayClickWindowButton(v))
    } else if id == 9 {
        proof {
            reveal(decode_play_click_window);
        }
        let (v, _) = PlayClickWindowSpec::mc_deserialize(body)?;
        Ok(Packet578::PlayClickWindow(v))
    } else if id == 10 {
        proof {
            reveal(decode_play_client_close_window);
        }
        let (v, _) = PlayClientCloseWindowSpec::mc_deserialize(body)?;
        Ok(Packet578::PlayClientCloseWindow(v))
    } else if id == 11 {
        proof {
            reveal(decode_play_client_plugin_message);
        }
        let (v, _) = PlayClientPluginMessageSpec::mc_deserialize(body)?;
        Ok(Packet578::PlayClientPluginMessage(v))
    } else if id == 12 {
        proof {
            reveal(decode_play_edit_book);
        }
        let (v, _) = PlayEditBookSpec::mc_deserialize(body)?;
        Ok(Packet578::PlayEditBook(v))
    } else if id == 13 {
        proof {
            reveal(decode_play_query_entity_nbt);
        }
        let (v, _) = PlayQueryEntityNbtSpec::mc_deserialize(body)?;
        Ok(Packet578::PlayQueryEntityNbt(v))
    } else if id == 14 {
        proof {
            reveal(decode_play_interact_entity);
        }
        let (v, _) = PlayInteractEntitySpec::mc_deserialize(body)?;
        Ok(Packet578::PlayInteractEntity(v))
    } else if id == 15 {
        proof {
            reveal(decode_play_client_keep_alive);
        }
        let (v, _) = PlayClientKeepAliveSpec::mc_deserialize(body)?;
        Ok(Packet578::PlayClientKeepAlive(v))
    } else {
        Err(DeserializeErr::UnknownTag(id as i64))
    }
}

#[verifier::rlimit(100)]
#[verifier::spinoff_prover]
fn from_raw_play_serverbound_1(id: i32, body: &[u8]) -> (r: Result<Packet578, DeserializeErr>)
    requires
        16 <= id < 32,
    ensures
        match r {
            Ok(p) => spec_decode_play_serverbound(id, body@) == Ok::<Packet578Model, DeserializeErr>(p.model()),
            Err(e) => spec_decode_play_serverbound(id, body@) == Err::<Packet578Model, DeserializeErr>(e),
        },
{
    if id == 16 {
        proof {
            reveal(decode_play_lock_difficulty);
        }
        let (v, _) = PlayLockDifficultySpec::mc_deserialize(body)?;
        Ok(Packet578::PlayLockDifficulty(v))
    } else if id == 17 {
        proof {
            reveal(decode_play_player_position);
        }
        let (v, _) = PlayPlayerPositionSpec::mc_deserialize(body)?;
        Ok(Packet578::PlayPlayerPosition(v))
    } else if id == 18 {
        proof {
            reveal(decode_play_client_player_position_and_rotation);
        }
        let (v, _) = PlayClientPlayerPositionAndRotationSpec::mc_deserialize(body)?;
        Ok(Packet578::PlayClientPlayerPositionAndRotation(v))
    } else if id == 19 {
        proof {
            reveal(decode_play_player_rotation);
        }
        let (v, _) = PlayPlayerRotationSpec::mc_deserialize(body)?;
        Ok(Packet578::PlayPlayerRotation(v))
    } else if id == 20 {
        proof {
            reveal(decode_play_player_movement);
        }
        let (v, _) = PlayPlayerMovementSpec::mc_deserialize(body)?;
        Ok(Packet578::PlayPlayerMovement(v))
    } else if id == 21 {
        proof {
            reveal(decode_play_client_vehicle_move);
        }
        let (v, _) = PlayClientVehicleMoveSpec::mc_deserialize(body)?;
        Ok(Packet578::PlayClientVehicleMove(v))
    } else if id == 22 {
        proof {
            reveal(decode_play_steer_boat);
        }
        let (v, _) = PlaySteerBoatSpec::mc_deserialize(body)?;
        Ok(Packet578::PlaySteerBoat(v))
    } else if id == 23 {
        proof {
            reveal(decode_play_pick_item);
        }
        let (v, _) = PlayPickItemSpec::mc_deserialize(body)?;
        Ok(Packet578::PlayPickItem(v))
    } else if id == 24 {
        proof {
            reveal(decode_play_craft_recipe_request);
        }
        let (v, _) = PlayCraftRecipeRequestSpec::mc_deserialize(body)?;
        Ok(Packet578::PlayCraftRecipeRequest(v))
    } else if id == 25 {
        proof {
            reveal(decode_play_client_player_abilities);
        }
        let (v, _) = PlayClientPlayerAbilitiesSpec::mc_deserialize(body)?;
        Ok(Packet578::PlayClientPlayerAbilities(v))
    } else if id == 26 {
        proof {
            reveal(decode_play_player_digging);
        }
        let (v, _) = PlayPlayerDiggingSpec::mc_deserialize(body)?;
        Ok(Packet578::PlayPlayerDigging(v))
    } else if id == 27 {
        proof {
            reveal(decode_play_entity_action);
        }
        let (v, _) = PlayEntityActionSpec::mc_deserialize(body)?;
        Ok(Packet578::PlayEntityAction(v))
    } else if id == 28 {
        proof {
            reveal(decode_play_steer_vehicle);
        }
        let (v, _) = PlaySteerVehicleSpec::mc_deserialize(body)?;
        Ok(Packet578::PlaySteerVehicle(v))
    } else if id == 29 {
        proof {
            reveal(decode_play_recipe_book_data);
        }
        let (v, _) = PlayRecipeBookDataSpec::mc_deserialize(body)?;
        Ok(Packet578::PlayRecipeBookData(v))
    } else if id == 30 {
        proof {
            reveal(decode_play_name_item);
        }
        let (v, _) = PlayNameItemSpec::mc_deserialize(body)?;
        Ok(Packet578::PlayNameItem(v))
    } else if id == 31 {
        proof {
            reveal(decode_play_resource_pack_status);
        }
        let (v, _) = PlayResourcePackStatusSpec::mc_deserialize(body)?;
        Ok(Packet578::PlayResourcePackStatus(v))
    } else {
        Err(DeserializeErr::UnknownTag(id as i64))
    }
}

#[verifier::rlimit(100)]
#[verifier::spinoff_prover]
fn from_raw_play_serverbound_2(id: i32, body: &[u8]) -> (r: Result<Packet578, DeserializeErr>)
    requires
        32 <= id,
    ensures
        match r {
            Ok(p) => spec_decode_play_serverbound(id, body@) == Ok::<Packet578Model, DeserializeErr>(p.model()),
            Err(e) => spec_decode_play_serverbound(id, body@) == Err::<Packet578Model, DeserializeErr>(e),
        },
{
    if id == 32 {
        proof {
            reveal(decode_play_advancement_tab);
        }
        let (v, _) = PlayAdvancementTabSpec::mc_deserialize(body)?;
        Ok(Packet578::PlayAdvancementTab(v))
    } else if id == 33 {
        proof {
            reveal(decode_play_select_trade);
        }
        let (v, _) = PlaySelectTradeSpec::mc_deserialize(body)?;
        Ok(Packet578::PlaySelectTrade(v))
    } else if id == 34 {
        proof {
            reveal(decode_play_set_beacon_effect);
        }
        let (v, _) = PlaySetBeaconEffectSpec::mc_deserialize(body)?;
        Ok(Packet578::PlaySetBeaconEffect(v))
    } else if id == 35 {
        proof {
            reveal(decode_play_client_held_item_change);
        }
        let (v, _) = PlayClientHeldItemChangeSpec::mc_deserialize(body)?;
        Ok(Packet578::PlayClientHeldItemChange(v))
    } else if id == 36 {
        proof {
            reveal(decode_play_update_command_block);
        }
        let (v, _) = PlayUpdateCommandBlockSpec::mc_deserialize(body)?;
        Ok(Packet578::PlayUpdateCommandBlock(v))
    } else if id == 37 {
        proof {
            reveal(decode_play_update_command_block_minecart);
        }
        let (v, _) = PlayUpdateCommandBlockMinecartSpec::mc_deserialize(body)?;
        Ok(Packet578::PlayUpdateCommandBlockMinecart(v))
    } else if id == 38 {
        proof {
            reveal(decode_play_creative_inventory_action);
        }
        let (v, _) = PlayCreativeInventoryActionSpec::mc_deserialize(body)?;
        Ok(Packet578::PlayCreativeInventoryAction(v))
    } else if id == 39 {
        proof {
            reveal(decode_play_update_jigsaw_block);
        }
        let (v, _) = PlayUpdateJigsawBlockSpec::mc_deserialize(body)?;
        Ok(Packet578::PlayUpdateJigsawBlock(v))
    } else if id == 40 {
        proof {
            reveal(decode_play_update_structure_block);
        }
        let (v, _) = PlayUpdateStructureBlockSpec::mc_deserialize(body)?;
        Ok(Packet578::PlayUpdateStructureBlock(v))
    } else if id == 41 {
        proof {
            reveal(decode_play_update_sign);
        }
        let (v, _) = PlayUpdateSignSpec::mc_deserialize(body)?;
        Ok(Packet578::PlayUpdateSign(v))
    } else if id == 42 {
        proof {
            reveal(decode_play_client_animation);
        }
        let (v, _) = PlayClientAnimationSpec::mc_deserialize(body)?;
        Ok(Packet578::PlayClientAnimation(v))
    } else if id == 43 {
        proof {
            reveal(decode_play_spectate);
        }
        let (v, _) = PlaySpectateSpec::mc_deserialize(body)?;
        Ok(Packet578::PlaySpectate(v))
    } else if id == 44 {
        proof {
            reveal(decode_play_block_placement);
        }
        let (v, _) = PlayBlockPlacementSpec::mc_deserialize(body)?;
        Ok(Packet578::PlayBlockPlacement(v))
    } else if id == 45 {
        proof {
            reveal(decode_play_use_item);
        }
        let (v, _) = PlayUseItemSpec::mc_deserialize(body)?;
        Ok(Packet578::PlayUseItem(v))
    } else {
        Err(DeserializeErr::UnknownTag(id as i64))
    }
}

fn from_raw_play_serverbound(id: i32, body: &[u8]) -> (r: Result<Packet578, DeserializeErr>)
    ensures
        match r {
            Ok(p) => spec_decode_play_serverbound(id, body@) == Ok::<Packet578Model, DeserializeErr>(p.model()),
            Err(e) => spec_decode_play_serverbound(id, body@) == Err::<Packet578Model, DeserializeErr>(e),
        },
{
    if id < 16 {
        from_raw_play_serverbound_0(id, body)
    } else if id < 32 {
        from_raw_play_serverbound_1(id, body)
    } else {
        from_raw_play_serverbound_2(id, body)
    }
}

} // verus!
