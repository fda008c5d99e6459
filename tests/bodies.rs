use mcproto::bodies::{
    AdvancementDisplayFlags, BlockChangeHorizontalPosition, DemoEvent, GameMode, HandshakeNextState,
    HandshakeSpec, MapColumns, MapColumnsSpec, PlayerInfoAction, SoundCategory, StopSoundSpec,
    TeamMember, UpdateScoreAction, UpdateScoreSpec,
};
use mcproto::codec::{Codec, DeserializeErr};
use mcproto::commands::{
    CommandArgumentNodeSpec, CommandLiteralNodeSpec, CommandNode, CommandNodeSpec,
    CommandParserSpec, EntityParserFlags, NumParserProps, RangeParserProps, ScoreHolderFlags,
    StringParserMode, SuggestionsTypeSpec,
};
use mcproto::containers::{CountedArray, VarIntCountedArray};
use mcproto::lighting::{LightingData, LightingUpdateSpec, LIGHT_DATA_LENGTH, LIGHT_DATA_SECTIONS};
use mcproto::primitives::{Float32, Float64, UUID4};
use mcproto::varnum::VarInt;

fn encode<T: Codec>(v: &T) -> Vec<u8> {
    let mut out = Vec::new();
    v.mc_serialize(&mut out);
    out
}

fn round_trip<T: Codec + PartialEq + std::fmt::Debug>(v: T) {
    let bytes = encode(&v);
    let mut with_tail = bytes.clone();
    with_tail.push(0x5A);
    let (back, rest) = T::mc_deserialize(&with_tail).expect("decodes");
    assert_eq!(back, v);
    assert_eq!(rest, &[0x5A]);
}

fn empty_sections() -> Vec<Option<Vec<u8>>> {
    vec![None; LIGHT_DATA_SECTIONS]
}

#[test]
fn handshake_round_trips() {
    let h = HandshakeSpec {
        version: VarInt(754),
        server_address: "localhost".to_string(),
        server_port: 25565,
        next_state: HandshakeNextState::Status,
    };
    let bytes = encode(&h);
    let mut expected = vec![0xF2, 0x05, 9];
    expected.extend_from_slice(b"localhost");
    expected.extend_from_slice(&[0x63, 0xDD, 0x01]);
    assert_eq!(bytes, expected);
    let (back, rest) = HandshakeSpec::mc_deserialize(&bytes).unwrap();
    assert_eq!(back, h);
    assert!(rest.is_empty());
}

#[test]
fn lighting_update_with_one_sky_section() {
    let mut sky = empty_sections();
    sky[3] = Some(vec![7u8; LIGHT_DATA_LENGTH]);
    let update = LightingUpdateSpec {
        skylight_data: LightingData { data: sky },
        blocklight_data: LightingData { data: empty_sections() },
    };
    assert_eq!(update.skylight_data.update_mask(), VarInt(0x08));
    assert_eq!(update.skylight_data.reset_mask(), VarInt(0x3FFF7));
    assert_eq!(update.blocklight_data.update_mask(), VarInt(0));
    assert_eq!(update.blocklight_data.reset_mask(), VarInt(0x3FFFF));
    let bytes = encode(&update);
    let mut expected = vec![0x08, 0x00, 0xF7, 0xFF, 0x0F, 0xFF, 0xFF, 0x0F, 0x80, 0x10];
    expected.extend_from_slice(&[7u8; LIGHT_DATA_LENGTH]);
    assert_eq!(bytes, expected);
    round_trip(update);
}

#[test]
fn lighting_section_length_must_be_2048() {
    let mut bytes = vec![0x01, 0x00, 0x00, 0x00, 0x80, 0x08];
    bytes.extend_from_slice(&[0u8; 1024]);
    assert_eq!(
        LightingUpdateSpec::mc_deserialize(&bytes).unwrap_err(),
        DeserializeErr::BadSectionLength(1024)
    );
    let short = vec![0x01, 0x00, 0x00, 0x00, 0x80, 0x10, 1, 2, 3];
    assert_eq!(LightingUpdateSpec::mc_deserialize(&short).unwrap_err(), DeserializeErr::Eof);
}

#[test]
fn lighting_ignores_mask_bits_past_the_last_section() {
    let (data, rest) = LightingData::deserialize(VarInt(1 << 20), &[9]).unwrap();
    assert_eq!(data.data, empty_sections());
    assert_eq!(rest, &[9]);
}

#[test]
fn root_command_node() {
    let node = CommandNodeSpec {
        children_indices: CountedArray::new(vec![]),
        redirect_node: None,
        is_executable: false,
        node: CommandNode::Root,
    };
    assert_eq!(encode(&node), vec![0x00, 0x00]);
    round_trip(node);
}

#[test]
fn command_nodes_pack_their_flags() {
    let arg = CommandNodeSpec {
        children_indices: CountedArray::new(vec![VarInt(1), VarInt(2)]),
        redirect_node: Some(VarInt(5)),
        is_executable: true,
        node: CommandNode::Argument(CommandArgumentNodeSpec {
            name: "n".to_string(),
            parser: CommandParserSpec::Integer(NumParserProps { min: Some(0), max: None }),
            suggestions_types: Some(SuggestionsTypeSpec::AskServer),
        }),
    };
    let bytes = encode(&arg);
    assert_eq!(bytes[0], 0x02 | 0x04 | 0x08 | 0x10);
    assert_eq!(&bytes[1..5], &[2, 1, 2, 5]);
    assert_eq!(&bytes[5..7], &[1, b'n']);
    assert_eq!(bytes[7] as usize, "brigadier:integer".len());
    round_trip(arg);
    let lit = CommandNodeSpec {
        children_indices: CountedArray::new(vec![]),
        redirect_node: None,
        is_executable: true,
        node: CommandNode::Literal(CommandLiteralNodeSpec { name: "tp".to_string() }),
    };
    assert_eq!(encode(&lit), vec![0x05, 0x00, 2, b't', b'p']);
    round_trip(lit);
}

#[test]
fn command_node_kind_three_is_rejected() {
    assert_eq!(CommandNodeSpec::mc_deserialize(&[0x03, 0x00]).unwrap_err(), DeserializeErr::UnknownTag(3));
}

#[test]
fn parser_descriptors() {
    let p = CommandParserSpec::Double(NumParserProps {
        min: Some(Float64 { bits: 1.0f64.to_bits() }),
        max: Some(Float64 { bits: 2.0f64.to_bits() }),
    });
    let bytes = encode(&p);
    assert_eq!(bytes[0] as usize, "brigadier:double".len());
    assert_eq!(bytes[17], 0x03);
    round_trip(p);
    round_trip(CommandParserSpec::Float(NumParserProps { min: None, max: Some(Float32 { bits: 7 }) }));
    round_trip(CommandParserSpec::StringParser(StringParserMode::GreedyPhrase));
    round_trip(CommandParserSpec::Entity(EntityParserFlags { single_target: true, players_only: false }));
    round_trip(CommandParserSpec::ScoreHolder(ScoreHolderFlags { multiple: true }));
    round_trip(CommandParserSpec::Range(RangeParserProps { decimal: true }));
    round_trip(CommandParserSpec::Time);
    round_trip(CommandParserSpec::Bool);
    let mut unknown = vec![9];
    unknown.extend_from_slice(b"brig:none");
    assert_eq!(CommandParserSpec::mc_deserialize(&unknown).unwrap_err(), DeserializeErr::UnknownStringTag);
}

#[test]
fn num_parser_props_flags() {
    let p: NumParserProps<i32> = NumParserProps { min: None, max: Some(10) };
    assert_eq!(encode(&p), vec![0x02, 0, 0, 0, 10]);
    round_trip(p);
    let (q, _) = NumParserProps::<i32>::mc_deserialize(&[0x00]).unwrap();
    assert_eq!(q, NumParserProps { min: None, max: None });
}

#[test]
fn flag_sets_ignore_unknown_bits() {
    let (f, _) = EntityParserFlags::mc_deserialize(&[0xFE]).unwrap();
    assert_eq!(f, EntityParserFlags { single_target: false, players_only: true });
    assert_eq!(encode(&EntityParserFlags { single_target: true, players_only: true }), vec![3]);
}

#[test]
fn stop_sound_flags_and_order() {
    let s = StopSoundSpec { source: Some(SoundCategory::Hostile), sound: Some("a".to_string()) };
    assert_eq!(encode(&s), vec![0x03, 0x05, 1, b'a']);
    round_trip(s);
    let only_sound = StopSoundSpec { source: None, sound: Some("b".to_string()) };
    assert_eq!(encode(&only_sound), vec![0x02, 1, b'b']);
    round_trip(only_sound);
    assert_eq!(
        StopSoundSpec::mc_deserialize(&[0x01, 0x0A]).unwrap_err(),
        DeserializeErr::UnknownTag(10)
    );
}

#[test]
fn update_score_writes_action_id_before_name() {
    let u = UpdateScoreSpec { objective_name: "obj".to_string(), action: UpdateScoreAction::Upsert(VarInt(300)) };
    assert_eq!(encode(&u), vec![0x00, 3, b'o', b'b', b'j', 0xAC, 0x02]);
    round_trip(u);
    let r = UpdateScoreSpec { objective_name: "x".to_string(), action: UpdateScoreAction::Remove };
    assert_eq!(encode(&r), vec![0x01, 1, b'x']);
    round_trip(r);
    assert_eq!(UpdateScoreSpec::mc_deserialize(&[0x07, 0]).unwrap_err(), DeserializeErr::UnknownTag(7));
}

#[test]
fn advancement_display_flags() {
    let f = AdvancementDisplayFlags { background_texture: Some("bg".to_string()), show_toast: false, hidden: true };
    assert_eq!(encode(&f), vec![0, 0, 0, 0x05, 2, b'b', b'g']);
    round_trip(f);
    let (g, _) = AdvancementDisplayFlags::mc_deserialize(&[0xFF, 0xFF, 0xFF, 0xFA]).unwrap();
    assert_eq!(g, AdvancementDisplayFlags { background_texture: None, show_toast: true, hidden: false });
}

#[test]
fn map_columns() {
    assert_eq!(encode(&MapColumns::NoUpdates), vec![0]);
    let spec = MapColumnsSpec { columns: 2, rows: 1, x: 3, z: 4, data: CountedArray::new(vec![9, 8]) };
    let m = MapColumns::Updated(spec.clone());
    assert_eq!(encode(&m), vec![2, 1, 3, 4, 2, 9, 8]);
    round_trip(m.clone());
    round_trip(MapColumns::NoUpdates);
    assert_eq!(m.into_option(), Some(spec.clone()));
    assert_eq!(MapColumns::from_option(None), MapColumns::NoUpdates);
}

#[test]
fn block_change_position_packs_into_a_byte() {
    let p = BlockChangeHorizontalPosition { rel_x: 0xA, rel_z: 0x3 };
    assert_eq!(encode(&p), vec![0xA3]);
    round_trip(p);
}

#[test]
fn team_members_are_told_apart_by_text() {
    let id = UUID4 { raw: 0x0011_2233_4455_6677_8899_aabb_ccdd_eeff };
    assert_eq!(id.to_string(), "00112233-4455-6677-8899-aabbccddeeff");
    let e = TeamMember::Entity(id);
    let bytes = encode(&e);
    assert_eq!(bytes[0], 36);
    assert_eq!(&bytes[1..], b"00112233-4455-6677-8899-aabbccddeeff");
    round_trip(e);
    round_trip(TeamMember::Player("Notch".to_string()));
    let (upper, _) = TeamMember::mc_deserialize(&encode(&"00112233-4455-6677-8899-AABBCCDDEEFF".to_string())).unwrap();
    assert_eq!(upper, TeamMember::Entity(id));
    assert_eq!(UUID4::parse("00112233-4455-6677-8899-aabbccddeef"), None);
    assert_eq!(UUID4::parse("0011223344556677-8899-aabb-ccddeeff"), None);
    assert_eq!(UUID4::parse("00112233-4455-6677-8899-aabbccddeefg"), None);
}

#[test]
fn player_info_action_is_uuid_then_action() {
    let a = PlayerInfoAction { uuid: UUID4 { raw: 1 }, action: GameMode::Creative };
    let mut expected = vec![0u8; 15];
    expected.push(1);
    expected.push(1);
    assert_eq!(encode(&a), expected);
    round_trip(a);
}

#[test]
fn byte_enums() {
    assert_eq!(encode(&DemoEvent::TellJumpControl), vec![0x66]);
    assert_eq!(DemoEvent::mc_deserialize(&[0x10]).unwrap_err(), DeserializeErr::UnknownTag(0x10));
    assert_eq!(encode(&SoundCategory::Voice), vec![9]);
    let v: VarIntCountedArray<SoundCategory> = CountedArray::new(vec![SoundCategory::Master, SoundCategory::Music]);
    round_trip(v);
}
