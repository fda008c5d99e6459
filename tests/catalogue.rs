use mcproto::catalogue::{BossBarAction, Dimension, TeamTagNameVisibility};
use mcproto::codec::{Codec, DeserializeErr};
use mcproto::containers::RemainingBytes;
use mcproto::metadata::IntPosition;
use mcproto::packets::{
    LoginPluginRequestSpec, PlayChangeGameStateSpec, PlaySpawnPositionSpec, StatusPingSpec,
    StatusRequestSpec,
};
use mcproto::primitives::Float32;
use mcproto::varnum::VarInt;

fn encode<T: Codec>(v: &T) -> Vec<u8> {
    let mut out = Vec::new();
    v.mc_serialize(&mut out);
    out
}

fn round_trip<T: Codec + PartialEq + std::fmt::Debug>(v: T) {
    let mut bytes = encode(&v);
    bytes.push(0x5A);
    let (back, rest) = T::mc_deserialize(&bytes).expect("decodes");
    assert_eq!(back, v);
    assert_eq!(rest, &[0x5A]);
}

#[test]
fn empty_bodies_take_no_bytes() {
    assert!(encode(&StatusRequestSpec {}).is_empty());
    round_trip(StatusRequestSpec {});
}

#[test]
fn bodies_are_fields_in_order() {
    let ping = StatusPingSpec { payload: 0x0102030405060708 };
    assert_eq!(encode(&ping), vec![1, 2, 3, 4, 5, 6, 7, 8]);
    round_trip(ping);
    let spawn = PlaySpawnPositionSpec { location: IntPosition { x: 1, y: 2, z: 3 } };
    assert_eq!(encode(&spawn), ((1u64 << 38) | (3 << 12) | 2).to_be_bytes().to_vec());
    round_trip(spawn);
}

#[test]
fn game_state_change_always_carries_a_float() {
    let b = PlayChangeGameStateSpec { reason: 7, value: Float32 { bits: 0.5f32.to_bits() } };
    assert_eq!(encode(&b), vec![7, 0x3F, 0x00, 0x00, 0x00]);
    round_trip(b);
}

#[test]
fn trailing_bytes_fill_the_last_field() {
    let b = LoginPluginRequestSpec {
        message_id: VarInt(3),
        channel: "c".to_string(),
        data: RemainingBytes::from_vec(vec![9, 9]),
    };
    let mut out = Vec::new();
    b.mc_serialize(&mut out);
    assert_eq!(out, vec![3, 1, b'c', 9, 9]);
    let (back, rest) = LoginPluginRequestSpec::mc_deserialize(&out).unwrap();
    assert_eq!(back, b);
    assert!(rest.is_empty());
}

#[test]
fn catalogue_unions() {
    assert_eq!(encode(&Dimension::Nether), vec![0xFF, 0xFF, 0xFF, 0xFF]);
    round_trip(Dimension::End);
    assert_eq!(Dimension::mc_deserialize(&[0, 0, 0, 5]).unwrap_err(), DeserializeErr::UnknownTag(5));
    assert_eq!(encode(&BossBarAction::Remove), vec![1]);
    round_trip(BossBarAction::Remove);
    let mut tag = vec![17];
    tag.extend_from_slice(b"hideForOtherTeams");
    assert_eq!(encode(&TeamTagNameVisibility::HideForOtherTeams), tag);
    round_trip(TeamTagNameVisibility::Never);
}
