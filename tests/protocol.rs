use mcproto::bodies::{HandshakeNextState, HandshakeSpec};
use mcproto::codec::DeserializeErr;
use mcproto::metadata::IntPosition;
use mcproto::packets::{PlaySpawnPositionSpec, StatusRequestSpec};
use mcproto::protocol::Packet578;
use mcproto::registry::{PacketDirection, RawPacket, Registry, State};
use mcproto::varnum::VarInt;

#[test]
fn messages_travel_as_raw_frames() {
    let h = Packet578::Handshake(HandshakeSpec {
        version: VarInt(754),
        server_address: "localhost".to_string(),
        server_port: 25565,
        next_state: HandshakeNextState::Status,
    });
    assert_eq!(h.key(), (State::Handshaking, PacketDirection::ServerBound, 0));
    let raw = h.to_raw();
    assert_eq!(raw.id, VarInt(0));
    let back = Packet578::from_raw(State::Handshaking, PacketDirection::ServerBound, &raw).unwrap();
    assert_eq!(back, h);

    let p = Packet578::PlaySpawnPosition(PlaySpawnPositionSpec { location: IntPosition { x: 1, y: 2, z: 3 } });
    let raw = p.to_raw();
    assert_eq!(raw.id, VarInt(0x4E));
    assert_eq!(Packet578::from_raw(State::Play, PacketDirection::ClientBound, &raw).unwrap(), p);

    let s = Packet578::StatusRequest(StatusRequestSpec {});
    let raw = s.to_raw();
    assert!(raw.body.is_empty());
    assert_eq!(Packet578::from_raw(State::Status, PacketDirection::ServerBound, &raw).unwrap(), s);
}

#[test]
fn message_ids_agree_with_the_registry() {
    let registry = Registry::protocol_578().unwrap();
    let p = Packet578::PlaySpawnPosition(PlaySpawnPositionSpec { location: IntPosition { x: 0, y: 0, z: 0 } });
    let (state, direction, id) = p.key();
    let entry = registry.resolve(state, direction, id).unwrap();
    assert_eq!(entry.name, "PlaySpawnPosition");
}

#[test]
fn unknown_ids_are_errors() {
    let raw = RawPacket { id: VarInt(0x7F), body: vec![] };
    assert_eq!(
        Packet578::from_raw(State::Play, PacketDirection::ClientBound, &raw).unwrap_err(),
        DeserializeErr::UnknownTag(0x7F)
    );
    let raw = RawPacket { id: VarInt(1), body: vec![] };
    assert_eq!(
        Packet578::from_raw(State::Handshaking, PacketDirection::ServerBound, &raw).unwrap_err(),
        DeserializeErr::UnknownTag(1)
    );
    let raw = RawPacket { id: VarInt(0), body: vec![0x80] };
    assert_eq!(
        Packet578::from_raw(State::Handshaking, PacketDirection::ServerBound, &raw).unwrap_err(),
        DeserializeErr::Eof
    );
}
