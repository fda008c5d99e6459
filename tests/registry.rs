use mcproto::codec::{Codec, DeserializeErr};
use mcproto::registry::{PacketDirection, PacketEntry, RawPacket, Registry, RegistryError, State};
use mcproto::varnum::VarInt;

fn to_snake_case(camel: String) -> String {
    let mut parts = Vec::new();
    let mut buf = String::new();
    for c in camel.chars() {
        if !buf.is_empty() && char::is_uppercase(c) {
            parts.push(buf);
            buf = String::new();
        }
        buf.push(c.to_ascii_lowercase());
    }
    if !buf.is_empty() {
        parts.push(buf);
    }
    parts.join("_")
}

#[test]
fn test_generate_test_cases() {
    let registry = Registry::protocol_578().unwrap();
    registry
        .packets()
        .iter()
        .map(move |packet| {
            let snake_case = to_snake_case(packet.name.to_string());
            format!(
                "packet_test_cases!(Packet578, {}, {},\n        test_{}, bench_write_{}, bench_read_{});\n",
                packet.name, packet.body_struct, snake_case, snake_case, snake_case
            )
        })
        .for_each(move |line| println!("{}", line))
}

#[test]
fn catalogue_resolves_both_ways() {
    let registry = Registry::protocol_578().unwrap();
    assert_eq!(registry.version(), 578);
    assert_eq!(registry.packets().len(), 152);
    let e = registry.resolve(State::Handshaking, PacketDirection::ServerBound, 0).unwrap();
    assert_eq!(e.name, "Handshake");
    assert_eq!(e.body_struct, "HandshakeSpec");
    let e = registry.resolve(State::Play, PacketDirection::ClientBound, 0x22).unwrap();
    assert_eq!(e.name, "PlayChunkData");
    let e = registry.resolve(State::Play, PacketDirection::ServerBound, 0x0D).unwrap();
    assert_eq!(e.name, "PlayQueryEntityNbt");
    assert!(registry.resolve(State::Status, PacketDirection::ServerBound, 0x02).is_none());
    let e = registry.id_of("PlayUpdateLight").unwrap();
    assert_eq!((e.state, e.direction, e.id), (State::Play, PacketDirection::ClientBound, 0x25));
    assert!(registry.id_of("NoSuchPacket").is_none());
}

#[test]
fn duplicate_keys_are_refused() {
    let a = PacketEntry { name: "A", body_struct: "ASpec", id: 1, state: State::Login, direction: PacketDirection::ClientBound };
    let b = PacketEntry { name: "B", body_struct: "BSpec", id: 1, state: State::Login, direction: PacketDirection::ClientBound };
    let c = PacketEntry { name: "C", body_struct: "CSpec", id: 1, state: State::Login, direction: PacketDirection::ServerBound };
    assert_eq!(
        Registry::new(1, vec![a, c, b]).unwrap_err(),
        RegistryError::DuplicateKey { state: State::Login, direction: PacketDirection::ClientBound, id: 1 }
    );
    assert!(Registry::new(1, vec![a, c]).is_ok());
}

#[test]
fn directions_and_states() {
    assert_eq!(PacketDirection::ClientBound.opposite(), PacketDirection::ServerBound);
    assert_eq!(PacketDirection::ServerBound.opposite(), PacketDirection::ClientBound);
    assert_eq!(State::Handshaking.name(), "Handshaking");
    assert_eq!(State::Status.name(), "Status");
    assert_eq!(State::Login.name(), "Login");
    assert_eq!(State::Play.name(), "Play");
}

#[test]
fn raw_frames() {
    let p = RawPacket { id: VarInt(0x25), body: vec![1, 2, 3] };
    let mut out = Vec::new();
    p.mc_serialize(&mut out);
    assert_eq!(out, vec![0x25, 1, 2, 3]);
    assert_eq!(RawPacket::mc_deserialize(&out).unwrap(), p);
    assert_eq!(RawPacket::mc_deserialize(&[0x80]).unwrap_err(), DeserializeErr::Eof);
    let _ = VarInt::mc_deserialize(&out);
}
