use mcproto::chunk::ChunkData;
use mcproto::codec::{Codec, DeserializeErr};
use mcproto::containers::CountedArray;
use mcproto::metadata::{
    Chat, EntityMetadata, EntityMetadataField, EntityMetadataFieldData, EntityPose, IntPosition,
    ParticleSpec, DustParticleData,
};
use mcproto::nbt::NamedNbtTag;
use mcproto::primitives::{Float32, UUID4};
use mcproto::recipes::{Recipe, RecipeCraftingShapedSpec, RecipeIngredient, RecipeSpec, Slot};
use mcproto::varnum::VarInt;

fn encode<T: Codec>(v: &T) -> Vec<u8> {
    let mut out = Vec::new();
    v.mc_serialize(&mut out);
    out
}

fn round_trip<T: Codec + PartialEq + std::fmt::Debug>(v: T) {
    let bytes = encode(&v);
    let mut with_tail = bytes.clone();
    with_tail.push(0x5A);
    let (back, rest) = T::mc_deserialize(&with_tail).expect("decodes");
    assert_eq!(back, v);
    assert_eq!(rest, &[0x5A]);
}

/// A compound named "hm" holding a long array "a" of one element and an
/// empty list.
fn sample_tag() -> Vec<u8> {
    let mut t = vec![10, 0, 2, b'h', b'm'];
    t.extend_from_slice(&[12, 0, 1, b'a', 0, 0, 0, 1, 1, 2, 3, 4, 5, 6, 7, 8]);
    t.extend_from_slice(&[9, 0, 1, b'l', 0, 0, 0, 0, 0]);
    t.push(0);
    t
}

#[test]
fn nbt_tags_are_scanned_to_their_end() {
    let raw = sample_tag();
    let tag = NamedNbtTag::from_bytes(raw.clone()).unwrap();
    let mut bytes = raw.clone();
    bytes.extend_from_slice(&[1, 2, 3]);
    let (back, rest) = NamedNbtTag::mc_deserialize(&bytes).unwrap();
    assert_eq!(back, tag);
    assert_eq!(rest, &[1, 2, 3]);
    assert!(NamedNbtTag::from_bytes(raw[..raw.len() - 1].to_vec()).is_none());
    assert_eq!(NamedNbtTag::mc_deserialize(&raw[..10]).unwrap_err(), DeserializeErr::Eof);
    assert_eq!(NamedNbtTag::mc_deserialize(&[0]).unwrap_err(), DeserializeErr::UnknownTag(0));
    assert_eq!(NamedNbtTag::mc_deserialize(&[13, 0, 0]).unwrap_err(), DeserializeErr::UnknownTag(13));
    let nested = vec![9, 0, 0, 10, 0, 0, 0, 2, 0, 1, 0, 1, b'x', 7, 0];
    assert!(NamedNbtTag::from_bytes(nested).is_some());
}

#[test]
fn slots_write_an_end_byte_for_a_missing_tag() {
    let s = Slot { item_id: VarInt(5), item_count: 3, nbt: None };
    assert_eq!(encode(&s), vec![5, 3, 0]);
    round_trip(s);
    let t = Slot { item_id: VarInt(1), item_count: 1, nbt: NamedNbtTag::from_bytes(sample_tag()) };
    round_trip(Some(t));
}

#[test]
fn shaped_recipe_reads_width_times_height_ingredients() {
    let ing = |id: i32| RecipeIngredient {
        items: CountedArray::new(vec![Some(Slot { item_id: VarInt(id), item_count: 1, nbt: None })]),
    };
    let r = RecipeCraftingShapedSpec {
        width: VarInt(2),
        height: VarInt(1),
        group: "g".to_string(),
        ingredients: vec![ing(1), ing(2)],
        result: Some(Slot { item_id: VarInt(9), item_count: 1, nbt: None }),
    };
    let bytes = encode(&r);
    assert_eq!(&bytes[..4], &[2, 1, 1, b'g']);
    assert_eq!(&bytes[4..9], &[1, 1, 1, 1, 0]);
    round_trip(r.clone());
    let spec = RecipeSpec { recipe: Recipe::CraftingShaped(r), id: "minecraft:thing".to_string() };
    let bytes = encode(&spec);
    assert_eq!(bytes[0] as usize, "minecraft:crafting_shaped".len());
    assert_eq!(&bytes[1..26], b"minecraft:crafting_shaped");
    assert_eq!(bytes[26] as usize, "minecraft:thing".len());
    round_trip(spec);
    round_trip(RecipeSpec { recipe: Recipe::CraftingArmorDye, id: "d".to_string() });
    assert_eq!(
        RecipeCraftingShapedSpec::mc_deserialize(&[0x7F, 0xFF, 0xFF, 0xFF, 0xFF, 0x0F, 0]).unwrap_err(),
        DeserializeErr::NegativeLength(-1)
    );
}

#[test]
fn chunk_data_with_and_without_biomes() {
    let c = ChunkData {
        chunk_x: -1,
        chunk_z: 2,
        primary_bit_mask: VarInt(3),
        heightmaps: NamedNbtTag::from_bytes(sample_tag()).unwrap(),
        biomes: None,
        data: CountedArray::new(vec![1, 2]),
        block_entities: vec![],
    };
    let bytes = encode(&c);
    assert_eq!(&bytes[..10], &[0xFF, 0xFF, 0xFF, 0xFF, 0, 0, 0, 2, 0, 3]);
    round_trip(c.clone());
    let mut full = c;
    full.biomes = Some((0..1024).collect());
    full.block_entities = vec![NamedNbtTag::from_bytes(sample_tag()).unwrap()];
    let bytes = encode(&full);
    assert_eq!(bytes[8], 1);
    round_trip(full);
}

#[test]
fn positions_pack_into_64_bits() {
    let p = IntPosition { x: 1, y: 2, z: 3 };
    assert_eq!(encode(&p), ((1u64 << 38) | (3 << 12) | 2).to_be_bytes().to_vec());
    round_trip(p);
    let q = IntPosition { x: -1, y: -2048, z: -33554432 };
    assert_eq!(encode(&q), ((0x3FF_FFFFu64 << 38) | (0x200_0000 << 12) | 0x800).to_be_bytes().to_vec());
    round_trip(q);
}

#[test]
fn entity_metadata_ends_at_the_first_ff_index() {
    let mut m = EntityMetadata { fields: vec![] };
    m.set(0, EntityMetadataFieldData::Byte(-1));
    m.set(6, EntityMetadataFieldData::Pose(EntityPose::Sleeping));
    m.set(0, EntityMetadataFieldData::Boolean(true));
    assert_eq!(m.fields.len(), 2);
    assert_eq!(m.get(0), Some(&EntityMetadataFieldData::Boolean(true)));
    assert_eq!(m.get(6), Some(&EntityMetadataFieldData::Pose(EntityPose::Sleeping)));
    assert_eq!(m.get(1), None);
    let bytes = encode(&m);
    assert_eq!(bytes, vec![0, 7, 1, 6, 18, 2, 0xFF]);
    let mut with_tail = bytes.clone();
    with_tail.extend_from_slice(&[0xFF, 0x01]);
    let (back, rest) = EntityMetadata::mc_deserialize(&with_tail).unwrap();
    assert_eq!(back, m);
    assert_eq!(rest, &[0xFF, 0x01]);
    let (empty, rest) = EntityMetadata::mc_deserialize(&[0xFF, 0xFF]).unwrap();
    assert!(empty.fields.is_empty());
    assert_eq!(rest, &[0xFF]);
    assert_eq!(EntityMetadata::mc_deserialize(&[0, 0]).unwrap_err(), DeserializeErr::Eof);
    assert_eq!(EntityMetadata::mc_deserialize(&[0, 19]).unwrap_err(), DeserializeErr::UnknownTag(19));
}

#[test]
fn entity_metadata_values_round_trip() {
    let fields = vec![
        EntityMetadataFieldData::String("s".to_string()),
        EntityMetadataFieldData::OptChat(Some(Chat { json: "{\"text\":\"hi\"}".to_string() })),
        EntityMetadataFieldData::Float(Float32 { bits: 0.5f32.to_bits() }),
        EntityMetadataFieldData::OptUUID(Some(UUID4 { raw: 7 })),
        EntityMetadataFieldData::Position(IntPosition { x: 10, y: -5, z: 7 }),
        EntityMetadataFieldData::Particle(ParticleSpec::Dust(DustParticleData {
            red: Float32 { bits: 1 },
            green: Float32 { bits: 2 },
            blue: Float32 { bits: 3 },
            scale: Float32 { bits: 4 },
        })),
        EntityMetadataFieldData::Particle(ParticleSpec::FallingNectar),
        EntityMetadataFieldData::OptVarInt(VarInt(0)),
    ];
    let m = EntityMetadata {
        fields: fields.into_iter().enumerate().map(|(i, data)| EntityMetadataField { index: i as u8, data }).collect(),
    };
    round_trip(m);
    assert_eq!(encode(&ParticleSpec::FallingNectar), vec![61]);
}
