use mcproto::codec::{Codec, DeserializeErr};
use mcproto::varnum::{VarInt, VarLong};
use mcproto::primitives::{Float32, Float64, UUID4};
use mcproto::containers::{
    ByteCountedArray, CountedArray, IntCountedArray, RemainingBytes, ShortCountedArray,
    VarIntCountedArray,
};

fn encode<T: Codec>(v: &T) -> Vec<u8> {
    let mut out = Vec::new();
    v.mc_serialize(&mut out);
    out
}

fn round_trip<T: Codec + PartialEq + std::fmt::Debug>(v: T) {
    let bytes = encode(&v);
    let mut with_tail = bytes.clone();
    with_tail.extend_from_slice(&[0xAB, 0xCD]);
    let (back, rest) = T::mc_deserialize(&with_tail).expect("decodes");
    assert_eq!(back, v);
    assert_eq!(rest, &[0xAB, 0xCD]);
}

#[test]
fn varint_zero_is_one_byte() {
    assert_eq!(encode(&VarInt(0)), vec![0x00]);
}

#[test]
fn varint_25565() {
    assert_eq!(encode(&VarInt(25565)), vec![0xDD, 0xC7, 0x01]);
}

#[test]
fn varint_minus_one_takes_five_bytes() {
    assert_eq!(encode(&VarInt(-1)), vec![0xFF, 0xFF, 0xFF, 0xFF, 0x0F]);
}

#[test]
fn varint_extremes() {
    assert_eq!(encode(&VarInt(i32::MAX)), vec![0xFF, 0xFF, 0xFF, 0xFF, 0x07]);
    assert_eq!(encode(&VarInt(i32::MIN)), vec![0x80, 0x80, 0x80, 0x80, 0x08]);
    assert_eq!(encode(&VarInt(127)), vec![0x7F]);
    assert_eq!(encode(&VarInt(128)), vec![0x80, 0x01]);
}

#[test]
fn varint_accepts_non_minimal_forms() {
    let (v, rest) = VarInt::mc_deserialize(&[0x80, 0x00]).unwrap();
    assert_eq!(v, VarInt(0));
    assert!(rest.is_empty());
    let (v, _) = VarInt::mc_deserialize(&[0xDD, 0xC7, 0x81, 0x80, 0x00]).unwrap();
    assert_eq!(v, VarInt(25565));
}

#[test]
fn varint_too_long_is_rejected() {
    assert_eq!(
        VarInt::mc_deserialize(&[0xFF, 0xFF, 0xFF, 0xFF, 0xFF, 0x01]).unwrap_err(),
        DeserializeErr::VarNumTooLong
    );
    assert_eq!(
        VarLong::mc_deserialize(&[0xFF; 11]).unwrap_err(),
        DeserializeErr::VarNumTooLong
    );
}

#[test]
fn varint_truncated_is_eof() {
    assert_eq!(VarInt::mc_deserialize(&[0xFF, 0xFF]).unwrap_err(), DeserializeErr::Eof);
    assert_eq!(VarInt::mc_deserialize(&[]).unwrap_err(), DeserializeErr::Eof);
}

#[test]
fn varlong_values() {
    assert_eq!(encode(&VarLong(-1)), vec![0xFF, 0xFF, 0xFF, 0xFF, 0xFF, 0xFF, 0xFF, 0xFF, 0xFF, 0x01]);
    assert_eq!(encode(&VarLong(300)), vec![0xAC, 0x02]);
    round_trip(VarLong(i64::MIN));
    round_trip(VarLong(i64::MAX));
}

#[test]
fn varint_random_round_trips_are_minimal() {
    for _ in 0..2000 {
        let v: i32 = rand::random();
        let bytes = encode(&VarInt(v));
        let u = v as u32;
        let expected_len = if u < 1 << 7 {
            1
        } else if u < 1 << 14 {
            2
        } else if u < 1 << 21 {
            3
        } else if u < 1 << 28 {
            4
        } else {
            5
        };
        assert_eq!(bytes.len(), expected_len);
        round_trip(VarInt(v));
        let w: i64 = rand::random();
        round_trip(VarLong(w));
    }
}

#[test]
fn fixed_width_integers_are_big_endian() {
    assert_eq!(encode(&0x1234u16), vec![0x12, 0x34]);
    assert_eq!(encode(&-2i16), vec![0xFF, 0xFE]);
    assert_eq!(encode(&0x01020304i32), vec![1, 2, 3, 4]);
    assert_eq!(encode(&-1i64), vec![0xFF; 8]);
    assert_eq!(encode(&0x0102030405060708i64), vec![1, 2, 3, 4, 5, 6, 7, 8]);
    assert_eq!(encode(&-5i8), vec![0xFB]);
    round_trip(i64::MIN);
    round_trip(i32::MIN);
    round_trip(i16::MAX);
    round_trip(200u8);
}

#[test]
fn floats_keep_their_bit_patterns() {
    let f = Float32 { bits: 1.5f32.to_bits() };
    assert_eq!(encode(&f), vec![0x3F, 0xC0, 0x00, 0x00]);
    round_trip(f);
    let d = Float64 { bits: (-2.25f64).to_bits() };
    assert_eq!(encode(&d), (-2.25f64).to_be_bytes().to_vec());
    round_trip(d);
}

#[test]
fn booleans() {
    assert_eq!(encode(&true), vec![1]);
    assert_eq!(encode(&false), vec![0]);
    assert_eq!(bool::mc_deserialize(&[2]).unwrap_err(), DeserializeErr::InvalidBool(2));
}

#[test]
fn strings_are_length_prefixed_utf8() {
    assert_eq!(encode(&"hi".to_string()), vec![2, b'h', b'i']);
    assert_eq!(encode(&"é".to_string()), vec![2, 0xC3, 0xA9]);
    round_trip("localhost".to_string());
    round_trip(String::new());
    round_trip("ünïcødé ✓ 𝄞".to_string());
}

#[test]
fn string_errors() {
    assert_eq!(String::mc_deserialize(&[3, b'a']).unwrap_err(), DeserializeErr::Eof);
    assert_eq!(
        String::mc_deserialize(&[2, 0xC3, 0x28]).unwrap_err(),
        DeserializeErr::BadStringEncoding
    );
    assert_eq!(
        String::mc_deserialize(&[0xFF, 0xFF, 0xFF, 0xFF, 0x0F]).unwrap_err(),
        DeserializeErr::NegativeLength(-1)
    );
}

#[test]
fn uuid_is_sixteen_raw_bytes() {
    let id = UUID4 { raw: 0x0011_2233_4455_6677_8899_aabb_ccdd_eeffu128 };
    assert_eq!(
        encode(&id),
        vec![0x00, 0x11, 0x22, 0x33, 0x44, 0x55, 0x66, 0x77, 0x88, 0x99, 0xaa, 0xbb, 0xcc, 0xdd, 0xee, 0xff]
    );
    round_trip(id);
    assert_eq!(UUID4::mc_deserialize(&[0; 15]).unwrap_err(), DeserializeErr::Eof);
}

#[test]
fn optional_values_carry_a_presence_flag() {
    assert_eq!(encode(&Some(VarInt(5))), vec![1, 5]);
    assert_eq!(encode(&None::<VarInt>), vec![0]);
    round_trip(Some("x".to_string()));
    round_trip(None::<String>);
}

#[test]
fn counted_arrays_emit_the_true_count() {
    let a: VarIntCountedArray<u8> = CountedArray::new(vec![1, 2, 3]);
    assert_eq!(encode(&a), vec![3, 1, 2, 3]);
    let s: ShortCountedArray<u8> = CountedArray::new(vec![9]);
    assert_eq!(encode(&s), vec![0, 1, 9]);
    let i: IntCountedArray<i8> = CountedArray::new(vec![-1, 1]);
    assert_eq!(encode(&i), vec![0, 0, 0, 2, 0xFF, 1]);
    let b: ByteCountedArray<bool> = CountedArray::new(vec![true]);
    assert_eq!(encode(&b), vec![1, 1]);
    round_trip(a);
    round_trip(s);
    round_trip(i);
    round_trip(b);
    let empty: VarIntCountedArray<String> = CountedArray::new(vec![]);
    assert_eq!(encode(&empty), vec![0]);
}

#[test]
fn counted_array_decodes_exactly_count_elements() {
    let (a, rest) = VarIntCountedArray::<u8>::mc_deserialize(&[2, 7, 8, 9]).unwrap();
    assert_eq!(a.data, vec![7, 8]);
    assert_eq!(rest, &[9]);
    assert_eq!(
        VarIntCountedArray::<u8>::mc_deserialize(&[3, 7, 8]).unwrap_err(),
        DeserializeErr::Eof
    );
    assert_eq!(
        ShortCountedArray::<u8>::mc_deserialize(&[0xFF, 0xFF]).unwrap_err(),
        DeserializeErr::NegativeLength(-1)
    );
    assert_eq!(
        VarIntCountedArray::<bool>::mc_deserialize(&[2, 1, 5]).unwrap_err(),
        DeserializeErr::InvalidBool(5)
    );
}

#[test]
fn counted_array_random_round_trips() {
    for _ in 0..200 {
        let n = rand::random::<usize>() % 40;
        let items: Vec<VarInt> = (0..n).map(|_| VarInt(rand::random())).collect();
        let a: VarIntCountedArray<VarInt> = CountedArray::new(items.clone());
        let bytes = encode(&a);
        let (count, _) = VarInt::mc_deserialize(&bytes).unwrap();
        assert_eq!(count, VarInt(n as i32));
        round_trip(a);
    }
}

#[test]
fn remaining_bytes_takes_everything() {
    let (r, rest) = RemainingBytes::mc_deserialize(&[1, 2, 3]).unwrap();
    assert_eq!(r.data, vec![1, 2, 3]);
    assert!(rest.is_empty());
    let mut out = vec![9];
    RemainingBytes::from_vec(vec![4, 5]).mc_serialize(&mut out);
    assert_eq!(out, vec![9, 4, 5]);
    assert_eq!(RemainingBytes::from_vec(vec![7]).into_vec(), vec![7]);
}
