use blackmagic_camera_control::data::Data;
use blackmagic_camera_control::paramcodec::{
    decode_i16s, decode_i32s, decode_i64s, decode_i8s, encode_i16s, encode_i32s, encode_i64s,
    encode_i8s, fixed16_from_scaled, i16_from_le, i16_le,
};
use blackmagic_camera_control::rawcommand::{CommandError, ParamType};
use fixed::types::I5F11;

#[test]
fn i16_little_endian_bytes() {
    assert_eq!(i16_le(0x1234), vec![0x34, 0x12]);
    assert_eq!(i16_le(-1), vec![0xFF, 0xFF]);
    assert_eq!(i16_from_le(&[0x34, 0x12]), 0x1234);
    assert_eq!(i16_from_le(&[0xFF, 0xFF]), -1);
}

#[test]
fn fixed16_one_encodes_to_2048() {
    // One in the 5.11 fixed-point format is 2048 raw units, stored
    // little endian as [0x00, 0x08].
    assert_eq!(I5F11::from_num(1.0f32).to_bits(), 2048);
    assert_eq!(fixed16_from_scaled(2048), Ok(2048));
    assert_eq!(i16_le(2048), vec![0x00, 0x08]);
}

#[test]
fn fixed16_decodes_to_plus_minus_one() {
    let plus = i16_from_le(&[0x00, 0x08]);
    assert_eq!(f32::from(I5F11::from_bits(plus)), 1.0);
    let minus = i16_from_le(&[0x00, 0xF8]);
    assert_eq!(minus, -2048);
    assert_eq!(f32::from(I5F11::from_bits(minus)), -1.0);
}

#[test]
fn fixed16_out_of_range_fails() {
    assert_eq!(fixed16_from_scaled(0x8000), Err(CommandError::RangeError));
    assert_eq!(fixed16_from_scaled(-0x8001), Err(CommandError::RangeError));
    assert_eq!(fixed16_from_scaled(-0x8000), Ok(-0x8000));
    assert_eq!(fixed16_from_scaled(0x7FFF), Ok(0x7FFF));
}

#[test]
fn integer_sequences_round_trip() {
    let b8 = encode_i8s(&vec![-1, 0, 127]);
    assert_eq!(b8, vec![0xFF, 0x00, 0x7F]);
    assert_eq!(decode_i8s(&b8), vec![-1, 0, 127]);

    let b16 = encode_i16s(&vec![-2, 300]);
    assert_eq!(b16, vec![0xFE, 0xFF, 0x2C, 0x01]);
    assert_eq!(decode_i16s(&b16), Ok(vec![-2, 300]));

    let b32 = encode_i32s(&vec![640, -640]);
    assert_eq!(b32, vec![0x80, 0x02, 0x00, 0x00, 0x80, 0xFD, 0xFF, 0xFF]);
    assert_eq!(decode_i32s(&b32), Ok(vec![640, -640]));

    let b64 = encode_i64s(&vec![1, -1]);
    assert_eq!(decode_i64s(&b64), Ok(vec![1, -1]));
}

#[test]
fn sequence_width_mismatch_fails() {
    assert_eq!(decode_i16s(&[1, 2, 3]), Err(CommandError::LengthMismatch));
    assert_eq!(decode_i32s(&[1, 2, 3, 4, 5]), Err(CommandError::LengthMismatch));
    assert_eq!(decode_i64s(&[0; 9]), Err(CommandError::LengthMismatch));
}

#[test]
fn param_type_scalars() {
    assert_eq!(<i16 as ParamType>::from_bytes(&[0x2C, 0x01]), Ok(300));
    assert_eq!(<i16 as ParamType>::from_bytes(&[0x2C]), Err(CommandError::LengthMismatch));
    assert_eq!(<i32 as ParamType>::from_bytes(&[0x80, 0x02, 0x00, 0x00, 0xAA]), Ok(640));
    assert_eq!(<i64 as ParamType>::from_bytes(&[1, 0, 0, 0, 0, 0, 0, 0]), Ok(1));
    assert_eq!(<i8 as ParamType>::from_bytes(&[0xFF]), Ok(-1));
    assert_eq!(<u8 as ParamType>::from_bytes(&[7]), Ok(7));
    assert_eq!(ParamType::to_bytes(&300i16), vec![0x2C, 0x01]);
    assert_eq!(ParamType::to_bytes(&(-1i8)), vec![0xFF]);
}

#[test]
fn param_type_text() {
    let s = String::from("focus");
    assert_eq!(ParamType::to_bytes(&s), b"focus".to_vec());
    assert_eq!(<String as ParamType>::from_bytes(b"focus"), Ok(s));
    assert_eq!(
        <String as ParamType>::from_bytes(&[0xFF, 0xFE]),
        Err(CommandError::TextDecodeError)
    );
}

#[test]
fn param_type_vectors() {
    assert_eq!(<Vec<i16> as ParamType>::from_bytes(&[0xFE, 0xFF, 0x2C, 0x01]), Ok(vec![-2, 300]));
    assert_eq!(
        <Vec<i16> as ParamType>::from_bytes(&[1, 2, 3]),
        Err(CommandError::LengthMismatch)
    );
    assert_eq!(ParamType::to_bytes(&vec![-2i16, 300]), vec![0xFE, 0xFF, 0x2C, 0x01]);
    assert_eq!(<Vec<i8> as ParamType>::from_bytes(&[0xFF, 1]), Ok(vec![-1, 1]));
    assert_eq!(<Vec<i32> as ParamType>::from_bytes(&[0x80, 0x02, 0, 0]), Ok(vec![640]));
    assert_eq!(<Vec<i64> as ParamType>::from_bytes(&[]), Ok(vec![]));
}

#[test]
fn data_to_bytes_and_tags() {
    assert_eq!(Data::Void.to_bytes(), Vec::<u8>::new());
    assert_eq!(Data::Void.get_type(), 0);
    assert_eq!(Data::Bool(true).to_bytes(), vec![1]);
    assert_eq!(Data::Bool(false).to_bytes(), vec![0]);
    assert_eq!(Data::SignedByte(vec![-1]).get_type(), 1);
    assert_eq!(Data::Signed16(vec![300]).get_type(), 2);
    assert_eq!(Data::Signed32(vec![640]).to_bytes(), vec![0x80, 0x02, 0, 0]);
    assert_eq!(Data::Signed32(vec![640]).get_type(), 3);
    assert_eq!(Data::Signed64(vec![1]).get_type(), 4);
    assert_eq!(Data::Text(String::from("ok")).get_type(), 5);
    assert_eq!(Data::FixedPoint(vec![2048]).get_type(), 128);
    assert_eq!(Data::FixedPoint(vec![2048]).to_bytes(), vec![0x00, 0x08]);
    assert_eq!(Data::Undefined.get_type(), 255);
}

#[test]
fn data_decode_by_tag() {
    // The length byte counts four id bytes plus the payload.
    assert_eq!(Data::decode(4, 0, vec![]), Ok(Data::Void));
    assert_eq!(Data::decode(5, 0, vec![1]), Ok(Data::Bool(true)));
    assert_eq!(Data::decode(5, 0, vec![0]), Ok(Data::Bool(false)));
    assert_eq!(Data::decode(5, 1, vec![0xFF]), Ok(Data::SignedByte(vec![-1])));
    assert_eq!(Data::decode(8, 3, vec![0x80, 0x02, 0, 0]), Ok(Data::Signed32(vec![640])));
    assert_eq!(Data::decode(6, 128, vec![0x00, 0x08]), Ok(Data::FixedPoint(vec![2048])));
    assert_eq!(Data::decode(6, 6, vec![0, 0]), Ok(Data::Undefined));
    assert_eq!(Data::decode(7, 2, vec![1, 2, 3]), Err(CommandError::LengthMismatch));
    assert_eq!(Data::decode(3, 0, vec![]), Err(CommandError::LengthMismatch));
    assert_eq!(Data::decode(9, 2, vec![1, 2]), Err(CommandError::LengthMismatch));
    assert_eq!(Data::decode(6, 5, vec![0xFF, 0xFE]), Err(CommandError::TextDecodeError));
    assert_eq!(Data::decode(6, 5, vec![0x6F, 0x6B]), Ok(Data::Text(String::from("ok"))));
}

#[test]
fn text_multibyte_round_trip() {
    let s = String::from("caméra");
    let bytes = ParamType::to_bytes(&s);
    assert_eq!(bytes, "caméra".as_bytes().to_vec());
    assert_eq!(<String as ParamType>::from_bytes(&bytes), Ok(s));
}
