use dicom_decode::dicom_reader::next_tag;
use dicom_decode::dicom_tag::{TagMarker, TagValue};
use dicom_decode::errors::DecodeError;
use dicom_decode::readers::ByteCursor;
use dicom_decode::transfer_syntax::{EndianEncoding, TransferSyntax, VrEncoding};
use dicom_decode::vr_type::VrType;

fn explicit_le() -> TransferSyntax {
    TransferSyntax { vr_encoding: VrEncoding::Explicit, endian_encoding: EndianEncoding::LittleEndian }
}

fn implicit_le() -> TransferSyntax {
    TransferSyntax { vr_encoding: VrEncoding::Implicit, endian_encoding: EndianEncoding::LittleEndian }
}

fn explicit_be() -> TransferSyntax {
    TransferSyntax { vr_encoding: VrEncoding::Explicit, endian_encoding: EndianEncoding::BigEndian }
}

/// An explicit-VR little-endian element with a 16-bit length field.
fn short_element(group: u16, element: u16, vr: &[u8; 2], value: &[u8]) -> Vec<u8> {
    let mut out = Vec::new();
    out.extend_from_slice(&group.to_le_bytes());
    out.extend_from_slice(&element.to_le_bytes());
    out.extend_from_slice(vr);
    out.extend_from_slice(&(value.len() as u16).to_le_bytes());
    out.extend_from_slice(value);
    out
}

/// An explicit-VR little-endian element with reserved bytes and a 32-bit
/// length field.
fn long_element(group: u16, element: u16, vr: &[u8; 2], length: u32, value: &[u8]) -> Vec<u8> {
    let mut out = Vec::new();
    out.extend_from_slice(&group.to_le_bytes());
    out.extend_from_slice(&element.to_le_bytes());
    out.extend_from_slice(vr);
    out.extend_from_slice(&[0, 0]);
    out.extend_from_slice(&length.to_le_bytes());
    out.extend_from_slice(value);
    out
}

/// An implicit-VR little-endian element.
fn implicit_element(group: u16, element: u16, length: u32, value: &[u8]) -> Vec<u8> {
    let mut out = Vec::new();
    out.extend_from_slice(&group.to_le_bytes());
    out.extend_from_slice(&element.to_le_bytes());
    out.extend_from_slice(&length.to_le_bytes());
    out.extend_from_slice(value);
    out
}

#[test]
fn unsigned_short_element_decodes_to_its_value() {
    let bytes = short_element(0x0028, 0x0010, b"US", &[0x2A, 0x00]);
    let mut reader = ByteCursor::new(bytes);
    let tag = next_tag(&mut reader, explicit_le()).unwrap();
    assert_eq!(tag.group, 0x0028);
    assert_eq!(tag.element, 0x0010);
    assert_eq!(tag.vr, VrType::UnsignedShort);
    assert_eq!(tag.value, TagValue::U16(42));
    assert_eq!(tag.marker, TagMarker { value_length: Some(2), stream_position: 8 });
    assert_eq!(reader.pos(), 10);
}

#[test]
fn numeric_length_not_a_multiple_is_malformed() {
    let bytes = short_element(0x0028, 0x0010, b"US", &[0x2A, 0x00, 0x01]);
    let mut reader = ByteCursor::new(bytes);
    assert_eq!(next_tag(&mut reader, explicit_le()), Err(DecodeError::MalformedLength));
    assert_eq!(reader.pos(), 0);

    let bytes = short_element(0x0018, 0x0000, b"UL", &[1, 2, 3, 4, 5, 6]);
    let mut reader = ByteCursor::new(bytes);
    assert_eq!(next_tag(&mut reader, explicit_le()), Err(DecodeError::MalformedLength));

    // Declared length 3 for a double, with fewer bytes present than declared.
    let mut bytes = short_element(0x0018, 0x0000, b"FD", &[]);
    bytes[6] = 3;
    let mut reader = ByteCursor::new(bytes);
    assert_eq!(next_tag(&mut reader, explicit_le()), Err(DecodeError::MalformedLength));
}

#[test]
fn numeric_multiplicity_above_one_keeps_raw_bytes() {
    let bytes = short_element(0x0028, 0x0010, b"US", &[1, 0, 2, 0]);
    let mut reader = ByteCursor::new(bytes);
    let tag = next_tag(&mut reader, explicit_le()).unwrap();
    assert_eq!(tag.value, TagValue::Numbers(vec![1, 0, 2, 0]));

    let bytes = short_element(0x0028, 0x0010, b"US", &[]);
    let mut reader = ByteCursor::new(bytes);
    let tag = next_tag(&mut reader, explicit_le()).unwrap();
    assert_eq!(tag.value, TagValue::Numbers(vec![]));
}

#[test]
fn numeric_scalars_of_each_width() {
    let bytes = short_element(0x0018, 0x1000, b"SS", &[0xFE, 0xFF]);
    let tag = next_tag(&mut ByteCursor::new(bytes), explicit_le()).unwrap();
    assert_eq!(tag.value, TagValue::I16(-2));

    let bytes = short_element(0x0018, 0x1000, b"UL", &[0x78, 0x56, 0x34, 0x12]);
    let tag = next_tag(&mut ByteCursor::new(bytes), explicit_le()).unwrap();
    assert_eq!(tag.value, TagValue::U32(0x1234_5678));

    let bytes = short_element(0x0018, 0x1000, b"SL", &[0xFF, 0xFF, 0xFF, 0xFF]);
    let tag = next_tag(&mut ByteCursor::new(bytes), explicit_le()).unwrap();
    assert_eq!(tag.value, TagValue::I32(-1));

    let bytes = short_element(0x0018, 0x1000, b"FL", &1.5f32.to_le_bytes());
    let tag = next_tag(&mut ByteCursor::new(bytes), explicit_le()).unwrap();
    match tag.value {
        TagValue::F32Bits(bits) => assert_eq!(f32::from_bits(bits), 1.5f32),
        other => panic!("unexpected value {:?}", other),
    }

    let bytes = short_element(0x0018, 0x1000, b"FD", &(-0.25f64).to_le_bytes());
    let tag = next_tag(&mut ByteCursor::new(bytes), explicit_le()).unwrap();
    match tag.value {
        TagValue::F64Bits(bits) => assert_eq!(f64::from_bits(bits), -0.25f64),
        other => panic!("unexpected value {:?}", other),
    }
}

#[test]
fn meta_group_element_decodes_explicit_under_implicit_syntax() {
    let uid = b"1.2.840.10008.1.2\0";
    let bytes = short_element(0x0002, 0x0010, b"UI", uid);
    let mut reader = ByteCursor::new(bytes.clone());
    let tag = next_tag(&mut reader, implicit_le()).unwrap();
    assert_eq!(tag.syntax, TransferSyntax::default());
    assert_eq!(tag.vr, VrType::Uid);
    assert_eq!(tag.value, TagValue::Text(String::from("1.2.840.10008.1.2\0")));
    assert_eq!(reader.pos(), bytes.len());

    let mut again = ByteCursor::new(bytes);
    assert_eq!(next_tag(&mut again, TransferSyntax::default()).unwrap(), tag);
}

#[test]
fn big_endian_element_decodes_in_its_byte_order() {
    let bytes = vec![0x00, 0x28, 0x00, 0x11, b'U', b'S', 0x00, 0x02, 0x01, 0x00];
    let tag = next_tag(&mut ByteCursor::new(bytes), explicit_be()).unwrap();
    assert_eq!(tag.group, 0x0028);
    assert_eq!(tag.element, 0x0011);
    assert_eq!(tag.value, TagValue::U16(256));
    assert_eq!(tag.syntax, explicit_be());
}

#[test]
fn implicit_element_takes_its_vr_from_the_dictionary() {
    let bytes = implicit_element(0x0028, 0x0011, 2, &[0x00, 0x02]);
    let tag = next_tag(&mut ByteCursor::new(bytes), implicit_le()).unwrap();
    assert_eq!(tag.vr, VrType::UnsignedShort);
    assert_eq!(tag.value, TagValue::U16(512));

    let bytes = implicit_element(0x0010, 0x0010, 4, b"DOE^");
    let tag = next_tag(&mut ByteCursor::new(bytes), implicit_le()).unwrap();
    assert_eq!(tag.vr, VrType::PersonName);
    assert_eq!(tag.value, TagValue::Text(String::from("DOE^")));

    let bytes = implicit_element(0x0009, 0x0010, 2, b"AB");
    let tag = next_tag(&mut ByteCursor::new(bytes), implicit_le()).unwrap();
    assert_eq!(tag.vr, VrType::LongString);

    let bytes = implicit_element(0x0009, 0x1001, 2, &[7, 8]);
    let tag = next_tag(&mut ByteCursor::new(bytes), implicit_le()).unwrap();
    assert_eq!(tag.vr, VrType::Unknown);
    assert_eq!(tag.value, TagValue::Bytes(vec![7, 8]));

    let bytes = implicit_element(0x0011, 0x0000, 4, &[1, 0, 0, 0]);
    let tag = next_tag(&mut ByteCursor::new(bytes), implicit_le()).unwrap();
    assert_eq!(tag.vr, VrType::LongString);

    let bytes = implicit_element(0x0010, 0x0000, 4, &[1, 0, 0, 0]);
    let tag = next_tag(&mut ByteCursor::new(bytes), implicit_le()).unwrap();
    assert_eq!(tag.value, TagValue::U32(1));
}

#[test]
fn numeric_strings_count_their_values() {
    let bytes = short_element(0x0028, 0x0030, b"DS", b"0.5\\0.25");
    let tag = next_tag(&mut ByteCursor::new(bytes), explicit_le()).unwrap();
    assert_eq!(tag.value, TagValue::Multiple(2, String::from("0.5\\0.25")));

    let bytes = short_element(0x0020, 0x0013, b"IS", b"12");
    let tag = next_tag(&mut ByteCursor::new(bytes), explicit_le()).unwrap();
    assert_eq!(tag.value, TagValue::Text(String::from("12")));

    let bytes = short_element(0x0010, 0x0020, b"LO", b"a\\b\\c ");
    let tag = next_tag(&mut ByteCursor::new(bytes), explicit_le()).unwrap();
    assert_eq!(tag.vr, VrType::LongString);
    assert_eq!(tag.value, TagValue::Multiple(3, String::from("a\\b\\c ")));

    // Backslashes in a textual VR that is not a numeric string are kept as text.
    let bytes = short_element(0x0008, 0x0008, b"CS", b"A\\B");
    let tag = next_tag(&mut ByteCursor::new(bytes), explicit_le()).unwrap();
    assert_eq!(tag.value, TagValue::Text(String::from("A\\B")));
}

#[test]
fn attribute_and_opaque_values() {
    let bytes = short_element(0x0020, 0x5000, b"AT", &[0x28, 0x00, 0x10, 0x00]);
    let tag = next_tag(&mut ByteCursor::new(bytes), explicit_le()).unwrap();
    assert_eq!(tag.value, TagValue::Attribute(0x0028, 0x0010));

    let bytes = long_element(0x7FE0, 0x0010, b"OW", 4, &[1, 2, 3, 4]);
    let mut reader = ByteCursor::new(bytes);
    let tag = next_tag(&mut reader, explicit_le()).unwrap();
    assert_eq!(tag.value, TagValue::Bytes(vec![1, 2, 3, 4]));
    assert_eq!(tag.marker, TagMarker { value_length: Some(4), stream_position: 12 });
    assert_eq!(reader.pos(), 16);

    let bytes = long_element(0x0008, 0x0119, b"UT", 5, b"hello");
    let tag = next_tag(&mut ByteCursor::new(bytes), explicit_le()).unwrap();
    assert_eq!(tag.vr, VrType::UnlimitedText);
    assert_eq!(tag.value, TagValue::Text(String::from("hello")));

    // An unknown code is read as Unknown, with the long length form.
    let bytes = long_element(0x0009, 0x1002, b"ZZ", 2, &[9, 9]);
    let tag = next_tag(&mut ByteCursor::new(bytes), explicit_le()).unwrap();
    assert_eq!(tag.vr, VrType::Unknown);
    assert_eq!(tag.value, TagValue::Bytes(vec![9, 9]));
}

#[test]
fn sequences_and_delimiters_carry_no_value() {
    let bytes = long_element(0x0008, 0x1140, b"SQ", 0xFFFF_FFFF, &[]);
    let tag = next_tag(&mut ByteCursor::new(bytes), explicit_le()).unwrap();
    assert_eq!(tag.vr, VrType::SequenceOfItems);
    assert_eq!(tag.value, TagValue::Ignored);
    assert_eq!(tag.marker.value_length, None);

    let bytes = implicit_element(0xFFFE, 0xE000, 0xFFFF_FFFF, &[]);
    let tag = next_tag(&mut ByteCursor::new(bytes.clone()), explicit_le()).unwrap();
    assert_eq!(tag.vr, VrType::Delimiter);
    assert_eq!(tag.value, TagValue::Ignored);
    let again = next_tag(&mut ByteCursor::new(bytes), implicit_le()).unwrap();
    assert_eq!(again.vr, VrType::Delimiter);
    assert_eq!(again.marker, TagMarker { value_length: None, stream_position: 8 });
}

#[test]
fn each_decode_error_has_an_input() {
    let mut reader = ByteCursor::new(vec![0x28, 0x00, 0x10]);
    assert_eq!(next_tag(&mut reader, explicit_le()), Err(DecodeError::UnexpectedEnd));

    let bytes = short_element(0x0010, 0x0010, b"PN", b"DOE");
    let truncated = bytes[..bytes.len() - 1].to_vec();
    let mut reader = ByteCursor::new(truncated);
    assert_eq!(next_tag(&mut reader, explicit_le()), Err(DecodeError::UnexpectedEnd));
    assert_eq!(reader.pos(), 0);

    let bytes = long_element(0x7FE0, 0x0010, b"OB", 0x8000_0000, &[]);
    assert_eq!(next_tag(&mut ByteCursor::new(bytes), explicit_le()), Err(DecodeError::NegativeLength));

    let bytes = implicit_element(0x0028, 0x0010, 0xFFFF_FFFF, &[]);
    assert_eq!(next_tag(&mut ByteCursor::new(bytes), implicit_le()), Err(DecodeError::UndefinedLength));

    let bytes = short_element(0x0010, 0x0010, b"PN", &[0xFF, 0xFE]);
    let mut reader = ByteCursor::new(bytes);
    assert_eq!(next_tag(&mut reader, explicit_le()), Err(DecodeError::InvalidText));
    assert_eq!(reader.pos(), 0);

    let bytes = short_element(0x0010, 0x1020, b"DS", &[0xC3]);
    assert_eq!(next_tag(&mut ByteCursor::new(bytes), explicit_le()), Err(DecodeError::InvalidText));
}

#[test]
fn text_values_decode_utf8() {
    let bytes = short_element(0x0010, 0x0010, b"PN", "Zoë".as_bytes());
    let tag = next_tag(&mut ByteCursor::new(bytes), explicit_le()).unwrap();
    assert_eq!(tag.value, TagValue::Text(String::from("Zoë")));
}

#[test]
fn transfer_syntax_uid_switches_syntax() {
    let bytes = short_element(0x0002, 0x0010, b"UI", b"1.2.840.10008.1.2.2");
    let tag = next_tag(&mut ByteCursor::new(bytes), explicit_le()).unwrap();
    assert_eq!(tag.try_transfer_syntax(), Ok(Some(explicit_be())));

    let bytes = short_element(0x0002, 0x0010, b"UL", &[0, 0, 0, 0]);
    let tag = next_tag(&mut ByteCursor::new(bytes), explicit_le()).unwrap();
    assert_eq!(tag.try_transfer_syntax(), Err(DecodeError::NonTextualTransferSyntax));

    let bytes = short_element(0x0002, 0x0012, b"UI", b"1.2.840.10008.1.2");
    let tag = next_tag(&mut ByteCursor::new(bytes), explicit_le()).unwrap();
    assert_eq!(tag.try_transfer_syntax(), Ok(None));
}
