use dicom_decode::errors::DecodeError;
use dicom_decode::readers::{
    read_2, read_bytes, read_i16, read_i32, read_rewind_u16, read_str, read_u16, read_u32, ByteCursor,
};
use dicom_decode::transfer_syntax::{not_compressed, try_name, EndianEncoding, TransferSyntax, VrEncoding};
use dicom_decode::vr_type::{get_explicit_vr, get_implicit_vr, get_vr_type, VrType};

#[test]
fn transfer_syntax_uids_parse() {
    assert_eq!(
        TransferSyntax::parse_str("1.2.840.10008.1.2.1"),
        TransferSyntax { vr_encoding: VrEncoding::Explicit, endian_encoding: EndianEncoding::LittleEndian }
    );
    assert_eq!(
        TransferSyntax::parse_str("1.2.840.10008.1.2"),
        TransferSyntax { vr_encoding: VrEncoding::Implicit, endian_encoding: EndianEncoding::LittleEndian }
    );
    assert_eq!(
        TransferSyntax::parse_str("1.2.840.10008.1.2.2"),
        TransferSyntax { vr_encoding: VrEncoding::Explicit, endian_encoding: EndianEncoding::BigEndian }
    );
    for other in ["", "1.2.840.10008.1.2.4.50", "1.2.840.10008.1.2\0", "garbage"] {
        assert_eq!(TransferSyntax::parse_str(other), TransferSyntax::default());
    }
    assert_eq!(
        TransferSyntax::default(),
        TransferSyntax { vr_encoding: VrEncoding::Explicit, endian_encoding: EndianEncoding::LittleEndian }
    );
}

#[test]
fn compressed_syntaxes_are_told_apart() {
    assert!(not_compressed(Some("1.2.840.10008.1.2")));
    assert!(not_compressed(Some("1.2.840.10008.1.2.1")));
    assert!(not_compressed(Some("1.2.840.10008.1.2.2")));
    assert!(!not_compressed(Some("1.2.840.10008.1.2.4.50")));
    assert!(!not_compressed(None));
}

#[test]
fn sop_class_names_are_found() {
    assert_eq!(try_name("1.2.840.10008.5.1.4.1.1.2"), Some("Computed Tomography Image"));
    assert_eq!(try_name("1.2.840.10008.1.1"), Some("Verification"));
    assert_eq!(try_name("1.2.840.10008.5.1.4.1.1.12.2"), Some("X-Ray Radiofluoroscopic"));
    assert_eq!(try_name("9.9"), None);
}

#[test]
fn vr_codes_resolve() {
    assert_eq!(get_vr_type(b"US"), VrType::UnsignedShort);
    assert_eq!(get_vr_type(b"LO"), VrType::LongString);
    assert_eq!(get_vr_type(b"SQ"), VrType::SequenceOfItems);
    assert_eq!(get_vr_type(b"DL"), VrType::Delimiter);
    assert_eq!(get_vr_type(b"??"), VrType::Unknown);
    assert_eq!(get_implicit_vr(u16::from_le_bytes(*b"UI")), VrType::Uid);
    assert_eq!(get_implicit_vr(u16::from_le_bytes(*b"FD")), VrType::Double);
}

#[test]
fn explicit_vr_reads_its_length_field() {
    let mut reader = ByteCursor::new(vec![0x04, 0x00, 0xAA]);
    assert_eq!(
        get_explicit_vr(u16::from_le_bytes(*b"PN"), &mut reader, EndianEncoding::LittleEndian),
        Ok((VrType::PersonName, Some(4)))
    );
    assert_eq!(reader.pos(), 2);

    let mut reader = ByteCursor::new(vec![0, 0, 0xFF, 0xFF, 0xFF, 0xFF]);
    assert_eq!(
        get_explicit_vr(u16::from_le_bytes(*b"SQ"), &mut reader, EndianEncoding::LittleEndian),
        Ok((VrType::SequenceOfItems, None))
    );
    assert_eq!(reader.pos(), 6);

    let mut reader = ByteCursor::new(vec![0, 0, 0, 0, 1, 0]);
    assert_eq!(
        get_explicit_vr(u16::from_le_bytes(*b"OB"), &mut reader, EndianEncoding::BigEndian),
        Ok((VrType::OtherByte, Some(256)))
    );
}

#[test]
fn fixed_width_reads() {
    let mut reader = ByteCursor::new(vec![0x01, 0x02, 0xFF, 0xFF, 0x78, 0x56, 0x34, 0x12, 0xFE, 0xFF, 0xFF, 0xFF]);
    assert_eq!(read_rewind_u16(&mut reader), Ok(0x0201));
    assert_eq!(reader.pos(), 0);
    assert_eq!(read_u16(&mut reader, EndianEncoding::BigEndian), Ok(0x0102));
    assert_eq!(read_i16(&mut reader, EndianEncoding::LittleEndian), Ok(-1));
    assert_eq!(read_u32(&mut reader, EndianEncoding::LittleEndian), Ok(0x1234_5678));
    assert_eq!(read_i32(&mut reader, EndianEncoding::LittleEndian), Ok(-2));
    assert_eq!(read_u16(&mut reader, EndianEncoding::LittleEndian), Err(DecodeError::UnexpectedEnd));
    assert_eq!(reader.pos(), 12);
}

#[test]
fn byte_and_text_reads() {
    let mut reader = ByteCursor::new(b"DICMab\xFF".to_vec());
    assert_eq!(read_str(&mut reader, 4), Ok(String::from("DICM")));
    assert_eq!(read_2(&mut reader), Ok(*b"ab"));
    assert_eq!(read_str(&mut reader, 1), Err(DecodeError::InvalidText));
    assert_eq!(reader.pos(), 6);
    assert_eq!(read_bytes(&mut reader, 2), Err(DecodeError::UnexpectedEnd));
    assert_eq!(read_bytes(&mut reader, 1), Ok(vec![0xFF]));
    assert_eq!(read_2(&mut reader), Err(DecodeError::UnexpectedEnd));
}
