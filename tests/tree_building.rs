use dicom_decode::dicom::{load_container, parse, parse_tags};
use dicom_decode::dicom_handlers::{DicomContainer, DicomDumper, DicomHandler};
use dicom_decode::dicom_tag::TagValue;
use dicom_decode::errors::DecodeError;
use dicom_decode::readers::ByteCursor;
use dicom_decode::transfer_syntax::{EndianEncoding, TransferSyntax, VrEncoding};
use dicom_decode::vr_type::VrType;

fn short_element(group: u16, element: u16, vr: &[u8; 2], value: &[u8]) -> Vec<u8> {
    let mut out = Vec::new();
    out.extend_from_slice(&group.to_le_bytes());
    out.extend_from_slice(&element.to_le_bytes());
    out.extend_from_slice(vr);
    out.extend_from_slice(&(value.len() as u16).to_le_bytes());
    out.extend_from_slice(value);
    out
}

fn long_element(group: u16, element: u16, vr: &[u8; 2], length: u32) -> Vec<u8> {
    let mut out = Vec::new();
    out.extend_from_slice(&group.to_le_bytes());
    out.extend_from_slice(&element.to_le_bytes());
    out.extend_from_slice(vr);
    out.extend_from_slice(&[0, 0]);
    out.extend_from_slice(&length.to_le_bytes());
    out
}

fn delimiter(element: u16, length: u32) -> Vec<u8> {
    let mut out = Vec::new();
    out.extend_from_slice(&0xFFFEu16.to_le_bytes());
    out.extend_from_slice(&element.to_le_bytes());
    out.extend_from_slice(&length.to_le_bytes());
    out
}

fn implicit_element(group: u16, element: u16, value: &[u8]) -> Vec<u8> {
    let mut out = Vec::new();
    out.extend_from_slice(&group.to_le_bytes());
    out.extend_from_slice(&element.to_le_bytes());
    out.extend_from_slice(&(value.len() as u32).to_le_bytes());
    out.extend_from_slice(value);
    out
}

/// A sequence of undefined length holding two items of undefined length,
/// each closed by an item delimiter, then the sequence delimiter, then one
/// more top-level element.
fn sequence_stream() -> Vec<u8> {
    let mut bytes = Vec::new();
    bytes.extend(long_element(0x0008, 0x1140, b"SQ", 0xFFFF_FFFF));
    bytes.extend(delimiter(0xE000, 0xFFFF_FFFF));
    bytes.extend(short_element(0x0008, 0x1150, b"UI", b"1.2"));
    bytes.extend(delimiter(0xE00D, 0));
    bytes.extend(delimiter(0xE000, 0xFFFF_FFFF));
    bytes.extend(short_element(0x0008, 0x1155, b"UI", b"3.4"));
    bytes.extend(delimiter(0xE00D, 0));
    bytes.extend(delimiter(0xE0DD, 0));
    bytes.extend(short_element(0x0010, 0x0010, b"PN", b"DOE^JOHN"));
    bytes
}

fn tag_of(container: &DicomContainer, index: usize) -> (u16, u16) {
    let tag = container.nodes[index].tag.as_ref().unwrap();
    (tag.group, tag.element)
}

#[test]
fn undefined_length_sequence_with_two_items() {
    let mut reader = ByteCursor::new(sequence_stream());
    let mut container = DicomContainer::new();
    assert_eq!(parse(&mut reader, &mut container), Ok(9));
    assert_eq!(container.nodes.len(), 10);

    // The root holds the sequence and the element after it.
    assert_eq!(container.nodes[0].children, vec![1, 9]);
    assert_eq!(tag_of(&container, 9), (0x0010, 0x0010));

    // The sequence holds exactly two item subtrees, then its delimiter.
    let sequence = &container.nodes[1];
    assert_eq!(sequence.tag.as_ref().unwrap().vr, VrType::SequenceOfItems);
    assert_eq!(sequence.children, vec![2, 5, 8]);
    assert_eq!(tag_of(&container, 2), (0xFFFE, 0xE000));
    assert_eq!(tag_of(&container, 5), (0xFFFE, 0xE000));

    // Each item holds its element and its item delimiter.
    assert_eq!(container.nodes[2].children, vec![3, 4]);
    assert_eq!(tag_of(&container, 3), (0x0008, 0x1150));
    assert_eq!(tag_of(&container, 4), (0xFFFE, 0xE00D));
    assert_eq!(container.nodes[5].children, vec![6, 7]);
    assert_eq!(tag_of(&container, 6), (0x0008, 0x1155));
    assert_eq!(tag_of(&container, 7), (0xFFFE, 0xE00D));

    // The sequence delimiter has no descendants.
    assert_eq!(tag_of(&container, 8), (0xFFFE, 0xE0DD));
    assert!(container.nodes[8].children.is_empty());
}

#[test]
fn defined_length_sequence_ends_at_its_length() {
    let mut item = delimiter(0xE000, 11);
    item.extend(short_element(0x0008, 0x1150, b"UI", b"1.2"));
    let mut bytes = long_element(0x0008, 0x1140, b"SQ", item.len() as u32);
    bytes.extend(item);
    bytes.extend(short_element(0x0010, 0x0010, b"PN", b"DOE"));
    let mut reader = ByteCursor::new(bytes);
    let mut container = DicomContainer::new();
    assert_eq!(parse(&mut reader, &mut container), Ok(4));
    assert_eq!(container.nodes[0].children, vec![1, 4]);
    assert_eq!(container.nodes[1].children, vec![2]);
    assert_eq!(container.nodes[2].children, vec![3]);
}

#[test]
fn sequence_longer_than_the_stream_is_an_error() {
    let mut bytes = long_element(0x0008, 0x1140, b"SQ", 100);
    bytes.extend(delimiter(0xE000, 0));
    let mut reader = ByteCursor::new(bytes);
    let mut container = DicomContainer::new();
    assert_eq!(parse(&mut reader, &mut container), Err(DecodeError::UnexpectedEnd));
    // The sequence element itself was decoded and handed over.
    assert_eq!(container.nodes.len(), 2);
    assert_eq!(container.nodes[0].children, vec![1]);
}

#[test]
fn redecoding_gives_identical_trees() {
    let bytes = sequence_stream();
    let mut first = DicomContainer::new();
    let mut second = DicomContainer::new();
    let mut reader = ByteCursor::new(bytes);
    assert_eq!(parse(&mut reader, &mut first), Ok(9));
    reader.seek(0);
    assert_eq!(parse(&mut reader, &mut second), Ok(9));
    assert_eq!(first.nodes, second.nodes);

    reader.seek(0);
    let loaded = load_container(&mut reader).unwrap();
    reader.seek(0);
    let reloaded = load_container(&mut reader).unwrap();
    assert_eq!(loaded.nodes, reloaded.nodes);
    assert_eq!(loaded.nodes, first.nodes);
}

#[test]
fn load_container_reports_decode_errors() {
    let mut reader = ByteCursor::new(short_element(0x0002, 0x0010, b"UL", &[1, 0, 0, 0]));
    assert!(matches!(load_container(&mut reader), Err(DecodeError::NonTextualTransferSyntax)));
    let mut reader = ByteCursor::new(vec![0x10, 0x00, 0x10]);
    assert!(matches!(load_container(&mut reader), Err(DecodeError::UnexpectedEnd)));
    let mut reader = ByteCursor::new(Vec::new());
    let empty = load_container(&mut reader).unwrap();
    assert_eq!(empty.nodes, DicomContainer::new().nodes);
}

#[test]
fn limit_after_first_element_stops_the_level() {
    let mut bytes = long_element(0x0008, 0x1140, b"SQ", 0xFFFF_FFFF);
    let first_end = bytes.len();
    bytes.extend(delimiter(0xE000, 0xFFFF_FFFF));
    bytes.extend(short_element(0x0010, 0x0010, b"PN", b"DOE"));
    let mut reader = ByteCursor::new(bytes);
    let mut events = Vec::new();
    assert_eq!(parse_tags(&mut reader, TransferSyntax::default(), first_end, &mut events), Ok(()));
    assert_eq!(events.len(), 1);
    assert_eq!(events[0].parent, 0);
    assert_eq!(events[0].tag.vr, VrType::SequenceOfItems);
    assert_eq!(reader.pos(), first_end);

    let mut plain = short_element(0x0010, 0x0010, b"PN", b"DOE");
    let end = plain.len();
    plain.extend(short_element(0x0010, 0x0020, b"LO", b"ID"));
    let mut reader = ByteCursor::new(plain);
    let mut events = Vec::new();
    assert_eq!(parse_tags(&mut reader, TransferSyntax::default(), end, &mut events), Ok(()));
    assert_eq!(events.len(), 1);
    assert_eq!(reader.pos(), end);
}

#[test]
fn preamble_and_magic_are_skipped() {
    let mut bytes = vec![0u8; 128];
    bytes.extend_from_slice(b"DICM");
    bytes.extend(short_element(0x0002, 0x0010, b"UI", b"1.2.840.10008.1.2"));
    bytes.extend(implicit_element(0x0028, 0x0010, &[0x00, 0x01]));
    let mut reader = ByteCursor::new(bytes);
    let mut container = DicomContainer::new();
    assert_eq!(parse(&mut reader, &mut container), Ok(2));
    let rows = container.nodes[2].tag.as_ref().unwrap();
    assert_eq!(rows.vr, VrType::UnsignedShort);
    assert_eq!(rows.value, TagValue::U16(256));
    assert_eq!(
        rows.syntax,
        TransferSyntax { vr_encoding: VrEncoding::Implicit, endian_encoding: EndianEncoding::LittleEndian }
    );
}

#[test]
fn stream_without_preamble_starts_at_zero() {
    let bytes = short_element(0x0010, 0x0010, b"PN", b"DOE");
    let mut reader = ByteCursor::new(bytes);
    let mut dumper = DicomDumper::new();
    assert_eq!(parse(&mut reader, &mut dumper), Ok(1));
    assert_eq!(dumper.len(), 1);

    let mut reader = ByteCursor::new(Vec::new());
    let mut dumper = DicomDumper::new();
    assert_eq!(parse(&mut reader, &mut dumper), Ok(0));
    assert_eq!(dumper.len(), 0);
}

#[test]
fn elements_before_a_fatal_one_are_delivered() {
    let mut bytes = short_element(0x0010, 0x0010, b"PN", b"DOE");
    bytes.extend(short_element(0x0010, 0x0020, b"LO", b"ID"));
    bytes.extend(short_element(0x0002, 0x0010, b"UL", &[1, 0, 0, 0]));
    bytes.extend(short_element(0x0010, 0x0030, b"DA", b"20000101"));
    let mut reader = ByteCursor::new(bytes.clone());
    let mut dumper = DicomDumper::new();
    assert_eq!(parse(&mut reader, &mut dumper), Err(DecodeError::NonTextualTransferSyntax));
    assert_eq!(dumper.len(), 2);

    let mut reader = ByteCursor::new(bytes);
    let mut events = Vec::new();
    let limit = reader.len();
    assert_eq!(
        parse_tags(&mut reader, TransferSyntax::default(), limit, &mut events),
        Err(DecodeError::NonTextualTransferSyntax)
    );
    assert_eq!(events.len(), 2);
    assert_eq!(events[1].tag.element, 0x0020);
}

#[test]
fn meta_element_under_implicit_level_is_read_explicit() {
    let mut bytes = short_element(0x0002, 0x0013, b"SH", b"ABCD");
    let first_end = bytes.len();
    bytes.extend(implicit_element(0x0028, 0x0010, &[0x00, 0x01]));
    let implicit =
        TransferSyntax { vr_encoding: VrEncoding::Implicit, endian_encoding: EndianEncoding::LittleEndian };
    let mut reader = ByteCursor::new(bytes);
    let mut events = Vec::new();
    let limit = reader.len();
    assert_eq!(parse_tags(&mut reader, implicit, limit, &mut events), Ok(()));
    assert_eq!(events.len(), 2);
    assert_eq!((events[0].tag.group, events[0].tag.element), (0x0002, 0x0013));
    assert_eq!(events[0].tag.vr, VrType::ShortString);
    assert_eq!(events[0].tag.syntax, TransferSyntax::default());
    assert_eq!(events[0].tag.value, TagValue::Text(String::from("ABCD")));
    assert_eq!(first_end, 8 + 4);
    assert_eq!(events[1].tag.syntax, implicit);
    assert_eq!(events[1].tag.value, TagValue::U16(256));
    assert_eq!(reader.pos(), limit);
}

#[test]
fn non_textual_transfer_syntax_stops_parsing() {
    let bytes = short_element(0x0002, 0x0010, b"UL", &[1, 0, 0, 0]);
    let mut reader = ByteCursor::new(bytes);
    let mut dumper = DicomDumper::new();
    assert_eq!(parse(&mut reader, &mut dumper), Err(DecodeError::NonTextualTransferSyntax));
    assert_eq!(dumper.len(), 0);
}

#[test]
fn dumper_numbers_elements_from_one() {
    let mut dumper = DicomDumper::new();
    let tag = dicom_decode::dicom_reader::next_tag(
        &mut ByteCursor::new(short_element(0x0010, 0x0010, b"PN", b"A")),
        TransferSyntax::default(),
    )
    .unwrap();
    assert_eq!(dumper.handle_tag(0, tag.clone()), 1);
    assert_eq!(dumper.handle_tag(1, tag), 2);
    assert_eq!(dumper.len(), 2);
}

#[test]
fn container_links_children_to_parents() {
    let tag = dicom_decode::dicom_reader::next_tag(
        &mut ByteCursor::new(short_element(0x0010, 0x0010, b"PN", b"A")),
        TransferSyntax::default(),
    )
    .unwrap();
    let mut container = DicomContainer::new();
    assert_eq!(container.handle_tag(0, tag.clone()), 1);
    assert_eq!(container.handle_tag(1, tag.clone()), 2);
    assert_eq!(container.handle_tag(7, tag), 3);
    assert_eq!(container.nodes[0].children, vec![1]);
    assert_eq!(container.nodes[1].children, vec![2]);
    assert!(container.nodes[2].children.is_empty());
    assert!(container.nodes[3].children.is_empty());
}
