//! Well-known tags and the tag dictionary that implicit encoding relies on.
use vstd::prelude::*;

use crate::vr_type::VrType;

verus! {

/// Group of the file meta information, always encoded explicit VR little
/// endian.
pub const META_GROUP: u16 = 0x0002;

/// Element number of the Transfer Syntax UID within the meta group.
pub const TRANSFER_SYNTAX_UID_ELEMENT: u16 = 0x0010;

/// Group of the item and delimiter tags.
pub const DELIMITER_GROUP: u16 = 0xFFFE;

/// Element number of an Item tag.
pub const ITEM: u16 = 0xE000;

/// Element number of an Item Delimitation tag.
pub const ITEM_DELIMITER: u16 = 0xE00D;

/// Element number of a Sequence Delimitation tag.
pub const SEQUENCE_DELIMITER: u16 = 0xE0DD;

/// Item, Item Delimitation and Sequence Delimitation: tags whose VR is fixed
/// whatever the encoding.
pub open spec fn spec_is_delimiter_tag(group: u16, element: u16) -> bool {
    group == DELIMITER_GROUP && (element == ITEM || element == ITEM_DELIMITER || element
        == SEQUENCE_DELIMITER)
}

/// The tag that closes a sequence of undefined length.
pub open spec fn spec_is_sequence_delimiter(group: u16, element: u16) -> bool {
    group == DELIMITER_GROUP && element == SEQUENCE_DELIMITER
}

/// The tag that opens an item of a sequence.
pub open spec fn spec_is_item(group: u16, element: u16) -> bool {
    group == DELIMITER_GROUP && element == ITEM
}

/// The tag that closes an item of undefined length.
pub open spec fn spec_is_item_delimiter(group: u16, element: u16) -> bool {
    group == DELIMITER_GROUP && element == ITEM_DELIMITER
}

/// The tag whose value names the transfer syntax of the rest of the stream.
pub open spec fn spec_is_transfer_syntax_uid(group: u16, element: u16) -> bool {
    group == META_GROUP && element == TRANSFER_SYNTAX_UID_ELEMENT
}

#[verifier::when_used_as_spec(spec_is_delimiter_tag)]
pub fn is_delimiter_tag(group: u16, element: u16) -> (r: bool)
    ensures
        r == spec_is_delimiter_tag(group, element),
{
    group == DELIMITER_GROUP && (element == ITEM || element == ITEM_DELIMITER || element
        == SEQUENCE_DELIMITER)
}

#[verifier::when_used_as_spec(spec_is_sequence_delimiter)]
pub fn is_sequence_delimiter(group: u16, element: u16) -> (r: bool)
    ensures
        r == spec_is_sequence_delimiter(group, element),
{
    group == DELIMITER_GROUP && element == SEQUENCE_DELIMITER
}

#[verifier::when_used_as_spec(spec_is_item)]
pub fn is_item(group: u16, element: u16) -> (r: bool)
    ensures
        r == spec_is_item(group, element),
{
    group == DELIMITER_GROUP && element == ITEM
}

#[verifier::when_used_as_spec(spec_is_item_delimiter)]
pub fn is_item_delimiter(group: u16, element: u16) -> (r: bool)
    ensures
        r == spec_is_item_delimiter(group, element),
{
    group == DELIMITER_GROUP && element == ITEM_DELIMITER
}

#[verifier::when_used_as_spec(spec_is_transfer_syntax_uid)]
pub fn is_transfer_syntax_uid(group: u16, element: u16) -> (r: bool)
    ensures
        r == spec_is_transfer_syntax_uid(group, element),
{
    group == META_GROUP && element == TRANSFER_SYNTAX_UID_ELEMENT
}

/// The dictionary VR of a tag: the file meta group, common patient, study,
/// series and image attributes, pixel data, the item and delimiter tags, and
/// group lengths. Tags outside it are `Unknown`.
pub open spec fn dictionary_vr(group: u16, element: u16) -> VrType {
    match (group, element) {
        (0x0002, 0x0000) => VrType::UnsignedLong,
        (0x0002, 0x0001) => VrType::OtherByte,
        (0x0002, 0x0002) => VrType::Uid,
        (0x0002, 0x0003) => VrType::Uid,
        (0x0002, 0x0010) => VrType::Uid,
        (0x0002, 0x0012) => VrType::Uid,
        (0x0002, 0x0013) => VrType::ShortString,
        (0x0002, 0x0016) => VrType::ApplicationEntity,
        (0x0002, 0x0100) => VrType::Uid,
        (0x0002, 0x0102) => VrType::OtherByte,
        (0x0008, 0x0005) => VrType::CodeString,
        (0x0008, 0x0008) => VrType::CodeString,
        (0x0008, 0x0012) => VrType::Date,
        (0x0008, 0x0013) => VrType::Time,
        (0x0008, 0x0016) => VrType::Uid,
        (0x0008, 0x0018) => VrType::Uid,
        (0x0008, 0x0020) => VrType::Date,
        (0x0008, 0x0021) => VrType::Date,
        (0x0008, 0x0022) => VrType::Date,
        (0x0008, 0x0023) => VrType::Date,
        (0x0008, 0x002A) => VrType::DateTime,
        (0x0008, 0x0030) => VrType::Time,
        (0x0008, 0x0031) => VrType::Time,
        (0x0008, 0x0032) => VrType::Time,
        (0x0008, 0x0033) => VrType::Time,
        (0x0008, 0x0050) => VrType::ShortString,
        (0x0008, 0x0060) => VrType::CodeString,
        (0x0008, 0x0064) => VrType::CodeString,
        (0x0008, 0x0070) => VrType::LongString,
        (0x0008, 0x0080) => VrType::LongString,
        (0x0008, 0x0090) => VrType::PersonName,
        (0x0008, 0x1010) => VrType::ShortString,
        (0x0008, 0x1030) => VrType::LongString,
        (0x0008, 0x103E) => VrType::LongString,
        (0x0008, 0x1090) => VrType::LongString,
        (0x0008, 0x1140) => VrType::SequenceOfItems,
        (0x0008, 0x1150) => VrType::Uid,
        (0x0008, 0x1155) => VrType::Uid,
        (0x0010, 0x0010) => VrType::PersonName,
        (0x0010, 0x0020) => VrType::LongString,
        (0x0010, 0x0030) => VrType::Date,
        (0x0010, 0x0040) => VrType::CodeString,
        (0x0010, 0x1010) => VrType::AgeString,
        (0x0010, 0x1020) => VrType::DecimalString,
        (0x0010, 0x1030) => VrType::DecimalString,
        (0x0018, 0x0015) => VrType::CodeString,
        (0x0018, 0x0050) => VrType::DecimalString,
        (0x0018, 0x0060) => VrType::DecimalString,
        (0x0018, 0x0088) => VrType::DecimalString,
        (0x0018, 0x1020) => VrType::LongString,
        (0x0018, 0x1030) => VrType::LongString,
        (0x0018, 0x5100) => VrType::CodeString,
        (0x0020, 0x000D) => VrType::Uid,
        (0x0020, 0x000E) => VrType::Uid,
        (0x0020, 0x0010) => VrType::ShortString,
        (0x0020, 0x0011) => VrType::IntegerString,
        (0x0020, 0x0012) => VrType::IntegerString,
        (0x0020, 0x0013) => VrType::IntegerString,
        (0x0020, 0x0032) => VrType::DecimalString,
        (0x0020, 0x0037) => VrType::DecimalString,
        (0x0020, 0x0052) => VrType::Uid,
        (0x0020, 0x1041) => VrType::DecimalString,
        (0x0028, 0x0002) => VrType::UnsignedShort,
        (0x0028, 0x0004) => VrType::CodeString,
        (0x0028, 0x0006) => VrType::UnsignedShort,
        (0x0028, 0x0008) => VrType::IntegerString,
        (0x0028, 0x0010) => VrType::UnsignedShort,
        (0x0028, 0x0011) => VrType::UnsignedShort,
        (0x0028, 0x0030) => VrType::DecimalString,
        (0x0028, 0x0100) => VrType::UnsignedShort,
        (0x0028, 0x0101) => VrType::UnsignedShort,
        (0x0028, 0x0102) => VrType::UnsignedShort,
        (0x0028, 0x0103) => VrType::UnsignedShort,
        (0x0028, 0x1050) => VrType::DecimalString,
        (0x0028, 0x1051) => VrType::DecimalString,
        (0x0028, 0x1052) => VrType::DecimalString,
        (0x0028, 0x1053) => VrType::DecimalString,
        (0x0028, 0x1054) => VrType::LongString,
        (0x7FE0, 0x0010) => VrType::OtherWord,
        (0xFFFE, 0xE000) => VrType::Delimiter,
        (0xFFFE, 0xE00D) => VrType::Delimiter,
        (0xFFFE, 0xE0DD) => VrType::Delimiter,
        (_, 0x0000) => VrType::UnsignedLong,
        _ => VrType::Unknown,
    }
}

/// The VR that implicit encoding gives a tag: delimiter tags are always
/// `Delimiter`; tags of even (public) groups come from the dictionary; in odd
/// (private) groups, elements up to `0xFF` are `LongString` and the rest
/// `Unknown`.
pub open spec fn implicit_vr(group: u16, element: u16) -> VrType {
    if is_delimiter_tag(group, element) {
        VrType::Delimiter
    } else if group % 2 == 0 {
        dictionary_vr(group, element)
    } else if element <= 0xFF {
        VrType::LongString
    } else {
        VrType::Unknown
    }
}

/// Looks a tag up in the dictionary.
pub fn tag_vr_type(group: u16, element: u16) -> (r: VrType)
    ensures
        r == dictionary_vr(group, element),
{
    match (group, element) {
        (0x0002, 0x0000) => VrType::UnsignedLong,
        (0x0002, 0x0001) => VrType::OtherByte,
        (0x0002, 0x0002) => VrType::Uid,
        (0x0002, 0x0003) => VrType::Uid,
        (0x0002, 0x0010) => VrType::Uid,
        (0x0002, 0x0012) => VrType::Uid,
        (0x0002, 0x0013) => VrType::ShortString,
        (0x0002, 0x0016) => VrType::ApplicationEntity,
        (0x0002, 0x0100) => VrType::Uid,
        (0x0002, 0x0102) => VrType::OtherByte,
        (0x0008, 0x0005) => VrType::CodeString,
        (0x0008, 0x0008) => VrType::CodeString,
        (0x0008, 0x0012) => VrType::Date,
        (0x0008, 0x0013) => VrType::Time,
        (0x0008, 0x0016) => VrType::Uid,
        (0x0008, 0x0018) => VrType::Uid,
        (0x0008, 0x0020) => VrType::Date,
        (0x0008, 0x0021) => VrType::Date,
        (0x0008, 0x0022) => VrType::Date,
        (0x0008, 0x0023) => VrType::Date,
        (0x0008, 0x002A) => VrType::DateTime,
        (0x0008, 0x0030) => VrType::Time,
        (0x0008, 0x0031) => VrType::Time,
        (0x0008, 0x0032) => VrType::Time,
        (0x0008, 0x0033) => VrType::Time,
        (0x0008, 0x0050) => VrType::ShortString,
        (0x0008, 0x0060) => VrType::CodeString,
        (0x0008, 0x0064) => VrType::CodeString,
        (0x0008, 0x0070) => VrType::LongString,
        (0x0008, 0x0080) => VrType::LongString,
        (0x0008, 0x0090) => VrType::PersonName,
        (0x0008, 0x1010) => VrType::ShortString,
        (0x0008, 0x1030) => VrType::LongString,
        (0x0008, 0x103E) => VrType::LongString,
        (0x0008, 0x1090) => VrType::LongString,
        (0x0008, 0x1140) => VrType::SequenceOfItems,
        (0x0008, 0x1150) => VrType::Uid,
        (0x0008, 0x1155) => VrType::Uid,
        (0x0010, 0x0010) => VrType::PersonName,
        (0x0010, 0x0020) => VrType::LongString,
        (0x0010, 0x0030) => VrType::Date,
        (0x0010, 0x0040) => VrType::CodeString,
        (0x0010, 0x1010) => VrType::AgeString,
        (0x0010, 0x1020) => VrType::DecimalString,
        (0x0010, 0x1030) => VrType::DecimalString,
        (0x0018, 0x0015) => VrType::CodeString,
        (0x0018, 0x0050) => VrType::DecimalString,
        (0x0018, 0x0060) => VrType::DecimalString,
        (0x0018, 0x0088) => VrType::DecimalString,
        (0x0018, 0x1020) => VrType::LongString,
        (0x0018, 0x1030) => VrType::LongString,
        (0x0018, 0x5100) => VrType::CodeString,
        (0x0020, 0x000D) => VrType::Uid,
        (0x0020, 0x000E) => VrType::Uid,
        (0x0020, 0x0010) => VrType::ShortString,
        (0x0020, 0x0011) => VrType::IntegerString,
        (0x0020, 0x0012) => VrType::IntegerString,
        (0x0020, 0x0013) => VrType::IntegerString,
        (0x0020, 0x0032) => VrType::DecimalString,
        (0x0020, 0x0037) => VrType::DecimalString,
        (0x0020, 0x0052) => VrType::Uid,
        (0x0020, 0x1041) => VrType::DecimalString,
        (0x0028, 0x0002) => VrType::UnsignedShort,
        (0x0028, 0x0004) => VrType::CodeString,
        (0x0028, 0x0006) => VrType::UnsignedShort,
        (0x0028, 0x0008) => VrType::IntegerString,
        (0x0028, 0x0010) => VrType::UnsignedShort,
        (0x0028, 0x0011) => VrType::UnsignedShort,
        (0x0028, 0x0030) => VrType::DecimalString,
        (0x0028, 0x0100) => VrType::UnsignedShort,
        (0x0028, 0x0101) => VrType::UnsignedShort,
        (0x0028, 0x0102) => VrType::UnsignedShort,
        (0x0028, 0x0103) => VrType::UnsignedShort,
        (0x0028, 0x1050) => VrType::DecimalString,
        (0x0028, 0x1051) => VrType::DecimalString,
        (0x0028, 0x1052) => VrType::DecimalString,
        (0x0028, 0x1053) => VrType::DecimalString,
        (0x0028, 0x1054) => VrType::LongString,
        (0x7FE0, 0x0010) => VrType::OtherWord,
        (0xFFFE, 0xE000) => VrType::Delimiter,
        (0xFFFE, 0xE00D) => VrType::Delimiter,
        (0xFFFE, 0xE0DD) => VrType::Delimiter,
        (_, 0x0000) => VrType::UnsignedLong,
        _ => VrType::Unknown,
    }
}

/// Resolves the VR of a tag under implicit encoding.
pub fn implicit_tag_vr(group: u16, element: u16) -> (r: VrType)
    ensures
        r == implicit_vr(group, element),
{
    if is_delimiter_tag(group, element) {
        VrType::Delimiter
    } else if group % 2 == 0 {
        tag_vr_type(group, element)
    } else if element <= 0xFF {
        VrType::LongString
    } else {
        VrType::Unknown
    }
}

} // verus!
