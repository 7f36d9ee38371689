//! Value representations: the catalog of two-letter codes and the shape of
//! the length field that each VR carries.
use vstd::prelude::*;

use crate::errors::DecodeError;
use crate::readers::{read_agrees, read_u16, read_u32, u16_at, u32_at, ByteCursor};
use crate::transfer_syntax::{EndianEncoding, TransferSyntax, VrEncoding};

verus! {

broadcast use crate::readers::lemma_offset_nonnegative;

/// The representation kinds that the decoder tells apart.
#[derive(Clone, Copy, Debug, PartialEq, Eq, Structural)]
pub enum VrType {
    Delimiter,
    SequenceOfItems,
    ApplicationEntity,
    Uid,
    Attribute,
    UnsignedLong,
    UnsignedShort,
    SignedLong,
    SignedShort,
    Float,
    Double,
    AgeString,
    CodeString,
    LongText,
    PersonName,
    ShortString,
    ShortText,
    UnlimitedText,
    Date,
    DateTime,
    Time,
    DecimalString,
    IntegerString,
    LongString,
    OtherByte,
    OtherFloat,
    OtherWord,
    Unknown,
}

/// The VR named by the two code characters `c0 c1`; unknown codes are
/// `Unknown`.
pub open spec fn vr_of_code(c0: u8, c1: u8) -> VrType {
    match (c0, c1) {
        (0x4F, 0x42) => VrType::OtherByte,  // OB
        (0x4F, 0x46) => VrType::OtherFloat,  // OF
        (0x4F, 0x57) => VrType::OtherWord,  // OW
        (0x55, 0x4E) => VrType::Unknown,  // UN
        (0x55, 0x54) => VrType::UnlimitedText,  // UT
        (0x53, 0x51) => VrType::SequenceOfItems,  // SQ
        (0x41, 0x45) => VrType::ApplicationEntity,  // AE
        (0x41, 0x53) => VrType::AgeString,  // AS
        (0x43, 0x53) => VrType::CodeString,  // CS
        (0x44, 0x41) => VrType::Date,  // DA
        (0x44, 0x54) => VrType::DateTime,  // DT
        (0x4C, 0x54) => VrType::LongText,  // LT
        (0x50, 0x4E) => VrType::PersonName,  // PN
        (0x53, 0x48) => VrType::ShortString,  // SH
        (0x53, 0x54) => VrType::ShortText,  // ST
        (0x54, 0x4D) => VrType::Time,  // TM
        (0x44, 0x53) => VrType::DecimalString,  // DS
        (0x49, 0x53) => VrType::IntegerString,  // IS
        (0x4C, 0x4F) => VrType::LongString,  // LO
        (0x55, 0x49) => VrType::Uid,  // UI
        (0x41, 0x54) => VrType::Attribute,  // AT
        (0x55, 0x4C) => VrType::UnsignedLong,  // UL
        (0x55, 0x53) => VrType::UnsignedShort,  // US
        (0x53, 0x4C) => VrType::SignedLong,  // SL
        (0x53, 0x53) => VrType::SignedShort,  // SS
        (0x46, 0x4C) => VrType::Float,  // FL
        (0x46, 0x44) => VrType::Double,  // FD
        (0x44, 0x4C) => VrType::Delimiter,  // DL
        _ => VrType::Unknown,
    }
}

/// The VR whose code, read as a little-endian 16-bit integer, is `code`.
pub open spec fn vr_of_u16_code(code: u16) -> VrType {
    vr_of_code((code % 256) as u8, (code / 256) as u8)
}

/// Under explicit encoding, the VRs whose length field is 32 bits wide.
pub open spec fn has_long_length(vr: VrType) -> bool {
    match vr {
        VrType::Delimiter | VrType::SequenceOfItems | VrType::OtherByte | VrType::OtherFloat
        | VrType::OtherWord | VrType::UnlimitedText | VrType::Unknown => true,
        _ => false,
    }
}

/// Under explicit encoding, the VRs whose 32-bit length field follows two
/// reserved bytes. Delimiter tags carry no VR code, hence no reserved bytes.
pub open spec fn has_reserved_bytes(vr: VrType) -> bool {
    has_long_length(vr) && vr != VrType::Delimiter
}

/// The byte width of one value of a numeric VR.
pub open spec fn numeric_width(vr: VrType) -> Option<nat> {
    match vr {
        VrType::UnsignedShort | VrType::SignedShort => Some(2),
        VrType::UnsignedLong | VrType::SignedLong | VrType::Float => Some(4),
        VrType::Double => Some(8),
        _ => None,
    }
}

/// VRs whose value is read as one piece of text.
pub open spec fn is_textual(vr: VrType) -> bool {
    match vr {
        VrType::ApplicationEntity | VrType::AgeString | VrType::CodeString | VrType::Date
        | VrType::DateTime | VrType::LongText | VrType::PersonName | VrType::ShortString
        | VrType::ShortText | VrType::Time | VrType::Uid | VrType::UnlimitedText => true,
        _ => false,
    }
}

/// VRs whose text may hold several backslash-separated values.
pub open spec fn is_numeric_string(vr: VrType) -> bool {
    match vr {
        VrType::DecimalString | VrType::IntegerString | VrType::LongString => true,
        _ => false,
    }
}

/// VRs whose value is kept as raw bytes.
pub open spec fn is_opaque(vr: VrType) -> bool {
    match vr {
        VrType::OtherByte | VrType::OtherFloat | VrType::OtherWord | VrType::Unknown => true,
        _ => false,
    }
}

/// VRs that may carry an undefined length.
pub open spec fn allows_undefined_length(vr: VrType) -> bool {
    match vr {
        VrType::Delimiter | VrType::SequenceOfItems | VrType::Attribute => true,
        _ => false,
    }
}

/// The declared length that a raw 32-bit length field stands for: all ones is
/// the undefined length (`None`); any other negative value is an error.
pub open spec fn length_of_raw(v: u32) -> Result<Option<u32>, DecodeError> {
    if v == 0xFFFF_FFFF {
        Ok(None)
    } else if v >= 0x8000_0000 {
        Err(DecodeError::NegativeLength)
    } else {
        Ok(Some(v))
    }
}

/// The length field of an element of VR `vr` whose field starts at `p`, and
/// the offset just past it.
pub open spec fn length_field_at(bytes: Seq<u8>, p: int, vr: VrType, syntax: TransferSyntax) -> Result<
    (Option<u32>, int),
    DecodeError,
> {
    let order = syntax.endian_encoding;
    if syntax.vr_encoding == VrEncoding::Implicit || vr == VrType::Delimiter {
        if p + 4 > bytes.len() {
            Err(DecodeError::UnexpectedEnd)
        } else {
            match length_of_raw(u32_at(bytes, p, order)) {
                Ok(l) => Ok((l, p + 4)),
                Err(e) => Err(e),
            }
        }
    } else if has_reserved_bytes(vr) {
        if p + 6 > bytes.len() {
            Err(DecodeError::UnexpectedEnd)
        } else {
            match length_of_raw(u32_at(bytes, p + 2, order)) {
                Ok(l) => Ok((l, p + 6)),
                Err(e) => Err(e),
            }
        }
    } else {
        if p + 2 > bytes.len() {
            Err(DecodeError::UnexpectedEnd)
        } else {
            Ok((Some(u16_at(bytes, p, order) as u32), p + 2))
        }
    }
}

impl VrType {
    /// Whether, under explicit encoding, the length field is 32 bits wide.
    pub fn long_length(&self) -> (r: bool)
        ensures
            r == has_long_length(*self),
    {
        match self {
            VrType::Delimiter | VrType::SequenceOfItems | VrType::OtherByte | VrType::OtherFloat
            | VrType::OtherWord | VrType::UnlimitedText | VrType::Unknown => true,
            _ => false,
        }
    }

    /// Whether, under explicit encoding, two reserved bytes precede the
    /// length field.
    pub fn reserved_bytes(&self) -> (r: bool)
        ensures
            r == has_reserved_bytes(*self),
    {
        self.long_length() && *self != VrType::Delimiter
    }
}

/// Looks a two-character VR code up in the catalog.
pub fn get_vr_type(vr_code: &[u8; 2]) -> (r: VrType)
    ensures
        r == vr_of_code(vr_code[0], vr_code[1]),
{
    match (vr_code[0], vr_code[1]) {
        (0x4F, 0x42) => VrType::OtherByte,  // OB
        (0x4F, 0x46) => VrType::OtherFloat,  // OF
        (0x4F, 0x57) => VrType::OtherWord,  // OW
        (0x55, 0x4E) => VrType::Unknown,  // UN
        (0x55, 0x54) => VrType::UnlimitedText,  // UT
        (0x53, 0x51) => VrType::SequenceOfItems,  // SQ
        (0x41, 0x45) => VrType::ApplicationEntity,  // AE
        (0x41, 0x53) => VrType::AgeString,  // AS
        (0x43, 0x53) => VrType::CodeString,  // CS
        (0x44, 0x41) => VrType::Date,  // DA
        (0x44, 0x54) => VrType::DateTime,  // DT
        (0x4C, 0x54) => VrType::LongText,  // LT
        (0x50, 0x4E) => VrType::PersonName,  // PN
        (0x53, 0x48) => VrType::ShortString,  // SH
        (0x53, 0x54) => VrType::ShortText,  // ST
        (0x54, 0x4D) => VrType::Time,  // TM
        (0x44, 0x53) => VrType::DecimalString,  // DS
        (0x49, 0x53) => VrType::IntegerString,  // IS
        (0x4C, 0x4F) => VrType::LongString,  // LO
        (0x55, 0x49) => VrType::Uid,  // UI
        (0x41, 0x54) => VrType::Attribute,  // AT
        (0x55, 0x4C) => VrType::UnsignedLong,  // UL
        (0x55, 0x53) => VrType::UnsignedShort,  // US
        (0x53, 0x4C) => VrType::SignedLong,  // SL
        (0x53, 0x53) => VrType::SignedShort,  // SS
        (0x46, 0x4C) => VrType::Float,  // FL
        (0x46, 0x44) => VrType::Double,  // FD
        (0x44, 0x4C) => VrType::Delimiter,  // DL
        _ => VrType::Unknown,
    }
}

/// Looks up the VR whose two-character code, read as a little-endian 16-bit
/// integer, is `vr_code`.
pub fn get_implicit_vr(vr_code: u16) -> (r: VrType)
    ensures
        r == vr_of_u16_code(vr_code),
{
    let code: [u8; 2] = [(vr_code % 256) as u8, (vr_code / 256) as u8];
    get_vr_type(&code)
}

/// Reads a raw 32-bit length field.
fn read_length_32(reader: &mut ByteCursor, order: EndianEncoding) -> (r: Result<
    Option<u32>,
    DecodeError,
>)
    ensures
        final(reader).contents() == old(reader).contents(),
        match r {
            Ok(l) => {
                &&& old(reader).has(4)
                &&& length_of_raw(u32_at(old(reader).contents(), old(reader).offset(), order))
                    == Ok::<Option<u32>, DecodeError>(l)
                &&& final(reader).offset() == old(reader).offset() + 4
            },
            Err(e) => {
                ||| !old(reader).has(4) && e == DecodeError::UnexpectedEnd
                ||| old(reader).has(4) && length_of_raw(
                    u32_at(old(reader).contents(), old(reader).offset(), order),
                ) == Err::<Option<u32>, DecodeError>(e)
            },
        },
{
    let v = match read_u32(reader, order) {
        Ok(v) => v,
        Err(e) => return Err(e),
    };
    if v == 0xFFFF_FFFF {
        Ok(None)
    } else if v >= 0x8000_0000 {
        Err(DecodeError::NegativeLength)
    } else {
        Ok(Some(v))
    }
}

/// Reads the length field of an element of VR `vr` under `syntax`, skipping
/// the reserved bytes where the VR has them.
pub fn read_value_length(reader: &mut ByteCursor, vr: VrType, syntax: TransferSyntax) -> (r: Result<
    Option<u32>,
    DecodeError,
>)
    ensures
        read_agrees(
            r,
            length_field_at(old(reader).contents(), old(reader).offset(), vr, syntax),
            *old(reader),
            *final(reader),
        ),
{
    let order = syntax.endian_encoding;
    if syntax.vr_encoding == VrEncoding::Implicit || vr == VrType::Delimiter {
        read_length_32(reader, order)
    } else if vr.reserved_bytes() {
        match read_u16(reader, order) {
            Ok(_) => {},
            Err(e) => return Err(e),
        }
        read_length_32(reader, order)
    } else {
        match read_u16(reader, order) {
            Ok(v) => Ok(Some(v as u32)),
            Err(e) => Err(e),
        }
    }
}

/// Resolves a VR code read from the stream under explicit encoding and reads
/// the length field that follows it.
pub fn get_explicit_vr(vr_code: u16, reader: &mut ByteCursor, order: EndianEncoding) -> (r: Result<
    (VrType, Option<u32>),
    DecodeError,
>)
    ensures
        final(reader).contents() == old(reader).contents(),
        match r {
            Ok((vr, l)) => {
                &&& vr == vr_of_u16_code(vr_code)
                &&& length_field_at(
                    old(reader).contents(),
                    old(reader).offset(),
                    vr,
                    TransferSyntax { vr_encoding: VrEncoding::Explicit, endian_encoding: order },
                ) == Ok::<(Option<u32>, int), DecodeError>((l, final(reader).offset()))
            },
            Err(e) => length_field_at(
                old(reader).contents(),
                old(reader).offset(),
                vr_of_u16_code(vr_code),
                TransferSyntax { vr_encoding: VrEncoding::Explicit, endian_encoding: order },
            ) == Err::<(Option<u32>, int), DecodeError>(e),
        },
{
    let vr = get_implicit_vr(vr_code);
    let syntax = TransferSyntax { vr_encoding: VrEncoding::Explicit, endian_encoding: order };
    match read_value_length(reader, vr, syntax) {
        Ok(l) => Ok((vr, l)),
        Err(e) => Err(e),
    }
}

} // verus!
