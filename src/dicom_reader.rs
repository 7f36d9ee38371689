//! The element decoder: one data element from a cursor and a transfer syntax.
use vstd::prelude::*;
use vstd::utf8::{decode_utf8, valid_utf8};

use crate::dicom_tag::{DicomTag, DicomTagView, TagMarker, TagValue, TagValueView};
use crate::errors::DecodeError;
use crate::readers::{
    available, i16_of, i32_of, read_agrees, read_bytes, read_i16, read_i32, read_rewind_u16, read_str, read_u16,
    read_u32, read_u64, u16_at, u32_at, u64_at, utf8_string, ByteCursor,
};
use crate::tags::{implicit_tag_vr, implicit_vr, is_delimiter_tag, META_GROUP};
use crate::transfer_syntax::{default_syntax, EndianEncoding, TransferSyntax, VrEncoding};
use crate::vr_type::{
    get_explicit_vr, is_numeric_string, is_opaque, length_field_at, numeric_width, read_value_length,
    vr_of_u16_code, VrType,
};

verus! {

broadcast use crate::readers::lemma_offset_nonnegative;

/// The number of backslash bytes in `s`: one less than the number of values
/// in multi-valued text (a backslash byte in UTF-8 always encodes `\`).
pub open spec fn backslash_count(s: Seq<u8>) -> nat
    decreases s.len(),
{
    if s.len() == 0 {
        0
    } else {
        backslash_count(s.drop_last()) + if s.last() == 0x5C {
            1nat
        } else {
            0nat
        }
    }
}

/// The syntax an element at `pos` is decoded under: the default syntax when
/// the next two bytes, read little endian, are the meta group; else `ambient`.
pub open spec fn effective_syntax(bytes: Seq<u8>, pos: int, ambient: TransferSyntax) -> TransferSyntax {
    if u16_at(bytes, pos, EndianEncoding::LittleEndian) == META_GROUP {
        default_syntax()
    } else {
        ambient
    }
}

/// The VR of the element with tag (`group`, `element`) whose VR code, if any,
/// would start at `p`, and the offset after it. Delimiter tags are always
/// `Delimiter`; explicit encoding reads the code from the stream; implicit
/// encoding looks the tag up.
pub open spec fn vr_at(bytes: Seq<u8>, p: int, group: u16, element: u16, syntax: TransferSyntax) -> Result<
    (VrType, int),
    DecodeError,
> {
    if is_delimiter_tag(group, element) {
        Ok((VrType::Delimiter, p))
    } else if syntax.vr_encoding == VrEncoding::Explicit {
        if p + 2 > bytes.len() {
            Err(DecodeError::UnexpectedEnd)
        } else {
            Ok((vr_of_u16_code(u16_at(bytes, p, EndianEncoding::LittleEndian)), p + 2))
        }
    } else {
        Ok((implicit_vr(group, element), p))
    }
}

/// The VR and declared length of the element with tag (`group`, `element`)
/// whose header continues at `p`, and the offset where its value starts.
pub open spec fn vr_and_length_at(
    bytes: Seq<u8>,
    p: int,
    group: u16,
    element: u16,
    syntax: TransferSyntax,
) -> Result<(VrType, Option<u32>, int), DecodeError> {
    match vr_at(bytes, p, group, element, syntax) {
        Err(e) => Err(e),
        Ok((vr, length_start)) => match length_field_at(bytes, length_start, vr, syntax) {
            Err(e) => Err(e),
            Ok((length, value_start)) => Ok((vr, length, value_start)),
        },
    }
}

/// The single value of numeric VR `vr` stored at `p`.
pub open spec fn numeric_scalar(bytes: Seq<u8>, p: int, vr: VrType, order: EndianEncoding) -> TagValueView {
    match vr {
        VrType::UnsignedShort => TagValueView::U16(u16_at(bytes, p, order)),
        VrType::SignedShort => TagValueView::I16(i16_of(u16_at(bytes, p, order))),
        VrType::UnsignedLong => TagValueView::U32(u32_at(bytes, p, order)),
        VrType::SignedLong => TagValueView::I32(i32_of(u32_at(bytes, p, order))),
        VrType::Float => TagValueView::F32Bits(u32_at(bytes, p, order)),
        _ => TagValueView::F64Bits(u64_at(bytes, p, order)),
    }
}

/// The value of `l` bytes at `p` for a VR that needs a concrete length.
pub open spec fn sized_value_at(bytes: Seq<u8>, p: int, vr: VrType, l: int, order: EndianEncoding) -> Result<
    (TagValueView, int),
    DecodeError,
> {
    match numeric_width(vr) {
        Some(w) => {
            if l % (w as int) != 0 {
                Err(DecodeError::MalformedLength)
            } else if p + l > bytes.len() {
                Err(DecodeError::UnexpectedEnd)
            } else if l == w {
                Ok((numeric_scalar(bytes, p, vr, order), p + l))
            } else {
                Ok((TagValueView::Numbers(bytes.subrange(p, p + l)), p + l))
            }
        },
        None => {
            if p + l > bytes.len() {
                Err(DecodeError::UnexpectedEnd)
            } else {
                let raw = bytes.subrange(p, p + l);
                if is_opaque(vr) {
                    Ok((TagValueView::Bytes(raw), p + l))
                } else if !valid_utf8(raw) {
                    Err(DecodeError::InvalidText)
                } else if is_numeric_string(vr) && backslash_count(raw) > 0 {
                    Ok(
                        (
                            TagValueView::Multiple((backslash_count(raw) + 1) as usize, decode_utf8(raw)),
                            p + l,
                        ),
                    )
                } else {
                    Ok((TagValueView::Text(decode_utf8(raw)), p + l))
                }
            }
        },
    }
}

/// The value of an element of VR `vr` and declared length `length` whose
/// value starts at `p`, and the offset after it.
pub open spec fn value_at(
    bytes: Seq<u8>,
    p: int,
    vr: VrType,
    length: Option<u32>,
    order: EndianEncoding,
) -> Result<(TagValueView, int), DecodeError> {
    match vr {
        VrType::Delimiter | VrType::SequenceOfItems => Ok((TagValueView::Ignored, p)),
        VrType::Attribute => {
            if p + 4 > bytes.len() {
                Err(DecodeError::UnexpectedEnd)
            } else {
                Ok(
                    (
                        TagValueView::Attribute(u16_at(bytes, p, order), u16_at(bytes, p + 2, order)),
                        p + 4,
                    ),
                )
            }
        },
        _ => match length {
            None => Err(DecodeError::UndefinedLength),
            Some(l) => sized_value_at(bytes, p, vr, l as int, order),
        },
    }
}

/// What the header of an element says: its tag, the syntax it is decoded
/// under, its VR, its declared length, and where its value starts.
pub struct ElementHeader {
    pub group: u16,
    pub element: u16,
    pub syntax: TransferSyntax,
    pub vr: VrType,
    pub length: Option<u32>,
    pub value_start: int,
}

/// The header of the element that starts at `pos` when the ambient syntax is
/// `ambient`.
pub open spec fn header_at(bytes: Seq<u8>, pos: int, ambient: TransferSyntax) -> Result<
    ElementHeader,
    DecodeError,
> {
    if pos + 4 > bytes.len() {
        Err(DecodeError::UnexpectedEnd)
    } else {
        let syntax = effective_syntax(bytes, pos, ambient);
        let group = u16_at(bytes, pos, syntax.endian_encoding);
        let element = u16_at(bytes, pos + 2, syntax.endian_encoding);
        match vr_and_length_at(bytes, pos + 4, group, element, syntax) {
            Err(e) => Err(e),
            Ok((vr, length, value_start)) => Ok(
                ElementHeader { group, element, syntax, vr, length, value_start },
            ),
        }
    }
}

/// The element that starts at `pos` when the ambient syntax is `ambient`,
/// and the offset just past it.
pub open spec fn element_at(bytes: Seq<u8>, pos: int, ambient: TransferSyntax) -> Result<
    (DicomTagView, int),
    DecodeError,
> {
    match header_at(bytes, pos, ambient) {
        Err(e) => Err(e),
        Ok(h) => match value_at(bytes, h.value_start, h.vr, h.length, h.syntax.endian_encoding) {
            Err(e) => Err(e),
            Ok((value, end)) => Ok(
                (
                    DicomTagView {
                        group: h.group,
                        element: h.element,
                        syntax: h.syntax,
                        vr: h.vr,
                        marker: TagMarker {
                            value_length: h.length,
                            stream_position: h.value_start as usize,
                        },
                        value,
                    },
                    end,
                ),
            ),
        },
    }
}

/// Chooses the syntax for the next element: the default syntax when the
/// next two bytes name the meta group, else `syntax`. The cursor stays put.
pub fn peek_syntax(reader: &mut ByteCursor, syntax: TransferSyntax) -> (r: Result<TransferSyntax, DecodeError>)
    ensures
        final(reader).advanced(old(reader), 0),
        match r {
            Ok(s) => old(reader).has(2) && s == effective_syntax(
                old(reader).contents(),
                old(reader).offset(),
                syntax,
            ),
            Err(e) => !old(reader).has(2) && e == DecodeError::UnexpectedEnd,
        },
{
    match read_rewind_u16(reader) {
        Ok(group) => {
            if group == META_GROUP {
                Ok(TransferSyntax::default())
            } else {
                Ok(syntax)
            }
        },
        Err(e) => Err(e),
    }
}

/// Counts the backslash bytes of `raw`.
fn count_backslashes(raw: &Vec<u8>) -> (r: usize)
    ensures
        r == backslash_count(raw@),
        r <= raw@.len(),
{
    let mut n: usize = 0;
    let mut i: usize = 0;
    while i < raw.len()
        invariant
            i <= raw.len(),
            n <= i,
            n == backslash_count(raw@.subrange(0, i as int)),
        decreases raw.len() - i,
    {
        assert(raw@.subrange(0, i + 1).drop_last() == raw@.subrange(0, i as int));
        if raw[i] == 0x5C {
            n = n + 1;
        }
        i = i + 1;
    }
    assert(raw@.subrange(0, raw.len() as int) == raw@);
    n
}

/// The value width of a numeric VR.
fn value_width(vr: VrType) -> (r: Option<usize>)
    ensures
        match numeric_width(vr) {
            Some(w) => r == Some(w as usize),
            None => r is None,
        },
{
    match vr {
        VrType::UnsignedShort | VrType::SignedShort => Some(2),
        VrType::UnsignedLong | VrType::SignedLong | VrType::Float => Some(4),
        VrType::Double => Some(8),
        _ => None,
    }
}

/// Reads the single value of numeric VR `vr`.
fn read_numeric_scalar(reader: &mut ByteCursor, vr: VrType, order: EndianEncoding) -> (r: Result<
    TagValue,
    DecodeError,
>)
    requires
        numeric_width(vr) is Some,
        old(reader).has(numeric_width(vr)->0 as int),
    ensures
        r matches Ok(v) && v@ == numeric_scalar(old(reader).contents(), old(reader).offset(), vr, order)
            && final(reader).advanced(old(reader), numeric_width(vr)->0 as int),
{
    match vr {
        VrType::UnsignedShort => match read_u16(reader, order) {
            Ok(v) => Ok(TagValue::U16(v)),
            Err(e) => Err(e),
        },
        VrType::SignedShort => match read_i16(reader, order) {
            Ok(v) => Ok(TagValue::I16(v)),
            Err(e) => Err(e),
        },
        VrType::UnsignedLong => match read_u32(reader, order) {
            Ok(v) => Ok(TagValue::U32(v)),
            Err(e) => Err(e),
        },
        VrType::SignedLong => match read_i32(reader, order) {
            Ok(v) => Ok(TagValue::I32(v)),
            Err(e) => Err(e),
        },
        VrType::Float => match read_u32(reader, order) {
            Ok(v) => Ok(TagValue::F32Bits(v)),
            Err(e) => Err(e),
        },
        _ => match read_u64(reader, order) {
            Ok(v) => Ok(TagValue::F64Bits(v)),
            Err(e) => Err(e),
        },
    }
}

/// Reads a value of `l` bytes for a VR that needs a concrete length.
fn read_sized_value(reader: &mut ByteCursor, vr: VrType, l: u32, order: EndianEncoding) -> (r: Result<
    TagValue,
    DecodeError,
>)
    requires
        vr != VrType::Delimiter,
        vr != VrType::SequenceOfItems,
        vr != VrType::Attribute,
        l < 0x8000_0000,
    ensures
        read_agrees(
            r,
            sized_value_at(old(reader).contents(), old(reader).offset(), vr, l as int, order),
            *old(reader),
            *final(reader),
        ),
{
    let length = l as usize;
    match value_width(vr) {
        Some(w) => {
            if length % w != 0 {
                Err(DecodeError::MalformedLength)
            } else if !available(reader, length) {
                Err(DecodeError::UnexpectedEnd)
            } else if length == w {
                read_numeric_scalar(reader, vr, order)
            } else {
                match read_bytes(reader, length) {
                    Ok(b) => Ok(TagValue::Numbers(b)),
                    Err(e) => Err(e),
                }
            }
        },
        None => {
            match vr {
                VrType::OtherByte | VrType::OtherFloat | VrType::OtherWord | VrType::Unknown => {
                    match read_bytes(reader, length) {
                        Ok(b) => Ok(TagValue::Bytes(b)),
                        Err(e) => Err(e),
                    }
                },
                VrType::DecimalString | VrType::IntegerString | VrType::LongString => {
                    let raw = match read_bytes(reader, length) {
                        Ok(b) => b,
                        Err(e) => return Err(e),
                    };
                    assert(raw@.len() == length);
                    let separators = count_backslashes(&raw);
                    match utf8_string(raw) {
                        Some(s) => {
                            if separators > 0 {
                                Ok(TagValue::Multiple(separators + 1, s))
                            } else {
                                Ok(TagValue::Text(s))
                            }
                        },
                        None => Err(DecodeError::InvalidText),
                    }
                },
                _ => match read_str(reader, length) {
                    Ok(s) => Ok(TagValue::Text(s)),
                    Err(e) => Err(e),
                },
            }
        },
    }
}

/// Reads the value of an element of VR `vr` and declared length `length`.
fn read_value(reader: &mut ByteCursor, vr: VrType, length: Option<u32>, order: EndianEncoding) -> (r:
    Result<TagValue, DecodeError>)
    requires
        length matches Some(l) ==> l < 0x8000_0000,
    ensures
        read_agrees(
            r,
            value_at(old(reader).contents(), old(reader).offset(), vr, length, order),
            *old(reader),
            *final(reader),
        ),
{
    match vr {
        VrType::Delimiter | VrType::SequenceOfItems => Ok(TagValue::Ignored),
        VrType::Attribute => {
            let group = match read_u16(reader, order) {
                Ok(v) => v,
                Err(e) => return Err(e),
            };
            match read_u16(reader, order) {
                Ok(element) => Ok(TagValue::Attribute(group, element)),
                Err(e) => Err(e),
            }
        },
        _ => match length {
            None => Err(DecodeError::UndefinedLength),
            Some(l) => read_sized_value(reader, vr, l, order),
        },
    }
}

/// Resolves the VR of the element with tag (`group`, `element`) and reads its
/// length field.
fn read_vr_and_length(reader: &mut ByteCursor, group: u16, element: u16, syntax: TransferSyntax) -> (r:
    Result<(VrType, Option<u32>), DecodeError>)
    ensures
        final(reader).contents() == old(reader).contents(),
        match r {
            Ok((vr, length)) => {
                &&& vr_and_length_at(old(reader).contents(), old(reader).offset(), group, element, syntax)
                    == Ok::<(VrType, Option<u32>, int), DecodeError>((vr, length, final(reader).offset()))
                &&& length matches Some(l) ==> l < 0x8000_0000
            },
            Err(e) => vr_and_length_at(
                old(reader).contents(),
                old(reader).offset(),
                group,
                element,
                syntax,
            ) == Err::<(VrType, Option<u32>, int), DecodeError>(e),
        },
{
    if is_delimiter_tag(group, element) {
        match read_value_length(reader, VrType::Delimiter, syntax) {
            Ok(l) => Ok((VrType::Delimiter, l)),
            Err(e) => Err(e),
        }
    } else if syntax.vr_encoding == VrEncoding::Explicit {
        match read_u16(reader, EndianEncoding::LittleEndian) {
            Ok(code) => get_explicit_vr(code, reader, syntax.endian_encoding),
            Err(e) => Err(e),
        }
    } else {
        let vr = implicit_tag_vr(group, element);
        match read_value_length(reader, vr, syntax) {
            Ok(l) => Ok((vr, l)),
            Err(e) => Err(e),
        }
    }
}

/// Decodes the data element at the cursor under the ambient syntax `syntax`
/// (the meta group is always decoded under the default syntax), consuming
/// exactly its header and value. On failure the cursor does not move.
pub fn next_tag(reader: &mut ByteCursor, syntax: TransferSyntax) -> (r: Result<DicomTag, DecodeError>)
    ensures
        final(reader).contents() == old(reader).contents(),
        match r {
            Ok(tag) => element_at(old(reader).contents(), old(reader).offset(), syntax) == Ok::<
                (DicomTagView, int),
                DecodeError,
            >((tag@, final(reader).offset())),
            Err(e) => {
                &&& element_at(old(reader).contents(), old(reader).offset(), syntax) == Err::<
                    (DicomTagView, int),
                    DecodeError,
                >(e)
                &&& final(reader).offset() == old(reader).offset()
            },
        },
{
    if !available(reader, 4) {
        return Err(DecodeError::UnexpectedEnd);
    }
    let start = reader.pos();
    let syntax = match peek_syntax(reader, syntax) {
        Ok(s) => s,
        Err(e) => return Err(e),
    };
    let order = syntax.endian_encoding;
    let group = match read_u16(reader, order) {
        Ok(v) => v,
        Err(e) => return Err(e),
    };
    let element = match read_u16(reader, order) {
        Ok(v) => v,
        Err(e) => return Err(e),
    };
    let (vr, length) = match read_vr_and_length(reader, group, element, syntax) {
        Ok(v) => v,
        Err(e) => {
            reader.seek(start);
            return Err(e);
        },
    };
    let stream_position = reader.pos();
    match read_value(reader, vr, length, order) {
        Ok(value) => Ok(
            DicomTag {
                group,
                element,
                syntax,
                vr,
                marker: TagMarker { value_length: length, stream_position },
                value,
            },
        ),
        Err(e) => {
            reader.seek(start);
            Err(e)
        },
    }
}

/// A decoded element spans at least its eight header bytes and lies within
/// the stream.
pub proof fn lemma_element_bounds(bytes: Seq<u8>, pos: int, ambient: TransferSyntax)
    ensures
        element_at(bytes, pos, ambient) matches Ok((tag, end)) ==> pos + 8 <= end <= bytes.len(),
{
}

/// A numeric element whose declared length is not a multiple of its VR's
/// value width is malformed: decoding it fails with `MalformedLength`, and no
/// truncated value is produced.
pub proof fn lemma_numeric_length_must_divide(bytes: Seq<u8>, pos: int, ambient: TransferSyntax)
    requires
        header_at(bytes, pos, ambient) matches Ok(h) && h.length matches Some(l) && numeric_width(
            h.vr,
        ) matches Some(w) && (l as int) % (w as int) != 0,
    ensures
        element_at(bytes, pos, ambient) == Err::<(DicomTagView, int), DecodeError>(
            DecodeError::MalformedLength,
        ),
{
}

/// An element of the meta group (its first two bytes, little endian, are
/// `0x0002`) decodes exactly as it would under explicit VR little endian,
/// whatever the ambient syntax.
pub proof fn lemma_meta_group_is_explicit_le(bytes: Seq<u8>, pos: int, ambient: TransferSyntax)
    requires
        0 <= pos,
        pos + 2 <= bytes.len(),
        bytes[pos] == 0x02,
        bytes[pos + 1] == 0x00,
    ensures
        element_at(bytes, pos, ambient) == element_at(bytes, pos, default_syntax()),
        element_at(bytes, pos, ambient) matches Ok((tag, _)) ==> tag.syntax == default_syntax()
            && tag.group == META_GROUP,
{
    assert(u16_at(bytes, pos, EndianEncoding::LittleEndian) == META_GROUP);
}

} // verus!
