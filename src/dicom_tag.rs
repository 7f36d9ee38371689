//! Decoded data elements and their values.
use vstd::prelude::*;

use crate::errors::DecodeError;
use crate::tags::is_transfer_syntax_uid;
use crate::transfer_syntax::{syntax_of_uid, TransferSyntax};
use crate::vr_type::VrType;

verus! {

/// The decoded value of an element.
#[derive(Clone, Debug, PartialEq, Eq)]
pub enum TagValue {
    /// Delimiters and sequences: no inline value.
    Ignored,
    /// A reference to another tag: (group, element).
    Attribute(u16, u16),
    U16(u16),
    I16(i16),
    U32(u32),
    I32(i32),
    /// A single 32-bit float, as its IEEE-754 bit pattern.
    F32Bits(u32),
    /// A single 64-bit float, as its IEEE-754 bit pattern.
    F64Bits(u64),
    /// A numeric value whose multiplicity is not one: its raw bytes.
    Numbers(Vec<u8>),
    /// A single piece of text.
    Text(String),
    /// Text holding several backslash-separated values: their count and the
    /// raw text.
    Multiple(usize, String),
    /// An opaque value, verbatim.
    Bytes(Vec<u8>),
}

/// The mathematical content of a [`TagValue`].
pub enum TagValueView {
    Ignored,
    Attribute(u16, u16),
    U16(u16),
    I16(i16),
    U32(u32),
    I32(i32),
    F32Bits(u32),
    F64Bits(u64),
    Numbers(Seq<u8>),
    Text(Seq<char>),
    Multiple(usize, Seq<char>),
    Bytes(Seq<u8>),
}

impl View for TagValue {
    type V = TagValueView;

    open spec fn view(&self) -> TagValueView {
        match self {
            TagValue::Ignored => TagValueView::Ignored,
            TagValue::Attribute(g, e) => TagValueView::Attribute(*g, *e),
            TagValue::U16(v) => TagValueView::U16(*v),
            TagValue::I16(v) => TagValueView::I16(*v),
            TagValue::U32(v) => TagValueView::U32(*v),
            TagValue::I32(v) => TagValueView::I32(*v),
            TagValue::F32Bits(v) => TagValueView::F32Bits(*v),
            TagValue::F64Bits(v) => TagValueView::F64Bits(*v),
            TagValue::Numbers(b) => TagValueView::Numbers(b@),
            TagValue::Text(s) => TagValueView::Text(s@),
            TagValue::Multiple(n, s) => TagValueView::Multiple(*n, s@),
            TagValue::Bytes(b) => TagValueView::Bytes(b@),
        }
    }
}

/// Where an element's value starts and how long its length field declared it
/// to be (`None`: undefined length).
#[derive(Clone, Copy, Debug, PartialEq, Eq, Structural)]
pub struct TagMarker {
    pub value_length: Option<u32>,
    pub stream_position: usize,
}

/// One decoded data element.
#[derive(Clone, Debug, PartialEq, Eq)]
pub struct DicomTag {
    pub group: u16,
    pub element: u16,
    /// The syntax the element was decoded under.
    pub syntax: TransferSyntax,
    pub vr: VrType,
    pub marker: TagMarker,
    pub value: TagValue,
}

/// The mathematical content of a [`DicomTag`].
pub struct DicomTagView {
    pub group: u16,
    pub element: u16,
    pub syntax: TransferSyntax,
    pub vr: VrType,
    pub marker: TagMarker,
    pub value: TagValueView,
}

impl View for DicomTag {
    type V = DicomTagView;

    open spec fn view(&self) -> DicomTagView {
        DicomTagView {
            group: self.group,
            element: self.element,
            syntax: self.syntax,
            vr: self.vr,
            marker: self.marker,
            value: self.value@,
        }
    }
}

/// The syntax that decoding `tag` switches to: none for elements other than
/// the Transfer Syntax UID; for that element, the syntax its text names, and
/// an error if its value is not text.
pub open spec fn syntax_change(tag: DicomTagView) -> Result<Option<TransferSyntax>, DecodeError> {
    if is_transfer_syntax_uid(tag.group, tag.element) {
        match tag.value {
            TagValueView::Text(s) => Ok(Some(syntax_of_uid(s))),
            TagValueView::Multiple(_, s) => Ok(Some(syntax_of_uid(s))),
            _ => Err(DecodeError::NonTextualTransferSyntax),
        }
    } else {
        Ok(None)
    }
}

impl DicomTag {
    /// The transfer syntax this element selects for what follows it, if it is
    /// the Transfer Syntax UID.
    pub fn try_transfer_syntax(&self) -> (r: Result<Option<TransferSyntax>, DecodeError>)
        ensures
            r == syntax_change(self@),
    {
        if is_transfer_syntax_uid(self.group, self.element) {
            match &self.value {
                TagValue::Text(s) => Ok(Some(TransferSyntax::parse_str(s.as_str()))),
                TagValue::Multiple(_, s) => Ok(Some(TransferSyntax::parse_str(s.as_str()))),
                _ => Err(DecodeError::NonTextualTransferSyntax),
            }
        } else {
            Ok(None)
        }
    }
}

} // verus!
