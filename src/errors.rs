//! The ways in which decoding a stream can fail.
use vstd::prelude::*;

verus! {

/// A fatal decoding condition; decoding stops at the first one.
#[derive(Clone, Copy, Debug, PartialEq, Eq, Structural)]
pub enum DecodeError {
    /// The stream ends before the bytes that an element needs.
    UnexpectedEnd,
    /// A 32-bit length field holds a negative value other than the
    /// undefined-length sentinel.
    NegativeLength,
    /// An undefined length on a VR that needs a concrete one.
    UndefinedLength,
    /// A numeric VR whose length is not a multiple of its value width.
    MalformedLength,
    /// Text that is not valid UTF-8.
    InvalidText,
    /// A Transfer Syntax UID element whose value is not text.
    NonTextualTransferSyntax,
}

} // verus!
