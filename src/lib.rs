//! Decoding of DICOM data-element streams into a tree of tagged elements.
//!
//! The stream is read through [`readers::ByteCursor`]. [`dicom_reader::next_tag`]
//! decodes one element and is proved to agree with `dicom_reader::element_at`,
//! which states the wire format byte by byte. [`dicom::parse`] descends into
//! nested sequences, is proved to agree with `dicom::walk`, and hands every
//! element to a [`dicom_handlers::DicomHandler`].
pub mod dicom;
pub mod dicom_handlers;
pub mod dicom_reader;
pub mod dicom_tag;
pub mod errors;
pub mod readers;
pub mod tags;
pub mod transfer_syntax;
pub mod vr_type;
