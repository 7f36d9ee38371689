//! Transfer syntaxes: how elements encode their VR and in which byte order.
use vstd::prelude::*;

verus! {

/// UID of the explicit-VR little-endian transfer syntax.
pub const EXPLICIT_LE: &'static str = "1.2.840.10008.1.2.1";

/// UID of the implicit-VR little-endian transfer syntax.
pub const IMPLICIT_LE: &'static str = "1.2.840.10008.1.2";

/// UID of the explicit-VR big-endian transfer syntax.
pub const EXPLICIT_BE: &'static str = "1.2.840.10008.1.2.2";

/// Whether each element carries its VR code in the stream.
#[derive(Clone, Copy, Debug, PartialEq, Eq, Structural)]
pub enum VrEncoding {
    Explicit,
    Implicit,
}

/// Byte order of the fixed-width integers of an element.
#[derive(Clone, Copy, Debug, PartialEq, Eq, Structural)]
pub enum EndianEncoding {
    LittleEndian,
    BigEndian,
}

/// The pair (VR encoding, byte order) that governs how elements are laid out.
#[derive(Clone, Copy, Debug, PartialEq, Eq, Structural)]
pub struct TransferSyntax {
    pub vr_encoding: VrEncoding,
    pub endian_encoding: EndianEncoding,
}

/// Explicit VR, little endian: the syntax of the file meta group and the
/// fallback for unrecognised UIDs.
pub open spec fn default_syntax() -> TransferSyntax {
    TransferSyntax { vr_encoding: VrEncoding::Explicit, endian_encoding: EndianEncoding::LittleEndian }
}

/// The syntax that a transfer-syntax UID selects.
pub open spec fn syntax_of_uid(uid: Seq<char>) -> TransferSyntax {
    if uid == EXPLICIT_LE@ {
        TransferSyntax { vr_encoding: VrEncoding::Explicit, endian_encoding: EndianEncoding::LittleEndian }
    } else if uid == EXPLICIT_BE@ {
        TransferSyntax { vr_encoding: VrEncoding::Explicit, endian_encoding: EndianEncoding::BigEndian }
    } else if uid == IMPLICIT_LE@ {
        TransferSyntax { vr_encoding: VrEncoding::Implicit, endian_encoding: EndianEncoding::LittleEndian }
    } else {
        default_syntax()
    }
}

/// Character-by-character equality of two strings.
pub fn str_equal(a: &str, b: &str) -> (r: bool)
    ensures
        r == (a@ == b@),
{
    let n = a.unicode_len();
    if n != b.unicode_len() {
        return false;
    }
    let mut i: usize = 0;
    while i < n
        invariant
            n == a@.len(),
            n == b@.len(),
            i <= n,
            forall|j: int| 0 <= j < i ==> a@[j] == b@[j],
        decreases n - i,
    {
        if a.get_char(i) != b.get_char(i) {
            return false;
        }
        i = i + 1;
    }
    assert(a@ =~= b@);
    true
}

impl TransferSyntax {
    /// Explicit VR, little endian.
    pub fn default() -> (r: TransferSyntax)
        ensures
            r == default_syntax(),
    {
        TransferSyntax { vr_encoding: VrEncoding::Explicit, endian_encoding: EndianEncoding::LittleEndian }
    }

    /// Recognises the three uncompressed standard UIDs; any other string
    /// selects the default syntax.
    pub fn parse_str(syntax: &str) -> (r: TransferSyntax)
        ensures
            r == syntax_of_uid(syntax@),
    {
        if str_equal(syntax, EXPLICIT_LE) {
            TransferSyntax { vr_encoding: VrEncoding::Explicit, endian_encoding: EndianEncoding::LittleEndian }
        } else if str_equal(syntax, EXPLICIT_BE) {
            TransferSyntax { vr_encoding: VrEncoding::Explicit, endian_encoding: EndianEncoding::BigEndian }
        } else if str_equal(syntax, IMPLICIT_LE) {
            TransferSyntax { vr_encoding: VrEncoding::Implicit, endian_encoding: EndianEncoding::LittleEndian }
        } else {
            TransferSyntax::default()
        }
    }
}

/// Whether `syntax` names one of the three uncompressed transfer syntaxes.
pub open spec fn is_uncompressed(syntax: Option<Seq<char>>) -> bool {
    match syntax {
        Some(s) => s == EXPLICIT_LE@ || s == EXPLICIT_BE@ || s == IMPLICIT_LE@,
        None => false,
    }
}

/// Whether the given UID, if any, is one of the three uncompressed transfer
/// syntaxes.
pub fn not_compressed(syntax: Option<&str>) -> (r: bool)
    ensures
        r == is_uncompressed(
            match syntax {
                Some(s) => Some(s@),
                None => None,
            },
        ),
{
    match syntax {
        Some(s) => str_equal(s, EXPLICIT_LE) || str_equal(s, EXPLICIT_BE) || str_equal(s, IMPLICIT_LE),
        None => false,
    }
}

/// The registered name of a SOP class UID, for the classes in the catalog.
pub open spec fn sop_class_name(id: Seq<char>) -> Option<Seq<char>> {
    if id == "1.2.840.10008.5.1.4.1.1.9.1.3"@ {
        Some("Ambulatory Electrocardiogram Waveform"@)
    } else if id == "1.2.840.10008.5.1.1.15"@ {
        Some("Basic Annotation Box"@)
    } else if id == "1.2.840.10008.5.1.1.4.1"@ {
        Some("Basic Color Image Box"@)
    } else if id == "1.2.840.10008.5.1.1.2"@ {
        Some("Basic Film Box"@)
    } else if id == "1.2.840.10008.5.1.1.1"@ {
        Some("Basic Film Session"@)
    } else if id == "1.2.840.10008.5.1.1.4"@ {
        Some("Basic Grayscale Image Box"@)
    } else if id == "1.2.840.10008.5.1.1.24.1"@ {
        Some("Basic Print Image Overlay Box (Retired)"@)
    } else if id == "1.2.840.10008.1.9"@ {
        Some("Basic Study Content Notification (Retired)"@)
    } else if id == "1.2.840.10008.5.1.4.1.1.88.11"@ {
        Some("Basic Text Structure Report"@)
    } else if id == "1.2.840.10008.5.1.4.1.1.9.4.1"@ {
        Some("Basic Voice Audio Waveform"@)
    } else if id == "1.2.840.10008.5.1.4.1.1.11.4"@ {
        Some("Blending Softcopy Presentation State"@)
    } else if id == "1.2.840.10008.5.1.4.37.2"@ {
        Some("Breast Imaging Relevant Patient"@)
    } else if id == "1.2.840.10008.5.1.4.1.1.9.3.1"@ {
        Some("Cardiac Electrophysiology Waveform"@)
    } else if id == "1.2.840.10008.5.1.4.37.3"@ {
        Some("Cardiac Relevant Patient"@)
    } else if id == "1.2.840.10008.5.1.4.1.1.88.65"@ {
        Some("Chest Computer-Aid Diagnosis Structured Report"@)
    } else if id == "1.2.840.10008.5.1.4.1.1.11.2"@ {
        Some("Color Softcopy Presentation State"@)
    } else if id == "1.2.840.10008.5.1.4.1.1.88.33"@ {
        Some("Comprehensive Structured Report"@)
    } else if id == "1.2.840.10008.5.1.4.1.1.1"@ {
        Some("Computed Radiography Image"@)
    } else if id == "1.2.840.10008.5.1.4.1.1.2"@ {
        Some("Computed Tomography Image"@)
    } else if id == "1.2.840.10008.5.1.4.1.1.66.3"@ {
        Some("Deformable Spatial Registration"@)
    } else if id == "1.2.840.10008.3.1.2.6.1"@ {
        Some("Detached Interpretation Management (Retired)"@)
    } else if id == "1.2.840.10008.3.1.2.1.1"@ {
        Some("Detached Patient Management (Retired)"@)
    } else if id == "1.2.840.10008.3.1.2.5.1"@ {
        Some("Detached Results Management (Retired)"@)
    } else if id == "1.2.840.10008.3.1.2.3.1"@ {
        Some("Detached Study Management (Retired)"@)
    } else if id == "1.2.840.10008.3.1.2.2.1"@ {
        Some("Detached Visit Management (Retired)"@)
    } else if id == "1.2.840.10008.5.1.4.1.1.1.3"@ {
        Some("Digital Intra-Oral X-Ray Image - for Presentation"@)
    } else if id == "1.2.840.10008.5.1.4.1.1.1.3.1"@ {
        Some("Digital Intra-Oral XRay Image - for Processing"@)
    } else if id == "1.2.840.10008.5.1.4.1.1.1.2"@ {
        Some("Digital Mammography X-Ray Image - for Presentation"@)
    } else if id == "1.2.840.10008.5.1.4.1.1.1.2.1"@ {
        Some("Digital Mammograph X-Ray Image - for Processing"@)
    } else if id == "1.2.840.10008.5.1.4.1.1.1.1"@ {
        Some("Digital X-Ray Image - Presentation"@)
    } else if id == "1.2.840.10008.5.1.4.1.1.1.1.1"@ {
        Some("Digital X-Ray Image for Processing"@)
    } else if id == "1.2.840.10008.5.1.4.1.1.104.1"@ {
        Some("Encapsulated Portable Document Format"@)
    } else if id == "1.2.840.10008.5.1.4.1.1.2.1"@ {
        Some("Enhanced Computed Tomography Image"@)
    } else if id == "1.2.840.10008.5.1.4.1.1.4.1"@ {
        Some("Enhanced Magnetic Resonance Image"@)
    } else if id == "1.2.840.10008.5.1.4.1.1.88.22"@ {
        Some("Enhanced Structure Report"@)
    } else if id == "1.2.840.10008.5.1.4.1.1.12.1.1"@ {
        Some("Enhanced X-Ray Angiographic Image"@)
    } else if id == "1.2.840.10008.5.1.4.1.1.12.2.1"@ {
        Some("Enhanced X-Ray Radiofluoroscopic Image"@)
    } else if id == "1.2.840.10008.5.1.4.1.1.9.1.2"@ {
        Some("General Electrocardiogram Waveform"@)
    } else if id == "1.2.840.10008.5.1.4.32.3"@ {
        Some("General Purpose Performed Procedure Step"@)
    } else if id == "1.2.840.10008.5.1.4.32.2"@ {
        Some("General Purpose Scheduled Procedure Step"@)
    } else if id == "1.2.840.10008.5.1.4.32.1"@ {
        Some("General Purpose Worklist"@)
    } else if id == "1.2.840.10008.5.1.4.37.1"@ {
        Some("General Relevant Patient"@)
    } else if id == "1.2.840.10008.5.1.4.1.1.11.1"@ {
        Some("Grayscale Softcopy Presentation State"@)
    } else if id == "1.2.840.10008.5.1.4.38.1"@ {
        Some("Hanging Protocol"@)
    } else if id == "1.2.840.10008.5.1.4.38.3"@ {
        Some("Hanging Protocol - Move"@)
    } else if id == "1.2.840.10008.5.1.4.38.2"@ {
        Some("Hanging Protocol - Query"@)
    } else if id == "1.2.840.10008.5.1.1.30"@ {
        Some("Hardcopy Color Image (Retired)"@)
    } else if id == "1.2.840.10008.5.1.1.29"@ {
        Some("Hardcopy Grayscale Image (Retired)"@)
    } else if id == "1.2.840.10008.5.1.4.1.1.9.2.1"@ {
        Some("Hemodynamic Waveform"@)
    } else if id == "1.2.840.10008.5.1.1.24"@ {
        Some("Image Overlay Box (Retired)"@)
    } else if id == "1.2.840.10008.5.1.4.33"@ {
        Some("Instance Availability"@)
    } else if id == "1.2.840.10008.5.1.4.1.1.88.59"@ {
        Some("Key Object Selection Document"@)
    } else if id == "1.2.840.10008.5.1.4.1.1.4"@ {
        Some("Magnetic Resonance Image"@)
    } else if id == "1.2.840.10008.5.1.4.1.1.4.2"@ {
        Some("Magnetic Resonance Spectroscopy"@)
    } else if id == "1.2.840.10008.5.1.4.1.1.88.50"@ {
        Some("Mammography Computer-Aided Diagnosis Structured Report"@)
    } else if id == "1.2.840.10008.5.1.1.33"@ {
        Some("Media Creation Management"@)
    } else if id == "1.2.840.10008.1.3.10"@ {
        Some("Media Storage Directory"@)
    } else if id == "1.2.840.10008.3.1.2.3.3"@ {
        Some("Modality Performed Procedure Step"@)
    } else if id == "1.2.840.10008.3.1.2.3.5"@ {
        Some("Modality Performed Procedure Step - Notification"@)
    } else if id == "1.2.840.10008.3.1.2.3.4"@ {
        Some("Modality Performed Procedure Step - Retrieve"@)
    } else if id == "1.2.840.10008.5.1.4.31"@ {
        Some("Modality Worklist"@)
    } else if id == "1.2.840.10008.5.1.4.1.1.7.2"@ {
        Some("Multi-Frame Grayscale Byte Secondary Capture Image"@)
    } else if id == "1.2.840.10008.5.1.4.1.1.7.3"@ {
        Some("Multi-Frame Grayscale Word Secondary Capture Image"@)
    } else if id == "1.2.840.10008.5.1.4.1.1.7.1"@ {
        Some("Multi-Frame Single Bit Secondary Capture Image"@)
    } else if id == "1.2.840.10008.5.1.4.1.1.7.4"@ {
        Some("Multi-Frame True Color Secondary Capture Image"@)
    } else if id == "1.2.840.10008.5.1.4.1.1.20"@ {
        Some("Nuclear Medicine Image"@)
    } else if id == "1.2.840.10008.5.1.4.1.1.5"@ {
        Some("Nuclear Medicine Image (Retired)"@)
    } else if id == "1.2.840.10008.5.1.4.1.1.77.1.5.2"@ {
        Some("Ophthalmic Photography 16 Bit Image"@)
    } else if id == "1.2.840.10008.5.1.4.1.1.77.1.5.1"@ {
        Some("Ophthalmic Photography 8 Bit Image"@)
    } else if id == "1.2.840.10008.5.1.4.1.2.1.2"@ {
        Some("Patient Root - Move"@)
    } else if id == "1.2.840.10008.5.1.4.1.2.1.1"@ {
        Some("Patient Root - Query"@)
    } else if id == "1.2.840.10008.5.1.4.1.2.1.3"@ {
        Some("Patient Root - Retrieve"@)
    } else if id == "1.2.840.10008.5.1.4.1.2.3.2"@ {
        Some("Patient/Study Only - Move (Retired)"@)
    } else if id == "1.2.840.10008.5.1.4.1.2.3.1"@ {
        Some("Patient/Study Only - Query (Retired)"@)
    } else if id == "1.2.840.10008.5.1.4.1.2.3.3"@ {
        Some("Patient/Study Only - Retrieve (Retired)"@)
    } else if id == "1.2.840.10008.5.1.4.1.1.128"@ {
        Some("Positron Emission Tomography Image"@)
    } else if id == "1.2.840.10008.5.1.1.23"@ {
        Some("Presentation Lookup Table"@)
    } else if id == "1.2.840.10008.5.1.1.16"@ {
        Some("Printer"@)
    } else if id == "1.2.840.10008.5.1.1.16.376"@ {
        Some("Printer Configuration"@)
    } else if id == "1.2.840.10008.5.1.1.14"@ {
        Some("Print Job"@)
    } else if id == "1.2.840.10008.5.1.1.26"@ {
        Some("Print Queue Management (Retired)"@)
    } else if id == "1.2.840.10008.1.40"@ {
        Some("Procedural Event Logging"@)
    } else if id == "1.2.840.10008.5.1.4.1.1.88.40"@ {
        Some("Procedure Log"@)
    } else if id == "1.2.840.10008.5.1.4.1.1.11.3"@ {
        Some("Pseudo-Color Softcopy Presentation State"@)
    } else if id == "1.2.840.10008.5.1.1.31"@ {
        Some("Pull Print Request (Retired)"@)
    } else if id == "1.2.840.10008.5.1.4.1.1.481.4"@ {
        Some("Radio Therapy Beams Treatment Record"@)
    } else if id == "1.2.840.10008.5.1.4.1.1.481.6"@ {
        Some("Radio Therapy Brachy Treatment Record"@)
    } else if id == "1.2.840.10008.5.1.4.1.1.481.2"@ {
        Some("Radio Therapy Dose"@)
    } else if id == "1.2.840.10008.5.1.4.1.1.481.1"@ {
        Some("Radio Therapy Image"@)
    } else if id == "1.2.840.10008.5.1.4.1.1.481.9"@ {
        Some("Radio Therapy Ion Beams Treatment Record"@)
    } else if id == "1.2.840.10008.5.1.4.1.1.481.8"@ {
        Some("Radio Therapy Ion Plan"@)
    } else if id == "1.2.840.10008.5.1.4.1.1.481.5"@ {
        Some("Radio Therapy Plan"@)
    } else if id == "1.2.840.10008.5.1.4.1.1.481.3"@ {
        Some("Radio Therapy Structure Set"@)
    } else if id == "1.2.840.10008.5.1.4.1.1.481.7"@ {
        Some("Radio Therapy Treatment Summary Record"@)
    } else if id == "1.2.840.10008.5.1.4.1.1.66"@ {
        Some("Raw Data"@)
    } else if id == "1.2.840.10008.5.1.4.1.1.67"@ {
        Some("Real World Value Mapping"@)
    } else if id == "1.2.840.10008.5.1.1.4.2"@ {
        Some("Referenced Image Box (Retired)"@)
    } else if id == "1.2.840.10008.5.1.4.1.1.7"@ {
        Some("Secondary Capture Image"@)
    } else if id == "1.2.840.10008.5.1.4.1.1.66.4"@ {
        Some("Segmentation"@)
    } else if id == "1.3.12.2.1107.5.9.1"@ {
        Some("Siemens CSA Non-Image"@)
    } else if id == "1.3.12.2.1107.5.99.3.11"@ {
        Some("Siemens syngo Frame Set"@)
    } else if id == "1.3.12.2.1107.5.99.3.10"@ {
        Some("Siemens syngo Volume Set"@)
    } else if id == "1.2.840.10008.5.1.4.1.1.66.2"@ {
        Some("Spatial Fiducials"@)
    } else if id == "1.2.840.10008.5.1.4.1.1.66.1"@ {
        Some("Spatial Registration"@)
    } else if id == "1.2.840.10008.5.1.4.1.1.9"@ {
        Some("Standalone Curve (Retired)"@)
    } else if id == "1.2.840.10008.5.1.4.1.1.10"@ {
        Some("Standalone Modality Lookup Table (Retired)"@)
    } else if id == "1.2.840.10008.5.1.4.1.1.8"@ {
        Some("Standalone Overlay (Retired)"@)
    } else if id == "1.2.840.10008.5.1.4.1.1.129"@ {
        Some("Standalone Positron Emission Tomography Curve (Retired)"@)
    } else if id == "1.2.840.10008.5.1.4.1.1.11"@ {
        Some("Standalone Volume of Interest Lookup Table (Retired)"@)
    } else if id == "1.2.840.10008.5.1.4.1.1.77.1.5.3"@ {
        Some("Stereometric Relationship"@)
    } else if id == "1.2.840.10008.1.20.2"@ {
        Some("Storage Commitment Pull Model (Retired)"@)
    } else if id == "1.2.840.10008.1.20.1"@ {
        Some("Storage Commitment Push Model"@)
    } else if id == "1.2.840.10008.5.1.1.27"@ {
        Some("Stored Print (Retired)"@)
    } else if id == "1.2.840.10008.3.1.2.3.2"@ {
        Some("Study Component (Retired)"@)
    } else if id == "1.2.840.10008.5.1.4.1.2.2.2"@ {
        Some("Study Root - Move"@)
    } else if id == "1.2.840.10008.5.1.4.1.2.2.1"@ {
        Some("Study Root - Query"@)
    } else if id == "1.2.840.10008.5.1.4.1.2.2.3"@ {
        Some("Study Root - Retrieve"@)
    } else if id == "1.2.392.200036.9116.7.8.1.1.1"@ {
        Some("Toshiba MDW Non- Image"@)
    } else if id == "1.2.840.10008.5.1.4.1.1.6.1"@ {
        Some("Ultrasound Image"@)
    } else if id == "1.2.840.10008.5.1.4.1.1.6"@ {
        Some("Ultrasound Image (Retired)"@)
    } else if id == "1.2.840.10008.5.1.4.1.1.3.1"@ {
        Some("Ultrasound Multi-Frame Image"@)
    } else if id == "1.2.840.10008.5.1.4.1.1.3"@ {
        Some("Ultrasound Multi-Frame Image (Retired)"@)
    } else if id == "1.2.840.10008.1.1"@ {
        Some("Verification"@)
    } else if id == "1.2.840.10008.5.1.4.1.1.77.1.1.1"@ {
        Some("Video Endoscopic Image"@)
    } else if id == "1.2.840.10008.5.1.4.1.1.77.1.2.1"@ {
        Some("Video Microscopic Image"@)
    } else if id == "1.2.840.10008.5.1.4.1.1.77.1.4.1"@ {
        Some("Video Photograph Image"@)
    } else if id == "1.2.840.10008.5.1.4.1.1.77.1.1"@ {
        Some("Visible Light Endoscopic Image"@)
    } else if id == "1.2.840.10008.5.1.4.1.1.77.1"@ {
        Some("Visible Light Image (Retired)"@)
    } else if id == "1.2.840.10008.5.1.4.1.1.77.1.2"@ {
        Some("Visible Light Microscopic Image"@)
    } else if id == "1.2.840.10008.5.1.4.1.1.77.2"@ {
        Some("Visible Light Multi-Frame Image (Retired)"@)
    } else if id == "1.2.840.10008.5.1.4.1.1.77.1.4"@ {
        Some("Visible Light Photographic Image"@)
    } else if id == "1.2.840.10008.5.1.4.1.1.77.1.3"@ {
        Some("Visible Light Slide-Coordinates Microscopic Image"@)
    } else if id == "1.2.840.10008.5.1.1.22"@ {
        Some("Volume of Interest Lookup Table Box (Retired)"@)
    } else if id == "1.2.840.10008.5.1.4.1.1.9.1.1"@ {
        Some("X12-Lead Electrocardiogram Waveform"@)
    } else if id == "1.2.840.10008.5.1.4.1.1.13.1.1"@ {
        Some("X-Ray 3D Angiographic Image Storage"@)
    } else if id == "1.2.840.10008.5.1.4.1.1.13.1.2"@ {
        Some("X-Ray 3D Craniofacial Image Storage"@)
    } else if id == "1.2.840.10008.5.1.4.1.1.12.3"@ {
        Some("X-Ray Angiographic BiPlane Image (Retired)"@)
    } else if id == "1.2.840.10008.5.1.4.1.1.12.1"@ {
        Some("X-Ray Angiographic Image"@)
    } else if id == "1.2.840.10008.5.1.4.1.1.88.67"@ {
        Some("X-Ray Radiation Dose Structured Report"@)
    } else if id == "1.2.840.10008.5.1.4.1.1.12.2"@ {
        Some("X-Ray Radiofluoroscopic"@)
    } else {
        None
    }
}

/// Looks up the name of a SOP class UID.
pub fn try_name(transfer_syntax_id: &str) -> (r: Option<&'static str>)
    ensures
        match r {
            Some(n) => sop_class_name(transfer_syntax_id@) == Some(n@),
            None => sop_class_name(transfer_syntax_id@) is None,
        },
{
    if str_equal(transfer_syntax_id, "1.2.840.10008.5.1.4.1.1.9.1.3") {
        return Some("Ambulatory Electrocardiogram Waveform");
    }
    if str_equal(transfer_syntax_id, "1.2.840.10008.5.1.1.15") {
        return Some("Basic Annotation Box");
    }
    if str_equal(transfer_syntax_id, "1.2.840.10008.5.1.1.4.1") {
        return Some("Basic Color Image Box");
    }
    if str_equal(transfer_syntax_id, "1.2.840.10008.5.1.1.2") {
        return Some("Basic Film Box");
    }
    if str_equal(transfer_syntax_id, "1.2.840.10008.5.1.1.1") {
        return Some("Basic Film Session");
    }
    if str_equal(transfer_syntax_id, "1.2.840.10008.5.1.1.4") {
        return Some("Basic Grayscale Image Box");
    }
    if str_equal(transfer_syntax_id, "1.2.840.10008.5.1.1.24.1") {
        return Some("Basic Print Image Overlay Box (Retired)");
    }
    if str_equal(transfer_syntax_id, "1.2.840.10008.1.9") {
        return Some("Basic Study Content Notification (Retired)");
    }
    if str_equal(transfer_syntax_id, "1.2.840.10008.5.1.4.1.1.88.11") {
        return Some("Basic Text Structure Report");
    }
    if str_equal(transfer_syntax_id, "1.2.840.10008.5.1.4.1.1.9.4.1") {
        return Some("Basic Voice Audio Waveform");
    }
    if str_equal(transfer_syntax_id, "1.2.840.10008.5.1.4.1.1.11.4") {
        return Some("Blending Softcopy Presentation State");
    }
    if str_equal(transfer_syntax_id, "1.2.840.10008.5.1.4.37.2") {
        return Some("Breast Imaging Relevant Patient");
    }
    if str_equal(transfer_syntax_id, "1.2.840.10008.5.1.4.1.1.9.3.1") {
        return Some("Cardiac Electrophysiology Waveform");
    }
    if str_equal(transfer_syntax_id, "1.2.840.10008.5.1.4.37.3") {
        return Some("Cardiac Relevant Patient");
    }
    if str_equal(transfer_syntax_id, "1.2.840.10008.5.1.4.1.1.88.65") {
        return Some("Chest Computer-Aid Diagnosis Structured Report");
    }
    if str_equal(transfer_syntax_id, "1.2.840.10008.5.1.4.1.1.11.2") {
        return Some("Color Softcopy Presentation State");
    }
    if str_equal(transfer_syntax_id, "1.2.840.10008.5.1.4.1.1.88.33") {
        return Some("Comprehensive Structured Report");
    }
    if str_equal(transfer_syntax_id, "1.2.840.10008.5.1.4.1.1.1") {
        return Some("Computed Radiography Image");
    }
    if str_equal(transfer_syntax_id, "1.2.840.10008.5.1.4.1.1.2") {
        return Some("Computed Tomography Image");
    }
    if str_equal(transfer_syntax_id, "1.2.840.10008.5.1.4.1.1.66.3") {
        return Some("Deformable Spatial Registration");
    }
    if str_equal(transfer_syntax_id, "1.2.840.10008.3.1.2.6.1") {
        return Some("Detached Interpretation Management (Retired)");
    }
    if str_equal(transfer_syntax_id, "1.2.840.10008.3.1.2.1.1") {
        return Some("Detached Patient Management (Retired)");
    }
    if str_equal(transfer_syntax_id, "1.2.840.10008.3.1.2.5.1") {
        return Some("Detached Results Management (Retired)");
    }
    if str_equal(transfer_syntax_id, "1.2.840.10008.3.1.2.3.1") {
        return Some("Detached Study Management (Retired)");
    }
    if str_equal(transfer_syntax_id, "1.2.840.10008.3.1.2.2.1") {
        return Some("Detached Visit Management (Retired)");
    }
    if str_equal(transfer_syntax_id, "1.2.840.10008.5.1.4.1.1.1.3") {
        return Some("Digital Intra-Oral X-Ray Image - for Presentation");
    }
    if str_equal(transfer_syntax_id, "1.2.840.10008.5.1.4.1.1.1.3.1") {
        return Some("Digital Intra-Oral XRay Image - for Processing");
    }
    if str_equal(transfer_syntax_id, "1.2.840.10008.5.1.4.1.1.1.2") {
        return Some("Digital Mammography X-Ray Image - for Presentation");
    }
    if str_equal(transfer_syntax_id, "1.2.840.10008.5.1.4.1.1.1.2.1") {
        return Some("Digital Mammograph X-Ray Image - for Processing");
    }
    if str_equal(transfer_syntax_id, "1.2.840.10008.5.1.4.1.1.1.1") {
        return Some("Digital X-Ray Image - Presentation");
    }
    if str_equal(transfer_syntax_id, "1.2.840.10008.5.1.4.1.1.1.1.1") {
        return Some("Digital X-Ray Image for Processing");
    }
    if str_equal(transfer_syntax_id, "1.2.840.10008.5.1.4.1.1.104.1") {
        return Some("Encapsulated Portable Document Format");
    }
    if str_equal(transfer_syntax_id, "1.2.840.10008.5.1.4.1.1.2.1") {
        return Some("Enhanced Computed Tomography Image");
    }
    if str_equal(transfer_syntax_id, "1.2.840.10008.5.1.4.1.1.4.1") {
        return Some("Enhanced Magnetic Resonance Image");
    }
    if str_equal(transfer_syntax_id, "1.2.840.10008.5.1.4.1.1.88.22") {
        return Some("Enhanced Structure Report");
    }
    if str_equal(transfer_syntax_id, "1.2.840.10008.5.1.4.1.1.12.1.1") {
        return Some("Enhanced X-Ray Angiographic Image");
    }
    if str_equal(transfer_syntax_id, "1.2.840.10008.5.1.4.1.1.12.2.1") {
        return Some("Enhanced X-Ray Radiofluoroscopic Image");
    }
    if str_equal(transfer_syntax_id, "1.2.840.10008.5.1.4.1.1.9.1.2") {
        return Some("General Electrocardiogram Waveform");
    }
    if str_equal(transfer_syntax_id, "1.2.840.10008.5.1.4.32.3") {
        return Some("General Purpose Performed Procedure Step");
    }
    if str_equal(transfer_syntax_id, "1.2.840.10008.5.1.4.32.2") {
        return Some("General Purpose Scheduled Procedure Step");
    }
    if str_equal(transfer_syntax_id, "1.2.840.10008.5.1.4.32.1") {
        return Some("General Purpose Worklist");
    }
    if str_equal(transfer_syntax_id, "1.2.840.10008.5.1.4.37.1") {
        return Some("General Relevant Patient");
    }
    if str_equal(transfer_syntax_id, "1.2.840.10008.5.1.4.1.1.11.1") {
        return Some("Grayscale Softcopy Presentation State");
    }
    if str_equal(transfer_syntax_id, "1.2.840.10008.5.1.4.38.1") {
        return Some("Hanging Protocol");
    }
    if str_equal(transfer_syntax_id, "1.2.840.10008.5.1.4.38.3") {
        return Some("Hanging Protocol - Move");
    }
    if str_equal(transfer_syntax_id, "1.2.840.10008.5.1.4.38.2") {
        return Some("Hanging Protocol - Query");
    }
    if str_equal(transfer_syntax_id, "1.2.840.10008.5.1.1.30") {
        return Some("Hardcopy Color Image (Retired)");
    }
    if str_equal(transfer_syntax_id, "1.2.840.10008.5.1.1.29") {
        return Some("Hardcopy Grayscale Image (Retired)");
    }
    if str_equal(transfer_syntax_id, "1.2.840.10008.5.1.4.1.1.9.2.1") {
        return Some("Hemodynamic Waveform");
    }
    if str_equal(transfer_syntax_id, "1.2.840.10008.5.1.1.24") {
        return Some("Image Overlay Box (Retired)");
    }
    if str_equal(transfer_syntax_id, "1.2.840.10008.5.1.4.33") {
        return Some("Instance Availability");
    }
    if str_equal(transfer_syntax_id, "1.2.840.10008.5.1.4.1.1.88.59") {
        return Some("Key Object Selection Document");
    }
    if str_equal(transfer_syntax_id, "1.2.840.10008.5.1.4.1.1.4") {
        return Some("Magnetic Resonance Image");
    }
    if str_equal(transfer_syntax_id, "1.2.840.10008.5.1.4.1.1.4.2") {
        return Some("Magnetic Resonance Spectroscopy");
    }
    if str_equal(transfer_syntax_id, "1.2.840.10008.5.1.4.1.1.88.50") {
        return Some("Mammography Computer-Aided Diagnosis Structured Report");
    }
    if str_equal(transfer_syntax_id, "1.2.840.10008.5.1.1.33") {
        return Some("Media Creation Management");
    }
    if str_equal(transfer_syntax_id, "1.2.840.10008.1.3.10") {
        return Some("Media Storage Directory");
    }
    if str_equal(transfer_syntax_id, "1.2.840.10008.3.1.2.3.3") {
        return Some("Modality Performed Procedure Step");
    }
    if str_equal(transfer_syntax_id, "1.2.840.10008.3.1.2.3.5") {
        return Some("Modality Performed Procedure Step - Notification");
    }
    if str_equal(transfer_syntax_id, "1.2.840.10008.3.1.2.3.4") {
        return Some("Modality Performed Procedure Step - Retrieve");
    }
    if str_equal(transfer_syntax_id, "1.2.840.10008.5.1.4.31") {
        return Some("Modality Worklist");
    }
    if str_equal(transfer_syntax_id, "1.2.840.10008.5.1.4.1.1.7.2") {
        return Some("Multi-Frame Grayscale Byte Secondary Capture Image");
    }
    if str_equal(transfer_syntax_id, "1.2.840.10008.5.1.4.1.1.7.3") {
        return Some("Multi-Frame Grayscale Word Secondary Capture Image");
    }
    if str_equal(transfer_syntax_id, "1.2.840.10008.5.1.4.1.1.7.1") {
        return Some("Multi-Frame Single Bit Secondary Capture Image");
    }
    if str_equal(transfer_syntax_id, "1.2.840.10008.5.1.4.1.1.7.4") {
        return Some("Multi-Frame True Color Secondary Capture Image");
    }
    if str_equal(transfer_syntax_id, "1.2.840.10008.5.1.4.1.1.20") {
        return Some("Nuclear Medicine Image");
    }
    if str_equal(transfer_syntax_id, "1.2.840.10008.5.1.4.1.1.5") {
        return Some("Nuclear Medicine Image (Retired)");
    }
    if str_equal(transfer_syntax_id, "1.2.840.10008.5.1.4.1.1.77.1.5.2") {
        return Some("Ophthalmic Photography 16 Bit Image");
    }
    if str_equal(transfer_syntax_id, "1.2.840.10008.5.1.4.1.1.77.1.5.1") {
        return Some("Ophthalmic Photography 8 Bit Image");
    }
    if str_equal(transfer_syntax_id, "1.2.840.10008.5.1.4.1.2.1.2") {
        return Some("Patient Root - Move");
    }
    if str_equal(transfer_syntax_id, "1.2.840.10008.5.1.4.1.2.1.1") {
        return Some("Patient Root - Query");
    }
    if str_equal(transfer_syntax_id, "1.2.840.10008.5.1.4.1.2.1.3") {
        return Some("Patient Root - Retrieve");
    }
    if str_equal(transfer_syntax_id, "1.2.840.10008.5.1.4.1.2.3.2") {
        return Some("Patient/Study Only - Move (Retired)");
    }
    if str_equal(transfer_syntax_id, "1.2.840.10008.5.1.4.1.2.3.1") {
        return Some("Patient/Study Only - Query (Retired)");
    }
    if str_equal(transfer_syntax_id, "1.2.840.10008.5.1.4.1.2.3.3") {
        return Some("Patient/Study Only - Retrieve (Retired)");
    }
    if str_equal(transfer_syntax_id, "1.2.840.10008.5.1.4.1.1.128") {
        return Some("Positron Emission Tomography Image");
    }
    if str_equal(transfer_syntax_id, "1.2.840.10008.5.1.1.23") {
        return Some("Presentation Lookup Table");
    }
    if str_equal(transfer_syntax_id, "1.2.840.10008.5.1.1.16") {
        return Some("Printer");
    }
    if str_equal(transfer_syntax_id, "1.2.840.10008.5.1.1.16.376") {
        return Some("Printer Configuration");
    }
    if str_equal(transfer_syntax_id, "1.2.840.10008.5.1.1.14") {
        return Some("Print Job");
    }
    if str_equal(transfer_syntax_id, "1.2.840.10008.5.1.1.26") {
        return Some("Print Queue Management (Retired)");
    }
    if str_equal(transfer_syntax_id, "1.2.840.10008.1.40") {
        return Some("Procedural Event Logging");
    }
    if str_equal(transfer_syntax_id, "1.2.840.10008.5.1.4.1.1.88.40") {
        return Some("Procedure Log");
    }
    if str_equal(transfer_syntax_id, "1.2.840.10008.5.1.4.1.1.11.3") {
        return Some("Pseudo-Color Softcopy Presentation State");
    }
    if str_equal(transfer_syntax_id, "1.2.840.10008.5.1.1.31") {
        return Some("Pull Print Request (Retired)");
    }
    if str_equal(transfer_syntax_id, "1.2.840.10008.5.1.4.1.1.481.4") {
        return Some("Radio Therapy Beams Treatment Record");
    }
    if str_equal(transfer_syntax_id, "1.2.840.10008.5.1.4.1.1.481.6") {
        return Some("Radio Therapy Brachy Treatment Record");
    }
    if str_equal(transfer_syntax_id, "1.2.840.10008.5.1.4.1.1.481.2") {
        return Some("Radio Therapy Dose");
    }
    if str_equal(transfer_syntax_id, "1.2.840.10008.5.1.4.1.1.481.1") {
        return Some("Radio Therapy Image");
    }
    if str_equal(transfer_syntax_id, "1.2.840.10008.5.1.4.1.1.481.9") {
        return Some("Radio Therapy Ion Beams Treatment Record");
    }
    if str_equal(transfer_syntax_id, "1.2.840.10008.5.1.4.1.1.481.8") {
        return Some("Radio Therapy Ion Plan");
    }
    if str_equal(transfer_syntax_id, "1.2.840.10008.5.1.4.1.1.481.5") {
        return Some("Radio Therapy Plan");
    }
    if str_equal(transfer_syntax_id, "1.2.840.10008.5.1.4.1.1.481.3") {
        return Some("Radio Therapy Structure Set");
    }
    if str_equal(transfer_syntax_id, "1.2.840.10008.5.1.4.1.1.481.7") {
        return Some("Radio Therapy Treatment Summary Record");
    }
    if str_equal(transfer_syntax_id, "1.2.840.10008.5.1.4.1.1.66") {
        return Some("Raw Data");
    }
    if str_equal(transfer_syntax_id, "1.2.840.10008.5.1.4.1.1.67") {
        return Some("Real World Value Mapping");
    }
    if str_equal(transfer_syntax_id, "1.2.840.10008.5.1.1.4.2") {
        return Some("Referenced Image Box (Retired)");
    }
    if str_equal(transfer_syntax_id, "1.2.840.10008.5.1.4.1.1.7") {
        return Some("Secondary Capture Image");
    }
    if str_equal(transfer_syntax_id, "1.2.840.10008.5.1.4.1.1.66.4") {
        return Some("Segmentation");
    }
    if str_equal(transfer_syntax_id, "1.3.12.2.1107.5.9.1") {
        return Some("Siemens CSA Non-Image");
    }
    if str_equal(transfer_syntax_id, "1.3.12.2.1107.5.99.3.11") {
        return Some("Siemens syngo Frame Set");
    }
    if str_equal(transfer_syntax_id, "1.3.12.2.1107.5.99.3.10") {
        return Some("Siemens syngo Volume Set");
    }
    if str_equal(transfer_syntax_id, "1.2.840.10008.5.1.4.1.1.66.2") {
        return Some("Spatial Fiducials");
    }
    if str_equal(transfer_syntax_id, "1.2.840.10008.5.1.4.1.1.66.1") {
        return Some("Spatial Registration");
    }
    if str_equal(transfer_syntax_id, "1.2.840.10008.5.1.4.1.1.9") {
        return Some("Standalone Curve (Retired)");
    }
    if str_equal(transfer_syntax_id, "1.2.840.10008.5.1.4.1.1.10") {
        return Some("Standalone Modality Lookup Table (Retired)");
    }
    if str_equal(transfer_syntax_id, "1.2.840.10008.5.1.4.1.1.8") {
        return Some("Standalone Overlay (Retired)");
    }
    if str_equal(transfer_syntax_id, "1.2.840.10008.5.1.4.1.1.129") {
        return Some("Standalone Positron Emission Tomography Curve (Retired)");
    }
    if str_equal(transfer_syntax_id, "1.2.840.10008.5.1.4.1.1.11") {
        return Some("Standalone Volume of Interest Lookup Table (Retired)");
    }
    if str_equal(transfer_syntax_id, "1.2.840.10008.5.1.4.1.1.77.1.5.3") {
        return Some("Stereometric Relationship");
    }
    if str_equal(transfer_syntax_id, "1.2.840.10008.1.20.2") {
        return Some("Storage Commitment Pull Model (Retired)");
    }
    if str_equal(transfer_syntax_id, "1.2.840.10008.1.20.1") {
        return Some("Storage Commitment Push Model");
    }
    if str_equal(transfer_syntax_id, "1.2.840.10008.5.1.1.27") {
        return Some("Stored Print (Retired)");
    }
    if str_equal(transfer_syntax_id, "1.2.840.10008.3.1.2.3.2") {
        return Some("Study Component (Retired)");
    }
    if str_equal(transfer_syntax_id, "1.2.840.10008.5.1.4.1.2.2.2") {
        return Some("Study Root - Move");
    }
    if str_equal(transfer_syntax_id, "1.2.840.10008.5.1.4.1.2.2.1") {
        return Some("Study Root - Query");
    }
    if str_equal(transfer_syntax_id, "1.2.840.10008.5.1.4.1.2.2.3") {
        return Some("Study Root - Retrieve");
    }
    if str_equal(transfer_syntax_id, "1.2.392.200036.9116.7.8.1.1.1") {
        return Some("Toshiba MDW Non- Image");
    }
    if str_equal(transfer_syntax_id, "1.2.840.10008.5.1.4.1.1.6.1") {
        return Some("Ultrasound Image");
    }
    if str_equal(transfer_syntax_id, "1.2.840.10008.5.1.4.1.1.6") {
        return Some("Ultrasound Image (Retired)");
    }
    if str_equal(transfer_syntax_id, "1.2.840.10008.5.1.4.1.1.3.1") {
        return Some("Ultrasound Multi-Frame Image");
    }
    if str_equal(transfer_syntax_id, "1.2.840.10008.5.1.4.1.1.3") {
        return Some("Ultrasound Multi-Frame Image (Retired)");
    }
    if str_equal(transfer_syntax_id, "1.2.840.10008.1.1") {
        return Some("Verification");
    }
    if str_equal(transfer_syntax_id, "1.2.840.10008.5.1.4.1.1.77.1.1.1") {
        return Some("Video Endoscopic Image");
    }
    if str_equal(transfer_syntax_id, "1.2.840.10008.5.1.4.1.1.77.1.2.1") {
        return Some("Video Microscopic Image");
    }
    if str_equal(transfer_syntax_id, "1.2.840.10008.5.1.4.1.1.77.1.4.1") {
        return Some("Video Photograph Image");
    }
    if str_equal(transfer_syntax_id, "1.2.840.10008.5.1.4.1.1.77.1.1") {
        return Some("Visible Light Endoscopic Image");
    }
    if str_equal(transfer_syntax_id, "1.2.840.10008.5.1.4.1.1.77.1") {
        return Some("Visible Light Image (Retired)");
    }
    if str_equal(transfer_syntax_id, "1.2.840.10008.5.1.4.1.1.77.1.2") {
        return Some("Visible Light Microscopic Image");
    }
    if str_equal(transfer_syntax_id, "1.2.840.10008.5.1.4.1.1.77.2") {
        return Some("Visible Light Multi-Frame Image (Retired)");
    }
    if str_equal(transfer_syntax_id, "1.2.840.10008.5.1.4.1.1.77.1.4") {
        return Some("Visible Light Photographic Image");
    }
    if str_equal(transfer_syntax_id, "1.2.840.10008.5.1.4.1.1.77.1.3") {
        return Some("Visible Light Slide-Coordinates Microscopic Image");
    }
    if str_equal(transfer_syntax_id, "1.2.840.10008.5.1.1.22") {
        return Some("Volume of Interest Lookup Table Box (Retired)");
    }
    if str_equal(transfer_syntax_id, "1.2.840.10008.5.1.4.1.1.9.1.1") {
        return Some("X12-Lead Electrocardiogram Waveform");
    }
    if str_equal(transfer_syntax_id, "1.2.840.10008.5.1.4.1.1.13.1.1") {
        return Some("X-Ray 3D Angiographic Image Storage");
    }
    if str_equal(transfer_syntax_id, "1.2.840.10008.5.1.4.1.1.13.1.2") {
        return Some("X-Ray 3D Craniofacial Image Storage");
    }
    if str_equal(transfer_syntax_id, "1.2.840.10008.5.1.4.1.1.12.3") {
        return Some("X-Ray Angiographic BiPlane Image (Retired)");
    }
    if str_equal(transfer_syntax_id, "1.2.840.10008.5.1.4.1.1.12.1") {
        return Some("X-Ray Angiographic Image");
    }
    if str_equal(transfer_syntax_id, "1.2.840.10008.5.1.4.1.1.88.67") {
        return Some("X-Ray Radiation Dose Structured Report");
    }
    if str_equal(transfer_syntax_id, "1.2.840.10008.5.1.4.1.1.12.2") {
        return Some("X-Ray Radiofluoroscopic");
    }
    None
}

} // verus!
