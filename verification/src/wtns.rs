//! The witness container: a file of field elements that a witness generator
//! writes and a circuit reads.
//!
//! The layout, with all numbers little-endian:
//!
//! | offset | size | content                                  |
//! |--------|------|------------------------------------------|
//! | 0      | 4    | the letters `wtns`                       |
//! | 4      | 4    | version, at most 2                       |
//! | 8      | 4    | number of sections, 2                    |
//! | 12     | 4    | type of the first section, 1             |
//! | 16     | 8    | size of the first section, 40            |
//! | 24     | 4    | size of a field element, 32              |
//! | 28     | 32   | the field's prime (not examined)         |
//! | 60     | 4    | number of elements `n`                   |
//! | 64     | 4    | type of the second section, 2            |
//! | 68     | 8    | size of the second section, `32 * n`     |
//! | 76     | 32 n | the elements                             |
//!
//! Bytes after the last element are ignored.

use crate::backend::{backend_accepts_scalar, is_canonical, scalar_views, ScalarBytes};
use crate::error::{ErrorKind, ZkProofError};
use vstd::prelude::*;
use vstd::string::*;

verus! {

/// Where the elements begin.
pub const ELEMENTS_OFFSET: u64 = 76;

/// Why a byte string is not a witness container.
#[derive(Clone, Copy, Debug, PartialEq, Eq, Structural)]
pub enum WitnessFileError {
    /// The bytes end before the field that is being read.
    Truncated,
    /// The first four bytes are not `wtns`.
    BadMagic,
    /// The version is above 2.
    UnsupportedVersion { version: u32 },
    /// The number of sections is not 2.
    BadSectionCount { count: u32 },
    /// The first section is not of type 1.
    BadHeaderSectionType { section_type: u32 },
    /// The first section is not 40 bytes long.
    BadHeaderSectionSize { size: u64 },
    /// A field element is not 32 bytes long.
    BadFieldSize { field_size: u32 },
    /// The second section is not of type 2.
    BadElementSectionType { section_type: u32 },
    /// The second section is not 32 bytes for each element.
    BadElementSectionSize { size: u64 },
    /// The element at this index does not denote a number below the field's order.
    NonCanonicalElement { index: u32 },
}

/// The number that the four bytes from `at` on denote.
pub open spec fn spec_u32_at(bytes: Seq<u8>, at: int) -> nat {
    (bytes[at] as nat) + 0x100 * (bytes[at + 1] as nat) + 0x1_0000 * (bytes[at + 2] as nat)
        + 0x100_0000 * (bytes[at + 3] as nat)
}

/// The number that the eight bytes from `at` on denote.
pub open spec fn spec_u64_at(bytes: Seq<u8>, at: int) -> nat {
    spec_u32_at(bytes, at) + 0x1_0000_0000 * spec_u32_at(bytes, at + 4)
}

/// The number of elements that the header announces.
pub open spec fn spec_element_count(bytes: Seq<u8>) -> nat {
    spec_u32_at(bytes, 60)
}

/// The bytes of the element at `index`.
pub open spec fn spec_element(bytes: Seq<u8>, index: int) -> Seq<u8> {
    bytes.subrange(76 + 32 * index, 76 + 32 * index + 32)
}

/// What is wrong with the header, if anything. The fields are examined in the
/// order in which they lie, and each is read before it is judged.
pub open spec fn spec_header_error(bytes: Seq<u8>) -> Option<WitnessFileError> {
    if bytes.len() < 4 {
        Some(WitnessFileError::Truncated)
    } else if !(bytes[0] == 119 && bytes[1] == 116 && bytes[2] == 110 && bytes[3] == 115) {
        Some(WitnessFileError::BadMagic)
    } else if bytes.len() < 8 {
        Some(WitnessFileError::Truncated)
    } else if spec_u32_at(bytes, 4) > 2 {
        Some(WitnessFileError::UnsupportedVersion { version: spec_u32_at(bytes, 4) as u32 })
    } else if bytes.len() < 12 {
        Some(WitnessFileError::Truncated)
    } else if spec_u32_at(bytes, 8) != 2 {
        Some(WitnessFileError::BadSectionCount { count: spec_u32_at(bytes, 8) as u32 })
    } else if bytes.len() < 16 {
        Some(WitnessFileError::Truncated)
    } else if spec_u32_at(bytes, 12) != 1 {
        Some(
            WitnessFileError::BadHeaderSectionType { section_type: spec_u32_at(bytes, 12) as u32 },
        )
    } else if bytes.len() < 24 {
        Some(WitnessFileError::Truncated)
    } else if spec_u64_at(bytes, 16) != 40 {
        Some(WitnessFileError::BadHeaderSectionSize { size: spec_u64_at(bytes, 16) as u64 })
    } else if bytes.len() < 28 {
        Some(WitnessFileError::Truncated)
    } else if spec_u32_at(bytes, 24) != 32 {
        Some(WitnessFileError::BadFieldSize { field_size: spec_u32_at(bytes, 24) as u32 })
    } else if bytes.len() < 64 {
        Some(WitnessFileError::Truncated)
    } else if bytes.len() < 68 {
        Some(WitnessFileError::Truncated)
    } else if spec_u32_at(bytes, 64) != 2 {
        Some(
            WitnessFileError::BadElementSectionType { section_type: spec_u32_at(bytes, 64) as u32 },
        )
    } else if bytes.len() < 76 {
        Some(WitnessFileError::Truncated)
    } else if spec_u64_at(bytes, 68) != 32 * spec_element_count(bytes) {
        Some(WitnessFileError::BadElementSectionSize { size: spec_u64_at(bytes, 68) as u64 })
    } else {
        None
    }
}

/// What is wrong with the first `count` elements, if anything. The elements are
/// read one after the other: each must be there in full and must be canonical
/// before the next is looked at.
pub open spec fn spec_elements_error(bytes: Seq<u8>, count: nat) -> Option<WitnessFileError>
    decreases count,
{
    if count == 0 {
        None
    } else {
        let earlier = spec_elements_error(bytes, (count - 1) as nat);
        if earlier is Some {
            earlier
        } else if bytes.len() < 76 + 32 * count {
            Some(WitnessFileError::Truncated)
        } else if !is_canonical(spec_element(bytes, count - 1)) {
            Some(WitnessFileError::NonCanonicalElement { index: (count - 1) as u32 })
        } else {
            None
        }
    }
}

/// What a byte string holds when read as a witness container: its elements in
/// order, or the first thing that is wrong with it.
pub open spec fn spec_parse_witness(bytes: Seq<u8>) -> Result<Seq<Seq<u8>>, WitnessFileError> {
    if spec_header_error(bytes) is Some {
        Err(spec_header_error(bytes).unwrap())
    } else if spec_elements_error(bytes, spec_element_count(bytes)) is Some {
        Err(spec_elements_error(bytes, spec_element_count(bytes)).unwrap())
    } else {
        Ok(Seq::new(spec_element_count(bytes), |i: int| spec_element(bytes, i)))
    }
}

/// Reads four bytes from `at` as a number, if they are there.
fn read_u32(bytes: &[u8], at: usize) -> (read: Option<u32>)
    requires
        at <= 100,
    ensures
        read is Some == (bytes@.len() >= at + 4),
        read is Some ==> read.unwrap() == spec_u32_at(bytes@, at as int),
{
    if bytes.len() < at + 4 {
        None
    } else {
        let b0 = bytes[at] as u32;
        let b1 = bytes[at + 1] as u32;
        let b2 = bytes[at + 2] as u32;
        let b3 = bytes[at + 3] as u32;
        Some(b0 + 0x100 * b1 + 0x1_0000 * b2 + 0x100_0000 * b3)
    }
}

/// Reads eight bytes from `at` as a number, if they are there.
fn read_u64(bytes: &[u8], at: usize) -> (read: Option<u64>)
    requires
        at <= 96,
    ensures
        read is Some == (bytes@.len() >= at + 8),
        read is Some ==> read.unwrap() == spec_u64_at(bytes@, at as int),
{
    if bytes.len() < at + 8 {
        None
    } else {
        match (read_u32(bytes, at), read_u32(bytes, at + 4)) {
            (Some(low), Some(high)) => Some(low as u64 + 0x1_0000_0000 * (high as u64)),
            _ => None,
        }
    }
}

/// Examines the header and returns the number of elements that it announces.
fn parse_header(bytes: &[u8]) -> (parsed: Result<u32, WitnessFileError>)
    ensures
        match parsed {
            Ok(count) => spec_header_error(bytes@) is None && count == spec_element_count(bytes@),
            Err(e) => spec_header_error(bytes@) == Some(e),
        },
{
    if bytes.len() < 4 {
        return Err(WitnessFileError::Truncated);
    }
    if !(bytes[0] == 119 && bytes[1] == 116 && bytes[2] == 110 && bytes[3] == 115) {
        return Err(WitnessFileError::BadMagic);
    }
    let version = match read_u32(bytes, 4) {
        Some(version) => version,
        None => {
            return Err(WitnessFileError::Truncated);
        },
    };
    if version > 2 {
        return Err(WitnessFileError::UnsupportedVersion { version });
    }
    let sections = match read_u32(bytes, 8) {
        Some(sections) => sections,
        None => {
            return Err(WitnessFileError::Truncated);
        },
    };
    if sections != 2 {
        return Err(WitnessFileError::BadSectionCount { count: sections });
    }
    let header_type = match read_u32(bytes, 12) {
        Some(header_type) => header_type,
        None => {
            return Err(WitnessFileError::Truncated);
        },
    };
    if header_type != 1 {
        return Err(WitnessFileError::BadHeaderSectionType { section_type: header_type });
    }
    let header_size = match read_u64(bytes, 16) {
        Some(header_size) => header_size,
        None => {
            return Err(WitnessFileError::Truncated);
        },
    };
    if header_size != 40 {
        return Err(WitnessFileError::BadHeaderSectionSize { size: header_size });
    }
    let field_size = match read_u32(bytes, 24) {
        Some(field_size) => field_size,
        None => {
            return Err(WitnessFileError::Truncated);
        },
    };
    if field_size != 32 {
        return Err(WitnessFileError::BadFieldSize { field_size });
    }
    let count = match read_u32(bytes, 60) {
        Some(count) => count,
        None => {
            return Err(WitnessFileError::Truncated);
        },
    };
    let elements_type = match read_u32(bytes, 64) {
        Some(elements_type) => elements_type,
        None => {
            return Err(WitnessFileError::Truncated);
        },
    };
    if elements_type != 2 {
        return Err(WitnessFileError::BadElementSectionType { section_type: elements_type });
    }
    let elements_size = match read_u64(bytes, 68) {
        Some(elements_size) => elements_size,
        None => {
            return Err(WitnessFileError::Truncated);
        },
    };
    if elements_size != 32 * (count as u64) {
        return Err(WitnessFileError::BadElementSectionSize { size: elements_size });
    }
    Ok(count)
}

/// Copies the 32 bytes from `at` on into a scalar.
fn read_scalar(bytes: &[u8], at: usize) -> (scalar: ScalarBytes)
    requires
        at + 32 <= bytes@.len(),
    ensures
        scalar@ == bytes@.subrange(at as int, at + 32),
{
    let len = bytes.len();
    let mut scalar: ScalarBytes = [0u8;32];
    let mut j: usize = 0;
    while j < 32
        invariant
            j <= 32,
            at + 32 <= bytes@.len(),
            len == bytes@.len(),
            forall|k: int| 0 <= k < j ==> scalar@[k] == bytes@[at + k],
        decreases 32 - j,
    {
        scalar[j] = bytes[at + j];
        j += 1;
    }
    assert(scalar@ =~= bytes@.subrange(at as int, at + 32));
    scalar
}

/// Reads a witness container: the elements in order, each 32 bytes that denote a
/// number below the field's order.
///
/// Succeeds exactly on the byte strings that follow the layout; otherwise the
/// failure names the first thing that is wrong, in reading order.
pub fn parse_witness(bytes: &[u8]) -> (parsed: Result<Vec<ScalarBytes>, WitnessFileError>)
    ensures
        match parsed {
            Ok(elements) => spec_parse_witness(bytes@) == Ok::<Seq<Seq<u8>>, WitnessFileError>(
                scalar_views(elements@),
            ),
            Err(e) => spec_parse_witness(bytes@) == Err::<Seq<Seq<u8>>, WitnessFileError>(e),
        },
{
    let count = match parse_header(bytes) {
        Ok(count) => count,
        Err(e) => {
            return Err(e);
        },
    };
    let mut elements: Vec<ScalarBytes> = Vec::new();
    let mut i: u32 = 0;
    while i < count
        invariant
            i <= count,
            count == spec_element_count(bytes@),
            spec_header_error(bytes@) is None,
            spec_elements_error(bytes@, i as nat) is None,
            elements@.len() == i,
            forall|k: int| 0 <= k < i ==> (#[trigger] elements@[k])@ == spec_element(bytes@, k),
        decreases count - i,
    {
        let end: u64 = 76 + 32 * (i as u64 + 1);
        if (bytes.len() as u64) < end {
            assert(spec_elements_error(bytes@, (i + 1) as nat) == Some(
                WitnessFileError::Truncated,
            ));
            proof {
                lemma_elements_error_persists(bytes@, (i + 1) as nat, count as nat);
            }
            return Err(WitnessFileError::Truncated);
        }
        let scalar = read_scalar(bytes, (end - 32) as usize);
        if !backend_accepts_scalar(&scalar) {
            assert(spec_elements_error(bytes@, (i + 1) as nat) == Some(
                WitnessFileError::NonCanonicalElement { index: i },
            ));
            proof {
                lemma_elements_error_persists(bytes@, (i + 1) as nat, count as nat);
            }
            return Err(WitnessFileError::NonCanonicalElement { index: i });
        }
        elements.push(scalar);
        i += 1;
    }
    assert(scalar_views(elements@) =~= Seq::new(
        spec_element_count(bytes@),
        |k: int| spec_element(bytes@, k),
    ));
    Ok(elements)
}

/// Once an element is found wrong, reading further changes nothing: the failure
/// of the first `count` elements is the failure of every longer prefix.
pub proof fn lemma_elements_error_persists(bytes: Seq<u8>, count: nat, more: nat)
    requires
        count <= more,
        spec_elements_error(bytes, count) is Some,
    ensures
        spec_elements_error(bytes, more) == spec_elements_error(bytes, count),
    decreases more,
{
    if count < more {
        lemma_elements_error_persists(bytes, count, (more - 1) as nat);
    }
}

impl WitnessFileError {
    /// The words that describe the failure.
    pub open spec fn spec_describe(self) -> Seq<char> {
        match self {
            WitnessFileError::Truncated => "Witness file ends too early"@,
            WitnessFileError::BadMagic => "Invalid witness file header"@,
            WitnessFileError::UnsupportedVersion { .. } => "Unsupported witness file version"@,
            WitnessFileError::BadSectionCount { .. } => "Invalid number of sections"@,
            WitnessFileError::BadHeaderSectionType { .. } => "Invalid section type"@,
            WitnessFileError::BadHeaderSectionSize { .. } => "Invalid section size"@,
            WitnessFileError::BadFieldSize { .. } => "Invalid field size"@,
            WitnessFileError::BadElementSectionType { .. } => "Invalid section 2 type"@,
            WitnessFileError::BadElementSectionSize { .. } => "Invalid witness section size"@,
            WitnessFileError::NonCanonicalElement { .. } =>
                "Invalid field element in witness file"@,
        }
    }

    /// The words that describe the failure.
    pub fn describe(self) -> (words: &'static str)
        ensures
            words@ == self.spec_describe(),
    {
        match self {
            WitnessFileError::Truncated => "Witness file ends too early",
            WitnessFileError::BadMagic => "Invalid witness file header",
            WitnessFileError::UnsupportedVersion { .. } => "Unsupported witness file version",
            WitnessFileError::BadSectionCount { .. } => "Invalid number of sections",
            WitnessFileError::BadHeaderSectionType { .. } => "Invalid section type",
            WitnessFileError::BadHeaderSectionSize { .. } => "Invalid section size",
            WitnessFileError::BadFieldSize { .. } => "Invalid field size",
            WitnessFileError::BadElementSectionType { .. } => "Invalid section 2 type",
            WitnessFileError::BadElementSectionSize { .. } => "Invalid witness section size",
            WitnessFileError::NonCanonicalElement { .. } => "Invalid field element in witness file",
        }
    }

    /// Reports the failure as an operation does: a witness container that cannot
    /// be read is invalid input.
    pub fn into_error(self) -> (e: ZkProofError)
        ensures
            e.spec_kind() == ErrorKind::InvalidInput,
            e.spec_message() == self.spec_describe(),
    {
        ZkProofError::InvalidInput { message: String::from_str(self.describe()) }
    }
}

} // verus!
