//! How the content of a track is transformed before it is stored.
use vstd::prelude::*;
use vstd::std_specs::convert::FromSpecImpl;
use crate::table::CodeTable;

verus! {

/// Describing what kind of transformation is applied.
#[derive(Clone, Copy, Debug, PartialEq, Eq, Structural)]
pub enum ContentEncodingType {
    /// Unknown.
    Unknown,
    /// Transformation is a compression.
    Compression,
    /// Transformation is an encryption.
    Encryption,
}

impl CodeTable for ContentEncodingType {
    open spec fn unknown() -> Self {
        Self::Unknown
    }

    open spec fn code(self) -> Option<u64> {
        match self {
            Self::Unknown => None,
            Self::Compression => Some(0),
            Self::Encryption => Some(1),
        }
    }

    open spec fn decode_spec(code: u64) -> Self {
        match code {
            0 => Self::Compression,
            1 => Self::Encryption,
            _ => Self::Unknown,
        }
    }

    proof fn lemma_from_reads_table(code: u64) {
    }

    proof fn lemma_only_unknown_has_no_code(v: Self) {
    }

    proof fn lemma_code_reads_back(v: Self, code: u64) {
    }

    proof fn lemma_known_keeps_code(code: u64) {
    }
}

impl FromSpecImpl<u64> for ContentEncodingType {
    open spec fn obeys_from_spec() -> bool {
        true
    }

    open spec fn from_spec(d: u64) -> Self {
        Self::decode_spec(d)
    }
}

impl From<u64> for ContentEncodingType {
    /// Reads a content encoding type code: the member that carries `d`,
    /// or `Unknown` where no member does.
    fn from(d: u64) -> (v: Self)
        ensures
            v == Self::decode_spec(d),
            v.code() == Some(d) || (v == Self::Unknown && forall|w: Self| w.code() != Some(d)),
    {
        match d {
            0 => Self::Compression,
            1 => Self::Encryption,
            _ => Self::Unknown,
        }
    }
}

/// The encryption algorithm used.
///
/// `NotEncrypted` means that the contents have not been encrypted but only signed.
#[derive(Clone, Copy, Debug, PartialEq, Eq, Structural)]
pub enum ContentEncAlgo {
    /// Unknown.
    Unknown,
    /// Not encrypted.
    NotEncrypted,
    /// DES - FIPS 46-3.
    Des,
    /// Triple DES - RFC 1851.
    TripleDes,
    /// Twofish.
    Twofish,
    /// Blowfish.
    Blowfish,
    /// AES - FIPS 187.
    Aes,
}

impl CodeTable for ContentEncAlgo {
    open spec fn unknown() -> Self {
        Self::Unknown
    }

    open spec fn code(self) -> Option<u64> {
        match self {
            Self::Unknown => None,
            Self::NotEncrypted => Some(0),
            Self::Des => Some(1),
            Self::TripleDes => Some(2),
            Self::Twofish => Some(3),
            Self::Blowfish => Some(4),
            Self::Aes => Some(5),
        }
    }

    open spec fn decode_spec(code: u64) -> Self {
        match code {
            0 => Self::NotEncrypted,
            1 => Self::Des,
            2 => Self::TripleDes,
            3 => Self::Twofish,
            4 => Self::Blowfish,
            5 => Self::Aes,
            _ => Self::Unknown,
        }
    }

    proof fn lemma_from_reads_table(code: u64) {
    }

    proof fn lemma_only_unknown_has_no_code(v: Self) {
    }

    proof fn lemma_code_reads_back(v: Self, code: u64) {
    }

    proof fn lemma_known_keeps_code(code: u64) {
    }
}

impl FromSpecImpl<u64> for ContentEncAlgo {
    open spec fn obeys_from_spec() -> bool {
        true
    }

    open spec fn from_spec(d: u64) -> Self {
        Self::decode_spec(d)
    }
}

impl From<u64> for ContentEncAlgo {
    /// Reads an encryption algorithm code: the member that carries `d`,
    /// or `Unknown` where no member does.
    fn from(d: u64) -> (v: Self)
        ensures
            v == Self::decode_spec(d),
            v.code() == Some(d) || (v == Self::Unknown && forall|w: Self| w.code() != Some(d)),
    {
        match d {
            0 => Self::NotEncrypted,
            1 => Self::Des,
            2 => Self::TripleDes,
            3 => Self::Twofish,
            4 => Self::Blowfish,
            5 => Self::Aes,
            _ => Self::Unknown,
        }
    }
}

/// The AES cipher mode used in the encryption.
#[derive(Clone, Copy, Debug, PartialEq, Eq, Structural)]
pub enum AesSettingsCipherMode {
    /// Unknown.
    Unknown,
    /// AES-CTR / Counter, NIST SP 800-38A.
    Ctr,
    /// AES-CBC / Cipher Block Chaining, NIST SP 800-38A.
    Cbc,
}

impl CodeTable for AesSettingsCipherMode {
    open spec fn unknown() -> Self {
        Self::Unknown
    }

    open spec fn code(self) -> Option<u64> {
        match self {
            Self::Unknown => None,
            Self::Ctr => Some(0),
            Self::Cbc => Some(1),
        }
    }

    open spec fn decode_spec(code: u64) -> Self {
        match code {
            0 => Self::Ctr,
            1 => Self::Cbc,
            _ => Self::Unknown,
        }
    }

    proof fn lemma_from_reads_table(code: u64) {
    }

    proof fn lemma_only_unknown_has_no_code(v: Self) {
    }

    proof fn lemma_code_reads_back(v: Self, code: u64) {
    }

    proof fn lemma_known_keeps_code(code: u64) {
    }
}

impl FromSpecImpl<u64> for AesSettingsCipherMode {
    open spec fn obeys_from_spec() -> bool {
        true
    }

    open spec fn from_spec(d: u64) -> Self {
        Self::decode_spec(d)
    }
}

impl From<u64> for AesSettingsCipherMode {
    /// Reads an AES cipher mode code: the member that carries `d`,
    /// or `Unknown` where no member does.
    fn from(d: u64) -> (v: Self)
        ensures
            v == Self::decode_spec(d),
            v.code() == Some(d) || (v == Self::Unknown && forall|w: Self| w.code() != Some(d)),
    {
        match d {
            0 => Self::Ctr,
            1 => Self::Cbc,
            _ => Self::Unknown,
        }
    }
}

} // verus!
