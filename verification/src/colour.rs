//! The colour description of a video track.
use vstd::prelude::*;
use vstd::std_specs::convert::FromSpecImpl;
use crate::table::CodeTable;

verus! {

/// The Matrix Coefficients of the video used to derive luma and chroma values
/// from red, green, and blue color primaries.
///
/// The values and their meanings are those of Table 4 of ISO/IEC 23001-8:2016
/// or ITU-T H.273.
#[derive(Clone, Copy, Debug, PartialEq, Eq, Structural)]
pub enum MatrixCoefficients {
    /// Unknown.
    Unknown,
    /// Identity.
    Identity,
    /// ITU-R BT.709.
    Bt709,
    /// US FCC 73.682.
    Fcc73682,
    /// ITU-R BT.470BG.
    Bt470bg,
    /// SMPTE 170M.
    Smpte170,
    /// SMPTE 240M.
    Smpte240,
    /// YCoCg.
    YCoCg,
    /// BT2020 Non-constant Luminance.
    Bt2020Ncl,
    /// BT2020 Constant Luminance.
    Bt2020Cl,
    /// SMPTE ST 2085.
    SmpteSt2085,
    /// Chroma-derived Non-constant Luminance.
    ChromaDerivedNcl,
    /// Chroma-derived Constant Luminance.
    ChromaDerivedCl,
    /// ITU-R BT.2100-0.
    Bt2100,
}

impl CodeTable for MatrixCoefficients {
    open spec fn unknown() -> Self {
        Self::Unknown
    }

    open spec fn code(self) -> Option<u64> {
        match self {
            Self::Unknown => None,
            Self::Identity => Some(0),
            Self::Bt709 => Some(1),
            Self::Fcc73682 => Some(4),
            Self::Bt470bg => Some(5),
            Self::Smpte170 => Some(6),
            Self::Smpte240 => Some(7),
            Self::YCoCg => Some(8),
            Self::Bt2020Ncl => Some(9),
            Self::Bt2020Cl => Some(10),
            Self::SmpteSt2085 => Some(11),
            Self::ChromaDerivedNcl => Some(12),
            Self::ChromaDerivedCl => Some(13),
            Self::Bt2100 => Some(14),
        }
    }

    open spec fn decode_spec(code: u64) -> Self {
        match code {
            0 => Self::Identity,
            1 => Self::Bt709,
            4 => Self::Fcc73682,
            5 => Self::Bt470bg,
            6 => Self::Smpte170,
            7 => Self::Smpte240,
            8 => Self::YCoCg,
            9 => Self::Bt2020Ncl,
            10 => Self::Bt2020Cl,
            11 => Self::SmpteSt2085,
            12 => Self::ChromaDerivedNcl,
            13 => Self::ChromaDerivedCl,
            14 => Self::Bt2100,
            _ => Self::Unknown,
        }
    }

    proof fn lemma_from_reads_table(code: u64) {
    }

    proof fn lemma_only_unknown_has_no_code(v: Self) {
    }

    proof fn lemma_code_reads_back(v: Self, code: u64) {
    }

    proof fn lemma_known_keeps_code(code: u64) {
    }
}

impl FromSpecImpl<u64> for MatrixCoefficients {
    open spec fn obeys_from_spec() -> bool {
        true
    }

    open spec fn from_spec(d: u64) -> Self {
        Self::decode_spec(d)
    }
}

impl From<u64> for MatrixCoefficients {
    /// Reads a matrix coefficients code: the member that carries `d`,
    /// or `Unknown` where no member does.
    fn from(d: u64) -> (v: Self)
        ensures
            v == Self::decode_spec(d),
            v.code() == Some(d) || (v == Self::Unknown && forall|w: Self| w.code() != Some(d)),
    {
        match d {
            0 => Self::Identity,
            1 => Self::Bt709,
            4 => Self::Fcc73682,
            5 => Self::Bt470bg,
            6 => Self::Smpte170,
            7 => Self::Smpte240,
            8 => Self::YCoCg,
            9 => Self::Bt2020Ncl,
            10 => Self::Bt2020Cl,
            11 => Self::SmpteSt2085,
            12 => Self::ChromaDerivedNcl,
            13 => Self::ChromaDerivedCl,
            14 => Self::Bt2100,
            _ => Self::Unknown,
        }
    }
}

/// How chroma is sub sampled horizontally.
#[derive(Clone, Copy, Debug, PartialEq, Eq, Structural)]
pub enum ChromaSitingHorz {
    /// Unknown.
    Unknown,
    /// Left collocated.
    LeftCollated,
    /// Half.
    Half,
}

impl CodeTable for ChromaSitingHorz {
    open spec fn unknown() -> Self {
        Self::Unknown
    }

    open spec fn code(self) -> Option<u64> {
        match self {
            Self::Unknown => None,
            Self::LeftCollated => Some(1),
            Self::Half => Some(2),
        }
    }

    open spec fn decode_spec(code: u64) -> Self {
        match code {
            1 => Self::LeftCollated,
            2 => Self::Half,
            _ => Self::Unknown,
        }
    }

    proof fn lemma_from_reads_table(code: u64) {
    }

    proof fn lemma_only_unknown_has_no_code(v: Self) {
    }

    proof fn lemma_code_reads_back(v: Self, code: u64) {
    }

    proof fn lemma_known_keeps_code(code: u64) {
    }
}

impl FromSpecImpl<u64> for ChromaSitingHorz {
    open spec fn obeys_from_spec() -> bool {
        true
    }

    open spec fn from_spec(d: u64) -> Self {
        Self::decode_spec(d)
    }
}

impl From<u64> for ChromaSitingHorz {
    /// Reads a horizontal chroma siting code: the member that carries `d`,
    /// or `Unknown` where no member does.
    fn from(d: u64) -> (v: Self)
        ensures
            v == Self::decode_spec(d),
            v.code() == Some(d) || (v == Self::Unknown && forall|w: Self| w.code() != Some(d)),
    {
        match d {
            1 => Self::LeftCollated,
            2 => Self::Half,
            _ => Self::Unknown,
        }
    }
}

/// How chroma is sub sampled vertically.
#[derive(Clone, Copy, Debug, PartialEq, Eq, Structural)]
pub enum ChromaSitingVert {
    /// Unknown.
    Unknown,
    /// Left collocated.
    LeftCollated,
    /// Half.
    Half,
}

impl CodeTable for ChromaSitingVert {
    open spec fn unknown() -> Self {
        Self::Unknown
    }

    open spec fn code(self) -> Option<u64> {
        match self {
            Self::Unknown => None,
            Self::LeftCollated => Some(1),
            Self::Half => Some(2),
        }
    }

    open spec fn decode_spec(code: u64) -> Self {
        match code {
            1 => Self::LeftCollated,
            2 => Self::Half,
            _ => Self::Unknown,
        }
    }

    proof fn lemma_from_reads_table(code: u64) {
    }

    proof fn lemma_only_unknown_has_no_code(v: Self) {
    }

    proof fn lemma_code_reads_back(v: Self, code: u64) {
    }

    proof fn lemma_known_keeps_code(code: u64) {
    }
}

impl FromSpecImpl<u64> for ChromaSitingVert {
    open spec fn obeys_from_spec() -> bool {
        true
    }

    open spec fn from_spec(d: u64) -> Self {
        Self::decode_spec(d)
    }
}

impl From<u64> for ChromaSitingVert {
    /// Reads a vertical chroma siting code: the member that carries `d`,
    /// or `Unknown` where no member does.
    fn from(d: u64) -> (v: Self)
        ensures
            v == Self::decode_spec(d),
            v.code() == Some(d) || (v == Self::Unknown && forall|w: Self| w.code() != Some(d)),
    {
        match d {
            1 => Self::LeftCollated,
            2 => Self::Half,
            _ => Self::Unknown,
        }
    }
}

/// Clipping of the color ranges.
#[derive(Clone, Copy, Debug, PartialEq, Eq, Structural)]
pub enum Range {
    /// Unknown.
    Unknown,
    /// Broadcast range.
    Broadcast,
    /// Full range (no clipping).
    Full,
    /// Defined by MatrixCoefficients / TransferCharacteristics.
    Defined,
}

impl CodeTable for Range {
    open spec fn unknown() -> Self {
        Self::Unknown
    }

    open spec fn code(self) -> Option<u64> {
        match self {
            Self::Unknown => None,
            Self::Broadcast => Some(1),
            Self::Full => Some(2),
            Self::Defined => Some(3),
        }
    }

    open spec fn decode_spec(code: u64) -> Self {
        match code {
            1 => Self::Broadcast,
            2 => Self::Full,
            3 => Self::Defined,
            _ => Self::Unknown,
        }
    }

    proof fn lemma_from_reads_table(code: u64) {
    }

    proof fn lemma_only_unknown_has_no_code(v: Self) {
    }

    proof fn lemma_code_reads_back(v: Self, code: u64) {
    }

    proof fn lemma_known_keeps_code(code: u64) {
    }
}

impl FromSpecImpl<u64> for Range {
    open spec fn obeys_from_spec() -> bool {
        true
    }

    open spec fn from_spec(d: u64) -> Self {
        Self::decode_spec(d)
    }
}

impl From<u64> for Range {
    /// Reads a colour range code: the member that carries `d`,
    /// or `Unknown` where no member does.
    fn from(d: u64) -> (v: Self)
        ensures
            v == Self::decode_spec(d),
            v.code() == Some(d) || (v == Self::Unknown && forall|w: Self| w.code() != Some(d)),
    {
        match d {
            1 => Self::Broadcast,
            2 => Self::Full,
            3 => Self::Defined,
            _ => Self::Unknown,
        }
    }
}

/// The transfer characteristics of the video.
///
/// The values and their meanings are those of Table 3 of ISO/IEC 23091-4
/// or ITU-T H.273.
#[derive(Clone, Copy, Debug, PartialEq, Eq, Structural)]
pub enum TransferCharacteristics {
    /// Unknown.
    Unknown,
    /// ITU-R BT.709.
    Bt709,
    /// Gamma 2.2 curve - BT.470M.
    Bt407m,
    /// Gamma 2.8 curve - BT.470BG.
    Bt407bg,
    /// SMPTE 170M.
    Smpte170,
    /// SMPTE 240M.
    Smpte240,
    /// Linear.
    Linear,
    /// Log.
    Log,
    /// Log Sqrt.
    LogSqrt,
    /// IEC 61966-2-4.
    Iec61966_2_4,
    /// ITU-R BT.1361 Extended Colour Gamut.
    Bt1361,
    /// IEC 61966-2-1.
    Iec61966_2_1,
    /// ITU-R BT.2020 10 bit.
    Bt220_10,
    /// ITU-R BT.2020 12 bit.
    Bt220_12,
    /// ITU-R BT.2100 Perceptual Quantization.
    Bt2100,
    /// SMPTE ST 428-1.
    SmpteSt428_1,
    /// ARIB STD-B67 (HLG).
    Hlg,
}

impl CodeTable for TransferCharacteristics {
    open spec fn unknown() -> Self {
        Self::Unknown
    }

    open spec fn code(self) -> Option<u64> {
        match self {
            Self::Unknown => None,
            Self::Bt709 => Some(1),
            Self::Bt407m => Some(4),
            Self::Bt407bg => Some(5),
            Self::Smpte170 => Some(6),
            Self::Smpte240 => Some(7),
            Self::Linear => Some(8),
            Self::Log => Some(9),
            Self::LogSqrt => Some(10),
            Self::Iec61966_2_4 => Some(11),
            Self::Bt1361 => Some(12),
            Self::Iec61966_2_1 => Some(13),
            Self::Bt220_10 => Some(14),
            Self::Bt220_12 => Some(15),
            Self::Bt2100 => Some(16),
            Self::SmpteSt428_1 => Some(17),
            Self::Hlg => Some(18),
        }
    }

    open spec fn decode_spec(code: u64) -> Self {
        match code {
            1 => Self::Bt709,
            4 => Self::Bt407m,
            5 => Self::Bt407bg,
            6 => Self::Smpte170,
            7 => Self::Smpte240,
            8 => Self::Linear,
            9 => Self::Log,
            10 => Self::LogSqrt,
            11 => Self::Iec61966_2_4,
            12 => Self::Bt1361,
            13 => Self::Iec61966_2_1,
            14 => Self::Bt220_10,
            15 => Self::Bt220_12,
            16 => Self::Bt2100,
            17 => Self::SmpteSt428_1,
            18 => Self::Hlg,
            _ => Self::Unknown,
        }
    }

    proof fn lemma_from_reads_table(code: u64) {
    }

    proof fn lemma_only_unknown_has_no_code(v: Self) {
    }

    proof fn lemma_code_reads_back(v: Self, code: u64) {
    }

    proof fn lemma_known_keeps_code(code: u64) {
    }
}

impl FromSpecImpl<u64> for TransferCharacteristics {
    open spec fn obeys_from_spec() -> bool {
        true
    }

    open spec fn from_spec(d: u64) -> Self {
        Self::decode_spec(d)
    }
}

impl From<u64> for TransferCharacteristics {
    /// Reads a transfer characteristics code: the member that carries `d`,
    /// or `Unknown` where no member does.
    fn from(d: u64) -> (v: Self)
        ensures
            v == Self::decode_spec(d),
            v.code() == Some(d) || (v == Self::Unknown && forall|w: Self| w.code() != Some(d)),
    {
        match d {
            1 => Self::Bt709,
            4 => Self::Bt407m,
            5 => Self::Bt407bg,
            6 => Self::Smpte170,
            7 => Self::Smpte240,
            8 => Self::Linear,
            9 => Self::Log,
            10 => Self::LogSqrt,
            11 => Self::Iec61966_2_4,
            12 => Self::Bt1361,
            13 => Self::Iec61966_2_1,
            14 => Self::Bt220_10,
            15 => Self::Bt220_12,
            16 => Self::Bt2100,
            17 => Self::SmpteSt428_1,
            18 => Self::Hlg,
            _ => Self::Unknown,
        }
    }
}

/// The colour primaries of the video.
///
/// The values and their meanings are those of Table 2 of ISO/IEC 23091-4
/// or ITU-T H.273.
#[derive(Clone, Copy, Debug, PartialEq, Eq, Structural)]
pub enum Primaries {
    /// Unknown.
    Unknown,
    /// ITU-R BT.709.
    Bt709,
    /// ITU-R BT.470M.
    Bt470m,
    /// ITU-R BT.470BG - BT.601 625.
    Bt601,
    /// ITU-R BT.601 525 - SMPTE 170M.
    Smpte170,
    /// SMPTE 240M.
    Smpte240,
    /// FILM.
    Film,
    /// ITU-R BT.2020.
    Bt2020,
    /// SMPTE ST 428-1.
    SmpteSt428_1,
    /// SMPTE RP 432-2.
    SmpteRp432_2,
    /// SMPTE EG 432-2.
    SmpteEg432_2,
    /// EBU Tech. 3213-E - JEDEC P22 phosphors.
    JedecP22,
}

impl CodeTable for Primaries {
    open spec fn unknown() -> Self {
        Self::Unknown
    }

    open spec fn code(self) -> Option<u64> {
        match self {
            Self::Unknown => None,
            Self::Bt709 => Some(1),
            Self::Bt470m => Some(4),
            Self::Bt601 => Some(5),
            Self::Smpte170 => Some(6),
            Self::Smpte240 => Some(7),
            Self::Film => Some(8),
            Self::Bt2020 => Some(9),
            Self::SmpteSt428_1 => Some(10),
            Self::SmpteRp432_2 => Some(11),
            Self::SmpteEg432_2 => Some(12),
            Self::JedecP22 => Some(22),
        }
    }

    open spec fn decode_spec(code: u64) -> Self {
        match code {
            1 => Self::Bt709,
            4 => Self::Bt470m,
            5 => Self::Bt601,
            6 => Self::Smpte170,
            7 => Self::Smpte240,
            8 => Self::Film,
            9 => Self::Bt2020,
            10 => Self::SmpteSt428_1,
            11 => Self::SmpteRp432_2,
            12 => Self::SmpteEg432_2,
            22 => Self::JedecP22,
            _ => Self::Unknown,
        }
    }

    proof fn lemma_from_reads_table(code: u64) {
    }

    proof fn lemma_only_unknown_has_no_code(v: Self) {
    }

    proof fn lemma_code_reads_back(v: Self, code: u64) {
    }

    proof fn lemma_known_keeps_code(code: u64) {
    }
}

impl FromSpecImpl<u64> for Primaries {
    open spec fn obeys_from_spec() -> bool {
        true
    }

    open spec fn from_spec(d: u64) -> Self {
        Self::decode_spec(d)
    }
}

impl From<u64> for Primaries {
    /// Reads a colour primaries code: the member that carries `d`,
    /// or `Unknown` where no member does.
    fn from(d: u64) -> (v: Self)
        ensures
            v == Self::decode_spec(d),
            v.code() == Some(d) || (v == Self::Unknown && forall|w: Self| w.code() != Some(d)),
    {
        match d {
            1 => Self::Bt709,
            4 => Self::Bt470m,
            5 => Self::Bt601,
            6 => Self::Smpte170,
            7 => Self::Smpte240,
            8 => Self::Film,
            9 => Self::Bt2020,
            10 => Self::SmpteSt428_1,
            11 => Self::SmpteRp432_2,
            12 => Self::SmpteEg432_2,
            22 => Self::JedecP22,
            _ => Self::Unknown,
        }
    }
}

} // verus!
