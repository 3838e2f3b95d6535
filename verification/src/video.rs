//! How a video track is laid out and shown.
use vstd::prelude::*;
use vstd::std_specs::convert::FromSpecImpl;
use crate::table::CodeTable;

verus! {

/// How `DisplayWidth` & `DisplayHeight` are interpreted.
#[derive(Clone, Copy, Debug, PartialEq, Eq, Structural)]
pub enum DisplayUnit {
    /// In pixels.
    Pixels,
    /// In centimeters.
    Centimeters,
    /// In inches.
    Inches,
    /// By using the aspect ratio.
    DisplayAspectRatio,
    /// Unknown.
    Unknown,
}

impl CodeTable for DisplayUnit {
    open spec fn unknown() -> Self {
        Self::Unknown
    }

    open spec fn code(self) -> Option<u64> {
        match self {
            Self::Pixels => Some(0),
            Self::Centimeters => Some(1),
            Self::Inches => Some(2),
            Self::DisplayAspectRatio => Some(3),
            Self::Unknown => None,
        }
    }

    open spec fn decode_spec(code: u64) -> Self {
        match code {
            0 => Self::Pixels,
            1 => Self::Centimeters,
            2 => Self::Inches,
            3 => Self::DisplayAspectRatio,
            _ => Self::Unknown,
        }
    }

    proof fn lemma_from_reads_table(code: u64) {
    }

    proof fn lemma_only_unknown_has_no_code(v: Self) {
    }

    proof fn lemma_code_reads_back(v: Self, code: u64) {
    }

    proof fn lemma_known_keeps_code(code: u64) {
    }
}

impl FromSpecImpl<u64> for DisplayUnit {
    open spec fn obeys_from_spec() -> bool {
        true
    }

    open spec fn from_spec(d: u64) -> Self {
        Self::decode_spec(d)
    }
}

impl From<u64> for DisplayUnit {
    /// Reads a display unit code: the member that carries `d`,
    /// or `Unknown` where no member does.
    fn from(d: u64) -> (v: Self)
        ensures
            v == Self::decode_spec(d),
            v.code() == Some(d) || (v == Self::Unknown && forall|w: Self| w.code() != Some(d)),
    {
        match d {
            0 => Self::Pixels,
            1 => Self::Centimeters,
            2 => Self::Inches,
            3 => Self::DisplayAspectRatio,
            _ => Self::Unknown,
        }
    }
}

/// Specify the possible modifications to the aspect ratio.
#[derive(Clone, Copy, Debug, PartialEq, Eq, Structural)]
pub enum AspectRatioType {
    /// Unknown.
    Unknown,
    /// Allow free resizing.
    FreeResizing,
    /// Keep the aspect ratio.
    KeepAspectRatio,
    /// Fixed size.
    Fixed,
}

impl CodeTable for AspectRatioType {
    open spec fn unknown() -> Self {
        Self::Unknown
    }

    open spec fn code(self) -> Option<u64> {
        match self {
            Self::Unknown => None,
            Self::FreeResizing => Some(0),
            Self::KeepAspectRatio => Some(1),
            Self::Fixed => Some(2),
        }
    }

    open spec fn decode_spec(code: u64) -> Self {
        match code {
            0 => Self::FreeResizing,
            1 => Self::KeepAspectRatio,
            2 => Self::Fixed,
            _ => Self::Unknown,
        }
    }

    proof fn lemma_from_reads_table(code: u64) {
    }

    proof fn lemma_only_unknown_has_no_code(v: Self) {
    }

    proof fn lemma_code_reads_back(v: Self, code: u64) {
    }

    proof fn lemma_known_keeps_code(code: u64) {
    }
}

impl FromSpecImpl<u64> for AspectRatioType {
    open spec fn obeys_from_spec() -> bool {
        true
    }

    open spec fn from_spec(d: u64) -> Self {
        Self::decode_spec(d)
    }
}

impl From<u64> for AspectRatioType {
    /// Reads an aspect ratio type code: the member that carries `d`,
    /// or `Unknown` where no member does.
    fn from(d: u64) -> (v: Self)
        ensures
            v == Self::decode_spec(d),
            v.code() == Some(d) || (v == Self::Unknown && forall|w: Self| w.code() != Some(d)),
    {
        match d {
            0 => Self::FreeResizing,
            1 => Self::KeepAspectRatio,
            2 => Self::Fixed,
            _ => Self::Unknown,
        }
    }
}

/// A flag to declare if the video is known to be progressive or interlaced.
#[derive(Clone, Copy, Debug, PartialEq, Eq, Structural)]
pub enum FlagInterlaced {
    /// Unknown.
    Unknown,
    /// Interlaced.
    Interlaced,
    /// Progressive.
    Progressive,
}

impl CodeTable for FlagInterlaced {
    open spec fn unknown() -> Self {
        Self::Unknown
    }

    open spec fn code(self) -> Option<u64> {
        match self {
            Self::Unknown => None,
            Self::Interlaced => Some(1),
            Self::Progressive => Some(2),
        }
    }

    open spec fn decode_spec(code: u64) -> Self {
        match code {
            1 => Self::Interlaced,
            2 => Self::Progressive,
            _ => Self::Unknown,
        }
    }

    proof fn lemma_from_reads_table(code: u64) {
    }

    proof fn lemma_only_unknown_has_no_code(v: Self) {
    }

    proof fn lemma_code_reads_back(v: Self, code: u64) {
    }

    proof fn lemma_known_keeps_code(code: u64) {
    }
}

impl FromSpecImpl<u64> for FlagInterlaced {
    open spec fn obeys_from_spec() -> bool {
        true
    }

    open spec fn from_spec(d: u64) -> Self {
        Self::decode_spec(d)
    }
}

impl From<u64> for FlagInterlaced {
    /// Reads an interlacing flag code: the member that carries `d`,
    /// or `Unknown` where no member does.
    fn from(d: u64) -> (v: Self)
        ensures
            v == Self::decode_spec(d),
            v.code() == Some(d) || (v == Self::Unknown && forall|w: Self| w.code() != Some(d)),
    {
        match d {
            1 => Self::Interlaced,
            2 => Self::Progressive,
            _ => Self::Unknown,
        }
    }
}

/// Declare the field ordering of the video.
#[derive(Clone, Copy, Debug, PartialEq, Eq, Structural)]
pub enum FieldOrder {
    /// Unknown.
    Unknown,
    /// Progressive.
    Progressive,
    /// Top field first.
    Tff,
    /// Bottom field first.
    Bff,
    /// Bottom field first, fields swapped.
    BffSwapped,
    /// Top field first, fields swapped.
    TffSwapped,
}

impl CodeTable for FieldOrder {
    open spec fn unknown() -> Self {
        Self::Unknown
    }

    open spec fn code(self) -> Option<u64> {
        match self {
            Self::Unknown => None,
            Self::Progressive => Some(0),
            Self::Tff => Some(1),
            Self::Bff => Some(6),
            Self::BffSwapped => Some(9),
            Self::TffSwapped => Some(14),
        }
    }

    open spec fn decode_spec(code: u64) -> Self {
        match code {
            0 => Self::Progressive,
            1 => Self::Tff,
            6 => Self::Bff,
            9 => Self::BffSwapped,
            14 => Self::TffSwapped,
            _ => Self::Unknown,
        }
    }

    proof fn lemma_from_reads_table(code: u64) {
    }

    proof fn lemma_only_unknown_has_no_code(v: Self) {
    }

    proof fn lemma_code_reads_back(v: Self, code: u64) {
    }

    proof fn lemma_known_keeps_code(code: u64) {
    }
}

impl FromSpecImpl<u64> for FieldOrder {
    open spec fn obeys_from_spec() -> bool {
        true
    }

    open spec fn from_spec(d: u64) -> Self {
        Self::decode_spec(d)
    }
}

impl From<u64> for FieldOrder {
    /// Reads a field order code: the member that carries `d`,
    /// or `Unknown` where no member does.
    fn from(d: u64) -> (v: Self)
        ensures
            v == Self::decode_spec(d),
            v.code() == Some(d) || (v == Self::Unknown && forall|w: Self| w.code() != Some(d)),
    {
        match d {
            0 => Self::Progressive,
            1 => Self::Tff,
            6 => Self::Bff,
            9 => Self::BffSwapped,
            14 => Self::TffSwapped,
            _ => Self::Unknown,
        }
    }
}

/// Stereo-3D video mode.
#[derive(Clone, Copy, Debug, PartialEq, Eq, Structural)]
pub enum StereoMode {
    /// Unknown.
    Unknown,
    /// Mono.
    Mono,
    /// Side by side (left eye first).
    SideBySideLeftEyeFirst,
    /// Top - bottom (right eye is first).
    TopBottomRightEyeFirst,
    /// Top - bottom (left eye is first).
    TopBottomLeftEyeFirst,
    /// Checkboard (right eye is first).
    CheckboardRightEyeFirst,
    /// Checkboard (left eye is first).
    CheckboardLeftEyeFirst,
    /// Row interleaved (right eye is first).
    RowInterleavedRightEyeFirst,
    /// Row interleaved (left eye is first).
    RowInterleavedLeftEyeFirst,
    /// Column interleaved (right eye is first).
    ColumnInterleavedRightEyeFirst,
    /// Column interleaved (left eye is first).
    ColumnInterleavedLeftEyeFirst,
    /// Anaglyph (cyan/red).
    AnaglyphCyanRed,
    /// Side by side (right eye first).
    SideBySideRightEyeFirst,
    /// Anaglyph (green/magenta).
    AnaglyphGreenMagenta,
    /// Both eyes laced in one Block (left eye is first).
    LacedLeftEyeFirst,
    /// Both eyes laced in one Block (right eye is first).
    LacedRightEyeFirst,
}

impl CodeTable for StereoMode {
    open spec fn unknown() -> Self {
        Self::Unknown
    }

    open spec fn code(self) -> Option<u64> {
        match self {
            Self::Unknown => None,
            Self::Mono => Some(0),
            Self::SideBySideLeftEyeFirst => Some(1),
            Self::TopBottomRightEyeFirst => Some(2),
            Self::TopBottomLeftEyeFirst => Some(3),
            Self::CheckboardRightEyeFirst => Some(4),
            Self::CheckboardLeftEyeFirst => Some(5),
            Self::RowInterleavedRightEyeFirst => Some(6),
            Self::RowInterleavedLeftEyeFirst => Some(7),
            Self::ColumnInterleavedRightEyeFirst => Some(8),
            Self::ColumnInterleavedLeftEyeFirst => Some(9),
            Self::AnaglyphCyanRed => Some(10),
            Self::SideBySideRightEyeFirst => Some(11),
            Self::AnaglyphGreenMagenta => Some(12),
            Self::LacedLeftEyeFirst => Some(13),
            Self::LacedRightEyeFirst => Some(14),
        }
    }

    open spec fn decode_spec(code: u64) -> Self {
        match code {
            0 => Self::Mono,
            1 => Self::SideBySideLeftEyeFirst,
            2 => Self::TopBottomRightEyeFirst,
            3 => Self::TopBottomLeftEyeFirst,
            4 => Self::CheckboardRightEyeFirst,
            5 => Self::CheckboardLeftEyeFirst,
            6 => Self::RowInterleavedRightEyeFirst,
            7 => Self::RowInterleavedLeftEyeFirst,
            8 => Self::ColumnInterleavedRightEyeFirst,
            9 => Self::ColumnInterleavedLeftEyeFirst,
            10 => Self::AnaglyphCyanRed,
            11 => Self::SideBySideRightEyeFirst,
            12 => Self::AnaglyphGreenMagenta,
            13 => Self::LacedLeftEyeFirst,
            14 => Self::LacedRightEyeFirst,
            _ => Self::Unknown,
        }
    }

    proof fn lemma_from_reads_table(code: u64) {
    }

    proof fn lemma_only_unknown_has_no_code(v: Self) {
    }

    proof fn lemma_code_reads_back(v: Self, code: u64) {
    }

    proof fn lemma_known_keeps_code(code: u64) {
    }
}

impl FromSpecImpl<u64> for StereoMode {
    open spec fn obeys_from_spec() -> bool {
        true
    }

    open spec fn from_spec(d: u64) -> Self {
        Self::decode_spec(d)
    }
}

impl From<u64> for StereoMode {
    /// Reads a stereo mode code: the member that carries `d`,
    /// or `Unknown` where no member does.
    fn from(d: u64) -> (v: Self)
        ensures
            v == Self::decode_spec(d),
            v.code() == Some(d) || (v == Self::Unknown && forall|w: Self| w.code() != Some(d)),
    {
        match d {
            0 => Self::Mono,
            1 => Self::SideBySideLeftEyeFirst,
            2 => Self::TopBottomRightEyeFirst,
            3 => Self::TopBottomLeftEyeFirst,
            4 => Self::CheckboardRightEyeFirst,
            5 => Self::CheckboardLeftEyeFirst,
            6 => Self::RowInterleavedRightEyeFirst,
            7 => Self::RowInterleavedLeftEyeFirst,
            8 => Self::ColumnInterleavedRightEyeFirst,
            9 => Self::ColumnInterleavedLeftEyeFirst,
            10 => Self::AnaglyphCyanRed,
            11 => Self::SideBySideRightEyeFirst,
            12 => Self::AnaglyphGreenMagenta,
            13 => Self::LacedLeftEyeFirst,
            14 => Self::LacedRightEyeFirst,
            _ => Self::Unknown,
        }
    }
}

} // verus!
