//! The kind of a track.
use vstd::prelude::*;
use vstd::std_specs::convert::FromSpecImpl;
use crate::table::CodeTable;

verus! {

/// Type of the track.
#[derive(Clone, Copy, Debug, PartialEq, Eq, Structural)]
pub enum TrackType {
    /// Unknown.
    Unknown,
    /// Video track.
    Video,
    /// Audio track.
    Audio,
    /// A complex track.
    Complex,
    /// A logo.
    Logo,
    /// Subtitles.
    Subtitle,
    /// Buttons.
    Buttons,
    /// Controls.
    Control,
    /// Metadata.
    Metadata,
}

impl CodeTable for TrackType {
    open spec fn unknown() -> Self {
        Self::Unknown
    }

    open spec fn code(self) -> Option<u64> {
        match self {
            Self::Unknown => None,
            Self::Video => Some(1),
            Self::Audio => Some(2),
            Self::Complex => Some(3),
            Self::Logo => Some(16),
            Self::Subtitle => Some(17),
            Self::Buttons => Some(18),
            Self::Control => Some(32),
            Self::Metadata => Some(33),
        }
    }

    open spec fn decode_spec(code: u64) -> Self {
        match code {
            1 => Self::Video,
            2 => Self::Audio,
            3 => Self::Complex,
            16 => Self::Logo,
            17 => Self::Subtitle,
            18 => Self::Buttons,
            32 => Self::Control,
            33 => Self::Metadata,
            _ => Self::Unknown,
        }
    }

    proof fn lemma_from_reads_table(code: u64) {
    }

    proof fn lemma_only_unknown_has_no_code(v: Self) {
    }

    proof fn lemma_code_reads_back(v: Self, code: u64) {
    }

    proof fn lemma_known_keeps_code(code: u64) {
    }
}

impl FromSpecImpl<u64> for TrackType {
    open spec fn obeys_from_spec() -> bool {
        true
    }

    open spec fn from_spec(d: u64) -> Self {
        Self::decode_spec(d)
    }
}

impl From<u64> for TrackType {
    /// Reads a track type code: the member that carries `d`,
    /// or `Unknown` where no member does.
    fn from(d: u64) -> (v: Self)
        ensures
            v == Self::decode_spec(d),
            v.code() == Some(d) || (v == Self::Unknown && forall|w: Self| w.code() != Some(d)),
    {
        match d {
            1 => Self::Video,
            2 => Self::Audio,
            3 => Self::Complex,
            16 => Self::Logo,
            17 => Self::Subtitle,
            18 => Self::Buttons,
            32 => Self::Control,
            33 => Self::Metadata,
            _ => Self::Unknown,
        }
    }
}

} // verus!
