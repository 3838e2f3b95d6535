//! Code tables of a Matroska-style media container.
//!
//! Track and colour description fields of the container carry small integer
//! codes. Each vocabulary here is a closed enumeration with one reserved
//! `Unknown` member, and `From<u64>` reads a code into it: a listed code gives
//! its member, every other code gives `Unknown`. Reading never fails.
//!
//! `table` holds what the tables share: the `CodeTable` trait, the generic
//! `decode`, and the laws that hold of every table.
pub mod colour;
pub mod encoding;
pub mod table;
pub mod track;
pub mod video;

pub use colour::{
    ChromaSitingHorz, ChromaSitingVert, MatrixCoefficients, Primaries, Range,
    TransferCharacteristics,
};
pub use encoding::{AesSettingsCipherMode, ContentEncAlgo, ContentEncodingType};
pub use table::{decode, CodeTable};
pub use track::TrackType;
pub use video::{AspectRatioType, DisplayUnit, FieldOrder, FlagInterlaced, StereoMode};
