//! Decoder for a line-oriented CAD drawing interchange text format.
//!
//! The input is a stream of alternating lines: an integer group code, then a
//! value. Decoding proceeds in stages: a tokenizer turns the lines into typed
//! atoms, a tree builder reconstructs the nested section/block/table
//! structure, and a typed-model decoder maps the tree onto document records
//! (entities, tables, blocks). Text entities embed a small rich-formatting
//! language that is decoded separately.
use vstd::prelude::*;

pub mod atom;
pub mod block;
pub mod chars;
pub mod data;
pub mod document;
pub mod encoding;
pub mod entity;
pub mod mtext;
pub mod node;
pub mod numstr;
pub mod table;
pub mod value;

pub use atom::Atom;
pub use block::BlockNode;
pub use document::Document;
pub use entity::Arc;
pub use entity::Circle;
pub use entity::Dimension;
pub use entity::Entity;
pub use entity::EntityHeader;
pub use entity::EntityNode;
pub use entity::Insert;
pub use entity::Line;
pub use entity::LwPolyline;
pub use entity::LwPolylineVertex;
pub use entity::MText;
pub use entity::Point;
pub use entity::Text;
pub use entity::Vec3;
pub use table::Block;
pub use table::DimStyle;
pub use table::Layer;
pub use table::LineType;
pub use table::RegApp;
pub use table::TableEntry;
pub use table::TableNode;
pub use table::TableRecord;
pub use table::TextStyle;
pub use table::Ucs;
pub use table::ViewRecord;
pub use table::Viewport;
pub use data::AttachmentPoint;
pub use data::BlockFlags;
pub use data::ColorNumber;
pub use data::DimensionFlags;
pub use data::DimensionType;
pub use data::LineTypeRef;
pub use data::MTextBackground;
pub use data::MTextDirection;
pub use data::OrdinateType;
pub use data::PolylineFlags;
pub use data::PolylineSmoothType;
pub use data::Rgb;
pub use data::ShadowMode;
pub use data::Space;
pub use data::TextAlignment;
pub use data::TextHorizontalAlignment;
pub use data::TextLineSpacingStyle;
pub use data::TextMirrorFlags;
pub use data::TextVerticalAlignment;
pub use data::VertexFlags;
pub use encoding::bytes_to_string;
pub use encoding::EncodingError;
pub use mtext::MTextAlignment;
pub use mtext::MTextCommand;
pub use mtext::MTextFormatString;
pub use mtext::MTextNode;
pub use mtext::MTextStackType;
pub use node::Node;

pub use value::Float64;
pub use value::Value;

verus! {

/// Error for the structural stages of decoding.
///
/// Field-level failures inside entity records are not errors: those fields
/// keep their defaults and decoding continues.
#[derive(Debug, Clone, PartialEq)]
pub enum ParseError {
    /// A line did not parse as the integer form its group code mandates;
    /// holds the offending line.
    ParseIntError(String),
    /// A value line did not parse as a 64-bit float; holds the line.
    ParseFloatError(String),
    /// The input ended with a group-code line that has no value line.
    TruncatedPair(String),
    /// The input bytes are not text in any of the supported encodings.
    EncodingError,
    /// The atom stream is not a well-formed node tree.
    StructureError,
}

pub type ParseResult<T> = Result<T, ParseError>;

} // verus!
