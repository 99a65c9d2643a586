//! The small domain enumerations the typed-model decoder fills, and the
//! fixed decode rules that map raw integers onto them. Every rule is
//! exact: each function's contract gives the full value table, including
//! which inputs are out of range.
use vstd::prelude::*;

verus! {

#[derive(Debug, Clone, Copy, PartialEq, Eq, Structural)]
pub enum Space {
    ModelSpace,
    PaperSpace,
}

/// A line-type reference: by layer, by block, or a named line type.
#[derive(Debug, Clone, PartialEq)]
pub enum LineTypeRef {
    ByLayer,
    ByBlock,
    ByName(String),
}

/// Mathematical model of a [`LineTypeRef`].
pub enum LineTypeRefV {
    ByLayer,
    ByBlock,
    ByName(Seq<char>),
}

impl View for LineTypeRef {
    type V = LineTypeRefV;

    open spec fn view(&self) -> LineTypeRefV {
        match self {
            LineTypeRef::ByLayer => LineTypeRefV::ByLayer,
            LineTypeRef::ByBlock => LineTypeRefV::ByBlock,
            LineTypeRef::ByName(s) => LineTypeRefV::ByName(s@),
        }
    }
}

#[derive(Debug, Clone, Copy, PartialEq, Eq, Structural)]
pub enum ShadowMode {
    CastsAndReceivesShadows,
    CastsShadows,
    ReceivesShadows,
    IgnoresShadows,
}

#[derive(Debug, Clone, Copy, PartialEq, Eq, Structural)]
pub enum ColorNumber {
    ByLayer,
    ByEntity,
    ByBlock,
    TurnedOff,
    Number(u8),
}

#[derive(Debug, Clone, Copy, PartialEq, Eq, Structural)]
pub struct Rgb {
    pub r: u8,
    pub g: u8,
    pub b: u8,
}

#[derive(Debug, Clone, Copy, PartialEq, Eq, Structural)]
pub enum DimensionType {
    RotatedOrHorizontalOrVertical,
    Aligned,
    Angular,
    Diameter,
    Radius,
    Angular3Point,
    Ordinate(OrdinateType),
}

#[derive(Debug, Clone, Copy, PartialEq, Eq, Structural)]
pub enum OrdinateType {
    X,
    Y,
}

#[derive(Debug, Clone, Copy, PartialEq, Eq, Structural)]
pub struct DimensionFlags {
    pub block_is_referenced_by_this_dimension_only: bool,
    pub dimension_text_is_positioned_at_user_defined_location: bool,
}

#[derive(Debug, Clone, Copy, PartialEq, Eq, Structural)]
pub enum AttachmentPoint {
    TopLeft,
    TopCenter,
    TopRight,
    MiddleLeft,
    MiddleCenter,
    MiddleRight,
    BottomLeft,
    BottomCenter,
    BottomRight,
}

#[derive(Debug, Clone, Copy, PartialEq, Eq, Structural)]
pub enum TextLineSpacingStyle {
    AtLeast,
    Exact,
}

#[derive(Debug, Clone, Copy, PartialEq, Eq, Structural)]
pub enum MTextDirection {
    LeftToRight,
    TopToBottom,
    ByStyle,
}

#[derive(Debug, Clone, Copy, PartialEq, Eq, Structural)]
pub enum MTextBackground {
    WindowColor,
    ColorNumber(i16),
}

#[derive(Debug, Clone, Copy, PartialEq, Eq, Structural)]
pub struct TextMirrorFlags {
    pub x: bool,
    pub y: bool,
}

#[derive(Debug, Clone, Copy, PartialEq, Eq, Structural)]
pub enum TextAlignment {
    Combo(TextHorizontalAlignment, TextVerticalAlignment),
    Aligned,
    Middle,
    Fit,
}

#[derive(Debug, Clone, Copy, PartialEq, Eq, Structural)]
pub enum TextHorizontalAlignment {
    Left,
    Center,
    Right,
}

#[derive(Debug, Clone, Copy, PartialEq, Eq, Structural)]
pub enum TextVerticalAlignment {
    Baseline,
    Bottom,
    Middle,
    Top,
}

#[derive(Debug, Clone, Copy, PartialEq, Eq, Structural)]
pub struct PolylineFlags {
    pub closed_polyline: bool,
    pub curve_fit_vertices: bool,
    pub spline_fit_vertices: bool,
    pub polyline_3d: bool,
    pub polygon_mesh_3d: bool,
    pub closed_in_n_direction: bool,
    pub polyface_mesh: bool,
    pub continuous_linetype_pattern: bool,
}

#[derive(Debug, Clone, Copy, PartialEq, Eq, Structural)]
pub enum PolylineSmoothType {
    QuadraticBSpline,
    CubicBSpline,
    Bezier,
}

#[derive(Debug, Clone, Copy, PartialEq, Eq, Structural)]
pub struct VertexFlags {
}

#[derive(Debug, Clone, Copy, PartialEq, Eq, Structural)]
pub struct BlockFlags {
    pub is_anonymous: bool,
    pub has_non_constant_attribute_definitions: bool,
    pub is_xref: bool,
    pub is_xref_overlay: bool,
    pub is_externally_dependent: bool,
    pub is_resolved_xref_or_dependent_of_xref: bool,
    pub is_referenced_xref: bool,
}

// ---------------------------------------------------------------------
// decode rules
pub open spec fn spec_space_from_i16(v: i16) -> Option<Space> {
    if v == 0 {
        Some(Space::ModelSpace)
    } else if v == 1 {
        Some(Space::PaperSpace)
    } else {
        None
    }
}

pub fn space_from_i16(v: i16) -> (r: Option<Space>)
    ensures
        r == spec_space_from_i16(v),
{
    match v {
        0 => Some(Space::ModelSpace),
        1 => Some(Space::PaperSpace),
        _ => None,
    }
}

/// `BYLAYER` and `BYBLOCK` are the two reserved names; anything else
/// names a line type.
pub open spec fn spec_line_type_ref_from_text(s: Seq<char>) -> LineTypeRefV {
    if s == "BYLAYER"@ {
        LineTypeRefV::ByLayer
    } else if s == "BYBLOCK"@ {
        LineTypeRefV::ByBlock
    } else {
        LineTypeRefV::ByName(s)
    }
}

pub fn line_type_ref_from_text(s: &String) -> (r: LineTypeRef)
    ensures
        r@ == spec_line_type_ref_from_text(s@),
{
    if *s == String::from_str("BYLAYER") {
        LineTypeRef::ByLayer
    } else if *s == String::from_str("BYBLOCK") {
        LineTypeRef::ByBlock
    } else {
        LineTypeRef::ByName(crate::atom::clone_string(s))
    }
}

/// The color table: 0 by block, 256 by layer, 257 by entity, negative
/// turned off, 1 to 255 an indexed color; anything else is out of range.
pub open spec fn spec_color_number_from_i16(v: i16) -> Option<ColorNumber> {
    if v == 0 {
        Some(ColorNumber::ByBlock)
    } else if v == 256 {
        Some(ColorNumber::ByLayer)
    } else if v == 257 {
        Some(ColorNumber::ByEntity)
    } else if v < 0 {
        Some(ColorNumber::TurnedOff)
    } else if v < 256 {
        Some(ColorNumber::Number(v as u8))
    } else {
        None
    }
}

pub fn color_number_from_i16(v: i16) -> (r: Option<ColorNumber>)
    ensures
        r == spec_color_number_from_i16(v),
{
    if v == 0 {
        Some(ColorNumber::ByBlock)
    } else if v == 256 {
        Some(ColorNumber::ByLayer)
    } else if v == 257 {
        Some(ColorNumber::ByEntity)
    } else if v < 0 {
        Some(ColorNumber::TurnedOff)
    } else if v < 256 {
        Some(ColorNumber::Number(v as u8))
    } else {
        None
    }
}

pub open spec fn spec_shadow_mode_from_i16(v: i16) -> Option<ShadowMode> {
    if v == 0 {
        Some(ShadowMode::CastsAndReceivesShadows)
    } else if v == 1 {
        Some(ShadowMode::CastsShadows)
    } else if v == 2 {
        Some(ShadowMode::ReceivesShadows)
    } else if v == 3 {
        Some(ShadowMode::IgnoresShadows)
    } else {
        None
    }
}

pub fn shadow_mode_from_i16(v: i16) -> (r: Option<ShadowMode>)
    ensures
        r == spec_shadow_mode_from_i16(v),
{
    match v {
        0 => Some(ShadowMode::CastsAndReceivesShadows),
        1 => Some(ShadowMode::CastsShadows),
        2 => Some(ShadowMode::ReceivesShadows),
        3 => Some(ShadowMode::IgnoresShadows),
        _ => None,
    }
}

/// A packed true color: `0xRRGGBB` in the low 24 bits.
pub open spec fn spec_rgb_from_i32(v: i32) -> Rgb {
    Rgb {
        r: (((v as u32) >> 16) & 0xff) as u8,
        g: (((v as u32) >> 8) & 0xff) as u8,
        b: ((v as u32) & 0xff) as u8,
    }
}

pub fn rgb_from_i32(v: i32) -> (r: Rgb)
    ensures
        r == spec_rgb_from_i32(v),
{
    let u: u32 = v as u32;
    proof {
        assert(((u >> 16) & 0xff) <= 255 && ((u >> 8) & 0xff) <= 255 && (u & 0xff) <= 255)
            by (bit_vector);
    }
    Rgb { r: ((u >> 16) & 0xff) as u8, g: ((u >> 8) & 0xff) as u8, b: (u & 0xff) as u8 }
}

/// The dimension type lives in the low four bits; ordinate dimensions
/// carry their axis in bit 6.
pub open spec fn spec_dimension_type_from_i16(flags: i16) -> Option<DimensionType> {
    let m = flags & 0b1111;
    if m == 0 {
        Some(DimensionType::RotatedOrHorizontalOrVertical)
    } else if m == 1 {
        Some(DimensionType::Aligned)
    } else if m == 2 {
        Some(DimensionType::Angular)
    } else if m == 3 {
        Some(DimensionType::Diameter)
    } else if m == 4 {
        Some(DimensionType::Radius)
    } else if m == 5 {
        Some(DimensionType::Angular3Point)
    } else if m == 6 {
        if flags & 0b1000000 != 0 {
            Some(DimensionType::Ordinate(OrdinateType::X))
        } else {
            Some(DimensionType::Ordinate(OrdinateType::Y))
        }
    } else {
        None
    }
}

pub fn dimension_type_from_i16(flags: i16) -> (r: Option<DimensionType>)
    ensures
        r == spec_dimension_type_from_i16(flags),
{
    let m: i16 = flags & 0b1111;
    if m == 0 {
        Some(DimensionType::RotatedOrHorizontalOrVertical)
    } else if m == 1 {
        Some(DimensionType::Aligned)
    } else if m == 2 {
        Some(DimensionType::Angular)
    } else if m == 3 {
        Some(DimensionType::Diameter)
    } else if m == 4 {
        Some(DimensionType::Radius)
    } else if m == 5 {
        Some(DimensionType::Angular3Point)
    } else if m == 6 {
        if flags & 0b1000000 != 0 {
            Some(DimensionType::Ordinate(OrdinateType::X))
        } else {
            Some(DimensionType::Ordinate(OrdinateType::Y))
        }
    } else {
        None
    }
}

/// The two dimension flags live in bits 5 and 7.
pub open spec fn spec_dimension_flags_from_i16(flags: i16) -> DimensionFlags {
    DimensionFlags {
        block_is_referenced_by_this_dimension_only: flags & 0b100000 != 0,
        dimension_text_is_positioned_at_user_defined_location: flags & 0b10000000 != 0,
    }
}

pub fn dimension_flags_from_i16(flags: i16) -> (r: DimensionFlags)
    ensures
        r == spec_dimension_flags_from_i16(flags),
{
    DimensionFlags {
        block_is_referenced_by_this_dimension_only: flags & 0b100000 != 0,
        dimension_text_is_positioned_at_user_defined_location: flags & 0b10000000 != 0,
    }
}

pub open spec fn spec_attachment_point_from_i16(v: i16) -> Option<AttachmentPoint> {
    if v == 0 {
        Some(AttachmentPoint::TopLeft)
    } else if v == 1 {
        Some(AttachmentPoint::TopCenter)
    } else if v == 2 {
        Some(AttachmentPoint::TopRight)
    } else if v == 3 {
        Some(AttachmentPoint::MiddleLeft)
    } else if v == 4 {
        Some(AttachmentPoint::MiddleCenter)
    } else if v == 5 {
        Some(AttachmentPoint::MiddleRight)
    } else if v == 6 {
        Some(AttachmentPoint::BottomLeft)
    } else if v == 7 {
        Some(AttachmentPoint::BottomCenter)
    } else if v == 8 {
        Some(AttachmentPoint::BottomRight)
    } else {
        None
    }
}

pub fn attachment_point_from_i16(v: i16) -> (r: Option<AttachmentPoint>)
    ensures
        r == spec_attachment_point_from_i16(v),
{
    match v {
        0 => Some(AttachmentPoint::TopLeft),
        1 => Some(AttachmentPoint::TopCenter),
        2 => Some(AttachmentPoint::TopRight),
        3 => Some(AttachmentPoint::MiddleLeft),
        4 => Some(AttachmentPoint::MiddleCenter),
        5 => Some(AttachmentPoint::MiddleRight),
        6 => Some(AttachmentPoint::BottomLeft),
        7 => Some(AttachmentPoint::BottomCenter),
        8 => Some(AttachmentPoint::BottomRight),
        _ => None,
    }
}

pub open spec fn spec_text_line_spacing_style_from_i16(v: i16) -> Option<TextLineSpacingStyle> {
    if v == 1 {
        Some(TextLineSpacingStyle::AtLeast)
    } else if v == 2 {
        Some(TextLineSpacingStyle::Exact)
    } else {
        None
    }
}

pub fn text_line_spacing_style_from_i16(v: i16) -> (r: Option<TextLineSpacingStyle>)
    ensures
        r == spec_text_line_spacing_style_from_i16(v),
{
    match v {
        1 => Some(TextLineSpacingStyle::AtLeast),
        2 => Some(TextLineSpacingStyle::Exact),
        _ => None,
    }
}

pub open spec fn spec_mtext_direction_from_i16(v: i16) -> Option<MTextDirection> {
    if v == 1 {
        Some(MTextDirection::LeftToRight)
    } else if v == 3 {
        Some(MTextDirection::TopToBottom)
    } else if v == 5 {
        Some(MTextDirection::ByStyle)
    } else {
        None
    }
}

pub fn mtext_direction_from_i16(v: i16) -> (r: Option<MTextDirection>)
    ensures
        r == spec_mtext_direction_from_i16(v),
{
    match v {
        1 => Some(MTextDirection::LeftToRight),
        3 => Some(MTextDirection::TopToBottom),
        5 => Some(MTextDirection::ByStyle),
        _ => None,
    }
}

/// Text mirroring: bit 1 mirrors in X, bit 2 in Y.
pub open spec fn spec_text_mirror_flags_from_i16(v: i16) -> TextMirrorFlags {
    TextMirrorFlags { x: v & 0b010 != 0, y: v & 0b100 != 0 }
}

pub fn text_mirror_flags_from_i16(v: i16) -> (r: TextMirrorFlags)
    ensures
        r == spec_text_mirror_flags_from_i16(v),
{
    TextMirrorFlags { x: v & 0b010 != 0, y: v & 0b100 != 0 }
}

pub open spec fn spec_text_horizontal_alignment_from_i16(v: i16) -> Option<
    TextHorizontalAlignment,
> {
    if v == 0 {
        Some(TextHorizontalAlignment::Left)
    } else if v == 1 {
        Some(TextHorizontalAlignment::Center)
    } else if v == 2 {
        Some(TextHorizontalAlignment::Right)
    } else {
        None
    }
}

pub fn text_horizontal_alignment_from_i16(v: i16) -> (r: Option<TextHorizontalAlignment>)
    ensures
        r == spec_text_horizontal_alignment_from_i16(v),
{
    match v {
        0 => Some(TextHorizontalAlignment::Left),
        1 => Some(TextHorizontalAlignment::Center),
        2 => Some(TextHorizontalAlignment::Right),
        _ => None,
    }
}

pub open spec fn spec_text_vertical_alignment_from_i16(v: i16) -> Option<TextVerticalAlignment> {
    if v == 0 {
        Some(TextVerticalAlignment::Baseline)
    } else if v == 1 {
        Some(TextVerticalAlignment::Bottom)
    } else if v == 2 {
        Some(TextVerticalAlignment::Middle)
    } else if v == 3 {
        Some(TextVerticalAlignment::Top)
    } else {
        None
    }
}

pub fn text_vertical_alignment_from_i16(v: i16) -> (r: Option<TextVerticalAlignment>)
    ensures
        r == spec_text_vertical_alignment_from_i16(v),
{
    match v {
        0 => Some(TextVerticalAlignment::Baseline),
        1 => Some(TextVerticalAlignment::Bottom),
        2 => Some(TextVerticalAlignment::Middle),
        3 => Some(TextVerticalAlignment::Top),
        _ => None,
    }
}

/// The block flags live in the low seven bits.
pub open spec fn spec_block_flags_from_i16(v: i16) -> BlockFlags {
    BlockFlags {
        is_anonymous: v & 0b0000_0001 != 0,
        has_non_constant_attribute_definitions: v & 0b0000_0010 != 0,
        is_xref: v & 0b0000_0100 != 0,
        is_xref_overlay: v & 0b0000_1000 != 0,
        is_externally_dependent: v & 0b0001_0000 != 0,
        is_resolved_xref_or_dependent_of_xref: v & 0b0010_0000 != 0,
        is_referenced_xref: v & 0b0100_0000 != 0,
    }
}

pub fn block_flags_from_i16(v: i16) -> (r: BlockFlags)
    ensures
        r == spec_block_flags_from_i16(v),
{
    BlockFlags {
        is_anonymous: v & 0b0000_0001 != 0,
        has_non_constant_attribute_definitions: v & 0b0000_0010 != 0,
        is_xref: v & 0b0000_0100 != 0,
        is_xref_overlay: v & 0b0000_1000 != 0,
        is_externally_dependent: v & 0b0001_0000 != 0,
        is_resolved_xref_or_dependent_of_xref: v & 0b0010_0000 != 0,
        is_referenced_xref: v & 0b0100_0000 != 0,
    }
}

} // verus!
