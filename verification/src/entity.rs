//! The typed-model decoder for entities: each record accepts one atom at a
//! time through a per-code dispatch table; entity-specific fields are
//! tried before the common header fields, and atoms neither claims are
//! preserved in the header's extras.
use crate::atom::clone_string;
use crate::atom::Atom;
use crate::atom::AtomV;
use crate::data::color_number_from_i16;
use crate::data::line_type_ref_from_text;
use crate::data::rgb_from_i32;
use crate::data::shadow_mode_from_i16;
use crate::data::space_from_i16;
use crate::data::spec_color_number_from_i16;
use crate::data::spec_line_type_ref_from_text;
use crate::data::spec_rgb_from_i32;
use crate::data::spec_shadow_mode_from_i16;
use crate::data::spec_space_from_i16;
use crate::data::attachment_point_from_i16;
use crate::data::dimension_flags_from_i16;
use crate::data::dimension_type_from_i16;
use crate::data::mtext_direction_from_i16;
use crate::data::spec_attachment_point_from_i16;
use crate::data::spec_dimension_flags_from_i16;
use crate::data::spec_dimension_type_from_i16;
use crate::data::spec_mtext_direction_from_i16;
use crate::data::spec_text_horizontal_alignment_from_i16;
use crate::data::spec_text_line_spacing_style_from_i16;
use crate::data::spec_text_mirror_flags_from_i16;
use crate::data::spec_text_vertical_alignment_from_i16;
use crate::data::text_horizontal_alignment_from_i16;
use crate::data::text_line_spacing_style_from_i16;
use crate::data::text_mirror_flags_from_i16;
use crate::data::text_vertical_alignment_from_i16;
use crate::data::AttachmentPoint;
use crate::data::ColorNumber;
use crate::data::DimensionFlags;
use crate::data::DimensionType;
use crate::data::LineTypeRef;
use crate::data::LineTypeRefV;
use crate::data::MTextBackground;
use crate::data::MTextDirection;
use crate::data::Rgb;
use crate::data::ShadowMode;
use crate::data::Space;
use crate::data::TextAlignment;
use crate::data::TextHorizontalAlignment;
use crate::data::TextLineSpacingStyle;
use crate::data::TextMirrorFlags;
use crate::data::TextVerticalAlignment;
use crate::mtext::spec_parse_control_codes;
use crate::mtext::spec_parse_to_nodes;
use crate::mtext::parse_control_codes;
use crate::mtext::MTextFormatString;
use crate::mtext::MTextFormatStringV;
use crate::node::Node;
use crate::node::NodeV;
use crate::numstr::spec_parse_i16;
use crate::numstr::spec_parse_hex_u32;
use crate::numstr::parse_i16_chars;
use crate::value::spec_float_zero;
use crate::value::Float64;
use crate::value::Value;
use crate::value::ValueV;
use vstd::prelude::*;

verus! {

broadcast use vstd::std_specs::vec::group_vec_axioms;

/// A point or direction, one float per axis.
#[derive(Debug, Clone, PartialEq)]
pub struct Vec3 {
    pub x: Float64,
    pub y: Float64,
    pub z: Float64,
}

/// Mathematical model of a [`Vec3`].
#[verifier::ext_equal]
pub struct Vec3V {
    pub x: Seq<char>,
    pub y: Seq<char>,
    pub z: Seq<char>,
}

impl View for Vec3 {
    type V = Vec3V;

    open spec fn view(&self) -> Vec3V {
        Vec3V { x: self.x@, y: self.y@, z: self.z@ }
    }
}

pub open spec fn spec_float_one() -> Seq<char> {
    seq!['1']
}

pub open spec fn spec_vec3_zero() -> Vec3V {
    Vec3V { x: spec_float_zero(), y: spec_float_zero(), z: spec_float_zero() }
}

/// The default extrusion direction, the positive z axis.
pub open spec fn spec_vec3_z_unit() -> Vec3V {
    Vec3V { x: spec_float_zero(), y: spec_float_zero(), z: spec_float_one() }
}

pub open spec fn spec_vec3_one() -> Vec3V {
    Vec3V { x: spec_float_one(), y: spec_float_one(), z: spec_float_one() }
}

fn float_zero() -> (r: Float64)
    ensures
        r@ == spec_float_zero(),
{
    Float64::default()
}

fn float_one() -> (r: Float64)
    ensures
        r@ == spec_float_one(),
{
    let mut t: String = String::new();
    crate::chars::push_char(&mut t, '1');
    proof {
        assert(Seq::<char>::empty().push('1') =~= seq!['1']);
    }
    Float64 { text: t }
}

fn vec3_zero() -> (r: Vec3)
    ensures
        r@ == spec_vec3_zero(),
{
    Vec3 { x: float_zero(), y: float_zero(), z: float_zero() }
}

fn vec3_z_unit() -> (r: Vec3)
    ensures
        r@ == spec_vec3_z_unit(),
{
    Vec3 { x: float_zero(), y: float_zero(), z: float_one() }
}

fn vec3_one() -> (r: Vec3)
    ensures
        r@ == spec_vec3_one(),
{
    Vec3 { x: float_one(), y: float_one(), z: float_one() }
}

pub(crate) fn clone_float(f: &Float64) -> (r: Float64)
    ensures
        r@ == f@,
{
    Float64 { text: clone_string(&f.text) }
}

/// Writes one component of a lazily created vector: the vector exists
/// once any component was seen; missing components are zero.
pub open spec fn spec_set_opt_coord(dst: Option<Vec3V>, i: int, t: Seq<char>) -> Option<Vec3V> {
    let base = match dst {
        Some(v) => v,
        None => spec_vec3_zero(),
    };
    if i == 0 {
        Some(Vec3V { x: t, ..base })
    } else if i == 1 {
        Some(Vec3V { y: t, ..base })
    } else {
        Some(Vec3V { z: t, ..base })
    }
}

fn set_opt_coord(dst: &mut Option<Vec3>, i: u8, t: &Float64)
    requires
        i <= 2,
    ensures
        match *final(dst) {
            Some(v) => Some(v@) == spec_set_opt_coord(
                match *old(dst) {
                    Some(o) => Some(o@),
                    None => None,
                },
                i as int,
                t@,
            ),
            None => false,
        },
{
    let base: Vec3 = match dst.take() {
        Some(v) => v,
        None => vec3_zero(),
    };
    let nv: Vec3 = if i == 0 {
        Vec3 { x: clone_float(t), ..base }
    } else if i == 1 {
        Vec3 { y: clone_float(t), ..base }
    } else {
        Vec3 { z: clone_float(t), ..base }
    };
    *dst = Some(nv);
}

/// The view of an optional vector.
pub open spec fn spec_opt_vec3_view(v: Option<Vec3>) -> Option<Vec3V> {
    match v {
        Some(x) => Some(x@),
        None => None,
    }
}

/// The view of an optional float.
pub open spec fn spec_opt_float_view(v: Option<Float64>) -> Option<Seq<char>> {
    match v {
        Some(x) => Some(x@),
        None => None,
    }
}

/// The view of an optional string.
pub open spec fn spec_opt_string_view(v: Option<String>) -> Option<Seq<char>> {
    match v {
        Some(x) => Some(x@),
        None => None,
    }
}

// ---------------------------------------------------------------------
// the common entity header
/// The fields every entity shares, and the extras bucket for atoms no
/// known field claims.
#[derive(Debug, PartialEq)]
pub struct EntityHeader {
    pub handle: u32,
    pub space: Space,
    pub layer: String,
    pub line_type: LineTypeRef,
    pub color_number: ColorNumber,
    pub line_weight: Option<i16>,
    pub line_type_scale: Option<Float64>,
    pub is_visible: bool,
    pub color_rgb: Option<Rgb>,
    pub color_name: Option<String>,
    pub transparency: Option<i32>,
    pub shadow_mode: Option<ShadowMode>,
    pub extras: Vec<Atom>,
}

/// Mathematical model of an [`EntityHeader`].
#[verifier::ext_equal]
pub struct EntityHeaderV {
    pub handle: u32,
    pub space: Space,
    pub layer: Seq<char>,
    pub line_type: LineTypeRefV,
    pub color_number: ColorNumber,
    pub line_weight: Option<i16>,
    pub line_type_scale: Option<Seq<char>>,
    pub is_visible: bool,
    pub color_rgb: Option<Rgb>,
    pub color_name: Option<Seq<char>>,
    pub transparency: Option<i32>,
    pub shadow_mode: Option<ShadowMode>,
    pub extras: Seq<AtomV>,
}

impl View for EntityHeader {
    type V = EntityHeaderV;

    open spec fn view(&self) -> EntityHeaderV {
        EntityHeaderV {
            handle: self.handle,
            space: self.space,
            layer: self.layer@,
            line_type: self.line_type@,
            color_number: self.color_number,
            line_weight: self.line_weight,
            line_type_scale: spec_opt_float_view(self.line_type_scale),
            is_visible: self.is_visible,
            color_rgb: self.color_rgb,
            color_name: spec_opt_string_view(self.color_name),
            transparency: self.transparency,
            shadow_mode: self.shadow_mode,
            extras: self.extras.deep_view(),
        }
    }
}

pub open spec fn spec_header_default() -> EntityHeaderV {
    EntityHeaderV {
        handle: 0,
        space: Space::ModelSpace,
        layer: Seq::empty(),
        line_type: LineTypeRefV::ByLayer,
        color_number: ColorNumber::ByLayer,
        line_weight: None,
        line_type_scale: None,
        is_visible: true,
        color_rgb: None,
        color_name: None,
        transparency: None,
        shadow_mode: None,
        extras: Seq::empty(),
    }
}

impl Default for EntityHeader {
    fn default() -> (r: EntityHeader)
        ensures
            r@ == spec_header_default(),
    {
        let r = EntityHeader {
            handle: 0,
            space: Space::ModelSpace,
            layer: String::new(),
            line_type: LineTypeRef::ByLayer,
            color_number: ColorNumber::ByLayer,
            line_weight: None,
            line_type_scale: None,
            is_visible: true,
            color_rgb: None,
            color_name: None,
            transparency: None,
            shadow_mode: None,
            extras: Vec::new(),
        };
        proof {
            assert(r@ =~= spec_header_default());
        }
        r
    }
}

/// The header's per-code table. The boolean reports whether the code is
/// a header field; a value that fails its coercion leaves a plain field
/// unchanged, and resets an optional field to `None`.
pub open spec fn spec_header_set_atom(h: EntityHeaderV, a: AtomV) -> (EntityHeaderV, bool) {
    if a.code == 5 {
        (
            match a.value {
                ValueV::String(s) => match spec_parse_hex_u32(s) {
                    Some(v) => EntityHeaderV { handle: v, ..h },
                    None => h,
                },
                _ => h,
            },
            true,
        )
    } else if a.code == 67 {
        (
            match a.value {
                ValueV::I16(v) => match spec_space_from_i16(v) {
                    Some(sp) => EntityHeaderV { space: sp, ..h },
                    None => h,
                },
                _ => h,
            },
            true,
        )
    } else if a.code == 8 {
        (
            match a.value {
                ValueV::String(s) => EntityHeaderV { layer: s, ..h },
                _ => h,
            },
            true,
        )
    } else if a.code == 6 {
        (
            match a.value {
                ValueV::String(s) => EntityHeaderV {
                    line_type: spec_line_type_ref_from_text(s),
                    ..h
                },
                _ => h,
            },
            true,
        )
    } else if a.code == 62 {
        (
            match a.value {
                ValueV::I16(v) => match spec_color_number_from_i16(v) {
                    Some(c) => EntityHeaderV { color_number: c, ..h },
                    None => h,
                },
                _ => h,
            },
            true,
        )
    } else if a.code == 370 {
        (
            match a.value {
                ValueV::I16(v) => EntityHeaderV { line_weight: Some(v), ..h },
                _ => EntityHeaderV { line_weight: None, ..h },
            },
            true,
        )
    } else if a.code == 48 {
        (
            match a.value {
                ValueV::F64(t) => EntityHeaderV { line_type_scale: Some(t), ..h },
                _ => EntityHeaderV { line_type_scale: None, ..h },
            },
            true,
        )
    } else if a.code == 60 {
        (
            match a.value {
                ValueV::I16(0i16) => EntityHeaderV { is_visible: true, ..h },
                ValueV::I16(1i16) => EntityHeaderV { is_visible: false, ..h },
                _ => h,
            },
            true,
        )
    } else if a.code == 420 {
        (
            match a.value {
                ValueV::I32(v) => EntityHeaderV { color_rgb: Some(spec_rgb_from_i32(v)), ..h },
                _ => EntityHeaderV { color_rgb: None, ..h },
            },
            true,
        )
    } else if a.code == 430 {
        (
            match a.value {
                ValueV::String(s) => EntityHeaderV { color_name: Some(s), ..h },
                _ => EntityHeaderV { color_name: None, ..h },
            },
            true,
        )
    } else if a.code == 440 {
        (
            match a.value {
                ValueV::I32(v) => EntityHeaderV { transparency: Some(v), ..h },
                _ => EntityHeaderV { transparency: None, ..h },
            },
            true,
        )
    } else if a.code == 284 {
        (
            match a.value {
                ValueV::String(s) => match spec_parse_i16(s) {
                    Some(v) => match spec_shadow_mode_from_i16(v) {
                        Some(m) => EntityHeaderV { shadow_mode: Some(m), ..h },
                        None => EntityHeaderV { shadow_mode: None, ..h },
                    },
                    None => EntityHeaderV { shadow_mode: None, ..h },
                },
                _ => EntityHeaderV { shadow_mode: None, ..h },
            },
            true,
        )
    } else {
        (h, false)
    }
}

impl EntityHeader {
    /// Accepts one atom, as [`spec_header_set_atom`] says.
    #[verifier::rlimit(60)]
    pub fn set_atom(&mut self, a: &Atom) -> (r: bool)
        ensures
            ({
                let (hv, rec) = spec_header_set_atom(old(self)@, a@);
                final(self)@ == hv && r == rec
            }),
    {
        match a.code {
            5 => {
                match &a.value {
                    Value::String(s) => {
                        let cs: Vec<char> = crate::chars::chars_of(s.as_str());
                        match crate::numstr::parse_hex_u32_chars(&cs) {
                            Some(v) => {
                                self.handle = v;
                            },
                            None => {},
                        }
                    },
                    _ => {},
                }
                true
            },
            67 => {
                match &a.value {
                    Value::I16(v) => match space_from_i16(*v) {
                        Some(sp) => {
                            self.space = sp;
                        },
                        None => {},
                    },
                    _ => {},
                }
                true
            },
            8 => {
                match &a.value {
                    Value::String(s) => {
                        self.layer = clone_string(s);
                    },
                    _ => {},
                }
                true
            },
            6 => {
                match &a.value {
                    Value::String(s) => {
                        self.line_type = line_type_ref_from_text(s);
                    },
                    _ => {},
                }
                true
            },
            62 => {
                match &a.value {
                    Value::I16(v) => match color_number_from_i16(*v) {
                        Some(c) => {
                            self.color_number = c;
                        },
                        None => {},
                    },
                    _ => {},
                }
                true
            },
            370 => {
                match &a.value {
                    Value::I16(v) => {
                        self.line_weight = Some(*v);
                    },
                    _ => {
                        self.line_weight = None;
                    },
                }
                true
            },
            48 => {
                match &a.value {
                    Value::F64(t) => {
                        self.line_type_scale = Some(clone_float(t));
                    },
                    _ => {
                        self.line_type_scale = None;
                    },
                }
                true
            },
            60 => {
                match &a.value {
                    Value::I16(0i16) => {
                        self.is_visible = true;
                    },
                    Value::I16(1i16) => {
                        self.is_visible = false;
                    },
                    _ => {},
                }
                true
            },
            420 => {
                match &a.value {
                    Value::I32(v) => {
                        self.color_rgb = Some(rgb_from_i32(*v));
                    },
                    _ => {
                        self.color_rgb = None;
                    },
                }
                true
            },
            430 => {
                match &a.value {
                    Value::String(s) => {
                        self.color_name = Some(clone_string(s));
                    },
                    _ => {
                        self.color_name = None;
                    },
                }
                true
            },
            440 => {
                match &a.value {
                    Value::I32(v) => {
                        self.transparency = Some(*v);
                    },
                    _ => {
                        self.transparency = None;
                    },
                }
                true
            },
            284 => {
                match &a.value {
                    Value::String(s) => {
                        let cs: Vec<char> = crate::chars::chars_of(s.as_str());
                        match parse_i16_chars(&cs) {
                            Some(v) => match shadow_mode_from_i16(v) {
                                Some(m) => {
                                    self.shadow_mode = Some(m);
                                },
                                None => {
                                    self.shadow_mode = None;
                                },
                            },
                            None => {
                                self.shadow_mode = None;
                            },
                        }
                    },
                    _ => {
                        self.shadow_mode = None;
                    },
                }
                true
            },
            _ => false,
        }
    }
}

// ---------------------------------------------------------------------
// geometric entity payloads
/// A straight segment between two points.
#[derive(Debug, PartialEq)]
pub struct Line {
    pub p1: Vec3,
    pub p2: Vec3,
    pub thickness: Float64,
    pub extrusion_direction: Option<Vec3>,
}

#[verifier::ext_equal]
pub struct LineV {
    pub p1: Vec3V,
    pub p2: Vec3V,
    pub thickness: Seq<char>,
    pub extrusion_direction: Option<Vec3V>,
}

impl View for Line {
    type V = LineV;

    open spec fn view(&self) -> LineV {
        LineV {
            p1: self.p1@,
            p2: self.p2@,
            thickness: self.thickness@,
            extrusion_direction: spec_opt_vec3_view(self.extrusion_direction),
        }
    }
}

pub open spec fn spec_line_default() -> LineV {
    LineV {
        p1: spec_vec3_zero(),
        p2: spec_vec3_zero(),
        thickness: spec_float_zero(),
        extrusion_direction: None,
    }
}

impl Default for Line {
    fn default() -> (r: Line)
        ensures
            r@ == spec_line_default(),
    {
        let r = Line {
            p1: vec3_zero(),
            p2: vec3_zero(),
            thickness: float_zero(),
            extrusion_direction: None,
        };
        proof {
            assert(r@ =~= spec_line_default());
        }
        r
    }
}

pub open spec fn spec_line_set_atom(p: LineV, a: AtomV) -> (LineV, bool) {
    if a.code == 10 || a.code == 20 || a.code == 30 || a.code == 11 || a.code == 21 || a.code
        == 31 || a.code == 39 {
        (
            match a.value {
                ValueV::F64(t) => {
                    if a.code == 10 {
                        LineV { p1: Vec3V { x: t, ..p.p1 }, ..p }
                    } else if a.code == 20 {
                        LineV { p1: Vec3V { y: t, ..p.p1 }, ..p }
                    } else if a.code == 30 {
                        LineV { p1: Vec3V { z: t, ..p.p1 }, ..p }
                    } else if a.code == 11 {
                        LineV { p2: Vec3V { x: t, ..p.p2 }, ..p }
                    } else if a.code == 21 {
                        LineV { p2: Vec3V { y: t, ..p.p2 }, ..p }
                    } else if a.code == 31 {
                        LineV { p2: Vec3V { z: t, ..p.p2 }, ..p }
                    } else {
                        LineV { thickness: t, ..p }
                    }
                },
                _ => p,
            },
            true,
        )
    } else if a.code == 210 || a.code == 220 || a.code == 230 {
        (
            match a.value {
                ValueV::F64(t) => LineV {
                    extrusion_direction: spec_set_opt_coord(
                        p.extrusion_direction,
                        if a.code == 210 {
                            0int
                        } else if a.code == 220 {
                            1int
                        } else {
                            2int
                        },
                        t,
                    ),
                    ..p
                },
                _ => p,
            },
            true,
        )
    } else {
        (p, false)
    }
}

impl Line {
    /// Accepts one atom, as [`spec_line_set_atom`] says.
    #[verifier::rlimit(60)]
    pub fn set_atom(&mut self, a: &Atom) -> (r: bool)
        ensures
            ({
                let (pv, rec) = spec_line_set_atom(old(self)@, a@);
                final(self)@ == pv && r == rec
            }),
    {
        match a.code {
            10 | 20 | 30 | 11 | 21 | 31 | 39 => {
                match &a.value {
                    Value::F64(t) => {
                        if a.code == 10 {
                            self.p1.x = clone_float(t);
                        } else if a.code == 20 {
                            self.p1.y = clone_float(t);
                        } else if a.code == 30 {
                            self.p1.z = clone_float(t);
                        } else if a.code == 11 {
                            self.p2.x = clone_float(t);
                        } else if a.code == 21 {
                            self.p2.y = clone_float(t);
                        } else if a.code == 31 {
                            self.p2.z = clone_float(t);
                        } else {
                            self.thickness = clone_float(t);
                        }
                    },
                    _ => {},
                }
                true
            },
            210 | 220 | 230 => {
                match &a.value {
                    Value::F64(t) => {
                        let i: u8 = if a.code == 210 {
                            0
                        } else if a.code == 220 {
                            1
                        } else {
                            2
                        };
                        set_opt_coord(&mut self.extrusion_direction, i, t);
                    },
                    _ => {},
                }
                true
            },
            _ => false,
        }
    }
}

/// A full circle.
#[derive(Debug, PartialEq)]
pub struct Circle {
    pub thickness: Float64,
    pub center: Vec3,
    pub radius: Float64,
    pub extrusion_direction: Option<Vec3>,
}

#[verifier::ext_equal]
pub struct CircleV {
    pub thickness: Seq<char>,
    pub center: Vec3V,
    pub radius: Seq<char>,
    pub extrusion_direction: Option<Vec3V>,
}

impl View for Circle {
    type V = CircleV;

    open spec fn view(&self) -> CircleV {
        CircleV {
            thickness: self.thickness@,
            center: self.center@,
            radius: self.radius@,
            extrusion_direction: spec_opt_vec3_view(self.extrusion_direction),
        }
    }
}

pub open spec fn spec_circle_default() -> CircleV {
    CircleV {
        thickness: spec_float_zero(),
        center: spec_vec3_zero(),
        radius: spec_float_zero(),
        extrusion_direction: None,
    }
}

impl Default for Circle {
    fn default() -> (r: Circle)
        ensures
            r@ == spec_circle_default(),
    {
        let r = Circle {
            thickness: float_zero(),
            center: vec3_zero(),
            radius: float_zero(),
            extrusion_direction: None,
        };
        proof {
            assert(r@ =~= spec_circle_default());
        }
        r
    }
}

pub open spec fn spec_circle_set_atom(p: CircleV, a: AtomV) -> (CircleV, bool) {
    if a.code == 10 || a.code == 20 || a.code == 30 || a.code == 40 || a.code == 39 {
        (
            match a.value {
                ValueV::F64(t) => {
                    if a.code == 10 {
                        CircleV { center: Vec3V { x: t, ..p.center }, ..p }
                    } else if a.code == 20 {
                        CircleV { center: Vec3V { y: t, ..p.center }, ..p }
                    } else if a.code == 30 {
                        CircleV { center: Vec3V { z: t, ..p.center }, ..p }
                    } else if a.code == 40 {
                        CircleV { radius: t, ..p }
                    } else {
                        CircleV { thickness: t, ..p }
                    }
                },
                _ => p,
            },
            true,
        )
    } else if a.code == 210 || a.code == 220 || a.code == 230 {
        (
            match a.value {
                ValueV::F64(t) => CircleV {
                    extrusion_direction: spec_set_opt_coord(
                        p.extrusion_direction,
                        if a.code == 210 {
                            0int
                        } else if a.code == 220 {
                            1int
                        } else {
                            2int
                        },
                        t,
                    ),
                    ..p
                },
                _ => p,
            },
            true,
        )
    } else {
        (p, false)
    }
}

impl Circle {
    /// Accepts one atom, as [`spec_circle_set_atom`] says.
    #[verifier::rlimit(60)]
    pub fn set_atom(&mut self, a: &Atom) -> (r: bool)
        ensures
            ({
                let (pv, rec) = spec_circle_set_atom(old(self)@, a@);
                final(self)@ == pv && r == rec
            }),
    {
        match a.code {
            10 | 20 | 30 | 40 | 39 => {
                match &a.value {
                    Value::F64(t) => {
                        if a.code == 10 {
                            self.center.x = clone_float(t);
                        } else if a.code == 20 {
                            self.center.y = clone_float(t);
                        } else if a.code == 30 {
                            self.center.z = clone_float(t);
                        } else if a.code == 40 {
                            self.radius = clone_float(t);
                        } else {
                            self.thickness = clone_float(t);
                        }
                    },
                    _ => {},
                }
                true
            },
            210 | 220 | 230 => {
                match &a.value {
                    Value::F64(t) => {
                        let i: u8 = if a.code == 210 {
                            0
                        } else if a.code == 220 {
                            1
                        } else {
                            2
                        };
                        set_opt_coord(&mut self.extrusion_direction, i, t);
                    },
                    _ => {},
                }
                true
            },
            _ => false,
        }
    }
}

/// A circular arc: a circle with start and end angles, in degrees.
#[derive(Debug, PartialEq)]
pub struct Arc {
    pub circle: Circle,
    pub start_degree: Float64,
    pub end_degree: Float64,
}

#[verifier::ext_equal]
pub struct ArcV {
    pub circle: CircleV,
    pub start_degree: Seq<char>,
    pub end_degree: Seq<char>,
}

impl View for Arc {
    type V = ArcV;

    open spec fn view(&self) -> ArcV {
        ArcV { circle: self.circle@, start_degree: self.start_degree@, end_degree: self.end_degree@ }
    }
}

pub open spec fn spec_arc_default() -> ArcV {
    ArcV {
        circle: spec_circle_default(),
        start_degree: spec_float_zero(),
        end_degree: spec_float_zero(),
    }
}

impl Default for Arc {
    fn default() -> (r: Arc)
        ensures
            r@ == spec_arc_default(),
    {
        let r = Arc { circle: Circle::default(), start_degree: float_zero(), end_degree: float_zero() };
        proof {
            assert(r@ =~= spec_arc_default());
        }
        r
    }
}

/// The circle's table is tried first; the two angle codes follow.
pub open spec fn spec_arc_set_atom(p: ArcV, a: AtomV) -> (ArcV, bool) {
    let (c2, rec) = spec_circle_set_atom(p.circle, a);
    if rec {
        (ArcV { circle: c2, ..p }, true)
    } else if a.code == 50 {
        (
            match a.value {
                ValueV::F64(t) => ArcV { start_degree: t, ..p },
                _ => p,
            },
            true,
        )
    } else if a.code == 51 {
        (
            match a.value {
                ValueV::F64(t) => ArcV { end_degree: t, ..p },
                _ => p,
            },
            true,
        )
    } else {
        (p, false)
    }
}

impl Arc {
    /// Accepts one atom, as [`spec_arc_set_atom`] says.
    #[verifier::rlimit(60)]
    pub fn set_atom(&mut self, a: &Atom) -> (r: bool)
        ensures
            ({
                let (pv, rec) = spec_arc_set_atom(old(self)@, a@);
                final(self)@ == pv && r == rec
            }),
    {
        if self.circle.set_atom(a) {
            true
        } else {
            match a.code {
                50 => {
                    match &a.value {
                        Value::F64(t) => {
                            self.start_degree = clone_float(t);
                        },
                        _ => {},
                    }
                    true
                },
                51 => {
                    match &a.value {
                        Value::F64(t) => {
                            self.end_degree = clone_float(t);
                        },
                        _ => {},
                    }
                    true
                },
                _ => false,
            }
        }
    }
}

/// A single point, with an optional display angle.
#[derive(Debug, PartialEq)]
pub struct Point {
    pub coord: Vec3,
    pub thickness: Float64,
    pub extrusion_direction: Option<Vec3>,
    pub x_axis_degree: Option<Float64>,
}

#[verifier::ext_equal]
pub struct PointV {
    pub coord: Vec3V,
    pub thickness: Seq<char>,
    pub extrusion_direction: Option<Vec3V>,
    pub x_axis_degree: Option<Seq<char>>,
}

impl View for Point {
    type V = PointV;

    open spec fn view(&self) -> PointV {
        PointV {
            coord: self.coord@,
            thickness: self.thickness@,
            extrusion_direction: spec_opt_vec3_view(self.extrusion_direction),
            x_axis_degree: spec_opt_float_view(self.x_axis_degree),
        }
    }
}

pub open spec fn spec_point_default() -> PointV {
    PointV {
        coord: spec_vec3_zero(),
        thickness: spec_float_zero(),
        extrusion_direction: None,
        x_axis_degree: None,
    }
}

impl Default for Point {
    fn default() -> (r: Point)
        ensures
            r@ == spec_point_default(),
    {
        let r = Point {
            coord: vec3_zero(),
            thickness: float_zero(),
            extrusion_direction: None,
            x_axis_degree: None,
        };
        proof {
            assert(r@ =~= spec_point_default());
        }
        r
    }
}

pub open spec fn spec_point_set_atom(p: PointV, a: AtomV) -> (PointV, bool) {
    if a.code == 10 || a.code == 20 || a.code == 30 || a.code == 39 {
        (
            match a.value {
                ValueV::F64(t) => {
                    if a.code == 10 {
                        PointV { coord: Vec3V { x: t, ..p.coord }, ..p }
                    } else if a.code == 20 {
                        PointV { coord: Vec3V { y: t, ..p.coord }, ..p }
                    } else if a.code == 30 {
                        PointV { coord: Vec3V { z: t, ..p.coord }, ..p }
                    } else {
                        PointV { thickness: t, ..p }
                    }
                },
                _ => p,
            },
            true,
        )
    } else if a.code == 210 || a.code == 220 || a.code == 230 {
        (
            match a.value {
                ValueV::F64(t) => PointV {
                    extrusion_direction: spec_set_opt_coord(
                        p.extrusion_direction,
                        if a.code == 210 {
                            0int
                        } else if a.code == 220 {
                            1int
                        } else {
                            2int
                        },
                        t,
                    ),
                    ..p
                },
                _ => p,
            },
            true,
        )
    } else if a.code == 50 {
        (
            match a.value {
                ValueV::F64(t) => PointV { x_axis_degree: Some(t), ..p },
                _ => PointV { x_axis_degree: None, ..p },
            },
            true,
        )
    } else {
        (p, false)
    }
}

impl Point {
    /// Accepts one atom, as [`spec_point_set_atom`] says.
    #[verifier::rlimit(60)]
    pub fn set_atom(&mut self, a: &Atom) -> (r: bool)
        ensures
            ({
                let (pv, rec) = spec_point_set_atom(old(self)@, a@);
                final(self)@ == pv && r == rec
            }),
    {
        match a.code {
            10 | 20 | 30 | 39 => {
                match &a.value {
                    Value::F64(t) => {
                        if a.code == 10 {
                            self.coord.x = clone_float(t);
                        } else if a.code == 20 {
                            self.coord.y = clone_float(t);
                        } else if a.code == 30 {
                            self.coord.z = clone_float(t);
                        } else {
                            self.thickness = clone_float(t);
                        }
                    },
                    _ => {},
                }
                true
            },
            210 | 220 | 230 => {
                match &a.value {
                    Value::F64(t) => {
                        let i: u8 = if a.code == 210 {
                            0
                        } else if a.code == 220 {
                            1
                        } else {
                            2
                        };
                        set_opt_coord(&mut self.extrusion_direction, i, t);
                    },
                    _ => {},
                }
                true
            },
            50 => {
                match &a.value {
                    Value::F64(t) => {
                        self.x_axis_degree = Some(clone_float(t));
                    },
                    _ => {
                        self.x_axis_degree = None;
                    },
                }
                true
            },
            _ => false,
        }
    }
}

/// A reference to a block, with placement, scale and a repeat grid.
#[derive(Debug, PartialEq)]
pub struct Insert {
    pub block_name: String,
    pub insertion_point: Vec3,
    pub scale_factor: Vec3,
    pub rotation_degree: Float64,
    pub column_count: usize,
    pub row_count: usize,
    pub column_spacing: Float64,
    pub row_spacing: Float64,
    pub extrusion_direction: Vec3,
}

#[verifier::ext_equal]
pub struct InsertV {
    pub block_name: Seq<char>,
    pub insertion_point: Vec3V,
    pub scale_factor: Vec3V,
    pub rotation_degree: Seq<char>,
    pub column_count: usize,
    pub row_count: usize,
    pub column_spacing: Seq<char>,
    pub row_spacing: Seq<char>,
    pub extrusion_direction: Vec3V,
}

impl View for Insert {
    type V = InsertV;

    open spec fn view(&self) -> InsertV {
        InsertV {
            block_name: self.block_name@,
            insertion_point: self.insertion_point@,
            scale_factor: self.scale_factor@,
            rotation_degree: self.rotation_degree@,
            column_count: self.column_count,
            row_count: self.row_count,
            column_spacing: self.column_spacing@,
            row_spacing: self.row_spacing@,
            extrusion_direction: self.extrusion_direction@,
        }
    }
}

pub open spec fn spec_insert_default() -> InsertV {
    InsertV {
        block_name: Seq::empty(),
        insertion_point: spec_vec3_zero(),
        scale_factor: spec_vec3_one(),
        rotation_degree: spec_float_zero(),
        column_count: 1,
        row_count: 1,
        column_spacing: spec_float_zero(),
        row_spacing: spec_float_zero(),
        extrusion_direction: spec_vec3_z_unit(),
    }
}

impl Default for Insert {
    fn default() -> (r: Insert)
        ensures
            r@ == spec_insert_default(),
    {
        let r = Insert {
            block_name: String::new(),
            insertion_point: vec3_zero(),
            scale_factor: vec3_one(),
            rotation_degree: float_zero(),
            column_count: 1,
            row_count: 1,
            column_spacing: float_zero(),
            row_spacing: float_zero(),
            extrusion_direction: vec3_z_unit(),
        };
        proof {
            assert(r@ =~= spec_insert_default());
        }
        r
    }
}

/// Counts come as 16-bit integers; a negative count fails its coercion
/// and leaves the field unchanged.
pub open spec fn spec_insert_set_atom(p: InsertV, a: AtomV) -> (InsertV, bool) {
    if a.code == 2 {
        (
            match a.value {
                ValueV::String(s) => InsertV { block_name: s, ..p },
                _ => p,
            },
            true,
        )
    } else if a.code == 10 || a.code == 20 || a.code == 30 || a.code == 41 || a.code == 42
        || a.code == 43 || a.code == 50 || a.code == 44 || a.code == 45 || a.code == 210
        || a.code == 220 || a.code == 230 {
        (
            match a.value {
                ValueV::F64(t) => {
                    if a.code == 10 {
                        InsertV { insertion_point: Vec3V { x: t, ..p.insertion_point }, ..p }
                    } else if a.code == 20 {
                        InsertV { insertion_point: Vec3V { y: t, ..p.insertion_point }, ..p }
                    } else if a.code == 30 {
                        InsertV { insertion_point: Vec3V { z: t, ..p.insertion_point }, ..p }
                    } else if a.code == 41 {
                        InsertV { scale_factor: Vec3V { x: t, ..p.scale_factor }, ..p }
                    } else if a.code == 42 {
                        InsertV { scale_factor: Vec3V { y: t, ..p.scale_factor }, ..p }
                    } else if a.code == 43 {
                        InsertV { scale_factor: Vec3V { z: t, ..p.scale_factor }, ..p }
                    } else if a.code == 50 {
                        InsertV { rotation_degree: t, ..p }
                    } else if a.code == 44 {
                        InsertV { column_spacing: t, ..p }
                    } else if a.code == 45 {
                        InsertV { row_spacing: t, ..p }
                    } else if a.code == 210 {
                        InsertV { extrusion_direction: Vec3V { x: t, ..p.extrusion_direction }, ..p }
                    } else if a.code == 220 {
                        InsertV { extrusion_direction: Vec3V { y: t, ..p.extrusion_direction }, ..p }
                    } else {
                        InsertV { extrusion_direction: Vec3V { z: t, ..p.extrusion_direction }, ..p }
                    }
                },
                _ => p,
            },
            true,
        )
    } else if a.code == 70 {
        (
            match a.value {
                ValueV::I16(v) => if v >= 0 {
                    InsertV { column_count: v as usize, ..p }
                } else {
                    p
                },
                _ => p,
            },
            true,
        )
    } else if a.code == 71 {
        (
            match a.value {
                ValueV::I16(v) => if v >= 0 {
                    InsertV { row_count: v as usize, ..p }
                } else {
                    p
                },
                _ => p,
            },
            true,
        )
    } else {
        (p, false)
    }
}

impl Insert {
    /// Accepts one atom, as [`spec_insert_set_atom`] says.
    #[verifier::rlimit(60)]
    pub fn set_atom(&mut self, a: &Atom) -> (r: bool)
        ensures
            ({
                let (pv, rec) = spec_insert_set_atom(old(self)@, a@);
                final(self)@ == pv && r == rec
            }),
    {
        match a.code {
            2 => {
                match &a.value {
                    Value::String(s) => {
                        self.block_name = clone_string(s);
                    },
                    _ => {},
                }
                true
            },
            10 | 20 | 30 | 41 | 42 | 43 | 50 | 44 | 45 | 210 | 220 | 230 => {
                match &a.value {
                    Value::F64(t) => {
                        if a.code == 10 {
                            self.insertion_point.x = clone_float(t);
                        } else if a.code == 20 {
                            self.insertion_point.y = clone_float(t);
                        } else if a.code == 30 {
                            self.insertion_point.z = clone_float(t);
                        } else if a.code == 41 {
                            self.scale_factor.x = clone_float(t);
                        } else if a.code == 42 {
                            self.scale_factor.y = clone_float(t);
                        } else if a.code == 43 {
                            self.scale_factor.z = clone_float(t);
                        } else if a.code == 50 {
                            self.rotation_degree = clone_float(t);
                        } else if a.code == 44 {
                            self.column_spacing = clone_float(t);
                        } else if a.code == 45 {
                            self.row_spacing = clone_float(t);
                        } else if a.code == 210 {
                            self.extrusion_direction.x = clone_float(t);
                        } else if a.code == 220 {
                            self.extrusion_direction.y = clone_float(t);
                        } else {
                            self.extrusion_direction.z = clone_float(t);
                        }
                    },
                    _ => {},
                }
                true
            },
            70 => {
                match &a.value {
                    Value::I16(v) => {
                        if *v >= 0 {
                            self.column_count = *v as usize;
                        }
                    },
                    _ => {},
                }
                true
            },
            71 => {
                match &a.value {
                    Value::I16(v) => {
                        if *v >= 0 {
                            self.row_count = *v as usize;
                        }
                    },
                    _ => {},
                }
                true
            },
            _ => false,
        }
    }
}

// ---------------------------------------------------------------------
// text-bearing entity payloads
/// A single-line text label. The string value has its control codes
/// substituted at decode time.
#[derive(Debug, PartialEq)]
pub struct Text {
    pub text: String,
    pub style_name: Option<String>,
    pub thickness: Option<Float64>,
    pub point1: Vec3,
    pub point2: Vec3,
    pub height: Float64,
    pub rotation_degree: Option<Float64>,
    pub relative_x_scale_factor: Option<Float64>,
    pub oblique_degree: Option<Float64>,
    pub mirror_flags: Option<TextMirrorFlags>,
    pub alignment: TextAlignment,
    pub extrusion_vector: Option<Vec3>,
}

#[verifier::ext_equal]
pub struct TextV {
    pub text: Seq<char>,
    pub style_name: Option<Seq<char>>,
    pub thickness: Option<Seq<char>>,
    pub point1: Vec3V,
    pub point2: Vec3V,
    pub height: Seq<char>,
    pub rotation_degree: Option<Seq<char>>,
    pub relative_x_scale_factor: Option<Seq<char>>,
    pub oblique_degree: Option<Seq<char>>,
    pub mirror_flags: Option<TextMirrorFlags>,
    pub alignment: TextAlignment,
    pub extrusion_vector: Option<Vec3V>,
}

impl View for Text {
    type V = TextV;

    open spec fn view(&self) -> TextV {
        TextV {
            text: self.text@,
            style_name: spec_opt_string_view(self.style_name),
            thickness: spec_opt_float_view(self.thickness),
            point1: self.point1@,
            point2: self.point2@,
            height: self.height@,
            rotation_degree: spec_opt_float_view(self.rotation_degree),
            relative_x_scale_factor: spec_opt_float_view(self.relative_x_scale_factor),
            oblique_degree: spec_opt_float_view(self.oblique_degree),
            mirror_flags: self.mirror_flags,
            alignment: self.alignment,
            extrusion_vector: spec_opt_vec3_view(self.extrusion_vector),
        }
    }
}

pub open spec fn spec_text_default() -> TextV {
    TextV {
        text: Seq::empty(),
        style_name: None,
        thickness: None,
        point1: spec_vec3_zero(),
        point2: spec_vec3_zero(),
        height: spec_float_zero(),
        rotation_degree: None,
        relative_x_scale_factor: None,
        oblique_degree: None,
        mirror_flags: None,
        alignment: TextAlignment::Combo(
            TextHorizontalAlignment::Left,
            TextVerticalAlignment::Baseline,
        ),
        extrusion_vector: None,
    }
}

impl Default for Text {
    fn default() -> (r: Text)
        ensures
            r@ == spec_text_default(),
    {
        let r = Text {
            text: String::new(),
            style_name: None,
            thickness: None,
            point1: vec3_zero(),
            point2: vec3_zero(),
            height: float_zero(),
            rotation_degree: None,
            relative_x_scale_factor: None,
            oblique_degree: None,
            mirror_flags: None,
            alignment: TextAlignment::Combo(
                TextHorizontalAlignment::Left,
                TextVerticalAlignment::Baseline,
            ),
            extrusion_vector: None,
        };
        proof {
            assert(r@ =~= spec_text_default());
        }
        r
    }
}

/// Code 72 carries either a horizontal alignment (0 to 2) or one of the
/// exclusive alignments (3 aligned, 4 middle, 5 fit); code 73 a vertical
/// alignment; either combines with the other half of a combo.
pub open spec fn spec_text_set_atom(p: TextV, a: AtomV) -> (TextV, bool) {
    if a.code == 1 {
        (
            match a.value {
                ValueV::String(s) => TextV { text: spec_parse_control_codes(s), ..p },
                _ => p,
            },
            true,
        )
    } else if a.code == 7 {
        (
            match a.value {
                ValueV::String(s) => TextV { style_name: Some(s), ..p },
                _ => TextV { style_name: None, ..p },
            },
            true,
        )
    } else if a.code == 10 || a.code == 20 || a.code == 30 || a.code == 11 || a.code == 21
        || a.code == 31 || a.code == 40 {
        (
            match a.value {
                ValueV::F64(t) => {
                    if a.code == 10 {
                        TextV { point1: Vec3V { x: t, ..p.point1 }, ..p }
                    } else if a.code == 20 {
                        TextV { point1: Vec3V { y: t, ..p.point1 }, ..p }
                    } else if a.code == 30 {
                        TextV { point1: Vec3V { z: t, ..p.point1 }, ..p }
                    } else if a.code == 11 {
                        TextV { point2: Vec3V { x: t, ..p.point2 }, ..p }
                    } else if a.code == 21 {
                        TextV { point2: Vec3V { y: t, ..p.point2 }, ..p }
                    } else if a.code == 31 {
                        TextV { point2: Vec3V { z: t, ..p.point2 }, ..p }
                    } else {
                        TextV { height: t, ..p }
                    }
                },
                _ => p,
            },
            true,
        )
    } else if a.code == 39 || a.code == 41 || a.code == 50 || a.code == 51 {
        (
            match a.value {
                ValueV::F64(t) => {
                    if a.code == 39 {
                        TextV { thickness: Some(t), ..p }
                    } else if a.code == 41 {
                        TextV { relative_x_scale_factor: Some(t), ..p }
                    } else if a.code == 50 {
                        TextV { rotation_degree: Some(t), ..p }
                    } else {
                        TextV { oblique_degree: Some(t), ..p }
                    }
                },
                _ => {
                    if a.code == 39 {
                        TextV { thickness: None, ..p }
                    } else if a.code == 41 {
                        TextV { relative_x_scale_factor: None, ..p }
                    } else if a.code == 50 {
                        TextV { rotation_degree: None, ..p }
                    } else {
                        TextV { oblique_degree: None, ..p }
                    }
                },
            },
            true,
        )
    } else if a.code == 71 {
        (
            match a.value {
                ValueV::I16(v) => TextV {
                    mirror_flags: Some(spec_text_mirror_flags_from_i16(v)),
                    ..p
                },
                _ => TextV { mirror_flags: None, ..p },
            },
            true,
        )
    } else if a.code == 72 {
        (
            match a.value {
                ValueV::I16(v) => match spec_text_horizontal_alignment_from_i16(v) {
                    Some(h) => TextV {
                        alignment: TextAlignment::Combo(
                            h,
                            match p.alignment {
                                TextAlignment::Combo(_, vv) => vv,
                                _ => TextVerticalAlignment::Baseline,
                            },
                        ),
                        ..p
                    },
                    None => if v == 3 {
                        TextV { alignment: TextAlignment::Aligned, ..p }
                    } else if v == 4 {
                        TextV { alignment: TextAlignment::Middle, ..p }
                    } else if v == 5 {
                        TextV { alignment: TextAlignment::Fit, ..p }
                    } else {
                        p
                    },
                },
                _ => p,
            },
            true,
        )
    } else if a.code == 73 {
        (
            match a.value {
                ValueV::I16(v) => match spec_text_vertical_alignment_from_i16(v) {
                    Some(vv) => TextV {
                        alignment: TextAlignment::Combo(
                            match p.alignment {
                                TextAlignment::Combo(hh, _) => hh,
                                _ => TextHorizontalAlignment::Left,
                            },
                            vv,
                        ),
                        ..p
                    },
                    None => p,
                },
                _ => p,
            },
            true,
        )
    } else if a.code == 210 || a.code == 220 || a.code == 230 {
        (
            match a.value {
                ValueV::F64(t) => TextV {
                    extrusion_vector: spec_set_opt_coord(
                        p.extrusion_vector,
                        if a.code == 210 {
                            0int
                        } else if a.code == 220 {
                            1int
                        } else {
                            2int
                        },
                        t,
                    ),
                    ..p
                },
                _ => p,
            },
            true,
        )
    } else {
        (p, false)
    }
}

impl Text {
    /// Accepts one atom, as [`spec_text_set_atom`] says.
    #[verifier::rlimit(100)]
    pub fn set_atom(&mut self, a: &Atom) -> (r: bool)
        ensures
            ({
                let (pv, rec) = spec_text_set_atom(old(self)@, a@);
                final(self)@ == pv && r == rec
            }),
    {
        match a.code {
            1 => {
                match &a.value {
                    Value::String(s) => {
                        self.text = parse_control_codes(s.as_str());
                    },
                    _ => {},
                }
                true
            },
            7 => {
                match &a.value {
                    Value::String(s) => {
                        self.style_name = Some(clone_string(s));
                    },
                    _ => {
                        self.style_name = None;
                    },
                }
                true
            },
            10 | 20 | 30 | 11 | 21 | 31 | 40 => {
                match &a.value {
                    Value::F64(t) => {
                        if a.code == 10 {
                            self.point1.x = clone_float(t);
                        } else if a.code == 20 {
                            self.point1.y = clone_float(t);
                        } else if a.code == 30 {
                            self.point1.z = clone_float(t);
                        } else if a.code == 11 {
                            self.point2.x = clone_float(t);
                        } else if a.code == 21 {
                            self.point2.y = clone_float(t);
                        } else if a.code == 31 {
                            self.point2.z = clone_float(t);
                        } else {
                            self.height = clone_float(t);
                        }
                    },
                    _ => {},
                }
                true
            },
            39 | 41 | 50 | 51 => {
                match &a.value {
                    Value::F64(t) => {
                        if a.code == 39 {
                            self.thickness = Some(clone_float(t));
                        } else if a.code == 41 {
                            self.relative_x_scale_factor = Some(clone_float(t));
                        } else if a.code == 50 {
                            self.rotation_degree = Some(clone_float(t));
                        } else {
                            self.oblique_degree = Some(clone_float(t));
                        }
                    },
                    _ => {
                        if a.code == 39 {
                            self.thickness = None;
                        } else if a.code == 41 {
                            self.relative_x_scale_factor = None;
                        } else if a.code == 50 {
                            self.rotation_degree = None;
                        } else {
                            self.oblique_degree = None;
                        }
                    },
                }
                true
            },
            71 => {
                match &a.value {
                    Value::I16(v) => {
                        self.mirror_flags = Some(text_mirror_flags_from_i16(*v));
                    },
                    _ => {
                        self.mirror_flags = None;
                    },
                }
                true
            },
            72 => {
                match &a.value {
                    Value::I16(v) => {
                        match text_horizontal_alignment_from_i16(*v) {
                            Some(h) => {
                                let vv: TextVerticalAlignment = match self.alignment {
                                    TextAlignment::Combo(_, vv) => vv,
                                    _ => TextVerticalAlignment::Baseline,
                                };
                                self.alignment = TextAlignment::Combo(h, vv);
                            },
                            None => {
                                if *v == 3 {
                                    self.alignment = TextAlignment::Aligned;
                                } else if *v == 4 {
                                    self.alignment = TextAlignment::Middle;
                                } else if *v == 5 {
                                    self.alignment = TextAlignment::Fit;
                                }
                            },
                        }
                    },
                    _ => {},
                }
                true
            },
            73 => {
                match &a.value {
                    Value::I16(v) => {
                        match text_vertical_alignment_from_i16(*v) {
                            Some(vv) => {
                                let hh: TextHorizontalAlignment = match self.alignment {
                                    TextAlignment::Combo(hh, _) => hh,
                                    _ => TextHorizontalAlignment::Left,
                                };
                                self.alignment = TextAlignment::Combo(hh, vv);
                            },
                            None => {},
                        }
                    },
                    _ => {},
                }
                true
            },
            210 | 220 | 230 => {
                match &a.value {
                    Value::F64(t) => {
                        let i: u8 = if a.code == 210 {
                            0
                        } else if a.code == 220 {
                            1
                        } else {
                            2
                        };
                        set_opt_coord(&mut self.extrusion_vector, i, t);
                    },
                    _ => {},
                }
                true
            },
            _ => false,
        }
    }
}

/// A multi-line rich text entity; codes 1 and 3 accumulate the raw
/// string, decoded by the rich-text passes after all atoms are in.
#[derive(Debug, PartialEq)]
pub struct MText {
    pub text: MTextFormatString,
    pub style_name: Option<String>,
    pub point: Vec3,
    pub x_axis: Option<Vec3>,
    pub height: Float64,
    pub rectangle_width: Float64,
    pub character_width: Float64,
    pub character_height: Float64,
    pub rotation_radian: Option<Float64>,
    pub extrusion_vector: Option<Vec3>,
    pub attachment_point: AttachmentPoint,
    pub drawing_direction: MTextDirection,
    pub line_spacing_style: TextLineSpacingStyle,
    pub line_spacing_factor: Option<Float64>,
    pub background_fill_color: Option<MTextBackground>,
    pub fill_box_scale: Option<Float64>,
}

#[verifier::ext_equal]
pub struct MTextV {
    pub text: MTextFormatStringV,
    pub style_name: Option<Seq<char>>,
    pub point: Vec3V,
    pub x_axis: Option<Vec3V>,
    pub height: Seq<char>,
    pub rectangle_width: Seq<char>,
    pub character_width: Seq<char>,
    pub character_height: Seq<char>,
    pub rotation_radian: Option<Seq<char>>,
    pub extrusion_vector: Option<Vec3V>,
    pub attachment_point: AttachmentPoint,
    pub drawing_direction: MTextDirection,
    pub line_spacing_style: TextLineSpacingStyle,
    pub line_spacing_factor: Option<Seq<char>>,
    pub background_fill_color: Option<MTextBackground>,
    pub fill_box_scale: Option<Seq<char>>,
}

impl View for MText {
    type V = MTextV;

    open spec fn view(&self) -> MTextV {
        MTextV {
            text: self.text@,
            style_name: spec_opt_string_view(self.style_name),
            point: self.point@,
            x_axis: spec_opt_vec3_view(self.x_axis),
            height: self.height@,
            rectangle_width: self.rectangle_width@,
            character_width: self.character_width@,
            character_height: self.character_height@,
            rotation_radian: spec_opt_float_view(self.rotation_radian),
            extrusion_vector: spec_opt_vec3_view(self.extrusion_vector),
            attachment_point: self.attachment_point,
            drawing_direction: self.drawing_direction,
            line_spacing_style: self.line_spacing_style,
            line_spacing_factor: spec_opt_float_view(self.line_spacing_factor),
            background_fill_color: self.background_fill_color,
            fill_box_scale: spec_opt_float_view(self.fill_box_scale),
        }
    }
}

pub open spec fn spec_mtext_default() -> MTextV {
    MTextV {
        text: MTextFormatStringV { raw: Seq::empty(), nodes: Seq::empty() },
        style_name: None,
        point: spec_vec3_zero(),
        x_axis: None,
        height: spec_float_zero(),
        rectangle_width: spec_float_zero(),
        character_width: spec_float_zero(),
        character_height: spec_float_zero(),
        rotation_radian: None,
        extrusion_vector: None,
        attachment_point: AttachmentPoint::TopLeft,
        drawing_direction: MTextDirection::LeftToRight,
        line_spacing_style: TextLineSpacingStyle::AtLeast,
        line_spacing_factor: None,
        background_fill_color: None,
        fill_box_scale: None,
    }
}

impl Default for MText {
    fn default() -> (r: MText)
        ensures
            r@ == spec_mtext_default(),
    {
        let r = MText {
            text: MTextFormatString::default(),
            style_name: None,
            point: vec3_zero(),
            x_axis: None,
            height: float_zero(),
            rectangle_width: float_zero(),
            character_width: float_zero(),
            character_height: float_zero(),
            rotation_radian: None,
            extrusion_vector: None,
            attachment_point: AttachmentPoint::TopLeft,
            drawing_direction: MTextDirection::LeftToRight,
            line_spacing_style: TextLineSpacingStyle::AtLeast,
            line_spacing_factor: None,
            background_fill_color: None,
            fill_box_scale: None,
        };
        proof {
            assert(r@.text =~= spec_mtext_default().text);
            assert(r@ =~= spec_mtext_default());
        }
        r
    }
}

/// Code 90 switches the background fill: 0 off, 1 a color (kept if one
/// was already chosen by code 63), 2 the window color.
pub open spec fn spec_mtext_set_atom(p: MTextV, a: AtomV) -> (MTextV, bool) {
    if a.code == 1 || a.code == 3 {
        (
            match a.value {
                ValueV::String(s) => MTextV {
                    text: MTextFormatStringV { raw: p.text.raw + s, ..p.text },
                    ..p
                },
                _ => p,
            },
            true,
        )
    } else if a.code == 7 {
        (
            match a.value {
                ValueV::String(s) => MTextV { style_name: Some(s), ..p },
                _ => MTextV { style_name: None, ..p },
            },
            true,
        )
    } else if a.code == 10 || a.code == 20 || a.code == 30 || a.code == 40 || a.code == 41
        || a.code == 42 || a.code == 43 {
        (
            match a.value {
                ValueV::F64(t) => {
                    if a.code == 10 {
                        MTextV { point: Vec3V { x: t, ..p.point }, ..p }
                    } else if a.code == 20 {
                        MTextV { point: Vec3V { y: t, ..p.point }, ..p }
                    } else if a.code == 30 {
                        MTextV { point: Vec3V { z: t, ..p.point }, ..p }
                    } else if a.code == 40 {
                        MTextV { height: t, ..p }
                    } else if a.code == 41 {
                        MTextV { rectangle_width: t, ..p }
                    } else if a.code == 42 {
                        MTextV { character_width: t, ..p }
                    } else {
                        MTextV { character_height: t, ..p }
                    }
                },
                _ => p,
            },
            true,
        )
    } else if a.code == 11 || a.code == 21 || a.code == 31 {
        (
            match a.value {
                ValueV::F64(t) => MTextV {
                    x_axis: spec_set_opt_coord(
                        p.x_axis,
                        if a.code == 11 {
                            0int
                        } else if a.code == 21 {
                            1int
                        } else {
                            2int
                        },
                        t,
                    ),
                    ..p
                },
                _ => p,
            },
            true,
        )
    } else if a.code == 50 {
        (
            match a.value {
                ValueV::F64(t) => MTextV { rotation_radian: Some(t), ..p },
                _ => MTextV { rotation_radian: None, ..p },
            },
            true,
        )
    } else if a.code == 210 || a.code == 220 || a.code == 230 {
        (
            match a.value {
                ValueV::F64(t) => MTextV {
                    extrusion_vector: spec_set_opt_coord(
                        p.extrusion_vector,
                        if a.code == 210 {
                            0int
                        } else if a.code == 220 {
                            1int
                        } else {
                            2int
                        },
                        t,
                    ),
                    ..p
                },
                _ => p,
            },
            true,
        )
    } else if a.code == 71 {
        (
            match a.value {
                ValueV::I16(v) => match spec_attachment_point_from_i16(v) {
                    Some(ap) => MTextV { attachment_point: ap, ..p },
                    None => p,
                },
                _ => p,
            },
            true,
        )
    } else if a.code == 72 {
        (
            match a.value {
                ValueV::I16(v) => match spec_mtext_direction_from_i16(v) {
                    Some(d) => MTextV { drawing_direction: d, ..p },
                    None => p,
                },
                _ => p,
            },
            true,
        )
    } else if a.code == 73 {
        (
            match a.value {
                ValueV::I16(v) => match spec_text_line_spacing_style_from_i16(v) {
                    Some(st) => MTextV { line_spacing_style: st, ..p },
                    None => p,
                },
                _ => p,
            },
            true,
        )
    } else if a.code == 44 {
        (
            match a.value {
                ValueV::F64(t) => MTextV { line_spacing_factor: Some(t), ..p },
                _ => MTextV { line_spacing_factor: None, ..p },
            },
            true,
        )
    } else if a.code == 90 {
        (
            match a.value {
                ValueV::I32(v) => {
                    if v == 1 && (p.background_fill_color matches Some(
                        MTextBackground::ColorNumber(_),
                    )) {
                        p
                    } else if v == 0 {
                        MTextV { background_fill_color: None, ..p }
                    } else if v == 1 {
                        MTextV {
                            background_fill_color: Some(MTextBackground::ColorNumber(0i16)),
                            ..p
                        }
                    } else if v == 2 {
                        MTextV { background_fill_color: Some(MTextBackground::WindowColor), ..p }
                    } else {
                        p
                    }
                },
                _ => p,
            },
            true,
        )
    } else if a.code == 63 {
        (
            match a.value {
                ValueV::I16(v) => MTextV {
                    background_fill_color: Some(MTextBackground::ColorNumber(v)),
                    ..p
                },
                _ => p,
            },
            true,
        )
    } else if a.code == 45 {
        (
            match a.value {
                ValueV::F64(t) => MTextV { fill_box_scale: Some(t), ..p },
                _ => MTextV { fill_box_scale: None, ..p },
            },
            true,
        )
    } else {
        (p, false)
    }
}

impl MText {
    /// Accepts one atom, as [`spec_mtext_set_atom`] says.
    #[verifier::rlimit(100)]
    pub fn set_atom(&mut self, a: &Atom) -> (r: bool)
        ensures
            ({
                let (pv, rec) = spec_mtext_set_atom(old(self)@, a@);
                final(self)@ == pv && r == rec
            }),
    {
        match a.code {
            1 | 3 => {
                match &a.value {
                    Value::String(s) => {
                        self.text.raw.append(s.as_str());
                    },
                    _ => {},
                }
                true
            },
            7 => {
                match &a.value {
                    Value::String(s) => {
                        self.style_name = Some(clone_string(s));
                    },
                    _ => {
                        self.style_name = None;
                    },
                }
                true
            },
            10 | 20 | 30 | 40 | 41 | 42 | 43 => {
                match &a.value {
                    Value::F64(t) => {
                        if a.code == 10 {
                            self.point.x = clone_float(t);
                        } else if a.code == 20 {
                            self.point.y = clone_float(t);
                        } else if a.code == 30 {
                            self.point.z = clone_float(t);
                        } else if a.code == 40 {
                            self.height = clone_float(t);
                        } else if a.code == 41 {
                            self.rectangle_width = clone_float(t);
                        } else if a.code == 42 {
                            self.character_width = clone_float(t);
                        } else {
                            self.character_height = clone_float(t);
                        }
                    },
                    _ => {},
                }
                true
            },
            11 | 21 | 31 => {
                match &a.value {
                    Value::F64(t) => {
                        let i: u8 = if a.code == 11 {
                            0
                        } else if a.code == 21 {
                            1
                        } else {
                            2
                        };
                        set_opt_coord(&mut self.x_axis, i, t);
                    },
                    _ => {},
                }
                true
            },
            50 => {
                match &a.value {
                    Value::F64(t) => {
                        self.rotation_radian = Some(clone_float(t));
                    },
                    _ => {
                        self.rotation_radian = None;
                    },
                }
                true
            },
            210 | 220 | 230 => {
                match &a.value {
                    Value::F64(t) => {
                        let i: u8 = if a.code == 210 {
                            0
                        } else if a.code == 220 {
                            1
                        } else {
                            2
                        };
                        set_opt_coord(&mut self.extrusion_vector, i, t);
                    },
                    _ => {},
                }
                true
            },
            71 => {
                match &a.value {
                    Value::I16(v) => match attachment_point_from_i16(*v) {
                        Some(ap) => {
                            self.attachment_point = ap;
                        },
                        None => {},
                    },
                    _ => {},
                }
                true
            },
            72 => {
                match &a.value {
                    Value::I16(v) => match mtext_direction_from_i16(*v) {
                        Some(d) => {
                            self.drawing_direction = d;
                        },
                        None => {},
                    },
                    _ => {},
                }
                true
            },
            73 => {
                match &a.value {
                    Value::I16(v) => match text_line_spacing_style_from_i16(*v) {
                        Some(st) => {
                            self.line_spacing_style = st;
                        },
                        None => {},
                    },
                    _ => {},
                }
                true
            },
            44 => {
                match &a.value {
                    Value::F64(t) => {
                        self.line_spacing_factor = Some(clone_float(t));
                    },
                    _ => {
                        self.line_spacing_factor = None;
                    },
                }
                true
            },
            90 => {
                match &a.value {
                    Value::I32(v) => {
                        let keep: bool = *v == 1 && match self.background_fill_color {
                            Some(MTextBackground::ColorNumber(_)) => true,
                            _ => false,
                        };
                        if keep {
                        } else if *v == 0 {
                            self.background_fill_color = None;
                        } else if *v == 1 {
                            self.background_fill_color = Some(MTextBackground::ColorNumber(0));
                        } else if *v == 2 {
                            self.background_fill_color = Some(MTextBackground::WindowColor);
                        }
                    },
                    _ => {},
                }
                true
            },
            63 => {
                match &a.value {
                    Value::I16(v) => {
                        self.background_fill_color = Some(MTextBackground::ColorNumber(*v));
                    },
                    _ => {},
                }
                true
            },
            45 => {
                match &a.value {
                    Value::F64(t) => {
                        self.fill_box_scale = Some(clone_float(t));
                    },
                    _ => {
                        self.fill_box_scale = None;
                    },
                }
                true
            },
            _ => false,
        }
    }
}

/// A dimension annotation; the richest record, mostly optional points
/// and angles.
#[derive(Debug, PartialEq)]
pub struct Dimension {
    pub version: i16,
    pub block_name: String,
    pub definition_point: Vec3,
    pub text_mid_point: Vec3,
    pub dimension_type: DimensionType,
    pub dimension_flags: DimensionFlags,
    pub attachment_point: AttachmentPoint,
    pub text_line_spacing_style: TextLineSpacingStyle,
    pub text_line_spacing_factor: Option<Float64>,
    pub actual_measurement: Option<Float64>,
    pub text: Option<String>,
    pub text_rotation_angle: Option<Float64>,
    pub horizontal_direction_angle: Option<Float64>,
    pub extrusion_direction: Option<Vec3>,
    pub dimension_style: String,
    pub definition_point2: Option<Vec3>,
    pub definition_point3: Option<Vec3>,
    pub definition_point4: Option<Vec3>,
    pub insertion_point: Option<Vec3>,
    pub arc_location: Option<Vec3>,
    pub rotation_angle: Option<Float64>,
    pub oblique_angle: Option<Float64>,
    pub leader_length: Option<Float64>,
}

#[verifier::ext_equal]
pub struct DimensionV {
    pub version: i16,
    pub block_name: Seq<char>,
    pub definition_point: Vec3V,
    pub text_mid_point: Vec3V,
    pub dimension_type: DimensionType,
    pub dimension_flags: DimensionFlags,
    pub attachment_point: AttachmentPoint,
    pub text_line_spacing_style: TextLineSpacingStyle,
    pub text_line_spacing_factor: Option<Seq<char>>,
    pub actual_measurement: Option<Seq<char>>,
    pub text: Option<Seq<char>>,
    pub text_rotation_angle: Option<Seq<char>>,
    pub horizontal_direction_angle: Option<Seq<char>>,
    pub extrusion_direction: Option<Vec3V>,
    pub dimension_style: Seq<char>,
    pub definition_point2: Option<Vec3V>,
    pub definition_point3: Option<Vec3V>,
    pub definition_point4: Option<Vec3V>,
    pub insertion_point: Option<Vec3V>,
    pub arc_location: Option<Vec3V>,
    pub rotation_angle: Option<Seq<char>>,
    pub oblique_angle: Option<Seq<char>>,
    pub leader_length: Option<Seq<char>>,
}

impl View for Dimension {
    type V = DimensionV;

    open spec fn view(&self) -> DimensionV {
        DimensionV {
            version: self.version,
            block_name: self.block_name@,
            definition_point: self.definition_point@,
            text_mid_point: self.text_mid_point@,
            dimension_type: self.dimension_type,
            dimension_flags: self.dimension_flags,
            attachment_point: self.attachment_point,
            text_line_spacing_style: self.text_line_spacing_style,
            text_line_spacing_factor: spec_opt_float_view(self.text_line_spacing_factor),
            actual_measurement: spec_opt_float_view(self.actual_measurement),
            text: spec_opt_string_view(self.text),
            text_rotation_angle: spec_opt_float_view(self.text_rotation_angle),
            horizontal_direction_angle: spec_opt_float_view(self.horizontal_direction_angle),
            extrusion_direction: spec_opt_vec3_view(self.extrusion_direction),
            dimension_style: self.dimension_style@,
            definition_point2: spec_opt_vec3_view(self.definition_point2),
            definition_point3: spec_opt_vec3_view(self.definition_point3),
            definition_point4: spec_opt_vec3_view(self.definition_point4),
            insertion_point: spec_opt_vec3_view(self.insertion_point),
            arc_location: spec_opt_vec3_view(self.arc_location),
            rotation_angle: spec_opt_float_view(self.rotation_angle),
            oblique_angle: spec_opt_float_view(self.oblique_angle),
            leader_length: spec_opt_float_view(self.leader_length),
        }
    }
}

pub open spec fn spec_dimension_default() -> DimensionV {
    DimensionV {
        version: 0,
        block_name: Seq::empty(),
        definition_point: spec_vec3_zero(),
        text_mid_point: spec_vec3_zero(),
        dimension_type: DimensionType::RotatedOrHorizontalOrVertical,
        dimension_flags: DimensionFlags {
            block_is_referenced_by_this_dimension_only: false,
            dimension_text_is_positioned_at_user_defined_location: false,
        },
        attachment_point: AttachmentPoint::TopLeft,
        text_line_spacing_style: TextLineSpacingStyle::AtLeast,
        text_line_spacing_factor: None,
        actual_measurement: None,
        text: None,
        text_rotation_angle: None,
        horizontal_direction_angle: None,
        extrusion_direction: None,
        dimension_style: Seq::empty(),
        definition_point2: None,
        definition_point3: None,
        definition_point4: None,
        insertion_point: None,
        arc_location: None,
        rotation_angle: None,
        oblique_angle: None,
        leader_length: None,
    }
}

impl Default for Dimension {
    fn default() -> (r: Dimension)
        ensures
            r@ == spec_dimension_default(),
    {
        let r = Dimension {
            version: 0,
            block_name: String::new(),
            definition_point: vec3_zero(),
            text_mid_point: vec3_zero(),
            dimension_type: DimensionType::RotatedOrHorizontalOrVertical,
            dimension_flags: DimensionFlags {
                block_is_referenced_by_this_dimension_only: false,
                dimension_text_is_positioned_at_user_defined_location: false,
            },
            attachment_point: AttachmentPoint::TopLeft,
            text_line_spacing_style: TextLineSpacingStyle::AtLeast,
            text_line_spacing_factor: None,
            actual_measurement: None,
            text: None,
            text_rotation_angle: None,
            horizontal_direction_angle: None,
            extrusion_direction: None,
            dimension_style: String::new(),
            definition_point2: None,
            definition_point3: None,
            definition_point4: None,
            insertion_point: None,
            arc_location: None,
            rotation_angle: None,
            oblique_angle: None,
            leader_length: None,
        };
        proof {
            assert(r@ =~= spec_dimension_default());
        }
        r
    }
}

/// Which optional point an x/y/z code triple feeds.
pub open spec fn spec_dim_opt_point(p: DimensionV, which: int) -> Option<Vec3V> {
    if which == 0 {
        p.extrusion_direction
    } else if which == 2 {
        p.definition_point2
    } else if which == 3 {
        p.definition_point3
    } else if which == 4 {
        p.definition_point4
    } else if which == 5 {
        p.insertion_point
    } else {
        p.arc_location
    }
}

pub open spec fn spec_dim_with_opt_point(p: DimensionV, which: int, v: Option<Vec3V>) -> DimensionV {
    if which == 0 {
        DimensionV { extrusion_direction: v, ..p }
    } else if which == 2 {
        DimensionV { definition_point2: v, ..p }
    } else if which == 3 {
        DimensionV { definition_point3: v, ..p }
    } else if which == 4 {
        DimensionV { definition_point4: v, ..p }
    } else if which == 5 {
        DimensionV { insertion_point: v, ..p }
    } else {
        DimensionV { arc_location: v, ..p }
    }
}

/// Code 70 feeds both the dimension type and the two flag bits.
pub open spec fn spec_dimension_set_atom(p: DimensionV, a: AtomV) -> (DimensionV, bool) {
    if a.code == 280 {
        (
            match a.value {
                ValueV::String(s) => match spec_parse_i16(s) {
                    Some(v) => DimensionV { version: v, ..p },
                    None => p,
                },
                _ => p,
            },
            true,
        )
    } else if a.code == 2 {
        (
            match a.value {
                ValueV::String(s) => DimensionV { block_name: s, ..p },
                _ => p,
            },
            true,
        )
    } else if a.code == 3 {
        (
            match a.value {
                ValueV::String(s) => DimensionV { dimension_style: s, ..p },
                _ => p,
            },
            true,
        )
    } else if a.code == 1 {
        (
            match a.value {
                ValueV::String(s) => DimensionV { text: Some(s), ..p },
                _ => DimensionV { text: None, ..p },
            },
            true,
        )
    } else if a.code == 10 || a.code == 20 || a.code == 30 || a.code == 11 || a.code == 21
        || a.code == 31 {
        (
            match a.value {
                ValueV::F64(t) => {
                    if a.code == 10 {
                        DimensionV { definition_point: Vec3V { x: t, ..p.definition_point }, ..p }
                    } else if a.code == 20 {
                        DimensionV { definition_point: Vec3V { y: t, ..p.definition_point }, ..p }
                    } else if a.code == 30 {
                        DimensionV { definition_point: Vec3V { z: t, ..p.definition_point }, ..p }
                    } else if a.code == 11 {
                        DimensionV { text_mid_point: Vec3V { x: t, ..p.text_mid_point }, ..p }
                    } else if a.code == 21 {
                        DimensionV { text_mid_point: Vec3V { y: t, ..p.text_mid_point }, ..p }
                    } else {
                        DimensionV { text_mid_point: Vec3V { z: t, ..p.text_mid_point }, ..p }
                    }
                },
                _ => p,
            },
            true,
        )
    } else if a.code == 70 {
        (
            match a.value {
                ValueV::I16(v) => {
                    let p2 = match spec_dimension_type_from_i16(v) {
                        Some(dt) => DimensionV { dimension_type: dt, ..p },
                        None => p,
                    };
                    DimensionV { dimension_flags: spec_dimension_flags_from_i16(v), ..p2 }
                },
                _ => p,
            },
            true,
        )
    } else if a.code == 71 {
        (
            match a.value {
                ValueV::I16(v) => match spec_attachment_point_from_i16(v) {
                    Some(ap) => DimensionV { attachment_point: ap, ..p },
                    None => p,
                },
                _ => p,
            },
            true,
        )
    } else if a.code == 72 {
        (
            match a.value {
                ValueV::I16(v) => match spec_text_line_spacing_style_from_i16(v) {
                    Some(st) => DimensionV { text_line_spacing_style: st, ..p },
                    None => p,
                },
                _ => p,
            },
            true,
        )
    } else if a.code == 41 || a.code == 42 || a.code == 53 || a.code == 51 || a.code == 50
        || a.code == 52 || a.code == 40 {
        (
            match a.value {
                ValueV::F64(t) => {
                    if a.code == 41 {
                        DimensionV { text_line_spacing_factor: Some(t), ..p }
                    } else if a.code == 42 {
                        DimensionV { actual_measurement: Some(t), ..p }
                    } else if a.code == 53 {
                        DimensionV { text_rotation_angle: Some(t), ..p }
                    } else if a.code == 51 {
                        DimensionV { horizontal_direction_angle: Some(t), ..p }
                    } else if a.code == 50 {
                        DimensionV { rotation_angle: Some(t), ..p }
                    } else if a.code == 52 {
                        DimensionV { oblique_angle: Some(t), ..p }
                    } else {
                        DimensionV { leader_length: Some(t), ..p }
                    }
                },
                _ => {
                    if a.code == 41 {
                        DimensionV { text_line_spacing_factor: None, ..p }
                    } else if a.code == 42 {
                        DimensionV { actual_measurement: None, ..p }
                    } else if a.code == 53 {
                        DimensionV { text_rotation_angle: None, ..p }
                    } else if a.code == 51 {
                        DimensionV { horizontal_direction_angle: None, ..p }
                    } else if a.code == 50 {
                        DimensionV { rotation_angle: None, ..p }
                    } else if a.code == 52 {
                        DimensionV { oblique_angle: None, ..p }
                    } else {
                        DimensionV { leader_length: None, ..p }
                    }
                },
            },
            true,
        )
    } else if a.code == 210 || a.code == 220 || a.code == 230 || a.code == 13 || a.code == 23
        || a.code == 33 || a.code == 14 || a.code == 24 || a.code == 34 || a.code == 15
        || a.code == 25 || a.code == 35 || a.code == 12 || a.code == 22 || a.code == 32
        || a.code == 16 || a.code == 26 || a.code == 36 {
        (
            match a.value {
                ValueV::F64(t) => {
                    let which: int = if a.code == 210 || a.code == 220 || a.code == 230 {
                        0
                    } else if a.code == 13 || a.code == 23 || a.code == 33 {
                        2
                    } else if a.code == 14 || a.code == 24 || a.code == 34 {
                        3
                    } else if a.code == 15 || a.code == 25 || a.code == 35 {
                        4
                    } else if a.code == 12 || a.code == 22 || a.code == 32 {
                        5
                    } else {
                        6
                    };
                    let comp: int = if a.code == 210 || a.code == 13 || a.code == 14 || a.code
                        == 15 || a.code == 12 || a.code == 16 {
                        0
                    } else if a.code == 220 || a.code == 23 || a.code == 24 || a.code == 25
                        || a.code == 22 || a.code == 26 {
                        1
                    } else {
                        2
                    };
                    spec_dim_with_opt_point(
                        p,
                        which,
                        spec_set_opt_coord(spec_dim_opt_point(p, which), comp, t),
                    )
                },
                _ => p,
            },
            true,
        )
    } else {
        (p, false)
    }
}

impl Dimension {
    /// Accepts one atom, as [`spec_dimension_set_atom`] says.
    #[verifier::rlimit(100)]
    pub fn set_atom(&mut self, a: &Atom) -> (r: bool)
        ensures
            ({
                let (pv, rec) = spec_dimension_set_atom(old(self)@, a@);
                final(self)@ == pv && r == rec
            }),
    {
        match a.code {
            280 => {
                match &a.value {
                    Value::String(s) => {
                        let cs: Vec<char> = crate::chars::chars_of(s.as_str());
                        match parse_i16_chars(&cs) {
                            Some(v) => {
                                self.version = v;
                            },
                            None => {},
                        }
                    },
                    _ => {},
                }
                true
            },
            2 => {
                match &a.value {
                    Value::String(s) => {
                        self.block_name = clone_string(s);
                    },
                    _ => {},
                }
                true
            },
            3 => {
                match &a.value {
                    Value::String(s) => {
                        self.dimension_style = clone_string(s);
                    },
                    _ => {},
                }
                true
            },
            1 => {
                match &a.value {
                    Value::String(s) => {
                        self.text = Some(clone_string(s));
                    },
                    _ => {
                        self.text = None;
                    },
                }
                true
            },
            10 | 20 | 30 | 11 | 21 | 31 => {
                match &a.value {
                    Value::F64(t) => {
                        if a.code == 10 {
                            self.definition_point.x = clone_float(t);
                        } else if a.code == 20 {
                            self.definition_point.y = clone_float(t);
                        } else if a.code == 30 {
                            self.definition_point.z = clone_float(t);
                        } else if a.code == 11 {
                            self.text_mid_point.x = clone_float(t);
                        } else if a.code == 21 {
                            self.text_mid_point.y = clone_float(t);
                        } else {
                            self.text_mid_point.z = clone_float(t);
                        }
                    },
                    _ => {},
                }
                true
            },
            70 => {
                match &a.value {
                    Value::I16(v) => {
                        match dimension_type_from_i16(*v) {
                            Some(dt) => {
                                self.dimension_type = dt;
                            },
                            None => {},
                        }
                        self.dimension_flags = dimension_flags_from_i16(*v);
                    },
                    _ => {},
                }
                true
            },
            71 => {
                match &a.value {
                    Value::I16(v) => match attachment_point_from_i16(*v) {
                        Some(ap) => {
                            self.attachment_point = ap;
                        },
                        None => {},
                    },
                    _ => {},
                }
                true
            },
            72 => {
                match &a.value {
                    Value::I16(v) => match text_line_spacing_style_from_i16(*v) {
                        Some(st) => {
                            self.text_line_spacing_style = st;
                        },
                        None => {},
                    },
                    _ => {},
                }
                true
            },
            41 | 42 | 53 | 51 | 50 | 52 | 40 => {
                match &a.value {
                    Value::F64(t) => {
                        if a.code == 41 {
                            self.text_line_spacing_factor = Some(clone_float(t));
                        } else if a.code == 42 {
                            self.actual_measurement = Some(clone_float(t));
                        } else if a.code == 53 {
                            self.text_rotation_angle = Some(clone_float(t));
                        } else if a.code == 51 {
                            self.horizontal_direction_angle = Some(clone_float(t));
                        } else if a.code == 50 {
                            self.rotation_angle = Some(clone_float(t));
                        } else if a.code == 52 {
                            self.oblique_angle = Some(clone_float(t));
                        } else {
                            self.leader_length = Some(clone_float(t));
                        }
                    },
                    _ => {
                        if a.code == 41 {
                            self.text_line_spacing_factor = None;
                        } else if a.code == 42 {
                            self.actual_measurement = None;
                        } else if a.code == 53 {
                            self.text_rotation_angle = None;
                        } else if a.code == 51 {
                            self.horizontal_direction_angle = None;
                        } else if a.code == 50 {
                            self.rotation_angle = None;
                        } else if a.code == 52 {
                            self.oblique_angle = None;
                        } else {
                            self.leader_length = None;
                        }
                    },
                }
                true
            },
            210 | 220 | 230 | 13 | 23 | 33 | 14 | 24 | 34 | 15 | 25 | 35 | 12 | 22 | 32 | 16
                | 26 | 36 => {
                match &a.value {
                    Value::F64(t) => {
                        let comp: u8 = if a.code == 210 || a.code == 13 || a.code == 14 || a.code
                            == 15 || a.code == 12 || a.code == 16 {
                            0
                        } else if a.code == 220 || a.code == 23 || a.code == 24 || a.code == 25
                            || a.code == 22 || a.code == 26 {
                            1
                        } else {
                            2
                        };
                        if a.code == 210 || a.code == 220 || a.code == 230 {
                            set_opt_coord(&mut self.extrusion_direction, comp, t);
                        } else if a.code == 13 || a.code == 23 || a.code == 33 {
                            set_opt_coord(&mut self.definition_point2, comp, t);
                        } else if a.code == 14 || a.code == 24 || a.code == 34 {
                            set_opt_coord(&mut self.definition_point3, comp, t);
                        } else if a.code == 15 || a.code == 25 || a.code == 35 {
                            set_opt_coord(&mut self.definition_point4, comp, t);
                        } else if a.code == 12 || a.code == 22 || a.code == 32 {
                            set_opt_coord(&mut self.insertion_point, comp, t);
                        } else {
                            set_opt_coord(&mut self.arc_location, comp, t);
                        }
                    },
                    _ => {},
                }
                true
            },
            _ => false,
        }
    }
}

// ---------------------------------------------------------------------
// lightweight polylines
/// One polyline vertex: a plane coordinate and optional widths and bulge.
#[derive(Debug, PartialEq)]
pub struct LwPolylineVertex {
    pub x: Float64,
    pub y: Float64,
    pub start_width: Option<Float64>,
    pub end_width: Option<Float64>,
    pub bulge: Option<Float64>,
}

#[verifier::ext_equal]
pub struct LwPolylineVertexV {
    pub x: Seq<char>,
    pub y: Seq<char>,
    pub start_width: Option<Seq<char>>,
    pub end_width: Option<Seq<char>>,
    pub bulge: Option<Seq<char>>,
}

impl View for LwPolylineVertex {
    type V = LwPolylineVertexV;

    open spec fn view(&self) -> LwPolylineVertexV {
        LwPolylineVertexV {
            x: self.x@,
            y: self.y@,
            start_width: spec_opt_float_view(self.start_width),
            end_width: spec_opt_float_view(self.end_width),
            bulge: spec_opt_float_view(self.bulge),
        }
    }
}

impl DeepView for LwPolylineVertex {
    type V = LwPolylineVertexV;

    open spec fn deep_view(&self) -> LwPolylineVertexV {
        self@
    }
}

pub open spec fn spec_lw_vertex_default() -> LwPolylineVertexV {
    LwPolylineVertexV {
        x: spec_float_zero(),
        y: spec_float_zero(),
        start_width: None,
        end_width: None,
        bulge: None,
    }
}

impl Default for LwPolylineVertex {
    fn default() -> (r: LwPolylineVertex)
        ensures
            r@ == spec_lw_vertex_default(),
    {
        let r = LwPolylineVertex {
            x: float_zero(),
            y: float_zero(),
            start_width: None,
            end_width: None,
            bulge: None,
        };
        proof {
            assert(r@ =~= spec_lw_vertex_default());
        }
        r
    }
}

/// A lightweight polyline: re-segmented vertices and shared styling.
#[derive(Debug, PartialEq)]
pub struct LwPolyline {
    pub vertices: Vec<LwPolylineVertex>,
    pub is_continuous_pattern: bool,
    pub is_closed: bool,
    pub constant_width: Option<Float64>,
    pub elevation: Option<Float64>,
    pub thickness: Option<Float64>,
    pub extrusion_direction: Option<Vec3>,
}

#[verifier::ext_equal]
pub struct LwPolylineV {
    pub vertices: Seq<LwPolylineVertexV>,
    pub is_continuous_pattern: bool,
    pub is_closed: bool,
    pub constant_width: Option<Seq<char>>,
    pub elevation: Option<Seq<char>>,
    pub thickness: Option<Seq<char>>,
    pub extrusion_direction: Option<Vec3V>,
}

impl View for LwPolyline {
    type V = LwPolylineV;

    open spec fn view(&self) -> LwPolylineV {
        LwPolylineV {
            vertices: self.vertices.deep_view(),
            is_continuous_pattern: self.is_continuous_pattern,
            is_closed: self.is_closed,
            constant_width: spec_opt_float_view(self.constant_width),
            elevation: spec_opt_float_view(self.elevation),
            thickness: spec_opt_float_view(self.thickness),
            extrusion_direction: spec_opt_vec3_view(self.extrusion_direction),
        }
    }
}

pub open spec fn spec_lwpolyline_default() -> LwPolylineV {
    LwPolylineV {
        vertices: Seq::empty(),
        is_continuous_pattern: false,
        is_closed: false,
        constant_width: None,
        elevation: None,
        thickness: None,
        extrusion_direction: None,
    }
}

impl Default for LwPolyline {
    fn default() -> (r: LwPolyline)
        ensures
            r@ == spec_lwpolyline_default(),
    {
        let r = LwPolyline {
            vertices: Vec::new(),
            is_continuous_pattern: false,
            is_closed: false,
            constant_width: None,
            elevation: None,
            thickness: None,
            extrusion_direction: None,
        };
        proof {
            assert(r@ =~= spec_lwpolyline_default());
        }
        r
    }
}

/// Which per-vertex slots have been written since the last vertex
/// boundary.
#[derive(Debug, Clone, Copy, PartialEq, Eq, Structural)]
pub struct LwVertexFlags {
    pub x: bool,
    pub y: bool,
    pub start_width: bool,
    pub end_width: bool,
    pub bulge: bool,
}

pub open spec fn spec_lw_flags_clear() -> LwVertexFlags {
    LwVertexFlags { x: false, y: false, start_width: false, end_width: false, bulge: false }
}

/// The builder's state while re-segmenting the flat vertex stream.
#[verifier::ext_equal]
pub struct LwBuilderV {
    pub target: LwPolylineV,
    pub vertex: LwPolylineVertexV,
    pub flags: LwVertexFlags,
}

pub open spec fn spec_lw_builder_default() -> LwBuilderV {
    LwBuilderV {
        target: spec_lwpolyline_default(),
        vertex: spec_lw_vertex_default(),
        flags: spec_lw_flags_clear(),
    }
}

pub open spec fn spec_lw_push_vertex(b: LwBuilderV) -> LwBuilderV {
    LwBuilderV {
        target: LwPolylineV { vertices: b.target.vertices.push(b.vertex), ..b.target },
        vertex: spec_lw_vertex_default(),
        flags: spec_lw_flags_clear(),
    }
}

/// A vertex slot seen a second time before all slots were filled commits
/// the vertex in progress; then the new value is applied.
pub open spec fn spec_lw_set_atom(b: LwBuilderV, a: AtomV) -> (LwBuilderV, bool) {
    let b1 = if (a.code == 10 && b.flags.x) || (a.code == 20 && b.flags.y) || (a.code == 40
        && b.flags.start_width) || (a.code == 41 && b.flags.end_width) || (a.code == 42
        && b.flags.bulge) {
        spec_lw_push_vertex(b)
    } else {
        b
    };
    if a.code == 10 {
        (
            match a.value {
                ValueV::F64(t) => LwBuilderV {
                    vertex: LwPolylineVertexV { x: t, ..b1.vertex },
                    flags: LwVertexFlags { x: true, ..b1.flags },
                    ..b1
                },
                _ => LwBuilderV { flags: LwVertexFlags { x: true, ..b1.flags }, ..b1 },
            },
            true,
        )
    } else if a.code == 20 {
        (
            match a.value {
                ValueV::F64(t) => LwBuilderV {
                    vertex: LwPolylineVertexV { y: t, ..b1.vertex },
                    flags: LwVertexFlags { y: true, ..b1.flags },
                    ..b1
                },
                _ => LwBuilderV { flags: LwVertexFlags { y: true, ..b1.flags }, ..b1 },
            },
            true,
        )
    } else if a.code == 40 {
        (
            match a.value {
                ValueV::F64(t) => LwBuilderV {
                    vertex: LwPolylineVertexV { start_width: Some(t), ..b1.vertex },
                    flags: LwVertexFlags { start_width: true, ..b1.flags },
                    ..b1
                },
                _ => LwBuilderV {
                    vertex: LwPolylineVertexV { start_width: None, ..b1.vertex },
                    flags: LwVertexFlags { start_width: true, ..b1.flags },
                    ..b1
                },
            },
            true,
        )
    } else if a.code == 41 {
        (
            match a.value {
                ValueV::F64(t) => LwBuilderV {
                    vertex: LwPolylineVertexV { end_width: Some(t), ..b1.vertex },
                    flags: LwVertexFlags { end_width: true, ..b1.flags },
                    ..b1
                },
                _ => LwBuilderV {
                    vertex: LwPolylineVertexV { end_width: None, ..b1.vertex },
                    flags: LwVertexFlags { end_width: true, ..b1.flags },
                    ..b1
                },
            },
            true,
        )
    } else if a.code == 42 {
        (
            match a.value {
                ValueV::F64(t) => LwBuilderV {
                    vertex: LwPolylineVertexV { bulge: Some(t), ..b1.vertex },
                    flags: LwVertexFlags { bulge: true, ..b1.flags },
                    ..b1
                },
                _ => LwBuilderV {
                    vertex: LwPolylineVertexV { bulge: None, ..b1.vertex },
                    flags: LwVertexFlags { bulge: true, ..b1.flags },
                    ..b1
                },
            },
            true,
        )
    } else if a.code == 70 {
        (
            match a.value {
                ValueV::I16(v) => LwBuilderV {
                    target: LwPolylineV {
                        is_closed: v & 0b00000001 != 0,
                        is_continuous_pattern: v & 0b10000000u16 as i16 != 0,
                        ..b1.target
                    },
                    ..b1
                },
                _ => b1,
            },
            true,
        )
    } else if a.code == 43 {
        (
            match a.value {
                ValueV::F64(t) => LwBuilderV {
                    target: LwPolylineV { constant_width: Some(t), ..b1.target },
                    ..b1
                },
                _ => LwBuilderV {
                    target: LwPolylineV { constant_width: None, ..b1.target },
                    ..b1
                },
            },
            true,
        )
    } else if a.code == 38 {
        (
            match a.value {
                ValueV::F64(t) => LwBuilderV {
                    target: LwPolylineV { elevation: Some(t), ..b1.target },
                    ..b1
                },
                _ => LwBuilderV { target: LwPolylineV { elevation: None, ..b1.target }, ..b1 },
            },
            true,
        )
    } else if a.code == 39 {
        (
            match a.value {
                ValueV::F64(t) => LwBuilderV {
                    target: LwPolylineV { thickness: Some(t), ..b1.target },
                    ..b1
                },
                _ => LwBuilderV { target: LwPolylineV { thickness: None, ..b1.target }, ..b1 },
            },
            true,
        )
    } else if a.code == 210 || a.code == 220 || a.code == 230 {
        (
            match a.value {
                ValueV::F64(t) => LwBuilderV {
                    target: LwPolylineV {
                        extrusion_direction: spec_set_opt_coord(
                            b1.target.extrusion_direction,
                            if a.code == 210 {
                                0int
                            } else if a.code == 220 {
                                1int
                            } else {
                                2int
                            },
                            t,
                        ),
                        ..b1.target
                    },
                    ..b1
                },
                _ => b1,
            },
            true,
        )
    } else {
        (b1, false)
    }
}

/// At stream end a vertex in progress (any slot written) is committed.
pub open spec fn spec_lw_finish(b: LwBuilderV) -> LwPolylineV {
    if b.flags != spec_lw_flags_clear() {
        spec_lw_push_vertex(b).target
    } else {
        b.target
    }
}

/// The builder the polyline decoder folds atoms through.
#[derive(Debug, PartialEq)]
pub struct LwPolylineBuilder {
    pub target: LwPolyline,
    pub vertex: LwPolylineVertex,
    pub flags: LwVertexFlags,
}

impl View for LwPolylineBuilder {
    type V = LwBuilderV;

    open spec fn view(&self) -> LwBuilderV {
        LwBuilderV { target: self.target@, vertex: self.vertex@, flags: self.flags }
    }
}

impl Default for LwPolylineBuilder {
    fn default() -> (r: LwPolylineBuilder)
        ensures
            r@ == spec_lw_builder_default(),
    {
        let r = LwPolylineBuilder {
            target: LwPolyline::default(),
            vertex: LwPolylineVertex::default(),
            flags: LwVertexFlags {
                x: false,
                y: false,
                start_width: false,
                end_width: false,
                bulge: false,
            },
        };
        proof {
            assert(r@ =~= spec_lw_builder_default());
        }
        r
    }
}

fn clone_opt_float(o: &Option<Float64>) -> (r: Option<Float64>)
    ensures
        spec_opt_float_view(r) == spec_opt_float_view(*o),
{
    match o {
        Some(f) => Some(clone_float(f)),
        None => None,
    }
}

fn clone_lw_vertex(v: &LwPolylineVertex) -> (r: LwPolylineVertex)
    ensures
        r@ == v@,
{
    LwPolylineVertex {
        x: clone_float(&v.x),
        y: clone_float(&v.y),
        start_width: clone_opt_float(&v.start_width),
        end_width: clone_opt_float(&v.end_width),
        bulge: clone_opt_float(&v.bulge),
    }
}

impl LwPolylineBuilder {
    fn push_vertex(&mut self)
        ensures
            final(self)@ == spec_lw_push_vertex(old(self)@),
    {
        let ghost before = self.target.vertices.deep_view();
        let v: LwPolylineVertex = clone_lw_vertex(&self.vertex);
        let ghost vv = v@;
        self.target.vertices.push(v);
        self.vertex = LwPolylineVertex::default();
        self.flags = LwVertexFlags {
            x: false,
            y: false,
            start_width: false,
            end_width: false,
            bulge: false,
        };
        proof {
            assert(self.target.vertices.deep_view() =~~= before.push(vv));
            assert(self@ =~= spec_lw_push_vertex(old(self)@));
        }
    }

    /// Accepts one atom, as [`spec_lw_set_atom`] says.
    #[verifier::rlimit(100)]
    pub fn set_atom(&mut self, a: &Atom) -> (r: bool)
        ensures
            ({
                let (bv, rec) = spec_lw_set_atom(old(self)@, a@);
                final(self)@ == bv && r == rec
            }),
    {
        if (a.code == 10 && self.flags.x) || (a.code == 20 && self.flags.y) || (a.code == 40
            && self.flags.start_width) || (a.code == 41 && self.flags.end_width) || (a.code == 42
            && self.flags.bulge) {
            self.push_vertex();
        }
        match a.code {
            10 | 20 => {
                match &a.value {
                    Value::F64(t) => {
                        if a.code == 10 {
                            self.vertex.x = clone_float(t);
                        } else {
                            self.vertex.y = clone_float(t);
                        }
                    },
                    _ => {},
                }
                if a.code == 10 {
                    self.flags.x = true;
                } else {
                    self.flags.y = true;
                }
                true
            },
            40 | 41 | 42 => {
                let set: Option<Float64> = match &a.value {
                    Value::F64(t) => Some(clone_float(t)),
                    _ => None,
                };
                if a.code == 40 {
                    self.vertex.start_width = set;
                    self.flags.start_width = true;
                } else if a.code == 41 {
                    self.vertex.end_width = set;
                    self.flags.end_width = true;
                } else {
                    self.vertex.bulge = set;
                    self.flags.bulge = true;
                }
                true
            },
            70 => {
                match &a.value {
                    Value::I16(v) => {
                        self.target.is_closed = *v & 0b00000001 != 0;
                        self.target.is_continuous_pattern = *v & 0b10000000u16 as i16 != 0;
                    },
                    _ => {},
                }
                true
            },
            43 | 38 | 39 => {
                let set: Option<Float64> = match &a.value {
                    Value::F64(t) => Some(clone_float(t)),
                    _ => None,
                };
                if a.code == 43 {
                    self.target.constant_width = set;
                } else if a.code == 38 {
                    self.target.elevation = set;
                } else {
                    self.target.thickness = set;
                }
                true
            },
            210 | 220 | 230 => {
                match &a.value {
                    Value::F64(t) => {
                        let i: u8 = if a.code == 210 {
                            0
                        } else if a.code == 220 {
                            1
                        } else {
                            2
                        };
                        set_opt_coord(&mut self.target.extrusion_direction, i, t);
                    },
                    _ => {},
                }
                true
            },
            _ => false,
        }
    }

    /// Finishes the build, committing a vertex in progress, as
    /// [`spec_lw_finish`] says.
    pub fn into_entity(self) -> (r: LwPolyline)
        ensures
            r@ == spec_lw_finish(self@),
    {
        let mut b: LwPolylineBuilder = self;
        let dirty: bool = b.flags.x || b.flags.y || b.flags.start_width || b.flags.end_width
            || b.flags.bulge;
        if dirty {
            b.push_vertex();
        }
        b.target
    }
}

// ---------------------------------------------------------------------
// the closed entity union and the per-node decode
/// The supported entity kinds; anything else is preserved verbatim with
/// its type name and full raw atom list, its header left at defaults.
#[derive(Debug, PartialEq)]
pub enum Entity {
    Insert(Insert),
    Text(Text),
    MText(MText),
    Dimension(Box<Dimension>),
    Point(Point),
    Line(Line),
    Circle(Circle),
    Arc(Arc),
    LwPolyline(LwPolyline),
    NotSupported(String, Vec<Atom>),
}

/// Mathematical model of an [`Entity`].
#[verifier::ext_equal]
pub enum EntityV {
    Insert(InsertV),
    Text(TextV),
    MText(MTextV),
    Dimension(Box<DimensionV>),
    Point(PointV),
    Line(LineV),
    Circle(CircleV),
    Arc(ArcV),
    LwPolyline(LwPolylineV),
    NotSupported(Seq<char>, Seq<AtomV>),
}

impl View for Entity {
    type V = EntityV;

    open spec fn view(&self) -> EntityV {
        match self {
            Entity::Insert(p) => EntityV::Insert(p@),
            Entity::Text(p) => EntityV::Text(p@),
            Entity::MText(p) => EntityV::MText(p@),
            Entity::Dimension(p) => EntityV::Dimension(Box::new((**p)@)),
            Entity::Point(p) => EntityV::Point(p@),
            Entity::Line(p) => EntityV::Line(p@),
            Entity::Circle(p) => EntityV::Circle(p@),
            Entity::Arc(p) => EntityV::Arc(p@),
            Entity::LwPolyline(p) => EntityV::LwPolyline(p@),
            Entity::NotSupported(t, atoms) => EntityV::NotSupported(t@, atoms.deep_view()),
        }
    }
}

/// One decoded entity: its common header and its payload.
#[derive(Debug, PartialEq)]
pub struct EntityNode {
    pub header: EntityHeader,
    pub entity: Entity,
}

/// Mathematical model of an [`EntityNode`].
#[verifier::ext_equal]
pub struct EntityNodeV {
    pub header: EntityHeaderV,
    pub entity: EntityV,
}

impl View for EntityNode {
    type V = EntityNodeV;

    open spec fn view(&self) -> EntityNodeV {
        EntityNodeV { header: self.header@, entity: self.entity@ }
    }
}

impl DeepView for EntityNode {
    type V = EntityNodeV;

    open spec fn deep_view(&self) -> EntityNodeV {
        self@
    }
}

/// An atom the payload does not claim goes to the header; one neither
/// claims is preserved in the extras, in order.
pub open spec fn spec_header_step(h: EntityHeaderV, a: AtomV) -> EntityHeaderV {
    let (h2, hrec) = spec_header_set_atom(h, a);
    if hrec {
        h2
    } else {
        EntityHeaderV { extras: h.extras.push(a), ..h }
    }
}

pub open spec fn spec_line_step(st: (EntityHeaderV, LineV), a: AtomV) -> (EntityHeaderV, LineV) {
    let (p2, rec) = spec_line_set_atom(st.1, a);
    if rec {
        (st.0, p2)
    } else {
        (spec_header_step(st.0, a), st.1)
    }
}

pub open spec fn spec_decode_line_from(atoms: Seq<AtomV>, st: (EntityHeaderV, LineV)) -> (
    EntityHeaderV,
    LineV,
)
    decreases atoms.len(),
{
    if atoms.len() == 0 {
        st
    } else {
        spec_decode_line_from(atoms.drop_first(), spec_line_step(st, atoms[0]))
    }
}

/// The whole per-atom fold for this kind, from the defaults.
pub open spec fn spec_decode_line(atoms: Seq<AtomV>) -> (EntityHeaderV, LineV) {
    spec_decode_line_from(atoms, (spec_header_default(), spec_line_default()))
}

fn decode_line_atoms(atoms: &Vec<Atom>) -> (r: (EntityHeader, Line))
    ensures
        (r.0@, r.1@) == spec_decode_line(atoms.deep_view()),
{
    let ghost adv = atoms.deep_view();
    let mut h: EntityHeader = EntityHeader::default();
    let mut p: Line = Line::default();
    let n: usize = atoms.len();
    let mut i: usize = 0;
    proof {
        assert(adv.skip(0) =~= adv);
    }
    while i < n
        invariant
            0 <= i <= n,
            n == atoms@.len(),
            adv == atoms.deep_view(),
            adv.len() == n,
            spec_decode_line(adv) == spec_decode_line_from(adv.skip(i as int), (h@, p@)),
        decreases n - i,
    {
        let ghost h0 = h@;
        let ghost p0 = p@;
        let ghost tail = adv.skip(i as int);
        proof {
            assert(tail[0] == adv[i as int]);
            assert(adv[i as int] == atoms@[i as int]@);
            assert(tail.drop_first() =~= adv.skip(i + 1));
        }
        let rec: bool = p.set_atom(&atoms[i]);
        if !rec {
            let rec2: bool = h.set_atom(&atoms[i]);
            if !rec2 {
                let ghost hv = h@;
                let ghost eb = h.extras.deep_view();
                h.extras.push(atoms[i].to_owned());
                proof {
                    assert(h.extras.deep_view() =~~= eb.push(adv[i as int]));
                    assert(h@ =~= EntityHeaderV { extras: hv.extras.push(adv[i as int]), ..hv });
                }
            }
        }
        proof {
            assert((h@, p@) == spec_line_step((h0, p0), adv[i as int]));
        }
        i = i + 1;
    }
    proof {
        assert(adv.skip(n as int).len() == 0);
    }
    (h, p)
}

pub open spec fn spec_circle_step(st: (EntityHeaderV, CircleV), a: AtomV) -> (EntityHeaderV, CircleV) {
    let (p2, rec) = spec_circle_set_atom(st.1, a);
    if rec {
        (st.0, p2)
    } else {
        (spec_header_step(st.0, a), st.1)
    }
}

pub open spec fn spec_decode_circle_from(atoms: Seq<AtomV>, st: (EntityHeaderV, CircleV)) -> (
    EntityHeaderV,
    CircleV,
)
    decreases atoms.len(),
{
    if atoms.len() == 0 {
        st
    } else {
        spec_decode_circle_from(atoms.drop_first(), spec_circle_step(st, atoms[0]))
    }
}

/// The whole per-atom fold for this kind, from the defaults.
pub open spec fn spec_decode_circle(atoms: Seq<AtomV>) -> (EntityHeaderV, CircleV) {
    spec_decode_circle_from(atoms, (spec_header_default(), spec_circle_default()))
}

fn decode_circle_atoms(atoms: &Vec<Atom>) -> (r: (EntityHeader, Circle))
    ensures
        (r.0@, r.1@) == spec_decode_circle(atoms.deep_view()),
{
    let ghost adv = atoms.deep_view();
    let mut h: EntityHeader = EntityHeader::default();
    let mut p: Circle = Circle::default();
    let n: usize = atoms.len();
    let mut i: usize = 0;
    proof {
        assert(adv.skip(0) =~= adv);
    }
    while i < n
        invariant
            0 <= i <= n,
            n == atoms@.len(),
            adv == atoms.deep_view(),
            adv.len() == n,
            spec_decode_circle(adv) == spec_decode_circle_from(adv.skip(i as int), (h@, p@)),
        decreases n - i,
    {
        let ghost h0 = h@;
        let ghost p0 = p@;
        let ghost tail = adv.skip(i as int);
        proof {
            assert(tail[0] == adv[i as int]);
            assert(adv[i as int] == atoms@[i as int]@);
            assert(tail.drop_first() =~= adv.skip(i + 1));
        }
        let rec: bool = p.set_atom(&atoms[i]);
        if !rec {
            let rec2: bool = h.set_atom(&atoms[i]);
            if !rec2 {
                let ghost hv = h@;
                let ghost eb = h.extras.deep_view();
                h.extras.push(atoms[i].to_owned());
                proof {
                    assert(h.extras.deep_view() =~~= eb.push(adv[i as int]));
                    assert(h@ =~= EntityHeaderV { extras: hv.extras.push(adv[i as int]), ..hv });
                }
            }
        }
        proof {
            assert((h@, p@) == spec_circle_step((h0, p0), adv[i as int]));
        }
        i = i + 1;
    }
    proof {
        assert(adv.skip(n as int).len() == 0);
    }
    (h, p)
}

pub open spec fn spec_arc_step(st: (EntityHeaderV, ArcV), a: AtomV) -> (EntityHeaderV, ArcV) {
    let (p2, rec) = spec_arc_set_atom(st.1, a);
    if rec {
        (st.0, p2)
    } else {
        (spec_header_step(st.0, a), st.1)
    }
}

pub open spec fn spec_decode_arc_from(atoms: Seq<AtomV>, st: (EntityHeaderV, ArcV)) -> (
    EntityHeaderV,
    ArcV,
)
    decreases atoms.len(),
{
    if atoms.len() == 0 {
        st
    } else {
        spec_decode_arc_from(atoms.drop_first(), spec_arc_step(st, atoms[0]))
    }
}

/// The whole per-atom fold for this kind, from the defaults.
pub open spec fn spec_decode_arc(atoms: Seq<AtomV>) -> (EntityHeaderV, ArcV) {
    spec_decode_arc_from(atoms, (spec_header_default(), spec_arc_default()))
}

fn decode_arc_atoms(atoms: &Vec<Atom>) -> (r: (EntityHeader, Arc))
    ensures
        (r.0@, r.1@) == spec_decode_arc(atoms.deep_view()),
{
    let ghost adv = atoms.deep_view();
    let mut h: EntityHeader = EntityHeader::default();
    let mut p: Arc = Arc::default();
    let n: usize = atoms.len();
    let mut i: usize = 0;
    proof {
        assert(adv.skip(0) =~= adv);
    }
    while i < n
        invariant
            0 <= i <= n,
            n == atoms@.len(),
            adv == atoms.deep_view(),
            adv.len() == n,
            spec_decode_arc(adv) == spec_decode_arc_from(adv.skip(i as int), (h@, p@)),
        decreases n - i,
    {
        let ghost h0 = h@;
        let ghost p0 = p@;
        let ghost tail = adv.skip(i as int);
        proof {
            assert(tail[0] == adv[i as int]);
            assert(adv[i as int] == atoms@[i as int]@);
            assert(tail.drop_first() =~= adv.skip(i + 1));
        }
        let rec: bool = p.set_atom(&atoms[i]);
        if !rec {
            let rec2: bool = h.set_atom(&atoms[i]);
            if !rec2 {
                let ghost hv = h@;
                let ghost eb = h.extras.deep_view();
                h.extras.push(atoms[i].to_owned());
                proof {
                    assert(h.extras.deep_view() =~~= eb.push(adv[i as int]));
                    assert(h@ =~= EntityHeaderV { extras: hv.extras.push(adv[i as int]), ..hv });
                }
            }
        }
        proof {
            assert((h@, p@) == spec_arc_step((h0, p0), adv[i as int]));
        }
        i = i + 1;
    }
    proof {
        assert(adv.skip(n as int).len() == 0);
    }
    (h, p)
}

pub open spec fn spec_point_step(st: (EntityHeaderV, PointV), a: AtomV) -> (EntityHeaderV, PointV) {
    let (p2, rec) = spec_point_set_atom(st.1, a);
    if rec {
        (st.0, p2)
    } else {
        (spec_header_step(st.0, a), st.1)
    }
}

pub open spec fn spec_decode_point_from(atoms: Seq<AtomV>, st: (EntityHeaderV, PointV)) -> (
    EntityHeaderV,
    PointV,
)
    decreases atoms.len(),
{
    if atoms.len() == 0 {
        st
    } else {
        spec_decode_point_from(atoms.drop_first(), spec_point_step(st, atoms[0]))
    }
}

/// The whole per-atom fold for this kind, from the defaults.
pub open spec fn spec_decode_point(atoms: Seq<AtomV>) -> (EntityHeaderV, PointV) {
    spec_decode_point_from(atoms, (spec_header_default(), spec_point_default()))
}

fn decode_point_atoms(atoms: &Vec<Atom>) -> (r: (EntityHeader, Point))
    ensures
        (r.0@, r.1@) == spec_decode_point(atoms.deep_view()),
{
    let ghost adv = atoms.deep_view();
    let mut h: EntityHeader = EntityHeader::default();
    let mut p: Point = Point::default();
    let n: usize = atoms.len();
    let mut i: usize = 0;
    proof {
        assert(adv.skip(0) =~= adv);
    }
    while i < n
        invariant
            0 <= i <= n,
            n == atoms@.len(),
            adv == atoms.deep_view(),
            adv.len() == n,
            spec_decode_point(adv) == spec_decode_point_from(adv.skip(i as int), (h@, p@)),
        decreases n - i,
    {
        let ghost h0 = h@;
        let ghost p0 = p@;
        let ghost tail = adv.skip(i as int);
        proof {
            assert(tail[0] == adv[i as int]);
            assert(adv[i as int] == atoms@[i as int]@);
            assert(tail.drop_first() =~= adv.skip(i + 1));
        }
        let rec: bool = p.set_atom(&atoms[i]);
        if !rec {
            let rec2: bool = h.set_atom(&atoms[i]);
            if !rec2 {
                let ghost hv = h@;
                let ghost eb = h.extras.deep_view();
                h.extras.push(atoms[i].to_owned());
                proof {
                    assert(h.extras.deep_view() =~~= eb.push(adv[i as int]));
                    assert(h@ =~= EntityHeaderV { extras: hv.extras.push(adv[i as int]), ..hv });
                }
            }
        }
        proof {
            assert((h@, p@) == spec_point_step((h0, p0), adv[i as int]));
        }
        i = i + 1;
    }
    proof {
        assert(adv.skip(n as int).len() == 0);
    }
    (h, p)
}

pub open spec fn spec_insert_step(st: (EntityHeaderV, InsertV), a: AtomV) -> (EntityHeaderV, InsertV) {
    let (p2, rec) = spec_insert_set_atom(st.1, a);
    if rec {
        (st.0, p2)
    } else {
        (spec_header_step(st.0, a), st.1)
    }
}

pub open spec fn spec_decode_insert_from(atoms: Seq<AtomV>, st: (EntityHeaderV, InsertV)) -> (
    EntityHeaderV,
    InsertV,
)
    decreases atoms.len(),
{
    if atoms.len() == 0 {
        st
    } else {
        spec_decode_insert_from(atoms.drop_first(), spec_insert_step(st, atoms[0]))
    }
}

/// The whole per-atom fold for this kind, from the defaults.
pub open spec fn spec_decode_insert(atoms: Seq<AtomV>) -> (EntityHeaderV, InsertV) {
    spec_decode_insert_from(atoms, (spec_header_default(), spec_insert_default()))
}

fn decode_insert_atoms(atoms: &Vec<Atom>) -> (r: (EntityHeader, Insert))
    ensures
        (r.0@, r.1@) == spec_decode_insert(atoms.deep_view()),
{
    let ghost adv = atoms.deep_view();
    let mut h: EntityHeader = EntityHeader::default();
    let mut p: Insert = Insert::default();
    let n: usize = atoms.len();
    let mut i: usize = 0;
    proof {
        assert(adv.skip(0) =~= adv);
    }
    while i < n
        invariant
            0 <= i <= n,
            n == atoms@.len(),
            adv == atoms.deep_view(),
            adv.len() == n,
            spec_decode_insert(adv) == spec_decode_insert_from(adv.skip(i as int), (h@, p@)),
        decreases n - i,
    {
        let ghost h0 = h@;
        let ghost p0 = p@;
        let ghost tail = adv.skip(i as int);
        proof {
            assert(tail[0] == adv[i as int]);
            assert(adv[i as int] == atoms@[i as int]@);
            assert(tail.drop_first() =~= adv.skip(i + 1));
        }
        let rec: bool = p.set_atom(&atoms[i]);
        if !rec {
            let rec2: bool = h.set_atom(&atoms[i]);
            if !rec2 {
                let ghost hv = h@;
                let ghost eb = h.extras.deep_view();
                h.extras.push(atoms[i].to_owned());
                proof {
                    assert(h.extras.deep_view() =~~= eb.push(adv[i as int]));
                    assert(h@ =~= EntityHeaderV { extras: hv.extras.push(adv[i as int]), ..hv });
                }
            }
        }
        proof {
            assert((h@, p@) == spec_insert_step((h0, p0), adv[i as int]));
        }
        i = i + 1;
    }
    proof {
        assert(adv.skip(n as int).len() == 0);
    }
    (h, p)
}

pub open spec fn spec_text_step(st: (EntityHeaderV, TextV), a: AtomV) -> (EntityHeaderV, TextV) {
    let (p2, rec) = spec_text_set_atom(st.1, a);
    if rec {
        (st.0, p2)
    } else {
        (spec_header_step(st.0, a), st.1)
    }
}

pub open spec fn spec_decode_text_from(atoms: Seq<AtomV>, st: (EntityHeaderV, TextV)) -> (
    EntityHeaderV,
    TextV,
)
    decreases atoms.len(),
{
    if atoms.len() == 0 {
        st
    } else {
        spec_decode_text_from(atoms.drop_first(), spec_text_step(st, atoms[0]))
    }
}

/// The whole per-atom fold for this kind, from the defaults.
pub open spec fn spec_decode_text(atoms: Seq<AtomV>) -> (EntityHeaderV, TextV) {
    spec_decode_text_from(atoms, (spec_header_default(), spec_text_default()))
}

fn decode_text_atoms(atoms: &Vec<Atom>) -> (r: (EntityHeader, Text))
    ensures
        (r.0@, r.1@) == spec_decode_text(atoms.deep_view()),
{
    let ghost adv = atoms.deep_view();
    let mut h: EntityHeader = EntityHeader::default();
    let mut p: Text = Text::default();
    let n: usize = atoms.len();
    let mut i: usize = 0;
    proof {
        assert(adv.skip(0) =~= adv);
    }
    while i < n
        invariant
            0 <= i <= n,
            n == atoms@.len(),
            adv == atoms.deep_view(),
            adv.len() == n,
            spec_decode_text(adv) == spec_decode_text_from(adv.skip(i as int), (h@, p@)),
        decreases n - i,
    {
        let ghost h0 = h@;
        let ghost p0 = p@;
        let ghost tail = adv.skip(i as int);
        proof {
            assert(tail[0] == adv[i as int]);
            assert(adv[i as int] == atoms@[i as int]@);
            assert(tail.drop_first() =~= adv.skip(i + 1));
        }
        let rec: bool = p.set_atom(&atoms[i]);
        if !rec {
            let rec2: bool = h.set_atom(&atoms[i]);
            if !rec2 {
                let ghost hv = h@;
                let ghost eb = h.extras.deep_view();
                h.extras.push(atoms[i].to_owned());
                proof {
                    assert(h.extras.deep_view() =~~= eb.push(adv[i as int]));
                    assert(h@ =~= EntityHeaderV { extras: hv.extras.push(adv[i as int]), ..hv });
                }
            }
        }
        proof {
            assert((h@, p@) == spec_text_step((h0, p0), adv[i as int]));
        }
        i = i + 1;
    }
    proof {
        assert(adv.skip(n as int).len() == 0);
    }
    (h, p)
}

pub open spec fn spec_mtext_step(st: (EntityHeaderV, MTextV), a: AtomV) -> (EntityHeaderV, MTextV) {
    let (p2, rec) = spec_mtext_set_atom(st.1, a);
    if rec {
        (st.0, p2)
    } else {
        (spec_header_step(st.0, a), st.1)
    }
}

pub open spec fn spec_decode_mtext_from(atoms: Seq<AtomV>, st: (EntityHeaderV, MTextV)) -> (
    EntityHeaderV,
    MTextV,
)
    decreases atoms.len(),
{
    if atoms.len() == 0 {
        st
    } else {
        spec_decode_mtext_from(atoms.drop_first(), spec_mtext_step(st, atoms[0]))
    }
}

/// The whole per-atom fold for this kind, from the defaults.
pub open spec fn spec_decode_mtext(atoms: Seq<AtomV>) -> (EntityHeaderV, MTextV) {
    spec_decode_mtext_from(atoms, (spec_header_default(), spec_mtext_default()))
}

fn decode_mtext_atoms(atoms: &Vec<Atom>) -> (r: (EntityHeader, MText))
    ensures
        (r.0@, r.1@) == spec_decode_mtext(atoms.deep_view()),
{
    let ghost adv = atoms.deep_view();
    let mut h: EntityHeader = EntityHeader::default();
    let mut p: MText = MText::default();
    let n: usize = atoms.len();
    let mut i: usize = 0;
    proof {
        assert(adv.skip(0) =~= adv);
    }
    while i < n
        invariant
            0 <= i <= n,
            n == atoms@.len(),
            adv == atoms.deep_view(),
            adv.len() == n,
            spec_decode_mtext(adv) == spec_decode_mtext_from(adv.skip(i as int), (h@, p@)),
        decreases n - i,
    {
        let ghost h0 = h@;
        let ghost p0 = p@;
        let ghost tail = adv.skip(i as int);
        proof {
            assert(tail[0] == adv[i as int]);
            assert(adv[i as int] == atoms@[i as int]@);
            assert(tail.drop_first() =~= adv.skip(i + 1));
        }
        let rec: bool = p.set_atom(&atoms[i]);
        if !rec {
            let rec2: bool = h.set_atom(&atoms[i]);
            if !rec2 {
                let ghost hv = h@;
                let ghost eb = h.extras.deep_view();
                h.extras.push(atoms[i].to_owned());
                proof {
                    assert(h.extras.deep_view() =~~= eb.push(adv[i as int]));
                    assert(h@ =~= EntityHeaderV { extras: hv.extras.push(adv[i as int]), ..hv });
                }
            }
        }
        proof {
            assert((h@, p@) == spec_mtext_step((h0, p0), adv[i as int]));
        }
        i = i + 1;
    }
    proof {
        assert(adv.skip(n as int).len() == 0);
    }
    (h, p)
}

pub open spec fn spec_dimension_step(st: (EntityHeaderV, DimensionV), a: AtomV) -> (EntityHeaderV, DimensionV) {
    let (p2, rec) = spec_dimension_set_atom(st.1, a);
    if rec {
        (st.0, p2)
    } else {
        (spec_header_step(st.0, a), st.1)
    }
}

pub open spec fn spec_decode_dimension_from(atoms: Seq<AtomV>, st: (EntityHeaderV, DimensionV)) -> (
    EntityHeaderV,
    DimensionV,
)
    decreases atoms.len(),
{
    if atoms.len() == 0 {
        st
    } else {
        spec_decode_dimension_from(atoms.drop_first(), spec_dimension_step(st, atoms[0]))
    }
}

/// The whole per-atom fold for this kind, from the defaults.
pub open spec fn spec_decode_dimension(atoms: Seq<AtomV>) -> (EntityHeaderV, DimensionV) {
    spec_decode_dimension_from(atoms, (spec_header_default(), spec_dimension_default()))
}

fn decode_dimension_atoms(atoms: &Vec<Atom>) -> (r: (EntityHeader, Dimension))
    ensures
        (r.0@, r.1@) == spec_decode_dimension(atoms.deep_view()),
{
    let ghost adv = atoms.deep_view();
    let mut h: EntityHeader = EntityHeader::default();
    let mut p: Dimension = Dimension::default();
    let n: usize = atoms.len();
    let mut i: usize = 0;
    proof {
        assert(adv.skip(0) =~= adv);
    }
    while i < n
        invariant
            0 <= i <= n,
            n == atoms@.len(),
            adv == atoms.deep_view(),
            adv.len() == n,
            spec_decode_dimension(adv) == spec_decode_dimension_from(adv.skip(i as int), (h@, p@)),
        decreases n - i,
    {
        let ghost h0 = h@;
        let ghost p0 = p@;
        let ghost tail = adv.skip(i as int);
        proof {
            assert(tail[0] == adv[i as int]);
            assert(adv[i as int] == atoms@[i as int]@);
            assert(tail.drop_first() =~= adv.skip(i + 1));
        }
        let rec: bool = p.set_atom(&atoms[i]);
        if !rec {
            let rec2: bool = h.set_atom(&atoms[i]);
            if !rec2 {
                let ghost hv = h@;
                let ghost eb = h.extras.deep_view();
                h.extras.push(atoms[i].to_owned());
                proof {
                    assert(h.extras.deep_view() =~~= eb.push(adv[i as int]));
                    assert(h@ =~= EntityHeaderV { extras: hv.extras.push(adv[i as int]), ..hv });
                }
            }
        }
        proof {
            assert((h@, p@) == spec_dimension_step((h0, p0), adv[i as int]));
        }
        i = i + 1;
    }
    proof {
        assert(adv.skip(n as int).len() == 0);
    }
    (h, p)
}

pub open spec fn spec_lwpolyline_step(st: (EntityHeaderV, LwBuilderV), a: AtomV) -> (EntityHeaderV, LwBuilderV) {
    let (p2, rec) = spec_lw_set_atom(st.1, a);
    if rec {
        (st.0, p2)
    } else {
        (spec_header_step(st.0, a), st.1)
    }
}

pub open spec fn spec_decode_lwpolyline_from(atoms: Seq<AtomV>, st: (EntityHeaderV, LwBuilderV)) -> (
    EntityHeaderV,
    LwBuilderV,
)
    decreases atoms.len(),
{
    if atoms.len() == 0 {
        st
    } else {
        spec_decode_lwpolyline_from(atoms.drop_first(), spec_lwpolyline_step(st, atoms[0]))
    }
}

/// The whole per-atom fold for this kind, from the defaults.
pub open spec fn spec_decode_lwpolyline(atoms: Seq<AtomV>) -> (EntityHeaderV, LwBuilderV) {
    spec_decode_lwpolyline_from(atoms, (spec_header_default(), spec_lw_builder_default()))
}

fn decode_lwpolyline_atoms(atoms: &Vec<Atom>) -> (r: (EntityHeader, LwPolylineBuilder))
    ensures
        (r.0@, r.1@) == spec_decode_lwpolyline(atoms.deep_view()),
{
    let ghost adv = atoms.deep_view();
    let mut h: EntityHeader = EntityHeader::default();
    let mut p: LwPolylineBuilder = LwPolylineBuilder::default();
    let n: usize = atoms.len();
    let mut i: usize = 0;
    proof {
        assert(adv.skip(0) =~= adv);
    }
    while i < n
        invariant
            0 <= i <= n,
            n == atoms@.len(),
            adv == atoms.deep_view(),
            adv.len() == n,
            spec_decode_lwpolyline(adv) == spec_decode_lwpolyline_from(adv.skip(i as int), (h@, p@)),
        decreases n - i,
    {
        let ghost h0 = h@;
        let ghost p0 = p@;
        let ghost tail = adv.skip(i as int);
        proof {
            assert(tail[0] == adv[i as int]);
            assert(adv[i as int] == atoms@[i as int]@);
            assert(tail.drop_first() =~= adv.skip(i + 1));
        }
        let rec: bool = p.set_atom(&atoms[i]);
        if !rec {
            let rec2: bool = h.set_atom(&atoms[i]);
            if !rec2 {
                let ghost hv = h@;
                let ghost eb = h.extras.deep_view();
                h.extras.push(atoms[i].to_owned());
                proof {
                    assert(h.extras.deep_view() =~~= eb.push(adv[i as int]));
                    assert(h@ =~= EntityHeaderV { extras: hv.extras.push(adv[i as int]), ..hv });
                }
            }
        }
        proof {
            assert((h@, p@) == spec_lwpolyline_step((h0, p0), adv[i as int]));
        }
        i = i + 1;
    }
    proof {
        assert(adv.skip(n as int).len() == 0);
    }
    (h, p)
}

/// The decoded entity a node yields: dispatch on the node's type name;
/// rich text is decoded after all atoms are in; a lightweight polyline
/// commits its vertex in progress; every other type name keeps the whole
/// raw atom list with a default header.
pub open spec fn spec_entity_node_of(n: NodeV) -> EntityNodeV {
    if n.node_type == "INSERT"@ {
        let (h, p) = spec_decode_insert(n.atoms);
        EntityNodeV { header: h, entity: EntityV::Insert(p) }
    } else if n.node_type == "DIMENSION"@ {
        let (h, p) = spec_decode_dimension(n.atoms);
        EntityNodeV { header: h, entity: EntityV::Dimension(Box::new(p)) }
    } else if n.node_type == "TEXT"@ {
        let (h, p) = spec_decode_text(n.atoms);
        EntityNodeV { header: h, entity: EntityV::Text(p) }
    } else if n.node_type == "MTEXT"@ {
        let (h, p) = spec_decode_mtext(n.atoms);
        let raw2 = spec_parse_control_codes(p.text.raw);
        EntityNodeV {
            header: h,
            entity: EntityV::MText(
                MTextV {
                    text: crate::mtext::MTextFormatStringV {
                        raw: raw2,
                        nodes: spec_parse_to_nodes(raw2),
                    },
                    ..p
                },
            ),
        }
    } else if n.node_type == "POINT"@ {
        let (h, p) = spec_decode_point(n.atoms);
        EntityNodeV { header: h, entity: EntityV::Point(p) }
    } else if n.node_type == "LINE"@ {
        let (h, p) = spec_decode_line(n.atoms);
        EntityNodeV { header: h, entity: EntityV::Line(p) }
    } else if n.node_type == "CIRCLE"@ {
        let (h, p) = spec_decode_circle(n.atoms);
        EntityNodeV { header: h, entity: EntityV::Circle(p) }
    } else if n.node_type == "ARC"@ {
        let (h, p) = spec_decode_arc(n.atoms);
        EntityNodeV { header: h, entity: EntityV::Arc(p) }
    } else if n.node_type == "LWPOLYLINE"@ {
        let (h, b) = spec_decode_lwpolyline(n.atoms);
        EntityNodeV { header: h, entity: EntityV::LwPolyline(spec_lw_finish(b)) }
    } else {
        EntityNodeV {
            header: spec_header_default(),
            entity: EntityV::NotSupported(n.node_type, n.atoms),
        }
    }
}

impl EntityNode {
    /// Decodes one tree node into a typed entity, as
    /// [`spec_entity_node_of`] says.
    pub fn from_node(source: &Node) -> (r: EntityNode)
        ensures
            r@ == spec_entity_node_of(source@),
    {
        if source.node_type == String::from_str("INSERT") {
            let (h, p) = decode_insert_atoms(&source.atoms);
            EntityNode { header: h, entity: Entity::Insert(p) }
        } else if source.node_type == String::from_str("DIMENSION") {
            let (h, p) = decode_dimension_atoms(&source.atoms);
            EntityNode { header: h, entity: Entity::Dimension(Box::new(p)) }
        } else if source.node_type == String::from_str("TEXT") {
            let (h, p) = decode_text_atoms(&source.atoms);
            EntityNode { header: h, entity: Entity::Text(p) }
        } else if source.node_type == String::from_str("MTEXT") {
            let (h, p) = decode_mtext_atoms(&source.atoms);
            let mut p2: MText = p;
            p2.text.parse_and_build_nodes();
            EntityNode { header: h, entity: Entity::MText(p2) }
        } else if source.node_type == String::from_str("POINT") {
            let (h, p) = decode_point_atoms(&source.atoms);
            EntityNode { header: h, entity: Entity::Point(p) }
        } else if source.node_type == String::from_str("LINE") {
            let (h, p) = decode_line_atoms(&source.atoms);
            EntityNode { header: h, entity: Entity::Line(p) }
        } else if source.node_type == String::from_str("CIRCLE") {
            let (h, p) = decode_circle_atoms(&source.atoms);
            EntityNode { header: h, entity: Entity::Circle(p) }
        } else if source.node_type == String::from_str("ARC") {
            let (h, p) = decode_arc_atoms(&source.atoms);
            EntityNode { header: h, entity: Entity::Arc(p) }
        } else if source.node_type == String::from_str("LWPOLYLINE") {
            let (h, b) = decode_lwpolyline_atoms(&source.atoms);
            EntityNode { header: h, entity: Entity::LwPolyline(b.into_entity()) }
        } else {
            EntityNode {
                header: EntityHeader::default(),
                entity: Entity::NotSupported(
                    clone_string(&source.node_type),
                    crate::node::copy_atoms(&source.atoms, 0, source.atoms.len()),
                ),
            }
        }
    }
}

} // verus!
