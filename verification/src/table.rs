//! The typed-model decoder for table sections: layers, line types,
//! dimension styles; other table entry types are preserved as opaque
//! nodes.
use crate::atom::clone_string;
use crate::atom::Atom;
use crate::atom::AtomV;
use crate::node::Node;
use crate::node::NodeV;
use crate::node::spec_node_view;
use crate::numstr::spec_parse_hex_u32;
use crate::numstr::spec_parse_u32;
use crate::numstr::parse_hex_u32_chars;
use crate::numstr::parse_u32_chars;
use crate::value::Float64;
use crate::value::Value;
use crate::value::ValueV;
use vstd::prelude::*;

verus! {

broadcast use vstd::std_specs::vec::group_vec_axioms;

/// First atom with the given code, if any.
pub open spec fn spec_find_code(atoms: Seq<AtomV>, code: i16) -> Option<AtomV>
    decreases atoms.len(),
{
    if atoms.len() == 0 {
        None
    } else if atoms[0].code == code {
        Some(atoms[0])
    } else {
        spec_find_code(atoms.drop_first(), code)
    }
}

/// The handle a code's atom encodes: hex text, or a handle-typed value;
/// zero where the atom is missing or malformed.
pub open spec fn spec_handle_at(atoms: Seq<AtomV>, code: i16) -> u32 {
    match spec_find_code(atoms, code) {
        Some(a) => match a.value {
            ValueV::String(s) => match spec_parse_hex_u32(s) {
                Some(h) => h,
                None => 0,
            },
            ValueV::Handle(h) => h,
            _ => 0,
        },
        None => 0,
    }
}

/// The string a code's atom holds; empty where missing or not a string.
pub open spec fn spec_string_at(atoms: Seq<AtomV>, code: i16) -> Seq<char> {
    match spec_find_code(atoms, code) {
        Some(a) => match a.value {
            ValueV::String(s) => s,
            _ => Seq::empty(),
        },
        None => Seq::empty(),
    }
}

fn find_code_index(atoms: &Vec<Atom>, code: i16) -> (r: Option<usize>)
    ensures
        match r {
            Some(i) => i < atoms@.len() && spec_find_code(atoms.deep_view(), code) == Some(
                atoms.deep_view()[i as int],
            ),
            None => spec_find_code(atoms.deep_view(), code) is None,
        },
{
    let ghost adv = atoms.deep_view();
    let n: usize = atoms.len();
    let mut i: usize = 0;
    proof {
        assert(adv.skip(0) =~= adv);
    }
    while i < n
        invariant
            0 <= i <= n,
            n == atoms@.len(),
            adv == atoms.deep_view(),
            spec_find_code(adv, code) == spec_find_code(adv.skip(i as int), code),
        decreases n - i,
    {
        proof {
            assert(adv.skip(i as int)[0] == adv[i as int]);
            assert(adv[i as int] == atoms@[i as int]@);
            assert(adv.skip(i as int).drop_first() =~= adv.skip(i + 1));
        }
        if atoms[i].code == code {
            return Some(i);
        }
        i = i + 1;
    }
    proof {
        assert(adv.skip(n as int).len() == 0);
    }
    None
}

/// The handle at a code, as [`spec_handle_at`] says.
fn handle_at(atoms: &Vec<Atom>, code: i16) -> (r: u32)
    ensures
        r == spec_handle_at(atoms.deep_view(), code),
{
    match find_code_index(atoms, code) {
        Some(i) => match &atoms[i].value {
            Value::String(s) => {
                let cs: Vec<char> = crate::chars::chars_of(s.as_str());
                match parse_hex_u32_chars(&cs) {
                    Some(h) => h,
                    None => 0,
                }
            },
            Value::Handle(h) => *h,
            _ => 0,
        },
        None => 0,
    }
}

/// The string at a code, as [`spec_string_at`] says.
pub(crate) fn string_at(atoms: &Vec<Atom>, code: i16) -> (r: String)
    ensures
        r@ == spec_string_at(atoms.deep_view(), code),
{
    match find_code_index(atoms, code) {
        Some(i) => match &atoms[i].value {
            Value::String(s) => clone_string(s),
            _ => String::new(),
        },
        None => String::new(),
    }
}

// ---------------------------------------------------------------------
// table records
/// An application-id entry; not decoded further.
#[derive(Debug, Clone, Copy, PartialEq, Eq, Structural)]
pub struct RegApp {
}

/// A block-record entry; not decoded further.
#[derive(Debug, Clone, Copy, PartialEq, Eq, Structural)]
pub struct Block {
}

/// A text-style entry; not decoded further.
#[derive(Debug, Clone, Copy, PartialEq, Eq, Structural)]
pub struct TextStyle {
}

/// A user-coordinate-system entry; not decoded further.
#[derive(Debug, Clone, Copy, PartialEq, Eq, Structural)]
pub struct Ucs {
}

/// A view entry; not decoded further.
#[derive(Debug, Clone, Copy, PartialEq, Eq, Structural)]
pub struct ViewRecord {
}

/// A viewport entry; not decoded further.
#[derive(Debug, Clone, Copy, PartialEq, Eq, Structural)]
pub struct Viewport {
}

/// A dimension style: the text and arrow geometry parameters.
#[derive(Debug, PartialEq)]
pub struct DimStyle {
    pub general_dimensioning_suffix: String,
    pub alternate_dimensioning_suffix: String,
    pub arrow_block_name: String,
    pub arrow1_block_name: String,
    pub arrow2_block_name: String,
    pub scale_factor: Float64,
    pub arrow_size: Float64,
    pub extension_line_offset: Float64,
    pub dimension_line_increment: Float64,
    pub extension_line_extension: Float64,
    pub rounding_value: Float64,
    pub dimension_line_extension: Float64,
    pub plus_tolerance: Float64,
    pub minus_tolerance: Float64,
    pub text_height: Float64,
    pub center_mark_size: Float64,
    pub tick_size: Float64,
    pub alternate_unit_scale_factor: Float64,
    pub linear_measurement_scale_factor: Float64,
    pub text_vertical_position: Float64,
    pub tolerance_display_scale_factor: Float64,
    pub dimension_line_gap: Float64,
    pub alternate_unit_rounding: Float64,
    pub tolerance: i16,
    pub dimension_limits: i16,
    pub text_inside_horizontal: i16,
    pub text_outside_horizontal: i16,
    pub extension_line1_suppressed: bool,
    pub extension_line2_suppressed: bool,
    pub text_above_dimension_line: bool,
}

#[verifier::ext_equal]
pub struct DimStyleV {
    pub general_dimensioning_suffix: Seq<char>,
    pub alternate_dimensioning_suffix: Seq<char>,
    pub arrow_block_name: Seq<char>,
    pub arrow1_block_name: Seq<char>,
    pub arrow2_block_name: Seq<char>,
    pub scale_factor: Seq<char>,
    pub arrow_size: Seq<char>,
    pub extension_line_offset: Seq<char>,
    pub dimension_line_increment: Seq<char>,
    pub extension_line_extension: Seq<char>,
    pub rounding_value: Seq<char>,
    pub dimension_line_extension: Seq<char>,
    pub plus_tolerance: Seq<char>,
    pub minus_tolerance: Seq<char>,
    pub text_height: Seq<char>,
    pub center_mark_size: Seq<char>,
    pub tick_size: Seq<char>,
    pub alternate_unit_scale_factor: Seq<char>,
    pub linear_measurement_scale_factor: Seq<char>,
    pub text_vertical_position: Seq<char>,
    pub tolerance_display_scale_factor: Seq<char>,
    pub dimension_line_gap: Seq<char>,
    pub alternate_unit_rounding: Seq<char>,
    pub tolerance: i16,
    pub dimension_limits: i16,
    pub text_inside_horizontal: i16,
    pub text_outside_horizontal: i16,
    pub extension_line1_suppressed: bool,
    pub extension_line2_suppressed: bool,
    pub text_above_dimension_line: bool,
}

impl View for DimStyle {
    type V = DimStyleV;

    open spec fn view(&self) -> DimStyleV {
        DimStyleV {
            general_dimensioning_suffix: self.general_dimensioning_suffix@,
            alternate_dimensioning_suffix: self.alternate_dimensioning_suffix@,
            arrow_block_name: self.arrow_block_name@,
            arrow1_block_name: self.arrow1_block_name@,
            arrow2_block_name: self.arrow2_block_name@,
            scale_factor: self.scale_factor@,
            arrow_size: self.arrow_size@,
            extension_line_offset: self.extension_line_offset@,
            dimension_line_increment: self.dimension_line_increment@,
            extension_line_extension: self.extension_line_extension@,
            rounding_value: self.rounding_value@,
            dimension_line_extension: self.dimension_line_extension@,
            plus_tolerance: self.plus_tolerance@,
            minus_tolerance: self.minus_tolerance@,
            text_height: self.text_height@,
            center_mark_size: self.center_mark_size@,
            tick_size: self.tick_size@,
            alternate_unit_scale_factor: self.alternate_unit_scale_factor@,
            linear_measurement_scale_factor: self.linear_measurement_scale_factor@,
            text_vertical_position: self.text_vertical_position@,
            tolerance_display_scale_factor: self.tolerance_display_scale_factor@,
            dimension_line_gap: self.dimension_line_gap@,
            alternate_unit_rounding: self.alternate_unit_rounding@,
            tolerance: self.tolerance,
            dimension_limits: self.dimension_limits,
            text_inside_horizontal: self.text_inside_horizontal,
            text_outside_horizontal: self.text_outside_horizontal,
            extension_line1_suppressed: self.extension_line1_suppressed,
            extension_line2_suppressed: self.extension_line2_suppressed,
            text_above_dimension_line: self.text_above_dimension_line,
        }
    }
}

pub open spec fn spec_dim_style_default() -> DimStyleV {
    DimStyleV {
        general_dimensioning_suffix: Seq::empty(),
        alternate_dimensioning_suffix: Seq::empty(),
        arrow_block_name: Seq::empty(),
        arrow1_block_name: Seq::empty(),
        arrow2_block_name: Seq::empty(),
        scale_factor: crate::value::spec_float_zero(),
        arrow_size: crate::value::spec_float_zero(),
        extension_line_offset: crate::value::spec_float_zero(),
        dimension_line_increment: crate::value::spec_float_zero(),
        extension_line_extension: crate::value::spec_float_zero(),
        rounding_value: crate::value::spec_float_zero(),
        dimension_line_extension: crate::value::spec_float_zero(),
        plus_tolerance: crate::value::spec_float_zero(),
        minus_tolerance: crate::value::spec_float_zero(),
        text_height: crate::value::spec_float_zero(),
        center_mark_size: crate::value::spec_float_zero(),
        tick_size: crate::value::spec_float_zero(),
        alternate_unit_scale_factor: crate::value::spec_float_zero(),
        linear_measurement_scale_factor: crate::value::spec_float_zero(),
        text_vertical_position: crate::value::spec_float_zero(),
        tolerance_display_scale_factor: crate::value::spec_float_zero(),
        dimension_line_gap: crate::value::spec_float_zero(),
        alternate_unit_rounding: crate::value::spec_float_zero(),
        tolerance: 0,
        dimension_limits: 0,
        text_inside_horizontal: 0,
        text_outside_horizontal: 0,
        extension_line1_suppressed: false,
        extension_line2_suppressed: false,
        text_above_dimension_line: false,
    }
}

/// The dimension-style table: strings at 3 to 7, geometry floats at 40
/// to 48 and 140 to 148, small integers at 71 to 74, and 0/1 switches at
/// 75 to 77 (any other switch value leaves the field).
pub open spec fn spec_dim_style_set_atom(p: DimStyleV, a: AtomV) -> DimStyleV {
    match a.value {
        ValueV::String(s) => {
            if a.code == 3 {
                DimStyleV { general_dimensioning_suffix: s, ..p }
            } else if a.code == 4 {
                DimStyleV { alternate_dimensioning_suffix: s, ..p }
            } else if a.code == 5 {
                DimStyleV { arrow_block_name: s, ..p }
            } else if a.code == 6 {
                DimStyleV { arrow1_block_name: s, ..p }
            } else if a.code == 7 {
                DimStyleV { arrow2_block_name: s, ..p }
            } else {
                p
            }
        },
        ValueV::F64(t) => {
            if a.code == 40 {
                DimStyleV { scale_factor: t, ..p }
            } else if a.code == 41 {
                DimStyleV { arrow_size: t, ..p }
            } else if a.code == 42 {
                DimStyleV { extension_line_offset: t, ..p }
            } else if a.code == 43 {
                DimStyleV { dimension_line_increment: t, ..p }
            } else if a.code == 44 {
                DimStyleV { extension_line_extension: t, ..p }
            } else if a.code == 45 {
                DimStyleV { rounding_value: t, ..p }
            } else if a.code == 46 {
                DimStyleV { dimension_line_extension: t, ..p }
            } else if a.code == 47 {
                DimStyleV { plus_tolerance: t, ..p }
            } else if a.code == 48 {
                DimStyleV { minus_tolerance: t, ..p }
            } else if a.code == 140 {
                DimStyleV { text_height: t, ..p }
            } else if a.code == 141 {
                DimStyleV { center_mark_size: t, ..p }
            } else if a.code == 142 {
                DimStyleV { tick_size: t, ..p }
            } else if a.code == 143 {
                DimStyleV { alternate_unit_scale_factor: t, ..p }
            } else if a.code == 144 {
                DimStyleV { linear_measurement_scale_factor: t, ..p }
            } else if a.code == 145 {
                DimStyleV { text_vertical_position: t, ..p }
            } else if a.code == 146 {
                DimStyleV { tolerance_display_scale_factor: t, ..p }
            } else if a.code == 147 {
                DimStyleV { dimension_line_gap: t, ..p }
            } else if a.code == 148 {
                DimStyleV { alternate_unit_rounding: t, ..p }
            } else {
                p
            }
        },
        ValueV::I16(v) => {
            if a.code == 71 {
                DimStyleV { tolerance: v, ..p }
            } else if a.code == 72 {
                DimStyleV { dimension_limits: v, ..p }
            } else if a.code == 73 {
                DimStyleV { text_inside_horizontal: v, ..p }
            } else if a.code == 74 {
                DimStyleV { text_outside_horizontal: v, ..p }
            } else if a.code == 75 && (v == 0 || v == 1) {
                DimStyleV { extension_line1_suppressed: v == 1, ..p }
            } else if a.code == 76 && (v == 0 || v == 1) {
                DimStyleV { extension_line2_suppressed: v == 1, ..p }
            } else if a.code == 77 && (v == 0 || v == 1) {
                DimStyleV { text_above_dimension_line: v == 1, ..p }
            } else {
                p
            }
        },
        _ => p,
    }
}

pub open spec fn spec_decode_dim_style_from(atoms: Seq<AtomV>, p: DimStyleV) -> DimStyleV
    decreases atoms.len(),
{
    if atoms.len() == 0 {
        p
    } else {
        spec_decode_dim_style_from(atoms.drop_first(), spec_dim_style_set_atom(p, atoms[0]))
    }
}

pub open spec fn spec_decode_dim_style(atoms: Seq<AtomV>) -> DimStyleV {
    spec_decode_dim_style_from(atoms, spec_dim_style_default())
}

impl DimStyle {
    fn default_record() -> (r: DimStyle)
        ensures
            r@ == spec_dim_style_default(),
    {
        let r = DimStyle {
            general_dimensioning_suffix: String::new(),
            alternate_dimensioning_suffix: String::new(),
            arrow_block_name: String::new(),
            arrow1_block_name: String::new(),
            arrow2_block_name: String::new(),
            scale_factor: Float64::default(),
            arrow_size: Float64::default(),
            extension_line_offset: Float64::default(),
            dimension_line_increment: Float64::default(),
            extension_line_extension: Float64::default(),
            rounding_value: Float64::default(),
            dimension_line_extension: Float64::default(),
            plus_tolerance: Float64::default(),
            minus_tolerance: Float64::default(),
            text_height: Float64::default(),
            center_mark_size: Float64::default(),
            tick_size: Float64::default(),
            alternate_unit_scale_factor: Float64::default(),
            linear_measurement_scale_factor: Float64::default(),
            text_vertical_position: Float64::default(),
            tolerance_display_scale_factor: Float64::default(),
            dimension_line_gap: Float64::default(),
            alternate_unit_rounding: Float64::default(),
            tolerance: 0,
            dimension_limits: 0,
            text_inside_horizontal: 0,
            text_outside_horizontal: 0,
            extension_line1_suppressed: false,
            extension_line2_suppressed: false,
            text_above_dimension_line: false,
        };
        proof {
            assert(r@ =~= spec_dim_style_default());
        }
        r
    }

    /// Accepts one atom, as [`spec_dim_style_set_atom`] says.
    #[verifier::rlimit(100)]
    fn set_atom(&mut self, a: &Atom)
        ensures
            final(self)@ == spec_dim_style_set_atom(old(self)@, a@),
    {
        match &a.value {
            Value::String(s) => {
                if a.code == 3 {
                    self.general_dimensioning_suffix = clone_string(s);
                } else if a.code == 4 {
                    self.alternate_dimensioning_suffix = clone_string(s);
                } else if a.code == 5 {
                    self.arrow_block_name = clone_string(s);
                } else if a.code == 6 {
                    self.arrow1_block_name = clone_string(s);
                } else if a.code == 7 {
                    self.arrow2_block_name = clone_string(s);
                }
            },
            Value::F64(t) => {
                if a.code == 40 {
                    self.scale_factor = crate::entity::clone_float(t);
                } else if a.code == 41 {
                    self.arrow_size = crate::entity::clone_float(t);
                } else if a.code == 42 {
                    self.extension_line_offset = crate::entity::clone_float(t);
                } else if a.code == 43 {
                    self.dimension_line_increment = crate::entity::clone_float(t);
                } else if a.code == 44 {
                    self.extension_line_extension = crate::entity::clone_float(t);
                } else if a.code == 45 {
                    self.rounding_value = crate::entity::clone_float(t);
                } else if a.code == 46 {
                    self.dimension_line_extension = crate::entity::clone_float(t);
                } else if a.code == 47 {
                    self.plus_tolerance = crate::entity::clone_float(t);
                } else if a.code == 48 {
                    self.minus_tolerance = crate::entity::clone_float(t);
                } else if a.code == 140 {
                    self.text_height = crate::entity::clone_float(t);
                } else if a.code == 141 {
                    self.center_mark_size = crate::entity::clone_float(t);
                } else if a.code == 142 {
                    self.tick_size = crate::entity::clone_float(t);
                } else if a.code == 143 {
                    self.alternate_unit_scale_factor = crate::entity::clone_float(t);
                } else if a.code == 144 {
                    self.linear_measurement_scale_factor = crate::entity::clone_float(t);
                } else if a.code == 145 {
                    self.text_vertical_position = crate::entity::clone_float(t);
                } else if a.code == 146 {
                    self.tolerance_display_scale_factor = crate::entity::clone_float(t);
                } else if a.code == 147 {
                    self.dimension_line_gap = crate::entity::clone_float(t);
                } else if a.code == 148 {
                    self.alternate_unit_rounding = crate::entity::clone_float(t);
                }
            },
            Value::I16(v) => {
                if a.code == 71 {
                    self.tolerance = *v;
                } else if a.code == 72 {
                    self.dimension_limits = *v;
                } else if a.code == 73 {
                    self.text_inside_horizontal = *v;
                } else if a.code == 74 {
                    self.text_outside_horizontal = *v;
                } else if a.code == 75 && (*v == 0 || *v == 1) {
                    self.extension_line1_suppressed = *v == 1;
                } else if a.code == 76 && (*v == 0 || *v == 1) {
                    self.extension_line2_suppressed = *v == 1;
                } else if a.code == 77 && (*v == 0 || *v == 1) {
                    self.text_above_dimension_line = *v == 1;
                }
            },
            _ => {},
        }
    }

    /// Decodes a dimension-style node's atoms, as
    /// [`spec_decode_dim_style`] says.
    pub fn from_atoms(atoms: &Vec<Atom>) -> (r: DimStyle)
        ensures
            r@ == spec_decode_dim_style(atoms.deep_view()),
    {
        let ghost adv = atoms.deep_view();
        let mut p: DimStyle = DimStyle::default_record();
        let n: usize = atoms.len();
        let mut i: usize = 0;
        proof {
            assert(adv.skip(0) =~= adv);
        }
        while i < n
            invariant
                0 <= i <= n,
                n == atoms@.len(),
                adv == atoms.deep_view(),
                adv.len() == n,
                spec_decode_dim_style(adv) == spec_decode_dim_style_from(
                    adv.skip(i as int),
                    p@,
                ),
            decreases n - i,
        {
            proof {
                assert(adv.skip(i as int)[0] == adv[i as int]);
                assert(adv[i as int] == atoms@[i as int]@);
                assert(adv.skip(i as int).drop_first() =~= adv.skip(i + 1));
            }
            p.set_atom(&atoms[i]);
            i = i + 1;
        }
        proof {
            assert(adv.skip(n as int).len() == 0);
        }
        p
    }
}

/// A 16-bit integer reinterpreted as its unsigned form.
pub open spec fn spec_wrap_u16(v: i16) -> u16 {
    if v >= 0 {
        v as u16
    } else {
        (v + 65536) as u16
    }
}

fn wrap_u16(v: i16) -> (r: u16)
    ensures
        r == spec_wrap_u16(v),
{
    if v >= 0 {
        v as u16
    } else {
        ((v as i32) + 65536) as u16
    }
}

/// A drawing layer.
#[derive(Debug, PartialEq)]
pub struct Layer {
    pub is_plotted: bool,
    pub flags: u16,
    pub color_number: Option<u8>,
    pub line_type: Option<String>,
    pub line_weight: Option<u16>,
    pub plot_style_handle: Option<u32>,
    pub material_handle: Option<u32>,
}

#[verifier::ext_equal]
pub struct LayerV {
    pub is_plotted: bool,
    pub flags: u16,
    pub color_number: Option<u8>,
    pub line_type: Option<Seq<char>>,
    pub line_weight: Option<u16>,
    pub plot_style_handle: Option<u32>,
    pub material_handle: Option<u32>,
}

impl View for Layer {
    type V = LayerV;

    open spec fn view(&self) -> LayerV {
        LayerV {
            is_plotted: self.is_plotted,
            flags: self.flags,
            color_number: self.color_number,
            line_type: crate::entity::spec_opt_string_view(self.line_type),
            line_weight: self.line_weight,
            plot_style_handle: self.plot_style_handle,
            material_handle: self.material_handle,
        }
    }
}

/// Layers start out plotted; everything else defaults empty.
pub open spec fn spec_layer_default() -> LayerV {
    LayerV {
        is_plotted: true,
        flags: 0,
        color_number: None,
        line_type: None,
        line_weight: None,
        plot_style_handle: None,
        material_handle: None,
    }
}

/// The layer table: a negative color turns the layer off (`None`).
pub open spec fn spec_layer_set_atom(p: LayerV, a: AtomV) -> LayerV {
    if a.code == 70 {
        match a.value {
            ValueV::I16(v) => LayerV { flags: spec_wrap_u16(v), ..p },
            _ => p,
        }
    } else if a.code == 62 {
        LayerV {
            color_number: match a.value {
                ValueV::I16(v) => if v >= 0 {
                    Some((v % 256) as u8)
                } else {
                    None
                },
                _ => None,
            },
            ..p
        }
    } else if a.code == 6 {
        LayerV {
            line_type: match a.value {
                ValueV::String(t) => Some(t),
                _ => None,
            },
            ..p
        }
    } else if a.code == 290 {
        LayerV {
            is_plotted: match a.value {
                ValueV::Bool(b) => b,
                _ => false,
            },
            ..p
        }
    } else if a.code == 370 {
        LayerV {
            line_weight: match a.value {
                ValueV::I16(v) => Some(spec_wrap_u16(v)),
                _ => None,
            },
            ..p
        }
    } else if a.code == 390 {
        LayerV {
            plot_style_handle: match a.value {
                ValueV::Handle(h) => Some(h),
                _ => None,
            },
            ..p
        }
    } else if a.code == 347 {
        LayerV {
            material_handle: match a.value {
                ValueV::String(t) => spec_parse_u32(t),
                _ => None,
            },
            ..p
        }
    } else {
        p
    }
}

pub open spec fn spec_decode_layer_from(atoms: Seq<AtomV>, p: LayerV) -> LayerV
    decreases atoms.len(),
{
    if atoms.len() == 0 {
        p
    } else {
        spec_decode_layer_from(atoms.drop_first(), spec_layer_set_atom(p, atoms[0]))
    }
}

pub open spec fn spec_decode_layer(atoms: Seq<AtomV>) -> LayerV {
    spec_decode_layer_from(atoms, spec_layer_default())
}

impl Layer {
    /// Accepts one atom, as [`spec_layer_set_atom`] says.
    #[verifier::rlimit(60)]
    fn set_atom(&mut self, a: &Atom)
        ensures
            final(self)@ == spec_layer_set_atom(old(self)@, a@),
    {
        match a.code {
            70 => {
                match &a.value {
                    Value::I16(v) => {
                        self.flags = wrap_u16(*v);
                    },
                    _ => {},
                }
            },
            62 => {
                self.color_number = match &a.value {
                    Value::I16(v) => if *v >= 0 {
                        Some((*v % 256) as u8)
                    } else {
                        None
                    },
                    _ => None,
                };
            },
            6 => {
                self.line_type = match &a.value {
                    Value::String(t) => Some(clone_string(t)),
                    _ => None,
                };
            },
            290 => {
                self.is_plotted = match &a.value {
                    Value::Bool(b) => *b,
                    _ => false,
                };
            },
            370 => {
                self.line_weight = match &a.value {
                    Value::I16(v) => Some(wrap_u16(*v)),
                    _ => None,
                };
            },
            390 => {
                self.plot_style_handle = match &a.value {
                    Value::Handle(h) => Some(*h),
                    _ => None,
                };
            },
            347 => {
                self.material_handle = match &a.value {
                    Value::String(t) => {
                        let cs: Vec<char> = crate::chars::chars_of(t.as_str());
                        parse_u32_chars(&cs)
                    },
                    _ => None,
                };
            },
            _ => {},
        }
    }

    /// Decodes a layer node's atoms, as [`spec_decode_layer`] says.
    pub fn from_atoms(atoms: &Vec<Atom>) -> (r: Layer)
        ensures
            r@ == spec_decode_layer(atoms.deep_view()),
    {
        let ghost adv = atoms.deep_view();
        let mut p = Layer {
            is_plotted: true,
            flags: 0,
            color_number: None,
            line_type: None,
            line_weight: None,
            plot_style_handle: None,
            material_handle: None,
        };
        proof {
            assert(p@ =~= spec_layer_default());
            assert(adv.skip(0) =~= adv);
        }
        let n: usize = atoms.len();
        let mut i: usize = 0;
        while i < n
            invariant
                0 <= i <= n,
                n == atoms@.len(),
                adv == atoms.deep_view(),
                adv.len() == n,
                spec_decode_layer(adv) == spec_decode_layer_from(adv.skip(i as int), p@),
            decreases n - i,
        {
            proof {
                assert(adv.skip(i as int)[0] == adv[i as int]);
                assert(adv[i as int] == atoms@[i as int]@);
                assert(adv.skip(i as int).drop_first() =~= adv.skip(i + 1));
            }
            p.set_atom(&atoms[i]);
            i = i + 1;
        }
        proof {
            assert(adv.skip(n as int).len() == 0);
        }
        p
    }
}

/// A line type: its description and dash pattern lengths.
#[derive(Debug, PartialEq)]
pub struct LineType {
    pub flags: u16,
    pub description: String,
    pub total_pattern_length: Float64,
    pub pattern_lengths: Vec<Float64>,
}

#[verifier::ext_equal]
pub struct LineTypeV {
    pub flags: u16,
    pub description: Seq<char>,
    pub total_pattern_length: Seq<char>,
    pub pattern_lengths: Seq<Seq<char>>,
}

impl View for LineType {
    type V = LineTypeV;

    open spec fn view(&self) -> LineTypeV {
        LineTypeV {
            flags: self.flags,
            description: self.description@,
            total_pattern_length: self.total_pattern_length@,
            pattern_lengths: self.pattern_lengths.deep_view(),
        }
    }
}

pub open spec fn spec_line_type_default() -> LineTypeV {
    LineTypeV {
        flags: 0,
        description: Seq::empty(),
        total_pattern_length: crate::value::spec_float_zero(),
        pattern_lengths: Seq::empty(),
    }
}

/// The line-type table: each code 49 atom appends one pattern length.
pub open spec fn spec_line_type_set_atom(p: LineTypeV, a: AtomV) -> LineTypeV {
    if a.code == 70 {
        match a.value {
            ValueV::I16(v) => LineTypeV { flags: spec_wrap_u16(v), ..p },
            _ => p,
        }
    } else if a.code == 3 {
        match a.value {
            ValueV::String(t) => LineTypeV { description: t, ..p },
            _ => p,
        }
    } else if a.code == 40 {
        match a.value {
            ValueV::F64(t) => LineTypeV { total_pattern_length: t, ..p },
            _ => p,
        }
    } else if a.code == 49 {
        match a.value {
            ValueV::F64(t) => LineTypeV { pattern_lengths: p.pattern_lengths.push(t), ..p },
            _ => p,
        }
    } else {
        p
    }
}

pub open spec fn spec_decode_line_type_from(atoms: Seq<AtomV>, p: LineTypeV) -> LineTypeV
    decreases atoms.len(),
{
    if atoms.len() == 0 {
        p
    } else {
        spec_decode_line_type_from(atoms.drop_first(), spec_line_type_set_atom(p, atoms[0]))
    }
}

pub open spec fn spec_decode_line_type(atoms: Seq<AtomV>) -> LineTypeV {
    spec_decode_line_type_from(atoms, spec_line_type_default())
}

impl LineType {
    /// A continuous line type has no dash pattern.
    pub fn is_continuous(&self) -> (r: bool)
        ensures
            r == (self@.pattern_lengths.len() == 0),
    {
        self.pattern_lengths.len() == 0
    }

    /// Accepts one atom, as [`spec_line_type_set_atom`] says.
    #[verifier::rlimit(60)]
    fn set_atom(&mut self, a: &Atom)
        ensures
            final(self)@ == spec_line_type_set_atom(old(self)@, a@),
    {
        match a.code {
            70 => {
                match &a.value {
                    Value::I16(v) => {
                        self.flags = wrap_u16(*v);
                    },
                    _ => {},
                }
            },
            3 => {
                match &a.value {
                    Value::String(t) => {
                        self.description = clone_string(t);
                    },
                    _ => {},
                }
            },
            40 => {
                match &a.value {
                    Value::F64(t) => {
                        self.total_pattern_length = crate::entity::clone_float(t);
                    },
                    _ => {},
                }
            },
            49 => {
                match &a.value {
                    Value::F64(t) => {
                        let ghost before = self.pattern_lengths.deep_view();
                        self.pattern_lengths.push(crate::entity::clone_float(t));
                        proof {
                            assert(self.pattern_lengths.deep_view() =~~= before.push(t@));
                        }
                    },
                    _ => {},
                }
            },
            _ => {},
        }
    }

    /// Decodes a line-type node's atoms, as [`spec_decode_line_type`]
    /// says.
    pub fn from_atoms(atoms: &Vec<Atom>) -> (r: LineType)
        ensures
            r@ == spec_decode_line_type(atoms.deep_view()),
    {
        let ghost adv = atoms.deep_view();
        let mut p = LineType {
            flags: 0,
            description: String::new(),
            total_pattern_length: Float64::default(),
            pattern_lengths: Vec::new(),
        };
        proof {
            assert(p@ =~= spec_line_type_default());
            assert(adv.skip(0) =~= adv);
        }
        let n: usize = atoms.len();
        let mut i: usize = 0;
        while i < n
            invariant
                0 <= i <= n,
                n == atoms@.len(),
                adv == atoms.deep_view(),
                adv.len() == n,
                spec_decode_line_type(adv) == spec_decode_line_type_from(
                    adv.skip(i as int),
                    p@,
                ),
            decreases n - i,
        {
            proof {
                assert(adv.skip(i as int)[0] == adv[i as int]);
                assert(adv[i as int] == atoms@[i as int]@);
                assert(adv.skip(i as int).drop_first() =~= adv.skip(i + 1));
            }
            p.set_atom(&atoms[i]);
            i = i + 1;
        }
        proof {
            assert(adv.skip(n as int).len() == 0);
        }
        p
    }
}

// ---------------------------------------------------------------------
// table entries and tables
/// One table entry's typed record; entry types that are not decoded
/// further keep their whole node.
#[derive(Debug, PartialEq)]
pub enum TableRecord {
    RegApp(RegApp),
    Block(Block),
    DimStyle(Box<DimStyle>),
    Layer(Layer),
    LineType(LineType),
    TextStyle(TextStyle),
    Ucs(Ucs),
    ViewRecord(ViewRecord),
    Viewport(Viewport),
    NotSupported(Node),
}

/// Mathematical model of a [`TableRecord`].
#[verifier::ext_equal]
pub enum TableRecordV {
    RegApp(RegApp),
    Block(Block),
    DimStyle(Box<DimStyleV>),
    Layer(LayerV),
    LineType(LineTypeV),
    TextStyle(TextStyle),
    Ucs(Ucs),
    ViewRecord(ViewRecord),
    Viewport(Viewport),
    NotSupported(NodeV),
}

impl View for TableRecord {
    type V = TableRecordV;

    open spec fn view(&self) -> TableRecordV {
        match self {
            TableRecord::RegApp(x) => TableRecordV::RegApp(*x),
            TableRecord::Block(x) => TableRecordV::Block(*x),
            TableRecord::DimStyle(x) => TableRecordV::DimStyle(Box::new((**x)@)),
            TableRecord::Layer(x) => TableRecordV::Layer(x@),
            TableRecord::LineType(x) => TableRecordV::LineType(x@),
            TableRecord::TextStyle(x) => TableRecordV::TextStyle(*x),
            TableRecord::Ucs(x) => TableRecordV::Ucs(*x),
            TableRecord::ViewRecord(x) => TableRecordV::ViewRecord(*x),
            TableRecord::Viewport(x) => TableRecordV::Viewport(*x),
            TableRecord::NotSupported(n) => TableRecordV::NotSupported(n@),
        }
    }
}

/// One table entry: its handle, name, and typed record.
#[derive(Debug, PartialEq)]
pub struct TableEntry {
    pub handle: u32,
    pub name: String,
    pub record: TableRecord,
}

/// Mathematical model of a [`TableEntry`].
#[verifier::ext_equal]
pub struct TableEntryV {
    pub handle: u32,
    pub name: Seq<char>,
    pub record: TableRecordV,
}

impl View for TableEntry {
    type V = TableEntryV;

    open spec fn view(&self) -> TableEntryV {
        TableEntryV { handle: self.handle, name: self.name@, record: self.record@ }
    }
}

impl DeepView for TableEntry {
    type V = TableEntryV;

    open spec fn deep_view(&self) -> TableEntryV {
        self@
    }
}

/// The entry a table child node decodes to: dimension styles read their
/// handle from code 105, every other entry from code 5; the name is the
/// code 2 string; layers, line types and dimension styles are decoded,
/// anything else is kept whole.
pub open spec fn spec_table_entry_of(n: NodeV) -> TableEntryV {
    let handle = if n.node_type == "DIMSTYLE"@ {
        spec_handle_at(n.atoms, 105)
    } else {
        spec_handle_at(n.atoms, 5)
    };
    let record = if n.node_type == "DIMSTYLE"@ {
        TableRecordV::DimStyle(Box::new(spec_decode_dim_style(n.atoms)))
    } else if n.node_type == "LAYER"@ {
        TableRecordV::Layer(spec_decode_layer(n.atoms))
    } else if n.node_type == "LTYPE"@ {
        TableRecordV::LineType(spec_decode_line_type(n.atoms))
    } else {
        TableRecordV::NotSupported(n)
    };
    TableEntryV { handle, name: spec_string_at(n.atoms, 2), record }
}

impl TableEntry {
    /// Decodes one table child node, as [`spec_table_entry_of`] says.
    pub fn from_node(source: &Node) -> (r: TableEntry)
        ensures
            r@ == spec_table_entry_of(source@),
    {
        let handle: u32 = if source.node_type == String::from_str("DIMSTYLE") {
            handle_at(&source.atoms, 105)
        } else {
            handle_at(&source.atoms, 5)
        };
        let name: String = string_at(&source.atoms, 2);
        let record: TableRecord = if source.node_type == String::from_str("DIMSTYLE") {
            TableRecord::DimStyle(Box::new(DimStyle::from_atoms(&source.atoms)))
        } else if source.node_type == String::from_str("LAYER") {
            TableRecord::Layer(Layer::from_atoms(&source.atoms))
        } else if source.node_type == String::from_str("LTYPE") {
            TableRecord::LineType(LineType::from_atoms(&source.atoms))
        } else {
            TableRecord::NotSupported(source.to_owned())
        };
        TableEntry { handle, name, record }
    }
}

/// One table: its handle and its entries, one per child node.
#[derive(Debug, PartialEq)]
pub struct TableNode {
    pub handle: u32,
    pub entries: Vec<TableEntry>,
}

/// Mathematical model of a [`TableNode`].
#[verifier::ext_equal]
pub struct TableNodeV {
    pub handle: u32,
    pub entries: Seq<TableEntryV>,
}

impl View for TableNode {
    type V = TableNodeV;

    open spec fn view(&self) -> TableNodeV {
        TableNodeV { handle: self.handle, entries: self.entries.deep_view() }
    }
}

impl DeepView for TableNode {
    type V = TableNodeV;

    open spec fn deep_view(&self) -> TableNodeV {
        self@
    }
}

/// The table a table node decodes to, entry by entry.
pub open spec fn spec_table_node_of(n: NodeV) -> TableNodeV {
    TableNodeV {
        handle: spec_handle_at(n.atoms, 5),
        entries: Seq::new(n.nodes.len(), |i: int| spec_table_entry_of(n.nodes[i])),
    }
}

impl TableNode {
    /// Decodes one table node, as [`spec_table_node_of`] says.
    pub fn from_node(source: &Node) -> (r: TableNode)
        ensures
            r@ == spec_table_node_of(source@),
    {
        let handle: u32 = handle_at(&source.atoms, 5);
        let mut entries: Vec<TableEntry> = Vec::new();
        let n: usize = source.nodes.len();
        let mut i: usize = 0;
        proof {
            crate::node::lemma_nodes_view_index(source.nodes@);
        }
        while i < n
            invariant
                0 <= i <= n,
                n == source.nodes@.len(),
                source@.nodes.len() == n,
                forall|k: int|
                    0 <= k < n ==> #[trigger] source@.nodes[k] == spec_node_view(
                        source.nodes@[k],
                    ),
                entries.deep_view().len() == i,
                forall|k: int|
                    0 <= k < i ==> #[trigger] entries.deep_view()[k] == spec_table_entry_of(
                        source@.nodes[k],
                    ),
            decreases n - i,
        {
            let e: TableEntry = TableEntry::from_node(&source.nodes[i]);
            let ghost before = entries.deep_view();
            entries.push(e);
            proof {
                assert(entries.deep_view() =~~= before.push(entries@[i as int]@));
            }
            i = i + 1;
        }
        let r = TableNode { handle, entries };
        proof {
            assert(r@.entries =~= spec_table_node_of(source@).entries);
            assert(r@ =~= spec_table_node_of(source@));
        }
        r
    }
}

} // verus!
