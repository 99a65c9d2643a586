//! The rich-text mini-language embedded in text entities: a control-code
//! substitution pass, then a recursive-descent pass over backslash
//! commands, stacked fractions and brace groups.
use crate::atom::clone_string;
use crate::chars::chars_of;
use crate::chars::string_from_chars;
use crate::numstr::spec_parse_i16;
use crate::numstr::spec_parse_u32;
use crate::numstr::parse_i16_chars;
use crate::numstr::parse_u32_chars;
use crate::value::is_float_literal;
use crate::value::is_float_literal_chars;
use crate::value::Float64;
use vstd::prelude::*;

verus! {

broadcast use vstd::std_specs::vec::group_vec_axioms;

/// The separator a stacked fraction was written with.
#[derive(Debug, Clone, Copy, PartialEq, Eq, Structural)]
pub enum MTextStackType {
    Slash,
    Number,
    Hat,
}

/// The alignment argument of an `A` command.
#[derive(Debug, Clone, Copy, PartialEq, Eq, Structural)]
pub enum MTextAlignment {
    Bottom,
    Center,
    Top,
}

/// One formatting command. Numeric arguments that the format writes as
/// floats are carried as their text, like every float here.
#[derive(Debug, Clone, PartialEq)]
pub enum MTextCommand {
    OStart,
    OEnd,
    LStart,
    LEnd,
    KStart,
    KEnd,
    C(i16),
    F(String),
    H(Float64),
    Hx(Float64),
    T(Float64),
    Q(Float64),
    W(Float64),
    A(MTextAlignment),
    P,
}

/// Mathematical model of an [`MTextCommand`].
pub enum MTextCommandV {
    OStart,
    OEnd,
    LStart,
    LEnd,
    KStart,
    KEnd,
    C(i16),
    F(Seq<char>),
    H(Seq<char>),
    Hx(Seq<char>),
    T(Seq<char>),
    Q(Seq<char>),
    W(Seq<char>),
    A(MTextAlignment),
    P,
}

impl View for MTextCommand {
    type V = MTextCommandV;

    open spec fn view(&self) -> MTextCommandV {
        match self {
            MTextCommand::OStart => MTextCommandV::OStart,
            MTextCommand::OEnd => MTextCommandV::OEnd,
            MTextCommand::LStart => MTextCommandV::LStart,
            MTextCommand::LEnd => MTextCommandV::LEnd,
            MTextCommand::KStart => MTextCommandV::KStart,
            MTextCommand::KEnd => MTextCommandV::KEnd,
            MTextCommand::C(v) => MTextCommandV::C(*v),
            MTextCommand::F(s) => MTextCommandV::F(s@),
            MTextCommand::H(f) => MTextCommandV::H(f@),
            MTextCommand::Hx(f) => MTextCommandV::Hx(f@),
            MTextCommand::T(f) => MTextCommandV::T(f@),
            MTextCommand::Q(f) => MTextCommandV::Q(f@),
            MTextCommand::W(f) => MTextCommandV::W(f@),
            MTextCommand::A(a) => MTextCommandV::A(*a),
            MTextCommand::P => MTextCommandV::P,
        }
    }
}

/// One node of the decoded formatting tree: a literal run, a command, a
/// brace group, or a stacked fraction.
#[derive(Debug, PartialEq)]
pub enum MTextNode {
    Text(String),
    Command(MTextCommand),
    Block(Vec<MTextNode>),
    Stacked(Vec<MTextNode>, Vec<MTextNode>, MTextStackType),
}

/// Mathematical model of an [`MTextNode`].
#[verifier::ext_equal]
pub enum MTextNodeV {
    Text(Seq<char>),
    Command(MTextCommandV),
    Block(Seq<MTextNodeV>),
    Stacked(Seq<MTextNodeV>, Seq<MTextNodeV>, MTextStackType),
}

pub open spec fn spec_mtext_node_view(n: MTextNode) -> MTextNodeV
    decreases n, 1int,
{
    match n {
        MTextNode::Text(s) => MTextNodeV::Text(s@),
        MTextNode::Command(c) => MTextNodeV::Command(c@),
        MTextNode::Block(ns) => MTextNodeV::Block(spec_mtext_nodes_view(ns@)),
        MTextNode::Stacked(a, b, t) => MTextNodeV::Stacked(
            spec_mtext_nodes_view(a@),
            spec_mtext_nodes_view(b@),
            t,
        ),
    }
}

pub open spec fn spec_mtext_nodes_view(ns: Seq<MTextNode>) -> Seq<MTextNodeV>
    decreases ns, 0int,
{
    if ns.len() == 0 {
        Seq::empty()
    } else {
        seq![spec_mtext_node_view(ns[0])] + spec_mtext_nodes_view(ns.drop_first())
    }
}

impl View for MTextNode {
    type V = MTextNodeV;

    open spec fn view(&self) -> MTextNodeV {
        spec_mtext_node_view(*self)
    }
}

pub proof fn lemma_mtext_nodes_view_push(ns: Seq<MTextNode>, n: MTextNode)
    ensures
        spec_mtext_nodes_view(ns.push(n)) == spec_mtext_nodes_view(ns) + seq![
            spec_mtext_node_view(n),
        ],
    decreases ns.len(),
{
    if ns.len() == 0 {
        reveal_with_fuel(spec_mtext_nodes_view, 3);
        assert(ns.push(n)[0] == n);
        assert(ns.push(n).drop_first() =~= Seq::<MTextNode>::empty());
        assert(spec_mtext_nodes_view(ns.push(n)) =~= spec_mtext_nodes_view(ns) + seq![
            spec_mtext_node_view(n),
        ]);
    } else {
        lemma_mtext_nodes_view_push(ns.drop_first(), n);
        assert(ns.push(n)[0] == ns[0]);
        assert(ns.push(n).drop_first() =~= ns.drop_first().push(n));
        assert(seq![spec_mtext_node_view(ns[0])] + (spec_mtext_nodes_view(ns.drop_first())
            + seq![spec_mtext_node_view(n)]) =~= spec_mtext_nodes_view(ns) + seq![
            spec_mtext_node_view(n),
        ]);
    }
}

/// A text entity's raw string value, with its decoded formatting tree.
#[derive(Debug, PartialEq)]
pub struct MTextFormatString {
    pub raw: String,
    pub nodes: Vec<MTextNode>,
}

/// Mathematical model of an [`MTextFormatString`].
#[verifier::ext_equal]
pub struct MTextFormatStringV {
    pub raw: Seq<char>,
    pub nodes: Seq<MTextNodeV>,
}

impl View for MTextFormatString {
    type V = MTextFormatStringV;

    open spec fn view(&self) -> MTextFormatStringV {
        MTextFormatStringV { raw: self.raw@, nodes: spec_mtext_nodes_view(self.nodes@) }
    }
}

// ---------------------------------------------------------------------
// pass one: control-code substitution
/// One step of the substitution, with the three toggle states. After the
/// two-character marker: a three-character decimal is a Unicode scalar;
/// `c`, `d`, `p` (either case) are the diameter, degree and plus-minus
/// signs; `%` is a literal percent; `o`, `u`, `k` toggle and re-emit as
/// backslash commands; anything else, and a trailing marker, is dropped.
pub open spec fn spec_control_codes_from(
    s: Seq<char>,
    over: bool,
    under: bool,
    strike: bool,
) -> Seq<char>
    decreases s.len(),
{
    if s.len() == 0 {
        Seq::empty()
    } else if !(s.len() >= 2 && s[0] == '%' && s[1] == '%') {
        seq![s[0]] + spec_control_codes_from(s.drop_first(), over, under, strike)
    } else {
        let rest = s.skip(2);
        if rest.len() >= 3 && spec_parse_u32(rest.take(3)) is Some && spec_parse_u32(
            rest.take(3),
        )->Some_0 <= 999 {
            seq![spec_parse_u32(rest.take(3))->Some_0 as char] + spec_control_codes_from(
                rest.skip(3),
                over,
                under,
                strike,
            )
        } else if rest.len() >= 1 {
            let c = rest[0];
            let tail = rest.drop_first();
            if c == 'c' || c == 'C' {
                seq!['\u{2300}'] + spec_control_codes_from(tail, over, under, strike)
            } else if c == 'd' || c == 'D' {
                seq!['\u{00B0}'] + spec_control_codes_from(tail, over, under, strike)
            } else if c == 'p' || c == 'P' {
                seq!['\u{00B1}'] + spec_control_codes_from(tail, over, under, strike)
            } else if c == '%' {
                seq!['%'] + spec_control_codes_from(tail, over, under, strike)
            } else if c == 'o' {
                (if over {
                    seq!['\\', 'O']
                } else {
                    seq!['\\', 'o']
                }) + spec_control_codes_from(tail, !over, under, strike)
            } else if c == 'u' {
                (if under {
                    seq!['\\', 'L']
                } else {
                    seq!['\\', 'l']
                }) + spec_control_codes_from(tail, over, !under, strike)
            } else if c == 'k' {
                (if strike {
                    seq!['\\', 'K']
                } else {
                    seq!['\\', 'k']
                }) + spec_control_codes_from(tail, over, under, !strike)
            } else {
                spec_control_codes_from(tail, over, under, strike)
            }
        } else {
            Seq::empty()
        }
    }
}

/// The whole substitution pass, from the neutral toggle state.
pub open spec fn spec_parse_control_codes(s: Seq<char>) -> Seq<char> {
    spec_control_codes_from(s, false, false, false)
}

/// Substitutes the `%%` control codes in `s`, as
/// [`spec_parse_control_codes`] says.
#[verifier::rlimit(60)]
pub fn parse_control_codes(s: &str) -> (r: String)
    ensures
        r@ == spec_parse_control_codes(s@),
{
    let cs: Vec<char> = chars_of(s);
    let n: usize = cs.len();
    let mut out: Vec<char> = Vec::new();
    let mut over: bool = false;
    let mut under: bool = false;
    let mut strike: bool = false;
    let mut i: usize = 0;
    proof {
        assert(cs@.skip(0) =~= cs@);
        assert(out@ + spec_control_codes_from(cs@, false, false, false)
            =~= spec_control_codes_from(cs@, false, false, false));
    }
    while i < n
        invariant
            0 <= i <= n,
            n == cs@.len(),
            cs@ == s@,
            out@ + spec_control_codes_from(cs@.skip(i as int), over, under, strike)
                == spec_parse_control_codes(s@),
        decreases n - i,
    {
        let ghost rest0 = cs@.skip(i as int);
        if !(i + 1 < n && cs[i] == '%' && cs[i + 1] == '%') {
            proof {
                assert(rest0[0] == cs@[i as int]);
                if (i as int) + 1 < n {
                    assert(rest0[1] == cs@[i + 1]);
                }
                assert(rest0.drop_first() =~= cs@.skip(i + 1));
            }
            out.push(cs[i]);
            proof {
                assert(out@ + spec_control_codes_from(cs@.skip(i + 1), over, under, strike)
                    =~= spec_parse_control_codes(s@));
            }
            i = i + 1;
        } else {
            proof {
                assert(rest0[0] == cs@[i as int] && rest0[1] == cs@[i + 1]);
            }
            let ghost rest = rest0.skip(2);
            proof {
                assert(rest =~= cs@.skip(i + 2));
            }
            // the three characters after the marker, if they are there
            let mut num: Option<u32> = None;
            if n - i > 4 {
                let mut three: Vec<char> = Vec::new();
                three.push(cs[i + 2]);
                three.push(cs[i + 3]);
                three.push(cs[i + 4]);
                proof {
                    assert(three@ =~= rest.take(3));
                }
                num = parse_u32_chars(&three);
            } else {
                proof {
                    assert(rest.len() < 3);
                }
            }
            match num {
                Some(v) if v <= 999 => {
                    match char_from_u32(v) {
                        Some(ch) => {
                            out.push(ch);
                        },
                        None => {
                            proof {
                                assert(false);
                            }
                        },
                    }
                    proof {
                        assert(rest.skip(3) =~= cs@.skip(i + 5));
                        assert(out@ + spec_control_codes_from(
                            cs@.skip(i + 5),
                            over,
                            under,
                            strike,
                        ) =~= spec_parse_control_codes(s@));
                    }
                    i = i + 5;
                },
                _ => {
                    proof {
                        if n - i > 4 {
                            assert(!(rest.len() >= 3 && spec_parse_u32(rest.take(3)) is Some
                                && spec_parse_u32(rest.take(3))->Some_0 <= 999));
                        }
                    }
                    if i + 2 >= n {
                        // a trailing marker is dropped
                        i = n;
                        proof {
                            assert(spec_control_codes_from(rest0, over, under, strike)
                                =~= Seq::<char>::empty());
                            assert(cs@.skip(n as int).len() == 0);
                            assert(out@ + spec_control_codes_from(
                                cs@.skip(n as int),
                                over,
                                under,
                                strike,
                            ) =~= out@ + Seq::<char>::empty());
                            assert(out@ + Seq::<char>::empty() =~= out@);
                            assert(out@ + spec_control_codes_from(
                                cs@.skip(n as int),
                                over,
                                under,
                                strike,
                            ) =~= spec_parse_control_codes(s@));
                        }
                    } else {
                        let c2: char = cs[i + 2];
                        proof {
                            assert(rest[0] == cs@[i + 2]);
                            assert(rest.drop_first() =~= cs@.skip(i + 3));
                        }
                        if c2 == 'c' || c2 == 'C' {
                            out.push('\u{2300}');
                        } else if c2 == 'd' || c2 == 'D' {
                            out.push('\u{00B0}');
                        } else if c2 == 'p' || c2 == 'P' {
                            out.push('\u{00B1}');
                        } else if c2 == '%' {
                            out.push('%');
                        } else if c2 == 'o' {
                            out.push('\\');
                            if over {
                                out.push('O');
                            } else {
                                out.push('o');
                            }
                            over = !over;
                        } else if c2 == 'u' {
                            out.push('\\');
                            if under {
                                out.push('L');
                            } else {
                                out.push('l');
                            }
                            under = !under;
                        } else if c2 == 'k' {
                            out.push('\\');
                            if strike {
                                out.push('K');
                            } else {
                                out.push('k');
                            }
                            strike = !strike;
                        }
                        proof {
                            assert(out@ + spec_control_codes_from(
                                cs@.skip(i + 3),
                                over,
                                under,
                                strike,
                            ) =~= spec_parse_control_codes(s@));
                        }
                        i = i + 3;
                    }
                },
            }
        }
    }
    proof {
        assert(cs@.skip(n as int).len() == 0);
        assert(out@ + Seq::<char>::empty() =~= out@);
    }
    string_from_chars(&out)
}

/// Relies on std's `char::from_u32`: yields the character with the given
/// scalar value; `None` exactly on surrogates and values past the last
/// code point.
#[verifier::external_body]
fn char_from_u32(v: u32) -> (r: Option<char>)
    ensures
        r is Some <==> (v < 0xD800 || (0xE000 <= v && v <= 0x10FFFF)),
        r matches Some(c) ==> c == v as char && c as u32 == v,
{
    char::from_u32(v)
}

// ---------------------------------------------------------------------
// pass two: command and structure parse
/// First `';'` at or after `from`, or the length.
pub open spec fn spec_find_semi(s: Seq<char>, from: int) -> int
    decreases s.len() - from,
{
    if from < s.len() {
        if 0 <= from && s[from] == ';' {
            from
        } else {
            spec_find_semi(s, from + 1)
        }
    } else {
        s.len() as int
    }
}

/// One backslash command starting at the letter `s[i]`, and the position
/// after it. Commands with an argument read to the `';'` (consumed); a
/// malformed argument, or an unknown letter, yields no node but still
/// consumes the same characters.
pub open spec fn spec_parse_mtext_command(s: Seq<char>, i: int) -> (Option<MTextCommandV>, int) {
    if !(0 <= i < s.len()) {
        (None::<MTextCommandV>, s.len() as int)
    } else {
        let c = s[i];
        let j = spec_find_semi(s, i + 1);
        let seg = s.subrange(i + 1, j);
        let after: int = if j < s.len() {
            j + 1
        } else {
            s.len() as int
        };
        if c == 'O' {
            (Some(MTextCommandV::OStart), i + 1)
        } else if c == 'o' {
            (Some(MTextCommandV::OEnd), i + 1)
        } else if c == 'L' {
            (Some(MTextCommandV::LStart), i + 1)
        } else if c == 'l' {
            (Some(MTextCommandV::LEnd), i + 1)
        } else if c == 'K' {
            (Some(MTextCommandV::KStart), i + 1)
        } else if c == 'k' {
            (Some(MTextCommandV::KEnd), i + 1)
        } else if c == 'P' {
            (Some(MTextCommandV::P), i + 1)
        } else if c == 'H' {
            if seg.len() > 0 && seg.last() == 'x' {
                if is_float_literal(seg.drop_last()) {
                    (Some(MTextCommandV::Hx(seg.drop_last())), after)
                } else {
                    (None::<MTextCommandV>, after)
                }
            } else if is_float_literal(seg) {
                (Some(MTextCommandV::H(seg)), after)
            } else {
                (None::<MTextCommandV>, after)
            }
        } else if c == 'C' {
            match spec_parse_i16(seg) {
                Some(v) => (Some(MTextCommandV::C(v)), after),
                None => (None::<MTextCommandV>, after),
            }
        } else if c == 'T' {
            if is_float_literal(seg) {
                (Some(MTextCommandV::T(seg)), after)
            } else {
                (None::<MTextCommandV>, after)
            }
        } else if c == 'Q' {
            if is_float_literal(seg) {
                (Some(MTextCommandV::Q(seg)), after)
            } else {
                (None::<MTextCommandV>, after)
            }
        } else if c == 'W' {
            if is_float_literal(seg) {
                (Some(MTextCommandV::W(seg)), after)
            } else {
                (None::<MTextCommandV>, after)
            }
        } else if c == 'F' || c == 'f' {
            (Some(MTextCommandV::F(seg)), after)
        } else if c == 'A' {
            match spec_parse_i16(seg) {
                Some(0i16) => (Some(MTextCommandV::A(MTextAlignment::Bottom)), after),
                Some(1i16) => (Some(MTextCommandV::A(MTextAlignment::Center)), after),
                Some(2i16) => (Some(MTextCommandV::A(MTextAlignment::Top)), after),
                _ => (None::<MTextCommandV>, after),
            }
        } else {
            (None::<MTextCommandV>, i + 1)
        }
    }
}

/// Text runs are flushed before any structural node.
pub open spec fn spec_flush(acc: Seq<MTextNodeV>, buf: Seq<char>) -> Seq<MTextNodeV> {
    if buf.len() == 0 {
        acc
    } else {
        acc.push(MTextNodeV::Text(buf))
    }
}

/// The recursive-descent scan from `pos` with the pending text `buf` and
/// the nodes `acc` built so far: escaped characters join the text run;
/// `\S` parses a stacked fraction (numerator to one of `^ # /`,
/// denominator to `;`); other backslash letters are commands; a character
/// in `ends` stops the scan (consumed, and reported); `{` opens a nested
/// group to the matching `}`.
pub open spec fn spec_mtext_parse(
    s: Seq<char>,
    pos: int,
    ends: Seq<char>,
    buf: Seq<char>,
    acc: Seq<MTextNodeV>,
) -> (Seq<MTextNodeV>, Option<char>, int)
    decreases s.len() - pos,
{
    if !(0 <= pos < s.len()) {
        (spec_flush(acc, buf), None::<char>, s.len() as int)
    } else {
        let c = s[pos];
        if c == '\\' {
            if pos + 1 >= s.len() {
                (spec_flush(acc, buf), None::<char>, s.len() as int)
            } else {
                let c2 = s[pos + 1];
                if c2 == '\\' || c2 == '{' || c2 == '}' {
                    spec_mtext_parse(s, pos + 2, ends, buf.push(c2), acc)
                } else if c2 == 'S' {
                    let (n1, sep, p1) = spec_mtext_parse(
                        s,
                        pos + 2,
                        seq!['^', '#', '/'],
                        Seq::empty(),
                        Seq::empty(),
                    );
                    let q1: int = if pos + 2 <= p1 <= s.len() {
                        p1
                    } else {
                        pos + 2
                    };
                    let (n2, _, p2) = spec_mtext_parse(s, q1, seq![';'], Seq::empty(), Seq::empty());
                    let q2: int = if q1 <= p2 <= s.len() {
                        p2
                    } else {
                        q1
                    };
                    let st = match sep {
                        Some('/') => MTextStackType::Slash,
                        Some('#') => MTextStackType::Number,
                        _ => MTextStackType::Hat,
                    };
                    spec_mtext_parse(
                        s,
                        if q2 > pos {
                            q2
                        } else {
                            pos + 2
                        },
                        ends,
                        Seq::empty(),
                        spec_flush(acc, buf).push(MTextNodeV::Stacked(n1, n2, st)),
                    )
                } else {
                    let (cmd, p1) = spec_parse_mtext_command(s, pos + 1);
                    let q1: int = if pos + 1 < p1 <= s.len() {
                        p1
                    } else {
                        pos + 2
                    };
                    match cmd {
                        Some(cv) => spec_mtext_parse(
                            s,
                            q1,
                            ends,
                            Seq::empty(),
                            spec_flush(acc, buf).push(MTextNodeV::Command(cv)),
                        ),
                        None => spec_mtext_parse(s, q1, ends, buf, acc),
                    }
                }
            }
        } else if ends.contains(c) {
            (spec_flush(acc, buf), Some(c), pos + 1)
        } else if c == '{' {
            let (inner, _, p1) = spec_mtext_parse(s, pos + 1, seq!['}'], Seq::empty(), Seq::empty());
            let q1: int = if pos + 1 <= p1 <= s.len() {
                p1
            } else {
                pos + 1
            };
            spec_mtext_parse(
                s,
                if q1 > pos {
                    q1
                } else {
                    pos + 1
                },
                ends,
                Seq::empty(),
                spec_flush(acc, buf).push(MTextNodeV::Block(inner)),
            )
        } else {
            spec_mtext_parse(s, pos + 1, ends, buf.push(c), acc)
        }
    }
}

/// The whole structure pass.
pub open spec fn spec_parse_to_nodes(s: Seq<char>) -> Seq<MTextNodeV> {
    spec_mtext_parse(s, 0, Seq::empty(), Seq::empty(), Seq::empty()).0
}

fn contains_char(v: &Vec<char>, c: char) -> (r: bool)
    ensures
        r == v@.contains(c),
{
    let n: usize = v.len();
    let mut i: usize = 0;
    while i < n
        invariant
            0 <= i <= n,
            n == v@.len(),
            forall|k: int| 0 <= k < i ==> v@[k] != c,
        decreases n - i,
    {
        if v[i] == c {
            return true;
        }
        i = i + 1;
    }
    false
}

fn stack_separators() -> (r: Vec<char>)
    ensures
        r@ == seq!['^', '#', '/'],
{
    let mut v: Vec<char> = Vec::new();
    v.push('^');
    v.push('#');
    v.push('/');
    proof {
        assert(v@ =~= seq!['^', '#', '/']);
    }
    v
}

fn semicolon_only() -> (r: Vec<char>)
    ensures
        r@ == seq![';'],
{
    let mut v: Vec<char> = Vec::new();
    v.push(';');
    proof {
        assert(v@ =~= seq![';']);
    }
    v
}

fn closing_brace_only() -> (r: Vec<char>)
    ensures
        r@ == seq!['}'],
{
    let mut v: Vec<char> = Vec::new();
    v.push('}');
    proof {
        assert(v@ =~= seq!['}']);
    }
    v
}

/// Moves the pending text run, if any, into the node list.
fn flush_text(acc: &mut Vec<MTextNode>, buf: &mut Vec<char>)
    ensures
        spec_mtext_nodes_view(final(acc)@) == spec_flush(
            spec_mtext_nodes_view(old(acc)@),
            old(buf)@,
        ),
        final(buf)@.len() == 0,
{
    if buf.len() > 0 {
        let ghost before = acc@;
        let t: String = string_from_chars(buf);
        acc.push(MTextNode::Text(t));
        proof {
            lemma_mtext_nodes_view_push(before, acc@[acc@.len() - 1]);
            assert(spec_mtext_nodes_view(acc@) =~= spec_flush(
                spec_mtext_nodes_view(before),
                buf@,
            ));
        }
        *buf = Vec::new();
    }
}

/// One backslash command at `s[i]`, as [`spec_parse_mtext_command`] says.
fn mtext_command_at(s: &Vec<char>, i: usize) -> (r: (Option<MTextCommand>, usize))
    requires
        i < s@.len(),
    ensures
        ({
            let (cv, p) = spec_parse_mtext_command(s@, i as int);
            &&& match r.0 {
                Some(c) => cv == Some(c@),
                None => cv is None,
            }
            &&& r.1 == p
            &&& i < r.1 <= s@.len()
        }),
{
    let n: usize = s.len();
    let c: char = s[i];
    match c {
        'O' => {
            return (Some(MTextCommand::OStart), i + 1);
        },
        'o' => {
            return (Some(MTextCommand::OEnd), i + 1);
        },
        'L' => {
            return (Some(MTextCommand::LStart), i + 1);
        },
        'l' => {
            return (Some(MTextCommand::LEnd), i + 1);
        },
        'K' => {
            return (Some(MTextCommand::KStart), i + 1);
        },
        'k' => {
            return (Some(MTextCommand::KEnd), i + 1);
        },
        'P' => {
            return (Some(MTextCommand::P), i + 1);
        },
        _ => {},
    }
    let mut j: usize = i + 1;
    while j < n && s[j] != ';'
        invariant
            i + 1 <= j <= n,
            n == s@.len(),
            spec_find_semi(s@, i + 1) == spec_find_semi(s@, j as int),
        decreases n - j,
    {
        j = j + 1;
    }
    proof {
        assert(j == spec_find_semi(s@, i + 1));
    }
    let mut seg: Vec<char> = Vec::new();
    let mut k: usize = i + 1;
    while k < j
        invariant
            i + 1 <= k <= j <= n,
            n == s@.len(),
            seg@ == s@.subrange(i + 1, k as int),
        decreases j - k,
    {
        seg.push(s[k]);
        proof {
            assert(s@.subrange(i + 1, k as int).push(s@[k as int]) =~= s@.subrange(i + 1, k + 1));
        }
        k = k + 1;
    }
    let after: usize = if j < n {
        j + 1
    } else {
        n
    };
    if c == 'H' {
        if seg.len() > 0 && seg[seg.len() - 1] == 'x' {
            let mut head: Vec<char> = Vec::new();
            let mut k2: usize = 0;
            while k2 < seg.len() - 1
                invariant
                    0 <= k2 <= seg@.len() - 1,
                    seg@.len() > 0,
                    head@ == seg@.subrange(0, k2 as int),
                decreases seg@.len() - 1 - k2,
            {
                head.push(seg[k2]);
                proof {
                    assert(seg@.subrange(0, k2 as int).push(seg@[k2 as int]) =~= seg@.subrange(
                        0,
                        k2 + 1,
                    ));
                }
                k2 = k2 + 1;
            }
            proof {
                assert(head@ =~= seg@.drop_last());
            }
            if is_float_literal_chars(&head) {
                (Some(MTextCommand::Hx(Float64 { text: string_from_chars(&head) })), after)
            } else {
                (None, after)
            }
        } else {
            if is_float_literal_chars(&seg) {
                (Some(MTextCommand::H(Float64 { text: string_from_chars(&seg) })), after)
            } else {
                (None, after)
            }
        }
    } else if c == 'C' {
        match parse_i16_chars(&seg) {
            Some(v) => (Some(MTextCommand::C(v)), after),
            None => (None, after),
        }
    } else if c == 'T' {
        if is_float_literal_chars(&seg) {
            (Some(MTextCommand::T(Float64 { text: string_from_chars(&seg) })), after)
        } else {
            (None, after)
        }
    } else if c == 'Q' {
        if is_float_literal_chars(&seg) {
            (Some(MTextCommand::Q(Float64 { text: string_from_chars(&seg) })), after)
        } else {
            (None, after)
        }
    } else if c == 'W' {
        if is_float_literal_chars(&seg) {
            (Some(MTextCommand::W(Float64 { text: string_from_chars(&seg) })), after)
        } else {
            (None, after)
        }
    } else if c == 'F' || c == 'f' {
        (Some(MTextCommand::F(string_from_chars(&seg))), after)
    } else if c == 'A' {
        match parse_i16_chars(&seg) {
            Some(0i16) => (Some(MTextCommand::A(MTextAlignment::Bottom)), after),
            Some(1i16) => (Some(MTextCommand::A(MTextAlignment::Center)), after),
            Some(2i16) => (Some(MTextCommand::A(MTextAlignment::Top)), after),
            _ => (None, after),
        }
    } else {
        (None, i + 1)
    }
}

/// The recursive-descent scan, as [`spec_mtext_parse`] says (with empty
/// pending text and an empty node list to start from).
fn mtext_parse_at(s: &Vec<char>, pos: usize, ends: &Vec<char>) -> (r: (
    Vec<MTextNode>,
    Option<char>,
    usize,
))
    requires
        pos <= s@.len(),
    ensures
        ({
            let (nodes, sep, p) = spec_mtext_parse(
                s@,
                pos as int,
                ends@,
                Seq::empty(),
                Seq::empty(),
            );
            &&& spec_mtext_nodes_view(r.0@) == nodes
            &&& r.1 == sep
            &&& r.2 == p
            &&& pos <= r.2 <= s@.len()
        }),
    decreases s@.len() - pos,
{
    let n: usize = s.len();
    let mut acc: Vec<MTextNode> = Vec::new();
    let mut buf: Vec<char> = Vec::new();
    let mut cur: usize = pos;
    proof {
        assert(spec_mtext_nodes_view(acc@) =~= Seq::<MTextNodeV>::empty());
    }
    loop
        invariant
            pos <= cur <= n,
            n == s@.len(),
            buf@.len() == 0 || cur > pos,
            spec_mtext_parse(s@, pos as int, ends@, Seq::empty(), Seq::empty())
                == spec_mtext_parse(
                s@,
                cur as int,
                ends@,
                buf@,
                spec_mtext_nodes_view(acc@),
            ),
        decreases n - cur,
    {
        if cur >= n {
            flush_text(&mut acc, &mut buf);
            return (acc, None, n);
        }
        let c: char = s[cur];
        if c == '\\' {
            if cur + 1 >= n {
                flush_text(&mut acc, &mut buf);
                return (acc, None, n);
            }
            let c2: char = s[cur + 1];
            if c2 == '\\' || c2 == '{' || c2 == '}' {
                buf.push(c2);
                cur = cur + 2;
            } else if c2 == 'S' {
                let ghost buf0 = buf@;
                let ghost accv0 = spec_mtext_nodes_view(acc@);
                let seps: Vec<char> = stack_separators();
                let (n1, sep, p1) = mtext_parse_at(s, cur + 2, &seps);
                let semi: Vec<char> = semicolon_only();
                let (n2, _, p2) = mtext_parse_at(s, p1, &semi);
                let ghost n1v = spec_mtext_nodes_view(n1@);
                let ghost n2v = spec_mtext_nodes_view(n2@);
                let st: MTextStackType = match sep {
                    Some('/') => MTextStackType::Slash,
                    Some('#') => MTextStackType::Number,
                    _ => MTextStackType::Hat,
                };
                flush_text(&mut acc, &mut buf);
                let ghost before = acc@;
                acc.push(MTextNode::Stacked(n1, n2, st));
                proof {
                    lemma_mtext_nodes_view_push(before, acc@[acc@.len() - 1]);
                    assert(spec_mtext_nodes_view(acc@) =~= spec_flush(accv0, buf0).push(
                        MTextNodeV::Stacked(n1v, n2v, st),
                    ));
                    assert(buf@ =~= Seq::<char>::empty());
                }
                cur = p2;
            } else {
                let (cmd, p1) = mtext_command_at(s, cur + 1);
                match cmd {
                    Some(cv) => {
                        let ghost cvv = cv@;
                        let ghost buf0 = buf@;
                        let ghost accv0 = spec_mtext_nodes_view(acc@);
                        flush_text(&mut acc, &mut buf);
                        let ghost before = acc@;
                        acc.push(MTextNode::Command(cv));
                        proof {
                            lemma_mtext_nodes_view_push(before, acc@[acc@.len() - 1]);
                            assert(spec_mtext_nodes_view(acc@) =~= spec_flush(accv0, buf0).push(
                                MTextNodeV::Command(cvv),
                            ));
                            assert(buf@ =~= Seq::<char>::empty());
                        }
                    },
                    None => {},
                }
                cur = p1;
            }
        } else if contains_char(ends, c) {
            flush_text(&mut acc, &mut buf);
            return (acc, Some(c), cur + 1);
        } else if c == '{' {
            let ghost buf0 = buf@;
            let ghost accv0 = spec_mtext_nodes_view(acc@);
            let rb: Vec<char> = closing_brace_only();
            let (inner, _, p1) = mtext_parse_at(s, cur + 1, &rb);
            let ghost innerv = spec_mtext_nodes_view(inner@);
            flush_text(&mut acc, &mut buf);
            let ghost before = acc@;
            acc.push(MTextNode::Block(inner));
            proof {
                lemma_mtext_nodes_view_push(before, acc@[acc@.len() - 1]);
                assert(spec_mtext_nodes_view(acc@) =~= spec_flush(accv0, buf0).push(
                    MTextNodeV::Block(innerv),
                ));
                assert(buf@ =~= Seq::<char>::empty());
            }
            cur = p1;
        } else {
            buf.push(c);
            cur = cur + 1;
        }
    }
}

/// Decodes an already-substituted string into its formatting tree, as
/// [`spec_parse_to_nodes`] says.
pub fn parse_to_nodes(s: &str) -> (r: Vec<MTextNode>)
    ensures
        spec_mtext_nodes_view(r@) == spec_parse_to_nodes(s@),
{
    let cs: Vec<char> = chars_of(s);
    let ends: Vec<char> = Vec::new();
    let (nodes, _, _) = mtext_parse_at(&cs, 0, &ends);
    nodes
}

impl MTextFormatString {
    /// Runs both passes on the raw text: control-code substitution, then
    /// the structure parse of the substituted text.
    pub fn parse_and_build_nodes(&mut self)
        ensures
            final(self)@.raw == spec_parse_control_codes(old(self)@.raw),
            final(self)@.nodes == spec_parse_to_nodes(spec_parse_control_codes(old(self)@.raw)),
    {
        let substituted: String = parse_control_codes(self.raw.as_str());
        let nodes: Vec<MTextNode> = parse_to_nodes(substituted.as_str());
        self.raw = substituted;
        self.nodes = nodes;
    }
}

impl Default for MTextFormatString {
    /// The empty text, with no nodes.
    fn default() -> (r: MTextFormatString)
        ensures
            r@.raw.len() == 0,
            r@.nodes.len() == 0,
    {
        MTextFormatString { raw: String::new(), nodes: Vec::new() }
    }
}

} // verus!
