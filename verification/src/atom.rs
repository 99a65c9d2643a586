//! The tokenizer: turns the input's alternating code/value lines into typed
//! atoms, and re-emits atoms as lines.
use crate::chars::chars_of;
use crate::chars::spec_lines;
use crate::chars::spec_trim;
use crate::chars::split_lines;
use crate::chars::string_from_chars;
use crate::chars::trim_chars;
use crate::numstr::fmt_i16_chars;
use crate::numstr::spec_fmt_int;
use crate::numstr::spec_parse_i16;
use crate::numstr::parse_i16_chars;
use crate::value::spec_typed_value;
use crate::value::typed_value_of;
use crate::value::Value;
use crate::value::ValueV;
use crate::ParseError;
use crate::ParseResult;
use vstd::prelude::*;

verus! {

/// One group-code/value pair. `raw` is the value line exactly as read
/// (trimmed), `value` its typed form under `code`; the tokenizer
/// establishes `spec_typed_value(code, raw@) == Some(value@)`.
#[derive(Debug, Clone, PartialEq)]
pub struct Atom {
    pub code: i16,
    pub raw: String,
    pub value: Value,
}

/// Mathematical model of an [`Atom`].
pub struct AtomV {
    pub code: i16,
    pub raw: Seq<char>,
    pub value: ValueV,
}

impl View for Atom {
    type V = AtomV;

    open spec fn view(&self) -> AtomV {
        AtomV { code: self.code, raw: self.raw@, value: self.value@ }
    }
}

impl DeepView for Atom {
    type V = AtomV;

    open spec fn deep_view(&self) -> AtomV {
        self.view()
    }
}

/// Mathematical model of a [`ParseError`].
pub enum ParseErrorV {
    ParseIntError(Seq<char>),
    ParseFloatError(Seq<char>),
    TruncatedPair(Seq<char>),
    EncodingError,
    StructureError,
}

impl View for ParseError {
    type V = ParseErrorV;

    open spec fn view(&self) -> ParseErrorV {
        match self {
            ParseError::ParseIntError(l) => ParseErrorV::ParseIntError(l@),
            ParseError::ParseFloatError(l) => ParseErrorV::ParseFloatError(l@),
            ParseError::TruncatedPair(l) => ParseErrorV::TruncatedPair(l@),
            ParseError::EncodingError => ParseErrorV::EncodingError,
            ParseError::StructureError => ParseErrorV::StructureError,
        }
    }
}

impl DeepView for ParseError {
    type V = ParseErrorV;

    open spec fn deep_view(&self) -> ParseErrorV {
        self.view()
    }
}

/// The atom one line pair yields: the trimmed first line must parse as a
/// 16-bit code, and the trimmed second line must coerce to the type the
/// code mandates.
pub open spec fn spec_atom(l0: Seq<char>, l1: Seq<char>) -> Option<AtomV> {
    match spec_parse_i16(spec_trim(l0)) {
        Some(code) => match spec_typed_value(code, spec_trim(l1)) {
            Some(v) => Some(AtomV { code, raw: spec_trim(l1), value: v }),
            None => None,
        },
        None => None,
    }
}

/// The error a failing line pair reports: the offending trimmed line,
/// under the kind of coercion that failed.
pub open spec fn spec_atom_err(l0: Seq<char>, l1: Seq<char>) -> ParseErrorV {
    match spec_parse_i16(spec_trim(l0)) {
        Some(code) => if crate::value::is_float_code(code) {
            ParseErrorV::ParseFloatError(spec_trim(l1))
        } else {
            ParseErrorV::ParseIntError(spec_trim(l1))
        },
        None => ParseErrorV::ParseIntError(spec_trim(l0)),
    }
}

/// The whole tokenizer on a line sequence: pairs are consumed in order;
/// the first failing pair's error is reported; a dangling final line is a
/// truncated pair.
pub open spec fn spec_parse_lines(lines: Seq<Seq<char>>) -> Result<Seq<AtomV>, ParseErrorV>
    decreases lines.len(),
{
    if lines.len() == 0 {
        Ok(Seq::empty())
    } else if lines.len() == 1 {
        Err(ParseErrorV::TruncatedPair(lines[0]))
    } else {
        match spec_atom(lines[0], lines[1]) {
            Some(a) => match spec_parse_lines(lines.skip(2)) {
                Ok(rest) => Ok(seq![a] + rest),
                Err(e) => Err(e),
            },
            None => Err(spec_atom_err(lines[0], lines[1])),
        }
    }
}

// ---------------------------------------------------------------------
// re-emission
/// The two lines an atom re-emits as: its code in canonical decimal, then
/// its raw value line.
pub open spec fn spec_emit(atoms: Seq<AtomV>) -> Seq<Seq<char>>
    decreases atoms.len(),
{
    if atoms.len() == 0 {
        Seq::empty()
    } else {
        seq![spec_fmt_int(atoms[0].code as int), atoms[0].raw] + spec_emit(atoms.drop_first())
    }
}

/// The canonical form of a tokenized line sequence: code lines in
/// canonical decimal, value lines trimmed.
pub open spec fn spec_canonical_lines(lines: Seq<Seq<char>>) -> Seq<Seq<char>>
    decreases lines.len(),
{
    if lines.len() < 2 {
        Seq::empty()
    } else {
        let code: int = match spec_parse_i16(spec_trim(lines[0])) {
            Some(c) => c as int,
            None => 0,
        };
        seq![spec_fmt_int(code), spec_trim(lines[1])] + spec_canonical_lines(lines.skip(2))
    }
}

/// Tokenizing then re-emitting reproduces the input lines, canonicalized:
/// only numeric re-formatting of the code line and edge trimming change.
pub proof fn lemma_tokenize_emit_round_trip(lines: Seq<Seq<char>>, atoms: Seq<AtomV>)
    requires
        spec_parse_lines(lines) == Ok::<Seq<AtomV>, ParseErrorV>(atoms),
    ensures
        spec_emit(atoms) == spec_canonical_lines(lines),
    decreases lines.len(),
{
    if lines.len() == 0 {
        assert(atoms =~= Seq::<AtomV>::empty());
    } else if lines.len() == 1 {
        // spec_parse_lines is an error here; nothing to show
    } else {
        let a = spec_atom(lines[0], lines[1])->Some_0;
        let rest = spec_parse_lines(lines.skip(2))->Ok_0;
        lemma_tokenize_emit_round_trip(lines.skip(2), rest);
        assert(atoms == seq![a] + rest);
        assert(atoms.len() >= 1);
        assert(atoms[0] == a);
        assert(atoms.drop_first() =~= rest);
        assert(spec_emit(atoms) == seq![spec_fmt_int(a.code as int), a.raw] + spec_emit(rest));
    }
}

/// Every atom the tokenizer yields is well-typed: its value is the typed
/// form of its raw line under its code.
pub proof fn lemma_parse_lines_well_typed(lines: Seq<Seq<char>>, atoms: Seq<AtomV>)
    requires
        spec_parse_lines(lines) == Ok::<Seq<AtomV>, ParseErrorV>(atoms),
    ensures
        forall|i: int|
            0 <= i < atoms.len() ==> spec_typed_value(#[trigger] atoms[i].code, atoms[i].raw)
                == Some(atoms[i].value),
    decreases lines.len(),
{
    if lines.len() == 0 {
        assert(atoms =~= Seq::<AtomV>::empty());
    } else if lines.len() >= 2 {
        let a = spec_atom(lines[0], lines[1])->Some_0;
        let rest = spec_parse_lines(lines.skip(2))->Ok_0;
        lemma_parse_lines_well_typed(lines.skip(2), rest);
        assert(atoms == seq![a] + rest);
        assert forall|i: int|
            0 <= i < atoms.len() implies spec_typed_value(
            #[trigger] atoms[i].code,
            atoms[i].raw,
        ) == Some(atoms[i].value) by {
            if i > 0 {
                assert(atoms[i] == rest[i - 1]);
            }
        }
    }
}

impl Atom {
    /// Tokenizes one line pair, as [`spec_atom`] / [`spec_atom_err`] say.
    pub fn parse_line_pair(line1: &str, line2: &str) -> (r: ParseResult<Atom>)
        ensures
            match r {
                Ok(a) => spec_atom(line1@, line2@) == Some(a@),
                Err(e) => spec_atom(line1@, line2@) is None && e@ == spec_atom_err(
                    line1@,
                    line2@,
                ),
            },
    {
        let l0: Vec<char> = chars_of(line1);
        let l1: Vec<char> = chars_of(line2);
        Atom::from_line_pair_chars(&l0, &l1)
    }

    /// Tokenizes one line pair given as character vectors.
    fn from_line_pair_chars(l0: &Vec<char>, l1: &Vec<char>) -> (r: ParseResult<Atom>)
        ensures
            match r {
                Ok(a) => spec_atom(l0@, l1@) == Some(a@),
                Err(e) => spec_atom(l0@, l1@) is None && e@ == spec_atom_err(l0@, l1@),
            },
    {
        let code_line: Vec<char> = trim_chars(l0);
        let code: i16 = match parse_i16_chars(&code_line) {
            Some(c) => c,
            None => {
                return Err(ParseError::ParseIntError(string_from_chars(&code_line)));
            },
        };
        let raw: Vec<char> = trim_chars(l1);
        match typed_value_of(code, &raw) {
            Ok(v) => Ok(Atom { code, raw: string_from_chars(&raw), value: v }),
            Err(e) => Err(e),
        }
    }

    /// Tokenizes a line list: pairs in order, as [`spec_parse_lines`] says.
    pub fn parse_lines(lines: &[&str]) -> (r: ParseResult<Vec<Atom>>)
        ensures
            match r {
                Ok(atoms) => spec_parse_lines(lines.deep_view()) == Ok::<Seq<AtomV>, ParseErrorV>(
                    atoms.deep_view(),
                ),
                Err(e) => spec_parse_lines(lines.deep_view()) == Err::<Seq<AtomV>, ParseErrorV>(
                    e@,
                ),
            },
    {
        let n: usize = lines.len();
        let mut line_vecs: Vec<Vec<char>> = Vec::new();
        let mut i: usize = 0;
        while i < n
            invariant
                0 <= i <= n,
                n == lines@.len(),
                line_vecs.deep_view() == lines.deep_view().take(i as int),
            decreases n - i,
        {
            let ghost old_dv = line_vecs.deep_view();
            line_vecs.push(chars_of(lines[i]));
            proof {
                assert(line_vecs.deep_view() =~~= old_dv.push(lines.deep_view()[i as int]));
                assert(old_dv.push(lines.deep_view()[i as int]) =~= lines.deep_view().take(
                    i + 1,
                ));
            }
            i = i + 1;
        }
        proof {
            assert(lines.deep_view().take(n as int) =~= lines.deep_view());
        }
        Atom::parse_line_vecs(&line_vecs)
    }

    /// Tokenizes lines given as character vectors; the shared core.
    fn parse_line_vecs(lines: &Vec<Vec<char>>) -> (r: ParseResult<Vec<Atom>>)
        ensures
            match r {
                Ok(atoms) => spec_parse_lines(lines.deep_view()) == Ok::<Seq<AtomV>, ParseErrorV>(
                    atoms.deep_view(),
                ),
                Err(e) => spec_parse_lines(lines.deep_view()) == Err::<Seq<AtomV>, ParseErrorV>(
                    e@,
                ),
            },
    {
        let ghost ldv = lines.deep_view();
        let n: usize = lines.len();
        let mut out: Vec<Atom> = Vec::new();
        let mut i: usize = 0;
        proof {
            assert(ldv.skip(0) =~= ldv);
            assert(ldv.len() == n);
        }
        while i < n
            invariant
                0 <= i <= n,
                n == lines@.len(),
                ldv == lines.deep_view(),
                ldv.len() == n,
                match spec_parse_lines(ldv.skip(i as int)) {
                    Ok(rest) => spec_parse_lines(ldv) == Ok::<Seq<AtomV>, ParseErrorV>(
                        out.deep_view() + rest,
                    ),
                    Err(e) => spec_parse_lines(ldv) == Err::<Seq<AtomV>, ParseErrorV>(e),
                },
            decreases n - i,
        {
            let ghost tail = ldv.skip(i as int);
            proof {
                assert(tail[0] == ldv[i as int]);
                assert(ldv[i as int] =~= lines@[i as int]@);
            }
            if i + 1 == n {
                proof {
                    assert(tail.len() == 1);
                    assert(spec_parse_lines(tail) == Err::<Seq<AtomV>, ParseErrorV>(
                        ParseErrorV::TruncatedPair(tail[0]),
                    ));
                }
                return Err(ParseError::TruncatedPair(string_from_chars(&lines[i])));
            }
            proof {
                assert(tail.len() >= 2);
                assert(tail[1] == ldv[i + 1]);
                assert(ldv[i + 1] =~= lines@[i + 1]@);
            }
            let a: Atom = match Atom::from_line_pair_chars(&lines[i], &lines[i + 1]) {
                Ok(a) => a,
                Err(e) => {
                    proof {
                        assert(spec_parse_lines(tail) == Err::<Seq<AtomV>, ParseErrorV>(e@));
                    }
                    return Err(e);
                },
            };
            let ghost old_out = out.deep_view();
            out.push(a);
            proof {
                assert(out.deep_view() =~~= old_out.push(a@));
                assert(tail.skip(2) =~= ldv.skip(i + 2));
                assert(spec_atom(tail[0], tail[1]) == Some(a@));
                match spec_parse_lines(ldv.skip(i + 2)) {
                    Ok(rest) => {
                        assert(spec_parse_lines(tail) == Ok::<Seq<AtomV>, ParseErrorV>(
                            seq![a@] + rest,
                        ));
                        assert(old_out + (seq![a@] + rest) =~= out.deep_view() + rest);
                    },
                    Err(e) => {
                        assert(spec_parse_lines(tail) == Err::<Seq<AtomV>, ParseErrorV>(e));
                    },
                }
            }
            i = i + 2;
        }
        proof {
            assert(ldv.skip(n as int).len() == 0);
            assert(spec_parse_lines(ldv.skip(n as int)) == Ok::<Seq<AtomV>, ParseErrorV>(
                Seq::empty(),
            ));
            assert(out.deep_view() + Seq::<AtomV>::empty() =~= out.deep_view());
        }
        Ok(out)
    }

    /// Tokenizes whole input text: split into lines, then pairs. On
    /// success, re-emitting the atoms reproduces the input lines in
    /// canonical form ([`spec_canonical_lines`]).
    pub fn parse_str(s: &str) -> (r: ParseResult<Vec<Atom>>)
        ensures
            match r {
                Ok(atoms) => spec_parse_lines(spec_lines(s@)) == Ok::<Seq<AtomV>, ParseErrorV>(
                    atoms.deep_view(),
                ) && spec_emit(atoms.deep_view()) == spec_canonical_lines(spec_lines(s@)),
                Err(e) => spec_parse_lines(spec_lines(s@)) == Err::<Seq<AtomV>, ParseErrorV>(e@),
            },
    {
        let cs: Vec<char> = chars_of(s);
        let line_vecs: Vec<Vec<char>> = split_lines(&cs);
        let r: ParseResult<Vec<Atom>> = Atom::parse_line_vecs(&line_vecs);
        proof {
            match &r {
                Ok(atoms) => lemma_tokenize_emit_round_trip(spec_lines(s@), atoms.deep_view()),
                Err(_) => (),
            }
        }
        r
    }

    /// A copy of this atom. Atoms are already owned; the copy is equal.
    pub fn to_owned(&self) -> (r: Atom)
        ensures
            r@ == self@,
    {
        Atom { code: self.code, raw: clone_string(&self.raw), value: clone_value(&self.value) }
    }

    /// Re-emits atoms as lines: each atom's code in canonical decimal,
    /// then its raw value line, as [`spec_emit`] says.
    pub fn emit_lines(atoms: &Vec<Atom>) -> (r: Vec<String>)
        ensures
            r.deep_view() == spec_emit(atoms.deep_view()),
    {
        let n: usize = atoms.len();
        let mut out: Vec<String> = Vec::new();
        let mut i: usize = 0;
        proof {
            assert(atoms.deep_view().skip(0) =~= atoms.deep_view());
            assert(Seq::<Seq<char>>::empty() + spec_emit(atoms.deep_view()) =~= spec_emit(
                atoms.deep_view(),
            ));
        }
        while i < n
            invariant
                0 <= i <= n,
                n == atoms@.len(),
                out.deep_view() + spec_emit(atoms.deep_view().skip(i as int)) == spec_emit(
                    atoms.deep_view(),
                ),
            decreases n - i,
        {
            let ghost tail = atoms.deep_view().skip(i as int);
            proof {
                assert(tail[0] == atoms.deep_view()[i as int]);
                assert(tail.drop_first() =~= atoms.deep_view().skip(i + 1));
            }
            let code_chars: Vec<char> = fmt_i16_chars(atoms[i].code);
            let ghost before = out.deep_view();
            out.push(string_from_chars(&code_chars));
            out.push(clone_string(&atoms[i].raw));
            proof {
                let adv = atoms.deep_view();
                assert(out.deep_view() =~~= before.push(spec_fmt_int(adv[i as int].code as int))
                    .push(adv[i as int].raw));
                assert(before.push(spec_fmt_int(adv[i as int].code as int)).push(
                    adv[i as int].raw,
                ) + spec_emit(adv.skip(i + 1)) =~= before + (seq![
                    spec_fmt_int(adv[i as int].code as int),
                    adv[i as int].raw,
                ] + spec_emit(adv.skip(i + 1))));
            }
            i = i + 1;
        }
        proof {
            assert(atoms.deep_view().skip(n as int).len() == 0);
            assert(out.deep_view() + Seq::<Seq<char>>::empty() =~= out.deep_view());
        }
        out
    }
}

/// A copy of a string, equal in contents.
pub(crate) fn clone_string(s: &String) -> (r: String)
    ensures
        r@ == s@,
{
    s.clone()
}

/// A copy of a value, equal in model.
pub(crate) fn clone_value(v: &Value) -> (r: Value)
    ensures
        r@ == v@,
{
    match v {
        Value::String(s) => Value::String(clone_string(s)),
        Value::F64(f) => Value::F64(crate::value::Float64 { text: clone_string(&f.text) }),
        Value::I16(x) => Value::I16(*x),
        Value::I32(x) => Value::I32(*x),
        Value::I64(x) => Value::I64(*x),
        Value::Bool(x) => Value::Bool(*x),
        Value::Handle(x) => Value::Handle(*x),
        Value::Bytes(b) => Value::Bytes(clone_bytes(b)),
    }
}

/// A copy of a byte vector, equal in contents.
fn clone_bytes(b: &Vec<u8>) -> (r: Vec<u8>)
    ensures
        r@ == b@,
{
    let n: usize = b.len();
    let mut r: Vec<u8> = Vec::new();
    let mut i: usize = 0;
    while i < n
        invariant
            0 <= i <= n,
            n == b@.len(),
            r@ == b@.take(i as int),
        decreases n - i,
    {
        r.push(b[i]);
        proof {
            assert(b@.take(i as int).push(b@[i as int]) =~= b@.take(i + 1));
        }
        i = i + 1;
    }
    proof {
        assert(b@.take(n as int) =~= b@);
    }
    r
}

} // verus!
