//! Typed values: the closed union a group code's numeric range selects, and
//! the classification of a raw value line by its group code.
//!
//! Float values are carried as text, validated against the grammar that
//! std's float `FromStr` documents; a consumer parses the text to a binary
//! float outside this crate. Nothing here does float arithmetic.
use crate::chars::string_from_chars;
use crate::numstr::all_dec_digits;
use crate::numstr::is_dec_digit;
use crate::numstr::spec_parse_hex_bytes;
use crate::numstr::spec_parse_hex_u32;
use crate::numstr::spec_parse_i16;
use crate::numstr::spec_parse_i32;
use crate::numstr::spec_parse_i64;
use crate::numstr::dec_digit_of;
use crate::numstr::parse_hex_bytes_chars;
use crate::numstr::parse_hex_u32_chars;
use crate::numstr::parse_i16_chars;
use crate::numstr::parse_i32_chars;
use crate::numstr::parse_i64_chars;
use crate::ParseError;
use vstd::prelude::*;

verus! {

/// A 64-bit float value, carried as the text it was written as. The text
/// is kept exactly as read, so nothing is lost to binary conversion; it
/// matches the grammar of std's float `FromStr` whenever it came from the
/// tokenizer ([`is_float_literal`]).
#[derive(Debug, Clone, PartialEq)]
pub struct Float64 {
    pub text: String,
}

impl View for Float64 {
    type V = Seq<char>;

    open spec fn view(&self) -> Seq<char> {
        self.text@
    }
}

impl DeepView for Float64 {
    type V = Seq<char>;

    open spec fn deep_view(&self) -> Seq<char> {
        self.text@
    }
}

impl Float64 {
    /// A float holding exactly this text.
    pub fn from_text(text: String) -> (r: Float64)
        ensures
            r@ == text@,
    {
        Float64 { text }
    }
}

impl Default for Float64 {
    /// The zero value, written `"0"`.
    fn default() -> (r: Float64)
        ensures
            r@ == spec_float_zero(),
    {
        Float64 { text: zero_text() }
    }
}

pub open spec fn spec_float_zero() -> Seq<char> {
    seq!['0']
}

fn zero_text() -> (r: String)
    ensures
        r@ == spec_float_zero(),
{
    let mut r: String = String::new();
    crate::chars::push_char(&mut r, '0');
    proof {
        assert(Seq::<char>::empty().push('0') =~= seq!['0']);
    }
    r
}

// ---------------------------------------------------------------------
// the float literal grammar of std's `FromStr`:
//   Float  ::= Sign? ( 'inf' | 'infinity' | 'nan' | Number )
//   Number ::= Count '.'? Exp? | Count '.' Count Exp? | '.' Count Exp?
//   Exp    ::= ('e' | 'E') Sign? Count
//   Count  ::= Digit+
// with the keywords case-insensitive.
/// The mantissa form: digits and at most one dot, at least one digit.
pub open spec fn is_float_mantissa(s: Seq<char>) -> bool {
    &&& s.len() > 0
    &&& forall|i: int| 0 <= i < s.len() ==> is_dec_digit(s[i]) || s[i] == '.'
    &&& exists|i: int| 0 <= i < s.len() && is_dec_digit(s[i])
    &&& forall|i: int, j: int| 0 <= i < j < s.len() && s[i] == '.' ==> s[j] != '.'
}

/// The exponent form: `'e'` or `'E'`, an optional sign, one or more digits.
pub open spec fn is_float_exp(s: Seq<char>) -> bool {
    &&& s.len() >= 2
    &&& (s[0] == 'e' || s[0] == 'E')
    &&& {
        let t = s.drop_first();
        if t[0] == '+' || t[0] == '-' {
            t.len() > 1 && all_dec_digits(t.drop_first())
        } else {
            all_dec_digits(t)
        }
    }
}

/// Index of the first `'e'` or `'E'` in `s`, or `s.len()`.
pub open spec fn first_exp_mark(s: Seq<char>) -> int
    decreases s.len(),
{
    if s.len() == 0 {
        0
    } else if s[0] == 'e' || s[0] == 'E' {
        0
    } else {
        1 + first_exp_mark(s.drop_first())
    }
}

/// The number form: a mantissa, then an optional exponent. A mantissa has
/// no exponent mark, so the split at the first mark is the only one.
pub open spec fn is_float_number(s: Seq<char>) -> bool {
    let k = first_exp_mark(s);
    if 0 <= k <= s.len() {
        is_float_mantissa(s.subrange(0, k)) && (k == s.len() || is_float_exp(
            s.subrange(k, s.len() as int),
        ))
    } else {
        false
    }
}

/// ASCII lower-casing of one character.
pub open spec fn lower_ascii(c: char) -> char {
    if c == 'I' {
        'i'
    } else if c == 'N' {
        'n'
    } else if c == 'F' {
        'f'
    } else if c == 'A' {
        'a'
    } else if c == 'T' {
        't'
    } else if c == 'Y' {
        'y'
    } else {
        c
    }
}

/// Case-insensitive match against a lower-case keyword.
pub open spec fn eq_keyword(s: Seq<char>, kw: Seq<char>) -> bool {
    s.len() == kw.len() && forall|i: int| 0 <= i < s.len() ==> lower_ascii(s[i]) == kw[i]
}

/// The full float literal grammar of std's `FromStr`.
pub open spec fn is_float_literal(s: Seq<char>) -> bool {
    let t = if s.len() > 0 && (s[0] == '+' || s[0] == '-') {
        s.drop_first()
    } else {
        s
    };
    ||| eq_keyword(t, seq!['i', 'n', 'f'])
    ||| eq_keyword(t, seq!['i', 'n', 'f', 'i', 'n', 'i', 't', 'y'])
    ||| eq_keyword(t, seq!['n', 'a', 'n'])
    ||| is_float_number(t)
}

fn lower_ascii_char(c: char) -> (r: char)
    ensures
        r == lower_ascii(c),
{
    match c {
        'I' => 'i',
        'N' => 'n',
        'F' => 'f',
        'A' => 'a',
        'T' => 't',
        'Y' => 'y',
        _ => c,
    }
}

/// Checks the mantissa form over `s[start..end]`.
fn check_mantissa(s: &Vec<char>, start: usize, end: usize) -> (r: bool)
    requires
        start <= end <= s@.len(),
    ensures
        r == is_float_mantissa(s@.subrange(start as int, end as int)),
{
    let ghost t = s@.subrange(start as int, end as int);
    if start == end {
        return false;
    }
    let mut saw_digit: bool = false;
    let mut saw_dot: bool = false;
    let mut i: usize = start;
    while i < end
        invariant
            start <= i <= end <= s@.len(),
            t == s@.subrange(start as int, end as int),
            forall|j: int| start <= j < i ==> is_dec_digit(s@[j]) || s@[j] == '.',
            saw_digit == exists|j: int| start <= j < i && is_dec_digit(s@[j]),
            saw_dot == exists|j: int| start <= j < i && s@[j] == '.',
            forall|j1: int, j2: int|
                start <= j1 < j2 < i && s@[j1] == '.' ==> s@[j2] != '.',
        decreases end - i,
    {
        let c: char = s[i];
        if dec_digit_of(c).is_some() {
            saw_digit = true;
        } else if c == '.' {
            if saw_dot {
                proof {
                    let j1 = choose|j: int| start <= j < i && s@[j] == '.';
                    assert(t[j1 - start] == s@[j1] && t[i - start] == s@[i as int]);
                }
                return false;
            }
            saw_dot = true;
        } else {
            proof {
                assert(t[i - start] == s@[i as int]);
            }
            return false;
        }
        i = i + 1;
    }
    proof {
        assert forall|j: int| 0 <= j < t.len() implies (is_dec_digit(t[j]) || t[j] == '.') by {
            assert(t[j] == s@[start + j]);
        }
        if saw_digit {
            let j = choose|j: int| start <= j < end && is_dec_digit(s@[j]);
            assert(t[j - start] == s@[j]);
        } else {
            assert forall|j: int| 0 <= j < t.len() implies !is_dec_digit(t[j]) by {
                assert(t[j] == s@[start + j]);
            }
        }
        assert forall|j1: int, j2: int|
            0 <= j1 < j2 < t.len() && t[j1] == '.' implies t[j2] != '.' by {
            assert(t[j1] == s@[start + j1] && t[j2] == s@[start + j2]);
        }
    }
    saw_digit
}

/// Checks the exponent form over `s[start..end]`.
fn check_exp(s: &Vec<char>, start: usize, end: usize) -> (r: bool)
    requires
        start <= end <= s@.len(),
    ensures
        r == is_float_exp(s@.subrange(start as int, end as int)),
{
    let ghost t = s@.subrange(start as int, end as int);
    if end - start < 2 {
        return false;
    }
    let c0: char = s[start];
    if c0 != 'e' && c0 != 'E' {
        return false;
    }
    let c1: char = s[start + 1];
    let dstart: usize = if c1 == '+' || c1 == '-' {
        start + 2
    } else {
        start + 1
    };
    proof {
        assert(t.drop_first() =~= s@.subrange(start + 1, end as int));
        if c1 == '+' || c1 == '-' {
            assert(t.drop_first().drop_first() =~= s@.subrange(start + 2, end as int));
        }
        assert(t.drop_first()[0] == s@[start + 1]);
    }
    if dstart == end {
        proof {
            assert(c1 == '+' || c1 == '-');
            assert(t.drop_first().len() == 1);
            assert(!is_float_exp(t));
        }
        return false;
    }
    let mut all_digits: bool = true;
    let mut i: usize = dstart;
    while i < end
        invariant
            dstart <= i <= end <= s@.len(),
            all_digits == forall|j: int| dstart <= j < i ==> is_dec_digit(s@[j]),
        decreases end - i,
    {
        if dec_digit_of(s[i]).is_none() {
            all_digits = false;
        }
        i = i + 1;
    }
    proof {
        let u = s@.subrange(dstart as int, end as int);
        if all_digits {
            assert forall|j: int| 0 <= j < u.len() implies is_dec_digit(u[j]) by {
                assert(u[j] == s@[dstart + j]);
            }
            assert(is_float_exp(t));
        } else {
            let j = choose|j: int| !(dstart <= j < end ==> is_dec_digit(s@[j]));
            assert(u[j - dstart] == s@[j]);
            assert(!all_dec_digits(u));
            assert(!is_float_exp(t));
        }
    }
    all_digits
}

proof fn lemma_first_exp_mark_is(s: Seq<char>, k: int)
    requires
        0 <= k <= s.len(),
        forall|j: int| 0 <= j < k ==> s[j] != 'e' && s[j] != 'E',
        k < s.len() ==> s[k] == 'e' || s[k] == 'E',
    ensures
        first_exp_mark(s) == k,
    decreases k,
{
    if k > 0 {
        let t = s.drop_first();
        assert forall|j: int| 0 <= j < k - 1 implies t[j] != 'e' && t[j] != 'E' by {
            assert(t[j] == s[j + 1]);
        }
        if k - 1 < t.len() {
            assert(t[k - 1] == s[k]);
        }
        lemma_first_exp_mark_is(t, k - 1);
    }
}

/// Checks the number form over `s[start..]`.
fn check_number(s: &Vec<char>, start: usize) -> (r: bool)
    requires
        start <= s@.len(),
    ensures
        r == is_float_number(s@.subrange(start as int, s@.len() as int)),
{
    let ghost t = s@.subrange(start as int, s@.len() as int);
    let n: usize = s.len();
    let mut k: usize = start;
    while k < n && s[k] != 'e' && s[k] != 'E'
        invariant
            start <= k <= n,
            n == s@.len(),
            forall|j: int| start <= j < k ==> s@[j] != 'e' && s@[j] != 'E',
        decreases n - k,
    {
        k = k + 1;
    }
    proof {
        assert forall|j: int| 0 <= j < k - start implies t[j] != 'e' && t[j] != 'E' by {
            assert(t[j] == s@[start + j]);
        }
        if (k as int) - (start as int) < t.len() {
            assert(t[k - start] == s@[k as int]);
        }
        lemma_first_exp_mark_is(t, k - start);
        assert(t.subrange(0, k - start) =~= s@.subrange(start as int, k as int));
        assert(t.subrange(k - start, t.len() as int) =~= s@.subrange(k as int, n as int));
    }
    let mantissa_ok: bool = check_mantissa(s, start, k);
    if k == n {
        mantissa_ok
    } else {
        let exp_ok: bool = check_exp(s, k, n);
        mantissa_ok && exp_ok
    }
}

fn check_keyword(s: &Vec<char>, start: usize, kw: &Vec<char>) -> (r: bool)
    requires
        start <= s@.len(),
    ensures
        r == eq_keyword(s@.subrange(start as int, s@.len() as int), kw@),
{
    let ghost t = s@.subrange(start as int, s@.len() as int);
    let n: usize = s.len();
    if n - start != kw.len() {
        return false;
    }
    let mut i: usize = 0;
    while i < kw.len()
        invariant
            0 <= i <= kw@.len(),
            start + kw@.len() == s@.len(),
            start <= s@.len(),
            n == s@.len(),
            t == s@.subrange(start as int, s@.len() as int),
            forall|j: int| 0 <= j < i ==> lower_ascii(s@[start + j]) == kw@[j],
        decreases kw@.len() - i,
    {
        if lower_ascii_char(s[start + i]) != kw[i] {
            proof {
                assert(t[i as int] == s@[start + i]);
            }
            return false;
        }
        i = i + 1;
    }
    proof {
        assert forall|j: int| 0 <= j < t.len() implies lower_ascii(t[j]) == kw@[j] by {
            assert(t[j] == s@[start + j]);
        }
    }
    true
}

fn keyword_inf() -> (r: Vec<char>)
    ensures
        r@ == seq!['i', 'n', 'f'],
{
    let mut v: Vec<char> = Vec::new();
    v.push('i');
    v.push('n');
    v.push('f');
    proof {
        assert(v@ =~= seq!['i', 'n', 'f']);
    }
    v
}

fn keyword_infinity() -> (r: Vec<char>)
    ensures
        r@ == seq!['i', 'n', 'f', 'i', 'n', 'i', 't', 'y'],
{
    let mut v: Vec<char> = Vec::new();
    v.push('i');
    v.push('n');
    v.push('f');
    v.push('i');
    v.push('n');
    v.push('i');
    v.push('t');
    v.push('y');
    proof {
        assert(v@ =~= seq!['i', 'n', 'f', 'i', 'n', 'i', 't', 'y']);
    }
    v
}

fn keyword_nan() -> (r: Vec<char>)
    ensures
        r@ == seq!['n', 'a', 'n'],
{
    let mut v: Vec<char> = Vec::new();
    v.push('n');
    v.push('a');
    v.push('n');
    proof {
        assert(v@ =~= seq!['n', 'a', 'n']);
    }
    v
}

/// Checks `s` against the full float literal grammar, [`is_float_literal`].
pub fn is_float_literal_chars(s: &Vec<char>) -> (r: bool)
    ensures
        r == is_float_literal(s@),
{
    let n: usize = s.len();
    let skip: usize = if n > 0 && (s[0] == '+' || s[0] == '-') {
        1
    } else {
        0
    };
    proof {
        if skip == 1 {
            assert(s@.drop_first() =~= s@.subrange(1, n as int));
        } else {
            assert(s@ =~= s@.subrange(0, n as int));
        }
    }
    let inf: Vec<char> = keyword_inf();
    let infinity: Vec<char> = keyword_infinity();
    let nan: Vec<char> = keyword_nan();
    if check_keyword(s, skip, &inf) {
        return true;
    }
    if check_keyword(s, skip, &infinity) {
        return true;
    }
    if check_keyword(s, skip, &nan) {
        return true;
    }
    check_number(s, skip)
}

/// A value, typed by its atom's group code.
#[derive(Debug, Clone, PartialEq)]
pub enum Value {
    String(String),
    F64(Float64),
    I16(i16),
    I32(i32),
    I64(i64),
    Bool(bool),
    Handle(u32),
    Bytes(Vec<u8>),
}

/// Mathematical model of a [`Value`].
pub enum ValueV {
    String(Seq<char>),
    F64(Seq<char>),
    I16(i16),
    I32(i32),
    I64(i64),
    Bool(bool),
    Handle(u32),
    Bytes(Seq<u8>),
}

impl View for Value {
    type V = ValueV;

    open spec fn view(&self) -> ValueV {
        match self {
            Value::String(s) => ValueV::String(s@),
            Value::F64(b) => ValueV::F64(b@),
            Value::I16(v) => ValueV::I16(*v),
            Value::I32(v) => ValueV::I32(*v),
            Value::I64(v) => ValueV::I64(*v),
            Value::Bool(v) => ValueV::Bool(*v),
            Value::Handle(v) => ValueV::Handle(*v),
            Value::Bytes(v) => ValueV::Bytes(v@),
        }
    }
}

impl DeepView for Value {
    type V = ValueV;

    open spec fn deep_view(&self) -> ValueV {
        self.view()
    }
}

// ---------------------------------------------------------------------
// the group-code ranges that select each value type
pub open spec fn is_float_code(code: i16) -> bool {
    (10 <= code && code <= 59) || (110 <= code && code <= 149) || (210 <= code && code <= 239)
        || (460 <= code && code <= 469) || (1010 <= code && code <= 1059)
}

pub open spec fn is_i16_code(code: i16) -> bool {
    (60 <= code && code <= 79) || (170 <= code && code <= 179) || (370 <= code && code <= 389)
        || (400 <= code && code <= 409) || (1060 <= code && code <= 1070)
}

pub open spec fn is_i32_code(code: i16) -> bool {
    (90 <= code && code <= 99) || (420 <= code && code <= 429) || (440 <= code && code <= 449)
        || code == 1071
}

pub open spec fn is_i64_code(code: i16) -> bool {
    160 <= code && code <= 169
}

pub open spec fn is_bool_code(code: i16) -> bool {
    290 <= code && code <= 299
}

pub open spec fn is_handle_code(code: i16) -> bool {
    code == 105 || (320 <= code && code <= 329) || (390 <= code && code <= 399) || (480 <= code
        && code <= 481)
}

pub open spec fn is_bytes_code(code: i16) -> bool {
    310 <= code && code <= 319
}

/// The typed value a raw value line holds under a group code, or `None`
/// where the line does not parse as the mandated type. A bool value is
/// `false` exactly on the line `"0"`; codes outside every range hold the
/// line as a string.
pub open spec fn spec_typed_value(code: i16, raw: Seq<char>) -> Option<ValueV> {
    if is_float_code(code) {
        if is_float_literal(raw) {
            Some(ValueV::F64(raw))
        } else {
            None
        }
    } else if is_i16_code(code) {
        match spec_parse_i16(raw) {
            Some(v) => Some(ValueV::I16(v)),
            None => None,
        }
    } else if is_i32_code(code) {
        match spec_parse_i32(raw) {
            Some(v) => Some(ValueV::I32(v)),
            None => None,
        }
    } else if is_i64_code(code) {
        match spec_parse_i64(raw) {
            Some(v) => Some(ValueV::I64(v)),
            None => None,
        }
    } else if is_bool_code(code) {
        Some(ValueV::Bool(raw != seq!['0']))
    } else if is_handle_code(code) {
        match spec_parse_hex_u32(raw) {
            Some(v) => Some(ValueV::Handle(v)),
            None => None,
        }
    } else if is_bytes_code(code) {
        match spec_parse_hex_bytes(raw) {
            Some(v) => Some(ValueV::Bytes(v)),
            None => None,
        }
    } else {
        Some(ValueV::String(raw))
    }
}

/// Classifies `raw` under `code`, as [`spec_typed_value`] says. A failed
/// float coercion reports [`ParseError::ParseFloatError`]; every other
/// failed coercion reports [`ParseError::ParseIntError`]; both hold `raw`.
pub fn typed_value_of(code: i16, raw: &Vec<char>) -> (r: Result<Value, ParseError>)
    ensures
        match r {
            Ok(v) => spec_typed_value(code, raw@) == Some(v@),
            Err(e) => spec_typed_value(code, raw@) is None && match e {
                ParseError::ParseFloatError(l) => is_float_code(code) && l@ == raw@,
                ParseError::ParseIntError(l) => !is_float_code(code) && l@ == raw@,
                _ => false,
            },
        },
{
    if 10 <= code && code <= 59 || 110 <= code && code <= 149 || 210 <= code && code <= 239
        || 460 <= code && code <= 469 || 1010 <= code && code <= 1059 {
        if is_float_literal_chars(raw) {
            Ok(Value::F64(Float64 { text: string_from_chars(raw) }))
        } else {
            Err(ParseError::ParseFloatError(string_from_chars(raw)))
        }
    } else if 60 <= code && code <= 79 || 170 <= code && code <= 179 || 370 <= code && code <= 389
        || 400 <= code && code <= 409 || 1060 <= code && code <= 1070 {
        match parse_i16_chars(raw) {
            Some(v) => Ok(Value::I16(v)),
            None => Err(ParseError::ParseIntError(string_from_chars(raw))),
        }
    } else if 90 <= code && code <= 99 || 420 <= code && code <= 429 || 440 <= code && code <= 449
        || code == 1071 {
        match parse_i32_chars(raw) {
            Some(v) => Ok(Value::I32(v)),
            None => Err(ParseError::ParseIntError(string_from_chars(raw))),
        }
    } else if 160 <= code && code <= 169 {
        match parse_i64_chars(raw) {
            Some(v) => Ok(Value::I64(v)),
            None => Err(ParseError::ParseIntError(string_from_chars(raw))),
        }
    } else if 290 <= code && code <= 299 {
        let is_zero: bool = raw.len() == 1 && raw[0] == '0';
        proof {
            if raw@.len() == 1 && raw@[0] == '0' {
                assert(raw@ =~= seq!['0']);
            }
            if raw@ == seq!['0'] {
                assert(raw@.len() == 1 && raw@[0] == '0');
            }
        }
        Ok(Value::Bool(!is_zero))
    } else if code == 105 || 320 <= code && code <= 329 || 390 <= code && code <= 399 || 480
        <= code && code <= 481 {
        match parse_hex_u32_chars(raw) {
            Some(v) => Ok(Value::Handle(v)),
            None => Err(ParseError::ParseIntError(string_from_chars(raw))),
        }
    } else if 310 <= code && code <= 319 {
        match parse_hex_bytes_chars(raw) {
            Some(v) => Ok(Value::Bytes(v)),
            None => Err(ParseError::ParseIntError(string_from_chars(raw))),
        }
    } else {
        Ok(Value::String(string_from_chars(raw)))
    }
}

// ---------------------------------------------------------------------
// accessors
/// The 32-bit handle a value holds: a hex-encoded string, or a value of a
/// handle-typed code.
pub open spec fn spec_as_handle(v: ValueV) -> Option<u32> {
    match v {
        ValueV::String(s) => spec_parse_hex_u32(s),
        ValueV::Handle(h) => Some(h),
        _ => None,
    }
}

impl Value {
    /// The handle this value encodes, if any, as [`spec_as_handle`] says.
    pub fn as_handle(&self) -> (r: Option<u32>)
        ensures
            r == spec_as_handle(self@),
    {
        match self {
            Value::String(s) => {
                let cs: Vec<char> = crate::chars::chars_of(s.as_str());
                parse_hex_u32_chars(&cs)
            },
            Value::Handle(h) => Some(*h),
            _ => None,
        }
    }

    /// Writes the handle this value encodes to `dst`; reports whether one
    /// was written. On failure `dst` is untouched.
    pub fn as_handle_to(&self, dst: &mut u32) -> (r: bool)
        ensures
            r == (spec_as_handle(self@) is Some),
            match spec_as_handle(self@) {
                Some(h) => *final(dst) == h,
                None => *final(dst) == *old(dst),
            },
    {
        match self.as_handle() {
            Some(h) => {
                *dst = h;
                true
            },
            None => false,
        }
    }

    /// This value, owned. Values are already owned; the call is identity.
    pub fn into_owned(self) -> (r: Value)
        ensures
            r == self,
    {
        self
    }
}

} // verus!
