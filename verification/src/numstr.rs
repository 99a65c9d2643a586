//! Verified parsing and formatting of the numeric value forms the format
//! uses: signed decimal integers, hexadecimal handles, and hexadecimal byte
//! blobs.
use vstd::prelude::*;

verus! {

pub open spec fn is_dec_digit(c: char) -> bool {
    48 <= c as u32 && c as u32 <= 57
}

pub open spec fn dec_digit_val(c: char) -> int {
    c as u32 - 48
}

pub open spec fn all_dec_digits(s: Seq<char>) -> bool {
    forall|i: int| 0 <= i < s.len() ==> is_dec_digit(s[i])
}

/// Value of a digit string, most significant digit first.
pub open spec fn dec_val(s: Seq<char>) -> int
    decreases s.len(),
{
    if s.len() == 0 {
        0
    } else {
        dec_val(s.drop_last()) * 10 + dec_digit_val(s.last())
    }
}

/// A non-empty, all-digit string parses to its value; anything else fails.
pub open spec fn spec_parse_digits(s: Seq<char>) -> Option<int> {
    if s.len() > 0 && all_dec_digits(s) {
        Some(dec_val(s))
    } else {
        None
    }
}

/// Signed decimal integer: an optional `'+'` or `'-'`, then one or more
/// digits, nothing else — the grammar of std's integer `FromStr`.
pub open spec fn spec_parse_int(s: Seq<char>) -> Option<int> {
    if s.len() > 0 && s[0] == '+' {
        spec_parse_digits(s.drop_first())
    } else if s.len() > 0 && s[0] == '-' {
        match spec_parse_digits(s.drop_first()) {
            Some(v) => Some(-v),
            None => None,
        }
    } else {
        spec_parse_digits(s)
    }
}

/// Unsigned decimal integer: an optional `'+'`, then one or more digits.
pub open spec fn spec_parse_uint(s: Seq<char>) -> Option<int> {
    if s.len() > 0 && s[0] == '+' {
        spec_parse_digits(s.drop_first())
    } else {
        spec_parse_digits(s)
    }
}

pub open spec fn spec_parse_i16(s: Seq<char>) -> Option<i16> {
    match spec_parse_int(s) {
        Some(v) => if i16::MIN <= v <= i16::MAX {
            Some(v as i16)
        } else {
            None
        },
        None => None,
    }
}

pub open spec fn spec_parse_i32(s: Seq<char>) -> Option<i32> {
    match spec_parse_int(s) {
        Some(v) => if i32::MIN <= v <= i32::MAX {
            Some(v as i32)
        } else {
            None
        },
        None => None,
    }
}

pub open spec fn spec_parse_i64(s: Seq<char>) -> Option<i64> {
    match spec_parse_int(s) {
        Some(v) => if i64::MIN <= v <= i64::MAX {
            Some(v as i64)
        } else {
            None
        },
        None => None,
    }
}

pub open spec fn spec_parse_u32(s: Seq<char>) -> Option<u32> {
    match spec_parse_uint(s) {
        Some(v) => if 0 <= v <= u32::MAX {
            Some(v as u32)
        } else {
            None
        },
        None => None,
    }
}

pub open spec fn is_hex_digit(c: char) -> bool {
    (48 <= c as u32 && c as u32 <= 57) || (65 <= c as u32 && c as u32 <= 70) || (97 <= c as u32
        && c as u32 <= 102)
}

pub open spec fn hex_digit_val(c: char) -> int {
    if 48 <= c as u32 && c as u32 <= 57 {
        c as u32 - 48
    } else if 65 <= c as u32 && c as u32 <= 70 {
        c as u32 - 55
    } else {
        c as u32 - 87
    }
}

pub open spec fn all_hex_digits(s: Seq<char>) -> bool {
    forall|i: int| 0 <= i < s.len() ==> is_hex_digit(s[i])
}

pub open spec fn hex_val(s: Seq<char>) -> int
    decreases s.len(),
{
    if s.len() == 0 {
        0
    } else {
        hex_val(s.drop_last()) * 16 + hex_digit_val(s.last())
    }
}

/// Hexadecimal u32, the grammar of `u32::from_str_radix(s, 16)`: an
/// optional `'+'`, then one or more hex digits, value within range.
pub open spec fn spec_parse_hex_u32(s: Seq<char>) -> Option<u32> {
    let t = if s.len() > 0 && s[0] == '+' {
        s.drop_first()
    } else {
        s
    };
    if t.len() > 0 && all_hex_digits(t) && hex_val(t) <= u32::MAX {
        Some(hex_val(t) as u32)
    } else {
        None
    }
}

/// A blob value: an even number of hex digits, two per byte.
pub open spec fn spec_parse_hex_bytes(s: Seq<char>) -> Option<Seq<u8>> {
    if s.len() % 2 == 0 && all_hex_digits(s) {
        Some(Seq::new(s.len() / 2, |i: int| (hex_digit_val(s[2 * i]) * 16 + hex_digit_val(
            s[2 * i + 1],
        )) as u8))
    } else {
        None
    }
}

// ---------------------------------------------------------------------
// executable parsing
pub fn dec_digit_of(c: char) -> (r: Option<u8>)
    ensures
        r matches Some(d) ==> is_dec_digit(c) && d == dec_digit_val(c),
        r is None ==> !is_dec_digit(c),
{
    let v: u32 = c as u32;
    if 48 <= v && v <= 57 {
        Some((v - 48) as u8)
    } else {
        None
    }
}

pub fn hex_digit_of(c: char) -> (r: Option<u8>)
    ensures
        r matches Some(d) ==> is_hex_digit(c) && d == hex_digit_val(c),
        r is None ==> !is_hex_digit(c),
{
    let v: u32 = c as u32;
    if 48 <= v && v <= 57 {
        Some((v - 48) as u8)
    } else if 65 <= v && v <= 70 {
        Some((v - 55) as u8)
    } else if 97 <= v && v <= 102 {
        Some((v - 87) as u8)
    } else {
        None
    }
}

proof fn lemma_dec_val_nonneg(s: Seq<char>)
    requires
        all_dec_digits(s),
    ensures
        dec_val(s) >= 0,
    decreases s.len(),
{
    if s.len() > 0 {
        lemma_dec_val_nonneg(s.drop_last());
    }
}

proof fn lemma_dec_val_prefix_le(s: Seq<char>, k: int)
    requires
        all_dec_digits(s),
        0 <= k <= s.len(),
    ensures
        dec_val(s.subrange(0, k)) <= dec_val(s),
    decreases s.len() - k,
{
    if k < s.len() {
        let t = s.drop_last();
        lemma_dec_val_prefix_le(t, k);
        assert(t.subrange(0, k) =~= s.subrange(0, k));
        lemma_dec_val_nonneg(t);
        assert(dec_val(s) == dec_val(t) * 10 + dec_digit_val(s.last()));
    } else {
        assert(s.subrange(0, k) =~= s);
    }
}

/// Parses the digit run `s[start..]` as an unsigned 64-bit value.
fn parse_u64_digits(s: &Vec<char>, start: usize) -> (r: Option<u64>)
    requires
        start <= s@.len(),
    ensures
        ({
            let t = s@.subrange(start as int, s@.len() as int);
            match r {
                Some(v) => t.len() > 0 && all_dec_digits(t) && v == dec_val(t),
                None => !(t.len() > 0 && all_dec_digits(t) && dec_val(t) <= u64::MAX),
            }
        }),
{
    let ghost t = s@.subrange(start as int, s@.len() as int);
    let n: usize = s.len();
    if start == n {
        return None;
    }
    let mut acc: u64 = 0;
    let mut i: usize = start;
    while i < n
        invariant
            start <= i <= n,
            n == s@.len(),
            t == s@.subrange(start as int, s@.len() as int),
            forall|j: int| start <= j < i ==> is_dec_digit(s@[j]),
            acc == dec_val(s@.subrange(start as int, i as int)),
        decreases n - i,
    {
        let d: u8 = match dec_digit_of(s[i]) {
            Some(d) => d,
            None => {
                proof {
                    assert(t[i - start] == s@[i as int]);
                    assert(!all_dec_digits(t));
                }
                return None;
            },
        };
        let wide: u128 = (acc as u128) * 10 + (d as u128);
        proof {
            assert(s@.subrange(start as int, i as int).push(s@[i as int]) =~= s@.subrange(
                start as int,
                i + 1,
            ));
            assert(s@.subrange(start as int, i + 1).drop_last() =~= s@.subrange(
                start as int,
                i as int,
            ));
        }
        if wide > u64::MAX as u128 {
            proof {
                let p = s@.subrange(start as int, i + 1);
                assert(dec_val(p) == wide);
                if all_dec_digits(t) {
                    assert(t.subrange(0, i + 1 - start) =~= p);
                    lemma_dec_val_prefix_le(t, i + 1 - start);
                }
            }
            return None;
        }
        acc = wide as u64;
        i = i + 1;
    }
    proof {
        assert(s@.subrange(start as int, n as int) =~= t);
        assert forall|j: int| 0 <= j < t.len() implies is_dec_digit(t[j]) by {
            assert(t[j] == s@[start + j]);
        }
    }
    Some(acc)
}

/// Parses `s` as a signed decimal 64-bit integer, as std's `FromStr` does.
pub fn parse_i64_chars(s: &Vec<char>) -> (r: Option<i64>)
    ensures
        r == spec_parse_i64(s@),
{
    let n: usize = s.len();
    if n == 0 {
        return None;
    }
    let c0: char = s[0];
    let neg: bool = c0 == '-';
    let skip: usize = if c0 == '+' || c0 == '-' {
        1
    } else {
        0
    };
    let ghost t = s@.subrange(skip as int, n as int);
    proof {
        if skip == 1 {
            assert(t =~= s@.drop_first());
        } else {
            assert(t =~= s@);
        }
    }
    match parse_u64_digits(s, skip) {
        Some(v) => {
            proof {
                lemma_dec_val_nonneg(t);
            }
            if neg {
                if v <= 9223372036854775807u64 {
                    Some(-(v as i64))
                } else if v == 9223372036854775808u64 {
                    Some(i64::MIN)
                } else {
                    None
                }
            } else {
                if v <= i64::MAX as u64 {
                    Some(v as i64)
                } else {
                    None
                }
            }
        },
        None => {
            proof {
                if t.len() > 0 && all_dec_digits(t) {
                    lemma_dec_val_nonneg(t);
                    assert(dec_val(t) > u64::MAX);
                }
            }
            None
        },
    }
}

/// Parses `s` as a signed decimal 16-bit integer, as std's `FromStr` does.
pub fn parse_i16_chars(s: &Vec<char>) -> (r: Option<i16>)
    ensures
        r == spec_parse_i16(s@),
{
    match parse_i64_chars(s) {
        Some(v) => if i16::MIN as i64 <= v && v <= i16::MAX as i64 {
            Some(v as i16)
        } else {
            None
        },
        None => None,
    }
}

/// Parses `s` as a signed decimal 32-bit integer, as std's `FromStr` does.
pub fn parse_i32_chars(s: &Vec<char>) -> (r: Option<i32>)
    ensures
        r == spec_parse_i32(s@),
{
    match parse_i64_chars(s) {
        Some(v) => if i32::MIN as i64 <= v && v <= i32::MAX as i64 {
            Some(v as i32)
        } else {
            None
        },
        None => None,
    }
}

/// Parses `s` as an unsigned decimal 32-bit integer, as std's `FromStr`
/// does: a leading `'-'` is rejected.
pub fn parse_u32_chars(s: &Vec<char>) -> (r: Option<u32>)
    ensures
        r == spec_parse_u32(s@),
{
    let n: usize = s.len();
    if n == 0 {
        return None;
    }
    let c0: char = s[0];
    if c0 == '-' {
        proof {
            assert('-' as u32 == 45 && '+' as u32 == 43);
            assert(!is_dec_digit(s@[0]));
        }
        return None;
    }
    let skip: usize = if c0 == '+' {
        1
    } else {
        0
    };
    let ghost t = s@.subrange(skip as int, n as int);
    proof {
        if skip == 1 {
            assert(t =~= s@.drop_first());
        } else {
            assert(t =~= s@);
        }
    }
    match parse_u64_digits(s, skip) {
        Some(v) => {
            proof {
                lemma_dec_val_nonneg(t);
            }
            if v <= u32::MAX as u64 {
                Some(v as u32)
            } else {
                None
            }
        },
        None => {
            proof {
                if t.len() > 0 && all_dec_digits(t) {
                    lemma_dec_val_nonneg(t);
                    assert(dec_val(t) > u64::MAX);
                }
            }
            None
        },
    }
}

proof fn lemma_hex_val_nonneg(s: Seq<char>)
    requires
        all_hex_digits(s),
    ensures
        hex_val(s) >= 0,
    decreases s.len(),
{
    if s.len() > 0 {
        lemma_hex_val_nonneg(s.drop_last());
    }
}

proof fn lemma_hex_val_prefix_le(s: Seq<char>, k: int)
    requires
        all_hex_digits(s),
        0 <= k <= s.len(),
    ensures
        hex_val(s.subrange(0, k)) <= hex_val(s),
    decreases s.len() - k,
{
    if k < s.len() {
        let t = s.drop_last();
        lemma_hex_val_prefix_le(t, k);
        assert(t.subrange(0, k) =~= s.subrange(0, k));
        lemma_hex_val_nonneg(t);
        assert(hex_val(s) == hex_val(t) * 16 + hex_digit_val(s.last()));
    } else {
        assert(s.subrange(0, k) =~= s);
    }
}

/// Parses `s` as a hexadecimal 32-bit integer, the grammar of
/// `u32::from_str_radix(s, 16)`.
pub fn parse_hex_u32_chars(s: &Vec<char>) -> (r: Option<u32>)
    ensures
        r == spec_parse_hex_u32(s@),
{
    let n: usize = s.len();
    let skip: usize = if n > 0 && s[0] == '+' {
        1
    } else {
        0
    };
    let ghost t = if skip == 1 {
        s@.drop_first()
    } else {
        s@
    };
    proof {
        assert(t =~= s@.subrange(skip as int, n as int));
    }
    if skip == n {
        return None;
    }
    let mut acc: u32 = 0;
    let mut i: usize = skip;
    while i < n
        invariant
            skip <= i <= n,
            n == s@.len(),
            skip == 1 <==> s@.len() > 0 && s@[0] == '+',
            skip <= 1,
            t == (if s@.len() > 0 && s@[0] == '+' {
                s@.drop_first()
            } else {
                s@
            }),
            t =~= s@.subrange(skip as int, n as int),
            forall|j: int| skip <= j < i ==> is_hex_digit(s@[j]),
            acc == hex_val(s@.subrange(skip as int, i as int)),
        decreases n - i,
    {
        let d: u8 = match hex_digit_of(s[i]) {
            Some(d) => d,
            None => {
                proof {
                    assert(t[i - skip] == s@[i as int]);
                    assert(!all_hex_digits(t));
                    assert(spec_parse_hex_u32(s@) is None);
                }
                return None;
            },
        };
        let wide: u64 = (acc as u64) * 16 + (d as u64);
        proof {
            assert(s@.subrange(skip as int, i as int).push(s@[i as int]) =~= s@.subrange(
                skip as int,
                i + 1,
            ));
            assert(s@.subrange(skip as int, i + 1).drop_last() =~= s@.subrange(
                skip as int,
                i as int,
            ));
        }
        if wide > u32::MAX as u64 {
            proof {
                let p = s@.subrange(skip as int, i + 1);
                assert(hex_val(p) == wide);
                if all_hex_digits(t) {
                    assert(t.subrange(0, i + 1 - skip) =~= p);
                    lemma_hex_val_prefix_le(t, i + 1 - skip);
                }
                assert(spec_parse_hex_u32(s@) is None);
            }
            return None;
        }
        acc = wide as u32;
        i = i + 1;
    }
    proof {
        assert(s@.subrange(skip as int, n as int) =~= t);
        assert forall|j: int| 0 <= j < t.len() implies is_hex_digit(t[j]) by {
            assert(t[j] == s@[skip + j]);
        }
    }
    Some(acc)
}

/// Parses `s` as a blob: an even number of hex digits, two per byte.
pub fn parse_hex_bytes_chars(s: &Vec<char>) -> (r: Option<Vec<u8>>)
    ensures
        match r {
            Some(v) => spec_parse_hex_bytes(s@) == Some(v@),
            None => spec_parse_hex_bytes(s@) is None,
        },
{
    let n: usize = s.len();
    if n % 2 != 0 {
        return None;
    }
    let mut out: Vec<u8> = Vec::new();
    let mut i: usize = 0;
    while i < n
        invariant
            0 <= i <= n,
            i % 2 == 0,
            n % 2 == 0,
            n == s@.len(),
            forall|j: int| 0 <= j < i ==> is_hex_digit(s@[j]),
            out@.len() == i / 2,
            forall|j: int|
                0 <= j < out@.len() ==> out@[j] == (hex_digit_val(s@[2 * j]) * 16 + hex_digit_val(
                    s@[2 * j + 1],
                )) as u8,
        decreases n - i,
    {
        let hi: u8 = match hex_digit_of(s[i]) {
            Some(d) => d,
            None => {
                return None;
            },
        };
        let lo: u8 = match hex_digit_of(s[i + 1]) {
            Some(d) => d,
            None => {
                return None;
            },
        };
        out.push(hi * 16 + lo);
        i = i + 2;
    }
    proof {
        let expected = Seq::new(s@.len() / 2, |j: int| (hex_digit_val(s@[2 * j]) * 16
            + hex_digit_val(s@[2 * j + 1])) as u8);
        assert(out@ =~= expected);
    }
    Some(out)
}

// ---------------------------------------------------------------------
// formatting
pub open spec fn dec_digit_char(d: int) -> char {
    if d == 0 {
        '0'
    } else if d == 1 {
        '1'
    } else if d == 2 {
        '2'
    } else if d == 3 {
        '3'
    } else if d == 4 {
        '4'
    } else if d == 5 {
        '5'
    } else if d == 6 {
        '6'
    } else if d == 7 {
        '7'
    } else if d == 8 {
        '8'
    } else {
        '9'
    }
}

/// Canonical decimal form of a non-negative integer.
pub open spec fn spec_fmt_nat(n: int) -> Seq<char>
    decreases n,
{
    if n < 10 {
        seq![dec_digit_char(n)]
    } else {
        spec_fmt_nat(n / 10).push(dec_digit_char(n % 10))
    }
}

/// Canonical decimal form of an integer, as std formats it.
pub open spec fn spec_fmt_int(v: int) -> Seq<char> {
    if v < 0 {
        seq!['-'] + spec_fmt_nat(-v)
    } else {
        spec_fmt_nat(v)
    }
}

pub proof fn lemma_fmt_nat_digits(n: int)
    requires
        n >= 0,
    ensures
        spec_fmt_nat(n).len() >= 1,
        all_dec_digits(spec_fmt_nat(n)),
        dec_val(spec_fmt_nat(n)) == n,
    decreases n,
{
    if n < 10 {
        assert(is_dec_digit(dec_digit_char(n)) && dec_digit_val(dec_digit_char(n)) == n) by {
            assert('0' as u32 == 48 && '1' as u32 == 49 && '2' as u32 == 50 && '3' as u32 == 51
                && '4' as u32 == 52 && '5' as u32 == 53 && '6' as u32 == 54 && '7' as u32 == 55
                && '8' as u32 == 56 && '9' as u32 == 57);
        }
        assert(spec_fmt_nat(n).drop_last() =~= Seq::<char>::empty());
        assert(dec_val(Seq::<char>::empty()) == 0);
        assert(spec_fmt_nat(n).last() == dec_digit_char(n));
        assert(dec_val(spec_fmt_nat(n)) == n);
    } else {
        lemma_fmt_nat_digits(n / 10);
        let w = spec_fmt_nat(n / 10);
        let d = n % 10;
        assert(is_dec_digit(dec_digit_char(d)) && dec_digit_val(dec_digit_char(d)) == d) by {
            assert('0' as u32 == 48 && '1' as u32 == 49 && '2' as u32 == 50 && '3' as u32 == 51
                && '4' as u32 == 52 && '5' as u32 == 53 && '6' as u32 == 54 && '7' as u32 == 55
                && '8' as u32 == 56 && '9' as u32 == 57);
        }
        assert(w.push(dec_digit_char(d)).drop_last() =~= w);
        assert forall|i: int| 0 <= i < w.push(dec_digit_char(d)).len() implies is_dec_digit(
            w.push(dec_digit_char(d))[i],
        ) by {
            if i < w.len() {
                assert(w.push(dec_digit_char(d))[i] == w[i]);
            }
        }
        assert(dec_val(spec_fmt_nat(n)) == dec_val(w) * 10 + d);
        assert(dec_val(w) == n / 10);
        assert(n / 10 * 10 + n % 10 == n);
        assert(dec_val(spec_fmt_nat(n)) == n);
    }
}

/// Formatting then parsing gives the integer back: the round trip on which
/// re-emission of group codes rests.
pub proof fn lemma_parse_fmt_int(v: int)
    ensures
        spec_parse_int(spec_fmt_int(v)) == Some(v),
{
    if v < 0 {
        lemma_fmt_nat_digits(-v);
        let s = seq!['-'] + spec_fmt_nat(-v);
        assert(s[0] == '-');
        assert(s.drop_first() =~= spec_fmt_nat(-v));
        assert('-' as u32 == 45 && '+' as u32 == 43);
    } else {
        lemma_fmt_nat_digits(v);
        let s = spec_fmt_nat(v);
        assert(is_dec_digit(s[0]));
        assert('-' as u32 == 45 && '+' as u32 == 43);
        assert(s[0] != '+' && s[0] != '-');
    }
}

fn dec_digit_to_char(d: u32) -> (r: char)
    requires
        d < 10,
    ensures
        r == dec_digit_char(d as int),
{
    match d {
        0 => '0',
        1 => '1',
        2 => '2',
        3 => '3',
        4 => '4',
        5 => '5',
        6 => '6',
        7 => '7',
        8 => '8',
        _ => '9',
    }
}

fn fmt_nat_rec(n: u32, out: &mut Vec<char>)
    ensures
        final(out)@ == old(out)@ + spec_fmt_nat(n as int),
    decreases n,
{
    if n >= 10 {
        fmt_nat_rec(n / 10, out);
    }
    out.push(dec_digit_to_char(n % 10));
    proof {
        if n < 10 {
            assert(old(out)@ + spec_fmt_nat(n as int) =~= old(out)@.push(
                dec_digit_char(n as int),
            ));
        } else {
            assert(old(out)@ + spec_fmt_nat(n as int) =~= (old(out)@ + spec_fmt_nat(
                n as int / 10,
            )).push(dec_digit_char(n as int % 10)));
        }
    }
}

/// The canonical decimal form of `v`, as characters.
pub fn fmt_i16_chars(v: i16) -> (r: Vec<char>)
    ensures
        r@ == spec_fmt_int(v as int),
{
    let mut out: Vec<char> = Vec::new();
    if v < 0 {
        out.push('-');
        let m: u32 = (-(v as i32)) as u32;
        fmt_nat_rec(m, &mut out);
        proof {
            assert(seq!['-'] + spec_fmt_nat(m as int) =~= out@);
        }
    } else {
        fmt_nat_rec(v as u32, &mut out);
        proof {
            assert(Seq::<char>::empty() + spec_fmt_nat(v as int) =~= spec_fmt_nat(v as int));
        }
    }
    out
}

} // verus!
