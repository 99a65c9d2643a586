//! Character-level utilities shared by the tokenizer and the rich-text
//! decoder: ASCII whitespace trimming, line splitting, and conversions
//! between `String` and `Vec<char>`.
use vstd::prelude::*;

verus! {

/// ASCII whitespace: the characters removed from the ends of a line.
pub open spec fn is_space(c: char) -> bool {
    c == ' ' || c == '\t' || c == '\n' || c == '\r' || c == '\u{000C}'
}

pub open spec fn spec_trim_start(s: Seq<char>) -> Seq<char>
    decreases s.len(),
{
    if s.len() > 0 && is_space(s[0]) {
        spec_trim_start(s.drop_first())
    } else {
        s
    }
}

pub open spec fn spec_trim_end(s: Seq<char>) -> Seq<char>
    decreases s.len(),
{
    if s.len() > 0 && is_space(s.last()) {
        spec_trim_end(s.drop_last())
    } else {
        s
    }
}

/// The line with ASCII whitespace removed from both ends.
pub open spec fn spec_trim(s: Seq<char>) -> Seq<char> {
    spec_trim_end(spec_trim_start(s))
}

proof fn lemma_trim_start_skip(s: Seq<char>, i: int)
    requires
        0 <= i <= s.len(),
        forall|j: int| 0 <= j < i ==> is_space(s[j]),
    ensures
        spec_trim_start(s) == spec_trim_start(s.subrange(i, s.len() as int)),
    decreases i,
{
    if i > 0 {
        assert(is_space(s[0]));
        let t = s.subrange(1, s.len() as int);
        assert(s.drop_first() =~= t);
        assert forall|j: int| 0 <= j < i - 1 implies is_space(t[j]) by {
            assert(t[j] == s[j + 1]);
        }
        lemma_trim_start_skip(t, i - 1);
        assert(t.subrange(i - 1, t.len() as int) =~= s.subrange(i, s.len() as int));
    } else {
        assert(s.subrange(0, s.len() as int) =~= s);
    }
}

proof fn lemma_trim_end_skip(s: Seq<char>, i: int)
    requires
        0 <= i <= s.len(),
        forall|j: int| i <= j < s.len() ==> is_space(s[j]),
    ensures
        spec_trim_end(s) == spec_trim_end(s.subrange(0, i)),
    decreases s.len() - i,
{
    if i < s.len() {
        assert(is_space(s.last()));
        let t = s.subrange(0, s.len() - 1);
        assert(s.drop_last() =~= t);
        assert forall|j: int| i <= j < t.len() implies is_space(t[j]) by {
            assert(t[j] == s[j]);
        }
        lemma_trim_end_skip(t, i);
        assert(t.subrange(0, i) =~= s.subrange(0, i));
    } else {
        assert(s.subrange(0, s.len() as int) =~= s);
    }
}

/// Executable test for [`is_space`].
pub fn is_space_char(c: char) -> (r: bool)
    ensures
        r == is_space(c),
{
    c == ' ' || c == '\t' || c == '\n' || c == '\r' || c == '\u{000C}'
}

/// Copies `s` with ASCII whitespace removed from both ends.
pub fn trim_chars(s: &Vec<char>) -> (r: Vec<char>)
    ensures
        r@ == spec_trim(s@),
{
    let n: usize = s.len();
    let mut lo: usize = 0;
    while lo < n && is_space_char(s[lo])
        invariant
            0 <= lo <= n,
            n == s@.len(),
            forall|j: int| 0 <= j < lo ==> is_space(s@[j]),
        decreases n - lo,
    {
        lo = lo + 1;
    }
    let ghost mid = s@.subrange(lo as int, n as int);
    proof {
        lemma_trim_start_skip(s@, lo as int);
        if lo < n {
            assert(mid[0] == s@[lo as int]);
        }
        assert(spec_trim_start(mid) == mid);
        assert(spec_trim_start(s@) == mid);
    }
    let mut hi: usize = n;
    while hi > lo && is_space_char(s[hi - 1])
        invariant
            lo <= hi <= n,
            n == s@.len(),
            forall|j: int| hi <= j < n ==> is_space(s@[j]),
        decreases hi,
    {
        hi = hi - 1;
    }
    proof {
        assert forall|j: int| hi - lo <= j < mid.len() implies is_space(mid[j]) by {
            assert(mid[j] == s@[lo + j]);
        }
        lemma_trim_end_skip(mid, hi - lo);
        assert(mid.subrange(0, hi - lo) =~= s@.subrange(lo as int, hi as int));
        if hi > lo {
            assert(s@.subrange(lo as int, hi as int).last() == s@[hi - 1]);
        }
        assert(spec_trim_end(s@.subrange(lo as int, hi as int)) == s@.subrange(
            lo as int,
            hi as int,
        ));
        assert(spec_trim(s@) == s@.subrange(lo as int, hi as int));
    }
    let mut r: Vec<char> = Vec::new();
    let mut i: usize = lo;
    while i < hi
        invariant
            lo <= i <= hi <= n,
            n == s@.len(),
            r@ == s@.subrange(lo as int, i as int),
        decreases hi - i,
    {
        r.push(s[i]);
        proof {
            assert(s@.subrange(lo as int, i as int).push(s@[i as int]) =~= s@.subrange(
                lo as int,
                i + 1,
            ));
        }
        i = i + 1;
    }
    r
}

/// The characters of `s`, in order.
pub fn chars_of(s: &str) -> (r: Vec<char>)
    ensures
        r@ == s@,
{
    let n: usize = s.unicode_len();
    let mut r: Vec<char> = Vec::new();
    let mut i: usize = 0;
    while i < n
        invariant
            0 <= i <= n,
            n == s@.len(),
            r@ == s@.subrange(0, i as int),
        decreases n - i,
    {
        r.push(s.get_char(i));
        proof {
            assert(s@.subrange(0, i as int).push(s@[i as int]) =~= s@.subrange(0, i + 1));
        }
        i = i + 1;
    }
    proof {
        assert(s@.subrange(0, n as int) =~= s@);
    }
    r
}

/// Relies on std's `String::push`: appends one character to the string.
#[verifier::external_body]
pub(crate) fn push_char(s: &mut String, c: char)
    ensures
        final(s)@ == old(s)@.push(c),
{
    s.push(c);
}

/// A freshly allocated `String` holding exactly the characters of `v`.
pub fn string_from_chars(v: &Vec<char>) -> (r: String)
    ensures
        r@ == v@,
{
    let mut r: String = String::new();
    let n: usize = v.len();
    let mut i: usize = 0;
    while i < n
        invariant
            0 <= i <= n,
            n == v@.len(),
            r@ == v@.subrange(0, i as int),
        decreases n - i,
    {
        push_char(&mut r, v[i]);
        proof {
            assert(v@.subrange(0, i as int).push(v@[i as int]) =~= v@.subrange(0, i + 1));
        }
        i = i + 1;
    }
    proof {
        assert(v@.subrange(0, n as int) =~= v@);
    }
    r
}

/// Index of the first `'\n'` in `s`, or `s.len()` if there is none.
pub open spec fn first_newline(s: Seq<char>) -> int
    decreases s.len(),
{
    if s.len() == 0 {
        0
    } else if s[0] == '\n' {
        0
    } else {
        1 + first_newline(s.drop_first())
    }
}

/// The piece with a trailing carriage return removed.
pub open spec fn drop_cr(s: Seq<char>) -> Seq<char> {
    if s.len() > 0 && s.last() == '\r' {
        s.drop_last()
    } else {
        s
    }
}

/// The lines of `s`, split at `'\n'`, as `str::lines` does: a `'\r'`
/// directly before the `'\n'` is removed, and a final empty piece (after a
/// terminating newline, or of an empty input) is not a line.
pub open spec fn spec_lines(s: Seq<char>) -> Seq<Seq<char>>
    decreases s.len(),
{
    if s.len() == 0 {
        Seq::empty()
    } else {
        let k = first_newline_len(s);
        if k == s.len() {
            seq![s]
        } else {
            seq![drop_cr(s.subrange(0, k))] + spec_lines(s.subrange(k + 1, s.len() as int))
        }
    }
}

/// [`first_newline`], shown to lie within the sequence.
pub open spec fn first_newline_len(s: Seq<char>) -> int {
    if 0 <= first_newline(s) <= s.len() {
        first_newline(s)
    } else {
        s.len() as int
    }
}

proof fn lemma_first_newline_is(s: Seq<char>, k: int)
    requires
        0 <= k <= s.len(),
        forall|j: int| 0 <= j < k ==> s[j] != '\n',
        k < s.len() ==> s[k] == '\n',
    ensures
        first_newline(s) == k,
    decreases k,
{
    if k > 0 {
        let t = s.drop_first();
        assert forall|j: int| 0 <= j < k - 1 implies t[j] != '\n' by {
            assert(t[j] == s[j + 1]);
        }
        if k - 1 < t.len() {
            assert(t[k - 1] == s[k]);
        }
        lemma_first_newline_is(t, k - 1);
    }
}

/// Splits `s` into lines, as [`spec_lines`] says.
pub fn split_lines(s: &Vec<char>) -> (r: Vec<Vec<char>>)
    ensures
        r.deep_view() == spec_lines(s@),
{
    let n: usize = s.len();
    let mut r: Vec<Vec<char>> = Vec::new();
    proof {
        assert(s@.subrange(0, n as int) =~= s@);
        assert(r.deep_view() + spec_lines(s@) =~= spec_lines(s@));
    }
    let mut start: usize = 0;
    while start < n
        invariant
            0 <= start <= n,
            n == s@.len(),
            r.deep_view() + spec_lines(s@.subrange(start as int, n as int)) == spec_lines(s@),
        decreases n - start,
    {
        let ghost rest = s@.subrange(start as int, n as int);
        let mut k: usize = start;
        while k < n && s[k] != '\n'
            invariant
                start <= k <= n,
                n == s@.len(),
                forall|j: int| start <= j < k ==> s@[j] != '\n',
            decreases n - k,
        {
            k = k + 1;
        }
        proof {
            assert forall|j: int| 0 <= j < k - start implies rest[j] != '\n' by {
                assert(rest[j] == s@[start + j]);
            }
            if (k as int) - (start as int) < rest.len() {
                assert(rest[k - start] == s@[k as int]);
            }
            lemma_first_newline_is(rest, k - start);
        }
        let mut piece_end: usize = k;
        if k < n && piece_end > start && s[piece_end - 1] == '\r' {
            piece_end = piece_end - 1;
        }
        let mut piece: Vec<char> = Vec::new();
        let mut i: usize = start;
        while i < piece_end
            invariant
                start <= i <= piece_end <= n,
                n == s@.len(),
                piece@ == s@.subrange(start as int, i as int),
            decreases piece_end - i,
        {
            piece.push(s[i]);
            proof {
                assert(s@.subrange(start as int, i as int).push(s@[i as int]) =~= s@.subrange(
                    start as int,
                    i + 1,
                ));
            }
            i = i + 1;
        }
        proof {
            // piece@ is the k-delimited head of `rest`, minus a '\r' before '\n'
            let k0 = (k - start) as int;
            let head = rest.subrange(0, k0);
            assert(head =~= s@.subrange(start as int, k as int));
            if k0 == rest.len() {
                assert(k == n);
                assert(piece_end == k);
                assert(head =~= rest);
                assert(piece@ == rest);
                assert(spec_lines(rest) == seq![piece@]);
            } else {
                assert(k < n);
                if head.len() > 0 && head.last() == '\r' {
                    assert(head.last() == s@[k - 1]);
                    assert(head.drop_last() =~= s@.subrange(start as int, k - 1));
                    assert(piece@ == drop_cr(head));
                } else {
                    if (k as int) > (start as int) {
                        assert(head.last() == s@[k - 1]);
                    }
                    assert(piece_end == k);
                    assert(piece@ == drop_cr(head));
                }
                assert(rest.subrange(k0 + 1, rest.len() as int) =~= s@.subrange(
                    k + 1,
                    n as int,
                ));
                assert(spec_lines(rest) == seq![piece@] + spec_lines(
                    s@.subrange(k + 1, n as int),
                ));
            }
        }
        let ghost old_dv = r.deep_view();
        r.push(piece);
        proof {
            assert(r.deep_view() =~~= old_dv.push(piece@));
        }
        if k < n {
            start = k + 1;
            proof {
                assert(old_dv.push(piece@) + spec_lines(s@.subrange(start as int, n as int))
                    =~= old_dv + (seq![piece@] + spec_lines(s@.subrange(start as int, n as int))));
            }
        } else {
            start = n;
            proof {
                assert(s@.subrange(n as int, n as int) =~= Seq::<char>::empty());
                assert(spec_lines(Seq::<char>::empty()) == Seq::<Seq<char>>::empty());
                assert(old_dv.push(piece@) + Seq::<Seq<char>>::empty() =~= old_dv + seq![piece@]);
            }
        }
    }
    proof {
        assert(s@.subrange(n as int, n as int) =~= Seq::<char>::empty());
        assert(r.deep_view() + Seq::<Seq<char>>::empty() =~= r.deep_view());
    }
    r
}

} // verus!
