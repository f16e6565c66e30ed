//! Small verified text utilities shared by the cursor codec, the keyword
//! filter and the classification engine: character-level string equality,
//! substring search, decimal rendering and parsing.

use vstd::prelude::*;

verus! {

/// Relies on String::push: appends exactly the one character.
#[verifier::external_body]
pub fn push_char(s: &mut String, c: char)
    ensures
        final(s)@ == old(s)@.push(c),
{
    s.push(c)
}

/// Character-by-character equality of two string slices.
pub fn str_eq(a: &str, b: &str) -> (r: bool)
    ensures
        r == (a@ == b@),
{
    let an: usize = a.unicode_len();
    let bn: usize = b.unicode_len();
    if an != bn {
        assert(a@ != b@) by {
            assert(a@.len() != b@.len());
        }
        return false;
    }
    let mut i: usize = 0;
    while i < an
        invariant
            i <= an,
            an == a@.len(),
            an == b@.len(),
            forall|j: int| 0 <= j < i ==> a@[j] == b@[j],
        decreases an - i,
    {
        if a.get_char(i) != b.get_char(i) {
            return false;
        }
        i += 1;
    }
    assert(a@ =~= b@);
    true
}

/// Whether `pat` occurs as a contiguous run of characters inside `text`,
/// starting at position `i`.
pub open spec fn occurs_at(text: Seq<char>, pat: Seq<char>, i: int) -> bool {
    &&& 0 <= i
    &&& i + pat.len() <= text.len()
    &&& text.subrange(i, i + pat.len() as int) == pat
}

/// Whether `pat` occurs anywhere inside `text`.
pub open spec fn spec_contains(text: Seq<char>, pat: Seq<char>) -> bool {
    exists|i: int| occurs_at(text, pat, i)
}

/// Whether `pat` matches `text` starting at character position `i`.
pub fn matches_at(text: &str, pat: &str, i: usize) -> (r: bool)
    requires
        i + pat@.len() <= text@.len(),
    ensures
        r == occurs_at(text@, pat@, i as int),
{
    let tn: usize = text.unicode_len();
    let pn: usize = pat.unicode_len();
    let mut j: usize = 0;
    while j < pn
        invariant
            j <= pn,
            pn == pat@.len(),
            tn == text@.len(),
            i + pn <= tn,
            forall|k: int| 0 <= k < j ==> text@[i + k] == pat@[k],
        decreases pn - j,
    {
        if text.get_char(i + j) != pat.get_char(j) {
            assert(text@.subrange(i as int, i + pn) != pat@) by {
                assert(text@.subrange(i as int, i + pn)[j as int] == text@[i + j]);
            }
            return false;
        }
        j += 1;
    }
    assert(text@.subrange(i as int, i + pn) =~= pat@);
    true
}

/// Naive verified substring search.
pub fn str_contains(text: &str, pat: &str) -> (r: bool)
    ensures
        r == spec_contains(text@, pat@),
{
    let tn: usize = text.unicode_len();
    let pn: usize = pat.unicode_len();
    if pn > tn {
        assert(!spec_contains(text@, pat@)) by {
            assert(forall|i: int| !occurs_at(text@, pat@, i));
        }
        return false;
    }
    if pn == 0 {
        assert(occurs_at(text@, pat@, 0)) by {
            assert(text@.subrange(0, 0) =~= pat@);
        }
        return true;
    }
    let mut i: usize = 0;
    while i <= tn - pn
        invariant
            1 <= pn <= tn,
            tn == text@.len(),
            pn == pat@.len(),
            i <= tn - pn + 1,
            forall|k: int| 0 <= k < i ==> !occurs_at(text@, pat@, k),
        decreases tn + 1 - i,
    {
        if matches_at(text, pat, i) {
            return true;
        }
        i += 1;
    }
    assert(forall|k: int| !occurs_at(text@, pat@, k));
    false
}

/// Relies on str::to_lowercase: the result is a function of the input
/// characters alone (Unicode lowercasing uses no locale).
pub uninterp spec fn lower_of(s: Seq<char>) -> Seq<char>;

/// Relies on str::to_lowercase, whose result depends only on the input text.
#[verifier::external_body]
pub fn to_lowercase(s: &str) -> (r: String)
    ensures
        r@ == lower_of(s@),
{
    s.to_lowercase()
}

/// The decimal digit character for a value below ten.
pub open spec fn spec_digit(d: int) -> char
    recommends
        0 <= d < 10,
{
    ((d + 48) as u8) as char
}

/// The decimal rendering of a natural number, most significant digit first.
pub open spec fn spec_dec(n: int) -> Seq<char>
    recommends
        n >= 0,
    decreases n,
{
    if n < 10 {
        seq![spec_digit(n)]
    } else {
        spec_dec(n / 10).push(spec_digit(n % 10))
    }
}

fn digit_char(d: u64) -> (c: char)
    requires
        d < 10,
    ensures
        c == spec_digit(d as int),
{
    (d as u8 + 48) as char
}

/// Renders a `u64` in decimal.
pub fn u64_to_dec(n: u64) -> (r: String)
    ensures
        r@ == spec_dec(n as int),
    decreases n,
{
    if n < 10 {
        let mut s = String::new();
        push_char(&mut s, digit_char(n));
        assert(s@ =~= spec_dec(n as int));
        s
    } else {
        let mut s = u64_to_dec(n / 10);
        push_char(&mut s, digit_char(n % 10));
        assert(s@ =~= spec_dec(n as int));
        s
    }
}

/// The numeric value of a decimal digit sequence read left to right;
/// `None` when some character is not a digit.
pub open spec fn spec_dec_value(s: Seq<char>, acc: int) -> Option<int>
    decreases s.len(),
{
    if s.len() == 0 {
        Some(acc)
    } else if '0' <= s[0] && s[0] <= '9' {
        spec_dec_value(s.skip(1), acc * 10 + (s[0] as int - 48))
    } else {
        None
    }
}

/// The number a digit string denotes, or `None` if it is empty or holds a
/// non-digit.
pub open spec fn spec_parse_dec(s: Seq<char>) -> Option<int> {
    if s.len() == 0 {
        None
    } else {
        spec_dec_value(s, 0)
    }
}

proof fn lemma_dec_value_append(s: Seq<char>, c: char, acc: int)
    requires
        '0' <= c <= '9',
        spec_dec_value(s, acc) is Some,
    ensures
        spec_dec_value(s.push(c), acc) == Some(spec_dec_value(s, acc)->0 * 10 + (c as int - 48)),
    decreases s.len(),
{
    if s.len() == 0 {
        assert(s.push(c)[0] == c);
        assert(s.push(c).skip(1) =~= Seq::<char>::empty());
        assert(spec_dec_value(Seq::<char>::empty(), acc * 10 + (c as int - 48)) == Some(
            acc * 10 + (c as int - 48),
        ));
        assert(spec_dec_value(s.push(c), acc) == spec_dec_value(
            Seq::<char>::empty(),
            acc * 10 + (c as int - 48),
        ));
    } else {
        assert(s.push(c)[0] == s[0]);
        assert(s.push(c).skip(1) =~= s.skip(1).push(c));
        lemma_dec_value_append(s.skip(1), c, acc * 10 + (s[0] as int - 48));
        assert(spec_dec_value(s.push(c), acc) == spec_dec_value(
            s.skip(1).push(c),
            acc * 10 + (s[0] as int - 48),
        ));
        assert(spec_dec_value(s, acc) == spec_dec_value(s.skip(1), acc * 10 + (s[0] as int - 48)));
    }
}

/// Digits render values below ten, so the rendering of a number parses back
/// to the same number.
proof fn lemma_dec_round_trip_value(n: int)
    requires
        n >= 0,
    ensures
        spec_dec_value(spec_dec(n), 0) == Some(n),
    decreases n,
{
    if n < 10 {
        assert(spec_dec(n) == seq![spec_digit(n)]);
        assert('0' <= spec_digit(n) <= '9');
        assert(seq![spec_digit(n)][0] == spec_digit(n));
        assert(seq![spec_digit(n)].skip(1) =~= Seq::<char>::empty());
        assert(spec_digit(n) as int == n + 48);
        assert(spec_dec_value(Seq::<char>::empty(), n) == Some(n));
        assert(spec_dec_value(seq![spec_digit(n)], 0) == spec_dec_value(
            seq![spec_digit(n)].skip(1),
            n,
        ));
    } else {
        lemma_dec_round_trip_value(n / 10);
        assert('0' <= spec_digit(n % 10) <= '9') by {
            assert(spec_digit(n % 10) == ((n % 10 + 48) as u8) as char);
        }
        lemma_dec_value_append(spec_dec(n / 10), spec_digit(n % 10), 0);
        assert(spec_digit(n % 10) as int == n % 10 + 48);
        assert(spec_dec_value(spec_dec(n), 0) == Some((n / 10) * 10 + n % 10));
        assert((n / 10) * 10 + n % 10 == n) by (nonlinear_arith);
    }
}

/// The decimal rendering of a number always parses back to that number.
pub proof fn lemma_dec_round_trip(n: int)
    requires
        n >= 0,
    ensures
        spec_parse_dec(spec_dec(n)) == Some(n),
{
    assert(spec_dec(n).len() > 0);
    lemma_dec_round_trip_value(n);
}

/// Parses the decimal digit run `s[from..to)` as a `u64`, rejecting
/// non-digits, the empty run, and values over `u64::MAX`.
pub fn parse_dec_u64(s: &str, from: usize, to: usize) -> (r: Option<u64>)
    requires
        from <= to <= s@.len(),
    ensures
        ({
            let digits = s@.subrange(from as int, to as int);
            match r {
                Some(v) => spec_parse_dec(digits) == Some(v as int),
                None => spec_parse_dec(digits) is None || (spec_parse_dec(digits) matches Some(m)
                    && m > u64::MAX),
            }
        }),
{
    let ghost digits = s@.subrange(from as int, to as int);
    if from == to {
        assert(digits.len() == 0);
        return None;
    }
    let mut acc: u64 = 0;
    let mut i: usize = from;
    assert(digits.skip(0) =~= digits);
    while i < to
        invariant
            from <= i <= to <= s@.len(),
            digits == s@.subrange(from as int, to as int),
            spec_dec_value(digits.skip(i - from), acc as int) == spec_dec_value(digits, 0),
        decreases to - i,
    {
        let c = s.get_char(i);
        assert(digits.skip(i - from)[0] == c) by {
            assert(digits.skip(i - from)[0] == digits[i - from]);
        }
        if !('0' <= c && c <= '9') {
            assert(spec_dec_value(digits.skip(i - from), acc as int) is None);
            return None;
        }
        let d: u64 = (c as u8 - 48) as u64;
        assert(d == c as int - 48 && d < 10) by {
            assert('0' as int == 48 && '9' as int == 57);
        }
        if acc > (u64::MAX - d) / 10 {
            proof {
                let rem = digits.skip(i - from);
                let rem2 = digits.skip(i + 1 - from);
                assert(rem.skip(1) =~= rem2);
                if spec_dec_value(digits, 0) is Some {
                    assert(spec_dec_value(rem, acc as int) == spec_dec_value(
                        rem2,
                        acc as int * 10 + d,
                    ));
                    lemma_dec_value_lower(rem2, acc as int * 10 + d);
                    assert(acc as int * 10 + d > u64::MAX) by (nonlinear_arith)
                        requires
                            acc > (u64::MAX - d as u64) / 10,
                            d < 10,
                    ;
                }
                assert(digits.len() > 0);
            }
            return None;
        }
        assert(acc * 10 + d <= u64::MAX) by (nonlinear_arith)
            requires
                acc <= (u64::MAX - d) / 10,
                d < 10,
        ;
        acc = acc * 10 + d;
        assert(digits.skip(i - from).skip(1) =~= digits.skip(i + 1 - from));
        i += 1;
    }
    assert(digits.skip(i - from) =~= Seq::<char>::empty());
    assert(spec_dec_value(digits, 0) == Some(acc as int));
    assert(digits.len() > 0);
    assert(spec_parse_dec(digits) == spec_dec_value(digits, 0));
    Some(acc)
}

/// A digit run starting from accumulator `acc` denotes at least `acc`.
proof fn lemma_dec_value_lower(s: Seq<char>, acc: int)
    requires
        acc >= 0,
        spec_dec_value(s, acc) is Some,
    ensures
        spec_dec_value(s, acc)->0 >= acc,
    decreases s.len(),
{
    if s.len() > 0 {
        lemma_dec_value_lower(s.skip(1), acc * 10 + (s[0] as int - 48));
        assert(acc * 10 + (s[0] as int - 48) >= acc) by (nonlinear_arith)
            requires
                acc >= 0,
                s[0] as int - 48 >= 0,
        ;
    }
}

/// The signed number a string denotes: an optional sign, then decimal
/// digits; `None` for anything else.
pub open spec fn spec_parse_i64(s: Seq<char>) -> Option<int> {
    if s.len() >= 1 && s[0] == '-' {
        match spec_parse_dec(s.skip(1)) {
            Some(m) => Some(-m),
            None => None,
        }
    } else if s.len() >= 1 && s[0] == '+' {
        spec_parse_dec(s.skip(1))
    } else {
        spec_parse_dec(s)
    }
}

/// Parses a whole string as a decimal `i64`, accepting an optional leading
/// sign, as the timestamp heuristics need; values outside the `i64` range
/// are rejected.
pub fn parse_dec_i64(s: &str) -> (r: Option<i64>)
    ensures
        match r {
            Some(v) => spec_parse_i64(s@) == Some(v as int),
            None => spec_parse_i64(s@) is None || (spec_parse_i64(s@) matches Some(m) && (m
                < i64::MIN || m > i64::MAX)),
        },
{
    let n: usize = s.unicode_len();
    if n == 0 {
        return None;
    }
    let c0 = s.get_char(0);
    if c0 == '-' {
        proof {
            assert(s@.subrange(1, n as int) =~= s@.skip(1));
        }
        match parse_dec_u64(s, 1, n) {
            Some(v) => {
                if v < 9223372036854775808u64 {
                    Some(-(v as i64))
                } else if v == 9223372036854775808u64 {
                    Some(i64::MIN)
                } else {
                    None
                }
            },
            None => {
                proof {
                    if spec_parse_dec(s@.skip(1)) is Some {
                        assert(spec_parse_dec(s@.skip(1))->0 > u64::MAX);
                    }
                }
                None
            },
        }
    } else if c0 == '+' {
        proof {
            assert(s@.subrange(1, n as int) =~= s@.skip(1));
        }
        match parse_dec_u64(s, 1, n) {
            Some(v) => {
                if v <= i64::MAX as u64 {
                    Some(v as i64)
                } else {
                    None
                }
            },
            None => None,
        }
    } else {
        proof {
            assert(s@.subrange(0, n as int) =~= s@);
        }
        match parse_dec_u64(s, 0, n) {
            Some(v) => {
                if v <= i64::MAX as u64 {
                    Some(v as i64)
                } else {
                    None
                }
            },
            None => None,
        }
    }
}

/// Copies the character range `[from, to)` of `s` into a fresh `String`.
pub fn substring_copy(s: &str, from: usize, to: usize) -> (r: String)
    requires
        from <= to <= s@.len(),
    ensures
        r@ == s@.subrange(from as int, to as int),
{
    let mut out = String::new();
    let mut i: usize = from;
    while i < to
        invariant
            from <= i <= to <= s@.len(),
            out@ == s@.subrange(from as int, i as int),
        decreases to - i,
    {
        let c = s.get_char(i);
        push_char(&mut out, c);
        assert(out@ =~= s@.subrange(from as int, i + 1));
        i += 1;
    }
    out
}

} // verus!
