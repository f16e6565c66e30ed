//! Resumable cursors and their wire format.
//!
//! A cursor is either an opaque journal token or a manual flat-file
//! position: a byte offset plus the fingerprint (timestamp and exact text)
//! of the line last seen there.  On the wire a cursor is a tagged string,
//! `Journal:<token>` or `Manual:<json {timestamp,data,offset}>`, and the
//! codec here round-trips every constructible cursor exactly.

use vstd::prelude::*;

use crate::text::{push_char, spec_dec, spec_parse_dec, lemma_dec_round_trip, parse_dec_u64,
    u64_to_dec, occurs_at, matches_at, substring_copy};

verus! {

/// A flat-file cursor: the byte offset after the last delivered line, and
/// that line's timestamp and exact text as a verification fingerprint.
#[derive(Clone, Debug)]
pub struct Cursor {
    pub timestamp: String,
    pub data: String,
    pub offset: u64,
}

/// Ghost view of a manual cursor.
pub struct CursorView {
    pub timestamp: Seq<char>,
    pub data: Seq<char>,
    pub offset: u64,
}

impl View for Cursor {
    type V = CursorView;

    open spec fn view(&self) -> CursorView {
        CursorView { timestamp: self.timestamp@, data: self.data@, offset: self.offset }
    }
}

impl PartialEq for Cursor {
    fn eq(&self, o: &Cursor) -> bool {
        self.timestamp == o.timestamp && self.data == o.data && self.offset == o.offset
    }
}

impl vstd::std_specs::cmp::PartialEqSpecImpl for Cursor {
    open spec fn obeys_eq_spec() -> bool {
        true
    }

    open spec fn eq_spec(&self, o: &Cursor) -> bool {
        self.timestamp@ == o.timestamp@ && self.data@ == o.data@ && self.offset == o.offset
    }
}

/// The two structurally different cursor shapes: an opaque token minted by
/// the journal backend, or a manual offset-plus-fingerprint position.
#[derive(Clone, Debug)]
pub enum CursorType {
    Journal(String),
    Manual(Cursor),
}

/// Ghost view of a cursor of either shape.
pub enum CursorTypeView {
    Journal(Seq<char>),
    Manual(CursorView),
}

impl View for CursorType {
    type V = CursorTypeView;

    open spec fn view(&self) -> CursorTypeView {
        match self {
            CursorType::Journal(t) => CursorTypeView::Journal(t@),
            CursorType::Manual(c) => CursorTypeView::Manual(c@),
        }
    }
}

impl PartialEq for CursorType {
    fn eq(&self, o: &CursorType) -> bool {
        match (self, o) {
            (CursorType::Journal(a), CursorType::Journal(b)) => *a == *b,
            (CursorType::Manual(a), CursorType::Manual(b)) => *a == *b,
            _ => false,
        }
    }
}

impl vstd::std_specs::cmp::PartialEqSpecImpl for CursorType {
    open spec fn obeys_eq_spec() -> bool {
        true
    }

    open spec fn eq_spec(&self, o: &CursorType) -> bool {
        match (self, o) {
            (CursorType::Journal(a), CursorType::Journal(b)) => a@ == b@,
            (CursorType::Manual(a), CursorType::Manual(b)) => a@.timestamp == b@.timestamp
                && a@.data == b@.data && a@.offset == b@.offset,
            _ => false,
        }
    }
}

impl std::str::FromStr for CursorType {
    type Err = String;

    /// Parses a wire cursor, as `parse_cursor` does.
    fn from_str(s: &str) -> Result<CursorType, String> {
        match parse_cursor(s) {
            Some(c) => Ok(c),
            None => Err("unrecognized cursor".to_owned()),
        }
    }
}

/// The escaping of one character inside a JSON string body.
pub open spec fn esc_char(c: char) -> Seq<char> {
    if c == '"' {
        seq!['\\', '"']
    } else if c == '\\' {
        seq!['\\', '\\']
    } else if c == '\n' {
        seq!['\\', 'n']
    } else if c == '\r' {
        seq!['\\', 'r']
    } else if c == '\t' {
        seq!['\\', 't']
    } else {
        seq![c]
    }
}

/// The escaped form of a whole string body.
pub open spec fn esc(s: Seq<char>) -> Seq<char>
    decreases s.len(),
{
    if s.len() == 0 {
        Seq::empty()
    } else {
        esc_char(s[0]) + esc(s.skip(1))
    }
}

/// What an escape sequence `\m` stands for, if `m` is a valid escape.
pub open spec fn unesc_char(m: char) -> Option<char> {
    if m == '"' {
        Some('"')
    } else if m == '\\' {
        Some('\\')
    } else if m == 'n' {
        Some('\n')
    } else if m == 'r' {
        Some('\r')
    } else if m == 't' {
        Some('\t')
    } else {
        None
    }
}

/// The unescaping of a JSON string body; `None` on a dangling backslash or
/// unknown escape.
pub open spec fn unesc(s: Seq<char>) -> Option<Seq<char>>
    decreases s.len(),
{
    if s.len() == 0 {
        Some(Seq::empty())
    } else if s[0] == '\\' {
        if s.len() < 2 {
            None
        } else {
            match (unesc_char(s[1]), unesc(s.skip(2))) {
                (Some(c), Some(rest)) => Some(seq![c] + rest),
                _ => None,
            }
        }
    } else {
        match unesc(s.skip(1)) {
            Some(rest) => Some(seq![s[0]] + rest),
            None => None,
        }
    }
}

/// The position of the first unescaped `"` in `s`, skipping over escape
/// pairs; `None` if none is found.
pub open spec fn scan_quote(s: Seq<char>) -> Option<int>
    decreases s.len(),
{
    if s.len() == 0 {
        None
    } else if s[0] == '"' {
        Some(0)
    } else if s[0] == '\\' {
        if s.len() < 2 {
            None
        } else {
            match scan_quote(s.skip(2)) {
                Some(k) => Some(k + 2),
                None => None,
            }
        }
    } else {
        match scan_quote(s.skip(1)) {
            Some(k) => Some(k + 1),
            None => None,
        }
    }
}

/// The rendered wire form of a manual cursor.
pub open spec fn spec_render_manual(c: CursorView) -> Seq<char> {
    "Manual:"@ + "{\"timestamp\":\""@ + esc(c.timestamp) + "\",\"data\":\""@ + esc(c.data)
        + "\",\"offset\":"@ + spec_dec(c.offset as int) + "}"@
}

/// The rendered wire form of a cursor.
pub open spec fn spec_render(c: CursorTypeView) -> Seq<char> {
    match c {
        CursorTypeView::Journal(t) => "Journal:"@ + t,
        CursorTypeView::Manual(m) => spec_render_manual(m),
    }
}

/// The parse of the JSON object body (after the `Manual:` tag), in the
/// canonical spelling the renderer produces.
pub open spec fn spec_parse_manual(s: Seq<char>) -> Option<CursorView> {
    let l1 = "{\"timestamp\":\""@;
    let l2 = "\",\"data\":\""@;
    let l3 = "\",\"offset\":"@;
    if s.len() < l1.len() || s.take(l1.len() as int) != l1 {
        None
    } else {
        match scan_quote(s.skip(l1.len() as int)) {
            None => None,
            Some(k1) => {
                let i1 = l1.len() + k1;  // position of the quote closing the timestamp
                match unesc(s.subrange(l1.len() as int, i1 as int)) {
                    None => None,
                    Some(ts) => {
                        if i1 + l2.len() > s.len() || s.subrange(i1 as int, i1 + l2.len()) != l2 {
                            None
                        } else {
                            let d0 = i1 + l2.len();
                            match scan_quote(s.skip(d0 as int)) {
                                None => None,
                                Some(k2) => {
                                    let i2 = d0 + k2;  // quote closing the data
                                    match unesc(s.subrange(d0 as int, i2 as int)) {
                                        None => None,
                                        Some(data) => {
                                            if i2 + l3.len() + 2 > s.len() || s.subrange(
                                                i2 as int,
                                                i2 + l3.len(),
                                            ) != l3 || s[s.len() - 1] != '}' {
                                                None
                                            } else {
                                                match spec_parse_dec(
                                                    s.subrange(i2 + l3.len(), s.len() - 1),
                                                ) {
                                                    Some(v) => if v <= u64::MAX {
                                                        Some(
                                                            CursorView {
                                                                timestamp: ts,
                                                                data: data,
                                                                offset: v as u64,
                                                            },
                                                        )
                                                    } else {
                                                        None
                                                    },
                                                    None => None,
                                                }
                                            }
                                        },
                                    }
                                },
                            }
                        }
                    },
                }
            },
        }
    }
}

/// The parse of a whole wire cursor.
pub open spec fn spec_parse(s: Seq<char>) -> Option<CursorTypeView> {
    if s.len() >= "Journal:"@.len() && s.take("Journal:"@.len() as int) == "Journal:"@ {
        Some(CursorTypeView::Journal(s.skip("Journal:"@.len() as int)))
    } else if s.len() >= "Manual:"@.len() && s.take("Manual:"@.len() as int) == "Manual:"@ {
        match spec_parse_manual(s.skip("Manual:"@.len() as int)) {
            Some(c) => Some(CursorTypeView::Manual(c)),
            None => None,
        }
    } else {
        None
    }
}

/// Escapes a string body, mirroring `esc`.
fn escape_into(out: &mut String, s: &str)
    ensures
        final(out)@ == old(out)@ + esc(s@),
{
    let n: usize = s.unicode_len();
    let mut i: usize = 0;
    proof {
        lemma_esc_append_empty(s@);
    }
    let ghost base = out@;
    while i < n
        invariant
            i <= n,
            n == s@.len(),
            out@ == base + esc(s@.take(i as int)),
        decreases n - i,
    {
        let c = s.get_char(i);
        if c == '"' {
            push_char(out, '\\');
            push_char(out, '"');
        } else if c == '\\' {
            push_char(out, '\\');
            push_char(out, '\\');
        } else if c == '\n' {
            push_char(out, '\\');
            push_char(out, 'n');
        } else if c == '\r' {
            push_char(out, '\\');
            push_char(out, 'r');
        } else if c == '\t' {
            push_char(out, '\\');
            push_char(out, 't');
        } else {
            push_char(out, c);
        }
        proof {
            lemma_esc_snoc(s@, i as int);
            assert(out@ == base + esc(s@.take(i + 1)));
        }
        i += 1;
    }
    assert(s@.take(n as int) =~= s@);
}

/// `esc` of an empty sequence is empty.
proof fn lemma_esc_append_empty(s: Seq<char>)
    ensures
        esc(s.take(0)) =~= Seq::<char>::empty(),
{
    assert(s.take(0) =~= Seq::<char>::empty());
}

/// Escaping a one-longer prefix appends the escape of the next character.
proof fn lemma_esc_snoc(s: Seq<char>, i: int)
    requires
        0 <= i < s.len(),
    ensures
        esc(s.take(i + 1)) == esc(s.take(i)) + esc_char(s[i]),
    decreases i,
{
    if i == 0 {
        assert(s.take(1) =~= seq![s[0]]);
        assert(seq![s[0]][0] == s[0]);
        assert(seq![s[0]].skip(1) =~= Seq::<char>::empty());
        assert(esc(seq![s[0]]) == esc_char(s[0]) + esc(Seq::<char>::empty()));
        assert(esc(s.take(0)) =~= Seq::<char>::empty());
        assert(esc(s.take(1)) =~= esc(s.take(0)) + esc_char(s[0]));
    } else {
        lemma_esc_snoc(s.skip(1), i - 1);
        assert(s.take(i + 1)[0] == s[0]);
        assert(s.take(i + 1).skip(1) =~= s.skip(1).take(i));
        assert(s.take(i)[0] == s[0]);
        assert(s.take(i).skip(1) =~= s.skip(1).take(i - 1));
        assert(s.skip(1)[i - 1] == s[i]);
        assert(esc(s.take(i + 1)) == esc_char(s[0]) + esc(s.skip(1).take(i)));
        assert(esc(s.take(i)) == esc_char(s[0]) + esc(s.skip(1).take(i - 1)));
        assert(esc_char(s[0]) + (esc(s.skip(1).take(i - 1)) + esc_char(s[i])) =~= (esc_char(s[0])
            + esc(s.skip(1).take(i - 1))) + esc_char(s[i]));
    }
}

/// Renders a cursor onto the wire.
pub fn render_cursor(c: &CursorType) -> (r: String)
    ensures
        r@ == spec_render(c@),
{
    match c {
        CursorType::Journal(t) => {
            let mut out = String::from_str("Journal:");
            out.append(t.as_str());
            out
        },
        CursorType::Manual(m) => {
            let mut out = String::from_str("Manual:");
            out.append("{\"timestamp\":\"");
            escape_into(&mut out, m.timestamp.as_str());
            out.append("\",\"data\":\"");
            escape_into(&mut out, m.data.as_str());
            out.append("\",\"offset\":");
            let dec = u64_to_dec(m.offset);
            out.append(dec.as_str());
            out.append("}");
            assert(out@ =~= spec_render_manual(m@));
            out
        },
    }
}

/// Shifts the index inside an optional scan result.
pub open spec fn opt_shift(o: Option<int>, d: int) -> Option<int> {
    match o {
        Some(k) => Some(k + d),
        None => None,
    }
}

/// Finds the first unescaped quote at or after `from`, as `scan_quote` does
/// on the suffix.
fn scan_quote_exec(s: &str, from: usize) -> (r: Option<usize>)
    requires
        from <= s@.len(),
    ensures
        match r {
            Some(j) => from <= j < s@.len() && scan_quote(s@.skip(from as int)) == Some(
                j - from,
            ),
            None => scan_quote(s@.skip(from as int)) is None,
        },
{
    let n: usize = s.unicode_len();
    let mut i: usize = from;
    while i < n
        invariant
            from <= i <= n,
            n == s@.len(),
            scan_quote(s@.skip(from as int)) == opt_shift(
                scan_quote(s@.skip(i as int)),
                i - from,
            ),
        decreases n - i,
    {
        let c = s.get_char(i);
        assert(s@.skip(i as int)[0] == c);
        if c == '"' {
            assert(scan_quote(s@.skip(i as int)) == Some(0int));
            return Some(i);
        }
        if c == '\\' {
            if i + 1 >= n {
                assert(s@.skip(i as int).len() < 2);
                assert(scan_quote(s@.skip(i as int)) is None);
                return None;
            }
            assert(s@.skip(i as int).skip(2) =~= s@.skip(i + 2));
            i += 2;
        } else {
            assert(s@.skip(i as int).skip(1) =~= s@.skip(i + 1));
            i += 1;
        }
    }
    assert(s@.skip(i as int).len() == 0);
    assert(scan_quote(s@.skip(i as int)) is None);
    None
}

/// Unescapes the range `[from, to)` of `s`, as `unesc` does on that
/// subrange.
fn unescape_exec(s: &str, from: usize, to: usize) -> (r: Option<String>)
    requires
        from <= to <= s@.len(),
    ensures
        match r {
            Some(x) => unesc(s@.subrange(from as int, to as int)) == Some(x@),
            None => unesc(s@.subrange(from as int, to as int)) is None,
        },
{
    let ghost sub = s@.subrange(from as int, to as int);
    let mut out = String::new();
    let mut i: usize = from;
    assert(sub.skip(0) =~= sub);
    while i < to
        invariant
            from <= i <= to <= s@.len(),
            sub == s@.subrange(from as int, to as int),
            match unesc(sub.skip(i - from)) {
                Some(x) => unesc(sub) == Some(out@ + x),
                None => unesc(sub) is None,
            },
        decreases to - i,
    {
        let ghost rem = sub.skip(i - from);
        let c = s.get_char(i);
        assert(rem[0] == c) by {
            assert(rem[0] == sub[i - from]);
        }
        if c == '\\' {
            if i + 1 >= to {
                assert(rem.len() < 2);
                assert(unesc(rem) is None);
                return None;
            }
            let m = s.get_char(i + 1);
            assert(rem[1] == m) by {
                assert(rem[1] == sub[i + 1 - from]);
            }
            let u: char = if m == '"' {
                '"'
            } else if m == '\\' {
                '\\'
            } else if m == 'n' {
                '\n'
            } else if m == 'r' {
                '\r'
            } else if m == 't' {
                '\t'
            } else {
                assert(unesc_char(m) is None);
                assert(unesc(rem) is None);
                return None;
            };
            assert(unesc_char(m) == Some(u));
            push_char(&mut out, u);
            assert(rem.skip(2) =~= sub.skip(i + 2 - from));
            proof {
                if unesc(sub.skip(i + 2 - from)) is Some {
                    let x2 = unesc(sub.skip(i + 2 - from))->0;
                    assert(unesc(rem) == Some(seq![u] + x2));
                    assert(out@ + x2 =~= old_out_plus(out@, u, x2));
                }
            }
            i += 2;
        } else {
            push_char(&mut out, c);
            assert(rem.skip(1) =~= sub.skip(i + 1 - from));
            proof {
                if unesc(sub.skip(i + 1 - from)) is Some {
                    let x2 = unesc(sub.skip(i + 1 - from))->0;
                    assert(unesc(rem) == Some(seq![c] + x2));
                    assert(out@ + x2 =~= old_out_plus(out@, c, x2));
                }
            }
            i += 1;
        }
    }
    assert(sub.skip(i - from) =~= Seq::<char>::empty());
    assert(unesc(sub.skip(i - from)) == Some(Seq::<char>::empty()));
    assert(out@ + Seq::<char>::empty() =~= out@);
    Some(out)
}

/// The sequence obtained by removing the last pushed character and
/// re-appending it in front of `x2`; used to restate an append associativity
/// step.
pub open spec fn old_out_plus(cur: Seq<char>, c: char, x2: Seq<char>) -> Seq<char> {
    cur.take(cur.len() - 1) + (seq![c] + x2)
}

/// Parses the JSON object body of a manual cursor.
fn parse_manual(b: &str) -> (r: Option<Cursor>)
    ensures
        match r {
            Some(c) => spec_parse_manual(b@) == Some(c@),
            None => spec_parse_manual(b@) is None,
        },
{
    proof {
        reveal_strlit("{\"timestamp\":\"");
        reveal_strlit("\",\"data\":\"");
        reveal_strlit("\",\"offset\":");
    }
    let n: usize = b.unicode_len();
    if n < 14 {
        return None;
    }
    if !matches_at(b, "{\"timestamp\":\"", 0) {
        assert(b@.take(14) != "{\"timestamp\":\""@) by {
            assert(b@.take(14) =~= b@.subrange(0, 14));
        }
        return None;
    }
    assert(b@.take(14) == "{\"timestamp\":\""@) by {
        assert(b@.take(14) =~= b@.subrange(0, 14));
    }
    let i1 = match scan_quote_exec(b, 14) {
        Some(j) => j,
        None => {
            return None;
        },
    };
    let ts = match unescape_exec(b, 14, i1) {
        Some(x) => x,
        None => {
            return None;
        },
    };
    if n - i1 < 10 {
        return None;
    }
    if !matches_at(b, "\",\"data\":\"", i1) {
        return None;
    }
    let d0 = i1 + 10;
    let i2 = match scan_quote_exec(b, d0) {
        Some(j) => j,
        None => {
            return None;
        },
    };
    let data = match unescape_exec(b, d0, i2) {
        Some(x) => x,
        None => {
            return None;
        },
    };
    if n - i2 < 13 {
        return None;
    }
    if !matches_at(b, "\",\"offset\":", i2) {
        return None;
    }
    if b.get_char(n - 1) != '}' {
        return None;
    }
    let v = match parse_dec_u64(b, i2 + 11, n - 1) {
        Some(x) => x,
        None => {
            return None;
        },
    };
    Some(Cursor { timestamp: ts, data: data, offset: v })
}

/// Parses a wire cursor string; inverse of `render_cursor` on everything
/// `render_cursor` produces.  The accepted `Manual:` body is the crate's
/// canonical rendering exactly — fixed key order, no insignificant
/// whitespace, and only the escapes the renderer emits; any other JSON
/// spelling of the same object is rejected.  Cursors are opaque to
/// callers and come back as rendered, so the round trip is the
/// compatibility contract.
pub fn parse_cursor(s: &str) -> (r: Option<CursorType>)
    ensures
        match r {
            Some(c) => spec_parse(s@) == Some(c@),
            None => spec_parse(s@) is None,
        },
{
    proof {
        reveal_strlit("Journal:");
        reveal_strlit("Manual:");
    }
    let n: usize = s.unicode_len();
    if n >= 8 && matches_at(s, "Journal:", 0) {
        assert(s@.take(8) == "Journal:"@) by {
            assert(s@.take(8) =~= s@.subrange(0, 8));
        }
        let token = substring_copy(s, 8, n);
        assert(token@ =~= s@.skip(8));
        return Some(CursorType::Journal(token));
    }
    assert(!(s@.len() >= 8 && s@.take(8) == "Journal:"@)) by {
        if s@.len() >= 8 {
            assert(s@.take(8) =~= s@.subrange(0, 8));
        }
    }
    if n >= 7 && matches_at(s, "Manual:", 0) {
        assert(s@.take(7) == "Manual:"@) by {
            assert(s@.take(7) =~= s@.subrange(0, 7));
        }
        let body = substring_copy(s, 7, n);
        assert(body@ =~= s@.skip(7));
        return match parse_manual(body.as_str()) {
            Some(c) => Some(CursorType::Manual(c)),
            None => None,
        };
    }
    assert(!(s@.len() >= 7 && s@.take(7) == "Manual:"@)) by {
        if s@.len() >= 7 {
            assert(s@.take(7) =~= s@.subrange(0, 7));
        }
    }
    None
}

/// The decimal rendering is never empty.
proof fn lemma_dec_len(n: int)
    requires
        n >= 0,
    ensures
        spec_dec(n).len() >= 1,
{
}

/// Scanning the escaped body followed by a closing quote stops exactly at
/// that quote: escaping leaves no unescaped quote behind.
proof fn lemma_scan_esc(x: Seq<char>, t: Seq<char>)
    requires
        t.len() > 0,
        t[0] == '"',
    ensures
        scan_quote(esc(x) + t) == Some(esc(x).len() as int),
    decreases x.len(),
{
    if x.len() == 0 {
        assert(esc(x) + t =~= t);
    } else {
        let s = esc(x) + t;
        let rest = esc(x.skip(1)) + t;
        lemma_scan_esc(x.skip(1), t);
        assert(esc(x) == esc_char(x[0]) + esc(x.skip(1)));
        if x[0] == '"' || x[0] == '\\' || x[0] == '\n' || x[0] == '\r' || x[0] == '\t' {
            assert(esc_char(x[0]).len() == 2);
            assert(esc_char(x[0])[0] == '\\');
            assert(s[0] == '\\');
            assert(s.len() >= 2);
            assert(s.skip(2) =~= rest);
        } else {
            assert(esc_char(x[0]) =~= seq![x[0]]);
            assert(s[0] == x[0]);
            assert(s[0] != '"' && s[0] != '\\');
            assert(s.skip(1) =~= rest);
        }
    }
}

/// Unescaping inverts escaping on every string body.
proof fn lemma_unesc_esc(x: Seq<char>)
    ensures
        unesc(esc(x)) == Some(x),
    decreases x.len(),
{
    if x.len() == 0 {
        assert(esc(x) =~= Seq::<char>::empty());
    } else {
        let s = esc(x);
        lemma_unesc_esc(x.skip(1));
        assert(s == esc_char(x[0]) + esc(x.skip(1)));
        if x[0] == '"' || x[0] == '\\' || x[0] == '\n' || x[0] == '\r' || x[0] == '\t' {
            assert(esc_char(x[0]).len() == 2);
            assert(esc_char(x[0])[0] == '\\');
            assert(s[0] == '\\');
            assert(s.len() >= 2);
            assert(s[1] == esc_char(x[0])[1]);
            assert(unesc_char(s[1]) == Some(x[0]));
            assert(s.skip(2) =~= esc(x.skip(1)));
            assert(seq![x[0]] + x.skip(1) =~= x);
        } else {
            assert(esc_char(x[0]) =~= seq![x[0]]);
            assert(s[0] == x[0]);
            assert(s[0] != '\\');
            assert(s.skip(1) =~= esc(x.skip(1)));
            assert(seq![x[0]] + x.skip(1) =~= x);
        }
    }
}

/// Every constructible cursor survives the wire round trip: parsing the
/// rendered form yields the cursor back, exactly.
pub proof fn lemma_cursor_round_trip(c: CursorTypeView)
    ensures
        spec_parse(spec_render(c)) == Some(c),
{
    reveal_strlit("Journal:");
    reveal_strlit("Manual:");
    reveal_strlit("{\"timestamp\":\"");
    reveal_strlit("\",\"data\":\"");
    reveal_strlit("\",\"offset\":");
    reveal_strlit("}");
    let jt = "Journal:"@;
    let mt = "Manual:"@;
    let l1 = "{\"timestamp\":\""@;
    let l2 = "\",\"data\":\""@;
    let l3 = "\",\"offset\":"@;
    match c {
        CursorTypeView::Journal(t) => {
            let s = spec_render(c);
            assert(s.len() >= 8);
            assert(s.take(8) =~= jt);
            assert(s.skip(8) =~= t);
        },
        CursorTypeView::Manual(m) => {
            let s = spec_render(c);
            let dec = spec_dec(m.offset as int);
            lemma_dec_len(m.offset as int);
            assert(s =~= mt + (l1 + esc(m.timestamp) + l2 + esc(m.data) + l3 + dec + "}"@));
            let b = l1 + esc(m.timestamp) + l2 + esc(m.data) + l3 + dec + "}"@;
            // the Journal branch does not fire: the tags differ at the start
            assert(s.len() >= 8);
            assert(s[0] == 'M' && jt[0] == 'J');
            assert(s.take(8) != jt) by {
                assert(s.take(8)[0] == 'M');
            }
            // the Manual tag is stripped
            assert(s.take(7) =~= mt);
            assert(s.skip(7) =~= b);
            // the timestamp literal, body and closing quote line up
            assert(b.take(14) =~= l1);
            let tail1 = l2 + esc(m.data) + l3 + dec + "}"@;
            assert(b.skip(14) =~= esc(m.timestamp) + tail1);
            assert(tail1[0] == '"');
            lemma_scan_esc(m.timestamp, tail1);
            let k1 = esc(m.timestamp).len() as int;
            let i1 = 14 + k1;
            assert(b.subrange(14, i1) =~= esc(m.timestamp));
            lemma_unesc_esc(m.timestamp);
            // the data literal, body and closing quote line up
            assert(i1 + l2.len() <= b.len());
            assert(b.subrange(i1, i1 + 10) =~= l2);
            let d0 = i1 + 10;
            let tail2 = l3 + dec + "}"@;
            assert(b.skip(d0) =~= esc(m.data) + tail2);
            assert(tail2[0] == '"');
            lemma_scan_esc(m.data, tail2);
            let k2 = esc(m.data).len() as int;
            let i2 = d0 + k2;
            assert(b.subrange(d0, i2) =~= esc(m.data));
            lemma_unesc_esc(m.data);
            // the offset literal and digits line up, and the object closes
            assert(i2 + l3.len() + 2 <= b.len());
            assert(b.subrange(i2, i2 + 11) =~= l3);
            assert(b[b.len() - 1] == '}') by {
                assert("}"@.len() == 1);
            }
            assert(b.subrange(i2 + 11, b.len() - 1) =~= dec);
            lemma_dec_round_trip(m.offset as int);
            assert(spec_parse_manual(b) == Some(
                CursorView { timestamp: m.timestamp, data: m.data, offset: m.offset },
            ));
            assert(CursorView { timestamp: m.timestamp, data: m.data, offset: m.offset } == m);
        },
    }
}

} // verus!
