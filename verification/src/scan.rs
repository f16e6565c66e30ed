//! The line model of the flat append-only file, and the backward scan that
//! reconstructs whole lines from an arbitrary byte offset without a native
//! reverse-iteration primitive.
//!
//! The file is a byte sequence; lines are the maximal runs between `\n`
//! bytes, the final run counting as a line even without a terminator.  The
//! backward scan walks from the offset toward byte zero carrying the
//! partial line that the walk has not yet completed; that carry-over must
//! neither lose nor duplicate a byte, which is exactly what the loop
//! invariant here states.

use vstd::prelude::*;

verus! {

/// The newline byte.
pub open spec fn nl() -> u8 {
    10u8
}

/// The index of the first newline at or after `p`, or `s.len()` if there is
/// none.
pub open spec fn find_nl(s: Seq<u8>, p: int) -> int
    recommends
        0 <= p <= s.len(),
    decreases s.len() - p,
{
    if p < 0 || p >= s.len() {
        s.len() as int
    } else if s[p] == nl() {
        p
    } else {
        find_nl(s, p + 1)
    }
}

/// `find_nl` stays within `[p, s.len()]` and finds only newlines.
pub proof fn lemma_find_nl_bounds(s: Seq<u8>, p: int)
    requires
        0 <= p <= s.len(),
    ensures
        p <= find_nl(s, p) <= s.len(),
        find_nl(s, p) < s.len() ==> s[find_nl(s, p)] == nl(),
        forall|j: int| p <= j < find_nl(s, p) ==> s[j] != nl(),
    decreases s.len() - p,
{
    if p < s.len() && s[p] != nl() {
        lemma_find_nl_bounds(s, p + 1);
    }
}

/// The lines of a byte sequence: maximal runs between newlines, without
/// their terminators; a trailing run without a newline is a line, and an
/// empty sequence has no lines.
pub open spec fn spec_lines(s: Seq<u8>) -> Seq<Seq<u8>>
    decreases s.len(),
    when true
    via spec_lines_decreases
{
    if s.len() == 0 {
        Seq::empty()
    } else {
        let k = find_nl(s, 0);
        if k == s.len() {
            seq![s]
        } else {
            seq![s.take(k)] + spec_lines(s.skip(k + 1))
        }
    }
}

#[via_fn]
proof fn spec_lines_decreases(s: Seq<u8>) {
    if s.len() > 0 {
        lemma_find_nl_bounds(s, 0);
    }
}

/// If `head` holds no newline, the lines of `head ++ \n ++ rest` are `head`
/// followed by the lines of `rest`.
pub proof fn lemma_lines_split(head: Seq<u8>, rest: Seq<u8>)
    requires
        forall|j: int| 0 <= j < head.len() ==> head[j] != nl(),
    ensures
        spec_lines(head + seq![nl()] + rest) == seq![head] + spec_lines(rest),
{
    let s = head + seq![nl()] + rest;
    assert(s.len() > 0);
    assert forall|j: int| 0 <= j < head.len() implies s[j] != nl() by {
        assert(s[j] == head[j]);
    }
    assert(s[head.len() as int] == nl());
    lemma_find_nl_prefix(s, head.len() as int);
    assert(find_nl(s, 0) == head.len());
    assert(s.take(head.len() as int) =~= head);
    assert(s.skip(head.len() as int + 1) =~= rest);
}

/// If no byte before `k` is a newline and `s[k]` is one, the first newline
/// from the start is at `k`.
proof fn lemma_find_nl_prefix(s: Seq<u8>, k: int)
    requires
        0 <= k < s.len(),
        s[k] == nl(),
        forall|j: int| 0 <= j < k ==> s[j] != nl(),
    ensures
        find_nl(s, 0) == k,
{
    lemma_find_nl_from(s, 0, k);
}

proof fn lemma_find_nl_from(s: Seq<u8>, p: int, k: int)
    requires
        0 <= p <= k < s.len(),
        s[k] == nl(),
        forall|j: int| p <= j < k ==> s[j] != nl(),
    ensures
        find_nl(s, p) == k,
    decreases k - p,
{
    if p < k {
        lemma_find_nl_from(s, p + 1, k);
    }
}

/// A sequence without any newline is its own single line (or no line at
/// all when empty).
pub proof fn lemma_lines_whole(s: Seq<u8>)
    requires
        forall|j: int| 0 <= j < s.len() ==> s[j] != nl(),
    ensures
        spec_lines(s) == if s.len() == 0 {
            Seq::<Seq<u8>>::empty()
        } else {
            seq![s]
        },
{
    if s.len() > 0 {
        lemma_find_nl_none(s, 0);
    }
}

proof fn lemma_find_nl_none(s: Seq<u8>, p: int)
    requires
        0 <= p <= s.len(),
        forall|j: int| p <= j < s.len() ==> s[j] != nl(),
    ensures
        find_nl(s, p) == s.len(),
    decreases s.len() - p,
{
    if p < s.len() {
        lemma_find_nl_none(s, p + 1);
    }
}

/// Relies on String::from_utf8_lossy: the text is a function of the bytes
/// alone.
pub uninterp spec fn utf8_of(b: Seq<u8>) -> Seq<char>;

/// Relies on String::from_utf8_lossy to turn raw line bytes into text.
#[verifier::external_body]
pub fn bytes_to_string(b: &[u8]) -> (r: String)
    ensures
        r@ == utf8_of(b@),
{
    String::from_utf8_lossy(b).into_owned()
}

/// The backward-scan result as text: the lines of the first `offset`
/// bytes, most recent first, empty lines included.
pub open spec fn spec_backward(s: Seq<u8>, offset: int) -> Seq<Seq<char>> {
    spec_lines(s.take(offset)).reverse().map_values(|l: Seq<u8>| utf8_of(l))
}

/// Reads the lines that end at or before `offset` walking backward toward
/// byte zero, most recent first.  The partial line carried across steps
/// loses no byte and duplicates none: the result is exactly the lines of
/// `content[..offset]`, reversed, every complete line included.  An
/// offset of zero has nothing before it and yields no lines.
pub fn read_file_backward(content: &[u8], offset: usize) -> (r: Vec<String>)
    requires
        offset <= content@.len(),
    ensures
        r@.map_values(|x: String| x@) == spec_backward(content@, offset as int),
{
    let ghost region0 = content@.take(offset as int);
    let mut out: Vec<String> = Vec::new();
    let mut rev_cur: Vec<u8> = Vec::new();
    let mut i: usize = offset;
    proof {
        let region = content@.subrange(offset as int, offset as int);
        assert(region =~= Seq::<u8>::empty());
        assert(rev_cur@.reverse() =~= Seq::<u8>::empty());
        assert(region.take(0) =~= Seq::<u8>::empty());
    }
    while i > 0
        invariant
            i <= offset <= content@.len(),
            backward_inv(content@, i as int, offset as int, rev_cur@, out@),
        decreases i,
    {
        let ghost region = content@.subrange(i as int, offset as int);
        let ghost cur = rev_cur@.reverse();
        let b = content[i - 1];
        let ghost region2 = content@.subrange(i - 1, offset as int);
        assert(region2 =~= seq![b] + region);
        if b == 10u8 {
            proof {
                backward_inv_emit(content@, i as int, offset as int, rev_cur@, out@);
            }
            let ghost out_before = out@;
            if i < offset {
                let line = reverse_bytes(&rev_cur);
                let text = bytes_to_string(line.as_slice());
                out.push(text);
                rev_cur = Vec::new();
                proof {
                    assert(out@.map_values(|x: String| x@) =~= out_before.map_values(
                        |x: String| x@,
                    ) + seq![utf8_of(cur)]);
                }
            } else {
                rev_cur = Vec::new();
            }
            proof {
                assert(rev_cur@.reverse() =~= Seq::<u8>::empty());
                assert(region2.take(0) =~= Seq::<u8>::empty());
                assert(region2[0] == nl());
                assert(region2.skip(1) =~= region);
                if i == offset {
                    assert(region.len() == 0);
                    assert(spec_lines(region) == Seq::<Seq<u8>>::empty());
                    assert(out@.map_values(|x: String| x@) =~= Seq::<Seq<u8>>::empty(
                    ).reverse().map_values(|l: Seq<u8>| utf8_of(l)));
                }
                assert(out@.map_values(|x: String| x@) == spec_lines(region).reverse().map_values(
                    |l: Seq<u8>| utf8_of(l),
                ));
            }
        } else {
            let ghost old_rc = rev_cur@;
            rev_cur.push(b);
            proof {
                let cur2 = rev_cur@.reverse();
                assert(cur2 =~= seq![b] + cur);
                assert(region2.take(cur2.len() as int) =~= seq![b] + region.take(cur.len() as int));
                assert(forall|j: int| 0 <= j < cur2.len() ==> cur2[j] != nl()) by {
                    assert(forall|j: int| 1 <= j < cur2.len() ==> cur2[j] == cur[j - 1]);
                }
                if region.len() > cur.len() {
                    assert(region2[cur2.len() as int] == region[cur.len() as int]);
                    assert(region2.skip(cur2.len() as int + 1) =~= region.skip(
                        cur.len() as int + 1,
                    ));
                } else {
                    assert(region2.len() == cur2.len());
                }
            }
        }
        i -= 1;
    }
    proof {
        backward_inv_emit(content@, 0, offset as int, rev_cur@, out@);
    }
    let r = if offset > 0 {
        let line = reverse_bytes(&rev_cur);
        let text = bytes_to_string(line.as_slice());
        let mut out2 = out;
        out2.push(text);
        out2
    } else {
        out
    };
    proof {
        assert(content@.subrange(0, offset as int) =~= content@.take(offset as int));
    }
    r
}

/// The backward-scan loop invariant: the region between `i` and `offset`
/// splits into the reversed partial line, a newline boundary, and a rest
/// whose nonempty lines are exactly what has been emitted, most recent
/// first.
pub open spec fn backward_inv(
    s: Seq<u8>,
    i: int,
    offset: int,
    rev_cur: Seq<u8>,
    out: Seq<String>,
) -> bool {
    let region = s.subrange(i, offset);
    let cur = rev_cur.reverse();
    &&& 0 <= i <= offset <= s.len()
    &&& cur.len() <= region.len()
    &&& region.take(cur.len() as int) == cur
    &&& (forall|j: int| 0 <= j < cur.len() ==> cur[j] != nl())
    &&& (region.len() == cur.len() || region[cur.len() as int] == nl())
    &&& (region.len() == cur.len() ==> out.len() == 0)
    &&& (region.len() > cur.len() ==> out.map_values(|x: String| x@) == spec_lines(
        region.skip(cur.len() as int + 1),
    ).reverse().map_values(|l: Seq<u8>| utf8_of(l)))
}

/// From the invariant, emitting the current partial line yields exactly the
/// reversed lines of the whole region; an empty region emits nothing.
proof fn backward_inv_emit(s: Seq<u8>, i: int, offset: int, rev_cur: Seq<u8>, out: Seq<String>)
    requires
        backward_inv(s, i, offset, rev_cur, out),
    ensures
        ({
            let region = s.subrange(i, offset);
            let cur = rev_cur.reverse();
            let emitted = if region.len() > 0 {
                out.map_values(|x: String| x@) + seq![utf8_of(cur)]
            } else {
                out.map_values(|x: String| x@)
            };
            emitted == spec_lines(region).reverse().map_values(|l: Seq<u8>| utf8_of(l))
        }),
{
    let region = s.subrange(i, offset);
    let cur = rev_cur.reverse();
    if region.len() == cur.len() {
        assert(region =~= cur);
        lemma_lines_whole(region);
        if region.len() > 0 {
            assert(spec_lines(region) == seq![region]);
            assert(seq![region].reverse() =~= seq![region]);
            assert(out.map_values(|x: String| x@) + seq![utf8_of(cur)] =~= seq![
                region,
            ].reverse().map_values(|l: Seq<u8>| utf8_of(l)));
        } else {
            assert(spec_lines(region) == Seq::<Seq<u8>>::empty());
            assert(out.map_values(|x: String| x@) =~= Seq::<Seq<u8>>::empty().reverse().map_values(
                |l: Seq<u8>| utf8_of(l),
            ));
        }
    } else {
        let rest = region.skip(cur.len() as int + 1);
        assert(region =~= cur + seq![nl()] + rest);
        lemma_lines_split(cur, rest);
        assert(spec_lines(region) == seq![cur] + spec_lines(rest));
        assert(region.len() > 0);
        lemma_reverse_cons(cur, spec_lines(rest));
        assert(out.map_values(|x: String| x@) + seq![utf8_of(cur)] =~= (spec_lines(rest).reverse()
            + seq![cur]).map_values(|l: Seq<u8>| utf8_of(l)));
    }
}

/// Reversing a sequence with a head element puts that element last.
proof fn lemma_reverse_cons(h: Seq<u8>, t: Seq<Seq<u8>>)
    ensures
        (seq![h] + t).reverse() == t.reverse() + seq![h],
{
    assert((seq![h] + t).reverse() =~= t.reverse() + seq![h]);
}

/// Copies a byte vector in reverse order.
fn reverse_bytes(v: &Vec<u8>) -> (r: Vec<u8>)
    ensures
        r@ == v@.reverse(),
{
    let n = v.len();
    let mut r: Vec<u8> = Vec::new();
    let mut k: usize = 0;
    while k < n
        invariant
            k <= n,
            n == v@.len(),
            r@.len() == k,
            forall|j: int| 0 <= j < k ==> r@[j] == v@[n - 1 - j],
        decreases n - k,
    {
        r.push(v[n - 1 - k]);
        k += 1;
    }
    assert(r@ =~= v@.reverse());
    r
}

} // verus!
