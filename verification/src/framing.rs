use vstd::prelude::*;
use vstd::bytes::{spec_u64_from_le_bytes, spec_u64_to_le_bytes, u64_from_le_bytes, u64_to_le_bytes, lemma_auto_spec_u64_to_from_le_bytes};

verus! {

// Wire layout of a vector of fixed-size serialized elements: an 8-byte
// little-endian element count followed by the elements' bytes back to back; and
// of a vector of such vectors: an 8-byte count of vectors followed by each
// vector in that layout. Elements themselves are serialized and parsed by the
// curve library; this module frames them.

/// Why framed bytes were refused.
#[derive(Debug, Clone, Copy, PartialEq, Eq, Structural)]
pub enum FramingError {
    /// Fewer than 8 bytes: no room for the count.
    MissingLength,
    /// The element bytes do not split evenly among the elements.
    UnevenElements,
    /// An inner vector's count is cut off.
    TruncatedInnerLength,
    /// An inner vector's elements are cut off.
    TruncatedInnerData,
    /// Bytes left over where every inner vector is empty.
    UnexpectedTrailingBytes,
}

/// The count stored at `pos` (8 little-endian bytes), as a `usize`.
pub open spec fn count_at(raw: Seq<u8>, pos: int) -> usize {
    spec_u64_from_le_bytes(raw.subrange(pos, pos + 8)) as usize
}

/// Copies `len` bytes starting at `start`.
fn copy_range(raw: &[u8], start: usize, len: usize) -> (v: Vec<u8>)
    requires
        start + len <= raw@.len(),
    ensures
        v@ == raw@.subrange(start as int, start + len),
{
    let mut v: Vec<u8> = Vec::new();
    let mut i: usize = 0;
    let total = raw.len();
    while i < len
        invariant
            0 <= i <= len,
            total == raw@.len(),
            start + len <= raw@.len(),
            v@ == raw@.subrange(start as int, start + i),
        decreases len - i,
    {
        v.push(raw[start + i]);
        assert(raw@.subrange(start as int, start + i + 1) =~= raw@.subrange(start as int, start + i).push(raw@[start + i]));
        i = i + 1;
    }
    v
}

/// Reads the count stored at `pos`.
fn read_count(raw: &[u8], pos: usize) -> (n: usize)
    requires
        pos + 8 <= raw@.len(),
    ensures
        n == count_at(raw@, pos as int),
{
    let b = copy_range(raw, pos, 8);
    let x = u64_from_le_bytes(b.as_slice());
    x as usize
}

/// The framed form of a vector of serialized elements.
pub open spec fn spec_frame_vec(elems: Seq<Seq<u8>>) -> Seq<u8> {
    spec_u64_to_le_bytes(elems.len() as u64) + elems.flatten()
}

/// Appends `b` to `out`.
fn append_bytes(out: &mut Vec<u8>, b: &[u8])
    ensures
        final(out)@ == old(out)@ + b@,
{
    let mut i: usize = 0;
    let ghost start = out@;
    while i < b.len()
        invariant
            0 <= i <= b@.len(),
            out@ == start + b@.subrange(0, i as int),
        decreases b@.len() - i,
    {
        out.push(b[i]);
        assert(b@.subrange(0, i + 1) =~= b@.subrange(0, i as int).push(b@[i as int]));
        i = i + 1;
    }
    assert(b@.subrange(0, b@.len() as int) =~= b@);
}

/// Frames serialized elements: their count, then their bytes in order.
pub fn frame_vec(elems: &Vec<Vec<u8>>) -> (out: Vec<u8>)
    ensures
        out@ == spec_frame_vec(elems@.map_values(|e: Vec<u8>| e@)),
{
    let ghost es = elems@.map_values(|e: Vec<u8>| e@);
    let mut out = u64_to_le_bytes(elems.len() as u64);
    let mut i: usize = 0;
    while i < elems.len()
        invariant
            0 <= i <= elems@.len(),
            es == elems@.map_values(|e: Vec<u8>| e@),
            out@ == spec_u64_to_le_bytes(elems@.len() as u64) + es.subrange(0, i as int).flatten(),
        decreases elems@.len() - i,
    {
        append_bytes(&mut out, elems[i].as_slice());
        proof {
            assert(es.subrange(0, i + 1) =~= es.subrange(0, i as int).push(es[i as int]));
            es.subrange(0, i as int).lemma_flatten_push(es[i as int]);
        }
        i = i + 1;
    }
    assert(es.subrange(0, elems@.len() as int) =~= es);
    out
}

/// How a framed vector is laid out: the count, and the size of each element.
#[derive(Debug, Clone, Copy, PartialEq, Eq, Structural)]
pub struct VecLayout {
    pub count: usize,
    pub elem_size: usize,
}

/// The layout of a framed vector: refused without a count; an empty vector for
/// a zero count (whatever follows); otherwise the bytes after the count must split
/// evenly into `count` elements.
pub open spec fn spec_vec_layout(raw: Seq<u8>) -> Result<VecLayout, FramingError> {
    if raw.len() < 8 {
        Err(FramingError::MissingLength)
    } else if count_at(raw, 0) == 0 {
        Ok(VecLayout { count: 0, elem_size: 0 })
    } else if (raw.len() - 8) % (count_at(raw, 0) as int) != 0 {
        Err(FramingError::UnevenElements)
    } else {
        Ok(VecLayout { count: count_at(raw, 0), elem_size: ((raw.len() - 8) / (count_at(raw, 0) as int)) as usize })
    }
}

/// The bytes of element `k` of a framed vector with elements of `es` bytes.
pub open spec fn vec_element(raw: Seq<u8>, es: int, k: int) -> Seq<u8> {
    raw.subrange(8 + k * es, 8 + (k + 1) * es)
}

/// Reads the layout of a framed vector (see `spec_vec_layout`). A nonzero count
/// with no element bytes at all is excluded: element size zero cannot be chunked.
pub fn vec_layout(raw: &[u8]) -> (r: Result<VecLayout, FramingError>)
    requires
        raw@.len() >= 8 && count_at(raw@, 0) != 0 ==> raw@.len() > 8,
    ensures
        r == spec_vec_layout(raw@),
        r matches Ok(l) ==> (l.count > 0 ==> l.elem_size > 0 && 8 + l.count * l.elem_size == raw@.len()),
{
    if raw.len() < 8 {
        return Err(FramingError::MissingLength);
    }
    let n = read_count(raw, 0);
    if n == 0 {
        return Ok(VecLayout { count: 0, elem_size: 0 });
    }
    let rest = raw.len() - 8;
    if rest % n != 0 {
        return Err(FramingError::UnevenElements);
    }
    let es = rest / n;
    proof {
        assert(rest == n * es) by (nonlinear_arith)
            requires rest % n == 0, es == rest / n, n > 0;
        assert(es > 0) by (nonlinear_arith)
            requires rest == n * es, rest > 0;
    }
    Ok(VecLayout { count: n, elem_size: es })
}

/// Concatenating `n` pieces of `es` bytes each gives `n * es` bytes, piece `k`
/// at offset `k * es`.
pub proof fn lemma_flatten_uniform(e: Seq<Seq<u8>>, es: int)
    requires
        es >= 0,
        forall|k: int| 0 <= k < e.len() ==> (#[trigger] e[k]).len() == es,
    ensures
        e.flatten().len() == e.len() * es,
        forall|k: int| 0 <= k < e.len() ==> e.flatten().subrange(k * es, (k + 1) * es) == #[trigger] e[k],
    decreases e.len(),
{
    if e.len() == 0 {
        assert(e.len() * es == 0) by (nonlinear_arith)
            requires e.len() == 0;
    } else {
        let rest = e.drop_first();
        assert forall|k: int| 0 <= k < rest.len() implies (#[trigger] rest[k]).len() == es by {
            assert(rest[k] == e[k + 1]);
        }
        lemma_flatten_uniform(rest, es);
        let f = e.flatten();
        assert(f == e[0] + rest.flatten());
        assert(f.len() == e.len() * es) by (nonlinear_arith)
            requires f.len() == es + rest.len() * es, rest.len() == e.len() - 1;
        assert forall|k: int| 0 <= k < e.len() implies f.subrange(k * es, (k + 1) * es) == #[trigger] e[k] by {
            if k == 0 {
                assert(0 * es == 0 && (0 + 1) * es == es) by (nonlinear_arith);
                assert(f.subrange(0, es) =~= e[0]);
            } else {
                assert(rest[k - 1] == e[k]);
                assert(rest.flatten().subrange((k - 1) * es, k * es) == rest[k - 1]);
                assert(k * es == es + (k - 1) * es && (k + 1) * es == es + k * es) by (nonlinear_arith);
                assert(k * es + es <= e.len() * es) by (nonlinear_arith)
                    requires k + 1 <= e.len(), es >= 0;
                assert(f.subrange(k * es, (k + 1) * es) =~= rest.flatten().subrange((k - 1) * es, k * es));
            }
        }
    }
}

/// Reading back a framed vector of equally sized, non-empty elements gives the
/// count, the element size and each element's bytes.
pub proof fn lemma_vec_round_trip(elems: Seq<Seq<u8>>, es: int)
    requires
        0 < elems.len() <= usize::MAX,
        es > 0,
        forall|k: int| 0 <= k < elems.len() ==> (#[trigger] elems[k]).len() == es,
    ensures
        spec_vec_layout(spec_frame_vec(elems)) == Ok::<VecLayout, FramingError>(VecLayout { count: elems.len() as usize, elem_size: es as usize }),
        forall|k: int| 0 <= k < elems.len() ==> vec_element(spec_frame_vec(elems), es, k) == #[trigger] elems[k],
{
    lemma_auto_spec_u64_to_from_le_bytes();
    lemma_flatten_uniform(elems, es);
    let raw = spec_frame_vec(elems);
    let n: int = elems.len() as int;
    let hdr = spec_u64_to_le_bytes(elems.len() as u64);
    assert(raw.subrange(0, 8) =~= hdr);
    assert(count_at(raw, 0) == n);
    assert(raw.len() - 8 == n * es);
    assert((n * es) % n == 0 && (n * es) / n == es) by (nonlinear_arith)
        requires n > 0, es > 0;
    assert forall|k: int| 0 <= k < n implies vec_element(raw, es, k) == #[trigger] elems[k] by {
        assert(k * es + es <= n * es) by (nonlinear_arith)
            requires k + 1 <= n, es > 0;
        assert((k + 1) * es == k * es + es) by (nonlinear_arith);
        assert(k * es >= 0) by (nonlinear_arith)
            requires k >= 0, es > 0;
        assert(vec_element(raw, es, k) =~= elems.flatten().subrange(k * es, (k + 1) * es));
    }
}


/// The framed form of a vector of vectors: their count, then each framed.
pub open spec fn spec_frame_vec_vec(vv: Seq<Seq<Seq<u8>>>) -> Seq<u8> {
    spec_u64_to_le_bytes(vv.len() as u64) + vv.map_values(|v: Seq<Seq<u8>>| spec_frame_vec(v)).flatten()
}

/// The element views of a vector of serialized elements.
pub open spec fn views(v: Seq<Vec<u8>>) -> Seq<Seq<u8>> {
    v.map_values(|e: Vec<u8>| e@)
}

/// Frames a vector of vectors of serialized elements.
pub fn frame_vec_vec(vv: &Vec<Vec<Vec<u8>>>) -> (out: Vec<u8>)
    ensures
        out@ == spec_frame_vec_vec(vv@.map_values(|v: Vec<Vec<u8>>| views(v@))),
{
    let ghost all = vv@.map_values(|v: Vec<Vec<u8>>| views(v@));
    let ghost framed = all.map_values(|v: Seq<Seq<u8>>| spec_frame_vec(v));
    let mut out = u64_to_le_bytes(vv.len() as u64);
    let mut i: usize = 0;
    while i < vv.len()
        invariant
            0 <= i <= vv@.len(),
            all == vv@.map_values(|v: Vec<Vec<u8>>| views(v@)),
            framed == all.map_values(|v: Seq<Seq<u8>>| spec_frame_vec(v)),
            out@ == spec_u64_to_le_bytes(vv@.len() as u64) + framed.subrange(0, i as int).flatten(),
        decreases vv@.len() - i,
    {
        let inner = frame_vec(&vv[i]);
        append_bytes(&mut out, inner.as_slice());
        proof {
            assert(framed[i as int] == spec_frame_vec(all[i as int]));
            assert(all[i as int] == views(vv@[i as int]@));
            assert(framed.subrange(0, i + 1) =~= framed.subrange(0, i as int).push(framed[i as int]));
            framed.subrange(0, i as int).lemma_flatten_push(framed[i as int]);
        }
        i = i + 1;
    }
    assert(framed.subrange(0, vv@.len() as int) =~= framed);
    out
}

/// What the start of a framed vector of vectors says.
#[derive(Debug, Clone, Copy, PartialEq, Eq, Structural)]
pub enum VecVecHeader {
    /// No inner vectors.
    Empty,
    /// `count` inner vectors, all empty.
    AllEmpty { count: usize },
    /// `count` inner vectors, not all empty: the element size must be learned by
    /// parsing the element that starts at offset `first_element`, the first
    /// element of the first inner vector that is not empty.
    NeedElementSize { count: usize, first_element: usize },
}

/// Reads the counts of `remaining` framed inner vectors from `pos` on, stepping
/// over the empty ones: the offset of the first element of the first that is not
/// empty, or `None` when all are empty; refused where a count is cut off.
pub open spec fn spec_first_nonempty(raw: Seq<u8>, pos: int, remaining: nat) -> Result<Option<int>, FramingError>
    decreases remaining,
{
    if remaining == 0 {
        Ok(None)
    } else if pos + 8 > raw.len() {
        Err(FramingError::TruncatedInnerLength)
    } else if count_at(raw, pos) == 0 {
        spec_first_nonempty(raw, pos + 8, (remaining - 1) as nat)
    } else {
        Ok(Some(pos + 8))
    }
}

/// The header of a framed vector of vectors: refused without a count; no inner
/// vectors for a zero count; otherwise the inner counts are read until one is
/// not zero. When all are zero, the bytes must be exactly the counts.
pub open spec fn spec_vec_vec_header(raw: Seq<u8>) -> Result<VecVecHeader, FramingError> {
    if raw.len() < 8 {
        Err(FramingError::MissingLength)
    } else if count_at(raw, 0) == 0 {
        Ok(VecVecHeader::Empty)
    } else {
        match spec_first_nonempty(raw, 8, count_at(raw, 0) as nat) {
            Err(e) => Err(e),
            Ok(None) => if raw.len() == 8 + 8 * count_at(raw, 0) {
                Ok(VecVecHeader::AllEmpty { count: count_at(raw, 0) })
            } else {
                Err(FramingError::UnexpectedTrailingBytes)
            },
            Ok(Some(p)) => Ok(VecVecHeader::NeedElementSize { count: count_at(raw, 0), first_element: p as usize }),
        }
    }
}

/// Reads the header of a framed vector of vectors (see `spec_vec_vec_header`).
pub fn vec_vec_header(raw: &[u8]) -> (r: Result<VecVecHeader, FramingError>)
    ensures
        r == spec_vec_vec_header(raw@),
        r matches Ok(VecVecHeader::NeedElementSize { first_element, .. }) ==> first_element <= raw@.len(),
{
    if raw.len() < 8 {
        return Err(FramingError::MissingLength);
    }
    let outer = read_count(raw, 0);
    if outer == 0 {
        return Ok(VecVecHeader::Empty);
    }
    let total = raw.len();
    let mut pos: usize = 8;
    let mut i: usize = 0;
    while i < outer
        invariant
            0 <= i <= outer,
            total == raw@.len(),
            pos == 8 + 8 * i,
            pos <= total,
            outer == count_at(raw@, 0),
            spec_first_nonempty(raw@, 8, outer as nat) == spec_first_nonempty(raw@, pos as int, (outer - i) as nat),
        decreases outer - i,
    {
        if total - pos < 8 {
            return Err(FramingError::TruncatedInnerLength);
        }
        let c = read_count(raw, pos);
        if c != 0 {
            return Ok(VecVecHeader::NeedElementSize { count: outer, first_element: pos + 8 });
        }
        pos = pos + 8;
        i = i + 1;
    }
    if total != pos {
        return Err(FramingError::UnexpectedTrailingBytes);
    }
    Ok(VecVecHeader::AllEmpty { count: outer })
}

/// Where one inner vector's elements are: the offset of its first element and
/// its element count.
#[derive(Debug, Clone, Copy, PartialEq, Eq, Structural)]
pub struct InnerRange {
    pub start: usize,
    pub count: usize,
}

/// The inner vectors found by walking `remaining` framed vectors from `pos`,
/// with elements of `es` bytes: each needs its 8-byte count and then its elements
/// within the bytes.
pub open spec fn spec_inner_ranges(raw: Seq<u8>, pos: int, remaining: nat, es: int) -> Result<Seq<(int, int)>, FramingError>
    decreases remaining,
{
    if remaining == 0 {
        Ok(Seq::empty())
    } else if pos + 8 > raw.len() {
        Err(FramingError::TruncatedInnerLength)
    } else if pos + 8 + count_at(raw, pos) * es > raw.len() {
        Err(FramingError::TruncatedInnerData)
    } else {
        match spec_inner_ranges(raw, pos + 8 + count_at(raw, pos) * es, (remaining - 1) as nat, es) {
            Ok(rest) => Ok(seq![(pos + 8, count_at(raw, pos) as int)] + rest),
            Err(e) => Err(e),
        }
    }
}

/// `prefix` put in front of the ranges of a walk, errors kept.
pub open spec fn prepend_ranges(prefix: Seq<(int, int)>, r: Result<Seq<(int, int)>, FramingError>) -> Result<Seq<(int, int)>, FramingError> {
    match r {
        Ok(s) => Ok(prefix + s),
        Err(e) => Err(e),
    }
}

pub open spec fn range_pairs(v: Seq<InnerRange>) -> Seq<(int, int)> {
    v.map_values(|x: InnerRange| (x.start as int, x.count as int))
}

/// Walks the inner vectors of a framed vector of vectors whose element size is
/// `es` (see `spec_inner_ranges`), starting after the outer count.
pub fn inner_ranges(raw: &[u8], outer: usize, es: usize) -> (r: Result<Vec<InnerRange>, FramingError>)
    requires
        es > 0,
    ensures
        match r {
            Ok(v) => spec_inner_ranges(raw@, 8, outer as nat, es as int) == Ok::<Seq<(int, int)>, FramingError>(range_pairs(v@)),
            Err(e) => spec_inner_ranges(raw@, 8, outer as nat, es as int) == Err::<Seq<(int, int)>, FramingError>(e),
        },
{
    let mut out: Vec<InnerRange> = Vec::new();
    let mut pos: usize = 8;
    let mut i: usize = 0;
    let total = raw.len();
    while i < outer
        invariant
            es > 0,
            0 <= i <= outer,
            total == raw@.len(),
            out@.len() == i,
            spec_inner_ranges(raw@, 8, outer as nat, es as int)
                == prepend_ranges(range_pairs(out@), spec_inner_ranges(raw@, pos as int, (outer - i) as nat, es as int)),
        decreases outer - i,
    {
        if pos > total || total - pos < 8 {
            return Err(FramingError::TruncatedInnerLength);
        }
        let c = read_count(raw, pos);
        let start = pos + 8;
        let end: Option<usize> = match c.checked_mul(es) {
            Some(x) => start.checked_add(x),
            None => None,
        };
        let end = match end {
            Some(e) => {
                if e > total {
                    return Err(FramingError::TruncatedInnerData);
                }
                e
            },
            None => {
                proof {
                    assert(c * es >= c) by (nonlinear_arith)
                        requires es > 0;
                }
                return Err(FramingError::TruncatedInnerData);
            },
        };
        let ghost before = out@;
        let ghost rest = spec_inner_ranges(raw@, end as int, (outer - (i + 1)) as nat, es as int);
        out.push(InnerRange { start, count: c });
        proof {
            assert(spec_inner_ranges(raw@, pos as int, (outer - i) as nat, es as int)
                == prepend_ranges(seq![(start as int, c as int)], rest));
            assert(range_pairs(out@) =~= range_pairs(before).push((start as int, c as int)));
            match rest {
                Ok(s) => {
                    assert(range_pairs(before) + (seq![(start as int, c as int)] + s) =~= range_pairs(out@) + s);
                },
                Err(_) => {},
            }
        }
        pos = end;
        i = i + 1;
    }
    proof {
        assert(range_pairs(out@) + Seq::<(int, int)>::empty() =~= range_pairs(out@));
    }
    Ok(out)
}


/// The framed inner vectors back to back.
pub open spec fn frames(vv: Seq<Seq<Seq<u8>>>) -> Seq<u8> {
    vv.map_values(|v: Seq<Seq<u8>>| spec_frame_vec(v)).flatten()
}

/// Every element of every inner vector has `es` bytes, and every count fits a `usize`.
pub open spec fn uniform(vv: Seq<Seq<Seq<u8>>>, es: int) -> bool {
    &&& forall|k: int| 0 <= k < vv.len() ==> (#[trigger] vv[k]).len() <= usize::MAX
    &&& forall|k: int, j: int| 0 <= k < vv.len() && 0 <= j < vv[k].len() ==> (#[trigger] vv[k][j]).len() == es
}

/// Walking framed inner vectors that sit at `pos` finds each of them: its count
/// and, at its start, its elements.
proof fn lemma_walk_frames(raw: Seq<u8>, pos: int, vv: Seq<Seq<Seq<u8>>>, es: int)
    requires
        es > 0,
        pos >= 0,
        uniform(vv, es),
        pos + frames(vv).len() <= raw.len(),
        raw.subrange(pos, pos + frames(vv).len()) == frames(vv),
    ensures
        spec_inner_ranges(raw, pos, vv.len(), es) matches Ok(r) && r.len() == vv.len()
            && forall|k: int| 0 <= k < vv.len() ==> (#[trigger] r[k]).1 == vv[k].len()
                && forall|j: int| 0 <= j < vv[k].len() ==> raw.subrange(r[k].0 + j * es, r[k].0 + (j + 1) * es) == #[trigger] vv[k][j],
    decreases vv.len(),
{
    if vv.len() > 0 {
        lemma_auto_spec_u64_to_from_le_bytes();
        let f = |v: Seq<Seq<u8>>| spec_frame_vec(v);
        let m = vv.map_values(f);
        let tail = vv.drop_first();
        assert(m.drop_first() =~= tail.map_values(f));
        assert(frames(vv) == spec_frame_vec(vv[0]) + frames(tail));
        let v0 = vv[0];
        let c0 = v0.len();
        assert forall|j: int| 0 <= j < v0.len() implies (#[trigger] v0[j]).len() == es by {
            assert(vv[0][j].len() == es);
        }
        lemma_flatten_uniform(v0, es);
        let fl = spec_frame_vec(v0).len();
        assert(fl == 8 + c0 * es);
        assert(raw.subrange(pos, pos + 8) =~= spec_u64_to_le_bytes(c0 as u64)) by {
            assert(raw.subrange(pos, pos + 8) =~= frames(vv).subrange(0, 8));
        }
        assert(c0 <= usize::MAX);
        assert(count_at(raw, pos) == c0);
        let end = pos + 8 + c0 * es;
        assert(c0 * es >= 0) by (nonlinear_arith)
            requires es > 0;
        assert forall|k: int| 0 <= k < tail.len() implies (#[trigger] tail[k]).len() <= usize::MAX by {
            assert(tail[k] == vv[k + 1]);
        }
        assert forall|k: int, j: int| 0 <= k < tail.len() && 0 <= j < tail[k].len() implies (#[trigger] tail[k][j]).len() == es by {
            assert(tail[k] == vv[k + 1]);
        }
        assert(raw.subrange(end, end + frames(tail).len()) =~= frames(tail)) by {
            assert(raw.subrange(end, end + frames(tail).len()) =~= frames(vv).subrange(fl as int, frames(vv).len() as int));
        }
        lemma_walk_frames(raw, end, tail, es);
        let r1 = spec_inner_ranges(raw, end, tail.len(), es)->Ok_0;
        let r = seq![(pos + 8, c0 as int)] + r1;
        assert(spec_inner_ranges(raw, pos, vv.len(), es) == Ok::<Seq<(int, int)>, FramingError>(r));
        assert forall|k: int| 0 <= k < vv.len() implies (#[trigger] r[k]).1 == vv[k].len()
            && forall|j: int| 0 <= j < vv[k].len() ==> raw.subrange(r[k].0 + j * es, r[k].0 + (j + 1) * es) == #[trigger] vv[k][j] by {
            if k == 0 {
                assert forall|j: int| 0 <= j < vv[0].len() implies raw.subrange(r[0].0 + j * es, r[0].0 + (j + 1) * es) == #[trigger] vv[0][j] by {
                    assert(v0.flatten().subrange(j * es, (j + 1) * es) == v0[j]);
                    assert(j * es + es <= c0 * es) by (nonlinear_arith)
                        requires j + 1 <= c0, es > 0;
                    assert((j + 1) * es == j * es + es) by (nonlinear_arith);
                    assert(j * es >= 0) by (nonlinear_arith)
                        requires j >= 0, es > 0;
                    assert(raw.subrange(pos + 8 + j * es, pos + 8 + (j + 1) * es)
                        =~= frames(vv).subrange(8 + j * es, 8 + (j + 1) * es));
                    assert(frames(vv).subrange(8 + j * es, 8 + (j + 1) * es) =~= v0.flatten().subrange(j * es, (j + 1) * es));
                }
            } else {
                assert(r[k] == r1[k - 1]);
                assert(tail[k - 1] == vv[k]);
            }
        }
    }
}

/// Inner vector `m` is the first of `vv` that is not empty.
pub open spec fn first_nonempty_at(vv: Seq<Seq<Seq<u8>>>, m: int) -> bool {
    &&& 0 <= m < vv.len()
    &&& vv[m].len() > 0
    &&& forall|k: int| 0 <= k < m ==> (#[trigger] vv[k]).len() == 0
}

/// Stepping over framed inner vectors that sit at `pos`: when all are empty the
/// walk ends with `None` after 8 bytes each; otherwise it stops at the first
/// element of the first that is not empty.
proof fn lemma_first_nonempty_frames(raw: Seq<u8>, pos: int, vv: Seq<Seq<Seq<u8>>>, es: int)
    requires
        pos >= 0,
        uniform(vv, es),
        pos + frames(vv).len() <= raw.len(),
        raw.subrange(pos, pos + frames(vv).len()) == frames(vv),
    ensures
        (forall|k: int| 0 <= k < vv.len() ==> (#[trigger] vv[k]).len() == 0) ==> spec_first_nonempty(raw, pos, vv.len())
            == Ok::<Option<int>, FramingError>(None) && frames(vv).len() == 8 * vv.len(),
        forall|m: int| #[trigger] first_nonempty_at(vv, m) ==> spec_first_nonempty(raw, pos, vv.len())
            == Ok::<Option<int>, FramingError>(Some(pos + 8 * m + 8))
            && raw.subrange(pos + 8 * m + 8, pos + 8 * m + 8 + es) == vv[m][0],
    decreases vv.len(),
{
    let f = |v: Seq<Seq<u8>>| spec_frame_vec(v);
    if vv.len() == 0 {
        assert(vv.map_values(f) =~= Seq::<Seq<u8>>::empty());
        assert(frames(vv) =~= Seq::<u8>::empty());
    } else {
        lemma_auto_spec_u64_to_from_le_bytes();
        let m0 = vv.map_values(f);
        let tail = vv.drop_first();
        assert(m0.drop_first() =~= tail.map_values(f));
        assert(frames(vv) == spec_frame_vec(vv[0]) + frames(tail));
        let v0 = vv[0];
        let c0 = v0.len();
        let fl = spec_frame_vec(v0).len();
        assert(raw.subrange(pos, pos + 8) =~= spec_u64_to_le_bytes(c0 as u64)) by {
            assert(raw.subrange(pos, pos + 8) =~= frames(vv).subrange(0, 8));
        }
        assert(c0 <= usize::MAX);
        assert(count_at(raw, pos) == c0);
        assert forall|k: int| 0 <= k < tail.len() implies (#[trigger] tail[k]).len() <= usize::MAX by {
            assert(tail[k] == vv[k + 1]);
        }
        assert forall|k: int, j: int| 0 <= k < tail.len() && 0 <= j < tail[k].len() implies (#[trigger] tail[k][j]).len() == es by {
            assert(tail[k] == vv[k + 1]);
        }
        if c0 == 0 {
            assert(v0 =~= Seq::<Seq<u8>>::empty());
            assert(v0.flatten() =~= Seq::<u8>::empty());
            assert(fl == 8);
            assert(raw.subrange(pos + 8, pos + 8 + frames(tail).len()) =~= frames(tail)) by {
                assert(raw.subrange(pos + 8, pos + 8 + frames(tail).len()) =~= frames(vv).subrange(8, frames(vv).len() as int));
            }
            lemma_first_nonempty_frames(raw, pos + 8, tail, es);
            if forall|k: int| 0 <= k < vv.len() ==> (#[trigger] vv[k]).len() == 0 {
                assert forall|k: int| 0 <= k < tail.len() implies (#[trigger] tail[k]).len() == 0 by {
                    assert(tail[k] == vv[k + 1]);
                }
            }
            assert forall|m: int| #[trigger] first_nonempty_at(vv, m) implies spec_first_nonempty(raw, pos, vv.len())
                == Ok::<Option<int>, FramingError>(Some(pos + 8 * m + 8))
                && raw.subrange(pos + 8 * m + 8, pos + 8 * m + 8 + es) == vv[m][0] by {
                assert(m > 0);
                assert(tail[m - 1] == vv[m]);
                assert forall|k: int| 0 <= k < m - 1 implies (#[trigger] tail[k]).len() == 0 by {
                    assert(tail[k] == vv[k + 1]);
                }
                assert(first_nonempty_at(tail, m - 1));
            }
        } else {
            assert forall|j: int| 0 <= j < v0.len() implies (#[trigger] v0[j]).len() == es by {
                assert(vv[0][j].len() == es);
            }
            lemma_flatten_uniform(v0, es);
            assert(es >= 0) by {
                assert(v0[0].len() == es);
            }
            assert(v0.flatten().subrange(0 * es, (0 + 1) * es) == v0[0]);
            assert(0 * es == 0 && (0 + 1) * es == es) by (nonlinear_arith);
            assert(es <= c0 * es) by (nonlinear_arith)
                requires c0 >= 1, es >= 0;
            assert(raw.subrange(pos + 8, pos + 8 + es) =~= v0.flatten().subrange(0, es)) by {
                assert(raw.subrange(pos + 8, pos + 8 + es) =~= frames(vv).subrange(8, 8 + es));
            }
            assert forall|m: int| #[trigger] first_nonempty_at(vv, m) implies m == 0 by {
                if m > 0 {
                    assert(vv[0].len() == 0);
                }
            }
        }
    }
}

/// Reading back a framed vector of vectors whose elements all have `es > 0`
/// bytes: when every inner vector is empty, the header says so; otherwise it
/// points at the first element of the first inner vector that is not empty.
/// The walk then finds each inner vector's count and elements.
pub proof fn lemma_vec_vec_round_trip(vv: Seq<Seq<Seq<u8>>>, es: int)
    requires
        0 < vv.len() <= usize::MAX,
        es > 0,
        uniform(vv, es),
    ensures
        (forall|k: int| 0 <= k < vv.len() ==> (#[trigger] vv[k]).len() == 0) ==> spec_vec_vec_header(spec_frame_vec_vec(vv))
            == Ok::<VecVecHeader, FramingError>(VecVecHeader::AllEmpty { count: vv.len() as usize }),
        forall|m: int| #[trigger] first_nonempty_at(vv, m) ==> spec_vec_vec_header(spec_frame_vec_vec(vv))
            == Ok::<VecVecHeader, FramingError>(VecVecHeader::NeedElementSize { count: vv.len() as usize, first_element: (16 + 8 * m) as usize })
            && spec_frame_vec_vec(vv).subrange(16 + 8 * m, 16 + 8 * m + es) == vv[m][0],
        spec_inner_ranges(spec_frame_vec_vec(vv), 8, vv.len(), es) matches Ok(r) && r.len() == vv.len()
            && forall|k: int| 0 <= k < vv.len() ==> (#[trigger] r[k]).1 == vv[k].len()
                && forall|j: int| 0 <= j < vv[k].len()
                    ==> spec_frame_vec_vec(vv).subrange(r[k].0 + j * es, r[k].0 + (j + 1) * es) == #[trigger] vv[k][j],
{
    lemma_auto_spec_u64_to_from_le_bytes();
    let raw = spec_frame_vec_vec(vv);
    let fr = frames(vv);
    assert(raw == spec_u64_to_le_bytes(vv.len() as u64) + fr);
    assert(raw.subrange(0, 8) =~= spec_u64_to_le_bytes(vv.len() as u64));
    assert(count_at(raw, 0) == vv.len());
    assert(raw.subrange(8, 8 + fr.len() as int) =~= fr);
    lemma_walk_frames(raw, 8, vv, es);
    lemma_first_nonempty_frames(raw, 8, vv, es);
}

} // verus!
