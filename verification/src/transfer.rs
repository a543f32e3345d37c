use vstd::prelude::*;
use crate::naming::{decimal, decimal_string};

verus! {

/// One part of a parallel upload: where it starts in the data and how long it is.
#[derive(Debug, Clone, Copy, PartialEq, Eq, Structural)]
pub struct UploadPart {
    pub offset: usize,
    pub len: usize,
}

/// The `i`-th of `n` parts of `total` bytes: every part gets `total / n` bytes and
/// the first `total % n` parts one more.
pub open spec fn spec_part(total: nat, n: nat, i: nat) -> (nat, nat) {
    let base = total / n;
    let rem = total % n;
    (i * base + (if i < rem { i } else { rem }), base + (if i < rem { 1nat } else { 0nat }))
}

/// Splits `total` bytes into `n` contiguous parts whose lengths differ by at most
/// one, the longer ones first.
pub fn split_into_parts(total: usize, n: usize) -> (parts: Vec<UploadPart>)
    requires
        n > 0,
    ensures
        parts@.len() == n,
        forall|i: int| 0 <= i < n ==> (#[trigger] parts@[i]).offset == spec_part(total as nat, n as nat, i as nat).0
            && parts@[i].len == spec_part(total as nat, n as nat, i as nat).1,
        parts@[0].offset == 0,
        forall|i: int| 0 <= i < n - 1 ==> #[trigger] parts@[i + 1].offset == parts@[i].offset + parts@[i].len,
        parts@[n - 1].offset + parts@[n - 1].len == total,
{
    let base = total / n;
    let rem = total % n;
    proof {
        assert(total == n * base + rem) by (nonlinear_arith)
            requires base == total / n, rem == total % n, n > 0;
    }
    let mut parts: Vec<UploadPart> = Vec::new();
    let mut offset: usize = 0;
    let mut i: usize = 0;
    while i < n
        invariant
            0 <= i <= n,
            n > 0,
            base == total / n,
            rem == total % n,
            rem < n,
            total == n * base + rem,
            parts@.len() == i,
            offset == i * base + (if i < rem { i as int } else { rem as int }),
            forall|k: int| 0 <= k < i ==> (#[trigger] parts@[k]).offset == spec_part(total as nat, n as nat, k as nat).0
                && parts@[k].len == spec_part(total as nat, n as nat, k as nat).1,
        decreases n - i,
    {
        proof {
            if i < rem {
                assert(base + 1 <= total) by (nonlinear_arith)
                    requires total == n * base + rem, n >= 1, i < rem;
            }
        }
        let len: usize = if i < rem { base + 1 } else { base };
        proof {
            assert(i * base + base == (i + 1) * base) by (nonlinear_arith);
            assert((i + 1) * base <= n * base) by (nonlinear_arith)
                requires i + 1 <= n;
        }
        parts.push(UploadPart { offset, len });
        offset = offset + len;
        i = i + 1;
    }
    proof {
        assert forall|k: int| 0 <= k < n - 1 implies #[trigger] parts@[k + 1].offset == parts@[k].offset + parts@[k].len by {
            assert(k * base + base == (k + 1) * base) by (nonlinear_arith);
        }
        assert(parts@[0].offset == 0) by {
            assert(0 * base == 0) by (nonlinear_arith);
        }
        let last = n - 1;
        assert(last * base + base == n * base) by (nonlinear_arith)
            requires last == n - 1;
    }
    parts
}

/// One chunk of a resumable upload: its first byte, its last byte (as the
/// `Content-Range` header writes it) and its length.
#[derive(Debug, Clone, Copy, PartialEq, Eq, Structural)]
pub struct UploadChunk {
    pub start: usize,
    pub end: usize,
    pub len: usize,
}

/// The number of chunks of `chunk_size` bytes that cover `total` bytes.
pub open spec fn chunk_count(total: nat, chunk_size: nat) -> nat {
    if total % chunk_size == 0 { total / chunk_size } else { total / chunk_size + 1 }
}

/// Cuts `total` bytes into consecutive chunks of `chunk_size` bytes (the last one
/// possibly shorter), in order; no chunk for empty data.
pub fn upload_chunks(total: usize, chunk_size: usize) -> (chunks: Vec<UploadChunk>)
    requires
        chunk_size > 0,
    ensures
        chunks@.len() == chunk_count(total as nat, chunk_size as nat),
        forall|i: int| 0 <= i < chunks@.len() ==> {
            let c = #[trigger] chunks@[i];
            &&& c.start == i * chunk_size
            &&& c.len == (if total - c.start < chunk_size { (total - c.start) as int } else { chunk_size as int })
            &&& c.len > 0
            &&& c.end == c.start + c.len - 1
        },
{
    let mut chunks: Vec<UploadChunk> = Vec::new();
    let mut start: usize = 0;
    let mut i: usize = 0;
    while start < total
        invariant
            chunk_size > 0,
            chunks@.len() == i,
            start == i * chunk_size,
            start <= total,
            i <= start,
            start < total || (i == 0 && start == 0),
            forall|k: int| 0 <= k < i ==> {
                let c = #[trigger] chunks@[k];
                &&& c.start == k * chunk_size
                &&& c.len == (if total - c.start < chunk_size { (total - c.start) as int } else { chunk_size as int })
                &&& c.len > 0
                &&& c.end == c.start + c.len - 1
            },
        decreases total - start,
    {
        let rest = total - start;
        let len = if rest < chunk_size { rest } else { chunk_size };
        chunks.push(UploadChunk { start, end: start + len - 1, len });
        proof {
            assert(i * chunk_size + chunk_size == (i + 1) * chunk_size) by (nonlinear_arith);
        }
        if rest <= chunk_size {
            let ghost prev = i;
            i = i + 1;
            proof {
                assert(total <= i * chunk_size);
                assert(prev * chunk_size < total);
                lemma_chunk_count(total as nat, chunk_size as nat, i as nat);
            }
            return chunks;
        }
        start = start + chunk_size;
        i = i + 1;
    }
    proof {
        assert(total == 0);
        assert(chunk_count(0, chunk_size as nat) == 0) by (nonlinear_arith)
            requires chunk_size > 0;
    }
    chunks
}

/// If `(i - 1) * cs < total <= i * cs` then `i` chunks cover `total`.
proof fn lemma_chunk_count(total: nat, cs: nat, i: nat)
    requires
        cs > 0,
        i > 0,
        total <= i * cs,
        total > (i - 1) * cs,
    ensures
        chunk_count(total, cs) == i,
{
    let q = total / cs;
    let r = total % cs;
    assert(total == q * cs + r && r < cs) by (nonlinear_arith)
        requires q == total / cs, r == total % cs, cs > 0;
    if r == 0 {
        assert(q == i) by (nonlinear_arith)
            requires total == q * cs, total <= i * cs, total > (i - 1) * cs, cs > 0;
    } else {
        assert(q + 1 == i) by (nonlinear_arith)
            requires total == q * cs + r, 0 < r < cs, total <= i * cs, total > (i - 1) * cs, cs > 0;
    }
}

/// What the storage service's answer to a chunk means.
#[derive(Debug, Clone, Copy, PartialEq, Eq, Structural)]
pub enum ChunkResponse {
    /// The upload is complete (200 or 201).
    Complete,
    /// The chunk was accepted and more are expected (308).
    Continue,
    /// The upload failed.
    Failed,
}

/// Reads the HTTP status answered to an uploaded chunk.
pub fn chunk_response(status: u16) -> (r: ChunkResponse)
    ensures
        r == (if status == 200 || status == 201 {
            ChunkResponse::Complete
        } else if status == 308 {
            ChunkResponse::Continue
        } else {
            ChunkResponse::Failed
        }),
{
    if status == 200 || status == 201 {
        ChunkResponse::Complete
    } else if status == 308 {
        ChunkResponse::Continue
    } else {
        ChunkResponse::Failed
    }
}

/// The `Content-Range` header of a chunk of a `total`-byte upload:
/// `bytes <first>-<last>/<total>`.
pub open spec fn spec_content_range(c: UploadChunk, total: nat) -> Seq<char> {
    "bytes "@ + decimal(c.start as nat) + "-"@ + decimal(c.end as nat) + "/"@ + decimal(total)
}

/// Writes the `Content-Range` header of a chunk.
pub fn content_range(c: &UploadChunk, total: usize) -> (s: String)
    ensures
        s@ == spec_content_range(*c, total as nat),
{
    let mut s = String::from_str("bytes ");
    let start = decimal_string(c.start);
    s.append(start.as_str());
    s.append("-");
    let end = decimal_string(c.end);
    s.append(end.as_str());
    s.append("/");
    let t = decimal_string(total);
    s.append(t.as_str());
    s
}

} // verus!
