//! Chunk arithmetic for the upload coordinator.
//!
//! A file of `size` bytes is uploaded in fixed-size chunks of [`CHUNK_SIZE`]
//! bytes; the final chunk is the remainder and may be smaller, and a file
//! smaller than one chunk is a single chunk.

use vstd::prelude::*;
use vstd::arithmetic::div_mod::lemma_fundamental_div_mod;
use vstd::arithmetic::div_mod::lemma_mod_bound;

verus! {

/// Size of each upload chunk in bytes (8 MiB).
pub const CHUNK_SIZE: i64 = 8 * 1024 * 1024;

/// Number of chunks a file of `size` bytes splits into: `ceil(size / CHUNK_SIZE)`.
pub open spec fn spec_chunk_count(size: int) -> int {
    (size + CHUNK_SIZE - 1) / (CHUNK_SIZE as int)
}

/// Offset of the first byte of chunk `part`.
pub open spec fn spec_chunk_start(part: int) -> int {
    part * CHUNK_SIZE
}

/// Offset of the last byte (inclusive) of chunk `part` of a file of `size` bytes.
pub open spec fn spec_chunk_end(part: int, size: int) -> int {
    if (part + 1) * CHUNK_SIZE <= size {
        (part + 1) * CHUNK_SIZE - 1
    } else {
        size - 1
    }
}

/// Length in bytes of chunk `part` of a file of `size` bytes.
pub open spec fn spec_chunk_len(part: int, size: int) -> int {
    spec_chunk_end(part, size) - spec_chunk_start(part) + 1
}

/// Total bytes covered once the first `parts` chunks have been uploaded.
pub open spec fn spec_bytes_after(parts: int, size: int) -> int {
    if parts * CHUNK_SIZE <= size {
        parts * CHUNK_SIZE
    } else {
        size
    }
}

/// Sum of the lengths of the first `parts` chunks of a file of `size` bytes.
pub open spec fn spec_sum_chunk_lens(parts: int, size: int) -> int
    decreases parts,
{
    if parts <= 0 {
        0
    } else {
        spec_sum_chunk_lens(parts - 1, size) + spec_chunk_len(parts - 1, size)
    }
}

/// Basic bounds on the chunk count: the chunks reach at least to the end of
/// the file, and all but the last start strictly inside it.
pub proof fn lemma_chunk_count_bounds(size: int)
    requires
        0 <= size,
    ensures
        0 <= spec_chunk_count(size),
        size <= spec_chunk_count(size) * CHUNK_SIZE,
        size > 0 ==> (spec_chunk_count(size) - 1) * CHUNK_SIZE < size,
        size > 0 ==> 1 <= spec_chunk_count(size),
        size == 0 ==> spec_chunk_count(size) == 0,
{
    let c = CHUNK_SIZE as int;
    let q = spec_chunk_count(size);
    let r = (size + c - 1) % c;
    lemma_fundamental_div_mod(size + c - 1, c);
    lemma_mod_bound(size + c - 1, c);
    assert(size + c - 1 == c * q + r);
    assert(0 <= r < c);
    assert(q >= 0 && size <= q * c && (size > 0 ==> (q - 1) * c < size) && (size > 0 ==> q >= 1)
        && (size == 0 ==> q == 0)) by (nonlinear_arith)
        requires
            size + c - 1 == c * q + r,
            0 <= r < c,
            c > 0,
            0 <= size,
    ;
}

/// Chunking is deterministic: a file of `size` bytes splits into
/// `ceil(size / CHUNK_SIZE)` chunks; every chunk but the last is exactly
/// `CHUNK_SIZE` bytes long, and the last is `size % CHUNK_SIZE` bytes
/// (or `CHUNK_SIZE` when `size` is an exact multiple of it).
pub proof fn lemma_chunk_sizes(size: int, part: int)
    requires
        0 <= size,
        0 <= part < spec_chunk_count(size),
    ensures
        part < spec_chunk_count(size) - 1 ==> spec_chunk_len(part, size) == CHUNK_SIZE,
        part == spec_chunk_count(size) - 1 ==> spec_chunk_len(part, size) == (
        if size % (CHUNK_SIZE as int) == 0 {
            CHUNK_SIZE as int
        } else {
            size % (CHUNK_SIZE as int)
        }),
        0 < spec_chunk_len(part, size) <= CHUNK_SIZE,
{
    let c = CHUNK_SIZE as int;
    let n = spec_chunk_count(size);
    lemma_chunk_count_bounds(size);
    if part < n - 1 {
        assert((part + 1) * c <= (n - 1) * c && (part + 1) * c - part * c == c && 0 <= part * c)
            by (nonlinear_arith)
            requires
                0 <= part,
                part + 1 <= n - 1,
                c > 0,
        ;
    } else {
        let q = size / c;
        let r = size % c;
        lemma_fundamental_div_mod(size, c);
        lemma_mod_bound(size, c);
        assert(size > 0);
        assert((n * c <= size ==> n * c - (n - 1) * c == c && r == 0) && (n * c > size ==> size - (
        n - 1) * c == (if r == 0 {
            c
        } else {
            r
        })) && 0 < size - (n - 1) * c <= c && n * c - (n - 1) * c == c) by (nonlinear_arith)
            requires
                size == c * q + r,
                0 <= r < c,
                c > 0,
                size <= n * c,
                (n - 1) * c < size,
        ;
    }
}

proof fn lemma_sum_chunk_lens_prefix(parts: int, size: int)
    requires
        0 <= size,
        0 <= parts <= spec_chunk_count(size),
    ensures
        spec_sum_chunk_lens(parts, size) == spec_bytes_after(parts, size),
    decreases parts,
{
    lemma_chunk_count_bounds(size);
    if parts > 0 {
        lemma_sum_chunk_lens_prefix(parts - 1, size);
        let c = CHUNK_SIZE as int;
        let n = spec_chunk_count(size);
        assert(size > 0);
        assert((parts - 1) * c == parts * c - c && (parts - 1) * c <= (n - 1) * c)
            by (nonlinear_arith)
            requires
                parts - 1 <= n - 1,
                c > 0,
        ;
    }
}

/// The chunks of a file partition it exactly: the chunk lengths of all
/// `ceil(size / CHUNK_SIZE)` chunks sum to the file size, with no gap and
/// no double counting.
pub proof fn lemma_chunks_cover_file(size: int)
    requires
        0 <= size,
    ensures
        spec_sum_chunk_lens(spec_chunk_count(size), size) == size,
{
    lemma_chunk_count_bounds(size);
    lemma_sum_chunk_lens_prefix(spec_chunk_count(size), size);
}

/// Progress accounting is exact: after `parts` accepted chunks the
/// cumulative uploaded-byte count equals the sum of the lengths of the first
/// `parts` chunks, and once every chunk is accepted it equals the file size.
/// Every byte is counted exactly once: no gap, no double counting.
pub proof fn lemma_progress_counts_every_byte_once(size: int, parts: int)
    requires
        0 <= size,
        0 <= parts <= spec_chunk_count(size),
    ensures
        spec_bytes_after(parts, size) == spec_sum_chunk_lens(parts, size),
        spec_bytes_after(spec_chunk_count(size), size) == size,
{
    lemma_chunk_count_bounds(size);
    lemma_sum_chunk_lens_prefix(parts, size);
}

/// Number of chunks needed for a file of `size` bytes.
pub fn chunk_count(size: i64) -> (r: i64)
    requires
        0 <= size,
        size + CHUNK_SIZE <= i64::MAX,
    ensures
        r == spec_chunk_count(size as int),
        0 <= r,
        size > 0 ==> 1 <= r,
{
    proof {
        lemma_chunk_count_bounds(size as int);
        let c = CHUNK_SIZE as int;
        let n = spec_chunk_count(size as int);
        if size > 0 {
            assert(n >= 1) by (nonlinear_arith)
                requires
                    n * c >= size,
                    size > 0,
                    c > 0,
            ;
        }
    }
    (size + CHUNK_SIZE - 1) / CHUNK_SIZE
}

/// Byte range `(start, end)` (both inclusive) of chunk `part` of a file of
/// `size` bytes, as carried by a `Content-Range: bytes start-end/size` header.
pub fn chunk_bounds(part: i64, size: i64) -> (r: (i64, i64))
    requires
        0 <= size,
        size + CHUNK_SIZE <= i64::MAX,
        0 <= part < spec_chunk_count(size as int),
    ensures
        r.0 == spec_chunk_start(part as int),
        r.1 == spec_chunk_end(part as int, size as int),
        0 <= r.0 <= r.1 < size,
{
    proof {
        let c = CHUNK_SIZE as int;
        let n = spec_chunk_count(size as int);
        lemma_chunk_count_bounds(size as int);
        lemma_chunk_sizes(size as int, part as int);
        assert(part * c <= (n - 1) * c && 0 <= part * c && (part + 1) * c == part * c + c)
            by (nonlinear_arith)
            requires
                0 <= part <= n - 1,
                c > 0,
        ;
    }
    let start: i64 = part * CHUNK_SIZE;
    let end: i64 = if size - start > CHUNK_SIZE {
        start + CHUNK_SIZE - 1
    } else {
        size - 1
    };
    (start, end)
}

} // verus!
