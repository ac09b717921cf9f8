use vstd::arithmetic::div_mod::lemma_fundamental_div_mod_converse;
use vstd::prelude::*;

verus! {

/// A contiguous range of image columns, `start..end`, handed to one worker.
#[derive(Clone, Copy, Debug, PartialEq, Eq, Structural)]
pub struct ColumnRange {
    pub start: usize,
    pub end: usize,
}

/// `ceil(n / d)`.
pub open spec fn ceil_div(n: nat, d: nat) -> nat
    recommends
        d > 0,
{
    if d == 0 {
        0
    } else {
        ((n + d - 1) / d as int) as nat
    }
}

/// The `i`-th chunk of `width` columns cut into pieces of `size` columns;
/// the last one may be shorter.
pub open spec fn chunk_at(width: nat, size: nat, i: nat) -> (nat, nat) {
    let start = i * size;
    let end = if (i + 1) * size <= width {
        (i + 1) * size
    } else {
        width
    };
    (start, end)
}

/// The chunks that `column_chunks` hands out: `ceil(width / size)` pieces of
/// `size = ceil(width / workers)` columns, in order.
pub open spec fn chunks_spec(width: nat, workers: nat) -> Seq<(nat, nat)> {
    let size = ceil_div(width, workers);
    Seq::new(ceil_div(width, size), |i: int| chunk_at(width, size, i as nat))
}

/// The number of columns each worker takes: `ceil(width / workers)`.
pub fn chunk_width(width: usize, workers: usize) -> (r: usize)
    requires
        workers > 0,
    ensures
        r == ceil_div(width as nat, workers as nat),
{
    let q: usize = width / workers;
    let rem: usize = width % workers;
    proof {
        lemma_ceil_div_split(width as nat, workers as nat);
    }
    if rem == 0 {
        q
    } else {
        q + 1
    }
}

proof fn lemma_ceil_div_split(n: nat, d: nat)
    requires
        d > 0,
    ensures
        ceil_div(n, d) == if n % d == 0 {
            n / d
        } else {
            n / d + 1
        },
        ceil_div(n, d) <= n,
        n > 0 ==> ceil_div(n, d) > 0,
{
    let q = n / d;
    let r = n % d;
    assert(n == q * d + r) by (nonlinear_arith)
        requires
            q == n / d,
            r == n % d,
            d > 0,
    ;
    assert(0 <= r < d);
    if r == 0 {
        assert((q * d + d - 1) / d as int == q) by (nonlinear_arith)
            requires
                d > 0,
        ;
    } else {
        assert((q * d + r + d - 1) / d as int == q + 1) by (nonlinear_arith)
            requires
                d > 0,
                0 < r < d,
        ;
    }
    if n > 0 {
        if r == 0 {
            assert(q > 0) by (nonlinear_arith)
                requires
                    n == q * d + r,
                    r == 0,
                    n > 0,
            ;
        }
        assert(q <= n) by (nonlinear_arith)
            requires
                q == n / d,
                d > 0,
        ;
        if r != 0 {
            assert(q + 1 <= n) by (nonlinear_arith)
                requires
                    n == q * d + r,
                    d > 0,
                    0 < r < d,
            ;
        }
    }
}

/// Splits the columns `0..width` into the contiguous ranges that the workers
/// of a render take, at most one range per worker: each holds
/// `ceil(width / workers)` columns but the last, which holds what is left.
pub fn column_chunks(width: usize, workers: usize) -> (r: Vec<ColumnRange>)
    requires
        workers > 0,
    ensures
        r@.len() == chunks_spec(width as nat, workers as nat).len(),
        r@.len() <= workers,
        forall|i: int|
            0 <= i < r@.len() ==> ((#[trigger] r@[i]).start as nat, r@[i].end as nat)
                == chunks_spec(width as nat, workers as nat)[i],
{
    let size: usize = chunk_width(width, workers);
    let mut chunks: Vec<ColumnRange> = Vec::new();
    proof {
        lemma_ceil_div_split(width as nat, workers as nat);
    }
    if width == 0 {
        return chunks;
    }
    let count: usize = chunk_width(width, size);
    proof {
        lemma_ceil_div_split(width as nat, size as nat);
        lemma_chunk_count(width as nat, size as nat);
        lemma_chunk_count(width as nat, workers as nat);
        assert(count <= workers) by (nonlinear_arith)
            requires
                (count - 1) * size < width,
                workers * size >= width,
                size > 0,
                count > 0,
        ;
    }
    let mut i: usize = 0;
    while i < count
        invariant
            0 < size <= width,
            count == ceil_div(width as nat, size as nat),
            (count - 1) * size < width,
            i <= count,
            chunks@.len() == i,
            forall|k: int|
                0 <= k < i ==> ((#[trigger] chunks@[k]).start as nat, chunks@[k].end as nat)
                    == chunk_at(width as nat, size as nat, k as nat),
        decreases count - i,
    {
        proof {
            assert(i * size <= (count - 1) * size) by (nonlinear_arith)
                requires
                    i <= count - 1,
            ;
            assert((i + 1) * size == i * size + size) by (nonlinear_arith);
        }
        let start: usize = i * size;
        let end: usize = if size <= width - start {
            start + size
        } else {
            width
        };
        chunks.push(ColumnRange { start, end });
        i += 1;
    }
    chunks
}

proof fn lemma_chunk_count(width: nat, size: nat)
    requires
        size > 0,
        width > 0,
    ensures
        ceil_div(width, size) * size >= width,
        (ceil_div(width, size) - 1) * size < width,
{
    let q = width / size;
    let r = width % size;
    lemma_ceil_div_split(width, size);
    assert(width == q * size + r) by (nonlinear_arith)
        requires
            q == width / size,
            r == width % size,
            size > 0,
    ;
    if r == 0 {
        assert(q > 0) by (nonlinear_arith)
            requires width == q * size, width > 0;
        assert((q - 1) * size == q * size - size) by (nonlinear_arith);
    } else {
        assert((q + 1) * size == q * size + size) by (nonlinear_arith);
    }
}

/// Whether chunk `i` of the partition covers column `c`.
pub open spec fn chunk_covers(width: nat, workers: nat, i: int, c: nat) -> bool {
    let chunks = chunks_spec(width, workers);
    &&& 0 <= i < chunks.len()
    &&& chunks[i].0 <= c < chunks[i].1
}

/// Whatever the number of workers, every column of the image is covered by
/// exactly one chunk, so every pixel is computed once and by one worker.
pub proof fn lemma_each_column_in_one_chunk(width: nat, workers: nat, c: nat)
    requires
        workers > 0,
        c < width,
    ensures
        exists|i: int| chunk_covers(width, workers, i, c),
        forall|i: int, j: int|
            chunk_covers(width, workers, i, c) && chunk_covers(width, workers, j, c) ==> i == j,
{
    lemma_ceil_div_split(width, workers);
    let size = ceil_div(width, workers);
    lemma_chunk_count(width, size);
    let count = ceil_div(width, size);
    let q = c / size;
    let r = c % size;
    assert(c == q * size + r) by (nonlinear_arith)
        requires
            q == c / size,
            r == c % size,
            size > 0,
    ;
    assert((q + 1) * size == q * size + size) by (nonlinear_arith);
    assert(q < count) by (nonlinear_arith)
        requires
            q * size <= c,
            c < width,
            count * size >= width,
            size > 0,
    ;
    assert(chunk_covers(width, workers, q as int, c));
    assert forall|i: int| chunk_covers(width, workers, i, c) implies i == q by {
        let ri = c - i * size;
        assert((i + 1) * size == i * size + size) by (nonlinear_arith);
        lemma_fundamental_div_mod_converse(c as int, size as int, i, ri);
    }
}

} // verus!
