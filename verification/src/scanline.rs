//! The scanline partition between render workers.
//!
//! Workers share one frame by interleaved rows: worker `k` of `K` renders
//! rows `k, k + K, k + 2K, ...`, which balances load across frame regions.
//! [`worker_rows`] computes exactly that row list, and [`pixel_index`] the
//! linear G-buffer index of a pixel.

use vstd::prelude::*;

verus! {

/// The rows that one worker renders: `worker_id`, `worker_id + worker_count`
/// and so on, while below `height`, in increasing order.
pub fn worker_rows(height: u32, worker_id: u32, worker_count: u32) -> (rows: Vec<u32>)
    requires
        worker_count > 0,
    ensures
        forall|i: int|
            0 <= i < rows@.len() ==> #[trigger] rows@[i] == worker_id + i * worker_count,
        forall|i: int| 0 <= i < rows@.len() ==> #[trigger] rows@[i] < height,
        worker_id + rows@.len() * worker_count >= height,
        worker_id >= height ==> rows@.len() == 0,
        forall|y: int|
            worker_id <= y < height && #[trigger] ((y - worker_id) % (worker_count as int)) == 0
                ==> exists|i: int| 0 <= i < rows@.len() && rows@[i] == y,
{
    let mut rows: Vec<u32> = Vec::new();
    let mut y: u64 = worker_id as u64;
    proof {
        let b = worker_count as int;
        assert(0int * b == 0) by (nonlinear_arith);
    }
    while y < height as u64
        invariant
            worker_count > 0,
            y == worker_id + rows@.len() * worker_count,
            forall|i: int|
                0 <= i < rows@.len() ==> #[trigger] rows@[i] == worker_id + i * worker_count,
            forall|i: int| 0 <= i < rows@.len() ==> #[trigger] rows@[i] < height,
        decreases (if y < height { height as int - y } else { 0int }),
    {
        let ghost prev = rows@;
        rows.push(y as u32);
        proof {
            assert(rows@ == prev.push((y as u32)));
            assert(rows@[rows@.len() - 1] == y);
            assert(forall|i: int| 0 <= i < prev.len() ==> #[trigger] rows@[i] == prev[i]);
            let a = prev.len() as int;
            let b = worker_count as int;
            assert((a + 1) * b == a * b + b) by (nonlinear_arith);
        }
        y = y + worker_count as u64;
    }
    proof {
        if worker_id >= height && rows@.len() > 0 {
            let b = worker_count as int;
            assert(0int * b == 0) by (nonlinear_arith);
            assert(rows@[0] == worker_id + 0 * worker_count);
            assert(rows@[0] < height);
        }
        let k = worker_id as int;
        let b = worker_count as int;
        let len = rows@.len() as int;
        assert forall|yy: int|
            k <= yy < height && #[trigger] ((yy - k) % b) == 0 implies exists|i: int|
            0 <= i < rows@.len() && rows@[i] == yy by {
            let m = (yy - k) / b;
            vstd::arithmetic::div_mod::lemma_fundamental_div_mod(yy - k, b);
            assert(yy - k == b * m + (yy - k) % b);
            assert(m >= 0) by (nonlinear_arith)
                requires
                    yy - k >= 0,
                    b > 0,
                    yy - k == b * m,
            ;
            assert(m < len) by (nonlinear_arith)
                requires
                    b > 0,
                    yy - k == b * m,
                    yy < height,
                    k + len * b >= height,
            ;
            assert(rows@[m] == k + m * b);
            assert(rows@[m] == yy);
        }
    }
    rows
}

/// Two different workers never share a row: the row lists of
/// [`worker_rows`] are pairwise disjoint, so concurrent G-buffer writes
/// never touch the same pixel.
pub proof fn lemma_worker_rows_disjoint(k1: int, i1: int, k2: int, i2: int, workers: int)
    requires
        0 <= k1 < workers,
        0 <= k2 < workers,
        k1 != k2,
        i1 >= 0,
        i2 >= 0,
    ensures
        k1 + i1 * workers != k2 + i2 * workers,
{
    assert(k1 + i1 * workers != k2 + i2 * workers) by (nonlinear_arith)
        requires
            0 <= k1 < workers,
            0 <= k2 < workers,
            k1 != k2,
            i1 >= 0,
            i2 >= 0,
    ;
}

/// The linear G-buffer index of pixel `(x, y)` in an image `width` wide.
pub fn pixel_index(x: u32, y: u32, width: u32) -> (idx: u64)
    ensures
        idx == y * width + x,
{
    proof {
        assert((y as int) * (width as int) <= 0xFFFF_FFFF * 0xFFFF_FFFF) by (nonlinear_arith)
            requires
                y <= 0xFFFF_FFFFu32,
                width <= 0xFFFF_FFFFu32,
        ;
    }
    (y as u64) * (width as u64) + (x as u64)
}

} // verus!
