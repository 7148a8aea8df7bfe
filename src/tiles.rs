//! Tile decomposition of a pixel-space sample bound for the rendering loop.
use vstd::prelude::*;
use crate::bounds2::{inside_exclusive2, Bound2, Box2};
use crate::point::Point2;
use crate::scalar::{div_trunc_i64, fits, min_i64, min_int};
use crate::vector::Tuple2;
use vstd::arithmetic::div_mod::{lemma_fundamental_div_mod, lemma_fundamental_div_mod_converse};

verus! {

/// The canonical edge length of a square tile, in pixels.
pub const TILE_SIZE: i64 = 16;

/// The number of tiles of size `ts` along an axis from `lo` to `hi`: the
/// extent divided by `ts`, rounded up.
pub open spec fn tiles_along(lo: int, hi: int, ts: int) -> int {
    (hi - lo + ts - 1) / ts
}

pub open spec fn tile_counts(b: Box2, ts: int) -> Tuple2 {
    (tiles_along(b.0.0, b.1.0, ts), tiles_along(b.0.1, b.1.1, ts))
}

/// The pixels of the tile at index `t`: a square of side `ts` from the
/// bound's lower corner, clipped to the bound.
pub open spec fn tile_box(b: Box2, t: Tuple2, ts: int) -> Box2 {
    (
        (b.0.0 + t.0 * ts, b.0.1 + t.1 * ts),
        (min_int(b.0.0 + t.0 * ts + ts, b.1.0), min_int(b.0.1 + t.1 * ts + ts, b.1.1)),
    )
}

/// The index of the tile that holds pixel `p`.
pub open spec fn tile_of(b: Box2, p: Tuple2, ts: int) -> Tuple2 {
    ((p.0 - b.0.0) / ts, (p.1 - b.0.1) / ts)
}

/// The seed of a tile: its position in raster order.
pub open spec fn tile_seed_of(t: Tuple2, n: Tuple2) -> int {
    t.1 * n.0 + t.0
}

/// A bound that tiles of size `ts` cut up with machine integers.
pub open spec fn tileable(b: Box2, ts: int) -> bool {
    &&& 0 < ts
    &&& b.0.0 <= b.1.0
    &&& b.0.1 <= b.1.1
    &&& fits(b.1.0 - b.0.0 + ts)
    &&& fits(b.1.1 - b.0.1 + ts)
    &&& fits(b.1.0 + ts)
    &&& fits(b.1.1 + ts)
}

pub open spec fn in_tile_range(t: Tuple2, n: Tuple2) -> bool {
    0 <= t.0 < n.0 && 0 <= t.1 < n.1
}

/// One unit of rendering work: a tile, the seed of its sampler and its pixels.
#[derive(Clone, Copy, Debug, PartialEq, Eq, Structural)]
pub struct Tile {
    pub index: Point2,
    pub seed: i64,
    pub bound: Bound2,
}

/// The tile at raster position `i` of a decomposition.
pub open spec fn tile_at(t: Tile, i: int, b: Box2, ts: int) -> bool {
    let n = tile_counts(b, ts);
    &&& t.index@ == (i % n.0, i / n.0)
    &&& t.seed == i
    &&& t.bound@ == tile_box(b, t.index@, ts)
    &&& in_tile_range(t.index@, n)
    &&& pixel_box(t.bound@, ts)
}

/// A non-empty box of pixels at most `ts` wide and high.
pub open spec fn pixel_box(b: Box2, ts: int) -> bool {
    b.0.0 < b.1.0 <= b.0.0 + ts && b.0.1 < b.1.1 <= b.0.1 + ts
}

/// A tile index in range starts inside the bound: `t * ts <= hi - lo - 1`.
proof fn lemma_tile_start(lo: int, hi: int, ts: int, t: int)
    requires
        0 < ts,
        lo <= hi,
        0 <= t < tiles_along(lo, hi, ts),
    ensures
        0 <= t * ts <= hi - lo - 1,
{
    let n = hi - lo + ts - 1;
    lemma_fundamental_div_mod(n, ts);
    let q = n / ts;
    assert(0 <= n % ts < ts);
    assert(t * ts + ts <= n) by (nonlinear_arith)
        requires
            t + 1 <= q,
            n == ts * q + n % ts,
            n % ts >= 0,
            ts > 0,
    ;
    assert(0 <= t * ts) by (nonlinear_arith)
        requires
            t >= 0,
            ts > 0,
    ;
}

/// Along one axis, a tile in range holds exactly the pixels of the bound
/// whose tile index it has.
proof fn lemma_tile_axis(lo: int, hi: int, ts: int, t: int, p: int)
    requires
        0 < ts,
        lo <= hi,
        0 <= t < tiles_along(lo, hi, ts),
    ensures
        (lo + t * ts <= p < min_int(lo + t * ts + ts, hi)) <==> (lo <= p < hi && t == (p - lo)
            / ts),
{
    lemma_tile_start(lo, hi, ts, t);
    if lo + t * ts <= p < min_int(lo + t * ts + ts, hi) {
        lemma_fundamental_div_mod_converse(p - lo, ts, t, p - lo - t * ts);
    }
    if lo <= p < hi && t == (p - lo) / ts {
        lemma_fundamental_div_mod(p - lo, ts);
        assert(p - lo == t * ts + (p - lo) % ts) by (nonlinear_arith)
            requires
                p - lo == ts * ((p - lo) / ts) + (p - lo) % ts,
                t == (p - lo) / ts,
        ;
    }
}

/// Along one axis, every pixel of the bound has a tile index in range.
proof fn lemma_tile_axis_exists(lo: int, hi: int, ts: int, p: int)
    requires
        0 < ts,
        lo <= p < hi,
    ensures
        0 <= (p - lo) / ts < tiles_along(lo, hi, ts),
{
    let q = (p - lo) / ts;
    let n = hi - lo + ts - 1;
    lemma_fundamental_div_mod(p - lo, ts);
    lemma_fundamental_div_mod(n, ts);
    vstd::arithmetic::div_mod::lemma_div_pos_is_pos(p - lo, ts);
    assert(q < n / ts) by (nonlinear_arith)
        requires
            p - lo == ts * q + (p - lo) % ts,
            0 <= (p - lo) % ts < ts,
            n == ts * (n / ts) + n % ts,
            0 <= n % ts < ts,
            p - lo <= hi - lo - 1,
            n == hi - lo + ts - 1,
            ts > 0,
    ;
}

/// Tiles cover the sample bound exactly once. A pixel lies (by the
/// exclusive test) in the tile at an in-range index `t` if and only if it
/// lies in the bound and `t` is its tile index; and every pixel of the bound
/// has an in-range tile index. So no tile reaches outside the bound, no two
/// tiles share a pixel, and no pixel of the bound is left out.
pub proof fn lemma_tiles_partition(b: Box2, ts: int, p: Tuple2, t: Tuple2)
    requires
        0 < ts,
        b.0.0 <= b.1.0,
        b.0.1 <= b.1.1,
        in_tile_range(t, tile_counts(b, ts)),
    ensures
        inside_exclusive2(tile_box(b, t, ts), p) <==> (inside_exclusive2(b, p) && t == tile_of(
            b,
            p,
            ts,
        )),
{
    lemma_tile_axis(b.0.0, b.1.0, ts, t.0, p.0);
    lemma_tile_axis(b.0.1, b.1.1, ts, t.1, p.1);
}

/// Every pixel of the bound has a tile index in range.
pub proof fn lemma_tiles_cover(b: Box2, ts: int, p: Tuple2)
    requires
        0 < ts,
        inside_exclusive2(b, p),
    ensures
        in_tile_range(tile_of(b, p, ts), tile_counts(b, ts)),
{
    lemma_tile_axis_exists(b.0.0, b.1.0, ts, p.0);
    lemma_tile_axis_exists(b.0.1, b.1.1, ts, p.1);
}

/// The number of tiles along each axis.
pub fn tile_count(sample_bound: &Bound2, tile_size: i64) -> (r: Point2)
    requires
        tileable(sample_bound@, tile_size as int),
    ensures
        r@ == tile_counts(sample_bound@, tile_size as int),
{
    let ex = sample_bound.p_max.x - sample_bound.p_min.x;
    let ey = sample_bound.p_max.y - sample_bound.p_min.y;
    Point2 {
        x: div_trunc_i64(ex + tile_size - 1, tile_size),
        y: div_trunc_i64(ey + tile_size - 1, tile_size),
    }
}

/// The seed of a tile's sampler: its position in raster order.
pub fn tile_seed(tile: Point2, n_tiles: Point2) -> (r: i64)
    requires
        fits(tile.y * n_tiles.x),
        fits(tile_seed_of(tile@, n_tiles@)),
    ensures
        r == tile_seed_of(tile@, n_tiles@),
{
    tile.y * n_tiles.x + tile.x
}

/// The pixels of the tile at index `tile`.
pub fn tile_bounds(sample_bound: &Bound2, tile: Point2, tile_size: i64) -> (r: Bound2)
    requires
        tileable(sample_bound@, tile_size as int),
        in_tile_range(tile@, tile_counts(sample_bound@, tile_size as int)),
    ensures
        r@ == tile_box(sample_bound@, tile@, tile_size as int),
        pixel_box(r@, tile_size as int),
{
    let ghost b = sample_bound@;
    proof {
        lemma_tile_start(b.0.0, b.1.0, tile_size as int, tile.x as int);
        lemma_tile_start(b.0.1, b.1.1, tile_size as int, tile.y as int);
    }
    let x0 = sample_bound.p_min.x + tile.x * tile_size;
    let y0 = sample_bound.p_min.y + tile.y * tile_size;
    Bound2 {
        p_min: Point2 { x: x0, y: y0 },
        p_max: Point2 {
            x: min_i64(x0 + tile_size, sample_bound.p_max.x),
            y: min_i64(y0 + tile_size, sample_bound.p_max.y),
        },
    }
}

/// All tiles of the sample bound in raster order, each with its seed and
/// its pixels.
pub fn tiles(sample_bound: &Bound2, tile_size: i64) -> (r: Vec<Tile>)
    requires
        tileable(sample_bound@, tile_size as int),
        fits(tile_counts(sample_bound@, tile_size as int).0 * tile_counts(
            sample_bound@,
            tile_size as int,
        ).1),
    ensures
        r@.len() == tile_counts(sample_bound@, tile_size as int).0 * tile_counts(
            sample_bound@,
            tile_size as int,
        ).1,
        forall|i: int|
            0 <= i < r@.len() ==> #[trigger] tile_at(r@[i], i, sample_bound@, tile_size as int),
{
    let n = tile_count(sample_bound, tile_size);
    let ghost b = sample_bound@;
    let ghost ts = tile_size as int;
    proof {
        vstd::arithmetic::div_mod::lemma_div_pos_is_pos(b.1.0 - b.0.0 + ts - 1, ts);
        vstd::arithmetic::div_mod::lemma_div_pos_is_pos(b.1.1 - b.0.1 + ts - 1, ts);
    }
    let mut out: Vec<Tile> = Vec::new();
    let mut ty: i64 = 0;
    while ty < n.y
        invariant
            n@ == tile_counts(b, ts),
            b == sample_bound@,
            ts == tile_size,
            tileable(b, ts),
            fits(n.x * n.y),
            0 <= n.x,
            0 <= ty <= n.y,
            out@.len() == ty * n.x,
            forall|i: int| 0 <= i < out@.len() ==> #[trigger] tile_at(out@[i], i, b, ts),
        decreases n.y - ty,
    {
        let mut tx: i64 = 0;
        while tx < n.x
            invariant
                n@ == tile_counts(b, ts),
                b == sample_bound@,
                ts == tile_size,
                tileable(b, ts),
                fits(n.x * n.y),
                0 <= ty < n.y,
                0 <= tx <= n.x,
                out@.len() == ty * n.x + tx,
                forall|i: int| 0 <= i < out@.len() ==> #[trigger] tile_at(out@[i], i, b, ts),
            decreases n.x - tx,
        {
            proof {
                assert(0 <= ty * n.x + tx < n.x * n.y) by (nonlinear_arith)
                    requires
                        0 <= ty < n.y,
                        0 <= tx < n.x,
                ;
                assert(0 <= ty * n.x <= n.x * n.y) by (nonlinear_arith)
                    requires
                        0 <= ty < n.y,
                        0 <= n.x,
                ;
            }
            let index = Point2 { x: tx, y: ty };
            let seed = ty * n.x + tx;
            let bound = tile_bounds(sample_bound, index, tile_size);
            proof {
                lemma_fundamental_div_mod_converse(seed as int, n.x as int, ty as int, tx as int);
                assert(in_tile_range(index@, n@));
            }
            out.push(Tile { index, seed, bound });
            tx = tx + 1;
        }
        proof {
            assert((ty + 1) * n.x == ty * n.x + n.x) by (nonlinear_arith);
        }
        ty = ty + 1;
    }
    proof {
        assert(ty == n.y);
    }
    out
}

/// The pixels of a box in raster order: pixel `i` is
/// `(x0 + i % width, y0 + i / width)`. These are exactly the points that
/// the exclusive inside test admits.
pub fn tile_pixels(bound: &Bound2) -> (r: Vec<Point2>)
    requires
        bound.p_min.x <= bound.p_max.x,
        bound.p_min.y <= bound.p_max.y,
        fits(bound.p_max.x - bound.p_min.x),
        fits(bound.p_max.y - bound.p_min.y),
        fits((bound.p_max.x - bound.p_min.x) * (bound.p_max.y - bound.p_min.y)),
    ensures
        ({
            let w = bound.p_max.x - bound.p_min.x;
            let h = bound.p_max.y - bound.p_min.y;
            &&& r@.len() == w * h
            &&& forall|i: int|
                0 <= i < r@.len() ==> #[trigger] r@[i]@ == (
                    bound.p_min.x + i % (w as int),
                    bound.p_min.y + i / (w as int),
                )
        }),
        forall|i: int| 0 <= i < r@.len() ==> inside_exclusive2(bound@, #[trigger] r@[i]@),
{
    let w = bound.p_max.x - bound.p_min.x;
    let h = bound.p_max.y - bound.p_min.y;
    let mut out: Vec<Point2> = Vec::new();
    let mut dy: i64 = 0;
    while dy < h
        invariant
            w == bound.p_max.x - bound.p_min.x,
            h == bound.p_max.y - bound.p_min.y,
            0 <= w,
            fits(w * h),
            0 <= dy <= h,
            out@.len() == dy * w,
            forall|i: int|
                0 <= i < out@.len() ==> #[trigger] out@[i]@ == (
                    bound.p_min.x + i % (w as int),
                    bound.p_min.y + i / (w as int),
                ),
            forall|i: int| 0 <= i < out@.len() ==> inside_exclusive2(bound@, #[trigger] out@[i]@),
        decreases h - dy,
    {
        let mut dx: i64 = 0;
        while dx < w
            invariant
                w == bound.p_max.x - bound.p_min.x,
                h == bound.p_max.y - bound.p_min.y,
                0 <= w,
                fits(w * h),
                0 <= dy < h,
                0 <= dx <= w,
                out@.len() == dy * w + dx,
                forall|i: int|
                    0 <= i < out@.len() ==> #[trigger] out@[i]@ == (
                        bound.p_min.x + i % (w as int),
                        bound.p_min.y + i / (w as int),
                    ),
                forall|i: int|
                    0 <= i < out@.len() ==> inside_exclusive2(bound@, #[trigger] out@[i]@),
            decreases w - dx,
        {
            proof {
                lemma_fundamental_div_mod_converse(dy * w + dx, w as int, dy as int, dx as int);
                assert(dy * w + dx < h * w) by (nonlinear_arith)
                    requires
                        0 <= dy < h,
                        0 <= dx < w,
                ;
            }
            out.push(Point2 { x: bound.p_min.x + dx, y: bound.p_min.y + dy });
            dx = dx + 1;
        }
        proof {
            assert((dy + 1) * w == dy * w + w) by (nonlinear_arith);
        }
        dy = dy + 1;
    }
    proof {
        assert(dy * w == w * h) by (nonlinear_arith)
            requires
                dy == h,
        ;
    }
    out
}

} // verus!
