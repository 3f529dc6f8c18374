//! Presents a paginated document (a sequence of rasterized pages) with
//! time-based media overlays anchored to specific pages.
//!
//! The crate holds the verified core: the geometry resolver that turns
//! relative size and position requests into absolute placements, the
//! per-page render cache that decides when a cached image may be reused
//! and when a page must be rasterized again, and the overlay lifecycle
//! controller that decides which overlays start, keep running, or stop
//! as the displayed page changes.
//!
//! All geometry is computed in integer subpixel units (a caller picks the
//! scale, typically a thousandth of a pixel) so that every formula can be
//! stated and proved exactly. Percentages are likewise carried in
//! thousandths of a percent, so that `PERCENT_UNIT` stands for 100%.

use vstd::arithmetic::div_mod::{
    lemma_div_is_ordered, lemma_div_multiples_vanish, lemma_fundamental_div_mod,
    lemma_fundamental_div_mod_converse, lemma_mod_division_less_than_divisor,
};
use vstd::arithmetic::mul::lemma_mul_is_distributive_add;
use vstd::prelude::*;

pub mod config;
pub mod slides;

verus! {

/// The value that stands for 100%: percentages are carried in
/// thousandths of a percent.
pub const PERCENT_UNIT: u64 = 100_000;

/// Largest reference dimension (bounding box axis), in subpixel units,
/// that the resolver accepts. Keeps every intermediate product inside
/// `u64`.
pub const MAX_DIM: u64 = 0xFFFF_FFFF;

/// `reference * p / 100%`, the exact (floor-rounded) resolution of a
/// percentage `p` against a reference length.
pub open spec fn resolve_len(p: int, reference: int) -> int {
    reference * p / (PERCENT_UNIT as int)
}

/// A relative length: a percentage of some reference dimension, carried
/// in thousandths of a percent (`Percent(30_000)` is 30%).
#[derive(Copy, Clone, Debug, PartialEq, Eq, Structural)]
pub enum SizeEntry {
    Percent(u32),
}

impl SizeEntry {
    /// The stored percentage, in thousandths of a percent.
    pub open spec fn percent_milli(self) -> u32 {
        match self {
            SizeEntry::Percent(p) => p,
        }
    }

    /// A percentage is valid when it lies in [0%, 100%]; values outside
    /// this range are rejected at construction time.
    pub open spec fn wf(self) -> bool {
        self.percent_milli() <= PERCENT_UNIT
    }

    /// Checked constructor: accepts exactly the percentages in [0%, 100%].
    pub fn percent(milli: u32) -> (r: Option<SizeEntry>)
        ensures
            r is Some <==> milli <= PERCENT_UNIT,
            r matches Some(e) ==> e == SizeEntry::Percent(milli),
    {
        if milli as u64 <= PERCENT_UNIT {
            Some(SizeEntry::Percent(milli))
        } else {
            None
        }
    }

    /// Resolves this percentage against a reference dimension.
    pub fn calc_size(&self, bbox_val: u64) -> (r: u64)
        requires
            self.wf(),
            bbox_val <= MAX_DIM,
        ensures
            r == resolve_len(self.percent_milli() as int, bbox_val as int),
            r <= bbox_val,
    {
        match *self {
            SizeEntry::Percent(p) => {
                proof {
                    lemma_resolve_len_in_bounds(p as int, bbox_val as int);
                }
                bbox_val * (p as u64) / PERCENT_UNIT
            },
        }
    }
}

/// A relative position: an offset from a bounding box's top-left corner,
/// each axis a percentage of the corresponding bounding box dimension.
#[derive(Copy, Clone, Debug, PartialEq, Eq, Structural)]
pub struct PosRequest {
    pub width: SizeEntry,
    pub height: SizeEntry,
}

impl PosRequest {
    pub open spec fn wf(self) -> bool {
        self.width.wf() && self.height.wf()
    }

    /// The offset this position resolves to against a bounding box.
    pub open spec fn spec_by_bbox(self, bbox_w: int, bbox_h: int) -> (int, int) {
        (
            resolve_len(self.width.percent_milli() as int, bbox_w),
            resolve_len(self.height.percent_milli() as int, bbox_h),
        )
    }

    /// Resolves each axis independently against the bounding box.
    pub fn by_bbox(&self, bbox_wh: (u64, u64)) -> (r: (u64, u64))
        requires
            self.wf(),
            bbox_wh.0 <= MAX_DIM,
            bbox_wh.1 <= MAX_DIM,
        ensures
            (r.0 as int, r.1 as int) == self.spec_by_bbox(bbox_wh.0 as int, bbox_wh.1 as int),
            r.0 <= bbox_wh.0,
            r.1 <= bbox_wh.1,
    {
        (self.width.calc_size(bbox_wh.0), self.height.calc_size(bbox_wh.1))
    }
}

/// A relative extent. Either both axes are given as percentages of the
/// bounding box, or one axis is given and the other follows from the
/// overlay's native aspect ratio.
#[derive(Copy, Clone, Debug, PartialEq, Eq, Structural)]
pub enum SizeRequest {
    /// Both axes resolved independently against the bounding box; the
    /// native aspect ratio is deliberately ignored.
    Size(SizeEntry, SizeEntry),
    /// Height resolved against the bounding box; width derived from the
    /// native aspect ratio.
    AutoWidth(SizeEntry),
    /// Width resolved against the bounding box; height derived from the
    /// native aspect ratio.
    AutoHeight(SizeEntry),
}

impl SizeRequest {
    pub open spec fn wf(self) -> bool {
        match self {
            SizeRequest::Size(w, h) => w.wf() && h.wf(),
            SizeRequest::AutoWidth(h) => h.wf(),
            SizeRequest::AutoHeight(w) => w.wf(),
        }
    }

    /// The extent this request resolves to, given the native dimensions
    /// of the overlay and the bounding box dimensions.
    pub open spec fn spec_by_bbox(self, dim_w: int, dim_h: int, bbox_w: int, bbox_h: int) -> (
        int,
        int,
    ) {
        match self {
            SizeRequest::Size(w, h) => {
                (
                    resolve_len(w.percent_milli() as int, bbox_w),
                    resolve_len(h.percent_milli() as int, bbox_h),
                )
            },
            SizeRequest::AutoWidth(h) => {
                let h_render = resolve_len(h.percent_milli() as int, bbox_h);
                (h_render * dim_w / dim_h, h_render)
            },
            SizeRequest::AutoHeight(w) => {
                let w_render = resolve_len(w.percent_milli() as int, bbox_w);
                (w_render, w_render * dim_h / dim_w)
            },
        }
    }

    /// Resolves this request against a bounding box, deriving the free
    /// axis (if any) from the native dimensions `video_dim`. The native
    /// dimensions must be strictly positive: they come from a running
    /// media stream, whose reported size is non-zero once known.
    pub fn by_bbox(&self, video_dim: (u64, u64), bbox_wh: (u64, u64)) -> (r: (u64, u64))
        requires
            self.wf(),
            1 <= video_dim.0 <= MAX_DIM,
            1 <= video_dim.1 <= MAX_DIM,
            bbox_wh.0 <= MAX_DIM,
            bbox_wh.1 <= MAX_DIM,
        ensures
            (r.0 as int, r.1 as int) == self.spec_by_bbox(
                video_dim.0 as int,
                video_dim.1 as int,
                bbox_wh.0 as int,
                bbox_wh.1 as int,
            ),
    {
        let (bbox_w, bbox_h) = bbox_wh;
        match self {
            SizeRequest::Size(w, h) => (w.calc_size(bbox_w), h.calc_size(bbox_h)),
            SizeRequest::AutoWidth(h) => {
                let (dim_w, dim_h) = video_dim;
                let h_render = h.calc_size(bbox_h);
                proof {
                    lemma_scaled_product_fits(h_render as int, dim_w as int);
                }
                let w_render = h_render * dim_w / dim_h;
                (w_render, h_render)
            },
            SizeRequest::AutoHeight(w) => {
                let (dim_w, dim_h) = video_dim;
                let w_render = w.calc_size(bbox_w);
                proof {
                    lemma_scaled_product_fits(w_render as int, dim_h as int);
                }
                let h_render = w_render * dim_h / dim_w;
                (w_render, h_render)
            },
        }
    }
}

impl Default for SizeRequest {
    /// The default extent: width 30% of the bounding box, height derived
    /// from the native aspect ratio.
    fn default() -> (r: Self)
        ensures
            r == SizeRequest::AutoHeight(SizeEntry::Percent(30_000)),
    {
        SizeRequest::AutoHeight(SizeEntry::Percent(30_000))
    }
}

/// The product of two resolved dimensions stays below `u64::MAX`.
proof fn lemma_scaled_product_fits(a: int, b: int)
    requires
        0 <= a <= MAX_DIM,
        0 <= b <= MAX_DIM,
    ensures
        a * b <= MAX_DIM * MAX_DIM < u64::MAX,
        0 <= a * b,
{
    assert(a * b <= MAX_DIM * MAX_DIM && 0 <= a * b) by (nonlinear_arith)
        requires
            0 <= a <= MAX_DIM,
            0 <= b <= MAX_DIM,
    ;
}

/// The resolved length never exceeds the reference, and the product
/// feeding the division stays below `u64::MAX`.
proof fn lemma_resolve_len_in_bounds(p: int, r: int)
    requires
        0 <= p <= PERCENT_UNIT,
        0 <= r <= MAX_DIM,
    ensures
        r * p <= MAX_DIM * PERCENT_UNIT < u64::MAX,
        0 <= resolve_len(p, r) <= r,
{
    assert(r * p <= MAX_DIM * PERCENT_UNIT) by (nonlinear_arith)
        requires
            0 <= p <= PERCENT_UNIT,
            0 <= r <= MAX_DIM,
    ;
    assert(0 <= r * p / (PERCENT_UNIT as int) <= r) by (nonlinear_arith)
        requires
            0 <= p <= PERCENT_UNIT,
            0 <= r,
    ;
}

/// Resolving 0% of any reference yields 0.
pub proof fn lemma_resolve_len_zero(r: int)
    requires
        0 <= r,
    ensures
        resolve_len(0, r) == 0,
{
}

/// Resolving 100% of any reference yields the reference exactly.
pub proof fn lemma_resolve_len_full(r: int)
    requires
        0 <= r,
    ensures
        resolve_len(PERCENT_UNIT as int, r) == r,
{
    let d = PERCENT_UNIT as int;
    lemma_div_multiples_vanish(r, d);
    assert(r * d == d * r) by (nonlinear_arith);
}

/// The resolved length is the exact proportion `r * p / 100%`, rounded
/// down: it is off from the exact rational value by less than one unit.
pub proof fn lemma_resolve_len_floor(p: int, r: int)
    requires
        0 <= p,
        0 <= r,
    ensures
        PERCENT_UNIT * resolve_len(p, r) <= r * p < PERCENT_UNIT * (resolve_len(p, r) + 1),
{
    let d = PERCENT_UNIT as int;
    lemma_fundamental_div_mod(r * p, d);
    lemma_mod_division_less_than_divisor(r * p, d);
}

/// The resolved length is monotonic in the percentage.
pub proof fn lemma_resolve_len_monotonic(p1: int, p2: int, r: int)
    requires
        0 <= p1 <= p2,
        0 <= r,
    ensures
        resolve_len(p1, r) <= resolve_len(p2, r),
{
    let d = PERCENT_UNIT as int;
    assert(r * p1 <= r * p2) by (nonlinear_arith)
        requires
            0 <= p1 <= p2,
            0 <= r,
    ;
    lemma_div_is_ordered(r * p1, r * p2, d);
}

/// The resolved length is linear in the percentage, up to the single
/// unit lost to floor rounding: resolving `p1 + p2` yields the sum of
/// the separate resolutions, or that sum plus one.
pub proof fn lemma_resolve_len_linear(p1: int, p2: int, r: int)
    requires
        0 <= p1,
        0 <= p2,
        0 <= r,
    ensures
        resolve_len(p1, r) + resolve_len(p2, r) <= resolve_len(p1 + p2, r) <= resolve_len(p1, r)
            + resolve_len(p2, r) + 1,
{
    let d = PERCENT_UNIT as int;
    let a = r * p1;
    let b = r * p2;
    lemma_mul_is_distributive_add(r, p1, p2);
    assert(r * (p1 + p2) == a + b);
    lemma_fundamental_div_mod(a, d);
    lemma_mod_division_less_than_divisor(a, d);
    lemma_fundamental_div_mod(b, d);
    lemma_mod_division_less_than_divisor(b, d);
    let qa = a / d;
    let qb = b / d;
    let ra = a % d;
    let rb = b % d;
    if ra + rb < d {
        lemma_fundamental_div_mod_converse(a + b, d, qa + qb, ra + rb);
    } else {
        lemma_fundamental_div_mod_converse(a + b, d, qa + qb + 1, ra + rb - d);
    }
}

/// Under `AutoHeight`, the resolved extent preserves the native aspect
/// ratio as exactly as integer units allow: the resolved height is the
/// floor of `width * native_h / native_w`, so the cross products agree
/// to within one unit of height.
pub proof fn lemma_auto_height_preserves_aspect(
    w: SizeEntry,
    dim_w: int,
    dim_h: int,
    bbox_w: int,
    bbox_h: int,
)
    requires
        w.wf(),
        1 <= dim_w,
        1 <= dim_h,
        0 <= bbox_w,
        0 <= bbox_h,
    ensures
        ({
            let (rw, rh) = SizeRequest::AutoHeight(w).spec_by_bbox(dim_w, dim_h, bbox_w, bbox_h);
            rh * dim_w <= rw * dim_h < (rh + 1) * dim_w
        }),
{
    let rw = resolve_len(w.percent_milli() as int, bbox_w);
    lemma_aspect_division_floor(rw, dim_w, dim_h);
}

/// Under `AutoWidth`, the resolved extent preserves the native aspect
/// ratio as exactly as integer units allow: the resolved width is the
/// floor of `height * native_w / native_h`, so the cross products agree
/// to within one unit of width.
pub proof fn lemma_auto_width_preserves_aspect(
    h: SizeEntry,
    dim_w: int,
    dim_h: int,
    bbox_w: int,
    bbox_h: int,
)
    requires
        h.wf(),
        1 <= dim_w,
        1 <= dim_h,
        0 <= bbox_w,
        0 <= bbox_h,
    ensures
        ({
            let (rw, rh) = SizeRequest::AutoWidth(h).spec_by_bbox(dim_w, dim_h, bbox_w, bbox_h);
            rw * dim_h <= rh * dim_w < (rw + 1) * dim_h
        }),
{
    let rh = resolve_len(h.percent_milli() as int, bbox_h);
    lemma_aspect_division_floor(rh, dim_h, dim_w);
}

/// Floor characterization of the derived axis: `given * num / den` is
/// the largest value whose cross product stays at or below the exact
/// proportion.
proof fn lemma_aspect_division_floor(given: int, den: int, num: int)
    requires
        0 <= given,
        1 <= den,
        1 <= num,
    ensures
        (given * num / den) * den <= given * num < (given * num / den + 1) * den,
{
    let x = given * num;
    lemma_fundamental_div_mod(x, den);
    lemma_mod_division_less_than_divisor(x, den);
    assert(den * (x / den) == (x / den) * den) by (nonlinear_arith);
    assert((x / den + 1) * den == (x / den) * den + den) by (nonlinear_arith);
}

/// An overlay definition: a media source bound to one or more page
/// indices, with a relative position and extent against the slide's
/// bounding box. Built from configuration; the page-index set is never
/// empty (an overlay bound to no page is a configuration error).
pub struct VideoEntry {
    pub slide_nums: Vec<usize>,
    pub video_path: String,
    pub pos: PosRequest,
    pub size: SizeRequest,
}

/// The mathematical content of a [`VideoEntry`].
#[verifier::ext_equal]
pub struct VideoEntryView {
    pub slide_nums: Seq<usize>,
    pub video_path: Seq<char>,
    pub pos: PosRequest,
    pub size: SizeRequest,
}

impl VideoEntryView {
    pub open spec fn wf(self) -> bool {
        &&& self.slide_nums.len() > 0
        &&& self.pos.wf()
        &&& self.size.wf()
    }
}

impl View for VideoEntry {
    type V = VideoEntryView;

    open spec fn view(&self) -> VideoEntryView {
        VideoEntryView {
            slide_nums: self.slide_nums@,
            video_path: self.video_path@,
            pos: self.pos,
            size: self.size,
        }
    }
}

impl Clone for VideoEntry {
    fn clone(&self) -> (r: Self)
        ensures
            r@ == self@,
    {
        let slide_nums = self.slide_nums.clone();
        proof {
            assert(slide_nums@ =~= self.slide_nums@);
        }
        VideoEntry {
            slide_nums,
            video_path: self.video_path.clone(),
            pos: self.pos,
            size: self.size,
        }
    }
}

} // verus!
