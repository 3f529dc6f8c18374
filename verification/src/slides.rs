//! The per-page render cache and the overlay lifecycle controller.
//!
//! [`SlidesCache`] owns the current viewport, the per-page cache of
//! rendered images, and the set of overlay definitions together with a
//! model of which overlay is currently playing. Rasterization and media
//! playback are outside collaborators: the cache never performs them
//! itself. Instead, [`SlidesCache::get_page`] answers with a decision —
//! reuse this cached image, or render the page at these dimensions — and
//! the caller reports a completed render back through
//! [`SlidesCache::store_rendered`]. Likewise
//! [`SlidesCache::handle_video`] answers with one lifecycle action per
//! overlay definition, and the caller reports a successful playback
//! start back through [`SlidesCache::video_started`].

use crate::{resolve_len, SizeRequest, VideoEntry, VideoEntryView, MAX_DIM, PERCENT_UNIT};
use vstd::prelude::*;

verus! {

/// Largest native media dimension, in subpixel units, that placement
/// accepts. Keeps a derived extent inside `i64`.
pub const MAX_VIDEO_DIM: u64 = 0xFF_FFFF;

/// Largest magnitude of a slide position coordinate, in subpixel units,
/// that placement accepts.
pub const MAX_COORD: i64 = 0xFFFF_FFFF;

/// A rendered page: a pixel buffer with its dimensions. Produced by the
/// outside rasterizer, stored and handed out by the cache unchanged.
pub struct PixelImage {
    pub width: usize,
    pub height: usize,
    pub pixels: Vec<u8>,
}

/// The mathematical content of a [`PixelImage`].
#[verifier::ext_equal]
pub struct ImageView {
    pub width: nat,
    pub height: nat,
    pub pixels: Seq<u8>,
}

impl View for PixelImage {
    type V = ImageView;

    open spec fn view(&self) -> ImageView {
        ImageView { width: self.width as nat, height: self.height as nat, pixels: self.pixels@ }
    }
}

impl Clone for PixelImage {
    fn clone(&self) -> (r: Self)
        ensures
            r@ == self@,
    {
        let pixels = self.pixels.clone();
        proof {
            assert(pixels@ =~= self.pixels@);
        }
        PixelImage { width: self.width, height: self.height, pixels }
    }
}

/// What a page request decided.
pub enum PageUpdate {
    /// The requested page is already current and nothing is pending:
    /// there is nothing to do this tick.
    Unchanged,
    /// A cached image valid for the current viewport; reuse it.
    Cached(PixelImage),
    /// No valid cached image exists: the caller must rasterize the page
    /// at the given viewport dimensions and, on success, report the
    /// result through [`SlidesCache::store_rendered`].
    RenderNeeded { width: i32, height: i32 },
}

/// The mathematical content of a [`PageUpdate`].
#[verifier::ext_equal]
pub enum PageUpdateView {
    Unchanged,
    Cached(ImageView),
    RenderNeeded { width: i32, height: i32 },
}

impl View for PageUpdate {
    type V = PageUpdateView;

    open spec fn view(&self) -> PageUpdateView {
        match self {
            PageUpdate::Unchanged => PageUpdateView::Unchanged,
            PageUpdate::Cached(img) => PageUpdateView::Cached(img@),
            PageUpdate::RenderNeeded { width, height } => PageUpdateView::RenderNeeded {
                width: *width,
                height: *height,
            },
        }
    }
}

/// What the lifecycle reconciliation decided for one overlay definition.
#[derive(Copy, Clone, Debug, PartialEq, Eq, Structural)]
pub enum VideoAction {
    /// Not bound to the current page and not playing: nothing to do.
    Idle,
    /// Bound to the current page but not playing: the caller must
    /// initialize and start playback and, on success, report it through
    /// [`SlidesCache::video_started`].
    Start,
    /// Bound to the current page and already playing: leave playback
    /// untouched, so that an overlay spanning consecutive pages plays
    /// on across the page boundary.
    KeepPlaying,
    /// Playing, but not bound to the current page: tear playback down.
    Stop,
}

/// An absolute placement rectangle, in subpixel units.
#[derive(Copy, Clone, Debug, PartialEq, Eq, Structural)]
pub struct VideoRect {
    pub min_x: i64,
    pub min_y: i64,
    pub max_x: i64,
    pub max_y: i64,
}

/// The mathematical state of a [`SlidesCache`].
#[verifier::ext_equal]
pub struct CacheModel {
    /// Current viewport dimensions.
    pub window_width: i32,
    pub window_height: i32,
    /// The page most recently requested.
    pub current_page: usize,
    /// Set by a viewport change (and at construction), cleared by the
    /// first successful render that follows.
    pub needs_redraw: bool,
    /// One slot per page index; `Some` once the page has been rendered
    /// successfully at least once. Entries are never evicted.
    pub images: Seq<Option<ImageView>>,
    /// Parallel to `images`: whether the slot's image predates the
    /// current viewport and must be regenerated before reuse.
    pub stale: Seq<bool>,
    /// The overlay definitions.
    pub videos: Seq<VideoEntryView>,
    /// Parallel to `videos`: whether a live playback instance exists.
    pub playing: Seq<bool>,
}

impl CacheModel {
    /// Validity: the parallel sequences agree in length, every overlay
    /// definition is well formed, and whenever a redraw is pending every
    /// cache slot is stale (staleness is only ever cleared together with
    /// the pending-redraw flag).
    pub open spec fn wf(self) -> bool {
        &&& self.images.len() == self.stale.len()
        &&& self.videos.len() == self.playing.len()
        &&& self.needs_redraw ==> forall|i: int| 0 <= i < self.stale.len() ==> self.stale[i]
        &&& forall|i: int| 0 <= i < self.videos.len() ==> (#[trigger] self.videos[i]).wf()
    }
}

/// The state a fresh cache starts in: no page rendered, every slot
/// stale, a redraw pending, page 0 current, no overlay playing.
pub open spec fn spec_initial(
    num_pages: usize,
    window_width: i32,
    window_height: i32,
    videos: Seq<VideoEntryView>,
) -> CacheModel {
    CacheModel {
        window_width,
        window_height,
        current_page: 0,
        needs_redraw: true,
        images: Seq::new(num_pages as nat, |i: int| None),
        stale: Seq::new(num_pages as nat, |i: int| true),
        videos,
        playing: Seq::new(videos.len(), |i: int| false),
    }
}

/// What [`SlidesCache::get_page`] answers: nothing when the page is
/// already current and no redraw is pending; the cached image when a
/// non-stale one exists; otherwise a request to render at the current
/// viewport.
pub open spec fn spec_get_page_result(m: CacheModel, page: usize) -> PageUpdateView {
    if !m.needs_redraw && page == m.current_page {
        PageUpdateView::Unchanged
    } else if page < m.images.len() && m.images[page as int] is Some && !m.stale[page as int] {
        PageUpdateView::Cached(m.images[page as int]->Some_0)
    } else {
        PageUpdateView::RenderNeeded { width: m.window_width, height: m.window_height }
    }
}

/// How [`SlidesCache::get_page`] changes the state: it only moves
/// `current_page`, and only when it answers something.
pub open spec fn spec_get_page_state(m: CacheModel, page: usize) -> CacheModel {
    if !m.needs_redraw && page == m.current_page {
        m
    } else {
        CacheModel { current_page: page, ..m }
    }
}

/// How [`SlidesCache::store_rendered`] changes the state: a successful
/// render fills the page's slot, marks it fresh, and clears the pending
/// redraw. A report for a page index outside the document is ignored.
pub open spec fn spec_store_state(m: CacheModel, page: usize, img: ImageView) -> CacheModel {
    if page < m.images.len() {
        CacheModel {
            needs_redraw: false,
            images: m.images.update(page as int, Some(img)),
            stale: m.stale.update(page as int, false),
            ..m
        }
    } else {
        m
    }
}

/// How [`SlidesCache::change_size`] changes the state: a viewport change
/// stores the new dimensions, marks every cached page stale and a redraw
/// pending; reporting the unchanged viewport does nothing.
pub open spec fn spec_change_size_state(m: CacheModel, w: i32, h: i32) -> CacheModel {
    if w != m.window_width || h != m.window_height {
        CacheModel {
            window_width: w,
            window_height: h,
            needs_redraw: true,
            stale: Seq::new(m.stale.len(), |i: int| true),
            ..m
        }
    } else {
        m
    }
}

/// How [`SlidesCache::change_video_entries`] changes the state: the
/// definition set is swapped wholesale and no instance survives it.
pub open spec fn spec_change_videos_state(m: CacheModel, videos: Seq<VideoEntryView>) -> CacheModel {
    CacheModel { videos, playing: Seq::new(videos.len(), |i: int| false), ..m }
}

/// How [`SlidesCache::video_started`] changes the state: the overlay's
/// playback instance is recorded as live.
pub open spec fn spec_video_started_state(m: CacheModel, i: usize) -> CacheModel {
    if i < m.playing.len() {
        CacheModel { playing: m.playing.update(i as int, true), ..m }
    } else {
        m
    }
}

/// What [`SlidesCache::handle_video`] decides for the overlay at index
/// `i`, given the page now displayed.
pub open spec fn spec_video_action(m: CacheModel, i: int, page: usize) -> VideoAction {
    if m.videos[i].slide_nums.contains(page) {
        if m.playing[i] {
            VideoAction::KeepPlaying
        } else {
            VideoAction::Start
        }
    } else {
        if m.playing[i] {
            VideoAction::Stop
        } else {
            VideoAction::Idle
        }
    }
}

/// How [`SlidesCache::handle_video`] changes the state: an overlay keeps
/// playing exactly when it was playing and is bound to the page now
/// displayed. (A `Start` answer does not record a live instance; the
/// caller reports success through [`SlidesCache::video_started`], so a
/// failed start is simply retried on the next tick.)
pub open spec fn spec_handle_video_state(m: CacheModel, page: usize) -> CacheModel {
    CacheModel {
        playing: Seq::new(
            m.playing.len(),
            |i: int| m.playing[i] && m.videos[i].slide_nums.contains(page),
        ),
        ..m
    }
}

/// The placement of one overlay: the slide position plus the resolved
/// relative offset, extended by the resolved extent.
pub open spec fn spec_place(
    entry: VideoEntryView,
    video_dim: (u64, u64),
    slide_pos: (i64, i64),
    slide_size: (u64, u64),
    r: VideoRect,
) -> bool {
    let (off_x, off_y) = entry.pos.spec_by_bbox(slide_size.0 as int, slide_size.1 as int);
    let (ext_w, ext_h) = entry.size.spec_by_bbox(
        video_dim.0 as int,
        video_dim.1 as int,
        slide_size.0 as int,
        slide_size.1 as int,
    );
    &&& r.min_x == slide_pos.0 + off_x
    &&& r.min_y == slide_pos.1 + off_y
    &&& r.max_x == r.min_x + ext_w
    &&& r.max_y == r.min_y + ext_h
}

/// The render cache and overlay lifecycle state for one document.
pub struct SlidesCache {
    window_width: i32,
    window_height: i32,
    current_page_idx: usize,
    needs_redraw: bool,
    images: Vec<Option<PixelImage>>,
    stale: Vec<bool>,
    videos: Vec<VideoEntry>,
    playing: Vec<bool>,
}

pub open spec fn opt_image_view(o: Option<PixelImage>) -> Option<ImageView> {
    match o {
        Some(img) => Some(img@),
        None => None,
    }
}

impl View for SlidesCache {
    type V = CacheModel;

    closed spec fn view(&self) -> CacheModel {
        CacheModel {
            window_width: self.window_width,
            window_height: self.window_height,
            current_page: self.current_page_idx,
            needs_redraw: self.needs_redraw,
            images: self.images@.map_values(|o: Option<PixelImage>| opt_image_view(o)),
            stale: self.stale@,
            videos: self.videos@.map_values(|e: VideoEntry| e@),
            playing: self.playing@,
        }
    }
}

impl SlidesCache {
    /// A fresh cache for a document with `num_pages` pages, an initial
    /// viewport, and the configured overlay definitions. No page is
    /// cached yet and no overlay is playing.
    pub fn new(
        num_pages: usize,
        window_width: i32,
        window_height: i32,
        video_entries: Vec<VideoEntry>,
    ) -> (r: Self)
        requires
            forall|i: int|
                0 <= i < video_entries@.len() ==> (#[trigger] video_entries@[i])@.wf(),
        ensures
            r@ == spec_initial(
                num_pages,
                window_width,
                window_height,
                video_entries@.map_values(|e: VideoEntry| e@),
            ),
            r@.wf(),
    {
        let mut images: Vec<Option<PixelImage>> = Vec::new();
        let mut stale: Vec<bool> = Vec::new();
        let mut i: usize = 0;
        while i < num_pages
            invariant
                i <= num_pages,
                images@.len() == i,
                stale@.len() == i,
                forall|j: int| 0 <= j < i ==> images@[j] is None,
                forall|j: int| 0 <= j < i ==> stale@[j],
            decreases num_pages - i,
        {
            images.push(None);
            stale.push(true);
            i = i + 1;
        }
        let mut playing: Vec<bool> = Vec::new();
        let mut k: usize = 0;
        let n = video_entries.len();
        while k < n
            invariant
                k <= n,
                playing@.len() == k,
                forall|j: int| 0 <= j < k ==> !playing@[j],
            decreases n - k,
        {
            playing.push(false);
            k = k + 1;
        }
        let r = SlidesCache {
            window_width,
            window_height,
            current_page_idx: 0,
            needs_redraw: true,
            images,
            stale,
            videos: video_entries,
            playing,
        };
        proof {
            assert(r@.images =~= Seq::new(num_pages as nat, |i: int| None));
            assert(r@.stale =~= Seq::new(num_pages as nat, |i: int| true));
            assert(r@.playing =~= Seq::new(r@.videos.len(), |i: int| false));
        }
        r
    }

    /// The number of pages the cache was built for.
    pub fn num_pages(&self) -> (n: usize)
        ensures
            n == self@.images.len(),
    {
        self.images.len()
    }

    /// Reports the current viewport. A change of either dimension
    /// invalidates every cached page and marks a redraw pending; the
    /// unchanged viewport is a no-op.
    pub fn change_size(&mut self, window_width: i32, window_height: i32)
        requires
            old(self)@.wf(),
        ensures
            final(self)@ == spec_change_size_state(old(self)@, window_width, window_height),
            final(self)@.wf(),
    {
        if self.window_width != window_width || self.window_height != window_height {
            self.window_width = window_width;
            self.window_height = window_height;
            self.needs_redraw = true;
            let mut i: usize = 0;
            let n = self.stale.len();
            while i < n
                invariant
                    i <= n,
                    self.stale@.len() == n,
                    forall|j: int| 0 <= j < i ==> self.stale@[j],
                    self.window_width == window_width,
                    self.window_height == window_height,
                    self.needs_redraw,
                    self.current_page_idx == old(self).current_page_idx,
                    self.images@ == old(self).images@,
                    self.videos@ == old(self).videos@,
                    self.playing@ == old(self).playing@,
                decreases n - i,
            {
                self.stale.set(i, true);
                i = i + 1;
            }
            proof {
                assert(self@.stale =~= Seq::new(old(self)@.stale.len(), |i: int| true));
            }
        }
    }

    /// Requests the page at `page_idx` for display. Answers `Unchanged`
    /// when that page is already current and no redraw is pending;
    /// otherwise makes it current and answers either the cached image
    /// (when one exists and is not stale) or a request to render at the
    /// current viewport dimensions. The cache itself is not altered: a
    /// render only enters it through [`Self::store_rendered`], so a
    /// failed render leaves the stale or missing slot untouched and the
    /// request is repeated on the next tick.
    pub fn get_page(&mut self, page_idx: usize) -> (r: PageUpdate)
        requires
            old(self)@.wf(),
        ensures
            final(self)@ == spec_get_page_state(old(self)@, page_idx),
            final(self)@.wf(),
            r@ == spec_get_page_result(old(self)@, page_idx),
    {
        if !self.needs_redraw && page_idx == self.current_page_idx {
            return PageUpdate::Unchanged;
        }
        self.current_page_idx = page_idx;
        if page_idx < self.images.len() {
            if !self.stale[page_idx] {
                match self.images[page_idx].as_ref() {
                    Some(img) => {
                        return PageUpdate::Cached(img.clone());
                    },
                    None => {},
                }
            }
        }
        PageUpdate::RenderNeeded { width: self.window_width, height: self.window_height }
    }

    /// Reports a successful render of `page_idx` at the current
    /// viewport: the image fills the page's slot, the slot is fresh
    /// again, and the pending redraw is cleared. A page index outside
    /// the document (for which the rasterizer can never succeed) is
    /// ignored.
    pub fn store_rendered(&mut self, page_idx: usize, image: PixelImage)
        requires
            old(self)@.wf(),
        ensures
            final(self)@ == spec_store_state(old(self)@, page_idx, image@),
            final(self)@.wf(),
    {
        if page_idx < self.images.len() {
            self.images.set(page_idx, Some(image));
            self.stale.set(page_idx, false);
            self.needs_redraw = false;
        }
    }

    /// Replaces the overlay definition set wholesale (configuration
    /// reload). No playback instance survives: the caller must tear all
    /// of its players down; the next reconciliation recreates whatever
    /// the current page needs under the new definitions.
    pub fn change_video_entries(&mut self, video_entries: Vec<VideoEntry>)
        requires
            old(self)@.wf(),
            forall|i: int|
                0 <= i < video_entries@.len() ==> (#[trigger] video_entries@[i])@.wf(),
        ensures
            final(self)@ == spec_change_videos_state(
                old(self)@,
                video_entries@.map_values(|e: VideoEntry| e@),
            ),
            final(self)@.wf(),
    {
        let n = video_entries.len();
        self.videos = video_entries;
        let mut playing: Vec<bool> = Vec::new();
        let mut i: usize = 0;
        while i < n
            invariant
                i <= n,
                playing@.len() == i,
                forall|j: int| 0 <= j < i ==> !playing@[j],
            decreases n - i,
        {
            playing.push(false);
            i = i + 1;
        }
        self.playing = playing;
        proof {
            assert(self@.playing =~= Seq::new(self@.videos.len(), |i: int| false));
        }
    }

    /// Reconciles overlay playback with the page now displayed: answers
    /// one action per overlay definition, in definition order. Overlays
    /// bound to the page keep playing (never restarted — an overlay
    /// spanning consecutive pages plays continuously across the
    /// boundary) or are asked to start; overlays not bound to the page
    /// are stopped if playing. A `Start` is recorded only when the
    /// caller reports success through [`Self::video_started`], so a
    /// failed start is retried on the next tick.
    pub fn handle_video(&mut self, page_idx: usize) -> (r: Vec<VideoAction>)
        requires
            old(self)@.wf(),
        ensures
            final(self)@ == spec_handle_video_state(old(self)@, page_idx),
            final(self)@.wf(),
            r@.len() == old(self)@.videos.len(),
            forall|i: int|
                0 <= i < r@.len() ==> r@[i] == spec_video_action(old(self)@, i, page_idx),
    {
        let mut actions: Vec<VideoAction> = Vec::new();
        let mut i: usize = 0;
        let n = self.videos.len();
        while i < n
            invariant
                old(self)@.wf(),
                i <= n,
                n == self.videos@.len(),
                self.videos@ == old(self).videos@,
                self.playing@.len() == n,
                self.images@ == old(self).images@,
                self.stale@ == old(self).stale@,
                self.window_width == old(self).window_width,
                self.window_height == old(self).window_height,
                self.current_page_idx == old(self).current_page_idx,
                self.needs_redraw == old(self).needs_redraw,
                actions@.len() == i,
                forall|j: int|
                    0 <= j < i ==> actions@[j] == spec_video_action(old(self)@, j, page_idx),
                forall|j: int|
                    0 <= j < i ==> self.playing@[j] == (old(self)@.playing[j]
                        && old(self)@.videos[j].slide_nums.contains(page_idx)),
                forall|j: int| i <= j < n ==> self.playing@[j] == old(self)@.playing[j],
            decreases n - i,
        {
            let on_page = contains_page(&self.videos[i].slide_nums, page_idx);
            let was_playing = self.playing[i];
            let action = if on_page {
                if was_playing {
                    VideoAction::KeepPlaying
                } else {
                    VideoAction::Start
                }
            } else {
                if was_playing {
                    self.playing.set(i, false);
                    VideoAction::Stop
                } else {
                    VideoAction::Idle
                }
            };
            actions.push(action);
            i = i + 1;
        }
        proof {
            assert(self@.playing =~= spec_handle_video_state(old(self)@, page_idx).playing);
        }
        actions
    }

    /// Reports that playback for the overlay at `entry_idx` was
    /// initialized and started successfully. An index outside the
    /// definition set is ignored.
    pub fn video_started(&mut self, entry_idx: usize)
        requires
            old(self)@.wf(),
        ensures
            final(self)@ == spec_video_started_state(old(self)@, entry_idx),
            final(self)@.wf(),
    {
        if entry_idx < self.playing.len() {
            self.playing.set(entry_idx, true);
        }
    }

    /// Computes the placement rectangle for the overlay at `entry_idx`:
    /// the relative position resolved against the slide's bounding box,
    /// offset from the slide's top-left corner, extended by the relative
    /// size resolved against the bounding box and the overlay's native
    /// dimensions. The native dimensions must be strictly positive (they
    /// come from a running media stream; the caller skips placement
    /// while they are still unknown).
    pub fn place_video(
        &self,
        entry_idx: usize,
        video_dim: (u64, u64),
        slide_pos: (i64, i64),
        slide_size: (u64, u64),
    ) -> (r: VideoRect)
        requires
            self@.wf(),
            entry_idx < self@.videos.len(),
            1 <= video_dim.0 <= MAX_VIDEO_DIM,
            1 <= video_dim.1 <= MAX_VIDEO_DIM,
            slide_size.0 <= MAX_DIM,
            slide_size.1 <= MAX_DIM,
            -MAX_COORD <= slide_pos.0 <= MAX_COORD,
            -MAX_COORD <= slide_pos.1 <= MAX_COORD,
        ensures
            spec_place(self@.videos[entry_idx as int], video_dim, slide_pos, slide_size, r),
    {
        let entry = &self.videos[entry_idx];
        proof {
            assert(self@.videos[entry_idx as int] == entry@);
            assert(entry@.wf());
        }
        let off = entry.pos.by_bbox(slide_size);
        let ext = entry.size.by_bbox(video_dim, slide_size);
        proof {
            lemma_extent_bounded(
                entry@.size,
                video_dim.0 as int,
                video_dim.1 as int,
                slide_size.0 as int,
                slide_size.1 as int,
            );
        }
        let min_x = slide_pos.0 + (off.0 as i64);
        let min_y = slide_pos.1 + (off.1 as i64);
        VideoRect { min_x, min_y, max_x: min_x + (ext.0 as i64), max_y: min_y + (ext.1 as i64) }
    }
}

/// A resolved extent stays small enough that adding it to a coordinate
/// cannot overflow `i64`: each axis is at most the bounding box axis
/// scaled by the native dimension it is derived from.
proof fn lemma_extent_bounded(
    size: SizeRequest,
    dim_w: int,
    dim_h: int,
    bbox_w: int,
    bbox_h: int,
)
    requires
        size.wf(),
        1 <= dim_w <= MAX_VIDEO_DIM,
        1 <= dim_h <= MAX_VIDEO_DIM,
        0 <= bbox_w <= MAX_DIM,
        0 <= bbox_h <= MAX_DIM,
    ensures
        ({
            let (ext_w, ext_h) = size.spec_by_bbox(dim_w, dim_h, bbox_w, bbox_h);
            &&& 0 <= ext_w <= MAX_DIM * MAX_VIDEO_DIM
            &&& 0 <= ext_h <= MAX_DIM * MAX_VIDEO_DIM
        }),
{
    match size {
        SizeRequest::Size(w, h) => {
            lemma_resolved_fraction_bounded(w.percent_milli() as int, bbox_w);
            lemma_resolved_fraction_bounded(h.percent_milli() as int, bbox_h);
        },
        SizeRequest::AutoWidth(h) => {
            lemma_resolved_fraction_bounded(h.percent_milli() as int, bbox_h);
            let h_render = resolve_len(h.percent_milli() as int, bbox_h);
            lemma_derived_axis_bounded(h_render, dim_w, dim_h);
        },
        SizeRequest::AutoHeight(w) => {
            lemma_resolved_fraction_bounded(w.percent_milli() as int, bbox_w);
            let w_render = resolve_len(w.percent_milli() as int, bbox_w);
            lemma_derived_axis_bounded(w_render, dim_h, dim_w);
        },
    }
}

/// A percentage of a bounded reference is itself bounded by the
/// reference.
proof fn lemma_resolved_fraction_bounded(p: int, r: int)
    requires
        0 <= p <= PERCENT_UNIT,
        0 <= r <= MAX_DIM,
    ensures
        0 <= resolve_len(p, r) <= MAX_DIM,
        0 <= resolve_len(p, r) <= MAX_DIM * MAX_VIDEO_DIM,
{
    assert(0 <= r * p / (PERCENT_UNIT as int) <= r) by (nonlinear_arith)
        requires
            0 <= p <= PERCENT_UNIT,
            0 <= r,
    ;
    assert(MAX_DIM <= MAX_DIM * MAX_VIDEO_DIM) by (nonlinear_arith);
}

/// A derived axis `given * num / den` with `given` bounded by the
/// bounding box and `num` a native dimension stays within
/// `MAX_DIM * MAX_VIDEO_DIM`.
proof fn lemma_derived_axis_bounded(given: int, num: int, den: int)
    requires
        0 <= given <= MAX_DIM,
        1 <= num <= MAX_VIDEO_DIM,
        1 <= den,
    ensures
        0 <= given * num / den <= MAX_DIM * MAX_VIDEO_DIM,
{
    assert(0 <= given * num <= MAX_DIM * MAX_VIDEO_DIM) by (nonlinear_arith)
        requires
            0 <= given <= MAX_DIM,
            1 <= num <= MAX_VIDEO_DIM,
    ;
    assert(0 <= given * num / den <= given * num) by (nonlinear_arith)
        requires
            0 <= given * num,
            1 <= den,
    ;
}

/// The cache never evicts: a page that holds a rendered image keeps one
/// through every operation — a request, a stored render, and a viewport
/// change (which only marks it stale).
pub proof fn lemma_cache_never_evicts(
    m: CacheModel,
    page: usize,
    i: int,
    img: ImageView,
    w: i32,
    h: i32,
)
    requires
        0 <= i < m.images.len(),
        m.images[i] is Some,
    ensures
        spec_get_page_state(m, page).images[i] is Some,
        spec_store_state(m, page, img).images[i] is Some,
        spec_change_size_state(m, w, h).images[i] is Some,
{
}

/// Requesting a page twice in succession is idempotent: once a request
/// was answered from the cache (or needed nothing), an immediate repeat
/// of the same request — with no viewport change in between — needs
/// nothing.
pub proof fn lemma_get_page_idempotent(m: CacheModel, page: usize)
    requires
        m.wf(),
        !(spec_get_page_result(m, page) is RenderNeeded),
    ensures
        spec_get_page_result(spec_get_page_state(m, page), page) is Unchanged,
{
    if !(!m.needs_redraw && page == m.current_page) {
        // The first request answered the cached image, so the slot was
        // not stale; a pending redraw would make every slot stale.
        assert(!m.stale[page as int]);
        assert(!m.needs_redraw);
    }
}

/// Once a requested render is reported back, an immediate repeat of the
/// same request needs nothing: the stored image is current and the
/// pending redraw is cleared.
pub proof fn lemma_render_settles(m: CacheModel, page: usize, img: ImageView)
    requires
        m.wf(),
        page < m.images.len(),
    ensures
        spec_get_page_result(
            spec_store_state(spec_get_page_state(m, page), page, img),
            page,
        ) is Unchanged,
{
}

/// A viewport change invalidates every cached page: whatever page is
/// requested next, the answer is a render request — never a reuse of an
/// image rendered for the old viewport.
pub proof fn lemma_resize_invalidates(m: CacheModel, w: i32, h: i32, page: usize)
    requires
        m.wf(),
        w != m.window_width || h != m.window_height,
    ensures
        spec_get_page_result(spec_change_size_state(m, w, h), page) is RenderNeeded,
{
}

/// Overlay continuity: an overlay playing on a page it is bound to is
/// neither stopped nor restarted by moving to another page it is also
/// bound to — across the whole span of its bound pages there is a single
/// playback instance. In particular, reconciliation on such a move
/// answers `KeepPlaying` and leaves the instance live.
pub proof fn lemma_video_continuity(m: CacheModel, page1: usize, page2: usize, i: int)
    requires
        m.wf(),
        0 <= i < m.videos.len(),
        m.videos[i].slide_nums.contains(page1),
        m.videos[i].slide_nums.contains(page2),
        m.playing[i],
    ensures
        spec_video_action(m, i, page1) == VideoAction::KeepPlaying,
        ({
            let m1 = spec_handle_video_state(m, page1);
            &&& m1.playing[i]
            &&& spec_video_action(m1, i, page2) == VideoAction::KeepPlaying
            &&& spec_handle_video_state(m1, page2).playing[i]
        }),
{
}

/// Leaving an overlay's bound pages tears its playback down
/// unconditionally: reconciliation on a page the overlay is not bound to
/// answers `Stop` for a playing instance, and afterwards no instance is
/// live for it.
pub proof fn lemma_video_teardown(m: CacheModel, page: usize, i: int)
    requires
        m.wf(),
        0 <= i < m.videos.len(),
        !m.videos[i].slide_nums.contains(page),
    ensures
        m.playing[i] ==> spec_video_action(m, i, page) == VideoAction::Stop,
        !m.playing[i] ==> spec_video_action(m, i, page) == VideoAction::Idle,
        !spec_handle_video_state(m, page).playing[i],
{
}

/// Whether a page index occurs in an overlay definition's page list.
fn contains_page(nums: &Vec<usize>, page: usize) -> (b: bool)
    ensures
        b == nums@.contains(page),
{
    let mut k: usize = 0;
    let n = nums.len();
    while k < n
        invariant
            k <= n,
            n == nums@.len(),
            forall|j: int| 0 <= j < k ==> nums@[j] != page,
        decreases n - k,
    {
        if nums[k] == page {
            return true;
        }
        k = k + 1;
    }
    proof {
        assert(!nums@.contains(page));
    }
    false
}

} // verus!
