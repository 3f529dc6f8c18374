//! The overlay configuration: the shapes in which overlay definitions
//! arrive, and their conversion into the [`VideoEntry`] form the
//! lifecycle controller works with.
//!
//! Parsing the configuration file is an outside collaborator's job; the
//! core receives fully parsed values and never an invalid definition
//! set.

use crate::{PosRequest, SizeEntry, SizeRequest, VideoEntry, VideoEntryView};
use std::collections::HashMap;
use vstd::prelude::*;

verus! {

broadcast use vstd::std_specs::hash::group_hash_axioms;

/// A relative size as it appears in configuration: a lone width (bare
/// or as a one-element list) that leaves the height to the native
/// aspect ratio, or a width-and-height pair that fixes both axes.
#[derive(Copy, Clone, Debug, PartialEq, Eq, Structural)]
pub enum SizeRequestConfig {
    Width(SizeEntry),
    WidthTuple(SizeEntry),
    WidthAndHeight(SizeEntry, SizeEntry),
}

/// The size request a configuration form denotes.
pub open spec fn spec_as_size_request(c: SizeRequestConfig) -> SizeRequest {
    match c {
        SizeRequestConfig::Width(w) => SizeRequest::AutoHeight(w),
        SizeRequestConfig::WidthTuple(w) => SizeRequest::AutoHeight(w),
        SizeRequestConfig::WidthAndHeight(w, h) => SizeRequest::Size(w, h),
    }
}

impl SizeRequestConfig {
    pub open spec fn wf(self) -> bool {
        spec_as_size_request(self).wf()
    }

    /// Converts this configuration form into the size request it
    /// denotes.
    pub fn as_size_request(self) -> (r: SizeRequest)
        ensures
            r == spec_as_size_request(self),
    {
        match self {
            SizeRequestConfig::Width(w) => SizeRequest::AutoHeight(w),
            SizeRequestConfig::WidthTuple(w) => SizeRequest::AutoHeight(w),
            SizeRequestConfig::WidthAndHeight(w, h) => SizeRequest::Size(w, h),
        }
    }
}

/// A relative position as it appears in configuration: the horizontal
/// and the vertical offset, each a percentage of the bounding box.
#[derive(Copy, Clone, Debug, PartialEq, Eq, Structural)]
pub struct PosRequestConfig(pub SizeEntry, pub SizeEntry);

impl PosRequestConfig {
    pub open spec fn wf(self) -> bool {
        self.0.wf() && self.1.wf()
    }
}

impl Default for PosRequestConfig {
    /// The default position: the bounding box's top-left corner.
    fn default() -> (r: Self)
        ensures
            r == PosRequestConfig(SizeEntry::Percent(0), SizeEntry::Percent(0)),
    {
        PosRequestConfig(SizeEntry::Percent(0), SizeEntry::Percent(0))
    }
}

/// The pages an overlay is bound to, as configured: a single index or a
/// list of indices.
#[derive(Debug)]
pub enum SlideNumConfig {
    Single(usize),
    Many(Vec<usize>),
}

impl SlideNumConfig {
    /// The page indices this entry denotes.
    pub open spec fn nums(self) -> Seq<usize> {
        match self {
            SlideNumConfig::Single(n) => seq![n],
            SlideNumConfig::Many(v) => v@,
        }
    }

    /// An overlay bound to no page is a configuration error.
    pub open spec fn wf(self) -> bool {
        self.nums().len() > 0
    }

    /// The page list this entry denotes.
    pub fn as_vec(&self) -> (r: Vec<usize>)
        ensures
            r@ == self.nums(),
    {
        match self {
            SlideNumConfig::Single(num) => vec![*num],
            SlideNumConfig::Many(v) => {
                let r = v.clone();
                proof {
                    assert(r@ =~= v@);
                }
                r
            },
        }
    }
}

impl Clone for SlideNumConfig {
    fn clone(&self) -> (r: Self)
        ensures
            r.nums() == self.nums(),
    {
        match self {
            SlideNumConfig::Single(num) => SlideNumConfig::Single(*num),
            SlideNumConfig::Many(v) => {
                let c = v.clone();
                proof {
                    assert(c@ =~= v@);
                }
                SlideNumConfig::Many(c)
            },
        }
    }
}

/// One overlay definition as configured: the pages it is bound to, the
/// media source, and its relative position and size.
pub struct VideoConfig {
    pub slide_nums: SlideNumConfig,
    pub video_path: String,
    pub pos: PosRequestConfig,
    pub size: SizeRequestConfig,
}

/// The mathematical content of a [`VideoConfig`].
#[verifier::ext_equal]
pub struct VideoConfigView {
    pub slide_nums: Seq<usize>,
    pub video_path: Seq<char>,
    pub pos: PosRequestConfig,
    pub size: SizeRequestConfig,
}

impl View for VideoConfig {
    type V = VideoConfigView;

    open spec fn view(&self) -> VideoConfigView {
        VideoConfigView {
            slide_nums: self.slide_nums.nums(),
            video_path: self.video_path@,
            pos: self.pos,
            size: self.size,
        }
    }
}

impl VideoConfigView {
    pub open spec fn wf(self) -> bool {
        &&& self.slide_nums.len() > 0
        &&& self.pos.wf()
        &&& self.size.wf()
    }

    /// The overlay definition this configuration entry denotes.
    pub open spec fn as_entry(self) -> VideoEntryView {
        VideoEntryView {
            slide_nums: self.slide_nums,
            video_path: self.video_path,
            pos: PosRequest { width: self.pos.0, height: self.pos.1 },
            size: spec_as_size_request(self.size),
        }
    }
}

/// A well-formed configuration entry denotes a well-formed overlay
/// definition.
pub proof fn lemma_config_entry_wf(c: VideoConfigView)
    requires
        c.wf(),
    ensures
        c.as_entry().wf(),
{
}

impl Clone for VideoConfig {
    fn clone(&self) -> (r: Self)
        ensures
            r@ == self@,
    {
        VideoConfig {
            slide_nums: self.slide_nums.clone(),
            video_path: self.video_path.clone(),
            pos: self.pos,
            size: self.size,
        }
    }
}

/// The views of a sequence of overlay definitions.
pub open spec fn entry_views(s: Seq<VideoEntry>) -> Seq<VideoEntryView> {
    s.map_values(|e: VideoEntry| e@)
}

/// The copies of `c`'s definition that the first `j` elements of its
/// page list bind to page `k`: one copy per occurrence of `k`.
pub open spec fn spec_pushes(c: VideoConfigView, k: usize, j: int) -> Seq<VideoEntryView>
    decreases j,
{
    if j <= 0 {
        Seq::empty()
    } else if c.slide_nums[j - 1] == k {
        spec_pushes(c, k, j - 1) + seq![c.as_entry()]
    } else {
        spec_pushes(c, k, j - 1)
    }
}

/// The overlay definitions a configuration binds to page `k`, in
/// configuration order, one copy per time `k` occurs in an entry's page
/// list.
pub open spec fn spec_entries_for(cfgs: Seq<VideoConfigView>, k: usize) -> Seq<VideoEntryView>
    decreases cfgs.len(),
{
    if cfgs.len() == 0 {
        Seq::empty()
    } else {
        spec_entries_for(cfgs.drop_last(), k) + spec_pushes(
            cfgs.last(),
            k,
            cfgs.last().slide_nums.len() as int,
        )
    }
}

/// The whole overlay configuration: a list of overlay definitions.
pub struct Config {
    pub entries: Vec<VideoConfig>,
}

impl View for Config {
    type V = Seq<VideoConfigView>;

    open spec fn view(&self) -> Seq<VideoConfigView> {
        self.entries@.map_values(|c: VideoConfig| c@)
    }
}

impl Config {
    pub open spec fn wf(self) -> bool {
        forall|i: int| 0 <= i < self@.len() ==> (#[trigger] self@[i]).wf()
    }

    /// The configured overlay definitions, one per configuration entry,
    /// in configuration order.
    pub fn video_entries(self) -> (r: Vec<VideoEntry>)
        ensures
            r@.len() == self@.len(),
            forall|i: int| 0 <= i < r@.len() ==> (#[trigger] r@[i])@ == self@[i].as_entry(),
            self.wf() ==> forall|i: int| 0 <= i < r@.len() ==> (#[trigger] r@[i])@.wf(),
    {
        let mut r: Vec<VideoEntry> = Vec::new();
        let mut i: usize = 0;
        let n = self.entries.len();
        while i < n
            invariant
                i <= n,
                n == self.entries@.len(),
                r@.len() == i,
                forall|j: int| 0 <= j < i ==> (#[trigger] r@[j])@ == self@[j].as_entry(),
            decreases n - i,
        {
            let c = &self.entries[i];
            let entry = VideoEntry {
                slide_nums: c.slide_nums.as_vec(),
                video_path: c.video_path.clone(),
                pos: PosRequest { width: c.pos.0, height: c.pos.1 },
                size: c.size.as_size_request(),
            };
            r.push(entry);
            i = i + 1;
        }
        r
    }

    /// Groups the configured overlay definitions by page index: page `k`
    /// maps to exactly the definitions bound to `k`, in configuration
    /// order (one copy per time `k` occurs in an entry's page list).
    /// Pages that no definition is bound to are absent from the map.
    pub fn slides_map(self) -> (m: HashMap<usize, Vec<VideoEntry>>)
        ensures
            forall|k: usize| #[trigger]
                m@.contains_key(k) <==> spec_entries_for(self@, k).len() > 0,
            forall|k: usize| #[trigger]
                m@.contains_key(k) ==> entry_views(m@[k]@) == spec_entries_for(self@, k),
    {
        let ghost cfgs = self@;
        let mut m: HashMap<usize, Vec<VideoEntry>> = HashMap::new();
        proof {
            assert(cfgs.take(0) =~= Seq::<VideoConfigView>::empty());
        }
        let mut i: usize = 0;
        let n = self.entries.len();
        while i < n
            invariant
                i <= n,
                n == self.entries@.len(),
                cfgs == self@,
                forall|k: usize| #[trigger]
                    m@.contains_key(k) <==> spec_entries_for(cfgs.take(i as int), k).len() > 0,
                forall|k: usize| #[trigger]
                    m@.contains_key(k) ==> entry_views(m@[k]@) == spec_entries_for(
                        cfgs.take(i as int),
                        k,
                    ),
            decreases n - i,
        {
            let c = &self.entries[i];
            let nums = c.slide_nums.as_vec();
            proof {
                assert(nums@ == cfgs[i as int].slide_nums);
            }
            let mut j: usize = 0;
            let nn = nums.len();
            while j < nn
                invariant
                    j <= nn,
                    i < n,
                    n == self.entries@.len(),
                    cfgs == self@,
                    nn == nums@.len(),
                    nums@ == cfgs[i as int].slide_nums,
                    c@ == cfgs[i as int],
                    forall|k: usize| #[trigger]
                        m@.contains_key(k) <==> (spec_entries_for(cfgs.take(i as int), k)
                            + spec_pushes(cfgs[i as int], k, j as int)).len() > 0,
                    forall|k: usize| #[trigger]
                        m@.contains_key(k) ==> entry_views(m@[k]@) == spec_entries_for(
                            cfgs.take(i as int),
                            k,
                        ) + spec_pushes(cfgs[i as int], k, j as int),
                decreases nn - j,
            {
                let num = nums[j];
                let entry = VideoEntry {
                    slide_nums: c.slide_nums.as_vec(),
                    video_path: c.video_path.clone(),
                    pos: PosRequest { width: c.pos.0, height: c.pos.1 },
                    size: c.size.as_size_request(),
                };
                proof {
                    assert(entry@ =~= cfgs[i as int].as_entry());
                }
                let ghost m0 = m@;
                let removed = m.remove(&num);
                let ghost m1 = m@;
                let mut bucket: Vec<VideoEntry> = match removed {
                    Some(b) => b,
                    None => Vec::new(),
                };
                let ghost b0 = bucket@;
                proof {
                    assert(m1 == m0.remove(num));
                    if m0.contains_key(num) {
                        assert(entry_views(b0) == spec_entries_for(cfgs.take(i as int), num)
                            + spec_pushes(cfgs[i as int], num, j as int));
                    } else {
                        assert(b0 =~= Seq::<VideoEntry>::empty());
                        assert(entry_views(b0) =~= Seq::<VideoEntryView>::empty());
                        assert((spec_entries_for(cfgs.take(i as int), num) + spec_pushes(
                            cfgs[i as int],
                            num,
                            j as int,
                        )).len() == 0);
                    }
                }
                bucket.push(entry);
                let ghost bv = bucket;
                let ghost b1 = bucket@;
                m.insert(num, bucket);
                proof {
                    assert(m@ == m1.insert(num, bv));
                    assert(b1 == b0.push(entry));
                    assert(entry_views(b1) =~= entry_views(b0).push(entry@));
                    assert forall|k: usize| #[trigger]
                        m@.contains_key(k) <==> (spec_entries_for(cfgs.take(i as int), k)
                            + spec_pushes(cfgs[i as int], k, j as int + 1)).len() > 0 by {
                        if k == num {
                            assert(spec_pushes(cfgs[i as int], k, j as int + 1) == spec_pushes(
                                cfgs[i as int],
                                k,
                                j as int,
                            ) + seq![cfgs[i as int].as_entry()]);
                        } else {
                            assert(spec_pushes(cfgs[i as int], k, j as int + 1) == spec_pushes(
                                cfgs[i as int],
                                k,
                                j as int,
                            ));
                            assert(m@.contains_key(k) == m0.contains_key(k));
                        }
                    }
                    assert forall|k: usize| #[trigger] m@.contains_key(k) implies entry_views(
                        m@[k]@,
                    ) == spec_entries_for(cfgs.take(i as int), k) + spec_pushes(
                        cfgs[i as int],
                        k,
                        j as int + 1,
                    ) by {
                        if k == num {
                            assert(m@[k] == bv);
                            assert(spec_pushes(cfgs[i as int], k, j as int + 1) == spec_pushes(
                                cfgs[i as int],
                                k,
                                j as int,
                            ) + seq![cfgs[i as int].as_entry()]);
                            assert(entry_views(b1) =~= spec_entries_for(cfgs.take(i as int), k)
                                + spec_pushes(cfgs[i as int], k, j as int + 1));
                        } else {
                            assert(spec_pushes(cfgs[i as int], k, j as int + 1) == spec_pushes(
                                cfgs[i as int],
                                k,
                                j as int,
                            ));
                            assert(m@.contains_key(k) == m0.contains_key(k));
                            assert(m@[k] == m0[k]);
                        }
                    }
                }
                j = j + 1;
            }
            proof {
                let t = cfgs.take(i as int + 1);
                assert(t.drop_last() =~= cfgs.take(i as int));
                assert(t.last() == cfgs[i as int]);
                assert forall|k: usize|
                    spec_entries_for(cfgs.take(i as int + 1), k) == spec_entries_for(
                        cfgs.take(i as int),
                        k,
                    ) + spec_pushes(cfgs[i as int], k, nn as int) by {
                    assert(spec_entries_for(t, k) == spec_entries_for(t.drop_last(), k)
                        + spec_pushes(t.last(), k, t.last().slide_nums.len() as int));
                }
            }
            i = i + 1;
        }
        proof {
            assert(cfgs.take(n as int) =~= cfgs);
        }
        m
    }
}

impl Default for Config {
    /// An empty configuration: no overlays.
    fn default() -> (r: Self)
        ensures
            r@ == Seq::<VideoConfigView>::empty(),
    {
        let r = Config { entries: Vec::new() };
        proof {
            assert(r@ =~= Seq::<VideoConfigView>::empty());
        }
        r
    }
}

} // verus!
