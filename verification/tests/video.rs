//! Overlay lifecycle behavior: start, continuity, teardown, replacement,
//! and placement.

use bewegtbild::slides::{SlidesCache, VideoAction, VideoRect};
use bewegtbild::{PosRequest, SizeEntry, SizeRequest, VideoEntry};

fn entry(pages: &[usize], path: &str) -> VideoEntry {
    VideoEntry {
        slide_nums: pages.to_vec(),
        video_path: path.to_string(),
        pos: PosRequest {
            width: SizeEntry::Percent(10_000),
            height: SizeEntry::Percent(20_000),
        },
        size: SizeRequest::AutoHeight(SizeEntry::Percent(30_000)),
    }
}

#[test]
fn overlay_plays_continuously_across_its_bound_pages() {
    let mut cache = SlidesCache::new(10, 800, 600, vec![entry(&[2, 3, 4], "a.mp4")]);

    // Entering page 2: the overlay must be started (a single init call).
    assert_eq!(cache.handle_video(2), vec![VideoAction::Start]);
    cache.video_started(0);

    // Moving 2 -> 3 -> 4 never tears the instance down or restarts it.
    assert_eq!(cache.handle_video(3), vec![VideoAction::KeepPlaying]);
    assert_eq!(cache.handle_video(4), vec![VideoAction::KeepPlaying]);

    // Moving to page 5 leaves the bound range: playback is torn down.
    assert_eq!(cache.handle_video(5), vec![VideoAction::Stop]);
    // Once stopped, the overlay is simply inert off its pages.
    assert_eq!(cache.handle_video(5), vec![VideoAction::Idle]);

    // Re-entering the range starts playback over from scratch.
    assert_eq!(cache.handle_video(2), vec![VideoAction::Start]);
}

#[test]
fn navigating_directly_away_tears_down() {
    let mut cache = SlidesCache::new(10, 800, 600, vec![entry(&[2, 3, 4], "a.mp4")]);
    assert_eq!(cache.handle_video(2), vec![VideoAction::Start]);
    cache.video_started(0);
    assert_eq!(cache.handle_video(5), vec![VideoAction::Stop]);
}

#[test]
fn a_failed_start_is_retried_every_tick() {
    let mut cache = SlidesCache::new(10, 800, 600, vec![entry(&[1], "a.mp4")]);
    // The start was requested but initialization failed: the caller
    // reports nothing, and the next tick asks again.
    assert_eq!(cache.handle_video(1), vec![VideoAction::Start]);
    assert_eq!(cache.handle_video(1), vec![VideoAction::Start]);
    cache.video_started(0);
    assert_eq!(cache.handle_video(1), vec![VideoAction::KeepPlaying]);
}

#[test]
fn each_definition_gets_its_own_action() {
    let mut cache = SlidesCache::new(
        10,
        800,
        600,
        vec![entry(&[1, 2], "a.mp4"), entry(&[2, 3], "b.mp4"), entry(&[4], "c.mp4")],
    );
    assert_eq!(
        cache.handle_video(2),
        vec![VideoAction::Start, VideoAction::Start, VideoAction::Idle]
    );
    cache.video_started(0);
    cache.video_started(1);
    assert_eq!(
        cache.handle_video(3),
        vec![VideoAction::Stop, VideoAction::KeepPlaying, VideoAction::Idle]
    );
}

#[test]
fn replacing_the_definition_set_drops_every_instance() {
    let mut cache = SlidesCache::new(10, 800, 600, vec![entry(&[2, 3], "a.mp4")]);
    assert_eq!(cache.handle_video(2), vec![VideoAction::Start]);
    cache.video_started(0);
    assert_eq!(cache.handle_video(2), vec![VideoAction::KeepPlaying]);

    // A configuration reload swaps the whole set; no instance survives,
    // so the overlay for the current page must be started anew.
    cache.change_video_entries(vec![entry(&[2, 3], "a.mp4"), entry(&[2], "b.mp4")]);
    assert_eq!(cache.handle_video(2), vec![VideoAction::Start, VideoAction::Start]);
}

#[test]
fn placement_offsets_the_resolved_rectangle_from_the_slide_corner() {
    let cache = SlidesCache::new(10, 800, 600, vec![entry(&[2], "a.mp4")]);
    // Slide at (100, 50) pixels, 1000x800 pixels large; native video
    // 1920x1080. Offset: (10% of 1000, 20% of 800) = (100, 160). Extent:
    // width 30% of 1000 = 300, height 300 * 1080 / 1920 = 168.75.
    let rect = cache.place_video(
        0,
        (1_920_000, 1_080_000),
        (100_000, 50_000),
        (1_000_000, 800_000),
    );
    assert_eq!(
        rect,
        VideoRect { min_x: 200_000, min_y: 210_000, max_x: 500_000, max_y: 378_750 }
    );
}

#[test]
fn placement_handles_a_negative_slide_origin() {
    let cache = SlidesCache::new(10, 800, 600, vec![entry(&[2], "a.mp4")]);
    let rect = cache.place_video(
        0,
        (1_920_000, 1_080_000),
        (-250_000, -50_000),
        (1_000_000, 800_000),
    );
    assert_eq!(
        rect,
        VideoRect { min_x: -150_000, min_y: 110_000, max_x: 150_000, max_y: 278_750 }
    );
}

#[test]
fn no_definitions_means_no_actions() {
    let mut cache = SlidesCache::new(10, 800, 600, Vec::new());
    assert_eq!(cache.handle_video(0), Vec::new());
    cache.change_video_entries(vec![entry(&[0], "a.mp4")]);
    assert_eq!(cache.handle_video(0), vec![VideoAction::Start]);
}

#[test]
fn placement_with_a_fixed_size_ignores_the_native_dimensions() {
    let mut cache = SlidesCache::new(10, 800, 600, Vec::new());
    let mut fixed = entry(&[2], "a.mp4");
    fixed.size = SizeRequest::Size(SizeEntry::Percent(50_000), SizeEntry::Percent(25_000));
    cache.change_video_entries(vec![fixed]);
    let rect = cache.place_video(0, (1, 1), (0, 0), (1_000_000, 800_000));
    assert_eq!(
        rect,
        VideoRect { min_x: 100_000, min_y: 160_000, max_x: 600_000, max_y: 360_000 }
    );
}
