//! Configuration conversion: from the configured forms to the overlay
//! definitions the lifecycle controller works with.

use bewegtbild::config::{
    Config, PosRequestConfig, SizeRequestConfig, SlideNumConfig, VideoConfig,
};
use bewegtbild::{SizeEntry, SizeRequest};

fn config_entry(nums: SlideNumConfig, path: &str, size: SizeRequestConfig) -> VideoConfig {
    VideoConfig {
        slide_nums: nums,
        video_path: path.to_string(),
        pos: PosRequestConfig(SizeEntry::Percent(10_000), SizeEntry::Percent(20_000)),
        size,
    }
}

#[test]
fn size_request_config_forms() {
    assert_eq!(
        SizeRequestConfig::Width(SizeEntry::Percent(50_000)).as_size_request(),
        SizeRequest::AutoHeight(SizeEntry::Percent(50_000))
    );
    assert_eq!(
        SizeRequestConfig::WidthTuple(SizeEntry::Percent(50_000)).as_size_request(),
        SizeRequest::AutoHeight(SizeEntry::Percent(50_000))
    );
    assert_eq!(
        SizeRequestConfig::WidthAndHeight(SizeEntry::Percent(50_000), SizeEntry::Percent(10_000))
            .as_size_request(),
        SizeRequest::Size(SizeEntry::Percent(50_000), SizeEntry::Percent(10_000))
    );
}

#[test]
fn slide_num_config_as_vec() {
    assert_eq!(SlideNumConfig::Single(3).as_vec(), vec![3]);
    assert_eq!(SlideNumConfig::Many(vec![1, 2, 5]).as_vec(), vec![1, 2, 5]);
}

#[test]
fn the_default_position_is_the_top_left_corner() {
    let PosRequestConfig(x, y) = PosRequestConfig::default();
    assert_eq!(x, SizeEntry::Percent(0));
    assert_eq!(y, SizeEntry::Percent(0));
}

#[test]
fn video_entries_converts_each_configured_overlay() {
    let config = Config {
        entries: vec![
            config_entry(
                SlideNumConfig::Single(4),
                "a.mp4",
                SizeRequestConfig::Width(SizeEntry::Percent(50_000)),
            ),
            config_entry(
                SlideNumConfig::Many(vec![1, 2]),
                "b.mp4",
                SizeRequestConfig::WidthAndHeight(
                    SizeEntry::Percent(40_000),
                    SizeEntry::Percent(25_000),
                ),
            ),
        ],
    };
    let entries = config.video_entries();
    assert_eq!(entries.len(), 2);
    assert_eq!(entries[0].slide_nums, vec![4]);
    assert_eq!(entries[0].video_path, "a.mp4");
    assert_eq!(entries[0].pos.width, SizeEntry::Percent(10_000));
    assert_eq!(entries[0].pos.height, SizeEntry::Percent(20_000));
    assert_eq!(
        entries[0].size,
        SizeRequest::AutoHeight(SizeEntry::Percent(50_000))
    );
    assert_eq!(entries[1].slide_nums, vec![1, 2]);
    assert_eq!(entries[1].video_path, "b.mp4");
    assert_eq!(
        entries[1].size,
        SizeRequest::Size(SizeEntry::Percent(40_000), SizeEntry::Percent(25_000))
    );
}

#[test]
fn an_empty_configuration_yields_no_entries() {
    let config = Config::default();
    assert!(config.video_entries().is_empty());
}

#[test]
fn slides_map_groups_definitions_by_page() {
    let config = Config {
        entries: vec![
            config_entry(
                SlideNumConfig::Many(vec![1, 2]),
                "a.mp4",
                SizeRequestConfig::Width(SizeEntry::Percent(50_000)),
            ),
            config_entry(
                SlideNumConfig::Single(2),
                "b.mp4",
                SizeRequestConfig::Width(SizeEntry::Percent(30_000)),
            ),
        ],
    };
    let map = config.slides_map();
    assert_eq!(map.len(), 2);
    assert!(!map.contains_key(&0));
    let page1 = &map[&1];
    assert_eq!(page1.len(), 1);
    assert_eq!(page1[0].video_path, "a.mp4");
    // The first definition is bound to page 2 as well, so page 2 holds
    // both, in configuration order.
    let page2 = &map[&2];
    assert_eq!(page2.len(), 2);
    assert_eq!(page2[0].video_path, "a.mp4");
    assert_eq!(page2[0].slide_nums, vec![1, 2]);
    assert_eq!(page2[1].video_path, "b.mp4");
    assert_eq!(page2[1].slide_nums, vec![2]);
}

#[test]
fn slides_map_keeps_one_copy_per_occurrence() {
    let config = Config {
        entries: vec![config_entry(
            SlideNumConfig::Many(vec![3, 3]),
            "a.mp4",
            SizeRequestConfig::Width(SizeEntry::Percent(50_000)),
        )],
    };
    let map = config.slides_map();
    assert_eq!(map.len(), 1);
    assert_eq!(map[&3].len(), 2);
}
