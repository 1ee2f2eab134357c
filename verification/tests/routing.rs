use watermark_gateway::route::{classify, Route};
use watermark_gateway::sampling::{is_oversized, should_watermark, WHOLE};

#[test]
fn manifests_are_recognised_by_suffix() {
    assert_eq!(classify("/live/stream.m3u8"), Route::Manifest);
    assert_eq!(classify("/vod/manifest.mpd"), Route::Manifest);
    assert_eq!(classify("/vod/init.cmfv"), Route::Manifest);
    assert_eq!(classify(".mpd"), Route::Manifest);
}

#[test]
fn everything_else_is_a_segment_candidate() {
    assert_eq!(classify("/live/segment_001.m4s"), Route::SegmentCandidate);
    assert_eq!(classify("/live/stream.m3u8.bak"), Route::SegmentCandidate);
    assert_eq!(classify("/live/stream.M3U8"), Route::SegmentCandidate);
    assert_eq!(classify("/live/m3u8"), Route::SegmentCandidate);
    assert_eq!(classify("mpd"), Route::SegmentCandidate);
    assert_eq!(classify(""), Route::SegmentCandidate);
    assert_eq!(classify("/"), Route::SegmentCandidate);
}

#[test]
fn suffix_check_counts_characters_not_bytes() {
    assert_eq!(classify("/vid\u{e9}o/\u{4e2d}.mpd"), Route::Manifest);
    assert_eq!(classify("/vid\u{e9}o/\u{4e2d}.mp4"), Route::SegmentCandidate);
}

#[test]
fn share_of_one_percent_has_an_exact_threshold() {
    // 10_000 / 1_000_000 of 2^32 is 42_949_672.96
    assert!(should_watermark(0, 10_000));
    assert!(should_watermark(42_949_672, 10_000));
    assert!(!should_watermark(42_949_673, 10_000));
    assert!(!should_watermark(u32::MAX, 10_000));
}

#[test]
fn share_of_zero_selects_nothing() {
    assert!(!should_watermark(0, 0));
    assert!(!should_watermark(u32::MAX, 0));
}

#[test]
fn whole_share_selects_everything() {
    assert!(should_watermark(0, WHOLE));
    assert!(should_watermark(u32::MAX, WHOLE));
    assert!(should_watermark(u32::MAX, u32::MAX));
}

#[test]
fn smallest_share_selects_only_the_lowest_draws() {
    // 1 / 1_000_000 of 2^32 is 4_294.967296
    assert!(should_watermark(4_294, 1));
    assert!(!should_watermark(4_295, 1));
}

#[test]
fn size_threshold_is_exclusive() {
    assert!(!is_oversized(0, 512_000));
    assert!(!is_oversized(512_000, 512_000));
    assert!(is_oversized(512_001, 512_000));
    assert!(is_oversized(1, 0));
}
