//! Manifest resolution and playlist parsing.

use soundcloud_embedder::playlist::parse_manifest_url;
use soundcloud_embedder::playlist::playlist_segment_urls;
use soundcloud_embedder::MediaError;

#[test]
fn manifest_yields_playlist_url() {
    let url = parse_manifest_url(r#"{"url": "https://hls/playlist.m3u8"}"#)
        .expect("manifest should resolve");
    assert_eq!(url, "https://hls/playlist.m3u8");
}

#[test]
fn bad_manifests_are_fetch_failures() {
    assert_eq!(parse_manifest_url("not json"), Err(MediaError::Fetch));
    assert_eq!(parse_manifest_url("[]"), Err(MediaError::Fetch));
    assert_eq!(parse_manifest_url(r#"{"other": 1}"#), Err(MediaError::Fetch));
    assert_eq!(parse_manifest_url(r#"{"url": 5}"#), Err(MediaError::Fetch));
}

#[test]
fn two_segments_and_a_comment() {
    let urls = playlist_segment_urls("https://seg/1\n#EXTINF:10,\nhttps://seg/2");
    assert_eq!(urls, vec!["https://seg/1".to_string(), "https://seg/2".to_string()]);
}

#[test]
fn comments_anywhere_are_dropped_and_order_kept() {
    let urls = playlist_segment_urls("#EXTM3U\na\n#x\nb\nc\n#tail");
    assert_eq!(urls, vec!["a".to_string(), "b".to_string(), "c".to_string()]);
}

#[test]
fn empty_lines_are_kept_by_the_split() {
    let urls = playlist_segment_urls("a\n\nb\n");
    assert_eq!(urls, vec!["a".to_string(), "".to_string(), "b".to_string(), "".to_string()]);
}

#[test]
fn empty_playlist_is_one_empty_line() {
    let urls = playlist_segment_urls("");
    assert_eq!(urls, vec!["".to_string()]);
}
