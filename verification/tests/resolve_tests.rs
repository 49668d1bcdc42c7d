//! The resolver response parser against real JSON documents.

use soundcloud_embedder::resolve::parse_resolve_info;
use soundcloud_embedder::resolve::ResolveParseError;
use soundcloud_embedder::api::ResolveInfo;

fn parse(text: &str) -> Result<ResolveInfo, ResolveParseError> {
    let value: serde_json::Value = serde_json::from_str(text).expect("test JSON should parse");
    parse_resolve_info(&value)
}

#[test]
fn track_fields_are_extracted() {
    let doc = r#"{
        "kind": "track",
        "artwork_url": "https://img/c-large.jpg",
        "permalink_url": "https://soundcloud.com/a/t",
        "title": "A Song",
        "description": "About it",
        "playback_count": 11,
        "likes_count": 22,
        "reposts_count": 33,
        "comment_count": 44,
        "user": {"username": "Someone", "avatar_url": "https://img/av.jpg"},
        "media": {"transcodings": [
            {"preset": "mp3_0_1", "format": {"protocol": "hls"}, "url": "https://mp3"},
            {"preset": "opus_0_0", "format": {"protocol": "progressive"}, "url": "https://prog"},
            {"preset": "opus_0_0", "format": {"protocol": "hls"}, "url": "https://opus-hls"},
            {"preset": "opus_0_0", "format": {"protocol": "hls"}, "url": "https://later"}
        ]}
    }"#;
    match parse(doc).expect("track should parse") {
        ResolveInfo::Track(t) => {
            assert_eq!(t.artwork_url, "https://img/c-large.jpg");
            assert_eq!(t.permalink_url, "https://soundcloud.com/a/t");
            assert_eq!(t.stream_url, "https://opus-hls");
            assert_eq!(t.artist_name, "Someone");
            assert_eq!(t.title, "A Song");
            assert_eq!(t.description, "About it");
            assert_eq!(t.playback_count, 11);
            assert_eq!(t.likes_count, 22);
            assert_eq!(t.reposts_count, 33);
            assert_eq!(t.comment_count, 44);
        }
        _ => panic!("expected a track"),
    }
}

#[test]
fn avatar_stands_in_for_missing_artwork() {
    let doc = r#"{
        "kind": "track",
        "artwork_url": null,
        "user": {"username": "U", "avatar_url": "https://img/av.jpg"}
    }"#;
    match parse(doc).expect("track should parse") {
        ResolveInfo::Track(t) => {
            assert_eq!(t.artwork_url, "https://img/av.jpg");
            assert_eq!(t.stream_url, "");
            assert_eq!(t.playback_count, 0);
        }
        _ => panic!("expected a track"),
    }
}

#[test]
fn long_title_is_truncated() {
    let long: String = std::iter::repeat('x').take(80).collect();
    let doc = format!(r#"{{"kind": "track", "title": "{}"}}"#, long);
    match parse(&doc).expect("track should parse") {
        ResolveInfo::Track(t) => {
            let expected: String = std::iter::repeat('x').take(61).collect::<String>() + "...";
            assert_eq!(t.title, expected);
        }
        _ => panic!("expected a track"),
    }
}

#[test]
fn oversized_count_is_reduced_to_32_bits() {
    let doc = r#"{"kind": "track", "playback_count": 5000000000}"#;
    match parse(doc).expect("track should parse") {
        ResolveInfo::Track(t) => {
            assert_eq!(t.playback_count, 5000000000u64 as u32);
        }
        _ => panic!("expected a track"),
    }
}

#[test]
fn playlist_fields_are_extracted() {
    let doc = r#"{
        "kind": "playlist",
        "permalink_url": "https://soundcloud.com/a/sets/s",
        "title": "Mix",
        "track_count": 9,
        "likes_count": 1,
        "reposts_count": 2,
        "user": {"username": "Curator"}
    }"#;
    match parse(doc).expect("playlist should parse") {
        ResolveInfo::Playlist(p) => {
            assert_eq!(p.permalink_url, "https://soundcloud.com/a/sets/s");
            assert_eq!(p.title, "Mix");
            assert_eq!(p.artist_name, "Curator");
            assert_eq!(p.track_count, 9);
            assert_eq!(p.likes_count, 1);
            assert_eq!(p.reposts_count, 2);
            assert_eq!(p.artwork_url, "");
        }
        _ => panic!("expected a playlist"),
    }
}

fn parse_error(text: &str) -> ResolveParseError {
    match parse(text) {
        Ok(_) => panic!("expected a parse error"),
        Err(e) => e,
    }
}

#[test]
fn unknown_kind_is_rejected() {
    assert_eq!(parse_error(r#"{"kind": "user"}"#), ResolveParseError::UnexpectedKind);
    assert_eq!(parse_error(r#"{"title": "no kind"}"#), ResolveParseError::UnexpectedKind);
    assert_eq!(parse_error(r#"{"kind": 5}"#), ResolveParseError::UnexpectedKind);
}

#[test]
fn non_object_is_rejected() {
    assert_eq!(parse_error("[1, 2]"), ResolveParseError::NotAnObject);
    assert_eq!(parse_error("\"track\""), ResolveParseError::NotAnObject);
    assert_eq!(parse_error("3"), ResolveParseError::NotAnObject);
}
