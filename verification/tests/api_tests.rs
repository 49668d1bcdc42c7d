//! The metadata records, display strings and resolver URL.

use soundcloud_embedder::api::make_resolve_url;
use soundcloud_embedder::api::truncate_string;
use soundcloud_embedder::api::PlaylistInfo;
use soundcloud_embedder::api::ResolveInfo;
use soundcloud_embedder::api::TrackInfo;

#[test]
fn short_strings_stay_untouched() {
    assert_eq!(truncate_string("hello", 10), "hello");
    assert_eq!(truncate_string("", 10), "");
    assert_eq!(truncate_string("abc", 3), "abc");
}

#[test]
fn fitting_strings_survive_limits_too_small_to_cut_into() {
    // a limit below three dots is fine as long as nothing is cut
    assert_eq!(truncate_string("ab", 2), "ab");
    assert_eq!(truncate_string("", 0), "");
}

#[test]
fn long_strings_are_cut_and_dotted() {
    let long: String = std::iter::repeat('a').take(70).collect();
    let cut = truncate_string(&long, 64);
    let expected: String = std::iter::repeat('a').take(61).collect::<String>() + "...";
    assert_eq!(cut, expected);
    assert_eq!(cut.len(), 64);
}

#[test]
fn wide_characters_respect_display_width() {
    // each ideograph is three bytes and two columns wide
    let s: String = std::iter::repeat('\u{4f60}').take(10).collect();
    let cut = truncate_string(&s, 9);
    // width budget 6 fits three two-column characters, then three dots
    let expected: String = std::iter::repeat('\u{4f60}').take(3).collect::<String>() + "...";
    assert_eq!(cut, expected);
}

#[test]
fn default_track_is_empty() {
    let t = TrackInfo::default();
    assert_eq!(t.artwork_url, "");
    assert_eq!(t.stream_url, "");
    assert_eq!(t.playback_count, 0);
    let p = PlaylistInfo::default();
    assert_eq!(p.title, "");
    assert_eq!(p.track_count, 0);
}

#[test]
fn getters_pick_the_right_field() {
    let mut t = TrackInfo::default();
    t.artwork_url = "art".to_string();
    t.permalink_url = "perma".to_string();
    t.artist_name = "artist".to_string();
    t.title = "title".to_string();
    t.description = "desc".to_string();
    let info = ResolveInfo::Track(t);
    assert_eq!(info.artwork_url(), "art");
    assert_eq!(info.permalink_url(), "perma");
    assert_eq!(info.artist_name(), "artist");
    assert_eq!(info.title(), "title");
    assert_eq!(info.description(), "desc");
}

#[test]
fn track_counts_line() {
    let mut t = TrackInfo::default();
    t.playback_count = 1;
    t.likes_count = 22;
    t.reposts_count = 333;
    t.comment_count = 4;
    let info = ResolveInfo::Track(t);
    assert_eq!(
        info.counts(),
        "1 \u{25b6}    22 \u{2764}\u{fe0f}    333 \u{1f501}    4 \u{1f4ac}"
    );
}

#[test]
fn playlist_counts_line() {
    let mut p = PlaylistInfo::default();
    p.track_count = 12;
    p.likes_count = 0;
    p.reposts_count = 7;
    let info = ResolveInfo::Playlist(p);
    assert_eq!(info.counts(), "12 \u{1f3b5}    0 \u{2764}\u{fe0f}    7 \u{1f501}");
}

#[test]
fn resolve_url_percent_encodes_both_parameters() {
    let url = make_resolve_url("a b", "https://soundcloud.com/x/y");
    assert_eq!(
        url,
        "https://api-v2.soundcloud.com/resolve?client_id=a%20b&url=https%3A%2F%2Fsoundcloud.com%2Fx%2Fy"
    );
}
