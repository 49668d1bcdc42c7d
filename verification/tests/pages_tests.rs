//! Routing, query parameters, path validation, URL helpers and the embed
//! page document.

use soundcloud_embedder::api::ResolveInfo;
use soundcloud_embedder::api::TrackInfo;
use soundcloud_embedder::pages::absolute_page_url;
use soundcloud_embedder::pages::artwork_full_size;
use soundcloud_embedder::pages::make_embed_page;
use soundcloud_embedder::pages::page_cache_key;
use soundcloud_embedder::pages::page_path_valid;
use soundcloud_embedder::pages::page_set_path_valid;
use soundcloud_embedder::pages::query_param;
use soundcloud_embedder::pages::route_request;
use soundcloud_embedder::pages::stream_url_with_client_id;
use soundcloud_embedder::pages::video_cache_key;
use soundcloud_embedder::pages::video_source;
use soundcloud_embedder::pages::Route;

#[test]
fn routes_by_method_and_path() {
    assert_eq!(route_request(false, "/"), Route::NotFound);
    assert_eq!(route_request(true, "/"), Route::RootRedirect);
    assert_eq!(route_request(true, "/oembed"), Route::OEmbed);
    assert_eq!(route_request(true, "/metrics"), Route::Metrics);
    assert_eq!(route_request(true, "/video"), Route::Video);
    assert_eq!(route_request(true, "/artist/track"), Route::Page);
}

#[test]
fn query_parameters_decode_and_last_wins() {
    assert_eq!(query_param("text=hi%20there&url=x", "text").unwrap(), "hi there");
    assert_eq!(query_param("text=hi%20there&url=x", "url").unwrap(), "x");
    assert_eq!(query_param("path=a&path=b", "path").unwrap(), "b");
    assert_eq!(query_param("other=1", "path").unwrap(), "");
    assert_eq!(query_param("", "path").unwrap(), "");
    assert_eq!(query_param("path", "path").unwrap(), "");
    assert_eq!(query_param("path=a=b", "path").unwrap(), "a");
}

#[test]
fn undecodable_parameter_fails() {
    assert!(query_param("path=%ff", "path").is_err());
}

#[test]
fn page_paths_are_validated() {
    assert!(page_set_path_valid("/artist/track"));
    assert!(page_set_path_valid("/artist/sets/mix"));
    assert!(page_set_path_valid("/artist/track/s-abc"));
    assert!(!page_set_path_valid("/artist"));
    assert!(!page_set_path_valid("/a/b/c"));
    assert!(page_path_valid("/artist/track"));
    assert!(!page_path_valid("/artist"));
    assert!(!page_path_valid("/artist/sets/mix"));
}

#[test]
fn cache_keys_and_origin_url() {
    assert_eq!(page_cache_key("/a/b"), "page:/a/b");
    assert_eq!(video_cache_key("/a/b"), "video:/a/b");
    assert_eq!(absolute_page_url("/a/b"), "https://soundcloud.com/a/b");
}

#[test]
fn client_id_joins_with_the_right_separator() {
    assert_eq!(stream_url_with_client_id("https://s/x", "cid"), "https://s/x?client_id=cid");
    assert_eq!(
        stream_url_with_client_id("https://s/x?a=1", "cid"),
        "https://s/x?a=1&client_id=cid"
    );
}

#[test]
fn artwork_is_upsized() {
    assert_eq!(artwork_full_size("https://img/c-large.jpg"), "https://img/c-t500x500.jpg");
    assert_eq!(artwork_full_size("https://img/c-t300.jpg"), "https://img/c-t300.jpg");
    assert_eq!(artwork_full_size("a-large.jpgb-large.jpg"), "a-t500x500.jpgb-t500x500.jpg");
}

#[test]
fn only_tracks_have_a_video_source() {
    let mut t = TrackInfo::default();
    t.stream_url = "https://stream".to_string();
    t.artwork_url = "https://art".to_string();
    let (stream, art) = video_source(&ResolveInfo::Track(t)).expect("tracks carry a source");
    assert_eq!(stream, "https://stream");
    assert_eq!(art, "https://art");
    let p = soundcloud_embedder::api::PlaylistInfo::default();
    assert!(video_source(&ResolveInfo::Playlist(p)).is_none());
}

#[test]
fn embed_page_carries_the_escaped_metadata() {
    let mut t = TrackInfo::default();
    t.permalink_url = "https://soundcloud.com/a/t?x=\"1\"".to_string();
    t.artist_name = "A & B".to_string();
    t.title = "Song <3".to_string();
    t.description = "desc".to_string();
    t.playback_count = 5;
    let page = make_embed_page("example.org", ResolveInfo::Track(t));
    assert!(page.starts_with("<!DOCTYPE html>"));
    assert!(page.contains("<meta property=\"og:type\" content=\"music.song\"/>"));
    assert!(page.contains("A &amp; B - Song &lt;3"));
    assert!(!page.contains("Song <3"));
    assert!(page.contains("https://example.org/video?path=%2Fa%2Ft"));
    assert!(page.contains("https://example.org/oembed?text=5%20%E2%96%B6"));
    assert!(page.ends_with("</html>\n"));
}
