//! The request-facing logic around the resolver: routing, query-string
//! parameters, page-path validation, cache keys, the video source's URL
//! arithmetic, and the embed page document.

use vstd::prelude::*;

use crate::MediaError;
use crate::api::ResolveInfo;
use crate::api::spec_url_encoded;
use crate::api::url_encode;
use crate::text::char_split;
use crate::text::spec_contains_char;
use crate::text::spec_split;
use crate::text::str_contains_char;
use crate::text::str_eq;

verus! {

/// What `urlencoding::decode` yields for a string, when the decoded bytes
/// are valid UTF-8.
pub uninterp spec fn url_decoded(s: Seq<char>) -> Option<Seq<char>>;

/// Relies on `urlencoding::decode`: percent-decoding depends on the
/// characters alone and fails exactly when the decoded bytes are not
/// valid UTF-8.
#[verifier::external_body]
pub fn url_decode(s: &str) -> (r: Option<String>)
    ensures
        r is Some <==> url_decoded(s@) is Some,
        r is Some ==> r->Some_0@ == url_decoded(s@)->Some_0,
{
    urlencoding::decode(s).ok().map(|c| c.into_owned())
}

/// What a regular-expression test yields: `Regex::new(pattern)` followed
/// by `is_match(text)`, with an unparseable pattern matching nothing.
pub uninterp spec fn regex_matched(pattern: Seq<char>, text: Seq<char>) -> bool;

/// Relies on `regex::Regex::new` and `regex::Regex::is_match`: whether
/// the text matches depends on the pattern and the text alone; a pattern
/// that does not parse matches nothing.
#[verifier::external_body]
pub fn regex_is_match(pattern: &str, text: &str) -> (r: bool)
    ensures
        r == regex_matched(pattern@, text@),
{
    match regex::Regex::new(pattern) {
        Ok(re) => re.is_match(text),
        Err(_) => false,
    }
}

/// The pattern a page path must match to be resolved, allowing playlist
/// (`sets/`) paths.
pub fn page_set_pattern() -> (r: &'static str)
    ensures
        r@ == "^/[^/]+/(?:sets/)?[^/]+(?:/(?:s-[^/]+)?)?$"@,
{
    "^/[^/]+/(?:sets/)?[^/]+(?:/(?:s-[^/]+)?)?$"
}

/// The pattern a track path must match for video assembly.
pub fn page_pattern() -> (r: &'static str)
    ensures
        r@ == "^/[^/]+/[^/]+(?:/(?:s-[^/]+)?)?$"@,
{
    "^/[^/]+/[^/]+(?:/(?:s-[^/]+)?)?$"
}

/// Whether a request path names a page worth resolving; anything else is
/// redirected to the origin untouched.
pub fn page_set_path_valid(path: &str) -> (r: bool)
    ensures
        r == regex_matched("^/[^/]+/(?:sets/)?[^/]+(?:/(?:s-[^/]+)?)?$"@, path@),
{
    regex_is_match(page_set_pattern(), path)
}

/// Whether a decoded `path` query parameter names a track page; anything
/// else is answered as not found.
pub fn page_path_valid(path: &str) -> (r: bool)
    ensures
        r == regex_matched("^/[^/]+/[^/]+(?:/(?:s-[^/]+)?)?$"@, path@),
{
    regex_is_match(page_pattern(), path)
}

/// The key of a query pair: what stands before its first `=`.
pub open spec fn pair_key(pair: Seq<char>) -> Seq<char> {
    spec_split(pair, '=')[0]
}

/// The value of a query pair: what stands between its first and second
/// `=`, or empty when there is no `=`.
pub open spec fn pair_value(pair: Seq<char>) -> Seq<char> {
    if spec_split(pair, '=').len() >= 2 {
        spec_split(pair, '=')[1]
    } else {
        Seq::<char>::empty()
    }
}

/// Folds the query pairs left to right for one key: each matching pair's
/// value is percent-decoded and overwrites the accumulator; a decode
/// failure fails the whole lookup.
pub open spec fn spec_param_fold(
    pairs: Seq<Seq<char>>,
    key: Seq<char>,
    acc: Seq<char>,
) -> Option<Seq<char>>
    decreases pairs.len(),
{
    if pairs.len() == 0 {
        Some(acc)
    } else if pair_key(pairs[0]) == key {
        match url_decoded(pair_value(pairs[0])) {
            Some(d) => spec_param_fold(pairs.skip(1), key, d),
            None => None,
        }
    } else {
        spec_param_fold(pairs.skip(1), key, acc)
    }
}

/// The value of `key` in a query string: the last matching pair wins,
/// absent pairs leave it empty, and an undecodable matching value fails.
pub open spec fn spec_query_param(query: Seq<char>, key: Seq<char>) -> Option<Seq<char>> {
    spec_param_fold(spec_split(query, '&'), key, Seq::<char>::empty())
}

/// Reads one query parameter, as `spec_query_param` states.  A matching
/// value that does not percent-decode is a fetch failure.
pub fn query_param(query: &str, key: &str) -> (r: Result<String, MediaError>)
    ensures
        r is Ok <==> spec_query_param(query@, key@) is Some,
        r is Ok ==> r->Ok_0@ == spec_query_param(query@, key@)->Some_0,
        r is Err ==> r == Err::<String, _>(MediaError::Fetch),
{
    let pairs = char_split(query, '&');
    let ghost models = pairs@.map_values(|p: String| p@);
    let mut acc = String::new();
    let n = pairs.len();
    let mut i: usize = 0;
    proof {
        assert(models.skip(0) =~= models);
    }
    while i < n
        invariant
            n == pairs@.len(),
            models == pairs@.map_values(|p: String| p@),
            models == spec_split(query@, '&'),
            0 <= i <= n,
            spec_param_fold(models, key@, Seq::<char>::empty()) == spec_param_fold(
                models.skip(i as int),
                key@,
                acc@,
            ),
        decreases n - i,
    {
        let pair = &pairs[i];
        proof {
            assert(models[i as int] == pair@);
            assert(models.skip(i as int)[0] == models[i as int]);
            assert(models.skip(i as int).skip(1) =~= models.skip(i + 1));
        }
        let parts = char_split(pair.as_str(), '=');
        proof {
            assert(parts@.map_values(|p: String| p@)[0] == parts@[0]@);
            assert(spec_split(pair@, '=').len() >= 1);
        }
        let pkey = &parts[0];
        if str_eq(pkey.as_str(), key) {
            let pvalue = if parts.len() >= 2 {
                proof {
                    assert(parts@.map_values(|p: String| p@)[1] == parts@[1]@);
                }
                parts[1].clone()
            } else {
                String::new()
            };
            proof {
                assert(pvalue@ == pair_value(models[i as int]));
            }
            match url_decode(pvalue.as_str()) {
                Some(d) => {
                    acc = d;
                },
                None => {
                    proof {
                        assert(spec_param_fold(models.skip(i as int), key@, acc@) is None);
                    }
                    return Err(MediaError::Fetch);
                },
            }
        }
        i = i + 1;
    }
    proof {
        assert(models.skip(n as int) =~= Seq::<Seq<char>>::empty());
    }
    Ok(acc)
}

/// Where a request goes, by its method and path.
#[derive(Clone, Copy, Debug, PartialEq, Eq, Structural)]
pub enum Route {
    RootRedirect,
    OEmbed,
    Metrics,
    Video,
    Page,
    NotFound,
}

/// Routes one request: only GET is served; the root redirects to the
/// project page; `/oembed`, `/metrics` and `/video` have their own
/// handlers; every other GET path is treated as a page to embed.
pub fn route_request(is_get: bool, path: &str) -> (r: Route)
    ensures
        !is_get ==> r == Route::NotFound,
        is_get && path@ == "/"@ ==> r == Route::RootRedirect,
        is_get && path@ == "/oembed"@ ==> r == Route::OEmbed,
        is_get && path@ == "/metrics"@ ==> r == Route::Metrics,
        is_get && path@ == "/video"@ ==> r == Route::Video,
        is_get && path@ != "/"@ && path@ != "/oembed"@ && path@ != "/metrics"@ && path@
            != "/video"@ ==> r == Route::Page,
{
    if !is_get {
        return Route::NotFound;
    }
    proof {
        reveal_strlit("/");
        reveal_strlit("/oembed");
        reveal_strlit("/metrics");
        reveal_strlit("/video");
        assert("/"@.len() == 1);
        assert("/oembed"@.len() == 7);
        assert("/metrics"@.len() == 8);
        assert("/video"@.len() == 6);
    }
    if str_eq(path, "/") {
        Route::RootRedirect
    } else if str_eq(path, "/oembed") {
        Route::OEmbed
    } else if str_eq(path, "/metrics") {
        Route::Metrics
    } else if str_eq(path, "/video") {
        Route::Video
    } else {
        Route::Page
    }
}

/// The redis key a resolved page is cached under.
pub fn page_cache_key(path: &str) -> (r: String)
    ensures
        r@ == "page:"@ + path@,
{
    let mut s = String::new();
    s.append("page:");
    s.append(path);
    proof {
        assert(s@ =~= "page:"@ + path@);
    }
    s
}

/// The redis key an assembled video is cached under.
pub fn video_cache_key(path: &str) -> (r: String)
    ensures
        r@ == "video:"@ + path@,
{
    let mut s = String::new();
    s.append("video:");
    s.append(path);
    proof {
        assert(s@ =~= "video:"@ + path@);
    }
    s
}

/// The absolute origin URL of a page path.
pub fn absolute_page_url(path: &str) -> (r: String)
    ensures
        r@ == "https://soundcloud.com"@ + path@,
{
    let mut s = String::new();
    s.append("https://soundcloud.com");
    s.append(path);
    proof {
        assert(s@ =~= "https://soundcloud.com"@ + path@);
    }
    s
}

/// The stream URL with the client id appended: after `&` when the URL
/// already carries a query, after `?` otherwise.
pub open spec fn spec_stream_url_with_client_id(stream: Seq<char>, client_id: Seq<char>) -> Seq<
    char,
> {
    if spec_contains_char(stream, '?') {
        stream + "&client_id="@ + client_id
    } else {
        stream + "?client_id="@ + client_id
    }
}

/// Appends the client id to a stream URL, as the spec states.
pub fn stream_url_with_client_id(stream_url: &str, client_id: &str) -> (r: String)
    ensures
        r@ == spec_stream_url_with_client_id(stream_url@, client_id@),
{
    let mut s = String::from_str(stream_url);
    if str_contains_char(stream_url, '?') {
        s.append("&client_id=");
    } else {
        s.append("?client_id=");
    }
    s.append(client_id);
    proof {
        assert(s@ =~= spec_stream_url_with_client_id(stream_url@, client_id@));
    }
    s
}

/// The track stream URL and artwork URL a video is assembled from; only a
/// track page carries them.
pub fn video_source(info: &ResolveInfo) -> (r: Option<(String, String)>)
    ensures
        r is Some <==> info is Track,
        r is Some ==> r->Some_0.0@ == info->Track_0.stream_url@ && r->Some_0.1@
            == info->Track_0.artwork_url@,
{
    match info {
        ResolveInfo::Track(track) => Some(
            (track.stream_url.clone(), track.artwork_url.clone()),
        ),
        ResolveInfo::Playlist(_) => None,
    }
}

/// The artwork URL upsized: every `-large.jpg` suffix swapped for the
/// 500-by-500 rendition, since the large one is not large enough.
pub fn artwork_full_size(artwork_url: &str) -> (r: String)
    ensures
        r@ == crate::text::spec_replace(artwork_url@, "-large.jpg"@, "-t500x500.jpg"@),
{
    proof {
        reveal_strlit("-large.jpg");
    }
    crate::text::replace_all(artwork_url, "-large.jpg", "-t500x500.jpg")
}

/// The quoted-attribute escaping of one character: `&`, `<`, `>`, `"`
/// and `\'` become their HTML entities, everything else stays itself.
pub open spec fn spec_escape_attr_char(c: char) -> Seq<char> {
    if c == '&' {
        "&amp;"@
    } else if c == '<' {
        "&lt;"@
    } else if c == '>' {
        "&gt;"@
    } else if c == '"' {
        "&quot;"@
    } else if c == '\'' {
        "&#x27;"@
    } else {
        seq![c]
    }
}

/// The quoted-attribute escaping of a string, character by character.
pub open spec fn spec_html_attr_escaped(s: Seq<char>) -> Seq<char>
    decreases s.len(),
{
    if s.len() == 0 {
        Seq::<char>::empty()
    } else {
        spec_escape_attr_char(s[0]) + spec_html_attr_escaped(s.skip(1))
    }
}

/// Relies on `html_escape::encode_quoted_attribute`: escapes `&`, `<`,
/// `>`, `"` and `\'` as HTML entities, leaving everything else as it is.
#[verifier::external_body]
pub fn html_escape_attr(s: &str) -> (r: String)
    ensures
        r@ == spec_html_attr_escaped(s@),
{
    html_escape::encode_quoted_attribute(s).into_owned()
}

/// What parsing a string as a URI and taking its path yields.
pub uninterp spec fn uri_path_of(s: Seq<char>) -> Seq<char>;

/// Relies on `hyper::Uri`'s `FromStr` and `Uri::path`: the path component
/// of the parsed URI, or the default URI's path when the string does not
/// parse; either way a function of the characters alone.
#[verifier::external_body]
pub fn uri_path(s: &str) -> (r: String)
    ensures
        r@ == uri_path_of(s@),
{
    s.parse::<hyper::Uri>().unwrap_or_default().path().to_owned()
}

/// The oembed endpoint URL an embed page points at: the page's counters
/// and permalink, percent-encoded, on the serving host.
pub open spec fn spec_embed_url(hostname: Seq<char>, info: ResolveInfo) -> Seq<char> {
    "https://"@ + hostname + "/oembed?text="@ + spec_url_encoded(info.spec_counts()) + "&url="@
        + spec_url_encoded(info.spec_permalink_url())
}

/// The video endpoint URL an embed page points at: the path of the
/// escaped permalink, percent-encoded, on the serving host.
pub open spec fn spec_video_url(hostname: Seq<char>, info: ResolveInfo) -> Seq<char> {
    "https://"@ + hostname + "/video?path="@ + spec_url_encoded(
        uri_path_of(spec_html_attr_escaped(info.spec_permalink_url())),
    )
}

/// The embed page document: an HTML head of OpenGraph, Twitter-card and
/// oembed metadata built from the escaped page fields, redirecting to the
/// permalink.
pub open spec fn spec_embed_page(hostname: Seq<char>, info: ResolveInfo) -> Seq<char> {
    let permalink = spec_html_attr_escaped(info.spec_permalink_url());
    let artist = spec_html_attr_escaped(info.spec_artist_name());
    let title = spec_html_attr_escaped(info.spec_title());
    let description = spec_html_attr_escaped(info.spec_description());
    let ogp_kind = if info is Track {
        "music.song"@
    } else {
        "music.playlist"@
    };
    "<!DOCTYPE html>\n<html lang=\"en\">\n    <head>\n        <link rel=\"canonical\" href=\""@
        + permalink + "\"/>\n        <meta http-equiv=\"refresh\" content=\"0;url="@ + permalink
        + "\"/>\n        <meta property=\"theme-color\" content=\"undefined\"/>\n        <meta property=\"twitter:card\" content=\"player\"/>\n        <meta property=\"twitter:title\" content=\""@
        + artist + " - "@ + title
        + "\"/>\n        <meta property=\"twitter:description\" content=\""@ + description
        + "\"/>\n        <meta property=\"og:title\" content=\""@ + artist + " - "@ + title
        + "\"/>\n        <meta property=\"og:type\" content=\""@ + ogp_kind
        + "\"/>\n        <meta property=\"og:video\" content=\""@ + spec_video_url(hostname, info)
        + "\"/>\n        <meta property=\"og:video:secure_url\" content=\""@ + spec_video_url(
        hostname,
        info,
    )
        + "\"/>\n        <meta property=\"og:video:height\" content=\"500\"/>\n        <meta property=\"og:video:width\" content=\"500\"/>\n        <meta property=\"og:video:type\" content=\"video/webm\"/>\n        <meta property=\"og:url\" content=\""@
        + permalink + "\"/>\n        <meta property=\"og:description\" content=\""@ + description
        + "\"/>\n        <meta property=\"og:site_name\" content=\"soundcloud-embedder\"/>\n        <link rel=\"alternate\" href=\""@
        + spec_embed_url(hostname, info) + "\" type=\"application/json+oembed\" title=\""@ + artist
        + "\">\n    </head>\n    <body></body>\n</html>\n"@
}

/// Builds the embed page document for a resolved page, as
/// `spec_embed_page` states it.
#[verifier::rlimit(30)]
pub fn make_embed_page(hostname: &str, info: ResolveInfo) -> (r: String)
    ensures
        r@ == spec_embed_page(hostname@, info),
{
    let permalink = html_escape_attr(info.permalink_url());
    let artist = html_escape_attr(info.artist_name());
    let title = html_escape_attr(info.title());
    let description = html_escape_attr(info.description());
    let ogp_kind: &str = match &info {
        ResolveInfo::Track(_) => "music.song",
        ResolveInfo::Playlist(_) => "music.playlist",
    };
    let counts = info.counts();
    let encoded_counts = url_encode(counts.as_str());
    let encoded_permalink = url_encode(info.permalink_url());
    let mut embed_url = String::new();
    embed_url.append("https://");
    embed_url.append(hostname);
    embed_url.append("/oembed?text=");
    embed_url.append(encoded_counts.as_str());
    embed_url.append("&url=");
    embed_url.append(encoded_permalink.as_str());
    proof {
        assert(embed_url@ =~= spec_embed_url(hostname@, info));
    }
    let permalink_path = uri_path(permalink.as_str());
    let encoded_path = url_encode(permalink_path.as_str());
    let mut video_url = String::new();
    video_url.append("https://");
    video_url.append(hostname);
    video_url.append("/video?path=");
    video_url.append(encoded_path.as_str());
    proof {
        assert(video_url@ =~= spec_video_url(hostname@, info));
    }
    let mut page = String::new();
    page.append(
        "<!DOCTYPE html>\n<html lang=\"en\">\n    <head>\n        <link rel=\"canonical\" href=\"",
    );
    page.append(permalink.as_str());
    page.append("\"/>\n        <meta http-equiv=\"refresh\" content=\"0;url=");
    page.append(permalink.as_str());
    page.append(
        "\"/>\n        <meta property=\"theme-color\" content=\"undefined\"/>\n        <meta property=\"twitter:card\" content=\"player\"/>\n        <meta property=\"twitter:title\" content=\"",
    );
    page.append(artist.as_str());
    page.append(" - ");
    page.append(title.as_str());
    page.append("\"/>\n        <meta property=\"twitter:description\" content=\"");
    page.append(description.as_str());
    page.append("\"/>\n        <meta property=\"og:title\" content=\"");
    page.append(artist.as_str());
    page.append(" - ");
    page.append(title.as_str());
    page.append("\"/>\n        <meta property=\"og:type\" content=\"");
    page.append(ogp_kind);
    page.append("\"/>\n        <meta property=\"og:video\" content=\"");
    page.append(video_url.as_str());
    page.append("\"/>\n        <meta property=\"og:video:secure_url\" content=\"");
    page.append(video_url.as_str());
    page.append(
        "\"/>\n        <meta property=\"og:video:height\" content=\"500\"/>\n        <meta property=\"og:video:width\" content=\"500\"/>\n        <meta property=\"og:video:type\" content=\"video/webm\"/>\n        <meta property=\"og:url\" content=\"",
    );
    page.append(permalink.as_str());
    page.append("\"/>\n        <meta property=\"og:description\" content=\"");
    page.append(description.as_str());
    page.append(
        "\"/>\n        <meta property=\"og:site_name\" content=\"soundcloud-embedder\"/>\n        <link rel=\"alternate\" href=\"",
    );
    page.append(embed_url.as_str());
    page.append("\" type=\"application/json+oembed\" title=\"");
    page.append(artist.as_str());
    page.append("\">\n    </head>\n    <body></body>\n</html>\n");
    proof {
        assert(page@ =~= spec_embed_page(hostname@, info));
    }
    page
}

} // verus!
