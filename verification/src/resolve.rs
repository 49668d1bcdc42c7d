//! Turns a metadata-resolver response document into a `ResolveInfo`
//! record, with every extracted field pinned down against the JSON model.

use vstd::prelude::*;

use crate::api::PlaylistInfo;
use crate::api::ResolveInfo;
use crate::api::TrackInfo;
use crate::api::spec_truncate;
use crate::api::truncate_string;
use crate::json::JsonData;
use crate::json::get_obj;
use crate::json::get_str;
use crate::json::get_u64;
use crate::json::json_of;
use crate::json::obj_obj;
use crate::json::obj_str;
use crate::json::obj_u64;
use crate::json::value_is_object;
use crate::text::spec_starts_with;
use crate::text::str_eq;
use crate::text::str_starts_with;
use crate::MAX_ARTIST_LEN;
use crate::MAX_DESCRIPTION_LEN;
use crate::MAX_TITLE_LEN;

verus! {

/// Why a resolver response could not be read.
#[derive(Clone, Copy, Debug, PartialEq, Eq, Structural)]
pub enum ResolveParseError {
    /// The response was not a JSON object.
    NotAnObject,
    /// The object's `kind` was missing, not a string, or unknown.
    UnexpectedKind,
}

/// The string under `key`, or empty when there is none.
pub open spec fn spec_str_or_empty(m: Map<Seq<char>, JsonData>, key: Seq<char>) -> Seq<char> {
    match obj_str(m, key) {
        Some(s) => s,
        None => Seq::<char>::empty(),
    }
}

/// The artwork URL: the object's own `artwork_url`, or failing that the
/// owning user's `avatar_url`, or empty.
pub open spec fn spec_artwork(m: Map<Seq<char>, JsonData>) -> Seq<char> {
    match obj_str(m, "artwork_url"@) {
        Some(s) => s,
        None => match obj_obj(m, "user"@) {
            Some(u) => spec_str_or_empty(u, "avatar_url"@),
            None => Seq::<char>::empty(),
        },
    }
}

/// The string under `key` truncated to `len` columns, or empty.
pub open spec fn spec_truncated_field(
    m: Map<Seq<char>, JsonData>,
    key: Seq<char>,
    len: int,
) -> Seq<char> {
    match obj_str(m, key) {
        Some(s) => spec_truncate(s, len),
        None => Seq::<char>::empty(),
    }
}

/// The owning user's name truncated to `len` columns, or empty.
pub open spec fn spec_username(m: Map<Seq<char>, JsonData>, len: int) -> Seq<char> {
    match obj_obj(m, "user"@) {
        Some(u) => match obj_str(u, "username"@) {
            Some(s) => spec_truncate(s, len),
            None => Seq::<char>::empty(),
        },
        None => Seq::<char>::empty(),
    }
}

/// The counter under `key` reduced to 32 bits, or zero.
pub open spec fn spec_count(m: Map<Seq<char>, JsonData>, key: Seq<char>) -> u32 {
    match obj_u64(m, key) {
        Some(n) => n as u32,
        None => 0u32,
    }
}

/// Whether a transcoding entry is the one the embedder streams from: an
/// object whose `preset` starts with `opus`, whose `format.protocol` is
/// `hls`, and which carries a `url`.
pub open spec fn spec_is_stream_choice(t: JsonData) -> bool {
    &&& t is Obj
    &&& obj_str(t->Obj_0, "preset"@) is Some
    &&& spec_starts_with(obj_str(t->Obj_0, "preset"@)->Some_0, "opus"@)
    &&& obj_obj(t->Obj_0, "format"@) is Some
    &&& obj_str(obj_obj(t->Obj_0, "format"@)->Some_0, "protocol"@) == Some("hls"@)
    &&& obj_str(t->Obj_0, "url"@) is Some
}

/// The `url` of a chosen transcoding entry.
pub open spec fn spec_choice_url(t: JsonData) -> Seq<char> {
    obj_str(t->Obj_0, "url"@)->Some_0
}

/// The `url` of the first suitable transcoding entry, or empty.
pub open spec fn spec_first_stream(a: Seq<JsonData>) -> Seq<char>
    decreases a.len(),
{
    if a.len() == 0 {
        Seq::<char>::empty()
    } else if spec_is_stream_choice(a[0]) {
        spec_choice_url(a[0])
    } else {
        spec_first_stream(a.skip(1))
    }
}

/// The stream URL a track object offers, per `spec_first_stream` over
/// `media.transcodings`, or empty.
pub open spec fn spec_stream_url(m: Map<Seq<char>, JsonData>) -> Seq<char> {
    match obj_obj(m, "media"@) {
        Some(mm) => if mm.contains_key("transcodings"@) && mm["transcodings"@] is Arr {
            spec_first_stream(mm["transcodings"@]->Arr_0)
        } else {
            Seq::<char>::empty()
        },
        None => Seq::<char>::empty(),
    }
}

/// Every field a track record takes from the response object.
pub open spec fn spec_track_fields(t: TrackInfo, m: Map<Seq<char>, JsonData>) -> bool {
    &&& t.artwork_url@ == spec_artwork(m)
    &&& t.permalink_url@ == spec_str_or_empty(m, "permalink_url"@)
    &&& t.stream_url@ == spec_stream_url(m)
    &&& t.artist_name@ == spec_username(m, MAX_ARTIST_LEN as int)
    &&& t.title@ == spec_truncated_field(m, "title"@, MAX_TITLE_LEN as int)
    &&& t.description@ == spec_truncated_field(m, "description"@, MAX_DESCRIPTION_LEN as int)
    &&& t.playback_count == spec_count(m, "playback_count"@)
    &&& t.likes_count == spec_count(m, "likes_count"@)
    &&& t.reposts_count == spec_count(m, "reposts_count"@)
    &&& t.comment_count == spec_count(m, "comment_count"@)
}

/// Every field a playlist record takes from the response object.
pub open spec fn spec_playlist_fields(p: PlaylistInfo, m: Map<Seq<char>, JsonData>) -> bool {
    &&& p.artwork_url@ == spec_artwork(m)
    &&& p.permalink_url@ == spec_str_or_empty(m, "permalink_url"@)
    &&& p.artist_name@ == spec_username(m, MAX_ARTIST_LEN as int)
    &&& p.title@ == spec_truncated_field(m, "title"@, MAX_TITLE_LEN as int)
    &&& p.description@ == spec_truncated_field(m, "description"@, MAX_DESCRIPTION_LEN as int)
    &&& p.track_count == spec_count(m, "track_count"@)
    &&& p.likes_count == spec_count(m, "likes_count"@)
    &&& p.reposts_count == spec_count(m, "reposts_count"@)
}

/// The stream URL of a single transcoding entry, when it is suitable.
fn transcoding_stream_url<'a>(t: &'a serde_json::Value) -> (r: Option<&'a str>)
    ensures
        r is Some <==> spec_is_stream_choice(json_of(*t)),
        r is Some ==> r->Some_0@ == spec_choice_url(json_of(*t)),
{
    if !value_is_object(t) {
        return None;
    }
    let preset = match get_str(t, "preset") {
        Some(p) => p,
        None => {
            return None;
        },
    };
    if !str_starts_with(preset, "opus") {
        return None;
    }
    let format = match get_obj(t, "format") {
        Some(f) => f,
        None => {
            return None;
        },
    };
    let protocol = match get_str(format, "protocol") {
        Some(p) => p,
        None => {
            return None;
        },
    };
    if !str_eq(protocol, "hls") {
        return None;
    }
    get_str(t, "url")
}

/// The `url` of the first suitable transcoding entry of the track
/// object `v`, or empty.
fn stream_url_of(v: &serde_json::Value) -> (r: String)
    requires
        json_of(*v) is Obj,
    ensures
        r@ == spec_stream_url(json_of(*v)->Obj_0),
{
    let media = match get_obj(v, "media") {
        Some(mm) => mm,
        None => {
            return String::new();
        },
    };
    let transcodings = match crate::json::value_get(media, "transcodings") {
        Some(a) => a,
        None => {
            return String::new();
        },
    };
    let arr = match crate::json::value_as_array(transcodings) {
        Some(a) => a,
        None => {
            return String::new();
        },
    };
    let ghost model = json_of(*transcodings)->Arr_0;
    proof {
        assert(model.skip(0) =~= model);
        assert(spec_stream_url(json_of(*v)->Obj_0) == spec_first_stream(model));
    }
    let n = arr.len();
    let mut i: usize = 0;
    while i < n
        invariant
            n == arr@.len(),
            arr@.map_values(|x: serde_json::Value| json_of(x)) == model,
            0 <= i <= n,
            spec_first_stream(model) == spec_first_stream(model.skip(i as int)),
            spec_stream_url(json_of(*v)->Obj_0) == spec_first_stream(model),
        decreases n - i,
    {
        proof {
            assert(json_of(arr@[i as int]) == model[i as int]);
        }
        match transcoding_stream_url(&arr[i]) {
            Some(url) => {
                proof {
                    assert(model.skip(i as int)[0] == model[i as int]);
                    assert(spec_first_stream(model.skip(i as int)) == spec_choice_url(
                        model[i as int],
                    ));
                }
                return String::from_str(url);
            },
            None => {
                proof {
                    assert(model.skip(i as int)[0] == model[i as int]);
                    assert(model.skip(i as int).skip(1) =~= model.skip(i + 1));
                }
            },
        }
        i = i + 1;
    }
    proof {
        assert(model.skip(n as int) =~= Seq::<JsonData>::empty());
    }
    String::new()
}

/// The string field `key` of `v` as an owned string, or empty.
fn str_field_or_empty(v: &serde_json::Value, key: &str) -> (r: String)
    requires
        json_of(*v) is Obj,
    ensures
        r@ == spec_str_or_empty(json_of(*v)->Obj_0, key@),
{
    match get_str(v, key) {
        Some(s) => String::from_str(s),
        None => String::new(),
    }
}

/// The string field `key` of `v` truncated to `len` columns, or empty.
fn truncated_field(v: &serde_json::Value, key: &str, len: usize) -> (r: String)
    requires
        json_of(*v) is Obj,
        len >= 3,
    ensures
        r@ == spec_truncated_field(json_of(*v)->Obj_0, key@, len as int),
{
    match get_str(v, key) {
        Some(s) => truncate_string(s, len),
        None => String::new(),
    }
}

/// The counter field `key` of `v` reduced to 32 bits, or zero.
fn count_field(v: &serde_json::Value, key: &str) -> (r: u32)
    requires
        json_of(*v) is Obj,
    ensures
        r == spec_count(json_of(*v)->Obj_0, key@),
{
    match get_u64(v, key) {
        Some(n) => #[verifier::truncate] (n as u32),
        None => 0,
    }
}

/// The artwork URL of `v`, per `spec_artwork`.
fn artwork_field(v: &serde_json::Value) -> (r: String)
    requires
        json_of(*v) is Obj,
    ensures
        r@ == spec_artwork(json_of(*v)->Obj_0),
{
    match get_str(v, "artwork_url") {
        Some(s) => String::from_str(s),
        None => match get_obj(v, "user") {
            Some(u) => str_field_or_empty(u, "avatar_url"),
            None => String::new(),
        },
    }
}

/// The owning user's name of `v` truncated, per `spec_username`.
fn username_field(v: &serde_json::Value, len: usize) -> (r: String)
    requires
        json_of(*v) is Obj,
        len >= 3,
    ensures
        r@ == spec_username(json_of(*v)->Obj_0, len as int),
{
    match get_obj(v, "user") {
        Some(u) => truncated_field(u, "username", len),
        None => String::new(),
    }
}

/// Reads a resolver response into a `ResolveInfo`.  The response must be
/// a JSON object whose `kind` is the string `track` or `playlist`; each
/// record field comes from the object as the `spec_track_fields` and
/// `spec_playlist_fields` predicates state.
pub fn parse_resolve_info(v: &serde_json::Value) -> (r: Result<ResolveInfo, ResolveParseError>)
    ensures
        !(json_of(*v) is Obj) ==> r == Err::<ResolveInfo, _>(ResolveParseError::NotAnObject),
        json_of(*v) is Obj && obj_str(json_of(*v)->Obj_0, "kind"@) != Some("track"@) && obj_str(
            json_of(*v)->Obj_0,
            "kind"@,
        ) != Some("playlist"@) ==> r == Err::<ResolveInfo, _>(ResolveParseError::UnexpectedKind),
        json_of(*v) is Obj && obj_str(json_of(*v)->Obj_0, "kind"@) == Some("track"@) ==> {
            &&& r is Ok
            &&& r->Ok_0 is Track
            &&& spec_track_fields(r->Ok_0->Track_0, json_of(*v)->Obj_0)
        },
        json_of(*v) is Obj && obj_str(json_of(*v)->Obj_0, "kind"@) == Some("playlist"@) ==> {
            &&& r is Ok
            &&& r->Ok_0 is Playlist
            &&& spec_playlist_fields(r->Ok_0->Playlist_0, json_of(*v)->Obj_0)
        },
{
    if !value_is_object(v) {
        return Err(ResolveParseError::NotAnObject);
    }
    let kind = match get_str(v, "kind") {
        Some(k) => k,
        None => {
            return Err(ResolveParseError::UnexpectedKind);
        },
    };
    proof {
        reveal_strlit("track");
        reveal_strlit("playlist");
    }
    if str_eq(kind, "track") {
        let info = TrackInfo {
            artwork_url: artwork_field(v),
            permalink_url: str_field_or_empty(v, "permalink_url"),
            stream_url: stream_url_of(v),
            artist_name: username_field(v, MAX_ARTIST_LEN),
            title: truncated_field(v, "title", MAX_TITLE_LEN),
            description: truncated_field(v, "description", MAX_DESCRIPTION_LEN),
            playback_count: count_field(v, "playback_count"),
            likes_count: count_field(v, "likes_count"),
            reposts_count: count_field(v, "reposts_count"),
            comment_count: count_field(v, "comment_count"),
        };
        proof {
            reveal_strlit("track");
            reveal_strlit("playlist");
            assert("track"@.len() == 5);
            assert("playlist"@.len() == 8);
            assert(kind@ != "playlist"@);
        }
        Ok(ResolveInfo::Track(info))
    } else if str_eq(kind, "playlist") {
        let info = PlaylistInfo {
            artwork_url: artwork_field(v),
            permalink_url: str_field_or_empty(v, "permalink_url"),
            artist_name: username_field(v, MAX_ARTIST_LEN),
            title: truncated_field(v, "title", MAX_TITLE_LEN),
            description: truncated_field(v, "description", MAX_DESCRIPTION_LEN),
            track_count: count_field(v, "track_count"),
            likes_count: count_field(v, "likes_count"),
            reposts_count: count_field(v, "reposts_count"),
        };
        Ok(ResolveInfo::Playlist(info))
    } else {
        Err(ResolveParseError::UnexpectedKind)
    }
}

} // verus!
