//! The segment fetcher's parsing: resolving the indirection manifest to
//! the playlist URL, and reading the playlist into its segment URLs.

use vstd::prelude::*;

use crate::MediaError;
use crate::json::json_parsed;
use crate::json::get_str;
use crate::json::obj_str;
use crate::json::parse_json;
use crate::json::value_is_object;
use crate::text::char_split;
use crate::text::spec_split;

verus! {

/// The playlist URL a manifest document carries, when it is a JSON
/// object with a `url` string.
pub open spec fn spec_manifest_url(s: Seq<char>) -> Option<Seq<char>> {
    match json_parsed(s) {
        Some(doc) => if doc is Obj {
            obj_str(doc->Obj_0, "url"@)
        } else {
            None
        },
        None => None,
    }
}

/// Resolves the manifest body to the playlist URL: the body must parse as
/// a JSON object carrying a `url` string.  Anything else is a fetch
/// failure, as an undecodable manifest body aborts the assembly.
pub fn parse_manifest_url(text: &str) -> (r: Result<String, MediaError>)
    ensures
        r is Ok <==> spec_manifest_url(text@) is Some,
        r is Ok ==> r->Ok_0@ == spec_manifest_url(text@)->Some_0,
        r is Err ==> r == Err::<String, _>(MediaError::Fetch),
{
    let doc = match parse_json(text) {
        Some(d) => d,
        None => {
            return Err(MediaError::Fetch);
        },
    };
    if !value_is_object(&doc) {
        return Err(MediaError::Fetch);
    }
    match get_str(&doc, "url") {
        Some(url) => Ok(String::from_str(url)),
        None => Err(MediaError::Fetch),
    }
}

/// Whether a playlist line is a comment: it begins with the marker.
pub open spec fn spec_is_comment(line: Seq<char>) -> bool {
    line.len() > 0 && line[0] == '#'
}

/// The lines that are not comments, in order.
pub open spec fn spec_keep_segments(lines: Seq<Seq<char>>) -> Seq<Seq<char>>
    decreases lines.len(),
{
    if lines.len() == 0 {
        Seq::<Seq<char>>::empty()
    } else if spec_is_comment(lines[0]) {
        spec_keep_segments(lines.skip(1))
    } else {
        seq![lines[0]] + spec_keep_segments(lines.skip(1))
    }
}

/// The segment URLs of a playlist body: its newline-separated lines that
/// do not begin with the comment marker, in file order.
pub open spec fn spec_segment_urls(s: Seq<char>) -> Seq<Seq<char>> {
    spec_keep_segments(spec_split(s, '\n'))
}

/// Parses a playlist body into its segment URLs, in file order; the order
/// is significant, as the segments' bytes are concatenated downstream.
pub fn playlist_segment_urls(playlist: &str) -> (r: Vec<String>)
    ensures
        r@.map_values(|p: String| p@) == spec_segment_urls(playlist@),
{
    let lines = char_split(playlist, '\n');
    let ghost linemodels = lines@.map_values(|p: String| p@);
    let mut out: Vec<String> = Vec::new();
    let n = lines.len();
    let mut i: usize = 0;
    proof {
        assert(linemodels.skip(0) =~= linemodels);
        assert(out@.map_values(|p: String| p@) + spec_keep_segments(linemodels)
            =~= spec_keep_segments(linemodels));
    }
    while i < n
        invariant
            n == lines@.len(),
            linemodels == lines@.map_values(|p: String| p@),
            0 <= i <= n,
            spec_keep_segments(linemodels) == out@.map_values(|p: String| p@)
                + spec_keep_segments(linemodels.skip(i as int)),
        decreases n - i,
    {
        let line = &lines[i];
        proof {
            assert(linemodels[i as int] == line@);
            assert(linemodels.skip(i as int)[0] == linemodels[i as int]);
            assert(linemodels.skip(i as int).skip(1) =~= linemodels.skip(i + 1));
        }
        let comment = line.as_str().unicode_len() > 0 && line.as_str().get_char(0) == '#';
        if !comment {
            let kept = line.clone();
            proof {
                assert((out@ + seq![kept]).map_values(|p: String| p@) =~= out@.map_values(
                    |p: String| p@,
                ) + seq![kept@]);
                assert(out@.map_values(|p: String| p@) + (seq![line@] + spec_keep_segments(
                    linemodels.skip(i + 1),
                )) =~= (out@ + seq![kept]).map_values(|p: String| p@) + spec_keep_segments(
                    linemodels.skip(i + 1),
                ));
            }
            out.push(kept);
        }
        i = i + 1;
    }
    proof {
        assert(linemodels.skip(n as int) =~= Seq::<Seq<char>>::empty());
        assert(out@.map_values(|p: String| p@) + Seq::<Seq<char>>::empty() =~= out@.map_values(
            |p: String| p@,
        ));
    }
    out
}

} // verus!
