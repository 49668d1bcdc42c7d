//! Track and playlist metadata: the records the resolver fills in, the
//! length-limited display strings derived from them, and the resolver
//! request URL.

use vstd::prelude::*;

use crate::text::spec_decimal;
use crate::text::decimal_string;

verus! {

/// The info of a track that the embedder cares about.
#[derive(Clone, Debug)]
pub struct TrackInfo {
    pub artwork_url: String,
    pub permalink_url: String,
    pub stream_url: String,
    pub artist_name: String,
    pub title: String,
    pub description: String,
    pub playback_count: u32,
    pub likes_count: u32,
    pub reposts_count: u32,
    pub comment_count: u32,
}

impl Default for TrackInfo {
    /// All strings empty, all counters zero.
    fn default() -> (r: Self)
        ensures
            r.artwork_url@ == Seq::<char>::empty(),
            r.permalink_url@ == Seq::<char>::empty(),
            r.stream_url@ == Seq::<char>::empty(),
            r.artist_name@ == Seq::<char>::empty(),
            r.title@ == Seq::<char>::empty(),
            r.description@ == Seq::<char>::empty(),
            r.playback_count == 0,
            r.likes_count == 0,
            r.reposts_count == 0,
            r.comment_count == 0,
    {
        TrackInfo {
            artwork_url: String::new(),
            permalink_url: String::new(),
            stream_url: String::new(),
            artist_name: String::new(),
            title: String::new(),
            description: String::new(),
            playback_count: 0,
            likes_count: 0,
            reposts_count: 0,
            comment_count: 0,
        }
    }
}

/// The info of a playlist that the embedder cares about.
#[derive(Clone, Debug)]
pub struct PlaylistInfo {
    pub artwork_url: String,
    pub permalink_url: String,
    pub artist_name: String,
    pub title: String,
    pub description: String,
    pub track_count: u32,
    pub likes_count: u32,
    pub reposts_count: u32,
}

impl Default for PlaylistInfo {
    /// All strings empty, all counters zero.
    fn default() -> (r: Self)
        ensures
            r.artwork_url@ == Seq::<char>::empty(),
            r.permalink_url@ == Seq::<char>::empty(),
            r.artist_name@ == Seq::<char>::empty(),
            r.title@ == Seq::<char>::empty(),
            r.description@ == Seq::<char>::empty(),
            r.track_count == 0,
            r.likes_count == 0,
            r.reposts_count == 0,
    {
        PlaylistInfo {
            artwork_url: String::new(),
            permalink_url: String::new(),
            artist_name: String::new(),
            title: String::new(),
            description: String::new(),
            track_count: 0,
            likes_count: 0,
            reposts_count: 0,
        }
    }
}

/// Either kind of resolved page.
#[derive(Clone, Debug)]
pub enum ResolveInfo {
    Track(TrackInfo),
    Playlist(PlaylistInfo),
}

impl ResolveInfo {
    /// The artwork URL of either kind of page.
    pub open spec fn spec_artwork_url(&self) -> Seq<char> {
        match self {
            ResolveInfo::Track(info) => info.artwork_url@,
            ResolveInfo::Playlist(info) => info.artwork_url@,
        }
    }

    pub fn artwork_url(&self) -> (r: &str)
        ensures
            r@ == self.spec_artwork_url(),
    {
        match self {
            Self::Track(info) => info.artwork_url.as_str(),
            Self::Playlist(info) => info.artwork_url.as_str(),
        }
    }

    /// The permalink URL of either kind of page.
    pub open spec fn spec_permalink_url(&self) -> Seq<char> {
        match self {
            ResolveInfo::Track(info) => info.permalink_url@,
            ResolveInfo::Playlist(info) => info.permalink_url@,
        }
    }

    pub fn permalink_url(&self) -> (r: &str)
        ensures
            r@ == self.spec_permalink_url(),
    {
        match self {
            Self::Track(info) => info.permalink_url.as_str(),
            Self::Playlist(info) => info.permalink_url.as_str(),
        }
    }

    /// The artist name of either kind of page.
    pub open spec fn spec_artist_name(&self) -> Seq<char> {
        match self {
            ResolveInfo::Track(info) => info.artist_name@,
            ResolveInfo::Playlist(info) => info.artist_name@,
        }
    }

    pub fn artist_name(&self) -> (r: &str)
        ensures
            r@ == self.spec_artist_name(),
    {
        match self {
            Self::Track(info) => info.artist_name.as_str(),
            Self::Playlist(info) => info.artist_name.as_str(),
        }
    }

    /// The title of either kind of page.
    pub open spec fn spec_title(&self) -> Seq<char> {
        match self {
            ResolveInfo::Track(info) => info.title@,
            ResolveInfo::Playlist(info) => info.title@,
        }
    }

    pub fn title(&self) -> (r: &str)
        ensures
            r@ == self.spec_title(),
    {
        match self {
            Self::Track(info) => info.title.as_str(),
            Self::Playlist(info) => info.title.as_str(),
        }
    }

    /// The description of either kind of page.
    pub open spec fn spec_description(&self) -> Seq<char> {
        match self {
            ResolveInfo::Track(info) => info.description@,
            ResolveInfo::Playlist(info) => info.description@,
        }
    }

    pub fn description(&self) -> (r: &str)
        ensures
            r@ == self.spec_description(),
    {
        match self {
            Self::Track(info) => info.description.as_str(),
            Self::Playlist(info) => info.description.as_str(),
        }
    }

    /// The display line of play/like/repost/comment counters: each count
    /// in decimal, followed by its symbol, separated by wide gaps.
    pub open spec fn spec_counts(&self) -> Seq<char> {
        match self {
            ResolveInfo::Track(info) => spec_decimal(info.playback_count as nat)
                + " \u{25b6}    "@ + spec_decimal(info.likes_count as nat)
                + " \u{2764}\u{fe0f}    "@ + spec_decimal(info.reposts_count as nat)
                + " \u{1f501}    "@ + spec_decimal(info.comment_count as nat) + " \u{1f4ac}"@,
            ResolveInfo::Playlist(info) => spec_decimal(info.track_count as nat)
                + " \u{1f3b5}    "@ + spec_decimal(info.likes_count as nat)
                + " \u{2764}\u{fe0f}    "@ + spec_decimal(info.reposts_count as nat)
                + " \u{1f501}"@,
        }
    }

    pub fn counts(&self) -> (r: String)
        ensures
            r@ == self.spec_counts(),
    {
        match self {
            Self::Track(info) => {
                let mut s = decimal_string(info.playback_count);
                s.append(" \u{25b6}    ");
                let likes = decimal_string(info.likes_count);
                s.append(likes.as_str());
                s.append(" \u{2764}\u{fe0f}    ");
                let reposts = decimal_string(info.reposts_count);
                s.append(reposts.as_str());
                s.append(" \u{1f501}    ");
                let comments = decimal_string(info.comment_count);
                s.append(comments.as_str());
                s.append(" \u{1f4ac}");
                s
            },
            Self::Playlist(info) => {
                let mut s = decimal_string(info.track_count);
                s.append(" \u{1f3b5}    ");
                let likes = decimal_string(info.likes_count);
                s.append(likes.as_str());
                s.append(" \u{2764}\u{fe0f}    ");
                let reposts = decimal_string(info.reposts_count);
                s.append(reposts.as_str());
                s.append(" \u{1f501}");
                s
            },
        }
    }
}

/// What `unicode_truncate` yields for a string and a display width: the
/// longest prefix whose display width fits, and that prefix's width.
pub uninterp spec fn unicode_truncated(s: Seq<char>, width: int) -> (Seq<char>, int);

/// Relies on `unicode_truncate::UnicodeTruncateStr::unicode_truncate`:
/// the returned slice is a prefix of the input taken at a character
/// boundary, its display width is at most the requested width, and both
/// depend on the input characters alone.
#[verifier::external_body]
fn unicode_truncate_prefix<'a>(s: &'a str, width: usize) -> (r: (&'a str, usize))
    ensures
        r.0@ == unicode_truncated(s@, width as int).0,
        r.1 as int == unicode_truncated(s@, width as int).1,
        r.0@ == s@.take(r.0@.len() as int),
        r.0@.len() <= s@.len(),
        r.1 <= width,
{
    unicode_truncate::UnicodeTruncateStr::unicode_truncate(s, width)
}

/// `n` copies of `c` (none if `n` is negative).
pub open spec fn char_repeat(c: char, n: int) -> Seq<char> {
    if n <= 0 {
        Seq::<char>::empty()
    } else {
        Seq::<char>::new(n as nat, |i: int| c)
    }
}

/// What `truncate_string` returns: the input unchanged when its UTF-8
/// byte length fits within `length`, else the widest prefix of display
/// width at most `length - 3`, padded with dots up to `length` columns.
pub open spec fn spec_truncate(s: Seq<char>, length: int) -> Seq<char> {
    if vstd::utf8::encode_utf8(s).len() as usize <= length {
        s
    } else {
        unicode_truncated(s, length - 3).0 + char_repeat(
            '.',
            length - unicode_truncated(s, length - 3).1,
        )
    }
}

/// Limits `string` to roughly `length` display columns, marking any cut
/// with trailing dots.  A string whose byte length already fits is
/// returned unchanged whatever the limit; only a cut needs room for the
/// three dots.
pub fn truncate_string(string: &str, length: usize) -> (r: String)
    requires
        length >= 3 || vstd::utf8::encode_utf8(string@).len() as usize <= length,
    ensures
        r@ == spec_truncate(string@, length as int),
{
    if string.len() > length {
        let (truncated, new_len) = unicode_truncate_prefix(string, length - 3);
        let mut new_string = String::from_str(truncated);
        proof {
            reveal_strlit(".");
            assert(new_string@ + char_repeat('.', new_len as int - new_len as int)
                =~= new_string@);
        }
        let mut i: usize = new_len;
        while i < length
            invariant
                new_len <= i <= length,
                new_string@ == unicode_truncated(string@, length as int - 3).0 + char_repeat(
                    '.',
                    i as int - new_len as int,
                ),
            decreases length - i,
        {
            new_string.append(".");
            proof {
                reveal_strlit(".");
                assert("."@ =~= seq!['.']);
                assert(char_repeat('.', i + 1 - new_len as int) =~= char_repeat(
                    '.',
                    i as int - new_len as int,
                ) + seq!['.']);
            }
            i = i + 1;
        }
        new_string
    } else {
        String::from_str(string)
    }
}

/// The uppercase hexadecimal digit character for `d` (0 through 15).
pub open spec fn hex_upper_char(d: nat) -> char {
    if d < 10 {
        crate::text::digit_char(d)
    } else if d == 10 {
        'A'
    } else if d == 11 {
        'B'
    } else if d == 12 {
        'C'
    } else if d == 13 {
        'D'
    } else if d == 14 {
        'E'
    } else {
        'F'
    }
}

/// The percent-encoding of one byte: itself when it is an ASCII
/// alphanumeric or one of `-`, `.`, `_`, `~`, else a `%` and its two
/// uppercase hexadecimal digits.
pub open spec fn spec_url_encode_byte(b: u8) -> Seq<char> {
    if (48 <= b <= 57) || (65 <= b <= 90) || (97 <= b <= 122) || b == 45 || b == 46 || b == 95
        || b == 126 {
        seq![b as char]
    } else {
        seq!['%', hex_upper_char((b / 16) as nat), hex_upper_char((b % 16) as nat)]
    }
}

/// The percent-encoding of a byte sequence, byte by byte.
pub open spec fn spec_url_encoded_bytes(bs: Seq<u8>) -> Seq<char>
    decreases bs.len(),
{
    if bs.len() == 0 {
        Seq::<char>::empty()
    } else {
        spec_url_encode_byte(bs[0]) + spec_url_encoded_bytes(bs.skip(1))
    }
}

/// The percent-encoding of a string: its UTF-8 bytes, each encoded as
/// `spec_url_encode_byte` states.
pub open spec fn spec_url_encoded(s: Seq<char>) -> Seq<char> {
    spec_url_encoded_bytes(vstd::utf8::encode_utf8(s))
}

/// Relies on `urlencoding::encode`: percent-encodes every UTF-8 byte
/// outside `A-Z a-z 0-9 - . _ ~` as a `%` and two uppercase hexadecimal
/// digits, leaving the others as they are.
#[verifier::external_body]
pub fn url_encode(s: &str) -> (r: String)
    ensures
        r@ == spec_url_encoded(s@),
{
    urlencoding::encode(s).into_owned()
}

/// The resolver endpoint with both parameters percent-encoded.
pub open spec fn spec_resolve_url(client_id: Seq<char>, url: Seq<char>) -> Seq<char> {
    "https://api-v2.soundcloud.com/resolve?client_id="@ + spec_url_encoded(client_id) + "&url="@
        + spec_url_encoded(url)
}

/// Builds the metadata-resolver request URL for a page URL.
pub fn make_resolve_url(client_id: &str, url: &str) -> (r: String)
    ensures
        r@ == spec_resolve_url(client_id@, url@),
{
    let mut s = String::new();
    s.append("https://api-v2.soundcloud.com/resolve?client_id=");
    let eci = url_encode(client_id);
    s.append(eci.as_str());
    s.append("&url=");
    let eu = url_encode(url);
    s.append(eu.as_str());
    proof {
        assert(s@ =~= spec_resolve_url(client_id@, url@));
    }
    s
}

} // verus!
