//! Library for assembling a single-file web-embeddable video from a
//! segmented audio stream and one still cover-art image, together with
//! the page/embed logic around it.

pub mod api;
pub mod assemble;
pub mod audio;
pub mod json;
pub mod mux;
pub mod pages;
pub mod pixels;
pub mod playlist;
pub mod resolve;
pub mod text;
pub mod video;

use vstd::prelude::*;

verus! {

/// The one terminal error an assembly surfaces, tagged by the stage that
/// failed: retrieval, image decode, video encode, audio stream parse, or
/// container writing.
#[derive(Clone, Copy, Debug, PartialEq, Eq, Structural)]
pub enum MediaError {
    Fetch,
    Image,
    Encode,
    Stream,
    Mux,
}

/// Maximum length for artist names.
pub const MAX_ARTIST_LEN: usize = 64;

/// Maximum length for track titles.
pub const MAX_TITLE_LEN: usize = 64;

/// Maximum length for track descriptions.
pub const MAX_DESCRIPTION_LEN: usize = 192;

} // verus!
