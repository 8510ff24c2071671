//! Image searches on the waifu service.
pub mod types;

use vstd::prelude::*;
use vstd::string::*;
use crate::api::error::ApiError;
use crate::text::owned;
use types::{WaifuImageInfo, WaifuImages};

verus! {

/// `"true"` or `"false"`.
pub open spec fn bool_text(b: bool) -> Seq<char> {
    if b { "true"@ } else { "false"@ }
}

fn bool_str(b: bool) -> (r: &'static str)
    ensures
        r@ == bool_text(b),
{
    if b { "true" } else { "false" }
}

/// The query of an image search: the nsfw flag, then the gif flag if one is
/// given (written right after, as the service was asked it).
pub open spec fn search_params(is_nsfw: bool, gif: Option<bool>) -> Seq<char> {
    "is_nsfw="@ + bool_text(is_nsfw) + match gif {
        Some(g) => "gif="@ + bool_text(g),
        None => Seq::empty(),
    }
}

/// The address of an image search.
pub fn search_url(is_nsfw: bool, gif: Option<bool>) -> (r: String)
    ensures
        r@ == "https://api.waifu.im/search?"@ + search_params(is_nsfw, gif),
{
    let mut r = owned("https://api.waifu.im/search?");
    r.append("is_nsfw=");
    r.append(bool_str(is_nsfw));
    if let Some(g) = gif {
        r.append("gif=");
        r.append(bool_str(g));
    }
    assert(r@ =~= "https://api.waifu.im/search?"@ + search_params(is_nsfw, gif));
    r
}

/// The first image of a search answer; an answer without images is refused
/// with "No images found".
pub fn first_image(list: WaifuImages) -> (r: Result<WaifuImageInfo, ApiError>)
    ensures
        r is Ok <==> list.images@.len() > 0,
        r matches Ok(img) ==> img == list.images@[0],
        r matches Err(e) ==> e matches ApiError::Generic(s) && s@ == "No images found"@,
{
    let mut images = list.images;
    if images.len() == 0 {
        Err(ApiError::Generic(owned("No images found")))
    } else {
        Ok(images.swap_remove(0))
    }
}

} // verus!
