//! Images as the waifu service describes them.
use vstd::prelude::*;

verus! {

/// A list of images.
#[derive(Clone, Debug)]
pub struct WaifuImages {
    pub images: Vec<WaifuImageInfo>,
}

/// One image.
#[derive(Clone, Debug)]
pub struct WaifuImageInfo {
    pub url: String,
    pub width: u32,
    pub height: u32,
    pub byte_size: u32,
    pub is_nsfw: bool,
}

} // verus!
