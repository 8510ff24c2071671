//! A cat picture as the service describes it.
use vstd::prelude::*;

verus! {

/// A cat picture.
#[derive(Clone, Debug)]
pub struct CatInfo {
    pub id: String,
    pub url: String,
    pub width: u32,
    pub height: u32,
}

} // verus!
