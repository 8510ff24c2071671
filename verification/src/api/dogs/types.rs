//! A dog picture as the service describes it.
use vstd::prelude::*;

verus! {

/// A dog picture.
#[derive(Clone, Debug)]
pub struct DogInfo {
    pub id: String,
    pub url: String,
    pub width: u32,
    pub height: u32,
}

} // verus!
