//! Cat pictures.
pub mod types;

use vstd::prelude::*;
use crate::text::owned;
use types::CatInfo;

verus! {

/// The address that answers with a list holding a random cat picture.
pub open spec fn random_cat_url() -> Seq<char> {
    "https://api.thecatapi.com/v1/images/search"@
}

/// The address of a random cat search.
pub fn search_url() -> (r: String)
    ensures
        r@ == random_cat_url(),
{
    owned("https://api.thecatapi.com/v1/images/search")
}

/// The cat of a search answer: the first entry of the list.
pub fn first_cat(list: Vec<CatInfo>) -> (r: CatInfo)
    requires
        list@.len() > 0,
    ensures
        r == list@[0],
{
    let mut list = list;
    list.swap_remove(0)
}

} // verus!
