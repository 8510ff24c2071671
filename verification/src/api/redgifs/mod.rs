//! Searches on the redgifs service.
pub mod types;

use vstd::prelude::*;
use vstd::string::*;
use crate::api::error::ApiError;
use crate::random::random_in_range;
use crate::text::{decimal, decimal_string, owned};

verus! {

/// The order in which search results come.
#[derive(Clone, Copy, Debug, PartialEq, Eq)]
pub enum SearchOrder {
    Best,
    Latest,
    Oldest,
    Trending,
    Top,
    Top7,
    Top24,
}

/// The name of an order in a search query.
pub open spec fn order_text(o: SearchOrder) -> Seq<char> {
    match o {
        SearchOrder::Best => "best"@,
        SearchOrder::Latest => "latest"@,
        SearchOrder::Oldest => "oldest"@,
        SearchOrder::Trending => "trending"@,
        SearchOrder::Top => "top"@,
        SearchOrder::Top7 => "top7"@,
        SearchOrder::Top24 => "top24"@,
    }
}

impl SearchOrder {
    /// The name of this order in a search query.
    pub fn to_string(&self) -> (r: String)
        ensures
            r@ == order_text(*self),
    {
        match self {
            SearchOrder::Best => owned("best"),
            SearchOrder::Latest => owned("latest"),
            SearchOrder::Oldest => owned("oldest"),
            SearchOrder::Trending => owned("trending"),
            SearchOrder::Top => owned("top"),
            SearchOrder::Top7 => owned("top7"),
            SearchOrder::Top24 => owned("top24"),
        }
    }
}

/// The address that hands out temporary access.
pub fn temporary_access_url() -> (r: String)
    ensures
        r@ == "https://api.redgifs.com/v2/auth/temporary"@,
{
    owned("https://api.redgifs.com/v2/auth/temporary")
}

/// The authorization header value for an access token.
pub fn bearer_value(token: &str) -> (r: String)
    ensures
        r@ == "Bearer "@ + token@,
{
    let mut r = owned("Bearer ");
    r.append(token);
    r
}

/// The address of a search: page, count and order, and the search text when
/// there is one.
pub open spec fn search_url_text(page: nat, count: nat, order: SearchOrder, search_text: Seq<char>) -> Seq<char> {
    "https://api.redgifs.com/v2/gifs/search?page="@ + decimal(page) + "&count="@ + decimal(count)
        + "&order="@ + order_text(order) + if search_text.len() == 0 {
        Seq::empty()
    } else {
        "&search_text="@ + search_text
    }
}

/// The address of a search.
pub fn search_url(page: u32, count: u32, order: SearchOrder, search_text: &str) -> (r: String)
    ensures
        r@ == search_url_text(page as nat, count as nat, order, search_text@),
{
    let mut r = owned("https://api.redgifs.com/v2/gifs/search?page=");
    let p = decimal_string(page as u64);
    r.append(p.as_str());
    r.append("&count=");
    let c = decimal_string(count as u64);
    r.append(c.as_str());
    r.append("&order=");
    let o = order.to_string();
    r.append(o.as_str());
    if search_text.is_empty() {
        assert(r@ =~= search_url_text(page as nat, count as nat, order, search_text@));
    } else {
        r.append("&search_text=");
        r.append(search_text);
    }
    r
}

/// The error for an error answer: the text it carries.
pub fn response_error(answer: types::Error) -> (e: ApiError)
    ensures
        e matches ApiError::ResponseError(s) && s == answer.error.message,
{
    ApiError::ResponseError(answer.error.message)
}

/// A search page drawn at random from `1..100`.
pub fn random_search_page() -> (r: u32)
    ensures
        1 <= r < 100,
{
    random_in_range(1, 100) as u32
}

/// The link posted for a search answer: the high-definition address of a
/// clip drawn at random, or empty text when that clip has none.
pub fn pick_random_link(hd_urls: &Vec<Option<String>>) -> (r: String)
    requires
        hd_urls@.len() > 0,
    ensures
        exists|i: int| 0 <= i < hd_urls@.len() && match #[trigger] hd_urls@[i] {
            Some(u) => r@ == u@,
            None => r@ == Seq::<char>::empty(),
        },
{
    let i = random_in_range(0, hd_urls.len());
    match &hd_urls[i] {
        Some(u) => u.clone(),
        None => String::new(),
    }
}

} // verus!
