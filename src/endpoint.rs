//! Where the venue's API lives, and the paths of its endpoints.
use vstd::prelude::*;

verus! {

/// The root of every endpoint.
pub const STOCKFIGHTER_API_URL: &'static str = "https://api.stockfighter.io/ob/api";

/// The request header that carries the account's secret token.
pub const AUTH_HEADER: &'static str = "X-Starfighter-Authorization";

/// `<root>/heartbeat`: the API's liveness.
pub open spec fn api_heartbeat_path() -> Seq<char> {
    STOCKFIGHTER_API_URL@ + "/heartbeat"@
}

/// `<root>/venues/<venue>`.
pub open spec fn venue_path(venue: Seq<char>) -> Seq<char> {
    STOCKFIGHTER_API_URL@ + "/venues/"@ + venue
}

/// `<root>/venues/<venue>/stocks/<symbol>`.
pub open spec fn stock_path(venue: Seq<char>, symbol: Seq<char>) -> Seq<char> {
    venue_path(venue) + "/stocks/"@ + symbol
}

/// The URL `<root>/heartbeat`.
pub fn api_heartbeat_url() -> (r: String)
    ensures
        r@ == api_heartbeat_path(),
{
    let mut url = String::from_str(STOCKFIGHTER_API_URL);
    url.append("/heartbeat");
    url
}

/// The URL of `venue`, followed by `tail`.
pub fn venue_url(venue: &str, tail: &str) -> (r: String)
    ensures
        r@ == venue_path(venue@) + tail@,
{
    let mut url = String::from_str(STOCKFIGHTER_API_URL);
    url.append("/venues/");
    url.append(venue);
    url.append(tail);
    url
}

/// The URL of `symbol` at `venue`, followed by `tail`.
pub fn stock_url(venue: &str, symbol: &str, tail: &str) -> (r: String)
    ensures
        r@ == stock_path(venue@, symbol@) + tail@,
{
    let mut url = venue_url(venue, "/stocks/");
    url.append(symbol);
    url.append(tail);
    url
}

} // verus!
