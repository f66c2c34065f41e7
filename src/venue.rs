//! Venue operations: the liveness of a venue and of the API, and the
//! instruments that a venue lists.
use vstd::prelude::*;
use crate::endpoint::{api_heartbeat_path, api_heartbeat_url, venue_path, venue_url};
use crate::error::{is_shape_error, PayloadError, StockfighterErr};
use crate::json::{
    bool_at, decode_all, field, items_view, json_text, lemma_array_view,
    lemma_decode_all_in_order, lemma_object_view, read_bool, read_text,
    read_text_or_empty, text_at, text_or_empty, get_field, Json, JsonView,
};

verus! {

/// A venue and what its last heartbeat said of it.
#[derive(Debug)]
pub struct StockfighterVenue {
    pub venue: String,
    pub ok: bool,
    pub error: String,
}

pub struct VenueView {
    pub venue: Seq<char>,
    pub ok: bool,
    pub error: Seq<char>,
}

impl View for StockfighterVenue {
    type V = VenueView;

    open spec fn view(&self) -> VenueView {
        VenueView { venue: self.venue@, ok: self.ok, error: self.error@ }
    }
}

/// The reply of a live venue: `ok` and `venue` must be present, `error` may
/// be left out.
pub open spec fn venue_of(j: JsonView) -> Option<VenueView> {
    match j {
        JsonView::Object(fs) => {
            let venue = text_at(fs, "venue"@);
            let ok = bool_at(fs, "ok"@);
            let error = text_or_empty(fs, "error"@);
            if venue is Some && ok is Some && error is Some {
                Some(VenueView { venue: venue->0, ok: ok->0, error: error->0 })
            } else {
                None
            }
        },
        _ => None,
    }
}

/// The reply for a venue that does not exist: `ok` and the server's `error`.
pub open spec fn missing_venue_of(j: JsonView) -> Option<(bool, Seq<char>)> {
    match j {
        JsonView::Object(fs) => {
            let ok = bool_at(fs, "ok"@);
            let error = text_at(fs, "error"@);
            if ok is Some && error is Some {
                Some((ok->0, error->0))
            } else {
                None
            }
        },
        _ => None,
    }
}

/// What a heartbeat leaves of a venue and returns, for the reply `body`.
pub open spec fn venue_heartbeat(
    before: VenueView,
    body: Seq<char>,
    after: VenueView,
    r: Result<bool, StockfighterErr>,
) -> bool {
    match json_text(body) {
        None => {
            &&& r matches Err(StockfighterErr::Serde(PayloadError::Json(_)))
            &&& after == VenueView { ok: false, ..before }
        },
        Some(j) => match venue_of(j) {
            Some(v) => after == v && r == Ok::<bool, StockfighterErr>(v.ok),
            None => match missing_venue_of(j) {
                Some((ok, message)) => {
                    &&& r matches Err(StockfighterErr::NoSuchVenue(m)) && m@ == message
                    &&& after == VenueView { ok, ..before }
                },
                None => {
                    &&& r matches Err(e) && is_shape_error(e, "StockfighterVenue"@, body)
                    &&& after == VenueView { ok: false, ..before }
                },
            },
        },
    }
}

impl StockfighterVenue {
    /// A venue not yet heard from.
    pub fn new(venue: String) -> (r: StockfighterVenue)
        ensures
            r@ == (VenueView { venue: venue@, ok: false, error: Seq::empty() }),
    {
        StockfighterVenue { venue: venue, ok: false, error: String::new() }
    }

    /// Reads a live venue's reply.
    pub fn from_json(j: &Json) -> (r: Option<StockfighterVenue>)
        ensures
            match r {
                Some(v) => venue_of(j@) == Some(v@),
                None => venue_of(j@) is None,
            },
    {
        match j {
            Json::Object(fields) => {
                proof {
                    lemma_object_view(*fields);
                }
                let venue = read_text(fields, "venue");
                let ok = read_bool(fields, "ok");
                let error = read_text_or_empty(fields, "error");
                match (venue, ok, error) {
                    (Some(venue), Some(ok), Some(error)) => Some(
                        StockfighterVenue { venue, ok, error },
                    ),
                    _ => None,
                }
            },
            _ => None,
        }
    }

    /// Reads the reply for a venue that does not exist.
    pub fn missing_from_json(j: &Json) -> (r: Option<(bool, String)>)
        ensures
            match r {
                Some((ok, message)) => missing_venue_of(j@) == Some((ok, message@)),
                None => missing_venue_of(j@) is None,
            },
    {
        match j {
            Json::Object(fields) => {
                proof {
                    lemma_object_view(*fields);
                }
                let ok = read_bool(fields, "ok");
                let error = read_text(fields, "error");
                match (ok, error) {
                    (Some(ok), Some(error)) => Some((ok, error)),
                    _ => None,
                }
            },
            _ => None,
        }
    }

    /// The URL of this venue's heartbeat.
    pub fn heartbeat_url(&self) -> (r: String)
        ensures
            r@ == venue_path(self.venue@) + "/heartbeat"@,
    {
        venue_url(self.venue.as_str(), "/heartbeat")
    }

    /// Takes in the outcome of a GET of `heartbeat_url`. A transport failure
    /// is handed back. A live venue's reply replaces this venue whole, and its
    /// `ok` is returned. A reply that the venue does not exist sets `ok` to
    /// the reply's and gives `NoSuchVenue` with the server's message. Any other
    /// payload is a `Serde` error. On every error but `NoSuchVenue`, `ok` is
    /// `false`; on every error the venue's other fields stay as they were.
    pub fn heartbeat(&mut self, response: Result<String, StockfighterErr>) -> (r: Result<
        bool,
        StockfighterErr,
    >)
        ensures
            match response {
                Err(e) => {
                    &&& r == Err::<bool, StockfighterErr>(e)
                    &&& final(self)@ == VenueView { ok: false, ..old(self)@ }
                },
                Ok(body) => venue_heartbeat(old(self)@, body@, final(self)@, r),
            },
            response matches Ok(body) && !(json_text(body@) matches Some(j) && (venue_of(j) is Some
                || missing_venue_of(j) is Some)) ==> r matches Err(StockfighterErr::Serde(_)),
    {
        self.ok = false;
        let body = match response {
            Ok(body) => body,
            Err(e) => return Err(e),
        };
        let doc = match Json::read(body.as_str()) {
            Ok(doc) => doc,
            Err(e) => return Err(StockfighterErr::Serde(e)),
        };
        match StockfighterVenue::from_json(&doc) {
            Some(venue) => {
                *self = venue;
                Ok(self.ok)
            },
            None => match StockfighterVenue::missing_from_json(&doc) {
                Some((ok, message)) => {
                    self.ok = ok;
                    Err(StockfighterErr::NoSuchVenue(message))
                },
                None => Err(StockfighterErr::shape("StockfighterVenue", body)),
            },
        }
    }
}

/// An instrument that a venue trades.
#[derive(Debug)]
pub struct Stock {
    pub name: String,
    pub symbol: String,
}

pub struct StockView {
    pub name: Seq<char>,
    pub symbol: Seq<char>,
}

impl View for Stock {
    type V = StockView;

    open spec fn view(&self) -> StockView {
        StockView { name: self.name@, symbol: self.symbol@ }
    }
}

pub open spec fn stock_of(j: JsonView) -> Option<StockView> {
    match j {
        JsonView::Object(fs) => {
            let name = text_at(fs, "name"@);
            let symbol = text_at(fs, "symbol"@);
            if name is Some && symbol is Some {
                Some(StockView { name: name->0, symbol: symbol->0 })
            } else {
                None
            }
        },
        _ => None,
    }
}

pub open spec fn stock_decoder() -> spec_fn(JsonView) -> Option<StockView> {
    |j: JsonView| stock_of(j)
}

/// An array of instruments, in the order given.
pub open spec fn stocks_of(items: Seq<JsonView>) -> Option<Seq<StockView>> {
    decode_all(items, stock_decoder())
}

pub open spec fn stocks_view(stocks: Seq<Stock>) -> Seq<StockView> {
    stocks.map_values(|s: Stock| s@)
}

impl Stock {
    pub fn from_json(j: &Json) -> (r: Option<Stock>)
        ensures
            match r {
                Some(s) => stock_of(j@) == Some(s@),
                None => stock_of(j@) is None,
            },
    {
        match j {
            Json::Object(fields) => {
                proof {
                    lemma_object_view(*fields);
                }
                let name = read_text(fields, "name");
                let symbol = read_text(fields, "symbol");
                match (name, symbol) {
                    (Some(name), Some(symbol)) => Some(Stock { name, symbol }),
                    _ => None,
                }
            },
            _ => None,
        }
    }

    /// Reads each of `items` as an instrument, keeping their order.
    pub fn all_from_json(items: &Vec<Json>) -> (r: Option<Vec<Stock>>)
        ensures
            match r {
                Some(v) => stocks_of(items_view(items@)) == Some(stocks_view(v@)),
                None => stocks_of(items_view(items@)) is None,
            },
    {
        let ghost all = items_view(items@);
        let mut out: Vec<Stock> = Vec::new();
        let mut i: usize = 0;
        assert(all.take(0) =~= Seq::<JsonView>::empty());
        assert(stocks_view(out@) =~= Seq::<StockView>::empty());
        while i < items.len()
            invariant
                i <= items.len(),
                all == items_view(items@),
                stocks_of(all.take(i as int)) == Some(stocks_view(out@)),
            decreases items.len() - i,
        {
            match Stock::from_json(&items[i]) {
                Some(s) => {
                    let ghost before = out@;
                    assert(all.take(i + 1).drop_last() =~= all.take(i as int));
                    out.push(s);
                    assert(stocks_view(out@) =~= stocks_view(before).push(out@.last()@));
                },
                None => {
                    proof {
                        lemma_decode_all_in_order(all, stock_decoder());
                        assert(stock_of(all[i as int]) is None);
                        assert((stock_decoder())(all[i as int]) is None);
                    }
                    return None;
                },
            }
            i = i + 1;
        }
        assert(all.take(items.len() as int) =~= all);
        Some(out)
    }
}

/// The instruments that a venue lists.
#[derive(Debug)]
pub struct StockfighterVenueStocks {
    pub ok: bool,
    pub symbols: Vec<Stock>,
}

pub struct VenueStocksView {
    pub ok: bool,
    pub symbols: Seq<StockView>,
}

impl View for StockfighterVenueStocks {
    type V = VenueStocksView;

    open spec fn view(&self) -> VenueStocksView {
        VenueStocksView { ok: self.ok, symbols: stocks_view(self.symbols@) }
    }
}

/// A listing reply: `ok`, and `symbols`, an array of instruments.
pub open spec fn venue_stocks_of(j: JsonView) -> Option<VenueStocksView> {
    match j {
        JsonView::Object(fs) => {
            let ok = bool_at(fs, "ok"@);
            let symbols = match field(fs, "symbols"@) {
                Some(JsonView::Array(items)) => stocks_of(items),
                _ => None,
            };
            if ok is Some && symbols is Some {
                Some(VenueStocksView { ok: ok->0, symbols: symbols->0 })
            } else {
                None
            }
        },
        _ => None,
    }
}

impl StockfighterVenueStocks {
    /// An empty listing, not yet fetched.
    pub fn new() -> (r: StockfighterVenueStocks)
        ensures
            r@ == (VenueStocksView { ok: false, symbols: Seq::empty() }),
    {
        let r = StockfighterVenueStocks { ok: false, symbols: Vec::new() };
        assert(r@.symbols =~= Seq::<StockView>::empty());
        r
    }

    pub fn from_json(j: &Json) -> (r: Option<StockfighterVenueStocks>)
        ensures
            match r {
                Some(v) => venue_stocks_of(j@) == Some(v@),
                None => venue_stocks_of(j@) is None,
            },
    {
        match j {
            Json::Object(fields) => {
                proof {
                    lemma_object_view(*fields);
                }
                let ok = read_bool(fields, "ok");
                let symbols = match get_field(fields, "symbols") {
                    Some(Json::Array(items)) => {
                        proof {
                            lemma_array_view(*items);
                        }
                        Stock::all_from_json(items)
                    },
                    _ => None,
                };
                match (ok, symbols) {
                    (Some(ok), Some(symbols)) => Some(StockfighterVenueStocks { ok, symbols }),
                    _ => None,
                }
            },
            _ => None,
        }
    }

    /// The URL of the instruments that `venue` lists.
    pub fn stock_listing_url(venue: &str) -> (r: String)
        ensures
            r@ == venue_path(venue@) + "/stocks"@,
    {
        venue_url(venue, "/stocks")
    }

    /// Takes in the outcome of a GET of `stock_listing_url`. A listing reply
    /// replaces this listing whole and its `ok` is returned; on any error the
    /// listing stays as it was.
    pub fn stock_listing(&mut self, response: Result<String, StockfighterErr>) -> (r: Result<
        bool,
        StockfighterErr,
    >)
        ensures
            match response {
                Err(e) => r == Err::<bool, StockfighterErr>(e) && final(self)@ == old(self)@,
                Ok(body) => match json_text(body@) {
                    None => {
                        &&& r matches Err(StockfighterErr::Serde(PayloadError::Json(_)))
                        &&& final(self)@ == old(self)@
                    },
                    Some(j) => match venue_stocks_of(j) {
                        Some(v) => final(self)@ == v && r == Ok::<bool, StockfighterErr>(v.ok),
                        None => {
                            &&& r matches Err(e) && is_shape_error(e, "StockfighterVenueStocks"@, body@)
                            &&& final(self)@ == old(self)@
                        },
                    },
                },
            },
    {
        let body = match response {
            Ok(body) => body,
            Err(e) => return Err(e),
        };
        let doc = match Json::read(body.as_str()) {
            Ok(doc) => doc,
            Err(e) => return Err(StockfighterErr::Serde(e)),
        };
        match StockfighterVenueStocks::from_json(&doc) {
            Some(listing) => {
                *self = listing;
                Ok(self.ok)
            },
            None => Err(StockfighterErr::shape("StockfighterVenueStocks", body)),
        }
    }
}

/// The API's liveness, as its last heartbeat reported it.
#[derive(Debug)]
pub struct StockfighterAPI {
    pub error: String,
    pub ok: bool,
}

pub struct ApiView {
    pub error: Seq<char>,
    pub ok: bool,
}

impl View for StockfighterAPI {
    type V = ApiView;

    open spec fn view(&self) -> ApiView {
        ApiView { error: self.error@, ok: self.ok }
    }
}

/// The API heartbeat's one shape, up or down: `ok` and `error`.
pub open spec fn api_of(j: JsonView) -> Option<ApiView> {
    match j {
        JsonView::Object(fs) => {
            let error = text_at(fs, "error"@);
            let ok = bool_at(fs, "ok"@);
            if error is Some && ok is Some {
                Some(ApiView { error: error->0, ok: ok->0 })
            } else {
                None
            }
        },
        _ => None,
    }
}

impl StockfighterAPI {
    /// The API, not yet heard from.
    pub fn new() -> (r: StockfighterAPI)
        ensures
            r@ == (ApiView { error: Seq::empty(), ok: false }),
    {
        StockfighterAPI { error: String::new(), ok: false }
    }

    pub fn from_json(j: &Json) -> (r: Option<StockfighterAPI>)
        ensures
            match r {
                Some(a) => api_of(j@) == Some(a@),
                None => api_of(j@) is None,
            },
    {
        match j {
            Json::Object(fields) => {
                proof {
                    lemma_object_view(*fields);
                }
                let error = read_text(fields, "error");
                let ok = read_bool(fields, "ok");
                match (error, ok) {
                    (Some(error), Some(ok)) => Some(StockfighterAPI { error, ok }),
                    _ => None,
                }
            },
            _ => None,
        }
    }

    /// The URL of the API's heartbeat.
    pub fn heartbeat_url() -> (r: String)
        ensures
            r@ == api_heartbeat_path(),
    {
        api_heartbeat_url()
    }

    /// Takes in the outcome of a GET of `heartbeat_url`. A heartbeat reply
    /// replaces this state whole and its `ok` is returned; on any error `ok`
    /// is `false` and `error` stays as it was.
    pub fn heartbeat(&mut self, response: Result<String, StockfighterErr>) -> (r: Result<
        bool,
        StockfighterErr,
    >)
        ensures
            match response {
                Err(e) => {
                    &&& r == Err::<bool, StockfighterErr>(e)
                    &&& final(self)@ == ApiView { ok: false, ..old(self)@ }
                },
                Ok(body) => match json_text(body@) {
                    None => {
                        &&& r matches Err(StockfighterErr::Serde(PayloadError::Json(_)))
                        &&& final(self)@ == ApiView { ok: false, ..old(self)@ }
                    },
                    Some(j) => match api_of(j) {
                        Some(a) => final(self)@ == a && r == Ok::<bool, StockfighterErr>(a.ok),
                        None => {
                            &&& r matches Err(e) && is_shape_error(e, "StockfighterAPI"@, body@)
                            &&& final(self)@ == ApiView { ok: false, ..old(self)@ }
                        },
                    },
                },
            },
    {
        self.ok = false;
        let body = match response {
            Ok(body) => body,
            Err(e) => return Err(e),
        };
        let doc = match Json::read(body.as_str()) {
            Ok(doc) => doc,
            Err(e) => return Err(StockfighterErr::Serde(e)),
        };
        match StockfighterAPI::from_json(&doc) {
            Some(api) => {
                *self = api;
                Ok(self.ok)
            },
            None => Err(StockfighterErr::shape("StockfighterAPI", body)),
        }
    }
}

} // verus!
