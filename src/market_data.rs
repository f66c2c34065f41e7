//! Market-data snapshots: a symbol's order book and its quote, each refreshed
//! in place from the venue's reply.
use vstd::prelude::*;
use crate::endpoint::{stock_path, stock_url};
use crate::error::{is_shape_error, PayloadError, StockfighterErr};
use crate::json::{
    bool_at, decode_all, field, fields_view, int_at, int_or_zero, items_view, json_text, lemma_array_view,
    lemma_decode_all_in_order, lemma_field_push, lemma_object_view, read_bool, read_int,
    read_int_or_zero, read_text, read_text_or_empty, text_at, text_or_empty, get_field, Json,
    JsonView,
};

verus! {

/// One price level of a book: a price, the quantity resting at it, and its side.
#[derive(Debug)]
pub struct Bid {
    pub price: i32,
    pub qty: i32,
    pub is_buy: bool,
}

pub struct BidView {
    pub price: i32,
    pub qty: i32,
    pub is_buy: bool,
}

impl View for Bid {
    type V = BidView;

    open spec fn view(&self) -> BidView {
        BidView { price: self.price, qty: self.qty, is_buy: self.is_buy }
    }
}

/// A price level: `price`, `qty` and `isBuy`, all present.
pub open spec fn bid_of(j: JsonView) -> Option<BidView> {
    match j {
        JsonView::Object(fs) => {
            let price = int_at(fs, "price"@);
            let qty = int_at(fs, "qty"@);
            let is_buy = bool_at(fs, "isBuy"@);
            if price is Some && qty is Some && is_buy is Some {
                Some(BidView { price: price->0, qty: qty->0, is_buy: is_buy->0 })
            } else {
                None
            }
        },
        _ => None,
    }
}

pub open spec fn bid_decoder() -> spec_fn(JsonView) -> Option<BidView> {
    |j: JsonView| bid_of(j)
}

/// An array of price levels, in the order the server gave them.
pub open spec fn bids_of(items: Seq<JsonView>) -> Option<Seq<BidView>> {
    decode_all(items, bid_decoder())
}

pub open spec fn bids_view(bids: Seq<Bid>) -> Seq<BidView> {
    bids.map_values(|b: Bid| b@)
}

/// The price levels of the member `key`, which must be an array.
pub open spec fn levels_at(fs: Seq<(Seq<char>, JsonView)>, key: Seq<char>) -> Option<Seq<BidView>> {
    match field(fs, key) {
        Some(JsonView::Array(items)) => bids_of(items),
        _ => None,
    }
}

impl Bid {
    pub fn from_json(j: &Json) -> (r: Option<Bid>)
        ensures
            match r {
                Some(b) => bid_of(j@) == Some(b@),
                None => bid_of(j@) is None,
            },
    {
        match j {
            Json::Object(fields) => {
                proof {
                    lemma_object_view(*fields);
                }
                let price = read_int(fields, "price");
                let qty = read_int(fields, "qty");
                let is_buy = read_bool(fields, "isBuy");
                match (price, qty, is_buy) {
                    (Some(price), Some(qty), Some(is_buy)) => Some(Bid { price, qty, is_buy }),
                    _ => None,
                }
            },
            _ => None,
        }
    }

    /// Reads each of `items` as a price level, keeping their order.
    pub fn all_from_json(items: &Vec<Json>) -> (r: Option<Vec<Bid>>)
        ensures
            match r {
                Some(v) => bids_of(items_view(items@)) == Some(bids_view(v@)),
                None => bids_of(items_view(items@)) is None,
            },
    {
        let ghost all = items_view(items@);
        let mut out: Vec<Bid> = Vec::new();
        let mut i: usize = 0;
        assert(all.take(0) =~= Seq::<JsonView>::empty());
        assert(bids_view(out@) =~= Seq::<BidView>::empty());
        while i < items.len()
            invariant
                i <= items.len(),
                all == items_view(items@),
                bids_of(all.take(i as int)) == Some(bids_view(out@)),
            decreases items.len() - i,
        {
            match Bid::from_json(&items[i]) {
                Some(b) => {
                    let ghost before = out@;
                    assert(all.take(i + 1).drop_last() =~= all.take(i as int));
                    out.push(b);
                    assert(bids_view(out@) =~= bids_view(before).push(out@.last()@));
                },
                None => {
                    proof {
                        lemma_decode_all_in_order(all, bid_decoder());
                        assert((bid_decoder())(all[i as int]) is None);
                    }
                    return None;
                },
            }
            i = i + 1;
        }
        assert(all.take(items.len() as int) =~= all);
        Some(out)
    }

    /// Reads the member `key` of an object as an array of price levels.
    fn levels_from_json(fields: &Vec<(String, Json)>, key: &str) -> (r: Option<Vec<Bid>>)
        ensures
            match r {
                Some(v) => levels_at(fields_view(fields@), key@) == Some(bids_view(v@)),
                None => levels_at(fields_view(fields@), key@) is None,
            },
    {
        match get_field(fields, key) {
            Some(Json::Array(items)) => {
                proof {
                    lemma_array_view(*items);
                }
                Bid::all_from_json(items)
            },
            _ => None,
        }
    }
}

/// The resting bids and asks for a symbol at a venue.
#[derive(Debug)]
pub struct OrderBook {
    pub ok: bool,
    pub venue: String,
    pub symbol: String,
    pub bids: Vec<Bid>,
    pub asks: Vec<Bid>,
    pub ts: String,
}

pub struct OrderBookView {
    pub ok: bool,
    pub venue: Seq<char>,
    pub symbol: Seq<char>,
    pub bids: Seq<BidView>,
    pub asks: Seq<BidView>,
    pub ts: Seq<char>,
}

impl View for OrderBook {
    type V = OrderBookView;

    open spec fn view(&self) -> OrderBookView {
        OrderBookView {
            ok: self.ok,
            venue: self.venue@,
            symbol: self.symbol@,
            bids: bids_view(self.bids@),
            asks: bids_view(self.asks@),
            ts: self.ts@,
        }
    }
}

/// A book reply: every member present, `bids` and `asks` arrays of price levels.
pub open spec fn order_book_of(j: JsonView) -> Option<OrderBookView> {
    match j {
        JsonView::Object(fs) => {
            let ok = bool_at(fs, "ok"@);
            let venue = text_at(fs, "venue"@);
            let symbol = text_at(fs, "symbol"@);
            let bids = levels_at(fs, "bids"@);
            let asks = levels_at(fs, "asks"@);
            let ts = text_at(fs, "ts"@);
            if ok is Some && venue is Some && symbol is Some && bids is Some && asks is Some
                && ts is Some {
                Some(
                    OrderBookView {
                        ok: ok->0,
                        venue: venue->0,
                        symbol: symbol->0,
                        bids: bids->0,
                        asks: asks->0,
                        ts: ts->0,
                    },
                )
            } else {
                None
            }
        },
        _ => None,
    }
}

/// A decoded book keeps the server's order on both sides: its k-th bid is the
/// k-th price level of the reply's `bids`, and likewise for `asks`, with none
/// added, dropped or moved.
pub proof fn lemma_book_keeps_order(fs: Seq<(Seq<char>, JsonView)>)
    requires
        order_book_of(JsonView::Object(fs)) is Some,
    ensures
        field(fs, "bids"@) matches Some(JsonView::Array(items)) && {
            let book = order_book_of(JsonView::Object(fs))->0;
            &&& book.bids.len() == items.len()
            &&& forall|k: int| 0 <= k < items.len() ==> bid_of(#[trigger] items[k]) == Some(book.bids[k])
        },
        field(fs, "asks"@) matches Some(JsonView::Array(items)) && {
            let book = order_book_of(JsonView::Object(fs))->0;
            &&& book.asks.len() == items.len()
            &&& forall|k: int| 0 <= k < items.len() ==> bid_of(#[trigger] items[k]) == Some(book.asks[k])
        },
{
    let bids = field(fs, "bids"@)->Some_0->Array_0;
    let asks = field(fs, "asks"@)->Some_0->Array_0;
    lemma_decode_all_in_order(bids, bid_decoder());
    lemma_decode_all_in_order(asks, bid_decoder());
    assert forall|k: int| 0 <= k < bids.len() implies (bid_decoder())(#[trigger] bids[k]) == bid_of(bids[k]) by {}
    assert forall|k: int| 0 <= k < asks.len() implies (bid_decoder())(#[trigger] asks[k]) == bid_of(asks[k]) by {}
}

impl OrderBook {
    /// An empty book for `stock` at `venue`, not yet fetched.
    pub fn new(venue: String, stock: String) -> (r: OrderBook)
        ensures
            r@ == (OrderBookView {
                ok: false,
                venue: venue@,
                symbol: stock@,
                bids: Seq::empty(),
                asks: Seq::empty(),
                ts: Seq::empty(),
            }),
    {
        let r = OrderBook {
            ok: false,
            venue: venue,
            symbol: stock,
            bids: Vec::new(),
            asks: Vec::new(),
            ts: String::new(),
        };
        assert(r@.bids =~= Seq::<BidView>::empty());
        assert(r@.asks =~= Seq::<BidView>::empty());
        r
    }

    /// Reads a book reply.
    pub fn from_json(j: &Json) -> (r: Option<OrderBook>)
        ensures
            match r {
                Some(b) => order_book_of(j@) == Some(b@),
                None => order_book_of(j@) is None,
            },
    {
        match j {
            Json::Object(fields) => {
                proof {
                    lemma_object_view(*fields);
                }
                let ok = read_bool(fields, "ok");
                let venue = read_text(fields, "venue");
                let symbol = read_text(fields, "symbol");
                let bids = Bid::levels_from_json(fields, "bids");
                let asks = Bid::levels_from_json(fields, "asks");
                let ts = read_text(fields, "ts");
                match (ok, venue, symbol, bids, asks, ts) {
                    (Some(ok), Some(venue), Some(symbol), Some(bids), Some(asks), Some(ts)) => Some(
                        OrderBook { ok, venue, symbol, bids, asks, ts },
                    ),
                    _ => None,
                }
            },
            _ => None,
        }
    }

    /// The URL of this book.
    pub fn refresh_url(&self) -> (r: String)
        ensures
            r@ == stock_path(self.venue@, self.symbol@),
    {
        let url = stock_url(self.venue.as_str(), self.symbol.as_str(), "");
        proof {
            reveal_strlit("");
            assert(url@ =~= stock_path(self.venue@, self.symbol@));
        }
        url
    }

    /// Takes in the outcome of a GET of `refresh_url`. A book reply replaces
    /// this book whole and its `ok` is returned; on any error `ok` is `false`
    /// and every other field stays as it was.
    pub fn refresh(&mut self, response: Result<String, StockfighterErr>) -> (r: Result<
        bool,
        StockfighterErr,
    >)
        ensures
            match response {
                Err(e) => {
                    &&& r == Err::<bool, StockfighterErr>(e)
                    &&& final(self)@ == OrderBookView { ok: false, ..old(self)@ }
                },
                Ok(body) => match json_text(body@) {
                    None => {
                        &&& r matches Err(StockfighterErr::Serde(PayloadError::Json(_)))
                        &&& final(self)@ == OrderBookView { ok: false, ..old(self)@ }
                    },
                    Some(j) => match order_book_of(j) {
                        Some(b) => final(self)@ == b && r == Ok::<bool, StockfighterErr>(b.ok),
                        None => {
                            &&& r matches Err(e) && is_shape_error(e, "OrderBook"@, body@)
                            &&& final(self)@ == OrderBookView { ok: false, ..old(self)@ }
                        },
                    },
                },
            },
    {
        self.ok = false;
        let body = match response {
            Ok(body) => body,
            Err(e) => return Err(e),
        };
        let doc = match Json::read(body.as_str()) {
            Ok(doc) => doc,
            Err(e) => return Err(StockfighterErr::Serde(e)),
        };
        match OrderBook::from_json(&doc) {
            Some(book) => {
                *self = book;
                Ok(self.ok)
            },
            None => Err(StockfighterErr::shape("OrderBook", body)),
        }
    }
}

/// The top of a symbol's book and its last trade.
#[derive(Debug)]
pub struct Quote {
    pub ok: bool,
    pub symbol: String,
    pub venue: String,
    pub bid: i32,
    pub ask: i32,
    pub bid_size: i32,
    pub ask_size: i32,
    pub bid_depth: i32,
    pub ask_depth: i32,
    pub last: i32,
    pub last_size: i32,
    pub last_trade: String,
    pub quote_time: String,
}

pub struct QuoteView {
    pub ok: bool,
    pub symbol: Seq<char>,
    pub venue: Seq<char>,
    pub bid: i32,
    pub ask: i32,
    pub bid_size: i32,
    pub ask_size: i32,
    pub bid_depth: i32,
    pub ask_depth: i32,
    pub last: i32,
    pub last_size: i32,
    pub last_trade: Seq<char>,
    pub quote_time: Seq<char>,
}

impl View for Quote {
    type V = QuoteView;

    open spec fn view(&self) -> QuoteView {
        QuoteView {
            ok: self.ok,
            symbol: self.symbol@,
            venue: self.venue@,
            bid: self.bid,
            ask: self.ask,
            bid_size: self.bid_size,
            ask_size: self.ask_size,
            bid_depth: self.bid_depth,
            ask_depth: self.ask_depth,
            last: self.last,
            last_size: self.last_size,
            last_trade: self.last_trade@,
            quote_time: self.quote_time@,
        }
    }
}

/// A quote reply: `ok` present; a number the server leaves out is zero, a
/// text it leaves out is empty.
pub open spec fn quote_of(j: JsonView) -> Option<QuoteView> {
    match j {
        JsonView::Object(fs) => {
            let ok = bool_at(fs, "ok"@);
            let symbol = text_or_empty(fs, "symbol"@);
            let venue = text_or_empty(fs, "venue"@);
            let bid = int_or_zero(fs, "bid"@);
            let ask = int_or_zero(fs, "ask"@);
            let bid_size = int_or_zero(fs, "bidSize"@);
            let ask_size = int_or_zero(fs, "askSize"@);
            let bid_depth = int_or_zero(fs, "bidDepth"@);
            let ask_depth = int_or_zero(fs, "askDepth"@);
            let last = int_or_zero(fs, "last"@);
            let last_size = int_or_zero(fs, "lastSize"@);
            let last_trade = text_or_empty(fs, "lastTrade"@);
            let quote_time = text_or_empty(fs, "quoteTime"@);
            if ok is Some && symbol is Some && venue is Some && bid is Some && ask is Some
                && bid_size is Some && ask_size is Some && bid_depth is Some && ask_depth is Some
                && last is Some && last_size is Some && last_trade is Some && quote_time is Some {
                Some(
                    QuoteView {
                        ok: ok->0,
                        symbol: symbol->0,
                        venue: venue->0,
                        bid: bid->0,
                        ask: ask->0,
                        bid_size: bid_size->0,
                        ask_size: ask_size->0,
                        bid_depth: bid_depth->0,
                        ask_depth: ask_depth->0,
                        last: last->0,
                        last_size: last_size->0,
                        last_trade: last_trade->0,
                        quote_time: quote_time->0,
                    },
                )
            } else {
                None
            }
        },
        _ => None,
    }
}

/// Leaving `last` and `lastSize` out of a quote reply is the same as giving
/// both as zero: the reply reads to the same quote, or fails alike, and a
/// quote read from it has `last` and `last_size` zero.
pub proof fn lemma_quote_omitted_last(fs: Seq<(Seq<char>, JsonView)>)
    requires
        field(fs, "last"@) is None,
        field(fs, "lastSize"@) is None,
    ensures
        quote_of(JsonView::Object(fs)) == quote_of(
            JsonView::Object(
                fs.push(("last"@, JsonView::Number(Some(0int)))).push(
                    ("lastSize"@, JsonView::Number(Some(0int))),
                ),
            ),
        ),
        quote_of(JsonView::Object(fs)) matches Some(q) ==> q.last == 0 && q.last_size == 0,
{
    let e1 = ("last"@, JsonView::Number(Some(0int)));
    let e2 = ("lastSize"@, JsonView::Number(Some(0int)));
    let fs1 = fs.push(e1);
    let fs2 = fs1.push(e2);
    reveal_strlit("last");
    reveal_strlit("lastSize");
    reveal_strlit("ok");
    reveal_strlit("symbol");
    reveal_strlit("venue");
    reveal_strlit("bid");
    reveal_strlit("ask");
    reveal_strlit("bidSize");
    reveal_strlit("askSize");
    reveal_strlit("bidDepth");
    reveal_strlit("askDepth");
    reveal_strlit("lastTrade");
    reveal_strlit("quoteTime");
    assert("last"@.len() == 4 && "lastSize"@.len() == 8 && "lastSize"@[0] == 'l');
    assert("ok"@.len() == 2 && "symbol"@.len() == 6 && "venue"@.len() == 5);
    assert("bid"@.len() == 3 && "ask"@.len() == 3 && "bidSize"@.len() == 7);
    assert("askSize"@.len() == 7 && "lastTrade"@.len() == 9 && "quoteTime"@.len() == 9);
    assert("bidDepth"@.len() == 8 && "bidDepth"@[0] == 'b');
    assert("askDepth"@.len() == 8 && "askDepth"@[0] == 'a');
    assert forall|key: Seq<char>| key != "last"@ && key != "lastSize"@ implies #[trigger] field(
        fs2,
        key,
    ) == field(fs, key) by {
        lemma_field_push(fs, e1, key);
        lemma_field_push(fs1, e2, key);
    }
    lemma_field_push(fs, e1, "last"@);
    lemma_field_push(fs1, e2, "last"@);
    lemma_field_push(fs, e1, "lastSize"@);
    lemma_field_push(fs1, e2, "lastSize"@);
    assert(field(fs2, "ok"@) == field(fs, "ok"@));
    assert(field(fs2, "symbol"@) == field(fs, "symbol"@));
    assert(field(fs2, "venue"@) == field(fs, "venue"@));
    assert(field(fs2, "bid"@) == field(fs, "bid"@));
    assert(field(fs2, "ask"@) == field(fs, "ask"@));
    assert(field(fs2, "bidSize"@) == field(fs, "bidSize"@));
    assert(field(fs2, "askSize"@) == field(fs, "askSize"@));
    assert(field(fs2, "bidDepth"@) == field(fs, "bidDepth"@));
    assert(field(fs2, "askDepth"@) == field(fs, "askDepth"@));
    assert(field(fs2, "lastTrade"@) == field(fs, "lastTrade"@));
    assert(field(fs2, "quoteTime"@) == field(fs, "quoteTime"@));
}

impl Quote {
    /// An empty quote for `symbol` at `venue`, not yet fetched.
    pub fn new(venue: String, symbol: String) -> (r: Quote)
        ensures
            r@ == (QuoteView {
                ok: false,
                symbol: symbol@,
                venue: venue@,
                bid: 0,
                ask: 0,
                bid_size: 0,
                ask_size: 0,
                bid_depth: 0,
                ask_depth: 0,
                last: 0,
                last_size: 0,
                last_trade: Seq::empty(),
                quote_time: Seq::empty(),
            }),
    {
        Quote {
            ok: false,
            symbol: symbol,
            venue: venue,
            bid: 0,
            ask: 0,
            bid_size: 0,
            ask_size: 0,
            bid_depth: 0,
            ask_depth: 0,
            last: 0,
            last_size: 0,
            last_trade: String::new(),
            quote_time: String::new(),
        }
    }

    /// Reads a quote reply.
    pub fn from_json(j: &Json) -> (r: Option<Quote>)
        ensures
            match r {
                Some(q) => quote_of(j@) == Some(q@),
                None => quote_of(j@) is None,
            },
    {
        match j {
            Json::Object(fields) => {
                proof {
                    lemma_object_view(*fields);
                }
                let ok = read_bool(fields, "ok");
                let symbol = read_text_or_empty(fields, "symbol");
                let venue = read_text_or_empty(fields, "venue");
                let bid = read_int_or_zero(fields, "bid");
                let ask = read_int_or_zero(fields, "ask");
                let bid_size = read_int_or_zero(fields, "bidSize");
                let ask_size = read_int_or_zero(fields, "askSize");
                let bid_depth = read_int_or_zero(fields, "bidDepth");
                let ask_depth = read_int_or_zero(fields, "askDepth");
                let last = read_int_or_zero(fields, "last");
                let last_size = read_int_or_zero(fields, "lastSize");
                let last_trade = read_text_or_empty(fields, "lastTrade");
                let quote_time = read_text_or_empty(fields, "quoteTime");
                if ok.is_none() || symbol.is_none() || venue.is_none() || bid.is_none()
                    || ask.is_none() || bid_size.is_none() || ask_size.is_none()
                    || bid_depth.is_none() || ask_depth.is_none() || last.is_none()
                    || last_size.is_none() || last_trade.is_none() || quote_time.is_none() {
                    return None;
                }
                Some(
                    Quote {
                        ok: ok.unwrap(),
                        symbol: symbol.unwrap(),
                        venue: venue.unwrap(),
                        bid: bid.unwrap(),
                        ask: ask.unwrap(),
                        bid_size: bid_size.unwrap(),
                        ask_size: ask_size.unwrap(),
                        bid_depth: bid_depth.unwrap(),
                        ask_depth: ask_depth.unwrap(),
                        last: last.unwrap(),
                        last_size: last_size.unwrap(),
                        last_trade: last_trade.unwrap(),
                        quote_time: quote_time.unwrap(),
                    },
                )
            },
            _ => None,
        }
    }

    /// The URL of this quote.
    pub fn quote_url(&self) -> (r: String)
        ensures
            r@ == stock_path(self.venue@, self.symbol@) + "/quote"@,
    {
        stock_url(self.venue.as_str(), self.symbol.as_str(), "/quote")
    }

    /// Takes in the outcome of a GET of `quote_url`. A quote reply replaces
    /// this quote whole, and `true` is returned whatever its `ok`; on any
    /// error `ok` is `false` and every other field stays as it was.
    pub fn get_quote(&mut self, response: Result<String, StockfighterErr>) -> (r: Result<
        bool,
        StockfighterErr,
    >)
        ensures
            match response {
                Err(e) => {
                    &&& r == Err::<bool, StockfighterErr>(e)
                    &&& final(self)@ == QuoteView { ok: false, ..old(self)@ }
                },
                Ok(body) => match json_text(body@) {
                    None => {
                        &&& r matches Err(StockfighterErr::Serde(PayloadError::Json(_)))
                        &&& final(self)@ == QuoteView { ok: false, ..old(self)@ }
                    },
                    Some(j) => match quote_of(j) {
                        Some(q) => final(self)@ == q && r == Ok::<bool, StockfighterErr>(true),
                        None => {
                            &&& r matches Err(e) && is_shape_error(e, "Quote"@, body@)
                            &&& final(self)@ == QuoteView { ok: false, ..old(self)@ }
                        },
                    },
                },
            },
    {
        self.ok = false;
        let body = match response {
            Ok(body) => body,
            Err(e) => return Err(e),
        };
        let doc = match Json::read(body.as_str()) {
            Ok(doc) => doc,
            Err(e) => return Err(StockfighterErr::Serde(e)),
        };
        match Quote::from_json(&doc) {
            Some(quote) => {
                *self = quote;
                Ok(true)
            },
            None => Err(StockfighterErr::shape("Quote", body)),
        }
    }
}

} // verus!
