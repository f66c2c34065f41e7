use market::{OrderBook, PayloadError, Quote, StockfighterErr};

fn transport_failure() -> StockfighterErr {
    StockfighterErr::IO(std::io::Error::new(std::io::ErrorKind::TimedOut, "timed out"))
}

#[test]
fn order_book_new_is_empty() {
    let book = OrderBook::new("TESTEX".to_string(), "FOOBAR".to_string());
    assert!(!book.ok);
    assert_eq!(book.venue, "TESTEX");
    assert_eq!(book.symbol, "FOOBAR");
    assert!(book.bids.is_empty());
    assert!(book.asks.is_empty());
    assert_eq!(book.ts, "");
    assert_eq!(book.refresh_url(), "https://api.stockfighter.io/ob/api/venues/TESTEX/stocks/FOOBAR");
}

#[test]
fn order_book_keeps_server_order() {
    let mut book = OrderBook::new("TESTEX".to_string(), "FOOBAR".to_string());
    let body = "{\"ok\":true,\"venue\":\"TESTEX\",\"symbol\":\"FOOBAR\",\"bids\":[{\"price\":10,\"qty\":5,\"isBuy\":true},{\"price\":9,\"qty\":3,\"isBuy\":true}],\"asks\":[{\"price\":11,\"qty\":1,\"isBuy\":false},{\"price\":12,\"qty\":2,\"isBuy\":false},{\"price\":11,\"qty\":7,\"isBuy\":false}],\"ts\":\"2015-12-04T09:02:16.680986205Z\"}";
    let r = book.refresh(Ok(body.to_string()));
    assert!(matches!(r, Ok(true)));
    let bids: Vec<(i32, i32, bool)> = book.bids.iter().map(|b| (b.price, b.qty, b.is_buy)).collect();
    assert_eq!(bids, vec![(10, 5, true), (9, 3, true)]);
    let asks: Vec<(i32, i32, bool)> = book.asks.iter().map(|b| (b.price, b.qty, b.is_buy)).collect();
    assert_eq!(asks, vec![(11, 1, false), (12, 2, false), (11, 7, false)]);
    assert_eq!(book.ts, "2015-12-04T09:02:16.680986205Z");
}

#[test]
fn order_book_ascending_bids_not_resorted() {
    let mut book = OrderBook::new("TESTEX".to_string(), "FOOBAR".to_string());
    let body = "{\"ok\":true,\"venue\":\"TESTEX\",\"symbol\":\"FOOBAR\",\"bids\":[{\"price\":9,\"qty\":3,\"isBuy\":true},{\"price\":10,\"qty\":5,\"isBuy\":true}],\"asks\":[],\"ts\":\"t\"}";
    book.refresh(Ok(body.to_string())).unwrap();
    assert_eq!(book.bids[0].price, 9);
    assert_eq!(book.bids[1].price, 10);
    assert!(book.asks.is_empty());
}

#[test]
fn order_book_failure_keeps_stale_levels() {
    let mut book = OrderBook::new("TESTEX".to_string(), "FOOBAR".to_string());
    let body = "{\"ok\":true,\"venue\":\"TESTEX\",\"symbol\":\"FOOBAR\",\"bids\":[{\"price\":10,\"qty\":5,\"isBuy\":true}],\"asks\":[],\"ts\":\"t1\"}";
    book.refresh(Ok(body.to_string())).unwrap();
    let r = book.refresh(Ok("{\"ok\":true,\"venue\":\"TESTEX\",\"symbol\":\"FOOBAR\",\"bids\":null,\"asks\":[],\"ts\":\"t2\"}".to_string()));
    assert!(matches!(r, Err(StockfighterErr::Serde(PayloadError::Shape { .. }))));
    assert!(!book.ok);
    assert_eq!(book.bids.len(), 1);
    assert_eq!(book.ts, "t1");
    book.ok = true;
    let r = book.refresh(Err(transport_failure()));
    assert!(matches!(r, Err(StockfighterErr::IO(_))));
    assert!(!book.ok);
    assert_eq!(book.bids.len(), 1);
}

#[test]
fn order_book_level_needs_every_member() {
    let mut book = OrderBook::new("TESTEX".to_string(), "FOOBAR".to_string());
    let body = "{\"ok\":true,\"venue\":\"TESTEX\",\"symbol\":\"FOOBAR\",\"bids\":[{\"price\":10,\"qty\":5}],\"asks\":[],\"ts\":\"t\"}";
    assert!(matches!(book.refresh(Ok(body.to_string())), Err(StockfighterErr::Serde(_))));
}

#[test]
fn quote_new_is_zeroed() {
    let q = Quote::new("TESTEX".to_string(), "FOOBAR".to_string());
    assert!(!q.ok);
    assert_eq!(q.venue, "TESTEX");
    assert_eq!(q.symbol, "FOOBAR");
    assert_eq!((q.bid, q.ask, q.bid_size, q.ask_size, q.bid_depth, q.ask_depth), (0, 0, 0, 0, 0, 0));
    assert_eq!((q.last, q.last_size), (0, 0));
    assert_eq!(q.last_trade, "");
    assert_eq!(q.quote_time, "");
    assert_eq!(q.quote_url(), "https://api.stockfighter.io/ob/api/venues/TESTEX/stocks/FOOBAR/quote");
}

#[test]
fn quote_omitting_last_reads_as_zero() {
    let mut q = Quote::new("TESTEX".to_string(), "FOOBAR".to_string());
    q.last = 77;
    q.last_size = 8;
    let body = "{\"ok\":true,\"symbol\":\"FOOBAR\",\"venue\":\"TESTEX\",\"bid\":5100,\"ask\":5125,\"bidSize\":392,\"askSize\":711,\"bidDepth\":2748,\"askDepth\":2237,\"lastTrade\":\"2015-07-13T05:38:17.33640392Z\",\"quoteTime\":\"2015-07-13T05:38:17.33640392Z\"}";
    let r = q.get_quote(Ok(body.to_string()));
    assert!(matches!(r, Ok(true)));
    assert!(q.ok);
    assert_eq!(q.last, 0);
    assert_eq!(q.last_size, 0);
    assert_eq!((q.bid, q.ask, q.bid_size, q.ask_size, q.bid_depth, q.ask_depth), (5100, 5125, 392, 711, 2748, 2237));
    assert_eq!(q.last_trade, "2015-07-13T05:38:17.33640392Z");
}

#[test]
fn quote_omitting_text_reads_as_empty() {
    let mut q = Quote::new("TESTEX".to_string(), "FOOBAR".to_string());
    let r = q.get_quote(Ok("{\"ok\":true,\"bid\":3}".to_string()));
    assert!(matches!(r, Ok(true)));
    assert_eq!(q.symbol, "");
    assert_eq!(q.venue, "");
    assert_eq!(q.last_trade, "");
    assert_eq!(q.bid, 3);
}

#[test]
fn quote_needs_ok() {
    let mut q = Quote::new("TESTEX".to_string(), "FOOBAR".to_string());
    match q.get_quote(Ok("{\"symbol\":\"FOOBAR\"}".to_string())) {
        Err(StockfighterErr::Serde(PayloadError::Shape { expected, payload })) => {
            assert_eq!(expected, "Quote");
            assert_eq!(payload, "{\"symbol\":\"FOOBAR\"}");
        }
        other => panic!("unexpected {:?}", other),
    }
}

#[test]
fn quote_full_reply() {
    let mut q = Quote::new("TESTEX".to_string(), "FOOBAR".to_string());
    let body = "{\"ok\":true,\"symbol\":\"FOOBAR\",\"venue\":\"TESTEX\",\"bid\":1,\"ask\":2,\"bidSize\":3,\"askSize\":4,\"bidDepth\":5,\"askDepth\":6,\"last\":7,\"lastSize\":8,\"lastTrade\":\"lt\",\"quoteTime\":\"qt\"}";
    q.get_quote(Ok(body.to_string())).unwrap();
    assert_eq!((q.bid, q.ask, q.bid_size, q.ask_size, q.bid_depth, q.ask_depth, q.last, q.last_size), (1, 2, 3, 4, 5, 6, 7, 8));
    assert_eq!(q.quote_time, "qt");
}

#[test]
fn quote_not_ok_still_returns_true() {
    let mut q = Quote::new("TESTEX".to_string(), "FOOBAR".to_string());
    let r = q.get_quote(Ok("{\"ok\":false,\"symbol\":\"FOOBAR\",\"venue\":\"TESTEX\"}".to_string()));
    assert!(matches!(r, Ok(true)));
    assert!(!q.ok);
}

#[test]
fn quote_errors_keep_stale_fields() {
    let mut q = Quote::new("TESTEX".to_string(), "FOOBAR".to_string());
    q.get_quote(Ok("{\"ok\":true,\"symbol\":\"FOOBAR\",\"venue\":\"TESTEX\",\"bid\":42}".to_string())).unwrap();
    let r = q.get_quote(Ok("{\"ok\":true,\"symbol\":\"FOOBAR\",\"venue\":\"TESTEX\",\"bid\":\"high\"}".to_string()));
    assert!(matches!(r, Err(StockfighterErr::Serde(PayloadError::Shape { .. }))));
    assert!(!q.ok);
    assert_eq!(q.bid, 42);
    let r = q.get_quote(Ok("{\"ok\":true,\"symbol\":\"FOOBAR\",\"venue\":\"TESTEX\",\"bid\":2147483648}".to_string()));
    assert!(matches!(r, Err(StockfighterErr::Serde(_))));
    assert_eq!(q.bid, 42);
    let r = q.get_quote(Err(transport_failure()));
    assert!(matches!(r, Err(StockfighterErr::IO(_))));
    assert_eq!(q.bid, 42);
}
