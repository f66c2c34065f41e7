use market::{PayloadError, StockfighterAPI, StockfighterErr, StockfighterVenue, StockfighterVenueStocks};

fn transport_failure() -> StockfighterErr {
    StockfighterErr::IO(std::io::Error::new(std::io::ErrorKind::Other, "connection reset"))
}

#[test]
fn venue_new_starts_not_ok() {
    let v = StockfighterVenue::new("ABCDEF".to_string());
    assert_eq!(v.venue, "ABCDEF");
    assert!(!v.ok);
    assert_eq!(v.error, "");
}

#[test]
fn venue_heartbeat_url_names_the_venue() {
    let v = StockfighterVenue::new("TESTEX".to_string());
    assert_eq!(v.heartbeat_url(), "https://api.stockfighter.io/ob/api/venues/TESTEX/heartbeat");
}

#[test]
fn venue_heartbeat_success_replaces_fields() {
    let mut v = StockfighterVenue::new("TESTEX".to_string());
    v.error = "stale".to_string();
    let r = v.heartbeat(Ok("{\"ok\":true,\"venue\":\"TESTEX\"}".to_string()));
    assert!(matches!(r, Ok(true)));
    assert!(v.ok);
    assert_eq!(v.venue, "TESTEX");
    assert_eq!(v.error, "");
}

#[test]
fn venue_heartbeat_success_takes_the_reply_venue() {
    let mut v = StockfighterVenue::new("OLDEX".to_string());
    let r = v.heartbeat(Ok("{\"ok\":false,\"venue\":\"NEWEX\",\"error\":\"wedged\"}".to_string()));
    assert!(matches!(r, Ok(false)));
    assert!(!v.ok);
    assert_eq!(v.venue, "NEWEX");
    assert_eq!(v.error, "wedged");
}

#[test]
fn venue_heartbeat_failure_shape_is_no_such_venue() {
    let mut v = StockfighterVenue::new("NOPE".to_string());
    v.ok = true;
    let r = v.heartbeat(Ok("{\"ok\":false,\"error\":\"No venue exists with that id\"}".to_string()));
    match r {
        Err(StockfighterErr::NoSuchVenue(m)) => assert_eq!(m, "No venue exists with that id"),
        other => panic!("unexpected {:?}", other),
    }
    assert!(!v.ok);
    assert_eq!(v.venue, "NOPE");
    assert_eq!(v.error, "");
}

#[test]
fn venue_heartbeat_malformed_payloads_are_serialization_errors() {
    for body in ["", "not json", "{\"ok\":", "[1,2,3]", "{\"venue\":\"X\"}", "{\"ok\":\"yes\",\"error\":\"x\"}", "null", "{\"ok\":true,\"venue\":7}"] {
        let mut v = StockfighterVenue::new("TESTEX".to_string());
        v.ok = true;
        let r = v.heartbeat(Ok(body.to_string()));
        assert!(matches!(r, Err(StockfighterErr::Serde(_))), "body {:?} gave {:?}", body, r);
        assert!(!v.ok);
        assert_eq!(v.venue, "TESTEX");
    }
}

#[test]
fn venue_heartbeat_shape_error_keeps_the_payload() {
    let mut v = StockfighterVenue::new("TESTEX".to_string());
    let r = v.heartbeat(Ok("{\"ok\":1}".to_string()));
    match r {
        Err(StockfighterErr::Serde(PayloadError::Shape { expected, payload })) => {
            assert_eq!(expected, "StockfighterVenue");
            assert_eq!(payload, "{\"ok\":1}");
        }
        other => panic!("unexpected {:?}", other),
    }
}

#[test]
fn venue_heartbeat_syntax_error_is_json_error() {
    let mut v = StockfighterVenue::new("TESTEX".to_string());
    let r = v.heartbeat(Ok("<html>".to_string()));
    assert!(matches!(r, Err(StockfighterErr::Serde(PayloadError::Json(_)))));
}

#[test]
fn venue_heartbeat_transport_failure_is_handed_back() {
    let mut v = StockfighterVenue::new("TESTEX".to_string());
    v.ok = true;
    let r = v.heartbeat(Err(transport_failure()));
    assert!(matches!(r, Err(StockfighterErr::IO(_))));
    assert!(!v.ok);
}

#[test]
fn api_new_and_url() {
    let api = StockfighterAPI::new();
    assert!(!api.ok);
    assert_eq!(api.error, "");
    assert_eq!(StockfighterAPI::heartbeat_url(), "https://api.stockfighter.io/ob/api/heartbeat");
}

#[test]
fn api_heartbeat_up() {
    let mut api = StockfighterAPI::new();
    let r = api.heartbeat(Ok("{\"ok\":true,\"error\":\"\"}".to_string()));
    assert!(matches!(r, Ok(true)));
    assert!(api.ok);
}

#[test]
fn api_heartbeat_down_keeps_the_message() {
    let mut api = StockfighterAPI::new();
    let r = api.heartbeat(Ok("{\"ok\":false,\"error\":\"maintenance\"}".to_string()));
    assert!(matches!(r, Ok(false)));
    assert!(!api.ok);
    assert_eq!(api.error, "maintenance");
}

#[test]
fn api_heartbeat_needs_error_member() {
    let mut api = StockfighterAPI::new();
    api.ok = true;
    let r = api.heartbeat(Ok("{\"ok\":true}".to_string()));
    assert!(matches!(r, Err(StockfighterErr::Serde(PayloadError::Shape { .. }))));
    assert!(!api.ok);
}

#[test]
fn api_heartbeat_transport_failure() {
    let mut api = StockfighterAPI::new();
    api.ok = true;
    api.error = "old".to_string();
    let r = api.heartbeat(Err(transport_failure()));
    assert!(matches!(r, Err(StockfighterErr::IO(_))));
    assert!(!api.ok);
    assert_eq!(api.error, "old");
}

#[test]
fn stock_listing_url_names_the_venue() {
    assert_eq!(
        StockfighterVenueStocks::stock_listing_url("TESTEX"),
        "https://api.stockfighter.io/ob/api/venues/TESTEX/stocks"
    );
}

#[test]
fn stock_listing_reads_symbols_in_order() {
    let mut listing = StockfighterVenueStocks::new();
    assert!(!listing.ok);
    assert!(listing.symbols.is_empty());
    let body = "{\"ok\":true,\"symbols\":[{\"name\":\"Foreign Owned Occluded Bridge Architecture Resources\",\"symbol\":\"FOOBAR\"},{\"name\":\"Second\",\"symbol\":\"SEC\"}]}";
    let r = listing.stock_listing(Ok(body.to_string()));
    assert!(matches!(r, Ok(true)));
    assert_eq!(listing.symbols.len(), 2);
    assert_eq!(listing.symbols[0].symbol, "FOOBAR");
    assert_eq!(listing.symbols[0].name, "Foreign Owned Occluded Bridge Architecture Resources");
    assert_eq!(listing.symbols[1].symbol, "SEC");
    assert_eq!(listing.symbols[1].name, "Second");
}

#[test]
fn stock_listing_empty_is_not_an_error() {
    let mut listing = StockfighterVenueStocks::new();
    let r = listing.stock_listing(Ok("{\"ok\":true,\"symbols\":[]}".to_string()));
    assert!(matches!(r, Ok(true)));
    assert!(listing.ok);
    assert!(listing.symbols.is_empty());
}

#[test]
fn stock_listing_error_leaves_listing() {
    let mut listing = StockfighterVenueStocks::new();
    listing
        .stock_listing(Ok("{\"ok\":true,\"symbols\":[{\"name\":\"A\",\"symbol\":\"AA\"}]}".to_string()))
        .unwrap();
    let r = listing.stock_listing(Ok("{\"ok\":true,\"symbols\":[{\"name\":\"B\"}]}".to_string()));
    assert!(matches!(r, Err(StockfighterErr::Serde(PayloadError::Shape { .. }))));
    assert!(listing.ok);
    assert_eq!(listing.symbols.len(), 1);
    assert_eq!(listing.symbols[0].symbol, "AA");
    let r = listing.stock_listing(Err(transport_failure()));
    assert!(matches!(r, Err(StockfighterErr::IO(_))));
    assert!(listing.ok);
}

#[test]
fn error_messages() {
    assert_eq!(StockfighterErr::NoSuchVenue("gone".to_string()).message(), "gone");
    assert_eq!(
        StockfighterErr::Serde(PayloadError::Shape { expected: "Quote".to_string(), payload: "{}".to_string() }).message(),
        "the payload is not a Quote: {}"
    );
    assert_eq!(transport_failure().message(), "connection reset");
}

#[test]
fn errors_convert_from_their_causes() {
    let io = std::io::Error::new(std::io::ErrorKind::Other, "broken pipe");
    assert!(matches!(StockfighterErr::from(io), StockfighterErr::IO(_)));
    let json = serde_json::from_str::<serde_json::Value>("{").unwrap_err();
    assert!(matches!(StockfighterErr::from(json), StockfighterErr::Serde(PayloadError::Json(_))));
    let hyper_error = hyper::Error::Method;
    assert!(matches!(StockfighterErr::from(hyper_error), StockfighterErr::Hyper(_)));
}
