//! A client library for a simulated equities-trading venue: the requests it
//! sends and the replies it reads, with the decisions between them verified.
//!
//! Each operation is split at the network. The library builds the URL and the
//! body of a request; the caller sends it and hands the outcome back to the
//! operation, which reads the reply, updates the caller's object and says what
//! happened.
pub mod endpoint;
pub mod error;
pub mod json;
pub mod market_data;
pub mod order;
pub mod venue;

pub use endpoint::{AUTH_HEADER, STOCKFIGHTER_API_URL};
pub use error::{PayloadError, StockfighterErr};
pub use json::Json;
pub use market_data::{Bid, OrderBook, Quote};
pub use order::{Order, OrderFill, OrderResponse, OrderType};
pub use venue::{Stock, StockfighterAPI, StockfighterVenue, StockfighterVenueStocks};
