//! The one error type of the library: a transport failure, a reply that could
//! not be read, or a venue that does not exist.
use vstd::prelude::*;

verus! {

#[verifier::external_type_specification]
#[verifier::external_body]
pub struct ExHyperError(hyper::Error);

#[verifier::external_type_specification]
#[verifier::external_body]
pub struct ExIoError(std::io::Error);

/// Why a reply's payload could not be used.
#[derive(Debug)]
pub enum PayloadError {
    /// serde_json could not read the text as JSON.
    Json(serde_json::Error),
    /// The payload is JSON, but of none of the shapes the reply may take: the
    /// record that was expected, and the payload, kept for inspection.
    Shape { expected: String, payload: String },
}

/// `e` says that `payload` did not read as the record named `expected`.
pub open spec fn is_shape_error(e: StockfighterErr, expected: Seq<char>, payload: Seq<char>) -> bool {
    e matches StockfighterErr::Serde(PayloadError::Shape { expected: x, payload: p }) && x@
        == expected && p@ == payload
}

#[derive(Debug)]
pub enum StockfighterErr {
    /// The request could not be sent or its reply not received.
    Hyper(hyper::Error),
    /// The reply matched no shape it may take.
    Serde(PayloadError),
    /// The reply's body could not be read.
    IO(std::io::Error),
    /// The venue answered that it does not exist, with the server's message.
    NoSuchVenue(String),
}

impl From<hyper::Error> for StockfighterErr {
    fn from(error: hyper::Error) -> StockfighterErr {
        StockfighterErr::Hyper(error)
    }
}

impl vstd::std_specs::convert::FromSpecImpl<hyper::Error> for StockfighterErr {
    open spec fn obeys_from_spec() -> bool {
        true
    }

    open spec fn from_spec(v: hyper::Error) -> StockfighterErr {
        StockfighterErr::Hyper(v)
    }
}

impl From<serde_json::Error> for StockfighterErr {
    fn from(error: serde_json::Error) -> StockfighterErr {
        StockfighterErr::Serde(PayloadError::Json(error))
    }
}

impl vstd::std_specs::convert::FromSpecImpl<serde_json::Error> for StockfighterErr {
    open spec fn obeys_from_spec() -> bool {
        true
    }

    open spec fn from_spec(v: serde_json::Error) -> StockfighterErr {
        StockfighterErr::Serde(PayloadError::Json(v))
    }
}

impl From<std::io::Error> for StockfighterErr {
    fn from(error: std::io::Error) -> StockfighterErr {
        StockfighterErr::IO(error)
    }
}

impl vstd::std_specs::convert::FromSpecImpl<std::io::Error> for StockfighterErr {
    open spec fn obeys_from_spec() -> bool {
        true
    }

    open spec fn from_spec(v: std::io::Error) -> StockfighterErr {
        StockfighterErr::IO(v)
    }
}

impl StockfighterErr {
    /// The error for a `payload` that does not read as the record `expected`.
    pub fn shape(expected: &str, payload: String) -> (r: StockfighterErr)
        ensures
            is_shape_error(r, expected@, payload@),
    {
        StockfighterErr::Serde(PayloadError::Shape { expected: String::from_str(expected), payload })
    }

    /// The text that describes the error: the server's message for a missing
    /// venue, else the text of the underlying error.
    pub fn message(&self) -> (r: String)
        ensures
            self matches StockfighterErr::NoSuchVenue(m) ==> r@ == m@,
            self matches StockfighterErr::Serde(PayloadError::Shape { expected, payload }) ==> r@
                == "the payload is not a "@ + expected@ + ": "@ + payload@,
    {
        match self {
            StockfighterErr::Hyper(e) => e.to_string(),
            StockfighterErr::Serde(PayloadError::Json(e)) => e.to_string(),
            StockfighterErr::Serde(PayloadError::Shape { expected, payload }) => {
                let mut text = String::from_str("the payload is not a ");
                text.append(expected.as_str());
                text.append(": ");
                text.append(payload.as_str());
                text
            },
            StockfighterErr::IO(e) => e.to_string(),
            StockfighterErr::NoSuchVenue(m) => m.clone(),
        }
    }
}

} // verus!
