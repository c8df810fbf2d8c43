//! Validation and decoding of the HTTP POST requests that traQ sends to a bot.
//!
//! A request is accepted in three checks on its headers, made in this order:
//! the content type, the verification token that the bot shares with the
//! server, and the name of the event. Its body is then decoded as the payload
//! of the event that the headers name.
//!
//! ```
//! use traq_bot_http::{Event, RequestParser};
//!
//! let parser = RequestParser::new("verification_token");
//! let headers: [(&[u8], &[u8]); 3] = [
//!     (b"Content-Type", b"application/json"),
//!     (b"X-TRAQ-BOT-TOKEN", b"verification_token"),
//!     (b"X-TRAQ-BOT-EVENT", b"PING"),
//! ];
//! let body = br#"{"eventTime": "2019-05-07T04:50:48.582586882Z"}"#;
//! let event = parser.parse(&headers, body);
//! assert!(matches!(event, Ok(Event::Ping(_))));
//! ```
//!
//! - [`RequestParser`] holds the verification token and parses requests; the
//!   module [`parser`] says what each outcome depends on.
//! - [`EventKind`] is the closed set of kinds of event, each with its name on
//!   the wire; [`Event`] is a payload under its kind.
//! - [`payloads`] holds the records that the bodies are decoded into, and
//!   [`json`] the decoding.
//! - [`Error`] and [`ErrorKind`] tell what a request failed with.
//! - [`Handler`] tells which registered service an event is for.

mod error;
mod events;
pub mod handler;
pub mod json;
pub mod parser;
pub mod payloads;
pub mod text;

pub use error::{Error, ErrorKind};
pub use events::{
    lemma_unknown_wire_name, lemma_wire_name_round_trip, lemma_wire_names_distinct, Event,
    EventKind, EventView,
};
pub use handler::Handler;
pub use parser::RequestParser;
