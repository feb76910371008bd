//! The Nominatim geocoding API, seen from a client: the requests that the four operations
//! send, and the records that the server's answers hold.
//!
//! A [`Client`] holds the configuration: how the client identifies itself, which server it
//! asks and how long a request may take. For each operation it builds the [`Request`];
//! sending it is left to the caller, who parses the body of the answer into a [`Json`]
//! value and hands it to the decoder of the operation: [`Status::decode`] for a status
//! check, [`decode::decode_places`] for a search and for a lookup, and
//! [`decode::decode_reverse`] with [`decode::found`] for a reverse lookup.

pub mod client;
pub mod decode;
pub mod encoding;
pub mod error;
pub mod header;
pub mod ident;
pub mod json;
pub mod laws;
pub mod model;
pub mod query;
pub mod text;
pub mod uri;

pub use client::Client;
pub use client::Request;
pub use error::DecodeError;
pub use error::Error;
pub use header::Header;
pub use ident::IdentificationMethod;
pub use json::Json;
pub use json::Number;
pub use model::Address;
pub use model::Either;
pub use model::ErrorResponse;
pub use model::ExtraTags;
pub use model::Place;
pub use model::Status;
pub use model::StructuredSearch;
