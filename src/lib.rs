//! A typed client core for a music-metadata web service: request assembly
//! and the classification of response bodies into service errors, typed
//! results, missing result fields and parse failures.

pub mod json;
pub mod request;
pub mod response;

pub use json::{parse_json, Json, ParseError};
pub use request::{Client, RequestBuilder, RequestTarget};
pub use response::{
    classify, classify_json, ClientError, LastFMError, RawData, RecentTracks, Track,
};
