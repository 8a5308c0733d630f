//! A client library for a document database reached over HTTPS and JSON.
//!
//! - [`value`]: the tree of values and query expressions that the service
//!   exchanges, with its model [`value::ValueV`];
//! - [`reference`]: references to resources and their paths;
//! - [`codec`]: the translation between values and the service's JSON
//!   dialect, in both directions, with [`codec::round_trip`];
//! - [`response`] and [`client`]: the client's configuration, the request
//!   headers, the classification of responses and the state of a query;
//! - [`query`], [`write`] and [`permission`]: the functions of the query
//!   language, each a node of the value tree.

pub mod base64_bytes;
pub mod catalog;
pub mod client;
pub mod codec;
pub mod date;
pub mod error;
pub mod json;
pub mod number;
pub mod permission;
pub mod query;
pub mod reference;
pub mod response;
pub mod text;
pub mod ts_microseconds;
pub mod value;
pub mod write;

pub use base64_bytes::Bytes;
pub use catalog::{Action, EpochUnit, Field, IndexBinding, IndexField, Normalizer, Role, SimpleLevel};
pub use client::{classify, expects_json, Client, ClientBuilder, QueryEvent, QueryState};
pub use codec::{decode, encode};
pub use date::{Date, LocalTime, Timestamp};
pub use error::{Error, FaunaError, FaunaErrors};
pub use json::Json;
pub use number::Number;
pub use reference::{LocationKind, Ref, RefLocation};
pub use response::Response;
pub use value::{Object, Query, Value, Var};

