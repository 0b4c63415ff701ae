//! A client library for the OpenWeatherMap web service, without the wire.
//!
//! The library builds the requests for the service's endpoints, judges what
//! comes back for them, and decodes the service's JSON payloads into typed
//! records. It performs no I/O: a caller sends an [`UnsentRequest`] over the
//! transport of its choice and hands the [`Reply`] to [`read_reply`].
//!
//! - [`units`]: the measurement systems and their wire tokens.
//! - [`api`]: the client's configuration and the requests it builds.
//! - [`request`]: requests that are built but not sent, and their URLs.
//! - [`response`]: replies, and what a call makes of them.
//! - [`error`]: the two ways in which a call fails.
//! - [`json`], [`fields`], [`record`], [`payload`]: JSON values and the
//!   reading and writing of records.
//! - [`models`]: the records themselves.
//! - [`decimal`]: decimal notation of whole numbers.

pub mod api;
pub mod decimal;
pub mod error;
pub mod fields;
pub mod json;
pub mod models;
pub mod payload;
pub mod record;
pub mod request;
pub mod response;
pub mod units;

pub use api::OpenWeatherClient;
pub use error::{ApiError, DecodeError, TransportFailure};
pub use json::{Json, Number};
pub use models::{
    Cloudiness, Coordinates, CurrentWeatherPayload, CurrentWeatherSys, Forecast5CityInfo,
    Forecast5ListItem, Forecast5Payload, Forecast5Sys, MainInformation, RainfallTotals,
    SnowfallTotals, WeatherCondition, WindInformation,
};
pub use payload::{from_json, to_json};
pub use record::Record;
pub use request::UnsentRequest;
pub use response::{check_status, read_reply, Reply};
pub use units::Units;
