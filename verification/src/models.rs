//! The records that the service's payloads are decoded into. A value that the
//! service sends with a fraction is kept as the [`Number`] that was sent.

pub mod common;
pub mod current;
pub mod forecast;

pub use crate::json::Number;
pub use crate::units::Units;
pub use common::{
    Cloudiness, Coordinates, MainInformation, RainfallTotals, SnowfallTotals, WeatherCondition,
    WindInformation,
};
pub use current::{CurrentWeatherPayload, CurrentWeatherSys};
pub use forecast::{Forecast5CityInfo, Forecast5ListItem, Forecast5Payload, Forecast5Sys};
