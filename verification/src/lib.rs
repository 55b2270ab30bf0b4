pub mod config;
pub mod fetch;
pub mod text;
pub mod weather_api;

pub use crate::config::{
    ArgEnum, Config, DarkSkyConfig, DarkSkyUnit, GenericWeatherUnit, InvalidUnit,
    LocationMissingError, Overrides, OwmConfig, OwmUnit, Provider,
};
pub use crate::fetch::{
    classify_status, interpret_response, DecodedBody, FetchError, StatusClass,
};
pub use crate::weather_api::{
    resolve_providers, ForecastApi, HistoricalApi, WeatherApi,
};
pub use crate::weather_api::darksky::DarkSky;
pub use crate::weather_api::owm::{Location, Owm};
