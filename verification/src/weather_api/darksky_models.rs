use vstd::prelude::*;

use crate::config::DarkSkyUnit;

verus! {

/// Decode targets for the coordinate provider's payloads. The core never
/// computes on the numeric readings, so values the wire carries as decimal
/// fractions are held as their decimal text.

/// The provider's structured error payload on a client-error response.
#[derive(Debug)]
pub struct DarkSkyError {
    pub code: u16,
    pub error: String,
}

/// A forecast payload; the current conditions are its `currently` block.
#[derive(Debug)]
pub struct Forecast {
    pub latitude: String,
    pub longitude: String,
    pub timezone: String,
    pub offset: Option<i32>,
    pub currently: Option<DataPoint>,
    pub minutely: Option<DataBlock>,
    pub hourly: Option<DataBlock>,
    pub daily: Option<DataBlock>,
    pub alerts: Option<Vec<Alerts>>,
    pub flags: Option<Flags>,
}

/// Readings at one moment or over one span.
#[derive(Debug)]
pub struct DataPoint {
    pub apparent_temperature: Option<String>,
    pub apparent_temperature_high: Option<String>,
    pub apparent_temperature_high_time: Option<i64>,
    pub apparent_temperature_low: Option<String>,
    pub apparent_temperature_low_time: Option<i64>,
    pub apparent_temperature_max: Option<String>,
    pub apparent_temperature_max_time: Option<i64>,
    pub apparent_temperature_min: Option<String>,
    pub apparent_temperature_min_time: Option<i64>,
    pub cloud_cover: Option<String>,
    pub dew_point: Option<String>,
    pub humidity: Option<String>,
    pub icon: Option<Icon>,
    pub moon_phase: Option<String>,
    pub nearest_storm_bearing: Option<i32>,
    pub nearest_storm_distance: Option<i32>,
    pub ozone: Option<String>,
    pub precip_accumulation: Option<String>,
    pub precip_intensity: Option<String>,
    pub precip_intensity_error: Option<String>,
    pub precip_intensity_max: Option<String>,
    pub precip_intensity_max_time: Option<i64>,
    pub precip_probability: Option<String>,
    pub precip_type: Option<PrecipitationType>,
    pub pressure: Option<String>,
    pub summary: Option<String>,
    pub sunrise_time: Option<i64>,
    pub sunset_time: Option<String>,
    pub temperature: Option<String>,
    pub temperature_high: Option<String>,
    pub temperature_high_time: Option<i64>,
    pub temperature_low: Option<String>,
    pub temperature_low_time: Option<i64>,
    pub temperature_max: Option<String>,
    pub temperature_max_time: Option<i64>,
    pub temperature_min: Option<String>,
    pub temperature_min_time: Option<i64>,
    pub time: i64,
    pub uv_index: Option<i32>,
    pub uv_index_time: Option<i64>,
    pub visibility: Option<String>,
    pub wind_bearing: Option<i32>,
    pub wind_gust: Option<String>,
    pub wind_gust_time: Option<i64>,
    pub wind_speed: Option<String>,
}

/// A run of data points with a summary.
#[derive(Debug)]
pub struct DataBlock {
    pub data: Vec<DataPoint>,
    pub summary: Option<String>,
    pub icon: Option<Icon>,
}

/// A severe-weather alert.
#[derive(Debug)]
pub struct Alerts {
    pub description: String,
    pub expires: i64,
    pub regions: Vec<String>,
    pub severity: Severity,
    pub time: i64,
    pub title: String,
    pub uri: String,
}

/// Metadata about the sources behind a forecast.
#[derive(Debug)]
pub struct Flags {
    pub darksky_unavailable: Option<String>,
    pub nearest_station: Option<String>,
    pub sources: Vec<String>,
    pub meteoalarm_license: Option<String>,
    pub units: DarkSkyUnit,
}

/// The icon the provider suggests for a data point.
#[derive(Debug, PartialEq, Eq, Copy, Clone, Structural)]
pub enum Icon {
    ClearDay,
    ClearNight,
    Rain,
    Snow,
    Sleet,
    Wind,
    Fog,
    Cloudy,
    PartlyCloudyDay,
    PartlyCloudyNight,
    Unknown,
}

/// The form precipitation takes.
#[derive(Debug, PartialEq, Eq, Copy, Clone, Structural)]
pub enum PrecipitationType {
    Rain,
    Snow,
    Sleet,
}

/// How urgent an alert is.
#[derive(Debug, PartialEq, Eq, Copy, Clone, Structural)]
pub enum Severity {
    Advisory,
    Watch,
    Warning,
}

} // verus!
