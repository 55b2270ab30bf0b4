use vstd::prelude::*;

verus! {

/// Decode targets for the metadata provider's payloads. The core never
/// computes on the numeric readings, so values the wire carries as decimal
/// fractions are held as their decimal text.

/// A current-conditions payload.
#[derive(Debug)]
pub struct Current {
    pub coord: Option<Coord>,
    pub weather: Option<Vec<Weather>>,
    pub base: Option<String>,
    pub main: Option<Main>,
    pub visibility: Option<i32>,
    pub wind: Option<Wind>,
    pub clouds: Option<Clouds>,
    pub rain: Option<Rain>,
    pub snow: Option<Snow>,
    pub dt: Option<i64>,
    pub sys: Option<Sys>,
    pub id: Option<i64>,
    pub name: Option<String>,
    pub cod: Option<i32>,
}

/// A coordinate pair as the payload reports it.
#[derive(Debug)]
pub struct Coord {
    pub lat: String,
    pub lon: String,
}

/// One weather-condition entry.
#[derive(Debug)]
pub struct Weather {
    pub id: Option<i32>,
    pub description: Option<String>,
    pub icon: Option<Icon>,
    pub main: Option<String>,
}

/// An icon identifier; the provider adds new ones without notice, so any
/// token is kept as it came.
#[derive(Debug)]
pub struct Icon(pub String);

/// An icon token could not be read.
#[derive(Debug)]
pub struct InvalidOwmIcon;

impl core::str::FromStr for Icon {
    type Err = InvalidOwmIcon;

    fn from_str(s: &str) -> Result<Self, Self::Err> {
        Ok(Icon(s.to_owned()))
    }
}

/// The main block of readings.
#[derive(Debug)]
pub struct Main {
    pub temp: Option<String>,
    pub temp_kf: Option<String>,
    pub pressure: Option<String>,
    pub humidity: Option<String>,
    pub temp_min: Option<String>,
    pub temp_max: Option<String>,
    pub sea_level: Option<String>,
    pub grnd_level: Option<String>,
}

/// Wind readings.
#[derive(Debug)]
pub struct Wind {
    pub speed: Option<String>,
    pub deg: Option<String>,
    pub gust: Option<String>,
}

/// Cloud cover.
#[derive(Debug)]
pub struct Clouds {
    pub all: Option<i32>,
}

/// Rain volume over the last three hours.
#[derive(Debug)]
pub struct Rain {
    pub three_h: Option<String>,
}

/// Snow volume over the last three hours.
#[derive(Debug)]
pub struct Snow {
    pub three_h: Option<String>,
}

/// Provider-internal metadata beside the readings.
#[derive(Debug)]
pub struct Sys {
    pub sys_type: Option<i32>,
    pub id: Option<i32>,
    pub message: Option<String>,
    pub country: Option<String>,
    pub sunrise: Option<i64>,
    pub sunset: Option<i64>,
}

/// A forecast payload.
#[derive(Debug)]
pub struct Forecast {
    pub city: Option<ForecastCity>,
    pub cnt: Option<i32>,
    pub cod: Option<String>,
    pub list: Option<Vec<ForecastList>>,
    pub message: Option<String>,
}

/// The place a forecast is for.
#[derive(Debug)]
pub struct ForecastCity {
    pub coord: Option<Coord>,
    pub country: Option<String>,
    pub id: Option<i32>,
    pub name: Option<String>,
}

/// One forecast step.
#[derive(Debug)]
pub struct ForecastList {
    pub clouds: Option<Clouds>,
    pub dt: Option<i64>,
    pub dt_txt: Option<String>,
    pub main: Option<Main>,
    pub sys: Option<ForecastSys>,
    pub rain: Option<Rain>,
    pub snow: Option<Snow>,
    pub weather: Option<Vec<Weather>>,
    pub wind: Option<Wind>,
}

/// Undocumented per-step metadata.
#[derive(Debug)]
pub struct ForecastSys {
    pub pod: Option<String>,
}

} // verus!
