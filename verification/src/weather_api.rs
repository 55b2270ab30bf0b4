use vstd::prelude::*;

pub mod darksky;
pub mod darksky_models;
pub mod owm;
pub mod owm_models;

use crate::config::{Config, LocationMissingError, Overrides, Provider};
use crate::weather_api::darksky::{
    resolved_darksky_coordinates, resolved_darksky_unit, DarkSky,
};
use crate::weather_api::owm::{resolved_owm_location, resolved_owm_unit, Owm};

verus! {

/// Base capability every provider implements: forming the request URL text
/// for its current-conditions query. URL construction is pure — the model
/// functions pin the text down to the byte, so identical inputs always give
/// byte-identical URLs.
pub trait WeatherApi: Sized {
    /// The provider's base query URL text.
    spec fn url_model(&self) -> Seq<char>;

    /// The text of the URL that asks for current conditions.
    spec fn current_url_model(&self) -> Seq<char>;

    fn url(&self) -> (r: String)
        ensures
            r@ == self.url_model(),
    ;

    fn current_url(&self) -> (r: String)
        ensures
            r@ == self.current_url_model(),
    ;
}

/// Optional capability: a forecast variant of the base query.
pub trait ForecastApi: WeatherApi {
    /// The text of the URL that asks for a forecast.
    spec fn forecast_url_model(&self) -> Seq<char>;

    fn forecast_url(&self) -> (r: String)
        ensures
            r@ == self.forecast_url_model(),
    ;
}

/// Optional capability: a historical query at a unix timestamp.
pub trait HistoricalApi: WeatherApi {
    /// The text of the URL that asks for conditions at `time`.
    spec fn historical_url_model(&self, time: int) -> Seq<char>;

    fn historical_url(&self, time: i64) -> (r: String)
        ensures
            r@ == self.historical_url_model(time as int),
    ;
}

/// Resolves a query context for every configured provider, and for no
/// other: a provider with no configuration block is simply absent from the
/// query set. Fails with the first provider — metadata provider checked
/// first — for which no location can be determined, before any URL is
/// formed.
pub fn resolve_providers(config: &Config, overrides: &Overrides) -> (r: Result<
    (Option<Owm>, Option<DarkSky>),
    LocationMissingError,
>)
    ensures
        ({
            let owm_missing = config.owm matches Some(oc) && resolved_owm_location(
                overrides.coordinates,
                oc.location_id,
                config.coordinates,
            ) is None;
            let darksky_missing = config.darksky is Some && resolved_darksky_coordinates(
                overrides.coordinates,
                config.coordinates,
            ) is None;
            match r {
                Ok(pair) => {
                    &&& !owm_missing
                    &&& !darksky_missing
                    &&& (pair.0 is Some <==> config.owm is Some)
                    &&& (pair.1 is Some <==> config.darksky is Some)
                    &&& config.owm matches Some(oc) ==> {
                        let o = pair.0.unwrap();
                        &&& o.location@ == resolved_owm_location(
                            overrides.coordinates,
                            oc.location_id,
                            config.coordinates,
                        ).unwrap()
                        &&& o.key@ == oc.key@
                        &&& o.unit == resolved_owm_unit(overrides.unit, oc.unit, config.unit)
                    }
                    &&& config.darksky matches Some(dc) ==> {
                        let d = pair.1.unwrap();
                        let coords = resolved_darksky_coordinates(
                            overrides.coordinates,
                            config.coordinates,
                        );
                        &&& d.coordinates.0@ == coords.unwrap().0@
                        &&& d.coordinates.1@ == coords.unwrap().1@
                        &&& d.key@ == dc.key@
                        &&& d.unit == resolved_darksky_unit(overrides.unit, dc.unit, config.unit)
                    }
                },
                Err(e) => if owm_missing {
                    e.provider == Provider::Owm
                } else {
                    darksky_missing && e.provider == Provider::DarkSky
                },
            }
        }),
{
    let owm: Option<Owm> = if config.owm.is_some() {
        match Owm::new(config, overrides) {
            Ok(o) => Some(o),
            Err(e) => {
                return Err(e);
            },
        }
    } else {
        None
    };
    let darksky: Option<DarkSky> = if config.darksky.is_some() {
        match DarkSky::new(config, overrides) {
            Ok(d) => Some(d),
            Err(e) => {
                return Err(e);
            },
        }
    } else {
        None
    };
    Ok((owm, darksky))
}

} // verus!
