use vstd::prelude::*;

use crate::config::{
    darksky_unit_of_generic, darksky_unit_token, Config, DarkSkyUnit, GenericWeatherUnit,
    LocationMissingError, Overrides, Provider,
};
use crate::text::{i64_to_decimal, signed_decimal_chars};
use crate::weather_api::{HistoricalApi, WeatherApi};

verus! {

/// The coordinates the coordinate provider is queried with: the override
/// pair when the invocation supplies one, else the global pair. This
/// provider has no catalog identifiers, so there is no level in between.
pub open spec fn resolved_darksky_coordinates(
    override_coordinates: Option<(String, String)>,
    global_coordinates: Option<(String, String)>,
) -> Option<(String, String)> {
    match override_coordinates {
        Some(c) => Some(c),
        None => global_coordinates,
    }
}

/// The unit the coordinate provider is queried with, after applying the
/// precedence order: override, then the provider block, then the global
/// preference, then absence.
pub open spec fn resolved_darksky_unit(
    override_unit: Option<GenericWeatherUnit>,
    provider_unit: Option<DarkSkyUnit>,
    global_unit: Option<GenericWeatherUnit>,
) -> Option<DarkSkyUnit> {
    match override_unit {
        Some(g) => Some(darksky_unit_of_generic(g)),
        None => match provider_unit {
            Some(u) => Some(u),
            None => match global_unit {
                Some(g) => Some(darksky_unit_of_generic(g)),
                None => None,
            },
        },
    }
}

/// One resolved query against the coordinate provider: API key, effective
/// coordinates as decimal text, effective unit.
#[derive(Debug, PartialEq)]
pub struct DarkSky {
    pub key: String,
    pub coordinates: (String, String),
    pub unit: Option<DarkSkyUnit>,
}

impl DarkSky {
    /// Resolves the query context for the coordinate provider from the
    /// configuration and the per-invocation overrides. Fails — before any
    /// URL is formed — exactly when neither an override nor the global
    /// configuration supplies coordinates.
    pub fn new(config: &Config, overrides: &Overrides) -> (r: Result<
        DarkSky,
        LocationMissingError,
    >)
        requires
            config.darksky is Some,
        ensures
            ({
                let dc = config.darksky.unwrap();
                let coords = resolved_darksky_coordinates(
                    overrides.coordinates,
                    config.coordinates,
                );
                match r {
                    Ok(d) => {
                        &&& coords is Some
                        &&& d.coordinates.0@ == coords.unwrap().0@
                        &&& d.coordinates.1@ == coords.unwrap().1@
                        &&& d.key@ == dc.key@
                        &&& d.unit == resolved_darksky_unit(overrides.unit, dc.unit, config.unit)
                    },
                    Err(e) => coords is None && e.provider == Provider::DarkSky,
                }
            }),
    {
        let dc = config.darksky.as_ref().unwrap();

        let coordinates: Option<(String, String)> = if overrides.coordinates.is_some() {
            let c = overrides.coordinates.as_ref().unwrap();
            Some((c.0.clone(), c.1.clone()))
        } else if config.coordinates.is_some() {
            let c = config.coordinates.as_ref().unwrap();
            Some((c.0.clone(), c.1.clone()))
        } else {
            None
        };

        let unit: Option<DarkSkyUnit> = if let Some(g) = overrides.unit {
            Some(DarkSkyUnit::from(g))
        } else if dc.unit.is_some() {
            dc.unit
        } else if let Some(g) = config.unit {
            Some(DarkSkyUnit::from(g))
        } else {
            None
        };

        match coordinates {
            Some(coordinates) => Ok(DarkSky { key: dc.key.clone(), coordinates, unit }),
            None => Err(LocationMissingError { provider: Provider::DarkSky }),
        }
    }
}

/// The coordinate provider's base URL.
pub open spec fn darksky_base_url() -> Seq<char> {
    "https://api.darksky.net/forecast"@
}

/// Whether the resolved unit is emitted in the query string. The provider
/// assumes `us` when the parameter is absent, so `us` — and only `us` — is
/// suppressed to keep the URL identical to a bare request; every other
/// unit, `si` included, is emitted explicitly.
pub open spec fn darksky_emits_unit(unit: Option<DarkSkyUnit>) -> bool {
    unit matches Some(u) && u != DarkSkyUnit::Us
}

/// The `units` query string: empty when the unit is absent or equal to the
/// provider's default.
pub open spec fn darksky_unit_query(unit: Option<DarkSkyUnit>) -> Seq<char> {
    if darksky_emits_unit(unit) {
        "?units="@ + darksky_unit_token(unit.unwrap())
    } else {
        Seq::<char>::empty()
    }
}

/// The path part of every query: `{base}/{key}/{lat},{lon}` — this provider
/// takes the location as one composite path segment, not as query
/// parameters.
pub open spec fn darksky_path(d: DarkSky) -> Seq<char> {
    darksky_base_url() + "/"@ + d.key@ + "/"@ + d.coordinates.0@ + ","@ + d.coordinates.1@
}

/// The base query URL: the path followed by the unit query string.
pub open spec fn darksky_url(d: DarkSky) -> Seq<char> {
    darksky_path(d) + darksky_unit_query(d.unit)
}

/// The current-conditions URL: the base query plus an `exclude` parameter
/// that drops every block but the current one.
pub open spec fn darksky_current_url(d: DarkSky) -> Seq<char> {
    darksky_url(d) + (if darksky_emits_unit(d.unit) {
        "&"@
    } else {
        "?"@
    }) + "exclude=minutely,hourly,daily,alerts,flags"@
}

/// The historical URL at `time`: the trailing `{lat},{lon}` path segment
/// becomes `{lat},{lon},{time}`, and the unit query string is kept.
pub open spec fn darksky_historical_url(d: DarkSky, time: int) -> Seq<char> {
    darksky_path(d) + ","@ + signed_decimal_chars(time) + darksky_unit_query(d.unit)
}

impl DarkSky {
    fn build_path(&self) -> (r: String)
        ensures
            r@ == darksky_path(*self),
    {
        let mut url = String::new();
        url.append("https://api.darksky.net/forecast");
        url.append("/");
        url.append(self.key.as_str());
        url.append("/");
        url.append(self.coordinates.0.as_str());
        url.append(",");
        url.append(self.coordinates.1.as_str());
        proof {
            assert(url@ =~= darksky_path(*self));
        }
        url
    }

    fn append_unit_query(&self, url: &mut String)
        ensures
            final(url)@ == old(url)@ + darksky_unit_query(self.unit),
    {
        if let Some(u) = self.unit {
            if !matches!(u, DarkSkyUnit::Us) {
                url.append("?units=");
                url.append(u.token());
            }
        }
        proof {
            assert(url@ =~= old(url)@ + darksky_unit_query(self.unit));
        }
    }
}

impl WeatherApi for DarkSky {
    open spec fn url_model(&self) -> Seq<char> {
        darksky_url(*self)
    }

    open spec fn current_url_model(&self) -> Seq<char> {
        darksky_current_url(*self)
    }

    fn url(&self) -> (r: String) {
        let mut url = self.build_path();
        self.append_unit_query(&mut url);
        url
    }

    fn current_url(&self) -> (r: String) {
        let mut url = self.url();
        if self.unit.is_some() && !matches!(self.unit.as_ref().unwrap(), DarkSkyUnit::Us) {
            url.append("&");
        } else {
            url.append("?");
        }
        url.append("exclude=minutely,hourly,daily,alerts,flags");
        proof {
            assert(url@ =~= darksky_current_url(*self));
        }
        url
    }
}

impl HistoricalApi for DarkSky {
    open spec fn historical_url_model(&self, time: int) -> Seq<char> {
        darksky_historical_url(*self, time)
    }

    fn historical_url(&self, time: i64) -> (r: String) {
        let mut url = self.build_path();
        url.append(",");
        let stamp = i64_to_decimal(time);
        url.append(stamp.as_str());
        self.append_unit_query(&mut url);
        proof {
            assert(url@ =~= darksky_historical_url(*self, time as int));
        }
        url
    }
}

/// URL building is referentially transparent: two query contexts that
/// agree on key, coordinates and unit give byte-identical URL text, for
/// every query kind and timestamp.
pub proof fn lemma_darksky_urls_referentially_transparent(a: DarkSky, b: DarkSky, time: int)
    requires
        a.key@ == b.key@,
        a.coordinates.0@ == b.coordinates.0@,
        a.coordinates.1@ == b.coordinates.1@,
        a.unit == b.unit,
    ensures
        a.url_model() == b.url_model(),
        a.current_url_model() == b.current_url_model(),
        a.historical_url_model(time) == b.historical_url_model(time),
{
}

/// A resolved unit equal to the provider's default (`us`) is suppressed:
/// the URL is byte-identical to one formed with no unit at all.
pub proof fn lemma_darksky_default_unit_suppressed(d: DarkSky)
    requires
        d.unit == Some(DarkSkyUnit::Us),
    ensures
        d.url_model() == (DarkSky { unit: None, ..d }).url_model(),
        d.current_url_model() == (DarkSky { unit: None, ..d }).current_url_model(),
{
}

/// Any other resolved unit appends exactly one `units` parameter with the
/// canonical token.
pub proof fn lemma_darksky_unit_parameter_emitted(d: DarkSky)
    requires
        d.unit matches Some(u) && u != DarkSkyUnit::Us,
    ensures
        d.url_model() == darksky_path(d) + "?units="@ + darksky_unit_token(d.unit.unwrap()),
{
    assert(d.url_model() =~= darksky_path(d) + "?units="@ + darksky_unit_token(d.unit.unwrap()));
}

/// An override unit always outranks the provider-block unit and the global
/// unit.
pub proof fn lemma_darksky_override_unit_wins(
    g: GenericWeatherUnit,
    provider_unit: Option<DarkSkyUnit>,
    global_unit: Option<GenericWeatherUnit>,
)
    ensures
        resolved_darksky_unit(Some(g), provider_unit, global_unit) == Some(
            darksky_unit_of_generic(g),
        ),
{
}

/// With no override, the provider-block unit always outranks the global
/// unit.
pub proof fn lemma_darksky_provider_unit_wins(
    u: DarkSkyUnit,
    global_unit: Option<GenericWeatherUnit>,
)
    ensures
        resolved_darksky_unit(None, Some(u), global_unit) == Some(u),
{
}

/// Override coordinates always outrank the global coordinates.
pub proof fn lemma_darksky_override_coordinates_win(
    c: (String, String),
    global: Option<(String, String)>,
)
    ensures
        resolved_darksky_coordinates(Some(c), global) == Some(c),
{
}

} // verus!
