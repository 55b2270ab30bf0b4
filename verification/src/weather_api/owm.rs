use vstd::prelude::*;

use crate::config::{
    owm_unit_of_generic, owm_unit_token, Config, GenericWeatherUnit, LocationMissingError,
    Overrides, OwmUnit, Provider,
};
use crate::weather_api::{ForecastApi, WeatherApi};

verus! {

/// A provider-defined place: an opaque catalog identifier, or a WGS84
/// latitude/longitude pair carried as decimal text.
#[derive(Debug, PartialEq)]
pub enum Location {
    Id(String),
    Coord(String, String),
}

/// The spec-level picture of a `Location`: the same choice, over character
/// sequences.
pub enum LocationModel {
    Id(Seq<char>),
    Coord(Seq<char>, Seq<char>),
}

impl View for Location {
    type V = LocationModel;

    open spec fn view(&self) -> LocationModel {
        match self {
            Location::Id(id) => LocationModel::Id(id@),
            Location::Coord(lat, lon) => LocationModel::Coord(lat@, lon@),
        }
    }
}

/// The location the metadata provider is queried with, after applying the
/// precedence order: override coordinates, then the provider's own catalog
/// identifier, then the global coordinates. The identifier outranks the
/// global coordinates because a stable catalog entry is more precise than
/// derived coordinates.
pub open spec fn resolved_owm_location(
    override_coordinates: Option<(String, String)>,
    location_id: Option<String>,
    global_coordinates: Option<(String, String)>,
) -> Option<LocationModel> {
    match override_coordinates {
        Some(c) => Some(LocationModel::Coord(c.0@, c.1@)),
        None => match location_id {
            Some(id) => Some(LocationModel::Id(id@)),
            None => match global_coordinates {
                Some(c) => Some(LocationModel::Coord(c.0@, c.1@)),
                None => None,
            },
        },
    }
}

/// The unit the metadata provider is queried with, after applying the
/// precedence order: override, then the provider block, then the global
/// preference, then absence.
pub open spec fn resolved_owm_unit(
    override_unit: Option<GenericWeatherUnit>,
    provider_unit: Option<OwmUnit>,
    global_unit: Option<GenericWeatherUnit>,
) -> Option<OwmUnit> {
    match override_unit {
        Some(g) => Some(owm_unit_of_generic(g)),
        None => match provider_unit {
            Some(u) => Some(u),
            None => match global_unit {
                Some(g) => Some(owm_unit_of_generic(g)),
                None => None,
            },
        },
    }
}

/// One resolved query against the metadata provider: API key, effective
/// location, effective unit.
#[derive(Debug, PartialEq)]
pub struct Owm {
    pub key: String,
    pub location: Location,
    pub unit: Option<OwmUnit>,
}

impl Owm {
    /// Resolves the query context for the metadata provider from the
    /// configuration and the per-invocation overrides. Fails — before any
    /// URL is formed — exactly when no precedence level yields a location.
    pub fn new(config: &Config, overrides: &Overrides) -> (r: Result<Owm, LocationMissingError>)
        requires
            config.owm is Some,
        ensures
            ({
                let oc = config.owm.unwrap();
                let loc = resolved_owm_location(
                    overrides.coordinates,
                    oc.location_id,
                    config.coordinates,
                );
                match r {
                    Ok(o) => {
                        &&& loc is Some
                        &&& o.location@ == loc.unwrap()
                        &&& o.key@ == oc.key@
                        &&& o.unit == resolved_owm_unit(overrides.unit, oc.unit, config.unit)
                    },
                    Err(e) => loc is None && e.provider == Provider::Owm,
                }
            }),
    {
        let oc = config.owm.as_ref().unwrap();

        let location: Option<Location> = if overrides.coordinates.is_some() {
            let c = overrides.coordinates.as_ref().unwrap();
            Some(Location::Coord(c.0.clone(), c.1.clone()))
        } else if oc.location_id.is_some() {
            Some(Location::Id(oc.location_id.as_ref().unwrap().clone()))
        } else if config.coordinates.is_some() {
            let c = config.coordinates.as_ref().unwrap();
            Some(Location::Coord(c.0.clone(), c.1.clone()))
        } else {
            None
        };

        let unit: Option<OwmUnit> = if let Some(g) = overrides.unit {
            Some(OwmUnit::from(g))
        } else if oc.unit.is_some() {
            oc.unit
        } else if let Some(g) = config.unit {
            Some(OwmUnit::from(g))
        } else {
            None
        };

        match location {
            Some(location) => Ok(Owm { key: oc.key.clone(), location, unit }),
            None => Err(LocationMissingError { provider: Provider::Owm }),
        }
    }
}

/// The metadata provider's base URL.
pub open spec fn owm_base_url() -> Seq<char> {
    "https://api.openweathermap.org/data/2.5"@
}

/// The location query parameters: a single `id` parameter for a catalog
/// identifier, or `lat` and `lon` parameters for coordinates. The two
/// encodings are the provider's own convention.
pub open spec fn owm_location_query(loc: LocationModel) -> Seq<char> {
    match loc {
        LocationModel::Id(id) => "&id="@ + id,
        LocationModel::Coord(lat, lon) => "&lat="@ + lat + "&lon="@ + lon,
    }
}

/// The trailing `units` parameter. Absence is this provider's default unit,
/// so no parameter is emitted for `None`.
pub open spec fn owm_unit_query(unit: Option<OwmUnit>) -> Seq<char> {
    match unit {
        Some(u) => "&units="@ + owm_unit_token(u),
        None => Seq::<char>::empty(),
    }
}

/// The full query URL against `segment` ("weather" or "forecast"):
/// `{base}/{segment}?appid={key}` followed by the location parameters and
/// then the unit parameter, in that fixed order.
pub open spec fn owm_query_url(o: Owm, segment: Seq<char>) -> Seq<char> {
    owm_base_url() + "/"@ + segment + "?appid="@ + o.key@ + owm_location_query(o.location@)
        + owm_unit_query(o.unit)
}

impl Owm {
    fn build_url(&self, segment: &str) -> (r: String)
        ensures
            r@ == owm_query_url(*self, segment@),
    {
        let mut url = String::new();
        url.append("https://api.openweathermap.org/data/2.5");
        url.append("/");
        url.append(segment);
        url.append("?appid=");
        url.append(self.key.as_str());
        match &self.location {
            Location::Id(id) => {
                url.append("&id=");
                url.append(id.as_str());
            },
            Location::Coord(lat, lon) => {
                url.append("&lat=");
                url.append(lat.as_str());
                url.append("&lon=");
                url.append(lon.as_str());
            },
        }
        if let Some(u) = self.unit {
            url.append("&units=");
            url.append(u.token());
        }
        proof {
            assert(url@ =~= owm_query_url(*self, segment@));
        }
        url
    }
}

impl WeatherApi for Owm {
    open spec fn url_model(&self) -> Seq<char> {
        owm_query_url(*self, "weather"@)
    }

    open spec fn current_url_model(&self) -> Seq<char> {
        self.url_model()
    }

    fn url(&self) -> (r: String) {
        self.build_url("weather")
    }

    fn current_url(&self) -> (r: String) {
        self.url()
    }
}

impl ForecastApi for Owm {
    open spec fn forecast_url_model(&self) -> Seq<char> {
        owm_query_url(*self, "forecast"@)
    }

    fn forecast_url(&self) -> (r: String) {
        self.build_url("forecast")
    }
}

/// URL building is referentially transparent: two query contexts that agree
/// on key, location and unit give byte-identical URL text, for every query
/// kind.
pub proof fn lemma_owm_urls_referentially_transparent(a: Owm, b: Owm)
    requires
        a.key@ == b.key@,
        a.location@ == b.location@,
        a.unit == b.unit,
    ensures
        a.url_model() == b.url_model(),
        a.current_url_model() == b.current_url_model(),
        a.forecast_url_model() == b.forecast_url_model(),
{
}

/// A resolved unit — absence is this provider's default — appends exactly
/// one `units` parameter, with the canonical token, after everything else;
/// with no resolved unit the URL ends with the location parameters.
pub proof fn lemma_owm_unit_parameter_emitted(o: Owm)
    requires
        o.unit is Some,
    ensures
        o.url_model() == (Owm { unit: None, ..o }).url_model() + "&units="@ + owm_unit_token(
            o.unit.unwrap(),
        ),
{
    assert(o.url_model() =~= (Owm { unit: None, ..o }).url_model() + "&units="@ + owm_unit_token(
        o.unit.unwrap(),
    ));
}

/// An override unit always outranks the provider-block unit and the global
/// unit.
pub proof fn lemma_owm_override_unit_wins(
    g: GenericWeatherUnit,
    provider_unit: Option<OwmUnit>,
    global_unit: Option<GenericWeatherUnit>,
)
    ensures
        resolved_owm_unit(Some(g), provider_unit, global_unit) == Some(owm_unit_of_generic(g)),
{
}

/// With no override, the provider-block unit always outranks the global
/// unit.
pub proof fn lemma_owm_provider_unit_wins(u: OwmUnit, global_unit: Option<GenericWeatherUnit>)
    ensures
        resolved_owm_unit(None, Some(u), global_unit) == Some(u),
{
}

/// With no override, the provider's catalog identifier outranks the global
/// coordinates, whether or not those are present.
pub proof fn lemma_owm_identifier_wins(id: String, global: Option<(String, String)>)
    ensures
        resolved_owm_location(None, Some(id), global) == Some(LocationModel::Id(id@)),
{
}

/// Override coordinates outrank both the catalog identifier and the global
/// coordinates.
pub proof fn lemma_owm_override_coordinates_win(
    c: (String, String),
    location_id: Option<String>,
    global: Option<(String, String)>,
)
    ensures
        resolved_owm_location(Some(c), location_id, global) == Some(
            LocationModel::Coord(c.0@, c.1@),
        ),
{
}

} // verus!
