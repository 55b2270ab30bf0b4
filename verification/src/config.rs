use vstd::prelude::*;

use crate::text::str_eq;

mod darksky_config;
mod owm_config;

pub use self::darksky_config::{darksky_unit_of_generic, darksky_unit_token, DarkSkyConfig,
    DarkSkyUnit};
pub use self::owm_config::{owm_unit_of_generic, owm_unit_token, OwmConfig, OwmUnit};

verus! {

/// Provider-neutral measurement-system preference, supplied by the
/// configuration or by a per-invocation override.
#[derive(Debug, Copy, Clone, PartialEq, Eq, Structural)]
pub enum GenericWeatherUnit {
    Metric,
    Imperial,
}

/// The lowercase command-line tokens that a unit enumeration accepts.
pub trait ArgEnum {
    /// The tokens, in declaration order of the variants.
    spec fn variant_tokens() -> Seq<Seq<char>>;

    fn variants() -> (r: Vec<&'static str>)
        ensures
            r@.len() == Self::variant_tokens().len(),
            forall|i: int|
                0 <= i < r@.len() ==> (#[trigger] r@[i])@ == Self::variant_tokens()[i],
    ;
}

impl ArgEnum for GenericWeatherUnit {
    open spec fn variant_tokens() -> Seq<Seq<char>> {
        seq!["metric"@, "imperial"@]
    }

    fn variants() -> (r: Vec<&'static str>) {
        let mut r: Vec<&'static str> = Vec::new();
        r.push("metric");
        r.push("imperial");
        proof {
            assert forall|i: int|
                0 <= i < r@.len() implies (#[trigger] r@[i])@ == Self::variant_tokens()[i] by {
                assert(i == 0 || i == 1);
            }
        }
        r
    }
}

/// An override unit token that names no recognized provider-neutral unit.
#[derive(Debug, PartialEq)]
pub struct InvalidUnit {
    pub token: String,
}

impl GenericWeatherUnit {
    /// Parses a provider-neutral unit token as the invocation layer hands it in.
    pub fn from_token(s: &str) -> (r: Result<GenericWeatherUnit, InvalidUnit>)
        ensures
            s@ == "metric"@ ==> r == Ok::<GenericWeatherUnit, InvalidUnit>(
                GenericWeatherUnit::Metric,
            ),
            s@ == "imperial"@ ==> r == Ok::<GenericWeatherUnit, InvalidUnit>(
                GenericWeatherUnit::Imperial,
            ),
            s@ != "metric"@ && s@ != "imperial"@ ==> (r matches Err(e) && e.token@ == s@),
    {
        proof {
            reveal_strlit("metric");
            reveal_strlit("imperial");
            // The two token literals differ in length, so no input can
            // satisfy both equalities below.
            assert("metric"@.len() == 6);
            assert("imperial"@.len() == 8);
        }
        if str_eq(s, "metric") {
            Ok(GenericWeatherUnit::Metric)
        } else if str_eq(s, "imperial") {
            Ok(GenericWeatherUnit::Imperial)
        } else {
            Err(InvalidUnit { token: s.to_owned() })
        }
    }
}

/// Conversion from the provider-neutral preference is total and
/// deterministic for both providers: each preference maps to exactly one
/// unit of each provider's vocabulary, with no unmapped case.
pub proof fn lemma_unit_conversion_total(g: GenericWeatherUnit)
    ensures
        g is Metric ==> owm_unit_of_generic(g) == OwmUnit::Metric && darksky_unit_of_generic(g)
            == DarkSkyUnit::Si,
        g is Imperial ==> owm_unit_of_generic(g) == OwmUnit::Imperial && darksky_unit_of_generic(
            g,
        ) == DarkSkyUnit::Us,
{
}

/// The providers a query set can name.
#[derive(Debug, Copy, Clone, PartialEq, Eq, Structural)]
pub enum Provider {
    Owm,
    DarkSky,
}

/// No location could be determined for a provider that requires one.
#[derive(Debug, PartialEq, Eq, Structural)]
pub struct LocationMissingError {
    pub provider: Provider,
}

/// Global configuration, as the configuration loader resolved it.
///
/// Coordinates are a WGS84 `(latitude, longitude)` pair carried as decimal
/// text; this layer performs no bounds validation on them.
#[derive(Debug, PartialEq)]
pub struct Config {
    pub coordinates: Option<(String, String)>,
    pub unit: Option<GenericWeatherUnit>,
    pub darksky: Option<DarkSkyConfig>,
    pub owm: Option<OwmConfig>,
}

impl Config {
    /// Checks that every configured provider has a location source in the
    /// configuration itself: the metadata provider needs a location
    /// identifier or the global coordinates, the coordinate provider needs
    /// the global coordinates.
    pub fn validate(&self) -> (r: Result<(), LocationMissingError>)
        ensures
            ({
                let owm_unlocated = self.owm matches Some(o) && o.location_id is None
                    && self.coordinates is None;
                let darksky_unlocated = self.darksky is Some && self.coordinates is None;
                match r {
                    Ok(()) => !owm_unlocated && !darksky_unlocated,
                    Err(e) => if owm_unlocated {
                        e.provider == Provider::Owm
                    } else {
                        darksky_unlocated && e.provider == Provider::DarkSky
                    },
                }
            }),
    {
        if let Some(owm) = &self.owm {
            if owm.location_id.is_none() && self.coordinates.is_none() {
                return Err(LocationMissingError { provider: Provider::Owm });
            }
        }
        if self.darksky.is_some() && self.coordinates.is_none() {
            return Err(LocationMissingError { provider: Provider::DarkSky });
        }
        Ok(())
    }
}

/// Optional per-invocation values, typically sourced from command-line flags.
/// Each present value outranks every configuration layer.
#[derive(Debug, PartialEq)]
pub struct Overrides {
    pub coordinates: Option<(String, String)>,
    pub unit: Option<GenericWeatherUnit>,
}

impl Overrides {
    /// An invocation that overrides nothing.
    pub fn empty() -> (r: Overrides)
        ensures
            r.coordinates is None,
            r.unit is None,
    {
        Overrides { coordinates: None, unit: None }
    }
}

} // verus!
