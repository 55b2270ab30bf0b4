use vstd::prelude::*;

use super::{ArgEnum, GenericWeatherUnit};

verus! {

/// The metadata provider's API-key block. `location_id` is the provider's
/// own catalog identifier for a place; only this provider understands one.
#[derive(Debug, PartialEq)]
pub struct OwmConfig {
    pub key: String,
    pub location_id: Option<String>,
    pub unit: Option<OwmUnit>,
}

/// The metadata provider's unit vocabulary. The provider assumes its own
/// standard units when no `units` parameter is supplied, so absence — not
/// any variant here — is its default.
#[derive(Debug, PartialEq, Eq, Copy, Clone, Structural)]
pub enum OwmUnit {
    Metric,
    Imperial,
}

/// Conversion from the provider-neutral preference: the metadata provider
/// names the two systems the same way, so the mapping is one-to-one.
pub open spec fn owm_unit_of_generic(unit: GenericWeatherUnit) -> OwmUnit {
    match unit {
        GenericWeatherUnit::Metric => OwmUnit::Metric,
        GenericWeatherUnit::Imperial => OwmUnit::Imperial,
    }
}

impl From<GenericWeatherUnit> for OwmUnit {
    fn from(unit: GenericWeatherUnit) -> (r: Self) {
        match unit {
            GenericWeatherUnit::Metric => OwmUnit::Metric,
            GenericWeatherUnit::Imperial => OwmUnit::Imperial,
        }
    }
}

impl vstd::std_specs::convert::FromSpecImpl<GenericWeatherUnit> for OwmUnit {
    open spec fn obeys_from_spec() -> bool {
        true
    }

    open spec fn from_spec(unit: GenericWeatherUnit) -> Self {
        owm_unit_of_generic(unit)
    }
}

/// The canonical lowercase wire token of each unit.
pub open spec fn owm_unit_token(unit: OwmUnit) -> Seq<char> {
    match unit {
        OwmUnit::Metric => "metric"@,
        OwmUnit::Imperial => "imperial"@,
    }
}

impl OwmUnit {
    /// The canonical lowercase wire token, as URL building encodes it.
    pub fn token(&self) -> (r: &'static str)
        ensures
            r@ == owm_unit_token(*self),
    {
        match self {
            OwmUnit::Metric => "metric",
            OwmUnit::Imperial => "imperial",
        }
    }
}

impl ArgEnum for OwmUnit {
    open spec fn variant_tokens() -> Seq<Seq<char>> {
        seq!["metric"@, "imperial"@]
    }

    fn variants() -> (r: Vec<&'static str>) {
        let mut r: Vec<&'static str> = Vec::new();
        r.push("metric");
        r.push("imperial");
        proof {
            assert forall|i: int|
                0 <= i < r@.len() implies (#[trigger] r@[i])@ == Self::variant_tokens()[i] by {
                assert(i == 0 || i == 1);
            }
        }
        r
    }
}

} // verus!
