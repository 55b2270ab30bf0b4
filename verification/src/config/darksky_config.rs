use vstd::prelude::*;

use super::{ArgEnum, GenericWeatherUnit};

verus! {

/// The coordinate provider's API-key block.
#[derive(Debug, PartialEq)]
pub struct DarkSkyConfig {
    pub key: String,
    pub unit: Option<DarkSkyUnit>,
}

/// The coordinate provider's own unit vocabulary. `Us` is the unit the
/// provider assumes when no `units` parameter is supplied.
#[derive(Debug, PartialEq, Eq, Copy, Clone, Structural)]
pub enum DarkSkyUnit {
    Auto,
    Ca,
    Si,
    Uk2,
    Us,
}

/// Projection of the provider-neutral preference onto the coordinate
/// provider's vocabulary: metric maps to the SI system, imperial to the US
/// system.
pub open spec fn darksky_unit_of_generic(unit: GenericWeatherUnit) -> DarkSkyUnit {
    match unit {
        GenericWeatherUnit::Metric => DarkSkyUnit::Si,
        GenericWeatherUnit::Imperial => DarkSkyUnit::Us,
    }
}

impl From<GenericWeatherUnit> for DarkSkyUnit {
    fn from(unit: GenericWeatherUnit) -> (r: Self) {
        match unit {
            GenericWeatherUnit::Metric => DarkSkyUnit::Si,
            GenericWeatherUnit::Imperial => DarkSkyUnit::Us,
        }
    }
}

impl vstd::std_specs::convert::FromSpecImpl<GenericWeatherUnit> for DarkSkyUnit {
    open spec fn obeys_from_spec() -> bool {
        true
    }

    open spec fn from_spec(unit: GenericWeatherUnit) -> Self {
        darksky_unit_of_generic(unit)
    }
}

/// The canonical lowercase wire token of each unit.
pub open spec fn darksky_unit_token(unit: DarkSkyUnit) -> Seq<char> {
    match unit {
        DarkSkyUnit::Auto => "auto"@,
        DarkSkyUnit::Ca => "ca"@,
        DarkSkyUnit::Si => "si"@,
        DarkSkyUnit::Uk2 => "uk2"@,
        DarkSkyUnit::Us => "us"@,
    }
}

impl DarkSkyUnit {
    /// The canonical lowercase wire token, as URL building encodes it.
    pub fn token(&self) -> (r: &'static str)
        ensures
            r@ == darksky_unit_token(*self),
    {
        match self {
            DarkSkyUnit::Auto => "auto",
            DarkSkyUnit::Ca => "ca",
            DarkSkyUnit::Si => "si",
            DarkSkyUnit::Uk2 => "uk2",
            DarkSkyUnit::Us => "us",
        }
    }
}

impl ArgEnum for DarkSkyUnit {
    open spec fn variant_tokens() -> Seq<Seq<char>> {
        seq!["auto"@, "ca"@, "si"@, "uk2"@, "us"@]
    }

    fn variants() -> (r: Vec<&'static str>) {
        let mut r: Vec<&'static str> = Vec::new();
        r.push("auto");
        r.push("ca");
        r.push("si");
        r.push("uk2");
        r.push("us");
        proof {
            assert forall|i: int|
                0 <= i < r@.len() implies (#[trigger] r@[i])@ == Self::variant_tokens()[i] by {
                assert(i == 0 || i == 1 || i == 2 || i == 3 || i == 4);
            }
        }
        r
    }
}

} // verus!
