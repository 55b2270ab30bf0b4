use nimbus_alt::config::{
    ArgEnum, Config, DarkSkyConfig, DarkSkyUnit, GenericWeatherUnit, Overrides, OwmConfig,
    OwmUnit, Provider,
};
use nimbus_alt::resolve_providers;

fn both_providers(coordinates: Option<(String, String)>, location_id: Option<String>) -> Config {
    Config {
        coordinates,
        unit: None,
        darksky: Some(DarkSkyConfig { key: String::from("n1o2p3q4"), unit: None }),
        owm: Some(OwmConfig { key: String::from("owm_key"), location_id, unit: None }),
    }
}

#[test]
fn generic_unit_tokens_parse() {
    assert_eq!(
        GenericWeatherUnit::from_token("metric"),
        Ok(GenericWeatherUnit::Metric)
    );
    assert_eq!(
        GenericWeatherUnit::from_token("imperial"),
        Ok(GenericWeatherUnit::Imperial)
    );
}

#[test]
fn unrecognized_unit_token_is_invalid() {
    let err = GenericWeatherUnit::from_token("kelvin").unwrap_err();
    assert_eq!(err.token, "kelvin");
}

#[test]
fn generic_unit_variants() {
    assert_eq!(GenericWeatherUnit::variants(), vec!["metric", "imperial"]);
}

#[test]
fn owm_unit_variants() {
    assert_eq!(OwmUnit::variants(), vec!["metric", "imperial"]);
}

#[test]
fn darksky_unit_variants() {
    assert_eq!(DarkSkyUnit::variants(), vec!["auto", "ca", "si", "uk2", "us"]);
}

#[test]
fn unit_conversion_is_total() {
    assert_eq!(OwmUnit::from(GenericWeatherUnit::Metric), OwmUnit::Metric);
    assert_eq!(OwmUnit::from(GenericWeatherUnit::Imperial), OwmUnit::Imperial);
    assert_eq!(DarkSkyUnit::from(GenericWeatherUnit::Metric), DarkSkyUnit::Si);
    assert_eq!(DarkSkyUnit::from(GenericWeatherUnit::Imperial), DarkSkyUnit::Us);
}

#[test]
fn validate_accepts_located_providers() {
    let with_coordinates = both_providers(
        Some((String::from("12.345"), String::from("-54.321"))),
        None,
    );
    assert_eq!(with_coordinates.validate(), Ok(()));
}

#[test]
fn validate_rejects_unlocated_owm() {
    let config = both_providers(None, None);
    let err = config.validate().unwrap_err();
    assert_eq!(err.provider, Provider::Owm);
}

#[test]
fn validate_rejects_unlocated_darksky() {
    let config = Config {
        coordinates: None,
        unit: None,
        darksky: Some(DarkSkyConfig { key: String::from("n1o2p3q4"), unit: None }),
        owm: None,
    };
    let err = config.validate().unwrap_err();
    assert_eq!(err.provider, Provider::DarkSky);
}

#[test]
fn validate_accepts_identifier_only_owm() {
    let config = Config {
        coordinates: None,
        unit: None,
        darksky: None,
        owm: Some(OwmConfig {
            key: String::from("owm_key"),
            location_id: Some(String::from("a1b2c3d4")),
            unit: None,
        }),
    };
    assert_eq!(config.validate(), Ok(()));
}

#[test]
fn resolve_providers_builds_every_configured_provider() {
    let config = both_providers(
        Some((String::from("12.345"), String::from("-54.321"))),
        Some(String::from("a1b2c3d4")),
    );
    let (owm, darksky) = resolve_providers(&config, &Overrides::empty()).unwrap();
    assert!(owm.is_some());
    assert!(darksky.is_some());
    assert_eq!(owm.unwrap().key, "owm_key");
    assert_eq!(darksky.unwrap().key, "n1o2p3q4");
}

#[test]
fn resolve_providers_skips_absent_blocks() {
    let config = Config { coordinates: None, unit: None, darksky: None, owm: None };
    let (owm, darksky) = resolve_providers(&config, &Overrides::empty()).unwrap();
    assert!(owm.is_none());
    assert!(darksky.is_none());
}

#[test]
fn resolve_providers_fails_on_first_unlocated_provider() {
    let config = both_providers(None, None);
    let err = resolve_providers(&config, &Overrides::empty()).unwrap_err();
    assert_eq!(err.provider, Provider::Owm);

    let config = Config {
        coordinates: None,
        unit: None,
        darksky: Some(DarkSkyConfig { key: String::from("n1o2p3q4"), unit: None }),
        owm: Some(OwmConfig {
            key: String::from("owm_key"),
            location_id: Some(String::from("a1b2c3d4")),
            unit: None,
        }),
    };
    let err = resolve_providers(&config, &Overrides::empty()).unwrap_err();
    assert_eq!(err.provider, Provider::DarkSky);
}

#[test]
fn override_coordinates_locate_every_provider() {
    let config = both_providers(None, None);
    let overrides = Overrides {
        coordinates: Some((String::from("1.5"), String::from("2.5"))),
        unit: None,
    };
    let (owm, darksky) = resolve_providers(&config, &overrides).unwrap();
    assert!(owm.is_some());
    assert!(darksky.is_some());
}
