use nimbus_alt::config::{Config, GenericWeatherUnit, Overrides, OwmConfig, OwmUnit};
use nimbus_alt::weather_api::owm::{Location, Owm};
use nimbus_alt::{ForecastApi, Provider, WeatherApi};

fn empty_config() -> Config {
    Config { coordinates: None, unit: None, darksky: None, owm: None }
}

fn owm_config(location_id: Option<&str>, unit: Option<OwmUnit>) -> OwmConfig {
    OwmConfig {
        key: String::from("owm_key"),
        location_id: location_id.map(String::from),
        unit,
    }
}

#[test]
fn it_creates_a_new_owm_with_only_location_id() {
    let config = Config {
        owm: Some(owm_config(Some("a1b2c3d4"), None)),
        ..empty_config()
    };

    let api = Owm::new(&config, &Overrides::empty()).unwrap();

    let expected_url = "https://api.openweathermap.org/data/2.5/weather?\
                        appid=owm_key&id=a1b2c3d4";
    assert_eq!(
        Owm {
            key: String::from("owm_key"),
            location: Location::Id(String::from("a1b2c3d4")),
            unit: None,
        },
        api
    );
    assert_eq!(expected_url, api.url());
}

#[test]
fn it_creates_a_new_owm_with_location_id_and_owm_unit() {
    let config = Config {
        owm: Some(owm_config(Some("a1b2c3d4"), Some(OwmUnit::Imperial))),
        ..empty_config()
    };

    let api = Owm::new(&config, &Overrides::empty()).unwrap();

    let expected_url = "https://api.openweathermap.org/data/2.5/weather?\
                        appid=owm_key&id=a1b2c3d4&units=imperial";
    assert_eq!(
        Owm {
            key: String::from("owm_key"),
            location: Location::Id(String::from("a1b2c3d4")),
            unit: Some(OwmUnit::Imperial),
        },
        api
    );
    assert_eq!(expected_url, api.url());
}

#[test]
fn it_creates_a_new_owm_with_coordinates() {
    let config = Config {
        coordinates: Some((String::from("12.345"), String::from("-54.321"))),
        owm: Some(owm_config(None, None)),
        ..empty_config()
    };

    let api = Owm::new(&config, &Overrides::empty()).unwrap();

    let expected_url = "https://api.openweathermap.org/data/2.5/weather?\
                        appid=owm_key&lat=12.345&lon=-54.321";
    assert_eq!(
        Owm {
            key: String::from("owm_key"),
            location: Location::Coord(String::from("12.345"), String::from("-54.321")),
            unit: None,
        },
        api
    );
    assert_eq!(expected_url, api.url());
}

#[test]
fn it_creates_a_new_owm_with_coordinates_and_owm_unit() {
    let config = Config {
        coordinates: Some((String::from("12.345"), String::from("-54.321"))),
        owm: Some(owm_config(None, Some(OwmUnit::Metric))),
        ..empty_config()
    };

    let api = Owm::new(&config, &Overrides::empty()).unwrap();

    let expected_url = "https://api.openweathermap.org/data/2.5/weather?\
                        appid=owm_key&lat=12.345&lon=-54.321&units=metric";
    assert_eq!(
        Owm {
            key: String::from("owm_key"),
            location: Location::Coord(String::from("12.345"), String::from("-54.321")),
            unit: Some(OwmUnit::Metric),
        },
        api
    );
    assert_eq!(expected_url, api.url());
}

#[test]
fn owm_without_a_location_reports_location_missing() {
    let config = Config {
        owm: Some(owm_config(None, None)),
        ..empty_config()
    };

    let err = Owm::new(&config, &Overrides::empty()).unwrap_err();
    assert_eq!(err.provider, Provider::Owm);
}

#[test]
fn owm_forecast_url_swaps_the_path_segment() {
    let config = Config {
        owm: Some(owm_config(Some("a1b2c3d4"), None)),
        ..empty_config()
    };
    let api = Owm::new(&config, &Overrides::empty()).unwrap();

    assert_eq!(
        "https://api.openweathermap.org/data/2.5/forecast?appid=owm_key&id=a1b2c3d4",
        api.forecast_url()
    );
}

#[test]
fn owm_identifier_wins_over_global_coordinates() {
    let config = Config {
        coordinates: Some((String::from("12.345"), String::from("-54.321"))),
        owm: Some(owm_config(Some("a1b2c3d4"), None)),
        ..empty_config()
    };
    let api = Owm::new(&config, &Overrides::empty()).unwrap();
    assert_eq!(api.location, Location::Id(String::from("a1b2c3d4")));
}

#[test]
fn owm_override_coordinates_win_over_identifier() {
    let config = Config {
        coordinates: Some((String::from("12.345"), String::from("-54.321"))),
        owm: Some(owm_config(Some("a1b2c3d4"), None)),
        ..empty_config()
    };
    let overrides = Overrides {
        coordinates: Some((String::from("1.5"), String::from("2.5"))),
        unit: None,
    };
    let api = Owm::new(&config, &overrides).unwrap();
    assert_eq!(
        api.location,
        Location::Coord(String::from("1.5"), String::from("2.5"))
    );
}

#[test]
fn owm_override_unit_wins_over_provider_and_global() {
    let config = Config {
        unit: Some(GenericWeatherUnit::Metric),
        owm: Some(owm_config(Some("a1b2c3d4"), Some(OwmUnit::Metric))),
        ..empty_config()
    };
    let overrides = Overrides {
        coordinates: None,
        unit: Some(GenericWeatherUnit::Imperial),
    };
    let api = Owm::new(&config, &overrides).unwrap();
    assert_eq!(api.unit, Some(OwmUnit::Imperial));
}

#[test]
fn owm_provider_unit_wins_over_global() {
    let config = Config {
        unit: Some(GenericWeatherUnit::Metric),
        owm: Some(owm_config(Some("a1b2c3d4"), Some(OwmUnit::Imperial))),
        ..empty_config()
    };
    let api = Owm::new(&config, &Overrides::empty()).unwrap();
    assert_eq!(api.unit, Some(OwmUnit::Imperial));
}

#[test]
fn owm_global_unit_applies_when_nothing_else_is_given() {
    let config = Config {
        unit: Some(GenericWeatherUnit::Metric),
        owm: Some(owm_config(Some("a1b2c3d4"), None)),
        ..empty_config()
    };
    let api = Owm::new(&config, &Overrides::empty()).unwrap();
    assert_eq!(api.unit, Some(OwmUnit::Metric));
}

#[test]
fn owm_url_building_is_deterministic() {
    let config = Config {
        owm: Some(owm_config(Some("a1b2c3d4"), Some(OwmUnit::Metric))),
        ..empty_config()
    };
    let api = Owm::new(&config, &Overrides::empty()).unwrap();
    assert_eq!(api.url(), api.url());
    assert_eq!(api.current_url(), api.url());
    assert_eq!(api.forecast_url(), api.forecast_url());
}
