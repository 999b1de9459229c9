use cityservice::city::settings::config::{
    BuildingConfig, CityConfig, Config, ImageConfig, RoadConfig,
};
use cityservice::city::settings::error::{Error, LineError};
use cityservice::city::settings::setting::{Error as SettingError, Setting};
use cityservice::city::settings::Settings;
use cityservice::city::stats::{Distribution, Distribution2};

fn strings(path: &[&str]) -> Vec<String> {
    path.iter().map(|s| String::from(*s)).collect()
}

fn add_distribution(settings: &mut Settings, base: &[&str], kind: &str, min: i64, max: i64, skew: i64) {
    let at = |name: &'static str| {
        let mut path = base.to_vec();
        path.push(name);
        path
    };
    settings.add(at("distribution"), Setting::from(String::from(kind)));
    settings.add(at("min"), Setting::from(min));
    settings.add(at("max"), Setting::from(max));
    settings.add(at("skew"), Setting::from(skew));
}

fn complete() -> Settings {
    let mut settings = Settings::new();
    settings.add(vec!["image", "width"], Setting::from(640u32));
    settings.add(vec!["image", "height"], Setting::from(480u32));
    settings.add(vec!["city", "width"], Setting::from(1_000_000_000i64));
    settings.add(vec!["city", "height"], Setting::from(500_000_000i64));
    settings.add(vec!["sidewalk", "breadth"], Setting::from(2_000_000i64));
    add_distribution(&mut settings, &["roads", "density", "x"], "uniform", 1, 2, 3);
    add_distribution(&mut settings, &["roads", "density", "y"], "normal", 4, 5, 6);
    add_distribution(&mut settings, &["roads", "breadth"], "constant", 7, 8, 9);
    add_distribution(&mut settings, &["buildings", "density", "x"], "uniform", 10, 11, 12);
    add_distribution(&mut settings, &["buildings", "density", "y"], "uniform", 13, 14, 15);
    add_distribution(&mut settings, &["alleys", "breadth"], "constant", 16, 17, 18);
    add_distribution(&mut settings, &["buildings", "walls", "stepback"], "normal", 19, 20, 21);
    add_distribution(&mut settings, &["buildings", "roof", "border"], "constant", 22, 23, 24);
    add_distribution(&mut settings, &["buildings", "roof", "tint"], "uniform", 25, 26, 27);
    settings
}

fn fields(d: &Distribution) -> (&str, i64, i64, i64) {
    (d.dist.as_str(), d.min, d.max, d.skew)
}

#[test]
fn settings_are_read_by_type() {
    let mut settings = Settings::new();
    settings.add(vec!["a", "float"], Setting::from(1_500_000i64));
    settings.add(vec!["a", "uint"], Setting::from(7u32));
    settings.add(vec!["a", "text"], Setting::from(String::from("hello")));
    settings.add(vec!["flag"], Setting::from(true));

    assert!(matches!(settings.get_float(vec!["a", "float"]), Ok(1_500_000)));
    assert!(matches!(settings.get_uint(vec!["a", "uint"]), Ok(7)));
    assert!(matches!(settings.get_string(vec!["a", "text"]), Ok(text) if text == "hello"));
    assert!(matches!(settings.get_bool(vec!["flag"]), Ok(true)));
    assert!(matches!(settings.get_endpoint_float(vec!["a"], "float"), Ok(1_500_000)));
    assert!(matches!(settings.get_endpoint_string(vec!["a"], "text"), Ok(text) if text == "hello"));
}

#[test]
fn a_missing_setting_names_its_path() {
    let mut settings = Settings::new();
    settings.add(vec!["a", "b"], Setting::from(1u32));
    assert!(matches!(
        settings.get_uint(vec!["a", "c"]),
        Err(Error::NonexistantSetting(path)) if path == strings(&["a", "c"])
    ));
    // A node on the way to a setting is no setting.
    assert!(matches!(
        settings.get_uint(vec!["a"]),
        Err(Error::NonexistantSetting(path)) if path == strings(&["a"])
    ));
    assert!(matches!(
        settings.get_endpoint_float(vec!["x", "y"], "z"),
        Err(Error::NonexistantSetting(path)) if path == strings(&["x", "y", "z"])
    ));
    assert!(matches!(
        Settings::new().get_bool(vec![]),
        Err(Error::NonexistantSetting(path)) if path.is_empty()
    ));
}

#[test]
fn a_setting_of_another_type_names_its_path() {
    let mut settings = Settings::new();
    settings.add(vec!["a", "b"], Setting::from(1u32));
    assert!(matches!(
        settings.get_float(vec!["a", "b"]),
        Err(Error::WrongType(path)) if path == strings(&["a", "b"])
    ));
    assert!(matches!(settings.get_string(vec!["a", "b"]), Err(Error::WrongType(_))));
    assert!(matches!(settings.get_bool(vec!["a", "b"]), Err(Error::WrongType(_))));
    assert!(matches!(
        settings.get_endpoint_string(vec!["a"], "b"),
        Err(Error::WrongType(path)) if path == strings(&["a", "b"])
    ));
    settings.add(vec!["a", "b"], Setting::from(false));
    assert!(matches!(settings.get_uint(vec!["a", "b"]), Err(Error::WrongType(_))));
    assert!(matches!(settings.get_bool(vec!["a", "b"]), Ok(false)));
}

#[test]
fn settings_start_empty_and_change_only_where_they_exist() {
    let mut settings = Settings::default();
    assert!(matches!(settings.get_uint(vec!["a"]), Err(Error::NonexistantSetting(_))));
    assert!(matches!(
        settings.set(vec!["a", "b"], Setting::from(1u32)),
        Err(Error::NonexistantSetting(path)) if path == strings(&["a", "b"])
    ));
    assert!(matches!(settings.get_uint(vec!["a", "b"]), Err(Error::NonexistantSetting(_))));
    settings.add(vec!["a", "b"], Setting::from(1u32));
    assert!(settings.set(vec!["a", "b"], Setting::from(2u32)).is_ok());
    assert!(matches!(settings.get_uint(vec!["a", "b"]), Ok(2)));
    // The group above a setting exists too.
    assert!(settings.set(vec!["a"], Setting::from(true)).is_ok());
    assert!(matches!(settings.get_bool(vec!["a"]), Ok(true)));
    assert!(matches!(settings.get_uint(vec!["a", "b"]), Ok(2)));
}

#[test]
fn setting_conversions() {
    assert!(matches!(String::try_from(&Setting::from(String::from("x"))), Ok(s) if s == "x"));
    assert!(matches!(u32::try_from(&Setting::from(3u32)), Ok(3)));
    assert!(matches!(i64::try_from(&Setting::from(-3i64)), Ok(-3)));
    assert!(matches!(bool::try_from(&Setting::from(true)), Ok(true)));
    assert!(matches!(String::try_from(&Setting::from(3u32)), Err(SettingError::WrongType)));
    assert!(matches!(u32::try_from(&Setting::from(3i64)), Err(SettingError::WrongType)));
    assert!(matches!(i64::try_from(&Setting::from(3u32)), Err(SettingError::WrongType)));
    assert!(matches!(bool::try_from(&Setting::from(String::new())), Err(SettingError::WrongType)));
    assert!(matches!(Setting::from(5u32), Setting::Uint(5)));
    assert!(matches!(Setting::from(5i64), Setting::Float(5)));
    assert!(matches!(Setting::from(false), Setting::Bool(false)));
    assert!(matches!(Setting::from(String::from("s")), Setting::String(s) if s == "s"));
}

#[test]
fn a_distribution_is_read_from_its_four_settings() {
    let settings = complete();
    let d = match Distribution::try_from_settings(&settings, vec!["roads", "breadth"]) {
        Ok(d) => d,
        Err(error) => panic!("{:?}", error),
    };
    assert_eq!(fields(&d), ("constant", 7, 8, 9));

    let both = match Distribution2::try_from_settings(&settings, vec!["roads", "density"]) {
        Ok(both) => both,
        Err(error) => panic!("{:?}", error),
    };
    assert_eq!(fields(&both.x), ("uniform", 1, 2, 3));
    assert_eq!(fields(&both.y), ("normal", 4, 5, 6));
}

#[test]
fn the_first_flaw_of_a_distribution_is_reported() {
    let mut settings = Settings::new();
    // Nothing there: the skew is read first.
    assert!(matches!(
        Distribution::try_from_settings(&settings, vec!["d"]),
        Err(Error::NonexistantSetting(path)) if path == strings(&["d", "skew"])
    ));
    settings.add(vec!["d", "skew"], Setting::from(1i64));
    settings.add(vec!["d", "max"], Setting::from(String::from("high")));
    assert!(matches!(
        Distribution::try_from_settings(&settings, vec!["d"]),
        Err(Error::NonexistantSetting(path)) if path == strings(&["d", "distribution"])
    ));
    settings.add(vec!["d", "distribution"], Setting::from(5u32));
    assert!(matches!(
        Distribution::try_from_settings(&settings, vec!["d"]),
        Err(Error::WrongType(path)) if path == strings(&["d", "distribution"])
    ));
    settings.add(vec!["d", "distribution"], Setting::from(String::from("normal")));
    assert!(matches!(
        Distribution::try_from_settings(&settings, vec!["d"]),
        Err(Error::NonexistantSetting(path)) if path == strings(&["d", "min"])
    ));
    settings.add(vec!["d", "min"], Setting::from(0i64));
    assert!(matches!(
        Distribution::try_from_settings(&settings, vec!["d"]),
        Err(Error::WrongType(path)) if path == strings(&["d", "max"])
    ));
    // The x axis is read before the y axis.
    assert!(matches!(
        Distribution2::try_from_settings(&settings, vec!["d"]),
        Err(Error::NonexistantSetting(path)) if path == strings(&["d", "x", "skew"])
    ));
}

#[test]
fn a_pair_of_distributions_takes_the_last_two() {
    let d = |n: i64| Distribution { min: n, max: n, skew: n, dist: String::from("constant") };
    assert!(Distribution2::try_from(Vec::new()).is_err());
    assert!(Distribution2::try_from(vec![d(1)]).is_err());
    let both = match Distribution2::try_from(vec![d(1), d(2)]) {
        Ok(both) => both,
        Err(()) => panic!("two distributions make a pair"),
    };
    assert_eq!((both.x.min, both.y.min), (1, 2));
    let both = match Distribution2::try_from(vec![d(1), d(2), d(3)]) {
        Ok(both) => both,
        Err(()) => panic!("three distributions hold a pair"),
    };
    assert_eq!((both.x.min, both.y.min), (2, 3));
}

#[test]
fn the_configuration_is_read_from_settings() {
    let config = match Config::try_from(complete()) {
        Ok(config) => config,
        Err(error) => panic!("{:?}", error),
    };
    assert_eq!((config.image.width, config.image.height), (640, 480));
    assert_eq!(
        (config.city.width, config.city.height, config.city.sidewalk_breadth),
        (1_000_000_000, 500_000_000, 2_000_000)
    );
    assert_eq!(fields(&config.roads.density.x), ("uniform", 1, 2, 3));
    assert_eq!(fields(&config.roads.density.y), ("normal", 4, 5, 6));
    assert_eq!(fields(&config.roads.breadth), ("constant", 7, 8, 9));
    assert_eq!(fields(&config.buildings.density.x), ("uniform", 10, 11, 12));
    assert_eq!(fields(&config.buildings.density.y), ("uniform", 13, 14, 15));
    assert_eq!(fields(&config.buildings.spacing), ("constant", 16, 17, 18));
    assert_eq!(fields(&config.buildings.stepbacks), ("normal", 19, 20, 21));
    assert_eq!(fields(&config.buildings.roof_border), ("constant", 22, 23, 24));
    assert_eq!(fields(&config.buildings.roof_tint), ("uniform", 25, 26, 27));

    let settings = complete();
    assert!(RoadConfig::try_from(&settings).is_ok());
    assert!(BuildingConfig::try_from(&settings).is_ok());
    assert!(CityConfig::try_from(&settings).is_ok());
    assert!(ImageConfig::try_from(&settings).is_ok());
}

#[test]
fn the_first_flaw_of_the_configuration_is_reported() {
    // The image is read first, then the city, the roads and the buildings.
    assert!(matches!(
        Config::try_from(Settings::new()),
        Err(Error::NonexistantSetting(path)) if path == strings(&["image", "width"])
    ));
    let mut settings = complete();
    settings.add(vec!["image", "height"], Setting::from(480i64));
    settings.add(vec!["city", "width"], Setting::from(3u32));
    assert!(matches!(
        Config::try_from(settings),
        Err(Error::WrongType(path)) if path == strings(&["image", "height"])
    ));
    let mut settings = complete();
    settings.add(vec!["sidewalk", "breadth"], Setting::from(true));
    settings.add(vec!["roads", "breadth", "min"], Setting::from(true));
    assert!(matches!(
        CityConfig::try_from(&settings),
        Err(Error::WrongType(path)) if path == strings(&["sidewalk", "breadth"])
    ));
    assert!(matches!(
        RoadConfig::try_from(&settings),
        Err(Error::WrongType(path)) if path == strings(&["roads", "breadth", "min"])
    ));
    assert!(matches!(
        Config::try_from(settings),
        Err(Error::WrongType(path)) if path == strings(&["sidewalk", "breadth"])
    ));
    let mut settings = complete();
    settings.add(vec!["buildings", "roof", "border", "skew"], Setting::from(1u32));
    settings.add(vec!["buildings", "roof", "tint", "skew"], Setting::from(1u32));
    assert!(matches!(
        BuildingConfig::try_from(&settings),
        Err(Error::WrongType(path)) if path == strings(&["buildings", "roof", "border", "skew"])
    ));
}

#[test]
fn settings_errors_read_well() {
    assert_eq!(
        Error::NonexistantSetting(strings(&["city", "width"])).message(),
        "You tried to get or modify a nonexistent setting at path city.width"
    );
    assert_eq!(
        Error::WrongType(strings(&["roads"])).message(),
        "You set the wrong type for roads, if it's a number, then check units are correct \
         and make sure there are no spaces between the number and unit."
    );
    assert_eq!(
        Error::LineError { line: 0, cause: LineError::WordCount }.message(),
        "Syntax error on line 1: More or less than 4 words in a line is not allowed, \
         do you have an extra space?"
    );
    assert_eq!(
        Error::LineError { line: 41, cause: LineError::Syntax }.message(),
        "Syntax error on line 42: Did you use proper syntax with the \"let\" and the \"be\"?"
    );
    assert_eq!(
        Error::LineError { line: u32::MAX, cause: LineError::ExpectedNumber }.message(),
        "Syntax error on line 4294967296: The service expected a number because of a \
         trailing unit (m, km), but the value was not parsable as a number"
    );
    assert_eq!(
        LineError::NonexistantSetting(strings(&["a", "b", "c"])).message(),
        "You tried to update a nonexistant setting: a.b.c"
    );
    assert_eq!(
        LineError::NonexistantSetting(Vec::new()).message(),
        "You tried to update a nonexistant setting: "
    );
}
