//! The configuration value object that city generation reads.

use vstd::prelude::*;
use vstd::std_specs::convert::TryFromSpecImpl;
use crate::city::settings::tree::{path_of, TreeMap};
use crate::city::settings::setting::Setting;
use crate::city::settings::{agrees, float_at, uint_at, Error, Flaw, Settings};
use crate::city::stats::{distribution2_at, distribution_at, Distribution, Distribution2};

verus! {

/// How roads are laid out: how densely along each axis, and how broad.
pub struct RoadConfig {
    pub density: Distribution2,
    pub breadth: Distribution,
}

/// How buildings ring a block.
pub struct BuildingConfig {
    pub density: Distribution2,
    pub spacing: Distribution,
    pub stepbacks: Distribution,
    pub roof_border: Distribution,
    pub roof_tint: Distribution,
}

/// The size of the city and the breadth of its sidewalks, in fixed-point
/// units.
pub struct CityConfig {
    pub width: i64,
    pub height: i64,
    pub sidewalk_breadth: i64,
}

/// The size of the rendered image in pixels.
pub struct ImageConfig {
    pub width: u32,
    pub height: u32,
}

/// Everything that city generation is configured by.
pub struct Config {
    pub image: ImageConfig,
    pub city: CityConfig,
    pub roads: RoadConfig,
    pub buildings: BuildingConfig,
}

/// The path of two keys.
pub open spec fn path2(a: &str, b: &str) -> Seq<Seq<char>> {
    seq![a@, b@]
}

/// The path of three keys.
pub open spec fn path3(a: &str, b: &str, c: &str) -> Seq<Seq<char>> {
    seq![a@, b@, c@]
}

/// The road configuration that `tree` holds, or the first flaw met while
/// reading the density and then the breadth of roads.
pub open spec fn road_config_at(tree: TreeMap<Setting>) -> Result<RoadConfig, Flaw> {
    match distribution2_at(tree, path2("roads", "density")) {
        Err(flaw) => Err(flaw),
        Ok(density) => match distribution_at(tree, path2("roads", "breadth")) {
            Err(flaw) => Err(flaw),
            Ok(breadth) => Ok(RoadConfig { density, breadth }),
        },
    }
}

/// The building configuration that `tree` holds, or the first flaw met
/// while reading the density of buildings, the breadth of alleys, and the
/// stepback, roof border and roof tint of buildings, in this order.
pub open spec fn building_config_at(tree: TreeMap<Setting>) -> Result<BuildingConfig, Flaw> {
    match distribution2_at(tree, path2("buildings", "density")) {
        Err(flaw) => Err(flaw),
        Ok(density) => match distribution_at(tree, path2("alleys", "breadth")) {
            Err(flaw) => Err(flaw),
            Ok(spacing) => match distribution_at(tree, path3("buildings", "walls", "stepback")) {
                Err(flaw) => Err(flaw),
                Ok(stepbacks) => match distribution_at(
                    tree,
                    path3("buildings", "roof", "border"),
                ) {
                    Err(flaw) => Err(flaw),
                    Ok(roof_border) => match distribution_at(
                        tree,
                        path3("buildings", "roof", "tint"),
                    ) {
                        Err(flaw) => Err(flaw),
                        Ok(roof_tint) => Ok(
                            BuildingConfig { density, spacing, stepbacks, roof_border, roof_tint },
                        ),
                    },
                },
            },
        },
    }
}

/// The city configuration that `tree` holds, or the first flaw met while
/// reading the width and height of the city and the breadth of sidewalks.
pub open spec fn city_config_at(tree: TreeMap<Setting>) -> Result<CityConfig, Flaw> {
    match float_at(tree, path2("city", "width")) {
        Err(flaw) => Err(flaw),
        Ok(width) => match float_at(tree, path2("city", "height")) {
            Err(flaw) => Err(flaw),
            Ok(height) => match float_at(tree, path2("sidewalk", "breadth")) {
                Err(flaw) => Err(flaw),
                Ok(sidewalk_breadth) => Ok(CityConfig { width, height, sidewalk_breadth }),
            },
        },
    }
}

/// The image configuration that `tree` holds, or the first flaw met while
/// reading the width and then the height of the image.
pub open spec fn image_config_at(tree: TreeMap<Setting>) -> Result<ImageConfig, Flaw> {
    match uint_at(tree, path2("image", "width")) {
        Err(flaw) => Err(flaw),
        Ok(width) => match uint_at(tree, path2("image", "height")) {
            Err(flaw) => Err(flaw),
            Ok(height) => Ok(ImageConfig { width, height }),
        },
    }
}

/// The configuration that `tree` holds, or the first flaw met while reading
/// its image, city, road and building parts, in this order.
pub open spec fn config_at(tree: TreeMap<Setting>) -> Result<Config, Flaw> {
    match image_config_at(tree) {
        Err(flaw) => Err(flaw),
        Ok(image) => match city_config_at(tree) {
            Err(flaw) => Err(flaw),
            Ok(city) => match road_config_at(tree) {
                Err(flaw) => Err(flaw),
                Ok(roads) => match building_config_at(tree) {
                    Err(flaw) => Err(flaw),
                    Ok(buildings) => Ok(Config { image, city, roads, buildings }),
                },
            },
        },
    }
}

fn two<'a>(a: &'a str, b: &'a str) -> (r: Vec<&'a str>)
    ensures
        path_of(r@) == path2(a, b),
{
    let mut r: Vec<&str> = Vec::new();
    r.push(a);
    r.push(b);
    assert(path_of(r@) =~= path2(a, b));
    r
}

fn three<'a>(a: &'a str, b: &'a str, c: &'a str) -> (r: Vec<&'a str>)
    ensures
        path_of(r@) == path3(a, b, c),
{
    let mut r: Vec<&str> = Vec::new();
    r.push(a);
    r.push(b);
    r.push(c);
    assert(path_of(r@) =~= path3(a, b, c));
    r
}

impl TryFrom<&Settings> for RoadConfig {
    type Error = Error;

    /// Reads the road configuration that `settings` hold.
    fn try_from(settings: &Settings) -> (res: Result<Self, Error>)
        ensures
            agrees(res, road_config_at(settings.tree())),
    {
        Ok(
            Self {
                density: Distribution2::try_from_settings(settings, two("roads", "density"))?,
                breadth: Distribution::try_from_settings(settings, two("roads", "breadth"))?,
            },
        )
    }
}

/// What the conversion returns is stated on `try_from` itself.
impl TryFromSpecImpl<&Settings> for RoadConfig {
    open spec fn obeys_try_from_spec() -> bool {
        false
    }

    open spec fn try_from_spec(settings: &Settings) -> Result<Self, Error> {
        arbitrary()
    }
}

impl TryFrom<&Settings> for BuildingConfig {
    type Error = Error;

    /// Reads the building configuration that `settings` hold.
    fn try_from(settings: &Settings) -> (res: Result<Self, Error>)
        ensures
            agrees(res, building_config_at(settings.tree())),
    {
        Ok(
            Self {
                density: Distribution2::try_from_settings(settings, two("buildings", "density"))?,
                spacing: Distribution::try_from_settings(settings, two("alleys", "breadth"))?,
                stepbacks: Distribution::try_from_settings(
                    settings,
                    three("buildings", "walls", "stepback"),
                )?,
                roof_border: Distribution::try_from_settings(
                    settings,
                    three("buildings", "roof", "border"),
                )?,
                roof_tint: Distribution::try_from_settings(
                    settings,
                    three("buildings", "roof", "tint"),
                )?,
            },
        )
    }
}

/// What the conversion returns is stated on `try_from` itself.
impl TryFromSpecImpl<&Settings> for BuildingConfig {
    open spec fn obeys_try_from_spec() -> bool {
        false
    }

    open spec fn try_from_spec(settings: &Settings) -> Result<Self, Error> {
        arbitrary()
    }
}

impl TryFrom<&Settings> for CityConfig {
    type Error = Error;

    /// Reads the city configuration that `settings` hold.
    fn try_from(settings: &Settings) -> (res: Result<Self, Error>)
        ensures
            agrees(res, city_config_at(settings.tree())),
    {
        Ok(
            Self {
                width: settings.get_float(two("city", "width"))?,
                height: settings.get_float(two("city", "height"))?,
                sidewalk_breadth: settings.get_float(two("sidewalk", "breadth"))?,
            },
        )
    }
}

/// What the conversion returns is stated on `try_from` itself.
impl TryFromSpecImpl<&Settings> for CityConfig {
    open spec fn obeys_try_from_spec() -> bool {
        false
    }

    open spec fn try_from_spec(settings: &Settings) -> Result<Self, Error> {
        arbitrary()
    }
}

impl TryFrom<&Settings> for ImageConfig {
    type Error = Error;

    /// Reads the image configuration that `settings` hold.
    fn try_from(settings: &Settings) -> (res: Result<Self, Error>)
        ensures
            agrees(res, image_config_at(settings.tree())),
    {
        Ok(
            Self {
                width: settings.get_uint(two("image", "width"))?,
                height: settings.get_uint(two("image", "height"))?,
            },
        )
    }
}

/// What the conversion returns is stated on `try_from` itself.
impl TryFromSpecImpl<&Settings> for ImageConfig {
    open spec fn obeys_try_from_spec() -> bool {
        false
    }

    open spec fn try_from_spec(settings: &Settings) -> Result<Self, Error> {
        arbitrary()
    }
}

impl TryFrom<Settings> for Config {
    type Error = Error;

    /// Reads the whole configuration that `settings` hold.
    fn try_from(settings: Settings) -> (res: Result<Self, Error>)
        ensures
            agrees(res, config_at(settings.tree())),
    {
        Ok(
            Self {
                image: ImageConfig::try_from(&settings)?,
                city: CityConfig::try_from(&settings)?,
                roads: RoadConfig::try_from(&settings)?,
                buildings: BuildingConfig::try_from(&settings)?,
            },
        )
    }
}

/// What the conversion returns is stated on `try_from` itself.
impl TryFromSpecImpl<Settings> for Config {
    open spec fn obeys_try_from_spec() -> bool {
        false
    }

    open spec fn try_from_spec(settings: Settings) -> Result<Self, Error> {
        arbitrary()
    }
}

} // verus!
