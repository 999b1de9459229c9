//! The city model and the algorithms that lay it out.

pub mod blockface;
pub mod fixed;
pub mod geom;
pub mod grid;
pub mod objects;
pub mod pipeline;
pub mod raster;
pub mod render;
pub mod sampling;
pub mod settings;
pub mod stats;
pub mod stream;
pub mod tiling;

use vstd::prelude::*;
use vstd::string::StringExecFns;
use crate::city::geom::vector::Vector2;
use crate::text::{fixed_text, fixed_to_text};
use crate::city::objects::{Block, Road};
use crate::city::settings::config::Config;

verus! {

/// Why a city could not be generated.
#[derive(Debug)]
pub enum GenerateError {
    /// The sampler could not be reached or gave an unusable reply.
    StatsRequest(stats::RequestError),
    /// The distribution kind is none of `constant`, `uniform` and `normal`.
    UnknownDistribution(String),
    /// A distribution other than `constant` has its minimum above its maximum.
    DistributionInverted { min: i64, max: i64 },
}

impl GenerateError {
    /// What the user is told. Where a request to the sampler failed the text
    /// says nothing of the sampler.
    pub open spec fn message_text(self) -> Seq<char> {
        match self {
            GenerateError::UnknownDistribution(name) => "The \""@ + name@
                + "\" distribution is unknown, are you sure you typed it correctly? We support \"normal\", \"uniform\", and \"constant\" distributions."@,
            GenerateError::DistributionInverted { min, max } =>
                "There was a distribution with a min ("@ + fixed_text(min as int)
                + ") greater than the max ("@ + fixed_text(max as int)
                + "). This is only allowed for constant distributions."@,
            GenerateError::StatsRequest(_) => "Unknown"@,
        }
    }

    /// What the user is told about the error.
    pub fn message(&self) -> (r: String)
        ensures
            r@ == self.message_text(),
    {
        match self {
            Self::UnknownDistribution(name) => {
                let mut r = String::from_str("The \"");
                r.append(name.as_str());
                r.append(
                    "\" distribution is unknown, are you sure you typed it correctly? We support \"normal\", \"uniform\", and \"constant\" distributions.",
                );
                r
            },
            Self::DistributionInverted { min, max } => {
                let mut r = String::from_str("There was a distribution with a min (");
                r.append(fixed_to_text(*min).as_str());
                r.append(") greater than the max (");
                r.append(fixed_to_text(*max).as_str());
                r.append("). This is only allowed for constant distributions.");
                r
            },
            // Don't leak information about internal infrastructure to users
            _ => String::from_str("Unknown"),
        }
    }
}

/// A city: its size, the size of its image, its roads and its blocks.
pub struct City {
    size: Vector2,
    image_size: (u32, u32),
    roads: Vec<Road>,
    blocks: Vec<Block>,
}

/// What a city holds.
pub struct CityView {
    /// The size of the city in fixed-point units.
    pub size: Vector2,
    /// The width and height of its image in pixels.
    pub image_size: (u32, u32),
    pub roads: Seq<Road>,
    pub blocks: Seq<Block>,
}

impl View for City {
    type V = CityView;

    closed spec fn view(&self) -> CityView {
        CityView {
            size: self.size,
            image_size: self.image_size,
            roads: self.roads@,
            blocks: self.blocks@,
        }
    }
}

impl City {
    /// A featureless city without roads or blocks.
    fn new() -> (city: Self)
        ensures
            city@.size == (Vector2 { x: 0, y: 0 }),
            city@.image_size == (2048u32, 2048u32),
            city@.roads.len() == 0,
            city@.blocks.len() == 0,
    {
        Self {
            size: Vector2::default(),
            image_size: (2048, 2048),
            roads: Vec::new(),
            blocks: Vec::new(),
        }
    }

    /// The size of the city in fixed-point units.
    pub fn size(&self) -> (r: Vector2)
        ensures
            r == self@.size,
    {
        self.size
    }

    /// The width and height of the image in pixels.
    pub fn image_size(&self) -> (r: (u32, u32))
        ensures
            r == self@.image_size,
    {
        self.image_size
    }

    /// The roads of the city.
    pub fn roads(&self) -> (r: &Vec<Road>)
        ensures
            r@ == self@.roads,
    {
        &self.roads
    }

    /// The blocks of the city.
    pub fn blocks(&self) -> (r: &Vec<Block>)
        ensures
            r@ == self@.blocks,
    {
        &self.blocks
    }
}

/// Builds a city phase by phase from a configuration.
pub struct Builder {
    config: Config,
    city: City,
}

/// What a builder holds: its configuration and the city so far.
pub struct BuilderView {
    pub config: Config,
    pub city: CityView,
}

impl View for Builder {
    type V = BuilderView;

    closed spec fn view(&self) -> BuilderView {
        BuilderView { config: self.config, city: self.city@ }
    }
}

impl Builder {
    /// A builder for a city of the configured size, still without roads and
    /// blocks.
    pub fn new(config: Config) -> (builder: Self)
        ensures
            builder@.config == config,
            builder@.city.size == (Vector2 { x: config.city.width, y: config.city.height }),
            builder@.city.image_size == (config.image.width, config.image.height),
            builder@.city.roads.len() == 0,
            builder@.city.blocks.len() == 0,
    {
        let mut city = City::new();
        city.size.x = config.city.width;
        city.size.y = config.city.height;
        city.image_size.0 = config.image.width;
        city.image_size.1 = config.image.height;

        Self { config, city }
    }

    /// The configuration that the builder works from.
    pub fn config(&self) -> (r: &Config)
        ensures
            *r == self@.config,
    {
        &self.config
    }

    /// The city as built so far.
    pub fn city(&self) -> (r: &City)
        ensures
            r@ == self@.city,
    {
        &self.city
    }

    /// The finished city.
    pub fn build(self) -> (city: City)
        ensures
            city@ == self@.city,
    {
        self.city
    }
}

} // verus!
