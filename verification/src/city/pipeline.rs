//! The phases of city generation: roads and blocks first, then the buildings
//! of each block.
//!
//! Each phase comes in two steps. The plan says which samples the phase needs
//! and resolves those that need no sampler; the build step takes all samples of
//! the phase and lays the city out. Whoever drives the phases fetches, between
//! the two steps, what the plan left to the sampler, in the order of the plan,
//! and gives up at the first failure.

use vstd::prelude::*;
use crate::city::blockface::ring_buildings;
use crate::city::fixed::{clamp, fixed_mul, product, quotient, recip, sat_add, to_whole, whole, ONE};
use crate::city::geom::rectangle::inset_corners;
use crate::city::geom::vector::Vector2;
use crate::city::grid::{
    axis_cells, cell_rectangles, corners, line_rectangles, x_lines, y_lines, GridPartition,
};
use crate::city::objects::{Block, Building, Road};
use crate::city::sampling::{resolves, Sampling};
use crate::city::settings::config::BuildingConfig;
use crate::city::{Builder, BuilderView, GenerateError};

verus! {

/// The most lines that fit along `extent` at `max_density` lines per unit
/// length, and one to spare.
pub open spec fn line_budget(extent: i64, max_density: i64) -> u32 {
    whole(clamp(product(extent as int, max_density as int) + ONE) as int)
}

/// `v`, held to the `u32` range.
pub open spec fn clamp_u32(v: int) -> u32 {
    if v < 0 {
        0
    } else if v > u32::MAX {
        u32::MAX
    } else {
        v as u32
    }
}

/// The pitch deltas that density samples stand for: their reciprocals.
pub open spec fn pitches(densities: Seq<i64>) -> Seq<i64> {
    Seq::new(densities.len(), |i: int| quotient(ONE as int, densities[i] as int))
}

/// The share of `weight` that `tint` stands for, as a colour channel: the
/// whole part of their product, held to the range of a channel.
pub open spec fn tint_channel(weight: int, tint: i64) -> int {
    if tint <= 0 {
        0
    } else if weight * tint / (ONE as int) > 255 {
        255
    } else {
        weight * tint / (ONE as int)
    }
}

/// `v`, or the brightest value of a channel if `v` exceeds it.
pub open spec fn brightest(v: int) -> u8 {
    if v > 255 {
        255
    } else {
        v as u8
    }
}

/// The colour of a roof: a base gray, tinted towards red and green in
/// proportion to `tint`.
pub open spec fn roof_color(tint: i64) -> Seq<u8> {
    seq![
        brightest(0xB0 + tint_channel(0x30, tint)),
        brightest(0xB0 + tint_channel(0x20, tint)),
        0xB0u8,
        0xFFu8,
    ]
}

/// The corners of the asphalt of each road.
pub open spec fn road_corners(roads: Seq<Road>) -> Seq<(Vector2, Vector2)> {
    roads.map_values(|r: Road| r.asphalt@)
}

/// The samples that the road phase needs, in the order in which they are
/// fetched.
pub struct RoadPlan {
    pub x_densities: Result<Sampling, GenerateError>,
    pub y_densities: Result<Sampling, GenerateError>,
    pub breadths: Result<Sampling, GenerateError>,
}

/// The samples that the buildings of one block need, in the order in which
/// they are fetched.
pub struct BlockPlan {
    pub x_densities: Result<Sampling, GenerateError>,
    pub y_densities: Result<Sampling, GenerateError>,
    pub spacings: Result<Sampling, GenerateError>,
    pub stepbacks: Result<Sampling, GenerateError>,
    pub roof_edge_breadths: Result<Sampling, GenerateError>,
    pub roof_tints: Result<Sampling, GenerateError>,
}

/// The samples for the buildings of one block.
pub struct BlockSamples {
    pub x_densities: Vec<i64>,
    pub y_densities: Vec<i64>,
    pub spacings: Vec<i64>,
    pub stepbacks: Vec<i64>,
    pub roof_edge_breadths: Vec<i64>,
    pub roof_tints: Vec<i64>,
}

/// What the road phase makes of a builder: the lines of the grid over the
/// city become its roads and the cells its blocks, each still without buildings
/// and with the configured sidewalk.
pub open spec fn roads_built(
    before: BuilderView,
    after: BuilderView,
    x_densities: Seq<i64>,
    y_densities: Seq<i64>,
    breadths: Seq<i64>,
) -> bool {
    let size = before.city.size;
    let xl = x_lines(pitches(x_densities), breadths, size);
    let yl = y_lines(pitches(x_densities), pitches(y_densities), breadths, size);
    let cells = cell_rectangles(axis_cells(xl, size.x), axis_cells(yl, size.y));
    &&& after.config == before.config
    &&& after.city.size == size
    &&& after.city.image_size == before.city.image_size
    &&& road_corners(after.city.roads) == line_rectangles(xl, yl, size)
    &&& after.city.blocks.len() == cells.len()
    &&& forall|i: int|
        0 <= i < cells.len() ==> {
            &&& (#[trigger] after.city.blocks[i]).footprint@ == cells[i]
            &&& after.city.blocks[i].buildings@.len() == 0
            &&& after.city.blocks[i].sidewalk_breadth == before.config.city.sidewalk_breadth
        }
}

/// The size of the area of `block` that buildings may stand on.
pub open spec fn buildable_size(block: Block) -> Vector2 {
    let inner = inset_corners(block.footprint@, block.sidewalk_breadth);
    Vector2 { x: clamp(inner.1.x - inner.0.x), y: clamp(inner.1.y - inner.0.y) }
}

/// How many buildings `samples` give `block`: one for each building of the
/// ring that has both a roof edge breadth and a roof tint.
pub open spec fn buildings_made(block: Block, samples: BlockSamples) -> int {
    let ring = ring_buildings(
        buildable_size(block),
        pitches(samples.x_densities@),
        pitches(samples.y_densities@),
        samples.spacings@,
        samples.stepbacks@,
    );
    let edged = if ring.len() <= samples.roof_edge_breadths.len() {
        ring.len() as int
    } else {
        samples.roof_edge_breadths.len() as int
    };
    if edged <= samples.roof_tints.len() {
        edged
    } else {
        samples.roof_tints.len() as int
    }
}

/// What the building phase makes of a block: behind the buildings it had
/// stand those of the ring around its buildable area, each with its roof edge
/// breadth and its roof colour.
pub open spec fn block_built(before: Block, after: Block, samples: BlockSamples) -> bool {
    let ring = ring_buildings(
        buildable_size(before),
        pitches(samples.x_densities@),
        pitches(samples.y_densities@),
        samples.spacings@,
        samples.stepbacks@,
    );
    let had = before.buildings@.len() as int;
    &&& after.footprint == before.footprint
    &&& after.sidewalk_breadth == before.sidewalk_breadth
    &&& after.buildings@.len() == had + buildings_made(before, samples)
    &&& forall|i: int| 0 <= i < had ==> after.buildings@[i] == before.buildings@[i]
    &&& forall|i: int|
        0 <= i < buildings_made(before, samples) ==> {
            &&& (#[trigger] after.buildings@[had + i]).footprint@ == ring[i]
            &&& after.buildings@[had + i].roof_edge_breadth == samples.roof_edge_breadths@[i]
            &&& after.buildings@[had + i].height == 0
            &&& after.buildings@[had + i].roof_color@ == roof_color(samples.roof_tints@[i])
        }
}

/// Whether `plan` holds the samples that the buildings of `block` need: for
/// each axis as many building densities as twice the buildings that could line
/// one edge at the greatest density, and for the whole ring as many spacings,
/// stepbacks, roof edge breadths and roof tints as that allows buildings, less
/// the four corners.
pub open spec fn block_planned(plan: BlockPlan, config: BuildingConfig, block: Block) -> bool {
    let size = buildable_size(block);
    let across = clamp_u32(2 * line_budget(size.x, config.density.x.max));
    let down = clamp_u32(2 * line_budget(size.y, config.density.y.max));
    let around = clamp_u32(across + down - 4);
    &&& resolves(plan.x_densities, across, config.density.x)
    &&& resolves(plan.y_densities, down, config.density.y)
    &&& resolves(plan.spacings, around, config.spacing)
    &&& resolves(plan.stepbacks, around, config.stepbacks)
    &&& resolves(plan.roof_edge_breadths, around, config.roof_border)
    &&& resolves(plan.roof_tints, around, config.roof_tint)
}

/// What the building phase makes of a builder: every block that has samples
/// is ringed with buildings, and nothing else changes.
pub open spec fn buildings_built(
    before: BuilderView,
    after: BuilderView,
    samples: Seq<BlockSamples>,
) -> bool {
    &&& after.config == before.config
    &&& after.city.size == before.city.size
    &&& after.city.image_size == before.city.image_size
    &&& after.city.roads == before.city.roads
    &&& after.city.blocks.len() == before.city.blocks.len()
    &&& forall|i: int|
        0 <= i < before.city.blocks.len() && i < samples.len() ==> block_built(
            before.city.blocks[i],
            #[trigger] after.city.blocks[i],
            samples[i],
        )
    &&& forall|i: int|
        samples.len() <= i < before.city.blocks.len() ==> #[trigger] after.city.blocks[i]
            == before.city.blocks[i]
}

/// The pitch deltas that `densities` stand for.
fn to_pitches(densities: &Vec<i64>) -> (r: Vec<i64>)
    ensures
        r@ == pitches(densities@),
{
    let mut r: Vec<i64> = Vec::new();
    let mut i: usize = 0;
    while i < densities.len()
        invariant
            i <= densities.len(),
            r.len() == i,
            forall|j: int| 0 <= j < i ==> r@[j] == quotient(ONE as int, densities@[j] as int),
        decreases densities.len() - i,
    {
        r.push(recip(densities[i]));
        i = i + 1;
    }
    assert(r@ =~= pitches(densities@));
    r
}

fn copy_samples(samples: &Vec<i64>) -> (r: Vec<i64>)
    ensures
        r@ == samples@,
{
    let mut r: Vec<i64> = Vec::new();
    let mut i: usize = 0;
    while i < samples.len()
        invariant
            i <= samples.len(),
            r.len() == i,
            forall|j: int| 0 <= j < i ==> r@[j] == samples@[j],
        decreases samples.len() - i,
    {
        r.push(samples[i]);
        i = i + 1;
    }
    assert(r@ =~= samples@);
    r
}

fn max_lines(extent: i64, max_density: i64) -> (r: u32)
    ensures
        r == line_budget(extent, max_density),
{
    to_whole(sat_add(fixed_mul(extent, max_density), ONE))
}

fn ring_budget(across: u32, down: u32) -> (r: u32)
    ensures
        r == clamp_u32(across + down - 4),
{
    let total: u64 = across as u64 + down as u64;
    if total < 4 {
        0
    } else if total - 4 > u32::MAX as u64 {
        u32::MAX
    } else {
        (total - 4) as u32
    }
}

fn channel(weight: u8, tint: i64) -> (r: u8)
    ensures
        r == tint_channel(weight as int, tint),
{
    if tint <= 0 {
        0
    } else {
        assert(0 <= weight * tint <= 255 * 0x7fff_ffff_ffff_ffff) by (nonlinear_arith)
            requires
                0 <= weight <= 255,
                0 < tint <= 0x7fff_ffff_ffff_ffff,
        ;
        let share: i128 = (weight as i128) * (tint as i128) / (ONE as i128);
        if share > 255 {
            255
        } else {
            share as u8
        }
    }
}

fn brighten(base: u8, by: u8) -> (r: u8)
    ensures
        r == brightest(base + by),
{
    let sum: u16 = base as u16 + by as u16;
    if sum > 255 {
        255
    } else {
        sum as u8
    }
}

fn tinted_roof(tint: i64) -> (r: [u8; 4])
    ensures
        r@ == roof_color(tint),
{
    let red_tint = channel(0x30, tint);
    let green_tint = channel(0x20, tint);
    let color = [brighten(0xB0, red_tint), brighten(0xB0, green_tint), 0xB0, 0xFF];
    assert(color@ =~= roof_color(tint));
    color
}

impl Builder {
    /// The samples that the road phase needs: for each axis as many road
    /// densities as lines could fit at the greatest density, and a breadth for each
    /// of these.
    pub fn plan_roads(&self) -> (plan: RoadPlan)
        ensures
            ({
                let size = self@.city.size;
                let roads = self@.config.roads;
                let across = line_budget(size.x, roads.density.x.max);
                let down = line_budget(size.y, roads.density.y.max);
                &&& resolves(plan.x_densities, across, roads.density.x)
                &&& resolves(plan.y_densities, down, roads.density.y)
                &&& resolves(plan.breadths, clamp_u32(across + down), roads.breadth)
            }),
    {
        let road_config = &self.config.roads;
        let across = max_lines(self.city.size.x, road_config.density.x.max);
        let down = max_lines(self.city.size.y, road_config.density.y.max);
        let max_breadth = across.saturating_add(down);
        RoadPlan {
            x_densities: Self::get_sample(across, &road_config.density.x),
            y_densities: Self::get_sample(down, &road_config.density.y),
            breadths: Self::get_sample(max_breadth, &road_config.breadth),
        }
    }

    /// Generates the roads and blocks of the city from the samples of the
    /// road phase. The blocks are left flat and empty.
    pub fn build_roads(
        self,
        x_densities: Vec<i64>,
        y_densities: Vec<i64>,
        breadths: Vec<i64>,
    ) -> (res: Result<Self, GenerateError>)
        ensures
            res matches Ok(after) && roads_built(
                self@,
                after@,
                x_densities@,
                y_densities@,
                breadths@,
            ),
    {
        let mut builder = self;
        let size = builder.city.size;
        let x_offsets = to_pitches(&x_densities);
        let y_offsets = to_pitches(&y_densities);
        let grid = GridPartition::new(x_offsets, y_offsets, breadths, size)?;
        let sidewalk_breadth = builder.config.city.sidewalk_breadth;

        let mut roads: Vec<Road> = Vec::new();
        let mut i: usize = 0;
        while i < grid.lines.len()
            invariant
                i <= grid.lines.len(),
                roads.len() == i,
                forall|j: int| 0 <= j < i ==> (#[trigger] roads@[j]).asphalt == grid.lines@[j],
            decreases grid.lines.len() - i,
        {
            roads.push(Road { asphalt: grid.lines[i] });
            i = i + 1;
        }
        assert(road_corners(roads@) =~= corners(grid.lines@));

        let mut blocks: Vec<Block> = Vec::new();
        let mut k: usize = 0;
        while k < grid.rectangles.len()
            invariant
                k <= grid.rectangles.len(),
                blocks.len() == k,
                forall|j: int|
                    0 <= j < k ==> {
                        &&& (#[trigger] blocks@[j]).footprint == grid.rectangles@[j]
                        &&& blocks@[j].buildings@.len() == 0
                        &&& blocks@[j].sidewalk_breadth == sidewalk_breadth
                    },
            decreases grid.rectangles.len() - k,
        {
            blocks.push(
                Block { footprint: grid.rectangles[k], buildings: Vec::new(), sidewalk_breadth },
            );
            k = k + 1;
        }
        proof {
            let xl = x_lines(pitches(x_densities@), breadths@, size);
            let yl = y_lines(pitches(x_densities@), pitches(y_densities@), breadths@, size);
            let cells = cell_rectangles(axis_cells(xl, size.x), axis_cells(yl, size.y));
            assert(corners(grid.rectangles@) == cells);
            assert forall|j: int| 0 <= j < cells.len() implies (#[trigger] blocks@[j]).footprint@
                == cells[j] by {
                assert(corners(grid.rectangles@)[j] == grid.rectangles@[j]@);
            }
        }

        builder.city.roads = roads;
        builder.city.blocks = blocks;
        Ok(builder)
    }

    /// The samples that the buildings of `block` need.
    pub fn plan_block(building_config: &BuildingConfig, block: &Block) -> (plan: BlockPlan)
        ensures
            block_planned(plan, *building_config, *block),
    {
        let size = block.buildings_boundary().dimensions();
        let across = max_lines(size.x, building_config.density.x.max).saturating_add(
            max_lines(size.x, building_config.density.x.max),
        );
        let down = max_lines(size.y, building_config.density.y.max).saturating_add(
            max_lines(size.y, building_config.density.y.max),
        );
        let max_num_buildings = ring_budget(across, down);
        BlockPlan {
            x_densities: Self::get_sample(across, &building_config.density.x),
            y_densities: Self::get_sample(down, &building_config.density.y),
            spacings: Self::get_sample(max_num_buildings, &building_config.spacing),
            stepbacks: Self::get_sample(max_num_buildings, &building_config.stepbacks),
            roof_edge_breadths: Self::get_sample(max_num_buildings, &building_config.roof_border),
            roof_tints: Self::get_sample(max_num_buildings, &building_config.roof_tint),
        }
    }

    /// Rings `block` with buildings from the samples of its building phase.
    pub fn generate_block_buildings(block: &mut Block, samples: &BlockSamples) -> (res: Result<
        (),
        GenerateError,
    >)
        ensures
            res is Ok,
            block_built(*old(block), *final(block), *samples),
    {
        let ghost before = *block;
        let size = block.buildings_boundary().dimensions();
        let x_offsets = to_pitches(&samples.x_densities);
        let y_offsets = to_pitches(&samples.y_densities);
        let building_rectangles = Self::build_buildings_around(
            size,
            x_offsets,
            y_offsets,
            copy_samples(&samples.spacings),
            copy_samples(&samples.stepbacks),
        )?;
        let ghost ring = corners(building_rectangles@);
        let ghost had = before.buildings@.len() as int;

        let mut i: usize = 0;
        while i < building_rectangles.len() && i < samples.roof_edge_breadths.len() && i
            < samples.roof_tints.len()
            invariant
                i <= building_rectangles.len(),
                i <= samples.roof_edge_breadths.len(),
                i <= samples.roof_tints.len(),
                ring == corners(building_rectangles@),
                had == before.buildings@.len(),
                block.footprint == before.footprint,
                block.sidewalk_breadth == before.sidewalk_breadth,
                block.buildings@.len() == had + i,
                forall|j: int| 0 <= j < had ==> block.buildings@[j] == before.buildings@[j],
                forall|j: int|
                    0 <= j < i ==> {
                        &&& (#[trigger] block.buildings@[had + j]).footprint@ == ring[j]
                        &&& block.buildings@[had + j].roof_edge_breadth
                            == samples.roof_edge_breadths@[j]
                        &&& block.buildings@[had + j].height == 0
                        &&& block.buildings@[had + j].roof_color@ == roof_color(
                            samples.roof_tints@[j],
                        )
                    },
            decreases building_rectangles.len() - i,
        {
            let roof_color = tinted_roof(samples.roof_tints[i]);
            assert(ring[i as int] == building_rectangles@[i as int]@);
            block.buildings.push(
                Building {
                    footprint: building_rectangles[i],
                    roof_edge_breadth: samples.roof_edge_breadths[i],
                    height: 0,
                    roof_color,
                },
            );
            i = i + 1;
        }
        Ok(())
    }

    /// The samples that the buildings of each block of the city need, block
    /// by block.
    pub fn plan_buildings(&self) -> (plans: Vec<BlockPlan>)
        ensures
            plans.len() == self@.city.blocks.len(),
            forall|i: int|
                0 <= i < plans.len() ==> block_planned(
                    #[trigger] plans@[i],
                    self@.config.buildings,
                    self@.city.blocks[i],
                ),
    {
        let mut plans: Vec<BlockPlan> = Vec::new();
        let mut i: usize = 0;
        while i < self.city.blocks.len()
            invariant
                i <= self.city.blocks.len(),
                plans.len() == i,
                forall|j: int|
                    0 <= j < i ==> block_planned(
                        #[trigger] plans@[j],
                        self.config.buildings,
                        self.city.blocks@[j],
                    ),
            decreases self.city.blocks.len() - i,
        {
            plans.push(Self::plan_block(&self.config.buildings, &self.city.blocks[i]));
            i = i + 1;
        }
        plans
    }

    /// Rings every block of the city with buildings. Block `i` is built from
    /// `samples[i]`; a block without samples stays as it is.
    pub fn build_buildings(self, samples: Vec<BlockSamples>) -> (res: Result<Self, GenerateError>)
        ensures
            res matches Ok(after) && buildings_built(self@, after@, samples@),
    {
        let mut builder = self;
        let ghost before = builder@;
        let mut i: usize = 0;
        while i < builder.city.blocks.len() && i < samples.len()
            invariant
                i <= builder.city.blocks.len(),
                i <= samples.len(),
                builder@.config == before.config,
                builder@.city.size == before.city.size,
                builder@.city.image_size == before.city.image_size,
                builder@.city.roads == before.city.roads,
                builder@.city.blocks.len() == before.city.blocks.len(),
                forall|j: int|
                    0 <= j < i ==> block_built(
                        before.city.blocks[j],
                        #[trigger] builder@.city.blocks[j],
                        samples@[j],
                    ),
                forall|j: int|
                    i <= j < before.city.blocks.len() ==> builder@.city.blocks[j]
                        == before.city.blocks[j],
            decreases samples.len() - i,
        {
            Self::generate_block_buildings(&mut builder.city.blocks[i], &samples[i])?;
            i = i + 1;
        }
        Ok(builder)
    }
}

} // verus!
