use vstd::prelude::*;

use crate::geom::{Recti, Vec2i};
use crate::units::{DT_MAX, QMAX, SCALE, WATER_FLOOR};

verus! {

/// Side length of a cell's bounding square, one sprite in size.
pub const CELL_DIM: i64 = 32_000;

/// Points awarded for taking a fully grown crop.
pub const HARVEST_POINTS: i32 = 10;

/// An opaque reference to an image owned by the drawing layer; the core
/// stores it and hands it back, never interpreting it.
#[derive(Clone, Copy, PartialEq, Eq, Structural, Debug)]
pub struct VisualHandle {
    pub id: u32,
}

/// The visual stage a plant is in, derived from its growth counter.
#[derive(Clone, Copy, PartialEq, Eq, Structural, Debug)]
pub enum GrowthStage {
    Seed,
    Sprout,
    Mature,
}

/// An immutable description of a crop species: its timings, its water
/// consumption, and handles to its stage images.
#[derive(Clone, Copy, Debug)]
pub struct PlantType {
    pub name: &'static str,
    pub sprout_time: i64,
    pub grow_time: i64,
    pub water_usage: i64,
    pub sprout_visual: VisualHandle,
    pub plant_visual: VisualHandle,
}

pub open spec fn plant_type_wf(t: PlantType) -> bool {
    &&& 0 <= t.sprout_time <= QMAX
    &&& 0 <= t.grow_time <= QMAX
    &&& 0 <= t.water_usage <= QMAX
}

impl PlantType {
    pub fn new(
        name: &'static str,
        sprout_time: i64,
        grow_time: i64,
        water_usage: i64,
        sprout_visual: VisualHandle,
        plant_visual: VisualHandle,
    ) -> (t: PlantType)
        requires
            0 <= sprout_time <= QMAX,
            0 <= grow_time <= QMAX,
            0 <= water_usage <= QMAX,
        ensures
            t == (PlantType {
                name,
                sprout_time,
                grow_time,
                water_usage,
                sprout_visual,
                plant_visual,
            }),
    {
        PlantType { name, sprout_time, grow_time, water_usage, sprout_visual, plant_visual }
    }
}

/// One planted crop: its species and the seconds left until maturity.
#[derive(Clone, Copy, Debug)]
pub struct Plant {
    pub plant_type: PlantType,
    pub grow_counter: i64,
}

pub open spec fn plant_wf(p: Plant) -> bool {
    &&& plant_type_wf(p.plant_type)
    &&& -DT_MAX <= p.grow_counter <= 2 * QMAX
}

/// A plant is mature once its growth counter has run out.
pub open spec fn plant_mature(p: Plant) -> bool {
    p.grow_counter <= 0
}

/// The stage shown for a plant: mature when grown, sprout once the counter
/// is within the species' sprout window, seed before that.
pub open spec fn stage_of(p: Plant) -> GrowthStage {
    if p.grow_counter <= 0 {
        GrowthStage::Mature
    } else if p.grow_counter <= p.plant_type.sprout_time {
        GrowthStage::Sprout
    } else {
        GrowthStage::Seed
    }
}

/// One growth tick: while the plant is not mature and the soil is moist,
/// moisture falls by `water_usage * dt` and the counter falls by `dt`;
/// otherwise nothing changes.
pub open spec fn plant_advance(p: Plant, water: int, dt: int) -> (Plant, int) {
    if p.grow_counter > 0 && water > 0 {
        (
            Plant { plant_type: p.plant_type, grow_counter: (p.grow_counter - dt) as i64 },
            water - p.plant_type.water_usage * dt / (SCALE as int),
        )
    } else {
        (p, water)
    }
}

/// Harvesting a mature plant scores points and winds the counter back to
/// the sprout stage; an immature plant is left alone.
pub open spec fn plant_harvest(p: Plant) -> (Plant, int) {
    if p.grow_counter <= 0 {
        (Plant { plant_type: p.plant_type, grow_counter: p.plant_type.sprout_time }, HARVEST_POINTS as int)
    } else {
        (p, 0)
    }
}

impl Plant {
    pub fn new(plant_type: &PlantType) -> (p: Plant)
        requires
            plant_type_wf(*plant_type),
        ensures
            p.plant_type == *plant_type,
            p.grow_counter == plant_type.grow_time + plant_type.sprout_time,
            plant_wf(p),
    {
        Plant { plant_type: *plant_type, grow_counter: plant_type.grow_time + plant_type.sprout_time }
    }

    /// Advances growth by `dt` seconds against the given soil moisture.
    pub fn update(&mut self, dt: i64, water_level: &mut i64)
        requires
            plant_wf(*old(self)),
            0 <= dt <= DT_MAX,
            WATER_FLOOR <= *old(water_level) <= QMAX,
        ensures
            *final(self) == plant_advance(*old(self), *old(water_level) as int, dt as int).0,
            *final(water_level) == plant_advance(*old(self), *old(water_level) as int, dt as int).1,
            plant_wf(*final(self)),
            WATER_FLOOR <= *final(water_level) <= QMAX,
    {
        if self.grow_counter > 0 && *water_level > 0 {
            proof {
                assert(self.plant_type.water_usage * dt <= QMAX * DT_MAX) by (nonlinear_arith)
                    requires
                        0 <= self.plant_type.water_usage <= QMAX,
                        0 <= dt <= DT_MAX,
                ;
                assert(0 <= self.plant_type.water_usage * dt) by (nonlinear_arith)
                    requires
                        0 <= self.plant_type.water_usage,
                        0 <= dt,
                ;
            }
            let used = crate::units::scale_mul(self.plant_type.water_usage, dt);
            *water_level = *water_level - used;
            self.grow_counter = self.grow_counter - dt;
        }
    }

    /// Scores a mature plant and resets it to its sprout stage.
    pub fn harvest(&mut self, score: &mut i32)
        requires
            plant_wf(*old(self)),
            *old(score) <= i32::MAX - HARVEST_POINTS,
        ensures
            *final(self) == plant_harvest(*old(self)).0,
            *final(score) == *old(score) + plant_harvest(*old(self)).1,
            plant_wf(*final(self)),
    {
        if self.grow_counter <= 0 {
            *score = *score + HARVEST_POINTS;
            self.grow_counter = self.plant_type.sprout_time;
        }
    }

    /// The stage the drawing layer should show for this plant.
    pub fn render_stage(&self) -> (s: GrowthStage)
        ensures
            s == stage_of(*self),
    {
        if self.grow_counter <= 0 {
            GrowthStage::Mature
        } else if self.grow_counter <= self.plant_type.sprout_time {
            GrowthStage::Sprout
        } else {
            GrowthStage::Seed
        }
    }
}

/// What the drawing layer needs of one cell: where it is, whether the soil
/// is wet, and the stage of its plant, if any.
#[derive(Clone, Copy, Debug)]
pub struct CellRender {
    pub pos: Vec2i,
    pub watered: bool,
    pub stage: Option<GrowthStage>,
    pub species: Option<PlantType>,
}

/// One plantable spot: its centre, its query rectangle, its soil moisture
/// and at most one plant.
#[derive(Clone, Copy)]
pub struct CropGridCell {
    pub pos: Vec2i,
    pub rect: Recti,
    pub water_level: i64,
    pub plant: Option<Plant>,
}

/// The fixed bounding square around a cell centre.
pub open spec fn cell_rect_for(pos: Vec2i) -> Recti {
    Recti {
        x: (pos.x - CELL_DIM / 2) as i64,
        y: (pos.y - CELL_DIM / 2) as i64,
        w: CELL_DIM,
        h: CELL_DIM,
    }
}

pub open spec fn cell_wf(c: CropGridCell) -> bool {
    &&& -2 * QMAX <= c.pos.x <= 2 * QMAX
    &&& -2 * QMAX <= c.pos.y <= 2 * QMAX
    &&& c.rect == cell_rect_for(c.pos)
    &&& WATER_FLOOR <= c.water_level <= QMAX
    &&& match c.plant {
        Some(p) => plant_wf(p),
        None => true,
    }
}

/// Planting takes an empty cell only; an occupied cell is left untouched.
pub open spec fn cell_plant(c: CropGridCell, t: PlantType) -> CropGridCell {
    match c.plant {
        Some(_) => c,
        None => CropGridCell {
            plant: Some(
                Plant { plant_type: t, grow_counter: (t.grow_time + t.sprout_time) as i64 },
            ),
            ..c
        },
    }
}

/// Watering takes dry soil only; moist soil keeps its level.
pub open spec fn cell_water(c: CropGridCell, portion: i64) -> CropGridCell {
    if c.water_level <= 0 {
        CropGridCell { water_level: portion, ..c }
    } else {
        c
    }
}

/// Pulling always empties the cell; only a mature plant scores.
pub open spec fn cell_pull(c: CropGridCell) -> (CropGridCell, int) {
    let delta: int = match c.plant {
        Some(p) => if plant_mature(p) {
            HARVEST_POINTS as int
        } else {
            0
        },
        None => 0,
    };
    (CropGridCell { plant: None, ..c }, delta)
}

/// Harvesting takes a mature plant only: it scores, winds the plant back
/// to its sprout stage, and removes a species with no sprout stage
/// entirely. An immature or absent plant is left untouched.
pub open spec fn cell_harvest(c: CropGridCell) -> (CropGridCell, int) {
    match c.plant {
        Some(p) => if plant_mature(p) {
            let grown = plant_harvest(p);
            let left: Option<Plant> = if p.plant_type.sprout_time == 0 {
                None
            } else {
                Some(grown.0)
            };
            (CropGridCell { plant: left, ..c }, grown.1)
        } else {
            (c, 0)
        },
        None => (c, 0),
    }
}

/// Theft empties the cell without scoring.
pub open spec fn cell_steal(c: CropGridCell) -> CropGridCell {
    CropGridCell { plant: None, ..c }
}

/// One growth tick of the cell: its plant, if any, draws on the cell's
/// own moisture.
pub open spec fn cell_advance(c: CropGridCell, dt: int) -> CropGridCell {
    match c.plant {
        Some(p) => {
            let stepped = plant_advance(p, c.water_level as int, dt);
            CropGridCell { plant: Some(stepped.0), water_level: stepped.1 as i64, ..c }
        },
        None => c,
    }
}

/// What the drawing layer is shown for a cell.
pub open spec fn cell_render_spec(c: CropGridCell) -> CellRender {
    CellRender {
        pos: c.pos,
        watered: c.water_level > 0,
        stage: match c.plant {
            Some(p) => Some(stage_of(p)),
            None => None,
        },
        species: match c.plant {
            Some(p) => Some(p.plant_type),
            None => None,
        },
    }
}

impl CropGridCell {
    pub fn new(pos: Vec2i) -> (c: CropGridCell)
        requires
            -2 * QMAX <= pos.x <= 2 * QMAX,
            -2 * QMAX <= pos.y <= 2 * QMAX,
        ensures
            c == (CropGridCell {
                pos,
                rect: cell_rect_for(pos),
                water_level: 0,
                plant: None,
            }),
            cell_wf(c),
    {
        let rect = Recti {
            x: pos.x - CELL_DIM / 2,
            y: pos.y - CELL_DIM / 2,
            w: CELL_DIM,
            h: CELL_DIM,
        };
        CropGridCell { pos, rect, water_level: 0, plant: None }
    }

    /// Puts a new plant of the given species into an empty cell.
    pub fn plant(&mut self, plant_type: &PlantType)
        requires
            cell_wf(*old(self)),
            plant_type_wf(*plant_type),
        ensures
            *final(self) == cell_plant(*old(self), *plant_type),
            cell_wf(*final(self)),
    {
        if self.plant.is_none() {
            self.plant = Some(Plant::new(plant_type));
        }
    }

    /// Harvests the cell's plant if it is mature.
    pub fn harvest(&mut self, score: &mut i32)
        requires
            cell_wf(*old(self)),
            *old(score) <= i32::MAX - HARVEST_POINTS,
        ensures
            *final(self) == cell_harvest(*old(self)).0,
            *final(score) == *old(score) + cell_harvest(*old(self)).1,
            cell_wf(*final(self)),
    {
        match &mut self.plant {
            Some(p) => {
                if p.grow_counter <= 0 {
                    p.harvest(score);
                    if p.plant_type.sprout_time == 0 {
                        self.plant = None;
                    }
                }
            },
            None => {},
        }
    }

    /// Empties the cell, scoring only for a mature plant.
    pub fn pull(&mut self, score: &mut i32)
        requires
            cell_wf(*old(self)),
            *old(score) <= i32::MAX - HARVEST_POINTS,
        ensures
            *final(self) == cell_pull(*old(self)).0,
            *final(score) == *old(score) + cell_pull(*old(self)).1,
            cell_wf(*final(self)),
    {
        let mature = match &self.plant {
            Some(p) => p.grow_counter <= 0,
            None => false,
        };
        if mature {
            *score = *score + HARVEST_POINTS;
        }
        self.plant = None;
    }

    /// Empties the cell without scoring: a crow took the plant.
    pub fn steal(&mut self)
        requires
            cell_wf(*old(self)),
        ensures
            *final(self) == cell_steal(*old(self)),
            cell_wf(*final(self)),
    {
        self.plant = None;
    }

    /// One growth tick of the cell.
    pub fn update(&mut self, dt: i64)
        requires
            cell_wf(*old(self)),
            0 <= dt <= DT_MAX,
        ensures
            *final(self) == cell_advance(*old(self), dt as int),
            cell_wf(*final(self)),
    {
        let mut water = self.water_level;
        match &mut self.plant {
            Some(p) => {
                p.update(dt, &mut water);
            },
            None => {},
        }
        self.water_level = water;
    }

    /// Moistens dry soil with the given portion.
    pub fn water(&mut self, portion: i64)
        requires
            cell_wf(*old(self)),
            0 <= portion <= QMAX,
        ensures
            *final(self) == cell_water(*old(self), portion),
            cell_wf(*final(self)),
    {
        if self.water_level <= 0 {
            self.water_level = portion;
        }
    }

    /// The data snapshot the drawing layer works from.
    pub fn render(&self) -> (r: CellRender)
        ensures
            r == cell_render_spec(*self),
    {
        let stage = match &self.plant {
            Some(p) => Some(p.render_stage()),
            None => None,
        };
        let species = match &self.plant {
            Some(p) => Some(p.plant_type),
            None => None,
        };
        CellRender { pos: self.pos, watered: self.water_level > 0, stage, species }
    }
}

/// Planting an occupied cell changes nothing: the plant already there
/// keeps its species and its growth counter.
pub proof fn lemma_plant_occupied_unchanged(c: CropGridCell, t: PlantType)
    requires
        c.plant is Some,
    ensures
        cell_plant(c, t) == c,
{
}

/// A growth tick with dry soil or a mature plant changes nothing.
pub proof fn lemma_advance_halted(p: Plant, water: int, dt: int)
    requires
        water <= 0 || p.grow_counter <= 0,
    ensures
        plant_advance(p, water, dt) == (p, water),
{
}

/// A growth tick of a growing, watered plant lowers the counter by
/// exactly `dt` and the moisture by exactly the scaled usage.
pub proof fn lemma_advance_active(p: Plant, water: int, dt: int)
    requires
        water > 0,
        p.grow_counter > 0,
        plant_wf(p),
        0 <= dt <= DT_MAX,
    ensures
        plant_advance(p, water, dt).0.grow_counter == p.grow_counter - dt,
        plant_advance(p, water, dt).1 == water - p.plant_type.water_usage * dt / (SCALE as int),
        plant_advance(p, water, dt).0.plant_type == p.plant_type,
{
}

/// Harvesting a mature repeatable plant scores and leaves the plant in
/// place, wound back to its sprout stage.
pub proof fn lemma_harvest_mature_repeatable(c: CropGridCell)
    requires
        c.plant is Some,
        plant_mature(c.plant.unwrap()),
        c.plant.unwrap().plant_type.sprout_time > 0,
    ensures
        cell_harvest(c).1 == HARVEST_POINTS as int,
        cell_harvest(c).0.plant is Some,
        cell_harvest(c).0.plant.unwrap().grow_counter == c.plant.unwrap().plant_type.sprout_time,
        cell_harvest(c).0.plant.unwrap().plant_type == c.plant.unwrap().plant_type,
{
}

/// Harvesting a mature one-shot plant scores and empties the cell.
pub proof fn lemma_harvest_mature_one_shot(c: CropGridCell)
    requires
        c.plant is Some,
        plant_mature(c.plant.unwrap()),
        c.plant.unwrap().plant_type.sprout_time == 0,
    ensures
        cell_harvest(c).1 == HARVEST_POINTS as int,
        cell_harvest(c).0.plant is None,
{
}

/// Pulling scores exactly for a mature plant, never otherwise, and always
/// leaves the cell empty.
pub proof fn lemma_pull_scores_mature_only(c: CropGridCell)
    ensures
        cell_pull(c).0.plant is None,
        cell_pull(c).1 == (if c.plant is Some && plant_mature(c.plant.unwrap()) {
            HARVEST_POINTS as int
        } else {
            0
        }),
{
}

/// Pulling twice is safe: the second pull scores nothing and changes
/// nothing.
pub proof fn lemma_pull_twice(c: CropGridCell)
    ensures
        cell_pull(cell_pull(c).0).0 == cell_pull(c).0,
        cell_pull(cell_pull(c).0).1 == 0,
{
}

/// Watering is idempotent while the soil is moist: after one watering
/// with a positive portion, a second watering with any portion changes
/// nothing.
pub proof fn lemma_water_idempotent(c: CropGridCell, first: i64, second: i64)
    requires
        first > 0,
    ensures
        cell_water(cell_water(c, first), second) == cell_water(c, first),
        cell_water(c, first).water_level == (if c.water_level <= 0 {
            first
        } else {
            c.water_level
        }),
{
}

} // verus!
