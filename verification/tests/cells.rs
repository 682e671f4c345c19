use farm_core::plants::{CropGridCell, GrowthStage, PlantType, VisualHandle};
use farm_core::geom::Vec2i;

fn handle() -> VisualHandle {
    VisualHandle { id: 0 }
}

fn potato() -> PlantType {
    // sprout 0 s, grow 10 s, usage 1 per second, in fixed-point steps
    PlantType::new("Potato", 0, 10_000, 1_000, handle(), handle())
}

fn tomato() -> PlantType {
    // sprout 6 s, grow 10 s, usage 10 per second
    PlantType::new("Tomato", 6_000, 10_000, 10_000, handle(), handle())
}

fn cell() -> CropGridCell {
    CropGridCell::new(Vec2i { x: 0, y: 0 })
}

#[test]
fn new_cell_is_dry_and_empty() {
    let c = cell();
    assert_eq!(c.water_level, 0);
    assert!(c.plant.is_none());
    assert_eq!(c.rect.x, -16_000);
    assert_eq!(c.rect.y, -16_000);
    assert_eq!(c.rect.w, 32_000);
    assert_eq!(c.rect.h, 32_000);
}

#[test]
fn growth_consumes_water_and_time_then_halts() {
    // A potato watered with 5 units: one five-second tick uses all the
    // water and half the growth; the next tick is dry and does nothing.
    let mut c = cell();
    c.plant(&potato());
    c.water(5_000);
    c.update(5_000);
    let p = c.plant.expect("plant stays in the cell");
    assert_eq!(p.grow_counter, 5_000);
    assert_eq!(c.water_level, 0);
    c.update(5_000);
    let p = c.plant.expect("plant stays in the cell");
    assert_eq!(p.grow_counter, 5_000);
    assert_eq!(c.water_level, 0);
}

#[test]
fn advance_without_water_is_a_no_op() {
    let mut c = cell();
    c.plant(&potato());
    c.update(3_000);
    assert_eq!(c.plant.unwrap().grow_counter, 10_000);
}

#[test]
fn advance_of_mature_plant_is_a_no_op() {
    let mut c = cell();
    c.plant(&potato());
    c.water(1_000_000);
    c.update(10_000);
    assert_eq!(c.plant.unwrap().grow_counter, 0);
    let moisture = c.water_level;
    c.update(5_000);
    assert_eq!(c.plant.unwrap().grow_counter, 0);
    assert_eq!(c.water_level, moisture);
}

#[test]
fn planting_occupied_cell_changes_nothing() {
    let mut c = cell();
    c.plant(&tomato());
    c.water(1_000_000);
    c.update(2_000);
    let before = c.plant.unwrap();
    c.plant(&potato());
    let after = c.plant.unwrap();
    assert_eq!(after.plant_type.name, "Tomato");
    assert_eq!(after.grow_counter, before.grow_counter);
}

#[test]
fn watering_wet_soil_keeps_the_first_portion() {
    let mut c = cell();
    c.water(5_000);
    c.water(7_000);
    assert_eq!(c.water_level, 5_000);
}

#[test]
fn pull_scores_only_a_mature_plant_and_always_empties() {
    let mut score = 0i32;
    let mut c = cell();
    c.plant(&potato());
    c.water(1_000_000);
    c.update(10_000);
    c.pull(&mut score);
    assert_eq!(score, 10);
    assert!(c.plant.is_none());
    // pulling again is safe and scores nothing
    c.pull(&mut score);
    assert_eq!(score, 10);
    assert!(c.plant.is_none());
}

#[test]
fn pull_of_immature_plant_destroys_it_without_points() {
    let mut score = 0i32;
    let mut c = cell();
    c.plant(&potato());
    c.pull(&mut score);
    assert_eq!(score, 0);
    assert!(c.plant.is_none());
}

#[test]
fn harvest_of_repeatable_plant_rescores_and_resets() {
    let mut score = 0i32;
    let mut c = cell();
    c.plant(&tomato());
    c.water(1_000_000);
    c.update(16_000);
    assert_eq!(c.plant.unwrap().grow_counter, 0);
    c.harvest(&mut score);
    assert_eq!(score, 10);
    let p = c.plant.expect("a repeatable plant stays after harvest");
    assert_eq!(p.grow_counter, 6_000);
}

#[test]
fn harvest_of_one_shot_plant_removes_it() {
    let mut score = 0i32;
    let mut c = cell();
    c.plant(&potato());
    c.water(1_000_000);
    c.update(10_000);
    c.harvest(&mut score);
    assert_eq!(score, 10);
    assert!(c.plant.is_none());
}

#[test]
fn harvest_of_immature_plant_is_a_no_op() {
    let mut score = 0i32;
    let mut c = cell();
    c.plant(&potato());
    c.harvest(&mut score);
    assert_eq!(score, 0);
    let p = c.plant.expect("an immature plant is left alone");
    assert_eq!(p.grow_counter, 10_000);
}

#[test]
fn steal_empties_without_scoring() {
    let mut c = cell();
    c.plant(&potato());
    c.steal();
    assert!(c.plant.is_none());
}

#[test]
fn render_stage_follows_the_counter() {
    let mut c = cell();
    c.plant(&tomato());
    assert_eq!(c.plant.unwrap().render_stage(), GrowthStage::Seed);
    c.water(1_000_000);
    c.update(10_000);
    assert_eq!(c.plant.unwrap().render_stage(), GrowthStage::Sprout);
    c.update(6_000);
    assert_eq!(c.plant.unwrap().render_stage(), GrowthStage::Mature);
    let view = c.render();
    assert_eq!(view.stage, Some(GrowthStage::Mature));
    assert!(view.watered == (c.water_level > 0));
    assert_eq!(view.pos, Vec2i { x: 0, y: 0 });
}
