use farm_core::geom::{Recti, Vec2i};
use farm_core::grid::CropGrid;
use farm_core::plants::{PlantType, VisualHandle};

fn handle() -> VisualHandle {
    VisualHandle { id: 1 }
}

fn carrot() -> PlantType {
    PlantType::new("Carrot", 0, 10_000, 2_000, handle(), handle())
}

/// A 160 by 160 unit grid around the origin: cells 32 units apart, the
/// first at (-64, -64), the last at (64, 64).
fn grid() -> CropGrid {
    CropGrid::new(0, 0, 160_000, 160_000)
}

/// A small query square around the centre of cell `i`.
fn probe(g: &CropGrid, i: usize) -> Recti {
    let p = g.crops[i].pos;
    Recti { x: p.x - 1_000, y: p.y - 1_000, w: 2_000, h: 2_000 }
}

#[test]
fn construction_lays_out_five_by_five() {
    let g = grid();
    assert_eq!(g.crops.len(), 25);
    assert_eq!(g.crops[0].pos, Vec2i { x: -64_000, y: -64_000 });
    assert_eq!(g.crops[1].pos, Vec2i { x: -32_000, y: -64_000 });
    assert_eq!(g.crops[5].pos, Vec2i { x: -64_000, y: -32_000 });
    assert_eq!(g.crops[12].pos, Vec2i { x: 0, y: 0 });
    assert_eq!(g.crops[24].pos, Vec2i { x: 64_000, y: 64_000 });
    for c in &g.crops {
        assert_eq!(c.rect.x, c.pos.x - 16_000);
        assert_eq!(c.rect.y, c.pos.y - 16_000);
        assert!(c.plant.is_none());
        assert_eq!(c.water_level, 0);
    }
}

#[test]
fn query_outside_the_area_finds_nothing() {
    let g = grid();
    let far = Recti { x: 500_000, y: 500_000, w: 50_000, h: 50_000 };
    assert_eq!(g.check_for_intersect(far), None);
}

#[test]
fn query_over_one_cell_finds_exactly_that_cell() {
    let g = grid();
    assert_eq!(g.check_for_intersect(probe(&g, 7)), Some(7));
    assert_eq!(g.check_for_intersect(probe(&g, 24)), Some(24));
}

#[test]
fn query_over_many_cells_finds_the_first_in_storage_order() {
    let g = grid();
    let everything = Recti { x: -100_000, y: -100_000, w: 200_000, h: 200_000 };
    assert_eq!(g.check_for_intersect(everything), Some(0));
}

#[test]
fn plant_water_harvest_through_queries() {
    let mut g = grid();
    let mut score = 0i32;
    let q = probe(&g, 12);
    g.plant_to_cell(&carrot(), q);
    assert!(g.crops[12].plant.is_some());
    assert!(g.crops[11].plant.is_none());
    g.water_cell(q, 30_000);
    assert_eq!(g.crops[12].water_level, 30_000);
    g.update(10_000);
    assert_eq!(g.crops[12].plant.unwrap().grow_counter, 0);
    assert_eq!(g.crops[12].water_level, 10_000);
    g.harvest_from_cell(q, &mut score);
    assert_eq!(score, 10);
    assert!(g.crops[12].plant.is_none(), "a one-shot crop leaves after harvest");
}

#[test]
fn planting_through_an_occupied_query_changes_nothing() {
    let mut g = grid();
    let q = probe(&g, 3);
    g.plant_to_cell(&carrot(), q);
    let before = g.crops[3].plant.unwrap().grow_counter;
    let other = PlantType::new("Beet", 0, 15_000, 6_000, handle(), handle());
    g.plant_to_cell(&other, q);
    let after = g.crops[3].plant.unwrap();
    assert_eq!(after.plant_type.name, "Carrot");
    assert_eq!(after.grow_counter, before);
}

#[test]
fn actions_on_a_missed_query_do_nothing() {
    let mut g = grid();
    let mut score = 5i32;
    let far = Recti { x: -900_000, y: 0, w: 10_000, h: 10_000 };
    g.plant_to_cell(&carrot(), far);
    g.water_cell(far, 30_000);
    g.pull_from_cell(far, &mut score);
    g.harvest_from_cell(far, &mut score);
    assert_eq!(score, 5);
    for c in &g.crops {
        assert!(c.plant.is_none());
        assert_eq!(c.water_level, 0);
    }
}

#[test]
fn pull_through_query_scores_mature_and_empties() {
    let mut g = grid();
    let mut score = 0i32;
    let q = probe(&g, 6);
    g.plant_to_cell(&carrot(), q);
    g.water_cell(q, 50_000);
    g.update(10_000);
    g.pull_from_cell(q, &mut score);
    assert_eq!(score, 10);
    assert!(g.crops[6].plant.is_none());
    g.pull_from_cell(q, &mut score);
    assert_eq!(score, 10);
}

#[test]
fn steal_takes_the_cell_with_the_exact_centre() {
    let mut g = grid();
    g.plant_to_cell(&carrot(), probe(&g, 8));
    let centre = g.crops[8].pos;
    g.steal_from_cell(Vec2i { x: centre.x + 1, y: centre.y });
    assert!(g.crops[8].plant.is_some(), "a near miss steals nothing");
    g.steal_from_cell(centre);
    assert!(g.crops[8].plant.is_none());
}

#[test]
fn update_advances_every_watered_cell() {
    let mut g = grid();
    g.plant_to_cell(&carrot(), probe(&g, 2));
    g.plant_to_cell(&carrot(), probe(&g, 22));
    g.water_cell(probe(&g, 2), 40_000);
    g.update(3_000);
    assert_eq!(g.crops[2].plant.unwrap().grow_counter, 7_000);
    assert_eq!(g.crops[2].water_level, 34_000);
    assert_eq!(g.crops[22].plant.unwrap().grow_counter, 10_000, "a dry cell does not grow");
}

#[test]
fn render_reports_each_cell() {
    let mut g = grid();
    g.plant_to_cell(&carrot(), probe(&g, 4));
    g.water_cell(probe(&g, 9), 10_000);
    let view = g.render();
    assert_eq!(view.len(), 25);
    assert!(view[4].stage.is_some());
    assert!(view[9].watered);
    assert!(!view[10].watered);
    assert!(view[10].stage.is_none());
    assert_eq!(view[4].pos, g.crops[4].pos);
}
