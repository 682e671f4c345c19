use farm_core::characters::Crow;
use farm_core::geom::Vec2i;
use farm_core::grid::CropGrid;
use farm_core::plants::{PlantType, VisualHandle};

const SPEED: i64 = 160_000;
const SCREEN_W: i64 = 800_000;
const SCREEN_H: i64 = 600_000;

fn handle() -> VisualHandle {
    VisualHandle { id: 2 }
}

fn carrot() -> PlantType {
    PlantType::new("Carrot", 0, 10_000, 2_000, handle(), handle())
}

fn grid() -> CropGrid {
    CropGrid::new(0, 0, 160_000, 160_000)
}

fn plant_cell(g: &mut CropGrid, i: usize) {
    let p = g.crops[i].pos;
    let q = farm_core::geom::Recti { x: p.x - 1_000, y: p.y - 1_000, w: 2_000, h: 2_000 };
    g.plant_to_cell(&carrot(), q);
    assert!(g.crops[i].plant.is_some());
}

#[test]
fn new_crow_is_idle() {
    let c = Crow::new(SPEED, Vec2i { x: 10_000, y: 20_000 }, handle());
    assert!(!c.flyaway);
    assert!(c.target.is_none());
    assert_eq!(c.vel, Vec2i { x: 0, y: 0 });
    assert_eq!(c.get_rect().x, 10_000);
    assert_eq!(c.get_rect().w, 32_000);
}

#[test]
fn seeking_with_unplanted_samples_keeps_no_target() {
    let mut g = grid();
    let mut c = Crow::new(SPEED, Vec2i { x: 200_000, y: 200_000 }, handle());
    let samples: Vec<usize> = vec![0, 1, 2];
    c.step(1_000, &mut g, &samples, Vec2i { x: 0, y: 0 }, SCREEN_W, SCREEN_H);
    assert!(c.target.is_none());
    assert!(!c.flyaway);
}

#[test]
fn seeking_adopts_the_first_planted_sample() {
    let mut g = grid();
    plant_cell(&mut g, 7);
    plant_cell(&mut g, 19);
    let mut c = Crow::new(SPEED, Vec2i { x: 200_000, y: 200_000 }, handle());
    let samples: Vec<usize> = vec![1, 7, 19];
    c.step(0, &mut g, &samples, Vec2i { x: 0, y: 0 }, SCREEN_W, SCREEN_H);
    assert_eq!(c.target, Some(g.crops[7].pos));
}

#[test]
fn within_grab_radius_the_crow_steals_and_flees() {
    // Distance 0.05 units to the target, grab radius 0.1: this tick the
    // cell is emptied, the flight flag set, and the flee speed is the
    // crow's own speed.
    let mut g = grid();
    plant_cell(&mut g, 12);
    let target = g.crops[12].pos;
    let mut c = Crow::new(SPEED, Vec2i { x: target.x + 50, y: target.y }, handle());
    c.target = Some(target);
    let samples: Vec<usize> = vec![];
    c.step(0, &mut g, &samples, Vec2i { x: 1_000, y: 0 }, SCREEN_W, SCREEN_H);
    assert!(g.crops[12].plant.is_none(), "the target cell is emptied");
    assert!(c.flyaway);
    assert!(c.target.is_none());
    assert_eq!(c.vel, Vec2i { x: SPEED, y: 0 }, "flee speed equals crow speed");
}

#[test]
fn beyond_grab_radius_the_crow_approaches() {
    let mut g = grid();
    plant_cell(&mut g, 12);
    let target = g.crops[12].pos;
    // 100 units to the right of the target: distance 100_000 steps
    let mut c = Crow::new(SPEED, Vec2i { x: target.x + 100_000, y: target.y }, handle());
    c.target = Some(target);
    let samples: Vec<usize> = vec![];
    c.step(1_000, &mut g, &samples, Vec2i { x: 0, y: 0 }, SCREEN_W, SCREEN_H);
    assert!(g.crops[12].plant.is_some(), "nothing is stolen from afar");
    // throttle: speed * dist * grab / scale^2 = 160000*100000*100/10^6
    // caps at the crow's speed, so it flies at full speed toward -x
    assert_eq!(c.vel, Vec2i { x: -SPEED, y: 0 });
    // one second of flight at that speed
    assert_eq!(c.pos, Vec2i { x: target.x + 100_000 - SPEED, y: target.y });
    assert!(c.target.is_some());
}

#[test]
fn close_approach_is_throttled_below_full_speed() {
    let mut g = grid();
    plant_cell(&mut g, 12);
    let target = g.crops[12].pos;
    // one unit away: throttle = 160000*1000*100/10^6 = 16_000 < speed
    let mut c = Crow::new(SPEED, Vec2i { x: target.x + 1_000, y: target.y }, handle());
    c.target = Some(target);
    let samples: Vec<usize> = vec![];
    c.step(0, &mut g, &samples, Vec2i { x: 0, y: 0 }, SCREEN_W, SCREEN_H);
    assert_eq!(c.vel, Vec2i { x: -16_000, y: 0 });
}

#[test]
fn flee_speed_stays_close_for_short_diagonal_draws() {
    // The shortest diagonal draw must still normalise: the squared flee
    // speed stays within integer rounding of the squared crow speed.
    for dir in [
        Vec2i { x: 1, y: 1 },
        Vec2i { x: -1, y: 1 },
        Vec2i { x: 3, y: -2 },
        Vec2i { x: -999, y: -999 },
    ] {
        let mut g = grid();
        plant_cell(&mut g, 12);
        let target = g.crops[12].pos;
        let mut c = Crow::new(SPEED, Vec2i { x: target.x + 50, y: target.y }, handle());
        c.target = Some(target);
        let samples: Vec<usize> = vec![];
        c.step(0, &mut g, &samples, dir, SCREEN_W, SCREEN_H);
        assert!(c.flyaway);
        let n = c.vel.x * c.vel.x + c.vel.y * c.vel.y;
        assert!(n >= SPEED * SPEED - 4 * SPEED - 1, "flee speed fell short for {:?}", dir);
        assert!(n <= SPEED * SPEED + 2 * SPEED * SPEED / 1000, "flee speed overshot for {:?}", dir);
    }
}

#[test]
fn fleeing_accelerates_each_tick() {
    let mut g = grid();
    let mut c = Crow::new(SPEED, Vec2i { x: 100_000, y: 100_000 }, handle());
    c.flyaway = true;
    c.vel = Vec2i { x: 10_000, y: -4_000 };
    let samples: Vec<usize> = vec![];
    c.step(1_000, &mut g, &samples, Vec2i { x: 0, y: 0 }, SCREEN_W, SCREEN_H);
    assert!(c.flyaway);
    assert_eq!(c.vel, Vec2i { x: 16_000, y: 2_000 });
    assert_eq!(c.pos, Vec2i { x: 116_000, y: 102_000 });
}

#[test]
fn leaving_the_extended_bounds_turns_the_crow_around() {
    let mut g = grid();
    let mut c = Crow::new(SPEED, Vec2i { x: SCREEN_W + 30_000, y: 100_000 }, handle());
    c.flyaway = true;
    c.vel = Vec2i { x: 50_000, y: 0 };
    let samples: Vec<usize> = vec![];
    c.step(1_000, &mut g, &samples, Vec2i { x: 0, y: 0 }, SCREEN_W, SCREEN_H);
    assert!(!c.flyaway, "the flight ends at the border");
    assert_eq!(c.vel, Vec2i { x: 0, y: 0 });
    assert_eq!(c.pos, Vec2i { x: SCREEN_W + 24_000, y: 100_000 });
}

#[test]
fn update_eventually_finds_the_one_planted_cell() {
    macroquad::rand::srand(7);
    let mut g = grid();
    plant_cell(&mut g, 17);
    let expected = g.crops[17].pos;
    let mut c = Crow::new(SPEED, Vec2i { x: 400_000, y: 300_000 }, handle());
    let mut found = false;
    for _ in 0..10_000 {
        c.update(0, &mut g, SCREEN_W, SCREEN_H);
        if let Some(t) = c.target {
            assert_eq!(t, expected, "only the planted cell can be adopted");
            found = true;
            break;
        }
    }
    assert!(found, "three samples a tick find the one planted cell of 25");
}

#[test]
fn update_on_a_full_grid_targets_at_once() {
    macroquad::rand::srand(99);
    let mut g = grid();
    for i in 0..25 {
        plant_cell(&mut g, i);
    }
    let mut c = Crow::new(SPEED, Vec2i { x: 400_000, y: 300_000 }, handle());
    c.update(0, &mut g, SCREEN_W, SCREEN_H);
    let t = c.target.expect("every sample lands on a planted cell");
    assert!(g.crops.iter().any(|cell| cell.pos == t));
}

#[test]
fn update_steals_and_flees_within_speed() {
    macroquad::rand::srand(3);
    let mut g = grid();
    plant_cell(&mut g, 12);
    let target = g.crops[12].pos;
    let mut c = Crow::new(SPEED, Vec2i { x: target.x - 60, y: target.y }, handle());
    c.target = Some(target);
    c.update(0, &mut g, SCREEN_W, SCREEN_H);
    assert!(g.crops[12].plant.is_none());
    assert!(c.flyaway);
    assert!(c.target.is_none());
    assert!(c.vel.x.abs() <= SPEED);
    assert!(c.vel.y.abs() <= SPEED);
}
