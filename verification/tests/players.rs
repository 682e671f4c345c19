use farm_core::character::Character;
use farm_core::characters::Player;
use farm_core::geom::Vec2i;
use farm_core::plants::VisualHandle;
use farm_core::tools::WaterCan;

const SPEED: i64 = 120_000;

fn handle() -> VisualHandle {
    VisualHandle { id: 3 }
}

#[test]
fn new_player_stands_at_the_start() {
    let p = Player::new(SPEED, handle());
    assert_eq!(p.pos, Vec2i { x: 150_000, y: 150_000 });
    // the reach rectangle is centred on the starting position
    let r = p.get_rect();
    assert_eq!(r.x, 125_000);
    assert_eq!(r.y, 125_000);
    assert_eq!(r.w, 50_000);
    assert_eq!(r.h, 50_000);
}

#[test]
fn axial_movement_covers_speed_times_time() {
    let mut p = Player::new(SPEED, handle());
    p.update(1_000, false, true, false, false);
    assert_eq!(p.pos, Vec2i { x: 270_000, y: 150_000 });
    assert_eq!(p.get_rect().x, 245_000);
    assert_eq!(p.get_rect().y, 125_000);
    p.update(500, false, false, true, false);
    assert_eq!(p.pos, Vec2i { x: 270_000, y: 90_000 });
}

#[test]
fn diagonal_movement_is_normalised() {
    let mut p = Player::new(SPEED, handle());
    p.update(1_000, false, true, false, true);
    // each axis moves by 0.707 of the axial step
    assert_eq!(p.pos, Vec2i { x: 150_000 + 84_840, y: 150_000 + 84_840 });
}

#[test]
fn opposed_keys_cancel() {
    let mut p = Player::new(SPEED, handle());
    p.update(1_000, true, true, false, false);
    assert_eq!(p.pos, Vec2i { x: 150_000, y: 150_000 });
    p.update(1_000, false, false, true, true);
    assert_eq!(p.pos, Vec2i { x: 150_000, y: 150_000 });
}

#[test]
fn character_moves_like_the_player() {
    let mut c = Character::new(SPEED, handle());
    assert_eq!(c.pos, Vec2i { x: 150_000, y: 150_000 });
    c.update(1_000, true, false, false, false);
    assert_eq!(c.pos, Vec2i { x: 30_000, y: 150_000 });
    c.update(2_000, false, false, false, false);
    assert_eq!(c.pos, Vec2i { x: 30_000, y: 150_000 });
}

#[test]
fn water_can_serves_fixed_portions() {
    let can = WaterCan::new();
    assert_eq!(can.get_portion(), 10_000);
    assert_eq!(can.portions_left, 3);
}
