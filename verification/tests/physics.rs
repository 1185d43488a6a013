use rollback_core::input::{Input, INPUT_DOWN, INPUT_LEFT, INPUT_RIGHT, INPUT_UP};
use rollback_core::player::{player_physics_update, Player, PlayerHandle, Vec2, SPEED};

fn player_at(x: i64, y: i64) -> Player {
    Player {
        position: Vec2 { x, y },
        velocity: Vec2 { x: 0, y: 0 },
        size: Vec2 { x: 50, y: 50 },
        handle: PlayerHandle { id: 0 },
    }
}

#[test]
fn update_is_total_and_deterministic_over_all_bit_combinations() {
    // every 4-bit intent combination, plus masks with stray high bits
    let mut masks: Vec<u32> = (0u32..16).collect();
    masks.extend([16, 0xFFFF_FFF0, 0xFFFF_FFFF, 1 << 31]);
    for bits in masks {
        let input = Input::from_bits(bits);
        let mut first = player_at(3, -7);
        let mut second = player_at(3, -7);
        player_physics_update(&mut first, input);
        player_physics_update(&mut second, input);
        assert_eq!(first, second);
    }
}

#[test]
fn right_moves_plus_ten() {
    let mut p = player_at(0, 0);
    player_physics_update(&mut p, Input::from_bits(INPUT_RIGHT));
    assert_eq!(p.velocity, Vec2 { x: SPEED, y: 0 });
    assert_eq!(p.position, Vec2 { x: 10, y: 0 });
}

#[test]
fn left_moves_minus_ten() {
    let mut p = player_at(0, 0);
    player_physics_update(&mut p, Input::from_bits(INPUT_LEFT));
    assert_eq!(p.velocity, Vec2 { x: -SPEED, y: 0 });
    assert_eq!(p.position, Vec2 { x: -10, y: 0 });
}

#[test]
fn up_moves_minus_ten_screen_space() {
    let mut p = player_at(0, 0);
    player_physics_update(&mut p, Input::from_bits(INPUT_UP));
    assert_eq!(p.velocity, Vec2 { x: 0, y: -SPEED });
    assert_eq!(p.position, Vec2 { x: 0, y: -10 });
}

#[test]
fn down_moves_plus_ten() {
    let mut p = player_at(0, 0);
    player_physics_update(&mut p, Input::from_bits(INPUT_DOWN));
    assert_eq!(p.velocity, Vec2 { x: 0, y: SPEED });
    assert_eq!(p.position, Vec2 { x: 0, y: 10 });
}

#[test]
fn right_and_left_together_move_right() {
    let mut p = player_at(0, 0);
    player_physics_update(&mut p, Input::from_bits(INPUT_RIGHT | INPUT_LEFT));
    assert_eq!(p.velocity.x, 10);
    assert_eq!(p.position.x, 10);
}

#[test]
fn up_and_down_together_move_up() {
    let mut p = player_at(0, 0);
    player_physics_update(&mut p, Input::from_bits(INPUT_UP | INPUT_DOWN));
    assert_eq!(p.velocity.y, -10);
    assert_eq!(p.position.y, -10);
}

#[test]
fn velocity_is_not_carried_between_ticks() {
    let mut p = player_at(0, 0);
    player_physics_update(&mut p, Input::from_bits(INPUT_RIGHT));
    assert_eq!(p.position.x, 10);
    player_physics_update(&mut p, Input::empty());
    assert_eq!(p.velocity, Vec2 { x: 0, y: 0 });
    assert_eq!(p.position, Vec2 { x: 10, y: 0 });
}

#[test]
fn diagonal_moves_both_axes() {
    let mut p = player_at(100, 100);
    player_physics_update(&mut p, Input::from_bits(INPUT_RIGHT | INPUT_UP));
    assert_eq!(p.position, Vec2 { x: 110, y: 90 });
}

#[test]
fn position_wraps_at_coordinate_range_end() {
    let mut p = player_at(i64::MAX, i64::MIN);
    player_physics_update(&mut p, Input::from_bits(INPUT_RIGHT | INPUT_UP));
    assert_eq!(p.position.x, i64::MAX.wrapping_add(10));
    assert_eq!(p.position.y, i64::MIN.wrapping_add(-10));
}

#[test]
fn size_and_handle_never_change() {
    let mut p = Player {
        position: Vec2 { x: 1, y: 2 },
        velocity: Vec2 { x: 0, y: 0 },
        size: Vec2 { x: 33, y: 44 },
        handle: PlayerHandle { id: 7 },
    };
    player_physics_update(&mut p, Input::from_bits(INPUT_DOWN | INPUT_LEFT));
    assert_eq!(p.size, Vec2 { x: 33, y: 44 });
    assert_eq!(p.handle, PlayerHandle { id: 7 });
}
