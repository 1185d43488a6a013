//! The per-player entity model and the deterministic frame update.
//!
//! Coordinates are whole units on a fixed grid, so positions compare
//! bit-exactly across peers — there is no platform-dependent rounding to
//! desynchronize on. Velocity is rederived from the input every tick; the
//! only state carried from one tick to the next is the position.

use vstd::prelude::*;
use crate::input::{Input, INPUT_DOWN, INPUT_LEFT, INPUT_RIGHT, INPUT_UP};

verus! {

/// Units moved per tick along an axis while the matching intent is held.
pub const SPEED: i64 = 10;

/// A two-dimensional quantity on the integer grid.
#[derive(Clone, Copy, PartialEq, Eq, Structural, Debug)]
pub struct Vec2 {
    pub x: i64,
    pub y: i64,
}

/// The engine-assigned identity of one participant. Handles are stable and
/// never reused within a session: one handle names one player throughout.
#[derive(Clone, Copy, PartialEq, Eq, Structural, Hash, Debug)]
pub struct PlayerHandle {
    pub id: usize,
}

/// One simulated entity: its position, the velocity derived from its most
/// recent input, its constant extent, and the handle binding it to a
/// network participant.
#[derive(Clone, Copy, PartialEq, Eq, Structural, Debug)]
pub struct Player {
    pub position: Vec2,
    pub velocity: Vec2,
    pub size: Vec2,
    pub handle: PlayerHandle,
}

/// Horizontal velocity for one tick of `input`: right wins over left when
/// both are held; neither held means standing still.
pub open spec fn horizontal_velocity(input: Input) -> i64 {
    if input.has(INPUT_RIGHT) {
        SPEED
    } else if input.has(INPUT_LEFT) {
        ((-SPEED) as i64)
    } else {
        0
    }
}

/// Vertical velocity for one tick of `input`: up (negative in screen space)
/// wins over down when both are held; neither held means standing still.
pub open spec fn vertical_velocity(input: Input) -> i64 {
    if input.has(INPUT_UP) {
        ((-SPEED) as i64)
    } else if input.has(INPUT_DOWN) {
        SPEED
    } else {
        0
    }
}

/// One deterministic frame step: the velocity each axis gets from `input`,
/// and the position advanced by that velocity, wrapping around at the ends
/// of the coordinate range so the step is total. Size and handle never
/// change.
pub open spec fn stepped(p: Player, input: Input) -> Player {
    let vx = horizontal_velocity(input);
    let vy = vertical_velocity(input);
    Player {
        position: Vec2 {
            x: vstd::wrapping::i64_specs::wrapping_add(p.position.x, vx),
            y: vstd::wrapping::i64_specs::wrapping_add(p.position.y, vy),
        },
        velocity: Vec2 { x: vx, y: vy },
        size: p.size,
        handle: p.handle,
    }
}

/// Advances one player by one tick of `input`. Total: it has no
/// precondition, so every bit pattern of `input` and every position is
/// handled without failing.
pub fn player_physics_update(player: &mut Player, input: Input)
    ensures
        *final (player) == stepped(*old(player), input),
{
    if input.contains(INPUT_RIGHT) {
        player.velocity.x = SPEED;
    } else if input.contains(INPUT_LEFT) {
        player.velocity.x = -SPEED;
    } else {
        player.velocity.x = 0;
    }
    if input.contains(INPUT_UP) {
        player.velocity.y = -SPEED;
    } else if input.contains(INPUT_DOWN) {
        player.velocity.y = SPEED;
    } else {
        player.velocity.y = 0;
    }
    player.position.x = player.position.x.wrapping_add(player.velocity.x);
    player.position.y = player.position.y.wrapping_add(player.velocity.y);
}

/// Determinism law: the frame step is a function of the player and the input
/// alone — any two results of stepping the same player with the same input
/// are the same player. Together with `player_physics_update` having no
/// precondition, stepping is total and deterministic over every input bit
/// pattern.
pub proof fn lemma_step_deterministic(p: Player, input: Input, r1: Player, r2: Player)
    requires
        r1 == stepped(p, input),
        r2 == stepped(p, input),
    ensures
        r1 == r2,
{
}

/// Precedence law: with both horizontal intents held the step moves right
/// (velocity `+SPEED`), and with both vertical intents held it moves up
/// (velocity `-SPEED` in screen space) — never zero, never the loser's
/// direction.
pub proof fn lemma_opposing_flags_precedence(input: Input)
    ensures
        input.has(INPUT_RIGHT) && input.has(INPUT_LEFT) ==> horizontal_velocity(input) == SPEED,
        input.has(INPUT_UP) && input.has(INPUT_DOWN) ==> vertical_velocity(input) == -SPEED,
{
}

} // verus!
