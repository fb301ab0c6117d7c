//! The two paddle controllers.
//!
//! The player's paddle moves by a fixed step while a direction key is held,
//! and a move that would reach or cross the vertical bounds is suppressed
//! entirely for that frame (the paddle stops one step early rather than
//! snapping to the edge). The opponent's paddle naively tracks the ball's
//! vertical position, with no bound enforced — a real asymmetry against the
//! player, kept deliberately.

use vstd::prelude::*;

use crate::SCREEN_HEIGHT;
use crate::entity::MoveableObject;

verus! {

/// Vertical displacement asked for by the held keys: up decreases `y`,
/// down increases it (screen-space convention); both held cancel out.
pub open spec fn input_delta(up_held: bool, down_held: bool) -> int {
    (if up_held {
        -3int
    } else {
        0int
    }) + (if down_held {
        3int
    } else {
        0int
    })
}

/// The player paddle's vertical position after one frame of input: the
/// displacement applies only when the resulting position stays strictly
/// inside `(0, SCREEN_HEIGHT - height)`; otherwise the move is suppressed,
/// not clamped.
pub open spec fn next_player_y(y: int, height: int, up_held: bool, down_held: bool) -> int {
    let moved = y + input_delta(up_held, down_held);
    if moved <= 0 || moved >= SCREEN_HEIGHT - height {
        y
    } else {
        moved
    }
}

/// Move the player's paddle by the held keys' displacement, suppressing a
/// move that would reach or cross the vertical bounds.
pub fn handle_input(p: &mut MoveableObject, up_held: bool, down_held: bool)
    requires
        old(p).wf(),
    ensures
        final(p).point.x == old(p).point.x,
        final(p).point.y as int == next_player_y(
            old(p).point.y as int,
            old(p).dimensions.height as int,
            up_held,
            down_held,
        ),
        final(p).dimensions == old(p).dimensions,
        final(p).velocity == old(p).velocity,
        final(p).wf(),
{
    let mut delta: i32 = 0;
    if up_held {
        delta = delta - 3;
    }
    if down_held {
        delta = delta + 3;
    }

    let moved: i64 = p.point.y as i64 + delta as i64;
    if moved <= 0 || moved >= SCREEN_HEIGHT as i64 - p.dimensions.height as i64 {
        delta = 0;
    }

    let x: i32 = p.point.x;
    let y: i32 = p.point.y + delta;
    p.update_position(x, y);
}

/// Set the opponent paddle's vertical position to the ball's, with no bound
/// check: the opponent can move fully off-screen.
pub fn move_opponent(ball: &MoveableObject, opponent: &mut MoveableObject)
    requires
        old(opponent).wf(),
    ensures
        final(opponent).point.x == old(opponent).point.x,
        final(opponent).point.y == ball.point.y,
        final(opponent).dimensions == old(opponent).dimensions,
        final(opponent).velocity == old(opponent).velocity,
        final(opponent).wf(),
{
    let x: i32 = opponent.point.x;
    let y: i32 = ball.point.y;
    opponent.update_position(x, y);
}

/// One frame of input keeps the player paddle inside its vertical bound.
pub proof fn lemma_player_bound_one_frame(y: int, height: int, up_held: bool, down_held: bool)
    requires
        0 <= y <= SCREEN_HEIGHT - height,
    ensures
        0 <= next_player_y(y, height, up_held, down_held) <= SCREEN_HEIGHT - height,
{
}

/// The player paddle's vertical position after a sequence of frames, the
/// key states given per frame as `(up_held, down_held)` pairs.
pub open spec fn player_y_after(y: int, height: int, keys: Seq<(bool, bool)>) -> int
    decreases keys.len(),
{
    if keys.len() == 0 {
        y
    } else {
        player_y_after(next_player_y(y, height, keys[0].0, keys[0].1), height, keys.skip(1))
    }
}

/// Player bound invariant: for all frames and all key-state sequences, a
/// paddle that starts inside `[0, SCREEN_HEIGHT - height]` stays inside it.
pub proof fn lemma_player_bound_all_frames(y: int, height: int, keys: Seq<(bool, bool)>)
    requires
        0 <= y <= SCREEN_HEIGHT - height,
    ensures
        0 <= player_y_after(y, height, keys) <= SCREEN_HEIGHT - height,
    decreases keys.len(),
{
    if keys.len() > 0 {
        lemma_player_bound_one_frame(y, height, keys[0].0, keys[0].1);
        lemma_player_bound_all_frames(
            next_player_y(y, height, keys[0].0, keys[0].1),
            height,
            keys.skip(1),
        );
    }
}

} // verus!
