//! The whole simulation state and the per-frame update that drives it.
//!
//! Within a frame, ball physics runs first, against the paddle positions of
//! the previous frame; only then do the two controllers move the paddles.
//! The frame driver around this crate calls `frame` once per rendered frame
//! and draws the resulting state.

use vstd::prelude::*;

use crate::controllers::handle_input;
use crate::controllers::move_opponent;
use crate::controllers::next_player_y;
use crate::entity::MoveableObject;
use crate::physics::ball_sim;
use crate::physics::fits;
use crate::physics::step;
use crate::physics::update_ball_position;

verus! {

/// Everything the simulation owns: the two paddles, the ball, and the two
/// score counters.
pub struct GameState {
    pub player: MoveableObject,
    pub opponent: MoveableObject,
    pub ball: MoveableObject,
    pub player_score: i32,
    pub opponent_score: i32,
}

impl GameState {
    /// The simulation's invariant: every entity is well-formed, the paddles
    /// never carry a velocity, the ball always does, and the scores are
    /// non-negative.
    pub open spec fn wf(self) -> bool {
        &&& self.player.wf()
        &&& self.player.velocity is None
        &&& self.opponent.wf()
        &&& self.opponent.velocity is None
        &&& self.ball.wf()
        &&& self.ball.velocity is Some
        &&& self.player_score >= 0
        &&& self.opponent_score >= 0
    }

    /// The ball-and-scores state one physics step ahead of this one, taken
    /// against this frame's paddle boxes.
    pub open spec fn stepped(self) -> crate::physics::BallSim {
        step(
            ball_sim(self.ball, self.player_score as int, self.opponent_score as int),
            self.player.rect.model(),
            self.opponent.rect.model(),
        )
    }

    /// Assemble a game at its start: scores at zero.
    pub fn new(player: MoveableObject, opponent: MoveableObject, ball: MoveableObject) -> (g:
        GameState)
        requires
            player.wf(),
            player.velocity is None,
            opponent.wf(),
            opponent.velocity is None,
            ball.wf(),
            ball.velocity is Some,
        ensures
            g.player == player,
            g.opponent == opponent,
            g.ball == ball,
            g.player_score == 0,
            g.opponent_score == 0,
            g.wf(),
    {
        GameState { player, opponent, ball, player_score: 0, opponent_score: 0 }
    }

    /// One simulation frame: ball physics against the previous frame's
    /// paddle positions, then the player's input, then the opponent's
    /// tracking of the ball's new vertical position.
    pub fn frame(&mut self, up_held: bool, down_held: bool)
        requires
            old(self).wf(),
            fits(old(self).stepped()),
        ensures
            final(self).wf(),
            ball_sim(
                final(self).ball,
                final(self).player_score as int,
                final(self).opponent_score as int,
            ) == old(self).stepped(),
            final(self).ball.dimensions == old(self).ball.dimensions,
            final(self).player.point.x == old(self).player.point.x,
            final(self).player.point.y as int == next_player_y(
                old(self).player.point.y as int,
                old(self).player.dimensions.height as int,
                up_held,
                down_held,
            ),
            final(self).player.dimensions == old(self).player.dimensions,
            final(self).opponent.point.x == old(self).opponent.point.x,
            final(self).opponent.point.y == final(self).ball.point.y,
            final(self).opponent.dimensions == old(self).opponent.dimensions,
    {
        update_ball_position(
            &mut self.ball,
            self.player,
            self.opponent,
            &mut self.player_score,
            &mut self.opponent_score,
        );
        handle_input(&mut self.player, up_held, down_held);
        move_opponent(&self.ball, &mut self.opponent);
    }
}

} // verus!
