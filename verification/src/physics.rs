//! Ball physics: per-frame integration, wall bounce, paddle-collision
//! reflection, scoring and reset.
//!
//! A frame first checks the two horizontal exits (a scoring event re-centres
//! the ball and skips every remaining step of the frame), then the top and
//! bottom walls, then paddle overlap, and finally integrates the position
//! with the possibly just-flipped velocity.

use vstd::math::abs;
use vstd::prelude::*;

use crate::SCREEN_HEIGHT;
use crate::SCREEN_WIDTH;
use crate::entity::MoveableObject;
use crate::geometry::RectModel;
use crate::geometry::rects_overlap;

verus! {

/// The mathematical state one physics frame acts on: the ball's position,
/// velocity and extent, and the two score counters.
pub ghost struct BallSim {
    pub x: int,
    pub y: int,
    pub vx: int,
    pub vy: int,
    pub w: int,
    pub h: int,
    pub player_score: int,
    pub opponent_score: int,
}

/// The ball and the scores as a mathematical value. Meaningful only for a
/// ball whose velocity is present.
pub open spec fn ball_sim(ball: MoveableObject, player_score: int, opponent_score: int) -> BallSim {
    BallSim {
        x: ball.point.x as int,
        y: ball.point.y as int,
        vx: ball.velocity->Some_0.x as int,
        vy: ball.velocity->Some_0.y as int,
        w: ball.dimensions.width as int,
        h: ball.dimensions.height as int,
        player_score,
        opponent_score,
    }
}

/// The ball's collision box: anchored at its position, half its extent.
pub open spec fn ball_box(s: BallSim) -> RectModel {
    RectModel { x: s.x, y: s.y, w: s.w / 2, h: s.h / 2 }
}

/// The ball is about to cross the right edge: the player scores.
pub open spec fn right_exit(s: BallSim) -> bool {
    s.x + s.vx >= SCREEN_WIDTH
}

/// The ball is about to cross the left edge by half its own width: the
/// opponent scores.
pub open spec fn left_exit(s: BallSim) -> bool {
    s.x + s.vx <= -(s.w / 2)
}

/// The ball is about to cross the top or bottom bound. The bound reuses the
/// ball's width — not its height — in both tests: a deliberate quirk of this
/// game's rules.
pub open spec fn wall_bounce(s: BallSim) -> bool {
    s.y + s.vy <= -(s.w / 2) || s.y + s.vy >= SCREEN_HEIGHT - s.w / 2
}

/// The ball's collision box overlaps one of the paddles' boxes.
pub open spec fn paddle_hit(s: BallSim, player: RectModel, opponent: RectModel) -> bool {
    rects_overlap(player, ball_box(s)) || rects_overlap(opponent, ball_box(s))
}

/// Horizontal re-centre position after a scoring event.
pub open spec fn reset_x(w: int) -> int {
    SCREEN_WIDTH / 2 - w
}

/// Vertical re-centre position after a scoring event.
pub open spec fn reset_y(h: int) -> int {
    SCREEN_HEIGHT / 2 - h
}

/// One physics frame. A scoring exit increments the scorer's counter and
/// re-centres the ball, leaving its velocity untouched and skipping the
/// bounce checks and the integration. Otherwise a wall contact flips the
/// vertical velocity, a paddle overlap flips the horizontal velocity (every
/// frame the overlap persists — there is no debouncing), and the position
/// advances by the possibly just-flipped velocity.
pub open spec fn step(s: BallSim, player: RectModel, opponent: RectModel) -> BallSim {
    if right_exit(s) {
        BallSim { x: reset_x(s.w), y: reset_y(s.h), player_score: s.player_score + 1, ..s }
    } else if left_exit(s) {
        BallSim { x: reset_x(s.w), y: reset_y(s.h), opponent_score: s.opponent_score + 1, ..s }
    } else {
        let vy2 = if wall_bounce(s) {
            -s.vy
        } else {
            s.vy
        };
        let vx2 = if paddle_hit(s, player, opponent) {
            -s.vx
        } else {
            s.vx
        };
        BallSim { x: s.x + vx2, y: s.y + vy2, vx: vx2, vy: vy2, ..s }
    }
}

/// Every component of the state fits the machine integers the executable
/// state stores it in.
pub open spec fn fits(s: BallSim) -> bool {
    &&& i32::MIN <= s.x <= i32::MAX
    &&& i32::MIN <= s.y <= i32::MAX
    &&& i32::MIN <= s.vx <= i32::MAX
    &&& i32::MIN <= s.vy <= i32::MAX
    &&& i32::MIN <= s.player_score <= i32::MAX
    &&& i32::MIN <= s.opponent_score <= i32::MAX
}

/// Re-centre the ball, keeping its velocity: the ball resumes with whatever
/// velocity it had at the moment of scoring.
pub fn reset_ball(ball: &mut MoveableObject)
    requires
        old(ball).wf(),
    ensures
        final(ball).point.x as int == reset_x(old(ball).dimensions.width as int),
        final(ball).point.y as int == reset_y(old(ball).dimensions.height as int),
        final(ball).velocity == old(ball).velocity,
        final(ball).dimensions == old(ball).dimensions,
        final(ball).wf(),
{
    let x: i32 = SCREEN_WIDTH / 2 - ball.dimensions.width;
    let y: i32 = SCREEN_HEIGHT / 2 - ball.dimensions.height;
    ball.update_position(x, y);
}

/// One physics frame on the executable state: exactly `step` of the
/// mathematical state. A ball with no velocity yet is left untouched.
/// The paddles' collision boxes are the previous frame's, passed by value.
pub fn update_ball_position(
    ball: &mut MoveableObject,
    player_paddle: MoveableObject,
    opponent_paddle: MoveableObject,
    player_score: &mut i32,
    opponent_score: &mut i32,
)
    requires
        old(ball).wf(),
        old(ball).velocity is Some ==> fits(
            step(
                ball_sim(*old(ball), *old(player_score) as int, *old(opponent_score) as int),
                player_paddle.rect.model(),
                opponent_paddle.rect.model(),
            ),
        ),
    ensures
        old(ball).velocity is None ==> {
            &&& *final(ball) == *old(ball)
            &&& *final(player_score) == *old(player_score)
            &&& *final(opponent_score) == *old(opponent_score)
        },
        old(ball).velocity is Some ==> {
            &&& final(ball).velocity is Some
            &&& ball_sim(*final(ball), *final(player_score) as int, *final(opponent_score) as int)
                == step(
                ball_sim(*old(ball), *old(player_score) as int, *old(opponent_score) as int),
                player_paddle.rect.model(),
                opponent_paddle.rect.model(),
            )
            &&& final(ball).dimensions == old(ball).dimensions
            &&& final(ball).wf()
        },
{
    if ball.velocity.is_some() {
        let mut vel = ball.velocity.unwrap();
        let x64: i64 = ball.point.x as i64;
        let y64: i64 = ball.point.y as i64;
        let half_w: i64 = ball.rect.w as i64;

        if x64 + vel.x as i64 >= SCREEN_WIDTH as i64 {
            reset_ball(ball);
            *player_score = *player_score + 1;
        } else if x64 + vel.x as i64 <= -half_w {
            reset_ball(ball);
            *opponent_score = *opponent_score + 1;
        } else {
            if y64 + vel.y as i64 <= -half_w || y64 + vel.y as i64 >= SCREEN_HEIGHT as i64
                - half_w {
                let flipped_y: i32 = -vel.y;
                vel.update(vel.x, flipped_y);
            }
            if player_paddle.rect.overlaps(&ball.rect) || opponent_paddle.rect.overlaps(
                &ball.rect,
            ) {
                let flipped_x: i32 = -vel.x;
                vel.update(flipped_x, vel.y);
            }
            let new_x: i32 = ball.point.x + vel.x;
            let new_y: i32 = ball.point.y + vel.y;
            ball.update_position(new_x, new_y);
            ball.update_velocity(vel);
        }
    }
}

/// A scoring exit keeps the velocity, both components, and re-centres the
/// ball; only the scorer's counter moves.
pub proof fn lemma_reset_preserves_velocity(s: BallSim, player: RectModel, opponent: RectModel)
    requires
        right_exit(s) || left_exit(s),
    ensures
        step(s, player, opponent).vx == s.vx,
        step(s, player, opponent).vy == s.vy,
        step(s, player, opponent).x == reset_x(s.w),
        step(s, player, opponent).y == reset_y(s.h),
{
}

/// A frame in which no exit fires and the ball overlaps a paddle flips the
/// sign of the horizontal velocity — and it does so again on every
/// consecutive frame on which the overlap persists, since the check is not
/// debounced.
pub proof fn lemma_paddle_hit_flips_vx(s: BallSim, player: RectModel, opponent: RectModel)
    requires
        !right_exit(s),
        !left_exit(s),
        paddle_hit(s, player, opponent),
    ensures
        step(s, player, opponent).vx == -s.vx,
{
}

/// The state after any number of physics frames, the paddles' collision
/// boxes given per frame.
pub open spec fn run(s: BallSim, paddles: Seq<(RectModel, RectModel)>) -> BallSim
    decreases paddles.len(),
{
    if paddles.len() == 0 {
        s
    } else {
        run(step(s, paddles[0].0, paddles[0].1), paddles.skip(1))
    }
}

/// Velocity magnitude invariant: across any number of frames — wall and
/// paddle bounces and scoring resets included — each axis's speed keeps its
/// magnitude; only the sign may change.
pub proof fn lemma_velocity_magnitude_conserved(s: BallSim, paddles: Seq<(RectModel, RectModel)>)
    ensures
        abs(run(s, paddles).vx) == abs(s.vx),
        abs(run(s, paddles).vy) == abs(s.vy),
    decreases paddles.len(),
{
    if paddles.len() > 0 {
        lemma_velocity_magnitude_conserved(step(s, paddles[0].0, paddles[0].1), paddles.skip(1));
    }
}

} // verus!
