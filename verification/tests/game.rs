use pong::SCREEN_HEIGHT;
use pong::SCREEN_WIDTH;
use pong::entity::MoveableObject;
use pong::game::GameState;
use pong::geometry::Dimensions;
use pong::geometry::Point;
use pong::geometry::Rect;
use pong::geometry::Velocity;

fn game(ball_x: i32, ball_y: i32, vx: i32, vy: i32) -> GameState {
    let player = MoveableObject::new(
        Dimensions { width: 20, height: 60 },
        Point::new(10, 90),
        None,
    );
    let opponent = MoveableObject::new(
        Dimensions { width: 20, height: 60 },
        Point::new(280, 90),
        None,
    );
    let ball = MoveableObject::new(
        Dimensions { width: 20, height: 20 },
        Point::new(ball_x, ball_y),
        Some(Velocity::new(vx, vy)),
    );
    GameState::new(player, opponent, ball)
}

#[test]
fn new_game_starts_scoreless() {
    let g = game(100, 100, 2, 1);
    assert_eq!(g.player_score, 0);
    assert_eq!(g.opponent_score, 0);
}

#[test]
fn frame_moves_ball_then_player_then_opponent() {
    let mut g = game(100, 100, 4, -2);
    g.frame(false, true);
    // The ball integrated freely.
    assert_eq!(g.ball.point, Point::new(104, 98));
    // The player moved down by the held key.
    assert_eq!(g.player.point, Point::new(10, 93));
    // The opponent tracked the ball's new vertical position.
    assert_eq!(g.opponent.point, Point::new(280, 98));
    assert_eq!(g.player_score, 0);
    assert_eq!(g.opponent_score, 0);
}

#[test]
fn frame_scoring_recentres_ball_and_keeps_velocity() {
    let mut g = game(SCREEN_WIDTH - 1, 100, 5, 3);
    g.frame(false, false);
    assert_eq!(g.player_score, 1);
    assert_eq!(g.opponent_score, 0);
    assert_eq!(g.ball.point, Point::new(SCREEN_WIDTH / 2 - 20, SCREEN_HEIGHT / 2 - 20));
    assert_eq!(g.ball.velocity, Some(Velocity::new(5, 3)));
    // The opponent tracks the reset position's vertical component.
    assert_eq!(g.opponent.point.y, SCREEN_HEIGHT / 2 - 20);
}

#[test]
fn physics_sees_previous_frame_paddle_positions() {
    // The ball passes just under where the opponent will move this frame:
    // collision is tested against the opponent's previous position, so no
    // reflection happens even though the opponent tracks the ball's row.
    let mut g = game(276, 150, 2, 0);
    // Opponent box before the frame: (280, 90, 10, 30); ball box: (276, 150, 10, 10).
    // Vertically disjoint: 150 >= 90 + 30.
    g.frame(false, false);
    assert_eq!(g.ball.velocity, Some(Velocity::new(2, 0)));
    assert_eq!(g.ball.point, Point::new(278, 150));
    // Now the opponent sits on the ball's row; the next frame reflects.
    assert_eq!(g.opponent.point.y, 150);
    g.frame(false, false);
    assert_eq!(g.ball.velocity, Some(Velocity::new(-2, 0)));
}

#[test]
fn touching_rectangles_do_not_overlap() {
    let a = Rect::new(0, 0, 10, 10);
    let b = Rect::new(10, 0, 10, 10);
    assert!(!a.overlaps(&b));
    assert!(!b.overlaps(&a));
}

#[test]
fn intersecting_rectangles_overlap() {
    let a = Rect::new(0, 0, 10, 10);
    let b = Rect::new(9, 9, 10, 10);
    assert!(a.overlaps(&b));
    assert!(b.overlaps(&a));
}

#[test]
fn disjoint_rectangles_do_not_overlap() {
    let a = Rect::new(0, 0, 10, 10);
    let b = Rect::new(30, 0, 10, 10);
    assert!(!a.overlaps(&b));
}

#[test]
fn odd_dimensions_halve_toward_zero() {
    let o = MoveableObject::new(
        Dimensions { width: 21, height: 7 },
        Point::new(0, 0),
        None,
    );
    assert_eq!(o.rect.w, 10);
    assert_eq!(o.rect.h, 3);
}
