use pong::collision::{resolve, Ball, Body, BodyKind, CollisionEvent, PlayerSide};
use pong::geometry::{integrate, overlap, Rect, Vec2};
use pong::world::{update_paddle, Config, Intent, PlayerIntents, WorldState};

fn config() -> Config {
    Config {
        court_width: 900,
        court_height: 600,
        wall_thickness: 10,
        paddle_width: 30,
        paddle_height: 100,
        paddle_speed: 5,
        ball_size: 30,
        ball_speed: 4,
        paddle_offset: 400,
    }
}

fn rect(x: i64, y: i64, hx: i64, hy: i64) -> Rect {
    Rect { center: Vec2 { x, y }, half: Vec2 { x: hx, y: hy } }
}

const HOLD: PlayerIntents = PlayerIntents { left: Intent::Hold, right: Intent::Hold };

#[test]
fn integrate_moves_by_velocity_times_dt() {
    let p = Vec2 { x: 10, y: -7 };
    let v = Vec2 { x: 3, y: -2 };
    assert_eq!(integrate(p, v, 5), Vec2 { x: 25, y: -17 });
    assert_eq!(integrate(p, v, 0), p);
    assert_eq!(integrate(p, v, -4), p);
}

#[test]
fn overlap_is_symmetric() {
    let a = rect(0, 0, 15, 15);
    let b = rect(20, -25, 10, 20);
    assert_eq!(overlap(&a, &b), overlap(&b, &a));
    let o = overlap(&a, &b).unwrap();
    assert_eq!((o.depth_x, o.depth_y), (5, 10));
}

#[test]
fn touching_edges_do_not_overlap() {
    assert_eq!(overlap(&rect(0, 0, 10, 10), &rect(20, 0, 10, 10)), None);
}

#[test]
fn double_bounce_restores_velocity() {
    let bottom = Body { rect: rect(0, -300, 455, 5), kind: BodyKind::Solid };
    let top = Body { rect: rect(0, 300, 455, 5), kind: BodyKind::Solid };
    let ball = Ball { rect: rect(0, -284, 15, 15), velocity: Vec2 { x: 0, y: -4 } };
    let first = resolve(&ball, &vec![bottom]);
    assert_eq!(first.event, Some(CollisionEvent::Bounce));
    assert_eq!(first.new_velocity, Vec2 { x: 0, y: 4 });
    let moved = Ball { rect: rect(0, 283, 15, 15), velocity: first.new_velocity };
    let second = resolve(&moved, &vec![top]);
    assert_eq!(second.new_velocity, Vec2 { x: 0, y: -4 });
}

#[test]
fn ball_bounces_off_solid_wall() {
    let mut w = WorldState::new_world(config()).unwrap();
    w.ball.velocity = Vec2 { x: 0, y: -4 };
    let r = w.tick(HOLD, 71);
    assert_eq!(r.ball.velocity, Vec2 { x: 0, y: 4 });
    assert_eq!(r.ball.rect.center, Vec2 { x: 0, y: -284 });
    assert!(r.ball.rect.center.y >= -300 && r.ball.rect.center.y <= 300);
    assert_eq!(r.scoreboard, w.scoreboard);
}

#[test]
fn ball_past_left_wall_scores_for_right() {
    let mut w = WorldState::new_world(config()).unwrap();
    w.ball.velocity = Vec2 { x: -4, y: 0 };
    w.left.rect.center.y = 100;
    w.right.rect.center.y = -100;
    assert!(w.can_tick(120));
    let r = w.tick(HOLD, 120);
    assert_eq!(r.scoreboard.right_score, 1);
    assert_eq!(r.scoreboard.left_score, 0);
    assert_eq!(r.ball_position(), Vec2 { x: 0, y: 0 });
    assert!(r.ball.velocity.x != 0 || r.ball.velocity.y != 0);
    assert_eq!(r.paddle_position(PlayerSide::Left).y, 0);
    assert_eq!(r.paddle_position(PlayerSide::Right).y, 0);
    let moved = pong::collision::Ball { rect: rect(-480, 0, 15, 15), velocity: w.ball.velocity };
    let wall = Body { rect: rect(-450, 0, 5, 305), kind: BodyKind::Scoreable(PlayerSide::Left) };
    assert_eq!(resolve(&moved, &vec![wall]).event, Some(CollisionEvent::Scored(PlayerSide::Right)));
}

#[test]
fn paddle_at_top_stays_clamped() {
    let w = WorldState::new_world(config()).unwrap();
    let mut p = w.left;
    p.rect.center.y = -250;
    let r = update_paddle(&p, Intent::Up, 16, 5, -250, 250);
    assert_eq!(r.rect.center, Vec2 { x: -400, y: -250 });
    let mut w2 = w;
    w2.left = p;
    w2.right.rect.center.y = 250;
    let r2 = w2.tick(PlayerIntents { left: Intent::Up, right: Intent::Down }, 10);
    assert_eq!(r2.left.rect.center.y, -250);
    assert_eq!(r2.right.rect.center.y, 250);
}

#[test]
fn paddle_moves_with_intent() {
    let w = WorldState::new_world(config()).unwrap();
    let r = update_paddle(&w.left, Intent::Down, 10, 5, -250, 250);
    assert_eq!(r.rect.center, Vec2 { x: -400, y: 50 });
    let r = update_paddle(&w.left, Intent::Up, 10, 5, -250, 250);
    assert_eq!(r.rect.center, Vec2 { x: -400, y: -50 });
}

#[test]
fn paddle_contact_on_x_reflects_only_x() {
    let paddle = Body { rect: rect(-420, 0, 15, 50), kind: BodyKind::Paddle(PlayerSide::Left) };
    let ball = Ball { rect: rect(-392, 10, 15, 15), velocity: Vec2 { x: -4, y: 3 } };
    let r = resolve(&ball, &vec![paddle]);
    assert_eq!(r.new_velocity, Vec2 { x: 4, y: 3 });
    assert_eq!(r.event, Some(CollisionEvent::Bounce));
}

#[test]
fn equal_depths_reflect_both_axes() {
    let wall = Body { rect: rect(0, 0, 10, 10), kind: BodyKind::Solid };
    let ball = Ball { rect: rect(15, 15, 10, 10), velocity: Vec2 { x: -4, y: -3 } };
    assert_eq!(resolve(&ball, &vec![wall]).new_velocity, Vec2 { x: 4, y: 3 });
}

#[test]
fn first_body_touched_decides() {
    let solid = Body { rect: rect(0, 0, 10, 10), kind: BodyKind::Solid };
    let goal = Body { rect: rect(0, 0, 10, 10), kind: BodyKind::Scoreable(PlayerSide::Right) };
    let ball = Ball { rect: rect(5, 0, 10, 10), velocity: Vec2 { x: 4, y: 0 } };
    assert_eq!(resolve(&ball, &vec![goal, solid]).event, Some(CollisionEvent::Scored(PlayerSide::Left)));
    assert_eq!(resolve(&ball, &vec![solid, goal]).event, Some(CollisionEvent::Bounce));
    assert_eq!(resolve(&ball, &vec![]).event, None);
}

#[test]
fn at_most_one_point_per_tick() {
    let mut w = WorldState::new_world(config()).unwrap();
    for _ in 0..500 {
        let before = w.scoreboard.left_score + w.scoreboard.right_score;
        w = w.tick(HOLD, 7);
        let after = w.scoreboard.left_score + w.scoreboard.right_score;
        assert!(after == before || after == before + 1);
        assert!(w.left.rect.center.y.abs() <= 250);
    }
}

#[test]
fn negative_dt_is_a_no_op() {
    let w = WorldState::new_world(config()).unwrap();
    assert_eq!(w.tick(PlayerIntents { left: Intent::Up, right: Intent::Up }, -5), w);
}

#[test]
fn invalid_configuration_is_refused() {
    let mut c = config();
    c.court_height = 0;
    assert!(WorldState::new_world(c).is_none());
    let mut c = config();
    c.paddle_speed = 0;
    assert!(WorldState::new_world(c).is_none());
    let mut c = config();
    c.paddle_offset = 440;
    assert!(WorldState::new_world(c).is_none());
    let mut c = config();
    c.paddle_height = 601;
    assert!(WorldState::new_world(c).is_none());
}

#[test]
fn new_world_serves_from_center() {
    let w = WorldState::new_world(config()).unwrap();
    assert_eq!(w.ball.velocity, Vec2 { x: 4, y: -4 });
    assert_eq!(w.left.rect.center, Vec2 { x: -400, y: 0 });
    assert_eq!(w.right.rect.center, Vec2 { x: 400, y: 0 });
    assert_eq!(w.left.rect.half, Vec2 { x: 15, y: 50 });
    assert!(!w.can_tick(i64::MAX));
}

#[test]
fn starting_ball_touches_nothing() {
    let w = WorldState::new_world(config()).unwrap();
    let r = w.tick(HOLD, 1);
    assert_eq!(r.ball.velocity, w.ball.velocity);
    assert_eq!(r.ball.rect.center, Vec2 { x: 4, y: -4 });
    assert_eq!(r.scoreboard, w.scoreboard);
}
