use vstd::prelude::*;
use crate::geometry::{integrate, integrate_axis, integrate_fits, Rect, Vec2};
use crate::collision::{
    contact, resolve, resolve_from, resolve_spec, Ball, Body, BodyKind, CollisionEvent,
    PlayerSide, MAX_SPEED,
};

verus! {

/// Largest size or speed a configuration may give.
pub const MAX_DIM: i64 = 0x1000_0000;

/// The scene's fixed configuration, in integer units.
#[derive(Clone, Copy, Debug, PartialEq, Eq, Structural)]
pub struct Config {
    pub court_width: i64,
    pub court_height: i64,
    pub wall_thickness: i64,
    pub paddle_width: i64,
    pub paddle_height: i64,
    pub paddle_speed: i64,
    pub ball_size: i64,
    pub ball_speed: i64,
    /// Horizontal distance of each paddle's center from the court's center.
    pub paddle_offset: i64,
}

pub open spec fn dim_ok(d: i64) -> bool {
    0 < d <= MAX_DIM
}

impl Config {
    /// Positive, bounded dimensions; paddles fit the court's height and stand inside its width.
    pub open spec fn valid(&self) -> bool {
        &&& dim_ok(self.court_width)
        &&& dim_ok(self.court_height)
        &&& dim_ok(self.wall_thickness)
        &&& dim_ok(self.paddle_width)
        &&& dim_ok(self.paddle_height)
        &&& dim_ok(self.paddle_speed)
        &&& dim_ok(self.ball_size)
        &&& dim_ok(self.ball_speed)
        &&& dim_ok(self.paddle_offset)
        &&& self.paddle_height <= self.court_height
        &&& 2 * self.paddle_offset + self.paddle_width < self.court_width
    }

    /// Lowest center a paddle may have.
    pub open spec fn paddle_lo(&self) -> int {
        -(self.court_height / 2) + self.paddle_height / 2
    }

    /// Highest center a paddle may have.
    pub open spec fn paddle_hi(&self) -> int {
        self.court_height / 2 - self.paddle_height / 2
    }
}

#[derive(Clone, Copy, Debug, PartialEq, Eq, Structural)]
pub enum Intent {
    Up,
    Down,
    Hold,
}

#[derive(Clone, Copy, Debug, PartialEq, Eq, Structural)]
pub struct PlayerIntents {
    pub left: Intent,
    pub right: Intent,
}

#[derive(Clone, Copy, Debug, PartialEq, Eq, Structural)]
pub struct Paddle {
    pub rect: Rect,
    pub side: PlayerSide,
}

#[derive(Clone, Copy, Debug, PartialEq, Eq, Structural)]
pub struct Scoreboard {
    pub left_score: u64,
    pub right_score: u64,
}

#[derive(Clone, Copy, Debug, PartialEq, Eq, Structural)]
pub struct WorldState {
    pub config: Config,
    pub left: Paddle,
    pub right: Paddle,
    pub ball: Ball,
    pub scoreboard: Scoreboard,
}

pub open spec fn direction(i: Intent) -> int {
    match i {
        Intent::Up => -1,
        Intent::Down => 1,
        Intent::Hold => 0,
    }
}

pub open spec fn clamp(v: int, lo: int, hi: int) -> int {
    if v < lo { lo } else if v > hi { hi } else { v }
}

/// Center height of a paddle after moving with `intent` for `dt`, kept within `[lo, hi]`.
pub open spec fn paddle_y(y: int, intent: Intent, dt: int, speed: int, lo: int, hi: int) -> int {
    clamp(integrate_axis(y, direction(intent) * speed, dt), lo, hi)
}

/// Horizontal center of a side's paddle.
pub open spec fn paddle_x(c: Config, side: PlayerSide) -> int {
    let off = c.paddle_offset;
    match side {
        PlayerSide::Left => -off,
        PlayerSide::Right => off as int,
    }
}

pub open spec fn paddle_at(c: Config, side: PlayerSide, y: int) -> Paddle {
    Paddle {
        rect: Rect {
            center: Vec2 { x: paddle_x(c, side) as i64, y: y as i64 },
            half: Vec2 { x: (c.paddle_width / 2) as i64, y: (c.paddle_height / 2) as i64 },
        },
        side,
    }
}

pub open spec fn paddle_ok(c: Config, p: Paddle, side: PlayerSide) -> bool {
    &&& c.paddle_lo() <= p.rect.center.y <= c.paddle_hi()
    &&& p == paddle_at(c, side, p.rect.center.y as int)
}

/// The rectangle of a paddle lies within the court's vertical extent.
pub open spec fn within_court(c: Config, p: Paddle) -> bool {
    &&& -(c.court_height / 2) <= p.rect.center.y - p.rect.half.y
    &&& p.rect.center.y + p.rect.half.y <= c.court_height / 2
}

pub open spec fn ball_half(c: Config) -> Vec2 {
    Vec2 { x: (c.ball_size / 2) as i64, y: (c.ball_size / 2) as i64 }
}

/// The ball served from the center after `to` scored, heading at the side that conceded.
pub open spec fn serve_spec(c: Config, to: PlayerSide) -> Ball {
    Ball {
        rect: Rect { center: Vec2 { x: 0, y: 0 }, half: ball_half(c) },
        velocity: Vec2 {
            x: match to {
                PlayerSide::Right => -c.ball_speed,
                PlayerSide::Left => c.ball_speed as int,
            } as i64,
            y: -c.ball_speed as i64,
        },
    }
}

/// The scoreable wall that closes one side of the court.
pub open spec fn goal_spec(c: Config, side: PlayerSide) -> Body {
    let x = match side {
        PlayerSide::Left => -(c.court_width / 2),
        PlayerSide::Right => c.court_width / 2,
    };
    Body {
        rect: Rect {
            center: Vec2 { x: x as i64, y: 0 },
            half: Vec2 { x: (c.wall_thickness / 2) as i64, y: ((c.court_height + c.wall_thickness) / 2) as i64 },
        },
        kind: BodyKind::Scoreable(side),
    }
}

/// The solid wall along the top of the court (toward -y), or along the bottom when `lower`.
pub open spec fn rail_spec(c: Config, lower: bool) -> Body {
    let y = if lower { c.court_height / 2 } else { -(c.court_height / 2) };
    Body {
        rect: Rect {
            center: Vec2 { x: 0, y: y as i64 },
            half: Vec2 { x: ((c.court_width + c.wall_thickness) / 2) as i64, y: (c.wall_thickness / 2) as i64 },
        },
        kind: BodyKind::Solid,
    }
}

/// Everything the ball can touch, in the order the resolver visits it:
/// the paddles, the scoreable walls, then the solid walls at the top and at the bottom.
pub open spec fn bodies_spec(c: Config, l: Paddle, r: Paddle) -> Seq<Body> {
    seq![
        Body { rect: l.rect, kind: BodyKind::Paddle(PlayerSide::Left) },
        Body { rect: r.rect, kind: BodyKind::Paddle(PlayerSide::Right) },
        goal_spec(c, PlayerSide::Left),
        goal_spec(c, PlayerSide::Right),
        rail_spec(c, false),
        rail_spec(c, true),
    ]
}

pub open spec fn add_point(s: Scoreboard, to: PlayerSide) -> Scoreboard {
    match to {
        PlayerSide::Left => Scoreboard { left_score: (s.left_score + 1) as u64, ..s },
        PlayerSide::Right => Scoreboard { right_score: (s.right_score + 1) as u64, ..s },
    }
}

/// One simulation step: paddles move, the ball advances, the first body touched
/// responds, and a point restarts the round.
pub open spec fn tick_spec(w: WorldState, input: PlayerIntents, dt: int) -> WorldState {
    if dt <= 0 {
        w
    } else {
        let c = w.config;
        let l = paddle_at(c, PlayerSide::Left,
            paddle_y(w.left.rect.center.y as int, input.left, dt, c.paddle_speed as int, c.paddle_lo(), c.paddle_hi()));
        let r = paddle_at(c, PlayerSide::Right,
            paddle_y(w.right.rect.center.y as int, input.right, dt, c.paddle_speed as int, c.paddle_lo(), c.paddle_hi()));
        let moved = Ball {
            rect: Rect {
                center: Vec2 {
                    x: integrate_axis(w.ball.rect.center.x as int, w.ball.velocity.x as int, dt) as i64,
                    y: integrate_axis(w.ball.rect.center.y as int, w.ball.velocity.y as int, dt) as i64,
                },
                half: w.ball.rect.half,
            },
            velocity: w.ball.velocity,
        };
        let step = resolve_spec(moved, bodies_spec(c, l, r));
        match step.event {
            Some(CollisionEvent::Scored(to)) => WorldState {
                config: c,
                left: paddle_at(c, PlayerSide::Left, 0),
                right: paddle_at(c, PlayerSide::Right, 0),
                ball: serve_spec(c, to),
                scoreboard: add_point(w.scoreboard, to),
            },
            _ => WorldState {
                config: c,
                left: l,
                right: r,
                ball: Ball { rect: moved.rect, velocity: step.new_velocity },
                scoreboard: w.scoreboard,
            },
        }
    }
}

impl WorldState {
    pub open spec fn wf(&self) -> bool {
        let c = self.config;
        &&& c.valid()
        &&& paddle_ok(c, self.left, PlayerSide::Left)
        &&& paddle_ok(c, self.right, PlayerSide::Right)
        &&& self.ball.rect.half == ball_half(c)
        &&& -c.ball_speed <= self.ball.velocity.x <= c.ball_speed
        &&& -c.ball_speed <= self.ball.velocity.y <= c.ball_speed
    }

    /// A step of `dt` keeps the ball's coordinates representable.
    pub open spec fn step_fits(&self, dt: int) -> bool {
        integrate_fits(self.ball.rect.center, self.ball.velocity, dt)
    }
}

/// Moves a paddle vertically at `speed` in the direction of `intent` for `dt`,
/// clamping its center to `[lo, hi]`; its horizontal position never changes.
pub fn update_paddle(paddle: &Paddle, intent: Intent, dt: i64, speed: i64, lo: i64, hi: i64) -> (r: Paddle)
    requires
        0 <= speed <= MAX_DIM,
        lo <= hi,
    ensures
        r.rect.center.x == paddle.rect.center.x,
        r.rect.half == paddle.rect.half,
        r.side == paddle.side,
        r.rect.center.y == paddle_y(paddle.rect.center.y as int, intent, dt as int, speed as int, lo as int, hi as int),
        lo <= r.rect.center.y <= hi,
{
    let v: i128 = match intent {
        Intent::Up => -(speed as i128),
        Intent::Down => speed as i128,
        Intent::Hold => 0,
    };
    let y0: i128 = paddle.rect.center.y as i128;
    let cand: i128 = if dt > 0 {
        proof {
            assert(-MAX_DIM * i64::MAX <= v * dt <= MAX_DIM * i64::MAX) by (nonlinear_arith)
                requires -MAX_DIM <= v <= MAX_DIM, 0 < dt <= i64::MAX;
        }
        y0 + v * dt as i128
    } else {
        y0
    };
    proof {
        assert(v == direction(intent) * speed);
    }
    let y: i64 = if cand < lo as i128 {
        lo
    } else if cand > hi as i128 {
        hi
    } else {
        cand as i64
    };
    Paddle { rect: Rect { center: Vec2 { x: paddle.rect.center.x, y }, half: paddle.rect.half }, side: paddle.side }
}

fn paddle_new(c: &Config, side: PlayerSide) -> (r: Paddle)
    requires
        c.valid(),
    ensures
        r == paddle_at(*c, side, 0),
{
    let off = c.paddle_offset;
    let x = match side {
        PlayerSide::Left => -off,
        PlayerSide::Right => off,
    };
    Paddle {
        rect: Rect { center: Vec2 { x, y: 0 }, half: Vec2 { x: c.paddle_width / 2, y: c.paddle_height / 2 } },
        side,
    }
}

fn serve(c: &Config, to: PlayerSide) -> (r: Ball)
    requires
        c.valid(),
    ensures
        r == serve_spec(*c, to),
{
    let vx = match to {
        PlayerSide::Right => -c.ball_speed,
        PlayerSide::Left => c.ball_speed,
    };
    Ball {
        rect: Rect { center: Vec2 { x: 0, y: 0 }, half: Vec2 { x: c.ball_size / 2, y: c.ball_size / 2 } },
        velocity: Vec2 { x: vx, y: -c.ball_speed },
    }
}

fn goal(c: &Config, side: PlayerSide) -> (r: Body)
    requires
        c.valid(),
    ensures
        r == goal_spec(*c, side),
        r.rect.wf(),
{
    let x = match side {
        PlayerSide::Left => -(c.court_width / 2),
        PlayerSide::Right => c.court_width / 2,
    };
    Body {
        rect: Rect {
            center: Vec2 { x, y: 0 },
            half: Vec2 { x: c.wall_thickness / 2, y: (c.court_height + c.wall_thickness) / 2 },
        },
        kind: BodyKind::Scoreable(side),
    }
}

fn rail(c: &Config, lower: bool) -> (r: Body)
    requires
        c.valid(),
    ensures
        r == rail_spec(*c, lower),
        r.rect.wf(),
{
    let y = if lower { c.court_height / 2 } else { -(c.court_height / 2) };
    Body {
        rect: Rect {
            center: Vec2 { x: 0, y },
            half: Vec2 { x: (c.court_width + c.wall_thickness) / 2, y: c.wall_thickness / 2 },
        },
        kind: BodyKind::Solid,
    }
}

fn bodies(c: &Config, l: &Paddle, r: &Paddle) -> (v: Vec<Body>)
    requires
        c.valid(),
        l.rect.wf(),
        r.rect.wf(),
    ensures
        v@ == bodies_spec(*c, *l, *r),
        forall|i: int| 0 <= i < v.len() ==> (#[trigger] v[i]).rect.wf(),
{
    let v = vec![
        Body { rect: l.rect, kind: BodyKind::Paddle(PlayerSide::Left) },
        Body { rect: r.rect, kind: BodyKind::Paddle(PlayerSide::Right) },
        goal(c, PlayerSide::Left),
        goal(c, PlayerSide::Right),
        rail(c, false),
        rail(c, true),
    ];
    assert(v@ =~= bodies_spec(*c, *l, *r));
    v
}

proof fn lemma_resolve_bounded(ball: Ball, bodies: Seq<Body>, i: int, s: int)
    requires
        0 <= s <= MAX_SPEED,
        -s <= ball.velocity.x <= s,
        -s <= ball.velocity.y <= s,
    ensures
        -s <= resolve_from(ball, bodies, i).new_velocity.x <= s,
        -s <= resolve_from(ball, bodies, i).new_velocity.y <= s,
    decreases bodies.len() - i,
{
    if 0 <= i < bodies.len() && !contact(ball.rect, bodies[i]) {
        lemma_resolve_bounded(ball, bodies, i + 1, s);
    }
}

impl WorldState {
    /// Builds the starting world: paddles centered, ball served toward +x and the top (-y),
    /// scores at zero. `None` exactly when the configuration is not valid.
    pub fn new_world(config: Config) -> (r: Option<WorldState>)
        ensures
            r is Some <==> config.valid(),
            r matches Some(w) ==> {
                &&& w.wf()
                &&& w.config == config
                &&& w.left == paddle_at(config, PlayerSide::Left, 0)
                &&& w.right == paddle_at(config, PlayerSide::Right, 0)
                &&& w.ball == serve_spec(config, PlayerSide::Left)
                &&& w.ball.velocity.x > 0 && w.ball.velocity.y < 0
                &&& w.scoreboard == (Scoreboard { left_score: 0, right_score: 0 })
            },
    {
        let ok = 0 < config.court_width && config.court_width <= MAX_DIM
            && 0 < config.court_height && config.court_height <= MAX_DIM
            && 0 < config.wall_thickness && config.wall_thickness <= MAX_DIM
            && 0 < config.paddle_width && config.paddle_width <= MAX_DIM
            && 0 < config.paddle_height && config.paddle_height <= MAX_DIM
            && 0 < config.paddle_speed && config.paddle_speed <= MAX_DIM
            && 0 < config.ball_size && config.ball_size <= MAX_DIM
            && 0 < config.ball_speed && config.ball_speed <= MAX_DIM
            && 0 < config.paddle_offset && config.paddle_offset <= MAX_DIM
            && config.paddle_height <= config.court_height
            && 2 * config.paddle_offset + config.paddle_width < config.court_width;
        if !ok {
            return None;
        }
        Some(WorldState {
            config,
            left: paddle_new(&config, PlayerSide::Left),
            right: paddle_new(&config, PlayerSide::Right),
            ball: serve(&config, PlayerSide::Left),
            scoreboard: Scoreboard { left_score: 0, right_score: 0 },
        })
    }

    /// Whether `tick` may be called with `dt`: the world is well formed, the ball's
    /// new coordinates are representable and no score is at its largest value.
    pub fn can_tick(&self, dt: i64) -> (r: bool)
        requires
            self.wf(),
        ensures
            r == (self.step_fits(dt as int) && self.scoreboard.left_score < u64::MAX
                && self.scoreboard.right_score < u64::MAX),
    {
        if self.scoreboard.left_score == u64::MAX || self.scoreboard.right_score == u64::MAX {
            return false;
        }
        if dt <= 0 {
            return true;
        }
        let p = self.ball.rect.center;
        let v = self.ball.velocity;
        proof {
            assert(-MAX_DIM * i64::MAX <= v.x * dt <= MAX_DIM * i64::MAX) by (nonlinear_arith)
                requires -MAX_DIM <= v.x <= MAX_DIM, 0 < dt <= i64::MAX;
            assert(-MAX_DIM * i64::MAX <= v.y * dt <= MAX_DIM * i64::MAX) by (nonlinear_arith)
                requires -MAX_DIM <= v.y <= MAX_DIM, 0 < dt <= i64::MAX;
        }
        let x: i128 = p.x as i128 + v.x as i128 * dt as i128;
        let y: i128 = p.y as i128 + v.y as i128 * dt as i128;
        i64::MIN as i128 <= x && x <= i64::MAX as i128 && i64::MIN as i128 <= y && y <= i64::MAX as i128
    }

    /// Advances the world by `dt`; a non-positive `dt` changes nothing. At most one
    /// point is awarded, and the paddles stay inside the court.
    pub fn tick(&self, input: PlayerIntents, dt: i64) -> (r: WorldState)
        requires
            self.wf(),
            self.step_fits(dt as int),
            self.scoreboard.left_score < u64::MAX,
            self.scoreboard.right_score < u64::MAX,
        ensures
            r == tick_spec(*self, input, dt as int),
            r.wf(),
            r.scoreboard.left_score + r.scoreboard.right_score
                == self.scoreboard.left_score + self.scoreboard.right_score
            || r.scoreboard.left_score + r.scoreboard.right_score
                == self.scoreboard.left_score + self.scoreboard.right_score + 1,
            within_court(r.config, r.left),
            within_court(r.config, r.right),
    {
        if dt <= 0 {
            return *self;
        }
        let c = self.config;
        let lo = c.paddle_height / 2 - c.court_height / 2;
        let hi = c.court_height / 2 - c.paddle_height / 2;
        let l = update_paddle(&self.left, input.left, dt, c.paddle_speed, lo, hi);
        let r = update_paddle(&self.right, input.right, dt, c.paddle_speed, lo, hi);
        let pos = integrate(self.ball.rect.center, self.ball.velocity, dt);
        let moved = Ball { rect: Rect { center: pos, half: self.ball.rect.half }, velocity: self.ball.velocity };
        let bs = bodies(&c, &l, &r);
        let step = resolve(&moved, &bs);
        proof {
            lemma_resolve_bounded(moved, bs@, 0, c.ball_speed as int);
        }
        match step.event {
            Some(CollisionEvent::Scored(to)) => {
                let sb = match to {
                    PlayerSide::Left => Scoreboard { left_score: self.scoreboard.left_score + 1, ..self.scoreboard },
                    PlayerSide::Right => Scoreboard { right_score: self.scoreboard.right_score + 1, ..self.scoreboard },
                };
                WorldState {
                    config: c,
                    left: paddle_new(&c, PlayerSide::Left),
                    right: paddle_new(&c, PlayerSide::Right),
                    ball: serve(&c, to),
                    scoreboard: sb,
                }
            },
            _ => WorldState {
                config: c,
                left: l,
                right: r,
                ball: Ball { rect: moved.rect, velocity: step.new_velocity },
                scoreboard: self.scoreboard,
            },
        }
    }

    pub fn scoreboard(&self) -> (r: Scoreboard)
        ensures
            r == self.scoreboard,
    {
        self.scoreboard
    }

    pub fn ball_position(&self) -> (r: Vec2)
        ensures
            r == self.ball.rect.center,
    {
        self.ball.rect.center
    }

    pub fn paddle_position(&self, side: PlayerSide) -> (r: Vec2)
        ensures
            r == match side {
                PlayerSide::Left => self.left.rect.center,
                PlayerSide::Right => self.right.rect.center,
            },
    {
        match side {
            PlayerSide::Left => self.left.rect.center,
            PlayerSide::Right => self.right.rect.center,
        }
    }
}

/// At most one point is awarded per tick: the summed score grows by zero or one.
pub proof fn lemma_score_conservation(w: WorldState, input: PlayerIntents, dt: int)
    requires
        w.scoreboard.left_score < u64::MAX,
        w.scoreboard.right_score < u64::MAX,
    ensures
        ({
            let before = w.scoreboard.left_score + w.scoreboard.right_score;
            let r = tick_spec(w, input, dt).scoreboard;
            r.left_score + r.right_score == before || r.left_score + r.right_score == before + 1
        }),
{
}

/// Whatever the intent and step, a paddle's new center stays within its bounds,
/// so its rectangle stays inside the court's vertical extent.
pub proof fn lemma_paddle_clamped(c: Config, y: int, intent: Intent, dt: int)
    requires
        c.valid(),
    ensures
        c.paddle_lo() <= paddle_y(y, intent, dt, c.paddle_speed as int, c.paddle_lo(), c.paddle_hi()) <= c.paddle_hi(),
        within_court(c, paddle_at(c, PlayerSide::Left,
            paddle_y(y, intent, dt, c.paddle_speed as int, c.paddle_lo(), c.paddle_hi()))),
{
}

} // verus!
