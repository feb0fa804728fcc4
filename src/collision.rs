use vstd::prelude::*;
use crate::geometry::{overlap, overlap_spec, Overlap, Rect, Vec2};

verus! {

/// Largest speed component a ball may have.
pub const MAX_SPEED: i64 = 0x4000_0000;

#[derive(Clone, Copy, Debug, PartialEq, Eq, Structural)]
pub enum PlayerSide {
    Left,
    Right,
}

pub open spec fn opposite(s: PlayerSide) -> PlayerSide {
    match s {
        PlayerSide::Left => PlayerSide::Right,
        PlayerSide::Right => PlayerSide::Left,
    }
}

/// What a body is; a scoreable wall carries the side of the court it closes.
#[derive(Clone, Copy, Debug, PartialEq, Eq, Structural)]
pub enum BodyKind {
    Paddle(PlayerSide),
    Solid,
    Scoreable(PlayerSide),
}

#[derive(Clone, Copy, Debug, PartialEq, Eq, Structural)]
pub struct Body {
    pub rect: Rect,
    pub kind: BodyKind,
}

#[derive(Clone, Copy, Debug, PartialEq, Eq, Structural)]
pub struct Ball {
    pub rect: Rect,
    pub velocity: Vec2,
}

/// The single event a resolution step may produce.
#[derive(Clone, Copy, Debug, PartialEq, Eq, Structural)]
pub enum CollisionEvent {
    Bounce,
    /// The point goes to this side.
    Scored(PlayerSide),
}

#[derive(Clone, Copy, Debug, PartialEq, Eq, Structural)]
pub struct ResolvedStep {
    pub new_velocity: Vec2,
    pub event: Option<CollisionEvent>,
}

impl Ball {
    pub open spec fn wf(&self) -> bool {
        &&& self.rect.wf()
        &&& -MAX_SPEED <= self.velocity.x <= MAX_SPEED
        &&& -MAX_SPEED <= self.velocity.y <= MAX_SPEED
    }
}

/// The ball has gone through or beyond a scoreable wall.
pub open spec fn past(ball: Rect, wall: Rect, side: PlayerSide) -> bool {
    match side {
        PlayerSide::Left => ball.center.x < wall.center.x,
        PlayerSide::Right => ball.center.x > wall.center.x,
    }
}

pub open spec fn contact(ball: Rect, body: Body) -> bool {
    ||| overlap_spec(ball, body.rect) is Some
    ||| (body.kind matches BodyKind::Scoreable(s) && past(ball, body.rect, s))
}

/// Negates the velocity along the axis of smaller penetration, or both on a tie.
pub open spec fn reflect_spec(v: Vec2, dx: int, dy: int) -> Vec2 {
    if dx < dy {
        Vec2 { x: -v.x as i64, y: v.y }
    } else if dy < dx {
        Vec2 { x: v.x, y: -v.y as i64 }
    } else {
        Vec2 { x: -v.x as i64, y: -v.y as i64 }
    }
}

/// The response of one body in contact with the ball.
pub open spec fn respond_spec(ball: Ball, body: Body) -> ResolvedStep {
    match body.kind {
        BodyKind::Scoreable(s) => ResolvedStep {
            new_velocity: ball.velocity,
            event: Some(CollisionEvent::Scored(opposite(s))),
        },
        _ => {
            let (dx, dy) = overlap_spec(ball.rect, body.rect)->0;
            ResolvedStep { new_velocity: reflect_spec(ball.velocity, dx, dy), event: Some(CollisionEvent::Bounce) }
        },
    }
}

/// The response of the first body, from index `i` on, that the ball touches.
pub open spec fn resolve_from(ball: Ball, bodies: Seq<Body>, i: int) -> ResolvedStep
    decreases bodies.len() - i,
{
    if i < 0 || i >= bodies.len() {
        ResolvedStep { new_velocity: ball.velocity, event: None }
    } else if contact(ball.rect, bodies[i]) {
        respond_spec(ball, bodies[i])
    } else {
        resolve_from(ball, bodies, i + 1)
    }
}

pub open spec fn resolve_spec(ball: Ball, bodies: Seq<Body>) -> ResolvedStep {
    resolve_from(ball, bodies, 0)
}

fn reflect(v: Vec2, o: Overlap) -> (r: Vec2)
    requires
        -MAX_SPEED <= v.x <= MAX_SPEED,
        -MAX_SPEED <= v.y <= MAX_SPEED,
    ensures
        r == reflect_spec(v, o.depth_x as int, o.depth_y as int),
{
    if o.depth_x < o.depth_y {
        Vec2 { x: -v.x, y: v.y }
    } else if o.depth_y < o.depth_x {
        Vec2 { x: v.x, y: -v.y }
    } else {
        Vec2 { x: -v.x, y: -v.y }
    }
}

fn past_wall(ball: &Rect, wall: &Rect, side: PlayerSide) -> (r: bool)
    ensures
        r == past(*ball, *wall, side),
{
    match side {
        PlayerSide::Left => ball.center.x < wall.center.x,
        PlayerSide::Right => ball.center.x > wall.center.x,
    }
}

/// Checks the ball against each body in order; the first one touched decides
/// the new velocity and the one event, if any.
pub fn resolve(ball: &Ball, bodies: &Vec<Body>) -> (r: ResolvedStep)
    requires
        ball.wf(),
        forall|i: int| 0 <= i < bodies.len() ==> (#[trigger] bodies[i]).rect.wf(),
    ensures
        r == resolve_spec(*ball, bodies@),
{
    let mut i: usize = 0;
    while i < bodies.len()
        invariant
            0 <= i <= bodies.len(),
            ball.wf(),
            forall|j: int| 0 <= j < bodies.len() ==> (#[trigger] bodies[j]).rect.wf(),
            resolve_from(*ball, bodies@, i as int) == resolve_spec(*ball, bodies@),
        decreases bodies.len() - i,
    {
        let body = &bodies[i];
        let o = overlap(&ball.rect, &body.rect);
        match body.kind {
            BodyKind::Scoreable(s) => {
                if o.is_some() || past_wall(&ball.rect, &body.rect, s) {
                    let to = match s {
                        PlayerSide::Left => PlayerSide::Right,
                        PlayerSide::Right => PlayerSide::Left,
                    };
                    return ResolvedStep { new_velocity: ball.velocity, event: Some(CollisionEvent::Scored(to)) };
                }
            },
            _ => {
                if let Some(ov) = o {
                    let v = reflect(ball.velocity, ov);
                    return ResolvedStep { new_velocity: v, event: Some(CollisionEvent::Bounce) };
                }
            },
        }
        i = i + 1;
    }
    ResolvedStep { new_velocity: ball.velocity, event: None }
}

/// Two bounces along the same axis of a ball moving straight restore its velocity:
/// off one solid wall and then off a parallel one, speed is kept and the sign returns.
pub proof fn lemma_double_bounce(ball: Ball, wall1: Body, moved: Rect, wall2: Body)
    requires
        ball.wf(),
        ball.velocity.x == 0,
        wall1.kind == BodyKind::Solid,
        wall2.kind == BodyKind::Solid,
        overlap_spec(ball.rect, wall1.rect) matches Some((dx, dy)) && dy < dx,
        overlap_spec(moved, wall2.rect) matches Some((dx, dy)) && dy < dx,
    ensures
        ({
            let first = resolve_spec(ball, seq![wall1]);
            let second = resolve_spec(Ball { rect: moved, velocity: first.new_velocity }, seq![wall2]);
            &&& first.event == Some(CollisionEvent::Bounce)
            &&& first.new_velocity.y == -ball.velocity.y
            &&& first.new_velocity.x == 0
            &&& second.event == Some(CollisionEvent::Bounce)
            &&& second.new_velocity == ball.velocity
        }),
{
    let s1 = seq![wall1];
    assert(s1[0] == wall1);
    assert(contact(ball.rect, s1[0]));
    let first = resolve_spec(ball, s1);
    let b2 = Ball { rect: moved, velocity: first.new_velocity };
    let s2 = seq![wall2];
    assert(s2[0] == wall2);
    assert(contact(b2.rect, s2[0]));
}

} // verus!
