//! The ball's kinematic state machine.
//!
//! A [`Ball`] is in one of two modes. While the primary button is held
//! the caller feeds pointer motion to [`Ball::move_ball`], which drags
//! the ball and estimates a throw velocity from a lagging anchor. While
//! the button is up the caller drives [`Ball::tick`], which applies
//! gravity, screen-edge collision with restitution, linear drag, and
//! explicit Euler integration. [`Ball::update_window`] converts the
//! center position to a window top-left corner and suppresses pushes
//! that move less than one pixel.
//!
//! Every operation's exact effect is stated over [`BallModel`], the
//! mathematical image of the state under unbounded integers.

use vstd::prelude::*;

use crate::fixed::{fp_mul, fp_mul_spec, lemma_fp_mul_bound, FP};
use crate::math::{in_range, len_sq_spec, v2_add, v2_scale, v2_sub, Vec2, V2};
use vstd::arithmetic::div_mod::{
    lemma_div_multiples_vanish, lemma_div_pos_is_pos, lemma_fundamental_div_mod,
    lemma_mod_division_less_than_divisor, lemma_multiply_divide_le,
};
use vstd::math::abs;

verus! {

/// Pixels per meter: the fixed physical scale of the simulation.
pub const PX_PER_METER: i64 = 64;

/// Gravity, in fixed-point pixels per second squared: 9.8 m/s².
pub const GRAVITY: i64 = 9_800_000 * PX_PER_METER;

/// Fraction of speed kept, sign flipped, by an edge collision: 0.6.
pub const RESTITUTION: i64 = 600_000;

/// Linear drag coefficient, per second: 0.05.
pub const DRAG_COEFF: i64 = 50_000;

/// Fraction of the anchor gap closed per second of drag: 0.99.
pub const CATCH_UP: i64 = 990_000;

/// Gain turning the lagged drag displacement into a throw velocity: 4.
pub const THROW_GAIN: i64 = 4;

/// Largest position magnitude, in units, the operations accept.
pub const MAX_POS: i64 = 1_000_000_000_000_000;

/// Largest velocity magnitude, in units per second, the operations accept.
pub const MAX_VEL: i64 = 100_000_000_000_000_000;

/// Largest drag-anchor magnitude, in units, the operations accept.
pub const MAX_ANCHOR: i64 = 500_000_000_000_000_000;

/// Largest frame time, in fixed-point seconds, the operations accept: 10 s.
pub const MAX_DT: i64 = 10_000_000;

/// Largest ball radius, in units, the operations accept.
pub const MAX_RADIUS: i64 = 1_000_000_000_000;

/// Squared push threshold: a window move is pushed only when the center
/// moved more than one pixel, that is `FP * FP` squared units.
pub const PUSH_THRESHOLD_SQ: i128 = 1_000_000_000_000;

/// The mathematical image of a ball's state.
pub ghost struct BallModel {
    /// Ball center, absolute screen coordinates, in units.
    pub pos: V2,
    /// Velocity, in units per second.
    pub vel: V2,
    /// Ball radius, in units.
    pub radius: int,
    /// Lagging drag anchor; `Some` exactly while a drag is in progress.
    pub anchor: Option<V2>,
    /// Center position at the last push to the window host, if any.
    pub last_push: Option<V2>,
}

/// `v` clamped into `[lo, hi]`.
pub open spec fn clamp_spec(v: int, lo: int, hi: int) -> int {
    if v < lo {
        lo
    } else if v > hi {
        hi
    } else {
        v
    }
}

/// Velocity after gravity acted for `dt`: the y component gains
/// `GRAVITY * dt`, downward being positive.
pub open spec fn gravity_model(v: V2, dt: int) -> V2 {
    V2 { x: v.x, y: v.y + fp_mul_spec(GRAVITY as int, dt) }
}

/// One axis of collision response: position clamped into `[lo, hi]`;
/// if clamping moved it, the velocity reverses scaled by `RESTITUTION`.
pub open spec fn collide_axis_model(p: int, v: int, lo: int, hi: int) -> (int, int) {
    let c = clamp_spec(p, lo, hi);
    if c != p {
        (c, fp_mul_spec(v, -(RESTITUTION as int)))
    } else {
        (p, v)
    }
}

/// One axis of linear drag: the velocity loses `v * DRAG_COEFF * dt`.
pub open spec fn drag_decay_model(v: int, dt: int) -> int {
    v - fp_mul_spec(fp_mul_spec(v, DRAG_COEFF as int), dt)
}

/// One frame of free flight: clear the anchor, apply gravity, collide
/// against the screen edges, apply drag, then integrate the position.
pub open spec fn tick_model(b: BallModel, bounds: V2, dt: int) -> BallModel {
    let v1 = gravity_model(b.vel, dt);
    let cy = collide_axis_model(b.pos.y, v1.y, b.radius, bounds.y - b.radius);
    let cx = collide_axis_model(b.pos.x, v1.x, b.radius, bounds.x - b.radius);
    let v2 = V2 { x: drag_decay_model(cx.1, dt), y: drag_decay_model(cy.1, dt) };
    let pos = v2_add(V2 { x: cx.0, y: cy.0 }, v2_scale(v2, dt));
    BallModel { pos, vel: v2, radius: b.radius, anchor: None, last_push: b.last_push }
}

/// One frame of dragging: the position follows the pointer motion. On
/// the first frame the anchor is planted at the new position and the
/// velocity is untouched; afterwards the velocity is estimated as the
/// gap to the lagging anchor times `THROW_GAIN`, and the anchor moves
/// toward the position by `CATCH_UP` of the gap per second.
pub open spec fn drag_model(b: BallModel, diff: V2, dt: int) -> BallModel {
    let pos = v2_add(b.pos, diff);
    match b.anchor {
        None => BallModel { pos, vel: b.vel, radius: b.radius, anchor: Some(pos), last_push: b.last_push },
        Some(a) => {
            let gap = v2_sub(pos, a);
            let anchor = v2_add(a, v2_scale(v2_scale(gap, CATCH_UP as int), dt));
            BallModel {
                pos,
                vel: V2 { x: THROW_GAIN as int * gap.x, y: THROW_GAIN as int * gap.y },
                radius: b.radius,
                anchor: Some(anchor),
                last_push: b.last_push,
            }
        },
    }
}

/// Center to window top-left: back off by the radius on both axes.
pub open spec fn center_to_corner_model(p: V2, radius: int) -> V2 {
    V2 { x: p.x - radius, y: p.y - radius }
}

/// Window top-left to center: advance by the radius on both axes.
pub open spec fn corner_to_center_model(p: V2, radius: int) -> V2 {
    V2 { x: p.x + radius, y: p.y + radius }
}

/// Whether a center position is far enough from the last pushed one to
/// be worth a window move: more than one pixel away, or never pushed.
pub open spec fn should_push(pos: V2, last_push: Option<V2>) -> bool {
    match last_push {
        None => true,
        Some(lp) => len_sq_spec(v2_sub(pos, lp)) > (FP as int) * (FP as int),
    }
}

/// `v` clamped into `[lo, hi]`.
fn clamp_i64(v: i64, lo: i64, hi: i64) -> (r: i64)
    requires
        lo <= hi,
    ensures
        r == clamp_spec(v as int, lo as int, hi as int),
{
    if v < lo {
        lo
    } else if v > hi {
        hi
    } else {
        v
    }
}

/// The ball's kinematic state, in fixed-point units.
pub struct Ball {
    /// Ball center, absolute screen coordinates.
    pub pos: Vec2,
    /// Velocity, in units per second.
    pub velocity: Vec2,
    /// Ball radius, in units.
    pub radius: i64,
    /// Lagging drag anchor; `Some` exactly while a drag is in progress.
    pub start_drag: Option<Vec2>,
    /// Center position at the last push to the window host, if any.
    pub last_update: Option<Vec2>,
}

impl View for Ball {
    type V = BallModel;

    open spec fn view(&self) -> BallModel {
        BallModel {
            pos: self.pos@,
            vel: self.velocity@,
            radius: self.radius as int,
            anchor: match self.start_drag {
                Some(a) => Some(a@),
                None => None,
            },
            last_push: match self.last_update {
                Some(p) => Some(p@),
                None => None,
            },
        }
    }
}

impl Ball {
    /// The state lies within the ranges the operations accept.
    pub open spec fn wf(&self) -> bool {
        &&& in_range(self@.pos, MAX_POS as int)
        &&& in_range(self@.vel, MAX_VEL as int)
        &&& 0 < self@.radius <= MAX_RADIUS as int
        &&& match self@.anchor {
            Some(a) => in_range(a, MAX_ANCHOR as int),
            None => true,
        }
        &&& match self@.last_push {
            Some(p) => in_range(p, MAX_POS as int),
            None => true,
        }
    }

    /// Builds a resting ball of the given radius in fixed-point meters,
    /// centered at the origin, outside any drag, never yet pushed.
    pub fn new(radius: i64) -> (r: Self)
        requires
            0 < radius,
            radius * PX_PER_METER <= MAX_RADIUS,
        ensures
            r.wf(),
            r@.radius == radius * PX_PER_METER,
            r@.pos == (V2 { x: 0, y: 0 }),
            r@.vel == (V2 { x: 0, y: 0 }),
            r@.anchor == None::<V2>,
            r@.last_push == None::<V2>,
    {
        Ball {
            radius: radius * PX_PER_METER,
            pos: Vec2::zero(),
            velocity: Vec2::zero(),
            start_drag: None,
            last_update: None,
        }
    }

    /// The square window size that fits the ball: twice the radius on
    /// both axes.
    pub fn size(&self) -> (r: Vec2)
        requires
            self.wf(),
        ensures
            r@ == (V2 { x: 2 * self@.radius, y: 2 * self@.radius }),
    {
        Vec2::new(2 * self.radius, 2 * self.radius)
    }

    /// Converts a center position to the window top-left corner.
    pub fn center_to_corner(&self, pos: Vec2) -> (r: Vec2)
        requires
            self.wf(),
            in_range(pos@, 2 * MAX_POS as int),
        ensures
            r@ == center_to_corner_model(pos@, self@.radius),
    {
        pos.sub(Vec2::new(self.radius, self.radius))
    }

    /// Converts a window top-left corner to the center position.
    pub fn corner_to_center(&self, pos: Vec2) -> (r: Vec2)
        requires
            self.wf(),
            in_range(pos@, 2 * MAX_POS as int),
        ensures
            r@ == corner_to_center_model(pos@, self@.radius),
    {
        pos.add(Vec2::new(self.radius, self.radius))
    }

    /// One frame of dragging: the state becomes
    /// [`drag_model`]`(old state, diff, dt)`.
    ///
    /// On the first frame of a drag (no anchor yet) the velocity is
    /// left untouched and the anchor is planted at the new position.
    pub fn move_ball(&mut self, diff: Vec2, dt: i64)
        requires
            old(self).wf(),
            in_range(diff@, MAX_POS as int),
            0 <= dt <= MAX_DT,
        ensures
            final(self)@ == drag_model(old(self)@, diff@, dt as int),
            old(self)@.anchor is None ==> final(self)@.vel == old(self)@.vel
                && final(self)@.anchor == Some(final(self)@.pos),
    {
        self.pos = self.pos.add(diff);
        match self.start_drag {
            Some(anchor) => {
                let gap = self.pos.sub(anchor);
                proof {
                    lemma_fp_mul_bound(gap@.x, CATCH_UP as int, 502_000_000_000_000_000, CATCH_UP as int);
                    lemma_fp_mul_bound(gap@.y, CATCH_UP as int, 502_000_000_000_000_000, CATCH_UP as int);
                }
                let lagged = gap.scale(CATCH_UP);
                proof {
                    lemma_fp_mul_bound(lagged@.x, dt as int, 496_980_000_000_000_000, MAX_DT as int);
                    lemma_fp_mul_bound(lagged@.y, dt as int, 496_980_000_000_000_000, MAX_DT as int);
                }
                let catch = lagged.scale(dt);
                self.start_drag = Some(anchor.add(catch));
                self.velocity = Vec2::new(gap.x * THROW_GAIN, gap.y * THROW_GAIN);
            },
            None => {
                self.start_drag = Some(self.pos);
            },
        }
    }

    /// One frame of free flight: the state becomes
    /// [`tick_model`]`(old state, bounds, dt)`.
    ///
    /// `bounds` is the usable screen extent; the ball's center is kept
    /// within `[radius, bounds - radius]` on both axes, reversing and
    /// damping the velocity on contact.
    pub fn tick(&mut self, bounds: Vec2, dt: i64)
        requires
            old(self).wf(),
            in_range(bounds@, MAX_POS as int),
            0 <= dt <= MAX_DT,
            2 * old(self)@.radius <= bounds@.x,
            2 * old(self)@.radius <= bounds@.y,
        ensures
            final(self)@ == tick_model(old(self)@, bounds@, dt as int),
    {
        self.start_drag = None;

        proof {
            lemma_fp_mul_bound(GRAVITY as int, dt as int, GRAVITY as int, MAX_DT as int);
        }
        let g = fp_mul(GRAVITY, dt);
        self.velocity = Vec2::new(self.velocity.x, self.velocity.y + g);

        let lo_y = self.radius;
        let hi_y = bounds.y - self.radius;
        let new_y = clamp_i64(self.pos.y, lo_y, hi_y);
        if new_y != self.pos.y {
            self.pos = Vec2::new(self.pos.x, new_y);
            proof {
                lemma_fp_mul_bound(self.velocity@.y, -(RESTITUTION as int), 100_007_000_000_000_000, RESTITUTION as int);
            }
            self.velocity = Vec2::new(self.velocity.x, fp_mul(self.velocity.y, -RESTITUTION));
        }

        let lo_x = self.radius;
        let hi_x = bounds.x - self.radius;
        let new_x = clamp_i64(self.pos.x, lo_x, hi_x);
        if new_x != self.pos.x {
            self.pos = Vec2::new(new_x, self.pos.y);
            proof {
                lemma_fp_mul_bound(self.velocity@.x, -(RESTITUTION as int), 100_007_000_000_000_000, RESTITUTION as int);
            }
            self.velocity = Vec2::new(fp_mul(self.velocity.x, -RESTITUTION), self.velocity.y);
        }

        proof {
            lemma_fp_mul_bound(self.velocity@.x, DRAG_COEFF as int, 100_007_000_000_000_000, DRAG_COEFF as int);
            lemma_fp_mul_bound(self.velocity@.y, DRAG_COEFF as int, 100_007_000_000_000_000, DRAG_COEFF as int);
            lemma_fp_mul_bound(fp_mul_spec(self.velocity@.x, DRAG_COEFF as int), dt as int, 5_000_350_000_000_000, MAX_DT as int);
            lemma_fp_mul_bound(fp_mul_spec(self.velocity@.y, DRAG_COEFF as int), dt as int, 5_000_350_000_000_000, MAX_DT as int);
        }
        let dvx = fp_mul(fp_mul(self.velocity.x, DRAG_COEFF), dt);
        let dvy = fp_mul(fp_mul(self.velocity.y, DRAG_COEFF), dt);
        self.velocity = Vec2::new(self.velocity.x - dvx, self.velocity.y - dvy);

        proof {
            lemma_fp_mul_bound(self.velocity@.x, dt as int, 150_010_500_000_000_000, MAX_DT as int);
            lemma_fp_mul_bound(self.velocity@.y, dt as int, 150_010_500_000_000_000, MAX_DT as int);
        }
        let mx = fp_mul(self.velocity.x, dt);
        let my = fp_mul(self.velocity.y, dt);
        self.pos = Vec2::new(self.pos.x + mx, self.pos.y + my);
    }

    /// Decides the per-frame window move.
    ///
    /// Returns the top-left corner to push when the center moved more
    /// than one pixel since the last push (or was never pushed), and
    /// records the push; otherwise changes nothing and returns `None`.
    pub fn update_window(&mut self) -> (r: Option<Vec2>)
        requires
            old(self).wf(),
        ensures
            final(self).wf(),
            final(self)@.pos == old(self)@.pos,
            final(self)@.vel == old(self)@.vel,
            final(self)@.radius == old(self)@.radius,
            final(self)@.anchor == old(self)@.anchor,
            r is Some <==> should_push(old(self)@.pos, old(self)@.last_push),
            match r {
                Some(c) => c@ == center_to_corner_model(old(self)@.pos, old(self)@.radius)
                    && final(self)@.last_push == Some(old(self)@.pos),
                None => *final(self) == *old(self),
            },
    {
        let push = match self.last_update {
            None => true,
            Some(lp) => {
                let d = self.pos.sub(lp);
                d.len_sq() > PUSH_THRESHOLD_SQ
            },
        };
        if push {
            let corner = self.center_to_corner(self.pos);
            self.last_update = Some(self.pos);
            Some(corner)
        } else {
            None
        }
    }
}

/// The state after `n` frames of free flight at a fixed frame time.
pub open spec fn run_free(b: BallModel, bounds: V2, dt: int, n: nat) -> BallModel
    decreases n,
{
    if n == 0 {
        b
    } else {
        tick_model(run_free(b, bounds, dt, (n - 1) as nat), bounds, dt)
    }
}

/// The ball's center lies inside the screen on both axes, so the next
/// frame clamps nothing.
pub open spec fn no_collision(b: BallModel, bounds: V2) -> bool {
    &&& b.radius <= b.pos.y <= bounds.y - b.radius
    &&& b.radius <= b.pos.x <= bounds.x - b.radius
}

/// Negating one factor negates the fixed-point product.
pub proof fn lemma_fp_mul_neg(a: int, b: int)
    ensures
        fp_mul_spec(-a, b) == -fp_mul_spec(a, b),
{
    assert((-a) * b == -(a * b)) by (nonlinear_arith);
    if a * b == 0 {
        vstd::arithmetic::div_mod::lemma_div_of0(FP as int);
    }
}

/// The drag term taken off a nonnegative velocity in one frame is
/// nonnegative and never exceeds the velocity itself.
pub proof fn lemma_drag_term_bounded(v: int, dt: int)
    requires
        v >= 0,
        0 <= dt <= MAX_DT as int,
    ensures
        0 <= fp_mul_spec(fp_mul_spec(v, DRAG_COEFF as int), dt) <= v,
{
    let d = FP as int;
    assert(0 <= v * (DRAG_COEFF as int));
    lemma_div_pos_is_pos(v * (DRAG_COEFF as int), d);
    let u = (v * (DRAG_COEFF as int)) / d;
    assert(fp_mul_spec(v, DRAG_COEFF as int) == u);
    lemma_fundamental_div_mod(v * (DRAG_COEFF as int), d);
    lemma_mod_division_less_than_divisor(v * (DRAG_COEFF as int), d);
    assert(u * d <= v * (DRAG_COEFF as int));
    assert(u * dt <= u * 10_000_000 && 0 <= u * dt) by (nonlinear_arith)
        requires
            u >= 0,
            0 <= dt <= 10_000_000,
    ;
    assert(u * 10_000_000 <= v * 1_000_000);
    lemma_div_pos_is_pos(u * dt, d);
    lemma_multiply_divide_le(u * dt, d, v);
    assert(fp_mul_spec(u, dt) == (u * dt) / d);
}

/// Linear drag dissipates: one frame of drag decay never grows the
/// magnitude of a velocity component and never flips its sign.
pub proof fn lemma_drag_decay_dissipates(v: int, dt: int)
    requires
        0 <= dt <= MAX_DT as int,
    ensures
        v >= 0 ==> 0 <= drag_decay_model(v, dt) <= v,
        v <= 0 ==> v <= drag_decay_model(v, dt) <= 0,
        abs(drag_decay_model(v, dt)) <= abs(v),
{
    if v >= 0 {
        lemma_drag_term_bounded(v, dt);
    } else {
        lemma_drag_term_bounded(-v, dt);
        lemma_fp_mul_neg(-v, DRAG_COEFF as int);
        lemma_fp_mul_neg(fp_mul_spec(-v, DRAG_COEFF as int), dt);
    }
}

/// Gravity keeps a falling ball falling: one collision-free frame with
/// a downward (or zero) velocity leaves the velocity downward and never
/// moves the center up. The descent is strict whenever the integrated
/// step `vel.y * dt` comes to at least one unit.
pub proof fn lemma_tick_keeps_falling(b: BallModel, bounds: V2, dt: int)
    requires
        0 <= dt <= MAX_DT as int,
        b.vel.y >= 0,
        no_collision(b, bounds),
    ensures
        tick_model(b, bounds, dt).vel.y >= 0,
        tick_model(b, bounds, dt).pos.y >= b.pos.y,
        tick_model(b, bounds, dt).pos.y == b.pos.y + fp_mul_spec(tick_model(b, bounds, dt).vel.y, dt),
{
    let g = fp_mul_spec(GRAVITY as int, dt);
    assert(GRAVITY as int * dt >= 0) by (nonlinear_arith)
        requires
            dt >= 0,
    ;
    lemma_div_pos_is_pos(GRAVITY as int * dt, FP as int);
    let v1y = b.vel.y + g;
    lemma_drag_term_bounded(v1y, dt);
    let v2y = drag_decay_model(v1y, dt);
    assert(v2y * dt >= 0) by (nonlinear_arith)
        requires
            v2y >= 0,
            dt >= 0,
    ;
    lemma_div_pos_is_pos(v2y * dt, FP as int);
}

/// Gravity accumulates over free flight: starting with a downward (or
/// zero) velocity, while no frame collides, the center's downward
/// coordinate is monotone over the frames and the velocity stays
/// downward.
pub proof fn lemma_free_fall_monotone(b: BallModel, bounds: V2, dt: int, n: nat)
    requires
        0 <= dt <= MAX_DT as int,
        b.vel.y >= 0,
        forall|i: nat| i < n ==> no_collision(#[trigger] run_free(b, bounds, dt, i), bounds),
    ensures
        run_free(b, bounds, dt, n).vel.y >= 0,
        forall|i: nat|
            i < n ==> (#[trigger] run_free(b, bounds, dt, i)).pos.y <= run_free(
                b,
                bounds,
                dt,
                (i + 1) as nat,
            ).pos.y,
    decreases n,
{
    if n > 0 {
        let m = (n - 1) as nat;
        lemma_free_fall_monotone(b, bounds, dt, m);
        lemma_tick_keeps_falling(run_free(b, bounds, dt, m), bounds, dt);
    }
}

/// Drag dissipates energy over free flight: on the axis gravity leaves
/// alone, while no frame collides, the magnitude of the velocity is
/// non-increasing over the frames, each frame taking off exactly the
/// drag term.
pub proof fn lemma_free_flight_drag_dissipates(b: BallModel, bounds: V2, dt: int, n: nat)
    requires
        0 <= dt <= MAX_DT as int,
        forall|i: nat| i < n ==> no_collision(#[trigger] run_free(b, bounds, dt, i), bounds),
    ensures
        forall|i: nat|
            i < n ==> abs(run_free(b, bounds, dt, (i + 1) as nat).vel.x) <= abs(
                (#[trigger] run_free(b, bounds, dt, i)).vel.x,
            ),
        forall|i: nat|
            i < n ==> run_free(b, bounds, dt, (i + 1) as nat).vel.x == drag_decay_model(
                (#[trigger] run_free(b, bounds, dt, i)).vel.x,
                dt,
            ),
    decreases n,
{
    if n > 0 {
        let m = (n - 1) as nat;
        lemma_free_flight_drag_dissipates(b, bounds, dt, m);
        lemma_drag_decay_dissipates(run_free(b, bounds, dt, m).vel.x, dt);
    }
}

/// Floor collision: a center below the floor is put exactly on the
/// floor, and a downward velocity reflects to `RESTITUTION` of itself,
/// upward: five times the reflected velocity lies within one truncation
/// step of minus three times the incoming one, and where the incoming
/// velocity divides evenly by five the reflection is exactly minus six
/// tenths.
pub proof fn lemma_floor_collision(p: int, v: int, lo: int, hi: int)
    requires
        p > hi,
        lo <= hi,
        v > 0,
    ensures
        collide_axis_model(p, v, lo, hi).0 == hi,
        collide_axis_model(p, v, lo, hi).1 == fp_mul_spec(v, -(RESTITUTION as int)),
        collide_axis_model(p, v, lo, hi).1 <= 0,
        -(3 * v) <= 5 * collide_axis_model(p, v, lo, hi).1 < -(3 * v) + 5,
        v % 5 == 0 ==> collide_axis_model(p, v, lo, hi).1 == -3 * (v / 5),
{
    lemma_fp_mul_neg(RESTITUTION as int, v);
    assert((RESTITUTION as int) * v == v * (RESTITUTION as int)) by (nonlinear_arith);
    assert(v * (RESTITUTION as int) >= 0) by (nonlinear_arith)
        requires
            v > 0,
    ;
    lemma_div_pos_is_pos(v * (RESTITUTION as int), FP as int);
    lemma_fundamental_div_mod(v * (RESTITUTION as int), FP as int);
    lemma_mod_division_less_than_divisor(v * (RESTITUTION as int), FP as int);
    if v % 5 == 0 {
        let k = v / 5;
        lemma_fundamental_div_mod(v, 5);
        assert(v == 5 * k);
        assert(v * (RESTITUTION as int) == (FP as int) * (3 * k)) by (nonlinear_arith)
            requires
                v == 5 * k,
        ;
        lemma_div_multiples_vanish(3 * k, FP as int);
    }
}

/// The first frame of a drag only moves the ball and plants the anchor:
/// the velocity is untouched and the anchor lands on the new position.
pub proof fn lemma_drag_first_frame(b: BallModel, diff: V2, dt: int)
    requires
        b.anchor is None,
    ensures
        drag_model(b, diff, dt).vel == b.vel,
        drag_model(b, diff, dt).pos == v2_add(b.pos, diff),
        drag_model(b, diff, dt).anchor == Some(v2_add(b.pos, diff)),
{
}

/// The center-to-corner conversion and its inverse cancel exactly, in
/// both orders.
pub proof fn lemma_corner_center_inverse(p: V2, radius: int)
    ensures
        corner_to_center_model(center_to_corner_model(p, radius), radius) == p,
        center_to_corner_model(corner_to_center_model(p, radius), radius) == p,
{
}

} // verus!

