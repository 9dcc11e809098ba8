use vstd::prelude::*;
use crate::gravity::{GravityHandler, GRAVITY, JUMP_SPEED, lemma_fall_moves_down};

verus! {

/// Fixed-point scale of a unit direction component, and microradians per
/// radian.
pub const SCALE: i64 = 1_000_000;

/// Femtometres in one metre, the unit of every position.
pub const METRE: i128 = 1_000_000_000_000_000;

/// Horizontal travel per microsecond, in femtometres per millionth of a unit
/// direction: 2 m/s along a unit direction.
pub const SPEED: i128 = 2000;

/// Largest travel along one direction in one step: `SCALE * SPEED` times
/// the largest elapsed time, `2^32` microseconds.
pub const TRAVEL_BOUND: i128 = 8_589_934_592_000_000_000;

/// How much farther than the true step the collision probe looks.
pub const LOOK_AHEAD: i128 = 10;

/// Largest distance from the origin along each axis, in femtometres.
pub const POS_LIMIT: i128 = 1_000_000_000_000_000_000_000_000_000_000;

/// A quarter turn in microradians; the pitch stays strictly inside it.
pub const HALF_PI: i64 = 1_570_796;

/// A half turn in microradians.
pub const PI: i64 = 3_141_593;

/// Height of the ground level of a chunk, in metres.
pub const CHUNK_FLOOR: i64 = 8;

/// Height of the player's eyes above the ground, in metres.
pub const PLAYER_HEIGHT: i64 = 2;

/// A point of the world, each coordinate in femtometres.
#[derive(Clone, Copy, Debug, PartialEq, Eq, Structural)]
pub struct Vec3 {
    pub x: i128,
    pub y: i128,
    pub z: i128,
}

impl View for Vec3 {
    type V = (int, int, int);

    open spec fn view(&self) -> (int, int, int) {
        (self.x as int, self.y as int, self.z as int)
    }
}

/// Whether each coordinate of a point lies within `POS_LIMIT` of the origin.
pub open spec fn in_bounds(p: (int, int, int)) -> bool {
    -POS_LIMIT <= p.0 <= POS_LIMIT && -POS_LIMIT <= p.1 <= POS_LIMIT && -POS_LIMIT <= p.2
        <= POS_LIMIT
}

/// The cosine and sine of the yaw, each scaled by `SCALE`. Walking forward
/// goes along `(cos, 0, sin)` and walking right along `(sin, 0, -cos)`.
#[derive(Clone, Copy, Debug, PartialEq, Eq, Structural)]
pub struct Heading {
    pub cos: i64,
    pub sin: i64,
}

impl Heading {
    /// Each component within `SCALE`, and the length within one unit of
    /// `SCALE`: a unit direction up to rounding.
    pub open spec fn wf(&self) -> bool {
        &&& -SCALE <= self.cos <= SCALE
        &&& -SCALE <= self.sin <= SCALE
        &&& (SCALE - 1) * (SCALE - 1) <= self.cos * self.cos + self.sin * self.sin
        &&& self.cos * self.cos + self.sin * self.sin <= (SCALE + 1) * (SCALE + 1)
    }
}

/// A toggle event of one of the four walking directions.
#[derive(Clone, Copy, Debug, PartialEq, Eq, Structural)]
pub enum MotionState {
    W,
    S,
    A,
    D,
    Idle,
}

/// The walking flags after one toggle event.
pub open spec fn toggled(f: (bool, bool, bool, bool), state: MotionState) -> (bool, bool, bool, bool) {
    let (w, s, a, d) = f;
    match state {
        MotionState::W => (!w, s, a, d),
        MotionState::S => (w, !s, a, d),
        MotionState::A => (w, s, !a, d),
        MotionState::D => (w, s, a, !d),
        MotionState::Idle => (w, s, a, d),
    }
}

/// `x` where the flag is on, else nothing.
pub open spec fn gate(on: bool, x: int) -> int {
    if on {
        x
    } else {
        0
    }
}

/// The pitch after tilting by `v` microradians: the whole tilt where it keeps
/// the pitch strictly inside a quarter turn, none otherwise.
pub open spec fn tilted(pitch: int, v: int) -> int {
    if -HALF_PI < pitch + v < HALF_PI {
        pitch + v
    } else {
        pitch
    }
}

/// First-person camera: a position, a yaw and a pitch, four walking flags
/// that each event toggles, and the vertical kinematics.
pub struct Camera {
    position: Vec3,
    yaw: i64,
    pitch: i64,
    w_pressed: bool,
    s_pressed: bool,
    a_pressed: bool,
    d_pressed: bool,
    gravity_handler: GravityHandler,
}

impl Camera {
    pub closed spec fn pos(&self) -> (int, int, int) {
        self.position@
    }

    pub closed spec fn yaw_angle(&self) -> int {
        self.yaw as int
    }

    pub closed spec fn pitch_angle(&self) -> int {
        self.pitch as int
    }

    /// The flags of walking forward, backward, left and right.
    pub closed spec fn flags(&self) -> (bool, bool, bool, bool) {
        (self.w_pressed, self.s_pressed, self.a_pressed, self.d_pressed)
    }

    pub closed spec fn gravity(&self) -> GravityHandler {
        self.gravity_handler
    }

    pub open spec fn wf(&self) -> bool {
        &&& in_bounds(self.pos())
        &&& -HALF_PI < self.pitch_angle() < HALF_PI
        &&& self.gravity().wf()
    }

    /// Horizontal displacement `(dx, dz)` of a step of `dt` microseconds: each
    /// active flag adds its direction times the travel, so two flags combine
    /// without normalising.
    pub open spec fn walk(&self, dt: int, h: Heading) -> (int, int) {
        let amp = SPEED * dt;
        let (w, s, a, d) = self.flags();
        let fx = h.cos * amp;
        let fz = h.sin * amp;
        let rx = h.sin * amp;
        let rz = -h.cos * amp;
        (
            gate(w, fx) - gate(s, fx) + gate(d, rx) - gate(a, rx),
            gate(w, fz) - gate(s, fz) + gate(d, rz) - gate(a, rz),
        )
    }

    /// The point probed for collision: the horizontal step amplified by
    /// `LOOK_AHEAD`, at the current height.
    pub open spec fn probe(&self, dt: int, h: Heading) -> (int, int, int) {
        let (dx, dz) = self.walk(dt, h);
        (self.pos().0 + LOOK_AHEAD * dx, self.pos().1, self.pos().2 + LOOK_AHEAD * dz)
    }

    /// Where a step would take the camera: the horizontal step, and down by
    /// the gravity handler's displacement.
    pub open spec fn candidate(&self, dt: int, h: Heading, is_falling: bool) -> (int, int, int) {
        let (dx, dz) = self.walk(dt, h);
        (
            self.pos().0 + dx,
            self.pos().1 - self.gravity().drop_of(is_falling, dt),
            self.pos().2 + dz,
        )
    }

    /// Whether a step commits its candidate: the probe was free and the
    /// candidate lies within the world's limits.
    pub open spec fn commits(&self, dt: int, h: Heading, is_free: bool, is_falling: bool) -> bool {
        is_free && in_bounds(self.candidate(dt, h, is_falling))
    }

    /// At the spawn point `(4, CHUNK_FLOOR + PLAYER_HEIGHT, 3)` metres,
    /// looking along the negative x axis, level, standing still.
    pub fn new() -> (r: Camera)
        ensures
            r.wf(),
            r.pos() == (4 * METRE, (CHUNK_FLOOR + PLAYER_HEIGHT) * METRE, 3 * METRE),
            r.yaw_angle() == PI,
            r.pitch_angle() == 0,
            r.flags() == (false, false, false, false),
            r.gravity().speed() == 0,
            r.gravity().on_ground(),
            r.gravity().air_jump(),
    {
        Camera {
            position: Vec3 {
                x: 4 * METRE,
                y: (CHUNK_FLOOR as i128 + PLAYER_HEIGHT as i128) * METRE,
                z: 3 * METRE,
            },
            yaw: PI,
            pitch: 0,
            w_pressed: false,
            s_pressed: false,
            a_pressed: false,
            d_pressed: false,
            gravity_handler: GravityHandler::new(),
        }
    }
    /// Horizontal displacement of a step of `elapsed` microseconds.
    fn displacement(&self, elapsed: u32, heading: Heading) -> (r: (i128, i128))
        requires
            heading.wf(),
        ensures
            (r.0 as int, r.1 as int) == self.walk(elapsed as int, heading),
            -4 * TRAVEL_BOUND <= r.0 <= 4 * TRAVEL_BOUND,
            -4 * TRAVEL_BOUND <= r.1 <= 4 * TRAVEL_BOUND,
    {
        let amp: i128 = SPEED * elapsed as i128;
        let c: i128 = heading.cos as i128;
        let sn: i128 = heading.sin as i128;
        proof {
            assert(-TRAVEL_BOUND <= c * amp <= TRAVEL_BOUND) by (nonlinear_arith)
                requires
                    -SCALE <= c <= SCALE,
                    0 <= amp <= SPEED * 0x1_0000_0000,
            ;
            assert(-TRAVEL_BOUND <= sn * amp <= TRAVEL_BOUND) by (nonlinear_arith)
                requires
                    -SCALE <= sn <= SCALE,
                    0 <= amp <= SPEED * 0x1_0000_0000,
            ;
            assert(-c * amp == -(c * amp)) by (nonlinear_arith);
        }
        let fx: i128 = c * amp;
        let fz: i128 = sn * amp;
        let rx: i128 = sn * amp;
        let rz: i128 = -(c * amp);
        let mut dx: i128 = 0;
        let mut dz: i128 = 0;
        if self.w_pressed {
            dx = dx + fx;
            dz = dz + fz;
        }
        if self.s_pressed {
            dx = dx - fx;
            dz = dz - fz;
        }
        if self.d_pressed {
            dx = dx + rx;
            dz = dz + rz;
        }
        if self.a_pressed {
            dx = dx - rx;
            dz = dz - rz;
        }
        (dx, dz)
    }

    /// The point to probe for collision before a step of `elapsed`
    /// microseconds along `heading`.
    pub fn look_ahead(&self, elapsed: u32, heading: Heading) -> (r: Vec3)
        requires
            self.wf(),
            heading.wf(),
        ensures
            r@ == self.probe(elapsed as int, heading),
    {
        let (dx, dz) = self.displacement(elapsed, heading);
        Vec3 {
            x: self.position.x + LOOK_AHEAD * dx,
            y: self.position.y,
            z: self.position.z + LOOK_AHEAD * dz,
        }
    }

    /// Advances the camera by `elapsed` microseconds along `heading`, given
    /// the world's answers at the probe point: whether it is free of solid
    /// cubes and whether it is in free fall. The gravity handler always
    /// advances; the candidate, horizontal and vertical move together, is
    /// committed only where the probe was free and it stays within the world's
    /// limits, else the camera keeps its position for this step.
    pub fn step(&mut self, elapsed: u32, heading: Heading, is_free: bool, is_falling: bool)
        requires
            old(self).wf(),
            heading.wf(),
        ensures
            final(self).wf(),
            final(self).pos() == if old(self).commits(elapsed as int, heading, is_free, is_falling) {
                old(self).candidate(elapsed as int, heading, is_falling)
            } else {
                old(self).pos()
            },
            final(self).gravity().speed() == old(self).gravity().next_speed(
                is_falling,
                elapsed as int,
            ),
            final(self).gravity().on_ground() == !is_falling,
            final(self).gravity().air_jump() == old(self).gravity().air_jump(),
            final(self).yaw_angle() == old(self).yaw_angle(),
            final(self).pitch_angle() == old(self).pitch_angle(),
            final(self).flags() == old(self).flags(),
    {
        let (dx, dz) = self.displacement(elapsed, heading);
        let drop = self.gravity_handler.step(is_falling, elapsed);
        let next = Vec3 {
            x: self.position.x + dx,
            y: self.position.y - drop,
            z: self.position.z + dz,
        };
        if is_free && in_bounds_exec(&next) {
            self.position = next;
        }
    }

    /// Toggles the flag of one walking direction; `Idle` changes nothing.
    pub fn toggle_state(&mut self, state: MotionState)
        requires
            old(self).wf(),
        ensures
            final(self).wf(),
            final(self).flags() == toggled(old(self).flags(), state),
            final(self).pos() == old(self).pos(),
            final(self).yaw_angle() == old(self).yaw_angle(),
            final(self).pitch_angle() == old(self).pitch_angle(),
            final(self).gravity() == old(self).gravity(),
    {
        match state {
            MotionState::W => self.w_pressed = !self.w_pressed,
            MotionState::S => self.s_pressed = !self.s_pressed,
            MotionState::A => self.a_pressed = !self.a_pressed,
            MotionState::D => self.d_pressed = !self.d_pressed,
            MotionState::Idle => {},
        }
    }

    /// Gives the upward jump speed where the gravity handler allows a jump:
    /// on the ground, or anywhere while air jumps are allowed.
    pub fn jump(&mut self)
        requires
            old(self).wf(),
        ensures
            final(self).wf(),
            final(self).gravity().speed() == if old(self).gravity().may_jump() {
                -JUMP_SPEED as int
            } else {
                old(self).gravity().speed()
            },
            final(self).gravity().on_ground() == old(self).gravity().on_ground(),
            final(self).gravity().air_jump() == old(self).gravity().air_jump(),
            final(self).pos() == old(self).pos(),
            final(self).yaw_angle() == old(self).yaw_angle(),
            final(self).pitch_angle() == old(self).pitch_angle(),
            final(self).flags() == old(self).flags(),
    {
        self.gravity_handler.jump();
    }

    /// Moves one metre up, where that stays within the world's limits.
    pub fn up(&mut self)
        requires
            old(self).wf(),
        ensures
            final(self).wf(),
            final(self).pos() == if old(self).pos().1 + METRE <= POS_LIMIT {
                (old(self).pos().0, old(self).pos().1 + METRE, old(self).pos().2)
            } else {
                old(self).pos()
            },
            final(self).yaw_angle() == old(self).yaw_angle(),
            final(self).pitch_angle() == old(self).pitch_angle(),
            final(self).flags() == old(self).flags(),
            final(self).gravity() == old(self).gravity(),
    {
        if self.position.y <= POS_LIMIT - METRE {
            self.position.y = self.position.y + METRE;
        }
    }

    /// Moves one metre down, where that stays within the world's limits.
    pub fn down(&mut self)
        requires
            old(self).wf(),
        ensures
            final(self).wf(),
            final(self).pos() == if old(self).pos().1 - METRE >= -POS_LIMIT {
                (old(self).pos().0, old(self).pos().1 - METRE, old(self).pos().2)
            } else {
                old(self).pos()
            },
            final(self).yaw_angle() == old(self).yaw_angle(),
            final(self).pitch_angle() == old(self).pitch_angle(),
            final(self).flags() == old(self).flags(),
            final(self).gravity() == old(self).gravity(),
    {
        if self.position.y >= METRE - POS_LIMIT {
            self.position.y = self.position.y - METRE;
        }
    }

    /// Turns by `horizontal` and tilts by `vertical` microradians, both
    /// already scaled by the mouse sensitivity. The yaw decreases by
    /// `horizontal` and is not bounded: the trigonometry of the heading makes
    /// it periodic. The pitch takes the whole tilt only where the result stays
    /// strictly inside a quarter turn.
    pub fn mousemove(&mut self, horizontal: i64, vertical: i64)
        requires
            old(self).wf(),
            i64::MIN <= old(self).yaw_angle() - horizontal <= i64::MAX,
        ensures
            final(self).wf(),
            -HALF_PI < final(self).pitch_angle() < HALF_PI,
            final(self).yaw_angle() == old(self).yaw_angle() - horizontal,
            final(self).pitch_angle() == tilted(old(self).pitch_angle(), vertical as int),
            final(self).pos() == old(self).pos(),
            final(self).flags() == old(self).flags(),
            final(self).gravity() == old(self).gravity(),
    {
        self.yaw = self.yaw - horizontal;
        let tilt: i128 = self.pitch as i128 + vertical as i128;
        if -(HALF_PI as i128) < tilt && tilt < HALF_PI as i128 {
            self.pitch = tilt as i64;
        }
    }

    /// Allows or forbids jumping without support underneath.
    pub fn set_air_jump(&mut self, allow: bool)
        requires
            old(self).wf(),
        ensures
            final(self).wf(),
            final(self).gravity().air_jump() == allow,
            final(self).gravity().speed() == old(self).gravity().speed(),
            final(self).gravity().on_ground() == old(self).gravity().on_ground(),
            final(self).pos() == old(self).pos(),
            final(self).yaw_angle() == old(self).yaw_angle(),
            final(self).pitch_angle() == old(self).pitch_angle(),
            final(self).flags() == old(self).flags(),
    {
        self.gravity_handler.set_air_jump(allow);
    }

    pub fn position(&self) -> (r: Vec3)
        ensures
            r@ == self.pos(),
    {
        self.position
    }

    /// Yaw in microradians.
    pub fn yaw(&self) -> (r: i64)
        ensures
            r == self.yaw_angle(),
    {
        self.yaw
    }

    /// Pitch in microradians, strictly inside a quarter turn.
    pub fn pitch(&self) -> (r: i64)
        ensures
            r == self.pitch_angle(),
    {
        self.pitch
    }

    /// The flags of walking forward, backward, left and right.
    pub fn motion_flags(&self) -> (r: (bool, bool, bool, bool))
        ensures
            r == self.flags(),
    {
        (self.w_pressed, self.s_pressed, self.a_pressed, self.d_pressed)
    }

    /// Vertical speed in nanometres per second, positive downwards.
    pub fn vertical_speed(&self) -> (r: i64)
        ensures
            r == self.gravity().speed(),
    {
        self.gravity_handler.velocity()
    }
}

fn in_bounds_exec(p: &Vec3) -> (r: bool)
    ensures
        r == in_bounds(p@),
{
    -POS_LIMIT <= p.x && p.x <= POS_LIMIT && -POS_LIMIT <= p.y && p.y <= POS_LIMIT && -POS_LIMIT
        <= p.z && p.z <= POS_LIMIT
}

/// The position that a step leaves, as `Camera::step` states it.
pub open spec fn stepped_position(c: Camera, dt: int, h: Heading, is_free: bool, is_falling: bool) -> (
    int,
    int,
    int,
) {
    if c.commits(dt, h, is_free, is_falling) {
        c.candidate(dt, h, is_falling)
    } else {
        c.pos()
    }
}

/// Standing still in free fall with a free path, a step of positive length
/// lowers the camera strictly and keeps x and z, unless it is rising from a
/// jump or would leave the world's limits.
pub proof fn lemma_standing_fall_lowers(c: Camera, dt: int, h: Heading)
    requires
        c.wf(),
        h.wf(),
        c.flags() == (false, false, false, false),
        c.gravity().speed() >= 0,
        dt > 0,
        in_bounds(c.candidate(dt, h, true)),
    ensures
        stepped_position(c, dt, h, true, true).1 < c.pos().1,
        stepped_position(c, dt, h, true, true).0 == c.pos().0,
        stepped_position(c, dt, h, true, true).2 == c.pos().2,
{
    lemma_fall_moves_down(c.gravity(), dt);
}

/// Right after a jump, standing still in free fall with a free path, a step
/// shorter than the time gravity takes to cancel the jump raises the camera
/// and keeps x and z, unless it would leave the world's limits.
pub proof fn lemma_jump_step_rises(c: Camera, dt: int, h: Heading)
    requires
        c.wf(),
        h.wf(),
        c.flags() == (false, false, false, false),
        c.gravity().speed() == -JUMP_SPEED,
        dt > 0,
        GRAVITY * dt < JUMP_SPEED,
        in_bounds(c.candidate(dt, h, true)),
    ensures
        stepped_position(c, dt, h, true, true).1 > c.pos().1,
        stepped_position(c, dt, h, true, true).0 == c.pos().0,
        stepped_position(c, dt, h, true, true).2 == c.pos().2,
{
    let v = c.gravity().next_speed(true, dt);
    assert(v < 0);
    assert(v * dt < 0) by (nonlinear_arith)
        requires
            v < 0,
            dt > 0,
    ;
}

/// Where the world reports support, a step leaves the height unchanged,
/// whatever the flags, the heading and the collision answer.
pub proof fn lemma_supported_keeps_height(
    c: Camera,
    dt: int,
    h: Heading,
    is_free: bool,
)
    requires
        c.wf(),
    ensures
        stepped_position(c, dt, h, is_free, false).1 == c.pos().1,
{
}

/// Toggling the same direction twice gives back the flags it started from.
pub proof fn lemma_toggle_twice(f: (bool, bool, bool, bool), state: MotionState)
    ensures
        toggled(toggled(f, state), state) == f,
{
}

} // verus!
