use vstd::prelude::*;

verus! {

/// Gravitational acceleration, in nanometres per second gained per
/// microsecond of fall (9.81 m/s²).
pub const GRAVITY: i64 = 9810;

/// Upward speed given by a jump, in nanometres per second (5 m/s).
pub const JUMP_SPEED: i64 = 5_000_000_000;

/// Largest downward speed, in nanometres per second (50 m/s).
pub const TERMINAL_SPEED: i64 = 50_000_000_000;

/// Vertical speed after falling for `dt` microseconds from speed `v`.
pub open spec fn fallen_speed(v: int, dt: int) -> int {
    if v + GRAVITY * dt > TERMINAL_SPEED {
        TERMINAL_SPEED as int
    } else {
        v + GRAVITY * dt
    }
}

/// Vertical kinematics of the player: a signed vertical speed, positive
/// downwards, in nanometres per second; whether the last step found support;
/// and whether a jump is allowed without it.
pub struct GravityHandler {
    velocity: i64,
    grounded: bool,
    allow_air_jump: bool,
}

impl GravityHandler {
    pub closed spec fn speed(&self) -> int {
        self.velocity as int
    }

    /// Whether the last step found support underneath.
    pub closed spec fn on_ground(&self) -> bool {
        self.grounded
    }

    /// Whether a jump is given also without support.
    pub closed spec fn air_jump(&self) -> bool {
        self.allow_air_jump
    }

    /// Whether a jump now gives the upward speed.
    pub open spec fn may_jump(&self) -> bool {
        self.air_jump() || self.on_ground()
    }

    /// The speed lies between a jump's upward speed and the terminal speed.
    pub open spec fn wf(&self) -> bool {
        -JUMP_SPEED <= self.speed() <= TERMINAL_SPEED
    }

    /// Speed after one step of `dt` microseconds.
    pub open spec fn next_speed(&self, is_falling: bool, dt: int) -> int {
        if is_falling {
            fallen_speed(self.speed(), dt)
        } else {
            0
        }
    }

    /// Downward displacement of one step of `dt` microseconds, in
    /// femtometres: the new speed held over the whole step.
    pub open spec fn drop_of(&self, is_falling: bool, dt: int) -> int {
        self.next_speed(is_falling, dt) * dt
    }

    /// At rest on the ground; jumps are allowed also in mid-air.
    pub fn new() -> (r: GravityHandler)
        ensures
            r.wf(),
            r.speed() == 0,
            r.on_ground(),
            r.air_jump(),
    {
        GravityHandler { velocity: 0, grounded: true, allow_air_jump: true }
    }

    /// Allows or forbids jumping without support.
    pub fn set_air_jump(&mut self, allow: bool)
        ensures
            final(self).air_jump() == allow,
            final(self).speed() == old(self).speed(),
            final(self).on_ground() == old(self).on_ground(),
    {
        self.allow_air_jump = allow;
    }

    pub fn velocity(&self) -> (r: i64)
        ensures
            r == self.speed(),
    {
        self.velocity
    }

    /// Advances the speed by `elapsed` microseconds and returns the downward
    /// displacement in femtometres. While falling the speed grows by
    /// `GRAVITY` per microsecond up to `TERMINAL_SPEED`; when supported it is
    /// reset to zero and nothing moves.
    pub fn step(&mut self, is_falling: bool, elapsed: u32) -> (r: i128)
        requires
            old(self).wf(),
        ensures
            final(self).wf(),
            final(self).speed() == old(self).next_speed(is_falling, elapsed as int),
            final(self).on_ground() == !is_falling,
            final(self).air_jump() == old(self).air_jump(),
            r == old(self).drop_of(is_falling, elapsed as int),
            -JUMP_SPEED * 0x1_0000_0000 <= r <= TERMINAL_SPEED * 0x1_0000_0000,
    {
        if is_falling {
            let gained: i64 = GRAVITY * (elapsed as i64);
            let v: i64 = if self.velocity + gained > TERMINAL_SPEED {
                TERMINAL_SPEED
            } else {
                self.velocity + gained
            };
            self.velocity = v;
            self.grounded = false;
            proof {
                assert(-JUMP_SPEED <= v <= TERMINAL_SPEED);
                assert(v * elapsed <= TERMINAL_SPEED * 0x1_0000_0000) by (nonlinear_arith)
                    requires
                        v <= TERMINAL_SPEED,
                        0 <= elapsed < 0x1_0000_0000,
                ;
                assert(v * elapsed >= -JUMP_SPEED * 0x1_0000_0000) by (nonlinear_arith)
                    requires
                        v >= -JUMP_SPEED,
                        0 <= elapsed < 0x1_0000_0000,
                ;
            }
            (v as i128) * (elapsed as i128)
        } else {
            self.velocity = 0;
            self.grounded = true;
            0
        }
    }

    /// Gives the upward jump speed, whatever the current speed, where a jump
    /// is allowed; else changes nothing.
    pub fn jump(&mut self)
        requires
            old(self).wf(),
        ensures
            final(self).wf(),
            final(self).speed() == if old(self).may_jump() {
                -JUMP_SPEED as int
            } else {
                old(self).speed()
            },
            final(self).on_ground() == old(self).on_ground(),
            final(self).air_jump() == old(self).air_jump(),
    {
        if self.allow_air_jump || self.grounded {
            self.velocity = -JUMP_SPEED;
        }
    }
}

/// While falling from rest or downward motion, a step of positive length
/// moves strictly downwards.
pub proof fn lemma_fall_moves_down(g: GravityHandler, dt: int)
    requires
        g.wf(),
        g.speed() >= 0,
        dt > 0,
    ensures
        g.drop_of(true, dt) > 0,
{
    assert(GRAVITY * dt > 0) by (nonlinear_arith)
        requires
            dt > 0,
    ;
    let v = g.next_speed(true, dt);
    assert(v > 0);
    assert(v * dt > 0) by (nonlinear_arith)
        requires
            v > 0,
            dt > 0,
    ;
}

} // verus!
