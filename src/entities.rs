use vstd::prelude::*;
use crate::config::{
    BIRD_SIZE, COORD_LIMIT, FIELD_BOTTOM, GAP_BOTTOM_ROOM, GAP_MIN_Y, GRAVITY, HITBOX_MARGIN,
    JUMP_VELOCITY, PIPE_WIDTH,
};
use crate::random::random_in;

verus! {

pub open spec fn abs_le(v: int, bound: int) -> bool {
    -bound <= v <= bound
}

pub open spec fn clamp(v: int, lo: int, hi: int) -> int {
    if v < lo { lo } else if v > hi { hi } else { v }
}

/// An axis-aligned rectangle: top-left corner, width and height.
#[derive(Clone, Copy, Debug, PartialEq, Eq, Structural)]
pub struct Rect {
    pub x: i64,
    pub y: i64,
    pub w: i64,
    pub h: i64,
}

impl Rect {
    /// Both coordinates and both extents are small enough to add without overflow.
    pub open spec fn bounded(&self) -> bool {
        abs_le(self.x as int, 2 * COORD_LIMIT) && abs_le(self.y as int, 2 * COORD_LIMIT)
            && abs_le(self.w as int, 2 * COORD_LIMIT) && abs_le(self.h as int, 2 * COORD_LIMIT)
    }

    /// Closed rectangles overlap: edges that touch count as overlapping.
    pub open spec fn spec_overlaps(&self, o: &Rect) -> bool {
        &&& self.x <= o.x + o.w
        &&& self.x + self.w >= o.x
        &&& self.y <= o.y + o.h
        &&& self.y + self.h >= o.y
    }

    pub fn overlaps(&self, o: &Rect) -> (r: bool)
        requires
            self.bounded(),
            o.bounded(),
        ensures
            r == self.spec_overlaps(o),
    {
        self.x <= o.x + o.w && self.x + self.w >= o.x && self.y <= o.y + o.h && self.y + self.h
            >= o.y
    }
}

/// The player's bird. `velocity` is in milli-pixels per half-tick and `rotation`
/// (visual only) in millidegrees.
#[derive(Clone, Copy, Debug, PartialEq, Eq, Structural)]
pub struct Bird {
    pub x: i64,
    pub y: i64,
    pub velocity: i64,
    pub rotation: i64,
}

/// The bird after a frame of `h` half-ticks, ignoring the coordinate limit.
pub open spec fn bird_velocity_after(b: Bird, h: int) -> int {
    b.velocity + GRAVITY * h
}

pub open spec fn bird_y_after(b: Bird, h: int) -> int {
    b.y + bird_velocity_after(b, h) * h
}

/// Rotation follows the per-tick velocity, three degrees per pixel per tick,
/// held within [-30, 90] degrees.
pub open spec fn rotation_for(velocity: int) -> int {
    clamp(6 * velocity, -30_000, 90_000)
}

/// Whether a frame of `h` half-ticks keeps the bird within the coordinate limit.
pub open spec fn bird_step_fits(b: Bird, h: int) -> bool {
    abs_le(bird_velocity_after(b, h), COORD_LIMIT as int) && abs_le(
        bird_y_after(b, h),
        COORD_LIMIT as int,
    )
}

pub open spec fn bird_stepped(b: Bird, h: int) -> Bird {
    if bird_step_fits(b, h) {
        Bird {
            x: b.x,
            y: bird_y_after(b, h) as i64,
            velocity: bird_velocity_after(b, h) as i64,
            rotation: rotation_for(bird_velocity_after(b, h)) as i64,
        }
    } else {
        b
    }
}

/// The hitbox: the visual square inset by the margin on every side.
pub open spec fn hitbox(b: Bird) -> Rect {
    Rect {
        x: (b.x - BIRD_SIZE / 2 + HITBOX_MARGIN) as i64,
        y: (b.y - BIRD_SIZE / 2 + HITBOX_MARGIN) as i64,
        w: (BIRD_SIZE - 2 * HITBOX_MARGIN) as i64,
        h: (BIRD_SIZE - 2 * HITBOX_MARGIN) as i64,
    }
}

impl Bird {
    pub open spec fn wf(&self) -> bool {
        abs_le(self.x as int, COORD_LIMIT as int) && abs_le(self.y as int, COORD_LIMIT as int)
            && abs_le(self.velocity as int, COORD_LIMIT as int)
    }

    pub fn new(x: i64, y: i64) -> (r: Bird)
        requires
            abs_le(x as int, COORD_LIMIT as int),
            abs_le(y as int, COORD_LIMIT as int),
        ensures
            r == (Bird { x, y, velocity: 0, rotation: 0 }),
            r.wf(),
    {
        Bird { x, y, velocity: 0, rotation: 0 }
    }

    /// Advances the bird by a frame of `half_ticks`: gravity first, then motion.
    /// A step that would carry it past the coordinate limit leaves it where it is.
    pub fn update(&mut self, half_ticks: i64)
        requires
            old(self).wf(),
            1 <= half_ticks <= 2,
        ensures
            *final(self) == bird_stepped(*old(self), half_ticks as int),
            final(self).wf(),
    {
        let v = self.velocity + GRAVITY * half_ticks;
        if -COORD_LIMIT <= v && v <= COORD_LIMIT {
            let dy = if half_ticks == 1 { v } else { v + v };
            assert(dy == v * half_ticks) by (nonlinear_arith)
                requires half_ticks == 1 || half_ticks == 2, half_ticks == 1 ==> dy == v, half_ticks == 2 ==> dy == v + v;
            let y = self.y + dy;
            if -COORD_LIMIT <= y && y <= COORD_LIMIT {
                let r6 = 6 * v;
                let rot = if r6 < -30_000 {
                    -30_000
                } else if r6 > 90_000 {
                    90_000
                } else {
                    r6
                };
                self.velocity = v;
                self.y = y;
                self.rotation = rot;
            }
        }
    }

    /// An upward impulse that replaces the current velocity.
    pub fn jump(&mut self)
        ensures
            *final(self) == (Bird { velocity: JUMP_VELOCITY, ..*old(self) }),
    {
        self.velocity = JUMP_VELOCITY;
    }

    /// Velocity in milli-pixels per tick.
    pub fn velocity_per_tick(&self) -> (r: i64)
        requires
            self.wf(),
        ensures
            r == 2 * self.velocity,
    {
        2 * self.velocity
    }

    pub fn get_bounds(&self) -> (r: Rect)
        requires
            self.wf(),
        ensures
            r == hitbox(*self),
            r.bounded(),
    {
        Rect {
            x: self.x - BIRD_SIZE / 2 + HITBOX_MARGIN,
            y: self.y - BIRD_SIZE / 2 + HITBOX_MARGIN,
            w: BIRD_SIZE - 2 * HITBOX_MARGIN,
            h: BIRD_SIZE - 2 * HITBOX_MARGIN,
        }
    }
}

/// One pipe: an obstacle column with a passable gap. `gap_y` is the top of the
/// gap and `scored` records that the bird has passed it.
#[derive(Clone, Copy, Debug, PartialEq, Eq, Structural)]
pub struct Pipe {
    pub x: i64,
    pub gap_y: i64,
    pub gap_height: i64,
    pub scored: bool,
}

/// The exclusive upper end of the band in which a gap of this height may start.
pub open spec fn gap_band_end(gap_height: int) -> int {
    FIELD_BOTTOM - gap_height - GAP_BOTTOM_ROOM
}

/// The obstacle above the gap.
pub open spec fn top_rect(p: Pipe) -> Rect {
    Rect { x: p.x, y: 0, w: PIPE_WIDTH, h: p.gap_y }
}

/// The obstacle below the gap, down to the ground line.
pub open spec fn bottom_rect(p: Pipe) -> Rect {
    Rect {
        x: p.x,
        y: (p.gap_y + p.gap_height) as i64,
        w: PIPE_WIDTH,
        h: (FIELD_BOTTOM - (p.gap_y + p.gap_height)) as i64,
    }
}

pub open spec fn pipe_collides(p: Pipe, b: Bird) -> bool {
    hitbox(b).spec_overlaps(&top_rect(p)) || hitbox(b).spec_overlaps(&bottom_rect(p))
}

/// The pipe's right edge has passed the left edge of the field.
pub open spec fn offscreen(p: Pipe) -> bool {
    p.x + PIPE_WIDTH < 0
}

/// The pipe's right edge is left of `bird_x`.
pub open spec fn passed(p: Pipe, bird_x: int) -> bool {
    p.x + PIPE_WIDTH < bird_x
}

impl Pipe {
    pub open spec fn wf(&self) -> bool {
        &&& abs_le(self.x as int, COORD_LIMIT as int)
        &&& 0 <= self.gap_y
        &&& 0 < self.gap_height
        &&& self.gap_y + self.gap_height <= FIELD_BOTTOM
    }

    /// A pipe whose gap starts at `gap_y`.
    pub fn with_gap(x: i64, gap_height: i64, gap_y: i64) -> (r: Pipe)
        ensures
            r == (Pipe { x, gap_y, gap_height, scored: false }),
    {
        Pipe { x, gap_y, gap_height, scored: false }
    }

    /// A pipe whose gap starts at a height drawn uniformly from
    /// `[GAP_MIN_Y, gap_band_end(gap_height))`, which must not be empty.
    pub fn new(x: i64, gap_height: i64) -> (r: Pipe)
        requires
            abs_le(x as int, COORD_LIMIT as int),
            0 < gap_height,
            GAP_MIN_Y < gap_band_end(gap_height as int),
        ensures
            r.x == x,
            r.gap_height == gap_height,
            !r.scored,
            GAP_MIN_Y <= r.gap_y < gap_band_end(gap_height as int),
            r.wf(),
    {
        let gap_y = random_in(GAP_MIN_Y, FIELD_BOTTOM - gap_height - GAP_BOTTOM_ROOM);
        Pipe::with_gap(x, gap_height, gap_y)
    }

    /// Moves the pipe left by `speed`.
    pub fn update(&mut self, speed: i64)
        requires
            old(self).wf(),
            0 <= speed,
            old(self).x - speed >= -COORD_LIMIT,
        ensures
            *final(self) == (Pipe { x: (old(self).x - speed) as i64, ..*old(self) }),
            final(self).wf(),
    {
        self.x = self.x - speed;
    }

    /// Marks the pipe as scored the first time its right edge is left of
    /// `bird_x`; returns whether that happened now.
    pub fn mark_passed(&mut self, bird_x: i64) -> (r: bool)
        requires
            old(self).wf(),
        ensures
            r == (!old(self).scored && passed(*old(self), bird_x as int)),
            *final(self) == (Pipe { scored: old(self).scored || r, ..*old(self) }),
    {
        if !self.scored && self.x + PIPE_WIDTH < bird_x {
            self.scored = true;
            true
        } else {
            false
        }
    }

    pub fn collides_with(&self, bird: &Bird) -> (r: bool)
        requires
            self.wf(),
            bird.wf(),
        ensures
            r == pipe_collides(*self, *bird),
    {
        let b = bird.get_bounds();
        let top = Rect { x: self.x, y: 0, w: PIPE_WIDTH, h: self.gap_y };
        if b.overlaps(&top) {
            return true;
        }
        let bottom_y = self.gap_y + self.gap_height;
        let bottom = Rect { x: self.x, y: bottom_y, w: PIPE_WIDTH, h: FIELD_BOTTOM - bottom_y };
        b.overlaps(&bottom)
    }

    pub fn is_offscreen(&self) -> (r: bool)
        requires
            self.wf(),
        ensures
            r == offscreen(*self),
    {
        self.x + PIPE_WIDTH < 0
    }
}

/// Remaining life of a fresh particle, in thousandths.
pub const LIFE_FULL: i64 = 1_000;
/// Life a particle loses per update.
pub const LIFE_DECAY: i64 = 20;
/// Downward velocity a particle gains per update.
pub const PARTICLE_GRAVITY: i64 = 200;

/// The event that produced a particle; the renderer colours it by this.
#[derive(Clone, Copy, Debug, PartialEq, Eq, Structural)]
pub enum Burst {
    Flap,
    Point,
    Crash,
}

/// A cosmetic particle. Nothing in collision or scoring reads it.
#[derive(Clone, Copy, Debug, PartialEq, Eq, Structural)]
pub struct Particle {
    pub x: i64,
    pub y: i64,
    pub vx: i64,
    pub vy: i64,
    pub life: i64,
    pub size: i64,
    pub kind: Burst,
}

pub open spec fn particle_moves(p: Particle) -> bool {
    abs_le(p.x + p.vx, COORD_LIMIT as int) && abs_le(p.y + p.vy, COORD_LIMIT as int) && abs_le(
        p.vy + PARTICLE_GRAVITY,
        COORD_LIMIT as int,
    )
}

/// One update: motion, then gravity, then ageing. Motion that would carry the
/// particle past the coordinate limit is skipped.
pub open spec fn particle_stepped(p: Particle) -> Particle {
    if particle_moves(p) {
        Particle {
            x: (p.x + p.vx) as i64,
            y: (p.y + p.vy) as i64,
            vy: (p.vy + PARTICLE_GRAVITY) as i64,
            life: (p.life - LIFE_DECAY) as i64,
            ..p
        }
    } else {
        Particle { life: (p.life - LIFE_DECAY) as i64, ..p }
    }
}

impl Particle {
    pub open spec fn wf(&self) -> bool {
        &&& abs_le(self.x as int, COORD_LIMIT as int)
        &&& abs_le(self.y as int, COORD_LIMIT as int)
        &&& abs_le(self.vx as int, COORD_LIMIT as int)
        &&& abs_le(self.vy as int, COORD_LIMIT as int)
        &&& abs_le(self.life as int, LIFE_FULL as int)
    }

    /// A particle at full life.
    pub fn new(x: i64, y: i64, vx: i64, vy: i64, size: i64, kind: Burst) -> (r: Particle)
        ensures
            r == (Particle { x, y, vx, vy, life: LIFE_FULL, size, kind }),
    {
        Particle { x, y, vx, vy, life: LIFE_FULL, size, kind }
    }

    pub fn update(&mut self)
        requires
            old(self).wf(),
            old(self).life > 0,
        ensures
            *final(self) == particle_stepped(*old(self)),
            final(self).wf(),
    {
        let x = self.x + self.vx;
        let y = self.y + self.vy;
        let vy = self.vy + PARTICLE_GRAVITY;
        if -COORD_LIMIT <= x && x <= COORD_LIMIT && -COORD_LIMIT <= y && y <= COORD_LIMIT
            && -COORD_LIMIT <= vy && vy <= COORD_LIMIT {
            self.x = x;
            self.y = y;
            self.vy = vy;
        }
        self.life = self.life - LIFE_DECAY;
    }

    pub fn is_dead(&self) -> (r: bool)
        ensures
            r == (self.life <= 0),
    {
        self.life <= 0
    }
}

} // verus!
