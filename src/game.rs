use vstd::prelude::*;
use crate::config::{
    frame_half_ticks, frame_len, speed_of, gap_of, Difficulty, BIRD_SIZE, BIRD_START_X,
    BIRD_START_Y, COORD_LIMIT, FIELD_BOTTOM, FIELD_HEIGHT, FIELD_WIDTH, GAP_MIN_Y,
    PIPE_WIDTH, SCROLL_PER_HALF_TICK, SCROLL_WRAP, SPAWN_MARGIN, SPAWN_THRESHOLD,
};
use crate::entities::{
    abs_le, bird_stepped, gap_band_end, offscreen, passed, pipe_collides, Bird, Burst, Particle,
    Pipe,
};
use crate::random::random_in;
use crate::scores::HighScores;

verus! {

#[derive(Clone, Copy, Debug, PartialEq, Eq, Structural)]
pub enum GameState {
    Menu,
    Playing,
    Paused,
    GameOver,
}

/// The keys and buttons pressed during this frame (each press is seen once).
#[derive(Clone, Copy, Debug, Default, PartialEq, Eq, Structural)]
pub struct Keys {
    pub space: bool,
    pub enter: bool,
    pub escape: bool,
    pub q: bool,
    pub click: bool,
    pub one: bool,
    pub two: bool,
    pub three: bool,
    pub four: bool,
    pub hitboxes: bool,
    pub invincibility: bool,
    pub slow_motion: bool,
}

/// Flap particles spawned by a jump.
pub const FLAP_PARTICLES: usize = 5;
/// Particles spawned when a pipe is passed.
pub const POINT_PARTICLES: usize = 15;
/// Particles spawned when the run ends.
pub const CRASH_PARTICLES: usize = 30;

/// Where a new pipe appears: right of the field by the spawn margin.
pub open spec fn spawn_x() -> i64 {
    (FIELD_WIDTH + SPAWN_MARGIN) as i64
}

/// A pipe as the generator makes it for difficulty `d`.
pub open spec fn fresh_pipe(p: Pipe, d: Difficulty) -> bool {
    &&& p.x == spawn_x()
    &&& p.gap_height == gap_of(d)
    &&& !p.scored
    &&& GAP_MIN_Y <= p.gap_y < gap_band_end(gap_of(d) as int)
}

/// Pipe motion during one frame.
pub open spec fn frame_speed(d: Difficulty, slow_motion: bool) -> i64 {
    if slow_motion { (speed_of(d) / 2) as i64 } else { speed_of(d) }
}

/// The background offset after one frame of `h` half-ticks.
pub open spec fn scrolled(offset: int, h: int) -> int {
    let o = offset - SCROLL_PER_HALF_TICK * h;
    if o <= SCROLL_WRAP { 0 } else { o }
}

/// A pipe moved left by `speed`.
pub open spec fn moved(p: Pipe, speed: int) -> Pipe {
    Pipe { x: (p.x - speed) as i64, ..p }
}

/// Whether moving a pipe by `speed` makes it count as passed for the first time.
pub open spec fn newly_passed(p: Pipe, speed: int, bird_x: int) -> bool {
    !p.scored && passed(moved(p, speed), bird_x)
}

/// A pipe moved by `speed`, with its scored flag brought up to date.
pub open spec fn advanced(p: Pipe, speed: int, bird_x: int) -> Pipe {
    Pipe { scored: p.scored || newly_passed(p, speed, bird_x), ..moved(p, speed) }
}

pub open spec fn advanced_all(s: Seq<Pipe>, speed: int, bird_x: int) -> Seq<Pipe> {
    s.map_values(|p: Pipe| advanced(p, speed, bird_x))
}

/// How many pipes of `s` are passed for the first time in this frame.
pub open spec fn passes(s: Seq<Pipe>, speed: int, bird_x: int) -> nat
    decreases s.len(),
{
    if s.len() == 0 {
        0
    } else {
        passes(s.drop_last(), speed, bird_x) + if newly_passed(s.last(), speed, bird_x) {
            1nat
        } else {
            0nat
        }
    }
}

/// The pipes of `s` that are still on screen, in order.
pub open spec fn on_screen(s: Seq<Pipe>) -> Seq<Pipe>
    decreases s.len(),
{
    if s.len() == 0 {
        s
    } else if offscreen(s.last()) {
        on_screen(s.drop_last())
    } else {
        on_screen(s.drop_last()).push(s.last())
    }
}

pub open spec fn add_capped(score: int, n: int) -> i32 {
    if score + n > i32::MAX { i32::MAX } else { (score + n) as i32 }
}

/// The bird touches the ceiling or the ground line.
pub open spec fn out_of_field(b: Bird) -> bool {
    b.y - BIRD_SIZE / 2 <= 0 || b.y + BIRD_SIZE / 2 >= FIELD_BOTTOM
}

pub open spec fn hits_any(s: Seq<Pipe>, b: Bird) -> bool {
    exists|i: int| 0 <= i < s.len() && pipe_collides(#[trigger] s[i], b)
}

/// The difficulty after a menu frame: of the selection keys pressed, the
/// hardest wins.
pub open spec fn chosen(k: Keys, d: Difficulty) -> Difficulty {
    if k.four {
        Difficulty::Extreme
    } else if k.three {
        Difficulty::Hard
    } else if k.two {
        Difficulty::Medium
    } else if k.one {
        Difficulty::Easy
    } else {
        d
    }
}

/// The bird as a Playing frame leaves it: the jump impulse, then motion.
pub open spec fn bird_after_frame(b: Bird, k: Keys, slow_motion: bool) -> Bird {
    let b0 = if k.space || k.click { Bird { velocity: crate::config::JUMP_VELOCITY, ..b } } else { b };
    bird_stepped(b0, frame_len(slow_motion) as int)
}

/// A pipe fresh from the generator neither scores, collides nor leaves the
/// field in the frame it appears.
proof fn lemma_spawned_pipe_is_inert(before: Seq<Pipe>, np: Pipe, speed: int, bird: Bird)
    requires
        np.x == spawn_x(),
        !np.scored,
        np.wf(),
        0 <= speed <= 10_000,
        bird.wf(),
        bird.x == BIRD_START_X,
    ensures
        passes(before.push(np), speed, BIRD_START_X as int) == passes(before, speed, BIRD_START_X as int),
        on_screen(advanced_all(before.push(np), speed, BIRD_START_X as int)) == on_screen(
            advanced_all(before, speed, BIRD_START_X as int),
        ).push(moved(np, speed)),
        hits_any(advanced_all(before.push(np), speed, BIRD_START_X as int), bird) == hits_any(
            advanced_all(before, speed, BIRD_START_X as int),
            bird,
        ),
{
    let bx = BIRD_START_X as int;
    let s = before.push(np);
    let a = advanced_all(s, speed, bx);
    let a0 = advanced_all(before, speed, bx);
    assert(s.drop_last() =~= before);
    assert(a.drop_last() =~= a0);
    assert(a.last() == moved(np, speed));
    assert(!pipe_collides(a.last(), bird));
    if hits_any(a, bird) {
        let i = choose|i: int| 0 <= i < a.len() && pipe_collides(#[trigger] a[i], bird);
        assert(a[i] == a0[i]);
    }
    if hits_any(a0, bird) {
        let i = choose|i: int| 0 <= i < a0.len() && pipe_collides(#[trigger] a0[i], bird);
        assert(a[i] == a0[i]);
    }
}

/// Every particle is well formed and alive.
pub open spec fn particles_ok(s: Seq<Particle>) -> bool {
    forall|i: int| 0 <= i < s.len() ==> (#[trigger] s[i]).wf() && s[i].life > 0
}

/// The particles of `s` that are still alive, in order.
pub open spec fn living(s: Seq<Particle>) -> Seq<Particle>
    decreases s.len(),
{
    if s.len() == 0 {
        s
    } else if s.last().life <= 0 {
        living(s.drop_last())
    } else {
        living(s.drop_last()).push(s.last())
    }
}

/// The game: the bird, the pipes and particles, the score, the best scores
/// and the current mode.
pub struct Game {
    pub bird: Bird,
    pub pipes: Vec<Pipe>,
    pub particles: Vec<Particle>,
    pub score: i32,
    pub high_scores: HighScores,
    pub state: GameState,
    pub difficulty: Difficulty,
    /// Half-ticks since the last pipe spawned.
    pub pipe_spawn_timer: i64,
    pub background_offset: i64,
    pub show_hitboxes: bool,
    pub invincible: bool,
    pub slow_motion: bool,
    pub slow_motion_timer: i64,
}

impl Game {
    pub open spec fn wf(&self) -> bool {
        &&& self.bird.wf()
        &&& self.bird.x == BIRD_START_X
        &&& forall|i: int|
            0 <= i < self.pipes@.len() ==> (#[trigger] self.pipes@[i]).wf() && !offscreen(
                self.pipes@[i],
            )
        &&& forall|i: int|
            0 <= i < self.particles@.len() ==> (#[trigger] self.particles@[i]).wf()
                && self.particles@[i].life > 0
        &&& 0 <= self.score
        &&& 0 <= self.pipe_spawn_timer <= SPAWN_THRESHOLD
        &&& SCROLL_WRAP < self.background_offset <= 0
    }

    /// The state that a reset leaves: a new bird, no pipes or particles, no
    /// score, timers and cheats cleared; mode, difficulty, best scores, scroll
    /// and hitbox display kept.
    pub open spec fn is_reset_of(&self, g: Game) -> bool {
        &&& self.run_cleared(g)
        &&& self.state == g.state
        &&& self.difficulty == g.difficulty
    }

    /// A new run: a new bird, no pipes or particles, no score, timers and
    /// cheats cleared; best scores, scroll and hitbox display kept from `g`.
    pub open spec fn run_cleared(&self, g: Game) -> bool {
        &&& self.bird == (Bird { x: BIRD_START_X, y: BIRD_START_Y, velocity: 0, rotation: 0 })
        &&& self.pipes@.len() == 0
        &&& self.particles@.len() == 0
        &&& self.score == 0
        &&& self.pipe_spawn_timer == 0
        &&& !self.invincible
        &&& !self.slow_motion
        &&& self.slow_motion_timer == 0
        &&& self.high_scores == g.high_scores
        &&& self.background_offset == g.background_offset
        &&& self.show_hitboxes == g.show_hitboxes
    }

    /// All fields but the mode and the difficulty are as in `g`.
    pub open spec fn same_run(&self, g: Game) -> bool {
        &&& self.pipes@ == g.pipes@
        &&& self.particles@ == g.particles@
        &&& self.score == g.score
        &&& self.bird == g.bird
        &&& self.high_scores == g.high_scores
        &&& self.pipe_spawn_timer == g.pipe_spawn_timer
        &&& self.background_offset == g.background_offset
        &&& self.show_hitboxes == g.show_hitboxes
        &&& self.invincible == g.invincible
        &&& self.slow_motion == g.slow_motion
        &&& self.slow_motion_timer == g.slow_motion_timer
    }

    /// A Menu frame: start (space or enter) begins a new run; the selection
    /// keys pick the difficulty.
    pub open spec fn menu_step(&self, g: Game, k: Keys) -> bool {
        let start = k.space || k.enter;
        &&& self.state == if start { GameState::Playing } else { GameState::Menu }
        &&& self.difficulty == chosen(k, g.difficulty)
        &&& start ==> self.run_cleared(g)
        &&& !start ==> self.same_run(g)
    }

    /// A Paused frame: quit (q) returns to the menu, escape or space resumes;
    /// nothing else changes.
    pub open spec fn paused_step(&self, g: Game, k: Keys) -> bool {
        &&& self.state == if k.q {
            GameState::Menu
        } else if k.escape || k.space {
            GameState::Playing
        } else {
            GameState::Paused
        }
        &&& self.same_but_state(g)
    }

    /// A GameOver frame: retry (space or enter) begins a new run, escape or q
    /// returns to the menu.
    pub open spec fn game_over_step(&self, g: Game, k: Keys) -> bool {
        let retry = k.space || k.enter;
        &&& self.state == if k.escape || k.q {
            GameState::Menu
        } else if retry {
            GameState::Playing
        } else {
            GameState::GameOver
        }
        &&& self.difficulty == g.difficulty
        &&& retry ==> self.run_cleared(g)
        &&& !retry ==> self.same_run(g)
    }

    /// A game in the menu, at Medium difficulty, with the given best scores.
    pub fn new(high_scores: HighScores) -> (r: Game)
        ensures
            r.wf(),
            r.state == GameState::Menu,
            r.difficulty == Difficulty::Medium,
            r.high_scores == high_scores,
            r.bird == (Bird { x: BIRD_START_X, y: BIRD_START_Y, velocity: 0, rotation: 0 }),
            r.pipes@.len() == 0,
            r.particles@.len() == 0,
            r.score == 0,
            r.pipe_spawn_timer == 0,
            r.background_offset == 0,
            !r.show_hitboxes,
            !r.invincible,
            !r.slow_motion,
    {
        Game {
            bird: Bird::new(BIRD_START_X, BIRD_START_Y),
            pipes: Vec::new(),
            particles: Vec::new(),
            score: 0,
            high_scores,
            state: GameState::Menu,
            difficulty: Difficulty::Medium,
            pipe_spawn_timer: 0,
            background_offset: 0,
            show_hitboxes: false,
            invincible: false,
            slow_motion: false,
            slow_motion_timer: 0,
        }
    }

    pub fn reset(&mut self)
        requires
            old(self).wf(),
        ensures
            final(self).wf(),
            final(self).is_reset_of(*old(self)),
    {
        self.bird = Bird::new(BIRD_START_X, BIRD_START_Y);
        self.pipes.clear();
        self.particles.clear();
        self.score = 0;
        self.pipe_spawn_timer = 0;
        self.invincible = false;
        self.slow_motion = false;
        self.slow_motion_timer = 0;
    }

    /// Appends a pipe made by the generator for the current difficulty.
    pub fn spawn_pipe(&mut self)
        ensures
            final(self).pipes@.len() == old(self).pipes@.len() + 1,
            final(self).pipes@.drop_last() == old(self).pipes@,
            fresh_pipe(final(self).pipes@.last(), old(self).difficulty),
            final(self).pipes@.last().wf(),
            final(self).bird == old(self).bird,
            final(self).particles == old(self).particles,
            final(self).score == old(self).score,
            final(self).high_scores == old(self).high_scores,
            final(self).state == old(self).state,
            final(self).difficulty == old(self).difficulty,
            final(self).pipe_spawn_timer == old(self).pipe_spawn_timer,
            final(self).background_offset == old(self).background_offset,
            final(self).show_hitboxes == old(self).show_hitboxes,
            final(self).invincible == old(self).invincible,
            final(self).slow_motion == old(self).slow_motion,
            final(self).slow_motion_timer == old(self).slow_motion_timer,
    {
        let x = FIELD_WIDTH + SPAWN_MARGIN;
        let p = Pipe::new(x, self.difficulty.pipe_gap());
        self.pipes.push(p);
        proof {
            assert(self.pipes@.drop_last() =~= old(self).pipes@);
        }
    }

    /// Appends `count` particles of kind `kind` at (`x`, `y`), at full life,
    /// with random velocities and sizes.
    pub fn spawn_particles(&mut self, x: i64, y: i64, kind: Burst, count: usize)
        requires
            abs_le(x as int, COORD_LIMIT as int),
            abs_le(y as int, COORD_LIMIT as int),
        ensures
            final(self).particles@.len() == old(self).particles@.len() + count,
            final(self).particles@.take(old(self).particles@.len() as int)
                == old(self).particles@,
            forall|i: int|
                old(self).particles@.len() <= i < final(self).particles@.len() ==> {
                    let p = #[trigger] final(self).particles@[i];
                    &&& p.x == x && p.y == y && p.kind == kind
                    &&& p.life == crate::entities::LIFE_FULL
                    &&& -3_000 <= p.vx < 3_000
                    &&& -5_000 <= p.vy < -1_000
                    &&& 2_000 <= p.size < 6_000
                },
            particles_ok(old(self).particles@) ==> particles_ok(final(self).particles@),
            final(self).bird == old(self).bird,
            final(self).pipes == old(self).pipes,
            final(self).score == old(self).score,
            final(self).high_scores == old(self).high_scores,
            final(self).state == old(self).state,
            final(self).difficulty == old(self).difficulty,
            final(self).pipe_spawn_timer == old(self).pipe_spawn_timer,
            final(self).background_offset == old(self).background_offset,
            final(self).show_hitboxes == old(self).show_hitboxes,
            final(self).invincible == old(self).invincible,
            final(self).slow_motion == old(self).slow_motion,
            final(self).slow_motion_timer == old(self).slow_motion_timer,
    {
        let ghost n0 = old(self).particles@.len();
        let mut k: usize = 0;
        while k < count
            invariant
                k <= count,
                abs_le(x as int, COORD_LIMIT as int),
                abs_le(y as int, COORD_LIMIT as int),
                self.particles@.len() == n0 + k,
                self.particles@.take(n0 as int) == old(self).particles@,
                forall|i: int|
                    n0 <= i < self.particles@.len() ==> {
                        let p = #[trigger] self.particles@[i];
                        &&& p.x == x && p.y == y && p.kind == kind
                        &&& p.life == crate::entities::LIFE_FULL
                        &&& -3_000 <= p.vx < 3_000
                        &&& -5_000 <= p.vy < -1_000
                        &&& 2_000 <= p.size < 6_000
                    },
                particles_ok(old(self).particles@) ==> particles_ok(self.particles@),
                self.bird == old(self).bird,
                self.pipes == old(self).pipes,
                self.score == old(self).score,
                self.high_scores == old(self).high_scores,
                self.state == old(self).state,
                self.difficulty == old(self).difficulty,
                self.pipe_spawn_timer == old(self).pipe_spawn_timer,
                self.background_offset == old(self).background_offset,
                self.show_hitboxes == old(self).show_hitboxes,
                self.invincible == old(self).invincible,
                self.slow_motion == old(self).slow_motion,
                self.slow_motion_timer == old(self).slow_motion_timer,
            decreases count - k,
        {
            let vx = random_in(-3_000, 3_000);
            let vy = random_in(-5_000, -1_000);
            let size = random_in(2_000, 6_000);
            let ghost before = self.particles@;
            self.particles.push(Particle::new(x, y, vx, vy, size, kind));
            proof {
                assert(self.particles@.take(n0 as int) =~= before.take(n0 as int));
                if particles_ok(old(self).particles@) {
                    assert forall|i: int| 0 <= i < self.particles@.len() implies (
                    #[trigger] self.particles@[i]).wf() && self.particles@[i].life > 0 by {
                        if i < before.len() {
                            assert(self.particles@[i] == before[i]);
                        } else {
                            assert(self.particles@[i].life == crate::entities::LIFE_FULL);
                        }
                    }
                }
            }
            k = k + 1;
        }
    }

    /// Everything but the pipes, the particles and the score is as in `g`.
    pub open spec fn keeps_run(&self, g: Game) -> bool {
        &&& self.bird == g.bird
        &&& self.high_scores == g.high_scores
        &&& self.state == g.state
        &&& self.difficulty == g.difficulty
        &&& self.pipe_spawn_timer == g.pipe_spawn_timer
        &&& self.background_offset == g.background_offset
        &&& self.show_hitboxes == g.show_hitboxes
        &&& self.invincible == g.invincible
        &&& self.slow_motion == g.slow_motion
        &&& self.slow_motion_timer == g.slow_motion_timer
    }

    /// Moves every pipe left by `speed` and scores each pipe that the bird
    /// passes for the first time, with a burst of particles for each.
    pub fn advance_pipes(&mut self, speed: i64)
        requires
            old(self).bird.wf(),
            0 <= speed <= 10_000,
            0 <= old(self).score,
            particles_ok(old(self).particles@),
            forall|i: int|
                0 <= i < old(self).pipes@.len() ==> (#[trigger] old(self).pipes@[i]).wf()
                    && !offscreen(old(self).pipes@[i]),
        ensures
            final(self).pipes@ == advanced_all(old(self).pipes@, speed as int, old(self).bird.x as int),
            forall|i: int| 0 <= i < final(self).pipes@.len() ==> (#[trigger] final(self).pipes@[i]).wf(),
            final(self).score == add_capped(
                old(self).score as int,
                passes(old(self).pipes@, speed as int, old(self).bird.x as int) as int,
            ),
            particles_ok(final(self).particles@),
            final(self).keeps_run(*old(self)),
    {
        let ghost initial = old(self).pipes@;
        let ghost bx = old(self).bird.x as int;
        let n = self.pipes.len();
        let mut i: usize = 0;
        while i < n
            invariant
                n == initial.len(),
                self.pipes@.len() == n,
                i <= n,
                bx == self.bird.x,
                self.bird.wf(),
                0 <= speed <= 10_000,
                forall|j: int| 0 <= j < n ==> (#[trigger] initial[j]).wf() && !offscreen(initial[j]),
                forall|j: int| 0 <= j < i ==> #[trigger] self.pipes@[j] == advanced(initial[j], speed as int, bx),
                forall|j: int| i <= j < n ==> #[trigger] self.pipes@[j] == initial[j],
                self.score == add_capped(old(self).score as int, passes(initial.take(i as int), speed as int, bx) as int),
                particles_ok(self.particles@),
                self.keeps_run(*old(self)),
            decreases n - i,
        {
            let mut p = self.pipes[i];
            p.update(speed);
            let newly = p.mark_passed(self.bird.x);
            self.pipes[i] = p;
            if newly {
                if self.score < i32::MAX {
                    self.score = self.score + 1;
                }
                self.spawn_particles(
                    p.x + PIPE_WIDTH / 2,
                    FIELD_HEIGHT / 2,
                    Burst::Point,
                    POINT_PARTICLES,
                );
            }
            proof {
                assert(initial.take(i + 1).drop_last() =~= initial.take(i as int));
            }
            i = i + 1;
        }
        proof {
            assert(initial.take(n as int) =~= initial);
            assert(self.pipes@ =~= advanced_all(initial, speed as int, bx));
        }
    }

    /// Whether the bird's hitbox overlaps any pipe.
    pub fn hits_pipe(&self) -> (r: bool)
        requires
            self.bird.wf(),
            forall|i: int| 0 <= i < self.pipes@.len() ==> (#[trigger] self.pipes@[i]).wf(),
        ensures
            r == hits_any(self.pipes@, self.bird),
    {
        let mut i: usize = 0;
        while i < self.pipes.len()
            invariant
                i <= self.pipes@.len(),
                self.bird.wf(),
                forall|j: int| 0 <= j < self.pipes@.len() ==> (#[trigger] self.pipes@[j]).wf(),
                forall|j: int| 0 <= j < i ==> !pipe_collides(#[trigger] self.pipes@[j], self.bird),
            decreases self.pipes@.len() - i,
        {
            if self.pipes[i].collides_with(&self.bird) {
                return true;
            }
            i = i + 1;
        }
        false
    }

    /// Drops the pipes that have left the field, keeping the others in order.
    pub fn remove_offscreen_pipes(&mut self)
        requires
            forall|i: int| 0 <= i < old(self).pipes@.len() ==> (#[trigger] old(self).pipes@[i]).wf(),
        ensures
            final(self).pipes@ == on_screen(old(self).pipes@),
            forall|i: int|
                0 <= i < final(self).pipes@.len() ==> (#[trigger] final(self).pipes@[i]).wf()
                    && !offscreen(final(self).pipes@[i]),
            final(self).particles == old(self).particles,
            final(self).score == old(self).score,
            final(self).keeps_run(*old(self)),
    {
        let ghost initial = self.pipes@;
        let mut kept: Vec<Pipe> = Vec::new();
        let mut i: usize = 0;
        while i < self.pipes.len()
            invariant
                self.pipes@ == initial,
                i <= initial.len(),
                forall|j: int| 0 <= j < initial.len() ==> (#[trigger] initial[j]).wf(),
                kept@ == on_screen(initial.take(i as int)),
                forall|j: int| 0 <= j < kept@.len() ==> (#[trigger] kept@[j]).wf() && !offscreen(kept@[j]),
            decreases initial.len() - i,
        {
            let p = self.pipes[i];
            proof {
                assert(initial.take(i + 1).drop_last() =~= initial.take(i as int));
            }
            if !p.is_offscreen() {
                kept.push(p);
            }
            i = i + 1;
        }
        proof {
            assert(initial.take(initial.len() as int) =~= initial);
        }
        self.pipes = kept;
    }

    /// Ages every particle and drops the ones whose life has run out.
    pub fn update_particles(&mut self)
        requires
            particles_ok(old(self).particles@),
        ensures
            final(self).particles@ == living(old(self).particles@.map_values(|p: Particle| crate::entities::particle_stepped(p))),
            particles_ok(final(self).particles@),
            final(self).pipes == old(self).pipes,
            final(self).score == old(self).score,
            final(self).keeps_run(*old(self)),
    {
        let ghost initial = self.particles@;
        let ghost stepped = initial.map_values(|p: Particle| crate::entities::particle_stepped(p));
        let mut kept: Vec<Particle> = Vec::new();
        let mut i: usize = 0;
        while i < self.particles.len()
            invariant
                self.particles@ == initial,
                stepped == initial.map_values(|p: Particle| crate::entities::particle_stepped(p)),
                i <= initial.len(),
                particles_ok(initial),
                kept@ == living(stepped.take(i as int)),
                particles_ok(kept@),
            decreases initial.len() - i,
        {
            let mut p = self.particles[i];
            p.update();
            proof {
                assert(stepped.take(i + 1).drop_last() =~= stepped.take(i as int));
            }
            if !p.is_dead() {
                kept.push(p);
            }
            i = i + 1;
        }
        proof {
            assert(stepped.take(stepped.len() as int) =~= stepped);
        }
        self.particles = kept;
    }

    /// All fields but the mode are as in `g`.
    pub open spec fn same_but_state(&self, g: Game) -> bool {
        self.same_run(g) && self.difficulty == g.difficulty
    }

    /// One Playing frame without a pause: what `update_playing` does to `g`.
    pub open spec fn played(&self, g: Game, k: Keys, save: bool) -> bool {
        let slow = g.slow_motion != k.slow_motion;
        let h = frame_len(slow) as int;
        let bird = bird_after_frame(g.bird, k, slow);
        let speed = frame_speed(g.difficulty, slow) as int;
        let shifted = advanced_all(g.pipes@, speed, BIRD_START_X as int);
        let kept = on_screen(shifted);
        let spawned = g.pipe_spawn_timer + h > SPAWN_THRESHOLD;
        let crashed = (hits_any(shifted, bird) || out_of_field(bird)) && !self.invincible;
        &&& self.bird == bird
        &&& self.show_hitboxes == (g.show_hitboxes != k.hitboxes)
        &&& self.invincible == (g.invincible != k.invincibility)
        &&& self.slow_motion == slow
        &&& self.slow_motion_timer == g.slow_motion_timer
        &&& self.difficulty == g.difficulty
        &&& self.background_offset == scrolled(g.background_offset as int, h)
        &&& self.pipe_spawn_timer == if spawned { 0 } else { g.pipe_spawn_timer + h }
        &&& spawned ==> {
            &&& self.pipes@.len() == kept.len() + 1
            &&& self.pipes@.drop_last() == kept
            &&& fresh_pipe(moved(self.pipes@.last(), -speed), g.difficulty)
        }
        &&& !spawned ==> self.pipes@ == kept
        &&& self.score == add_capped(g.score as int, passes(g.pipes@, speed, BIRD_START_X as int) as int)
        &&& self.state == if crashed { GameState::GameOver } else { GameState::Playing }
        &&& self.high_scores == if crashed {
            g.high_scores.offered(g.difficulty, self.score)
        } else {
            g.high_scores
        }
        &&& save == (crashed && self.score > g.high_scores.best(g.difficulty))
    }

    /// A Playing frame. Escape pauses and changes nothing else. Otherwise: the
    /// jump and the three toggles, then bird motion, scroll, spawning, pipe
    /// motion and scoring, collision, pipe clean-up and particles, all scaled
    /// by the frame length. Returns whether the best scores changed and need
    /// saving.
    pub fn update_playing(&mut self, keys: &Keys) -> (save: bool)
        requires
            old(self).wf(),
            old(self).state == GameState::Playing,
        ensures
            final(self).wf(),
            keys.escape ==> final(self).state == GameState::Paused && final(self).same_but_state(
                *old(self),
            ) && !save,
            !keys.escape ==> final(self).played(*old(self), *keys, save),
    {
        if keys.escape {
            self.state = GameState::Paused;
            return false;
        }
        self.apply_controls(keys);
        let h = frame_half_ticks(self.slow_motion);
        self.bird.update(h);
        self.scroll(h);
        let ghost before_spawn = self.pipes@;
        let spawned = self.tick_spawner(h);
        let ghost src = self.pipes@;
        let speed = self.frame_pipe_speed();
        self.advance_pipes(speed);
        let crashed = self.hits_pipe() || self.bird_out_of_field();
        let mut save = false;
        if crashed && !self.invincible {
            self.state = GameState::GameOver;
            self.spawn_particles(self.bird.x, self.bird.y, Burst::Crash, CRASH_PARTICLES);
            save = self.high_scores.update(self.difficulty, self.score);
        }
        self.remove_offscreen_pipes();
        self.update_particles();
        proof {
            if spawned {
                lemma_spawned_pipe_is_inert(before_spawn, src.last(), speed as int, self.bird);
                assert(src =~= before_spawn.push(src.last()));
            }
            let g = *old(self);
            let sp = frame_speed(g.difficulty, g.slow_motion != keys.slow_motion) as int;
            let kept = on_screen(advanced_all(g.pipes@, sp, BIRD_START_X as int));
            if spawned {
                assert(self.pipes@.drop_last() =~= kept);
            }
        }
        save
    }

    /// The jump impulse with its particles, and the three edge-triggered toggles.
    fn apply_controls(&mut self, keys: &Keys)
        requires
            old(self).wf(),
        ensures
            final(self).wf(),
            final(self).bird == (if keys.space || keys.click {
                Bird { velocity: crate::config::JUMP_VELOCITY, ..old(self).bird }
            } else {
                old(self).bird
            }),
            final(self).show_hitboxes == (old(self).show_hitboxes != keys.hitboxes),
            final(self).invincible == (old(self).invincible != keys.invincibility),
            final(self).slow_motion == (old(self).slow_motion != keys.slow_motion),
            final(self).pipes == old(self).pipes,
            final(self).score == old(self).score,
            final(self).high_scores == old(self).high_scores,
            final(self).state == old(self).state,
            final(self).difficulty == old(self).difficulty,
            final(self).pipe_spawn_timer == old(self).pipe_spawn_timer,
            final(self).background_offset == old(self).background_offset,
            final(self).slow_motion_timer == old(self).slow_motion_timer,
    {
        if keys.space || keys.click {
            self.bird.jump();
            self.spawn_particles(self.bird.x, self.bird.y, Burst::Flap, FLAP_PARTICLES);
        }
        if keys.hitboxes {
            self.show_hitboxes = !self.show_hitboxes;
        }
        if keys.invincibility {
            self.invincible = !self.invincible;
        }
        if keys.slow_motion {
            self.slow_motion = !self.slow_motion;
        }
    }

    /// Scrolls the background by a frame of `h` half-ticks, wrapping to zero.
    fn scroll(&mut self, h: i64)
        requires
            SCROLL_WRAP < old(self).background_offset <= 0,
            1 <= h <= 2,
        ensures
            final(self).background_offset == scrolled(old(self).background_offset as int, h as int),
            SCROLL_WRAP < final(self).background_offset <= 0,
            final(self).pipes == old(self).pipes,
            final(self).particles == old(self).particles,
            final(self).score == old(self).score,
            final(self).bird == old(self).bird,
            final(self).high_scores == old(self).high_scores,
            final(self).state == old(self).state,
            final(self).difficulty == old(self).difficulty,
            final(self).pipe_spawn_timer == old(self).pipe_spawn_timer,
            final(self).show_hitboxes == old(self).show_hitboxes,
            final(self).invincible == old(self).invincible,
            final(self).slow_motion == old(self).slow_motion,
            final(self).slow_motion_timer == old(self).slow_motion_timer,
    {
        let offset = self.background_offset - SCROLL_PER_HALF_TICK * h;
        self.background_offset = if offset <= SCROLL_WRAP { 0 } else { offset };
    }

    /// Advances the spawn timer by `h` half-ticks; past the threshold it spawns
    /// a pipe and restarts. Returns whether it spawned.
    fn tick_spawner(&mut self, h: i64) -> (spawned: bool)
        requires
            0 <= old(self).pipe_spawn_timer <= SPAWN_THRESHOLD,
            1 <= h <= 2,
            forall|i: int|
                0 <= i < old(self).pipes@.len() ==> (#[trigger] old(self).pipes@[i]).wf()
                    && !offscreen(old(self).pipes@[i]),
        ensures
            spawned == (old(self).pipe_spawn_timer + h > SPAWN_THRESHOLD),
            final(self).pipe_spawn_timer == if spawned { 0 } else { old(self).pipe_spawn_timer + h },
            0 <= final(self).pipe_spawn_timer <= SPAWN_THRESHOLD,
            spawned ==> final(self).pipes@.len() == old(self).pipes@.len() + 1
                && final(self).pipes@.drop_last() == old(self).pipes@
                && fresh_pipe(final(self).pipes@.last(), old(self).difficulty)
                && final(self).pipes@.last().wf(),
            !spawned ==> final(self).pipes@ == old(self).pipes@,
            forall|i: int|
                0 <= i < final(self).pipes@.len() ==> (#[trigger] final(self).pipes@[i]).wf()
                    && !offscreen(final(self).pipes@[i]),
            final(self).particles == old(self).particles,
            final(self).score == old(self).score,
            final(self).bird == old(self).bird,
            final(self).high_scores == old(self).high_scores,
            final(self).state == old(self).state,
            final(self).difficulty == old(self).difficulty,
            final(self).background_offset == old(self).background_offset,
            final(self).show_hitboxes == old(self).show_hitboxes,
            final(self).invincible == old(self).invincible,
            final(self).slow_motion == old(self).slow_motion,
            final(self).slow_motion_timer == old(self).slow_motion_timer,
    {
        let timer = self.pipe_spawn_timer + h;
        if timer > SPAWN_THRESHOLD {
            self.spawn_pipe();
            self.pipe_spawn_timer = 0;
            proof {
                assert forall|i: int| 0 <= i < self.pipes@.len() implies (
                #[trigger] self.pipes@[i]).wf() && !offscreen(self.pipes@[i]) by {
                    if i < old(self).pipes@.len() {
                        assert(self.pipes@[i] == self.pipes@.drop_last()[i]);
                    }
                }
            }
            true
        } else {
            self.pipe_spawn_timer = timer;
            false
        }
    }

    /// Pipe motion during this frame.
    fn frame_pipe_speed(&self) -> (r: i64)
        ensures
            r == frame_speed(self.difficulty, self.slow_motion),
            0 <= r <= 10_000,
    {
        if self.slow_motion {
            self.difficulty.pipe_speed() / 2
        } else {
            self.difficulty.pipe_speed()
        }
    }

    fn bird_out_of_field(&self) -> (r: bool)
        requires
            self.bird.wf(),
        ensures
            r == out_of_field(self.bird),
    {
        self.bird.y - BIRD_SIZE / 2 <= 0 || self.bird.y + BIRD_SIZE / 2 >= FIELD_BOTTOM
    }

    pub fn update_menu(&mut self, keys: &Keys)
        requires
            old(self).wf(),
            old(self).state == GameState::Menu,
        ensures
            final(self).wf(),
            final(self).menu_step(*old(self), *keys),
    {
        if keys.space || keys.enter {
            self.reset();
            self.state = GameState::Playing;
        }
        if keys.one {
            self.difficulty = Difficulty::Easy;
        }
        if keys.two {
            self.difficulty = Difficulty::Medium;
        }
        if keys.three {
            self.difficulty = Difficulty::Hard;
        }
        if keys.four {
            self.difficulty = Difficulty::Extreme;
        }
    }

    pub fn update_paused(&mut self, keys: &Keys)
        requires
            old(self).wf(),
            old(self).state == GameState::Paused,
        ensures
            final(self).wf(),
            final(self).paused_step(*old(self), *keys),
    {
        if keys.escape || keys.space {
            self.state = GameState::Playing;
        }
        if keys.q {
            self.state = GameState::Menu;
        }
    }

    pub fn update_game_over(&mut self, keys: &Keys)
        requires
            old(self).wf(),
            old(self).state == GameState::GameOver,
        ensures
            final(self).wf(),
            final(self).game_over_step(*old(self), *keys),
    {
        if keys.space || keys.enter {
            self.reset();
            self.state = GameState::Playing;
        }
        if keys.escape || keys.q {
            self.state = GameState::Menu;
        }
    }

    /// One frame: dispatches on the mode. Returns whether the best scores
    /// changed, which is when they need saving. While invincible, no collision
    /// ends a run.
    pub fn update(&mut self, keys: &Keys) -> (save: bool)
        requires
            old(self).wf(),
        ensures
            final(self).wf(),
            old(self).state == GameState::Menu ==> final(self).menu_step(*old(self), *keys) && !save,
            old(self).state == GameState::Paused ==> final(self).paused_step(*old(self), *keys)
                && !save,
            old(self).state == GameState::GameOver ==> final(self).game_over_step(*old(self), *keys)
                && !save,
            old(self).state == GameState::Playing && keys.escape ==> final(self).state
                == GameState::Paused && final(self).same_but_state(*old(self)) && !save,
            old(self).state == GameState::Playing && !keys.escape ==> final(self).played(
                *old(self),
                *keys,
                save,
            ),
            old(self).state == GameState::Playing && final(self).invincible ==> final(self).state
                != GameState::GameOver,
            save ==> final(self).high_scores.best(final(self).difficulty) == final(self).score,
    {
        match self.state {
            GameState::Menu => {
                self.update_menu(keys);
                false
            },
            GameState::Playing => self.update_playing(keys),
            GameState::Paused => {
                self.update_paused(keys);
                false
            },
            GameState::GameOver => {
                self.update_game_over(keys);
                false
            },
        }
    }
}

} // verus!
