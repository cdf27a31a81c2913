use vstd::prelude::*;
use crate::config::{frame_len, speed_of, Difficulty, GRAVITY, SCROLL_PER_HALF_TICK};
use crate::entities::{bird_step_fits, bird_stepped, bird_velocity_after, passed, Bird, Pipe};
use crate::game::{advanced, frame_speed, moved, newly_passed};
use crate::scores::HighScores;

verus! {

/// Offering a score changes the record exactly when it beats the best of that
/// difficulty, touches no other difficulty, and offering the same score again
/// changes nothing and is refused.
pub proof fn law_offer_is_idempotent(h: HighScores, d: Difficulty, score: i32)
    ensures
        h.offered(d, score).best(d) == if score > h.best(d) { score } else { h.best(d) },
        forall|e: Difficulty| e != d ==> #[trigger] h.offered(d, score).best(e) == h.best(e),
        !(score > h.offered(d, score).best(d)),
        h.offered(d, score).offered(d, score) == h.offered(d, score),
{
}

/// A pipe's scored flag never goes back to false, and goes from false to true
/// exactly in the frame in which its right edge first lies left of the bird;
/// once set, no later frame counts the pipe again.
pub proof fn law_scored_once(p: Pipe, speed: int, bird_x: int)
    ensures
        p.scored ==> advanced(p, speed, bird_x).scored && !newly_passed(p, speed, bird_x),
        !p.scored ==> (advanced(p, speed, bird_x).scored == passed(moved(p, speed), bird_x)),
        newly_passed(p, speed, bird_x) == (!p.scored && advanced(p, speed, bird_x).scored),
{
}

/// What `n` frames add up to for a quantity that grows by `rate` per half-tick.
pub open spec fn accumulated(rate: int, slow_motion: bool, n: nat) -> int
    decreases n,
{
    if n == 0 {
        0
    } else {
        accumulated(rate, slow_motion, (n - 1) as nat) + rate * frame_len(slow_motion)
    }
}

/// Slow motion is a uniform dilation of time: `2m` slow frames add up to what
/// `m` normal frames do, and `2m + 1` slow frames to that plus one slow frame,
/// for any quantity that grows at a fixed rate per half-tick.
pub proof fn law_slow_motion_dilates_time(rate: int, m: nat)
    ensures
        accumulated(rate, true, 2 * m) == accumulated(rate, false, m),
        accumulated(rate, true, 2 * m + 1) == accumulated(rate, false, m) + rate,
    decreases m,
{
    assert(frame_len(true) == 1);
    assert(frame_len(false) == 2);
    let even: nat = 2 * m;
    let odd: nat = even + 1;
    assert(accumulated(rate, true, odd) == accumulated(rate, true, even) + rate);
    if m > 0 {
        let k: nat = (m - 1) as nat;
        law_slow_motion_dilates_time(rate, k);
        let e2: nat = 2 * k;
        let o2: nat = e2 + 1;
        assert(accumulated(rate, true, o2) == accumulated(rate, true, e2) + rate);
        assert(even == o2 + 1);
        assert(accumulated(rate, true, even) == accumulated(rate, true, o2) + rate);
        assert(accumulated(rate, false, m) == accumulated(rate, false, k) + 2 * rate);
    }
}

/// Each per-frame quantity of the game grows at a fixed rate per half-tick, so
/// the dilation above applies to it: pipe motion, background scroll, the spawn
/// timer and the bird's gain of velocity under gravity.
pub proof fn law_frame_rates(
    d: Difficulty,
    slow_motion: bool,
    b: Bird,
    p: Pipe,
    offset: int,
    timer: int,
)
    requires
        p.wf(),
    ensures
        frame_speed(d, slow_motion) == (speed_of(d) / 2) * frame_len(slow_motion),
        offset - SCROLL_PER_HALF_TICK * frame_len(slow_motion) == offset - accumulated(
            SCROLL_PER_HALF_TICK as int,
            slow_motion,
            1,
        ),
        timer + frame_len(slow_motion) == timer + accumulated(1, slow_motion, 1),
        bird_velocity_after(b, frame_len(slow_motion) as int) == b.velocity + accumulated(
            GRAVITY as int,
            slow_motion,
            1,
        ),
        moved(p, frame_speed(d, slow_motion) as int).x == p.x - accumulated(
            speed_of(d) / 2,
            slow_motion,
            1,
        ),
{
    reveal_with_fuel(accumulated, 2);
    assert(frame_len(true) == 1);
    assert(frame_len(false) == 2);
    let s = speed_of(d) as int;
    assert(s == 2 * (s / 2)) by {
        match d {
            Difficulty::Easy => {},
            Difficulty::Medium => {},
            Difficulty::Hard => {},
            Difficulty::Extreme => {},
        }
    }
}

/// The bird's velocity after `n` frames of `h` half-ticks each, from `v`.
pub open spec fn flight_velocity(v: int, h: int, n: nat) -> int
    decreases n,
{
    if n == 0 {
        v
    } else {
        flight_velocity(v, h, (n - 1) as nat) + GRAVITY * h
    }
}

/// The bird's height after `n` frames of `h` half-ticks each, from `y` and
/// `v`, away from the coordinate limit: each frame moves it by its new
/// velocity over the frame's length.
pub open spec fn flight_y(y: int, v: int, h: int, n: nat) -> int
    decreases n,
{
    if n == 0 {
        y
    } else {
        flight_y(y, v, h, (n - 1) as nat) + flight_velocity(v, h, n) * h
    }
}

/// Away from the coordinate limit, a frame of the bird is one step of the
/// flight above.
pub proof fn law_flight_is_frame(b: Bird, h: int)
    requires
        bird_step_fits(b, h),
    ensures
        bird_stepped(b, h).velocity == flight_velocity(b.velocity as int, h, 1),
        bird_stepped(b, h).y == flight_y(b.y as int, b.velocity as int, h, 1),
{
    reveal_with_fuel(flight_velocity, 2);
    reveal_with_fuel(flight_y, 2);
}

/// Under slow motion the bird keeps pace with normal time up to integration
/// order: after `2m` slow frames it has the velocity that `m` normal frames
/// give, and lies exactly `m` gravity quanta (an eighth of a pixel each) above
/// where those frames put it.
pub proof fn law_slow_motion_flight(y: int, v: int, m: nat)
    ensures
        flight_velocity(v, 1, 2 * m) == flight_velocity(v, 2, m),
        flight_y(y, v, 1, 2 * m) == flight_y(y, v, 2, m) - GRAVITY * m,
    decreases m,
{
    if m > 0 {
        let k: nat = (m - 1) as nat;
        law_slow_motion_flight(y, v, k);
        let e: nat = 2 * k;
        let o: nat = e + 1;
        let t: nat = o + 1;
        assert(t == 2 * m);
        assert(flight_velocity(v, 1, o) == flight_velocity(v, 1, e) + GRAVITY);
        assert(flight_velocity(v, 1, t) == flight_velocity(v, 1, o) + GRAVITY);
        assert(flight_velocity(v, 2, m) == flight_velocity(v, 2, k) + 2 * GRAVITY);
        assert(flight_y(y, v, 1, o) == flight_y(y, v, 1, e) + flight_velocity(v, 1, o));
        assert(flight_y(y, v, 1, t) == flight_y(y, v, 1, o) + flight_velocity(v, 1, t));
        assert(flight_y(y, v, 2, m) == flight_y(y, v, 2, k) + flight_velocity(v, 2, m) * 2);
    }
}

} // verus!
