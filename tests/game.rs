use flappy::config::{Difficulty, BIRD_START_X, BIRD_START_Y, FIELD_BOTTOM, PIPE_WIDTH};
use flappy::entities::{Bird, Burst, Particle, Pipe, Rect};
use flappy::game::{Game, GameState, Keys};
use flappy::scores::HighScores;

fn playing() -> Game {
    let mut g = Game::new(HighScores::default());
    g.update(&Keys { space: true, ..Default::default() });
    assert_eq!(g.state, GameState::Playing);
    g
}

fn pipe_at(x: i64) -> Pipe {
    Pipe::with_gap(x, 180_000, 200_000)
}

#[test]
fn bird_falls_one_frame() {
    let mut b = Bird::new(150_000, 300_000);
    b.update(2);
    assert_eq!(b.velocity_per_tick(), 500);
    assert_eq!(b.y, 300_500);
    assert_eq!(b.rotation, 1_500);
}

#[test]
fn bird_slow_frame_is_half() {
    let mut b = Bird::new(150_000, 300_000);
    b.update(1);
    assert_eq!(b.velocity_per_tick(), 250);
    assert_eq!(b.y, 300_125);
}

#[test]
fn two_slow_frames_match_one_normal_frame() {
    let mut slow = Bird::new(150_000, 300_000);
    slow.update(1);
    slow.update(1);
    let mut normal = Bird::new(150_000, 300_000);
    normal.update(2);
    assert_eq!(slow.velocity, normal.velocity);
    assert_eq!(slow.y, normal.y - 125);
}

#[test]
fn rotation_is_clamped() {
    let mut b = Bird::new(150_000, 300_000);
    b.jump();
    b.update(2);
    assert_eq!(b.rotation, -22_500);
    let mut a = Bird { velocity: -10_000, ..Bird::new(150_000, 300_000) };
    a.update(2);
    assert_eq!(a.rotation, -30_000);
    let mut c = Bird { velocity: 20_000, ..Bird::new(150_000, 0) };
    c.update(2);
    assert_eq!(c.rotation, 90_000);
}

#[test]
fn jump_overrides_velocity() {
    let mut b = Bird { velocity: 1_500, ..Bird::new(150_000, 300_000) };
    assert_eq!(b.velocity_per_tick(), 3_000);
    b.jump();
    assert_eq!(b.velocity_per_tick(), -8_000);
    assert_eq!(b.y, 300_000);
}

#[test]
fn hitbox_is_inset() {
    let b = Bird::new(150_000, 300_000);
    assert_eq!(b.get_bounds(), Rect { x: 140_000, y: 290_000, w: 20_000, h: 20_000 });
}

#[test]
fn rects_touching_overlap() {
    let a = Rect { x: 0, y: 0, w: 10, h: 10 };
    assert!(a.overlaps(&Rect { x: 10, y: 10, w: 5, h: 5 }));
    assert!(!a.overlaps(&Rect { x: 11, y: 0, w: 5, h: 5 }));
}

#[test]
fn spawned_gap_lies_in_band() {
    for _ in 0..500 {
        let p = Pipe::new(850_000, 180_000);
        assert!(p.gap_y >= 150_000 && p.gap_y < 250_000, "gap_y {}", p.gap_y);
        assert_eq!(p.gap_height, 180_000);
        assert_eq!(p.x, 850_000);
        assert!(!p.scored);
    }
}

#[test]
fn gaps_vary() {
    let first = Pipe::new(850_000, 120_000).gap_y;
    let differs = (0..200).any(|_| Pipe::new(850_000, 120_000).gap_y != first);
    assert!(differs);
}

#[test]
fn pipe_moves_and_leaves() {
    let mut p = pipe_at(-59_000);
    assert!(!p.is_offscreen());
    p.update(2_000);
    assert_eq!(p.x, -61_000);
    assert!(p.is_offscreen());
}

#[test]
fn pipe_scores_once() {
    let mut p = pipe_at(100_000);
    assert!(!p.mark_passed(150_000));
    p.update(60_000);
    assert!(p.mark_passed(100_001));
    assert!(p.scored);
    p.update(1_000);
    assert!(!p.mark_passed(150_000));
    assert!(p.scored);
}

#[test]
fn pipe_collision() {
    let b = Bird::new(150_000, 300_000);
    let open = Pipe::with_gap(140_000, 180_000, 200_000);
    assert!(!open.collides_with(&b));
    let low_gap = Pipe::with_gap(140_000, 100_000, 400_000);
    assert!(low_gap.collides_with(&b));
    let high_gap = Pipe::with_gap(140_000, 100_000, 50_000);
    assert!(high_gap.collides_with(&b));
    let far = Pipe::with_gap(400_000, 100_000, 400_000);
    assert!(!far.collides_with(&b));
}

#[test]
fn particle_ages() {
    let mut p = Particle::new(0, 0, 1_000, -2_000, 3_000, Burst::Flap);
    p.update();
    assert_eq!((p.x, p.y, p.vy, p.life), (1_000, -2_000, -1_800, 980));
    for _ in 0..49 {
        p.update();
    }
    assert!(p.is_dead());
}

#[test]
fn difficulty_table() {
    assert_eq!(Difficulty::Easy.pipe_gap(), 220_000);
    assert_eq!(Difficulty::Extreme.pipe_gap(), 120_000);
    assert_eq!(Difficulty::Medium.pipe_speed(), 2_500);
    assert_eq!(Difficulty::Extreme.pipe_speed(), 3_800);
    assert_eq!(Difficulty::Hard.name(), "Hard");
}

#[test]
fn high_scores_scenario() {
    let mut h = HighScores::default();
    assert_eq!(h, HighScores { easy: 0, medium: 0, hard: 0, extreme: 0 });
    assert!(h.update(Difficulty::Hard, 7));
    assert_eq!(h.get(Difficulty::Hard), 7);
    assert!(!h.update(Difficulty::Hard, 3));
    assert_eq!(h.get(Difficulty::Hard), 7);
    assert_eq!(h.get(Difficulty::Easy), 0);
}

#[test]
fn high_score_update_is_idempotent() {
    let mut h = HighScores::default();
    assert!(h.update(Difficulty::Easy, 4));
    let after = h;
    assert!(!h.update(Difficulty::Easy, 4));
    assert_eq!(h, after);
}

#[test]
fn menu_selects_difficulty_and_starts() {
    let mut g = Game::new(HighScores::default());
    assert_eq!(g.difficulty, Difficulty::Medium);
    assert!(!g.update(&Keys { three: true, ..Default::default() }));
    assert_eq!(g.difficulty, Difficulty::Hard);
    assert_eq!(g.state, GameState::Menu);
    g.update(&Keys { enter: true, ..Default::default() });
    assert_eq!(g.state, GameState::Playing);
    assert_eq!(g.bird, Bird::new(BIRD_START_X, BIRD_START_Y));
}

#[test]
fn pause_keeps_everything() {
    let mut g = playing();
    g.update(&Keys::default());
    let (bird, timer) = (g.bird, g.pipe_spawn_timer);
    g.update(&Keys { escape: true, ..Default::default() });
    assert_eq!(g.state, GameState::Paused);
    g.update(&Keys::default());
    assert_eq!((g.bird, g.pipe_spawn_timer), (bird, timer));
    g.update(&Keys { space: true, ..Default::default() });
    assert_eq!(g.state, GameState::Playing);
    assert_eq!((g.bird, g.pipe_spawn_timer), (bird, timer));
    g.update(&Keys { escape: true, ..Default::default() });
    g.update(&Keys { q: true, ..Default::default() });
    assert_eq!(g.state, GameState::Menu);
}

#[test]
fn jump_spawns_particles() {
    let mut g = playing();
    g.update(&Keys { click: true, ..Default::default() });
    assert_eq!(g.bird.velocity_per_tick(), -8_000 + 500);
    assert_eq!(g.particles.len(), 5);
}

#[test]
fn pipe_spawns_after_threshold() {
    let mut g = playing();
    g.bird.velocity = -125;
    for _ in 0..90 {
        g.update(&Keys::default());
        g.bird.velocity = -125;
        g.bird.y = BIRD_START_Y;
    }
    assert_eq!(g.pipes.len(), 0);
    assert_eq!(g.pipe_spawn_timer, 180);
    g.update(&Keys::default());
    assert_eq!(g.pipes.len(), 1);
    assert_eq!(g.pipe_spawn_timer, 0);
    assert_eq!(g.pipes[0].x, 850_000 - 2_500);
}

#[test]
fn passing_a_pipe_scores_once() {
    let mut g = playing();
    g.pipes.push(pipe_at(BIRD_START_X - PIPE_WIDTH + 3_000));
    g.update(&Keys::default());
    assert_eq!(g.score, 0);
    g.update(&Keys::default());
    assert_eq!(g.score, 1);
    assert!(g.pipes[0].scored);
    g.update(&Keys::default());
    assert_eq!(g.score, 1);
    assert_eq!(g.particles.len(), 15);
}

#[test]
fn ground_ends_run_and_records_best() {
    let mut g = playing();
    g.score = 5;
    g.bird.y = FIELD_BOTTOM - 15_000;
    let save = g.update(&Keys::default());
    assert!(save);
    assert_eq!(g.state, GameState::GameOver);
    assert_eq!(g.high_scores.get(Difficulty::Medium), 5);
    assert_eq!(g.particles.len(), 30);
    g.update(&Keys { space: true, ..Default::default() });
    assert_eq!(g.state, GameState::Playing);
    assert_eq!(g.score, 0);
    assert_eq!(g.high_scores.get(Difficulty::Medium), 5);
}

#[test]
fn lower_score_is_not_saved() {
    let mut g = playing();
    g.high_scores.medium = 9;
    g.score = 5;
    g.bird.y = 10_000;
    assert!(!g.update(&Keys::default()));
    assert_eq!(g.state, GameState::GameOver);
    assert_eq!(g.high_scores.medium, 9);
}

#[test]
fn pipe_collision_ends_run() {
    let mut g = playing();
    g.pipes.push(Pipe::with_gap(150_000, 100_000, 400_000));
    g.update(&Keys::default());
    assert_eq!(g.state, GameState::GameOver);
}

#[test]
fn invincible_keeps_playing() {
    let mut g = playing();
    g.pipes.push(Pipe::with_gap(150_000, 100_000, 400_000));
    g.bird.y = FIELD_BOTTOM;
    assert!(!g.update(&Keys { invincibility: true, ..Default::default() }));
    assert!(g.invincible);
    assert_eq!(g.state, GameState::Playing);
    g.update(&Keys::default());
    assert_eq!(g.state, GameState::Playing);
}

#[test]
fn slow_motion_halves_every_rate() {
    let mut fast = playing();
    fast.pipes.push(pipe_at(600_000));
    let mut slow = playing();
    slow.pipes.push(pipe_at(600_000));
    slow.update(&Keys { slow_motion: true, ..Default::default() });
    assert!(slow.slow_motion);
    for _ in 0..3 {
        slow.update(&Keys::default());
    }
    for _ in 0..2 {
        fast.update(&Keys::default());
    }
    assert_eq!(slow.pipes[0].x, fast.pipes[0].x);
    assert_eq!(slow.pipe_spawn_timer, fast.pipe_spawn_timer);
    assert_eq!(slow.background_offset, fast.background_offset);
    assert_eq!(slow.bird.velocity, fast.bird.velocity);
    slow.update(&Keys::default());
    assert_eq!(slow.pipes[0].x, 600_000 - 2 * 2_500 - 1_250);
}

#[test]
fn background_wraps() {
    let mut g = playing();
    for _ in 0..49 {
        g.update(&Keys::default());
        g.bird.y = BIRD_START_Y;
        g.bird.velocity = 0;
    }
    assert_eq!(g.background_offset, -49_000);
    g.update(&Keys::default());
    assert_eq!(g.background_offset, 0);
}

#[test]
fn game_over_quits_to_menu() {
    let mut g = playing();
    g.bird.y = 0;
    g.update(&Keys::default());
    assert_eq!(g.state, GameState::GameOver);
    g.update(&Keys { q: true, ..Default::default() });
    assert_eq!(g.state, GameState::Menu);
}
