use arcade::engine::{GameMode, Input};
use arcade::log_jump::{Log, Player, State, FLOOR_HEIGHT, SCREEN_WIDTH};

const STEP_US: u32 = 50_000;

fn playing_at(x: i32, y: i32, velocity: i32, log_x: i32, score: i32) -> State {
    State {
        mode: GameMode::Playing,
        frame_time: 0,
        player: Player { x, y, velocity },
        log: Log { x: log_x },
        score,
    }
}

#[test]
fn jump_from_floor_then_one_step() {
    let mut s = playing_at(5, FLOOR_HEIGHT, 0, 85, 0);
    s.tick(0, Some(Input::Impulse));
    assert_eq!(s.player.velocity, -20);
    assert_eq!(s.player.y, 30);
    s.tick(STEP_US, None);
    assert_eq!(s.player.velocity, -18);
    // -1.8 cells truncates toward zero to one cell
    assert_eq!(s.player.y, 29);
    assert_eq!(s.player.x, 6);
}

#[test]
fn log_passed_respawns_and_scores() {
    let log = Log::spawn_ahead_of(5, SCREEN_WIDTH);
    assert_eq!(log.x, 85);
    assert!(!log.has_been_passed(87));
    assert!(log.has_been_passed(88));
    let mut s = playing_at(87, 25, 0, 85, 0);
    s.tick(STEP_US, None);
    assert_eq!(s.player.x, 88);
    assert_eq!(s.log.x, 168);
    assert_eq!(s.score, 1);
    assert_eq!(s.mode, GameMode::Playing);
}

#[test]
fn full_run_clears_first_log() {
    let mut s = State::new();
    assert!(!s.tick(0, Some(Input::Play)));
    assert_eq!(s.log.x, 85);
    assert_eq!(s.score, 0);
    while s.player.x < 80 {
        s.tick(STEP_US, None);
        assert_eq!(s.mode, GameMode::Playing);
    }
    s.tick(STEP_US, Some(Input::Impulse));
    let mut last_score = s.score;
    while s.player.x < 88 {
        s.tick(STEP_US, None);
        assert_eq!(s.mode, GameMode::Playing);
        assert!(s.score >= last_score);
        last_score = s.score;
    }
    assert_eq!(s.score, 1);
    assert_eq!(s.log.x, 168);
}

#[test]
fn running_into_log_ends_run() {
    let mut s = State::new();
    s.tick(0, Some(Input::Play));
    let mut ticks = 0;
    while s.mode == GameMode::Playing {
        s.tick(STEP_US, None);
        ticks += 1;
    }
    assert_eq!(s.mode, GameMode::End);
    assert_eq!(s.player.x, 83);
    assert_eq!(ticks, 78);
    let frozen = s;
    assert!(!s.tick(STEP_US, Some(Input::Impulse)));
    assert_eq!(s.player.x, frozen.player.x);
    assert_eq!(s.mode, GameMode::End);
    assert!(!s.tick(0, Some(Input::Play)));
    assert_eq!(s.mode, GameMode::Playing);
    assert_eq!(s.score, 0);
    assert_eq!(s.player.x, 5);
}

#[test]
fn collision_span_is_three_cells() {
    let log = Log::new(85);
    for x in 83..=85 {
        assert!(log.is_colliding(&Player::new(x, FLOOR_HEIGHT)));
        assert!(!log.is_colliding(&Player::new(x, FLOOR_HEIGHT - 1)));
    }
    assert!(!log.is_colliding(&Player::new(82, FLOOR_HEIGHT)));
    assert!(!log.is_colliding(&Player::new(86, FLOOR_HEIGHT)));
}

#[test]
fn velocity_from_rest_reaches_terminal() {
    let mut p = Player::new(5, FLOOR_HEIGHT);
    for n in 1..=15 {
        p.gravity_and_move();
        assert_eq!(p.velocity, std::cmp::min(2 * n, 20));
        assert!(p.y <= FLOOR_HEIGHT);
    }
}

#[test]
fn jump_only_from_floor() {
    let mut p = Player { x: 10, y: 27, velocity: -4 };
    p.jump();
    assert_eq!(p.velocity, -4);
    let mut q = Player { x: 10, y: FLOOR_HEIGHT, velocity: 6 };
    q.jump();
    assert_eq!(q.velocity, -20);
    q.jump();
    assert_eq!(q.velocity, -20);
}

#[test]
fn jump_arc_stays_within_five_rows() {
    let mut p = Player::new(0, FLOOR_HEIGHT);
    p.jump();
    let mut highest = p.y;
    for _ in 0..40 {
        p.gravity_and_move();
        highest = std::cmp::min(highest, p.y);
        assert!(p.y <= FLOOR_HEIGHT);
    }
    assert_eq!(highest, 25);
    assert_eq!(p.y, FLOOR_HEIGHT);
}

#[test]
fn frame_time_gates_physics_but_not_jump() {
    let mut s = playing_at(10, FLOOR_HEIGHT, 0, 200, 0);
    s.tick(30_000, None);
    assert_eq!(s.player.x, 10);
    assert_eq!(s.frame_time, 30_000);
    s.tick(15_000, Some(Input::Impulse));
    assert_eq!(s.player.x, 10);
    assert_eq!(s.frame_time, 45_000);
    assert_eq!(s.player.velocity, -20);
    s.tick(1, None);
    assert_eq!(s.player.x, 11);
    assert_eq!(s.frame_time, 0);
}

#[test]
fn menu_quit_keeps_menu() {
    let mut s = State::new();
    assert!(s.tick(STEP_US, Some(Input::Quit)));
    assert_eq!(s.mode, GameMode::Menu);
    assert_eq!(s.player.x, 5);
    assert!(!s.tick(STEP_US, Some(Input::Impulse)));
    assert!(!s.tick(STEP_US, None));
    assert_eq!(s.mode, GameMode::Menu);
}

#[test]
fn renders_actor_and_log_glyphs() {
    let p = Player::new(100, 28);
    let c = p.render();
    assert_eq!((c.x, c.y, c.glyph), (5, 28, 65));
    let cells = Log::new(130).render(100);
    assert_eq!(cells.len(), 3);
    for (i, c) in cells.iter().enumerate() {
        assert_eq!((c.x, c.y, c.glyph), (30 + i as i32, FLOOR_HEIGHT, 76));
    }
}
