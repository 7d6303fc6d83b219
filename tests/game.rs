use flappy::config::{
    GAP_MAX, GAP_MIN, GRAVITY, JUMP_FORCE, MAX_GRAVITY, PLAYER_START_X, PLAYER_START_Y,
    SCREEN_WIDTH,
};
use flappy::game::{GameMode, Key, Screen, State};
use flappy::obstacle::Obstacle;
use flappy::player::Player;

fn playing(player: Player, obstacle: Obstacle, score: i32) -> State {
    State { mode: GameMode::Playing, frame_time: 0, player, obstacle, score }
}

#[test]
fn flap_sets_jump_impulse_whatever_the_speed() {
    for v in [-JUMP_FORCE, -3, 0, 7, MAX_GRAVITY, MAX_GRAVITY + GRAVITY] {
        let mut p = Player { x: 3, y: 77, velocity: v, frame: 2 };
        p.flap();
        assert_eq!(p.velocity, -25);
        assert_eq!((p.x, p.y, p.frame), (3, 77, 2));
    }
}

#[test]
fn fall_speed_rises_then_stays_one_step_past_cap() {
    let mut p = Player::new(0, 0);
    let mut seen = Vec::new();
    for _ in 0..9 {
        p.gravity_and_move();
        seen.push(p.velocity);
    }
    assert_eq!(seen, vec![4, 8, 12, 16, 20, 24, 24, 24, 24]);
}

#[test]
fn fall_speed_after_flap_overshoots_by_less_than_a_step() {
    let mut p = Player::new(0, 100);
    p.flap();
    let mut seen = Vec::new();
    for _ in 0..13 {
        p.gravity_and_move();
        seen.push(p.velocity);
    }
    assert_eq!(seen, vec![-21, -17, -13, -9, -5, -1, 3, 7, 11, 15, 19, 23, 23]);
}

#[test]
fn physics_step_moves_and_wraps_animation() {
    let mut p = Player { x: 9, y: 50, velocity: 6, frame: 5 };
    p.gravity_and_move();
    assert_eq!(p, Player { x: 10, y: 60, velocity: 10, frame: 0 });
}

#[test]
fn vertical_position_never_negative() {
    let mut p = Player::new(0, 3);
    p.flap();
    p.gravity_and_move();
    assert_eq!(p.y, 0);
    for _ in 0..5 {
        p.flap();
        p.gravity_and_move();
        assert!(p.y >= 0);
    }
}

#[test]
fn row_truncates_toward_zero() {
    assert_eq!(Player::new(0, 129).row(), 12);
    assert_eq!(Player::new(0, 130).row(), 13);
    assert_eq!(Player::new(0, -5).row(), 0);
    assert_eq!(Player::new(0, -19).row(), -1);
    assert_eq!(Player::new(0, -20).row(), -2);
    assert_eq!(Player::new(0, i32::MIN).row(), -214748364);
}

#[test]
fn obstacle_size_narrows_with_score() {
    for s in 0..40 {
        let o = Obstacle::new(7, s);
        assert_eq!(o.x, 7);
        assert_eq!(o.size, std::cmp::max(2, 20 - s));
        if s >= 18 {
            assert_eq!(o.size, 2);
        }
    }
    assert_eq!(Obstacle::new(0, 5).size, 15);
}

#[test]
fn obstacle_gap_stays_in_safe_band() {
    for _ in 0..500 {
        let o = Obstacle::new(0, 0);
        assert!(GAP_MIN <= o.gap_y && o.gap_y < GAP_MAX);
        assert!(10 <= o.gap_y && o.gap_y < 15);
    }
}

#[test]
fn collision_outside_gap_at_same_column() {
    let o = Obstacle::with_gap(30, 10, 12);
    assert_eq!(o.size, 10);
    // gap rows 7..=17
    assert!(o.hit_obstacle(&Player::new(30, 69)));
    assert!(o.hit_obstacle(&Player::new(30, 180)));
    assert!(!o.hit_obstacle(&Player::new(30, 70)));
    assert!(!o.hit_obstacle(&Player::new(30, 120)));
    assert!(!o.hit_obstacle(&Player::new(30, 179)));
}

#[test]
fn no_collision_in_another_column() {
    let o = Obstacle::with_gap(30, 10, 12);
    for y in [0, 50, 120, 200, 300] {
        assert!(!o.hit_obstacle(&Player::new(29, y)));
        assert!(!o.hit_obstacle(&Player::new(31, y)));
    }
}

#[test]
fn wall_rows_and_column() {
    let o = Obstacle::with_gap(50, 16, 12);
    assert_eq!(o.size, 4);
    let walls: Vec<i32> = (0..25).filter(|r| o.is_wall(*r)).collect();
    let expected: Vec<i32> = (0..10).chain(14..25).collect();
    assert_eq!(walls, expected);
    assert!(!o.is_wall(-1));
    assert!(!o.is_wall(25));
    assert_eq!(o.screen_x(20), 30);
}

#[test]
fn new_state_is_at_menu() {
    let s = State::new();
    assert_eq!(s.mode, GameMode::Menu);
    assert_eq!(s.player, Player::new(PLAYER_START_X, PLAYER_START_Y));
    assert_eq!((s.frame_time, s.score), (0, 0));
    assert_eq!((s.obstacle.x, s.obstacle.size), (SCREEN_WIDTH, 20));
}

#[test]
fn menu_quit_sets_flag_and_keeps_mode() {
    let mut s = State::new();
    let out = s.tick(16_000, Some(Key::Quit));
    assert!(out.quit);
    assert_eq!(out.screen, Screen::Menu);
    assert_eq!(s.mode, GameMode::Menu);
}

#[test]
fn menu_start_begins_play() {
    let mut s = State::new();
    s.player = Player { x: 77, y: 3, velocity: 9, frame: 4 };
    s.frame_time = 500;
    let out = s.tick(16_000, Some(Key::Start));
    assert!(!out.quit);
    assert_eq!(s.mode, GameMode::Playing);
    assert_eq!(s.player, Player { x: 5, y: 120, velocity: 0, frame: 0 });
    assert_eq!(s.frame_time, 0);
}

#[test]
fn leaving_the_field_ends_the_game() {
    let o = Obstacle::with_gap(100, 0, 12);
    let mut s = playing(Player { x: 5, y: 255, velocity: 24, frame: 0 }, o, 0);
    s.tick(70_000, None);
    assert_eq!(s.player.y, 279);
    assert_eq!(s.mode, GameMode::End);
}

#[test]
fn falling_from_the_start_ends_the_game() {
    let mut s = State::new();
    s.tick(0, Some(Key::Start));
    let mut steps = 0;
    while s.mode == GameMode::Playing {
        s.tick(61_000, None);
        steps += 1;
    }
    assert_eq!(steps, 9);
    assert_eq!(s.player.y, 276);
    assert_eq!(s.mode, GameMode::End);
}

#[test]
fn passing_an_obstacle_scores_and_places_the_next() {
    let o = Obstacle::with_gap(40, 3, 12);
    let mut s = playing(Player { x: 40, y: 120, velocity: 0, frame: 0 }, o, 3);
    let out = s.tick(61_000, None);
    assert_eq!(s.score, 4);
    assert_eq!(s.player.x, 41);
    assert_eq!(s.obstacle.x, SCREEN_WIDTH + 41);
    assert_eq!(s.obstacle.size, 16);
    assert!(s.obstacle.size <= o.size);
    assert_eq!(s.mode, GameMode::Playing);
    match out.screen {
        Screen::Playing { obstacle, score, .. } => {
            assert_eq!(obstacle, o);
            assert_eq!(score, 3);
        }
        _ => panic!("expected the playing screen"),
    }
}

#[test]
fn hitting_a_wall_ends_the_game() {
    let o = Obstacle::with_gap(41, 10, 12);
    let mut s = playing(Player { x: 40, y: 10, velocity: 0, frame: 0 }, o, 10);
    s.tick(61_000, None);
    assert_eq!(s.player.x, 41);
    assert_eq!(s.mode, GameMode::End);
    assert_eq!(s.score, 10);
}

#[test]
fn physics_waits_for_the_step_duration() {
    let o = Obstacle::with_gap(100, 0, 12);
    let mut s = playing(Player::new(5, 120), o, 0);
    s.tick(30_000, None);
    assert_eq!((s.frame_time, s.player.y), (30_000, 120));
    s.tick(30_000, None);
    assert_eq!((s.frame_time, s.player.y), (60_000, 120));
    s.tick(1, None);
    assert_eq!((s.frame_time, s.player.y, s.player.x), (0, 124, 6));
}

#[test]
fn flap_is_read_on_every_frame() {
    let o = Obstacle::with_gap(100, 0, 12);
    let mut s = playing(Player::new(5, 120), o, 0);
    s.tick(1_000, Some(Key::Flap));
    assert_eq!(s.player.velocity, -25);
    assert_eq!(s.player.y, 120);
    s.tick(60_000, None);
    assert_eq!(s.player.y, 99);
}

#[test]
fn idle_menu_and_death_screens_change_nothing() {
    let mut s = State::new();
    let before = (s.mode, s.score, s.player, s.obstacle, s.frame_time);
    for _ in 0..20 {
        let out = s.tick(100_000, None);
        assert!(!out.quit);
        let out = s.tick(100_000, Some(Key::Flap));
        assert!(!out.quit);
    }
    assert_eq!(before, (s.mode, s.score, s.player, s.obstacle, s.frame_time));

    let mut d = State { mode: GameMode::End, score: 7, ..State::new() };
    let before = (d.mode, d.score, d.player, d.obstacle, d.frame_time);
    for _ in 0..20 {
        let out = d.tick(100_000, None);
        assert_eq!(out.screen, Screen::Dead { score: 7 });
        assert!(!out.quit);
        assert!(!d.main_menu(None));
        assert!(!d.dead(None));
    }
    assert_eq!(before, (d.mode, d.score, d.player, d.obstacle, d.frame_time));
}

#[test]
fn death_screen_restart_and_quit() {
    let mut d = State { mode: GameMode::End, score: 7, ..State::new() };
    assert!(d.tick(0, Some(Key::Quit)).quit);
    assert_eq!(d.mode, GameMode::End);
    let out = d.tick(0, Some(Key::Start));
    assert_eq!(out.screen, Screen::Dead { score: 7 });
    assert_eq!(d.mode, GameMode::Playing);
    assert_eq!(d.score, 0);
    assert_eq!(d.player, Player::new(5, 120));
}
