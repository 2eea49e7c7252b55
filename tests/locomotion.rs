use adventurer::animation::{next_frame, FixedClock, FRAME_COUNT, MAX_TICKS_PER_UPDATE, TICK_PERIOD_MICROS};
use adventurer::game::{spawn_player, transition_effect, Effect, GameContext, Phase};
use adventurer::motion::{sample_intent, Coord, KeyState, Position, SPEED};

fn keys(w: bool, a: bool, s: bool, d: bool) -> KeyState {
    KeyState { w, a, s, d }
}

fn world_value(c: Coord) -> f64 {
    c.whole as f64 + c.surd as f64 * std::f64::consts::FRAC_1_SQRT_2
}

fn menu_game() -> GameContext {
    let mut g = GameContext::new();
    assert!(g.assets_loaded());
    g
}

#[test]
fn intent_signs_for_all_key_combinations() {
    for bits in 0u8..16 {
        let (w, a, s, d) = (bits & 1 != 0, bits & 2 != 0, bits & 4 != 0, bits & 8 != 0);
        let i = sample_intent(keys(w, a, s, d));
        let ex = (d as i8) - (a as i8);
        let ey = (w as i8) - (s as i8);
        assert_eq!((i.x, i.y), (ex, ey), "keys w={} a={} s={} d={}", w, a, s, d);
    }
}

#[test]
fn no_keys_gives_zero_intent_and_no_motion() {
    let i = sample_intent(keys(false, false, false, false));
    assert!(i.is_zero());
    let mut g = menu_game();
    let before = g.player.unwrap().position;
    g.move_player(keys(false, false, false, false));
    assert_eq!(g.player.unwrap().position, before);
}

#[test]
fn opposite_keys_cancel() {
    let mut g = menu_game();
    let before = g.player.unwrap().position;
    g.move_player(keys(true, true, true, true));
    assert_eq!(g.player.unwrap().position, before);
    g.move_player(keys(true, false, true, false));
    assert_eq!(g.player.unwrap().position, before);
}

#[test]
fn hold_w_moves_up_by_speed() {
    let mut g = menu_game();
    g.move_player(keys(true, false, false, false));
    let p = g.player.unwrap().position;
    assert_eq!(p, Position { x: Coord { whole: 0, surd: 0 }, y: Coord { whole: 155, surd: 0 } });
}

#[test]
fn hold_w_and_d_moves_diagonally() {
    let mut g = menu_game();
    g.move_player(keys(true, false, false, true));
    let p = g.player.unwrap().position;
    assert_eq!(p.x, Coord { whole: 0, surd: 5 });
    assert_eq!(p.y, Coord { whole: 150, surd: 5 });
    let step = 5.0 / 2f64.sqrt();
    assert!((world_value(p.x) - step).abs() < 1e-9);
    assert!((world_value(p.y) - (150.0 + step)).abs() < 1e-9);
}

#[test]
fn every_step_has_length_speed() {
    for bits in 0u8..16 {
        let k = keys(bits & 1 != 0, bits & 2 != 0, bits & 4 != 0, bits & 8 != 0);
        let mut p = Position::at(0, 0);
        let i = sample_intent(k);
        p.integrate(i);
        let len = (world_value(p.x).powi(2) + world_value(p.y).powi(2)).sqrt();
        if i.is_zero() {
            assert_eq!(p, Position::at(0, 0));
        } else {
            assert!((len - SPEED as f64).abs() < 1e-6, "length {} for {:?}", len, k);
        }
    }
}

#[test]
fn repeated_passes_accumulate() {
    let mut g = menu_game();
    for _ in 0..10 {
        g.move_player(keys(false, true, false, false));
    }
    assert_eq!(g.player.unwrap().position, Position::at(-50, 150));
    for _ in 0..4 {
        g.move_player(keys(false, false, true, true));
    }
    let p = g.player.unwrap().position;
    assert_eq!(p.x, Coord { whole: -50, surd: 20 });
    assert_eq!(p.y, Coord { whole: 150, surd: -20 });
    let dx = world_value(p.x) + 50.0;
    let dy = world_value(p.y) - 150.0;
    assert!(((dx * dx + dy * dy).sqrt() - 20.0).abs() < 1e-9);
}

#[test]
fn move_that_cannot_be_stored_is_skipped() {
    let mut p = Position::at(i64::MAX - 2, 0);
    p.integrate(sample_intent(keys(false, false, false, true)));
    assert_eq!(p, Position::at(i64::MAX - 2, 0));
    p.integrate(sample_intent(keys(false, true, false, false)));
    assert_eq!(p, Position::at(i64::MAX - 7, 0));
}

#[test]
fn frame_index_after_k_ticks_is_k_mod_8() {
    let mut g = menu_game();
    for k in 1..=40u32 {
        g.animate_player();
        let f = g.player.unwrap().frame_index;
        assert_eq!(f, k % 8);
        assert!(f < FRAME_COUNT);
    }
}

#[test]
fn next_frame_wraps() {
    assert_eq!(next_frame(0), 1);
    assert_eq!(next_frame(6), 7);
    assert_eq!(next_frame(7), 0);
}

#[test]
fn clock_fires_once_per_period() {
    let mut c = FixedClock::new();
    assert_eq!(c.advance(124_999), 0);
    assert_eq!(c.carried_micros, 124_999);
    assert_eq!(c.advance(1), 1);
    assert_eq!(c.carried_micros, 0);
    assert_eq!(c.advance(TICK_PERIOD_MICROS * 2 + 10), 2);
    assert_eq!(c.carried_micros, 10);
}

#[test]
fn clock_caps_catch_up() {
    let mut c = FixedClock::new();
    assert_eq!(c.advance(TICK_PERIOD_MICROS * 100 + 7), MAX_TICKS_PER_UPDATE);
    assert_eq!(c.carried_micros, 7);
    let mut d = FixedClock { carried_micros: TICK_PERIOD_MICROS - 1 };
    assert_eq!(d.advance(u64::MAX), MAX_TICKS_PER_UPDATE);
    assert_eq!(d.carried_micros as u128, ((TICK_PERIOD_MICROS - 1) as u128 + u64::MAX as u128) % TICK_PERIOD_MICROS as u128);
}

#[test]
fn loading_phase_runs_no_systems() {
    let mut g = GameContext::new();
    assert_eq!(g.phase, Phase::Loading);
    assert!(g.player.is_none());
    let t = g.update(keys(true, false, false, true), 300_000);
    assert_eq!(t, 2);
    g.move_player(keys(true, false, false, false));
    g.animate_player();
    assert!(g.player.is_none());
    assert_eq!(g.phase, Phase::Loading);
    assert!(g.assets_loaded());
    assert_eq!(g.phase, Phase::Menu);
    assert_eq!(g.player, Some(spawn_player()));
    let p = g.player.unwrap();
    assert_eq!(p.position, Position::at(0, 150));
    assert_eq!(p.frame_index, 0);
}

#[test]
fn assets_loaded_spawns_once() {
    let mut g = menu_game();
    g.move_player(keys(true, false, false, false));
    let before = g.player;
    assert!(!g.assets_loaded());
    assert_eq!(g.phase, Phase::Menu);
    assert_eq!(g.player, before);
}

#[test]
fn update_in_menu_moves_and_animates() {
    let mut g = menu_game();
    let t = g.update(keys(true, false, false, false), 260_000);
    assert_eq!(t, 2);
    let p = g.player.unwrap();
    assert_eq!(p.position, Position::at(0, 155));
    assert_eq!(p.frame_index, 2);
    assert_eq!(g.clock.carried_micros, 10_000);
    let t = g.update(keys(false, false, false, false), 115_000);
    assert_eq!(t, 1);
    assert_eq!(g.player.unwrap().frame_index, 3);
    assert_eq!(g.player.unwrap().position, Position::at(0, 155));
}

#[test]
fn only_loading_to_menu_spawns() {
    assert_eq!(transition_effect(Phase::Loading, Phase::Menu), Some(Effect::SpawnPlayer));
    assert_eq!(transition_effect(Phase::Menu, Phase::InGame), None);
    assert_eq!(transition_effect(Phase::Loading, Phase::InGame), None);
    assert_eq!(transition_effect(Phase::Menu, Phase::Menu), None);
}

#[test]
fn in_game_phase_is_not_gated_in() {
    let mut g = GameContext::new();
    g.phase = Phase::InGame;
    g.update(keys(true, false, false, false), 500_000);
    assert!(g.player.is_none());
    assert_eq!(g.phase, Phase::InGame);
}
