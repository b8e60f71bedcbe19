use snake_core::Direction;
use snake_core::Game;
use snake_core::GameSettings;
use snake_core::Segment;
use snake_core::game::round_to_nearest_10;
use snake_core::speed::current_interval_micros;

fn seg(x: i64, y: i64) -> Segment {
    Segment { x, y }
}

fn settings() -> GameSettings {
    GameSettings { progressive_speed: true, allow_teleport: false }
}

#[test]
fn fresh_game_reports_base_interval() {
    let g = Game::new();
    assert_eq!(g.get_current_speed_info(), (125_000, true));
}

#[test]
fn toggling_switches_to_fixed_interval() {
    let mut g = Game::new();
    g.toggle_progressive_speed();
    assert_eq!(g.get_current_speed_info(), (66_667, false));
    g.toggle_progressive_speed();
    assert_eq!(g.get_current_speed_info(), (125_000, true));
}

#[test]
fn progressive_interval_shrinks_with_score() {
    // multiplier 100 + 5 * score, so score 2 gives 12_500_000 / 110.
    let body = vec![seg(5, 3), seg(4, 3), seg(3, 3), seg(2, 3), seg(1, 3)];
    let g = Game::from_parts(body, Direction::Right, seg(10, 10), settings()).unwrap();
    assert_eq!(g.score, 2);
    assert_eq!(g.get_current_speed_info(), (113_636, true));
}

#[test]
fn progressive_interval_caps_at_triple_speed() {
    assert_eq!(current_interval_micros(40, true), 41_666);
    assert_eq!(current_interval_micros(1_000_000, true), 41_666);
}

#[test]
fn interval_formula_exact_values() {
    assert_eq!(current_interval_micros(0, true), 125_000);
    assert_eq!(current_interval_micros(1, true), 119_047);
    assert_eq!(current_interval_micros(10, true), 83_333);
    assert_eq!(current_interval_micros(0, false), 66_667);
    assert_eq!(current_interval_micros(10, false), 66_667);
}

#[test]
fn rounds_to_nearest_multiple_of_ten() {
    assert_eq!(round_to_nearest_10(0), 0);
    assert_eq!(round_to_nearest_10(14), 10);
    assert_eq!(round_to_nearest_10(15), 10);
    assert_eq!(round_to_nearest_10(16), 20);
    assert_eq!(round_to_nearest_10(26), 30);
    assert_eq!(round_to_nearest_10(100), 100);
}

#[test]
fn negative_values_round_with_truncating_quotient() {
    assert_eq!(round_to_nearest_10(-7), 0);
    assert_eq!(round_to_nearest_10(-15), -10);
    assert_eq!(round_to_nearest_10(-16), -10);
}
