//! Tests of the duel state machine: phase transitions, turn alternation,
//! answer validation, the end condition, and the bounded message log.

use nerd_duels::game::{FrameInput, Game, GameState, InGameState};
use nerd_duels::nerds::{Action, ActionType, Nerd, Nerds};

fn catalog(damage: i32) -> [Action; 4] {
    [
        Action::new("Slap", ActionType::Damage, damage),
        Action::new("Band-Aid", ActionType::Heal, 2),
        Action::new("Pinch", ActionType::Weaken, 2),
        Action::new("Khan Academy", ActionType::Strengthen, 2),
    ]
}

fn quiet() -> FrameInput {
    FrameInput {
        intro_done: false,
        nerds_chosen: None,
        action_chosen: None,
        back: false,
        math_chosen: None,
        critical: false,
    }
}

fn pair(a_health: i32, b_health: i32, damage: i32) -> Nerds {
    [
        Nerd::new("A", a_health, catalog(damage), ""),
        Nerd::new("B", b_health, catalog(damage), ""),
    ]
}

/// Drives a fresh game to the choosing phase with the given combatants.
fn started(nerds: Nerds) -> Game {
    let mut g = Game::new();
    g.update(FrameInput { intro_done: true, ..quiet() });
    assert_eq!(g.game_state, GameState::MainMenu);
    g.update(FrameInput { nerds_chosen: Some(nerds), ..quiet() });
    assert_eq!(g.game_state, GameState::InGame(InGameState::Choosing));
    assert_eq!(g.current_nerd, 0);
    g
}

#[test]
fn intro_waits_until_done() {
    let mut g = Game::new();
    assert_eq!(g.game_state, GameState::Intro);
    g.update(quiet());
    assert_eq!(g.game_state, GameState::Intro);
    g.update(FrameInput { intro_done: true, ..quiet() });
    assert_eq!(g.game_state, GameState::MainMenu);
}

#[test]
fn starting_logs_both_names() {
    let g = started(pair(200, 100, 6));
    assert_eq!(g.action_messages.len(), 1);
    assert_eq!(
        g.action_messages[0],
        "Two nerds bump into each other. A and B glare at each other. \
         The fight chant is heard. The AC Nerd Duels have begun."
    );
}

#[test]
fn correct_answer_applies_effect_and_flips_turn() {
    // Combatant A (health 200, multiplier 10), Damage base value 6,
    // against B (health 100, multiplier 10), no critical.
    let mut g = started(pair(200, 100, 6));
    g.update(FrameInput { action_chosen: Some(0), ..quiet() });
    assert_eq!(g.game_state, GameState::InGame(InGameState::Mathing));
    assert_eq!(g.equation, "100 - 6 * 10 * 1");
    assert_eq!(g.answer, 40);
    g.update(FrameInput { math_chosen: Some(40), ..quiet() });
    let nerds = g.nerds.unwrap();
    assert_eq!(nerds[1].health, 40);
    assert_eq!(nerds[0].health, 200);
    assert_eq!(g.current_nerd, 1);
    assert_eq!(g.game_state, GameState::InGame(InGameState::Choosing));
    assert_eq!(g.action_messages.last().unwrap().as_str(), "A used Slap (6d) against B");
}

#[test]
fn wrong_answer_has_no_side_effect_but_costs_the_turn() {
    let mut g = started(pair(200, 100, 6));
    g.update(FrameInput { action_chosen: Some(0), ..quiet() });
    let messages_before = g.action_messages.clone();
    g.update(FrameInput { math_chosen: Some(41), ..quiet() });
    let nerds = g.nerds.unwrap();
    assert_eq!(nerds[1].health, 100);
    assert_eq!(nerds[0].health, 200);
    assert_eq!(nerds[0].multiplier, 10);
    assert_eq!(nerds[1].multiplier, 10);
    assert_eq!(g.current_nerd, 1);
    assert_eq!(g.game_state, GameState::InGame(InGameState::Choosing));
    assert_eq!(g.action_messages, messages_before);
}

#[test]
fn cancel_returns_to_choosing_without_costing_the_turn() {
    let mut g = started(pair(200, 100, 6));
    g.update(FrameInput { action_chosen: Some(0), ..quiet() });
    assert_eq!(g.game_state, GameState::InGame(InGameState::Mathing));
    g.update(FrameInput { back: true, ..quiet() });
    assert_eq!(g.game_state, GameState::InGame(InGameState::Choosing));
    assert_eq!(g.current_nerd, 0);
    assert_eq!(g.equation, "");
    let nerds = g.nerds.unwrap();
    assert_eq!(nerds[0].health, 200);
    assert_eq!(nerds[1].health, 100);
}

#[test]
fn no_answer_yet_takes_no_transition() {
    let mut g = started(pair(200, 100, 6));
    g.update(FrameInput { action_chosen: Some(0), ..quiet() });
    let equation_before = g.equation.clone();
    g.update(quiet());
    assert_eq!(g.game_state, GameState::InGame(InGameState::Mathing));
    assert_eq!(g.equation, equation_before);
    assert_eq!(g.current_nerd, 0);
}

#[test]
fn critical_flag_scales_both_text_and_answer() {
    let mut g = started(pair(200, 100, 6));
    g.update(FrameInput { action_chosen: Some(0), critical: true, ..quiet() });
    assert_eq!(g.equation, "100 - 6 * 10 * 2");
    assert_eq!(g.answer, -20);
}

#[test]
fn health_zero_ends_the_duel_at_once() {
    // B at exactly 60: a damage resolution leaves health 0, which ends it.
    let mut g = started(pair(200, 60, 6));
    g.update(FrameInput { action_chosen: Some(0), ..quiet() });
    assert_eq!(g.answer, 0);
    g.update(FrameInput { math_chosen: Some(0), ..quiet() });
    assert_eq!(g.game_state, GameState::GameEnd);
    assert_eq!(
        g.action_messages.last().unwrap().as_str(),
        "As the dust settles, A looks down at the unconcious B \
         before being escorted to the principal's office."
    );
}

#[test]
fn health_one_does_not_end_the_duel() {
    // B at 61: the resolution leaves health exactly 1 — the boundary is
    // at zero, not one.
    let mut g = started(pair(200, 61, 6));
    g.update(FrameInput { action_chosen: Some(0), ..quiet() });
    assert_eq!(g.answer, 1);
    g.update(FrameInput { math_chosen: Some(1), ..quiet() });
    assert_eq!(g.game_state, GameState::InGame(InGameState::Choosing));
    assert_eq!(g.nerds.unwrap()[1].health, 1);
}

#[test]
fn negative_health_ends_the_duel() {
    let mut g = started(pair(200, 10, 6));
    g.update(FrameInput { action_chosen: Some(0), ..quiet() });
    assert_eq!(g.answer, -50);
    g.update(FrameInput { math_chosen: Some(-50), ..quiet() });
    assert_eq!(g.game_state, GameState::GameEnd);
}

#[test]
fn game_end_absorbs_all_inputs() {
    let mut g = started(pair(200, 60, 6));
    g.update(FrameInput { action_chosen: Some(0), ..quiet() });
    g.update(FrameInput { math_chosen: Some(0), ..quiet() });
    assert_eq!(g.game_state, GameState::GameEnd);
    let log_before = g.action_messages.clone();
    let health_before = g.nerds.unwrap()[1].health;
    g.update(FrameInput { action_chosen: Some(1), ..quiet() });
    g.update(FrameInput { math_chosen: Some(0), ..quiet() });
    g.update(FrameInput { intro_done: true, back: true, ..quiet() });
    assert_eq!(g.game_state, GameState::GameEnd);
    assert_eq!(g.action_messages, log_before);
    assert_eq!(g.nerds.unwrap()[1].health, health_before);
}

#[test]
fn turns_alternate_across_a_full_round() {
    let mut g = started(pair(200, 100, 6));
    g.update(FrameInput { action_chosen: Some(0), ..quiet() });
    g.update(FrameInput { math_chosen: Some(40), ..quiet() });
    assert_eq!(g.current_nerd, 1);
    g.update(FrameInput { action_chosen: Some(0), ..quiet() });
    assert_eq!(g.equation, "200 - 6 * 10 * 1");
    g.update(FrameInput { math_chosen: Some(140), ..quiet() });
    assert_eq!(g.current_nerd, 0);
    let nerds = g.nerds.unwrap();
    assert_eq!(nerds[0].health, 140);
    assert_eq!(nerds[1].health, 40);
}

#[test]
fn weaken_then_strengthen_touch_only_multipliers() {
    let mut g = started(pair(200, 100, 6));
    g.update(FrameInput { action_chosen: Some(2), ..quiet() });
    assert_eq!(g.equation, "10 - 2 * 1");
    g.update(FrameInput { math_chosen: Some(8), ..quiet() });
    let nerds = g.nerds.unwrap();
    assert_eq!(nerds[1].multiplier, 8);
    assert_eq!(nerds[1].health, 100);
    g.update(FrameInput { action_chosen: Some(3), critical: true, ..quiet() });
    assert_eq!(g.equation, "8 + 2 * 2");
    g.update(FrameInput { math_chosen: Some(12), ..quiet() });
    let nerds = g.nerds.unwrap();
    assert_eq!(nerds[1].multiplier, 12);
    assert_eq!(nerds[0].health, 200);
}

#[test]
fn overflowing_turn_value_refuses_the_selection() {
    let mut a = Nerd::new("A", 200, catalog(i32::MAX), "");
    a.multiplier = i32::MAX;
    let b = Nerd::new("B", 100, catalog(6), "");
    let mut g = started([a, b]);
    g.update(FrameInput { action_chosen: Some(0), ..quiet() });
    assert_eq!(g.game_state, GameState::InGame(InGameState::Choosing));
    assert_eq!(g.current_nerd, 0);
}

#[test]
fn message_log_keeps_only_the_latest_five() {
    let mut g = Game::new();
    for i in 0..7 {
        g.add_action_message(&format!("message {}", i));
    }
    assert_eq!(g.action_messages.len(), 5);
    assert_eq!(g.action_messages[0], "message 2");
    assert_eq!(g.action_messages[4], "message 6");
}

#[test]
fn game_ended_reports_winner_then_loser() {
    let mut g = started(pair(200, 100, 6));
    assert!(g.game_ended().is_none());
    let mut nerds = g.nerds.unwrap();
    nerds[0].health = 0;
    g.nerds = Some(nerds);
    assert_eq!(g.game_ended().unwrap(), ["B", "A"]);
    let mut nerds = g.nerds.unwrap();
    nerds[0].health = 200;
    nerds[1].health = -3;
    g.nerds = Some(nerds);
    assert_eq!(g.game_ended().unwrap(), ["A", "B"]);
}

#[test]
fn dead_on_arrival_ends_before_any_action() {
    // A duel started with an already-defeated combatant closes on the
    // first choosing frame, and the chosen action is not taken up.
    let mut g = started(pair(0, 100, 6));
    g.update(FrameInput { action_chosen: Some(0), ..quiet() });
    assert_eq!(g.game_state, GameState::GameEnd);
    assert_eq!(
        g.action_messages.last().unwrap().as_str(),
        "As the dust settles, B looks down at the unconcious A \
         before being escorted to the principal's office."
    );
}
