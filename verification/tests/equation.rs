//! Tests of the equation/resolution algorithm: exact equation text,
//! exact answers, the critical factor, and the consistency of the two.

use nerd_duels::nerds::{Action, ActionType, Nerd};

fn catalog() -> [Action; 4] {
    [
        Action::new("Slap", ActionType::Damage, 6),
        Action::new("Band-Aid", ActionType::Heal, 2),
        Action::new("Pinch", ActionType::Weaken, 3),
        Action::new("Khan Academy", ActionType::Strengthen, 1),
    ]
}

/// Evaluates an equation of the shape `a op b * c (* d)`, with `*` binding
/// tighter than the leading `+`/`-`, exactly as a player would.
fn eval_equation(text: &str) -> i64 {
    let tokens: Vec<&str> = text.split(' ').collect();
    assert!(tokens.len() == 5 || tokens.len() == 7, "unexpected shape: {}", text);
    let first: i64 = tokens[0].parse().expect("leading operand");
    let mut product: i64 = tokens[2].parse().expect("factor");
    let mut i = 3;
    while i + 1 < tokens.len() {
        assert_eq!(tokens[i], "*");
        let factor: i64 = tokens[i + 1].parse().expect("factor");
        product *= factor;
        i += 2;
    }
    match tokens[1] {
        "+" => first + product,
        "-" => first - product,
        op => panic!("unexpected operator {}", op),
    }
}

#[test]
fn damage_equation_concrete() {
    let a = Nerd::new("A", 200, catalog(), "");
    let b = Nerd::new("B", 100, catalog(), "");
    let (text, value) = a.equation(0, &b, false);
    assert_eq!(text, "100 - 6 * 10 * 1");
    assert_eq!(value, 40);
}

#[test]
fn damage_equation_critical() {
    let a = Nerd::new("A", 200, catalog(), "");
    let b = Nerd::new("B", 100, catalog(), "");
    let (text, value) = a.equation(0, &b, true);
    assert_eq!(text, "100 - 6 * 10 * 2");
    assert_eq!(value, 100 - 6 * 10 * 2);
    assert_eq!(value, -20);
}

#[test]
fn heal_equation_concrete() {
    let a = Nerd::new("A", 200, catalog(), "");
    let b = Nerd::new("B", 100, catalog(), "");
    let (text, value) = a.equation(1, &b, false);
    assert_eq!(text, "200 + 2 * 10 * 1");
    assert_eq!(value, 220);
}

#[test]
fn weaken_equation_concrete() {
    let a = Nerd::new("A", 200, catalog(), "");
    let b = Nerd::new("B", 100, catalog(), "");
    let (text, value) = a.equation(2, &b, false);
    assert_eq!(text, "10 - 3 * 1");
    assert_eq!(value, 7);
}

#[test]
fn strengthen_equation_critical() {
    let a = Nerd::new("A", 200, catalog(), "");
    let b = Nerd::new("B", 100, catalog(), "");
    let (text, value) = a.equation(3, &b, true);
    assert_eq!(text, "10 + 1 * 2");
    assert_eq!(value, 12);
}

#[test]
fn equation_text_evaluates_to_answer_all_kinds() {
    let a = Nerd::new("A", 321, catalog(), "");
    let b = Nerd::new("B", 45, catalog(), "");
    for action in 0..4usize {
        for &critical in &[false, true] {
            let (text, value) = a.equation(action, &b, critical);
            assert_eq!(
                eval_equation(&text),
                i64::from(value),
                "action {} critical {}: {}",
                action,
                critical,
                text
            );
        }
    }
}

#[test]
fn equation_is_deterministic() {
    let a = Nerd::new("A", 321, catalog(), "");
    let b = Nerd::new("B", 45, catalog(), "");
    for action in 0..4usize {
        for &critical in &[false, true] {
            let first = a.equation(action, &b, critical);
            let second = a.equation(action, &b, critical);
            assert_eq!(first.0, second.0);
            assert_eq!(first.1, second.1);
        }
    }
}

#[test]
fn negative_operands_render_with_sign() {
    let mut weakened = Nerd::new("A", 200, catalog(), "");
    weakened.multiplier = -4;
    let b = Nerd::new("B", 100, catalog(), "");
    let (text, value) = weakened.equation(0, &b, false);
    assert_eq!(text, "100 - 6 * -4 * 1");
    assert_eq!(value, 124);
    assert_eq!(eval_equation(&text), i64::from(value));
}

#[test]
fn negative_multiplier_inverts_damage() {
    // The multiplier has no floor: once weakened below zero, a Damage
    // action raises the target's health.
    let mut a = Nerd::new("A", 200, catalog(), "");
    a.multiplier = -1;
    let b = Nerd::new("B", 100, catalog(), "");
    let (_, value) = a.equation(0, &b, false);
    assert_eq!(value, 106);
}

#[test]
fn answer_in_range_detects_overflow() {
    let mut a = Nerd::new("A", 200, catalog(), "");
    a.multiplier = i32::MAX;
    let mut big = catalog();
    big[0] = Action::new("Slam", ActionType::Damage, i32::MAX);
    a.actions = big;
    let b = Nerd::new("B", 100, catalog(), "");
    assert!(!nerd_duels::nerds::answer_in_range(&a, &b, 0, false));
    let small = Nerd::new("A", 200, catalog(), "");
    assert!(nerd_duels::nerds::answer_in_range(&small, &b, 0, true));
}

#[test]
fn action_name_has_value_and_kind_suffix() {
    let acts = catalog();
    assert_eq!(acts[0].name(), "Slap (6d)");
    assert_eq!(acts[1].name(), "Band-Aid (2h)");
    assert_eq!(acts[2].name(), "Pinch (3w)");
    assert_eq!(acts[3].name(), "Khan Academy (1s)");
}

#[test]
fn use_action_assigns_precomputed_values() {
    let mut a = Nerd::new("A", 200, catalog(), "");
    let mut b = Nerd::new("B", 100, catalog(), "");
    let msg = a.use_action(0, 40, false, &mut b);
    assert_eq!(b.health, 40);
    assert_eq!(a.health, 200);
    assert_eq!(msg, "A used Slap (6d) against B");

    let msg = a.use_action(1, 220, false, &mut b);
    assert_eq!(a.health, 220);
    assert_eq!(b.health, 40);
    assert_eq!(msg, "A used Band-Aid (2h) against B");

    let msg = a.use_action(2, 7, true, &mut b);
    assert_eq!(b.multiplier, 7);
    assert_eq!(msg, "A used Pinch (3w) against B (CRITICAL!!!)");

    let msg = a.use_action(3, 12, true, &mut b);
    assert_eq!(a.multiplier, 12);
    assert_eq!(msg, "A used Khan Academy (1s) against B (CRITICAL!!!)");
}

#[test]
fn damage_and_heal_do_not_annotate_criticals() {
    let mut a = Nerd::new("A", 200, catalog(), "");
    let mut b = Nerd::new("B", 100, catalog(), "");
    let msg = a.use_action(0, 40, true, &mut b);
    assert_eq!(msg, "A used Slap (6d) against B");
    let msg = a.use_action(1, 220, true, &mut b);
    assert_eq!(msg, "A used Band-Aid (2h) against B");
}

#[test]
fn critical_from_roll_boundary() {
    assert!(nerd_duels::nerds::critical_from_roll(0));
    assert!(nerd_duels::nerds::critical_from_roll(19));
    assert!(!nerd_duels::nerds::critical_from_roll(20));
    assert!(!nerd_duels::nerds::critical_from_roll(99));
}

#[test]
fn critical_roll_smoke() {
    // The draw itself is random; only its type and availability can be
    // checked here.
    let _: bool = Nerd::critical();
}

#[test]
fn templates_have_expected_stats() {
    let joe = nerd_duels::nerds::joe();
    assert_eq!(joe.name, "Joe");
    assert_eq!(joe.health, 200);
    assert_eq!(joe.multiplier, 10);
    assert_eq!(joe.actions[0].name(), "Slap (3d)");

    let isaac = nerd_duels::nerds::isaac();
    assert_eq!(isaac.health, 100);
    let william = nerd_duels::nerds::william();
    assert_eq!(william.health, 400);
    let suzie = nerd_duels::nerds::suzie();
    assert_eq!(suzie.health, 200);
    let yamin = nerd_duels::nerds::yamin();
    assert_eq!(yamin.health, 1000000);
    assert_eq!(yamin.actions[3].name(), "Do figuratively nothing (100s)");
}
