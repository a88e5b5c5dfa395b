//! Combatants ("nerds"), their action catalog, and the equation/resolution
//! algorithm: the deterministic core that turns a chosen action into an
//! arithmetic equation and the value a correct answer applies.

use vstd::prelude::*;

use crate::text::{
    int_to_string, lemma_int_chars_no_space, lemma_parse_int_of_chars, lemma_split_prefix,
    lemma_split_whole, spec_int_chars, spec_no_space, spec_parse_int, spec_split_spaces,
};

verus! {

/// Every combatant starts with this stat multiplier.
pub const BASE_MULTIPLIER: i32 = 10;

/// A critical hit is rolled with this percent chance.
pub const CRITICAL_CHANCE: i32 = 20;

/// A critical hit scales the action's contribution by this factor.
pub const CRITICAL_MULTIPLIER: i32 = 2;

/// The two players of one duel.
pub type Nerds = [Nerd; 2];

/// What an action does, and to whom: Damage and Weaken strike the
/// opponent's health and multiplier; Heal and Strengthen raise the
/// actor's own.
#[derive(Copy, Clone, Debug, PartialEq, Eq, Structural)]
pub enum ActionType {
    Damage,
    Heal,
    Weaken,
    Strengthen,
}

/// One entry of a combatant's action catalog: a display name, a kind,
/// and the base magnitude the resolution algorithm scales.
#[derive(Copy, Clone, Debug)]
pub struct Action {
    pub name: &'static str,
    pub action_type: ActionType,
    pub value: i32,
}

/// A combatant: an immutable template (name, actions, sprite) together
/// with the mutable runtime stats health and multiplier.
#[derive(Copy, Clone, Debug)]
pub struct Nerd {
    pub name: &'static str,
    pub health: i32,
    pub multiplier: i32,
    pub actions: [Action; 4],
    pub sprite: &'static str,
}

/// The factor a critical roll applies to an action's contribution.
pub open spec fn spec_crit_factor(critical: bool) -> int {
    if critical {
        CRITICAL_MULTIPLIER as int
    } else {
        1
    }
}

/// The value the resolution algorithm computes for one turn: the full new
/// stat value (not a delta) that a correct answer assigns.
///
/// The multiplier has no floor: repeated weakening may drive it to zero or
/// below, after which a negative multiplier inverts the sign of Damage and
/// Heal contributions. That is deliberate and pinned here rather than
/// silently clamped.
pub open spec fn spec_answer(actor: Nerd, target: Nerd, action: int, critical: bool) -> int {
    let a = actor.actions[action];
    match a.action_type {
        ActionType::Damage => target.health - a.value * actor.multiplier * spec_crit_factor(
            critical,
        ),
        ActionType::Heal => actor.health + a.value * actor.multiplier * spec_crit_factor(critical),
        ActionType::Weaken => target.multiplier - a.value * spec_crit_factor(critical),
        ActionType::Strengthen => actor.multiplier + a.value * spec_crit_factor(critical),
    }
}

/// Whether the turn's computed value fits the stat fields' machine integers.
pub open spec fn spec_answer_fits(actor: Nerd, target: Nerd, action: int, critical: bool) -> bool {
    i32::MIN <= spec_answer(actor, target, action, critical) <= i32::MAX
}

/// The separator around the equation's leading operator.
pub open spec fn spec_op_sep(add: bool) -> Seq<char> {
    if add {
        " + "@
    } else {
        " - "@
    }
}

/// The separator between the equation's factors.
pub open spec fn spec_factor_sep() -> Seq<char> {
    " * "@
}

/// The text of an expression `first op x * y * z`.
pub open spec fn spec_expr3_text(first: int, add: bool, x: int, y: int, z: int) -> Seq<char> {
    spec_int_chars(first) + spec_op_sep(add) + spec_int_chars(x) + spec_factor_sep()
        + spec_int_chars(y) + spec_factor_sep() + spec_int_chars(z)
}

/// The value of an expression `first op x * y * z`.
pub open spec fn spec_expr3_value(first: int, add: bool, x: int, y: int, z: int) -> int {
    if add {
        first + x * y * z
    } else {
        first - x * y * z
    }
}

/// The text of an expression `first op x * z`.
pub open spec fn spec_expr2_text(first: int, add: bool, x: int, z: int) -> Seq<char> {
    spec_int_chars(first) + spec_op_sep(add) + spec_int_chars(x) + spec_factor_sep()
        + spec_int_chars(z)
}

/// The value of an expression `first op x * z`.
pub open spec fn spec_expr2_value(first: int, add: bool, x: int, z: int) -> int {
    if add {
        first + x * z
    } else {
        first - x * z
    }
}

/// The equation shown to the acting player: the same operands and operator
/// layout, per action kind, whose evaluation `spec_answer` states.
pub open spec fn spec_equation_text(
    actor: Nerd,
    target: Nerd,
    action: int,
    critical: bool,
) -> Seq<char> {
    let a = actor.actions[action];
    let c = spec_crit_factor(critical);
    match a.action_type {
        ActionType::Damage => spec_expr3_text(
            target.health as int,
            false,
            a.value as int,
            actor.multiplier as int,
            c,
        ),
        ActionType::Heal => spec_expr3_text(
            actor.health as int,
            true,
            a.value as int,
            actor.multiplier as int,
            c,
        ),
        ActionType::Weaken => spec_expr2_text(target.multiplier as int, false, a.value as int, c),
        ActionType::Strengthen => spec_expr2_text(
            actor.multiplier as int,
            true,
            a.value as int,
            c,
        ),
    }
}

/// Evaluates an equation text as an arithmetic expression, the way the
/// acting player reads it: tokens separated by single spaces, one leading
/// `+` or `-`, then a product, with `*` binding tighter. Anything else is
/// no equation.
pub open spec fn spec_eval_equation(s: Seq<char>) -> Option<int> {
    let toks = spec_split_spaces(s);
    if toks.len() == 5 && (toks[1] == seq!['+'] || toks[1] == seq!['-']) && toks[3] == seq!['*'] {
        let first = spec_parse_int(toks[0]);
        let x = spec_parse_int(toks[2]);
        let z = spec_parse_int(toks[4]);
        if first is Some && x is Some && z is Some {
            let product = x.unwrap() * z.unwrap();
            if toks[1] == seq!['+'] {
                Some(first.unwrap() + product)
            } else {
                Some(first.unwrap() - product)
            }
        } else {
            None
        }
    } else if toks.len() == 7 && (toks[1] == seq!['+'] || toks[1] == seq!['-']) && toks[3]
        == seq!['*'] && toks[5] == seq!['*'] {
        let first = spec_parse_int(toks[0]);
        let x = spec_parse_int(toks[2]);
        let y = spec_parse_int(toks[4]);
        let z = spec_parse_int(toks[6]);
        if first is Some && x is Some && y is Some && z is Some {
            let product = x.unwrap() * y.unwrap() * z.unwrap();
            if toks[1] == seq!['+'] {
                Some(first.unwrap() + product)
            } else {
                Some(first.unwrap() - product)
            }
        } else {
            None
        }
    } else {
        None
    }
}

/// The display name of an action: its base name, then the base value and a
/// one-letter kind suffix in parentheses.
pub open spec fn spec_action_name(a: Action) -> Seq<char> {
    let suffix = match a.action_type {
        ActionType::Damage => "d)"@,
        ActionType::Heal => "h)"@,
        ActionType::Weaken => "w)"@,
        ActionType::Strengthen => "s)"@,
    };
    a.name@ + " ("@ + spec_int_chars(a.value as int) + suffix
}

/// The log message of a resolved action. Only Weaken and Strengthen
/// annotate a critical hit in the message.
pub open spec fn spec_action_message(
    actor: Nerd,
    action: int,
    critical: bool,
    target: Nerd,
) -> Seq<char> {
    let a = actor.actions[action];
    let annotation: Seq<char> = if critical && (a.action_type == ActionType::Weaken
        || a.action_type == ActionType::Strengthen) {
        " (CRITICAL!!!)"@
    } else {
        Seq::empty()
    };
    actor.name@ + " used "@ + spec_action_name(a) + " against "@ + target.name@ + annotation
}

/// Both stat assignments a correct answer can make, as one pair
/// `(new actor, new target)`: the action kind picks the field and the
/// owner, and the precomputed value is assigned outright.
pub open spec fn spec_apply(actor: Nerd, target: Nerd, action: int, value: i32) -> (Nerd, Nerd) {
    match actor.actions[action].action_type {
        ActionType::Damage => (actor, (Nerd { health: value, ..target })),
        ActionType::Heal => ((Nerd { health: value, ..actor }), target),
        ActionType::Weaken => (actor, (Nerd { multiplier: value, ..target })),
        ActionType::Strengthen => ((Nerd { multiplier: value, ..actor }), target),
    }
}

/// Whether an action carries exactly this name, kind and base value.
pub open spec fn spec_action_is(a: Action, name: Seq<char>, t: ActionType, value: i32) -> bool {
    a.name@ == name && a.action_type == t && a.value == value
}

proof fn lemma_mul_in_range(x: int, y: int, bx: int, by: int)
    by (nonlinear_arith)
    requires
        0 <= bx,
        0 <= by,
        -bx <= x <= bx,
        -by <= y <= by,
    ensures
        -(bx * by) <= x * y <= bx * by,
{
}

impl Action {
    /// Creates new stats for an action.
    pub fn new(name: &'static str, action_type: ActionType, value: i32) -> (a: Action)
        ensures
            a.name == name,
            a.action_type == action_type,
            a.value == value,
    {
        Action { name, action_type, value }
    }

    /// Returns the name of the action with its value and kind suffix.
    pub fn name(&self) -> (s: String)
        ensures
            s@ == spec_action_name(*self),
    {
        let mut s = String::from_str(self.name);
        s.append(" (");
        s.append(int_to_string(self.value).as_str());
        s.append(
            match self.action_type {
                ActionType::Damage => "d)",
                ActionType::Heal => "h)",
                ActionType::Weaken => "w)",
                ActionType::Strengthen => "s)",
            },
        );
        proof {
            assert(s@ =~= spec_action_name(*self));
        }
        s
    }
}

fn render_expr3(first: i32, add: bool, x: i32, y: i32, z: i32) -> (s: String)
    ensures
        s@ == spec_expr3_text(first as int, add, x as int, y as int, z as int),
{
    let mut s = int_to_string(first);
    s.append(
        if add {
            " + "
        } else {
            " - "
        },
    );
    s.append(int_to_string(x).as_str());
    s.append(" * ");
    s.append(int_to_string(y).as_str());
    s.append(" * ");
    s.append(int_to_string(z).as_str());
    proof {
        assert(s@ =~= spec_expr3_text(first as int, add, x as int, y as int, z as int));
    }
    s
}

fn render_expr2(first: i32, add: bool, x: i32, z: i32) -> (s: String)
    ensures
        s@ == spec_expr2_text(first as int, add, x as int, z as int),
{
    let mut s = int_to_string(first);
    s.append(
        if add {
            " + "
        } else {
            " - "
        },
    );
    s.append(int_to_string(x).as_str());
    s.append(" * ");
    s.append(int_to_string(z).as_str());
    proof {
        assert(s@ =~= spec_expr2_text(first as int, add, x as int, z as int));
    }
    s
}

/// Computes the turn's value in a wide integer, so that the result is exact
/// whatever the stats hold.
fn answer_value(actor: &Nerd, target: &Nerd, action: usize, critical: bool) -> (r: i128)
    requires
        action < 4,
    ensures
        r as int == spec_answer(*actor, *target, action as int, critical),
{
    let c: i128 = if critical {
        CRITICAL_MULTIPLIER as i128
    } else {
        1
    };
    let a = actor.actions[action];
    proof {
        lemma_mul_in_range(a.value as int, actor.multiplier as int, 0x8000_0000, 0x8000_0000);
        lemma_mul_in_range(
            (a.value as int) * (actor.multiplier as int),
            c as int,
            0x4000_0000_0000_0000,
            2,
        );
        lemma_mul_in_range(a.value as int, c as int, 0x8000_0000, 2);
    }
    match a.action_type {
        ActionType::Damage => (target.health as i128) - (a.value as i128) * (actor.multiplier
            as i128) * c,
        ActionType::Heal => (actor.health as i128) + (a.value as i128) * (actor.multiplier as i128)
            * c,
        ActionType::Weaken => (target.multiplier as i128) - (a.value as i128) * c,
        ActionType::Strengthen => (actor.multiplier as i128) + (a.value as i128) * c,
    }
}

/// Whether the turn's value fits an `i32`, checked in wide arithmetic.
pub fn answer_in_range(actor: &Nerd, target: &Nerd, action: usize, critical: bool) -> (b: bool)
    requires
        action < 4,
    ensures
        b == spec_answer_fits(*actor, *target, action as int, critical),
{
    let wide = answer_value(actor, target, action, critical);
    (i32::MIN as i128) <= wide && wide <= (i32::MAX as i128)
}

/// Relies on `fastrand::i32` over the range of percentages: per its source,
/// the draw is the range's start plus a residue modulo the range's length,
/// so it lies within the range.
#[verifier::external_body]
fn random_percent() -> (r: i32)
    ensures
        0 <= r < 100,
{
    fastrand::i32(0..100)
}

/// Whether a percent roll counts as a critical hit.
pub fn critical_from_roll(roll: i32) -> (c: bool)
    ensures
        c == (roll < CRITICAL_CHANCE),
{
    roll < CRITICAL_CHANCE
}

impl Nerd {
    /// Creates a new nerd from its template data, at the base multiplier.
    pub fn new(name: &'static str, health: i32, actions: [Action; 4], sprite: &'static str) -> (n:
        Nerd)
        ensures
            n.name == name,
            n.health == health,
            n.multiplier == BASE_MULTIPLIER,
            n.actions == actions,
            n.sprite == sprite,
    {
        Nerd { name, health, multiplier: BASE_MULTIPLIER, actions, sprite }
    }

    /// Returns the equation to be answered and the answer to it.
    ///
    /// The displayed text and the stored answer are generated together from
    /// the same critical flag and operands, so the two can never diverge.
    pub fn equation(&self, action: usize, nerd: &Nerd, critical: bool) -> (r: (String, i32))
        requires
            action < 4,
            spec_answer_fits(*self, *nerd, action as int, critical),
        ensures
            r.0@ == spec_equation_text(*self, *nerd, action as int, critical),
            r.1 as int == spec_answer(*self, *nerd, action as int, critical),
    {
        let crit: i32 = if critical {
            CRITICAL_MULTIPLIER
        } else {
            1
        };
        let wide = answer_value(self, nerd, action, critical);
        let value = wide as i32;
        let a = self.actions[action];
        let text = match a.action_type {
            ActionType::Damage => render_expr3(nerd.health, false, a.value, self.multiplier, crit),
            ActionType::Heal => render_expr3(self.health, true, a.value, self.multiplier, crit),
            ActionType::Weaken => render_expr2(nerd.multiplier, false, a.value, crit),
            ActionType::Strengthen => render_expr2(self.multiplier, true, a.value, crit),
        };
        (text, value)
    }

    /// Rolls whether this turn's action lands a critical hit.
    ///
    /// The roll is the engine's one source of randomness; nothing can be
    /// promised of its outcome beyond being a boolean. Callers that need a
    /// fixed sequence inject the flag themselves and use
    /// `critical_from_roll` on a roll of their own.
    pub fn critical() -> bool {
        critical_from_roll(random_percent())
    }

    /// Applies the given action index: assigns the precomputed value to the
    /// field and owner the action kind picks, and returns the log message.
    pub fn use_action(&mut self, action: usize, value: i32, critical: bool, nerd: &mut Nerd) -> (msg:
        String)
        requires
            action < 4,
        ensures
            (*final(self), *final(nerd)) == spec_apply(*old(self), *old(nerd), action as int, value),
            msg@ == spec_action_message(*old(self), action as int, critical, *old(nerd)),
    {
        match self.actions[action].action_type {
            ActionType::Damage => nerd.health = value,
            ActionType::Heal => self.health = value,
            ActionType::Weaken => nerd.multiplier = value,
            ActionType::Strengthen => self.multiplier = value,
        }
        self.action_message(action, critical, nerd)
    }

    /// Returns the message to be displayed as the result of an action.
    fn action_message(&self, action: usize, critical: bool, nerd: &Nerd) -> (msg: String)
        requires
            action < 4,
        ensures
            msg@ == spec_action_message(*self, action as int, critical, *nerd),
    {
        let a = self.actions[action];
        let mut s = String::from_str(self.name);
        s.append(" used ");
        s.append(a.name().as_str());
        s.append(" against ");
        s.append(nerd.name);
        let annotate = critical && (matches!(a.action_type, ActionType::Weaken) || matches!(
            a.action_type,
            ActionType::Strengthen,
        ));
        if annotate {
            s.append(" (CRITICAL!!!)");
        }
        proof {
            assert(s@ =~= spec_action_message(*self, action as int, critical, *nerd));
        }
        s
    }
}

/// The balanced nerd.
pub fn joe() -> (n: Nerd)
    ensures
        n.name@ == "Joe"@,
        n.health == 200,
        n.multiplier == BASE_MULTIPLIER,
        spec_action_is(n.actions[0], "Slap"@, ActionType::Damage, 3),
        spec_action_is(n.actions[1], "Band-Aid"@, ActionType::Heal, 2),
        spec_action_is(n.actions[2], "Pinch"@, ActionType::Weaken, 2),
        spec_action_is(n.actions[3], "Khan Academy"@, ActionType::Strengthen, 2),
{
    Nerd::new(
        "Joe",
        200,
        [
            Action::new("Slap", ActionType::Damage, 3),
            Action::new("Band-Aid", ActionType::Heal, 2),
            Action::new("Pinch", ActionType::Weaken, 2),
            Action::new("Khan Academy", ActionType::Strengthen, 2),
        ],
        " / \\
| \" |
 \\o/
  |
 /|\\
/ | \\
 / \\
/   \\",
    )
}

/// The offensive nerd.
pub fn isaac() -> (n: Nerd)
    ensures
        n.name@ == "Isaac"@,
        n.health == 100,
        n.multiplier == BASE_MULTIPLIER,
        spec_action_is(n.actions[0], "Meter Ruler Katana"@, ActionType::Damage, 6),
        spec_action_is(n.actions[1], "Self Confidence/Motivation"@, ActionType::Heal, 2),
        spec_action_is(n.actions[2], "Threaten with Scissors"@, ActionType::Weaken, 3),
        spec_action_is(n.actions[3], "Steroids"@, ActionType::Strengthen, 1),
{
    Nerd::new(
        "Isaac",
        100,
        [
            Action::new("Meter Ruler Katana", ActionType::Damage, 6),
            Action::new("Self Confidence/Motivation", ActionType::Heal, 2),
            Action::new("Threaten with Scissors", ActionType::Weaken, 3),
            Action::new("Steroids", ActionType::Strengthen, 1),
        ],
        " (\")
 \\-/
  |
\\/|\\/
  |
  |
 / \\
 | |",
    )
}

/// The defensive nerd.
pub fn william() -> (n: Nerd)
    ensures
        n.name@ == "William"@,
        n.health == 400,
        n.multiplier == BASE_MULTIPLIER,
        spec_action_is(n.actions[0], "Curse/Swear Words"@, ActionType::Damage, 3),
        spec_action_is(n.actions[1], "Meditation"@, ActionType::Heal, 1),
        spec_action_is(n.actions[2], "Intimidating Stare"@, ActionType::Weaken, 1),
        spec_action_is(n.actions[3], "Inflatable Dumbbells"@, ActionType::Strengthen, 3),
{
    Nerd::new(
        "William",
        400,
        [
            Action::new("Curse/Swear Words", ActionType::Damage, 3),
            Action::new("Meditation", ActionType::Heal, 1),
            Action::new("Intimidating Stare", ActionType::Weaken, 1),
            Action::new("Inflatable Dumbbells", ActionType::Strengthen, 3),
        ],
        "   __
  /''\\
\\ \\()/ /
 \\/  \\/
 |    |
  \\  /
  //\\\\
_//  \\\\_",
    )
}

/// The healer nerd.
pub fn suzie() -> (n: Nerd)
    ensures
        n.name@ == "Suzie"@,
        n.health == 200,
        n.multiplier == BASE_MULTIPLIER,
        spec_action_is(n.actions[0], "Insult"@, ActionType::Damage, 1),
        spec_action_is(n.actions[1], "First Aid Kit"@, ActionType::Heal, 4),
        spec_action_is(n.actions[2], "Threaten to Tell Teacher"@, ActionType::Weaken, 1),
        spec_action_is(n.actions[3], "Watch Dhar Mann Video"@, ActionType::Strengthen, 3),
{
    Nerd::new(
        "Suzie",
        200,
        [
            Action::new("Insult", ActionType::Damage, 1),
            Action::new("First Aid Kit", ActionType::Heal, 4),
            Action::new("Threaten to Tell Teacher", ActionType::Weaken, 1),
            Action::new("Watch Dhar Mann Video", ActionType::Strengthen, 3),
        ],
        " //\"\\\\
/ \\~/ \\
   |
  /|\\
  \\|/
   |
  / \\
 /   \\",
    )
}

/// The secret, overpowered nerd, unlockable through a special input
/// sequence that the input collaborator recognises.
pub fn yamin() -> (n: Nerd)
    ensures
        n.name@ == "Yamin"@,
        n.health == 1000000,
        n.multiplier == BASE_MULTIPLIER,
        spec_action_is(n.actions[0], "Do literally nothing"@, ActionType::Damage, 100),
        spec_action_is(n.actions[1], "Do pretty much nothing"@, ActionType::Heal, 100),
        spec_action_is(n.actions[2], "Do basically nothing"@, ActionType::Weaken, 100),
        spec_action_is(n.actions[3], "Do figuratively nothing"@, ActionType::Strengthen, 100),
{
    Nerd::new(
        "Yamin",
        1000000,
        [
            Action::new("Do literally nothing", ActionType::Damage, 100),
            Action::new("Do pretty much nothing", ActionType::Heal, 100),
            Action::new("Do basically nothing", ActionType::Weaken, 100),
            Action::new("Do figuratively nothing", ActionType::Strengthen, 100),
        ],
        " ____
/    \\
\\ .. /
 \\<>/
 /||\\
/ || \\
 /  \\
^    ^",
    )
}

/// Law: the resolution algorithm is deterministic. Its outcome is a pure
/// function of the actor's and target's stats, the action index and the
/// critical flag: any two results that meet its contract for the same
/// inputs are the same equation text and the same answer.
pub proof fn lemma_equation_deterministic(
    actor: Nerd,
    target: Nerd,
    action: int,
    critical: bool,
    text1: Seq<char>,
    value1: int,
    text2: Seq<char>,
    value2: int,
)
    requires
        text1 == spec_equation_text(actor, target, action, critical),
        value1 == spec_answer(actor, target, action, critical),
        text2 == spec_equation_text(actor, target, action, critical),
        value2 == spec_answer(actor, target, action, critical),
    ensures
        text1 == text2,
        value1 == value2,
{
}

proof fn lemma_split_expr3(first: Seq<char>, op: char, x: Seq<char>, y: Seq<char>, z: Seq<char>)
    requires
        spec_no_space(first),
        spec_no_space(x),
        spec_no_space(y),
        spec_no_space(z),
        op != ' ',
    ensures
        spec_split_spaces(
            first + seq![' ', op, ' '] + x + seq![' ', '*', ' '] + y + seq![' ', '*', ' '] + z,
        ) == seq![first, seq![op], x, seq!['*'], y, seq!['*'], z],
{
    let t = first + seq![' ', op, ' '] + x + seq![' ', '*', ' '] + y + seq![' ', '*', ' '] + z;
    let r6 = seq!['*'] + seq![' '] + z;
    let r5 = y + seq![' '] + r6;
    let r4 = seq!['*'] + seq![' '] + r5;
    let r3 = x + seq![' '] + r4;
    let r2 = seq![op] + seq![' '] + r3;
    assert(t =~= first + seq![' '] + r2);
    lemma_split_prefix(first, r2);
    lemma_split_prefix(seq![op], r3);
    lemma_split_prefix(x, r4);
    lemma_split_prefix(seq!['*'], r5);
    lemma_split_prefix(y, r6);
    lemma_split_prefix(seq!['*'], z);
    lemma_split_whole(z);
    assert(spec_split_spaces(t) =~~= seq![first, seq![op], x, seq!['*'], y, seq!['*'], z]);
}

proof fn lemma_split_expr2(first: Seq<char>, op: char, x: Seq<char>, z: Seq<char>)
    requires
        spec_no_space(first),
        spec_no_space(x),
        spec_no_space(z),
        op != ' ',
    ensures
        spec_split_spaces(first + seq![' ', op, ' '] + x + seq![' ', '*', ' '] + z) == seq![
            first,
            seq![op],
            x,
            seq!['*'],
            z,
        ],
{
    let t = first + seq![' ', op, ' '] + x + seq![' ', '*', ' '] + z;
    let r4 = seq!['*'] + seq![' '] + z;
    let r3 = x + seq![' '] + r4;
    let r2 = seq![op] + seq![' '] + r3;
    assert(t =~= first + seq![' '] + r2);
    lemma_split_prefix(first, r2);
    lemma_split_prefix(seq![op], r3);
    lemma_split_prefix(x, r4);
    lemma_split_prefix(seq!['*'], z);
    lemma_split_whole(z);
    assert(spec_split_spaces(t) =~~= seq![first, seq![op], x, seq!['*'], z]);
}

proof fn lemma_eval_expr3(first: int, add: bool, x: int, y: int, z: int)
    ensures
        spec_eval_equation(spec_expr3_text(first, add, x, y, z)) == Some(
            spec_expr3_value(first, add, x, y, z),
        ),
{
    reveal_strlit(" + ");
    reveal_strlit(" - ");
    reveal_strlit(" * ");
    let op: char = if add {
        '+'
    } else {
        '-'
    };
    let fs = spec_int_chars(first);
    let xs = spec_int_chars(x);
    let ys = spec_int_chars(y);
    let zs = spec_int_chars(z);
    lemma_int_chars_no_space(first);
    lemma_int_chars_no_space(x);
    lemma_int_chars_no_space(y);
    lemma_int_chars_no_space(z);
    assert(spec_expr3_text(first, add, x, y, z) =~= fs + seq![' ', op, ' '] + xs
        + seq![' ', '*', ' '] + ys + seq![' ', '*', ' '] + zs);
    lemma_split_expr3(fs, op, xs, ys, zs);
    lemma_parse_int_of_chars(first);
    lemma_parse_int_of_chars(x);
    lemma_parse_int_of_chars(y);
    lemma_parse_int_of_chars(z);
    if add {
        assert(seq![op] =~= seq!['+']);
    } else {
        assert(seq![op] =~= seq!['-']);
        assert(seq![op][0] == '-' && seq!['+'][0] == '+');
        assert(seq![op] != seq!['+']);
    }
}

proof fn lemma_eval_expr2(first: int, add: bool, x: int, z: int)
    ensures
        spec_eval_equation(spec_expr2_text(first, add, x, z)) == Some(
            spec_expr2_value(first, add, x, z),
        ),
{
    reveal_strlit(" + ");
    reveal_strlit(" - ");
    reveal_strlit(" * ");
    let op: char = if add {
        '+'
    } else {
        '-'
    };
    let fs = spec_int_chars(first);
    let xs = spec_int_chars(x);
    let zs = spec_int_chars(z);
    lemma_int_chars_no_space(first);
    lemma_int_chars_no_space(x);
    lemma_int_chars_no_space(z);
    assert(spec_expr2_text(first, add, x, z) =~= fs + seq![' ', op, ' '] + xs + seq![' ', '*', ' ']
        + zs);
    lemma_split_expr2(fs, op, xs, zs);
    lemma_parse_int_of_chars(first);
    lemma_parse_int_of_chars(x);
    lemma_parse_int_of_chars(z);
    if add {
        assert(seq![op] =~= seq!['+']);
    } else {
        assert(seq![op] =~= seq!['-']);
        assert(seq![op][0] == '-' && seq!['+'][0] == '+');
        assert(seq![op] != seq!['+']);
    }
}

/// Law: the equation and the stored answer are consistent. For every
/// action kind and either critical state, evaluating the displayed
/// equation text as an arithmetic expression yields exactly the answer
/// the engine cached — the two can never diverge.
pub proof fn lemma_equation_text_evaluates_to_answer(
    actor: Nerd,
    target: Nerd,
    action: int,
    critical: bool,
)
    requires
        0 <= action < 4,
    ensures
        spec_eval_equation(spec_equation_text(actor, target, action, critical)) == Some(
            spec_answer(actor, target, action, critical),
        ),
{
    let a = actor.actions[action];
    let c = spec_crit_factor(critical);
    match a.action_type {
        ActionType::Damage => {
            lemma_eval_expr3(target.health as int, false, a.value as int, actor.multiplier as int, c)
        },
        ActionType::Heal => {
            lemma_eval_expr3(actor.health as int, true, a.value as int, actor.multiplier as int, c)
        },
        ActionType::Weaken => {
            lemma_eval_expr2(target.multiplier as int, false, a.value as int, c)
        },
        ActionType::Strengthen => {
            lemma_eval_expr2(actor.multiplier as int, true, a.value as int, c)
        },
    }
}

/// Law: critical scaling for Damage. A critical hit doubles the subtracted
/// contribution, an ordinary hit leaves it at the base product.
pub proof fn lemma_critical_scaling(actor: Nerd, target: Nerd, action: int)
    requires
        0 <= action < 4,
        actor.actions[action].action_type == ActionType::Damage,
    ensures
        spec_answer(actor, target, action, true) == target.health - actor.actions[action].value
            * actor.multiplier * 2,
        spec_answer(actor, target, action, false) == target.health - actor.actions[action].value
            * actor.multiplier * 1,
{
}

} // verus!
