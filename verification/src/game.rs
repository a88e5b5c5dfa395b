//! The duel state machine: turn order, the phases of a turn, answer
//! validation against the cached turn, effect application and the end
//! condition. The machine is driven once per frame with the boundary
//! inputs the rendering/input collaborator gathered; it never blocks.

use vstd::prelude::*;

use crate::nerds::{
    answer_in_range, spec_action_message, spec_answer, spec_answer_fits, spec_apply,
    spec_equation_text, Nerds,
};

verus! {

/// The message log keeps at most this many entries; the oldest is evicted
/// first once the cap is exceeded.
pub const MAX_ACTION_MESSAGES: usize = 5;

/// The possible states the game can be in. `GameEnd` is terminal: no
/// input moves the machine out of it.
#[derive(Copy, Clone, Debug, PartialEq, Eq, Structural)]
pub enum GameState {
    Intro,
    MainMenu,
    InGame(InGameState),
    GameEnd,
}

/// What is going on within a duel: the current actor is choosing an
/// action, or solving the equation the chosen action produced.
#[derive(Copy, Clone, Debug, PartialEq, Eq, Structural)]
pub enum InGameState {
    Choosing,
    Mathing,
}

/// The boundary events one frame hands to the engine. Each field carries
/// one input the collaborator may have gathered; `critical` is the frame's
/// critical-hit roll, consumed only when an action is chosen, so the source
/// of randomness stays injectable.
#[derive(Copy, Clone)]
pub struct FrameInput {
    pub intro_done: bool,
    pub nerds_chosen: Option<Nerds>,
    pub action_chosen: Option<usize>,
    pub back: bool,
    pub math_chosen: Option<i32>,
    pub critical: bool,
}

/// Contains the game information: the phase, the two combatants once a
/// duel has started, whose turn it is, the cached pending turn (action,
/// equation text, expected answer, critical flag), and the message log.
pub struct Game {
    pub game_state: GameState,
    pub nerds: Option<Nerds>,
    pub current_nerd: usize,
    pub action_selected: usize,
    pub equation: String,
    pub answer: i32,
    pub critical: bool,
    pub action_messages: Vec<String>,
}

/// The opening narration, with both combatants' names filled in.
pub open spec fn spec_start_message(name0: Seq<char>, name1: Seq<char>) -> Seq<char> {
    "Two nerds bump into each other. "@ + name0 + " and "@ + name1
        + " glare at each other. The fight chant is heard. The AC Nerd Duels have begun."@
}

/// The closing narration, with the victor's and the loser's names filled in.
pub open spec fn spec_end_message(winner: Seq<char>, loser: Seq<char>) -> Seq<char> {
    "As the dust settles, "@ + winner + " looks down at the unconcious "@ + loser
        + " before being escorted to the principal's office."@
}

/// Appends a message to the log, evicting the oldest entry once the cap
/// is exceeded.
pub open spec fn spec_log_push(log: Seq<Seq<char>>, msg: Seq<char>) -> Seq<Seq<char>> {
    let grown = log.push(msg);
    if grown.len() > MAX_ACTION_MESSAGES {
        grown.subrange(1, grown.len() as int)
    } else {
        grown
    }
}

/// Whether some combatant has been eliminated (health at or below zero).
pub open spec fn spec_game_over(ns: Nerds) -> bool {
    ns[0].health < 1 || ns[1].health < 1
}

/// The index of the victor once the duel is over. The first combatant's
/// defeat is checked first, so in the (otherwise unreachable) case that
/// both are down at once, the second combatant is declared the victor:
/// that tie policy is pinned here rather than left to check order.
pub open spec fn spec_winner(ns: Nerds) -> int {
    if ns[0].health < 1 {
        1
    } else {
        0
    }
}

impl Game {
    /// The message log as a sequence of character sequences.
    pub open spec fn log(self) -> Seq<Seq<char>> {
        self.action_messages.deep_view()
    }

    /// The cached pending turn has been discarded.
    pub open spec fn turn_cleared(self) -> bool {
        &&& self.equation@ == Seq::<char>::empty()
        &&& self.answer == 0
        &&& !self.critical
    }

    /// While an equation is being solved, the cached answer and equation
    /// text are exactly what the resolution algorithm produced for the
    /// current actor, the current target, the selected action and the
    /// turn's critical flag — the cached turn is never recomputed.
    pub open spec fn mathing_consistent(self) -> bool {
        let ns = self.nerds.unwrap();
        let cur = ns[self.current_nerd as int];
        let other = ns[1 - self.current_nerd as int];
        &&& ns[0].health >= 1 && ns[1].health >= 1
        &&& spec_answer_fits(cur, other, self.action_selected as int, self.critical)
        &&& self.answer as int == spec_answer(
            cur,
            other,
            self.action_selected as int,
            self.critical,
        )
        &&& self.equation@ == spec_equation_text(
            cur,
            other,
            self.action_selected as int,
            self.critical,
        )
    }

    /// The engine's well-formedness invariant: indices in range, combatants
    /// present in every in-duel state, the log within its cap, and the
    /// cached turn consistent while an equation is being solved.
    pub open spec fn inv(self) -> bool {
        &&& self.current_nerd < 2
        &&& self.action_selected < 4
        &&& (self.game_state matches GameState::InGame(_) ==> self.nerds is Some)
        &&& (self.game_state == GameState::GameEnd ==> self.nerds is Some)
        &&& self.log().len() <= MAX_ACTION_MESSAGES
        &&& (self.game_state == GameState::InGame(InGameState::Mathing)
            ==> self.mathing_consistent())
    }
}

/// Everything but the phase is the same in both states.
pub open spec fn spec_same_stats(pre: Game, post: Game) -> bool {
    &&& post.nerds == pre.nerds
    &&& post.current_nerd == pre.current_nerd
    &&& post.action_selected == pre.action_selected
    &&& post.equation@ == pre.equation@
    &&& post.answer == pre.answer
    &&& post.critical == pre.critical
    &&& post.log() == pre.log()
}

/// The step changed nothing observable.
pub open spec fn spec_unchanged(pre: Game, post: Game) -> bool {
    &&& post.game_state == pre.game_state
    &&& spec_same_stats(pre, post)
}

/// The duel has just started: combatants spawned, turn reset to the first
/// combatant, the opening narration logged.
pub open spec fn spec_started(pre: Game, ns: Nerds, post: Game) -> bool {
    &&& post.game_state == GameState::InGame(InGameState::Choosing)
    &&& post.nerds == Some(ns)
    &&& post.current_nerd == 0
    &&& post.log() == spec_log_push(pre.log(), spec_start_message(ns[0].name@, ns[1].name@))
    &&& post.action_selected == pre.action_selected
    &&& post.equation@ == pre.equation@
    &&& post.answer == pre.answer
    &&& post.critical == pre.critical
}

/// The duel has just ended: the phase is terminal and the closing
/// narration names the victor and the loser.
pub open spec fn spec_ended(pre: Game, post: Game) -> bool {
    let ns = pre.nerds.unwrap();
    let winner = spec_winner(ns);
    &&& post.game_state == GameState::GameEnd
    &&& post.log() == spec_log_push(
        pre.log(),
        spec_end_message(ns[winner].name@, ns[1 - winner].name@),
    )
    &&& post.nerds == pre.nerds
    &&& post.current_nerd == pre.current_nerd
    &&& post.action_selected == pre.action_selected
    &&& post.equation@ == pre.equation@
    &&& post.answer == pre.answer
    &&& post.critical == pre.critical
}

/// One step taken while the current actor is choosing an action. If some
/// combatant is already down, the duel closes before any action is taken
/// up. Otherwise a chosen action rolls the turn's critical flag into the
/// cached turn and produces the equation — unless the turn's value would
/// overflow the stat fields' machine integers, in which case the choice is
/// refused and nothing changes.
pub open spec fn spec_choosing_step(
    pre: Game,
    action_chosen: Option<usize>,
    critical: bool,
    post: Game,
) -> bool {
    let ns = pre.nerds.unwrap();
    if spec_game_over(ns) {
        spec_ended(pre, post)
    } else {
        match action_chosen {
            Option::None => spec_unchanged(pre, post),
            Option::Some(action) => {
                let cur = ns[pre.current_nerd as int];
                let other = ns[1 - pre.current_nerd as int];
                if spec_answer_fits(cur, other, action as int, critical) {
                    &&& post.game_state == GameState::InGame(InGameState::Mathing)
                    &&& post.action_selected == action
                    &&& post.critical == critical
                    &&& post.answer as int == spec_answer(cur, other, action as int, critical)
                    &&& post.equation@ == spec_equation_text(cur, other, action as int, critical)
                    &&& post.nerds == pre.nerds
                    &&& post.current_nerd == pre.current_nerd
                    &&& post.log() == pre.log()
                } else {
                    spec_unchanged(pre, post)
                }
            },
        }
    }
}

/// One step taken while the current actor is solving the equation.
/// Cancelling discards the cached turn without costing the turn. A
/// submitted answer always flips the turn and discards the cached turn; it
/// applies the effect and logs the outcome only when it matches the cached
/// answer exactly, and the end condition is checked right after the
/// resolution, whether or not the answer matched.
pub open spec fn spec_mathing_step(
    pre: Game,
    back: bool,
    math_chosen: Option<i32>,
    post: Game,
) -> bool {
    let ns = pre.nerds.unwrap();
    let cur = pre.current_nerd as int;
    let other = 1 - cur;
    if back {
        &&& post.game_state == GameState::InGame(InGameState::Choosing)
        &&& post.nerds == pre.nerds
        &&& post.current_nerd == pre.current_nerd
        &&& post.action_selected == pre.action_selected
        &&& post.log() == pre.log()
        &&& post.turn_cleared()
    } else {
        match math_chosen {
            Option::None => spec_unchanged(pre, post),
            Option::Some(num) => {
                &&& post.current_nerd == other
                &&& post.action_selected == pre.action_selected
                &&& post.turn_cleared()
                &&& if num == pre.answer {
                    let applied = spec_apply(
                        ns[cur],
                        ns[other],
                        pre.action_selected as int,
                        pre.answer,
                    );
                    let msg = spec_action_message(
                        ns[cur],
                        pre.action_selected as int,
                        pre.critical,
                        ns[other],
                    );
                    let mid_log = spec_log_push(pre.log(), msg);
                    let pns = post.nerds.unwrap();
                    &&& post.nerds is Some
                    &&& pns[cur] == applied.0
                    &&& pns[other] == applied.1
                    &&& if spec_game_over(pns) {
                        let winner = spec_winner(pns);
                        &&& post.game_state == GameState::GameEnd
                        &&& post.log() == spec_log_push(
                            mid_log,
                            spec_end_message(pns[winner].name@, pns[1 - winner].name@),
                        )
                    } else {
                        &&& post.game_state == GameState::InGame(InGameState::Choosing)
                        &&& post.log() == mid_log
                    }
                } else {
                    &&& post.nerds == pre.nerds
                    &&& post.game_state == GameState::InGame(InGameState::Choosing)
                    &&& post.log() == pre.log()
                }
            },
        }
    }
}

/// The engine's full transition relation: what one `update` call does for
/// every phase and every combination of boundary inputs.
pub open spec fn spec_step(pre: Game, input: FrameInput, post: Game) -> bool {
    match pre.game_state {
        GameState::Intro => {
            if input.intro_done {
                &&& post.game_state == GameState::MainMenu
                &&& spec_same_stats(pre, post)
            } else {
                spec_unchanged(pre, post)
            }
        },
        GameState::MainMenu => {
            match input.nerds_chosen {
                Option::Some(ns) => spec_started(pre, ns, post),
                Option::None => spec_unchanged(pre, post),
            }
        },
        GameState::InGame(InGameState::Choosing) => spec_choosing_step(
            pre,
            input.action_chosen,
            input.critical,
            post,
        ),
        GameState::InGame(InGameState::Mathing) => spec_mathing_step(
            pre,
            input.back,
            input.math_chosen,
            post,
        ),
        GameState::GameEnd => spec_unchanged(pre, post),
    }
}

/// Law: turn alternation. After any fully resolved turn — a submitted
/// answer, whether correct or not — the turn belongs to the combatant
/// that did not act.
pub proof fn lemma_turn_alternation(pre: Game, input: FrameInput, post: Game)
    requires
        pre.inv(),
        pre.game_state == GameState::InGame(InGameState::Mathing),
        !input.back,
        input.math_chosen is Some,
        spec_step(pre, input, post),
    ensures
        post.current_nerd == 1 - pre.current_nerd,
{
}

/// Law: an answer mismatch has no side effect. A submitted answer that
/// differs from the cached expected answer changes neither combatant's
/// health or multiplier and logs nothing, yet the phase still advances to
/// action selection with the turn flipped.
pub proof fn lemma_mismatch_no_side_effect(pre: Game, input: FrameInput, post: Game)
    requires
        pre.inv(),
        pre.game_state == GameState::InGame(InGameState::Mathing),
        !input.back,
        input.math_chosen matches Some(num) && num != pre.answer,
        spec_step(pre, input, post),
    ensures
        post.nerds == pre.nerds,
        post.log() == pre.log(),
        post.game_state == GameState::InGame(InGameState::Choosing),
        post.current_nerd == 1 - pre.current_nerd,
{
}

/// Law: termination, first half. The moment a resolution leaves some
/// combatant's health at or below zero, the step that resolved the turn
/// already lands in the terminal phase.
pub proof fn lemma_resolution_ends_game(pre: Game, input: FrameInput, post: Game)
    requires
        pre.inv(),
        pre.game_state == GameState::InGame(InGameState::Mathing),
        !input.back,
        input.math_chosen is Some,
        spec_step(pre, input, post),
        spec_game_over(post.nerds.unwrap()),
    ensures
        post.game_state == GameState::GameEnd,
{
}

/// Law: termination, second half. The terminal phase absorbs every input:
/// no action selection, answer submission or any other event moves the
/// machine or its combatants again.
pub proof fn lemma_game_end_absorbs(pre: Game, input: FrameInput, post: Game)
    requires
        pre.game_state == GameState::GameEnd,
        spec_step(pre, input, post),
    ensures
        spec_unchanged(pre, post),
        post.game_state == GameState::GameEnd,
{
}

fn start_message_text(nerds: &Nerds) -> (s: String)
    ensures
        s@ == spec_start_message(nerds[0].name@, nerds[1].name@),
{
    let mut s = String::from_str("Two nerds bump into each other. ");
    s.append(nerds[0].name);
    s.append(" and ");
    s.append(nerds[1].name);
    s.append(" glare at each other. The fight chant is heard. The AC Nerd Duels have begun.");
    proof {
        assert(s@ =~= spec_start_message(nerds[0].name@, nerds[1].name@));
    }
    s
}

fn end_message_text(winner: &str, loser: &str) -> (s: String)
    ensures
        s@ == spec_end_message(winner@, loser@),
{
    let mut s = String::from_str("As the dust settles, ");
    s.append(winner);
    s.append(" looks down at the unconcious ");
    s.append(loser);
    s.append(" before being escorted to the principal's office.");
    proof {
        assert(s@ =~= spec_end_message(winner@, loser@));
    }
    s
}

impl Game {
    /// Creates a new instance of the game, parked at the intro with no
    /// duel running.
    pub fn new() -> (g: Game)
        ensures
            g.inv(),
            g.game_state == GameState::Intro,
            g.nerds is None,
            g.current_nerd == 0,
            g.action_selected == 0,
            g.log() == Seq::<Seq<char>>::empty(),
            g.turn_cleared(),
    {
        let g = Game {
            game_state: GameState::Intro,
            nerds: None,
            current_nerd: 0,
            action_selected: 0,
            equation: String::new(),
            answer: 0,
            critical: false,
            action_messages: Vec::new(),
        };
        proof {
            assert(g.log() =~= Seq::<Seq<char>>::empty());
        }
        g
    }

    /// Appends a message to the bounded log; the oldest entry is evicted
    /// once the cap is exceeded, oldest first.
    pub fn add_action_message(&mut self, text: &str)
        ensures
            final(self).log() == spec_log_push(old(self).log(), text@),
            final(self).game_state == old(self).game_state,
            final(self).nerds == old(self).nerds,
            final(self).current_nerd == old(self).current_nerd,
            final(self).action_selected == old(self).action_selected,
            final(self).equation == old(self).equation,
            final(self).answer == old(self).answer,
            final(self).critical == old(self).critical,
    {
        self.action_messages.push(String::from_str(text));
        if self.action_messages.len() > MAX_ACTION_MESSAGES {
            self.action_messages.remove(0);
        }
        proof {
            assert(self.action_messages.deep_view() =~= spec_log_push(
                old(self).action_messages.deep_view(),
                text@,
            ));
        }
    }

    /// Initializes the start of a duel between the two given combatants.
    pub fn start_game(&mut self, nerds: Nerds)
        ensures
            spec_started(*old(self), nerds, *final(self)),
            final(self).current_nerd < 2,
            old(self).inv() ==> final(self).inv(),
    {
        self.game_state = GameState::InGame(InGameState::Choosing);
        let msg = start_message_text(&nerds);
        self.add_action_message(msg.as_str());
        self.nerds = Some(nerds);
        self.current_nerd = 0;
    }

    /// Returns the victor's and the loser's names once some combatant is
    /// down, otherwise nothing. The first combatant's defeat is checked
    /// first: if both are down at once, the second combatant is the victor.
    pub fn game_ended(&self) -> (r: Option<[&'static str; 2]>)
        ensures
            r is Some <==> (self.nerds is Some && spec_game_over(self.nerds.unwrap())),
            r is Some ==> ({
                let ns = self.nerds.unwrap();
                let winner = spec_winner(ns);
                r.unwrap()[0] == ns[winner].name && r.unwrap()[1] == ns[1 - winner].name
            }),
    {
        if let Some(nerds) = &self.nerds {
            if nerds[0].health < 1 {
                return Some([nerds[1].name, nerds[0].name]);
            } else if nerds[1].health < 1 {
                return Some([nerds[0].name, nerds[1].name]);
            }
        }
        None
    }

    /// Ends the duel: enters the terminal phase and logs the closing
    /// narration with the given victor and loser names.
    pub fn end_game(&mut self, nerd_names: [&'static str; 2])
        ensures
            final(self).game_state == GameState::GameEnd,
            final(self).log() == spec_log_push(
                old(self).log(),
                spec_end_message(nerd_names[0]@, nerd_names[1]@),
            ),
            final(self).nerds == old(self).nerds,
            final(self).current_nerd == old(self).current_nerd,
            final(self).action_selected == old(self).action_selected,
            final(self).equation == old(self).equation,
            final(self).answer == old(self).answer,
            final(self).critical == old(self).critical,
    {
        self.game_state = GameState::GameEnd;
        let msg = end_message_text(nerd_names[0], nerd_names[1]);
        self.add_action_message(msg.as_str());
    }

    /// Updates the game while the current actor is choosing an action.
    pub fn update_choosing(&mut self, action_chosen: Option<usize>, critical: bool)
        requires
            old(self).inv(),
            old(self).game_state == GameState::InGame(InGameState::Choosing),
            action_chosen matches Some(action) ==> action < 4,
        ensures
            final(self).inv(),
            spec_choosing_step(*old(self), action_chosen, critical, *final(self)),
    {
        if let Some(names) = self.game_ended() {
            self.end_game(names);
            return ;
        }
        if let Some(action) = action_chosen {
            let nerds = self.nerds.unwrap();
            let other: usize = if self.current_nerd == 0 {
                1
            } else {
                0
            };
            let actor = nerds[self.current_nerd];
            let target = nerds[other];
            if answer_in_range(&actor, &target, action, critical) {
                self.action_selected = action;
                self.critical = critical;
                self.game_state = GameState::InGame(InGameState::Mathing);
                let (text, value) = actor.equation(action, &target, critical);
                self.equation = text;
                self.answer = value;
            }
        }
    }

    /// Updates the game while the current actor is solving the equation.
    /// Cancelling returns to action selection without costing the turn; a
    /// submitted answer resolves the turn: on an exact match the effect is
    /// applied and logged, on a mismatch nothing is applied, and either way
    /// the turn flips, the cached turn is discarded, and the end condition
    /// is checked.
    pub fn update_mathing(&mut self, back: bool, math_chosen: Option<i32>)
        requires
            old(self).inv(),
            old(self).game_state == GameState::InGame(InGameState::Mathing),
        ensures
            final(self).inv(),
            spec_mathing_step(*old(self), back, math_chosen, *final(self)),
    {
        if back {
            self.game_state = GameState::InGame(InGameState::Choosing);
            self.equation = String::new();
            self.answer = 0;
            self.critical = false;
            return ;
        }
        if let Some(num) = math_chosen {
            let other: usize = if self.current_nerd == 0 {
                1
            } else {
                0
            };
            if num == self.answer {
                let nerds = self.nerds.unwrap();
                let mut actor = nerds[self.current_nerd];
                let mut target = nerds[other];
                let msg = actor.use_action(self.action_selected, self.answer, self.critical, &mut target);
                let updated = if self.current_nerd == 0 {
                    [actor, target]
                } else {
                    [target, actor]
                };
                self.nerds = Some(updated);
                self.add_action_message(msg.as_str());
            }
            self.game_state = GameState::InGame(InGameState::Choosing);
            self.current_nerd = other;
            self.equation = String::new();
            self.answer = 0;
            self.critical = false;
            if let Some(names) = self.game_ended() {
                self.end_game(names);
            }
        }
    }

    /// Runs the engine for one frame on the boundary inputs the frame
    /// gathered. Every transition the machine can take goes through here;
    /// `spec_step` states each one exactly.
    pub fn update(&mut self, input: FrameInput)
        requires
            old(self).inv(),
            input.action_chosen matches Some(action) ==> action < 4,
        ensures
            final(self).inv(),
            spec_step(*old(self), input, *final(self)),
    {
        match self.game_state {
            GameState::Intro => {
                if input.intro_done {
                    self.game_state = GameState::MainMenu;
                }
            },
            GameState::MainMenu => {
                if let Some(ns) = input.nerds_chosen {
                    self.start_game(ns);
                }
            },
            GameState::InGame(InGameState::Choosing) => {
                self.update_choosing(input.action_chosen, input.critical)
            },
            GameState::InGame(InGameState::Mathing) => {
                self.update_mathing(input.back, input.math_chosen)
            },
            GameState::GameEnd => (),
        }
    }
}

} // verus!
