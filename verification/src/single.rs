//! A two-player, single-battle domain built on the engine: the state the
//! battle carries, the steps of the battle flow, and the entry point that
//! builds the opening node of the simulation tree.

use vstd::prelude::*;

use crate::pokemon::{team_seq, moves_seq, team_len, team_get, moves_len, moves_get, Pokemon, Team};
use crate::state::{
    self, and_then_spec, append_steps, can_and_then, chain_ok, chain_spec, pending_spec,
    push_step_choices, queue_spec, resolve_ok, resolve_spec, BranchesModel, ChoiceModel,
    DecisionBuilder, DecisionModel, EventHandler, NodeModel, PlayerBase, PlayerStateBase,
    StateBase, StepBase,
};

verus! {

/// The whole battle state: one sub-state per player.
#[derive(Clone)]
pub struct State {
    player_1: PlayerState,
    player_2: PlayerState,
}

/// The two players of a single battle, in canonical decision order.
#[derive(Clone, Copy, PartialEq, Eq, Structural, Debug)]
pub enum Player {
    Player1,
    Player2,
}

impl PlayerBase for Player {
    open spec fn value_seq() -> Seq<Player> {
        seq![Player::Player1, Player::Player2]
    }

    fn values() -> (r: Vec<Player>) {
        let r = vec![Player::Player1, Player::Player2];
        proof {
            assert(r@ =~= Self::value_seq());
        }
        r
    }
}

/// What one player owns: a roster, the chosen active combatant, and the
/// action picked for the current turn.
#[derive(Clone)]
pub struct PlayerState {
    pub active_pokemon_idx: Option<usize>,
    pub turn_action: Option<Action>,
    pub team: Team,
}

impl PlayerStateBase for PlayerState {
}

impl PlayerState {
    /// A chosen active combatant, if any, is on the roster.
    pub open spec fn wf(self) -> bool {
        self.active_pokemon_idx matches Some(i) ==> i < team_seq(self.team).len()
    }

    /// The active combatant, when one has been chosen.
    pub fn active_pokemon(&self) -> (r: Option<&Pokemon>)
        requires
            self.wf(),
        ensures
            match self.active_pokemon_idx {
                Option::Some(i) => r matches Some(p) && *p == team_seq(self.team)[i as int],
                Option::None => r is None,
            },
    {
        match self.active_pokemon_idx {
            Option::Some(i) => Option::Some(team_get(&self.team, i)),
            Option::None => Option::None,
        }
    }
}

/// The action a player picks for one turn.
#[derive(Clone, Copy, PartialEq, Eq, Structural, Debug)]
pub enum Action {
    UsePokeMove(usize),
    SwitchPokemon(usize),
}

impl StateBase for State {
    type Player = Player;

    type PlayerState = PlayerState;

    closed spec fn player_spec(self, player: Player) -> PlayerState {
        match player {
            Player::Player1 => self.player_1,
            Player::Player2 => self.player_2,
        }
    }

    closed spec fn with_player(self, player: Player, ps: PlayerState) -> State {
        match player {
            Player::Player1 => State { player_1: ps, player_2: self.player_2 },
            Player::Player2 => State { player_1: self.player_1, player_2: ps },
        }
    }

    fn player(&self, player: Player) -> (r: &PlayerState) {
        match player {
            Player::Player1 => &self.player_1,
            Player::Player2 => &self.player_2,
        }
    }

    fn player_mut(&mut self, player: Player) -> (r: &mut PlayerState) {
        match player {
            Player::Player1 => &mut self.player_1,
            Player::Player2 => &mut self.player_2,
        }
    }
}

/// Frame law of the battle state's per-player lens: replacing `player`'s
/// sub-state stores exactly that sub-state under `player` and leaves every
/// other player's sub-state unchanged.
pub proof fn lemma_player_frame(s: State, player: Player, ps: PlayerState, other: Player)
    ensures
        s.with_player(player, ps).player_spec(player) == ps,
        other != player ==> s.with_player(player, ps).player_spec(other) == s.player_spec(other),
{
}

/// The node type of this battle domain.
pub type Node = state::Node<State, Step>;

/// The suspended steps the battle flow is made of. Each carries the payload
/// it was closed over, so a whole continuation is a plain sequence of these.
#[derive(Clone, Copy, PartialEq, Eq, Structural, Debug)]
pub enum Step {
    /// Ask `player` to choose the starting combatant from the roster.
    ChooseStarter(Player),
    /// Record the given roster slot as `player`'s active combatant.
    SetActive(Player, usize),
    /// Run the on-enter-battle hook of `player`'s active combatant.
    PokemonEtb(Player),
    /// Run the on-enter-battle hooks of every player's active combatant.
    InitialEtb,
    /// Ask both players for an action, execute, and loop into the next turn.
    MainTurn,
    /// Ask `player` to choose an action for this turn.
    ChooseAction(Player),
    /// Record `player`'s action for this turn.
    SetAction(Player, Action),
    /// Carry out the actions both players picked.
    ExecuteActions,
}

// ---------------------------------------------------------------------------
// What each step yields, in the model
// ---------------------------------------------------------------------------

/// `s` with `player`'s active combatant set to roster slot `i`.
pub open spec fn set_active_spec(s: State, player: Player, i: usize) -> State {
    s.with_player(
        player,
        PlayerState {
            active_pokemon_idx: Option::Some(i),
            turn_action: s.player_spec(player).turn_action,
            team: s.player_spec(player).team,
        },
    )
}

/// `s` with `player`'s turn action set to `a`.
pub open spec fn set_action_spec(s: State, player: Player, a: Action) -> State {
    s.with_player(
        player,
        PlayerState {
            active_pokemon_idx: s.player_spec(player).active_pokemon_idx,
            turn_action: Option::Some(a),
            team: s.player_spec(player).team,
        },
    )
}

/// Recording a starter choice: `set_active_spec` — what resolving choice `i`
/// of `player`'s starter menu runs first — sets that player's active
/// combatant to roster slot `i` and changes nothing else: not the player's
/// roster or pending action, nor the other player's whole sub-state.
pub proof fn lemma_set_active_records(s: State, player: Player, i: usize, other: Player)
    ensures
        set_active_spec(s, player, i).player_spec(player) == (PlayerState {
            active_pokemon_idx: Option::Some(i),
            turn_action: s.player_spec(player).turn_action,
            team: s.player_spec(player).team,
        }),
        other != player ==> set_active_spec(s, player, i).player_spec(other) == s.player_spec(
            other,
        ),
{
    lemma_player_frame(
        s,
        player,
        PlayerState {
            active_pokemon_idx: Option::Some(i),
            turn_action: s.player_spec(player).turn_action,
            team: s.player_spec(player).team,
        },
        other,
    );
}

/// Recording an action choice: `set_action_spec` — what resolving a choice
/// of `player`'s action menu runs first — sets that player's turn action to
/// the chosen action and changes nothing else: not the player's roster or
/// active combatant, nor the other player's whole sub-state.
pub proof fn lemma_set_action_records(s: State, player: Player, a: Action, other: Player)
    ensures
        set_action_spec(s, player, a).player_spec(player) == (PlayerState {
            active_pokemon_idx: s.player_spec(player).active_pokemon_idx,
            turn_action: Option::Some(a),
            team: s.player_spec(player).team,
        }),
        other != player ==> set_action_spec(s, player, a).player_spec(other) == s.player_spec(
            other,
        ),
{
    lemma_player_frame(
        s,
        player,
        PlayerState {
            active_pokemon_idx: s.player_spec(player).active_pokemon_idx,
            turn_action: Option::Some(a),
            team: s.player_spec(player).team,
        },
        other,
    );
}

/// The choices of the starter menu: one per roster slot, labeled with the
/// combatant's rendering, resolving to recording that slot as active.
pub open spec fn starter_choice_models(team: Seq<Pokemon>, player: Player) -> Seq<
    ChoiceModel<Step>,
> {
    Seq::new(
        team.len(),
        |i: int|
            ChoiceModel {
                name: team[i].label_spec(),
                steps: seq![Step::SetActive(player, i as usize)],
            },
    )
}

/// The decision node that asks `player` to choose the starting combatant.
pub open spec fn starter_node(s: State, player: Player) -> NodeModel<State, Step> {
    NodeModel {
        state: s,
        branches: BranchesModel::Decision(
            DecisionModel {
                name: "Choose your active pokemon"@,
                player,
                choices: starter_choice_models(team_seq(s.player_spec(player).team), player),
            },
        ),
    }
}

/// The move choices of the action menu: one per known move, labeled with the
/// move's name, resolving to recording that move as the turn action.
pub open spec fn move_choice_models(s: State, player: Player) -> Seq<ChoiceModel<Step>> {
    let ps = s.player_spec(player);
    let active = team_seq(ps.team)[ps.active_pokemon_idx->0 as int];
    Seq::new(
        moves_seq(active.moves).len(),
        |i: int|
            ChoiceModel {
                name: moves_seq(active.moves)[i].name@,
                steps: seq![Step::SetAction(player, Action::UsePokeMove(i as usize))],
            },
    )
}

/// The switch choices of the action menu, from roster slot `from` on: one per
/// conscious benched combatant, labeled with its rendering, resolving to
/// recording the switch as the turn action.
pub open spec fn switch_choice_models(
    team: Seq<Pokemon>,
    player: Player,
    active: int,
    from: int,
) -> Seq<ChoiceModel<Step>>
    decreases team.len() - from,
{
    if from < 0 || from >= team.len() {
        Seq::empty()
    } else {
        let rest = switch_choice_models(team, player, active, from + 1);
        if from != active && team[from].current_hp > 0 {
            seq![
                ChoiceModel {
                    name: team[from].label_spec(),
                    steps: seq![Step::SetAction(player, Action::SwitchPokemon(from as usize))],
                },
            ] + rest
        } else {
            rest
        }
    }
}

/// All choices of `player`'s action menu: the moves, then the switches.
pub open spec fn action_choice_models(s: State, player: Player) -> Seq<ChoiceModel<Step>> {
    let ps = s.player_spec(player);
    move_choice_models(s, player) + switch_choice_models(
        team_seq(ps.team),
        player,
        ps.active_pokemon_idx->0 as int,
        0,
    )
}

/// When `player` can be asked for an action: an active combatant is chosen
/// and on the roster, and the menu is not empty.
pub open spec fn choose_action_enabled(s: State, player: Player) -> bool {
    &&& s.player_spec(player).active_pokemon_idx is Some
    &&& s.player_spec(player).wf()
    &&& action_choice_models(s, player).len() >= 1
}

/// The decision node that asks `player` for this turn's action.
pub open spec fn choose_action_node(s: State, player: Player) -> NodeModel<State, Step> {
    NodeModel {
        state: s,
        branches: BranchesModel::Decision(
            DecisionModel {
                name: "Choose your action"@,
                player,
                choices: action_choice_models(s, player),
            },
        ),
    }
}

/// The node a main turn suspends to: the first player's action menu, with
/// the second player's menu, the execution of the actions and the next main
/// turn queued after every choice.
pub open spec fn main_turn_node(s: State) -> NodeModel<State, Step> {
    NodeModel {
        state: s,
        branches: BranchesModel::Decision(
            DecisionModel {
                name: "Choose your action"@,
                player: Player::Player1,
                choices: append_steps(
                    action_choice_models(s, Player::Player1),
                    seq![
                        Step::ChooseAction(Player::Player2),
                        Step::ExecuteActions,
                        Step::MainTurn,
                    ],
                ),
            },
        ),
    }
}

/// When the on-enter-battle hook of `player`'s active combatant can run.
pub open spec fn etb_enabled(s: State, player: Player) -> bool {
    s.player_spec(player).active_pokemon_idx is Some && s.player_spec(player).wf()
}

impl StepBase<State> for Step {
    open spec fn enabled(self, s: State) -> bool {
        match self {
            Step::ChooseStarter(p) => team_seq(s.player_spec(p).team).len() >= 1,
            Step::SetActive(p, i) => i < team_seq(s.player_spec(p).team).len(),
            Step::PokemonEtb(p) => etb_enabled(s, p),
            Step::InitialEtb => etb_enabled(s, Player::Player1) && etb_enabled(
                s,
                Player::Player2,
            ),
            Step::MainTurn => choose_action_enabled(s, Player::Player1),
            Step::ChooseAction(p) => choose_action_enabled(s, p),
            Step::SetAction(p, a) => true,
            Step::ExecuteActions => true,
        }
    }

    open spec fn apply_spec(self, s: State) -> NodeModel<State, Step> {
        match self {
            Step::ChooseStarter(p) => starter_node(s, p),
            Step::SetActive(p, i) => pending_spec(set_active_spec(s, p, i)),
            Step::PokemonEtb(p) => pending_spec(s),
            Step::InitialEtb => pending_spec(s),
            Step::MainTurn => main_turn_node(s),
            Step::ChooseAction(p) => choose_action_node(s, p),
            Step::SetAction(p, a) => pending_spec(set_action_spec(s, p, a)),
            Step::ExecuteActions => pending_spec(s),
        }
    }

    fn apply(self, s: State) -> (n: Node) {
        match self {
            Step::ChooseStarter(p) => choose_starter_decision(s, p),
            Step::SetActive(p, i) => {
                let mut s = s;
                let ps = s.player_mut(p);
                ps.active_pokemon_idx = Option::Some(i);
                Node::pending(s)
            },
            Step::PokemonEtb(p) => s.pokemon_etb(p),
            Step::InitialEtb => s.initial_etb(),
            Step::MainTurn => s.main_turn(),
            Step::ChooseAction(p) => choose_action_decision(s, p),
            Step::SetAction(p, a) => {
                let mut s = s;
                let ps = s.player_mut(p);
                ps.turn_action = Option::Some(a);
                Node::pending(s)
            },
            Step::ExecuteActions => s.execute_actions(),
        }
    }
}

/// Builds the decision that asks `player` to pick the starting combatant
/// from the roster, one indexed choice per slot.
fn choose_starter_decision(s: State, player: Player) -> (r: Node)
    requires
        team_seq(s.player_spec(player).team).len() >= 1,
    ensures
        r@ == starter_node(s, player),
        r@.wf(),
{
    let ghost team = team_seq(s.player_spec(player).team);
    let mut labels: Vec<String> = Vec::new();
    let n = team_len(&s.player(player).team);
    let mut i: usize = 0;
    while i < n
        invariant
            i <= n,
            n == team.len(),
            team == team_seq(s.player_spec(player).team),
            labels@.len() == i,
            forall|j: int| 0 <= j < i ==> #[trigger] labels@[j]@ == team[j].label_spec(),
        decreases n - i,
    {
        let label = team_get(&s.player(player).team, i).label();
        labels.push(label);
        i += 1;
    }
    let builder = DecisionBuilder::<State, usize>::new("Choose your active pokemon", player)
        .indexed_choices(labels);
    let f = |slot: usize| -> (st: Step)
        ensures
            st == Step::SetActive(player, slot),
        { Step::SetActive(player, slot) };
    let built = builder.build(s, f);
    match built {
        Result::Ok(n) => {
            proof {
                let d = n@.branches->Decision_0;
                assert forall|j: int| 0 <= j < d.choices.len() implies #[trigger] d.choices[j]
                    =~~= starter_choice_models(team, player)[j] by {
                    assert(call_ensures(f, (builder.choices_spec()[j].1,), d.choices[j].steps[0]));
                }
                assert(d.choices =~~= starter_choice_models(team, player));
                assert(n@ =~~= starter_node(s, player));
            }
            n
        },
        Result::Err(_) => {
            proof {
                assert(false);
            }
            vstd::pervasive::unreached()
        },
    }
}

/// The choice one accumulated `(label, action)` entry becomes.
pub open spec fn entry_model(player: Player, e: (String, Action)) -> ChoiceModel<Step> {
    ChoiceModel { name: e.0@, steps: seq![Step::SetAction(player, e.1)] }
}

/// The choices a sequence of accumulated entries becomes, in order.
pub open spec fn entry_models(player: Player, entries: Seq<(String, Action)>) -> Seq<
    ChoiceModel<Step>,
> {
    entries.map_values(|e: (String, Action)| entry_model(player, e))
}

/// Builds the decision that asks `player` for this turn's action: one choice
/// per known move of the active combatant, then one per conscious benched
/// combatant to switch to.
fn choose_action_decision(s: State, player: Player) -> (r: Node)
    requires
        choose_action_enabled(s, player),
    ensures
        r@ == choose_action_node(s, player),
        r@.wf(),
{
    let ghost team = team_seq(s.player_spec(player).team);
    let active: usize = match s.player(player).active_pokemon_idx {
        Option::Some(i) => i,
        Option::None => {
            proof {
                assert(false);
            }
            vstd::pervasive::unreached()
        },
    };
    let mut entries: Vec<(String, Action)> = Vec::new();
    let nm = moves_len(&team_get(&s.player(player).team, active).moves);
    let mut i: usize = 0;
    while i < nm
        invariant
            i <= nm,
            active < team.len(),
            team == team_seq(s.player_spec(player).team),
            s.player_spec(player).active_pokemon_idx == Option::Some(active),
            nm == moves_seq(team[active as int].moves).len(),
            entries@.len() == i,
            entry_models(player, entries@) == move_choice_models(s, player).subrange(0, i as int),
        decreases nm - i,
    {
        let ghost prev = entries@;
        let mv = moves_get(&team_get(&s.player(player).team, active).moves, i);
        let label = mv.label();
        entries.push((label, Action::UsePokeMove(i)));
        proof {
            let em = entry_models(player, entries@);
            let target = move_choice_models(s, player).subrange(0, i as int + 1);
            assert forall|k: int| 0 <= k < em.len() implies em[k] == target[k] by {
                if k < i {
                    assert(entry_models(player, prev)[k] == move_choice_models(
                        s,
                        player,
                    ).subrange(0, i as int)[k]);
                } else {
                    assert(entries@[k] == (label, Action::UsePokeMove(i)));
                    assert(em[k].steps =~= target[k].steps);
                    assert(em[k] =~~= target[k]);
                }
            }
            assert(em =~= target);
        }
        i += 1;
    }
    proof {
        assert(move_choice_models(s, player).subrange(
            0,
            move_choice_models(s, player).len() as int,
        ) =~= move_choice_models(s, player));
    }
    let nt = team_len(&s.player(player).team);
    let mut j: usize = 0;
    while j < nt
        invariant
            j <= nt,
            active < team.len(),
            team == team_seq(s.player_spec(player).team),
            s.player_spec(player).active_pokemon_idx == Option::Some(active),
            nt == team.len(),
            move_choice_models(s, player) + switch_choice_models(team, player, active as int, 0)
                == entry_models(player, entries@) + switch_choice_models(
                team,
                player,
                active as int,
                j as int,
            ),
        decreases nt - j,
    {
        let ghost prev = entries@;
        let candidate = team_get(&s.player(player).team, j);
        if j != active && candidate.current_hp > 0 {
            let label = candidate.label();
            entries.push((label, Action::SwitchPokemon(j)));
            proof {
                let e = entry_model(player, (label, Action::SwitchPokemon(j)));
                assert(e.name == team[j as int].label_spec());
                assert(e =~~= (ChoiceModel {
                    name: team[j as int].label_spec(),
                    steps: seq![Step::SetAction(player, Action::SwitchPokemon(j))],
                }));
                assert(switch_choice_models(team, player, active as int, j as int) == seq![e]
                    + switch_choice_models(team, player, active as int, j as int + 1));
                assert(entry_models(player, entries@) =~= entry_models(player, prev).push(e));
                assert(entry_models(player, prev).push(e) + switch_choice_models(
                    team,
                    player,
                    active as int,
                    j as int + 1,
                ) =~= entry_models(player, prev) + (seq![e] + switch_choice_models(
                    team,
                    player,
                    active as int,
                    j as int + 1,
                )));
            }
        } else {
            proof {
                assert(switch_choice_models(team, player, active as int, j as int)
                    == switch_choice_models(team, player, active as int, j as int + 1));
            }
        }
        j += 1;
    }
    proof {
        assert(switch_choice_models(team, player, active as int, nt as int)
            =~= Seq::<ChoiceModel<Step>>::empty());
        assert(entry_models(player, entries@) =~= action_choice_models(s, player));
    }
    let builder = DecisionBuilder::<State, Action>::new("Choose your action", player)
        .named_choices(entries);
    let f = |a: Action| -> (st: Step)
        ensures
            st == Step::SetAction(player, a),
        { Step::SetAction(player, a) };
    let built = builder.build(s, f);
    match built {
        Result::Ok(n) => {
            proof {
                let d = n@.branches->Decision_0;
                assert forall|k: int| 0 <= k < d.choices.len() implies #[trigger] d.choices[k]
                    =~~= entry_models(player, entries@)[k] by {
                    assert(call_ensures(f, (builder.choices_spec()[k].1,), d.choices[k].steps[0]));
                }
                assert(d.choices =~~= entry_models(player, entries@));
                assert(entry_models(player, entries@) =~= action_choice_models(s, player));
                assert(n@ =~~= choose_action_node(s, player));
            }
            n
        },
        Result::Err(_) => {
            proof {
                assert(false);
            }
            vstd::pervasive::unreached()
        },
    }
}

impl State {
    /// Builds the opening node of a battle between two rosters: both players
    /// choose a starter, the starters' on-enter hooks run, and the main turn
    /// loop begins. The first player's starter menu is outermost; everything
    /// later is queued after each of its choices.
    pub fn start(player_1_team: Team, player_2_team: Team) -> (r: Node)
        requires
            team_seq(player_1_team).len() >= 1,
            team_seq(player_2_team).len() >= 1,
        ensures
            r@.state.player_spec(Player::Player1) == (PlayerState {
                active_pokemon_idx: Option::None,
                turn_action: Option::None,
                team: player_1_team,
            }),
            r@.state.player_spec(Player::Player2) == (PlayerState {
                active_pokemon_idx: Option::None,
                turn_action: Option::None,
                team: player_2_team,
            }),
            r@.branches == BranchesModel::<State, Step>::Decision(
                DecisionModel {
                    name: "Choose your active pokemon"@,
                    player: Player::Player1,
                    choices: append_steps(
                        starter_choice_models(team_seq(player_1_team), Player::Player1),
                        seq![
                            Step::ChooseStarter(Player::Player2),
                            Step::InitialEtb,
                            Step::MainTurn,
                        ],
                    ),
                },
            ),
            r@.wf(),
    {
        let state = State {
            player_1: PlayerState {
                team: player_1_team,
                active_pokemon_idx: Option::None,
                turn_action: Option::None,
            },
            player_2: PlayerState {
                team: player_2_team,
                active_pokemon_idx: Option::None,
                turn_action: Option::None,
            },
        };
        let r = state.choose_starting_pokemon().queue(Step::InitialEtb).queue(Step::MainTurn);
        proof {
            let base = starter_choice_models(team_seq(player_1_team), Player::Player1);
            assert(r@.branches->Decision_0.choices =~~= append_steps(
                base,
                seq![Step::ChooseStarter(Player::Player2), Step::InitialEtb, Step::MainTurn],
            ));
        }
        r
    }

    /// Asks every player, in canonical order, to choose a starting
    /// combatant; the later menus are queued after each earlier choice.
    fn choose_starting_pokemon(self) -> (r: Node)
        requires
            team_seq(self.player_spec(Player::Player1).team).len() >= 1,
        ensures
            r@ == queue_spec(
                starter_node(self, Player::Player1),
                Step::ChooseStarter(Player::Player2),
            ),
            r@.wf(),
    {
        choose_starter_decision(self, Player::Player1).queue(Step::ChooseStarter(Player::Player2))
    }

    /// Runs the on-enter-battle hook of every player's active combatant; no
    /// current hook branches or changes the state.
    fn initial_etb(self) -> (r: Node)
        requires
            etb_enabled(self, Player::Player1),
            etb_enabled(self, Player::Player2),
        ensures
            r@ == pending_spec::<State, Step>(self),
            r@.wf(),
    {
        let first = self.pokemon_etb(Player::Player1);
        let s1 = first.into_state();
        s1.pokemon_etb(Player::Player2)
    }

    /// One main turn: both players choose an action, the actions are carried
    /// out, and the next main turn is queued after everything.
    fn main_turn(self) -> (r: Node)
        requires
            choose_action_enabled(self, Player::Player1),
        ensures
            r@ == main_turn_node(self),
            r@.wf(),
    {
        let r = self.choose_actions().queue(Step::ExecuteActions).queue(Step::MainTurn);
        proof {
            assert(r@.branches->Decision_0.choices =~~= main_turn_node(
                self,
            ).branches->Decision_0.choices);
            assert(r@ =~~= main_turn_node(self));
        }
        r
    }

    /// Asks every player, in canonical order, for this turn's action; the
    /// later menus are queued after each earlier choice.
    fn choose_actions(self) -> (r: Node)
        requires
            choose_action_enabled(self, Player::Player1),
        ensures
            r@ == queue_spec(
                choose_action_node(self, Player::Player1),
                Step::ChooseAction(Player::Player2),
            ),
            r@.wf(),
    {
        choose_action_decision(self, Player::Player1).queue(Step::ChooseAction(Player::Player2))
    }

    /// Carries out the actions both players picked. No action has an effect
    /// yet, so the state continues unchanged.
    fn execute_actions(self) -> (r: Node)
        ensures
            r@ == pending_spec::<State, Step>(self),
            r@.wf(),
    {
        Node::pending(self)
    }

    /// Runs the on-enter-battle hook of the ability of `player`'s active
    /// combatant.
    fn pokemon_etb(self, player: Player) -> (r: Node)
        requires
            etb_enabled(self, player),
        ensures
            r@ == pending_spec::<State, Step>(self),
            r@.wf(),
    {
        let ability = match self.player(player).active_pokemon() {
            Option::Some(p) => p.ability,
            Option::None => {
                proof {
                    assert(false);
                }
                vstd::pervasive::unreached()
            },
        };
        ability.on_etb(self)
    }
}

/// A verified driver can resolve the opening starter menu. For the node
/// [`State::start`] describes, every choice is legal to resolve, and
/// resolving choice `i` records roster slot `i` as the first player's active
/// combatant, changes nothing else of the state, and presents the second
/// player's starter menu over that state, with the rest of the battle still
/// queued — the first player's decision always comes before the second's.
pub proof fn lemma_opening_resolution(n: NodeModel<State, Step>, i: usize)
    requires
        n.branches == BranchesModel::<State, Step>::Decision(
            DecisionModel {
                name: "Choose your active pokemon"@,
                player: Player::Player1,
                choices: append_steps(
                    starter_choice_models(
                        team_seq(n.state.player_spec(Player::Player1).team),
                        Player::Player1,
                    ),
                    seq![Step::ChooseStarter(Player::Player2), Step::InitialEtb, Step::MainTurn],
                ),
            },
        ),
        (i as int) < team_seq(n.state.player_spec(Player::Player1).team).len(),
        team_seq(n.state.player_spec(Player::Player2).team).len() >= 1,
    ensures
        n.wf(),
        resolve_ok(n, i as int),
        resolve_spec(n, i as int) == (NodeModel {
            state: set_active_spec(n.state, Player::Player1, i),
            branches: BranchesModel::<State, Step>::Decision(
                DecisionModel {
                    name: "Choose your active pokemon"@,
                    player: Player::Player2,
                    choices: append_steps(
                        starter_choice_models(
                            team_seq(n.state.player_spec(Player::Player2).team),
                            Player::Player2,
                        ),
                        seq![Step::InitialEtb, Step::MainTurn],
                    ),
                },
            ),
        }),
        set_active_spec(n.state, Player::Player1, i).player_spec(
            Player::Player1,
        ).active_pokemon_idx == Option::Some(i),
        set_active_spec(n.state, Player::Player1, i).player_spec(Player::Player2)
            == n.state.player_spec(Player::Player2),
{
    let s0 = n.state;
    let t1 = team_seq(s0.player_spec(Player::Player1).team);
    let base = starter_choice_models(t1, Player::Player1);
    let extra = seq![Step::ChooseStarter(Player::Player2), Step::InitialEtb, Step::MainTurn];
    let d = n.branches->Decision_0;
    assert forall|k: int| 0 <= k < d.choices.len() implies (#[trigger] d.choices[k]).steps.len()
        >= 1 by {
        assert(d.choices[k].steps == base[k].steps + extra);
    }
    assert(base[i as int].steps == seq![Step::SetActive(Player::Player1, i)]);
    let steps = n.branch_steps(i as int);
    assert(steps == base[i as int].steps + extra);
    assert(steps[0] == Step::SetActive(Player::Player1, i));
    assert(steps.skip(1) =~= extra);
    // The first step records the choice; the rest of the chain is composable
    // after the updated state.
    let s1 = set_active_spec(s0, Player::Player1, i);
    lemma_set_active_records(s0, Player::Player1, i, Player::Player2);
    let m0 = pending_spec::<State, Step>(s1);
    assert(steps[0].apply_spec(s0) == m0);
    let d2 = starter_node(s1, Player::Player2);
    assert(can_and_then(m0, Step::ChooseStarter(Player::Player2)));
    assert(and_then_spec(m0, Step::ChooseStarter(Player::Player2)) == d2);
    let d3 = and_then_spec(d2, Step::InitialEtb);
    let d4 = and_then_spec(d3, Step::MainTurn);
    assert(extra.skip(1) =~= seq![Step::InitialEtb, Step::MainTurn]);
    assert(seq![Step::InitialEtb, Step::MainTurn].skip(1) =~= seq![Step::MainTurn]);
    assert(seq![Step::MainTurn].skip(1) =~= Seq::<Step>::empty());
    assert(chain_ok(d4, Seq::<Step>::empty()));
    assert(chain_spec(d4, Seq::<Step>::empty()) == d4);
    assert(chain_ok(d3, seq![Step::MainTurn]));
    assert(chain_spec(d3, seq![Step::MainTurn]) == d4);
    assert(chain_ok(d2, seq![Step::InitialEtb, Step::MainTurn]));
    assert(chain_spec(d2, seq![Step::InitialEtb, Step::MainTurn]) == d4);
    assert(chain_ok(m0, extra));
    assert(chain_spec(m0, extra) == d4);
    assert(resolve_ok(n, i as int));
    assert(resolve_spec(n, i as int) == d4);
    // The resolved node is the second starter menu with the rest queued.
    let t2 = team_seq(s1.player_spec(Player::Player2).team);
    let base2 = starter_choice_models(t2, Player::Player2);
    let queued = seq![Step::InitialEtb, Step::MainTurn];
    assert forall|k: int| 0 <= k < base2.len() implies #[trigger] push_step_choices(
        push_step_choices(base2, Step::InitialEtb),
        Step::MainTurn,
    )[k] =~~= append_steps(base2, queued)[k] by {
        assert(base2[k].steps.push(Step::InitialEtb).push(Step::MainTurn) =~= base2[k].steps
            + queued);
    }
    assert(d4.branches->Decision_0.choices =~~= append_steps(base2, queued));
    assert(d4 =~~= (NodeModel {
        state: s1,
        branches: BranchesModel::<State, Step>::Decision(
            DecisionModel {
                name: "Choose your active pokemon"@,
                player: Player::Player2,
                choices: append_steps(
                    starter_choice_models(
                        team_seq(s0.player_spec(Player::Player2).team),
                        Player::Player2,
                    ),
                    queued,
                ),
            },
        ),
    }));
}

/// A choice that runs exactly one step, a `SetAction` for `player`.
pub open spec fn single_set_action(player: Player, c: ChoiceModel<Step>) -> bool {
    c.steps.len() == 1 && (c.steps[0] matches Step::SetAction(p, _) && p == player)
}

/// Every switch choice of the action menu runs exactly one step: recording
/// a `SetAction` for its player.
pub proof fn lemma_switch_entries_single(team: Seq<Pokemon>, player: Player, active: int, from: int)
    ensures
        forall|k: int|
            0 <= k < switch_choice_models(team, player, active, from).len()
                ==> single_set_action(
                player,
                #[trigger] switch_choice_models(team, player, active, from)[k],
            ),
    decreases team.len() - from,
{
    if from < 0 || from >= team.len() {
    } else {
        lemma_switch_entries_single(team, player, active, from + 1);
        let rest = switch_choice_models(team, player, active, from + 1);
        let whole = switch_choice_models(team, player, active, from);
        if from != active && team[from].current_hp > 0 {
            let e = ChoiceModel {
                name: team[from].label_spec(),
                steps: seq![Step::SetAction(player, Action::SwitchPokemon(from as usize))],
            };
            assert(whole == seq![e] + rest);
            assert forall|k: int| 0 <= k < whole.len() implies single_set_action(
                player,
                #[trigger] whole[k],
            ) by {
                if k == 0 {
                    assert(whole[k] == e);
                } else {
                    assert(whole[k] == rest[k - 1]);
                }
            }
        } else {
            assert(whole == rest);
        }
    }
}

/// A verified driver can resolve the action menu of a main turn. For the
/// node a main turn suspends to, every choice is legal to resolve, and
/// resolving one records the chosen action for the first player, changes
/// nothing else of the state, and presents the second player's action menu
/// over that state, with the execution of the turn and the next main turn
/// still queued — the first player's menu always comes before the second's.
pub proof fn lemma_main_turn_resolution(s: State, i: usize)
    requires
        choose_action_enabled(s, Player::Player1),
        choose_action_enabled(s, Player::Player2),
        (i as int) < action_choice_models(s, Player::Player1).len(),
    ensures
        main_turn_node(s).wf(),
        resolve_ok(main_turn_node(s), i as int),
        main_turn_node(s).branch_steps(i as int)[0] matches Step::SetAction(p, a) && p
            == Player::Player1 && resolve_spec(main_turn_node(s), i as int) == (NodeModel {
            state: set_action_spec(s, Player::Player1, a),
            branches: BranchesModel::<State, Step>::Decision(
                DecisionModel {
                    name: "Choose your action"@,
                    player: Player::Player2,
                    choices: append_steps(
                        action_choice_models(
                            set_action_spec(s, Player::Player1, a),
                            Player::Player2,
                        ),
                        seq![Step::ExecuteActions, Step::MainTurn],
                    ),
                },
            ),
        }) && set_action_spec(s, Player::Player1, a).player_spec(Player::Player1).turn_action
            == Option::Some(a) && set_action_spec(s, Player::Player1, a).player_spec(
            Player::Player2,
        ) == s.player_spec(Player::Player2),
{
    let n = main_turn_node(s);
    let base = action_choice_models(s, Player::Player1);
    let extra = seq![Step::ChooseAction(Player::Player2), Step::ExecuteActions, Step::MainTurn];
    let d = n.branches->Decision_0;
    // Every entry of the menu runs exactly one recording step.
    let ps = s.player_spec(Player::Player1);
    let team = team_seq(ps.team);
    let moves = move_choice_models(s, Player::Player1);
    lemma_switch_entries_single(team, Player::Player1, ps.active_pokemon_idx->0 as int, 0);
    assert forall|k: int| 0 <= k < base.len() implies single_set_action(
        Player::Player1,
        #[trigger] base[k],
    ) by {
        if k < moves.len() {
            assert(base[k] == moves[k]);
        } else {
            assert(base[k] == switch_choice_models(
                team,
                Player::Player1,
                ps.active_pokemon_idx->0 as int,
                0,
            )[k - moves.len()]);
        }
    }
    assert forall|k: int| 0 <= k < d.choices.len() implies (#[trigger] d.choices[k]).steps.len()
        >= 1 by {
        assert(d.choices[k].steps == base[k].steps + extra);
    }
    // The chosen alternative: one recording step, then the queued chain.
    assert(d.choices[i as int].steps == base[i as int].steps + extra);
    let steps = n.branch_steps(i as int);
    assert(single_set_action(Player::Player1, base[i as int]));
    let st = base[i as int].steps[0];
    let a = st->SetAction_1;
    assert(st == Step::SetAction(Player::Player1, a));
    assert(steps[0] == st);
    assert(steps.skip(1) =~= extra);
    // The recording step leaves the second player's sub-state alone, so the
    // queued menu for the second player is the one over the original state.
    let s2 = set_action_spec(s, Player::Player1, a);
    lemma_set_action_records(s, Player::Player1, a, Player::Player2);
    assert(move_choice_models(s2, Player::Player2) =~= move_choice_models(s, Player::Player2));
    assert(action_choice_models(s2, Player::Player2) == action_choice_models(s, Player::Player2));
    assert(choose_action_enabled(s2, Player::Player2));
    let m0 = pending_spec::<State, Step>(s2);
    assert(steps[0].apply_spec(s) == m0);
    let d2 = choose_action_node(s2, Player::Player2);
    assert(can_and_then(m0, Step::ChooseAction(Player::Player2)));
    assert(and_then_spec(m0, Step::ChooseAction(Player::Player2)) == d2);
    let d3 = and_then_spec(d2, Step::ExecuteActions);
    let d4 = and_then_spec(d3, Step::MainTurn);
    assert(extra.skip(1) =~= seq![Step::ExecuteActions, Step::MainTurn]);
    assert(seq![Step::ExecuteActions, Step::MainTurn].skip(1) =~= seq![Step::MainTurn]);
    assert(seq![Step::MainTurn].skip(1) =~= Seq::<Step>::empty());
    assert(chain_ok(d4, Seq::<Step>::empty()));
    assert(chain_spec(d4, Seq::<Step>::empty()) == d4);
    assert(chain_ok(d3, seq![Step::MainTurn]));
    assert(chain_spec(d3, seq![Step::MainTurn]) == d4);
    assert(chain_ok(d2, seq![Step::ExecuteActions, Step::MainTurn]));
    assert(chain_spec(d2, seq![Step::ExecuteActions, Step::MainTurn]) == d4);
    assert(chain_ok(m0, extra));
    assert(chain_spec(m0, extra) == d4);
    assert(resolve_ok(n, i as int));
    assert(resolve_spec(n, i as int) == d4);
    // The resolved node is the second action menu with the rest queued.
    let base2 = action_choice_models(s2, Player::Player2);
    let queued = seq![Step::ExecuteActions, Step::MainTurn];
    assert forall|k: int| 0 <= k < base2.len() implies #[trigger] push_step_choices(
        push_step_choices(base2, Step::ExecuteActions),
        Step::MainTurn,
    )[k] =~~= append_steps(base2, queued)[k] by {
        assert(base2[k].steps.push(Step::ExecuteActions).push(Step::MainTurn) =~= base2[k].steps
            + queued);
    }
    assert(d4.branches->Decision_0.choices =~~= append_steps(base2, queued));
    assert(d4 =~~= (NodeModel {
        state: s2,
        branches: BranchesModel::<State, Step>::Decision(
            DecisionModel {
                name: "Choose your action"@,
                player: Player::Player2,
                choices: append_steps(base2, queued),
            },
        ),
    }));
}

} // verus!
