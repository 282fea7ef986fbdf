//! Exercises the engine's composition algebra on a small domain of its own:
//! a state carrying a log of visited steps and one picked index per player.

use simtree::state::{
    fold, ChanceBuilder, DecisionBuilder, EventHandler, Node, PlayerBase, PlayerStateBase,
    StateBase, StepBase, Weight,
};

#[derive(Clone, Debug)]
struct MiniPlayerState {
    picked: Option<usize>,
}

impl PlayerStateBase for MiniPlayerState {}

#[derive(Clone, Copy, Debug, PartialEq, Eq)]
enum MiniPlayer {
    A,
    B,
}

impl PlayerBase for MiniPlayer {
    fn values() -> Vec<MiniPlayer> {
        vec![MiniPlayer::A, MiniPlayer::B]
    }
}

#[derive(Clone, Debug)]
struct MiniState {
    log: Vec<u64>,
    a: MiniPlayerState,
    b: MiniPlayerState,
}

fn fresh() -> MiniState {
    MiniState {
        log: vec![],
        a: MiniPlayerState { picked: None },
        b: MiniPlayerState { picked: None },
    }
}

impl StateBase for MiniState {
    type Player = MiniPlayer;
    type PlayerState = MiniPlayerState;

    fn player(&self, p: MiniPlayer) -> &MiniPlayerState {
        match p {
            MiniPlayer::A => &self.a,
            MiniPlayer::B => &self.b,
        }
    }

    fn player_mut(&mut self, p: MiniPlayer) -> &mut MiniPlayerState {
        match p {
            MiniPlayer::A => &mut self.a,
            MiniPlayer::B => &mut self.b,
        }
    }
}

#[derive(Clone, Copy, Debug, PartialEq, Eq)]
enum MiniStep {
    Note(u64),
    NotePair(u64, u64),
    Ask(MiniPlayer),
    Pick(MiniPlayer, usize),
    TurnEnd,
    Boom,
}

type MiniNode = Node<MiniState, MiniStep>;

struct StartHook;

impl EventHandler<MiniState, MiniStep> for StartHook {
    fn on_turn_start(&self, mut s: MiniState) -> MiniNode {
        s.log.push(100);
        Node::pending(s)
    }
}

struct EndHook;

impl EventHandler<MiniState, MiniStep> for EndHook {
    fn on_turn_end(&self, mut s: MiniState) -> MiniNode {
        s.log.push(200);
        Node::end(s)
    }
}

impl StepBase<MiniState> for MiniStep {
    fn apply(self, mut s: MiniState) -> MiniNode {
        match self {
            MiniStep::Note(x) => {
                s.log.push(x);
                Node::pending(s)
            }
            MiniStep::NotePair(x, y) => {
                s.log.push(x);
                Node::pending(s).and_then(MiniStep::Note(y))
            }
            MiniStep::Ask(p) => {
                let built = DecisionBuilder::<MiniState, usize>::new("pick", p)
                    .named_choice("left", 0)
                    .named_choice("right", 1)
                    .build(s, move |i| MiniStep::Pick(p, i));
                match built {
                    Ok(n) => n,
                    Err(_) => panic!("two choices were accumulated"),
                }
            }
            MiniStep::Pick(p, i) => {
                s.player_mut(p).picked = Some(i);
                Node::pending(s)
            }
            MiniStep::TurnEnd => EndHook.on_turn_end(s),
            MiniStep::Boom => panic!("this step must never run"),
        }
    }
}

#[test]
fn end_absorbs_composition() {
    let mut s = fresh();
    s.log.push(5);
    let n = MiniNode::end(s);
    let r = n.and_then(MiniStep::Boom);
    assert!(r.is_end());
    assert_eq!(r.into_state().log, vec![5]);
}

#[test]
fn pending_applies_step_exactly() {
    let r = MiniNode::pending(fresh()).and_then(MiniStep::Note(7));
    assert!(r.is_pending());
    assert_eq!(r.into_state().log, vec![7]);
}

#[test]
fn composition_is_associative_under_resolution() {
    let left = MiniStep::Ask(MiniPlayer::A)
        .apply(fresh())
        .and_then(MiniStep::Note(1))
        .and_then(MiniStep::Note(2));
    let right = MiniStep::Ask(MiniPlayer::A)
        .apply(fresh())
        .and_then(MiniStep::NotePair(1, 2));
    assert!(left.is_decision() && right.is_decision());
    assert_eq!(left.name().as_str(), "pick");
    assert_eq!(right.name().as_str(), "pick");
    assert_eq!(left.num_branches(), 2);
    assert_eq!(right.num_branches(), 2);
    assert_eq!(left.branch_name(1).as_str(), right.branch_name(1).as_str());
    let lr = left.resolve(1);
    let rr = right.resolve(1);
    assert!(lr.is_pending() && rr.is_pending());
    let ls = lr.into_state();
    let rs = rr.into_state();
    assert_eq!(ls.log, vec![1, 2]);
    assert_eq!(rs.log, vec![1, 2]);
    assert_eq!(ls.a.picked, Some(1));
    assert_eq!(rs.a.picked, Some(1));
}

#[test]
fn fold_of_nothing_is_pending() {
    let r = fold(fresh(), Vec::<MiniStep>::new());
    assert!(r.is_pending());
    assert!(r.into_state().log.is_empty());
}

#[test]
fn fold_asks_players_in_order() {
    let r = fold(
        fresh(),
        vec![MiniStep::Ask(MiniPlayer::A), MiniStep::Ask(MiniPlayer::B)],
    );
    assert!(r.is_decision());
    assert_eq!(r.decision_player(), MiniPlayer::A);
    let inner = r.resolve(0);
    assert!(inner.is_decision());
    assert_eq!(inner.decision_player(), MiniPlayer::B);
    let done = inner.resolve(1);
    assert!(done.is_pending());
    let s = done.into_state();
    assert_eq!(s.a.picked, Some(0));
    assert_eq!(s.b.picked, Some(1));
}

#[test]
fn decision_build_rejects_zero_choices() {
    let built = DecisionBuilder::<MiniState, usize>::new("empty", MiniPlayer::A)
        .build(fresh(), |i| MiniStep::Pick(MiniPlayer::A, i));
    assert!(built.is_err());
}

#[test]
fn chance_build_rejects_zero_possibilities() {
    let built = ChanceBuilder::<String>::new("empty")
        .build(fresh(), |_lab| MiniStep::Note(0));
    assert!(built.is_err());
}

fn coin() -> MiniNode {
    let built = ChanceBuilder::<String>::new("coin")
        .possibilities(vec![
            (Weight::new(1, 10), "A".to_string()),
            (Weight::new(9, 10), "B".to_string()),
        ])
        .build(fresh(), |lab: String| {
            if lab.as_str() == "A" {
                MiniStep::Note(1)
            } else {
                MiniStep::Note(2)
            }
        });
    match built {
        Ok(n) => n,
        Err(_) => panic!("two possibilities were accumulated"),
    }
}

#[test]
fn chance_node_exposes_weighted_possibilities_in_order() {
    let n = coin();
    assert!(n.is_chance());
    assert_eq!(n.name().as_str(), "coin");
    assert_eq!(n.num_branches(), 2);
    assert_eq!(n.branch_name(0).as_str(), "A");
    assert_eq!(n.branch_name(1).as_str(), "B");
    assert_eq!(n.possibility_weight(0).num(), 1);
    assert_eq!(n.possibility_weight(0).den(), 10);
    assert_eq!(n.possibility_weight(1).num(), 9);
    assert_eq!(n.possibility_weight(1).den(), 10);
}

#[test]
fn resolving_one_possibility_never_runs_the_other() {
    let first = coin().resolve(0);
    assert_eq!(first.into_state().log, vec![1]);
    let second = coin().resolve(1);
    assert_eq!(second.into_state().log, vec![2]);
}

#[test]
fn chained_hooks_short_circuit_on_end() {
    let n = StartHook
        .on_turn_start(fresh())
        .and_then(MiniStep::TurnEnd)
        .and_then(MiniStep::Boom);
    assert!(n.is_end());
    assert_eq!(n.into_state().log, vec![100, 200]);
}

#[test]
fn default_hooks_continue_without_branching() {
    let n: MiniNode = StartHook.on_etb(fresh());
    assert!(n.is_pending());
    assert!(n.into_state().log.is_empty());
}

#[test]
fn into_result_separates_open_from_finished() {
    assert!(MiniNode::pending(fresh()).into_result().is_ok());
    assert!(MiniNode::end(fresh()).into_result().is_err());
    let done = MiniNode::end(fresh());
    let back = MiniNode::from_error(done);
    assert!(back.is_end());
    let open = MiniNode::pending(fresh());
    let back = MiniNode::from_ok(open);
    assert!(back.is_pending());
}

#[test]
fn yn_choices_offer_yes_then_no() {
    let build = || {
        let built = DecisionBuilder::<MiniState, bool>::new("go on?", MiniPlayer::A)
            .yn_choices()
            .build(fresh(), |yes| MiniStep::Note(if yes { 1 } else { 0 }));
        match built {
            Ok(n) => n,
            Err(_) => panic!("two choices were accumulated"),
        }
    };
    let n = build();
    assert_eq!(n.num_branches(), 2);
    assert_eq!(n.branch_name(0).as_str(), "Yes");
    assert_eq!(n.branch_name(1).as_str(), "No");
    assert_eq!(n.resolve(0).into_state().log, vec![1]);
    assert_eq!(build().resolve(1).into_state().log, vec![0]);
}

#[test]
fn indexed_choices_pair_positions_with_labels() {
    let built = DecisionBuilder::<MiniState, usize>::new("slot", MiniPlayer::B)
        .indexed_choices(vec!["x".to_string(), "y".to_string(), "z".to_string()])
        .build(fresh(), |i| MiniStep::Note(i as u64));
    let n = match built {
        Ok(n) => n,
        Err(_) => panic!("three choices were accumulated"),
    };
    assert_eq!(n.num_branches(), 3);
    assert_eq!(n.branch_name(0).as_str(), "x");
    assert_eq!(n.branch_name(2).as_str(), "z");
    assert_eq!(n.decision_player(), MiniPlayer::B);
    assert_eq!(n.resolve(2).into_state().log, vec![2]);
}

#[test]
fn string_payloads_label_themselves() {
    let built = DecisionBuilder::<MiniState, String>::new("word", MiniPlayer::A)
        .choice("alpha".to_string())
        .choices(vec!["beta".to_string(), "gamma".to_string()])
        .build(fresh(), |w: String| MiniStep::Note(w.len() as u64));
    let n = match built {
        Ok(n) => n,
        Err(_) => panic!("three choices were accumulated"),
    };
    assert_eq!(n.num_branches(), 3);
    assert_eq!(n.branch_name(0).as_str(), "alpha");
    assert_eq!(n.branch_name(1).as_str(), "beta");
    assert_eq!(n.branch_name(2).as_str(), "gamma");
    assert_eq!(n.resolve(1).into_state().log, vec![4]);
}

#[test]
fn named_possibility_keeps_label_weight_and_order() {
    let built = ChanceBuilder::<u64>::new("spin")
        .named_possibility("low", Weight::new(1, 2), 10)
        .named_possibilities(vec![("high".to_string(), Weight::new(1, 3), 20)])
        .build(fresh(), |x| MiniStep::Note(x));
    let n = match built {
        Ok(n) => n,
        Err(_) => panic!("two possibilities were accumulated"),
    };
    assert_eq!(n.num_branches(), 2);
    assert_eq!(n.branch_name(0).as_str(), "low");
    assert_eq!(n.branch_name(1).as_str(), "high");
    assert_eq!(n.possibility_weight(1).num(), 1);
    assert_eq!(n.possibility_weight(1).den(), 3);
    assert_eq!(n.resolve(1).into_state().log, vec![20]);
}

#[test]
fn player_values_enumerate_in_declaration_order() {
    assert_eq!(MiniPlayer::values(), vec![MiniPlayer::A, MiniPlayer::B]);
}
