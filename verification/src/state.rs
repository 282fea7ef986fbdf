//! The tree of suspended computations that a simulation is built from.
//!
//! A [`Node`] pairs a state snapshot with a [`Branches`] value: a decision
//! owed to one player, a weighted chance event, a pending continuation, or
//! the end of the simulation. Steps are composed with [`Node::and_then`] and
//! [`fold`] without enumerating the tree eagerly: composition distributes
//! structurally into every open branch and is only run when a branch is
//! resolved.

use vstd::prelude::*;

verus! {

// ---------------------------------------------------------------------------
// Contracts the domain supplies
// ---------------------------------------------------------------------------

/// Identity of an agent: a small, closed, copyable set of tags whose
/// enumeration order is the canonical decision order used by [`fold`].
pub trait PlayerBase: Sized + Copy {
    /// The canonical, exhaustive sequence of player values. A domain
    /// overrides this; the default leaves it unconstrained.
    open spec fn value_seq() -> Seq<Self> {
        vstd::pervasive::arbitrary()
    }

    /// All player values, in canonical decision order.
    fn values() -> (r: Vec<Self>)
        ensures
            r@ == Self::value_seq(),
    ;
}

/// The opaque per-player record a [`StateBase`] aggregate owns; the engine
/// never inspects it.
pub trait PlayerStateBase: Sized + Clone {
}

/// The simulation state carried through every node: a clonable aggregate
/// that exposes one sub-state per player value.
pub trait StateBase: Sized + Clone {
    type Player: PlayerBase;

    type PlayerState: PlayerStateBase;

    /// The sub-state that `player` owns. A domain overrides this; the
    /// default leaves it unconstrained.
    open spec fn player_spec(self, player: Self::Player) -> Self::PlayerState {
        vstd::pervasive::arbitrary()
    }

    /// This state with `player`'s sub-state replaced. A domain overrides
    /// this; the default leaves it unconstrained.
    open spec fn with_player(self, player: Self::Player, ps: Self::PlayerState) -> Self {
        vstd::pervasive::arbitrary()
    }

    /// Read access to the sub-state that `player` owns.
    fn player(&self, player: Self::Player) -> (r: &Self::PlayerState)
        ensures
            *r == self.player_spec(player),
    ;

    /// Read-write access to the sub-state that `player` owns.
    fn player_mut(&mut self, player: Self::Player) -> (r: &mut Self::PlayerState)
        ensures
            *r == old(self).player_spec(player),
            *final(self) == old(self).with_player(player, *final(r)),
    ;
}

/// One suspended step of a simulation: a first-class value that, applied to a
/// state, produces the next [`Node`]. Steps are plain copyable data, so a
/// branch's continuation is a sequence of steps rather than a closure, and
/// composition appends to that sequence.
pub trait StepBase<S: StateBase>: Sized + Copy {
    /// When the step may be applied to `s`. A domain overrides this; the
    /// default leaves it unconstrained.
    open spec fn enabled(self, s: S) -> bool {
        vstd::pervasive::arbitrary()
    }

    /// The node that applying this step to `s` produces. A domain overrides
    /// this; the default leaves it unconstrained.
    open spec fn apply_spec(self, s: S) -> NodeModel<S, Self> {
        vstd::pervasive::arbitrary()
    }

    /// Applies the step to `s`.
    fn apply(self, s: S) -> (n: Node<S, Self>)
        requires
            self.enabled(s),
        ensures
            n@ == self.apply_spec(s),
            n@.wf(),
    ;
}

// ---------------------------------------------------------------------------
// The mathematical model of a node
// ---------------------------------------------------------------------------

/// Model of one labeled choice: its label and the steps that run, in order,
/// when the choice is resolved.
#[verifier::ext_equal]
pub struct ChoiceModel<P> {
    pub name: Seq<char>,
    pub steps: Seq<P>,
}

/// Model of one labeled, weighted chance outcome.
#[verifier::ext_equal]
pub struct PossibilityModel<P> {
    pub name: Seq<char>,
    pub weight: Weight,
    pub steps: Seq<P>,
}

/// Model of a decision branch point.
#[verifier::ext_equal]
pub struct DecisionModel<S: StateBase, P> {
    pub name: Seq<char>,
    pub player: S::Player,
    pub choices: Seq<ChoiceModel<P>>,
}

/// Model of a chance branch point.
#[verifier::ext_equal]
pub struct ChanceModel<P> {
    pub name: Seq<char>,
    pub possibilities: Seq<PossibilityModel<P>>,
}

/// Model of the four kinds of branch point.
#[verifier::ext_equal]
pub enum BranchesModel<S: StateBase, P> {
    Chance(ChanceModel<P>),
    Decision(DecisionModel<S, P>),
    Pending,
    End,
}

/// Model of a node: the state as of entering the node, before the node's own
/// branch is resolved, paired with its branch point.
#[verifier::ext_equal]
pub struct NodeModel<S: StateBase, P> {
    pub state: S,
    pub branches: BranchesModel<S, P>,
}

/// The model of a terminal node over `s`.
pub open spec fn end_spec<S: StateBase, P>(s: S) -> NodeModel<S, P> {
    NodeModel { state: s, branches: BranchesModel::End }
}

/// The model of a pending node over `s`.
pub open spec fn pending_spec<S: StateBase, P>(s: S) -> NodeModel<S, P> {
    NodeModel { state: s, branches: BranchesModel::Pending }
}

impl<S: StateBase, P> NodeModel<S, P> {
    /// Well-formedness: a branch point offers at least one alternative, and
    /// every alternative carries at least one step to run.
    pub open spec fn wf(self) -> bool {
        match self.branches {
            BranchesModel::Decision(d) => d.choices.len() >= 1 && (forall|i: int|
                0 <= i < d.choices.len() ==> (#[trigger] d.choices[i]).steps.len() >= 1),
            BranchesModel::Chance(c) => c.possibilities.len() >= 1 && (forall|i: int|
                0 <= i < c.possibilities.len() ==> (#[trigger] c.possibilities[i]).steps.len()
                    >= 1),
            BranchesModel::Pending => true,
            BranchesModel::End => true,
        }
    }

    /// Whether the node is a branch point a driver must resolve.
    pub open spec fn is_branching(self) -> bool {
        self.branches is Decision || self.branches is Chance
    }

    /// How many alternatives the node offers.
    pub open spec fn branch_count(self) -> int {
        match self.branches {
            BranchesModel::Decision(d) => d.choices.len() as int,
            BranchesModel::Chance(c) => c.possibilities.len() as int,
            BranchesModel::Pending => 0,
            BranchesModel::End => 0,
        }
    }

    /// The label of alternative `i`.
    pub open spec fn branch_name(self, i: int) -> Seq<char> {
        match self.branches {
            BranchesModel::Decision(d) => d.choices[i].name,
            BranchesModel::Chance(c) => c.possibilities[i].name,
            BranchesModel::Pending => Seq::empty(),
            BranchesModel::End => Seq::empty(),
        }
    }

    /// The steps that run when alternative `i` is resolved.
    pub open spec fn branch_steps(self, i: int) -> Seq<P> {
        match self.branches {
            BranchesModel::Decision(d) => d.choices[i].steps,
            BranchesModel::Chance(c) => c.possibilities[i].steps,
            BranchesModel::Pending => Seq::empty(),
            BranchesModel::End => Seq::empty(),
        }
    }
}

// ---------------------------------------------------------------------------
// Composition, in the model
// ---------------------------------------------------------------------------

/// Appends `f` to every choice's step sequence.
pub open spec fn push_step_choices<P>(cs: Seq<ChoiceModel<P>>, f: P) -> Seq<ChoiceModel<P>> {
    cs.map_values(|c: ChoiceModel<P>| ChoiceModel { name: c.name, steps: c.steps.push(f) })
}

/// Appends `f` to every possibility's step sequence.
pub open spec fn push_step_possibilities<P>(ps: Seq<PossibilityModel<P>>, f: P) -> Seq<
    PossibilityModel<P>,
> {
    ps.map_values(
        |p: PossibilityModel<P>|
            PossibilityModel { name: p.name, weight: p.weight, steps: p.steps.push(f) },
    )
}

/// Appends the steps of `extra`, in order, to every choice's step sequence:
/// the shape of a branch point after several compositions.
pub open spec fn append_steps<P>(cs: Seq<ChoiceModel<P>>, extra: Seq<P>) -> Seq<ChoiceModel<P>> {
    cs.map_values(|c: ChoiceModel<P>| ChoiceModel { name: c.name, steps: c.steps + extra })
}

/// What composing step `f` after node `n` yields: pending runs `f` at once,
/// end absorbs `f`, and a branch point distributes `f` into every
/// alternative, preserving labels, players and weights.
pub open spec fn and_then_spec<S: StateBase, P: StepBase<S>>(n: NodeModel<S, P>, f: P) -> NodeModel<
    S,
    P,
> {
    match n.branches {
        BranchesModel::Pending => f.apply_spec(n.state),
        BranchesModel::End => n,
        BranchesModel::Decision(d) => NodeModel {
            state: n.state,
            branches: BranchesModel::Decision(
                DecisionModel {
                    name: d.name,
                    player: d.player,
                    choices: push_step_choices(d.choices, f),
                },
            ),
        },
        BranchesModel::Chance(c) => NodeModel {
            state: n.state,
            branches: BranchesModel::Chance(
                ChanceModel {
                    name: c.name,
                    possibilities: push_step_possibilities(c.possibilities, f),
                },
            ),
        },
    }
}

/// What composing a step `f` after a node that is not pending yields: end
/// absorbs `f`, and a branch point distributes `f` into every alternative.
/// This is [`and_then_spec`] restricted to the cases that never run `f` at
/// once, so it needs nothing of how steps apply.
pub open spec fn queue_spec<S: StateBase, P>(n: NodeModel<S, P>, f: P) -> NodeModel<S, P> {
    match n.branches {
        BranchesModel::Pending => n,
        BranchesModel::End => n,
        BranchesModel::Decision(d) => NodeModel {
            state: n.state,
            branches: BranchesModel::Decision(
                DecisionModel {
                    name: d.name,
                    player: d.player,
                    choices: push_step_choices(d.choices, f),
                },
            ),
        },
        BranchesModel::Chance(c) => NodeModel {
            state: n.state,
            branches: BranchesModel::Chance(
                ChanceModel {
                    name: c.name,
                    possibilities: push_step_possibilities(c.possibilities, f),
                },
            ),
        },
    }
}

/// When composing `f` after `n` may run: only a pending node applies `f`
/// immediately, so only there is `f`'s own precondition owed.
pub open spec fn can_and_then<S: StateBase, P: StepBase<S>>(n: NodeModel<S, P>, f: P) -> bool {
    n.branches is Pending ==> f.enabled(n.state)
}

/// When the whole sequence `steps` may be composed after `n`, one after the
/// other.
pub open spec fn chain_ok<S: StateBase, P: StepBase<S>>(n: NodeModel<S, P>, steps: Seq<P>) -> bool
    decreases steps.len(),
{
    steps.len() == 0 || (can_and_then(n, steps[0]) && chain_ok(
        and_then_spec(n, steps[0]),
        steps.skip(1),
    ))
}

/// Composes every step of `steps` after `n`, left to right.
pub open spec fn chain_spec<S: StateBase, P: StepBase<S>>(n: NodeModel<S, P>, steps: Seq<P>) -> NodeModel<
    S,
    P,
>
    decreases steps.len(),
{
    if steps.len() == 0 {
        n
    } else {
        chain_spec(and_then_spec(n, steps[0]), steps.skip(1))
    }
}

/// What [`fold`] yields: every step composed, in order, after a pending node.
pub open spec fn fold_spec<S: StateBase, P: StepBase<S>>(s: S, steps: Seq<P>) -> NodeModel<S, P> {
    chain_spec(pending_spec(s), steps)
}

/// When a driver may resolve alternative `i` of `n`: the first step of the
/// alternative is enabled on the node's state, and the rest of the chain is
/// composable after its result.
pub open spec fn resolve_ok<S: StateBase, P: StepBase<S>>(n: NodeModel<S, P>, i: int) -> bool {
    &&& n.is_branching()
    &&& 0 <= i < n.branch_count()
    &&& n.branch_steps(i).len() >= 1
    &&& n.branch_steps(i)[0].enabled(n.state)
    &&& chain_ok(n.branch_steps(i)[0].apply_spec(n.state), n.branch_steps(i).skip(1))
}

/// What resolving alternative `i` of `n` yields: the alternative's first
/// step applied to the node's state, with the remaining steps composed after
/// it in order.
pub open spec fn resolve_spec<S: StateBase, P: StepBase<S>>(n: NodeModel<S, P>, i: int) -> NodeModel<
    S,
    P,
> {
    chain_spec(n.branch_steps(i)[0].apply_spec(n.state), n.branch_steps(i).skip(1))
}

// ---------------------------------------------------------------------------
// The executable tree
// ---------------------------------------------------------------------------

/// A rational, non-negative weight attached to a chance outcome.
///
/// Weights need not sum to one across the outcomes of a chance node; the
/// driver normalizes. Exact rationals keep deterministic simulations exact.
#[derive(Clone, Copy, PartialEq, Eq, Structural, Debug)]
pub struct Weight {
    num: u64,
    den: u64,
}

impl Weight {
    /// The numerator of the weight.
    pub closed spec fn num_spec(self) -> u64 {
        self.num
    }

    /// The denominator of the weight.
    pub closed spec fn den_spec(self) -> u64 {
        self.den
    }

    /// A weight is well formed when its denominator is positive.
    pub open spec fn wf(self) -> bool {
        self.den_spec() >= 1
    }

    /// Builds the weight `num / den`.
    pub fn new(num: u64, den: u64) -> (r: Weight)
        requires
            den >= 1,
        ensures
            r.num_spec() == num,
            r.den_spec() == den,
    {
        Weight { num, den }
    }

    /// The numerator.
    pub fn num(self) -> (r: u64)
        ensures
            r == self.num_spec(),
    {
        self.num
    }

    /// The denominator.
    pub fn den(self) -> (r: u64)
        ensures
            r == self.den_spec(),
    {
        self.den
    }
}

/// One labeled choice of a [`Decision`]: resolving it runs its steps in
/// order, starting from the node's state.
pub struct Choice<P> {
    name: String,
    steps: Vec<P>,
}

impl<P> View for Choice<P> {
    type V = ChoiceModel<P>;

    closed spec fn view(&self) -> ChoiceModel<P> {
        ChoiceModel { name: self.name@, steps: self.steps@ }
    }
}

/// One labeled, weighted outcome of a [`Chance`].
pub struct Possibility<P> {
    name: String,
    weight: Weight,
    steps: Vec<P>,
}

impl<P> View for Possibility<P> {
    type V = PossibilityModel<P>;

    closed spec fn view(&self) -> PossibilityModel<P> {
        PossibilityModel { name: self.name@, weight: self.weight, steps: self.steps@ }
    }
}

/// A branch point resolved by `player` choosing among named options.
pub struct Decision<S: StateBase, P> {
    name: String,
    player: S::Player,
    choices: Vec<Choice<P>>,
}

impl<S: StateBase, P> View for Decision<S, P> {
    type V = DecisionModel<S, P>;

    closed spec fn view(&self) -> DecisionModel<S, P> {
        DecisionModel {
            name: self.name@,
            player: self.player,
            choices: self.choices@.map_values(|c: Choice<P>| c@),
        }
    }
}

/// A branch point resolved by sampling among named, weighted outcomes.
pub struct Chance<P> {
    name: String,
    possibilities: Vec<Possibility<P>>,
}

impl<P> View for Chance<P> {
    type V = ChanceModel<P>;

    closed spec fn view(&self) -> ChanceModel<P> {
        ChanceModel {
            name: self.name@,
            possibilities: self.possibilities@.map_values(|p: Possibility<P>| p@),
        }
    }
}

/// The four kinds of branch point a node can carry.
pub enum Branches<S: StateBase, P> {
    Chance(Chance<P>),
    Decision(Decision<S, P>),
    Pending,
    End,
}

impl<S: StateBase, P> View for Branches<S, P> {
    type V = BranchesModel<S, P>;

    closed spec fn view(&self) -> BranchesModel<S, P> {
        match self {
            Branches::Chance(c) => BranchesModel::Chance(c@),
            Branches::Decision(d) => BranchesModel::Decision(d@),
            Branches::Pending => BranchesModel::Pending,
            Branches::End => BranchesModel::End,
        }
    }
}

/// A state snapshot paired with the branch point that suspends it.
pub struct Node<S: StateBase, P> {
    state: S,
    branches: Branches<S, P>,
}

impl<S: StateBase, P> View for Node<S, P> {
    type V = NodeModel<S, P>;

    closed spec fn view(&self) -> NodeModel<S, P> {
        NodeModel { state: self.state, branches: self.branches@ }
    }
}

impl<S: StateBase, P> Node<S, P> {
    /// Builds a terminal node: the simulation is over and `state` is final.
    pub fn end(state: S) -> (r: Node<S, P>)
        ensures
            r@ == end_spec::<S, P>(state),
            r@.wf(),
    {
        Node { state, branches: Branches::End }
    }

    /// Builds a node whose state is ready for the next automatic step.
    pub fn pending(state: S) -> (r: Node<S, P>)
        ensures
            r@ == pending_spec::<S, P>(state),
            r@.wf(),
    {
        Node { state, branches: Branches::Pending }
    }

    /// Queues step `f` after every alternative of a node that is not
    /// pending: a terminal node absorbs `f` unchanged (the short-circuit
    /// rule, so `f` never runs), and a branch point distributes `f` into
    /// every alternative, so that whichever alternative is eventually
    /// resolved, `f` runs afterwards on that branch's result.
    pub fn queue(self, f: P) -> (r: Node<S, P>) where P: Copy
        requires
            self@.wf(),
            !(self@.branches is Pending),
        ensures
            r@ == queue_spec(self@, f),
            r@.wf(),
    {
        match self.branches {
            Branches::Pending => {
                proof {
                    assert(false);
                }
                vstd::pervasive::unreached()
            },
            Branches::End => Node { state: self.state, branches: Branches::End },
            Branches::Decision(d) => {
                let Decision { name, player, mut choices } = d;
                let ghost orig = choices@;
                let mut out: Vec<Choice<P>> = Vec::new();
                while choices.len() > 0
                    invariant
                        out@.len() + choices@.len() == orig.len(),
                        choices@ == orig.skip(out@.len() as int),
                        forall|j: int|
                            0 <= j < out@.len() ==> #[trigger] out@[j]@ == (ChoiceModel {
                                name: orig[j]@.name,
                                steps: orig[j]@.steps.push(f),
                            }),
                    decreases choices.len(),
                {
                    let ghost k = out@.len() as int;
                    let mut c = choices.remove(0);
                    c.steps.push(f);
                    out.push(c);
                    proof {
                        assert(choices@ =~= orig.skip(k + 1));
                    }
                }
                let r = Node {
                    state: self.state,
                    branches: Branches::Decision(Decision { name, player, choices: out }),
                };
                proof {
                    assert(r@.branches->Decision_0.choices =~~= push_step_choices(
                        self@.branches->Decision_0.choices,
                        f,
                    ));
                    assert(r@ =~~= queue_spec(self@, f));
                }
                r
            },
            Branches::Chance(ch) => {
                let Chance { name, mut possibilities } = ch;
                let ghost orig = possibilities@;
                let mut out: Vec<Possibility<P>> = Vec::new();
                while possibilities.len() > 0
                    invariant
                        out@.len() + possibilities@.len() == orig.len(),
                        possibilities@ == orig.skip(out@.len() as int),
                        forall|j: int|
                            0 <= j < out@.len() ==> #[trigger] out@[j]@ == (PossibilityModel {
                                name: orig[j]@.name,
                                weight: orig[j]@.weight,
                                steps: orig[j]@.steps.push(f),
                            }),
                    decreases possibilities.len(),
                {
                    let ghost k = out@.len() as int;
                    let mut p = possibilities.remove(0);
                    p.steps.push(f);
                    out.push(p);
                    proof {
                        assert(possibilities@ =~= orig.skip(k + 1));
                    }
                }
                let r = Node {
                    state: self.state,
                    branches: Branches::Chance(Chance { name, possibilities: out }),
                };
                proof {
                    assert(r@.branches->Chance_0.possibilities =~~= push_step_possibilities(
                        self@.branches->Chance_0.possibilities,
                        f,
                    ));
                    assert(r@ =~~= queue_spec(self@, f));
                }
                r
            },
        }
    }
}

impl<S: StateBase, P: StepBase<S>> Node<S, P> {
    /// Appends step `f` after the computation this node represents.
    ///
    /// A pending node applies `f` at once; a terminal node absorbs `f`
    /// unchanged (the short-circuit rule, so `f` never runs); a branch point
    /// distributes `f` into every alternative, so that whichever alternative
    /// is eventually resolved, `f` runs afterwards on that branch's result.
    pub fn and_then(self, f: P) -> (r: Node<S, P>)
        requires
            self@.wf(),
            can_and_then(self@, f),
        ensures
            r@ == and_then_spec(self@, f),
            r@.wf(),
    {
        if self.is_pending() {
            let Node { state, branches: _ } = self;
            f.apply(state)
        } else {
            self.queue(f)
        }
    }
}

impl<S: StateBase, P: StepBase<S>> Node<S, P> {
    /// Resolves alternative `i` of a decision or chance node: runs the
    /// alternative's first step on the node's state and composes the
    /// remaining steps after it, in order. Continuations are one-shot: the
    /// node is consumed, so no alternative can be resolved twice.
    pub fn resolve(self, i: usize) -> (r: Node<S, P>)
        requires
            self@.wf(),
            resolve_ok(self@, i as int),
        ensures
            r@ == resolve_spec(self@, i as int),
            r@.wf(),
    {
        let Node { state, branches } = self;
        let steps: Vec<P> = match branches {
            Branches::Decision(d) => {
                let Decision { name: _, player: _, choices: mut cs } = d;
                let c = cs.remove(i);
                c.steps
            },
            Branches::Chance(c) => {
                let Chance { name: _, possibilities: mut ps } = c;
                let p = ps.remove(i);
                p.steps
            },
            _ => {
                proof {
                    assert(false);
                }
                vstd::pervasive::unreached()
            },
        };
        let ghost m0 = steps@[0].apply_spec(state);
        let first = steps[0];
        let mut n = first.apply(state);
        let mut j: usize = 1;
        while j < steps.len()
            invariant
                1 <= j <= steps@.len(),
                n@.wf(),
                n@ == chain_spec(m0, steps@.subrange(1, j as int)),
                chain_ok(n@, steps@.skip(j as int)),
            decreases steps@.len() - j,
        {
            proof {
                assert(steps@.skip(j as int)[0] == steps@[j as int]);
            }
            let s = steps[j];
            n = n.and_then(s);
            proof {
                assert(steps@.skip(j as int).skip(1) =~= steps@.skip(j as int + 1));
                assert(steps@.subrange(1, j as int + 1) =~= steps@.subrange(1, j as int).push(
                    steps@[j as int],
                ));
                lemma_chain_spec_push(m0, steps@.subrange(1, j as int), steps@[j as int]);
            }
            j += 1;
        }
        proof {
            assert(steps@.subrange(1, steps@.len() as int) =~= steps@.skip(1));
        }
        n
    }

}

impl<S: StateBase, P> Node<S, P> {
    /// The short-circuit protocol: a node still open for composition comes
    /// back as `Ok`, a terminal node as `Err`, so that a chain of steps can
    /// stop composing as soon as the simulation has ended.
    pub fn into_result(self) -> (r: Result<Node<S, P>, Node<S, P>>)
        ensures
            r is Err <==> self@.branches is End,
            r is Err ==> r->Err_0 == self,
            r is Ok ==> r->Ok_0 == self,
    {
        match &self.branches {
            Branches::End => Err(self),
            Branches::Chance(_) => Ok(self),
            Branches::Decision(_) => Ok(self),
            Branches::Pending => Ok(self),
        }
    }

    /// Recovers a node from the "already finished" side of the protocol:
    /// the terminal node is the early-return value [`Self::into_result`]
    /// hands out, and it comes back unchanged, so it propagates out of a
    /// chain of steps with none of the later steps running.
    pub fn from_error(v: Node<S, P>) -> (r: Node<S, P>)
        requires
            v@.branches is End,
        ensures
            r == v,
    {
        v
    }

    /// Recovers a node from the "still going" side of the protocol:
    /// rewrapping a node that is still open for composition is the identity.
    pub fn from_ok(v: Node<S, P>) -> (r: Node<S, P>)
        requires
            !(v@.branches is End),
        ensures
            r == v,
    {
        v
    }

    /// Consumes the node and hands back the state as of entering it.
    pub fn into_state(self) -> (r: S)
        ensures
            r == self@.state,
    {
        self.state
    }

    /// Whether the simulation is over at this node.
    pub fn is_end(&self) -> (r: bool)
        ensures
            r == (self@.branches is End),
    {
        matches!(self.branches, Branches::End)
    }

    /// Whether the node is ready for the next automatic step.
    pub fn is_pending(&self) -> (r: bool)
        ensures
            r == (self@.branches is Pending),
    {
        matches!(self.branches, Branches::Pending)
    }

    /// Whether the node is a decision owed to a player.
    pub fn is_decision(&self) -> (r: bool)
        ensures
            r == (self@.branches is Decision),
    {
        matches!(self.branches, Branches::Decision(_))
    }

    /// Whether the node is a chance event.
    pub fn is_chance(&self) -> (r: bool)
        ensures
            r == (self@.branches is Chance),
    {
        matches!(self.branches, Branches::Chance(_))
    }

    /// The name of the branch point.
    pub fn name(&self) -> (r: &String)
        requires
            self@.is_branching(),
        ensures
            self@.branches matches BranchesModel::Decision(d) ==> r@ == d.name,
            self@.branches matches BranchesModel::Chance(c) ==> r@ == c.name,
    {
        match &self.branches {
            Branches::Decision(d) => &d.name,
            Branches::Chance(c) => &c.name,
            _ => {
                proof {
                    assert(false);
                }
                vstd::pervasive::unreached()
            },
        }
    }

    /// How many alternatives the branch point offers.
    pub fn num_branches(&self) -> (r: usize)
        requires
            self@.is_branching(),
        ensures
            r == self@.branch_count(),
    {
        match &self.branches {
            Branches::Decision(d) => d.choices.len(),
            Branches::Chance(c) => c.possibilities.len(),
            _ => {
                proof {
                    assert(false);
                }
                vstd::pervasive::unreached()
            },
        }
    }

    /// The label of alternative `i`.
    pub fn branch_name(&self, i: usize) -> (r: &String)
        requires
            self@.is_branching(),
            i < self@.branch_count(),
        ensures
            r@ == self@.branch_name(i as int),
    {
        match &self.branches {
            Branches::Decision(d) => &d.choices[i].name,
            Branches::Chance(c) => &c.possibilities[i].name,
            _ => {
                proof {
                    assert(false);
                }
                vstd::pervasive::unreached()
            },
        }
    }

    /// The player who must resolve this decision.
    pub fn decision_player(&self) -> (r: S::Player)
        requires
            self@.branches is Decision,
        ensures
            self@.branches matches BranchesModel::Decision(d) ==> r == d.player,
    {
        match &self.branches {
            Branches::Decision(d) => d.player,
            _ => {
                proof {
                    assert(false);
                }
                vstd::pervasive::unreached()
            },
        }
    }

    /// The weight of possibility `i` of this chance node.
    pub fn possibility_weight(&self, i: usize) -> (r: Weight)
        requires
            self@.branches is Chance,
            i < self@.branch_count(),
        ensures
            self@.branches matches BranchesModel::Chance(c) ==> r == c.possibilities[i as int].weight,
    {
        match &self.branches {
            Branches::Chance(c) => c.possibilities[i].weight,
            _ => {
                proof {
                    assert(false);
                }
                vstd::pervasive::unreached()
            },
        }
    }
}

/// Sequentially composes one step per item: starting from a pending node
/// over `state`, every step of `steps` is composed in order with
/// [`Node::and_then`], so each step's branching is chained inside every
/// branch the earlier steps introduced.
pub fn fold<S: StateBase, P: StepBase<S>>(state: S, steps: Vec<P>) -> (r: Node<S, P>)
    requires
        chain_ok(pending_spec::<S, P>(state), steps@),
    ensures
        r@ == fold_spec(state, steps@),
        r@.wf(),
{
    let ghost m0 = pending_spec::<S, P>(state);
    let mut n = Node::pending(state);
    proof {
        assert(steps@.skip(0) =~= steps@);
        assert(steps@.subrange(0, 0) =~= Seq::<P>::empty());
        assert(chain_spec(m0, Seq::<P>::empty()) == m0);
    }
    let mut j: usize = 0;
    while j < steps.len()
        invariant
            j <= steps@.len(),
            n@.wf(),
            n@ == chain_spec(m0, steps@.subrange(0, j as int)),
            chain_ok(n@, steps@.skip(j as int)),
        decreases steps@.len() - j,
    {
        proof {
            assert(steps@.skip(j as int)[0] == steps@[j as int]);
        }
        let s = steps[j];
        n = n.and_then(s);
        proof {
            assert(steps@.skip(j as int).skip(1) =~= steps@.skip(j as int + 1));
            assert(steps@.subrange(0, j as int + 1) =~= steps@.subrange(0, j as int).push(
                steps@[j as int],
            ));
            lemma_chain_spec_push(m0, steps@.subrange(0, j as int), steps@[j as int]);
        }
        j += 1;
    }
    proof {
        assert(steps@.subrange(0, steps@.len() as int) =~= steps@);
    }
    n
}

// ---------------------------------------------------------------------------
// Laws of the composition algebra
// ---------------------------------------------------------------------------

/// Composing after a sequence is a fold: appending one more step at the end
/// composes it after the fold of the rest.
pub proof fn lemma_chain_spec_push<S: StateBase, P: StepBase<S>>(
    n: NodeModel<S, P>,
    s: Seq<P>,
    f: P,
)
    ensures
        chain_spec(n, s.push(f)) == and_then_spec(chain_spec(n, s), f),
    decreases s.len(),
{
    if s.len() == 0 {
        assert(s.push(f).skip(1) =~= Seq::<P>::empty());
        assert(s.push(f)[0] == f);
        assert(chain_spec(and_then_spec(n, f), Seq::<P>::empty()) == and_then_spec(n, f));
        assert(chain_spec(n, Seq::<P>::empty()) == n);
    } else {
        assert(s.push(f)[0] == s[0]);
        assert(s.push(f).skip(1) =~= s.skip(1).push(f));
        lemma_chain_spec_push(and_then_spec(n, s[0]), s.skip(1), f);
    }
}

/// Short-circuit law: a terminal node absorbs any further composition
/// unchanged, and the composed step is never applied.
pub proof fn lemma_end_absorbs<S: StateBase, P: StepBase<S>>(s: S, f: P)
    ensures
        and_then_spec(end_spec::<S, P>(s), f) == end_spec::<S, P>(s),
{
}

/// Identity-on-pending law: composing a step after a pending node applies
/// the step to the pending state, exactly.
pub proof fn lemma_pending_applies<S: StateBase, P: StepBase<S>>(s: S, f: P)
    ensures
        and_then_spec(pending_spec::<S, P>(s), f) == f.apply_spec(s),
{
}

/// Folding an empty sequence of steps yields the pending node unchanged.
pub proof fn lemma_fold_empty<S: StateBase, P: StepBase<S>>(s: S)
    ensures
        fold_spec::<S, P>(s, Seq::empty()) == pending_spec::<S, P>(s),
{
}

/// Associativity of sequential composition: composing `fs` and then `gs`
/// equals composing their concatenation, for every node.
pub proof fn lemma_chain_append<S: StateBase, P: StepBase<S>>(
    n: NodeModel<S, P>,
    fs: Seq<P>,
    gs: Seq<P>,
)
    ensures
        chain_spec(chain_spec(n, fs), gs) == chain_spec(n, fs + gs),
    decreases fs.len(),
{
    if fs.len() == 0 {
        assert(fs + gs =~= gs);
    } else {
        assert((fs + gs)[0] == fs[0]);
        assert((fs + gs).skip(1) =~= fs.skip(1) + gs);
        lemma_chain_append(and_then_spec(n, fs[0]), fs.skip(1), gs);
    }
}

/// Composition distributes into resolution: composing a step after a branch
/// point and then resolving an alternative yields the same node as resolving
/// that alternative first and composing the step after the result.
pub proof fn lemma_and_then_resolve_exchange<S: StateBase, P: StepBase<S>>(
    n: NodeModel<S, P>,
    f: P,
    i: int,
)
    requires
        n.is_branching(),
        0 <= i < n.branch_count(),
        n.branch_steps(i).len() >= 1,
    ensures
        resolve_spec(and_then_spec(n, f), i) == and_then_spec(resolve_spec(n, i), f),
{
    let m = and_then_spec(n, f);
    let steps = n.branch_steps(i);
    assert(m.branch_steps(i) == steps.push(f));
    assert(m.state == n.state);
    assert(steps.push(f)[0] == steps[0]);
    assert(steps.push(f).skip(1) =~= steps.skip(1).push(f));
    lemma_chain_spec_push(steps[0].apply_spec(n.state), steps.skip(1), f);
}

/// A step that settles: applied to any state it yields a pending node.
pub open spec fn settles_pending<S: StateBase, P: StepBase<S>>(st: P) -> bool {
    forall|y: S| (#[trigger] st.apply_spec(y)).branches is Pending
}

/// A step that, applied to any state, yields a two-choice decision for
/// `player` whose choices each run a single step that settles to pending.
pub open spec fn yields_plain_decision<S: StateBase, P: StepBase<S>>(
    st: P,
    player: S::Player,
) -> bool {
    forall|x: S|
        {
            &&& (#[trigger] st.apply_spec(x)).branches matches BranchesModel::Decision(d)
            &&& d.player == player
            &&& d.choices.len() == 2
            &&& (forall|j: int|
                0 <= j < d.choices.len() ==> (#[trigger] d.choices[j]).steps.len() == 1
                    && settles_pending::<S, P>(d.choices[j].steps[0]))
        }
}

/// A step that, applied to any state, yields a decision for `player`.
pub open spec fn yields_decision_for<S: StateBase, P: StepBase<S>>(
    st: P,
    player: S::Player,
) -> bool {
    forall|x: S|
        {
            &&& (#[trigger] st.apply_spec(x)).branches matches BranchesModel::Decision(d)
            &&& d.player == player
        }
}

/// Order preservation of [`fold`]: folding one step per player, where each
/// step asks its own player a question, yields the first player's decision
/// outermost, and resolving any of its choices yields the second player's
/// decision — never the reverse order. The law needs the hypothesis that
/// every choice of the first decision settles back to a pending node: a
/// choice whose continuation ends the simulation absorbs what follows, and
/// the second decision never appears on that branch.
pub proof fn lemma_fold_order<S: StateBase, P: StepBase<S>>(
    s: S,
    st1: P,
    st2: P,
    p1: S::Player,
    p2: S::Player,
    i: int,
)
    requires
        yields_plain_decision(st1, p1),
        yields_decision_for(st2, p2),
        0 <= i < 2,
    ensures
        fold_spec(s, seq![st1, st2]).branches matches BranchesModel::Decision(d) && d.player == p1
            && d.choices.len() == 2,
        resolve_spec(fold_spec(s, seq![st1, st2]), i).branches matches BranchesModel::Decision(d2)
            && d2.player == p2,
{
    let steps = seq![st1, st2];
    let m0 = pending_spec::<S, P>(s);
    assert(steps[0] == st1);
    assert(steps.skip(1) =~= seq![st2]);
    let d1 = st1.apply_spec(s);
    assert(and_then_spec(m0, st1) == d1);
    let n = and_then_spec(d1, st2);
    assert(seq![st2][0] == st2);
    assert(seq![st2].skip(1) =~= Seq::<P>::empty());
    assert(chain_spec(n, Seq::<P>::empty()) == n);
    assert(chain_spec(m0, steps) == chain_spec(and_then_spec(m0, steps[0]), steps.skip(1)));
    assert(chain_spec(d1, seq![st2]) == chain_spec(and_then_spec(d1, st2), seq![st2].skip(1)));
    assert(fold_spec(s, steps) == n);
    let dd = d1.branches->Decision_0;
    let nd = n.branches->Decision_0;
    assert(nd.choices == push_step_choices(dd.choices, st2));
    assert(nd.choices.len() == 2);
    assert(nd.player == p1);
    // Resolving choice i runs the choice's own step, which settles to
    // pending, and the pushed step afterwards, which asks player two.
    let ci = nd.choices[i];
    assert(ci.steps == dd.choices[i].steps.push(st2));
    assert(dd.choices[i].steps.len() == 1);
    let c = dd.choices[i].steps[0];
    assert(ci.steps[0] == c);
    assert(ci.steps.skip(1) =~= seq![st2]);
    assert(n.branch_steps(i) == ci.steps);
    let mid = c.apply_spec(n.state);
    assert(mid.branches is Pending);
    let fin = st2.apply_spec(mid.state);
    assert(and_then_spec(mid, st2) == fin);
    assert(chain_spec(fin, Seq::<P>::empty()) == fin);
    assert(resolve_spec(n, i) == fin);
    assert(fin.branches matches BranchesModel::Decision(d2) && d2.player == p2);
}

/// Associativity, observed through resolution: `a.and_then(f).and_then(g)`,
/// resolved at any alternative, yields the same node as resolving `a` there
/// and composing `f` and then `g` after the result, so chaining two steps
/// one after the other behaves as composing the combined follow-up.
pub proof fn lemma_and_then_associative<S: StateBase, P: StepBase<S>>(
    n: NodeModel<S, P>,
    f: P,
    g: P,
    i: int,
)
    requires
        n.is_branching(),
        0 <= i < n.branch_count(),
        n.branch_steps(i).len() >= 1,
    ensures
        resolve_spec(and_then_spec(and_then_spec(n, f), g), i) == and_then_spec(
            and_then_spec(resolve_spec(n, i), f),
            g,
        ),
{
    let m = and_then_spec(n, f);
    assert(m.branch_steps(i) == n.branch_steps(i).push(f));
    lemma_and_then_resolve_exchange(m, g, i);
    lemma_and_then_resolve_exchange(n, f, i);
}

// ---------------------------------------------------------------------------
// Builders
// ---------------------------------------------------------------------------

/// The fatal error a builder reports when zero alternatives were
/// accumulated: a branch point with no options is a domain bug, never a
/// recoverable runtime condition.
#[derive(Clone, Copy, PartialEq, Eq, Structural, Debug)]
pub enum BuildError {
    NoAlternatives,
}

/// What a successful decision build yields: a decision node over `state`
/// with one choice per accumulated entry, in order, each carrying the
/// entry's label and exactly one step, obtained by `f` from the entry's
/// payload.
pub open spec fn decision_built<S: StateBase, T, P, F: Fn(T) -> P>(
    name: Seq<char>,
    player: S::Player,
    entries: Seq<(Seq<char>, T)>,
    f: F,
    state: S,
    n: NodeModel<S, P>,
) -> bool {
    &&& n.state == state
    &&& n.branches matches BranchesModel::Decision(d) && d.name == name && d.player == player
        && d.choices.len() == entries.len() && (forall|i: int|
        0 <= i < entries.len() ==> {
            &&& (#[trigger] d.choices[i]).name == entries[i].0
            &&& d.choices[i].steps.len() == 1
            &&& call_ensures(f, (entries[i].1,), d.choices[i].steps[0])
        })
}

/// Fluent constructor of a [`Decision`] node: accumulates labeled payloads
/// for a single player, then materializes the node with [`Self::build`].
pub struct DecisionBuilder<S: StateBase, T> {
    player: S::Player,
    name: String,
    choices: Vec<(String, T)>,
}

impl<S: StateBase, T> DecisionBuilder<S, T> {
    /// The name the decision node will carry.
    pub closed spec fn name_spec(self) -> Seq<char> {
        self.name@
    }

    /// The player who will own the decision.
    pub closed spec fn player_spec(self) -> S::Player {
        self.player
    }

    /// The accumulated `(label, payload)` entries, in order.
    pub closed spec fn choices_spec(self) -> Seq<(Seq<char>, T)> {
        self.choices@.map_values(|c: (String, T)| (c.0@, c.1))
    }

    /// Starts an empty decision named `name`, owed to `player`.
    pub fn new(name: &str, player: S::Player) -> (r: Self)
        ensures
            r.name_spec() == name@,
            r.player_spec() == player,
            r.choices_spec() == Seq::<(Seq<char>, T)>::empty(),
    {
        let r = DecisionBuilder { name: name.to_owned(), player, choices: Vec::new() };
        proof {
            assert(r.choices_spec() =~= Seq::<(Seq<char>, T)>::empty());
        }
        r
    }

    /// Appends one labeled payload. Labels need not be unique: a driver
    /// disambiguates colliding labels by position.
    pub fn named_choice(self, name: &str, choice: T) -> (r: Self)
        ensures
            r.name_spec() == self.name_spec(),
            r.player_spec() == self.player_spec(),
            r.choices_spec() == self.choices_spec().push((name@, choice)),
    {
        let DecisionBuilder { player, name: dname, mut choices } = self;
        choices.push((name.to_owned(), choice));
        let r = DecisionBuilder { player, name: dname, choices };
        proof {
            assert(r.choices_spec() =~= self.choices_spec().push((name@, choice)));
        }
        r
    }

    /// Appends many labeled payloads, in order.
    pub fn named_choices(self, choices: Vec<(String, T)>) -> (r: Self)
        ensures
            r.name_spec() == self.name_spec(),
            r.player_spec() == self.player_spec(),
            r.choices_spec() == self.choices_spec() + choices@.map_values(
                |c: (String, T)| (c.0@, c.1),
            ),
    {
        let DecisionBuilder { player, name: dname, choices: mut acc } = self;
        let mut rest = choices;
        acc.append(&mut rest);
        let r = DecisionBuilder { player, name: dname, choices: acc };
        proof {
            assert(r.choices_spec() =~= self.choices_spec() + choices@.map_values(
                |c: (String, T)| (c.0@, c.1),
            ));
        }
        r
    }

    /// Materializes the decision node over `state`. Each accumulated entry
    /// becomes one choice whose single step is obtained by `f` from the
    /// entry's payload, so resolving choice `i` runs the domain's own
    /// callback closed over that specific payload.
    ///
    /// Zero accumulated choices is rejected as a fatal build error, for any
    /// state: a driver would have no valid resolution to offer.
    pub fn build<P, F: Fn(T) -> P>(self, state: S, f: F) -> (r: Result<
        Node<S, P>,
        BuildError,
    >)
        requires
            forall|i: int|
                0 <= i < self.choices_spec().len() ==> call_requires(
                    f,
                    ((#[trigger] self.choices_spec()[i]).1,),
                ),
        ensures
            r is Ok <==> self.choices_spec().len() >= 1,
            r is Err ==> r->Err_0 == BuildError::NoAlternatives,
            r is Ok ==> r->Ok_0@.wf() && decision_built(
                self.name_spec(),
                self.player_spec(),
                self.choices_spec(),
                f,
                state,
                r->Ok_0@,
            ),
    {
        let ghost entries = self.choices_spec();
        let DecisionBuilder { player, name, choices } = self;
        if choices.len() == 0 {
            return Err(BuildError::NoAlternatives);
        }
        let ghost origv = choices@;
        let mut rem = choices;
        let mut out: Vec<Choice<P>> = Vec::new();
        while rem.len() > 0
            invariant
                out@.len() + rem@.len() == entries.len(),
                rem@ == origv.skip(out@.len() as int),
                entries == origv.map_values(|c: (String, T)| (c.0@, c.1)),
                forall|i: int|
                    0 <= i < entries.len() ==> call_requires(f, ((#[trigger] entries[i]).1,)),
                forall|j: int|
                    0 <= j < out@.len() ==> {
                        &&& (#[trigger] out@[j]@).name == entries[j].0
                        &&& out@[j]@.steps.len() == 1
                        &&& call_ensures(f, (entries[j].1,), out@[j]@.steps[0])
                    },
            decreases rem@.len(),
        {
            let ghost k = out@.len() as int;
            proof {
                assert(origv.skip(k)[0] == origv[k]);
                assert(entries[k] == (origv[k].0@, origv[k].1));
            }
            let (cname, payload) = rem.remove(0);
            let step = f(payload);
            let mut steps: Vec<P> = Vec::new();
            steps.push(step);
            out.push(Choice { name: cname, steps });
            proof {
                assert(rem@ =~= origv.skip(k + 1));
            }
        }
        let node = Node {
            state,
            branches: Branches::Decision(Decision { name, player, choices: out }),
        };
        Ok(node)
    }
}

impl<S: StateBase> DecisionBuilder<S, String> {
    /// Appends one choice whose label is the payload's own text.
    pub fn choice(self, choice: String) -> (r: Self)
        ensures
            r.name_spec() == self.name_spec(),
            r.player_spec() == self.player_spec(),
            r.choices_spec() == self.choices_spec().push((choice@, choice)),
    {
        let label = choice.clone();
        self.named_choice(label.as_str(), choice)
    }

    /// Appends many choices, each labeled with its own text, in order.
    pub fn choices(self, items: Vec<String>) -> (r: Self)
        ensures
            r.name_spec() == self.name_spec(),
            r.player_spec() == self.player_spec(),
            r.choices_spec() == self.choices_spec() + items@.map_values(|s: String| (s@, s)),
    {
        let ghost orig = items@;
        let mut rest = items;
        let mut acc = self;
        while rest.len() > 0
            invariant
                acc.name_spec() == self.name_spec(),
                acc.player_spec() == self.player_spec(),
                rest@ == orig.skip(orig.len() - rest@.len()),
                rest@.len() <= orig.len(),
                acc.choices_spec() == self.choices_spec() + orig.subrange(
                    0,
                    orig.len() - rest@.len(),
                ).map_values(|s: String| (s@, s)),
            decreases rest@.len(),
        {
            let ghost k = orig.len() - rest@.len();
            proof {
                assert(orig.skip(k)[0] == orig[k]);
            }
            let item = rest.remove(0);
            acc = acc.choice(item);
            proof {
                assert(rest@ =~= orig.skip(k + 1));
                assert(orig.subrange(0, k + 1) =~= orig.subrange(0, k).push(orig[k]));
                assert(acc.choices_spec() =~= self.choices_spec() + orig.subrange(0, k + 1)
                    .map_values(|s: String| (s@, s)));
            }
        }
        proof {
            assert(orig.subrange(0, orig.len() as int) =~= orig);
        }
        acc
    }
}

impl<S: StateBase> DecisionBuilder<S, usize> {
    /// Derives one choice per label: payload `i` (the position, zero-based)
    /// under label `labels[i]`, in encounter order. This is the "pick one of
    /// your roster" style of menu.
    pub fn indexed_choices(self, labels: Vec<String>) -> (r: Self)
        ensures
            r.name_spec() == self.name_spec(),
            r.player_spec() == self.player_spec(),
            r.choices_spec() == self.choices_spec() + Seq::new(
                labels@.len(),
                |i: int| (labels@[i]@, i as usize),
            ),
    {
        let ghost target = Seq::new(labels@.len(), |i: int| (labels@[i]@, i as usize));
        let mut acc = self;
        let mut i: usize = 0;
        while i < labels.len()
            invariant
                i <= labels@.len(),
                acc.name_spec() == self.name_spec(),
                acc.player_spec() == self.player_spec(),
                target == Seq::new(labels@.len(), |j: int| (labels@[j]@, j as usize)),
                acc.choices_spec() == self.choices_spec() + target.subrange(0, i as int),
            decreases labels@.len() - i,
        {
            let label = labels[i].clone();
            acc = acc.named_choice(label.as_str(), i);
            proof {
                assert(target.subrange(0, i as int + 1) =~= target.subrange(0, i as int).push(
                    target[i as int],
                ));
                assert(acc.choices_spec() =~= self.choices_spec() + target.subrange(
                    0,
                    i as int + 1,
                ));
            }
            i += 1;
        }
        proof {
            assert(target.subrange(0, target.len() as int) =~= target);
        }
        acc
    }
}

impl<S: StateBase> DecisionBuilder<S, bool> {
    /// Appends the two standard yes/no choices, in that order.
    pub fn yn_choices(self) -> (r: Self)
        ensures
            r.name_spec() == self.name_spec(),
            r.player_spec() == self.player_spec(),
            r.choices_spec() == self.choices_spec().push(("Yes"@, true)).push(("No"@, false)),
    {
        self.named_choice("Yes", true).named_choice("No", false)
    }
}

/// What a successful chance build yields: a chance node over `state` with
/// one possibility per accumulated entry, in order, each carrying the
/// entry's label and weight and exactly one step, obtained by `f` from the
/// entry's payload.
pub open spec fn chance_built<S: StateBase, T, P, F: Fn(T) -> P>(
    name: Seq<char>,
    entries: Seq<(Seq<char>, Weight, T)>,
    f: F,
    state: S,
    n: NodeModel<S, P>,
) -> bool {
    &&& n.state == state
    &&& n.branches matches BranchesModel::Chance(c) && c.name == name && c.possibilities.len()
        == entries.len() && (forall|i: int|
        0 <= i < entries.len() ==> {
            &&& (#[trigger] c.possibilities[i]).name == entries[i].0
            &&& c.possibilities[i].weight == entries[i].1
            &&& c.possibilities[i].steps.len() == 1
            &&& call_ensures(f, (entries[i].2,), c.possibilities[i].steps[0])
        })
}

/// Fluent constructor of a [`Chance`] node: structurally like
/// [`DecisionBuilder`], but each entry carries a non-negative weight instead
/// of being owed to a player; the driver samples or enumerates outcomes with
/// probability proportional to weight. Weights are never normalized here.
pub struct ChanceBuilder<T> {
    name: String,
    possibilities: Vec<(String, Weight, T)>,
}

impl<T> ChanceBuilder<T> {
    /// The name the chance node will carry.
    pub closed spec fn name_spec(self) -> Seq<char> {
        self.name@
    }

    /// The accumulated `(label, weight, payload)` entries, in order.
    pub closed spec fn possibilities_spec(self) -> Seq<(Seq<char>, Weight, T)> {
        self.possibilities@.map_values(|c: (String, Weight, T)| (c.0@, c.1, c.2))
    }

    /// Starts an empty chance event named `name`.
    pub fn new(name: &str) -> (r: Self)
        ensures
            r.name_spec() == name@,
            r.possibilities_spec() == Seq::<(Seq<char>, Weight, T)>::empty(),
    {
        let r = ChanceBuilder { name: name.to_owned(), possibilities: Vec::new() };
        proof {
            assert(r.possibilities_spec() =~= Seq::<(Seq<char>, Weight, T)>::empty());
        }
        r
    }

    /// Appends one labeled, weighted payload.
    pub fn named_possibility(self, name: &str, weight: Weight, possibility: T) -> (r: Self)
        ensures
            r.name_spec() == self.name_spec(),
            r.possibilities_spec() == self.possibilities_spec().push((name@, weight, possibility)),
    {
        let ChanceBuilder { name: cname, mut possibilities } = self;
        possibilities.push((name.to_owned(), weight, possibility));
        let r = ChanceBuilder { name: cname, possibilities };
        proof {
            assert(r.possibilities_spec() =~= self.possibilities_spec().push(
                (name@, weight, possibility),
            ));
        }
        r
    }

    /// Appends many labeled, weighted payloads, in order.
    pub fn named_possibilities(self, possibilities: Vec<(String, Weight, T)>) -> (r: Self)
        ensures
            r.name_spec() == self.name_spec(),
            r.possibilities_spec() == self.possibilities_spec() + possibilities@.map_values(
                |c: (String, Weight, T)| (c.0@, c.1, c.2),
            ),
    {
        let ChanceBuilder { name: cname, possibilities: mut acc } = self;
        let mut rest = possibilities;
        acc.append(&mut rest);
        let r = ChanceBuilder { name: cname, possibilities: acc };
        proof {
            assert(r.possibilities_spec() =~= self.possibilities_spec()
                + possibilities@.map_values(|c: (String, Weight, T)| (c.0@, c.1, c.2)));
        }
        r
    }

    /// Materializes the chance node over `state`, as
    /// [`DecisionBuilder::build`] does for decisions, with the same fatal
    /// rejection of zero accumulated possibilities.
    pub fn build<S: StateBase, P, F: Fn(T) -> P>(self, state: S, f: F) -> (r: Result<
        Node<S, P>,
        BuildError,
    >)
        requires
            forall|i: int|
                0 <= i < self.possibilities_spec().len() ==> call_requires(
                    f,
                    ((#[trigger] self.possibilities_spec()[i]).2,),
                ),
        ensures
            r is Ok <==> self.possibilities_spec().len() >= 1,
            r is Err ==> r->Err_0 == BuildError::NoAlternatives,
            r is Ok ==> r->Ok_0@.wf() && chance_built(
                self.name_spec(),
                self.possibilities_spec(),
                f,
                state,
                r->Ok_0@,
            ),
    {
        let ghost entries = self.possibilities_spec();
        let ChanceBuilder { name, possibilities } = self;
        if possibilities.len() == 0 {
            return Err(BuildError::NoAlternatives);
        }
        let ghost origv = possibilities@;
        let mut rem = possibilities;
        let mut out: Vec<Possibility<P>> = Vec::new();
        while rem.len() > 0
            invariant
                out@.len() + rem@.len() == entries.len(),
                rem@ == origv.skip(out@.len() as int),
                entries == origv.map_values(|c: (String, Weight, T)| (c.0@, c.1, c.2)),
                forall|i: int|
                    0 <= i < entries.len() ==> call_requires(f, ((#[trigger] entries[i]).2,)),
                forall|j: int|
                    0 <= j < out@.len() ==> {
                        &&& (#[trigger] out@[j]@).name == entries[j].0
                        &&& out@[j]@.weight == entries[j].1
                        &&& out@[j]@.steps.len() == 1
                        &&& call_ensures(f, (entries[j].2,), out@[j]@.steps[0])
                    },
            decreases rem@.len(),
        {
            let ghost k = out@.len() as int;
            proof {
                assert(origv.skip(k)[0] == origv[k]);
                assert(entries[k] == (origv[k].0@, origv[k].1, origv[k].2));
            }
            let (cname, weight, payload) = rem.remove(0);
            let step = f(payload);
            let mut steps: Vec<P> = Vec::new();
            steps.push(step);
            out.push(Possibility { name: cname, weight, steps });
            proof {
                assert(rem@ =~= origv.skip(k + 1));
            }
        }
        let node = Node { state, branches: Branches::Chance(Chance { name, possibilities: out }) };
        Ok(node)
    }
}

impl ChanceBuilder<String> {
    /// Appends one possibility whose label is the payload's own text.
    pub fn possibility(self, weight: Weight, possibility: String) -> (r: Self)
        ensures
            r.name_spec() == self.name_spec(),
            r.possibilities_spec() == self.possibilities_spec().push(
                (possibility@, weight, possibility),
            ),
    {
        let label = possibility.clone();
        self.named_possibility(label.as_str(), weight, possibility)
    }

    /// Appends many weighted possibilities, each labeled with its own text,
    /// in order.
    pub fn possibilities(self, items: Vec<(Weight, String)>) -> (r: Self)
        ensures
            r.name_spec() == self.name_spec(),
            r.possibilities_spec() == self.possibilities_spec() + items@.map_values(
                |c: (Weight, String)| (c.1@, c.0, c.1),
            ),
    {
        let ghost orig = items@;
        let mut rest = items;
        let mut acc = self;
        while rest.len() > 0
            invariant
                acc.name_spec() == self.name_spec(),
                rest@ == orig.skip(orig.len() - rest@.len()),
                rest@.len() <= orig.len(),
                acc.possibilities_spec() == self.possibilities_spec() + orig.subrange(
                    0,
                    orig.len() - rest@.len(),
                ).map_values(|c: (Weight, String)| (c.1@, c.0, c.1)),
            decreases rest@.len(),
        {
            let ghost k = orig.len() - rest@.len();
            proof {
                assert(orig.skip(k)[0] == orig[k]);
            }
            let (weight, item) = rest.remove(0);
            acc = acc.possibility(weight, item);
            proof {
                assert(rest@ =~= orig.skip(k + 1));
                assert(orig.subrange(0, k + 1) =~= orig.subrange(0, k).push(orig[k]));
                assert(acc.possibilities_spec() =~= self.possibilities_spec() + orig.subrange(
                    0,
                    k + 1,
                ).map_values(|c: (Weight, String)| (c.1@, c.0, c.1)));
            }
        }
        proof {
            assert(orig.subrange(0, orig.len() as int) =~= orig);
        }
        acc
    }
}

// ---------------------------------------------------------------------------
// Extension points
// ---------------------------------------------------------------------------

/// Named extension points that domain content (abilities, items, effects)
/// overrides selectively; each hook defaults to "no branching, just
/// continue" over the state it is handed.
pub trait EventHandler<S: StateBase, P> {
    /// Runs when a turn starts.
    fn on_turn_start(&self, state: S) -> (n: Node<S, P>)
        default_ensures
            n@ == pending_spec::<S, P>(state),
            n@.wf(),
    {
        Node::pending(state)
    }

    /// Runs when a turn ends.
    fn on_turn_end(&self, state: S) -> (n: Node<S, P>)
        default_ensures
            n@ == pending_spec::<S, P>(state),
            n@.wf(),
    {
        Node::pending(state)
    }

    /// Runs when a combatant enters the battle.
    fn on_etb(&self, state: S) -> (n: Node<S, P>)
        default_ensures
            n@ == pending_spec::<S, P>(state),
            n@.wf(),
    {
        Node::pending(state)
    }
}

} // verus!
