//! The search for a rotation: a tree of the states reached so far, grown by
//! one vertex in each iteration, and random playouts from the new vertices to
//! the end of the craft, whose scores guide where the tree grows next.

use crate::action_set::{ActionSet, BitFlagExt};
use crate::actions::Action;
use crate::craft_context::Input;
use crate::craft_state::{
    spec_available_moves, spec_check_result, CraftResult, Node, State, SCORE_ONE,
};
use crate::executor::{
    execute_with, is_rotation, is_step, lemma_is_step_by_policy, lemma_rotation_extends,
    lemma_step_is_counted, spec_response, ActionResponse,
};
use crate::simulator::{same_policy, Simulator};
use crate::tree::{in_chain, stats_in_range, vertex_ok, Tree, Vertex};
use vstd::arithmetic::mul::lemma_mul_upper_bound;
use vstd::prelude::*;

verus! {

/// What the caller chooses for one search.
#[derive(Copy, Clone, Debug, PartialEq, Eq, Structural)]
pub struct SearchOptions {
    /// How many times the tree is grown.
    pub iterations: u32,
    /// The seed of the generator that picks the moves.
    pub rng_seed: u64,
    /// The weight of the exploration term, in millionths.
    pub exploration_constant: u32,
    /// The part, in percent, that the best score below a vertex has in its
    /// value. The rest goes to the mean score.
    pub max_score_weighting: u32,
}

impl Default for SearchOptions {
    fn default() -> (r: Self)
        ensures
            r == (SearchOptions {
                iterations: 100_000,
                rng_seed: 0,
                exploration_constant: 1_500_000,
                max_score_weighting: 10,
            }),
    {
        SearchOptions {
            iterations: 100_000,
            rng_seed: 0,
            exploration_constant: 1_500_000,
            max_score_weighting: 10,
        }
    }
}

/// A craft played to its end: the rotation, the state it led to, and how the
/// craft ended there.
#[derive(Debug, PartialEq, Eq)]
pub struct Playout {
    pub rotation: Vec<Action>,
    pub state: State,
    pub result: CraftResult,
}

/// Whether `playout` is one of the craft of `input`: its rotation leads from
/// the start of the craft to its state, by steps that the policy of `sim`
/// allows, and its result is how the craft has ended in that state.
pub open spec fn is_playout<S: Simulator>(sim: S, input: Input, playout: Playout) -> bool {
    &&& is_rotation(sim, input, State::spec_initial(input), playout.rotation@, playout.state)
    &&& spec_check_result(
        input,
        playout.state,
        spec_available_moves(input, playout.state, true),
    ) == Some(playout.result)
}

/// The number of times that `n` can be halved before it is one or less: the
/// logarithm to base two, rounded down.
pub open spec fn spec_floor_log2(n: nat) -> nat
    decreases n,
{
    if n <= 1 {
        0
    } else {
        1 + spec_floor_log2(n / 2)
    }
}

/// The logarithm of `n` to base two, rounded down, and zero for zero.
pub fn floor_log2(n: u32) -> (r: u32)
    ensures
        r == spec_floor_log2(n as nat),
        r <= n,
{
    let mut rest = n;
    let mut r: u32 = 0;
    let ghost mut scale: int = 1;
    while rest > 1
        invariant
            spec_floor_log2(n as nat) == r + spec_floor_log2(rest as nat),
            scale >= 1,
            r < scale,
            n >= 1 ==> rest >= 1,
            rest * scale <= n,
        decreases rest,
    {
        let half = rest / 2;
        proof {
            assert(half * (2 * scale) <= rest * scale) by (nonlinear_arith)
                requires
                    half * 2 <= rest,
                    scale >= 0,
            ;
            assert(scale <= rest * scale) by (nonlinear_arith)
                requires
                    rest >= 1,
                    scale >= 0,
            ;
            scale = 2 * scale;
        }
        rest = half;
        r += 1;
    }
    r
}

/// Whether `r` is the square root of `x`, rounded down.
pub open spec fn is_floor_sqrt(x: nat, r: nat) -> bool {
    r * r <= x < (r + 1) * (r + 1)
}

/// The square root of `x`, rounded down.
pub open spec fn spec_floor_sqrt(x: nat) -> nat {
    choose|r: nat| is_floor_sqrt(x, r)
}

/// A number has one rounded square root.
pub proof fn lemma_floor_sqrt_unique(x: nat, a: nat, b: nat)
    requires
        is_floor_sqrt(x, a),
        is_floor_sqrt(x, b),
    ensures
        a == b,
{
    assert(a < b ==> (a + 1) * (a + 1) <= b * b) by (nonlinear_arith);
    assert(b < a ==> (b + 1) * (b + 1) <= a * a) by (nonlinear_arith);
}

/// The square root of `x`, rounded down.
pub fn floor_sqrt(x: u64) -> (r: u64)
    ensures
        is_floor_sqrt(x as nat, r as nat),
        r == spec_floor_sqrt(x as nat),
        r <= 0xffff_ffff,
{
    let mut low: u64 = 0;
    let mut high: u64 = 0x1_0000_0000;
    assert(0x1_0000_0000 * 0x1_0000_0000 > u64::MAX) by (nonlinear_arith);
    while high - low > 1
        invariant
            low < high <= 0x1_0000_0000,
            low * low <= x < high * high,
        decreases high - low,
    {
        let middle = low + (high - low) / 2;
        proof {
            lemma_mul_upper_bound(middle as int, 0xffff_ffff, middle as int, 0xffff_ffff);
            assert(0xffff_ffff * 0xffff_ffff <= u64::MAX) by (nonlinear_arith);
        }
        if middle * middle <= x {
            low = middle;
        } else {
            high = middle;
        }
    }
    proof {
        let found = spec_floor_sqrt(x as nat);
        assert(is_floor_sqrt(x as nat, low as nat));
        lemma_floor_sqrt_unique(x as nat, low as nat, found);
    }
    low
}

/// The natural logarithm of two, in millionths.
pub const LN_2: u64 = 693_147;

/// The value of a vertex to the selection, in millionths: what its playouts
/// have scored, plus a bonus that is large while the vertex has few visits
/// among those of its parent. A vertex without a visit comes before all
/// others.
///
/// The score is the mean score, with the best score mixed in at the weight
/// that the options give. The bonus is the exploration constant times the
/// square root of the logarithm of the parent's visits over the visits of the
/// vertex, where the logarithm is taken to base two, rounded down, and scaled
/// by the logarithm of two, and the root is rounded down to thousandths.
pub open spec fn spec_ucb(parent_visits: u32, node: Node, options: SearchOptions) -> int {
    if node.visits == 0 {
        u64::MAX as int
    } else {
        let mean = node.score_sum as int / node.visits as int;
        let weight = if options.max_score_weighting > 100 {
            100
        } else {
            options.max_score_weighting as int
        };
        let score = (weight * node.max_score + (100 - weight) * mean) / 100;
        let spread = spec_floor_sqrt(
            ((spec_floor_log2(parent_visits as nat) * LN_2) / node.visits as int) as nat,
        );
        score + (options.exploration_constant * spread) / 1000
    }
}

/// The value of a vertex to the selection, in millionths.
pub fn ucb(parent_visits: u32, node: &Node, options: &SearchOptions) -> (r: u64)
    requires
        stats_in_range(*node),
    ensures
        r == spec_ucb(parent_visits, *node, *options),
{
    if node.visits == 0 {
        return u64::MAX;
    }
    let visits = node.visits as u64;
    let mean = node.score_sum / visits;
    proof {
        vstd::arithmetic::div_mod::lemma_div_is_ordered(
            node.score_sum as int,
            node.visits * SCORE_ONE,
            node.visits as int,
        );
        vstd::arithmetic::div_mod::lemma_div_multiples_vanish(
            SCORE_ONE as int,
            node.visits as int,
        );
        assert(node.visits * SCORE_ONE == SCORE_ONE * node.visits) by (nonlinear_arith);
    }
    let weight: u64 = if options.max_score_weighting > 100 {
        100
    } else {
        options.max_score_weighting as u64
    };
    proof {
        lemma_mul_upper_bound(weight as int, 100, node.max_score as int, SCORE_ONE as int);
        lemma_mul_upper_bound(100 - weight, 100, mean as int, SCORE_ONE as int);
    }
    let score = (weight * (node.max_score as u64) + (100 - weight) * mean) / 100;
    let log = floor_log2(parent_visits) as u64;
    proof {
        lemma_mul_upper_bound(log as int, u32::MAX as int, LN_2 as int, LN_2 as int);
    }
    let spread = floor_sqrt((log * LN_2) / visits);
    proof {
        lemma_mul_upper_bound(
            options.exploration_constant as int,
            u32::MAX as int,
            spread as int,
            0xffff_ffff,
        );
        assert(u32::MAX * 0xffff_ffff + 100 * SCORE_ONE < u64::MAX) by (nonlinear_arith);
    }
    score + (options.exploration_constant as u64 * spread) / 1000
}

/// The child of the vertex at `parent` that the selection values most, if the
/// vertex has a child.
pub fn select_child<S: Simulator>(
    tree: &Tree,
    parent: usize,
    options: &SearchOptions,
    Ghost(sim): Ghost<S>,
    Ghost(input): Ghost<Input>,
) -> (r: Option<usize>)
    requires
        tree.wf(sim, input),
        parent < tree@.len(),
    ensures
        r is None <==> tree@[parent as int].first_child is None,
        r matches Some(best) ==> is_best_child(tree@, parent, best, *options),
        r matches Some(best) ==> {
            &&& parent < best < tree@.len()
            &&& tree@[best as int].parent == Some(parent)
            &&& forall|k: usize|
                k < tree@.len() && #[trigger] in_chain(
                    tree@,
                    tree@[parent as int].first_child,
                    k,
                ) ==> spec_ucb(tree@[parent as int].node.visits, tree@[k as int].node, *options)
                    <= spec_ucb(
                    tree@[parent as int].node.visits,
                    tree@[best as int].node,
                    *options,
                )
        },
{
    let above = tree.get(parent);
    let visits = above.node.visits;
    let mut cursor = above.first_child;
    let mut best: Option<usize> = None;
    let mut best_value: u64 = 0;
    proof {
        assert(vertex_ok(tree@, parent as int, sim, input));
    }
    while cursor.is_some()
        invariant
            tree.wf(sim, input),
            parent < tree@.len(),
            above == tree@[parent as int],
            visits == above.node.visits,
            cursor matches Some(c) ==> parent < c < tree@.len() && tree@[c as int].parent == Some(
                parent,
            ),
            best is None ==> cursor == above.first_child,
            above.first_child is None ==> best is None,
            best matches Some(b) ==> parent < b < tree@.len() && tree@[b as int].parent == Some(
                parent,
            ) && best_value == spec_ucb(visits, tree@[b as int].node, *options),
            forall|k: usize|
                k < tree@.len() && #[trigger] in_chain(tree@, above.first_child, k) && !in_chain(
                    tree@,
                    cursor,
                    k,
                ) ==> spec_ucb(visits, tree@[k as int].node, *options) <= best_value,
        decreases
                (match cursor {
                    Some(c) => c + 1,
                    None => 0,
                }),
    {
        let c = cursor.unwrap();
        let vertex = tree.get(c);
        proof {
            assert(vertex_ok(tree@, c as int, sim, input));
        }
        let value = ucb(visits, &vertex.node, options);
        if best.is_none() || value > best_value {
            best = Some(c);
            best_value = value;
        }
        proof {
            if vertex.next_sibling is Some {
                assert(vertex_ok(tree@, vertex.next_sibling->0 as int, sim, input));
            }
        }
        cursor = vertex.next_sibling;
    }
    best
}

/// A node for `state`, reached by `action`, that no playout has visited, with
/// the moves of a strict search.
pub fn strict_node(input: &Input, state: State, action: Option<Action>) -> (node: Node)
    ensures
        node.state == state,
        node.action == action,
        node.score_sum == 0,
        node.max_score == 0,
        node.visits == 0,
        node.available_moves@ == spec_available_moves(*input, state, true),
{
    let mut node = Node {
        state,
        action,
        score_sum: 0,
        max_score: 0,
        visits: 0,
        available_moves: ActionSet::new(),
    };
    node.set_available_moves(input, true);
    node
}

/// A move of a strict search is accepted when it is used.
pub proof fn lemma_move_is_accepted(input: Input, state: State, action: Action)
    requires
        spec_available_moves(input, state, true).contains(action),
    ensures
        spec_response(input, state, action) == ActionResponse::UsedAction,
{
}

/// The node after a playout through it has scored `score`: one more visit,
/// the score added to the sum, and the best score raised to it if it is
/// better. A node whose visits are at their largest value counts no more.
pub open spec fn spec_record(node: Node, score: u32) -> Node {
    Node {
        visits: if node.visits < u32::MAX {
            (node.visits + 1) as u32
        } else {
            node.visits
        },
        score_sum: if node.visits < u32::MAX {
            (node.score_sum + score) as u64
        } else {
            node.score_sum
        },
        max_score: if score > node.max_score {
            score
        } else {
            node.max_score
        },
        ..node
    }
}

/// The node after a playout through it has scored `score`.
pub fn record(node: Node, score: u32) -> (r: Node)
    requires
        stats_in_range(node),
        score <= SCORE_ONE,
    ensures
        r == spec_record(node, score),
        stats_in_range(r),
{
    let mut r = node;
    if r.visits < u32::MAX {
        assert(r.visits * SCORE_ONE + SCORE_ONE == (r.visits + 1) * SCORE_ONE)
            by (nonlinear_arith);
        assert(r.visits * SCORE_ONE <= u32::MAX * SCORE_ONE) by (nonlinear_arith)
            requires
                r.visits <= u32::MAX,
        ;
        r.visits = r.visits + 1;
        r.score_sum = r.score_sum + score as u64;
    }
    if score > r.max_score {
        r.max_score = score;
    }
    r
}

/// `SeedableRng::seed_from_u64` of rand for `SmallRng`: a generator made from
/// a seed. Nothing is said of the numbers it will give.
#[verifier::external_body]
fn seeded(seed: u64) -> (rng: rand::rngs::SmallRng) {
    rand::SeedableRng::seed_from_u64(seed)
}

/// Plays the craft from `state` to its end by random moves of a strict
/// search, adding them to `rotation`, and says how the craft ended.
pub fn rollout<S: Simulator>(
    sim: &mut S,
    rng: &mut rand::rngs::SmallRng,
    input: &Input,
    state: &mut State,
    rotation: &mut Vec<Action>,
    Ghost(start): Ghost<State>,
) -> (result: CraftResult)
    requires
        is_rotation(*old(sim), *input, start, old(rotation)@, *old(state)),
    ensures
        same_policy(*final(sim), *old(sim)),
        is_rotation(*old(sim), *input, start, final(rotation)@, *final(state)),
        spec_check_result(
            *input,
            *final(state),
            spec_available_moves(*input, *final(state), true),
        ) == Some(result),
        result.spec_score() <= SCORE_ONE,
        old(rotation)@.is_prefix_of(final(rotation)@),
{
    let ghost policy = *sim;
    let ghost played = rotation@;
    loop
        invariant
            policy == *old(sim),
            played == old(rotation)@,
            same_policy(*sim, policy),
            is_rotation(policy, *input, start, rotation@, *state),
            played.is_prefix_of(rotation@),
        decreases input.action_max - state.action,
    {
        let node = strict_node(input, *state, None);
        match node.check_result(input) {
            Some(result) => {
                return result;
            },
            None => {},
        }
        proof {
            node.available_moves.lemma_empty_is_len_zero();
        }
        let action = node.available_moves.sample(rng);
        let ghost before = *state;
        let ghost rolling = *sim;
        proof {
            lemma_move_is_accepted(*input, before, action);
        }
        let response = execute_with(sim, input, state, action);
        proof {
            lemma_is_step_by_policy(rolling, policy, *input, before, action, *state);
            lemma_step_is_counted(policy, *input, before, action, *state);
            lemma_rotation_extends(policy, *input, start, rotation@, before, action, *state);
        }
        rotation.push(action);
    }
}

/// Whether `child` is the child of `parent` that the selection goes to: one
/// of its children, and none of the children listed is valued more.
pub open spec fn is_best_child(
    v: Seq<Vertex>,
    parent: usize,
    child: usize,
    options: SearchOptions,
) -> bool {
    &&& parent < child < v.len()
    &&& v[child as int].parent == Some(parent)
    &&& forall|k: usize|
        k < v.len() && #[trigger] in_chain(v, v[parent as int].first_child, k) ==> spec_ucb(
            v[parent as int].node.visits,
            v[k as int].node,
            options,
        ) <= spec_ucb(v[parent as int].node.visits, v[child as int].node, options)
}

/// Whether `path` is the way that the selection takes through the tree: from
/// the root, always to the child valued most, past vertices that have no move
/// left to try, to the first vertex that has one, or that has no child.
pub open spec fn is_descent(v: Seq<Vertex>, path: Seq<usize>, options: SearchOptions) -> bool {
    &&& path.len() >= 1
    &&& path[0] == 0
    &&& path.last() < v.len()
    &&& forall|j: int|
        0 <= j < path.len() - 1 ==> v[(#[trigger] path[j]) as int].node.available_moves@.len()
            == 0 && is_best_child(v, path[j], path[j + 1], options)
    &&& v[path.last() as int].node.available_moves@.len() > 0
        || v[path.last() as int].first_child is None
}

/// Whether the tree `grown` is the tree `before` with one vertex more: a child
/// of the vertex at `at`, reached by one of the moves that were left to try
/// there. The move has left the parent's set, and the child is the parent's
/// youngest. The child has no visit yet, and the moves of a strict search
/// left to try. Nothing else differs.
pub open spec fn is_grown<S: Simulator>(
    sim: S,
    input: Input,
    before: Seq<Vertex>,
    grown: Seq<Vertex>,
    at: usize,
) -> bool {
    let child = before.len() as int;
    let above = before[at as int];
    let below = grown[child];
    &&& at < before.len()
    &&& grown.len() == before.len() + 1
    &&& forall|i: int| 0 <= i < before.len() && i != at ==> #[trigger] grown[i] == before[i]
    &&& below.node.action matches Some(action) && above.node.available_moves@.contains(action)
        && grown[at as int].node.available_moves@ == above.node.available_moves@.remove(action)
        && is_step(sim, input, above.node.state, action, below.node.state)
    &&& grown[at as int] == (Vertex {
        node: Node { available_moves: grown[at as int].node.available_moves, ..above.node },
        first_child: Some(child as usize),
        ..above
    })
    &&& below.parent == Some(at)
    &&& below.first_child is None
    &&& below.next_sibling == above.first_child
    &&& below.node.visits == 0
    &&& below.node.score_sum == 0
    &&& below.node.max_score == 0
    &&& below.node.available_moves@ == spec_available_moves(input, below.node.state, true)
}

/// Whether the tree `grown` is what the first half of an iteration makes of
/// the tree `before`: the selection goes down `path`, and where it ends at a
/// vertex with a move left to try, the tree grows there by one vertex.
pub open spec fn is_played<S: Simulator>(
    sim: S,
    input: Input,
    options: SearchOptions,
    before: Seq<Vertex>,
    path: Seq<usize>,
    grown: Seq<Vertex>,
) -> bool {
    &&& is_descent(before, path, options)
    &&& if before[path.last() as int].node.available_moves@.len() > 0 {
        is_grown(sim, input, before, grown, path.last())
    } else {
        grown == before
    }
}

/// The vertices that a playout has passed: those of the selection, and the
/// new vertex where the tree has grown.
pub open spec fn played_path(before: Seq<Vertex>, grown: Seq<Vertex>, path: Seq<usize>) -> Seq<
    usize,
> {
    if grown.len() > before.len() {
        path.push(before.len() as usize)
    } else {
        path
    }
}

/// Whether the tree `after` is the tree `grown` with a score recorded at every
/// vertex of `path`, and at no other.
pub open spec fn is_recorded(
    grown: Seq<Vertex>,
    after: Seq<Vertex>,
    path: Seq<usize>,
    score: u32,
) -> bool {
    &&& after.len() == grown.len()
    &&& forall|i: usize|
        i < grown.len() ==> #[trigger] after[i as int] == if path.contains(i) {
            Vertex { node: spec_record(grown[i as int].node, score), ..grown[i as int] }
        } else {
            grown[i as int]
        }
}

/// One more element of a path is one more value that it holds.
proof fn lemma_take_contains(path: Seq<usize>, j: int, x: usize)
    requires
        0 <= j < path.len(),
    ensures
        path.take(j + 1).contains(x) == (path.take(j).contains(x) || path[j] == x),
{
    let shorter = path.take(j);
    let longer = path.take(j + 1);
    if shorter.contains(x) {
        let k = choose|k: int| 0 <= k < shorter.len() && shorter[k] == x;
        assert(longer[k] == x);
    }
    if path[j] == x {
        assert(longer[j] == x);
    }
    if longer.contains(x) {
        let k = choose|k: int| 0 <= k < longer.len() && longer[k] == x;
        if k < j {
            assert(shorter[k] == x);
        }
    }
}

/// A search in progress: the tree grown so far and the best playout seen.
pub struct Solver {
    tree: Tree,
    best: Option<Playout>,
}

impl Solver {
    /// What holds of a search of the craft of `input` with the policy of
    /// `sim`: the tree is well formed and rooted in the start of the craft,
    /// and the best playout is one of that craft, with the best score that
    /// the root has recorded.
    pub closed spec fn inv<S: Simulator>(self, sim: S, input: Input) -> bool {
        &&& self.tree.wf(sim, input)
        &&& self.tree@[0].node.state == State::spec_initial(input)
        &&& self.best matches Some(playout) ==> is_playout(sim, input, playout)
        &&& self.spec_best_score() == self.tree@[0].node.max_score
    }

    /// The score of the best playout seen so far, and zero before the first.
    pub open spec fn spec_best_score(self) -> u32 {
        match self.spec_best() {
            Some(playout) => playout.result.spec_score(),
            None => 0,
        }
    }

    /// The best playout seen so far.
    pub closed spec fn spec_best(self) -> Option<Playout> {
        self.best
    }

    /// The root of the tree, which every playout has passed through.
    pub closed spec fn spec_root(self) -> Node {
        self.tree@[0].node
    }

    /// The vertices of the tree, in the order in which they were added.
    pub closed spec fn spec_tree(self) -> Seq<Vertex> {
        self.tree@
    }

    /// A search that has not begun, for the craft of `input` with the policy
    /// of `sim`.
    pub fn new<S: Simulator>(sim: &S, input: &Input) -> (solver: Self)
        ensures
            solver.inv(*sim, *input),
            solver.has_root(),
            solver.spec_best() is None,
            solver.spec_root() == (Node {
                state: State::spec_initial(*input),
                action: None,
                score_sum: 0,
                max_score: 0,
                visits: 0,
                available_moves: solver.spec_root().available_moves,
            }),
            solver.spec_root().available_moves@ == spec_available_moves(
                *input,
                State::spec_initial(*input),
                true,
            ),
    {
        let state = State::initial(input);
        let root = strict_node(input, state, None);
        let tree = Tree::new(state, root.available_moves);
        proof {
            assert(vertex_ok(tree@, 0, *sim, *input));
        }
        Solver { tree, best: None }
    }

    /// Whether the tree has its root, as that of every search has.
    pub closed spec fn has_root(self) -> bool {
        self.tree@.len() >= 1
    }

    /// The root of the tree: how many playouts there were, and what they
    /// scored.
    pub fn root(&self) -> (r: Node)
        requires
            self.has_root(),
        ensures
            r == self.spec_root(),
    {
        self.tree.get(0).node
    }

    /// The best playout seen so far.
    pub fn best(&self) -> (r: &Option<Playout>)
        ensures
            *r == self.spec_best(),
    {
        &self.best
    }

    /// Gives up the search for the best playout it has seen.
    pub fn into_best(self) -> (r: Option<Playout>)
        ensures
            r == self.spec_best(),
    {
        self.best
    }

    /// Goes down from the root to the child that the selection values most,
    /// until it stands at a vertex that has moves left to try, or at one
    /// without children. Returns the vertices passed, the root first, and the
    /// actions that lead from each to the next.
    fn descend<S: Simulator>(
        &self,
        options: &SearchOptions,
        Ghost(sim): Ghost<S>,
        Ghost(input): Ghost<Input>,
    ) -> (r: (Vec<usize>, Vec<Action>))
        requires
            self.tree.wf(sim, input),
        ensures
            r.0@.len() >= 1,
            r.0@[0] == 0,
            forall|j: int| 0 <= j < r.0@.len() ==> #[trigger] r.0@[j] < self.tree@.len(),
            forall|j: int| 1 <= j < r.0@.len() ==> #[trigger] r.0@[j] > 0,
            forall|a: int, b: int|
                0 <= a < b < r.0@.len() ==> #[trigger] r.0@[a] < #[trigger] r.0@[b],
            is_descent(self.tree@, r.0@, *options),
            is_rotation(
                sim,
                input,
                self.tree@[0].node.state,
                r.1@,
                self.tree@[r.0@.last() as int].node.state,
            ),
            self.tree@[r.0@.last() as int].node.available_moves@.len() > 0
                || self.tree@[r.0@.last() as int].first_child is None,
    {
        let mut current: usize = 0;
        let mut path: Vec<usize> = Vec::new();
        let mut rotation: Vec<Action> = Vec::new();
        path.push(0);
        loop
            invariant
                self.tree.wf(sim, input),
                current < self.tree@.len(),
                is_rotation(
                    sim,
                    input,
                    self.tree@[0].node.state,
                    rotation@,
                    self.tree@[current as int].node.state,
                ),
                path@.len() >= 1,
                path@[0] == 0,
                path@.last() == current,
                forall|j: int| 0 <= j < path@.len() ==> #[trigger] path@[j] < self.tree@.len(),
                forall|j: int| 1 <= j < path@.len() ==> #[trigger] path@[j] > 0,
                forall|a: int, b: int|
                    0 <= a < b < path@.len() ==> #[trigger] path@[a] < #[trigger] path@[b],
                forall|j: int|
                    0 <= j < path@.len() - 1 ==> self.tree@[(#[trigger] path@[j]) as int].node.available_moves@.len()
                        == 0 && is_best_child(self.tree@, path@[j], path@[j + 1], *options),
            ensures
                path@.len() >= 1,
                path@[0] == 0,
                path@.last() == current,
                current < self.tree@.len(),
                forall|j: int| 0 <= j < path@.len() ==> #[trigger] path@[j] < self.tree@.len(),
                forall|j: int| 1 <= j < path@.len() ==> #[trigger] path@[j] > 0,
                forall|a: int, b: int|
                    0 <= a < b < path@.len() ==> #[trigger] path@[a] < #[trigger] path@[b],
                forall|j: int|
                    0 <= j < path@.len() - 1 ==> self.tree@[(#[trigger] path@[j]) as int].node.available_moves@.len()
                        == 0 && is_best_child(self.tree@, path@[j], path@[j + 1], *options),
                is_rotation(
                    sim,
                    input,
                    self.tree@[0].node.state,
                    rotation@,
                    self.tree@[current as int].node.state,
                ),
                self.tree@[current as int].node.available_moves@.len() > 0
                    || self.tree@[current as int].first_child is None,
            decreases self.tree@.len() - current,
        {
            let vertex = self.tree.get(current);
            if !vertex.node.available_moves.is_empty() {
                break ;
            }
            let chosen = select_child::<S>(&self.tree, current, options, Ghost(sim), Ghost(input));
            if chosen.is_none() {
                break ;
            }
            let child = chosen.unwrap();
            let below = self.tree.get(child);
            proof {
                assert(vertex_ok(self.tree@, child as int, sim, input));
                lemma_rotation_extends(
                    sim,
                    input,
                    self.tree@[0].node.state,
                    rotation@,
                    vertex.node.state,
                    below.node.action->0,
                    below.node.state,
                );
            }
            rotation.push(below.node.action.unwrap());
            path.push(child);
            current = child;
        }
        (path, rotation)
    }

    /// Tries one of the moves left at the vertex at `at`, which has some: the
    /// move is used on the state of the vertex, and the state it leads to
    /// becomes a new child. Returns where the child stands, and the move.
    fn expand<S: Simulator>(
        &mut self,
        sim: &mut S,
        rng: &mut rand::rngs::SmallRng,
        input: &Input,
        at: usize,
        Ghost(policy): Ghost<S>,
    ) -> (r: (usize, Action))
        requires
            old(self).tree.wf(policy, *input),
            same_policy(*old(sim), policy),
            at < old(self).tree@.len(),
            old(self).tree@[at as int].node.available_moves@.len() > 0,
        ensures
            final(self).tree.wf(policy, *input),
            same_policy(*final(sim), policy),
            final(self).best == old(self).best,
            final(self).tree@.len() == old(self).tree@.len() + 1,
            final(self).tree@[0].node == (Node {
                available_moves: final(self).tree@[0].node.available_moves,
                ..old(self).tree@[0].node
            }),
            final(self).tree@[0].node.available_moves@.subset_of(
                old(self).tree@[0].node.available_moves@,
            ),
            r.0 == old(self).tree@.len(),
            is_step(
                policy,
                *input,
                old(self).tree@[at as int].node.state,
                r.1,
                final(self).tree@[r.0 as int].node.state,
            ),
            is_grown(policy, *input, old(self).tree@, final(self).tree@, at),
    {
        let vertex = self.tree.get(at);
        proof {
            assert(vertex_ok(self.tree@, at as int, policy, *input));
        }
        let mut node = vertex.node;
        let action = node.available_moves.pick(rng);
        self.tree.update::<S>(at, node, Ghost(policy), Ghost(*input));
        let mut state = vertex.node.state;
        let ghost rolling = *sim;
        proof {
            lemma_move_is_accepted(*input, state, action);
        }
        let response = execute_with(sim, input, &mut state, action);
        proof {
            lemma_is_step_by_policy(rolling, policy, *input, vertex.node.state, action, state);
        }
        let child = strict_node(input, state, Some(action));
        let below = self.tree.add_child::<S>(at, child, Ghost(policy), Ghost(*input));
        (below, action)
    }

    /// Records a score at every vertex of a path.
    fn backpropagate<S: Simulator>(
        &mut self,
        path: &Vec<usize>,
        score: u32,
        Ghost(sim): Ghost<S>,
        Ghost(input): Ghost<Input>,
    )
        requires
            old(self).tree.wf(sim, input),
            score <= SCORE_ONE,
            path@.len() >= 1,
            path@[0] == 0,
            forall|k: int| 0 <= k < path@.len() ==> #[trigger] path@[k] < old(self).tree@.len(),
            forall|k: int| 1 <= k < path@.len() ==> #[trigger] path@[k] > 0,
            forall|a: int, b: int|
                0 <= a < b < path@.len() ==> #[trigger] path@[a] < #[trigger] path@[b],
        ensures
            final(self).tree.wf(sim, input),
            final(self).best == old(self).best,
            final(self).tree@.len() == old(self).tree@.len(),
            final(self).tree@[0].node == spec_record(old(self).tree@[0].node, score),
            is_recorded(old(self).tree@, final(self).tree@, path@, score),
    {
        let ghost before = self.tree@;
        let mut j: usize = 0;
        while j < path.len()
            invariant
                before == old(self).tree@,
                j <= path.len(),
                forall|a: int, b: int|
                    0 <= a < b < path@.len() ==> #[trigger] path@[a] < #[trigger] path@[b],
                forall|i: usize|
                    i < before.len() ==> #[trigger] self.tree@[i as int] == if path@.take(
                        j as int,
                    ).contains(i) {
                        Vertex {
                            node: spec_record(before[i as int].node, score),
                            ..before[i as int]
                        }
                    } else {
                        before[i as int]
                    },
                self.tree.wf(sim, input),
                self.best == old(self).best,
                self.tree@.len() == old(self).tree@.len(),
                self.tree@[0].node == if j == 0 {
                    old(self).tree@[0].node
                } else {
                    spec_record(old(self).tree@[0].node, score)
                },
                score <= SCORE_ONE,
                path@.len() >= 1,
                path@[0] == 0,
                forall|k: int| 0 <= k < path@.len() ==> #[trigger] path@[k] < self.tree@.len(),
                forall|k: int| 1 <= k < path@.len() ==> #[trigger] path@[k] > 0,
            decreases path.len() - j,
        {
            let index = path[j];
            let vertex = self.tree.get(index);
            let ghost reached = self.tree@;
            proof {
                assert(vertex_ok(self.tree@, index as int, sim, input));
                assert(!path@.take(j as int).contains(index)) by {
                    assert forall|k: int| 0 <= k < j implies path@.take(j as int)[k] != index by {
                        assert(path@[k] < path@[j as int]);
                    }
                }
                assert(vertex == before[index as int]);
            }
            self.tree.update::<S>(index, record(vertex.node, score), Ghost(sim), Ghost(input));
            proof {
                assert forall|i: usize| i < before.len() implies #[trigger] self.tree@[i as int]
                    == if path@.take(j + 1).contains(i) {
                    Vertex { node: spec_record(before[i as int].node, score), ..before[i as int] }
                } else {
                    before[i as int]
                } by {
                    lemma_take_contains(path@, j as int, i);
                    if i != index {
                        assert(self.tree@[i as int] == reached[i as int]);
                    } else {
                        assert(reached[i as int] == before[i as int]);
                    }
                }
            }
            j += 1;
        }
        proof {
            assert(path@.take(path@.len() as int) =~= path@);
        }
    }

    /// Selects a vertex, tries a move there if one is left, and plays the
    /// craft out. Returns the vertices passed on the way, the root first and
    /// the new vertex last, and the playout.
    fn play<S: Simulator>(
        &mut self,
        sim: &mut S,
        rng: &mut rand::rngs::SmallRng,
        input: &Input,
        options: &SearchOptions,
    ) -> (r: (Vec<usize>, Playout, Ghost<Seq<usize>>))
        requires
            old(self).tree.wf(*old(sim), *input),
            old(self).tree@[0].node.state == State::spec_initial(*input),
        ensures
            is_played(*old(sim), *input, *options, old(self).tree@, r.2@, final(self).tree@),
            r.0@ == played_path(old(self).tree@, final(self).tree@, r.2@),
            forall|a: int, b: int|
                0 <= a < b < r.0@.len() ==> #[trigger] r.0@[a] < #[trigger] r.0@[b],
            same_policy(*final(sim), *old(sim)),
            final(self).tree.wf(*old(sim), *input),
            final(self).best == old(self).best,
            final(self).tree@[0].node == (Node {
                available_moves: final(self).tree@[0].node.available_moves,
                ..old(self).tree@[0].node
            }),
            final(self).tree@[0].node.available_moves@.subset_of(
                old(self).tree@[0].node.available_moves@,
            ),
            r.0@.len() >= 1,
            r.0@[0] == 0,
            forall|j: int| 0 <= j < r.0@.len() ==> #[trigger] r.0@[j] < final(self).tree@.len(),
            forall|j: int| 1 <= j < r.0@.len() ==> #[trigger] r.0@[j] > 0,
            is_playout(*old(sim), *input, r.1),
            r.1.result.spec_score() <= SCORE_ONE,
    {
        let ghost policy = *sim;
        let ghost origin = State::spec_initial(*input);
        let (mut path, mut rotation) = self.descend::<S>(options, Ghost(policy), Ghost(*input));
        let ghost descent = path@;
        let current = path[path.len() - 1];
        let mut state = self.tree.get(current).node.state;
        if !self.tree.get(current).node.available_moves.is_empty() {
            let (below, action) = self.expand(sim, rng, input, current, Ghost(policy));
            proof {
                lemma_rotation_extends(
                    policy,
                    *input,
                    origin,
                    rotation@,
                    state,
                    action,
                    self.tree@[below as int].node.state,
                );
            }
            state = self.tree.get(below).node.state;
            rotation.push(action);
            path.push(below);
        }
        let ghost rolling = *sim;
        proof {
            lemma_rotation_by_policy(policy, rolling, *input, origin, rotation@, state);
        }
        let result = rollout(sim, rng, input, &mut state, &mut rotation, Ghost(origin));
        proof {
            lemma_rotation_by_policy(rolling, policy, *input, origin, rotation@, state);
        }
        (path, Playout { rotation, state, result }, Ghost(descent))
    }

    /// Grows the tree by one vertex, plays the craft out from there, and
    /// records what the playout scored along the way back to the root.
    ///
    /// From the root the selection goes down to the child it values most,
    /// until it stands at a vertex that has moves left to try, or at one
    /// without children. A move left to try becomes a new child. From the
    /// new child, or from the childless vertex, the craft is played to its
    /// end. The playout is kept if none was before, or if it scored more than
    /// the best one.
    pub fn iterate<S: Simulator>(
        &mut self,
        sim: &mut S,
        rng: &mut rand::rngs::SmallRng,
        input: &Input,
        options: &SearchOptions,
    ) -> (result: CraftResult)
        requires
            old(self).inv(*old(sim), *input),
        ensures
            same_policy(*final(sim), *old(sim)),
            final(self).inv(*old(sim), *input),
            final(self).has_root(),
            final(self).spec_best() is Some,
            result.spec_score() <= old(self).spec_best_score() && old(self).spec_best() is Some
                ==> final(self).spec_best() == old(self).spec_best(),
            final(self).spec_best_score() == if result.spec_score() > old(
                self,
            ).spec_best_score() {
                result.spec_score()
            } else {
                old(self).spec_best_score()
            },
            final(self).spec_best_score() == final(self).spec_root().max_score,
            final(self).spec_root() == spec_record(
                Node {
                    available_moves: final(self).spec_root().available_moves,
                    ..old(self).spec_root()
                },
                result.spec_score(),
            ),
            final(self).spec_root().available_moves@.subset_of(
                old(self).spec_root().available_moves@,
            ),
            exists|path: Seq<usize>, grown: Seq<Vertex>|
                is_played(*old(sim), *input, *options, old(self).spec_tree(), path, grown)
                    && #[trigger] is_recorded(
                    grown,
                    final(self).spec_tree(),
                    played_path(old(self).spec_tree(), grown, path),
                    result.spec_score(),
                ),
    {
        let ghost policy = *sim;
        let ghost before = self.tree@;
        let (path, playout, Ghost(descent)) = self.play(sim, rng, input, options);
        let ghost grown = self.tree@;
        let result = playout.result;
        let score = result.score();
        self.backpropagate::<S>(&path, score, Ghost(policy), Ghost(*input));
        assert(is_recorded(grown, self.tree@, played_path(before, grown, descent), score));
        let better = match &self.best {
            None => true,
            Some(kept) => score > kept.result.score(),
        };
        if better {
            self.best = Some(playout);
        }
        assert(before == old(self).spec_tree());
        assert(is_played(*old(sim), *input, *options, old(self).spec_tree(), descent, grown)
            && is_recorded(
            grown,
            self.spec_tree(),
            played_path(old(self).spec_tree(), grown, descent),
            result.spec_score(),
        ));
        result
    }

    /// Goes on with the search for as many iterations as the options ask for.
    /// The root counts one visit for each, and the best playout is the one
    /// that scored what the root holds as its best score.
    pub fn run<S: Simulator>(
        &mut self,
        sim: &mut S,
        rng: &mut rand::rngs::SmallRng,
        input: &Input,
        options: &SearchOptions,
    )
        requires
            old(self).inv(*old(sim), *input),
        ensures
            same_policy(*final(sim), *old(sim)),
            final(self).inv(*old(sim), *input),
            final(self).has_root(),
            final(self).spec_root().visits == if old(self).spec_root().visits
                + options.iterations <= u32::MAX {
                old(self).spec_root().visits + options.iterations
            } else {
                u32::MAX as int
            },
            final(self).spec_best_score() == final(self).spec_root().max_score,
            final(self).spec_best_score() >= old(self).spec_best_score(),
            options.iterations > 0 ==> final(self).spec_best() is Some,
            options.iterations == 0 ==> final(self).spec_best() == old(self).spec_best(),
    {
        let ghost policy = *sim;
        let ghost begun = old(self).spec_root().visits;
        let ghost kept = old(self).spec_best();
        let ghost least = old(self).spec_best_score();
        proof {
            old(self).lemma_inv_facts(policy, *input);
        }
        let mut done: u32 = 0;
        while done < options.iterations
            invariant
                same_policy(*sim, policy),
                self.inv(policy, *input),
                self.has_root(),
                done <= options.iterations,
                self.spec_root().visits == if begun + done <= u32::MAX {
                    begun + done
                } else {
                    u32::MAX as int
                },
                self.spec_best_score() == self.spec_root().max_score,
                self.spec_best_score() >= least,
                done > 0 ==> self.spec_best() is Some,
                done == 0 ==> self.spec_best() == kept,
            decreases options.iterations - done,
        {
            let ghost rolling = *sim;
            proof {
                self.lemma_inv_by_policy(policy, rolling, *input);
            }
            self.iterate(sim, rng, input, options);
            proof {
                self.lemma_inv_by_policy(rolling, policy, *input);
            }
            done += 1;
        }
    }

    /// Searches for a rotation for the craft of `input`: as many iterations
    /// as the options ask for, with a generator made from their seed. Returns
    /// the best playout that was seen, and none if no iteration was asked for.
    pub fn search<S: Simulator>(sim: &mut S, input: &Input, options: &SearchOptions) -> (r:
        Option<Playout>)
        ensures
            same_policy(*final(sim), *old(sim)),
            r is Some <==> options.iterations > 0,
            r matches Some(playout) ==> is_playout(*old(sim), *input, playout),
            exists|solver: Solver| #[trigger]
                solver.inv(*old(sim), *input) && solver.spec_best() == r
                    && solver.spec_root().visits == options.iterations
                    && solver.spec_best_score() == solver.spec_root().max_score,
    {
        let mut rng = seeded(options.rng_seed);
        let mut solver = Solver::new(&*sim, input);
        let ghost policy = *sim;
        solver.run(sim, &mut rng, input, options);
        proof {
            solver.lemma_inv_facts(policy, *input);
        }
        let ghost last = solver;
        let r = solver.into_best();
        assert(last.inv(policy, *input) && last.spec_best() == r);
        r
    }

    /// What a search in order holds: its root, a best playout that is one of
    /// the craft, and a best score that is the best score of the root.
    pub proof fn lemma_inv_facts<S: Simulator>(self, sim: S, input: Input)
        requires
            self.inv(sim, input),
        ensures
            self.has_root(),
            self.spec_root() == self.spec_tree()[0].node,
            self.spec_root().state == State::spec_initial(input),
            self.spec_best() matches Some(playout) ==> is_playout(sim, input, playout),
            self.spec_best_score() == self.spec_root().max_score,
    {
    }

    /// A search that is in order for one simulator is in order for another of
    /// the same policy.
    pub proof fn lemma_inv_by_policy<S: Simulator>(self, sim: S, other: S, input: Input)
        requires
            same_policy(sim, other),
            self.inv(sim, input),
        ensures
            self.inv(other, input),
    {
        assert forall|i: int| 0 <= i < self.tree@.len() implies #[trigger] vertex_ok(
            self.tree@,
            i,
            other,
            input,
        ) by {
            assert(vertex_ok(self.tree@, i, sim, input));
            if i > 0 {
                let p = self.tree@[i].parent->0;
                lemma_is_step_by_policy(
                    sim,
                    other,
                    input,
                    self.tree@[p as int].node.state,
                    self.tree@[i].node.action->0,
                    self.tree@[i].node.state,
                );
            }
        }
        if self.best is Some {
            let playout = self.best->0;
            lemma_rotation_by_policy(
                sim,
                other,
                input,
                State::spec_initial(input),
                playout.rotation@,
                playout.state,
            );
        }
    }
}

/// A rotation that one simulator allows, another of the same policy allows
/// too.
pub proof fn lemma_rotation_by_policy<S: Simulator>(
    sim: S,
    other: S,
    input: Input,
    start: State,
    actions: Seq<Action>,
    end: State,
)
    requires
        same_policy(sim, other),
        is_rotation(sim, input, start, actions, end),
    ensures
        is_rotation(other, input, start, actions, end),
    decreases actions.len(),
{
    if actions.len() > 0 {
        let before = choose|before: State|
            is_rotation(sim, input, start, actions.drop_last(), before) && #[trigger] is_step(
                sim,
                input,
                before,
                actions.last(),
                end,
            );
        lemma_rotation_by_policy(sim, other, input, start, actions.drop_last(), before);
        lemma_is_step_by_policy(sim, other, input, before, actions.last(), end);
    }
}

} // verus!
