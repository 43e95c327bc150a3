//! The search tree: an arena of vertices, each of which knows its parent, its
//! youngest child and its next older sibling by index. A child always stands
//! after its parent in the arena, and an older sibling before a younger one.

use crate::action_set::ActionSet;
use crate::craft_context::Input;
use crate::craft_state::{spec_available_moves, Node, State, SCORE_ONE};
use crate::executor::is_step;
use crate::simulator::Simulator;
use vstd::prelude::*;

verus! {

/// A node of the search with its place in the tree.
#[derive(Copy, Clone, Debug, PartialEq, Eq)]
pub struct Vertex {
    pub node: Node,
    pub parent: Option<usize>,
    /// The child that was added last.
    pub first_child: Option<usize>,
    /// The child of the same parent that was added just before this one.
    pub next_sibling: Option<usize>,
}

/// What the search has learned at a node stays in range: no score above one,
/// and a sum of scores that the number of visits can account for.
pub open spec fn stats_in_range(node: Node) -> bool {
    node.max_score <= SCORE_ONE && node.score_sum <= node.visits * SCORE_ONE
}

/// What holds of the vertex at `i` in a well-formed tree. Every vertex but the
/// root hangs below an earlier vertex, by an action that leads from the
/// parent's state to its own. The links to child and sibling point where they
/// should. The moves left to try are moves of a strict search.
pub open spec fn vertex_ok<S: Simulator>(v: Seq<Vertex>, i: int, sim: S, input: Input) -> bool {
    &&& i > 0 ==> (v[i].parent matches Some(p) && p < i && (v[i].node.action matches Some(a)
        && is_step(sim, input, v[p as int].node.state, a, v[i].node.state)))
    &&& v[i].first_child matches Some(c) ==> i < c < v.len() && v[c as int].parent == Some(
        i as usize,
    )
    &&& v[i].next_sibling matches Some(s) ==> 0 < s < i && v[s as int].parent == v[i].parent
    &&& stats_in_range(v[i].node)
    &&& v[i].node.available_moves@.subset_of(spec_available_moves(input, v[i].node.state, true))
}

/// Whether `c` is among the children listed from `start` on: `start` itself,
/// or one of its older siblings.
pub open spec fn in_chain(v: Seq<Vertex>, start: Option<usize>, c: usize) -> bool
    decreases
        (match start {
            Some(s) => s + 1,
            None => 0,
        }),
{
    match start {
        None => false,
        Some(s) => s < v.len() && (s == c || (match v[s as int].next_sibling {
            Some(n) => n < s && in_chain(v, Some(n), c),
            None => false,
        })),
    }
}

/// The search tree.
pub struct Tree {
    vertices: Vec<Vertex>,
}

impl View for Tree {
    type V = Seq<Vertex>;

    closed spec fn view(&self) -> Seq<Vertex> {
        self.vertices@
    }
}

impl Tree {
    /// Whether the tree is well formed for a search with the policy of `sim`
    /// on the craft of `input`.
    pub open spec fn wf<S: Simulator>(self, sim: S, input: Input) -> bool {
        &&& self@.len() >= 1
        &&& self@[0].parent is None
        &&& forall|i: int| 0 <= i < self@.len() ==> #[trigger] vertex_ok(self@, i, sim, input)
    }

    /// A tree of one vertex: the root, which holds `state` and no visit yet,
    /// with `moves` left to try.
    pub fn new(state: State, moves: ActionSet) -> (tree: Self)
        ensures
            tree@.len() == 1,
            tree@[0] == (Vertex {
                node: Node {
                    state,
                    action: None,
                    score_sum: 0,
                    max_score: 0,
                    visits: 0,
                    available_moves: moves,
                },
                parent: None,
                first_child: None,
                next_sibling: None,
            }),
    {
        let root = Vertex {
            node: Node {
                state,
                action: None,
                score_sum: 0,
                max_score: 0,
                visits: 0,
                available_moves: moves,
            },
            parent: None,
            first_child: None,
            next_sibling: None,
        };
        let mut vertices = Vec::new();
        vertices.push(root);
        Tree { vertices }
    }

    /// The number of vertices.
    pub fn len(&self) -> (r: usize)
        ensures
            r == self@.len(),
    {
        self.vertices.len()
    }

    /// The vertex at `index`.
    pub fn get(&self, index: usize) -> (r: Vertex)
        requires
            index < self@.len(),
        ensures
            r == self@[index as int],
    {
        self.vertices[index]
    }

    /// Hangs `node` below the vertex at `parent`, as its youngest child, and
    /// returns where it stands.
    pub fn add_child<S: Simulator>(
        &mut self,
        parent: usize,
        node: Node,
        Ghost(sim): Ghost<S>,
        Ghost(input): Ghost<Input>,
    ) -> (child: usize)
        requires
            old(self).wf(sim, input),
            parent < old(self)@.len(),
            stats_in_range(node),
            node.available_moves@.subset_of(spec_available_moves(input, node.state, true)),
            node.action matches Some(a) && is_step(
                sim,
                input,
                old(self)@[parent as int].node.state,
                a,
                node.state,
            ),
        ensures
            final(self).wf(sim, input),
            child == old(self)@.len(),
            final(self)@.len() == old(self)@.len() + 1,
            final(self)@[child as int] == (Vertex {
                node,
                parent: Some(parent),
                first_child: None,
                next_sibling: old(self)@[parent as int].first_child,
            }),
            final(self)@[parent as int] == (Vertex {
                first_child: Some(child),
                ..old(self)@[parent as int]
            }),
            forall|i: int|
                0 <= i < old(self)@.len() && i != parent ==> final(self)@[i] == old(self)@[i],
    {
        let ghost before = self@;
        let child = self.vertices.len();
        let above = self.vertices[parent];
        let vertex = Vertex {
            node,
            parent: Some(parent),
            first_child: None,
            next_sibling: above.first_child,
        };
        self.vertices.push(vertex);
        self.vertices.set(parent, Vertex { first_child: Some(child), ..above });
        proof {
            let after = self@;
            assert forall|i: int| 0 <= i < after.len() implies #[trigger] vertex_ok(
                after,
                i,
                sim,
                input,
            ) by {
                if i < before.len() {
                    assert(vertex_ok(before, i, sim, input));
                } else {
                    assert(vertex_ok(before, parent as int, sim, input));
                }
            }
        }
        child
    }

    /// Replaces what the vertex at `index` holds of the search: its statistics
    /// and the moves left to try. The vertex stays where it is.
    pub fn update<S: Simulator>(
        &mut self,
        index: usize,
        node: Node,
        Ghost(sim): Ghost<S>,
        Ghost(input): Ghost<Input>,
    )
        requires
            old(self).wf(sim, input),
            index < old(self)@.len(),
            node.state == old(self)@[index as int].node.state,
            node.action == old(self)@[index as int].node.action,
            stats_in_range(node),
            node.available_moves@.subset_of(spec_available_moves(input, node.state, true)),
        ensures
            final(self).wf(sim, input),
            final(self)@.len() == old(self)@.len(),
            final(self)@[index as int] == (Vertex { node, ..old(self)@[index as int] }),
            forall|i: int|
                0 <= i < old(self)@.len() && i != index ==> final(self)@[i] == old(self)@[i],
    {
        let ghost before = self@;
        let vertex = self.vertices[index];
        self.vertices.set(index, Vertex { node, ..vertex });
        proof {
            let after = self@;
            assert forall|i: int| 0 <= i < after.len() implies #[trigger] vertex_ok(
                after,
                i,
                sim,
                input,
            ) by {
                assert(vertex_ok(before, i, sim, input));
            }
        }
    }
}

} // verus!
