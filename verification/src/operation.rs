//! Operations as values, so that several can be applied as one
//! transaction, and what a sequence of them makes of a state.
use crate::graph::GraphState;
use crate::models::{Edge, EdgeView, Id, Vertex, VertexView};
use crate::query::{EdgeQuery, VertexQuery};
use vstd::prelude::*;

verus! {

/// One datastore operation with its arguments.
pub enum Operation<I: Id> {
    CreateVertex(Vertex<I>),
    GetVertices(VertexQuery<I>),
    DeleteVertices(VertexQuery<I>),
    CreateEdge(Edge<I>),
    GetEdges(EdgeQuery<I>),
    DeleteEdges(EdgeQuery<I>),
}

/// What one operation gave.
pub enum Outcome<I: Id> {
    /// A vertex or an edge was stored.
    Created(bool),
    /// The vertices that were asked for.
    Vertices(Vec<Vertex<I>>),
    /// The edges that were asked for.
    Edges(Vec<Edge<I>>),
    /// Vertices or edges were deleted.
    Deleted,
}

/// The mathematical value of an outcome.
pub enum OutcomeView<K> {
    Created(bool),
    Vertices(Seq<VertexView<K>>),
    Edges(Seq<EdgeView<K>>),
    Deleted,
}

impl<I: Id> View for Outcome<I> {
    type V = OutcomeView<I::V>;

    open spec fn view(&self) -> OutcomeView<I::V> {
        match self {
            Outcome::Created(b) => OutcomeView::Created(*b),
            Outcome::Vertices(found) => OutcomeView::Vertices(
                found@.map_values(|v: Vertex<I>| v@),
            ),
            Outcome::Edges(found) => OutcomeView::Edges(found@.map_values(|e: Edge<I>| e@)),
            Outcome::Deleted => OutcomeView::Deleted,
        }
    }
}

/// The mathematical values of a list of outcomes.
pub open spec fn outcome_views<I: Id>(s: Seq<Outcome<I>>) -> Seq<OutcomeView<I::V>> {
    s.map_values(|o: Outcome<I>| o@)
}

/// What one operation makes of a state: the next state and the outcome,
/// or nothing when the operation is refused. Only storing a vertex under
/// a taken id is refused.
pub open spec fn step<I: Id>(s: GraphState<I::V>, op: Operation<I>) -> Option<
    (GraphState<I::V>, OutcomeView<I::V>),
> {
    match op {
        Operation::CreateVertex(v) => match s.create_vertex(v@) {
            Some(next) => Some((next, OutcomeView::Created(true))),
            None => None,
        },
        Operation::GetVertices(q) => Some(
            (s, OutcomeView::Vertices(s.get_vertices(q.predicate()))),
        ),
        Operation::DeleteVertices(q) => Some(
            (s.delete_vertices(q.predicate()), OutcomeView::Deleted),
        ),
        Operation::CreateEdge(e) => Some((s.create_edge(e@), OutcomeView::Created(true))),
        Operation::GetEdges(q) => Some((s, OutcomeView::Edges(s.get_edges(q.predicate())))),
        Operation::DeleteEdges(q) => Some((s.delete_edges(q.predicate()), OutcomeView::Deleted)),
    }
}

/// What a sequence of operations makes of a state when each is applied
/// to what the one before it left: the last state and every outcome in
/// turn, or nothing when one of them is refused.
pub open spec fn run<I: Id>(s: GraphState<I::V>, ops: Seq<Operation<I>>) -> Option<
    (GraphState<I::V>, Seq<OutcomeView<I::V>>),
>
    decreases ops.len(),
{
    if ops.len() == 0 {
        Some((s, Seq::empty()))
    } else {
        match run(s, ops.drop_last()) {
            None => None,
            Some((mid, outcomes)) => match step(mid, ops.last()) {
                None => None,
                Some((next, outcome)) => Some((next, outcomes.push(outcome))),
            },
        }
    }
}

/// Once a prefix of a sequence is refused, the whole sequence is.
pub proof fn lemma_run_prefix_refused<I: Id>(s: GraphState<I::V>, ops: Seq<Operation<I>>, k: int)
    requires
        0 <= k <= ops.len(),
        run(s, ops.take(k)) is None,
    ensures
        run(s, ops) is None,
    decreases ops.len(),
{
    if k == ops.len() {
        assert(ops.take(k) =~= ops);
    } else {
        assert(ops.drop_last().take(k) =~= ops.take(k));
        lemma_run_prefix_refused(s, ops.drop_last(), k);
    }
}

/// A sequence that is not refused gives one outcome for each operation.
pub proof fn law_one_outcome_each<I: Id>(s: GraphState<I::V>, ops: Seq<Operation<I>>)
    requires
        run(s, ops) is Some,
    ensures
        run(s, ops).unwrap().1.len() == ops.len(),
    decreases ops.len(),
{
    if ops.len() > 0 {
        law_one_outcome_each(s, ops.drop_last());
    }
}

} // verus!
