//! The contract that every datastore meets, wherever its data lives.
use crate::errors::OperationalError;
use crate::graph::GraphState;
use crate::memory::{edge_views, vertex_views, MemoryDatastore};
use crate::models::{Edge, Id, Vertex};
use crate::operation::{outcome_views, run, step, Operation, Outcome};
use crate::query::{EdgeQuery, VertexQuery};
use vstd::prelude::*;

verus! {

/// A datastore of vertices and edges. What each operation returns, and
/// what it leaves stored, is fixed by the state before it: two datastores
/// that start in the same state and are given the same operations return
/// the same values for as long as neither fails on its storage. A failed
/// operation leaves the state as it was. `UuidTaken` comes only where the
/// operation is refused, and a refused operation never succeeds.
pub trait Datastore<I: Id>: Sized {
    /// What the datastore holds.
    spec fn state(&self) -> GraphState<I::V>;

    /// What holds of the datastore between operations.
    spec fn inv(&self) -> bool;

    /// Stores a vertex, unless its id is taken.
    fn create_vertex(&mut self, v: Vertex<I>) -> (res: Result<bool, OperationalError>)
        requires
            old(self).inv(),
        ensures
            final(self).inv(),
            match res {
                Ok(created) => created && old(self).state().create_vertex(v@) == Some(
                    final(self).state(),
                ),
                Err(e) => final(self).state() == old(self).state() && (e is UuidTaken ==> old(
                    self,
                ).state().has_vertex(v@.id)),
            },
    ;

    /// Copies of the stored vertices that the query selects.
    fn get_vertices(&self, q: &VertexQuery<I>) -> (res: Result<Vec<Vertex<I>>, OperationalError>)
        requires
            self.inv(),
        ensures
            match res {
                Ok(found) => vertex_views(found@) == self.state().get_vertices(q.predicate()),
                Err(e) => !(e is UuidTaken),
            },
    ;

    /// Deletes the vertices that the query selects, and their edges.
    fn delete_vertices(&mut self, q: &VertexQuery<I>) -> (res: Result<(), OperationalError>)
        requires
            old(self).inv(),
        ensures
            final(self).inv(),
            match res {
                Ok(_) => final(self).state() == old(self).state().delete_vertices(q.predicate()),
                Err(e) => final(self).state() == old(self).state() && !(e is UuidTaken),
            },
    ;

    /// Stores an edge, in place of the stored edge of the same identity
    /// if there is one.
    fn create_edge(&mut self, e: Edge<I>) -> (res: Result<bool, OperationalError>)
        requires
            old(self).inv(),
        ensures
            final(self).inv(),
            match res {
                Ok(created) => created && final(self).state() == old(self).state().create_edge(
                    e@,
                ),
                Err(e) => final(self).state() == old(self).state() && !(e is UuidTaken),
            },
    ;

    /// Copies of the stored edges that the query selects.
    fn get_edges(&self, q: &EdgeQuery<I>) -> (res: Result<Vec<Edge<I>>, OperationalError>)
        requires
            self.inv(),
        ensures
            match res {
                Ok(found) => edge_views(found@) == self.state().get_edges(q.predicate()),
                Err(e) => !(e is UuidTaken),
            },
    ;

    /// Deletes the edges that the query selects.
    fn delete_edges(&mut self, q: &EdgeQuery<I>) -> (res: Result<(), OperationalError>)
        requires
            old(self).inv(),
        ensures
            final(self).inv(),
            match res {
                Ok(_) => final(self).state() == old(self).state().delete_edges(q.predicate()),
                Err(e) => final(self).state() == old(self).state() && !(e is UuidTaken),
            },
    ;

    /// Applies the operations as one unit: all of them, or none.
    fn transaction(&mut self, ops: &Vec<Operation<I>>) -> (res: Result<
        Vec<Outcome<I>>,
        OperationalError,
    >)
        requires
            old(self).inv(),
        ensures
            final(self).inv(),
            match res {
                Ok(out) => run(old(self).state(), ops@) == Some(
                    (final(self).state(), outcome_views(out@)),
                ),
                Err(e) => final(self).state() == old(self).state() && (e is UuidTaken ==> run(
                    old(self).state(),
                    ops@,
                ) is None),
            },
    ;
}

impl<I: Id> Datastore<I> for MemoryDatastore<I> {
    open spec fn state(&self) -> GraphState<I::V> {
        self@
    }

    open spec fn inv(&self) -> bool {
        self.wf()
    }

    fn create_vertex(&mut self, v: Vertex<I>) -> (res: Result<bool, OperationalError>)
        ensures
            res is Ok <==> !old(self)@.has_vertex(v@.id),
    {
        MemoryDatastore::create_vertex(self, v)
    }

    fn get_vertices(&self, q: &VertexQuery<I>) -> (res: Result<Vec<Vertex<I>>, OperationalError>)
        ensures
            res is Ok,
    {
        MemoryDatastore::get_vertices(self, q)
    }

    fn delete_vertices(&mut self, q: &VertexQuery<I>) -> (res: Result<(), OperationalError>)
        ensures
            res is Ok,
    {
        MemoryDatastore::delete_vertices(self, q)
    }

    fn create_edge(&mut self, e: Edge<I>) -> (res: Result<bool, OperationalError>)
        ensures
            res is Ok,
    {
        MemoryDatastore::create_edge(self, e)
    }

    fn get_edges(&self, q: &EdgeQuery<I>) -> (res: Result<Vec<Edge<I>>, OperationalError>)
        ensures
            res is Ok,
    {
        MemoryDatastore::get_edges(self, q)
    }

    fn delete_edges(&mut self, q: &EdgeQuery<I>) -> (res: Result<(), OperationalError>)
        ensures
            res is Ok,
    {
        MemoryDatastore::delete_edges(self, q)
    }

    fn transaction(&mut self, ops: &Vec<Operation<I>>) -> (res: Result<
        Vec<Outcome<I>>,
        OperationalError,
    >)
        ensures
            res is Ok <==> run(old(self)@, ops@) is Some,
    {
        MemoryDatastore::transaction(self, ops)
    }
}

/// What the contract allows a datastore to answer to one operation: on
/// success the outcome and the next state that the model gives; on
/// failure the state as it was, and `UuidTaken` only where the model
/// refuses the operation.
pub open spec fn answers<I: Id>(
    before: GraphState<I::V>,
    op: Operation<I>,
    res: Result<Outcome<I>, OperationalError>,
    after: GraphState<I::V>,
) -> bool {
    match res {
        Ok(o) => step(before, op) == Some((after, o@)),
        Err(e) => after == before && (e is UuidTaken ==> step(before, op) is None),
    }
}

/// Datastores agree: when two of them hold the same and answer the same
/// operation, and both succeed, they return the same values and hold the
/// same afterwards; and where one refuses with `UuidTaken`, the other
/// does not succeed.
pub proof fn law_datastores_agree<I: Id>(
    before: GraphState<I::V>,
    op: Operation<I>,
    first: Result<Outcome<I>, OperationalError>,
    first_after: GraphState<I::V>,
    second: Result<Outcome<I>, OperationalError>,
    second_after: GraphState<I::V>,
)
    requires
        answers(before, op, first, first_after),
        answers(before, op, second, second_after),
    ensures
        first is Ok && second is Ok ==> first->Ok_0@ == second->Ok_0@ && first_after
            == second_after,
        first matches Err(OperationalError::UuidTaken) ==> second is Err,
{
}

/// A history of a datastore: the state before each operation of `ops`
/// and after the last, and what each operation returned, every step as
/// the contract allows.
pub open spec fn is_history<I: Id>(
    ops: Seq<Operation<I>>,
    states: Seq<GraphState<I::V>>,
    results: Seq<Result<Outcome<I>, OperationalError>>,
) -> bool {
    &&& states.len() == ops.len() + 1
    &&& results.len() == ops.len()
    &&& forall|i: int|
        0 <= i < ops.len() ==> answers(states[i], ops[i], #[trigger] results[i], states[i + 1])
}

/// Datastores agree over any sequence of operations: two histories of
/// the same operations from the same state, in which the same steps
/// fail, pass through the same states and return the same values.
pub proof fn law_histories_agree<I: Id>(
    ops: Seq<Operation<I>>,
    first_states: Seq<GraphState<I::V>>,
    first: Seq<Result<Outcome<I>, OperationalError>>,
    second_states: Seq<GraphState<I::V>>,
    second: Seq<Result<Outcome<I>, OperationalError>>,
    n: int,
)
    requires
        is_history(ops, first_states, first),
        is_history(ops, second_states, second),
        first_states[0] == second_states[0],
        0 <= n <= ops.len(),
        forall|j: int| 0 <= j < n ==> ((#[trigger] first[j]) is Ok <==> second[j] is Ok),
    ensures
        first_states[n] == second_states[n],
        forall|j: int|
            0 <= j < n && (#[trigger] first[j]) is Ok ==> first[j]->Ok_0@ == second[j]->Ok_0@,
    decreases n,
{
    if n > 0 {
        law_histories_agree(ops, first_states, first, second_states, second, n - 1);
        let k = n - 1;
        assert(answers(first_states[k], ops[k], first[k], first_states[k + 1]));
        assert(answers(second_states[k], ops[k], second[k], second_states[k + 1]));
        assert(first[k] is Ok <==> second[k] is Ok);
    }
}

/// Performs one operation, given as a value, on any datastore: the call
/// that the operation names is made with the operation's arguments, and
/// what it returns is wrapped as an outcome.
pub fn dispatch<I: Id, D: Datastore<I>>(store: &mut D, op: &Operation<I>) -> (res: Result<
    Outcome<I>,
    OperationalError,
>)
    requires
        old(store).inv(),
    ensures
        final(store).inv(),
        answers(old(store).state(), *op, res, final(store).state()),
{
    match op {
        Operation::CreateVertex(v) => match store.create_vertex(v.duplicate()) {
            Ok(created) => Ok(Outcome::Created(created)),
            Err(e) => Err(e),
        },
        Operation::GetVertices(q) => match store.get_vertices(q) {
            Ok(found) => Ok(Outcome::Vertices(found)),
            Err(e) => Err(e),
        },
        Operation::DeleteVertices(q) => match store.delete_vertices(q) {
            Ok(_) => Ok(Outcome::Deleted),
            Err(e) => Err(e),
        },
        Operation::CreateEdge(e) => match store.create_edge(e.duplicate()) {
            Ok(created) => Ok(Outcome::Created(created)),
            Err(e) => Err(e),
        },
        Operation::GetEdges(q) => match store.get_edges(q) {
            Ok(found) => Ok(Outcome::Edges(found)),
            Err(e) => Err(e),
        },
        Operation::DeleteEdges(q) => match store.delete_edges(q) {
            Ok(_) => Ok(Outcome::Deleted),
            Err(e) => Err(e),
        },
    }
}

} // verus!
