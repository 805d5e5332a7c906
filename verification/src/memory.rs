//! The in-memory datastore.
use crate::errors::OperationalError;
use crate::graph::{
    lemma_create_edge_wf, lemma_create_vertex_wf, lemma_delete_edges_wf,
    lemma_delete_vertices_wf, GraphState,
};
use crate::models::{Edge, EdgeView, Id, Vertex, VertexView};
use crate::operation::{lemma_run_prefix_refused, outcome_views, run, step, Operation, Outcome};
use crate::query::{EdgeQuery, VertexQuery};
use vstd::prelude::*;

verus! {

/// The mathematical values of a list of vertices.
pub open spec fn vertex_views<I: Id>(s: Seq<Vertex<I>>) -> Seq<VertexView<I::V>> {
    s.map_values(|v: Vertex<I>| v@)
}

/// The mathematical values of a list of edges.
pub open spec fn edge_views<I: Id>(s: Seq<Edge<I>>) -> Seq<EdgeView<I::V>> {
    s.map_values(|e: Edge<I>| e@)
}

/// A datastore that keeps every vertex and edge in process memory.
pub struct MemoryDatastore<I: Id> {
    vertices: Vec<Vertex<I>>,
    edges: Vec<Edge<I>>,
}

impl<I: Id> View for MemoryDatastore<I> {
    type V = GraphState<I::V>;

    closed spec fn view(&self) -> GraphState<I::V> {
        GraphState { vertices: vertex_views(self.vertices@), edges: edge_views(self.edges@) }
    }
}

impl<I: Id> MemoryDatastore<I> {
    /// The datastore holds no id twice and no edge identity twice.
    pub open spec fn wf(&self) -> bool {
        self@.wf()
    }

    /// An empty datastore.
    pub fn new() -> (res: MemoryDatastore<I>)
        ensures
            res@ == GraphState::<I::V>::empty(),
            res.wf(),
    {
        let res = MemoryDatastore { vertices: Vec::new(), edges: Vec::new() };
        assert(res@.vertices =~= Seq::empty());
        assert(res@.edges =~= Seq::empty());
        res
    }

    /// How many vertices are stored.
    pub fn vertex_count(&self) -> (res: usize)
        ensures
            res == self@.vertices.len(),
    {
        self.vertices.len()
    }

    /// How many edges are stored.
    pub fn edge_count(&self) -> (res: usize)
        ensures
            res == self@.edges.len(),
    {
        self.edges.len()
    }

    fn has_vertex(&self, id: &I) -> (res: bool)
        ensures
            res == self@.has_vertex(id@),
    {
        let mut i: usize = 0;
        while i < self.vertices.len()
            invariant
                i <= self.vertices@.len(),
                forall|j: int| 0 <= j < i ==> (#[trigger] self@.vertices[j]).id != id@,
            decreases self.vertices@.len() - i,
        {
            if self.vertices[i].id.same(id) {
                assert(self@.vertices[i as int].id == id@);
                return true;
            }
            i += 1;
        }
        false
    }

    fn find_edge(&self, e: &Edge<I>) -> (res: Option<usize>)
        ensures
            match res {
                Some(i) => i < self@.edges.len() && self@.edges[i as int].same_key(e@),
                None => !self@.has_edge(e@),
            },
    {
        let mut i: usize = 0;
        while i < self.edges.len()
            invariant
                i <= self.edges@.len(),
                forall|j: int| 0 <= j < i ==> !(#[trigger] self@.edges[j]).same_key(e@),
            decreases self.edges@.len() - i,
        {
            if self.edges[i].same(e) {
                return Some(i);
            }
            i += 1;
        }
        None
    }

    fn selects_id(&self, q: &VertexQuery<I>, id: &I) -> (res: bool)
        ensures
            res == self@.selects_id(q.predicate(), id@),
    {
        let ghost p = q.predicate();
        let mut i: usize = 0;
        while i < self.vertices.len()
            invariant
                i <= self.vertices@.len(),
                p == q.predicate(),
                forall|j: int|
                    0 <= j < i ==> !(p(#[trigger] self@.vertices[j]) && self@.vertices[j].id
                        == id@),
            decreases self.vertices@.len() - i,
        {
            let v = &self.vertices[i];
            if v.id.same(id) && q.test(v) {
                assert(p(self@.vertices[i as int]) && self@.vertices[i as int].id == id@);
                return true;
            }
            i += 1;
        }
        false
    }

    /// Stores a vertex. Fails with `UuidTaken`, and changes nothing, when a
    /// vertex with its id is stored already.
    pub fn create_vertex(&mut self, v: Vertex<I>) -> (res: Result<bool, OperationalError>)
        requires
            old(self).wf(),
        ensures
            final(self).wf(),
            match old(self)@.create_vertex(v@) {
                Some(next) => res matches Ok(true) && final(self)@ == next,
                None => res matches Err(OperationalError::UuidTaken) && final(self)@ == old(
                    self,
                )@,
            },
    {
        if self.has_vertex(&v.id) {
            return Err(OperationalError::UuidTaken);
        }
        proof {
            lemma_create_vertex_wf(self@, v@);
        }
        self.vertices.push(v);
        assert(self@.vertices =~= old(self)@.vertices.push(v@));
        Ok(true)
    }

    /// Stores an edge. A stored edge with the same outbound id, type and
    /// inbound id takes its weight, and its instant unless the stored
    /// one is later; otherwise the edge is added.
    pub fn create_edge(&mut self, e: Edge<I>) -> (res: Result<bool, OperationalError>)
        requires
            old(self).wf(),
        ensures
            final(self).wf(),
            res matches Ok(true),
            final(self)@ == old(self)@.create_edge(e@),
    {
        proof {
            lemma_create_edge_wf(self@, e@);
        }
        match self.find_edge(&e) {
            Some(i) => {
                let stored = self.edges[i].update_datetime;
                let merged = Edge {
                    outbound_id: e.outbound_id,
                    t: e.t,
                    inbound_id: e.inbound_id,
                    weight: e.weight,
                    update_datetime: e.update_datetime.later(stored),
                };
                assert(merged@ == e@.replacing(old(self)@.edges[i as int]));
                self.edges.set(i, merged);
                assert forall|j: int| 0 <= j < old(self)@.edges.len() && j != i implies !(
                #[trigger] old(self)@.edges[j]).same_key(e@) by {
                    if j < i {
                        assert(!old(self)@.edges[j].same_key(old(self)@.edges[i as int]));
                    } else {
                        assert(!old(self)@.edges[i as int].same_key(old(self)@.edges[j]));
                    }
                }
                assert(self@.edges =~= old(self)@.create_edge(e@).edges);
            },
            None => {
                self.edges.push(e);
                assert(self@.edges =~= old(self)@.edges.push(e@));
            },
        }
        Ok(true)
    }

    /// Copies of the stored vertices that the query selects, in stored
    /// order. Finding none is no failure.
    pub fn get_vertices(&self, q: &VertexQuery<I>) -> (res: Result<
        Vec<Vertex<I>>,
        OperationalError,
    >)
        ensures
            res matches Ok(found) && vertex_views(found@) == self@.get_vertices(q.predicate()),
    {
        let ghost p = q.predicate();
        let ghost s = self@.vertices;
        let mut out: Vec<Vertex<I>> = Vec::new();
        let mut i: usize = 0;
        assert(s.take(0).filter(p) =~= Seq::empty()) by {
            reveal(Seq::filter);
        }
        while i < self.vertices.len()
            invariant
                i <= self.vertices@.len(),
                p == q.predicate(),
                s == self@.vertices,
                vertex_views(out@) =~= s.take(i as int).filter(p),
            decreases self.vertices@.len() - i,
        {
            let v = &self.vertices[i];
            proof {
                assert(s.take(i + 1) =~= s.take(i as int).push(s[i as int]));
                s.take(i as int).lemma_filter_push(s[i as int], p);
            }
            if q.test(v) {
                out.push(v.duplicate());
            }
            i += 1;
        }
        assert(s.take(i as int) =~= s);
        Ok(out)
    }

    /// Copies of the stored edges that the query selects, in stored order.
    pub fn get_edges(&self, q: &EdgeQuery<I>) -> (res: Result<Vec<Edge<I>>, OperationalError>)
        ensures
            res matches Ok(found) && edge_views(found@) == self@.get_edges(q.predicate()),
    {
        let ghost p = q.predicate();
        let ghost s = self@.edges;
        let mut out: Vec<Edge<I>> = Vec::new();
        let mut i: usize = 0;
        assert(s.take(0).filter(p) =~= Seq::empty()) by {
            reveal(Seq::filter);
        }
        while i < self.edges.len()
            invariant
                i <= self.edges@.len(),
                p == q.predicate(),
                s == self@.edges,
                edge_views(out@) =~= s.take(i as int).filter(p),
            decreases self.edges@.len() - i,
        {
            let e = &self.edges[i];
            proof {
                assert(s.take(i + 1) =~= s.take(i as int).push(s[i as int]));
                s.take(i as int).lemma_filter_push(s[i as int], p);
            }
            if q.test(e) {
                out.push(e.duplicate());
            }
            i += 1;
        }
        assert(s.take(i as int) =~= s);
        Ok(out)
    }

    fn vertices_outside(&self, q: &VertexQuery<I>) -> (out: Vec<Vertex<I>>)
        ensures
            vertex_views(out@) == self@.delete_vertices(q.predicate()).vertices,
    {
        let ghost p = q.predicate();
        let ghost keep = |v: VertexView<I::V>| !p(v);
        let ghost s = self@.vertices;
        let mut out: Vec<Vertex<I>> = Vec::new();
        let mut i: usize = 0;
        assert(s.take(0).filter(keep) =~= Seq::empty()) by {
            reveal(Seq::filter);
        }
        while i < self.vertices.len()
            invariant
                i <= self.vertices@.len(),
                p == q.predicate(),
                keep == |v: VertexView<I::V>| !p(v),
                s == self@.vertices,
                vertex_views(out@) =~= s.take(i as int).filter(keep),
            decreases self.vertices@.len() - i,
        {
            let v = &self.vertices[i];
            proof {
                assert(s.take(i + 1) =~= s.take(i as int).push(s[i as int]));
                s.take(i as int).lemma_filter_push(s[i as int], keep);
            }
            if !q.test(v) {
                out.push(v.duplicate());
            }
            i += 1;
        }
        assert(s.take(i as int) =~= s);
        out
    }

    fn edges_untouched(&self, q: &VertexQuery<I>) -> (out: Vec<Edge<I>>)
        ensures
            edge_views(out@) == self@.delete_vertices(q.predicate()).edges,
    {
        let ghost p = q.predicate();
        let ghost g = self@;
        let ghost keep = |e: EdgeView<I::V>| !g.touches(p, e);
        let ghost s = self@.edges;
        let mut out: Vec<Edge<I>> = Vec::new();
        let mut i: usize = 0;
        assert(s.take(0).filter(keep) =~= Seq::empty()) by {
            reveal(Seq::filter);
        }
        while i < self.edges.len()
            invariant
                i <= self.edges@.len(),
                p == q.predicate(),
                g == self@,
                keep == |e: EdgeView<I::V>| !g.touches(p, e),
                s == self@.edges,
                edge_views(out@) =~= s.take(i as int).filter(keep),
            decreases self.edges@.len() - i,
        {
            let e = &self.edges[i];
            proof {
                assert(s.take(i + 1) =~= s.take(i as int).push(s[i as int]));
                s.take(i as int).lemma_filter_push(s[i as int], keep);
            }
            let touched = self.selects_id(q, &e.outbound_id) || self.selects_id(q, &e.inbound_id);
            if !touched {
                out.push(e.duplicate());
            }
            i += 1;
        }
        assert(s.take(i as int) =~= s);
        out
    }

    fn edges_outside(&self, q: &EdgeQuery<I>) -> (out: Vec<Edge<I>>)
        ensures
            edge_views(out@) == self@.delete_edges(q.predicate()).edges,
    {
        let ghost p = q.predicate();
        let ghost keep = |e: EdgeView<I::V>| !p(e);
        let ghost s = self@.edges;
        let mut out: Vec<Edge<I>> = Vec::new();
        let mut i: usize = 0;
        assert(s.take(0).filter(keep) =~= Seq::empty()) by {
            reveal(Seq::filter);
        }
        while i < self.edges.len()
            invariant
                i <= self.edges@.len(),
                p == q.predicate(),
                keep == |e: EdgeView<I::V>| !p(e),
                s == self@.edges,
                edge_views(out@) =~= s.take(i as int).filter(keep),
            decreases self.edges@.len() - i,
        {
            let e = &self.edges[i];
            proof {
                assert(s.take(i + 1) =~= s.take(i as int).push(s[i as int]));
                s.take(i as int).lemma_filter_push(s[i as int], keep);
            }
            if !q.test(e) {
                out.push(e.duplicate());
            }
            i += 1;
        }
        assert(s.take(i as int) =~= s);
        out
    }

    /// Deletes the stored vertices that the query selects, and with them
    /// every edge that starts or ends at one of them.
    pub fn delete_vertices(&mut self, q: &VertexQuery<I>) -> (res: Result<(), OperationalError>)
        requires
            old(self).wf(),
        ensures
            final(self).wf(),
            res is Ok,
            final(self)@ == old(self)@.delete_vertices(q.predicate()),
    {
        proof {
            lemma_delete_vertices_wf(self@, q.predicate());
        }
        let vertices = self.vertices_outside(q);
        let edges = self.edges_untouched(q);
        self.vertices = vertices;
        self.edges = edges;
        Ok(())
    }

    /// Deletes the stored edges that the query selects.
    pub fn delete_edges(&mut self, q: &EdgeQuery<I>) -> (res: Result<(), OperationalError>)
        requires
            old(self).wf(),
        ensures
            final(self).wf(),
            res is Ok,
            final(self)@ == old(self)@.delete_edges(q.predicate()),
    {
        proof {
            lemma_delete_edges_wf(self@, q.predicate());
        }
        let edges = self.edges_outside(q);
        self.edges = edges;
        Ok(())
    }

    fn snapshot_vertices(&self) -> (out: Vec<Vertex<I>>)
        ensures
            vertex_views(out@) == self@.vertices,
    {
        let mut out: Vec<Vertex<I>> = Vec::new();
        let mut i: usize = 0;
        while i < self.vertices.len()
            invariant
                i <= self.vertices@.len(),
                vertex_views(out@) =~= self@.vertices.take(i as int),
            decreases self.vertices@.len() - i,
        {
            let ghost s = self@.vertices;
            assert(s.take(i + 1) =~= s.take(i as int).push(s[i as int]));
            out.push(self.vertices[i].duplicate());
            i += 1;
        }
        assert(self@.vertices.take(i as int) =~= self@.vertices);
        out
    }

    fn snapshot_edges(&self) -> (out: Vec<Edge<I>>)
        ensures
            edge_views(out@) == self@.edges,
    {
        let mut out: Vec<Edge<I>> = Vec::new();
        let mut i: usize = 0;
        while i < self.edges.len()
            invariant
                i <= self.edges@.len(),
                edge_views(out@) =~= self@.edges.take(i as int),
            decreases self.edges@.len() - i,
        {
            let ghost s = self@.edges;
            assert(s.take(i + 1) =~= s.take(i as int).push(s[i as int]));
            out.push(self.edges[i].duplicate());
            i += 1;
        }
        assert(self@.edges.take(i as int) =~= self@.edges);
        out
    }

    /// Applies one operation. A refused operation changes nothing.
    pub fn apply(&mut self, op: &Operation<I>) -> (res: Result<Outcome<I>, OperationalError>)
        requires
            old(self).wf(),
        ensures
            final(self).wf(),
            match step(old(self)@, *op) {
                Some((next, outcome)) => res matches Ok(o) && o@ == outcome && final(self)@
                    == next,
                None => res matches Err(OperationalError::UuidTaken) && final(self)@ == old(
                    self,
                )@,
            },
    {
        match op {
            Operation::CreateVertex(v) => match self.create_vertex(v.duplicate()) {
                Ok(created) => Ok(Outcome::Created(created)),
                Err(e) => Err(e),
            },
            Operation::GetVertices(q) => match self.get_vertices(q) {
                Ok(found) => Ok(Outcome::Vertices(found)),
                Err(e) => Err(e),
            },
            Operation::DeleteVertices(q) => match self.delete_vertices(q) {
                Ok(_) => Ok(Outcome::Deleted),
                Err(e) => Err(e),
            },
            Operation::CreateEdge(e) => match self.create_edge(e.duplicate()) {
                Ok(created) => Ok(Outcome::Created(created)),
                Err(e) => Err(e),
            },
            Operation::GetEdges(q) => match self.get_edges(q) {
                Ok(found) => Ok(Outcome::Edges(found)),
                Err(e) => Err(e),
            },
            Operation::DeleteEdges(q) => match self.delete_edges(q) {
                Ok(_) => Ok(Outcome::Deleted),
                Err(e) => Err(e),
            },
        }
    }

    /// Applies the operations in turn as one unit: either every one of
    /// them takes effect and each outcome is returned, or, when one is
    /// refused, the datastore is as it was before the first.
    pub fn transaction(&mut self, ops: &Vec<Operation<I>>) -> (res: Result<
        Vec<Outcome<I>>,
        OperationalError,
    >)
        requires
            old(self).wf(),
        ensures
            final(self).wf(),
            match run(old(self)@, ops@) {
                Some((next, outcomes)) => res matches Ok(out) && outcome_views(out@) == outcomes
                    && final(self)@ == next,
                None => res matches Err(OperationalError::UuidTaken) && final(self)@ == old(
                    self,
                )@,
            },
    {
        let saved_vertices = self.snapshot_vertices();
        let saved_edges = self.snapshot_edges();
        let mut out: Vec<Outcome<I>> = Vec::new();
        let mut i: usize = 0;
        assert(ops@.take(0) =~= Seq::empty());
        assert(outcome_views(out@) =~= Seq::empty());
        while i < ops.len()
            invariant
                i <= ops@.len(),
                self.wf(),
                old(self).wf(),
                vertex_views(saved_vertices@) == old(self)@.vertices,
                edge_views(saved_edges@) == old(self)@.edges,
                run(old(self)@, ops@.take(i as int)) == Some((self@, outcome_views(out@))),
            decreases ops@.len() - i,
        {
            let ghost before = self@;
            let ghost done = outcome_views(out@);
            proof {
                assert(ops@.take(i + 1).drop_last() =~= ops@.take(i as int));
                assert(ops@.take(i + 1).last() == ops@[i as int]);
            }
            match self.apply(&ops[i]) {
                Ok(o) => {
                    out.push(o);
                    assert(outcome_views(out@) =~= done.push(o@));
                },
                Err(_) => {
                    proof {
                        lemma_run_prefix_refused(old(self)@, ops@, i + 1);
                    }
                    self.vertices = saved_vertices;
                    self.edges = saved_edges;
                    return Err(OperationalError::UuidTaken);
                },
            }
            i += 1;
        }
        assert(ops@.take(i as int) =~= ops@);
        Ok(out)
    }
}

} // verus!
