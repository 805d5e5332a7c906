//! How callers say which vertices or edges an operation is about.
use crate::models::{Edge, EdgeView, Id, Type, Vertex, VertexView, Weight};
use vstd::prelude::*;

verus! {

/// Which vertices an operation is about.
pub enum VertexQuery<I: Id> {
    /// Every vertex.
    All,
    /// The vertices whose id is in the list.
    Ids(Vec<I>),
    /// The vertices of one type.
    OfType(Type),
}

impl<I: Id> VertexQuery<I> {
    /// Whether the query selects the vertex `v`.
    pub open spec fn selects(&self, v: VertexView<I::V>) -> bool {
        match self {
            VertexQuery::All => true,
            VertexQuery::Ids(ids) => exists|k: int|
                0 <= k < ids@.len() && (#[trigger] ids@[k])@ == v.id,
            VertexQuery::OfType(t) => t@ == v.t,
        }
    }

    /// The query as a predicate on vertices.
    pub open spec fn predicate(&self) -> spec_fn(VertexView<I::V>) -> bool {
        |v: VertexView<I::V>| self.selects(v)
    }

    /// Tests whether the query selects a vertex.
    pub fn test(&self, v: &Vertex<I>) -> (res: bool)
        ensures
            res == self.selects(v@),
    {
        match self {
            VertexQuery::All => true,
            VertexQuery::Ids(ids) => {
                let mut k: usize = 0;
                while k < ids.len()
                    invariant
                        k <= ids@.len(),
                        self matches VertexQuery::Ids(x) && x == ids,
                        forall|j: int| 0 <= j < k ==> (#[trigger] ids@[j])@ != v@.id,
                    decreases ids@.len() - k,
                {
                    if ids[k].same(&v.id) {
                        assert(ids@[k as int]@ == v@.id);
                        return true;
                    }
                    k += 1;
                }
                false
            },
            VertexQuery::OfType(t) => t.same(&v.t),
        }
    }
}

/// Which edges an operation is about: an edge is selected when it passes
/// every test that is present.
pub struct EdgeQuery<I: Id> {
    /// The outbound id that a selected edge has.
    pub outbound_id: Option<I>,
    /// The type that a selected edge has.
    pub t: Option<Type>,
    /// The inbound id that a selected edge has.
    pub inbound_id: Option<I>,
    /// The least and the greatest weight of a selected edge.
    pub weight_range: Option<(Weight, Weight)>,
}

impl<I: Id> EdgeQuery<I> {
    /// Whether the query selects the edge `e`.
    pub open spec fn selects(&self, e: EdgeView<I::V>) -> bool {
        &&& self.outbound_id matches Some(o) ==> o@ == e.outbound_id
        &&& self.t matches Some(t) ==> t@ == e.t
        &&& self.inbound_id matches Some(i) ==> i@ == e.inbound_id
        &&& self.weight_range matches Some(r) ==> r.0.spec_rank() <= e.weight.spec_rank()
            <= r.1.spec_rank()
    }

    /// The query as a predicate on edges.
    pub open spec fn predicate(&self) -> spec_fn(EdgeView<I::V>) -> bool {
        |e: EdgeView<I::V>| self.selects(e)
    }

    /// The query that selects every edge.
    pub fn all() -> (res: EdgeQuery<I>)
        ensures
            res.outbound_id is None,
            res.t is None,
            res.inbound_id is None,
            res.weight_range is None,
    {
        EdgeQuery { outbound_id: None, t: None, inbound_id: None, weight_range: None }
    }

    /// The query that selects the edges that start at `id`.
    pub fn outbound(id: I) -> (res: EdgeQuery<I>)
        ensures
            res.outbound_id == Some(id),
            res.t is None,
            res.inbound_id is None,
            res.weight_range is None,
    {
        EdgeQuery { outbound_id: Some(id), t: None, inbound_id: None, weight_range: None }
    }

    /// The query that selects the edges that end at `id`.
    pub fn inbound(id: I) -> (res: EdgeQuery<I>)
        ensures
            res.outbound_id is None,
            res.t is None,
            res.inbound_id == Some(id),
            res.weight_range is None,
    {
        EdgeQuery { outbound_id: None, t: None, inbound_id: Some(id), weight_range: None }
    }

    /// Tests whether the query selects an edge.
    pub fn test(&self, e: &Edge<I>) -> (res: bool)
        ensures
            res == self.selects(e@),
    {
        let a = match &self.outbound_id {
            Some(o) => o.same(&e.outbound_id),
            None => true,
        };
        let b = match &self.t {
            Some(t) => t.same(&e.t),
            None => true,
        };
        let c = match &self.inbound_id {
            Some(i) => i.same(&e.inbound_id),
            None => true,
        };
        let d = match &self.weight_range {
            Some(r) => {
                let w: i64 = e.weight.rank();
                r.0.rank() <= w && w <= r.1.rank()
            },
            None => true,
        };
        a && b && c && d
    }
}

} // verus!
