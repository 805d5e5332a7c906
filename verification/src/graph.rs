//! The mathematical model of a datastore: what is stored, what each
//! operation makes of it, and the laws that follow.
use crate::models::{EdgeView, VertexView};
use vstd::prelude::*;

verus! {

/// What a datastore holds: its vertices and its edges, in the order in
/// which they were first stored.
pub struct GraphState<K> {
    pub vertices: Seq<VertexView<K>>,
    pub edges: Seq<EdgeView<K>>,
}

/// Whether the edge `e` starts or ends at the vertex `id`.
pub open spec fn references<K>(e: EdgeView<K>, id: K) -> bool {
    e.outbound_id == id || e.inbound_id == id
}

impl<K> GraphState<K> {
    /// The state that holds nothing.
    pub open spec fn empty() -> Self {
        GraphState { vertices: Seq::empty(), edges: Seq::empty() }
    }

    /// No two stored vertices share an id, and no two stored edges share
    /// outbound id, type and inbound id.
    pub open spec fn wf(self) -> bool {
        &&& forall|i: int, j: int|
            0 <= i < j < self.vertices.len() ==> self.vertices[i].id != self.vertices[j].id
        &&& forall|i: int, j: int|
            0 <= i < j < self.edges.len() ==> !self.edges[i].same_key(self.edges[j])
    }

    /// Whether a vertex with this id is stored.
    pub open spec fn has_vertex(self, id: K) -> bool {
        exists|i: int| 0 <= i < self.vertices.len() && (#[trigger] self.vertices[i]).id == id
    }

    /// Whether an edge with the identity of `e` is stored.
    pub open spec fn has_edge(self, e: EdgeView<K>) -> bool {
        exists|i: int| 0 <= i < self.edges.len() && (#[trigger] self.edges[i]).same_key(e)
    }

    /// Storing a vertex: refused when its id is taken, appended otherwise.
    pub open spec fn create_vertex(self, v: VertexView<K>) -> Option<Self> {
        if self.has_vertex(v.id) {
            None
        } else {
            Some(GraphState { vertices: self.vertices.push(v), edges: self.edges })
        }
    }

    /// Storing an edge: a stored edge of the same identity is replaced
    /// where it stands, with the new weight and the later of the two
    /// instants; otherwise the edge is appended.
    pub open spec fn create_edge(self, e: EdgeView<K>) -> Self {
        if self.has_edge(e) {
            GraphState {
                vertices: self.vertices,
                edges: self.edges.map_values(
                    |x: EdgeView<K>|
                        if x.same_key(e) {
                            e.replacing(x)
                        } else {
                            x
                        },
                ),
            }
        } else {
            GraphState { vertices: self.vertices, edges: self.edges.push(e) }
        }
    }

    /// The stored vertices that `p` selects, in stored order.
    pub open spec fn get_vertices(self, p: spec_fn(VertexView<K>) -> bool) -> Seq<VertexView<K>> {
        self.vertices.filter(p)
    }

    /// The stored edges that `p` selects, in stored order.
    pub open spec fn get_edges(self, p: spec_fn(EdgeView<K>) -> bool) -> Seq<EdgeView<K>> {
        self.edges.filter(p)
    }

    /// Whether `id` is the id of a stored vertex that `p` selects.
    pub open spec fn selects_id(self, p: spec_fn(VertexView<K>) -> bool, id: K) -> bool {
        exists|i: int|
            0 <= i < self.vertices.len() && p(#[trigger] self.vertices[i]) && self.vertices[i].id
                == id
    }

    /// Whether the edge `e` starts or ends at a stored vertex that `p`
    /// selects.
    pub open spec fn touches(self, p: spec_fn(VertexView<K>) -> bool, e: EdgeView<K>) -> bool {
        self.selects_id(p, e.outbound_id) || self.selects_id(p, e.inbound_id)
    }

    /// Deleting the vertices that `p` selects, together with every edge
    /// that starts or ends at one of them.
    pub open spec fn delete_vertices(self, p: spec_fn(VertexView<K>) -> bool) -> Self {
        GraphState {
            vertices: self.vertices.filter(|v: VertexView<K>| !p(v)),
            edges: self.edges.filter(|e: EdgeView<K>| !self.touches(p, e)),
        }
    }

    /// Deleting the edges that `p` selects.
    pub open spec fn delete_edges(self, p: spec_fn(EdgeView<K>) -> bool) -> Self {
        GraphState {
            vertices: self.vertices,
            edges: self.edges.filter(|e: EdgeView<K>| !p(e)),
        }
    }
}

/// Every item that a filter keeps stands in the filtered sequence.
pub proof fn lemma_filter_source<A>(s: Seq<A>, p: spec_fn(A) -> bool, i: int) -> (r: int)
    requires
        0 <= i < s.filter(p).len(),
    ensures
        0 <= r < s.len(),
        s[r] == s.filter(p)[i],
        p(s[r]),
    decreases s.len(),
{
    reveal(Seq::filter);
    let d = s.drop_last();
    if p(s.last()) && i == d.filter(p).len() {
        s.len() - 1
    } else {
        lemma_filter_source(d, p, i)
    }
}

/// A filter keeps the order of what it keeps.
pub proof fn lemma_filter_order<A>(s: Seq<A>, p: spec_fn(A) -> bool, i: int, j: int) -> (r: (
    int,
    int,
))
    requires
        0 <= i < j < s.filter(p).len(),
    ensures
        0 <= r.0 < r.1 < s.len(),
        s[r.0] == s.filter(p)[i],
        s[r.1] == s.filter(p)[j],
    decreases s.len(),
{
    reveal(Seq::filter);
    let d = s.drop_last();
    if p(s.last()) && j == d.filter(p).len() {
        let a = lemma_filter_source(d, p, i);
        (a, s.len() - 1)
    } else {
        lemma_filter_order(d, p, i, j)
    }
}

/// A filter that keeps nothing of what is there gives the empty sequence.
pub proof fn lemma_filter_none<A>(s: Seq<A>, p: spec_fn(A) -> bool)
    requires
        forall|i: int| 0 <= i < s.len() ==> !p(#[trigger] s[i]),
    ensures
        s.filter(p) == Seq::<A>::empty(),
{
    if s.filter(p).len() > 0 {
        let r = lemma_filter_source(s, p, 0);
    }
    assert(s.filter(p) =~= Seq::<A>::empty());
}

/// Storing a vertex keeps the state well formed.
pub proof fn lemma_create_vertex_wf<K>(s: GraphState<K>, v: VertexView<K>)
    requires
        s.wf(),
        !s.has_vertex(v.id),
    ensures
        s.create_vertex(v).unwrap().wf(),
{
    let t = s.create_vertex(v).unwrap();
    assert forall|i: int, j: int| 0 <= i < j < t.vertices.len() implies t.vertices[i].id
        != t.vertices[j].id by {
        if j == s.vertices.len() {
            assert(s.vertices[i].id != v.id);
        }
    }
}

/// Storing an edge keeps the state well formed.
pub proof fn lemma_create_edge_wf<K>(s: GraphState<K>, e: EdgeView<K>)
    requires
        s.wf(),
    ensures
        s.create_edge(e).wf(),
        s.create_edge(e).has_edge(e),
{
    let t = s.create_edge(e);
    if s.has_edge(e) {
        let k = choose|k: int| 0 <= k < s.edges.len() && (#[trigger] s.edges[k]).same_key(e);
        assert(t.edges[k].same_key(e));
        assert forall|i: int, j: int| 0 <= i < j < t.edges.len() implies !t.edges[i].same_key(
            t.edges[j],
        ) by {
            assert(!s.edges[i].same_key(s.edges[j]));
        }
    } else {
        assert(t.edges[s.edges.len() as int].same_key(e));
        assert forall|i: int, j: int| 0 <= i < j < t.edges.len() implies !t.edges[i].same_key(
            t.edges[j],
        ) by {
            if j == s.edges.len() {
                assert(!s.edges[i].same_key(e));
            } else {
                assert(!s.edges[i].same_key(s.edges[j]));
            }
        }
    }
}

/// Deleting vertices keeps the state well formed.
pub proof fn lemma_delete_vertices_wf<K>(s: GraphState<K>, p: spec_fn(VertexView<K>) -> bool)
    requires
        s.wf(),
    ensures
        s.delete_vertices(p).wf(),
{
    let t = s.delete_vertices(p);
    let keep_v = |v: VertexView<K>| !p(v);
    let keep_e = |e: EdgeView<K>| !s.touches(p, e);
    assert forall|i: int, j: int| 0 <= i < j < t.vertices.len() implies t.vertices[i].id
        != t.vertices[j].id by {
        let r = lemma_filter_order(s.vertices, keep_v, i, j);
        assert(s.vertices[r.0].id != s.vertices[r.1].id);
    }
    assert forall|i: int, j: int| 0 <= i < j < t.edges.len() implies !t.edges[i].same_key(
        t.edges[j],
    ) by {
        let r = lemma_filter_order(s.edges, keep_e, i, j);
        assert(!s.edges[r.0].same_key(s.edges[r.1]));
    }
}

/// Deleting edges keeps the state well formed.
pub proof fn lemma_delete_edges_wf<K>(s: GraphState<K>, p: spec_fn(EdgeView<K>) -> bool)
    requires
        s.wf(),
    ensures
        s.delete_edges(p).wf(),
{
    let t = s.delete_edges(p);
    let keep_e = |e: EdgeView<K>| !p(e);
    assert forall|i: int, j: int| 0 <= i < j < t.edges.len() implies !t.edges[i].same_key(
        t.edges[j],
    ) by {
        let r = lemma_filter_order(s.edges, keep_e, i, j);
        assert(!s.edges[r.0].same_key(s.edges[r.1]));
    }
}

/// The instant of an edge never goes back: where an edge replaces a stored
/// one, what is stored afterwards has the new weight and an instant that
/// is before neither the stored one nor the new one.
pub proof fn law_instants_never_decrease<K>(s: GraphState<K>, e: EdgeView<K>, i: int)
    requires
        s.wf(),
        0 <= i < s.edges.len(),
        s.edges[i].same_key(e),
    ensures
        s.create_edge(e).edges.len() == s.edges.len(),
        s.create_edge(e).edges[i].same_key(e),
        s.create_edge(e).edges[i].weight == e.weight,
        s.create_edge(e).edges[i].update_datetime.spec_not_before(s.edges[i].update_datetime),
        s.create_edge(e).edges[i].update_datetime.spec_not_before(e.update_datetime),
        s.create_edge(e).edges[i].update_datetime == e.update_datetime || s.create_edge(
            e,
        ).edges[i].update_datetime == s.edges[i].update_datetime,
{
}

/// Storing an edge twice is storing it once: after two edges of one
/// identity are stored in turn, the second no earlier than the first nor
/// than what was stored, the state is the one that storing the second
/// alone gives. It holds that identity exactly once, with the second
/// edge's weight and instant, and the second store adds no edge.
pub proof fn law_upsert_once<K>(s: GraphState<K>, first: EdgeView<K>, second: EdgeView<K>)
    requires
        s.wf(),
        first.same_key(second),
        second.update_datetime.spec_not_before(first.update_datetime),
        forall|i: int|
            0 <= i < s.edges.len() && (#[trigger] s.edges[i]).same_key(second)
                ==> second.update_datetime.spec_not_before(s.edges[i].update_datetime),
    ensures
        s.create_edge(first).create_edge(second) == s.create_edge(second),
        s.create_edge(first).create_edge(second).wf(),
        s.create_edge(first).create_edge(second).edges.len() == s.create_edge(first).edges.len(),
        s.create_edge(first).create_edge(second).get_edges(|x: EdgeView<K>| x.same_key(second))
            == seq![second],
{
    let a = s.create_edge(first);
    let b = a.create_edge(second);
    let c = s.create_edge(second);
    lemma_create_edge_wf(s, first);
    lemma_create_edge_wf(a, second);
    assert(a.has_edge(second)) by {
        let k = choose|k: int| 0 <= k < a.edges.len() && (#[trigger] a.edges[k]).same_key(first);
        assert(a.edges[k].same_key(second));
    }
    if s.has_edge(first) {
        let k = choose|k: int| 0 <= k < s.edges.len() && (#[trigger] s.edges[k]).same_key(first);
        assert(s.edges[k].same_key(second));
        assert forall|i: int| 0 <= i < s.edges.len() implies b.edges[i] == c.edges[i] by {
            if s.edges[i].same_key(first) {
                assert(s.edges[i].same_key(second));
                assert(a.edges[i] == first.replacing(s.edges[i]));
                assert(b.edges[i] == second.replacing(a.edges[i]));
            } else {
                assert(!s.edges[i].same_key(second));
            }
        }
        assert(b.edges =~= c.edges);
        assert(b.edges[k] == second);
    } else {
        assert(!s.has_edge(second)) by {
            if s.has_edge(second) {
                let k = choose|k: int|
                    0 <= k < s.edges.len() && (#[trigger] s.edges[k]).same_key(second);
                assert(s.edges[k].same_key(first));
            }
        }
        assert forall|i: int| 0 <= i < s.edges.len() implies b.edges[i] == s.edges[i] by {
            assert(!s.edges[i].same_key(first));
        }
        assert(b.edges[s.edges.len() as int] == second);
        assert(b.edges =~= c.edges);
    }
    lemma_stored_once(b, second);
}

/// In a well-formed state, asking for the identity of a stored edge gives
/// that edge and no other.
pub proof fn lemma_stored_once<K>(s: GraphState<K>, e: EdgeView<K>)
    requires
        s.wf(),
        exists|i: int| 0 <= i < s.edges.len() && #[trigger] s.edges[i] == e,
    ensures
        s.get_edges(|x: EdgeView<K>| x.same_key(e)) == seq![e],
{
    let p = |x: EdgeView<K>| x.same_key(e);
    let f = s.edges.filter(p);
    let k = choose|k: int| 0 <= k < s.edges.len() && #[trigger] s.edges[k] == e;
    s.edges.lemma_filter_contains(p, k);
    let w = choose|w: int| 0 <= w < f.len() && f[w] == e;
    if f.len() > 1 {
        let r = lemma_filter_order(s.edges, p, 0, 1);
        assert(s.edges[r.0].same_key(s.edges[r.1]));
    }
    assert(f =~= seq![e]);
}

/// Deleting a vertex takes its edges with it: once the vertices that `p`
/// selects are deleted, a stored vertex that `p` selected is gone, no
/// stored edge starts or ends at it, and asking for the edges that do
/// gives nothing.
pub proof fn law_delete_cascades<K>(s: GraphState<K>, p: spec_fn(VertexView<K>) -> bool, id: K)
    requires
        s.wf(),
        s.selects_id(p, id),
    ensures
        s.delete_vertices(p).wf(),
        !s.delete_vertices(p).has_vertex(id),
        forall|i: int|
            0 <= i < s.delete_vertices(p).edges.len() ==> !references(
                #[trigger] s.delete_vertices(p).edges[i],
                id,
            ),
        s.delete_vertices(p).get_edges(|e: EdgeView<K>| references(e, id)) == Seq::<
            EdgeView<K>,
        >::empty(),
        s.delete_vertices(p).get_vertices(|v: VertexView<K>| v.id == id) == Seq::<
            VertexView<K>,
        >::empty(),
{
    let t = s.delete_vertices(p);
    let keep_v = |v: VertexView<K>| !p(v);
    let keep_e = |e: EdgeView<K>| !s.touches(p, e);
    lemma_delete_vertices_wf(s, p);
    let k = choose|k: int|
        0 <= k < s.vertices.len() && p(#[trigger] s.vertices[k]) && s.vertices[k].id == id;
    assert forall|i: int| 0 <= i < t.vertices.len() implies (#[trigger] t.vertices[i]).id
        != id by {
        let r = lemma_filter_source(s.vertices, keep_v, i);
        if r != k {
            assert(s.vertices[r].id != s.vertices[k].id);
        }
    }
    assert forall|i: int| 0 <= i < t.edges.len() implies !references(#[trigger] t.edges[i], id) by {
        let r = lemma_filter_source(s.edges, keep_e, i);
        assert(!s.touches(p, s.edges[r]));
    }
    lemma_filter_none(t.edges, |e: EdgeView<K>| references(e, id));
    lemma_filter_none(t.vertices, |v: VertexView<K>| v.id == id);
}

/// An id is given once: after a vertex is stored, storing another with
/// its id is refused, and asking for that id gives the stored vertex
/// alone.
pub proof fn law_id_taken<K>(s: GraphState<K>, v: VertexView<K>, w: VertexView<K>)
    requires
        s.wf(),
        !s.has_vertex(v.id),
        w.id == v.id,
    ensures
        s.create_vertex(v).unwrap().create_vertex(w) is None,
        s.create_vertex(v).unwrap().get_vertices(|x: VertexView<K>| x.id == v.id) == seq![v],
{
    let t = s.create_vertex(v).unwrap();
    assert(t.vertices[s.vertices.len() as int].id == v.id);
    let p = |x: VertexView<K>| x.id == v.id;
    assert forall|i: int| 0 <= i < s.vertices.len() implies !p(#[trigger] s.vertices[i]) by {}
    lemma_filter_none(s.vertices, p);
    s.vertices.lemma_filter_push(v, p);
    assert(t.vertices.filter(p) =~= seq![v]);
}

} // verus!
