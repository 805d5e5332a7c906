use indradb::errors::OperationalError;
use indradb::memory::MemoryDatastore;
use indradb::models::{Edge, Timestamp, Type, Vertex, Weight};
use indradb::query::{EdgeQuery, VertexQuery};

fn ty(name: &str) -> Type {
    Type::new(name.to_string()).unwrap()
}

fn w(x: f32) -> Weight {
    Weight::new(x.to_bits()).unwrap()
}

fn at(secs: i64) -> Timestamp {
    Timestamp { secs, nanos: 0 }
}

fn edge(from: u64, t: &str, to: u64, weight: f32, secs: i64) -> Edge<u64> {
    Edge::new(from, ty(t), to, w(weight), at(secs))
}

fn ids(found: &[Vertex<u64>]) -> Vec<u64> {
    found.iter().map(|v| v.id).collect()
}

fn keys(found: &[Edge<u64>]) -> Vec<(u64, String, u64)> {
    found.iter().map(|e| (e.outbound_id, e.t.0.clone(), e.inbound_id)).collect()
}

fn sample() -> MemoryDatastore<u64> {
    let mut d = MemoryDatastore::new();
    for (id, t) in [(1, "user"), (2, "user"), (3, "movie"), (4, "movie")] {
        assert!(d.create_vertex(Vertex::new(id, ty(t))).unwrap());
    }
    for (a, t, b, x) in [(1, "likes", 3, 0.8), (1, "likes", 4, -0.5), (2, "likes", 3, 0.1), (2, "follows", 1, 1.0), (3, "sequel", 4, 0.0)] {
        assert!(d.create_edge(edge(a, t, b, x, 10)).unwrap());
    }
    d
}

#[test]
fn new_store_is_empty() {
    let d: MemoryDatastore<u64> = MemoryDatastore::new();
    assert_eq!(d.vertex_count(), 0);
    assert_eq!(d.edge_count(), 0);
    assert!(d.get_vertices(&VertexQuery::All).unwrap().is_empty());
    assert!(d.get_edges(&EdgeQuery::all()).unwrap().is_empty());
}

#[test]
fn like_then_delete_the_liker() {
    let mut d: MemoryDatastore<u64> = MemoryDatastore::new();
    assert!(d.create_vertex(Vertex::new(1, ty("user"))).unwrap());
    assert!(d.create_vertex(Vertex::new(2, ty("user"))).unwrap());
    assert!(d.create_edge(edge(1, "likes", 2, 0.8, 100)).unwrap());
    let found = d.get_edges(&EdgeQuery::outbound(1)).unwrap();
    assert_eq!(found.len(), 1);
    assert_eq!(f32::from_bits(found[0].weight.0), 0.8);
    assert_eq!(keys(&found), vec![(1, "likes".to_string(), 2)]);
    d.delete_vertices(&VertexQuery::Ids(vec![1])).unwrap();
    assert!(d.get_edges(&EdgeQuery::outbound(1)).unwrap().is_empty());
    assert!(d.get_vertices(&VertexQuery::Ids(vec![1])).unwrap().is_empty());
    assert_eq!(ids(&d.get_vertices(&VertexQuery::All).unwrap()), vec![2]);
    assert_eq!(d.edge_count(), 0);
}

#[test]
fn second_vertex_with_a_taken_id_is_refused() {
    let mut d: MemoryDatastore<u64> = MemoryDatastore::new();
    assert!(matches!(d.create_vertex(Vertex::new(5, ty("user"))), Ok(true)));
    assert!(matches!(d.create_vertex(Vertex::new(5, ty("movie"))), Err(OperationalError::UuidTaken)));
    let found = d.get_vertices(&VertexQuery::Ids(vec![5])).unwrap();
    assert_eq!(found.len(), 1);
    assert_eq!(found[0].id, 5);
    assert_eq!(found[0].t, ty("user"));
    assert_eq!(d.vertex_count(), 1);
}

#[test]
fn same_edge_twice_is_one_edge_with_the_later_payload() {
    let mut d = sample();
    let n = d.edge_count();
    assert!(d.create_edge(edge(1, "likes", 3, -0.25, 77)).unwrap());
    assert_eq!(d.edge_count(), n);
    let mut q = EdgeQuery::outbound(1);
    q.t = Some(ty("likes"));
    q.inbound_id = Some(3);
    let found = d.get_edges(&q).unwrap();
    assert_eq!(found.len(), 1);
    assert_eq!(found[0].weight, w(-0.25));
    assert_eq!(found[0].update_datetime, at(77));
    assert_eq!(
        keys(&d.get_edges(&EdgeQuery::all()).unwrap()),
        vec![
            (1, "likes".to_string(), 3),
            (1, "likes".to_string(), 4),
            (2, "likes".to_string(), 3),
            (2, "follows".to_string(), 1),
            (3, "sequel".to_string(), 4),
        ]
    );
}

#[test]
fn edges_of_different_types_between_two_vertices_are_distinct() {
    let mut d = sample();
    let n = d.edge_count();
    assert!(d.create_edge(edge(1, "owns", 3, 0.5, 1)).unwrap());
    assert!(d.create_edge(edge(3, "likes", 1, 0.5, 1)).unwrap());
    assert_eq!(d.edge_count(), n + 2);
}

#[test]
fn deleting_a_vertex_takes_edges_on_both_sides() {
    let mut d = sample();
    d.delete_vertices(&VertexQuery::Ids(vec![3])).unwrap();
    assert_eq!(ids(&d.get_vertices(&VertexQuery::All).unwrap()), vec![1, 2, 4]);
    assert!(d.get_edges(&EdgeQuery::outbound(3)).unwrap().is_empty());
    assert!(d.get_edges(&EdgeQuery::inbound(3)).unwrap().is_empty());
    assert_eq!(
        keys(&d.get_edges(&EdgeQuery::all()).unwrap()),
        vec![(1, "likes".to_string(), 4), (2, "follows".to_string(), 1)]
    );
}

#[test]
fn deleting_by_type_cascades_too() {
    let mut d = sample();
    d.delete_vertices(&VertexQuery::OfType(ty("movie"))).unwrap();
    assert_eq!(ids(&d.get_vertices(&VertexQuery::All).unwrap()), vec![1, 2]);
    assert_eq!(keys(&d.get_edges(&EdgeQuery::all()).unwrap()), vec![(2, "follows".to_string(), 1)]);
}

#[test]
fn deleting_an_unknown_id_changes_nothing() {
    let mut d = sample();
    d.delete_vertices(&VertexQuery::Ids(vec![99])).unwrap();
    assert_eq!(d.vertex_count(), 4);
    assert_eq!(d.edge_count(), 5);
    d.delete_vertices(&VertexQuery::Ids(vec![])).unwrap();
    assert_eq!(d.vertex_count(), 4);
    assert_eq!(d.edge_count(), 5);
}

#[test]
fn deleting_everything_empties_the_store() {
    let mut d = sample();
    d.delete_vertices(&VertexQuery::All).unwrap();
    assert_eq!(d.vertex_count(), 0);
    assert_eq!(d.edge_count(), 0);
}

#[test]
fn vertices_by_ids_and_by_type() {
    let d = sample();
    assert_eq!(ids(&d.get_vertices(&VertexQuery::Ids(vec![4, 1, 9, 1])).unwrap()), vec![1, 4]);
    assert_eq!(ids(&d.get_vertices(&VertexQuery::OfType(ty("movie"))).unwrap()), vec![3, 4]);
    assert!(d.get_vertices(&VertexQuery::OfType(ty("book"))).unwrap().is_empty());
}

#[test]
fn edges_by_each_field() {
    let d = sample();
    assert_eq!(
        keys(&d.get_edges(&EdgeQuery::inbound(3)).unwrap()),
        vec![(1, "likes".to_string(), 3), (2, "likes".to_string(), 3)]
    );
    let mut q = EdgeQuery::all();
    q.t = Some(ty("follows"));
    assert_eq!(keys(&d.get_edges(&q).unwrap()), vec![(2, "follows".to_string(), 1)]);
    let mut q = EdgeQuery::outbound(2);
    q.inbound_id = Some(3);
    assert_eq!(keys(&d.get_edges(&q).unwrap()), vec![(2, "likes".to_string(), 3)]);
}

#[test]
fn edges_by_weight_range() {
    let d = sample();
    let mut q = EdgeQuery::all();
    q.weight_range = Some((w(0.0), w(0.8)));
    assert_eq!(
        keys(&d.get_edges(&q).unwrap()),
        vec![(1, "likes".to_string(), 3), (2, "likes".to_string(), 3), (3, "sequel".to_string(), 4)]
    );
    q.weight_range = Some((w(-1.0), w(-0.0)));
    assert_eq!(
        keys(&d.get_edges(&q).unwrap()),
        vec![(1, "likes".to_string(), 4), (3, "sequel".to_string(), 4)]
    );
    q.weight_range = Some((w(0.5), w(0.2)));
    assert!(d.get_edges(&q).unwrap().is_empty());
}

#[test]
fn delete_edges_by_query() {
    let mut d = sample();
    let mut q = EdgeQuery::all();
    q.t = Some(ty("likes"));
    d.delete_edges(&q).unwrap();
    assert_eq!(
        keys(&d.get_edges(&EdgeQuery::all()).unwrap()),
        vec![(2, "follows".to_string(), 1), (3, "sequel".to_string(), 4)]
    );
    assert_eq!(d.vertex_count(), 4);
}

#[test]
fn returned_copies_are_the_callers_own() {
    let d = sample();
    let mut found = d.get_vertices(&VertexQuery::Ids(vec![1])).unwrap();
    found[0].t = ty("changed");
    found[0].id = 42;
    let again = d.get_vertices(&VertexQuery::Ids(vec![1])).unwrap();
    assert_eq!(again[0].t, ty("user"));
    assert!(d.get_vertices(&VertexQuery::Ids(vec![42])).unwrap().is_empty());
}

#[test]
fn textual_ids_work_alike() {
    let mut d: MemoryDatastore<String> = MemoryDatastore::new();
    assert!(d.create_vertex(Vertex::new("ann".to_string(), ty("user"))).unwrap());
    assert!(d.create_vertex(Vertex::new("bob".to_string(), ty("user"))).unwrap());
    assert!(matches!(
        d.create_vertex(Vertex::new("ann".to_string(), ty("user"))),
        Err(OperationalError::UuidTaken)
    ));
    assert!(d.create_edge(Edge::new("ann".to_string(), ty("likes"), "bob".to_string(), w(0.8), at(1))).unwrap());
    assert_eq!(d.get_edges(&EdgeQuery::inbound("bob".to_string())).unwrap().len(), 1);
    d.delete_vertices(&VertexQuery::Ids(vec!["bob".to_string()])).unwrap();
    assert_eq!(d.edge_count(), 0);
    assert_eq!(d.vertex_count(), 1);
}

#[test]
fn an_earlier_edge_takes_the_weight_and_keeps_the_later_instant() {
    let mut d = sample();
    assert!(d.create_edge(edge(1, "likes", 3, 0.25, 3)).unwrap());
    let mut q = EdgeQuery::outbound(1);
    q.inbound_id = Some(3);
    let found = d.get_edges(&q).unwrap();
    assert_eq!(found.len(), 1);
    assert_eq!(found[0].weight, w(0.25));
    assert_eq!(found[0].update_datetime, at(10));
    assert!(d.create_edge(edge(1, "likes", 3, 0.5, 10)).unwrap());
    let found = d.get_edges(&q).unwrap();
    assert_eq!(found[0].weight, w(0.5));
    assert_eq!(found[0].update_datetime, at(10));
    assert!(d.create_edge(Edge::new(1, ty("likes"), 3, w(0.75), Timestamp { secs: 10, nanos: 1 })).unwrap());
    let found = d.get_edges(&q).unwrap();
    assert_eq!(found[0].weight, w(0.75));
    assert_eq!(found[0].update_datetime, Timestamp { secs: 10, nanos: 1 });
    assert_eq!(d.edge_count(), 5);
}

#[test]
fn instants_are_ordered_by_seconds_then_nanoseconds() {
    let a = Timestamp { secs: -1, nanos: 999_999_999 };
    let b = Timestamp { secs: 0, nanos: 0 };
    let c = Timestamp { secs: 0, nanos: 1 };
    assert!(a.not_before(&a));
    assert!(b.not_before(&a));
    assert!(!a.not_before(&b));
    assert!(c.not_before(&b));
    assert!(!b.not_before(&c));
    assert_eq!(a.later(b), b);
    assert_eq!(b.later(a), b);
    assert_eq!(b.later(c), c);
    assert_eq!(c.later(c), c);
}
