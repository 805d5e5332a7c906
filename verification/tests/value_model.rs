use indradb::errors::{ErrorKind, OperationalError, ValidationError};
use indradb::models::{Edge, Id, Timestamp, Type, Vertex, Weight};

fn ty(name: &str) -> Type {
    Type::new(name.to_string()).unwrap()
}

fn w(x: f32) -> Weight {
    Weight::new(x.to_bits()).unwrap()
}

#[test]
fn type_accepts_allowed_names() {
    for name in ["user", "A", "0", "-", "_", "likes-a_lot-42", "Zz09-_"] {
        let t = Type::new(name.to_string()).unwrap();
        assert_eq!(t.0, name);
        assert_eq!(t.as_str(), name);
    }
}

#[test]
fn type_refuses_empty_name() {
    assert_eq!(Type::new(String::new()), Err(ValidationError::InvalidValue));
}

#[test]
fn type_refuses_foreign_characters() {
    for name in ["two words", "a.b", "a/b", "user\n", "\nuser", "caf\u{e9}", "a+b", "[", "^", "$", "a\u{0}"] {
        assert_eq!(Type::new(name.to_string()), Err(ValidationError::InvalidValue), "{:?}", name);
    }
}

#[test]
fn type_refuses_neighbours_of_the_allowed_ranges() {
    for c in ['/', ':', '@', '[', '`', '{', ',', '.', '^'] {
        assert_eq!(Type::new(c.to_string()), Err(ValidationError::InvalidValue), "{:?}", c);
    }
    for c in ['0', '9', 'A', 'Z', 'a', 'z'] {
        assert!(Type::new(c.to_string()).is_ok(), "{:?}", c);
    }
}

#[test]
fn type_length_bound_is_255() {
    let longest = "a".repeat(255);
    assert_eq!(Type::new(longest.clone()).unwrap().0, longest);
    assert_eq!(Type::new("a".repeat(256)), Err(ValidationError::ValueTooLong));
    assert_eq!(Type::new("a".repeat(1000)), Err(ValidationError::ValueTooLong));
}

#[test]
fn type_length_is_tested_before_characters() {
    assert_eq!(Type::new(" ".repeat(256)), Err(ValidationError::ValueTooLong));
    assert_eq!(Type::new(" ".repeat(255)), Err(ValidationError::InvalidValue));
}

#[test]
fn type_length_counts_characters() {
    assert_eq!(Type::new("\u{e9}".repeat(200)), Err(ValidationError::InvalidValue));
    assert_eq!(Type::new("\u{e9}".repeat(256)), Err(ValidationError::ValueTooLong));
}

#[test]
fn type_from_str_agrees_with_new() {
    assert_eq!(Type::from_str("user").unwrap(), ty("user"));
    assert_eq!(Type::from_str("no way"), Err(ValidationError::InvalidValue));
    assert_eq!(Type::from_str(&"x".repeat(256)), Err(ValidationError::ValueTooLong));
}

#[test]
fn type_same_and_duplicate() {
    let a = ty("user");
    assert!(a.same(&a.duplicate()));
    assert!(!a.same(&ty("User")));
    assert_eq!(a.duplicate(), a);
}

#[test]
fn weight_accepts_the_closed_interval() {
    for x in [0.0f32, -0.0, 0.8, -0.8, 1.0, -1.0, 0.999_999_9, f32::MIN_POSITIVE, 1e-45] {
        let got = Weight::new(x.to_bits()).unwrap();
        assert_eq!(got.bits(), x.to_bits());
        assert_eq!(f32::from_bits(got.0), x);
    }
}

#[test]
fn weight_refuses_what_lies_outside() {
    for x in [1.000_000_1f32, -1.000_000_1, 1.5, -1.5, 2.0, f32::MAX, f32::MIN, f32::INFINITY, f32::NEG_INFINITY, f32::NAN, -f32::NAN] {
        assert_eq!(Weight::new(x.to_bits()), Err(ValidationError::InvalidValue), "{}", x);
    }
}

#[test]
fn weight_matches_the_float_comparison_on_every_exponent() {
    let mut bits: u32 = 0;
    loop {
        let x = f32::from_bits(bits);
        let expected = -1.0 <= x && x <= 1.0;
        assert_eq!(Weight::new(bits).is_ok(), expected, "{:#x}", bits);
        match bits.checked_add(0x0003_fffd) {
            Some(next) => bits = next,
            None => break,
        }
    }
}

#[test]
fn weight_rank_orders_as_the_numbers_do() {
    let xs = [-1.0f32, -0.5, -1e-30, 0.0, 1e-30, 0.25, 0.8, 1.0];
    for a in xs {
        for b in xs {
            assert_eq!(w(a).rank() <= w(b).rank(), a <= b, "{} {}", a, b);
        }
    }
    assert_eq!(w(0.0).rank(), 0);
    assert_eq!(w(-0.0).rank(), 0);
    assert_eq!(w(1.0).rank(), 0x3f80_0000);
    assert_eq!(w(-1.0).rank(), -0x3f80_0000);
}

#[test]
fn vertex_new_keeps_its_arguments() {
    let v = Vertex::new(7u64, ty("user"));
    assert_eq!(v.id, 7);
    assert_eq!(v.t, ty("user"));
}

#[test]
fn vertex_equality_is_by_id() {
    let a = Vertex::new(1u64, ty("user"));
    let b = Vertex::new(1u64, ty("movie"));
    let c = Vertex::new(2u64, ty("user"));
    assert!(a == b);
    assert!(a != c);
    assert!(a.same(&b));
    assert!(!a.same(&c));
    let d = a.duplicate();
    assert_eq!(d.id, 1);
    assert_eq!(d.t, ty("user"));
}

#[test]
fn edge_new_keeps_its_arguments() {
    let at = Timestamp { secs: 1_431_648_000, nanos: 123_456_789 };
    let e = Edge::new(1u64, ty("likes"), 2u64, w(0.8), at);
    assert_eq!(e.outbound_id, 1);
    assert_eq!(e.t, ty("likes"));
    assert_eq!(e.inbound_id, 2);
    assert_eq!(e.weight, w(0.8));
    assert_eq!(e.update_datetime, at);
    let d = e.duplicate();
    assert_eq!(d.outbound_id, 1);
    assert_eq!(d.t, ty("likes"));
    assert_eq!(d.inbound_id, 2);
    assert_eq!(d.weight, w(0.8));
    assert_eq!(d.update_datetime, at);
}

#[test]
fn edge_equality_is_by_endpoints_and_type() {
    let t0 = Timestamp { secs: 0, nanos: 0 };
    let t1 = Timestamp { secs: 5, nanos: 1 };
    let a = Edge::new(1u64, ty("likes"), 2u64, w(0.8), t0);
    assert!(a == Edge::new(1u64, ty("likes"), 2u64, w(-0.3), t1));
    assert!(a != Edge::new(1u64, ty("hates"), 2u64, w(0.8), t0));
    assert!(a != Edge::new(2u64, ty("likes"), 1u64, w(0.8), t0));
    assert!(a != Edge::new(1u64, ty("likes"), 3u64, w(0.8), t0));
    assert!(a != Edge::new(3u64, ty("likes"), 2u64, w(0.8), t0));
}

#[test]
fn edge_with_current_datetime_is_stamped_now() {
    let before = chrono::Utc::now();
    let e = Edge::new_with_current_datetime("a".to_string(), ty("likes"), "b".to_string(), w(0.5));
    let after = chrono::Utc::now();
    assert_eq!(e.outbound_id, "a");
    assert_eq!(e.inbound_id, "b");
    assert_eq!(e.t, ty("likes"));
    assert_eq!(e.weight, w(0.5));
    let stamp = (e.update_datetime.secs, e.update_datetime.nanos);
    assert!((before.timestamp(), before.timestamp_subsec_nanos()) <= stamp);
    assert!(stamp <= (after.timestamp(), after.timestamp_subsec_nanos()));
}

#[test]
fn ids_of_three_kinds() {
    assert!(5u64.same(&5u64));
    assert!(!5u64.same(&6u64));
    assert_eq!(5u64.duplicate(), 5);
    let big: u128 = 1 << 100;
    assert!(big.same(&big.duplicate()));
    assert!(!big.same(&0));
    let s = "abc".to_string();
    assert!(s.same(&s.duplicate()));
    assert!(!s.same(&"abd".to_string()));
}

#[test]
fn validation_messages() {
    assert_eq!(ValidationError::InvalidValue.message(), "invalid value");
    assert_eq!(ValidationError::ValueTooLong.message(), "value too long");
    assert_eq!(ValidationError::CannotIncrementUuid.message(), "could not increment the UUID");
}

#[test]
fn operational_error_kinds() {
    let broken = serde_json::from_str::<serde_json::Value>("{").unwrap_err();
    let text = broken.to_string();
    let e = OperationalError::from(broken);
    assert_eq!(e.kind(), ErrorKind::Serialization);
    match e {
        OperationalError::Json { inner } => assert_eq!(inner.to_string(), text),
        _ => panic!("a serialization failure was expected"),
    }
    let e = OperationalError::from_engine("disk full".to_string());
    assert_eq!(e.kind(), ErrorKind::BackendStorage);
    match e {
        OperationalError::Rocksdb { message } => assert_eq!(message, "disk full"),
        _ => panic!("an engine failure was expected"),
    }
    assert_eq!(OperationalError::UuidTaken.kind(), ErrorKind::UuidTaken);
}

#[test]
fn edge_survives_a_json_round_trip() {
    let at = Timestamp { secs: -62_135_596_800, nanos: 999_999_999 };
    for x in [0.8f32, -1.0, 1e-45, 0.1, -0.333_333_34] {
        let e = Edge::new(u64::MAX, ty("likes"), 0u64, w(x), at);
        let mut fields = serde_json::Map::new();
        fields.insert("outbound_id".to_string(), serde_json::Value::from(e.outbound_id));
        fields.insert("type".to_string(), serde_json::Value::from(e.t.as_str()));
        fields.insert("inbound_id".to_string(), serde_json::Value::from(e.inbound_id));
        fields.insert("weight".to_string(), serde_json::Value::from(f32::from_bits(e.weight.bits())));
        fields.insert("secs".to_string(), serde_json::Value::from(e.update_datetime.secs));
        fields.insert("nanos".to_string(), serde_json::Value::from(e.update_datetime.nanos));
        let text = serde_json::to_string(&serde_json::Value::Object(fields)).unwrap();
        let back: serde_json::Value = serde_json::from_str(&text).unwrap();
        let weight = back["weight"].as_f64().unwrap() as f32;
        let again = Edge::new(
            back["outbound_id"].as_u64().unwrap(),
            Type::new(back["type"].as_str().unwrap().to_string()).unwrap(),
            back["inbound_id"].as_u64().unwrap(),
            Weight::new(weight.to_bits()).unwrap(),
            Timestamp { secs: back["secs"].as_i64().unwrap(), nanos: back["nanos"].as_u64().unwrap() as u32 },
        );
        assert!(again == e);
        assert_eq!(again.weight, e.weight);
        assert_eq!(again.update_datetime, e.update_datetime);
        assert_eq!(again.t, e.t);
    }
}
