use serde_bigquery::types::Type;

#[test]
fn test_matches_any() {
    assert!(Type::Any.matches(&Type::Bool));
    assert!(Type::Any.matches(&Type::Number));
    assert!(Type::Any.matches(&Type::String));
    assert!(Type::Any.matches(&Type::Bytes));
    assert!(Type::Any.matches(&Type::Struct(vec![])));
    assert!(Type::Any.matches(&Type::Array(Box::new(Type::Any))));

    assert!(Type::Bool.matches(&Type::Any));
    assert!(Type::Number.matches(&Type::Any));
    assert!(Type::String.matches(&Type::Any));
    assert!(Type::Bytes.matches(&Type::Any));
    assert!(Type::Struct(vec![]).matches(&Type::Any));
    assert!(Type::Array(Box::new(Type::Any)).matches(&Type::Any));
}

#[test]
fn test_matches_same() {
    for t in [
        Type::Bool,
        Type::Number,
        Type::String,
        Type::Bytes,
        Type::Struct(vec![]),
        Type::Array(Box::new(Type::Bool)),
    ] {
        assert!(t.matches(&t));
    }
}

fn named(field_type: Type, name: &str) -> serde_bigquery::types::Field {
    serde_bigquery::types::Field::with_type_and_name(field_type, Some(name.to_string()))
}

fn unnamed(field_type: Type) -> serde_bigquery::types::Field {
    serde_bigquery::types::Field::with_type_and_name(field_type, None)
}

#[test]
fn primitives_match_their_own_kind_only() {
    let all = [Type::Bool, Type::Number, Type::String, Type::Bytes];
    for (i, a) in all.iter().enumerate() {
        for (j, b) in all.iter().enumerate() {
            assert_eq!(a.matches(b), i == j);
            assert_eq!(a.merge(b).is_some(), i == j);
        }
        assert!(!a.matches(&Type::Struct(vec![])));
        assert!(!a.matches(&Type::any_array()));
    }
}

#[test]
fn structs_match_by_position_not_by_name() {
    let a = Type::Struct(vec![named(Type::Number, "a"), named(Type::Bool, "b")]);
    let b = Type::Struct(vec![named(Type::Number, "x"), unnamed(Type::Any)]);
    let c = Type::Struct(vec![named(Type::Bool, "b"), named(Type::Number, "a")]);
    let d = Type::Struct(vec![named(Type::Number, "a")]);
    assert!(a.matches(&b));
    assert!(b.matches(&a));
    assert!(!a.matches(&c));
    assert!(!a.matches(&d));
    assert!(!d.matches(&a));
}

#[test]
fn arrays_match_by_their_elements() {
    let numbers = Type::Array(Box::new(Type::Number));
    let strings = Type::Array(Box::new(Type::String));
    assert!(numbers.matches(&Type::any_array()));
    assert!(Type::any_array().matches(&strings));
    assert!(!numbers.matches(&strings));
    assert!(!numbers.matches(&Type::Number));
}

#[test]
fn merge_gives_the_more_specific_type() {
    assert_eq!(Type::Any.merge(&Type::Number), Some(Type::Number));
    assert_eq!(Type::Number.merge(&Type::Any), Some(Type::Number));
    assert_eq!(Type::Any.merge(&Type::Any), Some(Type::Any));
    assert_eq!(Type::Bool.merge(&Type::Bool), Some(Type::Bool));
    assert_eq!(Type::Bool.merge(&Type::Number), None);
    assert_eq!(
        Type::any_array().merge(&Type::Array(Box::new(Type::Bytes))),
        Some(Type::Array(Box::new(Type::Bytes)))
    );
    assert_eq!(
        Type::Array(Box::new(Type::Bool)).merge(&Type::Array(Box::new(Type::Bytes))),
        None
    );
    assert_eq!(Type::Struct(vec![]).merge(&Type::Struct(vec![])), Some(Type::Struct(vec![])));
    assert_eq!(Type::Struct(vec![]).merge(&Type::Struct(vec![unnamed(Type::Any)])), None);
}

#[test]
fn merged_fields_prefer_the_first_name() {
    let a = Type::Struct(vec![named(Type::Any, "a"), unnamed(Type::Number), unnamed(Type::Any)]);
    let b = Type::Struct(vec![named(Type::Bool, "x"), named(Type::Any, "y"), unnamed(Type::Any)]);
    assert_eq!(
        a.merge(&b),
        Some(Type::Struct(vec![
            named(Type::Bool, "a"),
            named(Type::Number, "y"),
            unnamed(Type::Any),
        ]))
    );
    assert_eq!(
        b.merge(&a),
        Some(Type::Struct(vec![
            named(Type::Bool, "x"),
            named(Type::Number, "y"),
            unnamed(Type::Any),
        ]))
    );
    assert_eq!(
        named(Type::Any, "a").merge(&named(Type::String, "b")),
        Some(named(Type::String, "a"))
    );
    assert_eq!(named(Type::Bool, "a").merge(&named(Type::String, "a")), None);
}

#[test]
fn merge_succeeds_in_either_order_or_in_neither() {
    let samples = [
        Type::Any,
        Type::Bool,
        Type::Number,
        Type::Struct(vec![]),
        Type::Struct(vec![named(Type::Number, "a")]),
        Type::Struct(vec![unnamed(Type::Any)]),
        Type::any_array(),
        Type::Array(Box::new(Type::Struct(vec![named(Type::Bool, "a")]))),
    ];
    for a in samples.iter() {
        for b in samples.iter() {
            assert_eq!(a.merge(b).is_some(), b.merge(a).is_some());
            assert_eq!(a.merge(b).is_some(), a.matches(b));
            assert_eq!(a.matches(b), b.matches(a));
        }
        assert!(a.matches(a));
        assert!(Type::Any.matches(a));
        assert!(a.matches(&Type::Any));
    }
}

#[test]
fn types_are_shown_in_messages() {
    assert_eq!(Type::Any.to_string(), "?");
    assert_eq!(Type::Bool.to_string(), "BOOL");
    assert_eq!(Type::Number.to_string(), "DOUBLE");
    assert_eq!(Type::String.to_string(), "STRING");
    assert_eq!(Type::Bytes.to_string(), "BYTES");
    assert_eq!(Type::Struct(vec![]).to_string(), "STRUCT<>");
    assert_eq!(Type::any_array().to_string(), "ARRAY<?>");
    assert_eq!(
        Type::Struct(vec![
            named(Type::Number, "a"),
            unnamed(Type::Bool),
            named(Type::Array(Box::new(Type::String)), "c"),
        ])
        .to_string(),
        "STRUCT<`a` DOUBLE, BOOL, `c` ARRAY<STRING>>"
    );
    assert_eq!(named(Type::Bytes, "b").to_string(), "`b` BYTES");
    assert_eq!(unnamed(Type::Bytes).to_string(), "BYTES");
}

#[test]
fn copies_are_equal_to_their_originals() {
    let t = Type::Array(Box::new(Type::Struct(vec![named(Type::Number, "a"), unnamed(Type::Any)])));
    assert_eq!(t.clone(), t);
    assert_eq!(t.duplicate(), t);
    assert!(t.same(&t.clone()));
    assert_ne!(t, Type::any_array());
    assert_ne!(named(Type::Number, "a"), named(Type::Number, "b"));
    assert_ne!(named(Type::Number, "a"), unnamed(Type::Number));
    assert_eq!(named(Type::Number, "a").clone(), named(Type::Number, "a"));
}

#[test]
fn types_are_keys_of_hashed_collections() {
    let mut seen = std::collections::HashSet::new();
    assert!(seen.insert(named(Type::Number, "a")));
    assert!(!seen.insert(named(Type::Number, "a")));
    assert!(seen.insert(named(Type::String, "a")));
    assert!(seen.insert(unnamed(Type::Number)));
    assert_eq!(seen.len(), 3);
}
