use cs_typegen::DefaultValue;
use cs_typegen::DurationCodeType;
use cs_typegen::Literal;
use cs_typegen::MapCodeType;
use cs_typegen::OptionalCodeType;
use cs_typegen::ScalarShape;
use cs_typegen::SequenceCodeType;
use cs_typegen::TimestampCodeType;
use cs_typegen::Type;

fn string_scalar() -> Type {
    Type::Scalar(ScalarShape {
        label: "String".to_string(),
        canonical: "String".to_string(),
        default_expr: "\"\"".to_string(),
    })
}

fn int32_scalar() -> Type {
    Type::Scalar(ScalarShape {
        label: "int".to_string(),
        canonical: "Int32".to_string(),
        default_expr: "0".to_string(),
    })
}

#[test]
fn sequence_of_optional_timestamp() {
    let t = Type::Sequence(Box::new(Type::Optional(Box::new(Type::Timestamp))));
    assert_eq!(t.type_label(), "DateTime?[]");
    assert_eq!(t.canonical_name(), "SequenceOptionalTimestamp");
}

#[test]
fn map_of_string_to_sequence_of_duration() {
    let t = Type::Dictionary(
        Box::new(string_scalar()),
        Box::new(Type::Sequence(Box::new(Type::Duration))),
    );
    assert_eq!(t.type_label(), "Dictionary<String, TimeSpan[]>");
    assert_eq!(t.canonical_name(), "DictionaryStringSequenceDuration");
}

#[test]
fn optional_duration_defers_to_type_default() {
    let opt = OptionalCodeType::new(Type::Duration);
    let out = opt.literal(&Literal::Present(DefaultValue::UseTypeDefault));
    assert_eq!(out.unwrap(), "default(TimeSpan)");
}

#[test]
fn optional_timestamp_defers_to_type_default() {
    let opt = OptionalCodeType::new(Type::Timestamp);
    let out = opt.literal(&Literal::Present(DefaultValue::UseTypeDefault));
    assert_eq!(out.unwrap(), "default(DateTime)");
}

#[test]
fn optional_null_collapse() {
    let opt = OptionalCodeType::new(string_scalar());
    assert_eq!(opt.literal(&Literal::Absent).unwrap(), "null");
    assert_eq!(opt.literal(&Literal::EmptySequence).unwrap(), "null");
    assert_eq!(opt.literal(&Literal::EmptyMap).unwrap(), "null");
}

#[test]
fn optional_string_with_empty_map_degenerates_to_null() {
    let opt = OptionalCodeType::new(string_scalar());
    assert_eq!(opt.literal(&Literal::EmptyMap).unwrap(), "null");
}

#[test]
fn optional_explicit_scalar_literal_passes_through() {
    let opt = OptionalCodeType::new(string_scalar());
    let lit = Literal::Present(DefaultValue::Explicit(Box::new(Literal::Scalar(
        "\"hi\"".to_string(),
    ))));
    assert_eq!(opt.literal(&lit).unwrap(), "\"hi\"");
}

#[test]
fn sequence_literal_shares_the_dispatch_table() {
    let seq = SequenceCodeType::new(Type::Duration);
    assert_eq!(seq.literal(&Literal::Absent).unwrap(), "null");
    assert_eq!(seq.literal(&Literal::EmptySequence).unwrap(), "null");
    assert_eq!(
        seq.literal(&Literal::Present(DefaultValue::UseTypeDefault))
            .unwrap(),
        "default(TimeSpan)"
    );
}

#[test]
fn compound_surface_and_default_renderings() {
    let opt = OptionalCodeType::new(Type::Duration);
    assert_eq!(opt.type_label(), "TimeSpan?");
    assert_eq!(opt.canonical_name(), "OptionalDuration");
    assert_eq!(opt.default_value(), "null");

    let seq = SequenceCodeType::new(Type::Timestamp);
    assert_eq!(seq.type_label(), "DateTime[]");
    assert_eq!(seq.canonical_name(), "SequenceTimestamp");
    assert_eq!(seq.default_value(), "null");

    let map = MapCodeType::new(string_scalar(), Type::Timestamp);
    assert_eq!(map.type_label(), "Dictionary<String, DateTime>");
    assert_eq!(map.canonical_name(), "DictionaryStringTimestamp");
    assert_eq!(map.default_value(), "null");
}

#[test]
fn fixed_identity_renderings() {
    let ts = TimestampCodeType;
    assert_eq!(ts.type_label(), "DateTime");
    assert_eq!(ts.canonical_name(), "Timestamp");
    assert_eq!(ts.default_value(), "default(DateTime)");

    let dur = DurationCodeType;
    assert_eq!(dur.type_label(), "TimeSpan");
    assert_eq!(dur.canonical_name(), "Duration");
    assert_eq!(dur.default_value(), "default(TimeSpan)");
}

#[test]
fn fatal_for_every_literal_kind_on_timestamp() {
    let ts = TimestampCodeType;
    let literals = [
        Literal::Absent,
        Literal::Present(DefaultValue::UseTypeDefault),
        Literal::Present(DefaultValue::Explicit(Box::new(Literal::Absent))),
        Literal::EmptySequence,
        Literal::EmptyMap,
        Literal::Scalar("1".to_string()),
    ];
    for lit in literals {
        let err = ts.literal(&lit).unwrap_err();
        assert_eq!(err.type_label, "DateTime");
    }
}

#[test]
fn fatal_for_every_literal_kind_on_duration() {
    let dur = DurationCodeType;
    let literals = [
        Literal::Absent,
        Literal::Present(DefaultValue::UseTypeDefault),
        Literal::Present(DefaultValue::Explicit(Box::new(Literal::Absent))),
        Literal::EmptySequence,
        Literal::EmptyMap,
        Literal::Scalar("1".to_string()),
    ];
    for lit in literals {
        let err = dur.literal(&lit).unwrap_err();
        assert_eq!(err.type_label, "TimeSpan");
    }
}

#[test]
fn fatal_error_identifies_type_and_literal() {
    let err = Type::Timestamp.literal(&Literal::Absent).unwrap_err();
    assert_eq!(err.type_label, "DateTime");
    assert_eq!(err.literal_kind, "Absent");
    assert_eq!(
        err.message(),
        "no literal rendering for type DateTime (literal kind Absent)"
    );

    let err = Type::Duration.literal(&Literal::EmptyMap).unwrap_err();
    assert_eq!(err.type_label, "TimeSpan");
    assert_eq!(err.literal_kind, "EmptyMap");
}

#[test]
fn explicit_literal_at_timestamp_leaf_is_fatal() {
    // A default for a timestamp-typed position must defer to the type's
    // default; an explicit literal forwarded to the leaf hits the fatal
    // path there and propagates out.
    let opt = OptionalCodeType::new(Type::Timestamp);
    let lit = Literal::Present(DefaultValue::Explicit(Box::new(Literal::Absent)));
    let err = opt.literal(&lit).unwrap_err();
    assert_eq!(err.type_label, "DateTime");
}

#[test]
fn map_asymmetry() {
    let m1 = MapCodeType::new(string_scalar(), Type::Duration);
    let m2 = MapCodeType::new(int32_scalar(), Type::Duration);
    for lit in [
        Literal::Absent,
        Literal::EmptySequence,
        Literal::EmptyMap,
        Literal::Present(DefaultValue::UseTypeDefault),
    ] {
        let lit2 = match &lit {
            Literal::Absent => Literal::Absent,
            Literal::EmptySequence => Literal::EmptySequence,
            Literal::EmptyMap => Literal::EmptyMap,
            _ => Literal::Present(DefaultValue::UseTypeDefault),
        };
        assert_eq!(m1.literal(&lit).unwrap(), m2.literal(&lit2).unwrap());
    }
    assert_ne!(m1.canonical_name(), m2.canonical_name());
    assert_eq!(m1.canonical_name(), "DictionaryStringDuration");
    assert_eq!(m2.canonical_name(), "DictionaryInt32Duration");
}

#[test]
fn canonical_name_is_stable_across_calls() {
    let t = Type::Optional(Box::new(Type::Dictionary(
        Box::new(int32_scalar()),
        Box::new(Type::Sequence(Box::new(Type::Timestamp))),
    )));
    let first = t.canonical_name();
    let second = t.canonical_name();
    assert_eq!(first, second);
    assert_eq!(first, "OptionalDictionaryInt32SequenceTimestamp");
}

#[test]
fn distinct_trees_get_distinct_canonical_names() {
    let trees = [
        Type::Timestamp,
        Type::Duration,
        string_scalar(),
        int32_scalar(),
        Type::Optional(Box::new(Type::Timestamp)),
        Type::Sequence(Box::new(Type::Timestamp)),
        Type::Optional(Box::new(Type::Optional(Box::new(Type::Timestamp)))),
        Type::Dictionary(Box::new(string_scalar()), Box::new(Type::Duration)),
        Type::Dictionary(Box::new(int32_scalar()), Box::new(Type::Duration)),
        Type::Dictionary(Box::new(string_scalar()), Box::new(Type::Timestamp)),
        Type::Sequence(Box::new(Type::Optional(Box::new(Type::Duration)))),
        Type::Optional(Box::new(Type::Sequence(Box::new(Type::Duration)))),
    ];
    let names: Vec<String> = trees.iter().map(|t| t.canonical_name()).collect();
    for i in 0..names.len() {
        for j in 0..names.len() {
            if i != j {
                assert_ne!(names[i], names[j], "trees {i} and {j} collide");
            }
        }
    }
}

#[test]
fn scalar_default_is_forwarded_from_the_leaf() {
    let opt = OptionalCodeType::new(int32_scalar());
    let out = opt.literal(&Literal::Present(DefaultValue::UseTypeDefault));
    assert_eq!(out.unwrap(), "0");
}

#[test]
fn literal_fits_guards_scalar_positions() {
    let scalar = string_scalar();
    assert!(!scalar.literal_fits(&Literal::Absent));
    assert!(scalar.literal_fits(&Literal::Scalar("\"x\"".to_string())));

    // At a compound, the guard follows the dispatch: the empty-collection
    // sentinels collapse before any leaf is reached, but an explicit
    // literal is checked against the leaf it is forwarded to.
    let opt = Type::Optional(Box::new(string_scalar()));
    assert!(opt.literal_fits(&Literal::EmptyMap));
    let forwarded_bad = Literal::Present(DefaultValue::Explicit(Box::new(Literal::Absent)));
    assert!(!opt.literal_fits(&forwarded_bad));
    // The fixed-identity leaves admit the call itself; it is answered
    // with the fatal error.
    assert!(Type::Timestamp.literal_fits(&forwarded_bad));
}

#[test]
fn optional_of_map_literal_uses_value_dispatch() {
    // An optional map: Absent and EmptyMap collapse to null at the
    // optional; an explicit empty-map sentinel forwarded to the map
    // itself also renders null through the shared table.
    let t = Type::Optional(Box::new(Type::Dictionary(
        Box::new(string_scalar()),
        Box::new(Type::Duration),
    )));
    assert_eq!(t.literal(&Literal::Absent).unwrap(), "null");
    let forwarded = Literal::Present(DefaultValue::Explicit(Box::new(Literal::EmptyMap)));
    assert_eq!(t.literal(&forwarded).unwrap(), "null");
}
