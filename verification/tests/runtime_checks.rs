use fromrow_core::compile::derive_from_row;
use fromrow_core::prepass;
use fromrow_core::runtime::{
    Column, ConvCase, ConvRule, Decoder, DefaultRule, FieldValue, Kind, Registry, Row, Value,
};
use fromrow_core::schema::{RawField, RawStructure};
use fromrow_core::types::TypeExpr;

fn ty(name: &str) -> TypeExpr {
    TypeExpr::Path {
        leading_colon: false,
        segments: vec![name.to_string()],
        argument: None,
    }
}

fn ty_opt(inner: TypeExpr) -> TypeExpr {
    TypeExpr::Path {
        leading_colon: false,
        segments: vec!["Option".to_string()],
        argument: Some(Box::new(inner)),
    }
}

fn plain_field(name: &str, t: TypeExpr) -> RawField {
    RawField {
        name: name.to_string(),
        ty: t,
        from: None,
        try_from: None,
        rename: None,
        attrs: vec![],
    }
}

fn structure(fields: Vec<RawField>) -> RawStructure {
    RawStructure {
        name: "Record".to_string(),
        fields,
        constraints: vec![],
    }
}

fn decoder(ty_text: &str, kind: Kind, nullable: bool) -> Decoder {
    Decoder {
        ty: ty_text.to_string(),
        kind,
        nullable,
    }
}

fn default_rule(ty_text: &str, value: Value) -> DefaultRule {
    DefaultRule {
        ty: ty_text.to_string(),
        value,
    }
}

fn column(name: &str, value: Value) -> Column {
    Column {
        name: name.to_string(),
        value,
    }
}

fn scalar_registry() -> Registry {
    Registry {
        decoders: vec![
            decoder("i32", Kind::Int, false),
            decoder("Option<String>", Kind::Text, true),
        ],
        defaults: vec![default_rule("i32", Value::Int(0))],
        conversions: vec![],
    }
}

#[test]
fn row_with_value_and_null_optional() {
    let mapper = derive_from_row(structure(vec![
        plain_field("id", ty("i32")),
        plain_field("name", ty_opt(ty("String"))),
    ]))
    .unwrap();
    let registry = scalar_registry();
    let row = Row {
        columns: vec![column("id", Value::Int(7)), column("name", Value::Null)],
    };
    let instance = mapper.from_row(&registry, &row);
    assert_eq!(instance.fields.len(), 2);
    assert_eq!(instance.fields[0].name, "id".to_string());
    assert_eq!(instance.fields[0].value, FieldValue::Filled(Value::Int(7)));
    assert_eq!(instance.fields[1].name, "name".to_string());
    assert_eq!(instance.fields[1].value, FieldValue::Empty);
}

#[test]
fn missing_column_yields_default_not_error() {
    let mapper = derive_from_row(structure(vec![plain_field("id", ty("i32"))])).unwrap();
    let registry = scalar_registry();
    let row = Row { columns: vec![] };
    let instance = mapper.from_row(&registry, &row);
    assert_eq!(instance.fields[0].value, FieldValue::Filled(Value::Int(0)));
    let fallible = mapper.try_from_row(&registry, &row).unwrap();
    assert_eq!(fallible.fields[0].value, FieldValue::Filled(Value::Int(0)));
}

#[test]
fn malformed_fallible_conversion_still_ok() {
    let zero_uuid = "00000000-0000-0000-0000-000000000000";
    let good_uuid = "6e4a1d3a-0000-0000-0000-000000000001";
    let mut f = plain_field("uuid", ty("Uuid"));
    f.try_from = Some("String".to_string());
    let mapper = derive_from_row(structure(vec![f])).unwrap();
    let registry = Registry {
        decoders: vec![decoder("String", Kind::Text, false)],
        defaults: vec![default_rule("Uuid", Value::Text(zero_uuid.to_string()))],
        conversions: vec![ConvRule {
            target: "Uuid".to_string(),
            source: "String".to_string(),
            fallible: true,
            cases: vec![ConvCase {
                input: Value::Text(good_uuid.to_string()),
                output: Value::Text(good_uuid.to_string()),
            }],
        }],
    };
    let row = Row {
        columns: vec![column("uuid", Value::Text("not-a-uuid".to_string()))],
    };
    let r = mapper.try_from_row(&registry, &row);
    assert!(r.is_ok());
    let instance = r.unwrap();
    assert_eq!(
        instance.fields[0].value,
        FieldValue::Filled(Value::Text(zero_uuid.to_string()))
    );
    // the listed value converts
    let good_row = Row {
        columns: vec![column("uuid", Value::Text(good_uuid.to_string()))],
    };
    let good = mapper.from_row(&registry, &good_row);
    assert_eq!(
        good.fields[0].value,
        FieldValue::Filled(Value::Text(good_uuid.to_string()))
    );
}

#[test]
fn optional_decode_failure_yields_empty() {
    let mapper =
        derive_from_row(structure(vec![plain_field("name", ty_opt(ty("String")))])).unwrap();
    let registry = scalar_registry();
    let row = Row {
        columns: vec![column("name", Value::Int(3))],
    };
    let instance = mapper.from_row(&registry, &row);
    assert_eq!(instance.fields[0].value, FieldValue::Empty);
}

#[test]
fn non_optional_decode_failure_yields_default() {
    let mapper = derive_from_row(structure(vec![plain_field("id", ty("i32"))])).unwrap();
    let registry = scalar_registry();
    let row = Row {
        columns: vec![column("id", Value::Text("seven".to_string()))],
    };
    let instance = mapper.from_row(&registry, &row);
    assert_eq!(instance.fields[0].value, FieldValue::Filled(Value::Int(0)));
}

#[test]
fn unconditional_conversion_maps_listed_values() {
    let mut f = plain_field("id", ty("i32"));
    f.from = Some("i64".to_string());
    let mapper = derive_from_row(structure(vec![f])).unwrap();
    let registry = Registry {
        decoders: vec![decoder("i64", Kind::Int, false)],
        defaults: vec![default_rule("i32", Value::Int(0))],
        conversions: vec![ConvRule {
            target: "i32".to_string(),
            source: "i64".to_string(),
            fallible: false,
            cases: vec![ConvCase {
                input: Value::Int(9),
                output: Value::Int(90),
            }],
        }],
    };
    let listed = Row {
        columns: vec![column("id", Value::Int(9))],
    };
    assert_eq!(
        mapper.from_row(&registry, &listed).fields[0].value,
        FieldValue::Filled(Value::Int(90))
    );
    // an unlisted value passes through unchanged
    let unlisted = Row {
        columns: vec![column("id", Value::Int(4))],
    };
    assert_eq!(
        mapper.from_row(&registry, &unlisted).fields[0].value,
        FieldValue::Filled(Value::Int(4))
    );
}

#[test]
fn satisfies_reports_capability_gaps() {
    let mapper = derive_from_row(structure(vec![plain_field("id", ty("i32"))])).unwrap();
    let empty = Registry {
        decoders: vec![],
        defaults: vec![],
        conversions: vec![],
    };
    assert!(!mapper.satisfies(&empty));
    assert!(mapper.satisfies(&scalar_registry()));
}

#[test]
fn column_lookup_is_case_sensitive() {
    let mapper = derive_from_row(structure(vec![plain_field("id", ty("i32"))])).unwrap();
    let registry = scalar_registry();
    let row = Row {
        columns: vec![column("ID", Value::Int(7))],
    };
    assert_eq!(
        mapper.from_row(&registry, &row).fields[0].value,
        FieldValue::Filled(Value::Int(0))
    );
}

#[test]
fn prepass_wraps_only_non_optional_fields() {
    let s = structure(vec![
        plain_field("a", ty("i32")),
        plain_field("b", ty_opt(ty("bool"))),
    ]);
    let rewritten = prepass::from_row(s, true);
    assert_eq!(rewritten.fields[0].ty, ty_opt(ty("i32")));
    assert_eq!(rewritten.fields[1].ty, ty_opt(ty("bool")));
}

#[test]
fn prepass_twice_equals_once() {
    let build = || {
        structure(vec![
            plain_field("a", ty("i32")),
            plain_field("b", ty_opt(ty("bool"))),
        ])
    };
    let once = prepass::from_row(build(), true);
    let twice = prepass::from_row(prepass::from_row(build(), true), true);
    assert_eq!(once, twice);
}

#[test]
fn prepass_disabled_is_identity() {
    let build = || structure(vec![plain_field("a", ty("i32"))]);
    let untouched = prepass::from_row(build(), false);
    assert_eq!(untouched, build());
}
