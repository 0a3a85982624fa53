use fromrow_core::compile::{
    derive_from_row, generate_field_expr, validate, Constraint, ConversionPlan,
};
use fromrow_core::schema::{RawField, RawStructure, SchemaError, SourceMode, ValidationError};
use fromrow_core::types::{is_option_type, render, TypeExpr};

fn ty(name: &str) -> TypeExpr {
    TypeExpr::Path {
        leading_colon: false,
        segments: vec![name.to_string()],
        argument: None,
    }
}

fn ty_opt(inner: TypeExpr) -> TypeExpr {
    TypeExpr::Path {
        leading_colon: false,
        segments: vec!["Option".to_string()],
        argument: Some(Box::new(inner)),
    }
}

fn plain_field(name: &str, t: TypeExpr) -> RawField {
    RawField {
        name: name.to_string(),
        ty: t,
        from: None,
        try_from: None,
        rename: None,
        attrs: vec![],
    }
}

fn structure(fields: Vec<RawField>) -> RawStructure {
    RawStructure {
        name: "Record".to_string(),
        fields,
        constraints: vec![],
    }
}

#[test]
fn conflicting_directives_rejected() {
    let mut f = plain_field("id", ty("i32"));
    f.from = Some("i64".to_string());
    f.try_from = Some("String".to_string());
    assert_eq!(
        validate(&f),
        Err(ValidationError::ConflictingDirectives)
    );
    let r = derive_from_row(structure(vec![f]));
    assert_eq!(
        r,
        Err(SchemaError::Invalid(ValidationError::ConflictingDirectives))
    );
}

#[test]
fn unparsable_directive_rejected() {
    let mut f = plain_field("id", ty("i32"));
    f.from = Some("not a type !!".to_string());
    let r = derive_from_row(structure(vec![f]));
    assert_eq!(r, Err(SchemaError::UnparsableType));
}

#[test]
fn valid_directive_accepted() {
    let mut f = plain_field("id", ty("Uuid"));
    f.try_from = Some("String".to_string());
    let mapper = derive_from_row(structure(vec![f])).unwrap();
    assert_eq!(mapper.fields.len(), 1);
    assert_eq!(
        mapper.fields[0].conversion,
        ConversionPlan::Fallible("String".to_string())
    );
    assert_eq!(mapper.fields[0].source, "String".to_string());
}

#[test]
fn direct_field_constraints() {
    let mapper = derive_from_row(structure(vec![plain_field("id", ty("i32"))])).unwrap();
    assert_eq!(
        mapper.constraints,
        vec![
            Constraint::ColumnDecodable("i32".to_string()),
            Constraint::HasDefault("i32".to_string()),
        ]
    );
    assert_eq!(mapper.fields[0].source, "i32".to_string());
    assert_eq!(mapper.fields[0].declared, "i32".to_string());
}

#[test]
fn convert_from_constraints() {
    let mut f = plain_field("id", ty("i32"));
    f.from = Some("i64".to_string());
    let mapper = derive_from_row(structure(vec![f])).unwrap();
    assert_eq!(
        mapper.constraints,
        vec![
            Constraint::ColumnDecodable("i64".to_string()),
            Constraint::ConvertibleFrom {
                target: "i32".to_string(),
                source: "i64".to_string(),
            },
            Constraint::HasDefault("i32".to_string()),
        ]
    );
}

#[test]
fn try_from_constraints_on_optional_field() {
    let mut f = plain_field("uuid", ty_opt(ty("Uuid")));
    f.try_from = Some("String".to_string());
    let mapper = derive_from_row(structure(vec![f])).unwrap();
    let target = "Option<Uuid>".to_string();
    let source = "String".to_string();
    assert_eq!(
        mapper.constraints,
        vec![
            Constraint::ColumnDecodable(source.clone()),
            Constraint::TryConvertibleFrom {
                target: target.clone(),
                source: source.clone(),
            },
            Constraint::ErrorFromFailure {
                target: target.clone(),
                source: source.clone(),
            },
            Constraint::FailureFormattable {
                target,
                source,
            },
        ]
    );
}

#[test]
fn declared_constraints_come_first() {
    let mut s = structure(vec![plain_field("id", ty("i32"))]);
    s.constraints = vec!["T: Clone".to_string()];
    let mapper = derive_from_row(s).unwrap();
    assert_eq!(mapper.constraints[0], Constraint::Declared("T: Clone".to_string()));
    assert_eq!(mapper.constraints.len(), 3);
}

#[test]
fn rename_overrides_column_name() {
    let mut f = plain_field("id", ty("i32"));
    f.rename = Some("record_id".to_string());
    let mapper = derive_from_row(structure(vec![f])).unwrap();
    assert_eq!(mapper.fields[0].column, "record_id".to_string());
    assert_eq!(mapper.fields[0].name, "id".to_string());
}

#[test]
fn generate_field_expr_direct() {
    let mut f = plain_field("name", ty_opt(ty("String")));
    f.rename = Some("full_name".to_string());
    let mapper = derive_from_row(structure(vec![f])).unwrap();
    let plan = &mapper.fields[0];
    assert_eq!(plan.source, "Option<String>".to_string());
    assert_eq!(plan.column, "full_name".to_string());
    assert!(plan.optional);
    assert_eq!(plan.conversion, ConversionPlan::Direct);
    // the same plan through the generator itself
    let spec = fromrow_core::compile::extract_field(RawField {
        name: "name".to_string(),
        ty: ty_opt(ty("String")),
        from: None,
        try_from: None,
        rename: Some("full_name".to_string()),
        attrs: vec![],
    })
    .unwrap();
    assert_eq!(generate_field_expr(&spec), mapper.fields[0]);
}

#[test]
fn render_type_text() {
    assert_eq!(render(&ty("i32")), "i32".to_string());
    assert_eq!(render(&ty_opt(ty("String"))), "Option<String>".to_string());
    let wrapped = TypeExpr::Path {
        leading_colon: true,
        segments: vec!["core".to_string(), "option".to_string(), "Option".to_string()],
        argument: Some(Box::new(ty("bool"))),
    };
    assert_eq!(render(&wrapped), "::core::option::Option<bool>".to_string());
    assert_eq!(
        render(&TypeExpr::Verbatim("(u8, u8)".to_string())),
        "(u8, u8)".to_string()
    );
}

#[test]
fn option_detection_is_syntactic() {
    assert!(is_option_type(&ty_opt(ty("i32"))));
    assert!(!is_option_type(&ty("i32")));
    // a local single-segment type named `Option` is indistinguishable
    let local = TypeExpr::Path {
        leading_colon: false,
        segments: vec!["Option".to_string()],
        argument: Some(Box::new(ty("u8"))),
    };
    assert!(is_option_type(&local));
    // a module-qualified spelling is not the bare wrapper
    let qualified = TypeExpr::Path {
        leading_colon: false,
        segments: vec!["std".to_string(), "option".to_string(), "Option".to_string()],
        argument: Some(Box::new(ty("u8"))),
    };
    assert!(!is_option_type(&qualified));
    assert!(!is_option_type(&TypeExpr::Verbatim("Option<u8>".to_string())));
}

#[test]
fn attrs_are_echoed_into_the_plan() {
    let mut f = plain_field("id", ty("i32"));
    f.attrs = vec!["#[allow(dead_code)]".to_string(), "#[doc = \" key \"]".to_string()];
    let mapper = derive_from_row(structure(vec![f])).unwrap();
    assert_eq!(
        mapper.fields[0].attrs,
        vec!["#[allow(dead_code)]".to_string(), "#[doc = \" key \"]".to_string()]
    );
}

#[test]
fn source_mode_resolution() {
    let mut f = plain_field("id", ty("i32"));
    f.from = Some("i64".to_string());
    let spec = fromrow_core::compile::extract_field(f).unwrap();
    assert_eq!(spec.source_mode, SourceMode::ConvertFrom("i64".to_string()));
    let direct = fromrow_core::compile::extract_field(plain_field("id", ty("i32"))).unwrap();
    assert_eq!(direct.source_mode, SourceMode::Direct);
    assert_eq!(direct.column_name, "id".to_string());
}
