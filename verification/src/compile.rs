//! The schema compiler: field extraction and validation, constraint
//! synthesis, decoding-plan generation, and the structure compiler that
//! assembles them.
//!
//! Compilation consults an outside parser for the validity of `from` and
//! `try_from` directive texts. That verdict is taken per call and is not
//! named in the contracts, since which lexer judges it depends on the calling
//! context; so for a conflict-free structure that carries directives the
//! contracts pin the content of both outcomes — the exact mapper on success,
//! the exact error otherwise — without fixing which of the two a given call
//! returns.

use vstd::prelude::*;

use crate::schema::{
    field_spec_wf, texts_model, FieldModel, FieldSpec, FieldSpecModel, RawField, RawStructure,
    SchemaError, SourceMode, SourceModeModel, StructureModel, ValidationError,
};
use crate::types::{is_option_model, is_option_type, render, render_model, type_text_is_valid};

verus! {

/// One capability requirement the generated procedures impose, over rendered
/// type texts.
#[derive(Debug, PartialEq, Eq)]
pub enum Constraint {
    /// the named type must be decodable from a column
    ColumnDecodable(String),
    /// `target` must be constructible from `source` by an unconditional conversion
    ConvertibleFrom { target: String, source: String },
    /// `target` must be constructible from `source` by a fallible conversion
    TryConvertibleFrom { target: String, source: String },
    /// the mapper's own error type must be constructible from the failure
    /// value of the fallible conversion from `source` to `target`
    ErrorFromFailure { target: String, source: String },
    /// the failure value of the fallible conversion from `source` to `target`
    /// must be formattable for diagnostics
    FailureFormattable { target: String, source: String },
    /// the named type must supply a default value
    HasDefault(String),
    /// a pre-existing constraint of the structure, carried verbatim
    Declared(String),
}

pub enum ConstraintModel {
    ColumnDecodable(Seq<char>),
    ConvertibleFrom { target: Seq<char>, source: Seq<char> },
    TryConvertibleFrom { target: Seq<char>, source: Seq<char> },
    ErrorFromFailure { target: Seq<char>, source: Seq<char> },
    FailureFormattable { target: Seq<char>, source: Seq<char> },
    HasDefault(Seq<char>),
    Declared(Seq<char>),
}

impl View for Constraint {
    type V = ConstraintModel;

    open spec fn view(&self) -> ConstraintModel {
        match self {
            Constraint::ColumnDecodable(ty) => ConstraintModel::ColumnDecodable(ty@),
            Constraint::ConvertibleFrom { target, source } => ConstraintModel::ConvertibleFrom {
                target: target@,
                source: source@,
            },
            Constraint::TryConvertibleFrom { target, source } => (
            ConstraintModel::TryConvertibleFrom { target: target@, source: source@ }),
            Constraint::ErrorFromFailure { target, source } => ConstraintModel::ErrorFromFailure {
                target: target@,
                source: source@,
            },
            Constraint::FailureFormattable { target, source } => (
            ConstraintModel::FailureFormattable { target: target@, source: source@ }),
            Constraint::HasDefault(ty) => ConstraintModel::HasDefault(ty@),
            Constraint::Declared(text) => ConstraintModel::Declared(text@),
        }
    }
}

pub open spec fn constraints_view(cs: Seq<Constraint>) -> Seq<ConstraintModel> {
    cs.map_values(|c: Constraint| c@)
}

/// Directive Validator: `from` and `try_from` must not both be present on one
/// field.
pub fn validate(field: &RawField) -> (r: Result<(), ValidationError>)
    ensures
        r is Ok <==> !(field@.from is Some && field@.try_from is Some),
        r is Err ==> r == Err::<(), ValidationError>(ValidationError::ConflictingDirectives),
{
    if field.from.is_some() && field.try_from.is_some() {
        Err(ValidationError::ConflictingDirectives)
    } else {
        Ok(())
    }
}

/// Whether a field supplies a conversion directive at all. Only such a field
/// has a directive text to parse, so only such a field can fail extraction.
pub open spec fn has_directive(f: FieldModel) -> bool {
    f.from is Some || f.try_from is Some
}

pub open spec fn source_mode_model_of(f: FieldModel) -> SourceModeModel {
    match f.from {
        Some(text) => SourceModeModel::ConvertFrom(text),
        None => match f.try_from {
            Some(text) => SourceModeModel::ConvertTryFrom(text),
            None => SourceModeModel::Direct,
        },
    }
}

pub open spec fn column_model_of(f: FieldModel) -> Seq<char> {
    match f.rename {
        Some(text) => text,
        None => f.name,
    }
}

/// The resolved specification a raw field extracts to.
pub open spec fn extract_model(f: FieldModel) -> FieldSpecModel {
    FieldSpecModel {
        name: f.name,
        declared: f.ty,
        mode: source_mode_model_of(f),
        column: column_model_of(f),
        optional: is_option_model(f.ty),
        attrs: f.attrs,
    }
}

/// Field Specification Extractor: one raw field to its resolved
/// specification. A present `from` or `try_from` directive text must parse as
/// a type expression (judged per call by the parser behind
/// `type_text_is_valid`); the column name falls back to the field's own name.
/// A field without directives always extracts.
pub fn extract_field(field: RawField) -> (r: Result<FieldSpec, SchemaError>)
    ensures
        r matches Ok(fs) ==> fs@ == extract_model(field@) && field_spec_wf(fs@),
        r is Err ==> r == Err::<FieldSpec, SchemaError>(SchemaError::UnparsableType)
            && has_directive(field@),
        !has_directive(field@) ==> r is Ok,
{
    let source_mode: SourceMode = match &field.from {
        Some(text) => {
            if !type_text_is_valid(text.as_str()) {
                return Err(SchemaError::UnparsableType);
            }
            SourceMode::ConvertFrom(text.clone())
        },
        None => match &field.try_from {
            Some(text) => {
                if !type_text_is_valid(text.as_str()) {
                    return Err(SchemaError::UnparsableType);
                }
                SourceMode::ConvertTryFrom(text.clone())
            },
            None => SourceMode::Direct,
        },
    };
    let column_name: String = match &field.rename {
        Some(text) => text.clone(),
        None => field.name.clone(),
    };
    let is_optional_wrapper = is_option_type(&field.ty);
    Ok(
        FieldSpec {
            name: field.name,
            declared_type: field.ty,
            source_mode,
            column_name,
            is_optional_wrapper,
            attrs: field.attrs,
        },
    )
}

/// The effective source type of a field, as text: the declared type when
/// direct, else the directive's named type.
pub open spec fn effective_source_model(fs: FieldSpecModel) -> Seq<char> {
    match fs.mode {
        SourceModeModel::Direct => render_model(fs.declared),
        SourceModeModel::ConvertFrom(text) => text,
        SourceModeModel::ConvertTryFrom(text) => text,
    }
}

/// The capability requirements one field imposes: its effective source type
/// must be column-decodable; a converting field needs the conversion (and,
/// when fallible, error construction and formatting of the failure value); a
/// non-optional field needs a default value for the absorbing fallback.
pub open spec fn field_constraints_model(fs: FieldSpecModel) -> Seq<ConstraintModel> {
    let target = render_model(fs.declared);
    let base = seq![ConstraintModel::ColumnDecodable(effective_source_model(fs))];
    let conv = match fs.mode {
        SourceModeModel::Direct => Seq::<ConstraintModel>::empty(),
        SourceModeModel::ConvertFrom(source) => seq![
            ConstraintModel::ConvertibleFrom { target, source },
        ],
        SourceModeModel::ConvertTryFrom(source) => seq![
            ConstraintModel::TryConvertibleFrom { target, source },
            ConstraintModel::ErrorFromFailure { target, source },
            ConstraintModel::FailureFormattable { target, source },
        ],
    };
    let dflt = if fs.optional {
        Seq::<ConstraintModel>::empty()
    } else {
        seq![ConstraintModel::HasDefault(target)]
    };
    base + conv + dflt
}

/// Constraint Synthesizer: appends the capability requirements one field
/// imposes to a caller-supplied constraint collection. Order-insensitive by
/// construction elsewhere; duplicates are harmless and not removed.
pub fn add_predicates(fs: &FieldSpec, out: &mut Vec<Constraint>)
    ensures
        constraints_view(final(out)@) == constraints_view(old(out)@) + field_constraints_model(
            fs@,
        ),
{
    let ghost base = out@;
    let source_text: String = match &fs.source_mode {
        SourceMode::Direct => render(&fs.declared_type),
        SourceMode::ConvertFrom(text) => text.clone(),
        SourceMode::ConvertTryFrom(text) => text.clone(),
    };
    out.push(Constraint::ColumnDecodable(source_text));
    match &fs.source_mode {
        SourceMode::Direct => {},
        SourceMode::ConvertFrom(text) => {
            out.push(
                Constraint::ConvertibleFrom {
                    target: render(&fs.declared_type),
                    source: text.clone(),
                },
            );
        },
        SourceMode::ConvertTryFrom(text) => {
            let target = render(&fs.declared_type);
            out.push(
                Constraint::TryConvertibleFrom { target: target.clone(), source: text.clone() },
            );
            out.push(Constraint::ErrorFromFailure { target: target.clone(), source: text.clone() });
            out.push(Constraint::FailureFormattable { target, source: text.clone() });
        },
    }
    if !fs.is_optional_wrapper {
        out.push(Constraint::HasDefault(render(&fs.declared_type)));
    }
    proof {
        assert(constraints_view(out@) =~= constraints_view(base) + field_constraints_model(fs@));
    }
}

/// How the decoded value is converted before assignment: not at all,
/// unconditionally, or fallibly, from the named source type.
#[derive(Debug, PartialEq, Eq)]
pub enum ConversionPlan {
    Direct,
    Unconditional(String),
    Fallible(String),
}

pub enum ConversionPlanModel {
    Direct,
    Unconditional(Seq<char>),
    Fallible(Seq<char>),
}

impl View for ConversionPlan {
    type V = ConversionPlanModel;

    open spec fn view(&self) -> ConversionPlanModel {
        match self {
            ConversionPlan::Direct => ConversionPlanModel::Direct,
            ConversionPlan::Unconditional(text) => ConversionPlanModel::Unconditional(text@),
            ConversionPlan::Fallible(text) => ConversionPlanModel::Fallible(text@),
        }
    }
}

/// One field's decoding plan. Both generated procedures read it and behave
/// identically: column absence, a decode failure and a failed fallible
/// conversion all fall back to the empty optional (for optional-wrapped
/// fields) or the declared type's default value — never an error.
#[derive(Debug, PartialEq, Eq)]
pub struct FieldPlan {
    pub name: String,
    pub column: String,
    /// rendered effective source type: what is decoded from the column
    pub source: String,
    pub conversion: ConversionPlan,
    /// whether the declared type is the optional wrapper
    pub optional: bool,
    /// rendered declared type: the key for the default-value fallback
    pub declared: String,
    /// the field's decorative metadata, echoed verbatim onto the generated
    /// initializer
    pub attrs: Vec<String>,
}

pub struct FieldPlanModel {
    pub name: Seq<char>,
    pub column: Seq<char>,
    pub source: Seq<char>,
    pub conversion: ConversionPlanModel,
    pub optional: bool,
    pub declared: Seq<char>,
    pub attrs: Seq<Seq<char>>,
}

impl View for FieldPlan {
    type V = FieldPlanModel;

    open spec fn view(&self) -> FieldPlanModel {
        FieldPlanModel {
            name: self.name@,
            column: self.column@,
            source: self.source@,
            conversion: self.conversion@,
            optional: self.optional,
            declared: self.declared@,
            attrs: texts_model(self.attrs@),
        }
    }
}

pub open spec fn plan_model(fs: FieldSpecModel) -> FieldPlanModel {
    FieldPlanModel {
        name: fs.name,
        column: fs.column,
        source: effective_source_model(fs),
        conversion: match fs.mode {
            SourceModeModel::Direct => ConversionPlanModel::Direct,
            SourceModeModel::ConvertFrom(text) => ConversionPlanModel::Unconditional(text),
            SourceModeModel::ConvertTryFrom(text) => ConversionPlanModel::Fallible(text),
        },
        optional: fs.optional,
        declared: render_model(fs.declared),
        attrs: fs.attrs,
    }
}

fn clone_texts(texts: &Vec<String>) -> (r: Vec<String>)
    ensures
        r@ == texts@,
{
    let mut out: Vec<String> = Vec::new();
    let mut i: usize = 0;
    while i < texts.len()
        invariant
            i <= texts.len(),
            out@.len() == i,
            forall|j: int| 0 <= j < i ==> out@[j] == texts@[j],
        decreases texts.len() - i,
    {
        out.push(texts[i].clone());
        i += 1;
    }
    proof {
        assert(out@ =~= texts@);
    }
    out
}

/// Decoding Expression Generator: one field's plan, shared by the
/// always-succeeding and the may-fail procedure — the two differ in nothing,
/// since every failure is absorbed into the fallback rather than escalated.
pub fn generate_field_expr(fs: &FieldSpec) -> (r: FieldPlan)
    ensures
        r@ == plan_model(fs@),
{
    let source: String = match &fs.source_mode {
        SourceMode::Direct => render(&fs.declared_type),
        SourceMode::ConvertFrom(text) => text.clone(),
        SourceMode::ConvertTryFrom(text) => text.clone(),
    };
    let conversion: ConversionPlan = match &fs.source_mode {
        SourceMode::Direct => ConversionPlan::Direct,
        SourceMode::ConvertFrom(text) => ConversionPlan::Unconditional(text.clone()),
        SourceMode::ConvertTryFrom(text) => ConversionPlan::Fallible(text.clone()),
    };
    FieldPlan {
        name: fs.name.clone(),
        column: fs.column_name.clone(),
        source,
        conversion,
        optional: fs.is_optional_wrapper,
        declared: render(&fs.declared_type),
        attrs: clone_texts(&fs.attrs),
    }
}

/// The compiled mapping for one structure: the merged constraint set (the
/// structure's own constraints first, then every field's, in field order) and
/// the per-field decoding plans that both generated procedures read.
#[derive(Debug, PartialEq, Eq)]
pub struct GeneratedMapper {
    pub name: String,
    pub constraints: Vec<Constraint>,
    pub fields: Vec<FieldPlan>,
}

pub struct MapperModel {
    pub name: Seq<char>,
    pub constraints: Seq<ConstraintModel>,
    pub fields: Seq<FieldPlanModel>,
}

impl View for GeneratedMapper {
    type V = MapperModel;

    open spec fn view(&self) -> MapperModel {
        MapperModel {
            name: self.name@,
            constraints: constraints_view(self.constraints@),
            fields: self.fields@.map_values(|p: FieldPlan| p@),
        }
    }
}

pub open spec fn fields_constraints_model(fields: Seq<FieldModel>) -> Seq<ConstraintModel>
    decreases fields.len(),
{
    if fields.len() == 0 {
        Seq::empty()
    } else {
        fields_constraints_model(fields.drop_last()) + field_constraints_model(
            extract_model(fields.last()),
        )
    }
}

pub open spec fn has_conflict(fields: Seq<FieldModel>) -> bool {
    exists|i: int| 0 <= i < fields.len() && fields[i].from is Some && fields[i].try_from is Some
}

/// Whether any field of the structure supplies a conversion directive; only
/// then does compilation consult the type-expression parser at all.
pub open spec fn any_directive(fields: Seq<FieldModel>) -> bool {
    exists|i: int| 0 <= i < fields.len() && has_directive(fields[i])
}

/// The mapper a well-formed structure compiles to.
pub open spec fn mapper_model(s: StructureModel) -> MapperModel {
    MapperModel {
        name: s.name,
        constraints: s.constraints.map_values(|c: Seq<char>| ConstraintModel::Declared(c))
            + fields_constraints_model(s.fields),
        fields: s.fields.map_values(|f: FieldModel| plan_model(extract_model(f))),
    }
}

/// Structure Compiler: validates every field in declaration order (halting at
/// the first conflict), then extracts every field (halting at the first
/// unparsable directive), merges the structure's own constraints with every
/// field's synthesized ones, and assembles the per-field decoding plans.
/// A conflict is rejected before any directive is parsed, and the conflict
/// error is returned only when a conflict exists; a structure without
/// directives always compiles; an unparsable directive is the only other way
/// to fail.
#[verifier::loop_isolation(false)]
pub fn derive_from_row(structure: RawStructure) -> (r: Result<GeneratedMapper, SchemaError>)
    ensures
        has_conflict(structure@.fields) <==> r == Err::<GeneratedMapper, SchemaError>(
            SchemaError::Invalid(ValidationError::ConflictingDirectives),
        ),
        r matches Ok(m) ==> !has_conflict(structure@.fields) && m@ == mapper_model(structure@),
        r is Err ==> r == Err::<GeneratedMapper, SchemaError>(
            SchemaError::Invalid(ValidationError::ConflictingDirectives),
        ) || r == Err::<GeneratedMapper, SchemaError>(SchemaError::UnparsableType),
        r == Err::<GeneratedMapper, SchemaError>(SchemaError::UnparsableType) ==> !has_conflict(
            structure@.fields,
        ) && any_directive(structure@.fields),
        !has_conflict(structure@.fields) && !any_directive(structure@.fields) ==> r is Ok,
{
    let ghost smodel = structure@;
    // validate every field first, in declaration order
    let mut i: usize = 0;
    while i < structure.fields.len()
        invariant
            i <= structure.fields.len(),
            smodel == structure@,
            forall|j: int|
                0 <= j < i ==> !(smodel.fields[j].from is Some && smodel.fields[j].try_from
                    is Some),
        decreases structure.fields.len() - i,
    {
        if let Err(e) = validate(&structure.fields[i]) {
            assert(smodel.fields[i as int].from is Some && smodel.fields[i as int].try_from
                is Some);
            return Err(SchemaError::Invalid(e));
        }
        i += 1;
    }
    assert(!has_conflict(smodel.fields));
    // extract every field, consuming the structure's field list
    let RawStructure { name, fields, constraints: own_constraints } = structure;
    let mut remaining = fields;
    let mut specs: Vec<FieldSpec> = Vec::new();
    while remaining.len() > 0
        invariant
            !has_conflict(smodel.fields),
            specs@.len() + remaining@.len() == smodel.fields.len(),
            forall|j: int|
                0 <= j < remaining@.len() ==> remaining@[j]@ == smodel.fields[specs@.len() + j],
            forall|j: int|
                0 <= j < specs@.len() ==> specs@[j]@ == extract_model(smodel.fields[j]),
        decreases remaining.len(),
    {
        let ghost done = specs@.len() as int;
        let ghost before = remaining@;
        let f = remaining.remove(0);
        proof {
            assert(f@ == smodel.fields[done]);
            assert(forall|j: int|
                0 <= j < remaining@.len() ==> remaining@[j] == before[j + 1]);
        }
        match extract_field(f) {
            Ok(fs) => {
                specs.push(fs);
            },
            Err(_) => {
                assert(has_directive(smodel.fields[done]));
                assert(any_directive(smodel.fields));
                return Err(SchemaError::UnparsableType);
            },
        }
    }
    // the merged constraint set: the structure's own constraints first
    let ghost declared_constraints = smodel.constraints.map_values(
        |c: Seq<char>| ConstraintModel::Declared(c),
    );
    let mut constraints: Vec<Constraint> = Vec::new();
    let mut i: usize = 0;
    while i < own_constraints.len()
        invariant
            i <= own_constraints.len(),
            !has_conflict(smodel.fields),
            specs@.len() == smodel.fields.len(),
            forall|j: int|
                0 <= j < specs@.len() ==> specs@[j]@ == extract_model(smodel.fields[j]),
            own_constraints@.map_values(|c: String| c@) == smodel.constraints,
            constraints_view(constraints@) =~= declared_constraints.take(i as int),
        decreases own_constraints.len() - i,
    {
        let c = own_constraints[i].clone();
        constraints.push(Constraint::Declared(c));
        proof {
            assert(smodel.constraints[i as int] == own_constraints@[i as int]@);
            assert(constraints_view(constraints@) =~= declared_constraints.take(i + 1));
        }
        i += 1;
    }
    proof {
        assert(declared_constraints.take(own_constraints@.len() as int) =~= declared_constraints);
    }
    // then every field's synthesized requirements, in field order
    let mut i: usize = 0;
    while i < specs.len()
        invariant
            i <= specs@.len(),
            !has_conflict(smodel.fields),
            specs@.len() == smodel.fields.len(),
            forall|j: int|
                0 <= j < specs@.len() ==> specs@[j]@ == extract_model(smodel.fields[j]),
            constraints_view(constraints@) =~= declared_constraints + fields_constraints_model(
                smodel.fields.take(i as int),
            ),
        decreases specs.len() - i,
    {
        add_predicates(&specs[i], &mut constraints);
        proof {
            assert(smodel.fields.take(i + 1).drop_last() =~= smodel.fields.take(i as int));
            assert(smodel.fields.take(i + 1).last() == smodel.fields[i as int]);
        }
        i += 1;
    }
    proof {
        assert(smodel.fields.take(smodel.fields.len() as int) =~= smodel.fields);
    }
    // the per-field decoding plans
    let mut plans: Vec<FieldPlan> = Vec::new();
    let mut i: usize = 0;
    while i < specs.len()
        invariant
            i <= specs@.len(),
            !has_conflict(smodel.fields),
            specs@.len() == smodel.fields.len(),
            forall|j: int|
                0 <= j < specs@.len() ==> specs@[j]@ == extract_model(smodel.fields[j]),
            plans@.len() == i,
            forall|j: int|
                0 <= j < i ==> plans@[j]@ == plan_model(extract_model(smodel.fields[j])),
        decreases specs.len() - i,
    {
        plans.push(generate_field_expr(&specs[i]));
        i += 1;
    }
    let mapper = GeneratedMapper { name, constraints, fields: plans };
    proof {
        assert(mapper@.constraints =~= mapper_model(smodel).constraints);
        assert(mapper@.fields =~= mapper_model(smodel).fields);
        assert(mapper@ == mapper_model(smodel));
    }
    Ok(mapper)
}

/// Directive-free fields read their own declared type: extraction resolves
/// them to direct mode, the effective source type is the declared type
/// itself, and the synthesized constraints require exactly that type to be
/// column-decodable.
pub proof fn lemma_direct_field_reads_declared_type(f: FieldModel)
    requires
        f.from is None,
        f.try_from is None,
    ensures
        extract_model(f).mode is Direct,
        effective_source_model(extract_model(f)) == render_model(f.ty),
        field_constraints_model(extract_model(f))[0] == ConstraintModel::ColumnDecodable(
            render_model(f.ty),
        ),
        field_constraints_model(extract_model(f)).contains(
            ConstraintModel::ColumnDecodable(render_model(f.ty)),
        ),
{
    let cs = field_constraints_model(extract_model(f));
    assert(cs[0] == ConstraintModel::ColumnDecodable(render_model(f.ty)));
    assert(cs.contains(cs[0]));
}

} // verus!
