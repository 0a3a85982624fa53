use vstd::prelude::*;

use crate::compile::{
    extract_model, field_constraints_model, fields_constraints_model, mapper_model, plan_model,
    Constraint, ConstraintModel, ConversionPlan, ConversionPlanModel, FieldPlan, FieldPlanModel,
    GeneratedMapper,
};
use crate::schema::{FieldModel, MapperError, StructureModel};
use crate::types::render_model;

verus! {

/// A column value as the row hands it over: the null marker or one of the
/// scalar payloads.
#[derive(Debug, PartialEq, Eq)]
pub enum Value {
    Null,
    Int(i64),
    Bool(bool),
    Text(String),
}

pub enum ValueModel {
    Null,
    Int(i64),
    Bool(bool),
    Text(Seq<char>),
}

impl View for Value {
    type V = ValueModel;

    open spec fn view(&self) -> ValueModel {
        match self {
            Value::Null => ValueModel::Null,
            Value::Int(x) => ValueModel::Int(*x),
            Value::Bool(b) => ValueModel::Bool(*b),
            Value::Text(text) => ValueModel::Text(text@),
        }
    }
}

impl Value {
    /// An owned copy of the value.
    pub fn duplicate(&self) -> (r: Value)
        ensures
            r@ == self@,
    {
        match self {
            Value::Null => Value::Null,
            Value::Int(x) => Value::Int(*x),
            Value::Bool(b) => Value::Bool(*b),
            Value::Text(text) => Value::Text(text.clone()),
        }
    }
}

/// Whether two values are the same.
pub fn value_eq(a: &Value, b: &Value) -> (r: bool)
    ensures
        r == (a@ == b@),
{
    match (a, b) {
        (Value::Null, Value::Null) => true,
        (Value::Int(x), Value::Int(y)) => *x == *y,
        (Value::Bool(x), Value::Bool(y)) => *x == *y,
        (Value::Text(x), Value::Text(y)) => *x == *y,
        _ => false,
    }
}

/// The kind of payload a decoder accepts.
#[derive(Debug, Clone, Copy, PartialEq, Eq, Structural)]
pub enum Kind {
    Int,
    Bool,
    Text,
}

/// The kind of a value's payload; the null marker has none.
pub open spec fn value_kind(v: ValueModel) -> Option<Kind> {
    match v {
        ValueModel::Null => None,
        ValueModel::Int(_) => Some(Kind::Int),
        ValueModel::Bool(_) => Some(Kind::Bool),
        ValueModel::Text(_) => Some(Kind::Text),
    }
}

/// One resolved field of a mapped structure: the empty optional, or a value.
#[derive(Debug, PartialEq, Eq)]
pub enum FieldValue {
    Empty,
    Filled(Value),
}

pub enum FieldValueModel {
    Empty,
    Filled(ValueModel),
}

impl View for FieldValue {
    type V = FieldValueModel;

    open spec fn view(&self) -> FieldValueModel {
        match self {
            FieldValue::Empty => FieldValueModel::Empty,
            FieldValue::Filled(v) => FieldValueModel::Filled(v@),
        }
    }
}

/// One named, typed value within a row.
#[derive(Debug, PartialEq, Eq)]
pub struct Column {
    pub name: String,
    pub value: Value,
}

pub struct ColumnModel {
    pub name: Seq<char>,
    pub value: ValueModel,
}

impl View for Column {
    type V = ColumnModel;

    open spec fn view(&self) -> ColumnModel {
        ColumnModel { name: self.name@, value: self.value@ }
    }
}

/// One row of tabular source data: its columns, looked up by exact name.
#[derive(Debug, PartialEq, Eq)]
pub struct Row {
    pub columns: Vec<Column>,
}

pub struct RowModel {
    pub columns: Seq<ColumnModel>,
}

impl View for Row {
    type V = RowModel;

    open spec fn view(&self) -> RowModel {
        RowModel { columns: self.columns@.map_values(|c: Column| c@) }
    }
}

/// Registers that the named type is decodable from a column: a value of the
/// given kind decodes to itself, and a null column decodes to the empty
/// optional exactly when the type is registered nullable (the optional
/// wrapper's reading of a null column).
#[derive(Debug, PartialEq, Eq)]
pub struct Decoder {
    pub ty: String,
    pub kind: Kind,
    pub nullable: bool,
}

pub struct DecoderModel {
    pub ty: Seq<char>,
    pub kind: Kind,
    pub nullable: bool,
}

impl View for Decoder {
    type V = DecoderModel;

    open spec fn view(&self) -> DecoderModel {
        DecoderModel { ty: self.ty@, kind: self.kind, nullable: self.nullable }
    }
}

/// Registers the named type's default value, used by the absorbing fallback
/// of non-optional fields.
#[derive(Debug, PartialEq, Eq)]
pub struct DefaultRule {
    pub ty: String,
    pub value: Value,
}

pub struct DefaultRuleModel {
    pub ty: Seq<char>,
    pub value: ValueModel,
}

impl View for DefaultRule {
    type V = DefaultRuleModel;

    open spec fn view(&self) -> DefaultRuleModel {
        DefaultRuleModel { ty: self.ty@, value: self.value@ }
    }
}

/// One input/output pair of a registered conversion.
#[derive(Debug, PartialEq, Eq)]
pub struct ConvCase {
    pub input: Value,
    pub output: Value,
}

pub struct ConvCaseModel {
    pub input: ValueModel,
    pub output: ValueModel,
}

impl View for ConvCase {
    type V = ConvCaseModel;

    open spec fn view(&self) -> ConvCaseModel {
        ConvCaseModel { input: self.input@, output: self.output@ }
    }
}

/// Registers a conversion from `source` to `target`: an unconditional one
/// maps listed inputs and passes any other value through unchanged, a
/// fallible one fails on any input not listed.
#[derive(Debug, PartialEq, Eq)]
pub struct ConvRule {
    pub target: String,
    pub source: String,
    pub fallible: bool,
    pub cases: Vec<ConvCase>,
}

pub struct ConvRuleModel {
    pub target: Seq<char>,
    pub source: Seq<char>,
    pub fallible: bool,
    pub cases: Seq<ConvCaseModel>,
}

impl View for ConvRule {
    type V = ConvRuleModel;

    open spec fn view(&self) -> ConvRuleModel {
        ConvRuleModel {
            target: self.target@,
            source: self.source@,
            fallible: self.fallible,
            cases: self.cases@.map_values(|c: ConvCase| c@),
        }
    }
}

/// The capability table the generated procedures run against: which types are
/// decodable from a column, which supply a default value, and which
/// conversions exist. The explicit stand-in for "which impls exist".
#[derive(Debug, PartialEq, Eq)]
pub struct Registry {
    pub decoders: Vec<Decoder>,
    pub defaults: Vec<DefaultRule>,
    pub conversions: Vec<ConvRule>,
}

pub struct RegistryModel {
    pub decoders: Seq<DecoderModel>,
    pub defaults: Seq<DefaultRuleModel>,
    pub conversions: Seq<ConvRuleModel>,
}

impl View for Registry {
    type V = RegistryModel;

    open spec fn view(&self) -> RegistryModel {
        RegistryModel {
            decoders: self.decoders@.map_values(|d: Decoder| d@),
            defaults: self.defaults@.map_values(|d: DefaultRule| d@),
            conversions: self.conversions@.map_values(|c: ConvRule| c@),
        }
    }
}

/// One field of a mapped structure instance.
#[derive(Debug, PartialEq, Eq)]
pub struct FieldOut {
    pub name: String,
    pub value: FieldValue,
}

pub struct FieldOutModel {
    pub name: Seq<char>,
    pub value: FieldValueModel,
}

impl View for FieldOut {
    type V = FieldOutModel;

    open spec fn view(&self) -> FieldOutModel {
        FieldOutModel { name: self.name@, value: self.value@ }
    }
}

/// The mapped structure: one resolved value per field, in field order.
#[derive(Debug, PartialEq, Eq)]
pub struct Instance {
    pub fields: Vec<FieldOut>,
}

impl View for Instance {
    type V = Seq<FieldOutModel>;

    open spec fn view(&self) -> Seq<FieldOutModel> {
        self.fields@.map_values(|f: FieldOut| f@)
    }
}

pub open spec fn find_column_at(columns: Seq<ColumnModel>, name: Seq<char>, i: int) -> Option<
    ValueModel,
>
    decreases columns.len() - i,
{
    if i < 0 || i >= columns.len() {
        None::<ValueModel>
    } else if columns[i].name == name {
        Some(columns[i].value)
    } else {
        find_column_at(columns, name, i + 1)
    }
}

/// The first column of the given name, if any.
pub open spec fn lookup_column(row: RowModel, name: Seq<char>) -> Option<ValueModel> {
    find_column_at(row.columns, name, 0)
}

pub open spec fn find_decoder_at(decoders: Seq<DecoderModel>, ty: Seq<char>, i: int) -> Option<
    DecoderModel,
>
    decreases decoders.len() - i,
{
    if i < 0 || i >= decoders.len() {
        None::<DecoderModel>
    } else if decoders[i].ty == ty {
        Some(decoders[i])
    } else {
        find_decoder_at(decoders, ty, i + 1)
    }
}

/// The first decoder registered for the named type, if any.
pub open spec fn lookup_decoder(reg: RegistryModel, ty: Seq<char>) -> Option<DecoderModel> {
    find_decoder_at(reg.decoders, ty, 0)
}

pub open spec fn find_default_at(defaults: Seq<DefaultRuleModel>, ty: Seq<char>, i: int) -> Option<
    ValueModel,
>
    decreases defaults.len() - i,
{
    if i < 0 || i >= defaults.len() {
        None::<ValueModel>
    } else if defaults[i].ty == ty {
        Some(defaults[i].value)
    } else {
        find_default_at(defaults, ty, i + 1)
    }
}

/// The registered default value of the named type, if any.
pub open spec fn lookup_default(reg: RegistryModel, ty: Seq<char>) -> Option<ValueModel> {
    find_default_at(reg.defaults, ty, 0)
}

pub open spec fn find_conv_at(
    conversions: Seq<ConvRuleModel>,
    target: Seq<char>,
    source: Seq<char>,
    fallible: bool,
    i: int,
) -> Option<ConvRuleModel>
    decreases conversions.len() - i,
{
    if i < 0 || i >= conversions.len() {
        None::<ConvRuleModel>
    } else if conversions[i].target == target && conversions[i].source == source
        && conversions[i].fallible == fallible {
        Some(conversions[i])
    } else {
        find_conv_at(conversions, target, source, fallible, i + 1)
    }
}

/// The first registered conversion of the given shape, if any.
pub open spec fn lookup_conversion(
    reg: RegistryModel,
    target: Seq<char>,
    source: Seq<char>,
    fallible: bool,
) -> Option<ConvRuleModel> {
    find_conv_at(reg.conversions, target, source, fallible, 0)
}

pub open spec fn find_case_at(cases: Seq<ConvCaseModel>, v: ValueModel, i: int) -> Option<
    ValueModel,
>
    decreases cases.len() - i,
{
    if i < 0 || i >= cases.len() {
        None::<ValueModel>
    } else if cases[i].input == v {
        Some(cases[i].output)
    } else {
        find_case_at(cases, v, i + 1)
    }
}

/// What a registered conversion maps the value to, if listed.
pub open spec fn lookup_case(rule: ConvRuleModel, v: ValueModel) -> Option<ValueModel> {
    find_case_at(rule.cases, v, 0)
}

/// Decoding the named type from a column value: a registered decoder of that
/// type takes values of its kind to themselves; a null column yields the
/// empty optional when the type is registered nullable and a failure
/// otherwise; anything else — kind mismatch or no decoder at all — fails.
pub open spec fn spec_decode(reg: RegistryModel, ty: Seq<char>, v: ValueModel) -> Option<
    FieldValueModel,
> {
    match lookup_decoder(reg, ty) {
        None => None,
        Some(d) => match v {
            ValueModel::Null => if d.nullable {
                Some(FieldValueModel::Empty)
            } else {
                None
            },
            _ => if value_kind(v) == Some(d.kind) {
                Some(FieldValueModel::Filled(v))
            } else {
                None
            },
        },
    }
}

/// Converting a decoded value: a direct field keeps it; an unconditional
/// conversion maps listed inputs and passes any other value through; a
/// fallible conversion yields the listed output or fails.
pub open spec fn spec_convert(
    reg: RegistryModel,
    conversion: ConversionPlanModel,
    declared: Seq<char>,
    v: ValueModel,
) -> Option<ValueModel> {
    match conversion {
        ConversionPlanModel::Direct => Some(v),
        ConversionPlanModel::Unconditional(source) => match lookup_conversion(
            reg,
            declared,
            source,
            false,
        ) {
            None => Some(v),
            Some(rule) => match lookup_case(rule, v) {
                Some(w) => Some(w),
                None => Some(v),
            },
        },
        ConversionPlanModel::Fallible(source) => match lookup_conversion(
            reg,
            declared,
            source,
            true,
        ) {
            None => None,
            Some(rule) => lookup_case(rule, v),
        },
    }
}

/// The absorbing fallback: the empty optional for optional-wrapped fields,
/// the declared type's registered default otherwise. A missing default
/// registration falls back to the null value; `satisfies` reports such gaps
/// beforehand as a configuration error.
pub open spec fn spec_fallback(reg: RegistryModel, plan: FieldPlanModel) -> FieldValueModel {
    if plan.optional {
        FieldValueModel::Empty
    } else {
        match lookup_default(reg, plan.declared) {
            Some(v) => FieldValueModel::Filled(v),
            None => FieldValueModel::Filled(ValueModel::Null),
        }
    }
}

/// One field's resolved value: column absence, a decode failure and a failed
/// fallible conversion all yield the fallback; a decoded and converted value
/// is kept.
pub open spec fn spec_eval_field(
    reg: RegistryModel,
    row: RowModel,
    plan: FieldPlanModel,
) -> FieldValueModel {
    match lookup_column(row, plan.column) {
        None => spec_fallback(reg, plan),
        Some(v) => match spec_decode(reg, plan.source, v) {
            None => spec_fallback(reg, plan),
            Some(FieldValueModel::Empty) => FieldValueModel::Empty,
            Some(FieldValueModel::Filled(w)) => match spec_convert(
                reg,
                plan.conversion,
                plan.declared,
                w,
            ) {
                None => spec_fallback(reg, plan),
                Some(u) => FieldValueModel::Filled(u),
            },
        },
    }
}

/// The whole mapped instance: every field's resolved value, in field order.
pub open spec fn instance_model(
    reg: RegistryModel,
    row: RowModel,
    fields: Seq<FieldPlanModel>,
) -> Seq<FieldOutModel> {
    fields.map_values(|p: FieldPlanModel| FieldOutModel { name: p.name, value: spec_eval_field(reg, row, p) })
}

fn find_column_exec<'a>(columns: &'a Vec<Column>, name: &String, i: usize) -> (r: Option<&'a Value>)
    ensures
        (match r {
            Some(v) => find_column_at(columns@.map_values(|c: Column| c@), name@, i as int)
                == Some(v@),
            None => find_column_at(columns@.map_values(|c: Column| c@), name@, i as int) is None,
        }),
    decreases columns@.len() - i,
{
    if i >= columns.len() {
        None
    } else if columns[i].name == *name {
        Some(&columns[i].value)
    } else {
        find_column_exec(columns, name, i + 1)
    }
}

fn find_decoder_exec<'a>(decoders: &'a Vec<Decoder>, ty: &String, i: usize) -> (r: Option<
    &'a Decoder,
>)
    ensures
        (match r {
            Some(d) => find_decoder_at(decoders@.map_values(|d: Decoder| d@), ty@, i as int)
                == Some(d@),
            None => find_decoder_at(decoders@.map_values(|d: Decoder| d@), ty@, i as int) is None,
        }),
    decreases decoders@.len() - i,
{
    if i >= decoders.len() {
        None
    } else if decoders[i].ty == *ty {
        Some(&decoders[i])
    } else {
        find_decoder_exec(decoders, ty, i + 1)
    }
}

fn find_default_exec<'a>(defaults: &'a Vec<DefaultRule>, ty: &String, i: usize) -> (r: Option<
    &'a Value,
>)
    ensures
        (match r {
            Some(v) => find_default_at(defaults@.map_values(|d: DefaultRule| d@), ty@, i as int)
                == Some(v@),
            None => find_default_at(defaults@.map_values(|d: DefaultRule| d@), ty@, i as int)
                is None,
        }),
    decreases defaults@.len() - i,
{
    if i >= defaults.len() {
        None
    } else if defaults[i].ty == *ty {
        Some(&defaults[i].value)
    } else {
        find_default_exec(defaults, ty, i + 1)
    }
}

fn find_conv_exec<'a>(
    conversions: &'a Vec<ConvRule>,
    target: &String,
    source: &String,
    fallible: bool,
    i: usize,
) -> (r: Option<&'a ConvRule>)
    ensures
        (match r {
            Some(rule) => find_conv_at(
                conversions@.map_values(|c: ConvRule| c@),
                target@,
                source@,
                fallible,
                i as int,
            ) == Some(rule@),
            None => find_conv_at(
                conversions@.map_values(|c: ConvRule| c@),
                target@,
                source@,
                fallible,
                i as int,
            ) is None,
        }),
    decreases conversions@.len() - i,
{
    if i >= conversions.len() {
        None
    } else {
        let c = &conversions[i];
        if c.target == *target && c.source == *source && c.fallible == fallible {
            Some(c)
        } else {
            find_conv_exec(conversions, target, source, fallible, i + 1)
        }
    }
}

fn find_case_exec<'a>(cases: &'a Vec<ConvCase>, v: &Value, i: usize) -> (r: Option<&'a Value>)
    ensures
        (match r {
            Some(w) => find_case_at(cases@.map_values(|c: ConvCase| c@), v@, i as int) == Some(w@),
            None => find_case_at(cases@.map_values(|c: ConvCase| c@), v@, i as int) is None,
        }),
    decreases cases@.len() - i,
{
    if i >= cases.len() {
        None
    } else if value_eq(&cases[i].input, v) {
        Some(&cases[i].output)
    } else {
        find_case_exec(cases, v, i + 1)
    }
}

fn decode_exec(registry: &Registry, ty: &String, v: &Value) -> (r: Option<FieldValue>)
    ensures
        (match r {
            Some(fv) => spec_decode(registry@, ty@, v@) == Some(fv@),
            None => spec_decode(registry@, ty@, v@) is None,
        }),
{
    match find_decoder_exec(&registry.decoders, ty, 0) {
        None => None,
        Some(d) => match v {
            Value::Null => if d.nullable {
                Some(FieldValue::Empty)
            } else {
                None
            },
            _ => {
                let kind_matches: bool = match (v, d.kind) {
                    (Value::Int(_), Kind::Int) => true,
                    (Value::Bool(_), Kind::Bool) => true,
                    (Value::Text(_), Kind::Text) => true,
                    _ => false,
                };
                if kind_matches {
                    Some(FieldValue::Filled(v.duplicate()))
                } else {
                    None
                }
            },
        },
    }
}

fn convert_exec(registry: &Registry, conversion: &ConversionPlan, declared: &String, v: Value) -> (r:
    Option<Value>)
    ensures
        (match r {
            Some(u) => spec_convert(registry@, conversion@, declared@, v@) == Some(u@),
            None => spec_convert(registry@, conversion@, declared@, v@) is None,
        }),
{
    match conversion {
        ConversionPlan::Direct => Some(v),
        ConversionPlan::Unconditional(source) => {
            match find_conv_exec(&registry.conversions, declared, source, false, 0) {
                None => Some(v),
                Some(rule) => match find_case_exec(&rule.cases, &v, 0) {
                    Some(w) => Some(w.duplicate()),
                    None => Some(v),
                },
            }
        },
        ConversionPlan::Fallible(source) => {
            match find_conv_exec(&registry.conversions, declared, source, true, 0) {
                None => None,
                Some(rule) => match find_case_exec(&rule.cases, &v, 0) {
                    Some(w) => Some(w.duplicate()),
                    None => None,
                },
            }
        },
    }
}

fn fallback_exec(registry: &Registry, plan: &FieldPlan) -> (r: FieldValue)
    ensures
        r@ == spec_fallback(registry@, plan@),
{
    if plan.optional {
        FieldValue::Empty
    } else {
        match find_default_exec(&registry.defaults, &plan.declared, 0) {
            Some(v) => FieldValue::Filled(v.duplicate()),
            None => FieldValue::Filled(Value::Null),
        }
    }
}

/// One field's resolved value, by the absorbing policy.
pub fn eval_field(registry: &Registry, row: &Row, plan: &FieldPlan) -> (r:
    FieldValue)
    ensures
        r@ == spec_eval_field(registry@, row@, plan@),
{
    match find_column_exec(&row.columns, &plan.column, 0) {
        None => fallback_exec(registry, plan),
        Some(v) => match decode_exec(registry, &plan.source, v) {
            None => fallback_exec(registry, plan),
            Some(FieldValue::Empty) => FieldValue::Empty,
            Some(FieldValue::Filled(w)) => match convert_exec(
                registry,
                &plan.conversion,
                &plan.declared,
                w,
            ) {
                None => fallback_exec(registry, plan),
                Some(u) => FieldValue::Filled(u),
            },
        },
    }
}

/// Whether the registry supplies the capability one constraint requires.
/// Verbatim structure constraints and the diagnostics requirements on a
/// fallible conversion's failure value are the back end's affair and have
/// nothing to look up here.
pub open spec fn constraint_satisfied(reg: RegistryModel, c: ConstraintModel) -> bool {
    match c {
        ConstraintModel::ColumnDecodable(ty) => lookup_decoder(reg, ty) is Some,
        ConstraintModel::ConvertibleFrom { target, source } => lookup_conversion(
            reg,
            target,
            source,
            false,
        ) is Some,
        ConstraintModel::TryConvertibleFrom { target, source } => lookup_conversion(
            reg,
            target,
            source,
            true,
        ) is Some,
        ConstraintModel::ErrorFromFailure { .. } => true,
        ConstraintModel::FailureFormattable { .. } => true,
        ConstraintModel::HasDefault(ty) => lookup_default(reg, ty) is Some,
        ConstraintModel::Declared(_) => true,
    }
}

pub open spec fn registry_satisfies(reg: RegistryModel, cs: Seq<ConstraintModel>) -> bool {
    forall|i: int| 0 <= i < cs.len() ==> constraint_satisfied(reg, cs[i])
}

fn constraint_satisfied_exec(registry: &Registry, c: &Constraint) -> (r: bool)
    ensures
        r == constraint_satisfied(registry@, c@),
{
    match c {
        Constraint::ColumnDecodable(ty) => find_decoder_exec(
            &registry.decoders,
            ty,
            0,
        ).is_some(),
        Constraint::ConvertibleFrom { target, source } => find_conv_exec(
            &registry.conversions,
            target,
            source,
            false,
            0,
        ).is_some(),
        Constraint::TryConvertibleFrom { target, source } => find_conv_exec(
            &registry.conversions,
            target,
            source,
            true,
            0,
        ).is_some(),
        Constraint::ErrorFromFailure { .. } => true,
        Constraint::FailureFormattable { .. } => true,
        Constraint::HasDefault(ty) => find_default_exec(&registry.defaults, ty, 0).is_some(),
        Constraint::Declared(_) => true,
    }
}

impl GeneratedMapper {
    /// Whether the registry supplies every capability the mapper's constraint
    /// set requires. A gap is a configuration error, to be reported before
    /// mapping rather than silently defaulted over.
    #[verifier::loop_isolation(false)]
    pub fn satisfies(&self, registry: &Registry) -> (r: bool)
        ensures
            r == registry_satisfies(registry@, self@.constraints),
    {
        let mut i: usize = 0;
        while i < self.constraints.len()
            invariant
                i <= self.constraints.len(),
                forall|j: int| 0 <= j < i ==> constraint_satisfied(registry@, self@.constraints[j]),
            decreases self.constraints.len() - i,
        {
            if !constraint_satisfied_exec(registry, &self.constraints[i]) {
                assert(!constraint_satisfied(registry@, self@.constraints[i as int]));
                return false;
            }
            i += 1;
        }
        true
    }

    /// The always-succeeding generated procedure: one resolved value per
    /// field, in field order; column absence, decode failures and failed
    /// fallible conversions are absorbed into the empty optional or the
    /// declared type's default value, never reported.
    #[verifier::loop_isolation(false)]
    pub fn from_row(&self, registry: &Registry, row: &Row) -> (r: Instance)
        ensures
            r@ == instance_model(registry@, row@, self@.fields),
    {
        let mut out: Vec<FieldOut> = Vec::new();
        let mut i: usize = 0;
        while i < self.fields.len()
            invariant
                i <= self.fields.len(),
                out@.len() == i,
                forall|j: int|
                    0 <= j < i ==> out@[j]@ == (FieldOutModel {
                        name: self@.fields[j].name,
                        value: spec_eval_field(registry@, row@, self@.fields[j]),
                    }),
            decreases self.fields.len() - i,
        {
            let plan = &self.fields[i];
            let value = eval_field(registry, row, plan);
            out.push(FieldOut { name: plan.name.clone(), value });
            i += 1;
        }
        let r = Instance { fields: out };
        proof {
            assert(r@ =~= instance_model(registry@, row@, self@.fields));
        }
        r
    }

    /// The may-fail generated procedure. Its signature advertises failure,
    /// but by the absorbing policy it never exercises it: every row maps to
    /// `Ok` of exactly what `from_row` yields.
    pub fn try_from_row(&self, registry: &Registry, row: &Row) -> (r: Result<Instance, MapperError>)
        ensures
            r is Ok,
            (r matches Ok(inst) ==> inst@ == instance_model(registry@, row@, self@.fields)),
    {
        Ok(self.from_row(registry, row))
    }
}

/// Optional-wrapped fields absorb failure: when the named column is absent,
/// or present but its value does not decode as the effective source type, the
/// field resolves to the empty optional — never a propagated error.
pub proof fn lemma_optional_absorbs_failure(reg: RegistryModel, row: RowModel, plan: FieldPlanModel)
    requires
        plan.optional,
        (match lookup_column(row, plan.column) {
            Some(v) => spec_decode(reg, plan.source, v) is None,
            None => true,
        }),
    ensures
        spec_eval_field(reg, row, plan) == FieldValueModel::Empty,
{
}

/// Non-optional fields absorb failure into the declared type's registered
/// default value: when the named column is absent, or present but its value
/// does not decode as the effective source type, the field resolves to that
/// default.
pub proof fn lemma_default_on_failure(
    reg: RegistryModel,
    row: RowModel,
    plan: FieldPlanModel,
    dflt: ValueModel,
)
    requires
        !plan.optional,
        lookup_default(reg, plan.declared) == Some(dflt),
        (match lookup_column(row, plan.column) {
            Some(v) => spec_decode(reg, plan.source, v) is None,
            None => true,
        }),
    ensures
        spec_eval_field(reg, row, plan) == FieldValueModel::Filled(dflt),
{
}

/// A failed fallible conversion is folded into the same fallback as column
/// absence — never escalated to an error.
pub proof fn lemma_conversion_failure_absorbed(
    reg: RegistryModel,
    row: RowModel,
    plan: FieldPlanModel,
    v: ValueModel,
    w: ValueModel,
)
    requires
        lookup_column(row, plan.column) == Some(v),
        spec_decode(reg, plan.source, v) == Some(FieldValueModel::Filled(w)),
        spec_convert(reg, plan.conversion, plan.declared, w) is None,
    ensures
        spec_eval_field(reg, row, plan) == spec_fallback(reg, plan),
{
}

proof fn lemma_field_constraints_in_all(fields: Seq<FieldModel>, i: int, k: int)
    requires
        0 <= i < fields.len(),
        0 <= k < field_constraints_model(extract_model(fields[i])).len(),
    ensures
        fields_constraints_model(fields).contains(
            field_constraints_model(extract_model(fields[i]))[k],
        ),
    decreases fields.len(),
{
    let chunk = field_constraints_model(extract_model(fields.last()));
    let rest = fields_constraints_model(fields.drop_last());
    if i == fields.len() - 1 {
        assert(fields[i] == fields.last());
        assert(fields_constraints_model(fields)[rest.len() + k] == chunk[k]);
    } else {
        lemma_field_constraints_in_all(fields.drop_last(), i, k);
        assert(fields.drop_last()[i] == fields[i]);
        let c = field_constraints_model(extract_model(fields[i]))[k];
        let j = choose|j: int| 0 <= j < rest.len() && rest[j] == c;
        assert(fields_constraints_model(fields)[j] == c);
    }
}

/// The constraint set does its job: a compiled mapper requires a default
/// value for every non-optional field, so a registry that satisfies the
/// mapper's constraints supplies the fallback default — the null-value stopgap
/// of `spec_fallback` is never reached under a satisfying registry.
pub proof fn lemma_satisfied_registry_supplies_defaults(
    reg: RegistryModel,
    s: StructureModel,
    i: int,
)
    requires
        registry_satisfies(reg, mapper_model(s).constraints),
        0 <= i < s.fields.len(),
        !mapper_model(s).fields[i].optional,
    ensures
        lookup_default(reg, mapper_model(s).fields[i].declared) is Some,
{
    let ef = extract_model(s.fields[i]);
    let cs = field_constraints_model(ef);
    let target = render_model(ef.declared);
    assert(mapper_model(s).fields[i] == plan_model(ef));
    assert(cs.last() == ConstraintModel::HasDefault(target));
    lemma_field_constraints_in_all(s.fields, i, cs.len() - 1);
    let all = mapper_model(s).constraints;
    let tail = fields_constraints_model(s.fields);
    let j = choose|j: int|
        0 <= j < tail.len() && tail[j] == ConstraintModel::HasDefault(target);
    assert(all[all.len() - tail.len() + j] == ConstraintModel::HasDefault(target));
    assert(constraint_satisfied(reg, ConstraintModel::HasDefault(target)));
}

} // verus!
