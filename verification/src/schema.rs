use vstd::prelude::*;

use crate::types::{TypeExpr, TypeModel, is_option_model};

verus! {

/// The model of an optional piece of text.
pub open spec fn text_option_model(o: Option<String>) -> Option<Seq<char>> {
    match o {
        Some(text) => Some(text@),
        None => None,
    }
}

/// The model of a list of verbatim texts.
pub open spec fn texts_model(texts: Seq<String>) -> Seq<Seq<char>> {
    texts.map_values(|s: String| s@)
}

/// One field as the front end hands it over: the identifier, the declared
/// type, the raw directive texts (`from`, `try_from`, `rename`), each present
/// or absent, and the field's decorative metadata (documentation and the
/// like), carried verbatim and echoed into the generated output.
#[derive(Debug, PartialEq, Eq)]
pub struct RawField {
    pub name: String,
    pub ty: TypeExpr,
    pub from: Option<String>,
    pub try_from: Option<String>,
    pub rename: Option<String>,
    pub attrs: Vec<String>,
}

pub struct FieldModel {
    pub name: Seq<char>,
    pub ty: TypeModel,
    pub from: Option<Seq<char>>,
    pub try_from: Option<Seq<char>>,
    pub rename: Option<Seq<char>>,
    pub attrs: Seq<Seq<char>>,
}

impl View for RawField {
    type V = FieldModel;

    open spec fn view(&self) -> FieldModel {
        FieldModel {
            name: self.name@,
            ty: self.ty@,
            from: text_option_model(self.from),
            try_from: text_option_model(self.try_from),
            rename: text_option_model(self.rename),
            attrs: texts_model(self.attrs@),
        }
    }
}

/// The whole target structure: its name, its fields in declaration order, and
/// the structure's own pre-existing constraints, carried verbatim.
#[derive(Debug, PartialEq, Eq)]
pub struct RawStructure {
    pub name: String,
    pub fields: Vec<RawField>,
    pub constraints: Vec<String>,
}

pub struct StructureModel {
    pub name: Seq<char>,
    pub fields: Seq<FieldModel>,
    pub constraints: Seq<Seq<char>>,
}

impl View for RawStructure {
    type V = StructureModel;

    open spec fn view(&self) -> StructureModel {
        StructureModel {
            name: self.name@,
            fields: self.fields@.map_values(|f: RawField| f@),
            constraints: self.constraints@.map_values(|c: String| c@),
        }
    }
}

/// How a field's value is obtained from its column: straight from the column,
/// or decoded as a named source type and then converted, unconditionally or
/// fallibly.
#[derive(Debug, PartialEq, Eq)]
pub enum SourceMode {
    Direct,
    ConvertFrom(String),
    ConvertTryFrom(String),
}

pub enum SourceModeModel {
    Direct,
    ConvertFrom(Seq<char>),
    ConvertTryFrom(Seq<char>),
}

impl View for SourceMode {
    type V = SourceModeModel;

    open spec fn view(&self) -> SourceModeModel {
        match self {
            SourceMode::Direct => SourceModeModel::Direct,
            SourceMode::ConvertFrom(text) => SourceModeModel::ConvertFrom(text@),
            SourceMode::ConvertTryFrom(text) => SourceModeModel::ConvertTryFrom(text@),
        }
    }
}

/// One field's resolved mapping configuration. `source_mode` is `Direct`
/// exactly when neither a `from` nor a `try_from` directive is present;
/// `column_name` defaults to the field's own name unless a rename directive
/// overrides it; `is_optional_wrapper` records the syntactic optional check
/// on the declared type; `attrs` is the field's decorative metadata, passed
/// through untouched.
#[derive(Debug, PartialEq, Eq)]
pub struct FieldSpec {
    pub name: String,
    pub declared_type: TypeExpr,
    pub source_mode: SourceMode,
    pub column_name: String,
    pub is_optional_wrapper: bool,
    pub attrs: Vec<String>,
}

pub struct FieldSpecModel {
    pub name: Seq<char>,
    pub declared: TypeModel,
    pub mode: SourceModeModel,
    pub column: Seq<char>,
    pub optional: bool,
    pub attrs: Seq<Seq<char>>,
}

impl View for FieldSpec {
    type V = FieldSpecModel;

    open spec fn view(&self) -> FieldSpecModel {
        FieldSpecModel {
            name: self.name@,
            declared: self.declared_type@,
            mode: self.source_mode@,
            column: self.column_name@,
            optional: self.is_optional_wrapper,
            attrs: texts_model(self.attrs@),
        }
    }
}

/// A resolved field specification is well formed when its optional flag
/// agrees with the syntactic check on its declared type.
pub open spec fn field_spec_wf(fs: FieldSpecModel) -> bool {
    fs.optional == is_option_model(fs.declared)
}

/// A directive well-formedness failure: a field supplied both `from` and
/// `try_from`.
#[derive(Debug, Clone, Copy, PartialEq, Eq, Structural)]
pub enum ValidationError {
    ConflictingDirectives,
}

/// A schema-level failure, fatal to the structure's compilation: a directive
/// text that is not a valid type expression, or a validation failure.
#[derive(Debug, Clone, Copy, PartialEq, Eq, Structural)]
pub enum SchemaError {
    UnparsableType,
    Invalid(ValidationError),
}

/// A runtime mapping failure. Reserved for conversion-failure propagation:
/// the generated fallible procedure advertises it but, by the absorbing
/// policy of the expression generator, never produces it.
#[derive(Debug, Clone, Copy, PartialEq, Eq, Structural)]
pub enum MapperError {
    ConversionFailed,
}

} // verus!
