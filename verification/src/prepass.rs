use vstd::prelude::*;

use crate::schema::{FieldModel, RawField, RawStructure, StructureModel};
use crate::types::{
    TypeExpr, TypeModel, is_option_model, is_option_type, lemma_option_model_is_option,
    option_model_of, option_of,
};

verus! {

/// The pre-pass on one type: an already-optional type is left untouched, any
/// other type is wrapped in the optional wrapper.
pub open spec fn wrap_type_model(t: TypeModel) -> TypeModel {
    if is_option_model(t) {
        t
    } else {
        option_model_of(t)
    }
}

pub open spec fn wrap_field_model(f: FieldModel) -> FieldModel {
    FieldModel { ty: wrap_type_model(f.ty), ..f }
}

/// The pre-pass over a whole structure, switched by `transform`: when enabled,
/// every field's declared type is optional-wrapped unless it already is the
/// optional wrapper. The pass knows nothing of per-field directives.
pub open spec fn prepass_model(s: StructureModel, transform: bool) -> StructureModel {
    if transform {
        StructureModel { fields: s.fields.map_values(|f: FieldModel| wrap_field_model(f)), ..s }
    } else {
        s
    }
}

fn wrap_field(field: RawField) -> (r: RawField)
    ensures
        r@ == wrap_field_model(field@),
{
    if is_option_type(&field.ty) {
        field
    } else {
        RawField {
            name: field.name,
            ty: option_of(field.ty),
            from: field.from,
            try_from: field.try_from,
            rename: field.rename,
            attrs: field.attrs,
        }
    }
}

/// The structure-wide pre-pass, switched by `transform`: when enabled, every
/// field whose declared type is not already the optional wrapper is rewritten
/// to the optional-wrapped version of that type. When disabled, the structure
/// passes through unchanged.
pub fn from_row(structure: RawStructure, transform: bool) -> (r: RawStructure)
    ensures
        r@ == prepass_model(structure@, transform),
{
    if !transform {
        return structure;
    }
    let ghost smodel = structure@;
    let RawStructure { name, fields, constraints } = structure;
    let mut remaining = fields;
    let mut wrapped: Vec<RawField> = Vec::new();
    while remaining.len() > 0
        invariant
            wrapped@.len() + remaining@.len() == smodel.fields.len(),
            forall|j: int|
                0 <= j < remaining@.len() ==> remaining@[j]@ == smodel.fields[wrapped@.len() + j],
            forall|j: int|
                0 <= j < wrapped@.len() ==> wrapped@[j]@ == wrap_field_model(smodel.fields[j]),
        decreases remaining.len(),
    {
        let f = remaining.remove(0);
        wrapped.push(wrap_field(f));
    }
    let r = RawStructure { name, fields: wrapped, constraints };
    proof {
        assert(r@.fields =~= prepass_model(smodel, transform).fields);
        assert(r@ == prepass_model(smodel, transform));
    }
    r
}

/// Wrapping a single type is idempotent: a wrapped type is itself the
/// optional wrapper, so wrapping it again changes nothing.
pub proof fn lemma_wrap_type_idempotent(t: TypeModel)
    ensures
        wrap_type_model(wrap_type_model(t)) == wrap_type_model(t),
{
    if !is_option_model(t) {
        lemma_option_model_is_option(t);
    }
}

/// Running the pre-pass twice on a structure is the same as running it once:
/// already-optional fields are left untouched.
pub proof fn lemma_prepass_idempotent(s: StructureModel, transform: bool)
    ensures
        prepass_model(prepass_model(s, transform), transform) == prepass_model(s, transform),
{
    if transform {
        let once = prepass_model(s, transform);
        let twice = prepass_model(once, transform);
        assert forall|i: int| 0 <= i < twice.fields.len() implies twice.fields[i]
            == once.fields[i] by {
            lemma_wrap_type_idempotent(s.fields[i].ty);
        }
        assert(twice.fields =~= once.fields);
    }
}

} // verus!
