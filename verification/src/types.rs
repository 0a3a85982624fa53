use vstd::prelude::*;

verus! {

/// A structural type expression, as the schema front end hands it over.
///
/// Only the outermost constructor is ever inspected. A plain path keeps its
/// segment identifiers and at most one type argument on the last segment —
/// the only shape the engine itself builds or unwraps. Every other syntactic
/// form is carried verbatim and never looked into.
#[derive(Debug, PartialEq, Eq)]
pub enum TypeExpr {
    Path { leading_colon: bool, segments: Vec<String>, argument: Option<Box<TypeExpr>> },
    Verbatim(String),
}

/// The mathematical model of a `TypeExpr`.
pub enum TypeModel {
    Path { leading_colon: bool, segments: Seq<Seq<char>>, argument: Option<Box<TypeModel>> },
    Verbatim(Seq<char>),
}

/// The model of a list of path segments: each segment as its characters.
pub open spec fn segments_model(segments: Seq<String>) -> Seq<Seq<char>> {
    segments.map_values(|s: String| s@)
}

pub open spec fn type_model(t: TypeExpr) -> TypeModel
    decreases t,
{
    match t {
        TypeExpr::Path { leading_colon, segments, argument } => TypeModel::Path {
            leading_colon,
            segments: segments_model(segments@),
            argument: match argument {
                Some(inner) => Some(Box::new(type_model(*inner))),
                None => None,
            },
        },
        TypeExpr::Verbatim(text) => TypeModel::Verbatim(text@),
    }
}

impl View for TypeExpr {
    type V = TypeModel;

    open spec fn view(&self) -> TypeModel {
        type_model(*self)
    }
}

/// Whether a type is structurally the optional wrapper: a path of exactly one
/// segment, named literally `Option` — no qualifying path segment. The check
/// is purely syntactic, so a local type that is also named `Option` is
/// classified the same way, while a module-qualified spelling such as
/// `std::option::Option` is not.
pub open spec fn is_option_model(t: TypeModel) -> bool {
    match t {
        TypeModel::Path { segments, .. } => segments.len() == 1 && segments[0] == "Option"@,
        TypeModel::Verbatim(_) => false,
    }
}

pub fn is_option_type(t: &TypeExpr) -> (r: bool)
    ensures
        r == is_option_model(t@),
{
    match t {
        TypeExpr::Path { segments, .. } => {
            if segments.len() != 1 {
                false
            } else {
                let needle = String::from_str("Option");
                let first: &String = &segments[0];
                *first == needle
            }
        },
        TypeExpr::Verbatim(_) => false,
    }
}

/// The model of the optional wrapper applied to a type: `Option<T>`, spelled
/// with the bare name so that the wrapped type is itself detected as the
/// optional wrapper.
pub open spec fn option_model_of(t: TypeModel) -> TypeModel {
    TypeModel::Path {
        leading_colon: false,
        segments: seq!["Option"@],
        argument: Some(Box::new(t)),
    }
}

/// Wraps a type in the optional wrapper, spelled `Option<T>`.
pub fn option_of(t: TypeExpr) -> (r: TypeExpr)
    ensures
        r@ == option_model_of(t@),
{
    let mut segments: Vec<String> = Vec::new();
    segments.push(String::from_str("Option"));
    let r = TypeExpr::Path { leading_colon: false, segments, argument: Some(Box::new(t)) };
    proof {
        assert(r@ matches TypeModel::Path { segments: s, .. } && s =~= seq!["Option"@]);
    }
    r
}

/// A wrapped type is itself the optional wrapper.
pub proof fn lemma_option_model_is_option(t: TypeModel)
    ensures
        is_option_model(option_model_of(t)),
{
    assert(seq!["Option"@][0] == "Option"@);
}

/// The textual form of a path: segments joined by `::`.
pub open spec fn join_path(segments: Seq<Seq<char>>) -> Seq<char>
    decreases segments.len(),
{
    if segments.len() == 0 {
        Seq::empty()
    } else if segments.len() == 1 {
        segments[0]
    } else {
        join_path(segments.drop_last()) + "::"@ + segments.last()
    }
}

/// The textual form of a type expression.
pub open spec fn render_model(t: TypeModel) -> Seq<char>
    decreases t,
{
    match t {
        TypeModel::Path { leading_colon, segments, argument } => {
            let head = if leading_colon {
                "::"@ + join_path(segments)
            } else {
                join_path(segments)
            };
            match argument {
                Some(inner) => head + "<"@ + render_model(*inner) + ">"@,
                None => head,
            }
        },
        TypeModel::Verbatim(text) => text,
    }
}

/// Renders a type expression as text; type identity elsewhere (constraint
/// texts, registry keys) is this rendered form.
pub fn render(t: &TypeExpr) -> (r: String)
    ensures
        r@ == render_model(t@),
    decreases *t,
{
    match t {
        TypeExpr::Path { leading_colon, segments, argument } => {
            let mut out = if *leading_colon {
                String::from_str("::")
            } else {
                String::new()
            };
            let ghost lead: Seq<char> = if *leading_colon {
                "::"@
            } else {
                Seq::empty()
            };
            let mut i: usize = 0;
            while i < segments.len()
                invariant
                    i <= segments.len(),
                    out@ =~= lead + join_path(segments_model(segments@).take(i as int)),
                decreases segments.len() - i,
            {
                if i > 0 {
                    out.append("::");
                }
                out.append(segments[i].as_str());
                proof {
                    let sm = segments_model(segments@);
                    assert(sm.take(i + 1).drop_last() =~= sm.take(i as int));
                    assert(sm.take(i + 1).last() == sm[i as int]);
                    assert(out@ =~= lead + join_path(sm.take(i + 1)));
                }
                i += 1;
            }
            proof {
                assert(segments_model(segments@).take(segments@.len() as int) =~= segments_model(
                    segments@,
                ));
            }
            match argument {
                Some(inner) => {
                    out.append("<");
                    let inner_text = render(&**inner);
                    out.append(inner_text.as_str());
                    out.append(">");
                },
                None => {},
            }
            proof {
                assert(out@ =~= render_model(t@));
            }
            out
        },
        TypeExpr::Verbatim(text) => text.clone(),
    }
}

/// Relies on syn::parse_str::<syn::Type> to judge whether the text is a
/// syntactically valid type expression. Nothing is promised of the outcome:
/// syn lexes through proc-macro2, which may use either the compiler's lexer
/// or its own, so validity is treated as a per-call verdict, and the callers'
/// contracts state what each verdict leads to.
#[verifier::external_body]
pub(crate) fn type_text_is_valid(text: &str) -> bool {
    syn::parse_str::<syn::Type>(text).is_ok()
}

} // verus!
