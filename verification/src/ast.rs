//! The input data model: type expressions, annotations, field descriptors
//! and whole record declarations, together with their mathematical views.
//!
//! A record declaration arrives from the host's structural parser already
//! broken into plain values; nothing here reads source text. Type
//! expressions are kept purely syntactic: the analysis never resolves a
//! name to what it denotes, so a renamed import of a wrapper type is
//! (deliberately) not recognized as that wrapper.

use vstd::prelude::*;

verus! {

/// A type expression, as far as the analysis reads it: either a named path
/// (segment names, with the generic type arguments of its final segment)
/// or any other syntactic form, carried as opaque text.
pub enum TypeExpr {
    Path { segments: Vec<String>, args: Vec<TypeExpr> },
    Other { text: String },
}

/// The mathematical value of a [`TypeExpr`].
#[verifier::ext_equal]
pub enum TyView {
    Path { segments: Seq<Seq<char>>, args: Seq<TyView> },
    Other { text: Seq<char> },
}

/// The view of one type expression.
pub open spec fn ty_view(t: TypeExpr) -> TyView
    decreases t,
{
    match t {
        TypeExpr::Path { segments, args } => TyView::Path {
            segments: Seq::new(segments@.len(), |i: int| segments@[i]@),
            args: ty_views(args@),
        },
        TypeExpr::Other { text } => TyView::Other { text: text@ },
    }
}

/// The views of a sequence of type expressions, elementwise.
pub open spec fn ty_views(ts: Seq<TypeExpr>) -> Seq<TyView>
    decreases ts,
{
    if ts.len() == 0 {
        Seq::empty()
    } else {
        ty_views(ts.drop_last()).push(ty_view(ts.last()))
    }
}

pub broadcast proof fn lemma_ty_views_len(ts: Seq<TypeExpr>)
    ensures
        (#[trigger] ty_views(ts)).len() == ts.len(),
    decreases ts.len(),
{
    if ts.len() > 0 {
        lemma_ty_views_len(ts.drop_last());
    }
}

pub broadcast proof fn lemma_ty_views_index(ts: Seq<TypeExpr>, i: int)
    requires
        0 <= i < ts.len(),
    ensures
        #[trigger] ty_views(ts)[i] == ty_view(ts[i]),
    decreases ts.len(),
{
    lemma_ty_views_len(ts.drop_last());
    if i < ts.len() - 1 {
        lemma_ty_views_index(ts.drop_last(), i);
    }
}

impl View for TypeExpr {
    type V = TyView;

    open spec fn view(&self) -> TyView {
        ty_view(*self)
    }
}

/// The value carried by one `key = value` (or direct `= value`) pairing
/// inside an annotation: a string literal's content, or the raw text of
/// any other expression.
pub enum MetaValue {
    StrLit { value: String },
    OtherExpr { text: String },
}

/// The text a [`MetaValue`] carries, whichever form it has.
pub open spec fn meta_text(v: MetaValue) -> Seq<char> {
    match v {
        MetaValue::StrLit { value } => value@,
        MetaValue::OtherExpr { text } => text@,
    }
}

/// One `key = value` pairing inside a parenthesized annotation body.
pub struct MetaItem {
    pub key: String,
    pub value: MetaValue,
}

/// The body shape of an annotation: a parenthesized key/value list, a
/// direct `= value` assignment, or a bare name.
pub enum AnnotationForm {
    KeyList { items: Vec<MetaItem> },
    DirectValue { value: MetaValue },
    Bare,
}

/// One raw annotation attached to a field: its namespace (the annotation's
/// path) and its body.
pub struct Annotation {
    pub namespace: String,
    pub form: AnnotationForm,
}

/// One declared field: its name, its declared type expression, and its
/// raw annotations in source order.
pub struct FieldDescriptor {
    pub name: String,
    pub ty: TypeExpr,
    pub annotations: Vec<Annotation>,
}

/// The body of a record declaration. Only named fields are supported;
/// the other shapes are carried so that generation can reject them with
/// an explicit diagnostic instead of guessing.
pub enum RecordBody {
    NamedFields { fields: Vec<FieldDescriptor> },
    TupleFields,
    UnitFields,
    NotStruct,
}

/// A whole record declaration, as handed over by the structural parser.
pub struct RecordDecl {
    pub name: String,
    pub generics: Vec<String>,
    pub body: RecordBody,
}

/// Where a diagnostic is anchored: the declaration as a whole, or one
/// annotation of one field (both counted from zero, in source order).
/// The host maps these indices back to real source spans.
#[derive(PartialEq, Eq, Structural, Clone, Copy)]
pub enum DiagAnchor {
    Declaration,
    FieldAnnotation { field: usize, annotation: usize },
}

/// A fatal, generation-aborting diagnostic: a human-readable message and
/// the place it is anchored to.
pub struct Diagnostic {
    pub message: String,
    pub anchor: DiagAnchor,
}

/// The view of an optional string: the characters, if one is there.
pub open spec fn opt_str_view(o: Option<String>) -> Option<Seq<char>> {
    match o {
        Some(s) => Some(s@),
        None => None,
    }
}

/// True if `a`'s characters are exactly `lit`'s.
pub fn str_is(a: &String, lit: &str) -> (r: bool)
    ensures
        r == (a@ == lit@),
{
    let owned: String = lit.to_owned();
    *a == owned
}

/// True if the two strings hold the same characters.
pub fn string_eq(a: &String, b: &String) -> (r: bool)
    ensures
        r == (a@ == b@),
{
    *a == *b
}

/// A deep copy of a type expression, equal to the original under the view.
#[verifier::loop_isolation(false)]
pub fn clone_type(t: &TypeExpr) -> (r: TypeExpr)
    ensures
        r@ == t@,
    decreases *t,
{
    match t {
        TypeExpr::Other { text } => TypeExpr::Other { text: text.clone() },
        TypeExpr::Path { segments, args } => {
            let mut segs: Vec<String> = Vec::new();
            let mut i: usize = 0;
            while i < segments.len()
                invariant
                    i <= segments@.len(),
                    segs@.len() == i,
                    forall|j: int| 0 <= j < i ==> segs@[j]@ == segments@[j]@,
                decreases segments@.len() - i,
            {
                segs.push(segments[i].clone());
                i = i + 1;
            }
            let mut inner: Vec<TypeExpr> = Vec::new();
            let mut k: usize = 0;
            while k < args.len()
                invariant
                    k <= args@.len(),
                    inner@.len() == k,
                    forall|j: int| 0 <= j < k ==> inner@[j]@ == args@[j]@,
                decreases args@.len() - k,
            {
                proof {
                    assert(decreases_to!(*t => t->args));
                    assert(t->args == *args);
                    assert(decreases_to!(*args => args[k as int]));
                }
                inner.push(clone_type(&args[k]));
                k = k + 1;
            }
            let r = TypeExpr::Path { segments: segs, args: inner };
            proof {
                broadcast use lemma_ty_views_len, lemma_ty_views_index;

                assert(Seq::new(segs@.len(), |i: int| segs@[i]@)
                    =~= Seq::new(segments@.len(), |i: int| segments@[i]@));
                assert(ty_views(inner@) =~= ty_views(args@));
                assert(r@ =~= t@);
            }
            r
        },
    }
}

} // verus!
