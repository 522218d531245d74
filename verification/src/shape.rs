//! The type-shape matcher: classifies a field's declared type expression
//! as plain, optional-wrapped or list-wrapped.
//!
//! Classification is purely syntactic. A wrapper is recognized only as a
//! single-segment named path with exactly one generic argument whose name
//! is the recognized one; a renamed import or a fully qualified spelling
//! of the same wrapper is classified as plain. That is an accepted
//! limitation, not a defect: the matcher never resolves what a name
//! denotes.

use vstd::prelude::*;

use crate::ast::lemma_ty_views_index;
use crate::ast::lemma_ty_views_len;
use crate::ast::str_is;
use crate::ast::ty_view;
use crate::ast::ty_views;
use crate::ast::TyView;
use crate::ast::TypeExpr;

verus! {

/// The name recognized as the optional wrapper.
pub open spec fn option_name() -> Seq<char> {
    "Option"@
}

/// The name recognized as the list wrapper.
pub open spec fn vec_name() -> Seq<char> {
    "Vec"@
}

/// True if `t` is a single-segment named path called `name` with exactly
/// one generic argument.
pub open spec fn is_wrapper(t: TyView, name: Seq<char>) -> bool {
    &&& t matches TyView::Path { segments, args }
    &&& segments.len() == 1
    &&& segments[0] == name
    &&& args.len() == 1
}

/// The single generic argument of a recognized wrapper.
pub open spec fn wrapper_arg(t: TyView) -> TyView
    recommends
        t is Path,
{
    t->args[0]
}

/// True if `t` is a bare reference to the name `name`: a single-segment
/// named path without generic arguments.
pub open spec fn is_bare_name(t: TyView, name: Seq<char>) -> bool {
    &&& t matches TyView::Path { segments, args }
    &&& segments.len() == 1
    &&& segments[0] == name
    &&& args.len() == 0
}

/// The classified shape of one declared field type. Borrowed from the
/// field descriptor; recomputed per field, never cached.
pub enum TypeShape<'a> {
    Plain { ty: &'a TypeExpr },
    Optional { inner: &'a TypeExpr },
    List { inner: &'a TypeExpr },
}

/// The mathematical value of a [`TypeShape`].
#[verifier::ext_equal]
pub enum ShapeView {
    Plain { ty: TyView },
    Optional { inner: TyView },
    List { inner: TyView },
}

impl<'a> View for TypeShape<'a> {
    type V = ShapeView;

    open spec fn view(&self) -> ShapeView {
        match self {
            TypeShape::Plain { ty } => ShapeView::Plain { ty: ty@ },
            TypeShape::Optional { inner } => ShapeView::Optional { inner: inner@ },
            TypeShape::List { inner } => ShapeView::List { inner: inner@ },
        }
    }
}

/// The shape of a type expression: optional if it is the recognized
/// optional wrapper, else a list if it is the recognized list wrapper,
/// else plain with the expression unchanged.
pub open spec fn shape_of(t: TyView) -> ShapeView {
    if is_wrapper(t, option_name()) {
        ShapeView::Optional { inner: wrapper_arg(t) }
    } else if is_wrapper(t, vec_name()) {
        ShapeView::List { inner: wrapper_arg(t) }
    } else {
        ShapeView::Plain { ty: t }
    }
}

/// The single generic argument of `ty` if `ty` is the wrapper named
/// `name`, and nothing otherwise.
pub(crate) fn unwrap_named<'a>(ty: &'a TypeExpr, name: &str) -> (r: Option<&'a TypeExpr>)
    ensures
        match r {
            Some(inner) => is_wrapper(ty@, name@) && inner@ == wrapper_arg(ty@),
            None => !is_wrapper(ty@, name@),
        },
{
    proof {
        broadcast use lemma_ty_views_len, lemma_ty_views_index;
    }
    match ty {
        TypeExpr::Path { segments, args } => {
            if segments.len() == 1 && args.len() == 1 && str_is(&segments[0], name) {
                proof {
                    assert(ty@ matches TyView::Path { segments: sv, args: av }
                        && av == ty_views(args@) && sv.len() == 1 && av.len() == 1);
                    assert(ty_views(args@)[0] == ty_view(args@[0]));
                }
                Some(&args[0])
            } else {
                None
            }
        },
        TypeExpr::Other { .. } => None,
    }
}

/// The inner type of the optional wrapper, if `ty` is one.
pub fn unwrap_option<'a>(ty: &'a TypeExpr) -> (r: Option<&'a TypeExpr>)
    ensures
        match r {
            Some(inner) => is_wrapper(ty@, option_name()) && inner@ == wrapper_arg(ty@),
            None => !is_wrapper(ty@, option_name()),
        },
{
    unwrap_named(ty, "Option")
}

/// The inner type of the list wrapper, if `ty` is one.
pub fn unwrap_vector<'a>(ty: &'a TypeExpr) -> (r: Option<&'a TypeExpr>)
    ensures
        match r {
            Some(inner) => is_wrapper(ty@, vec_name()) && inner@ == wrapper_arg(ty@),
            None => !is_wrapper(ty@, vec_name()),
        },
{
    unwrap_named(ty, "Vec")
}

/// Classify one declared field type.
pub fn match_shape<'a>(ty: &'a TypeExpr) -> (s: TypeShape<'a>)
    ensures
        s@ == shape_of(ty@),
{
    match unwrap_option(ty) {
        Some(inner) => TypeShape::Optional { inner },
        None => match unwrap_vector(ty) {
            Some(inner) => TypeShape::List { inner },
            None => TypeShape::Plain { ty },
        },
    }
}

} // verus!
