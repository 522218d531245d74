//! The builder synthesizer: from a record declaration it derives the
//! staged-construction companion — the companion type's fields, the
//! per-field setter or accumulation methods, and the finalization steps —
//! as a tree of fragments for the host's renderer to serialize.
//!
//! Per declared field, exactly one companion field, one setter fragment
//! and one finalization step are produced, in declaration order: no field
//! is dropped and none is invented. An optional-shaped field is stored as
//! declared and never required; a list-shaped field with an alias
//! directive is stored as declared (the list itself is the accumulator)
//! and gains an accumulation method named by the alias instead of a
//! whole-value setter; every other field is stored optional-wrapped and
//! must be set before finalization succeeds.

use vstd::prelude::*;
use vstd::string::StringExecFns;

use crate::ast::clone_type;
use crate::ast::opt_str_view;
use crate::ast::DiagAnchor;
use crate::ast::Diagnostic;
use crate::ast::FieldDescriptor;
use crate::ast::RecordBody;
use crate::ast::RecordDecl;
use crate::ast::TyView;
use crate::ast::TypeExpr;
use crate::directive::alias_scan;
use crate::directive::expected_alias_form;
use crate::directive::unwrap_vec_key;
use crate::directive::DirectiveScan;
use crate::shape::match_shape;
use crate::shape::shape_of;
use crate::shape::ShapeView;
use crate::shape::TypeShape;

verus! {

/// The message reported when the declaration is not a struct with named
/// fields.
pub open spec fn unsupported_shape_msg() -> Seq<char> {
    "expected a struct with named fields"@
}

/// How the companion type stores one field: under the declared type
/// unchanged, or wrapped in the optional wrapper (absent until set).
pub enum StoredType {
    AsDeclared { ty: TypeExpr },
    OptionWrapped { ty: TypeExpr },
}

/// The mathematical value of a [`StoredType`].
#[verifier::ext_equal]
pub enum StoredView {
    AsDeclared { ty: TyView },
    OptionWrapped { ty: TyView },
}

impl View for StoredType {
    type V = StoredView;

    open spec fn view(&self) -> StoredView {
        match self {
            StoredType::AsDeclared { ty } => StoredView::AsDeclared { ty: ty@ },
            StoredType::OptionWrapped { ty } => StoredView::OptionWrapped { ty: ty@ },
        }
    }
}

/// One field of the companion type.
pub struct CompanionField {
    pub name: String,
    pub stored: StoredType,
}

/// The mathematical value of a [`CompanionField`].
#[verifier::ext_equal]
pub struct CompanionFieldView {
    pub name: Seq<char>,
    pub stored: StoredView,
}

impl View for CompanionField {
    type V = CompanionFieldView;

    open spec fn view(&self) -> CompanionFieldView {
        CompanionFieldView { name: self.name@, stored: self.stored@ }
    }
}

/// One synthesized method: a whole-value setter named after the field,
/// or a single-element accumulation method named by the alias directive.
/// Both are chainable; a whole-value setter overwrites, an accumulation
/// method appends.
pub enum SetterFragment {
    WholeValue { field: String, param_ty: TypeExpr },
    Accumulate { field: String, method: String, elem_ty: TypeExpr },
}

/// The mathematical value of a [`SetterFragment`].
#[verifier::ext_equal]
pub enum SetterView {
    WholeValue { field: Seq<char>, param_ty: TyView },
    Accumulate { field: Seq<char>, method: Seq<char>, elem_ty: TyView },
}

impl View for SetterFragment {
    type V = SetterView;

    open spec fn view(&self) -> SetterView {
        match self {
            SetterFragment::WholeValue { field, param_ty } => SetterView::WholeValue {
                field: field@,
                param_ty: param_ty@,
            },
            SetterFragment::Accumulate { field, method, elem_ty } => SetterView::Accumulate {
                field: field@,
                method: method@,
                elem_ty: elem_ty@,
            },
        }
    }
}

/// One finalization step: copy the companion value directly (optional
/// fields and aliased lists, which default to absent and empty), or take
/// the stored value and fail naming the field if it was never set.
pub enum FinalizeFragment {
    CopyDirect { field: String },
    TakeRequired { field: String },
}

/// The mathematical value of a [`FinalizeFragment`].
#[verifier::ext_equal]
pub enum FinalizeView {
    CopyDirect { field: Seq<char> },
    TakeRequired { field: Seq<char> },
}

impl View for FinalizeFragment {
    type V = FinalizeView;

    open spec fn view(&self) -> FinalizeView {
        match self {
            FinalizeFragment::CopyDirect { field } => FinalizeView::CopyDirect { field: field@ },
            FinalizeFragment::TakeRequired { field } => FinalizeView::TakeRequired {
                field: field@,
            },
        }
    }
}

/// The synthesized staged-construction companion, ready for rendering:
/// the companion type (named after the record), its fields, its methods,
/// and its finalization steps, all in field declaration order.
pub struct BuilderSynthesis {
    pub record_name: String,
    pub companion_name: String,
    pub fields: Vec<CompanionField>,
    pub setters: Vec<SetterFragment>,
    pub finalizers: Vec<FinalizeFragment>,
}

/// The builder-directive scan of one field's annotations.
pub open spec fn field_alias_scan(f: FieldDescriptor) -> DirectiveScan {
    alias_scan(f.annotations@)
}

/// How the companion stores a field of the given shape and alias.
pub open spec fn planned_stored(f: FieldDescriptor, alias: Option<Seq<char>>) -> StoredView {
    match shape_of(f.ty@) {
        ShapeView::Optional { .. } => StoredView::AsDeclared { ty: f.ty@ },
        ShapeView::List { .. } => if alias is Some {
            StoredView::AsDeclared { ty: f.ty@ }
        } else {
            StoredView::OptionWrapped { ty: f.ty@ }
        },
        ShapeView::Plain { .. } => StoredView::OptionWrapped { ty: f.ty@ },
    }
}

/// The method synthesized for a field of the given shape and alias.
pub open spec fn planned_setter(f: FieldDescriptor, alias: Option<Seq<char>>) -> SetterView {
    match shape_of(f.ty@) {
        ShapeView::Optional { inner } => SetterView::WholeValue {
            field: f.name@,
            param_ty: inner,
        },
        ShapeView::List { inner } => match alias {
            Some(method) => SetterView::Accumulate { field: f.name@, method, elem_ty: inner },
            None => SetterView::WholeValue { field: f.name@, param_ty: f.ty@ },
        },
        ShapeView::Plain { .. } => SetterView::WholeValue { field: f.name@, param_ty: f.ty@ },
    }
}

/// The finalization step synthesized for a field of the given shape and
/// alias.
pub open spec fn planned_finalizer(f: FieldDescriptor, alias: Option<Seq<char>>) -> FinalizeView {
    match shape_of(f.ty@) {
        ShapeView::Optional { .. } => FinalizeView::CopyDirect { field: f.name@ },
        ShapeView::List { .. } => if alias is Some {
            FinalizeView::CopyDirect { field: f.name@ }
        } else {
            FinalizeView::TakeRequired { field: f.name@ }
        },
        ShapeView::Plain { .. } => FinalizeView::TakeRequired { field: f.name@ },
    }
}

/// The first field (from `k` on) whose builder directive is malformed,
/// or the field count if none is.
pub open spec fn first_bad_alias(fields: Seq<FieldDescriptor>, k: int) -> int
    decreases fields.len() - k,
{
    if k < 0 || k >= fields.len() {
        fields.len() as int
    } else if field_alias_scan(fields[k]) is Bad {
        k
    } else {
        first_bad_alias(fields, k + 1)
    }
}

/// Everything a successful builder synthesis promises: the companion is
/// named after the record, and each declared field contributes exactly
/// one companion field, one setter fragment and one finalization step,
/// each the planned one for its shape and alias directive.
pub open spec fn builder_ok(decl: RecordDecl, s: BuilderSynthesis) -> bool {
    &&& decl.body matches RecordBody::NamedFields { fields }
    &&& s.record_name@ == decl.name@
    &&& s.companion_name@ == decl.name@ + "Builder"@
    &&& s.fields@.len() == fields@.len()
    &&& s.setters@.len() == fields@.len()
    &&& s.finalizers@.len() == fields@.len()
    &&& forall|i: int|
        0 <= i < fields@.len() ==> {
            let f = #[trigger] fields@[i];
            &&& field_alias_scan(f) matches DirectiveScan::Fine { found }
            &&& s.fields@[i]@ == (CompanionFieldView {
                name: f.name@,
                stored: planned_stored(f, found),
            })
            &&& s.setters@[i]@ == planned_setter(f, found)
            &&& s.finalizers@[i]@ == planned_finalizer(f, found)
        }
}

proof fn lemma_first_bad_from(fields: Seq<FieldDescriptor>, k: int, i: int)
    requires
        0 <= k <= i <= fields.len(),
        forall|j: int| k <= j < i ==> !(field_alias_scan(#[trigger] fields[j]) is Bad),
        i < fields.len() ==> field_alias_scan(fields[i]) is Bad,
    ensures
        first_bad_alias(fields, k) == if i < fields.len() {
            i
        } else {
            fields.len() as int
        },
    decreases i - k,
{
    if k < i {
        lemma_first_bad_from(fields, k + 1, i);
    }
}

/// Derive the staged-construction companion for one record declaration.
///
/// Succeeds exactly on a struct with named fields none of whose builder
/// directives is malformed; the synthesized fragments are then the
/// planned ones, field by field. Otherwise the whole generation fails
/// with one diagnostic: the unsupported record shape, or the first
/// malformed builder directive in declaration order, anchored to its
/// annotation.
#[verifier::loop_isolation(false)]
pub fn derive(decl: &RecordDecl) -> (r: Result<BuilderSynthesis, Diagnostic>)
    ensures
        (r is Ok) <==> match decl.body {
            RecordBody::NamedFields { fields } => first_bad_alias(fields@, 0) == fields@.len(),
            _ => false,
        },
        match r {
            Ok(s) => builder_ok(*decl, s),
            Err(d) => match decl.body {
                RecordBody::NamedFields { fields } => {
                    let i = first_bad_alias(fields@, 0);
                    &&& 0 <= i < fields@.len()
                    &&& field_alias_scan(fields@[i]) matches DirectiveScan::Bad { index }
                    &&& d.anchor == (DiagAnchor::FieldAnnotation {
                        field: i as usize,
                        annotation: index as usize,
                    })
                    &&& d.message@ == expected_alias_form()
                },
                _ => d.message@ == unsupported_shape_msg() && d.anchor == DiagAnchor::Declaration,
            },
        },
{
    let fields = match &decl.body {
        RecordBody::NamedFields { fields } => fields,
        _ => {
            return Err(
                Diagnostic {
                    message: "expected a struct with named fields".to_owned(),
                    anchor: DiagAnchor::Declaration,
                },
            );
        },
    };
    let mut comp_fields: Vec<CompanionField> = Vec::new();
    let mut setters: Vec<SetterFragment> = Vec::new();
    let mut finalizers: Vec<FinalizeFragment> = Vec::new();
    let mut i: usize = 0;
    while i < fields.len()
        invariant
            i <= fields@.len(),
            comp_fields@.len() == i,
            setters@.len() == i,
            finalizers@.len() == i,
            forall|j: int|
                0 <= j < i ==> {
                    let f = #[trigger] fields@[j];
                    &&& field_alias_scan(f) matches DirectiveScan::Fine { found }
                    &&& comp_fields@[j]@ == (CompanionFieldView {
                        name: f.name@,
                        stored: planned_stored(f, found),
                    })
                    &&& setters@[j]@ == planned_setter(f, found)
                    &&& finalizers@[j]@ == planned_finalizer(f, found)
                },
        decreases fields@.len() - i,
    {
        let f = &fields[i];
        let alias = match unwrap_vec_key(&f.annotations, i) {
            Ok(a) => a,
            Err(d) => {
                proof {
                    lemma_first_bad_from(fields@, 0, i as int);
                }
                return Err(d);
            },
        };
        match match_shape(&f.ty) {
            TypeShape::Optional { inner } => {
                comp_fields.push(
                    CompanionField {
                        name: f.name.clone(),
                        stored: StoredType::AsDeclared { ty: clone_type(&f.ty) },
                    },
                );
                setters.push(
                    SetterFragment::WholeValue {
                        field: f.name.clone(),
                        param_ty: clone_type(inner),
                    },
                );
                finalizers.push(FinalizeFragment::CopyDirect { field: f.name.clone() });
            },
            TypeShape::List { inner } => {
                match alias {
                    Some(method) => {
                        comp_fields.push(
                            CompanionField {
                                name: f.name.clone(),
                                stored: StoredType::AsDeclared { ty: clone_type(&f.ty) },
                            },
                        );
                        setters.push(
                            SetterFragment::Accumulate {
                                field: f.name.clone(),
                                method,
                                elem_ty: clone_type(inner),
                            },
                        );
                        finalizers.push(FinalizeFragment::CopyDirect { field: f.name.clone() });
                    },
                    None => {
                        comp_fields.push(
                            CompanionField {
                                name: f.name.clone(),
                                stored: StoredType::OptionWrapped { ty: clone_type(&f.ty) },
                            },
                        );
                        setters.push(
                            SetterFragment::WholeValue {
                                field: f.name.clone(),
                                param_ty: clone_type(&f.ty),
                            },
                        );
                        finalizers.push(FinalizeFragment::TakeRequired { field: f.name.clone() });
                    },
                }
            },
            TypeShape::Plain { ty } => {
                comp_fields.push(
                    CompanionField {
                        name: f.name.clone(),
                        stored: StoredType::OptionWrapped { ty: clone_type(&f.ty) },
                    },
                );
                setters.push(
                    SetterFragment::WholeValue { field: f.name.clone(), param_ty: clone_type(ty) },
                );
                finalizers.push(FinalizeFragment::TakeRequired { field: f.name.clone() });
            },
        }
        i = i + 1;
    }
    proof {
        lemma_first_bad_from(fields@, 0, fields@.len() as int);
    }
    let mut companion_name = decl.name.clone();
    companion_name.append("Builder");
    Ok(
        BuilderSynthesis {
            record_name: decl.name.clone(),
            companion_name,
            fields: comp_fields,
            setters,
            finalizers,
        },
    )
}

} // verus!
