//! The directive parser: scans a field's annotation list for the
//! recognized directive namespace of one generation target and extracts
//! the directive, or reports a fatal diagnostic for malformed syntax.
//!
//! Annotations outside the recognized namespace are ignored. When several
//! well-formed directives are present, the last one parsed wins; that
//! permissive behavior is deliberate. Malformed syntax inside the
//! namespace is never skipped: it aborts the whole generation with a
//! message naming the documented expected form, anchored to the offending
//! annotation.

use vstd::prelude::*;

use crate::ast::meta_text;
use crate::ast::opt_str_view;
use crate::ast::str_is;
use crate::ast::Annotation;
use crate::ast::AnnotationForm;
use crate::ast::DiagAnchor;
use crate::ast::Diagnostic;
use crate::ast::MetaItem;
use crate::ast::MetaValue;

verus! {

/// The annotation namespace recognized by the builder target.
pub open spec fn builder_namespace() -> Seq<char> {
    "builder"@
}

/// The annotation namespace recognized by the formatting target.
pub open spec fn debug_namespace() -> Seq<char> {
    "debug"@
}

/// The single key recognized inside the builder namespace.
pub open spec fn alias_key() -> Seq<char> {
    "each"@
}

/// The documented expected form, reported when a builder directive is
/// malformed.
pub open spec fn expected_alias_form() -> Seq<char> {
    "expected `builder(each = \"...\")`"@
}

/// The documented expected form, reported when a formatting directive is
/// malformed.
pub open spec fn expected_template_form() -> Seq<char> {
    "expected `debug = \"...\"`"@
}

/// The outcome of scanning one field's annotation list for one target's
/// directive: the directive found (if any), or the index of the first
/// malformed annotation.
#[verifier::ext_equal]
pub enum DirectiveScan {
    Fine { found: Option<Seq<char>> },
    Bad { index: int },
}

/// True if every pairing in a builder directive body is `each = <string
/// literal>`.
pub open spec fn alias_items_ok(items: Seq<MetaItem>) -> bool {
    forall|j: int|
        0 <= j < items.len() ==> (#[trigger] items[j]).key@ == alias_key() && items[j].value
            is StrLit
}

/// The alias carried by a well-formed builder directive body: the last
/// pairing wins, and an empty body leaves the running value unchanged.
pub open spec fn alias_items_value(items: Seq<MetaItem>, acc: Option<Seq<char>>) -> Option<
    Seq<char>,
> {
    if items.len() == 0 {
        acc
    } else {
        Some(items.last().value->value@)
    }
}

/// The builder-directive scan, from annotation `k` on, with `acc` the
/// alias gathered so far.
pub open spec fn alias_scan_from(
    anns: Seq<Annotation>,
    k: int,
    acc: Option<Seq<char>>,
) -> DirectiveScan
    decreases anns.len() - k,
{
    if k < 0 || k >= anns.len() {
        DirectiveScan::Fine { found: acc }
    } else if anns[k].namespace@ != builder_namespace() {
        alias_scan_from(anns, k + 1, acc)
    } else {
        match anns[k].form {
            AnnotationForm::KeyList { items } => if alias_items_ok(items@) {
                alias_scan_from(anns, k + 1, alias_items_value(items@, acc))
            } else {
                DirectiveScan::Bad { index: k }
            },
            _ => DirectiveScan::Bad { index: k },
        }
    }
}

/// The builder-directive scan of a whole annotation list.
pub open spec fn alias_scan(anns: Seq<Annotation>) -> DirectiveScan {
    alias_scan_from(anns, 0, None)
}

/// The formatting-directive scan, from annotation `k` on, with `acc` the
/// template gathered so far.
pub open spec fn template_scan_from(
    anns: Seq<Annotation>,
    k: int,
    acc: Option<Seq<char>>,
) -> DirectiveScan
    decreases anns.len() - k,
{
    if k < 0 || k >= anns.len() {
        DirectiveScan::Fine { found: acc }
    } else if anns[k].namespace@ != debug_namespace() {
        template_scan_from(anns, k + 1, acc)
    } else {
        match anns[k].form {
            AnnotationForm::DirectValue { value } => template_scan_from(
                anns,
                k + 1,
                Some(meta_text(value)),
            ),
            _ => DirectiveScan::Bad { index: k },
        }
    }
}

/// The formatting-directive scan of a whole annotation list.
pub open spec fn template_scan(anns: Seq<Annotation>) -> DirectiveScan {
    template_scan_from(anns, 0, None)
}

/// Extract the accumulation-method alias for one field of the builder
/// target: the value of the last well-formed `builder(each = "...")`
/// annotation, if any. A `builder` annotation of any other shape is a
/// fatal diagnostic anchored to it; `field_index` says which field the
/// annotation list belongs to.
#[verifier::loop_isolation(false)]
pub fn unwrap_vec_key(anns: &Vec<Annotation>, field_index: usize) -> (r: Result<
    Option<String>,
    Diagnostic,
>)
    ensures
        match r {
            Ok(found) => alias_scan(anns@) == (DirectiveScan::Fine {
                found: opt_str_view(found),
            }),
            Err(d) => {
                &&& alias_scan(anns@) matches DirectiveScan::Bad { index }
                &&& d.anchor == (DiagAnchor::FieldAnnotation {
                    field: field_index,
                    annotation: index as usize,
                })
                &&& index == d.anchor->annotation
                &&& d.message@ == expected_alias_form()
            },
        },
{
    let mut acc: Option<String> = None;
    let mut k: usize = 0;
    while k < anns.len()
        invariant
            k <= anns@.len(),
            alias_scan(anns@) == alias_scan_from(anns@, k as int, opt_str_view(acc)),
        decreases anns@.len() - k,
    {
        let ann = &anns[k];
        if str_is(&ann.namespace, "builder") {
            match &ann.form {
                AnnotationForm::KeyList { items } => {
                    let mut j: usize = 0;
                    while j < items.len()
                        invariant
                            j <= items@.len(),
                            forall|t: int|
                                0 <= t < j ==> (#[trigger] items@[t]).key@ == alias_key()
                                    && items@[t].value is StrLit,
                        decreases items@.len() - j,
                    {
                        let item = &items[j];
                        if !(str_is(&item.key, "each") && matches!(&item.value, MetaValue::StrLit {
                            ..
                        })) {
                            return Err(
                                Diagnostic {
                                    message: "expected `builder(each = \"...\")`".to_owned(),
                                    anchor: DiagAnchor::FieldAnnotation {
                                        field: field_index,
                                        annotation: k,
                                    },
                                },
                            );
                        }
                        j = j + 1;
                    }
                    if items.len() > 0 {
                        match &items[items.len() - 1].value {
                            MetaValue::StrLit { value } => {
                                acc = Some(value.clone());
                            },
                            MetaValue::OtherExpr { .. } => {
                                proof {
                                    assert(false);
                                }
                            },
                        }
                    }
                },
                _ => {
                    return Err(
                        Diagnostic {
                            message: "expected `builder(each = \"...\")`".to_owned(),
                            anchor: DiagAnchor::FieldAnnotation {
                                field: field_index,
                                annotation: k,
                            },
                        },
                    );
                },
            }
        }
        k = k + 1;
    }
    Ok(acc)
}

/// Extract the format template for one field of the formatting target:
/// the value of the last `debug = <value>` annotation, taken verbatim, if
/// any. A `debug` annotation of any other shape is a fatal diagnostic
/// anchored to it.
#[verifier::loop_isolation(false)]
pub fn format_override(anns: &Vec<Annotation>, field_index: usize) -> (r: Result<
    Option<String>,
    Diagnostic,
>)
    ensures
        match r {
            Ok(found) => template_scan(anns@) == (DirectiveScan::Fine {
                found: opt_str_view(found),
            }),
            Err(d) => {
                &&& template_scan(anns@) matches DirectiveScan::Bad { index }
                &&& d.anchor == (DiagAnchor::FieldAnnotation {
                    field: field_index,
                    annotation: index as usize,
                })
                &&& index == d.anchor->annotation
                &&& d.message@ == expected_template_form()
            },
        },
{
    let mut acc: Option<String> = None;
    let mut k: usize = 0;
    while k < anns.len()
        invariant
            k <= anns@.len(),
            template_scan(anns@) == template_scan_from(anns@, k as int, opt_str_view(acc)),
        decreases anns@.len() - k,
    {
        let ann = &anns[k];
        if str_is(&ann.namespace, "debug") {
            match &ann.form {
                AnnotationForm::DirectValue { value } => {
                    match value {
                        MetaValue::StrLit { value: text } => {
                            acc = Some(text.clone());
                        },
                        MetaValue::OtherExpr { text } => {
                            acc = Some(text.clone());
                        },
                    }
                },
                _ => {
                    return Err(
                        Diagnostic {
                            message: "expected `debug = \"...\"`".to_owned(),
                            anchor: DiagAnchor::FieldAnnotation {
                                field: field_index,
                                annotation: k,
                            },
                        },
                    );
                },
            }
        }
        k = k + 1;
    }
    Ok(acc)
}

} // verus!
