//! The formatting synthesizer: from a record declaration it derives a
//! diagnostic-formatting implementation — the record's name, one entry
//! per field in declaration order carrying either the default
//! representation or the field's override template, and the set of
//! generic parameters that must receive a formatting-capability bound.

use vstd::prelude::*;

use crate::ast::DiagAnchor;
use crate::ast::Diagnostic;
use crate::ast::FieldDescriptor;
use crate::ast::RecordBody;
use crate::ast::RecordDecl;
use crate::bounds::bound_required_spec;
use crate::bounds::plan_bounds;
use crate::builder::unsupported_shape_msg;
use crate::directive::expected_template_form;
use crate::directive::format_override;
use crate::directive::template_scan;
use crate::directive::DirectiveScan;

verus! {

/// One entry of the formatting body: the field's name as a literal
/// label, and the override template if the field carries one (the
/// default structural representation otherwise).
pub struct FormatEntry {
    pub field_name: String,
    pub template: Option<String>,
}

/// The mathematical value of a [`FormatEntry`].
#[verifier::ext_equal]
pub struct FormatEntryView {
    pub field_name: Seq<char>,
    pub template: Option<Seq<char>>,
}

impl View for FormatEntry {
    type V = FormatEntryView;

    open spec fn view(&self) -> FormatEntryView {
        FormatEntryView {
            field_name: self.field_name@,
            template: crate::ast::opt_str_view(self.template),
        }
    }
}

/// The synthesized formatting implementation, ready for rendering: the
/// record's name, its generic parameters with the planned bound decision
/// for each (parallel, in declaration order), and one entry per field in
/// declaration order.
pub struct FormatSynthesis {
    pub record_name: String,
    pub generic_params: Vec<String>,
    pub needs_bound: Vec<bool>,
    pub entries: Vec<FormatEntry>,
}

/// The formatting-directive scan of one field's annotations.
pub open spec fn field_template_scan(f: FieldDescriptor) -> DirectiveScan {
    template_scan(f.annotations@)
}

/// The first field (from `k` on) whose formatting directive is
/// malformed, or the field count if none is.
pub open spec fn first_bad_template(fields: Seq<FieldDescriptor>, k: int) -> int
    decreases fields.len() - k,
{
    if k < 0 || k >= fields.len() {
        fields.len() as int
    } else if field_template_scan(fields[k]) is Bad {
        k
    } else {
        first_bad_template(fields, k + 1)
    }
}

/// Everything a successful formatting synthesis promises: the record's
/// name is kept, every generic parameter appears with its planned bound
/// decision, and each field contributes exactly one entry carrying its
/// name and its override template (if any), in declaration order.
pub open spec fn format_ok(decl: RecordDecl, s: FormatSynthesis) -> bool {
    &&& decl.body matches RecordBody::NamedFields { fields }
    &&& s.record_name@ == decl.name@
    &&& s.generic_params@.len() == decl.generics@.len()
    &&& forall|g: int|
        0 <= g < decl.generics@.len() ==> (#[trigger] s.generic_params@[g])@
            == decl.generics@[g]@
    &&& s.needs_bound@.len() == decl.generics@.len()
    &&& forall|g: int|
        0 <= g < decl.generics@.len() ==> (#[trigger] s.needs_bound@[g]) == bound_required_spec(
            fields@,
            decl.generics@[g]@,
        )
    &&& s.entries@.len() == fields@.len()
    &&& forall|i: int|
        0 <= i < fields@.len() ==> {
            let f = #[trigger] fields@[i];
            &&& field_template_scan(f) matches DirectiveScan::Fine { found }
            &&& s.entries@[i]@ == (FormatEntryView { field_name: f.name@, template: found })
        }
}

proof fn lemma_first_bad_template_from(fields: Seq<FieldDescriptor>, k: int, i: int)
    requires
        0 <= k <= i <= fields.len(),
        forall|j: int| k <= j < i ==> !(field_template_scan(#[trigger] fields[j]) is Bad),
        i < fields.len() ==> field_template_scan(fields[i]) is Bad,
    ensures
        first_bad_template(fields, k) == if i < fields.len() {
            i
        } else {
            fields.len() as int
        },
    decreases i - k,
{
    if k < i {
        lemma_first_bad_template_from(fields, k + 1, i);
    }
}

/// Derive the diagnostic-formatting implementation for one record
/// declaration.
///
/// Succeeds exactly on a struct with named fields none of whose
/// formatting directives is malformed. Otherwise the whole generation
/// fails with one diagnostic: the unsupported record shape, or the first
/// malformed formatting directive in declaration order, anchored to its
/// annotation.
#[verifier::loop_isolation(false)]
pub fn derive(decl: &RecordDecl) -> (r: Result<FormatSynthesis, Diagnostic>)
    ensures
        (r is Ok) <==> match decl.body {
            RecordBody::NamedFields { fields } => first_bad_template(fields@, 0) == fields@.len(),
            _ => false,
        },
        match r {
            Ok(s) => format_ok(*decl, s),
            Err(d) => match decl.body {
                RecordBody::NamedFields { fields } => {
                    let i = first_bad_template(fields@, 0);
                    &&& 0 <= i < fields@.len()
                    &&& field_template_scan(fields@[i]) matches DirectiveScan::Bad { index }
                    &&& d.anchor == (DiagAnchor::FieldAnnotation {
                        field: i as usize,
                        annotation: index as usize,
                    })
                    &&& d.message@ == expected_template_form()
                },
                _ => d.message@ == unsupported_shape_msg() && d.anchor == DiagAnchor::Declaration,
            },
        },
{
    let fields = match &decl.body {
        RecordBody::NamedFields { fields } => fields,
        _ => {
            return Err(
                Diagnostic {
                    message: "expected a struct with named fields".to_owned(),
                    anchor: DiagAnchor::Declaration,
                },
            );
        },
    };
    let mut entries: Vec<FormatEntry> = Vec::new();
    let mut i: usize = 0;
    while i < fields.len()
        invariant
            i <= fields@.len(),
            entries@.len() == i,
            forall|j: int|
                0 <= j < i ==> {
                    let f = #[trigger] fields@[j];
                    &&& field_template_scan(f) matches DirectiveScan::Fine { found }
                    &&& entries@[j]@ == (FormatEntryView { field_name: f.name@, template: found })
                },
        decreases fields@.len() - i,
    {
        let f = &fields[i];
        let template = match format_override(&f.annotations, i) {
            Ok(t) => t,
            Err(d) => {
                proof {
                    lemma_first_bad_template_from(fields@, 0, i as int);
                }
                return Err(d);
            },
        };
        entries.push(FormatEntry { field_name: f.name.clone(), template });
        i = i + 1;
    }
    proof {
        lemma_first_bad_template_from(fields@, 0, fields@.len() as int);
    }
    let plan = plan_bounds(&decl.generics, fields);
    let mut generic_params: Vec<String> = Vec::new();
    let mut needs_bound: Vec<bool> = Vec::new();
    let mut g: usize = 0;
    while g < decl.generics.len()
        invariant
            g <= decl.generics@.len(),
            generic_params@.len() == g,
            needs_bound@.len() == g,
            forall|t: int|
                0 <= t < g ==> (#[trigger] generic_params@[t])@ == decl.generics@[t]@,
            forall|t: int|
                0 <= t < g ==> (#[trigger] needs_bound@[t]) == bound_required_spec(
                    fields@,
                    decl.generics@[t]@,
                ),
        decreases decl.generics@.len() - g,
    {
        generic_params.push(decl.generics[g].clone());
        needs_bound.push(plan[g].bound_required());
        g = g + 1;
    }
    Ok(
        FormatSynthesis {
            record_name: decl.name.clone(),
            generic_params,
            needs_bound,
            entries,
        },
    )
}

} // verus!
