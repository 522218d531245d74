//! The generic-bound planner: decides, for each declared generic
//! parameter, whether the synthesized formatting implementation must
//! attach a formatting-capability bound to it.
//!
//! A parameter needs no bound exactly when its one and only occurrence in
//! the field types is inside the zero-sized marker wrapper: such a
//! parameter carries phantom type information and contributes nothing to
//! the formatting body, so constraining it would be a surprising
//! restriction on callers. Any other usage pattern (no occurrence,
//! several occurrences, or one occurrence outside the marker) is
//! conservatively bounded.
//!
//! The plan is built once per record declaration, from its fields alone,
//! and discarded with the invocation; nothing is cached across records.

use vstd::prelude::*;

use crate::ast::lemma_ty_views_index;
use crate::ast::lemma_ty_views_len;
use crate::ast::string_eq;
use crate::ast::ty_view;
use crate::ast::ty_views;
use crate::ast::FieldDescriptor;
use crate::ast::TyView;
use crate::ast::TypeExpr;
use crate::shape::is_bare_name;
use crate::shape::is_wrapper;
use crate::shape::wrapper_arg;

verus! {

/// The name recognized as the zero-sized marker wrapper.
pub open spec fn marker_name() -> Seq<char> {
    "PhantomData"@
}

/// True if `t` is exactly the marker wrapper applied to a bare reference
/// to the parameter `p`.
pub open spec fn is_marker_of(t: TyView, p: Seq<char>) -> bool {
    is_wrapper(t, marker_name()) && is_bare_name(wrapper_arg(t), p)
}

/// How often the parameter `p` occurs in the type expression `t`: bare
/// references to `p`, counted at any depth under named paths. Occurrences
/// inside forms that are not named paths are not seen; that keeps the
/// planner purely syntactic, and an unseen occurrence can only make the
/// plan more conservative.
pub open spec fn occ_in(t: TyView, p: Seq<char>) -> nat
    decreases t,
{
    match t {
        TyView::Other { .. } => 0,
        TyView::Path { args, .. } => if is_bare_name(t, p) {
            1
        } else {
            occ_in_seq(args, p)
        },
    }
}

/// The occurrences of `p` in a sequence of type expressions, summed.
pub open spec fn occ_in_seq(ts: Seq<TyView>, p: Seq<char>) -> nat
    decreases ts,
{
    if ts.len() == 0 {
        0
    } else {
        occ_in_seq(ts.drop_last(), p) + occ_in(ts.last(), p)
    }
}

/// How often `p` occurs in `t` outside the marker wrapper: as [`occ_in`],
/// except that an occurrence forming exactly the marker wrapper's single
/// argument is not counted.
pub open spec fn loose_in(t: TyView, p: Seq<char>) -> nat
    decreases t,
{
    match t {
        TyView::Other { .. } => 0,
        TyView::Path { args, .. } => if is_bare_name(t, p) {
            1
        } else if is_marker_of(t, p) {
            0
        } else {
            loose_in_seq(args, p)
        },
    }
}

/// The occurrences of `p` outside the marker wrapper in a sequence of
/// type expressions, summed.
pub open spec fn loose_in_seq(ts: Seq<TyView>, p: Seq<char>) -> nat
    decreases ts,
{
    if ts.len() == 0 {
        0
    } else {
        loose_in_seq(ts.drop_last(), p) + loose_in(ts.last(), p)
    }
}

/// Total occurrences of `p` over all field types, in declaration order.
pub open spec fn occ_total(fields: Seq<FieldDescriptor>, p: Seq<char>) -> nat
    decreases fields,
{
    if fields.len() == 0 {
        0
    } else {
        occ_total(fields.drop_last(), p) + occ_in(fields.last().ty@, p)
    }
}

/// Total occurrences of `p` outside the marker wrapper over all field
/// types.
pub open spec fn loose_total(fields: Seq<FieldDescriptor>, p: Seq<char>) -> nat
    decreases fields,
{
    if fields.len() == 0 {
        0
    } else {
        loose_total(fields.drop_last(), p) + loose_in(fields.last().ty@, p)
    }
}

/// Whether the synthesized formatting implementation must bound `p`:
/// always, unless `p` has exactly one occurrence and that occurrence is
/// inside the marker wrapper.
pub open spec fn bound_required_spec(fields: Seq<FieldDescriptor>, p: Seq<char>) -> bool {
    !(occ_total(fields, p) == 1 && loose_total(fields, p) == 0)
}

/// A count collapsed into a machine word: exact below the cap.
pub open spec fn cap64(n: nat) -> u64 {
    if n > u64::MAX {
        u64::MAX
    } else {
        n as u64
    }
}

/// One parameter's usage record: how often it occurs over all field
/// types, and whether every occurrence is inside the marker wrapper.
pub struct ParamUsage {
    pub count: u64,
    pub only_marker: bool,
}

impl ParamUsage {
    /// Whether this usage pattern forces a formatting-capability bound.
    pub open spec fn spec_bound_required(self) -> bool {
        !(self.count == 1 && self.only_marker)
    }

    /// Whether this usage pattern forces a formatting-capability bound.
    pub fn bound_required(&self) -> (r: bool)
        ensures
            r == self.spec_bound_required(),
    {
        !(self.count == 1 && self.only_marker)
    }
}

/// True if `t` is a bare reference to the parameter `p`.
fn is_bare_exec(t: &TypeExpr, p: &String) -> (r: bool)
    ensures
        r == is_bare_name(t@, p@),
{
    proof {
        broadcast use lemma_ty_views_len;
    }
    match t {
        TypeExpr::Path { segments, args } => {
            segments.len() == 1 && args.len() == 0 && string_eq(&segments[0], p)
        },
        TypeExpr::Other { .. } => false,
    }
}

/// True if `t` is exactly the marker wrapper applied to a bare reference
/// to `p`.
fn is_marker_exec(t: &TypeExpr, p: &String) -> (r: bool)
    ensures
        r == is_marker_of(t@, p@),
{
    match crate::shape::unwrap_named(t, "PhantomData") {
        Some(inner) => is_bare_exec(inner, p),
        None => false,
    }
}

/// Saturated addition agrees with the capped sum.
proof fn lemma_cap_add(a: nat, b: nat)
    ensures
        cap64(a + b) == if cap64(a) > u64::MAX - cap64(b) {
            u64::MAX
        } else {
            (cap64(a) + cap64(b)) as u64
        },
{
}

/// The capped occurrence count of `p` in one type expression.
#[verifier::loop_isolation(false)]
fn occ_count(t: &TypeExpr, p: &String) -> (n: u64)
    ensures
        n == cap64(occ_in(t@, p@)),
    decreases *t,
{
    proof {
        broadcast use lemma_ty_views_len, lemma_ty_views_index;
    }
    if is_bare_exec(t, p) {
        return 1;
    }
    match t {
        TypeExpr::Other { .. } => 0,
        TypeExpr::Path { segments, args } => {
            let ghost s = ty_views(args@);
            let mut total: u64 = 0;
            let mut i: usize = 0;
            while i < args.len()
                invariant
                    i <= args@.len(),
                    total == cap64(occ_in_seq(s.take(i as int), p@)),
                decreases args@.len() - i,
            {
                proof {
                    assert(decreases_to!(*t => t->args));
                    assert(t->args == *args);
                    assert(decreases_to!(*args => args[i as int]));
                }
                let inc = occ_count(&args[i], p);
                proof {
                    lemma_cap_add(occ_in_seq(s.take(i as int), p@), occ_in(args@[i as int]@, p@));
                    assert(s.take(i + 1).drop_last() =~= s.take(i as int));
                    assert(s.take(i + 1).last() == ty_view(args@[i as int]));
                }
                total = if total > u64::MAX - inc {
                    u64::MAX
                } else {
                    total + inc
                };
                i = i + 1;
            }
            proof {
                assert(s.take(args@.len() as int) =~= s);
            }
            total
        },
    }
}

/// The capped count of occurrences of `p` outside the marker wrapper in
/// one type expression.
#[verifier::loop_isolation(false)]
fn loose_count(t: &TypeExpr, p: &String) -> (n: u64)
    ensures
        n == cap64(loose_in(t@, p@)),
    decreases *t,
{
    proof {
        broadcast use lemma_ty_views_len, lemma_ty_views_index;
    }
    if is_bare_exec(t, p) {
        return 1;
    }
    if is_marker_exec(t, p) {
        return 0;
    }
    match t {
        TypeExpr::Other { .. } => 0,
        TypeExpr::Path { segments, args } => {
            let ghost s = ty_views(args@);
            let mut total: u64 = 0;
            let mut i: usize = 0;
            while i < args.len()
                invariant
                    i <= args@.len(),
                    total == cap64(loose_in_seq(s.take(i as int), p@)),
                decreases args@.len() - i,
            {
                proof {
                    assert(decreases_to!(*t => t->args));
                    assert(t->args == *args);
                    assert(decreases_to!(*args => args[i as int]));
                }
                let inc = loose_count(&args[i], p);
                proof {
                    lemma_cap_add(
                        loose_in_seq(s.take(i as int), p@),
                        loose_in(args@[i as int]@, p@),
                    );
                    assert(s.take(i + 1).drop_last() =~= s.take(i as int));
                    assert(s.take(i + 1).last() == ty_view(args@[i as int]));
                }
                total = if total > u64::MAX - inc {
                    u64::MAX
                } else {
                    total + inc
                };
                i = i + 1;
            }
            proof {
                assert(s.take(args@.len() as int) =~= s);
            }
            total
        },
    }
}

/// The generic-bound plan: one usage record per declared generic
/// parameter, in declaration order, gathered from all field types of one
/// record declaration.
#[verifier::loop_isolation(false)]
pub fn plan_bounds(generics: &Vec<String>, fields: &Vec<FieldDescriptor>) -> (plan: Vec<
    ParamUsage,
>)
    ensures
        plan@.len() == generics@.len(),
        forall|i: int|
            0 <= i < generics@.len() ==> {
                &&& (#[trigger] plan@[i]).count == cap64(occ_total(fields@, generics@[i]@))
                &&& plan@[i].only_marker == (loose_total(fields@, generics@[i]@) == 0)
                &&& plan@[i].spec_bound_required() == bound_required_spec(
                    fields@,
                    generics@[i]@,
                )
            },
{
    let mut plan: Vec<ParamUsage> = Vec::new();
    let mut g: usize = 0;
    while g < generics.len()
        invariant
            g <= generics@.len(),
            plan@.len() == g,
            forall|i: int|
                0 <= i < g ==> {
                    &&& (#[trigger] plan@[i]).count == cap64(occ_total(fields@, generics@[i]@))
                    &&& plan@[i].only_marker == (loose_total(fields@, generics@[i]@) == 0)
                },
        decreases generics@.len() - g,
    {
        let p = &generics[g];
        let mut count: u64 = 0;
        let mut loose: u64 = 0;
        let mut f: usize = 0;
        while f < fields.len()
            invariant
                f <= fields@.len(),
                count == cap64(occ_total(fields@.take(f as int), p@)),
                loose == cap64(loose_total(fields@.take(f as int), p@)),
            decreases fields@.len() - f,
        {
            let c = occ_count(&fields[f].ty, p);
            let l = loose_count(&fields[f].ty, p);
            proof {
                lemma_cap_add(occ_total(fields@.take(f as int), p@), occ_in(fields@[f as int].ty@, p@));
                lemma_cap_add(
                    loose_total(fields@.take(f as int), p@),
                    loose_in(fields@[f as int].ty@, p@),
                );
                assert(fields@.take(f + 1).drop_last() =~= fields@.take(f as int));
                assert(fields@.take(f + 1).last() == fields@[f as int]);
            }
            count = if count > u64::MAX - c {
                u64::MAX
            } else {
                count + c
            };
            loose = if loose > u64::MAX - l {
                u64::MAX
            } else {
                loose + l
            };
            f = f + 1;
        }
        proof {
            assert(fields@.take(fields@.len() as int) =~= fields@);
        }
        plan.push(ParamUsage { count, only_marker: loose == 0 });
        g = g + 1;
    }
    plan
}

/// No occurrence of `p` outside the marker wrapper exceeds the plain
/// count of `p`.
proof fn lemma_loose_le_occ(t: TyView, p: Seq<char>)
    ensures
        loose_in(t, p) <= occ_in(t, p),
    decreases t,
{
    match t {
        TyView::Other { .. } => {},
        TyView::Path { args, .. } => {
            if !is_bare_name(t, p) && !is_marker_of(t, p) {
                lemma_loose_le_occ_seq(args, p);
            }
        },
    }
}

proof fn lemma_loose_le_occ_seq(ts: Seq<TyView>, p: Seq<char>)
    ensures
        loose_in_seq(ts, p) <= occ_in_seq(ts, p),
    decreases ts,
{
    if ts.len() > 0 {
        lemma_loose_le_occ_seq(ts.drop_last(), p);
        lemma_loose_le_occ(ts.last(), p);
    }
}

/// A total is at least each of its parts.
proof fn lemma_occ_total_part(fields: Seq<FieldDescriptor>, p: Seq<char>, i: int)
    requires
        0 <= i < fields.len(),
    ensures
        occ_total(fields, p) >= occ_in(fields[i].ty@, p),
    decreases fields.len(),
{
    if i < fields.len() - 1 {
        lemma_occ_total_part(fields.drop_last(), p, i);
    }
}

/// A total is at least each of its parts.
proof fn lemma_loose_total_part(fields: Seq<FieldDescriptor>, p: Seq<char>, i: int)
    requires
        0 <= i < fields.len(),
    ensures
        loose_total(fields, p) >= loose_in(fields[i].ty@, p),
    decreases fields.len(),
{
    if i < fields.len() - 1 {
        lemma_loose_total_part(fields.drop_last(), p, i);
    }
}

/// A sum of zeroes is zero.
proof fn lemma_occ_total_zero(fields: Seq<FieldDescriptor>, p: Seq<char>)
    requires
        forall|j: int| 0 <= j < fields.len() ==> occ_in((#[trigger] fields[j]).ty@, p) == 0,
    ensures
        occ_total(fields, p) == 0,
    decreases fields.len(),
{
    if fields.len() > 0 {
        lemma_occ_total_zero(fields.drop_last(), p);
    }
}

/// A sum of zeroes is zero.
proof fn lemma_loose_total_zero(fields: Seq<FieldDescriptor>, p: Seq<char>)
    requires
        forall|j: int| 0 <= j < fields.len() ==> loose_in((#[trigger] fields[j]).ty@, p) == 0,
    ensures
        loose_total(fields, p) == 0,
    decreases fields.len(),
{
    if fields.len() > 0 {
        lemma_loose_total_zero(fields.drop_last(), p);
    }
}

proof fn lemma_occ_total_single(fields: Seq<FieldDescriptor>, p: Seq<char>, i: int)
    requires
        0 <= i < fields.len(),
        occ_in(fields[i].ty@, p) == 1,
        forall|j: int|
            0 <= j < fields.len() && j != i ==> occ_in((#[trigger] fields[j]).ty@, p) == 0,
    ensures
        occ_total(fields, p) == 1,
    decreases fields.len(),
{
    if i == fields.len() - 1 {
        lemma_occ_total_zero(fields.drop_last(), p);
    } else {
        lemma_occ_total_single(fields.drop_last(), p, i);
    }
}

/// A generic parameter whose only occurrence over all field types is as
/// the marker wrapper's argument receives no formatting-capability bound:
/// it carries phantom type information only.
pub proof fn lemma_marker_only_param_needs_no_bound(
    fields: Seq<FieldDescriptor>,
    p: Seq<char>,
    i: int,
)
    requires
        0 <= i < fields.len(),
        is_marker_of(fields[i].ty@, p),
        forall|j: int|
            0 <= j < fields.len() && j != i ==> occ_in((#[trigger] fields[j]).ty@, p) == 0,
    ensures
        !bound_required_spec(fields, p),
{
    let t = fields[i].ty@;
    assert(t matches TyView::Path { args, .. } && occ_in_seq(args, p) == occ_in_seq(
        args.drop_last(),
        p,
    ) + occ_in(args.last(), p) && args.drop_last().len() == 0);
    assert(occ_in(t, p) == 1);
    lemma_occ_total_single(fields, p, i);
    assert forall|j: int| 0 <= j < fields.len() implies loose_in(
        (#[trigger] fields[j]).ty@,
        p,
    ) == 0 by {
        if j != i {
            lemma_loose_le_occ(fields[j].ty@, p);
        }
    }
    lemma_loose_total_zero(fields, p);
}

/// A bare use of the parameter as a whole (plain) field type forces the
/// formatting-capability bound, whatever the other fields hold.
pub proof fn lemma_plain_use_forces_bound(fields: Seq<FieldDescriptor>, p: Seq<char>, i: int)
    requires
        0 <= i < fields.len(),
        is_bare_name(fields[i].ty@, p),
    ensures
        bound_required_spec(fields, p),
{
    assert(loose_in(fields[i].ty@, p) == 1);
    lemma_loose_total_part(fields, p, i);
}

} // verus!
