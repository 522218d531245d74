//! The staged-construction semantics: the state machine that a
//! synthesized companion type implements.
//!
//! A companion starts empty, takes any number of independent setter or
//! accumulation calls (a whole-value setter overwrites, an accumulation
//! call appends), and ends with finalization, which either yields every
//! field's value or fails naming the first required field, in
//! declaration order, that was never set. A failed finalization leaves
//! the companion untouched, so the caller may set the missing field and
//! retry; a successful one moves the values out and resets the
//! companion.
//!
//! The value type is generic: the semantics does not depend on what a
//! field holds, only on which fields hold something.

use vstd::prelude::*;
use vstd::pervasive::VecAdditionalExecFns;
use vstd::string::StringExecFns;

use crate::builder::BuilderSynthesis;
use crate::builder::FinalizeView;
use crate::builder::SetterView;

verus! {

/// How the companion treats one field: a required field must be set
/// before finalization; an optional field defaults to absent; an
/// accumulated field collects elements and defaults to empty.
#[derive(Clone, Copy, PartialEq, Eq, Structural, Debug)]
pub enum FieldKind {
    Required,
    Optional,
    Accumulated,
}

/// One field's storage inside the companion.
pub enum Slot<V> {
    Vacant,
    Holds { value: V },
    Grows { values: Vec<V> },
}

/// The mathematical value of a [`Slot`].
#[verifier::ext_equal]
pub enum SlotModel<V> {
    Vacant,
    Holds { value: V },
    Grows { values: Seq<V> },
}

impl<V> View for Slot<V> {
    type V = SlotModel<V>;

    open spec fn view(&self) -> SlotModel<V> {
        match self {
            Slot::Vacant => SlotModel::Vacant,
            Slot::Holds { value } => SlotModel::Holds { value: *value },
            Slot::Grows { values } => SlotModel::Grows { values: values@ },
        }
    }
}

/// One field's finalized value: the required value itself, an optional
/// value, or the accumulated elements in call order.
pub enum FieldValue<V> {
    One { value: V },
    Maybe { opt_value: Option<V> },
    Many { values: Vec<V> },
}

/// The mathematical value of a [`FieldValue`].
#[verifier::ext_equal]
pub enum OutModel<V> {
    One { value: V },
    Maybe { opt_value: Option<V> },
    Many { values: Seq<V> },
}

impl<V> View for FieldValue<V> {
    type V = OutModel<V>;

    open spec fn view(&self) -> OutModel<V> {
        match self {
            FieldValue::One { value } => OutModel::One { value: *value },
            FieldValue::Maybe { opt_value } => OutModel::Maybe { opt_value: *opt_value },
            FieldValue::Many { values } => OutModel::Many { values: values@ },
        }
    }
}

/// True when every required field holds a value: exactly the states in
/// which finalization succeeds.
pub open spec fn all_required_set<V>(kinds: Seq<FieldKind>, slots: Seq<SlotModel<V>>) -> bool {
    forall|i: int|
        0 <= i < kinds.len() ==> ((#[trigger] kinds[i]) == FieldKind::Required ==> slots[i]
            is Holds)
}

/// The first required field (from `k` on) holding no value, or the field
/// count if finalization would succeed.
pub open spec fn first_missing<V>(
    kinds: Seq<FieldKind>,
    slots: Seq<SlotModel<V>>,
    k: int,
) -> int
    decreases kinds.len() - k,
{
    if k < 0 || k >= kinds.len() {
        kinds.len() as int
    } else if kinds[k] == FieldKind::Required && !(slots[k] is Holds) {
        k
    } else {
        first_missing(kinds, slots, k + 1)
    }
}

/// The value finalization yields for one field, given its kind and slot.
pub open spec fn planned_output<V>(kind: FieldKind, slot: SlotModel<V>) -> OutModel<V> {
    match kind {
        FieldKind::Required => OutModel::One { value: slot->value },
        FieldKind::Optional => OutModel::Maybe {
            opt_value: match slot {
                SlotModel::Holds { value } => Some(value),
                _ => None,
            },
        },
        FieldKind::Accumulated => OutModel::Many { values: slot->values },
    }
}

/// The error message prefix of a failed finalization.
pub open spec fn missing_field_prefix() -> Seq<char> {
    "missing field: "@
}

/// The runtime field kind implied by one synthesized setter/finalizer
/// pair.
pub open spec fn planned_kind(setter: SetterView, fin: FinalizeView) -> FieldKind {
    if setter is Accumulate {
        FieldKind::Accumulated
    } else if fin is CopyDirect {
        FieldKind::Optional
    } else {
        FieldKind::Required
    }
}

/// The field kinds of a builder synthesis, fragment by fragment.
pub fn field_kinds(s: &BuilderSynthesis) -> (kinds: Vec<FieldKind>)
    requires
        s.setters@.len() == s.finalizers@.len(),
    ensures
        kinds@.len() == s.setters@.len(),
        forall|i: int|
            0 <= i < kinds@.len() ==> (#[trigger] kinds@[i]) == planned_kind(
                s.setters@[i]@,
                s.finalizers@[i]@,
            ),
{
    let mut kinds: Vec<FieldKind> = Vec::new();
    let mut i: usize = 0;
    while i < s.setters.len()
        invariant
            i <= s.setters@.len(),
            s.setters@.len() == s.finalizers@.len(),
            kinds@.len() == i,
            forall|j: int|
                0 <= j < i ==> (#[trigger] kinds@[j]) == planned_kind(
                    s.setters@[j]@,
                    s.finalizers@[j]@,
                ),
        decreases s.setters@.len() - i,
    {
        let kind = match &s.setters[i] {
            crate::builder::SetterFragment::Accumulate { .. } => FieldKind::Accumulated,
            crate::builder::SetterFragment::WholeValue { .. } => match &s.finalizers[i] {
                crate::builder::FinalizeFragment::CopyDirect { .. } => FieldKind::Optional,
                crate::builder::FinalizeFragment::TakeRequired { .. } => FieldKind::Required,
            },
        };
        kinds.push(kind);
        i = i + 1;
    }
    kinds
}

/// The staged-construction companion state: field names and kinds (fixed
/// at creation) and one slot per field.
pub struct Companion<V> {
    pub names: Vec<String>,
    pub kinds: Vec<FieldKind>,
    pub slots: Vec<Slot<V>>,
}

impl<V> Companion<V> {
    /// The slots as mathematical values.
    pub open spec fn slot_models(self) -> Seq<SlotModel<V>> {
        Seq::new(self.slots@.len(), |i: int| self.slots@[i]@)
    }

    /// Shape agreement: one name, kind and slot per field, and a slot
    /// grows exactly when its field accumulates.
    pub open spec fn wf(self) -> bool {
        &&& self.kinds@.len() == self.names@.len()
        &&& self.slots@.len() == self.names@.len()
        &&& forall|i: int|
            0 <= i < self.kinds@.len() ==> (((#[trigger] self.kinds@[i]) == FieldKind::Accumulated)
                <==> self.slots@[i]@ is Grows)
    }

    /// A fresh, empty companion: every accumulated field starts with an
    /// empty list, every other field starts unset.
    pub fn new(names: Vec<String>, kinds: Vec<FieldKind>) -> (c: Companion<V>)
        requires
            names@.len() == kinds@.len(),
        ensures
            c.wf(),
            c.names@ == names@,
            c.kinds@ == kinds@,
            forall|i: int|
                0 <= i < kinds@.len() ==> (#[trigger] c.slot_models()[i]) == if kinds@[i]
                    == FieldKind::Accumulated {
                    SlotModel::Grows { values: Seq::<V>::empty() }
                } else {
                    SlotModel::<V>::Vacant
                },
    {
        let mut slots: Vec<Slot<V>> = Vec::new();
        let mut i: usize = 0;
        while i < kinds.len()
            invariant
                i <= kinds@.len(),
                slots@.len() == i,
                forall|j: int|
                    0 <= j < i ==> (#[trigger] slots@[j])@ == if kinds@[j]
                        == FieldKind::Accumulated {
                        SlotModel::Grows { values: Seq::<V>::empty() }
                    } else {
                        SlotModel::<V>::Vacant
                    },
            decreases kinds@.len() - i,
        {
            if kinds[i] == FieldKind::Accumulated {
                slots.push(Slot::Grows { values: Vec::new() });
            } else {
                slots.push(Slot::Vacant);
            }
            i = i + 1;
        }
        Companion { names, kinds, slots }
    }

    /// A whole-value setter: stores `v` in field `i`, overwriting
    /// whatever was there. Calling it again overwrites again: the last
    /// write wins.
    pub fn set(&mut self, i: usize, v: V)
        requires
            old(self).wf(),
            i < old(self).kinds@.len(),
            old(self).kinds@[i as int] != FieldKind::Accumulated,
        ensures
            final(self).wf(),
            final(self).names@ == old(self).names@,
            final(self).kinds@ == old(self).kinds@,
            final(self).slot_models() =~= old(self).slot_models().update(
                i as int,
                SlotModel::Holds { value: v },
            ),
    {
        self.slots.set(i, Slot::Holds { value: v });
    }

    /// An accumulation call: appends `v` to field `i`'s elements, after
    /// everything appended before.
    pub fn accumulate(&mut self, i: usize, v: V)
        requires
            old(self).wf(),
            i < old(self).kinds@.len(),
            old(self).kinds@[i as int] == FieldKind::Accumulated,
        ensures
            final(self).wf(),
            final(self).names@ == old(self).names@,
            final(self).kinds@ == old(self).kinds@,
            old(self).slot_models()[i as int] matches SlotModel::Grows { values }
                && final(self).slot_models() =~= old(self).slot_models().update(
                i as int,
                SlotModel::Grows { values: values.push(v) },
            ),
    {
        let mut slot: Slot<V> = Slot::Vacant;
        self.slots.set_and_swap(i, &mut slot);
        match slot {
            Slot::Grows { mut values } => {
                values.push(v);
                self.slots.set(i, Slot::Grows { values });
            },
            _ => {
                proof {
                    assert(false);
                }
            },
        }
    }

    /// Finalization: if every required field holds a value, yields every
    /// field's value in declaration order (moving them out and resetting
    /// the companion); otherwise fails with a message naming the first
    /// required field, in declaration order, that was never set, and
    /// leaves the companion untouched, so the caller may set the field
    /// and retry.
    #[verifier::loop_isolation(false)]
    pub fn finalize(&mut self) -> (r: Result<Vec<FieldValue<V>>, String>)
        requires
            old(self).wf(),
        ensures
            final(self).wf(),
            final(self).names@ == old(self).names@,
            final(self).kinds@ == old(self).kinds@,
            (r is Ok) <==> all_required_set(old(self).kinds@, old(self).slot_models()),
            match r {
                Ok(outs) => {
                    &&& outs@.len() == old(self).kinds@.len()
                    &&& forall|i: int|
                        0 <= i < outs@.len() ==> (#[trigger] outs@[i])@ == planned_output(
                            old(self).kinds@[i],
                            old(self).slot_models()[i],
                        )
                },
                Err(msg) => {
                    let i = first_missing(old(self).kinds@, old(self).slot_models(), 0);
                    &&& 0 <= i < old(self).kinds@.len()
                    &&& old(self).kinds@[i] == FieldKind::Required
                    &&& !(old(self).slot_models()[i] is Holds)
                    &&& msg@ == missing_field_prefix() + old(self).names@[i]@
                    &&& *final(self) == *old(self)
                },
            },
    {
        let mut i: usize = 0;
        while i < self.kinds.len()
            invariant
                i <= self.kinds@.len(),
                forall|j: int|
                    0 <= j < i ==> !((#[trigger] self.kinds@[j]) == FieldKind::Required && !(
                    self.slot_models()[j] is Holds)),
            decreases self.kinds@.len() - i,
        {
            if self.kinds[i] == FieldKind::Required {
                let held = matches!(&self.slots[i], Slot::Holds { .. });
                if !held {
                    let mut msg = "missing field: ".to_owned();
                    msg.append(self.names[i].as_str());
                    proof {
                        lemma_first_missing_from(self.kinds@, self.slot_models(), 0, i as int);
                    }
                    return Err(msg);
                }
            }
            i = i + 1;
        }
        let ghost old_models = self.slot_models();
        let mut outs: Vec<FieldValue<V>> = Vec::new();
        let mut k: usize = 0;
        while k < self.slots.len()
            invariant
                k <= self.slots@.len(),
                self.names@ == old(self).names@,
                self.kinds@ == old(self).kinds@,
                self.slots@.len() == old(self).slots@.len(),
                outs@.len() == k,
                forall|j: int|
                    0 <= j < k ==> (#[trigger] outs@[j])@ == planned_output(
                        self.kinds@[j],
                        old_models[j],
                    ),
                forall|j: int|
                    k <= j < self.slots@.len() ==> (#[trigger] self.slots@[j])@ == old_models[j],
                forall|j: int|
                    0 <= j < k ==> (#[trigger] self.slots@[j])@ == if self.kinds@[j]
                        == FieldKind::Accumulated {
                        SlotModel::Grows { values: Seq::<V>::empty() }
                    } else {
                        SlotModel::<V>::Vacant
                    },
            decreases self.slots@.len() - k,
        {
            let kind = self.kinds[k];
            let mut slot: Slot<V> = if kind == FieldKind::Accumulated {
                Slot::Grows { values: Vec::new() }
            } else {
                Slot::Vacant
            };
            self.slots.set_and_swap(k, &mut slot);
            match kind {
                FieldKind::Required => match slot {
                    Slot::Holds { value } => outs.push(FieldValue::One { value }),
                    _ => {
                        proof {
                            assert(false);
                        }
                    },
                },
                FieldKind::Optional => match slot {
                    Slot::Holds { value } => outs.push(
                        FieldValue::Maybe { opt_value: Some(value) },
                    ),
                    Slot::Vacant => outs.push(FieldValue::Maybe { opt_value: None }),
                    Slot::Grows { .. } => {
                        proof {
                            assert(false);
                        }
                    },
                },
                FieldKind::Accumulated => match slot {
                    Slot::Grows { values } => outs.push(FieldValue::Many { values }),
                    _ => {
                        proof {
                            assert(false);
                        }
                    },
                },
            }
            k = k + 1;
        }
        Ok(outs)
    }
}

proof fn lemma_first_missing_from<V>(
    kinds: Seq<FieldKind>,
    slots: Seq<SlotModel<V>>,
    k: int,
    i: int,
)
    requires
        0 <= k <= i <= kinds.len(),
        forall|j: int|
            k <= j < i ==> !((#[trigger] kinds[j]) == FieldKind::Required && !(slots[j]
                is Holds)),
        i < kinds.len() ==> kinds[i] == FieldKind::Required && !(slots[i] is Holds),
    ensures
        first_missing(kinds, slots, k) == if i < kinds.len() {
            i
        } else {
            kinds.len() as int
        },
    decreases i - k,
{
    if k < i {
        lemma_first_missing_from(kinds, slots, k + 1, i);
    }
}

proof fn lemma_first_missing_found<V>(kinds: Seq<FieldKind>, slots: Seq<SlotModel<V>>, k: int)
    requires
        0 <= k <= kinds.len(),
    ensures
        ({
            let r = first_missing(kinds, slots, k);
            r == kinds.len() || (k <= r < kinds.len() && kinds[r] == FieldKind::Required && !(
            slots[r] is Holds))
        }),
    decreases kinds.len() - k,
{
    if k < kinds.len() && !(kinds[k] == FieldKind::Required && !(slots[k] is Holds)) {
        lemma_first_missing_found(kinds, slots, k + 1);
    }
}

/// The values finalization yields, field by field.
pub open spec fn planned_outputs<V>(
    kinds: Seq<FieldKind>,
    slots: Seq<SlotModel<V>>,
) -> Seq<OutModel<V>> {
    Seq::new(kinds.len(), |i: int| planned_output(kinds[i], slots[i]))
}

/// Law: for a companion whose fields are all required — a record with
/// only plain fields and no directives — finalization succeeds exactly
/// when every field holds a value, that is, was set at least once; and
/// it then reproduces each field's held value exactly.
pub proof fn lemma_required_only_finalize<V>(kinds: Seq<FieldKind>, slots: Seq<SlotModel<V>>)
    requires
        kinds.len() == slots.len(),
        forall|i: int| 0 <= i < kinds.len() ==> (#[trigger] kinds[i]) == FieldKind::Required,
    ensures
        all_required_set(kinds, slots) <==> (forall|i: int|
            0 <= i < slots.len() ==> (#[trigger] slots[i]) is Holds),
        forall|i: int|
            0 <= i < kinds.len() && slots[i] is Holds ==> (#[trigger] planned_outputs(
                kinds,
                slots,
            )[i]) == (OutModel::One { value: slots[i]->value }),
{
    if all_required_set(kinds, slots) {
        assert forall|i: int| 0 <= i < slots.len() implies (#[trigger] slots[i]) is Holds by {
            assert(kinds[i] == FieldKind::Required);
        }
    }
    if forall|i: int| 0 <= i < slots.len() ==> (#[trigger] slots[i]) is Holds {
        assert forall|i: int|
            0 <= i < kinds.len() && (#[trigger] kinds[i]) == FieldKind::Required implies slots[i]
            is Holds by {
            assert(slots[i] is Holds);
        }
    }
}

/// Law: an optional field never decides finalization — success is the
/// same whatever its slot holds, and it is never the missing field — and
/// when left unset it finalizes to the absent value.
pub proof fn lemma_optional_never_blocks<V>(
    kinds: Seq<FieldKind>,
    slots: Seq<SlotModel<V>>,
    i: int,
    s: SlotModel<V>,
)
    requires
        kinds.len() == slots.len(),
        0 <= i < kinds.len(),
        kinds[i] == FieldKind::Optional,
    ensures
        all_required_set(kinds, slots.update(i, s)) == all_required_set(kinds, slots),
        first_missing(kinds, slots, 0) != i,
        slots[i] is Vacant ==> planned_outputs(kinds, slots)[i] == (OutModel::Maybe {
            opt_value: None::<V>,
        }),
{
    assert forall|j: int|
        0 <= j < kinds.len() && kinds[j] == FieldKind::Required implies slots.update(i, s)[j]
        == slots[j] by {}
    lemma_first_missing_found(kinds, slots, 0);
}

/// Law: a whole-value setter is last-write-wins — setting a field twice
/// leaves the same state as setting it once to the second value, and
/// finalization then observes the second value.
pub proof fn lemma_setter_overwrites<V>(
    kinds: Seq<FieldKind>,
    slots: Seq<SlotModel<V>>,
    i: int,
    first: V,
    second: V,
)
    requires
        kinds.len() == slots.len(),
        0 <= i < slots.len(),
    ensures
        slots.update(i, SlotModel::Holds { value: first }).update(
            i,
            SlotModel::Holds { value: second },
        ) =~= slots.update(i, SlotModel::Holds { value: second }),
        kinds[i] == FieldKind::Required ==> planned_outputs(
            kinds,
            slots.update(i, SlotModel::Holds { value: second }),
        )[i] == (OutModel::One { value: second }),
        kinds[i] == FieldKind::Optional ==> planned_outputs(
            kinds,
            slots.update(i, SlotModel::Holds { value: second }),
        )[i] == (OutModel::Maybe { opt_value: Some(second) }),
{
}

/// The state after accumulating the elements of `vs` into field `i`,
/// one call per element, in order.
pub open spec fn accumulate_seq<V>(
    slots: Seq<SlotModel<V>>,
    i: int,
    vs: Seq<V>,
) -> Seq<SlotModel<V>>
    recommends
        0 <= i < slots.len(),
        slots[i] is Grows,
    decreases vs.len(),
{
    if vs.len() == 0 {
        slots
    } else {
        accumulate_seq(
            slots.update(i, SlotModel::Grows { values: slots[i]->values.push(vs.first()) }),
            i,
            vs.drop_first(),
        )
    }
}

/// Law: repeated accumulation calls append in call order — after
/// accumulating the elements of `vs`, the field holds what it held
/// before followed by exactly `vs`, other fields are untouched, and
/// finalization yields exactly that sequence. Starting from a fresh
/// companion the field holds the empty sequence, so it finalizes to
/// exactly the accumulated elements, or to empty if never called.
pub proof fn lemma_accumulation_appends<V>(
    kinds: Seq<FieldKind>,
    slots: Seq<SlotModel<V>>,
    i: int,
    vs: Seq<V>,
)
    requires
        kinds.len() == slots.len(),
        0 <= i < slots.len(),
        kinds[i] == FieldKind::Accumulated,
        slots[i] is Grows,
    ensures
        accumulate_seq(slots, i, vs).len() == slots.len(),
        accumulate_seq(slots, i, vs)[i] == (SlotModel::Grows {
            values: slots[i]->values + vs,
        }),
        forall|j: int|
            0 <= j < slots.len() && j != i ==> #[trigger] accumulate_seq(slots, i, vs)[j]
                == slots[j],
        planned_outputs(kinds, accumulate_seq(slots, i, vs))[i] == (OutModel::Many {
            values: slots[i]->values + vs,
        }),
    decreases vs.len(),
{
    if vs.len() == 0 {
        assert(slots[i]->values + vs =~= slots[i]->values);
        assert(accumulate_seq(slots, i, vs)[i] =~= SlotModel::Grows {
            values: slots[i]->values + vs,
        });
    } else {
        let stepped = slots.update(
            i,
            SlotModel::Grows { values: slots[i]->values.push(vs.first()) },
        );
        lemma_accumulation_appends(kinds, stepped, i, vs.drop_first());
        assert(slots[i]->values.push(vs.first()) + vs.drop_first() =~= slots[i]->values + vs);
        assert(accumulate_seq(slots, i, vs)[i] =~= SlotModel::Grows {
            values: slots[i]->values + vs,
        });
    }
}

} // verus!
