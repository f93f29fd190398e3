//! What an emitted builder does when it runs.
//!
//! The emitter produces source text; this module states the meaning of
//! that text as verified operations on a builder instance. An instance is
//! a vector of optional slots, one per field in declaration order: setting
//! a field stores a value wholesale, accumulating appends one element to a
//! sequence slot, and finishing walks the slots under a per-field plan —
//! take an optional field as stored, fall back to a default, or require a
//! value — and either assembles every field or reports the first unset
//! required field by name.

use vstd::prelude::*;

verus! {

use crate::Shape;
use crate::context::FieldDescriptor;

/// A value held by one builder slot: a single value, or the accumulated
/// elements of a sequence field. Element values are carried as text.
#[derive(Debug)]
pub enum Value {
    One(String),
    Many(Vec<String>),
}

/// The mathematical value of a `Value`.
pub ghost enum ValueModel {
    One(Seq<char>),
    Many(Seq<Seq<char>>),
}

impl View for Value {
    type V = ValueModel;

    open spec fn view(&self) -> ValueModel {
        match self {
            Value::One(s) => ValueModel::One(s@),
            Value::Many(v) => ValueModel::Many(v.deep_view()),
        }
    }
}

impl DeepView for Value {
    type V = ValueModel;

    open spec fn deep_view(&self) -> ValueModel {
        self.view()
    }
}

impl Clone for Value {
    fn clone(&self) -> (r: Self)
        ensures
            r@ == self@,
    {
        match self {
            Value::One(s) => Value::One(s.clone()),
            Value::Many(v) => {
                let c = v.clone();
                proof {
                    assert(c.deep_view() =~= v.deep_view());
                }
                Value::Many(c)
            },
        }
    }
}

/// The view of an optionally present value.
pub open spec fn opt_value_view(o: Option<Value>) -> Option<ValueModel> {
    match o {
        Some(v) => Some(v@),
        None => None,
    }
}

/// The elements already accumulated in a slot: none for an unset slot.
pub open spec fn spec_slot_elems(slot: Option<ValueModel>) -> Seq<Seq<char>> {
    match slot {
        Some(ValueModel::Many(es)) => es,
        _ => Seq::empty(),
    }
}

/// What finishing does with one field.
#[derive(Debug)]
pub enum FinishRule {
    /// An optional field: taken as stored, set or not.
    TakeOptional,
    /// A field with a default expression: the payload is the value that
    /// expression evaluates to, used only when the slot is unset.
    UseDefault(Value),
    /// A plain required field: unset is an error.
    Required,
}

/// The finishing plan for one field: its name (for the error message) and
/// its rule.
#[derive(Debug)]
pub struct FieldPlan {
    pub name: String,
    pub rule: FinishRule,
}

/// One field of the finished record: an optional field keeps its possibly
/// absent value, every other field is definite.
#[derive(Debug)]
pub enum Finished {
    Opt(Option<Value>),
    Val(Value),
}

/// A builder instance: one optional slot per field, in declaration order.
#[derive(Debug)]
pub struct BuilderState {
    pub slots: Vec<Option<Value>>,
}

impl View for BuilderState {
    type V = Seq<Option<ValueModel>>;

    open spec fn view(&self) -> Seq<Option<ValueModel>> {
        self.slots.deep_view()
    }
}

/// Field `i` blocks finishing: its rule requires a value and its slot is
/// unset.
pub open spec fn spec_missing_at(
    slots: Seq<Option<ValueModel>>,
    plan: Seq<FieldPlan>,
    i: int,
) -> bool {
    &&& 0 <= i < plan.len()
    &&& plan[i].rule is Required
    &&& slots[i] is None
}

/// The finished value of one field is the right one for its slot and rule.
pub open spec fn spec_finished_ok(slot: Option<ValueModel>, p: FieldPlan, o: Finished) -> bool {
    match p.rule {
        FinishRule::TakeOptional => o matches Finished::Opt(s) && opt_value_view(s) == slot,
        FinishRule::UseDefault(d) => o matches Finished::Val(v) && v@ == (match slot {
            Some(m) => m,
            None => d@,
        }),
        FinishRule::Required => slot matches Some(m) && (o matches Finished::Val(v) && v@ == m),
    }
}

/// One accumulation: slot `i` becomes the accumulated elements so far,
/// extended by `e`.
pub open spec fn spec_accumulate(
    slots: Seq<Option<ValueModel>>,
    i: int,
    e: Seq<char>,
) -> Seq<Option<ValueModel>> {
    slots.update(i, Some(ValueModel::Many(spec_slot_elems(slots[i]).push(e))))
}

/// The accumulations of every element of `es` in order, starting from
/// `slots`.
pub open spec fn spec_accumulate_all(
    slots: Seq<Option<ValueModel>>,
    i: int,
    es: Seq<Seq<char>>,
) -> Seq<Option<ValueModel>>
    decreases es.len(),
{
    if es.len() == 0 {
        slots
    } else {
        spec_accumulate(spec_accumulate_all(slots, i, es.drop_last()), i, es.last())
    }
}

impl BuilderState {
    /// A fresh builder: every slot unset.
    pub fn fresh(n: usize) -> (r: Self)
        ensures
            r@.len() == n,
            forall|i: int| 0 <= i < n ==> r@[i] is None,
    {
        let mut slots: Vec<Option<Value>> = Vec::new();
        for k in 0..n
            invariant
                slots@.len() == k,
                forall|i: int| 0 <= i < k ==> slots@[i] is None,
        {
            slots.push(None);
        }
        let r = BuilderState { slots };
        proof {
            assert(forall|i: int| 0 <= i < n ==> r@[i] is None);
        }
        r
    }

    /// The whole-value setter: stores `v` in slot `i`, replacing any prior
    /// value entirely, and leaves every other slot unchanged.
    pub fn set(self, i: usize, v: Value) -> (r: Self)
        requires
            i < self@.len(),
        ensures
            r@ == self@.update(i as int, Some(v@)),
    {
        let mut slots = self.slots;
        slots.set(i, Some(v));
        let r = BuilderState { slots };
        proof {
            assert(r@ =~= self@.update(i as int, Some(v@)));
        }
        r
    }

    /// The accumulator: appends `elem` to the elements already accumulated
    /// in slot `i` (none, if the slot is unset) and stores the result back,
    /// so repeated calls accumulate in call order.
    pub fn accumulate(self, i: usize, elem: String) -> (r: Self)
        requires
            i < self@.len(),
            !(self@[i as int] matches Some(m) && m is One),
        ensures
            r@ == spec_accumulate(self@, i as int, elem@),
    {
        let mut data: Vec<String> = match &self.slots[i] {
            Some(Value::Many(v)) => {
                let c = v.clone();
                proof {
                    assert(c.deep_view() =~= v.deep_view());
                }
                c
            },
            _ => Vec::new(),
        };
        proof {
            assert(data.deep_view() =~= spec_slot_elems(self@[i as int]));
        }
        let ghost pre = data.deep_view();
        data.push(elem);
        proof {
            assert(data.deep_view() =~= pre.push(elem@));
        }
        let mut slots = self.slots;
        slots.set(i, Some(Value::Many(data)));
        let r = BuilderState { slots };
        proof {
            assert(r@ =~= spec_accumulate(self@, i as int, elem@));
        }
        r
    }

    /// The finishing operation: walks the fields in declaration order and
    /// assembles each under its rule. Fails if and only if some required
    /// field is unset, and then names exactly the first such field.
    #[verifier::loop_isolation(false)]
    pub fn finish(self, plan: &Vec<FieldPlan>) -> (r: Result<Vec<Finished>, String>)
        requires
            plan@.len() == self@.len(),
        ensures
            (r is Err <==> exists|i: int| spec_missing_at(self@, plan@, i)),
            r matches Err(msg) ==> exists|i: int|
                {
                    &&& spec_missing_at(self@, plan@, i)
                    &&& (forall|k: int| 0 <= k < i ==> !spec_missing_at(self@, plan@, k))
                    &&& msg@ == plan@[i].name@ + " needs to be set!"@
                },
            r matches Ok(out) ==> out@.len() == self@.len() && (forall|i: int|
                0 <= i < self@.len() ==> spec_finished_ok(self@[i], plan@[i], #[trigger] out@[i])),
    {
        let mut out: Vec<Finished> = Vec::new();
        let n = plan.len();
        for i in 0..n
            invariant
                out@.len() == i,
                forall|k: int| 0 <= k < i ==> !spec_missing_at(self@, plan@, k),
                forall|k: int|
                    0 <= k < i ==> spec_finished_ok(self@[k], plan@[k], #[trigger] out@[k]),
        {
            match &plan[i].rule {
                FinishRule::TakeOptional => {
                    let s = match &self.slots[i] {
                        Some(v) => Some(v.clone()),
                        None => None,
                    };
                    out.push(Finished::Opt(s));
                },
                FinishRule::UseDefault(d) => {
                    match &self.slots[i] {
                        Some(v) => out.push(Finished::Val(v.clone())),
                        None => out.push(Finished::Val(d.clone())),
                    }
                },
                FinishRule::Required => {
                    match &self.slots[i] {
                        Some(v) => out.push(Finished::Val(v.clone())),
                        None => {
                            let mut msg = plan[i].name.clone();
                            msg.append(" needs to be set!");
                            proof {
                                assert(spec_missing_at(self@, plan@, i as int));
                            }
                            return Err(msg);
                        },
                    }
                },
            }
        }
        Ok(out)
    }
}

/// The finishing rule for one classified field, in priority order: an
/// optional field is taken as stored, a field with a default expression
/// falls back to `default_value` (what that expression evaluates to, which
/// the generator never computes itself), and any other field is required.
pub fn plan_for(f: &FieldDescriptor, default_value: Option<Value>) -> (r: FieldPlan)
    requires
        default_value is Some <==> f.options.default_expr is Some,
    ensures
        r.name@ == f.name@,
        f.shape is Optional ==> r.rule is TakeOptional,
        !(f.shape is Optional) && f.options.default_expr is Some ==> (r.rule
            matches FinishRule::UseDefault(d) && d@ == default_value->0@),
        !(f.shape is Optional) && f.options.default_expr is None ==> r.rule is Required,
{
    let rule = if f.shape == Shape::Optional {
        FinishRule::TakeOptional
    } else {
        match default_value {
            Some(d) => FinishRule::UseDefault(d),
            None => FinishRule::Required,
        }
    };
    FieldPlan { name: f.name.clone(), rule }
}

/// Whether finishing succeeds depends only on the slots of required
/// fields: changing the slots of every other field — in particular setting
/// or clearing an optional field — cannot make finishing fail or succeed.
pub proof fn lemma_optional_never_blocks(
    s1: Seq<Option<ValueModel>>,
    s2: Seq<Option<ValueModel>>,
    plan: Seq<FieldPlan>,
)
    requires
        s1.len() == plan.len(),
        s2.len() == plan.len(),
        forall|i: int| 0 <= i < plan.len() && plan[i].rule is Required ==> #[trigger] s1[i]
            == s2[i],
    ensures
        (exists|i: int| spec_missing_at(s1, plan, i)) <==> (exists|i: int|
            spec_missing_at(s2, plan, i)),
{
    if exists|i: int| spec_missing_at(s1, plan, i) {
        let i = choose|i: int| spec_missing_at(s1, plan, i);
        assert(spec_missing_at(s2, plan, i));
    }
    if exists|i: int| spec_missing_at(s2, plan, i) {
        let i = choose|i: int| spec_missing_at(s2, plan, i);
        assert(spec_missing_at(s1, plan, i));
    }
}

/// An optional field's finished value reflects its slot exactly: a set
/// field finishes as its stored value, a never-set field finishes unset.
pub proof fn lemma_optional_faithful(slot: Option<ValueModel>, p: FieldPlan, o: Finished)
    requires
        p.rule is TakeOptional,
        spec_finished_ok(slot, p, o),
    ensures
        o matches Finished::Opt(s) && opt_value_view(s) == slot,
{
}

/// Accumulation touches only its own slot and preserves the slot count.
pub proof fn lemma_accumulate_all_frame(
    slots: Seq<Option<ValueModel>>,
    i: int,
    es: Seq<Seq<char>>,
)
    requires
        0 <= i < slots.len(),
    ensures
        spec_accumulate_all(slots, i, es).len() == slots.len(),
        forall|j: int| 0 <= j < slots.len() && j != i ==> #[trigger] spec_accumulate_all(
            slots,
            i,
            es,
        )[j] == slots[j],
    decreases es.len(),
{
    if es.len() > 0 {
        lemma_accumulate_all_frame(slots, i, es.drop_last());
    }
}

/// Order preservation of the accumulator: starting from a slot with no
/// accumulated elements, accumulating `e1, e2, ..., eN` in order leaves the
/// slot holding exactly the sequence `[e1, e2, ..., eN]` — no reordering
/// and no deduplication.
pub proof fn lemma_accumulate_order(slots: Seq<Option<ValueModel>>, i: int, es: Seq<Seq<char>>)
    requires
        0 <= i < slots.len(),
        spec_slot_elems(slots[i]) == Seq::<Seq<char>>::empty(),
    ensures
        spec_accumulate_all(slots, i, es).len() == slots.len(),
        es.len() > 0 ==> spec_accumulate_all(slots, i, es)[i] == Some(ValueModel::Many(es)),
    decreases es.len(),
{
    lemma_accumulate_all_frame(slots, i, es);
    if es.len() > 0 {
        lemma_accumulate_order(slots, i, es.drop_last());
        let prev = spec_accumulate_all(slots, i, es.drop_last());
        if es.len() == 1 {
            assert(es.drop_last().len() == 0);
            assert(prev == slots);
            assert(spec_slot_elems(prev[i]).push(es.last()) =~= es);
        } else {
            assert(prev[i] == Some(ValueModel::Many(es.drop_last())));
            assert(es.drop_last().push(es.last()) =~= es);
        }
    }
}

/// Overwrite semantics of the whole-value setter for a sequence field:
/// whatever was accumulated before, setting the field stores exactly the
/// new value, and every other slot keeps what accumulation left there.
pub proof fn lemma_setter_overwrites(
    slots: Seq<Option<ValueModel>>,
    i: int,
    es: Seq<Seq<char>>,
    v: ValueModel,
)
    requires
        0 <= i < slots.len(),
    ensures
        spec_accumulate_all(slots, i, es).update(i, Some(v))[i] == Some(v),
        forall|j: int| 0 <= j < slots.len() && j != i ==> #[trigger] spec_accumulate_all(
            slots,
            i,
            es,
        ).update(i, Some(v))[j] == slots[j],
{
    lemma_accumulate_all_frame(slots, i, es);
}

/// A configured default is used exactly when the field was never set: the
/// finished value is the stored one when the slot is set — the default is
/// not consulted — and the default's value otherwise.
pub proof fn lemma_default_used_iff_unset(slot: Option<ValueModel>, p: FieldPlan, o: Finished)
    requires
        p.rule is UseDefault,
        spec_finished_ok(slot, p, o),
    ensures
        slot matches Some(m) ==> (o matches Finished::Val(v) && v@ == m),
        slot is None ==> (o matches Finished::Val(v) && (p.rule matches FinishRule::UseDefault(d)
            && v@ == d@)),
{
}

} // verus!

