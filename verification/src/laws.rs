//! What holds of every builder, whatever the schema and whatever the calls.

use vstd::prelude::*;
use vstd::seq_lib::seq_to_set_is_finite;
use vstd::set_lib::{lemma_int_range, lemma_subset_equality, set_int_range};
use crate::runtime::{
    build_outcome, built_values, field_value, fresh_slots, is_first_missing, is_missing,
    lemma_first_missing, set_slot, FieldValue, Value,
};
use crate::schema::SchemaModel;

verus! {

/// One call of a setter: the setter's name and the value given to it.
pub struct SetterCall {
    pub name: Seq<char>,
    pub value: Value,
}

/// The slots after `calls` were made one after the other, starting from
/// `slots`.
pub open spec fn after_calls(
    s: SchemaModel,
    slots: Seq<Option<Value>>,
    calls: Seq<SetterCall>,
) -> Seq<Option<Value>>
    decreases calls.len(),
{
    if calls.len() == 0 {
        slots
    } else {
        set_slot(s, after_calls(s, slots, calls.drop_last()), calls.last().name, calls.last().value)
    }
}

/// The slots of a builder that was freshly made and then given `calls`.
pub open spec fn slots_after(s: SchemaModel, calls: Seq<SetterCall>) -> Seq<Option<Value>> {
    after_calls(s, fresh_slots(s), calls)
}

/// Whether the setter called `name` was called at least once.
pub open spec fn was_called(calls: Seq<SetterCall>, name: Seq<char>) -> bool {
    exists|k: int| 0 <= k < calls.len() && calls[k].name == name
}

/// Whether call `k` is the last call of the setter called `name`.
pub open spec fn is_last_call(calls: Seq<SetterCall>, name: Seq<char>, k: int) -> bool {
    &&& 0 <= k < calls.len()
    &&& calls[k].name == name
    &&& forall|l: int| k < l < calls.len() ==> calls[l].name != name
}

/// Whether every field of the schema is required.
pub open spec fn all_required(s: SchemaModel) -> bool {
    forall|i: int| 0 <= i < s.fields.len() ==> !s.fields[i].is_optional
}

/// Whether the setter of every field was called at least once.
pub open spec fn all_called(s: SchemaModel, calls: Seq<SetterCall>) -> bool {
    forall|i: int| 0 <= i < s.fields.len() ==> was_called(calls, s.fields[i].name)
}

/// Whether the setter of every required field was called at least once.
pub open spec fn required_called(s: SchemaModel, calls: Seq<SetterCall>) -> bool {
    forall|i: int|
        0 <= i < s.fields.len() && !s.fields[i].is_optional ==> was_called(
            calls,
            s.fields[i].name,
        )
}

/// Whether `order` lists every position below `n` exactly once.
pub open spec fn is_permutation(order: Seq<int>, n: nat) -> bool {
    &&& order.len() == n
    &&& order.no_duplicates()
    &&& forall|k: int| 0 <= k < order.len() ==> 0 <= #[trigger] order[k] < n
}

/// The calls that set every field once, field `order[k]` in the `k`-th
/// call, each to its value in `values`.
pub open spec fn calls_in_order(s: SchemaModel, values: Seq<Value>, order: Seq<int>) -> Seq<
    SetterCall,
> {
    Seq::new(
        order.len(),
        |k: int| SetterCall { name: s.fields[order[k]].name, value: values[order[k]] },
    )
}

/// The values of the record that is made directly from one value per field.
pub open spec fn direct_values(s: SchemaModel, values: Seq<Value>) -> Seq<FieldValue> {
    Seq::new(s.fields.len(), |i: int| field_value(s.fields[i].is_optional, Some(values[i])))
}

/// Calls change no builder's number of slots.
pub proof fn lemma_slot_count(s: SchemaModel, calls: Seq<SetterCall>)
    ensures
        slots_after(s, calls).len() == s.fields.len(),
    decreases calls.len(),
{
    if calls.len() > 0 {
        lemma_slot_count(s, calls.drop_last());
    }
}

/// A slot is present iff the setter of its field was called, and then it
/// holds the value of the last such call.
pub proof fn lemma_slot_after_calls(s: SchemaModel, calls: Seq<SetterCall>, i: int)
    requires
        s.names_unique(),
        0 <= i < s.fields.len(),
    ensures
        slots_after(s, calls)[i] is Some <==> was_called(calls, s.fields[i].name),
        forall|k: int|
            is_last_call(calls, s.fields[i].name, k) ==> slots_after(s, calls)[i] == Some(
                calls[k].value,
            ),
    decreases calls.len(),
{
    let name = s.fields[i].name;
    if calls.len() > 0 {
        let before = calls.drop_last();
        lemma_slot_after_calls(s, before, i);
        lemma_slot_count(s, before);
        if calls.last().name != name {
            // The last call leaves the slot alone, and the calls of this
            // setter are those that were made before it.
            if was_called(calls, name) {
                let k = choose|k: int| 0 <= k < calls.len() && calls[k].name == name;
                assert(before[k].name == name);
            }
            if was_called(before, name) {
                let k = choose|k: int| 0 <= k < before.len() && before[k].name == name;
                assert(calls[k].name == name);
            }
            assert forall|k: int| is_last_call(calls, name, k) implies slots_after(s, calls)[i]
                == Some(calls[k].value) by {
                assert(is_last_call(before, name, k));
            }
        }
    }
}

/// `build` succeeds iff the setter of every required field was called at
/// least once before.
pub proof fn law_build_needs_the_required_setters(s: SchemaModel, calls: Seq<SetterCall>)
    requires
        s.names_unique(),
    ensures
        build_outcome(s, slots_after(s, calls)) is Ok <==> required_called(s, calls),
{
    let slots = slots_after(s, calls);
    assert forall|i: int| 0 <= i < s.fields.len() implies (slots[i] is Some <==> was_called(
        calls,
        s.fields[i].name,
    )) by {
        lemma_slot_after_calls(s, calls, i);
    }
    if !required_called(s, calls) {
        let i = choose|i: int|
            0 <= i < s.fields.len() && !s.fields[i].is_optional && !was_called(
                calls,
                s.fields[i].name,
            );
        assert(is_missing(s, slots, i));
    }
}

/// Where every field is required, `build` succeeds iff the setter of every
/// field was called at least once before.
pub proof fn law_required_fields_need_their_setters(s: SchemaModel, calls: Seq<SetterCall>)
    requires
        s.names_unique(),
        all_required(s),
    ensures
        build_outcome(s, slots_after(s, calls)) is Ok <==> all_called(s, calls),
{
    law_build_needs_the_required_setters(s, calls);
}

/// Where the setter of every required field but one was called, `build`
/// fails and names the required field that was left out. So it is where
/// every field is required and exactly one setter was not called.
pub proof fn law_omitted_field_is_named(s: SchemaModel, calls: Seq<SetterCall>, omitted: int)
    requires
        s.names_unique(),
        0 <= omitted < s.fields.len(),
        !s.fields[omitted].is_optional,
        !was_called(calls, s.fields[omitted].name),
        forall|i: int|
            0 <= i < s.fields.len() && !s.fields[i].is_optional && i != omitted ==> was_called(
                calls,
                s.fields[i].name,
            ),
    ensures
        build_outcome(s, slots_after(s, calls)) == Err::<Seq<FieldValue>, Seq<char>>(
            s.fields[omitted].name,
        ),
{
    let slots = slots_after(s, calls);
    assert forall|i: int| 0 <= i < s.fields.len() implies (slots[i] is Some <==> was_called(
        calls,
        s.fields[i].name,
    )) by {
        lemma_slot_after_calls(s, calls, i);
    }
    assert(is_first_missing(s, slots, omitted));
    lemma_first_missing(s, slots, omitted);
}

/// On a builder on which no setter was called, `build` fails and names the
/// first required field in declaration order.
pub proof fn law_fresh_builder_lacks_first_required(s: SchemaModel, first: int)
    requires
        0 <= first < s.fields.len(),
        !s.fields[first].is_optional,
        forall|j: int| 0 <= j < first ==> s.fields[j].is_optional,
    ensures
        build_outcome(s, fresh_slots(s)) == Err::<Seq<FieldValue>, Seq<char>>(
            s.fields[first].name,
        ),
{
    lemma_first_missing(s, fresh_slots(s), first);
}

/// Where no field is required, `build` succeeds on a builder on which no
/// setter was called, and every field of the record is absent.
pub proof fn law_fresh_builder_without_required_fields(s: SchemaModel)
    requires
        forall|i: int| 0 <= i < s.fields.len() ==> s.fields[i].is_optional,
    ensures
        build_outcome(s, fresh_slots(s)) == Ok::<Seq<FieldValue>, Seq<char>>(
            Seq::new(s.fields.len(), |i: int| FieldValue::Optional(None)),
        ),
{
    assert(built_values(s, fresh_slots(s)) =~= Seq::new(
        s.fields.len(),
        |i: int| FieldValue::Optional(None),
    ));
}

/// Once the setter of every required field was called, `build` succeeds
/// whether or not the setters of optional fields were called; an optional
/// field whose setter was not called is absent in the record.
pub proof fn law_optional_fields_never_block(s: SchemaModel, calls: Seq<SetterCall>)
    requires
        s.names_unique(),
        required_called(s, calls),
    ensures
        build_outcome(s, slots_after(s, calls)) matches Ok(values) && forall|i: int|
            0 <= i < s.fields.len() && s.fields[i].is_optional && !was_called(
                calls,
                s.fields[i].name,
            ) ==> values[i] == FieldValue::Optional(None),
{
    let slots = slots_after(s, calls);
    assert forall|i: int| 0 <= i < s.fields.len() implies (slots[i] is Some <==> was_called(
        calls,
        s.fields[i].name,
    )) by {
        lemma_slot_after_calls(s, calls, i);
    }
}

/// A permutation of the positions below `n` reaches every one of them.
pub proof fn lemma_permutation_reaches_all(order: Seq<int>, n: nat, i: int)
    requires
        is_permutation(order, n),
        0 <= i < n,
    ensures
        exists|k: int| 0 <= k < n && order[k] == i,
{
    let range = set_int_range(0, n as int);
    lemma_int_range(0, n as int);
    order.unique_seq_to_set();
    seq_to_set_is_finite(order);
    lemma_subset_equality(order.to_set(), range);
    assert(order.to_set().contains(i));
}

/// Calling the setter of every field once, in any order, and then `build`
/// gives the record that is made directly from the same values.
pub proof fn law_setter_order_is_irrelevant(s: SchemaModel, values: Seq<Value>, order: Seq<int>)
    requires
        s.names_unique(),
        values.len() == s.fields.len(),
        is_permutation(order, s.fields.len()),
    ensures
        build_outcome(s, slots_after(s, calls_in_order(s, values, order))) == Ok::<
            Seq<FieldValue>,
            Seq<char>,
        >(direct_values(s, values)),
{
    let calls = calls_in_order(s, values, order);
    let slots = slots_after(s, calls);
    assert forall|i: int| 0 <= i < s.fields.len() implies slots[i] == Some(values[i]) by {
        lemma_permutation_reaches_all(order, s.fields.len(), i);
        let k = choose|k: int| 0 <= k < s.fields.len() && order[k] == i;
        assert(is_last_call(calls, s.fields[i].name, k));
        lemma_slot_after_calls(s, calls, i);
    }
    lemma_slot_count(s, calls);
    assert(built_values(s, slots) =~= direct_values(s, values));
}

} // verus!
