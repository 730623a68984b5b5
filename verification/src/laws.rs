//! What holds of every generated builder, and of every definition that gets
//! none.

use vstd::prelude::*;
use crate::classify::{
    classification, optional_wrapper, sequence_wrapper, Classification, TypeMismatch,
};
use crate::descriptor::{FieldDescriptor, TypeSignature};
use crate::directive::{accumulation_key, expected_form_text, parsed, AttributeDirective};
use crate::emit::{emitted, Action, GeneratedCode, SlotKind};
use crate::generate::{malformed_at, mismatch_at, outcome, Outcome};
use crate::layout::{
    first_method, lemma_emitted_bounds, lemma_method_owner, lemma_methods_of_field,
    lemma_required_methods,
};
use crate::runtime::{
    accepts, after, built, initial, missing_at, run, shaped, FieldContent, Given, RecordContent,
    SlotState,
};
use crate::scan::{first_from, lemma_first_from, lemma_first_from_agrees};
use crate::syntax::{Body, FieldDef, MarkerBody, Nested, TypeDef};

verus! {

/// The value that the last call of `method` with one value was given.
pub open spec fn last_value(calls: Seq<(int, Given)>, method: int) -> Option<String>
    decreases calls.len(),
{
    if calls.len() == 0 {
        None
    } else {
        match calls.last().1 {
            Given::One(value) => if calls.last().0 == method {
                Some(value)
            } else {
                last_value(calls.drop_last(), method)
            },
            Given::Many(_) => last_value(calls.drop_last(), method),
        }
    }
}

/// The values that the calls of `method` with one value were given, in the
/// order of the calls.
pub open spec fn values_given(calls: Seq<(int, Given)>, method: int) -> Seq<String>
    decreases calls.len(),
{
    if calls.len() == 0 {
        Seq::empty()
    } else {
        match calls.last().1 {
            Given::One(value) => if calls.last().0 == method {
                values_given(calls.drop_last(), method).push(value)
            } else {
                values_given(calls.drop_last(), method)
            },
            Given::Many(_) => values_given(calls.drop_last(), method),
        }
    }
}

/// One call of `method` for each of `values`, in their order.
pub open spec fn calls_of(method: int, values: Seq<String>) -> Seq<(int, Given)> {
    Seq::new(values.len(), |k: int| (method, Given::One(values[k])))
}

/// A call leaves a state in the shape of the code.
proof fn lemma_after_shaped(code: GeneratedCode, state: Seq<SlotState>, method: int, given: Given)
    requires
        shaped(code, state),
    ensures
        shaped(code, after(code, state, method, given)),
{
}

/// A series of calls leaves a state in the shape of the code.
proof fn lemma_run_shaped(code: GeneratedCode, state: Seq<SlotState>, calls: Seq<(int, Given)>)
    requires
        shaped(code, state),
    ensures
        shaped(code, run(code, state, calls)),
    decreases calls.len(),
{
    if calls.len() > 0 {
        lemma_run_shaped(code, state, calls.drop_last());
        lemma_after_shaped(
            code,
            run(code, state, calls.drop_last()),
            calls.last().0,
            calls.last().1,
        );
    }
}

/// In a record of required fields only, a slot holds what its setter was
/// last given, and is absent while the setter has not been called.
proof fn lemma_required_run(
    name: String,
    fields: Seq<FieldDescriptor>,
    classifications: Seq<Classification>,
    code: GeneratedCode,
    calls: Seq<(int, Given)>,
)
    requires
        classifications.len() == fields.len(),
        emitted(name, fields, classifications, code),
        forall|i: int| 0 <= i < fields.len() ==> classifications[i] is Required,
    ensures
        shaped(code, run(code, initial(code.slots@), calls)),
        forall|i: int|
            0 <= i < fields.len() ==> #[trigger] run(code, initial(code.slots@), calls)[i]
                == match last_value(calls, i) {
                Some(value) => SlotState::Present(value),
                None => SlotState::Absent,
            },
    decreases calls.len(),
{
    lemma_emitted_bounds(name, fields, classifications, code);
    lemma_required_methods(fields, classifications, fields.len() as int);
    lemma_run_shaped(code, initial(code.slots@), calls);
    if calls.len() > 0 {
        lemma_required_run(name, fields, classifications, code, calls.drop_last());
        lemma_run_shaped(code, initial(code.slots@), calls.drop_last());
        let method = calls.last().0;
        assert forall|i: int| 0 <= i < fields.len() implies #[trigger] run(
            code,
            initial(code.slots@),
            calls,
        )[i] == match last_value(calls, i) {
            Some(value) => SlotState::Present(value),
            None => SlotState::Absent,
        } by {
            assert(classifications[i] is Required);
            if 0 <= method < fields.len() {
                assert(code.methods@[method].slot == method);
                assert(classifications[method] is Required);
            }
        }
    }
}

/// As many calls of one method yield as many values, in the order of the
/// calls.
proof fn lemma_values_of_calls(method: int, values: Seq<String>)
    ensures
        values_given(calls_of(method, values), method) == values,
    decreases values.len(),
{
    let calls = calls_of(method, values);
    if values.len() > 0 {
        lemma_values_of_calls(method, values.drop_last());
        assert(calls.drop_last() =~= calls_of(method, values.drop_last()));
        assert(values_given(calls, method) =~= values);
    } else {
        assert(values_given(calls, method) =~= values);
    }
}

/// Every method of a generated builder writes a slot that the builder has,
/// in the way that fits the slot: a method that sets a value writes a slot
/// that is not repeated, a method that appends or replaces writes a repeated
/// one. So each method can be called, with one value or with a sequence as
/// its action asks.
pub proof fn law_methods_fit_their_slots(
    name: String,
    fields: Seq<FieldDescriptor>,
    classifications: Seq<Classification>,
    code: GeneratedCode,
    method: int,
    value: String,
    values: Seq<String>,
)
    requires
        classifications.len() == fields.len(),
        emitted(name, fields, classifications, code),
        0 <= method < code.methods@.len(),
    ensures
        code.methods@[method].slot < code.slots@.len(),
        code.methods@[method].action is Assign <==> code.slots@[code.methods@[method].slot as int].kind
            != SlotKind::Repeated,
        accepts(code, method, Given::One(value)) <==> !(code.methods@[method].action is Replace),
        accepts(code, method, Given::Many(values)) <==> code.methods@[method].action is Replace,
{
    lemma_emitted_bounds(name, fields, classifications, code);
    lemma_method_owner(fields, classifications, fields.len() as int, method);
}

/// The methods that write one slot of a generated builder have different
/// names: where the accessor of a repeated field has the field's own name,
/// the setter of that name is not generated.
pub proof fn law_no_collision_within_a_field(
    name: String,
    fields: Seq<FieldDescriptor>,
    classifications: Seq<Classification>,
    code: GeneratedCode,
    first: int,
    second: int,
)
    requires
        classifications.len() == fields.len(),
        emitted(name, fields, classifications, code),
        0 <= first < second < code.methods@.len(),
        code.methods@[first].slot == code.methods@[second].slot,
    ensures
        code.methods@[first].name@ != code.methods@[second].name@,
{
    lemma_emitted_bounds(name, fields, classifications, code);
    let n = fields.len() as int;
    let owner = lemma_method_owner(fields, classifications, n, first);
    let other = lemma_method_owner(fields, classifications, n, second);
    assert(owner == other);
}

/// Whether the setter of the field at a position has not been called.
pub open spec fn unset_at(calls: Seq<(int, Given)>) -> spec_fn(int) -> bool {
    |i: int| last_value(calls, i) is None
}

/// A record with only required fields. The setter of a field is the method
/// with the field's index. After any series of calls on a builder from the
/// factory, construction fails while a setter has not been called, and names
/// the first such field; before any call that is the first field. Once every
/// setter has been called, construction yields the record that holds, for
/// each field, the value last given to the field's setter.
pub proof fn law_required_fields(
    name: String,
    fields: Seq<FieldDescriptor>,
    classifications: Seq<Classification>,
    code: GeneratedCode,
    calls: Seq<(int, Given)>,
)
    requires
        classifications.len() == fields.len(),
        emitted(name, fields, classifications, code),
        forall|i: int| 0 <= i < fields.len() ==> classifications[i] is Required,
    ensures
        code.methods@.len() == fields.len(),
        forall|i: int|
            0 <= i < fields.len() ==> (#[trigger] code.methods@[i]).name == fields[i].name
                && code.methods@[i].action == Action::Assign,
        fields.len() > 0 ==> built(code, initial(code.slots@)) == Err::<RecordContent, String>(
            fields[0].name,
        ),
        built(code, run(code, initial(code.slots@), calls)) == match first_from(
            unset_at(calls),
            0,
            fields.len() as int,
        ) {
            Some(i) => Err(fields[i].name),
            None => Ok(
                RecordContent {
                    name,
                    fields: Seq::new(
                        fields.len(),
                        |i: int| (fields[i].name, FieldContent::One(last_value(calls, i)->0)),
                    ),
                },
            ),
        },
{
    lemma_emitted_bounds(name, fields, classifications, code);
    lemma_required_methods(fields, classifications, fields.len() as int);
    let n = fields.len() as int;
    assert forall|i: int| 0 <= i < n implies code.slots@[i].kind == SlotKind::Required
        && code.slots@[i].name == fields[i].name by {
        assert(classifications[i] is Required);
    }
    if n > 0 {
        assert(missing_at(code.slots@, initial(code.slots@))(0));
    }
    let state = run(code, initial(code.slots@), calls);
    lemma_required_run(name, fields, classifications, code, calls);
    assert forall|i: int| 0 <= i < n implies #[trigger] missing_at(code.slots@, state)(i)
        == unset_at(calls)(i) by {
        assert(state[i] is Absent <==> last_value(calls, i) is None);
    }
    lemma_first_from_agrees(missing_at(code.slots@, state), unset_at(calls), 0, n);
    lemma_first_from(unset_at(calls), 0, n);
    if first_from(unset_at(calls), 0, n) is None {
        assert(built(code, state)->Ok_0.fields =~= Seq::new(
            fields.len(),
            |i: int| (fields[i].name, FieldContent::One(last_value(calls, i)->0)),
        )) by {
            assert forall|i: int| 0 <= i < n implies built(code, state)->Ok_0.fields[i] == (
                fields[i].name,
                FieldContent::One(last_value(calls, i)->0),
            ) by {
                assert(!unset_at(calls)(i));
                assert(state[i] is Present);
            }
        }
    }
}

/// A slot that no call writes stays as it was: calls of the methods of other
/// slots, and calls that the builder does not have, leave it alone. So an
/// optional field whose setter is never called is absent when the record is
/// constructed.
pub proof fn law_untouched_slot_keeps_its_state(
    code: GeneratedCode,
    state: Seq<SlotState>,
    calls: Seq<(int, Given)>,
    slot: int,
)
    requires
        0 <= slot < state.len(),
        forall|k: int|
            0 <= k < calls.len() && 0 <= (#[trigger] calls[k]).0 < code.methods@.len()
                ==> code.methods@[calls[k].0].slot != slot,
    ensures
        run(code, state, calls).len() == state.len(),
        run(code, state, calls)[slot] == state[slot],
    decreases calls.len(),
{
    if calls.len() > 0 {
        let earlier = calls.drop_last();
        assert forall|k: int|
            0 <= k < earlier.len() && 0 <= (#[trigger] earlier[k]).0
                < code.methods@.len() implies code.methods@[earlier[k].0].slot != slot by {
            assert(earlier[k] == calls[k]);
        }
        law_untouched_slot_keeps_its_state(code, state, earlier, slot);
        assert(calls.last() == calls[calls.len() - 1]);
    }
}

/// Construction fails only for a required slot that is absent. Where it
/// succeeds, every slot that is absent becomes a field without a value, and
/// only an optional slot can be one.
pub proof fn law_optional_absence(code: GeneratedCode, state: Seq<SlotState>)
    requires
        shaped(code, state),
    ensures
        match built(code, state) {
            Err(name) => exists|i: int|
                0 <= i < state.len() && code.slots@[i].kind == SlotKind::Required
                    && #[trigger] state[i] is Absent && code.slots@[i].name == name,
            Ok(record) => record.fields.len() == state.len() && forall|i: int|
                0 <= i < state.len() && #[trigger] state[i] is Absent ==> code.slots@[i].kind
                    == SlotKind::Optional && record.fields[i] == (
                    code.slots@[i].name,
                    FieldContent::Maybe(None),
                ),
        },
{
    let n = code.slots@.len() as int;
    lemma_first_from(missing_at(code.slots@, state), 0, n);
    match built(code, state) {
        Err(name) => {
            let i = first_from(missing_at(code.slots@, state), 0, n)->0;
            assert(state[i] is Absent);
        },
        Ok(record) => {
            assert forall|i: int| 0 <= i < state.len() && #[trigger] state[i] is Absent implies code.slots@[i].kind
                == SlotKind::Optional && record.fields[i] == (
                code.slots@[i].name,
                FieldContent::Maybe(None),
            ) by {
                assert(!missing_at(code.slots@, state)(i));
                assert(state[i].fits(code.slots@[i].kind));
            }
        },
    }
}

/// A record without required fields: construction succeeds before any method
/// is called. An optional field then has no value and a repeated field has
/// no elements.
pub proof fn law_nothing_required(
    name: String,
    fields: Seq<FieldDescriptor>,
    classifications: Seq<Classification>,
    code: GeneratedCode,
)
    requires
        classifications.len() == fields.len(),
        emitted(name, fields, classifications, code),
        forall|i: int| 0 <= i < fields.len() ==> !(classifications[i] is Required),
    ensures
        built(code, initial(code.slots@)) == Ok::<RecordContent, String>(
            RecordContent {
                name,
                fields: Seq::new(
                    fields.len(),
                    |i: int|
                        (
                            fields[i].name,
                            if classifications[i] is Optional {
                                FieldContent::Maybe(None)
                            } else {
                                FieldContent::Many(Seq::empty())
                            },
                        ),
                ),
            },
        ),
{
    lemma_emitted_bounds(name, fields, classifications, code);
    let n = fields.len() as int;
    let state = initial(code.slots@);
    lemma_first_from(missing_at(code.slots@, state), 0, n);
    if first_from(missing_at(code.slots@, state), 0, n) is Some {
        let i = first_from(missing_at(code.slots@, state), 0, n)->0;
        assert(!(classifications[i] is Required));
    }
    assert(built(code, state)->Ok_0.fields =~= Seq::new(
        fields.len(),
        |i: int|
            (
                fields[i].name,
                if classifications[i] is Optional {
                    FieldContent::Maybe(None)
                } else {
                    FieldContent::Many(Seq::empty())
                },
            ),
    )) by {
        assert forall|i: int| 0 <= i < n implies built(code, state)->Ok_0.fields[i] == (
            fields[i].name,
            if classifications[i] is Optional {
                FieldContent::Maybe(None)
            } else {
                FieldContent::Many(Seq::<String>::empty())
            },
        ) by {
            assert(!(classifications[i] is Required));
        }
    }
}

/// A repeated field whose accessor has the field's own name: the only method
/// that writes the field's slot is the appending one, under that name. After
/// any series of calls from the factory's state on, the slot holds what the
/// calls of that method were given, one element per call, in the order of the
/// calls.
pub proof fn law_accessor_named_as_field(
    name: String,
    fields: Seq<FieldDescriptor>,
    classifications: Seq<Classification>,
    code: GeneratedCode,
    field: int,
    calls: Seq<(int, Given)>,
)
    requires
        classifications.len() == fields.len(),
        emitted(name, fields, classifications, code),
        0 <= field < fields.len(),
        classifications[field] matches Classification::Repeated(_, accessor) && accessor@
            == fields[field].name@,
    ensures
        0 <= first_method(fields, classifications, field) < code.methods@.len(),
        forall|m: int|
            0 <= m < code.methods@.len() && (#[trigger] code.methods@[m]).slot == field ==> m
                == first_method(fields, classifications, field) && code.methods@[m].action
                == Action::Append && code.methods@[m].name
                == classifications[field]->Repeated_1,
        code.methods@[first_method(fields, classifications, field)].slot == field,
        run(code, initial(code.slots@), calls)[field] == SlotState::Items(
            values_given(calls, first_method(fields, classifications, field)),
        ),
    decreases calls.len(),
{
    lemma_emitted_bounds(name, fields, classifications, code);
    let n = fields.len() as int;
    let append = first_method(fields, classifications, field);
    lemma_methods_of_field(fields, classifications, field, n, 0);
    assert forall|m: int|
        0 <= m < code.methods@.len() && (#[trigger] code.methods@[m]).slot == field implies m
        == append && code.methods@[m].action == Action::Append && code.methods@[m].name
        == classifications[field]->Repeated_1 by {
        let owner = lemma_method_owner(fields, classifications, n, m);
        assert(owner == field);
    }
    if calls.len() > 0 {
        law_accessor_named_as_field(name, fields, classifications, code, field, calls.drop_last());
        lemma_run_shaped(code, initial(code.slots@), calls.drop_last());
        let before = run(code, initial(code.slots@), calls.drop_last());
        let m = calls.last().0;
        if 0 <= m < code.methods@.len() {
            assert(code.methods@[m].slot == field ==> m == append);
        }
        assert(before[field].fits(code.slots@[field].kind));
    }
}

/// A repeated field whose accessor has the field's own name: as many calls
/// of the appending method, on a builder from the factory, leave as many
/// elements in the slot, in the order of the calls.
pub proof fn law_appends_keep_call_order(
    name: String,
    fields: Seq<FieldDescriptor>,
    classifications: Seq<Classification>,
    code: GeneratedCode,
    field: int,
    values: Seq<String>,
)
    requires
        classifications.len() == fields.len(),
        emitted(name, fields, classifications, code),
        0 <= field < fields.len(),
        classifications[field] matches Classification::Repeated(_, accessor) && accessor@
            == fields[field].name@,
    ensures
        run(
            code,
            initial(code.slots@),
            calls_of(first_method(fields, classifications, field), values),
        )[field] == SlotState::Items(values),
{
    let append = first_method(fields, classifications, field);
    law_accessor_named_as_field(
        name,
        fields,
        classifications,
        code,
        field,
        calls_of(append, values),
    );
    lemma_values_of_calls(append, values);
}

/// A repeated field whose accessor has another name than the field: the
/// field's first method, under the field's name, replaces the whole sequence,
/// and the next one, under the accessor's name, appends one element. Whatever
/// was called before, a call of the replacing method leaves exactly the
/// sequence it was given in the slot, and a call of the appending method
/// adds its element at the end.
pub proof fn law_accessor_named_apart(
    name: String,
    fields: Seq<FieldDescriptor>,
    classifications: Seq<Classification>,
    code: GeneratedCode,
    field: int,
    prior: Seq<(int, Given)>,
    values: Seq<String>,
    element: String,
)
    requires
        classifications.len() == fields.len(),
        emitted(name, fields, classifications, code),
        0 <= field < fields.len(),
        classifications[field] matches Classification::Repeated(_, accessor) && accessor@
            != fields[field].name@,
    ensures
        ({
            let replace = first_method(fields, classifications, field);
            let append = replace + 1;
            let before = run(code, initial(code.slots@), prior);
            &&& 0 <= replace && append < code.methods@.len()
            &&& code.methods@[replace].slot == field
            &&& code.methods@[replace].action == Action::Replace
            &&& code.methods@[replace].name == fields[field].name
            &&& code.methods@[append].slot == field
            &&& code.methods@[append].action == Action::Append
            &&& code.methods@[append].name == classifications[field]->Repeated_1
            &&& run(code, initial(code.slots@), prior.push((replace, Given::Many(values))))[field]
                == SlotState::Items(values)
            &&& run(code, initial(code.slots@), prior.push((append, Given::One(element))))[field]
                == SlotState::Items(before[field].items().push(element))
        }),
{
    lemma_emitted_bounds(name, fields, classifications, code);
    let n = fields.len() as int;
    lemma_methods_of_field(fields, classifications, field, n, 0);
    lemma_methods_of_field(fields, classifications, field, n, 1);
    lemma_run_shaped(code, initial(code.slots@), prior);
    let replace = first_method(fields, classifications, field);
    let before = run(code, initial(code.slots@), prior);
    assert(before[field].fits(code.slots@[field].kind));
    let replaced = prior.push((replace, Given::Many(values)));
    assert(replaced.drop_last() =~= prior);
    let appended = prior.push((replace + 1, Given::One(element)));
    assert(appended.drop_last() =~= prior);
}

/// Every malformed form of a marker's body is refused: the bare marker, a
/// list of more or fewer than one item (so a key given twice), an item that
/// is no pair, a key other than `each`, a value that is no string. Each is
/// answered with the message that names the expected form.
pub proof fn law_malformed_forms(body: MarkerBody)
    requires
        body matches MarkerBody::List(items) ==> {
            ||| items@.len() != 1
            ||| items@[0] is Other
            ||| (items@[0] matches Nested::Pair(key, _) && key@ != accumulation_key())
            ||| (items@[0] matches Nested::Pair(_, value) && value is Other)
        },
        !(body is Unreadable),
    ensures
        body.directive() == Err::<AttributeDirective, Seq<char>>(expected_form_text()),
{
}

/// A record with a field whose markers are malformed gets no code: generation
/// ends with the first such field.
pub proof fn law_malformed_means_no_code(input: TypeDef, field: int)
    requires
        input.body matches Body::Named(fields) && 0 <= field < fields@.len() && parsed(
            fields@[field].markers@,
        ) is Err,
    ensures
        outcome(input) matches Outcome::Malformed { field: first, .. } && 0 <= first <= field,
{
    let fields = input.body->Named_0@.map_values(|f: FieldDef| f.described());
    lemma_first_from(malformed_at(fields), 0, fields.len() as int);
    assert(malformed_at(fields)(field));
}

/// A directive on a field whose type is neither an optional wrapper nor a
/// sequence wrapper is a type mismatch.
pub proof fn law_directive_needs_sequence(signature: TypeSignature, directive: AttributeDirective)
    requires
        signature.inner_of(optional_wrapper()) is None,
        signature.inner_of(sequence_wrapper()) is None,
    ensures
        classification(signature, Some(directive)) == Err::<Classification, TypeMismatch>(
            TypeMismatch,
        ),
{
}

/// A record in which no field's markers are malformed and some field has a
/// directive that its type does not allow gets no code: generation ends with
/// the first such field.
pub proof fn law_mismatch_means_no_code(input: TypeDef, field: int)
    requires
        input.body matches Body::Named(fields) && 0 <= field < fields@.len() && (forall|i: int|
            0 <= i < fields@.len() ==> parsed(#[trigger] fields@[i].markers@) is Ok) && (parsed(
            fields@[field].markers@,
        ) matches Ok(Some(_))) && fields@[field].ty.signature().inner_of(optional_wrapper())
            is None && fields@[field].ty.signature().inner_of(sequence_wrapper()) is None,
    ensures
        outcome(input) matches Outcome::Mismatch { field: first } && 0 <= first <= field,
{
    let fields = input.body->Named_0@.map_values(|f: FieldDef| f.described());
    lemma_first_from(malformed_at(fields), 0, fields.len() as int);
    lemma_first_from(mismatch_at(fields), 0, fields.len() as int);
    if first_from(malformed_at(fields), 0, fields.len() as int) is Some {
        let i = first_from(malformed_at(fields), 0, fields.len() as int)->0;
        assert(parsed(input.body->Named_0@[i].markers@) is Ok);
    }
    assert(mismatch_at(fields)(field));
}

} // verus!
