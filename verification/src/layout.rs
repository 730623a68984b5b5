//! Where the methods of each field stand among the methods of a generated
//! builder.

use vstd::prelude::*;
use crate::classify::Classification;
use crate::descriptor::FieldDescriptor;
use crate::emit::{emitted, methods_upto, Action, GeneratedCode};
use crate::runtime::{initial, shaped};

verus! {

/// The index of the first method of the field at position `field`.
pub open spec fn first_method(
    fields: Seq<FieldDescriptor>,
    classifications: Seq<Classification>,
    field: int,
) -> int {
    methods_upto(fields, classifications, field).len() as int
}

/// The methods of the first fields stand first among the methods of more
/// fields.
pub proof fn lemma_methods_grow(
    fields: Seq<FieldDescriptor>,
    classifications: Seq<Classification>,
    i: int,
    n: int,
)
    requires
        0 <= i <= n,
    ensures
        first_method(fields, classifications, i) <= first_method(fields, classifications, n),
        methods_upto(fields, classifications, n).subrange(
            0,
            first_method(fields, classifications, i),
        ) == methods_upto(fields, classifications, i),
    decreases n - i,
{
    if i < n {
        lemma_methods_grow(fields, classifications, i, n - 1);
    }
    assert(methods_upto(fields, classifications, n).subrange(
        0,
        first_method(fields, classifications, i),
    ) =~= methods_upto(fields, classifications, i));
}

/// The methods of a field stand together, from the field's first method on.
pub proof fn lemma_methods_of_field(
    fields: Seq<FieldDescriptor>,
    classifications: Seq<Classification>,
    field: int,
    n: int,
    k: int,
)
    requires
        0 <= field < n,
        0 <= k < classifications[field].methods(fields[field].name, field as usize).len(),
    ensures
        first_method(fields, classifications, field) + k < first_method(
            fields,
            classifications,
            field + 1,
        ) <= first_method(fields, classifications, n),
        methods_upto(fields, classifications, n)[first_method(fields, classifications, field) + k]
            == classifications[field].methods(fields[field].name, field as usize)[k],
{
    lemma_methods_grow(fields, classifications, field + 1, n);
    let upto = methods_upto(fields, classifications, field + 1);
    let at = first_method(fields, classifications, field) + k;
    assert(upto[at] == classifications[field].methods(fields[field].name, field as usize)[k]);
    assert(methods_upto(fields, classifications, n).subrange(
        0,
        first_method(fields, classifications, field + 1),
    )[at] == methods_upto(fields, classifications, n)[at]);
}

/// Every method is one of the methods of the field whose slot it writes.
pub proof fn lemma_method_owner(
    fields: Seq<FieldDescriptor>,
    classifications: Seq<Classification>,
    n: int,
    m: int,
) -> (field: int)
    requires
        0 <= n <= usize::MAX,
        0 <= m < first_method(fields, classifications, n),
    ensures
        0 <= field < n,
        first_method(fields, classifications, field) <= m < first_method(
            fields,
            classifications,
            field + 1,
        ),
        methods_upto(fields, classifications, n)[m] == classifications[field].methods(
            fields[field].name,
            field as usize,
        )[m - first_method(fields, classifications, field)],
        methods_upto(fields, classifications, n)[m].slot == field,
    decreases n,
{
    if m < first_method(fields, classifications, n - 1) {
        let field = lemma_method_owner(fields, classifications, n - 1, m);
        lemma_methods_grow(fields, classifications, n - 1, n);
        assert(methods_upto(fields, classifications, n).subrange(
            0,
            first_method(fields, classifications, n - 1),
        )[m] == methods_upto(fields, classifications, n)[m]);
        field
    } else {
        n - 1
    }
}

/// The code has as many slots as the record has fields, and no more than an
/// index can count.
pub proof fn lemma_emitted_bounds(
    name: String,
    fields: Seq<FieldDescriptor>,
    classifications: Seq<Classification>,
    code: GeneratedCode,
)
    requires
        emitted(name, fields, classifications, code),
    ensures
        code.slots@.len() == fields.len(),
        fields.len() <= usize::MAX,
        code.methods@.len() == first_method(fields, classifications, fields.len() as int),
        shaped(code, initial(code.slots@)),
{
    assert(code.slots.len() == code.slots@.len());
}

/// In a record of required fields only, the method with a field's index is
/// the field's setter.
pub proof fn lemma_required_methods(
    fields: Seq<FieldDescriptor>,
    classifications: Seq<Classification>,
    n: int,
)
    requires
        0 <= n <= fields.len(),
        n <= usize::MAX,
        classifications.len() == fields.len(),
        forall|i: int| 0 <= i < fields.len() ==> classifications[i] is Required,
    ensures
        first_method(fields, classifications, n) == n,
        forall|i: int|
            0 <= i < n ==> (#[trigger] methods_upto(fields, classifications, n)[i]).slot == i
                && methods_upto(fields, classifications, n)[i].action == Action::Assign
                && methods_upto(fields, classifications, n)[i].name == fields[i].name,
    decreases n,
{
    if n > 0 {
        lemma_required_methods(fields, classifications, n - 1);
        assert(classifications[n - 1] is Required);
    }
}

} // verus!
