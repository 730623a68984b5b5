//! What the generated builder does when it runs: a builder object that is
//! driven by the generated code. Values are handed through as text and never
//! looked into.

use vstd::prelude::*;
use vstd::string::StringExecFns;
use crate::emit::{Action, GeneratedCode, Method, Slot, SlotKind};
use crate::scan::first_from;
use crate::text::is_word;

verus! {

/// What a slot of a running builder holds.
#[derive(Clone, Debug, PartialEq, Eq)]
pub enum SlotValue {
    /// Nothing yet.
    Absent,
    /// The value that was set last.
    Present(String),
    /// The elements of a repeated slot, in the order in which they came.
    Items(Vec<String>),
}

/// The content of a slot.
pub enum SlotState {
    Absent,
    Present(String),
    Items(Seq<String>),
}

impl View for SlotValue {
    type V = SlotState;

    open spec fn view(&self) -> SlotState {
        match *self {
            SlotValue::Absent => SlotState::Absent,
            SlotValue::Present(value) => SlotState::Present(value),
            SlotValue::Items(items) => SlotState::Items(items@),
        }
    }
}

impl SlotState {
    /// The sequence in the slot; empty where the slot holds none.
    pub open spec fn items(&self) -> Seq<String> {
        match *self {
            SlotState::Items(items) => items,
            _ => Seq::empty(),
        }
    }

    /// Whether a slot of this kind can be in this state.
    pub open spec fn fits(&self, kind: SlotKind) -> bool {
        (kind == SlotKind::Repeated) == (*self is Items)
    }
}

/// What is handed to a method of the builder.
#[derive(Clone, Debug, PartialEq, Eq)]
pub enum Argument {
    /// One value or one element.
    One(String),
    /// A whole sequence.
    Many(Vec<String>),
}

/// The content of an argument.
pub enum Given {
    One(String),
    Many(Seq<String>),
}

impl View for Argument {
    type V = Given;

    open spec fn view(&self) -> Given {
        match *self {
            Argument::One(value) => Given::One(value),
            Argument::Many(values) => Given::Many(values@),
        }
    }
}

/// What construction puts into a field of the record.
#[derive(Clone, Debug, PartialEq, Eq)]
pub enum FieldValue {
    /// The value of a required field.
    One(String),
    /// The value of an optional field, or none.
    Maybe(Option<String>),
    /// The elements of a repeated field, in the order in which they came.
    Many(Vec<String>),
}

/// The content of a field of a record.
pub enum FieldContent {
    One(String),
    Maybe(Option<String>),
    Many(Seq<String>),
}

impl View for FieldValue {
    type V = FieldContent;

    open spec fn view(&self) -> FieldContent {
        match *self {
            FieldValue::One(value) => FieldContent::One(value),
            FieldValue::Maybe(value) => FieldContent::Maybe(value),
            FieldValue::Many(values) => FieldContent::Many(values@),
        }
    }
}

/// A field of a constructed record.
#[derive(Clone, Debug, PartialEq, Eq)]
pub struct FieldEntry {
    pub name: String,
    pub value: FieldValue,
}

/// A constructed record: the value of every field, in declaration order.
#[derive(Clone, Debug, PartialEq, Eq)]
pub struct Record {
    /// The name of the record type.
    pub name: String,
    pub fields: Vec<FieldEntry>,
}

/// The content of a record.
pub struct RecordContent {
    pub name: String,
    pub fields: Seq<(String, FieldContent)>,
}

impl View for Record {
    type V = RecordContent;

    open spec fn view(&self) -> RecordContent {
        RecordContent {
            name: self.name,
            fields: self.fields@.map_values(|e: FieldEntry| (e.name, e.value@)),
        }
    }
}

/// Construction found a required field unset.
#[derive(Clone, Debug, PartialEq, Eq)]
pub struct MissingField {
    /// The name of the field.
    pub field: String,
}

/// What follows the field's name in the message of a `MissingField`.
pub open spec fn not_set_text() -> Seq<char> {
    " is not set"@
}

impl MissingField {
    /// The message for the caller: the field's name and that it is not set.
    pub fn message(&self) -> (r: String)
        ensures
            r@ == self.field@ + not_set_text(),
    {
        self.field.clone().concat(" is not set")
    }
}

/// The state in which the factory hands out a builder: a repeated slot holds
/// the empty sequence, every other slot is absent.
pub open spec fn initial(slots: Seq<Slot>) -> Seq<SlotState> {
    Seq::new(
        slots.len(),
        |i: int|
            if slots[i].kind == SlotKind::Repeated {
                SlotState::Items(Seq::empty())
            } else {
                SlotState::Absent
            },
    )
}

/// Whether the builder has the method with this index and the method takes
/// such an argument.
pub open spec fn accepts(code: GeneratedCode, method: int, given: Given) -> bool {
    &&& 0 <= method < code.methods@.len()
    &&& code.methods@[method].slot < code.slots@.len()
    &&& match (code.methods@[method].action, given) {
        (Action::Assign, Given::One(_)) => code.slots@[code.methods@[method].slot as int].kind
            != SlotKind::Repeated,
        (Action::Append, Given::One(_)) => code.slots@[code.methods@[method].slot as int].kind
            == SlotKind::Repeated,
        (Action::Replace, Given::Many(_)) => code.slots@[code.methods@[method].slot as int].kind
            == SlotKind::Repeated,
        _ => false,
    }
}

/// The state after a call of the method with this index. A call that the
/// builder does not accept changes nothing.
pub open spec fn after(code: GeneratedCode, state: Seq<SlotState>, method: int, given: Given) -> Seq<
    SlotState,
> {
    if accepts(code, method, given) && code.methods@[method].slot < state.len() {
        let slot = code.methods@[method].slot as int;
        match (code.methods@[method].action, given) {
            (Action::Assign, Given::One(value)) => state.update(slot, SlotState::Present(value)),
            (Action::Append, Given::One(value)) => state.update(
                slot,
                SlotState::Items(state[slot].items().push(value)),
            ),
            (Action::Replace, Given::Many(values)) => state.update(slot, SlotState::Items(values)),
            _ => state,
        }
    } else {
        state
    }
}

/// The state after a series of calls, each given by the index of its method
/// and its argument.
pub open spec fn run(code: GeneratedCode, state: Seq<SlotState>, calls: Seq<(int, Given)>) -> Seq<
    SlotState,
>
    decreases calls.len(),
{
    if calls.len() == 0 {
        state
    } else {
        after(code, run(code, state, calls.drop_last()), calls.last().0, calls.last().1)
    }
}

/// Whether the slot at a position is required and absent.
pub open spec fn missing_at(slots: Seq<Slot>, state: Seq<SlotState>) -> spec_fn(int) -> bool {
    |i: int| slots[i].kind == SlotKind::Required && state[i] is Absent
}

/// What construction makes of a slot.
pub open spec fn field_content(kind: SlotKind, state: SlotState) -> FieldContent {
    match state {
        SlotState::Absent => FieldContent::Maybe(None),
        SlotState::Present(value) => if kind == SlotKind::Required {
            FieldContent::One(value)
        } else {
            FieldContent::Maybe(Some(value))
        },
        SlotState::Items(items) => FieldContent::Many(items),
    }
}

/// What construction yields in a state: the record, or the name of the first
/// field in declaration order that is required and not set.
pub open spec fn built(code: GeneratedCode, state: Seq<SlotState>) -> Result<RecordContent, String> {
    match first_from(missing_at(code.slots@, state), 0, code.slots@.len() as int) {
        Some(i) => Err(code.slots@[i].name),
        None => Ok(
            RecordContent {
                name: code.target,
                fields: Seq::new(
                    code.slots@.len(),
                    |i: int| (code.slots@[i].name, field_content(code.slots@[i].kind, state[i])),
                ),
            },
        ),
    }
}

/// Whether a state has one entry per slot of the code, each of its slot's
/// kind.
pub open spec fn shaped(code: GeneratedCode, state: Seq<SlotState>) -> bool {
    &&& state.len() == code.slots@.len()
    &&& forall|i: int| 0 <= i < state.len() ==> (#[trigger] state[i]).fits(code.slots@[i].kind)
}

/// A running builder for one record.
pub struct Builder<'a> {
    code: &'a GeneratedCode,
    values: Vec<SlotValue>,
}

impl<'a> View for Builder<'a> {
    type V = Seq<SlotState>;

    closed spec fn view(&self) -> Seq<SlotState> {
        self.values@.map_values(|v: SlotValue| v@)
    }
}

impl GeneratedCode {
    /// The factory: a builder with every slot at its default.
    pub fn builder(&self) -> (b: Builder<'_>)
        ensures
            b.wf(),
            b.code() == *self,
            b@ == initial(self.slots@),
    {
        let mut values: Vec<SlotValue> = Vec::new();
        let mut i: usize = 0;
        while i < self.slots.len()
            invariant
                i <= self.slots@.len(),
                values@.len() == i,
                forall|k: int| 0 <= k < i ==> (#[trigger] values@[k])@ == initial(self.slots@)[k],
            decreases self.slots@.len() - i,
        {
            match self.slots[i].kind {
                SlotKind::Repeated => {
                    values.push(SlotValue::Items(Vec::new()));
                },
                _ => {
                    values.push(SlotValue::Absent);
                },
            }
            i += 1;
        }
        let b = Builder { code: self, values };
        assert(b@ =~= initial(self.slots@));
        b
    }
}

/// Whether the method at a position has the given name.
pub open spec fn named(methods: Seq<Method>, name: Seq<char>) -> spec_fn(int) -> bool {
    |i: int| methods[i].name@ == name
}

impl<'a> Builder<'a> {
    /// The code that drives the builder.
    pub closed spec fn code(&self) -> GeneratedCode {
        *self.code
    }

    /// The builder has one state per slot, of the slot's kind.
    pub open spec fn wf(&self) -> bool {
        shaped(self.code(), self@)
    }

    /// Whether the builder has the method with the given index and the method
    /// takes such an argument.
    pub fn takes(&self, method: usize, argument: &Argument) -> (r: bool)
        ensures
            r == accepts(self.code(), method as int, argument@),
    {
        if method >= self.code.methods.len() {
            return false;
        }
        let slot = self.code.methods[method].slot;
        if slot >= self.code.slots.len() {
            return false;
        }
        let repeated = match self.code.slots[slot].kind {
            SlotKind::Repeated => true,
            _ => false,
        };
        match (self.code.methods[method].action, argument) {
            (Action::Assign, Argument::One(_)) => !repeated,
            (Action::Append, Argument::One(_)) => repeated,
            (Action::Replace, Argument::Many(_)) => repeated,
            _ => false,
        }
    }

    /// Calls the method with the given index and hands back the builder, so
    /// that calls can be chained.
    ///
    /// A method that sets puts the value in its slot, one that appends pushes
    /// the element onto the slot's sequence, one that replaces puts the given
    /// sequence in the place of the slot's. A call that the builder does not
    /// take changes nothing.
    pub fn call(&mut self, method: usize, argument: Argument) -> (ret: &mut Self)
        requires
            old(self).wf(),
        ensures
            ret.wf(),
            ret.code() == old(self).code(),
            ret@ == after(old(self).code(), old(self)@, method as int, argument@),
            *final(self) == *final(ret),
    {
        if !self.takes(method, &argument) {
            return self;
        }
        let slot = self.code.methods[method].slot;
        match (self.code.methods[method].action, argument) {
            (Action::Assign, Argument::One(value)) => {
                self.values.set(slot, SlotValue::Present(value));
            },
            (Action::Append, Argument::One(value)) => {
                match self.values.remove(slot) {
                    SlotValue::Items(mut items) => {
                        items.push(value);
                        self.values.insert(slot, SlotValue::Items(items));
                    },
                    other => {
                        self.values.insert(slot, other);
                    },
                }
            },
            (Action::Replace, Argument::Many(values)) => {
                self.values.set(slot, SlotValue::Items(values));
            },
            _ => {},
        }
        assert(self@ =~= after(old(self).code(), old(self)@, method as int, argument@));
        self
    }

    /// The index of the first method of this name, if the builder has one.
    pub fn method_named(&self, name: &str) -> (r: Option<usize>)
        ensures
            first_from(named(self.code().methods@, name@), 0, self.code().methods@.len() as int)
                == match r {
                Some(i) => Some(i as int),
                None => None,
            },
    {
        let mut i: usize = 0;
        while i < self.code.methods.len()
            invariant
                i <= self.code.methods@.len(),
                first_from(
                    named(self.code.methods@, name@),
                    0,
                    self.code.methods@.len() as int,
                ) == first_from(
                    named(self.code.methods@, name@),
                    i as int,
                    self.code.methods@.len() as int,
                ),
            decreases self.code.methods@.len() - i,
        {
            if is_word(&self.code.methods[i].name, name) {
                return Some(i);
            }
            i += 1;
        }
        None
    }

    /// Constructs the record from what the builder holds. The builder stays
    /// as it is, so construction can be tried again after a failure.
    ///
    /// Every slot is read once, in declaration order. The first required slot
    /// that is absent ends construction with its field's name. An optional
    /// slot that is absent and a repeated slot that is empty are no failure.
    pub fn build(&self) -> (r: Result<Record, MissingField>)
        requires
            self.wf(),
        ensures
            match built(self.code(), self@) {
                Ok(content) => r matches Ok(record) && record@ == content,
                Err(name) => r matches Err(e) && e.field == name,
            },
    {
        let n = self.code.slots.len();
        let ghost state = self@;
        let mut fields: Vec<FieldEntry> = Vec::new();
        let mut i: usize = 0;
        while i < n
            invariant
                i <= n,
                n == self.code.slots@.len(),
                self.wf(),
                state == self@,
                first_from(missing_at(self.code.slots@, state), 0, n as int) == first_from(
                    missing_at(self.code.slots@, state),
                    i as int,
                    n as int,
                ),
                fields@.len() == i,
                forall|k: int|
                    0 <= k < i ==> (#[trigger] fields@[k]).name == self.code.slots@[k].name
                        && fields@[k].value@ == field_content(self.code.slots@[k].kind, state[k]),
            decreases n - i,
        {
            let slot = &self.code.slots[i];
            let required = match slot.kind {
                SlotKind::Required => true,
                _ => false,
            };
            let value = match &self.values[i] {
                SlotValue::Absent => {
                    if required {
                        return Err(MissingField { field: slot.name.clone() });
                    }
                    FieldValue::Maybe(None)
                },
                SlotValue::Present(value) => {
                    if required {
                        FieldValue::One(value.clone())
                    } else {
                        FieldValue::Maybe(Some(value.clone()))
                    }
                },
                SlotValue::Items(items) => {
                    let copy = items.clone();
                    assert(copy@ =~= items@);
                    FieldValue::Many(copy)
                },
            };
            fields.push(FieldEntry { name: slot.name.clone(), value });
            i += 1;
        }
        let record = Record { name: self.code.target.clone(), fields };
        assert(record@.fields =~= built(self.code(), self@)->Ok_0.fields);
        Ok(record)
    }
}

} // verus!
