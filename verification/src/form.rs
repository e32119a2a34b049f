//! The terminal mode's form: named text fields, the selection that moves
//! between them, and their validity once the form is submitted; and the row
//! of buttons under it.
use vstd::prelude::*;
use crate::text::{owned, push_char};

verus! {

/// Whether a field passed validation.
#[derive(PartialEq, Eq, Structural, Clone, Copy, Debug)]
pub enum FieldStatus {
    Valid,
    Invalid,
}

/// A reference to a specific field's data in a form that also indicates whether or not it's valid.
pub struct Field<'a> {
    name: &'a str,
    val: &'a str,
    status: FieldStatus,
}

impl<'a> Field<'a> {
    /// A field that passed validation.
    pub fn valid(name: &'a str, val: &'a str) -> (f: Field<'a>)
        ensures
            f.spec_name() == name@,
            f.spec_value() == val@,
            f.spec_valid(),
    {
        Field { name, val, status: FieldStatus::Valid }
    }

    /// A field that failed validation.
    pub fn invalid(name: &'a str, val: &'a str) -> (f: Field<'a>)
        ensures
            f.spec_name() == name@,
            f.spec_value() == val@,
            !f.spec_valid(),
    {
        Field { name, val, status: FieldStatus::Invalid }
    }

    /// The field's name.
    pub closed spec fn spec_name(&self) -> Seq<char> {
        self.name@
    }

    /// The field's text.
    pub closed spec fn spec_value(&self) -> Seq<char> {
        self.val@
    }

    /// Whether the field is valid.
    pub closed spec fn spec_valid(&self) -> bool {
        self.status == FieldStatus::Valid
    }

    /// Name of the underlying field.
    pub fn name(&self) -> (s: &str)
        ensures
            s@ == self.spec_name(),
    {
        self.name
    }

    /// Value of the underlying field.
    pub fn value(&self) -> (s: &str)
        ensures
            s@ == self.spec_value(),
    {
        self.val
    }

    /// Returns `true` if the underlying field is currently valid.
    pub fn is_valid(&self) -> (b: bool)
        ensures
            b == self.spec_valid(),
    {
        match self.status {
            FieldStatus::Valid => true,
            FieldStatus::Invalid => false,
        }
    }

    /// The field's text, owned.
    pub fn into_string(self) -> (s: String)
        ensures
            s@ == self.spec_value(),
    {
        owned(self.val)
    }
}

/// Enumerates possible states of a [`Form`]s currently selected field.
#[derive(PartialEq, Eq, Structural, Clone, Copy, Debug)]
pub enum FormSelection {
    /// No field selected
    NoSelection,
    /// Hovered, but not receiving text input
    Hovered(usize),
    /// Receiving text input
    Active(usize),
}

/// What makes a field's text valid once the form is submitted. Users give a
/// form any rule of their own by implementing this trait.
pub trait FieldRule {
    /// Whether the rule accepts `text`.
    spec fn accepts(&self, text: Seq<char>) -> bool;

    /// Whether the rule accepts `text`, computed.
    fn check(&self, text: &str) -> (b: bool)
        ensures
            b == self.accepts(text@),
    ;
}

/// The rule a form has by default.
#[derive(PartialEq, Eq, Structural, Clone, Copy, Debug)]
pub enum Validation {
    /// The field holds some text.
    NonEmpty,
}

impl FieldRule for Validation {
    open spec fn accepts(&self, text: Seq<char>) -> bool {
        match *self {
            Validation::NonEmpty => text.len() > 0,
        }
    }

    fn check(&self, text: &str) -> (b: bool) {
        match self {
            Validation::NonEmpty => text.unicode_len() > 0,
        }
    }
}

/// Whether `text` passes `rule`.
pub open spec fn passes<R: FieldRule>(rule: R, text: Seq<char>) -> bool {
    rule.accepts(text)
}

/// A form's state.
pub struct FormView<R> {
    pub selected: FormSelection,
    pub names: Seq<Seq<char>>,
    pub values: Seq<Seq<char>>,
    pub submitted: bool,
    pub rule: R,
}

/// One field of a form: its title and its text.
pub struct FieldBuffer {
    name: String,
    val: String,
}

/// A collection of named fields, one of which may be selected for editing.
pub struct Form<R> {
    selected: FormSelection,
    fields: Vec<FieldBuffer>,
    submitted: bool,
    validation: R,
}

impl<R> View for Form<R> {
    type V = FormView<R>;

    closed spec fn view(&self) -> FormView<R> {
        FormView {
            selected: self.selected,
            names: self.fields@.map_values(|f: FieldBuffer| f.name@),
            values: self.fields@.map_values(|f: FieldBuffer| f.val@),
            submitted: self.submitted,
            rule: self.validation,
        }
    }
}

/// The selection after moving to the next of `n` fields: from nothing to the
/// first field, else one down, wrapping around, hovered or active as before.
pub open spec fn next_selection(s: FormSelection, n: nat) -> FormSelection {
    match s {
        FormSelection::NoSelection => FormSelection::Hovered(0),
        FormSelection::Hovered(i) => FormSelection::Hovered(((i + 1) % (n as int)) as usize),
        FormSelection::Active(i) => FormSelection::Active(((i + 1) % (n as int)) as usize),
    }
}

/// The selection after moving to the previous of `n` fields: from nothing to
/// the first field, else one up, wrapping around.
pub open spec fn prev_selection(s: FormSelection, n: nat) -> FormSelection {
    match s {
        FormSelection::NoSelection => FormSelection::Hovered(0),
        FormSelection::Hovered(i) => FormSelection::Hovered(if i == 0 { (n - 1) as usize } else { (i - 1) as usize }),
        FormSelection::Active(i) => FormSelection::Active(if i == 0 { (n - 1) as usize } else { (i - 1) as usize }),
    }
}

/// A selection that names a field names one of the `n` there are.
pub open spec fn selection_in(s: FormSelection, n: nat) -> bool {
    match s {
        FormSelection::NoSelection => true,
        FormSelection::Hovered(i) => i < n,
        FormSelection::Active(i) => i < n,
    }
}

impl Form<Validation> {
    /// A form with no field and the default rule: a field must hold some text.
    pub fn default() -> (f: Form<Validation>)
        ensures
            f@.selected == FormSelection::NoSelection,
            f@.names.len() == 0,
            f@.values.len() == 0,
            !f@.submitted,
            f@.rule == Validation::NonEmpty,
    {
        Form { selected: FormSelection::NoSelection, fields: Vec::new(), submitted: false, validation: Validation::NonEmpty }
    }

}

impl<R: FieldRule> Form<R> {
    /// Create a new [`Form`] from a slice of field titles and a validation rule.
    /// The rule marks fields valid or invalid when `.status()` is called.
    pub fn new(fields: &[&str], validation: R) -> (f: Form<R>)
        ensures
            f@.selected == FormSelection::NoSelection,
            f@.names == fields@.map_values(|t: &str| t@),
            f@.values == Seq::new(fields@.len(), |i: int| Seq::<char>::empty()),
            !f@.submitted,
            f@.rule == validation,
    {
        let mut v: Vec<FieldBuffer> = Vec::new();
        let mut i: usize = 0;
        while i < fields.len()
            invariant
                i <= fields@.len(),
                v@.len() == i,
                forall|k: int| #![trigger v@[k]] 0 <= k < i ==> v@[k].name@ == fields@[k]@ && v@[k].val@ == Seq::<char>::empty(),
            decreases fields@.len() - i,
        {
            v.push(FieldBuffer { name: owned(fields[i]), val: String::new() });
            i = i + 1;
        }
        let f = Form { selected: FormSelection::NoSelection, fields: v, submitted: false, validation };
        assert(f@.names =~= fields@.map_values(|t: &str| t@));
        assert(f@.values =~= Seq::new(fields@.len(), |i: int| Seq::<char>::empty()));
        f
    }

    /// Change current selection of the form.
    pub fn select(&mut self, s: FormSelection)
        ensures
            final(self)@ == (FormView { selected: s, ..old(self)@ }),
    {
        self.selected = s;
    }

    /// Get current selection state of the form.
    pub fn selected(&self) -> (s: &FormSelection)
        ensures
            *s == self@.selected,
    {
        &self.selected
    }

    /// Returns the state of all fields in the form: before the form is
    /// submitted every field is valid; after, those the rule accepts.
    pub fn status(&self) -> (r: Vec<Field<'_>>)
        ensures
            r@.len() == self@.names.len(),
            forall|i: int| #![trigger r@[i]] 0 <= i < r@.len() ==> {
                &&& r@[i].spec_name() == self@.names[i]
                &&& r@[i].spec_value() == self@.values[i]
                &&& r@[i].spec_valid() == (!self@.submitted || passes(self@.rule, self@.values[i]))
            },
    {
        let mut r: Vec<Field<'_>> = Vec::new();
        let mut i: usize = 0;
        while i < self.fields.len()
            invariant
                i <= self.fields@.len(),
                r@.len() == i,
                forall|k: int| #![trigger r@[k]] 0 <= k < i ==> {
                    &&& r@[k].spec_name() == self@.names[k]
                    &&& r@[k].spec_value() == self@.values[k]
                    &&& r@[k].spec_valid() == (!self@.submitted || passes(self@.rule, self@.values[k]))
                },
            decreases self.fields@.len() - i,
        {
            let fb = &self.fields[i];
            let ok = self.validation.check(fb.val.as_str());
            proof {
                assert(self@.names[i as int] == fb.name@);
                assert(self@.values[i as int] == fb.val@);
                assert(ok == passes(self@.rule, self@.values[i as int]));
            }
            if !self.submitted || ok {
                r.push(Field::valid(fb.name.as_str(), fb.val.as_str()));
            } else {
                r.push(Field::invalid(fb.name.as_str(), fb.val.as_str()));
            }
            i = i + 1;
        }
        r
    }

    /// Submits the form and returns the status of its fields, validated from
    /// now on.
    pub fn submit(&mut self) -> (r: Vec<Field<'_>>)
        ensures
            final(self)@ == (FormView { submitted: true, ..old(self)@ }),
            r@.len() == old(self)@.names.len(),
            forall|i: int| #![trigger r@[i]] 0 <= i < r@.len() ==> {
                &&& r@[i].spec_name() == old(self)@.names[i]
                &&& r@[i].spec_value() == old(self)@.values[i]
                &&& r@[i].spec_valid() == passes(old(self)@.rule, old(self)@.values[i])
            },
    {
        self.submitted = true;
        self.status()
    }

    /// A form's fields can be counted in a `usize`, and each has a name and a text.
    pub proof fn lemma_field_count_fits(&self)
        ensures
            self@.names.len() <= usize::MAX,
            self@.values.len() == self@.names.len(),
    {
        assert(self.fields.len() == self.fields@.len());
    }

    /// De(select / activate) current field
    pub fn deselect(&mut self)
        ensures
            final(self)@ == (FormView { selected: FormSelection::NoSelection, ..old(self)@ }),
    {
        self.selected = FormSelection::NoSelection
    }

    /// Move to next field. Retains previous hovered or activated state.
    pub fn next_field(&mut self)
        requires
            old(self)@.selected is NoSelection || old(self)@.names.len() > 0,
        ensures
            final(self)@ == (FormView { selected: next_selection(old(self)@.selected, old(self)@.names.len()), ..old(self)@ }),
    {
        let n = self.fields.len();
        self.selected = match self.selected {
            FormSelection::NoSelection => FormSelection::Hovered(0),
            FormSelection::Hovered(i) => FormSelection::Hovered(((i as u128 + 1) % n as u128) as usize),
            FormSelection::Active(i) => FormSelection::Active(((i as u128 + 1) % n as u128) as usize),
        }
    }

    /// Move to previous field. Retains previous hovered or activated state.
    pub fn prev_field(&mut self)
        requires
            old(self)@.selected is NoSelection || old(self)@.names.len() > 0,
        ensures
            final(self)@ == (FormView { selected: prev_selection(old(self)@.selected, old(self)@.names.len()), ..old(self)@ }),
    {
        let n = self.fields.len();
        self.selected = match self.selected {
            FormSelection::NoSelection => FormSelection::Hovered(0),
            FormSelection::Hovered(i) => FormSelection::Hovered(if i == 0 { n - 1 } else { i - 1 }),
            FormSelection::Active(i) => FormSelection::Active(if i == 0 { n - 1 } else { i - 1 }),
        }
    }

    /// Set whether the Form has been submitted
    pub fn submitted(&mut self, submitted: bool)
        ensures
            final(self)@ == (FormView { submitted, ..old(self)@ }),
    {
        self.submitted = submitted;
    }

    /// Types `c` into the active field; nothing happens without one.
    pub fn append_selection(&mut self, c: char)
        requires
            selection_in(old(self)@.selected, old(self)@.names.len()),
        ensures
            final(self)@ == (match old(self)@.selected {
                FormSelection::Active(i) => FormView {
                    values: old(self)@.values.update(i as int, old(self)@.values[i as int].push(c)),
                    ..old(self)@
                },
                _ => old(self)@,
            }),
    {
        if let FormSelection::Active(i) = self.selected {
            let ghost before = self.fields@;
            let mut fb = self.fields.remove(i);
            push_char(&mut fb.val, c);
            self.fields.insert(i, fb);
            proof {
                assert(self.fields@ =~= before.update(i as int, fb));
                assert(self@.names =~= before.map_values(|f: FieldBuffer| f.name@));
                assert(self@.values =~= before.map_values(|f: FieldBuffer| f.val@).update(i as int, before[i as int].val@.push(c)));
            }
        }
    }
}

/// Moving to the next field and back returns to where the selection was.
pub proof fn lemma_next_then_prev(s: FormSelection, n: nat)
    requires
        0 < n <= usize::MAX,
        selection_in(s, n),
        !(s is NoSelection),
    ensures
        prev_selection(next_selection(s, n), n) == s,
        next_selection(prev_selection(s, n), n) == s,
{
    match s {
        FormSelection::Hovered(i) => {
            if i + 1 == n { assert((i + 1) % (n as int) == 0) by (nonlinear_arith) requires i + 1 == n; }
            else { assert((i + 1) % (n as int) == i + 1) by (nonlinear_arith) requires i + 1 < n; }
            if i == 0 { assert(((n - 1) + 1) % (n as int) == 0) by (nonlinear_arith) requires n > 0; }
            else { assert(((i - 1) + 1) % (n as int) == i) by (nonlinear_arith) requires 0 < i < n; }
        },
        FormSelection::Active(i) => {
            if i + 1 == n { assert((i + 1) % (n as int) == 0) by (nonlinear_arith) requires i + 1 == n; }
            else { assert((i + 1) % (n as int) == i + 1) by (nonlinear_arith) requires i + 1 < n; }
            if i == 0 { assert(((n - 1) + 1) % (n as int) == 0) by (nonlinear_arith) requires n > 0; }
            else { assert(((i - 1) + 1) % (n as int) == i) by (nonlinear_arith) requires 0 < i < n; }
        },
        FormSelection::NoSelection => {},
    }
}

/// On a form whose selection is on one of its fields, moving to the next
/// field and then back, or back and then on, restores the selection.
pub proof fn lemma_form_next_prev_round_trip<R: FieldRule>(f: &Form<R>)
    requires
        f@.names.len() > 0,
        selection_in(f@.selected, f@.names.len()),
        !(f@.selected is NoSelection),
    ensures
        prev_selection(next_selection(f@.selected, f@.names.len()), f@.names.len()) == f@.selected,
        next_selection(prev_selection(f@.selected, f@.names.len()), f@.names.len()) == f@.selected,
{
    f.lemma_field_count_fits();
    lemma_next_then_prev(f@.selected, f@.names.len());
}

/// Moving between fields keeps a selection on one of the fields, and keeps
/// an active field active and a hovered one hovered.
pub proof fn lemma_moves_stay_in_form(s: FormSelection, n: nat)
    requires
        0 < n <= usize::MAX,
        selection_in(s, n),
    ensures
        selection_in(next_selection(s, n), n),
        selection_in(prev_selection(s, n), n),
        s is Active ==> next_selection(s, n) is Active && prev_selection(s, n) is Active,
        s is Hovered ==> next_selection(s, n) is Hovered && prev_selection(s, n) is Hovered,
{
}

/// The look of one button of the terminal mode.
#[derive(PartialEq, Eq, Structural, Clone, Copy, Debug)]
pub enum ButtonState {
    Normal,
    Selected,
    Active,
}

/// Pressing (space or a click) toggles the selected button between active and normal.
pub fn press_button(states: &mut [ButtonState; 3], selected: usize)
    requires
        selected < 3,
    ensures
        final(states)@ == old(states)@.update(selected as int,
            if old(states)@[selected as int] == ButtonState::Active { ButtonState::Normal } else { ButtonState::Active }),
{
    if states[selected] == ButtonState::Active {
        states[selected] = ButtonState::Normal;
    } else {
        states[selected] = ButtonState::Active;
    }
}

/// The button under the mouse at `column`: the first below 15, the second below 30, else the third.
pub open spec fn button_at(column: u16) -> usize {
    if column < 15 { 0 } else if column < 30 { 1 } else { 2 }
}

/// The mouse moved to `column`: the button under it becomes the selected one;
/// the one it left goes back to normal and the new one shows as selected,
/// unless they are active.
pub fn mouse_moved(states: &mut [ButtonState; 3], selected: &mut usize, column: u16)
    requires
        *old(selected) < 3,
    ensures
        *final(selected) == button_at(column),
        *final(selected) != *old(selected) ==> final(states)@ == {
            let s1 = if old(states)@[*old(selected) as int] != ButtonState::Active {
                old(states)@.update(*old(selected) as int, ButtonState::Normal)
            } else {
                old(states)@
            };
            if s1[*final(selected) as int] != ButtonState::Active {
                s1.update(*final(selected) as int, ButtonState::Selected)
            } else {
                s1
            }
        },
        *final(selected) == *old(selected) ==> final(states)@ == old(states)@,
{
    let old_selected = *selected;
    *selected = if column < 15 { 0 } else if column < 30 { 1 } else { 2 };
    if old_selected != *selected {
        if states[old_selected] != ButtonState::Active {
            states[old_selected] = ButtonState::Normal;
        }
        if states[*selected] != ButtonState::Active {
            states[*selected] = ButtonState::Selected;
        }
    }
}

} // verus!
