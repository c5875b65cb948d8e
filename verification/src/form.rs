//! The input form: an ordered list of text fields and the focus that moves
//! among them.
//!
//! At most one field holds the focus, kept as an explicit optional index so
//! the single-focus invariant is carried by the type rather than recovered
//! by scanning. Tabbing forward from the last field drops the focus
//! entirely, while tabbing backward from the first field keeps it there;
//! both edges are deliberate and stated in `select_spec`.

use vstd::prelude::*;
use vstd::pervasive::VecAdditionalExecFns;

verus! {

/// A message addressed to the form: which field sent it, at which index,
/// and what happened there.
#[derive(Debug, Clone)]
pub enum FormMessage<I: 'static + Clone + Copy> {
    TextInputMessage(I, usize, FormTextInputMessage),
}

/// A message from a single text field: its text changed, or the tab key
/// was released (`true` for shift-tab).
#[derive(Debug, Clone)]
pub enum FormTextInputMessage {
    InputChanged(String),
    OnTab(bool),
}

/// One text field of the form: its identifier, its current text, and the
/// placeholder shown while the text is empty.
pub struct FormTextInput<I: 'static + Clone + Copy> {
    pub id: I,
    pub value: String,
    pub placeholder: String,
}

/// The field list together with the focused index, if any.
pub struct Form<I: 'static + Clone + Copy> {
    pub focused: Option<usize>,
    pub inputs: Vec<Box<FormTextInput<I>>>,
}

/// The mathematical content of a text field.
pub ghost struct FormInputV<I> {
    pub id: I,
    pub value: Seq<char>,
    pub placeholder: Seq<char>,
}

/// The mathematical content of a form.
pub ghost struct FormV<I> {
    pub focused: Option<int>,
    pub inputs: Seq<FormInputV<I>>,
}

impl<I: 'static + Clone + Copy> View for FormTextInput<I> {
    type V = FormInputV<I>;

    open spec fn view(&self) -> FormInputV<I> {
        FormInputV { id: self.id, value: self.value@, placeholder: self.placeholder@ }
    }
}

impl<I: 'static + Clone + Copy> View for Form<I> {
    type V = FormV<I>;

    open spec fn view(&self) -> FormV<I> {
        FormV {
            focused: match self.focused {
                Some(i) => Some(i as int),
                None => None,
            },
            inputs: self.inputs@.map(|i: int, b: Box<FormTextInput<I>>| b@),
        }
    }
}

/// Where the focus lands when it advances: from no focus it lands on field
/// 0; forward it moves up and falls off the end (no focus); backward it
/// moves down and stays clamped at field 0.
pub open spec fn select_spec(cur: Option<int>, len: int, next: bool) -> Option<int> {
    match cur {
        None => if len > 0 {
            Some(0int)
        } else {
            None
        },
        Some(i) => {
            let nxt = if next {
                i + 1
            } else if i == 0 {
                0int
            } else {
                i - 1
            };
            if nxt < len {
                Some(nxt)
            } else {
                None
            }
        },
    }
}

/// The form after one message: tab moves the focus as `select_spec` says;
/// a text change replaces the addressed field's text and leaves the focus
/// alone; a message addressed out of range changes nothing.
pub open spec fn form_update_spec<I: 'static + Clone + Copy>(
    f: FormV<I>,
    msg: FormMessage<I>,
) -> FormV<I> {
    match msg {
        FormMessage::TextInputMessage(_id, idx, m) => match m {
            FormTextInputMessage::OnTab(shift) => FormV {
                focused: select_spec(f.focused, f.inputs.len() as int, !shift),
                ..f
            },
            FormTextInputMessage::InputChanged(text) => if idx < f.inputs.len() {
                FormV {
                    inputs: f.inputs.update(
                        idx as int,
                        FormInputV { value: text@, ..f.inputs[idx as int] },
                    ),
                    ..f
                }
            } else {
                f
            },
        },
    }
}

impl<I: 'static + Clone + Copy> FormTextInput<I> {
    /// A fresh field with the given identifier, text and placeholder.
    pub fn new(id: I, value: String, placeholder: &str) -> (r: Self)
        ensures
            r@ == (FormInputV { id, value: value@, placeholder: placeholder@ }),
    {
        Self { id, value, placeholder: placeholder.to_owned() }
    }

    /// Applies one message to this field alone: a text change replaces the
    /// text; a tab is not this field's concern.
    pub fn update(&mut self, msg: FormTextInputMessage)
        ensures
            final(self)@ == (match msg {
                FormTextInputMessage::InputChanged(text) => FormInputV {
                    value: text@,
                    ..old(self)@
                },
                FormTextInputMessage::OnTab(_) => old(self)@,
            }),
    {
        match msg {
            FormTextInputMessage::InputChanged(text) => {
                self.value = text;
            },
            FormTextInputMessage::OnTab(_) => {},
        }
    }
}

/// The focused index, when there is one, stays within the field list.
pub open spec fn form_wf<I>(f: FormV<I>) -> bool {
    f.focused matches Some(i) ==> i < f.inputs.len()
}

impl<I: 'static + Clone + Copy> Form<I> {
    /// The focused index, when there is one, stays within the field list.
    pub open spec fn wf(&self) -> bool {
        form_wf(self@)
    }

    /// An empty form with nothing focused.
    pub fn new() -> (r: Self)
        ensures
            r@.focused is None,
            r@.inputs =~= Seq::<FormInputV<I>>::empty(),
            r.wf(),
    {
        Self { focused: None, inputs: Vec::new() }
    }

    /// Appends one field, built from the identifier, the placeholder, and
    /// the initial text (empty when absent).
    pub fn push(self, id: I, placeholder: &str, value: Option<String>) -> (r: Self)
        ensures
            r@.focused == self@.focused,
            r@.inputs == self@.inputs.push(
                FormInputV {
                    id,
                    value: match value {
                        Some(v) => v@,
                        None => Seq::<char>::empty(),
                    },
                    placeholder: placeholder@,
                },
            ),
            self.wf() ==> r.wf(),
    {
        let mut s = self;
        let text = match value {
            Some(v) => v,
            None => String::new(),
        };
        s.inputs.push(Box::new(FormTextInput::new(id, text, placeholder)));
        proof {
            assert(s@.inputs =~= self@.inputs.push(
                FormInputV {
                    id,
                    value: match value {
                        Some(v) => v@,
                        None => Seq::<char>::empty(),
                    },
                    placeholder: placeholder@,
                },
            ));
        }
        s
    }

    /// Moves the focus one step, as `select_spec` states: `next` is `true`
    /// for forward, `false` for backward.
    pub fn select(&mut self, next: bool)
        requires
            old(self).wf(),
        ensures
            final(self).inputs == old(self).inputs,
            final(self)@.focused == select_spec(
                old(self)@.focused,
                old(self)@.inputs.len() as int,
                next,
            ),
            final(self).wf(),
    {
        proof {
            assert(self@.inputs.len() == self.inputs@.len());
        }
        match self.focused {
            None => {
                if self.inputs.len() > 0 {
                    self.focused = Some(0);
                }
            },
            Some(i) => {
                proof {
                    assert(self@.focused == Some(i as int));
                    assert((i as int) < self@.inputs.len());
                    assert(i < self.inputs.len());
                }
                let nxt: usize = if next {
                    i + 1
                } else if i == 0 {
                    0
                } else {
                    i - 1
                };
                if nxt < self.inputs.len() {
                    self.focused = Some(nxt);
                } else {
                    self.focused = None;
                }
            },
        }
    }

    /// Applies one form message, as `form_update_spec` states.
    pub fn update(&mut self, msg: FormMessage<I>)
        requires
            old(self).wf(),
        ensures
            final(self)@ == form_update_spec(old(self)@, msg),
            final(self).wf(),
    {
        match msg {
            FormMessage::TextInputMessage(id, idx, m) => {
                match m {
                    FormTextInputMessage::OnTab(shift) => {
                        self.select(!shift);
                    },
                    FormTextInputMessage::InputChanged(text) => {
                        if idx < self.inputs.len() {
                            let slot = &self.inputs[idx];
                            let replaced = Box::new(
                                FormTextInput {
                                    id: slot.id,
                                    value: text,
                                    placeholder: slot.placeholder.clone(),
                                },
                            );
                            self.inputs.set(idx, replaced);
                            proof {
                                assert(self@.inputs =~= form_update_spec(old(self)@, msg).inputs);
                            }
                        }
                    },
                }
            },
        }
    }
}

/// Law: from no focus, one forward advance focuses field 0 (and so does a
/// backward one); from field 0, a backward advance still leaves field 0
/// focused; from the last field, a forward advance leaves nothing focused.
pub proof fn lemma_focus_navigation(len: int)
    requires
        len > 0,
    ensures
        select_spec(None, len, true) == Some(0int),
        select_spec(None, len, false) == Some(0int),
        select_spec(Some(0int), len, false) == Some(0int),
        select_spec(Some(len - 1), len, true) == None::<int>,
{
}

} // verus!
