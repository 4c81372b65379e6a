//! The form in steps: the base amount, then the rate, then a currency of
//! G10, then the result.

use crate::decimal::{Decimal, DecimalValue};
use crate::form::{is_numeric, FormKey};
use crate::money::currency_group::{g10_codes, CurrencyGroup};
use crate::percentage::{apply_rate_str, percentage_of};
use crate::text::without_last;
use vstd::prelude::*;

verus! {

/// The step that the form is at.
#[derive(Clone, Copy, Debug, PartialEq, Eq, Structural)]
pub enum Step {
    Base,
    Rate,
    Currency,
    Result,
}

/// What a form in steps stands for.
pub ghost struct WizardValue {
    /// What was typed as the base amount.
    pub input_base: Seq<char>,
    /// What was typed as the rate.
    pub input_rate: Seq<char>,
    /// The place of the selected currency in the list of G10.
    pub selected: nat,
    pub step: Step,
    /// The new amount and the code of its currency, once they were computed.
    pub result: Option<(DecimalValue, Seq<char>)>,
}

impl WizardValue {
    /// The form as it is first shown.
    pub open spec fn initial() -> WizardValue {
        WizardValue {
            input_base: Seq::empty(),
            input_rate: Seq::empty(),
            selected: 0,
            step: Step::Base,
            result: None,
        }
    }

    /// Whether a key leaves the form: Esc does, and Enter on the result.
    pub open spec fn leaves(self, key: FormKey) -> bool {
        key is Esc || (key is Enter && self.step is Result)
    }

    /// What the three texts give: the new amount and the code, or nothing
    /// where one of the texts is refused or the amount is out of range.
    pub open spec fn computed(self) -> Option<(DecimalValue, Seq<char>)> {
        match percentage_of(self.input_base, self.input_rate, g10_codes()[self.selected as int]) {
            Ok(pair) => Some(pair),
            Err(_) => None,
        }
    }

    /// The form after a key.
    ///
    /// Backspace takes the last character from the base or the rate, and a
    /// digit or a point goes there. Enter goes from the base to the rate and
    /// on to the list, and on the list it computes and shows the result. On
    /// the list, the arrows move by a place, not beyond its ends.
    pub open spec fn after(self, key: FormKey) -> WizardValue {
        match key {
            FormKey::Backspace => match self.step {
                Step::Base => WizardValue { input_base: without_last(self.input_base), ..self },
                Step::Rate => WizardValue { input_rate: without_last(self.input_rate), ..self },
                _ => self,
            },
            FormKey::Enter => match self.step {
                Step::Base => WizardValue { step: Step::Rate, ..self },
                Step::Rate => WizardValue { step: Step::Currency, ..self },
                Step::Currency => WizardValue { step: Step::Result, result: self.computed(), ..self },
                Step::Result => self,
            },
            FormKey::Char(c) => if is_numeric(c) && self.step is Base {
                WizardValue { input_base: self.input_base.push(c), ..self }
            } else if is_numeric(c) && self.step is Rate {
                WizardValue { input_rate: self.input_rate.push(c), ..self }
            } else {
                self
            },
            FormKey::Up => if self.step is Currency && self.selected > 0 {
                WizardValue { selected: (self.selected - 1) as nat, ..self }
            } else {
                self
            },
            FormKey::Down => if self.step is Currency && self.selected + 1 < g10_codes().len() {
                WizardValue { selected: self.selected + 1, ..self }
            } else {
                self
            },
            _ => self,
        }
    }
}

/// The form in steps.
pub struct Wizard {
    input_base: String,
    input_rate: String,
    selected: usize,
    step: Step,
    result: Option<(Decimal, String)>,
}

impl View for Wizard {
    type V = WizardValue;

    closed spec fn view(&self) -> WizardValue {
        WizardValue {
            input_base: self.input_base@,
            input_rate: self.input_rate@,
            selected: self.selected as nat,
            step: self.step,
            result: match self.result {
                Some(pair) => Some((pair.0@, pair.1@)),
                None => None,
            },
        }
    }
}

impl Wizard {
    #[verifier::type_invariant]
    spec fn selection_in_list(self) -> bool {
        self.selected < g10_codes().len()
    }

    /// The form as it is first shown: nothing typed, at the base amount,
    /// the first currency selected.
    pub fn new() -> (wizard: Wizard)
        ensures
            wizard@ == WizardValue::initial(),
    {
        Wizard {
            input_base: String::new(),
            input_rate: String::new(),
            selected: 0,
            step: Step::Base,
            result: None,
        }
    }

    /// What was typed as the base amount.
    pub fn input_base(&self) -> (text: &str)
        ensures
            text@ == self@.input_base,
    {
        self.input_base.as_str()
    }

    /// What was typed as the rate.
    pub fn input_rate(&self) -> (text: &str)
        ensures
            text@ == self@.input_rate,
    {
        self.input_rate.as_str()
    }

    /// The place of the selected currency in the list of G10, which is one
    /// of its ten.
    pub fn selected(&self) -> (selected: usize)
        ensures
            selected == self@.selected,
            selected < 10,
    {
        proof {
            use_type_invariant(self);
        }
        self.selected
    }

    /// The step that the form is at.
    pub fn step(&self) -> (step: Step)
        ensures
            step == self@.step,
    {
        self.step
    }

    /// The new amount and the code of its currency, once they were computed.
    pub fn result(&self) -> (result: &Option<(Decimal, String)>)
        ensures
            result is Some <==> self@.result is Some,
            *result matches Some(pair) ==> self@.result == Some((pair.0@, pair.1@)),
    {
        &self.result
    }

    /// The form after a key, and whether the key leaves the form.
    pub fn on_key(self, key: FormKey) -> (next: (Wizard, bool))
        ensures
            next.0@ == self@.after(key),
            next.1 == self@.leaves(key),
    {
        proof {
            use_type_invariant(&self);
        }
        let Wizard { mut input_base, mut input_rate, mut selected, mut step, mut result } = self;
        let mut leaves = false;
        match key {
            FormKey::Esc => {
                leaves = true;
            },
            FormKey::Backspace => match step {
                Step::Base => {
                    input_base.pop();
                },
                Step::Rate => {
                    input_rate.pop();
                },
                _ => {},
            },
            FormKey::Enter => match step {
                Step::Base => {
                    step = Step::Rate;
                },
                Step::Rate => {
                    step = Step::Currency;
                },
                Step::Currency => {
                    let list = CurrencyGroup::G10.list();
                    result =
                    match apply_rate_str(
                        input_base.as_str(),
                        input_rate.as_str(),
                        list[selected].as_str(),
                    ) {
                        Ok(pair) => Some(pair),
                        Err(_) => None,
                    };
                    step = Step::Result;
                },
                Step::Result => {
                    leaves = true;
                },
            },
            FormKey::Char(c) => {
                let numeric = ('0' <= c && c <= '9') || c == '.';
                if numeric {
                    match step {
                        Step::Base => {
                            input_base.push(c);
                        },
                        Step::Rate => {
                            input_rate.push(c);
                        },
                        _ => {},
                    }
                }
            },
            FormKey::Up => {
                if step == Step::Currency && selected > 0 {
                    selected = selected - 1;
                }
            },
            FormKey::Down => {
                if step == Step::Currency && selected + 1 < CurrencyGroup::G10.list().len() {
                    selected = selected + 1;
                }
            },
            _ => {},
        }
        (Wizard { input_base, input_rate, selected, step, result }, leaves)
    }
}

} // verus!
