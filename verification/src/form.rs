//! The form on which a percentage is applied: two fields of text, a
//! currency chosen from a list that pops up, and what each key does to them.

use crate::decimal::{Decimal, DecimalValue};
use crate::money::currency_group::CurrencyGroup;
use crate::percentage::{apply_rate_str, outcome_value, percentage_of, PercentageError};
use crate::text::{has_part, is_part_of, lowercased, without_last};
use vstd::prelude::*;

verus! {

/// The field of the form that the keys go to.
#[derive(Clone, Copy, Debug, PartialEq, Eq, Structural)]
pub enum Field {
    Base,
    Rate,
    Currency,
}

impl Field {
    /// The field after this one; the first after the last.
    pub open spec fn next(self) -> Field {
        match self {
            Field::Base => Field::Rate,
            Field::Rate => Field::Currency,
            Field::Currency => Field::Base,
        }
    }

    /// The field before this one; the last before the first.
    pub open spec fn previous(self) -> Field {
        match self {
            Field::Base => Field::Currency,
            Field::Rate => Field::Base,
            Field::Currency => Field::Rate,
        }
    }

    fn following(self) -> (field: Field)
        ensures
            field == self.next(),
    {
        match self {
            Field::Base => Field::Rate,
            Field::Rate => Field::Currency,
            Field::Currency => Field::Base,
        }
    }

    fn preceding(self) -> (field: Field)
        ensures
            field == self.previous(),
    {
        match self {
            Field::Base => Field::Currency,
            Field::Rate => Field::Base,
            Field::Currency => Field::Rate,
        }
    }
}

/// The group that the list shows after this one; G3 after All.
pub open spec fn group_after(group: CurrencyGroup) -> CurrencyGroup {
    match group {
        CurrencyGroup::G3 => CurrencyGroup::G10,
        CurrencyGroup::G10 => CurrencyGroup::All,
        CurrencyGroup::All => CurrencyGroup::G3,
    }
}

/// The group that the list shows before this one; G3 has none before it.
pub open spec fn group_before(group: CurrencyGroup) -> CurrencyGroup {
    match group {
        CurrencyGroup::G3 => CurrencyGroup::G3,
        CurrencyGroup::G10 => CurrencyGroup::G3,
        CurrencyGroup::All => CurrencyGroup::G10,
    }
}

/// A key pressed on the form.
#[derive(Clone, Copy, Debug, PartialEq, Eq, Structural)]
pub enum FormKey {
    Esc,
    Backspace,
    Tab,
    BackTab,
    Up,
    Down,
    Left,
    Right,
    Enter,
    Char(char),
    Other,
}

/// Whether a character goes into a field of numbers: a digit or a point.
pub open spec fn is_numeric(c: char) -> bool {
    '0' <= c <= '9' || c == '.'
}

/// Whether a code goes with what was typed to search: whether the lower
/// case of what was typed stands in the lower case of the code.
pub open spec fn matches_query(code: Seq<char>, query: Seq<char>) -> bool {
    is_part_of(lowercased(query), lowercased(code))
}

/// The codes that go with what was typed to search, in their order; all of
/// them where nothing was typed.
pub open spec fn filtered_codes(codes: Seq<Seq<char>>, query: Seq<char>) -> Seq<Seq<char>> {
    if query.len() == 0 {
        codes
    } else {
        codes.filter(|code: Seq<char>| matches_query(code, query))
    }
}

/// The codes that go with what was typed to search, in their order.
pub fn filter_codes(codes: Vec<String>, query: &str) -> (shown: Vec<String>)
    ensures
        shown.deep_view() == filtered_codes(codes.deep_view(), query@),
{
    if query.is_empty() {
        return codes;
    }
    let needle = query.to_lowercase();
    let mut shown: Vec<String> = Vec::new();
    let ghost wanted = |code: Seq<char>| matches_query(code, query@);
    let mut at: usize = 0;
    assert(codes.deep_view().take(0) =~= Seq::<Seq<char>>::empty());
    assert(shown.deep_view() =~= Seq::<Seq<char>>::empty());
    while at < codes.len()
        invariant
            at <= codes.len(),
            needle@ == lowercased(query@),
            wanted == |code: Seq<char>| matches_query(code, query@),
            shown.deep_view() == codes.deep_view().take(at as int).filter(wanted),
        decreases codes.len() - at,
    {
        let lower = codes[at].to_lowercase();
        let ghost before = shown.deep_view();
        let ghost head = codes.deep_view().take(at as int);
        let ghost longer = codes.deep_view().take(at + 1);
        proof {
            reveal(Seq::filter);
            assert(longer.drop_last() =~= head);
            assert(longer.last() == codes[at as int]@);
        }
        if has_part(lower.as_str(), needle.as_str()) {
            shown.push(codes[at].clone());
            assert(shown.deep_view() =~= before.push(codes[at as int]@));
        }
        at = at + 1;
    }
    assert(codes.deep_view().take(at as int) =~= codes.deep_view());
    shown
}

/// What a form stands for.
pub ghost struct FormValue {
    /// What was typed as the base amount.
    pub input_base: Seq<char>,
    /// What was typed as the rate.
    pub input_rate: Seq<char>,
    /// The code of the currency that was chosen.
    pub selected_currency: Seq<char>,
    /// The field that the keys go to.
    pub field: Field,
    /// What the last computation gave, if there was one.
    pub result: Option<Result<(DecimalValue, Seq<char>), PercentageError>>,
    /// Whether the list of currencies is shown over the form.
    pub popup: bool,
    /// The group whose currencies the list shows.
    pub group: CurrencyGroup,
    /// The place in the list that is selected.
    pub selected: Option<nat>,
    /// What was typed to search the list.
    pub search_query: Seq<char>,
}

impl FormValue {
    /// The form as it is first shown.
    pub open spec fn initial() -> FormValue {
        FormValue {
            input_base: Seq::empty(),
            input_rate: Seq::empty(),
            selected_currency: "EUR"@,
            field: Field::Base,
            result: None,
            popup: false,
            group: CurrencyGroup::G3,
            selected: None,
            search_query: Seq::empty(),
        }
    }

    /// The codes that the list shows.
    pub open spec fn shown_codes(self) -> Seq<Seq<char>> {
        filtered_codes(self.group.codes(), self.search_query)
    }

    /// Whether, where the list is shown, a place is selected that the list
    /// has, or its first place though it is empty.
    pub open spec fn selection_in_list(self) -> bool {
        self.popup ==> (self.selected matches Some(at) && (at == 0 || at
            < self.shown_codes().len()))
    }

    /// The form with what the three texts give as its result.
    pub open spec fn computed(self) -> FormValue {
        FormValue {
            result: Some(percentage_of(self.input_base, self.input_rate, self.selected_currency)),
            ..self
        }
    }

    /// The form with the list shown from its start: nothing typed to search,
    /// the first place selected.
    pub open spec fn list_from_start(self, group: CurrencyGroup) -> FormValue {
        FormValue { group, selected: Some(0), search_query: Seq::empty(), ..self }
    }

    /// Whether a key leaves the form: Esc does, unless it closes the list.
    pub open spec fn leaves(self, key: FormKey) -> bool {
        key is Esc && !self.popup
    }

    /// The form after a key.
    ///
    /// Esc closes the list. Backspace takes the last character from what was
    /// typed: to search where the list is shown, else in the field. Tab and
    /// BackTab go to the next and the previous field, round the ends. The
    /// arrows move in the list where it is shown: up and down by a place,
    /// right and left to another group; else down goes to the next field and
    /// up to the previous one, not beyond the first. Enter opens the list on
    /// the field of the currency; on the list it chooses the selected code
    /// and computes; elsewhere it goes to the next field. A digit or a point
    /// goes into the field of the base or of the rate, and the form
    /// computes; another character goes to the search.
    pub open spec fn after(self, key: FormKey) -> FormValue {
        match key {
            FormKey::Esc => if self.popup {
                FormValue { popup: false, search_query: Seq::empty(), ..self }
            } else {
                self
            },
            FormKey::Backspace => if self.popup {
                FormValue {
                    search_query: without_last(self.search_query),
                    selected: Some(0),
                    ..self
                }
            } else {
                match self.field {
                    Field::Base => FormValue { input_base: without_last(self.input_base), ..self },
                    Field::Rate => FormValue { input_rate: without_last(self.input_rate), ..self },
                    Field::Currency => self,
                }
            },
            FormKey::Tab => FormValue { field: self.field.next(), ..self },
            FormKey::BackTab => FormValue { field: self.field.previous(), ..self },
            FormKey::Up => if self.popup {
                match self.selected {
                    Some(at) if at > 0 => FormValue { selected: Some((at - 1) as nat), ..self },
                    _ => self,
                }
            } else if self.field is Base {
                self
            } else {
                FormValue { field: self.field.previous(), ..self }
            },
            FormKey::Down => if self.popup {
                let at = match self.selected {
                    Some(at) => at,
                    None => 0,
                };
                if at + 1 < self.shown_codes().len() {
                    FormValue { selected: Some(at + 1), ..self }
                } else {
                    self
                }
            } else {
                FormValue { field: self.field.next(), ..self }
            },
            FormKey::Right => if self.popup {
                self.list_from_start(group_after(self.group))
            } else {
                self
            },
            FormKey::Left => if self.popup && !(self.group is G3) {
                self.list_from_start(group_before(self.group))
            } else {
                self
            },
            FormKey::Enter => if self.field is Currency && !self.popup {
                FormValue { popup: true, ..self.list_from_start(CurrencyGroup::G3) }
            } else if self.popup {
                match self.selected {
                    Some(at) => {
                        let chosen = if self.shown_codes().len() > 0 {
                            self.shown_codes()[at as int]
                        } else {
                            self.selected_currency
                        };
                        FormValue {
                            popup: false,
                            search_query: Seq::empty(),
                            ..(FormValue { selected_currency: chosen, ..self }).computed()
                        }
                    },
                    None => self,
                }
            } else {
                FormValue { field: self.field.next(), ..self }
            },
            FormKey::Char(c) => if is_numeric(c) && self.field is Base {
                (FormValue { input_base: self.input_base.push(c), ..self }).computed()
            } else if is_numeric(c) && self.field is Rate {
                (FormValue { input_rate: self.input_rate.push(c), ..self }).computed()
            } else if self.popup {
                FormValue { search_query: self.search_query.push(c), selected: Some(0), ..self }
            } else {
                self
            },
            FormKey::Other => self,
        }
    }
}

/// The form on which a percentage is applied.
pub struct PercentageForm {
    input_base: String,
    input_rate: String,
    selected_currency: String,
    field: Field,
    result: Option<Result<(Decimal, String), PercentageError>>,
    popup: bool,
    group: CurrencyGroup,
    selected: Option<usize>,
    search_query: String,
}

impl View for PercentageForm {
    type V = FormValue;

    closed spec fn view(&self) -> FormValue {
        FormValue {
            input_base: self.input_base@,
            input_rate: self.input_rate@,
            selected_currency: self.selected_currency@,
            field: self.field,
            result: match self.result {
                Some(outcome) => Some(outcome_value(outcome)),
                None => None,
            },
            popup: self.popup,
            group: self.group,
            selected: match self.selected {
                Some(at) => Some(at as nat),
                None => None,
            },
            search_query: self.search_query@,
        }
    }
}

impl PercentageForm {
    #[verifier::type_invariant]
    spec fn selection_in_list(self) -> bool {
        self@.selection_in_list()
    }

    /// The form as it is first shown: nothing typed, the euro chosen, the
    /// keys going to the base amount.
    pub fn new() -> (form: PercentageForm)
        ensures
            form@ == FormValue::initial(),
    {
        PercentageForm {
            input_base: String::new(),
            input_rate: String::new(),
            selected_currency: "EUR".to_string(),
            field: Field::Base,
            result: None,
            popup: false,
            group: CurrencyGroup::G3,
            selected: None,
            search_query: String::new(),
        }
    }

    /// What was typed as the base amount.
    pub fn input_base(&self) -> (text: &str)
        ensures
            text@ == self@.input_base,
    {
        self.input_base.as_str()
    }

    /// What was typed as the rate.
    pub fn input_rate(&self) -> (text: &str)
        ensures
            text@ == self@.input_rate,
    {
        self.input_rate.as_str()
    }

    /// The code of the currency that was chosen.
    pub fn selected_currency(&self) -> (code: &str)
        ensures
            code@ == self@.selected_currency,
    {
        self.selected_currency.as_str()
    }

    /// The field that the keys go to.
    pub fn field(&self) -> (field: Field)
        ensures
            field == self@.field,
    {
        self.field
    }

    /// What the last computation gave, if there was one.
    pub fn result(&self) -> (result: &Option<Result<(Decimal, String), PercentageError>>)
        ensures
            result is Some <==> self@.result is Some,
            *result matches Some(outcome) ==> self@.result == Some(outcome_value(outcome)),
    {
        &self.result
    }

    /// Whether the list of currencies is shown over the form.
    pub fn popup_shown(&self) -> (shown: bool)
        ensures
            shown == self@.popup,
    {
        self.popup
    }

    /// The group whose currencies the list shows.
    pub fn group(&self) -> (group: CurrencyGroup)
        ensures
            group == self@.group,
    {
        self.group
    }

    /// What was typed to search the list.
    pub fn search_query(&self) -> (text: &str)
        ensures
            text@ == self@.search_query,
    {
        self.search_query.as_str()
    }

    /// The place in the list that is selected. Where the list is shown it is
    /// a place of [`PercentageForm::shown_codes`], or the first place though
    /// the list is empty.
    pub fn selected(&self) -> (selected: Option<usize>)
        ensures
            selected is Some <==> self@.selected is Some,
            selected matches Some(at) ==> self@.selected == Some(at as nat),
            self@.selection_in_list(),
    {
        proof {
            use_type_invariant(self);
        }
        self.selected
    }

    /// The codes that the list shows: those of the group that go with what
    /// was typed to search.
    pub fn shown_codes(&self) -> (codes: Vec<String>)
        ensures
            codes.deep_view() == self@.shown_codes(),
    {
        filter_codes(self.group.list(), self.search_query.as_str())
    }

    /// The form after a key, and whether the key leaves the form.
    pub fn on_key(self, key: FormKey) -> (next: (PercentageForm, bool))
        ensures
            next.0@ == self@.after(key),
            next.1 == self@.leaves(key),
    {
        proof {
            use_type_invariant(&self);
        }
        let PercentageForm {
            mut input_base,
            mut input_rate,
            mut selected_currency,
            mut field,
            mut result,
            mut popup,
            mut group,
            mut selected,
            mut search_query,
        } = self;
        let mut leaves = false;
        match key {
            FormKey::Esc => {
                if popup {
                    popup = false;
                    search_query.clear();
                } else {
                    leaves = true;
                }
            },
            FormKey::Backspace => {
                if popup {
                    search_query.pop();
                    selected = Some(0);
                } else {
                    match field {
                        Field::Base => {
                            input_base.pop();
                        },
                        Field::Rate => {
                            input_rate.pop();
                        },
                        Field::Currency => {},
                    }
                }
            },
            FormKey::Tab => {
                field = field.following();
            },
            FormKey::BackTab => {
                field = field.preceding();
            },
            FormKey::Up => {
                if popup {
                    match selected {
                        Some(at) => {
                            if at > 0 {
                                selected = Some(at - 1);
                            }
                        },
                        None => {},
                    }
                } else {
                    match field {
                        Field::Base => {},
                        _ => {
                            field = field.preceding();
                        },
                    }
                }
            },
            FormKey::Down => {
                if popup {
                    let at: usize = match selected {
                        Some(at) => at,
                        None => 0,
                    };
                    let shown = filter_codes(group.list(), search_query.as_str());
                    if at + 1 < shown.len() {
                        selected = Some(at + 1);
                    }
                } else {
                    field = field.following();
                }
            },
            FormKey::Right => {
                if popup {
                    group =
                    match group {
                        CurrencyGroup::G3 => CurrencyGroup::G10,
                        CurrencyGroup::G10 => CurrencyGroup::All,
                        CurrencyGroup::All => CurrencyGroup::G3,
                    };
                    selected = Some(0);
                    search_query.clear();
                }
            },
            FormKey::Left => {
                if popup {
                    match group {
                        CurrencyGroup::G3 => {},
                        CurrencyGroup::G10 => {
                            group = CurrencyGroup::G3;
                            selected = Some(0);
                            search_query.clear();
                        },
                        CurrencyGroup::All => {
                            group = CurrencyGroup::G10;
                            selected = Some(0);
                            search_query.clear();
                        },
                    }
                }
            },
            FormKey::Enter => {
                if field == Field::Currency && !popup {
                    popup = true;
                    group = CurrencyGroup::G3;
                    selected = Some(0);
                    search_query.clear();
                } else if popup {
                    match selected {
                        Some(at) => {
                            let shown = filter_codes(group.list(), search_query.as_str());
                            if !shown.is_empty() {
                                selected_currency = shown[at].clone();
                            }
                            result =
                            Some(
                                apply_rate_str(
                                    input_base.as_str(),
                                    input_rate.as_str(),
                                    selected_currency.as_str(),
                                ),
                            );
                            search_query.clear();
                            popup = false;
                        },
                        None => {},
                    }
                } else {
                    field = field.following();
                }
            },
            FormKey::Char(c) => {
                let numeric = ('0' <= c && c <= '9') || c == '.';
                if numeric && field == Field::Base {
                    input_base.push(c);
                    result =
                    Some(
                        apply_rate_str(
                            input_base.as_str(),
                            input_rate.as_str(),
                            selected_currency.as_str(),
                        ),
                    );
                } else if numeric && field == Field::Rate {
                    input_rate.push(c);
                    result =
                    Some(
                        apply_rate_str(
                            input_base.as_str(),
                            input_rate.as_str(),
                            selected_currency.as_str(),
                        ),
                    );
                } else if popup {
                    search_query.push(c);
                    selected = Some(0);
                }
            },
            FormKey::Other => {},
        }
        let form = PercentageForm {
            input_base,
            input_rate,
            selected_currency,
            field,
            result,
            popup,
            group,
            selected,
            search_query,
        };
        (form, leaves)
    }
}

} // verus!
