use ratefy::decimal::Decimal;
use ratefy::form::{filter_codes, Field, FormKey, PercentageForm};
use ratefy::money::CurrencyGroup;
use ratefy::percentage::PercentageError;

fn after(form: PercentageForm, keys: &[FormKey]) -> PercentageForm {
    let mut form = form;
    for key in keys {
        let (next, leaves) = form.on_key(*key);
        assert!(!leaves);
        form = next;
    }
    form
}

fn typed(form: PercentageForm, text: &str) -> PercentageForm {
    let keys: Vec<FormKey> = text.chars().map(FormKey::Char).collect();
    after(form, &keys)
}

fn with_list() -> PercentageForm {
    after(PercentageForm::new(), &[FormKey::Tab, FormKey::Tab, FormKey::Enter])
}

#[test]
fn test_form_as_first_shown() {
    let form = PercentageForm::new();
    assert_eq!(form.input_base(), "");
    assert_eq!(form.input_rate(), "");
    assert_eq!(form.selected_currency(), "EUR");
    assert_eq!(form.field(), Field::Base);
    assert!(form.result().is_none());
    assert!(!form.popup_shown());
    assert_eq!(form.group(), CurrencyGroup::G3);
    assert_eq!(form.selected(), None);
    assert_eq!(form.search_query(), "");
}

#[test]
fn test_form_digits_go_to_the_base() {
    let form = typed(PercentageForm::new(), "200.5");
    assert_eq!(form.input_base(), "200.5");
    assert_eq!(form.input_rate(), "");
}

#[test]
fn test_form_other_characters_go_nowhere() {
    let form = typed(PercentageForm::new(), "a-b");
    assert_eq!(form.input_base(), "");
    assert_eq!(form.search_query(), "");
    assert!(form.result().is_none());
}

#[test]
fn test_form_computes_as_it_is_typed() {
    let form = typed(PercentageForm::new(), "200");
    assert_eq!(form.result(), &Some(Err(PercentageError::InvalidRate)));
    let form = typed(after(form, &[FormKey::Tab]), "15");
    assert_eq!(form.input_rate(), "15");
    match form.result() {
        Some(Ok((amount, code))) => {
            assert_eq!(*amount, Decimal::new(230, 0));
            assert_eq!(code, "EUR");
        }
        _ => panic!("no result"),
    }
}

#[test]
fn test_form_backspace_takes_the_last_character() {
    let form = after(typed(PercentageForm::new(), "12"), &[FormKey::Backspace]);
    assert_eq!(form.input_base(), "1");
    let form = after(form, &[FormKey::Backspace, FormKey::Backspace]);
    assert_eq!(form.input_base(), "");
    let form = typed(after(form, &[FormKey::Tab]), "7");
    let form = after(form, &[FormKey::Backspace]);
    assert_eq!(form.input_rate(), "");
}

#[test]
fn test_form_backspace_keeps_the_result() {
    let form = typed(PercentageForm::new(), "1");
    let form = after(form, &[FormKey::Backspace]);
    assert_eq!(form.result(), &Some(Err(PercentageError::InvalidRate)));
}

#[test]
fn test_form_tab_goes_round() {
    let form = after(PercentageForm::new(), &[FormKey::Tab]);
    assert_eq!(form.field(), Field::Rate);
    let form = after(form, &[FormKey::Tab]);
    assert_eq!(form.field(), Field::Currency);
    let form = after(form, &[FormKey::Tab]);
    assert_eq!(form.field(), Field::Base);
    let form = after(form, &[FormKey::BackTab]);
    assert_eq!(form.field(), Field::Currency);
    let form = after(form, &[FormKey::BackTab]);
    assert_eq!(form.field(), Field::Rate);
}

#[test]
fn test_form_arrows_move_between_fields() {
    let form = after(PercentageForm::new(), &[FormKey::Up]);
    assert_eq!(form.field(), Field::Base);
    let form = after(form, &[FormKey::Down, FormKey::Down]);
    assert_eq!(form.field(), Field::Currency);
    let form = after(form, &[FormKey::Down]);
    assert_eq!(form.field(), Field::Base);
    let form = after(form, &[FormKey::Down, FormKey::Up]);
    assert_eq!(form.field(), Field::Base);
}

#[test]
fn test_form_enter_goes_to_the_next_field() {
    let form = after(PercentageForm::new(), &[FormKey::Enter]);
    assert_eq!(form.field(), Field::Rate);
    assert!(!form.popup_shown());
}

#[test]
fn test_form_enter_opens_the_list() {
    let form = with_list();
    assert!(form.popup_shown());
    assert_eq!(form.group(), CurrencyGroup::G3);
    assert_eq!(form.selected(), Some(0));
    assert_eq!(form.shown_codes(), vec!["USD", "EUR", "JPY"]);
}

#[test]
fn test_form_list_moves_within_its_places() {
    let form = after(with_list(), &[FormKey::Up]);
    assert_eq!(form.selected(), Some(0));
    let form = after(form, &[FormKey::Down, FormKey::Down]);
    assert_eq!(form.selected(), Some(2));
    let form = after(form, &[FormKey::Down]);
    assert_eq!(form.selected(), Some(2));
    let form = after(form, &[FormKey::Up]);
    assert_eq!(form.selected(), Some(1));
}

#[test]
fn test_form_list_changes_group() {
    let form = after(with_list(), &[FormKey::Down, FormKey::Right]);
    assert_eq!(form.group(), CurrencyGroup::G10);
    assert_eq!(form.selected(), Some(0));
    assert_eq!(form.shown_codes().len(), 10);
    let form = after(form, &[FormKey::Right]);
    assert_eq!(form.group(), CurrencyGroup::All);
    assert_eq!(form.shown_codes(), CurrencyGroup::All.list());
    let form = after(form, &[FormKey::Right]);
    assert_eq!(form.group(), CurrencyGroup::G3);
    let form = after(form, &[FormKey::Left]);
    assert_eq!(form.group(), CurrencyGroup::G3);
    let form = after(form, &[FormKey::Right, FormKey::Right, FormKey::Left]);
    assert_eq!(form.group(), CurrencyGroup::G10);
}

#[test]
fn test_form_arrows_left_and_right_without_the_list() {
    let form = after(PercentageForm::new(), &[FormKey::Right, FormKey::Left]);
    assert_eq!(form.group(), CurrencyGroup::G3);
    assert_eq!(form.selected(), None);
}

#[test]
fn test_form_search_narrows_the_list() {
    let form = typed(with_list(), "u");
    assert_eq!(form.search_query(), "u");
    assert_eq!(form.shown_codes(), vec!["USD", "EUR"]);
    let form = typed(form, "S");
    assert_eq!(form.shown_codes(), vec!["USD"]);
    let form = typed(form, "x");
    assert!(form.shown_codes().is_empty());
    assert_eq!(form.selected(), Some(0));
    let form = after(form, &[FormKey::Backspace, FormKey::Backspace]);
    assert_eq!(form.search_query(), "u");
    assert_eq!(form.shown_codes(), vec!["USD", "EUR"]);
}

#[test]
fn test_form_search_goes_back_to_the_first_place() {
    let form = after(with_list(), &[FormKey::Down, FormKey::Down]);
    let form = typed(form, "e");
    assert_eq!(form.selected(), Some(0));
}

#[test]
fn test_form_choosing_a_currency_computes() {
    let form = typed(PercentageForm::new(), "100");
    let form = typed(after(form, &[FormKey::Tab]), "10");
    let form = after(form, &[FormKey::Tab, FormKey::Enter, FormKey::Down, FormKey::Down, FormKey::Enter]);
    assert!(!form.popup_shown());
    assert_eq!(form.selected_currency(), "JPY");
    assert_eq!(form.search_query(), "");
    match form.result() {
        Some(Ok((amount, code))) => {
            assert_eq!(*amount, Decimal::new(110, 0));
            assert_eq!(code, "JPY");
        }
        _ => panic!("no result"),
    }
}

#[test]
fn test_form_choosing_from_an_empty_list_keeps_the_currency() {
    let form = typed(with_list(), "q");
    let form = after(form, &[FormKey::Enter]);
    assert!(!form.popup_shown());
    assert_eq!(form.selected_currency(), "EUR");
    assert_eq!(form.result(), &Some(Err(PercentageError::InvalidBaseAmount)));
}

#[test]
fn test_form_choosing_after_a_search() {
    let form = typed(with_list(), "jp");
    let form = after(form, &[FormKey::Enter]);
    assert_eq!(form.selected_currency(), "JPY");
}

#[test]
fn test_form_esc_closes_the_list() {
    let form = typed(with_list(), "u");
    let (form, leaves) = form.on_key(FormKey::Esc);
    assert!(!leaves);
    assert!(!form.popup_shown());
    assert_eq!(form.search_query(), "");
    assert_eq!(form.selected_currency(), "EUR");
}

#[test]
fn test_form_esc_leaves() {
    let (form, leaves) = typed(PercentageForm::new(), "5").on_key(FormKey::Esc);
    assert!(leaves);
    assert_eq!(form.input_base(), "5");
}

#[test]
fn test_form_digits_go_to_the_search_on_the_list() {
    let form = typed(with_list(), "1");
    assert_eq!(form.search_query(), "1");
    assert_eq!(form.input_base(), "");
}

#[test]
fn test_form_digits_go_to_a_field_though_the_list_is_shown() {
    let form = after(with_list(), &[FormKey::Tab]);
    assert!(form.popup_shown());
    assert_eq!(form.field(), Field::Base);
    let form = typed(form, "4");
    assert_eq!(form.input_base(), "4");
    assert_eq!(form.search_query(), "");
}

#[test]
fn test_form_other_key_changes_nothing() {
    let form = after(typed(PercentageForm::new(), "3"), &[FormKey::Other]);
    assert_eq!(form.input_base(), "3");
    assert_eq!(form.field(), Field::Base);
}

#[test]
fn test_filter_codes() {
    let codes: Vec<String> = vec!["USD".to_string(), "EUR".to_string(), "JPY".to_string()];
    assert_eq!(filter_codes(codes.clone(), ""), codes);
    assert_eq!(filter_codes(codes.clone(), "u"), vec!["USD", "EUR"]);
    assert_eq!(filter_codes(codes.clone(), "UR"), vec!["EUR"]);
    assert_eq!(filter_codes(codes.clone(), "jpy"), vec!["JPY"]);
    assert!(filter_codes(codes.clone(), "jpyx").is_empty());
    assert!(filter_codes(codes, " ").is_empty());
}
