//! The ISO 4217 currencies, as the `iso_currency` crate lists them.

use crate::money::currency_group::g10_codes;
use core::str::FromStr;
use iso_currency::IntoEnumIterator;
use vstd::prelude::*;

verus! {

/// The error with which `iso_currency` refuses a text that is no code.
#[verifier::external_type_specification]
#[verifier::external_body]
pub struct ExParseCurrencyError(iso_currency::ParseCurrencyError);

/// The alphabetic code of the currency at a place in `iso_currency`'s list,
/// counted from zero; `None` from the end of the list on.
pub uninterp spec fn registry_code_at(index: nat) -> Option<Seq<char>>;

/// Whether a text is, letter for letter, the code of a listed currency.
pub open spec fn in_registry(code: Seq<char>) -> bool {
    exists|index: nat| registry_code_at(index) == Some(code)
}

/// Whether a text is three capital letters from A to Z.
pub open spec fn is_alpha3(code: Seq<char>) -> bool {
    &&& code.len() == 3
    &&& forall|at: int| 0 <= at < 3 ==> 'A' <= #[trigger] code[at] <= 'Z'
}

/// Whether `codes` is the whole list, in its order.
pub open spec fn is_registry_listing(codes: Seq<Seq<char>>) -> bool {
    &&& forall|index: nat| #[trigger]
        registry_code_at(index) == if index < codes.len() {
            Some(codes[index as int])
        } else {
            None
        }
    &&& codes.no_duplicates()
    &&& forall|at: int| 0 <= at < codes.len() ==> is_alpha3(#[trigger] codes[at])
    &&& codes.len() >= 150
    &&& forall|code: Seq<char>| #[trigger] g10_codes().contains(code) ==> codes.contains(code)
}

/// The whole list, in its order.
pub open spec fn registry_listing() -> Seq<Seq<char>> {
    choose|codes: Seq<Seq<char>>| is_registry_listing(codes)
}

/// There is one whole list: any is [`registry_listing`].
pub proof fn lemma_registry_listing_is_unique(codes: Seq<Seq<char>>)
    requires
        is_registry_listing(codes),
    ensures
        codes == registry_listing(),
{
    let chosen = registry_listing();
    assert(is_registry_listing(chosen));
    assert(codes.len() == chosen.len()) by {
        if codes.len() < chosen.len() {
            assert(registry_code_at(codes.len()) is None);
        } else if chosen.len() < codes.len() {
            assert(registry_code_at(chosen.len()) is None);
        }
    }
    assert forall|at: int| 0 <= at < codes.len() implies codes[at] == chosen[at] by {
        assert(registry_code_at(at as nat) == Some(codes[at]));
    }
    assert(codes =~= chosen);
}

/// The whole list holds a code exactly if the registry has it.
pub proof fn lemma_listing_holds_registry(codes: Seq<Seq<char>>)
    requires
        is_registry_listing(codes),
    ensures
        forall|code: Seq<char>| #[trigger] codes.contains(code) <==> in_registry(code),
{
    assert forall|code: Seq<char>| #[trigger] codes.contains(code) <==> in_registry(code) by {
        if codes.contains(code) {
            let at = choose|at: int| 0 <= at < codes.len() && codes[at] == code;
            assert(registry_code_at(at as nat) == Some(code));
        }
        if in_registry(code) {
            let index = choose|index: nat| registry_code_at(index) == Some(code);
            assert(index < codes.len());
            assert(codes[index as int] == code);
        }
    }
}

/// The codes of all currencies, from `iso_currency::Currency::iter()` and
/// `Currency::code()`.
///
/// Not proved: that the list is the same at every call, which
/// [`registry_code_at`] names; that no code occurs twice in it; that each
/// code is three capital letters; that it has 150 codes or more; and that
/// the ten codes of G10 are among them. The crate's table of currencies
/// shows each.
#[verifier::external_body]
pub(crate) fn registered_codes() -> (codes: Vec<String>)
    ensures
        is_registry_listing(codes.deep_view()),
        forall|index: nat|
            index < codes.len() ==> #[trigger] registry_code_at(index) == Some(
                codes[index as int]@,
            ),
{
    let mut codes = Vec::new();
    for currency in iso_currency::Currency::iter() {
        codes.push(currency.code().to_string());
    }
    codes
}

/// Looks a code up with `iso_currency`'s `FromStr` for its `Currency`, and
/// gives the code of what was found, from `Currency::code()`.
///
/// Not proved: that a text is found exactly if it is, letter for letter, the
/// code of a listed currency; that the code found is that text; and that
/// it is three capital letters.
#[verifier::external_body]
pub(crate) fn find_code(code: &str) -> (found: Result<String, iso_currency::ParseCurrencyError>)
    ensures
        found is Ok <==> in_registry(code@),
        found matches Ok(canonical) ==> canonical@ == code@ && is_alpha3(canonical@),
{
    match iso_currency::Currency::from_str(code) {
        Ok(currency) => Ok(currency.code().to_string()),
        Err(e) => Err(e),
    }
}

} // verus!
