//! The groups of currencies: G3, G10 and all of ISO 4217.

use crate::money::model::CurrencyAlpha3;
use crate::money::registry::{
    in_registry, is_registry_listing, lemma_listing_holds_registry,
    lemma_registry_listing_is_unique, registered_codes, registry_listing,
};
use vstd::prelude::*;

verus! {

/// A group of currencies.
#[derive(Clone, Copy, Debug, PartialEq, Eq, Structural)]
pub enum CurrencyGroup {
    /// The three currencies of most weight: USD, EUR and JPY.
    G3,
    /// The ten most traded currencies, by volume of trade.
    G10,
    /// Every currency of ISO 4217, in the order of the registry.
    All,
}

/// The codes of G3, in their order.
pub open spec fn g3_codes() -> Seq<Seq<char>> {
    seq!["USD"@, "EUR"@, "JPY"@]
}

/// The codes of G10, in their order.
pub open spec fn g10_codes() -> Seq<Seq<char>> {
    seq!["USD"@, "EUR"@, "JPY"@, "GBP"@, "CHF"@, "CAD"@, "AUD"@, "NZD"@, "SEK"@, "NOK"@]
}

/// The three codes of G3.
fn g3_list() -> (codes: Vec<String>)
    ensures
        codes.deep_view() == g3_codes(),
        codes.len() == 3,
{
    let mut codes: Vec<String> = Vec::new();
    codes.push("USD".to_string());
    codes.push("EUR".to_string());
    codes.push("JPY".to_string());
    assert(codes.deep_view() =~= g3_codes());
    codes
}

/// The ten codes of G10.
fn g10_list() -> (codes: Vec<String>)
    ensures
        codes.deep_view() == g10_codes(),
        codes.len() == 10,
{
    let mut codes: Vec<String> = Vec::new();
    codes.push("USD".to_string());
    codes.push("EUR".to_string());
    codes.push("JPY".to_string());
    codes.push("GBP".to_string());
    codes.push("CHF".to_string());
    codes.push("CAD".to_string());
    codes.push("AUD".to_string());
    codes.push("NZD".to_string());
    codes.push("SEK".to_string());
    codes.push("NOK".to_string());
    assert(codes.deep_view() =~= g10_codes());
    codes
}

/// Whether one of the codes is `code`.
fn holds(codes: &Vec<String>, code: &str) -> (found: bool)
    ensures
        found == codes.deep_view().contains(code@),
{
    let mut at: usize = 0;
    while at < codes.len()
        invariant
            at <= codes.len(),
            forall|before: int| 0 <= before < at ==> codes.deep_view()[before] != code@,
        decreases codes.len() - at,
    {
        if *codes[at].as_str() == *code {
            assert(codes.deep_view()[at as int] == code@);
            return true;
        }
        at = at + 1;
    }
    false
}

impl CurrencyGroup {
    /// The codes of the group, in its order.
    pub open spec fn codes(self) -> Seq<Seq<char>> {
        match self {
            CurrencyGroup::G3 => g3_codes(),
            CurrencyGroup::G10 => g10_codes(),
            CurrencyGroup::All => registry_listing(),
        }
    }

    /// Whether a code is one of the group.
    pub open spec fn has_member(self, code: Seq<char>) -> bool {
        match self {
            CurrencyGroup::G3 => g3_codes().contains(code),
            CurrencyGroup::G10 => g10_codes().contains(code),
            CurrencyGroup::All => in_registry(code),
        }
    }

    /// Whether the currency is one of the group.
    pub fn contains(&self, currency: &CurrencyAlpha3) -> (found: bool)
        ensures
            found == self.has_member(currency@),
            self is All ==> found,
    {
        let codes = self.list();
        holds(&codes, currency.code())
    }

    /// The codes of the group, in its order: those of G3 and G10 by volume
    /// of trade, those of All as the registry lists them.
    pub fn list(&self) -> (codes: Vec<String>)
        ensures
            codes.deep_view() == self.codes(),
            forall|code: Seq<char>| #[trigger] self.codes().contains(code) <==> self.has_member(code),
            self is G3 ==> codes.len() == 3,
            self is G10 ==> codes.len() == 10,
            self is All ==> codes.len() > 10 && is_registry_listing(self.codes()),
            self is All ==> forall|code: Seq<char>| #[trigger]
                CurrencyGroup::G10.has_member(code) ==> codes.deep_view().contains(code),
    {
        match self {
            CurrencyGroup::G3 => g3_list(),
            CurrencyGroup::G10 => g10_list(),
            CurrencyGroup::All => {
                let codes = registered_codes();
                proof {
                    lemma_registry_listing_is_unique(codes.deep_view());
                    lemma_listing_holds_registry(codes.deep_view());
                }
                codes
            },
        }
    }

    /// Whether `code` is, letter for letter, a code of G10.
    pub fn is_g10_currency(code: &str) -> (found: bool)
        ensures
            found == CurrencyGroup::G10.has_member(code@),
    {
        let codes = CurrencyGroup::G10.list();
        holds(&codes, code)
    }

    /// Whether `code` is, letter for letter, a code of G3.
    pub fn is_g3_currency(code: &str) -> (found: bool)
        ensures
            found == CurrencyGroup::G3.has_member(code@),
    {
        let codes = CurrencyGroup::G3.list();
        holds(&codes, code)
    }
}

/// Every code of G3 is a code of G10.
pub proof fn lemma_g3_within_g10(code: Seq<char>)
    requires
        CurrencyGroup::G3.has_member(code),
    ensures
        CurrencyGroup::G10.has_member(code),
{
    let at = choose|at: int| 0 <= at < g3_codes().len() && g3_codes()[at] == code;
    assert(g10_codes()[at] == code);
}

/// Every code of G10 is a code of All: the list of All, where the registry
/// gave one, holds it.
pub proof fn lemma_g10_within_all(code: Seq<char>)
    requires
        is_registry_listing(CurrencyGroup::All.codes()),
        CurrencyGroup::G10.has_member(code),
    ensures
        CurrencyGroup::All.codes().contains(code),
        CurrencyGroup::All.has_member(code),
{
    lemma_listing_holds_registry(CurrencyGroup::All.codes());
}

} // verus!
