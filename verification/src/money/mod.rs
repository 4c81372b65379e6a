//! Money in ISO 4217 currencies, and the groups of currencies.

pub mod currency_group;
pub mod model;
pub mod registry;

pub use currency_group::CurrencyGroup;
pub use model::{CurrencyAlpha3, Money};
