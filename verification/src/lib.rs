//! Percentage rates on amounts of money.
//!
//! - [`decimal`]: decimal numbers, with the arithmetic of `rust_decimal`.
//! - [`money`]: a validated ISO 4217 currency code, an amount in a currency
//!   to which a rate is applied and from which it is taken back, and the
//!   groups of currencies G3, G10 and All.
//! - [`percentage`]: a rate applied to an amount, from three texts.
//! - [`form`], [`wizard`], [`menu`] and [`layout`]: what the keys do to the
//!   screens of a program that applies percentages, and where a screen
//!   stands.
//! - [`text`]: what the library assumes of the standard library's texts.

pub mod decimal;
pub mod form;
pub mod layout;
pub mod menu;
pub mod money;
pub mod percentage;
pub mod text;
pub mod wizard;

pub use money::{CurrencyAlpha3, Money};
pub use percentage::apply_rate_str;
