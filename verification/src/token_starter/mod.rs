//! The token starter program's `burn_tokens` instruction.

pub mod burn;

pub use crate::error::TokenStarterError as CustomError;
