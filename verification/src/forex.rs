//! Exchange rates: where they come from, how they are kept, and what is
//! converted with them.

pub mod cache;
pub mod error;
pub mod provider;
pub mod rates;
