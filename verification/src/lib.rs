//! Spending limits for payments, with the currency conversion they rest on.

pub mod clock;
pub mod conversion;
pub mod currency;
pub mod decimal;
pub mod forex;
pub mod limits;
pub mod secret;
pub mod text;
