//! Error kinds of the SKU redemption client, and the wrapper that crosses its
//! public boundary.

pub mod decimal;
pub mod delay;
pub mod errors;
pub mod status;
