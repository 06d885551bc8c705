//! Accounting and dispatch core of a pooled-capital trading vault that
//! executes multi-venue swaps through an authorized router.

pub mod identity;
pub mod config;
pub mod router;
pub mod vault;
