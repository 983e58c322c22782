//! An exchange booth: a two-asset swap venue priced by an administrator-set
//! oracle, with fixed-point conversion arithmetic and derived-address
//! account validation.

pub mod address;
pub mod codec;
pub mod commands;
pub mod convert;
pub mod error;
pub mod helpers;
pub mod processor;
pub mod state;
pub mod token;
