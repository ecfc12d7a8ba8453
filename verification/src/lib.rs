//! Translation of a Geth genesis description into a Parity chain description.
//!
//! The crate holds the data model of both documents, the rules that map one
//! onto the other, and the small text routines those rules rest on. Reading
//! files, prompting the operator and JSON encoding belong to the caller.

#![allow(non_snake_case)]

pub mod error;
pub mod geth;
pub mod laws;
pub mod number;
pub mod operator;
pub mod parity;
pub mod precompile;
pub mod text;
pub mod translate;

pub use error::TranslationError;
pub use geth::{GethAccount, GethConfig, GethSpec};
pub use parity::{
    linear_pricing, ParityAccount, ParityBuiltin, ParityEthash, ParityGenesis, ParityParams,
    ParitySeal, ParitySpec,
};
pub use precompile::builtin_from_address;
pub use translate::translate;
