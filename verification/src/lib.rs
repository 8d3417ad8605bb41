//! Pointcheval–Sanders short randomizable signatures over a type-III pairing,
//! with a Fiat–Shamir-compiled proof of knowledge of a signature that supports
//! selective disclosure of the signed messages.
//!
//! The group and field arithmetic is delegated to the `amcl_wrapper` pairing
//! library; elements are carried here as their canonical byte encodings, and
//! every contract speaks of those encodings.
#![allow(non_snake_case)]

pub mod curve;
pub mod errors;
pub mod keys;
pub mod pok_sig;
pub mod pok_vc;
pub mod signature;
