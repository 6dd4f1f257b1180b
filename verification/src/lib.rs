//! Verified core of the `zebrad` configuration: the deny-list that keeps secrets out of
//! environment-variable overrides, and the decoding of the local-testnet genesis seed.

pub mod text;
pub mod sensitive;
pub mod radix;
pub mod local_genesis;
pub mod env;
