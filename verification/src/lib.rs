//! Transaction construction, signing and key/address derivation for a
//! Bitcoin-style UTXO currency, with machine-checked contracts.
//!
//! - [`hex`]: bytes to lowercase hex text and back.
//! - [`wallet`]: private keys, public keys and the legacy, segwit and taproot addresses.
//! - [`transaction`]: building a transaction, its consensus encoding and its identifier.
//! - [`signing`]: attaching a signature witness to one input.
//! - [`model`]: the transaction type and its mathematical view.
//! - [`backend`]: the calls into the `bitcoin` crate, with the contracts assumed of them.

pub mod backend;
pub mod error;
pub mod hex;
pub mod model;
pub mod signing;
pub mod transaction;
pub mod wallet;

pub use error::CoreError;
pub use hex::{bytes_to_hex, hex_to_bytes};
pub use signing::sign_transaction;
pub use transaction::{build_transaction, calculate_txid, TransactionInput, TransactionOutput};
pub use wallet::{derive_addresses_from_key, generate_private_key, KeyPair, WalletAddresses};
