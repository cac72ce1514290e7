//! Private keys, public keys and the three address encodings.

use crate::backend::{legacy_address, p2pkh_text, p2tr_text, p2wpkh_text, public_key_bytes, random_bytes, secp_public_key, secret_key_accepts, segwit_address, taproot_address};
use crate::error::CoreError;
use crate::hex::{bytes_to_hex, encode_spec, hex_to_bytes, hex_to_bytes_spec};
use crate::model::Network;
use vstd::prelude::*;

verus! {

/// The integer that a byte sequence stands for, most significant byte first.
pub open spec fn be_value(bytes: Seq<u8>) -> nat
    decreases bytes.len(),
{
    if bytes.len() == 0 {
        0
    } else {
        256 * be_value(bytes.drop_last()) + bytes.last() as nat
    }
}

/// The order of the secp256k1 group.
pub open spec fn curve_order() -> nat {
    0xffff_ffff_ffff_ffff_ffff_ffff_ffff_fffe_baae_dce6_af48_a03b_bfd2_5e8c_d036_4141nat
}

/// Whether bytes are a private key: 32 bytes whose value, most significant
/// byte first, is neither zero nor at or above the group order.
pub open spec fn valid_secret_key(bytes: Seq<u8>) -> bool {
    &&& bytes.len() == 32
    &&& 0 < be_value(bytes) < curve_order()
}

/// The three address encodings of one key.
#[derive(Clone, Debug, PartialEq, Eq)]
pub struct WalletAddresses {
    /// Pay-to-public-key-hash, in base58.
    pub legacy: String,
    /// Witness version 0 key hash, in bech32.
    pub segwit: String,
    /// Witness version 1 key-path output, in bech32m.
    pub taproot: String,
}

/// A private key in hex with what is derived from it.
#[derive(Clone, Debug, PartialEq, Eq)]
pub struct KeyPair {
    /// The private key, as the caller gave it.
    pub private_key: String,
    /// The compressed public key, in hex.
    pub public_key: String,
    /// The addresses of the key.
    pub addresses: WalletAddresses,
}

/// The three address texts of a public key on a network.
pub struct AddressTexts {
    pub legacy: Seq<char>,
    pub segwit: Seq<char>,
    pub taproot: Seq<char>,
}

impl View for WalletAddresses {
    type V = AddressTexts;

    open spec fn view(&self) -> AddressTexts {
        AddressTexts { legacy: self.legacy@, segwit: self.segwit@, taproot: self.taproot@ }
    }
}

/// The public key of a private key: `InvalidKeyMaterial` where the bytes are
/// no private key.
pub open spec fn public_key_spec(key: Seq<u8>) -> Result<Seq<u8>, CoreError> {
    if valid_secret_key(key) {
        Ok(secp_public_key(key))
    } else {
        Err(CoreError::InvalidKeyMaterial)
    }
}

/// The addresses of a private key on a network: `InvalidKeyMaterial` where
/// the bytes are no private key.
pub open spec fn addresses_spec(key: Seq<u8>, network: Network) -> Result<AddressTexts, CoreError> {
    if valid_secret_key(key) {
        Ok(
            AddressTexts {
                legacy: p2pkh_text(secp_public_key(key), network),
                segwit: p2wpkh_text(secp_public_key(key), network),
                taproot: p2tr_text(secp_public_key(key), network),
            },
        )
    } else {
        Err(CoreError::InvalidKeyMaterial)
    }
}

/// Accepts 32 drawn bytes as a private key where they are one, and refuses
/// them as `InvalidKeyMaterial` where they are zero or not below the group
/// order. The draw is never altered.
pub fn private_key_from_draw(draw: [u8; 32]) -> (result: Result<[u8; 32], CoreError>)
    ensures
        valid_secret_key(draw@) ==> result == Ok::<[u8; 32], CoreError>(draw),
        !valid_secret_key(draw@) ==> result == Err::<[u8; 32], CoreError>(CoreError::InvalidKeyMaterial),
{
    if secret_key_accepts(draw.as_slice()) {
        Ok(draw)
    } else {
        Err(CoreError::InvalidKeyMaterial)
    }
}

/// Draws a private key from the process's secure random source and returns
/// it in hex. A draw that is no private key is reported, not masked.
pub fn generate_private_key() -> (result: Result<String, CoreError>)
    ensures
        match result {
            Ok(text) => exists|key: Seq<u8>| valid_secret_key(key) && text@ == encode_spec(key),
            Err(e) => e == CoreError::InvalidKeyMaterial,
        },
{
    match private_key_from_draw(random_bytes()) {
        Ok(key) => Ok(bytes_to_hex(key.as_slice())),
        Err(e) => Err(e),
    }
}

/// Derives the compressed public key (33 bytes) of a private key.
pub fn derive_public_key(key: &[u8]) -> (result: Result<[u8; 33], CoreError>)
    ensures
        match result {
            Ok(public) => public_key_spec(key@) == Ok::<Seq<u8>, CoreError>(public@),
            Err(e) => public_key_spec(key@) == Err::<Seq<u8>, CoreError>(e),
        },
{
    if !secret_key_accepts(key) {
        return Err(CoreError::InvalidKeyMaterial);
    }
    Ok(public_key_bytes(key))
}

/// Derives the legacy, segwit and taproot addresses of a private key on a network.
pub fn derive_addresses(key: &[u8], network: Network) -> (result: Result<WalletAddresses, CoreError>)
    ensures
        match result {
            Ok(addresses) => addresses_spec(key@, network) == Ok::<AddressTexts, CoreError>(addresses@),
            Err(e) => addresses_spec(key@, network) == Err::<AddressTexts, CoreError>(e),
        },
{
    if !secret_key_accepts(key) {
        return Err(CoreError::InvalidKeyMaterial);
    }
    Ok(
        WalletAddresses {
            legacy: legacy_address(key, network),
            segwit: segwit_address(key, network),
            taproot: taproot_address(key, network),
        },
    )
}

/// What `derive_addresses_from_key` returns besides the key it echoes: the
/// public key in hex and the addresses on the test network. `MalformedHex`
/// where the text is no hex, `InvalidKeyMaterial` where its bytes are no
/// private key.
pub open spec fn key_pair_spec(text: Seq<char>) -> Result<(Seq<char>, AddressTexts), CoreError> {
    match hex_to_bytes_spec(text) {
        Err(e) => Err(e),
        Ok(key) => if valid_secret_key(key) {
            Ok((encode_spec(secp_public_key(key)), addresses_spec(key, Network::Testnet)->Ok_0))
        } else {
            Err(CoreError::InvalidKeyMaterial)
        },
    }
}

/// Derives the public key and the test-network addresses of a private key
/// given in hex, and returns them with the key as it was given.
pub fn derive_addresses_from_key(private_key_hex: &str) -> (result: Result<KeyPair, CoreError>)
    ensures
        match result {
            Ok(pair) => {
                &&& pair.private_key@ == private_key_hex@
                &&& key_pair_spec(private_key_hex@) == Ok::<(Seq<char>, AddressTexts), CoreError>((pair.public_key@, pair.addresses@))
            },
            Err(e) => key_pair_spec(private_key_hex@) == Err::<(Seq<char>, AddressTexts), CoreError>(e),
        },
{
    let key = match hex_to_bytes(private_key_hex) {
        Ok(key) => key,
        Err(e) => {
            return Err(e);
        },
    };
    let public = match derive_public_key(key.as_slice()) {
        Ok(public) => public,
        Err(e) => {
            return Err(e);
        },
    };
    let addresses = match derive_addresses(key.as_slice(), Network::Testnet) {
        Ok(addresses) => addresses,
        Err(e) => {
            return Err(e);
        },
    };
    Ok(KeyPair { private_key: String::from_str(private_key_hex), public_key: bytes_to_hex(public.as_slice()), addresses })
}

/// Key derivation is deterministic: whatever two calls of `derive_public_key`
/// and of `derive_addresses` return for one key and network, they return the same.
pub proof fn lemma_derivation_deterministic(
    key: Seq<u8>,
    network: Network,
    first_key: Result<Seq<u8>, CoreError>,
    second_key: Result<Seq<u8>, CoreError>,
    first_addresses: Result<AddressTexts, CoreError>,
    second_addresses: Result<AddressTexts, CoreError>,
)
    requires
        first_key == public_key_spec(key),
        second_key == public_key_spec(key),
        first_addresses == addresses_spec(key, network),
        second_addresses == addresses_spec(key, network),
    ensures
        first_key == second_key,
        first_addresses == second_addresses,
        first_key is Ok <==> first_addresses is Ok,
{
}

} // verus!
