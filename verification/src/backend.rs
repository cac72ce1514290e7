//! The calls into the `bitcoin` crate and, through it, `secp256k1`.
//!
//! Nothing in this module is proved: each contract states what the called
//! function does, and the rest of the library is verified against it.

use crate::hex::{decode_spec, is_hex_text};
use crate::model::{Network, Transaction, TransactionView, TxInput, TxOutput};
use crate::wallet::valid_secret_key;
use bitcoin::absolute::LockTime;
use bitcoin::hashes::Hash as _;
use bitcoin::secp256k1::{Message, PublicKey, Secp256k1, SecretKey};
use bitcoin::sighash::{EcdsaSighashType, SighashCache};
use bitcoin::transaction::Version;
use bitcoin::{Address, Amount, CompressedPublicKey, OutPoint, Script, ScriptBuf, Sequence, TxIn, TxOut, Txid, Witness};
use rand::Rng as _;
use std::str::FromStr as _;
use vstd::prelude::*;

verus! {

/// The consensus encoding of a transaction: what `bitcoin::consensus::serialize`
/// returns for it.
pub uninterp spec fn consensus_encoding(tx: TransactionView) -> Seq<u8>;

/// The transaction that `bitcoin::consensus::deserialize` reads from a byte
/// sequence, or `None` where it refuses the bytes.
pub uninterp spec fn consensus_decoding(bytes: Seq<u8>) -> Option<TransactionView>;

/// Calls `bitcoin::consensus::serialize` on the transaction. The result is the
/// transaction's consensus encoding, a function of its fields alone.
#[verifier::external_body]
pub(crate) fn consensus_serialize(tx: &Transaction) -> (bytes: Vec<u8>)
    ensures
        bytes@ == consensus_encoding(tx@),
{
    let input = tx.inputs.iter().map(|i| TxIn {
        previous_output: OutPoint::new(Txid::from_byte_array(i.txid), i.vout),
        script_sig: ScriptBuf::from_bytes(i.script_sig.clone()),
        sequence: Sequence(i.sequence),
        witness: Witness::from_slice(&i.witness),
    }).collect();
    let output = tx.outputs.iter().map(|o| TxOut {
        value: Amount::from_sat(o.value),
        script_pubkey: ScriptBuf::from_bytes(o.script_pubkey.clone()),
    }).collect();
    let version = Version(tx.version);
    let lock_time = LockTime::from_consensus(tx.lock_time);
    bitcoin::consensus::serialize(&bitcoin::Transaction { version, lock_time, input, output })
}

/// Calls `bitcoin::consensus::deserialize` for a transaction. The result is the
/// transaction read from the bytes, or `None` where the call returns an error
/// (truncated input, a bad length prefix, trailing bytes).
#[verifier::external_body]
pub(crate) fn consensus_deserialize(bytes: &[u8]) -> (tx: Option<Transaction>)
    ensures
        match tx {
            Some(t) => consensus_decoding(bytes@) == Some(t@),
            None => consensus_decoding(bytes@) is None,
        },
{
    let t: bitcoin::Transaction = bitcoin::consensus::deserialize(bytes).ok()?;
    let inputs = t.input.iter().map(|i| TxInput {
        txid: i.previous_output.txid.to_byte_array(),
        vout: i.previous_output.vout,
        script_sig: i.script_sig.to_bytes(),
        sequence: i.sequence.0,
        witness: i.witness.to_vec(),
    }).collect();
    let outputs = t.output.iter().map(|o| TxOutput {
        value: o.value.to_sat(),
        script_pubkey: o.script_pubkey.to_bytes(),
    }).collect();
    Some(Transaction { version: t.version.0, lock_time: t.lock_time.to_consensus_u32(), inputs, outputs })
}

/// The hash that `bitcoin::Transaction::compute_txid` returns for a
/// transaction, in hash byte order.
pub uninterp spec fn txid_hash(tx: TransactionView) -> Seq<u8>;

/// Calls `bitcoin::Transaction::compute_txid` on the transaction. The result is
/// the 32-byte hash in hash byte order, a function of the transaction's fields alone.
#[verifier::external_body]
pub(crate) fn transaction_hash(tx: &Transaction) -> (hash: [u8; 32])
    ensures
        hash@ == txid_hash(tx@),
{
    let input = tx.inputs.iter().map(|i| TxIn {
        previous_output: OutPoint::new(Txid::from_byte_array(i.txid), i.vout),
        script_sig: ScriptBuf::from_bytes(i.script_sig.clone()),
        sequence: Sequence(i.sequence),
        witness: Witness::from_slice(&i.witness),
    }).collect();
    let output = tx.outputs.iter().map(|o| TxOut {
        value: Amount::from_sat(o.value),
        script_pubkey: ScriptBuf::from_bytes(o.script_pubkey.clone()),
    }).collect();
    let version = Version(tx.version);
    let lock_time = LockTime::from_consensus(tx.lock_time);
    bitcoin::Transaction { version, lock_time, input, output }.compute_txid().to_byte_array()
}

/// The digest that `SighashCache::p2wpkh_signature_hash` returns, with the
/// sighash type "all", for input `index` of the transaction that the encoding
/// decodes to, spending an output with the given script and amount; `None`
/// where the encoding does not decode or the call returns an error.
pub uninterp spec fn segwit_v0_sighash(encoding: Seq<u8>, index: int, script_pubkey: Seq<u8>, value: u64) -> Option<Seq<u8>>;

/// Decodes the transaction with `bitcoin::consensus::deserialize` and calls
/// `SighashCache::p2wpkh_signature_hash` on it with `EcdsaSighashType::All`.
/// The result is a function of the arguments alone: the 32-byte digest, or
/// `None` where either call returns an error.
#[verifier::external_body]
pub(crate) fn p2wpkh_sighash(encoding: &[u8], index: usize, script_pubkey: &[u8], value: u64) -> (digest: Option<[u8; 32]>)
    ensures
        match digest {
            Some(d) => segwit_v0_sighash(encoding@, index as int, script_pubkey@, value) == Some(d@),
            None => segwit_v0_sighash(encoding@, index as int, script_pubkey@, value) is None,
        },
{
    let tx: bitcoin::Transaction = bitcoin::consensus::deserialize(encoding).ok()?;
    let script = Script::from_bytes(script_pubkey);
    let amount = Amount::from_sat(value);
    let digest = SighashCache::new(&tx).p2wpkh_signature_hash(index, script, amount, EcdsaSighashType::All);
    Some(digest.ok()?.to_byte_array())
}

/// Calls `secp256k1::SecretKey::from_slice` and says whether it accepted the
/// bytes. It accepts 32 bytes whose value, most significant byte first, is not
/// zero and is below the group order, and nothing else.
#[verifier::external_body]
pub(crate) fn secret_key_accepts(bytes: &[u8]) -> (accepted: bool)
    ensures
        accepted == valid_secret_key(bytes@),
{
    SecretKey::from_slice(bytes).is_ok()
}

/// The compressed serialization of the public key that
/// `secp256k1::PublicKey::from_secret_key` derives from a private key.
pub uninterp spec fn secp_public_key(secret: Seq<u8>) -> Seq<u8>;

/// Calls `secp256k1::PublicKey::from_secret_key` and serializes the key in
/// compressed form (33 bytes). The result is a function of the private key alone.
#[verifier::external_body]
pub(crate) fn public_key_bytes(secret: &[u8]) -> (public: [u8; 33])
    requires
        valid_secret_key(secret@),
    ensures
        public@ == secp_public_key(secret@),
{
    let key = SecretKey::from_slice(secret).expect("a valid private key");
    PublicKey::from_secret_key(&Secp256k1::new(), &key).serialize()
}

/// The DER encoding of the signature that `Secp256k1::sign_ecdsa` makes of a
/// 32-byte digest under a private key, with the nonce of RFC 6979.
pub uninterp spec fn ecdsa_signature(digest: Seq<u8>, secret: Seq<u8>) -> Seq<u8>;

/// Calls `Secp256k1::sign_ecdsa` and encodes the signature with
/// `serialize_der`. The nonce is derived from the digest and the key, so the
/// result is a function of the two alone.
#[verifier::external_body]
pub(crate) fn ecdsa_sign(digest: &[u8; 32], secret: &[u8]) -> (signature: Vec<u8>)
    requires
        valid_secret_key(secret@),
    ensures
        signature@ == ecdsa_signature(digest@, secret@),
{
    let key = SecretKey::from_slice(secret).expect("a valid private key");
    let message = Message::from_digest(*digest);
    Secp256k1::new().sign_ecdsa(&message, &key).serialize_der().to_vec()
}

/// The text of the address that `Address::p2pkh` makes for a compressed public
/// key on a network.
pub uninterp spec fn p2pkh_text(public: Seq<u8>, network: Network) -> Seq<char>;

/// The text of the address that `Address::p2wpkh` makes for a compressed
/// public key on a network.
pub uninterp spec fn p2wpkh_text(public: Seq<u8>, network: Network) -> Seq<char>;

/// The text of the address that `Address::p2tr` makes for a public key as the
/// internal key, without a script tree, on a network.
pub uninterp spec fn p2tr_text(public: Seq<u8>, network: Network) -> Seq<char>;

/// Derives the public key of a private key and calls `Address::p2pkh` on it.
/// The result is the address's text: base58 with the network's version byte.
#[verifier::external_body]
pub(crate) fn legacy_address(secret: &[u8], network: Network) -> (text: String)
    requires
        valid_secret_key(secret@),
    ensures
        text@ == p2pkh_text(secp_public_key(secret@), network),
{
    let key = SecretKey::from_slice(secret).expect("a valid private key");
    let public = CompressedPublicKey(PublicKey::from_secret_key(&Secp256k1::new(), &key));
    let net = match network {
        Network::Mainnet => bitcoin::Network::Bitcoin,
        Network::Testnet => bitcoin::Network::Testnet,
        Network::Testnet4 => bitcoin::Network::Testnet4,
        Network::Signet => bitcoin::Network::Signet,
        Network::Regtest => bitcoin::Network::Regtest,
    };
    Address::p2pkh(public, net).to_string()
}

/// Derives the public key of a private key and calls `Address::p2wpkh` on it.
/// The result is the address's text: bech32 with witness version 0.
#[verifier::external_body]
pub(crate) fn segwit_address(secret: &[u8], network: Network) -> (text: String)
    requires
        valid_secret_key(secret@),
    ensures
        text@ == p2wpkh_text(secp_public_key(secret@), network),
{
    let key = SecretKey::from_slice(secret).expect("a valid private key");
    let public = CompressedPublicKey(PublicKey::from_secret_key(&Secp256k1::new(), &key));
    let net = match network {
        Network::Mainnet => bitcoin::Network::Bitcoin,
        Network::Testnet => bitcoin::Network::Testnet,
        Network::Testnet4 => bitcoin::Network::Testnet4,
        Network::Signet => bitcoin::Network::Signet,
        Network::Regtest => bitcoin::Network::Regtest,
    };
    Address::p2wpkh(&public, net).to_string()
}

/// Derives the public key of a private key and calls `Address::p2tr` with it as
/// the internal key and no script tree. The result is the address's text:
/// bech32m with witness version 1.
#[verifier::external_body]
pub(crate) fn taproot_address(secret: &[u8], network: Network) -> (text: String)
    requires
        valid_secret_key(secret@),
    ensures
        text@ == p2tr_text(secp_public_key(secret@), network),
{
    let secp = Secp256k1::new();
    let key = SecretKey::from_slice(secret).expect("a valid private key");
    let net = match network {
        Network::Mainnet => bitcoin::Network::Bitcoin,
        Network::Testnet => bitcoin::Network::Testnet,
        Network::Testnet4 => bitcoin::Network::Testnet4,
        Network::Signet => bitcoin::Network::Signet,
        Network::Regtest => bitcoin::Network::Regtest,
    };
    Address::p2tr(&secp, key.x_only_public_key(&secp).0, None, net).to_string()
}

/// The locking script of the address that a text encodes, where
/// `Address::from_str` reads the text and `require_network` accepts the
/// address for the network; `None` otherwise.
pub uninterp spec fn address_script(text: Seq<char>, network: Network) -> Option<Seq<u8>>;

/// Calls `Address::from_str`, `require_network` and `script_pubkey`. The
/// result is the address's locking script, or `None` where the text does not
/// decode or the address belongs to another network.
#[verifier::external_body]
pub(crate) fn address_to_script(text: &str, network: Network) -> (script: Option<Vec<u8>>)
    ensures
        match script {
            Some(s) => address_script(text@, network) == Some(s@),
            None => address_script(text@, network) is None,
        },
{
    let net = match network {
        Network::Mainnet => bitcoin::Network::Bitcoin,
        Network::Testnet => bitcoin::Network::Testnet,
        Network::Testnet4 => bitcoin::Network::Testnet4,
        Network::Signet => bitcoin::Network::Signet,
        Network::Regtest => bitcoin::Network::Regtest,
    };
    let address = Address::from_str(text).ok()?.require_network(net).ok()?;
    Some(address.script_pubkey().into_bytes())
}

/// Calls `OutPoint::from_str` on the id, a colon and the index in decimal. It
/// accepts exactly the ids of 64 hex digits, and returns the id's bytes in
/// hash byte order (the reverse of the order in which the text shows them)
/// and the index.
#[verifier::external_body]
pub(crate) fn parse_outpoint(txid: &str, vout: u32) -> (point: Option<([u8; 32], u32)>)
    ensures
        match point {
            Some((id, index)) => {
                &&& txid@.len() == 64
                &&& is_hex_text(txid@)
                &&& id@ == decode_spec(txid@).reverse()
                &&& index == vout
            },
            None => !(txid@.len() == 64 && is_hex_text(txid@)),
        },
{
    let point = OutPoint::from_str(&format!("{}:{}", txid, vout)).ok()?;
    Some((point.txid.to_byte_array(), point.vout))
}

/// Calls `ScriptBuf::from_hex`. It accepts exactly the texts of even length
/// that hold hex digits only, and returns the bytes they stand for.
#[verifier::external_body]
pub(crate) fn parse_script(text: &str) -> (script: Option<Vec<u8>>)
    ensures
        match script {
            Some(bytes) => is_hex_text(text@) && bytes@ == decode_spec(text@),
            None => !is_hex_text(text@),
        },
{
    Some(ScriptBuf::from_hex(text).ok()?.into_bytes())
}

/// Draws 32 bytes from `rand::thread_rng`. Nothing is known of the bytes.
#[verifier::external_body]
pub(crate) fn random_bytes() -> [u8; 32] {
    let mut bytes = [0u8; 32];
    rand::thread_rng().fill(&mut bytes);
    bytes
}

} // verus!
