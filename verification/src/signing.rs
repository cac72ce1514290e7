//! Signing one input of a transaction.

use crate::backend::{consensus_encoding, ecdsa_sign, ecdsa_signature, p2wpkh_sighash, parse_script, public_key_bytes, secp_public_key, secret_key_accepts, segwit_v0_sighash};
use crate::error::CoreError;
use crate::hex::{bytes_to_hex, decode_spec, encode_spec, hex_to_bytes, hex_to_bytes_spec, is_hex_text};
use crate::model::{copy_bytes, with_witness, without_witness, Transaction, TransactionView, TxInput};
use crate::transaction::{deserialize, deserialize_spec, id_spec, serialize};
use crate::wallet::valid_secret_key;
use vstd::prelude::*;

verus! {

/// The tag of the sighash type "all": the signature commits to every input and output.
pub const SIGHASH_ALL: u8 = 1;

/// Whether a locking script pays to a witness key hash: a zero, a push of 20
/// bytes, and the 20 bytes.
pub open spec fn is_p2wpkh(script: Seq<u8>) -> bool {
    script.len() == 22 && script[0] == 0 && script[1] == 20
}

/// The witness that signing leaves on an input: the DER signature with the
/// sighash tag after it, then the compressed public key.
pub open spec fn signing_witness(digest: Seq<u8>, key: Seq<u8>) -> Seq<Seq<u8>> {
    seq![ecdsa_signature(digest, key).push(SIGHASH_ALL), secp_public_key(key)]
}

/// What signing input `index` gives: the transaction with that input's
/// witness set and nothing else changed. `IndexOutOfRange` where the
/// transaction has no such input, else `InvalidKeyMaterial` where the key is
/// none, else `UnsupportedInputType` where the spent output is no witness key
/// hash or no digest can be made for it.
pub open spec fn sign_input_spec(tx: TransactionView, index: int, key: Seq<u8>, script_pubkey: Seq<u8>, value: u64) -> Result<TransactionView, CoreError> {
    if !(0 <= index < tx.inputs.len()) {
        Err(CoreError::IndexOutOfRange)
    } else if !valid_secret_key(key) {
        Err(CoreError::InvalidKeyMaterial)
    } else if !is_p2wpkh(script_pubkey) {
        Err(CoreError::UnsupportedInputType)
    } else {
        match segwit_v0_sighash(consensus_encoding(tx), index, script_pubkey, value) {
            Some(digest) => Ok(with_witness(tx, index, signing_witness(digest, key))),
            None => Err(CoreError::UnsupportedInputType),
        }
    }
}

/// Whether a locking script pays to a witness key hash.
pub fn script_is_p2wpkh(script: &[u8]) -> (supported: bool)
    ensures
        supported == is_p2wpkh(script@),
{
    script.len() == 22 && script[0] == 0 && script[1] == 20
}

/// What attaching a signature gives: the transaction with the witness of
/// input `index` set to the signature with the sighash tag after it and the
/// public key, or `IndexOutOfRange` where the transaction has no such input.
pub open spec fn attach_witness_spec(tx: TransactionView, index: int, signature: Seq<u8>, public: Seq<u8>) -> Result<TransactionView, CoreError> {
    if 0 <= index < tx.inputs.len() {
        Ok(with_witness(tx, index, seq![signature.push(SIGHASH_ALL), public]))
    } else {
        Err(CoreError::IndexOutOfRange)
    }
}

/// Sets the witness of input `index` to a signature, tagged "all", and a
/// public key. Every other field of the transaction is kept.
pub fn attach_witness(tx: Transaction, index: usize, signature: Vec<u8>, public: &[u8]) -> (result: Result<Transaction, CoreError>)
    ensures
        match result {
            Ok(signed) => attach_witness_spec(tx@, index as int, signature@, public@) == Ok::<TransactionView, CoreError>(signed@),
            Err(e) => attach_witness_spec(tx@, index as int, signature@, public@) == Err::<TransactionView, CoreError>(e),
        },
{
    if index >= tx.inputs.len() {
        return Err(CoreError::IndexOutOfRange);
    }
    let ghost before = tx@;
    let ghost expected = with_witness(before, index as int, seq![signature@.push(SIGHASH_ALL), public@]);
    let mut tagged = signature;
    tagged.push(SIGHASH_ALL);
    let mut witness: Vec<Vec<u8>> = Vec::new();
    witness.push(tagged);
    witness.push(copy_bytes(public));
    let target = &tx.inputs[index];
    let signed_input = TxInput {
        txid: target.txid,
        vout: target.vout,
        script_sig: copy_bytes(target.script_sig.as_slice()),
        sequence: target.sequence,
        witness,
    };
    proof {
        assert(signed_input@.witness =~= seq![signature@.push(SIGHASH_ALL), public@]);
    }
    let mut signed = tx;
    signed.inputs.set(index, signed_input);
    proof {
        assert(signed@.inputs =~= expected.inputs);
        assert(signed@.outputs =~= expected.outputs);
    }
    Ok(signed)
}

/// Signs input `index` of a transaction that spends an output with the given
/// locking script and amount: computes the input's digest, signs it with the
/// key, and sets the input's witness to the signature and the public key.
/// Every other field of the transaction is kept.
pub fn sign_input(tx: Transaction, index: usize, key: &[u8], script_pubkey: &[u8], value: u64) -> (result: Result<Transaction, CoreError>)
    ensures
        match result {
            Ok(signed) => sign_input_spec(tx@, index as int, key@, script_pubkey@, value) == Ok::<TransactionView, CoreError>(signed@),
            Err(e) => sign_input_spec(tx@, index as int, key@, script_pubkey@, value) == Err::<TransactionView, CoreError>(e),
        },
{
    if index >= tx.inputs.len() {
        return Err(CoreError::IndexOutOfRange);
    }
    if !secret_key_accepts(key) {
        return Err(CoreError::InvalidKeyMaterial);
    }
    if !script_is_p2wpkh(script_pubkey) {
        return Err(CoreError::UnsupportedInputType);
    }
    let encoding = serialize(&tx);
    let digest = match p2wpkh_sighash(encoding.as_slice(), index, script_pubkey, value) {
        Some(digest) => digest,
        None => {
            return Err(CoreError::UnsupportedInputType);
        },
    };
    let signature = ecdsa_sign(&digest, key);
    let public = public_key_bytes(key);
    attach_witness(tx, index, signature, public.as_slice())
}

/// What `sign_transaction` returns: the hex of the encoding of the signed
/// transaction. The key is read first (`MalformedHex`, `InvalidKeyMaterial`),
/// then the transaction (`MalformedHex`, `MalformedTransaction`), then the
/// spent output's script (`InvalidScript`); the rest is `sign_input`.
pub open spec fn sign_transaction_spec(tx_hex: Seq<char>, key_hex: Seq<char>, index: int, script_hex: Seq<char>, value: u64) -> Result<Seq<char>, CoreError> {
    match hex_to_bytes_spec(key_hex) {
        Err(e) => Err(e),
        Ok(key) => if !valid_secret_key(key) {
            Err(CoreError::InvalidKeyMaterial)
        } else {
            match hex_to_bytes_spec(tx_hex) {
                Err(e) => Err(e),
                Ok(bytes) => match deserialize_spec(bytes) {
                    Err(e) => Err(e),
                    Ok(tx) => if !is_hex_text(script_hex) {
                        Err(CoreError::InvalidScript)
                    } else {
                        match sign_input_spec(tx, index, key, decode_spec(script_hex), value) {
                            Err(e) => Err(e),
                            Ok(signed) => Ok(encode_spec(consensus_encoding(signed))),
                        }
                    },
                },
            }
        },
    }
}

/// Signs one input of a transaction given in hex, with a private key given in
/// hex, and returns the signed transaction in hex. The script and amount are
/// those of the output that the input spends. Nothing is returned on failure.
pub fn sign_transaction(tx_hex: &str, private_key_hex: &str, input_index: usize, script_pubkey_hex: &str, satoshi_value: u64) -> (result: Result<String, CoreError>)
    ensures
        match result {
            Ok(text) => sign_transaction_spec(tx_hex@, private_key_hex@, input_index as int, script_pubkey_hex@, satoshi_value) == Ok::<Seq<char>, CoreError>(text@),
            Err(e) => sign_transaction_spec(tx_hex@, private_key_hex@, input_index as int, script_pubkey_hex@, satoshi_value) == Err::<Seq<char>, CoreError>(e),
        },
{
    let key = match hex_to_bytes(private_key_hex) {
        Ok(key) => key,
        Err(e) => {
            return Err(e);
        },
    };
    if !secret_key_accepts(key.as_slice()) {
        return Err(CoreError::InvalidKeyMaterial);
    }
    let bytes = match hex_to_bytes(tx_hex) {
        Ok(bytes) => bytes,
        Err(e) => {
            return Err(e);
        },
    };
    let tx = match deserialize(bytes.as_slice()) {
        Ok(tx) => tx,
        Err(e) => {
            return Err(e);
        },
    };
    let script = match parse_script(script_pubkey_hex) {
        Some(script) => script,
        None => {
            return Err(CoreError::InvalidScript);
        },
    };
    match sign_input(tx, input_index, key.as_slice(), script.as_slice(), satoshi_value) {
        Ok(signed) => {
            let encoding = serialize(&signed);
            Ok(bytes_to_hex(encoding.as_slice()))
        },
        Err(e) => Err(e),
    }
}

/// Signing changes one witness and nothing else: the signed transaction has
/// the same version, lock time and outputs, the same inputs but for the
/// witness of the signed one, and that witness holds two items.
pub proof fn lemma_signing_changes_one_witness(tx: TransactionView, index: int, key: Seq<u8>, script_pubkey: Seq<u8>, value: u64)
    requires
        sign_input_spec(tx, index, key, script_pubkey, value) is Ok,
    ensures
        ({
            let signed = sign_input_spec(tx, index, key, script_pubkey, value)->Ok_0;
            &&& 0 <= index < tx.inputs.len()
            &&& signed.version == tx.version
            &&& signed.lock_time == tx.lock_time
            &&& signed.outputs == tx.outputs
            &&& signed.inputs.len() == tx.inputs.len()
            &&& forall|k: int| 0 <= k < tx.inputs.len() && k != index ==> signed.inputs[k] == tx.inputs[k]
            &&& signed.inputs[index].txid == tx.inputs[index].txid
            &&& signed.inputs[index].vout == tx.inputs[index].vout
            &&& signed.inputs[index].script_sig == tx.inputs[index].script_sig
            &&& signed.inputs[index].sequence == tx.inputs[index].sequence
            &&& signed.inputs[index].witness.len() == 2
            &&& signed.inputs[index].witness[1] == secp_public_key(key)
        }),
{
}

/// The identifier is stable under signing: it is computed without witness
/// data, so the signed transaction has the identifier of the unsigned one.
pub proof fn lemma_signing_keeps_id(tx: TransactionView, index: int, key: Seq<u8>, script_pubkey: Seq<u8>, value: u64)
    requires
        sign_input_spec(tx, index, key, script_pubkey, value) is Ok,
    ensures
        without_witness(sign_input_spec(tx, index, key, script_pubkey, value)->Ok_0) == without_witness(tx),
        id_spec(sign_input_spec(tx, index, key, script_pubkey, value)->Ok_0) == id_spec(tx),
{
    let signed = sign_input_spec(tx, index, key, script_pubkey, value)->Ok_0;
    lemma_signing_changes_one_witness(tx, index, key, script_pubkey, value);
    assert(without_witness(signed).inputs =~= without_witness(tx).inputs);
}

} // verus!
