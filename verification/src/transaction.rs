//! Building a transaction from spendable inputs and desired outputs, its
//! consensus encoding, and its identifier.

use crate::backend::{address_script, address_to_script, consensus_decoding, consensus_deserialize, consensus_encoding, consensus_serialize, parse_outpoint, parse_script, transaction_hash, txid_hash};
use crate::error::CoreError;
use crate::hex::{bytes_to_hex, decode_spec, encode_spec, hex_to_bytes, hex_to_bytes_spec, is_hex_text};
use crate::model::{without_witness, Network, Transaction, TransactionView, TxInput, TxInputView, TxOutput, TxOutputView};
use vstd::prelude::*;

verus! {

/// A spendable output, as the caller describes it.
#[derive(Clone, Debug, PartialEq, Eq)]
pub struct TransactionInput {
    /// Id of the previous transaction, as 64 hex digits in display order.
    pub txid: String,
    /// Index of the output in the previous transaction.
    pub vout: u32,
    /// Amount of the output in base units.
    pub amount: u64,
    /// The output's locking script, in hex.
    pub script_pubkey: String,
}

/// A payment to make, as the caller describes it.
#[derive(Clone, Debug, PartialEq, Eq)]
pub struct TransactionOutput {
    /// The destination address.
    pub address: String,
    /// Amount to pay in base units.
    pub amount: u64,
}

/// The identifier of a transaction.
#[derive(Clone, Copy, Debug, PartialEq, Eq)]
pub struct TransactionId {
    /// The hash, in hash byte order.
    pub bytes: [u8; 32],
}

/// The version of every transaction that `build` makes.
pub const BUILD_VERSION: i32 = 2;

/// The sequence number of every input that `build` makes: no relative time lock.
pub const SEQUENCE_FINAL: u32 = 0xffff_ffff;

/// Whether an id text and index form a reference: the id is 64 hex digits.
pub open spec fn outpoint_ok(input: TransactionInput) -> bool {
    input.txid@.len() == 64 && is_hex_text(input.txid@)
}

/// The transaction input that `build` makes from a spendable output: the id in
/// hash byte order, the locking script as a placeholder for the unlocking
/// script, no witness. `InvalidOutpoint` where the id does not parse, else
/// `InvalidScript` where the script is no hex text.
pub open spec fn input_entry(input: TransactionInput) -> Result<TxInputView, CoreError> {
    if !outpoint_ok(input) {
        Err(CoreError::InvalidOutpoint)
    } else if !is_hex_text(input.script_pubkey@) {
        Err(CoreError::InvalidScript)
    } else {
        Ok(
            TxInputView {
                txid: decode_spec(input.txid@).reverse(),
                vout: input.vout,
                script_sig: decode_spec(input.script_pubkey@),
                sequence: SEQUENCE_FINAL,
                witness: Seq::empty(),
            },
        )
    }
}

/// The transaction output that `build` makes from a payment: the amount as
/// given, and the locking script of the address. `InvalidAddress` where the
/// address does not decode for the network.
pub open spec fn output_entry(output: TransactionOutput, network: Network) -> Result<TxOutputView, CoreError> {
    match address_script(output.address@, network) {
        Some(script) => Ok(TxOutputView { value: output.amount, script_pubkey: script }),
        None => Err(CoreError::InvalidAddress),
    }
}

/// Whether `build` accepts every input and every output.
pub open spec fn build_accepts(inputs: Seq<TransactionInput>, outputs: Seq<TransactionOutput>, network: Network) -> bool {
    &&& forall|k: int| 0 <= k < inputs.len() ==> (#[trigger] input_entry(inputs[k])) is Ok
    &&& forall|k: int| 0 <= k < outputs.len() ==> (#[trigger] output_entry(outputs[k], network)) is Ok
}

/// The transaction that `build` makes where it accepts the inputs and outputs.
pub open spec fn built(inputs: Seq<TransactionInput>, outputs: Seq<TransactionOutput>, network: Network) -> TransactionView {
    TransactionView {
        version: BUILD_VERSION,
        lock_time: 0,
        inputs: Seq::new(inputs.len(), |k: int| input_entry(inputs[k])->Ok_0),
        outputs: Seq::new(outputs.len(), |k: int| output_entry(outputs[k], network)->Ok_0),
    }
}

/// Whether `e` is the error that `build` reports: that of the first input it
/// refuses, or, where it accepts all inputs, that of the first output it refuses.
pub open spec fn build_error(inputs: Seq<TransactionInput>, outputs: Seq<TransactionOutput>, network: Network, e: CoreError) -> bool {
    ||| exists|k: int|
        {
            &&& 0 <= k < inputs.len()
            &&& #[trigger] input_entry(inputs[k]) == Err::<TxInputView, CoreError>(e)
            &&& forall|j: int| 0 <= j < k ==> (#[trigger] input_entry(inputs[j])) is Ok
        }
    ||| {
        &&& forall|j: int| 0 <= j < inputs.len() ==> (#[trigger] input_entry(inputs[j])) is Ok
        &&& exists|k: int|
            {
                &&& 0 <= k < outputs.len()
                &&& #[trigger] output_entry(outputs[k], network) == Err::<TxOutputView, CoreError>(e)
                &&& forall|j: int| 0 <= j < k ==> (#[trigger] output_entry(outputs[j], network)) is Ok
            }
    }
}

/// Makes the transaction input for one spendable output.
pub fn build_input(input: &TransactionInput) -> (result: Result<TxInput, CoreError>)
    ensures
        match result {
            Ok(entry) => input_entry(*input) == Ok::<TxInputView, CoreError>(entry@),
            Err(e) => input_entry(*input) == Err::<TxInputView, CoreError>(e),
        },
{
    let (txid, vout) = match parse_outpoint(input.txid.as_str(), input.vout) {
        Some(point) => point,
        None => {
            return Err(CoreError::InvalidOutpoint);
        },
    };
    let script = match parse_script(input.script_pubkey.as_str()) {
        Some(script) => script,
        None => {
            return Err(CoreError::InvalidScript);
        },
    };
    let entry = TxInput { txid, vout, script_sig: script, sequence: SEQUENCE_FINAL, witness: Vec::new() };
    proof {
        assert(entry@.witness =~= Seq::<Seq<u8>>::empty());
    }
    Ok(entry)
}

/// Makes the transaction output for one payment.
pub fn build_output(output: &TransactionOutput, network: Network) -> (result: Result<TxOutput, CoreError>)
    ensures
        match result {
            Ok(entry) => output_entry(*output, network) == Ok::<TxOutputView, CoreError>(entry@),
            Err(e) => output_entry(*output, network) == Err::<TxOutputView, CoreError>(e),
        },
{
    match address_to_script(output.address.as_str(), network) {
        Some(script) => Ok(TxOutput { value: output.amount, script_pubkey: script }),
        None => Err(CoreError::InvalidAddress),
    }
}

/// Builds an unsigned transaction: version 2, lock time 0, one input per
/// spendable output and one output per payment, in the order given. The
/// amounts of the inputs are not read: the fee is what the inputs hold beyond
/// the outputs, and is the caller's to check.
pub fn build(inputs: &Vec<TransactionInput>, outputs: &Vec<TransactionOutput>, network: Network) -> (result: Result<Transaction, CoreError>)
    ensures
        match result {
            Ok(tx) => build_accepts(inputs@, outputs@, network) && tx@ == built(inputs@, outputs@, network),
            Err(e) => build_error(inputs@, outputs@, network, e),
        },
{
    let mut tx_inputs: Vec<TxInput> = Vec::new();
    let mut i: usize = 0;
    while i < inputs.len()
        invariant
            i <= inputs.len(),
            tx_inputs@.len() == i,
            forall|k: int| 0 <= k < i ==> #[trigger] input_entry(inputs@[k]) == Ok::<TxInputView, CoreError>(tx_inputs@[k]@),
        decreases inputs.len() - i,
    {
        match build_input(&inputs[i]) {
            Ok(entry) => {
                tx_inputs.push(entry);
            },
            Err(e) => {
                assert(input_entry(inputs@[i as int]) == Err::<TxInputView, CoreError>(e));
                return Err(e);
            },
        }
        i += 1;
    }
    let mut tx_outputs: Vec<TxOutput> = Vec::new();
    let mut j: usize = 0;
    while j < outputs.len()
        invariant
            j <= outputs.len(),
            tx_outputs@.len() == j,
            forall|k: int| 0 <= k < inputs@.len() ==> (#[trigger] input_entry(inputs@[k])) is Ok,
            forall|k: int| 0 <= k < j ==> #[trigger] output_entry(outputs@[k], network) == Ok::<TxOutputView, CoreError>(tx_outputs@[k]@),
        decreases outputs.len() - j,
    {
        match build_output(&outputs[j], network) {
            Ok(entry) => {
                tx_outputs.push(entry);
            },
            Err(e) => {
                assert(output_entry(outputs@[j as int], network) == Err::<TxOutputView, CoreError>(e));
                return Err(e);
            },
        }
        j += 1;
    }
    let tx = Transaction { version: BUILD_VERSION, lock_time: 0, inputs: tx_inputs, outputs: tx_outputs };
    proof {
        assert(tx@.inputs =~= built(inputs@, outputs@, network).inputs);
        assert(tx@.outputs =~= built(inputs@, outputs@, network).outputs);
    }
    Ok(tx)
}

/// The consensus encoding of a transaction: version, inputs, outputs, the
/// witness stacks where any input carries one, lock time. The same
/// transaction always gives the same bytes.
pub fn serialize(tx: &Transaction) -> (bytes: Vec<u8>)
    ensures
        bytes@ == consensus_encoding(tx@),
{
    consensus_serialize(tx)
}

/// What reading a transaction from bytes gives: the transaction, or
/// `MalformedTransaction` where the bytes are truncated, badly framed or
/// followed by more data.
pub open spec fn deserialize_spec(bytes: Seq<u8>) -> Result<TransactionView, CoreError> {
    match consensus_decoding(bytes) {
        Some(tx) => Ok(tx),
        None => Err(CoreError::MalformedTransaction),
    }
}

/// Reads a transaction from its consensus encoding.
pub fn deserialize(bytes: &[u8]) -> (result: Result<Transaction, CoreError>)
    ensures
        match result {
            Ok(tx) => deserialize_spec(bytes@) == Ok::<TransactionView, CoreError>(tx@),
            Err(e) => deserialize_spec(bytes@) == Err::<TransactionView, CoreError>(e),
        },
{
    match consensus_deserialize(bytes) {
        Some(tx) => Ok(tx),
        None => Err(CoreError::MalformedTransaction),
    }
}

/// The identifier of a transaction, in hash byte order: the hash of the
/// transaction without its witness data.
pub open spec fn id_spec(tx: TransactionView) -> Seq<u8> {
    txid_hash(without_witness(tx))
}

/// The display form of an identifier: its bytes in reverse order, in hex.
pub open spec fn id_text(id: Seq<u8>) -> Seq<char> {
    encode_spec(id.reverse())
}

/// Computes the identifier of a transaction. Witness data is removed before
/// hashing, so signing an input does not change the identifier.
pub fn compute_id(tx: &Transaction) -> (id: TransactionId)
    ensures
        id.bytes@ == id_spec(tx@),
{
    let stripped = tx.strip_witness();
    TransactionId { bytes: transaction_hash(&stripped) }
}

impl TransactionId {
    /// The identifier as it is displayed: byte-reversed, in lowercase hex.
    pub fn display(&self) -> (text: String)
        ensures
            text@ == id_text(self.bytes@),
            text@.len() == 64,
    {
        let mut reversed: Vec<u8> = Vec::new();
        let mut i: usize = 32;
        while i > 0
            invariant
                i <= 32,
                reversed@.len() == 32 - i,
                forall|k: int| 0 <= k < reversed@.len() ==> reversed@[k] == self.bytes@[31 - k],
            decreases i,
        {
            i -= 1;
            reversed.push(self.bytes[i]);
        }
        proof {
            assert(reversed@ =~= self.bytes@.reverse());
        }
        bytes_to_hex(reversed.as_slice())
    }
}

/// What `build_transaction` returns: the hex of the encoding of the
/// transaction built for the test network, or the error of `build`.
pub open spec fn build_transaction_ok(inputs: Seq<TransactionInput>, outputs: Seq<TransactionOutput>) -> Seq<char> {
    encode_spec(consensus_encoding(built(inputs, outputs, Network::Testnet)))
}

/// Builds an unsigned transaction for the test network and returns its
/// encoding in hex. The fee is not read: it is implied by the amounts.
pub fn build_transaction(inputs: &Vec<TransactionInput>, outputs: &Vec<TransactionOutput>, fee_sat: u64) -> (result: Result<String, CoreError>)
    ensures
        match result {
            Ok(text) => build_accepts(inputs@, outputs@, Network::Testnet) && text@ == build_transaction_ok(inputs@, outputs@),
            Err(e) => build_error(inputs@, outputs@, Network::Testnet, e),
        },
{
    match build(inputs, outputs, Network::Testnet) {
        Ok(tx) => {
            let bytes = serialize(&tx);
            Ok(bytes_to_hex(bytes.as_slice()))
        },
        Err(e) => Err(e),
    }
}

/// What `calculate_txid` returns for a text: the display form of the
/// identifier of the transaction that the text encodes in hex.
pub open spec fn calculate_txid_spec(text: Seq<char>) -> Result<Seq<char>, CoreError> {
    match hex_to_bytes_spec(text) {
        Err(e) => Err(e),
        Ok(bytes) => match deserialize_spec(bytes) {
            Err(e) => Err(e),
            Ok(tx) => Ok(id_text(id_spec(tx))),
        },
    }
}

/// Computes the identifier of a transaction given in hex, in display form.
/// `MalformedHex` where the text is no hex, `MalformedTransaction` where the
/// bytes are no transaction.
pub fn calculate_txid(tx_hex: &str) -> (result: Result<String, CoreError>)
    ensures
        match result {
            Ok(text) => calculate_txid_spec(tx_hex@) == Ok::<Seq<char>, CoreError>(text@),
            Err(e) => calculate_txid_spec(tx_hex@) == Err::<Seq<char>, CoreError>(e),
        },
{
    let bytes = match hex_to_bytes(tx_hex) {
        Ok(bytes) => bytes,
        Err(e) => {
            return Err(e);
        },
    };
    let tx = match deserialize(bytes.as_slice()) {
        Ok(tx) => tx,
        Err(e) => {
            return Err(e);
        },
    };
    Ok(compute_id(&tx).display())
}

} // verus!
