//! The data that the library works on, and the mathematical view of each type.

use vstd::prelude::*;

verus! {

/// The network whose address encodings are used.
#[derive(Clone, Copy, Debug, PartialEq, Eq, Structural)]
pub enum Network {
    Mainnet,
    Testnet,
    Testnet4,
    Signet,
    Regtest,
}

/// One input of a transaction: the output it spends and what unlocks it.
#[derive(Clone, Debug, PartialEq, Eq)]
pub struct TxInput {
    /// Id of the previous transaction, in hash byte order (the reverse of its display form).
    pub txid: [u8; 32],
    /// Index of the spent output in the previous transaction.
    pub vout: u32,
    /// The unlocking script.
    pub script_sig: Vec<u8>,
    /// The sequence number.
    pub sequence: u32,
    /// The witness stack; empty for an unsigned input.
    pub witness: Vec<Vec<u8>>,
}

/// One output of a transaction.
#[derive(Clone, Debug, PartialEq, Eq)]
pub struct TxOutput {
    /// Amount in base units.
    pub value: u64,
    /// The locking script.
    pub script_pubkey: Vec<u8>,
}

/// A transaction: built once, signed input by input, then serialized.
#[derive(Clone, Debug, PartialEq, Eq)]
pub struct Transaction {
    pub version: i32,
    pub lock_time: u32,
    pub inputs: Vec<TxInput>,
    pub outputs: Vec<TxOutput>,
}

/// The mathematical value of a [`TxInput`].
pub struct TxInputView {
    pub txid: Seq<u8>,
    pub vout: u32,
    pub script_sig: Seq<u8>,
    pub sequence: u32,
    pub witness: Seq<Seq<u8>>,
}

/// The mathematical value of a [`TxOutput`].
pub struct TxOutputView {
    pub value: u64,
    pub script_pubkey: Seq<u8>,
}

/// The mathematical value of a [`Transaction`].
pub struct TransactionView {
    pub version: i32,
    pub lock_time: u32,
    pub inputs: Seq<TxInputView>,
    pub outputs: Seq<TxOutputView>,
}

impl View for TxInput {
    type V = TxInputView;

    open spec fn view(&self) -> TxInputView {
        TxInputView {
            txid: self.txid@,
            vout: self.vout,
            script_sig: self.script_sig@,
            sequence: self.sequence,
            witness: Seq::new(self.witness@.len(), |i: int| self.witness@[i]@),
        }
    }
}

impl View for TxOutput {
    type V = TxOutputView;

    open spec fn view(&self) -> TxOutputView {
        TxOutputView { value: self.value, script_pubkey: self.script_pubkey@ }
    }
}

impl View for Transaction {
    type V = TransactionView;

    open spec fn view(&self) -> TransactionView {
        TransactionView {
            version: self.version,
            lock_time: self.lock_time,
            inputs: Seq::new(self.inputs@.len(), |i: int| self.inputs@[i]@),
            outputs: Seq::new(self.outputs@.len(), |i: int| self.outputs@[i]@),
        }
    }
}

/// A transaction with every witness stack emptied.
pub open spec fn without_witness(tx: TransactionView) -> TransactionView {
    TransactionView {
        version: tx.version,
        lock_time: tx.lock_time,
        inputs: Seq::new(
            tx.inputs.len(),
            |i: int|
                TxInputView {
                    txid: tx.inputs[i].txid,
                    vout: tx.inputs[i].vout,
                    script_sig: tx.inputs[i].script_sig,
                    sequence: tx.inputs[i].sequence,
                    witness: Seq::empty(),
                },
        ),
        outputs: tx.outputs,
    }
}

/// A transaction with the witness stack of input `index` replaced.
pub open spec fn with_witness(tx: TransactionView, index: int, witness: Seq<Seq<u8>>) -> TransactionView {
    TransactionView {
        version: tx.version,
        lock_time: tx.lock_time,
        inputs: tx.inputs.update(
            index,
            TxInputView {
                txid: tx.inputs[index].txid,
                vout: tx.inputs[index].vout,
                script_sig: tx.inputs[index].script_sig,
                sequence: tx.inputs[index].sequence,
                witness,
            },
        ),
        outputs: tx.outputs,
    }
}

/// A vector holding a copy of the bytes.
pub fn copy_bytes(bytes: &[u8]) -> (copy: Vec<u8>)
    ensures
        copy@ == bytes@,
{
    let mut copy: Vec<u8> = Vec::new();
    let mut i: usize = 0;
    while i < bytes.len()
        invariant
            i <= bytes.len(),
            copy@ == bytes@.subrange(0, i as int),
        decreases bytes.len() - i,
    {
        copy.push(bytes[i]);
        proof {
            assert(copy@ =~= bytes@.subrange(0, i + 1));
        }
        i += 1;
    }
    proof {
        assert(bytes@.subrange(0, i as int) =~= bytes@);
    }
    copy
}

impl TxOutput {
    /// A copy of the output.
    pub fn duplicate(&self) -> (copy: TxOutput)
        ensures
            copy@ == self@,
    {
        TxOutput { value: self.value, script_pubkey: copy_bytes(self.script_pubkey.as_slice()) }
    }
}

impl TxInput {
    /// A copy of the input with an empty witness stack.
    pub fn unsigned(&self) -> (copy: TxInput)
        ensures
            copy@ == (TxInputView {
                txid: self@.txid,
                vout: self@.vout,
                script_sig: self@.script_sig,
                sequence: self@.sequence,
                witness: Seq::empty(),
            }),
    {
        let copy = TxInput {
            txid: self.txid,
            vout: self.vout,
            script_sig: copy_bytes(self.script_sig.as_slice()),
            sequence: self.sequence,
            witness: Vec::new(),
        };
        proof {
            assert(copy@.witness =~= Seq::<Seq<u8>>::empty());
        }
        copy
    }
}

impl Transaction {
    /// A copy of the transaction with every witness stack emptied.
    pub fn strip_witness(&self) -> (stripped: Transaction)
        ensures
            stripped@ == without_witness(self@),
    {
        let mut inputs: Vec<TxInput> = Vec::new();
        let mut i: usize = 0;
        while i < self.inputs.len()
            invariant
                i <= self.inputs.len(),
                inputs@.len() == i,
                forall|k: int| 0 <= k < i ==> (#[trigger] inputs@[k])@ == without_witness(self@).inputs[k],
            decreases self.inputs.len() - i,
        {
            inputs.push(self.inputs[i].unsigned());
            i += 1;
        }
        let mut outputs: Vec<TxOutput> = Vec::new();
        let mut j: usize = 0;
        while j < self.outputs.len()
            invariant
                j <= self.outputs.len(),
                outputs@.len() == j,
                forall|k: int| 0 <= k < j ==> (#[trigger] outputs@[k])@ == self.outputs@[k]@,
            decreases self.outputs.len() - j,
        {
            outputs.push(self.outputs[j].duplicate());
            j += 1;
        }
        let stripped = Transaction { version: self.version, lock_time: self.lock_time, inputs, outputs };
        proof {
            assert(stripped@.inputs =~= without_witness(self@).inputs);
            assert(stripped@.outputs =~= self@.outputs);
        }
        stripped
    }
}

} // verus!
