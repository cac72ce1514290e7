//! The error kinds that every fallible operation of the library reports.

use vstd::prelude::*;

verus! {

/// Why an operation failed. No failure is retried or recovered internally.
#[derive(Clone, Copy, Debug, PartialEq, Eq, Structural)]
pub enum CoreError {
    /// Hex text of odd length, or holding a character that is no hex digit.
    MalformedHex,
    /// Key bytes whose length is not 32, or whose value is outside the scalar range.
    InvalidKeyMaterial,
    /// A previous transaction id and output index that do not form a reference.
    InvalidOutpoint,
    /// A locking script that does not decode.
    InvalidScript,
    /// An address that does not decode, or that belongs to another network.
    InvalidAddress,
    /// Transaction bytes that are truncated, badly framed, or followed by more data.
    MalformedTransaction,
    /// A signing index beyond the transaction's inputs.
    IndexOutOfRange,
    /// A previous output whose script type the signer does not handle.
    UnsupportedInputType,
}

impl CoreError {
    /// A short description of the error, for display at the boundary.
    pub fn message(&self) -> (text: String)
        ensures
            text@ == self.message_text(),
    {
        match self {
            CoreError::MalformedHex => String::from_str("hex text is malformed"),
            CoreError::InvalidKeyMaterial => String::from_str("key material is invalid"),
            CoreError::InvalidOutpoint => String::from_str("outpoint is invalid"),
            CoreError::InvalidScript => String::from_str("script is invalid"),
            CoreError::InvalidAddress => String::from_str("address is invalid"),
            CoreError::MalformedTransaction => String::from_str("transaction bytes are malformed"),
            CoreError::IndexOutOfRange => String::from_str("input index is out of range"),
            CoreError::UnsupportedInputType => String::from_str("input type is not supported"),
        }
    }

    /// The text that [`CoreError::message`] returns.
    pub open spec fn message_text(&self) -> Seq<char> {
        match self {
            CoreError::MalformedHex => "hex text is malformed"@,
            CoreError::InvalidKeyMaterial => "key material is invalid"@,
            CoreError::InvalidOutpoint => "outpoint is invalid"@,
            CoreError::InvalidScript => "script is invalid"@,
            CoreError::InvalidAddress => "address is invalid"@,
            CoreError::MalformedTransaction => "transaction bytes are malformed"@,
            CoreError::IndexOutOfRange => "input index is out of range"@,
            CoreError::UnsupportedInputType => "input type is not supported"@,
        }
    }
}

} // verus!
