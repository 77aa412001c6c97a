//! Errors of the protocol layer.
use vstd::prelude::*;

verus! {

/// What can go wrong while reading or writing protocol data.
#[derive(Clone, Copy, Debug, PartialEq, Eq, Structural)]
pub enum ProtocolError {
    /// A frame whose type code names no transaction type; the frame was consumed.
    InvalidTransactionType(u16),
    /// A field identifier that names no field.
    InvalidFieldId(u16),
    /// The peer speaks another protocol version.
    VersionMismatch,
    /// The handshake is malformed.
    InvalidHandshake,
    /// A frame whose payload exceeds the limit.
    TransactionTooLarge { size: usize, max: usize },
    /// A payload that does not hold the fields it announces, or a field that
    /// the wire cannot carry.
    InvalidFieldData,
    /// Fewer bytes than a fixed-size structure needs.
    UnexpectedEof,
    /// Text that is not valid UTF-8.
    Utf8,
}

} // verus!
