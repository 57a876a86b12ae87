//! The failures that the wallet reports.

use vstd::prelude::*;

verus! {

/// Why no public key could be read from an account.
#[derive(Clone, Copy, Debug, PartialEq, Eq)]
pub enum ExtractionError {
    /// The account is not in the active state.
    AccountIsNotActive,
    /// The account is active but stores no data.
    AccountDataNotFound,
    /// The stored data ends before the key does.
    CellUnderflow,
    /// The 32 bytes read are not a point of the curve.
    InvalidPublicKey,
}

/// Which piece of hexadecimal text a failure is about.
#[derive(Clone, Copy, Debug, PartialEq, Eq)]
pub enum Part {
    /// The hash that is to be signed.
    Hash,
    /// The signature that is to be checked.
    Signature,
    /// The message that a signature is to be checked against.
    Message,
}

/// A failure of one of the wallet's operations, named after the stage that failed.
#[derive(Clone, Copy, Debug, PartialEq, Eq)]
pub enum Error {
    /// A hash or a signature has the wrong number of digits.
    BadLength { part: Part },
    /// Text that should be hexadecimal is not.
    BadHex { part: Part },
    /// Text that should be an address is not.
    BadAddress,
    /// 64 bytes that cannot be a signature: the scalar half is out of range.
    BadSignature,
    /// A batch of transfers with fewer than one or more than three entries.
    InvalidBatchSize { count: usize },
    /// A balance was asked of an account that does not exist.
    AccountNotFound,
    /// A signature was to be checked against an account that has no state.
    AccountStateNotFound,
    /// The account to check a signature against yields no public key.
    Extraction(ExtractionError),
    /// The interface description has no method of the given name.
    UnknownMethod,
    /// The arguments are not JSON, or do not fit the method's inputs.
    ArgumentMismatch,
    /// The arguments fit, but the message body could not be built from them.
    EncodingFailure,
    /// A transfer record's body is not base64 text.
    DecodeFailure,
    /// The wallet contract would first have to be deployed, which is not supported.
    DeploymentRequired,
    /// The message was not included before its time to live ran out.
    MessageExpired,
    /// The message was included, and the transaction it started was aborted.
    TransactionAborted { hash: [u8; 32] },
    /// The transport failed while the message was being sent or awaited.
    TransportFailure,
    /// The account state could not be fetched.
    RpcError,
    /// The interface description could not be read.
    BadInterface,
    /// A send was handed an event that its stage does not wait for.
    UnexpectedEvent,
}

} // verus!
