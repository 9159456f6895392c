//! The failures of the translation layer.

use crate::felt::Felt;
use vstd::prelude::*;

verus! {

/// The operation during which a failure came up.
#[derive(Clone, Copy, Debug, PartialEq, Eq, Hash)]
pub enum Operation {
    ComputeStarknetAddress,
    GetEvmAddress,
    CallView,
    Balance,
    TokenBalances,
    SendTransaction,
    EstimateGas,
    TransactionReceipt,
    TransactionByHash,
    BlockTransactionCount,
    ToEthTransaction,
}

/// A failure of the translation layer.
#[derive(Clone, Debug, PartialEq, Eq)]
pub enum EthApiError {
    /// The ledger's client failed. Its report is passed on as it came.
    ProviderError(String),
    /// A call result does not follow the encoding that its entrypoint is known to use.
    DecodeError(Operation),
    /// An address could not be resolved and no fallback applies.
    TranslationError(Operation),
    /// The event was emitted by the named contract, which is not the interpreter.
    NotBridgeEvent(Felt),
    /// The event came from the interpreter but does not have the shape of a log.
    MalformedEvent,
    /// There are no bytes to decode a transaction from.
    EmptyPayload,
    /// No signer could be recovered from the transaction's signature.
    SignatureError,
    /// The operation is not implemented.
    NotSupported(Operation),
    /// The endpoint of the ledger's client is not a URL.
    InvalidEndpoint,
}

} // verus!
