//! Error types surfaced when talking to a chain or decoding protocol data.

use vstd::prelude::*;
use vstd::string::StringExecFns;

use crate::chain::ReorgPeriod;
use crate::primitives::{H256, U256};

verus! {

/// The result of interacting with a chain.
pub type ChainResult<T> = Result<T, ChainCommunicationError>;

/// Errors of the message wire protocol itself.
#[derive(Debug)]
pub enum AetheriumProtocolError {
    /// A read or write of encoded data fell short.
    IoError,
    /// An unknown or invalid domain id was encountered.
    UnknownDomainId(u32),
    /// A gas limit was expected for a `process` contract call and none was given.
    ProcessGasLimitRequired,
}

impl AetheriumProtocolError {
    /// The fixed description of each variant.
    pub open spec fn spec_describe(&self) -> Seq<char> {
        match self {
            AetheriumProtocolError::IoError => "io error while reading or writing"@,
            AetheriumProtocolError::UnknownDomainId(_) => "unknown or invalid domain ID"@,
            AetheriumProtocolError::ProcessGasLimitRequired => "a gas limit was expected for `process` contract call"@,
        }
    }

    /// Renders the error as text.
    pub fn describe(&self) -> (r: String)
        ensures
            r@ == self.spec_describe(),
    {
        match self {
            AetheriumProtocolError::IoError => String::from_str("io error while reading or writing"),
            AetheriumProtocolError::UnknownDomainId(_) => String::from_str("unknown or invalid domain ID"),
            AetheriumProtocolError::ProcessGasLimitRequired => String::from_str("a gas limit was expected for `process` contract call"),
        }
    }
}

/// Errors returned when attempting to call a chain or dispatch a transaction.
#[derive(Debug)]
pub enum ChainCommunicationError {
    /// A protocol-level error.
    AetheriumProtocolError(AetheriumProtocolError),
    /// An error with a contract call, described as text.
    ContractError(String),
    /// A transaction was dropped from the mempool.
    TransactionDropped(H256),
    /// Any other error, described as text.
    Other(String),
    /// A transaction submission timed out.
    TransactionTimeout,
    /// No signer is available and one was required for the operation.
    SignerUnavailable,
    /// Batching a transaction failed.
    BatchingFailed,
    /// An empty batch cannot be submitted.
    BatchIsEmpty,
    /// The request was rejected before it was sent.
    InvalidRequest { msg: String },
    /// A value could not be parsed.
    ParseError { msg: String },
    /// The funds at hand do not cover the operation.
    InsufficientFunds { required: Box<U256>, available: Box<U256> },
    /// An error raised by a caller with its own text.
    CustomError(String),
    /// The configured reorg period cannot be used here.
    InvalidReorgPeriod(ReorgPeriod),
}

impl ChainCommunicationError {
    /// The text each variant renders to.
    pub open spec fn spec_describe(&self) -> Seq<char> {
        match self {
            ChainCommunicationError::AetheriumProtocolError(e) => e.spec_describe(),
            ChainCommunicationError::ContractError(s) => s@,
            ChainCommunicationError::TransactionDropped(_) => "Transaction dropped from mempool"@,
            ChainCommunicationError::Other(s) => s@,
            ChainCommunicationError::TransactionTimeout => "Transaction submission timed out"@,
            ChainCommunicationError::SignerUnavailable => "Signer unavailable"@,
            ChainCommunicationError::BatchingFailed => "Batching transaction failed"@,
            ChainCommunicationError::BatchIsEmpty => "Cannot submit empty batch"@,
            ChainCommunicationError::InvalidRequest { msg } => "Invalid Request: "@ + msg@,
            ChainCommunicationError::ParseError { msg } => "ParseError: "@ + msg@,
            ChainCommunicationError::InsufficientFunds { .. } => "Insufficient funds"@,
            ChainCommunicationError::CustomError(s) => s@,
            ChainCommunicationError::InvalidReorgPeriod(_) => "Invalid reorg period"@,
        }
    }

    /// Renders the error as text.
    pub fn describe(&self) -> (r: String)
        ensures
            r@ == self.spec_describe(),
    {
        match self {
            ChainCommunicationError::AetheriumProtocolError(e) => e.describe(),
            ChainCommunicationError::ContractError(s) => s.clone(),
            ChainCommunicationError::TransactionDropped(_) => String::from_str(
                "Transaction dropped from mempool",
            ),
            ChainCommunicationError::Other(s) => s.clone(),
            ChainCommunicationError::TransactionTimeout => String::from_str(
                "Transaction submission timed out",
            ),
            ChainCommunicationError::SignerUnavailable => String::from_str("Signer unavailable"),
            ChainCommunicationError::BatchingFailed => String::from_str(
                "Batching transaction failed",
            ),
            ChainCommunicationError::BatchIsEmpty => String::from_str("Cannot submit empty batch"),
            ChainCommunicationError::InvalidRequest { msg } => {
                let mut s = String::from_str("Invalid Request: ");
                s.append(msg.as_str());
                s
            },
            ChainCommunicationError::ParseError { msg } => {
                let mut s = String::from_str("ParseError: ");
                s.append(msg.as_str());
                s
            },
            ChainCommunicationError::InsufficientFunds { .. } => String::from_str(
                "Insufficient funds",
            ),
            ChainCommunicationError::CustomError(s) => s.clone(),
            ChainCommunicationError::InvalidReorgPeriod(_) => String::from_str(
                "Invalid reorg period",
            ),
        }
    }

    /// Creates a chain communication error of the contract error variant from
    /// a string slice.
    pub fn from_other_str(err: &str) -> (r: ChainCommunicationError)
        ensures
            r matches ChainCommunicationError::ContractError(s) && s@ == err@,
    {
        ChainCommunicationError::ContractError(err.to_owned())
    }

    /// Creates a chain communication error of the contract error variant from
    /// a static string.
    pub fn from_contract_error_str(err: &'static str) -> (r: ChainCommunicationError)
        ensures
            r matches ChainCommunicationError::ContractError(s) && s@ == err@,
    {
        ChainCommunicationError::ContractError(err.to_owned())
    }
}

impl From<AetheriumProtocolError> for ChainCommunicationError {
    fn from(e: AetheriumProtocolError) -> ChainCommunicationError {
        ChainCommunicationError::AetheriumProtocolError(e)
    }
}

impl vstd::std_specs::convert::FromSpecImpl<AetheriumProtocolError> for ChainCommunicationError {
    open spec fn obeys_from_spec() -> bool {
        true
    }

    open spec fn from_spec(e: AetheriumProtocolError) -> ChainCommunicationError {
        ChainCommunicationError::AetheriumProtocolError(e)
    }
}

} // verus!
