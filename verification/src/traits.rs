//! Interfaces for things deployed on a domain, and for sequence-aware data.

use vstd::prelude::*;

use crate::chain::AetheriumDomain;
use crate::primitives::H256;

verus! {

/// Interface for features of something deployed on or otherwise connected to
/// a domain.
pub trait AetheriumChain {
    /// The domain the thing is connected to.
    fn domain(&self) -> &AetheriumDomain;
}

/// Interface for a deployed contract: exposes attributes any contract has,
/// regardless of its purpose.
pub trait AetheriumContract: AetheriumChain {
    /// The address of this contract.
    fn address(&self) -> H256;
}

/// Interface for the gas paymaster contract of a domain.
pub trait InterchainGasPaymaster: AetheriumContract {

}

/// A sequence is a monotonically increasing number incremented every time a
/// message id is indexed; for mailbox indexing it equals the message nonce.
pub trait Sequenced {
    /// The sequence of this sequenced type.
    fn sequence(&self) -> Option<u32>;
}

} // verus!
