//! Application-level checks of an operation before it is relayed.

use vstd::prelude::*;

use crate::message::AetheriumMessage;
use crate::primitives::U256;

verus! {

/// What an application-level check found wrong with a message.
#[derive(Debug, Clone, PartialEq, Eq)]
pub enum ApplicationOperationVerifierReport {
    /// The transferred amount is below the application's minimum.
    AmountBelowMinimum { minimum: U256, actual: U256 },
    /// The message body does not parse for the application.
    MalformedMessage(AetheriumMessage),
    /// The transferred amount is zero.
    ZeroAmount,
}

/// Verifies whether an operation is permitted for an application; implemented
/// by each application.
pub trait ApplicationOperationVerifier {
    /// Checks the message under the application context; nothing means no
    /// objection.
    fn verify(&self, app_context: &Option<String>, message: &AetheriumMessage) -> Option<
        ApplicationOperationVerifierReport,
    >;
}

} // verus!
