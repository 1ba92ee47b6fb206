//! The reasons for which a call is rejected.

use vstd::prelude::*;

verus! {

/// Why a call was rejected. A rejected call leaves the state it was made on
/// as it was, with one exception: `ProvisioningFailed` is the answer of the
/// completion callback to a report of failure, on which it takes a pending
/// reservation back.
#[derive(Clone, Copy, Debug, PartialEq, Eq, Structural)]
pub enum EscrowError {
    /// The escrow has already been withdrawn, cancelled or rescued.
    NotActive,
    /// The withdrawal window has closed.
    WindowExpired,
    /// The cancellation or rescue window has not opened yet.
    WindowNotReached,
    /// The secret does not open the hashlock.
    BadSecret,
    /// The caller is not the party that may do this.
    Unauthorized,
    /// The value attached to the call does not cover what creation costs.
    InsufficientDeposit,
    /// The order already has an escrow.
    DuplicateOrder,
    /// The escrow account already serves another order.
    DuplicateEscrow,
    /// The escrow instance could not be provisioned.
    ProvisioningFailed,
    /// The factory has no escrow template.
    TemplateNotConfigured,
    /// The swap parameters name no escrow instance.
    InvalidImmutables,
}

impl EscrowError {
    /// The reason in words.
    pub open spec fn reason(self) -> Seq<char> {
        match self {
            EscrowError::NotActive => "Escrow is not active"@,
            EscrowError::WindowExpired => "Withdrawal period has expired"@,
            EscrowError::WindowNotReached => "Time window not reached"@,
            EscrowError::BadSecret => "Invalid secret"@,
            EscrowError::Unauthorized => "Invalid caller"@,
            EscrowError::InsufficientDeposit => "Insufficient deposit"@,
            EscrowError::DuplicateOrder => "Escrow already exists for order"@,
            EscrowError::DuplicateEscrow => "Escrow account already in use"@,
            EscrowError::ProvisioningFailed => "Failed to create escrow"@,
            EscrowError::TemplateNotConfigured => "Escrow template not set"@,
            EscrowError::InvalidImmutables => "Invalid immutables"@,
        }
    }

    /// The reason in words, to show to the caller.
    pub fn message(&self) -> (text: String)
        ensures
            text@ == self.reason(),
    {
        match self {
            EscrowError::NotActive => "Escrow is not active".to_owned(),
            EscrowError::WindowExpired => "Withdrawal period has expired".to_owned(),
            EscrowError::WindowNotReached => "Time window not reached".to_owned(),
            EscrowError::BadSecret => "Invalid secret".to_owned(),
            EscrowError::Unauthorized => "Invalid caller".to_owned(),
            EscrowError::InsufficientDeposit => "Insufficient deposit".to_owned(),
            EscrowError::DuplicateOrder => "Escrow already exists for order".to_owned(),
            EscrowError::DuplicateEscrow => "Escrow account already in use".to_owned(),
            EscrowError::ProvisioningFailed => "Failed to create escrow".to_owned(),
            EscrowError::TemplateNotConfigured => "Escrow template not set".to_owned(),
            EscrowError::InvalidImmutables => "Invalid immutables".to_owned(),
        }
    }
}

} // verus!
