use vstd::prelude::*;

verus! {

/// Failures raised by the escrow rules themselves.
#[derive(Clone, Copy, Debug, PartialEq, Eq, Structural)]
pub enum EscrowError {
    /// The operation targeted a record that does not exist.
    AccountNotInitialized,
    /// The payer tried to release funds before the receiver attested.
    ReceiverNotYetConfirmed,
    /// The payer tried to cancel after the receiver attested.
    ReceiverAlreadyConfirmed,
    /// The receiver tried to attest a second time.
    AwaitingPayerConfirmation,
}

/// The human-readable message of each escrow error.
pub open spec fn message_of(e: EscrowError) -> Seq<char> {
    match e {
        EscrowError::AccountNotInitialized => "Account state has not been initialized yet"@,
        EscrowError::ReceiverNotYetConfirmed => "Receiver has not yet confirmed their side of the escrow"@,
        EscrowError::ReceiverAlreadyConfirmed => "Receiver has already confirmed their side of the process"@,
        EscrowError::AwaitingPayerConfirmation => "Awaiting payer confirmation"@,
    }
}

impl EscrowError {
    /// The human-readable message of this error.
    pub fn message(&self) -> (r: &'static str)
        ensures
            r@ == message_of(*self),
    {
        match self {
            EscrowError::AccountNotInitialized => "Account state has not been initialized yet",
            EscrowError::ReceiverNotYetConfirmed => "Receiver has not yet confirmed their side of the escrow",
            EscrowError::ReceiverAlreadyConfirmed => "Receiver has already confirmed their side of the process",
            EscrowError::AwaitingPayerConfirmation => "Awaiting payer confirmation",
        }
    }
}

/// Every way an escrow operation can fail. A failed operation changes nothing.
#[derive(Clone, Copy, Debug, PartialEq, Eq, Structural)]
pub enum ProgramError {
    /// A rule of the escrow state machine refused the operation.
    Escrow(EscrowError),
    /// The persisted record holds a state outside the known ones.
    InvalidAccountData,
    /// The request does not carry the authorization of the required party.
    MissingRequiredSignature,
    /// The nonce supplied does not address the record actually held.
    ConstraintSeeds,
    /// An escrow for this pair is already active.
    AccountAlreadyInUse,
    /// The payer cannot cover the deposit.
    InsufficientFunds,
    /// A zero deposit was refused by a registry configured to refuse it.
    ZeroAmount,
}

} // verus!
