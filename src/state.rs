use vstd::prelude::*;

use crate::error::{EscrowError, ProgramError};

verus! {

/// State value of a record that was never created; reported, never stored.
pub const UNINITIALIZED: u8 = 0;

/// State value of a record holding a deposit that the payer may still cancel.
pub const DEPOSITED: u8 = 1;

/// State value of a record whose receiver has attested completion.
pub const RECEIVER_CONFIRMED: u8 = 2;

/// The persisted part of an escrow record.
#[derive(Clone, Copy, Debug, PartialEq, Eq, Structural)]
pub struct EscrowAccount {
    pub state: u8,
}

/// Outcome of a payer's cancellation against a record in `state`.
pub open spec fn cancel_outcome(state: u8) -> Result<(), ProgramError> {
    if state == UNINITIALIZED {
        Err(ProgramError::Escrow(EscrowError::AccountNotInitialized))
    } else if state == DEPOSITED {
        Ok(())
    } else if state == RECEIVER_CONFIRMED {
        Err(ProgramError::Escrow(EscrowError::ReceiverAlreadyConfirmed))
    } else {
        Err(ProgramError::InvalidAccountData)
    }
}

/// Outcome of a receiver's attestation against a record in `state`.
pub open spec fn attest_outcome(state: u8) -> Result<(), ProgramError> {
    if state == UNINITIALIZED {
        Err(ProgramError::Escrow(EscrowError::AccountNotInitialized))
    } else if state == DEPOSITED {
        Ok(())
    } else if state == RECEIVER_CONFIRMED {
        Err(ProgramError::Escrow(EscrowError::AwaitingPayerConfirmation))
    } else {
        Err(ProgramError::InvalidAccountData)
    }
}

/// Outcome of a payer's release against a record in `state`: only an attested
/// record can be released, and every other state gives the same error.
pub open spec fn release_outcome(state: u8) -> Result<(), ProgramError> {
    if state == RECEIVER_CONFIRMED {
        Ok(())
    } else {
        Err(ProgramError::Escrow(EscrowError::ReceiverNotYetConfirmed))
    }
}

impl EscrowAccount {
    /// A record freshly created by a deposit.
    pub fn deposited() -> (r: EscrowAccount)
        ensures
            r.state == DEPOSITED,
    {
        EscrowAccount { state: DEPOSITED }
    }

    /// Decides whether the payer may cancel this record.
    pub fn check_cancel(&self) -> (r: Result<(), ProgramError>)
        ensures
            r == cancel_outcome(self.state),
    {
        match self.state {
            0 => Err(ProgramError::Escrow(EscrowError::AccountNotInitialized)),
            1 => Ok(()),
            2 => Err(ProgramError::Escrow(EscrowError::ReceiverAlreadyConfirmed)),
            _ => Err(ProgramError::InvalidAccountData),
        }
    }

    /// Records the receiver's attestation: a deposited record becomes
    /// confirmed; in every other state the record is left as it is.
    pub fn attest(&mut self) -> (r: Result<(), ProgramError>)
        ensures
            r == attest_outcome(old(self).state),
            r is Ok ==> final(self).state == RECEIVER_CONFIRMED,
            r is Err ==> *final(self) == *old(self),
    {
        match self.state {
            0 => Err(ProgramError::Escrow(EscrowError::AccountNotInitialized)),
            1 => {
                self.state = RECEIVER_CONFIRMED;
                Ok(())
            },
            2 => Err(ProgramError::Escrow(EscrowError::AwaitingPayerConfirmation)),
            _ => Err(ProgramError::InvalidAccountData),
        }
    }

    /// Decides whether the payer may release this record to the receiver.
    pub fn check_release(&self) -> (r: Result<(), ProgramError>)
        ensures
            r == release_outcome(self.state),
    {
        if self.state == RECEIVER_CONFIRMED {
            Ok(())
        } else {
            Err(ProgramError::Escrow(EscrowError::ReceiverNotYetConfirmed))
        }
    }
}

} // verus!
