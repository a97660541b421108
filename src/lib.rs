//! An escrow state machine between a payer and a receiver.
//!
//! One record exists per ordered (receiver, payer) pair. A payer deposits
//! value into the record's custody slot, the receiver attests completion, and
//! the payer then releases the value to the receiver; before the receiver's
//! attestation the payer may cancel and take the value back.
use vstd::prelude::*;

pub mod error;
pub mod laws;
pub mod program;
pub mod registry;
pub mod state;

pub use error::{EscrowError, ProgramError};
pub use state::EscrowAccount;
pub use registry::{Holding, Identity, PairKey, Registry};
pub use program::{
    initialize, payer_cancel, payer_confirm, receiver_confirm, Initialize, PayerCancel,
    PayerConfirm, Payout, ReceiverConfirm,
};
