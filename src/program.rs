use vstd::prelude::*;

use crate::error::{EscrowError, ProgramError};
use crate::registry::{Holding, Identity, PairKey, Registry};
use crate::state::{
    attest_outcome, cancel_outcome, release_outcome, EscrowAccount, DEPOSITED, RECEIVER_CONFIRMED,
};

verus! {

/// A payer's request to open an escrow towards a receiver.
#[derive(Clone, Copy, Debug, PartialEq, Eq, Structural)]
pub struct Initialize {
    pub receiver: Identity,
    pub payer: Identity,
    /// The party whose authorization accompanies the request.
    pub signer: Identity,
    /// The payer's balance, as the host reports it.
    pub payer_lamports: u64,
    /// The nonce under which the host derived the record's address.
    pub bump: u8,
}

/// A payer's request to cancel an escrow and take the deposit back.
#[derive(Clone, Copy, Debug, PartialEq, Eq, Structural)]
pub struct PayerCancel {
    pub receiver: Identity,
    pub payer: Identity,
    /// The party whose authorization accompanies the request.
    pub signer: Identity,
}

/// A receiver's attestation that its side of the deal is done.
#[derive(Clone, Copy, Debug, PartialEq, Eq, Structural)]
pub struct ReceiverConfirm {
    pub receiver: Identity,
    pub payer: Identity,
    /// The party whose authorization accompanies the request.
    pub signer: Identity,
}

/// A payer's final confirmation, releasing the deposit to the receiver.
#[derive(Clone, Copy, Debug, PartialEq, Eq, Structural)]
pub struct PayerConfirm {
    pub receiver: Identity,
    pub payer: Identity,
    /// The party whose authorization accompanies the request.
    pub signer: Identity,
}

/// A movement of custodied value out of a destroyed record, for the host to carry out.
#[derive(Clone, Copy, Debug, PartialEq, Eq, Structural)]
pub struct Payout {
    pub recipient: Identity,
    pub amount: u64,
}

/// The record that a successful deposit creates.
pub open spec fn deposit_record(ctx: Initialize, amount: u64) -> Holding {
    Holding { account: EscrowAccount { state: DEPOSITED }, lamports: amount, bump: ctx.bump }
}

/// What `initialize` returns on the records `m`.
pub open spec fn initialize_outcome(
    m: Map<PairKey, Holding>,
    reject_zero_amount: bool,
    ctx: Initialize,
    amount: u64,
) -> Result<(), ProgramError> {
    if ctx.signer != ctx.payer {
        Err(ProgramError::MissingRequiredSignature)
    } else if m.contains_key((ctx.receiver, ctx.payer)) {
        Err(ProgramError::AccountAlreadyInUse)
    } else if reject_zero_amount && amount == 0 {
        Err(ProgramError::ZeroAmount)
    } else if ctx.payer_lamports < amount {
        Err(ProgramError::InsufficientFunds)
    } else {
        Ok(())
    }
}

/// The records after `initialize` on the records `m`.
pub open spec fn initialize_effect(
    m: Map<PairKey, Holding>,
    reject_zero_amount: bool,
    ctx: Initialize,
    amount: u64,
) -> Map<PairKey, Holding> {
    if initialize_outcome(m, reject_zero_amount, ctx, amount) is Ok {
        m.insert((ctx.receiver, ctx.payer), deposit_record(ctx, amount))
    } else {
        m
    }
}

/// What `payer_cancel` returns on the records `m`.
pub open spec fn payer_cancel_outcome(m: Map<PairKey, Holding>, ctx: PayerCancel, nonce: u8) -> Result<
    Payout,
    ProgramError,
> {
    let k = (ctx.receiver, ctx.payer);
    if ctx.signer != ctx.payer {
        Err(ProgramError::MissingRequiredSignature)
    } else if !m.contains_key(k) {
        Err(ProgramError::Escrow(EscrowError::AccountNotInitialized))
    } else if m[k].bump != nonce {
        Err(ProgramError::ConstraintSeeds)
    } else {
        match cancel_outcome(m[k].account.state) {
            Ok(_) => Ok(Payout { recipient: ctx.payer, amount: m[k].lamports }),
            Err(e) => Err(e),
        }
    }
}

/// The records after `payer_cancel` on the records `m`.
pub open spec fn payer_cancel_effect(m: Map<PairKey, Holding>, ctx: PayerCancel, nonce: u8) -> Map<
    PairKey,
    Holding,
> {
    if payer_cancel_outcome(m, ctx, nonce) is Ok {
        m.remove((ctx.receiver, ctx.payer))
    } else {
        m
    }
}

/// What `receiver_confirm` returns on the records `m`.
pub open spec fn receiver_confirm_outcome(
    m: Map<PairKey, Holding>,
    ctx: ReceiverConfirm,
    nonce: u8,
) -> Result<(), ProgramError> {
    let k = (ctx.receiver, ctx.payer);
    if ctx.signer != ctx.receiver {
        Err(ProgramError::MissingRequiredSignature)
    } else if !m.contains_key(k) {
        Err(ProgramError::Escrow(EscrowError::AccountNotInitialized))
    } else if m[k].bump != nonce {
        Err(ProgramError::ConstraintSeeds)
    } else {
        attest_outcome(m[k].account.state)
    }
}

/// The records after `receiver_confirm` on the records `m`.
pub open spec fn receiver_confirm_effect(
    m: Map<PairKey, Holding>,
    ctx: ReceiverConfirm,
    nonce: u8,
) -> Map<PairKey, Holding> {
    let k = (ctx.receiver, ctx.payer);
    if receiver_confirm_outcome(m, ctx, nonce) is Ok {
        m.insert(k, Holding { account: EscrowAccount { state: RECEIVER_CONFIRMED }, ..m[k] })
    } else {
        m
    }
}

/// What `payer_confirm` returns on the records `m`. A missing record is
/// reported as not yet confirmed, like a deposited one.
pub open spec fn payer_confirm_outcome(m: Map<PairKey, Holding>, ctx: PayerConfirm, nonce: u8) -> Result<
    Payout,
    ProgramError,
> {
    let k = (ctx.receiver, ctx.payer);
    if ctx.signer != ctx.payer {
        Err(ProgramError::MissingRequiredSignature)
    } else if !m.contains_key(k) {
        Err(ProgramError::Escrow(EscrowError::ReceiverNotYetConfirmed))
    } else if m[k].bump != nonce {
        Err(ProgramError::ConstraintSeeds)
    } else {
        match release_outcome(m[k].account.state) {
            Ok(_) => Ok(Payout { recipient: ctx.receiver, amount: m[k].lamports }),
            Err(e) => Err(e),
        }
    }
}

/// The records after `payer_confirm` on the records `m`.
pub open spec fn payer_confirm_effect(m: Map<PairKey, Holding>, ctx: PayerConfirm, nonce: u8) -> Map<
    PairKey,
    Holding,
> {
    if payer_confirm_outcome(m, ctx, nonce) is Ok {
        m.remove((ctx.receiver, ctx.payer))
    } else {
        m
    }
}

/// Opens an escrow: on success a record in the deposited state holding
/// `amount` is created for the pair, and the host moves `amount` from the
/// payer into its custody slot. A pair holds at most one active escrow.
pub fn initialize(registry: &mut Registry, ctx: &Initialize, amount: u64) -> (r: Result<
    (),
    ProgramError,
>)
    requires
        old(registry).wf(),
    ensures
        final(registry).wf(),
        final(registry).rejects_zero_amount() == old(registry).rejects_zero_amount(),
        r == initialize_outcome(old(registry)@, old(registry).rejects_zero_amount(), *ctx, amount),
        final(registry)@ == initialize_effect(
            old(registry)@,
            old(registry).rejects_zero_amount(),
            *ctx,
            amount,
        ),
{
    if ctx.signer != ctx.payer {
        return Err(ProgramError::MissingRequiredSignature);
    }
    if registry.get(ctx.receiver, ctx.payer).is_some() {
        return Err(ProgramError::AccountAlreadyInUse);
    }
    if registry.reject_zero_amount() && amount == 0 {
        return Err(ProgramError::ZeroAmount);
    }
    if ctx.payer_lamports < amount {
        return Err(ProgramError::InsufficientFunds);
    }
    let holding = Holding { account: EscrowAccount::deposited(), lamports: amount, bump: ctx.bump };
    registry.insert_new(ctx.receiver, ctx.payer, holding);
    Ok(())
}

/// Cancels a deposited escrow: the record is destroyed and its whole custody
/// goes back to the payer. Refused once the receiver has attested.
pub fn payer_cancel(registry: &mut Registry, ctx: &PayerCancel, nonce: u8) -> (r: Result<
    Payout,
    ProgramError,
>)
    requires
        old(registry).wf(),
    ensures
        final(registry).wf(),
        final(registry).rejects_zero_amount() == old(registry).rejects_zero_amount(),
        r == payer_cancel_outcome(old(registry)@, *ctx, nonce),
        final(registry)@ == payer_cancel_effect(old(registry)@, *ctx, nonce),
{
    if ctx.signer != ctx.payer {
        return Err(ProgramError::MissingRequiredSignature);
    }
    let holding = match registry.get(ctx.receiver, ctx.payer) {
        Some(h) => h,
        None => return Err(ProgramError::Escrow(EscrowError::AccountNotInitialized)),
    };
    if holding.bump != nonce {
        return Err(ProgramError::ConstraintSeeds);
    }
    match holding.account.check_cancel() {
        Ok(()) => {
            let closed = registry.remove(ctx.receiver, ctx.payer);
            Ok(Payout { recipient: ctx.payer, amount: closed.lamports })
        },
        Err(e) => Err(e),
    }
}

/// Records the receiver's attestation: a deposited record becomes confirmed
/// and keeps its custody. A second attestation is refused.
pub fn receiver_confirm(registry: &mut Registry, ctx: &ReceiverConfirm, nonce: u8) -> (r: Result<
    (),
    ProgramError,
>)
    requires
        old(registry).wf(),
    ensures
        final(registry).wf(),
        final(registry).rejects_zero_amount() == old(registry).rejects_zero_amount(),
        r == receiver_confirm_outcome(old(registry)@, *ctx, nonce),
        final(registry)@ == receiver_confirm_effect(old(registry)@, *ctx, nonce),
{
    if ctx.signer != ctx.receiver {
        return Err(ProgramError::MissingRequiredSignature);
    }
    let mut holding = match registry.get(ctx.receiver, ctx.payer) {
        Some(h) => h,
        None => return Err(ProgramError::Escrow(EscrowError::AccountNotInitialized)),
    };
    if holding.bump != nonce {
        return Err(ProgramError::ConstraintSeeds);
    }
    match holding.account.attest() {
        Ok(()) => {
            registry.update(ctx.receiver, ctx.payer, holding);
            Ok(())
        },
        Err(e) => Err(e),
    }
}

/// Releases an attested escrow: the record is destroyed and its whole custody
/// goes to the receiver. Without the receiver's attestation, or without a
/// record, it fails as not yet confirmed.
pub fn payer_confirm(registry: &mut Registry, ctx: &PayerConfirm, nonce: u8) -> (r: Result<
    Payout,
    ProgramError,
>)
    requires
        old(registry).wf(),
    ensures
        final(registry).wf(),
        final(registry).rejects_zero_amount() == old(registry).rejects_zero_amount(),
        r == payer_confirm_outcome(old(registry)@, *ctx, nonce),
        final(registry)@ == payer_confirm_effect(old(registry)@, *ctx, nonce),
{
    if ctx.signer != ctx.payer {
        return Err(ProgramError::MissingRequiredSignature);
    }
    let holding = match registry.get(ctx.receiver, ctx.payer) {
        Some(h) => h,
        None => return Err(ProgramError::Escrow(EscrowError::ReceiverNotYetConfirmed)),
    };
    if holding.bump != nonce {
        return Err(ProgramError::ConstraintSeeds);
    }
    match holding.account.check_release() {
        Ok(()) => {
            let closed = registry.remove(ctx.receiver, ctx.payer);
            Ok(Payout { recipient: ctx.receiver, amount: closed.lamports })
        },
        Err(e) => Err(e),
    }
}

} // verus!
