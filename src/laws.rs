use vstd::prelude::*;

use crate::error::{EscrowError, ProgramError};
use crate::program::{
    initialize_effect, initialize_outcome, payer_cancel_effect, payer_cancel_outcome,
    payer_confirm_effect, payer_confirm_outcome, receiver_confirm_effect, receiver_confirm_outcome,
    Initialize, PayerCancel, PayerConfirm, Payout, ReceiverConfirm,
};
use crate::registry::{Holding, PairKey};
use crate::state::{DEPOSITED, RECEIVER_CONFIRMED};

verus! {

/// Every stored record is either deposited or confirmed by its receiver.
pub open spec fn stored_states_valid(m: Map<PairKey, Holding>) -> bool {
    forall|k: PairKey| #[trigger] m.contains_key(k) ==> {
        ||| m[k].account.state == DEPOSITED
        ||| m[k].account.state == RECEIVER_CONFIRMED
    }
}

/// A deposit request that the payer authorized, that the payer's balance
/// covers, and whose pair has no active escrow.
pub open spec fn valid_deposit(m: Map<PairKey, Holding>, ctx: Initialize, amount: u64) -> bool {
    &&& ctx.signer == ctx.payer
    &&& !m.contains_key((ctx.receiver, ctx.payer))
    &&& amount > 0
    &&& ctx.payer_lamports >= amount
}

/// No operation ever stores a record in a state other than deposited or
/// confirmed: the property holds of the records before and after each of the
/// four operations.
pub proof fn lemma_operations_keep_states_valid(
    m: Map<PairKey, Holding>,
    reject_zero_amount: bool,
    init: Initialize,
    amount: u64,
    cancel: PayerCancel,
    attest: ReceiverConfirm,
    release: PayerConfirm,
    nonce: u8,
)
    requires
        stored_states_valid(m),
    ensures
        stored_states_valid(initialize_effect(m, reject_zero_amount, init, amount)),
        stored_states_valid(payer_cancel_effect(m, cancel, nonce)),
        stored_states_valid(receiver_confirm_effect(m, attest, nonce)),
        stored_states_valid(payer_confirm_effect(m, release, nonce)),
{
}

/// A valid deposit followed by the payer's cancellation gives exactly the
/// deposited amount back to the payer and leaves no record for the pair.
pub proof fn lemma_cancel_refunds_deposit(
    m: Map<PairKey, Holding>,
    reject_zero_amount: bool,
    init: Initialize,
    amount: u64,
)
    requires
        valid_deposit(m, init, amount),
    ensures
        ({
            let cancel = PayerCancel { receiver: init.receiver, payer: init.payer, signer: init.payer };
            let m1 = initialize_effect(m, reject_zero_amount, init, amount);
            &&& initialize_outcome(m, reject_zero_amount, init, amount) is Ok
            &&& payer_cancel_outcome(m1, cancel, init.bump) == Ok::<Payout, ProgramError>(
                Payout { recipient: init.payer, amount },
            )
            &&& !payer_cancel_effect(m1, cancel, init.bump).contains_key((init.receiver, init.payer))
            &&& payer_cancel_effect(m1, cancel, init.bump) == m
        }),
{
    let m1 = initialize_effect(m, reject_zero_amount, init, amount);
    assert(m1.remove((init.receiver, init.payer)) =~= m);
}

/// Once the receiver has attested a valid deposit, the payer's cancellation
/// fails as already confirmed and the record stays, confirmed.
pub proof fn lemma_no_cancel_after_attestation(
    m: Map<PairKey, Holding>,
    reject_zero_amount: bool,
    init: Initialize,
    amount: u64,
)
    requires
        valid_deposit(m, init, amount),
    ensures
        ({
            let k = (init.receiver, init.payer);
            let attest = ReceiverConfirm { receiver: init.receiver, payer: init.payer, signer: init.receiver };
            let cancel = PayerCancel { receiver: init.receiver, payer: init.payer, signer: init.payer };
            let m1 = initialize_effect(m, reject_zero_amount, init, amount);
            let m2 = receiver_confirm_effect(m1, attest, init.bump);
            &&& receiver_confirm_outcome(m1, attest, init.bump) is Ok
            &&& payer_cancel_outcome(m2, cancel, init.bump) == Err::<Payout, ProgramError>(
                ProgramError::Escrow(EscrowError::ReceiverAlreadyConfirmed),
            )
            &&& payer_cancel_effect(m2, cancel, init.bump) == m2
            &&& m2.contains_key(k)
            &&& m2[k].account.state == RECEIVER_CONFIRMED
        }),
{
}

/// A valid deposit, the receiver's attestation and the payer's confirmation
/// destroy the record and pay exactly the deposited amount to the receiver.
pub proof fn lemma_release_pays_receiver(
    m: Map<PairKey, Holding>,
    reject_zero_amount: bool,
    init: Initialize,
    amount: u64,
)
    requires
        valid_deposit(m, init, amount),
    ensures
        ({
            let attest = ReceiverConfirm { receiver: init.receiver, payer: init.payer, signer: init.receiver };
            let release = PayerConfirm { receiver: init.receiver, payer: init.payer, signer: init.payer };
            let m1 = initialize_effect(m, reject_zero_amount, init, amount);
            let m2 = receiver_confirm_effect(m1, attest, init.bump);
            &&& payer_confirm_outcome(m2, release, init.bump) == Ok::<Payout, ProgramError>(
                Payout { recipient: init.receiver, amount },
            )
            &&& payer_confirm_effect(m2, release, init.bump) == m
        }),
{
    let k = (init.receiver, init.payer);
    let attest = ReceiverConfirm { receiver: init.receiver, payer: init.payer, signer: init.receiver };
    let m1 = initialize_effect(m, reject_zero_amount, init, amount);
    let m2 = receiver_confirm_effect(m1, attest, init.bump);
    assert(m2.remove(k) =~= m);
}

/// Without the receiver's attestation the payer's confirmation of a valid
/// deposit fails as not yet confirmed and leaves the record as it was.
pub proof fn lemma_no_release_before_attestation(
    m: Map<PairKey, Holding>,
    reject_zero_amount: bool,
    init: Initialize,
    amount: u64,
)
    requires
        valid_deposit(m, init, amount),
    ensures
        ({
            let release = PayerConfirm { receiver: init.receiver, payer: init.payer, signer: init.payer };
            let m1 = initialize_effect(m, reject_zero_amount, init, amount);
            &&& payer_confirm_outcome(m1, release, init.bump) == Err::<Payout, ProgramError>(
                ProgramError::Escrow(EscrowError::ReceiverNotYetConfirmed),
            )
            &&& payer_confirm_effect(m1, release, init.bump) == m1
        }),
{
}

/// An attestation right after a successful one, with the same request, fails
/// as awaiting the payer's confirmation.
pub proof fn lemma_attestation_not_repeatable(
    m: Map<PairKey, Holding>,
    attest: ReceiverConfirm,
    nonce: u8,
)
    requires
        receiver_confirm_outcome(m, attest, nonce) is Ok,
    ensures
        receiver_confirm_outcome(receiver_confirm_effect(m, attest, nonce), attest, nonce)
            == Err::<(), ProgramError>(
            ProgramError::Escrow(EscrowError::AwaitingPayerConfirmation),
        ),
{
}

/// Against a pair without a record, each authorized operation fails and
/// changes nothing: cancellation and attestation as not initialized, the
/// payer's confirmation as not yet confirmed.
pub proof fn lemma_missing_record(
    m: Map<PairKey, Holding>,
    cancel: PayerCancel,
    attest: ReceiverConfirm,
    release: PayerConfirm,
    nonce: u8,
)
    requires
        cancel.signer == cancel.payer,
        attest.signer == attest.receiver,
        release.signer == release.payer,
        !m.contains_key((cancel.receiver, cancel.payer)),
        !m.contains_key((attest.receiver, attest.payer)),
        !m.contains_key((release.receiver, release.payer)),
    ensures
        payer_cancel_outcome(m, cancel, nonce) == Err::<Payout, ProgramError>(
            ProgramError::Escrow(EscrowError::AccountNotInitialized),
        ),
        receiver_confirm_outcome(m, attest, nonce) == Err::<(), ProgramError>(
            ProgramError::Escrow(EscrowError::AccountNotInitialized),
        ),
        payer_confirm_outcome(m, release, nonce) == Err::<Payout, ProgramError>(
            ProgramError::Escrow(EscrowError::ReceiverNotYetConfirmed),
        ),
        payer_cancel_effect(m, cancel, nonce) == m,
        receiver_confirm_effect(m, attest, nonce) == m,
        payer_confirm_effect(m, release, nonce) == m,
{
}

/// While a deposit for a pair is active, a second deposit for the same pair
/// fails and changes nothing: the pair's custody stays the first deposit.
pub proof fn lemma_second_deposit_refused(
    m: Map<PairKey, Holding>,
    reject_zero_amount: bool,
    first: Initialize,
    amount: u64,
    second: Initialize,
    second_amount: u64,
)
    requires
        initialize_outcome(m, reject_zero_amount, first, amount) is Ok,
        second.receiver == first.receiver,
        second.payer == first.payer,
    ensures
        ({
            let k = (first.receiver, first.payer);
            let m1 = initialize_effect(m, reject_zero_amount, first, amount);
            &&& initialize_outcome(m1, reject_zero_amount, second, second_amount) is Err
            &&& second.signer == second.payer ==> initialize_outcome(
                m1,
                reject_zero_amount,
                second,
                second_amount,
            ) == Err::<(), ProgramError>(ProgramError::AccountAlreadyInUse)
            &&& initialize_effect(m1, reject_zero_amount, second, second_amount) == m1
            &&& m1[k].lamports == amount
        }),
{
}

} // verus!
