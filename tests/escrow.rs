use escrow_contract::{
    initialize, payer_cancel, payer_confirm, receiver_confirm, EscrowAccount, EscrowError,
    Holding, Initialize, PayerCancel, PayerConfirm, Payout, ProgramError, ReceiverConfirm,
    Registry,
};

const PAYER: u64 = 11;
const RECEIVER: u64 = 22;
const BUMP: u8 = 254;

fn deposit_request(amount_available: u64) -> Initialize {
    Initialize {
        receiver: RECEIVER,
        payer: PAYER,
        signer: PAYER,
        payer_lamports: amount_available,
        bump: BUMP,
    }
}

fn cancel_request() -> PayerCancel {
    PayerCancel { receiver: RECEIVER, payer: PAYER, signer: PAYER }
}

fn attest_request() -> ReceiverConfirm {
    ReceiverConfirm { receiver: RECEIVER, payer: PAYER, signer: RECEIVER }
}

fn release_request() -> PayerConfirm {
    PayerConfirm { receiver: RECEIVER, payer: PAYER, signer: PAYER }
}

fn escrow_error(e: EscrowError) -> ProgramError {
    ProgramError::Escrow(e)
}

#[test]
fn initialize_creates_deposited_record() {
    let mut reg = Registry::new(false);
    assert_eq!(initialize(&mut reg, &deposit_request(1_000), 400), Ok(()));
    assert_eq!(
        reg.get(RECEIVER, PAYER),
        Some(Holding { account: EscrowAccount { state: 1 }, lamports: 400, bump: BUMP })
    );
    assert_eq!(reg.get(PAYER, RECEIVER), None);
}

#[test]
fn cancel_after_deposit_refunds_payer() {
    let mut reg = Registry::new(false);
    initialize(&mut reg, &deposit_request(1_000), 750).unwrap();
    let payout = payer_cancel(&mut reg, &cancel_request(), BUMP);
    assert_eq!(payout, Ok(Payout { recipient: PAYER, amount: 750 }));
    assert_eq!(reg.get(RECEIVER, PAYER), None);
}

#[test]
fn cancel_after_attestation_fails_and_keeps_record() {
    let mut reg = Registry::new(false);
    initialize(&mut reg, &deposit_request(1_000), 300).unwrap();
    assert_eq!(receiver_confirm(&mut reg, &attest_request(), BUMP), Ok(()));
    assert_eq!(
        payer_cancel(&mut reg, &cancel_request(), BUMP),
        Err(escrow_error(EscrowError::ReceiverAlreadyConfirmed))
    );
    assert_eq!(
        reg.get(RECEIVER, PAYER),
        Some(Holding { account: EscrowAccount { state: 2 }, lamports: 300, bump: BUMP })
    );
}

#[test]
fn full_flow_pays_receiver() {
    let mut reg = Registry::new(false);
    initialize(&mut reg, &deposit_request(5_000), 5_000).unwrap();
    receiver_confirm(&mut reg, &attest_request(), BUMP).unwrap();
    assert_eq!(
        payer_confirm(&mut reg, &release_request(), BUMP),
        Ok(Payout { recipient: RECEIVER, amount: 5_000 })
    );
    assert_eq!(reg.get(RECEIVER, PAYER), None);
}

#[test]
fn release_before_attestation_fails_and_keeps_record() {
    let mut reg = Registry::new(false);
    initialize(&mut reg, &deposit_request(1_000), 10).unwrap();
    let before = reg.get(RECEIVER, PAYER);
    assert_eq!(
        payer_confirm(&mut reg, &release_request(), BUMP),
        Err(escrow_error(EscrowError::ReceiverNotYetConfirmed))
    );
    assert_eq!(reg.get(RECEIVER, PAYER), before);
}

#[test]
fn second_attestation_fails() {
    let mut reg = Registry::new(false);
    initialize(&mut reg, &deposit_request(1_000), 10).unwrap();
    assert_eq!(receiver_confirm(&mut reg, &attest_request(), BUMP), Ok(()));
    assert_eq!(
        receiver_confirm(&mut reg, &attest_request(), BUMP),
        Err(escrow_error(EscrowError::AwaitingPayerConfirmation))
    );
}

#[test]
fn operations_on_missing_record() {
    let mut reg = Registry::new(false);
    assert_eq!(
        payer_cancel(&mut reg, &cancel_request(), BUMP),
        Err(escrow_error(EscrowError::AccountNotInitialized))
    );
    assert_eq!(
        receiver_confirm(&mut reg, &attest_request(), BUMP),
        Err(escrow_error(EscrowError::AccountNotInitialized))
    );
    assert_eq!(
        payer_confirm(&mut reg, &release_request(), BUMP),
        Err(escrow_error(EscrowError::ReceiverNotYetConfirmed))
    );
    assert_eq!(reg.get(RECEIVER, PAYER), None);
}

#[test]
fn second_deposit_for_same_pair_is_refused() {
    let mut reg = Registry::new(false);
    initialize(&mut reg, &deposit_request(1_000), 100).unwrap();
    assert_eq!(
        initialize(&mut reg, &deposit_request(1_000), 200),
        Err(ProgramError::AccountAlreadyInUse)
    );
    assert_eq!(reg.get(RECEIVER, PAYER).map(|h| h.lamports), Some(100));
}

#[test]
fn pairs_are_ordered_and_independent() {
    let mut reg = Registry::new(false);
    initialize(&mut reg, &deposit_request(1_000), 100).unwrap();
    let reverse = Initialize { receiver: PAYER, payer: RECEIVER, signer: RECEIVER, payer_lamports: 50, bump: 7 };
    assert_eq!(initialize(&mut reg, &reverse, 50), Ok(()));
    receiver_confirm(&mut reg, &attest_request(), BUMP).unwrap();
    assert_eq!(reg.get(PAYER, RECEIVER).map(|h| h.account.state), Some(1));
    let cancel_reverse = PayerCancel { receiver: PAYER, payer: RECEIVER, signer: RECEIVER };
    assert_eq!(
        payer_cancel(&mut reg, &cancel_reverse, 7),
        Ok(Payout { recipient: RECEIVER, amount: 50 })
    );
    assert_eq!(reg.get(RECEIVER, PAYER).map(|h| h.account.state), Some(2));
}

#[test]
fn insufficient_funds_changes_nothing() {
    let mut reg = Registry::new(false);
    assert_eq!(
        initialize(&mut reg, &deposit_request(99), 100),
        Err(ProgramError::InsufficientFunds)
    );
    assert_eq!(reg.get(RECEIVER, PAYER), None);
    assert_eq!(initialize(&mut reg, &deposit_request(100), 100), Ok(()));
}

#[test]
fn deposit_of_whole_balance_at_largest_amount() {
    let mut reg = Registry::new(false);
    assert_eq!(initialize(&mut reg, &deposit_request(u64::MAX), u64::MAX), Ok(()));
    assert_eq!(
        payer_cancel(&mut reg, &cancel_request(), BUMP),
        Ok(Payout { recipient: PAYER, amount: u64::MAX })
    );
}

#[test]
fn zero_amount_accepted_by_default() {
    let mut reg = Registry::new(false);
    assert!(!reg.reject_zero_amount());
    assert_eq!(initialize(&mut reg, &deposit_request(0), 0), Ok(()));
    assert_eq!(
        payer_cancel(&mut reg, &cancel_request(), BUMP),
        Ok(Payout { recipient: PAYER, amount: 0 })
    );
}

#[test]
fn zero_amount_refused_when_configured() {
    let mut reg = Registry::new(true);
    assert!(reg.reject_zero_amount());
    assert_eq!(initialize(&mut reg, &deposit_request(10), 0), Err(ProgramError::ZeroAmount));
    assert_eq!(reg.get(RECEIVER, PAYER), None);
    assert_eq!(initialize(&mut reg, &deposit_request(10), 1), Ok(()));
}

#[test]
fn wrong_signer_is_refused() {
    let mut reg = Registry::new(false);
    let mut req = deposit_request(1_000);
    req.signer = RECEIVER;
    assert_eq!(initialize(&mut reg, &req, 5), Err(ProgramError::MissingRequiredSignature));
    initialize(&mut reg, &deposit_request(1_000), 5).unwrap();
    let bad_cancel = PayerCancel { signer: RECEIVER, ..cancel_request() };
    assert_eq!(payer_cancel(&mut reg, &bad_cancel, BUMP), Err(ProgramError::MissingRequiredSignature));
    let bad_attest = ReceiverConfirm { signer: PAYER, ..attest_request() };
    assert_eq!(receiver_confirm(&mut reg, &bad_attest, BUMP), Err(ProgramError::MissingRequiredSignature));
    let bad_release = PayerConfirm { signer: RECEIVER, ..release_request() };
    assert_eq!(payer_confirm(&mut reg, &bad_release, BUMP), Err(ProgramError::MissingRequiredSignature));
    assert_eq!(reg.get(RECEIVER, PAYER).map(|h| h.account.state), Some(1));
}

#[test]
fn wrong_nonce_is_refused() {
    let mut reg = Registry::new(false);
    initialize(&mut reg, &deposit_request(1_000), 5).unwrap();
    assert_eq!(payer_cancel(&mut reg, &cancel_request(), BUMP - 1), Err(ProgramError::ConstraintSeeds));
    assert_eq!(receiver_confirm(&mut reg, &attest_request(), 3), Err(ProgramError::ConstraintSeeds));
    receiver_confirm(&mut reg, &attest_request(), BUMP).unwrap();
    assert_eq!(payer_confirm(&mut reg, &release_request(), 0), Err(ProgramError::ConstraintSeeds));
    assert_eq!(reg.get(RECEIVER, PAYER).map(|h| h.account.state), Some(2));
}

#[test]
fn corrupted_state_is_invalid_account_data() {
    let mut reg = Registry::new(false);
    let corrupt = Holding { account: EscrowAccount { state: 9 }, lamports: 40, bump: BUMP };
    assert_eq!(reg.load(RECEIVER, PAYER, corrupt), Ok(()));
    assert_eq!(payer_cancel(&mut reg, &cancel_request(), BUMP), Err(ProgramError::InvalidAccountData));
    assert_eq!(receiver_confirm(&mut reg, &attest_request(), BUMP), Err(ProgramError::InvalidAccountData));
    assert_eq!(
        payer_confirm(&mut reg, &release_request(), BUMP),
        Err(escrow_error(EscrowError::ReceiverNotYetConfirmed))
    );
    assert_eq!(reg.get(RECEIVER, PAYER), Some(corrupt));
}

#[test]
fn stored_uninitialized_state_reports_not_initialized() {
    let mut reg = Registry::new(false);
    let blank = Holding { account: EscrowAccount { state: 0 }, lamports: 0, bump: BUMP };
    reg.load(RECEIVER, PAYER, blank).unwrap();
    assert_eq!(
        payer_cancel(&mut reg, &cancel_request(), BUMP),
        Err(escrow_error(EscrowError::AccountNotInitialized))
    );
    assert_eq!(
        receiver_confirm(&mut reg, &attest_request(), BUMP),
        Err(escrow_error(EscrowError::AccountNotInitialized))
    );
    assert_eq!(reg.load(RECEIVER, PAYER, blank), Err(ProgramError::AccountAlreadyInUse));
}

#[test]
fn record_level_decisions() {
    let mut acct = EscrowAccount::deposited();
    assert_eq!(acct.check_cancel(), Ok(()));
    assert_eq!(acct.check_release(), Err(escrow_error(EscrowError::ReceiverNotYetConfirmed)));
    assert_eq!(acct.attest(), Ok(()));
    assert_eq!(acct.state, 2);
    assert_eq!(acct.check_release(), Ok(()));
    assert_eq!(acct.check_cancel(), Err(escrow_error(EscrowError::ReceiverAlreadyConfirmed)));
    assert_eq!(acct.attest(), Err(escrow_error(EscrowError::AwaitingPayerConfirmation)));
    let mut odd = EscrowAccount { state: 3 };
    assert_eq!(odd.attest(), Err(ProgramError::InvalidAccountData));
    assert_eq!(odd.state, 3);
}

#[test]
fn error_messages() {
    assert_eq!(EscrowError::AccountNotInitialized.message(), "Account state has not been initialized yet");
    assert_eq!(
        EscrowError::ReceiverNotYetConfirmed.message(),
        "Receiver has not yet confirmed their side of the escrow"
    );
    assert_eq!(
        EscrowError::ReceiverAlreadyConfirmed.message(),
        "Receiver has already confirmed their side of the process"
    );
    assert_eq!(EscrowError::AwaitingPayerConfirmation.message(), "Awaiting payer confirmation");
}
