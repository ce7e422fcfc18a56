use escrow::{EscrowError, EscrowState, EscrowStatus};

#[test]
fn fund_only_from_created() {
    assert_eq!(EscrowStatus::Created.fund(), Ok(EscrowStatus::Funded));
    assert_eq!(EscrowStatus::Funded.fund(), Err(EscrowError::AlreadyProcessed));
    assert_eq!(EscrowStatus::Released.fund(), Err(EscrowError::AlreadyProcessed));
    assert_eq!(EscrowStatus::Cancelled.fund(), Err(EscrowError::AlreadyProcessed));
}

#[test]
fn release_only_from_funded() {
    assert_eq!(EscrowStatus::Funded.release(), Ok(EscrowStatus::Released));
    assert_eq!(EscrowStatus::Created.release(), Err(EscrowError::InvalidStatus));
    assert_eq!(EscrowStatus::Released.release(), Err(EscrowError::AlreadyProcessed));
    assert_eq!(EscrowStatus::Cancelled.release(), Err(EscrowError::AlreadyProcessed));
}

#[test]
fn cancel_until_settled() {
    assert_eq!(EscrowStatus::Created.cancel(), Ok(EscrowStatus::Cancelled));
    assert_eq!(EscrowStatus::Funded.cancel(), Ok(EscrowStatus::Cancelled));
    assert_eq!(EscrowStatus::Released.cancel(), Err(EscrowError::AlreadyProcessed));
    assert_eq!(EscrowStatus::Cancelled.cancel(), Err(EscrowError::AlreadyProcessed));
}

#[test]
fn settled_deals_accept_no_transition() {
    for s in [EscrowStatus::Released, EscrowStatus::Cancelled] {
        assert!(s.fund().is_err());
        assert!(s.release().is_err());
        assert!(s.cancel().is_err());
    }
}

#[test]
fn escrow_error_codes() {
    assert_eq!(EscrowError::InvalidAmount.code(), 6000);
    assert_eq!(EscrowError::SenderEqualsReceiver.code(), 6001);
    assert_eq!(EscrowError::InvalidStatus.code(), 6002);
    assert_eq!(EscrowError::InvalidSender.code(), 6003);
    assert_eq!(EscrowError::InvalidReceiver.code(), 6004);
    assert_eq!(EscrowError::InvalidMint.code(), 6005);
    assert_eq!(EscrowError::InvalidTokenProgram.code(), 6006);
    assert_eq!(EscrowError::AlreadyProcessed.code(), 6007);
}

#[test]
fn escrow_account_size() {
    assert_eq!(EscrowState::init_space(), 114);
    assert_eq!(EscrowState::account_space(), 122);
}
