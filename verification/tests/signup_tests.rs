use adbuy_core::errors::ApiError;
use adbuy_core::signup::{admit_invitation, claim_email};

#[test]
fn confirmed_invitation_is_admitted() {
    assert!(admit_invitation(true).is_ok());
}

#[test]
fn unconfirmed_invitation_is_refused() {
    match admit_invitation(false) {
        Err(ApiError::BadRequest(m)) => {
            assert_eq!(m, "Invitation Not Verified, Check Your Email")
        }
        _ => panic!("expected a bad request"),
    }
}

#[test]
fn unique_email_is_claimed() {
    assert!(claim_email(true).is_ok());
}

#[test]
fn taken_email_is_refused() {
    match claim_email(false) {
        Err(ApiError::BadRequest(m)) => {
            assert_eq!(m, "Account email already claimed. Restoration not yet build")
        }
        _ => panic!("expected a bad request"),
    }
}
