//! The decisions of account sign-up: an invitation must have its email
//! confirmed, and the email must not belong to an account yet.

use vstd::prelude::*;
use vstd::string::StringExecFns;
use crate::errors::{ApiError, ApiErrorView};

verus! {

/// The first step of sign-up: only an invitation whose email was confirmed
/// may become an account.
pub fn admit_invitation(email_confirmed: bool) -> (r: Result<(), ApiError>)
    ensures
        email_confirmed ==> r is Ok,
        !email_confirmed ==> (r matches Err(e) && e@ == ApiErrorView::BadRequest(
            "Invitation Not Verified, Check Your Email"@,
        )),
{
    if email_confirmed {
        Ok(())
    } else {
        Err(ApiError::BadRequest(String::from_str("Invitation Not Verified, Check Your Email")))
    }
}

/// The second step: the email must not be claimed by an account already.
pub fn claim_email(email_is_unique: bool) -> (r: Result<(), ApiError>)
    ensures
        email_is_unique ==> r is Ok,
        !email_is_unique ==> (r matches Err(e) && e@ == ApiErrorView::BadRequest(
            "Account email already claimed. Restoration not yet build"@,
        )),
{
    if email_is_unique {
        Ok(())
    } else {
        Err(
            ApiError::BadRequest(
                String::from_str("Account email already claimed. Restoration not yet build"),
            ),
        )
    }
}

} // verus!
