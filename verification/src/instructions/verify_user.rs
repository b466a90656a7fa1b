use vstd::prelude::*;

use crate::errors::{CustomError, ProgramError};
use crate::identity::Pubkey;
use crate::state::user::{UserAccount, UserV, VerificationStatus};

verus! {

/// The accounts a verification decision touches: the profile under review
/// and the government identity signing the decision.
pub struct VerifyUser {
    pub user_account: UserAccount,
    pub government: Pubkey,
}

/// Decides a pending profile's verification: approval makes it verified,
/// refusal makes it rejected; either way the decision is stamped with the
/// deciding identity and the platform clock reading `now`.
///
/// Fails if the profile was already decided, or if the signer is not the
/// designated government authority; a decided profile never returns to
/// pending.
pub fn handler(
    ctx: &mut VerifyUser,
    government_authority: Pubkey,
    approve: bool,
    now: i64,
) -> (r: Result<(), ProgramError>)
    ensures
        match r {
            Ok(()) => {
                &&& old(ctx).user_account@.verification_status == VerificationStatus::Pending
                &&& old(ctx).government == government_authority
                &&& final(ctx).user_account@ == (UserV {
                    verification_status: if approve {
                        VerificationStatus::Verified
                    } else {
                        VerificationStatus::Rejected
                    },
                    verified_at: Some(now),
                    verified_by: Some(old(ctx).government),
                    ..old(ctx).user_account@
                })
                &&& final(ctx).government == old(ctx).government
            },
            Err(e) => {
                &&& *final(ctx) == *old(ctx)
                &&& if old(ctx).user_account@.verification_status != VerificationStatus::Pending {
                    e == ProgramError::Custom(CustomError::UserAlreadyProcessed)
                } else {
                    &&& e == ProgramError::Custom(CustomError::UnauthorizedVerifier)
                    &&& old(ctx).government != government_authority
                }
            },
        },
{
    if ctx.user_account.verification_status != VerificationStatus::Pending {
        return Err(ProgramError::Custom(CustomError::UserAlreadyProcessed));
    }
    if ctx.government != government_authority {
        return Err(ProgramError::Custom(CustomError::UnauthorizedVerifier));
    }
    if approve {
        ctx.user_account.verification_status = VerificationStatus::Verified;
    } else {
        ctx.user_account.verification_status = VerificationStatus::Rejected;
    }
    ctx.user_account.verified_at = Some(now);
    ctx.user_account.verified_by = Some(ctx.government);
    Ok(())
}

} // verus!
