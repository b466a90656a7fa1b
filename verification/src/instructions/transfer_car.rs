use vstd::prelude::*;

use crate::errors::{CarError, CustomError, ProgramError};
use crate::identity::Pubkey;
use crate::state::car::{CarAccount, CarV};
use crate::state::user::{UserAccount, VerificationStatus};

verus! {

/// The accounts a direct transfer touches: the vehicle, both signing
/// identities, and the receiving identity's profile.
pub struct TransferCar {
    pub car: CarAccount,
    pub current_owner: Pubkey,
    pub new_owner: Pubkey,
    pub new_owner_pda: UserAccount,
}

/// Hands the vehicle from its current owner to `new_owner`, both signing.
///
/// The signer must own the vehicle and the receiving profile must be
/// verified. The profile handed in is the one the store keeps for
/// (new_owner, user_name).
pub fn handler(ctx: &mut TransferCar, vin: &Vec<u8>, user_name: &Vec<u8>) -> (r: Result<
    (),
    ProgramError,
>)
    requires
        old(ctx).car@.vin == vin@,
        old(ctx).new_owner_pda@.authority == old(ctx).new_owner,
        old(ctx).new_owner_pda@.user_name == user_name@,
    ensures
        match r {
            Ok(()) => {
                &&& old(ctx).car@.owner == old(ctx).current_owner
                &&& old(ctx).new_owner_pda@.verification_status == VerificationStatus::Verified
                &&& final(ctx).car@ == (CarV { owner: old(ctx).new_owner, ..old(ctx).car@ })
                &&& final(ctx).current_owner == old(ctx).current_owner
                &&& final(ctx).new_owner == old(ctx).new_owner
                &&& final(ctx).new_owner_pda == old(ctx).new_owner_pda
            },
            Err(e) => {
                &&& *final(ctx) == *old(ctx)
                &&& if old(ctx).car@.owner != old(ctx).current_owner {
                    e == ProgramError::Car(CarError::UnauthorizedAccess)
                } else {
                    &&& e == ProgramError::Custom(CustomError::UserNotVerified)
                    &&& old(ctx).new_owner_pda@.verification_status
                        != VerificationStatus::Verified
                }
            },
        },
{
    if ctx.car.owner != ctx.current_owner {
        return Err(ProgramError::Car(CarError::UnauthorizedAccess));
    }
    if ctx.new_owner_pda.verification_status != VerificationStatus::Verified {
        return Err(ProgramError::Custom(CustomError::UserNotVerified));
    }
    ctx.car.owner = ctx.new_owner;
    Ok(())
}

} // verus!
