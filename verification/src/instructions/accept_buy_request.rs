use vstd::prelude::*;

use crate::errors::{CarError, CustomError, ProgramError};
use crate::identity::Pubkey;
use crate::state::buy_request::{BuyRequest, BuyRequestStatus, BuyRequestV};
use crate::state::car::{CarAccount, CarV};
use crate::state::user::{UserAccount, VerificationStatus};

verus! {

/// The accounts an acceptance touches: the pending offer, the vehicle, the
/// seller's and buyer's profiles, the accepting owner's identity, and the
/// owner's fund balance.
pub struct AcceptBuyRequest {
    pub buy_request: BuyRequest,
    pub car: CarAccount,
    pub owner_pda: UserAccount,
    pub buyer_pda: UserAccount,
    pub owner: Pubkey,
    pub owner_lamports: u64,
}

/// Accepts a pending offer: one atomic step pays the escrowed amount to the
/// accepting owner, hands the vehicle to the buyer, takes it off sale, and
/// closes the request as accepted.
///
/// The signer must be the request's seller and the vehicle's current owner,
/// the vehicle still listed, and both profiles verified. On failure nothing
/// changes.
pub fn handler(ctx: &mut AcceptBuyRequest, vin: &Vec<u8>, buyer: Pubkey) -> (r: Result<
    (),
    ProgramError,
>)
    requires
        old(ctx).buy_request@.vin == vin@,
        old(ctx).buy_request@.buyer == buyer,
        old(ctx).car@.vin == vin@,
        old(ctx).owner_pda@.authority == old(ctx).owner,
        old(ctx).buyer_pda@.authority == buyer,
    ensures
        match r {
            Ok(()) => {
                &&& old(ctx).buy_request@.status == BuyRequestStatus::Pending
                &&& old(ctx).buy_request@.seller == old(ctx).owner
                &&& old(ctx).car@.owner == old(ctx).owner
                &&& old(ctx).car@.is_for_sale
                &&& old(ctx).owner_pda@.verification_status == VerificationStatus::Verified
                &&& old(ctx).buyer_pda@.verification_status == VerificationStatus::Verified
                &&& old(ctx).owner_lamports + old(ctx).buy_request@.amount <= u64::MAX
                &&& final(ctx).owner_lamports == old(ctx).owner_lamports + old(
                    ctx,
                ).buy_request@.amount
                &&& final(ctx).car@ == (CarV {
                    owner: buyer,
                    is_for_sale: false,
                    sale_price: None::<u64>,
                    ..old(ctx).car@
                })
                &&& final(ctx).buy_request@ == (BuyRequestV {
                    status: BuyRequestStatus::Accepted,
                    ..old(ctx).buy_request@
                })
                &&& final(ctx).owner_pda == old(ctx).owner_pda
                &&& final(ctx).buyer_pda == old(ctx).buyer_pda
                &&& final(ctx).owner == old(ctx).owner
            },
            Err(e) => {
                &&& *final(ctx) == *old(ctx)
                &&& if old(ctx).buy_request@.status != BuyRequestStatus::Pending {
                    e == ProgramError::Car(CarError::InvalidBuyRequestStatus)
                } else if old(ctx).buy_request@.seller != old(ctx).owner {
                    e == ProgramError::Car(CarError::UnauthorizedAccess)
                } else if old(ctx).car@.owner != old(ctx).owner {
                    e == ProgramError::Car(CarError::UnauthorizedAccess)
                } else if !old(ctx).car@.is_for_sale {
                    e == ProgramError::Car(CarError::CarNotForSale)
                } else if old(ctx).owner_pda@.verification_status
                    != VerificationStatus::Verified {
                    e == ProgramError::Custom(CustomError::UserNotVerified)
                } else if old(ctx).buyer_pda@.verification_status
                    != VerificationStatus::Verified {
                    e == ProgramError::Custom(CustomError::UserNotVerified)
                } else {
                    &&& e == ProgramError::TransferFailed
                    &&& old(ctx).owner_lamports + old(ctx).buy_request@.amount > u64::MAX
                }
            },
        },
{
    if ctx.buy_request.status != BuyRequestStatus::Pending {
        return Err(ProgramError::Car(CarError::InvalidBuyRequestStatus));
    }
    if ctx.buy_request.seller != ctx.owner {
        return Err(ProgramError::Car(CarError::UnauthorizedAccess));
    }
    if ctx.car.owner != ctx.owner {
        return Err(ProgramError::Car(CarError::UnauthorizedAccess));
    }
    if !ctx.car.is_for_sale {
        return Err(ProgramError::Car(CarError::CarNotForSale));
    }
    if ctx.owner_pda.verification_status != VerificationStatus::Verified {
        return Err(ProgramError::Custom(CustomError::UserNotVerified));
    }
    if ctx.buyer_pda.verification_status != VerificationStatus::Verified {
        return Err(ProgramError::Custom(CustomError::UserNotVerified));
    }
    if ctx.buy_request.buyer != buyer {
        return Err(ProgramError::Car(CarError::UnauthorizedAccess));
    }
    let transfer_amount = ctx.buy_request.amount;
    if transfer_amount > u64::MAX - ctx.owner_lamports {
        return Err(ProgramError::TransferFailed);
    }
    ctx.owner_lamports = ctx.owner_lamports + transfer_amount;
    ctx.car.owner = buyer;
    ctx.car.is_for_sale = false;
    ctx.car.sale_price = None;
    ctx.buy_request.status = BuyRequestStatus::Accepted;
    Ok(())
}

} // verus!
