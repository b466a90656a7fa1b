use vstd::prelude::*;

use crate::errors::{CarError, ProgramError};
use crate::identity::Pubkey;
use crate::state::buy_request::{BuyRequest, BuyRequestStatus, BuyRequestV};
use crate::state::car::CarAccount;

verus! {

/// The accounts a rejection touches: the seller's identity, the vehicle, the
/// pending offer, and the buyer's fund balance that the refund reaches.
pub struct RejectBuyRequest {
    pub seller: Pubkey,
    pub car: CarAccount,
    pub buy_request: BuyRequest,
    pub buyer_lamports: u64,
}

/// Rejects a pending offer: the escrowed amount returns in full to the
/// buyer's balance and the request is marked rejected; the store then
/// deletes the closed record.
///
/// The signer must own the vehicle; whether it is still listed does not
/// matter, so an offer left pending after a sale can still be refunded. On
/// failure nothing changes.
pub fn handler(ctx: &mut RejectBuyRequest, vin: &Vec<u8>) -> (r: Result<(), ProgramError>)
    requires
        old(ctx).car@.vin == vin@,
        old(ctx).buy_request@.vin == vin@,
    ensures
        match r {
            Ok(()) => {
                &&& old(ctx).car@.owner == old(ctx).seller
                &&& old(ctx).buy_request@.status == BuyRequestStatus::Pending
                &&& old(ctx).buyer_lamports + old(ctx).buy_request@.amount <= u64::MAX
                &&& final(ctx).buyer_lamports == old(ctx).buyer_lamports + old(
                    ctx,
                ).buy_request@.amount
                &&& final(ctx).buy_request@ == (BuyRequestV {
                    status: BuyRequestStatus::Rejected,
                    ..old(ctx).buy_request@
                })
                &&& final(ctx).car == old(ctx).car
                &&& final(ctx).seller == old(ctx).seller
            },
            Err(e) => {
                &&& *final(ctx) == *old(ctx)
                &&& if old(ctx).car@.owner != old(ctx).seller {
                    e == ProgramError::Car(CarError::UnauthorizedAccess)
                } else if old(ctx).buy_request@.status != BuyRequestStatus::Pending {
                    e == ProgramError::Car(CarError::InvalidBuyRequestStatus)
                } else {
                    &&& e == ProgramError::TransferFailed
                    &&& old(ctx).buyer_lamports + old(ctx).buy_request@.amount > u64::MAX
                }
            },
        },
{
    if ctx.car.owner != ctx.seller {
        return Err(ProgramError::Car(CarError::UnauthorizedAccess));
    }
    if ctx.buy_request.status != BuyRequestStatus::Pending {
        return Err(ProgramError::Car(CarError::InvalidBuyRequestStatus));
    }
    let refund = ctx.buy_request.amount;
    if refund > u64::MAX - ctx.buyer_lamports {
        return Err(ProgramError::TransferFailed);
    }
    ctx.buyer_lamports = ctx.buyer_lamports + refund;
    ctx.buy_request.status = BuyRequestStatus::Rejected;
    Ok(())
}

} // verus!
