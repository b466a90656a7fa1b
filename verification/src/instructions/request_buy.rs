use vstd::prelude::*;

use crate::errors::{CarError, CustomError, ProgramError};
use crate::identity::Pubkey;
use crate::state::buy_request::{BuyRequest, BuyRequestStatus, BuyRequestV, MAX_MESSAGE_LEN};
use crate::state::car::CarAccount;
use crate::state::user::{UserAccount, VerificationStatus};

verus! {

/// The accounts a new offer touches: the vehicle on offer, the buyer's
/// profile, the buyer's identity, and the buyer's fund balance.
pub struct SendBuyRequest {
    pub car: CarAccount,
    pub buyer_pda: UserAccount,
    pub buyer: Pubkey,
    pub buyer_lamports: u64,
}

/// Creates an escrowed offer for the vehicle at its listed price.
///
/// The vehicle must be listed with a price, the buyer's profile verified,
/// and the buyer must not own the vehicle. On success the full price leaves
/// the buyer's balance into the custody of the returned pending request,
/// which snapshots the current owner as seller; on failure nothing moves.
pub fn handler(
    ctx: &mut SendBuyRequest,
    vin: Vec<u8>,
    message: Option<Vec<u8>>,
    now: i64,
) -> (r: Result<BuyRequest, ProgramError>)
    requires
        old(ctx).car@.vin == vin@,
        old(ctx).buyer_pda@.authority == old(ctx).buyer,
        message matches Some(m) ==> m@.len() <= MAX_MESSAGE_LEN,
    ensures
        match r {
            Ok(req) => {
                &&& old(ctx).car@.is_for_sale
                &&& old(ctx).car@.sale_price is Some
                &&& old(ctx).buyer_pda@.verification_status == VerificationStatus::Verified
                &&& old(ctx).buyer != old(ctx).car@.owner
                &&& old(ctx).buyer_lamports >= old(ctx).car@.sale_price->0
                &&& req@ == (BuyRequestV {
                    vin: vin@,
                    buyer: old(ctx).buyer,
                    seller: old(ctx).car@.owner,
                    amount: old(ctx).car@.sale_price->0,
                    status: BuyRequestStatus::Pending,
                    created_at: now,
                    message: message.deep_view(),
                })
                &&& final(ctx).buyer_lamports == old(ctx).buyer_lamports - old(
                    ctx,
                ).car@.sale_price->0
                &&& final(ctx).car == old(ctx).car
                &&& final(ctx).buyer_pda == old(ctx).buyer_pda
                &&& final(ctx).buyer == old(ctx).buyer
            },
            Err(e) => {
                &&& *final(ctx) == *old(ctx)
                &&& if !old(ctx).car@.is_for_sale {
                    e == ProgramError::Car(CarError::CarNotForSale)
                } else if old(ctx).car@.sale_price is None {
                    e == ProgramError::Car(CarError::SalePriceNotSet)
                } else if old(ctx).buyer_pda@.verification_status
                    != VerificationStatus::Verified {
                    e == ProgramError::Custom(CustomError::UserNotVerified)
                } else if old(ctx).buyer == old(ctx).car@.owner {
                    e == ProgramError::Car(CarError::CannotBuyOwnCar)
                } else {
                    &&& e == ProgramError::TransferFailed
                    &&& old(ctx).buyer_lamports < old(ctx).car@.sale_price->0
                }
            },
        },
{
    if !ctx.car.is_for_sale {
        return Err(ProgramError::Car(CarError::CarNotForSale));
    }
    let transfer_amount = match ctx.car.sale_price {
        Some(p) => p,
        None => { return Err(ProgramError::Car(CarError::SalePriceNotSet)) },
    };
    if ctx.buyer_pda.verification_status != VerificationStatus::Verified {
        return Err(ProgramError::Custom(CustomError::UserNotVerified));
    }
    if ctx.buyer == ctx.car.owner {
        return Err(ProgramError::Car(CarError::CannotBuyOwnCar));
    }
    if ctx.buyer_lamports < transfer_amount {
        return Err(ProgramError::TransferFailed);
    }
    ctx.buyer_lamports = ctx.buyer_lamports - transfer_amount;
    Ok(BuyRequest {
        vin,
        buyer: ctx.buyer,
        seller: ctx.car.owner,
        amount: transfer_amount,
        status: BuyRequestStatus::Pending,
        created_at: now,
        message,
    })
}

} // verus!
