use vstd::prelude::*;

use crate::errors::{CustomError, ProgramError};
use crate::identity::Pubkey;
use crate::state::car::{CarAccount, CarV};

verus! {

/// The accounts a listing withdrawal touches: the vehicle record and the
/// identity signing as its owner.
pub struct CancelCarForSale {
    pub car_account: CarAccount,
    pub owner: Pubkey,
}

/// Withdraws the vehicle from sale and clears its price.
///
/// Only the vehicle's current owner may withdraw it. The record handed in is
/// the one the store keeps under `vin`.
pub fn handler(ctx: &mut CancelCarForSale, vin: &Vec<u8>) -> (r: Result<(), ProgramError>)
    requires
        old(ctx).car_account@.vin == vin@,
    ensures
        match r {
            Ok(()) => {
                &&& old(ctx).owner == old(ctx).car_account@.owner
                &&& final(ctx).car_account@ == (CarV {
                    is_for_sale: false,
                    sale_price: None::<u64>,
                    ..old(ctx).car_account@
                })
                &&& final(ctx).owner == old(ctx).owner
            },
            Err(e) => {
                &&& *final(ctx) == *old(ctx)
                &&& e == ProgramError::Custom(CustomError::NotCarOwner)
                &&& old(ctx).owner != old(ctx).car_account@.owner
            },
        },
{
    if ctx.owner != ctx.car_account.owner {
        return Err(ProgramError::Custom(CustomError::NotCarOwner));
    }
    ctx.car_account.is_for_sale = false;
    ctx.car_account.sale_price = None;
    Ok(())
}

} // verus!
