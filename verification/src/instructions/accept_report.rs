use vstd::prelude::*;

use crate::errors::{CarError, CarReportError, ProgramError};
use crate::identity::Pubkey;
use crate::state::car::CarAccount;
use crate::state::car_report::{CarReport, CarReportV};

verus! {

/// The accounts a report approval touches: the report, the vehicle the owner
/// answers for, and the owner's signing identity.
pub struct AcceptReport {
    pub report: CarReport,
    pub car: CarAccount,
    pub owner: Pubkey,
}

/// Approves an inspection report on behalf of the vehicle's current owner.
///
/// The signer must own the vehicle supplied, and the report must reference
/// that same vehicle. Approving an already-approved report changes nothing
/// further.
pub fn handler(ctx: &mut AcceptReport, report_id: u64) -> (r: Result<(), ProgramError>)
    requires
        old(ctx).report@.report_id == report_id,
    ensures
        match r {
            Ok(()) => {
                &&& old(ctx).car@.owner == old(ctx).owner
                &&& old(ctx).report@.car == old(ctx).car@.vin
                &&& final(ctx).report@ == (CarReportV {
                    approved_by_owner: true,
                    ..old(ctx).report@
                })
                &&& final(ctx).car == old(ctx).car
                &&& final(ctx).owner == old(ctx).owner
            },
            Err(e) => {
                &&& *final(ctx) == *old(ctx)
                &&& if old(ctx).car@.owner != old(ctx).owner {
                    e == ProgramError::Car(CarError::UnauthorizedAccess)
                } else {
                    &&& e == ProgramError::Report(CarReportError::InvalidReport)
                    &&& old(ctx).report@.car != old(ctx).car@.vin
                }
            },
        },
{
    if ctx.car.owner != ctx.owner {
        return Err(ProgramError::Car(CarError::UnauthorizedAccess));
    }
    if !crate::bytes::bytes_eq(&ctx.report.car, &ctx.car.vin) {
        return Err(ProgramError::Report(CarReportError::InvalidReport));
    }
    ctx.report.approved_by_owner = true;
    Ok(())
}

} // verus!
