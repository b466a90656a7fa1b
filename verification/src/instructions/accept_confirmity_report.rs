use vstd::prelude::*;

use crate::bytes::bytes_eq;
use crate::errors::{CarError, ConfirmityReportError, ProgramError};
use crate::identity::Pubkey;
use crate::state::car::CarAccount;
use crate::state::confirmity_report::{ConformityReport, ConformityReportV};

verus! {

/// The accounts a conformity acceptance touches: the report, the vehicle the
/// owner answers for, and the owner's signing identity.
pub struct AcceptConfirmityReport {
    pub conformity_report: ConformityReport,
    pub car: CarAccount,
    pub owner: Pubkey,
}

/// Accepts a conformity report on behalf of the vehicle's current owner.
///
/// The signer must own the vehicle supplied, and the report must reference
/// that same vehicle. Accepting an already-accepted report changes nothing
/// further.
pub fn handler(ctx: &mut AcceptConfirmityReport, report_id: u64) -> (r: Result<(), ProgramError>)
    requires
        old(ctx).conformity_report@.report_id == report_id,
    ensures
        match r {
            Ok(()) => {
                &&& old(ctx).car@.owner == old(ctx).owner
                &&& old(ctx).conformity_report@.car == old(ctx).car@.vin
                &&& final(ctx).conformity_report@ == (ConformityReportV {
                    accepted_by_owner: true,
                    ..old(ctx).conformity_report@
                })
                &&& final(ctx).car == old(ctx).car
                &&& final(ctx).owner == old(ctx).owner
            },
            Err(e) => {
                &&& *final(ctx) == *old(ctx)
                &&& if old(ctx).car@.owner != old(ctx).owner {
                    e == ProgramError::Car(CarError::UnauthorizedAccess)
                } else {
                    &&& e == ProgramError::Conformity(ConfirmityReportError::InvalidReport)
                    &&& old(ctx).conformity_report@.car != old(ctx).car@.vin
                }
            },
        },
{
    if ctx.car.owner != ctx.owner {
        return Err(ProgramError::Car(CarError::UnauthorizedAccess));
    }
    if !bytes_eq(&ctx.conformity_report.car, &ctx.car.vin) {
        return Err(ProgramError::Conformity(ConfirmityReportError::InvalidReport));
    }
    ctx.conformity_report.accepted_by_owner = true;
    Ok(())
}

} // verus!
