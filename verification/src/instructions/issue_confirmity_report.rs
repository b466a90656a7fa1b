use vstd::prelude::*;

use crate::errors::{ConfirmityReportError, ProgramError};
use crate::identity::Pubkey;
use crate::state::car::CarAccount;
use crate::state::confirmity_report::{
    ConformityReport, ConformityReportV, MAX_CONFORMITY_NOTES_LEN, MAX_CONFORMITY_URI_LEN,
    MAX_MODIFICATIONS_LEN, MAX_STAMP_LEN,
};
use crate::state::user::{UserAccount, UserRoles, VerificationStatus};

verus! {

/// The accounts a conformity issuance touches: the vehicle the report is
/// about, the issuing expert's profile, and the expert's signing identity.
pub struct IssueConformityReport {
    pub car: CarAccount,
    pub confirmity_expert: UserAccount,
    pub confirmity_expert_signer: Pubkey,
}

/// Issues a regulatory conformity report for the vehicle.
///
/// The issuer must hold the conformity-expert role on a verified profile and
/// the texts must fit their caps; the report location must fit the store's
/// fixed record, which the platform enforces before the request reaches this
/// handler. The report snapshots the vehicle and its current owner and
/// starts out unaccepted, timestamped with the platform clock reading `now`.
pub fn handler(
    ctx: &IssueConformityReport,
    report_id: u64,
    vin: Vec<u8>,
    conformity_status: bool,
    modifications: Vec<u8>,
    full_report_uri: Vec<u8>,
    mines_stamp: Vec<u8>,
    notes: Vec<u8>,
    now: i64,
) -> (r: Result<ConformityReport, ProgramError>)
    requires
        ctx.car@.vin == vin@,
        ctx.confirmity_expert@.authority == ctx.confirmity_expert_signer,
        full_report_uri@.len() <= MAX_CONFORMITY_URI_LEN,
    ensures
        match r {
            Ok(report) => {
                &&& ctx.confirmity_expert@.role == UserRoles::ConfirmityExpert
                &&& ctx.confirmity_expert@.verification_status == VerificationStatus::Verified
                &&& modifications@.len() <= MAX_MODIFICATIONS_LEN
                &&& mines_stamp@.len() <= MAX_STAMP_LEN
                &&& notes@.len() <= MAX_CONFORMITY_NOTES_LEN
                &&& report@ == (ConformityReportV {
                    report_id,
                    car: vin@,
                    confirmity_expert: ctx.confirmity_expert@.authority,
                    car_owner: ctx.car@.owner,
                    report_date: now,
                    conformity_status,
                    modifications: modifications@,
                    mines_stamp: mines_stamp@,
                    full_report_uri: full_report_uri@,
                    accepted_by_owner: false,
                    notes: notes@,
                })
            },
            Err(e) => {
                if ctx.confirmity_expert@.role != UserRoles::ConfirmityExpert {
                    e == ProgramError::Conformity(
                        ConfirmityReportError::NotAuthorizedConfirmityExpert,
                    )
                } else if ctx.confirmity_expert@.verification_status
                    != VerificationStatus::Verified {
                    e == ProgramError::Conformity(
                        ConfirmityReportError::ConfirmityExpertNotVerified,
                    )
                } else if modifications@.len() > MAX_MODIFICATIONS_LEN {
                    e == ProgramError::Conformity(ConfirmityReportError::ModificationsTooLong)
                } else if mines_stamp@.len() > MAX_STAMP_LEN {
                    e == ProgramError::Conformity(ConfirmityReportError::StampTooLong)
                } else {
                    &&& e == ProgramError::Conformity(ConfirmityReportError::NotesTooLong)
                    &&& notes@.len() > MAX_CONFORMITY_NOTES_LEN
                }
            },
        },
{
    if ctx.confirmity_expert.role != UserRoles::ConfirmityExpert {
        return Err(ProgramError::Conformity(ConfirmityReportError::NotAuthorizedConfirmityExpert));
    }
    if ctx.confirmity_expert.verification_status != VerificationStatus::Verified {
        return Err(ProgramError::Conformity(ConfirmityReportError::ConfirmityExpertNotVerified));
    }
    if modifications.len() > MAX_MODIFICATIONS_LEN {
        return Err(ProgramError::Conformity(ConfirmityReportError::ModificationsTooLong));
    }
    if mines_stamp.len() > MAX_STAMP_LEN {
        return Err(ProgramError::Conformity(ConfirmityReportError::StampTooLong));
    }
    if notes.len() > MAX_CONFORMITY_NOTES_LEN {
        return Err(ProgramError::Conformity(ConfirmityReportError::NotesTooLong));
    }
    Ok(ConformityReport {
        report_id,
        car: vin,
        confirmity_expert: ctx.confirmity_expert.authority,
        car_owner: ctx.car.owner,
        report_date: now,
        conformity_status,
        modifications,
        mines_stamp,
        full_report_uri,
        accepted_by_owner: false,
        notes,
    })
}

} // verus!
