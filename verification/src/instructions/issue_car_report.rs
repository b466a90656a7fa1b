use vstd::prelude::*;

use crate::errors::{CarReportError, ProgramError};
use crate::identity::Pubkey;
use crate::state::car::CarAccount;
use crate::state::car_report::{
    CarReport, CarReportV, MAX_CONDITION_SCORE, MAX_REPORT_NOTES_LEN, MAX_REPORT_SUMMARY_LEN,
    MAX_REPORT_URI_LEN, MIN_CONDITION_SCORE,
};
use crate::state::user::{UserAccount, UserRoles, VerificationStatus};

verus! {

/// The accounts a report issuance touches: the vehicle the report is about,
/// the issuing inspector's profile, and the inspector's signing identity.
pub struct IssueCarReport {
    pub car: CarAccount,
    pub inspector: UserAccount,
    pub inspector_signer: Pubkey,
}

/// Issues an inspection report for the vehicle.
///
/// The issuer must hold the inspector role on a verified profile; the three
/// condition scores must lie on the 1-to-10 scale and the texts within their
/// caps. The report snapshots the vehicle and its current owner and starts
/// out unapproved, timestamped with the platform clock reading `now`.
pub fn handler(
    ctx: &IssueCarReport,
    report_id: u64,
    vin: Vec<u8>,
    overall_condition: u8,
    engine_condition: u8,
    body_condition: u8,
    full_report_uri: Vec<u8>,
    report_summary: Vec<u8>,
    notes: Vec<u8>,
    now: i64,
) -> (r: Result<CarReport, ProgramError>)
    requires
        ctx.car@.vin == vin@,
        ctx.inspector@.authority == ctx.inspector_signer,
    ensures
        match r {
            Ok(report) => {
                &&& ctx.inspector@.role == UserRoles::Inspector
                &&& ctx.inspector@.verification_status == VerificationStatus::Verified
                &&& MIN_CONDITION_SCORE <= overall_condition <= MAX_CONDITION_SCORE
                &&& MIN_CONDITION_SCORE <= engine_condition <= MAX_CONDITION_SCORE
                &&& MIN_CONDITION_SCORE <= body_condition <= MAX_CONDITION_SCORE
                &&& notes@.len() <= MAX_REPORT_NOTES_LEN
                &&& full_report_uri@.len() <= MAX_REPORT_URI_LEN
                &&& report_summary@.len() <= MAX_REPORT_SUMMARY_LEN
                &&& report@ == (CarReportV {
                    report_id,
                    car: vin@,
                    inspector: ctx.inspector@.authority,
                    car_owner: ctx.car@.owner,
                    report_date: now,
                    overall_condition,
                    engine_condition,
                    body_condition,
                    full_report_uri: full_report_uri@,
                    report_summary: report_summary@,
                    approved_by_owner: false,
                    notes: notes@,
                })
            },
            Err(e) => {
                if ctx.inspector@.role != UserRoles::Inspector {
                    e == ProgramError::Report(CarReportError::NotAuthorizedInspector)
                } else if ctx.inspector@.verification_status != VerificationStatus::Verified {
                    e == ProgramError::Report(CarReportError::InspectorNotVerified)
                } else if !(MIN_CONDITION_SCORE <= overall_condition <= MAX_CONDITION_SCORE) {
                    e == ProgramError::Report(CarReportError::InvalidConditionScore)
                } else if !(MIN_CONDITION_SCORE <= engine_condition <= MAX_CONDITION_SCORE) {
                    e == ProgramError::Report(CarReportError::InvalidConditionScore)
                } else if !(MIN_CONDITION_SCORE <= body_condition <= MAX_CONDITION_SCORE) {
                    e == ProgramError::Report(CarReportError::InvalidConditionScore)
                } else if notes@.len() > MAX_REPORT_NOTES_LEN {
                    e == ProgramError::Report(CarReportError::NotesTooLong)
                } else if full_report_uri@.len() > MAX_REPORT_URI_LEN {
                    e == ProgramError::Report(CarReportError::UriTooLong)
                } else {
                    &&& e == ProgramError::Report(CarReportError::SummaryTooLong)
                    &&& report_summary@.len() > MAX_REPORT_SUMMARY_LEN
                }
            },
        },
{
    if ctx.inspector.role != UserRoles::Inspector {
        return Err(ProgramError::Report(CarReportError::NotAuthorizedInspector));
    }
    if ctx.inspector.verification_status != VerificationStatus::Verified {
        return Err(ProgramError::Report(CarReportError::InspectorNotVerified));
    }
    if overall_condition < MIN_CONDITION_SCORE || overall_condition > MAX_CONDITION_SCORE {
        return Err(ProgramError::Report(CarReportError::InvalidConditionScore));
    }
    if engine_condition < MIN_CONDITION_SCORE || engine_condition > MAX_CONDITION_SCORE {
        return Err(ProgramError::Report(CarReportError::InvalidConditionScore));
    }
    if body_condition < MIN_CONDITION_SCORE || body_condition > MAX_CONDITION_SCORE {
        return Err(ProgramError::Report(CarReportError::InvalidConditionScore));
    }
    if notes.len() > MAX_REPORT_NOTES_LEN {
        return Err(ProgramError::Report(CarReportError::NotesTooLong));
    }
    if full_report_uri.len() > MAX_REPORT_URI_LEN {
        return Err(ProgramError::Report(CarReportError::UriTooLong));
    }
    if report_summary.len() > MAX_REPORT_SUMMARY_LEN {
        return Err(ProgramError::Report(CarReportError::SummaryTooLong));
    }
    Ok(CarReport {
        report_id,
        car: vin,
        inspector: ctx.inspector.authority,
        car_owner: ctx.car.owner,
        report_date: now,
        overall_condition,
        engine_condition,
        body_condition,
        full_report_uri,
        report_summary,
        approved_by_owner: false,
        notes,
    })
}

} // verus!
