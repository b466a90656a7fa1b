use vstd::prelude::*;

use crate::identity::Pubkey;
use crate::state::car::VIN_LEN;

verus! {

pub const MIN_CONDITION_SCORE: u8 = 1;
pub const MAX_CONDITION_SCORE: u8 = 10;
pub const MAX_REPORT_URI_LEN: usize = 256;
pub const MAX_REPORT_SUMMARY_LEN: usize = 512;
pub const MAX_REPORT_NOTES_LEN: usize = 200;

/// An inspection report, keyed in the store by (car, inspector, report_id).
///
/// Issued by a verified inspector, then approved exactly by the referenced
/// vehicle's current owner; approval is monotonic and never reversed.
#[derive(Debug, Clone, PartialEq, Eq)]
pub struct CarReport {
    pub report_id: u64,
    /// The identification number of the vehicle the report is about.
    pub car: Vec<u8>,
    /// The identity of the inspector that issued the report.
    pub inspector: Pubkey,
    /// The vehicle's owner at the time the report was issued.
    pub car_owner: Pubkey,
    pub report_date: i64,
    /// Overall condition, on a scale of 1 to 10.
    pub overall_condition: u8,
    /// Engine condition, on a scale of 1 to 10.
    pub engine_condition: u8,
    /// Body condition, on a scale of 1 to 10.
    pub body_condition: u8,
    pub full_report_uri: Vec<u8>,
    pub report_summary: Vec<u8>,
    pub approved_by_owner: bool,
    pub notes: Vec<u8>,
}

/// The mathematical value of a [`CarReport`].
#[verifier::ext_equal]
pub ghost struct CarReportV {
    pub report_id: u64,
    pub car: Seq<u8>,
    pub inspector: Pubkey,
    pub car_owner: Pubkey,
    pub report_date: i64,
    pub overall_condition: u8,
    pub engine_condition: u8,
    pub body_condition: u8,
    pub full_report_uri: Seq<u8>,
    pub report_summary: Seq<u8>,
    pub approved_by_owner: bool,
    pub notes: Seq<u8>,
}

impl CarReportV {
    /// The report fits the store's fixed-size record and its scores are on
    /// the 1-to-10 scale.
    pub open spec fn wf(self) -> bool {
        &&& self.car.len() == VIN_LEN
        &&& MIN_CONDITION_SCORE <= self.overall_condition <= MAX_CONDITION_SCORE
        &&& MIN_CONDITION_SCORE <= self.engine_condition <= MAX_CONDITION_SCORE
        &&& MIN_CONDITION_SCORE <= self.body_condition <= MAX_CONDITION_SCORE
        &&& self.full_report_uri.len() <= MAX_REPORT_URI_LEN
        &&& self.report_summary.len() <= MAX_REPORT_SUMMARY_LEN
        &&& self.notes.len() <= MAX_REPORT_NOTES_LEN
    }
}

impl CarReport {
    /// An owned copy of the record, with the same mathematical value.
    pub fn duplicate(&self) -> (r: CarReport)
        ensures
            r@ == self@,
    {
        let r = CarReport {
            report_id: self.report_id,
            car: crate::bytes::clone_bytes(&self.car),
            inspector: self.inspector,
            car_owner: self.car_owner,
            report_date: self.report_date,
            overall_condition: self.overall_condition,
            engine_condition: self.engine_condition,
            body_condition: self.body_condition,
            full_report_uri: crate::bytes::clone_bytes(&self.full_report_uri),
            report_summary: crate::bytes::clone_bytes(&self.report_summary),
            approved_by_owner: self.approved_by_owner,
            notes: crate::bytes::clone_bytes(&self.notes),
        };
        proof {
            assert(r@ =~= self@);
        }
        r
    }
}

impl View for CarReport {
    type V = CarReportV;

    open spec fn view(&self) -> CarReportV {
        CarReportV {
            report_id: self.report_id,
            car: self.car@,
            inspector: self.inspector,
            car_owner: self.car_owner,
            report_date: self.report_date,
            overall_condition: self.overall_condition,
            engine_condition: self.engine_condition,
            body_condition: self.body_condition,
            full_report_uri: self.full_report_uri@,
            report_summary: self.report_summary@,
            approved_by_owner: self.approved_by_owner,
            notes: self.notes@,
        }
    }
}

impl DeepView for CarReport {
    type V = CarReportV;

    open spec fn deep_view(&self) -> CarReportV {
        self.view()
    }
}

} // verus!
