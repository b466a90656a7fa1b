use vstd::prelude::*;

use crate::identity::Pubkey;
use crate::state::car::VIN_LEN;

verus! {

pub const MAX_MODIFICATIONS_LEN: usize = 256;
pub const MAX_STAMP_LEN: usize = 256;
pub const MAX_CONFORMITY_URI_LEN: usize = 256;
pub const MAX_CONFORMITY_NOTES_LEN: usize = 512;

/// A regulatory conformity report, keyed in the store by
/// (car, confirmity_expert, report_id).
///
/// Issued by a verified conformity expert, then accepted exactly by the
/// referenced vehicle's current owner; acceptance is monotonic.
#[derive(Debug, Clone, PartialEq, Eq)]
pub struct ConformityReport {
    pub report_id: u64,
    /// The identification number of the vehicle the report is about.
    pub car: Vec<u8>,
    /// The identity of the expert that issued the report.
    pub confirmity_expert: Pubkey,
    /// The vehicle's owner at the time the report was issued.
    pub car_owner: Pubkey,
    pub report_date: i64,
    pub conformity_status: bool,
    pub modifications: Vec<u8>,
    pub mines_stamp: Vec<u8>,
    pub full_report_uri: Vec<u8>,
    pub accepted_by_owner: bool,
    pub notes: Vec<u8>,
}

/// The mathematical value of a [`ConformityReport`].
#[verifier::ext_equal]
pub ghost struct ConformityReportV {
    pub report_id: u64,
    pub car: Seq<u8>,
    pub confirmity_expert: Pubkey,
    pub car_owner: Pubkey,
    pub report_date: i64,
    pub conformity_status: bool,
    pub modifications: Seq<u8>,
    pub mines_stamp: Seq<u8>,
    pub full_report_uri: Seq<u8>,
    pub accepted_by_owner: bool,
    pub notes: Seq<u8>,
}

impl ConformityReportV {
    /// The report fits the store's fixed-size record.
    pub open spec fn wf(self) -> bool {
        &&& self.car.len() == VIN_LEN
        &&& self.modifications.len() <= MAX_MODIFICATIONS_LEN
        &&& self.mines_stamp.len() <= MAX_STAMP_LEN
        &&& self.full_report_uri.len() <= MAX_CONFORMITY_URI_LEN
        &&& self.notes.len() <= MAX_CONFORMITY_NOTES_LEN
    }
}

impl ConformityReport {
    /// An owned copy of the record, with the same mathematical value.
    pub fn duplicate(&self) -> (r: ConformityReport)
        ensures
            r@ == self@,
    {
        let r = ConformityReport {
            report_id: self.report_id,
            car: crate::bytes::clone_bytes(&self.car),
            confirmity_expert: self.confirmity_expert,
            car_owner: self.car_owner,
            report_date: self.report_date,
            conformity_status: self.conformity_status,
            modifications: crate::bytes::clone_bytes(&self.modifications),
            mines_stamp: crate::bytes::clone_bytes(&self.mines_stamp),
            full_report_uri: crate::bytes::clone_bytes(&self.full_report_uri),
            accepted_by_owner: self.accepted_by_owner,
            notes: crate::bytes::clone_bytes(&self.notes),
        };
        proof {
            assert(r@ =~= self@);
        }
        r
    }
}

impl View for ConformityReport {
    type V = ConformityReportV;

    open spec fn view(&self) -> ConformityReportV {
        ConformityReportV {
            report_id: self.report_id,
            car: self.car@,
            confirmity_expert: self.confirmity_expert,
            car_owner: self.car_owner,
            report_date: self.report_date,
            conformity_status: self.conformity_status,
            modifications: self.modifications@,
            mines_stamp: self.mines_stamp@,
            full_report_uri: self.full_report_uri@,
            accepted_by_owner: self.accepted_by_owner,
            notes: self.notes@,
        }
    }
}

impl DeepView for ConformityReport {
    type V = ConformityReportV;

    open spec fn deep_view(&self) -> ConformityReportV {
        self.view()
    }
}

} // verus!
