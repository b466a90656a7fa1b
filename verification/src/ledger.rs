use vstd::prelude::*;

use crate::bytes::bytes_eq;
use crate::errors::ProgramError;
use crate::identity::Pubkey;
use crate::state::buy_request::{BuyRequest, BuyRequestStatus, BuyRequestV, MAX_MESSAGE_LEN};
use crate::state::car::{CarAccount, CarV};
use crate::state::car_report::{
    CarReport, CarReportV, MAX_CONDITION_SCORE, MAX_REPORT_NOTES_LEN, MAX_REPORT_SUMMARY_LEN,
    MAX_REPORT_URI_LEN, MIN_CONDITION_SCORE,
};
use crate::state::confirmity_report::{
    ConformityReport, ConformityReportV, MAX_CONFORMITY_NOTES_LEN, MAX_CONFORMITY_URI_LEN,
    MAX_MODIFICATIONS_LEN, MAX_STAMP_LEN,
};
use crate::errors::{CarError, CarReportError, ConfirmityReportError, CustomError, ErrorCode};
use crate::instructions::accept_buy_request::AcceptBuyRequest;
use crate::instructions::accept_confirmity_report::AcceptConfirmityReport;
use crate::instructions::accept_report::AcceptReport;
use crate::instructions::cancel_for_sale::CancelCarForSale;
use crate::instructions::issue_car_report::IssueCarReport;
use crate::instructions::issue_confirmity_report::IssueConformityReport;
use crate::instructions::register_car::RegisterCar;
use crate::instructions::register_user::RegisterUser;
use crate::instructions::reject_buy_request::RejectBuyRequest;
use crate::instructions::request_buy::SendBuyRequest;
use crate::instructions::set_for_sale::SetCarForSale;
use crate::instructions::transfer_car::TransferCar;
use crate::instructions::verify_user::VerifyUser;
use crate::state::car::{
    InspectionStatus, MAX_BRAND_LEN, MAX_CAR_ID_LEN, MAX_COLOR_LEN, MAX_ENGINE_NUMBER_LEN,
    MAX_INSPECTION_REPORT_LEN, MAX_MODEL_LEN, MAX_YEAR, MIN_YEAR, VIN_LEN,
};
use crate::state::user::{
    UserAccount, UserRoles, UserV, VerificationStatus, MAX_DATA_URI_LEN, MAX_ENCRYPTED_KEY_LEN,
    MAX_USER_NAME_LEN,
};

verus! {

/// A fund balance the platform keeps for one identity.
#[derive(Clone, Copy, PartialEq, Eq, Structural, Debug)]
pub struct Balance {
    pub key: Pubkey,
    pub lamports: u64,
}

/// The registry's whole state: the keyed record store and the fund balances,
/// standing in for the host platform's account space.
///
/// Records are addressed by keys derived from stable fields: a profile by
/// (authority, user_name), a vehicle by its identification number, an offer
/// by (vin, buyer), a report by (car, issuer, report_id). Each operation is
/// one transaction: it either commits in full or returns an error and leaves
/// the ledger exactly as it was.
pub struct Ledger {
    /// The single government identity, configured when the registry is set up.
    pub government: Pubkey,
    pub users: Vec<UserAccount>,
    pub cars: Vec<CarAccount>,
    pub buy_requests: Vec<BuyRequest>,
    pub car_reports: Vec<CarReport>,
    pub conformity_reports: Vec<ConformityReport>,
    pub balances: Vec<Balance>,
}

/// The mathematical value of a [`Ledger`].
#[verifier::ext_equal]
pub ghost struct LedgerV {
    pub government: Pubkey,
    pub users: Seq<UserV>,
    pub cars: Seq<CarV>,
    pub buy_requests: Seq<BuyRequestV>,
    pub car_reports: Seq<CarReportV>,
    pub conformity_reports: Seq<ConformityReportV>,
    pub balances: Seq<Balance>,
}

/// The values of a sequence of records, elementwise.
pub open spec fn dv<T: DeepView>(s: Seq<T>) -> Seq<T::V> {
    Seq::new(s.len(), |i: int| s[i].deep_view())
}

impl View for Ledger {
    type V = LedgerV;

    open spec fn view(&self) -> LedgerV {
        LedgerV {
            government: self.government,
            users: dv(self.users@),
            cars: dv(self.cars@),
            buy_requests: dv(self.buy_requests@),
            car_reports: dv(self.car_reports@),
            conformity_reports: dv(self.conformity_reports@),
            balances: self.balances@,
        }
    }
}

/// The record at index `i` carries the profile key (authority, name).
pub open spec fn user_key_at(s: Seq<UserV>, authority: Pubkey, name: Seq<u8>, i: int) -> bool {
    &&& 0 <= i < s.len()
    &&& s[i].authority == authority
    &&& s[i].user_name == name
}

/// The record at index `i` carries the vehicle key `vin`.
pub open spec fn car_key_at(s: Seq<CarV>, vin: Seq<u8>, i: int) -> bool {
    &&& 0 <= i < s.len()
    &&& s[i].vin == vin
}

/// The record at index `i` carries the offer key (vin, buyer).
pub open spec fn request_key_at(s: Seq<BuyRequestV>, vin: Seq<u8>, buyer: Pubkey, i: int) -> bool {
    &&& 0 <= i < s.len()
    &&& s[i].vin == vin
    &&& s[i].buyer == buyer
}

/// The record at index `i` carries the report key (car, inspector, report_id).
pub open spec fn car_report_key_at(
    s: Seq<CarReportV>,
    car: Seq<u8>,
    inspector: Pubkey,
    report_id: u64,
    i: int,
) -> bool {
    &&& 0 <= i < s.len()
    &&& s[i].car == car
    &&& s[i].inspector == inspector
    &&& s[i].report_id == report_id
}

/// The record at index `i` carries the report key (car, expert, report_id).
pub open spec fn conformity_key_at(
    s: Seq<ConformityReportV>,
    car: Seq<u8>,
    expert: Pubkey,
    report_id: u64,
    i: int,
) -> bool {
    &&& 0 <= i < s.len()
    &&& s[i].car == car
    &&& s[i].confirmity_expert == expert
    &&& s[i].report_id == report_id
}

/// The entry at index `i` belongs to identity `key`.
pub open spec fn balance_key_at(s: Seq<Balance>, key: Pubkey, i: int) -> bool {
    &&& 0 <= i < s.len()
    &&& s[i].key == key
}

/// No two profiles share a key.
pub open spec fn users_unique_keys(s: Seq<UserV>) -> bool {
    forall|a: Pubkey, n: Seq<u8>, i: int, j: int|
        user_key_at(s, a, n, i) && user_key_at(s, a, n, j) ==> i == j
}

/// No two vehicles share an identification number.
pub open spec fn cars_unique_keys(s: Seq<CarV>) -> bool {
    forall|v: Seq<u8>, i: int, j: int| car_key_at(s, v, i) && car_key_at(s, v, j) ==> i == j
}

/// No two offers share a key.
pub open spec fn requests_unique_keys(s: Seq<BuyRequestV>) -> bool {
    forall|v: Seq<u8>, b: Pubkey, i: int, j: int|
        request_key_at(s, v, b, i) && request_key_at(s, v, b, j) ==> i == j
}

/// No two inspection reports share a key.
pub open spec fn car_reports_unique_keys(s: Seq<CarReportV>) -> bool {
    forall|c: Seq<u8>, p: Pubkey, r: u64, i: int, j: int|
        car_report_key_at(s, c, p, r, i) && car_report_key_at(s, c, p, r, j) ==> i == j
}

/// No two conformity reports share a key.
pub open spec fn conformity_unique_keys(s: Seq<ConformityReportV>) -> bool {
    forall|c: Seq<u8>, p: Pubkey, r: u64, i: int, j: int|
        conformity_key_at(s, c, p, r, i) && conformity_key_at(s, c, p, r, j) ==> i == j
}

/// No two balance entries belong to one identity.
pub open spec fn balances_unique_keys(s: Seq<Balance>) -> bool {
    forall|k: Pubkey, i: int, j: int|
        balance_key_at(s, k, i) && balance_key_at(s, k, j) ==> i == j
}

impl LedgerV {
    pub open spec fn has_user(self, authority: Pubkey, name: Seq<u8>) -> bool {
        exists|i: int| user_key_at(self.users, authority, name, i)
    }

    pub open spec fn user_idx(self, authority: Pubkey, name: Seq<u8>) -> int {
        choose|i: int| user_key_at(self.users, authority, name, i)
    }

    pub open spec fn user_at(self, authority: Pubkey, name: Seq<u8>) -> UserV {
        self.users[self.user_idx(authority, name)]
    }

    pub open spec fn has_car(self, vin: Seq<u8>) -> bool {
        exists|i: int| car_key_at(self.cars, vin, i)
    }

    pub open spec fn car_idx(self, vin: Seq<u8>) -> int {
        choose|i: int| car_key_at(self.cars, vin, i)
    }

    pub open spec fn car_at(self, vin: Seq<u8>) -> CarV {
        self.cars[self.car_idx(vin)]
    }

    pub open spec fn has_request(self, vin: Seq<u8>, buyer: Pubkey) -> bool {
        exists|i: int| request_key_at(self.buy_requests, vin, buyer, i)
    }

    pub open spec fn request_idx(self, vin: Seq<u8>, buyer: Pubkey) -> int {
        choose|i: int| request_key_at(self.buy_requests, vin, buyer, i)
    }

    pub open spec fn request_at(self, vin: Seq<u8>, buyer: Pubkey) -> BuyRequestV {
        self.buy_requests[self.request_idx(vin, buyer)]
    }

    pub open spec fn has_car_report(
        self,
        car: Seq<u8>,
        inspector: Pubkey,
        report_id: u64,
    ) -> bool {
        exists|i: int| car_report_key_at(self.car_reports, car, inspector, report_id, i)
    }

    pub open spec fn car_report_idx(self, car: Seq<u8>, inspector: Pubkey, report_id: u64) -> int {
        choose|i: int| car_report_key_at(self.car_reports, car, inspector, report_id, i)
    }

    pub open spec fn car_report_at(
        self,
        car: Seq<u8>,
        inspector: Pubkey,
        report_id: u64,
    ) -> CarReportV {
        self.car_reports[self.car_report_idx(car, inspector, report_id)]
    }

    pub open spec fn has_conformity_report(
        self,
        car: Seq<u8>,
        expert: Pubkey,
        report_id: u64,
    ) -> bool {
        exists|i: int| conformity_key_at(self.conformity_reports, car, expert, report_id, i)
    }

    pub open spec fn conformity_report_idx(
        self,
        car: Seq<u8>,
        expert: Pubkey,
        report_id: u64,
    ) -> int {
        choose|i: int| conformity_key_at(self.conformity_reports, car, expert, report_id, i)
    }

    pub open spec fn conformity_report_at(
        self,
        car: Seq<u8>,
        expert: Pubkey,
        report_id: u64,
    ) -> ConformityReportV {
        self.conformity_reports[self.conformity_report_idx(car, expert, report_id)]
    }

    pub open spec fn has_balance(self, key: Pubkey) -> bool {
        exists|i: int| balance_key_at(self.balances, key, i)
    }

    pub open spec fn balance_idx(self, key: Pubkey) -> int {
        choose|i: int| balance_key_at(self.balances, key, i)
    }

    /// The funds the platform holds for `key`; an identity without an entry
    /// holds nothing.
    pub open spec fn balance_of(self, key: Pubkey) -> u64 {
        if self.has_balance(key) {
            self.balances[self.balance_idx(key)].lamports
        } else {
            0
        }
    }

    /// The balance entries after crediting `amount` to `key`: the entry is
    /// raised in place, or appended if the identity had none.
    pub open spec fn balances_credited(self, key: Pubkey, amount: u64) -> Seq<Balance> {
        if self.has_balance(key) {
            self.balances.update(
                self.balance_idx(key),
                Balance { key, lamports: (self.balance_of(key) + amount) as u64 },
            )
        } else {
            self.balances.push(Balance { key, lamports: amount })
        }
    }

    /// The ledger after a successful acceptance of the offer at (vin, buyer):
    /// in one step the request closes as accepted, the vehicle passes to the
    /// buyer and leaves sale, and the escrowed amount reaches the owner.
    pub open spec fn accept_outcome(self, vin: Seq<u8>, buyer: Pubkey) -> LedgerV {
        let req = self.request_at(vin, buyer);
        let car = self.car_at(vin);
        LedgerV {
            buy_requests: self.buy_requests.update(
                self.request_idx(vin, buyer),
                BuyRequestV { status: BuyRequestStatus::Accepted, ..req },
            ),
            cars: self.cars.update(
                self.car_idx(vin),
                CarV { owner: buyer, is_for_sale: false, sale_price: None::<u64>, ..car },
            ),
            balances: self.balances_credited(self.car_at(vin).owner, req.amount),
            ..self
        }
    }

    /// The ledger after a successful rejection of the offer at (vin, buyer):
    /// in one step the escrowed amount returns to the buyer and the request
    /// record is deleted.
    pub open spec fn reject_outcome(self, vin: Seq<u8>, buyer: Pubkey) -> LedgerV {
        let req = self.request_at(vin, buyer);
        LedgerV {
            buy_requests: self.buy_requests.remove(self.request_idx(vin, buyer)),
            balances: self.balances_credited(buyer, req.amount),
            ..self
        }
    }

    /// Every stored record fits its fixed-size store record.
    pub open spec fn records_wf(self) -> bool {
        &&& forall|i: int| 0 <= i < self.users.len() ==> (#[trigger] self.users[i]).wf()
        &&& forall|i: int| 0 <= i < self.cars.len() ==> (#[trigger] self.cars[i]).wf()
        &&& forall|i: int|
            0 <= i < self.buy_requests.len() ==> (#[trigger] self.buy_requests[i]).wf()
        &&& forall|i: int|
            0 <= i < self.car_reports.len() ==> (#[trigger] self.car_reports[i]).wf()
        &&& forall|i: int|
            0 <= i < self.conformity_reports.len() ==> (
            #[trigger] self.conformity_reports[i]).wf()
    }

    /// The store's invariant: every record well formed and every key unique.
    pub open spec fn wf(self) -> bool {
        &&& self.records_wf()
        &&& users_unique_keys(self.users)
        &&& cars_unique_keys(self.cars)
        &&& requests_unique_keys(self.buy_requests)
        &&& car_reports_unique_keys(self.car_reports)
        &&& conformity_unique_keys(self.conformity_reports)
        &&& balances_unique_keys(self.balances)
    }
}

/// A record that matches a profile key pins down the index the key resolves
/// to, once keys are unique.
pub proof fn lemma_user_found(l: LedgerV, a: Pubkey, n: Seq<u8>, i: int)
    requires
        users_unique_keys(l.users),
        user_key_at(l.users, a, n, i),
    ensures
        l.has_user(a, n),
        l.user_idx(a, n) == i,
{
    assert(l.has_user(a, n));
    let j = l.user_idx(a, n);
    assert(user_key_at(l.users, a, n, j));
}

/// A record that matches a vehicle key pins down the index the key resolves
/// to, once keys are unique.
pub proof fn lemma_car_found(l: LedgerV, v: Seq<u8>, i: int)
    requires
        cars_unique_keys(l.cars),
        car_key_at(l.cars, v, i),
    ensures
        l.has_car(v),
        l.car_idx(v) == i,
{
    assert(l.has_car(v));
    let j = l.car_idx(v);
    assert(car_key_at(l.cars, v, j));
}

/// A record that matches an offer key pins down the index the key resolves
/// to, once keys are unique.
pub proof fn lemma_request_found(l: LedgerV, v: Seq<u8>, b: Pubkey, i: int)
    requires
        requests_unique_keys(l.buy_requests),
        request_key_at(l.buy_requests, v, b, i),
    ensures
        l.has_request(v, b),
        l.request_idx(v, b) == i,
{
    assert(l.has_request(v, b));
    let j = l.request_idx(v, b);
    assert(request_key_at(l.buy_requests, v, b, j));
}

/// A record that matches an inspection-report key pins down the index the
/// key resolves to, once keys are unique.
pub proof fn lemma_car_report_found(l: LedgerV, c: Seq<u8>, p: Pubkey, r: u64, i: int)
    requires
        car_reports_unique_keys(l.car_reports),
        car_report_key_at(l.car_reports, c, p, r, i),
    ensures
        l.has_car_report(c, p, r),
        l.car_report_idx(c, p, r) == i,
{
    assert(l.has_car_report(c, p, r));
    let j = l.car_report_idx(c, p, r);
    assert(car_report_key_at(l.car_reports, c, p, r, j));
}

/// A record that matches a conformity-report key pins down the index the key
/// resolves to, once keys are unique.
pub proof fn lemma_conformity_found(l: LedgerV, c: Seq<u8>, p: Pubkey, r: u64, i: int)
    requires
        conformity_unique_keys(l.conformity_reports),
        conformity_key_at(l.conformity_reports, c, p, r, i),
    ensures
        l.has_conformity_report(c, p, r),
        l.conformity_report_idx(c, p, r) == i,
{
    assert(l.has_conformity_report(c, p, r));
    let j = l.conformity_report_idx(c, p, r);
    assert(conformity_key_at(l.conformity_reports, c, p, r, j));
}

/// An entry that matches a balance key pins down the index the key resolves
/// to, once keys are unique.
pub proof fn lemma_balance_found(l: LedgerV, k: Pubkey, i: int)
    requires
        balances_unique_keys(l.balances),
        balance_key_at(l.balances, k, i),
    ensures
        l.has_balance(k),
        l.balance_idx(k) == i,
        l.balance_of(k) == l.balances[i].lamports,
{
    assert(l.has_balance(k));
    let j = l.balance_idx(k);
    assert(balance_key_at(l.balances, k, j));
}

/// A point update that keeps a profile's key changes no key lookup and keeps
/// keys unique.
pub proof fn lemma_users_update_same_key(s: Seq<UserV>, i: int, u: UserV)
    requires
        0 <= i < s.len(),
        u.authority == s[i].authority,
        u.user_name == s[i].user_name,
    ensures
        forall|a: Pubkey, n: Seq<u8>, j: int|
            user_key_at(s.update(i, u), a, n, j) <==> user_key_at(s, a, n, j),
        users_unique_keys(s) ==> users_unique_keys(s.update(i, u)),
{
    assert forall|a: Pubkey, n: Seq<u8>, j: int|
        user_key_at(s.update(i, u), a, n, j) <==> user_key_at(s, a, n, j) by {}
    if users_unique_keys(s) {
        assert forall|a: Pubkey, n: Seq<u8>, x: int, y: int|
            user_key_at(s.update(i, u), a, n, x) && user_key_at(s.update(i, u), a, n, y) implies x
            == y by {
            assert(user_key_at(s, a, n, x));
            assert(user_key_at(s, a, n, y));
        }
    }
}

/// Appending a profile under a fresh key leaves other lookups as they were
/// and keeps keys unique.
pub proof fn lemma_users_push(s: Seq<UserV>, u: UserV)
    requires
        users_unique_keys(s),
        !(exists|j: int| user_key_at(s, u.authority, u.user_name, j)),
    ensures
        users_unique_keys(s.push(u)),
        forall|a: Pubkey, n: Seq<u8>, j: int|
            user_key_at(s.push(u), a, n, j) <==> (user_key_at(s, a, n, j) || (j == s.len()
                && u.authority == a && u.user_name == n)),
{
    let n0 = s.len() as int;
    assert forall|a: Pubkey, n: Seq<u8>, j: int|
        user_key_at(s.push(u), a, n, j) <==> (user_key_at(s, a, n, j) || (j == n0 && u.authority
            == a && u.user_name == n)) by {}
    assert forall|a: Pubkey, n: Seq<u8>, x: int, y: int|
        user_key_at(s.push(u), a, n, x) && user_key_at(s.push(u), a, n, y) implies x == y by {
        if x < n0 && y < n0 {
            assert(user_key_at(s, a, n, x));
            assert(user_key_at(s, a, n, y));
        } else if x < n0 && y == n0 {
            assert(user_key_at(s, u.authority, u.user_name, x));
        } else if x == n0 && y < n0 {
            assert(user_key_at(s, u.authority, u.user_name, y));
        }
    }
}

/// A point update that keeps a vehicle's key changes no key lookup and keeps
/// keys unique.
pub proof fn lemma_cars_update_same_key(s: Seq<CarV>, i: int, c: CarV)
    requires
        0 <= i < s.len(),
        c.vin == s[i].vin,
    ensures
        forall|v: Seq<u8>, j: int| car_key_at(s.update(i, c), v, j) <==> car_key_at(s, v, j),
        cars_unique_keys(s) ==> cars_unique_keys(s.update(i, c)),
{
    assert forall|v: Seq<u8>, j: int|
        car_key_at(s.update(i, c), v, j) <==> car_key_at(s, v, j) by {}
    if cars_unique_keys(s) {
        assert forall|v: Seq<u8>, x: int, y: int|
            car_key_at(s.update(i, c), v, x) && car_key_at(s.update(i, c), v, y) implies x
            == y by {
            assert(car_key_at(s, v, x));
            assert(car_key_at(s, v, y));
        }
    }
}

/// Appending a vehicle under a fresh key leaves other lookups as they were
/// and keeps keys unique.
pub proof fn lemma_cars_push(s: Seq<CarV>, c: CarV)
    requires
        cars_unique_keys(s),
        !(exists|j: int| car_key_at(s, c.vin, j)),
    ensures
        cars_unique_keys(s.push(c)),
        forall|v: Seq<u8>, j: int|
            car_key_at(s.push(c), v, j) <==> (car_key_at(s, v, j) || (j == s.len() && c.vin
                == v)),
{
    let n0 = s.len() as int;
    assert forall|v: Seq<u8>, j: int|
        car_key_at(s.push(c), v, j) <==> (car_key_at(s, v, j) || (j == n0 && c.vin == v)) by {}
    assert forall|v: Seq<u8>, x: int, y: int|
        car_key_at(s.push(c), v, x) && car_key_at(s.push(c), v, y) implies x == y by {
        if x < n0 && y < n0 {
            assert(car_key_at(s, v, x));
            assert(car_key_at(s, v, y));
        } else if x < n0 && y == n0 {
            assert(car_key_at(s, c.vin, x));
        } else if x == n0 && y < n0 {
            assert(car_key_at(s, c.vin, y));
        }
    }
}

/// A point update that keeps an offer's key changes no key lookup and keeps
/// keys unique.
pub proof fn lemma_requests_update_same_key(s: Seq<BuyRequestV>, i: int, q: BuyRequestV)
    requires
        0 <= i < s.len(),
        q.vin == s[i].vin,
        q.buyer == s[i].buyer,
    ensures
        forall|v: Seq<u8>, b: Pubkey, j: int|
            request_key_at(s.update(i, q), v, b, j) <==> request_key_at(s, v, b, j),
        requests_unique_keys(s) ==> requests_unique_keys(s.update(i, q)),
{
    assert forall|v: Seq<u8>, b: Pubkey, j: int|
        request_key_at(s.update(i, q), v, b, j) <==> request_key_at(s, v, b, j) by {}
    if requests_unique_keys(s) {
        assert forall|v: Seq<u8>, b: Pubkey, x: int, y: int|
            request_key_at(s.update(i, q), v, b, x) && request_key_at(s.update(i, q), v, b, y)
            implies x == y by {
            assert(request_key_at(s, v, b, x));
            assert(request_key_at(s, v, b, y));
        }
    }
}

/// Appending an offer under a fresh key leaves other lookups as they were
/// and keeps keys unique.
pub proof fn lemma_requests_push(s: Seq<BuyRequestV>, q: BuyRequestV)
    requires
        requests_unique_keys(s),
        !(exists|j: int| request_key_at(s, q.vin, q.buyer, j)),
    ensures
        requests_unique_keys(s.push(q)),
        forall|v: Seq<u8>, b: Pubkey, j: int|
            request_key_at(s.push(q), v, b, j) <==> (request_key_at(s, v, b, j) || (j == s.len()
                && q.vin == v && q.buyer == b)),
{
    let n0 = s.len() as int;
    assert forall|v: Seq<u8>, b: Pubkey, j: int|
        request_key_at(s.push(q), v, b, j) <==> (request_key_at(s, v, b, j) || (j == n0 && q.vin
            == v && q.buyer == b)) by {}
    assert forall|v: Seq<u8>, b: Pubkey, x: int, y: int|
        request_key_at(s.push(q), v, b, x) && request_key_at(s.push(q), v, b, y) implies x
        == y by {
        if x < n0 && y < n0 {
            assert(request_key_at(s, v, b, x));
            assert(request_key_at(s, v, b, y));
        } else if x < n0 && y == n0 {
            assert(request_key_at(s, q.vin, q.buyer, x));
        } else if x == n0 && y < n0 {
            assert(request_key_at(s, q.vin, q.buyer, y));
        }
    }
}

/// Deleting the offer at index `i` removes its key from the store, keeps
/// every other offer, and keeps keys unique.
pub proof fn lemma_requests_remove(s: Seq<BuyRequestV>, i: int)
    requires
        requests_unique_keys(s),
        0 <= i < s.len(),
    ensures
        requests_unique_keys(s.remove(i)),
        !(exists|j: int| request_key_at(s.remove(i), s[i].vin, s[i].buyer, j)),
        forall|v: Seq<u8>, b: Pubkey, j: int|
            #[trigger] request_key_at(s, v, b, j) && !(v == s[i].vin && b == s[i].buyer)
                ==> exists|k: int| request_key_at(s.remove(i), v, b, k),
{
    let s1 = s.remove(i);
    assert forall|v: Seq<u8>, b: Pubkey, j: int|
        request_key_at(s1, v, b, j) implies (if j < i {
        request_key_at(s, v, b, j)
    } else {
        request_key_at(s, v, b, j + 1)
    }) by {
        if j < i {
            assert(s1[j] == s[j]);
        } else {
            assert(s1[j] == s[j + 1]);
        }
    }
    assert forall|v: Seq<u8>, b: Pubkey, x: int, y: int|
        request_key_at(s1, v, b, x) && request_key_at(s1, v, b, y) implies x == y by {
        let x0: int = if x < i { x } else { x + 1 };
        let y0: int = if y < i { y } else { y + 1 };
        assert(request_key_at(s, v, b, x0));
        assert(request_key_at(s, v, b, y0));
    }
    assert forall|j: int| !request_key_at(s1, s[i].vin, s[i].buyer, j) by {
        if request_key_at(s1, s[i].vin, s[i].buyer, j) {
            let j0: int = if j < i { j } else { j + 1 };
            assert(request_key_at(s, s[i].vin, s[i].buyer, j0));
            assert(request_key_at(s, s[i].vin, s[i].buyer, i));
            assert(j0 == i);
            assert(false);
        }
    }
    assert forall|v: Seq<u8>, b: Pubkey, j: int|
        #[trigger] request_key_at(s, v, b, j) && !(v == s[i].vin && b == s[i].buyer) implies (
        exists|k: int| request_key_at(s1, v, b, k)) by {
        assert(j != i);
        if j < i {
            assert(request_key_at(s1, v, b, j));
        } else {
            assert(s1[j - 1] == s[j]);
            assert(request_key_at(s1, v, b, j - 1));
        }
    }
}

/// A point update that keeps an inspection report's key changes no key
/// lookup and keeps keys unique.
pub proof fn lemma_car_reports_update_same_key(s: Seq<CarReportV>, i: int, w: CarReportV)
    requires
        0 <= i < s.len(),
        w.car == s[i].car,
        w.inspector == s[i].inspector,
        w.report_id == s[i].report_id,
    ensures
        forall|c: Seq<u8>, p: Pubkey, r: u64, j: int|
            car_report_key_at(s.update(i, w), c, p, r, j) <==> car_report_key_at(s, c, p, r, j),
        car_reports_unique_keys(s) ==> car_reports_unique_keys(s.update(i, w)),
{
    assert forall|c: Seq<u8>, p: Pubkey, r: u64, j: int|
        car_report_key_at(s.update(i, w), c, p, r, j) <==> car_report_key_at(s, c, p, r, j) by {}
    if car_reports_unique_keys(s) {
        assert forall|c: Seq<u8>, p: Pubkey, r: u64, x: int, y: int|
            car_report_key_at(s.update(i, w), c, p, r, x) && car_report_key_at(
                s.update(i, w),
                c,
                p,
                r,
                y,
            ) implies x == y by {
            assert(car_report_key_at(s, c, p, r, x));
            assert(car_report_key_at(s, c, p, r, y));
        }
    }
}

/// Appending an inspection report under a fresh key leaves other lookups as
/// they were and keeps keys unique.
pub proof fn lemma_car_reports_push(s: Seq<CarReportV>, w: CarReportV)
    requires
        car_reports_unique_keys(s),
        !(exists|j: int| car_report_key_at(s, w.car, w.inspector, w.report_id, j)),
    ensures
        car_reports_unique_keys(s.push(w)),
{
    let n0 = s.len() as int;
    assert forall|c: Seq<u8>, p: Pubkey, r: u64, x: int, y: int|
        car_report_key_at(s.push(w), c, p, r, x) && car_report_key_at(s.push(w), c, p, r, y)
        implies x == y by {
        if x < n0 && y < n0 {
            assert(car_report_key_at(s, c, p, r, x));
            assert(car_report_key_at(s, c, p, r, y));
        } else if x < n0 && y == n0 {
            assert(car_report_key_at(s, w.car, w.inspector, w.report_id, x));
        } else if x == n0 && y < n0 {
            assert(car_report_key_at(s, w.car, w.inspector, w.report_id, y));
        }
    }
}

/// A point update that keeps a conformity report's key changes no key lookup
/// and keeps keys unique.
pub proof fn lemma_conformity_update_same_key(s: Seq<ConformityReportV>, i: int, w: ConformityReportV)
    requires
        0 <= i < s.len(),
        w.car == s[i].car,
        w.confirmity_expert == s[i].confirmity_expert,
        w.report_id == s[i].report_id,
    ensures
        forall|c: Seq<u8>, p: Pubkey, r: u64, j: int|
            conformity_key_at(s.update(i, w), c, p, r, j) <==> conformity_key_at(s, c, p, r, j),
        conformity_unique_keys(s) ==> conformity_unique_keys(s.update(i, w)),
{
    assert forall|c: Seq<u8>, p: Pubkey, r: u64, j: int|
        conformity_key_at(s.update(i, w), c, p, r, j) <==> conformity_key_at(s, c, p, r, j) by {}
    if conformity_unique_keys(s) {
        assert forall|c: Seq<u8>, p: Pubkey, r: u64, x: int, y: int|
            conformity_key_at(s.update(i, w), c, p, r, x) && conformity_key_at(
                s.update(i, w),
                c,
                p,
                r,
                y,
            ) implies x == y by {
            assert(conformity_key_at(s, c, p, r, x));
            assert(conformity_key_at(s, c, p, r, y));
        }
    }
}

/// Appending a conformity report under a fresh key leaves other lookups as
/// they were and keeps keys unique.
pub proof fn lemma_conformity_push(s: Seq<ConformityReportV>, w: ConformityReportV)
    requires
        conformity_unique_keys(s),
        !(exists|j: int| conformity_key_at(s, w.car, w.confirmity_expert, w.report_id, j)),
    ensures
        conformity_unique_keys(s.push(w)),
{
    let n0 = s.len() as int;
    assert forall|c: Seq<u8>, p: Pubkey, r: u64, x: int, y: int|
        conformity_key_at(s.push(w), c, p, r, x) && conformity_key_at(s.push(w), c, p, r, y)
        implies x == y by {
        if x < n0 && y < n0 {
            assert(conformity_key_at(s, c, p, r, x));
            assert(conformity_key_at(s, c, p, r, y));
        } else if x < n0 && y == n0 {
            assert(conformity_key_at(s, w.car, w.confirmity_expert, w.report_id, x));
        } else if x == n0 && y < n0 {
            assert(conformity_key_at(s, w.car, w.confirmity_expert, w.report_id, y));
        }
    }
}

/// Elementwise record values commute with a point update.
pub proof fn lemma_dv_update<T: DeepView>(s: Seq<T>, i: int, x: T)
    requires
        0 <= i < s.len(),
    ensures
        dv(s.update(i, x)) == dv(s).update(i, x.deep_view()),
{
    assert(dv(s.update(i, x)) =~= dv(s).update(i, x.deep_view()));
}

/// Elementwise record values commute with a push.
pub proof fn lemma_dv_push<T: DeepView>(s: Seq<T>, x: T)
    ensures
        dv(s.push(x)) == dv(s).push(x.deep_view()),
{
    assert(dv(s.push(x)) =~= dv(s).push(x.deep_view()));
}

/// Elementwise record values commute with a removal.
pub proof fn lemma_dv_remove<T: DeepView>(s: Seq<T>, i: int)
    requires
        0 <= i < s.len(),
    ensures
        dv(s.remove(i)) == dv(s).remove(i),
{
    assert(dv(s.remove(i)) =~= dv(s).remove(i));
}

impl Ledger {
    /// An empty registry under the given government identity.
    pub fn new(government: Pubkey) -> (l: Ledger)
        ensures
            l@ == (LedgerV {
                government,
                users: Seq::<UserV>::empty(),
                cars: Seq::<CarV>::empty(),
                buy_requests: Seq::<BuyRequestV>::empty(),
                car_reports: Seq::<CarReportV>::empty(),
                conformity_reports: Seq::<ConformityReportV>::empty(),
                balances: Seq::<Balance>::empty(),
            }),
            l@.wf(),
    {
        let l = Ledger {
            government,
            users: Vec::new(),
            cars: Vec::new(),
            buy_requests: Vec::new(),
            car_reports: Vec::new(),
            conformity_reports: Vec::new(),
            balances: Vec::new(),
        };
        proof {
            assert(dv(l.users@) =~= Seq::<UserV>::empty());
            assert(dv(l.cars@) =~= Seq::<CarV>::empty());
            assert(dv(l.buy_requests@) =~= Seq::<BuyRequestV>::empty());
            assert(dv(l.car_reports@) =~= Seq::<CarReportV>::empty());
            assert(dv(l.conformity_reports@) =~= Seq::<ConformityReportV>::empty());
        }
        l
    }

    fn find_user(&self, authority: Pubkey, name: &Vec<u8>) -> (r: Option<usize>)
        ensures
            match r {
                Some(i) => user_key_at(self@.users, authority, name@, i as int),
                None => !self@.has_user(authority, name@),
            },
    {
        let mut k: usize = 0;
        while k < self.users.len()
            invariant
                k <= self.users.len(),
                forall|j: int| 0 <= j < k ==> !user_key_at(self@.users, authority, name@, j),
            decreases self.users.len() - k,
        {
            if self.users[k].authority == authority && bytes_eq(&self.users[k].user_name, name) {
                return Some(k);
            }
            k = k + 1;
        }
        None
    }

    fn find_car(&self, vin: &Vec<u8>) -> (r: Option<usize>)
        ensures
            match r {
                Some(i) => car_key_at(self@.cars, vin@, i as int),
                None => !self@.has_car(vin@),
            },
    {
        let mut k: usize = 0;
        while k < self.cars.len()
            invariant
                k <= self.cars.len(),
                forall|j: int| 0 <= j < k ==> !car_key_at(self@.cars, vin@, j),
            decreases self.cars.len() - k,
        {
            if bytes_eq(&self.cars[k].vin, vin) {
                return Some(k);
            }
            k = k + 1;
        }
        None
    }

    fn find_request(&self, vin: &Vec<u8>, buyer: Pubkey) -> (r: Option<usize>)
        ensures
            match r {
                Some(i) => request_key_at(self@.buy_requests, vin@, buyer, i as int),
                None => !self@.has_request(vin@, buyer),
            },
    {
        let mut k: usize = 0;
        while k < self.buy_requests.len()
            invariant
                k <= self.buy_requests.len(),
                forall|j: int| 0 <= j < k ==> !request_key_at(self@.buy_requests, vin@, buyer, j),
            decreases self.buy_requests.len() - k,
        {
            if self.buy_requests[k].buyer == buyer && bytes_eq(&self.buy_requests[k].vin, vin) {
                return Some(k);
            }
            k = k + 1;
        }
        None
    }

    fn find_car_report(&self, car: &Vec<u8>, inspector: Pubkey, report_id: u64) -> (r: Option<
        usize,
    >)
        ensures
            match r {
                Some(i) => car_report_key_at(
                    self@.car_reports,
                    car@,
                    inspector,
                    report_id,
                    i as int,
                ),
                None => !self@.has_car_report(car@, inspector, report_id),
            },
    {
        let mut k: usize = 0;
        while k < self.car_reports.len()
            invariant
                k <= self.car_reports.len(),
                forall|j: int|
                    0 <= j < k ==> !car_report_key_at(
                        self@.car_reports,
                        car@,
                        inspector,
                        report_id,
                        j,
                    ),
            decreases self.car_reports.len() - k,
        {
            if self.car_reports[k].inspector == inspector && self.car_reports[k].report_id
                == report_id && bytes_eq(&self.car_reports[k].car, car) {
                return Some(k);
            }
            k = k + 1;
        }
        None
    }

    fn find_conformity_report(&self, car: &Vec<u8>, expert: Pubkey, report_id: u64) -> (r: Option<
        usize,
    >)
        ensures
            match r {
                Some(i) => conformity_key_at(
                    self@.conformity_reports,
                    car@,
                    expert,
                    report_id,
                    i as int,
                ),
                None => !self@.has_conformity_report(car@, expert, report_id),
            },
    {
        let mut k: usize = 0;
        while k < self.conformity_reports.len()
            invariant
                k <= self.conformity_reports.len(),
                forall|j: int|
                    0 <= j < k ==> !conformity_key_at(
                        self@.conformity_reports,
                        car@,
                        expert,
                        report_id,
                        j,
                    ),
            decreases self.conformity_reports.len() - k,
        {
            if self.conformity_reports[k].confirmity_expert == expert
                && self.conformity_reports[k].report_id == report_id && bytes_eq(
                &self.conformity_reports[k].car,
                car,
            ) {
                return Some(k);
            }
            k = k + 1;
        }
        None
    }

    fn find_balance(&self, key: Pubkey) -> (r: Option<usize>)
        ensures
            match r {
                Some(i) => balance_key_at(self@.balances, key, i as int),
                None => !self@.has_balance(key),
            },
    {
        let mut k: usize = 0;
        while k < self.balances.len()
            invariant
                k <= self.balances.len(),
                forall|j: int| 0 <= j < k ==> !balance_key_at(self@.balances, key, j),
            decreases self.balances.len() - k,
        {
            if self.balances[k].key == key {
                return Some(k);
            }
            k = k + 1;
        }
        None
    }

    /// The funds the platform holds for `key`.
    pub fn balance_of(&self, key: Pubkey) -> (r: u64)
        requires
            self@.wf(),
        ensures
            r == self@.balance_of(key),
    {
        match self.find_balance(key) {
            Some(i) => {
                proof {
                    lemma_balance_found(self@, key, i as int);
                }
                self.balances[i].lamports
            },
            None => 0,
        }
    }

    /// Registers a profile for the signing identity under `user_name`: one
    /// transaction that creates the record at key (signer, name), pending
    /// verification, or fails with the ledger untouched.
    pub fn register_user(
        &mut self,
        user_signer: Pubkey,
        user_name: Vec<u8>,
        public_data_uri: Vec<u8>,
        private_data_uri: Vec<u8>,
        encrypted_key_for_gov: Vec<u8>,
        encrypted_key_for_user: Vec<u8>,
        role: UserRoles,
        now: i64,
    ) -> (r: Result<(), ProgramError>)
        requires
            old(self)@.wf(),
            public_data_uri@.len() <= MAX_DATA_URI_LEN,
            private_data_uri@.len() <= MAX_DATA_URI_LEN,
            encrypted_key_for_gov@.len() <= MAX_ENCRYPTED_KEY_LEN,
            encrypted_key_for_user@.len() <= MAX_ENCRYPTED_KEY_LEN,
        ensures
            final(self)@.wf(),
            ({
                let l0 = old(self)@;
                match r {
                    Ok(()) => {
                        &&& !l0.has_user(user_signer, user_name@)
                        &&& 0 < user_name@.len() <= MAX_USER_NAME_LEN
                        &&& final(self)@ == (LedgerV {
                            users: l0.users.push(
                                UserV {
                                    authority: user_signer,
                                    user_name: user_name@,
                                    public_data_uri: public_data_uri@,
                                    private_data_uri: private_data_uri@,
                                    encrypted_key_for_gov: encrypted_key_for_gov@,
                                    encrypted_key_for_user: encrypted_key_for_user@,
                                    role,
                                    verification_status: VerificationStatus::Pending,
                                    verified_at: None::<i64>,
                                    verified_by: None::<Pubkey>,
                                    created_at: now,
                                    updated_at: now,
                                },
                            ),
                            ..l0
                        })
                    },
                    Err(e) => {
                        &&& final(self)@ == l0
                        &&& if l0.has_user(user_signer, user_name@) {
                            e == ProgramError::AccountAlreadyInUse
                        } else {
                            &&& e == ProgramError::Code(ErrorCode::InvalidUserName)
                            &&& !(0 < user_name@.len() <= MAX_USER_NAME_LEN)
                        }
                    },
                }
            }),
    {
        if self.find_user(user_signer, &user_name).is_some() {
            return Err(ProgramError::AccountAlreadyInUse);
        }
        let ctx = RegisterUser { user_signer };
        match crate::instructions::register_user::handler(
            &ctx,
            user_name,
            public_data_uri,
            private_data_uri,
            encrypted_key_for_gov,
            encrypted_key_for_user,
            role,
            now,
        ) {
            Ok(u) => {
                let ghost uv = u@;
                let ghost l0 = old(self)@;
                self.users.push(u);
                proof {
                    lemma_dv_push(old(self).users@, u);
                    lemma_users_push(l0.users, uv);
                    assert(self@ =~= (LedgerV { users: l0.users.push(uv), ..l0 }));
                    assert(uv.wf());
                    assert forall|j: int|
                        0 <= j < self@.users.len() implies (#[trigger] self@.users[j]).wf() by {
                        if j < l0.users.len() {
                            assert(self@.users[j] == l0.users[j]);
                        } else {
                            assert(self@.users[j] == uv);
                        }
                    }
                }
                Ok(())
            },
            Err(e) => Err(e),
        }
    }

    /// Decides a pending profile's verification, on the government's
    /// signature: one transaction that stamps the decision onto the record at
    /// key (authority, name), or fails with the ledger untouched.
    pub fn verify_user(
        &mut self,
        government: Pubkey,
        authority: Pubkey,
        user_name: &Vec<u8>,
        approve: bool,
        now: i64,
    ) -> (r: Result<(), ProgramError>)
        requires
            old(self)@.wf(),
        ensures
            final(self)@.wf(),
            ({
                let l0 = old(self)@;
                match r {
                    Ok(()) => {
                        &&& l0.has_user(authority, user_name@)
                        &&& l0.user_at(authority, user_name@).verification_status
                            == VerificationStatus::Pending
                        &&& government == l0.government
                        &&& final(self)@ == (LedgerV {
                            users: l0.users.update(
                                l0.user_idx(authority, user_name@),
                                UserV {
                                    verification_status: if approve {
                                        VerificationStatus::Verified
                                    } else {
                                        VerificationStatus::Rejected
                                    },
                                    verified_at: Some(now),
                                    verified_by: Some(government),
                                    ..l0.user_at(authority, user_name@)
                                },
                            ),
                            ..l0
                        })
                    },
                    Err(e) => {
                        &&& final(self)@ == l0
                        &&& if !l0.has_user(authority, user_name@) {
                            e == ProgramError::AccountNotFound
                        } else if l0.user_at(authority, user_name@).verification_status
                            != VerificationStatus::Pending {
                            e == ProgramError::Custom(CustomError::UserAlreadyProcessed)
                        } else {
                            &&& e == ProgramError::Custom(CustomError::UnauthorizedVerifier)
                            &&& government != l0.government
                        }
                    },
                }
            }),
    {
        let i = match self.find_user(authority, user_name) {
            Some(i) => i,
            None => {
                return Err(ProgramError::AccountNotFound);
            },
        };
        proof {
            lemma_user_found(old(self)@, authority, user_name@, i as int);
        }
        let government_authority = self.government;
        let mut ctx = VerifyUser { user_account: self.users[i].duplicate(), government };
        match crate::instructions::verify_user::handler(&mut ctx, government_authority, approve, now) {
            Ok(()) => {
                let ghost l0 = old(self)@;
                let ghost uv = ctx.user_account@;
                self.users[i] = ctx.user_account;
                proof {
                    lemma_dv_update(old(self).users@, i as int, ctx.user_account);
                    lemma_users_update_same_key(l0.users, i as int, uv);
                    assert(self@ =~= (LedgerV {
                        users: l0.users.update(i as int, uv),
                        ..l0
                    }));
                    assert(uv.wf());
                    assert forall|j: int|
                        0 <= j < self@.users.len() implies (#[trigger] self@.users[j]).wf() by {
                        if j != i as int {
                            assert(self@.users[j] == l0.users[j]);
                        }
                    }
                }
                Ok(())
            },
            Err(e) => Err(e),
        }
    }

    /// Registers a vehicle on behalf of `owner`, on the government's
    /// signature: one transaction that creates the record at the vehicle's
    /// identification number, or fails with the ledger untouched. A second
    /// registration under the same number fails.
    pub fn register_car(
        &mut self,
        government: Pubkey,
        car_id: Vec<u8>,
        vin: Vec<u8>,
        brand: Vec<u8>,
        model: Vec<u8>,
        year: u16,
        color: Vec<u8>,
        engine_number: Vec<u8>,
        owner: Pubkey,
        last_inspection_date: Option<i64>,
        inspection_status: InspectionStatus,
        latest_inspection_report: Option<Vec<u8>>,
        mileage: u32,
        now: i64,
    ) -> (r: Result<(), ProgramError>)
        requires
            old(self)@.wf(),
            car_id@.len() <= MAX_CAR_ID_LEN,
            color@.len() <= MAX_COLOR_LEN,
            engine_number@.len() <= MAX_ENGINE_NUMBER_LEN,
            latest_inspection_report matches Some(rep) ==> rep@.len()
                <= MAX_INSPECTION_REPORT_LEN,
        ensures
            final(self)@.wf(),
            ({
                let l0 = old(self)@;
                match r {
                    Ok(()) => {
                        &&& !l0.has_car(vin@)
                        &&& government == l0.government
                        &&& vin@.len() == VIN_LEN
                        &&& 0 < brand@.len() <= MAX_BRAND_LEN
                        &&& 0 < model@.len() <= MAX_MODEL_LEN
                        &&& MIN_YEAR <= year <= MAX_YEAR
                        &&& engine_number@.len() > 0
                        &&& final(self)@ == (LedgerV {
                            cars: l0.cars.push(
                                CarV {
                                    car_id: car_id@,
                                    vin: vin@,
                                    brand: brand@,
                                    model: model@,
                                    year,
                                    color: color@,
                                    engine_number: engine_number@,
                                    owner,
                                    registered_by: government,
                                    registration_date: Some(now),
                                    is_active: true,
                                    transfer_count: 0u32,
                                    last_inspection_date,
                                    inspection_status,
                                    latest_inspection_report: latest_inspection_report.deep_view(),
                                    mileage,
                                    is_for_sale: false,
                                    sale_price: None::<u64>,
                                },
                            ),
                            ..l0
                        })
                    },
                    Err(e) => {
                        &&& final(self)@ == l0
                        &&& if government != l0.government {
                            e == ProgramError::Custom(CustomError::UnauthorizedVerifier)
                        } else if l0.has_car(vin@) {
                            e == ProgramError::AccountAlreadyInUse
                        } else if vin@.len() != VIN_LEN {
                            e == ProgramError::Car(CarError::InvalidVin)
                        } else if !(0 < brand@.len() <= MAX_BRAND_LEN) {
                            e == ProgramError::Car(CarError::InvalidBrand)
                        } else if !(0 < model@.len() <= MAX_MODEL_LEN) {
                            e == ProgramError::Car(CarError::InvalidModel)
                        } else if !(MIN_YEAR <= year <= MAX_YEAR) {
                            e == ProgramError::Car(CarError::InvalidYear)
                        } else {
                            &&& e == ProgramError::Car(CarError::InvalidEngineNumber)
                            &&& engine_number@.len() == 0
                        }
                    },
                }
            }),
    {
        if government != self.government {
            return Err(ProgramError::Custom(CustomError::UnauthorizedVerifier));
        }
        if self.find_car(&vin).is_some() {
            return Err(ProgramError::AccountAlreadyInUse);
        }
        let government_authority = self.government;
        let ctx = RegisterCar { government };
        match crate::instructions::register_car::handler(
            &ctx,
            government_authority,
            car_id,
            vin,
            brand,
            model,
            year,
            color,
            engine_number,
            owner,
            last_inspection_date,
            inspection_status,
            latest_inspection_report,
            mileage,
            now,
        ) {
            Ok(car) => {
                let ghost cv = car@;
                let ghost l0 = old(self)@;
                self.cars.push(car);
                proof {
                    lemma_dv_push(old(self).cars@, car);
                    lemma_cars_push(l0.cars, cv);
                    assert(self@ =~= (LedgerV { cars: l0.cars.push(cv), ..l0 }));
                    assert(cv.wf());
                    assert forall|j: int|
                        0 <= j < self@.cars.len() implies (#[trigger] self@.cars[j]).wf() by {
                        if j < l0.cars.len() {
                            assert(self@.cars[j] == l0.cars[j]);
                        } else {
                            assert(self@.cars[j] == cv);
                        }
                    }
                }
                Ok(())
            },
            Err(e) => Err(e),
        }
    }

    /// Lists a vehicle for sale at `price`, on its owner's signature: one
    /// transaction that marks the record at `vin` for sale with that price,
    /// or fails with the ledger untouched.
    pub fn set_for_sale(&mut self, owner: Pubkey, vin: &Vec<u8>, price: u64) -> (r: Result<
        (),
        ProgramError,
    >)
        requires
            old(self)@.wf(),
        ensures
            final(self)@.wf(),
            ({
                let l0 = old(self)@;
                match r {
                    Ok(()) => {
                        &&& l0.has_car(vin@)
                        &&& l0.car_at(vin@).owner == owner
                        &&& final(self)@ == (LedgerV {
                            cars: l0.cars.update(
                                l0.car_idx(vin@),
                                CarV {
                                    is_for_sale: true,
                                    sale_price: Some(price),
                                    ..l0.car_at(vin@)
                                },
                            ),
                            ..l0
                        })
                    },
                    Err(e) => {
                        &&& final(self)@ == l0
                        &&& if !l0.has_car(vin@) {
                            e == ProgramError::AccountNotFound
                        } else {
                            &&& e == ProgramError::Custom(CustomError::NotCarOwner)
                            &&& l0.car_at(vin@).owner != owner
                        }
                    },
                }
            }),
    {
        let i = match self.find_car(vin) {
            Some(i) => i,
            None => {
                return Err(ProgramError::AccountNotFound);
            },
        };
        proof {
            lemma_car_found(old(self)@, vin@, i as int);
        }
        let mut ctx = SetCarForSale { car_account: self.cars[i].duplicate(), owner };
        match crate::instructions::set_for_sale::handler(&mut ctx, vin, price) {
            Ok(()) => {
                let ghost l0 = old(self)@;
                let ghost cv = ctx.car_account@;
                self.cars[i] = ctx.car_account;
                proof {
                    lemma_dv_update(old(self).cars@, i as int, ctx.car_account);
                    lemma_cars_update_same_key(l0.cars, i as int, cv);
                    assert(self@ =~= (LedgerV { cars: l0.cars.update(i as int, cv), ..l0 }));
                    assert(cv.wf());
                    assert forall|j: int|
                        0 <= j < self@.cars.len() implies (#[trigger] self@.cars[j]).wf() by {
                        if j != i as int {
                            assert(self@.cars[j] == l0.cars[j]);
                        }
                    }
                }
                Ok(())
            },
            Err(e) => Err(e),
        }
    }

    /// Withdraws a vehicle from sale, on its owner's signature: one
    /// transaction that clears the listing and price of the record at `vin`,
    /// or fails with the ledger untouched.
    pub fn cancel_for_sale(&mut self, owner: Pubkey, vin: &Vec<u8>) -> (r: Result<
        (),
        ProgramError,
    >)
        requires
            old(self)@.wf(),
        ensures
            final(self)@.wf(),
            ({
                let l0 = old(self)@;
                match r {
                    Ok(()) => {
                        &&& l0.has_car(vin@)
                        &&& l0.car_at(vin@).owner == owner
                        &&& final(self)@ == (LedgerV {
                            cars: l0.cars.update(
                                l0.car_idx(vin@),
                                CarV {
                                    is_for_sale: false,
                                    sale_price: None::<u64>,
                                    ..l0.car_at(vin@)
                                },
                            ),
                            ..l0
                        })
                    },
                    Err(e) => {
                        &&& final(self)@ == l0
                        &&& if !l0.has_car(vin@) {
                            e == ProgramError::AccountNotFound
                        } else {
                            &&& e == ProgramError::Custom(CustomError::NotCarOwner)
                            &&& l0.car_at(vin@).owner != owner
                        }
                    },
                }
            }),
    {
        let i = match self.find_car(vin) {
            Some(i) => i,
            None => {
                return Err(ProgramError::AccountNotFound);
            },
        };
        proof {
            lemma_car_found(old(self)@, vin@, i as int);
        }
        let mut ctx = CancelCarForSale { car_account: self.cars[i].duplicate(), owner };
        match crate::instructions::cancel_for_sale::handler(&mut ctx, vin) {
            Ok(()) => {
                let ghost l0 = old(self)@;
                let ghost cv = ctx.car_account@;
                self.cars[i] = ctx.car_account;
                proof {
                    lemma_dv_update(old(self).cars@, i as int, ctx.car_account);
                    lemma_cars_update_same_key(l0.cars, i as int, cv);
                    assert(self@ =~= (LedgerV { cars: l0.cars.update(i as int, cv), ..l0 }));
                    assert(cv.wf());
                    assert forall|j: int|
                        0 <= j < self@.cars.len() implies (#[trigger] self@.cars[j]).wf() by {
                        if j != i as int {
                            assert(self@.cars[j] == l0.cars[j]);
                        }
                    }
                }
                Ok(())
            },
            Err(e) => Err(e),
        }
    }

    /// Hands a vehicle to a new owner directly, both identities signing: one
    /// transaction that rewrites the owner of the record at `vin`, or fails
    /// with the ledger untouched. The receiving profile, at key
    /// (new_owner, user_name), must be verified.
    pub fn transfer_car(
        &mut self,
        current_owner: Pubkey,
        new_owner: Pubkey,
        vin: &Vec<u8>,
        user_name: &Vec<u8>,
    ) -> (r: Result<(), ProgramError>)
        requires
            old(self)@.wf(),
        ensures
            final(self)@.wf(),
            ({
                let l0 = old(self)@;
                match r {
                    Ok(()) => {
                        &&& l0.has_car(vin@)
                        &&& l0.has_user(new_owner, user_name@)
                        &&& l0.car_at(vin@).owner == current_owner
                        &&& l0.user_at(new_owner, user_name@).verification_status
                            == VerificationStatus::Verified
                        &&& final(self)@ == (LedgerV {
                            cars: l0.cars.update(
                                l0.car_idx(vin@),
                                CarV { owner: new_owner, ..l0.car_at(vin@) },
                            ),
                            ..l0
                        })
                    },
                    Err(e) => {
                        &&& final(self)@ == l0
                        &&& if !l0.has_car(vin@) {
                            e == ProgramError::AccountNotFound
                        } else if !l0.has_user(new_owner, user_name@) {
                            e == ProgramError::AccountNotFound
                        } else if l0.car_at(vin@).owner != current_owner {
                            e == ProgramError::Car(CarError::UnauthorizedAccess)
                        } else {
                            &&& e == ProgramError::Custom(CustomError::UserNotVerified)
                            &&& l0.user_at(new_owner, user_name@).verification_status
                                != VerificationStatus::Verified
                        }
                    },
                }
            }),
    {
        let ci = match self.find_car(vin) {
            Some(i) => i,
            None => {
                return Err(ProgramError::AccountNotFound);
            },
        };
        let ui = match self.find_user(new_owner, user_name) {
            Some(i) => i,
            None => {
                return Err(ProgramError::AccountNotFound);
            },
        };
        proof {
            lemma_car_found(old(self)@, vin@, ci as int);
            lemma_user_found(old(self)@, new_owner, user_name@, ui as int);
        }
        let mut ctx = TransferCar {
            car: self.cars[ci].duplicate(),
            current_owner,
            new_owner,
            new_owner_pda: self.users[ui].duplicate(),
        };
        match crate::instructions::transfer_car::handler(&mut ctx, vin, user_name) {
            Ok(()) => {
                let ghost l0 = old(self)@;
                let ghost cv = ctx.car@;
                self.cars[ci] = ctx.car;
                proof {
                    lemma_dv_update(old(self).cars@, ci as int, ctx.car);
                    lemma_cars_update_same_key(l0.cars, ci as int, cv);
                    assert(self@ =~= (LedgerV { cars: l0.cars.update(ci as int, cv), ..l0 }));
                    assert(cv.wf());
                    assert forall|j: int|
                        0 <= j < self@.cars.len() implies (#[trigger] self@.cars[j]).wf() by {
                        if j != ci as int {
                            assert(self@.cars[j] == l0.cars[j]);
                        }
                    }
                }
                Ok(())
            },
            Err(e) => Err(e),
        }
    }

    /// Creates an escrowed offer for a listed vehicle at its asking price, on
    /// the buyer's signature: one transaction that moves the full price out
    /// of the buyer's balance into the custody of a new pending request at
    /// key (vin, buyer), or fails with the ledger untouched. The buyer's
    /// profile, at key (buyer, buyer_name), must be verified, and an offer
    /// the buyer already has open for this vehicle blocks a second one.
    pub fn request_buy(
        &mut self,
        buyer: Pubkey,
        buyer_name: &Vec<u8>,
        vin: Vec<u8>,
        message: Option<Vec<u8>>,
        now: i64,
    ) -> (r: Result<(), ProgramError>)
        requires
            old(self)@.wf(),
            message matches Some(m) ==> m@.len() <= MAX_MESSAGE_LEN,
        ensures
            final(self)@.wf(),
            ({
                let l0 = old(self)@;
                let car = l0.car_at(vin@);
                let price = car.sale_price->0;
                match r {
                    Ok(()) => {
                        &&& l0.has_car(vin@)
                        &&& l0.has_user(buyer, buyer_name@)
                        &&& !l0.has_request(vin@, buyer)
                        &&& car.is_for_sale
                        &&& car.sale_price is Some
                        &&& l0.user_at(buyer, buyer_name@).verification_status
                            == VerificationStatus::Verified
                        &&& buyer != car.owner
                        &&& l0.balance_of(buyer) >= price
                        &&& final(self)@ == (LedgerV {
                            buy_requests: l0.buy_requests.push(
                                BuyRequestV {
                                    vin: vin@,
                                    buyer,
                                    seller: car.owner,
                                    amount: price,
                                    status: BuyRequestStatus::Pending,
                                    created_at: now,
                                    message: message.deep_view(),
                                },
                            ),
                            balances: if l0.has_balance(buyer) {
                                l0.balances.update(
                                    l0.balance_idx(buyer),
                                    Balance {
                                        key: buyer,
                                        lamports: (l0.balance_of(buyer) - price) as u64,
                                    },
                                )
                            } else {
                                l0.balances
                            },
                            ..l0
                        })
                        &&& final(self)@.balance_of(buyer) == l0.balance_of(buyer) - price
                        &&& forall|k2: Pubkey|
                            k2 != buyer ==> final(self)@.balance_of(k2) == l0.balance_of(k2)
                    },
                    Err(e) => {
                        &&& final(self)@ == l0
                        &&& if !l0.has_car(vin@) {
                            e == ProgramError::AccountNotFound
                        } else if !l0.has_user(buyer, buyer_name@) {
                            e == ProgramError::AccountNotFound
                        } else if l0.has_request(vin@, buyer) {
                            e == ProgramError::AccountAlreadyInUse
                        } else if !car.is_for_sale {
                            e == ProgramError::Car(CarError::CarNotForSale)
                        } else if car.sale_price is None {
                            e == ProgramError::Car(CarError::SalePriceNotSet)
                        } else if l0.user_at(buyer, buyer_name@).verification_status
                            != VerificationStatus::Verified {
                            e == ProgramError::Custom(CustomError::UserNotVerified)
                        } else if buyer == car.owner {
                            e == ProgramError::Car(CarError::CannotBuyOwnCar)
                        } else {
                            &&& e == ProgramError::TransferFailed
                            &&& l0.balance_of(buyer) < price
                        }
                    },
                }
            }),
    {
        let ci = match self.find_car(&vin) {
            Some(i) => i,
            None => {
                return Err(ProgramError::AccountNotFound);
            },
        };
        let ui = match self.find_user(buyer, buyer_name) {
            Some(i) => i,
            None => {
                return Err(ProgramError::AccountNotFound);
            },
        };
        if self.find_request(&vin, buyer).is_some() {
            return Err(ProgramError::AccountAlreadyInUse);
        }
        proof {
            lemma_car_found(old(self)@, vin@, ci as int);
            lemma_user_found(old(self)@, buyer, buyer_name@, ui as int);
        }
        let bi_opt = self.find_balance(buyer);
        let buyer_lamports = match bi_opt {
            Some(b) => {
                proof {
                    lemma_balance_found(old(self)@, buyer, b as int);
                }
                self.balances[b].lamports
            },
            None => 0,
        };
        let mut ctx = SendBuyRequest {
            car: self.cars[ci].duplicate(),
            buyer_pda: self.users[ui].duplicate(),
            buyer,
            buyer_lamports,
        };
        match crate::instructions::request_buy::handler(&mut ctx, vin, message, now) {
            Ok(req) => {
                let ghost l0 = old(self)@;
                let ghost qv = req@;
                self.buy_requests.push(req);
                proof {
                    lemma_dv_push(old(self).buy_requests@, req);
                    lemma_requests_push(l0.buy_requests, qv);
                }
                match bi_opt {
                    Some(b) => {
                        self.balances[b] = Balance { key: buyer, lamports: ctx.buyer_lamports };
                        proof {
                            lemma_balance_update(l0, self@, buyer, b as int);
                        }
                    },
                    None => {
                        proof {
                            assert(l0.balance_of(buyer) == 0);
                            assert(ctx.buyer_lamports == 0);
                        }
                    },
                }
                proof {
                    let l0 = old(self)@;
                    assert(self@ =~= (LedgerV {
                        buy_requests: l0.buy_requests.push(qv),
                        balances: self@.balances,
                        ..l0
                    }));
                    assert(qv.wf());
                    assert forall|j: int|
                        0 <= j < self@.buy_requests.len() implies (
                    #[trigger] self@.buy_requests[j]).wf() by {
                        if j < l0.buy_requests.len() {
                            assert(self@.buy_requests[j] == l0.buy_requests[j]);
                        } else {
                            assert(self@.buy_requests[j] == qv);
                        }
                    }
                }
                Ok(())
            },
            Err(e) => Err(e),
        }
    }

    /// Accepts a pending offer, on the signature of the vehicle's owner (the
    /// offer's seller): one atomic transaction that pays the escrowed amount
    /// to the owner, hands the vehicle to the buyer, takes it off sale, and
    /// closes the request as accepted — or fails with the ledger untouched.
    /// Other pending offers for the vehicle stay exactly as they were: the
    /// new owner must reject each to refund its buyer.
    pub fn accept_buy_request(
        &mut self,
        owner: Pubkey,
        owner_name: &Vec<u8>,
        vin: &Vec<u8>,
        buyer: Pubkey,
        buyer_name: &Vec<u8>,
    ) -> (r: Result<(), ProgramError>)
        requires
            old(self)@.wf(),
        ensures
            final(self)@.wf(),
            ({
                let l0 = old(self)@;
                let req = l0.request_at(vin@, buyer);
                let car = l0.car_at(vin@);
                match r {
                    Ok(()) => {
                        &&& l0.has_request(vin@, buyer)
                        &&& l0.has_car(vin@)
                        &&& l0.has_user(owner, owner_name@)
                        &&& l0.has_user(buyer, buyer_name@)
                        &&& req.status == BuyRequestStatus::Pending
                        &&& req.seller == owner
                        &&& car.owner == owner
                        &&& car.is_for_sale
                        &&& l0.user_at(owner, owner_name@).verification_status
                            == VerificationStatus::Verified
                        &&& l0.user_at(buyer, buyer_name@).verification_status
                            == VerificationStatus::Verified
                        &&& l0.balance_of(owner) + req.amount <= u64::MAX
                        &&& final(self)@ == l0.accept_outcome(vin@, buyer)
                        &&& final(self)@.balance_of(owner) == l0.balance_of(owner) + req.amount
                        &&& forall|k2: Pubkey|
                            k2 != owner ==> final(self)@.balance_of(k2) == l0.balance_of(k2)
                    },
                    Err(e) => {
                        &&& final(self)@ == l0
                        &&& if !l0.has_request(vin@, buyer) {
                            e == ProgramError::AccountNotFound
                        } else if !l0.has_car(vin@) {
                            e == ProgramError::AccountNotFound
                        } else if !l0.has_user(owner, owner_name@) {
                            e == ProgramError::AccountNotFound
                        } else if !l0.has_user(buyer, buyer_name@) {
                            e == ProgramError::AccountNotFound
                        } else if req.status != BuyRequestStatus::Pending {
                            e == ProgramError::Car(CarError::InvalidBuyRequestStatus)
                        } else if req.seller != owner {
                            e == ProgramError::Car(CarError::UnauthorizedAccess)
                        } else if car.owner != owner {
                            e == ProgramError::Car(CarError::UnauthorizedAccess)
                        } else if !car.is_for_sale {
                            e == ProgramError::Car(CarError::CarNotForSale)
                        } else if l0.user_at(owner, owner_name@).verification_status
                            != VerificationStatus::Verified {
                            e == ProgramError::Custom(CustomError::UserNotVerified)
                        } else if l0.user_at(buyer, buyer_name@).verification_status
                            != VerificationStatus::Verified {
                            e == ProgramError::Custom(CustomError::UserNotVerified)
                        } else {
                            &&& e == ProgramError::TransferFailed
                            &&& l0.balance_of(owner) + req.amount > u64::MAX
                        }
                    },
                }
            }),
    {
        let ri = match self.find_request(vin, buyer) {
            Some(i) => i,
            None => {
                return Err(ProgramError::AccountNotFound);
            },
        };
        let ci = match self.find_car(vin) {
            Some(i) => i,
            None => {
                return Err(ProgramError::AccountNotFound);
            },
        };
        let oi = match self.find_user(owner, owner_name) {
            Some(i) => i,
            None => {
                return Err(ProgramError::AccountNotFound);
            },
        };
        let bi = match self.find_user(buyer, buyer_name) {
            Some(i) => i,
            None => {
                return Err(ProgramError::AccountNotFound);
            },
        };
        proof {
            lemma_request_found(old(self)@, vin@, buyer, ri as int);
            lemma_car_found(old(self)@, vin@, ci as int);
            lemma_user_found(old(self)@, owner, owner_name@, oi as int);
            lemma_user_found(old(self)@, buyer, buyer_name@, bi as int);
        }
        let pay_opt = self.find_balance(owner);
        let owner_lamports = match pay_opt {
            Some(b) => {
                proof {
                    lemma_balance_found(old(self)@, owner, b as int);
                }
                self.balances[b].lamports
            },
            None => 0,
        };
        let mut ctx = AcceptBuyRequest {
            buy_request: self.buy_requests[ri].duplicate(),
            car: self.cars[ci].duplicate(),
            owner_pda: self.users[oi].duplicate(),
            buyer_pda: self.users[bi].duplicate(),
            owner,
            owner_lamports,
        };
        match crate::instructions::accept_buy_request::handler(&mut ctx, vin, buyer) {
            Ok(()) => {
                let ghost l0 = old(self)@;
                let ghost qv = ctx.buy_request@;
                let ghost cv = ctx.car@;
                self.buy_requests[ri] = ctx.buy_request;
                self.cars[ci] = ctx.car;
                proof {
                    lemma_dv_update(old(self).buy_requests@, ri as int, ctx.buy_request);
                    lemma_dv_update(old(self).cars@, ci as int, ctx.car);
                    lemma_requests_update_same_key(l0.buy_requests, ri as int, qv);
                    lemma_cars_update_same_key(l0.cars, ci as int, cv);
                }
                match pay_opt {
                    Some(b) => {
                        self.balances[b] = Balance { key: owner, lamports: ctx.owner_lamports };
                        proof {
                            lemma_balance_update(l0, self@, owner, b as int);
                        }
                    },
                    None => {
                        self.balances.push(Balance { key: owner, lamports: ctx.owner_lamports });
                        proof {
                            assert(l0.balance_of(owner) == 0);
                            lemma_balance_push(l0, self@, owner, ctx.owner_lamports);
                        }
                    },
                }
                proof {
                    let l0 = old(self)@;
                    assert(self@ =~= (LedgerV {
                        buy_requests: l0.buy_requests.update(ri as int, qv),
                        cars: l0.cars.update(ci as int, cv),
                        balances: self@.balances,
                        ..l0
                    }));
                    assert(qv.wf());
                    assert(cv.wf());
                    assert forall|j: int|
                        0 <= j < self@.buy_requests.len() implies (
                    #[trigger] self@.buy_requests[j]).wf() by {
                        if j != ri as int {
                            assert(self@.buy_requests[j] == l0.buy_requests[j]);
                        }
                    }
                    assert forall|j: int|
                        0 <= j < self@.cars.len() implies (#[trigger] self@.cars[j]).wf() by {
                        if j != ci as int {
                            assert(self@.cars[j] == l0.cars[j]);
                        }
                    }
                }
                Ok(())
            },
            Err(e) => Err(e),
        }
    }

    /// Rejects a pending offer, on the signature of the vehicle's current
    /// owner: one transaction that refunds the escrowed amount in full to
    /// the buyer's balance and deletes the closed request, or fails with the
    /// ledger untouched. Whether the vehicle is still listed does not
    /// matter: an offer left pending after another buyer's accept is
    /// refunded this same way, by the new owner. A request already decided,
    /// or deleted by an earlier rejection, cannot be rejected again.
    pub fn reject_buy_request(&mut self, seller: Pubkey, vin: &Vec<u8>, buyer: Pubkey) -> (r:
        Result<(), ProgramError>)
        requires
            old(self)@.wf(),
        ensures
            final(self)@.wf(),
            ({
                let l0 = old(self)@;
                let req = l0.request_at(vin@, buyer);
                let car = l0.car_at(vin@);
                match r {
                    Ok(()) => {
                        &&& l0.has_car(vin@)
                        &&& l0.has_request(vin@, buyer)
                        &&& car.owner == seller
                        &&& req.status == BuyRequestStatus::Pending
                        &&& l0.balance_of(buyer) + req.amount <= u64::MAX
                        &&& final(self)@ == l0.reject_outcome(vin@, buyer)
                        &&& !final(self)@.has_request(vin@, buyer)
                        &&& final(self)@.balance_of(buyer) == l0.balance_of(buyer) + req.amount
                        &&& forall|k2: Pubkey|
                            k2 != buyer ==> final(self)@.balance_of(k2) == l0.balance_of(k2)
                    },
                    Err(e) => {
                        &&& final(self)@ == l0
                        &&& if !l0.has_car(vin@) {
                            e == ProgramError::AccountNotFound
                        } else if !l0.has_request(vin@, buyer) {
                            e == ProgramError::AccountNotFound
                        } else if car.owner != seller {
                            e == ProgramError::Car(CarError::UnauthorizedAccess)
                        } else if req.status != BuyRequestStatus::Pending {
                            e == ProgramError::Car(CarError::InvalidBuyRequestStatus)
                        } else {
                            &&& e == ProgramError::TransferFailed
                            &&& l0.balance_of(buyer) + req.amount > u64::MAX
                        }
                    },
                }
            }),
    {
        let ci = match self.find_car(vin) {
            Some(i) => i,
            None => {
                return Err(ProgramError::AccountNotFound);
            },
        };
        let ri = match self.find_request(vin, buyer) {
            Some(i) => i,
            None => {
                return Err(ProgramError::AccountNotFound);
            },
        };
        proof {
            lemma_car_found(old(self)@, vin@, ci as int);
            lemma_request_found(old(self)@, vin@, buyer, ri as int);
        }
        let refund_opt = self.find_balance(buyer);
        let buyer_lamports = match refund_opt {
            Some(b) => {
                proof {
                    lemma_balance_found(old(self)@, buyer, b as int);
                }
                self.balances[b].lamports
            },
            None => 0,
        };
        let mut ctx = RejectBuyRequest {
            seller,
            car: self.cars[ci].duplicate(),
            buy_request: self.buy_requests[ri].duplicate(),
            buyer_lamports,
        };
        match crate::instructions::reject_buy_request::handler(&mut ctx, vin) {
            Ok(()) => {
                let ghost l0 = old(self)@;
                self.buy_requests.remove(ri);
                proof {
                    lemma_dv_remove(old(self).buy_requests@, ri as int);
                    lemma_requests_remove(l0.buy_requests, ri as int);
                }
                match refund_opt {
                    Some(b) => {
                        self.balances[b] = Balance { key: buyer, lamports: ctx.buyer_lamports };
                        proof {
                            lemma_balance_update(l0, self@, buyer, b as int);
                        }
                    },
                    None => {
                        self.balances.push(Balance { key: buyer, lamports: ctx.buyer_lamports });
                        proof {
                            assert(l0.balance_of(buyer) == 0);
                            lemma_balance_push(l0, self@, buyer, ctx.buyer_lamports);
                        }
                    },
                }
                proof {
                    let l0 = old(self)@;
                    assert(self@ =~= (LedgerV {
                        buy_requests: l0.buy_requests.remove(ri as int),
                        balances: self@.balances,
                        ..l0
                    }));
                    assert forall|j: int|
                        0 <= j < self@.buy_requests.len() implies (
                    #[trigger] self@.buy_requests[j]).wf() by {
                        if j < ri as int {
                            assert(self@.buy_requests[j] == l0.buy_requests[j]);
                        } else {
                            assert(self@.buy_requests[j] == l0.buy_requests[j + 1]);
                        }
                    }
                }
                Ok(())
            },
            Err(e) => Err(e),
        }
    }

    /// Issues an inspection report for a vehicle, on the inspector's
    /// signature: one transaction that creates the record at key
    /// (vin, inspector, report_id), unapproved, or fails with the ledger
    /// untouched. The issuing profile, at key (inspector, inspector_name),
    /// must hold the inspector role and be verified.
    pub fn issue_car_report(
        &mut self,
        inspector: Pubkey,
        inspector_name: &Vec<u8>,
        report_id: u64,
        vin: Vec<u8>,
        overall_condition: u8,
        engine_condition: u8,
        body_condition: u8,
        full_report_uri: Vec<u8>,
        report_summary: Vec<u8>,
        notes: Vec<u8>,
        now: i64,
    ) -> (r: Result<(), ProgramError>)
        requires
            old(self)@.wf(),
        ensures
            final(self)@.wf(),
            ({
                let l0 = old(self)@;
                let issuer = l0.user_at(inspector, inspector_name@);
                match r {
                    Ok(()) => {
                        &&& l0.has_car(vin@)
                        &&& l0.has_user(inspector, inspector_name@)
                        &&& !l0.has_car_report(vin@, inspector, report_id)
                        &&& issuer.role == UserRoles::Inspector
                        &&& issuer.verification_status == VerificationStatus::Verified
                        &&& MIN_CONDITION_SCORE <= overall_condition <= MAX_CONDITION_SCORE
                        &&& MIN_CONDITION_SCORE <= engine_condition <= MAX_CONDITION_SCORE
                        &&& MIN_CONDITION_SCORE <= body_condition <= MAX_CONDITION_SCORE
                        &&& notes@.len() <= MAX_REPORT_NOTES_LEN
                        &&& full_report_uri@.len() <= MAX_REPORT_URI_LEN
                        &&& report_summary@.len() <= MAX_REPORT_SUMMARY_LEN
                        &&& final(self)@ == (LedgerV {
                            car_reports: l0.car_reports.push(
                                CarReportV {
                                    report_id,
                                    car: vin@,
                                    inspector,
                                    car_owner: l0.car_at(vin@).owner,
                                    report_date: now,
                                    overall_condition,
                                    engine_condition,
                                    body_condition,
                                    full_report_uri: full_report_uri@,
                                    report_summary: report_summary@,
                                    approved_by_owner: false,
                                    notes: notes@,
                                },
                            ),
                            ..l0
                        })
                    },
                    Err(e) => {
                        &&& final(self)@ == l0
                        &&& if !l0.has_car(vin@) {
                            e == ProgramError::AccountNotFound
                        } else if !l0.has_user(inspector, inspector_name@) {
                            e == ProgramError::AccountNotFound
                        } else if l0.has_car_report(vin@, inspector, report_id) {
                            e == ProgramError::AccountAlreadyInUse
                        } else if issuer.role != UserRoles::Inspector {
                            e == ProgramError::Report(CarReportError::NotAuthorizedInspector)
                        } else if issuer.verification_status != VerificationStatus::Verified {
                            e == ProgramError::Report(CarReportError::InspectorNotVerified)
                        } else if !(MIN_CONDITION_SCORE <= overall_condition
                            <= MAX_CONDITION_SCORE) {
                            e == ProgramError::Report(CarReportError::InvalidConditionScore)
                        } else if !(MIN_CONDITION_SCORE <= engine_condition
                            <= MAX_CONDITION_SCORE) {
                            e == ProgramError::Report(CarReportError::InvalidConditionScore)
                        } else if !(MIN_CONDITION_SCORE <= body_condition <= MAX_CONDITION_SCORE) {
                            e == ProgramError::Report(CarReportError::InvalidConditionScore)
                        } else if notes@.len() > MAX_REPORT_NOTES_LEN {
                            e == ProgramError::Report(CarReportError::NotesTooLong)
                        } else if full_report_uri@.len() > MAX_REPORT_URI_LEN {
                            e == ProgramError::Report(CarReportError::UriTooLong)
                        } else {
                            &&& e == ProgramError::Report(CarReportError::SummaryTooLong)
                            &&& report_summary@.len() > MAX_REPORT_SUMMARY_LEN
                        }
                    },
                }
            }),
    {
        let ci = match self.find_car(&vin) {
            Some(i) => i,
            None => {
                return Err(ProgramError::AccountNotFound);
            },
        };
        let ui = match self.find_user(inspector, inspector_name) {
            Some(i) => i,
            None => {
                return Err(ProgramError::AccountNotFound);
            },
        };
        if self.find_car_report(&vin, inspector, report_id).is_some() {
            return Err(ProgramError::AccountAlreadyInUse);
        }
        proof {
            lemma_car_found(old(self)@, vin@, ci as int);
            lemma_user_found(old(self)@, inspector, inspector_name@, ui as int);
        }
        let ctx = IssueCarReport {
            car: self.cars[ci].duplicate(),
            inspector: self.users[ui].duplicate(),
            inspector_signer: inspector,
        };
        match crate::instructions::issue_car_report::handler(
            &ctx,
            report_id,
            vin,
            overall_condition,
            engine_condition,
            body_condition,
            full_report_uri,
            report_summary,
            notes,
            now,
        ) {
            Ok(report) => {
                let ghost l0 = old(self)@;
                let ghost wv = report@;
                self.car_reports.push(report);
                proof {
                    lemma_dv_push(old(self).car_reports@, report);
                    lemma_car_reports_push(l0.car_reports, wv);
                    assert(self@ =~= (LedgerV { car_reports: l0.car_reports.push(wv), ..l0 }));
                    assert(wv.wf());
                    assert forall|j: int|
                        0 <= j < self@.car_reports.len() implies (
                    #[trigger] self@.car_reports[j]).wf() by {
                        if j < l0.car_reports.len() {
                            assert(self@.car_reports[j] == l0.car_reports[j]);
                        } else {
                            assert(self@.car_reports[j] == wv);
                        }
                    }
                }
                Ok(())
            },
            Err(e) => Err(e),
        }
    }

    /// Approves an inspection report, on the signature of the owner of the
    /// vehicle at `vin`: one transaction that sets the approval flag of the
    /// report at key (report_car, inspector, report_id), or fails with the
    /// ledger untouched. The report must reference that same vehicle.
    pub fn accept_report(
        &mut self,
        owner: Pubkey,
        vin: &Vec<u8>,
        report_car: &Vec<u8>,
        inspector: Pubkey,
        report_id: u64,
    ) -> (r: Result<(), ProgramError>)
        requires
            old(self)@.wf(),
        ensures
            final(self)@.wf(),
            ({
                let l0 = old(self)@;
                let rep = l0.car_report_at(report_car@, inspector, report_id);
                let car = l0.car_at(vin@);
                match r {
                    Ok(()) => {
                        &&& l0.has_car_report(report_car@, inspector, report_id)
                        &&& l0.has_car(vin@)
                        &&& car.owner == owner
                        &&& rep.car == car.vin
                        &&& final(self)@ == (LedgerV {
                            car_reports: l0.car_reports.update(
                                l0.car_report_idx(report_car@, inspector, report_id),
                                CarReportV { approved_by_owner: true, ..rep },
                            ),
                            ..l0
                        })
                    },
                    Err(e) => {
                        &&& final(self)@ == l0
                        &&& if !l0.has_car_report(report_car@, inspector, report_id) {
                            e == ProgramError::AccountNotFound
                        } else if !l0.has_car(vin@) {
                            e == ProgramError::AccountNotFound
                        } else if car.owner != owner {
                            e == ProgramError::Car(CarError::UnauthorizedAccess)
                        } else {
                            &&& e == ProgramError::Report(CarReportError::InvalidReport)
                            &&& rep.car != car.vin
                        }
                    },
                }
            }),
    {
        let wi = match self.find_car_report(report_car, inspector, report_id) {
            Some(i) => i,
            None => {
                return Err(ProgramError::AccountNotFound);
            },
        };
        let ci = match self.find_car(vin) {
            Some(i) => i,
            None => {
                return Err(ProgramError::AccountNotFound);
            },
        };
        proof {
            lemma_car_report_found(old(self)@, report_car@, inspector, report_id, wi as int);
            lemma_car_found(old(self)@, vin@, ci as int);
        }
        let mut ctx = AcceptReport {
            report: self.car_reports[wi].duplicate(),
            car: self.cars[ci].duplicate(),
            owner,
        };
        match crate::instructions::accept_report::handler(&mut ctx, report_id) {
            Ok(()) => {
                let ghost l0 = old(self)@;
                let ghost wv = ctx.report@;
                self.car_reports[wi] = ctx.report;
                proof {
                    lemma_dv_update(old(self).car_reports@, wi as int, ctx.report);
                    lemma_car_reports_update_same_key(l0.car_reports, wi as int, wv);
                    assert(self@ =~= (LedgerV {
                        car_reports: l0.car_reports.update(wi as int, wv),
                        ..l0
                    }));
                    assert(wv.wf());
                    assert forall|j: int|
                        0 <= j < self@.car_reports.len() implies (
                    #[trigger] self@.car_reports[j]).wf() by {
                        if j != wi as int {
                            assert(self@.car_reports[j] == l0.car_reports[j]);
                        }
                    }
                }
                Ok(())
            },
            Err(e) => Err(e),
        }
    }

    /// Issues a conformity report for a vehicle, on the expert's signature:
    /// one transaction that creates the record at key
    /// (vin, expert, report_id), unaccepted, or fails with the ledger
    /// untouched. The issuing profile, at key (expert, expert_name), must
    /// hold the conformity-expert role and be verified.
    pub fn issue_confirmity_report(
        &mut self,
        confirmity_expert: Pubkey,
        expert_name: &Vec<u8>,
        report_id: u64,
        vin: Vec<u8>,
        conformity_status: bool,
        modifications: Vec<u8>,
        full_report_uri: Vec<u8>,
        mines_stamp: Vec<u8>,
        notes: Vec<u8>,
        now: i64,
    ) -> (r: Result<(), ProgramError>)
        requires
            old(self)@.wf(),
            full_report_uri@.len() <= MAX_CONFORMITY_URI_LEN,
        ensures
            final(self)@.wf(),
            ({
                let l0 = old(self)@;
                let issuer = l0.user_at(confirmity_expert, expert_name@);
                match r {
                    Ok(()) => {
                        &&& l0.has_car(vin@)
                        &&& l0.has_user(confirmity_expert, expert_name@)
                        &&& !l0.has_conformity_report(vin@, confirmity_expert, report_id)
                        &&& issuer.role == UserRoles::ConfirmityExpert
                        &&& issuer.verification_status == VerificationStatus::Verified
                        &&& modifications@.len() <= MAX_MODIFICATIONS_LEN
                        &&& mines_stamp@.len() <= MAX_STAMP_LEN
                        &&& notes@.len() <= MAX_CONFORMITY_NOTES_LEN
                        &&& final(self)@ == (LedgerV {
                            conformity_reports: l0.conformity_reports.push(
                                ConformityReportV {
                                    report_id,
                                    car: vin@,
                                    confirmity_expert,
                                    car_owner: l0.car_at(vin@).owner,
                                    report_date: now,
                                    conformity_status,
                                    modifications: modifications@,
                                    mines_stamp: mines_stamp@,
                                    full_report_uri: full_report_uri@,
                                    accepted_by_owner: false,
                                    notes: notes@,
                                },
                            ),
                            ..l0
                        })
                    },
                    Err(e) => {
                        &&& final(self)@ == l0
                        &&& if !l0.has_car(vin@) {
                            e == ProgramError::AccountNotFound
                        } else if !l0.has_user(confirmity_expert, expert_name@) {
                            e == ProgramError::AccountNotFound
                        } else if l0.has_conformity_report(vin@, confirmity_expert, report_id) {
                            e == ProgramError::AccountAlreadyInUse
                        } else if issuer.role != UserRoles::ConfirmityExpert {
                            e == ProgramError::Conformity(
                                ConfirmityReportError::NotAuthorizedConfirmityExpert,
                            )
                        } else if issuer.verification_status != VerificationStatus::Verified {
                            e == ProgramError::Conformity(
                                ConfirmityReportError::ConfirmityExpertNotVerified,
                            )
                        } else if modifications@.len() > MAX_MODIFICATIONS_LEN {
                            e == ProgramError::Conformity(
                                ConfirmityReportError::ModificationsTooLong,
                            )
                        } else if mines_stamp@.len() > MAX_STAMP_LEN {
                            e == ProgramError::Conformity(ConfirmityReportError::StampTooLong)
                        } else {
                            &&& e == ProgramError::Conformity(ConfirmityReportError::NotesTooLong)
                            &&& notes@.len() > MAX_CONFORMITY_NOTES_LEN
                        }
                    },
                }
            }),
    {
        let ci = match self.find_car(&vin) {
            Some(i) => i,
            None => {
                return Err(ProgramError::AccountNotFound);
            },
        };
        let ui = match self.find_user(confirmity_expert, expert_name) {
            Some(i) => i,
            None => {
                return Err(ProgramError::AccountNotFound);
            },
        };
        if self.find_conformity_report(&vin, confirmity_expert, report_id).is_some() {
            return Err(ProgramError::AccountAlreadyInUse);
        }
        proof {
            lemma_car_found(old(self)@, vin@, ci as int);
            lemma_user_found(old(self)@, confirmity_expert, expert_name@, ui as int);
        }
        let ctx = IssueConformityReport {
            car: self.cars[ci].duplicate(),
            confirmity_expert: self.users[ui].duplicate(),
            confirmity_expert_signer: confirmity_expert,
        };
        match crate::instructions::issue_confirmity_report::handler(
            &ctx,
            report_id,
            vin,
            conformity_status,
            modifications,
            full_report_uri,
            mines_stamp,
            notes,
            now,
        ) {
            Ok(report) => {
                let ghost l0 = old(self)@;
                let ghost wv = report@;
                self.conformity_reports.push(report);
                proof {
                    lemma_dv_push(old(self).conformity_reports@, report);
                    lemma_conformity_push(l0.conformity_reports, wv);
                    assert(self@ =~= (LedgerV {
                        conformity_reports: l0.conformity_reports.push(wv),
                        ..l0
                    }));
                    assert(wv.wf());
                    assert forall|j: int|
                        0 <= j < self@.conformity_reports.len() implies (
                    #[trigger] self@.conformity_reports[j]).wf() by {
                        if j < l0.conformity_reports.len() {
                            assert(self@.conformity_reports[j] == l0.conformity_reports[j]);
                        } else {
                            assert(self@.conformity_reports[j] == wv);
                        }
                    }
                }
                Ok(())
            },
            Err(e) => Err(e),
        }
    }

    /// Accepts a conformity report, on the signature of the owner of the
    /// vehicle at `vin`: one transaction that sets the acceptance flag of the
    /// report at key (report_car, expert, report_id), or fails with the
    /// ledger untouched. The report must reference that same vehicle.
    pub fn accept_confirmity_report(
        &mut self,
        owner: Pubkey,
        vin: &Vec<u8>,
        report_car: &Vec<u8>,
        confirmity_expert: Pubkey,
        report_id: u64,
    ) -> (r: Result<(), ProgramError>)
        requires
            old(self)@.wf(),
        ensures
            final(self)@.wf(),
            ({
                let l0 = old(self)@;
                let rep = l0.conformity_report_at(report_car@, confirmity_expert, report_id);
                let car = l0.car_at(vin@);
                match r {
                    Ok(()) => {
                        &&& l0.has_conformity_report(report_car@, confirmity_expert, report_id)
                        &&& l0.has_car(vin@)
                        &&& car.owner == owner
                        &&& rep.car == car.vin
                        &&& final(self)@ == (LedgerV {
                            conformity_reports: l0.conformity_reports.update(
                                l0.conformity_report_idx(
                                    report_car@,
                                    confirmity_expert,
                                    report_id,
                                ),
                                ConformityReportV { accepted_by_owner: true, ..rep },
                            ),
                            ..l0
                        })
                    },
                    Err(e) => {
                        &&& final(self)@ == l0
                        &&& if !l0.has_conformity_report(
                            report_car@,
                            confirmity_expert,
                            report_id,
                        ) {
                            e == ProgramError::AccountNotFound
                        } else if !l0.has_car(vin@) {
                            e == ProgramError::AccountNotFound
                        } else if car.owner != owner {
                            e == ProgramError::Car(CarError::UnauthorizedAccess)
                        } else {
                            &&& e == ProgramError::Conformity(ConfirmityReportError::InvalidReport)
                            &&& rep.car != car.vin
                        }
                    },
                }
            }),
    {
        let wi = match self.find_conformity_report(report_car, confirmity_expert, report_id) {
            Some(i) => i,
            None => {
                return Err(ProgramError::AccountNotFound);
            },
        };
        let ci = match self.find_car(vin) {
            Some(i) => i,
            None => {
                return Err(ProgramError::AccountNotFound);
            },
        };
        proof {
            lemma_conformity_found(
                old(self)@,
                report_car@,
                confirmity_expert,
                report_id,
                wi as int,
            );
            lemma_car_found(old(self)@, vin@, ci as int);
        }
        let mut ctx = AcceptConfirmityReport {
            conformity_report: self.conformity_reports[wi].duplicate(),
            car: self.cars[ci].duplicate(),
            owner,
        };
        match crate::instructions::accept_confirmity_report::handler(&mut ctx, report_id) {
            Ok(()) => {
                let ghost l0 = old(self)@;
                let ghost wv = ctx.conformity_report@;
                self.conformity_reports[wi] = ctx.conformity_report;
                proof {
                    lemma_dv_update(old(self).conformity_reports@, wi as int, ctx.conformity_report);
                    lemma_conformity_update_same_key(l0.conformity_reports, wi as int, wv);
                    assert(self@ =~= (LedgerV {
                        conformity_reports: l0.conformity_reports.update(wi as int, wv),
                        ..l0
                    }));
                    assert(wv.wf());
                    assert forall|j: int|
                        0 <= j < self@.conformity_reports.len() implies (
                    #[trigger] self@.conformity_reports[j]).wf() by {
                        if j != wi as int {
                            assert(self@.conformity_reports[j] == l0.conformity_reports[j]);
                        }
                    }
                }
                Ok(())
            },
            Err(e) => Err(e),
        }
    }

    /// Funds an identity from outside the registry: the model's stand-in for
    /// value entering the platform's account space.
    ///
    /// Everything but the one balance entry stays as it was; the entry rises
    /// by exactly `amount`, or the whole request fails on overflow.
    pub fn credit(&mut self, key: Pubkey, amount: u64) -> (r: Result<(), ProgramError>)
        requires
            old(self)@.wf(),
        ensures
            final(self)@.wf(),
            match r {
                Ok(()) => {
                    &&& old(self)@.balance_of(key) + amount <= u64::MAX
                    &&& final(self)@ == (LedgerV {
                        balances: final(self)@.balances,
                        ..old(self)@
                    })
                    &&& final(self)@.balance_of(key) == old(self)@.balance_of(key) + amount
                    &&& forall|k2: Pubkey|
                        k2 != key ==> final(self)@.balance_of(k2) == old(self)@.balance_of(k2)
                },
                Err(e) => {
                    &&& final(self)@ == old(self)@
                    &&& e == ProgramError::TransferFailed
                    &&& old(self)@.balance_of(key) + amount > u64::MAX
                },
            },
    {
        match self.find_balance(key) {
            Some(i) => {
                proof {
                    lemma_balance_found(old(self)@, key, i as int);
                }
                let cur = self.balances[i].lamports;
                if amount > u64::MAX - cur {
                    return Err(ProgramError::TransferFailed);
                }
                self.balances[i] = Balance { key, lamports: cur + amount };
                proof {
                    lemma_balance_update(old(self)@, self@, key, i as int);
                }
                Ok(())
            },
            None => {
                self.balances.push(Balance { key, lamports: amount });
                proof {
                    lemma_balance_push(old(self)@, self@, key, amount);
                }
                Ok(())
            },
        }
    }
}

/// Overwriting one balance entry, key kept, moves that identity's balance to
/// the new amount and no other; uniqueness survives.
pub proof fn lemma_balance_update(l0: LedgerV, l1: LedgerV, k: Pubkey, i: int)
    requires
        balances_unique_keys(l0.balances),
        balance_key_at(l0.balances, k, i),
        l1.balances == l0.balances.update(i, Balance { key: k, lamports: l1.balances[i].lamports }),
    ensures
        balances_unique_keys(l1.balances),
        l1.balance_of(k) == l1.balances[i].lamports,
        forall|k2: Pubkey| k2 != k ==> l1.balance_of(k2) == l0.balance_of(k2),
{
    assert forall|k2: Pubkey, a: int, b: int|
        balance_key_at(l1.balances, k2, a) && balance_key_at(l1.balances, k2, b) implies a
        == b by {
        if a == i && b != i {
            assert(balance_key_at(l0.balances, k, b));
            assert(balance_key_at(l0.balances, k, i));
        } else if b == i && a != i {
            assert(balance_key_at(l0.balances, k, a));
            assert(balance_key_at(l0.balances, k, i));
        } else if a != i && b != i {
            assert(balance_key_at(l0.balances, k2, a));
            assert(balance_key_at(l0.balances, k2, b));
        }
    }
    assert(balance_key_at(l1.balances, k, i));
    lemma_balance_found(l1, k, i);
    assert forall|k2: Pubkey| k2 != k implies l1.balance_of(k2) == l0.balance_of(k2) by {
        if l0.has_balance(k2) {
            let j = l0.balance_idx(k2);
            assert(balance_key_at(l0.balances, k2, j));
            assert(j != i);
            assert(balance_key_at(l1.balances, k2, j));
            lemma_balance_found(l1, k2, j);
        } else {
            if l1.has_balance(k2) {
                let j = l1.balance_idx(k2);
                assert(balance_key_at(l1.balances, k2, j));
                assert(j != i);
                assert(balance_key_at(l0.balances, k2, j));
            }
        }
    }
}

/// Appending an entry for a fresh identity gives it that balance and moves
/// no other; uniqueness survives.
pub proof fn lemma_balance_push(l0: LedgerV, l1: LedgerV, k: Pubkey, amount: u64)
    requires
        balances_unique_keys(l0.balances),
        !l0.has_balance(k),
        l1.balances == l0.balances.push(Balance { key: k, lamports: amount }),
    ensures
        balances_unique_keys(l1.balances),
        l1.balance_of(k) == amount,
        l0.balance_of(k) == 0,
        forall|k2: Pubkey| k2 != k ==> l1.balance_of(k2) == l0.balance_of(k2),
{
    let n = l0.balances.len() as int;
    assert forall|k2: Pubkey, a: int, b: int|
        balance_key_at(l1.balances, k2, a) && balance_key_at(l1.balances, k2, b) implies a
        == b by {
        if a < n && b < n {
            assert(balance_key_at(l0.balances, k2, a));
            assert(balance_key_at(l0.balances, k2, b));
        } else if a < n && b == n {
            assert(balance_key_at(l0.balances, k, a));
        } else if a == n && b < n {
            assert(balance_key_at(l0.balances, k, b));
        }
    }
    assert(balance_key_at(l1.balances, k, n));
    lemma_balance_found(l1, k, n);
    assert forall|k2: Pubkey| k2 != k implies l1.balance_of(k2) == l0.balance_of(k2) by {
        if l0.has_balance(k2) {
            let j = l0.balance_idx(k2);
            assert(balance_key_at(l0.balances, k2, j));
            assert(balance_key_at(l1.balances, k2, j));
            lemma_balance_found(l1, k2, j);
        } else {
            if l1.has_balance(k2) {
                let j = l1.balance_idx(k2);
                assert(balance_key_at(l1.balances, k2, j));
                assert(j != n);
                assert(balance_key_at(l0.balances, k2, j));
            }
        }
    }
}

} // verus!
