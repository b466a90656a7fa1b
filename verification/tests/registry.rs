use car_chain::errors::{
    CarError, CarReportError, ConfirmityReportError, CustomError, ErrorCode, ProgramError,
};
use car_chain::identity::Pubkey;
use car_chain::ledger::Ledger;
use car_chain::state::buy_request::{BuyRequest, BuyRequestStatus};
use car_chain::state::car::{CarAccount, InspectionStatus};
use car_chain::state::car_report::CarReport;
use car_chain::state::user::{UserAccount, UserRoles, VerificationStatus};

const GOV: u64 = 1;

fn key(id: u64) -> Pubkey {
    Pubkey { id }
}

fn b(s: &str) -> Vec<u8> {
    s.as_bytes().to_vec()
}

fn long(n: usize) -> Vec<u8> {
    vec![b'a'; n]
}

fn new_ledger() -> Ledger {
    Ledger::new(key(GOV))
}

fn add_user(l: &mut Ledger, id: u64, name: &str, role: UserRoles) {
    l.register_user(key(id), b(name), b("pub-uri"), b("priv-uri"), b("kg"), b("ku"), role, 1000)
        .unwrap();
}

fn add_verified_user(l: &mut Ledger, id: u64, name: &str, role: UserRoles) {
    add_user(l, id, name, role);
    l.verify_user(key(GOV), key(id), &b(name), true, 1001).unwrap();
}

fn add_car(l: &mut Ledger, vin: &str, owner: u64) {
    l.register_car(
        key(GOV),
        b("car-1"),
        b(vin),
        b("Honda"),
        b("Accord"),
        2003,
        b("silver"),
        b("EN-123"),
        key(owner),
        None,
        InspectionStatus::Passed,
        None,
        42_000,
        999,
    )
    .unwrap();
}

fn car_by_vin<'a>(l: &'a Ledger, vin: &str) -> &'a CarAccount {
    l.cars.iter().find(|c| c.vin == b(vin)).expect("vehicle not in store")
}

fn request_by_key<'a>(l: &'a Ledger, vin: &str, buyer: u64) -> Option<&'a BuyRequest> {
    l.buy_requests.iter().find(|q| q.vin == b(vin) && q.buyer == key(buyer))
}

const VIN_A: &str = "1HGCM82633A004352";
const VIN_B: &str = "2HGCM82633A004353";

#[test]
fn register_user_creates_pending_profile() {
    let mut l = new_ledger();
    add_user(&mut l, 7, "alice", UserRoles::Normal);
    assert_eq!(l.users.len(), 1);
    let u = &l.users[0];
    assert_eq!(u.authority, key(7));
    assert_eq!(u.user_name, b("alice"));
    assert_eq!(u.verification_status, VerificationStatus::Pending);
    assert_eq!(u.verified_at, None);
    assert_eq!(u.verified_by, None);
    assert_eq!(u.created_at, 1000);
    assert_eq!(u.updated_at, 1000);
}

#[test]
fn register_user_rejects_empty_name() {
    let mut l = new_ledger();
    let r = l.register_user(key(7), b(""), b("p"), b("q"), b("kg"), b("ku"), UserRoles::Normal, 1);
    assert_eq!(r, Err(ProgramError::Code(ErrorCode::InvalidUserName)));
    assert_eq!(l.users.len(), 0);
}

#[test]
fn register_user_name_length_bounds() {
    let mut l = new_ledger();
    let r = l.register_user(
        key(7),
        long(51),
        b("p"),
        b("q"),
        b("kg"),
        b("ku"),
        UserRoles::Normal,
        1,
    );
    assert_eq!(r, Err(ProgramError::Code(ErrorCode::InvalidUserName)));
    let r = l.register_user(
        key(7),
        long(50),
        b("p"),
        b("q"),
        b("kg"),
        b("ku"),
        UserRoles::Normal,
        1,
    );
    assert_eq!(r, Ok(()));
}

#[test]
fn register_user_duplicate_key_fails() {
    let mut l = new_ledger();
    add_user(&mut l, 7, "alice", UserRoles::Normal);
    let r = l.register_user(
        key(7),
        b("alice"),
        b("p2"),
        b("q2"),
        b("kg"),
        b("ku"),
        UserRoles::Inspector,
        2000,
    );
    assert_eq!(r, Err(ProgramError::AccountAlreadyInUse));
    assert_eq!(l.users.len(), 1);
}

#[test]
fn one_identity_may_hold_several_named_profiles() {
    let mut l = new_ledger();
    add_user(&mut l, 7, "alice", UserRoles::Normal);
    let r = l.register_user(
        key(7),
        b("alice-inspector"),
        b("p"),
        b("q"),
        b("kg"),
        b("ku"),
        UserRoles::Inspector,
        2000,
    );
    assert_eq!(r, Ok(()));
    assert_eq!(l.users.len(), 2);
}

#[test]
fn verify_user_approves_and_stamps() {
    let mut l = new_ledger();
    add_user(&mut l, 7, "alice", UserRoles::Normal);
    l.verify_user(key(GOV), key(7), &b("alice"), true, 5000).unwrap();
    let u = &l.users[0];
    assert_eq!(u.verification_status, VerificationStatus::Verified);
    assert_eq!(u.verified_at, Some(5000));
    assert_eq!(u.verified_by, Some(key(GOV)));
}

#[test]
fn verify_user_can_reject() {
    let mut l = new_ledger();
    add_user(&mut l, 7, "alice", UserRoles::Normal);
    l.verify_user(key(GOV), key(7), &b("alice"), false, 5000).unwrap();
    assert_eq!(l.users[0].verification_status, VerificationStatus::Rejected);
}

#[test]
fn verify_user_twice_is_already_processed() {
    let mut l = new_ledger();
    add_user(&mut l, 7, "alice", UserRoles::Normal);
    l.verify_user(key(GOV), key(7), &b("alice"), false, 5000).unwrap();
    let r = l.verify_user(key(GOV), key(7), &b("alice"), true, 5001);
    assert_eq!(r, Err(ProgramError::Custom(CustomError::UserAlreadyProcessed)));
    assert_eq!(l.users[0].verification_status, VerificationStatus::Rejected);
}

#[test]
fn verify_user_requires_government() {
    let mut l = new_ledger();
    add_user(&mut l, 7, "alice", UserRoles::Normal);
    let r = l.verify_user(key(9), key(7), &b("alice"), true, 5000);
    assert_eq!(r, Err(ProgramError::Custom(CustomError::UnauthorizedVerifier)));
    assert_eq!(l.users[0].verification_status, VerificationStatus::Pending);
}

#[test]
fn verify_user_missing_profile() {
    let mut l = new_ledger();
    let r = l.verify_user(key(GOV), key(7), &b("alice"), true, 5000);
    assert_eq!(r, Err(ProgramError::AccountNotFound));
}

#[test]
fn register_car_sets_initial_state() {
    let mut l = new_ledger();
    add_car(&mut l, VIN_A, 2);
    let c = car_by_vin(&l, VIN_A);
    assert_eq!(c.owner, key(2));
    assert_eq!(c.registered_by, key(GOV));
    assert_eq!(c.registration_date, Some(999));
    assert!(c.is_active);
    assert_eq!(c.transfer_count, 0);
    assert!(!c.is_for_sale);
    assert_eq!(c.sale_price, None);
}

#[test]
fn register_car_requires_government() {
    let mut l = new_ledger();
    let r = l.register_car(
        key(5),
        b("car-1"),
        b(VIN_A),
        b("Honda"),
        b("Accord"),
        2003,
        b("silver"),
        b("EN-123"),
        key(2),
        None,
        InspectionStatus::Pending,
        None,
        0,
        1,
    );
    assert_eq!(r, Err(ProgramError::Custom(CustomError::UnauthorizedVerifier)));
    assert_eq!(l.cars.len(), 0);
    // Authorization is checked first: a stranger aiming at an occupied
    // number learns nothing about occupancy.
    add_car(&mut l, VIN_A, 2);
    let r = l.register_car(
        key(5),
        b("car-1"),
        b(VIN_A),
        b("Honda"),
        b("Accord"),
        2003,
        b("silver"),
        b("EN-123"),
        key(2),
        None,
        InspectionStatus::Pending,
        None,
        0,
        1,
    );
    assert_eq!(r, Err(ProgramError::Custom(CustomError::UnauthorizedVerifier)));
}

#[test]
fn register_car_vin_must_be_17_bytes() {
    let mut l = new_ledger();
    for vin in ["", "1HGCM82633A00435", "1HGCM82633A0043521"] {
        let r = l.register_car(
            key(GOV),
            b("car-1"),
            b(vin),
            b("Honda"),
            b("Accord"),
            2003,
            b("silver"),
            b("EN-123"),
            key(2),
            None,
            InspectionStatus::Pending,
            None,
            0,
            1,
        );
        assert_eq!(r, Err(ProgramError::Car(CarError::InvalidVin)));
    }
    assert_eq!(l.cars.len(), 0);
    add_car(&mut l, VIN_A, 2);
    assert_eq!(l.cars.len(), 1);
}

#[test]
fn register_car_same_vin_twice_fails() {
    let mut l = new_ledger();
    add_car(&mut l, VIN_A, 2);
    let r = l.register_car(
        key(GOV),
        b("car-2"),
        b(VIN_A),
        b("Toyota"),
        b("Camry"),
        2010,
        b("black"),
        b("EN-456"),
        key(3),
        None,
        InspectionStatus::Pending,
        None,
        0,
        2,
    );
    assert_eq!(r, Err(ProgramError::AccountAlreadyInUse));
    assert_eq!(l.cars.len(), 1);
    assert_eq!(car_by_vin(&l, VIN_A).owner, key(2));
}

#[test]
fn register_car_year_bounds() {
    let mut l = new_ledger();
    for (vin, year, want) in [
        (VIN_A, 1899u16, Some(CarError::InvalidYear)),
        (VIN_A, 1900, None),
        (VIN_B, 2025, None),
        ("3HGCM82633A004354", 2026, Some(CarError::InvalidYear)),
    ] {
        let r = l.register_car(
            key(GOV),
            b("car-1"),
            b(vin),
            b("Honda"),
            b("Accord"),
            year,
            b("silver"),
            b("EN-123"),
            key(2),
            None,
            InspectionStatus::Pending,
            None,
            0,
            1,
        );
        match want {
            Some(e) => assert_eq!(r, Err(ProgramError::Car(e))),
            None => assert_eq!(r, Ok(())),
        }
    }
}

#[test]
fn register_car_field_validation() {
    let mut l = new_ledger();
    let mk = |l: &mut Ledger, brand: Vec<u8>, model: Vec<u8>, engine: Vec<u8>| {
        l.register_car(
            key(GOV),
            b("car-1"),
            b(VIN_A),
            brand,
            model,
            2003,
            b("silver"),
            engine,
            key(2),
            None,
            InspectionStatus::Pending,
            None,
            0,
            1,
        )
    };
    assert_eq!(
        mk(&mut l, b(""), b("Accord"), b("EN-123")),
        Err(ProgramError::Car(CarError::InvalidBrand))
    );
    assert_eq!(
        mk(&mut l, long(31), b("Accord"), b("EN-123")),
        Err(ProgramError::Car(CarError::InvalidBrand))
    );
    assert_eq!(
        mk(&mut l, b("Honda"), b(""), b("EN-123")),
        Err(ProgramError::Car(CarError::InvalidModel))
    );
    assert_eq!(
        mk(&mut l, b("Honda"), long(51), b("EN-123")),
        Err(ProgramError::Car(CarError::InvalidModel))
    );
    assert_eq!(
        mk(&mut l, b("Honda"), b("Accord"), b("")),
        Err(ProgramError::Car(CarError::InvalidEngineNumber))
    );
    assert_eq!(mk(&mut l, b("Honda"), b("Accord"), b("EN-123")), Ok(()));
    // A model of up to 50 bytes is accepted.
    let r = l.register_car(
        key(GOV),
        b("car-2"),
        b(VIN_B),
        b("Honda"),
        long(50),
        2003,
        b("silver"),
        b("EN-456"),
        key(2),
        None,
        InspectionStatus::Pending,
        None,
        0,
        1,
    );
    assert_eq!(r, Ok(()));
}

#[test]
fn set_for_sale_lists_vehicle() {
    let mut l = new_ledger();
    add_car(&mut l, VIN_A, 2);
    l.set_for_sale(key(2), &b(VIN_A), 1500).unwrap();
    let c = car_by_vin(&l, VIN_A);
    assert!(c.is_for_sale);
    assert_eq!(c.sale_price, Some(1500));
}

#[test]
fn set_for_sale_requires_owner() {
    let mut l = new_ledger();
    add_car(&mut l, VIN_A, 2);
    let r = l.set_for_sale(key(9), &b(VIN_A), 1500);
    assert_eq!(r, Err(ProgramError::Custom(CustomError::NotCarOwner)));
    assert!(!car_by_vin(&l, VIN_A).is_for_sale);
}

#[test]
fn cancel_for_sale_clears_listing() {
    let mut l = new_ledger();
    add_car(&mut l, VIN_A, 2);
    l.set_for_sale(key(2), &b(VIN_A), 1500).unwrap();
    l.cancel_for_sale(key(2), &b(VIN_A)).unwrap();
    let c = car_by_vin(&l, VIN_A);
    assert!(!c.is_for_sale);
    assert_eq!(c.sale_price, None);
}

#[test]
fn request_buy_escrows_exactly_the_sale_price() {
    let mut l = new_ledger();
    add_verified_user(&mut l, 3, "bob", UserRoles::Normal);
    add_car(&mut l, VIN_A, 2);
    l.set_for_sale(key(2), &b(VIN_A), 1000).unwrap();
    l.credit(key(3), 5000).unwrap();
    l.request_buy(key(3), &b("bob"), b(VIN_A), Some(b("offer")), 7000).unwrap();
    let q = request_by_key(&l, VIN_A, 3).expect("request not in store");
    assert_eq!(q.amount, 1000);
    assert_eq!(q.seller, key(2));
    assert_eq!(q.status, BuyRequestStatus::Pending);
    assert_eq!(q.created_at, 7000);
    assert_eq!(l.balance_of(key(3)), 4000);
}

#[test]
fn request_buy_own_car_fails() {
    let mut l = new_ledger();
    add_verified_user(&mut l, 2, "carol", UserRoles::Normal);
    add_car(&mut l, VIN_A, 2);
    l.set_for_sale(key(2), &b(VIN_A), 1000).unwrap();
    l.credit(key(2), 5000).unwrap();
    let r = l.request_buy(key(2), &b("carol"), b(VIN_A), None, 7000);
    assert_eq!(r, Err(ProgramError::Car(CarError::CannotBuyOwnCar)));
    assert!(request_by_key(&l, VIN_A, 2).is_none());
    assert_eq!(l.balance_of(key(2)), 5000);
}

#[test]
fn request_buy_needs_listing() {
    let mut l = new_ledger();
    add_verified_user(&mut l, 3, "bob", UserRoles::Normal);
    add_car(&mut l, VIN_A, 2);
    let r = l.request_buy(key(3), &b("bob"), b(VIN_A), None, 7000);
    assert_eq!(r, Err(ProgramError::Car(CarError::CarNotForSale)));
}

#[test]
fn request_buy_needs_verified_buyer() {
    let mut l = new_ledger();
    add_user(&mut l, 3, "bob", UserRoles::Normal);
    add_car(&mut l, VIN_A, 2);
    l.set_for_sale(key(2), &b(VIN_A), 1000).unwrap();
    let r = l.request_buy(key(3), &b("bob"), b(VIN_A), None, 7000);
    assert_eq!(r, Err(ProgramError::Custom(CustomError::UserNotVerified)));
}

#[test]
fn request_buy_needs_funds() {
    let mut l = new_ledger();
    add_verified_user(&mut l, 3, "bob", UserRoles::Normal);
    add_car(&mut l, VIN_A, 2);
    l.set_for_sale(key(2), &b(VIN_A), 1000).unwrap();
    l.credit(key(3), 999).unwrap();
    let r = l.request_buy(key(3), &b("bob"), b(VIN_A), None, 7000);
    assert_eq!(r, Err(ProgramError::TransferFailed));
    assert_eq!(l.balance_of(key(3)), 999);
    assert!(request_by_key(&l, VIN_A, 3).is_none());
}

#[test]
fn request_buy_twice_for_same_vehicle_fails() {
    let mut l = new_ledger();
    add_verified_user(&mut l, 3, "bob", UserRoles::Normal);
    add_car(&mut l, VIN_A, 2);
    l.set_for_sale(key(2), &b(VIN_A), 1000).unwrap();
    l.credit(key(3), 5000).unwrap();
    l.request_buy(key(3), &b("bob"), b(VIN_A), None, 7000).unwrap();
    let r = l.request_buy(key(3), &b("bob"), b(VIN_A), None, 7001);
    assert_eq!(r, Err(ProgramError::AccountAlreadyInUse));
    assert_eq!(l.balance_of(key(3)), 4000);
}

#[test]
fn request_buy_missing_vehicle_or_profile() {
    let mut l = new_ledger();
    add_verified_user(&mut l, 3, "bob", UserRoles::Normal);
    let r = l.request_buy(key(3), &b("bob"), b(VIN_A), None, 7000);
    assert_eq!(r, Err(ProgramError::AccountNotFound));
    add_car(&mut l, VIN_A, 2);
    l.set_for_sale(key(2), &b(VIN_A), 1000).unwrap();
    let r = l.request_buy(key(4), &b("dan"), b(VIN_A), None, 7000);
    assert_eq!(r, Err(ProgramError::AccountNotFound));
}

#[test]
fn accept_scenario_transfers_car_and_funds() {
    let mut l = new_ledger();
    add_verified_user(&mut l, 2, "seller", UserRoles::Normal);
    add_verified_user(&mut l, 3, "buyer", UserRoles::Normal);
    add_car(&mut l, "1HGCM82633A004352", 2);
    l.set_for_sale(key(2), &b("1HGCM82633A004352"), 1000).unwrap();
    l.credit(key(3), 1000).unwrap();
    l.request_buy(key(3), &b("buyer"), b("1HGCM82633A004352"), None, 7000).unwrap();
    assert_eq!(l.balance_of(key(3)), 0);
    let seller_before = l.balance_of(key(2));
    l.accept_buy_request(key(2), &b("seller"), &b("1HGCM82633A004352"), key(3), &b("buyer"))
        .unwrap();
    let c = car_by_vin(&l, "1HGCM82633A004352");
    assert_eq!(c.owner, key(3));
    assert!(!c.is_for_sale);
    assert_eq!(c.sale_price, None);
    assert_eq!(l.balance_of(key(2)), seller_before + 1000);
    let q = request_by_key(&l, "1HGCM82633A004352", 3).expect("audit record gone");
    assert_eq!(q.status, BuyRequestStatus::Accepted);
}

#[test]
fn accept_requires_current_owner() {
    let mut l = new_ledger();
    add_verified_user(&mut l, 2, "seller", UserRoles::Normal);
    add_verified_user(&mut l, 3, "buyer", UserRoles::Normal);
    add_verified_user(&mut l, 9, "mallory", UserRoles::Normal);
    add_car(&mut l, VIN_A, 2);
    l.set_for_sale(key(2), &b(VIN_A), 1000).unwrap();
    l.credit(key(3), 1000).unwrap();
    l.request_buy(key(3), &b("buyer"), b(VIN_A), None, 7000).unwrap();
    let r = l.accept_buy_request(key(9), &b("mallory"), &b(VIN_A), key(3), &b("buyer"));
    assert_eq!(r, Err(ProgramError::Car(CarError::UnauthorizedAccess)));
    assert_eq!(car_by_vin(&l, VIN_A).owner, key(2));
}

#[test]
fn accept_twice_sees_closed_request() {
    let mut l = new_ledger();
    add_verified_user(&mut l, 2, "seller", UserRoles::Normal);
    add_verified_user(&mut l, 3, "buyer", UserRoles::Normal);
    add_car(&mut l, VIN_A, 2);
    l.set_for_sale(key(2), &b(VIN_A), 1000).unwrap();
    l.credit(key(3), 1000).unwrap();
    l.request_buy(key(3), &b("buyer"), b(VIN_A), None, 7000).unwrap();
    l.accept_buy_request(key(2), &b("seller"), &b(VIN_A), key(3), &b("buyer")).unwrap();
    let r = l.accept_buy_request(key(2), &b("seller"), &b(VIN_A), key(3), &b("buyer"));
    assert_eq!(r, Err(ProgramError::Car(CarError::InvalidBuyRequestStatus)));
    // A rejection of the closed request is refused the same way, by its
    // new owner.
    let r = l.reject_buy_request(key(3), &b(VIN_A), key(3));
    assert_eq!(r, Err(ProgramError::Car(CarError::InvalidBuyRequestStatus)));
    assert_eq!(l.balance_of(key(2)), 1000);
}

#[test]
fn reject_refunds_buyer_and_deletes_request() {
    let mut l = new_ledger();
    add_verified_user(&mut l, 3, "bob", UserRoles::Normal);
    add_car(&mut l, VIN_A, 2);
    l.set_for_sale(key(2), &b(VIN_A), 1000).unwrap();
    l.credit(key(3), 1500).unwrap();
    l.request_buy(key(3), &b("bob"), b(VIN_A), None, 7000).unwrap();
    assert_eq!(l.balance_of(key(3)), 500);
    l.reject_buy_request(key(2), &b(VIN_A), key(3)).unwrap();
    assert_eq!(l.balance_of(key(3)), 1500);
    assert!(request_by_key(&l, VIN_A, 3).is_none());
    let r = l.reject_buy_request(key(2), &b(VIN_A), key(3));
    assert_eq!(r, Err(ProgramError::AccountNotFound));
    let r = l.accept_buy_request(key(2), &b("seller"), &b(VIN_A), key(3), &b("bob"));
    assert_eq!(r, Err(ProgramError::AccountNotFound));
}

#[test]
fn reject_requires_owner_but_not_a_listing() {
    let mut l = new_ledger();
    add_verified_user(&mut l, 3, "bob", UserRoles::Normal);
    add_car(&mut l, VIN_A, 2);
    l.set_for_sale(key(2), &b(VIN_A), 1000).unwrap();
    l.credit(key(3), 1000).unwrap();
    l.request_buy(key(3), &b("bob"), b(VIN_A), None, 7000).unwrap();
    let r = l.reject_buy_request(key(9), &b(VIN_A), key(3));
    assert_eq!(r, Err(ProgramError::Car(CarError::UnauthorizedAccess)));
    assert_eq!(l.balance_of(key(3)), 0);
    // Taking the vehicle off sale does not block the refund.
    l.cancel_for_sale(key(2), &b(VIN_A)).unwrap();
    l.reject_buy_request(key(2), &b(VIN_A), key(3)).unwrap();
    assert_eq!(l.balance_of(key(3)), 1000);
    assert!(request_by_key(&l, VIN_A, 3).is_none());
}

#[test]
fn accept_one_offer_leaves_the_other_pending() {
    let mut l = new_ledger();
    add_verified_user(&mut l, 2, "seller", UserRoles::Normal);
    add_verified_user(&mut l, 3, "ann", UserRoles::Normal);
    add_verified_user(&mut l, 4, "ben", UserRoles::Normal);
    add_car(&mut l, VIN_A, 2);
    l.set_for_sale(key(2), &b(VIN_A), 1000).unwrap();
    l.credit(key(3), 1000).unwrap();
    l.credit(key(4), 1000).unwrap();
    l.request_buy(key(3), &b("ann"), b(VIN_A), None, 7000).unwrap();
    l.request_buy(key(4), &b("ben"), b(VIN_A), None, 7001).unwrap();
    l.accept_buy_request(key(2), &b("seller"), &b(VIN_A), key(3), &b("ann")).unwrap();
    let qb = request_by_key(&l, VIN_A, 4).expect("other offer vanished");
    assert_eq!(qb.status, BuyRequestStatus::Pending);
    assert_eq!(l.balance_of(key(4)), 0);
    // The new owner rejects the stale offer explicitly; its buyer is
    // refunded even though the vehicle is no longer listed.
    l.reject_buy_request(key(3), &b(VIN_A), key(4)).unwrap();
    assert_eq!(l.balance_of(key(4)), 1000);
    assert!(request_by_key(&l, VIN_A, 4).is_none());
}

#[test]
fn transfer_car_to_verified_profile() {
    let mut l = new_ledger();
    add_verified_user(&mut l, 5, "dora", UserRoles::Normal);
    add_car(&mut l, VIN_A, 2);
    l.transfer_car(key(2), key(5), &b(VIN_A), &b("dora")).unwrap();
    assert_eq!(car_by_vin(&l, VIN_A).owner, key(5));
}

#[test]
fn transfer_car_rejects_unverified_or_stranger() {
    let mut l = new_ledger();
    add_user(&mut l, 5, "dora", UserRoles::Normal);
    add_car(&mut l, VIN_A, 2);
    let r = l.transfer_car(key(2), key(5), &b(VIN_A), &b("dora"));
    assert_eq!(r, Err(ProgramError::Custom(CustomError::UserNotVerified)));
    l.verify_user(key(GOV), key(5), &b("dora"), true, 1).unwrap();
    let r = l.transfer_car(key(9), key(5), &b(VIN_A), &b("dora"));
    assert_eq!(r, Err(ProgramError::Car(CarError::UnauthorizedAccess)));
    assert_eq!(car_by_vin(&l, VIN_A).owner, key(2));
}

#[test]
fn issue_report_condition_score_boundaries() {
    let mut l = new_ledger();
    add_verified_user(&mut l, 6, "ines", UserRoles::Inspector);
    add_car(&mut l, VIN_A, 2);
    for (id, score, want) in [
        (1u64, 0u8, Some(CarReportError::InvalidConditionScore)),
        (2, 11, Some(CarReportError::InvalidConditionScore)),
        (3, 1, None),
        (4, 10, None),
    ] {
        let r = l.issue_car_report(
            key(6),
            &b("ines"),
            id,
            b(VIN_A),
            score,
            5,
            5,
            b("uri"),
            b("summary"),
            b("notes"),
            8000,
        );
        match want {
            Some(e) => assert_eq!(r, Err(ProgramError::Report(e))),
            None => assert_eq!(r, Ok(())),
        }
    }
    assert_eq!(l.car_reports.len(), 2);
}

#[test]
fn issue_report_requires_verified_inspector() {
    let mut l = new_ledger();
    add_verified_user(&mut l, 6, "norm", UserRoles::Normal);
    add_user(&mut l, 7, "paula", UserRoles::Inspector);
    add_car(&mut l, VIN_A, 2);
    let r = l.issue_car_report(
        key(6),
        &b("norm"),
        1,
        b(VIN_A),
        5,
        5,
        5,
        b("u"),
        b("s"),
        b("n"),
        8000,
    );
    assert_eq!(r, Err(ProgramError::Report(CarReportError::NotAuthorizedInspector)));
    let r = l.issue_car_report(
        key(7),
        &b("paula"),
        1,
        b(VIN_A),
        5,
        5,
        5,
        b("u"),
        b("s"),
        b("n"),
        8000,
    );
    assert_eq!(r, Err(ProgramError::Report(CarReportError::InspectorNotVerified)));
}

#[test]
fn issue_report_text_caps() {
    let mut l = new_ledger();
    add_verified_user(&mut l, 6, "ines", UserRoles::Inspector);
    add_car(&mut l, VIN_A, 2);
    let mk = |l: &mut Ledger, id: u64, uri: Vec<u8>, summary: Vec<u8>, notes: Vec<u8>| {
        l.issue_car_report(key(6), &b("ines"), id, b(VIN_A), 5, 5, 5, uri, summary, notes, 8000)
    };
    assert_eq!(
        mk(&mut l, 1, b("u"), b("s"), long(201)),
        Err(ProgramError::Report(CarReportError::NotesTooLong))
    );
    assert_eq!(
        mk(&mut l, 1, long(257), b("s"), b("n")),
        Err(ProgramError::Report(CarReportError::UriTooLong))
    );
    assert_eq!(
        mk(&mut l, 1, b("u"), long(513), b("n")),
        Err(ProgramError::Report(CarReportError::SummaryTooLong))
    );
    assert_eq!(mk(&mut l, 1, long(256), long(512), long(200)), Ok(()));
}

#[test]
fn issue_report_snapshots_car_and_owner() {
    let mut l = new_ledger();
    add_verified_user(&mut l, 6, "ines", UserRoles::Inspector);
    add_car(&mut l, VIN_A, 2);
    l.issue_car_report(
        key(6),
        &b("ines"),
        1,
        b(VIN_A),
        7,
        8,
        9,
        b("uri"),
        b("summary"),
        b("notes"),
        8000,
    )
    .unwrap();
    let w: &CarReport = &l.car_reports[0];
    assert_eq!(w.car, b(VIN_A));
    assert_eq!(w.inspector, key(6));
    assert_eq!(w.car_owner, key(2));
    assert_eq!(w.report_date, 8000);
    assert!(!w.approved_by_owner);
    let r = l.issue_car_report(
        key(6),
        &b("ines"),
        1,
        b(VIN_A),
        7,
        8,
        9,
        b("uri"),
        b("summary"),
        b("notes"),
        8001,
    );
    assert_eq!(r, Err(ProgramError::AccountAlreadyInUse));
}

#[test]
fn accept_report_owner_only() {
    let mut l = new_ledger();
    add_verified_user(&mut l, 6, "ines", UserRoles::Inspector);
    add_car(&mut l, VIN_A, 2);
    l.issue_car_report(key(6), &b("ines"), 1, b(VIN_A), 5, 5, 5, b("u"), b("s"), b("n"), 8000)
        .unwrap();
    let r = l.accept_report(key(9), &b(VIN_A), &b(VIN_A), key(6), 1);
    assert_eq!(r, Err(ProgramError::Car(CarError::UnauthorizedAccess)));
    assert!(!l.car_reports[0].approved_by_owner);
    l.accept_report(key(2), &b(VIN_A), &b(VIN_A), key(6), 1).unwrap();
    assert!(l.car_reports[0].approved_by_owner);
    // Approving again changes nothing further.
    l.accept_report(key(2), &b(VIN_A), &b(VIN_A), key(6), 1).unwrap();
    assert!(l.car_reports[0].approved_by_owner);
}

#[test]
fn accept_report_vehicle_mismatch() {
    let mut l = new_ledger();
    add_verified_user(&mut l, 6, "ines", UserRoles::Inspector);
    add_car(&mut l, VIN_A, 2);
    add_car(&mut l, VIN_B, 9);
    l.issue_car_report(key(6), &b("ines"), 1, b(VIN_B), 5, 5, 5, b("u"), b("s"), b("n"), 8000)
        .unwrap();
    let r = l.accept_report(key(2), &b(VIN_A), &b(VIN_B), key(6), 1);
    assert_eq!(r, Err(ProgramError::Report(CarReportError::InvalidReport)));
    assert!(!l.car_reports[0].approved_by_owner);
}

#[test]
fn conformity_report_flow() {
    let mut l = new_ledger();
    add_verified_user(&mut l, 8, "xena", UserRoles::ConfirmityExpert);
    add_car(&mut l, VIN_A, 2);
    l.issue_confirmity_report(
        key(8),
        &b("xena"),
        1,
        b(VIN_A),
        true,
        b("mods"),
        b("uri"),
        b("stamp"),
        b("notes"),
        9000,
    )
    .unwrap();
    let w = &l.conformity_reports[0];
    assert_eq!(w.car, b(VIN_A));
    assert_eq!(w.confirmity_expert, key(8));
    assert_eq!(w.car_owner, key(2));
    assert!(w.conformity_status);
    assert!(!w.accepted_by_owner);
    let r = l.accept_confirmity_report(key(9), &b(VIN_A), &b(VIN_A), key(8), 1);
    assert_eq!(r, Err(ProgramError::Car(CarError::UnauthorizedAccess)));
    l.accept_confirmity_report(key(2), &b(VIN_A), &b(VIN_A), key(8), 1).unwrap();
    assert!(l.conformity_reports[0].accepted_by_owner);
}

#[test]
fn conformity_report_requires_expert_and_caps() {
    let mut l = new_ledger();
    add_verified_user(&mut l, 6, "ines", UserRoles::Inspector);
    add_verified_user(&mut l, 8, "xena", UserRoles::ConfirmityExpert);
    add_car(&mut l, VIN_A, 2);
    let r = l.issue_confirmity_report(
        key(6),
        &b("ines"),
        1,
        b(VIN_A),
        true,
        b("m"),
        b("u"),
        b("s"),
        b("n"),
        9000,
    );
    assert_eq!(
        r,
        Err(ProgramError::Conformity(ConfirmityReportError::NotAuthorizedConfirmityExpert))
    );
    let mk = |l: &mut Ledger, mods: Vec<u8>, stamp: Vec<u8>, notes: Vec<u8>| {
        l.issue_confirmity_report(
            key(8),
            &b("xena"),
            1,
            b(VIN_A),
            false,
            mods,
            b("u"),
            stamp,
            notes,
            9000,
        )
    };
    assert_eq!(
        mk(&mut l, long(257), b("s"), b("n")),
        Err(ProgramError::Conformity(ConfirmityReportError::ModificationsTooLong))
    );
    assert_eq!(
        mk(&mut l, b("m"), long(257), b("n")),
        Err(ProgramError::Conformity(ConfirmityReportError::StampTooLong))
    );
    assert_eq!(
        mk(&mut l, b("m"), b("s"), long(513)),
        Err(ProgramError::Conformity(ConfirmityReportError::NotesTooLong))
    );
    assert_eq!(mk(&mut l, long(256), long(256), long(512)), Ok(()));
}

#[test]
fn credit_fails_on_overflow() {
    let mut l = new_ledger();
    l.credit(key(3), u64::MAX - 10).unwrap();
    let r = l.credit(key(3), 11);
    assert_eq!(r, Err(ProgramError::TransferFailed));
    assert_eq!(l.balance_of(key(3)), u64::MAX - 10);
}

#[test]
fn user_account_initialize_resets_record() {
    let mut u = UserAccount {
        authority: key(9),
        user_name: b("old"),
        public_data_uri: b("old"),
        private_data_uri: b("old"),
        encrypted_key_for_gov: b("old"),
        encrypted_key_for_user: b("old"),
        role: UserRoles::Government,
        verification_status: VerificationStatus::Verified,
        verified_at: Some(1),
        verified_by: Some(key(1)),
        created_at: 1,
        updated_at: 1,
    };
    u.initialize(
        key(7),
        b("alice"),
        b("p"),
        b("q"),
        b("kg"),
        b("ku"),
        UserRoles::Normal,
        4000,
    )
    .unwrap();
    assert_eq!(u.authority, key(7));
    assert_eq!(u.user_name, b("alice"));
    assert_eq!(u.verification_status, VerificationStatus::Pending);
    assert_eq!(u.verified_at, None);
    assert_eq!(u.verified_by, None);
    assert_eq!(u.created_at, 4000);
    assert_eq!(u.updated_at, 4000);
}

#[test]
fn car_account_initialize_resets_record() {
    let mut c = CarAccount {
        car_id: b("x"),
        vin: b("x"),
        brand: b("x"),
        model: b("x"),
        year: 1,
        color: b("x"),
        engine_number: b("x"),
        owner: key(9),
        registered_by: key(9),
        registration_date: None,
        is_active: false,
        transfer_count: 7,
        last_inspection_date: None,
        inspection_status: InspectionStatus::Failed,
        latest_inspection_report: None,
        mileage: 1,
        is_for_sale: true,
        sale_price: Some(5),
    };
    c.initialize(
        b("car-1"),
        b(VIN_A),
        b("Honda"),
        b("Accord"),
        2003,
        b("silver"),
        b("EN-123"),
        key(2),
        key(GOV),
        Some(999),
        None,
        InspectionStatus::Passed,
        None,
        42_000,
    )
    .unwrap();
    assert_eq!(c.vin, b(VIN_A));
    assert_eq!(c.owner, key(2));
    assert_eq!(c.registered_by, key(GOV));
    assert!(c.is_active);
    assert_eq!(c.transfer_count, 0);
    assert!(!c.is_for_sale);
    assert_eq!(c.sale_price, None);
}

#[test]
fn buy_request_initialize_starts_pending() {
    let mut q = BuyRequest {
        vin: b("x"),
        buyer: key(9),
        seller: key(9),
        amount: 1,
        status: BuyRequestStatus::Rejected,
        created_at: 1,
        message: None,
    };
    q.initialize(b(VIN_A), key(3), key(2), 1000, Some(b("hello")), 7000).unwrap();
    assert_eq!(q.vin, b(VIN_A));
    assert_eq!(q.buyer, key(3));
    assert_eq!(q.seller, key(2));
    assert_eq!(q.amount, 1000);
    assert_eq!(q.status, BuyRequestStatus::Pending);
    assert_eq!(q.created_at, 7000);
    assert_eq!(q.message, Some(b("hello")));
}
