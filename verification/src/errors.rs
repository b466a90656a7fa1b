use vstd::prelude::*;

verus! {

/// Vehicle and escrow failures.
#[derive(Clone, Copy, PartialEq, Eq, Structural, Debug)]
pub enum CarError {
    /// Only the government authority may create vehicles.
    UnauthorizedGovernment,
    /// The vehicle identification number is not exactly 17 bytes.
    InvalidVin,
    /// The brand is empty or longer than 30 bytes.
    InvalidBrand,
    /// The model is empty or longer than 50 bytes.
    InvalidModel,
    /// The construction year lies outside 1900..=2025.
    InvalidYear,
    /// The engine number is empty.
    InvalidEngineNumber,
    /// A sale-dependent operation was attempted on a vehicle not listed.
    CarNotForSale,
    /// A buyer attempted to buy their own vehicle.
    CannotBuyOwnCar,
    /// The buy request does not match the vehicle supplied.
    InvalidBuyRequest,
    /// The buy request is not in the state the operation expects.
    InvalidBuyRequestStatus,
    /// The actor is not the record's owner or seller.
    UnauthorizedAccess,
    /// The vehicle is listed without a sale price.
    SalePriceNotSet,
}

/// User-profile failures.
#[derive(Clone, Copy, PartialEq, Eq, Structural, Debug)]
pub enum CustomError {
    /// No profile exists for the given identity and name.
    UserNotFound,
    /// The profile's verification was already decided.
    UserAlreadyProcessed,
    /// The actor is not the government authority.
    UnauthorizedVerifier,
    /// The profile is in no valid verification state for the operation.
    InvalidUserStatus,
    /// A profile with this key already exists.
    UserIdAlreadyExists,
    /// The profile data is not valid.
    InvalidUserData,
    /// The actor is not the vehicle's owner.
    NotCarOwner,
    /// The profile is not verified.
    UserNotVerified,
}

/// Registration failures.
#[derive(Clone, Copy, PartialEq, Eq, Structural, Debug)]
pub enum ErrorCode {
    /// The user name is empty or longer than 50 bytes.
    InvalidUserName,
    /// Only the government may perform this action.
    Unauthorized,
    /// The user is not verified.
    UserNotVerified,
    /// A vehicle with this identification number already exists.
    CarAlreadyExists,
    /// No vehicle with this identification number exists.
    CarNotFound,
    /// The actor is not the designated minter.
    UnauthorizedMinter,
}

/// Inspection-report failures.
#[derive(Clone, Copy, PartialEq, Eq, Structural, Debug)]
pub enum CarReportError {
    /// A condition score lies outside 1..=10.
    InvalidConditionScore,
    /// The notes exceed their cap.
    NotesTooLong,
    /// The issuer does not hold the inspector role.
    NotAuthorizedInspector,
    /// The inspector's profile is not verified.
    InspectorNotVerified,
    /// The report location exceeds 256 bytes.
    UriTooLong,
    /// The report summary exceeds 512 bytes.
    SummaryTooLong,
    /// The report does not reference the vehicle supplied.
    InvalidReport,
}

/// Conformity-report failures.
#[derive(Clone, Copy, PartialEq, Eq, Structural, Debug)]
pub enum ConfirmityReportError {
    /// The report does not reference the vehicle supplied.
    InvalidReport,
    /// The issuer does not hold the conformity-expert role.
    NotAuthorizedConfirmityExpert,
    /// The expert's profile is not verified.
    ConfirmityExpertNotVerified,
    /// The modifications text exceeds 256 bytes.
    ModificationsTooLong,
    /// The stamp text exceeds 256 bytes.
    StampTooLong,
    /// The notes exceed their cap.
    NotesTooLong,
}

/// Everything a request can fail with.
///
/// The first five variants carry the registry's own error kinds. The last
/// three stand for failures of the host platform that abort a request before
/// the registry's logic is reached or while funds move: a record created at
/// an occupied key, a record read at an empty key, and a fund transfer that
/// the custody layer refuses (source short of funds, or destination balance
/// overflowing).
#[derive(Clone, Copy, PartialEq, Eq, Structural, Debug)]
pub enum ProgramError {
    Car(CarError),
    Custom(CustomError),
    Code(ErrorCode),
    Report(CarReportError),
    Conformity(ConfirmityReportError),
    /// The keyed store already holds a record at the derived key.
    AccountAlreadyInUse,
    /// The keyed store holds no record at the derived key.
    AccountNotFound,
    /// The fund-custody transfer primitive failed; nothing moved.
    TransferFailed,
}

} // verus!
