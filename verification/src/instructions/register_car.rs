use vstd::prelude::*;

use crate::errors::{CarError, CustomError, ProgramError};
use crate::identity::Pubkey;
use crate::state::car::{
    CarAccount, CarV, InspectionStatus, MAX_BRAND_LEN, MAX_CAR_ID_LEN, MAX_COLOR_LEN,
    MAX_ENGINE_NUMBER_LEN, MAX_INSPECTION_REPORT_LEN, MAX_MODEL_LEN, MAX_YEAR, MIN_YEAR, VIN_LEN,
};

verus! {

/// The accounts a vehicle registration touches: the government identity
/// signing for, and paying for, the new record.
pub struct RegisterCar {
    pub government: Pubkey,
}

/// The kind of inspection a report can stem from.
#[derive(Clone, Copy, PartialEq, Eq, Structural, Debug)]
pub enum InspectionType {
    Periodic,
    PreSale,
    PostAccident,
    Custom,
}

/// Registers a vehicle on behalf of `owner`.
///
/// Only the designated government authority may register vehicles. The
/// identification number must be exactly 17 bytes, the brand non-empty and
/// at most 30 bytes, the model non-empty and at most 50 bytes, the year
/// within 1900..=2025 and the engine number non-empty; the remaining text
/// fields must fit the store's fixed record,
/// which the platform enforces before the request reaches this handler.
/// The vehicle starts active, never transferred, and not for sale.
pub fn handler(
    ctx: &RegisterCar,
    government_authority: Pubkey,
    car_id: Vec<u8>,
    vin: Vec<u8>,
    brand: Vec<u8>,
    model: Vec<u8>,
    year: u16,
    color: Vec<u8>,
    engine_number: Vec<u8>,
    owner: Pubkey,
    last_inspection_date: Option<i64>,
    inspection_status: InspectionStatus,
    latest_inspection_report: Option<Vec<u8>>,
    mileage: u32,
    now: i64,
) -> (r: Result<CarAccount, ProgramError>)
    requires
        car_id@.len() <= MAX_CAR_ID_LEN,
        color@.len() <= MAX_COLOR_LEN,
        engine_number@.len() <= MAX_ENGINE_NUMBER_LEN,
        latest_inspection_report matches Some(rep) ==> rep@.len() <= MAX_INSPECTION_REPORT_LEN,
    ensures
        match r {
            Ok(car) => {
                &&& ctx.government == government_authority
                &&& vin@.len() == VIN_LEN
                &&& 0 < brand@.len() <= MAX_BRAND_LEN
                &&& 0 < model@.len() <= MAX_MODEL_LEN
                &&& MIN_YEAR <= year <= MAX_YEAR
                &&& engine_number@.len() > 0
                &&& car@ == (CarV {
                    car_id: car_id@,
                    vin: vin@,
                    brand: brand@,
                    model: model@,
                    year,
                    color: color@,
                    engine_number: engine_number@,
                    owner,
                    registered_by: ctx.government,
                    registration_date: Some(now),
                    is_active: true,
                    transfer_count: 0u32,
                    last_inspection_date,
                    inspection_status,
                    latest_inspection_report: latest_inspection_report.deep_view(),
                    mileage,
                    is_for_sale: false,
                    sale_price: None::<u64>,
                })
            },
            Err(e) => {
                if ctx.government != government_authority {
                    e == ProgramError::Custom(CustomError::UnauthorizedVerifier)
                } else if vin@.len() != VIN_LEN {
                    e == ProgramError::Car(CarError::InvalidVin)
                } else if !(0 < brand@.len() <= MAX_BRAND_LEN) {
                    e == ProgramError::Car(CarError::InvalidBrand)
                } else if !(0 < model@.len() <= MAX_MODEL_LEN) {
                    e == ProgramError::Car(CarError::InvalidModel)
                } else if !(MIN_YEAR <= year <= MAX_YEAR) {
                    e == ProgramError::Car(CarError::InvalidYear)
                } else {
                    &&& e == ProgramError::Car(CarError::InvalidEngineNumber)
                    &&& engine_number@.len() == 0
                }
            },
        },
{
    if ctx.government != government_authority {
        return Err(ProgramError::Custom(CustomError::UnauthorizedVerifier));
    }
    if vin.len() != VIN_LEN {
        return Err(ProgramError::Car(CarError::InvalidVin));
    }
    if brand.len() == 0 || brand.len() > MAX_BRAND_LEN {
        return Err(ProgramError::Car(CarError::InvalidBrand));
    }
    if model.len() == 0 || model.len() > MAX_MODEL_LEN {
        return Err(ProgramError::Car(CarError::InvalidModel));
    }
    if year < MIN_YEAR || year > MAX_YEAR {
        return Err(ProgramError::Car(CarError::InvalidYear));
    }
    if engine_number.len() == 0 {
        return Err(ProgramError::Car(CarError::InvalidEngineNumber));
    }
    Ok(CarAccount {
        car_id,
        vin,
        brand,
        model,
        year,
        color,
        engine_number,
        owner,
        registered_by: ctx.government,
        registration_date: Some(now),
        is_active: true,
        transfer_count: 0,
        last_inspection_date,
        inspection_status,
        latest_inspection_report,
        mileage,
        is_for_sale: false,
        sale_price: None,
    })
}

} // verus!
