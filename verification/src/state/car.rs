use vstd::prelude::*;

use crate::errors::ProgramError;
use crate::identity::Pubkey;

verus! {

/// The vehicle's standing with respect to periodic inspection.
#[derive(Clone, Copy, PartialEq, Eq, Structural, Debug)]
pub enum InspectionStatus {
    Pending,
    Passed,
    Failed,
    Expired,
}

pub const MAX_CAR_ID_LEN: usize = 50;
pub const VIN_LEN: usize = 17;
pub const MAX_BRAND_LEN: usize = 30;
pub const MAX_MODEL_LEN: usize = 50;
pub const MAX_COLOR_LEN: usize = 20;
pub const MAX_ENGINE_NUMBER_LEN: usize = 50;
pub const MAX_INSPECTION_REPORT_LEN: usize = 200;
pub const MIN_YEAR: u16 = 1900;
pub const MAX_YEAR: u16 = 2025;

/// A vehicle record, keyed in the store by its identification number (VIN).
#[derive(Debug, Clone, PartialEq, Eq)]
pub struct CarAccount {
    pub car_id: Vec<u8>,
    /// The vehicle identification number: exactly 17 bytes, unique.
    pub vin: Vec<u8>,
    pub brand: Vec<u8>,
    pub model: Vec<u8>,
    pub year: u16,
    pub color: Vec<u8>,
    pub engine_number: Vec<u8>,
    /// The identity that currently owns the vehicle.
    pub owner: Pubkey,
    /// The government identity that registered the vehicle.
    pub registered_by: Pubkey,
    pub registration_date: Option<i64>,
    pub is_active: bool,
    pub transfer_count: u32,
    pub last_inspection_date: Option<i64>,
    pub inspection_status: InspectionStatus,
    pub latest_inspection_report: Option<Vec<u8>>,
    pub mileage: u32,
    /// Whether the vehicle is currently listed for sale.
    pub is_for_sale: bool,
    /// The asking price; set exactly while the vehicle is listed.
    pub sale_price: Option<u64>,
}

/// The mathematical value of a [`CarAccount`].
#[verifier::ext_equal]
pub ghost struct CarV {
    pub car_id: Seq<u8>,
    pub vin: Seq<u8>,
    pub brand: Seq<u8>,
    pub model: Seq<u8>,
    pub year: u16,
    pub color: Seq<u8>,
    pub engine_number: Seq<u8>,
    pub owner: Pubkey,
    pub registered_by: Pubkey,
    pub registration_date: Option<i64>,
    pub is_active: bool,
    pub transfer_count: u32,
    pub last_inspection_date: Option<i64>,
    pub inspection_status: InspectionStatus,
    pub latest_inspection_report: Option<Seq<u8>>,
    pub mileage: u32,
    pub is_for_sale: bool,
    pub sale_price: Option<u64>,
}

impl CarV {
    /// The record fits the store's fixed-size vehicle record, its fields pass
    /// registration validation, and the price is set exactly while listed.
    pub open spec fn wf(self) -> bool {
        &&& self.car_id.len() <= MAX_CAR_ID_LEN
        &&& self.vin.len() == VIN_LEN
        &&& 0 < self.brand.len() <= MAX_BRAND_LEN
        &&& 0 < self.model.len() <= MAX_MODEL_LEN
        &&& MIN_YEAR <= self.year <= MAX_YEAR
        &&& self.color.len() <= MAX_COLOR_LEN
        &&& 0 < self.engine_number.len() <= MAX_ENGINE_NUMBER_LEN
        &&& match self.latest_inspection_report {
            Some(rep) => rep.len() <= MAX_INSPECTION_REPORT_LEN,
            None => true,
        }
        &&& self.is_for_sale <==> self.sale_price is Some
    }
}

impl View for CarAccount {
    type V = CarV;

    open spec fn view(&self) -> CarV {
        CarV {
            car_id: self.car_id@,
            vin: self.vin@,
            brand: self.brand@,
            model: self.model@,
            year: self.year,
            color: self.color@,
            engine_number: self.engine_number@,
            owner: self.owner,
            registered_by: self.registered_by,
            registration_date: self.registration_date,
            is_active: self.is_active,
            transfer_count: self.transfer_count,
            last_inspection_date: self.last_inspection_date,
            inspection_status: self.inspection_status,
            latest_inspection_report: self.latest_inspection_report.deep_view(),
            mileage: self.mileage,
            is_for_sale: self.is_for_sale,
            sale_price: self.sale_price,
        }
    }
}

impl DeepView for CarAccount {
    type V = CarV;

    open spec fn deep_view(&self) -> CarV {
        self.view()
    }
}

impl CarAccount {
    /// An owned copy of the record, with the same mathematical value.
    pub fn duplicate(&self) -> (r: CarAccount)
        ensures
            r@ == self@,
    {
        let r = CarAccount {
            car_id: crate::bytes::clone_bytes(&self.car_id),
            vin: crate::bytes::clone_bytes(&self.vin),
            brand: crate::bytes::clone_bytes(&self.brand),
            model: crate::bytes::clone_bytes(&self.model),
            year: self.year,
            color: crate::bytes::clone_bytes(&self.color),
            engine_number: crate::bytes::clone_bytes(&self.engine_number),
            owner: self.owner,
            registered_by: self.registered_by,
            registration_date: self.registration_date,
            is_active: self.is_active,
            transfer_count: self.transfer_count,
            last_inspection_date: self.last_inspection_date,
            inspection_status: self.inspection_status,
            latest_inspection_report: crate::bytes::clone_opt_bytes(
                &self.latest_inspection_report,
            ),
            mileage: self.mileage,
            is_for_sale: self.is_for_sale,
            sale_price: self.sale_price,
        };
        proof {
            assert(r@ =~= self@);
        }
        r
    }

    /// Overwrites every field of the record with a fresh registration: the
    /// vehicle starts active, never transferred, and not for sale.
    pub fn initialize(
        &mut self,
        car_id: Vec<u8>,
        vin: Vec<u8>,
        brand: Vec<u8>,
        model: Vec<u8>,
        year: u16,
        color: Vec<u8>,
        engine_number: Vec<u8>,
        owner: Pubkey,
        registered_by: Pubkey,
        registration_date: Option<i64>,
        last_inspection_date: Option<i64>,
        inspection_status: InspectionStatus,
        latest_inspection_report: Option<Vec<u8>>,
        mileage: u32,
    ) -> (r: Result<(), ProgramError>)
        ensures
            r is Ok,
            final(self)@ == (CarV {
                car_id: car_id@,
                vin: vin@,
                brand: brand@,
                model: model@,
                year,
                color: color@,
                engine_number: engine_number@,
                owner,
                registered_by,
                registration_date,
                is_active: true,
                transfer_count: 0u32,
                last_inspection_date,
                inspection_status,
                latest_inspection_report: latest_inspection_report.deep_view(),
                mileage,
                is_for_sale: false,
                sale_price: None::<u64>,
            }),
    {
        self.car_id = car_id;
        self.vin = vin;
        self.brand = brand;
        self.model = model;
        self.year = year;
        self.color = color;
        self.engine_number = engine_number;
        self.owner = owner;
        self.registered_by = registered_by;
        self.registration_date = registration_date;
        self.is_active = true;
        self.transfer_count = 0;
        self.last_inspection_date = last_inspection_date;
        self.inspection_status = inspection_status;
        self.latest_inspection_report = latest_inspection_report;
        self.mileage = mileage;
        self.is_for_sale = false;
        self.sale_price = None;
        Ok(())
    }
}

} // verus!
