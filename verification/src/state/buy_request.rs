use vstd::prelude::*;

use crate::errors::ProgramError;
use crate::identity::Pubkey;
use crate::state::car::VIN_LEN;

verus! {

/// The lifecycle of a buy request: it is created pending and ends, once and
/// for all, accepted or rejected.
#[derive(Clone, Copy, PartialEq, Eq, Structural, Debug)]
pub enum BuyRequestStatus {
    Pending,
    Accepted,
    Rejected,
}

pub const MAX_MESSAGE_LEN: usize = 200;

/// An escrowed purchase offer, keyed in the store by (vin, buyer).
///
/// From creation until the offer is decided, funds equal to `amount` are in
/// the custody of this record: they left the buyer's balance when the record
/// was created and reach the seller (accept) or return to the buyer (reject).
#[derive(Debug, Clone, PartialEq, Eq)]
pub struct BuyRequest {
    /// The identification number of the vehicle the offer is for.
    pub vin: Vec<u8>,
    pub buyer: Pubkey,
    /// The vehicle's owner at the time the offer was made.
    pub seller: Pubkey,
    /// The escrowed funds: the vehicle's sale price at creation time.
    pub amount: u64,
    pub status: BuyRequestStatus,
    pub created_at: i64,
    pub message: Option<Vec<u8>>,
}

/// The mathematical value of a [`BuyRequest`].
#[verifier::ext_equal]
pub ghost struct BuyRequestV {
    pub vin: Seq<u8>,
    pub buyer: Pubkey,
    pub seller: Pubkey,
    pub amount: u64,
    pub status: BuyRequestStatus,
    pub created_at: i64,
    pub message: Option<Seq<u8>>,
}

impl BuyRequestV {
    /// The record fits the store's fixed-size request record.
    pub open spec fn wf(self) -> bool {
        &&& self.vin.len() == VIN_LEN
        &&& match self.message {
            Some(m) => m.len() <= MAX_MESSAGE_LEN,
            None => true,
        }
    }
}

impl View for BuyRequest {
    type V = BuyRequestV;

    open spec fn view(&self) -> BuyRequestV {
        BuyRequestV {
            vin: self.vin@,
            buyer: self.buyer,
            seller: self.seller,
            amount: self.amount,
            status: self.status,
            created_at: self.created_at,
            message: self.message.deep_view(),
        }
    }
}

impl DeepView for BuyRequest {
    type V = BuyRequestV;

    open spec fn deep_view(&self) -> BuyRequestV {
        self.view()
    }
}

impl BuyRequest {
    /// An owned copy of the record, with the same mathematical value.
    pub fn duplicate(&self) -> (r: BuyRequest)
        ensures
            r@ == self@,
    {
        let r = BuyRequest {
            vin: crate::bytes::clone_bytes(&self.vin),
            buyer: self.buyer,
            seller: self.seller,
            amount: self.amount,
            status: self.status,
            created_at: self.created_at,
            message: crate::bytes::clone_opt_bytes(&self.message),
        };
        proof {
            assert(r@ =~= self@);
        }
        r
    }

    /// Overwrites every field of the record with a fresh offer: the request
    /// starts pending, holding `amount` in custody, stamped with the
    /// creation time `now` handed in from the platform clock.
    pub fn initialize(
        &mut self,
        vin: Vec<u8>,
        buyer: Pubkey,
        seller: Pubkey,
        amount: u64,
        message: Option<Vec<u8>>,
        now: i64,
    ) -> (r: Result<(), ProgramError>)
        ensures
            r is Ok,
            final(self)@ == (BuyRequestV {
                vin: vin@,
                buyer,
                seller,
                amount,
                status: BuyRequestStatus::Pending,
                created_at: now,
                message: message.deep_view(),
            }),
    {
        self.vin = vin;
        self.buyer = buyer;
        self.seller = seller;
        self.amount = amount;
        self.status = BuyRequestStatus::Pending;
        self.created_at = now;
        self.message = message;
        Ok(())
    }
}

} // verus!
