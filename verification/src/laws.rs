use vstd::prelude::*;

use crate::identity::Pubkey;
use crate::ledger::{
    balance_key_at, car_key_at, lemma_car_found, lemma_cars_push, lemma_request_found,
    lemma_requests_update_same_key, request_key_at, Balance, LedgerV,
};
use crate::state::buy_request::{BuyRequestStatus, BuyRequestV};
use crate::state::car::{CarV, VIN_LEN};

verus! {

/// All funds the platform holds in balance entries.
pub open spec fn total_funds(s: Seq<Balance>) -> int
    decreases s.len(),
{
    if s.len() == 0 {
        0
    } else {
        total_funds(s.drop_last()) + s.last().lamports
    }
}

/// What one offer record holds in custody: its amount while it is pending,
/// nothing once it is decided.
pub open spec fn pending_amount(q: BuyRequestV) -> int {
    if q.status == BuyRequestStatus::Pending {
        q.amount as int
    } else {
        0
    }
}

/// All funds held in custody by pending offers.
pub open spec fn escrowed_funds(s: Seq<BuyRequestV>) -> int
    decreases s.len(),
{
    if s.len() == 0 {
        0
    } else {
        escrowed_funds(s.drop_last()) + pending_amount(s.last())
    }
}

proof fn lemma_total_funds_push(s: Seq<Balance>, b: Balance)
    ensures
        total_funds(s.push(b)) == total_funds(s) + b.lamports,
{
    assert(s.push(b).drop_last() =~= s);
}

proof fn lemma_total_funds_update(s: Seq<Balance>, i: int, b: Balance)
    requires
        0 <= i < s.len(),
    ensures
        total_funds(s.update(i, b)) == total_funds(s) - s[i].lamports + b.lamports,
    decreases s.len(),
{
    let n = s.len() as int;
    if i == n - 1 {
        assert(s.update(i, b).drop_last() =~= s.drop_last());
        assert(s.update(i, b).last() == b);
    } else {
        assert(s.update(i, b).drop_last() =~= s.drop_last().update(i, b));
        lemma_total_funds_update(s.drop_last(), i, b);
        assert(s.update(i, b).last() == s.last());
    }
}

proof fn lemma_escrowed_funds_push(s: Seq<BuyRequestV>, q: BuyRequestV)
    ensures
        escrowed_funds(s.push(q)) == escrowed_funds(s) + pending_amount(q),
{
    assert(s.push(q).drop_last() =~= s);
}

proof fn lemma_escrowed_funds_update(s: Seq<BuyRequestV>, i: int, q: BuyRequestV)
    requires
        0 <= i < s.len(),
    ensures
        escrowed_funds(s.update(i, q)) == escrowed_funds(s) - pending_amount(s[i])
            + pending_amount(q),
    decreases s.len(),
{
    let n = s.len() as int;
    if i == n - 1 {
        assert(s.update(i, q).drop_last() =~= s.drop_last());
        assert(s.update(i, q).last() == q);
    } else {
        assert(s.update(i, q).drop_last() =~= s.drop_last().update(i, q));
        lemma_escrowed_funds_update(s.drop_last(), i, q);
        assert(s.update(i, q).last() == s.last());
    }
}

proof fn lemma_escrowed_funds_remove(s: Seq<BuyRequestV>, i: int)
    requires
        0 <= i < s.len(),
    ensures
        escrowed_funds(s.remove(i)) == escrowed_funds(s) - pending_amount(s[i]),
    decreases s.len(),
{
    let n = s.len() as int;
    if i == n - 1 {
        assert(s.remove(i) =~= s.drop_last());
    } else {
        assert(s.remove(i).drop_last() =~= s.drop_last().remove(i));
        lemma_escrowed_funds_remove(s.drop_last(), i);
        assert(s.remove(i).last() == s.last());
    }
}

/// Crediting `amount` to one identity raises the total funds by exactly
/// `amount`, however the entry is stored.
proof fn lemma_credited_total(l: LedgerV, key: Pubkey, amount: u64)
    requires
        l.balance_of(key) + amount <= u64::MAX,
    ensures
        total_funds(l.balances_credited(key, amount)) == total_funds(l.balances) + amount,
{
    if l.has_balance(key) {
        let i = l.balance_idx(key);
        assert(balance_key_at(l.balances, key, i));
        lemma_total_funds_update(
            l.balances,
            i,
            Balance { key, lamports: (l.balance_of(key) + amount) as u64 },
        );
    } else {
        lemma_total_funds_push(l.balances, Balance { key, lamports: amount });
    }
}

/// Creating an offer conserves funds: what leaves the buyer's balance is
/// exactly what the new pending request takes into custody, so the funds in
/// balances plus the funds in escrow stay the same.
pub proof fn lemma_offer_conserves_funds(l0: LedgerV, l1: LedgerV, q: BuyRequestV)
    requires
        q.status == BuyRequestStatus::Pending,
        l0.balance_of(q.buyer) >= q.amount,
        l1.buy_requests == l0.buy_requests.push(q),
        l1.balances == (if l0.has_balance(q.buyer) {
            l0.balances.update(
                l0.balance_idx(q.buyer),
                Balance { key: q.buyer, lamports: (l0.balance_of(q.buyer) - q.amount) as u64 },
            )
        } else {
            l0.balances
        }),
    ensures
        total_funds(l1.balances) + escrowed_funds(l1.buy_requests) == total_funds(l0.balances)
            + escrowed_funds(l0.buy_requests),
{
    lemma_escrowed_funds_push(l0.buy_requests, q);
    if l0.has_balance(q.buyer) {
        let i = l0.balance_idx(q.buyer);
        assert(balance_key_at(l0.balances, q.buyer, i));
        lemma_total_funds_update(
            l0.balances,
            i,
            Balance { key: q.buyer, lamports: (l0.balance_of(q.buyer) - q.amount) as u64 },
        );
    }
}

/// Accepting an offer conserves funds: the custody the closing request gives
/// up is exactly what reaches the accepting owner's balance.
pub proof fn lemma_accept_conserves_funds(l0: LedgerV, l1: LedgerV, vin: Seq<u8>, buyer: Pubkey)
    requires
        l0.wf(),
        l0.has_request(vin, buyer),
        l0.request_at(vin, buyer).status == BuyRequestStatus::Pending,
        l0.balance_of(l0.car_at(vin).owner) + l0.request_at(vin, buyer).amount <= u64::MAX,
        l1 == l0.accept_outcome(vin, buyer),
    ensures
        total_funds(l1.balances) + escrowed_funds(l1.buy_requests) == total_funds(l0.balances)
            + escrowed_funds(l0.buy_requests),
{
    let i = l0.request_idx(vin, buyer);
    assert(request_key_at(l0.buy_requests, vin, buyer, i));
    let req = l0.request_at(vin, buyer);
    lemma_escrowed_funds_update(
        l0.buy_requests,
        i,
        BuyRequestV { status: BuyRequestStatus::Accepted, ..req },
    );
    lemma_credited_total(l0, l0.car_at(vin).owner, req.amount);
}

/// Rejecting an offer conserves funds: the custody the deleted request gives
/// up is exactly what returns to the buyer's balance.
pub proof fn lemma_reject_conserves_funds(l0: LedgerV, l1: LedgerV, vin: Seq<u8>, buyer: Pubkey)
    requires
        l0.wf(),
        l0.has_request(vin, buyer),
        l0.request_at(vin, buyer).status == BuyRequestStatus::Pending,
        l0.balance_of(buyer) + l0.request_at(vin, buyer).amount <= u64::MAX,
        l1 == l0.reject_outcome(vin, buyer),
    ensures
        total_funds(l1.balances) + escrowed_funds(l1.buy_requests) == total_funds(l0.balances)
            + escrowed_funds(l0.buy_requests),
{
    let i = l0.request_idx(vin, buyer);
    assert(request_key_at(l0.buy_requests, vin, buyer, i));
    lemma_escrowed_funds_remove(l0.buy_requests, i);
    lemma_credited_total(l0, buyer, l0.request_at(vin, buyer).amount);
}

/// In a well-formed registry every vehicle's identification number is
/// exactly 17 bytes, and no two vehicles carry the same one.
pub proof fn lemma_registry_vins_unique(l: LedgerV)
    requires
        l.wf(),
    ensures
        forall|i: int| 0 <= i < l.cars.len() ==> (#[trigger] l.cars[i]).vin.len() == VIN_LEN,
        forall|i: int, j: int|
            #![trigger l.cars[i], l.cars[j]]
            0 <= i < l.cars.len() && 0 <= j < l.cars.len() && i != j ==> l.cars[i].vin
                != l.cars[j].vin,
{
    assert forall|i: int, j: int|
        #![trigger l.cars[i], l.cars[j]]
        0 <= i < l.cars.len() && 0 <= j < l.cars.len() && i != j implies l.cars[i].vin
        != l.cars[j].vin by {
        if l.cars[i].vin == l.cars[j].vin {
            assert(car_key_at(l.cars, l.cars[i].vin, i));
            assert(car_key_at(l.cars, l.cars[i].vin, j));
        }
    }
}

/// A successful registration leaves the store holding the new vehicle under
/// its identification number. The key is occupied from then on, so by
/// `Ledger::register_car`'s contract a second registration under the same
/// number can only fail with `AccountAlreadyInUse`, leaving the ledger
/// unchanged: a successful registration succeeds at most once per number.
pub proof fn lemma_registration_occupies_vin(l0: LedgerV, l1: LedgerV, c: CarV)
    requires
        l0.wf(),
        !l0.has_car(c.vin),
        l1 == (LedgerV { cars: l0.cars.push(c), ..l0 }),
    ensures
        l1.has_car(c.vin),
        l1.car_at(c.vin) == c,
{
    let n = l0.cars.len() as int;
    lemma_cars_push(l0.cars, c);
    assert(car_key_at(l1.cars, c.vin, n));
    lemma_car_found(l1, c.vin, n);
}

/// Accepting an offer closes it in place: afterwards the request record at
/// (vin, buyer) still stands, with status `Accepted` and its fields
/// otherwise untouched, as an audit record. By
/// `Ledger::accept_buy_request`'s contract a request whose status is no
/// longer `Pending` can only be answered with `InvalidBuyRequestStatus`, so
/// no second acceptance can reach it.
pub proof fn lemma_accept_closes_offer(l0: LedgerV, l1: LedgerV, vin: Seq<u8>, buyer: Pubkey)
    requires
        l0.wf(),
        l0.has_request(vin, buyer),
        l1 == l0.accept_outcome(vin, buyer),
    ensures
        l1.has_request(vin, buyer),
        l1.request_at(vin, buyer) == (BuyRequestV {
            status: BuyRequestStatus::Accepted,
            ..l0.request_at(vin, buyer)
        }),
        l1.request_at(vin, buyer).status == BuyRequestStatus::Accepted,
{
    let i = l0.request_idx(vin, buyer);
    assert(request_key_at(l0.buy_requests, vin, buyer, i));
    let ghost q1 = BuyRequestV { status: BuyRequestStatus::Accepted, ..l0.request_at(vin, buyer) };
    lemma_requests_update_same_key(l0.buy_requests, i, q1);
    assert(request_key_at(l1.buy_requests, vin, buyer, i));
    lemma_request_found(l1, vin, buyer, i);
}

/// Accepting one buyer's offer moves no other buyer's offer: every other
/// request for the same vehicle stays exactly as it was, escrowed funds
/// included. A request left pending this way stays pending until the
/// vehicle's new owner rejects it explicitly, which is what refunds its
/// buyer.
pub proof fn lemma_accept_leaves_other_offers(
    l0: LedgerV,
    l1: LedgerV,
    vin: Seq<u8>,
    buyer: Pubkey,
    other: Pubkey,
)
    requires
        l0.wf(),
        l0.has_request(vin, buyer),
        l1 == l0.accept_outcome(vin, buyer),
        other != buyer,
        l0.has_request(vin, other),
    ensures
        l1.has_request(vin, other),
        l1.request_at(vin, other) == l0.request_at(vin, other),
{
    let i = l0.request_idx(vin, buyer);
    let j = l0.request_idx(vin, other);
    assert(request_key_at(l0.buy_requests, vin, buyer, i));
    assert(request_key_at(l0.buy_requests, vin, other, j));
    assert(i != j);
    let ghost q1 = BuyRequestV { status: BuyRequestStatus::Accepted, ..l0.request_at(vin, buyer) };
    lemma_requests_update_same_key(l0.buy_requests, i, q1);
    assert(request_key_at(l1.buy_requests, vin, other, j));
    lemma_request_found(l1, vin, other, j);
    assert(l1.buy_requests[j] == l0.buy_requests[j]);
}

} // verus!
