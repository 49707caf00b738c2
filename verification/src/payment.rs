//! Splitting a purchase price and scheduling the settlement transfers.
//!
//! The platform keeps half of the price, rounded down; the seller receives
//! the remainder, so the two parts always sum exactly to the price and an odd
//! remainder unit favours the seller. The settlement of a purchase is the
//! ordered list of transfers to schedule: first the seller payout, then, only
//! when the buyer overpaid, the refund of the excess. The platform fee is
//! retained by not transferring it out; no transfer to the marketplace itself
//! is ever scheduled.

use vstd::prelude::*;

verus! {

/// A value transfer scheduled during a call and executed by the surrounding
/// runtime after the call commits. Its eventual outcome is not observed by
/// the marketplace state.
#[derive(Debug)]
pub struct Transfer {
    /// The identity the value goes to.
    pub to: String,
    /// The amount of value transferred.
    pub amount: u128,
}

/// The mathematical image of a [`Transfer`].
#[verifier::ext_equal]
pub ghost struct TransferView {
    pub to: Seq<char>,
    pub amount: u128,
}

impl View for Transfer {
    type V = TransferView;

    open spec fn view(&self) -> TransferView {
        TransferView { to: self.to@, amount: self.amount }
    }
}

impl DeepView for Transfer {
    type V = TransferView;

    open spec fn deep_view(&self) -> TransferView {
        self.view()
    }
}

/// The half of the price, rounded down, that the marketplace keeps.
pub open spec fn platform_fee(price: u128) -> u128 {
    (price / 2) as u128
}

/// The remainder of the price, owed to the item's publisher.
pub open spec fn seller_fee(price: u128) -> u128 {
    (price - platform_fee(price)) as u128
}

/// The ordered transfers that settle a purchase: the seller payout first,
/// then the refund of any overpayment, and nothing else.
pub open spec fn settlement_spec(
    price: u128,
    attached: u128,
    developer: Seq<char>,
    buyer: Seq<char>,
) -> Seq<TransferView> {
    let payout = seq![TransferView { to: developer, amount: seller_fee(price) }];
    if attached > price {
        payout.push(TransferView { to: buyer, amount: (attached - price) as u128 })
    } else {
        payout
    }
}

/// Computes the fee split for `price`: the platform's half, rounded down,
/// and the seller's remainder. The parts sum exactly to the price.
pub fn split_price(price: u128) -> (r: (u128, u128))
    ensures
        r.0 == platform_fee(price),
        r.1 == seller_fee(price),
        r.0 + r.1 == price,
{
    let store_fee: u128 = price / 2;
    let developer_fee: u128 = price - store_fee;
    (store_fee, developer_fee)
}

/// Builds the settlement for a purchase of an item priced `price` by `buyer`
/// with `attached` value: the seller payout to `developer`, followed by the
/// refund of the overpayment when there is one.
pub fn build_settlement(price: u128, attached: u128, developer: &String, buyer: &String) -> (r:
    Vec<Transfer>)
    requires
        attached >= price,
    ensures
        r.deep_view() == settlement_spec(price, attached, developer@, buyer@),
{
    let (_store_fee, developer_fee) = split_price(price);
    let mut transfers: Vec<Transfer> = Vec::new();
    transfers.push(Transfer { to: developer.clone(), amount: developer_fee });
    if attached > price {
        let refund: u128 = attached - price;
        transfers.push(Transfer { to: buyer.clone(), amount: refund });
    }
    proof {
        assert(transfers.deep_view() =~~= settlement_spec(price, attached, developer@, buyer@));
    }
    transfers
}

} // verus!
