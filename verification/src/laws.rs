//! The marketplace's guarantees, stated and proved once for all states.
//!
//! Each law is phrased over the mathematical images that the operations'
//! contracts speak of, so it composes with those contracts: what holds here
//! holds of every sequence of calls on a well-formed store.

use vstd::prelude::*;

use crate::errors::BuyError;
use crate::payment::platform_fee;
use crate::payment::seller_fee;
use crate::payment::settlement_spec;
use crate::payment::TransferView;
use crate::store::buy_check;
use crate::store::buy_transition;
use crate::store::buyers_of;
use crate::store::publish_check;
use crate::store::publish_transition;
use crate::store::store_wf;
use crate::store::StoreView;
use crate::validate::is_valid_genre;

verus! {

/// A successful publish assigns the id `previous item count + 1` to the new
/// item, which arrives at the end of the catalog; nothing else changes.
pub proof fn lemma_publish_assigns_next_id(
    sv: StoreView,
    caller: Seq<char>,
    now: u64,
    title: Seq<char>,
    genre: Seq<char>,
    price: u128,
)
    requires
        sv.apps.len() < u64::MAX,
    ensures
        publish_transition(sv, caller, now, title, genre, price).apps.len() == sv.apps.len() + 1,
        publish_transition(sv, caller, now, title, genre, price).apps.last().id == sv.apps.len()
            + 1,
        publish_transition(sv, caller, now, title, genre, price).apps.take(sv.apps.len() as int)
            == sv.apps,
{
    assert(publish_transition(sv, caller, now, title, genre, price).apps.take(
        sv.apps.len() as int,
    ) =~= sv.apps);
}

/// In a well-formed store the catalog is strictly ascending by id, so a
/// listing of it yields the items in ascending id order.
pub proof fn lemma_catalog_ids_ascending(sv: StoreView)
    requires
        store_wf(sv),
    ensures
        forall|i: int, j: int|
            0 <= i < j < sv.apps.len() ==> (#[trigger] sv.apps[i]).id < (#[trigger] sv.apps[j]).id,
{
}

/// A publish request with an empty title, an empty genre, a price of zero,
/// or a genre outside the accepted ones is rejected, whoever makes it — and
/// by the publish contract a rejected request leaves the catalog unchanged.
pub proof fn lemma_publish_rejects_invalid(
    caller: Seq<char>,
    service: Seq<char>,
    title: Seq<char>,
    genre: Seq<char>,
    price: u128,
)
    requires
        title.len() == 0 || genre.len() == 0 || price == 0 || !is_valid_genre(genre),
    ensures
        publish_check(caller, service, title, genre, price) is Some,
{
}

/// A buyer who does not attach the full price is turned away with
/// `InsufficientPayment` — and by the purchase contract a rejected purchase
/// records nothing.
pub proof fn lemma_insufficient_payment_rejected(
    sv: StoreView,
    caller: Seq<char>,
    service: Seq<char>,
    id: u64,
    attached: u128,
)
    requires
        caller != service,
        1 <= id && id <= sv.apps.len(),
        !buyers_of(sv, id).contains(caller),
        attached < sv.apps[id - 1].price,
    ensures
        buy_check(sv, caller, service, id, attached) == Some(BuyError::InsufficientPayment),
{
}

/// Buying the same item twice is impossible: after a successful purchase the
/// buyer is on the item's record, and a second attempt by the same buyer is
/// rejected with `AlreadyPurchased`, whatever value it attaches — so the
/// record gains that buyer exactly once.
pub proof fn lemma_no_double_purchase(
    sv: StoreView,
    caller: Seq<char>,
    service: Seq<char>,
    id: u64,
    first_attached: u128,
    second_attached: u128,
)
    requires
        store_wf(sv),
        buy_check(sv, caller, service, id, first_attached) is None,
    ensures
        buyers_of(buy_transition(sv, caller, id), id) == buyers_of(sv, id).push(caller),
        buy_check(buy_transition(sv, caller, id), caller, service, id, second_attached) == Some(
            BuyError::AlreadyPurchased,
        ),
{
    let post = buy_transition(sv, caller, id);
    assert(buyers_of(post, id) == sv.buyers[id - 1].push(caller));
    assert(buyers_of(post, id).last() == caller);
    assert(buyers_of(post, id).contains(caller));
}

/// The fee split is exact: the platform keeps half the price, rounded down,
/// the seller receives the rest, and the two parts sum to the price.
pub proof fn lemma_fee_split_exact(price: u128)
    ensures
        platform_fee(price) == price / 2,
        platform_fee(price) + seller_fee(price) == price,
        platform_fee(price) <= seller_fee(price),
{
}

/// An overpaying buyer is refunded exactly the excess: the settlement then
/// consists of the seller payout followed — strictly after it — by a single
/// refund of `attached - price` to the buyer.
pub proof fn lemma_overpayment_refunded(
    price: u128,
    attached: u128,
    developer: Seq<char>,
    buyer: Seq<char>,
)
    requires
        attached > price,
    ensures
        settlement_spec(price, attached, developer, buyer).len() == 2,
        settlement_spec(price, attached, developer, buyer)[0] == (TransferView {
            to: developer,
            amount: seller_fee(price),
        }),
        settlement_spec(price, attached, developer, buyer)[1] == (TransferView {
            to: buyer,
            amount: (attached - price) as u128,
        }),
{
}

/// The platform fee is retained by not being transferred out: a settlement
/// addresses only the item's developer and the buyer, so — the marketplace
/// having refused to publish to itself or buy from itself — no transfer to
/// the marketplace's own identity is ever scheduled.
pub proof fn lemma_platform_fee_retained(
    price: u128,
    attached: u128,
    developer: Seq<char>,
    buyer: Seq<char>,
    service: Seq<char>,
)
    requires
        developer != service,
        buyer != service,
    ensures
        forall|i: int|
            0 <= i < settlement_spec(price, attached, developer, buyer).len() ==> (
            #[trigger] settlement_spec(price, attached, developer, buyer)[i]).to != service,
{
}

/// An exact payment schedules no refund: the settlement is the seller payout
/// alone, and the platform fee is retained by not being transferred out.
pub proof fn lemma_exact_payment_no_refund(
    price: u128,
    attached: u128,
    developer: Seq<char>,
    buyer: Seq<char>,
)
    requires
        attached == price,
    ensures
        settlement_spec(price, attached, developer, buyer).len() == 1,
        settlement_spec(price, attached, developer, buyer)[0] == (TransferView {
            to: developer,
            amount: seller_fee(price),
        }),
{
}

} // verus!
