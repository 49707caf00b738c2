//! The marketplace state: the catalog of published items, the purchase
//! ledger, and the two operations that change them.
//!
//! The catalog is an ordered mapping from item id to item; ids are assigned
//! as `count + 1`, are never reused, and ascend in publish order. The ledger
//! records, per item, the identities that bought it, each at most once. Every
//! operation takes a [`CallContext`] naming the calling identity, the
//! marketplace's own identity, the call's timestamp and its attached value;
//! the surrounding runtime supplies these and serializes the calls.

use vstd::prelude::*;

use crate::errors::BuyError;
use crate::errors::PublishError;
use crate::payment::build_settlement;
use crate::payment::settlement_spec;
use crate::payment::Transfer;
use crate::validate::check_genre;
use crate::validate::is_valid_genre;

verus! {

/// A published item: immutable once created.
#[derive(Debug)]
pub struct App {
    id: u64,
    title: String,
    genre: String,
    price: u128,
    published_on: u64,
    developer: String,
}

/// The mathematical image of an [`App`].
#[verifier::ext_equal]
pub ghost struct AppView {
    pub id: u64,
    pub title: Seq<char>,
    pub genre: Seq<char>,
    pub price: u128,
    pub published_on: u64,
    pub developer: Seq<char>,
}

impl View for App {
    type V = AppView;

    closed spec fn view(&self) -> AppView {
        AppView {
            id: self.id,
            title: self.title@,
            genre: self.genre@,
            price: self.price,
            published_on: self.published_on,
            developer: self.developer@,
        }
    }
}

impl DeepView for App {
    type V = AppView;

    open spec fn deep_view(&self) -> AppView {
        self.view()
    }
}

impl Clone for App {
    fn clone(&self) -> (r: Self)
        ensures
            r == *self,
    {
        App {
            id: self.id,
            title: self.title.clone(),
            genre: self.genre.clone(),
            price: self.price,
            published_on: self.published_on,
            developer: self.developer.clone(),
        }
    }
}

impl App {
    /// The item's identifier.
    pub fn id(&self) -> (r: u64)
        ensures
            r == self@.id,
    {
        self.id
    }

    /// The item's title.
    pub fn title(&self) -> (r: &String)
        ensures
            r@ == self@.title,
    {
        &self.title
    }

    /// The item's genre, as the publisher wrote it.
    pub fn genre(&self) -> (r: &String)
        ensures
            r@ == self@.genre,
    {
        &self.genre
    }

    /// The item's price.
    pub fn price(&self) -> (r: u128)
        ensures
            r == self@.price,
    {
        self.price
    }

    /// The timestamp at which the item was published.
    pub fn published_on(&self) -> (r: u64)
        ensures
            r == self@.published_on,
    {
        self.published_on
    }

    /// The identity that published the item and receives the seller fee.
    pub fn developer(&self) -> (r: &String)
        ensures
            r@ == self@.developer,
    {
        &self.developer
    }
}

impl App {
    /// An item assembled from its stored fields, for reloading persisted
    /// state. Whether the fields satisfy the catalog's invariants is judged
    /// when a store is assembled from such items.
    pub fn new(
        id: u64,
        title: String,
        genre: String,
        price: u128,
        published_on: u64,
        developer: String,
    ) -> (r: App)
        ensures
            r@ == (AppView {
                id,
                title: title@,
                genre: genre@,
                price,
                published_on,
                developer: developer@,
            }),
    {
        App { id, title, genre, price, published_on, developer }
    }
}

/// What the surrounding runtime supplies about one call: the marketplace's
/// own identity, the calling identity, the current time, and the value the
/// caller attached.
pub struct CallContext {
    /// The marketplace's own identity.
    pub current_account: String,
    /// The identity on whose behalf the call is made.
    pub signer_account: String,
    /// The current time, in milliseconds.
    pub block_timestamp_ms: u64,
    /// The value attached to the call, available to pay with.
    pub attached_deposit: u128,
}

/// The marketplace state: catalog and purchase ledger.
pub struct AppStore {
    apps: Vec<App>,
    buyers: Vec<Vec<String>>,
}

/// The mathematical image of an [`AppStore`]: the catalog in publish order,
/// and, in the same order, the recorded buyers of each item.
#[verifier::ext_equal]
pub ghost struct StoreView {
    pub apps: Seq<AppView>,
    pub buyers: Seq<Seq<Seq<char>>>,
}

impl View for AppStore {
    type V = StoreView;

    closed spec fn view(&self) -> StoreView {
        StoreView { apps: self.apps.deep_view(), buyers: self.buyers.deep_view() }
    }
}

/// An item the catalog can hold: validated title, genre and price.
pub open spec fn valid_app(a: AppView) -> bool {
    &&& a.title.len() > 0
    &&& a.genre.len() > 0
    &&& is_valid_genre(a.genre)
    &&& a.price > 0
}

/// No identity occurs twice.
pub open spec fn distinct_seq(s: Seq<Seq<char>>) -> bool {
    forall|j: int, k: int| 0 <= j < k < s.len() ==> s[j] != s[k]
}

/// Well-formedness of the marketplace state: the ledger runs in step with
/// the catalog, the item at position `i` carries id `i + 1`, every stored
/// item passed validation, and each (item, buyer) pair is recorded at most
/// once.
pub open spec fn store_wf(sv: StoreView) -> bool {
    &&& sv.buyers.len() == sv.apps.len()
    &&& forall|i: int| 0 <= i < sv.apps.len() ==> (#[trigger] sv.apps[i]).id == i + 1
    &&& forall|i: int| 0 <= i < sv.apps.len() ==> valid_app(#[trigger] sv.apps[i])
    &&& forall|i: int| 0 <= i < sv.buyers.len() ==> distinct_seq(#[trigger] sv.buyers[i])
}

/// The recorded buyers of item `id`: empty when no such item exists.
pub open spec fn buyers_of(sv: StoreView, id: u64) -> Seq<Seq<char>> {
    if 1 <= id && id <= sv.buyers.len() {
        sv.buyers[id - 1]
    } else {
        Seq::empty()
    }
}

/// The first publish-time check that fails, in the order the marketplace
/// applies them, or `None` when the request is accepted.
pub open spec fn publish_check(
    caller: Seq<char>,
    service: Seq<char>,
    title: Seq<char>,
    genre: Seq<char>,
    price: u128,
) -> Option<PublishError> {
    if caller == service {
        Some(PublishError::SelfDealing)
    } else if title.len() == 0 {
        Some(PublishError::EmptyTitle)
    } else if genre.len() == 0 {
        Some(PublishError::EmptyGenre)
    } else if price == 0 {
        Some(PublishError::NonPositivePrice)
    } else if !is_valid_genre(genre) {
        Some(PublishError::InvalidGenre)
    } else {
        None
    }
}

/// The state after a successful publish: the new item, carrying the next id
/// and the caller as developer, is appended to the catalog, and an empty
/// buyer set is appended to the ledger.
pub open spec fn publish_transition(
    sv: StoreView,
    caller: Seq<char>,
    now: u64,
    title: Seq<char>,
    genre: Seq<char>,
    price: u128,
) -> StoreView {
    StoreView {
        apps: sv.apps.push(
            AppView {
                id: (sv.apps.len() + 1) as u64,
                title,
                genre,
                price,
                published_on: now,
                developer: caller,
            },
        ),
        buyers: sv.buyers.push(Seq::empty()),
    }
}

/// The first purchase-time check that fails, in the order the marketplace
/// applies them, or `None` when the purchase goes through.
pub open spec fn buy_check(
    sv: StoreView,
    caller: Seq<char>,
    service: Seq<char>,
    id: u64,
    attached: u128,
) -> Option<BuyError> {
    if caller == service {
        Some(BuyError::SelfPurchase)
    } else if !(1 <= id && id <= sv.apps.len()) {
        Some(BuyError::ItemNotFound)
    } else if buyers_of(sv, id).contains(caller) {
        Some(BuyError::AlreadyPurchased)
    } else if attached < sv.apps[id - 1].price {
        Some(BuyError::InsufficientPayment)
    } else {
        None
    }
}

/// The state after a successful purchase: the caller is appended to the
/// item's buyer set; the catalog is untouched.
pub open spec fn buy_transition(sv: StoreView, caller: Seq<char>, id: u64) -> StoreView {
    StoreView {
        apps: sv.apps,
        buyers: sv.buyers.update(id - 1, sv.buyers[id - 1].push(caller)),
    }
}

/// The titles of the items `buyer` has bought, among the first `apps.len()`
/// items, in ascending id order.
pub open spec fn buyer_titles(
    apps: Seq<AppView>,
    buyers: Seq<Seq<Seq<char>>>,
    buyer: Seq<char>,
) -> Seq<Seq<char>>
    decreases apps.len(),
{
    if apps.len() == 0 || buyers.len() < apps.len() {
        Seq::empty()
    } else {
        let rest = buyer_titles(apps.drop_last(), buyers.take(apps.len() - 1), buyer);
        if buyers[apps.len() - 1].contains(buyer) {
            rest.push(apps.last().title)
        } else {
            rest
        }
    }
}

/// Extending the scanned prefix by one item appends that item's title
/// exactly when `buyer` is among its recorded buyers.
proof fn lemma_buyer_titles_step(
    apps: Seq<AppView>,
    buyers: Seq<Seq<Seq<char>>>,
    buyer: Seq<char>,
    i: int,
)
    requires
        0 <= i < apps.len(),
        i < buyers.len(),
    ensures
        buyer_titles(apps.take(i + 1), buyers.take(i + 1), buyer) == (if buyers[i].contains(buyer) {
            buyer_titles(apps.take(i), buyers.take(i), buyer).push(apps[i].title)
        } else {
            buyer_titles(apps.take(i), buyers.take(i), buyer)
        }),
{
    let a1 = apps.take(i + 1);
    let b1 = buyers.take(i + 1);
    assert(a1.drop_last() =~= apps.take(i));
    assert(b1.take(a1.len() - 1) =~= buyers.take(i));
    assert(a1.last() == apps[i]);
    assert(b1[a1.len() - 1] == buyers[i]);
}

/// A successful publish preserves well-formedness.
pub proof fn lemma_publish_preserves_wf(
    sv: StoreView,
    caller: Seq<char>,
    now: u64,
    title: Seq<char>,
    genre: Seq<char>,
    price: u128,
)
    requires
        store_wf(sv),
        sv.apps.len() < u64::MAX,
        title.len() > 0,
        genre.len() > 0,
        is_valid_genre(genre),
        price > 0,
    ensures
        store_wf(publish_transition(sv, caller, now, title, genre, price)),
{
    let post = publish_transition(sv, caller, now, title, genre, price);
    assert forall|i: int| 0 <= i < post.apps.len() implies (#[trigger] post.apps[i]).id == i
        + 1 by {
        if i < sv.apps.len() {
            assert(post.apps[i] == sv.apps[i]);
        }
    }
    assert forall|i: int| 0 <= i < post.apps.len() implies valid_app(#[trigger] post.apps[i]) by {
        if i < sv.apps.len() {
            assert(post.apps[i] == sv.apps[i]);
        }
    }
    assert forall|i: int| 0 <= i < post.buyers.len() implies distinct_seq(
        #[trigger] post.buyers[i],
    ) by {
        if i < sv.buyers.len() {
            assert(post.buyers[i] == sv.buyers[i]);
        }
    }
}

/// A successful purchase preserves well-formedness: appending a buyer who
/// was not yet recorded keeps the buyer set duplicate-free.
pub proof fn lemma_buy_preserves_wf(sv: StoreView, caller: Seq<char>, id: u64)
    requires
        store_wf(sv),
        1 <= id && id <= sv.apps.len(),
        !buyers_of(sv, id).contains(caller),
    ensures
        store_wf(buy_transition(sv, caller, id)),
{
    let post = buy_transition(sv, caller, id);
    let updated = sv.buyers[id - 1].push(caller);
    assert forall|j: int, k: int| 0 <= j < k < updated.len() implies updated[j] != updated[k] by {
        if k < updated.len() - 1 {
            assert(updated[j] == sv.buyers[id - 1][j]);
            assert(updated[k] == sv.buyers[id - 1][k]);
        } else {
            assert(updated[j] == sv.buyers[id - 1][j]);
            assert(updated[k] == caller);
            assert(!sv.buyers[id - 1].contains(caller));
        }
    }
    assert forall|i: int| 0 <= i < post.buyers.len() implies distinct_seq(
        #[trigger] post.buyers[i],
    ) by {
        if i != id - 1 {
            assert(post.buyers[i] == sv.buyers[i]);
        } else {
            assert(post.buyers[i] == updated);
        }
    }
}

/// Whether `x` occurs in `v`.
fn vec_contains_string(v: &Vec<String>, x: &String) -> (r: bool)
    ensures
        r == v.deep_view().contains(x@),
{
    let n: usize = v.len();
    let mut i: usize = 0;
    while i < n
        invariant
            n == v.len(),
            i <= n,
            forall|j: int| 0 <= j < i ==> v@[j]@ != x@,
        decreases n - i,
    {
        if v[i] == *x {
            proof {
                assert(v.deep_view()[i as int] == x@);
            }
            return true;
        }
        i = i + 1;
    }
    false
}

/// Whether no identity occurs twice in `v`.
fn vec_distinct_strings(v: &Vec<String>) -> (r: bool)
    ensures
        r == distinct_seq(v.deep_view()),
{
    let n: usize = v.len();
    let mut j: usize = 0;
    while j < n
        invariant
            n == v.len(),
            j <= n,
            forall|a: int, b: int| 0 <= a < j && a < b < n ==> v@[a]@ != v@[b]@,
        decreases n - j,
    {
        let mut k: usize = j + 1;
        while k < n
            invariant
                n == v.len(),
                j < n,
                j < k,
                k <= n,
                forall|a: int, b: int| 0 <= a < j && a < b < n ==> v@[a]@ != v@[b]@,
                forall|b: int| j < b < k ==> v@[j as int]@ != v@[b]@,
            decreases n - k,
        {
            if v[j] == v[k] {
                proof {
                    assert(v.deep_view()[j as int] == v.deep_view()[k as int]);
                    assert(!distinct_seq(v.deep_view()));
                }
                return false;
            }
            k = k + 1;
        }
        j = j + 1;
    }
    true
}

impl AppStore {
    /// Reassembles a marketplace from its persisted parts: the catalog in id
    /// order and, in the same order, the recorded buyers of each item. State
    /// that violates the marketplace's invariants — a ledger out of step
    /// with the catalog, an item whose id or validation is wrong, a buyer
    /// recorded twice — is rejected.
    pub fn from_parts(apps: Vec<App>, buyers: Vec<Vec<String>>) -> (r: Option<AppStore>)
        ensures
            (match r {
                Some(s) => s@ == (StoreView {
                    apps: apps.deep_view(),
                    buyers: buyers.deep_view(),
                }) && store_wf(s@),
                None => !store_wf(
                    StoreView { apps: apps.deep_view(), buyers: buyers.deep_view() },
                ),
            }),
    {
        let ghost sv = StoreView { apps: apps.deep_view(), buyers: buyers.deep_view() };
        let n: usize = apps.len();
        if buyers.len() != n {
            return None;
        }
        let mut i: usize = 0;
        while i < n
            invariant
                sv == (StoreView { apps: apps.deep_view(), buyers: buyers.deep_view() }),
                n == apps.len(),
                buyers.len() == n,
                i <= n,
                forall|t: int| 0 <= t < i ==> (#[trigger] sv.apps[t]).id == t + 1,
                forall|t: int| 0 <= t < i ==> valid_app(#[trigger] sv.apps[t]),
                forall|t: int| 0 <= t < i ==> distinct_seq(#[trigger] sv.buyers[t]),
            decreases n - i,
        {
            proof {
                assert(sv.apps[i as int] == apps@[i as int]@);
                assert(sv.buyers[i as int] == buyers@[i as int].deep_view());
            }
            if apps[i].id != i as u64 + 1 {
                return None;
            }
            if apps[i].title.as_str().is_empty() {
                return None;
            }
            if apps[i].genre.as_str().is_empty() {
                return None;
            }
            if apps[i].price == 0 {
                return None;
            }
            if !check_genre(apps[i].genre.as_str()) {
                return None;
            }
            if !vec_distinct_strings(&buyers[i]) {
                return None;
            }
            i = i + 1;
        }
        Some(AppStore { apps, buyers })
    }

    /// A marketplace with an empty catalog and an empty ledger.
    pub fn new() -> (s: Self)
        ensures
            s@.apps.len() == 0,
            s@.buyers.len() == 0,
            store_wf(s@),
    {
        AppStore { apps: Vec::new(), buyers: Vec::new() }
    }

    /// Lists an item for sale. The caller becomes its developer; the item
    /// gets id `count + 1` and is appended to the catalog. A request that
    /// fails any publish-time check is rejected with the first failing
    /// check's error and leaves the state untouched.
    pub fn publish_app(&mut self, ctx: &CallContext, title: String, genre: String, yocto_price:
        u128) -> (r: Result<bool, PublishError>)
        requires
            store_wf(old(self)@),
            old(self)@.apps.len() < u64::MAX,
        ensures
            store_wf(final(self)@),
            (match publish_check(
                ctx.signer_account@,
                ctx.current_account@,
                title@,
                genre@,
                yocto_price,
            ) {
                Some(e) => final(self)@ == old(self)@ && r == Err::<bool, PublishError>(e),
                None => final(self)@ == publish_transition(
                    old(self)@,
                    ctx.signer_account@,
                    ctx.block_timestamp_ms,
                    title@,
                    genre@,
                    yocto_price,
                ) && r == Ok::<bool, PublishError>(true),
            }),
    {
        if ctx.current_account == ctx.signer_account {
            return Err(PublishError::SelfDealing);
        }
        if title.as_str().is_empty() {
            return Err(PublishError::EmptyTitle);
        }
        if genre.as_str().is_empty() {
            return Err(PublishError::EmptyGenre);
        }
        if yocto_price == 0 {
            return Err(PublishError::NonPositivePrice);
        }
        if !check_genre(genre.as_str()) {
            return Err(PublishError::InvalidGenre);
        }
        let id: u64 = self.apps.len() as u64 + 1;
        let ghost pre = self@;
        let ghost title_v = title@;
        let ghost genre_v = genre@;
        let app = App {
            id,
            title,
            genre,
            price: yocto_price,
            published_on: ctx.block_timestamp_ms,
            developer: ctx.signer_account.clone(),
        };
        self.apps.push(app);
        self.buyers.push(Vec::new());
        proof {
            let post = publish_transition(
                pre,
                ctx.signer_account@,
                ctx.block_timestamp_ms,
                title_v,
                genre_v,
                yocto_price,
            );
            assert(self@.apps =~~= post.apps);
            assert(self@.buyers =~~= post.buyers);
            assert(self@ =~= post);
            lemma_publish_preserves_wf(
                pre,
                ctx.signer_account@,
                ctx.block_timestamp_ms,
                title_v,
                genre_v,
                yocto_price,
            );
        }
        Ok(true)
    }

    /// The catalog, in ascending id order.
    pub fn list_apps(&self) -> (r: Vec<App>)
        ensures
            r.deep_view() == self@.apps,
    {
        let r = self.apps.clone();
        proof {
            assert(r@ =~= self.apps@);
        }
        r
    }

    /// The recorded buyers of item `id`, in purchase order; empty when no
    /// such item exists.
    pub fn get_app_buyers(&self, id: u64) -> (r: Vec<String>)
        ensures
            r.deep_view() == buyers_of(self@, id),
    {
        if 1 <= id && id <= self.buyers.len() as u64 {
            let idx: usize = (id - 1) as usize;
            let r = self.buyers[idx].clone();
            proof {
                assert(r@ =~= self.buyers@[idx as int]@);
                assert(r.deep_view() == buyers_of(self@, id));
            }
            r
        } else {
            Vec::new()
        }
    }

    /// Whether `buyer` already holds an entitlement to item `app_id`.
    pub fn is_app_bought(&self, app_id: u64, buyer: &String) -> (r: bool)
        ensures
            r == buyers_of(self@, app_id).contains(buyer@),
    {
        if 1 <= app_id && app_id <= self.buyers.len() as u64 {
            let idx: usize = (app_id - 1) as usize;
            vec_contains_string(&self.buyers[idx], buyer)
        } else {
            false
        }
    }

    /// Buys item `id` for the calling identity, paying with the attached
    /// value. On success the settlement transfers are returned in the order
    /// they are to be executed — the seller payout, then any refund of the
    /// overpayment — and the purchase is recorded. A purchase that fails any
    /// check is rejected with the first failing check's error and leaves the
    /// state untouched.
    pub fn buy_app(&mut self, ctx: &CallContext, id: u64) -> (r: Result<Vec<Transfer>, BuyError>)
        requires
            store_wf(old(self)@),
        ensures
            store_wf(final(self)@),
            (match buy_check(
                old(self)@,
                ctx.signer_account@,
                ctx.current_account@,
                id,
                ctx.attached_deposit,
            ) {
                Some(e) => final(self)@ == old(self)@ && r == Err::<Vec<Transfer>, BuyError>(e),
                None => final(self)@ == buy_transition(old(self)@, ctx.signer_account@, id) && (
                r matches Ok(ts) && ts.deep_view() == settlement_spec(
                    old(self)@.apps[id - 1].price,
                    ctx.attached_deposit,
                    old(self)@.apps[id - 1].developer,
                    ctx.signer_account@,
                )),
            }),
    {
        if ctx.current_account == ctx.signer_account {
            return Err(BuyError::SelfPurchase);
        }
        if id == 0 || id > self.apps.len() as u64 {
            return Err(BuyError::ItemNotFound);
        }
        let idx: usize = (id - 1) as usize;
        if self.is_app_bought(id, &ctx.signer_account) {
            return Err(BuyError::AlreadyPurchased);
        }
        let app_price: u128 = self.apps[idx].price;
        if ctx.attached_deposit < app_price {
            return Err(BuyError::InsufficientPayment);
        }
        let transfers = build_settlement(
            app_price,
            ctx.attached_deposit,
            &self.apps[idx].developer,
            &ctx.signer_account,
        );
        let ghost pre = self@;
        let mut entry: Vec<String> = self.buyers.remove(idx);
        entry.push(ctx.signer_account.clone());
        self.buyers.insert(idx, entry);
        proof {
            let post = buy_transition(pre, ctx.signer_account@, id);
            assert(self@.buyers =~~= post.buyers);
            assert(self@ =~= post);
            lemma_buy_preserves_wf(pre, ctx.signer_account@, id);
        }
        Ok(transfers)
    }

    /// The titles of every item `buyer` has bought, in ascending id order —
    /// the order the catalog is iterated in, not purchase time.
    pub fn list_buyer_apps(&self, buyer: String) -> (r: Vec<String>)
        requires
            store_wf(self@),
        ensures
            r.deep_view() == buyer_titles(self@.apps, self@.buyers, buyer@),
    {
        let mut result: Vec<String> = Vec::new();
        let n: usize = self.apps.len();
        let mut i: usize = 0;
        while i < n
            invariant
                store_wf(self@),
                n == self@.apps.len(),
                self@.buyers.len() == n,
                i <= n,
                result.deep_view() == buyer_titles(
                    self@.apps.take(i as int),
                    self@.buyers.take(i as int),
                    buyer@,
                ),
            decreases n - i,
        {
            let ghost prev = result.deep_view();
            if vec_contains_string(&self.buyers[i], &buyer) {
                result.push(self.apps[i].title.clone());
                proof {
                    assert(result.deep_view() =~~= prev.push(self@.apps[i as int].title));
                }
            }
            proof {
                lemma_buyer_titles_step(self@.apps, self@.buyers, buyer@, i as int);
            }
            i = i + 1;
        }
        proof {
            assert(self@.apps.take(n as int) =~= self@.apps);
            assert(self@.buyers.take(n as int) =~= self@.buyers);
        }
        result
    }
}

} // verus!
