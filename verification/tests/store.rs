use appstore::errors::{BuyError, PublishError};
use appstore::store::{App, AppStore, CallContext};

const ONE_NEAR: u128 = 1_000_000_000_000_000_000_000_000;

const STORE_ACCOUNT: &str = "appstore.near";

fn context(signer: &str, attached: u128) -> CallContext {
    CallContext {
        current_account: STORE_ACCOUNT.to_string(),
        signer_account: signer.to_string(),
        block_timestamp_ms: 1_700_000_000_000,
        attached_deposit: attached,
    }
}

fn developer_context() -> CallContext {
    context("bob.near", 0)
}

fn buyer_context() -> CallContext {
    context("buyer.near", 2 * ONE_NEAR)
}

#[test]
fn publish_app() {
    let context = developer_context();

    let mut store = AppStore::new();
    assert_eq!(store.list_apps().len(), 0);
    let result = store
        .publish_app(
            &context,
            "Red Dead Redemption".to_string(),
            "games".to_string(),
            8 * ONE_NEAR,
        )
        .unwrap();
    assert!(result);
    assert_eq!(1, store.list_apps().len());
}

#[test]
fn buy_app() {
    let context = buyer_context();

    let mut store = AppStore::new();
    store
        .publish_app(
            &context,
            "Red Dead Redemption".to_string(),
            "games".to_string(),
            3 * ONE_NEAR,
        )
        .unwrap();

    store
        .publish_app(&context, "GTA V".to_string(), "games".to_string(), 2 * ONE_NEAR)
        .unwrap();

    store.buy_app(&context, 2).unwrap();
    let account_id = store.get_app_buyers(2);
    assert_eq!(account_id[0].as_str(), "buyer.near".to_string());
}

#[test]
fn publish_assigns_sequential_ids() {
    let ctx = developer_context();
    let mut store = AppStore::new();
    store
        .publish_app(&ctx, "Pokemon".to_string(), "games".to_string(), 1_000_000)
        .unwrap();
    let listed = store.list_apps();
    assert_eq!(listed.len(), 1);
    assert_eq!(listed[0].id(), 1);
    assert_eq!(listed[0].title().as_str(), "Pokemon");
    assert_eq!(listed[0].price(), 1_000_000);
    assert_eq!(listed[0].developer().as_str(), "bob.near");

    store
        .publish_app(&ctx, "Tetris".to_string(), "games".to_string(), 2_000_000)
        .unwrap();
    let listed = store.list_apps();
    assert_eq!(listed.len(), 2);
    assert!(listed[0].id() < listed[1].id());
    assert_eq!(listed[1].id(), 2);
}

#[test]
fn publish_accepts_genres_case_insensitively() {
    let ctx = developer_context();
    let mut store = AppStore::new();
    assert_eq!(
        store.publish_app(&ctx, "A".to_string(), "GAMES".to_string(), 1),
        Ok(true)
    );
    assert_eq!(
        store.publish_app(&ctx, "B".to_string(), "Entertainment".to_string(), 1),
        Ok(true)
    );
    assert_eq!(
        store.publish_app(&ctx, "C".to_string(), "eNtErTaInMeNt".to_string(), 1),
        Ok(true)
    );
    assert_eq!(store.list_apps().len(), 3);
}

#[test]
fn publish_rejects_invalid_requests() {
    let ctx = developer_context();
    let mut store = AppStore::new();

    let r = store.publish_app(&ctx, "".to_string(), "games".to_string(), 1);
    assert_eq!(r, Err(PublishError::EmptyTitle));
    assert_eq!(store.list_apps().len(), 0);

    let r = store.publish_app(&ctx, "Pokemon".to_string(), "".to_string(), 1);
    assert_eq!(r, Err(PublishError::EmptyGenre));
    assert_eq!(store.list_apps().len(), 0);

    let r = store.publish_app(&ctx, "Pokemon".to_string(), "games".to_string(), 0);
    assert_eq!(r, Err(PublishError::NonPositivePrice));
    assert_eq!(store.list_apps().len(), 0);

    let r = store.publish_app(&ctx, "Pokemon".to_string(), "music".to_string(), 1);
    assert_eq!(r, Err(PublishError::InvalidGenre));
    assert_eq!(store.list_apps().len(), 0);

    let r = store.publish_app(&ctx, "gamesx".to_string(), "games ".to_string(), 1);
    assert_eq!(r, Err(PublishError::InvalidGenre));
    assert_eq!(store.list_apps().len(), 0);

    let store_ctx = context(STORE_ACCOUNT, 0);
    let r = store.publish_app(&store_ctx, "Pokemon".to_string(), "games".to_string(), 1);
    assert_eq!(r, Err(PublishError::SelfDealing));
    assert_eq!(store.list_apps().len(), 0);
}

#[test]
fn buy_rejects_insufficient_payment() {
    let dev = developer_context();
    let mut store = AppStore::new();
    store
        .publish_app(&dev, "Pokemon".to_string(), "games".to_string(), 10)
        .unwrap();

    let buyer = context("buyer.near", 9);
    let e = store.buy_app(&buyer, 1).unwrap_err();
    assert_eq!(e, BuyError::InsufficientPayment);
    assert!(store.get_app_buyers(1).is_empty());
    assert!(!store.is_app_bought(1, &"buyer.near".to_string()));
}

#[test]
fn buy_splits_payment_and_records_purchase() {
    let dev = developer_context();
    let mut store = AppStore::new();
    store
        .publish_app(&dev, "Red Dead Redemption".to_string(), "games".to_string(), 3 * ONE_NEAR)
        .unwrap();
    store
        .publish_app(&dev, "GTA V".to_string(), "games".to_string(), 2 * ONE_NEAR)
        .unwrap();

    let buyer = buyer_context();
    let transfers = store.buy_app(&buyer, 2).unwrap();
    assert_eq!(transfers.len(), 1);
    assert_eq!(transfers[0].to.as_str(), "bob.near");
    assert_eq!(transfers[0].amount, ONE_NEAR);
    assert!(store.is_app_bought(2, &"buyer.near".to_string()));
    assert!(!store.is_app_bought(1, &"buyer.near".to_string()));
}

#[test]
fn buy_twice_is_rejected() {
    let dev = developer_context();
    let mut store = AppStore::new();
    store
        .publish_app(&dev, "Red Dead Redemption".to_string(), "games".to_string(), 3 * ONE_NEAR)
        .unwrap();
    store
        .publish_app(&dev, "GTA V".to_string(), "games".to_string(), 2 * ONE_NEAR)
        .unwrap();

    let buyer = buyer_context();
    store.buy_app(&buyer, 2).unwrap();
    assert_eq!(store.get_app_buyers(2).len(), 1);

    let e = store.buy_app(&buyer, 2).unwrap_err();
    assert_eq!(e, BuyError::AlreadyPurchased);
    assert_eq!(store.get_app_buyers(2).len(), 1);
    assert_eq!(store.list_apps().len(), 2);
}

#[test]
fn buy_refunds_overpayment() {
    let dev = developer_context();
    let mut store = AppStore::new();
    store
        .publish_app(&dev, "Pokemon".to_string(), "games".to_string(), 5)
        .unwrap();

    let buyer = context("buyer.near", 8);
    let transfers = store.buy_app(&buyer, 1).unwrap();
    assert_eq!(transfers.len(), 2);
    assert_eq!(transfers[0].to.as_str(), "bob.near");
    assert_eq!(transfers[0].amount, 3);
    assert_eq!(transfers[1].to.as_str(), "buyer.near");
    assert_eq!(transfers[1].amount, 3);
}

#[test]
fn buy_nonexistent_item_is_rejected() {
    let dev = developer_context();
    let mut store = AppStore::new();
    store
        .publish_app(&dev, "Pokemon".to_string(), "games".to_string(), 5)
        .unwrap();

    let buyer = buyer_context();
    let e = store.buy_app(&buyer, 99).unwrap_err();
    assert_eq!(e, BuyError::ItemNotFound);
    let e = store.buy_app(&buyer, 0).unwrap_err();
    assert_eq!(e, BuyError::ItemNotFound);
}

#[test]
fn store_cannot_buy_from_itself() {
    let dev = developer_context();
    let mut store = AppStore::new();
    store
        .publish_app(&dev, "Pokemon".to_string(), "games".to_string(), 5)
        .unwrap();

    let own = context(STORE_ACCOUNT, 100);
    let e = store.buy_app(&own, 1).unwrap_err();
    assert_eq!(e, BuyError::SelfPurchase);
    assert!(store.get_app_buyers(1).is_empty());
}

#[test]
fn list_buyer_apps_yields_titles_in_id_order() {
    let dev = developer_context();
    let mut store = AppStore::new();
    store
        .publish_app(&dev, "Pokemon".to_string(), "games".to_string(), 5)
        .unwrap();
    store
        .publish_app(&dev, "Frozen".to_string(), "entertainment".to_string(), 7)
        .unwrap();
    store
        .publish_app(&dev, "Tetris".to_string(), "games".to_string(), 2)
        .unwrap();

    let buyer = context("buyer.near", 100);
    store.buy_app(&buyer, 3).unwrap();
    store.buy_app(&buyer, 1).unwrap();

    let titles = store.list_buyer_apps("buyer.near".to_string());
    assert_eq!(titles.len(), 2);
    assert_eq!(titles[0].as_str(), "Pokemon");
    assert_eq!(titles[1].as_str(), "Tetris");

    let none = store.list_buyer_apps("other.near".to_string());
    assert!(none.is_empty());
}

#[test]
fn purchase_commits_even_if_settlement_never_runs() {
    // The settlement is fire-and-forget: the ledger records the purchase
    // once the transfers are scheduled, and nothing rolls it back if they
    // are never executed downstream.
    let dev = developer_context();
    let mut store = AppStore::new();
    store
        .publish_app(&dev, "Pokemon".to_string(), "games".to_string(), 5)
        .unwrap();

    let buyer = context("buyer.near", 5);
    let transfers = store.buy_app(&buyer, 1).unwrap();
    drop(transfers);
    assert!(store.is_app_bought(1, &"buyer.near".to_string()));
    assert_eq!(store.get_app_buyers(1).len(), 1);
}

#[test]
fn from_parts_reloads_valid_state() {
    let apps = vec![
        App::new(1, "Pokemon".to_string(), "games".to_string(), 5, 11, "bob.near".to_string()),
        App::new(2, "Frozen".to_string(), "Entertainment".to_string(), 7, 12, "bob.near".to_string()),
    ];
    let buyers = vec![vec!["buyer.near".to_string()], vec![]];
    let store = AppStore::from_parts(apps, buyers).unwrap();
    assert!(store.is_app_bought(1, &"buyer.near".to_string()));
    assert!(!store.is_app_bought(2, &"buyer.near".to_string()));
    assert_eq!(store.list_apps().len(), 2);
}

#[test]
fn from_parts_rejects_corrupt_state() {
    let bad_id = vec![App::new(
        2,
        "Pokemon".to_string(),
        "games".to_string(),
        5,
        11,
        "bob.near".to_string(),
    )];
    assert!(AppStore::from_parts(bad_id, vec![vec![]]).is_none());

    let app = || vec![App::new(
        1,
        "Pokemon".to_string(),
        "games".to_string(),
        5,
        11,
        "bob.near".to_string(),
    )];
    assert!(AppStore::from_parts(app(), vec![]).is_none());
    assert!(
        AppStore::from_parts(app(), vec![vec!["b.near".to_string(), "b.near".to_string()]])
            .is_none()
    );

    let bad_genre = vec![App::new(
        1,
        "Pokemon".to_string(),
        "music".to_string(),
        5,
        11,
        "bob.near".to_string(),
    )];
    assert!(AppStore::from_parts(bad_genre, vec![vec![]]).is_none());

    let zero_price = vec![App::new(
        1,
        "Pokemon".to_string(),
        "games".to_string(),
        0,
        11,
        "bob.near".to_string(),
    )];
    assert!(AppStore::from_parts(zero_price, vec![vec![]]).is_none());
}

#[test]
fn rejection_reasons_name_the_constraint() {
    assert_eq!(
        PublishError::SelfDealing.reason(),
        "Store itself cannot publish application"
    );
    assert_eq!(PublishError::EmptyTitle.reason(), "title not provided");
    assert_eq!(PublishError::EmptyGenre.reason(), "genre not provided");
    assert_eq!(
        PublishError::NonPositivePrice.reason(),
        "price must be greater than 0"
    );
    assert_eq!(
        PublishError::InvalidGenre.reason(),
        "Genre must be 'games' or 'entertainment'."
    );
    assert_eq!(BuyError::SelfPurchase.reason(), "appstore itself cannot buy apps");
    assert_eq!(
        BuyError::AlreadyPurchased.reason(),
        "Specified buyer has already bought this app before"
    );
}
