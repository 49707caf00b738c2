//! The reasons for which a marketplace call is rejected.
//!
//! Every failure is terminal for the call that raised it: the caller gets the
//! reason back and no state written by the call survives.

use vstd::prelude::*;

verus! {

/// Why a publish request was rejected.
#[derive(Clone, Copy, Debug, PartialEq, Eq, Structural)]
pub enum PublishError {
    /// The marketplace tried to list an item under its own identity.
    SelfDealing,
    /// The title was empty.
    EmptyTitle,
    /// The genre was empty.
    EmptyGenre,
    /// The price was not strictly positive.
    NonPositivePrice,
    /// The genre was not one of the accepted ones.
    InvalidGenre,
}

/// Why a purchase request was rejected.
#[derive(Clone, Copy, Debug, PartialEq, Eq, Structural)]
pub enum BuyError {
    /// The marketplace tried to buy an item from itself.
    SelfPurchase,
    /// No item with the given id exists.
    ItemNotFound,
    /// The buyer already holds an entitlement to this item.
    AlreadyPurchased,
    /// The attached value does not cover the item's price.
    InsufficientPayment,
}

impl PublishError {
    /// The human-readable reason reported for this rejection.
    pub open spec fn reason_spec(self) -> Seq<char> {
        match self {
            PublishError::SelfDealing => "Store itself cannot publish application"@,
            PublishError::EmptyTitle => "title not provided"@,
            PublishError::EmptyGenre => "genre not provided"@,
            PublishError::NonPositivePrice => "price must be greater than 0"@,
            PublishError::InvalidGenre => "Genre must be 'games' or 'entertainment'."@,
        }
    }

    /// The human-readable reason, for reporting the rejection to the caller.
    pub fn reason(&self) -> (r: &'static str)
        ensures
            r@ == self.reason_spec(),
    {
        match self {
            PublishError::SelfDealing => "Store itself cannot publish application",
            PublishError::EmptyTitle => "title not provided",
            PublishError::EmptyGenre => "genre not provided",
            PublishError::NonPositivePrice => "price must be greater than 0",
            PublishError::InvalidGenre => "Genre must be 'games' or 'entertainment'.",
        }
    }
}

impl BuyError {
    /// The human-readable reason reported for this rejection.
    pub open spec fn reason_spec(self) -> Seq<char> {
        match self {
            BuyError::SelfPurchase => "appstore itself cannot buy apps"@,
            BuyError::ItemNotFound => "app with the provided id not found"@,
            BuyError::AlreadyPurchased => "Specified buyer has already bought this app before"@,
            BuyError::InsufficientPayment => "provided deposit is less than app price"@,
        }
    }

    /// The human-readable reason, for reporting the rejection to the caller.
    pub fn reason(&self) -> (r: &'static str)
        ensures
            r@ == self.reason_spec(),
    {
        match self {
            BuyError::SelfPurchase => "appstore itself cannot buy apps",
            BuyError::ItemNotFound => "app with the provided id not found",
            BuyError::AlreadyPurchased => "Specified buyer has already bought this app before",
            BuyError::InsufficientPayment => "provided deposit is less than app price",
        }
    }
}

} // verus!
