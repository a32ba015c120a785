//! The records of the marketplace, the transfers it asks for, and its errors.
use vstd::prelude::*;

verus! {

/// An amount of one currency.
#[derive(Clone, Debug, PartialEq, Eq)]
pub struct Coin {
    pub denom: String,
    pub amount: u128,
}

/// The caller of an operation and the funds sent along with it.
#[derive(Clone, Debug)]
pub struct MessageInfo {
    pub sender: String,
    pub funds: Vec<Coin>,
}

/// Allowed distance, in seconds, between the time of a call and a proposed expiry.
#[derive(Clone, Copy, Debug, PartialEq, Eq)]
pub struct ExpiryRange {
    pub min: u64,
    pub max: u64,
}

/// Marketplace-wide configuration.
#[derive(Clone, Debug)]
pub struct Params {
    pub cw721_address: String,
    pub denom: String,
    pub collector_address: String,
    /// Trading fee, in percent of each sale.
    pub trading_fee_percent: u64,
    pub ask_expiry: ExpiryRange,
    pub bid_expiry: ExpiryRange,
    pub auction_expiry: ExpiryRange,
    pub operators: Vec<String>,
    pub min_price: u128,
}

/// A fixed-price listing of one token, held in the contract's custody.
#[derive(Clone, Debug)]
pub struct Ask {
    pub token_id: String,
    pub seller: String,
    pub price: Coin,
    pub funds_recipient: Option<String>,
    pub reserve_for: Option<String>,
    pub expires_at: u64,
}

/// An escrowed offer on one token.
#[derive(Clone, Debug)]
pub struct Bid {
    pub token_id: String,
    pub bidder: String,
    pub price: Coin,
    pub expires_at: u64,
}

/// An escrowed offer for `units` tokens of the collection at `price` each.
#[derive(Clone, Debug)]
pub struct CollectionBid {
    pub units: u32,
    pub price: Coin,
    pub bidder: String,
    pub expires_at: u64,
}

/// A seller-run auction of one token, held in the contract's custody.
#[derive(Clone, Debug)]
pub struct Auction {
    pub token_id: String,
    pub seller: String,
    pub starting_price: Coin,
    pub reserve_price: Option<Coin>,
    pub funds_recipient: Option<String>,
    pub expires_at: u64,
}

/// A transfer that an operation asks the host to perform once it has succeeded.
#[derive(Clone, Debug, PartialEq, Eq)]
pub enum Transfer {
    /// Move the token from its owner into the contract's custody.
    NftToContract { token_id: String },
    /// Move the token from the contract to `recipient`.
    Nft { token_id: String, recipient: String },
    /// Pay `coin` out of the contract to `recipient`.
    Funds { recipient: String, coin: Coin },
}

/// Why the funds sent with a call were refused.
#[derive(Clone, Debug, PartialEq, Eq)]
pub enum PaymentError {
    MissingDenom,
    ExtraDenom,
    MultipleDenoms,
    NoFunds,
    NonPayable,
}

#[derive(Clone, Debug, PartialEq, Eq)]
pub enum ContractError {
    Unauthorized,
    Payment(PaymentError),
    /// The payment (second) differs from the price offered (first).
    IncorrectBidPayment(u128, u128),
    /// The price is not in the settlement currency.
    InvalidDenom,
    /// The price is zero or below the floor (the floor is carried).
    PriceTooSmall(u128),
    InvalidExpiration,
    InvalidExpiryRange,
    InvalidTradingFee(u64),
    TotalCostOverflow,
    /// The reserve price (first) is below the starting price (second).
    InvalidReservePrice(u128, u128),
    AuctionAlreadyExists,
    AskNotFound,
    BidNotFound,
    CollectionBidNotFound,
    AuctionNotFound,
    BidExpired,
    AuctionExpired,
    ReservePriceRestriction,
}

impl Ask {
    pub open spec fn recipient(self) -> String {
        match self.funds_recipient {
            Some(r) => r,
            None => self.seller,
        }
    }

    /// Who is paid when the listed token is sold.
    pub fn get_recipient(&self) -> (r: String)
        ensures
            r == self.recipient(),
    {
        match &self.funds_recipient {
            Some(r) => r.clone(),
            None => self.seller.clone(),
        }
    }
}

impl Auction {
    pub open spec fn recipient(self) -> String {
        match self.funds_recipient {
            Some(r) => r,
            None => self.seller,
        }
    }

    /// Who is paid when the auctioned token is sold.
    pub fn get_recipient(&self) -> (r: String)
        ensures
            r == self.recipient(),
    {
        match &self.funds_recipient {
            Some(r) => r.clone(),
            None => self.seller.clone(),
        }
    }
}

impl CollectionBid {
    /// The escrow a collection bid holds: its unit price times its units.
    pub open spec fn total(self) -> int {
        self.price.amount * self.units
    }
}

} // verus!
