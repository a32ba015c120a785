//! The marketplace's state and its eleven operations. Each operation checks
//! everything before it changes anything, and states its effect as a `*_post`
//! predicate over the state before and after.
use vstd::prelude::*;
use crate::helpers::{
    expiry_in_range, finalize_sale, is_expired, is_operator, must_pay, must_pay_result,
    nonpayable, nonpayable_result, only_operator, price_result, price_validate, sale_transfers,
};
use crate::query::{highest_bid, top_bid};
use crate::registry::{
    ask_key, ask_on, at_most_one, auction_key, auction_on, bid_key, bid_of, collection_bid_key,
    collection_bid_of, find_ask, find_auction, find_bid, find_collection_bid, index_where,
    keys_distinct, lemma_distinct_found, lemma_distinct_key_gone, lemma_distinct_push, lemma_distinct_remove,
    lemma_distinct_update, lemma_found,
};
use crate::state::{
    Ask, Auction, Bid, Coin, CollectionBid, ContractError, ExpiryRange, MessageInfo, Params,
    Transfer,
};

verus! {

/// The whole state of the marketplace: its parameters and its four registries.
pub struct Market {
    pub params: Params,
    pub asks: Vec<Ask>,
    pub bids: Vec<Bid>,
    pub collection_bids: Vec<CollectionBid>,
    pub auctions: Vec<Auction>,
}

/// A stored collection bid has a unit left and an escrow that fits in `u128`.
pub open spec fn valid_collection_bid(b: CollectionBid) -> bool {
    b.units >= 1 && b.total() <= u128::MAX
}

/// The caller owns the token, or is the seller of its live ask.
pub open spec fn owner_or_seller(asks: Seq<Ask>, sender: Seq<char>, owner: Seq<char>, t: Seq<char>) -> bool {
    sender == owner || match index_where(asks, ask_on(t)) {
        Some(i) => asks[i].seller@ == sender,
        None => false,
    }
}

/// The registry holds exactly one ask on `t`.
pub open spec fn exactly_one_ask(asks: Seq<Ask>, t: Seq<char>) -> bool {
    index_where(asks, ask_on(t)) is Some && at_most_one(asks, ask_on(t))
}

pub open spec fn ok_with(r: Result<Vec<Transfer>, ContractError>, transfers: Seq<Transfer>) -> bool {
    match r {
        Ok(v) => v@ == transfers,
        Err(_) => false,
    }
}

pub open spec fn refused(r: Result<Vec<Transfer>, ContractError>, e: ContractError) -> bool {
    r == Err::<Vec<Transfer>, ContractError>(e)
}

pub open spec fn paid_nothing(funds: Seq<Coin>) -> Result<(), ContractError> {
    match nonpayable_result(funds) {
        Ok(_) => Ok(()),
        Err(e) => Err(ContractError::Payment(e)),
    }
}

/// Where a sale pays out: the ask's recipient, or else the accepting caller.
pub open spec fn payee(asks: Seq<Ask>, t: Seq<char>, sender: String) -> String {
    match index_where(asks, ask_on(t)) {
        Some(i) => asks[i].recipient(),
        None => sender,
    }
}

/// The asks that remain once a sale of `t` consumed its ask, if any.
pub open spec fn asks_after_sale(asks: Seq<Ask>, t: Seq<char>) -> Seq<Ask> {
    match index_where(asks, ask_on(t)) {
        Some(i) => asks.remove(i),
        None => asks,
    }
}

pub open spec fn params_result(params: Params) -> Result<(), ContractError> {
    if params.trading_fee_percent > 100 {
        Err(ContractError::InvalidTradingFee(params.trading_fee_percent))
    } else if params.ask_expiry.min > params.ask_expiry.max
        || params.bid_expiry.min > params.bid_expiry.max
        || params.auction_expiry.min > params.auction_expiry.max {
        Err(ContractError::InvalidExpiryRange)
    } else {
        Ok(())
    }
}

impl Market {
    pub open spec fn wf(self) -> bool {
        &&& self.params.trading_fee_percent <= 100
        &&& keys_distinct(self.asks@, ask_key())
        &&& keys_distinct(self.bids@, bid_key())
        &&& keys_distinct(self.collection_bids@, collection_bid_key())
        &&& keys_distinct(self.auctions@, auction_key())
        &&& forall|i: int| 0 <= i < self.collection_bids@.len()
            ==> valid_collection_bid(#[trigger] self.collection_bids@[i])
    }

    pub open spec fn set_ask_check(self, info: MessageInfo, owner: String, now: u64, ask: Ask) -> Result<(), ContractError> {
        if paid_nothing(info.funds@) is Err {
            paid_nothing(info.funds@)
        } else if !expiry_in_range(self.params.ask_expiry, now, ask.expires_at) {
            Err(ContractError::InvalidExpiration)
        } else if price_result(ask.price, self.params) is Err {
            price_result(ask.price, self.params)
        } else if !owner_or_seller(self.asks@, info.sender@, owner@, ask.token_id@) {
            Err(ContractError::Unauthorized)
        } else {
            Ok(())
        }
    }

    /// Listing: the ask replaces a live one on the token in place, or is added
    /// and the token moves into custody.
    pub open spec fn set_ask_post(
        self,
        info: MessageInfo,
        owner: String,
        now: u64,
        ask: Ask,
        r: Result<Vec<Transfer>, ContractError>,
        post: Market,
    ) -> bool {
        match self.set_ask_check(info, owner, now, ask) {
            Err(e) => refused(r, e) && post == self,
            Ok(_) => {
                &&& post.params == self.params
                &&& post.bids@ == self.bids@
                &&& post.collection_bids@ == self.collection_bids@
                &&& post.auctions@ == self.auctions@
                &&& match index_where(self.asks@, ask_on(ask.token_id@)) {
                    Some(i) => post.asks@ == self.asks@.update(i, ask) && ok_with(r, seq![]),
                    None => post.asks@ == self.asks@.push(ask)
                        && ok_with(r, seq![Transfer::NftToContract { token_id: ask.token_id }]),
                }
            },
        }
    }

    pub open spec fn remove_ask_check(self, info: MessageInfo, token_id: String) -> Result<(), ContractError> {
        if paid_nothing(info.funds@) is Err {
            paid_nothing(info.funds@)
        } else {
            match index_where(self.asks@, ask_on(token_id@)) {
                None => Err(ContractError::AskNotFound),
                Some(i) => if self.asks@[i].seller@ != info.sender@ {
                    Err(ContractError::Unauthorized)
                } else {
                    Ok(())
                },
            }
        }
    }

    /// Delisting: the ask goes and the token returns to its seller.
    pub open spec fn remove_ask_post(
        self,
        info: MessageInfo,
        token_id: String,
        r: Result<Vec<Transfer>, ContractError>,
        post: Market,
    ) -> bool {
        match self.remove_ask_check(info, token_id) {
            Err(e) => refused(r, e) && post == self,
            Ok(_) => {
                let i = index_where(self.asks@, ask_on(token_id@))->Some_0;
                let ask = self.asks@[i];
                &&& post.params == self.params
                &&& post.asks@ == self.asks@.remove(i)
                &&& post.bids@ == self.bids@
                &&& post.collection_bids@ == self.collection_bids@
                &&& post.auctions@ == self.auctions@
                &&& ok_with(r, seq![Transfer::Nft { token_id: ask.token_id, recipient: ask.seller }])
            },
        }
    }
}

/// Sets up an empty marketplace, provided the fee is a percentage and each
/// expiry range is well ordered.
pub fn instantiate(params: Params) -> (r: Result<Market, ContractError>)
    ensures
        match params_result(params) {
            Err(e) => r == Err::<Market, ContractError>(e),
            Ok(_) => r matches Ok(m) && m.wf() && m.params == params && m.asks@.len() == 0
                && m.bids@.len() == 0 && m.collection_bids@.len() == 0 && m.auctions@.len() == 0,
        },
{
    if params.trading_fee_percent > 100 {
        return Err(ContractError::InvalidTradingFee(params.trading_fee_percent));
    }
    if params.ask_expiry.validate().is_err() || params.bid_expiry.validate().is_err()
        || params.auction_expiry.validate().is_err() {
        return Err(ContractError::InvalidExpiryRange);
    }
    Ok(Market {
        params,
        asks: Vec::new(),
        bids: Vec::new(),
        collection_bids: Vec::new(),
        auctions: Vec::new(),
    })
}

fn refuse_funds(funds: &Vec<Coin>) -> (r: Result<(), ContractError>)
    ensures
        r == paid_nothing(funds@),
{
    match nonpayable(funds) {
        Ok(()) => Ok(()),
        Err(e) => Err(ContractError::Payment(e)),
    }
}

fn is_owner_or_seller(asks: &Vec<Ask>, existing: Option<usize>, sender: &String, owner: &String, token_id: &String) -> (r: bool)
    requires
        crate::registry::as_int(existing) == index_where(asks@, ask_on(token_id@)),
        existing matches Some(i) ==> i < asks@.len(),
    ensures
        r == owner_or_seller(asks@, sender@, owner@, token_id@),
{
    if *sender == *owner {
        return true;
    }
    match existing {
        Some(i) => asks[i].seller == *sender,
        None => false,
    }
}

impl Market {
    /// Lists `ask` for sale: see `set_ask_post`. Once it succeeds the token has
    /// exactly one ask.
    pub fn execute_set_ask(&mut self, info: &MessageInfo, token_owner: &String, now: u64, ask: Ask) -> (r: Result<Vec<Transfer>, ContractError>)
        requires
            old(self).wf(),
        ensures
            final(self).wf(),
            old(self).set_ask_post(*info, *token_owner, now, ask, r, *final(self)),
            r is Ok ==> exactly_one_ask(final(self).asks@, ask.token_id@),
    {
        if let Err(e) = refuse_funds(&info.funds) {
            return Err(e);
        }
        if let Err(e) = self.params.ask_expiry.is_valid(now, ask.expires_at) {
            return Err(e);
        }
        if let Err(e) = price_validate(&ask.price, &self.params) {
            return Err(e);
        }
        let existing = find_ask(&self.asks, &ask.token_id);
        proof { lemma_found(self.asks@, ask_on(ask.token_id@)); }
        if !is_owner_or_seller(&self.asks, existing, &info.sender, token_owner, &ask.token_id) {
            return Err(ContractError::Unauthorized);
        }
        let ghost t = ask.token_id@;
        let ghost a = ask;
        match existing {
            Some(i) => {
                proof { lemma_distinct_update(self.asks@, ask_key(), i as int, ask); }
                self.asks.set(i, ask);
                proof { lemma_distinct_found(self.asks@, ask_key(), ask_on(t), t, i as int); }
                Ok(Vec::new())
            },
            None => {
                let mut out: Vec<Transfer> = Vec::new();
                out.push(Transfer::NftToContract { token_id: ask.token_id.clone() });
                proof { lemma_distinct_push(self.asks@, ask_key(), ask); }
                self.asks.push(ask);
                proof {
                    lemma_distinct_found(self.asks@, ask_key(), ask_on(t), t, self.asks@.len() - 1);
                    assert(out@ =~= seq![Transfer::NftToContract { token_id: a.token_id }]);
                }
                Ok(out)
            },
        }
    }

    /// Withdraws the listing of `token_id`: see `remove_ask_post`.
    pub fn execute_remove_ask(&mut self, info: &MessageInfo, token_id: &String) -> (r: Result<Vec<Transfer>, ContractError>)
        requires
            old(self).wf(),
        ensures
            final(self).wf(),
            old(self).remove_ask_post(*info, *token_id, r, *final(self)),
    {
        if let Err(e) = refuse_funds(&info.funds) {
            return Err(e);
        }
        let i = match find_ask(&self.asks, token_id) {
            Some(i) => i,
            None => return Err(ContractError::AskNotFound),
        };
        proof { lemma_found(self.asks@, ask_on(token_id@)); }
        if self.asks[i].seller != info.sender {
            return Err(ContractError::Unauthorized);
        }
        proof { lemma_distinct_remove(self.asks@, ask_key(), i as int); }
        let ask = self.asks.remove(i);
        let mut out: Vec<Transfer> = Vec::new();
        out.push(Transfer::Nft { token_id: ask.token_id, recipient: ask.seller });
        Ok(out)
    }
}

impl Market {
    pub open spec fn set_bid_check(self, info: MessageInfo, now: u64, bid: Bid) -> Result<(), ContractError> {
        match must_pay_result(info.funds@, self.params.denom@) {
            Err(e) => Err(ContractError::Payment(e)),
            Ok(paid) => if bid.price.amount != paid {
                Err(ContractError::IncorrectBidPayment(bid.price.amount, paid))
            } else if price_result(bid.price, self.params) is Err {
                price_result(bid.price, self.params)
            } else if !expiry_in_range(self.params.bid_expiry, now, bid.expires_at) {
                Err(ContractError::InvalidExpiration)
            } else {
                Ok(())
            },
        }
    }

    /// The bid of the same bidder on the same token that a new bid replaces.
    pub open spec fn prior_bid(self, bid: Bid) -> Option<int> {
        index_where(self.bids@, bid_of(bid.token_id@, bid.bidder@))
    }

    /// The bids left once the prior bid, if any, is withdrawn.
    pub open spec fn bids_without_prior(self, bid: Bid) -> Seq<Bid> {
        match self.prior_bid(bid) {
            Some(i) => self.bids@.remove(i),
            None => self.bids@,
        }
    }

    /// The refund of the prior bid's whole escrow to its bidder, if there is one.
    pub open spec fn prior_refund(self, bid: Bid) -> Seq<Transfer> {
        match self.prior_bid(bid) {
            Some(i) => seq![Transfer::Funds { recipient: self.bids@[i].bidder, coin: self.bids@[i].price }],
            None => seq![],
        }
    }

    /// Bidding: a prior bid of the bidder on the token is refunded; a live ask
    /// on the token is then sold to the bidder at the bid's price, or else the
    /// bid is stored.
    pub open spec fn set_bid_post(
        self,
        info: MessageInfo,
        now: u64,
        bid: Bid,
        r: Result<Vec<Transfer>, ContractError>,
        post: Market,
    ) -> bool {
        match self.set_bid_check(info, now, bid) {
            Err(e) => refused(r, e) && post == self,
            Ok(_) => {
                &&& post.params == self.params
                &&& post.collection_bids@ == self.collection_bids@
                &&& post.auctions@ == self.auctions@
                &&& match index_where(self.asks@, ask_on(bid.token_id@)) {
                    Some(k) => {
                        &&& post.asks@ == self.asks@.remove(k)
                        &&& post.bids@ == self.bids_without_prior(bid)
                        &&& ok_with(r, self.prior_refund(bid) + sale_transfers(
                            bid.bidder, bid.token_id, bid.price.amount, self.asks@[k].recipient(), self.params))
                    },
                    None => {
                        &&& post.asks@ == self.asks@
                        &&& post.bids@ == self.bids_without_prior(bid).push(bid)
                        &&& ok_with(r, self.prior_refund(bid))
                    },
                }
            },
        }
    }

    pub open spec fn remove_bid_check(self, info: MessageInfo, token_id: String) -> Result<(), ContractError> {
        if paid_nothing(info.funds@) is Err {
            paid_nothing(info.funds@)
        } else if index_where(self.bids@, bid_of(token_id@, info.sender@)) is None {
            Err(ContractError::BidNotFound)
        } else {
            Ok(())
        }
    }

    /// Withdrawing a bid: the caller's bid on the token goes, and its escrow
    /// returns to the caller.
    pub open spec fn remove_bid_post(
        self,
        info: MessageInfo,
        token_id: String,
        r: Result<Vec<Transfer>, ContractError>,
        post: Market,
    ) -> bool {
        match self.remove_bid_check(info, token_id) {
            Err(e) => refused(r, e) && post == self,
            Ok(_) => {
                let i = index_where(self.bids@, bid_of(token_id@, info.sender@))->Some_0;
                &&& post.params == self.params
                &&& post.asks@ == self.asks@
                &&& post.bids@ == self.bids@.remove(i)
                &&& post.collection_bids@ == self.collection_bids@
                &&& post.auctions@ == self.auctions@
                &&& ok_with(r, seq![Transfer::Funds { recipient: self.bids@[i].bidder, coin: self.bids@[i].price }])
            },
        }
    }

    pub open spec fn accept_bid_check(self, info: MessageInfo, owner: String, now: u64, token_id: String, bidder: String) -> Result<(), ContractError> {
        if paid_nothing(info.funds@) is Err {
            paid_nothing(info.funds@)
        } else {
            match index_where(self.bids@, bid_of(token_id@, bidder@)) {
                None => Err(ContractError::BidNotFound),
                Some(i) => if is_expired(self.bids@[i].expires_at, now) {
                    Err(ContractError::BidExpired)
                } else if !owner_or_seller(self.asks@, info.sender@, owner@, token_id@) {
                    Err(ContractError::Unauthorized)
                } else {
                    Ok(())
                },
            }
        }
    }

    /// Accepting a bid: the bid's escrow pays for the token, to the ask's
    /// recipient when the token is listed (the ask goes) or else to the caller.
    pub open spec fn accept_bid_post(
        self,
        info: MessageInfo,
        owner: String,
        now: u64,
        token_id: String,
        bidder: String,
        r: Result<Vec<Transfer>, ContractError>,
        post: Market,
    ) -> bool {
        match self.accept_bid_check(info, owner, now, token_id, bidder) {
            Err(e) => refused(r, e) && post == self,
            Ok(_) => {
                let i = index_where(self.bids@, bid_of(token_id@, bidder@))->Some_0;
                let bid = self.bids@[i];
                &&& post.params == self.params
                &&& post.asks@ == asks_after_sale(self.asks@, token_id@)
                &&& post.bids@ == self.bids@.remove(i)
                &&& post.collection_bids@ == self.collection_bids@
                &&& post.auctions@ == self.auctions@
                &&& ok_with(r, sale_transfers(bid.bidder, token_id, bid.price.amount,
                    payee(self.asks@, token_id@, info.sender), self.params))
            },
        }
    }

    /// Places `bid`, escrowing the funds sent with it: see `set_bid_post`.
    pub fn execute_set_bid(&mut self, info: &MessageInfo, now: u64, bid: Bid) -> (r: Result<Vec<Transfer>, ContractError>)
        requires
            old(self).wf(),
        ensures
            final(self).wf(),
            old(self).set_bid_post(*info, now, bid, r, *final(self)),
    {
        let paid = match must_pay(&info.funds, &self.params.denom) {
            Ok(a) => a,
            Err(e) => return Err(ContractError::Payment(e)),
        };
        if bid.price.amount != paid {
            return Err(ContractError::IncorrectBidPayment(bid.price.amount, paid));
        }
        if let Err(e) = price_validate(&bid.price, &self.params) {
            return Err(e);
        }
        if let Err(e) = self.params.bid_expiry.is_valid(now, bid.expires_at) {
            return Err(e);
        }
        let ghost pre = *self;
        let ghost b = bid;
        let mut out: Vec<Transfer> = Vec::new();
        proof { lemma_found(self.bids@, bid_of(bid.token_id@, bid.bidder@)); }
        match find_bid(&self.bids, &bid.token_id, &bid.bidder) {
            Some(i) => {
                proof {
                    lemma_distinct_remove(self.bids@, bid_key(), i as int);
                    lemma_distinct_key_gone(self.bids@, bid_key(), i as int);
                }
                let prior = self.bids.remove(i);
                out.push(Transfer::Funds { recipient: prior.bidder, coin: prior.price });
                assert(out@ =~= pre.prior_refund(b));
            },
            None => {
                assert(out@ =~= pre.prior_refund(b));
            },
        }
        assert(self.bids@ == pre.bids_without_prior(b));
        proof { lemma_found(self.asks@, ask_on(bid.token_id@)); }
        match find_ask(&self.asks, &bid.token_id) {
            Some(k) => {
                proof { lemma_distinct_remove(self.asks@, ask_key(), k as int); }
                let ask = self.asks.remove(k);
                let recipient = ask.get_recipient();
                finalize_sale(&bid.bidder, &bid.token_id, paid, &recipient, &self.params, &mut out);
            },
            None => {
                proof { lemma_distinct_push(self.bids@, bid_key(), bid); }
                self.bids.push(bid);
            },
        }
        Ok(out)
    }

    /// Withdraws the caller's bid on `token_id`: see `remove_bid_post`.
    pub fn execute_remove_bid(&mut self, info: &MessageInfo, token_id: &String) -> (r: Result<Vec<Transfer>, ContractError>)
        requires
            old(self).wf(),
        ensures
            final(self).wf(),
            old(self).remove_bid_post(*info, *token_id, r, *final(self)),
    {
        if let Err(e) = refuse_funds(&info.funds) {
            return Err(e);
        }
        let i = match find_bid(&self.bids, token_id, &info.sender) {
            Some(i) => i,
            None => return Err(ContractError::BidNotFound),
        };
        proof {
            lemma_found(self.bids@, bid_of(token_id@, info.sender@));
            lemma_distinct_remove(self.bids@, bid_key(), i as int);
        }
        let bid = self.bids.remove(i);
        let mut out: Vec<Transfer> = Vec::new();
        out.push(Transfer::Funds { recipient: bid.bidder, coin: bid.price });
        Ok(out)
    }

    /// Sells `token_id` to `bidder` for the escrow of their bid: see `accept_bid_post`.
    pub fn execute_accept_bid(
        &mut self,
        info: &MessageInfo,
        token_owner: &String,
        now: u64,
        token_id: &String,
        bidder: &String,
    ) -> (r: Result<Vec<Transfer>, ContractError>)
        requires
            old(self).wf(),
        ensures
            final(self).wf(),
            old(self).accept_bid_post(*info, *token_owner, now, *token_id, *bidder, r, *final(self)),
    {
        if let Err(e) = refuse_funds(&info.funds) {
            return Err(e);
        }
        let i = match find_bid(&self.bids, token_id, bidder) {
            Some(i) => i,
            None => return Err(ContractError::BidNotFound),
        };
        proof { lemma_found(self.bids@, bid_of(token_id@, bidder@)); }
        if self.bids[i].expires_at <= now {
            return Err(ContractError::BidExpired);
        }
        let existing = find_ask(&self.asks, token_id);
        proof { lemma_found(self.asks@, ask_on(token_id@)); }
        if !is_owner_or_seller(&self.asks, existing, &info.sender, token_owner, token_id) {
            return Err(ContractError::Unauthorized);
        }
        let recipient = match existing {
            Some(k) => {
                proof { lemma_distinct_remove(self.asks@, ask_key(), k as int); }
                let ask = self.asks.remove(k);
                ask.get_recipient()
            },
            None => info.sender.clone(),
        };
        proof { lemma_distinct_remove(self.bids@, bid_key(), i as int); }
        let bid = self.bids.remove(i);
        let mut out: Vec<Transfer> = Vec::new();
        finalize_sale(&bid.bidder, token_id, bid.price.amount, &recipient, &self.params, &mut out);
        assert(out@ =~= sale_transfers(bid.bidder, *token_id, bid.price.amount, recipient, self.params));
        Ok(out)
    }
}

/// The whole escrow of a collection bid, as one coin.
pub open spec fn escrow_of(b: CollectionBid) -> Coin {
    Coin { denom: b.price.denom, amount: b.total() as u128 }
}

/// A collection bid with one unit fewer.
pub open spec fn one_unit_less(b: CollectionBid) -> CollectionBid {
    CollectionBid { units: (b.units - 1) as u32, price: b.price, bidder: b.bidder, expires_at: b.expires_at }
}

impl Market {
    pub open spec fn set_collection_bid_check(self, info: MessageInfo, now: u64, cb: CollectionBid) -> Result<(), ContractError> {
        match must_pay_result(info.funds@, self.params.denom@) {
            Err(e) => Err(ContractError::Payment(e)),
            Ok(paid) => if cb.total() > u128::MAX {
                Err(ContractError::TotalCostOverflow)
            } else if price_result(escrow_of(cb), self.params) is Err {
                price_result(escrow_of(cb), self.params)
            } else if cb.total() != paid {
                Err(ContractError::IncorrectBidPayment(cb.total() as u128, paid))
            } else if !expiry_in_range(self.params.bid_expiry, now, cb.expires_at) {
                Err(ContractError::InvalidExpiration)
            } else {
                Ok(())
            },
        }
    }

    /// Placing a collection bid: a prior one of the bidder is refunded in full
    /// and replaced (units never merge).
    pub open spec fn set_collection_bid_post(
        self,
        info: MessageInfo,
        now: u64,
        cb: CollectionBid,
        r: Result<Vec<Transfer>, ContractError>,
        post: Market,
    ) -> bool {
        match self.set_collection_bid_check(info, now, cb) {
            Err(e) => refused(r, e) && post == self,
            Ok(_) => {
                &&& post.params == self.params
                &&& post.asks@ == self.asks@
                &&& post.bids@ == self.bids@
                &&& post.auctions@ == self.auctions@
                &&& match index_where(self.collection_bids@, collection_bid_of(cb.bidder@)) {
                    Some(j) => {
                        &&& post.collection_bids@ == self.collection_bids@.remove(j).push(cb)
                        &&& ok_with(r, seq![Transfer::Funds {
                            recipient: self.collection_bids@[j].bidder,
                            coin: escrow_of(self.collection_bids@[j]),
                        }])
                    },
                    None => post.collection_bids@ == self.collection_bids@.push(cb) && ok_with(r, seq![]),
                }
            },
        }
    }

    pub open spec fn remove_collection_bid_check(self, info: MessageInfo) -> Result<(), ContractError> {
        if paid_nothing(info.funds@) is Err {
            paid_nothing(info.funds@)
        } else if index_where(self.collection_bids@, collection_bid_of(info.sender@)) is None {
            Err(ContractError::CollectionBidNotFound)
        } else {
            Ok(())
        }
    }

    /// Withdrawing a collection bid refunds all of its remaining escrow.
    pub open spec fn remove_collection_bid_post(
        self,
        info: MessageInfo,
        r: Result<Vec<Transfer>, ContractError>,
        post: Market,
    ) -> bool {
        match self.remove_collection_bid_check(info) {
            Err(e) => refused(r, e) && post == self,
            Ok(_) => {
                let j = index_where(self.collection_bids@, collection_bid_of(info.sender@))->Some_0;
                let cb = self.collection_bids@[j];
                &&& post.params == self.params
                &&& post.asks@ == self.asks@
                &&& post.bids@ == self.bids@
                &&& post.collection_bids@ == self.collection_bids@.remove(j)
                &&& post.auctions@ == self.auctions@
                &&& ok_with(r, seq![Transfer::Funds { recipient: cb.bidder, coin: escrow_of(cb) }])
            },
        }
    }

    pub open spec fn accept_collection_bid_check(self, info: MessageInfo, owner: String, now: u64, token_id: String, bidder: String) -> Result<(), ContractError> {
        if paid_nothing(info.funds@) is Err {
            paid_nothing(info.funds@)
        } else {
            match index_where(self.collection_bids@, collection_bid_of(bidder@)) {
                None => Err(ContractError::CollectionBidNotFound),
                Some(j) => if is_expired(self.collection_bids@[j].expires_at, now) {
                    Err(ContractError::BidExpired)
                } else if !owner_or_seller(self.asks@, info.sender@, owner@, token_id@) {
                    Err(ContractError::Unauthorized)
                } else {
                    Ok(())
                },
            }
        }
    }

    /// Accepting a collection bid sells one token for one unit's price; the bid
    /// goes with its last unit, else keeps one unit fewer.
    pub open spec fn accept_collection_bid_post(
        self,
        info: MessageInfo,
        owner: String,
        now: u64,
        token_id: String,
        bidder: String,
        r: Result<Vec<Transfer>, ContractError>,
        post: Market,
    ) -> bool {
        match self.accept_collection_bid_check(info, owner, now, token_id, bidder) {
            Err(e) => refused(r, e) && post == self,
            Ok(_) => {
                let j = index_where(self.collection_bids@, collection_bid_of(bidder@))->Some_0;
                let cb = self.collection_bids@[j];
                &&& post.params == self.params
                &&& post.asks@ == asks_after_sale(self.asks@, token_id@)
                &&& post.bids@ == self.bids@
                &&& post.auctions@ == self.auctions@
                &&& post.collection_bids@ == if cb.units == 1 {
                    self.collection_bids@.remove(j)
                } else {
                    self.collection_bids@.update(j, one_unit_less(cb))
                }
                &&& ok_with(r, sale_transfers(cb.bidder, token_id, cb.price.amount,
                    payee(self.asks@, token_id@, info.sender), self.params))
            },
        }
    }

    /// Places a collection bid for `cb.units` tokens, escrowing their total
    /// price: see `set_collection_bid_post`.
    pub fn execute_set_collection_bid(&mut self, info: &MessageInfo, now: u64, cb: CollectionBid) -> (r: Result<Vec<Transfer>, ContractError>)
        requires
            old(self).wf(),
        ensures
            final(self).wf(),
            old(self).set_collection_bid_check(*info, now, cb) is Ok ==> cb.units >= 1,
            old(self).set_collection_bid_post(*info, now, cb, r, *final(self)),
    {
        let paid = match must_pay(&info.funds, &self.params.denom) {
            Ok(a) => a,
            Err(e) => return Err(ContractError::Payment(e)),
        };
        let total = match cb.price.amount.checked_mul(cb.units as u128) {
            Some(t) => t,
            None => return Err(ContractError::TotalCostOverflow),
        };
        let escrow = Coin { denom: cb.price.denom.clone(), amount: total };
        if let Err(e) = price_validate(&escrow, &self.params) {
            return Err(e);
        }
        if total != paid {
            return Err(ContractError::IncorrectBidPayment(total, paid));
        }
        if let Err(e) = self.params.bid_expiry.is_valid(now, cb.expires_at) {
            return Err(e);
        }
        assert(cb.units >= 1) by (nonlinear_arith)
            requires cb.price.amount * cb.units > 0;
        let ghost pre = *self;
        let mut out: Vec<Transfer> = Vec::new();
        proof { lemma_found(self.collection_bids@, collection_bid_of(cb.bidder@)); }
        match find_collection_bid(&self.collection_bids, &cb.bidder) {
            Some(j) => {
                proof {
                    lemma_distinct_remove(self.collection_bids@, collection_bid_key(), j as int);
                    lemma_distinct_key_gone(self.collection_bids@, collection_bid_key(), j as int);
                }
                let prior = self.collection_bids.remove(j);
                assert(valid_collection_bid(pre.collection_bids@[j as int]));
                let refund = prior.price.amount * (prior.units as u128);
                out.push(Transfer::Funds { recipient: prior.bidder, coin: Coin { denom: prior.price.denom, amount: refund } });
            },
            None => {},
        }
        proof { lemma_distinct_push(self.collection_bids@, collection_bid_key(), cb); }
        self.collection_bids.push(cb);
        Ok(out)
    }

    /// Withdraws the caller's collection bid: see `remove_collection_bid_post`.
    pub fn execute_remove_collection_bid(&mut self, info: &MessageInfo) -> (r: Result<Vec<Transfer>, ContractError>)
        requires
            old(self).wf(),
        ensures
            final(self).wf(),
            old(self).remove_collection_bid_post(*info, r, *final(self)),
    {
        if let Err(e) = refuse_funds(&info.funds) {
            return Err(e);
        }
        let j = match find_collection_bid(&self.collection_bids, &info.sender) {
            Some(j) => j,
            None => return Err(ContractError::CollectionBidNotFound),
        };
        proof {
            lemma_found(self.collection_bids@, collection_bid_of(info.sender@));
            lemma_distinct_remove(self.collection_bids@, collection_bid_key(), j as int);
        }
        assert(valid_collection_bid(self.collection_bids@[j as int]));
        let cb = self.collection_bids.remove(j);
        let refund = cb.price.amount * (cb.units as u128);
        let mut out: Vec<Transfer> = Vec::new();
        out.push(Transfer::Funds { recipient: cb.bidder, coin: Coin { denom: cb.price.denom, amount: refund } });
        Ok(out)
    }

    /// Sells `token_id` to `bidder` for one unit of their collection bid: see
    /// `accept_collection_bid_post`.
    pub fn execute_accept_collection_bid(
        &mut self,
        info: &MessageInfo,
        token_owner: &String,
        now: u64,
        token_id: &String,
        bidder: &String,
    ) -> (r: Result<Vec<Transfer>, ContractError>)
        requires
            old(self).wf(),
        ensures
            final(self).wf(),
            old(self).accept_collection_bid_post(*info, *token_owner, now, *token_id, *bidder, r, *final(self)),
    {
        if let Err(e) = refuse_funds(&info.funds) {
            return Err(e);
        }
        let j = match find_collection_bid(&self.collection_bids, bidder) {
            Some(j) => j,
            None => return Err(ContractError::CollectionBidNotFound),
        };
        proof { lemma_found(self.collection_bids@, collection_bid_of(bidder@)); }
        if self.collection_bids[j].expires_at <= now {
            return Err(ContractError::BidExpired);
        }
        let existing = find_ask(&self.asks, token_id);
        proof { lemma_found(self.asks@, ask_on(token_id@)); }
        if !is_owner_or_seller(&self.asks, existing, &info.sender, token_owner, token_id) {
            return Err(ContractError::Unauthorized);
        }
        let recipient = match existing {
            Some(k) => {
                proof { lemma_distinct_remove(self.asks@, ask_key(), k as int); }
                let ask = self.asks.remove(k);
                ask.get_recipient()
            },
            None => info.sender.clone(),
        };
        let ghost before = self.collection_bids@;
        assert(valid_collection_bid(before[j as int]));
        proof { lemma_distinct_remove(before, collection_bid_key(), j as int); }
        let mut cb = self.collection_bids.remove(j);
        let mut out: Vec<Transfer> = Vec::new();
        finalize_sale(&cb.bidder, token_id, cb.price.amount, &recipient, &self.params, &mut out);
        if cb.units != 1 {
            cb.units = cb.units - 1;
            assert(cb.total() <= before[j as int].total()) by (nonlinear_arith)
                requires cb.units + 1 == before[j as int].units, cb.price.amount == before[j as int].price.amount;
            proof { lemma_distinct_update(before, collection_bid_key(), j as int, cb); }
            self.collection_bids.insert(j, cb);
            assert(self.collection_bids@ =~= before.update(j as int, cb));
        }
        Ok(out)
    }
}

/// Whether the highest live bid on the auctioned token meets its reserve.
pub open spec fn reserve_met(bids: Seq<Bid>, a: Auction, now: u64) -> bool {
    match (top_bid(bids, a.token_id@, now), a.reserve_price) {
        (Some(b), Some(rp)) => bids[b].price.amount >= rp.amount,
        _ => false,
    }
}

impl Market {
    pub open spec fn set_auction_check(self, info: MessageInfo, owner: String, now: u64, auction: Auction) -> Result<(), ContractError> {
        if paid_nothing(info.funds@) is Err {
            paid_nothing(info.funds@)
        } else if !expiry_in_range(self.params.auction_expiry, now, auction.expires_at) {
            Err(ContractError::InvalidExpiration)
        } else if info.sender@ != owner@ {
            Err(ContractError::Unauthorized)
        } else if price_result(auction.starting_price, self.params) is Err {
            price_result(auction.starting_price, self.params)
        } else if auction.reserve_price is Some && price_result(auction.reserve_price->Some_0, self.params) is Err {
            price_result(auction.reserve_price->Some_0, self.params)
        } else if auction.reserve_price is Some
            && auction.reserve_price->Some_0.amount < auction.starting_price.amount {
            Err(ContractError::InvalidReservePrice(
                auction.reserve_price->Some_0.amount,
                auction.starting_price.amount,
            ))
        } else if index_where(self.auctions@, auction_on(auction.token_id@)) is Some {
            Err(ContractError::AuctionAlreadyExists)
        } else {
            Ok(())
        }
    }

    /// Opening an auction stores it and moves the token into custody.
    pub open spec fn set_auction_post(
        self,
        info: MessageInfo,
        owner: String,
        now: u64,
        auction: Auction,
        r: Result<Vec<Transfer>, ContractError>,
        post: Market,
    ) -> bool {
        match self.set_auction_check(info, owner, now, auction) {
            Err(e) => refused(r, e) && post == self,
            Ok(_) => {
                &&& post.params == self.params
                &&& post.asks@ == self.asks@
                &&& post.bids@ == self.bids@
                &&& post.collection_bids@ == self.collection_bids@
                &&& post.auctions@ == self.auctions@.push(auction)
                &&& ok_with(r, seq![Transfer::NftToContract { token_id: auction.token_id }])
            },
        }
    }

    pub open spec fn close_auction_check(self, info: MessageInfo, now: u64, token_id: String, accept: bool) -> Result<(), ContractError> {
        if paid_nothing(info.funds@) is Err {
            paid_nothing(info.funds@)
        } else {
            match index_where(self.auctions@, auction_on(token_id@)) {
                None => Err(ContractError::AuctionNotFound),
                Some(a) => if self.auctions@[a].seller@ != info.sender@ {
                    Err(ContractError::Unauthorized)
                } else if is_expired(self.auctions@[a].expires_at, now) {
                    Err(ContractError::AuctionExpired)
                } else if reserve_met(self.bids@, self.auctions@[a], now) && !accept {
                    Err(ContractError::ReservePriceRestriction)
                } else {
                    Ok(())
                },
            }
        }
    }

    /// Closing an auction ends it: when accepting and a live bid exists the
    /// highest one buys the token (its record goes with its escrow); otherwise
    /// the token returns to the seller and every bid stays as it is.
    pub open spec fn close_auction_post(
        self,
        info: MessageInfo,
        now: u64,
        token_id: String,
        accept: bool,
        r: Result<Vec<Transfer>, ContractError>,
        post: Market,
    ) -> bool {
        match self.close_auction_check(info, now, token_id, accept) {
            Err(e) => refused(r, e) && post == self,
            Ok(_) => {
                let a = index_where(self.auctions@, auction_on(token_id@))->Some_0;
                let auction = self.auctions@[a];
                &&& post.params == self.params
                &&& post.asks@ == self.asks@
                &&& post.collection_bids@ == self.collection_bids@
                &&& post.auctions@ == self.auctions@.remove(a)
                &&& if accept && top_bid(self.bids@, token_id@, now) is Some {
                    let b = top_bid(self.bids@, token_id@, now)->Some_0;
                    &&& post.bids@ == self.bids@.remove(b)
                    &&& ok_with(r, sale_transfers(self.bids@[b].bidder, auction.token_id,
                        self.bids@[b].price.amount, auction.recipient(), self.params))
                } else {
                    &&& post.bids@ == self.bids@
                    &&& ok_with(r, seq![Transfer::Nft { token_id: auction.token_id, recipient: auction.seller }])
                }
            },
        }
    }

    /// Opens `auction` on a token the caller owns: see `set_auction_post`.
    pub fn execute_set_auction(&mut self, info: &MessageInfo, token_owner: &String, now: u64, auction: Auction) -> (r: Result<Vec<Transfer>, ContractError>)
        requires
            old(self).wf(),
        ensures
            final(self).wf(),
            old(self).set_auction_post(*info, *token_owner, now, auction, r, *final(self)),
    {
        if let Err(e) = refuse_funds(&info.funds) {
            return Err(e);
        }
        if let Err(e) = self.params.auction_expiry.is_valid(now, auction.expires_at) {
            return Err(e);
        }
        if info.sender != *token_owner {
            return Err(ContractError::Unauthorized);
        }
        if let Err(e) = price_validate(&auction.starting_price, &self.params) {
            return Err(e);
        }
        if let Some(rp) = &auction.reserve_price {
            if let Err(e) = price_validate(rp, &self.params) {
                return Err(e);
            }
            if rp.amount < auction.starting_price.amount {
                return Err(ContractError::InvalidReservePrice(rp.amount, auction.starting_price.amount));
            }
        }
        proof { lemma_found(self.auctions@, auction_on(auction.token_id@)); }
        if find_auction(&self.auctions, &auction.token_id).is_some() {
            return Err(ContractError::AuctionAlreadyExists);
        }
        let mut out: Vec<Transfer> = Vec::new();
        out.push(Transfer::NftToContract { token_id: auction.token_id.clone() });
        proof { lemma_distinct_push(self.auctions@, auction_key(), auction); }
        self.auctions.push(auction);
        Ok(out)
    }

    /// Ends the auction of `token_id`, selling to the highest live bid when
    /// `accept_highest_bid` holds: see `close_auction_post`.
    pub fn execute_close_auction(&mut self, info: &MessageInfo, now: u64, token_id: &String, accept_highest_bid: bool) -> (r: Result<Vec<Transfer>, ContractError>)
        requires
            old(self).wf(),
        ensures
            final(self).wf(),
            old(self).close_auction_post(*info, now, *token_id, accept_highest_bid, r, *final(self)),
    {
        if let Err(e) = refuse_funds(&info.funds) {
            return Err(e);
        }
        let a = match find_auction(&self.auctions, token_id) {
            Some(a) => a,
            None => return Err(ContractError::AuctionNotFound),
        };
        proof { lemma_found(self.auctions@, auction_on(token_id@)); }
        if self.auctions[a].seller != info.sender {
            return Err(ContractError::Unauthorized);
        }
        if self.auctions[a].expires_at <= now {
            return Err(ContractError::AuctionExpired);
        }
        let top = highest_bid(&self.bids, token_id, now);
        let met = match (top, &self.auctions[a].reserve_price) {
            (Some(b), Some(rp)) => self.bids[b].price.amount >= rp.amount,
            _ => false,
        };
        if met && !accept_highest_bid {
            return Err(ContractError::ReservePriceRestriction);
        }
        proof { lemma_distinct_remove(self.auctions@, auction_key(), a as int); }
        let auction = self.auctions.remove(a);
        let mut out: Vec<Transfer> = Vec::new();
        if accept_highest_bid && top.is_some() {
            let b = top.unwrap();
            proof { lemma_distinct_remove(self.bids@, bid_key(), b as int); }
            let bid = self.bids.remove(b);
            let recipient = auction.get_recipient();
            finalize_sale(&bid.bidder, &auction.token_id, bid.price.amount, &recipient, &self.params, &mut out);
            assert(out@ =~= sale_transfers(bid.bidder, auction.token_id, bid.price.amount, recipient, self.params));
        } else {
            out.push(Transfer::Nft { token_id: auction.token_id, recipient: auction.seller });
        }
        Ok(out)
    }
}

/// The eleven operations of the marketplace, as a caller sends them.
pub enum ExecuteMsg {
    UpdateParams {
        trading_fee_percent: Option<u64>,
        ask_expiry: Option<ExpiryRange>,
        bid_expiry: Option<ExpiryRange>,
        auction_expiry: Option<ExpiryRange>,
        operators: Option<Vec<String>>,
        min_price: Option<u128>,
    },
    SetAsk {
        token_id: String,
        price: Coin,
        funds_recipient: Option<String>,
        reserve_for: Option<String>,
        expires_at: u64,
    },
    RemoveAsk { token_id: String },
    SetBid { token_id: String, price: Coin, expires_at: u64 },
    RemoveBid { token_id: String },
    AcceptBid { token_id: String, bidder: String },
    SetCollectionBid { units: u32, price: Coin, expires_at: u64 },
    RemoveCollectionBid,
    AcceptCollectionBid { token_id: String, bidder: String },
    SetAuction {
        token_id: String,
        starting_price: Coin,
        reserve_price: Option<Coin>,
        funds_recipient: Option<String>,
        expires_at: u64,
    },
    CloseAuction { token_id: String, accept_highest_bid: bool },
}

pub open spec fn range_ok(r: Option<ExpiryRange>) -> bool {
    match r {
        Some(r) => r.min <= r.max,
        None => true,
    }
}

pub open spec fn or_keep<T>(new: Option<T>, old: T) -> T {
    match new {
        Some(v) => v,
        None => old,
    }
}

impl Market {
    /// What running `msg` does: the effect of the operation it names, with the
    /// caller as seller or bidder.
    pub open spec fn execute_post(
        self,
        info: MessageInfo,
        owner: String,
        now: u64,
        msg: ExecuteMsg,
        r: Result<Vec<Transfer>, ContractError>,
        post: Market,
    ) -> bool {
        match msg {
            ExecuteMsg::UpdateParams { trading_fee_percent, ask_expiry, bid_expiry, auction_expiry, operators, min_price } =>
                self.update_params_post(info, trading_fee_percent, ask_expiry, bid_expiry,
                    auction_expiry, operators, min_price, r, post),
            ExecuteMsg::SetAsk { token_id, price, funds_recipient, reserve_for, expires_at } =>
                self.set_ask_post(info, owner, now, (Ask {
                    token_id, seller: info.sender, price, funds_recipient, reserve_for, expires_at,
                }), r, post),
            ExecuteMsg::RemoveAsk { token_id } => self.remove_ask_post(info, token_id, r, post),
            ExecuteMsg::SetBid { token_id, price, expires_at } =>
                self.set_bid_post(info, now, (Bid { token_id, bidder: info.sender, price, expires_at }), r, post),
            ExecuteMsg::RemoveBid { token_id } => self.remove_bid_post(info, token_id, r, post),
            ExecuteMsg::AcceptBid { token_id, bidder } =>
                self.accept_bid_post(info, owner, now, token_id, bidder, r, post),
            ExecuteMsg::SetCollectionBid { units, price, expires_at } =>
                self.set_collection_bid_post(info, now, (CollectionBid { units, price, bidder: info.sender, expires_at }), r, post),
            ExecuteMsg::RemoveCollectionBid => self.remove_collection_bid_post(info, r, post),
            ExecuteMsg::AcceptCollectionBid { token_id, bidder } =>
                self.accept_collection_bid_post(info, owner, now, token_id, bidder, r, post),
            ExecuteMsg::SetAuction { token_id, starting_price, reserve_price, funds_recipient, expires_at } =>
                self.set_auction_post(info, owner, now, (Auction {
                    token_id, seller: info.sender, starting_price, reserve_price, funds_recipient, expires_at,
                }), r, post),
            ExecuteMsg::CloseAuction { token_id, accept_highest_bid } =>
                self.close_auction_post(info, now, token_id, accept_highest_bid, r, post),
        }
    }
}

impl Market {
    pub open spec fn update_params_check(
        self,
        info: MessageInfo,
        trading_fee_percent: Option<u64>,
        ask_expiry: Option<ExpiryRange>,
        bid_expiry: Option<ExpiryRange>,
        auction_expiry: Option<ExpiryRange>,
    ) -> Result<(), ContractError> {
        if !is_operator(self.params, info.sender@) {
            Err(ContractError::Unauthorized)
        } else if trading_fee_percent matches Some(f) && f > 100 {
            Err(ContractError::InvalidTradingFee(trading_fee_percent->Some_0))
        } else if !range_ok(ask_expiry) || !range_ok(bid_expiry) || !range_ok(auction_expiry) {
            Err(ContractError::InvalidExpiryRange)
        } else {
            Ok(())
        }
    }

    /// An operator replaces each parameter that is given, and nothing else.
    pub open spec fn update_params_post(
        self,
        info: MessageInfo,
        trading_fee_percent: Option<u64>,
        ask_expiry: Option<ExpiryRange>,
        bid_expiry: Option<ExpiryRange>,
        auction_expiry: Option<ExpiryRange>,
        operators: Option<Vec<String>>,
        min_price: Option<u128>,
        r: Result<Vec<Transfer>, ContractError>,
        post: Market,
    ) -> bool {
        match self.update_params_check(info, trading_fee_percent, ask_expiry, bid_expiry, auction_expiry) {
            Err(e) => refused(r, e) && post == self,
            Ok(_) => {
                &&& post.params.cw721_address == self.params.cw721_address
                &&& post.params.denom == self.params.denom
                &&& post.params.collector_address == self.params.collector_address
                &&& post.params.trading_fee_percent == or_keep(trading_fee_percent, self.params.trading_fee_percent)
                &&& post.params.ask_expiry == or_keep(ask_expiry, self.params.ask_expiry)
                &&& post.params.bid_expiry == or_keep(bid_expiry, self.params.bid_expiry)
                &&& post.params.auction_expiry == or_keep(auction_expiry, self.params.auction_expiry)
                &&& post.params.operators@ == or_keep(operators, self.params.operators)@
                &&& post.params.min_price == or_keep(min_price, self.params.min_price)
                &&& post.asks@ == self.asks@
                &&& post.bids@ == self.bids@
                &&& post.collection_bids@ == self.collection_bids@
                &&& post.auctions@ == self.auctions@
                &&& ok_with(r, seq![])
            },
        }
    }

    /// Lets an operator change the marketplace's parameters: see `update_params_post`.
    pub fn execute_update_params(
        &mut self,
        info: &MessageInfo,
        trading_fee_percent: Option<u64>,
        ask_expiry: Option<ExpiryRange>,
        bid_expiry: Option<ExpiryRange>,
        auction_expiry: Option<ExpiryRange>,
        operators: Option<Vec<String>>,
        min_price: Option<u128>,
    ) -> (r: Result<Vec<Transfer>, ContractError>)
        requires
            old(self).wf(),
        ensures
            final(self).wf(),
            old(self).update_params_post(*info, trading_fee_percent, ask_expiry, bid_expiry,
                auction_expiry, operators, min_price, r, *final(self)),
    {
        if let Err(e) = only_operator(&info.sender, &self.params) {
            return Err(e);
        }
        if let Some(f) = trading_fee_percent {
            if f > 100 {
                return Err(ContractError::InvalidTradingFee(f));
            }
        }
        if let Some(range) = ask_expiry {
            if let Err(e) = range.validate() {
                return Err(e);
            }
        }
        if let Some(range) = bid_expiry {
            if let Err(e) = range.validate() {
                return Err(e);
            }
        }
        if let Some(range) = auction_expiry {
            if let Err(e) = range.validate() {
                return Err(e);
            }
        }
        if let Some(f) = trading_fee_percent {
            self.params.trading_fee_percent = f;
        }
        if let Some(range) = ask_expiry {
            self.params.ask_expiry = range;
        }
        if let Some(range) = bid_expiry {
            self.params.bid_expiry = range;
        }
        if let Some(range) = auction_expiry {
            self.params.auction_expiry = range;
        }
        if let Some(ops) = operators {
            self.params.operators = ops;
        }
        if let Some(p) = min_price {
            self.params.min_price = p;
        }
        Ok(Vec::new())
    }

    /// Runs one operation for the caller `info`. `token_owner` is the current
    /// owner of the token the operation names, as the token ledger reports it,
    /// and `now` the time of the call in seconds.
    pub fn execute(&mut self, info: &MessageInfo, token_owner: &String, now: u64, msg: ExecuteMsg) -> (r: Result<Vec<Transfer>, ContractError>)
        requires
            old(self).wf(),
        ensures
            final(self).wf(),
            old(self).execute_post(*info, *token_owner, now, msg, r, *final(self)),
    {
        match msg {
            ExecuteMsg::UpdateParams { trading_fee_percent, ask_expiry, bid_expiry, auction_expiry, operators, min_price } =>
                self.execute_update_params(info, trading_fee_percent, ask_expiry, bid_expiry, auction_expiry, operators, min_price),
            ExecuteMsg::SetAsk { token_id, price, funds_recipient, reserve_for, expires_at } => {
                let ask = Ask { token_id, seller: info.sender.clone(), price, funds_recipient, reserve_for, expires_at };
                self.execute_set_ask(info, token_owner, now, ask)
            },
            ExecuteMsg::RemoveAsk { token_id } => self.execute_remove_ask(info, &token_id),
            ExecuteMsg::SetBid { token_id, price, expires_at } => {
                let bid = Bid { token_id, bidder: info.sender.clone(), price, expires_at };
                self.execute_set_bid(info, now, bid)
            },
            ExecuteMsg::RemoveBid { token_id } => self.execute_remove_bid(info, &token_id),
            ExecuteMsg::AcceptBid { token_id, bidder } =>
                self.execute_accept_bid(info, token_owner, now, &token_id, &bidder),
            ExecuteMsg::SetCollectionBid { units, price, expires_at } => {
                let cb = CollectionBid { units, price, bidder: info.sender.clone(), expires_at };
                self.execute_set_collection_bid(info, now, cb)
            },
            ExecuteMsg::RemoveCollectionBid => self.execute_remove_collection_bid(info),
            ExecuteMsg::AcceptCollectionBid { token_id, bidder } =>
                self.execute_accept_collection_bid(info, token_owner, now, &token_id, &bidder),
            ExecuteMsg::SetAuction { token_id, starting_price, reserve_price, funds_recipient, expires_at } => {
                let auction = Auction {
                    token_id,
                    seller: info.sender.clone(),
                    starting_price,
                    reserve_price,
                    funds_recipient,
                    expires_at,
                };
                self.execute_set_auction(info, token_owner, now, auction)
            },
            ExecuteMsg::CloseAuction { token_id, accept_highest_bid } =>
                self.execute_close_auction(info, now, &token_id, accept_highest_bid),
        }
    }
}

} // verus!
