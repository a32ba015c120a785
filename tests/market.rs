use marketplace::execute::{instantiate, ExecuteMsg, Market};
use marketplace::state::{
    Ask, Auction, Bid, Coin, CollectionBid, ContractError, ExpiryRange, MessageInfo, Params,
    PaymentError, Transfer,
};

const DENOM: &str = "ujuno";
const NOW: u64 = 1_000;
const EXPIRES: u64 = 1_100;

fn coin(amount: u128, denom: &str) -> Coin {
    Coin { denom: denom.to_string(), amount }
}

fn params() -> Params {
    Params {
        cw721_address: "collection".to_string(),
        denom: DENOM.to_string(),
        collector_address: "collector".to_string(),
        trading_fee_percent: 2,
        ask_expiry: ExpiryRange { min: 10, max: 1_000 },
        bid_expiry: ExpiryRange { min: 10, max: 1_000 },
        auction_expiry: ExpiryRange { min: 10, max: 1_000 },
        operators: vec!["operator".to_string()],
        min_price: 10,
    }
}

fn market() -> Market {
    instantiate(params()).unwrap()
}

fn info(sender: &str, funds: Vec<Coin>) -> MessageInfo {
    MessageInfo { sender: sender.to_string(), funds }
}

fn ask(token: &str, seller: &str, price: u128) -> Ask {
    Ask {
        token_id: token.to_string(),
        seller: seller.to_string(),
        price: coin(price, DENOM),
        funds_recipient: None,
        reserve_for: None,
        expires_at: EXPIRES,
    }
}

fn bid(token: &str, bidder: &str, price: u128) -> Bid {
    Bid { token_id: token.to_string(), bidder: bidder.to_string(), price: coin(price, DENOM), expires_at: EXPIRES }
}

fn place_bid(m: &mut Market, token: &str, bidder: &str, price: u128) -> Result<Vec<Transfer>, ContractError> {
    m.execute_set_bid(&info(bidder, vec![coin(price, DENOM)]), NOW, bid(token, bidder, price))
}

fn funds(to: &str, amount: u128) -> Transfer {
    Transfer::Funds { recipient: to.to_string(), coin: coin(amount, DENOM) }
}

fn nft(token: &str, to: &str) -> Transfer {
    Transfer::Nft { token_id: token.to_string(), recipient: to.to_string() }
}

fn auction(token: &str, seller: &str, start: u128, reserve: Option<u128>) -> Auction {
    Auction {
        token_id: token.to_string(),
        seller: seller.to_string(),
        starting_price: coin(start, DENOM),
        reserve_price: reserve.map(|r| coin(r, DENOM)),
        funds_recipient: None,
        expires_at: EXPIRES,
    }
}

#[test]
fn set_ask_moves_token_only_on_first_listing() {
    let mut m = market();
    let r = m.execute_set_ask(&info("seller", vec![]), &"seller".to_string(), NOW, ask("1", "seller", 100));
    assert_eq!(r.unwrap(), vec![Transfer::NftToContract { token_id: "1".to_string() }]);
    // the contract now holds the token; its seller may re-list it
    let r = m.execute_set_ask(&info("seller", vec![]), &"contract".to_string(), NOW, ask("1", "seller", 120));
    assert_eq!(r.unwrap(), vec![]);
    assert_eq!(m.asks.len(), 1);
    assert_eq!(m.asks[0].price.amount, 120);
}

#[test]
fn set_ask_by_stranger_is_unauthorized() {
    let mut m = market();
    m.execute_set_ask(&info("seller", vec![]), &"seller".to_string(), NOW, ask("1", "seller", 100)).unwrap();
    let r = m.execute_set_ask(&info("mallory", vec![]), &"contract".to_string(), NOW, ask("1", "mallory", 100));
    assert_eq!(r, Err(ContractError::Unauthorized));
    assert_eq!(m.asks[0].seller, "seller");
}

#[test]
fn set_ask_with_funds_is_refused() {
    let mut m = market();
    let r = m.execute_set_ask(&info("seller", vec![coin(5, DENOM)]), &"seller".to_string(), NOW, ask("1", "seller", 100));
    assert_eq!(r, Err(ContractError::Payment(PaymentError::NonPayable)));
    assert!(m.asks.is_empty());
}

#[test]
fn set_ask_validates_price_and_expiry() {
    let mut m = market();
    let owner = "seller".to_string();
    let r = m.execute_set_ask(&info("seller", vec![]), &owner, NOW, ask("1", "seller", 9));
    assert_eq!(r, Err(ContractError::PriceTooSmall(10)));
    let mut other = ask("1", "seller", 100);
    other.price = coin(100, "uatom");
    assert_eq!(m.execute_set_ask(&info("seller", vec![]), &owner, NOW, other), Err(ContractError::InvalidDenom));
    let mut late = ask("1", "seller", 100);
    late.expires_at = NOW + 1_001;
    assert_eq!(m.execute_set_ask(&info("seller", vec![]), &owner, NOW, late), Err(ContractError::InvalidExpiration));
    let mut soon = ask("1", "seller", 100);
    soon.expires_at = NOW + 9;
    assert_eq!(m.execute_set_ask(&info("seller", vec![]), &owner, NOW, soon), Err(ContractError::InvalidExpiration));
    assert!(m.asks.is_empty());
}

#[test]
fn remove_ask_returns_token() {
    let mut m = market();
    m.execute_set_ask(&info("seller", vec![]), &"seller".to_string(), NOW, ask("1", "seller", 100)).unwrap();
    assert_eq!(m.execute_remove_ask(&info("other", vec![]), &"1".to_string()), Err(ContractError::Unauthorized));
    let r = m.execute_remove_ask(&info("seller", vec![]), &"1".to_string());
    assert_eq!(r.unwrap(), vec![nft("1", "seller")]);
    assert!(m.asks.is_empty());
    assert_eq!(m.execute_remove_ask(&info("seller", vec![]), &"1".to_string()), Err(ContractError::AskNotFound));
}

#[test]
fn ask_then_bid_settles_at_once() {
    let mut m = market();
    m.execute_set_ask(&info("seller", vec![]), &"seller".to_string(), NOW, ask("1", "seller", 100)).unwrap();
    let r = place_bid(&mut m, "1", "buyer", 100).unwrap();
    assert_eq!(r, vec![nft("1", "buyer"), funds("collector", 2), funds("seller", 98)]);
    assert!(m.asks.is_empty());
    assert!(m.bids.is_empty());
}

#[test]
fn bid_without_ask_is_stored() {
    let mut m = market();
    assert_eq!(place_bid(&mut m, "1", "buyer", 100).unwrap(), vec![]);
    assert_eq!(m.bids.len(), 1);
    assert_eq!(m.bids[0].price.amount, 100);
}

#[test]
fn replacing_bid_refunds_prior_escrow() {
    let mut m = market();
    place_bid(&mut m, "1", "buyer", 100).unwrap();
    let r = place_bid(&mut m, "1", "buyer", 150).unwrap();
    // paid 150, got 100 back: a net change of 100 - 150
    assert_eq!(r, vec![funds("buyer", 100)]);
    assert_eq!(m.bids.len(), 1);
    assert_eq!(m.bids[0].price.amount, 150);
}

#[test]
fn bid_then_remove_restores_balance() {
    let mut m = market();
    place_bid(&mut m, "1", "buyer", 100).unwrap();
    let r = m.execute_remove_bid(&info("buyer", vec![]), &"1".to_string()).unwrap();
    assert_eq!(r, vec![funds("buyer", 100)]);
    assert!(m.bids.is_empty());
    assert_eq!(m.execute_remove_bid(&info("buyer", vec![]), &"1".to_string()), Err(ContractError::BidNotFound));
}

#[test]
fn bid_with_wrong_payment_fails() {
    let mut m = market();
    m.execute_set_ask(&info("seller", vec![]), &"seller".to_string(), NOW, ask("1", "seller", 100)).unwrap();
    let r = m.execute_set_bid(&info("buyer", vec![coin(90, DENOM)]), NOW, bid("1", "buyer", 100));
    assert_eq!(r, Err(ContractError::IncorrectBidPayment(100, 90)));
    assert_eq!(m.asks.len(), 1);
    assert!(m.bids.is_empty());
}

#[test]
fn bid_payment_errors() {
    let mut m = market();
    let b = bid("1", "buyer", 100);
    assert_eq!(
        m.execute_set_bid(&info("buyer", vec![]), NOW, b.clone()),
        Err(ContractError::Payment(PaymentError::NoFunds))
    );
    assert_eq!(
        m.execute_set_bid(&info("buyer", vec![coin(0, DENOM)]), NOW, b.clone()),
        Err(ContractError::Payment(PaymentError::NoFunds))
    );
    assert_eq!(
        m.execute_set_bid(&info("buyer", vec![coin(50, DENOM), coin(50, "uatom")]), NOW, b.clone()),
        Err(ContractError::Payment(PaymentError::MultipleDenoms))
    );
    assert_eq!(
        m.execute_set_bid(&info("buyer", vec![coin(100, "uatom")]), NOW, b),
        Err(ContractError::Payment(PaymentError::MissingDenom))
    );
    assert!(m.bids.is_empty());
}

#[test]
fn accept_bid_without_ask_pays_owner() {
    let mut m = market();
    place_bid(&mut m, "1", "buyer", 149).unwrap();
    let owner = "owner".to_string();
    assert_eq!(
        m.execute_accept_bid(&info("other", vec![]), &owner, NOW, &"1".to_string(), &"buyer".to_string()),
        Err(ContractError::Unauthorized)
    );
    let r = m.execute_accept_bid(&info("owner", vec![]), &owner, NOW, &"1".to_string(), &"buyer".to_string());
    // 2% of 149 rounds down to 2
    assert_eq!(r.unwrap(), vec![nft("1", "buyer"), funds("collector", 2), funds("owner", 147)]);
    assert!(m.bids.is_empty());
}

#[test]
fn accept_bid_on_listed_token_pays_ask_recipient() {
    let mut m = market();
    place_bid(&mut m, "1", "buyer", 50).unwrap();
    let mut a = ask("1", "seller", 100);
    a.funds_recipient = Some("treasury".to_string());
    m.execute_set_ask(&info("seller", vec![]), &"seller".to_string(), NOW, a).unwrap();
    let r = m.execute_accept_bid(&info("seller", vec![]), &"contract".to_string(), NOW, &"1".to_string(), &"buyer".to_string());
    assert_eq!(r.unwrap(), vec![nft("1", "buyer"), funds("collector", 1), funds("treasury", 49)]);
    assert!(m.asks.is_empty());
    assert!(m.bids.is_empty());
}

#[test]
fn accept_expired_bid_fails() {
    let mut m = market();
    place_bid(&mut m, "1", "buyer", 100).unwrap();
    let r = m.execute_accept_bid(&info("owner", vec![]), &"owner".to_string(), EXPIRES, &"1".to_string(), &"buyer".to_string());
    assert_eq!(r, Err(ContractError::BidExpired));
    assert_eq!(m.bids.len(), 1);
}

fn collection_bid(bidder: &str, units: u32, price: u128) -> CollectionBid {
    CollectionBid { units, price: coin(price, DENOM), bidder: bidder.to_string(), expires_at: EXPIRES }
}

#[test]
fn collection_bid_fills_one_unit_per_accept() {
    let mut m = market();
    let r = m.execute_set_collection_bid(&info("buyer", vec![coin(300, DENOM)]), NOW, collection_bid("buyer", 3, 100));
    assert_eq!(r.unwrap(), vec![]);
    let buyer = "buyer".to_string();
    let r1 = m.execute_accept_collection_bid(&info("alice", vec![]), &"alice".to_string(), NOW, &"1".to_string(), &buyer);
    assert_eq!(r1.unwrap(), vec![nft("1", "buyer"), funds("collector", 2), funds("alice", 98)]);
    let r2 = m.execute_accept_collection_bid(&info("bob", vec![]), &"bob".to_string(), NOW, &"2".to_string(), &buyer);
    assert_eq!(r2.unwrap(), vec![nft("2", "buyer"), funds("collector", 2), funds("bob", 98)]);
    assert_eq!(m.collection_bids.len(), 1);
    assert_eq!(m.collection_bids[0].units, 1);
    // what is left in escrow is one unit's price
    let r = m.execute_remove_collection_bid(&info("buyer", vec![])).unwrap();
    assert_eq!(r, vec![funds("buyer", 100)]);
    assert!(m.collection_bids.is_empty());
}

#[test]
fn last_unit_removes_collection_bid() {
    let mut m = market();
    m.execute_set_collection_bid(&info("buyer", vec![coin(100, DENOM)]), NOW, collection_bid("buyer", 1, 100)).unwrap();
    m.execute_accept_collection_bid(&info("alice", vec![]), &"alice".to_string(), NOW, &"1".to_string(), &"buyer".to_string())
        .unwrap();
    assert!(m.collection_bids.is_empty());
    let r = m.execute_accept_collection_bid(&info("bob", vec![]), &"bob".to_string(), NOW, &"2".to_string(), &"buyer".to_string());
    assert_eq!(r, Err(ContractError::CollectionBidNotFound));
}

#[test]
fn replacing_collection_bid_refunds_whole_escrow() {
    let mut m = market();
    m.execute_set_collection_bid(&info("buyer", vec![coin(300, DENOM)]), NOW, collection_bid("buyer", 3, 100)).unwrap();
    let r = m.execute_set_collection_bid(&info("buyer", vec![coin(40, DENOM)]), NOW, collection_bid("buyer", 2, 20));
    assert_eq!(r.unwrap(), vec![funds("buyer", 300)]);
    assert_eq!(m.collection_bids.len(), 1);
    assert_eq!(m.collection_bids[0].units, 2);
}

#[test]
fn collection_bid_payment_must_cover_all_units() {
    let mut m = market();
    let r = m.execute_set_collection_bid(&info("buyer", vec![coin(100, DENOM)]), NOW, collection_bid("buyer", 3, 100));
    assert_eq!(r, Err(ContractError::IncorrectBidPayment(300, 100)));
    let r = m.execute_set_collection_bid(&info("buyer", vec![coin(100, DENOM)]), NOW, collection_bid("buyer", 0, 100));
    assert_eq!(r, Err(ContractError::PriceTooSmall(10)));
    let r = m.execute_set_collection_bid(&info("buyer", vec![coin(100, DENOM)]), NOW, collection_bid("buyer", 3, u128::MAX));
    assert_eq!(r, Err(ContractError::TotalCostOverflow));
    assert!(m.collection_bids.is_empty());
}

#[test]
fn auction_declined_below_reserve_returns_token() {
    let mut m = market();
    let r = m.execute_set_auction(&info("seller", vec![]), &"seller".to_string(), NOW, auction("1", "seller", 100, Some(150)));
    assert_eq!(r.unwrap(), vec![Transfer::NftToContract { token_id: "1".to_string() }]);
    place_bid(&mut m, "1", "buyer", 120).unwrap();
    let r = m.execute_close_auction(&info("seller", vec![]), NOW, &"1".to_string(), false);
    assert_eq!(r.unwrap(), vec![nft("1", "seller")]);
    assert_eq!(m.bids.len(), 1);
    assert_eq!(m.bids[0].price.amount, 120);
    assert!(m.auctions.is_empty());
}

#[test]
fn auction_reserve_met_cannot_be_declined() {
    let mut m = market();
    m.execute_set_auction(&info("seller", vec![]), &"seller".to_string(), NOW, auction("1", "seller", 100, Some(150))).unwrap();
    place_bid(&mut m, "1", "buyer", 160).unwrap();
    let r = m.execute_close_auction(&info("seller", vec![]), NOW, &"1".to_string(), false);
    assert_eq!(r, Err(ContractError::ReservePriceRestriction));
    assert_eq!(m.auctions.len(), 1);
    let r = m.execute_close_auction(&info("seller", vec![]), NOW, &"1".to_string(), true);
    assert_eq!(r.unwrap(), vec![nft("1", "buyer"), funds("collector", 3), funds("seller", 157)]);
    assert!(m.bids.is_empty());
    assert!(m.auctions.is_empty());
}

#[test]
fn auction_sells_to_highest_live_bid() {
    let mut m = market();
    m.execute_set_auction(&info("seller", vec![]), &"seller".to_string(), NOW, auction("1", "seller", 100, None)).unwrap();
    place_bid(&mut m, "1", "a", 110).unwrap();
    place_bid(&mut m, "1", "b", 130).unwrap();
    place_bid(&mut m, "2", "c", 500).unwrap();
    let mut early = bid("1", "d", 400);
    early.expires_at = NOW + 10;
    m.execute_set_bid(&info("d", vec![coin(400, DENOM)]), NOW, early).unwrap();
    // at NOW + 10 the bid of 400 has expired
    let r = m.execute_close_auction(&info("seller", vec![]), NOW + 10, &"1".to_string(), true);
    assert_eq!(r.unwrap(), vec![nft("1", "b"), funds("collector", 2), funds("seller", 128)]);
    assert_eq!(m.bids.len(), 3);
}

#[test]
fn auction_errors() {
    let mut m = market();
    let owner = "seller".to_string();
    assert_eq!(
        m.execute_set_auction(&info("other", vec![]), &owner, NOW, auction("1", "other", 100, None)),
        Err(ContractError::Unauthorized)
    );
    assert_eq!(
        m.execute_set_auction(&info("seller", vec![]), &owner, NOW, auction("1", "seller", 100, Some(50))),
        Err(ContractError::InvalidReservePrice(50, 100))
    );
    m.execute_set_auction(&info("seller", vec![]), &owner, NOW, auction("1", "seller", 100, None)).unwrap();
    assert_eq!(
        m.execute_set_auction(&info("seller", vec![]), &owner, NOW, auction("1", "seller", 100, None)),
        Err(ContractError::AuctionAlreadyExists)
    );
    assert_eq!(m.execute_close_auction(&info("other", vec![]), NOW, &"1".to_string(), true), Err(ContractError::Unauthorized));
    assert_eq!(m.execute_close_auction(&info("seller", vec![]), EXPIRES, &"1".to_string(), true), Err(ContractError::AuctionExpired));
    assert_eq!(m.execute_close_auction(&info("seller", vec![]), NOW, &"2".to_string(), true), Err(ContractError::AuctionNotFound));
    // closing with no bid returns the token even when accepting
    assert_eq!(m.execute_close_auction(&info("seller", vec![]), NOW, &"1".to_string(), true).unwrap(), vec![nft("1", "seller")]);
}

#[test]
fn update_params_by_operator_only() {
    let mut m = market();
    let r = m.execute_update_params(&info("other", vec![]), Some(5), None, None, None, None, None);
    assert_eq!(r, Err(ContractError::Unauthorized));
    let r = m.execute_update_params(&info("operator", vec![]), Some(101), None, None, None, None, None);
    assert_eq!(r, Err(ContractError::InvalidTradingFee(101)));
    let bad = Some(ExpiryRange { min: 5, max: 4 });
    let r = m.execute_update_params(&info("operator", vec![]), None, None, bad, None, None, None);
    assert_eq!(r, Err(ContractError::InvalidExpiryRange));
    let r = m.execute_update_params(&info("operator", vec![]), Some(5), None, None, None, None, Some(50));
    assert_eq!(r.unwrap(), vec![]);
    assert_eq!(m.params.trading_fee_percent, 5);
    assert_eq!(m.params.min_price, 50);
    assert_eq!(m.params.bid_expiry, ExpiryRange { min: 10, max: 1_000 });
}

#[test]
fn instantiate_checks_params() {
    let mut p = params();
    p.trading_fee_percent = 101;
    assert!(matches!(instantiate(p), Err(ContractError::InvalidTradingFee(101))));
    let mut p = params();
    p.auction_expiry = ExpiryRange { min: 2, max: 1 };
    assert!(matches!(instantiate(p), Err(ContractError::InvalidExpiryRange)));
}

#[test]
fn execute_dispatches_with_caller_as_party() {
    let mut m = market();
    let seller = info("seller", vec![]);
    let msg = ExecuteMsg::SetAsk {
        token_id: "1".to_string(),
        price: coin(100, DENOM),
        funds_recipient: None,
        reserve_for: None,
        expires_at: EXPIRES,
    };
    m.execute(&seller, &"seller".to_string(), NOW, msg).unwrap();
    assert_eq!(m.asks[0].seller, "seller");
    let msg = ExecuteMsg::SetBid { token_id: "1".to_string(), price: coin(100, DENOM), expires_at: EXPIRES };
    let r = m.execute(&info("buyer", vec![coin(100, DENOM)]), &"contract".to_string(), NOW, msg).unwrap();
    assert_eq!(r, vec![nft("1", "buyer"), funds("collector", 2), funds("seller", 98)]);
}
