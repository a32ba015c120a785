//! Properties that relate several operations, or hold of every operation.
use vstd::prelude::*;
use crate::execute::{exactly_one_ask, ok_with, one_unit_less, ExecuteMsg, Market};
use crate::helpers::{must_pay_result, sale_transfers, fee_of};
use crate::registry::{
    ask_key, ask_on, bid_of, index_where, is_first, lemma_distinct_found, lemma_first_found, lemma_found,
};
use crate::state::{Ask, Auction, Bid, Coin, CollectionBid, ContractError, MessageInfo, Transfer};

verus! {

/// What `ts` pays to `who` in the currency `denom`.
pub open spec fn received(ts: Seq<Transfer>, who: Seq<char>, denom: Seq<char>) -> int
    decreases ts.len(),
{
    if ts.len() == 0 {
        0
    } else {
        received(ts.drop_last(), who, denom) + match ts.last() {
            Transfer::Funds { recipient, coin } => if recipient@ == who && coin.denom@ == denom {
                coin.amount as int
            } else {
                0
            },
            _ => 0,
        }
    }
}

pub proof fn lemma_received_concat(a: Seq<Transfer>, b: Seq<Transfer>, who: Seq<char>, denom: Seq<char>)
    ensures
        received(a + b, who, denom) == received(a, who, denom) + received(b, who, denom),
    decreases b.len(),
{
    if b.len() == 0 {
        assert(a + b =~= a);
    } else {
        assert((a + b).drop_last() =~= a + b.drop_last());
        lemma_received_concat(a, b.drop_last(), who, denom);
    }
}

proof fn lemma_received_one(t: Transfer, who: Seq<char>, denom: Seq<char>)
    ensures
        received(seq![t], who, denom) == match t {
            Transfer::Funds { recipient, coin } => if recipient@ == who && coin.denom@ == denom {
                coin.amount as int
            } else {
                0
            },
            _ => 0,
        },
{
    assert(seq![t].drop_last() =~= Seq::<Transfer>::empty());
    assert(received(Seq::<Transfer>::empty(), who, denom) == 0);
    assert(seq![t].last() == t);
}

/// A sale pays nothing to someone who is neither the recipient nor the collector.
proof fn lemma_sale_pays_others(buyer: String, token_id: String, gross: u128, recipient: String, m: Market, who: Seq<char>)
    requires
        who != recipient@,
        who != m.params.collector_address@,
    ensures
        received(sale_transfers(buyer, token_id, gross, recipient, m.params), who, m.params.denom@) == 0,
{
    let fee = fee_of(gross, m.params.trading_fee_percent);
    let nft = seq![Transfer::Nft { token_id: token_id, recipient: buyer }];
    let c: Seq<Transfer> = if fee > 0 {
        seq![Transfer::Funds { recipient: m.params.collector_address, coin: Coin { denom: m.params.denom, amount: fee } }]
    } else {
        seq![]
    };
    let d: Seq<Transfer> = if gross - fee > 0 {
        seq![Transfer::Funds { recipient: recipient, coin: Coin { denom: m.params.denom, amount: (gross - fee) as u128 } }]
    } else {
        seq![]
    };
    lemma_received_one(nft[0], who, m.params.denom@);
    assert(nft =~= seq![nft[0]]);
    if fee > 0 {
        lemma_received_one(c[0], who, m.params.denom@);
        assert(c =~= seq![c[0]]);
    }
    if gross - fee > 0 {
        lemma_received_one(d[0], who, m.params.denom@);
        assert(d =~= seq![d[0]]);
    }
    lemma_received_concat(nft, c, who, m.params.denom@);
    lemma_received_concat(nft + c, d, who, m.params.denom@);
}

/// Listing a token that has no ask moves it into custody; listing it again
/// moves nothing, and afterwards the token still has exactly one ask.
pub proof fn law_token_moves_once(
    m0: Market,
    info1: MessageInfo,
    owner1: String,
    now1: u64,
    ask1: Ask,
    r1: Result<Vec<Transfer>, ContractError>,
    m1: Market,
    info2: MessageInfo,
    owner2: String,
    now2: u64,
    ask2: Ask,
    r2: Result<Vec<Transfer>, ContractError>,
    m2: Market,
)
    requires
        m0.wf(),
        m0.set_ask_post(info1, owner1, now1, ask1, r1, m1),
        m1.set_ask_post(info2, owner2, now2, ask2, r2, m2),
        index_where(m0.asks@, ask_on(ask1.token_id@)) is None,
        ask2.token_id@ == ask1.token_id@,
        r1 is Ok,
        r2 is Ok,
    ensures
        ok_with(r1, seq![Transfer::NftToContract { token_id: ask1.token_id }]),
        ok_with(r2, seq![]),
        exactly_one_ask(m2.asks@, ask1.token_id@),
        m2.asks@.contains(ask2),
{
    let t = ask1.token_id@;
    assert(m0.set_ask_check(info1, owner1, now1, ask1) is Ok);
    assert(m1.set_ask_check(info2, owner2, now2, ask2) is Ok);
    lemma_found(m0.asks@, ask_on(t));
    assert forall|j: int| 0 <= j < m0.asks@.len() implies ask_key()(#[trigger] m0.asks@[j]) != ask_key()(ask1) by {
        assert(!ask_on(t)(m0.asks@[j]));
    }
    crate::registry::lemma_distinct_push(m0.asks@, ask_key(), ask1);
    let n = m0.asks@.len() as int;
    assert(m1.asks@[n] == ask1);
    lemma_distinct_found(m1.asks@, ask_key(), ask_on(t), t, n);
    crate::registry::lemma_distinct_update(m1.asks@, ask_key(), n, ask2);
    assert(m2.asks@ == m1.asks@.update(n, ask2));
    assert(m2.asks@[n] == ask2);
    lemma_distinct_found(m2.asks@, ask_key(), ask_on(t), t, n);
}

/// Replacing a live bid refunds the earlier escrow to the bidder, so that the
/// bidder's balance in the settlement currency changes by the old price less the
/// new one. It holds unless the bidder is also paid by the sale that a live ask
/// triggers (as its recipient or as the collector), or the old bid was priced in
/// another currency.
pub proof fn law_replacing_bid_refunds(
    m0: Market,
    info: MessageInfo,
    now: u64,
    bid: Bid,
    r: Result<Vec<Transfer>, ContractError>,
    m1: Market,
)
    requires
        m0.wf(),
        m0.set_bid_post(info, now, bid, r, m1),
        r is Ok,
        m0.prior_bid(bid) is Some,
        m0.bids@[m0.prior_bid(bid)->Some_0].price.denom@ == m0.params.denom@,
        index_where(m0.asks@, ask_on(bid.token_id@)) matches Some(k) ==>
            bid.bidder@ != m0.asks@[k].recipient()@ && bid.bidder@ != m0.params.collector_address@,
    ensures
        ({
            let old_price = m0.bids@[m0.prior_bid(bid)->Some_0].price.amount;
            let paid = must_pay_result(info.funds@, m0.params.denom@)->Ok_0;
            &&& paid == bid.price.amount
            &&& received(r->Ok_0@, bid.bidder@, m0.params.denom@) - paid == old_price - bid.price.amount
        }),
{
    assert(m0.set_bid_check(info, now, bid) is Ok);
    let i = m0.prior_bid(bid)->Some_0;
    lemma_found(m0.bids@, bid_of(bid.token_id@, bid.bidder@));
    let d = m0.params.denom@;
    let refund = m0.prior_refund(bid);
    lemma_received_one(refund[0], bid.bidder@, d);
    assert(refund =~= seq![refund[0]]);
    match index_where(m0.asks@, ask_on(bid.token_id@)) {
        Some(k) => {
            let sale = sale_transfers(bid.bidder, bid.token_id, bid.price.amount, m0.asks@[k].recipient(), m0.params);
            lemma_sale_pays_others(bid.bidder, bid.token_id, bid.price.amount, m0.asks@[k].recipient(), m0, bid.bidder@);
            lemma_received_concat(refund, sale, bid.bidder@, d);
        },
        None => {},
    }
}

/// Placing a bid and then withdrawing it, by the same bidder on a token with no
/// ask and no earlier bid of theirs, returns exactly what was paid and leaves
/// the bids as they were, with no record of the bid.
pub proof fn law_bid_then_withdraw(
    m0: Market,
    info: MessageInfo,
    now: u64,
    bid: Bid,
    r1: Result<Vec<Transfer>, ContractError>,
    m1: Market,
    withdraw: MessageInfo,
    r2: Result<Vec<Transfer>, ContractError>,
    m2: Market,
)
    requires
        m0.wf(),
        m0.set_bid_post(info, now, bid, r1, m1),
        r1 is Ok,
        m1.remove_bid_post(withdraw, bid.token_id, r2, m2),
        withdraw.sender@ == bid.bidder@,
        withdraw.funds@.len() == 0,
        index_where(m0.asks@, ask_on(bid.token_id@)) is None,
        m0.prior_bid(bid) is None,
    ensures
        r2 is Ok,
        m2.bids@ == m0.bids@,
        index_where(m2.bids@, bid_of(bid.token_id@, bid.bidder@)) is None,
        received(r1->Ok_0@ + r2->Ok_0@, bid.bidder@, m0.params.denom@)
            == must_pay_result(info.funds@, m0.params.denom@)->Ok_0,
{
    let t = bid.token_id@;
    let p = bid_of(t, bid.bidder@);
    assert(m0.set_bid_check(info, now, bid) is Ok);
    lemma_found(m0.bids@, p);
    let n = m0.bids@.len() as int;
    assert(m1.bids@ == m0.bids@.push(bid));
    assert forall|j: int| 0 <= j < n implies !p(#[trigger] m1.bids@[j]) by {
        assert(m1.bids@[j] == m0.bids@[j]);
    }
    assert(is_first(m1.bids@, p, n));
    lemma_first_found(m1.bids@, p, n);
    assert(m1.remove_bid_check(withdraw, bid.token_id) is Ok);
    assert(m2.bids@ =~= m0.bids@);
    let d = m0.params.denom@;
    assert(r1->Ok_0@ =~= Seq::<Transfer>::empty());
    let v2 = r2->Ok_0@;
    lemma_received_one(v2[0], bid.bidder@, d);
    assert(v2 =~= seq![v2[0]]);
    lemma_received_concat(r1->Ok_0@, v2, bid.bidder@, d);
    assert(r1->Ok_0@ + v2 =~= v2);
}

/// A bid whose payment is not exactly its price in the settlement currency is
/// refused and changes nothing.
pub proof fn law_wrong_payment_refused(
    m0: Market,
    info: MessageInfo,
    now: u64,
    bid: Bid,
    r: Result<Vec<Transfer>, ContractError>,
    m1: Market,
)
    requires
        m0.set_bid_post(info, now, bid, r, m1),
        must_pay_result(info.funds@, m0.params.denom@) != Ok::<u128, crate::state::PaymentError>(bid.price.amount),
    ensures
        r is Err,
        m1 == m0,
{
}

/// The sum of `f` over `s`.
pub open spec fn sum_of<A>(s: Seq<A>, f: spec_fn(A) -> int) -> int
    decreases s.len(),
{
    if s.len() == 0 {
        0
    } else {
        sum_of(s.drop_last(), f) + f(s.last())
    }
}

pub proof fn lemma_sum_concat<A>(a: Seq<A>, b: Seq<A>, f: spec_fn(A) -> int)
    ensures
        sum_of(a + b, f) == sum_of(a, f) + sum_of(b, f),
    decreases b.len(),
{
    if b.len() == 0 {
        assert(a + b =~= a);
    } else {
        assert((a + b).drop_last() =~= a + b.drop_last());
        lemma_sum_concat(a, b.drop_last(), f);
    }
}

pub proof fn lemma_sum_one<A>(x: A, f: spec_fn(A) -> int)
    ensures
        sum_of(seq![x], f) == f(x),
{
    assert(seq![x].drop_last() =~= Seq::<A>::empty());
    assert(sum_of(Seq::<A>::empty(), f) == 0);
}

pub proof fn lemma_sum_remove<A>(s: Seq<A>, f: spec_fn(A) -> int, i: int)
    requires
        0 <= i < s.len(),
    ensures
        sum_of(s.remove(i), f) == sum_of(s, f) - f(s[i]),
{
    let a = s.take(i);
    let b = s.skip(i + 1);
    assert(s =~= a + seq![s[i]] + b);
    assert(s.remove(i) =~= a + b);
    lemma_sum_concat(a + seq![s[i]], b, f);
    lemma_sum_concat(a, seq![s[i]], f);
    lemma_sum_one(s[i], f);
    lemma_sum_concat(a, b, f);
}

pub proof fn lemma_sum_update<A>(s: Seq<A>, f: spec_fn(A) -> int, i: int, x: A)
    requires
        0 <= i < s.len(),
    ensures
        sum_of(s.update(i, x), f) == sum_of(s, f) - f(s[i]) + f(x),
{
    let a = s.take(i);
    let b = s.skip(i + 1);
    assert(s =~= a + seq![s[i]] + b);
    assert(s.update(i, x) =~= a + seq![x] + b);
    lemma_sum_concat(a + seq![s[i]], b, f);
    lemma_sum_concat(a, seq![s[i]], f);
    lemma_sum_concat(a + seq![x], b, f);
    lemma_sum_concat(a, seq![x], f);
    lemma_sum_one(s[i], f);
    lemma_sum_one(x, f);
}

pub open spec fn bid_amount() -> spec_fn(Bid) -> int {
    |b: Bid| b.price.amount as int
}

pub open spec fn collection_bid_amount() -> spec_fn(CollectionBid) -> int {
    |b: CollectionBid| b.total()
}

pub open spec fn transfer_amount() -> spec_fn(Transfer) -> int {
    |t: Transfer| match t {
        Transfer::Funds { coin, .. } => coin.amount as int,
        _ => 0,
    }
}

/// What the contract holds in escrow: every bid's price and every collection
/// bid's unit price times its units.
pub open spec fn escrow(m: Market) -> int {
    sum_of(m.bids@, bid_amount()) + sum_of(m.collection_bids@, collection_bid_amount())
}

/// Everything that `ts` pays out.
pub open spec fn paid_out(ts: Seq<Transfer>) -> int {
    sum_of(ts, transfer_amount())
}

/// The payment that an operation takes into escrow.
pub open spec fn escrowed_payment(m: Market, info: MessageInfo, msg: ExecuteMsg) -> int {
    match msg {
        ExecuteMsg::SetBid { .. } | ExecuteMsg::SetCollectionBid { .. } =>
            match must_pay_result(info.funds@, m.params.denom@) {
                Ok(a) => a as int,
                Err(_) => 0,
            },
        _ => 0,
    }
}

/// A sale pays out exactly its price, split between collector and recipient.
proof fn lemma_sale_pays_gross(buyer: String, token_id: String, gross: u128, recipient: String, m: Market)
    requires
        m.params.trading_fee_percent <= 100,
    ensures
        paid_out(sale_transfers(buyer, token_id, gross, recipient, m.params)) == gross,
{
    let p = m.params;
    let fee = fee_of(gross, p.trading_fee_percent);
    assert(gross * p.trading_fee_percent / 100 <= gross) by (nonlinear_arith)
        requires p.trading_fee_percent <= 100;
    let f = transfer_amount();
    let nft = seq![Transfer::Nft { token_id: token_id, recipient: buyer }];
    let c: Seq<Transfer> = if fee > 0 {
        seq![Transfer::Funds { recipient: p.collector_address, coin: Coin { denom: p.denom, amount: fee } }]
    } else {
        seq![]
    };
    let d: Seq<Transfer> = if gross - fee > 0 {
        seq![Transfer::Funds { recipient: recipient, coin: Coin { denom: p.denom, amount: (gross - fee) as u128 } }]
    } else {
        seq![]
    };
    lemma_sum_one(nft[0], f);
    assert(nft =~= seq![nft[0]]);
    if fee > 0 {
        lemma_sum_one(c[0], f);
        assert(c =~= seq![c[0]]);
    }
    if gross - fee > 0 {
        lemma_sum_one(d[0], f);
        assert(d =~= seq![d[0]]);
    }
    lemma_sum_concat(nft, c, f);
    lemma_sum_concat(nft + c, d, f);
}

/// Escrow is conserved: after any operation that succeeds, the escrow equals
/// the escrow before, plus the payment the operation escrowed, less everything
/// it paid out. Refunds and sales are paid from escrow only.
pub proof fn law_escrow_conserved(
    m0: Market,
    info: MessageInfo,
    owner: String,
    now: u64,
    msg: ExecuteMsg,
    r: Result<Vec<Transfer>, ContractError>,
    m1: Market,
)
    requires
        m0.wf(),
        m0.execute_post(info, owner, now, msg, r, m1),
        r is Ok,
    ensures
        escrow(m1) == escrow(m0) + escrowed_payment(m0, info, msg) - paid_out(r->Ok_0@),
{
    let fb = bid_amount();
    let fc = collection_bid_amount();
    let ft = transfer_amount();
    let out = r->Ok_0@;
    match msg {
        ExecuteMsg::UpdateParams { trading_fee_percent, ask_expiry, bid_expiry, auction_expiry, operators, min_price } => {
            assert(m0.update_params_check(info, trading_fee_percent, ask_expiry, bid_expiry, auction_expiry) is Ok);
            assert(out =~= Seq::<Transfer>::empty());
            assert(paid_out(out) == 0);
            assert(escrow(m1) == escrow(m0) + escrowed_payment(m0, info, msg) - paid_out(out));
        },
        ExecuteMsg::SetAsk { token_id, price, funds_recipient, reserve_for, expires_at } => {
            let ask = Ask { token_id, seller: info.sender, price, funds_recipient, reserve_for, expires_at };
            assert(m0.set_ask_check(info, owner, now, ask) is Ok);
            if index_where(m0.asks@, ask_on(ask.token_id@)) is None {
                lemma_sum_one(out[0], ft);
                assert(out =~= seq![out[0]]);
            }
            assert(escrow(m1) == escrow(m0) + escrowed_payment(m0, info, msg) - paid_out(out));
        },
        ExecuteMsg::RemoveAsk { token_id } => {
            assert(m0.remove_ask_check(info, token_id) is Ok);
            lemma_sum_one(out[0], ft);
            assert(out =~= seq![out[0]]);
            assert(escrow(m1) == escrow(m0) + escrowed_payment(m0, info, msg) - paid_out(out));
        },
        ExecuteMsg::SetBid { token_id, price, expires_at } => {
            let bid = Bid { token_id, bidder: info.sender, price, expires_at };
            assert(m0.set_bid_check(info, now, bid) is Ok);
            assert(escrowed_payment(m0, info, msg) == bid.price.amount as int);
            lemma_found(m0.bids@, bid_of(bid.token_id@, bid.bidder@));
            let refund = m0.prior_refund(bid);
            let kept = m0.bids_without_prior(bid);
            match m0.prior_bid(bid) {
                Some(i) => {
                    lemma_sum_remove(m0.bids@, fb, i);
                    lemma_sum_one(refund[0], ft);
                    assert(refund =~= seq![refund[0]]);
                    assert(sum_of(refund, ft) == m0.bids@[i].price.amount);
                    assert(sum_of(kept, fb) == sum_of(m0.bids@, fb) - m0.bids@[i].price.amount);
                },
                None => {
                    assert(refund =~= Seq::<Transfer>::empty());
                    assert(sum_of(refund, ft) == 0);
                },
            }
            match index_where(m0.asks@, ask_on(bid.token_id@)) {
                Some(k) => {
                    let sale = sale_transfers(bid.bidder, bid.token_id, bid.price.amount, m0.asks@[k].recipient(), m0.params);
                    lemma_sale_pays_gross(bid.bidder, bid.token_id, bid.price.amount, m0.asks@[k].recipient(), m0);
                    lemma_sum_concat(refund, sale, ft);
                    assert(out == refund + sale);
                    assert(m1.bids@ == kept);
                },
                None => {
                    lemma_sum_one(bid, fb);
                    lemma_sum_concat(kept, seq![bid], fb);
                    assert(kept.push(bid) =~= kept + seq![bid]);
                    assert(out == refund);
                    assert(m1.bids@ == kept.push(bid));
                },
            }
            assert(escrow(m1) == escrow(m0) + escrowed_payment(m0, info, msg) - paid_out(out));
        },
        ExecuteMsg::RemoveBid { token_id } => {
            assert(m0.remove_bid_check(info, token_id) is Ok);
            let i = index_where(m0.bids@, bid_of(token_id@, info.sender@))->Some_0;
            lemma_found(m0.bids@, bid_of(token_id@, info.sender@));
            lemma_sum_remove(m0.bids@, fb, i);
            lemma_sum_one(out[0], ft);
            assert(out =~= seq![out[0]]);
            assert(escrow(m1) == escrow(m0) + escrowed_payment(m0, info, msg) - paid_out(out));
        },
        ExecuteMsg::AcceptBid { token_id, bidder } => {
            assert(m0.accept_bid_check(info, owner, now, token_id, bidder) is Ok);
            let i = index_where(m0.bids@, bid_of(token_id@, bidder@))->Some_0;
            lemma_found(m0.bids@, bid_of(token_id@, bidder@));
            lemma_sum_remove(m0.bids@, fb, i);
            let b = m0.bids@[i];
            lemma_sale_pays_gross(b.bidder, token_id, b.price.amount, crate::execute::payee(m0.asks@, token_id@, info.sender), m0);
            assert(escrow(m1) == escrow(m0) + escrowed_payment(m0, info, msg) - paid_out(out));
        },
        ExecuteMsg::SetCollectionBid { units, price, expires_at } => {
            let cb = CollectionBid { units, price, bidder: info.sender, expires_at };
            assert(m0.set_collection_bid_check(info, now, cb) is Ok);
            assert(escrowed_payment(m0, info, msg) == cb.total());
            lemma_found(m0.collection_bids@, crate::registry::collection_bid_of(cb.bidder@));
            lemma_sum_one(cb, fc);
            match index_where(m0.collection_bids@, crate::registry::collection_bid_of(cb.bidder@)) {
                Some(j) => {
                    lemma_sum_remove(m0.collection_bids@, fc, j);
                    lemma_sum_concat(m0.collection_bids@.remove(j), seq![cb], fc);
                    assert(m0.collection_bids@.remove(j).push(cb) =~= m0.collection_bids@.remove(j) + seq![cb]);
                    assert(crate::execute::valid_collection_bid(m0.collection_bids@[j]));
                    lemma_sum_one(out[0], ft);
                    assert(out =~= seq![out[0]]);
                },
                None => {
                    lemma_sum_concat(m0.collection_bids@, seq![cb], fc);
                    assert(m0.collection_bids@.push(cb) =~= m0.collection_bids@ + seq![cb]);
                    assert(out =~= Seq::<Transfer>::empty());
                },
            }
            assert(escrow(m1) == escrow(m0) + escrowed_payment(m0, info, msg) - paid_out(out));
        },
        ExecuteMsg::RemoveCollectionBid => {
            assert(m0.remove_collection_bid_check(info) is Ok);
            let j = index_where(m0.collection_bids@, crate::registry::collection_bid_of(info.sender@))->Some_0;
            lemma_found(m0.collection_bids@, crate::registry::collection_bid_of(info.sender@));
            lemma_sum_remove(m0.collection_bids@, fc, j);
            assert(crate::execute::valid_collection_bid(m0.collection_bids@[j]));
            lemma_sum_one(out[0], ft);
            assert(out =~= seq![out[0]]);
            assert(escrow(m1) == escrow(m0) + escrowed_payment(m0, info, msg) - paid_out(out));
        },
        ExecuteMsg::AcceptCollectionBid { token_id, bidder } => {
            assert(m0.accept_collection_bid_check(info, owner, now, token_id, bidder) is Ok);
            let j = index_where(m0.collection_bids@, crate::registry::collection_bid_of(bidder@))->Some_0;
            lemma_found(m0.collection_bids@, crate::registry::collection_bid_of(bidder@));
            let cb = m0.collection_bids@[j];
            if cb.units == 1 {
                lemma_sum_remove(m0.collection_bids@, fc, j);
            } else {
                lemma_sum_update(m0.collection_bids@, fc, j, one_unit_less(cb));
                assert(one_unit_less(cb).total() == cb.total() - cb.price.amount) by (nonlinear_arith)
                    requires one_unit_less(cb).units == cb.units - 1, one_unit_less(cb).price == cb.price;
            }
            lemma_sale_pays_gross(cb.bidder, token_id, cb.price.amount, crate::execute::payee(m0.asks@, token_id@, info.sender), m0);
            assert(escrow(m1) == escrow(m0) + escrowed_payment(m0, info, msg) - paid_out(out));
        },
        ExecuteMsg::SetAuction { token_id, starting_price, reserve_price, funds_recipient, expires_at } => {
            let a = Auction { token_id, seller: info.sender, starting_price, reserve_price, funds_recipient, expires_at };
            assert(m0.set_auction_check(info, owner, now, a) is Ok);
            lemma_sum_one(out[0], ft);
            assert(out =~= seq![out[0]]);
            assert(escrow(m1) == escrow(m0) + escrowed_payment(m0, info, msg) - paid_out(out));
        },
        ExecuteMsg::CloseAuction { token_id, accept_highest_bid } => {
            assert(m0.close_auction_check(info, now, token_id, accept_highest_bid) is Ok);
            let a = index_where(m0.auctions@, crate::registry::auction_on(token_id@))->Some_0;
            lemma_found(m0.auctions@, crate::registry::auction_on(token_id@));
            let auction = m0.auctions@[a];
            if accept_highest_bid && crate::query::top_bid(m0.bids@, token_id@, now) is Some {
                let b = crate::query::top_bid(m0.bids@, token_id@, now)->Some_0;
                crate::query::lemma_top_bid_found(m0.bids@, token_id@, now);
                lemma_sum_remove(m0.bids@, fb, b);
                lemma_sale_pays_gross(m0.bids@[b].bidder, auction.token_id, m0.bids@[b].price.amount, auction.recipient(), m0);
            } else {
                lemma_sum_one(out[0], ft);
                assert(out =~= seq![out[0]]);
            }
            assert(escrow(m1) == escrow(m0) + escrowed_payment(m0, info, msg) - paid_out(out));
        },
    }
}

} // verus!
