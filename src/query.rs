//! The highest live bid on a token, as auctions are closed against it.
use vstd::prelude::*;
use crate::helpers::is_expired;
use crate::registry::as_int;
use crate::state::Bid;

verus! {

/// A bid on token `t` that has not expired at `now`.
pub open spec fn live_bid_on(b: Bid, t: Seq<char>, now: u64) -> bool {
    b.token_id@ == t && !is_expired(b.expires_at, now)
}

/// Position `i` holds the highest live bid on `t`, and the first of the highest.
pub open spec fn is_top_bid(s: Seq<Bid>, t: Seq<char>, now: u64, i: int) -> bool {
    &&& 0 <= i < s.len()
    &&& live_bid_on(s[i], t, now)
    &&& forall|j: int| 0 <= j < s.len() && live_bid_on(#[trigger] s[j], t, now)
        ==> s[j].price.amount <= s[i].price.amount
    &&& forall|j: int| 0 <= j < i && live_bid_on(#[trigger] s[j], t, now)
        ==> s[j].price.amount < s[i].price.amount
}

/// The highest live bid on `t`, if there is one.
pub open spec fn top_bid(s: Seq<Bid>, t: Seq<char>, now: u64) -> Option<int> {
    if exists|i: int| is_top_bid(s, t, now, i) {
        Some(choose|i: int| is_top_bid(s, t, now, i))
    } else {
        None
    }
}

/// What `top_bid` finds is a position of the registry.
pub proof fn lemma_top_bid_found(s: Seq<Bid>, t: Seq<char>, now: u64)
    ensures
        top_bid(s, t, now) matches Some(i) ==> is_top_bid(s, t, now, i),
{
}

proof fn lemma_top_bid_is(s: Seq<Bid>, t: Seq<char>, now: u64, i: int)
    requires
        is_top_bid(s, t, now, i),
    ensures
        top_bid(s, t, now) == Some(i),
{
    let k = choose|k: int| is_top_bid(s, t, now, k);
    assert(is_top_bid(s, t, now, k));
    if k < i {
        assert(s[k].price.amount < s[i].price.amount);
        assert(s[i].price.amount <= s[k].price.amount);
    } else if k > i {
        assert(s[i].price.amount < s[k].price.amount);
        assert(s[k].price.amount <= s[i].price.amount);
    }
}

/// Finds the highest bid on `token_id` that has not expired at `now`; of equal
/// prices the earliest placed wins.
pub fn highest_bid(bids: &Vec<Bid>, token_id: &String, now: u64) -> (r: Option<usize>)
    ensures
        as_int(r) == top_bid(bids@, token_id@, now),
        r matches Some(b) ==> is_top_bid(bids@, token_id@, now, b as int),
        r is None <==> forall|j: int| 0 <= j < bids@.len() ==> !live_bid_on(#[trigger] bids@[j], token_id@, now),
{
    let mut best: Option<usize> = None;
    let mut i: usize = 0;
    while i < bids.len()
        invariant
            i <= bids@.len(),
            match best {
                Some(b) => b < i && is_top_bid(bids@.take(i as int), token_id@, now, b as int),
                None => forall|j: int| 0 <= j < i ==> !live_bid_on(#[trigger] bids@[j], token_id@, now),
            },
        decreases bids@.len() - i,
    {
        let b = &bids[i];
        if b.token_id == *token_id && !(b.expires_at <= now) {
            match best {
                None => {
                    best = Some(i);
                },
                Some(k) => {
                    if b.price.amount > bids[k].price.amount {
                        best = Some(i);
                    }
                },
            }
        }
        proof {
            let s = bids@.take(i as int + 1);
            assert(s =~= bids@.take(i as int).push(bids@[i as int]));
            match best {
                Some(k) => {
                    let p = bids@.take(i as int);
                    assert forall|j: int| 0 <= j < s.len() && live_bid_on(#[trigger] s[j], token_id@, now)
                        implies s[j].price.amount <= s[k as int].price.amount by {
                        if j < i {
                            assert(s[j] == p[j]);
                            if !(exists|m: int| 0 <= m < i && live_bid_on(#[trigger] bids@[m], token_id@, now)) {
                                assert(live_bid_on(bids@[j], token_id@, now));
                            }
                        }
                    }
                    assert forall|j: int| 0 <= j < k && live_bid_on(#[trigger] s[j], token_id@, now)
                        implies s[j].price.amount < s[k as int].price.amount by {
                        assert(s[j] == p[j]);
                    }
                },
                None => {},
            }
        }
        i = i + 1;
    }
    proof {
        assert(bids@.take(bids@.len() as int) =~= bids@);
        match best {
            Some(k) => {
                lemma_top_bid_is(bids@, token_id@, now, k as int);
            },
            None => {
                if exists|k: int| is_top_bid(bids@, token_id@, now, k) {
                    let k = choose|k: int| is_top_bid(bids@, token_id@, now, k);
                    assert(live_bid_on(bids@[k], token_id@, now));
                }
            },
        }
    }
    best
}

} // verus!
