//! Lookups in the registries, which are kept as vectors with one record per key.
use vstd::prelude::*;
use crate::state::{Ask, Auction, Bid, CollectionBid};

verus! {

/// The first position of `s` whose element satisfies `p`, if any.
pub open spec fn index_where<A>(s: Seq<A>, p: spec_fn(A) -> bool) -> Option<int> {
    if exists|i: int| is_first(s, p, i) {
        Some(choose|i: int| is_first(s, p, i))
    } else {
        None
    }
}

pub open spec fn is_first<A>(s: Seq<A>, p: spec_fn(A) -> bool, i: int) -> bool {
    0 <= i < s.len() && p(s[i]) && forall|j: int| 0 <= j < i ==> !p(#[trigger] s[j])
}

/// No two positions of `s` satisfy `p`.
pub open spec fn at_most_one<A>(s: Seq<A>, p: spec_fn(A) -> bool) -> bool {
    forall|i: int, j: int| 0 <= i < s.len() && 0 <= j < s.len() && p(#[trigger] s[i]) && p(#[trigger] s[j]) ==> i == j
}

pub open spec fn as_int(r: Option<usize>) -> Option<int> {
    match r {
        Some(i) => Some(i as int),
        None => None,
    }
}

pub open spec fn ask_on(t: Seq<char>) -> spec_fn(Ask) -> bool {
    |a: Ask| a.token_id@ == t
}

pub open spec fn bid_of(t: Seq<char>, bidder: Seq<char>) -> spec_fn(Bid) -> bool {
    |b: Bid| b.token_id@ == t && b.bidder@ == bidder
}

pub open spec fn collection_bid_of(bidder: Seq<char>) -> spec_fn(CollectionBid) -> bool {
    |b: CollectionBid| b.bidder@ == bidder
}

pub open spec fn auction_on(t: Seq<char>) -> spec_fn(Auction) -> bool {
    |a: Auction| a.token_id@ == t
}

/// No two positions of `s` carry the same key.
pub open spec fn keys_distinct<A, K>(s: Seq<A>, key: spec_fn(A) -> K) -> bool {
    forall|i: int, j: int| 0 <= i < s.len() && 0 <= j < s.len() && i != j
        ==> key(#[trigger] s[i]) != key(#[trigger] s[j])
}

pub open spec fn ask_key() -> spec_fn(Ask) -> Seq<char> {
    |a: Ask| a.token_id@
}

pub open spec fn bid_key() -> spec_fn(Bid) -> (Seq<char>, Seq<char>) {
    |b: Bid| (b.token_id@, b.bidder@)
}

pub open spec fn collection_bid_key() -> spec_fn(CollectionBid) -> Seq<char> {
    |b: CollectionBid| b.bidder@
}

pub open spec fn auction_key() -> spec_fn(Auction) -> Seq<char> {
    |a: Auction| a.token_id@
}

pub proof fn lemma_distinct_remove<A, K>(s: Seq<A>, key: spec_fn(A) -> K, i: int)
    requires
        keys_distinct(s, key),
        0 <= i < s.len(),
    ensures
        keys_distinct(s.remove(i), key),
{
    let r = s.remove(i);
    assert forall|a: int, b: int| 0 <= a < r.len() && 0 <= b < r.len() && a != b
        implies key(#[trigger] r[a]) != key(#[trigger] r[b]) by {
        let a2 = if a < i { a } else { a + 1 };
        let b2 = if b < i { b } else { b + 1 };
        assert(r[a] == s[a2] && r[b] == s[b2]);
    }
}

pub proof fn lemma_distinct_push<A, K>(s: Seq<A>, key: spec_fn(A) -> K, x: A)
    requires
        keys_distinct(s, key),
        forall|j: int| 0 <= j < s.len() ==> key(#[trigger] s[j]) != key(x),
    ensures
        keys_distinct(s.push(x), key),
{
    let r = s.push(x);
    assert forall|a: int, b: int| 0 <= a < r.len() && 0 <= b < r.len() && a != b
        implies key(#[trigger] r[a]) != key(#[trigger] r[b]) by {
        if a < s.len() && b < s.len() {
            assert(r[a] == s[a] && r[b] == s[b]);
        } else if a < s.len() {
            assert(r[a] == s[a]);
        } else {
            assert(r[b] == s[b]);
        }
    }
}

pub proof fn lemma_distinct_update<A, K>(s: Seq<A>, key: spec_fn(A) -> K, i: int, x: A)
    requires
        keys_distinct(s, key),
        0 <= i < s.len(),
        key(x) == key(s[i]),
    ensures
        keys_distinct(s.update(i, x), key),
{
    let r = s.update(i, x);
    assert forall|a: int, b: int| 0 <= a < r.len() && 0 <= b < r.len() && a != b
        implies key(#[trigger] r[a]) != key(#[trigger] r[b]) by {
        assert(key(r[a]) == key(s[a]));
        assert(key(r[b]) == key(s[b]));
    }
}

/// With distinct keys, the position holding key `k` is the one `index_where` finds.
pub proof fn lemma_distinct_found<A, K>(s: Seq<A>, key: spec_fn(A) -> K, p: spec_fn(A) -> bool, k: K, i: int)
    requires
        keys_distinct(s, key),
        forall|a: A| #[trigger] p(a) <==> key(a) == k,
        0 <= i < s.len(),
        key(s[i]) == k,
    ensures
        index_where(s, p) == Some(i),
        at_most_one(s, p),
{
    assert(p(s[i]));
    assert forall|a: int, b: int| 0 <= a < s.len() && 0 <= b < s.len() && p(#[trigger] s[a]) && p(#[trigger] s[b])
        implies a == b by {
        assert(key(s[a]) == k && key(s[b]) == k);
    }
    lemma_unique_found(s, p, i);
}

/// Once the one position holding key `k` is removed, no position holds it.
pub proof fn lemma_distinct_key_gone<A, K>(s: Seq<A>, key: spec_fn(A) -> K, i: int)
    requires
        keys_distinct(s, key),
        0 <= i < s.len(),
    ensures
        forall|j: int| 0 <= j < s.len() - 1 ==> key(#[trigger] s.remove(i)[j]) != key(s[i]),
{
    assert forall|j: int| 0 <= j < s.len() - 1 implies key(#[trigger] s.remove(i)[j]) != key(s[i]) by {
        let j2 = if j < i { j } else { j + 1 };
        assert(s.remove(i)[j] == s[j2]);
    }
}

pub proof fn lemma_first_found<A>(s: Seq<A>, p: spec_fn(A) -> bool, i: int)
    requires
        is_first(s, p, i),
    ensures
        index_where(s, p) == Some(i),
{
    let k = choose|k: int| is_first(s, p, k);
    if k < i {
        assert(!p(s[k]));
    } else if k > i {
        assert(!p(s[i]));
    }
}

pub proof fn lemma_none_found<A>(s: Seq<A>, p: spec_fn(A) -> bool)
    requires
        forall|j: int| 0 <= j < s.len() ==> !p(#[trigger] s[j]),
    ensures
        index_where(s, p).is_none(),
{
}

/// Where `index_where` finds something, the element satisfies the predicate.
pub proof fn lemma_found<A>(s: Seq<A>, p: spec_fn(A) -> bool)
    ensures
        match index_where(s, p) {
            Some(i) => 0 <= i < s.len() && p(s[i]),
            None => forall|j: int| 0 <= j < s.len() ==> !p(#[trigger] s[j]),
        },
{
    if index_where(s, p).is_none() {
        assert forall|j: int| 0 <= j < s.len() implies !p(#[trigger] s[j]) by {
            if p(s[j]) {
                lemma_first_from(s, p, j);
                assert(is_first(s, p, first_from(s, p, j)));
            }
        }
    }
}

/// The first position at or below `j` that satisfies `p`, given that `j` does.
pub open spec fn first_from<A>(s: Seq<A>, p: spec_fn(A) -> bool, j: int) -> int
    decreases j,
{
    if j <= 0 {
        j
    } else if exists|k: int| 0 <= k < j && p(s[k]) {
        first_from(s, p, choose|k: int| 0 <= k < j && p(s[k]))
    } else {
        j
    }
}

pub proof fn lemma_first_from<A>(s: Seq<A>, p: spec_fn(A) -> bool, j: int)
    requires
        0 <= j < s.len(),
        p(s[j]),
    ensures
        is_first(s, p, first_from(s, p, j)),
    decreases j,
{
    if j > 0 && exists|k: int| 0 <= k < j && p(s[k]) {
        let k = choose|k: int| 0 <= k < j && p(s[k]);
        lemma_first_from(s, p, k);
    }
}

/// With at most one match, a position that matches is the one `index_where` finds.
pub proof fn lemma_unique_found<A>(s: Seq<A>, p: spec_fn(A) -> bool, i: int)
    requires
        at_most_one(s, p),
        0 <= i < s.len(),
        p(s[i]),
    ensures
        index_where(s, p) == Some(i),
{
    assert forall|j: int| 0 <= j < i implies !p(#[trigger] s[j]) by {
        if p(s[j]) {
            assert(s[j] == s[j] && s[i] == s[i]);
        }
    }
    lemma_first_found(s, p, i);
}

pub fn find_ask(asks: &Vec<Ask>, token_id: &String) -> (r: Option<usize>)
    ensures
        as_int(r) == index_where(asks@, ask_on(token_id@)),
{
    let mut i: usize = 0;
    while i < asks.len()
        invariant
            i <= asks@.len(),
            forall|j: int| 0 <= j < i ==> !ask_on(token_id@)(#[trigger] asks@[j]),
        decreases asks@.len() - i,
    {
        if asks[i].token_id == *token_id {
            proof { lemma_first_found(asks@, ask_on(token_id@), i as int); }
            return Some(i);
        }
        i = i + 1;
    }
    proof { lemma_none_found(asks@, ask_on(token_id@)); }
    None
}

pub fn find_bid(bids: &Vec<Bid>, token_id: &String, bidder: &String) -> (r: Option<usize>)
    ensures
        as_int(r) == index_where(bids@, bid_of(token_id@, bidder@)),
{
    let mut i: usize = 0;
    while i < bids.len()
        invariant
            i <= bids@.len(),
            forall|j: int| 0 <= j < i ==> !bid_of(token_id@, bidder@)(#[trigger] bids@[j]),
        decreases bids@.len() - i,
    {
        if bids[i].token_id == *token_id && bids[i].bidder == *bidder {
            proof { lemma_first_found(bids@, bid_of(token_id@, bidder@), i as int); }
            return Some(i);
        }
        i = i + 1;
    }
    proof { lemma_none_found(bids@, bid_of(token_id@, bidder@)); }
    None
}

pub fn find_collection_bid(bids: &Vec<CollectionBid>, bidder: &String) -> (r: Option<usize>)
    ensures
        as_int(r) == index_where(bids@, collection_bid_of(bidder@)),
{
    let mut i: usize = 0;
    while i < bids.len()
        invariant
            i <= bids@.len(),
            forall|j: int| 0 <= j < i ==> !collection_bid_of(bidder@)(#[trigger] bids@[j]),
        decreases bids@.len() - i,
    {
        if bids[i].bidder == *bidder {
            proof { lemma_first_found(bids@, collection_bid_of(bidder@), i as int); }
            return Some(i);
        }
        i = i + 1;
    }
    proof { lemma_none_found(bids@, collection_bid_of(bidder@)); }
    None
}

pub fn find_auction(auctions: &Vec<Auction>, token_id: &String) -> (r: Option<usize>)
    ensures
        as_int(r) == index_where(auctions@, auction_on(token_id@)),
{
    let mut i: usize = 0;
    while i < auctions.len()
        invariant
            i <= auctions@.len(),
            forall|j: int| 0 <= j < i ==> !auction_on(token_id@)(#[trigger] auctions@[j]),
        decreases auctions@.len() - i,
    {
        if auctions[i].token_id == *token_id {
            proof { lemma_first_found(auctions@, auction_on(token_id@), i as int); }
            return Some(i);
        }
        i = i + 1;
    }
    proof { lemma_none_found(auctions@, auction_on(token_id@)); }
    None
}

} // verus!
