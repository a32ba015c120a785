//! A sorted list of addresses, ordered by their bytes.
use vstd::prelude::*;
use vstd::utf8::{encode_utf8, encode_utf8_decode_utf8};

verus! {

/// The bytes of an address, by which members are ordered.
pub open spec fn key(s: String) -> Seq<u8> {
    encode_utf8(s@)
}

/// Lexicographic order on byte strings.
pub open spec fn lex_lt(a: Seq<u8>, b: Seq<u8>) -> bool
    decreases a.len(),
{
    if a.len() == 0 {
        b.len() > 0
    } else if b.len() == 0 {
        false
    } else if a[0] != b[0] {
        a[0] < b[0]
    } else {
        lex_lt(a.drop_first(), b.drop_first())
    }
}

pub proof fn lemma_lex_irreflexive(a: Seq<u8>)
    ensures
        !lex_lt(a, a),
    decreases a.len(),
{
    if a.len() > 0 {
        lemma_lex_irreflexive(a.drop_first());
    }
}

pub proof fn lemma_lex_transitive(a: Seq<u8>, b: Seq<u8>, c: Seq<u8>)
    requires
        lex_lt(a, b),
        lex_lt(b, c),
    ensures
        lex_lt(a, c),
    decreases a.len(),
{
    if a.len() > 0 && b.len() > 0 && c.len() > 0 && a[0] == b[0] && b[0] == c[0] {
        lemma_lex_transitive(a.drop_first(), b.drop_first(), c.drop_first());
    }
}

pub proof fn lemma_lex_total(a: Seq<u8>, b: Seq<u8>)
    requires
        a != b,
    ensures
        lex_lt(a, b) || lex_lt(b, a),
    decreases a.len(),
{
    if a.len() > 0 && b.len() > 0 && a[0] == b[0] {
        if a.drop_first() == b.drop_first() {
            assert(a =~= seq![a[0]] + a.drop_first());
            assert(b =~= seq![b[0]] + b.drop_first());
        }
        lemma_lex_total(a.drop_first(), b.drop_first());
    } else if a.len() == 0 && b.len() == 0 {
        assert(a =~= b);
    }
}

/// Two addresses with the same bytes are the same address.
pub proof fn lemma_key_injective(a: String, b: String)
    requires
        key(a) == key(b),
    ensures
        a@ == b@,
{
    encode_utf8_decode_utf8(a@);
    encode_utf8_decode_utf8(b@);
}

/// Strictly ascending by bytes, hence without repeats.
pub open spec fn sorted(s: Seq<String>) -> bool {
    forall|i: int, j: int| 0 <= i < j < s.len() ==> lex_lt(key(#[trigger] s[i]), key(#[trigger] s[j]))
}

pub open spec fn contains_addr(s: Seq<String>, a: Seq<char>) -> bool {
    exists|i: int| 0 <= i < s.len() && (#[trigger] s[i])@ == a
}

/// Compares two addresses by their bytes.
pub fn less_than(a: &String, b: &String) -> (r: bool)
    ensures
        r == lex_lt(key(*a), key(*b)),
{
    let x = a.as_str().as_bytes();
    let y = b.as_str().as_bytes();
    let mut i: usize = 0;
    proof {
        assert(x@.subrange(0, x@.len() as int) =~= x@);
        assert(y@.subrange(0, y@.len() as int) =~= y@);
    }
    while i < x.len() && i < y.len()
        invariant
            x@ == key(*a),
            y@ == key(*b),
            i <= x@.len(),
            i <= y@.len(),
            x@.subrange(0, i as int) == y@.subrange(0, i as int),
            lex_lt(x@, y@) == lex_lt(x@.subrange(i as int, x@.len() as int), y@.subrange(i as int, y@.len() as int)),
        decreases x@.len() - i,
    {
        if x[i] != y[i] {
            return x[i] < y[i];
        }
        proof {
            let xs = x@.subrange(i as int, x@.len() as int);
            let ys = y@.subrange(i as int, y@.len() as int);
            assert(xs.drop_first() =~= x@.subrange(i as int + 1, x@.len() as int));
            assert(ys.drop_first() =~= y@.subrange(i as int + 1, y@.len() as int));
            assert(x@.subrange(0, i as int + 1) =~= x@.subrange(0, i as int).push(x@[i as int]));
            assert(y@.subrange(0, i as int + 1) =~= y@.subrange(0, i as int).push(y@[i as int]));
        }
        i = i + 1;
    }
    i < y.len()
}

/// Position of the address `a` in `s`, if it is there.
pub fn position(s: &Vec<String>, a: &String) -> (r: Option<usize>)
    ensures
        match r {
            Some(i) => i < s@.len() && s@[i as int]@ == a@,
            None => !contains_addr(s@, a@),
        },
{
    let mut i: usize = 0;
    while i < s.len()
        invariant
            i <= s@.len(),
            forall|j: int| 0 <= j < i ==> (#[trigger] s@[j])@ != a@,
        decreases s@.len() - i,
    {
        if s[i] == *a {
            return Some(i);
        }
        i = i + 1;
    }
    None
}

/// The first position whose address comes after `a`.
pub fn first_after(s: &Vec<String>, a: &String) -> (r: usize)
    requires
        sorted(s@),
    ensures
        r <= s@.len(),
        forall|j: int| 0 <= j < r ==> !lex_lt(key(*a), key(#[trigger] s@[j])),
        forall|j: int| r <= j < s@.len() ==> lex_lt(key(*a), key(#[trigger] s@[j])),
{
    let mut i: usize = 0;
    while i < s.len()
        invariant
            i <= s@.len(),
            sorted(s@),
            forall|j: int| 0 <= j < i ==> !lex_lt(key(*a), key(#[trigger] s@[j])),
        decreases s@.len() - i,
    {
        if less_than(a, &s[i]) {
            proof {
                assert forall|j: int| i <= j < s@.len() implies lex_lt(key(*a), key(#[trigger] s@[j])) by {
                    if j > i {
                        assert(lex_lt(key(s@[i as int]), key(s@[j])));
                        lemma_lex_transitive(key(*a), key(s@[i as int]), key(s@[j]));
                    }
                }
            }
            return i;
        }
        i = i + 1;
    }
    i
}

/// Adds `a` to a sorted list that does not hold it, keeping it sorted.
pub fn insert_sorted(s: &mut Vec<String>, a: String)
    requires
        sorted(old(s)@),
        !contains_addr(old(s)@, a@),
    ensures
        sorted(final(s)@),
        final(s)@.len() == old(s)@.len() + 1,
        forall|x: Seq<char>| contains_addr(final(s)@, x) <==> (contains_addr(old(s)@, x) || x == a@),
{
    let j = first_after(s, &a);
    let ghost pre = s@;
    proof {
        assert forall|i: int, k: int| 0 <= i < k < pre.insert(j as int, a).len()
            implies lex_lt(key(#[trigger] pre.insert(j as int, a)[i]), key(#[trigger] pre.insert(j as int, a)[k])) by {
            let t = pre.insert(j as int, a);
            if k == j {
                let p = pre[i];
                assert(!lex_lt(key(a), key(p)));
                if key(a) == key(p) {
                    lemma_key_injective(a, p);
                    assert(contains_addr(pre, a@));
                }
                lemma_lex_total(key(a), key(p));
            } else if i == j {
                assert(t[k] == pre[k - 1]);
            } else {
                let i2 = if i < j { i } else { i - 1 };
                let k2 = if k < j { k } else { k - 1 };
                assert(t[i] == pre[i2] && t[k] == pre[k2]);
                if k > j && i < j {
                    let p = pre[i];
                    assert(!lex_lt(key(a), key(p)));
                    if key(a) == key(p) {
                        lemma_key_injective(a, p);
                        assert(contains_addr(pre, a@));
                    }
                    lemma_lex_total(key(a), key(p));
                    lemma_lex_transitive(key(p), key(a), key(pre[k2]));
                }
            }
        }
    }
    s.insert(j, a);
    proof {
        assert forall|x: Seq<char>| contains_addr(s@, x) <==> (contains_addr(pre, x) || x == a@) by {
            if contains_addr(s@, x) {
                let i = choose|i: int| 0 <= i < s@.len() && (#[trigger] s@[i])@ == x;
                if i < j {
                    assert(s@[i] == pre[i]);
                } else if i > j {
                    assert(s@[i] == pre[i - 1]);
                }
            }
            if contains_addr(pre, x) {
                let i = choose|i: int| 0 <= i < pre.len() && (#[trigger] pre[i])@ == x;
                if i < j {
                    assert(s@[i] == pre[i]);
                } else {
                    assert(s@[i + 1] == pre[i]);
                }
            }
            if x == a@ {
                assert(s@[j as int] == a);
            }
        }
    }
}

/// The addresses a list holds.
pub open spec fn addrs(s: Seq<String>) -> Set<Seq<char>> {
    Set::new(|x: Seq<char>| contains_addr(s, x))
}

/// `adds` holds the addresses of `input`, each once, in ascending order.
pub open spec fn sorted_dedup_of(adds: Seq<String>, input: Seq<String>) -> bool {
    sorted(adds) && addrs(adds) == addrs(input)
}

/// A sorted list holds each address at one position only.
pub proof fn lemma_sorted_unique(s: Seq<String>, i: int, j: int)
    requires
        sorted(s),
        0 <= i < s.len(),
        0 <= j < s.len(),
        s[i]@ == s[j]@,
    ensures
        i == j,
{
    if i < j {
        assert(lex_lt(key(s[i]), key(s[j])));
        lemma_lex_irreflexive(key(s[i]));
    } else if j < i {
        assert(lex_lt(key(s[j]), key(s[i])));
        lemma_lex_irreflexive(key(s[i]));
    }
}

/// Removes position `i` of a sorted list: it stays sorted and loses exactly
/// the address at `i`.
pub fn remove_at(s: &mut Vec<String>, i: usize)
    requires
        sorted(old(s)@),
        i < old(s)@.len(),
    ensures
        sorted(final(s)@),
        final(s)@.len() == old(s)@.len() - 1,
        addrs(final(s)@) == addrs(old(s)@).remove(old(s)@[i as int]@),
{
    let ghost pre = s@;
    s.remove(i);
    proof {
        assert forall|a: int, b: int| 0 <= a < b < s@.len() implies lex_lt(key(#[trigger] s@[a]), key(#[trigger] s@[b])) by {
            let a2 = if a < i { a } else { a + 1 };
            let b2 = if b < i { b } else { b + 1 };
            assert(s@[a] == pre[a2] && s@[b] == pre[b2]);
            assert(lex_lt(key(pre[a2]), key(pre[b2])));
        }
        assert forall|x: Seq<char>| #[trigger] addrs(s@).contains(x) <==> addrs(pre).remove(pre[i as int]@).contains(x) by {
            if contains_addr(s@, x) {
                let k = choose|k: int| 0 <= k < s@.len() && (#[trigger] s@[k])@ == x;
                let k2 = if k < i { k } else { k + 1 };
                assert(s@[k] == pre[k2]);
                if x == pre[i as int]@ {
                    lemma_sorted_unique(pre, k2, i as int);
                }
            }
            if contains_addr(pre, x) && x != pre[i as int]@ {
                let k = choose|k: int| 0 <= k < pre.len() && (#[trigger] pre[k])@ == x;
                if k < i {
                    assert(s@[k] == pre[k]);
                } else {
                    assert(s@[k - 1] == pre[k]);
                }
            }
        }
        assert(addrs(s@) =~= addrs(pre).remove(pre[i as int]@));
    }
}

/// The addresses of `input`, each once, in ascending order.
pub fn sorted_dedup(input: &Vec<String>) -> (r: Vec<String>)
    ensures
        sorted_dedup_of(r@, input@),
{
    let mut r: Vec<String> = Vec::new();
    let mut i: usize = 0;
    while i < input.len()
        invariant
            i <= input@.len(),
            sorted(r@),
            forall|x: Seq<char>| contains_addr(r@, x) <==> contains_addr(input@.take(i as int), x),
        decreases input@.len() - i,
    {
        let ghost before = r@;
        if position(&r, &input[i]).is_none() {
            insert_sorted(&mut r, input[i].clone());
        }
        proof {
            let t = input@.take(i as int + 1);
            assert(t =~= input@.take(i as int).push(input@[i as int]));
            assert forall|x: Seq<char>| contains_addr(r@, x) <==> contains_addr(t, x) by {
                if contains_addr(t, x) {
                    let k = choose|k: int| 0 <= k < t.len() && (#[trigger] t[k])@ == x;
                    if k < i {
                        assert(input@.take(i as int)[k] == t[k]);
                        assert(contains_addr(input@.take(i as int), x));
                    }
                }
                if contains_addr(input@.take(i as int), x) {
                    let k = choose|k: int| 0 <= k < i && (#[trigger] input@.take(i as int)[k])@ == x;
                    assert(t[k] == input@.take(i as int)[k]);
                }
                if x == input@[i as int]@ {
                    assert(t[i as int] == input@[i as int]);
                }
            }
        }
        i = i + 1;
    }
    proof {
        assert(input@.take(input@.len() as int) =~= input@);
        assert(addrs(r@) =~= addrs(input@));
    }
    r
}

} // verus!
