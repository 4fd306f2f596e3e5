//! Coins and bundles of coins.
//!
//! A bundle is a list of coins. Two bundles are the same funds when each coin
//! occurs in one as often as in the other, whatever the order.

use vstd::prelude::*;

verus! {

broadcast use vstd::seq_lib::group_to_multiset_ensures;

/// An amount of one denomination.
#[derive(Clone, Debug, PartialEq, Eq)]
pub struct Coin {
    pub denom: String,
    pub amount: u128,
}

/// What a coin stands for: the denomination's characters and the amount.
pub struct CoinView {
    pub denom: Seq<char>,
    pub amount: nat,
}

impl View for Coin {
    type V = CoinView;

    open spec fn view(&self) -> CoinView {
        CoinView { denom: self.denom@, amount: self.amount as nat }
    }
}

/// The coins of a bundle, in the order in which they were given.
pub open spec fn bundle_view(bundle: Seq<Coin>) -> Seq<CoinView> {
    bundle.map_values(|c: Coin| c@)
}

/// Two bundles hold the same funds: the same coins, each as often, in any order.
pub open spec fn same_funds(a: Seq<CoinView>, b: Seq<CoinView>) -> bool {
    a.to_multiset() =~= b.to_multiset()
}

impl Coin {
    /// A coin of `amount` units of `denom`.
    pub fn new(amount: u128, denom: &str) -> (coin: Coin)
        ensures
            coin@ == (CoinView { denom: denom@, amount: amount as nat }),
    {
        Coin { denom: denom.to_string(), amount }
    }

    /// Whether two coins have the same denomination and the same amount.
    pub fn same_as(&self, other: &Coin) -> (same: bool)
        ensures
            same == (self@ == other@),
    {
        let same_denom: bool = self.denom == other.denom;
        proof {
            if self@ == other@ {
                assert(self.denom@ == other.denom@);
            }
        }
        same_denom && self.amount == other.amount
    }

    /// A copy of the coin.
    pub fn duplicate(&self) -> (copy: Coin)
        ensures
            copy@ == self@,
    {
        Coin { denom: self.denom.clone(), amount: self.amount }
    }
}

/// How often `coin` occurs in `bundle`.
pub fn occurrences(bundle: &Vec<Coin>, coin: &Coin) -> (n: usize)
    ensures
        n == bundle_view(bundle@).to_multiset().count(coin@),
{
    let mut n: usize = 0;
    let mut i: usize = 0;
    while i < bundle.len()
        invariant
            0 <= i <= bundle.len(),
            n <= i,
            n == bundle_view(bundle@).take(i as int).to_multiset().count(coin@),
        decreases bundle.len() - i,
    {
        proof {
            let all = bundle_view(bundle@);
            assert(all.take(i + 1) =~= all.take(i as int).push(all[i as int]));
        }
        if bundle[i].same_as(coin) {
            n = n + 1;
        }
        i = i + 1;
    }
    proof {
        let all = bundle_view(bundle@);
        assert(all.take(i as int) =~= all);
    }
    n
}

/// Every coin of `a` occurs in `b` as often as it does in `a`.
pub open spec fn counted_in(a: Seq<CoinView>, b: Seq<CoinView>) -> bool {
    forall|i: int|
        0 <= i < a.len() ==> a.to_multiset().count(#[trigger] a[i]) == b.to_multiset().count(a[i])
}

/// Two bundles hold the same funds when each counts its coins as the other does.
pub proof fn lemma_same_funds_by_counting(a: Seq<CoinView>, b: Seq<CoinView>)
    ensures
        same_funds(a, b) <==> counted_in(a, b) && counted_in(b, a),
{
    if counted_in(a, b) && counted_in(b, a) {
        assert forall|c: CoinView| a.to_multiset().count(c) == b.to_multiset().count(c) by {
            if a.contains(c) {
                let i = choose|i: int| 0 <= i < a.len() && a[i] == c;
                assert(a.to_multiset().count(a[i]) == b.to_multiset().count(a[i]));
            } else if b.contains(c) {
                let j = choose|j: int| 0 <= j < b.len() && b[j] == c;
                assert(b.to_multiset().count(b[j]) == a.to_multiset().count(b[j]));
            }
        }
        assert(a.to_multiset() =~= b.to_multiset());
    }
}

fn counted_in_bundle(a: &Vec<Coin>, b: &Vec<Coin>) -> (r: bool)
    ensures
        r == counted_in(bundle_view(a@), bundle_view(b@)),
{
    let mut i: usize = 0;
    while i < a.len()
        invariant
            0 <= i <= a.len(),
            forall|k: int|
                0 <= k < i ==> bundle_view(a@).to_multiset().count(#[trigger] bundle_view(a@)[k])
                    == bundle_view(b@).to_multiset().count(bundle_view(a@)[k]),
        decreases a.len() - i,
    {
        let in_a: usize = occurrences(a, &a[i]);
        let in_b: usize = occurrences(b, &a[i]);
        if in_a != in_b {
            assert(bundle_view(a@)[i as int] == a[i as int]@);
            return false;
        }
        assert(bundle_view(a@)[i as int] == a[i as int]@);
        i = i + 1;
    }
    true
}

/// Whether two bundles hold the same funds, in whatever order their coins stand.
pub fn bundles_match(a: &Vec<Coin>, b: &Vec<Coin>) -> (same: bool)
    ensures
        same == same_funds(bundle_view(a@), bundle_view(b@)),
{
    proof {
        lemma_same_funds_by_counting(bundle_view(a@), bundle_view(b@));
    }
    counted_in_bundle(a, b) && counted_in_bundle(b, a)
}

/// A copy of the coins of `bundle` from position `from` up to, not including, `to`.
pub fn copy_range(bundle: &Vec<Coin>, from: usize, to: usize) -> (copy: Vec<Coin>)
    requires
        from <= to <= bundle.len(),
    ensures
        bundle_view(copy@) == bundle_view(bundle@).subrange(from as int, to as int),
{
    let mut copy: Vec<Coin> = Vec::new();
    let mut i: usize = from;
    while i < to
        invariant
            from <= i <= to <= bundle.len(),
            copy.len() == i - from,
            forall|k: int| 0 <= k < i - from ==> (#[trigger] copy[k])@ == bundle[from + k]@,
        decreases to - i,
    {
        copy.push(bundle[i].duplicate());
        i = i + 1;
    }
    assert(bundle_view(copy@) =~= bundle_view(bundle@).subrange(from as int, to as int));
    copy
}

/// A copy of a bundle, coin by coin.
pub fn copy_bundle(bundle: &Vec<Coin>) -> (copy: Vec<Coin>)
    ensures
        bundle_view(copy@) == bundle_view(bundle@),
{
    let copy: Vec<Coin> = copy_range(bundle, 0, bundle.len());
    assert(bundle_view(bundle@).subrange(0, bundle.len() as int) =~= bundle_view(bundle@));
    copy
}

/// Holding the same funds is an equivalence: every bundle holds the funds it
/// holds, and the relation can be turned round and chained.
pub proof fn law_same_funds_is_an_equivalence(
    a: Seq<CoinView>,
    b: Seq<CoinView>,
    c: Seq<CoinView>,
)
    ensures
        same_funds(a, a),
        same_funds(a, b) ==> same_funds(b, a),
        same_funds(a, b) && same_funds(b, c) ==> same_funds(a, c),
        same_funds(a, b) ==> a.len() == b.len(),
{
    if same_funds(a, b) {
        assert(a.len() == a.to_multiset().len());
        assert(b.len() == b.to_multiset().len());
    }
}

/// The order of the coins does not count: two bundles put together one way
/// round hold the same funds as put together the other way round.
pub proof fn law_same_funds_in_any_order(a: Seq<CoinView>, b: Seq<CoinView>)
    ensures
        same_funds(a + b, b + a),
{
    vstd::seq_lib::lemma_multiset_commutative(a, b);
    vstd::seq_lib::lemma_multiset_commutative(b, a);
    assert(a.to_multiset().add(b.to_multiset()) =~= b.to_multiset().add(a.to_multiset()));
}

/// Where no coin stands twice in either bundle, the bundles hold the same
/// funds exactly when each coin of one is a coin of the other.
pub proof fn law_distinct_coins_match_as_sets(a: Seq<CoinView>, b: Seq<CoinView>)
    requires
        a.no_duplicates(),
        b.no_duplicates(),
    ensures
        same_funds(a, b) <==> (forall|coin: CoinView| a.contains(coin) <==> b.contains(coin)),
{
    a.lemma_multiset_has_no_duplicates();
    b.lemma_multiset_has_no_duplicates();
    if forall|coin: CoinView| a.contains(coin) <==> b.contains(coin) {
        assert forall|coin: CoinView| a.to_multiset().count(coin) == b.to_multiset().count(
            coin,
        ) by {
            if a.contains(coin) {
                assert(b.contains(coin));
                assert(a.to_multiset().contains(coin));
                assert(b.to_multiset().contains(coin));
            } else {
                assert(!b.contains(coin));
            }
        }
        assert(a.to_multiset() =~= b.to_multiset());
    }
    if same_funds(a, b) {
        assert forall|coin: CoinView| a.contains(coin) <==> b.contains(coin) by {
            assert(a.to_multiset().count(coin) == b.to_multiset().count(coin));
        }
    }
}

} // verus!
