use vstd::prelude::*;

verus! {

/// Addressing metadata of one bridgeable coin.
#[derive(Clone, Debug, PartialEq, Eq)]
pub struct CoinInfo {
    /// Local-chain address of the token contract.
    pub secret_addr: String,
    /// Code hash that authenticates messages sent to the token contract.
    pub secret_hash: String,
    /// Foreign-chain address of the coin.
    pub matic_addr: String,
}

/// One completed outbound transfer.
#[derive(Clone, Debug, PartialEq, Eq)]
pub struct TransactionInfo {
    /// Foreign-chain recipient.
    pub recipient: String,
    /// Symbol of the coin moved.
    pub coin: String,
    /// Quantity moved.
    pub amount: u128,
}

/// The whole persistent aggregate of the bridge.
#[derive(Clone, Debug, PartialEq, Eq)]
pub struct State {
    /// The one principal allowed to run gated operations.
    pub admin: String,
    /// Registered coins, one entry per symbol.
    pub coins: Vec<(String, CoinInfo)>,
    /// Outbound transfers, in the order they happened.
    pub txs: Vec<TransactionInfo>,
}

/// The symbols of a list of registry entries are pairwise distinct.
pub open spec fn keys_unique(s: Seq<(String, CoinInfo)>) -> bool {
    forall|i: int, j: int|
        0 <= i < s.len() && 0 <= j < s.len() && i != j ==> #[trigger] s[i].0@ != #[trigger] s[j].0@
}

/// `k` is the symbol of some entry of `s`.
pub open spec fn has_key(s: Seq<(String, CoinInfo)>, k: Seq<char>) -> bool {
    exists|i: int| 0 <= i < s.len() && #[trigger] s[i].0@ == k
}

/// The registry as a map from symbol to coin metadata.
pub open spec fn registry_map(s: Seq<(String, CoinInfo)>) -> Map<Seq<char>, CoinInfo> {
    Map::new(
        |k: Seq<char>| has_key(s, k),
        |k: Seq<char>| s[choose|i: int| 0 <= i < s.len() && #[trigger] s[i].0@ == k].1,
    )
}

impl State {
    /// Registry entries have distinct symbols.
    pub open spec fn wf(&self) -> bool {
        keys_unique(self.coins@)
    }

    /// The coin registry, keyed by symbol.
    pub open spec fn registry(&self) -> Map<Seq<char>, CoinInfo> {
        registry_map(self.coins@)
    }

    /// The fresh state of a bridge created by `admin`.
    pub fn new(admin: String) -> (r: State)
        ensures
            r.wf(),
            r.admin == admin,
            r.registry() == Map::<Seq<char>, CoinInfo>::empty(),
            r.txs@.len() == 0,
    {
        let r = State { admin, coins: Vec::new(), txs: Vec::new() };
        assert(r.registry() =~= Map::<Seq<char>, CoinInfo>::empty());
        r
    }

    /// Whether the registry entries have distinct symbols.
    pub fn is_well_formed(&self) -> (r: bool)
        ensures
            r == self.wf(),
    {
        let n = self.coins.len();
        let mut i: usize = 0;
        while i < n
            invariant
                n == self.coins@.len(),
                i <= n,
                forall|a: int, b: int|
                    0 <= a < i && 0 <= b < n && a != b ==> #[trigger] self.coins@[a].0@
                        != #[trigger] self.coins@[b].0@,
            decreases n - i,
        {
            let mut j: usize = 0;
            while j < n
                invariant
                    n == self.coins@.len(),
                    i < n,
                    j <= n,
                    forall|a: int, b: int|
                        0 <= a < i && 0 <= b < n && a != b ==> #[trigger] self.coins@[a].0@
                            != #[trigger] self.coins@[b].0@,
                    forall|b: int| 0 <= b < j && b != i ==> self.coins@[i as int].0@ != #[trigger] self.coins@[b].0@,
                decreases n - j,
            {
                if j != i && self.coins[i].0 == self.coins[j].0 {
                    return false;
                }
                j = j + 1;
            }
            i = i + 1;
        }
        true
    }

    /// Position of the entry registered under `coin`, if any.
    pub fn find_coin(&self, coin: &String) -> (r: Option<usize>)
        requires
            self.wf(),
        ensures
            r.is_none() <==> !self.registry().contains_key(coin@),
            r matches Some(i) ==> i < self.coins@.len() && self.coins@[i as int].0@ == coin@
                && self.registry()[coin@] == self.coins@[i as int].1,
    {
        let mut i: usize = 0;
        while i < self.coins.len()
            invariant
                self.wf(),
                i <= self.coins@.len(),
                forall|j: int| 0 <= j < i ==> #[trigger] self.coins@[j].0@ != coin@,
            decreases self.coins@.len() - i,
        {
            if self.coins[i].0 == *coin {
                proof { lemma_registry_at(self.coins@, i as int); }
                return Some(i);
            }
            i = i + 1;
        }
        None
    }
}

/// With distinct symbols, the map sends the symbol of entry `i` to entry `i`'s data.
pub proof fn lemma_registry_at(s: Seq<(String, CoinInfo)>, i: int)
    requires
        keys_unique(s),
        0 <= i < s.len(),
    ensures
        registry_map(s).contains_key(s[i].0@),
        registry_map(s)[s[i].0@] == s[i].1,
{
    let k = s[i].0@;
    assert(has_key(s, k));
    let j = choose|j: int| 0 <= j < s.len() && #[trigger] s[j].0@ == k;
    assert(s[j].0@ == k);
}

/// Appending an entry under a fresh symbol adds that symbol to the map.
pub proof fn lemma_registry_push(s: Seq<(String, CoinInfo)>, e: (String, CoinInfo))
    requires
        keys_unique(s),
        !has_key(s, e.0@),
    ensures
        keys_unique(s.push(e)),
        registry_map(s.push(e)) =~= registry_map(s).insert(e.0@, e.1),
{
    let t = s.push(e);
    assert forall|i: int, j: int|
        0 <= i < t.len() && 0 <= j < t.len() && i != j implies #[trigger] t[i].0@ != #[trigger] t[j].0@ by {
        if i < s.len() && j < s.len() {
            assert(t[i] == s[i] && t[j] == s[j]);
        } else if i < s.len() {
            assert(t[i] == s[i]);
        } else if j < s.len() {
            assert(t[j] == s[j]);
        }
    }
    assert forall|k: Seq<char>| #[trigger] has_key(t, k) <==> has_key(s, k) || k == e.0@ by {
        if has_key(t, k) {
            let j = choose|j: int| 0 <= j < t.len() && #[trigger] t[j].0@ == k;
            if j < s.len() {
                assert(s[j] == t[j]);
            }
        }
        if has_key(s, k) {
            let j = choose|j: int| 0 <= j < s.len() && #[trigger] s[j].0@ == k;
            assert(t[j] == s[j]);
        }
        if k == e.0@ {
            assert(t[s.len() as int].0@ == k);
        }
    }
    assert forall|k: Seq<char>| #[trigger] registry_map(t).contains_key(k) implies registry_map(t)[k]
        == registry_map(s).insert(e.0@, e.1)[k] by {
        let j = choose|j: int| 0 <= j < t.len() && #[trigger] t[j].0@ == k;
        lemma_registry_at(t, j);
        if j < s.len() {
            assert(s[j] == t[j]);
            lemma_registry_at(s, j);
        }
    }
}

/// Removing the entry at `i` removes its symbol from the map.
pub proof fn lemma_registry_remove(s: Seq<(String, CoinInfo)>, i: int)
    requires
        keys_unique(s),
        0 <= i < s.len(),
    ensures
        keys_unique(s.remove(i)),
        registry_map(s.remove(i)) =~= registry_map(s).remove(s[i].0@),
{
    let t = s.remove(i);
    let key = s[i].0@;
    assert forall|a: int, b: int|
        0 <= a < t.len() && 0 <= b < t.len() && a != b implies #[trigger] t[a].0@ != #[trigger] t[b].0@ by {
        let sa = if a < i { a } else { a + 1 };
        let sb = if b < i { b } else { b + 1 };
        assert(t[a] == s[sa] && t[b] == s[sb]);
    }
    assert forall|k: Seq<char>| #[trigger] has_key(t, k) <==> has_key(s, k) && k != key by {
        if has_key(t, k) {
            let j = choose|j: int| 0 <= j < t.len() && #[trigger] t[j].0@ == k;
            let sj = if j < i { j } else { j + 1 };
            assert(t[j] == s[sj]);
        }
        if has_key(s, k) && k != key {
            let j = choose|j: int| 0 <= j < s.len() && #[trigger] s[j].0@ == k;
            let tj = if j < i { j } else { j - 1 };
            assert(t[tj] == s[j]);
        }
    }
    assert forall|k: Seq<char>| #[trigger] registry_map(t).contains_key(k) implies registry_map(t)[k]
        == registry_map(s).remove(key)[k] by {
        let j = choose|j: int| 0 <= j < t.len() && #[trigger] t[j].0@ == k;
        lemma_registry_at(t, j);
        let sj = if j < i { j } else { j + 1 };
        assert(t[j] == s[sj]);
        lemma_registry_at(s, sj);
    }
}

} // verus!
