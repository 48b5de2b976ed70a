//! Bucket-cap correlation guard: correlated assets share a bucket, and a
//! bucket admits only so many simultaneously open positions.

use vstd::prelude::*;
use vstd::hash_map::StringHashMap;

verus! {

/// The views of a list of strings.
pub open spec fn strs(v: Seq<String>) -> Seq<Seq<char>> {
    v.map_values(|s: String| s@)
}

/// `l` with every occurrence of `s` removed, the rest in order.
pub open spec fn remove_all(l: Seq<Seq<char>>, s: Seq<char>) -> Seq<Seq<char>>
    decreases l.len(),
{
    if l.len() == 0 {
        l
    } else {
        let rest = remove_all(l.drop_last(), s);
        if l.last() == s {
            rest
        } else {
            rest.push(l.last())
        }
    }
}

/// The open lists of the buckets after a position on `s` opens: `s` joins
/// the open list of its bucket unless it is there already. A symbol
/// without a bucket, or whose bucket is unknown, changes nothing.
pub open spec fn opened(
    bucket_of: Map<Seq<char>, Seq<char>>,
    buckets: Map<Seq<char>, (usize, Seq<Seq<char>>)>,
    s: Seq<char>,
) -> Map<Seq<char>, (usize, Seq<Seq<char>>)> {
    if bucket_of.contains_key(s) && buckets.contains_key(bucket_of[s]) && !buckets[bucket_of[
        s
    ]].1.contains(s) {
        let b = bucket_of[s];
        buckets.insert(b, (buckets[b].0, buckets[b].1.push(s)))
    } else {
        buckets
    }
}

/// The open lists of the buckets after the position on `s` closes: `s`
/// leaves the open list of its bucket.
pub open spec fn closed(
    bucket_of: Map<Seq<char>, Seq<char>>,
    buckets: Map<Seq<char>, (usize, Seq<Seq<char>>)>,
    s: Seq<char>,
) -> Map<Seq<char>, (usize, Seq<Seq<char>>)> {
    if bucket_of.contains_key(s) && buckets.contains_key(bucket_of[s]) {
        let b = bucket_of[s];
        buckets.insert(b, (buckets[b].0, remove_all(buckets[b].1, s)))
    } else {
        buckets
    }
}

/// Whether a position on `s` may open: a symbol with a known bucket may
/// open while that bucket holds fewer open positions than its cap; any
/// other symbol is unconstrained.
pub open spec fn may_open(
    bucket_of: Map<Seq<char>, Seq<char>>,
    buckets: Map<Seq<char>, (usize, Seq<Seq<char>>)>,
    s: Seq<char>,
) -> bool {
    if bucket_of.contains_key(s) && buckets.contains_key(bucket_of[s]) {
        buckets[bucket_of[s]].1.len() < buckets[bucket_of[s]].0
    } else {
        true
    }
}


proof fn lemma_remove_all(l: Seq<Seq<char>>, s: Seq<char>)
    ensures
        forall|x: Seq<char>| #[trigger]
            remove_all(l, s).contains(x) <==> (l.contains(x) && x != s),
        l.no_duplicates() ==> remove_all(l, s).no_duplicates(),
        !l.contains(s) ==> remove_all(l, s) == l,
    decreases l.len(),
{
    if l.len() > 0 {
        let init = l.drop_last();
        lemma_remove_all(init, s);
        assert(l == init.push(l.last()));
        assert forall|x: Seq<char>| #[trigger] l.contains(x) <==> (init.contains(x) || x == l.last()) by {
            if l.contains(x) {
                let j = choose|j: int| 0 <= j < l.len() && l[j] == x;
                if j < l.len() - 1 {
                    assert(init[j] == x);
                }
            }
            if init.contains(x) {
                let j = choose|j: int| 0 <= j < init.len() && init[j] == x;
                assert(l[j] == x);
            }
            if x == l.last() {
                assert(l[l.len() - 1] == x);
            }
        }
        let rest = remove_all(init, s);
        if l.last() != s {
            assert forall|x: Seq<char>| #[trigger]
                rest.push(l.last()).contains(x) <==> (rest.contains(x) || x == l.last()) by {
                if rest.push(l.last()).contains(x) {
                    let j = choose|j: int| 0 <= j < rest.len() + 1 && rest.push(l.last())[j] == x;
                    if j < rest.len() {
                        assert(rest[j] == x);
                    }
                }
                if rest.contains(x) {
                    let j = choose|j: int| 0 <= j < rest.len() && rest[j] == x;
                    assert(rest.push(l.last())[j] == x);
                }
                if x == l.last() {
                    assert(rest.push(l.last())[rest.len() as int] == x);
                }
            }
            if l.no_duplicates() {
                assert(init.no_duplicates()) by {
                    assert forall|i: int, j: int|
                        0 <= i < init.len() && 0 <= j < init.len() && i != j implies init[i]
                        != init[j] by {
                        assert(init[i] == l[i] && init[j] == l[j]);
                    }
                }
                assert(!init.contains(l.last())) by {
                    if init.contains(l.last()) {
                        let j = choose|j: int| 0 <= j < init.len() && init[j] == l.last();
                        assert(l[j] == l[l.len() - 1]);
                    }
                }
                assert(!rest.contains(l.last()));
                let r = rest.push(l.last());
                assert forall|i: int, j: int|
                    0 <= i < r.len() && 0 <= j < r.len() && i != j implies r[i] != r[j] by {
                    if i < rest.len() && j < rest.len() {
                        assert(r[i] == rest[i] && r[j] == rest[j]);
                    } else if i < rest.len() {
                        assert(r[i] == rest[i]);
                        assert(rest.contains(rest[i]));
                    } else if j < rest.len() {
                        assert(r[j] == rest[j]);
                        assert(rest.contains(rest[j]));
                    }
                }
            }
        } else {
            if l.no_duplicates() {
                assert(init.no_duplicates()) by {
                    assert forall|i: int, j: int|
                        0 <= i < init.len() && 0 <= j < init.len() && i != j implies init[i]
                        != init[j] by {
                        assert(init[i] == l[i] && init[j] == l[j]);
                    }
                }
            }
            if !l.contains(s) {
                assert(l[l.len() - 1] == s);
            }
        }
    }
}

proof fn lemma_strs_push(v: Seq<String>, x: String)
    ensures
        strs(v.push(x)) == strs(v).push(x@),
{
    assert(strs(v.push(x)) =~= strs(v).push(x@));
}

/// Closing a position undoes opening it: when `s` is not open yet, opening
/// and then closing a position on `s` leaves every bucket as it was.
pub proof fn law_close_undoes_open(
    bucket_of: Map<Seq<char>, Seq<char>>,
    buckets: Map<Seq<char>, (usize, Seq<Seq<char>>)>,
    s: Seq<char>,
)
    requires
        !(bucket_of.contains_key(s) && buckets.contains_key(bucket_of[s]) && buckets[bucket_of[
            s
        ]].1.contains(s)),
    ensures
        closed(bucket_of, opened(bucket_of, buckets, s), s) == buckets,
{
    if bucket_of.contains_key(s) && buckets.contains_key(bucket_of[s]) {
        let b = bucket_of[s];
        let l = buckets[b].1;
        lemma_remove_all(l, s);
        lemma_remove_all(l.push(s), s);
        assert(l.push(s).drop_last() == l);
        assert(remove_all(l.push(s), s) == remove_all(l, s));
        assert(closed(bucket_of, opened(bucket_of, buckets, s), s) =~= buckets);
    }
}

/// Correlated assets are never open beyond their bucket's cap together:
/// once a bucket holds as many open positions as its cap, every symbol of
/// that bucket is refused, whichever of them is already open.
pub proof fn law_full_bucket_refuses_every_member(
    bucket_of: Map<Seq<char>, Seq<char>>,
    buckets: Map<Seq<char>, (usize, Seq<Seq<char>>)>,
    b: Seq<char>,
    s: Seq<char>,
)
    requires
        buckets.contains_key(b),
        buckets[b].1.len() >= buckets[b].0,
        bucket_of.contains_key(s),
        bucket_of[s] == b,
    ensures
        !may_open(bucket_of, buckets, s),
{
}

/// A bucket with room admits every one of its symbols, including one that
/// is already open in it: only the count of open positions against the
/// cap decides.
pub proof fn law_bucket_with_room_admits_every_member(
    bucket_of: Map<Seq<char>, Seq<char>>,
    buckets: Map<Seq<char>, (usize, Seq<Seq<char>>)>,
    s: Seq<char>,
)
    requires
        bucket_of.contains_key(s),
        buckets.contains_key(bucket_of[s]),
        buckets[bucket_of[s]].1.len() < buckets[bucket_of[s]].0,
    ensures
        may_open(bucket_of, buckets, s),
        may_open(bucket_of, opened(bucket_of, buckets, s), s) <==> (
        opened(bucket_of, buckets, s)[bucket_of[s]].1.len() < buckets[bucket_of[s]].0),
{
}

/// A symbol without a bucket is never held back by the guard.
pub proof fn law_unbucketed_symbols_unconstrained(
    bucket_of: Map<Seq<char>, Seq<char>>,
    buckets: Map<Seq<char>, (usize, Seq<Seq<char>>)>,
    s: Seq<char>,
)
    requires
        !bucket_of.contains_key(s),
    ensures
        may_open(bucket_of, buckets, s),
        opened(bucket_of, buckets, s) == buckets,
        closed(bucket_of, buckets, s) == buckets,
{
}


/// Default correlation buckets of the Mantle DeFi assets: the majors
/// (BTC-correlated), the DeFi blue chips, and the stablecoins.
pub open spec fn default_bucket_of() -> Map<Seq<char>, Seq<char>> {
    map![
        "WBTC"@ => "major"@, "WETH"@ => "major"@, "MNT"@ => "major"@,
        "UNI"@ => "defi"@, "AAVE"@ => "defi"@, "LINK"@ => "defi"@,
        "USDT"@ => "stable"@, "USDC"@ => "stable"@, "DAI"@ => "stable"@,
    ]
}

/// Default caps: one open major, one open DeFi blue chip, three open
/// stablecoins (they are hedges); nothing open yet.
pub open spec fn default_buckets() -> Map<Seq<char>, (usize, Seq<Seq<char>>)> {
    map![
        "major"@ => (1usize, Seq::<Seq<char>>::empty()),
        "defi"@ => (1usize, Seq::<Seq<char>>::empty()),
        "stable"@ => (3usize, Seq::<Seq<char>>::empty()),
    ]
}

/// Prevents simultaneous exposure to correlated assets.
pub struct BucketCapGuard {
    /// bucket name -> (maximum simultaneous positions, currently open symbols)
    buckets: StringHashMap<(usize, Vec<String>)>,
    /// symbol -> bucket name
    symbol_map: StringHashMap<String>,
}

impl BucketCapGuard {

    /// The guard with the default buckets and caps, nothing open.
    pub fn new() -> (g: Self)
        ensures
            g.bucket_of() == default_bucket_of(),
            g.buckets() == default_buckets(),
            g.consistent(),
    {
        let mut buckets: StringHashMap<(usize, Vec<String>)> = StringHashMap::new();
        let mut symbol_map: StringHashMap<String> = StringHashMap::new();
        buckets.insert(String::from_str("major"), (1, Vec::new()));
        symbol_map.insert(String::from_str("WBTC"), String::from_str("major"));
        symbol_map.insert(String::from_str("WETH"), String::from_str("major"));
        symbol_map.insert(String::from_str("MNT"), String::from_str("major"));
        buckets.insert(String::from_str("defi"), (1, Vec::new()));
        symbol_map.insert(String::from_str("UNI"), String::from_str("defi"));
        symbol_map.insert(String::from_str("AAVE"), String::from_str("defi"));
        symbol_map.insert(String::from_str("LINK"), String::from_str("defi"));
        buckets.insert(String::from_str("stable"), (3, Vec::new()));
        symbol_map.insert(String::from_str("USDT"), String::from_str("stable"));
        symbol_map.insert(String::from_str("USDC"), String::from_str("stable"));
        symbol_map.insert(String::from_str("DAI"), String::from_str("stable"));
        let g = BucketCapGuard { buckets, symbol_map };
        proof {
            assert(strs(Seq::<String>::empty()) =~= Seq::<Seq<char>>::empty());
            assert(g.bucket_of() =~= default_bucket_of());
            assert(g.buckets() =~= default_buckets());
            g.lemma_consistent();
        }
        g
    }
    /// The bucket of each known symbol.
    pub closed spec fn bucket_of(&self) -> Map<Seq<char>, Seq<char>> {
        self.symbol_map@.map_values(|b: String| b@)
    }

    /// Each bucket's cap and the symbols currently open in it, in opening order.
    pub closed spec fn buckets(&self) -> Map<Seq<char>, (usize, Seq<Seq<char>>)> {
        self.buckets@.map_values(|e: (usize, Vec<String>)| (e.0, strs(e.1@)))
    }

    /// No symbol is open twice, and an open symbol belongs to the bucket it is open in.
    #[verifier::type_invariant]
    closed spec fn well_formed(&self) -> bool {
        forall|b: Seq<char>|
            #![trigger self.buckets@[b]]
            self.buckets@.contains_key(b) ==> {
                let l = strs(self.buckets@[b].1@);
                &&& l.no_duplicates()
                &&& forall|j: int|
                    0 <= j < l.len() ==> self.bucket_of().contains_key(#[trigger] l[j])
                        && self.bucket_of()[l[j]] == b
            }
    }

    /// The well-formedness above, as seen from the views.
    pub open spec fn consistent(&self) -> bool {
        forall|b: Seq<char>|
            #![trigger self.buckets()[b]]
            self.buckets().contains_key(b) ==> {
                let l = self.buckets()[b].1;
                &&& l.no_duplicates()
                &&& forall|j: int|
                    0 <= j < l.len() ==> self.bucket_of().contains_key(#[trigger] l[j])
                        && self.bucket_of()[l[j]] == b
            }
    }

    proof fn lemma_consistent(&self)
        requires
            self.well_formed(),
        ensures
            self.consistent(),
    {
        assert forall|b: Seq<char>| #[trigger]
            self.buckets().contains_key(b) implies {
                let l = self.buckets()[b].1;
                &&& l.no_duplicates()
                &&& forall|j: int|
                    0 <= j < l.len() ==> self.bucket_of().contains_key(#[trigger] l[j])
                        && self.bucket_of()[l[j]] == b
            } by {
            assert(self.buckets@.contains_key(b));
            assert(self.buckets()[b].1 == strs(self.buckets@[b].1@));
        }
    }

    /// Whether opening a position on `symbol` stays within its bucket's cap.
    pub fn can_open(&self, symbol: &str) -> (ok: bool)
        ensures
            ok == may_open(self.bucket_of(), self.buckets(), symbol@),
            self.consistent(),
    {
        proof {
            use_type_invariant(self);
            self.lemma_consistent();
        }
        match self.symbol_map.get(symbol) {
            Some(bucket_name) => {
                match self.buckets.get(bucket_name.as_str()) {
                    Some(entry) => {
                        assert(self.buckets()[bucket_name@] == (entry.0, strs(entry.1@)));
                        entry.1.len() < entry.0
                    },
                    None => true,
                }
            },
            None => true,
        }
    }

    /// Register an opened position on `symbol`.
    pub fn register_open(&mut self, symbol: &str)
        ensures
            final(self).bucket_of() == old(self).bucket_of(),
            final(self).buckets() == opened(old(self).bucket_of(), old(self).buckets(), symbol@),
            final(self).consistent(),
    {
        proof {
            use_type_invariant(&*self);
        }
        let bucket_name = match self.symbol_map.get(symbol) {
            Some(b) => b.clone(),
            None => {
                proof {
                    self.lemma_consistent();
                }
                return ;
            },
        };
        let sym = symbol.to_owned();
        let (cap, new_list, found) = match self.buckets.get(bucket_name.as_str()) {
            Some(entry) => {
                let mut new_list: Vec<String> = Vec::new();
                let mut found = false;
                let mut i: usize = 0;
                while i < entry.1.len()
                    invariant
                        0 <= i <= entry.1.len(),
                        new_list@ == entry.1@.take(i as int),
                        found == strs(entry.1@).take(i as int).contains(sym@),
                    decreases entry.1.len() - i,
                {
                    proof {
                        assert(strs(entry.1@).take(i + 1) =~= strs(entry.1@).take(i as int).push(
                            entry.1@[i as int]@,
                        ));
                        assert forall|x: Seq<char>|
                            strs(entry.1@).take(i + 1).contains(x) <==> (strs(entry.1@).take(
                                i as int,
                            ).contains(x) || x == entry.1@[i as int]@) by {
                            let t = strs(entry.1@).take(i as int);
                            let u = strs(entry.1@).take(i + 1);
                            if u.contains(x) {
                                let j = choose|j: int| 0 <= j < u.len() && u[j] == x;
                                if j < i {
                                    assert(t[j] == x);
                                }
                            }
                            if t.contains(x) {
                                let j = choose|j: int| 0 <= j < t.len() && t[j] == x;
                                assert(u[j] == x);
                            }
                            if x == entry.1@[i as int]@ {
                                assert(u[i as int] == x);
                            }
                        }
                    }
                    let item = entry.1[i].clone();
                    if item == sym {
                        found = true;
                    }
                    new_list.push(item);
                    i = i + 1;
                    proof {
                        assert(new_list@ =~= entry.1@.take(i as int));
                    }
                }
                proof {
                    assert(entry.1@.take(entry.1@.len() as int) =~= entry.1@);
                    assert(strs(entry.1@).take(entry.1@.len() as int) =~= strs(entry.1@));
                }
                (entry.0, new_list, found)
            },
            None => {
                proof {
                    self.lemma_consistent();
                }
                return ;
            },
        };
        if found {
            proof {
                self.lemma_consistent();
            }
            return ;
        }
        let ghost old_list = new_list@;
        let ghost b = bucket_name@;
        let ghost gsym = sym;
        let mut new_list = new_list;
        new_list.push(sym);
        proof {
            lemma_strs_push(old_list, gsym);
            let l = strs(old_list);
            assert(!l.contains(symbol@));
            let nl = strs(new_list@);
            assert(nl == l.push(symbol@));
            assert(self.bucket_of()[symbol@] == b);
            assert(self.buckets@[b].1@ == old_list);
            assert forall|i: int, j: int|
                0 <= i < nl.len() && 0 <= j < nl.len() && i != j implies nl[i] != nl[j] by {
                if i < l.len() && j < l.len() {
                    assert(nl[i] == l[i] && nl[j] == l[j]);
                } else if i < l.len() {
                    assert(nl[i] == l[i]);
                    assert(l.contains(l[i]));
                } else if j < l.len() {
                    assert(nl[j] == l[j]);
                    assert(l.contains(l[j]));
                }
            }
            assert forall|j: int| 0 <= j < nl.len() implies self.bucket_of().contains_key(
                #[trigger] nl[j],
            ) && self.bucket_of()[nl[j]] == b by {
                if j < l.len() {
                    assert(nl[j] == l[j]);
                }
            }
        }
        let mut buckets = StringHashMap::new();
        std::mem::swap(&mut buckets, &mut self.buckets);
        buckets.insert(bucket_name, (cap, new_list));
        self.buckets = buckets;
        proof {
            assert(self.buckets() =~= opened(old(self).bucket_of(), old(self).buckets(), symbol@));
            use_type_invariant(&*self);
            self.lemma_consistent();
        }
    }

    /// Unregister the closed position on `symbol`.
    pub fn register_close(&mut self, symbol: &str)
        ensures
            final(self).bucket_of() == old(self).bucket_of(),
            final(self).buckets() == closed(old(self).bucket_of(), old(self).buckets(), symbol@),
            final(self).consistent(),
    {
        proof {
            use_type_invariant(&*self);
        }
        let bucket_name = match self.symbol_map.get(symbol) {
            Some(b) => b.clone(),
            None => {
                proof {
                    self.lemma_consistent();
                }
                return ;
            },
        };
        let sym = symbol.to_owned();
        let (cap, new_list) = match self.buckets.get(bucket_name.as_str()) {
            Some(entry) => {
                let mut new_list: Vec<String> = Vec::new();
                let mut i: usize = 0;
                while i < entry.1.len()
                    invariant
                        0 <= i <= entry.1.len(),
                        strs(new_list@) == remove_all(strs(entry.1@).take(i as int), sym@),
                    decreases entry.1.len() - i,
                {
                    proof {
                        assert(strs(entry.1@).take(i + 1).drop_last() =~= strs(entry.1@).take(
                            i as int,
                        ));
                    }
                    let item = entry.1[i].clone();
                    if item != sym {
                        proof {
                            lemma_strs_push(new_list@, item);
                        }
                        new_list.push(item);
                    }
                    i = i + 1;
                }
                proof {
                    assert(strs(entry.1@).take(entry.1@.len() as int) =~= strs(entry.1@));
                }
                (entry.0, new_list)
            },
            None => {
                proof {
                    self.lemma_consistent();
                }
                return ;
            },
        };
        proof {
            let b = bucket_name@;
            let l = strs(self.buckets@[b].1@);
            lemma_remove_all(l, symbol@);
            let nl = strs(new_list@);
            assert forall|j: int| 0 <= j < nl.len() implies self.bucket_of().contains_key(
                #[trigger] nl[j],
            ) && self.bucket_of()[nl[j]] == b by {
                assert(nl.contains(nl[j]));
                assert(l.contains(nl[j]));
                let k = choose|k: int| 0 <= k < l.len() && l[k] == nl[j];
                assert(self.bucket_of().contains_key(l[k]));
            }
        }
        let mut buckets = StringHashMap::new();
        std::mem::swap(&mut buckets, &mut self.buckets);
        buckets.insert(bucket_name, (cap, new_list));
        self.buckets = buckets;
        proof {
            assert(self.buckets() =~= closed(old(self).bucket_of(), old(self).buckets(), symbol@));
            use_type_invariant(&*self);
            self.lemma_consistent();
        }
    }
}

impl Default for BucketCapGuard {
    /// The guard with the default buckets and caps.
    fn default() -> (g: Self)
        ensures
            g.bucket_of() == default_bucket_of(),
            g.buckets() == default_buckets(),
    {
        BucketCapGuard::new()
    }
}

} // verus!
