//! What the deployer keeps between invocations.
use vstd::prelude::*;

use crate::msg::{addrs_view, copy_addrs, DeployMsg};

verus! {

/// The entry of `m` for `k`, an absent entry being the empty list.
pub open spec fn entry_of(m: Map<Seq<char>, Seq<Seq<char>>>, k: Seq<char>) -> Seq<Seq<char>> {
    if m.contains_key(k) {
        m[k]
    } else {
        Seq::empty()
    }
}

/// `m` with `id` appended to the entry of `k`.
pub open spec fn append_one(
    m: Map<Seq<char>, Seq<Seq<char>>>,
    k: Seq<char>,
    id: Seq<char>,
) -> Map<Seq<char>, Seq<Seq<char>>> {
    m.insert(k, entry_of(m, k).push(id))
}

/// `m` after a deployment that names the addresses `keys`: `id` is appended
/// once to the entry of each address that `keys` holds, however often it is
/// listed, and every other entry is as it was.
pub open spec fn fan_out(
    m: Map<Seq<char>, Seq<Seq<char>>>,
    keys: Seq<Seq<char>>,
    id: Seq<char>,
) -> Map<Seq<char>, Seq<Seq<char>>> {
    Map::new(
        |k: Seq<char>| m.contains_key(k) || keys.contains(k),
        |k: Seq<char>|
            if keys.contains(k) {
                entry_of(m, k).push(id)
            } else {
                m[k]
            },
    )
}

proof fn lemma_take_next_contains(keys: Seq<Seq<char>>, i: int, k: Seq<char>)
    requires
        0 <= i < keys.len(),
    ensures
        keys.take(i + 1).contains(k) <==> (keys.take(i).contains(k) || k == keys[i]),
{
    let next = keys.take(i + 1);
    let prev = keys.take(i);
    if next.contains(k) {
        let j = choose|j: int| 0 <= j < next.len() && #[trigger] next[j] == k;
        if j < i {
            assert(keys.take(i)[j] == k);
        }
    }
    if prev.contains(k) {
        let j = choose|j: int| 0 <= j < prev.len() && #[trigger] prev[j] == k;
        assert(keys.take(i + 1)[j] == k);
    }
    if k == keys[i] {
        assert(keys.take(i + 1)[i] == k);
    }
}

/// One more listed address: a repeat changes nothing, a new address gets `id`
/// appended to its entry.
pub proof fn lemma_fan_out_next(
    m: Map<Seq<char>, Seq<Seq<char>>>,
    keys: Seq<Seq<char>>,
    i: int,
    id: Seq<char>,
)
    requires
        0 <= i < keys.len(),
    ensures
        keys.take(i).contains(keys[i]) ==> fan_out(m, keys.take(i + 1), id) == fan_out(
            m,
            keys.take(i),
            id,
        ),
        !keys.take(i).contains(keys[i]) ==> fan_out(m, keys.take(i + 1), id) == append_one(
            fan_out(m, keys.take(i), id),
            keys[i],
            id,
        ),
{
    assert forall|k: Seq<char>| #[trigger]
        keys.take(i + 1).contains(k) == (keys.take(i).contains(k) || k == keys[i]) by {
        lemma_take_next_contains(keys, i, k);
    }
    if keys.take(i).contains(keys[i]) {
        assert(fan_out(m, keys.take(i + 1), id) =~= fan_out(m, keys.take(i), id));
    } else {
        assert(fan_out(m, keys.take(i + 1), id) =~= append_one(
            fan_out(m, keys.take(i), id),
            keys[i],
            id,
        ));
    }
}

/// Wallet lists only grow: after a deployment, every address keeps its
/// entry, with its former wallets in front, in order.
pub proof fn lemma_entries_kept(m: Map<Seq<char>, Seq<Seq<char>>>, keys: Seq<Seq<char>>, id: Seq<char>)
    ensures
        forall|k: Seq<char>| #[trigger]
            m.contains_key(k) ==> fan_out(m, keys, id).contains_key(k) && m[k].is_prefix_of(
                fan_out(m, keys, id)[k],
            ),
{
    assert forall|k: Seq<char>| #[trigger] m.contains_key(k) implies fan_out(
        m,
        keys,
        id,
    ).contains_key(k) && m[k].is_prefix_of(fan_out(m, keys, id)[k]) by {
        if keys.contains(k) {
            assert(m[k].push(id).take(m[k].len() as int) =~= m[k]);
        }
    }
}

/// For each member address, the multisig wallets it belongs to, oldest first.
#[derive(Debug)]
pub struct WalletIndex {
    entries: Vec<(String, Vec<String>)>,
}

impl WalletIndex {
    /// No address appears in two entries.
    pub closed spec fn wf(&self) -> bool {
        forall|i: int, j: int|
            0 <= i < j < self.entries@.len() ==> #[trigger] self.entries@[i].0@
                != #[trigger] self.entries@[j].0@
    }

    spec fn has_key_at(&self, i: int, k: Seq<char>) -> bool {
        0 <= i < self.entries@.len() && self.entries@[i].0@ == k
    }

    /// The index as a map from address to its list of wallets.
    pub closed spec fn map(&self) -> Map<Seq<char>, Seq<Seq<char>>> {
        Map::new(
            |k: Seq<char>| exists|i: int| self.has_key_at(i, k),
            |k: Seq<char>|
                {
                    let i = choose|i: int| self.has_key_at(i, k);
                    addrs_view(self.entries@[i].1@)
                },
        )
    }

    proof fn lemma_at(&self, i: int)
        requires
            self.wf(),
            0 <= i < self.entries@.len(),
        ensures
            self.map().contains_key(self.entries@[i].0@),
            self.map()[self.entries@[i].0@] == addrs_view(self.entries@[i].1@),
    {
        let k = self.entries@[i].0@;
        assert(self.has_key_at(i, k));
        let j = choose|j: int| self.has_key_at(j, k);
        if j < i {
            assert(self.entries@[j].0@ != self.entries@[i].0@);
        } else if i < j {
            assert(self.entries@[i].0@ != self.entries@[j].0@);
        }
    }

    /// An empty index.
    pub fn new() -> (r: WalletIndex)
        ensures
            r.wf(),
            r.map() == Map::<Seq<char>, Seq<Seq<char>>>::empty(),
    {
        let r = WalletIndex { entries: Vec::new() };
        assert(r.map() =~= Map::<Seq<char>, Seq<Seq<char>>>::empty());
        r
    }

    fn position(&self, key: &String) -> (r: Option<usize>)
        requires
            self.wf(),
        ensures
            r matches Some(i) ==> i < self.entries@.len() && self.entries@[i as int].0@ == key@,
            r is None ==> !self.map().contains_key(key@),
    {
        let mut i: usize = 0;
        while i < self.entries.len()
            invariant
                i <= self.entries@.len(),
                forall|j: int| 0 <= j < i ==> self.entries@[j].0@ != key@,
            decreases self.entries@.len() - i,
        {
            if self.entries[i].0 == *key {
                return Some(i);
            }
            i = i + 1;
        }
        assert(!self.map().contains_key(key@)) by {
            if exists|j: int| self.has_key_at(j, key@) {
                let j = choose|j: int| self.has_key_at(j, key@);
                assert(self.entries@[j].0@ != key@);
            }
        }
        None
    }

    /// The wallets of `key`, if the index has an entry for it.
    pub fn get(&self, key: &String) -> (r: Option<&Vec<String>>)
        requires
            self.wf(),
        ensures
            r is Some <==> self.map().contains_key(key@),
            r matches Some(v) ==> addrs_view(v@) == self.map()[key@],
    {
        match self.position(key) {
            Some(i) => {
                proof {
                    self.lemma_at(i as int);
                }
                Some(&self.entries[i].1)
            },
            None => None,
        }
    }

    /// The entries of the index, one for each address that has one.
    pub fn entries(&self) -> (r: &Vec<(String, Vec<String>)>)
        requires
            self.wf(),
        ensures
            forall|i: int|
                0 <= i < r@.len() ==> self.map().contains_key(#[trigger] r@[i].0@)
                    && self.map()[r@[i].0@] == addrs_view(r@[i].1@),
            forall|k: Seq<char>| #[trigger]
                self.map().contains_key(k) ==> exists|i: int| 0 <= i < r@.len() && r@[i].0@ == k,
    {
        proof {
            assert forall|i: int| 0 <= i < self.entries@.len() implies self.map().contains_key(
                #[trigger] self.entries@[i].0@,
            ) && self.map()[self.entries@[i].0@] == addrs_view(self.entries@[i].1@) by {
                self.lemma_at(i);
            }
        }
        &self.entries
    }

    /// Appends `id` to the wallets of `key`, creating its entry if absent.
    pub fn append(&mut self, key: &String, id: String)
        requires
            old(self).wf(),
        ensures
            final(self).wf(),
            final(self).map() == append_one(old(self).map(), key@, id@),
    {
        let ghost target = append_one(old(self).map(), key@, id@);
        match self.position(key) {
            Some(i) => {
                proof {
                    self.lemma_at(i as int);
                }
                let mut list = copy_addrs(&self.entries[i].1);
                list.push(id);
                assert(addrs_view(list@) =~= addrs_view(self.entries@[i as int].1@).push(id@));
                let ghost before = *self;
                self.entries.set(i, (key.clone(), list));
                proof {
                    assert forall|a: int, b: int| 0 <= a < b < self.entries@.len()
                        implies #[trigger] self.entries@[a].0@ != #[trigger] self.entries@[b].0@ by {
                        assert(before.entries@[a].0@ != before.entries@[b].0@);
                    }
                    assert forall|k: Seq<char>| #[trigger] target.contains_key(k)
                        implies self.map().contains_key(k) && self.map()[k] == target[k] by {
                        if k == key@ {
                            self.lemma_at(i as int);
                        } else {
                            let a = choose|a: int| before.has_key_at(a, k);
                            before.lemma_at(a);
                            self.lemma_at(a);
                        }
                    }
                    assert forall|k: Seq<char>| #[trigger] self.map().contains_key(k)
                        implies target.contains_key(k) by {
                        let a = choose|a: int| self.has_key_at(a, k);
                        if a != i {
                            before.lemma_at(a);
                        }
                    }
                    assert(self.map() =~= target);
                }
            },
            None => {
                let mut list: Vec<String> = Vec::new();
                list.push(id);
                assert(addrs_view(list@) =~= seq![id@]);
                let ghost before = *self;
                self.entries.push((key.clone(), list));
                proof {
                    let n = before.entries@.len() as int;
                    assert forall|a: int, b: int| 0 <= a < b < self.entries@.len()
                        implies #[trigger] self.entries@[a].0@ != #[trigger] self.entries@[b].0@ by {
                        if b == n {
                            assert(before.has_key_at(a, before.entries@[a].0@));
                        } else {
                            assert(before.entries@[a].0@ != before.entries@[b].0@);
                        }
                    }
                    assert forall|k: Seq<char>| #[trigger] target.contains_key(k)
                        implies self.map().contains_key(k) && self.map()[k] == target[k] by {
                        if k == key@ {
                            self.lemma_at(n);
                        } else {
                            let a = choose|a: int| before.has_key_at(a, k);
                            before.lemma_at(a);
                            self.lemma_at(a);
                        }
                    }
                    assert forall|k: Seq<char>| #[trigger] self.map().contains_key(k)
                        implies target.contains_key(k) by {
                        let a = choose|a: int| self.has_key_at(a, k);
                        if a != n {
                            before.lemma_at(a);
                        }
                    }
                    assert(self.map() =~= target);
                }
            },
        }
    }
}

/// The three records a deployment keeps between invocations.
#[derive(Debug)]
pub struct Store {
    /// The deployment request on file.
    pub pending_request: Option<DeployMsg>,
    /// The address of the registry that the last deployment created.
    pub registry_identity: Option<String>,
    /// The multisig wallets of each member.
    pub wallet_index: WalletIndex,
}

impl Store {
    pub open spec fn wf(&self) -> bool {
        self.wallet_index.wf()
    }

    /// A store with no record.
    pub fn new() -> (r: Store)
        ensures
            r.wf(),
            r.pending_request is None,
            r.registry_identity is None,
            r.wallet_index.map() == Map::<Seq<char>, Seq<Seq<char>>>::empty(),
    {
        Store { pending_request: None, registry_identity: None, wallet_index: WalletIndex::new() }
    }
}

} // verus!
