//! The escrow record, the value it holds, and the ledger of all escrows.

use vstd::prelude::*;

use crate::keys::{key_lt, lemma_lex_irreflexive, lemma_lex_total, lemma_lex_transitive, lex_lt, strictly_ascending, key_of};

verus! {

/// An amount of one native denomination.
#[derive(Debug, Clone)]
pub struct Coin {
    pub denom: String,
    pub amount: u128,
}

/// An amount of a token, with the address of its contract.
#[derive(Debug, Clone)]
pub struct Cw20CoinVerified {
    pub address: String,
    pub amount: u128,
}

/// A bundle of value: native coins and token amounts.
#[derive(Debug, Clone)]
pub struct GenericBalance {
    pub native: Vec<Coin>,
    pub cw20: Vec<Cw20CoinVerified>,
}

/// One escrow. `coin_amount` and `token_amount` are the two sides of the
/// trade; `is_coin_escrow` tells which side the owner deposited.
#[derive(Debug, Clone)]
pub struct Escrow {
    pub id: u32,
    pub owner: String,
    pub coin_amount: u128,
    pub token_amount: u128,
    pub is_coin_escrow: bool,
    pub is_complete: bool,
    pub is_cancelled: bool,
    pub balance: GenericBalance,
}

impl Coin {
    /// A copy of the coin.
    pub fn duplicate(&self) -> (r: Coin)
        ensures
            r == *self,
    {
        Coin { denom: self.denom.clone(), amount: self.amount }
    }
}

/// `rec` with its status flags replaced.
pub open spec fn with_status(rec: Escrow, complete: bool, cancelled: bool) -> Escrow {
    Escrow { is_complete: complete, is_cancelled: cancelled, ..rec }
}

/// A copy of a list of coins.
pub fn copy_coins(v: &Vec<Coin>) -> (r: Vec<Coin>)
    ensures
        r@ == v@,
{
    let mut r: Vec<Coin> = Vec::new();
    let mut i: usize = 0;
    while i < v.len()
        invariant
            i <= v.len(),
            r@ == v@.subrange(0, i as int),
        decreases v.len() - i,
    {
        r.push(v[i].duplicate());
        i = i + 1;
    }
    assert(r@ =~= v@);
    r
}

/// The ledger: every escrow, stored under the decimal text of its id, with
/// the keys kept in ascending lexical order.
pub struct EscrowStore {
    keys: Vec<String>,
    records: Vec<Escrow>,
}

impl EscrowStore {
    /// The keys, in stored order.
    pub closed spec fn key_seq(&self) -> Seq<Seq<char>> {
        self.keys@.map_values(|k: String| k@)
    }

    /// Keys are ascending, and each record sits under its own id's key.
    pub closed spec fn wf(&self) -> bool {
        &&& self.keys.len() == self.records.len()
        &&& strictly_ascending(self.key_seq())
        &&& forall|i: int| 0 <= i < self.records.len() ==> key_of(#[trigger] self.records@[i].id) == self.keys@[i]@
    }

    /// The ledger as a map from key to record.
    pub closed spec fn view(&self) -> Map<Seq<char>, Escrow> {
        Map::new(
            |k: Seq<char>| exists|i: int| 0 <= i < self.keys.len() && #[trigger] self.keys@[i]@ == k,
            |k: Seq<char>| self.records@[self.index_of_key(k)],
        )
    }

    /// A position where `k` is stored.
    closed spec fn index_of_key(&self, k: Seq<char>) -> int {
        choose|i: int| 0 <= i < self.keys.len() && #[trigger] self.keys@[i]@ == k
    }

    /// The record at position `i` is what the view holds under its key.
    proof fn lemma_view_at(&self, i: int)
        requires
            self.wf(),
            0 <= i < self.keys.len(),
        ensures
            self.view().contains_key(self.keys@[i]@),
            self.view()[self.keys@[i]@] == self.records@[i],
    {
        let k = self.keys@[i]@;
        assert(self.keys@[i]@ == k);
        let j = self.index_of_key(k);
        if j != i {
            assert(self.key_seq()[i] == k);
            assert(self.key_seq()[j] == k);
            if i < j {
                assert(lex_lt(self.key_seq()[i], self.key_seq()[j]));
            } else {
                assert(lex_lt(self.key_seq()[j], self.key_seq()[i]));
            }
            lemma_lex_irreflexive(k);
        }
        assert(j == i);
        assert(self.view().contains_key(k));
        assert(self.view()[k] == self.records@[j]);
    }

    /// An empty ledger.
    pub fn new() -> (r: EscrowStore)
        ensures
            r.wf(),
            r.view() == Map::<Seq<char>, Escrow>::empty(),
    {
        let r = EscrowStore { keys: Vec::new(), records: Vec::new() };
        assert(r.view() =~= Map::<Seq<char>, Escrow>::empty());
        r
    }

    /// Where the record under `key` is stored, if there is one.
    pub fn find(&self, key: &String) -> (r: Option<usize>)
        requires
            self.wf(),
        ensures
            r is None <==> !self.view().contains_key(key@),
            r matches Some(i) ==> i < self.len() && self.view()[key@] == self.record_at(i as int)
                && self.key_at(i as int) == key@,
    {
        let mut i: usize = 0;
        while i < self.keys.len()
            invariant
                self.wf(),
                i <= self.keys.len(),
                forall|j: int| 0 <= j < i ==> self.keys@[j]@ != key@,
            decreases self.keys.len() - i,
        {
            if self.keys[i] == *key {
                proof {
                    self.lemma_view_at(i as int);
                }
                return Some(i);
            }
            i = i + 1;
        }
        None
    }

    /// How many records are stored.
    pub closed spec fn len(&self) -> nat {
        self.records@.len()
    }

    /// The record stored at position `i`.
    pub closed spec fn record_at(&self, i: int) -> Escrow {
        self.records@[i]
    }

    /// The record stored at position `i`, by reference.
    pub fn get(&self, i: usize) -> (r: &Escrow)
        requires
            self.wf(),
            i < self.len(),
        ensures
            *r == self.record_at(i as int),
    {
        &self.records[i]
    }

    /// The key stored at position `i`.
    pub closed spec fn key_at(&self, i: int) -> Seq<char> {
        self.keys@[i]@
    }

    /// Stores `rec` under `key`, which is not in use yet, at the place that
    /// keeps the keys ascending.
    pub fn insert_new(&mut self, key: String, rec: Escrow)
        requires
            old(self).wf(),
            key@ == key_of(rec.id),
            !old(self).view().contains_key(key@),
        ensures
            final(self).wf(),
            final(self).view() == old(self).view().insert(key@, rec),
    {
        let mut pos: usize = 0;
        while pos < self.keys.len() && key_lt(&self.keys[pos], &key)
            invariant
                self.wf(),
                pos <= self.keys.len(),
                forall|j: int| 0 <= j < pos ==> lex_lt(#[trigger] self.keys@[j]@, key@),
            decreases self.keys.len() - pos,
        {
            pos = pos + 1;
        }
        let ghost old_store = *self;
        proof {
            if pos < self.keys.len() {
                assert(self.keys@[pos as int]@ != key@) by {
                    old_store.lemma_view_at(pos as int);
                }
                lemma_lex_total(self.keys@[pos as int]@, key@);
                assert forall|j: int| pos <= j < self.keys.len() implies lex_lt(key@, #[trigger] self.keys@[j]@) by {
                    if j > pos {
                        assert(lex_lt(self.key_seq()[pos as int], self.key_seq()[j]));
                        lemma_lex_transitive(key@, self.keys@[pos as int]@, self.keys@[j]@);
                    }
                }
            }
        }
        self.keys.insert(pos, key);
        self.records.insert(pos, rec);
        proof {
            let ks = self.key_seq();
            assert forall|i: int, j: int| 0 <= i < j < ks.len() implies lex_lt(#[trigger] ks[i], #[trigger] ks[j]) by {
                if i < pos && j < pos {
                    assert(lex_lt(old_store.key_seq()[i], old_store.key_seq()[j]));
                } else if i < pos && j == pos {
                } else if i < pos {
                    assert(lex_lt(old_store.keys@[i]@, key@));
                    lemma_lex_transitive(old_store.keys@[i]@, key@, old_store.keys@[j - 1]@);
                } else if i == pos {
                } else {
                    assert(lex_lt(old_store.key_seq()[i - 1], old_store.key_seq()[j - 1]));
                }
            }
            assert(self.wf());
            let nv = old_store.view().insert(key@, rec);
            assert(self.keys@[pos as int]@ == key@);
            assert forall|k: Seq<char>| #[trigger] self.view().contains_key(k) == nv.contains_key(k) by {
                if k == key@ {
                    assert(self.keys@[pos as int]@ == k);
                }
                if nv.contains_key(k) && k != key@ {
                    let j = old_store.index_of_key(k);
                    if j < pos {
                        assert(self.keys@[j]@ == k);
                    } else {
                        assert(self.keys@[j + 1]@ == k);
                    }
                }
                if self.view().contains_key(k) {
                    let j = self.index_of_key(k);
                    if j < pos {
                        assert(old_store.keys@[j]@ == k);
                    } else if j > pos {
                        assert(old_store.keys@[j - 1]@ == k);
                    }
                }
            }
            assert forall|k: Seq<char>| #[trigger] self.view().contains_key(k) implies self.view()[k] == nv[k] by {
                let j = self.index_of_key(k);
                self.lemma_view_at(j);
                if j < pos {
                    old_store.lemma_view_at(j);
                } else if j > pos {
                    old_store.lemma_view_at(j - 1);
                }
            }
            assert(self.view() =~= nv);
        }
    }

    /// Sets the two status flags of the record at position `i`.
    pub(crate) fn set_status(&mut self, i: usize, complete: bool, cancelled: bool)
        requires
            old(self).wf(),
            i < old(self).len(),
        ensures
            final(self).wf(),
            final(self).view() == old(self).view().insert(
                old(self).key_at(i as int),
                with_status(old(self).record_at(i as int), complete, cancelled),
            ),
    {
        let ghost old_store = *self;
        let mut rec = self.records.remove(i);
        rec.is_complete = complete;
        rec.is_cancelled = cancelled;
        self.records.insert(i, rec);
        proof {
            assert(self.key_seq() =~= old_store.key_seq());
            assert(self.wf());
            let nv = old_store.view().insert(old_store.key_at(i as int), rec);
            assert forall|k: Seq<char>| #[trigger] self.view().contains_key(k) == nv.contains_key(k) by {
                if nv.contains_key(k) && k != old_store.key_at(i as int) {
                    assert(self.keys@[old_store.index_of_key(k)]@ == k);
                }
                if k == old_store.key_at(i as int) {
                    assert(self.keys@[i as int]@ == k);
                }
                if self.view().contains_key(k) {
                    assert(old_store.keys@[self.index_of_key(k)]@ == k);
                }
            }
            assert(self.records@ =~= old_store.records@.update(i as int, rec));
            assert forall|k: Seq<char>| #[trigger] self.view().contains_key(k) implies self.view()[k] == nv[k] by {
                let j = self.index_of_key(k);
                self.lemma_view_at(j);
                self.lemma_view_at(i as int);
                old_store.lemma_view_at(j);
            }
            assert(self.view() =~= nv);
        }
    }

    /// The keys of all records, in ascending lexical order.
    pub fn keys_ascending(&self) -> (r: Vec<String>)
        requires
            self.wf(),
        ensures
            strictly_ascending(r@.map_values(|s: String| s@)),
            forall|k: Seq<char>| self.view().contains_key(k) <==> r@.map_values(|s: String| s@).contains(k),
    {
        let mut r: Vec<String> = Vec::new();
        let mut i: usize = 0;
        while i < self.keys.len()
            invariant
                self.wf(),
                i <= self.keys.len(),
                r@ == self.keys@.subrange(0, i as int),
            decreases self.keys.len() - i,
        {
            r.push(self.keys[i].clone());
            i = i + 1;
        }
        proof {
            assert(r@ =~= self.keys@);
            let rs = r@.map_values(|s: String| s@);
            assert(rs =~= self.key_seq());
            assert forall|k: Seq<char>| self.view().contains_key(k) <==> rs.contains(k) by {
                if self.view().contains_key(k) {
                    let j = self.index_of_key(k);
                    assert(rs[j] == k);
                }
                if rs.contains(k) {
                    let j = choose|j: int| 0 <= j < rs.len() && rs[j] == k;
                    assert(self.keys@[j]@ == k);
                }
            }
        }
        r
    }
}

} // verus!
