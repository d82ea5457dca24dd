//! A small map from strings to values, kept as a list of rows in which no
//! key occurs twice.

use crate::text::str_equal;
use vstd::prelude::*;
use vstd::string::*;

verus! {

/// A rule that says of each value whether it stays.
pub trait Keep<V: View> {
    /// Whether a value with this content stays.
    spec fn keeps(&self, v: V::V) -> bool;

    /// Whether `v` stays.
    fn keep(&self, v: &V) -> (r: bool)
        ensures
            r == self.keeps(v@),
    ;
}

/// A map from strings to values.
pub struct Table<V> {
    entries: Vec<(String, V)>,
}

/// The part of a map whose values a rule keeps.
pub open spec fn kept_part<W, P: Keep<V>, V: View<V = W>>(m: Map<Seq<char>, W>, p: P) -> Map<
    Seq<char>,
    W,
> {
    Map::new(|k: Seq<char>| m.contains_key(k) && p.keeps(m[k]), |k: Seq<char>| m[k])
}

impl<V: View> Table<V> {
    /// Keys and values in the order in which they are stored.
    pub closed spec fn rows(self) -> Seq<(Seq<char>, V::V)> {
        Seq::new(self.entries@.len(), |i: int| (self.entries@[i].0@, self.entries@[i].1@))
    }

    /// No key occurs twice.
    pub open spec fn wf(self) -> bool {
        forall|i: int, j: int|
            0 <= i < j < self.rows().len() ==> (#[trigger] self.rows()[i]).0 != (
            #[trigger] self.rows()[j]).0
    }

    /// Whether a row carries `key`.
    pub open spec fn has(self, key: Seq<char>) -> bool {
        exists|i: int| 0 <= i < self.rows().len() && (#[trigger] self.rows()[i]).0 == key
    }

    /// The position of the row that carries `key`.
    pub open spec fn row_of(self, key: Seq<char>) -> int {
        choose|i: int| 0 <= i < self.rows().len() && (#[trigger] self.rows()[i]).0 == key
    }

    /// The map that the table stands for.
    pub open spec fn map(self) -> Map<Seq<char>, V::V> {
        Map::new(|k: Seq<char>| self.has(k), |k: Seq<char>| self.rows()[self.row_of(k)].1)
    }

    /// The number of rows.
    pub open spec fn count(self) -> nat {
        self.rows().len()
    }

    /// In a well-formed table each row is the entry of its key.
    pub proof fn lemma_row(self, i: int)
        requires
            self.wf(),
            0 <= i < self.rows().len(),
        ensures
            self.map().contains_key(self.rows()[i].0),
            self.map()[self.rows()[i].0] == self.rows()[i].1,
            self.row_of(self.rows()[i].0) == i,
    {
        let k = self.rows()[i].0;
        assert(self.has(k));
        let j = self.row_of(k);
        assert(0 <= j < self.rows().len() && self.rows()[j].0 == k);
        if j < i {
            assert(self.rows()[j].0 != self.rows()[i].0);
        }
        if i < j {
            assert(self.rows()[i].0 != self.rows()[j].0);
        }
    }

    /// An empty table.
    pub fn new() -> (r: Self)
        ensures
            r.wf(),
            r.count() == 0,
            r.map() == Map::<Seq<char>, V::V>::empty(),
    {
        let r = Table { entries: Vec::new() };
        assert(r.map() =~= Map::<Seq<char>, V::V>::empty());
        r
    }

    /// The number of rows.
    pub fn len(&self) -> (r: usize)
        ensures
            r == self.count(),
    {
        self.entries.len()
    }

    fn position(&self, key: &str) -> (r: Option<usize>)
        ensures
            match r {
                Some(i) => i < self.rows().len() && self.rows()[i as int].0 == key@,
                None => !self.has(key@),
            },
    {
        let mut i: usize = 0;
        while i < self.entries.len()
            invariant
                i <= self.entries.len(),
                forall|j: int| 0 <= j < i ==> (#[trigger] self.rows()[j]).0 != key@,
            decreases self.entries.len() - i,
        {
            if str_equal(self.entries[i].0.as_str(), key) {
                return Some(i);
            }
            i += 1;
        }
        None
    }

    /// Whether the table has an entry for `key`.
    pub fn contains_key(&self, key: &str) -> (r: bool)
        ensures
            r == self.map().contains_key(key@),
    {
        self.position(key).is_some()
    }

    /// The value stored for `key`.
    pub fn get(&self, key: &str) -> (r: Option<&V>)
        requires
            self.wf(),
        ensures
            match r {
                Some(v) => self.map().contains_key(key@) && self.map()[key@] == v@,
                None => !self.map().contains_key(key@),
            },
    {
        match self.position(key) {
            Some(i) => {
                proof {
                    self.lemma_row(i as int);
                }
                Some(&self.entries[i].1)
            },
            None => None,
        }
    }

    /// Stores `value` for `key`, in place of what was stored for it before.
    pub fn insert(&mut self, key: String, value: V)
        requires
            old(self).wf(),
        ensures
            final(self).wf(),
            final(self).map() == old(self).map().insert(key@, value@),
    {
        let ghost before = *self;
        let ghost k = key@;
        let ghost v = value@;
        match self.position(key.as_str()) {
            Some(i) => {
                self.entries.set(i, (key, value));
                assert(self.rows() =~= before.rows().update(i as int, (k, v)));
            },
            None => {
                self.entries.push((key, value));
                assert(self.rows() =~= before.rows().push((k, v)));
            },
        }
        proof {
            let after = *self;
            assert(after.wf());
            assert forall|q: Seq<char>| after.has(q) <==> (q == k || before.has(q)) by {
                if after.has(q) {
                    let a = after.row_of(q);
                    if q != k {
                        assert(before.rows()[a].0 == q);
                    }
                }
                if before.has(q) && q != k {
                    let b = before.row_of(q);
                    assert(after.rows()[b].0 == q);
                }
                if q == k {
                    if before.has(k) {
                        let b = before.row_of(k);
                        assert(after.rows()[b].0 == k);
                    } else {
                        assert(after.rows()[after.rows().len() - 1].0 == k);
                    }
                }
            }
            assert forall|q: Seq<char>| after.has(q) implies after.map()[q] == (if q == k {
                v
            } else {
                before.map()[q]
            }) by {
                let a = after.row_of(q);
                after.lemma_row(a);
                if q != k {
                    assert(before.rows()[a] == after.rows()[a]);
                    before.lemma_row(a);
                }
            }
            assert(after.map() =~= before.map().insert(k, v));
        }
    }

    /// Removes the entry for `key` and hands out its value.
    pub fn remove(&mut self, key: &str) -> (r: Option<V>)
        requires
            old(self).wf(),
        ensures
            final(self).wf(),
            final(self).map() == old(self).map().remove(key@),
            match r {
                Some(v) => old(self).map().contains_key(key@) && old(self).map()[key@] == v@,
                None => !old(self).map().contains_key(key@),
            },
    {
        let ghost before = *self;
        match self.position(key) {
            Some(i) => {
                proof {
                    before.lemma_row(i as int);
                }
                let (_, value) = self.entries.swap_remove(i);
                proof {
                    let after = *self;
                    let n = before.rows().len() as int;
                    assert(after.rows() =~= before.rows().update(
                        i as int,
                        before.rows()[n - 1],
                    ).drop_last());
                    assert forall|a: int, b: int| 0 <= a < b < after.rows().len() implies (
                    #[trigger] after.rows()[a]).0 != (#[trigger] after.rows()[b]).0 by {
                        let sa = if a == i {
                            n - 1
                        } else {
                            a
                        };
                        let sb = if b == i {
                            n - 1
                        } else {
                            b
                        };
                        assert(after.rows()[a] == before.rows()[sa]);
                        assert(after.rows()[b] == before.rows()[sb]);
                        if sa < sb {
                            assert(before.rows()[sa].0 != before.rows()[sb].0);
                        } else {
                            assert(before.rows()[sb].0 != before.rows()[sa].0);
                        }
                    }
                    assert forall|q: Seq<char>| after.has(q) <==> (q != key@ && before.has(q)) by {
                        if after.has(q) {
                            let a = after.row_of(q);
                            let sa = if a == i {
                                n - 1
                            } else {
                                a
                            };
                            assert(before.rows()[sa].0 == q);
                            if sa < i {
                                assert(before.rows()[sa].0 != before.rows()[i as int].0);
                            } else {
                                assert(before.rows()[i as int].0 != before.rows()[sa].0);
                            }
                        }
                        if q != key@ && before.has(q) {
                            let b = before.row_of(q);
                            let tb = if b == n - 1 {
                                i as int
                            } else {
                                b
                            };
                            assert(after.rows()[tb].0 == q);
                        }
                    }
                    assert forall|q: Seq<char>| after.has(q) implies after.map()[q]
                        == before.map()[q] by {
                        let a = after.row_of(q);
                        after.lemma_row(a);
                        let sa = if a == i {
                            n - 1
                        } else {
                            a
                        };
                        assert(after.rows()[a] == before.rows()[sa]);
                        before.lemma_row(sa);
                    }
                    assert(after.map() =~= before.map().remove(key@));
                }
                Some(value)
            },
            None => {
                assert(self.map() =~= before.map().remove(key@));
                None
            },
        }
    }

    /// Drops every entry whose value the rule does not keep.
    pub fn retain<P: Keep<V>>(&mut self, rule: &P)
        requires
            old(self).wf(),
        ensures
            final(self).wf(),
            final(self).map() == kept_part::<V::V, P, V>(old(self).map(), *rule),
    {
        let ghost before = *self;
        let ghost total = before.rows().len() as int;
        let mut kept: Vec<(String, V)> = Vec::new();
        let ghost mut origin: Seq<int> = Seq::empty();
        while self.entries.len() > 0
            invariant
                before.wf(),
                total == before.rows().len(),
                self.entries@.len() <= total,
                self.rows() == before.rows().subrange(0, self.entries@.len() as int),
                origin.len() == kept@.len(),
                forall|a: int, b: int|
                    0 <= a < b < origin.len() ==> (#[trigger] origin[a]) > (#[trigger] origin[b]),
                forall|a: int|
                    0 <= a < kept@.len() ==> self.entries@.len() <= (#[trigger] origin[a]) < total
                        && (kept@[a].0@, kept@[a].1@) == before.rows()[origin[a]] && rule.keeps(
                        kept@[a].1@,
                    ),
                forall|j: int|
                    self.entries@.len() <= j < total && rule.keeps((#[trigger] before.rows()[j]).1)
                        ==> exists|a: int| 0 <= a < kept@.len() && #[trigger] origin[a] == j,
            decreases self.entries@.len(),
        {
            let ghost n = self.entries@.len() as int;
            let ghost prior = *self;
            let entry = self.entries.pop().unwrap();
            assert(self.rows() =~= before.rows().subrange(0, n - 1));
            assert((entry.0@, entry.1@) == prior.rows()[n - 1]);
            assert(prior.rows()[n - 1] == before.rows()[n - 1]);
            if rule.keep(&entry.1) {
                kept.push(entry);
                proof {
                    let ghost old_origin = origin;
                    origin = origin.push(n - 1);
                    assert forall|j: int|
                        n - 1 <= j < total && rule.keeps(
                            (#[trigger] before.rows()[j]).1,
                        ) implies exists|a: int|
                        0 <= a < kept@.len() && #[trigger] origin[a] == j by {
                        if j == n - 1 {
                            assert(origin[kept@.len() - 1] == j);
                        } else {
                            let a = choose|a: int|
                                0 <= a < old_origin.len() && #[trigger] old_origin[a] == j;
                            assert(origin[a] == j);
                        }
                    }
                }
            } else {
                proof {
                    assert forall|j: int|
                        n - 1 <= j < total && rule.keeps(
                            (#[trigger] before.rows()[j]).1,
                        ) implies exists|a: int|
                        0 <= a < kept@.len() && #[trigger] origin[a] == j by {
                        assert(j != n - 1);
                    }
                }
            }
        }
        self.entries = kept;
        proof {
            let after = *self;
            assert forall|a: int| 0 <= a < after.rows().len() implies after.rows()[a]
                == before.rows()[origin[a]] by {}
            assert forall|a: int, b: int| 0 <= a < b < after.rows().len() implies (
            #[trigger] after.rows()[a]).0 != (#[trigger] after.rows()[b]).0 by {
                let sa = origin[a];
                let sb = origin[b];
                assert(after.rows()[a] == before.rows()[sa]);
                assert(after.rows()[b] == before.rows()[sb]);
                if sa < sb {
                    assert(before.rows()[sa].0 != before.rows()[sb].0);
                } else {
                    assert(before.rows()[sb].0 != before.rows()[sa].0);
                }
            }
            let target = kept_part::<V::V, P, V>(before.map(), *rule);
            assert forall|q: Seq<char>| after.map().contains_key(q) <==> target.contains_key(
                q,
            ) by {
                if after.has(q) {
                    let a = after.row_of(q);
                    before.lemma_row(origin[a]);
                }
                if before.has(q) && rule.keeps(before.map()[q]) {
                    let j = before.row_of(q);
                    before.lemma_row(j);
                    let a = choose|a: int| 0 <= a < origin.len() && #[trigger] origin[a] == j;
                    assert(after.rows()[a].0 == q);
                }
            }
            assert forall|q: Seq<char>| after.map().contains_key(q) implies after.map()[q]
                == target[q] by {
                let a = after.row_of(q);
                after.lemma_row(a);
                before.lemma_row(origin[a]);
            }
            assert(after.map() =~= target);
        }
    }
}

} // verus!
