//! Address-keyed ledger entries (share balances, tracked strategy balances),
//! read the way contract storage reads them: a missing entry counts as zero.
use vstd::prelude::*;
use crate::address::Address;

verus! {

/// No address occurs twice among the entries.
pub open spec fn keys_unique(s: Seq<(Address, i128)>) -> bool {
    forall|i: int, j: int| 0 <= i < j < s.len() ==> s[i].0 != s[j].0
}

/// The map holding the entries of `s`.
pub open spec fn entries_map(s: Seq<(Address, i128)>) -> Map<Address, i128>
    decreases s.len(),
{
    if s.len() == 0 {
        Map::empty()
    } else {
        entries_map(s.drop_last()).insert(s.last().0, s.last().1)
    }
}

/// The sum of the amounts of the entries of `s`.
pub open spec fn entries_total(s: Seq<(Address, i128)>) -> int
    decreases s.len(),
{
    if s.len() == 0 {
        0
    } else {
        entries_total(s.drop_last()) + s.last().1
    }
}

/// The amount stored under `k`, zero when there is no entry.
pub open spec fn amount_of(m: Map<Address, i128>, k: Address) -> int {
    if m.contains_key(k) {
        m[k] as int
    } else {
        0
    }
}

proof fn lemma_absent(s: Seq<(Address, i128)>, k: Address)
    requires
        forall|i: int| 0 <= i < s.len() ==> s[i].0 != k,
    ensures
        !entries_map(s).contains_key(k),
    decreases s.len(),
{
    if s.len() > 0 {
        lemma_absent(s.drop_last(), k);
    }
}

proof fn lemma_lookup(s: Seq<(Address, i128)>, i: int)
    requires
        keys_unique(s),
        0 <= i < s.len(),
    ensures
        entries_map(s).contains_key(s[i].0),
        entries_map(s)[s[i].0] == s[i].1,
    decreases s.len(),
{
    if i < s.len() - 1 {
        lemma_lookup(s.drop_last(), i);
    }
}

proof fn lemma_update(s: Seq<(Address, i128)>, i: int, v: i128)
    requires
        keys_unique(s),
        0 <= i < s.len(),
    ensures
        keys_unique(s.update(i, (s[i].0, v))),
        entries_map(s.update(i, (s[i].0, v))) == entries_map(s).insert(s[i].0, v),
        entries_total(s.update(i, (s[i].0, v))) == entries_total(s) - s[i].1 + v,
    decreases s.len(),
{
    let k = s[i].0;
    let t = s.update(i, (k, v));
    if i == s.len() - 1 {
        assert(t.drop_last() =~= s.drop_last());
        assert(entries_map(t) =~= entries_map(s).insert(k, v));
    } else {
        let d = s.drop_last();
        lemma_update(d, i, v);
        assert(t.drop_last() =~= d.update(i, (k, v)));
        assert(s.last().0 != k);
        assert(entries_map(t) =~= entries_map(s).insert(k, v));
    }
}

proof fn lemma_remove(s: Seq<(Address, i128)>, i: int)
    requires
        keys_unique(s),
        0 <= i < s.len(),
    ensures
        keys_unique(s.remove(i)),
        entries_map(s.remove(i)) == entries_map(s).remove(s[i].0),
        entries_total(s.remove(i)) == entries_total(s) - s[i].1,
    decreases s.len(),
{
    let k = s[i].0;
    let t = s.remove(i);
    let d = s.drop_last();
    if i == s.len() - 1 {
        assert(t =~= d);
        lemma_absent(d, k);
        assert(entries_map(t) =~= entries_map(s).remove(k));
    } else {
        lemma_remove(d, i);
        assert(t.drop_last() =~= d.remove(i));
        assert(t.last() == s.last());
        assert(s.last().0 != k);
        assert(entries_map(t) =~= entries_map(s).remove(k));
    }
}

proof fn lemma_present(s: Seq<(Address, i128)>, k: Address) -> (i: int)
    requires
        entries_map(s).contains_key(k),
    ensures
        0 <= i < s.len(),
        s[i].0 == k,
    decreases s.len(),
{
    if s.last().0 == k {
        s.len() - 1
    } else {
        lemma_present(s.drop_last(), k)
    }
}

proof fn lemma_total_bounds(s: Seq<(Address, i128)>)
    requires
        forall|i: int| 0 <= i < s.len() ==> s[i].1 >= 0,
    ensures
        entries_total(s) >= 0,
        forall|i: int| 0 <= i < s.len() ==> s[i].1 <= entries_total(s),
        forall|i: int, j: int| 0 <= i < j < s.len() ==> s[i].1 + s[j].1 <= entries_total(s),
    decreases s.len(),
{
    if s.len() > 0 {
        let d = s.drop_last();
        lemma_total_bounds(d);
        assert forall|i: int, j: int| 0 <= i < j < s.len() implies s[i].1 + s[j].1 <= entries_total(s) by {
            if j < s.len() - 1 {
                assert(d[i] == s[i] && d[j] == s[j]);
            } else {
                assert(d[i] == s[i]);
            }
        }
        assert forall|i: int| 0 <= i < s.len() implies s[i].1 <= entries_total(s) by {
            if i < s.len() - 1 {
                assert(d[i] == s[i]);
            }
        }
    }
}

/// With no negative entry, every entry, and any two entries under different
/// addresses together, amount to at most the table's total, which is itself
/// non-negative.
pub proof fn lemma_amounts_within_total(t: &BalanceTable, a: Address, b: Address)
    requires
        t.wf(),
        forall|k: Address| #[trigger] t@.contains_key(k) ==> t@[k] >= 0,
    ensures
        t.total() >= 0,
        amount_of(t@, a) <= t.total(),
        a != b ==> amount_of(t@, a) + amount_of(t@, b) <= t.total(),
{
    let s = t.spec_entries();
    assert forall|i: int| 0 <= i < s.len() implies s[i].1 >= 0 by {
        lemma_lookup(s, i);
        assert(t@.contains_key(s[i].0));
    }
    lemma_total_bounds(s);
    if t@.contains_key(a) {
        let i = lemma_present(s, a);
        lemma_lookup(s, i);
        if a != b && t@.contains_key(b) {
            let j = lemma_present(s, b);
            lemma_lookup(s, j);
            if i < j {
                assert(s[i].1 + s[j].1 <= entries_total(s));
            } else {
                assert(s[j].1 + s[i].1 <= entries_total(s));
            }
        }
    } else if t@.contains_key(b) {
        let j = lemma_present(s, b);
        lemma_lookup(s, j);
    }
}

/// A table of address-keyed `i128` entries. Its view is the map of present entries.
#[derive(Clone, Debug)]
pub struct BalanceTable {
    entries: Vec<(Address, i128)>,
}

impl View for BalanceTable {
    type V = Map<Address, i128>;

    open spec fn view(&self) -> Map<Address, i128> {
        entries_map(self.spec_entries())
    }
}

impl BalanceTable {
    /// The entries, in the order they were first written.
    pub closed spec fn spec_entries(&self) -> Seq<(Address, i128)> {
        self.entries@
    }

    /// The table holds each address at most once.
    pub open spec fn wf(&self) -> bool {
        keys_unique(self.spec_entries())
    }

    /// The sum of all amounts in the table.
    pub open spec fn total(&self) -> int {
        entries_total(self.spec_entries())
    }

    /// An empty table.
    pub fn new() -> (t: BalanceTable)
        ensures
            t.wf(),
            t@ == Map::<Address, i128>::empty(),
            t.total() == 0,
    {
        let t = BalanceTable { entries: Vec::new() };
        assert(t.spec_entries().len() == 0);
        t
    }

    fn position(&self, k: &Address) -> (r: Option<usize>)
        requires
            self.wf(),
        ensures
            match r {
                Some(i) => i < self.spec_entries().len() && self.spec_entries()[i as int].0 == *k,
                None => forall|j: int| 0 <= j < self.spec_entries().len() ==> self.spec_entries()[j].0 != *k,
            },
    {
        let mut i: usize = 0;
        while i < self.entries.len()
            invariant
                i <= self.entries@.len(),
                forall|j: int| 0 <= j < i ==> self.entries@[j].0 != *k,
            decreases self.entries@.len() - i,
        {
            if self.entries[i].0 == *k {
                return Some(i);
            }
            i = i + 1;
        }
        None
    }

    /// Whether there is an entry under `k`.
    pub fn contains_key(&self, k: &Address) -> (r: bool)
        requires
            self.wf(),
        ensures
            r == self@.contains_key(*k),
    {
        match self.position(k) {
            Some(i) => {
                proof {
                    lemma_lookup(self.entries@, i as int);
                }
                true
            },
            None => {
                proof {
                    lemma_absent(self.entries@, *k);
                }
                false
            },
        }
    }

    /// The amount stored under `k`, or zero when there is none.
    pub fn get(&self, k: &Address) -> (r: i128)
        requires
            self.wf(),
        ensures
            r == amount_of(self@, *k),
    {
        match self.position(k) {
            Some(i) => {
                proof {
                    lemma_lookup(self.entries@, i as int);
                }
                self.entries[i].1
            },
            None => {
                proof {
                    lemma_absent(self.entries@, *k);
                }
                0
            },
        }
    }

    /// Sets the entry under `k` to `v`.
    pub fn set(&mut self, k: Address, v: i128)
        requires
            old(self).wf(),
        ensures
            final(self).wf(),
            final(self)@ == old(self)@.insert(k, v),
            final(self).total() == old(self).total() - amount_of(old(self)@, k) + v,
    {
        match self.position(&k) {
            Some(i) => {
                proof {
                    lemma_lookup(self.entries@, i as int);
                    lemma_update(self.entries@, i as int, v);
                }
                self.entries.set(i, (k, v));
            },
            None => {
                proof {
                    lemma_absent(self.entries@, k);
                }
                self.entries.push((k, v));
                proof {
                    assert(self.entries@.drop_last() =~= old(self).entries@);
                }
            },
        }
    }

    /// Removes the entry under `k`.
    pub fn remove(&mut self, k: &Address)
        requires
            old(self).wf(),
        ensures
            final(self).wf(),
            final(self)@ == old(self)@.remove(*k),
            final(self).total() == old(self).total() - amount_of(old(self)@, *k),
    {
        match self.position(k) {
            Some(i) => {
                proof {
                    lemma_lookup(self.entries@, i as int);
                    lemma_remove(self.entries@, i as int);
                }
                self.entries.remove(i);
            },
            None => {
                proof {
                    lemma_absent(self.entries@, *k);
                    assert(old(self)@.remove(*k) =~= old(self)@);
                }
            },
        }
    }

    /// The entries of the table; together they are exactly its contents.
    pub fn entries(&self) -> (r: &Vec<(Address, i128)>)
        ensures
            entries_map(r@) == self@,
            keys_unique(r@) == self.wf(),
    {
        &self.entries
    }
}

} // verus!
