//! Occurrence counts keyed by name, kept in the order the names first came.

use vstd::prelude::*;
use vstd::string::StringExecFns;

verus! {

/// No two entries have the same name.
pub open spec fn distinct_names(e: Seq<(String, usize)>) -> bool {
    forall|i: int, j: int| 0 <= i < e.len() && 0 <= j < e.len() && i != j ==> (#[trigger] e[i]).0@ != (#[trigger] e[j]).0@
}

/// Whether some entry is named `k`.
pub open spec fn names_contain(e: Seq<(String, usize)>, k: Seq<char>) -> bool {
    exists|i: int| 0 <= i < e.len() && (#[trigger] e[i]).0@ == k
}

/// Index of an entry named `k`.
pub open spec fn name_index(e: Seq<(String, usize)>, k: Seq<char>) -> int {
    choose|i: int| 0 <= i < e.len() && (#[trigger] e[i]).0@ == k
}

/// The entries as a map from name to count.
pub open spec fn entries_map(e: Seq<(String, usize)>) -> Map<Seq<char>, nat> {
    Map::new(|k: Seq<char>| names_contain(e, k), |k: Seq<char>| e[name_index(e, k)].1 as nat)
}

/// `m` with the count of `k` raised by one (a new name starts at one).
pub open spec fn bump(m: Map<Seq<char>, nat>, k: Seq<char>) -> Map<Seq<char>, nat> {
    m.insert(k, if m.contains_key(k) { m[k] + 1 } else { 1 })
}

/// Tallies `names` in order.
pub open spec fn tally_of(names: Seq<Seq<char>>) -> Map<Seq<char>, nat>
    decreases names.len(),
{
    if names.len() == 0 {
        Map::empty()
    } else {
        bump(tally_of(names.drop_last()), names.last())
    }
}

/// No count in `tally_of(names)` exceeds the number of names.
pub proof fn lemma_tally_bounded(names: Seq<Seq<char>>, k: Seq<char>)
    ensures
        tally_of(names).contains_key(k) ==> tally_of(names)[k] <= names.len(),
        tally_of(names).dom().finite(),
    decreases names.len(),
{
    if names.len() > 0 {
        lemma_tally_bounded(names.drop_last(), k);
    }
}

proof fn lemma_entry_lookup(e: Seq<(String, usize)>, i: int)
    requires
        distinct_names(e),
        0 <= i < e.len(),
    ensures
        entries_map(e).contains_key(e[i].0@),
        entries_map(e)[e[i].0@] == e[i].1,
{
    let j = name_index(e, e[i].0@);
    assert(names_contain(e, e[i].0@));
}

proof fn lemma_entries_update(e: Seq<(String, usize)>, j: int, c: usize)
    requires
        distinct_names(e),
        0 <= j < e.len(),
    ensures
        distinct_names(e.update(j, (e[j].0, c))),
        entries_map(e.update(j, (e[j].0, c))) == entries_map(e).insert(e[j].0@, c as nat),
{
    let f = e.update(j, (e[j].0, c));
    assert forall|a: int, b: int| 0 <= a < f.len() && 0 <= b < f.len() && a != b implies (#[trigger] f[a]).0@ != (#[trigger] f[b]).0@ by {
        assert(f[a].0 == e[a].0 && f[b].0 == e[b].0);
    }
    assert forall|k: Seq<char>| #[trigger] names_contain(f, k) <==> names_contain(e, k) by {
        if names_contain(f, k) {
            let i = choose|i: int| 0 <= i < f.len() && (#[trigger] f[i]).0@ == k;
            assert(e[i].0@ == k);
        }
        if names_contain(e, k) {
            let i = choose|i: int| 0 <= i < e.len() && (#[trigger] e[i]).0@ == k;
            assert(f[i].0@ == k);
        }
    }
    assert forall|k: Seq<char>| names_contain(f, k) implies #[trigger] entries_map(f)[k] == entries_map(e).insert(e[j].0@, c as nat)[k] by {
        let i = name_index(f, k);
        assert(names_contain(e, k));
        let i2 = name_index(e, k);
        assert(f[i].0@ == k);
        assert(e[i2].0@ == k);
        assert(f[i2].0@ == k);
        if k == e[j].0@ {
            assert(f[j].0@ == k);
        }
    }
    assert(entries_map(f) =~= entries_map(e).insert(e[j].0@, c as nat));
}

proof fn lemma_entries_insert(e: Seq<(String, usize)>, p: int, x: (String, usize))
    requires
        distinct_names(e),
        !names_contain(e, x.0@),
        0 <= p <= e.len(),
    ensures
        distinct_names(e.insert(p, x)),
        entries_map(e.insert(p, x)) == entries_map(e).insert(x.0@, x.1 as nat),
{
    let f = e.insert(p, x);
    assert forall|i: int| 0 <= i < f.len() implies #[trigger] f[i] == (if i < p { e[i] } else if i == p { x } else { e[i - 1] }) by {}
    assert forall|a: int, b: int| 0 <= a < f.len() && 0 <= b < f.len() && a != b implies (#[trigger] f[a]).0@ != (#[trigger] f[b]).0@ by {
        if a != p && b != p {
            let ea = if a < p { a } else { a - 1 };
            let eb = if b < p { b } else { b - 1 };
            assert(f[a] == e[ea] && f[b] == e[eb]);
        } else if a == p {
            let eb = if b < p { b } else { b - 1 };
            assert(f[b] == e[eb]);
        } else {
            let ea = if a < p { a } else { a - 1 };
            assert(f[a] == e[ea]);
        }
    }
    assert forall|k: Seq<char>| #[trigger] names_contain(f, k) <==> (names_contain(e, k) || k == x.0@) by {
        if names_contain(f, k) {
            let i = choose|i: int| 0 <= i < f.len() && (#[trigger] f[i]).0@ == k;
            if i < p {
                assert(e[i].0@ == k);
            } else if i > p {
                assert(e[i - 1].0@ == k);
            }
        }
        if names_contain(e, k) {
            let i = choose|i: int| 0 <= i < e.len() && (#[trigger] e[i]).0@ == k;
            if i < p {
                assert(f[i].0@ == k);
            } else {
                assert(f[i + 1].0@ == k);
            }
        }
        if k == x.0@ {
            assert(f[p].0@ == k);
        }
    }
    assert forall|k: Seq<char>| names_contain(f, k) implies #[trigger] entries_map(f)[k] == entries_map(e).insert(x.0@, x.1 as nat)[k] by {
        let i = name_index(f, k);
        assert(f[i].0@ == k);
        if k == x.0@ {
            assert(f[p].0@ == k);
        } else {
            let i2 = name_index(e, k);
            assert(e[i2].0@ == k);
            let fi = if i2 < p { i2 } else { i2 + 1 };
            assert(f[fi] == e[i2]);
        }
    }
    assert(entries_map(f) =~= entries_map(e).insert(x.0@, x.1 as nat));
}

/// Counts per name, in the order in which the names first came.
pub struct Tally {
    entries: Vec<(String, usize)>,
}

impl View for Tally {
    type V = Map<Seq<char>, nat>;

    closed spec fn view(&self) -> Map<Seq<char>, nat> {
        entries_map(self.entries@)
    }
}

/// Index of the entry named `k`, if any.
fn find_name(e: &Vec<(String, usize)>, k: &String) -> (r: Option<usize>)
    ensures
        match r {
            Some(i) => i < e@.len() && e@[i as int].0@ == k@,
            None => !names_contain(e@, k@),
        },
{
    let mut i: usize = 0;
    while i < e.len()
        invariant
            i <= e@.len(),
            forall|j: int| 0 <= j < i ==> (#[trigger] e@[j]).0@ != k@,
        decreases e@.len() - i,
    {
        if e[i].0 == *k {
            return Some(i);
        }
        i = i + 1;
    }
    None
}

impl Tally {
    #[verifier::type_invariant]
    spec fn well_formed(self) -> bool {
        distinct_names(self.entries@)
    }

    /// An empty tally.
    pub fn new() -> (r: Tally)
        ensures
            r@ == Map::<Seq<char>, nat>::empty(),
    {
        let t = Tally { entries: Vec::new() };
        assert(entries_map(t.entries@) =~= Map::<Seq<char>, nat>::empty());
        t
    }

    /// Counts one more occurrence of `name`.
    pub fn add(&mut self, name: &str)
        requires
            old(self)@.contains_key(name@) ==> old(self)@[name@] < usize::MAX,
        ensures
            final(self)@ == bump(old(self)@, name@),
    {
        proof { use_type_invariant(&*self); }
        let key = String::from_str(name);
        let mut entries = Vec::new();
        std::mem::swap(&mut entries, &mut self.entries);
        match find_name(&entries, &key) {
            Some(i) => {
                proof { lemma_entry_lookup(entries@, i as int); }
                let c = entries[i].1;
                let k = entries[i].0.clone();
                proof { lemma_entries_update(entries@, i as int, (c + 1) as usize); }
                entries.set(i, (k, c + 1));
            },
            None => {
                let n = entries.len();
                proof { lemma_entries_insert(entries@, n as int, (key, 1usize)); }
                entries.push((key, 1));
                assert(entries@ =~= old(self).entries@.insert(n as int, (key, 1usize)));
            },
        }
        self.entries = entries;
    }

    /// The count of `name` (zero for a name never added).
    pub fn get(&self, name: &str) -> (r: usize)
        ensures
            r == (if self@.contains_key(name@) { self@[name@] } else { 0 }),
    {
        proof { use_type_invariant(self); }
        let key = String::from_str(name);
        match find_name(&self.entries, &key) {
            Some(i) => {
                proof { lemma_entry_lookup(self.entries@, i as int); }
                self.entries[i].1
            },
            None => 0,
        }
    }

    /// Whether nothing was added.
    pub fn is_empty(&self) -> (r: bool)
        ensures
            r <==> self@.dom() =~= Set::<Seq<char>>::empty(),
    {
        proof { use_type_invariant(self); }
        if self.entries.len() == 0 {
            assert(self@.dom() =~= Set::<Seq<char>>::empty());
            true
        } else {
            proof { lemma_entry_lookup(self.entries@, 0); }
            false
        }
    }

    /// The names and their counts, largest count first; names with equal
    /// counts keep the order in which they first came.
    pub fn by_count_desc(&self) -> (r: Vec<(String, usize)>)
        ensures
            distinct_names(r@),
            entries_map(r@) == self@,
            forall|i: int, j: int| 0 <= i < j < r@.len() ==> (#[trigger] r@[i]).1 >= (#[trigger] r@[j]).1,
    {
        proof { use_type_invariant(self); }
        let mut out: Vec<(String, usize)> = Vec::new();
        let mut i: usize = 0;
        assert(entries_map(out@) =~= entries_map(self.entries@.take(0)));
        while i < self.entries.len()
            invariant
                i <= self.entries@.len(),
                distinct_names(self.entries@),
                distinct_names(out@),
                entries_map(out@) == entries_map(self.entries@.take(i as int)),
                forall|k: Seq<char>| names_contain(out@, k) <==> names_contain(self.entries@.take(i as int), k),
                forall|a: int, b: int| 0 <= a < b < out@.len() ==> (#[trigger] out@[a]).1 >= (#[trigger] out@[b]).1,
            decreases self.entries@.len() - i,
        {
            let x = (self.entries[i].0.clone(), self.entries[i].1);
            let c = x.1;
            let mut p: usize = 0;
            while p < out.len() && out[p].1 >= c
                invariant
                    p <= out@.len(),
                    forall|a: int| 0 <= a < p ==> (#[trigger] out@[a]).1 >= c,
                decreases out@.len() - p,
            {
                p = p + 1;
            }
            proof {
                let e = self.entries@;
                let t = e.take(i as int);
                assert(e.take(i + 1) =~= t.push(e[i as int]));
                if names_contain(t, x.0@) {
                    let j = choose|j: int| 0 <= j < t.len() && (#[trigger] t[j]).0@ == x.0@;
                    assert(e[j].0@ == e[i as int].0@);
                }
                assert(!names_contain(out@, x.0@));
                lemma_entries_insert(out@, p as int, x);
                let tn = t.len() as int;
                lemma_entries_insert(t, tn, x);
                assert(t.insert(tn, x) =~= t.push(e[i as int]));
                assert forall|k: Seq<char>| names_contain(out@.insert(p as int, x), k) <==> names_contain(e.take(i + 1), k) by {
                    assert(entries_map(out@.insert(p as int, x)).contains_key(k) == names_contain(out@.insert(p as int, x), k));
                    assert(entries_map(e.take(i + 1)).contains_key(k) == names_contain(e.take(i + 1), k));
                }
            }
            let ghost before = out@;
            out.insert(p, x);
            proof {
                assert forall|a: int, b: int| 0 <= a < b < out@.len() implies (#[trigger] out@[a]).1 >= (#[trigger] out@[b]).1 by {
                    let ba = if a < p { a } else if a == p { -1 } else { a - 1 };
                    let bb = if b < p { b } else if b == p { -1 } else { b - 1 };
                    if a < p && b < p {
                        assert(out@[a] == before[ba] && out@[b] == before[bb]);
                    } else if a < p && b == p {
                        assert(out@[a] == before[a]);
                    } else if a < p {
                        assert(out@[a] == before[ba] && out@[b] == before[bb]);
                    } else if a == p {
                        assert(out@[b] == before[bb]);
                        if bb > p as int || bb == p as int {
                            if p < before.len() {
                                assert(before[p as int].1 < c);
                                assert(before[p as int].1 >= before[bb].1);
                            }
                        }
                    } else {
                        assert(out@[a] == before[ba] && out@[b] == before[bb]);
                    }
                }
            }
            i = i + 1;
        }
        assert(self.entries@.take(i as int) =~= self.entries@);
        out
    }
}

} // verus!
