//! A map keyed by names, kept in the lexicographic order of the names' UTF-8 bytes.

use vstd::prelude::*;

verus! {

/// Lexicographic order on byte strings.
pub open spec fn bytes_lt(a: Seq<u8>, b: Seq<u8>) -> bool
    decreases a.len(),
{
    if b.len() == 0 {
        false
    } else if a.len() == 0 {
        true
    } else if a[0] != b[0] {
        a[0] < b[0]
    } else {
        bytes_lt(a.drop_first(), b.drop_first())
    }
}

/// The order in which names are walked: by their UTF-8 bytes.
pub open spec fn name_lt(a: Seq<char>, b: Seq<char>) -> bool {
    bytes_lt(vstd::utf8::encode_utf8(a), vstd::utf8::encode_utf8(b))
}

proof fn lemma_bytes_irreflexive(a: Seq<u8>)
    ensures
        !bytes_lt(a, a),
    decreases a.len(),
{
    if a.len() > 0 {
        lemma_bytes_irreflexive(a.drop_first());
    }
}

proof fn lemma_bytes_transitive(a: Seq<u8>, b: Seq<u8>, c: Seq<u8>)
    requires
        bytes_lt(a, b),
        bytes_lt(b, c),
    ensures
        bytes_lt(a, c),
    decreases a.len(),
{
    if a.len() > 0 && b.len() > 0 && c.len() > 0 && a[0] == b[0] && b[0] == c[0] {
        lemma_bytes_transitive(a.drop_first(), b.drop_first(), c.drop_first());
    }
}

proof fn lemma_bytes_total(a: Seq<u8>, b: Seq<u8>)
    ensures
        a == b || bytes_lt(a, b) || bytes_lt(b, a),
    decreases a.len(),
{
    if a.len() > 0 && b.len() > 0 && a[0] == b[0] {
        lemma_bytes_total(a.drop_first(), b.drop_first());
        if a.drop_first() == b.drop_first() {
            assert(a =~= seq![a[0]] + a.drop_first());
            assert(b =~= seq![b[0]] + b.drop_first());
        }
    } else if a.len() == 0 && b.len() == 0 {
        assert(a =~= b);
    }
}

/// The order on names is a strict total order.
pub proof fn lemma_name_order(a: Seq<char>, b: Seq<char>, c: Seq<char>)
    ensures
        !name_lt(a, a),
        name_lt(a, b) && name_lt(b, c) ==> name_lt(a, c),
        a == b || name_lt(a, b) || name_lt(b, a),
{
    lemma_bytes_irreflexive(vstd::utf8::encode_utf8(a));
    if name_lt(a, b) && name_lt(b, c) {
        lemma_bytes_transitive(vstd::utf8::encode_utf8(a), vstd::utf8::encode_utf8(b), vstd::utf8::encode_utf8(c));
    }
    lemma_bytes_total(vstd::utf8::encode_utf8(a), vstd::utf8::encode_utf8(b));
    if vstd::utf8::encode_utf8(a) == vstd::utf8::encode_utf8(b) {
        vstd::utf8::encode_utf8_decode_utf8(a);
        vstd::utf8::encode_utf8_decode_utf8(b);
    }
}

/// Compares two names by their UTF-8 bytes.
pub fn name_less(a: &str, b: &str) -> (less: bool)
    ensures
        less == name_lt(a@, b@),
{
    let x = a.as_bytes();
    let y = b.as_bytes();
    let mut i: usize = 0;
    assert(x@.skip(0) =~= x@);
    assert(y@.skip(0) =~= y@);
    while i < x.len() && i < y.len()
        invariant
            i <= x.len(),
            i <= y.len(),
            x@ == vstd::utf8::encode_utf8(a@),
            y@ == vstd::utf8::encode_utf8(b@),
            bytes_lt(x@, y@) == bytes_lt(x@.skip(i as int), y@.skip(i as int)),
        decreases x.len() - i,
    {
        if x[i] != y[i] {
            return x[i] < y[i];
        }
        assert(x@.skip(i as int).drop_first() =~= x@.skip(i + 1));
        assert(y@.skip(i as int).drop_first() =~= y@.skip(i + 1));
        i += 1;
    }
    i < y.len()
}

/// A map from names to values. The entries stand in the order of their names, each name once.
pub struct NameMap<V> {
    pub entries: Vec<(String, V)>,
}

/// Whether the entry names increase strictly.
pub open spec fn names_increase<V>(entries: Seq<(String, V)>) -> bool {
    forall|i: int, j: int|
        0 <= i < j < entries.len() ==> name_lt(#[trigger] entries[i].0@, #[trigger] entries[j].0@)
}

/// Whether some entry carries the name.
pub open spec fn has_name<V>(entries: Seq<(String, V)>, name: Seq<char>) -> bool {
    exists|i: int| 0 <= i < entries.len() && #[trigger] entries[i].0@ == name
}

/// The place of the entry that carries the name.
pub open spec fn name_place<V>(entries: Seq<(String, V)>, name: Seq<char>) -> int {
    choose|i: int| 0 <= i < entries.len() && #[trigger] entries[i].0@ == name
}

impl<V> View for NameMap<V> {
    type V = Map<Seq<char>, V>;

    open spec fn view(&self) -> Map<Seq<char>, V> {
        Map::new(
            |name: Seq<char>| has_name(self.entries@, name),
            |name: Seq<char>| self.entries@[name_place(self.entries@, name)].1,
        )
    }
}

impl<V> NameMap<V> {
    /// The entries stand in the order of their names, each name once.
    pub open spec fn wf(self) -> bool {
        names_increase(self.entries@)
    }

    /// What the entry at place `i` says of the map.
    pub proof fn lemma_entry(self, i: int)
        requires
            self.wf(),
            0 <= i < self.entries@.len(),
        ensures
            self@.contains_key(self.entries@[i].0@),
            self@[self.entries@[i].0@] == self.entries@[i].1,
    {
        let name = self.entries@[i].0@;
        assert(has_name(self.entries@, name));
        let k = name_place(self.entries@, name);
        assert(0 <= k < self.entries@.len() && self.entries@[k].0@ == name);
        lemma_name_order(name, name, name);
        if k < i {
            assert(name_lt(self.entries@[k].0@, self.entries@[i].0@));
        } else if i < k {
            assert(name_lt(self.entries@[i].0@, self.entries@[k].0@));
        }
    }

    /// An empty map.
    pub fn new() -> (map: NameMap<V>)
        ensures
            map.wf(),
            map@ == Map::<Seq<char>, V>::empty(),
    {
        let map = NameMap { entries: Vec::new() };
        assert(map@ =~= Map::<Seq<char>, V>::empty());
        map
    }

    /// The place of the entry with this name.
    fn place(&self, name: &String) -> (place: Option<usize>)
        requires
            self.wf(),
        ensures
            place is Some <==> self@.contains_key(name@),
            place matches Some(i) ==> i < self.entries@.len() && self.entries@[i as int].0@ == name@
                && self@[name@] == self.entries@[i as int].1,
    {
        let mut i: usize = 0;
        while i < self.entries.len()
            invariant
                self.wf(),
                i <= self.entries@.len(),
                forall|j: int| 0 <= j < i ==> (#[trigger] self.entries@[j]).0@ != name@,
            decreases self.entries@.len() - i,
        {
            if self.entries[i].0 == *name {
                proof {
                    self.lemma_entry(i as int);
                }
                return Some(i);
            }
            i += 1;
        }
        None
    }

    /// The value under this name.
    pub fn get(&self, name: &String) -> (value: Option<&V>)
        requires
            self.wf(),
        ensures
            value is Some <==> self@.contains_key(name@),
            value matches Some(v) ==> *v == self@[name@],
    {
        match self.place(name) {
            Some(i) => Some(&self.entries[i].1),
            None => None,
        }
    }

    /// Puts the value under this name, in place of an earlier one.
    pub fn insert(&mut self, name: String, value: V)
        requires
            old(self).wf(),
        ensures
            final(self).wf(),
            final(self)@ == old(self)@.insert(name@, value),
    {
        let ghost before = *self;
        let mut i: usize = 0;
        while i < self.entries.len() && name_less(self.entries[i].0.as_str(), name.as_str())
            invariant
                *self == before,
                self.wf(),
                i <= self.entries@.len(),
                forall|j: int| 0 <= j < i ==> name_lt((#[trigger] self.entries@[j]).0@, name@),
            decreases self.entries@.len() - i,
        {
            i += 1;
        }
        if i < self.entries.len() && self.entries[i].0 == name {
            self.entries[i] = (name, value);
            proof {
                assert(self.entries@ == before.entries@.update(i as int, (name, value)));
                self.lemma_after_write(before, i as int);
            }
        } else {
            proof {
                assert forall|j: int| i <= j < self.entries@.len() implies name_lt(
                    name@,
                    (#[trigger] self.entries@[j]).0@,
                ) by {
                    let first = self.entries@[i as int].0@;
                    let here = self.entries@[j].0@;
                    lemma_name_order(name@, first, here);
                    lemma_name_order(first, name@, here);
                    if i < j {
                        assert(name_lt(first, here));
                    }
                }
            }
            self.entries.insert(i, (name, value));
            proof {
                assert(self.entries@ == before.entries@.insert(i as int, (name, value)));
                self.lemma_after_insert(before, i as int);
            }
        }
    }

    proof fn lemma_after_write(self, before: Self, i: int)
        requires
            before.wf(),
            0 <= i < before.entries@.len(),
            self.entries@.len() == before.entries@.len(),
            self.entries@[i].0@ == before.entries@[i].0@,
            forall|j: int|
                0 <= j < before.entries@.len() && j != i ==> #[trigger] self.entries@[j]
                    == before.entries@[j],
        ensures
            self.wf(),
            self@ == before@.insert(self.entries@[i].0@, self.entries@[i].1),
    {
        let name = self.entries@[i].0@;
        assert forall|a: int, b: int| 0 <= a < b < self.entries@.len() implies name_lt(
            #[trigger] self.entries@[a].0@,
            #[trigger] self.entries@[b].0@,
        ) by {
            assert(name_lt(before.entries@[a].0@, before.entries@[b].0@));
        }
        let after = before@.insert(name, self.entries@[i].1);
        assert forall|n: Seq<char>| #[trigger] self@.contains_key(n) <==> after.contains_key(n) by {
            if self@.contains_key(n) {
                let k = name_place(self.entries@, n);
                assert(self.entries@[k].0@ == n);
                if k != i {
                    before.lemma_entry(k);
                }
            }
            if after.contains_key(n) && n != name {
                let k = name_place(before.entries@, n);
                assert(before.entries@[k].0@ == n);
                assert(self.entries@[k] == before.entries@[k]);
                self.lemma_entry(k);
            }
            self.lemma_entry(i);
        }
        assert forall|n: Seq<char>| #[trigger] self@.contains_key(n) implies self@[n] == after[n] by {
            let k = name_place(self.entries@, n);
            assert(self.entries@[k].0@ == n);
            self.lemma_entry(k);
            before.lemma_entry(k);
            self.lemma_entry(i);
        }
        assert(self@ =~= after);
    }

    proof fn lemma_after_insert(self, before: Self, i: int)
        requires
            before.wf(),
            0 <= i <= before.entries@.len(),
            self.entries@ == before.entries@.insert(i, self.entries@[i]),
            forall|j: int|
                0 <= j < i ==> name_lt((#[trigger] before.entries@[j]).0@, self.entries@[i].0@),
            forall|j: int|
                i <= j < before.entries@.len() ==> name_lt(
                    self.entries@[i].0@,
                    (#[trigger] before.entries@[j]).0@,
                ),
        ensures
            self.wf(),
            self@ == before@.insert(self.entries@[i].0@, self.entries@[i].1),
    {
        let name = self.entries@[i].0@;
        let old_at = |j: int| if j < i { j } else { j - 1 };
        let new_at = |j: int| if j < i { j } else { j + 1 };
        assert forall|j: int| 0 <= j < self.entries@.len() && j != i implies #[trigger] self.entries@[j]
            == before.entries@[old_at(j)] by {}
        assert forall|j: int| 0 <= j < before.entries@.len() implies #[trigger] before.entries@[j]
            == self.entries@[new_at(j)] by {}
        assert forall|a: int, b: int| 0 <= a < b < self.entries@.len() implies name_lt(
            #[trigger] self.entries@[a].0@,
            #[trigger] self.entries@[b].0@,
        ) by {
            if a != i && b != i {
                assert(name_lt(before.entries@[old_at(a)].0@, before.entries@[old_at(b)].0@));
            } else if a == i {
                assert(self.entries@[b] == before.entries@[old_at(b)]);
            } else {
                assert(self.entries@[a] == before.entries@[old_at(a)]);
            }
        }
        let after = before@.insert(name, self.entries@[i].1);
        assert forall|n: Seq<char>| #[trigger] self@.contains_key(n) <==> after.contains_key(n) by {
            if self@.contains_key(n) {
                let k = name_place(self.entries@, n);
                assert(self.entries@[k].0@ == n);
                if k != i {
                    before.lemma_entry(old_at(k));
                }
            }
            if after.contains_key(n) && n != name {
                let k = name_place(before.entries@, n);
                assert(before.entries@[k].0@ == n);
                self.lemma_entry(new_at(k));
            }
            self.lemma_entry(i);
        }
        assert forall|n: Seq<char>| #[trigger] self@.contains_key(n) implies self@[n] == after[n] by {
            let k = name_place(self.entries@, n);
            assert(self.entries@[k].0@ == n);
            self.lemma_entry(k);
            if k != i {
                before.lemma_entry(old_at(k));
                assert(n != name) by {
                    self.lemma_entry(i);
                    lemma_name_order(n, n, n);
                    if k < i {
                        assert(name_lt(self.entries@[k].0@, self.entries@[i].0@));
                    } else {
                        assert(name_lt(self.entries@[i].0@, self.entries@[k].0@));
                    }
                }
            }
        }
        assert(self@ =~= after);
    }

    /// Takes the value under this name out of the map.
    pub fn remove(&mut self, name: &String) -> (value: Option<V>)
        requires
            old(self).wf(),
        ensures
            final(self).wf(),
            final(self)@ == old(self)@.remove(name@),
            value is Some <==> old(self)@.contains_key(name@),
            value matches Some(v) ==> v == old(self)@[name@],
    {
        let ghost before = *self;
        match self.place(name) {
            Some(i) => {
                let entry = self.entries.remove(i);
                proof {
                    assert(self.entries@ == before.entries@.remove(i as int));
                    self.lemma_after_remove(before, i as int);
                }
                Some(entry.1)
            },
            None => {
                assert(before@.remove(name@) =~= before@);
                None
            },
        }
    }

    proof fn lemma_after_remove(self, before: Self, i: int)
        requires
            before.wf(),
            0 <= i < before.entries@.len(),
            self.entries@ == before.entries@.remove(i),
        ensures
            self.wf(),
            self@ == before@.remove(before.entries@[i].0@),
    {
        let name = before.entries@[i].0@;
        let old_at = |j: int| if j < i { j } else { j + 1 };
        assert forall|j: int| 0 <= j < self.entries@.len() implies #[trigger] self.entries@[j]
            == before.entries@[old_at(j)] by {}
        assert forall|a: int, b: int| 0 <= a < b < self.entries@.len() implies name_lt(
            #[trigger] self.entries@[a].0@,
            #[trigger] self.entries@[b].0@,
        ) by {
            assert(name_lt(before.entries@[old_at(a)].0@, before.entries@[old_at(b)].0@));
        }
        let after = before@.remove(name);
        lemma_name_order(name, name, name);
        assert forall|n: Seq<char>| #[trigger] self@.contains_key(n) <==> after.contains_key(n) by {
            if self@.contains_key(n) {
                let k = name_place(self.entries@, n);
                assert(self.entries@[k].0@ == n);
                before.lemma_entry(old_at(k));
                if old_at(k) < i {
                    assert(name_lt(before.entries@[old_at(k)].0@, before.entries@[i].0@));
                } else {
                    assert(name_lt(before.entries@[i].0@, before.entries@[old_at(k)].0@));
                }
            }
            if after.contains_key(n) {
                let k = name_place(before.entries@, n);
                assert(before.entries@[k].0@ == n);
                assert(k != i);
                let m = if k < i { k } else { k - 1 };
                assert(self.entries@[m] == before.entries@[k]);
                self.lemma_entry(m);
            }
        }
        assert forall|n: Seq<char>| #[trigger] self@.contains_key(n) implies self@[n] == after[n] by {
            let k = name_place(self.entries@, n);
            assert(self.entries@[k].0@ == n);
            self.lemma_entry(k);
            before.lemma_entry(old_at(k));
        }
        assert(self@ =~= after);
    }
}

} // verus!
