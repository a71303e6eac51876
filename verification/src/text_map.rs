//! Maps from texts, or tuples of texts, to values that remember the order of
//! insertion.

use vstd::prelude::*;

verus! {

/// A key made of texts.
pub trait TextKey: Sized {
    /// What the key says.
    type Text;

    spec fn text(&self) -> Self::Text;

    /// Whether two keys say the same.
    fn same_key(&self, other: &Self) -> (r: bool)
        ensures
            r == (self.text() == other.text()),
    ;
}

impl TextKey for String {
    type Text = Seq<char>;

    open spec fn text(&self) -> Seq<char> {
        self@
    }

    fn same_key(&self, other: &Self) -> (r: bool) {
        *self == *other
    }
}

impl TextKey for (String, String) {
    type Text = (Seq<char>, Seq<char>);

    open spec fn text(&self) -> (Seq<char>, Seq<char>) {
        (self.0.text(), self.1@)
    }

    fn same_key(&self, other: &Self) -> (r: bool) {
        self.0 == other.0 && self.1 == other.1
    }
}

impl TextKey for (String, String, String) {
    type Text = (Seq<char>, Seq<char>, Seq<char>);

    open spec fn text(&self) -> (Seq<char>, Seq<char>, Seq<char>) {
        (self.0.text(), self.1@, self.2@)
    }

    fn same_key(&self, other: &Self) -> (r: bool) {
        self.0 == other.0 && self.1 == other.1 && self.2 == other.2
    }
}

/// A map from keys to values. Each key occurs once; entries stand in the order
/// in which their keys were first inserted.
pub struct TextMap<K: TextKey, V> {
    entries: Vec<(K, V)>,
}

/// The position of the entry for `key`.
pub open spec fn key_at<K: TextKey, V>(entries: Seq<(K, V)>, key: K::Text, i: int) -> bool {
    0 <= i < entries.len() && entries[i].0.text() == key
}

/// No key occurs twice.
pub open spec fn distinct_keys<K: TextKey, V>(entries: Seq<(K, V)>) -> bool {
    forall|i: int, j: int|
        0 <= i < j < entries.len() ==> (#[trigger] entries[i]).0.text() != (#[trigger] entries[j]).0.text()
}

/// The map that the entries stand for.
pub open spec fn map_of<K: TextKey, V>(entries: Seq<(K, V)>) -> Map<K::Text, V> {
    Map::new(
        |key: K::Text| exists|i: int| #[trigger] key_at(entries, key, i),
        |key: K::Text| entries[choose|i: int| #[trigger] key_at(entries, key, i)].1,
    )
}

proof fn entry_is_mapped<K: TextKey, V>(entries: Seq<(K, V)>, i: int)
    requires
        distinct_keys(entries),
        0 <= i < entries.len(),
    ensures
        map_of(entries).dom().contains(entries[i].0.text()),
        map_of(entries)[entries[i].0.text()] == entries[i].1,
{
    let key = entries[i].0.text();
    assert(key_at(entries, key, i));
    let j = choose|j: int| #[trigger] key_at(entries, key, j);
    assert(key_at(entries, key, j));
    assert(i == j);
}

impl<K: TextKey, V> View for TextMap<K, V> {
    type V = Map<K::Text, V>;

    closed spec fn view(&self) -> Map<K::Text, V> {
        map_of(self.entries@)
    }
}

impl<K: TextKey, V> TextMap<K, V> {
    /// No key occurs twice.
    pub closed spec fn wf(&self) -> bool {
        distinct_keys(self.entries@)
    }

    /// The entries in order.
    pub closed spec fn listing(&self) -> Seq<(K, V)> {
        self.entries@
    }

    pub fn new() -> (r: Self)
        ensures
            r.wf(),
            r@ == Map::<K::Text, V>::empty(),
            r.listing() == Seq::<(K, V)>::empty(),
    {
        let r = TextMap { entries: Vec::new() };
        assert(r@ =~= Map::<K::Text, V>::empty());
        r
    }

    /// Every key that is mapped is listed with its value.
    pub proof fn key_is_listed(&self, key: K::Text)
        requires
            self.wf(),
            self@.dom().contains(key),
        ensures
            exists|i: int| #[trigger]
                key_at(self.listing(), key, i) && self.listing()[i].1 == self@[key],
    {
        let i = choose|i: int| #[trigger] key_at(self.entries@, key, i);
        entry_is_mapped(self.entries@, i);
        assert(key_at(self.listing(), key, i) && self.listing()[i].1 == self@[key]);
    }

    /// Every entry is mapped, and no other entry has its key.
    pub proof fn listed_is_mapped(&self, i: int)
        requires
            self.wf(),
            0 <= i < self.listing().len(),
        ensures
            self@.dom().contains(self.listing()[i].0.text()),
            self@[self.listing()[i].0.text()] == self.listing()[i].1,
            distinct_keys(self.listing()),
    {
        entry_is_mapped(self.entries@, i);
    }

    /// The number of entries.
    pub fn len(&self) -> (n: usize)
        ensures
            n == self.listing().len(),
    {
        self.entries.len()
    }

    /// The entry at a position.
    pub fn entry(&self, i: usize) -> (r: &(K, V))
        requires
            self.wf(),
            i < self.listing().len(),
        ensures
            *r == self.listing()[i as int],
            self@.dom().contains(r.0.text()),
            self@[r.0.text()] == r.1,
            distinct_keys(self.listing()),
            self@ == map_of(self.listing()),
    {
        proof {
            entry_is_mapped(self.entries@, i as int);
        }
        &self.entries[i]
    }

    fn position(&self, key: &K) -> (r: Option<usize>)
        ensures
            match r {
                Some(i) => key_at(self.entries@, key.text(), i as int),
                None => forall|i: int| !#[trigger] key_at(self.entries@, key.text(), i),
            },
    {
        let mut i: usize = 0;
        while i < self.entries.len()
            invariant
                i <= self.entries.len(),
                forall|j: int| 0 <= j < i ==> !#[trigger] key_at(self.entries@, key.text(), j),
            decreases self.entries.len() - i,
        {
            if self.entries[i].0.same_key(key) {
                return Some(i);
            }
            i += 1;
        }
        None
    }

    pub fn contains(&self, key: &K) -> (b: bool)
        requires
            self.wf(),
        ensures
            b == self@.dom().contains(key.text()),
    {
        self.position(key).is_some()
    }

    pub fn get(&self, key: &K) -> (r: Option<&V>)
        requires
            self.wf(),
        ensures
            match r {
                Some(v) => self@.dom().contains(key.text()) && self@[key.text()] == *v,
                None => !self@.dom().contains(key.text()),
            },
    {
        match self.position(key) {
            Some(i) => {
                proof {
                    entry_is_mapped(self.entries@, i as int);
                }
                Some(&self.entries[i].1)
            },
            None => None,
        }
    }

    /// Maps `key` to `value`, in its old place where it has one and at the end
    /// otherwise.
    pub fn insert(&mut self, key: K, value: V)
        requires
            old(self).wf(),
        ensures
            final(self).wf(),
            final(self)@ == old(self)@.insert(key.text(), value),
            final(self).listing().len() == old(self).listing().len() + (if old(
                self,
            )@.dom().contains(key.text()) {
                0int
            } else {
                1int
            }),
            !old(self)@.dom().contains(key.text()) ==> final(self).listing() == old(
                self,
            ).listing().push((key, value)),
            old(self)@.dom().contains(key.text()) ==> exists|i: int| #[trigger]
                key_at(old(self).listing(), key.text(), i) && final(self).listing() == old(
                    self,
                ).listing().update(i, (key, value)),
    {
        let ghost before = self.entries@;
        match self.position(&key) {
            Some(i) => {
                let ghost k = key.text();
                assert(key_at(before, k, i as int));
                self.entries.set(i, (key, value));
                proof {
                    let after = self.entries@;
                    assert forall|x: K::Text| #[trigger]
                        map_of(after).dom().contains(x) == map_of(before).insert(
                            k,
                            value,
                        ).dom().contains(x) by {
                        if map_of(after).dom().contains(x) {
                            let j = choose|j: int| #[trigger] key_at(after, x, j);
                            assert(key_at(before, x, j));
                        }
                        if map_of(before).dom().contains(x) {
                            let j = choose|j: int| #[trigger] key_at(before, x, j);
                            assert(key_at(after, x, j));
                        }
                        if x == k {
                            assert(key_at(after, x, i as int));
                        }
                    }
                    assert forall|x: K::Text| #[trigger]
                        map_of(after).dom().contains(x) implies map_of(after)[x] == map_of(
                        before,
                    ).insert(k, value)[x] by {
                        let j = choose|j: int| #[trigger] key_at(after, x, j);
                        entry_is_mapped(after, j);
                        entry_is_mapped(before, j);
                    }
                    assert(map_of(after) =~= map_of(before).insert(k, value));
                }
            },
            None => {
                let ghost k = key.text();
                proof {
                    assert forall|i: int| 0 <= i < before.len() implies (
                    #[trigger] before[i]).0.text() != k by {
                        assert(!key_at(before, k, i));
                    }
                }
                self.entries.push((key, value));
                proof {
                    let after = self.entries@;
                    assert forall|x: K::Text| #[trigger]
                        map_of(after).dom().contains(x) == map_of(before).insert(
                            k,
                            value,
                        ).dom().contains(x) by {
                        if map_of(after).dom().contains(x) {
                            let j = choose|j: int| #[trigger] key_at(after, x, j);
                            if j < before.len() {
                                assert(key_at(before, x, j));
                            }
                        }
                        if map_of(before).dom().contains(x) {
                            let j = choose|j: int| #[trigger] key_at(before, x, j);
                            assert(key_at(after, x, j));
                        }
                        if x == k {
                            assert(key_at(after, x, before.len() as int));
                        }
                    }
                    assert forall|x: K::Text| #[trigger]
                        map_of(after).dom().contains(x) implies map_of(after)[x] == map_of(
                        before,
                    ).insert(k, value)[x] by {
                        let j = choose|j: int| #[trigger] key_at(after, x, j);
                        entry_is_mapped(after, j);
                        if j < before.len() {
                            entry_is_mapped(before, j);
                        }
                    }
                    assert(map_of(after) =~= map_of(before).insert(k, value));
                }
            },
        }
    }
}

} // verus!
