//! A map kept as a list of entries, for keys that are compared and never hashed.
use vstd::prelude::*;

verus! {

/// A key of a [`LinearMap`].
pub trait Key: Sized {
    /// What a key stands for.
    type K;

    /// The value that this key stands for.
    spec fn key(&self) -> Self::K;

    /// Whether the two keys stand for the same value.
    fn same(&self, other: &Self) -> (b: bool)
        ensures
            b == (self.key() == other.key()),
    ;
}

impl Key for String {
    type K = Seq<char>;

    open spec fn key(&self) -> Seq<char> {
        self@
    }

    fn same(&self, other: &Self) -> (b: bool) {
        *self == *other
    }
}

/// The map that a list of entries stands for: of two entries with the same key, the later one
/// counts.
pub open spec fn table<Q: Key, V>(entries: Seq<(Q, V)>) -> Map<Q::K, V>
    decreases entries.len(),
{
    if entries.len() == 0 {
        Map::empty()
    } else {
        table(entries.drop_last()).insert(entries.last().0.key(), entries.last().1)
    }
}

/// The map of a list that is written in two parts.
proof fn lemma_table_add<Q: Key, V>(left: Seq<(Q, V)>, right: Seq<(Q, V)>)
    ensures
        table(left + right) == table(left).union_prefer_right(table(right)),
    decreases right.len(),
{
    if right.len() == 0 {
        assert(left + right == left);
        assert(table(left) =~= table(left).union_prefer_right(table(right)));
    } else {
        assert((left + right).drop_last() == left + right.drop_last());
        lemma_table_add(left, right.drop_last());
        assert(table(left + right) =~= table(left).union_prefer_right(table(right)));
    }
}

/// The map of a list with one entry added in front.
proof fn lemma_table_front<Q: Key, V>(first: (Q, V), rest: Seq<(Q, V)>)
    ensures
        table(seq![first] + rest) == Map::<Q::K, V>::empty().insert(
            first.0.key(),
            first.1,
        ).union_prefer_right(table(rest)),
{
    lemma_table_add(seq![first], rest);
    assert(seq![first].drop_last() == Seq::<(Q, V)>::empty());
    assert(table(seq![first].drop_last()) == Map::<Q::K, V>::empty());
    assert(seq![first].last() == first);
}

/// A map from keys to values, kept as a list.
pub struct LinearMap<Q: Key, V> {
    entries: Vec<(Q, V)>,
}

impl<Q: Key, V> View for LinearMap<Q, V> {
    type V = Map<Q::K, V>;

    closed spec fn view(&self) -> Map<Q::K, V> {
        table(self.entries@)
    }
}

impl<Q: Key, V> LinearMap<Q, V> {
    /// The map without entries.
    pub fn new() -> (map: Self)
        ensures
            map@ == Map::<Q::K, V>::empty(),
    {
        LinearMap { entries: Vec::new() }
    }

    /// The value stored under the key, if any.
    pub fn get(&self, key: &Q) -> (value: Option<&V>)
        ensures
            value == (if self@.contains_key(key.key()) {
                Some(&self@[key.key()])
            } else {
                None
            }),
    {
        let mut i: usize = self.entries.len();
        proof {
            assert(self.entries@.skip(i as int) == Seq::<(Q, V)>::empty());
        }
        while i > 0
            invariant
                i <= self.entries@.len(),
                !table(self.entries@.skip(i as int)).contains_key(key.key()),
            decreases i,
        {
            i = i - 1;
            let ghost at = i as int;
            proof {
                let rest = self.entries@.skip(at + 1);
                assert(self.entries@.skip(at) == seq![self.entries@[at]] + rest);
                lemma_table_front(self.entries@[at], rest);
                assert(self.entries@ == self.entries@.take(at) + self.entries@.skip(at));
                lemma_table_add(self.entries@.take(at), self.entries@.skip(at));
            }
            if self.entries[i].0.same(key) {
                return Some(&self.entries[i].1);
            }
        }
        proof {
            assert(self.entries@.skip(0) == self.entries@);
        }
        None
    }

    /// Takes the key out, with the value stored under it.
    pub fn remove(&mut self, key: &Q) -> (value: Option<V>)
        ensures
            final(self)@ == old(self)@.remove(key.key()),
            value == (if old(self)@.contains_key(key.key()) {
                Some(old(self)@[key.key()])
            } else {
                None
            }),
    {
        let ghost start = self.entries@;
        let ghost mut tail = Seq::<(Q, V)>::empty();
        let mut found: Option<V> = None;
        let mut i: usize = self.entries.len();
        proof {
            assert(start.skip(i as int) == Seq::<(Q, V)>::empty());
            assert(self.entries@ == start.take(i as int) + tail);
            assert(table(tail) =~= table(start.skip(i as int)).remove(key.key()));
        }
        while i > 0
            invariant
                i <= start.len(),
                self.entries@ == start.take(i as int) + tail,
                table(tail) == table(start.skip(i as int)).remove(key.key()),
                found == (if table(start.skip(i as int)).contains_key(key.key()) {
                    Some(table(start.skip(i as int))[key.key()])
                } else {
                    None
                }),
            decreases i,
        {
            i = i - 1;
            let ghost at = i as int;
            proof {
                assert(start.skip(at) == seq![start[at]] + start.skip(at + 1));
                lemma_table_front(start[at], start.skip(at + 1));
                assert(self.entries@[at] == start[at]);
            }
            if self.entries[i].0.same(key) {
                let entry = self.entries.remove(i);
                if found.is_none() {
                    found = Some(entry.1);
                }
                proof {
                    assert(self.entries@ == start.take(at) + tail);
                    assert(table(tail) =~= table(start.skip(at)).remove(key.key()));
                }
            } else {
                proof {
                    let longer = seq![start[at]] + tail;
                    lemma_table_front(start[at], tail);
                    assert(self.entries@ == start.take(at) + longer);
                    assert(table(longer) =~= table(start.skip(at)).remove(key.key()));
                    tail = longer;
                }
            }
        }
        proof {
            assert(start.skip(0) == start);
            assert(self.entries@ == tail);
        }
        found
    }

    /// Stores the value under the key, in place of what was stored there.
    pub fn insert(&mut self, key: Q, value: V)
        ensures
            final(self)@ == old(self)@.insert(key.key(), value),
    {
        let ghost start = self@;
        let _ = self.remove(&key);
        let ghost kept = self.entries@;
        self.entries.push((key, value));
        proof {
            assert(self.entries@.drop_last() == kept);
            assert(table(self.entries@) =~= start.insert(key.key(), value));
        }
    }
}

/// A key gives back what was stored under it last, and nothing once it was taken out. Other keys are
/// left alone.
pub proof fn law_keys_give_back<Q: Key, V>(
    storing: &mut LinearMap<Q, V>,
    key: Q,
    value: V,
    stored: Option<&V>,
    taking: &mut LinearMap<Q, V>,
    taken: Option<V>,
    left: Option<&V>,
    other: Q,
    before: Option<&V>,
    between: Option<&V>,
    after: Option<&V>,
)
    requires
        call_ensures(LinearMap::<Q, V>::insert, (storing, key, value), ()),
        call_ensures(LinearMap::<Q, V>::get, (&*final(storing), &key), stored),
        *old(taking) == *final(storing),
        call_ensures(LinearMap::<Q, V>::remove, (taking, &key), taken),
        call_ensures(LinearMap::<Q, V>::get, (&*final(taking), &key), left),
        other.key() != key.key(),
        call_ensures(LinearMap::<Q, V>::get, (&*old(storing), &other), before),
        call_ensures(LinearMap::<Q, V>::get, (&*final(storing), &other), between),
        call_ensures(LinearMap::<Q, V>::get, (&*final(taking), &other), after),
    ensures
        stored == Some(&value),
        taken == Some(value),
        left is None,
        between == before,
        after == before,
{
}

/// Nothing is stored in a new map.
pub proof fn law_new_map<Q: Key, V>(map: LinearMap<Q, V>, key: Q, stored: Option<&V>)
    requires
        call_ensures(LinearMap::<Q, V>::new, (), map),
        call_ensures(LinearMap::<Q, V>::get, (&map, &key), stored),
    ensures
        stored is None,
{
}

} // verus!
