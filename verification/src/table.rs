//! A table of values under byte-string keys.
use crate::text::same_bytes;
use vstd::prelude::*;

verus! {

/// What is held after the pairs were put in one after the other: under each key, the value that
/// came last.
pub open spec fn collected<V>(pairs: Seq<(Seq<u8>, V)>) -> Map<Seq<u8>, V>
    decreases pairs.len(),
{
    if pairs.len() == 0 {
        Map::empty()
    } else {
        collected(pairs.drop_last()).insert(pairs.last().0, pairs.last().1)
    }
}

/// Pairs with the bytes of the keys in place of the vectors that hold them.
pub open spec fn pairs_of<V>(entries: Seq<(Vec<u8>, V)>) -> Seq<(Seq<u8>, V)> {
    entries.map_values(|entry: (Vec<u8>, V)| (entry.0@, entry.1))
}

/// Pairs stand for themselves, one by one, with the bytes of each key.
pub proof fn pairs_one_by_one<V>(entries: Seq<(Vec<u8>, V)>)
    ensures
        pairs_of(entries).len() == entries.len(),
        forall|i: int|
            0 <= i < entries.len() ==> #[trigger] pairs_of(entries)[i] == (
                entries[i].0@,
                entries[i].1,
            ),
{
}

/// No key occurs twice.
pub open spec fn distinct_keys<V>(pairs: Seq<(Seq<u8>, V)>) -> bool {
    forall|i: int, j: int|
        0 <= i < j < pairs.len() ==> (#[trigger] pairs[i]).0 != (#[trigger] pairs[j]).0
}

/// A key is held where a pair brought it, and only there.
pub proof fn collected_has_key<V>(pairs: Seq<(Seq<u8>, V)>, key: Seq<u8>)
    ensures
        collected(pairs).contains_key(key) <==> exists|i: int|
            0 <= i < pairs.len() && (#[trigger] pairs[i]).0 == key,
        collected(pairs).dom().finite(),
    decreases pairs.len(),
{
    if pairs.len() > 0 {
        let rest = pairs.drop_last();
        collected_has_key(rest, key);
        if collected(pairs).contains_key(key) {
            if pairs.last().0 == key {
                assert(pairs[pairs.len() - 1].0 == key);
            } else {
                let i = choose|i: int| 0 <= i < rest.len() && (#[trigger] rest[i]).0 == key;
                assert(pairs[i].0 == key);
            }
        }
        if exists|i: int| 0 <= i < pairs.len() && (#[trigger] pairs[i]).0 == key {
            let i = choose|i: int| 0 <= i < pairs.len() && (#[trigger] pairs[i]).0 == key;
            if i < rest.len() {
                assert(rest[i].0 == key);
            }
        }
    }
}

/// Of several pairs with one key the last decides.
pub proof fn collected_last_wins<V>(pairs: Seq<(Seq<u8>, V)>, i: int)
    requires
        0 <= i < pairs.len(),
        forall|j: int| i < j < pairs.len() ==> (#[trigger] pairs[j]).0 != pairs[i].0,
    ensures
        collected(pairs).contains_key(pairs[i].0),
        collected(pairs)[pairs[i].0] == pairs[i].1,
    decreases pairs.len(),
{
    if i < pairs.len() - 1 {
        let rest = pairs.drop_last();
        assert(pairs[pairs.len() - 1].0 != pairs[i].0);
        assert forall|j: int| i < j < rest.len() implies (#[trigger] rest[j]).0 != rest[i].0 by {
            assert(pairs[j].0 != pairs[i].0);
        }
        collected_last_wins(rest, i);
    }
}

/// A pair in front of others counts where none of them has its key.
proof fn collected_prepend<V>(first: (Seq<u8>, V), rest: Seq<(Seq<u8>, V)>)
    ensures
        collected(seq![first] + rest) == if collected(rest).contains_key(first.0) {
            collected(rest)
        } else {
            collected(rest).insert(first.0, first.1)
        },
    decreases rest.len(),
{
    let all = seq![first] + rest;
    if rest.len() == 0 {
        assert(all.drop_last() =~= rest);
    } else {
        collected_prepend(first, rest.drop_last());
        assert(all.drop_last() =~= seq![first] + rest.drop_last());
        assert(all.last() == rest.last());
        assert(collected(all) =~= if collected(rest).contains_key(first.0) {
            collected(rest)
        } else {
            collected(rest).insert(first.0, first.1)
        });
    }
}

/// Where no key occurs twice, as many keys are held as pairs were put in.
pub proof fn collected_len<V>(pairs: Seq<(Seq<u8>, V)>)
    requires
        distinct_keys(pairs),
    ensures
        collected(pairs).dom().finite(),
        collected(pairs).dom().len() == pairs.len(),
    decreases pairs.len(),
{
    if pairs.len() > 0 {
        let rest = pairs.drop_last();
        assert(distinct_keys(rest)) by {
            assert forall|i: int, j: int| 0 <= i < j < rest.len() implies (#[trigger] rest[i]).0
                != (#[trigger] rest[j]).0 by {
                assert(pairs[i].0 != pairs[j].0);
            }
        }
        collected_len(rest);
        collected_has_key(rest, pairs.last().0);
        assert forall|i: int| 0 <= i < rest.len() implies (#[trigger] rest[i]).0
            != pairs.last().0 by {
            assert(pairs[i].0 != pairs[pairs.len() - 1].0);
        }
        assert(collected(pairs).dom() =~= collected(rest).dom().insert(pairs.last().0));
    }
}

/// Pairs with what each value stands for.
pub open spec fn mapped<V, W>(pairs: Seq<(Seq<u8>, V)>, f: spec_fn(V) -> W) -> Seq<(Seq<u8>, W)> {
    pairs.map_values(|pair: (Seq<u8>, V)| (pair.0, f(pair.1)))
}

/// The pairs keep their keys and their order.
pub proof fn mapped_one_by_one<V, W>(pairs: Seq<(Seq<u8>, V)>, f: spec_fn(V) -> W)
    ensures
        mapped(pairs, f).len() == pairs.len(),
        forall|i: int|
            0 <= i < pairs.len() ==> #[trigger] mapped(pairs, f)[i] == (pairs[i].0, f(pairs[i].1)),
{
}

/// Putting in one more pair changes what is held under its key and nothing else.
pub proof fn collected_grows<V>(pairs: Seq<(Seq<u8>, V)>, pair: (Seq<u8>, V))
    ensures
        collected(Seq::<(Seq<u8>, V)>::empty()) == Map::<Seq<u8>, V>::empty(),
        collected(pairs.push(pair)) == collected(pairs).insert(pair.0, pair.1),
{
    assert(pairs.push(pair).drop_last() =~= pairs);
}

/// What the held values stand for is what is held of what the values stand for.
pub proof fn collected_mapped<V, W>(pairs: Seq<(Seq<u8>, V)>, f: spec_fn(V) -> W)
    ensures
        collected(pairs).map_values(f) == collected(mapped(pairs, f)),
    decreases pairs.len(),
{
    if pairs.len() > 0 {
        collected_mapped(pairs.drop_last(), f);
        assert(mapped(pairs, f).drop_last() =~= mapped(pairs.drop_last(), f));
    }
    assert(collected(pairs).map_values(f) =~= collected(mapped(pairs, f)));
}

/// A table of values under byte-string keys, one value to a key.
#[derive(Debug)]
pub struct KeyTable<V> {
    entries: Vec<(Vec<u8>, V)>,
}

impl<V> View for KeyTable<V> {
    type V = Map<Seq<u8>, V>;

    closed spec fn view(&self) -> Map<Seq<u8>, V> {
        collected(pairs_of(self.entries@))
    }
}

impl<V> KeyTable<V> {
    #[verifier::type_invariant]
    spec fn keyed(self) -> bool {
        distinct_keys(pairs_of(self.entries@))
    }

    /// Where a key stands among entries.
    fn position(entries: &Vec<(Vec<u8>, V)>, key: &[u8]) -> (found: Option<usize>)
        ensures
            match found {
                Some(i) => i < entries@.len() && entries@[i as int].0@ == key@,
                None => forall|i: int| 0 <= i < entries@.len() ==> (#[trigger] entries@[i]).0@ != key@,
            },
    {
        let n: usize = entries.len();
        let mut i: usize = 0;
        while i < n
            invariant
                i <= n,
                n == entries@.len(),
                forall|j: int| 0 <= j < i ==> (#[trigger] entries@[j]).0@ != key@,
            decreases n - i,
        {
            if same_bytes(entries[i].0.as_slice(), key) {
                return Some(i);
            }
            i += 1;
        }
        None
    }

    /// The table of the given pairs; of several with one key the last stays.
    pub fn from_pairs(pairs: Vec<(Vec<u8>, V)>) -> (table: Self)
        ensures
            table@ == collected(pairs_of(pairs@)),
            forall|i: int|
                0 <= i < pairs@.len() && (forall|j: int|
                    i < j < pairs@.len() ==> (#[trigger] pairs@[j]).0@ != pairs@[i].0@)
                    ==> table@.contains_key((#[trigger] pairs@[i]).0@) && table@[pairs@[i].0@]
                    == pairs@[i].1,
            forall|key: Seq<u8>| #[trigger]
                table@.contains_key(key) ==> exists|i: int|
                    0 <= i < pairs@.len() && (#[trigger] pairs@[i]).0@ == key,
    {
        let ghost came = pairs@;
        let ghost given = pairs_of(pairs@);
        let mut left = pairs;
        let mut entries: Vec<(Vec<u8>, V)> = Vec::new();
        assert(given.skip(left@.len() as int) =~= pairs_of(entries@));
        while left.len() > 0
            invariant
                left@.len() <= given.len(),
                pairs_of(left@) == given.take(left@.len() as int),
                distinct_keys(pairs_of(entries@)),
                collected(pairs_of(entries@)) == collected(given.skip(left@.len() as int)),
            decreases left.len(),
        {
            let ghost n = left@.len() as int;
            let ghost before = left@;
            let ghost held = entries@;
            if let Some((key, value)) = left.pop() {
                let ghost first = (key@, value);
                proof {
                    assert(pairs_of(before)[n - 1] == first);
                    assert(given[n - 1] == given.take(n)[n - 1]);
                    assert(given.skip(n - 1) =~= seq![first] + given.skip(n));
                    collected_prepend(first, given.skip(n));
                    assert(pairs_of(left@) =~= given.take(n - 1)) by {
                        assert forall|i: int| 0 <= i < n - 1 implies pairs_of(left@)[i]
                            == given.take(n - 1)[i] by {
                            assert(pairs_of(left@)[i] == pairs_of(before)[i]);
                            assert(given.take(n)[i] == given[i]);
                        }
                    }
                    collected_has_key(pairs_of(held), key@);
                }
                match Self::position(&entries, key.as_slice()) {
                    Some(i) => {
                        assert(pairs_of(held)[i as int].0 == key@);
                    },
                    None => {
                        entries.push((key, value));
                        proof {
                            assert forall|i: int| 0 <= i < held.len() implies (#[trigger] pairs_of(
                                held,
                            )[i]).0 != first.0 by {
                                assert(held[i].0@ != first.0);
                            }
                            assert(pairs_of(entries@) =~= pairs_of(held).push(first));
                            assert(pairs_of(entries@).drop_last() =~= pairs_of(held));
                        }
                    },
                }
            }
        }
        assert(given.skip(0) =~= given);
        proof {
            assert forall|i: int|
                0 <= i < came.len() && (forall|j: int|
                    i < j < came.len() ==> (#[trigger] came[j]).0@ != came[i].0@) implies collected(
                given,
            ).contains_key((#[trigger] came[i]).0@) && collected(given)[came[i].0@] == came[i].1 by {
                assert forall|j: int| i < j < given.len() implies (#[trigger] given[j]).0
                    != given[i].0 by {
                    assert(came[j].0@ != came[i].0@);
                }
                collected_last_wins(given, i);
            }
            assert forall|key: Seq<u8>| #[trigger]
                collected(given).contains_key(key) implies exists|i: int|
                0 <= i < came.len() && (#[trigger] came[i]).0@ == key by {
                collected_has_key(given, key);
                let i = choose|i: int| 0 <= i < given.len() && (#[trigger] given[i]).0 == key;
                assert(came[i].0@ == key);
            }
        }
        KeyTable { entries }
    }

    /// The value under a key.
    pub fn get(&self, key: &[u8]) -> (value: Option<&V>)
        ensures
            value is Some <==> self@.contains_key(key@),
            value is Some ==> *value->0 == self@[key@],
    {
        proof {
            use_type_invariant(self);
            collected_has_key(pairs_of(self.entries@), key@);
        }
        let ghost pairs = pairs_of(self.entries@);
        match Self::position(&self.entries, key) {
            Some(i) => {
                proof {
                    assert(pairs[i as int].0 == key@);
                    assert forall|j: int| i < j < pairs.len() implies (#[trigger] pairs[j]).0
                        != pairs[i as int].0 by {}
                    collected_last_wins(pairs, i as int);
                }
                Some(&self.entries[i].1)
            },
            None => {
                assert forall|i: int| 0 <= i < pairs.len() implies (#[trigger] pairs[i]).0
                    != key@ by {
                    assert(self.entries@[i].0@ != key@);
                }
                None
            },
        }
    }

    /// The pairs that the table holds.
    pub fn pairs(&self) -> (pairs: &Vec<(Vec<u8>, V)>)
        ensures
            collected(pairs_of(pairs@)) == self@,
            distinct_keys(pairs_of(pairs@)),
    {
        proof {
            use_type_invariant(self);
        }
        &self.entries
    }

    /// The number of keys.
    pub fn len(&self) -> (n: usize)
        ensures
            self@.dom().finite(),
            n == self@.dom().len(),
    {
        proof {
            use_type_invariant(self);
            collected_len(pairs_of(self.entries@));
        }
        self.entries.len()
    }
}

} // verus!
