use vstd::prelude::*;

verus! {

/// The text of the name of the pair at position `i`.
pub open spec fn key_at(pairs: Seq<(String, String)>, i: int) -> Seq<char> {
    pairs[i].0@
}

/// The text of the value of the pair at position `i`.
pub open spec fn value_at(pairs: Seq<(String, String)>, i: int) -> Seq<char> {
    pairs[i].1@
}

/// The mapping that a list of pairs stands for when each pair is written over
/// the ones before it: of two pairs with one name the later one counts.
pub open spec fn overlaid(pairs: Seq<(String, String)>) -> Map<Seq<char>, Seq<char>>
    decreases pairs.len(),
{
    if pairs.len() == 0 {
        Map::empty()
    } else {
        overlaid(pairs.drop_last()).insert(pairs.last().0@, pairs.last().1@)
    }
}

/// No name occurs twice in the list.
pub open spec fn distinct_keys(pairs: Seq<(String, String)>) -> bool {
    forall|i: int, j: int|
        #![trigger key_at(pairs, i), key_at(pairs, j)]
        0 <= i < j < pairs.len() ==> key_at(pairs, i) != key_at(pairs, j)
}

/// Some pair of the list has the name `key`.
pub open spec fn names(pairs: Seq<(String, String)>, key: Seq<char>) -> bool {
    exists|i: int| 0 <= i < pairs.len() && #[trigger] key_at(pairs, i) == key
}

/// A list with one more pair stands for the mapping of the list with that pair
/// written over it.
pub proof fn lemma_overlaid_push(pairs: Seq<(String, String)>, pair: (String, String))
    ensures
        overlaid(pairs.push(pair)) == overlaid(pairs).insert(pair.0@, pair.1@),
{
    assert(pairs.push(pair).drop_last() =~= pairs);
}

/// The mapping of a list holds exactly the names of its pairs, and is finite.
pub proof fn lemma_overlaid_domain(pairs: Seq<(String, String)>)
    ensures
        overlaid(pairs).dom().finite(),
        forall|key: Seq<char>| #[trigger] overlaid(pairs).contains_key(key) <==> names(pairs, key),
    decreases pairs.len(),
{
    if pairs.len() > 0 {
        let front = pairs.drop_last();
        lemma_overlaid_domain(front);
        assert forall|key: Seq<char>| #[trigger]
            overlaid(pairs).contains_key(key) <==> names(pairs, key) by {
            if names(pairs, key) {
                let i = choose|i: int| 0 <= i < pairs.len() && #[trigger] key_at(pairs, i) == key;
                if i < pairs.len() - 1 {
                    assert(key_at(front, i) == key);
                    assert(names(front, key));
                }
            }
            if overlaid(pairs).contains_key(key) {
                if key == pairs.last().0@ {
                    assert(key_at(pairs, pairs.len() - 1) == key);
                } else {
                    assert(names(front, key));
                    let i = choose|i: int|
                        0 <= i < front.len() && #[trigger] key_at(front, i) == key;
                    assert(key_at(pairs, i) == key);
                }
            }
        }
    }
}

/// Where no name occurs twice, each pair's name maps to that pair's value.
pub proof fn lemma_overlaid_lookup(pairs: Seq<(String, String)>, i: int)
    requires
        distinct_keys(pairs),
        0 <= i < pairs.len(),
    ensures
        overlaid(pairs).contains_key(key_at(pairs, i)),
        overlaid(pairs)[key_at(pairs, i)] == value_at(pairs, i),
    decreases pairs.len(),
{
    if i < pairs.len() - 1 {
        let front = pairs.drop_last();
        assert forall|a: int, b: int|
            #![trigger key_at(front, a), key_at(front, b)]
            0 <= a < b < front.len() implies key_at(front, a) != key_at(front, b) by {
            assert(key_at(pairs, a) != key_at(pairs, b));
        }
        lemma_overlaid_lookup(front, i);
        assert(key_at(pairs, i) != key_at(pairs, pairs.len() - 1));
        assert(key_at(front, i) == key_at(pairs, i));
    }
}

/// Where no name occurs twice, the mapping has as many names as the list has
/// pairs.
pub proof fn lemma_overlaid_len(pairs: Seq<(String, String)>)
    requires
        distinct_keys(pairs),
    ensures
        overlaid(pairs).dom().finite(),
        overlaid(pairs).len() == pairs.len(),
    decreases pairs.len(),
{
    lemma_overlaid_domain(pairs);
    if pairs.len() > 0 {
        let front = pairs.drop_last();
        assert forall|a: int, b: int|
            #![trigger key_at(front, a), key_at(front, b)]
            0 <= a < b < front.len() implies key_at(front, a) != key_at(front, b) by {
            assert(key_at(pairs, a) != key_at(pairs, b));
        }
        lemma_overlaid_len(front);
        lemma_overlaid_domain(front);
        let last = pairs.last().0@;
        if names(front, last) {
            let i = choose|i: int| 0 <= i < front.len() && #[trigger] key_at(front, i) == last;
            assert(key_at(pairs, i) != key_at(pairs, pairs.len() - 1));
        }
        assert(!overlaid(front).contains_key(last));
        assert(overlaid(pairs).dom() =~= overlaid(front).dom().insert(last));
    }
}

/// Where no name occurs twice, giving the pair at `i` a new value, under the
/// same name, writes that value over the old one in the mapping.
pub proof fn lemma_overlaid_update(pairs: Seq<(String, String)>, i: int, pair: (String, String))
    requires
        distinct_keys(pairs),
        0 <= i < pairs.len(),
        pair.0@ == key_at(pairs, i),
    ensures
        distinct_keys(pairs.update(i, pair)),
        overlaid(pairs.update(i, pair)) == overlaid(pairs).insert(pair.0@, pair.1@),
    decreases pairs.len(),
{
    let changed = pairs.update(i, pair);
    assert forall|a: int, b: int|
        #![trigger key_at(changed, a), key_at(changed, b)]
        0 <= a < b < changed.len() implies key_at(changed, a) != key_at(changed, b) by {
        assert(key_at(pairs, a) != key_at(pairs, b));
    }
    let front = pairs.drop_last();
    if i == pairs.len() - 1 {
        assert(changed.drop_last() =~= front);
        assert(overlaid(changed) =~= overlaid(pairs).insert(pair.0@, pair.1@));
    } else {
        assert forall|a: int, b: int|
            #![trigger key_at(front, a), key_at(front, b)]
            0 <= a < b < front.len() implies key_at(front, a) != key_at(front, b) by {
            assert(key_at(pairs, a) != key_at(pairs, b));
        }
        assert(key_at(front, i) == key_at(pairs, i));
        lemma_overlaid_update(front, i, pair);
        assert(changed.drop_last() =~= front.update(i, pair));
        assert(changed.last() == pairs.last());
        assert(key_at(pairs, i) != key_at(pairs, pairs.len() - 1));
        assert(overlaid(changed) =~= overlaid(pairs).insert(pair.0@, pair.1@));
    }
}

/// Where no name occurs twice, taking the pair at `i` out of the list takes its
/// name out of the mapping.
pub proof fn lemma_overlaid_remove(pairs: Seq<(String, String)>, i: int)
    requires
        distinct_keys(pairs),
        0 <= i < pairs.len(),
    ensures
        distinct_keys(pairs.remove(i)),
        overlaid(pairs.remove(i)) == overlaid(pairs).remove(key_at(pairs, i)),
    decreases pairs.len(),
{
    let rest = pairs.remove(i);
    let key = key_at(pairs, i);
    assert forall|a: int, b: int|
        #![trigger key_at(rest, a), key_at(rest, b)]
        0 <= a < b < rest.len() implies key_at(rest, a) != key_at(rest, b) by {
        let a0 = if a < i { a } else { a + 1 };
        let b0 = if b < i { b } else { b + 1 };
        assert(key_at(pairs, a0) != key_at(pairs, b0));
    }
    let front = pairs.drop_last();
    assert forall|a: int, b: int|
        #![trigger key_at(front, a), key_at(front, b)]
        0 <= a < b < front.len() implies key_at(front, a) != key_at(front, b) by {
        assert(key_at(pairs, a) != key_at(pairs, b));
    }
    if i == pairs.len() - 1 {
        assert(rest =~= front);
        lemma_overlaid_domain(front);
        if names(front, key) {
            let j = choose|j: int| 0 <= j < front.len() && #[trigger] key_at(front, j) == key;
            assert(key_at(pairs, j) != key_at(pairs, i));
        }
        assert(overlaid(rest) =~= overlaid(pairs).remove(key));
    } else {
        assert(key_at(front, i) == key);
        lemma_overlaid_remove(front, i);
        assert(rest.drop_last() =~= front.remove(i));
        assert(rest.last() == pairs.last());
        assert(key_at(pairs, i) != key_at(pairs, pairs.len() - 1));
        assert(overlaid(rest) =~= overlaid(pairs).remove(key));
    }
}

/// A set of named text values, as a request or a reply carries them. A name
/// occurs once; writing a name again replaces its value.
#[derive(Debug)]
pub struct Headers {
    entries: Vec<(String, String)>,
}

impl View for Headers {
    type V = Map<Seq<char>, Seq<char>>;

    closed spec fn view(&self) -> Map<Seq<char>, Seq<char>> {
        overlaid(self.entries@)
    }
}

impl Headers {
    #[verifier::type_invariant]
    spec fn keys_are_distinct(self) -> bool {
        distinct_keys(self.entries@)
    }

    /// Creates a set without names.
    pub fn new() -> (headers: Headers)
        ensures
            headers@ == Map::<Seq<char>, Seq<char>>::empty(),
    {
        Headers { entries: Vec::new() }
    }

    /// The position of the pair named `key`, if there is one.
    fn position(&self, key: &String) -> (found: Option<usize>)
        ensures
            match found {
                Some(i) => i < self.entries@.len() && key_at(self.entries@, i as int) == key@,
                None => !names(self.entries@, key@),
            },
    {
        let mut i: usize = 0;
        while i < self.entries.len()
            invariant
                i <= self.entries@.len(),
                forall|j: int| 0 <= j < i ==> key_at(self.entries@, j) != key@,
            decreases self.entries@.len() - i,
        {
            if self.entries[i].0 == *key {
                return Some(i);
            }
            i = i + 1;
        }
        None
    }

    /// The number of names.
    pub fn len(&self) -> (count: usize)
        ensures
            self@.dom().finite(),
            count == self@.len(),
    {
        proof {
            use_type_invariant(self);
            lemma_overlaid_len(self.entries@);
        }
        self.entries.len()
    }

    /// Whether the set has no names.
    pub fn is_empty(&self) -> (empty: bool)
        ensures
            empty == (self@ == Map::<Seq<char>, Seq<char>>::empty()),
    {
        proof {
            use_type_invariant(self);
            lemma_overlaid_len(self.entries@);
            if self.entries@.len() == 0 {
                assert(self@ =~= Map::<Seq<char>, Seq<char>>::empty());
            }
        }
        self.entries.len() == 0
    }

    /// Whether the set has the name `key`.
    pub fn contains_key(&self, key: &str) -> (present: bool)
        ensures
            present == self@.contains_key(key@),
    {
        let owned = key.to_owned();
        let found = self.position(&owned);
        proof {
            lemma_overlaid_domain(self.entries@);
        }
        found.is_some()
    }

    /// The value written under `key`, if the set has that name.
    pub fn get(&self, key: &str) -> (value: Option<&String>)
        ensures
            match value {
                Some(text) => self@.contains_key(key@) && self@[key@] == text@,
                None => !self@.contains_key(key@),
            },
    {
        let owned = key.to_owned();
        let found = self.position(&owned);
        proof {
            use_type_invariant(self);
            lemma_overlaid_domain(self.entries@);
        }
        match found {
            Some(i) => {
                proof {
                    lemma_overlaid_lookup(self.entries@, i as int);
                }
                Some(&self.entries[i].1)
            },
            None => None,
        }
    }

    /// Writes `value` under `key`, over the value that the name had, if any.
    pub fn insert(&mut self, key: String, value: String)
        ensures
            final(self)@ == old(self)@.insert(key@, value@),
    {
        let found = self.position(&key);
        proof {
            use_type_invariant(&*self);
        }
        let mut taken = Headers::new();
        std::mem::swap(self, &mut taken);
        let mut entries = taken.entries;
        match found {
            Some(i) => {
                proof {
                    lemma_overlaid_update(entries@, i as int, (key, value));
                }
                entries.set(i, (key, value));
            },
            None => {
                proof {
                    lemma_overlaid_push(entries@, (key, value));
                    let grown = entries@.push((key, value));
                    assert forall|a: int, b: int|
                        #![trigger key_at(grown, a), key_at(grown, b)]
                        0 <= a < b < grown.len() implies key_at(grown, a) != key_at(grown, b) by {
                        if b < entries@.len() {
                            assert(key_at(entries@, a) != key_at(entries@, b));
                        } else {
                            assert(key_at(entries@, a) != key@);
                        }
                    }
                }
                entries.push((key, value));
            },
        }
        *self = Headers { entries };
    }

    /// Takes the name `key` out of the set, with its value.
    pub fn remove(&mut self, key: &str)
        ensures
            final(self)@ == old(self)@.remove(key@),
    {
        let owned = key.to_owned();
        let found = self.position(&owned);
        proof {
            use_type_invariant(&*self);
            lemma_overlaid_domain(self.entries@);
        }
        match found {
            Some(i) => {
                let mut taken = Headers::new();
                std::mem::swap(self, &mut taken);
                let mut entries = taken.entries;
                proof {
                    lemma_overlaid_remove(entries@, i as int);
                }
                entries.remove(i);
                *self = Headers { entries };
            },
            None => {
                assert(self@ =~= self@.remove(key@));
            },
        }
    }

    /// The set that has every name of `self` and of `overlay`; a name that both
    /// have keeps the value it has in `overlay`.
    pub fn merge(&self, overlay: &Headers) -> (merged: Headers)
        ensures
            merged@ == self@.union_prefer_right(overlay@),
    {
        let mut merged = self.clone();
        let mut i: usize = 0;
        proof {
            assert(overlay.entries@.take(0) =~= Seq::<(String, String)>::empty());
            assert(merged@ =~= self@.union_prefer_right(overlaid(overlay.entries@.take(0))));
        }
        while i < overlay.entries.len()
            invariant
                i <= overlay.entries@.len(),
                merged@ == self@.union_prefer_right(overlaid(overlay.entries@.take(i as int))),
            decreases overlay.entries@.len() - i,
        {
            let key = overlay.entries[i].0.clone();
            let value = overlay.entries[i].1.clone();
            proof {
                let before = overlay.entries@.take(i as int);
                let pair = overlay.entries@[i as int];
                assert(overlay.entries@.take(i as int + 1) =~= before.push(pair));
                lemma_overlaid_push(before, pair);
                assert(self@.union_prefer_right(overlaid(before)).insert(pair.0@, pair.1@)
                    =~= self@.union_prefer_right(overlaid(before).insert(pair.0@, pair.1@)));
            }
            merged.insert(key, value);
            i = i + 1;
        }
        proof {
            assert(overlay.entries@.take(i as int) =~= overlay.entries@);
        }
        merged
    }

    /// The set that a list of pairs gives when each pair is written in turn: of
    /// two pairs with one name the later one counts.
    pub fn from_pairs(pairs: Vec<(String, String)>) -> (headers: Headers)
        ensures
            headers@ == overlaid(pairs@),
    {
        let mut headers = Headers::new();
        let mut i: usize = 0;
        proof {
            assert(pairs@.take(0) =~= Seq::<(String, String)>::empty());
        }
        while i < pairs.len()
            invariant
                i <= pairs@.len(),
                headers@ == overlaid(pairs@.take(i as int)),
            decreases pairs@.len() - i,
        {
            let key = pairs[i].0.clone();
            let value = pairs[i].1.clone();
            proof {
                let before = pairs@.take(i as int);
                assert(pairs@.take(i as int + 1) =~= before.push(pairs@[i as int]));
                lemma_overlaid_push(before, pairs@[i as int]);
            }
            headers.insert(key, value);
            i = i + 1;
        }
        proof {
            assert(pairs@.take(i as int) =~= pairs@);
        }
        headers
    }

    /// The names with their values as a list, each name once.
    pub fn to_pairs(&self) -> (pairs: Vec<(String, String)>)
        ensures
            overlaid(pairs@) == self@,
            distinct_keys(pairs@),
            pairs@.len() == self@.len(),
    {
        let copy = self.clone();
        proof {
            use_type_invariant(&copy);
            lemma_overlaid_len(copy.entries@);
        }
        copy.entries
    }
}

impl Clone for Headers {
    /// A set with the same names and values.
    fn clone(&self) -> (copy: Self)
        ensures
            copy@ == self@,
    {
        let mut entries: Vec<(String, String)> = Vec::new();
        let mut i: usize = 0;
        while i < self.entries.len()
            invariant
                i <= self.entries@.len(),
                entries@ == self.entries@.take(i as int),
            decreases self.entries@.len() - i,
        {
            let key = self.entries[i].0.clone();
            let value = self.entries[i].1.clone();
            entries.push((key, value));
            proof {
                assert(entries@ =~= self.entries@.take(i as int + 1));
            }
            i = i + 1;
        }
        proof {
            use_type_invariant(self);
            assert(entries@ =~= self.entries@);
        }
        Headers { entries }
    }
}

impl Default for Headers {
    /// The set without names.
    fn default() -> (headers: Self)
        ensures
            headers@ == Map::<Seq<char>, Seq<char>>::empty(),
    {
        Headers::new()
    }
}

} // verus!
