//! Maps and sets with text keys that keep their entries in the order in which
//! the keys first came.
use crate::duplicate::Duplicate;
use crate::text::same;
use vstd::prelude::*;

verus! {

/// No key occurs twice.
pub open spec fn distinct<V>(entries: Seq<(Seq<char>, V)>) -> bool {
    forall|i: int, j: int|
        0 <= i < j < entries.len() ==> (#[trigger] entries[i]).0 != (#[trigger] entries[j]).0
}

/// Where the key stands among the entries; their number where it does not.
pub open spec fn position<V>(entries: Seq<(Seq<char>, V)>, key: Seq<char>) -> int
    decreases entries.len(),
{
    if entries.len() == 0 || entries[0].0 == key {
        0
    } else {
        1 + position(entries.skip(1), key)
    }
}

pub open spec fn holds<V>(entries: Seq<(Seq<char>, V)>, key: Seq<char>) -> bool {
    position(entries, key) < entries.len()
}

/// The value under a key.
pub open spec fn lookup<V>(entries: Seq<(Seq<char>, V)>, key: Seq<char>) -> Option<V> {
    if holds(entries, key) {
        Some(entries[position(entries, key)].1)
    } else {
        None
    }
}

/// The entries with a value put under a key: in the place of the value that
/// was there, or else at the end.
pub open spec fn put<V>(entries: Seq<(Seq<char>, V)>, key: Seq<char>, value: V) -> Seq<
    (Seq<char>, V),
> {
    if holds(entries, key) {
        entries.update(position(entries, key), (key, value))
    } else {
        entries.push((key, value))
    }
}

/// The entries without a key.
pub open spec fn erase<V>(entries: Seq<(Seq<char>, V)>, key: Seq<char>) -> Seq<(Seq<char>, V)> {
    if holds(entries, key) {
        entries.remove(position(entries, key))
    } else {
        entries
    }
}

pub proof fn lemma_position<V>(entries: Seq<(Seq<char>, V)>, key: Seq<char>)
    ensures
        0 <= position(entries, key) <= entries.len(),
        forall|i: int| 0 <= i < position(entries, key) ==> (#[trigger] entries[i]).0 != key,
        holds(entries, key) ==> entries[position(entries, key)].0 == key,
    decreases entries.len(),
{
    if entries.len() == 0 || entries[0].0 == key {
    } else {
        let rest = entries.skip(1);
        lemma_position(rest, key);
        assert forall|i: int| 0 <= i < position(entries, key) implies (#[trigger] entries[i]).0
            != key by {
            if i > 0 {
                assert(entries[i] == rest[i - 1]);
            }
        }
    }
}

proof fn lemma_position_is<V>(entries: Seq<(Seq<char>, V)>, key: Seq<char>, i: int)
    requires
        0 <= i <= entries.len(),
        forall|j: int| 0 <= j < i ==> (#[trigger] entries[j]).0 != key,
        i < entries.len() ==> entries[i].0 == key,
    ensures
        position(entries, key) == i,
{
    lemma_position(entries, key);
    let p = position(entries, key);
    if p < i {
        assert(entries[p].0 == key);
    }
    if i < p {
        assert(entries[i].0 == key);
    }
}

/// A map with text keys.
#[derive(Debug)]
pub struct StringMap<V> {
    keys: Vec<String>,
    values: Vec<V>,
}

impl<V: DeepView> DeepView for StringMap<V> {
    type V = Seq<(Seq<char>, V::V)>;

    /// The entries, in the order in which their keys first came.
    closed spec fn deep_view(&self) -> Seq<(Seq<char>, V::V)> {
        Seq::new(self.keys@.len(), |i: int| (self.keys@[i]@, self.values@[i].deep_view()))
    }
}

impl<V> StringMap<V> {
    #[verifier::type_invariant]
    spec fn keys_are_distinct(self) -> bool {
        &&& self.keys@.len() == self.values@.len()
        &&& forall|i: int, j: int|
            0 <= i < j < self.keys@.len() ==> (#[trigger] self.keys@[i])@ != (
            #[trigger] self.keys@[j])@
    }

    fn find(&self, key: &str) -> (r: Option<usize>)
        ensures
            match r {
                Some(i) => {
                    &&& i < self.keys@.len()
                    &&& self.keys@[i as int]@ == key@
                },
                None => forall|j: int|
                    0 <= j < self.keys@.len() ==> (#[trigger] self.keys@[j])@ != key@,
            },
    {
        for i in 0..self.keys.len()
            invariant
                forall|j: int| 0 <= j < i ==> (#[trigger] self.keys@[j])@ != key@,
        {
            if same(self.keys[i].as_str(), key) {
                return Some(i);
            }
        }
        None
    }
}

impl<V: DeepView> StringMap<V> {
    pub fn new() -> (r: Self)
        ensures
            r.deep_view() == Seq::<(Seq<char>, V::V)>::empty(),
    {
        let r = StringMap { keys: Vec::new(), values: Vec::new() };
        assert(r.deep_view() =~= Seq::empty());
        r
    }

    /// The number of entries; no two of them have the same key.
    pub fn len(&self) -> (r: usize)
        ensures
            r == self.deep_view().len(),
            distinct(self.deep_view()),
    {
        proof {
            use_type_invariant(self);
        }
        self.keys.len()
    }

    pub fn is_empty(&self) -> (r: bool)
        ensures
            r == (self.deep_view().len() == 0),
    {
        self.keys.len() == 0
    }

    pub fn contains_key(&self, key: &str) -> (r: bool)
        ensures
            r == holds(self.deep_view(), key@),
    {
        self.get(key).is_some()
    }

    pub fn get(&self, key: &str) -> (r: Option<&V>)
        ensures
            match r {
                Some(value) => lookup(self.deep_view(), key@) == Some(value.deep_view()),
                None => lookup(self.deep_view(), key@) is None,
            },
    {
        proof {
            use_type_invariant(self);
        }
        match self.find(key) {
            Some(i) => {
                proof {
                    lemma_position_is(self.deep_view(), key@, i as int);
                }
                Some(&self.values[i])
            },
            None => {
                proof {
                    lemma_position_is(self.deep_view(), key@, self.deep_view().len() as int);
                }
                None
            },
        }
    }

    pub fn get_mut(&mut self, key: &str) -> (r: Option<&mut V>)
        ensures
            match r {
                Some(value) => {
                    &&& lookup(old(self).deep_view(), key@) == Some(value.deep_view())
                    &&& final(self).deep_view() == put(
                        old(self).deep_view(),
                        key@,
                        final(value).deep_view(),
                    )
                },
                None => {
                    &&& !holds(old(self).deep_view(), key@)
                    &&& final(self).deep_view() == old(self).deep_view()
                },
            },
    {
        proof {
            use_type_invariant(&*self);
        }
        match self.find(key) {
            Some(i) => {
                proof {
                    lemma_position_is(self.deep_view(), key@, i as int);
                }
                Some(&mut self.values[i])
            },
            None => {
                proof {
                    lemma_position_is(self.deep_view(), key@, self.deep_view().len() as int);
                }
                None
            },
        }
    }

    /// The key of the entry at a position.
    pub fn key_at(&self, i: usize) -> (r: &String)
        requires
            i < self.deep_view().len(),
        ensures
            r@ == self.deep_view()[i as int].0,
    {
        proof {
            use_type_invariant(self);
        }
        &self.keys[i]
    }

    /// The value of the entry at a position.
    pub fn value_at(&self, i: usize) -> (r: &V)
        requires
            i < self.deep_view().len(),
        ensures
            r.deep_view() == self.deep_view()[i as int].1,
    {
        proof {
            use_type_invariant(self);
        }
        &self.values[i]
    }

    /// The value of the entry at a position, to be changed.
    pub fn value_at_mut(&mut self, i: usize) -> (r: &mut V)
        requires
            i < old(self).deep_view().len(),
        ensures
            r.deep_view() == old(self).deep_view()[i as int].1,
            final(self).deep_view() == old(self).deep_view().update(
                i as int,
                (old(self).deep_view()[i as int].0, final(r).deep_view()),
            ),
    {
        proof {
            use_type_invariant(&*self);
        }
        &mut self.values[i]
    }

    pub fn insert(&mut self, key: String, value: V)
        ensures
            final(self).deep_view() == put(old(self).deep_view(), key@, value.deep_view()),
    {
        proof {
            use_type_invariant(&*self);
        }
        let ghost before = self.deep_view();
        let found = self.find(key.as_str());
        let mut whole = StringMap { keys: Vec::new(), values: Vec::new() };
        std::mem::swap(self, &mut whole);
        let StringMap { mut keys, mut values } = whole;
        match found {
            Some(i) => {
                proof {
                    lemma_position_is(before, key@, i as int);
                }
                values[i] = value;
            },
            None => {
                proof {
                    lemma_position_is(before, key@, before.len() as int);
                }
                keys.push(key);
                values.push(value);
            },
        }
        *self = StringMap { keys, values };
        assert(self.deep_view() =~= put(before, key@, value.deep_view()));
    }

    pub fn remove(&mut self, key: &str) -> (r: Option<V>)
        ensures
            final(self).deep_view() == erase(old(self).deep_view(), key@),
            r.deep_view() == lookup(old(self).deep_view(), key@),
    {
        proof {
            use_type_invariant(&*self);
        }
        match self.find(key) {
            Some(i) => {
                proof {
                    lemma_position_is(self.deep_view(), key@, i as int);
                }
                Some(self.remove_at(i))
            },
            None => {
                proof {
                    lemma_position_is(self.deep_view(), key@, self.deep_view().len() as int);
                }
                None
            },
        }
    }

    /// Takes out the entry at a position.
    pub fn remove_at(&mut self, i: usize) -> (r: V)
        requires
            i < old(self).deep_view().len(),
        ensures
            final(self).deep_view() == old(self).deep_view().remove(i as int),
            r.deep_view() == old(self).deep_view()[i as int].1,
    {
        proof {
            use_type_invariant(&*self);
        }
        let ghost before = self.deep_view();
        let mut whole = StringMap { keys: Vec::new(), values: Vec::new() };
        std::mem::swap(self, &mut whole);
        let StringMap { mut keys, mut values } = whole;
        keys.remove(i);
        let value = values.remove(i);
        *self = StringMap { keys, values };
        assert(self.deep_view() =~= before.remove(i as int));
        value
    }
}

impl<V: DeepView> Default for StringMap<V> {
    fn default() -> (r: Self)
        ensures
            r.deep_view() == Seq::<(Seq<char>, V::V)>::empty(),
    {
        StringMap::new()
    }
}

impl<V: Duplicate> Duplicate for StringMap<V> {
    fn duplicate(&self) -> (r: Self) {
        proof {
            use_type_invariant(self);
        }
        let keys = self.keys.duplicate();
        let values = self.values.duplicate();
        assert(keys.deep_view().len() == self.keys@.len());
        assert(values.deep_view().len() == self.values@.len());
        assert forall|i: int| 0 <= i < keys@.len() implies (#[trigger] keys@[i])@
            == self.keys@[i]@ by {
            assert(keys.deep_view()[i] == self.keys.deep_view()[i]);
        }
        assert forall|i: int| 0 <= i < values@.len() implies (#[trigger] values@[i]).deep_view()
            == self.values@[i].deep_view() by {
            assert(values.deep_view()[i] == self.values.deep_view()[i]);
        }
        let r = StringMap { keys, values };
        assert(r.deep_view() =~= self.deep_view());
        r
    }
}

impl<V: Duplicate> Clone for StringMap<V> {
    fn clone(&self) -> (r: Self)
        ensures
            r.deep_view() == self.deep_view(),
    {
        self.duplicate()
    }
}

/// The members with one more, at the end if it is new.
pub open spec fn with_member(members: Seq<Seq<char>>, key: Seq<char>) -> Seq<Seq<char>> {
    if members.contains(key) {
        members
    } else {
        members.push(key)
    }
}

/// The members without one.
pub open spec fn without_member(members: Seq<Seq<char>>, key: Seq<char>) -> Seq<Seq<char>> {
    members.filter(|member: Seq<char>| member != key)
}

/// A set of texts.
#[derive(Debug)]
pub struct StringSet {
    members: Vec<String>,
}

impl DeepView for StringSet {
    type V = Seq<Seq<char>>;

    /// The members, in the order in which they came.
    closed spec fn deep_view(&self) -> Seq<Seq<char>> {
        self.members.deep_view()
    }
}

impl StringSet {
    #[verifier::type_invariant]
    spec fn members_are_distinct(self) -> bool {
        self.members.deep_view().no_duplicates()
    }

    pub fn new() -> (r: Self)
        ensures
            r.deep_view() == Seq::<Seq<char>>::empty(),
    {
        let members: Vec<String> = Vec::new();
        assert(members.deep_view() =~= Seq::empty());
        StringSet { members }
    }

    /// The number of members; none occurs twice.
    pub fn len(&self) -> (r: usize)
        ensures
            r == self.deep_view().len(),
            self.deep_view().no_duplicates(),
    {
        proof {
            use_type_invariant(self);
        }
        self.members.len()
    }

    pub fn is_empty(&self) -> (r: bool)
        ensures
            r == (self.deep_view().len() == 0),
    {
        self.members.len() == 0
    }

    /// The member at a position.
    pub fn member_at(&self, i: usize) -> (r: &String)
        requires
            i < self.deep_view().len(),
        ensures
            r@ == self.deep_view()[i as int],
    {
        &self.members[i]
    }

    fn find(&self, key: &str) -> (r: Option<usize>)
        ensures
            match r {
                Some(i) => i < self.deep_view().len() && self.deep_view()[i as int] == key@,
                None => !self.deep_view().contains(key@),
            },
    {
        for i in 0..self.members.len()
            invariant
                forall|j: int| 0 <= j < i ==> self.deep_view()[j] != key@,
        {
            assert(self.deep_view()[i as int] == self.members@[i as int]@);
            if same(self.members[i].as_str(), key) {
                return Some(i);
            }
        }
        None
    }

    pub fn contains(&self, key: &str) -> (r: bool)
        ensures
            r == self.deep_view().contains(key@),
    {
        match self.find(key) {
            Some(i) => {
                assert(self.deep_view()[i as int] == key@);
                true
            },
            None => false,
        }
    }

    pub fn insert(&mut self, key: String)
        ensures
            final(self).deep_view() == with_member(old(self).deep_view(), key@),
    {
        proof {
            use_type_invariant(&*self);
        }
        let ghost before = self.deep_view();
        if self.contains(key.as_str()) {
            return;
        }
        let mut whole = StringSet::new();
        std::mem::swap(self, &mut whole);
        let StringSet { mut members } = whole;
        members.push(key);
        assert(members.deep_view() =~= before.push(key@));
        *self = StringSet { members };
    }

    pub fn remove(&mut self, key: &str)
        ensures
            final(self).deep_view() == without_member(old(self).deep_view(), key@),
    {
        proof {
            use_type_invariant(&*self);
        }
        let ghost before = self.deep_view();
        let found = self.find(key);
        match found {
            Some(i) => {
                let mut whole = StringSet::new();
                std::mem::swap(self, &mut whole);
                let StringSet { mut members } = whole;
                members.remove(i);
                assert(members.deep_view() =~= before.remove(i as int));
                proof {
                    lemma_filter_removes(before, i as int);
                }
                *self = StringSet { members };
            },
            None => {
                proof {
                    lemma_filter_keeps(before, key@);
                }
            },
        }
    }
}

impl Duplicate for StringSet {
    fn duplicate(&self) -> (r: Self) {
        proof {
            use_type_invariant(self);
        }
        let members = self.members.duplicate();
        StringSet { members }
    }
}

impl Clone for StringSet {
    fn clone(&self) -> (r: Self)
        ensures
            r.deep_view() == self.deep_view(),
    {
        self.duplicate()
    }
}

impl Default for StringSet {
    fn default() -> (r: Self)
        ensures
            r.deep_view() == Seq::<Seq<char>>::empty(),
    {
        StringSet::new()
    }
}

proof fn lemma_filter_keeps(members: Seq<Seq<char>>, key: Seq<char>)
    requires
        !members.contains(key),
    ensures
        without_member(members, key) == members,
    decreases members.len(),
{
    reveal(Seq::filter);
    if members.len() > 0 {
        let rest = members.drop_last();
        assert forall|k: int| 0 <= k < rest.len() implies rest[k] != key by {
            assert(members[k] == rest[k]);
        }
        lemma_filter_keeps(rest, key);
        assert(members[members.len() - 1] != key);
        assert(rest.push(members.last()) =~= members);
    }
}

proof fn lemma_filter_removes(members: Seq<Seq<char>>, i: int)
    requires
        0 <= i < members.len(),
        members.no_duplicates(),
    ensures
        without_member(members, members[i]) == members.remove(i),
    decreases members.len(),
{
    reveal(Seq::filter);
    let key = members[i];
    let rest = members.drop_last();
    if i == members.len() - 1 {
        assert forall|k: int| 0 <= k < rest.len() implies rest[k] != key by {
            assert(members[k] == rest[k]);
        }
        lemma_filter_keeps(rest, key);
        assert(members.remove(i) =~= rest);
    } else {
        lemma_filter_removes(rest, i);
        assert(members.last() != key);
        assert(rest.remove(i).push(members.last()) =~= members.remove(i));
    }
}

// ---------------------------------------------------------------------------
// Laws
// ---------------------------------------------------------------------------

/// The entries as a mathematical map.
pub open spec fn as_map<V>(entries: Seq<(Seq<char>, V)>) -> Map<Seq<char>, V> {
    Map::new(|key: Seq<char>| holds(entries, key), |key: Seq<char>| lookup(entries, key).unwrap())
}

/// Some entry has the key exactly where the key is held.
pub proof fn lemma_holds<V>(entries: Seq<(Seq<char>, V)>, key: Seq<char>)
    ensures
        holds(entries, key) <==> exists|i: int|
            0 <= i < entries.len() && (#[trigger] entries[i]).0 == key,
        holds(entries, key) ==> {
            &&& 0 <= position(entries, key) < entries.len()
            &&& entries[position(entries, key)].0 == key
        },
{
    lemma_position(entries, key);
    if holds(entries, key) {
        assert(entries[position(entries, key)].0 == key);
    } else {
        assert(forall|i: int| 0 <= i < entries.len() ==> (#[trigger] entries[i]).0 != key);
    }
}

/// With distinct keys, an entry is what its key leads to.
pub proof fn lemma_lookup_at<V>(entries: Seq<(Seq<char>, V)>, i: int)
    requires
        distinct(entries),
        0 <= i < entries.len(),
    ensures
        holds(entries, entries[i].0),
        position(entries, entries[i].0) == i,
        lookup(entries, entries[i].0) == Some(entries[i].1),
{
    lemma_position_is(entries, entries[i].0, i);
}

/// What was put under a key is found there, and nothing else has changed.
pub proof fn law_lookup_after_put<V>(
    entries: Seq<(Seq<char>, V)>,
    key: Seq<char>,
    value: V,
    other: Seq<char>,
)
    ensures
        lookup(put(entries, key, value), other) == if other == key {
            Some(value)
        } else {
            lookup(entries, other)
        },
{
    lemma_position(entries, key);
    lemma_position(entries, other);
    let after = put(entries, key, value);
    let p = position(entries, key);
    let q = position(entries, other);
    if other == key {
        assert forall|j: int| 0 <= j < p implies (#[trigger] after[j]).0 != key by {
            assert(after[j] == entries[j]);
        }
        lemma_position_is(after, key, p);
    } else if q < entries.len() {
        assert forall|j: int| 0 <= j < q implies (#[trigger] after[j]).0 != other by {
            assert(entries[j].0 != other);
        }
        assert(after[q] == entries[q]);
        lemma_position_is(after, other, q);
    } else {
        assert forall|j: int| 0 <= j < after.len() implies (#[trigger] after[j]).0 != other by {
            if j < entries.len() {
                assert(entries[j].0 != other);
            }
        }
        lemma_position_is(after, other, after.len() as int);
    }
}

/// What was erased is not found, and nothing else has changed.
pub proof fn law_lookup_after_erase<V>(
    entries: Seq<(Seq<char>, V)>,
    key: Seq<char>,
    other: Seq<char>,
)
    requires
        distinct(entries),
    ensures
        lookup(erase(entries, key), other) == if other == key {
            None
        } else {
            lookup(entries, other)
        },
{
    lemma_position(entries, key);
    lemma_position(entries, other);
    let after = erase(entries, key);
    let p = position(entries, key);
    let q = position(entries, other);
    if p < entries.len() {
        if other != key && q < entries.len() {
            let r = if q < p {
                q
            } else {
                q - 1
            };
            assert forall|j: int| 0 <= j < r implies (#[trigger] after[j]).0 != other by {
                if j < p {
                    assert(after[j] == entries[j]);
                } else {
                    assert(after[j] == entries[j + 1]);
                }
            }
            assert(after[r] == entries[q]);
            lemma_position_is(after, other, r);
        } else {
            assert forall|j: int| 0 <= j < after.len() implies (#[trigger] after[j]).0 != other by {
                if j < p {
                    assert(after[j] == entries[j]);
                } else {
                    assert(after[j] == entries[j + 1]);
                    assert(entries[p].0 == key);
                }
            }
            lemma_position_is(after, other, after.len() as int);
        }
    }
}

/// Putting and erasing keep the keys distinct.
pub proof fn law_keys_stay_distinct<V>(entries: Seq<(Seq<char>, V)>, key: Seq<char>, value: V)
    requires
        distinct(entries),
    ensures
        distinct(put(entries, key, value)),
        distinct(erase(entries, key)),
{
    lemma_position(entries, key);
    let p = position(entries, key);
    let a = put(entries, key, value);
    assert forall|i: int, j: int| 0 <= i < j < a.len() implies (#[trigger] a[i]).0 != (
    #[trigger] a[j]).0 by {
        if j < entries.len() {
            assert(entries[i].0 != entries[j].0);
        } else {
            assert(entries[i].0 != key);
        }
    }
    let b = erase(entries, key);
    assert forall|i: int, j: int| 0 <= i < j < b.len() implies (#[trigger] b[i]).0 != (
    #[trigger] b[j]).0 by {
        if p < entries.len() {
            let i1 = if i < p {
                i
            } else {
                i + 1
            };
            let j1 = if j < p {
                j
            } else {
                j + 1
            };
            assert(b[i] == entries[i1]);
            assert(b[j] == entries[j1]);
            assert(entries[i1].0 != entries[j1].0);
        }
    }
}

/// Putting is insertion into the mathematical map, and erasing is removal from it.
pub proof fn law_entries_are_a_map<V>(entries: Seq<(Seq<char>, V)>, key: Seq<char>, value: V)
    requires
        distinct(entries),
    ensures
        as_map(put(entries, key, value)) == as_map(entries).insert(key, value),
        as_map(erase(entries, key)) == as_map(entries).remove(key),
{
    assert forall|other: Seq<char>| true implies #[trigger] lookup(put(entries, key, value), other)
        == (if other == key {
        Some(value)
    } else {
        lookup(entries, other)
    }) by {
        law_lookup_after_put(entries, key, value, other);
    }
    assert forall|other: Seq<char>| true implies #[trigger] lookup(erase(entries, key), other) == (
    if other == key {
        None
    } else {
        lookup(entries, other)
    }) by {
        law_lookup_after_erase(entries, key, other);
    }
    let a = as_map(put(entries, key, value));
    let b = as_map(entries).insert(key, value);
    assert forall|k: Seq<char>| a.dom().contains(k) == b.dom().contains(k) by {
        assert(lookup(put(entries, key, value), k) is Some == holds(put(entries, key, value), k));
        assert(lookup(entries, k) is Some == holds(entries, k));
    }
    assert(a =~= b) by {
        assert forall|k: Seq<char>| a.dom().contains(k) implies a[k] == b[k] by {
            assert(lookup(put(entries, key, value), k) is Some);
        }
    }
    let c = as_map(erase(entries, key));
    let d = as_map(entries).remove(key);
    assert forall|k: Seq<char>| c.dom().contains(k) == d.dom().contains(k) by {
        assert(lookup(erase(entries, key), k) is Some == holds(erase(entries, key), k));
        assert(lookup(entries, k) is Some == holds(entries, k));
    }
    assert(c =~= d) by {
        assert forall|k: Seq<char>| c.dom().contains(k) implies c[k] == d[k] by {
            assert(lookup(erase(entries, key), k) is Some);
        }
    }
}

/// A member that joins is there, and no other comes or goes with it.
pub proof fn law_member_joins(members: Seq<Seq<char>>, key: Seq<char>, other: Seq<char>)
    ensures
        with_member(members, key).contains(other) <==> members.contains(other) || other == key,
{
    let after = with_member(members, key);
    if !members.contains(key) {
        if members.contains(other) {
            let i = choose|i: int| 0 <= i < members.len() && members[i] == other;
            assert(after[i] == other);
        }
        if other == key {
            assert(after[members.len() as int] == key);
        }
        if after.contains(other) && other != key {
            let i = choose|i: int| 0 <= i < after.len() && after[i] == other;
            assert(members[i] == other);
        }
    }
}

/// A member that leaves is no longer there, and no other comes or goes with it.
pub proof fn law_member_leaves(members: Seq<Seq<char>>, key: Seq<char>, other: Seq<char>)
    ensures
        without_member(members, key).contains(other) <==> members.contains(other) && other != key,
    decreases members.len(),
{
    reveal(Seq::filter);
    if members.len() > 0 {
        let rest = members.drop_last();
        law_member_leaves(rest, key, other);
        let kept = without_member(rest, key);
        let after = without_member(members, key);
        assert(after == if members.last() != key {
            kept.push(members.last())
        } else {
            kept
        });
        if kept.contains(other) {
            let i = choose|i: int| 0 <= i < kept.len() && kept[i] == other;
            assert(after[i] == other);
        }
        if after.contains(other) {
            let i = choose|i: int| 0 <= i < after.len() && after[i] == other;
            if i < kept.len() {
                assert(kept[i] == other);
            }
        }
        if members.contains(other) {
            let i = choose|i: int| 0 <= i < members.len() && members[i] == other;
            if i < rest.len() {
                assert(rest[i] == other);
            } else if other != key {
                assert(after[kept.len() as int] == other);
            }
        }
        if rest.contains(other) {
            let i = choose|i: int| 0 <= i < rest.len() && rest[i] == other;
            assert(members[i] == other);
        }
        assert(members[members.len() - 1] == members.last());
    }
}

} // verus!
