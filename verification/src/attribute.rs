//! Item attributes as the database stores them: a value is a string, a
//! number in decimal text, a set of strings, a list of values or a map of
//! named values. A map holds each name once.
use vstd::prelude::*;

use vstd::std_specs::cmp::PartialEqSpecImpl;

use crate::text::str_eq;

verus! {

/// The mathematical content of an attribute value.
pub enum Attr {
    S(Seq<char>),
    N(Seq<char>),
    Ss(Seq<Seq<char>>),
    L(Seq<Attr>),
    M(Map<Seq<char>, Attr>),
    Other,
}

/// An attribute value. `Other` stands for the kinds that no logic here reads
/// (binary data, booleans, nulls, number sets, binary sets).
#[derive(Debug)]
pub enum AttributeValue {
    S(String),
    N(String),
    Ss(Vec<String>),
    L(Vec<AttributeValue>),
    M(AttributeMap),
    Other,
}

/// A map from attribute names to values, kept in the order the names were
/// first inserted, each name once. Two maps are equal when they hold the
/// same names with the same values, whatever that order.
#[derive(Debug)]
pub struct AttributeMap {
    entries: Vec<(String, AttributeValue)>,
}

/// The characters of each string of `v`.
pub open spec fn strings_view(v: Seq<String>) -> Seq<Seq<char>> {
    v.map_values(|s: String| s@)
}

/// The content of an attribute value.
pub open spec fn value_model(v: AttributeValue) -> Attr
    decreases v,
{
    match v {
        AttributeValue::S(s) => Attr::S(s@),
        AttributeValue::N(s) => Attr::N(s@),
        AttributeValue::Ss(ss) => Attr::Ss(strings_view(ss@)),
        AttributeValue::L(l) => Attr::L(list_model(l@)),
        AttributeValue::M(m) => Attr::M(m.model()),
        AttributeValue::Other => Attr::Other,
    }
}

/// The contents of a list of attribute values.
pub open spec fn list_model(s: Seq<AttributeValue>) -> Seq<Attr>
    decreases s,
{
    if s.len() == 0 {
        Seq::empty()
    } else {
        list_model(s.subrange(0, s.len() - 1)).push(value_model(s[s.len() - 1]))
    }
}

/// The map that a list of entries denotes; a later entry for a name wins.
pub open spec fn entries_model(s: Seq<(String, AttributeValue)>) -> Map<Seq<char>, Attr>
    decreases s,
{
    if s.len() == 0 {
        Map::empty()
    } else {
        entries_model(s.subrange(0, s.len() - 1)).insert(
            s[s.len() - 1].0@,
            value_model(s[s.len() - 1].1),
        )
    }
}

/// No name occurs twice among the entries.
pub open spec fn keys_unique(s: Seq<(String, AttributeValue)>) -> bool {
    forall|i: int, j: int| 0 <= i < j < s.len() ==> s[i].0@ != s[j].0@
}

impl View for AttributeValue {
    type V = Attr;

    open spec fn view(&self) -> Attr {
        value_model(*self)
    }
}

impl AttributeMap {
    /// The map that this attribute map denotes.
    pub closed spec fn model(self) -> Map<Seq<char>, Attr>
        decreases self,
    {
        entries_model(self.entries@)
    }

    #[verifier::type_invariant]
    closed spec fn wf(self) -> bool {
        keys_unique(self.entries@)
    }
}

impl View for AttributeMap {
    type V = Map<Seq<char>, Attr>;

    open spec fn view(&self) -> Map<Seq<char>, Attr> {
        self.model()
    }
}

proof fn lemma_entries_model(s: Seq<(String, AttributeValue)>)
    requires
        keys_unique(s),
    ensures
        entries_model(s).dom().finite(),
        entries_model(s).len() == s.len(),
        forall|k: Seq<char>|
            entries_model(s).contains_key(k) <==> exists|i: int| 0 <= i < s.len() && s[i].0@ == k,
        forall|i: int| 0 <= i < s.len() ==> #[trigger] entries_model(s)[s[i].0@] == value_model(s[i].1),
    decreases s.len(),
{
    if s.len() > 0 {
        let p = s.subrange(0, s.len() - 1);
        let last = s[s.len() - 1];
        assert forall|i: int, j: int| 0 <= i < j < p.len() implies p[i].0@ != p[j].0@ by {
            assert(p[i] == s[i] && p[j] == s[j]);
        }
        lemma_entries_model(p);
        assert(!entries_model(p).contains_key(last.0@)) by {
            if entries_model(p).contains_key(last.0@) {
                let i = choose|i: int| 0 <= i < p.len() && p[i].0@ == last.0@;
                assert(s[i].0@ == s[s.len() - 1].0@);
            }
        }
        assert forall|k: Seq<char>|
            entries_model(s).contains_key(k) <==> exists|i: int| 0 <= i < s.len() && s[i].0@ == k by {
            if entries_model(s).contains_key(k) && k != last.0@ {
                let i = choose|i: int| 0 <= i < p.len() && p[i].0@ == k;
                assert(s[i].0@ == k);
            }
            if exists|i: int| 0 <= i < s.len() && s[i].0@ == k {
                let i = choose|i: int| 0 <= i < s.len() && s[i].0@ == k;
                if i < s.len() - 1 {
                    assert(p[i].0@ == k);
                }
            }
        }
        assert forall|i: int| 0 <= i < s.len() implies #[trigger] entries_model(s)[s[i].0@]
            == value_model(s[i].1) by {
            if i < s.len() - 1 {
                assert(p[i] == s[i]);
                assert(entries_model(p)[p[i].0@] == value_model(p[i].1));
            }
        }
    }
}

/// Two entry lists without repeated names denote the same map when they hold
/// the same names with the same values.
proof fn lemma_entries_model_ext(
    s: Seq<(String, AttributeValue)>,
    m: Map<Seq<char>, Attr>,
)
    requires
        keys_unique(s),
        forall|k: Seq<char>| m.contains_key(k) <==> exists|i: int| 0 <= i < s.len() && s[i].0@ == k,
        forall|i: int| 0 <= i < s.len() ==> #[trigger] m[s[i].0@] == value_model(s[i].1),
    ensures
        entries_model(s) == m,
{
    lemma_entries_model(s);
    assert forall|k: Seq<char>| #[trigger] entries_model(s).contains_key(k) implies entries_model(
        s,
    )[k] == m[k] by {
        let i = choose|i: int| 0 <= i < s.len() && s[i].0@ == k;
        assert(entries_model(s)[s[i].0@] == value_model(s[i].1));
    }
    assert(entries_model(s) =~= m);
}

/// A finite map with one key has that key as its only key.
pub proof fn lemma_single_key<V>(m: Map<Seq<char>, V>, k: Seq<char>)
    requires
        m.dom().finite(),
        m.len() == 1,
        m.contains_key(k),
    ensures
        m.dom().choose() == k,
        m == Map::<Seq<char>, V>::empty().insert(k, m[k]),
{
    let d = m.dom();
    assert(d.remove(k).len() == 0);
    assert(d.remove(k) =~= Set::<Seq<char>>::empty());
    assert(d.contains(d.choose()));
    assert(m =~= Map::<Seq<char>, V>::empty().insert(k, m[k]));
}

impl AttributeMap {
    /// An empty map.
    pub fn new() -> (r: AttributeMap)
        ensures
            r@ == Map::<Seq<char>, Attr>::empty(),
    {
        let r = AttributeMap { entries: Vec::new() };
        assert(r.entries@.len() == 0);
        r
    }

    /// The number of names in the map.
    pub fn len(&self) -> (r: usize)
        ensures
            r == self@.len(),
            self@.dom().finite(),
    {
        proof {
            use_type_invariant(self);
            lemma_entries_model(self.entries@);
        }
        self.entries.len()
    }

    /// The value stored under `key`, if any.
    pub fn get(&self, key: &str) -> (r: Option<&AttributeValue>)
        ensures
            match r {
                Some(v) => self@.contains_key(key@) && self@[key@] == v@,
                None => !self@.contains_key(key@),
            },
    {
        proof {
            use_type_invariant(self);
            lemma_entries_model(self.entries@);
        }
        let mut i: usize = 0;
        while i < self.entries.len()
            invariant
                i <= self.entries@.len(),
                forall|j: int| 0 <= j < i ==> self.entries@[j].0@ != key@,
            decreases self.entries@.len() - i,
        {
            let e = &self.entries[i];
            if str_eq(e.0.as_str(), key) {
                proof {
                    use_type_invariant(self);
                    lemma_entries_model(self.entries@);
                    assert(self.entries@[i as int] == *e);
                    assert(self.model() == entries_model(self.entries@));
                    assert(entries_model(self.entries@)[self.entries@[i as int].0@] == value_model(
                        self.entries@[i as int].1,
                    ));
                }
                return Some(&e.1);
            }
            i = i + 1;
        }
        None
    }

    /// The name and value of the entry at position `i` in insertion order.
    pub fn entry_at(&self, i: usize) -> (r: (&String, &AttributeValue))
        requires
            i < self@.len(),
        ensures
            self@.contains_key(r.0@),
            self@[r.0@] == r.1@,
    {
        proof {
            use_type_invariant(self);
            lemma_entries_model(self.entries@);
        }
        let e = &self.entries[i];
        proof {
            assert(self.entries@[i as int] == *e);
            assert(self.model().contains_key(self.entries@[i as int].0@));
        }
        (&e.0, &e.1)
    }

    /// Stores `value` under `key`, replacing what was stored there.
    pub fn insert(&mut self, key: String, value: AttributeValue)
        ensures
            final(self)@ == old(self)@.insert(key@, value@),
    {
        proof {
            use_type_invariant(&*self);
        }
        let ghost old_model = self@;
        let mut entries: Vec<(String, AttributeValue)> = Vec::new();
        std::mem::swap(&mut entries, &mut self.entries);
        let ghost s = entries@;
        proof {
            lemma_entries_model(s);
            assert(old_model == entries_model(s));
        }
        let mut i: usize = 0;
        let mut idx: Option<usize> = None;
        while i < entries.len()
            invariant
                entries@ == s,
                i <= s.len(),
                idx matches Some(k) ==> k < s.len() && s[k as int].0@ == key@,
                idx is None ==> forall|j: int| 0 <= j < i ==> s[j].0@ != key@,
            decreases s.len() - i,
        {
            if idx.is_none() && entries[i].0 == key {
                idx = Some(i);
            }
            i = i + 1;
        }
        let ghost new_model = old_model.insert(key@, value@);
        if let Some(i) = idx {
            let ghost ki = key@;
            entries.set(i, (key, value));
            proof {
                let t = entries@;
                assert(s[i as int].0@ == ki);
                assert forall|a: int, b: int| 0 <= a < b < t.len() implies t[a].0@ != t[b].0@ by {
                    assert(s[a].0@ != s[b].0@);
                }
                assert forall|k: Seq<char>| new_model.contains_key(k) <==> exists|j: int|
                    0 <= j < t.len() && t[j].0@ == k by {
                    assert(t[i as int].0@ == ki);
                    if new_model.contains_key(k) && k != ki {
                        assert(entries_model(s).contains_key(k));
                        let j = choose|j: int| 0 <= j < s.len() && s[j].0@ == k;
                        assert(t[j] == s[j]);
                    }
                    if exists|j: int| 0 <= j < t.len() && t[j].0@ == k {
                        let j = choose|j: int| 0 <= j < t.len() && t[j].0@ == k;
                        if j != i {
                            assert(t[j] == s[j]);
                            assert(entries_model(s).contains_key(k));
                        }
                    }
                }
                assert forall|j: int| 0 <= j < t.len() implies #[trigger] new_model[t[j].0@]
                    == value_model(t[j].1) by {
                    if j != i {
                        assert(t[j] == s[j]);
                        assert(s[j].0@ != ki);
                        assert(entries_model(s)[s[j].0@] == value_model(s[j].1));
                    }
                }
                lemma_entries_model_ext(t, new_model);
            }
        } else {
            let ghost ki = key@;
            assert(forall|j: int| 0 <= j < s.len() ==> s[j].0@ != key@);
            entries.push((key, value));
            proof {
                let t = entries@;
                assert forall|a: int, b: int| 0 <= a < b < t.len() implies t[a].0@ != t[b].0@ by {
                    if b < s.len() {
                        assert(s[a].0@ != s[b].0@);
                    }
                }
                assert(t.subrange(0, t.len() - 1) =~= s);
                assert(entries_model(t) == new_model);
            }
        }
        self.entries = entries;
    }

    /// A map with one entry.
    pub fn single(key: String, value: AttributeValue) -> (r: AttributeMap)
        ensures
            r@ == Map::<Seq<char>, Attr>::empty().insert(key@, value@),
    {
        let mut r = AttributeMap::new();
        r.insert(key, value);
        r
    }

    /// Inserts every entry of `other`, whose values win over those already
    /// stored under the same names.
    pub fn extend(&mut self, other: AttributeMap)
        ensures
            final(self)@ == old(self)@.union_prefer_right(other@),
    {
        proof {
            use_type_invariant(&other);
        }
        let ghost s = other.entries@;
        let ghost old_model = self@;
        let mut rest = other.entries;
        proof {
            lemma_entries_model(s);
        }
        while rest.len() > 0
            invariant
                keys_unique(s),
                rest@ == s.subrange(0, rest@.len() as int),
                rest@.len() <= s.len(),
                forall|k: Seq<char>| #[trigger] self@.contains_key(k) <==> (old_model.contains_key(k)
                    || exists|j: int| rest@.len() <= j < s.len() && s[j].0@ == k),
                forall|k: Seq<char>| #[trigger] self@.contains_key(k) ==> self@[k] == (if exists|
                    j: int,
                | rest@.len() <= j < s.len() && s[j].0@ == k {
                    entries_model(s)[k]
                } else {
                    old_model[k]
                }),
            decreases rest@.len(),
        {
            let ghost n0 = rest@.len();
            proof {
                lemma_entries_model(s);
            }
            let e = rest.pop().unwrap();
            proof {
                assert(e == s[n0 - 1]);
                assert(entries_model(s)[s[n0 - 1].0@] == value_model(s[n0 - 1].1));
            }
            let ghost prev = self@;
            let ghost ek = e.0@;
            self.insert(e.0, e.1);
            proof {
                assert forall|k: Seq<char>| #[trigger] self@.contains_key(k) <==> (
                old_model.contains_key(k) || exists|j: int| rest@.len() <= j < s.len() && s[j].0@
                    == k) by {
                    if k == ek {
                        assert(s[n0 - 1].0@ == k);
                    } else if exists|j: int| rest@.len() <= j < s.len() && s[j].0@ == k {
                        let j = choose|j: int| rest@.len() <= j < s.len() && s[j].0@ == k;
                        assert(j != n0 - 1);
                    }
                }
                assert forall|k: Seq<char>| #[trigger] self@.contains_key(k) implies self@[k] == (
                if exists|j: int| rest@.len() <= j < s.len() && s[j].0@ == k {
                    entries_model(s)[k]
                } else {
                    old_model[k]
                }) by {
                    if k == ek {
                        assert(s[n0 - 1].0@ == k);
                    } else if exists|j: int| rest@.len() <= j < s.len() && s[j].0@ == k {
                        let j = choose|j: int| rest@.len() <= j < s.len() && s[j].0@ == k;
                        assert(j != n0 - 1);
                        assert(exists|j: int| n0 <= j < s.len() && s[j].0@ == k);
                    } else {
                        assert(!exists|j: int| n0 <= j < s.len() && s[j].0@ == k);
                    }
                }
            }
        }
        proof {
            let u = old_model.union_prefer_right(entries_model(s));
            assert forall|k: Seq<char>| self@.contains_key(k) <==> u.contains_key(k) by {}
            assert forall|k: Seq<char>| #[trigger] self@.contains_key(k) implies self@[k] == u[k] by {
                if exists|j: int| 0 <= j < s.len() && s[j].0@ == k {
                    assert(entries_model(s).contains_key(k));
                }
            }
            assert(self@ =~= u);
        }
    }

    /// A map holding the given entries, inserted in order.
    pub fn from_entries(entries: Vec<(String, AttributeValue)>) -> (r: AttributeMap)
        ensures
            r@ == entries_model(entries@),
    {
        let ghost s = entries@;
        let n = entries.len();
        let mut r = AttributeMap::new();
        let mut i: usize = 0;
        let mut rest = entries;
        let mut taken: Vec<(String, AttributeValue)> = Vec::new();
        // Move the entries out in reverse, then insert them in their order.
        while rest.len() > 0
            invariant
                rest@ + taken@.reverse() == s,
                s.len() == n,
            decreases rest@.len(),
        {
            let ghost r0 = rest@;
            let ghost t0 = taken@;
            let e = rest.pop().unwrap();
            taken.push(e);
            proof {
                assert(taken@.reverse() =~= seq![e] + t0.reverse());
                assert(r0 =~= rest@.push(e));
                assert(rest@ + taken@.reverse() =~= r0 + t0.reverse());
            }
        }
        assert(taken@.reverse() =~= s);
        while taken.len() > 0
            invariant
                s.len() <= usize::MAX,
                i + taken@.len() == s.len(),
                taken@.reverse() == s.subrange(i as int, s.len() as int),
                r@ == entries_model(s.subrange(0, i as int)),
            decreases taken@.len(),
        {
            let ghost t0 = taken@;
            let e = taken.pop().unwrap();
            proof {
                assert(e == s[i as int]) by {
                    assert(t0.reverse()[0] == t0[t0.len() - 1]);
                }
                assert(taken@.reverse() =~= s.subrange(i + 1, s.len() as int)) by {
                    assert forall|j: int| 0 <= j < taken@.len() implies taken@.reverse()[j]
                        == s.subrange(i + 1, s.len() as int)[j] by {
                        assert(taken@.reverse()[j] == t0.reverse()[j + 1]);
                    }
                }
                assert(s.subrange(0, i + 1).subrange(0, i as int) =~= s.subrange(0, i as int));
            }
            r.insert(e.0, e.1);
            i = i + 1;
        }
        assert(s.subrange(0, s.len() as int) =~= s);
        r
    }
}

/// The contents of a list of values, one by one.
proof fn lemma_list_model(s: Seq<AttributeValue>)
    ensures
        list_model(s).len() == s.len(),
        forall|i: int| 0 <= i < s.len() ==> #[trigger] list_model(s)[i] == value_model(s[i]),
    decreases s.len(),
{
    if s.len() > 0 {
        let p = s.subrange(0, s.len() - 1);
        lemma_list_model(p);
        assert forall|i: int| 0 <= i < s.len() implies #[trigger] list_model(s)[i] == value_model(
            s[i],
        ) by {
            if i < s.len() - 1 {
                assert(p[i] == s[i]);
            }
        }
    }
}

/// Whether two string lists hold the same strings in the same order.
fn strings_eq(a: &Vec<String>, b: &Vec<String>) -> (r: bool)
    ensures
        r == (strings_view(a@) == strings_view(b@)),
{
    if a.len() != b.len() {
        assert(strings_view(a@).len() != strings_view(b@).len());
        return false;
    }
    let mut i: usize = 0;
    while i < a.len()
        invariant
            a@.len() == b@.len(),
            i <= a@.len(),
            forall|j: int| 0 <= j < i ==> a@[j]@ == b@[j]@,
        decreases a@.len() - i,
    {
        if !str_eq(a[i].as_str(), b[i].as_str()) {
            assert(strings_view(a@)[i as int] != strings_view(b@)[i as int]);
            return false;
        }
        i = i + 1;
    }
    assert(strings_view(a@) =~= strings_view(b@));
    true
}

/// Whether two attribute values hold the same content.
fn value_eq(a: &AttributeValue, b: &AttributeValue) -> (r: bool)
    ensures
        r == (a@ == b@),
    decreases a, 0nat,
{
    match (a, b) {
        (AttributeValue::S(x), AttributeValue::S(y)) => str_eq(x.as_str(), y.as_str()),
        (AttributeValue::N(x), AttributeValue::N(y)) => str_eq(x.as_str(), y.as_str()),
        (AttributeValue::Ss(x), AttributeValue::Ss(y)) => strings_eq(x, y),
        (AttributeValue::L(x), AttributeValue::L(y)) => list_eq(x, y),
        (AttributeValue::M(x), AttributeValue::M(y)) => map_eq(x, y),
        (AttributeValue::Other, AttributeValue::Other) => true,
        _ => false,
    }
}

/// Whether two lists of values hold the same contents in the same order.
fn list_eq(a: &Vec<AttributeValue>, b: &Vec<AttributeValue>) -> (r: bool)
    ensures
        r == (list_model(a@) == list_model(b@)),
    decreases a, 0nat,
{
    proof {
        lemma_list_model(a@);
        lemma_list_model(b@);
    }
    if a.len() != b.len() {
        return false;
    }
    let mut i: usize = 0;
    while i < a.len()
        invariant
            a@.len() == b@.len(),
            i <= a@.len(),
            list_model(a@).len() == a@.len(),
            list_model(b@).len() == b@.len(),
            forall|j: int| 0 <= j < a@.len() ==> #[trigger] list_model(a@)[j] == value_model(a@[j]),
            forall|j: int| 0 <= j < b@.len() ==> #[trigger] list_model(b@)[j] == value_model(b@[j]),
            forall|j: int| 0 <= j < i ==> value_model(a@[j]) == value_model(b@[j]),
        decreases a@.len() - i,
    {
        proof {
            assert(decreases_to!(*a => a@));
            assert(decreases_to!(a@ => a@[i as int]));
        }
        if !value_eq(&a[i], &b[i]) {
            assert(list_model(a@)[i as int] != list_model(b@)[i as int]);
            return false;
        }
        i = i + 1;
    }
    assert(list_model(a@) =~= list_model(b@));
    true
}

/// The map `m` holds the entry's name with the entry's value.
spec fn entry_agrees(m: Map<Seq<char>, Attr>, e: (String, AttributeValue)) -> bool {
    m.contains_key(e.0@) && m[e.0@] == value_model(e.1)
}

/// Whether two attribute maps hold the same names with the same values,
/// whatever the order their entries were inserted in.
fn map_eq(a: &AttributeMap, b: &AttributeMap) -> (r: bool)
    ensures
        r == (a@ == b@),
    decreases a, 0nat,
{
    proof {
        use_type_invariant(a);
        use_type_invariant(b);
        lemma_entries_model(a.entries@);
        lemma_entries_model(b.entries@);
    }
    if a.entries.len() != b.entries.len() {
        return false;
    }
    let mut i: usize = 0;
    while i < a.entries.len()
        invariant
            i <= a.entries@.len(),
            forall|j: int| 0 <= j < i ==> #[trigger] entry_agrees(b@, a.entries@[j]),
        decreases a.entries@.len() - i,
    {
        let e = &a.entries[i];
        proof {
            assert(decreases_to!(*a => a.entries));
            assert(decreases_to!(a.entries => a.entries@));
            assert(decreases_to!(a.entries@ => a.entries@[i as int]));
            assert(*e == a.entries@[i as int]);
        }
        match b.get(e.0.as_str()) {
            Some(w) => {
                if !value_eq(&e.1, w) {
                    proof {
                        use_type_invariant(a);
                        lemma_entries_model(a.entries@);
                        assert(a@[e.0@] == value_model(e.1));
                    }
                    return false;
                }
                assert(entry_agrees(b@, a.entries@[i as int]));
            },
            None => {
                proof {
                    use_type_invariant(a);
                    lemma_entries_model(a.entries@);
                    assert(a@.contains_key(e.0@));
                }
                return false;
            },
        }
        i = i + 1;
    }
    proof {
        lemma_entries_model(a.entries@);
        lemma_entries_model(b.entries@);
        assert forall|k: Seq<char>| #[trigger] a@.dom().contains(k) implies b@.dom().contains(k) && b@[k]
            == a@[k] by {
            let j = choose|j: int| 0 <= j < a.entries@.len() && a.entries@[j].0@ == k;
            assert(entry_agrees(b@, a.entries@[j]));
            assert(a@[a.entries@[j].0@] == value_model(a.entries@[j].1));
        }
        assert(a@.dom().subset_of(b@.dom()));
        vstd::set_lib::lemma_subset_equality(a@.dom(), b@.dom());
        assert(a@ =~= b@);
    }
    true
}

impl PartialEq for AttributeValue {
    fn eq(&self, other: &AttributeValue) -> (r: bool) {
        value_eq(self, other)
    }
}

impl PartialEqSpecImpl for AttributeValue {
    open spec fn obeys_eq_spec() -> bool {
        true
    }

    open spec fn eq_spec(&self, other: &AttributeValue) -> bool {
        self@ == other@
    }
}

impl PartialEq for AttributeMap {
    fn eq(&self, other: &AttributeMap) -> (r: bool) {
        map_eq(self, other)
    }
}

impl PartialEqSpecImpl for AttributeMap {
    open spec fn obeys_eq_spec() -> bool {
        true
    }

    open spec fn eq_spec(&self, other: &AttributeMap) -> bool {
        self@ == other@
    }
}

} // verus!
