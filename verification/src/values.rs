//! The per-date map from indicator name to value.
//!
//! The engine holds it as an association list with distinct names; its
//! mathematical value is a `Map<Seq<char>, i64>`, and inserting an existing
//! name overwrites its value, which is what gives duplicate input records
//! their last-write-wins meaning.

use vstd::prelude::*;

verus! {

/// One named indicator value.
pub struct NamedValue {
    pub name: String,
    pub value: i64,
}

/// All indicator values recorded on one date, keyed by name.
pub struct DayValues {
    entries: Vec<NamedValue>,
}

/// The map an entry list denotes, later entries overwriting earlier ones.
pub open spec fn map_of(s: Seq<NamedValue>) -> Map<Seq<char>, i64>
    decreases s.len(),
{
    if s.len() == 0 {
        Map::empty()
    } else {
        map_of(s.drop_last()).insert(s.last().name@, s.last().value)
    }
}

/// Looking a key up in a map, as an option.
pub open spec fn map_get(m: Map<Seq<char>, i64>, k: Seq<char>) -> Option<i64> {
    if m.contains_key(k) {
        Option::Some(m[k])
    } else {
        Option::None
    }
}

/// A key is in the map exactly when some entry carries it.
proof fn lemma_map_of_contains(s: Seq<NamedValue>, k: Seq<char>)
    ensures
        map_of(s).contains_key(k) <==> (exists|i: int|
            0 <= i < s.len() && (#[trigger] s[i]).name@ == k),
    decreases s.len(),
{
    if s.len() > 0 {
        lemma_map_of_contains(s.drop_last(), k);
        if map_of(s).contains_key(k) && s.last().name@ != k {
            let i = choose|i: int| 0 <= i < s.drop_last().len() && (#[trigger] s.drop_last()[i]).name@ == k;
            assert(s[i].name@ == k);
        }
        if exists|i: int| 0 <= i < s.len() && (#[trigger] s[i]).name@ == k {
            let i = choose|i: int| 0 <= i < s.len() && (#[trigger] s[i]).name@ == k;
            if i < s.len() - 1 {
                assert(s.drop_last()[i].name@ == k);
            }
        }
    }
}

/// With distinct names, the entry that carries a key gives its value.
proof fn lemma_map_of_value(s: Seq<NamedValue>, i: int)
    requires
        forall|p: int, q: int|
            0 <= p < q < s.len() ==> (#[trigger] s[p]).name@ != (#[trigger] s[q]).name@,
        0 <= i < s.len(),
    ensures
        map_of(s).contains_key(s[i].name@),
        map_of(s)[s[i].name@] == s[i].value,
    decreases s.len(),
{
    if i == s.len() - 1 {
    } else {
        assert(forall|p: int, q: int|
            0 <= p < q < s.drop_last().len() ==> (#[trigger] s.drop_last()[p]).name@ != (
            #[trigger] s.drop_last()[q]).name@);
        lemma_map_of_value(s.drop_last(), i);
        assert(s[i].name@ != s.last().name@);
        assert(s.drop_last()[i] == s[i]);
    }
}

impl DayValues {
    /// The names are distinct, so each denotes a single value.
    pub closed spec fn wf(self) -> bool {
        forall|p: int, q: int|
            0 <= p < q < self.entries@.len() ==> (#[trigger] self.entries@[p]).name@ != (
            #[trigger] self.entries@[q]).name@
    }

    /// An empty day: no indicator recorded.
    pub fn new() -> (d: DayValues)
        ensures
            d.wf(),
            d@ == Map::<Seq<char>, i64>::empty(),
    {
        DayValues { entries: Vec::new() }
    }

    /// The value recorded under `name`, if any.
    pub fn get(&self, name: &String) -> (r: Option<i64>)
        requires
            self.wf(),
        ensures
            r == map_get(self@, name@),
    {
        let n = self.entries.len();
        let mut i: usize = 0;
        while i < n
            invariant
                n == self.entries@.len(),
                0 <= i <= n,
                self.wf(),
                forall|j: int| 0 <= j < i ==> (#[trigger] self.entries@[j]).name@ != name@,
            decreases n - i,
        {
            if self.entries[i].name == *name {
                proof {
                    lemma_map_of_value(self.entries@, i as int);
                }
                return Option::Some(self.entries[i].value);
            }
            i += 1;
        }
        proof {
            lemma_map_of_contains(self.entries@, name@);
        }
        Option::None
    }

    /// Records `value` under `name`, overwriting any earlier value.
    pub fn set(&mut self, name: String, value: i64)
        requires
            old(self).wf(),
        ensures
            final(self).wf(),
            final(self)@ == old(self)@.insert(name@, value),
    {
        let n = self.entries.len();
        let mut i: usize = 0;
        while i < n
            invariant
                n == self.entries@.len(),
                0 <= i <= n,
                self.wf(),
                self == old(self),
                forall|j: int| 0 <= j < i ==> (#[trigger] self.entries@[j]).name@ != name@,
            decreases n - i,
        {
            if self.entries[i].name == name {
                let ghost s = self.entries@;
                self.entries.set(i, NamedValue { name, value });
                proof {
                    lemma_map_of_set(s, i as int, self.entries@[i as int]);
                    assert(self@ =~= old(self)@.insert(s[i as int].name@, value));
                }
                return ;
            }
            i += 1;
        }
        let ghost s = self.entries@;
        self.entries.push(NamedValue { name, value });
        proof {
            assert(self.entries@.drop_last() =~= s);
        }
    }
}

/// Overwriting the entry that carries a key denotes inserting over that key.
proof fn lemma_map_of_set(s: Seq<NamedValue>, i: int, nv: NamedValue)
    requires
        forall|p: int, q: int|
            0 <= p < q < s.len() ==> (#[trigger] s[p]).name@ != (#[trigger] s[q]).name@,
        0 <= i < s.len(),
        nv.name@ == s[i].name@,
    ensures
        map_of(s.update(i, nv)) =~= map_of(s).insert(nv.name@, nv.value),
    decreases s.len(),
{
    let t = s.update(i, nv);
    if i == s.len() - 1 {
        assert(t.drop_last() =~= s.drop_last());
    } else {
        assert(forall|p: int, q: int|
            0 <= p < q < s.drop_last().len() ==> (#[trigger] s.drop_last()[p]).name@ != (
            #[trigger] s.drop_last()[q]).name@);
        lemma_map_of_set(s.drop_last(), i, nv);
        assert(t.drop_last() =~= s.drop_last().update(i, nv));
        assert(t.last() == s.last());
        assert(s[i].name@ != s.last().name@);
    }
}

impl View for DayValues {
    type V = Map<Seq<char>, i64>;

    closed spec fn view(&self) -> Map<Seq<char>, i64> {
        map_of(self.entries@)
    }
}

} // verus!
