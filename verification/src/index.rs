//! The indicator index: per-date value maps, held in ascending date order.
//!
//! Building the index from a flat record list is pinned down by the spec
//! functions here: records are folded in input order, a repeated (date, name)
//! pair overwriting the earlier value, so the input order alone decides the
//! outcome.

use vstd::prelude::*;
use crate::date::Date;
use crate::types::TechnicalIndicator;
use crate::values::DayValues;
use vstd::seq_lib::*;

verus! {

/// All values recorded on one date.
pub struct DayEntry {
    pub date: Date,
    pub values: DayValues,
}

/// The mathematical value of a [`DayEntry`].
pub ghost struct DayView {
    pub date: Date,
    pub values: Map<Seq<char>, i64>,
}

impl View for DayEntry {
    type V = DayView;

    open spec fn view(&self) -> DayView {
        DayView { date: self.date, values: self.values@ }
    }
}

/// The per-symbol index: one entry per distinct date, ascending.
pub struct IndicatorIndex {
    pub days: Vec<DayEntry>,
}

impl View for IndicatorIndex {
    type V = Seq<DayView>;

    open spec fn view(&self) -> Seq<DayView> {
        self.days@.map_values(|e: DayEntry| e@)
    }
}

/// Dates strictly ascend through the sequence.
pub open spec fn sorted_dates(s: Seq<DayView>) -> bool {
    forall|i: int, j: int|
        0 <= i < j < s.len() ==> (#[trigger] s[i]).date.lt_spec((#[trigger] s[j]).date)
}

/// Where a record for date `d` lands: the first position whose date is not
/// before `d`.
pub open spec fn insert_pos(days: Seq<DayView>, d: Date) -> int
    decreases days.len(),
{
    if days.len() == 0 {
        0
    } else if d.le_spec(days[0].date) {
        0
    } else {
        1 + insert_pos(days.drop_first(), d)
    }
}

/// What [`insert_pos`] returns: every earlier date falls before `d`, and the
/// date at the position, if any, does not.
pub proof fn lemma_insert_pos(days: Seq<DayView>, d: Date)
    ensures
        0 <= insert_pos(days, d) <= days.len(),
        forall|k: int| 0 <= k < insert_pos(days, d) ==> (#[trigger] days[k]).date.lt_spec(d),
        insert_pos(days, d) < days.len() ==> d.le_spec(days[insert_pos(days, d)].date),
    decreases days.len(),
{
    if days.len() > 0 && !d.le_spec(days[0].date) {
        lemma_insert_pos(days.drop_first(), d);
        let p = insert_pos(days, d);
        assert forall|k: int| 0 <= k < p implies (#[trigger] days[k]).date.lt_spec(d) by {
            if k > 0 {
                assert(days.drop_first()[k - 1] == days[k]);
            }
        }
        if p < days.len() {
            assert(days.drop_first()[p - 1] == days[p]);
        }
    }
}

/// One record folded into the index: a known date gains the value under its
/// name, a new date opens a fresh entry at its ordered position.
pub open spec fn index_insert(days: Seq<DayView>, ind: TechnicalIndicator) -> Seq<DayView> {
    let p = insert_pos(days, ind.date);
    if p < days.len() && days[p].date == ind.date {
        days.update(
            p,
            DayView {
                date: ind.date,
                values: days[p].values.insert(ind.indicator_name@, ind.value),
            },
        )
    } else {
        days.insert(
            p,
            DayView {
                date: ind.date,
                values: Map::<Seq<char>, i64>::empty().insert(ind.indicator_name@, ind.value),
            },
        )
    }
}

/// The index a record sequence denotes, folded in input order.
pub open spec fn spec_index_of(inds: Seq<TechnicalIndicator>) -> Seq<DayView>
    decreases inds.len(),
{
    if inds.len() == 0 {
        Seq::empty()
    } else {
        index_insert(spec_index_of(inds.drop_last()), inds.last())
    }
}

/// Folding a record keeps the dates strictly ascending.
pub proof fn lemma_index_insert_sorted(days: Seq<DayView>, ind: TechnicalIndicator)
    requires
        sorted_dates(days),
    ensures
        sorted_dates(index_insert(days, ind)),
{
    let d = ind.date;
    let p = insert_pos(days, d);
    lemma_insert_pos(days, d);
    let t = index_insert(days, ind);
    if p < days.len() && days[p].date == d {
        assert forall|i: int, j: int| 0 <= i < j < t.len() implies (#[trigger] t[i]).date.lt_spec(
            (#[trigger] t[j]).date) by {
            assert(t[i].date == days[i].date);
            assert(t[j].date == days[j].date);
        }
    } else {
        days.insert_ensures(p, t[p]);
        assert forall|i: int, j: int| 0 <= i < j < t.len() implies (#[trigger] t[i]).date.lt_spec(
            (#[trigger] t[j]).date) by {
            if p < days.len() {
                assert(d.lt_spec(days[p].date));
            }
            if i < p {
                assert(t[i] == days[i]);
            } else if i > p {
                assert(t[i] == days[i - 1]);
            }
            if j < p {
                assert(t[j] == days[j]);
            } else if j > p {
                assert(t[j] == days[j - 1]);
            }
        }
    }
}

/// The index a record sequence denotes is sorted, whatever the input order.
pub proof fn lemma_spec_index_sorted(inds: Seq<TechnicalIndicator>)
    ensures
        sorted_dates(spec_index_of(inds)),
    decreases inds.len(),
{
    if inds.len() > 0 {
        lemma_spec_index_sorted(inds.drop_last());
        lemma_index_insert_sorted(spec_index_of(inds.drop_last()), inds.last());
    }
}

impl IndicatorIndex {
    /// Entries ascend by date and each day's map is well formed.
    pub open spec fn wf(self) -> bool {
        &&& sorted_dates(self@)
        &&& forall|i: int| 0 <= i < self.days@.len() ==> (#[trigger] self.days@[i]).values.wf()
    }

    /// An empty index.
    pub fn new() -> (idx: IndicatorIndex)
        ensures
            idx.wf(),
            idx@ == Seq::<DayView>::empty(),
    {
        let idx = IndicatorIndex { days: Vec::new() };
        proof {
            assert(idx@ =~= Seq::<DayView>::empty());
        }
        idx
    }

    /// Folds one record into the index.
    pub fn add(&mut self, ind: &TechnicalIndicator)
        requires
            old(self).wf(),
        ensures
            final(self).wf(),
            final(self)@ == index_insert(old(self)@, *ind),
    {
        let n = self.days.len();
        let mut p: usize = 0;
        while p < n && self.days[p].date.before(&ind.date)
            invariant
                n == self.days@.len(),
                0 <= p <= n,
                self == old(self),
                forall|k: int| 0 <= k < p ==> (#[trigger] self@[k]).date.lt_spec(ind.date),
            decreases n - p,
        {
            p += 1;
        }
        proof {
            lemma_insert_pos(self@, ind.date);
            let sp = insert_pos(self@, ind.date);
            if sp < p {
                assert(self@[sp].date.lt_spec(ind.date));
            }
            if (p as int) < sp {
                assert(self@[p as int].date.lt_spec(ind.date));
            }
            assert(p == sp);
            lemma_index_insert_sorted(self@, *ind);
        }
        if p < n && self.days[p].date.same(&ind.date) {
            let mut e = self.days.remove(p);
            e.values.set(ind.indicator_name.clone(), ind.value);
            self.days.insert(p, e);
            proof {
                assert(self@ =~= index_insert(old(self)@, *ind));
            }
        } else {
            let mut v = DayValues::new();
            v.set(ind.indicator_name.clone(), ind.value);
            self.days.insert(p, DayEntry { date: ind.date, values: v });
            proof {
                assert(self@ =~= index_insert(old(self)@, *ind));
            }
        }
    }

    /// Builds the index of a record list, in input order.
    pub fn build(indicators: &[TechnicalIndicator]) -> (idx: IndicatorIndex)
        ensures
            idx.wf(),
            idx@ == spec_index_of(indicators@),
    {
        let mut idx = IndicatorIndex::new();
        let n = indicators.len();
        let mut i: usize = 0;
        while i < n
            invariant
                n == indicators@.len(),
                0 <= i <= n,
                idx.wf(),
                idx@ == spec_index_of(indicators@.take(i as int)),
            decreases n - i,
        {
            idx.add(&indicators[i]);
            proof {
                assert(indicators@.take(i + 1 as int).drop_last() =~= indicators@.take(i as int));
                assert(indicators@.take(i + 1 as int).last() == indicators@[i as int]);
            }
            i += 1;
        }
        proof {
            assert(indicators@.take(n as int) =~= indicators@);
        }
        idx
    }
}

} // verus!
