//! The windowed row cache: a sparse map from row index to row, kept within a
//! guard band around the most recent miss.

use vstd::prelude::*;
use std::collections::BTreeMap;
use crate::database::SortOrder;
use crate::error::FetchError;
use crate::row::Row;
use crate::table::{Table, TableModel};
use crate::value::ValueModel;

verus! {

broadcast use vstd::laws_cmp::group_laws_cmp;

/// Rows fetched by one range query, by default.
pub const PAGE_SIZE: u32 = 256;

/// Half-width of the band of rows kept around the most recent miss, by default.
pub const GUARD_RADIUS: u32 = 256;

/// The range of rows that one query asks for.
#[derive(Clone, Copy, Debug, PartialEq, Eq, Structural)]
pub struct FetchWindow {
    pub offset: u32,
    pub limit: u32,
}

/// What the cache says of an index before anything is fetched.
#[derive(Debug, PartialEq, Eq)]
pub enum Lookup {
    /// The row is held.
    Hit(Row),
    /// The row is not held; this window has to be fetched.
    Miss(FetchWindow),
}

/// Whether `k` lies within `radius` of `center`.
pub open spec fn in_band(k: int, center: int, radius: int) -> bool {
    center - radius <= k <= center + radius
}

/// The window fetched on a miss at `index`: one page, centered on the index.
pub open spec fn window_around(index: int, page_size: int) -> (int, int) {
    (if index >= page_size / 2 { index - page_size / 2 } else { 0 }, page_size)
}

/// The entries after a fetched page was taken in on a miss at `center`:
/// each fetched row stands at `offset` plus its position, in place of what
/// was there, and nothing outside the guard band is kept.
pub open spec fn absorbed(
    held: Map<int, Seq<ValueModel>>,
    center: int,
    radius: int,
    offset: int,
    rows: Seq<Seq<ValueModel>>,
) -> Map<int, Seq<ValueModel>> {
    Map::new(
        |k: int|
            in_band(k, center, radius) && 0 <= k <= u32::MAX && (offset <= k < offset + rows.len()
                || held.contains_key(k)),
        |k: int|
            if offset <= k < offset + rows.len() {
                rows[k - offset]
            } else {
                held[k]
            },
    )
}

/// What a [`Cache`] stands for.
pub struct CacheModel {
    /// The table that the rows are of.
    pub table: TableModel,
    /// The order in which the table's rows are counted.
    pub order: SortOrder,
    /// The rows held, by index.
    pub entries: Map<int, Seq<ValueModel>>,
    /// The total row count, once known.
    pub total: Option<u32>,
    /// The index of the most recent miss that was served.
    pub anchor: int,
    pub page_size: int,
    pub guard_radius: int,
}

impl CacheModel {
    /// A cache that holds nothing and knows no row count.
    pub open spec fn fresh(
        table: TableModel,
        order: SortOrder,
        page_size: int,
        guard_radius: int,
    ) -> CacheModel {
        CacheModel {
            table,
            order,
            entries: Map::empty(),
            total: None,
            anchor: 0,
            page_size,
            guard_radius,
        }
    }

    /// Every entry lies in the guard band around the anchor.
    pub open spec fn wf(self) -> bool {
        &&& 0 <= self.anchor <= u32::MAX
        &&& 0 <= self.page_size <= u32::MAX
        &&& 0 <= self.guard_radius <= u32::MAX
        &&& forall|k: int| #[trigger]
            self.entries.contains_key(k) ==> 0 <= k <= u32::MAX && in_band(
                k,
                self.anchor,
                self.guard_radius,
            )
    }

    /// Well formed, with no more rows held than the guard band on both sides
    /// of the anchor and one page have room for.
    pub open spec fn bounded(self) -> bool {
        self.wf() && self.entries.len() <= 2 * self.guard_radius + self.page_size
    }

    /// The cache after the outcome of the fetch for a miss at `index` was
    /// taken in. A failed fetch leaves the cache as it was.
    pub open spec fn absorb(
        self,
        index: int,
        offset: int,
        outcome: Result<Seq<Seq<ValueModel>>, FetchError>,
    ) -> CacheModel {
        match outcome {
            Ok(rows) => CacheModel {
                entries: absorbed(self.entries, index, self.guard_radius, offset, rows),
                anchor: index,
                ..self
            },
            Err(_) => self,
        }
    }

    /// The row held at `index`, if any.
    pub open spec fn get(self, index: int) -> Option<Seq<ValueModel>> {
        if self.entries.contains_key(index) {
            Some(self.entries[index])
        } else {
            None
        }
    }

    /// The cache after the outcome of a count query was noted. A failure is
    /// not remembered.
    pub open spec fn note_count(self, outcome: Result<u32, FetchError>) -> CacheModel {
        match (self.total, outcome) {
            (None, Ok(n)) => CacheModel { total: Some(n), ..self },
            _ => self,
        }
    }

    /// The cache and the answer after the row at `index` was asked for.
    /// `count` is the outcome of the count query, which is made only while
    /// the total is unknown; `fetch` is the outcome of the range query for
    /// the window around `index`, which is made only where the index lies
    /// below the length and its row is not held.
    pub open spec fn serve(
        self,
        index: int,
        count: Result<u32, FetchError>,
        fetch: Result<Seq<Seq<ValueModel>>, FetchError>,
    ) -> (CacheModel, Option<Seq<ValueModel>>) {
        let counted = self.note_count(count);
        if index >= self.length_after(count) {
            (counted, None)
        } else if counted.entries.contains_key(index) {
            (counted, Some(counted.entries[index]))
        } else {
            let after = counted.absorb(index, window_around(index, counted.page_size).0, fetch);
            (after, after.get(index))
        }
    }

    /// The length reported after the outcome of a count query was noted.
    pub open spec fn length_after(self, outcome: Result<u32, FetchError>) -> u32 {
        match self.note_count(outcome).total {
            Some(n) => n,
            None => 0,
        }
    }
}

/// The models of the rows.
pub open spec fn row_models(rows: Seq<Row>) -> Seq<Seq<ValueModel>> {
    Seq::new(rows.len(), |i: int| rows[i]@)
}

/// The models of the rows held in a map.
pub open spec fn entry_models(m: Map<u32, Row>) -> Map<int, Seq<ValueModel>> {
    Map::new(|k: int| 0 <= k <= u32::MAX && m.contains_key(k as u32), |k: int| m[k as u32]@)
}

/// The sparse set of rows held in memory, with the memoized row count.
#[derive(Debug)]
pub struct Cache {
    table: Table,
    order: SortOrder,
    entries: BTreeMap<u32, Row>,
    total: Option<u32>,
    anchor: u32,
    page_size: u32,
    guard_radius: u32,
}

impl View for Cache {
    type V = CacheModel;

    closed spec fn view(&self) -> CacheModel {
        CacheModel {
            table: self.table@,
            order: self.order,
            entries: entry_models(self.entries@),
            total: self.total,
            anchor: self.anchor as int,
            page_size: self.page_size as int,
            guard_radius: self.guard_radius as int,
        }
    }
}

/// The keys of `entries` that lie outside `[lo, hi]`.
fn keys_outside(entries: &BTreeMap<u32, Row>, lo: u32, hi: u32) -> (r: Vec<u32>)
    ensures
        forall|i: int|
            0 <= i < r.len() ==> entries@.contains_key(#[trigger] r[i]) && !(lo <= r[i] <= hi),
        forall|k: u32| entries@.contains_key(k) && !(lo <= k <= hi) ==> r@.contains(k),
{
    let mut out: Vec<u32> = Vec::new();
    for k in it: entries.keys()
        invariant
            it.seq().unref().to_set() == entries@.dom(),
            forall|i: int|
                0 <= i < out.len() ==> entries@.contains_key(#[trigger] out[i]) && !(lo <= out[i]
                    <= hi),
            forall|j: int|
                0 <= j < it.index() && !(lo <= *it.seq()[j] <= hi) ==> out@.contains(
                    *#[trigger] it.seq()[j],
                ),
            it.index() == it.seq().len() ==> forall|k: u32|
                entries@.contains_key(k) && !(lo <= k <= hi) ==> out@.contains(k),
    {
        assert(it.seq().unref()[it.index()] == *k);
        assert(it.seq().unref().to_set().contains(*k));
        let ghost before = out@;
        if *k < lo || *k > hi {
            out.push(*k);
            assert(out@[before.len() as int] == *k);
        }
        assert forall|j: int|
            0 <= j < it.index() + 1 && !(lo <= *it.seq()[j] <= hi) implies out@.contains(
            *#[trigger] it.seq()[j],
        ) by {
            if j < it.index() {
                assert(before.contains(*it.seq()[j]));
                let w = choose|w: int| 0 <= w < before.len() && before[w] == *it.seq()[j];
                assert(out@[w] == *it.seq()[j]);
            }
        }
        assert(it.index() + 1 == it.seq().len() ==> forall|k: u32|
            entries@.contains_key(k) && !(lo <= k <= hi) ==> out@.contains(k)) by {
            if it.index() + 1 == it.seq().len() {
                assert forall|k: u32| entries@.contains_key(k) && !(lo <= k <= hi) implies out@.contains(k) by {
                    assert(it.seq().unref().to_set().contains(k));
                    let j = choose|j: int| 0 <= j < it.seq().unref().len() && it.seq().unref()[j] == k;
                    assert(*it.seq()[j] == k);
                }
            }
        }
    }
    out
}

/// Drops every entry of `entries` whose key lies outside `[lo, hi]`.
fn evict_outside(entries: &mut BTreeMap<u32, Row>, lo: u32, hi: u32)
    ensures
        forall|k: u32|
            final(entries)@.contains_key(k) <==> (old(entries)@.contains_key(k) && lo <= k <= hi),
        forall|k: u32| final(entries)@.contains_key(k) ==> final(entries)@[k] == old(entries)@[k],
{
    let doomed = keys_outside(entries, lo, hi);
    let mut i: usize = 0;
    while i < doomed.len()
        invariant
            i <= doomed.len(),
            forall|j: int|
                0 <= j < doomed.len() ==> old(entries)@.contains_key(#[trigger] doomed[j]) && !(lo
                    <= doomed[j] <= hi),
            forall|k: u32|
                entries@.contains_key(k) <==> (old(entries)@.contains_key(k) && !(exists|j: int|
                    0 <= j < i && doomed[j] == k)),
            forall|k: u32| entries@.contains_key(k) ==> entries@[k] == old(entries)@[k],
        decreases doomed.len() - i,
    {
        let key = doomed[i];
        entries.remove(&key);
        i = i + 1;
    }
    assert forall|k: u32| entries@.contains_key(k) <==> (old(entries)@.contains_key(k) && lo <= k
        <= hi) by {
        if old(entries)@.contains_key(k) && !(lo <= k <= hi) {
            assert(doomed@.contains(k));
        }
    }
}

impl Cache {
    /// A cache for the rows of `table` in the given order. It holds nothing
    /// and knows no row count.
    pub fn new(table: Table, order: SortOrder, page_size: u32, guard_radius: u32) -> (c: Cache)
        ensures
            c@.wf(),
            c@ == CacheModel::fresh(
                table@,
                order,
                page_size as int,
                guard_radius as int,
            ),
    {
        let c = Cache {
            table,
            order,
            entries: BTreeMap::new(),
            total: None,
            anchor: 0,
            page_size,
            guard_radius,
        };
        assert(c@.entries =~= Map::<int, Seq<ValueModel>>::empty());
        c
    }

    /// A cache with the default page size and guard radius.
    pub fn with_defaults(table: Table, order: SortOrder) -> (c: Cache)
        ensures
            c@.wf(),
            c@ == CacheModel::fresh(
                table@,
                order,
                PAGE_SIZE as int,
                GUARD_RADIUS as int,
            ),
    {
        Cache::new(table, order, PAGE_SIZE, GUARD_RADIUS)
    }

    /// Whether every entry lies in the guard band around the latest miss.
    pub open spec fn wf(&self) -> bool {
        self@.wf()
    }

    /// The window to fetch on a miss at `index`.
    pub fn window_for(&self, index: u32) -> (w: FetchWindow)
        ensures
            (w.offset as int, w.limit as int) == window_around(index as int, self@.page_size),
    {
        FetchWindow { offset: index.saturating_sub(self.page_size / 2), limit: self.page_size }
    }

    /// The row held at `index`, if any. Nothing is fetched.
    pub fn get(&self, index: u32) -> (r: Option<Row>)
        ensures
            match r {
                Some(row) => self@.get(index as int) == Some(row@),
                None => self@.get(index as int) == None::<Seq<ValueModel>>,
            },
    {
            match self.entries.get(&index) {
            Some(row) => Some(row.clone()),
            None => None,
        }
    }

    /// Whether the row at `index` is held.
    pub fn holds(&self, index: u32) -> (b: bool)
        ensures
            b == self@.entries.contains_key(index as int),
    {
            self.entries.contains_key(&index)
    }

    /// A hit with the row held at `index`, or a miss with the window to fetch.
    pub fn lookup(&self, index: u32) -> (r: Lookup)
        ensures
            match r {
                Lookup::Hit(row) => self@.get(index as int) == Some(row@),
                Lookup::Miss(w) => self@.get(index as int) == None::<Seq<ValueModel>> && (
                w.offset as int,
                w.limit as int,
                ) == window_around(index as int, self@.page_size),
            },
    {
        match self.get(index) {
            Some(row) => Lookup::Hit(row),
            None => Lookup::Miss(self.window_for(index)),
        }
    }

    /// Number of rows held.
    pub fn len(&self) -> (n: usize)
        ensures
            n == self@.entries.len(),
            self@.wf() ==> n <= 2 * self@.guard_radius + 1,
    {
        proof {
            lemma_entry_models_len(self.entries@);
            if self@.wf() {
                crate::laws::lemma_entries_are_bounded(self@);
            }
        }
        self.entries.len()
    }

    /// The total row count, if it was computed already.
    pub fn known_length(&self) -> (n: Option<u32>)
        ensures
            n == self@.total,
    {
        self.total
    }

    /// The table that the rows are of.
    pub fn table(&self) -> (t: &Table)
        ensures
            t@ == self@.table,
    {
        &self.table
    }

    /// The order in which the table's rows are counted.
    pub fn order(&self) -> (o: SortOrder)
        ensures
            o == self@.order,
    {
        self.order
    }

    /// The page size this cache was made with.
    pub fn page_size(&self) -> (n: u32)
        ensures
            n == self@.page_size,
    {
        self.page_size
    }

    /// The guard radius this cache was made with.
    pub fn guard_radius(&self) -> (n: u32)
        ensures
            n == self@.guard_radius,
    {
        self.guard_radius
    }

    /// Takes in the rows of a page fetched at `offset` for a miss at `index`:
    /// each row is stored at `offset` plus its position, over what was there,
    /// and every entry outside the guard band around `index` is dropped.
    pub fn store_page(&mut self, index: u32, offset: u32, rows: Vec<Row>)
        ensures
            final(self)@ == old(self)@.absorb(index as int, offset as int, Ok(row_models(rows@))),
            final(self)@.wf(),
    {
            let lo = index.saturating_sub(self.guard_radius);
        let hi = index.saturating_add(self.guard_radius);
        evict_outside(&mut self.entries, lo, hi);
        self.anchor = index;
        let ghost all = row_models(rows@);
        let ghost goal = old(self)@.absorb(index as int, offset as int, Ok(all));
        let ghost evicted = entry_models(self.entries@);
        let mut rows = rows;
        assert(all.subrange(0, rows.len() as int) =~= row_models(rows@));
        assert(absorbed(
            evicted,
            index as int,
            self.guard_radius as int,
            offset + rows.len(),
            all.subrange(rows.len() as int, all.len() as int),
        ) =~= evicted);
        while rows.len() > 0
            invariant
                all.len() >= rows.len(),
                row_models(rows@) == all.subrange(0, rows.len() as int),
                lo == if index >= self.guard_radius { index - self.guard_radius } else { 0 },
                hi == if index + self.guard_radius <= u32::MAX { index + self.guard_radius } else { u32::MAX as int },
                self.anchor == index,
                self.table == old(self).table,
                self.order == old(self).order,
                self.total == old(self).total,
                self.page_size == old(self).page_size,
                self.guard_radius == old(self).guard_radius,
                forall|k: int|
                    evicted.contains_key(k) <==> (old(self)@.entries.contains_key(k) && in_band(
                        k,
                        index as int,
                        self.guard_radius as int,
                    )),
                forall|k: int| evicted.contains_key(k) ==> evicted[k] == old(self)@.entries[k],
                entry_models(self.entries@) == absorbed(
                    evicted,
                    index as int,
                    self.guard_radius as int,
                    offset + rows.len(),
                    all.subrange(rows.len() as int, all.len() as int),
                ),
            decreases rows.len(),
        {
            let ghost before = entry_models(self.entries@);
            let ghost prior = rows@;
            let j = rows.len() - 1;
            let row = rows.pop().unwrap();
            assert(row@ == all[j as int]) by {
                assert(row_models(prior)[j as int] == prior[j as int]@);
            }
            assert(row_models(rows@) =~= all.subrange(0, rows.len() as int)) by {
                assert forall|i: int| 0 <= i < rows.len() implies row_models(rows@)[i] == all[i] by {
                    assert(row_models(prior)[i] == prior[i]@);
                }
            }
            if j <= (u32::MAX - offset) as usize {
                let k: u32 = offset + j as u32;
                if lo <= k && k <= hi {
                    self.entries.insert(k, row);
                }
            }
            let ghost tail = all.subrange(j + 1, all.len() as int);
            let ghost longer = all.subrange(j as int, all.len() as int);
            let ghost now = entry_models(self.entries@);
            let ghost wanted = absorbed(
                evicted,
                index as int,
                self.guard_radius as int,
                offset + j,
                longer,
            );
            assert(before == absorbed(
                evicted,
                index as int,
                self.guard_radius as int,
                offset + j + 1,
                tail,
            ));
            assert forall|k: int| now.contains_key(k) <==> wanted.contains_key(k) by {
                if k == offset + j {
                } else {
                    assert(now.contains_key(k) <==> before.contains_key(k));
                }
            }
            assert forall|k: int| now.contains_key(k) implies now[k] == wanted[k] by {
                if k == offset + j {
                    assert(longer[0] == all[j as int]);
                } else {
                    assert(now[k] == before[k]);
                    if offset + j + 1 <= k < offset + j + 1 + tail.len() {
                        assert(tail[k - (offset + j + 1)] == all[k - offset]);
                        assert(longer[k - (offset + j)] == all[k - offset]);
                    }
                }
            }
            assert(now =~= wanted);
        }
        assert(all.subrange(0, all.len() as int) =~= all);
        assert(self@.entries =~= goal.entries);
    }

    /// Takes in the outcome of the fetch made for a miss at `index`, and
    /// returns the row then held at `index`. A failed fetch changes nothing
    /// and is not remembered.
    pub fn absorb(&mut self, index: u32, offset: u32, outcome: Result<Vec<Row>, FetchError>) -> (r:
        Option<Row>)
        ensures
            final(self)@ == old(self)@.absorb(index as int, offset as int, outcome_model(outcome)),
            old(self)@.wf() ==> final(self)@.wf(),
            match r {
                Some(row) => final(self)@.get(index as int) == Some(row@),
                None => final(self)@.get(index as int) == None::<Seq<ValueModel>>,
            },
    {
        match outcome {
            Ok(rows) => {
                self.store_page(index, offset, rows);
            },
            Err(_) => {},
        }
        self.get(index)
    }

    /// Notes the outcome of a count query and returns the length to report:
    /// the count, memoized from then on, or 0 after a failure, which is not
    /// remembered. A count that is known already stays.
    pub fn note_count(&mut self, outcome: Result<u32, FetchError>) -> (n: u32)
        ensures
            final(self)@ == old(self)@.note_count(outcome),
            old(self)@.wf() ==> final(self)@.wf(),
            n == old(self)@.length_after(outcome),
    {
        match self.total {
            Some(n) => n,
            None => match outcome {
                Ok(n) => {
                    self.total = Some(n);
                    n
                },
                Err(_) => 0,
            },
        }
    }
}

/// Whether all the rows have the same number of cells.
pub open spec fn uniform(rows: Seq<Seq<ValueModel>>) -> bool {
    forall|i: int, j: int|
        0 <= i < rows.len() && 0 <= j < rows.len() ==> (#[trigger] rows[i]).len() == (
        #[trigger] rows[j]).len()
}

/// The model of a row that may be there.
pub open spec fn answer_model(r: Option<Row>) -> Option<Seq<ValueModel>> {
    match r {
        Some(row) => Some(row@),
        None => None,
    }
}

/// The model of a fetch outcome.
pub open spec fn outcome_model(outcome: Result<Vec<Row>, FetchError>) -> Result<
    Seq<Seq<ValueModel>>,
    FetchError,
> {
    match outcome {
        Ok(rows) => Ok(row_models(rows@)),
        Err(e) => Err(e),
    }
}

/// A map's models are as many as its entries.
proof fn lemma_entry_models_len(m: Map<u32, Row>)
    requires
        m.dom().finite(),
    ensures
        entry_models(m).dom().finite(),
        entry_models(m).len() == m.len(),
{
    let f = |k: u32| k as int;
    assert(entry_models(m).dom() =~= m.dom().map(f)) by {
        assert forall|x: int| entry_models(m).dom().contains(x) implies m.dom().map(f).contains(x) by {
            assert(m.dom().contains(x as u32) && f(x as u32) == x);
        }
    }
    vstd::set_lib::lemma_map_size(m.dom(), entry_models(m).dom(), f) ;
}

} // verus!
