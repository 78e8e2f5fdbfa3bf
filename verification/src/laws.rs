//! What holds of the cache under every pattern of access, whatever the
//! backing store answers.

use vstd::prelude::*;
use vstd::set_lib::{lemma_int_range, lemma_len_subset, set_int_range};
use crate::cache::{in_band, uniform, window_around, CacheModel};
use crate::database::fetched;
use crate::error::FetchError;
use crate::text::hex_of;
use crate::value::{ValueModel, BLOB_PREVIEW_BYTES};

verus! {

/// A row below the length is served as soon as the page fetched around it
/// reaches it: the answer is the row held at the index or, on a miss, the
/// row that the page has at the index. Where the rows of the page have one
/// arity, the row served on a miss has it too.
pub proof fn lemma_row_within_length_is_served(
    c: CacheModel,
    index: int,
    count: Result<u32, FetchError>,
    rows: Seq<Seq<ValueModel>>,
)
    requires
        c.wf(),
        0 <= index <= u32::MAX,
        index < c.length_after(count),
        window_around(index, c.page_size).0 + rows.len() > index,
    ensures
        c.serve(index, count, Ok(rows)).1 == Some(
            if c.entries.contains_key(index) {
                c.entries[index]
            } else {
                rows[index - window_around(index, c.page_size).0]
            },
        ),
        uniform(rows) && !c.entries.contains_key(index) ==> forall|j: int|
            0 <= j < rows.len() ==> c.serve(index, count, Ok(rows)).1->Some_0.len() == (
            #[trigger] rows[j]).len(),
{
    let offset = window_around(index, c.page_size).0;
    assert(in_band(index, index, c.guard_radius));
    if uniform(rows) && !c.entries.contains_key(index) {
        assert forall|j: int| 0 <= j < rows.len() implies rows[index - offset].len() == (
        #[trigger] rows[j]).len() by {}
    }
}

/// No row is served at an index that is not below the length, and the
/// store is not asked for one: the cache is the same whatever a fetch would
/// have given.
pub proof fn lemma_no_row_beyond_length(
    c: CacheModel,
    index: int,
    count: Result<u32, FetchError>,
    fetch: Result<Seq<Seq<ValueModel>>, FetchError>,
)
    requires
        index >= c.length_after(count),
    ensures
        c.serve(index, count, fetch) == (c.note_count(count), None::<Seq<ValueModel>>),
{
}

/// Once the count is known, the length is that count from then on, whatever
/// a later count query would have given: none is made.
pub proof fn lemma_length_is_stable(
    c: CacheModel,
    first: Result<u32, FetchError>,
    later: Result<u32, FetchError>,
)
    requires
        c.note_count(first).total is Some,
    ensures
        c.note_count(first).note_count(later) == c.note_count(first),
        c.note_count(first).length_after(later) == c.length_after(first),
        c.note_count(first).total == Some(c.length_after(first)),
{
}

/// A count that was computed is the one reported.
pub proof fn lemma_length_is_the_count(c: CacheModel, n: u32)
    requires
        c.total is None,
    ensures
        c.length_after(Ok(n)) == n,
        c.note_count(Ok(n)).total == Some(n),
{
}

/// After a row was served at an index, asking for the same index again
/// gives the same row and leaves the cache as it is, whatever the store
/// would have answered: the second answer comes from memory.
pub proof fn lemma_second_ask_is_a_hit(
    c: CacheModel,
    index: int,
    count: Result<u32, FetchError>,
    fetch: Result<Seq<Seq<ValueModel>>, FetchError>,
    count_again: Result<u32, FetchError>,
    fetch_again: Result<Seq<Seq<ValueModel>>, FetchError>,
)
    requires
        0 <= index <= u32::MAX,
        c.serve(index, count, fetch).1 is Some,
    ensures
        c.serve(index, count, fetch).0.serve(index, count_again, fetch_again) == c.serve(
            index,
            count,
            fetch,
        ),
{
    let counted = c.note_count(count);
    let first = c.serve(index, count, fetch);
    assert(counted.total is Some);
    assert(first.0.total == counted.total);
    assert(first.0.note_count(count_again) == first.0);
    assert(first.0.entries.contains_key(index));
}

/// A row that is held is served from memory while its index lies below the
/// known length: the cache stays as it is, and no outcome of a query
/// matters.
pub proof fn lemma_held_row_is_a_hit(
    c: CacheModel,
    index: int,
    count: Result<u32, FetchError>,
    fetch: Result<Seq<Seq<ValueModel>>, FetchError>,
)
    requires
        c.total is Some,
        index < c.total->Some_0,
        c.entries.contains_key(index),
    ensures
        c.serve(index, count, fetch) == (c, Some(c.entries[index])),
{
}

/// A failed fetch is not remembered: the cache is as if the row had not
/// been asked for, so the next ask fetches again.
pub proof fn lemma_failure_is_not_remembered(
    c: CacheModel,
    index: int,
    count: Result<u32, FetchError>,
    e: FetchError,
)
    ensures
        c.serve(index, count, Err(e)).0 == c.note_count(count),
        !c.note_count(count).entries.contains_key(index) ==> c.serve(index, count, Err(e)).1
            == None::<Seq<ValueModel>>,
{
}

/// Taking in a page keeps the cache well formed, the rows of the page that
/// lie in the guard band around the index are held afterwards, and nothing
/// outside the band is.
pub proof fn lemma_absorb_keeps_band(
    c: CacheModel,
    index: int,
    offset: int,
    rows: Seq<Seq<ValueModel>>,
)
    requires
        c.wf(),
        0 <= index <= u32::MAX,
    ensures
        c.absorb(index, offset, Ok(rows)).wf(),
        forall|k: int| #[trigger]
            c.absorb(index, offset, Ok(rows)).entries.contains_key(k) ==> in_band(
                k,
                index,
                c.guard_radius,
            ),
        forall|j: int|
            0 <= j < rows.len() && 0 <= offset + j <= u32::MAX && in_band(
                offset + j,
                index,
                c.guard_radius,
            ) ==> c.absorb(index, offset, Ok(rows)).entries.contains_key(offset + j) && c.absorb(
                index,
                offset,
                Ok(rows),
            ).entries[offset + j] == #[trigger] rows[j],
{
}

/// The number of rows held never exceeds the width of the guard band: twice
/// the guard radius, and one. With a page of one row or more this is at
/// most twice the guard radius and a page.
pub proof fn lemma_entries_are_bounded(c: CacheModel)
    requires
        c.wf(),
    ensures
        c.entries.dom().finite(),
        c.entries.len() <= 2 * c.guard_radius + 1,
        c.page_size >= 1 ==> c.entries.len() <= 2 * c.guard_radius + c.page_size,
{
    let lo = c.anchor - c.guard_radius;
    let hi = c.anchor + c.guard_radius + 1;
    lemma_int_range(lo, hi);
    assert(c.entries.dom().subset_of(set_int_range(lo, hi))) by {
        assert forall|k: int| c.entries.dom().contains(k) implies set_int_range(lo, hi).contains(
            k,
        ) by {
            assert(c.entries.contains_key(k));
        }
    }
    lemma_len_subset(c.entries.dom(), set_int_range(lo, hi));
}

/// Asking for a row keeps the cache well formed, whatever the store
/// answers; so the bound on the rows held stands after every access.
pub proof fn lemma_serve_keeps_wf(
    c: CacheModel,
    index: int,
    count: Result<u32, FetchError>,
    fetch: Result<Seq<Seq<ValueModel>>, FetchError>,
)
    requires
        c.wf(),
        0 <= index <= u32::MAX,
    ensures
        c.serve(index, count, fetch).0.wf(),
        c.serve(index, count, fetch).0.entries.len() <= 2 * c.guard_radius + 1,
{
    let after = c.serve(index, count, fetch).0;
    match fetch {
        Ok(rows) => {
            lemma_absorb_keeps_band(c.note_count(count), index, window_around(index, c.page_size).0, rows);
        },
        Err(_) => {},
    }
    lemma_entries_are_bounded(after);
}

/// A cache that holds nothing is within the bound.
pub proof fn lemma_fresh_is_bounded(
    table: crate::table::TableModel,
    order: crate::database::SortOrder,
    page_size: int,
    guard_radius: int,
)
    requires
        0 <= page_size <= u32::MAX,
        0 <= guard_radius <= u32::MAX,
    ensures
        CacheModel::fresh(table, order, page_size, guard_radius).bounded(),
{
    assert(CacheModel::fresh(table, order, page_size, guard_radius).entries.len() == 0);
}

/// Taking in the outcome of a fetch of one page at most keeps the rows held
/// within twice the guard radius and a page, whatever the page size is:
/// with a page of no rows nothing is added, and with a longer one the guard
/// band has no room for more.
pub proof fn lemma_absorb_keeps_bound(
    c: CacheModel,
    index: int,
    offset: int,
    fetch: Result<Seq<Seq<ValueModel>>, FetchError>,
)
    requires
        c.bounded(),
        0 <= index <= u32::MAX,
        fetch is Ok ==> fetch->Ok_0.len() <= c.page_size,
    ensures
        c.absorb(index, offset, fetch).bounded(),
{
    let after = c.absorb(index, offset, fetch);
    match fetch {
        Ok(rows) => {
            lemma_absorb_keeps_band(c, index, offset, rows);
            lemma_entries_are_bounded(after);
            if c.page_size == 0 {
                lemma_entries_are_bounded(c);
                assert(after.entries.dom().subset_of(c.entries.dom())) by {
                    assert forall|k: int| after.entries.dom().contains(k) implies c.entries.dom().contains(
                        k,
                    ) by {
                        assert(after.entries.contains_key(k));
                    }
                }
                lemma_len_subset(after.entries.dom(), c.entries.dom());
            }
        },
        Err(_) => {},
    }
}

/// Asking for a row keeps the rows held within twice the guard radius and a
/// page, whatever the store answers with a page at most; so from a fresh
/// cache on the bound stands after every access, however far the accesses
/// roam.
pub proof fn lemma_serve_keeps_bound(
    c: CacheModel,
    index: int,
    count: Result<u32, FetchError>,
    fetch: Result<Seq<Seq<ValueModel>>, FetchError>,
)
    requires
        c.bounded(),
        0 <= index <= u32::MAX,
        fetch is Ok ==> fetch->Ok_0.len() <= c.page_size,
    ensures
        c.serve(index, count, fetch).0.bounded(),
{
    let counted = c.note_count(count);
    assert(counted.entries == c.entries);
    assert(counted.bounded());
    lemma_absorb_keeps_bound(counted, index, window_around(index, c.page_size).0, fetch);
}

/// The hexadecimal text of bytes has two digits for each byte and one space
/// between a byte and the next.
pub proof fn lemma_hex_len(bytes: Seq<u8>)
    ensures
        hex_of(bytes).len() == if bytes.len() == 0 {
            0
        } else {
            3 * bytes.len() - 1
        },
    decreases bytes.len(),
{
    if bytes.len() > 1 {
        lemma_hex_len(bytes.drop_last());
    }
}

/// Of a blob that was fetched no more is held than its length and a preview
/// of bounded length, however long the blob is: the digits of its first
/// bytes, which an empty blob has none of.
pub proof fn lemma_fetched_blob_is_bounded(length: nat, preview: Seq<char>)
    requires
        fetched(ValueModel::Blob(length, preview)),
    ensures
        preview.len() <= 3 * BLOB_PREVIEW_BYTES - 1,
        length == 0 ==> preview.len() == 0,
        length >= BLOB_PREVIEW_BYTES ==> preview.len() == 3 * BLOB_PREVIEW_BYTES - 1,
{
    let bytes = choose|bytes: Seq<u8>|
        ValueModel::Blob(length, preview) == #[trigger] crate::value::blob_model(bytes);
    let kept = bytes.take(
        if BLOB_PREVIEW_BYTES <= bytes.len() {
            BLOB_PREVIEW_BYTES as int
        } else {
            bytes.len() as int
        },
    );
    lemma_hex_len(kept);
}

} // verus!
