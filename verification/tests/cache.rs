use bobby::cache::{Cache, FetchWindow, Lookup, GUARD_RADIUS, PAGE_SIZE};
use bobby::database::SortOrder;
use bobby::error::FetchError;
use bobby::row::Row;
use bobby::table::{RowIdentity, Table};
use bobby::value::Value;

fn table() -> Table {
    Table::parse("t").unwrap().with_kind(RowIdentity::Present, false)
}

fn row(n: u32) -> Row {
    Row::new(vec![Value::Integer(n as i64), Value::Text(format!("row {n}"))])
}

fn page(offset: u32, len: u32) -> Vec<Row> {
    (0..len).map(|j| row(offset + j)).collect()
}

fn cache(page_size: u32, guard_radius: u32) -> Cache {
    Cache::new(table(), SortOrder::Ascending, page_size, guard_radius)
}

#[test]
fn new_cache_is_empty() {
    let c = Cache::with_defaults(table(), SortOrder::Descending);
    assert_eq!(c.len(), 0);
    assert_eq!(c.known_length(), None);
    assert_eq!(c.page_size(), 256);
    assert_eq!(c.guard_radius(), 256);
    assert_eq!(PAGE_SIZE, 256);
    assert_eq!(GUARD_RADIUS, 256);
    assert_eq!(c.order(), SortOrder::Descending);
    assert_eq!(c.table().name(), "t");
    assert_eq!(c.get(0), None);
    assert!(!c.holds(0));
}

#[test]
fn window_is_centered_on_the_index() {
    let c = cache(256, 256);
    assert_eq!(c.window_for(1000), FetchWindow { offset: 872, limit: 256 });
    assert_eq!(c.window_for(499_999), FetchWindow { offset: 499_871, limit: 256 });
    assert_eq!(c.window_for(128), FetchWindow { offset: 0, limit: 256 });
    assert_eq!(c.window_for(129), FetchWindow { offset: 1, limit: 256 });
    assert_eq!(c.window_for(u32::MAX), FetchWindow { offset: u32::MAX - 128, limit: 256 });
}

#[test]
fn window_starts_at_zero_near_the_start() {
    let c = cache(256, 256);
    assert_eq!(c.window_for(0), FetchWindow { offset: 0, limit: 256 });
    assert_eq!(c.window_for(127), FetchWindow { offset: 0, limit: 256 });
    let odd = cache(5, 8);
    assert_eq!(odd.window_for(1), FetchWindow { offset: 0, limit: 5 });
    assert_eq!(odd.window_for(2), FetchWindow { offset: 0, limit: 5 });
    assert_eq!(odd.window_for(3), FetchWindow { offset: 1, limit: 5 });
}

#[test]
fn lookup_misses_then_hits() {
    let mut c = cache(4, 4);
    match c.lookup(10) {
        Lookup::Miss(w) => assert_eq!(w, FetchWindow { offset: 8, limit: 4 }),
        Lookup::Hit(_) => panic!("nothing is held yet"),
    }
    assert_eq!(c.absorb(10, 8, Ok(page(8, 4))), Some(row(10)));
    match c.lookup(10) {
        Lookup::Hit(r) => assert_eq!(r, row(10)),
        Lookup::Miss(_) => panic!("the row was stored"),
    }
    match c.lookup(11) {
        Lookup::Hit(r) => assert_eq!(r, row(11)),
        Lookup::Miss(_) => panic!("the row was stored"),
    }
    match c.lookup(12) {
        Lookup::Miss(w) => assert_eq!(w, FetchWindow { offset: 10, limit: 4 }),
        Lookup::Hit(_) => panic!("the page ended at 11"),
    }
}

#[test]
fn page_is_stored_at_its_offset() {
    let mut c = cache(4, 10);
    c.store_page(101, 100, page(100, 4));
    assert_eq!(c.len(), 4);
    assert_eq!(c.get(99), None);
    assert_eq!(c.get(100), Some(row(100)));
    assert_eq!(c.get(103), Some(row(103)));
    assert_eq!(c.get(104), None);
}

#[test]
fn rows_outside_the_guard_band_are_dropped() {
    let mut c = cache(4, 3);
    c.store_page(10, 8, page(8, 4));
    assert_eq!(c.len(), 4);
    // A miss at 14 keeps [11, 17]: 8, 9 and 10 leave.
    c.store_page(14, 12, page(12, 4));
    assert_eq!(c.get(8), None);
    assert_eq!(c.get(9), None);
    assert_eq!(c.get(10), None);
    assert_eq!(c.get(11), Some(row(11)));
    assert_eq!(c.get(15), Some(row(15)));
    assert_eq!(c.len(), 5);
}

#[test]
fn fetched_rows_outside_the_band_are_not_kept() {
    let mut c = cache(16, 2);
    c.store_page(20, 12, page(12, 16));
    assert_eq!(c.len(), 5);
    assert_eq!(c.get(17), None);
    assert_eq!(c.get(18), Some(row(18)));
    assert_eq!(c.get(22), Some(row(22)));
    assert_eq!(c.get(23), None);
}

#[test]
fn fetched_rows_replace_stale_ones() {
    let mut c = cache(4, 8);
    c.store_page(10, 8, page(8, 4));
    let fresh = vec![
        Row::new(vec![Value::Text("a".to_string())]),
        Row::new(vec![Value::Text("b".to_string())]),
    ];
    c.store_page(10, 9, fresh);
    assert_eq!(c.get(8), Some(row(8)));
    assert_eq!(c.get(9), Some(Row::new(vec![Value::Text("a".to_string())])));
    assert_eq!(c.get(10), Some(Row::new(vec![Value::Text("b".to_string())])));
    assert_eq!(c.get(11), Some(row(11)));
    assert_eq!(c.len(), 4);
}

#[test]
fn short_page_leaves_the_index_absent() {
    let mut c = cache(256, 256);
    assert_eq!(c.absorb(1000, 872, Ok(page(872, 100))), None);
    assert_eq!(c.get(971), Some(row(971)));
    assert_eq!(c.get(972), None);
    assert_eq!(c.absorb(2000, 1872, Ok(Vec::new())), None);
    assert_eq!(c.len(), 0);
}

#[test]
fn failed_fetch_changes_nothing() {
    let mut c = cache(4, 4);
    c.store_page(10, 8, page(8, 4));
    assert_eq!(c.absorb(100, 98, Err(FetchError::ConnectionLost)), None);
    assert_eq!(c.len(), 4);
    assert_eq!(c.get(10), Some(row(10)));
    assert_eq!(c.absorb(10, 8, Err(FetchError::QueryFailed)), Some(row(10)));
    // Nothing of the failure is remembered: the next page is taken in.
    assert_eq!(c.absorb(100, 98, Ok(page(98, 4))), Some(row(100)));
    assert_eq!(c.get(10), None);
}

#[test]
fn rows_past_the_last_index_are_not_kept() {
    let mut c = cache(8, 8);
    let offset = u32::MAX - 1;
    c.store_page(u32::MAX, offset, vec![row(1), row(2), row(3), row(4)]);
    assert_eq!(c.len(), 2);
    assert_eq!(c.get(u32::MAX - 1), Some(row(1)));
    assert_eq!(c.get(u32::MAX), Some(row(2)));
}

#[test]
fn guard_band_is_cut_at_zero() {
    let mut c = cache(8, 100);
    c.store_page(3, 0, page(0, 8));
    assert_eq!(c.len(), 8);
    assert_eq!(c.get(0), Some(row(0)));
    assert_eq!(c.get(7), Some(row(7)));
}

#[test]
fn count_is_noted_once() {
    let mut c = cache(4, 4);
    assert_eq!(c.note_count(Err(FetchError::ConnectionLost)), 0);
    assert_eq!(c.known_length(), None);
    assert_eq!(c.note_count(Ok(500)), 500);
    assert_eq!(c.known_length(), Some(500));
    assert_eq!(c.note_count(Ok(7)), 500);
    assert_eq!(c.note_count(Err(FetchError::QueryFailed)), 500);
    assert_eq!(c.known_length(), Some(500));
}

#[test]
fn count_of_zero_is_remembered() {
    let mut c = cache(4, 4);
    assert_eq!(c.note_count(Ok(0)), 0);
    assert_eq!(c.known_length(), Some(0));
    assert_eq!(c.note_count(Ok(9)), 0);
}

#[test]
fn rows_held_stay_within_the_bound_while_roaming() {
    let mut c = cache(PAGE_SIZE, GUARD_RADIUS);
    let bound = 2 * GUARD_RADIUS as usize + PAGE_SIZE as usize;
    for k in 0..200u32 {
        let index = k * 1000;
        let window = match c.lookup(index) {
            Lookup::Miss(w) => w,
            Lookup::Hit(_) => panic!("indices a thousand apart share no page"),
        };
        assert_eq!(c.absorb(index, window.offset, Ok(page(window.offset, window.limit))), Some(row(index)));
        assert!(c.len() <= bound);
        assert!(c.len() <= 2 * GUARD_RADIUS as usize + 1);
        assert_eq!(c.len(), 256);
    }
}

#[test]
fn small_steps_fill_the_band_and_no_more() {
    let mut c = cache(8, 16);
    let mut fetches = 0;
    for index in 0..400u32 {
        if let Lookup::Miss(w) = c.lookup(index) {
            fetches += 1;
            assert_eq!(c.absorb(index, w.offset, Ok(page(w.offset, w.limit))), Some(row(index)));
        }
        assert!(c.len() <= 33);
        assert_eq!(c.get(index), Some(row(index)));
    }
    // The first page serves eight indices, each later one the four past its
    // center: misses at 0, 8, 12, ..., 396.
    assert_eq!(fetches, 99);
}

#[test]
fn scrolling_back_within_the_band_fetches_nothing() {
    let mut c = cache(256, 256);
    let w = c.window_for(5000);
    assert_eq!(c.absorb(5000, w.offset, Ok(page(w.offset, w.limit))), Some(row(5000)));
    for index in (w.offset..w.offset + w.limit).rev() {
        assert!(c.holds(index));
        match c.lookup(index) {
            Lookup::Hit(r) => assert_eq!(r, row(index)),
            Lookup::Miss(_) => panic!("the page holds this row"),
        }
    }
    assert!(!c.holds(w.offset - 1));
    assert!(!c.holds(w.offset + w.limit));
}
