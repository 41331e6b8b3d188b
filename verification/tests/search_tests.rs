use rsearch::search::find_all;
use rsearch::search::Endianness;
use rsearch::search::Haystack;
use rsearch::search::Needle;
use rsearch::search::NeedleOwned;
use rsearch::session::AsyncSearch;
use rsearch::session::SearchState;
use rsearch::session::SearchTask;
use rsearch::session::WorkerHandle;

/// A worker that has already run to completion on the calling thread.
struct InlineWorker;

impl WorkerHandle for InlineWorker {
    fn join_worker(self) -> Result<(), ()> {
        Ok(())
    }
}

/// Runs the task right here: the channel buffers every offset, so the
/// session behaves like one whose worker has already finished.
fn run_inline<H: Haystack>(task: SearchTask<H>) -> InlineWorker {
    task.run();
    InlineWorker
}

#[test]
fn test_needle_owned_creation() {
    // Test basic types
    let needle_u8: NeedleOwned = Needle::U8(42).into();
    assert_eq!(needle_u8.as_bytes(), &[42]);

    let needle_i8: NeedleOwned = Needle::I8(-1).into();
    assert_eq!(needle_i8.as_bytes(), &[255]); // -1 as u8 is 255

    // Test endianness
    let needle_u16_le: NeedleOwned = Needle::U16(Endianness::LittleEndian, 0x1234).into();
    assert_eq!(needle_u16_le.as_bytes(), &[0x34, 0x12]);

    let needle_u16_be: NeedleOwned = Needle::U16(Endianness::BigEndian, 0x1234).into();
    assert_eq!(needle_u16_be.as_bytes(), &[0x12, 0x34]);

    // Test string
    let needle_str: NeedleOwned = Needle::Str("hello").into();
    assert_eq!(needle_str.as_bytes(), b"hello");

    // Test bytes
    let needle_bytes: NeedleOwned = Needle::Bytes(&[1, 2, 3, 4]).into();
    assert_eq!(needle_bytes.as_bytes(), &[1, 2, 3, 4]);
}

#[test]
fn test_async_search_with_needle_owned() {
    let haystack = b"hello world hello universe";
    let needle = Needle::Str("hello");

    let search = AsyncSearch::create(haystack.as_slice(), needle, run_inline);

    let mut results = Vec::new();
    loop {
        match search.try_get() {
            Ok(offset) => results.push(offset),
            Err(SearchState::Pending) => break,
            Err(SearchState::Finished) => break,
        }
    }

    // Should find "hello" at positions 0 and 12
    assert_eq!(results.len(), 2);
    assert!(results.contains(&0));
    assert!(results.contains(&12));
}

#[test]
fn test_wider_needle_encodings() {
    let u32_le: NeedleOwned = Needle::U32(Endianness::LittleEndian, 0x01020304).into();
    assert_eq!(u32_le.as_bytes(), &[0x04, 0x03, 0x02, 0x01]);

    let u32_be: NeedleOwned = Needle::U32(Endianness::BigEndian, 0x01020304).into();
    assert_eq!(u32_be.as_bytes(), &[0x01, 0x02, 0x03, 0x04]);

    let i16_le: NeedleOwned = Needle::I16(Endianness::LittleEndian, -2).into();
    assert_eq!(i16_le.as_bytes(), &[0xFE, 0xFF]);

    let i64_be: NeedleOwned = Needle::I64(Endianness::BigEndian, -1).into();
    assert_eq!(i64_be.as_bytes(), &[0xFF; 8]);

    let u64_le: NeedleOwned = Needle::U64(Endianness::LittleEndian, 0x0807060504030201).into();
    assert_eq!(u64_le.as_bytes(), &[0x01, 0x02, 0x03, 0x04, 0x05, 0x06, 0x07, 0x08]);

    assert_eq!(u64_le.byte_length(), 8);
    assert_eq!(NeedleOwned::from_data(vec![9, 9]).byte_length(), 2);
}

#[test]
fn test_find_all_includes_overlapping_matches() {
    let haystack = b"aaaa";
    let offsets = find_all(haystack.as_slice(), b"aa".as_slice());
    assert_eq!(offsets, vec![0, 1, 2]);
}

#[test]
fn test_find_all_single_byte_and_absent() {
    let haystack = b"abcabc";
    assert_eq!(find_all(haystack.as_slice(), b"a".as_slice()), vec![0, 3]);
    assert_eq!(find_all(haystack.as_slice(), b"z".as_slice()), Vec::<usize>::new());
    assert_eq!(find_all(haystack.as_slice(), b"".as_slice()), Vec::<usize>::new());
    assert_eq!(find_all(b"ab".as_slice(), b"abc".as_slice()), Vec::<usize>::new());
}

#[test]
fn test_hello_session_offsets_in_order() {
    let haystack = b"hello world hello universe";
    let needle: NeedleOwned = Needle::Str("hello").into();
    let search = AsyncSearch::create_from_owned(haystack.as_slice(), needle, run_inline);

    let mut offsets = Vec::new();
    let state = loop {
        match search.try_get() {
            Ok(offset) => offsets.push(offset),
            Err(state) => break state,
        }
    };
    assert_eq!(offsets, vec![0, 12]);
    assert!(matches!(state, SearchState::Finished));
    assert!(search.cancel().is_ok());
}

#[test]
fn test_pattern_longer_than_haystack_finishes_empty() {
    let haystack = b"ab";
    let needle: NeedleOwned = Needle::Str("abc").into();
    let search = AsyncSearch::create_from_owned(haystack.as_slice(), needle, run_inline);

    match search.try_get() {
        Ok(_) => panic!("no offset may be delivered"),
        Err(state) => assert!(matches!(state, SearchState::Finished)),
    }
}

#[test]
fn test_absent_byte_finishes_with_zero_offsets() {
    let haystack: Vec<u8> = (0x00..=0x0F).collect();
    assert_eq!(haystack.len(), 16);
    let needle: NeedleOwned = Needle::U8(0x10).into();
    let search = AsyncSearch::create_from_owned(haystack, needle, run_inline);

    match search.try_get() {
        Ok(_) => panic!("no offset may be delivered"),
        Err(state) => assert!(matches!(state, SearchState::Finished)),
    }
}

#[test]
fn test_drain_collects_then_finishes_idempotently() {
    let haystack = b"hello world hello universe";
    let needle: NeedleOwned = Needle::Str("hello").into();
    let search = AsyncSearch::create_from_owned(haystack.as_slice(), needle, run_inline);

    let seen = std::cell::RefCell::new(Vec::new());
    let state = search.drain(|offset| {
        seen.borrow_mut().push(offset);
    });
    assert!(matches!(state, SearchState::Finished));
    assert_eq!(*seen.borrow(), vec![0, 12]);

    // Draining a finished, empty session again is a safe no-op.
    let again = search.drain(|_offset| {
        panic!("nothing is left to deliver");
    });
    assert!(matches!(again, SearchState::Finished));
    let once_more = search.drain(|_offset| {
        panic!("nothing is left to deliver");
    });
    assert!(matches!(once_more, SearchState::Finished));
}

#[test]
fn test_cancel_completed_session() {
    let haystack = b"xyz";
    let needle: NeedleOwned = Needle::U8(b'y').into();
    let search = AsyncSearch::create_from_owned(haystack.as_slice(), needle, run_inline);
    assert!(search.cancel().is_ok());
}

#[test]
fn test_empty_pattern_session_finishes_empty() {
    let haystack = b"anything";
    let needle = NeedleOwned::from_data(Vec::new());
    assert_eq!(needle.byte_length(), 0);
    let search = AsyncSearch::create_from_owned(haystack.as_slice(), needle, run_inline);
    match search.try_get() {
        Ok(_) => panic!("an empty pattern matches nothing"),
        Err(state) => assert!(matches!(state, SearchState::Finished)),
    }
}

#[test]
fn test_update_search_results_pump() {
    let haystack = b"hello world hello universe";
    let needle: NeedleOwned = Needle::Str("hello").into();
    let search = AsyncSearch::create_from_owned(haystack.as_slice(), needle, run_inline);

    let mut current = rsearch::session::CurrentSearch::Searching(5, search);
    let mut panel = rsearch::panels::SearchResultsPanel::new();

    rsearch::panels::update_search_results(&mut current, &mut panel);

    let rows = panel.get_search_results();
    assert_eq!(rows.len(), 2);
    assert_eq!((rows[0].index, rows[0].offset), (0, 0));
    assert_eq!((rows[1].index, rows[1].offset), (1, 12));
    assert!(matches!(current, rsearch::session::CurrentSearch::Finished(5)));

    // Another tick on a finished search changes nothing.
    rsearch::panels::update_search_results(&mut current, &mut panel);
    assert_eq!(panel.get_search_results().len(), 2);
}

#[test]
fn test_current_search_take_and_finish() {
    let mut current: rsearch::session::CurrentSearch<InlineWorker> =
        rsearch::session::CurrentSearch::Finished(3);
    current.finish();
    assert!(matches!(current, rsearch::session::CurrentSearch::Finished(3)));

    let taken = current.take();
    assert!(matches!(taken, rsearch::session::CurrentSearch::Finished(3)));
    assert!(matches!(current, rsearch::session::CurrentSearch::Empty));
}

#[test]
fn test_perform_search_needs_a_file() {
    let mut app: rsearch::driver::BinarySearchApp<InlineWorker> =
        rsearch::driver::BinarySearchApp::new();
    app.search_control_panel.set_search_input("42".to_string());
    app.perform_search(run_inline);
    assert!(matches!(
        app.current_search,
        rsearch::session::CurrentSearch::Empty
    ));
    assert!(app.search_results_panel.get_search_results().is_empty());
}
