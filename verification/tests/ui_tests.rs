use rsearch::panels::DragStatus;
use rsearch::panels::SearchControlPanel;
use rsearch::panels::SearchResultsPanel;
use rsearch::panels::HexViewer;
use rsearch::search::Endianness;
use rsearch::ui::parse_search_input;
use rsearch::ui::parse_hex_bytes;
use rsearch::ui::Encoding;
use rsearch::ui::InputParseError;
use rsearch::ui::SearchResult;
use rsearch::ui::SearchType;
use rsearch::ui::Selection;

#[test]
fn test_search_type_options() {
    assert!(!SearchType::Bit8.is_endianness_enabled());
    assert!(SearchType::Bit16.is_endianness_enabled());
    assert!(SearchType::Bit32.is_endianness_enabled());
    assert!(SearchType::Bit64.is_endianness_enabled());
    assert!(!SearchType::Bytes.is_endianness_enabled());
    assert!(!SearchType::String.is_endianness_enabled());

    assert!(SearchType::Bit8.is_signedness_enabled());
    assert!(SearchType::Bit64.is_signedness_enabled());
    assert!(!SearchType::Bytes.is_signedness_enabled());
    assert!(!SearchType::String.is_signedness_enabled());

    assert!(SearchType::String.is_encoding_enabled());
    assert!(!SearchType::Bit8.is_encoding_enabled());

    assert_eq!(SearchType::Bit16.label(), "16-Bit");
    assert_eq!(Encoding::UTF8.label(), "UTF8");
}

#[test]
fn test_selection_bounds() {
    let s = Selection::new(5);
    assert_eq!(s.lower(), 5);
    assert_eq!(s.upper(), 5);
    assert!(s.contains(5));
    assert!(!s.contains(4));

    // The end may lie before the start.
    let r = Selection::range(9, 3);
    assert_eq!(r.lower(), 3);
    assert_eq!(r.upper(), 9);
    assert!(r.contains(3));
    assert!(r.contains(6));
    assert!(r.contains(9));
    assert!(!r.contains(10));

    let mut m = Selection::new(2);
    m.update_end(7);
    assert_eq!(m.lower(), 2);
    assert_eq!(m.upper(), 7);
    m.update_start(9);
    assert_eq!(m.lower(), 7);
    assert_eq!(m.upper(), 9);
}

#[test]
fn test_parse_search_input_numeric() {
    let n = parse_search_input("0x1234", SearchType::Bit16, Endianness::LittleEndian, false, Encoding::UTF8)
        .unwrap();
    assert_eq!(n.as_bytes(), &[0x34, 0x12]);

    let n = parse_search_input("0x1234", SearchType::Bit16, Endianness::BigEndian, false, Encoding::UTF8)
        .unwrap();
    assert_eq!(n.as_bytes(), &[0x12, 0x34]);

    let n = parse_search_input("-1", SearchType::Bit8, Endianness::LittleEndian, true, Encoding::UTF8)
        .unwrap();
    assert_eq!(n.as_bytes(), &[0xFF]);

    let n = parse_search_input("1", SearchType::Bit64, Endianness::LittleEndian, false, Encoding::UTF8)
        .unwrap();
    assert_eq!(n.as_bytes(), &[1, 0, 0, 0, 0, 0, 0, 0]);

    let err = parse_search_input("256", SearchType::Bit8, Endianness::LittleEndian, false, Encoding::UTF8)
        .unwrap_err();
    assert!(matches!(err, InputParseError::IntParser(_)));
}

#[test]
fn test_parse_search_input_text_and_bytes() {
    let n = parse_search_input("hello", SearchType::String, Endianness::LittleEndian, false, Encoding::UTF8)
        .unwrap();
    assert_eq!(n.as_bytes(), b"hello");

    let n = parse_search_input("41 42 43", SearchType::Bytes, Endianness::LittleEndian, false, Encoding::UTF8)
        .unwrap();
    assert_eq!(n.as_bytes(), &[0x41, 0x42, 0x43]);

    let n = parse_search_input("0x41 0x42", SearchType::Bytes, Endianness::LittleEndian, false, Encoding::UTF8)
        .unwrap();
    assert_eq!(n.as_bytes(), &[0x41, 0x42]);
}

#[test]
fn test_parse_hex_bytes_errors() {
    let err = parse_hex_bytes("414").unwrap_err();
    match err {
        InputParseError::Other(m) => {
            assert_eq!(m, "Hex string must have even number of characters")
        }
        InputParseError::IntParser(_) => panic!("wrong error variant"),
    }
    let err = parse_hex_bytes("4Z").unwrap_err();
    match err {
        InputParseError::Other(m) => assert_eq!(m, "Invalid hex byte"),
        InputParseError::IntParser(_) => panic!("wrong error variant"),
    }
    assert_eq!(parse_hex_bytes("").unwrap(), Vec::<u8>::new());
    assert_eq!(parse_hex_bytes("ff00").unwrap(), vec![0xFF, 0x00]);
}

#[test]
fn test_input_parse_error_messages() {
    let err = rsearch::int_parse::IntParser::parse_u8("abc").unwrap_err();
    let wrapped = InputParseError::IntParser(err);
    assert_eq!(wrapped.message(), "Cannot parse abc into an integer.");

    let err = rsearch::int_parse::IntParser::parse_u8("999").unwrap_err();
    let wrapped = InputParseError::IntParser(err);
    assert_eq!(
        wrapped.message(),
        "999 is too large/small to be intepreted as given integer type."
    );

    let err = rsearch::int_parse::IntParser::parse_u8("  ").unwrap_err();
    let wrapped = InputParseError::IntParser(err);
    assert_eq!(wrapped.message(), "Cannot parse empty string into an integer.");
}

#[test]
fn test_search_control_panel_defaults() {
    let panel = SearchControlPanel::new();
    assert!(matches!(panel.get_search_type(), SearchType::Bit8));
    assert_eq!(panel.get_search_input(), "");
    assert!(matches!(panel.get_endianness(), Endianness::LittleEndian));
    assert!(!panel.get_is_signed());
    assert!(matches!(panel.get_encoding(), Encoding::UTF8));
}

#[test]
fn test_search_results_panel_reindexes() {
    let mut panel = SearchResultsPanel::new();
    assert!(panel.get_search_results().is_empty());

    panel.add_search_results(vec![
        SearchResult { index: 99, offset: 10 },
        SearchResult { index: 99, offset: 20 },
    ]);
    panel.add_search_results(vec![SearchResult { index: 99, offset: 30 }]);

    let rows = panel.get_search_results();
    assert_eq!(rows.len(), 3);
    assert_eq!((rows[0].index, rows[0].offset), (0, 10));
    assert_eq!((rows[1].index, rows[1].offset), (1, 20));
    assert_eq!((rows[2].index, rows[2].offset), (2, 30));

    panel.clear_results();
    assert!(panel.get_search_results().is_empty());

    panel.set_search_results(vec![SearchResult { index: 0, offset: 7 }]);
    assert_eq!(panel.get_search_results().len(), 1);
}

#[test]
fn test_hex_viewer_selection_state() {
    let mut viewer = HexViewer::new();
    assert!(viewer.get_selected_offset().is_none());
    assert!(viewer.get_selection().is_none());

    viewer.set_selected_offset(12);
    assert_eq!(viewer.get_selected_offset(), Some(12));
    assert!(viewer.get_selection().is_some());

    viewer.clear_selection();
    assert!(viewer.get_selected_offset().is_none());
}

#[test]
fn test_drag_status_type_matches() {
    assert!(DragStatus::Idle.type_matches(DragStatus::Idle));
    assert!(DragStatus::Bytes(1).type_matches(DragStatus::Bytes(9)));
    assert!(DragStatus::ASCII(1).type_matches(DragStatus::ASCII(9)));
    assert!(!DragStatus::Bytes(1).type_matches(DragStatus::ASCII(1)));
    assert!(!DragStatus::Idle.type_matches(DragStatus::Bytes(0)));
}

#[test]
fn test_file_panel_starts_empty() {
    let mut panel = rsearch::panels::FilePanel::new();
    assert!(panel.get_file_path().is_none());
    assert!(panel.get_file_data().is_none());
    assert!(panel.get_file_data_arc().is_none());
    panel.clear_file();
    assert!(panel.get_file_data().is_none());
}

#[test]
fn test_hex_viewer_drag_protocol() {
    let mut viewer = HexViewer::new();
    // A drag that starts at byte cell 3 and moves to 6 selects 3..=6.
    viewer.handle_drag(false, true, true, true, DragStatus::Bytes(3));
    viewer.handle_drag(false, false, true, true, DragStatus::Bytes(6));
    let sel = viewer.get_selection().unwrap();
    assert_eq!((sel.lower(), sel.upper()), (3, 6));
    // The gesture over the start cell stops dragging: back to idle.
    viewer.handle_drag(false, false, false, false, DragStatus::Bytes(3));
    // A click selects the one cell under the pointer.
    viewer.handle_drag(true, false, false, false, DragStatus::ASCII(9));
    assert_eq!(viewer.get_selected_offset(), Some(9));
    // An idle gesture changes nothing.
    viewer.handle_drag(false, false, false, false, DragStatus::Idle);
    assert_eq!(viewer.get_selected_offset(), Some(9));
}
