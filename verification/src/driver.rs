//! The driver's own state machine: the panels, the selection, and the
//! search currently in flight, with the step that turns the control
//! panel's choices into a running search. Rendering is the host's
//! business; everything here is plain data and decisions.

use crate::panels::FilePanel;
use crate::panels::HexViewer;
use crate::panels::SearchControlPanel;
use crate::panels::SearchResultsPanel;
use crate::inspector::DataInspector;
use crate::session::AsyncSearch;
use crate::session::CurrentSearch;
use crate::session::SearchTask;
use crate::session::WorkerHandle;
use crate::ui::spec_needle_bytes;
use crate::ui::parse_search_input;
use crate::ui::Selection;
use std::sync::Arc;
use vstd::prelude::*;

verus! {

/// Everything a driver holds between ticks: one panel per concern, the
/// byte selection, and the search currently in flight.
pub struct BinarySearchApp<W: WorkerHandle> {
    pub file_panel: FilePanel,
    pub search_control_panel: SearchControlPanel,
    pub search_results_panel: SearchResultsPanel,
    pub hex_viewer: HexViewer,
    pub data_inspector: DataInspector,
    pub selection: Option<Selection>,
    pub last_selection: Option<Selection>,
    pub current_search: CurrentSearch<W>,
}

impl<W: WorkerHandle> BinarySearchApp<W> {
    /// No file, default controls, no results, no selection, no search.
    pub fn new() -> (r: Self)
        ensures
            r.file_panel.spec_contents() is None,
            r.search_control_panel.spec_search_input() == Seq::<char>::empty(),
            r.search_results_panel.spec_results() == Seq::<crate::ui::SearchResult>::empty(),
            r.selection is None,
            r.last_selection is None,
            r.current_search is Empty,
    {
        Self {
            file_panel: FilePanel::new(),
            search_control_panel: SearchControlPanel::new(),
            search_results_panel: SearchResultsPanel::new(),
            hex_viewer: HexViewer::new(),
            data_inspector: DataInspector::new(),
            selection: None,
            last_selection: None,
            current_search: CurrentSearch::Empty,
        }
    }

    /// Starts the search the control panel describes: clears the results,
    /// cancels any search still in flight, and — when a file is loaded,
    /// the input is non-empty, and the input parses — hands a worker the
    /// mapped file and the encoded pattern through `spawn`: the new
    /// session's task carries exactly the loaded mapping's bytes and the
    /// parsed pattern, and its length tag is that pattern's length. On any
    /// of the three early exits no search is in flight afterwards.
    #[verifier::rlimit(50)]
    #[verifier::spinoff_prover]
    pub fn perform_search<S>(&mut self, spawn: S) where
        S: FnOnce(SearchTask<Arc<memmap2::Mmap>>) -> W,

        requires
            forall|t: SearchTask<Arc<memmap2::Mmap>>| #[trigger] spawn.requires((t,)),
        ensures
            final(self).search_results_panel.spec_results() == Seq::<
                crate::ui::SearchResult,
            >::empty(),
            final(self).file_panel == old(self).file_panel,
            final(self).search_control_panel == old(self).search_control_panel,
            final(self).hex_viewer == old(self).hex_viewer,
            final(self).selection == old(self).selection,
            final(self).last_selection == old(self).last_selection,
            old(self).file_panel.spec_contents() is None ==> final(self).current_search is Empty,
            old(self).search_control_panel.spec_search_input().len() == 0 ==> final(self).current_search is Empty,
            (old(self).file_panel.spec_contents() is Some
                && old(self).search_control_panel.spec_search_input().len() > 0) ==> (match spec_needle_bytes(
                vstd::utf8::encode_utf8(old(self).search_control_panel.spec_search_input()),
                old(self).search_control_panel.spec_search_type(),
                old(self).search_control_panel.spec_endianness(),
                old(self).search_control_panel.spec_is_signed(),
            ) {
                Some(bs) => final(self).current_search matches CurrentSearch::Searching(
                    len,
                    search,
                ) && len == bs.len() && (exists|t: SearchTask<Arc<memmap2::Mmap>>|
                    #[trigger] spawn.ensures((t,), search.spec_handle()) && t.spec_needle() == bs
                        && old(self).file_panel.spec_contents() == Some(
                        crate::search::mmap_contents(&*t.spec_haystack()),
                    )),
                None => final(self).current_search is Empty,
            }),
    {
        // Clear previous results.
        self.search_results_panel.clear_results();

        // Cancel any ongoing search.
        match self.current_search.take() {
            CurrentSearch::Searching(_, search) => {
                let _ = search.cancel();
            },
            _ => {},
        }

        // A search needs a loaded file.
        let file_data = match self.file_panel.get_file_data_arc() {
            Some(data) => data,
            None => {
                return ;
            },
        };

        // And a non-empty input that parses.
        let input = self.search_control_panel.get_search_input();
        if input.is_empty() {
            return ;
        }
        let needle = match parse_search_input(
            input,
            self.search_control_panel.get_search_type(),
            self.search_control_panel.get_endianness(),
            self.search_control_panel.get_is_signed(),
            self.search_control_panel.get_encoding(),
        ) {
            Ok(needle) => needle,
            Err(_) => {
                return ;
            },
        };

        // Create and start the worker.
        let len = needle.byte_length();
        let search = AsyncSearch::create_from_owned(file_data, needle, spawn);
        let ghost started = search;
        self.current_search = CurrentSearch::Searching(len, search);
        proof {
            let t0 = choose|t: SearchTask<Arc<memmap2::Mmap>>|
                #[trigger] spawn.ensures((t,), started.spec_handle()) && t.spec_haystack()
                    == file_data && t.spec_needle() == needle@;
            assert(self.file_panel.spec_contents() == Some(
                crate::search::mmap_contents(&*t0.spec_haystack()),
            ));
            assert(self.current_search matches CurrentSearch::Searching(l, s) && l == len && s
                == started);
            assert(exists|t: SearchTask<Arc<memmap2::Mmap>>|
                #[trigger] spawn.ensures((t,), started.spec_handle()) && t.spec_needle() == needle@
                    && self.file_panel.spec_contents() == Some(
                    crate::search::mmap_contents(&*t.spec_haystack()),
                )) by {
                assert(spawn.ensures((t0,), started.spec_handle()) && t0.spec_needle() == needle@
                    && self.file_panel.spec_contents() == Some(
                    crate::search::mmap_contents(&*t0.spec_haystack()),
                ));
            }
        }
    }
}

impl<W: WorkerHandle> Default for BinarySearchApp<W> {
    /// The same state `new` gives.
    fn default() -> (r: Self)
        ensures
            r.current_search is Empty,
            r.selection is None,
    {
        Self::new()
    }
}

} // verus!
