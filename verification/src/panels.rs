//! The pure state behind the driver's panels: search controls, the results
//! list, the hex viewer's selection, and the per-tick pump that moves
//! offsets from a running search into the results list.

use crate::session::CurrentSearch;
use crate::session::SearchState;
use crate::session::WorkerHandle;
use crate::ui::Encoding;
use crate::ui::SearchResult;
use crate::ui::SearchType;
use crate::ui::Selection;
use crate::search::mmap_contents;
use crate::search::Endianness;
use std::sync::Arc;
use vstd::prelude::*;

verus! {

#[verifier::external_type_specification]
#[verifier::external_body]
pub struct ExPathBuf(std::path::PathBuf);

/// Relies on Arc::clone: a second handle on the same mapping, so both
/// handles expose the same bytes.
#[verifier::external_body]
fn clone_mmap_handle(a: &Arc<memmap2::Mmap>) -> (r: Arc<memmap2::Mmap>)
    ensures
        mmap_contents(&*r) == mmap_contents(&*a),
{
    Arc::clone(a)
}

/// The loaded file, if any: its path and its memory mapping. The dialog
/// that picks the path and the call that maps the file belong to the
/// driver; this holds what they produced.
pub struct FilePanel {
    file_path: Option<std::path::PathBuf>,
    file_data: Option<Arc<memmap2::Mmap>>,
}

impl FilePanel {
    pub closed spec fn spec_path(&self) -> Option<std::path::PathBuf> {
        self.file_path
    }

    /// The mapped file's bytes, if a file is loaded.
    pub closed spec fn spec_contents(&self) -> Option<Seq<u8>> {
        match self.file_data {
            Some(m) => Some(mmap_contents(&*m)),
            None => None,
        }
    }

    /// No file loaded.
    pub fn new() -> (r: Self)
        ensures
            r.spec_path() is None,
            r.spec_contents() is None,
    {
        Self { file_path: None, file_data: None }
    }

    pub fn get_file_path(&self) -> (r: &Option<std::path::PathBuf>)
        ensures
            *r == self.spec_path(),
    {
        &self.file_path
    }

    /// A borrowed view of the mapped bytes, if a file is loaded.
    pub fn get_file_data(&self) -> (r: Option<&[u8]>)
        ensures
            match r {
                Some(s) => self.spec_contents() == Some(s@),
                None => self.spec_contents() is None,
            },
    {
        match &self.file_data {
            Some(m) => Some(crate::search::mmap_slice_of(m)),
            None => None,
        }
    }

    /// Another handle on the mapping, for handing to a search session.
    pub fn get_file_data_arc(&self) -> (r: Option<Arc<memmap2::Mmap>>)
        ensures
            match r {
                Some(a) => self.spec_contents() == Some(mmap_contents(&*a)),
                None => self.spec_contents() is None,
            },
    {
        match &self.file_data {
            Some(m) => Some(clone_mmap_handle(m)),
            None => None,
        }
    }

    /// Forgets the loaded file.
    pub fn clear_file(&mut self)
        ensures
            final(self).spec_path() is None,
            final(self).spec_contents() is None,
    {
        self.file_path = None;
        self.file_data = None;
    }

    /// Records a file the driver has picked and mapped.
    pub fn set_file(&mut self, path: std::path::PathBuf, data: Arc<memmap2::Mmap>)
        ensures
            final(self).spec_path() == Some(path),
            final(self).spec_contents() == Some(mmap_contents(&*data)),
    {
        self.file_path = Some(path);
        self.file_data = Some(data);
    }
}

/// The search controls' current choices.
pub struct SearchControlPanel {
    search_type: SearchType,
    search_input: String,
    endianness: Endianness,
    encoding: Encoding,
    is_signed: bool,
}

impl SearchControlPanel {
    pub closed spec fn spec_search_type(&self) -> SearchType {
        self.search_type
    }

    pub closed spec fn spec_search_input(&self) -> Seq<char> {
        self.search_input@
    }

    pub closed spec fn spec_endianness(&self) -> Endianness {
        self.endianness
    }

    pub closed spec fn spec_encoding(&self) -> Encoding {
        self.encoding
    }

    pub closed spec fn spec_is_signed(&self) -> bool {
        self.is_signed
    }

    /// The defaults: an unsigned little-endian byte-wide search, UTF-8
    /// text, empty input.
    pub fn new() -> (r: Self)
        ensures
            r.spec_search_type() == SearchType::Bit8,
            r.spec_search_input() == Seq::<char>::empty(),
            r.spec_endianness() == Endianness::LittleEndian,
            r.spec_encoding() == Encoding::UTF8,
            r.spec_is_signed() == false,
    {
        Self {
            search_type: SearchType::Bit8,
            search_input: String::new(),
            endianness: Endianness::LittleEndian,
            encoding: Encoding::UTF8,
            is_signed: false,
        }
    }

    pub fn get_search_type(&self) -> (r: SearchType)
        ensures
            r == self.spec_search_type(),
    {
        self.search_type
    }

    pub fn get_search_input(&self) -> (r: &str)
        ensures
            r@ == self.spec_search_input(),
    {
        self.search_input.as_str()
    }

    pub fn get_endianness(&self) -> (r: Endianness)
        ensures
            r == self.spec_endianness(),
    {
        self.endianness
    }

    pub fn get_is_signed(&self) -> (r: bool)
        ensures
            r == self.spec_is_signed(),
    {
        self.is_signed
    }

    pub fn get_encoding(&self) -> (r: Encoding)
        ensures
            r == self.spec_encoding(),
    {
        self.encoding
    }

    /// Chooses the kind of value being searched for.
    pub fn set_search_type(&mut self, t: SearchType)
        ensures
            final(self).spec_search_type() == t,
            final(self).spec_search_input() == old(self).spec_search_input(),
            final(self).spec_endianness() == old(self).spec_endianness(),
            final(self).spec_encoding() == old(self).spec_encoding(),
            final(self).spec_is_signed() == old(self).spec_is_signed(),
    {
        self.search_type = t;
    }

    /// Replaces the typed-in search value.
    pub fn set_search_input(&mut self, input: String)
        ensures
            final(self).spec_search_input() == input@,
            final(self).spec_search_type() == old(self).spec_search_type(),
            final(self).spec_endianness() == old(self).spec_endianness(),
            final(self).spec_encoding() == old(self).spec_encoding(),
            final(self).spec_is_signed() == old(self).spec_is_signed(),
    {
        self.search_input = input;
    }

    /// Chooses the byte order for multi-byte numeric searches.
    pub fn set_endianness(&mut self, e: Endianness)
        ensures
            final(self).spec_endianness() == e,
            final(self).spec_search_type() == old(self).spec_search_type(),
            final(self).spec_search_input() == old(self).spec_search_input(),
            final(self).spec_encoding() == old(self).spec_encoding(),
            final(self).spec_is_signed() == old(self).spec_is_signed(),
    {
        self.endianness = e;
    }

    /// Chooses between the signed and unsigned reading of numeric input.
    pub fn set_is_signed(&mut self, signed: bool)
        ensures
            final(self).spec_is_signed() == signed,
            final(self).spec_search_type() == old(self).spec_search_type(),
            final(self).spec_search_input() == old(self).spec_search_input(),
            final(self).spec_endianness() == old(self).spec_endianness(),
            final(self).spec_encoding() == old(self).spec_encoding(),
    {
        self.is_signed = signed;
    }

    /// Chooses the text encoding for text searches.
    pub fn set_encoding(&mut self, enc: Encoding)
        ensures
            final(self).spec_encoding() == enc,
            final(self).spec_search_type() == old(self).spec_search_type(),
            final(self).spec_search_input() == old(self).spec_search_input(),
            final(self).spec_endianness() == old(self).spec_endianness(),
            final(self).spec_is_signed() == old(self).spec_is_signed(),
    {
        self.encoding = enc;
    }
}

/// The list of hits found so far.
pub struct SearchResultsPanel {
    search_results: Vec<SearchResult>,
}

/// The results list numbers its entries consecutively from zero.
pub open spec fn well_indexed(results: Seq<SearchResult>) -> bool {
    forall|k: int| 0 <= k < results.len() ==> #[trigger] results[k].index == k
}

impl SearchResultsPanel {
    pub closed spec fn spec_results(&self) -> Seq<SearchResult> {
        self.search_results@
    }

    /// An empty results list.
    pub fn new() -> (r: Self)
        ensures
            r.spec_results() == Seq::<SearchResult>::empty(),
    {
        Self { search_results: Vec::new() }
    }

    pub fn get_search_results(&self) -> (r: &Vec<SearchResult>)
        ensures
            r@ == self.spec_results(),
    {
        &self.search_results
    }

    /// Replaces the whole list.
    pub fn set_search_results(&mut self, results: Vec<SearchResult>)
        ensures
            final(self).spec_results() == results@,
    {
        self.search_results = results;
    }

    /// Empties the list.
    pub fn clear_results(&mut self)
        ensures
            final(self).spec_results() == Seq::<SearchResult>::empty(),
    {
        self.search_results.clear();
    }

    /// Appends hits, renumbering them so the whole list stays consecutive:
    /// entry `k` of `results` becomes entry `old_len + k` with exactly that
    /// index.
    pub fn add_search_results(&mut self, results: Vec<SearchResult>)
        requires
            old(self).spec_results().len() + results@.len() <= usize::MAX,
        ensures
            final(self).spec_results().len() == old(self).spec_results().len() + results@.len(),
            forall|k: int|
                0 <= k < old(self).spec_results().len() ==> final(self).spec_results()[k] == old(
                    self,
                ).spec_results()[k],
            forall|k: int|
                0 <= k < results@.len() ==> {
                    let e = #[trigger] final(self).spec_results()[old(self).spec_results().len()
                        + k];
                    e.index == old(self).spec_results().len() + k && e.offset
                        == results@[k].offset
                },
            well_indexed(old(self).spec_results()) ==> well_indexed(final(self).spec_results()),
    {
        let start: usize = self.search_results.len();
        let n: usize = results.len();
        let mut i: usize = 0;
        while i < n
            invariant
                i <= n,
                n == results@.len(),
                start + n <= usize::MAX,
                self.search_results@.len() == start + i,
                forall|k: int|
                    0 <= k < start ==> self.search_results@[k] == old(self).spec_results()[k],
                start == old(self).spec_results().len(),
                forall|k: int|
                    0 <= k < i ==> {
                        let e = #[trigger] self.search_results@[start + k];
                        e.index == start + k && e.offset == results@[k].offset
                    },
            decreases n - i,
        {
            let r = results[i];
            self.search_results.push(SearchResult { index: start + i, offset: r.offset });
            i = i + 1;
        }
        proof {
            if well_indexed(old(self).spec_results()) {
                assert forall|k: int|
                    0 <= k < self.search_results@.len() implies #[trigger] self.search_results@[k].index
                    == k by {
                    if k < start {
                        assert(self.search_results@[k] == old(self).spec_results()[k]);
                    } else {
                        let kk = k - start;
                        assert(self.search_results@[start + kk].index == start + kk);
                    }
                }
            }
        }
    }
}

/// Which kind of cell a drag gesture is passing over, and at which offset.
#[derive(Debug, Clone, Copy, PartialEq, Eq, Structural)]
pub enum DragStatus {
    /// No drag in progress.
    Idle,
    /// Dragging across the hex byte cells.
    Bytes(usize),
    /// Dragging across the ASCII cells.
    ASCII(usize),
}

/// Whether two gestures are over the same kind of cell, offsets aside.
pub open spec fn drag_kind_matches(a: DragStatus, b: DragStatus) -> bool {
    match (a, b) {
        (DragStatus::Idle, DragStatus::Idle) => true,
        (DragStatus::Bytes(_), DragStatus::Bytes(_)) => true,
        (DragStatus::ASCII(_), DragStatus::ASCII(_)) => true,
        _ => false,
    }
}

/// The offset a gesture points at, if it points at a cell.
pub open spec fn drag_target(status: DragStatus) -> Option<usize> {
    match status {
        DragStatus::Idle => None,
        DragStatus::Bytes(off) => Some(off),
        DragStatus::ASCII(off) => Some(off),
    }
}

/// One step of the drag protocol on the abstract state: the selection as a
/// start-end pair, and the drag status. A click selects the one cell and
/// ends any drag; a starting drag opens a fresh selection of that kind;
/// while the pointer stays over cells of the dragged kind the selection's
/// end follows it; and a gesture of the current kind that is no longer
/// dragging returns to idle.
pub open spec fn spec_drag_step(
    sel: Option<(usize, usize)>,
    ds: DragStatus,
    clicked: bool,
    drag_started: bool,
    dragged: bool,
    contains_pointer: bool,
    status: DragStatus,
) -> (Option<(usize, usize)>, DragStatus) {
    match drag_target(status) {
        None => (sel, ds),
        Some(off) => {
            let (s1, d1) = if clicked {
                (Some((off, off)), DragStatus::Idle)
            } else {
                (sel, ds)
            };
            let (s2, d2) = if drag_started {
                (Some((off, off)), status)
            } else {
                (s1, d1)
            };
            let s3 = if drag_kind_matches(d2, status) && contains_pointer {
                match s2 {
                    Some((a, _)) => Some((a, off)),
                    None => None,
                }
            } else {
                s2
            };
            let d3 = if d2 == status && !dragged {
                DragStatus::Idle
            } else {
                d2
            };
            (s3, d3)
        },
    }
}

impl DragStatus {
    /// Whether two gestures are over the same kind of cell, offsets aside.
    pub fn type_matches(&self, other: Self) -> (r: bool)
        ensures
            r == drag_kind_matches(*self, other),
    {
        match (self, other) {
            (DragStatus::Idle, DragStatus::Idle) => true,
            (DragStatus::Bytes(_), DragStatus::Bytes(_)) => true,
            (DragStatus::ASCII(_), DragStatus::ASCII(_)) => true,
            _ => false,
        }
    }
}

/// The hex viewer's selection and drag state.
pub struct HexViewer {
    selection: Option<Selection>,
    drag_status: DragStatus,
    drag_counter: usize,
}

impl HexViewer {
    pub closed spec fn spec_selection(&self) -> Option<Selection> {
        self.selection
    }

    pub closed spec fn spec_drag_status(&self) -> DragStatus {
        self.drag_status
    }

    /// No selection, no drag.
    pub fn new() -> (r: Self)
        ensures
            r.spec_selection() is None,
            r.spec_drag_status() == DragStatus::Idle,
    {
        Self { selection: None, drag_status: DragStatus::Idle, drag_counter: 0 }
    }

    /// Selects the single byte at `offset`.
    pub fn set_selected_offset(&mut self, offset: usize)
        ensures
            final(self).spec_selection() matches Some(s) && s.spec_start() == offset
                && s.spec_end() == offset,
            final(self).spec_drag_status() == old(self).spec_drag_status(),
    {
        self.selection = Some(Selection::new(offset));
    }

    /// The lower end of the selection, if there is one.
    pub fn get_selected_offset(&self) -> (r: Option<usize>)
        ensures
            match self.spec_selection() {
                Some(s) => r == Some(s.spec_lower()),
                None => r is None,
            },
    {
        match &self.selection {
            Some(s) => Some(s.lower()),
            None => None,
        }
    }

    /// The selection, if there is one.
    pub fn get_selection(&self) -> (r: Option<&Selection>)
        ensures
            match r {
                Some(s) => self.spec_selection() == Some(*s),
                None => self.spec_selection() is None,
            },
    {
        self.selection.as_ref()
    }

    /// Drops the selection and any drag in progress.
    pub fn clear_selection(&mut self)
        ensures
            final(self).spec_selection() is None,
            final(self).spec_drag_status() == DragStatus::Idle,
    {
        self.selection = None;
        self.drag_status = DragStatus::Idle;
    }

    /// Applies one pointer gesture to the viewer, exactly as
    /// `spec_drag_step` says: the host reads the four facts off its pointer
    /// event and the decision is made here.
    pub fn handle_drag(
        &mut self,
        clicked: bool,
        drag_started: bool,
        dragged: bool,
        contains_pointer: bool,
        status: DragStatus,
    )
        ensures
            (sel_model(final(self).spec_selection()), final(self).spec_drag_status())
                == spec_drag_step(
                sel_model(old(self).spec_selection()),
                old(self).spec_drag_status(),
                clicked,
                drag_started,
                dragged,
                contains_pointer,
                status,
            ),
    {
        let off: usize = match status {
            DragStatus::Idle => {
                return ;
            },
            DragStatus::ASCII(offset) => offset,
            DragStatus::Bytes(offset) => offset,
        };
        if clicked {
            self.selection = Some(Selection::new(off));
            self.drag_status = DragStatus::Idle;
        }
        if drag_started {
            self.drag_status = status;
            self.selection = Some(Selection::new(off));
            self.drag_counter = 0;
        }
        if self.drag_status.type_matches(status) && contains_pointer {
            match &mut self.selection {
                Some(sel) => {
                    sel.update_end(off);
                },
                None => {},
            }
            self.drag_counter = self.drag_counter.wrapping_add(1);
        }
        if self.drag_status == status && !dragged {
            self.drag_status = DragStatus::Idle;
            self.drag_counter = 0;
        }
    }
}

/// A selection as the plain pair of its endpoints.
pub open spec fn sel_model(s: Option<Selection>) -> Option<(usize, usize)> {
    match s {
        Some(x) => Some((x.spec_start(), x.spec_end())),
        None => None,
    }
}

/// How many offsets one tick may pull from a running search, so a search
/// with very many hits cannot stall the driver.
pub const MAX_RESULTS_PER_FRAME: usize = 100000;

/// One tick of the driver's result pump: pulls up to
/// `MAX_RESULTS_PER_FRAME` ready offsets from a running search into the
/// results list, renumbered consecutively, and marks the search finished
/// when the worker has exited and its channel is drained. The list keeps
/// consecutive numbering, and entries already listed stay as they are.
pub fn update_search_results<W: WorkerHandle>(
    current: &mut CurrentSearch<W>,
    panel: &mut SearchResultsPanel,
)
    requires
        old(panel).spec_results().len() + MAX_RESULTS_PER_FRAME <= usize::MAX,
    ensures
        *final(current) == *old(current) || *final(current) == crate::session::after_finish(
            *old(current),
        ),
        final(panel).spec_results().len() >= old(panel).spec_results().len(),
        final(panel).spec_results().len() <= old(panel).spec_results().len()
            + MAX_RESULTS_PER_FRAME,
        forall|k: int|
            0 <= k < old(panel).spec_results().len() ==> final(panel).spec_results()[k] == old(
                panel,
            ).spec_results()[k],
        well_indexed(old(panel).spec_results()) ==> well_indexed(final(panel).spec_results()),
{
    let mut results: Vec<SearchResult> = Vec::new();
    let mut finished: bool = false;
    match &*current {
        CurrentSearch::Searching(_, search) => {
            let mut count: usize = 0;
            let mut cont: bool = true;
            while cont
                invariant
                    count <= MAX_RESULTS_PER_FRAME,
                    cont ==> count < MAX_RESULTS_PER_FRAME,
                    results@.len() == count,
                decreases MAX_RESULTS_PER_FRAME - count + (if cont {
                    1int
                } else {
                    0int
                }),
            {
                match search.try_get() {
                    Ok(offset) => {
                        results.push(SearchResult { index: count, offset });
                        count = count + 1;
                        if count >= MAX_RESULTS_PER_FRAME {
                            cont = false;
                        }
                    },
                    Err(SearchState::Pending) => {
                        cont = false;
                    },
                    Err(SearchState::Finished) => {
                        finished = true;
                        cont = false;
                    },
                }
            }
        },
        _ => {},
    }
    if finished {
        current.finish();
    }
    if results.len() > 0 {
        panel.add_search_results(results);
    }
}

} // verus!
