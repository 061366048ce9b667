use vstd::prelude::*;

use crate::area::Area;
use crate::command::{CmdResult, ErrorMsg, FilterOutcome, Internal, Selection, Status};
use crate::path::FilePath;
use crate::pattern::InputPattern;
use crate::preview::{Preview, PreviewMode, PreviewView};

verus! {

/// The mathematical content of a [`PreviewState`].
#[verifier::ext_equal]
pub struct StateView {
    pub path: Seq<Seq<char>>,
    pub preview_area: Area,
    pub dirty: bool,
    pub base: PreviewView,
    pub filtered: Option<PreviewView>,
    pub pending: Seq<char>,
    pub removed: Seq<char>,
    pub prefered_mode: Option<PreviewMode>,
}

impl StateView {
    /// The state invariant, preserved by every operation:
    /// - both views are well formed;
    /// - an overlay only exists for a present pattern, in the mode of
    ///   the current base view, over searchable content, and while it
    ///   exists there is no stale restore slot;
    /// - a pending pattern supersedes any stale restore slot.
    pub open spec fn inv(self) -> bool {
        &&& self.base.wf()
        &&& match self.filtered {
            Some(f) => {
                &&& f.wf()
                &&& f.pattern.len() > 0
                &&& f.mode == self.base.mode
                &&& f.filterable
                &&& self.base.filterable
                &&& self.removed.len() == 0
            },
            None => true,
        }
        &&& self.pending.len() > 0 ==> self.removed.len() == 0
    }

    /// The effective view: the overlay if present, else the base view.
    pub open spec fn effective(self) -> PreviewView {
        match self.filtered {
            Some(f) => f,
            None => self.base,
        }
    }

    /// Replaces the effective view: the overlay if present, else the
    /// base view.
    pub open spec fn with_effective(self, p: PreviewView) -> StateView {
        match self.filtered {
            Some(_) => StateView { filtered: Some(p), ..self },
            None => StateView { base: p, ..self },
        }
    }

    /// A live pattern change (§ filter lifecycle).  An absent pattern
    /// dismisses the overlay, carrying its selection onto the base view
    /// by line number on a best-effort basis and stashing its pattern
    /// in the restore slot.  A present pattern against searchable
    /// content goes pending (superseding any stale restore slot) and
    /// waits for materialization; against unsearchable content the
    /// state is left unchanged.
    pub open spec fn spec_on_pattern(self, pat: Seq<char>) -> StateView {
        if pat.len() == 0 {
            match self.filtered {
                Some(f) => StateView {
                    base: match f.selected_line() {
                        Some(number) => self.base.spec_try_select_line(number),
                        None => self.base,
                    },
                    filtered: None,
                    pending: pat,
                    removed: f.pattern,
                    ..self
                },
                None => StateView { pending: pat, ..self },
            }
        } else if !self.base.filterable {
            self
        } else {
            StateView { pending: pat, removed: Seq::empty(), ..self }
        }
    }

    /// What a pattern change answers: an error on unsearchable
    /// content, otherwise "kept".
    pub open spec fn on_pattern_accepted(self, pat: Seq<char>) -> bool {
        pat.len() == 0 || self.base.filterable
    }

    /// The selection to carry into a fresh overlay: the overlay's, or
    /// the base view's when the overlay has none.
    pub open spec fn carried_selection(self) -> Option<u64> {
        match self.effective().selected_line() {
            Some(n) => Some(n),
            None => self.base.selected_line(),
        }
    }

    /// The overlay materialization builds from the base view, the
    /// pending pattern and the matching line numbers: the base lines
    /// bearing a matching number, in base order, with the carried
    /// selection re-applied where its line survived.
    pub open spec fn materialized_overlay(self, matched: Seq<u64>) -> PreviewView {
        let lines = self.base.lines.filter(matched_pred(matched));
        PreviewView {
            mode: self.base.mode,
            filterable: self.base.filterable,
            lines,
            sel: match self.carried_selection() {
                Some(number) => match lines.index_of_first(number) {
                    Some(i) => Some(i),
                    None => None,
                },
                None => None,
            },
            scroll: 0,
            page_height: self.base.page_height,
            pattern: self.pending,
        }
    }

    /// Materializing the pending filter.  Nothing happens without a
    /// pending pattern.  Otherwise the pattern is consumed either way;
    /// a cancelled run leaves no overlay behind (to be re-issued
    /// later), a finished run installs the materialized overlay.  A
    /// base view that cannot be searched yields no overlay (the path
    /// may have changed since the pattern was entered).
    pub open spec fn spec_materialize(self, outcome: Option<Seq<u64>>) -> StateView {
        if self.pending.len() == 0 {
            self
        } else {
            match outcome {
                Some(matched) => if self.base.filterable {
                    StateView {
                        pending: Seq::empty(),
                        filtered: Some(self.materialized_overlay(matched)),
                        ..self
                    }
                } else {
                    StateView { pending: Seq::empty(), filtered: None, ..self }
                },
                None => StateView { pending: Seq::empty(), filtered: None, ..self },
            }
        }
    }

    /// A path change: the new base view replaces everything, the
    /// overlay is invalidated, and its pattern (or else the old
    /// pending one) is re-armed as pending so the search resumes on
    /// the new file.
    pub open spec fn spec_set_selected_path(self, path: Seq<Seq<char>>, base: PreviewView) -> StateView {
        StateView {
            path,
            base,
            filtered: None,
            pending: match self.filtered {
                Some(f) => f.pattern,
                None => self.pending,
            },
            ..self
        }
    }

    /// A finished mode switch.  A successful build installs the new
    /// base view and records the mode as preferred; any overlay is
    /// invalidated and its pattern re-armed as pending, so an overlay
    /// always reflects the mode of the base view it was derived from.
    /// A failed build leaves the state unchanged.
    pub open spec fn spec_set_mode_built(self, mode: PreviewMode, built: Option<PreviewView>) -> StateView {
        match built {
            Some(base) => StateView {
                base,
                prefered_mode: Some(mode),
                filtered: None,
                pending: match self.filtered {
                    Some(f) => f.pattern,
                    None => self.pending,
                },
                ..self
            },
            None => self,
        }
    }

    /// Restoring the removed filter: the restore slot, when armed,
    /// moves back to pending.
    pub open spec fn spec_restore(self) -> StateView {
        if self.removed.len() > 0 {
            StateView { pending: self.removed, removed: Seq::empty(), ..self }
        } else {
            self
        }
    }

    /// Back: with an overlay this clears the filter; without one the
    /// panel is popped and the state untouched.
    pub open spec fn spec_back(self) -> StateView {
        if self.filtered.is_some() {
            self.spec_on_pattern(Seq::empty())
        } else {
            self
        }
    }
}

/// The predicate "this line number was reported as matching".
pub open spec fn matched_pred(matched: Seq<u64>) -> spec_fn(u64) -> bool {
    |n: u64| matched.contains(n)
}

proof fn lemma_filter_push(s: Seq<u64>, pred: spec_fn(u64) -> bool, x: u64)
    ensures
        s.push(x).filter(pred) == if pred(x) {
            s.filter(pred).push(x)
        } else {
            s.filter(pred)
        },
{
    reveal(Seq::filter);
    assert(s.push(x).drop_last() =~= s);
    assert(s.push(x).last() == x);
}

fn contains_u64(v: &Vec<u64>, x: u64) -> (b: bool)
    ensures
        b == v@.contains(x),
{
    let mut i: usize = 0;
    while i < v.len()
        invariant
            i <= v.len(),
            forall|j: int| 0 <= j < i ==> v@[j] != x,
        decreases v.len() - i,
    {
        if v[i] == x {
            return true;
        }
        i += 1;
    }
    false
}

/// The base lines that carry a matching number, in base order.
fn filter_lines(base: &Vec<u64>, matched: &Vec<u64>) -> (r: Vec<u64>)
    ensures
        r@ == base@.filter(matched_pred(matched@)),
{
    let mut r: Vec<u64> = Vec::new();
    let mut i: usize = 0;
    while i < base.len()
        invariant
            i <= base.len(),
            r@ == base@.subrange(0, i as int).filter(matched_pred(matched@)),
        decreases base.len() - i,
    {
        proof {
            assert(base@.subrange(0, i as int + 1).drop_last() =~= base@.subrange(0, i as int));
            assert(base@.subrange(0, i as int + 1) =~= base@.subrange(0, i as int).push(
                base@[i as int],
            ));
            lemma_filter_push(base@.subrange(0, i as int), matched_pred(matched@), base@[i as int]);
        }
        if contains_u64(matched, base[i]) {
            r.push(base[i]);
        }
        i += 1;
    }
    proof {
        assert(base@.subrange(0, base@.len() as int) =~= base@);
    }
    r
}

/// The preview panel's controller: the current path, the base preview
/// for it, the optional filtered overlay, the pending and removed
/// patterns, the preferred mode, and the layout / dirty bookkeeping.
pub struct PreviewState {
    pub preview_area: Area,
    /// True when the background must be cleared before the next draw.
    pub dirty: bool,
    /// Path to the previewed file.
    pub path: FilePath,
    /// The unfiltered preview of `path` in the active mode.
    pub preview: Preview,
    /// A pattern (or not) which has not yet been applied.
    pub pending_pattern: InputPattern,
    /// The filtered overlay, present once a pattern was materialized.
    pub filtered_preview: Option<Preview>,
    /// The pattern of the overlay last dismissed, for one-step restore.
    pub removed_pattern: InputPattern,
    /// The render mode last chosen by the user, kept across files.
    pub prefered_mode: Option<PreviewMode>,
}

impl View for PreviewState {
    type V = StateView;

    open spec fn view(&self) -> StateView {
        StateView {
            path: self.path@,
            preview_area: self.preview_area,
            dirty: self.dirty,
            base: self.preview@,
            filtered: match self.filtered_preview {
                Some(f) => Some(f@),
                None => None,
            },
            pending: self.pending_pattern@,
            removed: self.removed_pattern@,
            prefered_mode: self.prefered_mode,
        }
    }
}

impl PreviewState {
    pub fn new(
        path: FilePath,
        pending_pattern: InputPattern,
        prefered_mode: Option<PreviewMode>,
        preview: Preview,
    ) -> (r: PreviewState)
        requires
            preview@.wf(),
        ensures
            r@ == (StateView {
                path: path@,
                preview_area: (Area { left: 0u16, top: 0u16, width: 0u16, height: 0u16 }),
                dirty: true,
                base: preview@,
                filtered: None,
                pending: pending_pattern@,
                removed: Seq::<char>::empty(),
                prefered_mode,
            }),
            r@.inv(),
    {
        let r = PreviewState {
            preview_area: Area::uninitialized(),
            dirty: true,
            path,
            preview,
            pending_pattern,
            filtered_preview: None,
            removed_pattern: InputPattern::none(),
            prefered_mode,
        };
        proof {
            assert(r@ =~= (StateView {
                path: path@,
                preview_area: (Area { left: 0u16, top: 0u16, width: 0u16, height: 0u16 }),
                dirty: true,
                base: preview@,
                filtered: None,
                pending: pending_pattern@,
                removed: Seq::<char>::empty(),
                prefered_mode,
            }));
        }
        r
    }

    /// The outstanding background task, if any: the host keeps polling
    /// [`Self::do_pending_task`] while one is reported.
    pub fn get_pending_task(&self) -> (r: Option<&'static str>)
        ensures
            r.is_some() == (self@.pending.len() > 0),
            r.is_some() ==> r.unwrap()@ == "searching"@,
    {
        if self.pending_pattern.is_some() {
            Some("searching")
        } else {
            None
        }
    }

    /// An owned copy of the pending pattern, for the host to hand to
    /// its matcher before reporting the outcome to
    /// [`Self::do_pending_task`].
    pub fn get_pending_pattern(&self) -> (r: InputPattern)
        ensures
            r@ == self@.pending,
    {
        self.pending_pattern.duplicate()
    }

    /// Entry point for live search input; see
    /// [`StateView::spec_on_pattern`] for what it does to the state.
    /// A present pattern against an unsearchable base view is rejected
    /// with a user-visible error and not stored.
    pub fn on_pattern(&mut self, pat: InputPattern) -> (r: CmdResult)
        requires
            old(self)@.inv(),
        ensures
            final(self)@ == old(self)@.spec_on_pattern(pat@),
            final(self)@.inv(),
            r == if old(self)@.on_pattern_accepted(pat@) {
                CmdResult::Keep
            } else {
                CmdResult::DisplayError(ErrorMsg::NotFilterable)
            },
    {
        if pat.is_none() {
            match self.filtered_preview.take() {
                Some(filtered_preview) => {
                    let old_selection = filtered_preview.get_selected_line_number();
                    if let Some(number) = old_selection {
                        self.preview.try_select_line_number(number);
                    }
                    self.removed_pattern = filtered_preview.get_pattern();
                },
                None => {},
            }
            self.pending_pattern = pat;
            proof {
                assert(self@ =~= old(self)@.spec_on_pattern(pat@));
            }
            CmdResult::Keep
        } else {
            if !self.preview.is_filterable() {
                proof {
                    assert(self@ =~= old(self)@.spec_on_pattern(pat@));
                }
                return CmdResult::DisplayError(ErrorMsg::NotFilterable);
            }
            self.pending_pattern = pat;
            self.removed_pattern = InputPattern::none();
            proof {
                assert(self@ =~= old(self)@.spec_on_pattern(pat@));
            }
            CmdResult::Keep
        }
    }

    /// Consumes the pending pattern against the outcome the host's
    /// matcher reported for it; see [`StateView::spec_materialize`].
    /// Called from the idle/poll phase, never from command dispatch,
    /// so filtering work cannot block input handling.  A cancelled run
    /// raises no error: the state is as if the call had not happened,
    /// except that the pattern is consumed and may be re-issued.
    pub fn do_pending_task(&mut self, outcome: FilterOutcome)
        requires
            old(self)@.inv(),
        ensures
            final(self)@ == old(self)@.spec_materialize(
                match outcome {
                    FilterOutcome::Matched(m) => Some(m@),
                    FilterOutcome::Cancelled => None,
                },
            ),
            final(self)@.inv(),
    {
        if self.pending_pattern.is_none() {
            proof {
                assert(self@ =~= old(self)@.spec_materialize(
                    match outcome {
                        FilterOutcome::Matched(m) => Some(m@),
                        FilterOutcome::Cancelled => None,
                    },
                ));
            }
            return;
        }
        let old_selection = match &self.filtered_preview {
            Some(p) => p.get_selected_line_number(),
            None => None,
        };
        let old_selection = match old_selection {
            Some(n) => Some(n),
            None => self.preview.get_selected_line_number(),
        };
        let pattern = self.pending_pattern.take();
        match outcome {
            FilterOutcome::Cancelled => {
                self.filtered_preview = None;
            },
            FilterOutcome::Matched(matched) => {
                if !self.preview.is_filterable() {
                    self.filtered_preview = None;
                } else {
                    let lines = filter_lines(&self.preview.lines, &matched);
                    let mut filtered = Preview {
                        mode: self.preview.mode,
                        filterable: self.preview.filterable,
                        lines,
                        sel: None,
                        scroll: 0,
                        page_height: self.preview.page_height,
                        pattern,
                    };
                    if let Some(number) = old_selection {
                        filtered.try_select_line_number(number);
                    }
                    self.filtered_preview = Some(filtered);
                }
            },
        }
        proof {
            assert(self@ =~= old(self)@.spec_materialize(
                match outcome {
                    FilterOutcome::Matched(m) => Some(m@),
                    FilterOutcome::Cancelled => None,
                },
            ));
        }
    }

    /// The panel's target file changed; the host hands the base view
    /// it resolved for the new path in the preferred mode.  Any overlay
    /// is invalidated, its pattern re-armed as pending; see
    /// [`StateView::spec_set_selected_path`].
    pub fn set_selected_path(&mut self, path: FilePath, preview: Preview)
        requires
            old(self)@.inv(),
            preview@.wf(),
        ensures
            final(self)@ == old(self)@.spec_set_selected_path(path@, preview@),
            final(self)@.inv(),
    {
        match self.filtered_preview.take() {
            Some(filtered_preview) => {
                self.pending_pattern = filtered_preview.get_pattern();
            },
            None => {},
        }
        self.preview = preview;
        self.path = path;
        proof {
            assert(self@ =~= old(self)@.spec_set_selected_path(self.path@, self.preview@));
        }
    }

    /// Re-resolves the current file after an external change: the host
    /// hands the rebuilt base view, and the background is marked for
    /// repaint.
    pub fn refresh(&mut self, preview: Preview)
        requires
            old(self)@.inv(),
            preview@.wf(),
        ensures
            final(self)@ == (StateView {
                dirty: true,
                ..old(self)@.spec_set_selected_path(old(self)@.path, preview@)
            }),
            final(self)@.inv(),
    {
        self.dirty = true;
        let path = self.path.duplicate();
        self.set_selected_path(path, preview);
        proof {
            assert(self@ =~= (StateView {
                dirty: true,
                ..old(self)@.spec_set_selected_path(old(self)@.path, self.preview@)
            }));
        }
    }

    /// Requests a render mode.  Asking for the mode the base view
    /// already has changes nothing and answers "kept" — in particular
    /// no preview is rebuilt.  Otherwise the host is asked to build
    /// one and report to [`Self::set_mode_built`].
    pub fn set_mode(&mut self, mode: PreviewMode) -> (r: CmdResult)
        requires
            old(self)@.inv(),
        ensures
            final(self)@ == old(self)@,
            final(self)@.inv(),
            r == if old(self)@.base.mode == Some(mode) {
                CmdResult::Keep
            } else {
                CmdResult::BuildPreview(mode)
            },
    {
        match self.preview.get_mode() {
            Some(m) => if m == mode {
                CmdResult::Keep
            } else {
                CmdResult::BuildPreview(mode)
            },
            None => CmdResult::BuildPreview(mode),
        }
    }

    /// The outcome of the preview build a [`Self::set_mode`] request
    /// asked for; see [`StateView::spec_set_mode_built`].  On failure
    /// the state is unchanged and the error names the mode and the
    /// host's reason.
    pub fn set_mode_built(&mut self, mode: PreviewMode, built: Result<Preview, String>) -> (r:
        CmdResult)
        requires
            old(self)@.inv(),
            built matches Ok(p) ==> p@.wf() && p@.mode == Some(mode),
        ensures
            final(self)@ == old(self)@.spec_set_mode_built(
                mode,
                match built {
                    Ok(p) => Some(p@),
                    Err(_) => None,
                },
            ),
            final(self)@.inv(),
            match built {
                Ok(_) => r == CmdResult::Keep,
                Err(reason) => r == CmdResult::DisplayError(
                    ErrorMsg::UnsupportedMode { mode, reason },
                ),
            },
    {
        match built {
            Ok(preview) => {
                match self.filtered_preview.take() {
                    Some(filtered_preview) => {
                        self.pending_pattern = filtered_preview.get_pattern();
                    },
                    None => {},
                }
                self.preview = preview;
                self.prefered_mode = Some(mode);
                proof {
                    assert(self@ =~= old(self)@.spec_set_mode_built(mode, Some(self.preview@)));
                }
                CmdResult::Keep
            },
            Err(reason) => {
                proof {
                    assert(self@ =~= old(self)@.spec_set_mode_built(mode, None));
                }
                CmdResult::DisplayError(ErrorMsg::UnsupportedMode { mode, reason })
            },
        }
    }

    pub fn selected_path(&self) -> (r: &FilePath)
        ensures
            r@ == self@.path,
    {
        &self.path
    }

    /// What the panel designates, for the host: the path and the
    /// selected line number of the base view (0 when none).
    pub fn selection(&self) -> (r: Selection)
        requires
            self@.inv(),
        ensures
            r.path@ == self@.path,
            r.line == match self@.base.selected_line() {
                Some(n) => n,
                None => 0u64,
            },
    {
        let line = match self.preview.get_selected_line_number() {
            Some(n) => n,
            None => 0,
        };
        Selection { path: self.path.duplicate(), line }
    }

    /// The status summary shown while no verb is being typed.
    pub fn no_verb_status(&self, has_previous_state: bool) -> (r: Status)
        ensures
            r == (Status {
                has_previous_state,
                is_filtered: self@.filtered.is_some(),
                has_removed_pattern: self@.removed.len() > 0,
            }),
    {
        Status {
            has_previous_state,
            is_filtered: self.filtered_preview.is_some(),
            has_removed_pattern: self.removed_pattern.is_some(),
        }
    }

    /// The text to pre-fill the search input with: the overlay's
    /// pattern while one is shown, else the pending raw text.
    pub fn get_starting_input(&self) -> (r: String)
        ensures
            r@ == match self@.filtered {
                Some(f) => f.pattern,
                None => self@.pending,
            },
    {
        match &self.filtered_preview {
            Some(preview) => preview.get_pattern().raw,
            None => self.pending_pattern.duplicate().raw,
        }
    }

    /// Moves the selection of the effective view one line down.
    pub fn select_next_line(&mut self)
        requires
            old(self)@.inv(),
        ensures
            final(self)@ == old(self)@.with_effective(old(self)@.effective().spec_select_next()),
            final(self)@.inv(),
    {
        match self.filtered_preview.take() {
            Some(mut p) => {
                p.select_next_line();
                self.filtered_preview = Some(p);
            },
            None => {
                self.preview.select_next_line();
            },
        }
        proof {
            assert(self@ =~= old(self)@.with_effective(old(self)@.effective().spec_select_next()));
        }
    }

    /// Moves the selection of the effective view one line up.
    pub fn select_previous_line(&mut self)
        requires
            old(self)@.inv(),
        ensures
            final(self)@ == old(self)@.with_effective(
                old(self)@.effective().spec_select_previous(),
            ),
            final(self)@.inv(),
    {
        match self.filtered_preview.take() {
            Some(mut p) => {
                p.select_previous_line();
                self.filtered_preview = Some(p);
            },
            None => {
                self.preview.select_previous_line();
            },
        }
        proof {
            assert(self@ =~= old(self)@.with_effective(
                old(self)@.effective().spec_select_previous(),
            ));
        }
    }

    /// Jumps the selection of the effective view to the first line.
    pub fn select_first(&mut self)
        requires
            old(self)@.inv(),
        ensures
            final(self)@ == old(self)@.with_effective(old(self)@.effective().spec_select_first()),
            final(self)@.inv(),
    {
        match self.filtered_preview.take() {
            Some(mut p) => {
                p.select_first();
                self.filtered_preview = Some(p);
            },
            None => {
                self.preview.select_first();
            },
        }
        proof {
            assert(self@ =~= old(self)@.with_effective(old(self)@.effective().spec_select_first()));
        }
    }

    /// Jumps the selection of the effective view to the last line.
    pub fn select_last(&mut self)
        requires
            old(self)@.inv(),
        ensures
            final(self)@ == old(self)@.with_effective(old(self)@.effective().spec_select_last()),
            final(self)@.inv(),
    {
        match self.filtered_preview.take() {
            Some(mut p) => {
                p.select_last();
                self.filtered_preview = Some(p);
            },
            None => {
                self.preview.select_last();
            },
        }
        proof {
            assert(self@ =~= old(self)@.with_effective(old(self)@.effective().spec_select_last()));
        }
    }

    /// Scrolls the effective view by whole pages; the direction is the
    /// sign of `pages`.
    pub fn try_scroll(&mut self, pages: i8)
        requires
            old(self)@.inv(),
        ensures
            final(self)@ == old(self)@.with_effective(old(self)@.effective().spec_scroll(pages)),
            final(self)@.inv(),
    {
        match self.filtered_preview.take() {
            Some(mut p) => {
                p.try_scroll(pages);
                self.filtered_preview = Some(p);
            },
            None => {
                self.preview.try_scroll(pages);
            },
        }
        proof {
            assert(self@ =~= old(self)@.with_effective(old(self)@.effective().spec_scroll(pages)));
        }
    }

    /// A click at screen coordinates: inside the body rectangle the
    /// vertical coordinate picks the display row to select in the
    /// effective view; outside it the click is ignored.
    pub fn on_click(&mut self, _x: u16, y: u16) -> (r: CmdResult)
        requires
            old(self)@.inv(),
        ensures
            final(self)@.inv(),
            r == CmdResult::Keep,
            old(self)@.preview_area.top <= y < old(self)@.preview_area.top
                + old(self)@.preview_area.height ==> final(self)@ == old(self)@.with_effective(
                old(self)@.effective().spec_try_select_y((y - old(self)@.preview_area.top) as u16),
            ),
            !(old(self)@.preview_area.top <= y < old(self)@.preview_area.top
                + old(self)@.preview_area.height) ==> final(self)@ == old(self)@,
    {
        if y >= self.preview_area.top && y - self.preview_area.top < self.preview_area.height {
            let row = y - self.preview_area.top;
            match self.filtered_preview.take() {
                Some(mut p) => {
                    p.try_select_y(row);
                    self.filtered_preview = Some(p);
                },
                None => {
                    self.preview.try_select_y(row);
                },
            }
            proof {
                assert(self@ =~= old(self)@.with_effective(
                    old(self)@.effective().spec_try_select_y((y - old(self)@.preview_area.top)
                        as u16),
                ));
            }
        }
        CmdResult::Keep
    }

    /// Interprets one discrete action against the current state, in
    /// the priority order fixed by the panel: Back clears the filter
    /// when one is active and pops the panel otherwise; the restore
    /// and drop-filter actions fire only when armed, and are otherwise
    /// the generic engine's; mode switches and selection/scroll
    /// actions delegate to the operations above.  Exactly one action
    /// is processed per invocation.
    pub fn on_internal(&mut self, internal: Internal) -> (r: CmdResult)
        requires
            old(self)@.inv(),
        ensures
            final(self)@.inv(),
            match internal {
                Internal::Back => final(self)@ == old(self)@.spec_back() && r == if old(
                    self,
                )@.filtered.is_some() {
                    CmdResult::Keep
                } else {
                    CmdResult::PopState
                },
                Internal::LineDown => final(self)@ == old(self)@.with_effective(
                    old(self)@.effective().spec_select_next(),
                ) && r == CmdResult::Keep,
                Internal::LineUp => final(self)@ == old(self)@.with_effective(
                    old(self)@.effective().spec_select_previous(),
                ) && r == CmdResult::Keep,
                Internal::PageDown => final(self)@ == old(self)@.with_effective(
                    old(self)@.effective().spec_scroll(1i8),
                ) && r == CmdResult::Keep,
                Internal::PageUp => final(self)@ == old(self)@.with_effective(
                    old(self)@.effective().spec_scroll(-1i8),
                ) && r == CmdResult::Keep,
                Internal::PanelLeft => if old(self)@.removed.len() > 0 {
                    final(self)@ == old(self)@.spec_restore() && r == CmdResult::Keep
                } else {
                    final(self)@ == old(self)@ && r == CmdResult::Delegate
                },
                Internal::PanelRight => if old(self)@.filtered.is_some() {
                    final(self)@ == old(self)@.spec_on_pattern(Seq::empty()) && r
                        == CmdResult::Keep
                } else {
                    final(self)@ == old(self)@ && r == CmdResult::Delegate
                },
                Internal::SelectFirst => final(self)@ == old(self)@.with_effective(
                    old(self)@.effective().spec_select_first(),
                ) && r == CmdResult::Keep,
                Internal::SelectLast => final(self)@ == old(self)@.with_effective(
                    old(self)@.effective().spec_select_last(),
                ) && r == CmdResult::Keep,
                Internal::PreviewImage => final(self)@ == old(self)@ && r == if old(
                    self,
                )@.base.mode == Some(PreviewMode::Image) {
                    CmdResult::Keep
                } else {
                    CmdResult::BuildPreview(PreviewMode::Image)
                },
                Internal::PreviewText => final(self)@ == old(self)@ && r == if old(
                    self,
                )@.base.mode == Some(PreviewMode::Text) {
                    CmdResult::Keep
                } else {
                    CmdResult::BuildPreview(PreviewMode::Text)
                },
                Internal::PreviewBinary => final(self)@ == old(self)@ && r == if old(
                    self,
                )@.base.mode == Some(PreviewMode::Hex) {
                    CmdResult::Keep
                } else {
                    CmdResult::BuildPreview(PreviewMode::Hex)
                },
            },
    {
        match internal {
            Internal::Back => {
                if self.filtered_preview.is_some() {
                    self.on_pattern(InputPattern::none())
                } else {
                    CmdResult::PopState
                }
            },
            Internal::LineDown => {
                self.select_next_line();
                CmdResult::Keep
            },
            Internal::LineUp => {
                self.select_previous_line();
                CmdResult::Keep
            },
            Internal::PageDown => {
                self.try_scroll(1);
                CmdResult::Keep
            },
            Internal::PageUp => {
                self.try_scroll(-1);
                CmdResult::Keep
            },
            Internal::PanelLeft => {
                if self.removed_pattern.is_some() {
                    self.pending_pattern = self.removed_pattern.take();
                    proof {
                        assert(self@ =~= old(self)@.spec_restore());
                    }
                    CmdResult::Keep
                } else {
                    CmdResult::Delegate
                }
            },
            Internal::PanelRight => {
                if self.filtered_preview.is_some() {
                    self.on_pattern(InputPattern::none())
                } else {
                    CmdResult::Delegate
                }
            },
            Internal::SelectFirst => {
                self.select_first();
                CmdResult::Keep
            },
            Internal::SelectLast => {
                self.select_last();
                CmdResult::Keep
            },
            Internal::PreviewImage => self.set_mode(PreviewMode::Image),
            Internal::PreviewText => self.set_mode(PreviewMode::Text),
            Internal::PreviewBinary => self.set_mode(PreviewMode::Hex),
        }
    }
}

/// What one drawing pass needs from the controller: whether to clear
/// the background first, the file name for the header's left side, and
/// the body rectangle the effective view draws into.  The header row
/// is the top line of the assigned rectangle; the info strip fills
/// what the file name leaves of it (see [`header_info_area`]).
pub struct DisplayLayout {
    pub clear_background: bool,
    pub file_name: String,
    pub preview_area: Area,
}

impl PreviewState {
    /// Prepares one drawing pass for the assigned rectangle: an area
    /// too small to show anything is refused; otherwise the body is
    /// the rectangle below the one-line header, a geometry change or
    /// prior damage asks for a background clear (once), and the
    /// effective view's page height is pinned to the body height so
    /// page scrolling matches what is visible.  Header and body never
    /// leave the assigned rectangle.
    pub fn display(&mut self, state_area: Area) -> (r: Option<DisplayLayout>)
        requires
            old(self)@.inv(),
            state_area.wf(),
        ensures
            final(self)@.inv(),
            state_area.height < 3 ==> r.is_none() && final(self)@ == old(self)@,
            state_area.height >= 3 ==> {
                let body = Area {
                    left: state_area.left,
                    top: (state_area.top + 1) as u16,
                    width: state_area.width,
                    height: (state_area.height - 1) as u16,
                };
                &&& r.is_some()
                &&& r.unwrap().preview_area == body
                &&& r.unwrap().clear_background == (old(self)@.dirty || body != old(
                    self,
                )@.preview_area)
                &&& r.unwrap().file_name@ == old(self).path.spec_file_name()
                &&& final(self)@ == (StateView {
                    dirty: false,
                    preview_area: body,
                    ..old(self)@.with_effective(
                        PreviewView {
                            page_height: body.height as int,
                            ..old(self)@.effective()
                        },
                    )
                })
            },
    {
        if state_area.height < 3 {
            return None;
        }
        let body = Area {
            left: state_area.left,
            top: state_area.top + 1,
            width: state_area.width,
            height: state_area.height - 1,
        };
        if !(body == self.preview_area) {
            self.dirty = true;
            self.preview_area = body;
        }
        let clear_background = self.dirty;
        self.dirty = false;
        match self.filtered_preview.take() {
            Some(mut p) => {
                p.set_page_height(body.height);
                self.filtered_preview = Some(p);
            },
            None => {
                self.preview.set_page_height(body.height);
            },
        }
        let file_name = self.path.file_name();
        proof {
            assert(self@ =~= (StateView {
                dirty: false,
                preview_area: body,
                ..old(self)@.with_effective(
                    PreviewView { page_height: body.height as int, ..old(self)@.effective() },
                )
            }));
        }
        Some(DisplayLayout { clear_background, file_name, preview_area: body })
    }
}

/// The rectangle of the right-aligned info strip in the header row:
/// what remains of the header once `name_cols` columns (as measured by
/// the host's renderer) are taken by the file name on the left.
pub fn header_info_area(state_area: Area, name_cols: u16) -> (r: Area)
    requires
        state_area.wf(),
    ensures
        ({
            let allowed: u16 = if name_cols > state_area.width {
                0u16
            } else {
                (state_area.width - name_cols) as u16
            };
            r == (Area {
                left: (state_area.left + state_area.width - allowed) as u16,
                top: state_area.top,
                width: allowed,
                height: 1u16,
            })
        }),
{
    let allowed: u16 = if name_cols > state_area.width {
        0
    } else {
        state_area.width - name_cols
    };
    Area {
        left: state_area.left + state_area.width - allowed,
        top: state_area.top,
        width: allowed,
        height: 1,
    }
}

} // verus!
