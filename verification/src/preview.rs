use vstd::prelude::*;

use crate::pattern::InputPattern;

verus! {

/// The render mode of a preview.
#[derive(Clone, Copy, PartialEq, Eq, Structural, Debug)]
pub enum PreviewMode {
    Text,
    Hex,
    Image,
}

/// The mathematical content of a [`Preview`]: what the controller can
/// observe and steer of one renderable view of the file.
#[verifier::ext_equal]
pub struct PreviewView {
    pub mode: Option<PreviewMode>,
    pub filterable: bool,
    /// The line numbers the view offers for selection, in display order.
    pub lines: Seq<u64>,
    /// Index into `lines` of the selected line, if any.
    pub sel: Option<int>,
    /// Index into `lines` of the first visible line.
    pub scroll: int,
    /// Lines per page, as fixed by the last drawing pass.
    pub page_height: int,
    /// Raw text of the pattern this view was filtered with (empty for a
    /// base, unfiltered view).
    pub pattern: Seq<char>,
}

impl PreviewView {
    pub open spec fn wf(self) -> bool {
        &&& match self.sel {
            Some(i) => 0 <= i < self.lines.len(),
            None => true,
        }
        &&& if self.lines.len() == 0 {
            self.scroll == 0
        } else {
            0 <= self.scroll < self.lines.len()
        }
        &&& self.page_height >= 0
    }

    /// The number of the selected line, if one is selected.
    pub open spec fn selected_line(self) -> Option<u64> {
        match self.sel {
            Some(i) => if 0 <= i < self.lines.len() {
                Some(self.lines[i])
            } else {
                None
            },
            None => None,
        }
    }

    /// Selecting a line by its number: the first line bearing that
    /// number becomes selected; an absent number leaves the view as it
    /// was.
    pub open spec fn spec_try_select_line(self, number: u64) -> PreviewView {
        match self.lines.index_of_first(number) {
            Some(i) => PreviewView { sel: Some(i), ..self },
            None => self,
        }
    }

    /// Selecting by display row: row `y` below the top of the body
    /// shows the line at index `scroll + y`, if any.
    pub open spec fn spec_try_select_y(self, y: u16) -> PreviewView {
        if self.scroll + y < self.lines.len() {
            PreviewView { sel: Some(self.scroll + y), ..self }
        } else {
            self
        }
    }

    /// One step down: the next line, or the first when nothing is
    /// selected yet; no-op on an empty view or at the last line.
    pub open spec fn spec_select_next(self) -> PreviewView {
        if self.lines.len() == 0 {
            self
        } else {
            match self.sel {
                None => PreviewView { sel: Some(0), ..self },
                Some(i) => if i + 1 < self.lines.len() {
                    PreviewView { sel: Some(i + 1), ..self }
                } else {
                    self
                },
            }
        }
    }

    /// One step up: the previous line, or the last when nothing is
    /// selected yet; no-op on an empty view or at the first line.
    pub open spec fn spec_select_previous(self) -> PreviewView {
        if self.lines.len() == 0 {
            self
        } else {
            match self.sel {
                None => PreviewView { sel: Some(self.lines.len() - 1), ..self },
                Some(i) => if i > 0 {
                    PreviewView { sel: Some(i - 1), ..self }
                } else {
                    self
                },
            }
        }
    }

    pub open spec fn spec_select_first(self) -> PreviewView {
        if self.lines.len() == 0 {
            self
        } else {
            PreviewView { sel: Some(0), ..self }
        }
    }

    pub open spec fn spec_select_last(self) -> PreviewView {
        if self.lines.len() == 0 {
            self
        } else {
            PreviewView { sel: Some(self.lines.len() - 1), ..self }
        }
    }

    /// Scrolling by whole pages, clamped to the valid scroll range.
    pub open spec fn spec_scroll(self, pages: i8) -> PreviewView {
        if self.lines.len() == 0 {
            self
        } else {
            let max = self.lines.len() - 1;
            let target = self.scroll + pages * self.page_height;
            let clamped = if target < 0 {
                0
            } else if target > max {
                max
            } else {
                target
            };
            PreviewView { scroll: clamped, ..self }
        }
    }
}

/// One renderable, optionally selectable and scrollable view of the
/// previewed file's content in one mode.  The host builds base views
/// (it alone can read the file); the controller derives filtered
/// overlay views from them.  Rendering the content itself is the
/// host's job; the controller only steers selection and scrolling.
pub struct Preview {
    pub mode: Option<PreviewMode>,
    pub filterable: bool,
    /// The line numbers offered for selection, in display order.
    pub lines: Vec<u64>,
    /// Index into `lines` of the selected line, if any.
    pub sel: Option<usize>,
    /// Index into `lines` of the first visible line.
    pub scroll: usize,
    /// Lines per page, as fixed by the last drawing pass.
    pub page_height: u16,
    /// The pattern this view was filtered with (absent for a base view).
    pub pattern: InputPattern,
}

impl View for Preview {
    type V = PreviewView;

    open spec fn view(&self) -> PreviewView {
        PreviewView {
            mode: self.mode,
            filterable: self.filterable,
            lines: self.lines@,
            sel: match self.sel {
                Some(i) => Some(i as int),
                None => None,
            },
            scroll: self.scroll as int,
            page_height: self.page_height as int,
            pattern: self.pattern@,
        }
    }
}

impl Preview {
    /// A fresh, unfiltered view: nothing selected, scrolled to the top.
    pub fn new(mode: Option<PreviewMode>, filterable: bool, lines: Vec<u64>) -> (r: Preview)
        ensures
            r@ == (PreviewView {
                mode,
                filterable,
                lines: lines@,
                sel: None,
                scroll: 0,
                page_height: 0,
                pattern: Seq::<char>::empty(),
            }),
            r@.wf(),
    {
        let r = Preview {
            mode,
            filterable,
            lines,
            sel: None,
            scroll: 0,
            page_height: 0,
            pattern: InputPattern::none(),
        };
        proof {
            assert(r@ =~= (PreviewView {
                mode,
                filterable,
                lines: lines@,
                sel: None,
                scroll: 0,
                page_height: 0,
                pattern: Seq::<char>::empty(),
            }));
        }
        r
    }

    pub fn get_mode(&self) -> (r: Option<PreviewMode>)
        ensures
            r == self@.mode,
    {
        self.mode
    }

    pub fn is_filterable(&self) -> (r: bool)
        ensures
            r == self@.filterable,
    {
        self.filterable
    }

    /// The pattern this view was filtered with, as an owned copy.
    pub fn get_pattern(&self) -> (r: InputPattern)
        ensures
            r@ == self@.pattern,
    {
        self.pattern.duplicate()
    }

    pub fn get_selected_line_number(&self) -> (r: Option<u64>)
        requires
            self@.wf(),
        ensures
            r == self@.selected_line(),
    {
        match self.sel {
            Some(i) => Some(self.lines[i]),
            None => None,
        }
    }

    /// Selects the first line bearing the given number, if the view has
    /// one; otherwise leaves the selection as it was.
    pub fn try_select_line_number(&mut self, number: u64)
        requires
            old(self)@.wf(),
        ensures
            final(self)@ == old(self)@.spec_try_select_line(number),
            final(self)@.wf(),
    {
        let mut i: usize = 0;
        while i < self.lines.len()
            invariant
                self@ == old(self)@,
                old(self)@.wf(),
                i <= self.lines.len(),
                forall|j: int| 0 <= j < i ==> self.lines@[j] != number,
            decreases self.lines.len() - i,
        {
            if self.lines[i] == number {
                self.sel = Some(i);
                proof {
                    old(self)@.lines.index_of_first_ensures(number);
                    assert(old(self)@.lines.contains(number));
                    assert(old(self)@.lines.index_of_first(number) == Some(i as int));
                    assert(self@ =~= old(self)@.spec_try_select_line(number));
                }
                return;
            }
            i += 1;
        }
        proof {
            old(self)@.lines.index_of_first_ensures(number);
            assert(!old(self)@.lines.contains(number));
            assert(self@ =~= old(self)@.spec_try_select_line(number));
        }
    }

    /// Selects the line shown on display row `y` of the body, counted
    /// from the top of the visible window; rows past the content are
    /// ignored.
    pub fn try_select_y(&mut self, y: u16)
        requires
            old(self)@.wf(),
        ensures
            final(self)@ == old(self)@.spec_try_select_y(y),
            final(self)@.wf(),
    {
        if (y as usize) < self.lines.len() - self.scroll {
            self.sel = Some(self.scroll + y as usize);
            proof {
                assert(self@ =~= old(self)@.spec_try_select_y(y));
            }
        } else {
            proof {
                assert(self@ =~= old(self)@.spec_try_select_y(y));
            }
        }
    }

    pub fn select_next_line(&mut self)
        requires
            old(self)@.wf(),
        ensures
            final(self)@ == old(self)@.spec_select_next(),
            final(self)@.wf(),
    {
        if self.lines.len() > 0 {
            match self.sel {
                None => {
                    self.sel = Some(0);
                },
                Some(i) => {
                    if i + 1 < self.lines.len() {
                        self.sel = Some(i + 1);
                    }
                },
            }
        }
        proof {
            assert(self@ =~= old(self)@.spec_select_next());
        }
    }

    pub fn select_previous_line(&mut self)
        requires
            old(self)@.wf(),
        ensures
            final(self)@ == old(self)@.spec_select_previous(),
            final(self)@.wf(),
    {
        if self.lines.len() > 0 {
            match self.sel {
                None => {
                    self.sel = Some(self.lines.len() - 1);
                },
                Some(i) => {
                    if i > 0 {
                        self.sel = Some(i - 1);
                    }
                },
            }
        }
        proof {
            assert(self@ =~= old(self)@.spec_select_previous());
        }
    }

    pub fn select_first(&mut self)
        requires
            old(self)@.wf(),
        ensures
            final(self)@ == old(self)@.spec_select_first(),
            final(self)@.wf(),
    {
        if self.lines.len() > 0 {
            self.sel = Some(0);
        }
        proof {
            assert(self@ =~= old(self)@.spec_select_first());
        }
    }

    pub fn select_last(&mut self)
        requires
            old(self)@.wf(),
        ensures
            final(self)@ == old(self)@.spec_select_last(),
            final(self)@.wf(),
    {
        if self.lines.len() > 0 {
            self.sel = Some(self.lines.len() - 1);
        }
        proof {
            assert(self@ =~= old(self)@.spec_select_last());
        }
    }

    /// Moves the visible window by whole pages; the direction is the
    /// sign of `pages`.  The window is clamped to the content.
    pub fn try_scroll(&mut self, pages: i8)
        requires
            old(self)@.wf(),
        ensures
            final(self)@ == old(self)@.spec_scroll(pages),
            final(self)@.wf(),
    {
        if self.lines.len() == 0 {
            proof {
                assert(self@ =~= old(self)@.spec_scroll(pages));
            }
            return;
        }
        let max: usize = self.lines.len() - 1;
        let ph: u16 = self.page_height;
        let n: i32 = pages as i32;
        if n >= 0 {
            proof {
                assert(0 <= (n as int) * (ph as int) <= 127 * 65535) by (nonlinear_arith)
                    requires
                        0 <= n as int <= 127,
                        0 <= ph as int <= 65535,
                ;
            }
            let step: usize = (n as usize) * (ph as usize);
            let new = if step > max - self.scroll {
                max
            } else {
                self.scroll + step
            };
            self.scroll = new;
        } else {
            let m: i32 = -n;
            proof {
                assert(0 <= (m as int) * (ph as int) <= 128 * 65535) by (nonlinear_arith)
                    requires
                        0 <= m as int <= 128,
                        0 <= ph as int <= 65535,
                ;
            }
            proof {
                assert((pages as int) * (ph as int) == -((m as int) * (ph as int)))
                    by (nonlinear_arith)
                    requires
                        m as int == -(pages as int),
                ;
            }
            let step: usize = (m as usize) * (ph as usize);
            let new = if step > self.scroll {
                0
            } else {
                self.scroll - step
            };
            self.scroll = new;
        }
        proof {
            assert(self@ =~= old(self)@.spec_scroll(pages));
        }
    }

    /// Records the body height the drawing pass is about to use, so
    /// page scrolling moves by what is actually visible.
    pub fn set_page_height(&mut self, page_height: u16)
        requires
            old(self)@.wf(),
        ensures
            final(self)@ == (PreviewView { page_height: page_height as int, ..old(self)@ }),
            final(self)@.wf(),
    {
        self.page_height = page_height;
        proof {
            assert(self@ =~= (PreviewView { page_height: page_height as int, ..old(self)@ }));
        }
    }
}

} // verus!
