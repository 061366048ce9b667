use vstd::prelude::*;

use crate::path::FilePath;
use crate::preview::PreviewMode;

verus! {

/// The fixed set of discrete actions the panel interprets itself.
/// Anything outside this set is the host's generic verb engine's
/// business and never reaches the controller.
#[derive(Clone, Copy, PartialEq, Eq, Structural, Debug)]
pub enum Internal {
    Back,
    LineDown,
    LineUp,
    PageDown,
    PageUp,
    PanelLeft,
    PanelRight,
    SelectFirst,
    SelectLast,
    PreviewImage,
    PreviewText,
    PreviewBinary,
}

/// A user-visible error raised by the controller.  The host renders it;
/// the controller's state is left unchanged whenever one is raised.
pub enum ErrorMsg {
    /// The preview could not be built in the requested mode; `reason`
    /// is the host's description of the underlying failure.
    UnsupportedMode { mode: PreviewMode, reason: String },
    /// A pattern was entered against a view that cannot be searched.
    NotFilterable,
}

/// What one command invocation asks of the host.
pub enum CmdResult {
    /// The panel stays as it is (possibly with its state mutated).
    Keep,
    /// The host should pop this panel off its stack.
    PopState,
    /// The host should display this error; the state was not changed.
    DisplayError(ErrorMsg),
    /// The host should build a preview of the current path in this mode
    /// and hand the outcome to [`crate::preview_state::PreviewState::set_mode_built`].
    BuildPreview(PreviewMode),
    /// The action is not this panel's to handle: the host's generic
    /// verb engine takes it, unchanged.
    Delegate,
}

/// The outcome the host reports for one filtering run: either the
/// cancellation signal fired (or newer input superseded the run), or
/// the matcher finished and these are the numbers of the matching
/// lines.
pub enum FilterOutcome {
    Cancelled,
    Matched(Vec<u64>),
}

/// What the panel currently designates, for the host's status bar.
pub struct Selection {
    pub path: FilePath,
    /// The selected line number of the base view, or 0 when none.
    pub line: u64,
}

/// The status summary the host shows when no verb is being typed.
#[derive(Clone, Copy, PartialEq, Eq, Structural, Debug)]
pub struct Status {
    pub has_previous_state: bool,
    pub is_filtered: bool,
    pub has_removed_pattern: bool,
}

} // verus!
