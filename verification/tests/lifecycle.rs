use preview_state::command::{CmdResult, ErrorMsg, FilterOutcome, Internal};
use preview_state::path::FilePath;
use preview_state::pattern::InputPattern;
use preview_state::preview::{Preview, PreviewMode};
use preview_state::preview_state::PreviewState;

fn text_preview(lines: Vec<u64>) -> Preview {
    Preview::new(Some(PreviewMode::Text), true, lines)
}

fn hex_preview(lines: Vec<u64>) -> Preview {
    Preview::new(Some(PreviewMode::Hex), false, lines)
}

fn pat(raw: &str) -> InputPattern {
    InputPattern::from_raw(raw.to_owned())
}

fn text_state(lines: Vec<u64>) -> PreviewState {
    PreviewState::new(
        FilePath::new(vec!["a".to_owned(), "report.txt".to_owned()]),
        InputPattern::none(),
        Some(PreviewMode::Text),
        text_preview(lines),
    )
}

#[test]
fn exclusivity_lifecycle() {
    let mut st = text_state(vec![1, 2, 3, 4]);
    assert!(st.filtered_preview.is_none());
    assert!(matches!(st.on_pattern(pat("foo")), CmdResult::Keep));
    // requested but not yet materialized: no overlay
    assert!(st.filtered_preview.is_none());
    assert_eq!(st.get_pending_task(), Some("searching"));
    st.do_pending_task(FilterOutcome::Matched(vec![2, 4]));
    assert!(st.filtered_preview.is_some());
    assert_eq!(st.get_pending_task(), None);
    // clearing the pattern clears the overlay
    assert!(matches!(st.on_pattern(InputPattern::none()), CmdResult::Keep));
    assert!(st.filtered_preview.is_none());
    // a cancelled materialization leaves no overlay and no error
    assert!(matches!(st.on_pattern(pat("foo")), CmdResult::Keep));
    st.do_pending_task(FilterOutcome::Cancelled);
    assert!(st.filtered_preview.is_none());
    assert_eq!(st.get_pending_task(), None);
}

#[test]
fn selection_carry_over_into_overlay() {
    let mut st = text_state(vec![1, 2, 3, 4, 5]);
    st.preview.try_select_line_number(3);
    st.on_pattern(pat("x"));
    st.do_pending_task(FilterOutcome::Matched(vec![2, 3]));
    let overlay = st.filtered_preview.as_ref().unwrap();
    assert_eq!(overlay.lines, vec![2, 3]);
    assert_eq!(overlay.get_selected_line_number(), Some(3));
}

#[test]
fn selection_unset_when_line_filtered_out() {
    let mut st = text_state(vec![1, 2, 3, 4, 5]);
    st.preview.try_select_line_number(3);
    st.on_pattern(pat("x"));
    st.do_pending_task(FilterOutcome::Matched(vec![4]));
    let overlay = st.filtered_preview.as_ref().unwrap();
    assert_eq!(overlay.get_selected_line_number(), None);
}

#[test]
fn pattern_coalescing() {
    let mut st = text_state(vec![1, 2, 3]);
    st.on_pattern(pat("fo"));
    st.on_pattern(pat("foo"));
    // only the latest pattern is ever computed
    assert_eq!(st.get_pending_pattern().raw, "foo");
    st.do_pending_task(FilterOutcome::Matched(vec![1]));
    assert_eq!(st.filtered_preview.as_ref().unwrap().pattern.raw, "foo");
    assert_eq!(st.get_pending_task(), None);
}

#[test]
fn cancellation_then_reissue_matches_uninterrupted() {
    let mut direct = text_state(vec![1, 2, 3, 4]);
    direct.on_pattern(pat("p"));
    direct.do_pending_task(FilterOutcome::Matched(vec![1, 3]));

    let mut retried = text_state(vec![1, 2, 3, 4]);
    retried.on_pattern(pat("p"));
    retried.do_pending_task(FilterOutcome::Cancelled);
    assert!(retried.filtered_preview.is_none());
    retried.on_pattern(pat("p"));
    retried.do_pending_task(FilterOutcome::Matched(vec![1, 3]));

    let d = direct.filtered_preview.as_ref().unwrap();
    let r = retried.filtered_preview.as_ref().unwrap();
    assert_eq!(d.lines, r.lines);
    assert_eq!(d.pattern.raw, r.pattern.raw);
    assert_eq!(d.sel, r.sel);
}

#[test]
fn mode_noop_keeps_preview() {
    let mut st = text_state(vec![1, 2]);
    st.preview.try_select_line_number(2);
    // same mode: kept, no rebuild is even requested
    assert!(matches!(st.set_mode(PreviewMode::Text), CmdResult::Keep));
    assert_eq!(st.preview.get_mode(), Some(PreviewMode::Text));
    assert_eq!(st.preview.get_selected_line_number(), Some(2));
}

#[test]
fn mode_change_requests_build_then_installs() {
    let mut st = text_state(vec![1, 2]);
    match st.on_internal(Internal::PreviewBinary) {
        CmdResult::BuildPreview(mode) => assert!(matches!(mode, PreviewMode::Hex)),
        _ => panic!("expected a build request"),
    }
    let r = st.set_mode_built(PreviewMode::Hex, Ok(hex_preview(vec![1])));
    assert!(matches!(r, CmdResult::Keep));
    assert_eq!(st.preview.get_mode(), Some(PreviewMode::Hex));
    assert_eq!(st.prefered_mode, Some(PreviewMode::Hex));
}

#[test]
fn mode_failure_reports_and_keeps_state() {
    let mut st = text_state(vec![1, 2]);
    let r = st.set_mode_built(PreviewMode::Image, Err("corrupt image".to_owned()));
    match r {
        CmdResult::DisplayError(ErrorMsg::UnsupportedMode { mode, reason }) => {
            assert!(matches!(mode, PreviewMode::Image));
            assert_eq!(reason, "corrupt image");
        }
        _ => panic!("expected a mode error"),
    }
    assert_eq!(st.preview.get_mode(), Some(PreviewMode::Text));
    assert_eq!(st.prefered_mode, Some(PreviewMode::Text));
}

#[test]
fn mode_switch_invalidates_overlay_and_rearms_pattern() {
    let mut st = text_state(vec![1, 2, 3]);
    st.on_pattern(pat("foo"));
    st.do_pending_task(FilterOutcome::Matched(vec![2]));
    assert!(st.filtered_preview.is_some());
    st.set_mode_built(PreviewMode::Hex, Ok(hex_preview(vec![1, 2, 3])));
    assert!(st.filtered_preview.is_none());
    assert_eq!(st.get_pending_pattern().raw, "foo");
}

#[test]
fn not_filterable_rejects_pattern() {
    let mut st = PreviewState::new(
        FilePath::new(vec!["img.png".to_owned()]),
        InputPattern::none(),
        Some(PreviewMode::Hex),
        hex_preview(vec![1, 2]),
    );
    let r = st.on_pattern(pat("foo"));
    assert!(matches!(r, CmdResult::DisplayError(ErrorMsg::NotFilterable)));
    // the rejected pattern is not stored as pending
    assert_eq!(st.get_pending_task(), None);
    assert_eq!(st.get_pending_pattern().raw, "");
}

#[test]
fn back_clears_filter_then_pops() {
    let mut st = text_state(vec![1, 2, 3]);
    st.on_pattern(pat("foo"));
    st.do_pending_task(FilterOutcome::Matched(vec![1, 2]));
    assert!(matches!(st.on_internal(Internal::Back), CmdResult::Keep));
    assert!(st.filtered_preview.is_none());
    assert_eq!(st.removed_pattern.raw, "foo");
    assert!(matches!(st.on_internal(Internal::Back), CmdResult::PopState));
    assert_eq!(st.removed_pattern.raw, "foo");
}

#[test]
fn restore_rearms_removed_pattern() {
    let mut st = text_state(vec![1, 2, 3]);
    st.on_pattern(pat("foo"));
    st.do_pending_task(FilterOutcome::Matched(vec![1]));
    st.on_internal(Internal::Back);
    assert!(matches!(st.on_internal(Internal::PanelLeft), CmdResult::Keep));
    assert_eq!(st.get_pending_pattern().raw, "foo");
    assert_eq!(st.removed_pattern.raw, "");
}

#[test]
fn restore_without_removed_pattern_is_delegated() {
    let mut st = text_state(vec![1, 2, 3]);
    assert!(matches!(st.on_internal(Internal::PanelLeft), CmdResult::Delegate));
}

#[test]
fn drop_filter_action() {
    let mut st = text_state(vec![1, 2, 3]);
    // without an overlay the action is the generic engine's
    assert!(matches!(st.on_internal(Internal::PanelRight), CmdResult::Delegate));
    st.on_pattern(pat("q"));
    st.do_pending_task(FilterOutcome::Matched(vec![3]));
    assert!(matches!(st.on_internal(Internal::PanelRight), CmdResult::Keep));
    assert!(st.filtered_preview.is_none());
    assert_eq!(st.removed_pattern.raw, "q");
}

#[test]
fn path_change_invalidates_overlay_and_resumes_search() {
    let mut st = text_state(vec![1, 2, 3]);
    st.on_pattern(pat("foo"));
    st.do_pending_task(FilterOutcome::Matched(vec![2]));
    st.set_selected_path(
        FilePath::new(vec!["b".to_owned(), "other.txt".to_owned()]),
        text_preview(vec![1, 2]),
    );
    assert!(st.filtered_preview.is_none());
    assert_eq!(st.get_pending_pattern().raw, "foo");
    assert_eq!(
        st.selected_path().components,
        vec!["b".to_owned(), "other.txt".to_owned()]
    );
}

#[test]
fn status_summary() {
    let mut st = text_state(vec![1, 2]);
    let s = st.no_verb_status(true);
    assert!(s.has_previous_state);
    assert!(!s.is_filtered);
    assert!(!s.has_removed_pattern);
    st.on_pattern(pat("z"));
    st.do_pending_task(FilterOutcome::Matched(vec![1]));
    let s = st.no_verb_status(false);
    assert!(s.is_filtered);
    assert!(!s.has_removed_pattern);
    st.on_pattern(InputPattern::none());
    let s = st.no_verb_status(false);
    assert!(!s.is_filtered);
    assert!(s.has_removed_pattern);
}

#[test]
fn starting_input_prefers_overlay_pattern() {
    let mut st = text_state(vec![1, 2]);
    st.on_pattern(pat("pend"));
    assert_eq!(st.get_starting_input(), "pend");
    st.do_pending_task(FilterOutcome::Matched(vec![1]));
    st.on_pattern(pat("newer"));
    // overlay still shows "pend" until the newer pattern materializes
    assert_eq!(st.get_starting_input(), "pend");
}

#[test]
fn filter_keeps_base_order() {
    let mut st = text_state(vec![1, 2, 5, 9]);
    st.on_pattern(pat("m"));
    st.do_pending_task(FilterOutcome::Matched(vec![9, 5, 77]));
    assert_eq!(st.filtered_preview.as_ref().unwrap().lines, vec![5, 9]);
}

#[test]
fn end_to_end_scenario() {
    // path /a/report.txt, preferred mode Text, pattern "error"
    let mut st = text_state(vec![1, 2, 3, 4, 5, 6]);
    assert!(matches!(st.on_pattern(pat("error")), CmdResult::Keep));
    assert_eq!(st.get_pending_task(), Some("searching"));
    // poll phase: lines 1, 3 and 5 match
    st.do_pending_task(FilterOutcome::Matched(vec![1, 3, 5]));
    let overlay = st.filtered_preview.as_ref().unwrap();
    assert_eq!(overlay.lines, vec![1, 3, 5]);
    // select line 3 of the overlay (two steps down)
    st.on_internal(Internal::LineDown);
    st.on_internal(Internal::LineDown);
    assert_eq!(
        st.filtered_preview.as_ref().unwrap().get_selected_line_number(),
        Some(3)
    );
    // clearing the pattern carries the selection onto the base view
    st.on_pattern(InputPattern::none());
    assert!(st.filtered_preview.is_none());
    assert_eq!(st.preview.get_selected_line_number(), Some(3));
    assert_eq!(st.selection().line, 3);
}

#[test]
fn absent_pattern_without_overlay_changes_nothing() {
    let mut st = text_state(vec![1, 2]);
    assert!(matches!(st.on_pattern(InputPattern::none()), CmdResult::Keep));
    assert_eq!(st.get_pending_task(), None);
    assert!(st.filtered_preview.is_none());
    assert_eq!(st.removed_pattern.raw, "");
}

#[test]
fn pending_pattern_superseded_by_absent_one() {
    let mut st = text_state(vec![1, 2]);
    st.on_pattern(pat("a"));
    st.on_pattern(InputPattern::none());
    // the cleared input wiped the pending pattern: nothing to compute
    assert_eq!(st.get_pending_task(), None);
    st.do_pending_task(FilterOutcome::Matched(vec![1]));
    assert!(st.filtered_preview.is_none());
}

#[test]
fn empty_content_stays_quiet() {
    let mut st = text_state(Vec::new());
    st.on_internal(Internal::LineDown);
    st.on_internal(Internal::SelectLast);
    st.on_internal(Internal::PageDown);
    assert_eq!(st.preview.get_selected_line_number(), None);
    assert_eq!(st.preview.scroll, 0);
    st.on_pattern(pat("x"));
    st.do_pending_task(FilterOutcome::Matched(vec![1, 2]));
    let overlay = st.filtered_preview.as_ref().unwrap();
    assert!(overlay.lines.is_empty());
    assert_eq!(overlay.get_selected_line_number(), None);
}

#[test]
fn new_pattern_supersedes_stale_restore_slot() {
    let mut st = text_state(vec![1, 2, 3]);
    st.on_pattern(pat("foo"));
    st.do_pending_task(FilterOutcome::Matched(vec![1]));
    st.on_internal(Internal::Back);
    assert_eq!(st.removed_pattern.raw, "foo");
    st.on_pattern(pat("bar"));
    assert_eq!(st.removed_pattern.raw, "");
    assert!(matches!(st.on_internal(Internal::PanelLeft), CmdResult::Delegate));
}

#[test]
fn selection_line_zero_when_none() {
    let st = text_state(vec![1, 2]);
    assert_eq!(st.selection().line, 0);
    assert_eq!(
        st.selection().path.components,
        vec!["a".to_owned(), "report.txt".to_owned()]
    );
}
