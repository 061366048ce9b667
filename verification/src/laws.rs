use vstd::prelude::*;

use crate::preview::{PreviewMode, PreviewView};
use crate::preview_state::StateView;

verus! {

/// One transition of the controller, at the level of views: the
/// filter-lifecycle operations, and any steering of the effective
/// view (every selection, scroll, click and drawing-pass contract has
/// the [`StateView::with_effective`] shape).
pub enum Action {
    PatternChange(Seq<char>),
    Materialize(Option<Seq<u64>>),
    PathChange(Seq<Seq<char>>, PreviewView),
    ModeBuilt(PreviewMode, Option<PreviewView>),
    Back,
    Restore,
    Steer(PreviewView),
}

/// The state one action leads to.
pub open spec fn step(v: StateView, a: Action) -> StateView {
    match a {
        Action::PatternChange(p) => v.spec_on_pattern(p),
        Action::Materialize(o) => v.spec_materialize(o),
        Action::PathChange(p, b) => v.spec_set_selected_path(p, b),
        Action::ModeBuilt(m, b) => v.spec_set_mode_built(m, b),
        Action::Back => v.spec_back(),
        Action::Restore => v.spec_restore(),
        Action::Steer(p) => v.with_effective(p),
    }
}

/// The state a whole sequence of actions leads to.
pub open spec fn run(v: StateView, acts: Seq<Action>) -> StateView
    decreases acts.len(),
{
    if acts.len() == 0 {
        v
    } else {
        step(run(v, acts.drop_last()), acts.last())
    }
}

/// The action installs an overlay: it is a successful materialization
/// of a then-pending (non-absent) pattern over searchable content.
pub open spec fn installs_overlay(v: StateView, a: Action) -> bool {
    &&& a matches Action::Materialize(Some(_))
    &&& v.pending.len() > 0
    &&& v.base.filterable
}

/// The action leaves the presence of an overlay as it found it.
pub open spec fn keeps_overlay(v: StateView, a: Action) -> bool {
    step(v, a).filtered.is_some() == v.filtered.is_some()
}

/// Every action after position `i` kept the overlay's presence.
pub open spec fn kept_from(v0: StateView, acts: Seq<Action>, i: int) -> bool {
    forall|j: int| i < j < acts.len() ==> keeps_overlay(run(v0, #[trigger] acts.take(j)), acts[j])
}

/// One step can only leave an overlay behind by installing one or by
/// keeping one that was already there; and installing always leaves
/// one behind.
proof fn lemma_step_presence(v: StateView, a: Action)
    ensures
        step(v, a).filtered.is_some() ==> installs_overlay(v, a) || (v.filtered.is_some()
            && keeps_overlay(v, a)),
        installs_overlay(v, a) ==> step(v, a).filtered.is_some(),
{
}

proof fn lemma_kept_from_prefix(v0: StateView, acts: Seq<Action>, i: int)
    requires
        acts.len() > 0,
        i >= -1,
        kept_from(v0, acts, i),
    ensures
        kept_from(v0, acts.drop_last(), i),
{
    let prefix = acts.drop_last();
    assert forall|j: int| i < j < prefix.len() implies keeps_overlay(
        run(v0, #[trigger] prefix.take(j)),
        prefix[j],
    ) by {
        assert(acts.take(j) =~= prefix.take(j));
        assert(keeps_overlay(run(v0, acts.take(j)), acts[j]));
    }
}

proof fn lemma_kept_from_extend(v0: StateView, acts: Seq<Action>, i: int)
    requires
        acts.len() > 0,
        i >= -1,
        kept_from(v0, acts.drop_last(), i),
        keeps_overlay(run(v0, acts.drop_last()), acts.last()),
    ensures
        kept_from(v0, acts, i),
{
    let prefix = acts.drop_last();
    let n = acts.len() as int;
    assert forall|j: int| i < j < n implies keeps_overlay(
        run(v0, #[trigger] acts.take(j)),
        acts[j],
    ) by {
        if j == n - 1 {
            assert(acts.take(j) =~= prefix);
        } else {
            assert(acts.take(j) =~= prefix.take(j));
            assert(keeps_overlay(run(v0, prefix.take(j)), prefix[j]));
        }
    }
}

/// Exclusivity, over any sequence of operations: the overlay is
/// present after a run exactly when some action installed one — a
/// successful materialization of the then most recently entered,
/// still pending, non-absent pattern — and no later action cleared it
/// (or an overlay was present from the start and nothing cleared it).
/// The clearing actions are exactly the dismissals: an absent pattern
/// change, Back over an overlay, a path change, a successful mode
/// switch, and a materialization that was cancelled or found the base
/// view unsearchable.
pub proof fn lemma_exclusivity_history(v0: StateView, acts: Seq<Action>)
    ensures
        run(v0, acts).filtered.is_some() <==> {
            ||| (v0.filtered.is_some() && kept_from(v0, acts, -1))
            ||| exists|i: int|
                0 <= i < acts.len() && installs_overlay(run(v0, #[trigger] acts.take(i)), acts[i])
                    && kept_from(v0, acts, i)
        },
    decreases acts.len(),
{
    if acts.len() == 0 {
    } else {
        let n = acts.len() as int;
        let prefix = acts.drop_last();
        let last = acts.last();
        let s = run(v0, prefix);
        lemma_exclusivity_history(v0, prefix);
        lemma_step_presence(s, last);
        assert(prefix =~= acts.take(n - 1));
        assert forall|j: int| 0 <= j < n - 1 implies #[trigger] acts.take(j) =~= prefix.take(j)
            && acts[j] == prefix[j] by {
            assert(acts.take(j) =~= prefix.take(j));
        }
        if run(v0, acts).filtered.is_some() {
            if installs_overlay(s, last) {
                assert(installs_overlay(run(v0, acts.take(n - 1)), acts[n - 1]));
                assert(kept_from(v0, acts, n - 1));
            } else {
                // the overlay predates the last action, which kept it
                assert(s.filtered.is_some() && keeps_overlay(s, last));
                if v0.filtered.is_some() && kept_from(v0, prefix, -1) {
                    lemma_kept_from_extend(v0, acts, -1);
                } else {
                    let i = choose|i: int|
                        0 <= i < prefix.len() && installs_overlay(
                            run(v0, #[trigger] prefix.take(i)),
                            prefix[i],
                        ) && kept_from(v0, prefix, i);
                    assert(installs_overlay(run(v0, acts.take(i)), acts[i]));
                    lemma_kept_from_extend(v0, acts, i);
                }
            }
        } else {
            // no overlay at the end: no install was kept throughout
            if v0.filtered.is_some() && kept_from(v0, acts, -1) {
                assert(keeps_overlay(run(v0, acts.take(n - 1)), acts[n - 1]));
                lemma_kept_from_prefix(v0, acts, -1);
                assert(s.filtered.is_some());
                assert(false);
            }
            assert forall|i: int|
                0 <= i < n && installs_overlay(run(v0, #[trigger] acts.take(i)), acts[i]) implies
                !kept_from(v0, acts, i) by {
                if kept_from(v0, acts, i) {
                    if i == n - 1 {
                        assert(step(s, last).filtered.is_some());
                    } else {
                        assert(installs_overlay(run(v0, prefix.take(i)), prefix[i]));
                        lemma_kept_from_prefix(v0, acts, i);
                        assert(s.filtered.is_some());
                        assert(keeps_overlay(run(v0, acts.take(n - 1)), acts[n - 1]));
                    }
                    assert(false);
                }
            }
        }
    }
}

/// Exclusivity, creation side: the one and only transition that brings
/// an overlay into existence is a successful materialization of a
/// present pending pattern over searchable content, and the overlay it
/// installs carries exactly that pattern.  Together with
/// [`lemma_exclusivity_cleared`] and the per-operation contracts (every
/// other operation either keeps the overlay untouched or removes it),
/// the overlay is present if and only if the most recently applied
/// pattern was successfully materialized and not since cleared.
pub proof fn lemma_exclusivity_created(v: StateView, outcome: Option<Seq<u64>>)
    requires
        v.inv(),
        v.filtered.is_none(),
    ensures
        v.spec_materialize(outcome).filtered.is_some() <==> (v.pending.len() > 0
            && outcome.is_some() && v.base.filterable),
        v.spec_materialize(outcome).filtered.is_some() ==> v.spec_materialize(
            outcome,
        ).filtered.unwrap().pattern == v.pending,
{
}

/// Exclusivity, clearing side: dismissing the filter (an absent
/// pattern change, which is also what Back and the drop-filter action
/// perform with an overlay active), a cancelled materialization of a
/// present pattern, and a path change all leave no overlay behind.
pub proof fn lemma_exclusivity_cleared(v: StateView, path: Seq<Seq<char>>, base: PreviewView)
    requires
        v.inv(),
    ensures
        v.spec_on_pattern(Seq::empty()).filtered.is_none(),
        v.pending.len() > 0 ==> v.spec_materialize(None).filtered.is_none(),
        v.spec_set_selected_path(path, base).filtered.is_none(),
{
}

/// Selection carry-over: materializing a filter over an effective view
/// with selected line `L` leaves `L` selected in the overlay exactly
/// when the filtered result still has a line numbered `L`; otherwise
/// the overlay's selection is unset — never an error.
pub proof fn lemma_selection_carry_over(v: StateView, matched: Seq<u64>, line: u64)
    requires
        v.inv(),
        v.pending.len() > 0,
        v.base.filterable,
        v.carried_selection() == Some(line),
    ensures
        ({
            let overlay = v.spec_materialize(Some(matched)).filtered.unwrap();
            &&& overlay.lines.contains(line) ==> overlay.selected_line() == Some(line)
            &&& !overlay.lines.contains(line) ==> overlay.sel.is_none()
        }),
{
    let overlay = v.spec_materialize(Some(matched)).filtered.unwrap();
    overlay.lines.index_of_first_ensures(line);
}

/// Pattern coalescing: two pattern changes before any materialization
/// leave only the second pending, and the overlay a following
/// successful materialization installs carries the second pattern —
/// the first is never computed.
pub proof fn lemma_pattern_coalescing(v: StateView, p1: Seq<char>, p2: Seq<char>, matched: Seq<
    u64,
>)
    requires
        v.inv(),
        p1.len() > 0,
        p2.len() > 0,
        v.base.filterable,
    ensures
        ({
            let v2 = v.spec_on_pattern(p1).spec_on_pattern(p2);
            &&& v2.pending == p2
            &&& v2.spec_materialize(Some(matched)).filtered.unwrap().pattern == p2
        }),
{
}

/// Cancellation safety: cancelling a materialization for a pattern,
/// then re-issuing the same pattern, makes the next materialization
/// produce exactly the overlay an uninterrupted materialization would
/// have produced.  (Stated from a state with no overlay on display:
/// dropping an overlay is what a cancelled run does, so the two paths
/// could otherwise start from different carried selections.)
pub proof fn lemma_cancellation_safety(v: StateView, matched: Seq<u64>)
    requires
        v.inv(),
        v.filtered.is_none(),
        v.pending.len() > 0,
        v.base.filterable,
    ensures
        v.spec_materialize(None).spec_on_pattern(v.pending).spec_materialize(
            Some(matched),
        ).filtered == v.spec_materialize(Some(matched)).filtered,
{
    let direct = v.spec_materialize(Some(matched));
    let retried = v.spec_materialize(None).spec_on_pattern(v.pending).spec_materialize(
        Some(matched),
    );
    assert(retried.filtered.unwrap() =~= direct.filtered.unwrap());
}

/// Back semantics: with an overlay active, Back clears the overlay,
/// stashes its pattern in the restore slot and keeps the panel; a
/// second Back, with no overlay left, changes nothing and pops the
/// panel (the result values are fixed by the dispatch contract of
/// [`crate::preview_state::PreviewState::on_internal`]).
pub proof fn lemma_back_semantics(v: StateView)
    requires
        v.inv(),
        v.filtered.is_some(),
    ensures
        v.spec_back().filtered.is_none(),
        v.spec_back().removed == v.filtered.unwrap().pattern,
        v.spec_back().removed.len() > 0,
        v.spec_back().spec_back() == v.spec_back(),
{
    assert(v.spec_back().spec_back() =~= v.spec_back());
}

/// Restore: after Back has dismissed an overlay, the restore action
/// re-arms the dismissed pattern as pending and disarms the restore
/// slot.
pub proof fn lemma_restore(v: StateView)
    requires
        v.inv(),
        v.filtered.is_some(),
    ensures
        v.spec_back().spec_restore().pending == v.filtered.unwrap().pattern,
        v.spec_back().spec_restore().removed.len() == 0,
{
}

/// The state invariant is preserved by every lifecycle transition (the
/// per-operation contracts restate this of the executable operations;
/// this is the same fact at the level of the transition functions, for
/// chaining transitions in proofs).
pub proof fn lemma_inv_preserved(
    v: StateView,
    pat: Seq<char>,
    outcome: Option<Seq<u64>>,
    path: Seq<Seq<char>>,
    base: PreviewView,
)
    requires
        v.inv(),
        base.wf(),
    ensures
        v.spec_on_pattern(pat).inv(),
        v.spec_materialize(outcome).inv(),
        v.spec_set_selected_path(path, base).inv(),
        v.spec_restore().inv(),
        v.spec_back().inv(),
{
    match v.filtered {
        Some(f) => match f.selected_line() {
            Some(n) => {
                v.base.lines.index_of_first_ensures(n);
            },
            None => {},
        },
        None => {},
    }
    if v.pending.len() > 0 {
        match outcome {
            Some(matched) => {
                if v.base.filterable {
                    let overlay = v.materialized_overlay(matched);
                    overlay.lines.index_of_first_ensures(
                        match v.carried_selection() {
                            Some(n) => n,
                            None => 0u64,
                        },
                    );
                    assert(overlay.wf());
                }
            },
            None => {},
        }
    }
}

} // verus!
