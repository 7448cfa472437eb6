use blame_browser::nav::{Action, KeyInput, Outcome};
use blame_browser::state::{AttributionLine, CommitId, NavigationState, OverlayText};

fn rows(commits: &[u64]) -> Vec<AttributionLine> {
    commits
        .iter()
        .enumerate()
        .map(|(i, id)| AttributionLine {
            commit: CommitId { id: *id },
            display: format!("line {}", i),
        })
        .collect()
}

fn listing(n: u64) -> Vec<AttributionLine> {
    rows(&(0..n).collect::<Vec<u64>>())
}

fn overlay_text(n: usize) -> OverlayText {
    OverlayText {
        lines: (0..n).map(|i| format!("history {}", i)).collect(),
    }
}

#[test]
fn new_session_starts_clean() {
    let s = NavigationState::new(CommitId { id: 42 });
    assert_eq!(s.attribution.len(), 0);
    assert_eq!(s.selection, None);
    assert_eq!(s.commit_stack, vec![CommitId { id: 42 }]);
    assert!(s.history_overlay.is_none());
}

#[test]
fn first_move_down_activates_selection_at_top() {
    // Five attribution lines and no selection: one move-down selects row 0.
    let mut s = NavigationState::new(CommitId { id: 0 });
    s.apply_attribution(listing(5));
    assert_eq!(s.selection, None);
    let r = s.handle_event(KeyInput::MoveDown, 20);
    assert_eq!(s.selection, Some(0));
    assert!(matches!(r.outcome, Outcome::Continue));
    assert_eq!(r.action, Action::Nothing);
}

#[test]
fn first_move_up_also_activates_selection_at_top() {
    // Activation lands on row 0 regardless of the step's direction.
    let mut s = NavigationState::new(CommitId { id: 0 });
    s.apply_attribution(listing(5));
    s.handle_event(KeyInput::MoveUp, 20);
    assert_eq!(s.selection, Some(0));
}

#[test]
fn move_up_at_top_stays_clamped() {
    let mut s = NavigationState::new(CommitId { id: 0 });
    s.apply_attribution(listing(5));
    s.handle_event(KeyInput::MoveDown, 20);
    assert_eq!(s.selection, Some(0));
    s.handle_event(KeyInput::MoveUp, 20);
    assert_eq!(s.selection, Some(0));
}

#[test]
fn move_down_clamps_at_last_row() {
    let mut s = NavigationState::new(CommitId { id: 0 });
    s.apply_attribution(listing(3));
    for _ in 0..10 {
        s.handle_event(KeyInput::MoveDown, 20);
    }
    assert_eq!(s.selection, Some(2));
}

#[test]
fn half_page_moves_selection_by_half_viewport() {
    let mut s = NavigationState::new(CommitId { id: 0 });
    s.apply_attribution(listing(30));
    s.handle_event(KeyInput::MoveDown, 20);
    assert_eq!(s.selection, Some(0));
    s.handle_event(KeyInput::HalfPageDown, 21);
    assert_eq!(s.selection, Some(10));
    s.handle_event(KeyInput::HalfPageUp, 21);
    assert_eq!(s.selection, Some(0));
}

#[test]
fn scroll_on_empty_attribution_is_a_noop() {
    let mut s = NavigationState::new(CommitId { id: 0 });
    s.handle_event(KeyInput::MoveDown, 20);
    assert_eq!(s.selection, None);
    s.handle_event(KeyInput::HalfPageUp, 20);
    assert_eq!(s.selection, None);
}

#[test]
fn confirm_requests_log_follow_for_selected_line() {
    let mut s = NavigationState::new(CommitId { id: 9 });
    s.apply_attribution(listing(4));
    s.handle_event(KeyInput::MoveDown, 20);
    s.handle_event(KeyInput::MoveDown, 20);
    let r = s.handle_event(KeyInput::Confirm, 20);
    assert_eq!(
        r.action,
        Action::FetchLogFollow {
            line: 1,
            commit: CommitId { id: 9 },
        }
    );
    assert!(matches!(r.outcome, Outcome::Continue));
}

#[test]
fn confirm_without_selection_does_nothing() {
    let mut s = NavigationState::new(CommitId { id: 9 });
    s.apply_attribution(listing(4));
    let r = s.handle_event(KeyInput::Confirm, 20);
    assert_eq!(r.action, Action::Nothing);
}

#[test]
fn descend_request_names_the_selected_rows_commit() {
    let mut s = NavigationState::new(CommitId { id: 0 });
    s.apply_attribution(rows(&[10, 11, 12]));
    s.handle_event(KeyInput::MoveDown, 20);
    s.handle_event(KeyInput::MoveDown, 20);
    s.handle_event(KeyInput::MoveDown, 20);
    assert_eq!(s.selection, Some(2));
    let r = s.handle_event(KeyInput::Descend, 20);
    assert_eq!(
        r.action,
        Action::FetchParent {
            line: 2,
            commit: CommitId { id: 12 },
        }
    );
}

#[test]
fn failed_descend_leaves_state_unchanged() {
    // Selection on row 2 of a 3-line list whose commit has no parent: the
    // dispatch itself changes nothing, and when the parent lookup fails the
    // caller applies nothing, so attribution, selection and commit stack
    // keep their values.
    let mut s = NavigationState::new(CommitId { id: 0 });
    s.apply_attribution(rows(&[10, 11, 12]));
    for _ in 0..3 {
        s.handle_event(KeyInput::MoveDown, 20);
    }
    let r = s.handle_event(KeyInput::Descend, 20);
    assert!(matches!(r.action, Action::FetchParent { .. }));
    // The parent lookup fails here; no apply_descend happens.
    assert_eq!(s.attribution.len(), 3);
    assert_eq!(s.attribution[2].commit, CommitId { id: 12 });
    assert_eq!(s.selection, Some(2));
    assert_eq!(s.commit_stack, vec![CommitId { id: 0 }]);
}

#[test]
fn descend_then_ascend_restores_the_stack() {
    // Stack [C0]; a successful descend to parent C1 pushes it; the ascend
    // request names C0 again, and applying its recomputed attribution pops
    // back to [C0].
    let c0 = CommitId { id: 0 };
    let c1 = CommitId { id: 1 };
    let mut s = NavigationState::new(c0);
    s.apply_attribution(rows(&[0]));
    s.handle_event(KeyInput::MoveDown, 20);
    let r = s.handle_event(KeyInput::Descend, 20);
    assert_eq!(r.action, Action::FetchParent { line: 0, commit: c0 });
    s.apply_descend(c1, rows(&[1, 1]));
    assert_eq!(s.commit_stack, vec![c0, c1]);

    let r = s.handle_event(KeyInput::Ascend, 20);
    assert_eq!(r.action, Action::FetchBlame { commit: c0 });
    s.apply_ascend(rows(&[0]));
    assert_eq!(s.commit_stack, vec![c0]);
    assert_eq!(s.attribution.len(), 1);
    assert_eq!(s.attribution[0].commit, c0);
}

#[test]
fn ascend_at_session_start_does_nothing() {
    let mut s = NavigationState::new(CommitId { id: 3 });
    s.apply_attribution(listing(2));
    let r = s.handle_event(KeyInput::Ascend, 20);
    assert_eq!(r.action, Action::Nothing);
    assert_eq!(s.commit_stack, vec![CommitId { id: 3 }]);
}

#[test]
fn descend_reclamps_selection_to_shorter_attribution() {
    let mut s = NavigationState::new(CommitId { id: 0 });
    s.apply_attribution(listing(5));
    for _ in 0..5 {
        s.handle_event(KeyInput::MoveDown, 20);
    }
    assert_eq!(s.selection, Some(4));
    s.apply_descend(CommitId { id: 1 }, listing(2));
    assert_eq!(s.selection, Some(1));
}

#[test]
fn reclamping_on_empty_attribution_clears_selection() {
    let mut s = NavigationState::new(CommitId { id: 0 });
    s.apply_attribution(listing(5));
    s.handle_event(KeyInput::MoveDown, 20);
    s.apply_attribution(Vec::new());
    assert_eq!(s.selection, None);
}

#[test]
fn overlay_scroll_clamps_to_content() {
    // Overlay of 100 rows in a 20-row viewport, offset 0: each half-page is
    // 10; two of them reach 20, and repeating clamps at 100 - 20 = 80.
    let mut s = NavigationState::new(CommitId { id: 0 });
    s.apply_log_follow(overlay_text(100));
    let ov = s.history_overlay.as_ref().unwrap();
    assert_eq!(ov.offset, 0);
    s.handle_event(KeyInput::HalfPageDown, 20);
    s.handle_event(KeyInput::HalfPageDown, 20);
    assert_eq!(s.history_overlay.as_ref().unwrap().offset, 20);
    for _ in 0..20 {
        s.handle_event(KeyInput::HalfPageDown, 20);
    }
    assert_eq!(s.history_overlay.as_ref().unwrap().offset, 80);
    s.handle_event(KeyInput::MoveDown, 20);
    assert_eq!(s.history_overlay.as_ref().unwrap().offset, 80);
}

#[test]
fn overlay_scroll_up_saturates_at_zero() {
    let mut s = NavigationState::new(CommitId { id: 0 });
    s.apply_log_follow(overlay_text(100));
    s.handle_event(KeyInput::MoveDown, 20);
    assert_eq!(s.history_overlay.as_ref().unwrap().offset, 1);
    s.handle_event(KeyInput::HalfPageUp, 20);
    assert_eq!(s.history_overlay.as_ref().unwrap().offset, 0);
    s.handle_event(KeyInput::MoveUp, 20);
    assert_eq!(s.history_overlay.as_ref().unwrap().offset, 0);
}

#[test]
fn short_overlay_never_scrolls() {
    let mut s = NavigationState::new(CommitId { id: 0 });
    s.apply_log_follow(overlay_text(5));
    s.handle_event(KeyInput::HalfPageDown, 20);
    assert_eq!(s.history_overlay.as_ref().unwrap().offset, 0);
}

#[test]
fn overlay_scroll_leaves_list_selection_alone() {
    let mut s = NavigationState::new(CommitId { id: 0 });
    s.apply_attribution(listing(5));
    s.handle_event(KeyInput::MoveDown, 20);
    assert_eq!(s.selection, Some(0));
    s.apply_log_follow(overlay_text(50));
    s.handle_event(KeyInput::MoveDown, 20);
    assert_eq!(s.selection, Some(0));
}

#[test]
fn overlay_blocks_confirm_descend_and_ascend() {
    let mut s = NavigationState::new(CommitId { id: 0 });
    s.apply_attribution(listing(3));
    s.handle_event(KeyInput::MoveDown, 20);
    s.apply_descend(CommitId { id: 1 }, listing(3));
    s.apply_log_follow(overlay_text(10));
    assert_eq!(s.handle_event(KeyInput::Confirm, 20).action, Action::Nothing);
    assert_eq!(s.handle_event(KeyInput::Descend, 20).action, Action::Nothing);
    assert_eq!(s.handle_event(KeyInput::Ascend, 20).action, Action::Nothing);
}

#[test]
fn quit_without_overlay_terminates() {
    let mut s = NavigationState::new(CommitId { id: 0 });
    s.apply_attribution(listing(3));
    let r = s.handle_event(KeyInput::Quit, 20);
    assert!(matches!(r.outcome, Outcome::Terminate));
    assert_eq!(s.attribution.len(), 3);
}

#[test]
fn quit_with_overlay_dismisses_then_terminates() {
    let mut s = NavigationState::new(CommitId { id: 0 });
    s.apply_log_follow(overlay_text(10));
    let r = s.handle_event(KeyInput::Quit, 20);
    assert!(matches!(r.outcome, Outcome::Continue));
    assert!(s.history_overlay.is_none());
    let r = s.handle_event(KeyInput::Quit, 20);
    assert!(matches!(r.outcome, Outcome::Terminate));
}

#[test]
fn reopened_overlay_starts_unscrolled() {
    let mut s = NavigationState::new(CommitId { id: 0 });
    s.apply_log_follow(overlay_text(100));
    s.handle_event(KeyInput::HalfPageDown, 20);
    assert_eq!(s.history_overlay.as_ref().unwrap().offset, 10);
    s.handle_event(KeyInput::Quit, 20);
    s.apply_log_follow(overlay_text(100));
    assert_eq!(s.history_overlay.as_ref().unwrap().offset, 0);
}

#[test]
fn other_keys_are_ignored() {
    let mut s = NavigationState::new(CommitId { id: 0 });
    s.apply_attribution(listing(3));
    s.handle_event(KeyInput::MoveDown, 20);
    let r = s.handle_event(KeyInput::Other, 20);
    assert!(matches!(r.outcome, Outcome::Continue));
    assert_eq!(r.action, Action::Nothing);
    assert_eq!(s.selection, Some(0));
    assert_eq!(s.attribution.len(), 3);
}
