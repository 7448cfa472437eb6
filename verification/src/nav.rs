//! Key-event dispatch: the navigation controller's transition logic.
//!
//! `handle_event` interprets one key in the current view mode. Transitions
//! that need the history provider (log-follow, parent lookup, blame) do not
//! mutate the state; they return an [`Action`] naming the lookup, and the
//! caller feeds the owned result back through one of the `apply_*`
//! operations. A failed lookup is therefore all-or-nothing by construction:
//! the caller simply never applies a result it did not get.

use vstd::prelude::*;

use crate::state::AttributionLine;
use crate::state::CommitId;
use crate::state::NavigationState;
use crate::state::Overlay;
use crate::state::OverlayModel;
use crate::state::OverlayText;
use crate::state::StateModel;

verus! {

/// A decoded key event, already stripped of terminal details.
#[derive(Clone, Copy, PartialEq, Eq, Structural, Debug)]
pub enum KeyInput {
    MoveDown,
    MoveUp,
    HalfPageDown,
    HalfPageUp,
    Confirm,
    Descend,
    Ascend,
    Quit,
    Other,
}

/// What one dispatched event means for the session as a whole.
#[derive(Debug)]
pub enum Outcome {
    /// Keep running.
    Continue,
    /// End the session.
    Terminate,
    /// A history lookup failed; the state is unchanged and the message is
    /// shown until dismissed. Produced by the caller when a lookup it was
    /// asked to perform fails.
    RecoverableError(String),
}

/// A history-provider lookup that the dispatched event asks the caller to
/// perform. Each names the `apply_*` operation that consumes its result.
#[derive(Clone, Copy, PartialEq, Eq, Structural, Debug)]
pub enum Action {
    /// No lookup is needed.
    Nothing,
    /// Compute the line history of row `line` at `commit` (the current top);
    /// feed the text to [`NavigationState::apply_log_follow`].
    FetchLogFollow { line: usize, commit: CommitId },
    /// Look up the immediate parent of `commit` (the commit of row `line`),
    /// then the parent's attribution; feed both to
    /// [`NavigationState::apply_descend`].
    FetchParent { line: usize, commit: CommitId },
    /// Compute the attribution of `commit` (the commit below the top); feed
    /// it to [`NavigationState::apply_ascend`].
    FetchBlame { commit: CommitId },
}

/// Result of dispatching one key event.
#[derive(Debug)]
pub struct StepResult {
    pub outcome: Outcome,
    pub action: Action,
}

/// Re-clamp a selection after the attribution was replaced by one of
/// `new_len` rows: an absent selection stays absent, a present one is pulled
/// up to the last row, and an empty attribution clears it.
pub open spec fn clamped_selection(sel: Option<int>, new_len: int) -> Option<int> {
    match sel {
        None => None,
        Some(i) => if new_len <= 0 {
            None
        } else if i < new_len {
            Some(i)
        } else {
            Some(new_len - 1)
        },
    }
}

/// Largest overlay scroll offset that still shows content: the rows that do
/// not fit in the viewport, and 0 when everything fits.
pub open spec fn overlay_max_offset(content_height: int, viewport_height: int) -> int {
    if content_height > viewport_height {
        content_height - viewport_height
    } else {
        0
    }
}

/// Move `cur` down by `amount`, clamped into `[0, cap]`.
pub open spec fn step_down(cur: int, amount: int, cap: int) -> int {
    if cur + amount > cap {
        cap
    } else {
        cur + amount
    }
}

/// Move `cur` up by `amount`, clamped into `[0, cap]`.
pub open spec fn step_up(cur: int, amount: int, cap: int) -> int {
    let moved = if cur - amount < 0 {
        0
    } else {
        cur - amount
    };
    if moved > cap {
        cap
    } else {
        moved
    }
}

/// The scroll routine shared by both view modes: with an overlay open it
/// scrolls the overlay within its content, otherwise it moves the list
/// selection, where the first movement on an unselected non-empty list lands
/// on row 0 and an empty list ignores scrolling entirely.
pub open spec fn spec_scroll(m: StateModel, down: bool, amount: int, viewport_height: int) -> StateModel {
    match m.overlay {
        Some(ov) => {
            let cap = overlay_max_offset(ov.lines.len() as int, viewport_height);
            let moved = if down {
                step_down(ov.offset, amount, cap)
            } else {
                step_up(ov.offset, amount, cap)
            };
            StateModel { overlay: Some(OverlayModel { lines: ov.lines, offset: moved }), ..m }
        },
        None => {
            if m.attribution.len() == 0 {
                m
            } else {
                match m.selection {
                    None => StateModel { selection: Some(0), ..m },
                    Some(i) => {
                        let cap = m.attribution.len() - 1;
                        let moved = if down {
                            step_down(i, amount, cap)
                        } else {
                            step_up(i, amount, cap)
                        };
                        StateModel { selection: Some(moved), ..m }
                    },
                }
            }
        },
    }
}

/// Replacing the attribution wholesale (a recomputation for the current
/// top): the selection is re-clamped, nothing else moves.
pub open spec fn spec_apply_attribution(m: StateModel, attr: Seq<AttributionLine>) -> StateModel {
    StateModel {
        attribution: attr,
        selection: clamped_selection(m.selection, attr.len() as int),
        ..m
    }
}

/// Descending to `parent`: its attribution replaces the current one, the
/// selection is re-clamped, and `parent` becomes the new top.
pub open spec fn spec_apply_descend(m: StateModel, parent: CommitId, attr: Seq<AttributionLine>) -> StateModel {
    StateModel {
        attribution: attr,
        selection: clamped_selection(m.selection, attr.len() as int),
        commit_stack: m.commit_stack.push(parent),
        ..m
    }
}

/// Ascending back to the child: the top is popped, the new top's
/// attribution replaces the current one, and the selection is re-clamped.
pub open spec fn spec_apply_ascend(m: StateModel, attr: Seq<AttributionLine>) -> StateModel {
    StateModel {
        attribution: attr,
        selection: clamped_selection(m.selection, attr.len() as int),
        commit_stack: m.commit_stack.drop_last(),
        ..m
    }
}

/// Opening the overlay on freshly computed line history: scrolled to the top.
pub open spec fn spec_apply_log_follow(m: StateModel, lines: Seq<String>) -> StateModel {
    StateModel { overlay: Some(OverlayModel { lines, offset: 0 }), ..m }
}

/// The full transition table: one key event in the current view mode maps
/// to the next state, the session outcome, and the lookup it asks for.
pub open spec fn spec_step(m: StateModel, key: KeyInput, viewport_height: int) -> (StateModel, Outcome, Action) {
    match key {
        KeyInput::MoveDown => (spec_scroll(m, true, 1, viewport_height), Outcome::Continue, Action::Nothing),
        KeyInput::MoveUp => (spec_scroll(m, false, 1, viewport_height), Outcome::Continue, Action::Nothing),
        KeyInput::HalfPageDown => (
            spec_scroll(m, true, viewport_height / 2, viewport_height),
            Outcome::Continue,
            Action::Nothing,
        ),
        KeyInput::HalfPageUp => (
            spec_scroll(m, false, viewport_height / 2, viewport_height),
            Outcome::Continue,
            Action::Nothing,
        ),
        KeyInput::Confirm => {
            if !m.overlay_open() && m.selection is Some {
                (
                    m,
                    Outcome::Continue,
                    Action::FetchLogFollow { line: m.selection->0 as usize, commit: m.top() },
                )
            } else {
                (m, Outcome::Continue, Action::Nothing)
            }
        },
        KeyInput::Descend => {
            if !m.overlay_open() && m.selection is Some {
                (
                    m,
                    Outcome::Continue,
                    Action::FetchParent {
                        line: m.selection->0 as usize,
                        commit: m.attribution[m.selection->0].commit,
                    },
                )
            } else {
                (m, Outcome::Continue, Action::Nothing)
            }
        },
        KeyInput::Ascend => {
            if !m.overlay_open() && m.commit_stack.len() > 1 {
                (
                    m,
                    Outcome::Continue,
                    Action::FetchBlame { commit: m.commit_stack[m.commit_stack.len() - 2] },
                )
            } else {
                (m, Outcome::Continue, Action::Nothing)
            }
        },
        KeyInput::Quit => {
            match m.overlay {
                Some(_) => (StateModel { overlay: None, ..m }, Outcome::Continue, Action::Nothing),
                None => (m, Outcome::Terminate, Action::Nothing),
            }
        },
        KeyInput::Other => (m, Outcome::Continue, Action::Nothing),
    }
}

impl NavigationState {
    /// The scroll routine: overlay offset when an overlay is open, list
    /// selection otherwise.
    fn scroll(&mut self, down: bool, amount: usize, viewport_height: u16)
        requires
            old(self).wf(),
        ensures
            final(self).wf(),
            final(self)@ == spec_scroll(old(self)@, down, amount as int, viewport_height as int),
    {
        match &mut self.history_overlay {
            Some(ov) => {
                let height = ov.content.lines.len();
                let vh = viewport_height as usize;
                let cap: usize = if height > vh {
                    height - vh
                } else {
                    0
                };
                let cur = ov.offset;
                let moved: usize = if down {
                    if cur > cap {
                        cap
                    } else if amount > cap - cur {
                        cap
                    } else {
                        cur + amount
                    }
                } else {
                    let dropped: usize = if cur >= amount {
                        cur - amount
                    } else {
                        0
                    };
                    if dropped > cap {
                        cap
                    } else {
                        dropped
                    }
                };
                ov.offset = moved;
            },
            None => {
                let len = self.attribution.len();
                if len > 0 {
                    match self.selection {
                        Some(i) => {
                            let cap: usize = len - 1;
                            let moved: usize = if down {
                                if i > cap {
                                    cap
                                } else if amount > cap - i {
                                    cap
                                } else {
                                    i + amount
                                }
                            } else {
                                let dropped: usize = if i >= amount {
                                    i - amount
                                } else {
                                    0
                                };
                                if dropped > cap {
                                    cap
                                } else {
                                    dropped
                                }
                            };
                            self.selection = Some(moved);
                        },
                        None => {
                            self.selection = Some(0);
                        },
                    }
                }
            },
        }
        proof {
            assert(self@ =~= spec_scroll(old(self)@, down, amount as int, viewport_height as int));
        }
    }

    /// Dispatch one key event in the current view mode. The state changes
    /// exactly as the transition table says; a returned lookup request never
    /// comes with a state change, and the session terminates only on
    /// quit/escape with no overlay open.
    pub fn handle_event(&mut self, key: KeyInput, viewport_height: u16) -> (r: StepResult)
        requires
            old(self).wf(),
        ensures
            final(self).wf(),
            final(self)@ == spec_step(old(self)@, key, viewport_height as int).0,
            r.outcome == spec_step(old(self)@, key, viewport_height as int).1,
            r.action == spec_step(old(self)@, key, viewport_height as int).2,
    {
        let half: usize = (viewport_height / 2) as usize;
        match key {
            KeyInput::MoveDown => {
                self.scroll(true, 1, viewport_height);
                StepResult { outcome: Outcome::Continue, action: Action::Nothing }
            },
            KeyInput::MoveUp => {
                self.scroll(false, 1, viewport_height);
                StepResult { outcome: Outcome::Continue, action: Action::Nothing }
            },
            KeyInput::HalfPageDown => {
                self.scroll(true, half, viewport_height);
                StepResult { outcome: Outcome::Continue, action: Action::Nothing }
            },
            KeyInput::HalfPageUp => {
                self.scroll(false, half, viewport_height);
                StepResult { outcome: Outcome::Continue, action: Action::Nothing }
            },
            KeyInput::Confirm => {
                let action = if self.history_overlay.is_none() {
                    match self.selection {
                        Some(line) => {
                            let commit = self.commit_stack[self.commit_stack.len() - 1];
                            Action::FetchLogFollow { line, commit }
                        },
                        None => Action::Nothing,
                    }
                } else {
                    Action::Nothing
                };
                StepResult { outcome: Outcome::Continue, action }
            },
            KeyInput::Descend => {
                let action = if self.history_overlay.is_none() {
                    match self.selection {
                        Some(line) => {
                            let commit = self.attribution[line].commit;
                            Action::FetchParent { line, commit }
                        },
                        None => Action::Nothing,
                    }
                } else {
                    Action::Nothing
                };
                StepResult { outcome: Outcome::Continue, action }
            },
            KeyInput::Ascend => {
                let action = if self.history_overlay.is_none() && self.commit_stack.len() > 1 {
                    Action::FetchBlame { commit: self.commit_stack[self.commit_stack.len() - 2] }
                } else {
                    Action::Nothing
                };
                StepResult { outcome: Outcome::Continue, action }
            },
            KeyInput::Quit => {
                if self.history_overlay.is_some() {
                    self.history_overlay = None;
                    StepResult { outcome: Outcome::Continue, action: Action::Nothing }
                } else {
                    StepResult { outcome: Outcome::Terminate, action: Action::Nothing }
                }
            },
            KeyInput::Other => StepResult { outcome: Outcome::Continue, action: Action::Nothing },
        }
    }

    /// Re-clamp the selection to the current attribution length.
    fn reclamp_selection(&mut self)
        ensures
            *final(self) == (NavigationState {
                selection: match clamped_selection(old(self)@.selection, old(self)@.attribution.len() as int) {
                    Some(i) => Some(i as usize),
                    None => None,
                },
                ..*old(self)
            }),
    {
        let len = self.attribution.len();
        self.selection = match self.selection {
            Some(i) => if len == 0 {
                None
            } else if i < len {
                Some(i)
            } else {
                Some(len - 1)
            },
            None => None,
        };
    }

    /// Install a freshly computed attribution for the current top commit
    /// (the initial blame, or a recomputation): replaces the rows wholesale
    /// and re-clamps the selection.
    pub fn apply_attribution(&mut self, attribution: Vec<AttributionLine>)
        requires
            old(self).wf(),
        ensures
            final(self).wf(),
            final(self)@ == spec_apply_attribution(old(self)@, attribution@),
    {
        self.attribution = attribution;
        self.reclamp_selection();
        proof {
            assert(self@ =~= spec_apply_attribution(old(self)@, self.attribution@));
        }
    }

    /// Complete a descend: `parent` (the parent the provider found for the
    /// requested commit) becomes the inspected commit, with `attribution` as
    /// its blame. All-or-nothing: this is only called once both lookups
    /// succeeded.
    pub fn apply_descend(&mut self, parent: CommitId, attribution: Vec<AttributionLine>)
        requires
            old(self).wf(),
        ensures
            final(self).wf(),
            final(self)@ == spec_apply_descend(old(self)@, parent, attribution@),
    {
        self.attribution = attribution;
        self.reclamp_selection();
        self.commit_stack.push(parent);
        proof {
            assert(self@ =~= spec_apply_descend(old(self)@, parent, self.attribution@));
        }
    }

    /// Complete an ascend: the top is popped and `attribution` (the blame of
    /// the commit below it) replaces the rows. Only called once the lookup
    /// succeeded, so a failed recomputation never half-pops the stack.
    pub fn apply_ascend(&mut self, attribution: Vec<AttributionLine>)
        requires
            old(self).wf(),
            old(self)@.commit_stack.len() > 1,
        ensures
            final(self).wf(),
            final(self)@ == spec_apply_ascend(old(self)@, attribution@),
    {
        self.attribution = attribution;
        self.reclamp_selection();
        self.commit_stack.pop();
        proof {
            assert(self.commit_stack@ =~= old(self)@.commit_stack.drop_last());
            assert(self@ =~= spec_apply_ascend(old(self)@, self.attribution@));
        }
    }

    /// Open the history overlay on freshly computed line history, scrolled
    /// to the top.
    pub fn apply_log_follow(&mut self, content: OverlayText)
        requires
            old(self).wf(),
        ensures
            final(self).wf(),
            final(self)@ == spec_apply_log_follow(old(self)@, content.lines@),
    {
        self.history_overlay = Some(Overlay { content, offset: 0 });
        proof {
            assert(self@ =~= spec_apply_log_follow(old(self)@, self@.overlay->0.lines));
        }
    }
}

} // verus!
