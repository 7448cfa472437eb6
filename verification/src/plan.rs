//! Projection of the navigation state to a declarative draw plan.
//!
//! The renderer is stateless: everything a frame shows is computed here
//! from the state alone, and the caller only has to turn the plan into
//! widgets.

use vstd::prelude::*;

use crate::state::CommitId;
use crate::state::NavigationState;

verus! {

/// How the screen is divided.
#[derive(Clone, Copy, PartialEq, Eq, Structural, Debug)]
pub enum PaneLayout {
    /// The attribution list alone fills the screen.
    Single,
    /// Two equal horizontal panes: the list on the left, the overlay on the
    /// right.
    SplitHalf,
}

/// The overlay pane of a plan: its text and the offset it is scrolled to.
#[derive(Debug)]
pub struct OverlayPane {
    pub lines: Vec<String>,
    pub offset: usize,
}

/// A declarative description of one frame.
#[derive(Debug)]
pub struct DrawPlan {
    /// Single pane without an overlay, two equal panes with one.
    pub layout: PaneLayout,
    /// The currently inspected commit, shown as the list's title.
    pub title: CommitId,
    /// One row of text per attribution line.
    pub list_rows: Vec<String>,
    /// The highlighted row of the list, if any.
    pub highlighted: Option<usize>,
    /// The overlay pane, exactly when an overlay is open.
    pub overlay_pane: Option<OverlayPane>,
    /// A pending recoverable-error message; it pre-empts normal drawing
    /// until dismissed.
    pub error_message: Option<String>,
}

/// Compute the draw plan for `state`: the pane layout follows the view
/// mode, the list shows every attribution row with the selection
/// highlighted under the top commit's title, the overlay pane reproduces
/// the open overlay at its scroll offset, and a pending error message is
/// passed through.
pub fn project(state: &NavigationState, pending_error: Option<String>) -> (plan: DrawPlan)
    requires
        state.wf(),
    ensures
        plan.layout == (if state@.overlay_open() {
            PaneLayout::SplitHalf
        } else {
            PaneLayout::Single
        }),
        plan.title == state@.top(),
        plan.list_rows@.len() == state@.attribution.len(),
        forall|i: int|
            0 <= i < state@.attribution.len() ==> plan.list_rows@[i] == state@.attribution[i].display,
        plan.highlighted == state.selection,
        match state@.overlay {
            Some(ov) => {
                &&& plan.overlay_pane is Some
                &&& plan.overlay_pane->0.lines@ == ov.lines
                &&& plan.overlay_pane->0.offset as int == ov.offset
            },
            None => plan.overlay_pane is None,
        },
        plan.error_message == pending_error,
{
    let mut list_rows: Vec<String> = Vec::new();
    let mut i: usize = 0;
    while i < state.attribution.len()
        invariant
            i <= state.attribution.len(),
            list_rows@.len() == i as int,
            forall|j: int| 0 <= j < i as int ==> list_rows@[j] == state@.attribution[j].display,
        decreases state.attribution.len() - i,
    {
        let row = &state.attribution[i];
        list_rows.push(row.display.clone());
        i = i + 1;
    }

    let overlay_pane: Option<OverlayPane> = match &state.history_overlay {
        Some(ov) => {
            let mut lines: Vec<String> = Vec::new();
            let mut j: usize = 0;
            while j < ov.content.lines.len()
                invariant
                    j <= ov.content.lines.len(),
                    lines@.len() == j as int,
                    forall|k: int| 0 <= k < j as int ==> lines@[k] == ov.content.lines@[k],
                decreases ov.content.lines.len() - j,
            {
                let line = &ov.content.lines[j];
                lines.push(line.clone());
                j = j + 1;
            }
            proof {
                assert(lines@ =~= ov.content.lines@);
            }
            Some(OverlayPane { lines, offset: ov.offset })
        },
        None => None,
    };

    let layout = if overlay_pane.is_some() {
        PaneLayout::SplitHalf
    } else {
        PaneLayout::Single
    };

    DrawPlan {
        layout,
        title: state.commit_stack[state.commit_stack.len() - 1],
        list_rows,
        highlighted: state.selection,
        overlay_pane,
        error_message: pending_error,
    }
}

} // verus!
