//! The navigation state and its mathematical model.

use vstd::prelude::*;

verus! {

/// Opaque identifier of a commit. The caller assigns each distinct commit a
/// distinct number; the state machine never looks inside it, it only carries
/// it between the commit stack, the attribution rows and lookup requests.
#[derive(Clone, Copy, PartialEq, Eq, Structural, Debug)]
pub struct CommitId {
    pub id: u64,
}

/// One row of the blame listing: the commit that last touched the line and
/// the pre-formatted text shown for it.
#[derive(Clone, Debug)]
pub struct AttributionLine {
    pub commit: CommitId,
    pub display: String,
}

/// Rendered text content of the line-history overlay, one entry per row.
#[derive(Clone, Debug)]
pub struct OverlayText {
    pub lines: Vec<String>,
}

/// An open history overlay: its content together with the scroll offset.
/// The offset only exists while an overlay is open, so a closed overlay can
/// never leave a stale offset behind.
#[derive(Debug)]
pub struct Overlay {
    pub content: OverlayText,
    pub offset: usize,
}

/// The single mutable root of the session.
#[derive(Debug)]
pub struct NavigationState {
    /// Blame rows for the currently inspected commit, replaced wholesale
    /// whenever the inspected commit changes.
    pub attribution: Vec<AttributionLine>,
    /// Highlighted row of `attribution`, if any.
    pub selection: Option<usize>,
    /// Inspected commits, bottom = where the session started, top = current.
    /// Never empty.
    pub commit_stack: Vec<CommitId>,
    /// Line-history overlay, if one is open.
    pub history_overlay: Option<Overlay>,
}

/// Model of an open overlay.
#[verifier::ext_equal]
pub ghost struct OverlayModel {
    pub lines: Seq<String>,
    pub offset: int,
}

/// Model of the whole navigation state, the vocabulary of every contract.
#[verifier::ext_equal]
pub ghost struct StateModel {
    pub attribution: Seq<AttributionLine>,
    pub selection: Option<int>,
    pub commit_stack: Seq<CommitId>,
    pub overlay: Option<OverlayModel>,
}

impl View for Overlay {
    type V = OverlayModel;

    open spec fn view(&self) -> OverlayModel {
        OverlayModel { lines: self.content.lines@, offset: self.offset as int }
    }
}

impl View for NavigationState {
    type V = StateModel;

    open spec fn view(&self) -> StateModel {
        StateModel {
            attribution: self.attribution@,
            selection: match self.selection {
                Some(i) => Some(i as int),
                None => None,
            },
            commit_stack: self.commit_stack@,
            overlay: match self.history_overlay {
                Some(ov) => Some(ov@),
                None => None,
            },
        }
    }
}

impl StateModel {
    /// Well-formedness: the commit stack is never empty, and the selection,
    /// when present, indexes into the attribution.
    pub open spec fn wf(self) -> bool {
        &&& self.commit_stack.len() >= 1
        &&& match self.selection {
            Some(i) => 0 <= i < self.attribution.len(),
            None => true,
        }
    }

    /// The currently inspected commit.
    pub open spec fn top(self) -> CommitId {
        self.commit_stack.last()
    }

    /// Whether the history overlay is open (the `ListWithOverlay` view mode).
    pub open spec fn overlay_open(self) -> bool {
        self.overlay is Some
    }
}

impl NavigationState {
    /// Well-formedness of the concrete state, defined through its model.
    pub open spec fn wf(self) -> bool {
        self@.wf()
    }

    /// A fresh session inspecting `start`: no attribution yet, nothing
    /// selected, no overlay, and `start` alone on the commit stack.
    pub fn new(start: CommitId) -> (s: NavigationState)
        ensures
            s.wf(),
            s@.attribution.len() == 0,
            s@.selection is None,
            s@.commit_stack =~= seq![start],
            s@.overlay is None,
    {
        let mut commit_stack: Vec<CommitId> = Vec::new();
        commit_stack.push(start);
        NavigationState {
            attribution: Vec::new(),
            selection: None,
            commit_stack,
            history_overlay: None,
        }
    }
}

} // verus!
