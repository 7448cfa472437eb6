//! Laws of the navigation state machine, proved over the transition
//! specifications that the executable operations are verified against.

use vstd::prelude::*;

use crate::nav::Action;
use crate::nav::KeyInput;
use crate::nav::Outcome;
use crate::nav::spec_apply_ascend;
use crate::nav::spec_apply_attribution;
use crate::nav::spec_apply_descend;
use crate::nav::spec_apply_log_follow;
use crate::nav::spec_step;
use crate::state::AttributionLine;
use crate::state::CommitId;
use crate::state::StateModel;

verus! {

/// Dispatching any key event preserves well-formedness: the commit stack
/// stays non-empty and the selection stays absent or within the
/// attribution. Together with the preservation lemmas for the `apply_*`
/// operations this extends to every sequence of events.
pub proof fn lemma_step_preserves_wf(m: StateModel, key: KeyInput, viewport_height: int)
    requires
        m.wf(),
        viewport_height >= 0,
    ensures
        spec_step(m, key, viewport_height).0.wf(),
{
}

/// Installing a recomputed attribution preserves well-formedness, for any
/// rows the history provider returns.
pub proof fn lemma_apply_attribution_preserves_wf(m: StateModel, attr: Seq<AttributionLine>)
    requires
        m.wf(),
    ensures
        spec_apply_attribution(m, attr).wf(),
{
}

/// Descending preserves well-formedness, and the commit stack grows by
/// exactly the parent on top.
pub proof fn lemma_apply_descend_preserves_wf(m: StateModel, parent: CommitId, attr: Seq<AttributionLine>)
    requires
        m.wf(),
    ensures
        spec_apply_descend(m, parent, attr).wf(),
        spec_apply_descend(m, parent, attr).commit_stack == m.commit_stack.push(parent),
{
}

/// Ascending preserves well-formedness: with more than one commit on the
/// stack, popping the top leaves it non-empty.
pub proof fn lemma_apply_ascend_preserves_wf(m: StateModel, attr: Seq<AttributionLine>)
    requires
        m.wf(),
        m.commit_stack.len() > 1,
    ensures
        spec_apply_ascend(m, attr).wf(),
{
}

/// Opening the overlay preserves well-formedness.
pub proof fn lemma_apply_log_follow_preserves_wf(m: StateModel, lines: Seq<String>)
    requires
        m.wf(),
    ensures
        spec_apply_log_follow(m, lines).wf(),
{
}

/// The all-or-nothing error policy rests on this: an event that requests a
/// history lookup changes nothing by itself and always keeps the session
/// running. If the lookup then fails, the caller applies no result, so
/// attribution, selection and commit stack are exactly what they were.
pub proof fn lemma_lookup_requests_leave_state_unchanged(
    m: StateModel,
    key: KeyInput,
    viewport_height: int,
)
    requires
        m.wf(),
    ensures
        spec_step(m, key, viewport_height).2 != Action::Nothing ==> {
            &&& spec_step(m, key, viewport_height).0 == m
            &&& spec_step(m, key, viewport_height).1 == Outcome::Continue
        },
{
}

/// Quit/escape is context-sensitive. With no overlay open it terminates the
/// session and leaves the state untouched; with an overlay open it only
/// dismisses the overlay — it never terminates — and a further quit, the
/// overlay now gone, does terminate.
pub proof fn lemma_quit_context_sensitive(m: StateModel, viewport_height: int)
    requires
        m.wf(),
    ensures
        m.overlay is None ==> spec_step(m, KeyInput::Quit, viewport_height)
            == (m, Outcome::Terminate, Action::Nothing),
        m.overlay is Some ==> {
            let stepped = spec_step(m, KeyInput::Quit, viewport_height);
            &&& stepped.1 == Outcome::Continue
            &&& stepped.0 == (StateModel { overlay: None, ..m })
            &&& spec_step(stepped.0, KeyInput::Quit, viewport_height).1 == Outcome::Terminate
        },
{
}

/// Round trip: descending to a parent and then ascending restores the
/// commit stack, and — the history provider being deterministic, so that
/// the old top's attribution is recomputed equal to what it was —
/// restores the attribution as well. The ascend request that follows the
/// descend indeed names the old top.
pub proof fn lemma_descend_ascend_round_trip(
    m: StateModel,
    parent: CommitId,
    parent_attr: Seq<AttributionLine>,
    restored_attr: Seq<AttributionLine>,
    viewport_height: int,
)
    requires
        m.wf(),
        m.overlay is None,
        m.selection is Some,
        restored_attr == m.attribution,
    ensures
        ({
            let descended = spec_apply_descend(m, parent, parent_attr);
            &&& spec_step(descended, KeyInput::Ascend, viewport_height).2
                == (Action::FetchBlame { commit: m.top() })
            &&& spec_apply_ascend(descended, restored_attr).commit_stack == m.commit_stack
            &&& spec_apply_ascend(descended, restored_attr).attribution == m.attribution
        }),
{
    let descended = spec_apply_descend(m, parent, parent_attr);
    assert(descended.commit_stack[descended.commit_stack.len() - 2] == m.top());
    assert(spec_apply_ascend(descended, restored_attr).commit_stack =~= m.commit_stack);
}

} // verus!
