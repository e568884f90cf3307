//! What holds of every step of the update machine.

use crate::ota::machine::{next, stay, ActionView, EventView, PhaseView};
use crate::ota::status::{OtaErrorView, OtaStatusView};
use vstd::prelude::*;

verus! {

/// The machine lets go of its update exactly when it says that the device
/// is idle; until then it carries the update that it carried.
pub proof fn lemma_job_after_step(phase: PhaseView, event: EventView)
    ensures
        next(phase, event).0.job() == (if next(phase, event).1.emit.contains(
            OtaStatusView::Idle,
        ) {
            None
        } else {
            phase.job()
        }),
{
    let (after, step) = next(phase, event);
    if step.emit.len() > 0 && step.emit.last() is Idle {
        assert(step.emit[step.emit.len() - 1] == OtaStatusView::Idle);
    }
}

/// An upper bound on the answers, other than items of progress, that the
/// machine still waits for before it rests: idle, or rebooting.
pub open spec fn steps_left(phase: PhaseView) -> nat {
    match phase {
        PhaseView::Starting => 4,
        PhaseView::Reading => 3,
        PhaseView::Confirming { .. } => 2,
        PhaseView::Marking(_) => 1,
        PhaseView::Idle => 0,
        PhaseView::Downloading(_, _) => 6,
        PhaseView::Inspecting(_) => 5,
        PhaseView::Locating(_) => 4,
        PhaseView::Persisting(_) => 3,
        PhaseView::Installing(_) => 2,
        PhaseView::Deploying(_) => 1,
        PhaseView::Rebooting(_) => 0,
    }
}

/// Whether an event is an item of progress, of which a download or an
/// installation may bring any finite number.
pub open spec fn is_progress(event: EventView) -> bool {
    event is Chunk || event is Progress
}

/// Every update comes to its end: an answer either changes nothing, or is
/// an item of progress, or brings the machine nearer to its rest.
pub proof fn lemma_step_advances(phase: PhaseView, event: EventView)
    ensures
        steps_left(next(phase, event).0) <= steps_left(phase),
        next(phase, event) == stay(phase) || is_progress(event) || steps_left(
            next(phase, event).0,
        ) < steps_left(phase),
{
}

/// A success or a failure of the machine is followed at once by the idle
/// status, and the machine is idle after a step exactly if the step said so.
pub proof fn lemma_final_then_idle(phase: PhaseView, event: EventView)
    ensures
        forall|k: int|
            0 <= k < next(phase, event).1.emit.len() && (#[trigger] next(
                phase,
                event,
            ).1.emit[k]).is_final() ==> k + 1 < next(phase, event).1.emit.len() && next(
                phase,
                event,
            ).1.emit[k + 1] is Idle,
        !(phase is Idle) ==> (next(phase, event).0 is Idle <==> next(phase, event).1.emit.len()
            > 0 && next(phase, event).1.emit.last() is Idle),
        forall|k: int|
            0 <= k < next(phase, event).1.emit.len() && (#[trigger] next(
                phase,
                event,
            ).1.emit[k]) is Idle ==> k == next(phase, event).1.emit.len() - 1,
{
}

/// An update that can be cancelled is ended by its cancellation: the
/// failure is published, then the device is idle, and the file of the bundle
/// is removed.
pub proof fn lemma_cancel_ends_update(phase: PhaseView)
    requires
        phase.cancellable(),
    ensures
        next(phase, EventView::Canceled).0 is Idle,
        next(phase, EventView::Canceled).1.emit == seq![
            OtaStatusView::Failure(OtaErrorView::Canceled, phase.job()),
            OtaStatusView::Idle,
        ],
        next(phase, EventView::Canceled).1.actions[0] == ActionView::RemoveBundle,
{
}

/// The persistent state is read only when the store has just said that it
/// holds one, and it is written only before the bundle is handed to the
/// updater.
pub proof fn lemma_read_follows_presence(phase: PhaseView, event: EventView)
    ensures
        next(phase, event).1.actions.contains(ActionView::ReadPersistent) ==> phase is Starting
            && event == EventView::StateFound(true),
        forall|k: int|
            0 <= k < next(phase, event).1.actions.len() && (#[trigger] next(
                phase,
                event,
            ).1.actions[k]) is WritePersistent ==> phase is Locating && next(phase, event).0
                is Persisting,
{
    let actions = next(phase, event).1.actions;
    if actions.contains(ActionView::ReadPersistent) {
        let k = choose|k: int| 0 <= k < actions.len() && actions[k] == ActionView::ReadPersistent;
        assert(actions[k] == ActionView::ReadPersistent);
    }
}

/// Every percentage that the machine publishes is one, as long as that of
/// its phase is.
pub proof fn lemma_percent_in_range(phase: PhaseView, event: EventView)
    requires
        phase.in_range(),
    ensures
        next(phase, event).0.in_range(),
        forall|k: int|
            0 <= k < next(phase, event).1.emit.len() ==> (#[trigger] next(
                phase,
                event,
            ).1.emit[k]).in_range(),
{
    if let EventView::Chunk { downloaded, total } = event {
        if total != 0 && downloaded < total {
            assert(0 <= 100 * downloaded / (total as int) < 100) by (nonlinear_arith)
                requires
                    0 <= downloaded < total,
            ;
        }
    }
}

/// While a bundle is fetched, the published percentage only rises: each
/// one is above that of the phase, and a step from another phase publishes
/// none.
pub proof fn lemma_download_rises(phase: PhaseView, event: EventView)
    ensures
        forall|k: int|
            0 <= k < next(phase, event).1.emit.len() ==> ((#[trigger] next(
                phase,
                event,
            ).1.emit[k]) matches OtaStatusView::Downloading(id, percent) ==> phase
                == PhaseView::Downloading(id, phase->Downloading_1) && phase->Downloading_1
                < percent),
        next(phase, event).0 matches PhaseView::Downloading(id, percent) ==> phase
            == PhaseView::Downloading(id, phase->Downloading_1) && phase->Downloading_1
            <= percent,
{
}

} // verus!
