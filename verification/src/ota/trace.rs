//! What holds of every run of the update machine: of all that it publishes
//! and asks for, whatever the world answers.

use crate::ota::laws::{
    lemma_final_then_idle, lemma_percent_in_range, lemma_read_follows_presence,
};
use crate::ota::machine::{
    action_views, begin, next, stay, Action, ActionView, Event, EventView, Machine, PhaseView,
    Step, StepView,
};
use crate::ota::status::{status_views, OtaErrorView, OtaId, OtaIdView, OtaStatus, OtaStatusView};
use vstd::prelude::*;

verus! {

/// What comes to the machine: an update to start, or an answer of the
/// world.
#[derive(Debug, Clone, PartialEq, Eq)]
pub enum Input {
    Begin(OtaId),
    Event(Event),
}

/// What an [`Input`] holds.
pub enum InputView {
    Begin(OtaIdView),
    Event(EventView),
}

impl View for Input {
    type V = InputView;

    open spec fn view(&self) -> InputView {
        match *self {
            Input::Begin(id) => InputView::Begin(id@),
            Input::Event(event) => InputView::Event(event@),
        }
    }
}

/// The inputs of a sequence, by what they hold.
pub open spec fn input_views(inputs: Seq<Input>) -> Seq<InputView> {
    inputs.map_values(|input: Input| input@)
}

/// The step that an input causes.
pub open spec fn react(phase: PhaseView, input: InputView) -> (PhaseView, StepView) {
    match input {
        InputView::Begin(id) => begin(phase, id),
        InputView::Event(event) => next(phase, event),
    }
}

/// A run: the phase after all the inputs, and all that their steps
/// published and asked for, in order.
pub open spec fn run(phase: PhaseView, inputs: Seq<InputView>) -> (PhaseView, StepView)
    decreases inputs.len(),
{
    if inputs.len() == 0 {
        stay(phase)
    } else {
        let before = run(phase, inputs.drop_last());
        let last = react(before.0, inputs.last());
        (
            last.0,
            StepView {
                emit: before.1.emit + last.1.emit,
                actions: before.1.actions + last.1.actions,
            },
        )
    }
}

/// Whether the device is never said to be idle strictly between two places
/// of a trace.
pub open spec fn busy_between(trace: Seq<OtaStatusView>, from: int, to: int) -> bool {
    forall|k: int| from < k < to ==> !((#[trigger] trace[k]) is Idle)
}

/// Whether the percentage of a download never falls: of two download
/// statuses of one attempt, between which the device was never idle, the
/// later speaks of the same update and of no smaller percentage.
pub open spec fn downloads_rise(trace: Seq<OtaStatusView>) -> bool {
    forall|i: int, j: int|
        #![trigger trace[i], trace[j]]
        0 <= i < j < trace.len() && busy_between(trace, i, j) ==> (trace[i] matches OtaStatusView::Downloading(
            first,
            low,
        ) ==> (trace[j] matches OtaStatusView::Downloading(second, high) ==> first == second
            && low <= high))
}

/// Whether the phase goes on from the download statuses of the trace after
/// which the device was never idle: it carries their update, and where it
/// is a download itself, it is no further back than they are.
pub open spec fn follows(phase: PhaseView, trace: Seq<OtaStatusView>) -> bool {
    forall|i: int|
        0 <= i < trace.len() && busy_between(trace, i, trace.len() as int) ==> ((
        #[trigger] trace[i]) matches OtaStatusView::Downloading(id, percent) ==> phase.job()
            == Some(id) && (phase matches PhaseView::Downloading(_, now) ==> percent <= now))
}

/// What a step publishes of a download, and what it leaves of the update.
proof fn lemma_react_download(phase: PhaseView, input: InputView)
    ensures
        forall|k: int|
            0 <= k < react(phase, input).1.emit.len() ==> ((#[trigger] react(
                phase,
                input,
            ).1.emit[k]) matches OtaStatusView::Downloading(id, percent) ==> {
                &&& phase.job() is Some ==> phase == PhaseView::Downloading(
                    id,
                    phase->Downloading_1,
                ) && phase->Downloading_1 < percent
                &&& react(phase, input).0.job() == Some(id)
                &&& react(phase, input).0 matches PhaseView::Downloading(_, now) ==> now
                    == percent
                &&& forall|m: int|
                    0 <= m < react(phase, input).1.emit.len() && (#[trigger] react(
                        phase,
                        input,
                    ).1.emit[m]) is Downloading ==> m == k
            }),
        (forall|k: int|
            0 <= k < react(phase, input).1.emit.len() ==> !((#[trigger] react(
                phase,
                input,
            ).1.emit[k]) is Idle)) && phase.job() is Some ==> {
            &&& react(phase, input).0.job() == phase.job()
            &&& react(phase, input).0 matches PhaseView::Downloading(_, now) ==> phase
                is Downloading && phase->Downloading_1 <= now
        },
{
    let (after, step) = react(phase, input);
    if step.emit.len() > 0 && step.emit.last() is Idle {
        assert(step.emit[step.emit.len() - 1] is Idle);
    }
}

/// The percentage of a download never falls, whatever comes to the machine.
pub proof fn lemma_downloads_rise(phase: PhaseView, inputs: Seq<InputView>)
    ensures
        downloads_rise(run(phase, inputs).1.emit),
        follows(run(phase, inputs).0, run(phase, inputs).1.emit),
    decreases inputs.len(),
{
    if inputs.len() > 0 {
        let before = run(phase, inputs.drop_last());
        lemma_downloads_rise(phase, inputs.drop_last());
        lemma_react_download(before.0, inputs.last());
        let last = react(before.0, inputs.last());
        let old_trace = before.1.emit;
        let new = last.1.emit;
        let trace = old_trace + new;
        let n = old_trace.len() as int;
        assert(run(phase, inputs).1.emit == trace);
        assert forall|i: int, j: int|
            #![trigger trace[i], trace[j]]
            0 <= i < j < trace.len() && busy_between(trace, i, j) implies (trace[i] matches OtaStatusView::Downloading(
            first,
            low,
        ) ==> (trace[j] matches OtaStatusView::Downloading(second, high) ==> first == second
            && low <= high)) by {
            if trace[i] is Downloading && trace[j] is Downloading {
                if j < n {
                    assert(busy_between(old_trace, i, j)) by {
                        assert forall|k: int| i < k < j implies !((
                        #[trigger] old_trace[k]) is Idle) by {
                            assert(trace[k] == old_trace[k]);
                        }
                    }
                    assert(old_trace[i] == trace[i] && old_trace[j] == trace[j]);
                } else if i < n {
                    assert(busy_between(old_trace, i, n)) by {
                        assert forall|k: int| i < k < n implies !((
                        #[trigger] old_trace[k]) is Idle) by {
                            assert(trace[k] == old_trace[k]);
                        }
                    }
                    assert(old_trace[i] == trace[i]);
                    assert(new[j - n] == trace[j]);
                } else {
                    assert(new[i - n] == trace[i]);
                    assert(new[j - n] == trace[j]);
                }
            }
        }
        assert forall|i: int|
            0 <= i < trace.len() && busy_between(trace, i, trace.len() as int) implies ((
        #[trigger] trace[i]) matches OtaStatusView::Downloading(id, percent) ==> last.0.job()
            == Some(id) && (last.0 matches PhaseView::Downloading(_, now) ==> percent
            <= now)) by {
            if trace[i] is Downloading {
                assert forall|k: int| 0 <= k < new.len() && n + k > i implies !((
                #[trigger] new[k]) is Idle) by {
                    assert(trace[n + k] == new[k]);
                }
                if i < n {
                    assert(busy_between(old_trace, i, n)) by {
                        assert forall|k: int| i < k < n implies !((
                        #[trigger] old_trace[k]) is Idle) by {
                            assert(trace[k] == old_trace[k]);
                        }
                    }
                    assert(old_trace[i] == trace[i]);
                } else {
                    assert(new[i - n] == trace[i]);
                    assert forall|k: int| 0 <= k < new.len() implies !((#[trigger] new[k])
                        is Idle) by {
                        if k < i - n && new[k] is Idle {
                            lemma_idle_is_last(before.0, inputs.last(), k);
                        }
                    }
                }
            }
        }
    }
}

/// The idle status is the last that a step publishes.
proof fn lemma_idle_is_last(phase: PhaseView, input: InputView, k: int)
    requires
        0 <= k < react(phase, input).1.emit.len(),
        react(phase, input).1.emit[k] is Idle,
    ensures
        k == react(phase, input).1.emit.len() - 1,
{
}

/// Whether a status is the end of an update that the machine carried: a
/// success, or a failure other than the refusal of a second update.
pub open spec fn ends_update(status: OtaStatusView) -> bool {
    status is Success || (status matches OtaStatusView::Failure(error, _) && error
        != OtaErrorView::UpdateAlreadyInProgress)
}

/// Whether every end of an update is followed at once by the idle status.
pub open spec fn ends_return_to_idle(trace: Seq<OtaStatusView>) -> bool {
    forall|k: int|
        0 <= k < trace.len() && ends_update(#[trigger] trace[k]) ==> k + 1 < trace.len()
            && trace[k + 1] is Idle
}

/// Every update returns to idle: in all that a run publishes, the end of an
/// update is followed at once by the idle status.
pub proof fn lemma_ends_return_to_idle(phase: PhaseView, inputs: Seq<InputView>)
    ensures
        ends_return_to_idle(run(phase, inputs).1.emit),
    decreases inputs.len(),
{
    if inputs.len() > 0 {
        let before = run(phase, inputs.drop_last());
        lemma_ends_return_to_idle(phase, inputs.drop_last());
        let last = react(before.0, inputs.last());
        let old_trace = before.1.emit;
        let new = last.1.emit;
        let trace = old_trace + new;
        let n = old_trace.len() as int;
        if let InputView::Event(event) = inputs.last() {
            lemma_final_then_idle(before.0, event);
        }
        assert forall|k: int| 0 <= k < trace.len() && ends_update(#[trigger] trace[k]) implies k
            + 1 < trace.len() && trace[k + 1] is Idle by {
            if k < n {
                assert(old_trace[k] == trace[k]);
                assert(old_trace[k + 1] == trace[k + 1]);
            } else {
                assert(new[k - n] == trace[k]);
                assert(new[k - n].is_final());
                assert(new[k - n + 1] == trace[k + 1]);
            }
        }
    }
}

/// Whether the store holds a persistent state after the work that was
/// asked for: a write puts one there, and a clearing takes it away.
pub open spec fn stored_after(stored: bool, actions: Seq<ActionView>) -> bool
    decreases actions.len(),
{
    if actions.len() == 0 {
        stored
    } else {
        match actions.last() {
            ActionView::WritePersistent { .. } => true,
            ActionView::ClearPersistent => false,
            _ => stored_after(stored, actions.drop_last()),
        }
    }
}

/// Whether the store answers truly: each time it says whether it holds a
/// persistent state, it says what the work asked of it so far has left.
pub open spec fn store_is_true(phase: PhaseView, stored: bool, inputs: Seq<InputView>) -> bool {
    forall|k: int|
        0 <= k < inputs.len() ==> ((#[trigger] inputs[k]) matches InputView::Event(
            EventView::StateFound(found),
        ) ==> found == stored_after(stored, run(phase, inputs.take(k)).1.actions))
}

/// Whether the persistent state is read only while the store holds one.
pub open spec fn reads_while_stored(stored: bool, actions: Seq<ActionView>) -> bool {
    forall|k: int|
        0 <= k < actions.len() && (#[trigger] actions[k]) == ActionView::ReadPersistent
            ==> stored_after(stored, actions.take(k))
}

/// After the persistent state was cleared, it is not read before it was
/// written anew: the machine asks for a read only while the store holds a
/// state, as long as the store answers truly.
pub proof fn lemma_reads_while_stored(phase: PhaseView, stored: bool, inputs: Seq<InputView>)
    requires
        store_is_true(phase, stored, inputs),
    ensures
        reads_while_stored(stored, run(phase, inputs).1.actions),
    decreases inputs.len(),
{
    if inputs.len() > 0 {
        let shorter = inputs.drop_last();
        assert(store_is_true(phase, stored, shorter)) by {
            assert forall|k: int| 0 <= k < shorter.len() implies ((
            #[trigger] shorter[k]) matches InputView::Event(EventView::StateFound(found))
                ==> found == stored_after(stored, run(phase, shorter.take(k)).1.actions)) by {
                assert(shorter[k] == inputs[k]);
                assert(shorter.take(k) == inputs.take(k));
            }
        }
        lemma_reads_while_stored(phase, stored, shorter);
        let before = run(phase, shorter);
        let last = react(before.0, inputs.last());
        let old_actions = before.1.actions;
        let new = last.1.actions;
        let actions = old_actions + new;
        let n = old_actions.len() as int;
        assert forall|k: int|
            0 <= k < actions.len() && (#[trigger] actions[k])
                == ActionView::ReadPersistent implies stored_after(stored, actions.take(k)) by {
            if k < n {
                assert(old_actions[k] == actions[k]);
                assert(actions.take(k) == old_actions.take(k));
            } else {
                assert(new[k - n] == actions[k]);
                assert(new.contains(ActionView::ReadPersistent));
                match inputs.last() {
                    InputView::Event(event) => {
                        lemma_read_follows_presence(before.0, event);
                        assert(new == seq![ActionView::ReadPersistent]);
                        assert(k == n);
                        assert(actions.take(k) == old_actions);
                        assert(inputs.take(inputs.len() - 1) == shorter);
                        assert(inputs[inputs.len() - 1] == inputs.last());
                    },
                    InputView::Begin(id) => {},
                }
            }
        }
    }
}

/// Every percentage that a run publishes is one, from 0 to 100, as long as
/// that of the phase in which the run starts is.
pub proof fn lemma_percents_in_range(phase: PhaseView, inputs: Seq<InputView>)
    requires
        phase.in_range(),
    ensures
        run(phase, inputs).0.in_range(),
        forall|k: int|
            0 <= k < run(phase, inputs).1.emit.len() ==> (#[trigger] run(
                phase,
                inputs,
            ).1.emit[k]).in_range(),
    decreases inputs.len(),
{
    if inputs.len() > 0 {
        let before = run(phase, inputs.drop_last());
        lemma_percents_in_range(phase, inputs.drop_last());
        let last = react(before.0, inputs.last());
        if let InputView::Event(event) = inputs.last() {
            lemma_percent_in_range(before.0, event);
        }
        let old_trace = before.1.emit;
        let new = last.1.emit;
        let trace = old_trace + new;
        assert forall|k: int| 0 <= k < trace.len() implies (#[trigger] trace[k]).in_range() by {
            if k < old_trace.len() {
                assert(trace[k] == old_trace[k]);
            } else {
                assert(trace[k] == new[k - old_trace.len()]);
            }
        }
    }
}

/// Whatever the store answers, the persistent state is read at most once
/// in a run, as the first work of a run that starts with the process; a run
/// from any other phase never reads it.
pub proof fn lemma_read_is_first(phase: PhaseView, inputs: Seq<InputView>)
    ensures
        forall|k: int|
            0 <= k < run(phase, inputs).1.actions.len() && (#[trigger] run(
                phase,
                inputs,
            ).1.actions[k]) == ActionView::ReadPersistent ==> k == 0 && phase is Starting,
        run(phase, inputs).0 is Starting ==> phase is Starting && run(
            phase,
            inputs,
        ).1.actions.len() == 0,
    decreases inputs.len(),
{
    if inputs.len() > 0 {
        let before = run(phase, inputs.drop_last());
        lemma_read_is_first(phase, inputs.drop_last());
        let last = react(before.0, inputs.last());
        let old_actions = before.1.actions;
        let new = last.1.actions;
        let actions = old_actions + new;
        let n = old_actions.len() as int;
        assert forall|k: int|
            0 <= k < actions.len() && (#[trigger] actions[k])
                == ActionView::ReadPersistent implies k == 0 && phase is Starting by {
            if k < n {
                assert(old_actions[k] == actions[k]);
            } else {
                assert(new[k - n] == actions[k]);
                assert(new.contains(ActionView::ReadPersistent));
                match inputs.last() {
                    InputView::Event(event) => {
                        lemma_read_follows_presence(before.0, event);
                        assert(new == seq![ActionView::ReadPersistent]);
                    },
                    InputView::Begin(id) => {},
                }
            }
        }
    }
}

impl Machine {
    /// Takes an input: an update to start, or an answer of the world.
    pub fn react(self, input: Input) -> (r: (Machine, Step))
        ensures
            (r.0@, r.1@) == react(self@, input@),
    {
        match input {
            Input::Begin(id) => self.begin(id),
            Input::Event(event) => self.step(event),
        }
    }

    /// Takes the inputs one after the other, and gives all that the steps
    /// published and asked for.
    pub fn replay(self, inputs: Vec<Input>) -> (r: (Machine, Step))
        ensures
            (r.0@, r.1@) == run(self@, input_views(inputs@)),
    {
        let ghost start = self@;
        let ghost all = input_views(inputs@);
        let mut machine = self;
        let mut emit: Vec<OtaStatus> = Vec::new();
        let mut actions: Vec<Action> = Vec::new();
        let mut inputs = inputs;
        let mut done: usize = 0;
        let total = inputs.len();
        proof {
            assert(all.take(0) =~= Seq::empty());
            assert(status_views(emit@) =~= Seq::empty());
            assert(action_views(actions@) =~= Seq::empty());
        }
        while done < total
            invariant
                done <= total,
                total == all.len(),
                inputs@.len() == total - done,
                forall|k: int| 0 <= k < inputs@.len() ==> (#[trigger] inputs@[k])@ == all[done + k],
                (machine@, StepView { emit: status_views(emit@), actions: action_views(actions@) })
                    == run(start, all.take(done as int)),
            decreases total - done,
        {
            let ghost before = run(start, all.take(done as int));
            let input = inputs.remove(0);
            proof {
                assert(input@ == all[done as int]);
                assert(all.take(done + 1).drop_last() == all.take(done as int));
                assert(all.take(done + 1).last() == all[done as int]);
            }
            let (after, step) = machine.react(input);
            machine = after;
            let Step { emit: mut more, actions: mut work } = step;
            let ghost emit_before = status_views(emit@);
            let ghost more_before = status_views(more@);
            let ghost actions_before = action_views(actions@);
            let ghost work_before = action_views(work@);
            emit.append(&mut more);
            actions.append(&mut work);
            proof {
                assert(status_views(emit@) =~= emit_before + more_before);
                assert(action_views(actions@) =~= actions_before + work_before);
            }
            done += 1;
        }
        proof {
            assert(all.take(done as int) == all);
        }
        (machine, Step { emit, actions })
    }
}

} // verus!
