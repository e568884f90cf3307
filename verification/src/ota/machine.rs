//! The state machine of one update. Each step takes what the world
//! answered and gives the statuses to publish and the work to do next; the
//! work itself is done elsewhere.

use crate::ident::Uuid;
use crate::ota::status::{
    status_views, DeployProgress, DeployStatus, OtaError, OtaErrorView, OtaId, OtaIdView,
    OtaStatus, OtaStatusView, PersistentState,
};
use crate::text::{i32_to_string, signed_decimal};
use vstd::prelude::*;
use vstd::string::StringExecFns;

verus! {

/// What the world answers to the machine.
#[derive(Debug, Clone, PartialEq, Eq)]
pub enum Event {
    /// Whether the store holds a persistent state.
    StateFound(bool),
    /// The persistent state that the store holds.
    StateRead(PersistentState),
    /// The store could not be read.
    StateUnreadable(String),
    /// The slot from which the system runs.
    BootSlot(String),
    /// The updater could not tell the slot.
    BootSlotUnknown(String),
    /// The primary slot was marked active.
    Marked,
    /// The primary slot could not be marked.
    MarkFailed(String),
    /// So many bytes of the bundle have arrived, out of so many.
    Chunk { downloaded: u64, total: u64 },
    /// The bundle has arrived.
    Downloaded,
    /// The bundle could not be fetched.
    NetworkFailed(String),
    /// The bundle could not be written to its file.
    FileFailed(String),
    /// What the bundle is compatible with, and what the system is.
    Inspected { bundle: String, system: String },
    /// The updater could not tell one of the two.
    InspectFailed(String),
    /// The persistent state was written.
    Persisted,
    /// The persistent state could not be written.
    PersistFailed(String),
    /// The updater took the bundle.
    InstallStarted,
    /// The updater refused the bundle.
    InstallFailed(String),
    /// An item of the updater's progress stream.
    Deploy(DeployStatus),
    /// The progress stream ended before the installation completed; with
    /// what the updater gives as its last error, if it gives any. An empty
    /// text reports no error.
    StreamEnded(Option<String>),
    /// The cancellation token has fired.
    Canceled,
}

/// What an [`Event`] holds.
pub enum EventView {
    StateFound(bool),
    StateRead { uuid: u128, slot: Seq<char> },
    StateUnreadable(Seq<char>),
    BootSlot(Seq<char>),
    BootSlotUnknown(Seq<char>),
    Marked,
    MarkFailed(Seq<char>),
    Chunk { downloaded: u64, total: u64 },
    Downloaded,
    NetworkFailed(Seq<char>),
    FileFailed(Seq<char>),
    Inspected { bundle: Seq<char>, system: Seq<char> },
    InspectFailed(Seq<char>),
    Persisted,
    PersistFailed(Seq<char>),
    InstallStarted,
    InstallFailed(Seq<char>),
    Progress { percentage: int, message: Seq<char> },
    Completed { signal: int },
    StreamEnded(Option<Seq<char>>),
    Canceled,
}

impl View for Event {
    type V = EventView;

    open spec fn view(&self) -> EventView {
        match *self {
            Event::StateFound(found) => EventView::StateFound(found),
            Event::StateRead(state) => EventView::StateRead {
                uuid: state.uuid.0,
                slot: state.slot@,
            },
            Event::StateUnreadable(reason) => EventView::StateUnreadable(reason@),
            Event::BootSlot(slot) => EventView::BootSlot(slot@),
            Event::BootSlotUnknown(reason) => EventView::BootSlotUnknown(reason@),
            Event::Marked => EventView::Marked,
            Event::MarkFailed(reason) => EventView::MarkFailed(reason@),
            Event::Chunk { downloaded, total } => EventView::Chunk { downloaded, total },
            Event::Downloaded => EventView::Downloaded,
            Event::NetworkFailed(reason) => EventView::NetworkFailed(reason@),
            Event::FileFailed(reason) => EventView::FileFailed(reason@),
            Event::Inspected { bundle, system } => EventView::Inspected {
                bundle: bundle@,
                system: system@,
            },
            Event::InspectFailed(reason) => EventView::InspectFailed(reason@),
            Event::Persisted => EventView::Persisted,
            Event::PersistFailed(reason) => EventView::PersistFailed(reason@),
            Event::InstallStarted => EventView::InstallStarted,
            Event::InstallFailed(reason) => EventView::InstallFailed(reason@),
            Event::Deploy(DeployStatus::Progress(progress)) => EventView::Progress {
                percentage: progress.percentage as int,
                message: progress.message@,
            },
            Event::Deploy(DeployStatus::Completed { signal }) => EventView::Completed {
                signal: signal as int,
            },
            Event::StreamEnded(Some(reason)) => EventView::StreamEnded(Some(reason@)),
            Event::StreamEnded(None) => EventView::StreamEnded(None),
            Event::Canceled => EventView::Canceled,
        }
    }
}

/// The work that the machine asks for.
#[derive(Debug, Clone, PartialEq, Eq)]
pub enum Action {
    /// Ask the store whether it holds a persistent state.
    CheckPersistent,
    /// Read the persistent state.
    ReadPersistent,
    /// Write the persistent state.
    WritePersistent(PersistentState),
    /// Clear the persistent state.
    ClearPersistent,
    /// Ask the updater for the slot from which the system runs.
    ReadBootSlot,
    /// Ask the updater for the primary slot and mark it active.
    MarkActive,
    /// Fetch the bundle of the update into its file.
    Download(OtaId),
    /// Ask the updater what the bundle and the system are compatible with.
    Inspect,
    /// Hand the bundle to the updater and follow its progress.
    Install,
    /// Remove the file of the bundle.
    RemoveBundle,
    /// Reboot the system.
    Reboot,
}

/// What an [`Action`] holds.
pub enum ActionView {
    CheckPersistent,
    ReadPersistent,
    WritePersistent { uuid: u128, slot: Seq<char> },
    ClearPersistent,
    ReadBootSlot,
    MarkActive,
    Download(OtaIdView),
    Inspect,
    Install,
    RemoveBundle,
    Reboot,
}

impl View for Action {
    type V = ActionView;

    open spec fn view(&self) -> ActionView {
        match *self {
            Action::CheckPersistent => ActionView::CheckPersistent,
            Action::ReadPersistent => ActionView::ReadPersistent,
            Action::WritePersistent(state) => ActionView::WritePersistent {
                uuid: state.uuid.0,
                slot: state.slot@,
            },
            Action::ClearPersistent => ActionView::ClearPersistent,
            Action::ReadBootSlot => ActionView::ReadBootSlot,
            Action::MarkActive => ActionView::MarkActive,
            Action::Download(id) => ActionView::Download(id@),
            Action::Inspect => ActionView::Inspect,
            Action::Install => ActionView::Install,
            Action::RemoveBundle => ActionView::RemoveBundle,
            Action::Reboot => ActionView::Reboot,
        }
    }
}

/// The actions of a sequence, by what they hold.
pub open spec fn action_views(actions: Seq<Action>) -> Seq<ActionView> {
    actions.map_values(|action: Action| action@)
}

/// Where the machine is: what it waits for.
#[derive(Debug, Clone, PartialEq, Eq)]
pub enum Phase {
    /// The process has started; whether a persistent state exists is asked.
    Starting,
    /// A persistent state exists and is being read.
    Reading,
    /// The system has rebooted into an update; its slot is asked.
    Confirming(PersistentState),
    /// The slot has changed; the primary slot is being marked.
    Marking(Uuid),
    /// No update is under way.
    Idle,
    /// The bundle is being fetched; so many percent have arrived.
    Downloading(OtaId, i32),
    /// The bundle has arrived; its compatibility is asked.
    Inspecting(OtaId),
    /// The bundle fits; the slot from which the system runs is asked.
    Locating(OtaId),
    /// The persistent state is being written.
    Persisting(OtaId),
    /// The bundle has been handed to the updater.
    Installing(OtaId),
    /// The updater installs the bundle.
    Deploying(OtaId),
    /// The reboot has been asked for; the process ends here.
    Rebooting(OtaId),
}

/// What a [`Phase`] holds.
pub enum PhaseView {
    Starting,
    Reading,
    Confirming { uuid: u128, slot: Seq<char> },
    Marking(u128),
    Idle,
    Downloading(OtaIdView, int),
    Inspecting(OtaIdView),
    Locating(OtaIdView),
    Persisting(OtaIdView),
    Installing(OtaIdView),
    Deploying(OtaIdView),
    Rebooting(OtaIdView),
}

impl View for Phase {
    type V = PhaseView;

    open spec fn view(&self) -> PhaseView {
        match *self {
            Phase::Starting => PhaseView::Starting,
            Phase::Reading => PhaseView::Reading,
            Phase::Confirming(state) => PhaseView::Confirming {
                uuid: state.uuid.0,
                slot: state.slot@,
            },
            Phase::Marking(uuid) => PhaseView::Marking(uuid.0),
            Phase::Idle => PhaseView::Idle,
            Phase::Downloading(id, percent) => PhaseView::Downloading(id@, percent as int),
            Phase::Inspecting(id) => PhaseView::Inspecting(id@),
            Phase::Locating(id) => PhaseView::Locating(id@),
            Phase::Persisting(id) => PhaseView::Persisting(id@),
            Phase::Installing(id) => PhaseView::Installing(id@),
            Phase::Deploying(id) => PhaseView::Deploying(id@),
            Phase::Rebooting(id) => PhaseView::Rebooting(id@),
        }
    }
}

impl PhaseView {
    /// The update that is under way, if there is one.
    pub open spec fn job(self) -> Option<OtaIdView> {
        match self {
            PhaseView::Downloading(id, _) => Some(id),
            PhaseView::Inspecting(id) => Some(id),
            PhaseView::Locating(id) => Some(id),
            PhaseView::Persisting(id) => Some(id),
            PhaseView::Installing(id) => Some(id),
            PhaseView::Deploying(id) => Some(id),
            PhaseView::Rebooting(id) => Some(id),
            _ => None,
        }
    }

    /// Whether the update that is under way can still be cancelled: it can
    /// until the updater has completed the installation.
    pub open spec fn cancellable(self) -> bool {
        self.job() is Some && !(self is Rebooting)
    }

    /// Whether the machine still looks into what an earlier process left.
    pub open spec fn starting(self) -> bool {
        self is Starting || self is Reading || self is Confirming || self is Marking
    }

    /// Whether the percentage of the phase is one.
    pub open spec fn in_range(self) -> bool {
        self matches PhaseView::Downloading(_, percent) ==> 0 <= percent <= 100
    }
}

/// What a step gives: the statuses to publish, in their order, and the work
/// to do, in its order.
#[derive(Debug, Clone, PartialEq, Eq)]
pub struct Step {
    pub emit: Vec<OtaStatus>,
    pub actions: Vec<Action>,
}

/// What a [`Step`] holds.
pub struct StepView {
    pub emit: Seq<OtaStatusView>,
    pub actions: Seq<ActionView>,
}

impl View for Step {
    type V = StepView;

    open spec fn view(&self) -> StepView {
        StepView { emit: status_views(self.emit@), actions: action_views(self.actions@) }
    }
}

/// The message of a failure after a reboot into the slot that was left.
pub open spec fn rollback_reason() -> Seq<char> {
    "Unable to switch slot"@
}

/// The message of a failed installation of which the updater says nothing.
pub open spec fn install_reason() -> Seq<char> {
    "Unable to install ota image"@
}

/// The message of a bundle that does not fit the system.
pub open spec fn mismatch_reason(bundle: Seq<char>, system: Seq<char>) -> Seq<char> {
    "bundle "@ + bundle + " is not compatible with system "@ + system
}

/// The message of an installation that completed with a signal other than 0.
pub open spec fn signal_reason(signal: int) -> Seq<char> {
    "Update failed with signal "@ + signed_decimal(signal)
}

/// How many percent of the bundle have arrived; none, where its size is
/// not known.
pub open spec fn percent_of(downloaded: u64, total: u64) -> int {
    if total == 0 {
        0
    } else if downloaded >= total {
        100
    } else {
        100 * downloaded / (total as int)
    }
}

/// A percentage brought into its range.
pub open spec fn clamp_percent(percentage: int) -> int {
    if percentage < 0 {
        0
    } else if percentage > 100 {
        100
    } else {
        percentage
    }
}

/// The identity under which an update is reported after the reboot.
pub open spec fn rebooted_id(uuid: u128) -> OtaIdView {
    OtaIdView { uuid, url: Seq::<char>::empty() }
}

/// A step that does nothing.
pub open spec fn stay(phase: PhaseView) -> (PhaseView, StepView) {
    (phase, StepView { emit: Seq::empty(), actions: Seq::empty() })
}

/// The end of an update by a failure: the failure is published, then the
/// device is idle. The file of the bundle is removed where there may be
/// one, and the persistent state is cleared where `clear` says so.
pub open spec fn fail(id: Option<OtaIdView>, error: OtaErrorView, remove: bool, clear: bool) -> (
    PhaseView,
    StepView,
) {
    (
        PhaseView::Idle,
        StepView {
            emit: seq![OtaStatusView::Failure(error, id), OtaStatusView::Idle],
            actions: (if remove {
                seq![ActionView::RemoveBundle]
            } else {
                Seq::empty()
            }) + (if clear {
                seq![ActionView::ClearPersistent]
            } else {
                Seq::empty()
            }),
        },
    )
}

/// The end of an update by an error of the update itself.
pub open spec fn abort(id: OtaIdView, error: OtaErrorView) -> (PhaseView, StepView) {
    fail(Some(id), error, true, true)
}

/// The end of an update by its cancellation. The persistent state is
/// cleared if the bundle has not been handed to the updater yet.
pub open spec fn cancel(id: OtaIdView, before_install: bool) -> (PhaseView, StepView) {
    fail(Some(id), OtaErrorView::Canceled, true, before_install)
}

/// The start of an update: it is taken in, acknowledged, and its download
/// begins. While the machine is not idle, the update is refused.
pub open spec fn begin(phase: PhaseView, id: OtaIdView) -> (PhaseView, StepView) {
    if phase is Idle {
        (
            PhaseView::Downloading(id, 0),
            StepView {
                emit: seq![
                    OtaStatusView::Init(id),
                    OtaStatusView::Acknowledged(id),
                    OtaStatusView::Downloading(id, 0),
                ],
                actions: seq![ActionView::Download(id)],
            },
        )
    } else {
        (
            phase,
            StepView {
                emit: seq![
                    OtaStatusView::Failure(OtaErrorView::UpdateAlreadyInProgress, Some(id)),
                ],
                actions: Seq::empty(),
            },
        )
    }
}

/// The transition of the machine: the phase after an event, the statuses to
/// publish and the work to do. An event that the phase does not wait for
/// changes nothing.
pub open spec fn next(phase: PhaseView, event: EventView) -> (PhaseView, StepView) {
    match phase {
        PhaseView::Starting => match event {
            EventView::StateFound(false) => (
                PhaseView::Idle,
                StepView { emit: seq![OtaStatusView::Idle], actions: Seq::empty() },
            ),
            EventView::StateFound(true) => (
                PhaseView::Reading,
                StepView { emit: Seq::empty(), actions: seq![ActionView::ReadPersistent] },
            ),
            _ => stay(phase),
        },
        PhaseView::Reading => match event {
            EventView::StateRead { uuid, slot } => (
                PhaseView::Confirming { uuid, slot },
                StepView {
                    emit: seq![OtaStatusView::Rebooted],
                    actions: seq![ActionView::ReadBootSlot],
                },
            ),
            EventView::StateUnreadable(reason) => fail(
                None,
                OtaErrorView::InternalError(reason),
                false,
                true,
            ),
            _ => stay(phase),
        },
        PhaseView::Confirming { uuid, slot } => match event {
            EventView::BootSlot(now) => if now == slot {
                fail(
                    Some(rebooted_id(uuid)),
                    OtaErrorView::SystemRollback(rollback_reason()),
                    false,
                    true,
                )
            } else {
                (
                    PhaseView::Marking(uuid),
                    StepView { emit: Seq::empty(), actions: seq![ActionView::MarkActive] },
                )
            },
            EventView::BootSlotUnknown(reason) => fail(
                Some(rebooted_id(uuid)),
                OtaErrorView::InternalError(reason),
                false,
                true,
            ),
            _ => stay(phase),
        },
        PhaseView::Marking(uuid) => match event {
            EventView::Marked => (
                PhaseView::Idle,
                StepView {
                    emit: seq![OtaStatusView::Success(rebooted_id(uuid)), OtaStatusView::Idle],
                    actions: seq![ActionView::ClearPersistent],
                },
            ),
            EventView::MarkFailed(reason) => fail(
                Some(rebooted_id(uuid)),
                OtaErrorView::InternalError(reason),
                false,
                true,
            ),
            _ => stay(phase),
        },
        PhaseView::Idle => stay(phase),
        PhaseView::Downloading(id, percent) => match event {
            EventView::Chunk { downloaded, total } => if percent_of(downloaded, total) > percent {
                (
                    PhaseView::Downloading(id, percent_of(downloaded, total)),
                    StepView {
                        emit: seq![
                            OtaStatusView::Downloading(id, percent_of(downloaded, total)),
                        ],
                        actions: Seq::empty(),
                    },
                )
            } else {
                stay(phase)
            },
            EventView::Downloaded => (
                PhaseView::Inspecting(id),
                StepView {
                    emit: if percent < 100 {
                        seq![OtaStatusView::Downloading(id, 100)]
                    } else {
                        Seq::empty()
                    },
                    actions: seq![ActionView::Inspect],
                },
            ),
            EventView::NetworkFailed(reason) => abort(id, OtaErrorView::Network(reason)),
            EventView::FileFailed(reason) => abort(id, OtaErrorView::IoError(reason)),
            EventView::Canceled => cancel(id, true),
            _ => stay(phase),
        },
        PhaseView::Inspecting(id) => match event {
            EventView::Inspected { bundle, system } => if bundle != system {
                abort(id, OtaErrorView::InvalidBaseImage(mismatch_reason(bundle, system)))
            } else {
                (
                    PhaseView::Locating(id),
                    StepView { emit: Seq::empty(), actions: seq![ActionView::ReadBootSlot] },
                )
            },
            EventView::InspectFailed(reason) => abort(id, OtaErrorView::InvalidBaseImage(reason)),
            EventView::Canceled => cancel(id, true),
            _ => stay(phase),
        },
        PhaseView::Locating(id) => match event {
            EventView::BootSlot(slot) => (
                PhaseView::Persisting(id),
                StepView {
                    emit: Seq::empty(),
                    actions: seq![ActionView::WritePersistent { uuid: id.uuid, slot }],
                },
            ),
            EventView::BootSlotUnknown(reason) => abort(
                id,
                OtaErrorView::InvalidBaseImage(reason),
            ),
            EventView::Canceled => cancel(id, true),
            _ => stay(phase),
        },
        PhaseView::Persisting(id) => match event {
            EventView::Persisted => (
                PhaseView::Installing(id),
                StepView {
                    emit: seq![OtaStatusView::Deploying(id, 0, Seq::<char>::empty())],
                    actions: seq![ActionView::Install],
                },
            ),
            EventView::PersistFailed(reason) => abort(id, OtaErrorView::InternalError(reason)),
            EventView::Canceled => cancel(id, true),
            _ => stay(phase),
        },
        PhaseView::Installing(id) => match event {
            EventView::InstallStarted => (
                PhaseView::Deploying(id),
                StepView { emit: Seq::empty(), actions: Seq::empty() },
            ),
            EventView::InstallFailed(_) => abort(
                id,
                OtaErrorView::InvalidBaseImage(install_reason()),
            ),
            EventView::Canceled => cancel(id, false),
            _ => stay(phase),
        },
        PhaseView::Deploying(id) => match event {
            EventView::Progress { percentage, message } => (
                phase,
                StepView {
                    emit: seq![OtaStatusView::Deploying(id, clamp_percent(percentage), message)],
                    actions: Seq::empty(),
                },
            ),
            EventView::Completed { signal } => if signal == 0 {
                (
                    PhaseView::Rebooting(id),
                    StepView {
                        emit: seq![OtaStatusView::Deployed(id), OtaStatusView::Rebooting(id)],
                        actions: seq![ActionView::RemoveBundle, ActionView::Reboot],
                    },
                )
            } else {
                abort(id, OtaErrorView::InvalidBaseImage(signal_reason(signal)))
            },
            EventView::StreamEnded(Some(reason)) => abort(
                id,
                OtaErrorView::InvalidBaseImage(
                    if reason.len() == 0 {
                        install_reason()
                    } else {
                        reason
                    },
                ),
            ),
            EventView::StreamEnded(None) => abort(
                id,
                OtaErrorView::InvalidBaseImage(install_reason()),
            ),
            EventView::Canceled => cancel(id, false),
            _ => stay(phase),
        },
        PhaseView::Rebooting(_) => stay(phase),
    }
}

/// The identity of an update or of none, by what it holds.
pub open spec fn id_view(id: Option<OtaId>) -> Option<OtaIdView> {
    match id {
        Some(id) => Some(id@),
        None => None,
    }
}

/// The machine that carries one update at a time.
#[derive(Debug, Clone, PartialEq, Eq)]
pub struct Machine {
    pub phase: Phase,
}

impl View for Machine {
    type V = PhaseView;

    open spec fn view(&self) -> PhaseView {
        self.phase@
    }
}

/// How many percent of the bundle have arrived.
fn percent(downloaded: u64, total: u64) -> (r: i32)
    ensures
        r == percent_of(downloaded, total),
        0 <= r <= 100,
{
    if total == 0 {
        0
    } else if downloaded >= total {
        100
    } else {
        assert(100 * downloaded / (total as int) < 100) by (nonlinear_arith)
            requires
                0 <= downloaded < total,
        ;
        assert(0 <= 100 * downloaded / (total as int)) by (nonlinear_arith)
            requires
                0 <= downloaded < total,
        ;
        let scaled: u128 = (downloaded as u128) * 100 / (total as u128);
        scaled as i32
    }
}

/// A percentage brought into its range.
fn clamped(percentage: i32) -> (r: i32)
    ensures
        r == clamp_percent(percentage as int),
        0 <= r <= 100,
{
    if percentage < 0 {
        0
    } else if percentage > 100 {
        100
    } else {
        percentage
    }
}

/// A step that does nothing.
fn quiet(phase: Phase) -> (r: (Machine, Step))
    ensures
        (r.0@, r.1@) == stay(phase@),
{
    let step = Step { emit: Vec::new(), actions: Vec::new() };
    proof {
        assert(step@.emit =~= Seq::empty());
        assert(step@.actions =~= Seq::empty());
    }
    (Machine { phase }, step)
}

/// A step into a phase.
fn moved(phase: Phase, emit: Vec<OtaStatus>, actions: Vec<Action>) -> (r: (Machine, Step))
    ensures
        r.0@ == phase@,
        r.1@.emit == status_views(emit@),
        r.1@.actions == action_views(actions@),
{
    (Machine { phase }, Step { emit, actions })
}

/// The end of an update by a failure.
fn failed(id: Option<OtaId>, error: OtaError, remove: bool, clear: bool) -> (r: (Machine, Step))
    ensures
        (r.0@, r.1@) == fail(id_view(id), error@, remove, clear),
{
    let ghost id_before = id_view(id);
    let ghost error_before = error@;
    let emit = vec![OtaStatus::Failure(error, id), OtaStatus::Idle];
    let mut actions: Vec<Action> = Vec::new();
    if remove {
        actions.push(Action::RemoveBundle);
    }
    if clear {
        actions.push(Action::ClearPersistent);
    }
    proof {
        assert(emit@[0]@ == OtaStatusView::Failure(error_before, id_before));
        assert(status_views(emit@) =~= seq![
            OtaStatusView::Failure(error_before, id_before),
            OtaStatusView::Idle,
        ]);
        assert(action_views(actions@) =~= fail(id_before, error_before, remove, clear).1.actions);
    }
    (Machine { phase: Phase::Idle }, Step { emit, actions })
}

/// The identity under which an update is reported after the reboot.
fn after_reboot(uuid: Uuid) -> (r: OtaId)
    ensures
        r@ == rebooted_id(uuid.0),
{
    OtaId { uuid, url: String::new() }
}

impl Machine {
    /// The machine of a process that has just started, and its first
    /// question: whether an earlier process left a persistent state.
    pub fn new() -> (r: (Machine, Step))
        ensures
            r.0@ == PhaseView::Starting,
            r.1@.emit == Seq::<OtaStatusView>::empty(),
            r.1@.actions == seq![ActionView::CheckPersistent],
    {
        let step = Step { emit: Vec::new(), actions: vec![Action::CheckPersistent] };
        proof {
            assert(step@.emit =~= Seq::empty());
            assert(step@.actions =~= seq![ActionView::CheckPersistent]);
        }
        (Machine { phase: Phase::Starting }, step)
    }

    /// The update that is under way, if there is one.
    pub fn job(&self) -> (r: Option<&OtaId>)
        ensures
            match r {
                Some(id) => self@.job() == Some(id@),
                None => self@.job() is None,
            },
    {
        match &self.phase {
            Phase::Downloading(id, _) => Some(id),
            Phase::Inspecting(id) => Some(id),
            Phase::Locating(id) => Some(id),
            Phase::Persisting(id) => Some(id),
            Phase::Installing(id) => Some(id),
            Phase::Deploying(id) => Some(id),
            Phase::Rebooting(id) => Some(id),
            _ => None,
        }
    }

    /// Whether no update is under way and none is being confirmed.
    pub fn is_idle(&self) -> (r: bool)
        ensures
            r == (self@ is Idle),
    {
        match &self.phase {
            Phase::Idle => true,
            _ => false,
        }
    }

    /// Whether the machine still looks into what an earlier process left.
    pub fn is_starting(&self) -> (r: bool)
        ensures
            r == self@.starting(),
    {
        match &self.phase {
            Phase::Starting => true,
            Phase::Reading => true,
            Phase::Confirming(_) => true,
            Phase::Marking(_) => true,
            _ => false,
        }
    }

    /// Whether the update that is under way can still be cancelled.
    pub fn is_cancellable(&self) -> (r: bool)
        ensures
            r == self@.cancellable(),
    {
        match &self.phase {
            Phase::Downloading(_, _) => true,
            Phase::Inspecting(_) => true,
            Phase::Locating(_) => true,
            Phase::Persisting(_) => true,
            Phase::Installing(_) => true,
            Phase::Deploying(_) => true,
            _ => false,
        }
    }

    /// Starts an update, if the machine is idle; else the update is refused
    /// and the machine goes on as it was.
    pub fn begin(self, id: OtaId) -> (r: (Machine, Step))
        ensures
            (r.0@, r.1@) == begin(self@, id@),
    {
        match self.phase {
            Phase::Idle => {
                let emit = vec![
                    OtaStatus::Init(id.clone()),
                    OtaStatus::Acknowledged(id.clone()),
                    OtaStatus::Downloading(id.clone(), 0),
                ];
                let actions = vec![Action::Download(id.clone())];
                proof {
                    assert(status_views(emit@) =~= begin(self@, id@).1.emit);
                    assert(action_views(actions@) =~= begin(self@, id@).1.actions);
                }
                moved(Phase::Downloading(id, 0), emit, actions)
            },
            phase => {
                let ghost id_before = id@;
                let emit = vec![OtaStatus::Failure(OtaError::UpdateAlreadyInProgress, Some(id))];
                let actions: Vec<Action> = Vec::new();
                proof {
                    assert(status_views(emit@) =~= begin(self@, id_before).1.emit);
                    assert(action_views(actions@) =~= Seq::empty());
                }
                moved(phase, emit, actions)
            },
        }
    }

    /// Takes what the world answered: the machine after it, the statuses to
    /// publish and the work to do.
    pub fn step(self, event: Event) -> (r: (Machine, Step))
        ensures
            (r.0@, r.1@) == next(self@, event@),
    {
        match self.phase {
            Phase::Starting => match event {
                Event::StateFound(false) => {
                    let emit = vec![OtaStatus::Idle];
                    let actions: Vec<Action> = Vec::new();
                    proof {
                        assert(status_views(emit@) =~= seq![OtaStatusView::Idle]);
                        assert(action_views(actions@) =~= Seq::empty());
                    }
                    moved(Phase::Idle, emit, actions)
                },
                Event::StateFound(true) => {
                    let emit: Vec<OtaStatus> = Vec::new();
                    let actions = vec![Action::ReadPersistent];
                    proof {
                        assert(status_views(emit@) =~= Seq::empty());
                        assert(action_views(actions@) =~= seq![ActionView::ReadPersistent]);
                    }
                    moved(Phase::Reading, emit, actions)
                },
                _ => quiet(Phase::Starting),
            },
            Phase::Reading => match event {
                Event::StateRead(state) => {
                    let emit = vec![OtaStatus::Rebooted];
                    let actions = vec![Action::ReadBootSlot];
                    proof {
                        assert(status_views(emit@) =~= seq![OtaStatusView::Rebooted]);
                        assert(action_views(actions@) =~= seq![ActionView::ReadBootSlot]);
                    }
                    moved(Phase::Confirming(state), emit, actions)
                },
                Event::StateUnreadable(reason) => failed(
                    None,
                    OtaError::InternalError(reason),
                    false,
                    true,
                ),
                _ => quiet(Phase::Reading),
            },
            Phase::Confirming(state) => match event {
                Event::BootSlot(now) => {
                    if now == state.slot {
                        failed(
                            Some(after_reboot(state.uuid)),
                            OtaError::SystemRollback(String::from_str("Unable to switch slot")),
                            false,
                            true,
                        )
                    } else {
                        let emit: Vec<OtaStatus> = Vec::new();
                        let actions = vec![Action::MarkActive];
                        proof {
                            assert(status_views(emit@) =~= Seq::empty());
                            assert(action_views(actions@) =~= seq![ActionView::MarkActive]);
                        }
                        moved(Phase::Marking(state.uuid), emit, actions)
                    }
                },
                Event::BootSlotUnknown(reason) => failed(
                    Some(after_reboot(state.uuid)),
                    OtaError::InternalError(reason),
                    false,
                    true,
                ),
                _ => quiet(Phase::Confirming(state)),
            },
            Phase::Marking(uuid) => match event {
                Event::Marked => {
                    let emit = vec![OtaStatus::Success(after_reboot(uuid)), OtaStatus::Idle];
                    let actions = vec![Action::ClearPersistent];
                    proof {
                        assert(status_views(emit@) =~= seq![
                            OtaStatusView::Success(rebooted_id(uuid.0)),
                            OtaStatusView::Idle,
                        ]);
                        assert(action_views(actions@) =~= seq![ActionView::ClearPersistent]);
                    }
                    moved(Phase::Idle, emit, actions)
                },
                Event::MarkFailed(reason) => failed(
                    Some(after_reboot(uuid)),
                    OtaError::InternalError(reason),
                    false,
                    true,
                ),
                _ => quiet(Phase::Marking(uuid)),
            },
            Phase::Idle => quiet(Phase::Idle),
            Phase::Downloading(id, so_far) => match event {
                Event::Chunk { downloaded, total } => {
                    let now = percent(downloaded, total);
                    if now > so_far {
                        let emit = vec![OtaStatus::Downloading(id.clone(), now)];
                        let actions: Vec<Action> = Vec::new();
                        proof {
                            assert(status_views(emit@) =~= seq![
                                OtaStatusView::Downloading(id@, now as int),
                            ]);
                            assert(action_views(actions@) =~= Seq::empty());
                        }
                        moved(Phase::Downloading(id, now), emit, actions)
                    } else {
                        quiet(Phase::Downloading(id, so_far))
                    }
                },
                Event::Downloaded => {
                    let mut emit: Vec<OtaStatus> = Vec::new();
                    if so_far < 100 {
                        emit.push(OtaStatus::Downloading(id.clone(), 100));
                    }
                    let actions = vec![Action::Inspect];
                    proof {
                        assert(status_views(emit@) =~= next(self@, event@).1.emit);
                        assert(action_views(actions@) =~= seq![ActionView::Inspect]);
                    }
                    moved(Phase::Inspecting(id), emit, actions)
                },
                Event::NetworkFailed(reason) => failed(
                    Some(id),
                    OtaError::Network(reason),
                    true,
                    true,
                ),
                Event::FileFailed(reason) => failed(
                    Some(id),
                    OtaError::IoError(reason),
                    true,
                    true,
                ),
                Event::Canceled => failed(Some(id), OtaError::Canceled, true, true),
                _ => quiet(Phase::Downloading(id, so_far)),
            },
            Phase::Inspecting(id) => match event {
                Event::Inspected { bundle, system } => {
                    if !(bundle == system) {
                        let reason = String::from_str("bundle ").concat(bundle.as_str()).concat(
                            " is not compatible with system ",
                        ).concat(system.as_str());
                        failed(Some(id), OtaError::InvalidBaseImage(reason), true, true)
                    } else {
                        let emit: Vec<OtaStatus> = Vec::new();
                        let actions = vec![Action::ReadBootSlot];
                        proof {
                            assert(status_views(emit@) =~= Seq::empty());
                            assert(action_views(actions@) =~= seq![ActionView::ReadBootSlot]);
                        }
                        moved(Phase::Locating(id), emit, actions)
                    }
                },
                Event::InspectFailed(reason) => failed(
                    Some(id),
                    OtaError::InvalidBaseImage(reason),
                    true,
                    true,
                ),
                Event::Canceled => failed(Some(id), OtaError::Canceled, true, true),
                _ => quiet(Phase::Inspecting(id)),
            },
            Phase::Locating(id) => match event {
                Event::BootSlot(slot) => {
                    let emit: Vec<OtaStatus> = Vec::new();
                    let actions = vec![
                        Action::WritePersistent(PersistentState { uuid: id.uuid, slot }),
                    ];
                    proof {
                        assert(status_views(emit@) =~= Seq::empty());
                        assert(action_views(actions@) =~= next(self@, event@).1.actions);
                    }
                    moved(Phase::Persisting(id), emit, actions)
                },
                Event::BootSlotUnknown(reason) => failed(
                    Some(id),
                    OtaError::InvalidBaseImage(reason),
                    true,
                    true,
                ),
                Event::Canceled => failed(Some(id), OtaError::Canceled, true, true),
                _ => quiet(Phase::Locating(id)),
            },
            Phase::Persisting(id) => match event {
                Event::Persisted => {
                    let emit = vec![
                        OtaStatus::Deploying(
                            id.clone(),
                            DeployProgress { percentage: 0, message: String::new() },
                        ),
                    ];
                    let actions = vec![Action::Install];
                    proof {
                        assert(status_views(emit@) =~= seq![
                            OtaStatusView::Deploying(id@, 0, Seq::<char>::empty()),
                        ]);
                        assert(action_views(actions@) =~= seq![ActionView::Install]);
                    }
                    moved(Phase::Installing(id), emit, actions)
                },
                Event::PersistFailed(reason) => failed(
                    Some(id),
                    OtaError::InternalError(reason),
                    true,
                    true,
                ),
                Event::Canceled => failed(Some(id), OtaError::Canceled, true, true),
                _ => quiet(Phase::Persisting(id)),
            },
            Phase::Installing(id) => match event {
                Event::InstallStarted => {
                    let emit: Vec<OtaStatus> = Vec::new();
                    let actions: Vec<Action> = Vec::new();
                    proof {
                        assert(status_views(emit@) =~= Seq::empty());
                        assert(action_views(actions@) =~= Seq::empty());
                    }
                    moved(Phase::Deploying(id), emit, actions)
                },
                Event::InstallFailed(_) => failed(
                    Some(id),
                    OtaError::InvalidBaseImage(String::from_str("Unable to install ota image")),
                    true,
                    true,
                ),
                Event::Canceled => failed(Some(id), OtaError::Canceled, true, false),
                _ => quiet(Phase::Installing(id)),
            },
            Phase::Deploying(id) => match event {
                Event::Deploy(DeployStatus::Progress(progress)) => {
                    let DeployProgress { percentage, message } = progress;
                    let ghost message_before = message@;
                    let emit = vec![
                        OtaStatus::Deploying(
                            id.clone(),
                            DeployProgress { percentage: clamped(percentage), message },
                        ),
                    ];
                    let actions: Vec<Action> = Vec::new();
                    proof {
                        assert(status_views(emit@) =~= seq![
                            OtaStatusView::Deploying(
                                id@,
                                clamp_percent(percentage as int),
                                message_before,
                            ),
                        ]);
                        assert(action_views(actions@) =~= Seq::empty());
                    }
                    moved(Phase::Deploying(id), emit, actions)
                },
                Event::Deploy(DeployStatus::Completed { signal }) => {
                    if signal == 0 {
                        let emit = vec![
                            OtaStatus::Deployed(id.clone()),
                            OtaStatus::Rebooting(id.clone()),
                        ];
                        let actions = vec![Action::RemoveBundle, Action::Reboot];
                        proof {
                            assert(status_views(emit@) =~= seq![
                                OtaStatusView::Deployed(id@),
                                OtaStatusView::Rebooting(id@),
                            ]);
                            assert(action_views(actions@) =~= seq![
                                ActionView::RemoveBundle,
                                ActionView::Reboot,
                            ]);
                        }
                        moved(Phase::Rebooting(id), emit, actions)
                    } else {
                        let number = i32_to_string(signal);
                        let reason = String::from_str("Update failed with signal ").concat(
                            number.as_str(),
                        );
                        failed(Some(id), OtaError::InvalidBaseImage(reason), true, true)
                    }
                },
                Event::StreamEnded(Some(reason)) => {
                    let reason = if reason.as_str().is_empty() {
                        String::from_str("Unable to install ota image")
                    } else {
                        reason
                    };
                    failed(Some(id), OtaError::InvalidBaseImage(reason), true, true)
                },
                Event::StreamEnded(None) => failed(
                    Some(id),
                    OtaError::InvalidBaseImage(String::from_str("Unable to install ota image")),
                    true,
                    true,
                ),
                Event::Canceled => failed(Some(id), OtaError::Canceled, true, false),
                _ => quiet(Phase::Deploying(id)),
            },
            Phase::Rebooting(id) => quiet(Phase::Rebooting(id)),
        }
    }
}

} // verus!
