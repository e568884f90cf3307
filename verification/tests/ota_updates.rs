use edgehog_device_runtime::ident::Uuid;
use edgehog_device_runtime::ota::event::OtaEvent;
use edgehog_device_runtime::ota::handler::{Admission, OtaHandler, OtaOperation, OtaRequest};
use edgehog_device_runtime::ota::machine::{Action, Event, Machine, Phase, Step};
use edgehog_device_runtime::ota::status::{
    DeployProgress, DeployStatus, OtaError, OtaId, OtaStatus, PersistentState,
};
use edgehog_device_runtime::ota::supervisor::{Supervisor, Verdict};
use edgehog_device_runtime::ota::trace::Input;

const UUID_1: u128 = 0x3647edbb_6747_4827_a3ef_dbb6239e3326;
const UUID_2: u128 = 0xa1a2a3a4_b1b2_c1c2_d1d2_d3d4d5d6d7d8;

fn ota_id(uuid: u128, url: &str) -> OtaId {
    OtaId {
        uuid: Uuid::from_u128(uuid),
        url: url.to_string(),
    }
}

fn update(uuid: u128, url: &str) -> OtaRequest {
    OtaRequest {
        operation: OtaOperation::Update,
        url: url.to_string(),
        uuid: Uuid::from_u128(uuid),
    }
}

fn cancel(uuid: u128, url: &str) -> OtaRequest {
    OtaRequest {
        operation: OtaOperation::Cancel,
        url: url.to_string(),
        uuid: Uuid::from_u128(uuid),
    }
}

fn no_progress() -> DeployProgress {
    DeployProgress {
        percentage: 0,
        message: String::new(),
    }
}

/// A process that found no persistent state, with what it has published.
fn started() -> (Supervisor, Vec<OtaStatus>, Vec<Action>) {
    let (supervisor, step) = Supervisor::new();
    assert!(step.emit.is_empty());
    assert_eq!(step.actions, vec![Action::CheckPersistent]);
    let (supervisor, step) = supervisor.deliver(Event::StateFound(false));
    assert!(step.actions.is_empty());
    (supervisor, step.emit, Vec::new())
}

fn deliver_all(
    mut supervisor: Supervisor,
    events: Vec<Event>,
    trace: &mut Vec<OtaStatus>,
    work: &mut Vec<Action>,
) -> Supervisor {
    for event in events {
        let (next, mut step) = supervisor.deliver(event);
        supervisor = next;
        trace.append(&mut step.emit);
        work.append(&mut step.actions);
    }
    supervisor
}

fn submit_update(
    supervisor: Supervisor,
    request: OtaRequest,
    trace: &mut Vec<OtaStatus>,
    work: &mut Vec<Action>,
) -> Supervisor {
    let (supervisor, verdict) = supervisor.submit(request);
    match verdict {
        Verdict::Started(mut step) => {
            trace.append(&mut step.emit);
            work.append(&mut step.actions);
        }
        Verdict::Refused(status) => trace.push(status),
        other => panic!("the update was neither started nor refused: {other:?}"),
    }
    supervisor
}

fn download_events() -> Vec<Event> {
    vec![
        Event::Chunk {
            downloaded: 3,
            total: 3,
        },
        Event::Downloaded,
    ]
}

fn install_events(slot: &str) -> Vec<Event> {
    vec![
        Event::Inspected {
            bundle: "rauc-demo-x86".to_string(),
            system: "rauc-demo-x86".to_string(),
        },
        Event::BootSlot(slot.to_string()),
        Event::Persisted,
    ]
}

#[test]
fn handle_ota_event_bundle_not_compatible() {
    let bundle_info = "rauc-demo-x86";
    let system_info = "rauc-demo-arm";
    let ota_url = "http://localhost:5000/ota.bin";

    let (supervisor, mut trace, mut work) = started();
    let supervisor = submit_update(supervisor, update(UUID_1, ota_url), &mut trace, &mut work);
    let mut events = download_events();
    events.push(Event::Inspected {
        bundle: bundle_info.to_string(),
        system: system_info.to_string(),
    });
    let supervisor = deliver_all(supervisor, events, &mut trace, &mut work);

    let id = ota_id(UUID_1, ota_url);
    let exp = vec![
        OtaStatus::Idle,
        OtaStatus::Init(id.clone()),
        OtaStatus::Acknowledged(id.clone()),
        OtaStatus::Downloading(id.clone(), 0),
        OtaStatus::Downloading(id.clone(), 100),
        OtaStatus::Failure(
            OtaError::InvalidBaseImage(format!(
                "bundle {bundle_info} is not compatible with system {system_info}"
            )),
            Some(id.clone()),
        ),
        OtaStatus::Idle,
    ];
    assert_eq!(trace, exp);
    assert_eq!(
        work,
        vec![
            Action::Download(id),
            Action::Inspect,
            Action::RemoveBundle,
            Action::ClearPersistent
        ]
    );
    assert!(supervisor.current_update().is_none());
}

#[test]
fn handle_ota_event_bundle_install_completed_fail() {
    let ota_url = "http://localhost:5000/ota.bin";
    let (supervisor, mut trace, mut work) = started();
    let supervisor = submit_update(supervisor, update(UUID_1, ota_url), &mut trace, &mut work);
    let mut events = download_events();
    events.append(&mut install_events("A"));
    events.push(Event::InstallStarted);
    events.push(Event::Deploy(DeployStatus::Completed { signal: -1 }));
    let _ = deliver_all(supervisor, events, &mut trace, &mut work);

    let id = ota_id(UUID_1, ota_url);
    let exp = vec![
        OtaStatus::Idle,
        OtaStatus::Init(id.clone()),
        OtaStatus::Acknowledged(id.clone()),
        OtaStatus::Downloading(id.clone(), 0),
        OtaStatus::Downloading(id.clone(), 100),
        OtaStatus::Deploying(id.clone(), no_progress()),
        OtaStatus::Failure(
            OtaError::InvalidBaseImage("Update failed with signal -1".to_string()),
            Some(id.clone()),
        ),
        OtaStatus::Idle,
    ];
    assert_eq!(trace, exp);
    assert_eq!(
        work,
        vec![
            Action::Download(id),
            Action::Inspect,
            Action::ReadBootSlot,
            Action::WritePersistent(PersistentState {
                uuid: Uuid::from_u128(UUID_1),
                slot: "A".to_string()
            }),
            Action::Install,
            Action::RemoveBundle,
            Action::ClearPersistent,
        ]
    );
}

#[test]
fn ota_event_fail_deployed() {
    let ota_url = "http://localhost:5000/ota.bin";
    let (supervisor, mut trace, mut work) = started();
    let supervisor = submit_update(supervisor, update(UUID_1, ota_url), &mut trace, &mut work);
    let mut events = download_events();
    events.append(&mut install_events("B"));
    events.push(Event::InstallFailed("install fail".to_string()));
    let _ = deliver_all(supervisor, events, &mut trace, &mut work);

    let id = ota_id(UUID_1, ota_url);
    let exp = vec![
        OtaStatus::Idle,
        OtaStatus::Init(id.clone()),
        OtaStatus::Acknowledged(id.clone()),
        OtaStatus::Downloading(id.clone(), 0),
        OtaStatus::Downloading(id.clone(), 100),
        OtaStatus::Deploying(id.clone(), no_progress()),
        OtaStatus::Failure(
            OtaError::InvalidBaseImage("Unable to install ota image".to_string()),
            Some(id.clone()),
        ),
        OtaStatus::Idle,
    ];
    assert_eq!(trace, exp);
    assert!(work.contains(&Action::WritePersistent(PersistentState {
        uuid: Uuid::from_u128(UUID_1),
        slot: "B".to_string()
    })));
}

#[test]
fn stream_that_ends_early_fails_with_the_last_error() {
    let run = |last_error: Option<String>| {
        let (supervisor, mut trace, mut work) = started();
        let supervisor =
            submit_update(supervisor, update(UUID_1, "u"), &mut trace, &mut work);
        let mut events = download_events();
        events.append(&mut install_events("A"));
        events.push(Event::InstallStarted);
        events.push(Event::StreamEnded(last_error));
        let _ = deliver_all(supervisor, events, &mut trace, &mut work);
        trace
    };
    let trace = run(Some("Unable to deploy image".to_string()));
    assert_eq!(
        trace[trace.len() - 2],
        OtaStatus::Failure(
            OtaError::InvalidBaseImage("Unable to deploy image".to_string()),
            Some(ota_id(UUID_1, "u"))
        )
    );
    assert_eq!(trace[trace.len() - 1], OtaStatus::Idle);
    for none in [None, Some(String::new())] {
        let trace = run(none);
        assert_eq!(
            trace[trace.len() - 2],
            OtaStatus::Failure(
                OtaError::InvalidBaseImage("Unable to install ota image".to_string()),
                Some(ota_id(UUID_1, "u"))
            )
        );
    }
}

/// The statuses of a process that starts after a reboot into an update.
fn after_reboot(now: &str, trace: &mut Vec<OtaStatus>, work: &mut Vec<Action>) {
    let (supervisor, step) = Supervisor::new();
    assert_eq!(step.actions, vec![Action::CheckPersistent]);
    let mut events = vec![
        Event::StateFound(true),
        Event::StateRead(PersistentState {
            uuid: Uuid::from_u128(UUID_1),
            slot: "A".to_string(),
        }),
        Event::BootSlot(now.to_string()),
    ];
    if now != "A" {
        events.push(Event::Marked);
    }
    let supervisor = deliver_all(supervisor, events, trace, work);
    assert!(supervisor.current_update().is_none());
}

#[test]
fn ota_event_update_success() {
    let ota_url = "http://localhost:5000/ota.bin";
    let (supervisor, mut trace, mut work) = started();
    let supervisor = submit_update(supervisor, update(UUID_1, ota_url), &mut trace, &mut work);
    let mut events = download_events();
    events.append(&mut install_events("A"));
    events.push(Event::InstallStarted);
    events.push(Event::Deploy(DeployStatus::Completed { signal: 0 }));
    let supervisor = deliver_all(supervisor, events, &mut trace, &mut work);
    // the process ends with the reboot: nothing moves the machine any more
    assert_eq!(supervisor.current_update(), Some(&ota_id(UUID_1, ota_url)));
    let (supervisor, step) = supervisor.deliver(Event::Canceled);
    assert_eq!(
        step,
        Step {
            emit: Vec::new(),
            actions: Vec::new()
        }
    );
    let (_, verdict) = supervisor.submit(cancel(UUID_1, ota_url));
    assert_eq!(
        verdict,
        Verdict::Refused(OtaStatus::Failure(
            OtaError::InternalError("Unable to cancel OTA request".to_string()),
            Some(ota_id(UUID_1, ota_url))
        ))
    );
    assert_eq!(
        work,
        vec![
            Action::Download(ota_id(UUID_1, ota_url)),
            Action::Inspect,
            Action::ReadBootSlot,
            Action::WritePersistent(PersistentState {
                uuid: Uuid::from_u128(UUID_1),
                slot: "A".to_string()
            }),
            Action::Install,
            Action::RemoveBundle,
            Action::Reboot,
        ]
    );

    // the process that starts after the reboot
    let mut late = Vec::new();
    after_reboot("B", &mut trace, &mut late);
    assert_eq!(
        late,
        vec![
            Action::ReadPersistent,
            Action::ReadBootSlot,
            Action::MarkActive,
            Action::ClearPersistent
        ]
    );

    let id = ota_id(UUID_1, ota_url);
    let exp = vec![
        OtaStatus::Idle,
        OtaStatus::Init(id.clone()),
        OtaStatus::Acknowledged(id.clone()),
        OtaStatus::Downloading(id.clone(), 0),
        OtaStatus::Downloading(id.clone(), 100),
        OtaStatus::Deploying(id.clone(), no_progress()),
        OtaStatus::Deployed(id.clone()),
        OtaStatus::Rebooting(id.clone()),
        OtaStatus::Rebooted,
        OtaStatus::Success(ota_id(UUID_1, "")),
        OtaStatus::Idle,
    ];
    assert_eq!(trace, exp);
}

#[test]
fn ota_event_update_already_in_progress_same_uuid() {
    let ota_url = "http://localhost";
    let (supervisor, mut trace, mut work) = started();
    let supervisor = submit_update(supervisor, update(UUID_1, ota_url), &mut trace, &mut work);
    assert!(supervisor.current_update().is_some());
    // the same update again: the one that runs goes on, and the second is told
    let supervisor = submit_update(supervisor, update(UUID_1, ota_url), &mut trace, &mut work);
    assert_eq!(supervisor.current_update(), Some(&ota_id(UUID_1, ota_url)));

    let id = ota_id(UUID_1, ota_url);
    let exp = vec![
        OtaStatus::Idle,
        OtaStatus::Init(id.clone()),
        OtaStatus::Acknowledged(id.clone()),
        OtaStatus::Downloading(id.clone(), 0),
        OtaStatus::Failure(OtaError::UpdateAlreadyInProgress, Some(id.clone())),
    ];
    assert_eq!(trace, exp);
    assert_eq!(work, vec![Action::Download(id)]);
}

#[test]
fn ota_event_update_already_in_progress_different_uuid() {
    let ota_url = "http://localhost";
    let mut handler = OtaHandler::new();
    assert!(handler
        .check_update_already_in_progress(&ota_id(UUID_1, ota_url))
        .is_none());
    assert_eq!(
        handler.handle_event(update(UUID_1, ota_url), false),
        Admission::Start(ota_id(UUID_1, ota_url))
    );
    assert!(handler.current.is_some());

    let failure = OtaStatus::Failure(
        OtaError::UpdateAlreadyInProgress,
        Some(ota_id(UUID_2, ota_url)),
    );
    let mut count = 0;
    // one for the check
    if handler.check_update_already_in_progress(&ota_id(UUID_2, ota_url)) == Some(failure.clone())
    {
        count += 1;
    }
    // one for the request
    if handler.handle_event(update(UUID_2, ota_url), true) == Admission::Refuse(failure) {
        count += 1;
    }
    assert_eq!(count, 2);
    assert_eq!(handler.current, Some(ota_id(UUID_1, ota_url)));
}

#[test]
fn ota_event_canceled() {
    let mut handler = OtaHandler {
        current: Some(ota_id(UUID_1, "")),
    };
    assert_eq!(handler.handle_event(cancel(UUID_1, ""), true), Admission::Cancel);
    assert_eq!(handler.current, Some(ota_id(UUID_1, "")));

    let machine = Machine {
        phase: Phase::Downloading(ota_id(UUID_1, ""), 0),
    };
    let (machine, step) = machine.step(Event::Canceled);
    assert!(machine.is_idle());
    let failure = OtaStatus::Failure(OtaError::Canceled, Some(ota_id(UUID_1, "")));
    assert_eq!(step.emit, vec![failure.clone(), OtaStatus::Idle]);
    assert_eq!(step.actions, vec![Action::RemoveBundle, Action::ClearPersistent]);

    let event = OtaEvent::from_status(&failure).unwrap();
    assert_eq!(event.status, "Failure");
    assert_eq!(event.statusCode, "Canceled");
    assert_eq!(event.statusProgress, 0);
    assert_eq!(event.requestUUID, "3647edbb-6747-4827-a3ef-dbb6239e3326");
    assert_eq!(event.message, "");
}

#[test]
fn ota_event_success_after_canceled_event() {
    let ota_url = "http://localhost:5000/ota.bin";
    let (supervisor, mut trace, mut work) = started();
    let supervisor = submit_update(supervisor, update(UUID_1, ota_url), &mut trace, &mut work);
    let (supervisor, verdict) = supervisor.submit(cancel(UUID_1, ota_url));
    assert_eq!(verdict, Verdict::Cancel);
    let supervisor = deliver_all(supervisor, vec![Event::Canceled], &mut trace, &mut work);
    assert!(supervisor.current_update().is_none());
    // what was still on its way to the cancelled update changes nothing
    let supervisor = deliver_all(supervisor, download_events(), &mut trace, &mut work);

    let supervisor = submit_update(supervisor, update(UUID_2, ota_url), &mut trace, &mut work);
    let mut events = download_events();
    events.append(&mut install_events("B"));
    events.push(Event::InstallStarted);
    events.push(Event::Deploy(DeployStatus::Completed { signal: 0 }));
    let _ = deliver_all(supervisor, events, &mut trace, &mut work);

    let first = ota_id(UUID_1, ota_url);
    let id = ota_id(UUID_2, ota_url);
    let exp = vec![
        OtaStatus::Idle,
        OtaStatus::Init(first.clone()),
        OtaStatus::Acknowledged(first.clone()),
        OtaStatus::Downloading(first.clone(), 0),
        OtaStatus::Failure(OtaError::Canceled, Some(first.clone())),
        OtaStatus::Idle,
        OtaStatus::Init(id.clone()),
        OtaStatus::Acknowledged(id.clone()),
        OtaStatus::Downloading(id.clone(), 0),
        OtaStatus::Downloading(id.clone(), 100),
        OtaStatus::Deploying(id.clone(), no_progress()),
        OtaStatus::Deployed(id.clone()),
        OtaStatus::Rebooting(id.clone()),
    ];
    assert_eq!(trace, exp);
    assert_eq!(
        &work[..3],
        &[
            Action::Download(first),
            Action::RemoveBundle,
            Action::ClearPersistent
        ]
    );
}

fn refusal(handler: &mut OtaHandler, request: OtaRequest, active: bool) -> OtaEvent {
    match handler.handle_event(request, active) {
        Admission::Refuse(status) => OtaEvent::from_status(&status).unwrap(),
        other => panic!("the request was not refused: {other:?}"),
    }
}

#[test]
fn ota_event_not_canceled() {
    // the update has run to its end
    let mut handler = OtaHandler {
        current: Some(ota_id(UUID_1, "")),
    };
    let event = refusal(&mut handler, cancel(UUID_1, ""), false);
    assert_eq!(event.status, "Failure");
    assert_eq!(event.statusCode, "InternalError");
    assert_eq!(event.statusProgress, 0);
    assert_eq!(event.requestUUID, "3647edbb-6747-4827-a3ef-dbb6239e3326");
    assert_eq!(event.message, "Unable to cancel OTA request");
}

#[test]
fn ota_event_not_canceled_empty() {
    let mut handler = OtaHandler::new();
    let event = refusal(&mut handler, cancel(UUID_1, ""), false);
    assert_eq!(event.status, "Failure");
    assert_eq!(event.statusCode, "InternalError");
    assert_eq!(event.statusProgress, 0);
    assert_eq!(event.requestUUID, "3647edbb-6747-4827-a3ef-dbb6239e3326");
    assert_eq!(
        event.message,
        "Unable to cancel OTA request, internal request is empty"
    );
    assert!(handler.current.is_none());
}

#[test]
fn ota_event_not_canceled_different_uuid() {
    let mut handler = OtaHandler {
        current: Some(ota_id(UUID_2, "")),
    };
    let event = refusal(&mut handler, cancel(UUID_1, ""), true);
    assert_eq!(event.status, "Failure");
    assert_eq!(event.statusCode, "InternalError");
    assert_eq!(event.statusProgress, 0);
    assert_eq!(event.requestUUID, "3647edbb-6747-4827-a3ef-dbb6239e3326");
    assert_eq!(
        event.message,
        "Unable to cancel OTA request, they have different identifier"
    );
    assert_eq!(handler.current, Some(ota_id(UUID_2, "")));
}

#[test]
fn ensure_pending_ota_ota_is_done_fail() {
    let mut trace = Vec::new();
    let mut work = Vec::new();
    after_reboot("A", &mut trace, &mut work);
    let exp = vec![
        OtaStatus::Rebooted,
        OtaStatus::Failure(
            OtaError::SystemRollback("Unable to switch slot".to_string()),
            Some(ota_id(UUID_1, "")),
        ),
        OtaStatus::Idle,
    ];
    assert_eq!(trace, exp);
    assert_eq!(
        work,
        vec![
            Action::ReadPersistent,
            Action::ReadBootSlot,
            Action::ClearPersistent
        ]
    );
}

#[test]
fn ensure_pending_ota_is_done_ota_success() {
    let mut trace = Vec::new();
    let mut work = Vec::new();
    after_reboot("B", &mut trace, &mut work);
    assert_eq!(
        trace,
        vec![
            OtaStatus::Rebooted,
            OtaStatus::Success(ota_id(UUID_1, "")),
            OtaStatus::Idle
        ]
    );
    let event = OtaEvent::from_status(&trace[1]).unwrap();
    assert_eq!(event.status, "Success");
    assert!(event.statusCode.is_empty());
    assert_eq!(event.statusProgress, 0);
    assert_eq!(event.requestUUID, "3647edbb-6747-4827-a3ef-dbb6239e3326");
}

#[test]
fn startup_failures_are_internal_errors() {
    let (machine, _) = Machine::new();
    let (machine, _) = machine.step(Event::StateFound(true));
    let (machine, step) = machine.step(Event::StateUnreadable("broken".to_string()));
    assert!(machine.is_idle());
    assert_eq!(
        step.emit,
        vec![
            OtaStatus::Failure(OtaError::InternalError("broken".to_string()), None),
            OtaStatus::Idle
        ]
    );
    assert_eq!(step.actions, vec![Action::ClearPersistent]);
    assert!(OtaEvent::from_status(&step.emit[0]).is_none());

    let state = PersistentState {
        uuid: Uuid::from_u128(UUID_2),
        slot: "A".to_string(),
    };
    let machine = Machine {
        phase: Phase::Confirming(state),
    };
    let (_, step) = machine.step(Event::BootSlotUnknown("no slot".to_string()));
    assert_eq!(
        step.emit[0],
        OtaStatus::Failure(
            OtaError::InternalError("no slot".to_string()),
            Some(ota_id(UUID_2, ""))
        )
    );
    let machine = Machine {
        phase: Phase::Marking(Uuid::from_u128(UUID_2)),
    };
    let (machine, step) = machine.step(Event::MarkFailed("no mark".to_string()));
    assert!(machine.is_idle());
    assert_eq!(
        step.emit[0],
        OtaStatus::Failure(
            OtaError::InternalError("no mark".to_string()),
            Some(ota_id(UUID_2, ""))
        )
    );
}

#[test]
fn download_percentage_only_rises() {
    let id = ota_id(UUID_1, "u");
    let machine = Machine { phase: Phase::Idle };
    let chunk = |downloaded: u64, total: u64| Input::Event(Event::Chunk { downloaded, total });
    let inputs = vec![
        Input::Begin(id.clone()),
        chunk(10, 1000),
        chunk(5, 1000),
        chunk(10, 1000),
        chunk(19, 1000),
        chunk(20, 1000),
        chunk(999, 1000),
        chunk(0, 0),
        chunk(u64::MAX, u64::MAX),
        chunk(2000, 1000),
        Input::Event(Event::Downloaded),
    ];
    let (machine, step) = machine.replay(inputs);
    assert_eq!(machine.phase, Phase::Inspecting(id.clone()));
    let exp = vec![
        OtaStatus::Init(id.clone()),
        OtaStatus::Acknowledged(id.clone()),
        OtaStatus::Downloading(id.clone(), 0),
        OtaStatus::Downloading(id.clone(), 1),
        OtaStatus::Downloading(id.clone(), 2),
        OtaStatus::Downloading(id.clone(), 99),
        OtaStatus::Downloading(id.clone(), 100),
    ];
    assert_eq!(step.emit, exp);

    // a bundle of unknown size is at 100 percent once it has arrived
    let machine = Machine {
        phase: Phase::Downloading(id.clone(), 0),
    };
    let (_, step) = machine.replay(vec![chunk(7, 0), Input::Event(Event::Downloaded)]);
    assert_eq!(step.emit, vec![OtaStatus::Downloading(id.clone(), 100)]);
    assert_eq!(step.actions, vec![Action::Inspect]);

    // a huge bundle does not overflow
    let machine = Machine {
        phase: Phase::Downloading(id.clone(), 0),
    };
    let (_, step) = machine.step(Event::Chunk {
        downloaded: u64::MAX / 2,
        total: u64::MAX,
    });
    assert_eq!(step.emit, vec![OtaStatus::Downloading(id, 49)]);
}

#[test]
fn download_failures_keep_their_kind() {
    let id = ota_id(UUID_1, "u");
    let machine = Machine {
        phase: Phase::Downloading(id.clone(), 30),
    };
    let (_, step) = machine.step(Event::NetworkFailed("timeout".to_string()));
    assert_eq!(
        step.emit,
        vec![
            OtaStatus::Failure(OtaError::Network("timeout".to_string()), Some(id.clone())),
            OtaStatus::Idle
        ]
    );
    let machine = Machine {
        phase: Phase::Downloading(id.clone(), 30),
    };
    let (_, step) = machine.step(Event::FileFailed("disk full".to_string()));
    assert_eq!(
        step.emit[0],
        OtaStatus::Failure(OtaError::IoError("disk full".to_string()), Some(id.clone()))
    );
    let machine = Machine {
        phase: Phase::Persisting(id.clone()),
    };
    let (_, step) = machine.step(Event::PersistFailed("read only".to_string()));
    assert_eq!(
        step.emit[0],
        OtaStatus::Failure(OtaError::InternalError("read only".to_string()), Some(id.clone()))
    );
    let machine = Machine {
        phase: Phase::Inspecting(id.clone()),
    };
    let (_, step) = machine.step(Event::InspectFailed("no info".to_string()));
    assert_eq!(
        step.emit[0],
        OtaStatus::Failure(OtaError::InvalidBaseImage("no info".to_string()), Some(id.clone()))
    );
    let machine = Machine {
        phase: Phase::Locating(id.clone()),
    };
    let (_, step) = machine.step(Event::BootSlotUnknown("no slot".to_string()));
    assert_eq!(
        step.emit[0],
        OtaStatus::Failure(OtaError::InvalidBaseImage("no slot".to_string()), Some(id))
    );
}

#[test]
fn deploy_progress_is_published_in_range() {
    let id = ota_id(UUID_1, "u");
    let progress = |percentage: i32| {
        Input::Event(Event::Deploy(DeployStatus::Progress(DeployProgress {
            percentage,
            message: "installing".to_string(),
        })))
    };
    let machine = Machine {
        phase: Phase::Deploying(id.clone()),
    };
    let (machine, step) = machine.replay(vec![progress(-5), progress(40), progress(200)]);
    assert_eq!(machine.phase, Phase::Deploying(id.clone()));
    let published: Vec<i32> = step
        .emit
        .iter()
        .map(|status| match status {
            OtaStatus::Deploying(_, progress) => progress.percentage,
            other => panic!("not a deploy status: {other:?}"),
        })
        .collect();
    assert_eq!(published, vec![0, 40, 100]);
    let event = OtaEvent::from_status(&step.emit[1]).unwrap();
    assert_eq!(event.status, "Deploying");
    assert_eq!(event.statusProgress, 40);
    assert_eq!(event.message, "installing");
    assert_eq!(event.statusCode, "");
}

#[test]
fn cancellation_clears_the_state_only_before_the_installation() {
    let id = ota_id(UUID_1, "u");
    let before = [
        Phase::Downloading(id.clone(), 50),
        Phase::Inspecting(id.clone()),
        Phase::Locating(id.clone()),
        Phase::Persisting(id.clone()),
    ];
    for phase in before {
        let machine = Machine { phase };
        assert!(machine.is_cancellable());
        let (machine, step) = machine.step(Event::Canceled);
        assert!(machine.is_idle());
        assert_eq!(
            step.emit,
            vec![
                OtaStatus::Failure(OtaError::Canceled, Some(id.clone())),
                OtaStatus::Idle
            ]
        );
        assert_eq!(step.actions, vec![Action::RemoveBundle, Action::ClearPersistent]);
    }
    for phase in [Phase::Installing(id.clone()), Phase::Deploying(id.clone())] {
        let machine = Machine { phase };
        assert!(machine.is_cancellable());
        let (machine, step) = machine.step(Event::Canceled);
        assert!(machine.is_idle());
        assert_eq!(
            step.emit,
            vec![
                OtaStatus::Failure(OtaError::Canceled, Some(id.clone())),
                OtaStatus::Idle
            ]
        );
        assert_eq!(step.actions, vec![Action::RemoveBundle]);
    }
    for phase in [
        Phase::Idle,
        Phase::Starting,
        Phase::Reading,
        Phase::Marking(Uuid::from_u128(UUID_1)),
        Phase::Rebooting(id.clone()),
    ] {
        let machine = Machine {
            phase: phase.clone(),
        };
        assert!(!machine.is_cancellable());
        let (machine, step) = machine.step(Event::Canceled);
        assert_eq!(machine.phase, phase);
        assert!(step.emit.is_empty() && step.actions.is_empty());
    }
}

#[test]
fn requests_wait_while_the_machine_starts() {
    let (supervisor, _) = Supervisor::new();
    let (supervisor, verdict) = supervisor.submit(update(UUID_1, "u"));
    assert_eq!(verdict, Verdict::Deferred(update(UUID_1, "u")));
    assert!(supervisor.current_update().is_none());
    let (supervisor, _) = supervisor.deliver(Event::StateFound(false));
    let (supervisor, verdict) = supervisor.submit(update(UUID_1, "u"));
    assert!(matches!(verdict, Verdict::Started(_)));
    assert_eq!(supervisor.current_update(), Some(&ota_id(UUID_1, "u")));
}

#[test]
fn a_second_start_is_refused_by_the_machine() {
    let id = ota_id(UUID_1, "u");
    let machine = Machine {
        phase: Phase::Inspecting(id.clone()),
    };
    let (machine, step) = machine.begin(ota_id(UUID_2, "v"));
    assert_eq!(machine.phase, Phase::Inspecting(id.clone()));
    assert_eq!(machine.job(), Some(&id));
    assert!(!machine.is_starting());
    assert_eq!(
        step.emit,
        vec![OtaStatus::Failure(
            OtaError::UpdateAlreadyInProgress,
            Some(ota_id(UUID_2, "v"))
        )]
    );
    let event = OtaEvent::from_status(&step.emit[0]).unwrap();
    assert_eq!(event.statusCode, "UpdateAlreadyInProgress");
    assert_eq!(event.requestUUID, "a1a2a3a4-b1b2-c1c2-d1d2-d3d4d5d6d7d8");
}

#[test]
fn statuses_are_reported_with_their_names_and_codes() {
    let id = ota_id(UUID_2, "u");
    let named = |status: OtaStatus| OtaEvent::from_status(&status).unwrap().status;
    assert_eq!(named(OtaStatus::Acknowledged(id.clone())), "Acknowledged");
    assert_eq!(named(OtaStatus::Downloading(id.clone(), 7)), "Downloading");
    assert_eq!(named(OtaStatus::Deploying(id.clone(), no_progress())), "Deploying");
    assert_eq!(named(OtaStatus::Deployed(id.clone())), "Deployed");
    assert_eq!(named(OtaStatus::Rebooting(id.clone())), "Rebooting");
    assert_eq!(named(OtaStatus::Success(id.clone())), "Success");
    assert_eq!(
        OtaEvent::from_status(&OtaStatus::Downloading(id.clone(), 7)).unwrap(),
        OtaEvent {
            requestUUID: "a1a2a3a4-b1b2-c1c2-d1d2-d3d4d5d6d7d8".to_string(),
            status: "Downloading".to_string(),
            statusProgress: 7,
            statusCode: String::new(),
            message: String::new(),
        }
    );
    for silent in [OtaStatus::Idle, OtaStatus::Init(id.clone()), OtaStatus::Rebooted] {
        assert!(!silent.is_final());
        assert!(OtaEvent::from_status(&silent).is_none());
    }
    assert!(OtaStatus::Success(id.clone()).is_final());

    let codes = [
        (OtaError::Canceled, "Canceled", ""),
        (OtaError::InvalidBaseImage("a".to_string()), "InvalidBaseImage", "a"),
        (OtaError::UpdateAlreadyInProgress, "UpdateAlreadyInProgress", ""),
        (OtaError::SystemRollback("b".to_string()), "SystemRollback", "b"),
        (OtaError::IoError("c".to_string()), "IOError", "c"),
        (OtaError::InternalError("d".to_string()), "InternalError", "d"),
        (OtaError::Network("e".to_string()), "Network", "e"),
    ];
    for (error, code, message) in codes {
        assert_eq!(error.status_code(), code);
        assert_eq!(error.message(), message);
        let status = OtaStatus::Failure(error, Some(id.clone()));
        assert!(status.is_final());
        let event = OtaEvent::from_status(&status).unwrap();
        assert_eq!(event.status, "Failure");
        assert_eq!(event.statusCode, code);
        assert_eq!(event.message, message);
        assert_eq!(event.statusProgress, 0);
    }
}

#[test]
fn handler_lets_go_when_the_device_is_idle() {
    let mut handler = OtaHandler {
        current: Some(ota_id(UUID_1, "u")),
    };
    handler.observe(&OtaStatus::Failure(
        OtaError::UpdateAlreadyInProgress,
        Some(ota_id(UUID_1, "u")),
    ));
    assert!(handler.current.is_some());
    handler.observe(&OtaStatus::Success(ota_id(UUID_1, "")));
    assert!(handler.current.is_some());
    handler.observe(&OtaStatus::Idle);
    assert!(handler.current.is_none());
}

/// A store that answers truly, and the machine that works with it.
struct Device {
    stored: bool,
    machine: Option<Machine>,
    reads: usize,
}

impl Device {
    fn start(stored: bool) -> Self {
        let (machine, step) = Machine::new();
        let mut device = Device {
            stored,
            machine: Some(machine),
            reads: 0,
        };
        device.work(step.actions);
        device
    }

    fn work(&mut self, actions: Vec<Action>) {
        for action in actions {
            match action {
                Action::CheckPersistent => self.step(Event::StateFound(self.stored)),
                Action::ReadPersistent => {
                    assert!(self.stored, "the state was read while the store held none");
                    self.reads += 1;
                    self.step(Event::StateRead(PersistentState {
                        uuid: Uuid::from_u128(UUID_1),
                        slot: "A".to_string(),
                    }));
                }
                Action::WritePersistent(_) => {
                    self.stored = true;
                    self.step(Event::Persisted);
                }
                Action::ClearPersistent => self.stored = false,
                Action::ReadBootSlot => self.step(Event::BootSlot("B".to_string())),
                Action::MarkActive => self.step(Event::Marked),
                Action::Download(_) => self.step(Event::Downloaded),
                Action::Inspect => self.step(Event::Inspected {
                    bundle: "x".to_string(),
                    system: "x".to_string(),
                }),
                Action::Install => self.step(Event::InstallStarted),
                Action::RemoveBundle | Action::Reboot => {}
            }
        }
    }

    fn step(&mut self, event: Event) {
        let (machine, step) = self.machine.take().unwrap().step(event);
        self.machine = Some(machine);
        self.work(step.actions);
    }

    fn begin(&mut self, id: OtaId) {
        let (machine, step) = self.machine.take().unwrap().begin(id);
        self.machine = Some(machine);
        self.work(step.actions);
    }

    fn phase(&self) -> Phase {
        self.machine.as_ref().unwrap().phase.clone()
    }
}

#[test]
fn the_state_is_not_read_after_it_was_cleared() {
    // nothing was left: nothing is read
    let mut device = Device::start(false);
    assert_eq!(device.reads, 0);
    assert_eq!(device.phase(), Phase::Idle);

    // an update that fails clears the state
    device.begin(ota_id(UUID_1, "u"));
    assert_eq!(device.phase(), Phase::Deploying(ota_id(UUID_1, "u")));
    assert!(device.stored);
    device.step(Event::Deploy(DeployStatus::Completed { signal: 1 }));
    assert_eq!(device.phase(), Phase::Idle);
    assert!(!device.stored);

    // the next process finds nothing and reads nothing
    let device = Device::start(device.stored);
    assert_eq!(device.reads, 0);

    // an update that succeeds leaves the state to the next process ...
    let mut device = Device::start(false);
    device.begin(ota_id(UUID_1, "u"));
    device.step(Event::Deploy(DeployStatus::Completed { signal: 0 }));
    assert_eq!(device.phase(), Phase::Rebooting(ota_id(UUID_1, "u")));
    assert!(device.stored);

    // ... which reads it once and clears it
    let device = Device::start(device.stored);
    assert_eq!(device.reads, 1);
    assert_eq!(device.phase(), Phase::Idle);
    assert!(!device.stored);
    let device = Device::start(device.stored);
    assert_eq!(device.reads, 0);
}

#[test]
fn the_front_door_holds_what_the_machine_carries() {
    let (mut supervisor, _) = Supervisor::new();
    let mut held = Vec::new();
    let events = vec![
        Event::StateFound(false),
        Event::Chunk {
            downloaded: 1,
            total: 2,
        },
        Event::Downloaded,
        Event::Inspected {
            bundle: "x".to_string(),
            system: "y".to_string(),
        },
        Event::Downloaded,
    ];
    for (at, event) in events.into_iter().enumerate() {
        if at == 1 {
            let (next, verdict) = supervisor.submit(update(UUID_1, "u"));
            assert!(matches!(verdict, Verdict::Started(_)));
            supervisor = next;
        }
        let (next, _) = supervisor.deliver(event);
        supervisor = next;
        held.push(supervisor.current_update().cloned());
    }
    let id = Some(ota_id(UUID_1, "u"));
    assert_eq!(held, vec![None, id.clone(), id, None, None]);
}
