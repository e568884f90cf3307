//! The front door and the machine together: what is admitted is what runs.

use crate::ota::handler::{admission, Admission, AdmissionView, OtaHandler, OtaRequest};
use crate::ota::laws::lemma_job_after_step;
use crate::ota::machine::{begin, next, ActionView, Event, Machine, PhaseView, Step};
use crate::ota::status::{status_views, OtaId, OtaIdView, OtaStatus, OtaStatusView};
use vstd::prelude::*;

verus! {

/// What became of a request.
#[derive(Debug, Clone, PartialEq, Eq)]
pub enum Verdict {
    /// The update has started: its first statuses and its first work.
    Started(Step),
    /// The request was refused with this status.
    Refused(OtaStatus),
    /// The cancellation token is to be fired; the machine hears of it by
    /// [`Event::Canceled`].
    Cancel,
    /// The machine still looks into what an earlier process left: the
    /// request has to wait.
    Deferred(OtaRequest),
}

/// The front door and the machine of one device. The front door holds an
/// update exactly while the machine carries one.
pub struct Supervisor {
    handler: OtaHandler,
    machine: Machine,
}

impl Supervisor {
    #[verifier::type_invariant]
    spec fn consistent(self) -> bool {
        self.handler@ == self.machine@.job()
    }

    /// The update that the front door holds.
    pub closed spec fn current(self) -> Option<OtaIdView> {
        self.handler@
    }

    /// The phase of the machine.
    pub closed spec fn phase(self) -> PhaseView {
        self.machine@
    }

    /// The front door and the machine of a process that has just started,
    /// and the first work.
    pub fn new() -> (r: (Supervisor, Step))
        ensures
            r.0.current() is None,
            r.0.phase() == PhaseView::Starting,
            r.1@.emit == Seq::<OtaStatusView>::empty(),
            r.1@.actions == seq![ActionView::CheckPersistent],
    {
        let (machine, step) = Machine::new();
        (Supervisor { handler: OtaHandler::new(), machine }, step)
    }

    /// The update that is under way, if there is one: the one that the
    /// front door holds is the one that the machine carries.
    pub fn current_update(&self) -> (r: Option<&OtaId>)
        ensures
            self.current() == self.phase().job(),
            match r {
                Some(id) => self.current() == Some(id@),
                None => self.current() is None,
            },
    {
        proof {
            use_type_invariant(self);
        }
        self.machine.job()
    }

    /// Takes a request of the cloud. While the machine is starting, the
    /// request waits; else the admission rules decide, and an admitted
    /// update starts at once.
    pub fn submit(self, request: OtaRequest) -> (r: (Supervisor, Verdict))
        ensures
            r.0.current() == r.0.phase().job(),
            self.phase().starting() ==> r.0.phase() == self.phase() && r.0.current()
                == self.current() && r.1 == Verdict::Deferred(request),
            !self.phase().starting() ==> ({
                let decided = admission(self.current(), request@, self.phase().cancellable());
                &&& r.0.current() == decided.0
                &&& match decided.1 {
                    AdmissionView::Start(id) => {
                        &&& r.1 matches Verdict::Started(step)
                        &&& (r.0.phase(), step@) == begin(self.phase(), id)
                        &&& self.phase() is Idle
                    },
                    AdmissionView::Refuse(status) => {
                        &&& r.1 matches Verdict::Refused(refusal)
                        &&& refusal@ == status
                        &&& r.0.phase() == self.phase()
                    },
                    AdmissionView::Cancel => r.1 is Cancel && r.0.phase() == self.phase(),
                }
            }),
    {
        proof {
            use_type_invariant(&self);
        }
        let Supervisor { mut handler, machine } = self;
        if machine.is_starting() {
            return (Supervisor { handler, machine }, Verdict::Deferred(request));
        }
        let active = machine.is_cancellable();
        match handler.handle_event(request, active) {
            Admission::Start(id) => {
                let (machine, step) = machine.begin(id);
                (Supervisor { handler, machine }, Verdict::Started(step))
            },
            Admission::Refuse(status) => (Supervisor { handler, machine }, Verdict::Refused(status)),
            Admission::Cancel => (Supervisor { handler, machine }, Verdict::Cancel),
        }
    }

    /// Hands an answer of the world to the machine. When the machine says
    /// that the device is idle again, the front door lets go of its update.
    pub fn deliver(self, event: Event) -> (r: (Supervisor, Step))
        ensures
            (r.0.phase(), r.1@) == next(self.phase(), event@),
            r.0.current() == r.0.phase().job(),
    {
        proof {
            use_type_invariant(&self);
            lemma_job_after_step(self.machine@, event@);
        }
        let Supervisor { mut handler, machine } = self;
        let ghost held = handler@;
        let (machine, step) = machine.step(event);
        let mut i: usize = 0;
        while i < step.emit.len()
            invariant
                i <= step.emit.len(),
                handler@ == (if status_views(step.emit@).take(i as int).contains(
                    OtaStatusView::Idle,
                ) {
                    None
                } else {
                    held
                }),
            decreases step.emit.len() - i,
        {
            let ghost before = status_views(step.emit@).take(i as int);
            let ghost after = status_views(step.emit@).take(i + 1);
            handler.observe(&step.emit[i]);
            proof {
                assert(after == before.push(step.emit@[i as int]@));
                assert(after.contains(OtaStatusView::Idle) <==> before.contains(
                    OtaStatusView::Idle,
                ) || step.emit@[i as int]@ is Idle) by {
                    if before.contains(OtaStatusView::Idle) {
                        let k = choose|k: int|
                            0 <= k < before.len() && before[k] == OtaStatusView::Idle;
                        assert(after[k] == OtaStatusView::Idle);
                    }
                    if step.emit@[i as int]@ is Idle {
                        assert(after[i as int] == OtaStatusView::Idle);
                    }
                }
            }
            i += 1;
        }
        proof {
            assert(status_views(step.emit@).take(i as int) == status_views(step.emit@));
        }
        (Supervisor { handler, machine }, step)
    }
}

} // verus!
