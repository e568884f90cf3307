//! The front door of the updates: one request at a time is admitted.

use crate::ident::Uuid;
use crate::ota::machine::id_view;
use crate::ota::status::{OtaError, OtaErrorView, OtaId, OtaIdView, OtaStatus, OtaStatusView};
use vstd::prelude::*;
use vstd::string::StringExecFns;

verus! {

/// What a request asks for.
#[derive(Debug, Clone, Copy, PartialEq, Eq, Structural)]
pub enum OtaOperation {
    Update,
    Cancel,
}

/// A request of the cloud.
#[derive(Debug, Clone, PartialEq, Eq)]
pub struct OtaRequest {
    pub operation: OtaOperation,
    pub url: String,
    pub uuid: Uuid,
}

/// What an [`OtaRequest`] holds.
pub struct OtaRequestView {
    pub operation: OtaOperation,
    pub url: Seq<char>,
    pub uuid: u128,
}

impl View for OtaRequest {
    type V = OtaRequestView;

    open spec fn view(&self) -> OtaRequestView {
        OtaRequestView { operation: self.operation, url: self.url@, uuid: self.uuid.0 }
    }
}

impl OtaRequestView {
    /// The identity of the update that the request speaks of.
    pub open spec fn id(self) -> OtaIdView {
        OtaIdView { uuid: self.uuid, url: self.url }
    }
}

/// What is done with a request.
#[derive(Debug, Clone, PartialEq, Eq)]
pub enum Admission {
    /// The update starts.
    Start(OtaId),
    /// The request is refused: the status is published, and nothing else
    /// changes.
    Refuse(OtaStatus),
    /// The cancellation token of the running update is fired.
    Cancel,
}

/// What an [`Admission`] holds.
pub enum AdmissionView {
    Start(OtaIdView),
    Refuse(OtaStatusView),
    Cancel,
}

impl View for Admission {
    type V = AdmissionView;

    open spec fn view(&self) -> AdmissionView {
        match *self {
            Admission::Start(id) => AdmissionView::Start(id@),
            Admission::Refuse(status) => AdmissionView::Refuse(status@),
            Admission::Cancel => AdmissionView::Cancel,
        }
    }
}

/// Why no update can be cancelled while none was admitted.
pub open spec fn cancel_empty() -> Seq<char> {
    "Unable to cancel OTA request, internal request is empty"@
}

/// Why an update other than the admitted one cannot be cancelled.
pub open spec fn cancel_other() -> Seq<char> {
    "Unable to cancel OTA request, they have different identifier"@
}

/// Why an update that has run to its end cannot be cancelled.
pub open spec fn cancel_late() -> Seq<char> {
    "Unable to cancel OTA request"@
}

/// The failure by which a second update is told that one is under way.
pub open spec fn busy(id: OtaIdView) -> OtaStatusView {
    OtaStatusView::Failure(OtaErrorView::UpdateAlreadyInProgress, Some(id))
}

/// The failure by which a cancellation is refused.
pub open spec fn not_cancelled(id: OtaIdView, why: Seq<char>) -> OtaStatusView {
    OtaStatusView::Failure(OtaErrorView::InternalError(why), Some(id))
}

/// The admission rules. An update is admitted while none is; any other is
/// told that one is under way, also where it names the same update, which
/// goes on undisturbed. A cancellation fires the token if it names the
/// admitted update and that update is still `active`.
pub open spec fn admission(current: Option<OtaIdView>, request: OtaRequestView, active: bool) -> (
    Option<OtaIdView>,
    AdmissionView,
) {
    match request.operation {
        OtaOperation::Update => match current {
            None => (Some(request.id()), AdmissionView::Start(request.id())),
            Some(_) => (current, AdmissionView::Refuse(busy(request.id()))),
        },
        OtaOperation::Cancel => match current {
            None => (current, AdmissionView::Refuse(not_cancelled(request.id(), cancel_empty()))),
            Some(admitted) => if admitted.uuid != request.uuid {
                (current, AdmissionView::Refuse(not_cancelled(request.id(), cancel_other())))
            } else if !active {
                (current, AdmissionView::Refuse(not_cancelled(request.id(), cancel_late())))
            } else {
                (current, AdmissionView::Cancel)
            },
        },
    }
}

/// The front door: it remembers the update that it admitted until that
/// update has come to its end.
#[derive(Debug, Clone, PartialEq, Eq)]
pub struct OtaHandler {
    pub current: Option<OtaId>,
}

impl View for OtaHandler {
    type V = Option<OtaIdView>;

    open spec fn view(&self) -> Option<OtaIdView> {
        id_view(self.current)
    }
}

impl OtaHandler {
    /// A front door that has admitted nothing.
    pub fn new() -> (r: Self)
        ensures
            r@ is None,
    {
        OtaHandler { current: None }
    }

    /// Whether an update is under way; if so, with the failure that tells
    /// the update `id` so.
    pub fn check_update_already_in_progress(&self, id: &OtaId) -> (r: Option<OtaStatus>)
        ensures
            self@ is None ==> r is None,
            self@ is Some ==> r is Some && r->0@ == busy(id@),
    {
        match &self.current {
            None => None,
            Some(_) => Some(
                OtaStatus::Failure(OtaError::UpdateAlreadyInProgress, Some(id.clone())),
            ),
        }
    }

    /// Decides on a request; `active` says whether the admitted update can
    /// still be cancelled.
    pub fn handle_event(&mut self, request: OtaRequest, active: bool) -> (r: Admission)
        ensures
            (final(self)@, r@) == admission(old(self)@, request@, active),
    {
        let OtaRequest { operation, url, uuid } = request;
        let id = OtaId { uuid, url };
        match operation {
            OtaOperation::Update => {
                match self.check_update_already_in_progress(&id) {
                    Some(failure) => Admission::Refuse(failure),
                    None => {
                        self.current = Some(id.clone());
                        Admission::Start(id)
                    },
                }
            },
            OtaOperation::Cancel => {
                let why = match &self.current {
                    None => Some(
                        String::from_str("Unable to cancel OTA request, internal request is empty"),
                    ),
                    Some(admitted) => {
                        if admitted.uuid != uuid {
                            Some(
                                String::from_str(
                                    "Unable to cancel OTA request, they have different identifier",
                                ),
                            )
                        } else if !active {
                            Some(String::from_str("Unable to cancel OTA request"))
                        } else {
                            None
                        }
                    },
                };
                match why {
                    Some(why) => Admission::Refuse(
                        OtaStatus::Failure(OtaError::InternalError(why), Some(id)),
                    ),
                    None => Admission::Cancel,
                }
            },
        }
    }

    /// Hears a status of the machine: when the device is idle again, the
    /// admitted update has come to its end.
    pub fn observe(&mut self, status: &OtaStatus)
        ensures
            final(self)@ == (if status@ is Idle {
                None
            } else {
                old(self)@
            }),
    {
        match status {
            OtaStatus::Idle => {
                self.current = None;
            },
            _ => {},
        }
    }
}

} // verus!
