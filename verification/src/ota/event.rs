//! The record by which the status of an update is reported upstream.

use crate::ident::hyphenated;
use crate::ota::status::{OtaError, OtaErrorView, OtaId, OtaStatus, OtaStatusView};
use vstd::prelude::*;
use vstd::string::StringExecFns;

verus! {

/// The report of a status, as the cloud reads it.
#[allow(non_snake_case)]
#[derive(Debug, Clone, PartialEq, Eq)]
pub struct OtaEvent {
    pub requestUUID: String,
    pub status: String,
    pub statusProgress: i32,
    pub statusCode: String,
    pub message: String,
}

/// What an [`OtaEvent`] holds.
pub struct OtaEventView {
    pub request_uuid: Seq<char>,
    pub status: Seq<char>,
    pub status_progress: int,
    pub status_code: Seq<char>,
    pub message: Seq<char>,
}

impl View for OtaEvent {
    type V = OtaEventView;

    open spec fn view(&self) -> OtaEventView {
        OtaEventView {
            request_uuid: self.requestUUID@,
            status: self.status@,
            status_progress: self.statusProgress as int,
            status_code: self.statusCode@,
            message: self.message@,
        }
    }
}

/// The code under which the cloud knows an error.
pub open spec fn status_code(error: OtaErrorView) -> Seq<char> {
    match error {
        OtaErrorView::Canceled => "Canceled"@,
        OtaErrorView::InvalidBaseImage(_) => "InvalidBaseImage"@,
        OtaErrorView::UpdateAlreadyInProgress => "UpdateAlreadyInProgress"@,
        OtaErrorView::SystemRollback(_) => "SystemRollback"@,
        OtaErrorView::IoError(_) => "IOError"@,
        OtaErrorView::InternalError(_) => "InternalError"@,
        OtaErrorView::Network(_) => "Network"@,
    }
}

/// What an error says beside its code; nothing, where it has no reason.
pub open spec fn reason(error: OtaErrorView) -> Seq<char> {
    match error {
        OtaErrorView::Canceled => ""@,
        OtaErrorView::InvalidBaseImage(reason) => reason,
        OtaErrorView::UpdateAlreadyInProgress => ""@,
        OtaErrorView::SystemRollback(reason) => reason,
        OtaErrorView::IoError(reason) => reason,
        OtaErrorView::InternalError(reason) => reason,
        OtaErrorView::Network(reason) => reason,
    }
}

/// The report of a status that only names the update.
pub open spec fn plain_event(uuid: u128, status: Seq<char>) -> OtaEventView {
    OtaEventView {
        request_uuid: hyphenated(uuid),
        status,
        status_progress: 0,
        status_code: ""@,
        message: ""@,
    }
}

/// The report that goes upstream for a status. The cloud hears nothing of
/// an idle device, of an update that was only taken in, of a reboot that
/// has happened, nor of a failure that belongs to no update.
pub open spec fn event_of(status: OtaStatusView) -> Option<OtaEventView> {
    match status {
        OtaStatusView::Acknowledged(id) => Some(plain_event(id.uuid, "Acknowledged"@)),
        OtaStatusView::Downloading(id, percent) => Some(
            OtaEventView { status_progress: percent, ..plain_event(id.uuid, "Downloading"@) },
        ),
        OtaStatusView::Deploying(id, percent, message) => Some(
            OtaEventView {
                status_progress: percent,
                message,
                ..plain_event(id.uuid, "Deploying"@)
            },
        ),
        OtaStatusView::Deployed(id) => Some(plain_event(id.uuid, "Deployed"@)),
        OtaStatusView::Rebooting(id) => Some(plain_event(id.uuid, "Rebooting"@)),
        OtaStatusView::Success(id) => Some(plain_event(id.uuid, "Success"@)),
        OtaStatusView::Failure(error, Some(id)) => Some(
            OtaEventView {
                status_code: status_code(error),
                message: reason(error),
                ..plain_event(id.uuid, "Failure"@)
            },
        ),
        _ => None,
    }
}

impl OtaError {
    /// The code under which the cloud knows this error.
    pub fn status_code(&self) -> (r: String)
        ensures
            r@ == status_code(self@),
    {
        match self {
            OtaError::Canceled => String::from_str("Canceled"),
            OtaError::InvalidBaseImage(_) => String::from_str("InvalidBaseImage"),
            OtaError::UpdateAlreadyInProgress => String::from_str("UpdateAlreadyInProgress"),
            OtaError::SystemRollback(_) => String::from_str("SystemRollback"),
            OtaError::IoError(_) => String::from_str("IOError"),
            OtaError::InternalError(_) => String::from_str("InternalError"),
            OtaError::Network(_) => String::from_str("Network"),
        }
    }

    /// What this error says beside its code.
    pub fn message(&self) -> (r: String)
        ensures
            r@ == reason(self@),
    {
        match self {
            OtaError::Canceled => String::from_str(""),
            OtaError::InvalidBaseImage(reason) => reason.clone(),
            OtaError::UpdateAlreadyInProgress => String::from_str(""),
            OtaError::SystemRollback(reason) => reason.clone(),
            OtaError::IoError(reason) => reason.clone(),
            OtaError::InternalError(reason) => reason.clone(),
            OtaError::Network(reason) => reason.clone(),
        }
    }
}

impl OtaEvent {
    /// The report of a status that only names the update.
    fn plain(id: &OtaId, status: &str) -> (r: Self)
        ensures
            r@ == plain_event(id@.uuid, status@),
    {
        OtaEvent {
            requestUUID: id.uuid.to_string(),
            status: String::from_str(status),
            statusProgress: 0,
            statusCode: String::from_str(""),
            message: String::from_str(""),
        }
    }

    /// The report that goes upstream for a status, if there is one.
    pub fn from_status(status: &OtaStatus) -> (r: Option<Self>)
        ensures
            match event_of(status@) {
                Some(event) => r is Some && r->0@ == event,
                None => r is None,
            },
    {
        match status {
            OtaStatus::Acknowledged(id) => Some(Self::plain(id, "Acknowledged")),
            OtaStatus::Downloading(id, percent) => {
                let mut event = Self::plain(id, "Downloading");
                event.statusProgress = *percent;
                Some(event)
            },
            OtaStatus::Deploying(id, progress) => {
                let mut event = Self::plain(id, "Deploying");
                event.statusProgress = progress.percentage;
                event.message = progress.message.clone();
                Some(event)
            },
            OtaStatus::Deployed(id) => Some(Self::plain(id, "Deployed")),
            OtaStatus::Rebooting(id) => Some(Self::plain(id, "Rebooting")),
            OtaStatus::Success(id) => Some(Self::plain(id, "Success")),
            OtaStatus::Failure(error, Some(id)) => {
                let mut event = Self::plain(id, "Failure");
                event.statusCode = error.status_code();
                event.message = error.message();
                Some(event)
            },
            _ => None,
        }
    }
}

} // verus!
