//! What an update is and where it stands.

use crate::ident::Uuid;
use vstd::prelude::*;

verus! {

/// The identity of an update attempt: the identifier that the cloud gave
/// it, and where its bundle is. The address is empty in reports after a
/// reboot.
#[derive(Debug, PartialEq, Eq)]
pub struct OtaId {
    pub uuid: Uuid,
    pub url: String,
}

/// What an [`OtaId`] holds.
pub struct OtaIdView {
    pub uuid: u128,
    pub url: Seq<char>,
}

impl Clone for OtaId {
    fn clone(&self) -> (r: Self)
        ensures
            r@ == self@,
    {
        OtaId { uuid: self.uuid, url: self.url.clone() }
    }
}

impl View for OtaId {
    type V = OtaIdView;

    open spec fn view(&self) -> OtaIdView {
        OtaIdView { uuid: self.uuid.0, url: self.url@ }
    }
}

/// How far an installation is, in percent, and what the updater says of it.
#[derive(Debug, Clone, PartialEq, Eq)]
pub struct DeployProgress {
    pub percentage: i32,
    pub message: String,
}

/// What the updater reports while it installs a bundle.
#[derive(Debug, Clone, PartialEq, Eq)]
pub enum DeployStatus {
    Progress(DeployProgress),
    Completed { signal: i32 },
}

/// What is kept across a reboot: the update that was installed, and the
/// slot from which the system ran before it.
#[derive(Debug, Clone, PartialEq, Eq)]
pub struct PersistentState {
    pub uuid: Uuid,
    pub slot: String,
}

/// Why an update failed.
#[derive(Debug, Clone, PartialEq, Eq)]
pub enum OtaError {
    /// The update was cancelled.
    Canceled,
    /// The bundle does not fit the system, or could not be installed.
    InvalidBaseImage(String),
    /// Another update is under way.
    UpdateAlreadyInProgress,
    /// The system came back from the slot it had left.
    SystemRollback(String),
    /// A file could not be read or written.
    IoError(String),
    /// The agent itself failed.
    InternalError(String),
    /// The bundle could not be fetched.
    Network(String),
}

/// What an [`OtaError`] holds.
pub enum OtaErrorView {
    Canceled,
    InvalidBaseImage(Seq<char>),
    UpdateAlreadyInProgress,
    SystemRollback(Seq<char>),
    IoError(Seq<char>),
    InternalError(Seq<char>),
    Network(Seq<char>),
}

impl View for OtaError {
    type V = OtaErrorView;

    open spec fn view(&self) -> OtaErrorView {
        match *self {
            OtaError::Canceled => OtaErrorView::Canceled,
            OtaError::InvalidBaseImage(reason) => OtaErrorView::InvalidBaseImage(reason@),
            OtaError::UpdateAlreadyInProgress => OtaErrorView::UpdateAlreadyInProgress,
            OtaError::SystemRollback(reason) => OtaErrorView::SystemRollback(reason@),
            OtaError::IoError(reason) => OtaErrorView::IoError(reason@),
            OtaError::InternalError(reason) => OtaErrorView::InternalError(reason@),
            OtaError::Network(reason) => OtaErrorView::Network(reason@),
        }
    }
}

/// Where an update stands. The device is idle before the first update and
/// after each one.
#[derive(Debug, Clone, PartialEq, Eq)]
pub enum OtaStatus {
    Idle,
    Init(OtaId),
    Acknowledged(OtaId),
    Downloading(OtaId, i32),
    Deploying(OtaId, DeployProgress),
    Deployed(OtaId),
    Rebooting(OtaId),
    Rebooted,
    Success(OtaId),
    Failure(OtaError, Option<OtaId>),
}

/// What an [`OtaStatus`] holds.
pub enum OtaStatusView {
    Idle,
    Init(OtaIdView),
    Acknowledged(OtaIdView),
    Downloading(OtaIdView, int),
    Deploying(OtaIdView, int, Seq<char>),
    Deployed(OtaIdView),
    Rebooting(OtaIdView),
    Rebooted,
    Success(OtaIdView),
    Failure(OtaErrorView, Option<OtaIdView>),
}

impl View for OtaStatus {
    type V = OtaStatusView;

    open spec fn view(&self) -> OtaStatusView {
        match *self {
            OtaStatus::Idle => OtaStatusView::Idle,
            OtaStatus::Init(id) => OtaStatusView::Init(id@),
            OtaStatus::Acknowledged(id) => OtaStatusView::Acknowledged(id@),
            OtaStatus::Downloading(id, percent) => OtaStatusView::Downloading(id@, percent as int),
            OtaStatus::Deploying(id, progress) => OtaStatusView::Deploying(
                id@,
                progress.percentage as int,
                progress.message@,
            ),
            OtaStatus::Deployed(id) => OtaStatusView::Deployed(id@),
            OtaStatus::Rebooting(id) => OtaStatusView::Rebooting(id@),
            OtaStatus::Rebooted => OtaStatusView::Rebooted,
            OtaStatus::Success(id) => OtaStatusView::Success(id@),
            OtaStatus::Failure(error, Some(id)) => OtaStatusView::Failure(error@, Some(id@)),
            OtaStatus::Failure(error, None) => OtaStatusView::Failure(error@, None),
        }
    }
}

/// The statuses of a sequence, by what they hold.
pub open spec fn status_views(statuses: Seq<OtaStatus>) -> Seq<OtaStatusView> {
    statuses.map_values(|status: OtaStatus| status@)
}

impl OtaStatusView {
    /// Whether every percentage in the status is one: from 0 to 100.
    pub open spec fn in_range(self) -> bool {
        match self {
            OtaStatusView::Downloading(_, percent) => 0 <= percent <= 100,
            OtaStatusView::Deploying(_, percent, _) => 0 <= percent <= 100,
            _ => true,
        }
    }

    /// Whether the status ends an update.
    pub open spec fn is_final(self) -> bool {
        self is Success || self is Failure
    }
}

impl OtaStatus {
    /// Whether the status ends an update.
    pub fn is_final(&self) -> (r: bool)
        ensures
            r == self@.is_final(),
    {
        match self {
            OtaStatus::Success(_) => true,
            OtaStatus::Failure(_, _) => true,
            _ => false,
        }
    }
}

} // verus!
