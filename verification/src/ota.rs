//! System update over the air: the state machine of one update, the
//! admission of requests, and the reports that go upstream.

pub mod event;
pub mod handler;
pub mod laws;
pub mod machine;
pub mod status;
pub mod supervisor;
pub mod trace;
