//! Container resources: what the device tells upstream of them, and how a
//! resource is brought to the state that the store asks for.

pub mod properties;
pub mod resource;
