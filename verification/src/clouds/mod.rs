//! The clouds an appliance can be provisioned in.

pub mod azure;
pub mod dummy;
