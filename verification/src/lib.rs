//! Decision logic for provisioning and tearing down a single-node Kubernetes
//! appliance, and for pointing the operator's Kubernetes client at it.
//!
//! The crate performs no remote call and no file write itself. Each command is
//! a function from what was observed to what has to be done next, so that the
//! program around it only carries out actions and reports what happened.

use vstd::prelude::*;

pub mod error;
pub mod instance;
pub mod probe;
pub mod config;
pub mod text;
pub mod descriptor;
pub mod kubeconfig;
pub mod provision;
pub mod lifecycle;
pub mod cli;
pub mod clouds;

pub use crate::config::{KubeLiftConfig, KubeLiftConfigOptions};
pub use crate::probe::{kubelift_config_file_exists, local_kubeconfig_exists};
pub use crate::instance::generate_new_instance_id;

verus! {

/// The commands of the tool, as one cloud answers them. Each method decides
/// and returns what is to be done. None of them changes anything.
pub trait Appliance {
    /// The line that tells this plugin from the others.
    fn smoke(&self) -> String;

    /// What `init` does about the configuration file.
    fn init(&self) -> config::InitPlan;

    /// The first step of a provisioning run. The following ones are taken by
    /// [`provision::step`].
    fn up(&self, options: provision::UpOptions) -> provision::UpStep;

    /// What `down` does about the persisted resource group record.
    fn down(&self, record: Option<&str>) -> Result<lifecycle::DownPlan, error::KubeLiftError>;

    /// What `clean` removes.
    fn clean(&self) -> lifecycle::CleanPlan;

    /// What `switch` does to the Kubernetes client's configuration.
    fn switch(&self) -> Result<kubeconfig::SwitchPlan, error::KubeLiftError>;
}

} // verus!
