//! What the operator asked for on the command line.

use vstd::prelude::*;
use crate::provision::UpOptions;

verus! {

/// The commands of the tool.
#[derive(Clone, Copy, Debug, PartialEq, Eq, Structural)]
pub enum KubeLiftCommands {
    /// Create the default configuration file.
    Init,
    /// Provision an appliance and switch to it.
    Up,
    /// Request the deletion of the appliance, then clean up.
    Down,
    /// Remove local state and the configuration file.
    Clean,
    /// Point the Kubernetes client at the appliance in local state.
    Switch,
}

/// A parsed command line.
#[derive(Debug)]
pub struct KubeLiftCli {
    pub command: Option<KubeLiftCommands>,
    /// Print what went wrong in full.
    pub debug: bool,
    /// The cloud to provision in. One cloud is supported, whatever this says.
    pub cloud: Option<String>,
    /// Accept marketplace terms without asking.
    pub accept_azure_marketplace_terms: bool,
}

impl KubeLiftCli {
    /// The options of the run that this command line asks for.
    pub fn up_options(&self) -> (options: UpOptions)
        ensures
            options == UpOptions::standard(self.accept_azure_marketplace_terms),
    {
        UpOptions::with_defaults(self.accept_azure_marketplace_terms)
    }
}

} // verus!
