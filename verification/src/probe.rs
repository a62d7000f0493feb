//! Where the command-line tool keeps its files, and whether they are there.

use vstd::prelude::*;

verus! {

/// The declarative configuration, relative to the working directory.
pub const CONFIG_FILE: &'static str = "kubelift.yml";

/// The hidden directory that holds everything a run persists.
pub const STATE_DIR: &'static str = "./.kubelift";

/// Snapshot of the resource group descriptor.
pub const RESOURCE_GROUP_RECORD: &'static str = "./.kubelift/resource_group.json";

/// Snapshot of the virtual machine descriptor.
pub const VM_RECORD: &'static str = "./.kubelift/vm.json";

/// The appliance's client configuration, patched for access from outside.
pub const LOCAL_KUBECONFIG: &'static str = "./.kubelift/kubeconfig";

/// Asks `std::path::Path::exists` whether `path` names something on disk.
///
/// Trusted, and nothing is claimed of the answer: it depends on the file
/// system at the moment of the call.
#[verifier::external_body]
pub(crate) fn path_exists(path: &str) -> bool {
    std::path::Path::new(path).exists()
}

/// Whether the working directory holds a configuration file.
pub fn kubelift_config_file_exists() -> bool {
    path_exists(CONFIG_FILE)
}

/// Whether a provisioning run has left an appliance kubeconfig behind.
pub fn local_kubeconfig_exists() -> bool {
    path_exists(LOCAL_KUBECONFIG)
}

/// Whether the hidden state directory is present.
pub fn state_dir_exists() -> bool {
    path_exists(STATE_DIR)
}

} // verus!
