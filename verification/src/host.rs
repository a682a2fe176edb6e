//! What the host tells the plugin, as plain values.

use vstd::prelude::*;
use crate::version::WslVersion;

verus! {

/// The status handed back to the host when a call went well.
pub const STATUS_OK: i32 = 0;

/// The status handed back to the host when the plugin refuses a call.
pub const STATUS_REFUSED: i32 = 1;

/// The oldest host release the plugin accepts: its major number.
pub const REQUIRED_MAJOR: u32 = 2;

/// The oldest host release the plugin accepts: its minor number.
pub const REQUIRED_MINOR: u32 = 1;

/// The oldest host release the plugin accepts: its revision number.
pub const REQUIRED_REVISION: u32 = 2;

/// The API table of the host, as far as the plugin reads it.
#[derive(Clone, Copy, Debug, PartialEq, Eq, Structural)]
pub struct HostApi {
    /// The release of the host.
    pub version: WslVersion,
    /// Whether the table holds the function that starts a binary in the guest.
    pub can_execute_binary: bool,
}

/// The four hooks of the host's hook table that the plugin fills; a field is
/// `true` where the hook points to the plugin's callback.
#[derive(Clone, Copy, Debug, PartialEq, Eq, Structural)]
pub struct HookTable {
    pub on_vm_started: bool,
    pub on_vm_stopping: bool,
    pub on_distribution_started: bool,
    pub on_distribution_stopping: bool,
}

impl HookTable {
    /// All four hooks point to the plugin.
    pub open spec fn all_installed(self) -> bool {
        self.on_vm_started && self.on_vm_stopping && self.on_distribution_started
            && self.on_distribution_stopping
    }
}

/// A running virtual machine, as the host describes it.
#[derive(Clone, Copy, Debug, PartialEq, Eq, Structural)]
pub struct SessionInformation {
    /// The identifier the host gave the virtual machine.
    pub session_id: u32,
}

/// The settings a virtual machine was created with.
#[derive(Clone, Copy, Debug, PartialEq, Eq, Structural)]
pub struct VmCreationSettings {
    /// Which parts of the configuration the user has replaced, as flags.
    pub custom_configuration_flags: i32,
}

/// A distribution of the guest, as the host describes it.
#[derive(Debug)]
pub struct DistributionInformation {
    /// The distribution's name.
    pub name: String,
    /// The package family the distribution was installed from, if any.
    pub package_family_name: Option<String>,
    /// The process namespace of the distribution.
    pub pid_namespace: u64,
    /// The process id of the distribution's init process.
    pub init_pid: u32,
}

} // verus!
