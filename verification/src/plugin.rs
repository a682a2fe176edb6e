//! The plugin's entry point and its four callbacks.
//!
//! Each function takes what the host handed over, with `None` for a missing
//! table or record, and returns the status for the host together with the
//! text to put in the log. Starting the guest process and reading its socket
//! is the caller's part: [`on_vm_started`] says what to start,
//! [`on_binary_executed`] what to do with the host's answer, and
//! [`on_output_received`] what to log once the output is in.

use vstd::prelude::*;
use vstd::string::*;
use vstd::utf8::{decode_utf8, valid_utf8};
use crate::host::{
    DistributionInformation,
    HookTable,
    HostApi,
    SessionInformation,
    VmCreationSettings,
    REQUIRED_MAJOR,
    REQUIRED_MINOR,
    REQUIRED_REVISION,
    STATUS_OK,
    STATUS_REFUSED,
};
use crate::messages::{
    distribution_started_message,
    distribution_started_text,
    distribution_stopping_message,
    distribution_stopping_text,
    execute_called_text,
    kernel_version_message,
    kernel_version_text,
    plugin_loaded_message,
    plugin_loaded_text,
    process_failed_message,
    process_failed_text,
    vm_created_message,
    vm_created_text,
    vm_stopping_message,
    vm_stopping_text,
};
use crate::socket::{utf8_lossy, Received};
use crate::version::is_wsl_old;

verus! {

/// The place where the plugin keeps the host's API table. It starts empty and
/// is filled at most once.
#[derive(Debug)]
pub struct ApiCell {
    slot: Option<HostApi>,
}

impl View for ApiCell {
    type V = Option<HostApi>;

    closed spec fn view(&self) -> Option<HostApi> {
        self.slot
    }
}

impl ApiCell {
    /// An empty cell.
    pub fn new() -> (cell: Self)
        ensures
            cell@ is None,
    {
        ApiCell { slot: None }
    }

    /// The table kept in the cell, if it was filled.
    pub fn get(&self) -> (api: Option<HostApi>)
        ensures
            api == self@,
    {
        self.slot
    }

    /// Fills an empty cell with `api` and returns `true`; leaves a filled cell
    /// as it is and returns `false`.
    pub fn set(&mut self, api: HostApi) -> (filled: bool)
        ensures
            filled == (old(self)@ is None),
            final(self)@ == (if filled {
                Some(api)
            } else {
                old(self)@
            }),
    {
        if self.slot.is_some() {
            return false;
        }
        self.slot = Some(api);
        true
    }
}

/// What a callback hands back: the status for the host and the text for the
/// log.
#[derive(Debug)]
pub struct Reply {
    pub status: i32,
    pub log: String,
}

/// What the entry point hands back.
#[derive(Debug)]
pub struct EntryReport {
    /// The status for the host.
    pub status: i32,
    /// The line for the log, if one is due.
    pub log: Option<String>,
    /// The host's hook table as the entry point leaves it.
    pub hooks: Option<HookTable>,
}

/// The hook table with the plugin's four callbacks installed.
pub open spec fn installed_hooks() -> HookTable {
    HookTable {
        on_vm_started: true,
        on_vm_stopping: true,
        on_distribution_started: true,
        on_distribution_stopping: true,
    }
}

/// The host release `api` is one the plugin works with.
pub open spec fn supported(api: HostApi) -> bool {
    !api.version.precedes(REQUIRED_MAJOR, REQUIRED_MINOR, REQUIRED_REVISION)
}

/// The entry point accepts the host: both tables are there, the host is not
/// too old, and no table is kept yet.
pub open spec fn entry_accepts(
    kept: Option<HostApi>,
    api: Option<HostApi>,
    hooks: Option<HookTable>,
) -> bool {
    api is Some && hooks is Some && supported(api->0) && kept is None
}

/// Once the entry point has accepted a host, it accepts no other: whatever
/// tables a later call brings, the table kept then stands in the way.
pub proof fn lemma_entry_accepts_once(
    kept: Option<HostApi>,
    api: Option<HostApi>,
    hooks: Option<HookTable>,
    later_api: Option<HostApi>,
    later_hooks: Option<HookTable>,
)
    requires
        entry_accepts(kept, api, hooks),
    ensures
        !entry_accepts(api, later_api, later_hooks),
{
}

/// A host is supported exactly if its release is the required one or a later
/// one, by major number first, then minor, then revision.
pub proof fn lemma_supported_releases(api: HostApi)
    ensures
        supported(api) <==> (api.version.major > REQUIRED_MAJOR || (api.version.major
            == REQUIRED_MAJOR && (api.version.minor > REQUIRED_MINOR || (api.version.minor
            == REQUIRED_MINOR && api.version.revision >= REQUIRED_REVISION)))),
{
}

/// The entry point, called once by the host after loading the plugin.
///
/// Without an API table or a hook table it refuses and logs nothing. Otherwise
/// it logs the host's release, and accepts if the release is recent enough and
/// no table is kept in `cell` yet: it then keeps `api`, installs the four
/// callbacks and reports success. In every other case `cell` and the hooks
/// stay as they were.
#[allow(non_snake_case)]
pub fn WSLPluginAPIV1_EntryPoint(
    cell: &mut ApiCell,
    api: Option<HostApi>,
    hooks: Option<HookTable>,
) -> (report: EntryReport)
    ensures
        report.status == (if entry_accepts(old(cell)@, api, hooks) {
            STATUS_OK
        } else {
            STATUS_REFUSED
        }),
        final(cell)@ == (if entry_accepts(old(cell)@, api, hooks) {
            api
        } else {
            old(cell)@
        }),
        report.hooks == (if entry_accepts(old(cell)@, api, hooks) {
            Some(installed_hooks())
        } else {
            hooks
        }),
        report.log is Some <==> api is Some && hooks is Some,
        report.log is Some ==> (report.log->0)@ == plugin_loaded_text((api->0).version),
{
    let table = match (api, hooks) {
        (Some(table), Some(_)) => table,
        _ => {
            return EntryReport { status: STATUS_REFUSED, log: None, hooks };
        },
    };
    let log = Some(plugin_loaded_message(&table.version));
    if is_wsl_old(REQUIRED_MAJOR, REQUIRED_MINOR, REQUIRED_REVISION, &table.version) {
        return EntryReport { status: STATUS_REFUSED, log, hooks };
    }
    if !cell.set(table) {
        return EntryReport { status: STATUS_REFUSED, log, hooks };
    }
    let installed = HookTable {
        on_vm_started: true,
        on_vm_stopping: true,
        on_distribution_started: true,
        on_distribution_stopping: true,
    };
    EntryReport { status: STATUS_OK, log, hooks: Some(installed) }
}

/// What to do first when a virtual machine has started.
#[derive(Debug)]
pub enum VmStartStep {
    /// Hand `status` back to the host; nothing is logged.
    Refused { status: i32 },
    /// Put `log` in the log, then ask the host to start `command` in the
    /// virtual machine `session_id`: the first word is the binary's path, and
    /// all words are its arguments.
    Launch { log: String, session_id: u32, command: Vec<&'static str> },
}

/// `command` is the command that prints the guest's kernel version: the path
/// of the binary, then the file it prints.
pub open spec fn is_version_command(command: Seq<&'static str>) -> bool {
    &&& command.len() == 2
    &&& command[0]@ == "/usr/bin/cat"@
    &&& command[1]@ == "/proc/version"@
}

/// The first step of the callback for a started virtual machine.
///
/// Without a session record, without a settings record, or with no API table
/// kept in `cell`, the callback refuses. Otherwise it logs the session and the
/// configuration flags and asks for the guest process to be started.
pub fn on_vm_started(
    cell: &ApiCell,
    session: Option<SessionInformation>,
    settings: Option<VmCreationSettings>,
) -> (step: VmStartStep)
    requires
        session is Some && settings is Some && cell@ is Some ==> (cell@->0).can_execute_binary,
    ensures
        (session is None || settings is None || cell@ is None) ==> step == (VmStartStep::Refused {
            status: STATUS_REFUSED,
        }),
        (session is Some && settings is Some && cell@ is Some) ==> {
            &&& step matches VmStartStep::Launch { log, session_id, command }
            &&& log@ == vm_created_text(
                (session->0).session_id,
                (settings->0).custom_configuration_flags,
            )
            &&& session_id == (session->0).session_id
            &&& is_version_command(command@)
        },
{
    let (session, settings) = match (session, settings) {
        (Some(session), Some(settings)) => (session, settings),
        _ => {
            return VmStartStep::Refused { status: STATUS_REFUSED };
        },
    };
    if cell.get().is_none() {
        return VmStartStep::Refused { status: STATUS_REFUSED };
    }
    let log = vm_created_message(session.session_id, settings.custom_configuration_flags);
    let mut command: Vec<&'static str> = Vec::new();
    command.push("/usr/bin/cat");
    command.push("/proc/version");
    VmStartStep::Launch { log, session_id: session.session_id, command }
}

/// What to do once the host has answered the request to start the process.
#[derive(Debug)]
pub enum LaunchStep {
    /// Put `log` in the log and hand `status` back to the host.
    Failed { status: i32, log: String },
    /// Put `log` in the log, then read the process's socket to its end.
    Read { log: String },
}

/// The second step of the callback for a started virtual machine: `result` is
/// the host's answer to the request to start the process, zero for success.
pub fn on_binary_executed(result: i32) -> (step: LaunchStep)
    ensures
        result != 0 ==> {
            &&& step matches LaunchStep::Failed { status, log }
            &&& status == STATUS_OK
            &&& log@ == execute_called_text() + process_failed_text(result)
        },
        result == 0 ==> {
            &&& step matches LaunchStep::Read { log }
            &&& log@ == execute_called_text()
        },
{
    let mut log = String::from_str("called execute_binary\n");
    if result != 0 {
        let failure = process_failed_message(result);
        log.append(failure.as_str());
        LaunchStep::Failed { status: STATUS_OK, log }
    } else {
        LaunchStep::Read { log }
    }
}

/// The last step of the callback for a started virtual machine: `received`
/// holds what the process wrote to its socket, which is logged as text,
/// decoded leniently. After it the socket is closed.
pub fn on_output_received(received: Received) -> (reply: Reply)
    ensures
        reply.status == STATUS_OK,
        reply.log@ == kernel_version_text(utf8_lossy(received@)),
        valid_utf8(received@) ==> reply.log@ == kernel_version_text(decode_utf8(received@)),
{
    let output = received.into_text();
    Reply { status: STATUS_OK, log: kernel_version_message(output.as_str()) }
}

/// The callback for a virtual machine that is about to stop.
pub fn on_vm_stopping(session: &SessionInformation) -> (reply: Reply)
    ensures
        reply.status == STATUS_OK,
        reply.log@ == vm_stopping_text(session.session_id),
{
    Reply { status: STATUS_OK, log: vm_stopping_message(session.session_id) }
}

/// The callback for a distribution that has started.
pub fn on_distribution_started(
    session: &SessionInformation,
    distribution: &DistributionInformation,
) -> (reply: Reply)
    ensures
        reply.status == STATUS_OK,
        reply.log@ == distribution_started_text(session.session_id, *distribution),
{
    Reply {
        status: STATUS_OK,
        log: distribution_started_message(session.session_id, distribution),
    }
}

/// The callback for a distribution that is about to stop.
pub fn on_distribution_stopping(
    session: &SessionInformation,
    distribution: &DistributionInformation,
) -> (reply: Reply)
    ensures
        reply.status == STATUS_OK,
        reply.log@ == distribution_stopping_text(session.session_id, *distribution),
{
    Reply {
        status: STATUS_OK,
        log: distribution_stopping_message(session.session_id, distribution),
    }
}

} // verus!
