//! The lines the plugin puts in its log.

use vstd::prelude::*;
use vstd::string::*;
use crate::decimal::{append_decimal, append_signed_decimal, decimal, signed_decimal};
use crate::host::DistributionInformation;
use crate::version::WslVersion;

verus! {

/// The file the log lines are appended to.
pub const LOG_PATH: &'static str = "C:\\wsl-plugin-demo.txt";

/// The line logged when the host loads the plugin.
pub open spec fn plugin_loaded_text(version: WslVersion) -> Seq<char> {
    "Plugin loaded. WSL version: "@ + decimal(version.major as nat) + "."@ + decimal(
        version.minor as nat,
    ) + "."@ + decimal(version.revision as nat) + "\n"@
}

/// The line logged when a virtual machine has started.
pub open spec fn vm_created_text(session_id: u32, flags: i32) -> Seq<char> {
    "VM created. SessionId = "@ + decimal(session_id as nat) + " CustomConfigurationFlags = "@
        + signed_decimal(flags as int) + "\n"@
}

/// The line logged when a virtual machine is about to stop.
pub open spec fn vm_stopping_text(session_id: u32) -> Seq<char> {
    "VM stopping. SessionId = "@ + decimal(session_id as nat) + "\n"@
}

/// The package family as the log shows it: the name, or `(null)` without one.
pub open spec fn package_text(package_family_name: Option<String>) -> Seq<char> {
    match package_family_name {
        Some(name) => name@,
        None => "(null)"@,
    }
}

/// What follows the opening words of a line about a distribution.
pub open spec fn distribution_details_text(
    session_id: u32,
    distribution: DistributionInformation,
) -> Seq<char> {
    decimal(session_id as nat) + ", name="@ + distribution.name@ + ", package="@ + package_text(
        distribution.package_family_name,
    ) + ", PidNs="@ + decimal(distribution.pid_namespace as nat) + ", InitPid="@ + decimal(
        distribution.init_pid as nat,
    ) + "\n"@
}

/// The line logged when a distribution has started.
pub open spec fn distribution_started_text(
    session_id: u32,
    distribution: DistributionInformation,
) -> Seq<char> {
    "Distibution started. SessionId="@ + distribution_details_text(session_id, distribution)
}

/// The line logged when a distribution is about to stop.
pub open spec fn distribution_stopping_text(
    session_id: u32,
    distribution: DistributionInformation,
) -> Seq<char> {
    "Distibution stopping. SessionId="@ + distribution_details_text(session_id, distribution)
}

/// The line logged once the host was asked to start the guest process.
pub open spec fn execute_called_text() -> Seq<char> {
    "called execute_binary\n"@
}

/// The line logged when the host could not start the guest process.
pub open spec fn process_failed_text(result: i32) -> Seq<char> {
    "Failed to create process: "@ + signed_decimal(result as int) + "\n"@
}

/// The text logged with what the guest process printed.
pub open spec fn kernel_version_text(output: Seq<char>) -> Seq<char> {
    "Kernel version info: "@ + output
}

/// Builds the line logged when the host loads the plugin.
pub fn plugin_loaded_message(version: &WslVersion) -> (line: String)
    ensures
        line@ == plugin_loaded_text(*version),
{
    let mut line = String::from_str("Plugin loaded. WSL version: ");
    append_decimal(&mut line, version.major as u64);
    line.append(".");
    append_decimal(&mut line, version.minor as u64);
    line.append(".");
    append_decimal(&mut line, version.revision as u64);
    line.append("\n");
    line
}

/// Builds the line logged when a virtual machine has started.
pub fn vm_created_message(session_id: u32, flags: i32) -> (line: String)
    ensures
        line@ == vm_created_text(session_id, flags),
{
    let mut line = String::from_str("VM created. SessionId = ");
    append_decimal(&mut line, session_id as u64);
    line.append(" CustomConfigurationFlags = ");
    append_signed_decimal(&mut line, flags as i64);
    line.append("\n");
    line
}

/// Builds the line logged when a virtual machine is about to stop.
pub fn vm_stopping_message(session_id: u32) -> (line: String)
    ensures
        line@ == vm_stopping_text(session_id),
{
    let mut line = String::from_str("VM stopping. SessionId = ");
    append_decimal(&mut line, session_id as u64);
    line.append("\n");
    line
}

/// Appends to `line` what follows the opening words of a line about a
/// distribution.
fn append_distribution_details(
    line: &mut String,
    session_id: u32,
    distribution: &DistributionInformation,
)
    ensures
        final(line)@ == old(line)@ + distribution_details_text(session_id, *distribution),
{
    let ghost start = line@;
    let mut details = String::new();
    append_decimal(&mut details, session_id as u64);
    details.append(", name=");
    details.append(distribution.name.as_str());
    details.append(", package=");
    match &distribution.package_family_name {
        Some(name) => {
            details.append(name.as_str());
        },
        None => {
            details.append("(null)");
        },
    }
    details.append(", PidNs=");
    append_decimal(&mut details, distribution.pid_namespace);
    details.append(", InitPid=");
    append_decimal(&mut details, distribution.init_pid as u64);
    details.append("\n");
    assert(details@ =~= distribution_details_text(session_id, *distribution));
    line.append(details.as_str());
}

/// Builds the line logged when a distribution has started.
pub fn distribution_started_message(session_id: u32, distribution: &DistributionInformation) -> (line:
    String)
    ensures
        line@ == distribution_started_text(session_id, *distribution),
{
    let mut line = String::from_str("Distibution started. SessionId=");
    append_distribution_details(&mut line, session_id, distribution);
    line
}

/// Builds the line logged when a distribution is about to stop.
pub fn distribution_stopping_message(session_id: u32, distribution: &DistributionInformation) -> (line:
    String)
    ensures
        line@ == distribution_stopping_text(session_id, *distribution),
{
    let mut line = String::from_str("Distibution stopping. SessionId=");
    append_distribution_details(&mut line, session_id, distribution);
    line
}

/// Builds the line logged once the host was asked to start the guest process.
pub fn execute_called_message() -> (line: String)
    ensures
        line@ == execute_called_text(),
{
    String::from_str("called execute_binary\n")
}

/// Builds the line logged when the host could not start the guest process.
pub fn process_failed_message(result: i32) -> (line: String)
    ensures
        line@ == process_failed_text(result),
{
    let mut line = String::from_str("Failed to create process: ");
    append_signed_decimal(&mut line, result as i64);
    line.append("\n");
    line
}

/// Builds the text logged with what the guest process printed.
pub fn kernel_version_message(output: &str) -> (line: String)
    ensures
        line@ == kernel_version_text(output@),
{
    let mut line = String::from_str("Kernel version info: ");
    line.append(output);
    line
}

} // verus!
