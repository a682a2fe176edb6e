use wsl_plugin_sample::host::DistributionInformation;
use wsl_plugin_sample::messages::{
    distribution_started_message, distribution_stopping_message, execute_called_message,
    kernel_version_message, plugin_loaded_message, process_failed_message, vm_created_message,
    vm_stopping_message, LOG_PATH,
};
use wsl_plugin_sample::version::WslVersion;

fn ubuntu() -> DistributionInformation {
    DistributionInformation {
        name: String::from("Ubuntu"),
        package_family_name: Some(String::from("CanonicalGroupLimited.Ubuntu_79rhkp1fndgsc")),
        pid_namespace: 4026532240,
        init_pid: 312,
    }
}

fn imported() -> DistributionInformation {
    DistributionInformation {
        name: String::from("alpine-dev"),
        package_family_name: None,
        pid_namespace: 0,
        init_pid: 1,
    }
}

#[test]
fn log_file_path() {
    assert_eq!(LOG_PATH, "C:\\wsl-plugin-demo.txt");
}

#[test]
fn plugin_loaded_line() {
    let version = WslVersion { major: 2, minor: 1, revision: 2 };
    assert_eq!(plugin_loaded_message(&version), "Plugin loaded. WSL version: 2.1.2\n");
}

#[test]
fn plugin_loaded_line_with_long_numbers() {
    let version = WslVersion { major: 10, minor: 0, revision: 4294967295 };
    assert_eq!(plugin_loaded_message(&version), "Plugin loaded. WSL version: 10.0.4294967295\n");
}

#[test]
fn vm_created_line() {
    assert_eq!(
        vm_created_message(7, 3),
        "VM created. SessionId = 7 CustomConfigurationFlags = 3\n"
    );
    assert_eq!(
        vm_created_message(0, 0),
        "VM created. SessionId = 0 CustomConfigurationFlags = 0\n"
    );
}

#[test]
fn vm_created_line_with_negative_flags() {
    assert_eq!(
        vm_created_message(4294967295, -2147483648),
        "VM created. SessionId = 4294967295 CustomConfigurationFlags = -2147483648\n"
    );
}

#[test]
fn vm_stopping_line() {
    assert_eq!(vm_stopping_message(12), "VM stopping. SessionId = 12\n");
}

#[test]
fn distribution_started_line_with_package() {
    assert_eq!(
        distribution_started_message(3, &ubuntu()),
        "Distibution started. SessionId=3, name=Ubuntu, \
         package=CanonicalGroupLimited.Ubuntu_79rhkp1fndgsc, PidNs=4026532240, InitPid=312\n"
    );
}

#[test]
fn distribution_started_line_without_package() {
    assert_eq!(
        distribution_started_message(3, &imported()),
        "Distibution started. SessionId=3, name=alpine-dev, package=(null), PidNs=0, InitPid=1\n"
    );
}

#[test]
fn distribution_stopping_line_with_package() {
    assert_eq!(
        distribution_stopping_message(3, &ubuntu()),
        "Distibution stopping. SessionId=3, name=Ubuntu, \
         package=CanonicalGroupLimited.Ubuntu_79rhkp1fndgsc, PidNs=4026532240, InitPid=312\n"
    );
}

#[test]
fn distribution_stopping_line_without_package() {
    assert_eq!(
        distribution_stopping_message(9, &imported()),
        "Distibution stopping. SessionId=9, name=alpine-dev, package=(null), PidNs=0, InitPid=1\n"
    );
}

#[test]
fn distribution_line_keeps_names_outside_ascii() {
    let distribution = DistributionInformation {
        name: String::from("d\u{e9}bian \u{1f427}"),
        package_family_name: Some(String::new()),
        pid_namespace: u64::MAX,
        init_pid: u32::MAX,
    };
    assert_eq!(
        distribution_started_message(1, &distribution),
        "Distibution started. SessionId=1, name=d\u{e9}bian \u{1f427}, package=, \
         PidNs=18446744073709551615, InitPid=4294967295\n"
    );
}

#[test]
fn execute_called_line() {
    assert_eq!(execute_called_message(), "called execute_binary\n");
}

#[test]
fn process_failed_line() {
    assert_eq!(process_failed_message(1), "Failed to create process: 1\n");
    assert_eq!(
        process_failed_message(-2147467259),
        "Failed to create process: -2147467259\n"
    );
}

#[test]
fn kernel_version_text_has_no_line_end_of_its_own() {
    assert_eq!(
        kernel_version_message("Linux version 5.15.146.1\n"),
        "Kernel version info: Linux version 5.15.146.1\n"
    );
    assert_eq!(kernel_version_message(""), "Kernel version info: ");
}
