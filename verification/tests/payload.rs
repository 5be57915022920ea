use script_watch::command::ShellCommand;
use script_watch::payload::{Payload, StartupError};
use script_watch::probe::{Executable, FileStatus};

fn status(exists: bool, executable: Executable, canonical: Option<&str>) -> FileStatus {
    FileStatus { exists, executable, canonical: canonical.map(String::from) }
}

fn configured() -> Payload {
    Payload::new(
        Some(String::from("./notify.sh")),
        Some(String::from("/work")),
        &status(true, Executable::Yes, Some("/work/tools/notify.sh")),
    )
    .unwrap()
}

fn plain() -> Payload {
    Payload::new(None, Some(String::from("/work")), &status(false, Executable::Unknown, None)).unwrap()
}

#[test]
fn run_without_then_script_may_start() {
    let payload = plain();
    assert_eq!(payload.initial_dir(), Some(&String::from("/work")));
    assert_eq!(payload.raw_then_path(), None);
    assert_eq!(payload.then_command(), None);
    assert_eq!(payload.then_job(), None);
}

#[test]
fn then_path_is_replaced_by_its_resolved_form() {
    let payload = configured();
    assert_eq!(payload.raw_then_path(), Some(&String::from("/work/tools/notify.sh")));
    assert_eq!(payload.initial_dir(), Some(&String::from("/work")));
}

#[test]
fn missing_current_directory_is_the_first_fault() {
    let made = Payload::new(Some(String::from("./notify.sh")), None, &status(false, Executable::Unknown, None));
    assert_eq!(made.unwrap_err(), StartupError::NoCurrentDir);
    let without_then = Payload::new(None, None, &status(true, Executable::Yes, Some("/x")));
    assert_eq!(without_then.unwrap_err(), StartupError::NoCurrentDir);
}

#[test]
fn missing_then_script_is_a_fault() {
    let made = Payload::new(
        Some(String::from("./notify.sh")),
        Some(String::from("/work")),
        &status(false, Executable::Yes, Some("/work/notify.sh")),
    );
    assert_eq!(made.unwrap_err(), StartupError::ThenMissing);
}

#[test]
fn then_script_that_is_not_executable_is_a_fault() {
    let made = Payload::new(
        Some(String::from("./notify.sh")),
        Some(String::from("/work")),
        &status(true, Executable::No, Some("/work/notify.sh")),
    );
    assert_eq!(made.unwrap_err(), StartupError::ThenNotExecutable);
}

#[test]
fn unknown_permissions_are_a_fault() {
    let made = Payload::new(
        Some(String::from("./notify.sh")),
        Some(String::from("/work")),
        &status(true, Executable::Unknown, Some("/work/notify.sh")),
    );
    assert_eq!(made.unwrap_err(), StartupError::ThenPermissionsUnknown);
}

#[test]
fn then_script_that_does_not_resolve_is_a_fault() {
    let made = Payload::new(
        Some(String::from("./notify.sh")),
        Some(String::from("/work")),
        &status(true, Executable::Yes, None),
    );
    assert_eq!(made.unwrap_err(), StartupError::ThenUnresolvable);
}

#[test]
fn failed_check_leaves_the_configuration_as_it_was() {
    let mut payload = plain();
    assert_eq!(payload.validate_paths(&status(false, Executable::No, None)), Ok(()));
    assert_eq!(payload.raw_then_path(), None);
    let mut asked = configured();
    assert_eq!(
        asked.validate_paths(&status(true, Executable::No, Some("/elsewhere/notify.sh"))),
        Err(StartupError::ThenNotExecutable)
    );
    assert_eq!(asked.raw_then_path(), Some(&String::from("/work/tools/notify.sh")));
    assert_eq!(asked.validate_paths(&status(true, Executable::Yes, Some("/elsewhere/notify.sh"))), Ok(()));
    assert_eq!(asked.raw_then_path(), Some(&String::from("/elsewhere/notify.sh")));
}

#[test]
fn messages_name_the_path() {
    assert_eq!(
        StartupError::NoCurrentDir.message("./notify.sh"),
        Some(String::from("ERROR: could not get current directory. Can not continue."))
    );
    assert_eq!(
        StartupError::ThenMissing.message("./notify.sh"),
        Some(String::from("ERROR: ./notify.sh does not exist"))
    );
    assert_eq!(
        StartupError::ThenNotExecutable.message("./notify.sh"),
        Some(String::from("ERROR: ./notify.sh is not executable"))
    );
    assert_eq!(
        StartupError::ThenPermissionsUnknown.message("./notify.sh"),
        Some(String::from("ERROR: Could not determine permissions for ./notify.sh "))
    );
    assert_eq!(StartupError::ThenUnresolvable.message("./notify.sh"), None);
}

#[test]
fn then_command_runs_the_script_by_its_name() {
    let payload = configured();
    assert_eq!(payload.then_command(), Some(String::from("./notify.sh")));
    assert_eq!(
        payload.then_job(),
        Some(ShellCommand { shell: String::from("bash"), command: String::from("./notify.sh") })
    );
}

#[test]
fn then_cd_enters_the_start_then_the_scripts_directory() {
    assert_eq!(configured().then_cd(), vec![String::from("/work"), String::from("/work/tools")]);
}

#[test]
fn then_cd_of_a_root_has_no_second_directory() {
    let payload =
        Payload::new(Some(String::from("/")), Some(String::from("/work")), &status(true, Executable::Yes, Some("/")))
            .unwrap();
    assert_eq!(payload.then_cd(), vec![String::from("/work")]);
}

#[test]
fn watch_path_is_the_current_directory() {
    assert_eq!(plain().watch_path(), ".");
}

#[test]
fn mark_time_keeps_the_paths() {
    let mut payload = configured();
    payload.mark_time();
    assert_eq!(payload.raw_then_path(), Some(&String::from("/work/tools/notify.sh")));
    assert_eq!(payload.initial_dir(), Some(&String::from("/work")));
    payload.mark_time();
    assert_eq!(payload.then_command(), Some(String::from("./notify.sh")));
}
