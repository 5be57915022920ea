use script_watch::command::ShellCommand;
use script_watch::events::{batch_interrupted, ChangeKind, Event, Signal, Tag};
use script_watch::filter::{get_command, ActionableTarget};
use script_watch::probe::{Executable, FileStatus};

fn file(executable: Executable, canonical: &str) -> FileStatus {
    FileStatus { exists: true, executable, canonical: Some(String::from(canonical)) }
}

fn path(path: &str, executable: Executable, canonical: &str) -> Tag {
    Tag::Path { path: String::from(path), file: file(executable, canonical) }
}

fn script(name: &str) -> Tag {
    path(&format!("/work/{}", name), Executable::Yes, &format!("/work/{}", name))
}

fn changed(mut tags: Vec<Tag>) -> Event {
    tags.insert(0, Tag::Kind(ChangeKind::ContentModified));
    Event { tags }
}

fn target(dir: &str, line: &str, is_then_script: bool) -> ActionableTarget {
    ActionableTarget {
        directory_to_cd_into: Some(String::from(dir)),
        script_invocation: String::from(line),
        is_then_script,
    }
}

#[test]
fn empty_batch_selects_nothing() {
    assert_eq!(get_command(&vec![], None), None);
    assert_eq!(get_command(&vec![Event { tags: vec![] }], None), None);
}

#[test]
fn content_change_of_an_executable_script_is_selected() {
    let batch = vec![changed(vec![script("build.sh")])];
    assert_eq!(get_command(&batch, None), Some(target("/work", "./build.sh", false)));
}

#[test]
fn kind_tag_may_follow_the_path() {
    let batch = vec![Event { tags: vec![script("build.sh"), Tag::Kind(ChangeKind::ContentModified)] }];
    assert_eq!(get_command(&batch, None), Some(target("/work", "./build.sh", false)));
}

#[test]
fn other_kinds_of_change_select_nothing() {
    for kind in [
        ChangeKind::Created,
        ChangeKind::DataModified,
        ChangeKind::MetadataChanged,
        ChangeKind::Renamed,
        ChangeKind::Removed,
        ChangeKind::Accessed,
        ChangeKind::Other,
    ] {
        let batch = vec![Event { tags: vec![Tag::Kind(kind), script("build.sh")] }];
        assert_eq!(get_command(&batch, None), None);
    }
}

#[test]
fn notification_without_a_kind_selects_nothing() {
    let batch = vec![Event { tags: vec![script("build.sh"), Tag::Other, Tag::Signal(Signal::Other)] }];
    assert_eq!(get_command(&batch, None), None);
}

#[test]
fn hidden_path_is_excluded() {
    let batch = vec![changed(vec![path("/work/.git/run.sh", Executable::Yes, "/work/.git/run.sh")])];
    assert_eq!(get_command(&batch, None), None);
}

#[test]
fn backup_file_is_excluded() {
    let batch = vec![changed(vec![script("build.sh~")])];
    assert_eq!(get_command(&batch, None), None);
}

#[test]
fn file_that_is_not_executable_is_excluded() {
    let batch = vec![changed(vec![path("/work/notes.txt", Executable::No, "/work/notes.txt")])];
    assert_eq!(get_command(&batch, None), None);
}

#[test]
fn failed_permission_check_excludes() {
    let batch = vec![changed(vec![path("/work/build.sh", Executable::Unknown, "/work/build.sh")])];
    assert_eq!(get_command(&batch, None), None);
}

#[test]
fn path_that_does_not_resolve_is_excluded() {
    let gone = Tag::Path {
        path: String::from("/work/gone.sh"),
        file: FileStatus { exists: false, executable: Executable::Yes, canonical: None },
    };
    assert_eq!(get_command(&vec![changed(vec![gone])], None), None);
}

#[test]
fn path_without_file_name_is_skipped_and_the_scan_goes_on() {
    let batch = vec![changed(vec![path("/", Executable::Yes, "/"), script("build.sh")])];
    assert_eq!(get_command(&batch, None), Some(target("/work", "./build.sh", false)));
    let only_root = vec![changed(vec![path("/", Executable::Yes, "/")])];
    assert_eq!(get_command(&only_root, None), None);
}

#[test]
fn excluded_paths_are_passed_over() {
    let batch = vec![changed(vec![
        path("/work/.hidden.sh", Executable::Yes, "/work/.hidden.sh"),
        script("old.sh~"),
        path("/work/data.txt", Executable::No, "/work/data.txt"),
        script("run.sh"),
    ])];
    assert_eq!(get_command(&batch, None), Some(target("/work", "./run.sh", false)));
}

#[test]
fn first_qualifying_path_of_a_notification_wins() {
    let batch = vec![changed(vec![script("first.sh"), script("second.sh")])];
    assert_eq!(get_command(&batch, None), Some(target("/work", "./first.sh", false)));
}

#[test]
fn first_qualifying_notification_wins() {
    let batch = vec![
        Event { tags: vec![Tag::Kind(ChangeKind::Renamed), script("renamed.sh")] },
        changed(vec![script("data.sh~")]),
        changed(vec![script("first.sh")]),
        changed(vec![script("second.sh")]),
    ];
    assert_eq!(get_command(&batch, None), Some(target("/work", "./first.sh", false)));
}

#[test]
fn selection_is_the_same_on_every_run() {
    let batch = vec![changed(vec![script("a.sh"), script("b.sh")]), changed(vec![script("c.sh")])];
    let first = get_command(&batch, None);
    for _ in 0..5 {
        assert_eq!(get_command(&batch, None), first);
    }
    assert_eq!(first, Some(target("/work", "./a.sh", false)));
}

#[test]
fn directory_and_name_come_from_the_delivered_path() {
    let batch = vec![changed(vec![path("./build.sh", Executable::Yes, "/work/build.sh")])];
    assert_eq!(get_command(&batch, None), Some(target(".", "./build.sh", false)));
    let bare = vec![changed(vec![path("build.sh", Executable::Yes, "/work/build.sh")])];
    assert_eq!(get_command(&bare, None), Some(target("", "./build.sh", false)));
}

#[test]
fn then_script_is_recognised_by_its_resolved_path() {
    let then_path = String::from("/work/notify.sh");
    let through_link = vec![changed(vec![path("/work/link/notify.sh", Executable::Yes, "/work/notify.sh")])];
    assert_eq!(get_command(&through_link, Some(&then_path)), Some(target("/work/link", "./notify.sh", true)));
    let same_name_elsewhere = vec![changed(vec![path("/work/notify.sh", Executable::Yes, "/other/notify.sh")])];
    assert_eq!(get_command(&same_name_elsewhere, Some(&then_path)), Some(target("/work", "./notify.sh", false)));
}

#[test]
fn without_a_then_path_nothing_is_the_then_script() {
    let batch = vec![changed(vec![script("notify.sh")])];
    assert_eq!(get_command(&batch, None), Some(target("/work", "./notify.sh", false)));
}

#[test]
fn candidate_target_of_one_path() {
    let then_path = String::from("/work/notify.sh");
    let good = file(Executable::Yes, "/work/build.sh");
    assert_eq!(
        ActionableTarget::from_candidate(&String::from("/work/build.sh"), &good, Some(&then_path)),
        Some(target("/work", "./build.sh", false))
    );
    let not_executable = file(Executable::No, "/work/build.sh");
    assert_eq!(ActionableTarget::from_candidate(&String::from("/work/build.sh"), &not_executable, None), None);
}

#[test]
fn target_runs_under_bash() {
    let command = target("/work", "./build.sh", false).command();
    assert_eq!(command, ShellCommand { shell: String::from("bash"), command: String::from("./build.sh") });
    assert_eq!(command.duplicate(), command);
    assert_eq!(ShellCommand::bash(String::from("./x")).shell, "bash");
}

#[test]
fn content_change_is_told_from_its_tags() {
    assert!(changed(vec![]).is_content_change());
    assert!(!Event { tags: vec![Tag::Kind(ChangeKind::Renamed), Tag::Other] }.is_content_change());
    assert!(!Event { tags: vec![] }.is_content_change());
}

#[test]
fn interrupt_is_found_anywhere_in_the_batch() {
    let interrupt = Event { tags: vec![Tag::Other, Tag::Signal(Signal::Interrupt)] };
    assert!(interrupt.is_interrupt());
    assert!(batch_interrupted(&vec![changed(vec![script("a.sh")]), interrupt]));
    assert!(!batch_interrupted(&vec![changed(vec![script("a.sh")]), Event { tags: vec![Tag::Signal(Signal::Other)] }]));
    assert!(!batch_interrupted(&vec![]));
}
