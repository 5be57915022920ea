use script_watch::probe::{contains_nul, Executable, FileStatus};

#[test]
fn nul_is_found_wherever_it_stands() {
    assert!(contains_nul("\0"));
    assert!(contains_nul("/work/\0build.sh"));
    assert!(contains_nul("/work/build.sh\0"));
}

#[test]
fn text_without_nul_has_none() {
    assert!(!contains_nul(""));
    assert!(!contains_nul("/work/build.sh"));
    assert!(!contains_nul("/work/0"));
}

#[test]
fn answer_of_the_query_is_read() {
    assert_eq!(Executable::from_answer(Some(true)), Executable::Yes);
    assert_eq!(Executable::from_answer(Some(false)), Executable::No);
    assert_eq!(Executable::from_answer(None), Executable::Unknown);
}

#[test]
fn path_with_nul_is_unknown_without_a_query() {
    assert_eq!(Executable::probe("/bin\0/sh"), Executable::Unknown);
}

#[test]
fn root_directory_may_be_entered() {
    assert_eq!(Executable::probe("/"), Executable::Yes);
}

#[test]
fn missing_file_is_unknown() {
    assert_eq!(Executable::probe("/no/such/directory/anywhere/run.sh"), Executable::Unknown);
}

#[test]
fn probe_keeps_what_the_caller_found() {
    let status = FileStatus::probe("/", true, Some(String::from("/")));
    assert_eq!(
        status,
        FileStatus { exists: true, executable: Executable::Yes, canonical: Some(String::from("/")) }
    );
    let missing = FileStatus::probe("/no/such/directory/anywhere/run.sh", false, None);
    assert_eq!(missing, FileStatus { exists: false, executable: Executable::Unknown, canonical: None });
}
