use zipper::{Action, CreateArchive, Creation, Error, ErrorKind};

fn args(list: &[&str]) -> Vec<String> {
    list.iter().map(|s| s.to_string()).collect()
}

fn request(list: &[&str]) -> CreateArchive {
    match CreateArchive::from_args(args(list)) {
        Ok(r) => r,
        Err(e) => panic!("unexpected error: {}", e.message()),
    }
}

fn expect_error(action: Action) -> Error {
    match action {
        Action::Complete(Err(e)) => e,
        other => panic!("expected a failure, got {:?}", other),
    }
}

#[test]
fn empty_argument_list_is_usage_error() {
    let e = match CreateArchive::from_args(Vec::new()) {
        Err(e) => e,
        Ok(_) => panic!("expected a usage error"),
    };
    assert_eq!(e.kind, ErrorKind::Usage);
    assert_eq!(e.exit_code(), 1);
    assert!(e.cause().is_none());
}

#[test]
fn output_without_inputs_is_usage_error() {
    let e = match CreateArchive::from_args(args(&["out.zip"])) {
        Err(e) => e,
        Ok(_) => panic!("expected a usage error"),
    };
    assert_eq!(e.kind, ErrorKind::Usage);
    assert_eq!(e.exit_code(), 1);
    assert_eq!(
        e.description(),
        "Usage: zipper <zip file> <file to archive> <file to archive> ..."
    );
    assert_eq!(
        e.message(),
        "Usage: zipper <zip file> <file to archive> <file to archive> ..."
    );
}

#[test]
fn arguments_become_output_and_ordered_inputs() {
    let r = request(&["out.zip", "b.txt", "a.txt", "b.txt"]);
    assert_eq!(r.output(), "out.zip");
    assert_eq!(r.inputs(), &args(&["b.txt", "a.txt", "b.txt"])[..]);
}

#[test]
fn two_inputs_make_two_entries_in_order() {
    let (mut c, first) = Creation::start(request(&["out.zip", "a.txt", "b.txt"]));
    assert!(matches!(first, Action::CreateOutput(ref p) if p == "out.zip"));
    assert!(matches!(c.advance(Ok(())), Action::OpenInput(ref p) if p == "a.txt"));
    assert!(matches!(c.advance(Ok(())), Action::StartEntry(ref n) if n == "a.txt"));
    assert!(matches!(c.advance(Ok(())), Action::CopyInput));
    assert!(matches!(c.advance(Ok(())), Action::OpenInput(ref p) if p == "b.txt"));
    assert!(matches!(c.advance(Ok(())), Action::StartEntry(ref n) if n == "b.txt"));
    assert!(matches!(c.advance(Ok(())), Action::CopyInput));
    assert!(matches!(c.advance(Ok(())), Action::Finish));
    assert!(!c.is_done());
    assert!(matches!(c.advance(Ok(())), Action::Complete(Ok(()))));
    assert!(c.is_done());
}

#[test]
fn entry_name_is_final_path_component() {
    let (mut c, _) = Creation::start(request(&["out.zip", "docs/notes/readme.md"]));
    assert!(matches!(c.advance(Ok(())), Action::OpenInput(ref p) if p == "docs/notes/readme.md"));
    assert!(matches!(c.advance(Ok(())), Action::StartEntry(ref n) if n == "readme.md"));
}

#[test]
fn missing_input_ends_with_io_error() {
    let (mut c, _) = Creation::start(request(&["out.zip", "missing.txt", "b.txt"]));
    assert!(matches!(c.advance(Ok(())), Action::OpenInput(ref p) if p == "missing.txt"));
    let e = expect_error(c.advance(Err("No such file or directory".to_string())));
    assert_eq!(e.kind, ErrorKind::IO);
    assert_eq!(e.exit_code(), 2);
    assert_eq!(e.description(), "Unable to open source file");
    assert_eq!(e.cause(), Some("No such file or directory"));
    assert_eq!(e.message(), "Unable to open source file: No such file or directory");
    assert!(c.is_done());
}

#[test]
fn uncreatable_output_fails_before_any_input() {
    let (mut c, _) = Creation::start(request(&["no/such/dir/out.zip", "a.txt"]));
    let e = expect_error(c.advance(Err("Permission denied".to_string())));
    assert_eq!(e.kind, ErrorKind::IO);
    assert_eq!(e.exit_code(), 2);
    assert_eq!(e.description(), "Unable to create zip file");
    assert!(c.is_done());
}

#[test]
fn entry_failure_is_codec_error() {
    let (mut c, _) = Creation::start(request(&["out.zip", "a.txt"]));
    c.advance(Ok(()));
    c.advance(Ok(()));
    let e = expect_error(c.advance(Err("invalid entry".to_string())));
    assert_eq!(e.kind, ErrorKind::Zip);
    assert_eq!(e.exit_code(), 3);
    assert_eq!(e.description(), "An error occurred creating the archive");
}

#[test]
fn copy_failure_is_io_error() {
    let (mut c, _) = Creation::start(request(&["out.zip", "a.txt", "b.txt"]));
    c.advance(Ok(()));
    c.advance(Ok(()));
    c.advance(Ok(()));
    let e = expect_error(c.advance(Err("read failed".to_string())));
    assert_eq!(e.kind, ErrorKind::IO);
    assert_eq!(e.exit_code(), 2);
    assert_eq!(e.description(), "An error occurred while copying files");
    assert!(c.is_done());
}

#[test]
fn finish_failure_is_codec_error() {
    let (mut c, _) = Creation::start(request(&["out.zip", "a.txt"]));
    for _ in 0..4 {
        c.advance(Ok(()));
    }
    let e = expect_error(c.advance(Err("disk full".to_string())));
    assert_eq!(e.kind, ErrorKind::Zip);
    assert_eq!(e.exit_code(), 3);
    assert_eq!(e.message(), "An error occurred creating the archive: disk full");
}

#[test]
fn input_without_file_name_is_io_error() {
    let (mut c, _) = Creation::start(request(&["out.zip", "a.txt", "dir/.."]));
    for _ in 0..3 {
        c.advance(Ok(()));
    }
    let e = expect_error(c.advance(Ok(())));
    assert_eq!(e.kind, ErrorKind::IO);
    assert_eq!(e.exit_code(), 2);
    assert_eq!(e.cause(), Some("dir/.."));
    assert!(c.is_done());
}

#[test]
fn same_request_and_outcomes_give_same_actions() {
    let trace = || {
        let (mut c, first) = Creation::start(request(&["out.zip", "x/a.txt", "b.txt"]));
        let mut seen = vec![format!("{:?}", first)];
        while !c.is_done() {
            seen.push(format!("{:?}", c.advance(Ok(()))));
        }
        seen
    };
    assert_eq!(trace(), trace());
    assert_eq!(trace().len(), 9);
}

#[test]
fn exit_codes_are_stable() {
    assert_eq!(ErrorKind::Usage.exit_code(), 1);
    assert_eq!(ErrorKind::IO.exit_code(), 2);
    assert_eq!(ErrorKind::Zip.exit_code(), 3);
    assert_eq!(Error::io("gone".to_string(), "Unable to open source file").exit_code(), 2);
    assert_eq!(Error::zip("bad".to_string()).exit_code(), 3);
    assert_eq!(Error::usage().exit_code(), 1);
}
