use code_runner::request::{
    bootstrap_command, err_if_false, file_from_request_file, join_path, relative_file_paths,
    strip_path_prefix, work_dir_name, work_path_from_args, RequestError, SourceFile,
};

fn strings(items: &[&str]) -> Vec<String> {
    items.iter().map(|s| s.to_string()).collect()
}

#[test]
fn empty_file_name_is_rejected() {
    let r = file_from_request_file("/work", "".to_string(), "content".to_string());
    assert!(matches!(r, Err(RequestError::EmptyFileName())));
}

#[test]
fn empty_file_content_is_rejected() {
    let r = file_from_request_file("/work", "main.py".to_string(), "".to_string());
    assert!(matches!(r, Err(RequestError::EmptyFileContent())));
}

#[test]
fn valid_file_is_placed_under_the_work_directory() {
    let r = file_from_request_file("/work", "main.py".to_string(), "print(1)".to_string());
    let file = r.expect("a non-empty name and content must be accepted");
    assert_eq!(file.path, "/work/main.py");
    assert_eq!(file.content, "print(1)");
}

#[test]
fn join_path_handles_separators() {
    assert_eq!(join_path("/work", "main.py"), "/work/main.py");
    assert_eq!(join_path("/work/", "main.py"), "/work/main.py");
    assert_eq!(join_path("", "main.py"), "main.py");
    assert_eq!(join_path("/work", "/abs.py"), "/abs.py");
    assert_eq!(join_path("/work", "sub/dir.py"), "/work/sub/dir.py");
}

#[test]
fn strip_path_prefix_inverts_join() {
    assert_eq!(
        strip_path_prefix("/work", "/work/main.py"),
        Some("main.py".to_string())
    );
    assert_eq!(strip_path_prefix("/work", "/work"), Some("".to_string()));
    assert_eq!(strip_path_prefix("", "anything"), Some("anything".to_string()));
    assert_eq!(strip_path_prefix("/work", "/elsewhere/main.py"), None);
    assert_eq!(strip_path_prefix("/work", "/workother/main.py"), None);
}

#[test]
fn relative_file_paths_keep_submission_order() {
    let files = vec![
        SourceFile { path: "/w/main.c".to_string(), content: "a".to_string() },
        SourceFile { path: "/w/util.c".to_string(), content: "b".to_string() },
    ];
    let nev = relative_file_paths("/w", files).expect("files under the work path must strip");
    let (head, tail) = nev.parts();
    assert_eq!(head, "main.c");
    assert_eq!(tail, vec!["util.c".to_string()]);
}

#[test]
fn relative_file_paths_reject_empty_lists() {
    let r = relative_file_paths("/w", Vec::new());
    assert!(matches!(r, Err(RequestError::NoFiles())));
}

#[test]
fn relative_file_paths_reject_foreign_paths() {
    let files = vec![SourceFile {
        path: "/other/main.c".to_string(),
        content: "a".to_string(),
    }];
    let r = relative_file_paths("/w", files);
    assert!(matches!(r, Err(RequestError::StripWorkPath())));
}

#[test]
fn request_error_messages() {
    assert_eq!(RequestError::NoFiles().to_message(), "Error, no files were given");
    assert_eq!(
        RequestError::EmptyFileName().to_message(),
        "Error, file with empty name"
    );
    assert_eq!(
        RequestError::EmptyFileContent().to_message(),
        "Error, file with empty content"
    );
    assert_eq!(
        RequestError::StripWorkPath().to_message(),
        "Failed to strip work path of file. prefix not found"
    );
}

#[test]
fn err_if_false_moves_the_error() {
    assert_eq!(err_if_false(true, "nope"), Ok(()));
    assert_eq!(err_if_false(false, "nope"), Err("nope"));
}

#[test]
fn work_path_comes_from_the_path_flag() {
    let args = strings(&["runner", "--path", "/tmp/here"]);
    assert_eq!(work_path_from_args(&args), Some("/tmp/here".to_string()));

    assert_eq!(work_path_from_args(&strings(&["runner"])), None);
    assert_eq!(work_path_from_args(&strings(&["runner", "--other", "/x"])), None);
    assert_eq!(
        work_path_from_args(&strings(&["runner", "--path", "/x", "extra"])),
        None
    );
}

#[test]
fn work_dir_name_appends_the_timestamp() {
    assert_eq!(work_dir_name(0), "glot-0");
    assert_eq!(work_dir_name(1700000000), "glot-1700000000");
}

#[test]
fn bootstrap_command_names_the_archive() {
    assert_eq!(
        bootstrap_command("/bootstrap.tar.gz"),
        "tar -zxf /bootstrap.tar.gz"
    );
}
