use tool_router::errors::ToolError;
use tool_router::tools::{
    join_lines, CatTool, CdTool, ChangeDirOutcome, FsAction, GetCwdOutcome, GetCwdTool,
    ListDirOutcome, ListDirTool, ReadFileOutcome, ToolInput, ToolKind, ToolRegistry,
};

#[test]
fn tool_names_and_descriptions() {
    assert_eq!(CatTool.name(), "cat");
    assert_eq!(CdTool.name(), "cd");
    assert_eq!(GetCwdTool.name(), "get_cwd");
    assert_eq!(ListDirTool.name(), "ls");
    assert_eq!(CatTool.description(), "Reads the contents of a file.");
    assert_eq!(
        ListDirTool.description(),
        "Lists all files and directories in the current working directory."
    );
}

#[test]
fn parameter_schemas() {
    let cat = CatTool.parameters();
    assert_eq!(cat.properties.len(), 1);
    assert_eq!(cat.properties[0].name, "file_path");
    assert_eq!(cat.properties[0].value_type, "string");
    assert!(cat.properties[0].required);
    let cd = CdTool.parameters();
    assert_eq!(cd.properties.len(), 1);
    assert_eq!(cd.properties[0].name, "path");
    assert_eq!(GetCwdTool.parameters().properties.len(), 0);
    assert_eq!(ListDirTool.parameters().properties.len(), 0);
}

#[test]
fn cat_prepare_accepts_a_text_path() {
    let mut input = ToolInput::empty();
    input.push_text(String::from("file_path"), String::from("/tmp/notes.txt"));
    let action = CatTool.prepare(&input).unwrap();
    assert!(matches!(action, FsAction::ReadFile { path } if path == "/tmp/notes.txt"));
}

#[test]
fn cat_prepare_rejects_a_missing_or_non_text_path() {
    let empty = ToolInput::empty();
    let r = CatTool.prepare(&empty);
    assert!(matches!(r, Err(ToolError::InvalidToolInput { field }) if field == "file_path"));
    let mut wrong_type = ToolInput::empty();
    wrong_type.push_other(String::from("file_path"));
    let r2 = CatTool.prepare(&wrong_type);
    assert!(matches!(r2, Err(ToolError::InvalidToolInput { field }) if field == "file_path"));
}

#[test]
fn cat_conclude_maps_outcomes_to_error_kinds() {
    let path = String::from("/no/such/file");
    let missing = CatTool.conclude(&path, ReadFileOutcome::Missing);
    assert!(matches!(missing, Err(ToolError::NotFound { path: p }) if p == "/no/such/file"));
    let dir = CatTool.conclude(&path, ReadFileOutcome::NotRegular);
    assert!(matches!(dir, Err(ToolError::NotAFile { path: p }) if p == "/no/such/file"));
    let text = CatTool
        .conclude(&path, ReadFileOutcome::Contents(String::from("hello\nworld")))
        .unwrap();
    assert_eq!(text, "hello\nworld");
    let failed = CatTool.conclude(&path, ReadFileOutcome::Failed(String::from("denied")));
    assert!(matches!(failed, Err(ToolError::EnvironmentError { detail }) if detail == "denied"));
}

#[test]
fn cd_conclude_confirms_or_reports_the_change() {
    let dot = String::from(".");
    let ok = CdTool.conclude(&dot, ChangeDirOutcome::Changed).unwrap();
    assert_eq!(ok, "Changed current directory to .");
    let bad = String::from("/nonexistent-xyz");
    let err = CdTool.conclude(&bad, ChangeDirOutcome::Failed(String::from("no such directory")));
    assert!(matches!(
        err,
        Err(ToolError::DirectoryChangeError { detail }) if detail == "no such directory"
    ));
}

#[test]
fn cd_prepare_requires_the_path_field() {
    let r = CdTool.prepare(&ToolInput::empty());
    assert!(matches!(r, Err(ToolError::InvalidToolInput { field }) if field == "path"));
    let mut input = ToolInput::empty();
    input.push_text(String::from("path"), String::from("/tmp"));
    let action = CdTool.prepare(&input).unwrap();
    assert!(matches!(action, FsAction::ChangeDir { path } if path == "/tmp"));
}

#[test]
fn ls_conclude_joins_entries_with_newlines() {
    let entries = vec![String::from("a.txt"), String::from("b.txt"), String::from("sub")];
    let text = ListDirTool.conclude(ListDirOutcome::Entries(entries)).unwrap();
    assert_eq!(text, "a.txt\nb.txt\nsub");
    let none = ListDirTool.conclude(ListDirOutcome::Entries(vec![])).unwrap();
    assert_eq!(none, "");
    let err = ListDirTool.conclude(ListDirOutcome::Failed(String::from("gone")));
    assert!(matches!(err, Err(ToolError::EnvironmentError { detail }) if detail == "gone"));
}

#[test]
fn get_cwd_conclude_returns_the_path_or_fails() {
    let ok = GetCwdTool.conclude(GetCwdOutcome::Cwd(String::from("/home/user"))).unwrap();
    assert_eq!(ok, "/home/user");
    let err = GetCwdTool.conclude(GetCwdOutcome::Failed(String::from("unlinked")));
    assert!(matches!(err, Err(ToolError::EnvironmentError { detail }) if detail == "unlinked"));
}

#[test]
fn join_lines_exact_values() {
    assert_eq!(join_lines(&vec![]), "");
    assert_eq!(join_lines(&vec![String::from("only")]), "only");
    assert_eq!(join_lines(&vec![String::from("x"), String::from("y")]), "x\ny");
}

#[test]
fn registry_is_in_registration_order() {
    let reg = ToolRegistry::standard();
    assert_eq!(reg.len(), 4);
    assert!(matches!(reg.get(0), ToolKind::GetCwd));
    assert!(matches!(reg.get(1), ToolKind::Cd));
    assert!(matches!(reg.get(2), ToolKind::ListDir));
    assert!(matches!(reg.get(3), ToolKind::Cat));
    let descriptions = reg.descriptions();
    assert_eq!(descriptions[2], "Lists all files and directories in the current working directory.");
    let names = reg.names();
    assert_eq!(names, vec!["get_cwd", "cd", "ls", "cat"]);
}

#[test]
fn registry_lookup_by_name() {
    let reg = ToolRegistry::standard();
    assert!(matches!(reg.lookup(&String::from("cat")), Ok(ToolKind::Cat)));
    assert!(matches!(reg.lookup(&String::from("ls")), Ok(ToolKind::ListDir)));
    let missing = reg.lookup(&String::from("frobnicate"));
    assert!(matches!(missing, Err(ToolError::ToolNotFound { name }) if name == "frobnicate"));
}

#[test]
fn tool_input_reads_the_first_matching_text_field() {
    let mut input = ToolInput::empty();
    input.push_other(String::from("count"));
    input.push_text(String::from("path"), String::from("/a"));
    input.push_text(String::from("path"), String::from("/b"));
    assert_eq!(input.get_text(&String::from("path")), Some(String::from("/a")));
    assert_eq!(input.get_text(&String::from("count")), None);
    assert_eq!(input.get_text(&String::from("absent")), None);
}

#[test]
fn error_messages_are_exact() {
    let e = ToolError::NotFound { path: String::from("/x") };
    assert_eq!(e.message(), "File not found: /x");
    let e = ToolError::NotAFile { path: String::from("/y") };
    assert_eq!(e.message(), "Path is not a file: /y");
    let e = ToolError::InvalidToolInput { field: String::from("file_path") };
    assert_eq!(e.message(), "Invalid input: missing required string field file_path");
}
