use std::collections::BTreeMap;
use tachi::agent::Agent;
use tachi::error::WriteError;
use tachi::output::{check_overwrite, is_safe_segment, project_dir, project_files, OutputFile};
use tachi::templates::{AGENT_FILE, CLI_FILE, PY_CLI_TEMPLATE, ENV_EXAMPLE, ENV_FILE, REQUIREMENTS, REQUIREMENTS_FILE};
use tachi::vocabulary::Model;

fn named(name: &str) -> Agent {
    Agent { name: name.to_string(), tools: vec![], model: Model::QwenCoder }
}

/// Writes `files` into `disk` as a caller of the library does: file by file,
/// asking before each one, and stopping at the first refusal.
fn write_all(
    disk: &mut BTreeMap<String, String>,
    dir: &str,
    files: &[OutputFile],
    force: bool,
) -> Result<(), WriteError> {
    for file in files {
        let path = format!("{}/{}", dir, file.name);
        check_overwrite(&path, disk.contains_key(&path), force)?;
        disk.insert(path, file.content.clone());
    }
    Ok(())
}

#[test]
fn the_files_have_their_names() {
    assert_eq!(AGENT_FILE, "agent.py");
    assert_eq!(CLI_FILE, "cli.py");
    assert_eq!(REQUIREMENTS_FILE, "requirements.txt");
    assert_eq!(ENV_FILE, ".env.example");
}

#[test]
fn project_files_puts_the_agent_definition_first() {
    let files = project_files("print('agent')\n".to_string());
    let pairs: Vec<(&str, &str)> =
        files.iter().map(|file| (file.name.as_str(), file.content.as_str())).collect();
    assert_eq!(
        pairs,
        vec![
            ("agent.py", "print('agent')\n"),
            ("cli.py", PY_CLI_TEMPLATE),
            ("requirements.txt", REQUIREMENTS),
            (".env.example", ENV_EXAMPLE),
        ]
    );
}

#[test]
fn project_files_have_four_different_names() {
    let files = project_files(String::new());
    let by_name: BTreeMap<&str, &str> =
        files.iter().map(|file| (file.name.as_str(), file.content.as_str())).collect();
    assert_eq!(by_name.len(), 4);
}

#[test]
fn ordinary_names_are_safe() {
    assert!(is_safe_segment("demo"));
    assert!(is_safe_segment("my agent"));
    assert!(is_safe_segment("agent-2.0"));
    assert!(is_safe_segment("..."));
    assert!(is_safe_segment(".hidden"));
    assert!(is_safe_segment("caf\u{e9}"));
}

#[test]
fn names_that_leave_the_directory_are_unsafe() {
    assert!(!is_safe_segment(""));
    assert!(!is_safe_segment("."));
    assert!(!is_safe_segment(".."));
    assert!(!is_safe_segment("../demo"));
    assert!(!is_safe_segment("/demo"));
    assert!(!is_safe_segment("demo/"));
    assert!(!is_safe_segment("a/b"));
    assert!(!is_safe_segment("a\\b"));
    assert!(!is_safe_segment("a\0b"));
}

#[test]
fn the_project_directory_is_the_agent_name() {
    assert_eq!(project_dir(&named("demo")), Ok("demo"));
}

#[test]
fn an_unsafe_agent_name_gives_no_directory() {
    assert_eq!(project_dir(&named("../demo")), Err(WriteError::UnsafeName("../demo".to_string())));
    assert_eq!(project_dir(&named("")), Err(WriteError::UnsafeName(String::new())));
}

#[test]
fn a_new_file_may_be_written() {
    assert_eq!(check_overwrite("demo/agent.py", false, false), Ok(()));
    assert_eq!(check_overwrite("demo/agent.py", false, true), Ok(()));
}

#[test]
fn an_existing_file_is_kept_unless_forced() {
    assert_eq!(
        check_overwrite("demo/agent.py", true, false),
        Err(WriteError::AlreadyExists("demo/agent.py".to_string()))
    );
    assert_eq!(check_overwrite("demo/agent.py", true, true), Ok(()));
}

#[test]
fn write_errors_read_as_sentences() {
    assert_eq!(
        WriteError::AlreadyExists("demo/agent.py".to_string()).message(),
        "refusing to overwrite existing file: demo/agent.py (use --force)"
    );
    assert_eq!(
        WriteError::UnsafeName("../demo".to_string()).message(),
        "agent name `../demo` cannot name a directory"
    );
}

#[test]
fn a_second_run_without_force_is_refused_and_changes_nothing() {
    let mut disk = BTreeMap::new();
    let first = project_files("first\n".to_string());
    let second = project_files("second\n".to_string());
    assert_eq!(write_all(&mut disk, "demo", &first, false), Ok(()));
    assert_eq!(disk.len(), 4);
    let after_first = disk.clone();
    assert_eq!(
        write_all(&mut disk, "demo", &second, false),
        Err(WriteError::AlreadyExists("demo/agent.py".to_string()))
    );
    assert_eq!(disk, after_first);
    assert_eq!(disk["demo/agent.py"], "first\n");
}

#[test]
fn a_second_run_with_force_replaces_the_files() {
    let mut disk = BTreeMap::new();
    let first = project_files("first\n".to_string());
    let second = project_files("second\n".to_string());
    assert_eq!(write_all(&mut disk, "demo", &first, false), Ok(()));
    assert_eq!(write_all(&mut disk, "demo", &second, true), Ok(()));
    assert_eq!(disk.len(), 4);
    assert_eq!(disk["demo/agent.py"], "second\n");
    assert_eq!(disk["demo/cli.py"], PY_CLI_TEMPLATE);
    assert_eq!(disk["demo/requirements.txt"], REQUIREMENTS);
    assert_eq!(disk["demo/.env.example"], ENV_EXAMPLE);
}

#[test]
fn a_run_stops_at_the_first_file_that_is_there() {
    let mut disk = BTreeMap::new();
    disk.insert("demo/requirements.txt".to_string(), "kept\n".to_string());
    let files = project_files("agent\n".to_string());
    assert_eq!(
        write_all(&mut disk, "demo", &files, false),
        Err(WriteError::AlreadyExists("demo/requirements.txt".to_string()))
    );
    assert_eq!(disk["demo/requirements.txt"], "kept\n");
    assert_eq!(disk["demo/agent.py"], "agent\n");
    assert_eq!(disk["demo/cli.py"], PY_CLI_TEMPLATE);
    assert!(!disk.contains_key("demo/.env.example"));
}
