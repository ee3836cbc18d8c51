//! The dispatcher driven as a front end drives it, against a system that
//! lives in memory: flat files by name, directories by name, one working
//! directory, a few environment variables.

use rustterm::dispatch::execute_command;
use rustterm::handlers::{cat, cd, ls, pwd, rm, touch, whoami, write_done, AppendFault};
use rustterm::reply::CommandResult;
use rustterm::step::Step;
use std::collections::BTreeMap;

const MISSING: &str = "No such file or directory (os error 2)";
const DENIED: &str = "Permission denied (os error 13)";

struct System {
    cwd: String,
    dirs: Vec<String>,
    files: BTreeMap<String, String>,
    read_only: Vec<String>,
    variables: BTreeMap<String, String>,
    asked: Vec<String>,
}

impl System {
    fn new() -> System {
        System {
            cwd: "/home/ada".to_string(),
            dirs: vec!["/".to_string(), "/home".to_string(), "/home/ada".to_string()],
            files: BTreeMap::new(),
            read_only: Vec::new(),
            variables: BTreeMap::new(),
            asked: Vec::new(),
        }
    }

    fn resolve(&self, path: &str) -> String {
        if path.starts_with('/') {
            path.to_string()
        } else {
            format!("{}/{}", self.cwd, path)
        }
    }

    fn complete(&mut self, first: Step) -> CommandResult {
        let mut step = first;
        loop {
            step = match step {
                Step::Done(result) => return result,
                Step::CurrentDir => Step::Done(pwd(Ok(self.cwd.clone()))),
                Step::ListDir => {
                    let lead = format!("{}/", self.cwd);
                    let names = self
                        .files
                        .keys()
                        .filter_map(|k| k.strip_prefix(lead.as_str()))
                        .filter(|rest| !rest.contains('/'))
                        .map(|rest| Some(rest.to_string()))
                        .collect();
                    Step::Done(ls(Ok(names)))
                }
                Step::Variable(name) => {
                    self.asked.push(name.clone());
                    let value = self.variables.get(&name).cloned();
                    whoami(&name, value)
                }
                Step::ReadFile(path) => {
                    let read = self.files.get(&self.resolve(&path)).cloned();
                    Step::Done(cat(read.ok_or(MISSING.to_string())))
                }
                Step::CreateFile(path) => {
                    let full = self.resolve(&path);
                    self.files.insert(full, String::new());
                    Step::Done(touch(&path, Ok(())))
                }
                Step::RemoveFile(path) => {
                    let removed = self.files.remove(&self.resolve(&path));
                    Step::Done(rm(&path, removed.map(|_| ()).ok_or(MISSING.to_string())))
                }
                Step::ChangeDir(path) => {
                    let full = self.resolve(&path);
                    if self.dirs.contains(&full) {
                        self.cwd = full;
                        Step::Done(cd(&path, Ok(())))
                    } else {
                        Step::Done(cd(&path, Err(MISSING.to_string())))
                    }
                }
                Step::AppendLine { filename, line } => {
                    let full = self.resolve(&filename);
                    if self.read_only.contains(&full) {
                        Step::Done(write_done(&filename, Err(AppendFault::Open(DENIED.to_string()))))
                    } else {
                        self.files.entry(full).or_default().push_str(&line);
                        Step::Done(write_done(&filename, Ok(())))
                    }
                }
            };
        }
    }

    fn dispatch(&mut self, line: &str) -> String {
        let first = execute_command(line);
        self.complete(first).into_text()
    }
}

#[test]
fn touch_then_cat_gives_the_empty_text() {
    let mut system = System::new();
    assert_eq!(system.dispatch("touch f"), "Created file: f");
    assert_eq!(system.dispatch("cat f"), "");
}

#[test]
fn touch_truncates_an_existing_file() {
    let mut system = System::new();
    assert_eq!(system.dispatch("write f some text"), "Text written to f");
    assert_eq!(system.dispatch("touch f"), "Created file: f");
    assert_eq!(system.dispatch("cat f"), "");
}

#[test]
fn write_twice_appends_two_lines() {
    let mut system = System::new();
    assert_eq!(system.dispatch("write f hello"), "Text written to f");
    assert_eq!(system.dispatch("write f hello"), "Text written to f");
    assert_eq!(system.dispatch("cat f"), "hello\nhello\n");
}

#[test]
fn write_keeps_the_spaces_of_its_content() {
    let mut system = System::new();
    system.dispatch("write f one  two ");
    assert_eq!(system.dispatch("cat f"), "one  two \n");
}

#[test]
fn write_that_cannot_open_reports_the_cause() {
    let mut system = System::new();
    system.read_only.push("/home/ada/f".to_string());
    assert_eq!(
        system.dispatch("write f hello"),
        "Error opening file: Permission denied (os error 13)"
    );
    assert_eq!(system.dispatch("cat f"), "Error reading file: No such file or directory (os error 2)");
}

#[test]
fn rm_of_a_missing_file_reports_the_cause() {
    let mut system = System::new();
    assert_eq!(
        system.dispatch("rm f"),
        "Error deleting file: No such file or directory (os error 2)"
    );
}

#[test]
fn rm_deletes_a_file() {
    let mut system = System::new();
    system.dispatch("touch f");
    assert_eq!(system.dispatch("rm f"), "Deleted file: f");
    assert_eq!(system.dispatch("cat f"), "Error reading file: No such file or directory (os error 2)");
}

#[test]
fn cd_to_a_missing_directory_changes_nothing() {
    let mut system = System::new();
    let before = system.dispatch("pwd");
    assert_eq!(before, "/home/ada");
    assert_eq!(
        system.dispatch("cd nonexistent-dir"),
        "Error changing directory: No such file or directory (os error 2)"
    );
    assert_eq!(system.dispatch("pwd"), before);
}

#[test]
fn cd_changes_the_directory_that_pwd_and_ls_see() {
    let mut system = System::new();
    system.dispatch("touch here");
    assert_eq!(system.dispatch("ls"), "here");
    assert_eq!(system.dispatch("cd /home"), "Changed directory to /home");
    assert_eq!(system.dispatch("pwd"), "/home");
    assert_eq!(system.dispatch("ls"), "");
    system.dispatch("touch b");
    system.dispatch("touch a");
    assert_eq!(system.dispatch("ls"), "a\nb");
    assert_eq!(system.dispatch("cat ada/here"), "");
}

#[test]
fn whoami_takes_the_first_variable_that_is_set() {
    let mut system = System::new();
    system.variables.insert("USER".to_string(), "ada".to_string());
    system.variables.insert("USERNAME".to_string(), "lovelace".to_string());
    assert_eq!(system.dispatch("whoami"), "Current user: ada");
    assert_eq!(system.asked, vec!["USER".to_string()]);
}

#[test]
fn whoami_falls_back_to_the_second_variable() {
    let mut system = System::new();
    system.variables.insert("USERNAME".to_string(), "lovelace".to_string());
    assert_eq!(system.dispatch("whoami"), "Current user: lovelace");
    assert_eq!(system.asked, vec!["USER".to_string(), "USERNAME".to_string()]);
}

#[test]
fn whoami_gives_up_after_the_last_variable() {
    let mut system = System::new();
    assert_eq!(system.dispatch("whoami"), "Could not retrieve username");
    assert_eq!(system.asked, vec!["USER".to_string(), "USERNAME".to_string()]);
}

#[test]
fn every_command_ends_in_one_text() {
    let mut system = System::new();
    let lines = [
        "hello", "date", "time", "clear", "pwd", "ls", "whoami", "help", "echo x", "cat x",
        "touch x", "rm x", "cd x", "write x y", "write x", "write", "nonsense", "",
    ];
    for line in lines {
        let first = execute_command(line);
        let result = system.complete(first);
        assert_eq!(result.text(), result.text().to_string());
    }
}

#[test]
fn valid_commands_do_not_fail() {
    let mut system = System::new();
    system.variables.insert("USER".to_string(), "ada".to_string());
    let lines = [
        "hello", "date", "time", "clear", "pwd", "ls", "whoami", "help", "echo x", "touch x",
        "cat x", "write x y", "rm x", "cd /home",
    ];
    for line in lines {
        let first = execute_command(line);
        let result = system.complete(first);
        assert!(!result.is_failure(), "{} failed: {}", line, result.text());
    }
}
