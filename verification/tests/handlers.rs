use rustterm::handlers::{
    cat, cd, clear, date, echo, hello, help, ls, pwd, rm, time, touch, unknown, whoami,
    write_done, AppendFault,
};
use rustterm::reply::CommandResult;
use rustterm::step::Step;

fn output(text: &str) -> CommandResult {
    CommandResult::Output(text.to_string())
}

fn failure(text: &str) -> CommandResult {
    CommandResult::Failure(text.to_string())
}

const USAGE: &str = "Usage: write <filename> \"<text>\"";

#[test]
fn fixed_texts() {
    assert_eq!(hello(), output("Hello, user!"));
    assert_eq!(clear(), output("\u{1b}[2J\u{1b}[1;1H"));
    assert_eq!(date("2025-01-31"), output("Today's date is 2025-01-31"));
    assert_eq!(time("07:08:09"), output("The current time is 07:08:09"));
    assert_eq!(unknown("xyzzy"), output("Unknown command: xyzzy"));
}

#[test]
fn help_lists_every_command_on_a_line() {
    let expected = "Available commands:\n\
\x20 hello      - Greets the user.\n\
\x20 date       - Shows the current date.\n\
\x20 time       - Shows the current time.\n\
\x20 clear      - Clears the screen.\n\
\x20 pwd        - Prints the current working directory.\n\
\x20 ls         - Lists files in the current directory.\n\
\x20 whoami     - Displays the current username.\n\
\x20 echo [msg] - Displays the message entered.\n\
\x20 cat [file] - Displays the contents of a file.\n\
\x20 touch [file] - Creates an empty file.\n\
\x20 rm [file]  - Deletes the specified file.\n\
\x20 write [file]  - Write in the specified file if it exists, if not create a new file.\n\
\x20 cd [dir]   - Changes the current directory.\n\
\x20 exit       - Exits the terminal.";
    assert_eq!(help(), output(expected));
    assert_eq!(help().text().lines().count(), 15);
}

#[test]
fn echo_is_the_identity() {
    assert_eq!(echo(""), output(""));
    assert_eq!(echo("  a  b  "), output("  a  b  "));
    assert_eq!(echo("Error reading file: x"), output("Error reading file: x"));
}

#[test]
fn pwd_shows_the_path_or_the_cause() {
    assert_eq!(pwd(Ok("/var/tmp".to_string())), output("/var/tmp"));
    assert_eq!(
        pwd(Err("No such file or directory (os error 2)".to_string())),
        failure("Error retrieving current directory: No such file or directory (os error 2)")
    );
}

#[test]
fn ls_joins_the_names_in_the_given_order() {
    let entries = vec![Some("b".to_string()), Some("a".to_string()), Some("c d".to_string())];
    assert_eq!(ls(Ok(entries)), output("b\na\nc d"));
}

#[test]
fn ls_skips_entries_that_could_not_be_read() {
    let entries = vec![None, Some("a".to_string()), None, None, Some("b".to_string()), None];
    assert_eq!(ls(Ok(entries)), output("a\nb"));
    assert_eq!(ls(Ok(vec![None, None])), output(""));
}

#[test]
fn ls_of_an_empty_directory_is_empty() {
    assert_eq!(ls(Ok(Vec::new())), output(""));
    assert_eq!(ls(Ok(vec![Some("only".to_string())])), output("only"));
    assert_eq!(ls(Ok(vec![Some(String::new()), Some("x".to_string())])), output("\nx"));
}

#[test]
fn ls_reports_the_cause() {
    assert_eq!(
        ls(Err("Permission denied (os error 13)".to_string())),
        failure("Error listing files: Permission denied (os error 13)")
    );
}

#[test]
fn whoami_steps_through_the_variables() {
    assert_eq!(
        whoami("USER", Some("ada".to_string())),
        Step::Done(output("Current user: ada"))
    );
    assert_eq!(whoami("USER", None), Step::Variable("USERNAME".to_string()));
    assert_eq!(
        whoami("USERNAME", Some("ada".to_string())),
        Step::Done(output("Current user: ada"))
    );
    assert_eq!(whoami("USERNAME", None), Step::Done(failure("Could not retrieve username")));
    assert_eq!(whoami("LOGNAME", None), Step::Done(failure("Could not retrieve username")));
}

#[test]
fn cat_shows_the_contents_or_the_cause() {
    assert_eq!(cat(Ok("one\ntwo\n".to_string())), output("one\ntwo\n"));
    assert_eq!(cat(Ok(String::new())), output(""));
    assert_eq!(
        cat(Err("stream did not contain valid UTF-8".to_string())),
        failure("Error reading file: stream did not contain valid UTF-8")
    );
}

#[test]
fn touch_rm_and_cd_confirm_or_report() {
    assert_eq!(touch("a.txt", Ok(())), output("Created file: a.txt"));
    assert_eq!(touch("a.txt", Err("denied".to_string())), failure("Error creating file: denied"));
    assert_eq!(rm("a.txt", Ok(())), output("Deleted file: a.txt"));
    assert_eq!(rm("a.txt", Err("missing".to_string())), failure("Error deleting file: missing"));
    assert_eq!(cd("/tmp", Ok(())), output("Changed directory to /tmp"));
    assert_eq!(
        cd("/nowhere", Err("missing".to_string())),
        failure("Error changing directory: missing")
    );
}

#[test]
fn write_splits_at_the_first_space() {
    assert_eq!(
        rustterm::handlers::write("f hello"),
        Step::AppendLine { filename: "f".to_string(), line: "hello\n".to_string() }
    );
    assert_eq!(
        rustterm::handlers::write("notes.txt hello  big world "),
        Step::AppendLine {
            filename: "notes.txt".to_string(),
            line: "hello  big world \n".to_string()
        }
    );
    assert_eq!(
        rustterm::handlers::write("f  x"),
        Step::AppendLine { filename: "f".to_string(), line: " x\n".to_string() }
    );
    assert_eq!(
        rustterm::handlers::write("f\tx y"),
        Step::AppendLine { filename: "f\tx".to_string(), line: "y\n".to_string() }
    );
    assert_eq!(
        rustterm::handlers::write("é ü"),
        Step::AppendLine { filename: "é".to_string(), line: "ü\n".to_string() }
    );
}

#[test]
fn write_without_a_name_or_a_content_shows_the_usage() {
    assert_eq!(rustterm::handlers::write(""), Step::Done(failure(USAGE)));
    assert_eq!(rustterm::handlers::write("f"), Step::Done(failure(USAGE)));
    assert_eq!(rustterm::handlers::write("f "), Step::Done(failure(USAGE)));
    assert_eq!(rustterm::handlers::write(" hello"), Step::Done(failure(USAGE)));
    assert_eq!(rustterm::handlers::write(" "), Step::Done(failure(USAGE)));
}

#[test]
fn write_done_confirms_or_reports() {
    assert_eq!(write_done("f", Ok(())), output("Text written to f"));
    assert_eq!(
        write_done("f", Err(AppendFault::Open("denied".to_string()))),
        failure("Error opening file: denied")
    );
    assert_eq!(
        write_done("f", Err(AppendFault::Write("disk full".to_string()))),
        failure("Error writing to file: disk full")
    );
}

#[test]
fn result_text_and_tag() {
    let ok = output("fine");
    let bad = failure("broken");
    assert_eq!(ok.text(), "fine");
    assert_eq!(bad.text(), "broken");
    assert!(!ok.is_failure());
    assert!(bad.is_failure());
    assert_eq!(ok.into_text(), "fine");
    assert_eq!(bad.into_text(), "broken");
}
