use lean::cli::{check_num_of, dir_from_free, parse, to_limit, InitWorkspace, ListTasks, Request, ShowHelp, ShowTasks, ShowUsage};

/// Converts an array of &str elems to a vector of String elems.
fn to_args(args: &[&str]) -> Vec<String> {
    let mut args_vector: Vec<String> = Vec::new();
    for arg in args {
        args_vector.push(String::from(*arg));
    }
    args_vector
}

fn check_parse_error<T>(result: &Result<T, String>, expected: &str) -> Result<(), String> {
    match result {
        Err(reason) => {
            assert_eq!(expected, reason);
            Ok(())
        }
        _ => Err(format!("ignored error: {}", expected)),
    }
}

#[test]
fn create_list_tasks_command() -> Result<(), String> {
    let args = to_args(&[]);

    let command = ListTasks::new(&args)?;
    assert_eq!(".", command.dir);
    assert_eq!(0, command.limit);

    let args = to_args(&["0"]);

    let command = ListTasks::new(&args)?;
    assert_eq!(".", command.dir);
    assert_eq!(0, command.limit);

    Ok(())
}

#[test]
fn create_list_tasks_command_with_limit() -> Result<(), String> {
    let args = to_args(&["10"]);

    let command = ListTasks::new(&args)?;
    assert_eq!(".", command.dir);
    assert_eq!(10, command.limit);

    Ok(())
}

#[test]
fn create_list_tasks_command_with_dir() -> Result<(), String> {
    let args = to_args(&["-d", "/tmp"]);

    let command = ListTasks::new(&args)?;
    assert_eq!("/tmp", command.dir);
    assert_eq!(0, command.limit);

    Ok(())
}

#[test]
fn create_list_tasks_command_with_too_many_args() -> Result<(), String> {
    let args = to_args(&["10", "20"]);
    check_parse_error(&ListTasks::new(&args), "too many arguments")
}

#[test]
fn list_tasks_with_long_dir_option_and_limit() {
    let command = ListTasks::new(&to_args(&["--dir", "/var", "7"])).unwrap();
    assert_eq!("/var", command.dir);
    assert_eq!(7, command.limit);
}

#[test]
fn list_tasks_rejects_a_bad_limit() {
    assert!(ListTasks::new(&to_args(&["ten"])).is_err());
    assert!(ListTasks::new(&to_args(&["4294967296"])).is_err());
    assert_eq!(4294967295, ListTasks::new(&to_args(&["4294967295"])).unwrap().limit);
}

#[test]
fn list_tasks_rejects_an_unknown_option() {
    assert!(ListTasks::new(&to_args(&["-x"])).is_err());
    assert!(ListTasks::new(&to_args(&["-d"])).is_err());
}

#[test]
fn check_num_of_counts() {
    let two = to_args(&["a", "b"]);
    assert_eq!(Ok(()), check_num_of(&two, 0, -1));
    assert_eq!(Ok(()), check_num_of(&two, 2, 2));
    assert_eq!(Err(String::from("too few arguments")), check_num_of(&two, 3, 4));
    assert_eq!(Err(String::from("too many arguments")), check_num_of(&two, 0, 1));
}

#[test]
fn to_limit_reads_numbers() {
    assert_eq!(Ok(0), to_limit(None, 10));
    assert_eq!(Ok(42), to_limit(Some(String::from("42")), 10));
    assert_eq!(Ok(42), to_limit(Some(String::from("+42")), 10));
    assert_eq!(Ok(255), to_limit(Some(String::from("ff")), 16));
    assert!(to_limit(Some(String::from("")), 10).is_err());
    assert!(to_limit(Some(String::from("-1")), 10).is_err());
    assert!(to_limit(Some(String::from("1 ")), 10).is_err());
}

#[test]
fn show_usage_names_the_program() {
    let usage = ShowUsage::new(&String::from("/usr/local/bin/lean")).unwrap();
    assert_eq!("lean", usage.program);
    assert_eq!("usage: lean COMMAND [ARGS...]", usage.usage_line());
    assert!(ShowUsage::new(&String::from("/")).is_err());
    assert!(ShowUsage::new(&String::from("bin/..")).is_err());
}

#[test]
fn show_help_takes_no_arguments() {
    let help = ShowHelp::new(&String::from("./lean"), &[]).unwrap();
    assert_eq!("lean", help.program);
    assert_eq!("Help for lean is coming soon ...", help.help_line());
    assert!(ShowHelp::new(&String::from("lean"), &to_args(&["x"])).is_err());
}

#[test]
fn init_takes_one_optional_dir() {
    assert_eq!(".", InitWorkspace::new(&[]).unwrap().dir);
    assert_eq!("some/dir", InitWorkspace::new(&to_args(&["some/dir"])).unwrap().dir);
    check_parse_error(&InitWorkspace::new(&to_args(&["a", "b"])), "too many arguments").unwrap();
}

#[test]
fn show_tasks_needs_an_id() {
    check_parse_error(&ShowTasks::new(&[]), "missing task id(s)").unwrap();
    let command = ShowTasks::new(&to_args(&["-d", "/tmp", "a", "b"])).unwrap();
    assert_eq!("/tmp", command.dir);
    assert_eq!(to_args(&["a", "b"]), command.ids);
}

#[test]
fn parse_dispatches_commands() {
    assert!(matches!(parse(&to_args(&["lean"])), Ok(Request::Usage(_))));
    assert!(matches!(parse(&to_args(&["lean", "help"])), Ok(Request::Help(_))));
    match parse(&to_args(&["lean", "init", "here"])) {
        Ok(Request::Init(c)) => assert_eq!("here", c.dir),
        other => panic!("unexpected {:?}", other),
    }
    match parse(&to_args(&["lean", "tasks", "add", "sub"])) {
        Ok(Request::AddTask(rest)) => assert_eq!(to_args(&["sub"]), rest),
        other => panic!("unexpected {:?}", other),
    }
    match parse(&to_args(&["lean", "tasks", "list", "3"])) {
        Ok(Request::ListTasks(c)) => assert_eq!(3, c.limit),
        other => panic!("unexpected {:?}", other),
    }
    assert!(matches!(parse(&to_args(&["lean", "tasks", "show", "x"])), Ok(Request::ShowTasks(_))));
    check_parse_error(&parse(&to_args(&["lean", "tasks"])), "missing command").unwrap();
    check_parse_error(&parse(&to_args(&["lean", "tasks", "drop"])), "unknown sub command drop").unwrap();
    check_parse_error(&parse(&to_args(&["lean", "people"])), "missing command").unwrap();
    check_parse_error(&parse(&to_args(&["lean", "people", "add"])), "unknown sub command add").unwrap();
    check_parse_error(&parse(&to_args(&["lean", "fly"])), "unknown command fly").unwrap();
}

#[test]
fn commands_from_parsed_options() {
    let c = ListTasks::from_options(Some(String::from("/srv")), to_args(&["5"])).unwrap();
    assert_eq!("/srv", c.dir);
    assert_eq!(5, c.limit);
    let c = ListTasks::from_options(None, to_args(&[])).unwrap();
    assert_eq!(".", c.dir);
    assert_eq!(0, c.limit);
    check_parse_error(&ListTasks::from_options(None, to_args(&["1", "2"])), "too many arguments").unwrap();
    let c = ShowTasks::from_options(None, to_args(&["x"])).unwrap();
    assert_eq!(".", c.dir);
    check_parse_error(&ShowTasks::from_options(None, to_args(&[])), "missing task id(s)").unwrap();
    assert_eq!(Ok(String::from(".")), dir_from_free(&to_args(&[])));
    assert_eq!(Ok(String::from("d")), dir_from_free(&to_args(&["d"])));
    assert_eq!(Err(String::from("too many arguments")), dir_from_free(&to_args(&["d", "e"])));
}

#[test]
fn create_add_task_command() -> Result<(), String> {
    let workspace = lean::workspace::Workspace { base_dir: lean::path::FsPath::parse("/tmp/ws") };

    let command = lean::cli::AddTask::new(&[], workspace)?;
    assert_eq!("/tmp/ws", command.workspace.base_dir.to_text());
    assert_eq!(".", command.dir);

    Ok(())
}
