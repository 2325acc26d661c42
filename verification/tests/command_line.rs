use du::command_line::CommandLine;

#[test]
fn test_get_executable_path() {
    let command_line = CommandLine {
        args: vec![String::from("target/debug/du"), String::from("1 mb")],
    };

    assert_eq!(
        command_line.get_executable_path(),
        String::from("target/debug/du")
    );
}

#[test]
fn test_get_size_and_unit() {
    let command_line = CommandLine {
        args: vec![String::from("target/debug/du"), String::from("16 mb")],
    };

    assert_eq!(
        command_line.get_size_and_unit(),
        Some(String::from("16 mb"))
    );
}

#[test]
fn test_get_size_and_unit_no_args() {
    let command_line = CommandLine {
        args: vec![String::from("target/debug/du")],
    };

    assert_eq!(command_line.get_size_and_unit(), None);
}

#[test]
fn test_get_size_and_unit_empty_args() {
    let command_line = CommandLine { args: vec![] };

    assert_eq!(command_line.get_size_and_unit(), None);
}

#[test]
fn test_get_arg_copies_the_token() {
    let command_line = CommandLine {
        args: vec![String::from("du"), String::from("2 gb")],
    };

    assert_eq!(command_line.get_arg(0), String::from("du"));
    assert_eq!(command_line.get_arg(1), String::from("2 gb"));
}
