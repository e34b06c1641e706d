use rmdb::command::{parse_command, parse_number, split_words, Command};

fn parsed(line: &str) -> Option<Command> {
    parse_command(line).ok()
}

#[test]
fn words_are_parted_by_blanks() {
    assert_eq!(split_words("load  a.rm"), vec!["load", "a.rm"]);
    assert_eq!(split_words("  step\t12  "), vec!["step", "12"]);
    assert_eq!(split_words("x"), vec!["x"]);
    assert_eq!(split_words("a b c d"), vec!["a", "b", "c", "d"]);
    assert_eq!(split_words("h\u{e9}llo w\u{f6}rld"), vec!["h\u{e9}llo", "w\u{f6}rld"]);
}

#[test]
fn a_line_of_blanks_has_no_word() {
    assert!(split_words("").is_empty());
    assert!(split_words(" \t  ").is_empty());
}

#[test]
fn numbers_are_read_in_base_ten() {
    assert_eq!(parse_number("0"), Some(0));
    assert_eq!(parse_number("50"), Some(50));
    assert_eq!(parse_number("007"), Some(7));
    assert_eq!(parse_number("4294967295"), Some(4294967295));
    assert_eq!(parse_number(&usize::MAX.to_string()), Some(usize::MAX));
}

#[test]
fn what_is_no_count_is_no_number() {
    assert_eq!(parse_number(""), None);
    assert_eq!(parse_number("-1"), None);
    assert_eq!(parse_number("+1"), None);
    assert_eq!(parse_number("1a"), None);
    assert_eq!(parse_number("a1"), None);
    assert_eq!(parse_number("1.5"), None);
    assert_eq!(parse_number("\u{663}"), None);
    assert_eq!(parse_number("340282366920938463463374607431768211456"), None);
    let beyond = format!("{}0", usize::MAX);
    assert_eq!(parse_number(&beyond), None);
    let next = format!("{}", usize::MAX as u128 + 1);
    assert_eq!(parse_number(&next), None);
}

#[test]
fn an_empty_line_repeats() {
    assert_eq!(parsed(""), Some(Command::Repeat));
    assert_eq!(parsed("   "), Some(Command::Repeat));
}

#[test]
fn exit_has_four_names() {
    for line in ["exit", "quit", "e", "q", " q "] {
        assert_eq!(parsed(line), Some(Command::Exit));
    }
}

#[test]
fn interpreter_commands_are_told_apart_by_their_arguments() {
    assert_eq!(parsed("interpreter"), Some(Command::InfosInterpreter));
    assert_eq!(parsed("inter"), Some(Command::InfosInterpreter));
    for line in ["interpreter 50 8", "set_interpreter 50 8", "setint  50\t8"] {
        assert_eq!(
            parsed(line),
            Some(Command::SetInterpreter { arch_length: 50, arch_width: 8 })
        );
    }
    assert_eq!(parsed("interpreter 50"), None);
    assert_eq!(parsed("interpreter 50 x"), None);
    assert_eq!(parsed("interpreter x 8"), None);
    assert_eq!(parsed("inter 50 8"), None);
    for line in ["unset_interpreter", "unsetinter", "unsetint"] {
        assert_eq!(parsed(line), Some(Command::UnsetInterpreter));
    }
}

#[test]
fn infos_and_reset_take_no_argument() {
    for line in ["infos", "info", "i"] {
        assert_eq!(parsed(line), Some(Command::Infos));
    }
    for line in ["reset", "r"] {
        assert_eq!(parsed(line), Some(Command::Reset));
    }
    assert_eq!(parsed("infos now"), None);
    assert_eq!(parsed("reset 1"), None);
}

#[test]
fn load_names_a_file_and_drops_newlines() {
    assert_eq!(parsed("load misc/hello.rm"), Some(Command::Copy(String::from("misc/hello.rm"), true)));
    assert_eq!(parsed("copy a"), Some(Command::Copy(String::from("a"), true)));
    assert_eq!(parsed("load"), None);
    assert_eq!(parsed("load a b"), None);
}

#[test]
fn step_counts_one_by_default() {
    for line in ["step", "next", "s", "n"] {
        assert_eq!(parsed(line), Some(Command::Step(1)));
    }
    assert_eq!(parsed("step 0"), Some(Command::Step(0)));
    assert_eq!(parsed("n 100"), Some(Command::Step(100)));
    assert_eq!(parsed("step many"), None);
    assert_eq!(parsed("step 1 2"), None);
}

#[test]
fn other_lines_are_turned_down_with_a_message() {
    for line in ["help", "Exit", "steps", "a b c d", "exit now", "echo"] {
        assert_eq!(parse_command(line), Err(String::from("Unable to parse command")));
    }
}
