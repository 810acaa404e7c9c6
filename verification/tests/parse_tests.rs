use pass_and_shoot::game_play::Action;

fn parse(s: &str) -> Action {
    Action::parse(&s.to_string())
}

#[test]
fn command_with_argument_splits_in_two() {
    let a = parse("pass B_MF");
    assert_eq!(a.command, "pass");
    assert_eq!(a.argument, Some("B_MF".to_string()));

    let a = parse("shoot R");
    assert_eq!(a.command, "shoot");
    assert_eq!(a.argument, Some("R".to_string()));
}

#[test]
fn trailing_newline_is_stripped() {
    let a = parse("quit\n");
    assert_eq!(a.command, "quit");
    assert_eq!(a.argument, None);

    let a = parse("pass B_MF\n");
    assert_eq!(a.command, "pass");
    assert_eq!(a.argument, Some("B_MF".to_string()));

    let a = parse("shoot B\r\n");
    assert_eq!(a.command, "shoot");
    assert_eq!(a.argument, Some("B".to_string()));
}

#[test]
fn bare_command_has_no_argument() {
    let a = parse("help");
    assert_eq!(a.command, "help");
    assert_eq!(a.argument, None);
}

#[test]
fn more_than_two_parts_drop_the_argument() {
    let a = parse("pass B_MF now");
    assert_eq!(a.command, "pass");
    assert_eq!(a.argument, None);

    // a doubled space splits into three parts as well
    let a = parse("pass  B_MF");
    assert_eq!(a.command, "pass");
    assert_eq!(a.argument, None);
}

#[test]
fn empty_and_blank_lines_parse_to_empty_commands() {
    let a = parse("");
    assert_eq!(a.command, "");
    assert_eq!(a.argument, None);

    let a = parse("\n");
    assert_eq!(a.command, "");
    assert_eq!(a.argument, None);

    let a = parse(" ");
    assert_eq!(a.command, "");
    assert_eq!(a.argument, Some("".to_string()));
}

#[test]
fn leading_space_empties_the_command() {
    let a = parse(" pass B_MF");
    assert_eq!(a.command, "");
    assert_eq!(a.argument, None);

    let a = parse(" quit");
    assert_eq!(a.command, "");
    assert_eq!(a.argument, Some("quit".to_string()));
}
