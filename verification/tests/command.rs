use accord::command::{assemble_command, command_words, BadPattern, Commands};

fn words(list: &[&str]) -> Vec<String> {
    list.iter().map(|w| w.to_string()).collect()
}

fn commands(matcher: Option<&str>, parser: Option<&str>) -> Commands {
    let matcher = matcher.map(|s| s.to_string());
    let parser = parser.map(|s| s.to_string());
    assert_eq!(Commands::bad_pattern(&matcher, &parser), None);
    Commands::new(matcher, parser)
}

#[test]
fn tilde_command_is_taken_apart() {
    let pattern = r"(?:^~|\s+)(\w+)";
    let c = commands(Some(pattern), Some(pattern));
    assert_eq!(
        c.parse_command("~command sub command"),
        Some(words(&["command", "sub", "command"]))
    );
}

#[test]
fn message_that_does_not_match_is_no_command() {
    let c = commands(Some("^!"), Some(r"(\w+)"));
    assert_eq!(c.parse_command("roll d20"), None);
    assert_eq!(c.parse_command(""), None);
    assert_eq!(c.parse_command("!roll d20"), Some(words(&["roll", "d20"])));
}

#[test]
fn command_without_a_parse_pattern_has_no_words() {
    let c = commands(Some("^!"), None);
    assert_eq!(c.parse_command("!roll d20"), Some(vec![]));
    assert_eq!(c.parse_command("roll d20"), None);
}

#[test]
fn parse_pattern_alone_makes_no_commands() {
    let c = commands(None, Some(r"(\w+)"));
    assert_eq!(c.parse_command("!roll d20"), None);
    let c = commands(None, None);
    assert_eq!(c.parse_command("!roll d20"), None);
}

#[test]
fn groups_that_took_no_part_are_left_out() {
    let c = commands(Some("^!"), Some(r"!(\w+)|=(\d+)"));
    assert_eq!(c.parse_command("!a=1!b"), Some(words(&["a", "1", "b"])));
    let c = commands(Some("^!"), Some(r"(x)?(y)"));
    assert_eq!(c.parse_command("!xyy"), Some(words(&["x", "y", "y"])));
}

#[test]
fn parse_pattern_without_groups_gives_no_words() {
    let c = commands(Some("^!"), Some(r"\w+"));
    assert_eq!(c.parse_command("!roll d20"), Some(vec![]));
}

#[test]
fn bad_patterns_are_found() {
    let good = Some("a+".to_string());
    let bad = Some("(".to_string());
    assert_eq!(Commands::bad_pattern(&good, &good), None);
    assert_eq!(Commands::bad_pattern(&None, &None), None);
    assert_eq!(Commands::bad_pattern(&bad, &good), Some(BadPattern::CommandMatch));
    assert_eq!(Commands::bad_pattern(&bad, &bad), Some(BadPattern::CommandMatch));
    assert_eq!(Commands::bad_pattern(&good, &bad), Some(BadPattern::CommandParse));
    assert_eq!(Commands::bad_pattern(&None, &bad), Some(BadPattern::CommandParse));
}

#[test]
fn words_are_those_of_the_groups_after_the_first() {
    let matches = vec![
        vec![Some("whole".to_string()), Some("a".to_string()), None],
        vec![],
        vec![None],
        vec![None, None, Some("".to_string()), Some("b".to_string())],
    ];
    assert_eq!(command_words(&matches), words(&["a", "", "b"]));
    assert_eq!(assemble_command(true, Some(matches)), Some(words(&["a", "", "b"])));
    assert_eq!(assemble_command(true, None), Some(vec![]));
    assert_eq!(assemble_command(false, Some(vec![])), None);
    assert_eq!(assemble_command(false, None), None);
}
