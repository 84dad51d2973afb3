use laterem::entities::{Action, Target};
use laterem::parser::{parse, Cli};

fn raw(target: &str, action: Option<&str>, arguments: Vec<&str>) -> Cli {
    Cli {
        config: None,
        target: target.to_string(),
        action: action.map(|a| a.to_string()),
        arguments: arguments.into_iter().map(|a| a.to_string()).collect(),
    }
}

#[test]
fn target_words_map_to_their_domains() {
    assert_eq!(parse(raw("d", None, vec![])).target, Target::Docker);
    assert_eq!(parse(raw("docker", None, vec![])).target, Target::Docker);
    assert_eq!(parse(raw("r", None, vec![])).target, Target::Repository);
    assert_eq!(parse(raw("repository", None, vec![])).target, Target::Repository);
}

#[test]
fn unknown_target_words_fall_back_to_repository() {
    assert_eq!(parse(raw("anything", None, vec![])).target, Target::Repository);
    assert_eq!(parse(raw("", None, vec![])).target, Target::Repository);
}

#[test]
fn action_words_map_to_their_workflows() {
    assert_eq!(parse(raw("r", Some("c"), vec![])).action, Action::Commit);
    assert_eq!(parse(raw("r", Some("commit"), vec![])).action, Action::Commit);
    assert_eq!(parse(raw("r", Some("push"), vec![])).action, Action::Push);
    assert_eq!(parse(raw("r", Some("pull"), vec![])).action, Action::Pull);
    assert_eq!(parse(raw("r", Some("r"), vec![])).action, Action::Reset);
    assert_eq!(parse(raw("r", Some("reset"), vec![])).action, Action::Reset);
    assert_eq!(parse(raw("d", Some("d"), vec![])).action, Action::Down);
    assert_eq!(parse(raw("d", Some("down"), vec![])).action, Action::Down);
    assert_eq!(parse(raw("d", Some("u"), vec![])).action, Action::Up);
    assert_eq!(parse(raw("d", Some("up"), vec![])).action, Action::Up);
}

#[test]
fn missing_or_unknown_action_words_fall_back_to_reset() {
    assert_eq!(parse(raw("r", None, vec![])).action, Action::Reset);
    assert_eq!(parse(raw("r", Some("anything"), vec![])).action, Action::Reset);
}

#[test]
fn parse_keeps_the_arguments_and_leaves_the_defaults_empty() {
    let config = parse(raw("r", Some("c"), vec!["fix", "bug"]));
    assert_eq!(config.arguments, vec!["fix".to_string(), "bug".to_string()]);
    assert!(config.defaults.is_none());
}

#[test]
fn parse_defaults_the_configuration_path() {
    let config = parse(raw("r", None, vec![]));
    assert_eq!(config.path, "$HOME/.config/laterem/config.json");
    let mut cli = raw("r", None, vec![]);
    cli.config = Some("/tmp/other.json".to_string());
    assert_eq!(parse(cli).path, "/tmp/other.json");
}
