use laterem::dispatch::join_with_spaces;
use laterem::entities::{Action, Config, DefaultConfig, LateremError, Step, Target};
use laterem::resolver::{current_branch_from, extract_head_branch, strip_newlines};

fn request(target: Target, action: Action, arguments: Vec<&str>) -> Config {
    Config {
        path: String::new(),
        target,
        action,
        defaults: None,
        arguments: arguments.into_iter().map(|a| a.to_string()).collect(),
    }
}

fn repository_request(
    action: Action,
    default_branch: &str,
    arguments: Vec<&str>,
) -> Config {
    let mut config = request(Target::Repository, action, arguments);
    config.defaults = Some(Box::new(DefaultConfig::from_branch(default_branch.to_string())));
    config
}

fn step_words(step: &Step) -> Vec<String> {
    let mut words = vec![step.program.clone()];
    words.extend(step.args.iter().cloned());
    words
}

fn assert_step(step: &Step, expected: &[&str]) {
    let words = step_words(step);
    let expected: Vec<String> = expected.iter().map(|w| w.to_string()).collect();
    assert_eq!(words, expected);
}

const LISTING: &[u8] = b"* remote origin\n  Fetch URL: git@example.com:team/tool.git\n  HEAD branch: main\n  Remote branches:\n    main tracked\n";

#[test]
fn invalid_pairs_are_rejected_before_any_step() {
    let current = String::from("feature");
    for action in [Action::Commit, Action::Push, Action::Pull] {
        let config = request(Target::Docker, action, vec!["x"]);
        let planned = Action::plan(&config, &current);
        assert!(matches!(planned, Err(LateremError::InvalidArgument)));
    }
    for action in [Action::Down, Action::Up] {
        let config = repository_request(action, "main", vec![]);
        let planned = Action::plan(&config, &current);
        assert!(matches!(planned, Err(LateremError::InvalidArgument)));
    }
}

#[test]
fn invalid_pair_is_rejected_by_a_whole_dispatch() {
    let config = request(Target::Docker, Action::Push, vec![]);
    let outcome = config.dispatch(Ok(LISTING.to_vec()), Ok(b"feature\n".to_vec()));
    assert!(matches!(outcome, Err(LateremError::InvalidArgument)));
}

#[test]
fn commit_without_arguments_is_rejected() {
    let current = String::from("feature");
    let config = repository_request(Action::Commit, "main", vec![]);
    let planned = Action::plan(&config, &current);
    assert!(matches!(planned, Err(LateremError::InvalidArgument)));
}

#[test]
fn commit_without_arguments_is_rejected_by_a_whole_dispatch() {
    let config = request(Target::Repository, Action::Commit, vec![]);
    let outcome = config.dispatch(Ok(LISTING.to_vec()), Ok(b"feature\n".to_vec()));
    assert!(matches!(outcome, Err(LateremError::InvalidArgument)));
}

#[test]
fn commit_joins_the_arguments_into_one_message() {
    let current = String::from("feature");
    let config = repository_request(Action::Commit, "main", vec!["fix", "bug"]);
    let planned = Action::plan(&config, &current).unwrap();
    assert_eq!(planned.len(), 1);
    assert_step(&planned[0], &["git", "commit", "-m", "fix bug"]);
}

#[test]
fn join_with_spaces_puts_one_space_between_neighbours() {
    let parts: Vec<String> = vec![];
    assert_eq!(join_with_spaces(&parts), "");
    let parts = vec!["fix".to_string()];
    assert_eq!(join_with_spaces(&parts), "fix");
    let parts = vec!["fix".to_string(), "the".to_string(), "bug".to_string()];
    assert_eq!(join_with_spaces(&parts), "fix the bug");
}

#[test]
fn docker_reset_stops_then_starts_detached() {
    let current = String::new();
    let config = request(Target::Docker, Action::Reset, vec![]);
    let planned = Action::plan(&config, &current).unwrap();
    assert_eq!(planned.len(), 2);
    assert_step(&planned[0], &["docker", "compose", "down"]);
    assert_step(&planned[1], &["docker", "compose", "up", "-d"]);
}

#[test]
fn docker_down_and_up_are_single_steps() {
    let current = String::new();
    let config = request(Target::Docker, Action::Down, vec![]);
    let planned = Action::plan(&config, &current).unwrap();
    assert_eq!(planned.len(), 1);
    assert_step(&planned[0], &["docker", "compose", "down"]);

    let config = request(Target::Docker, Action::Up, vec![]);
    let planned = Action::plan(&config, &current).unwrap();
    assert_eq!(planned.len(), 1);
    assert_step(&planned[0], &["docker", "compose", "up", "-d"]);
}

#[test]
fn repository_reset_threads_both_branches_through_six_steps() {
    let current = String::from("feature");
    let config = repository_request(Action::Reset, "main", vec![]);
    let planned = Action::plan(&config, &current).unwrap();
    assert_eq!(planned.len(), 6);
    assert_step(&planned[0], &["git", "add", "."]);
    assert_step(&planned[1], &["git", "stash"]);
    assert_step(&planned[2], &["git", "checkout", "main"]);
    assert_step(&planned[3], &["git", "pull", "origin", "main"]);
    assert_step(&planned[4], &["git", "checkout", "feature"]);
    assert_step(&planned[5], &["git", "stash", "pop"]);
}

#[test]
fn repository_push_and_pull_use_the_current_branch() {
    let current = String::from("feature");
    let config = repository_request(Action::Push, "main", vec![]);
    let planned = Action::plan(&config, &current).unwrap();
    assert_eq!(planned.len(), 1);
    assert_step(&planned[0], &["git", "push", "origin", "feature"]);

    let config = repository_request(Action::Pull, "main", vec![]);
    let planned = Action::plan(&config, &current).unwrap();
    assert_eq!(planned.len(), 4);
    assert_step(&planned[0], &["git", "add", "*"]);
    assert_step(&planned[1], &["git", "stash"]);
    assert_step(&planned[2], &["git", "pull", "origin", "feature"]);
    assert_step(&planned[3], &["git", "stash", "pop"]);
}

#[test]
fn failed_listing_fails_the_run_before_any_step_exists() {
    let config = request(Target::Repository, Action::Reset, vec![]);
    let outcome = config.dispatch(
        Err(LateremError::ProcessSpawnFailure),
        Ok(b"feature\n".to_vec()),
    );
    assert!(matches!(outcome, Err(LateremError::ProcessSpawnFailure)));
}

#[test]
fn whole_repository_reset_dispatch_threads_the_resolved_branches() {
    let config = request(Target::Repository, Action::Reset, vec![]);
    let planned = config
        .dispatch(Ok(LISTING.to_vec()), Ok(b"feature\n".to_vec()))
        .unwrap();
    assert_eq!(planned.len(), 6);
    assert_step(&planned[2], &["git", "checkout", "main"]);
    assert_step(&planned[4], &["git", "checkout", "feature"]);
}

#[test]
fn resolving_twice_against_an_unchanged_listing_agrees() {
    let first = DefaultConfig::resolve(Ok(LISTING.to_vec())).unwrap();
    let second = DefaultConfig::resolve(Ok(LISTING.to_vec())).unwrap();
    assert_eq!(first.branch, second.branch);
    assert_eq!(first.branch, "main");
}

#[test]
fn resolve_reads_the_head_branch_line_and_sets_the_policy_flags() {
    let resolved = DefaultConfig::resolve(Ok(LISTING.to_vec())).unwrap();
    assert_eq!(resolved.branch, "main");
    assert!(resolved.stash_files);
    assert!(resolved.detach_container);
}

#[test]
fn resolve_propagates_the_listing_failure() {
    let outcome = DefaultConfig::resolve(Err(LateremError::ProcessSpawnFailure));
    assert!(matches!(outcome, Err(LateremError::ProcessSpawnFailure)));
}

#[test]
fn resolve_rejects_an_undecodable_branch_value() {
    let listing = b"  HEAD branch: \xff\xfe\n".to_vec();
    let outcome = DefaultConfig::resolve(Ok(listing));
    assert!(matches!(outcome, Err(LateremError::OutputDecodeFailure)));
}

#[test]
fn extract_head_branch_takes_the_value_after_the_last_separator() {
    assert_eq!(extract_head_branch(&LISTING.to_vec()), b"main".to_vec());
    let nested = b"  HEAD branch: odd: name\n".to_vec();
    assert_eq!(extract_head_branch(&nested), b"name".to_vec());
}

#[test]
fn extract_head_branch_without_a_marker_yields_the_empty_name() {
    let listing = b"* remote origin\n  Fetch URL: git@example.com:x.git\n".to_vec();
    assert_eq!(extract_head_branch(&listing), Vec::<u8>::new());
    assert_eq!(extract_head_branch(&Vec::new()), Vec::<u8>::new());
}

#[test]
fn strip_newlines_removes_every_newline() {
    assert_eq!(strip_newlines(&b"feature\n".to_vec()), b"feature".to_vec());
    assert_eq!(strip_newlines(&b"\na\nb\n".to_vec()), b"ab".to_vec());
    assert_eq!(strip_newlines(&b"plain".to_vec()), b"plain".to_vec());
}

#[test]
fn current_branch_is_the_stripped_decoded_query_output() {
    let branch = current_branch_from(Ok(b"feature\n".to_vec())).unwrap();
    assert_eq!(branch, "feature");
    let outcome = current_branch_from(Err(LateremError::ProcessSpawnFailure));
    assert!(matches!(outcome, Err(LateremError::ProcessSpawnFailure)));
    let outcome = current_branch_from(Ok(b"\xff\xfe\n".to_vec()));
    assert!(matches!(outcome, Err(LateremError::OutputDecodeFailure)));
}

#[test]
fn validate_accepts_exactly_the_catalog_requests() {
    assert!(request(Target::Docker, Action::Reset, vec![]).validate());
    assert!(request(Target::Docker, Action::Down, vec![]).validate());
    assert!(request(Target::Docker, Action::Up, vec![]).validate());
    assert!(request(Target::Repository, Action::Reset, vec![]).validate());
    assert!(request(Target::Repository, Action::Push, vec![]).validate());
    assert!(request(Target::Repository, Action::Pull, vec![]).validate());
    assert!(request(Target::Repository, Action::Commit, vec!["m"]).validate());
    assert!(!request(Target::Repository, Action::Commit, vec![]).validate());
    assert!(!request(Target::Docker, Action::Commit, vec!["m"]).validate());
    assert!(!request(Target::Docker, Action::Push, vec![]).validate());
    assert!(!request(Target::Docker, Action::Pull, vec![]).validate());
    assert!(!request(Target::Repository, Action::Down, vec![]).validate());
    assert!(!request(Target::Repository, Action::Up, vec![]).validate());
}

#[test]
fn names_and_messages_match_the_reporter_wording() {
    assert_eq!(Target::Docker.name(), "docker");
    assert_eq!(Target::Repository.name(), "repository");
    assert_eq!(Action::Reset.name(), "reset");
    assert_eq!(Action::Down.name(), "down");
    assert_eq!(Action::Up.name(), "up");
    assert_eq!(Action::Commit.name(), "commit");
    assert_eq!(Action::Push.name(), "push");
    assert_eq!(Action::Pull.name(), "pull");
    assert_eq!(LateremError::InvalidArgument.message(), "invalid argument");
    assert_eq!(
        LateremError::ProcessSpawnFailure.message(),
        "process spawn failure"
    );
    assert_eq!(
        LateremError::OutputDecodeFailure.message(),
        "output decode failure"
    );
}
