use vstd::prelude::*;
use crate::entities::{Action, Config, Target};

verus! {

/// The raw command-line request, as the surrounding binary hands it over:
/// positional and flag values read from the invocation, not yet mapped onto
/// the catalog's enumerations.
pub struct Cli {
    pub config: Option<String>,
    pub target: String,
    pub action: Option<String>,
    pub arguments: Vec<String>,
}

/// The target a raw word names: docker by name or initial; every other word,
/// repository being the common case, falls back to repository.
pub open spec fn target_of_word(word: Seq<char>) -> Target {
    if word == "d"@ || word == "docker"@ {
        Target::Docker
    } else {
        Target::Repository
    }
}

/// The action a raw word names, by name or listed initial; every
/// unrecognized word falls back to reset.
pub open spec fn action_of_word(word: Seq<char>) -> Action {
    if word == "c"@ || word == "commit"@ {
        Action::Commit
    } else if word == "push"@ {
        Action::Push
    } else if word == "pull"@ {
        Action::Pull
    } else if word == "d"@ || word == "down"@ {
        Action::Down
    } else if word == "u"@ || word == "up"@ {
        Action::Up
    } else {
        Action::Reset
    }
}

/// The action word a request carries: the given one, or the reset default.
pub open spec fn action_word_of(action: Option<String>) -> Seq<char> {
    match action {
        Some(word) => word@,
        None => "reset"@,
    }
}

/// The configuration path a request carries: the given one, or the
/// conventional location.
pub open spec fn path_of(config: Option<String>) -> Seq<char> {
    match config {
        Some(path) => path@,
        None => "$HOME/.config/laterem/config.json"@,
    }
}

/// Whether a raw word equals the given catalog word.
fn word_is(word: &String, catalog_word: &str) -> (b: bool)
    ensures
        b == (word@ == catalog_word@),
{
    let looked_for: String = catalog_word.to_owned();
    word.eq(&looked_for)
}

/// Maps the raw command-line request onto a run request: the target and
/// action words onto their catalog entries with their documented fallbacks,
/// the configuration path onto its conventional default, the free arguments
/// through unchanged, and the defaults left for the resolver to fill.
pub fn parse(cli: Cli) -> (c: Config)
    ensures
        c.target == target_of_word(cli.target@),
        c.action == action_of_word(action_word_of(cli.action)),
        c.path@ == path_of(cli.config),
        c.defaults is None,
        c.arguments == cli.arguments,
{
    let Cli { config, target, action, arguments } = cli;
    let path = match config {
        Some(p) => p,
        None => "$HOME/.config/laterem/config.json".to_owned(),
    };
    let chosen_target = if word_is(&target, "d") || word_is(&target, "docker") {
        Target::Docker
    } else {
        Target::Repository
    };
    let action_word = match action {
        Some(word) => word,
        None => "reset".to_owned(),
    };
    let chosen_action = if word_is(&action_word, "c") || word_is(&action_word, "commit") {
        Action::Commit
    } else if word_is(&action_word, "push") {
        Action::Push
    } else if word_is(&action_word, "pull") {
        Action::Pull
    } else if word_is(&action_word, "d") || word_is(&action_word, "down") {
        Action::Down
    } else if word_is(&action_word, "u") || word_is(&action_word, "up") {
        Action::Up
    } else {
        Action::Reset
    };
    Config { path, target: chosen_target, action: chosen_action, defaults: None, arguments }
}

} // verus!
