use vstd::prelude::*;
use vstd::string::StringExecFns;
use vstd::utf8::{valid_utf8, decode_utf8};
use crate::entities::{Action, Config, DefaultConfig, LateremError, Step, StepView, Target};
use crate::resolver::{current_branch_from, spec_head_branch, strip_nl};

verus! {

/// Stops the container stack.
pub open spec fn docker_down_step() -> StepView {
    StepView { program: "docker"@, args: seq!["compose"@, "down"@] }
}

/// Starts the container stack detached.
pub open spec fn docker_up_step() -> StepView {
    StepView { program: "docker"@, args: seq!["compose"@, "up"@, "-d"@] }
}

/// Stages every change under the working tree.
pub open spec fn git_stage_step() -> StepView {
    StepView { program: "git"@, args: seq!["add"@, "."@] }
}

/// Stages changes by the shell-style catch-all pathspec, as the pull
/// workflow spells it.
pub open spec fn git_stage_all_step() -> StepView {
    StepView { program: "git"@, args: seq!["add"@, "*"@] }
}

/// Stashes the staged changes.
pub open spec fn git_stash_step() -> StepView {
    StepView { program: "git"@, args: seq!["stash"@] }
}

/// Checks the given branch out.
pub open spec fn git_checkout_step(branch: Seq<char>) -> StepView {
    StepView { program: "git"@, args: seq!["checkout"@, branch] }
}

/// Pulls the given branch from origin.
pub open spec fn git_pull_step(branch: Seq<char>) -> StepView {
    StepView { program: "git"@, args: seq!["pull"@, "origin"@, branch] }
}

/// Pops the most recent stash entry.
pub open spec fn git_stash_pop_step() -> StepView {
    StepView { program: "git"@, args: seq!["stash"@, "pop"@] }
}

/// Commits the staged changes with the given message.
pub open spec fn git_commit_step(message: Seq<char>) -> StepView {
    StepView { program: "git"@, args: seq!["commit"@, "-m"@, message] }
}

/// Pushes the given branch to origin.
pub open spec fn git_push_step(branch: Seq<char>) -> StepView {
    StepView { program: "git"@, args: seq!["push"@, "origin"@, branch] }
}

/// The free-form arguments joined into one commit message, one space between
/// neighbours.
pub open spec fn join_spaces(parts: Seq<Seq<char>>) -> Seq<char>
    decreases parts.len(),
{
    if parts.len() == 0 {
        Seq::empty()
    } else if parts.len() == 1 {
        parts[0]
    } else {
        parts[0] + " "@ + join_spaces(parts.skip(1))
    }
}

/// The (target, action) pairs the catalog holds a workflow for.
pub open spec fn valid_pair(target: Target, action: Action) -> bool {
    match target {
        Target::Docker => action is Reset || action is Down || action is Up,
        Target::Repository => action is Reset || action is Commit || action is Push
            || action is Pull,
    }
}

/// A request the dispatcher accepts: its pair is in the catalog and a commit
/// brings at least one message argument.
pub open spec fn request_valid(target: Target, action: Action, arguments: Seq<Seq<char>>) -> bool {
    valid_pair(target, action) && (action is Commit ==> arguments.len() > 0)
}

/// The catalog: the fixed ordered step sequence of every valid
/// (target, action) pair, with the resolved default branch, the queried
/// current branch, and the free-form arguments threaded through; `None` for
/// every request outside it.
pub open spec fn catalog(
    target: Target,
    action: Action,
    default_branch: Seq<char>,
    current_branch: Seq<char>,
    arguments: Seq<Seq<char>>,
) -> Option<Seq<StepView>> {
    match target {
        Target::Docker => match action {
            Action::Reset => Some(seq![docker_down_step(), docker_up_step()]),
            Action::Down => Some(seq![docker_down_step()]),
            Action::Up => Some(seq![docker_up_step()]),
            _ => None,
        },
        Target::Repository => match action {
            Action::Reset => Some(
                seq![
                    git_stage_step(),
                    git_stash_step(),
                    git_checkout_step(default_branch),
                    git_pull_step(default_branch),
                    git_checkout_step(current_branch),
                    git_stash_pop_step(),
                ],
            ),
            Action::Commit => if arguments.len() == 0 {
                None
            } else {
                Some(seq![git_commit_step(join_spaces(arguments))])
            },
            Action::Push => Some(seq![git_push_step(current_branch)]),
            Action::Pull => Some(
                seq![
                    git_stage_all_step(),
                    git_stash_step(),
                    git_pull_step(current_branch),
                    git_stash_pop_step(),
                ],
            ),
            _ => None,
        },
    }
}

/// The default branch a repository request plans against: the resolved one.
pub open spec fn planned_default_branch(config: Config) -> Seq<char> {
    match config.defaults {
        Some(d) => d.branch@,
        None => Seq::empty(),
    }
}

/// Every (target, action) pair outside the catalog is rejected as an invalid
/// argument, whatever branches were resolved and whatever arguments came
/// along; no step sequence exists for it.
pub proof fn lemma_invalid_pair_rejected(
    target: Target,
    action: Action,
    default_branch: Seq<char>,
    current_branch: Seq<char>,
    arguments: Seq<Seq<char>>,
)
    requires
        !valid_pair(target, action),
    ensures
        catalog(target, action, default_branch, current_branch, arguments) is None,
{
}

/// A commit without message arguments is rejected as an invalid argument for
/// every target, whatever branches were resolved.
pub proof fn lemma_commit_without_message_rejected(
    target: Target,
    default_branch: Seq<char>,
    current_branch: Seq<char>,
    arguments: Seq<Seq<char>>,
)
    requires
        arguments.len() == 0,
    ensures
        catalog(target, Action::Commit, default_branch, current_branch, arguments) is None,
{
}

/// The container workflows are fixed: reset is exactly stop-stack then
/// start-stack-detached, and down and up are each the single matching step,
/// whatever branches were resolved and whatever arguments came along.
pub proof fn lemma_docker_workflows(
    default_branch: Seq<char>,
    current_branch: Seq<char>,
    arguments: Seq<Seq<char>>,
)
    ensures
        catalog(Target::Docker, Action::Reset, default_branch, current_branch, arguments)
            == Some(seq![docker_down_step(), docker_up_step()]),
        catalog(Target::Docker, Action::Down, default_branch, current_branch, arguments)
            == Some(seq![docker_down_step()]),
        catalog(Target::Docker, Action::Up, default_branch, current_branch, arguments)
            == Some(seq![docker_up_step()]),
{
}

/// The repository reset workflow is exactly the six steps stage, stash,
/// checkout of the default branch, pull of the default branch, checkout back
/// to the current branch, and stash pop, in that order, with both branch
/// names threaded through unchanged.
pub proof fn lemma_repository_reset_workflow(
    default_branch: Seq<char>,
    current_branch: Seq<char>,
    arguments: Seq<Seq<char>>,
)
    ensures
        catalog(Target::Repository, Action::Reset, default_branch, current_branch, arguments)
            == Some(
            seq![
                git_stage_step(),
                git_stash_step(),
                git_checkout_step(default_branch),
                git_pull_step(default_branch),
                git_checkout_step(current_branch),
                git_stash_pop_step(),
            ],
        ),
{
}

/// Joining a further part appends one space and the part.
proof fn lemma_join_spaces_snoc(parts: Seq<Seq<char>>, last: Seq<char>)
    requires
        parts.len() >= 1,
    ensures
        join_spaces(parts.push(last)) == join_spaces(parts) + " "@ + last,
    decreases parts.len(),
{
    let whole = parts.push(last);
    assert(whole.len() == parts.len() + 1);
    if parts.len() == 1 {
        assert(whole.skip(1) =~= seq![last]);
        assert(join_spaces(seq![last]) == last);
        assert(whole[0] == parts[0]);
        assert(join_spaces(whole) == parts[0] + " "@ + last);
    } else {
        lemma_join_spaces_snoc(parts.skip(1), last);
        assert(whole.skip(1) =~= parts.skip(1).push(last));
        assert(whole[0] + " "@ + (join_spaces(parts.skip(1)) + " "@ + last) =~= (parts[0] + " "@
            + join_spaces(parts.skip(1))) + " "@ + last);
    }
}

/// Joins the free-form arguments into one commit message.
pub fn join_with_spaces(parts: &Vec<String>) -> (r: String)
    ensures
        r@ == join_spaces(parts.deep_view()),
{
    let mut r = String::new();
    let mut i: usize = 0;
    while i < parts.len()
        invariant
            i <= parts.len(),
            parts.deep_view().len() == parts.len(),
            r@ == join_spaces(parts.deep_view().take(i as int)),
        decreases parts.len() - i,
    {
        proof {
            let dv = parts.deep_view();
            assert(dv[i as int] == parts@[i as int]@);
            assert(dv.take(i as int + 1) =~= dv.take(i as int).push(dv[i as int]));
            if i > 0 {
                lemma_join_spaces_snoc(dv.take(i as int), dv[i as int]);
            } else {
                assert(dv.take(1)[0] == dv[0]);
                assert(join_spaces(dv.take(1)) == dv[0]);
            }
        }
        if i > 0 {
            r.append(" ");
        }
        let part = &parts[i];
        r.append(part.as_str());
        proof {
            let dv = parts.deep_view();
            if i == 0 {
                assert(Seq::<char>::empty() + dv[0] =~= dv[0]);
            }
        }
        i += 1;
    }
    proof {
        assert(parts.deep_view().take(parts.len() as int) =~= parts.deep_view());
    }
    r
}

/// Wraps one pushed argument as a step's argument vector.
fn args1(a0: String) -> (v: Vec<String>)
    ensures
        v.deep_view() == seq![a0@],
{
    let ghost g0 = a0@;
    let mut v: Vec<String> = Vec::new();
    v.push(a0);
    proof {
        assert(v.deep_view() =~= seq![g0]);
    }
    v
}

/// Wraps two pushed arguments as a step's argument vector.
fn args2(a0: String, a1: String) -> (v: Vec<String>)
    ensures
        v.deep_view() == seq![a0@, a1@],
{
    let ghost g0 = a0@;
    let ghost g1 = a1@;
    let mut v: Vec<String> = Vec::new();
    v.push(a0);
    v.push(a1);
    proof {
        assert(v.deep_view() =~= seq![g0, g1]);
    }
    v
}

/// Wraps three pushed arguments as a step's argument vector.
fn args3(a0: String, a1: String, a2: String) -> (v: Vec<String>)
    ensures
        v.deep_view() == seq![a0@, a1@, a2@],
{
    let ghost g0 = a0@;
    let ghost g1 = a1@;
    let ghost g2 = a2@;
    let mut v: Vec<String> = Vec::new();
    v.push(a0);
    v.push(a1);
    v.push(a2);
    proof {
        assert(v.deep_view() =~= seq![g0, g1, g2]);
    }
    v
}

/// Builds one step from a program name and its argument vector.
fn step_of(program: &str, args: Vec<String>) -> (s: Step)
    ensures
        s@.program == program@,
        s@.args == args.deep_view(),
{
    Step { program: program.to_owned(), args }
}

impl Action {
    /// Plans the ordered steps of the requested workflow, or rejects the
    /// request: exactly the catalog's sequence for the pair comes back, with
    /// the resolved default branch, the queried current branch, and the
    /// joined commit message threaded in, and exactly the requests outside
    /// the catalog come back as invalid arguments.
    pub fn plan(config: &Config, current_branch: &String) -> (r: Result<Vec<Step>, LateremError>)
        requires
            config.target is Repository ==> config.defaults is Some,
        ensures
            match catalog(
                config.target,
                config.action,
                planned_default_branch(*config),
                current_branch@,
                config.arguments.deep_view(),
            ) {
                Some(steps) => r matches Ok(v) && v.deep_view() == steps,
                None => r matches Err(e) && e is InvalidArgument,
            },
    {
        match config.target {
            Target::Docker => match config.action {
                Action::Reset => {
                    let mut v: Vec<Step> = Vec::new();
                    v.push(step_of("docker", args2("compose".to_owned(), "down".to_owned())));
                    v.push(
                        step_of(
                            "docker",
                            args3("compose".to_owned(), "up".to_owned(), "-d".to_owned()),
                        ),
                    );
                    proof {
                        assert(v.deep_view() =~~= seq![docker_down_step(), docker_up_step()]);
                    }
                    Ok(v)
                },
                Action::Down => {
                    let mut v: Vec<Step> = Vec::new();
                    v.push(step_of("docker", args2("compose".to_owned(), "down".to_owned())));
                    proof {
                        assert(v.deep_view() =~~= seq![docker_down_step()]);
                    }
                    Ok(v)
                },
                Action::Up => {
                    let mut v: Vec<Step> = Vec::new();
                    v.push(
                        step_of(
                            "docker",
                            args3("compose".to_owned(), "up".to_owned(), "-d".to_owned()),
                        ),
                    );
                    proof {
                        assert(v.deep_view() =~~= seq![docker_up_step()]);
                    }
                    Ok(v)
                },
                _ => Err(LateremError::InvalidArgument),
            },
            Target::Repository => {
                let defaults = match &config.defaults {
                    Some(d) => d,
                    None => {
                        return Err(LateremError::InvalidArgument);
                    },
                };
                match config.action {
                    Action::Reset => {
                        let mut v: Vec<Step> = Vec::new();
                        v.push(step_of("git", args2("add".to_owned(), ".".to_owned())));
                        v.push(step_of("git", args1("stash".to_owned())));
                        v.push(
                            step_of("git", args2("checkout".to_owned(), defaults.branch.clone())),
                        );
                        v.push(
                            step_of(
                                "git",
                                args3(
                                    "pull".to_owned(),
                                    "origin".to_owned(),
                                    defaults.branch.clone(),
                                ),
                            ),
                        );
                        v.push(
                            step_of("git", args2("checkout".to_owned(), current_branch.clone())),
                        );
                        v.push(step_of("git", args2("stash".to_owned(), "pop".to_owned())));
                        proof {
                            assert(v.deep_view() =~~= seq![
                                git_stage_step(),
                                git_stash_step(),
                                git_checkout_step(defaults.branch@),
                                git_pull_step(defaults.branch@),
                                git_checkout_step(current_branch@),
                                git_stash_pop_step(),
                            ]);
                        }
                        Ok(v)
                    },
                    Action::Commit => {
                        if config.arguments.len() == 0 {
                            return Err(LateremError::InvalidArgument);
                        }
                        let message = join_with_spaces(&config.arguments);
                        let mut v: Vec<Step> = Vec::new();
                        v.push(
                            step_of("git", args3("commit".to_owned(), "-m".to_owned(), message)),
                        );
                        proof {
                            assert(v.deep_view() =~~= seq![
                                git_commit_step(join_spaces(config.arguments.deep_view())),
                            ]);
                        }
                        Ok(v)
                    },
                    Action::Push => {
                        let mut v: Vec<Step> = Vec::new();
                        v.push(
                            step_of(
                                "git",
                                args3(
                                    "push".to_owned(),
                                    "origin".to_owned(),
                                    current_branch.clone(),
                                ),
                            ),
                        );
                        proof {
                            assert(v.deep_view() =~~= seq![git_push_step(current_branch@)]);
                        }
                        Ok(v)
                    },
                    Action::Pull => {
                        let mut v: Vec<Step> = Vec::new();
                        v.push(step_of("git", args2("add".to_owned(), "*".to_owned())));
                        v.push(step_of("git", args1("stash".to_owned())));
                        v.push(
                            step_of(
                                "git",
                                args3(
                                    "pull".to_owned(),
                                    "origin".to_owned(),
                                    current_branch.clone(),
                                ),
                            ),
                        );
                        v.push(step_of("git", args2("stash".to_owned(), "pop".to_owned())));
                        proof {
                            assert(v.deep_view() =~~= seq![
                                git_stage_all_step(),
                                git_stash_step(),
                                git_pull_step(current_branch@),
                                git_stash_pop_step(),
                            ]);
                        }
                        Ok(v)
                    },
                    _ => Err(LateremError::InvalidArgument),
                }
            },
        }
    }
}

/// The byte outcome an external command's capture hands the engine, as a
/// mathematical value.
pub open spec fn outcome_view(r: Result<Vec<u8>, LateremError>) -> Result<Seq<u8>, LateremError> {
    match r {
        Ok(bytes) => Ok(bytes@),
        Err(e) => Err(e),
    }
}

/// A planned run as a mathematical value.
pub open spec fn plan_view(r: Result<Vec<Step>, LateremError>) -> Result<
    Seq<StepView>,
    LateremError,
> {
    match r {
        Ok(steps) => Ok(steps.deep_view()),
        Err(e) => Err(e),
    }
}

/// The catalog's answer as a run outcome: its steps, or the invalid-argument
/// rejection.
pub open spec fn catalog_outcome(
    target: Target,
    action: Action,
    default_branch: Seq<char>,
    current_branch: Seq<char>,
    arguments: Seq<Seq<char>>,
) -> Result<Seq<StepView>, LateremError> {
    match catalog(target, action, default_branch, current_branch, arguments) {
        Some(steps) => Ok(steps),
        None => Err(LateremError::InvalidArgument),
    }
}

/// The whole decision side of one run, over the outcomes of the two captured
/// external commands. In order: a listing that could not be captured aborts
/// the run with its own error before anything else is consulted; an
/// undecodable branch value aborts it; a request outside the catalog is
/// rejected before the branch query matters; a repository run then needs the
/// current branch, propagating the query's own failure or the decode
/// failure; what remains is the catalog's step sequence.
pub open spec fn spec_dispatch(
    target: Target,
    action: Action,
    arguments: Seq<Seq<char>>,
    listing: Result<Seq<u8>, LateremError>,
    branch_out: Result<Seq<u8>, LateremError>,
) -> Result<Seq<StepView>, LateremError> {
    match listing {
        Err(e) => Err(e),
        Ok(lb) => if !valid_utf8(spec_head_branch(lb)) {
            Err(LateremError::OutputDecodeFailure)
        } else if !request_valid(target, action, arguments) {
            Err(LateremError::InvalidArgument)
        } else {
            let default_branch = decode_utf8(spec_head_branch(lb));
            match target {
                Target::Docker => catalog_outcome(
                    target,
                    action,
                    default_branch,
                    Seq::empty(),
                    arguments,
                ),
                Target::Repository => match branch_out {
                    Err(e) => Err(e),
                    Ok(bb) => if !valid_utf8(strip_nl(bb)) {
                        Err(LateremError::OutputDecodeFailure)
                    } else {
                        catalog_outcome(
                            target,
                            action,
                            default_branch,
                            decode_utf8(strip_nl(bb)),
                            arguments,
                        )
                    },
                },
            }
        },
    }
}

/// A run whose remote listing could not be captured fails with exactly that
/// error: no workflow steps exist for it, whatever the request was and
/// whatever the branch query returned.
pub proof fn lemma_failed_listing_fails_run(
    target: Target,
    action: Action,
    arguments: Seq<Seq<char>>,
    e: LateremError,
    branch_out: Result<Seq<u8>, LateremError>,
)
    ensures
        spec_dispatch(target, action, arguments, Err(e), branch_out) == Err::<
            Seq<StepView>,
            LateremError,
        >(e),
{
}

/// A request outside the catalog is rejected by the whole run as an invalid
/// argument before the branch query is consulted: its outcome is the same
/// whatever that query returned, so no external command is owed for it.
pub proof fn lemma_invalid_request_rejected_before_branch_query(
    target: Target,
    action: Action,
    arguments: Seq<Seq<char>>,
    listing_bytes: Seq<u8>,
    first_query: Result<Seq<u8>, LateremError>,
    second_query: Result<Seq<u8>, LateremError>,
)
    requires
        !request_valid(target, action, arguments),
        valid_utf8(spec_head_branch(listing_bytes)),
    ensures
        spec_dispatch(target, action, arguments, Ok(listing_bytes), first_query) == Err::<
            Seq<StepView>,
            LateremError,
        >(LateremError::InvalidArgument),
        spec_dispatch(target, action, arguments, Ok(listing_bytes), first_query) == spec_dispatch(
            target,
            action,
            arguments,
            Ok(listing_bytes),
            second_query,
        ),
{
}

impl Config {
    /// Whether this request names a workflow of the catalog with usable
    /// arguments; false exactly for the requests the dispatcher rejects
    /// before any external command runs.
    pub fn validate(&self) -> (ok: bool)
        ensures
            ok == request_valid(self.target, self.action, self.arguments.deep_view()),
    {
        let pair_ok = match (self.target, self.action) {
            (Target::Docker, Action::Reset) => true,
            (Target::Docker, Action::Down) => true,
            (Target::Docker, Action::Up) => true,
            (Target::Repository, Action::Reset) => true,
            (Target::Repository, Action::Commit) => true,
            (Target::Repository, Action::Push) => true,
            (Target::Repository, Action::Pull) => true,
            _ => false,
        };
        let commit_ok = match self.action {
            Action::Commit => self.arguments.len() > 0,
            _ => true,
        };
        pair_ok && commit_ok
    }

    /// Decides one whole run from the outcomes of the two captured external
    /// commands: resolves the default branch from the remote listing,
    /// rejects requests outside the catalog, reads the current branch from
    /// the query's output for repository work, and plans the workflow's
    /// steps — exactly as [`spec_dispatch`] lays the order of those
    /// concerns down.
    pub fn dispatch(
        self,
        listing: Result<Vec<u8>, LateremError>,
        branch_out: Result<Vec<u8>, LateremError>,
    ) -> (r: Result<Vec<Step>, LateremError>)
        ensures
            plan_view(r) == spec_dispatch(
                self.target,
                self.action,
                self.arguments.deep_view(),
                outcome_view(listing),
                outcome_view(branch_out),
            ),
    {
        let defaults = match DefaultConfig::resolve(listing) {
            Ok(d) => d,
            Err(e) => {
                return Err(e);
            },
        };
        if !self.validate() {
            return Err(LateremError::InvalidArgument);
        }
        let enriched = Config {
            path: self.path,
            target: self.target,
            action: self.action,
            defaults: Some(Box::new(defaults)),
            arguments: self.arguments,
        };
        match enriched.target {
            Target::Docker => {
                let current_branch = String::new();
                Action::plan(&enriched, &current_branch)
            },
            Target::Repository => {
                let current_branch = match current_branch_from(branch_out) {
                    Ok(b) => b,
                    Err(e) => {
                        return Err(e);
                    },
                };
                Action::plan(&enriched, &current_branch)
            },
        }
    }
}

} // verus!
