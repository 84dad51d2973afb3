use vstd::prelude::*;

verus! {

/// Every way a run can fail.
///
/// `InvalidArgument` is detected before any external command is issued; the
/// other two report that a required external command could not be started or
/// that its captured output was not valid text.
#[derive(Clone, Copy, PartialEq, Eq, Structural, Debug)]
pub enum LateremError {
    InvalidArgument,
    ProcessSpawnFailure,
    OutputDecodeFailure,
}

impl LateremError {
    /// The text the reporter shows for this error.
    pub fn message(&self) -> (r: &'static str)
        ensures
            *self is InvalidArgument ==> r@ == "invalid argument"@,
            *self is ProcessSpawnFailure ==> r@ == "process spawn failure"@,
            *self is OutputDecodeFailure ==> r@ == "output decode failure"@,
    {
        match self {
            LateremError::InvalidArgument => "invalid argument",
            LateremError::ProcessSpawnFailure => "process spawn failure",
            LateremError::OutputDecodeFailure => "output decode failure",
        }
    }
}

/// The domain a workflow applies to.
#[derive(Clone, Copy, PartialEq, Eq, Structural, Debug)]
pub enum Target {
    Docker,
    Repository,
}

impl Target {
    /// The name the command line and the reporter use for this target.
    pub fn name(&self) -> (r: &'static str)
        ensures
            *self is Docker ==> r@ == "docker"@,
            *self is Repository ==> r@ == "repository"@,
    {
        match self {
            Target::Docker => "docker",
            Target::Repository => "repository",
        }
    }
}

/// The named workflow requested within a target.
#[derive(Clone, Copy, PartialEq, Eq, Structural, Debug)]
pub enum Action {
    /// Restart the container stack, or refresh the repository's default
    /// branch and return.
    Reset,
    /// Take the container stack down.
    Down,
    /// Start the container stack detached.
    Up,
    /// Commit staged changes with a message joined from the free arguments.
    Commit,
    /// Push the current branch to origin.
    Push,
    /// Stash local changes, pull the current branch, and pop the stash.
    Pull,
}

impl Action {
    /// The name the command line and the reporter use for this action.
    pub fn name(&self) -> (r: &'static str)
        ensures
            *self is Reset ==> r@ == "reset"@,
            *self is Down ==> r@ == "down"@,
            *self is Up ==> r@ == "up"@,
            *self is Commit ==> r@ == "commit"@,
            *self is Push ==> r@ == "push"@,
            *self is Pull ==> r@ == "pull"@,
    {
        match self {
            Action::Reset => "reset",
            Action::Down => "down",
            Action::Up => "up",
            Action::Commit => "commit",
            Action::Push => "push",
            Action::Pull => "pull",
        }
    }
}

/// Assumed repository conventions: the discovered default branch and two
/// policy flags that are fixed to `true` until they become configurable.
pub struct DefaultConfig {
    pub branch: String,
    pub stash_files: bool,
    pub detach_container: bool,
}

impl DefaultConfig {
    /// Builds the conventions record around a discovered default branch.
    pub fn from_branch(branch: String) -> (r: DefaultConfig)
        ensures
            r.branch@ == branch@,
            r.stash_files,
            r.detach_container,
    {
        DefaultConfig { branch, stash_files: true, detach_container: true }
    }
}

/// One run request: what to do, where, and with which free-form arguments.
///
/// `defaults` starts absent and is filled exactly once, from the remote
/// listing, before a repository workflow is planned.
pub struct Config {
    pub path: String,
    pub target: Target,
    pub action: Action,
    pub defaults: Option<Box<DefaultConfig>>,
    pub arguments: Vec<String>,
}

/// One ordered external command invocation: the executable and its argument
/// vector, the atomic unit a workflow is made of.
pub struct Step {
    pub program: String,
    pub args: Vec<String>,
}

/// The mathematical value of a [`Step`]: its program name and arguments as
/// character sequences.
#[verifier::ext_equal]
pub struct StepView {
    pub program: Seq<char>,
    pub args: Seq<Seq<char>>,
}

impl View for Step {
    type V = StepView;

    open spec fn view(&self) -> StepView {
        StepView { program: self.program@, args: self.args.deep_view() }
    }
}

impl DeepView for Step {
    type V = StepView;

    open spec fn deep_view(&self) -> StepView {
        self@
    }
}

} // verus!
