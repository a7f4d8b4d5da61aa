//! The interpretation and decision layer of the workflow: what each git
//! command's outcome means, which commands a stage must run, and when a stage
//! fails instead.

use vstd::prelude::*;
use vstd::string::*;

use crate::command::CmdOutcome;
use crate::command::spec_trim;
use crate::command::str_eq;
use crate::command::trim_line;

verus! {

/// Why a workflow operation failed.
#[derive(Debug)]
pub enum GitError {
    /// An external command ran but exited non-zero; carries a description.
    CommandFailed(String),
    /// An external command could not be spawned; carries a description.
    IoError(String),
    /// The current directory is not inside a git repository.
    NotAGitRepository,
    /// A remote that the operation needs is not configured; carries its name.
    RemoteNotFound(String),
    /// Part of the error taxonomy; the workflow skips a remote that already
    /// exists rather than raising this.
    RemoteAlreadyExists(String),
}

pub type GitResult<T> = Result<T, GitError>;

/// Whether the `git --version` probe showed a usable git binary: the process
/// started and exited zero.
pub fn check_git_installed(probe: &CmdOutcome) -> (r: bool)
    ensures
        r == (probe is Success),
{
    match probe {
        CmdOutcome::Success { .. } => true,
        CmdOutcome::Failure { .. } => false,
        CmdOutcome::SpawnError { .. } => false,
    }
}

/// What a `git rev-parse --is-inside-work-tree` outcome says: inside a
/// repository exactly when the command exited zero and its trimmed output is
/// literally "true".
pub open spec fn says_inside_work_tree(probe: CmdOutcome) -> bool {
    match probe {
        CmdOutcome::Success { stdout } => spec_trim(stdout@) == "true"@,
        _ => false,
    }
}

/// Whether the repository probe showed the current directory to be inside a
/// work tree. A failed or unspawnable probe counts as "not a repository".
pub fn is_git_repo(probe: &CmdOutcome) -> (r: bool)
    ensures
        r == says_inside_work_tree(*probe),
{
    match probe {
        CmdOutcome::Success { stdout } => str_eq(trim_line(stdout.as_str()), "true"),
        CmdOutcome::Failure { .. } => false,
        CmdOutcome::SpawnError { .. } => false,
    }
}

/// Law: a probe that did not exit zero never shows a repository — absence of
/// a repository is not distinguished from inability to run the probe.
pub proof fn lemma_failed_probe_is_no_repo(probe: CmdOutcome)
    requires
        !(probe is Success),
    ensures
        !says_inside_work_tree(probe),
{
}

/// The first index at or after `i` holding a newline, or the length of `s`
/// when no newline follows.
pub open spec fn line_end(s: Seq<char>, i: int) -> int
    decreases s.len() - i when 0 <= i <= s.len()
{
    if i == s.len() {
        i
    } else if s[i] == '\n' {
        i
    } else {
        line_end(s, i + 1)
    }
}

pub proof fn lemma_line_end(s: Seq<char>, i: int)
    requires
        0 <= i <= s.len(),
    ensures
        i <= line_end(s, i) <= s.len(),
        line_end(s, i) < s.len() ==> s[line_end(s, i)] == '\n',
        forall|k: int| i <= k < line_end(s, i) ==> s[k] != '\n',
    decreases s.len() - i,
{
    if i < s.len() && s[i] != '\n' {
        lemma_line_end(s, i + 1);
    }
}

/// The remote names listed from index `i` of the output of `git remote` on:
/// one name per line, each trimmed, empty lines dropped, order kept.
pub open spec fn remote_names_from(s: Seq<char>, i: int) -> Seq<Seq<char>>
    decreases s.len() - i when 0 <= i <= s.len() via remote_names_from_decreases
{
    if i == s.len() {
        Seq::empty()
    } else {
        let j = line_end(s, i);
        let line = spec_trim(s.subrange(i, j));
        let rest = if j < s.len() {
            remote_names_from(s, j + 1)
        } else {
            Seq::empty()
        };
        if line.len() == 0 {
            rest
        } else {
            seq![line] + rest
        }
    }
}

#[via_fn]
proof fn remote_names_from_decreases(s: Seq<char>, i: int) {
    if 0 <= i && i < s.len() {
        lemma_line_end(s, i);
    }
}

/// The remote names a `git remote` outcome lists. Any failure counts as "no
/// remotes": it is silently treated as an empty list, never surfaced.
pub open spec fn spec_remote_names(outcome: CmdOutcome) -> Seq<Seq<char>> {
    match outcome {
        CmdOutcome::Success { stdout } => remote_names_from(stdout@, 0),
        _ => Seq::empty(),
    }
}

/// Splits command output into trimmed, non-empty lines, in order.
pub fn remote_lines(s: &str) -> (r: Vec<String>)
    ensures
        r.deep_view() == remote_names_from(s@, 0),
{
    let n = s.unicode_len();
    let mut out: Vec<String> = Vec::new();
    let mut i: usize = 0;
    while i < n
        invariant
            i <= n,
            n == s@.len(),
            out.deep_view() + remote_names_from(s@, i as int) == remote_names_from(s@, 0),
        decreases n - i,
    {
        let ghost prev = out.deep_view();
        let mut j: usize = i;
        while j < n && s.get_char(j) != '\n'
            invariant
                i <= j <= n,
                n == s@.len(),
                line_end(s@, i as int) == line_end(s@, j as int),
            decreases n - j,
        {
            j = j + 1;
        }
        proof {
            assert(line_end(s@, i as int) == j as int);
        }
        let line = trim_line(s.substring_char(i, j));
        if line.unicode_len() > 0 {
            out.push(line.to_owned());
            proof {
                assert(out.deep_view() =~= prev.push(line@));
            }
        }
        proof {
            let rest = if j < n {
                remote_names_from(s@, j as int + 1)
            } else {
                Seq::<Seq<char>>::empty()
            };
            if line@.len() == 0 {
                assert(remote_names_from(s@, i as int) == rest);
            } else {
                assert(remote_names_from(s@, i as int) == seq![line@] + rest);
                assert(prev.push(line@) =~= prev + seq![line@]);
                assert((prev + seq![line@]) + rest =~= prev + (seq![line@] + rest));
            }
            if j == n {
                assert(remote_names_from(s@, n as int) =~= Seq::<Seq<char>>::empty());
            }
        }
        i = if j < n {
            j + 1
        } else {
            n
        };
    }
    proof {
        assert(out.deep_view() + remote_names_from(s@, n as int) =~= out.deep_view());
    }
    out
}

/// The remote names in a `git remote` outcome: one per line, trimmed, empty
/// lines dropped. A failed or unspawnable command yields no names.
pub fn get_existing_remotes(outcome: &CmdOutcome) -> (r: Vec<String>)
    ensures
        r.deep_view() == spec_remote_names(*outcome),
{
    match outcome {
        CmdOutcome::Success { stdout } => remote_lines(stdout.as_str()),
        CmdOutcome::Failure { .. } => Vec::new(),
        CmdOutcome::SpawnError { .. } => Vec::new(),
    }
}

/// Whether `names` holds `name`.
pub fn has_remote(names: &Vec<String>, name: &str) -> (r: bool)
    ensures
        r == names.deep_view().contains(name@),
{
    let mut k: usize = 0;
    while k < names.len()
        invariant
            k <= names.len(),
            forall|t: int| 0 <= t < k ==> names.deep_view()[t] != name@,
        decreases names.len() - k,
    {
        if str_eq(names[k].as_str(), name) {
            proof {
                assert(names.deep_view()[k as int] == name@);
            }
            return true;
        }
        k = k + 1;
    }
    proof {
        assert(!names.deep_view().contains(name@));
    }
    false
}

/// The init stage decision: the command to run, if any.
#[derive(Debug, Clone, Copy, PartialEq, Eq, Structural)]
pub enum InitStep {
    /// The directory is already a repository; nothing runs and the stage
    /// succeeds as a no-op.
    AlreadyRepository,
    /// The directory is not yet a repository; `git init` must run.
    RunInit,
}

/// The init stage decision for a given repository probe result.
pub open spec fn spec_init_step(already_repo: bool) -> InitStep {
    if already_repo {
        InitStep::AlreadyRepository
    } else {
        InitStep::RunInit
    }
}

/// Decides the init stage: initialize only a directory that is not yet a
/// repository.
pub fn plan_init(already_repo: bool) -> (r: InitStep)
    ensures
        r == spec_init_step(already_repo),
{
    if already_repo {
        InitStep::AlreadyRepository
    } else {
        InitStep::RunInit
    }
}

/// Law: initializing is idempotent — once the directory is a repository, a
/// further init stage plans no command at all and succeeds as a no-op.
pub proof fn lemma_init_idempotent()
    ensures
        spec_init_step(true) == InitStep::AlreadyRepository,
{
}

/// The init stage result once `git init` has run: non-zero exit fails with
/// the captured standard error, a spawn failure with the host's description.
pub fn interpret_init_outcome(outcome: &CmdOutcome) -> (r: GitResult<()>)
    ensures
        r is Ok <==> outcome is Success,
        (outcome matches CmdOutcome::Failure { stderr } ==> (r matches Err(
            GitError::CommandFailed(m),
        ) && m@ == "Error initializing git repository: "@ + stderr@)),
        (outcome matches CmdOutcome::SpawnError { message } ==> (r matches Err(
            GitError::IoError(m),
        ) && m@ == message@)),
{
    match outcome {
        CmdOutcome::Success { .. } => Ok(()),
        CmdOutcome::Failure { stderr } => Err(
            GitError::CommandFailed(
                String::from_str("Error initializing git repository: ").concat(stderr.as_str()),
            ),
        ),
        CmdOutcome::SpawnError { message } => Err(GitError::IoError(message.clone())),
    }
}

/// One planned `git remote add <name> <url>` invocation.
#[derive(Debug)]
pub struct RemoteAdd {
    pub name: String,
    pub url: String,
}

impl View for RemoteAdd {
    type V = (Seq<char>, Seq<char>);

    open spec fn view(&self) -> (Seq<char>, Seq<char>) {
        (self.name@, self.url@)
    }
}

impl DeepView for RemoteAdd {
    type V = (Seq<char>, Seq<char>);

    open spec fn deep_view(&self) -> (Seq<char>, Seq<char>) {
        self.view()
    }
}

/// The adds that registering remotes must attempt, given the remotes that
/// already exist: "origin" first when missing, then "mirror" when missing. A
/// remote that already exists is skipped, never replaced.
pub open spec fn planned_adds(
    existing: Seq<Seq<char>>,
    origin_url: Seq<char>,
    mirror_url: Seq<char>,
) -> Seq<(Seq<char>, Seq<char>)> {
    (if existing.contains("origin"@) {
        Seq::<(Seq<char>, Seq<char>)>::empty()
    } else {
        seq![("origin"@, origin_url)]
    }) + (if existing.contains("mirror"@) {
        Seq::<(Seq<char>, Seq<char>)>::empty()
    } else {
        seq![("mirror"@, mirror_url)]
    })
}

/// Decides the register-remotes stage: the `git remote add` commands to run,
/// in fixed order, or the error on which the stage fails before any command
/// runs. Both URLs are required; their absence is a configuration error.
pub fn plan_remote_adds(
    inside_repo: bool,
    existing: &Vec<String>,
    origin_url: Option<String>,
    mirror_url: Option<String>,
) -> (r: GitResult<Vec<RemoteAdd>>)
    ensures
        !inside_repo ==> r matches Err(GitError::NotAGitRepository),
        (inside_repo && origin_url is None ==> (r matches Err(GitError::CommandFailed(m))
            && m@ == "origin_url is required"@)),
        (inside_repo && origin_url is Some && mirror_url is None ==> (r matches Err(
            GitError::CommandFailed(m),
        ) && m@ == "mirror_url is required"@)),
        inside_repo ==> (origin_url matches Some(ou) ==> (mirror_url matches Some(mu) ==> (
        r matches Ok(plan) && plan.deep_view() == planned_adds(existing.deep_view(), ou@, mu@)))),
{
    if !inside_repo {
        return Err(GitError::NotAGitRepository);
    }
    let ou = match origin_url {
        Some(u) => u,
        None => {
            return Err(GitError::CommandFailed(String::from_str("origin_url is required")));
        },
    };
    let mu = match mirror_url {
        Some(u) => u,
        None => {
            return Err(GitError::CommandFailed(String::from_str("mirror_url is required")));
        },
    };
    let mut plan: Vec<RemoteAdd> = Vec::new();
    if !has_remote(existing, "origin") {
        plan.push(RemoteAdd { name: String::from_str("origin"), url: ou });
    }
    if !has_remote(existing, "mirror") {
        plan.push(RemoteAdd { name: String::from_str("mirror"), url: mu });
    }
    proof {
        assert(plan.deep_view() =~= planned_adds(existing.deep_view(), ou@, mu@));
    }
    Ok(plan)
}

/// Law: on a repository with neither well-known remote, registering plans
/// exactly the two adds — "origin" with the first URL, then "mirror" with the
/// second.
pub proof fn lemma_register_adds_both(
    existing: Seq<Seq<char>>,
    origin_url: Seq<char>,
    mirror_url: Seq<char>,
)
    requires
        !existing.contains("origin"@),
        !existing.contains("mirror"@),
    ensures
        planned_adds(existing, origin_url, mirror_url) =~= seq![
            ("origin"@, origin_url),
            ("mirror"@, mirror_url),
        ],
{
}

/// Law: a remote that already exists is skipped — when "origin" exists and
/// "mirror" does not, only the mirror add is planned, and no planned command
/// names "origin", so the existing remote is left unmodified.
pub proof fn lemma_register_skips_existing(
    existing: Seq<Seq<char>>,
    origin_url: Seq<char>,
    mirror_url: Seq<char>,
)
    requires
        existing.contains("origin"@),
        !existing.contains("mirror"@),
    ensures
        planned_adds(existing, origin_url, mirror_url) =~= seq![("mirror"@, mirror_url)],
        forall|k: int|
            0 <= k < planned_adds(existing, origin_url, mirror_url).len() ==> planned_adds(
                existing,
                origin_url,
                mirror_url,
            )[k].0 != "origin"@,
{
    reveal_strlit("origin");
    reveal_strlit("mirror");
    assert("mirror"@[0] != "origin"@[0]);
}

/// Law: when both remotes already exist, nothing is planned at all and the
/// stage succeeds having added nothing.
pub proof fn lemma_register_nothing_to_add(
    existing: Seq<Seq<char>>,
    origin_url: Seq<char>,
    mirror_url: Seq<char>,
)
    requires
        existing.contains("origin"@),
        existing.contains("mirror"@),
    ensures
        planned_adds(existing, origin_url, mirror_url) =~= Seq::<(Seq<char>, Seq<char>)>::empty(),
{
}

/// The result of one `git remote add <name> <url>` invocation: any failure
/// aborts the stage, and a later add is never attempted after it.
pub fn interpret_add_outcome(name: &str, outcome: &CmdOutcome) -> (r: GitResult<()>)
    ensures
        r is Ok <==> outcome is Success,
        (outcome matches CmdOutcome::Failure { stderr } ==> (r matches Err(
            GitError::CommandFailed(m),
        ) && m@ == "Error adding remote '"@ + name@ + "': "@ + stderr@)),
        (outcome matches CmdOutcome::SpawnError { message } ==> (r matches Err(
            GitError::CommandFailed(m),
        ) && m@ == "Error adding remote '"@ + name@ + "': "@ + message@)),
{
    match outcome {
        CmdOutcome::Success { .. } => Ok(()),
        CmdOutcome::Failure { stderr } => Err(
            GitError::CommandFailed(
                String::from_str("Error adding remote '").concat(name).concat("': ").concat(
                    stderr.as_str(),
                ),
            ),
        ),
        CmdOutcome::SpawnError { message } => Err(
            GitError::CommandFailed(
                String::from_str("Error adding remote '").concat(name).concat("': ").concat(
                    message.as_str(),
                ),
            ),
        ),
    }
}

/// Checks the push stage preconditions: inside a repository, with both
/// well-known remotes configured. Fails naming the first missing remote,
/// "origin" checked before "mirror", before any further command runs.
pub fn check_push_remotes(inside_repo: bool, existing: &Vec<String>) -> (r: GitResult<()>)
    ensures
        !inside_repo ==> r matches Err(GitError::NotAGitRepository),
        (inside_repo && !existing.deep_view().contains("origin"@) ==> (r matches Err(
            GitError::RemoteNotFound(n),
        ) && n@ == "origin"@)),
        (inside_repo && existing.deep_view().contains("origin"@)
            && !existing.deep_view().contains("mirror"@) ==> (r matches Err(
            GitError::RemoteNotFound(n),
        ) && n@ == "mirror"@)),
        (inside_repo && existing.deep_view().contains("origin"@)
            && existing.deep_view().contains("mirror"@) ==> r is Ok),
{
    if !inside_repo {
        return Err(GitError::NotAGitRepository);
    }
    if !has_remote(existing, "origin") {
        return Err(GitError::RemoteNotFound(String::from_str("origin")));
    }
    if !has_remote(existing, "mirror") {
        return Err(GitError::RemoteNotFound(String::from_str("mirror")));
    }
    Ok(())
}

/// One planned `git push <remote> <branch>` invocation.
#[derive(Debug)]
pub struct PushCmd {
    pub remote: String,
    pub branch: String,
}

impl View for PushCmd {
    type V = (Seq<char>, Seq<char>);

    open spec fn view(&self) -> (Seq<char>, Seq<char>) {
        (self.remote@, self.branch@)
    }
}

impl DeepView for PushCmd {
    type V = (Seq<char>, Seq<char>);

    open spec fn deep_view(&self) -> (Seq<char>, Seq<char>) {
        self.view()
    }
}

/// The pushes the push stage runs once its preconditions hold and the current
/// branch is resolved: the same branch to "origin" first, then to "mirror".
pub open spec fn planned_pushes(branch: Seq<char>) -> Seq<(Seq<char>, Seq<char>)> {
    seq![("origin"@, branch), ("mirror"@, branch)]
}

/// The push commands for the resolved branch, in the fixed order "origin"
/// before "mirror".
pub fn plan_pushes(branch: &str) -> (r: Vec<PushCmd>)
    ensures
        r.deep_view() == planned_pushes(branch@),
{
    let mut r: Vec<PushCmd> = Vec::new();
    r.push(PushCmd { remote: String::from_str("origin"), branch: branch.to_owned() });
    r.push(PushCmd { remote: String::from_str("mirror"), branch: branch.to_owned() });
    proof {
        assert(r.deep_view() =~= planned_pushes(branch@));
    }
    r
}

/// The current branch name from a `git rev-parse --abbrev-ref HEAD` outcome:
/// the trimmed output on success; a non-zero exit (a detached HEAD or an
/// unborn branch) fails the whole push operation before any push runs.
pub fn interpret_branch_outcome(outcome: &CmdOutcome) -> (r: GitResult<String>)
    ensures
        (outcome matches CmdOutcome::Success { stdout } ==> (r matches Ok(b) && b@ == spec_trim(
            stdout@,
        ))),
        (outcome matches CmdOutcome::Failure { .. } ==> (r matches Err(GitError::CommandFailed(m))
            && m@ == "Could not determine current branch. Make sure you're on a branch."@)),
        (outcome matches CmdOutcome::SpawnError { message } ==> (r matches Err(
            GitError::CommandFailed(m),
        ) && m@ == "Error determining current branch: "@ + message@)),
{
    match outcome {
        CmdOutcome::Success { stdout } => Ok(trim_line(stdout.as_str()).to_owned()),
        CmdOutcome::Failure { .. } => Err(
            GitError::CommandFailed(
                String::from_str(
                    "Could not determine current branch. Make sure you're on a branch.",
                ),
            ),
        ),
        CmdOutcome::SpawnError { message } => Err(
            GitError::CommandFailed(
                String::from_str("Error determining current branch: ").concat(message.as_str()),
            ),
        ),
    }
}

/// The result of one `git push <remote> <branch>` invocation: a failed push
/// to "origin" aborts the operation, and the push to "mirror" is never
/// attempted after it.
pub fn interpret_push_outcome(remote: &str, outcome: &CmdOutcome) -> (r: GitResult<()>)
    ensures
        r is Ok <==> outcome is Success,
        (outcome matches CmdOutcome::Failure { stderr } ==> (r matches Err(
            GitError::CommandFailed(m),
        ) && m@ == "Error pushing to "@ + remote@ + ": "@ + stderr@)),
        (outcome matches CmdOutcome::SpawnError { message } ==> (r matches Err(
            GitError::CommandFailed(m),
        ) && m@ == "Error pushing to "@ + remote@ + ": "@ + message@)),
{
    match outcome {
        CmdOutcome::Success { .. } => Ok(()),
        CmdOutcome::Failure { stderr } => Err(
            GitError::CommandFailed(
                String::from_str("Error pushing to ").concat(remote).concat(": ").concat(
                    stderr.as_str(),
                ),
            ),
        ),
        CmdOutcome::SpawnError { message } => Err(
            GitError::CommandFailed(
                String::from_str("Error pushing to ").concat(remote).concat(": ").concat(
                    message.as_str(),
                ),
            ),
        ),
    }
}

} // verus!
