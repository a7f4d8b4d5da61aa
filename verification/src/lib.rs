//! Decision logic for a small git workflow tool: initializing a repository,
//! registering the two well-known remotes "origin" and "mirror", and pushing
//! the current branch to both.
//!
//! The library holds the verified core: interpreting the outcome of each
//! external git command and deciding what to do next. Spawning the commands,
//! parsing the command line and prompting for URLs are left to the host
//! program around the library.

pub mod cli;
pub mod command;
pub mod git_helpers;

pub use cli::Cli;
pub use command::CmdOutcome;
pub use git_helpers::GitError;
pub use git_helpers::GitResult;
