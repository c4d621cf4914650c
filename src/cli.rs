use vstd::prelude::*;

verus! {

/// The parsed command line: one subcommand.
#[derive(Debug, PartialEq, Eq)]
pub struct CliArgs {
    pub command: Commands,
}

/// The subcommands of the tool.
#[derive(Debug, PartialEq, Eq)]
pub enum Commands {
    Git(GitArgs),
    Scan(ScanArgs),
    Docker(DockerArgs),
    Auth(AuthArgs),
    Log(LogArgs),
    Http(HttpArgs),
}

/// Options of `git`: commit with a message, optionally staging, pushing and
/// pulling around it, or compose the message interactively.
#[derive(Debug, PartialEq, Eq)]
pub struct GitArgs {
    pub message: Option<String>,
    pub push: bool,
    pub add: bool,
    pub pull: bool,
    pub rebase: bool,
    pub subcommand: Option<GitSubcommand>,
}

/// The interactive commit subcommand, with its own staging and sync flags.
#[derive(Debug, PartialEq, Eq)]
pub enum GitSubcommand {
    Cz { add: bool, push: bool, pull: bool, rebase: bool },
}

/// Options of `scan`: the path whose advisories are looked up.
#[derive(Debug, PartialEq, Eq)]
pub struct ScanArgs {
    pub path: String,
}

/// Options of `docker`.
#[derive(Debug, PartialEq, Eq)]
pub struct DockerArgs {
    pub action: DockerAction,
}

/// Options of `log`.
#[derive(Debug, PartialEq, Eq)]
pub struct LogArgs {
    pub compact: bool,
    pub limit: Option<usize>,
    pub graph: bool,
}

/// What `docker` does with an image.
#[derive(Debug, PartialEq, Eq)]
pub enum DockerAction {
    Scan { image: String },
    Push { image: String, tag: Option<String> },
}

/// Options of `auth`.
#[derive(Debug, PartialEq, Eq)]
pub struct AuthArgs {
    pub action: AuthAction,
}

/// Which kind of token `auth` checks.
#[derive(Debug, PartialEq, Eq)]
pub enum AuthAction {
    Jwt { token: String },
    Github { token: String },
}

/// Options of `http`.
#[derive(Debug, PartialEq, Eq)]
pub struct HttpArgs {
    pub action: HttpAction,
}

/// One HTTP request: the method, the URL, a body where the method takes
/// one, and raw `Name: value` header lines.
#[derive(Debug, PartialEq, Eq)]
pub enum HttpAction {
    Get { url: String, headers: Vec<String> },
    Post { url: String, body: Option<String>, headers: Vec<String> },
    Put { url: String, body: Option<String>, headers: Vec<String> },
    Patch { url: String, body: Option<String>, headers: Vec<String> },
    Delete { url: String, headers: Vec<String> },
    Head { url: String, headers: Vec<String> },
    Options { url: String, headers: Vec<String> },
}

} // verus!
