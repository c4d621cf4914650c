use vstd::prelude::*;

use crate::cli::{GitArgs, GitSubcommand};
use crate::text::{
    byte_len, byte_prefix, byte_suffix, contains, find, is_byte_boundary, lemma_find_from_occurs,
    lines_of, occurs, split_once, strip_cr, texts, trim, trimmed, utf8_width,
};

verus! {

/// What a `git commit` run came to, judged from its error output.
#[derive(Debug, Clone, Copy, PartialEq, Eq, Structural)]
pub enum CommitOutcome {
    /// The commit was made; git reports it on its error output, if at all.
    Created,
    /// There was nothing to commit.
    NothingToCommit,
    /// The commit failed for another reason.
    Failed,
}

/// What a `git push` run came to.
#[derive(Debug, Clone, Copy, PartialEq, Eq, Structural)]
pub enum PushOutcome {
    /// The push went through.
    Pushed,
    /// The remote holds commits that are not here yet.
    Rejected,
    /// The push failed for another reason.
    Failed,
}

/// Whether a commit went through, judged from git's error output: it is
/// empty, or it holds the bracketed `[branch hash]` summary.
pub fn is_commit_successful(stderr: &str) -> (r: bool)
    ensures
        r == (stderr@.len() == 0 || occurs(stderr@, seq!['[']) || occurs(stderr@, seq![']'])),
{
    proof {
        reveal_strlit("[");
        reveal_strlit("]");
        assert("["@ =~= seq!['[']);
        assert("]"@ =~= seq![']']);
    }
    stderr.is_empty() || contains(stderr, "[") || contains(stderr, "]")
}

/// Classifies a `git commit` run by its error output.
pub fn commit_outcome(stderr: &str) -> (r: CommitOutcome)
    ensures
        r == (if stderr@.len() == 0 || occurs(stderr@, seq!['[']) || occurs(stderr@, seq![']']) {
            CommitOutcome::Created
        } else if occurs(stderr@, "nothing to commit"@) {
            CommitOutcome::NothingToCommit
        } else {
            CommitOutcome::Failed
        }),
{
    if is_commit_successful(stderr) {
        CommitOutcome::Created
    } else if contains(stderr, "nothing to commit") {
        CommitOutcome::NothingToCommit
    } else {
        CommitOutcome::Failed
    }
}

/// Classifies a `git push` run by its exit status and error output.
pub fn push_outcome(succeeded: bool, stderr: &str) -> (r: PushOutcome)
    ensures
        r == (if succeeded {
            PushOutcome::Pushed
        } else if occurs(stderr@, "Updates were rejected"@) {
            PushOutcome::Rejected
        } else {
            PushOutcome::Failed
        }),
{
    if succeeded {
        PushOutcome::Pushed
    } else if contains(stderr, "Updates were rejected") {
        PushOutcome::Rejected
    } else {
        PushOutcome::Failed
    }
}

/// The git operations that one run of the `git` command performs, in the
/// order stage, commit, push, pull.
#[derive(Debug, Clone, Copy, PartialEq, Eq, Structural)]
pub struct GitPlan {
    /// Compose the commit message by prompts rather than take `--message`.
    pub interactive: bool,
    /// Stage all changes before committing.
    pub stage: bool,
    /// Push after committing.
    pub push: bool,
    /// Pull after committing (and pushing).
    pub pull: bool,
    /// Pull with `--rebase`.
    pub rebase: bool,
}

/// The operations that the options ask for.  The top-level flags and those
/// of the interactive subcommand add up, except `rebase`, which only the
/// top-level flag sets; a top-level `rebase` alone also asks for a pull.
pub fn git_plan(args: &GitArgs) -> (r: GitPlan)
    ensures
        r.interactive == args.subcommand is Some,
        r.stage == (args.add || args.subcommand matches Some(GitSubcommand::Cz { add: true, .. })),
        r.push == (args.push || args.subcommand matches Some(GitSubcommand::Cz { push: true, .. })),
        r.pull == (args.pull || args.rebase || args.subcommand matches Some(
            GitSubcommand::Cz { pull: true, .. },
        )),
        r.rebase == args.rebase,
{
    match &args.subcommand {
        Some(GitSubcommand::Cz { add, push, pull, rebase: _ }) => GitPlan {
            interactive: true,
            stage: args.add || *add,
            push: args.push || *push,
            pull: args.pull || args.rebase || *pull,
            rebase: args.rebase,
        },
        None => GitPlan {
            interactive: false,
            stage: args.add,
            push: args.push,
            pull: args.pull || args.rebase,
            rebase: args.rebase,
        },
    }
}

/// A conventional commit message: `type: summary`, or `type(scope):
/// summary` with a scope, then the longer description and the breaking
/// change note, each after a blank line, where given.
pub open spec fn commit_message(
    type_label: Seq<char>,
    scope: Seq<char>,
    short_desc: Seq<char>,
    long_desc: Seq<char>,
    breaking_label: Option<Seq<char>>,
) -> Seq<char> {
    let head = if scope.len() == 0 {
        type_label + seq![':', ' '] + short_desc
    } else {
        type_label + seq!['('] + scope + seq![')', ':', ' '] + short_desc
    };
    let body = if long_desc.len() == 0 {
        head
    } else {
        head + seq!['\n', '\n'] + long_desc
    };
    match breaking_label {
        Some(note) => body + seq!['\n', '\n'] + note,
        None => body,
    }
}

/// Builds a conventional commit message.  The type label and the breaking
/// change note come as they are to be shown (the caller may colour them);
/// `None` for the note means no breaking change.
pub fn build_commit_message(
    type_label: &str,
    scope: &str,
    short_desc: &str,
    long_desc: &str,
    breaking_label: Option<&str>,
) -> (r: String)
    ensures
        r@ == commit_message(
            type_label@,
            scope@,
            short_desc@,
            long_desc@,
            match breaking_label {
                Some(b) => Some(b@),
                None => None,
            },
        ),
{
    proof {
        reveal_strlit(": ");
        reveal_strlit("(");
        reveal_strlit("): ");
        reveal_strlit("\n\n");
        assert(": "@ =~= seq![':', ' ']);
        assert("("@ =~= seq!['(']);
        assert("): "@ =~= seq![')', ':', ' ']);
        assert("\n\n"@ =~= seq!['\n', '\n']);
    }
    let mut message = String::from_str(type_label);
    if scope.is_empty() {
        message.append(": ");
    } else {
        message.append("(");
        message.append(scope);
        message.append("): ");
    }
    message.append(short_desc);
    if !long_desc.is_empty() {
        message.append("\n\n");
        message.append(long_desc);
    }
    match breaking_label {
        Some(note) => {
            message.append("\n\n");
            message.append(note);
        },
        None => {},
    }
    message
}

/// The longest summary line that the interactive commit accepts, in bytes.
pub const MAX_SUMMARY_LEN: usize = 75;

/// Whether a commit summary is short enough: at most `MAX_SUMMARY_LEN`
/// bytes of UTF-8.
pub fn summary_fits(short_desc: &str) -> (r: bool)
    ensures
        r == (short_desc.len() <= MAX_SUMMARY_LEN),
{
    short_desc.len() <= MAX_SUMMARY_LEN
}

/// How a file changed, by the two status letters of `git status --porcelain`.
#[derive(Debug, Clone, Copy, PartialEq, Eq, Structural)]
pub enum FileChange {
    Modified,
    Added,
    Deleted,
}

/// Whether a status line can be cut where its fields are read: a line of
/// at least three bytes has character boundaries at bytes 2 and 3.
pub open spec fn status_cuts_ok(line: Seq<char>) -> bool {
    byte_len(line) >= 3 ==> is_byte_boundary(line, 2) && is_byte_boundary(line, 3)
}

/// The change that a porcelain status line reports: a line of at least
/// three bytes whose first two bytes, the status letters, hold `M`, else
/// `A`, else `D`.
pub open spec fn change_of(line: Seq<char>) -> Option<FileChange> {
    let status = byte_prefix(line, 2);
    if byte_len(line) < 3 {
        None
    } else if status.contains('M') {
        Some(FileChange::Modified)
    } else if status.contains('A') {
        Some(FileChange::Added)
    } else if status.contains('D') {
        Some(FileChange::Deleted)
    } else {
        None
    }
}

/// The path that a porcelain status line names: what follows its third
/// byte, trimmed.
pub open spec fn path_of(line: Seq<char>) -> Seq<char> {
    trimmed(byte_suffix(line, 3))
}

/// Whether `c` is an ASCII character, one byte in UTF-8.
pub open spec fn is_ascii_char(c: char) -> bool {
    (c as u32) < 0x80
}

/// A status line that can be cut either begins with three ASCII
/// characters, whose first two are the status letters and after which the
/// path starts, or reports no change.
proof fn lemma_status_line(line: Seq<char>)
    requires
        status_cuts_ok(line),
    ensures
        line.len() >= 3 && is_ascii_char(line[0]) && is_ascii_char(line[1]) && is_ascii_char(
            line[2],
        ) ==> {
            &&& byte_len(line) >= 3
            &&& byte_prefix(line, 2) == line.take(2)
            &&& byte_suffix(line, 3) == line.skip(3)
        },
        !(line.len() >= 3 && is_ascii_char(line[0]) && is_ascii_char(line[1]) && is_ascii_char(
            line[2],
        )) ==> change_of(line) is None,
{
    if line.len() >= 3 && is_ascii_char(line[0]) && is_ascii_char(line[1]) && is_ascii_char(line[2]) {
        let r1 = line.drop_first();
        let r2 = r1.drop_first();
        let r3 = r2.drop_first();
        assert(byte_len(line) == 1 + byte_len(r1));
        assert(byte_len(r1) == 1 + byte_len(r2));
        assert(byte_len(r2) == 1 + byte_len(r3));
        assert(byte_prefix(r2, 0) =~= Seq::<char>::empty());
        assert(byte_prefix(r1, 1) =~= seq![line[1]]);
        assert(byte_prefix(line, 2) =~= line.take(2));
        assert(byte_suffix(r3, 0) == r3);
        assert(byte_suffix(r2, 1) == r3);
        assert(byte_suffix(r1, 2) == r3);
        assert(r3 =~= line.skip(3));
    } else if byte_len(line) >= 3 {
        let r1 = line.drop_first();
        assert(is_byte_boundary(line, 2));
        if utf8_width(line[0]) == 2 {
            assert(byte_prefix(r1, 0) =~= Seq::<char>::empty());
            assert(byte_prefix(line, 2) =~= seq![line[0]]);
            assert(('M' as u32) < 0x80 && ('A' as u32) < 0x80 && ('D' as u32) < 0x80);
            assert(!byte_prefix(line, 2).contains('M'));
            assert(!byte_prefix(line, 2).contains('A'));
            assert(!byte_prefix(line, 2).contains('D'));
        } else {
            let r2 = r1.drop_first();
            assert(utf8_width(line[0]) == 1);
            assert(is_byte_boundary(r1, 1));
            assert(utf8_width(r1[0]) == 1);
            assert(is_byte_boundary(line, 3));
            assert(is_byte_boundary(r1, 2));
            assert(is_byte_boundary(r2, 1));
            assert(utf8_width(r2[0]) == 1);
            assert(line[1] == r1[0] && line[2] == r2[0]);
        }
    }
}

/// The paths of the lines that report a change of this kind, in order.
pub open spec fn changed(lines: Seq<Seq<char>>, kind: FileChange) -> Seq<Seq<char>>
    decreases lines.len(),
{
    if lines.len() == 0 {
        Seq::empty()
    } else {
        let earlier = changed(lines.drop_last(), kind);
        if change_of(lines.last()) == Some(kind) {
            earlier.push(path_of(lines.last()))
        } else {
            earlier
        }
    }
}

/// The changed files of a working tree, by kind of change.
#[derive(Debug, PartialEq, Eq)]
pub struct ChangedFiles {
    pub modified: Vec<String>,
    pub added: Vec<String>,
    pub deleted: Vec<String>,
}

/// The change and the path that one status line reports, if any.
fn status_entry(line: &str) -> (r: Option<(FileChange, String)>)
    requires
        status_cuts_ok(line@),
    ensures
        match r {
            Some((kind, path)) => change_of(line@) == Some(kind) && path@ == path_of(line@),
            None => change_of(line@) is None,
        },
{
    proof {
        lemma_status_line(line@);
    }
    let n = line.unicode_len();
    if n < 3 {
        return None;
    }
    let first = line.get_char(0);
    let second = line.get_char(1);
    let third = line.get_char(2);
    if !((first as u32) < 0x80 && (second as u32) < 0x80 && (third as u32) < 0x80) {
        return None;
    }
    let ghost status = line@.take(2);
    assert(status =~= seq![first, second]);
    let kind = if first == 'M' || second == 'M' {
        assert(status.contains('M')) by {
            if first == 'M' { assert(status[0] == 'M'); } else { assert(status[1] == 'M'); }
        }
        FileChange::Modified
    } else if first == 'A' || second == 'A' {
        assert(!status.contains('M'));
        assert(status.contains('A')) by {
            if first == 'A' { assert(status[0] == 'A'); } else { assert(status[1] == 'A'); }
        }
        FileChange::Added
    } else if first == 'D' || second == 'D' {
        assert(!status.contains('M') && !status.contains('A'));
        assert(status.contains('D')) by {
            if first == 'D' { assert(status[0] == 'D'); } else { assert(status[1] == 'D'); }
        }
        FileChange::Deleted
    } else {
        assert(!status.contains('M') && !status.contains('A') && !status.contains('D'));
        return None;
    };
    let rest = line.substring_char(3, n);
    assert(rest@ =~= line@.skip(3));
    Some((kind, trim(rest).to_owned()))
}

/// Sorts the output of `git status --porcelain` into modified, added and
/// deleted files.  Lines are those of `str::lines`; a line's first two
/// bytes are its status letters and its path starts at byte 3; lines of
/// another kind, or shorter than three bytes, are skipped.  Every line of
/// three bytes or more must have character boundaries at bytes 2 and 3.
pub fn changed_files(status: &str) -> (r: ChangedFiles)
    requires
        forall|i: int|
            0 <= i < lines_of(status@).len() ==> status_cuts_ok(#[trigger] lines_of(status@)[i]),
    ensures
        texts(r.modified@) == changed(lines_of(status@), FileChange::Modified),
        texts(r.added@) == changed(lines_of(status@), FileChange::Added),
        texts(r.deleted@) == changed(lines_of(status@), FileChange::Deleted),
{
    let mut modified: Vec<String> = Vec::new();
    let mut added: Vec<String> = Vec::new();
    let mut deleted: Vec<String> = Vec::new();
    let mut rest: &str = status;
    let ghost mut done: Seq<Seq<char>> = Seq::empty();
    proof {
        reveal_strlit("\n");
        reveal_strlit("");
        assert("\n"@ =~= seq!['\n']);
        assert(lines_of(status@) =~= done + lines_of(rest@));
    }
    while !rest.is_empty()
        invariant
            "\n"@ == seq!['\n'],
            ""@.len() == 0,
            lines_of(status@) == done + lines_of(rest@),
            forall|i: int|
                0 <= i < lines_of(status@).len() ==> status_cuts_ok(#[trigger] lines_of(status@)[i]),
            texts(modified@) == changed(done, FileChange::Modified),
            texts(added@) == changed(done, FileChange::Added),
            texts(deleted@) == changed(done, FileChange::Deleted),
        decreases rest@.len(),
    {
        let (piece, next, ended) = match split_once(rest, "\n") {
            Some((piece, next)) => (piece, next, true),
            None => (rest, "", false),
        };
        let line = if ended {
            let n = piece.unicode_len();
            if n > 0 && piece.get_char(n - 1) == '\r' {
                piece.substring_char(0, n - 1)
            } else {
                piece
            }
        } else {
            piece
        };
        proof {
            match find(rest@, seq!['\n']) {
                Some(k) => lemma_find_from_occurs(rest@, seq!['\n'], 0),
                None => {},
            }
            if ended {
                assert(line@ =~= strip_cr(piece@));
            }
            assert(lines_of(rest@) == seq![line@] + lines_of(next@));
            assert(lines_of(status@) =~= done.push(line@) + lines_of(next@));
            assert(lines_of(status@)[done.len() as int] == line@);
        }
        match status_entry(line) {
            Some((FileChange::Modified, path)) => modified.push(path),
            Some((FileChange::Added, path)) => added.push(path),
            Some((FileChange::Deleted, path)) => deleted.push(path),
            None => {},
        }
        proof {
            let grown = done.push(line@);
            assert(grown.drop_last() =~= done);
            assert(texts(modified@) =~= changed(grown, FileChange::Modified));
            assert(texts(added@) =~= changed(grown, FileChange::Added));
            assert(texts(deleted@) =~= changed(grown, FileChange::Deleted));
            done = grown;
        }
        rest = next;
    }
    proof {
        assert(done + lines_of(rest@) =~= done);
    }
    ChangedFiles { modified, added, deleted }
}

/// The kinds of change that a conventional commit declares.
#[derive(Debug, Clone, Copy, PartialEq, Eq, Structural)]
pub enum CommitKind {
    Feat,
    Fix,
    Docs,
    Style,
    Refactor,
    Perf,
    Test,
    Chore,
}

impl CommitKind {
    /// The type word that opens the commit message.
    pub open spec fn spec_label(self) -> Seq<char> {
        match self {
            CommitKind::Feat => "feat"@,
            CommitKind::Fix => "fix"@,
            CommitKind::Docs => "docs"@,
            CommitKind::Style => "style"@,
            CommitKind::Refactor => "refactor"@,
            CommitKind::Perf => "perf"@,
            CommitKind::Test => "test"@,
            CommitKind::Chore => "chore"@,
        }
    }

    /// The type word that opens the commit message.
    pub fn label(self) -> (r: &'static str)
        ensures
            r@ == self.spec_label(),
    {
        match self {
            CommitKind::Feat => "feat",
            CommitKind::Fix => "fix",
            CommitKind::Docs => "docs",
            CommitKind::Style => "style",
            CommitKind::Refactor => "refactor",
            CommitKind::Perf => "perf",
            CommitKind::Test => "test",
            CommitKind::Chore => "chore",
        }
    }

    /// What the kind of change means, as offered in the prompt.
    pub open spec fn spec_description(self) -> Seq<char> {
        match self {
            CommitKind::Feat => "A new feature"@,
            CommitKind::Fix => "A bug fix"@,
            CommitKind::Docs => "Documentation only changes"@,
            CommitKind::Style => "Changes that do not affect meaning"@,
            CommitKind::Refactor => "A code change that neither fixes a bug nor adds a feature"@,
            CommitKind::Perf => "A code change that improves performance"@,
            CommitKind::Test => "Adding missing or correcting tests"@,
            CommitKind::Chore => "Changes to build process or tools"@,
        }
    }

    /// What the kind of change means, as offered in the prompt.
    pub fn description(self) -> (r: &'static str)
        ensures
            r@ == self.spec_description(),
    {
        match self {
            CommitKind::Feat => "A new feature",
            CommitKind::Fix => "A bug fix",
            CommitKind::Docs => "Documentation only changes",
            CommitKind::Style => "Changes that do not affect meaning",
            CommitKind::Refactor => "A code change that neither fixes a bug nor adds a feature",
            CommitKind::Perf => "A code change that improves performance",
            CommitKind::Test => "Adding missing or correcting tests",
            CommitKind::Chore => "Changes to build process or tools",
        }
    }
}

/// The kinds of change, in the order the prompt offers them.
pub open spec fn commit_kind_order() -> Seq<CommitKind> {
    seq![
        CommitKind::Feat,
        CommitKind::Fix,
        CommitKind::Docs,
        CommitKind::Style,
        CommitKind::Refactor,
        CommitKind::Perf,
        CommitKind::Test,
        CommitKind::Chore,
    ]
}

/// The kinds of change, in the order the prompt offers them.
pub fn commit_kinds() -> (r: Vec<CommitKind>)
    ensures
        r@ == commit_kind_order(),
{
    let r = vec![
        CommitKind::Feat,
        CommitKind::Fix,
        CommitKind::Docs,
        CommitKind::Style,
        CommitKind::Refactor,
        CommitKind::Perf,
        CommitKind::Test,
        CommitKind::Chore,
    ];
    assert(r@ =~= commit_kind_order());
    r
}

} // verus!
