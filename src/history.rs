use vstd::prelude::*;

use crate::cli::LogArgs;
use crate::text::{begins_with, split_first, split_once, starts_with, texts};

verus! {

/// How a line of `git log` output is shown.
#[derive(Debug, PartialEq, Eq)]
pub enum LogLine {
    /// A line of the commit graph.
    Graph,
    /// A commit: its short hash and the rest of the line.
    Entry { hash: String, rest: String },
    /// Any other line, shown as it is.
    Plain,
}

/// The separator between the hash and the rest of a commit line.
pub open spec fn entry_separator() -> Seq<char> {
    seq![' ', '-', ' ']
}

/// Whether a line belongs to the commit graph: it starts with `* ` or `| `.
pub open spec fn is_graph_line(line: Seq<char>) -> bool {
    begins_with(line, seq!['*', ' ']) || begins_with(line, seq!['|', ' '])
}

/// Sorts a line of `git log` output: graph lines first, then lines that
/// split at their first ` - ` into a hash and the rest, then the others.
pub fn log_line(line: &str) -> (r: LogLine)
    ensures
        is_graph_line(line@) ==> r is Graph,
        !is_graph_line(line@) ==> match split_first(line@, entry_separator()) {
            Some((hash, rest)) => r matches LogLine::Entry { hash: h, rest: t } && h@ == hash && t@
                == rest,
            None => r is Plain,
        },
{
    proof {
        reveal_strlit("* ");
        reveal_strlit("| ");
        reveal_strlit(" - ");
        assert("* "@ =~= seq!['*', ' ']);
        assert("| "@ =~= seq!['|', ' ']);
        assert(" - "@ =~= entry_separator());
    }
    if starts_with(line, "* ") || starts_with(line, "| ") {
        LogLine::Graph
    } else {
        match split_once(line, " - ") {
            Some((hash, rest)) => LogLine::Entry { hash: hash.to_owned(), rest: rest.to_owned() },
            None => LogLine::Plain,
        }
    }
}

/// The decimal digit `d`.
pub open spec fn digit_char(d: nat) -> char {
    seq!['0', '1', '2', '3', '4', '5', '6', '7', '8', '9'][d as int]
}

/// The decimal numeral of `n`, without leading zeros.
pub open spec fn decimal(n: nat) -> Seq<char>
    decreases n,
{
    if n < 10 {
        seq![digit_char(n)]
    } else {
        decimal(n / 10).push(digit_char(n % 10))
    }
}

/// The one-character text of the digit `d`.
fn digit_text(d: usize) -> (r: &'static str)
    requires
        d < 10,
    ensures
        r@ == seq![digit_char(d as nat)],
{
    proof {
        reveal_strlit("0");
        reveal_strlit("1");
        reveal_strlit("2");
        reveal_strlit("3");
        reveal_strlit("4");
        reveal_strlit("5");
        reveal_strlit("6");
        reveal_strlit("7");
        reveal_strlit("8");
        reveal_strlit("9");
    }
    match d {
        0 => "0",
        1 => "1",
        2 => "2",
        3 => "3",
        4 => "4",
        5 => "5",
        6 => "6",
        7 => "7",
        8 => "8",
        _ => "9",
    }
}

/// Appends the decimal numeral of `n` to `s`.
fn push_decimal(s: &mut String, n: usize)
    ensures
        final(s)@ == old(s)@ + decimal(n as nat),
    decreases n,
{
    if n >= 10 {
        push_decimal(s, n / 10);
    }
    s.append(digit_text(n % 10));
    assert(old(s)@ + decimal(n as nat) =~= if n >= 10 {
        old(s)@ + decimal((n / 10) as nat) + seq![digit_char((n % 10) as nat)]
    } else {
        old(s)@ + seq![digit_char((n % 10) as nat)]
    });
}

/// The layout of one commit line: short hash, author, subject.
pub open spec fn pretty_format() -> Seq<char> {
    "--pretty=format:%C(yellow)%h%Creset - %C(bold blue)%an%Creset : %s"@
}

/// The arguments to `git` that show the history the options ask for: the
/// fixed layout, then `--oneline`, `--graph` and `-N` where asked.
pub open spec fn log_arguments(args: LogArgs) -> Seq<Seq<char>> {
    let base = seq!["log"@, pretty_format(), "--date=short"@];
    let compact = if args.compact { base.push("--oneline"@) } else { base };
    let graph = if args.graph { compact.push("--graph"@) } else { compact };
    match args.limit {
        Some(n) => graph.push(seq!['-'] + decimal(n as nat)),
        None => graph,
    }
}

/// The arguments to `git` that show the history the options ask for.
pub fn log_args(args: &LogArgs) -> (r: Vec<String>)
    ensures
        texts(r@) == log_arguments(*args),
{
    let mut r: Vec<String> = Vec::new();
    r.push(String::from_str("log"));
    r.push(String::from_str("--pretty=format:%C(yellow)%h%Creset - %C(bold blue)%an%Creset : %s"));
    r.push(String::from_str("--date=short"));
    if args.compact {
        r.push(String::from_str("--oneline"));
    }
    if args.graph {
        r.push(String::from_str("--graph"));
    }
    match args.limit {
        Some(n) => {
            proof {
                reveal_strlit("-");
                assert("-"@ =~= seq!['-']);
            }
            let mut flag = String::from_str("-");
            push_decimal(&mut flag, n);
            r.push(flag);
        },
        None => {},
    }
    assert(texts(r@) =~= log_arguments(*args));
    r
}

} // verus!
