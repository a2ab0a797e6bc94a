//! The command line with which the synchronisation tool is started.

use vstd::prelude::*;
use vstd::string::StringExecFns;
use crate::progress::ParserVariant;
use crate::text::{chars_of, string_of, trim_end, trim_end_in_place};

verus! {

/// The interval at which the tool reports its statistics.
pub const STATS_INTERVAL: &'static str = "500ms";

/// How many files the tool transfers at a time.
pub const TRANSFERS: &'static str = "4";

/// How many files the tool compares at a time.
pub const CHECKERS: &'static str = "8";

/// The period, in milliseconds, after which a silent transfer looks at the
/// cancellation signal again.
pub const CANCEL_POLL_MILLIS: u64 = 200;

/// `path` as the tool wants a directory: with exactly one slash at its end.
pub open spec fn directory_argument(path: Seq<char>) -> Seq<char> {
    trim_end(path, '/').push('/')
}

/// The folder below `destination` that holds the backup of the session
/// called `session_name`.
pub open spec fn session_folder(destination: Seq<char>, session_name: Seq<char>) -> Seq<char> {
    directory_argument(destination) + session_name
}

/// The flags that make the tool report in the layout of `variant`.
pub open spec fn reporting_flags(variant: ParserVariant) -> Seq<Seq<char>> {
    match variant {
        ParserVariant::FreeText => seq!["-P"@],
        ParserVariant::StructuredLog => seq!["--use-json-log"@, "--stats-log-level"@, "NOTICE"@],
    }
}

/// The arguments of a transfer from `source` to `destination`: the `sync`
/// command, which makes the destination a mirror of the source and so
/// deletes there what the source lacks; the two directories; a comparison of
/// all files before any is transferred; the reporting flags of `variant`;
/// the statistics interval; and the bounds on simultaneous transfers and
/// comparisons.
pub open spec fn invocation(
    source: Seq<char>,
    destination: Seq<char>,
    variant: ParserVariant,
) -> Seq<Seq<char>> {
    seq!["sync"@, directory_argument(source), directory_argument(destination), "--check-first"@]
        + reporting_flags(variant) + seq![
        "--stats"@,
        STATS_INTERVAL@,
        "--transfers"@,
        TRANSFERS@,
        "--checkers"@,
        CHECKERS@,
    ]
}

/// `path` with exactly one slash at its end.
pub fn as_directory(path: &str) -> (directory: String)
    ensures
        directory@ == directory_argument(path@),
{
    let mut chars = chars_of(path);
    trim_end_in_place(&mut chars, '/');
    chars.push('/');
    string_of(&chars)
}

/// The folder below `destination` for the session called `session_name`.
pub fn session_folder_of(destination: &str, session_name: &str) -> (folder: String)
    ensures
        folder@ == session_folder(destination@, session_name@),
{
    let mut folder = as_directory(destination);
    folder.append(session_name);
    folder
}

/// The arguments with which the tool is started for one transfer.
pub fn build_invocation(source: &str, destination: &str, variant: ParserVariant) -> (arguments:
    Vec<String>)
    ensures
        arguments.deep_view() == invocation(source@, destination@, variant),
{
    let mut arguments: Vec<String> = Vec::new();
    arguments.push(String::from_str("sync"));
    arguments.push(as_directory(source));
    arguments.push(as_directory(destination));
    arguments.push(String::from_str("--check-first"));
    match variant {
        ParserVariant::FreeText => {
            arguments.push(String::from_str("-P"));
        },
        ParserVariant::StructuredLog => {
            arguments.push(String::from_str("--use-json-log"));
            arguments.push(String::from_str("--stats-log-level"));
            arguments.push(String::from_str("NOTICE"));
        },
    }
    arguments.push(String::from_str("--stats"));
    arguments.push(String::from_str(STATS_INTERVAL));
    arguments.push(String::from_str("--transfers"));
    arguments.push(String::from_str(TRANSFERS));
    arguments.push(String::from_str("--checkers"));
    arguments.push(String::from_str(CHECKERS));
    arguments
}

} // verus!
