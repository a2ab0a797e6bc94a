//! Progress lines in the tool's free-text layout.

use vstd::prelude::*;
use crate::percent::{capped_hundredths, Percent, HUNDREDTHS_PER_POINT};
use crate::progress::{FileCounts, ProgressSample, ProgressSampleModel};
use crate::text::{decimal_value, parse_decimal};

verus! {

/// The byte-progress clause: after the marker, an amount with its unit, a
/// slash, the total with its unit, and the percentage, which is the first
/// group; the rate, where one follows, is the second.
pub const BYTES_PATTERN: &'static str =
    r"Transferred:\s+[\d.]+\s*[A-Za-z]+\s*/\s*[\d.]+\s*[A-Za-z]+,\s*(\d+)%(?:,\s*([\d.]+\s*[A-Za-z]+/s))?";

/// The file-count clause: after the marker, the files done, a slash, the
/// files in all, and a percentage; the two counts are the groups.
pub const FILES_PATTERN: &'static str = r"Transferred:\s+(\d+)\s*/\s*(\d+),\s*\d+%";

/// The capture groups of the first match of the regular expression
/// `pattern` in `text`, as `regex::Regex::captures` reports them on the
/// expression that `regex::Regex::new` compiles from `pattern`: group 0 is
/// the whole match, and a group that took no part in the match is `None`.
/// The result is `None` where `pattern` does not compile or `text` holds no
/// match.
pub uninterp spec fn regex_captures(pattern: Seq<char>, text: Seq<char>) -> Option<
    Seq<Option<Seq<char>>>,
>;

/// Compiles `pattern` with `regex::Regex::new` and searches `text` with
/// `regex::Regex::captures`; each group found is copied out as a string.
/// The contract gives the outcome its name and claims nothing else of it.
#[verifier::external_body]
fn capture_groups(pattern: &str, text: &str) -> (groups: Option<Vec<Option<String>>>)
    ensures
        groups.deep_view() == regex_captures(pattern@, text@),
{
    let expression = regex::Regex::new(pattern).ok()?;
    let found = expression.captures(text)?;
    Some(found.iter().map(|group| group.map(|part| part.as_str().to_string())).collect())
}

/// The text of group `index`, where there was a match and the group took
/// part in it.
pub open spec fn group_text(groups: Option<Seq<Option<Seq<char>>>>, index: int) -> Option<
    Seq<char>,
> {
    match groups {
        Some(found) => if 0 <= index < found.len() {
            found[index]
        } else {
            None
        },
        None => None,
    }
}

/// The file count that `digits` spell; zero where they spell none that fits
/// a `u32`.
pub open spec fn count_value(digits: Seq<char>) -> u32 {
    match decimal_value(digits) {
        Some(value) => if value <= u32::MAX {
            value as u32
        } else {
            0
        },
        None => 0,
    }
}

/// What the byte-progress clause tells: the percentage in hundredths of a
/// percentage point, held at 100, and the rate, empty if none was given.
/// The clause tells nothing unless its first group spells a number.
pub open spec fn bytes_clause(groups: Option<Seq<Option<Seq<char>>>>) -> Option<(nat, Seq<char>)> {
    match group_text(groups, 1) {
        Some(digits) => match decimal_value(digits) {
            Some(points) => Some(
                (
                    capped_hundredths(points * HUNDREDTHS_PER_POINT as nat),
                    match group_text(groups, 2) {
                        Some(rate) => rate,
                        None => Seq::empty(),
                    },
                ),
            ),
            None => None,
        },
        None => None,
    }
}

/// What the file-count clause tells: the two counts.
pub open spec fn files_clause(groups: Option<Seq<Option<Seq<char>>>>) -> Option<FileCounts> {
    match (group_text(groups, 1), group_text(groups, 2)) {
        (Some(done), Some(total)) => Some(
            FileCounts { transferred: count_value(done), total: count_value(total) },
        ),
        _ => None,
    }
}

/// The sample of a line whose byte-progress clause matched as `bytes_groups`
/// and whose file-count clause matched as `files_groups`. The two clauses
/// are independent: a line may hold one, both or neither, and holds a sample
/// unless it holds neither.
pub open spec fn free_text_sample(
    bytes_groups: Option<Seq<Option<Seq<char>>>>,
    files_groups: Option<Seq<Option<Seq<char>>>>,
) -> Option<ProgressSampleModel> {
    let bytes = bytes_clause(bytes_groups);
    let files = files_clause(files_groups);
    if bytes is None && files is None {
        None
    } else {
        Some(
            ProgressSampleModel {
                percent: match bytes {
                    Some(told) => Some(told.0),
                    None => None,
                },
                files,
                bytes: None,
                transfer_rate: match bytes {
                    Some(told) => told.1,
                    None => Seq::empty(),
                },
                current_file: Seq::empty(),
            },
        )
    }
}

/// The text of group `index` of a match.
fn group_at(groups: &Option<Vec<Option<String>>>, index: usize) -> (text: Option<&String>)
    ensures
        text.deep_view() == group_text(groups.deep_view(), index as int),
{
    match groups {
        Some(found) => {
            if index < found.len() {
                found[index].as_ref()
            } else {
                None
            }
        },
        None => None,
    }
}

/// The file count that `digits` spell.
fn count_from(digits: &str) -> (count: u32)
    ensures
        count == count_value(digits@),
{
    match parse_decimal(digits) {
        Some(value) => if value <= u32::MAX as u64 {
            value as u32
        } else {
            0
        },
        None => 0,
    }
}

/// The sample of a line, from the groups that its two clauses matched.
pub fn sample_from_captures(
    bytes_groups: &Option<Vec<Option<String>>>,
    files_groups: &Option<Vec<Option<String>>>,
) -> (sample: Option<ProgressSample>)
    ensures
        sample.deep_view() == free_text_sample(bytes_groups.deep_view(), files_groups.deep_view()),
{
    let mut percent: Option<Percent> = None;
    let mut transfer_rate = String::new();
    if let Some(digits) = group_at(bytes_groups, 1) {
        if let Some(points) = parse_decimal(digits.as_str()) {
            percent = Some(Percent::from_points(points));
            if let Some(rate) = group_at(bytes_groups, 2) {
                transfer_rate = rate.clone();
            }
        }
    }
    let files = match (group_at(files_groups, 1), group_at(files_groups, 2)) {
        (Some(done), Some(total)) => Some(
            FileCounts {
                transferred: count_from(done.as_str()),
                total: count_from(total.as_str()),
            },
        ),
        _ => None,
    };
    if percent.is_none() && files.is_none() {
        None
    } else {
        Some(
            ProgressSample {
                percent,
                files,
                bytes: None,
                transfer_rate,
                current_file: String::new(),
            },
        )
    }
}

/// The sample of one line of the tool's free-text output, if it holds one.
pub fn parse_free_text(line: &str) -> (sample: Option<ProgressSample>)
    ensures
        sample.deep_view() == free_text_sample(
            regex_captures(BYTES_PATTERN@, line@),
            regex_captures(FILES_PATTERN@, line@),
        ),
{
    let bytes_groups = capture_groups(BYTES_PATTERN, line);
    let files_groups = capture_groups(FILES_PATTERN, line);
    sample_from_captures(&bytes_groups, &files_groups)
}

} // verus!
