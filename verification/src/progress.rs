//! Progress samples and the records of the tool's structured log.

use vstd::prelude::*;
use crate::format::{format_speed, speed_text};
use crate::percent::{ratio_hundredths, Percent, FULL_HUNDREDTHS};

verus! {

/// The layout in which the tool reports its progress.
#[derive(Clone, Copy, Debug, PartialEq, Eq, Structural)]
pub enum ParserVariant {
    /// One structured record per line, on the error stream.
    StructuredLog,
    /// Free-text progress lines, on the standard stream.
    FreeText,
}

/// One of the two captured output streams of the tool.
#[derive(Clone, Copy, Debug, PartialEq, Eq, Structural)]
pub enum Stream {
    Standard,
    Error,
}

/// How many files have been transferred, and of how many.
#[derive(Clone, Copy, Debug, PartialEq, Eq, Structural)]
pub struct FileCounts {
    pub transferred: u32,
    pub total: u32,
}

/// What one line of the tool's output says about the transfer in flight.
///
/// A line may tell the percentage, the file counts, or both; a sample holds
/// at least one of the two.
#[derive(Clone, Debug)]
pub struct ProgressSample {
    /// The share of the work that is done, where the line tells it.
    pub percent: Option<Percent>,
    /// The file counts, where the line tells them.
    pub files: Option<FileCounts>,
    /// The bytes transferred so far, where the line tells them.
    pub bytes: Option<u64>,
    /// The rate as the tool words it; empty where the line tells none.
    pub transfer_rate: String,
    /// The file being transferred; empty where the line names none.
    pub current_file: String,
}

/// The mathematical content of a [`ProgressSample`]; the percentage is in
/// hundredths of a percentage point.
pub struct ProgressSampleModel {
    pub percent: Option<nat>,
    pub files: Option<FileCounts>,
    pub bytes: Option<u64>,
    pub transfer_rate: Seq<char>,
    pub current_file: Seq<char>,
}

impl DeepView for ProgressSample {
    type V = ProgressSampleModel;

    open spec fn deep_view(&self) -> ProgressSampleModel {
        ProgressSampleModel {
            percent: match self.percent {
                Some(p) => Some(p@),
                None => None,
            },
            files: self.files,
            bytes: self.bytes,
            transfer_rate: self.transfer_rate@,
            current_file: self.current_file@,
        }
    }
}

/// The counters of one statistics record of the structured log. `speed` is
/// in bytes per second.
#[derive(Clone, Copy, Debug, PartialEq, Eq, Structural)]
pub struct TransferStats {
    pub bytes: u64,
    pub total_bytes: u64,
    pub transfers: u64,
    pub total_transfers: u64,
    pub checks: u64,
    pub total_checks: u64,
    pub speed: u64,
}

/// One decoded record of the structured log.
#[derive(Clone, Debug)]
pub enum LogRecord {
    /// A statistics object.
    Stats(TransferStats),
    /// A message in free text.
    Message(String),
}

/// The percentage that a statistics record stands for, in hundredths of a
/// percentage point: by bytes where the byte total is known, else by checks,
/// else by transfers; with no total known the work counts as done.
pub open spec fn stats_hundredths(stats: TransferStats) -> nat {
    if stats.total_bytes != 0 {
        ratio_hundredths(stats.bytes as nat, stats.total_bytes as nat)
    } else if stats.total_checks != 0 {
        ratio_hundredths(stats.checks as nat, stats.total_checks as nat)
    } else if stats.total_transfers != 0 {
        ratio_hundredths(stats.transfers as nat, stats.total_transfers as nat)
    } else {
        FULL_HUNDREDTHS as nat
    }
}

/// `count` held at the largest `u32`.
pub open spec fn clipped_count(count: u64) -> u32 {
    if count > u32::MAX {
        u32::MAX
    } else {
        count as u32
    }
}

/// The sample that a statistics record stands for.
pub open spec fn stats_sample(stats: TransferStats) -> ProgressSampleModel {
    ProgressSampleModel {
        percent: Some(stats_hundredths(stats)),
        files: Some(
            FileCounts {
                transferred: clipped_count(stats.transfers),
                total: clipped_count(stats.total_transfers),
            },
        ),
        bytes: Some(stats.bytes),
        transfer_rate: speed_text(stats.speed as nat),
        current_file: Seq::empty(),
    }
}

/// The sample that a record of the structured log stands for: a message
/// tells nothing of the progress.
pub open spec fn record_sample(record: LogRecord) -> Option<ProgressSampleModel> {
    match record {
        LogRecord::Stats(stats) => Some(stats_sample(stats)),
        LogRecord::Message(_) => None,
    }
}

/// The percentage that a statistics record stands for.
pub fn stats_percent(stats: &TransferStats) -> (percent: Percent)
    ensures
        percent@ == stats_hundredths(*stats),
{
    if stats.total_bytes != 0 {
        Percent::ratio(stats.bytes, stats.total_bytes)
    } else if stats.total_checks != 0 {
        Percent::ratio(stats.checks, stats.total_checks)
    } else if stats.total_transfers != 0 {
        Percent::ratio(stats.transfers, stats.total_transfers)
    } else {
        Percent::full()
    }
}

/// A counter of the tool as a file count.
pub fn clip_count(count: u64) -> (clipped: u32)
    ensures
        clipped == clipped_count(count),
{
    if count > u32::MAX as u64 {
        u32::MAX
    } else {
        count as u32
    }
}

/// The sample of a statistics record.
pub fn sample_from_stats(stats: &TransferStats) -> (sample: ProgressSample)
    ensures
        sample.deep_view() == stats_sample(*stats),
{
    ProgressSample {
        percent: Some(stats_percent(stats)),
        files: Some(
            FileCounts {
                transferred: clip_count(stats.transfers),
                total: clip_count(stats.total_transfers),
            },
        ),
        bytes: Some(stats.bytes),
        transfer_rate: format_speed(stats.speed),
        current_file: String::new(),
    }
}

/// The sample of a record of the structured log, if it holds one.
pub fn parse_record(record: &LogRecord) -> (sample: Option<ProgressSample>)
    ensures
        sample.deep_view() == record_sample(*record),
{
    match record {
        LogRecord::Stats(stats) => Some(sample_from_stats(stats)),
        LogRecord::Message(_) => None,
    }
}

} // verus!
