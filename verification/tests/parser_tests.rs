use jsync::free_text::{parse_free_text, sample_from_captures};
use jsync::parser::{parse_line, stream_of, OutputLine};
use jsync::progress::{
    clip_count, parse_record, sample_from_stats, stats_percent, LogRecord, ParserVariant, Stream,
    TransferStats,
};

fn stats(bytes: u64, total_bytes: u64) -> TransferStats {
    TransferStats {
        bytes,
        total_bytes,
        transfers: 0,
        total_transfers: 0,
        checks: 0,
        total_checks: 0,
        speed: 0,
    }
}

fn groups(texts: &[Option<&str>]) -> Option<Vec<Option<String>>> {
    Some(texts.iter().map(|text| text.map(|t| t.to_string())).collect())
}

#[test]
fn structured_percent_by_bytes() {
    assert_eq!(stats_percent(&stats(50, 200)).hundredths(), 2500);
}

#[test]
fn structured_percent_by_checks_when_no_byte_total() {
    let record = TransferStats { checks: 3, total_checks: 3, ..stats(0, 0) };
    assert_eq!(stats_percent(&record).hundredths(), 10_000);
    let half = TransferStats { checks: 1, total_checks: 2, ..stats(0, 0) };
    assert_eq!(stats_percent(&half).hundredths(), 5000);
}

#[test]
fn structured_percent_by_transfers_when_no_other_total() {
    let record = TransferStats { transfers: 1, total_transfers: 4, ..stats(0, 0) };
    assert_eq!(stats_percent(&record).hundredths(), 2500);
}

#[test]
fn structured_percent_with_all_totals_zero_is_full() {
    assert_eq!(stats_percent(&stats(0, 0)).hundredths(), 10_000);
    let busy = TransferStats { bytes: 9, transfers: 9, checks: 9, ..stats(0, 0) };
    assert_eq!(stats_percent(&busy).hundredths(), 10_000);
}

#[test]
fn structured_precedence_is_bytes_then_checks_then_transfers() {
    let record = TransferStats {
        bytes: 10,
        total_bytes: 100,
        checks: 1,
        total_checks: 2,
        transfers: 3,
        total_transfers: 4,
        speed: 0,
    };
    assert_eq!(stats_percent(&record).hundredths(), 1000);
    let no_bytes = TransferStats { total_bytes: 0, ..record };
    assert_eq!(stats_percent(&no_bytes).hundredths(), 5000);
    let no_checks = TransferStats { total_checks: 0, ..no_bytes };
    assert_eq!(stats_percent(&no_checks).hundredths(), 7500);
}

#[test]
fn structured_sample_carries_counts_bytes_and_rate() {
    let record = TransferStats {
        bytes: 50,
        total_bytes: 200,
        transfers: 3,
        total_transfers: 12,
        checks: 0,
        total_checks: 0,
        speed: 1536,
    };
    let sample = sample_from_stats(&record);
    assert_eq!(sample.percent.map(|p| p.hundredths()), Some(2500));
    let files = sample.files.unwrap();
    assert_eq!((files.transferred, files.total), (3, 12));
    assert_eq!(sample.bytes, Some(50));
    assert_eq!(sample.transfer_rate, "1.50 KB/s");
    assert_eq!(sample.current_file, "");
}

#[test]
fn counters_are_clipped_to_file_counts() {
    assert_eq!(clip_count(0), 0);
    assert_eq!(clip_count(u32::MAX as u64), u32::MAX);
    assert_eq!(clip_count(u32::MAX as u64 + 1), u32::MAX);
    assert_eq!(clip_count(u64::MAX), u32::MAX);
}

#[test]
fn message_record_holds_no_sample() {
    assert!(parse_record(&LogRecord::Message("Copied (new)".to_string())).is_none());
    assert!(parse_record(&LogRecord::Stats(stats(1, 2))).is_some());
}

#[test]
fn free_text_bytes_line_gives_percent_and_rate() {
    let sample =
        parse_free_text("Transferred:   1.278 GiB / 2.398 GiB, 53%, 1.2 MB/s, ETA -").unwrap();
    assert_eq!(sample.percent.map(|p| p.hundredths()), Some(5300));
    assert_eq!(sample.transfer_rate, "1.2 MB/s");
    assert!(sample.files.is_none());
    assert_eq!(sample.bytes, None);
    assert_eq!(sample.current_file, "");
}

#[test]
fn free_text_files_line_gives_counts() {
    let sample = parse_free_text("Transferred:  504 / 504, 100%").unwrap();
    let files = sample.files.unwrap();
    assert_eq!(files.transferred, 504);
    assert_eq!(files.total, 504);
    assert!(sample.percent.is_none());
    assert_eq!(sample.transfer_rate, "");
}

#[test]
fn free_text_line_as_the_tool_prints_it() {
    let sample =
        parse_free_text("Transferred:   \t    1.278 GiB / 2.398 GiB, 53%, 0 B/s, ETA -").unwrap();
    assert_eq!(sample.percent.map(|p| p.hundredths()), Some(5300));
    assert_eq!(sample.transfer_rate, "0 B/s");
}

#[test]
fn free_text_bytes_line_without_rate() {
    let sample = parse_free_text("Transferred: 10 MiB / 40 MiB, 25%").unwrap();
    assert_eq!(sample.percent.map(|p| p.hundredths()), Some(2500));
    assert_eq!(sample.transfer_rate, "");
}

#[test]
fn free_text_line_with_both_clauses() {
    let sample = parse_free_text(
        "Transferred: 1 GiB / 2 GiB, 50%, 3 MiB/s Transferred: 7 / 9, 77%",
    ).unwrap();
    assert_eq!(sample.percent.map(|p| p.hundredths()), Some(5000));
    assert_eq!(sample.transfer_rate, "3 MiB/s");
    let files = sample.files.unwrap();
    assert_eq!((files.transferred, files.total), (7, 9));
}

#[test]
fn free_text_lines_without_progress() {
    assert!(parse_free_text("").is_none());
    assert!(parse_free_text("Checks: 12 / 12, 100%").is_none());
    assert!(parse_free_text("Elapsed time: 1.5s").is_none());
    assert!(parse_free_text("Transferred: 0 B / 0 B, -, 0 B/s, ETA -").is_none());
    assert!(parse_free_text("Transferred: garbage").is_none());
}

#[test]
fn free_text_percent_above_hundred_is_held() {
    let sample = parse_free_text("Transferred: 3 GiB / 2 GiB, 150%").unwrap();
    assert_eq!(sample.percent.map(|p| p.hundredths()), Some(10_000));
}

#[test]
fn free_text_count_too_large_is_zero() {
    let sample = parse_free_text("Transferred: 4294967296 / 4294967295, 100%").unwrap();
    let files = sample.files.unwrap();
    assert_eq!(files.transferred, 0);
    assert_eq!(files.total, u32::MAX);
}

#[test]
fn captures_without_match_give_nothing() {
    assert!(sample_from_captures(&None, &None).is_none());
}

#[test]
fn captures_of_bytes_clause() {
    let bytes = groups(&[Some("Transferred: 1 B / 2 B, 50%, 1 B/s"), Some("50"), Some("1 B/s")]);
    let sample = sample_from_captures(&bytes, &None).unwrap();
    assert_eq!(sample.percent.map(|p| p.hundredths()), Some(5000));
    assert_eq!(sample.transfer_rate, "1 B/s");
    assert!(sample.files.is_none());
}

#[test]
fn captures_of_bytes_clause_without_rate_group() {
    let bytes = groups(&[Some("x"), Some("7"), None]);
    let sample = sample_from_captures(&bytes, &None).unwrap();
    assert_eq!(sample.percent.map(|p| p.hundredths()), Some(700));
    assert_eq!(sample.transfer_rate, "");
    let short = groups(&[Some("x"), Some("8")]);
    let sample = sample_from_captures(&short, &None).unwrap();
    assert_eq!(sample.percent.map(|p| p.hundredths()), Some(800));
}

#[test]
fn captures_with_digits_that_are_not_ascii_tell_no_percent() {
    let bytes = groups(&[Some("x"), Some("\u{0665}\u{0663}"), Some("1 B/s")]);
    assert!(sample_from_captures(&bytes, &None).is_none());
    let files = groups(&[Some("x"), Some("\u{0665}"), Some("12")]);
    let sample = sample_from_captures(&None, &files).unwrap();
    let counts = sample.files.unwrap();
    assert_eq!((counts.transferred, counts.total), (0, 12));
}

#[test]
fn captures_of_files_clause_need_both_groups() {
    let one = groups(&[Some("x"), Some("5")]);
    assert!(sample_from_captures(&None, &one).is_none());
    let gap = groups(&[Some("x"), Some("5"), None]);
    assert!(sample_from_captures(&None, &gap).is_none());
    let both = groups(&[Some("x"), Some("5"), Some("6")]);
    let sample = sample_from_captures(&None, &both).unwrap();
    let counts = sample.files.unwrap();
    assert_eq!((counts.transferred, counts.total), (5, 6));
    assert!(sample.percent.is_none());
}

#[test]
fn captures_with_huge_percent_are_held_at_full() {
    let bytes = groups(&[Some("x"), Some("99999999999999999999999999"), None]);
    let sample = sample_from_captures(&bytes, &None).unwrap();
    assert_eq!(sample.percent.map(|p| p.hundredths()), Some(10_000));
}

#[test]
fn each_variant_reads_its_own_layout() {
    let text = OutputLine::Text("Transferred: 1 GiB / 2 GiB, 50%".to_string());
    let record = OutputLine::Record(LogRecord::Stats(stats(50, 200)));
    assert!(parse_line(ParserVariant::FreeText, &text).is_some());
    assert!(parse_line(ParserVariant::FreeText, &record).is_none());
    assert!(parse_line(ParserVariant::StructuredLog, &text).is_none());
    let sample = parse_line(ParserVariant::StructuredLog, &record).unwrap();
    assert_eq!(sample.percent.map(|p| p.hundredths()), Some(2500));
    let message = OutputLine::Record(LogRecord::Message("note".to_string()));
    assert!(parse_line(ParserVariant::StructuredLog, &message).is_none());
}

#[test]
fn each_variant_reports_on_its_stream() {
    assert_eq!(stream_of(ParserVariant::FreeText), Stream::Standard);
    assert_eq!(stream_of(ParserVariant::StructuredLog), Stream::Error);
}
