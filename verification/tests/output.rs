use pdfiumtoppm::decimal::{decimal_width, parse_unsigned};
use pdfiumtoppm::library::{library_sources, password_attempts, LibrarySource};
use pdfiumtoppm::pages::{
    empty_range_message, output_format, output_path, page_number_width, OutputFormat,
};
use pdfiumtoppm::status::{
    crash_report, FatalSignal, NextStep, PageEvent, RunEnd, Tally, EXIT_MEMORY, EXIT_OPEN_OUTPUT,
    EXIT_OTHER,
};

#[test]
fn output_names_pad_to_page_count_width() {
    let pad = page_number_width(12);
    assert_eq!(pad, 2);
    assert_eq!(output_path("out", 3, pad, OutputFormat::Ppm), "out-03.ppm");
    assert_eq!(output_path("out", 12, pad, OutputFormat::Ppm), "out-12.ppm");
    assert_eq!(output_path("dir/x", 7, 4, OutputFormat::Png), "dir/x-0007.png");
    assert_eq!(output_path("r", 12345, 2, OutputFormat::Pgm), "r-12345.pgm");
    assert_eq!(output_path("", 0, 0, OutputFormat::Png), "-0.png");
    assert_eq!(page_number_width(0), 1);
    assert_eq!(page_number_width(9), 1);
    assert_eq!(page_number_width(10), 2);
    assert_eq!(page_number_width(u32::MAX), 10);
    assert_eq!(decimal_width(u64::MAX), 20);
}

#[test]
fn distinct_pages_get_distinct_names_of_one_length() {
    let pad = page_number_width(1000);
    let names: Vec<String> = (1..=1000).map(|p| output_path("out", p, pad, OutputFormat::Png)).collect();
    let mut sorted = names.clone();
    sorted.sort();
    sorted.dedup();
    assert_eq!(sorted.len(), names.len());
    assert!(names.iter().all(|n| n.len() == names[0].len()));
}

#[test]
fn output_format_follows_png_then_gray() {
    assert_eq!(output_format(true, true), OutputFormat::Png);
    assert_eq!(output_format(true, false), OutputFormat::Png);
    assert_eq!(output_format(false, true), OutputFormat::Pgm);
    assert_eq!(output_format(false, false), OutputFormat::Ppm);
    assert_eq!(OutputFormat::Pgm.extension(), "pgm");
}

#[test]
fn unsigned_numbers_read_like_from_str() {
    for s in ["0", "1", "+1", "255", "00255", "4294967295", "18446744073709551615", "", "+", "-1", "1 ", "1_000", "x", "99999999999999999999", "++1"] {
        assert_eq!(parse_unsigned(s, u64::MAX), s.parse::<u64>().ok(), "{s}");
        assert_eq!(parse_unsigned(s, u32::MAX as u64), s.parse::<u32>().ok().map(u64::from), "{s}");
        assert_eq!(parse_unsigned(s, u8::MAX as u64), s.parse::<u8>().ok().map(u64::from), "{s}");
    }
}

#[test]
fn library_search_order() {
    assert_eq!(library_sources(true, true, true), vec![LibrarySource::Explicit]);
    assert_eq!(
        library_sources(false, true, true),
        vec![LibrarySource::EnvDir, LibrarySource::ExeDir, LibrarySource::System]
    );
    assert_eq!(library_sources(false, false, true), vec![LibrarySource::ExeDir, LibrarySource::System]);
    assert_eq!(library_sources(false, false, false), vec![LibrarySource::System]);
}

#[test]
fn passwords_try_user_then_owner() {
    assert_eq!(password_attempts(None, None), vec![None]);
    assert_eq!(
        password_attempts(Some("u".to_string()), Some("o".to_string())),
        vec![Some("u".to_string()), Some("o".to_string())]
    );
    assert_eq!(password_attempts(None, Some("o".to_string())), vec![Some("o".to_string())]);
    assert_eq!(password_attempts(Some("u".to_string()), None), vec![Some("u".to_string())]);
}

fn run(events: &[PageEvent]) -> (Option<i32>, RunEnd) {
    let mut t = Tally::new();
    for e in events {
        if let NextStep::Exit(c) = t.after_page(*e) {
            return (Some(c), t.end());
        }
    }
    (None, t.end())
}

#[test]
fn run_status_like_pdftoppm() {
    let (stop, end) = run(&[PageEvent::Written, PageEvent::RenderFailed]);
    assert_eq!(stop, None);
    assert_eq!(end, RunEnd::PagesFailed(1));
    assert_eq!(end.exit_code(), 0);
    assert_eq!(end.message().as_deref(), Some("1 page(s) failed to render"));

    let (_, end) = run(&[PageEvent::RenderFailed, PageEvent::RenderFailed]);
    assert_eq!(end, RunEnd::NothingRendered(2));
    assert_eq!(end.exit_code(), EXIT_OTHER);

    let (_, end) = run(&[PageEvent::Written, PageEvent::SkippedForMemory, PageEvent::RenderFailed]);
    assert_eq!(end, RunEnd::MemoryLimited(1));
    assert_eq!(end.exit_code(), EXIT_MEMORY);
    assert_eq!(end.message().as_deref(), Some("1 page(s) skipped for -max-memory"));

    let (_, end) = run(&[PageEvent::Written; 3]);
    assert_eq!(end, RunEnd::Clean);
    assert_eq!(end.exit_code(), 0);
    assert_eq!(end.message(), None);

    let (stop, end) = run(&[PageEvent::Written, PageEvent::WriteFailed, PageEvent::Written]);
    assert_eq!(stop, Some(EXIT_OPEN_OUTPUT));
    assert_eq!(end, RunEnd::Clean);
}

#[test]
fn crash_codes_follow_distance_to_limit() {
    let limit = 3000u64;
    let r = crash_report(FatalSignal::Segfault, Some(2000), limit);
    assert_eq!(r.signal_name, "SIGSEGV");
    assert_eq!(r.exit_code, EXIT_MEMORY);
    let r = crash_report(FatalSignal::Abort, Some(1999), limit);
    assert_eq!(r.signal_name, "SIGABRT");
    assert_eq!(r.exit_code, EXIT_OTHER);
    assert_eq!(r.cause, " well under -max-memory; probably a PDFium bug, not memory\n");
    let r = crash_report(FatalSignal::Other, None, limit);
    assert_eq!(r.signal_name, "a fatal signal");
    assert_eq!(r.exit_code, EXIT_MEMORY);
    assert_eq!(r.cause, " with address space near -max-memory; probably out of memory\n");
    // Saturating products: a huge address space still counts as near.
    assert_eq!(crash_report(FatalSignal::Bus, Some(u64::MAX), u64::MAX).exit_code, EXIT_MEMORY);
}

#[test]
fn empty_range_is_explained() {
    assert_eq!(
        empty_range_message(20, 12),
        "wrong page range given: the first page (20) can not be after the last page (12)"
    );
}
