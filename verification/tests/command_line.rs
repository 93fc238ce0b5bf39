use pdfiumtoppm::cli::{arg_kind, parse_args, ArgKind, Command, FloatReading, Options, UsageError, ValueFlag};

fn read(a: &str) -> FloatReading {
    match a.parse::<f32>() {
        Err(_) => FloatReading::Unreadable,
        Ok(v) if v > 0.0 && v.is_finite() => FloatReading::PositiveFinite(v.to_bits()),
        Ok(v) => FloatReading::OtherNumber(v.to_bits()),
    }
}

fn parse(args: &[&str]) -> Result<Command, UsageError> {
    let args: Vec<String> = args.iter().map(|s| s.to_string()).collect();
    let reads: Vec<FloatReading> = args.iter().map(|a| read(a)).collect();
    parse_args(&args, &reads)
}

fn options(args: &[&str]) -> Options {
    match parse(args) {
        Ok(Command::Render(o)) => o,
        Ok(_) => panic!("not a render command"),
        Err(e) => panic!("refused: {}", e.message()),
    }
}

fn refusal(args: &[&str]) -> String {
    match parse(args) {
        Err(e) => e.message(),
        Ok(_) => panic!("accepted"),
    }
}

#[test]
fn defaults_without_options() {
    let o = options(&["in.pdf", "out"]);
    assert_eq!(o.pdf, "in.pdf");
    assert_eq!(o.root, "out");
    assert_eq!(o.first, None);
    assert_eq!(o.last, None);
    assert_eq!(o.dpi, None);
    assert_eq!(o.scale_to, None);
    assert_eq!(o.max_pages, None);
    assert_eq!(o.max_pixels, None);
    assert_eq!(o.max_memory, None);
    assert!(!o.png);
    assert_eq!(o.png_compress, 1);
    assert!(!o.gray);
    assert_eq!(o.opw, None);
    assert_eq!(o.upw, None);
    assert_eq!(o.pdfium_dir, None);
}

#[test]
fn every_option_is_read() {
    let o = options(&[
        "-f", "2", "-l", "+9", "-r", "300", "-scale-to", "4096", "-max-pages", "5",
        "-max-pixels", "18446744073709551615", "-max-memory", "0", "-png", "-png-compress", "9",
        "-gray", "-opw", "owner", "-upw", "-user", "-pdfium", "/opt/pdfium", "doc.pdf", "page",
    ]);
    assert_eq!(o.first, Some(2));
    assert_eq!(o.last, Some(9));
    assert_eq!(o.dpi.map(f32::from_bits), Some(300.0));
    assert_eq!(o.scale_to, Some(4096));
    assert_eq!(o.max_pages, Some(5));
    assert_eq!(o.max_pixels, Some(u64::MAX));
    assert_eq!(o.max_memory, Some(0));
    assert!(o.png);
    assert_eq!(o.png_compress, 9);
    assert!(o.gray);
    assert_eq!(o.opw.as_deref(), Some("owner"));
    assert_eq!(o.upw.as_deref(), Some("-user"));
    assert_eq!(o.pdfium_dir.as_deref(), Some("/opt/pdfium"));
    assert_eq!(o.pdf, "doc.pdf");
    assert_eq!(o.root, "page");
}

#[test]
fn later_values_replace_earlier_ones() {
    let o = options(&["-f", "2", "-f", "7", "-r", "-5", "-r", "72.5", "a", "b"]);
    assert_eq!(o.first, Some(7));
    assert_eq!(o.dpi.map(f32::from_bits), Some(72.5));
}

#[test]
fn version_and_help_stop_reading() {
    assert!(matches!(parse(&["-v"]), Ok(Command::Version)));
    assert!(matches!(parse(&["-v", "-bogus"]), Ok(Command::Version)));
    for h in ["-h", "-help", "--help", "-?"] {
        assert!(matches!(parse(&[h, "-f"]), Ok(Command::Help)));
    }
    // An error before them wins.
    assert_eq!(refusal(&["-bogus", "-v"]), "unsupported option -bogus");
}

#[test]
fn unsupported_options_are_refused() {
    assert_eq!(refusal(&["-cropbox", "in.pdf", "out"]), "unsupported option -cropbox");
    assert_eq!(refusal(&["in.pdf", "out", "-jpeg"]), "unsupported option -jpeg");
    // A lone dash is a positional argument.
    let o = options(&["-", "out"]);
    assert_eq!(o.pdf, "-");
    // The value of an option may look like an option.
    let o = options(&["-opw", "-x", "in.pdf", "out"]);
    assert_eq!(o.opw.as_deref(), Some("-x"));
}

#[test]
fn values_must_be_numbers_of_the_right_size() {
    assert_eq!(refusal(&["-f"]), "-f requires a value");
    assert_eq!(refusal(&["in.pdf", "out", "-max-pages"]), "-max-pages requires a value");
    assert_eq!(refusal(&["-f", "x", "in.pdf", "out"]), "bad value for -f: x");
    assert_eq!(refusal(&["-l", "-1", "in.pdf", "out"]), "bad value for -l: -1");
    assert_eq!(refusal(&["-f", "4294967296", "a", "b"]), "bad value for -f: 4294967296");
    assert_eq!(refusal(&["-f", "", "a", "b"]), "bad value for -f: ");
    assert_eq!(refusal(&["-f", "+", "a", "b"]), "bad value for -f: +");
    assert_eq!(refusal(&["-f", " 3", "a", "b"]), "bad value for -f:  3");
    assert_eq!(refusal(&["-png-compress", "256", "a", "b"]), "bad value for -png-compress: 256");
    assert_eq!(refusal(&["-r", "abc", "a", "b"]), "bad value for -r: abc");
    assert_eq!(
        refusal(&["-max-pixels", "18446744073709551616", "a", "b"]),
        "bad value for -max-pixels: 18446744073709551616"
    );
    assert_eq!(options(&["-f", "4294967295", "a", "b"]).first, Some(u32::MAX));
    assert_eq!(options(&["-f", "007", "a", "b"]).first, Some(7));
}

#[test]
fn checks_after_reading_in_order() {
    assert_eq!(refusal(&[]), "expected <PDF-file> <image-root>");
    assert_eq!(refusal(&["a"]), "expected <PDF-file> <image-root>");
    assert_eq!(refusal(&["a", "b", "c"]), "expected <PDF-file> <image-root>");
    assert_eq!(refusal(&["-r", "0", "a", "b"]), "-r must be a positive number");
    assert_eq!(refusal(&["-r", "inf", "a", "b"]), "-r must be a positive number");
    assert_eq!(refusal(&["-r", "NaN", "a", "b"]), "-r must be a positive number");
    assert_eq!(refusal(&["-r", "0", "a"]), "expected <PDF-file> <image-root>");
    assert_eq!(refusal(&["-png-compress", "10", "a", "b"]), "-png-compress must be 0-9");
    assert_eq!(refusal(&["-png-compress", "10", "-r", "-1", "a", "b"]), "-r must be a positive number");
    assert_eq!(refusal(&["-scale-to", "0", "a", "b"]), "-scale-to must be positive");
    assert_eq!(refusal(&["-max-pages", "0", "a", "b"]), "-max-pages must be positive");
    assert_eq!(refusal(&["-max-pixels", "0", "a", "b"]), "-max-pixels must be positive");
    assert_eq!(
        refusal(&["-max-pixels", "0", "-scale-to", "0", "a", "b"]),
        "-scale-to must be positive"
    );
    assert_eq!(options(&["-png-compress", "0", "a", "b"]).png_compress, 0);
}

#[test]
fn argument_kinds() {
    assert_eq!(arg_kind("-f"), ArgKind::Takes(ValueFlag::First));
    assert_eq!(arg_kind("-png"), ArgKind::Png);
    assert_eq!(arg_kind("-png-compress"), ArgKind::Takes(ValueFlag::PngCompress));
    assert_eq!(arg_kind("-gray"), ArgKind::Gray);
    assert_eq!(arg_kind("--help"), ArgKind::Help);
    assert_eq!(arg_kind("-pngx"), ArgKind::Unsupported);
    assert_eq!(arg_kind("-é"), ArgKind::Unsupported);
    assert_eq!(arg_kind("-"), ArgKind::Positional);
    assert_eq!(arg_kind("file.pdf"), ArgKind::Positional);
    assert_eq!(ValueFlag::MaxMemory.name(), "-max-memory");
}

#[test]
fn usage_messages() {
    assert_eq!(UsageError::MissingValue(ValueFlag::UserPassword).message(), "-upw requires a value");
    assert_eq!(UsageError::NotPositive(ValueFlag::MaxPages).message(), "-max-pages must be positive");
    assert_eq!(UsageError::PngCompressRange.message(), "-png-compress must be 0-9");
    assert_eq!(UsageError::ResolutionNotPositive.message(), "-r must be a positive number");
}
