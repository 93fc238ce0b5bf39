use vstd::prelude::*;
use vstd::string::*;

use crate::decimal::{decimal_digits, lemma_parse_decimal_digits, parse_unsigned, spec_parse_unsigned};
use crate::text::{opt_text, same_text, texts};

verus! {

/// The options that take a value from the next argument.
#[derive(Clone, Copy, Debug, PartialEq, Eq, Structural)]
pub enum ValueFlag {
    First,
    Last,
    Resolution,
    ScaleTo,
    MaxPages,
    MaxPixels,
    MaxMemory,
    PngCompress,
    OwnerPassword,
    UserPassword,
    PdfiumDir,
}

impl ValueFlag {
    /// The option as it is written on the command line.
    pub open spec fn spec_name(self) -> Seq<char> {
        match self {
            ValueFlag::First => "-f"@,
            ValueFlag::Last => "-l"@,
            ValueFlag::Resolution => "-r"@,
            ValueFlag::ScaleTo => "-scale-to"@,
            ValueFlag::MaxPages => "-max-pages"@,
            ValueFlag::MaxPixels => "-max-pixels"@,
            ValueFlag::MaxMemory => "-max-memory"@,
            ValueFlag::PngCompress => "-png-compress"@,
            ValueFlag::OwnerPassword => "-opw"@,
            ValueFlag::UserPassword => "-upw"@,
            ValueFlag::PdfiumDir => "-pdfium"@,
        }
    }

    /// The option as it is written on the command line.
    pub fn name(&self) -> (s: &'static str)
        ensures
            s@ == self.spec_name(),
    {
        match self {
            ValueFlag::First => "-f",
            ValueFlag::Last => "-l",
            ValueFlag::Resolution => "-r",
            ValueFlag::ScaleTo => "-scale-to",
            ValueFlag::MaxPages => "-max-pages",
            ValueFlag::MaxPixels => "-max-pixels",
            ValueFlag::MaxMemory => "-max-memory",
            ValueFlag::PngCompress => "-png-compress",
            ValueFlag::OwnerPassword => "-opw",
            ValueFlag::UserPassword => "-upw",
            ValueFlag::PdfiumDir => "-pdfium",
        }
    }
}

/// What one argument in option position is.
#[derive(Clone, Copy, Debug, PartialEq, Eq, Structural)]
pub enum ArgKind {
    Takes(ValueFlag),
    Png,
    Gray,
    Version,
    Help,
    Unsupported,
    Positional,
}

/// How the text after `-r` reads as an `f32` (`str::parse::<f32>`): not
/// at all, as a positive finite number, or as any other number (zero,
/// negative, infinite or NaN). A number is carried as its IEEE-754 bits
/// (`f32::to_bits`).
#[derive(Clone, Copy, Debug, PartialEq, Eq, Structural)]
pub enum FloatReading {
    Unreadable,
    PositiveFinite(u32),
    OtherNumber(u32),
}

/// The kind of an argument: a known option, or, when it starts with `-`
/// and has more after it, an unsupported one; anything else is positional.
pub open spec fn spec_arg_kind(a: Seq<char>) -> ArgKind {
    if a == "-f"@ {
        ArgKind::Takes(ValueFlag::First)
    } else if a == "-l"@ {
        ArgKind::Takes(ValueFlag::Last)
    } else if a == "-r"@ {
        ArgKind::Takes(ValueFlag::Resolution)
    } else if a == "-scale-to"@ {
        ArgKind::Takes(ValueFlag::ScaleTo)
    } else if a == "-max-pages"@ {
        ArgKind::Takes(ValueFlag::MaxPages)
    } else if a == "-max-pixels"@ {
        ArgKind::Takes(ValueFlag::MaxPixels)
    } else if a == "-max-memory"@ {
        ArgKind::Takes(ValueFlag::MaxMemory)
    } else if a == "-png"@ {
        ArgKind::Png
    } else if a == "-png-compress"@ {
        ArgKind::Takes(ValueFlag::PngCompress)
    } else if a == "-gray"@ {
        ArgKind::Gray
    } else if a == "-opw"@ {
        ArgKind::Takes(ValueFlag::OwnerPassword)
    } else if a == "-upw"@ {
        ArgKind::Takes(ValueFlag::UserPassword)
    } else if a == "-pdfium"@ {
        ArgKind::Takes(ValueFlag::PdfiumDir)
    } else if a == "-v"@ {
        ArgKind::Version
    } else if a == "-h"@ || a == "-help"@ || a == "--help"@ || a == "-?"@ {
        ArgKind::Help
    } else if a.len() > 1 && a[0] == '-' {
        ArgKind::Unsupported
    } else {
        ArgKind::Positional
    }
}

/// Classifies one argument in option position.
pub fn arg_kind(a: &str) -> (k: ArgKind)
    ensures
        k == spec_arg_kind(a@),
{
    if same_text(a, "-f") {
        ArgKind::Takes(ValueFlag::First)
    } else if same_text(a, "-l") {
        ArgKind::Takes(ValueFlag::Last)
    } else if same_text(a, "-r") {
        ArgKind::Takes(ValueFlag::Resolution)
    } else if same_text(a, "-scale-to") {
        ArgKind::Takes(ValueFlag::ScaleTo)
    } else if same_text(a, "-max-pages") {
        ArgKind::Takes(ValueFlag::MaxPages)
    } else if same_text(a, "-max-pixels") {
        ArgKind::Takes(ValueFlag::MaxPixels)
    } else if same_text(a, "-max-memory") {
        ArgKind::Takes(ValueFlag::MaxMemory)
    } else if same_text(a, "-png") {
        ArgKind::Png
    } else if same_text(a, "-png-compress") {
        ArgKind::Takes(ValueFlag::PngCompress)
    } else if same_text(a, "-gray") {
        ArgKind::Gray
    } else if same_text(a, "-opw") {
        ArgKind::Takes(ValueFlag::OwnerPassword)
    } else if same_text(a, "-upw") {
        ArgKind::Takes(ValueFlag::UserPassword)
    } else if same_text(a, "-pdfium") {
        ArgKind::Takes(ValueFlag::PdfiumDir)
    } else if same_text(a, "-v") {
        ArgKind::Version
    } else if same_text(a, "-h") || same_text(a, "-help") || same_text(a, "--help") || same_text(
        a,
        "-?",
    ) {
        ArgKind::Help
    } else if a.unicode_len() > 1 && a.get_char(0) == '-' {
        ArgKind::Unsupported
    } else {
        ArgKind::Positional
    }
}

/// A command line that cannot run, as the user is told about it.
pub enum UsageError {
    MissingValue(ValueFlag),
    BadValue(ValueFlag, String),
    UnsupportedOption(String),
    PositionalCount,
    ResolutionNotPositive,
    PngCompressRange,
    NotPositive(ValueFlag),
}

/// A refused command line, with its texts as characters.
pub enum UsageFault {
    MissingValue(ValueFlag),
    BadValue(ValueFlag, Seq<char>),
    UnsupportedOption(Seq<char>),
    PositionalCount,
    ResolutionNotPositive,
    PngCompressRange,
    NotPositive(ValueFlag),
}

impl View for UsageError {
    type V = UsageFault;

    open spec fn view(&self) -> UsageFault {
        match self {
            UsageError::MissingValue(f) => UsageFault::MissingValue(*f),
            UsageError::BadValue(f, v) => UsageFault::BadValue(*f, v@),
            UsageError::UnsupportedOption(s) => UsageFault::UnsupportedOption(s@),
            UsageError::PositionalCount => UsageFault::PositionalCount,
            UsageError::ResolutionNotPositive => UsageFault::ResolutionNotPositive,
            UsageError::PngCompressRange => UsageFault::PngCompressRange,
            UsageError::NotPositive(f) => UsageFault::NotPositive(*f),
        }
    }
}

/// The line that tells the user what is wrong with the command line.
pub open spec fn spec_usage_message(e: UsageFault) -> Seq<char> {
    match e {
        UsageFault::MissingValue(f) => f.spec_name() + " requires a value"@,
        UsageFault::BadValue(f, v) => "bad value for "@ + f.spec_name() + ": "@ + v,
        UsageFault::UnsupportedOption(s) => "unsupported option "@ + s,
        UsageFault::PositionalCount => "expected <PDF-file> <image-root>"@,
        UsageFault::ResolutionNotPositive => "-r must be a positive number"@,
        UsageFault::PngCompressRange => "-png-compress must be 0-9"@,
        UsageFault::NotPositive(f) => f.spec_name() + " must be positive"@,
    }
}

impl UsageError {
    /// The line that tells the user what is wrong with the command line.
    pub fn message(&self) -> (m: String)
        ensures
            m@ == spec_usage_message(self@),
    {
        match self {
            UsageError::MissingValue(f) => {
                let mut m = String::from_str(f.name());
                m.append(" requires a value");
                m
            },
            UsageError::BadValue(f, v) => {
                let mut m = String::from_str("bad value for ");
                m.append(f.name());
                m.append(": ");
                m.append(v.as_str());
                m
            },
            UsageError::UnsupportedOption(s) => {
                let mut m = String::from_str("unsupported option ");
                m.append(s.as_str());
                m
            },
            UsageError::PositionalCount => String::from_str("expected <PDF-file> <image-root>"),
            UsageError::ResolutionNotPositive => String::from_str("-r must be a positive number"),
            UsageError::PngCompressRange => String::from_str("-png-compress must be 0-9"),
            UsageError::NotPositive(f) => {
                let mut m = String::from_str(f.name());
                m.append(" must be positive");
                m
            },
        }
    }
}

/// The settings of one run, as the command line gives them.
pub struct Options {
    pub first: Option<u32>,
    pub last: Option<u32>,
    /// The resolution from the last `-r`, as the bits of an `f32`
    /// (`f32::from_bits` gives it back); 150 DPI without one.
    pub dpi: Option<u32>,
    pub scale_to: Option<u32>,
    pub max_pages: Option<u32>,
    pub max_pixels: Option<u64>,
    pub max_memory: Option<u64>,
    pub png: bool,
    pub png_compress: u8,
    pub gray: bool,
    pub opw: Option<String>,
    pub upw: Option<String>,
    pub pdfium_dir: Option<String>,
    pub pdf: String,
    pub root: String,
}

/// The settings of one run, with their texts as characters.
pub struct OptionsModel {
    pub first: Option<u32>,
    pub last: Option<u32>,
    pub dpi: Option<u32>,
    pub scale_to: Option<u32>,
    pub max_pages: Option<u32>,
    pub max_pixels: Option<u64>,
    pub max_memory: Option<u64>,
    pub png: bool,
    pub png_compress: u8,
    pub gray: bool,
    pub opw: Option<Seq<char>>,
    pub upw: Option<Seq<char>>,
    pub pdfium_dir: Option<Seq<char>>,
    pub pdf: Seq<char>,
    pub root: Seq<char>,
}

impl View for Options {
    type V = OptionsModel;

    open spec fn view(&self) -> OptionsModel {
        OptionsModel {
            first: self.first,
            last: self.last,
            dpi: self.dpi,
            scale_to: self.scale_to,
            max_pages: self.max_pages,
            max_pixels: self.max_pixels,
            max_memory: self.max_memory,
            png: self.png,
            png_compress: self.png_compress,
            gray: self.gray,
            opw: opt_text(self.opw),
            upw: opt_text(self.upw),
            pdfium_dir: opt_text(self.pdfium_dir),
            pdf: self.pdf@,
            root: self.root@,
        }
    }
}

/// What the command line asks for.
pub enum Command {
    Render(Options),
    Version,
    Help,
}

/// What the command line asks for, with its texts as characters.
pub enum CommandModel {
    Render(OptionsModel),
    Version,
    Help,
}

impl View for Command {
    type V = CommandModel;

    open spec fn view(&self) -> CommandModel {
        match self {
            Command::Render(o) => CommandModel::Render(o@),
            Command::Version => CommandModel::Version,
            Command::Help => CommandModel::Help,
        }
    }
}

/// The outcome of parsing, with its texts as characters.
pub open spec fn parsed_view(r: Result<Command, UsageError>) -> Result<CommandModel, UsageFault> {
    match r {
        Ok(c) => Ok(c@),
        Err(e) => Err(e@),
    }
}

/// What has been read of the command line so far.
pub struct ScanModel {
    pub first: Option<u32>,
    pub last: Option<u32>,
    pub dpi: Option<u32>,
    /// Whether the resolution read so far is a positive finite number.
    pub dpi_ok: bool,
    pub scale_to: Option<u32>,
    pub max_pages: Option<u32>,
    pub max_pixels: Option<u64>,
    pub max_memory: Option<u64>,
    pub png: bool,
    pub png_compress: u8,
    pub gray: bool,
    pub opw: Option<Seq<char>>,
    pub upw: Option<Seq<char>>,
    pub pdfium_dir: Option<Seq<char>>,
    pub positional: Seq<Seq<char>>,
}

/// Nothing read yet: 150 DPI, PPM, color, PNG level 1.
pub open spec fn initial_scan() -> ScanModel {
    ScanModel {
        first: None,
        last: None,
        dpi: None,
        dpi_ok: true,
        scale_to: None,
        max_pages: None,
        max_pixels: None,
        max_memory: None,
        png: false,
        png_compress: 1,
        gray: false,
        opw: None,
        upw: None,
        pdfium_dir: None,
        positional: Seq::empty(),
    }
}

/// Reads the value `v` of option `f` into `st`, or refuses it when it does
/// not parse as the option's number type.
pub open spec fn spec_apply_value(st: ScanModel, f: ValueFlag, v: Seq<char>, read: FloatReading) -> Result<ScanModel, UsageFault> {
    let bad = Err(UsageFault::BadValue(f, v));
    match f {
        ValueFlag::First => match spec_parse_unsigned(v, u32::MAX as nat) {
            Some(n) => Ok(ScanModel { first: Some(n as u32), ..st }),
            None => bad,
        },
        ValueFlag::Last => match spec_parse_unsigned(v, u32::MAX as nat) {
            Some(n) => Ok(ScanModel { last: Some(n as u32), ..st }),
            None => bad,
        },
        ValueFlag::Resolution => match read {
            FloatReading::Unreadable => bad,
            FloatReading::PositiveFinite(bits) => Ok(ScanModel { dpi: Some(bits), dpi_ok: true, ..st }),
            FloatReading::OtherNumber(bits) => Ok(ScanModel { dpi: Some(bits), dpi_ok: false, ..st }),
        },
        ValueFlag::ScaleTo => match spec_parse_unsigned(v, u32::MAX as nat) {
            Some(n) => Ok(ScanModel { scale_to: Some(n as u32), ..st }),
            None => bad,
        },
        ValueFlag::MaxPages => match spec_parse_unsigned(v, u32::MAX as nat) {
            Some(n) => Ok(ScanModel { max_pages: Some(n as u32), ..st }),
            None => bad,
        },
        ValueFlag::MaxPixels => match spec_parse_unsigned(v, u64::MAX as nat) {
            Some(n) => Ok(ScanModel { max_pixels: Some(n as u64), ..st }),
            None => bad,
        },
        ValueFlag::MaxMemory => match spec_parse_unsigned(v, u64::MAX as nat) {
            Some(n) => Ok(ScanModel { max_memory: Some(n as u64), ..st }),
            None => bad,
        },
        ValueFlag::PngCompress => match spec_parse_unsigned(v, u8::MAX as nat) {
            Some(n) => Ok(ScanModel { png_compress: n as u8, ..st }),
            None => bad,
        },
        ValueFlag::OwnerPassword => Ok(ScanModel { opw: Some(v), ..st }),
        ValueFlag::UserPassword => Ok(ScanModel { upw: Some(v), ..st }),
        ValueFlag::PdfiumDir => Ok(ScanModel { pdfium_dir: Some(v), ..st }),
    }
}

/// Where a left-to-right reading of the arguments ends: with all of them
/// read, or stopped early by `-v`, `-h` or an error.
pub enum Scanned {
    Finished(ScanModel),
    Stopped(Result<CommandModel, UsageFault>),
}

/// Reads `args` from position `i` on, starting from `st`. An option that
/// takes a value consumes the next argument whatever it is.
pub open spec fn scan(args: Seq<Seq<char>>, reads: Seq<FloatReading>, i: int, st: ScanModel) -> Scanned
    decreases args.len() - i,
{
    if i < 0 || i >= args.len() {
        Scanned::Finished(st)
    } else {
        let a = args[i];
        match spec_arg_kind(a) {
            ArgKind::Takes(f) => if i + 1 >= args.len() {
                Scanned::Stopped(Err(UsageFault::MissingValue(f)))
            } else {
                match spec_apply_value(st, f, args[i + 1], reads[i + 1]) {
                    Ok(next) => scan(args, reads, i + 2, next),
                    Err(e) => Scanned::Stopped(Err(e)),
                }
            },
            ArgKind::Png => scan(args, reads, i + 1, ScanModel { png: true, ..st }),
            ArgKind::Gray => scan(args, reads, i + 1, ScanModel { gray: true, ..st }),
            ArgKind::Version => Scanned::Stopped(Ok(CommandModel::Version)),
            ArgKind::Help => Scanned::Stopped(Ok(CommandModel::Help)),
            ArgKind::Unsupported => Scanned::Stopped(Err(UsageFault::UnsupportedOption(a))),
            ArgKind::Positional => scan(
                args,
                reads,
                i + 1,
                ScanModel { positional: st.positional.push(a), ..st },
            ),
        }
    }
}

/// The checks after all arguments are read, in order: exactly two
/// positional arguments, a positive finite resolution, a PNG level of at
/// most 9, and no zero for `-scale-to`, `-max-pages` or `-max-pixels`.
pub open spec fn spec_finish(st: ScanModel) -> Result<CommandModel, UsageFault> {
    if st.positional.len() != 2 {
        Err(UsageFault::PositionalCount)
    } else if !st.dpi_ok {
        Err(UsageFault::ResolutionNotPositive)
    } else if st.png_compress > 9 {
        Err(UsageFault::PngCompressRange)
    } else if st.scale_to == Some(0u32) {
        Err(UsageFault::NotPositive(ValueFlag::ScaleTo))
    } else if st.max_pages == Some(0u32) {
        Err(UsageFault::NotPositive(ValueFlag::MaxPages))
    } else if st.max_pixels == Some(0u64) {
        Err(UsageFault::NotPositive(ValueFlag::MaxPixels))
    } else {
        Ok(
            CommandModel::Render(
                OptionsModel {
                    first: st.first,
                    last: st.last,
                    dpi: st.dpi,
                    scale_to: st.scale_to,
                    max_pages: st.max_pages,
                    max_pixels: st.max_pixels,
                    max_memory: st.max_memory,
                    png: st.png,
                    png_compress: st.png_compress,
                    gray: st.gray,
                    opw: st.opw,
                    upw: st.upw,
                    pdfium_dir: st.pdfium_dir,
                    pdf: st.positional[0],
                    root: st.positional[1],
                },
            ),
        )
    }
}

/// What a command line means: `args` are the arguments after the program
/// name, and `reads[i]` is how `args[i]` reads as an `f32`.
pub open spec fn spec_parse_args(args: Seq<Seq<char>>, reads: Seq<FloatReading>) -> Result<CommandModel, UsageFault> {
    match scan(args, reads, 0, initial_scan()) {
        Scanned::Finished(st) => spec_finish(st),
        Scanned::Stopped(r) => r,
    }
}

struct Scan {
    first: Option<u32>,
    last: Option<u32>,
    dpi: Option<u32>,
    dpi_ok: bool,
    scale_to: Option<u32>,
    max_pages: Option<u32>,
    max_pixels: Option<u64>,
    max_memory: Option<u64>,
    png: bool,
    png_compress: u8,
    gray: bool,
    opw: Option<String>,
    upw: Option<String>,
    pdfium_dir: Option<String>,
    positional: Vec<String>,
}

impl View for Scan {
    type V = ScanModel;

    closed spec fn view(&self) -> ScanModel {
        ScanModel {
            first: self.first,
            last: self.last,
            dpi: self.dpi,
            dpi_ok: self.dpi_ok,
            scale_to: self.scale_to,
            max_pages: self.max_pages,
            max_pixels: self.max_pixels,
            max_memory: self.max_memory,
            png: self.png,
            png_compress: self.png_compress,
            gray: self.gray,
            opw: opt_text(self.opw),
            upw: opt_text(self.upw),
            pdfium_dir: opt_text(self.pdfium_dir),
            positional: texts(self.positional@),
        }
    }
}

fn apply_value(st: &mut Scan, f: ValueFlag, v: &String, read: FloatReading) -> (r: Result<(), UsageError>)
    ensures
        match spec_apply_value(old(st)@, f, v@, read) {
            Ok(next) => r is Ok && final(st)@ == next,
            Err(e) => r matches Err(x) && x@ == e,
        },
{
    let s = v.as_str();
    match f {
        ValueFlag::First => match parse_unsigned(s, 0xffff_ffff) {
            Some(n) => { st.first = Some(n as u32); },
            None => { return Err(UsageError::BadValue(f, v.clone())); },
        },
        ValueFlag::Last => match parse_unsigned(s, 0xffff_ffff) {
            Some(n) => { st.last = Some(n as u32); },
            None => { return Err(UsageError::BadValue(f, v.clone())); },
        },
        ValueFlag::Resolution => match read {
            FloatReading::Unreadable => { return Err(UsageError::BadValue(f, v.clone())); },
            FloatReading::PositiveFinite(bits) => {
                st.dpi = Some(bits);
                st.dpi_ok = true;
            },
            FloatReading::OtherNumber(bits) => {
                st.dpi = Some(bits);
                st.dpi_ok = false;
            },
        },
        ValueFlag::ScaleTo => match parse_unsigned(s, 0xffff_ffff) {
            Some(n) => { st.scale_to = Some(n as u32); },
            None => { return Err(UsageError::BadValue(f, v.clone())); },
        },
        ValueFlag::MaxPages => match parse_unsigned(s, 0xffff_ffff) {
            Some(n) => { st.max_pages = Some(n as u32); },
            None => { return Err(UsageError::BadValue(f, v.clone())); },
        },
        ValueFlag::MaxPixels => match parse_unsigned(s, 0xffff_ffff_ffff_ffff) {
            Some(n) => { st.max_pixels = Some(n); },
            None => { return Err(UsageError::BadValue(f, v.clone())); },
        },
        ValueFlag::MaxMemory => match parse_unsigned(s, 0xffff_ffff_ffff_ffff) {
            Some(n) => { st.max_memory = Some(n); },
            None => { return Err(UsageError::BadValue(f, v.clone())); },
        },
        ValueFlag::PngCompress => match parse_unsigned(s, 0xff) {
            Some(n) => { st.png_compress = n as u8; },
            None => { return Err(UsageError::BadValue(f, v.clone())); },
        },
        ValueFlag::OwnerPassword => { st.opw = Some(v.clone()); },
        ValueFlag::UserPassword => { st.upw = Some(v.clone()); },
        ValueFlag::PdfiumDir => { st.pdfium_dir = Some(v.clone()); },
    }
    Ok(())
}

fn finish(st: Scan) -> (r: Result<Command, UsageError>)
    ensures
        parsed_view(r) == spec_finish(st@),
{
    let mut st = st;
    if st.positional.len() != 2 {
        return Err(UsageError::PositionalCount);
    }
    if !st.dpi_ok {
        return Err(UsageError::ResolutionNotPositive);
    }
    if st.png_compress > 9 {
        return Err(UsageError::PngCompressRange);
    }
    if st.scale_to == Some(0u32) {
        return Err(UsageError::NotPositive(ValueFlag::ScaleTo));
    }
    if st.max_pages == Some(0u32) {
        return Err(UsageError::NotPositive(ValueFlag::MaxPages));
    }
    if st.max_pixels == Some(0u64) {
        return Err(UsageError::NotPositive(ValueFlag::MaxPixels));
    }
    let root = st.positional.pop().unwrap();
    let pdf = st.positional.pop().unwrap();
    Ok(
        Command::Render(
            Options {
                first: st.first,
                last: st.last,
                dpi: st.dpi,
                scale_to: st.scale_to,
                max_pages: st.max_pages,
                max_pixels: st.max_pixels,
                max_memory: st.max_memory,
                png: st.png,
                png_compress: st.png_compress,
                gray: st.gray,
                opw: st.opw,
                upw: st.upw,
                pdfium_dir: st.pdfium_dir,
                pdf,
                root,
            },
        ),
    )
}

/// Reads the command line like pdftoppm does, left to right: `args` are
/// the arguments after the program name and `reads[i]` is how `args[i]`
/// reads as an `f32`. Unsupported options are refused, not ignored; `-v`
/// and `-h` stop reading where they stand.
pub fn parse_args(args: &Vec<String>, reads: &Vec<FloatReading>) -> (r: Result<Command, UsageError>)
    requires
        args.len() == reads.len(),
    ensures
        parsed_view(r) == spec_parse_args(texts(args@), reads@),
{
    let ghost all = texts(args@);
    let mut st = Scan {
        first: None,
        last: None,
        dpi: None,
        dpi_ok: true,
        scale_to: None,
        max_pages: None,
        max_pixels: None,
        max_memory: None,
        png: false,
        png_compress: 1,
        gray: false,
        opw: None,
        upw: None,
        pdfium_dir: None,
        positional: Vec::new(),
    };
    assert(st@.positional =~= Seq::<Seq<char>>::empty());
    let n = args.len();
    let mut i: usize = 0;
    while i < n
        invariant
            n == args.len(),
            n == reads.len(),
            all == texts(args@),
            i <= n,
            scan(all, reads@, 0, initial_scan()) == scan(all, reads@, i as int, st@),
        decreases n - i,
    {
        let a = &args[i];
        assert(all[i as int] == a@);
        match arg_kind(a.as_str()) {
            ArgKind::Takes(f) => {
                if i + 1 >= n {
                    return Err(UsageError::MissingValue(f));
                }
                assert(all[i + 1] == args@[i + 1]@);
                match apply_value(&mut st, f, &args[i + 1], reads[i + 1]) {
                    Ok(()) => {},
                    Err(e) => { return Err(e); },
                }
                i = i + 2;
            },
            ArgKind::Png => {
                st.png = true;
                i = i + 1;
            },
            ArgKind::Gray => {
                st.gray = true;
                i = i + 1;
            },
            ArgKind::Version => { return Ok(Command::Version); },
            ArgKind::Help => { return Ok(Command::Help); },
            ArgKind::Unsupported => { return Err(UsageError::UnsupportedOption(a.clone())); },
            ArgKind::Positional => {
                let ghost before = st@;
                st.positional.push(a.clone());
                assert(st@.positional =~= before.positional.push(a@));
                i = i + 1;
            },
        }
    }
    finish(st)
}

/// Whether reading `args` from position `i` on reads position `k` as an
/// option (rather than as the value of the option before it).
pub open spec fn read_as_option(args: Seq<Seq<char>>, i: int, k: int) -> bool
    decreases args.len() - i,
{
    if i < 0 || i >= args.len() {
        false
    } else if k == i {
        true
    } else {
        match spec_arg_kind(args[i]) {
            ArgKind::Takes(_) => if i + 2 <= args.len() {
                read_as_option(args, i + 2, k)
            } else {
                false
            },
            _ => read_as_option(args, i + 1, k),
        }
    }
}

/// An argument in option position that a run can go on after.
pub open spec fn is_run_option(k: ArgKind) -> bool {
    !(k is Unsupported || k is Version || k is Help)
}

/// The resolution held so far, when it counts as positive and finite, is
/// the value of some argument that reads as a positive finite number.
pub open spec fn resolution_was_read(args: Seq<Seq<char>>, reads: Seq<FloatReading>, st: ScanModel) -> bool {
    (st.dpi_ok && st.dpi is Some) ==> exists|j: int|
        0 <= j < args.len() && #[trigger] reads[j] == FloatReading::PositiveFinite(st.dpi->0)
}

proof fn lemma_scan(args: Seq<Seq<char>>, reads: Seq<FloatReading>, i: int, st: ScanModel)
    requires
        0 <= i,
        resolution_was_read(args, reads, st),
    ensures
        scan(args, reads, i, st) matches Scanned::Stopped(r) ==> !(r matches Ok(
            CommandModel::Render(_),
        )),
        scan(args, reads, i, st) matches Scanned::Finished(end) ==> {
            &&& resolution_was_read(args, reads, end)
            &&& forall|k: int| #[trigger]
                read_as_option(args, i, k) ==> is_run_option(spec_arg_kind(args[k]))
        },
    decreases args.len() - i,
{
    if i < args.len() {
        let a = args[i];
        let kind = spec_arg_kind(a);
        let step: int = if kind is Takes { 2 } else { 1 };
        let next_st = match kind {
            ArgKind::Takes(f) => if i + 1 < args.len() {
                match spec_apply_value(st, f, args[i + 1], reads[i + 1]) {
                    Ok(next) => next,
                    Err(_) => st,
                }
            } else {
                st
            },
            ArgKind::Png => ScanModel { png: true, ..st },
            ArgKind::Gray => ScanModel { gray: true, ..st },
            ArgKind::Positional => ScanModel { positional: st.positional.push(a), ..st },
            _ => st,
        };
        let goes_on = match kind {
            ArgKind::Takes(f) => i + 1 < args.len() && spec_apply_value(
                st,
                f,
                args[i + 1],
                reads[i + 1],
            ) is Ok,
            ArgKind::Png | ArgKind::Gray | ArgKind::Positional => true,
            _ => false,
        };
        if goes_on {
            if kind == ArgKind::Takes(ValueFlag::Resolution) && next_st.dpi_ok {
                assert(reads[i + 1] == FloatReading::PositiveFinite(next_st.dpi->0));
            }
            assert(resolution_was_read(args, reads, next_st));
            lemma_scan(args, reads, i + step, next_st);
            assert(scan(args, reads, i, st) == scan(args, reads, i + step, next_st));
            if scan(args, reads, i, st) is Finished {
                assert forall|k: int| #[trigger]
                    read_as_option(args, i, k) implies is_run_option(spec_arg_kind(args[k])) by {
                    if k != i {
                        assert(read_as_option(args, i + step, k));
                    }
                }
            }
        }
    }
}

/// An accepted command line holds only supported options: every argument
/// read in option position is a known option or a positional argument,
/// so an unsupported option is refused, never ignored.
pub proof fn lemma_accepted_command_line_has_only_supported_options(
    args: Seq<Seq<char>>,
    reads: Seq<FloatReading>,
)
    ensures
        spec_parse_args(args, reads) matches Ok(CommandModel::Render(_)) ==> forall|k: int|
            #[trigger] read_as_option(args, 0, k) ==> is_run_option(spec_arg_kind(args[k])),
{
    lemma_scan(args, reads, 0, initial_scan());
}

/// The settings of an accepted command line are in range: a PNG level of
/// at most 9, no zero for `-scale-to`, `-max-pages` or `-max-pixels`, and
/// a resolution, when given, that reads as a positive finite number.
pub proof fn lemma_accepted_options_in_range(args: Seq<Seq<char>>, reads: Seq<FloatReading>)
    ensures
        spec_parse_args(args, reads) matches Ok(CommandModel::Render(o)) ==> {
            &&& o.png_compress <= 9
            &&& o.scale_to != Some(0u32)
            &&& o.max_pages != Some(0u32)
            &&& o.max_pixels != Some(0u64)
            &&& o.dpi matches Some(d) ==> exists|j: int|
                0 <= j < args.len() && #[trigger] reads[j] == FloatReading::PositiveFinite(d)
        },
{
    lemma_scan(args, reads, 0, initial_scan());
}

/// An argument that does not start with `-`: a file name, not an option.
pub open spec fn is_plain_argument(a: Seq<char>) -> bool {
    a.len() == 0 || a[0] != '-'
}

proof fn lemma_option_names()
    ensures
        forall|f: ValueFlag| spec_arg_kind(#[trigger] f.spec_name()) == ArgKind::Takes(f),
        spec_arg_kind("-v"@) == ArgKind::Version,
        spec_arg_kind("-h"@) == ArgKind::Help,
        spec_arg_kind("-help"@) == ArgKind::Help,
        spec_arg_kind("--help"@) == ArgKind::Help,
        spec_arg_kind("-?"@) == ArgKind::Help,
        forall|a: Seq<char>| is_plain_argument(a) ==> spec_arg_kind(a) == ArgKind::Positional,
{
    reveal_strlit("-f");
    assert("-f"@ =~= seq!['-', 'f']);
    reveal_strlit("-l");
    assert("-l"@ =~= seq!['-', 'l']);
    reveal_strlit("-r");
    assert("-r"@ =~= seq!['-', 'r']);
    reveal_strlit("-scale-to");
    assert("-scale-to"@ =~= seq!['-', 's', 'c', 'a', 'l', 'e', '-', 't', 'o']);
    reveal_strlit("-max-pages");
    assert("-max-pages"@ =~= seq!['-', 'm', 'a', 'x', '-', 'p', 'a', 'g', 'e', 's']);
    reveal_strlit("-max-pixels");
    assert("-max-pixels"@ =~= seq!['-', 'm', 'a', 'x', '-', 'p', 'i', 'x', 'e', 'l', 's']);
    reveal_strlit("-max-memory");
    assert("-max-memory"@ =~= seq!['-', 'm', 'a', 'x', '-', 'm', 'e', 'm', 'o', 'r', 'y']);
    reveal_strlit("-png");
    assert("-png"@ =~= seq!['-', 'p', 'n', 'g']);
    reveal_strlit("-png-compress");
    assert("-png-compress"@ =~= seq!['-', 'p', 'n', 'g', '-', 'c', 'o', 'm', 'p', 'r', 'e', 's', 's']);
    reveal_strlit("-gray");
    assert("-gray"@ =~= seq!['-', 'g', 'r', 'a', 'y']);
    reveal_strlit("-opw");
    assert("-opw"@ =~= seq!['-', 'o', 'p', 'w']);
    reveal_strlit("-upw");
    assert("-upw"@ =~= seq!['-', 'u', 'p', 'w']);
    reveal_strlit("-pdfium");
    assert("-pdfium"@ =~= seq!['-', 'p', 'd', 'f', 'i', 'u', 'm']);
    reveal_strlit("-v");
    assert("-v"@ =~= seq!['-', 'v']);
    reveal_strlit("-h");
    assert("-h"@ =~= seq!['-', 'h']);
    reveal_strlit("-help");
    assert("-help"@ =~= seq!['-', 'h', 'e', 'l', 'p']);
    reveal_strlit("--help");
    assert("--help"@ =~= seq!['-', '-', 'h', 'e', 'l', 'p']);
    reveal_strlit("-?");
    assert("-?"@ =~= seq!['-', '?']);
    assert forall|f: ValueFlag| spec_arg_kind(#[trigger] f.spec_name()) == ArgKind::Takes(f) by {
        match f {
            ValueFlag::First => {},
            ValueFlag::Last => {},
            ValueFlag::Resolution => {},
            ValueFlag::ScaleTo => {},
            ValueFlag::MaxPages => {},
            ValueFlag::MaxPixels => {},
            ValueFlag::MaxMemory => {},
            ValueFlag::PngCompress => {},
            ValueFlag::OwnerPassword => {},
            ValueFlag::UserPassword => {},
            ValueFlag::PdfiumDir => {},
        }
    }
    assert forall|a: Seq<char>| is_plain_argument(a) implies spec_arg_kind(a)
        == ArgKind::Positional by {
        if a.len() > 0 {
            assert(a[0] != '-');
        }
    }
}

/// The settings read from one option with its value followed by two file
/// names, without the checks after reading.
proof fn lemma_one_option(
    f: ValueFlag,
    v: Seq<char>,
    pdf: Seq<char>,
    root: Seq<char>,
    reads: Seq<FloatReading>,
)
    requires
        is_plain_argument(pdf),
        is_plain_argument(root),
    ensures
        spec_parse_args(seq![f.spec_name(), v, pdf, root], reads) == match spec_apply_value(
            initial_scan(),
            f,
            v,
            reads[1],
        ) {
            Ok(st) => spec_finish(ScanModel { positional: seq![pdf, root], ..st }),
            Err(e) => Err(e),
        },
{
    lemma_option_names();
    let args = seq![f.spec_name(), v, pdf, root];
    assert(spec_arg_kind(args[0]) == ArgKind::Takes(f));
    assert(spec_arg_kind(args[2]) == ArgKind::Positional);
    assert(spec_arg_kind(args[3]) == ArgKind::Positional);
    match spec_apply_value(initial_scan(), f, v, reads[1]) {
        Ok(st) => {
            assert(st.positional == Seq::<Seq<char>>::empty());
            let st2 = ScanModel { positional: st.positional.push(pdf), ..st };
            let st3 = ScanModel { positional: st2.positional.push(root), ..st2 };
            assert(scan(args, reads, 4, st3) == Scanned::Finished(st3));
            assert(scan(args, reads, 3, st2) == scan(args, reads, 4, st3));
            assert(scan(args, reads, 2, st) == scan(args, reads, 3, st2));
            assert(scan(args, reads, 0, initial_scan()) == scan(args, reads, 2, st));
            assert(st3.positional =~= seq![pdf, root]);
            assert(st3 == ScanModel { positional: seq![pdf, root], ..st });
        },
        Err(e) => {},
    }
}

/// Two file names alone run with every default: all pages, 150 DPI, color
/// PPM, PNG level 1, no limits, no passwords, the first name the PDF and the
/// second the output root.
pub proof fn lemma_two_file_names_run_with_defaults(pdf: Seq<char>, root: Seq<char>, reads: Seq<FloatReading>)
    requires
        is_plain_argument(pdf),
        is_plain_argument(root),
    ensures
        spec_parse_args(seq![pdf, root], reads) == Ok::<CommandModel, UsageFault>(
            CommandModel::Render(
                OptionsModel {
                    first: None,
                    last: None,
                    dpi: None,
                    scale_to: None,
                    max_pages: None,
                    max_pixels: None,
                    max_memory: None,
                    png: false,
                    png_compress: 1,
                    gray: false,
                    opw: None,
                    upw: None,
                    pdfium_dir: None,
                    pdf,
                    root,
                },
            ),
        ),
{
    lemma_option_names();
    let args = seq![pdf, root];
    let st0 = initial_scan();
    let st1 = ScanModel { positional: st0.positional.push(pdf), ..st0 };
    let st2 = ScanModel { positional: st1.positional.push(root), ..st1 };
    assert(spec_arg_kind(args[0]) == ArgKind::Positional);
    assert(spec_arg_kind(args[1]) == ArgKind::Positional);
    assert(scan(args, reads, 2, st2) == Scanned::Finished(st2));
    assert(scan(args, reads, 1, st1) == scan(args, reads, 2, st2));
    assert(scan(args, reads, 0, st0) == scan(args, reads, 1, st1));
    assert(st2.positional =~= seq![pdf, root]);
}

/// `-max-memory` takes any `u64` in MiB, 0 included (it turns the limit
/// off later), and nothing larger.
pub proof fn lemma_memory_limit_takes_any_u64(n: nat, pdf: Seq<char>, root: Seq<char>, reads: Seq<FloatReading>)
    requires
        is_plain_argument(pdf),
        is_plain_argument(root),
    ensures
        n <= u64::MAX ==> (spec_parse_args(
            seq!["-max-memory"@, decimal_digits(n), pdf, root],
            reads,
        ) matches Ok(CommandModel::Render(o)) && o.max_memory == Some(n as u64) && o.pdf == pdf
            && o.root == root),
        n > u64::MAX ==> spec_parse_args(seq!["-max-memory"@, decimal_digits(n), pdf, root], reads)
            == Err::<CommandModel, UsageFault>(
            UsageFault::BadValue(ValueFlag::MaxMemory, decimal_digits(n)),
        ),
{
    lemma_one_option(ValueFlag::MaxMemory, decimal_digits(n), pdf, root, reads);
    lemma_parse_decimal_digits(n, u64::MAX as nat);
}

/// `-max-pixels` takes any positive `u64`; 0 is refused as not positive,
/// and a larger number as a bad value.
pub proof fn lemma_pixel_limit_takes_positive_u64(n: nat, pdf: Seq<char>, root: Seq<char>, reads: Seq<FloatReading>)
    requires
        is_plain_argument(pdf),
        is_plain_argument(root),
    ensures
        0 < n <= u64::MAX ==> (spec_parse_args(
            seq!["-max-pixels"@, decimal_digits(n), pdf, root],
            reads,
        ) matches Ok(CommandModel::Render(o)) && o.max_pixels == Some(n as u64) && o.pdf == pdf
            && o.root == root),
        n == 0 ==> spec_parse_args(seq!["-max-pixels"@, decimal_digits(n), pdf, root], reads)
            == Err::<CommandModel, UsageFault>(UsageFault::NotPositive(ValueFlag::MaxPixels)),
        n > u64::MAX ==> spec_parse_args(seq!["-max-pixels"@, decimal_digits(n), pdf, root], reads)
            == Err::<CommandModel, UsageFault>(
            UsageFault::BadValue(ValueFlag::MaxPixels, decimal_digits(n)),
        ),
{
    lemma_one_option(ValueFlag::MaxPixels, decimal_digits(n), pdf, root, reads);
    lemma_parse_decimal_digits(n, u64::MAX as nat);
}

/// `-f` and `-l` take any `u32` page number, 0 included, and nothing larger.
pub proof fn lemma_page_bounds_take_any_u32(n: nat, pdf: Seq<char>, root: Seq<char>, reads: Seq<FloatReading>)
    requires
        is_plain_argument(pdf),
        is_plain_argument(root),
    ensures
        n <= u32::MAX ==> (spec_parse_args(seq!["-f"@, decimal_digits(n), pdf, root], reads) matches Ok(
            CommandModel::Render(o),
        ) && o.first == Some(n as u32) && o.last is None),
        n <= u32::MAX ==> (spec_parse_args(seq!["-l"@, decimal_digits(n), pdf, root], reads) matches Ok(
            CommandModel::Render(o),
        ) && o.last == Some(n as u32) && o.first is None),
        n > u32::MAX ==> spec_parse_args(seq!["-f"@, decimal_digits(n), pdf, root], reads) == Err::<
            CommandModel,
            UsageFault,
        >(UsageFault::BadValue(ValueFlag::First, decimal_digits(n))),
        n > u32::MAX ==> spec_parse_args(seq!["-l"@, decimal_digits(n), pdf, root], reads) == Err::<
            CommandModel,
            UsageFault,
        >(UsageFault::BadValue(ValueFlag::Last, decimal_digits(n))),
{
    lemma_one_option(ValueFlag::First, decimal_digits(n), pdf, root, reads);
    lemma_one_option(ValueFlag::Last, decimal_digits(n), pdf, root, reads);
    lemma_parse_decimal_digits(n, u32::MAX as nat);
}

/// `-scale-to` and `-max-pages` take any positive `u32`; 0 is refused as
/// not positive.
pub proof fn lemma_scale_and_page_count_take_positive_u32(
    n: nat,
    pdf: Seq<char>,
    root: Seq<char>,
    reads: Seq<FloatReading>,
)
    requires
        is_plain_argument(pdf),
        is_plain_argument(root),
    ensures
        0 < n <= u32::MAX ==> (spec_parse_args(
            seq!["-scale-to"@, decimal_digits(n), pdf, root],
            reads,
        ) matches Ok(CommandModel::Render(o)) && o.scale_to == Some(n as u32)),
        0 < n <= u32::MAX ==> (spec_parse_args(
            seq!["-max-pages"@, decimal_digits(n), pdf, root],
            reads,
        ) matches Ok(CommandModel::Render(o)) && o.max_pages == Some(n as u32)),
        n == 0 ==> spec_parse_args(seq!["-scale-to"@, decimal_digits(n), pdf, root], reads)
            == Err::<CommandModel, UsageFault>(UsageFault::NotPositive(ValueFlag::ScaleTo)),
        n == 0 ==> spec_parse_args(seq!["-max-pages"@, decimal_digits(n), pdf, root], reads)
            == Err::<CommandModel, UsageFault>(UsageFault::NotPositive(ValueFlag::MaxPages)),
{
    lemma_one_option(ValueFlag::ScaleTo, decimal_digits(n), pdf, root, reads);
    lemma_one_option(ValueFlag::MaxPages, decimal_digits(n), pdf, root, reads);
    lemma_parse_decimal_digits(n, u32::MAX as nat);
}

/// `-png-compress` takes the levels 0 to 9; 10 to 255 are refused as out
/// of range, and anything larger as a bad value for a `u8`.
pub proof fn lemma_png_level_is_0_to_9(n: nat, pdf: Seq<char>, root: Seq<char>, reads: Seq<FloatReading>)
    requires
        is_plain_argument(pdf),
        is_plain_argument(root),
    ensures
        n <= 9 ==> (spec_parse_args(seq!["-png-compress"@, decimal_digits(n), pdf, root], reads) matches Ok(
            CommandModel::Render(o),
        ) && o.png_compress == n as u8 && !o.png),
        10 <= n <= 255 ==> spec_parse_args(seq!["-png-compress"@, decimal_digits(n), pdf, root], reads)
            == Err::<CommandModel, UsageFault>(UsageFault::PngCompressRange),
        n > 255 ==> spec_parse_args(seq!["-png-compress"@, decimal_digits(n), pdf, root], reads)
            == Err::<CommandModel, UsageFault>(
            UsageFault::BadValue(ValueFlag::PngCompress, decimal_digits(n)),
        ),
{
    lemma_one_option(ValueFlag::PngCompress, decimal_digits(n), pdf, root, reads);
    lemma_parse_decimal_digits(n, u8::MAX as nat);
}

/// `-r` keeps a value that reads as a positive finite number; another
/// number is refused after reading, and text that is no number at once.
pub proof fn lemma_resolution_must_be_positive(
    v: Seq<char>,
    bits: u32,
    pdf: Seq<char>,
    root: Seq<char>,
    reads: Seq<FloatReading>,
)
    requires
        is_plain_argument(pdf),
        is_plain_argument(root),
    ensures
        reads[1] == FloatReading::PositiveFinite(bits) ==> (spec_parse_args(
            seq!["-r"@, v, pdf, root],
            reads,
        ) matches Ok(CommandModel::Render(o)) && o.dpi == Some(bits)),
        reads[1] == FloatReading::OtherNumber(bits) ==> spec_parse_args(seq!["-r"@, v, pdf, root], reads)
            == Err::<CommandModel, UsageFault>(UsageFault::ResolutionNotPositive),
        reads[1] == FloatReading::Unreadable ==> spec_parse_args(seq!["-r"@, v, pdf, root], reads)
            == Err::<CommandModel, UsageFault>(UsageFault::BadValue(ValueFlag::Resolution, v)),
{
    lemma_one_option(ValueFlag::Resolution, v, pdf, root, reads);
}

/// Passwords and the library directory are taken as given, whatever they
/// look like.
pub proof fn lemma_text_values_kept(v: Seq<char>, pdf: Seq<char>, root: Seq<char>, reads: Seq<FloatReading>)
    requires
        is_plain_argument(pdf),
        is_plain_argument(root),
    ensures
        spec_parse_args(seq!["-opw"@, v, pdf, root], reads) matches Ok(CommandModel::Render(o)) && o.opw
            == Some(v) && o.upw is None,
        spec_parse_args(seq!["-upw"@, v, pdf, root], reads) matches Ok(CommandModel::Render(o)) && o.upw
            == Some(v) && o.opw is None,
        spec_parse_args(seq!["-pdfium"@, v, pdf, root], reads) matches Ok(CommandModel::Render(o))
            && o.pdfium_dir == Some(v),
{
    lemma_one_option(ValueFlag::OwnerPassword, v, pdf, root, reads);
    lemma_one_option(ValueFlag::UserPassword, v, pdf, root, reads);
    lemma_one_option(ValueFlag::PdfiumDir, v, pdf, root, reads);
}

/// `-v` and `-h` (also `-help`, `--help`, `-?`) answer at once, whatever
/// follows them.
pub proof fn lemma_version_and_help_answer_at_once(rest: Seq<Seq<char>>, reads: Seq<FloatReading>)
    ensures
        spec_parse_args(seq!["-v"@] + rest, reads) == Ok::<CommandModel, UsageFault>(CommandModel::Version),
        spec_parse_args(seq!["-h"@] + rest, reads) == Ok::<CommandModel, UsageFault>(CommandModel::Help),
        spec_parse_args(seq!["-help"@] + rest, reads) == Ok::<CommandModel, UsageFault>(CommandModel::Help),
        spec_parse_args(seq!["--help"@] + rest, reads) == Ok::<CommandModel, UsageFault>(CommandModel::Help),
        spec_parse_args(seq!["-?"@] + rest, reads) == Ok::<CommandModel, UsageFault>(CommandModel::Help),
{
    lemma_option_names();
    assert((seq!["-v"@] + rest)[0] == "-v"@);
    assert((seq!["-h"@] + rest)[0] == "-h"@);
    assert((seq!["-help"@] + rest)[0] == "-help"@);
    assert((seq!["--help"@] + rest)[0] == "--help"@);
    assert((seq!["-?"@] + rest)[0] == "-?"@);
}

} // verus!
