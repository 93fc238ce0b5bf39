use vstd::prelude::*;
use vstd::string::*;

use crate::decimal::{
    append_decimal, append_zero_padded, decimal_digits, decimal_width, lemma_width_monotone,
    lemma_zero_padded_injective, zero_padded,
};

verus! {

/// `a + b`, capped at `u32::MAX`.
pub open spec fn sat_add_u32(a: int, b: int) -> int {
    if a + b > u32::MAX { u32::MAX as int } else { a + b }
}

/// `a - b`, floored at zero.
pub open spec fn sat_sub_u32(a: int, b: int) -> int {
    if a - b < 0 { 0 } else { a - b }
}

/// The first page to render: `-f` as given, but never below page 1.
pub open spec fn clamped_first(first: Option<u32>) -> int {
    match first {
        Some(f) => if f < 1 { 1 } else { f as int },
        None => 1,
    }
}

/// The last page to render: `-l` (default: the last page) cut to the
/// document, then cut so that at most `max_pages` pages follow `first`.
pub open spec fn clamped_last(n_pages: u32, first: int, last: Option<u32>, max_pages: Option<u32>) -> int {
    let requested = match last {
        Some(l) => if l < n_pages { l as int } else { n_pages as int },
        None => n_pages as int,
    };
    match max_pages {
        Some(m) => {
            let cap = sat_sub_u32(sat_add_u32(first, m as int), 1);
            if requested < cap { requested } else { cap }
        },
        None => requested,
    }
}

/// The page range `(first, last)` that a run covers, or the clamped pair
/// when it is empty.
pub open spec fn spec_page_range(
    n_pages: u32,
    first: Option<u32>,
    last: Option<u32>,
    max_pages: Option<u32>,
) -> Result<(u32, u32), (u32, u32)> {
    let f = clamped_first(first);
    let l = clamped_last(n_pages, f, last, max_pages);
    if f > l {
        Err((f as u32, l as u32))
    } else {
        Ok((f as u32, l as u32))
    }
}

/// Clamps the requested pages to the document like pdftoppm: `-f` below 1
/// is 1, `-l` past the end is the end, and `-max-pages` cuts the range after
/// `-f`. An empty range is an error that carries the clamped pair.
pub fn page_range(
    n_pages: u32,
    first: Option<u32>,
    last: Option<u32>,
    max_pages: Option<u32>,
) -> (r: Result<(u32, u32), (u32, u32)>)
    ensures
        r == spec_page_range(n_pages, first, last, max_pages),
        r matches Ok((f, l)) ==> 1 <= f <= l <= n_pages,
        r matches Ok((f, l)) ==> (max_pages matches Some(m) ==> l - f + 1 <= m),
        r matches Err((f, l)) ==> f > l && f >= 1 && l <= n_pages,
{
    let f: u32 = match first {
        Some(x) => if x < 1 { 1 } else { x },
        None => 1,
    };
    let mut l: u32 = match last {
        Some(x) => if x < n_pages { x } else { n_pages },
        None => n_pages,
    };
    if let Some(m) = max_pages {
        let cap: u32 = f.saturating_add(m).saturating_sub(1);
        if cap < l {
            l = cap;
        }
    }
    if f > l {
        Err((f, l))
    } else {
        Ok((f, l))
    }
}

/// The image format of the output files.
#[derive(Clone, Copy, Debug, PartialEq, Eq, Structural)]
pub enum OutputFormat {
    Png,
    Pgm,
    Ppm,
}

/// PNG with `-png`, else binary PGM for `-gray` and binary PPM for color.
pub open spec fn spec_output_format(png: bool, gray: bool) -> OutputFormat {
    if png {
        OutputFormat::Png
    } else if gray {
        OutputFormat::Pgm
    } else {
        OutputFormat::Ppm
    }
}

/// Chooses the format of the output files.
pub fn output_format(png: bool, gray: bool) -> (f: OutputFormat)
    ensures
        f == spec_output_format(png, gray),
{
    if png {
        OutputFormat::Png
    } else if gray {
        OutputFormat::Pgm
    } else {
        OutputFormat::Ppm
    }
}

impl OutputFormat {
    pub open spec fn spec_extension(self) -> Seq<char> {
        match self {
            OutputFormat::Png => "png"@,
            OutputFormat::Pgm => "pgm"@,
            OutputFormat::Ppm => "ppm"@,
        }
    }

    /// The file name extension of the format.
    pub fn extension(&self) -> (e: &'static str)
        ensures
            e@ == self.spec_extension(),
    {
        match self {
            OutputFormat::Png => "png",
            OutputFormat::Pgm => "pgm",
            OutputFormat::Ppm => "ppm",
        }
    }
}

/// The name of the output file of a page: `<root>-<N>.<ext>`, with `N`
/// zero-padded to `width` digits.
pub open spec fn spec_output_path(root: Seq<char>, page: nat, width: nat, ext: Seq<char>) -> Seq<char> {
    root + "-"@ + zero_padded(decimal_digits(page), width) + "."@ + ext
}

/// How many digits page numbers are padded to: the width of the page count.
pub fn page_number_width(n_pages: u32) -> (w: usize)
    ensures
        w == decimal_digits(n_pages as nat).len(),
{
    decimal_width(n_pages as u64)
}

/// Names the output file of page `page`.
pub fn output_path(root: &str, page: u32, width: usize, format: OutputFormat) -> (p: String)
    ensures
        p@ == spec_output_path(root@, page as nat, width as nat, format.spec_extension()),
{
    let mut p = String::from_str(root);
    p.append("-");
    append_zero_padded(&mut p, page as u64, width);
    p.append(".");
    p.append(format.extension());
    p
}

/// Different pages of a run get different output files.
pub proof fn lemma_output_paths_distinct(root: Seq<char>, a: nat, b: nat, width: nat, ext: Seq<char>)
    requires
        a != b,
    ensures
        spec_output_path(root, a, width, ext) != spec_output_path(root, b, width, ext),
{
    reveal_strlit("-");
    reveal_strlit(".");
    let pa = zero_padded(decimal_digits(a), width);
    let pb = zero_padded(decimal_digits(b), width);
    let x = spec_output_path(root, a, width, ext);
    let y = spec_output_path(root, b, width, ext);
    assert("-"@.len() == 1);
    assert("."@.len() == 1);
    assert(x.len() == root.len() + 1 + pa.len() + 1 + ext.len());
    assert(y.len() == root.len() + 1 + pb.len() + 1 + ext.len());
    if x == y {
        assert(pa.len() == pb.len());
        let start: int = root.len() as int + 1;
        assert(x.subrange(start, start + pa.len()) =~= pa);
        assert(y.subrange(start, start + pb.len()) =~= pb);
        lemma_zero_padded_injective(a, b, width);
    }
}

/// Every page of a document gets a number of the same width, so all the
/// output names of a run have the same length.
pub proof fn lemma_page_numbers_fill_width(n_pages: nat, page: nat)
    requires
        page <= n_pages,
    ensures
        zero_padded(decimal_digits(page), decimal_digits(n_pages).len()).len() == decimal_digits(
            n_pages,
        ).len(),
{
    lemma_width_monotone(page, n_pages);
}

/// A non-empty range lies inside the document and holds at most
/// `max_pages` pages; with no `-l` and no `-max-pages` it runs to the end.
pub proof fn lemma_page_range_within_document(
    n_pages: u32,
    first: Option<u32>,
    last: Option<u32>,
    max_pages: Option<u32>,
)
    ensures
        spec_page_range(n_pages, first, last, max_pages) matches Ok((f, l)) ==> {
            &&& 1 <= f <= l <= n_pages
            &&& max_pages matches Some(m) ==> l - f + 1 <= m
            &&& (last is None && max_pages is None) ==> l == n_pages
        },
        n_pages == 0 ==> spec_page_range(n_pages, first, last, max_pages) is Err,
{
}

/// What the user is told when the clamped range is empty.
pub open spec fn spec_empty_range_message(first: u32, last: u32) -> Seq<char> {
    "wrong page range given: the first page ("@ + decimal_digits(first as nat)
        + ") can not be after the last page ("@ + decimal_digits(last as nat) + ")"@
}

/// Tells the user that the clamped page range `first..=last` is empty.
pub fn empty_range_message(first: u32, last: u32) -> (m: String)
    ensures
        m@ == spec_empty_range_message(first, last),
{
    let mut m = String::from_str("wrong page range given: the first page (");
    append_decimal(&mut m, first as u64);
    m.append(") can not be after the last page (");
    append_decimal(&mut m, last as u64);
    m.append(")");
    m
}

} // verus!
