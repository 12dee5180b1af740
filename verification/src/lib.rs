//! Generator of synthetic fixed-page-size PDF sample documents.
//!
//! The library plans a document as pure data: for every page it builds the
//! ordered set of text lines, centers them on an A4 page, and appends filler
//! draw commands that push the encoded page toward a per-page byte budget.
//! The unverified binary around the library only parses arguments, performs
//! the planned draw commands through the PDF encoder, and prints messages.
//!
//! All page coordinates are held in millipoints (thousandths of a PDF user
//! unit) so the centering arithmetic is exact integer arithmetic.

use vstd::prelude::*;

pub mod filler;
pub mod layout;
pub mod messenger;
pub mod metrics;
pub mod numfmt;
pub mod utils;

verus! {

/// A4 page width, in millipoints (595 pt).
pub const A4_WIDTH_MPT: i64 = 595000;

/// A4 page height, in millipoints (842 pt).
pub const A4_HEIGHT_MPT: i64 = 842000;

/// Font size used for every rendered line, in millipoints (24 pt).
pub const FONT_SIZE_MPT: i64 = 24000;

/// Font size used for every rendered line, in points.
pub const FONT_SIZE_PT: i64 = 24;

/// Vertical gap between consecutive lines, in millipoints (10 pt).
pub const LINE_SPACING_MPT: i64 = 10000;

/// An 8-bit RGB fill color for the rendered text.
#[derive(Clone, Copy, PartialEq, Eq, Structural, Debug)]
pub struct Rgb {
    pub red: u8,
    pub green: u8,
    pub blue: u8,
}

/// One run's immutable generation request.
///
/// `random_string` is drawn once per run and reused verbatim on every page,
/// and `pages` must be at least 1.
#[derive(Clone, Debug)]
pub struct Args {
    /// Fill color of every rendered text line.
    pub color: Rgb,
    /// Number of pages to generate; at least 1.
    pub pages: u16,
    /// Explicit output file name, if the caller gave one.
    pub output: Option<String>,
    /// Target total output size in bytes, distributed across all pages.
    pub size: Option<u64>,
    /// Words of the text to print, joined with single spaces.
    pub text: Vec<String>,
    /// Leave the random token off the pages.
    pub no_random_string: bool,
    /// Leave the page-number line off the pages.
    pub no_pagenum: bool,
    /// Leave the size-information line off the pages.
    pub no_sizeinfo: bool,
    /// Do not print stats after a run.
    pub no_stats: bool,
    /// Print only the resulting file name on success.
    pub silent: bool,
    /// The run's random token: decimal digits, drawn once per run.
    pub random_string: String,
    /// Print debug messages.
    pub debug: bool,
}

impl Args {
    /// The request invariant: at least one page is asked for.
    pub open spec fn wf(&self) -> bool {
        self.pages >= 1
    }
}

/// One planned draw instruction: show `text` with its first baseline point
/// at `(x_mpt, y_mpt)`, in millipoints from the page's bottom-left corner.
pub struct DrawCmd {
    pub x_mpt: i64,
    pub y_mpt: i64,
    pub text: String,
}

/// The anticipated configuration error: no output name was given and the
/// color has no canonical name to derive one from.
#[derive(Clone, Copy, PartialEq, Eq, Structural, Debug)]
pub enum GenError {
    UnnamedColor,
}

/// The byte budget granted to every page: the target total size divided
/// evenly across the pages, remainder discarded.
pub open spec fn page_budget_spec(total: int, pages: int) -> int {
    total / pages
}

/// Computes one page's byte budget from the requested total size.
pub fn budget_per_page(total: u64, pages: u16) -> (budget: u64)
    requires
        pages >= 1,
    ensures
        budget == page_budget_spec(total as int, pages as int),
{
    total / (pages as u64)
}

/// Plans the whole document: one plan per page, pages in order.
///
/// The page count of the output equals the requested page count, and every
/// page's plan is its centered line set followed by its filler instructions.
pub fn plan_document(args: &Args) -> (pages: Vec<Vec<DrawCmd>>)
    requires
        args.wf(),
        layout::join_spec(layout::word_views(args.text@)).len()
            <= metrics::MAX_MEASURED_LEN,
        args.random_string@.len() <= metrics::MAX_MEASURED_LEN,
        args.size is Some ==> filler::filler_count_spec(
            page_budget_spec(args.size->0 as int, args.pages as int),
        ) <= usize::MAX,
    ensures
        pages@.len() == args.pages as int,
        forall|p: int|
            0 <= p < pages@.len() ==> layout::page_plan_wf(*args, p, (#[trigger] pages@[p])@),
{
    let mut pages_out: Vec<Vec<DrawCmd>> = Vec::new();
    let mut p: u16 = 0;
    while p < args.pages
        invariant
            args.wf(),
            layout::join_spec(layout::word_views(args.text@)).len()
                <= metrics::MAX_MEASURED_LEN,
            args.random_string@.len() <= metrics::MAX_MEASURED_LEN,
            args.size is Some ==> filler::filler_count_spec(
                page_budget_spec(args.size->0 as int, args.pages as int),
            ) <= usize::MAX,
            p <= args.pages,
            pages_out@.len() == p as int,
            forall|q: int|
                0 <= q < p as int ==> layout::page_plan_wf(
                    *args,
                    q,
                    (#[trigger] pages_out@[q])@,
                ),
        decreases args.pages - p,
    {
        let plan = layout::render_page(args, p);
        pages_out.push(plan);
        p = p + 1;
    }
    pages_out
}

/// Law: the per-page budgets cover the requested total up to a shortfall of
/// at most `pages - 1` bytes; the remainder of the division is never
/// redistributed, so under-allocation by that much is expected.
pub proof fn lemma_budget_partition(total: u64, pages: u16)
    requires
        pages >= 1,
    ensures
        pages as int * page_budget_spec(total as int, pages as int) <= total as int,
        total as int - pages as int * page_budget_spec(total as int, pages as int)
            <= pages as int - 1,
{
    vstd::arithmetic::div_mod::lemma_fundamental_div_mod(total as int, pages as int);
    vstd::arithmetic::div_mod::lemma_mod_division_less_than_divisor(total as int, pages as int);
}

} // verus!
