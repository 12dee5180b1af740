//! The layout engine: builds each page's ordered line set and centers it,
//! as a block, on the fixed A4 page.
//!
//! Coordinates follow the PDF encoder's convention: the origin is the page's
//! bottom-left corner and y grows upward, so the vertical cursor decreases
//! as rendering proceeds downward. All values are millipoints.

use vstd::prelude::*;

use crate::filler::{filler_cmd_ok, filler_count_spec, generate_data};
use crate::metrics::{helvetica_raw_width, measure_helvetica_raw, MAX_MEASURED_LEN};
use crate::numfmt::{dec_spec, lemma_dec_spec_len, spec_pow10, u16_to_string};
use crate::{budget_per_page, page_budget_spec, Args, DrawCmd};
use crate::{A4_HEIGHT_MPT, A4_WIDTH_MPT, FONT_SIZE_MPT, FONT_SIZE_PT, LINE_SPACING_MPT};

verus! {

/// The words of the text, as character sequences.
pub open spec fn word_views(words: Seq<String>) -> Seq<Seq<char>> {
    words.map_values(|w: String| w@)
}

/// The words of the text, joined with single spaces.
pub open spec fn join_spec(words: Seq<Seq<char>>) -> Seq<char>
    decreases words.len(),
{
    if words.len() == 0 {
        Seq::empty()
    } else if words.len() == 1 {
        words[0]
    } else {
        join_spec(words.drop_last()) + seq![' '] + words.last()
    }
}

/// The human-readable rendering of a byte count, as the size-information
/// line shows it.
pub uninterp spec fn size_text_of(bytes: u64) -> Seq<char>;

/// Relies on bytesize's `Display` for `ByteSize`: the human-readable
/// rendering of the byte count, a pure function of the value; every branch
/// of its formatter yields at most 30 characters (at most a 20-digit number,
/// a space and a unit).
#[verifier::external_body]
fn format_byte_size(bytes: u64) -> (r: String)
    ensures
        r@ == size_text_of(bytes),
        r@.len() <= 30,
{
    format!("{}", bytesize::ByteSize::b(bytes))
}

/// The size-information line for a requested total size.
pub open spec fn size_line_spec(bytes: u64) -> Seq<char> {
    "File size: "@ + size_text_of(bytes)
}

/// The page-number line for 1-based page `page1` of `pages`.
pub open spec fn page_line_spec(page1: int, pages: int) -> Seq<char> {
    "Page "@ + dec_spec(page1) + " of "@ + dec_spec(pages)
}

/// The ordered set of lines rendered on 0-based page `page`: the joined
/// text, then the run's random token, then the size-information line, then
/// the page-number line, each of the last three only when called for.
pub open spec fn line_set_spec(args: Args, page: int) -> Seq<Seq<char>> {
    let with_text = seq![join_spec(word_views(args.text@))];
    let with_token = if !args.no_random_string {
        with_text.push(args.random_string@)
    } else {
        with_text
    };
    let with_size = if args.size is Some && !args.no_sizeinfo {
        with_token.push(size_line_spec(args.size->0))
    } else {
        with_token
    };
    if args.pages > 1 && !args.no_pagenum {
        with_size.push(page_line_spec(page + 1, args.pages as int))
    } else {
        with_size
    }
}

/// A page's line set holds the joined text and at most three extra lines.
pub proof fn lemma_line_set_len(args: Args, page: int)
    ensures
        1 <= line_set_spec(args, page).len() <= 4,
{
}

/// The vertical cursor of the first (topmost) line of a block of `n` lines:
/// the block's height is `n` font sizes plus `n - 1` gaps, and the first
/// baseline is placed so the block sits centered in the page height.
pub open spec fn y0_spec(n: int) -> int {
    (A4_HEIGHT_MPT + (FONT_SIZE_MPT + LINE_SPACING_MPT) * n - LINE_SPACING_MPT) / 2 - FONT_SIZE_MPT
}

/// The horizontal offset that centers a line of raw advance width
/// `raw_width`: half of what the page width leaves over. The rendered width
/// at the configured font size, in millipoints, is the font size in points
/// times the raw width.
pub open spec fn x_center_spec(raw_width: u32) -> int {
    (A4_WIDTH_MPT - FONT_SIZE_PT * raw_width) / 2
}

/// One centered text instruction: line `i` of the set, at the block's
/// horizontal center, one line step below its predecessor.
pub open spec fn text_cmd_ok(lines: Seq<Seq<char>>, i: int, cmd: DrawCmd) -> bool {
    &&& cmd.text@ == lines[i]
    &&& cmd.y_mpt == y0_spec(lines.len() as int) - i * (FONT_SIZE_MPT + LINE_SPACING_MPT)
    &&& cmd.x_mpt == x_center_spec(helvetica_raw_width(lines[i]))
}

/// A full page plan: every line of the page's line set as a centered text
/// instruction, followed by exactly the filler instructions its byte budget
/// earns.
pub open spec fn page_plan_wf(args: Args, page: int, cmds: Seq<DrawCmd>) -> bool {
    let lines = line_set_spec(args, page);
    let nfill = if args.size is Some {
        filler_count_spec(page_budget_spec(args.size->0 as int, args.pages as int))
    } else {
        0
    };
    &&& cmds.len() == lines.len() + nfill
    &&& forall|i: int| 0 <= i < lines.len() ==> text_cmd_ok(lines, i, #[trigger] cmds[i])
    &&& forall|i: int| lines.len() <= i < cmds.len() ==> filler_cmd_ok(#[trigger] cmds[i])
}

/// Law: with more than one page and page numbers on, every page's line set
/// ends with that page's own 1-based "Page i of N" line.
pub proof fn lemma_page_number_line(args: Args, page: int)
    requires
        args.wf(),
        args.pages > 1,
        !args.no_pagenum,
        0 <= page < args.pages as int,
    ensures
        line_set_spec(args, page).last() == page_line_spec(page + 1, args.pages as int),
{
}

/// Law: when the token is on, it stands at index 1 of every page's line
/// set, so any two pages of one run render the very same token string.
pub proof fn lemma_token_identical_across_pages(args: Args, p1: int, p2: int)
    requires
        args.wf(),
        !args.no_random_string,
        0 <= p1 < args.pages as int,
        0 <= p2 < args.pages as int,
    ensures
        line_set_spec(args, p1)[1] == args.random_string@,
        line_set_spec(args, p1)[1] == line_set_spec(args, p2)[1],
{
}

/// Law: two runs that differ only in their random token lay out, on every
/// page, equally many lines, all of them identical except the token line
/// itself. Since a line's horizontal offset depends only on that line's
/// characters and every vertical cursor only on the line count, all other
/// rendered content of the two runs is laid out identically.
pub proof fn lemma_token_only_difference(a: Args, b: Args, page: int)
    requires
        a.pages == b.pages,
        a.size == b.size,
        word_views(a.text@) == word_views(b.text@),
        a.no_random_string == b.no_random_string,
        a.no_pagenum == b.no_pagenum,
        a.no_sizeinfo == b.no_sizeinfo,
    ensures
        line_set_spec(a, page).len() == line_set_spec(b, page).len(),
        forall|i: int|
            0 <= i < line_set_spec(a, page).len() && (a.no_random_string || i != 1)
                ==> line_set_spec(a, page)[i] == line_set_spec(b, page)[i],
{
}

/// Law: two runs that differ only in their random token produce, for every
/// page, plans of equal length whose instructions agree in vertical
/// position everywhere, and agree in text and horizontal offset everywhere
/// but at the token line itself.
pub proof fn lemma_plan_token_only_difference(
    a: Args,
    b: Args,
    page: int,
    ca: Seq<DrawCmd>,
    cb: Seq<DrawCmd>,
)
    requires
        a.pages == b.pages,
        a.size == b.size,
        word_views(a.text@) == word_views(b.text@),
        a.no_random_string == b.no_random_string,
        a.no_pagenum == b.no_pagenum,
        a.no_sizeinfo == b.no_sizeinfo,
        page_plan_wf(a, page, ca),
        page_plan_wf(b, page, cb),
    ensures
        ca.len() == cb.len(),
        forall|i: int| 0 <= i < ca.len() ==> (#[trigger] ca[i]).y_mpt == cb[i].y_mpt,
        forall|i: int|
            0 <= i < ca.len() && (a.no_random_string || i != 1) ==> (#[trigger] ca[i]).text@
                == cb[i].text@ && ca[i].x_mpt == cb[i].x_mpt,
{
    lemma_token_only_difference(a, b, page);
}

/// Joins the words with single spaces.
pub fn join_words(words: &Vec<String>) -> (s: String)
    ensures
        s@ == join_spec(word_views(words@)),
{
    let ghost ws = word_views(words@);
    let mut s = String::new();
    let mut i: usize = 0;
    while i < words.len()
        invariant
            i <= words@.len(),
            ws == word_views(words@),
            s@ == join_spec(ws.take(i as int)),
        decreases words@.len() - i,
    {
        if i > 0 {
            proof {
                reveal_strlit(" ");
            }
            s.append(" ");
        }
        s.append(words[i].as_str());
        proof {
            assert(ws.take(i + 1).drop_last() =~= ws.take(i as int));
            assert(ws.take(i + 1).last() == ws[i as int]);
            if i == 0 {
                assert(s@ =~= join_spec(ws.take(1)));
            } else {
                assert(s@ =~= join_spec(ws.take(i as int)) + seq![' '] + ws[i as int]);
            }
        }
        i = i + 1;
    }
    proof {
        assert(ws.take(words@.len() as int) =~= ws);
    }
    s
}

/// Builds the ordered line set for 0-based page `page`.
///
/// The bounds on the text and the token keep every produced line inside
/// what the width metric accepts.
pub fn build_line_set(args: &Args, page: u16) -> (lines: Vec<String>)
    requires
        args.wf(),
        page < args.pages,
        join_spec(word_views(args.text@)).len() <= MAX_MEASURED_LEN,
        args.random_string@.len() <= MAX_MEASURED_LEN,
    ensures
        lines@.map_values(|l: String| l@) == line_set_spec(*args, page as int),
        forall|i: int|
            0 <= i < lines@.len() ==> (#[trigger] lines@[i])@.len() <= MAX_MEASURED_LEN,
{
    let mut lines: Vec<String> = Vec::new();
    let joined = join_words(&args.text);
    lines.push(joined);
    if !args.no_random_string {
        lines.push(args.random_string.clone());
    }
    if let Option::Some(sz) = args.size {
        if !args.no_sizeinfo {
            let mut line = "File size: ".to_owned();
            line.append(format_byte_size(sz).as_str());
            proof {
                reveal_strlit("File size: ");
                assert(line@ == size_line_spec(sz));
            }
            lines.push(line);
        }
    }
    if args.pages > 1 && !args.no_pagenum {
        let mut line = "Page ".to_owned();
        line.append(u16_to_string(page + 1).as_str());
        line.append(" of ");
        line.append(u16_to_string(args.pages).as_str());
        proof {
            reveal_strlit("Page ");
            reveal_strlit(" of ");
            assert(line@ == page_line_spec(page as int + 1, args.pages as int));
            assert(spec_pow10(5) == 100000) by {
                reveal_with_fuel(spec_pow10, 7);
            }
            lemma_dec_spec_len(page as int + 1, 5);
            lemma_dec_spec_len(args.pages as int, 5);
        }
        lines.push(line);
    }
    proof {
        assert(lines@.map_values(|l: String| l@) =~= line_set_spec(*args, page as int));
    }
    lines
}

/// Computes the horizontal centering offset for a measured raw width.
fn center_x(raw_width: u32) -> (x: i64)
    ensures
        x == x_center_spec(raw_width),
{
    let width_mpt: i64 = FONT_SIZE_PT * (raw_width as i64);
    if width_mpt <= A4_WIDTH_MPT {
        let diff: u64 = (A4_WIDTH_MPT - width_mpt) as u64;
        proof {
            vstd::arithmetic::div_mod::lemma_div_nonincreasing(diff as int, 2);
        }
        (diff / 2) as i64
    } else {
        let diff: u64 = (width_mpt - A4_WIDTH_MPT) as u64;
        proof {
            lemma_neg_half(width_mpt as int - A4_WIDTH_MPT as int, raw_width);
        }
        let half: i64 = (diff / 2) as i64;
        -half
    }
}

/// For the even difference `d = 24 * raw_width - 595000 > 0`, the centering
/// offset is exactly minus half of `d`.
proof fn lemma_neg_half(d: int, raw_width: u32)
    requires
        d == FONT_SIZE_PT * raw_width - A4_WIDTH_MPT,
        d > 0,
    ensures
        x_center_spec(raw_width) == -(d / 2),
        d / 2 <= d,
{
    assert(d == 2 * (12 * raw_width - 297500));
    vstd::arithmetic::div_mod::lemma_div_multiples_vanish(12 * raw_width - 297500, 2);
    vstd::arithmetic::div_mod::lemma_div_multiples_vanish(-(12 * raw_width - 297500), 2);
    assert(-d == 2 * -(12 * raw_width - 297500));
}

/// Plans one page: every line of its line set as a centered draw
/// instruction, then the filler instructions for the page's byte budget.
///
/// The first line's vertical cursor is `y0_spec` of the line count and each
/// later line sits exactly one font size plus one line gap lower; each
/// line's horizontal offset centers its measured width in the page width.
pub fn render_page(args: &Args, page: u16) -> (cmds: Vec<DrawCmd>)
    requires
        args.wf(),
        page < args.pages,
        join_spec(word_views(args.text@)).len() <= MAX_MEASURED_LEN,
        args.random_string@.len() <= MAX_MEASURED_LEN,
        args.size is Some ==> filler_count_spec(
            page_budget_spec(args.size->0 as int, args.pages as int),
        ) <= usize::MAX,
    ensures
        page_plan_wf(*args, page as int, cmds@),
{
    let lines = build_line_set(args, page);
    let ghost lines_view = line_set_spec(*args, page as int);
    let n = lines.len();
    proof {
        lemma_line_set_len(*args, page as int);
        assert(FONT_SIZE_MPT + LINE_SPACING_MPT == 34000);
        assert((FONT_SIZE_MPT + LINE_SPACING_MPT) * (n as int) == 34000 * (n as int));
    }
    let numerator: i64 = A4_HEIGHT_MPT + (FONT_SIZE_MPT + LINE_SPACING_MPT) * (n as i64)
        - LINE_SPACING_MPT;
    let y0: i64 = ((numerator as u64) / 2) as i64 - FONT_SIZE_MPT;
    proof {
        vstd::arithmetic::div_mod::lemma_div_is_ordered(866000, numerator as int, 2);
        vstd::arithmetic::div_mod::lemma_div_is_ordered(numerator as int, 968000, 2);
        assert(y0 == y0_spec(n as int));
    }
    let mut cmds: Vec<DrawCmd> = Vec::new();
    let mut idx: usize = 0;
    let mut y_mpt: i64 = y0;
    while idx < n
        invariant
            idx <= n,
            n == lines@.len(),
            1 <= n <= 4,
            cmds@.len() == idx,
            lines_view == line_set_spec(*args, page as int),
            lines@.map_values(|l: String| l@) == lines_view,
            forall|i: int|
                0 <= i < lines@.len() ==> (#[trigger] lines@[i])@.len() <= MAX_MEASURED_LEN,
            409000 <= y0_spec(n as int) <= 460000,
            y_mpt == y0_spec(n as int) - idx * (FONT_SIZE_MPT + LINE_SPACING_MPT),
            forall|i: int| 0 <= i < idx ==> text_cmd_ok(lines_view, i, #[trigger] cmds@[i]),
        decreases n - idx,
    {
        proof {
            assert(FONT_SIZE_MPT + LINE_SPACING_MPT == 34000);
            assert(idx * (FONT_SIZE_MPT + LINE_SPACING_MPT) == idx * 34000);
            assert((idx + 1) * (FONT_SIZE_MPT + LINE_SPACING_MPT) == (idx + 1) * 34000);
        }
        let w = measure_helvetica_raw(lines[idx].as_str());
        let x_mpt = center_x(w);
        cmds.push(DrawCmd { x_mpt, y_mpt, text: lines[idx].clone() });
        y_mpt = y_mpt - (FONT_SIZE_MPT + LINE_SPACING_MPT);
        idx = idx + 1;
    }
    if let Option::Some(sz) = args.size {
        let budget = budget_per_page(sz, args.pages);
        let mut fill = generate_data(budget);
        cmds.append(&mut fill);
    }
    cmds
}

} // verus!
