//! Font metrics of the PDF encoder, as the layout engine needs them.

use pdf_canvas::FontSource;
use vstd::prelude::*;

verus! {

/// Longest string the width metric accepts. The encoder sums 16-bit advance
/// widths over the WinAnsi-encoded bytes (at most two per character) into a
/// `u32`, so this bound keeps that sum from overflowing.
pub const MAX_MEASURED_LEN: usize = 16384;

/// The Helvetica advance width of a string, in raw font units: the width of
/// the rendered text at font size 1000 PDF user units.
pub uninterp spec fn helvetica_raw_width(s: Seq<char>) -> u32;

/// Relies on pdf_canvas's `BuiltinFont::get_width_raw` for Helvetica: the
/// summed advance width of the WinAnsi-encoded bytes of `s`, a pure function
/// of the characters drawn from a static metrics table; an empty string sums
/// to zero. The length bound keeps the encoder's `u32` accumulation from
/// overflowing.
#[verifier::external_body]
pub(crate) fn measure_helvetica_raw(s: &str) -> (w: u32)
    requires
        s@.len() <= MAX_MEASURED_LEN,
    ensures
        w == helvetica_raw_width(s@),
        s@.len() == 0 ==> w == 0,
{
    pdf_canvas::BuiltinFont::Helvetica.get_width_raw(s)
}

} // verus!
