//! The run's random token and the resolution of the output file name.

use vstd::prelude::*;

use crate::numfmt::{digit_str, is_dec_digit};
use crate::{Args, GenError};

verus! {

/// Relies on rand's `random_range`: a value drawn from the thread-local
/// generator inside the given non-empty range; nothing holds of it beyond
/// the bounds, and two calls may differ.
#[verifier::external_body]
fn random_digit_value() -> (d: u8)
    ensures
        48 <= d < 58,
{
    rand::random_range(48..58)
}

/// Draws the run's random token: `length` decimal digit characters.
pub fn generate_random(length: u8) -> (s: String)
    ensures
        s@.len() == length as int,
        forall|i: int| 0 <= i < s@.len() ==> is_dec_digit(#[trigger] s@[i]),
{
    let mut result = String::new();
    let mut i: u8 = 0;
    while i < length
        invariant
            i <= length,
            result@.len() == i as int,
            forall|j: int| 0 <= j < result@.len() ==> is_dec_digit(#[trigger] result@[j]),
        decreases length - i,
    {
        let d = random_digit_value();
        result.append(digit_str(d - 48));
        i = i + 1;
    }
    result
}

/// The canonical name of an 8-bit RGB color, as the color catalog of the
/// color parser gives it; `None` when no catalog entry has that triple.
pub uninterp spec fn css_name_of(red: u8, green: u8, blue: u8) -> Option<Seq<char>>;

/// Relies on csscolorparser's `Color::name`: the catalog entry whose RGB
/// triple equals the color's, a pure function of the three channels drawn
/// from a static table; `None` when no entry matches.
#[verifier::external_body]
pub(crate) fn css_color_name(red: u8, green: u8, blue: u8) -> (r: Option<String>)
    ensures
        r is Some <==> css_name_of(red, green, blue) is Some,
        r is Some ==> r->0@ == css_name_of(red, green, blue)->0,
{
    csscolorparser::Color::from_rgba8(red, green, blue, 255).name().map(|n| n.to_owned())
}

/// The output file name derived from a color name and the run's token.
pub open spec fn default_filename_spec(color_name: Seq<char>, token: Seq<char>) -> Seq<char> {
    "sample-"@ + color_name + "-"@ + token + ".pdf"@
}

/// Resolves the run's output file name: the explicit one when given, else
/// one derived from the color's canonical name and the token; when the
/// color has no canonical name and no explicit name was given, the run is
/// refused before any file is created.
pub fn resolve_output_file(args: &Args) -> (r: Result<String, GenError>)
    ensures
        match args.output {
            Option::Some(name) => r is Ok && r->Ok_0@ == name@,
            Option::None => match css_name_of(args.color.red, args.color.green, args.color.blue) {
                Option::Some(cname) => r is Ok && r->Ok_0@ == default_filename_spec(
                    cname,
                    args.random_string@,
                ),
                Option::None => r == Result::<String, GenError>::Err(GenError::UnnamedColor),
            },
        },
{
    match &args.output {
        Option::Some(name) => Result::Ok(name.clone()),
        Option::None => {
            match css_color_name(args.color.red, args.color.green, args.color.blue) {
                Option::Some(cname) => {
                    let mut s = "sample-".to_owned();
                    s.append(cname.as_str());
                    s.append("-");
                    s.append(args.random_string.as_str());
                    s.append(".pdf");
                    Result::Ok(s)
                },
                Option::None => Result::Err(GenError::UnnamedColor),
            }
        },
    }
}

} // verus!
