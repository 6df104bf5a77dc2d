//! Bindings to the standard library's floating-point numbers. A number
//! never leaves a binding: each takes text and hands text back.

use crate::text::is_float_text;
use vstd::prelude::*;

verus! {

/// The double-precision number that `text` writes, printed with `digits`
/// digits after the point.
pub uninterp spec fn fixed_text(text: Seq<char>, digits: u8) -> Seq<char>;

/// `str::parse` to a double-precision number, then `format!` with `digits`
/// digits after the point. The text has to write a number.
#[verifier::external_body]
#[inline]
pub(crate) fn fixed_decimals(text: &str, digits: u8) -> (r: String)
    requires
        is_float_text(text@),
    ensures
        r@ == fixed_text(text@, digits),
{
    let number: <polars::prelude::Float64Type as polars::prelude::PolarsNumericType>::Native =
        text.parse().unwrap();
    format!("{:.*}", usize::from(digits), number)
}

} // verus!
