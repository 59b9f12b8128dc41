use vstd::prelude::*;

use crate::models::Decimal;

verus! {

/// The text that bigdecimal writes for the number `digits` times ten to the
/// power of minus `scale`.
pub uninterp spec fn decimal_text(digits: int, scale: int) -> Seq<char>;

/// Relies on bigdecimal's `Display` for `BigDecimal` (built by `From<(i128, i64)>`
/// from digits and scale): its text depends on the digits and the scale alone.
#[verifier::external_body]
fn render_decimal(digits: i128, scale: i64) -> (r: String)
    ensures
        r@ == decimal_text(digits as int, scale as int),
{
    bigdecimal::BigDecimal::from((digits, scale)).to_string()
}

impl Decimal {
    /// The exact text of the number, with every digit of its scale.
    pub fn to_text(&self) -> (r: String)
        ensures
            r@ == decimal_text(self.digits as int, self.scale as int),
    {
        render_decimal(self.digits, self.scale)
    }
}

} // verus!
