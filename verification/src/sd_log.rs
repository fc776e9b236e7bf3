//! The record that the SD-card logger appends for each ADC reading.
use vstd::prelude::*;

verus! {

/// The decimal digit for a value below 10.
pub open spec fn digit_char(d: nat) -> char {
    ((48 + d) as u32) as char
}

/// The decimal representation of a number, without leading zeros.
pub open spec fn decimal(n: nat) -> Seq<char>
    decreases n,
{
    if n < 10 {
        seq![digit_char(n)]
    } else {
        decimal(n / 10) + seq![digit_char(n % 10)]
    }
}

/// Calls `u32::to_string`, which writes the number in decimal, without
/// leading zeros or sign.
#[verifier::external_body]
fn u32_to_string(x: u32) -> (s: String)
    ensures
        s@ == decimal(x as nat),
{
    x.to_string()
}

/// The field appended to the log file for a reading: its decimal value and a
/// comma.
pub fn adc_csv_field(reading: u16) -> (field: String)
    ensures
        field@ == decimal(reading as nat).push(','),
{
    let x: u32 = reading as u32;
    let mut field = u32_to_string(x);
    field.append(",");
    proof {
        reveal_strlit(",");
        assert(","@ =~= seq![',']);
    }
    assert(field@ =~= decimal(reading as nat).push(','));
    field
}

} // verus!
