//! Numbers as text.

use crate::number::Number;
use vstd::prelude::*;

verus! {

/// A decimal digit.
pub open spec fn digit(value: nat) -> Seq<char> {
    if value == 0 {
        "0"@
    } else if value == 1 {
        "1"@
    } else if value == 2 {
        "2"@
    } else if value == 3 {
        "3"@
    } else if value == 4 {
        "4"@
    } else if value == 5 {
        "5"@
    } else if value == 6 {
        "6"@
    } else if value == 7 {
        "7"@
    } else if value == 8 {
        "8"@
    } else {
        "9"@
    }
}

/// A number in decimal digits.
pub open spec fn decimal(value: nat) -> Seq<char>
    decreases value,
{
    if value < 10 {
        digit(value)
    } else {
        decimal(value / 10) + digit(value % 10)
    }
}

/// Numbers in brackets, separated by commas.
pub open spec fn bracketed(values: Seq<u32>) -> Seq<char> {
    "["@ + separated(values) + "]"@
}

/// Numbers separated by commas.
pub open spec fn separated(values: Seq<u32>) -> Seq<char>
    decreases values.len(),
{
    if values.len() == 0 {
        ""@
    } else if values.len() == 1 {
        decimal(values[0] as nat)
    } else {
        separated(values.drop_last()) + ", "@ + decimal(values.last() as nat)
    }
}

/// A decimal digit.
fn digit_text(value: u64) -> (r: &'static str)
    ensures
        r@ == digit(value as nat),
{
    if value == 0 {
        "0"
    } else if value == 1 {
        "1"
    } else if value == 2 {
        "2"
    } else if value == 3 {
        "3"
    } else if value == 4 {
        "4"
    } else if value == 5 {
        "5"
    } else if value == 6 {
        "6"
    } else if value == 7 {
        "7"
    } else if value == 8 {
        "8"
    } else {
        "9"
    }
}

/// A number in decimal digits.
pub fn decimal_text(value: u64) -> (r: String)
    ensures
        r@ == decimal(value as nat),
    decreases value,
{
    if value < 10 {
        String::from_str(digit_text(value))
    } else {
        let mut text = decimal_text(value / 10);
        text.append(digit_text(value % 10));
        text
    }
}

/// Numbers in brackets, separated by commas.
pub fn bracketed_text(values: &Vec<u32>) -> (r: String)
    ensures
        r@ == bracketed(values@),
{
    let mut inner = String::from_str("");
    let mut i: usize = 0;
    assert(values@.take(0) =~= Seq::empty());
    while i < values.len()
        invariant
            i <= values@.len(),
            inner@ == separated(values@.take(i as int)),
        decreases values@.len() - i,
    {
        proof {
            crate::seqs::lemma_take_next(values@, i as int);
        }
        if i == 0 {
            inner = decimal_text(values[i] as u64);
        } else {
            inner.append(", ");
            inner.append(decimal_text(values[i] as u64).as_str());
        }
        i = i + 1;
    }
    assert(values@.take(i as int) =~= values@);
    let mut text = String::from_str("[");
    text.append(inner.as_str());
    text.append("]");
    text
}

/// The digits behind the point of so many thousandths, without trailing zeros.
pub open spec fn fraction(thousandths: nat) -> Seq<char> {
    if thousandths == 0 {
        ""@
    } else if thousandths % 100 == 0 {
        "."@ + digit(thousandths / 100)
    } else if thousandths % 10 == 0 {
        "."@ + digit(thousandths / 100) + digit(thousandths / 10 % 10)
    } else {
        "."@ + digit(thousandths / 100) + digit(thousandths / 10 % 10) + digit(thousandths % 10)
    }
}

/// A physical value as text.
pub open spec fn value_text(value: Number) -> Seq<char> {
    match value {
        Number::Finite(thousandths) => {
            let size = if thousandths < 0 {
                -thousandths
            } else {
                thousandths as int
            };
            (if thousandths < 0 {
                "-"@
            } else {
                ""@
            }) + decimal((size / 1000) as nat) + fraction((size % 1000) as nat)
        },
        Number::NotANumber => "NaN"@,
        Number::PositiveInfinity => "inf"@,
        Number::NegativeInfinity => "-inf"@,
    }
}

/// Appends a physical value to a text.
pub fn append_value(text: &mut String, value: Number)
    ensures
        final(text)@ == old(text)@ + value_text(value),
{
    match value {
        Number::Finite(thousandths) => {
            let wide: i128 = thousandths as i128;
            let size: u64 = if wide < 0 {
                (-wide) as u64
            } else {
                wide as u64
            };
            let mut own = String::from_str(
                if thousandths < 0 {
                    "-"
                } else {
                    ""
                },
            );
            own.append(decimal_text(size / 1000).as_str());
            let rest: u64 = size % 1000;
            let mut behind = String::from_str("");
            if rest != 0 {
                behind = String::from_str(".");
                behind.append(digit_text(rest / 100));
                if rest % 100 != 0 {
                    behind.append(digit_text(rest / 10 % 10));
                    if rest % 10 != 0 {
                        behind.append(digit_text(rest % 10));
                    }
                }
            }
            own.append(behind.as_str());
            text.append(own.as_str());
        },
        Number::NotANumber => {
            text.append("NaN");
        },
        Number::PositiveInfinity => {
            text.append("inf");
        },
        Number::NegativeInfinity => {
            text.append("-inf");
        },
    }
}

} // verus!
