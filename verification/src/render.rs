//! Rendering fixed-point temperatures as decimal text.
//!
//! Diagnostics quote temperatures the way a decimal print of the value would
//! read: the whole degrees, then, when the value is not whole, the exact
//! fraction that a count of sixteenths denotes ("31", "-40", "30.0625").
//! Every sixteenth has a terminating decimal expansion, so the text is exact.

use vstd::prelude::*;
use vstd::string::StringExecFns;
use vstd::string::StrSliceExecFns;

verus! {

/// The decimal digit character for `d` in 0 ..= 9.
pub open spec fn spec_digit_char(d: int) -> char {
    if d == 0 {
        '0'
    } else if d == 1 {
        '1'
    } else if d == 2 {
        '2'
    } else if d == 3 {
        '3'
    } else if d == 4 {
        '4'
    } else if d == 5 {
        '5'
    } else if d == 6 {
        '6'
    } else if d == 7 {
        '7'
    } else if d == 8 {
        '8'
    } else {
        '9'
    }
}

/// The decimal digits of a natural number, most significant first.
pub open spec fn spec_decimal_digits(n: nat) -> Seq<char>
    decreases n,
{
    if n < 10 {
        seq![spec_digit_char(n as int)]
    } else {
        spec_decimal_digits(n / 10) + seq![spec_digit_char((n % 10) as int)]
    }
}

/// The decimal expansion of `f` sixteenths, for `f` in 1 ..= 15, with
/// trailing zeroes dropped: the digits that follow "30." in "30.0625".
pub open spec fn spec_fraction_digits(f: int) -> Seq<char> {
    if f == 1 {
        "0625"@
    } else if f == 2 {
        "125"@
    } else if f == 3 {
        "1875"@
    } else if f == 4 {
        "25"@
    } else if f == 5 {
        "3125"@
    } else if f == 6 {
        "375"@
    } else if f == 7 {
        "4375"@
    } else if f == 8 {
        "5"@
    } else if f == 9 {
        "5625"@
    } else if f == 10 {
        "625"@
    } else if f == 11 {
        "6875"@
    } else if f == 12 {
        "75"@
    } else if f == 13 {
        "8125"@
    } else if f == 14 {
        "875"@
    } else {
        "9375"@
    }
}

/// The decimal text of a temperature given in sixteenths of a degree:
/// a minus sign when negative, the whole degrees, and the exact fractional
/// digits when the value is not a whole degree.
pub open spec fn spec_celsius_chars(sixteenths: int) -> Seq<char> {
    let magnitude = if sixteenths < 0 {
        -sixteenths
    } else {
        sixteenths
    };
    let sign: Seq<char> = if sixteenths < 0 {
        seq!['-']
    } else {
        Seq::empty()
    };
    let whole = spec_decimal_digits((magnitude / 16) as nat);
    if magnitude % 16 == 0 {
        sign + whole
    } else {
        sign + whole + seq!['.'] + spec_fraction_digits(magnitude % 16)
    }
}

/// The text of one decimal digit.
fn digit_str(d: u32) -> (s: &'static str)
    requires
        d < 10,
    ensures
        s@ == seq![spec_digit_char(d as int)],
{
    proof {
        reveal_strlit("0");
        reveal_strlit("1");
        reveal_strlit("2");
        reveal_strlit("3");
        reveal_strlit("4");
        reveal_strlit("5");
        reveal_strlit("6");
        reveal_strlit("7");
        reveal_strlit("8");
        reveal_strlit("9");
    }
    let s = match d {
        0 => "0",
        1 => "1",
        2 => "2",
        3 => "3",
        4 => "4",
        5 => "5",
        6 => "6",
        7 => "7",
        8 => "8",
        _ => "9",
    };
    proof {
        assert(s@ =~= seq![spec_digit_char(d as int)]);
    }
    s
}

/// The decimal text of a natural number.
pub fn decimal_string(n: u32) -> (s: String)
    ensures
        s@ == spec_decimal_digits(n as nat),
    decreases n,
{
    if n < 10 {
        String::from_str(digit_str(n))
    } else {
        let mut s = decimal_string(n / 10);
        s.append(digit_str(n % 10));
        s
    }
}

/// The fractional digits of `f` sixteenths, `f` in 1 ..= 15.
fn fraction_str(f: u32) -> (s: &'static str)
    requires
        1 <= f < 16,
    ensures
        s@ == spec_fraction_digits(f as int),
{
    match f {
        1 => "0625",
        2 => "125",
        3 => "1875",
        4 => "25",
        5 => "3125",
        6 => "375",
        7 => "4375",
        8 => "5",
        9 => "5625",
        10 => "625",
        11 => "6875",
        12 => "75",
        13 => "8125",
        14 => "875",
        _ => "9375",
    }
}

/// The decimal text of a temperature in sixteenths of a degree Celsius.
pub fn celsius_string(sixteenths: i32) -> (s: String)
    ensures
        s@ == spec_celsius_chars(sixteenths as int),
{
    let negative = sixteenths < 0;
    let magnitude: u32 = if negative {
        (-(sixteenths as i64)) as u32
    } else {
        sixteenths as u32
    };
    let mut s = if negative {
        let sign = String::from_str("-");
        proof {
            reveal_strlit("-");
            assert(sign@ =~= seq!['-']);
        }
        sign
    } else {
        String::new()
    };
    let whole = decimal_string(magnitude / 16);
    s.append(whole.as_str());
    let fraction: u32 = magnitude % 16;
    if fraction != 0 {
        let point = ".";
        proof {
            reveal_strlit(".");
            assert(point@ =~= seq!['.']);
        }
        s.append(point);
        s.append(fraction_str(fraction));
    }
    proof {
        assert(s@ =~= spec_celsius_chars(sixteenths as int));
    }
    s
}

} // verus!
