//! Verified rendering of identity numbers as text: decimal serial numbers,
//! and the four-digit hexadecimal vendor and product numbers used when a
//! display reports no product name.

use vstd::prelude::*;
use vstd::string::StringExecFns;

verus! {

/// The character for one digit value, lower case above nine.
pub open spec fn spec_digit_char(d: int) -> char {
    if d == 0 {
        '0'
    } else if d == 1 {
        '1'
    } else if d == 2 {
        '2'
    } else if d == 3 {
        '3'
    } else if d == 4 {
        '4'
    } else if d == 5 {
        '5'
    } else if d == 6 {
        '6'
    } else if d == 7 {
        '7'
    } else if d == 8 {
        '8'
    } else if d == 9 {
        '9'
    } else if d == 10 {
        'a'
    } else if d == 11 {
        'b'
    } else if d == 12 {
        'c'
    } else if d == 13 {
        'd'
    } else if d == 14 {
        'e'
    } else {
        'f'
    }
}

/// The decimal rendering of a number, most significant digit first, with no
/// leading zeros except for zero itself.
pub open spec fn spec_decimal(n: int) -> Seq<char>
    decreases n,
{
    if n < 10 {
        seq![spec_digit_char(n)]
    } else {
        spec_decimal(n / 10).push(spec_digit_char(n % 10))
    }
}

/// The four-digit hexadecimal rendering of a number below 0x10000.
pub open spec fn spec_hex4(v: int) -> Seq<char> {
    seq![
        spec_digit_char(v / 4096 % 16),
        spec_digit_char(v / 256 % 16),
        spec_digit_char(v / 16 % 16),
        spec_digit_char(v % 16),
    ]
}

/// The one-character string for a digit value.
pub fn digit_str(d: u32) -> (r: &'static str)
    requires
        d < 16,
    ensures
        r@ == seq![spec_digit_char(d as int)],
{
    if d == 0 {
        let s = "0";
        proof {
            reveal_strlit("0");
            assert(s@ =~= seq![spec_digit_char(0)]);
        }
        s
    } else if d == 1 {
        let s = "1";
        proof {
            reveal_strlit("1");
            assert(s@ =~= seq![spec_digit_char(1)]);
        }
        s
    } else if d == 2 {
        let s = "2";
        proof {
            reveal_strlit("2");
            assert(s@ =~= seq![spec_digit_char(2)]);
        }
        s
    } else if d == 3 {
        let s = "3";
        proof {
            reveal_strlit("3");
            assert(s@ =~= seq![spec_digit_char(3)]);
        }
        s
    } else if d == 4 {
        let s = "4";
        proof {
            reveal_strlit("4");
            assert(s@ =~= seq![spec_digit_char(4)]);
        }
        s
    } else if d == 5 {
        let s = "5";
        proof {
            reveal_strlit("5");
            assert(s@ =~= seq![spec_digit_char(5)]);
        }
        s
    } else if d == 6 {
        let s = "6";
        proof {
            reveal_strlit("6");
            assert(s@ =~= seq![spec_digit_char(6)]);
        }
        s
    } else if d == 7 {
        let s = "7";
        proof {
            reveal_strlit("7");
            assert(s@ =~= seq![spec_digit_char(7)]);
        }
        s
    } else if d == 8 {
        let s = "8";
        proof {
            reveal_strlit("8");
            assert(s@ =~= seq![spec_digit_char(8)]);
        }
        s
    } else if d == 9 {
        let s = "9";
        proof {
            reveal_strlit("9");
            assert(s@ =~= seq![spec_digit_char(9)]);
        }
        s
    } else if d == 10 {
        let s = "a";
        proof {
            reveal_strlit("a");
            assert(s@ =~= seq![spec_digit_char(10)]);
        }
        s
    } else if d == 11 {
        let s = "b";
        proof {
            reveal_strlit("b");
            assert(s@ =~= seq![spec_digit_char(11)]);
        }
        s
    } else if d == 12 {
        let s = "c";
        proof {
            reveal_strlit("c");
            assert(s@ =~= seq![spec_digit_char(12)]);
        }
        s
    } else if d == 13 {
        let s = "d";
        proof {
            reveal_strlit("d");
            assert(s@ =~= seq![spec_digit_char(13)]);
        }
        s
    } else if d == 14 {
        let s = "e";
        proof {
            reveal_strlit("e");
            assert(s@ =~= seq![spec_digit_char(14)]);
        }
        s
    } else {
        let s = "f";
        proof {
            reveal_strlit("f");
            assert(s@ =~= seq![spec_digit_char(15)]);
        }
        s
    }
}

/// Renders a number in decimal.
pub fn decimal_string(n: u32) -> (r: String)
    ensures
        r@ == spec_decimal(n as int),
    decreases n,
{
    if n < 10 {
        String::from_str(digit_str(n))
    } else {
        let mut prefix = decimal_string(n / 10);
        prefix.append(digit_str(n % 10));
        proof {
            assert(prefix@ =~= spec_decimal(n as int / 10).push(spec_digit_char(n as int % 10)));
        }
        prefix
    }
}

/// Renders a number below 0x10000 as exactly four hexadecimal digits.
pub fn hex4_string(v: u32) -> (r: String)
    requires
        v <= 0xFFFF,
    ensures
        r@ == spec_hex4(v as int),
{
    let mut s = String::from_str(digit_str(v / 4096 % 16));
    s.append(digit_str(v / 256 % 16));
    s.append(digit_str(v / 16 % 16));
    s.append(digit_str(v % 16));
    proof {
        assert(s@ =~= spec_hex4(v as int));
    }
    s
}

} // verus!
