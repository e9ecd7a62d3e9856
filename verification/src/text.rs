//! Rendering of the small pieces of text the gateway puts in its responses:
//! decimal numerals, the `"HTTP <status>"` error message, the
//! `"JSON parse error: <detail>"` message and the `"<count>/5"` overlap label.

use vstd::prelude::*;

verus! {

/// The decimal digit character for `d`.
pub open spec fn digit_char(d: int) -> char {
    if d == 0 {
        '0'
    } else if d == 1 {
        '1'
    } else if d == 2 {
        '2'
    } else if d == 3 {
        '3'
    } else if d == 4 {
        '4'
    } else if d == 5 {
        '5'
    } else if d == 6 {
        '6'
    } else if d == 7 {
        '7'
    } else if d == 8 {
        '8'
    } else {
        '9'
    }
}

/// The decimal numeral of `n`, most significant digit first, no leading zeros.
pub open spec fn decimal_digits(n: nat) -> Seq<char>
    decreases n,
{
    if n < 10 {
        seq![digit_char(n as int)]
    } else {
        decimal_digits(n / 10) + seq![digit_char((n % 10) as int)]
    }
}

/// The one-character string for a single decimal digit.
fn digit_str(d: u64) -> (s: &'static str)
    requires
        d < 10,
    ensures
        s@ =~= seq![digit_char(d as int)],
{
    if d == 0 {
        proof {
            reveal_strlit("0");
        }
        "0"
    } else if d == 1 {
        proof {
            reveal_strlit("1");
        }
        "1"
    } else if d == 2 {
        proof {
            reveal_strlit("2");
        }
        "2"
    } else if d == 3 {
        proof {
            reveal_strlit("3");
        }
        "3"
    } else if d == 4 {
        proof {
            reveal_strlit("4");
        }
        "4"
    } else if d == 5 {
        proof {
            reveal_strlit("5");
        }
        "5"
    } else if d == 6 {
        proof {
            reveal_strlit("6");
        }
        "6"
    } else if d == 7 {
        proof {
            reveal_strlit("7");
        }
        "7"
    } else if d == 8 {
        proof {
            reveal_strlit("8");
        }
        "8"
    } else {
        proof {
            reveal_strlit("9");
        }
        "9"
    }
}

/// Renders `n` as its decimal numeral.
pub fn decimal_string(n: u64) -> (s: String)
    ensures
        s@ == decimal_digits(n as nat),
    decreases n,
{
    if n < 10 {
        let s = String::from_str(digit_str(n));
        proof {
            assert(s@ =~= decimal_digits(n as nat));
        }
        s
    } else {
        let rest = decimal_string(n / 10);
        let s = rest.concat(digit_str(n % 10));
        proof {
            assert(s@ =~= decimal_digits(n as nat));
        }
        s
    }
}

/// The error message recorded when a backend answers with a non-2xx status.
pub fn http_error_message(status: u16) -> (s: String)
    ensures
        s@ == "HTTP "@ + decimal_digits(status as nat),
{
    let mut m = String::from_str("HTTP ");
    let num = decimal_string(status as u64);
    m.append(num.as_str());
    m
}

/// The error message recorded when a backend's 2xx body is not valid JSON;
/// `detail` is the parser's own description of the failure.
pub fn parse_error_message(detail: &str) -> (s: String)
    ensures
        s@ == "JSON parse error: "@ + detail@,
{
    let mut m = String::from_str("JSON parse error: ");
    m.append(detail);
    m
}

/// The `"<count>/5"` label reporting how many of the two top-5 breed lists
/// coincide; the denominator is the literal `5` whatever the list lengths.
pub fn overlap_label(count: u64) -> (s: String)
    ensures
        s@ == decimal_digits(count as nat) + "/5"@,
{
    let num = decimal_string(count);
    num.concat("/5")
}

} // verus!
