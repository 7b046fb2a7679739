//! Human-readable rendering: the exact text each kind contributes, and
//! decimal formatting for status codes.

use vstd::prelude::*;
use crate::error::Kind;
use crate::error::Url;

verus! {

/// The decimal digit character for `d` (digits above nine never arise).
pub open spec fn digit_char(d: nat) -> char {
    if d == 0 {
        '0'
    } else if d == 1 {
        '1'
    } else if d == 2 {
        '2'
    } else if d == 3 {
        '3'
    } else if d == 4 {
        '4'
    } else if d == 5 {
        '5'
    } else if d == 6 {
        '6'
    } else if d == 7 {
        '7'
    } else if d == 8 {
        '8'
    } else {
        '9'
    }
}

/// The decimal representation of `n`, most significant digit first, with
/// no leading zeros (except for zero itself).
pub open spec fn decimal_of(n: nat) -> Seq<char>
    decreases n,
{
    if n < 10 {
        seq![digit_char(n)]
    } else {
        decimal_of(n / 10) + seq![digit_char(n % 10)]
    }
}

/// The one-character text of a single decimal digit.
fn digit_str(d: u16) -> (r: &'static str)
    requires
        d < 10,
    ensures
        r@ == seq![digit_char(d as nat)],
{
    proof {
        reveal_strlit("0");
        reveal_strlit("1");
        reveal_strlit("2");
        reveal_strlit("3");
        reveal_strlit("4");
        reveal_strlit("5");
        reveal_strlit("6");
        reveal_strlit("7");
        reveal_strlit("8");
        reveal_strlit("9");
    }
    let r: &'static str = if d == 0 {
        "0"
    } else if d == 1 {
        "1"
    } else if d == 2 {
        "2"
    } else if d == 3 {
        "3"
    } else if d == 4 {
        "4"
    } else if d == 5 {
        "5"
    } else if d == 6 {
        "6"
    } else if d == 7 {
        "7"
    } else if d == 8 {
        "8"
    } else {
        "9"
    };
    proof {
        assert(r@ =~= seq![digit_char(d as nat)]);
    }
    r
}

/// The decimal text of `n`, matching [`decimal_of`].
pub fn decimal_string(n: u16) -> (r: String)
    ensures
        r@ == decimal_of(n as nat),
    decreases n,
{
    if n < 10 {
        String::from_str(digit_str(n))
    } else {
        let mut s = decimal_string(n / 10);
        s.append(digit_str(n % 10));
        proof {
            assert(s@ == decimal_of(n as nat));
        }
        s
    }
}

/// The opening phrase an error's kind contributes to the rendered text.
pub open spec fn kind_text(k: Kind) -> Seq<char> {
    match k {
        Kind::Builder => "builder error"@,
        Kind::Request => "error sending request"@,
        Kind::Body => "request or response body error"@,
        Kind::Decode => "error decoding response body"@,
        Kind::Redirect => "error following redirect"@,
        Kind::Status(code) => (
            if 400 <= code.0 < 500 {
                "HTTP status client error ("@
            } else {
                "HTTP status server error ("@
            }
        ) + decimal_of(code.0 as nat) + ")"@,
    }
}

/// The suffix the attached URL contributes to the rendered text: empty
/// when no URL is attached.
pub open spec fn url_suffix(url: Option<Url>) -> Seq<char> {
    match url {
        Some(u) => " for url ("@ + u@ + ")"@,
        None => Seq::<char>::empty(),
    }
}

/// The opening phrase, built as a string.
pub fn render_kind(k: &Kind) -> (r: String)
    ensures
        r@ == kind_text(*k),
{
    match k {
        Kind::Builder => String::from_str("builder error"),
        Kind::Request => String::from_str("error sending request"),
        Kind::Body => String::from_str("request or response body error"),
        Kind::Decode => String::from_str("error decoding response body"),
        Kind::Redirect => String::from_str("error following redirect"),
        Kind::Status(code) => {
            let mut s = if code.is_client_error() {
                String::from_str("HTTP status client error (")
            } else {
                String::from_str("HTTP status server error (")
            };
            let digits = decimal_string(code.as_u16());
            s.append(digits.as_str());
            s.append(")");
            proof {
                assert(s@ =~= kind_text(*k));
            }
            s
        },
    }
}

} // verus!
