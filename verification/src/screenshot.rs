//! Filename construction for captured screenshots.
//!
//! A capture is stored under the application data directory as
//! `screenshot_<timestamp>.<extension>`, where the timestamp is rendered in
//! decimal and the extension falls back to `png` when the source file carries
//! none.

use vstd::prelude::*;

verus! {

/// The decimal digit character for a value below ten.
pub open spec fn digit_char(d: nat) -> char {
    if d == 0 {
        '0'
    } else if d == 1 {
        '1'
    } else if d == 2 {
        '2'
    } else if d == 3 {
        '3'
    } else if d == 4 {
        '4'
    } else if d == 5 {
        '5'
    } else if d == 6 {
        '6'
    } else if d == 7 {
        '7'
    } else if d == 8 {
        '8'
    } else {
        '9'
    }
}

/// The decimal rendering of a natural number, most significant digit first,
/// with no leading zeros (zero itself renders as a single digit).
pub open spec fn decimal_rep(n: nat) -> Seq<char>
    decreases n,
{
    if n < 10 {
        seq![digit_char(n)]
    } else {
        decimal_rep(n / 10).push(digit_char(n % 10))
    }
}

/// The single-character string for one decimal digit.
fn digit_str(d: u64) -> (s: &'static str)
    requires
        d < 10,
    ensures
        s@ == seq![digit_char(d as nat)],
{
    proof {
        reveal_strlit("0");
        reveal_strlit("1");
        reveal_strlit("2");
        reveal_strlit("3");
        reveal_strlit("4");
        reveal_strlit("5");
        reveal_strlit("6");
        reveal_strlit("7");
        reveal_strlit("8");
        reveal_strlit("9");
    }
    if d == 0 {
        "0"
    } else if d == 1 {
        "1"
    } else if d == 2 {
        "2"
    } else if d == 3 {
        "3"
    } else if d == 4 {
        "4"
    } else if d == 5 {
        "5"
    } else if d == 6 {
        "6"
    } else if d == 7 {
        "7"
    } else if d == 8 {
        "8"
    } else {
        "9"
    }
}

/// Appends the decimal rendering of `n` to `out`.
fn push_decimal(out: &mut String, n: u64)
    ensures
        final(out)@ == old(out)@ + decimal_rep(n as nat),
    decreases n,
{
    if n >= 10 {
        push_decimal(out, n / 10);
        out.append(digit_str(n % 10));
        proof {
            assert(decimal_rep(n as nat) == decimal_rep((n as nat) / 10).push(
                digit_char((n as nat) % 10),
            ));
            assert(out@ =~= old(out)@ + decimal_rep(n as nat));
        }
    } else {
        out.append(digit_str(n));
        proof {
            assert(decimal_rep(n as nat) == seq![digit_char(n as nat)]);
            assert(out@ =~= old(out)@ + decimal_rep(n as nat));
        }
    }
}

/// The extension a capture is stored under: the source file's own extension,
/// or `png` when it has none.
pub open spec fn stored_extension(extension: Option<&str>) -> Seq<char> {
    match extension {
        Some(e) => e@,
        None => "png"@,
    }
}

/// The full filename a capture taken at `timestamp` is stored under.
pub open spec fn filename_rep(timestamp: nat, extension: Option<&str>) -> Seq<char> {
    "screenshot_"@ + decimal_rep(timestamp) + "."@ + stored_extension(extension)
}

/// Builds the filename for a screenshot captured at the given Unix timestamp,
/// with the source file's extension when it has one and `png` otherwise.
pub fn screenshot_filename(timestamp: u64, extension: Option<&str>) -> (r: String)
    ensures
        r@ == filename_rep(timestamp as nat, extension),
{
    let mut name = String::from_str("screenshot_");
    push_decimal(&mut name, timestamp);
    name.append(".");
    match extension {
        Some(e) => name.append(e),
        None => name.append("png"),
    }
    proof {
        assert(name@ =~= filename_rep(timestamp as nat, extension));
    }
    name
}

} // verus!
