//! Timestamp formatting.
//!
//! A poll result is reported as one fixed-width line, every field zero-padded
//! to two digits: `Time: YY/MM/DD HH:MM:SS`.  The console edge appends the
//! line terminator when it transmits the line.

use vstd::prelude::*;
use vstd::string::StringExecFns;

use crate::protocol::Timestamp;

verus! {

/// The ASCII digit for a value in 0..=9.
pub open spec fn digit_char(d: int) -> char {
    if d == 0 {
        '0'
    } else if d == 1 {
        '1'
    } else if d == 2 {
        '2'
    } else if d == 3 {
        '3'
    } else if d == 4 {
        '4'
    } else if d == 5 {
        '5'
    } else if d == 6 {
        '6'
    } else if d == 7 {
        '7'
    } else if d == 8 {
        '8'
    } else {
        '9'
    }
}

/// A value in 0..=99 as two digits, zero-padded.
pub open spec fn two_digits(v: int) -> Seq<char> {
    seq![digit_char(v / 10), digit_char(v % 10)]
}

/// The report line for a timestamp, character by character:
/// `Time: ` then year, month, day, hour, minute, second, each as two
/// zero-padded digits, separated as `YY/MM/DD HH:MM:SS`.
pub open spec fn spec_time_line(t: Timestamp) -> Seq<char> {
    seq!['T', 'i', 'm', 'e', ':', ' '] + two_digits(t.year as int) + seq!['/'] + two_digits(
        t.month as int,
    ) + seq!['/'] + two_digits(t.day as int) + seq![' '] + two_digits(t.hour as int) + seq![':']
        + two_digits(t.minute as int) + seq![':'] + two_digits(t.second as int)
}

/// The one-character string for a digit value.
fn digit_str(d: u8) -> (s: &'static str)
    requires
        d <= 9,
    ensures
        s@ == seq![digit_char(d as int)],
{
    match d {
        0 => {
            proof {
                reveal_strlit("0");
                assert("0"@ =~= seq![digit_char(0)]);
            }
            "0"
        },
        1 => {
            proof {
                reveal_strlit("1");
                assert("1"@ =~= seq![digit_char(1)]);
            }
            "1"
        },
        2 => {
            proof {
                reveal_strlit("2");
                assert("2"@ =~= seq![digit_char(2)]);
            }
            "2"
        },
        3 => {
            proof {
                reveal_strlit("3");
                assert("3"@ =~= seq![digit_char(3)]);
            }
            "3"
        },
        4 => {
            proof {
                reveal_strlit("4");
                assert("4"@ =~= seq![digit_char(4)]);
            }
            "4"
        },
        5 => {
            proof {
                reveal_strlit("5");
                assert("5"@ =~= seq![digit_char(5)]);
            }
            "5"
        },
        6 => {
            proof {
                reveal_strlit("6");
                assert("6"@ =~= seq![digit_char(6)]);
            }
            "6"
        },
        7 => {
            proof {
                reveal_strlit("7");
                assert("7"@ =~= seq![digit_char(7)]);
            }
            "7"
        },
        8 => {
            proof {
                reveal_strlit("8");
                assert("8"@ =~= seq![digit_char(8)]);
            }
            "8"
        },
        _ => {
            proof {
                reveal_strlit("9");
                assert("9"@ =~= seq![digit_char(9)]);
            }
            "9"
        },
    }
}

/// Appends a value in 0..=99 as two zero-padded digits.
fn push_two_digits(out: &mut String, v: u8)
    requires
        v <= 99,
    ensures
        final(out)@ == old(out)@ + two_digits(v as int),
{
    out.append(digit_str(v / 10));
    out.append(digit_str(v % 10));
    proof {
        assert(out@ =~= old(out)@ + two_digits(v as int));
    }
}

/// Formats a valid timestamp as the report line `Time: YY/MM/DD HH:MM:SS`.
pub fn format_time(t: &Timestamp) -> (s: String)
    requires
        t.valid(),
    ensures
        s@ == spec_time_line(*t),
{
    let mut s = String::new();
    s.append("Time: ");
    push_two_digits(&mut s, t.year);
    s.append("/");
    push_two_digits(&mut s, t.month);
    s.append("/");
    push_two_digits(&mut s, t.day);
    s.append(" ");
    push_two_digits(&mut s, t.hour);
    s.append(":");
    push_two_digits(&mut s, t.minute);
    s.append(":");
    push_two_digits(&mut s, t.second);
    proof {
        reveal_strlit("Time: ");
        reveal_strlit("/");
        reveal_strlit(" ");
        reveal_strlit(":");
        assert(s@ =~= spec_time_line(*t));
    }
    s
}

/// Formats a valid timestamp as the report line, terminated by a line break,
/// ready for the console.
pub fn format_time_terminated(t: &Timestamp) -> (s: String)
    requires
        t.valid(),
    ensures
        s@ == spec_time_line(*t) + seq!['\r', '\n'],
{
    let mut s = format_time(t);
    s.append("\r\n");
    proof {
        reveal_strlit("\r\n");
        assert(s@ =~= spec_time_line(*t) + seq!['\r', '\n']);
    }
    s
}

} // verus!
