//! The diagnostic line a record operation emits: its exact text, including
//! the decimal rendering of the counter.

use vstd::prelude::*;
use vstd::string::StringExecFns;

use crate::json::push_char;

verus! {

/// The decimal digit for a value below ten.
pub open spec fn dec_digit(n: int) -> char {
    "0123456789"@[n]
}

fn dec_digit_exec(n: u8) -> (c: char)
    requires
        n < 10,
    ensures
        c == dec_digit(n as int),
{
    proof {
        reveal_strlit("0123456789");
    }
    "0123456789".get_char(n as usize)
}

/// A number written in decimal, most significant digit first, with no
/// leading zero except for the number zero itself.
pub open spec fn decimal(n: nat) -> Seq<char>
    decreases n,
{
    if n < 10 {
        seq![dec_digit(n as int)]
    } else {
        decimal(n / 10).push(dec_digit((n % 10) as int))
    }
}

fn push_decimal(out: &mut String, n: u64)
    ensures
        final(out)@ == old(out)@ + decimal(n as nat),
    decreases n,
{
    if n >= 10 {
        push_decimal(out, n / 10);
        push_char(out, dec_digit_exec((n % 10) as u8));
        proof {
            assert(out@ =~= old(out)@ + decimal(n as nat));
        }
    } else {
        push_char(out, dec_digit_exec(n as u8));
        proof {
            assert(out@ =~= old(out)@ + decimal(n as nat));
        }
    }
}

/// Writes a number in decimal.
pub fn decimal_string(n: u64) -> (r: String)
    ensures
        r@ == decimal(n as nat),
{
    let mut out = String::new();
    push_decimal(&mut out, n);
    proof {
        assert(Seq::<char>::empty() + decimal(n as nat) =~= decimal(n as nat));
    }
    out
}

/// The channel a diagnostic line speaks of.
#[derive(Clone, Copy, Debug, PartialEq, Eq, Structural)]
pub enum Channel {
    Http,
    Local,
    Remote,
}

/// The bracketed tag that opens a channel's diagnostic line.
pub open spec fn channel_tag(c: Channel) -> Seq<char> {
    match c {
        Channel::Http => "[HTTP]"@,
        Channel::Local => "[LOCAL]"@,
        Channel::Remote => "[REMOTE]"@,
    }
}

/// The bracketed tag that opens a channel's diagnostic line.
pub fn channel_tag_str(c: Channel) -> (r: &'static str)
    ensures
        r@ == channel_tag(c),
{
    match c {
        Channel::Http => "[HTTP]",
        Channel::Local => "[LOCAL]",
        Channel::Remote => "[REMOTE]",
    }
}

/// The diagnostic line a record operation emits.
pub open spec fn record_line_text(c: Channel, count: u64, message: Seq<char>) -> Seq<char> {
    channel_tag(c) + " #"@ + decimal(count as nat) + " message: "@ + message
}

/// Renders the diagnostic line for one record operation:
/// `[<CHANNEL>] #<count> message: <message>`.
pub fn record_line(c: Channel, count: u64, message: &str) -> (r: String)
    ensures
        r@ == record_line_text(c, count, message@),
{
    let mut out = String::from_str(channel_tag_str(c));
    out.append(" #");
    push_decimal(&mut out, count);
    out.append(" message: ");
    out.append(message);
    proof {
        assert(out@ =~= record_line_text(c, count, message@));
    }
    out
}

} // verus!
