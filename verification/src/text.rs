//! Verified text building: decimal rendering of unsigned integers and the
//! chat-log line format `[<epoch-millis>] [channel:<channel-id>] <message>\n`.

use vstd::prelude::*;

verus! {

/// The character for one decimal digit `d < 10`.
pub open spec fn dec_digit(d: nat) -> char {
    if d == 0 {
        '0'
    } else if d == 1 {
        '1'
    } else if d == 2 {
        '2'
    } else if d == 3 {
        '3'
    } else if d == 4 {
        '4'
    } else if d == 5 {
        '5'
    } else if d == 6 {
        '6'
    } else if d == 7 {
        '7'
    } else if d == 8 {
        '8'
    } else {
        '9'
    }
}

/// The usual decimal representation of `n`: no sign, no leading zero
/// except for `n == 0` itself.
pub open spec fn dec_rep(n: nat) -> Seq<char>
    decreases n,
{
    if n < 10 {
        seq![dec_digit(n)]
    } else {
        dec_rep(n / 10).push(dec_digit(n % 10))
    }
}

/// One chat-log line: `[<timestamp>] [channel:<channel>] <message>` plus a
/// trailing newline.
pub open spec fn chat_line(timestamp_millis: u64, channel: u32, message: Seq<char>) -> Seq<char> {
    "["@ + dec_rep(timestamp_millis as nat) + "] [channel:"@ + dec_rep(channel as nat) + "] "@
        + message + "\n"@
}

/// The single-character string for a decimal digit.
fn digit_str(d: u64) -> (r: &'static str)
    requires
        d < 10,
    ensures
        r@ == seq![dec_digit(d as nat)],
{
    proof {
        reveal_strlit("0");
        reveal_strlit("1");
        reveal_strlit("2");
        reveal_strlit("3");
        reveal_strlit("4");
        reveal_strlit("5");
        reveal_strlit("6");
        reveal_strlit("7");
        reveal_strlit("8");
        reveal_strlit("9");
    }
    let r: &'static str = match d {
        0 => "0",
        1 => "1",
        2 => "2",
        3 => "3",
        4 => "4",
        5 => "5",
        6 => "6",
        7 => "7",
        8 => "8",
        _ => "9",
    };
    proof {
        assert(r@ =~= seq![dec_digit(d as nat)]);
    }
    r
}

/// Render `n` in decimal.
pub fn u64_to_dec(n: u64) -> (r: String)
    ensures
        r@ == dec_rep(n as nat),
    decreases n,
{
    if n < 10 {
        String::from_str(digit_str(n))
    } else {
        assert(n / 10 < n);
        let mut s = u64_to_dec(n / 10);
        s.append(digit_str(n % 10));
        proof {
            assert(s@ =~= dec_rep(n as nat));
        }
        s
    }
}

/// Render `n` in decimal.
pub fn u32_to_dec(n: u32) -> (r: String)
    ensures
        r@ == dec_rep(n as nat),
{
    u64_to_dec(n as u64)
}

/// Build one chat-log line, exactly [`chat_line`].
pub fn format_chat_line(timestamp_millis: u64, channel: u32, message: &str) -> (r: String)
    ensures
        r@ == chat_line(timestamp_millis, channel, message@),
{
    let mut s = String::from_str("[");
    let ts = u64_to_dec(timestamp_millis);
    s.append(ts.as_str());
    s.append("] [channel:");
    let ch = u32_to_dec(channel);
    s.append(ch.as_str());
    s.append("] ");
    s.append(message);
    s.append("\n");
    proof {
        assert(s@ =~= chat_line(timestamp_millis, channel, message@));
    }
    s
}

} // verus!
