//! How a message is written on the wire.
//!
//! A client receives each message as one line of text: the source address
//! and the destination address in decimal, separated by a colon, then a
//! space, then the payload read as UTF-8 with every invalid sequence
//! replaced, then a line feed.

use vstd::prelude::*;
use vstd::utf8::{decode_utf8, valid_utf8};

use crate::message::{Message, MessageView};

verus! {

/// The character that stands for the digit `d`.
pub open spec fn digit_char(d: nat) -> char
    recommends
        d < 10,
{
    if d == 0 {
        '0'
    } else if d == 1 {
        '1'
    } else if d == 2 {
        '2'
    } else if d == 3 {
        '3'
    } else if d == 4 {
        '4'
    } else if d == 5 {
        '5'
    } else if d == 6 {
        '6'
    } else if d == 7 {
        '7'
    } else if d == 8 {
        '8'
    } else {
        '9'
    }
}

/// The decimal numeral of `n`: no sign, no leading zero, `"0"` for zero.
pub open spec fn decimal(n: nat) -> Seq<char>
    decreases n,
{
    if n < 10 {
        seq![digit_char(n)]
    } else {
        decimal(n / 10).push(digit_char(n % 10))
    }
}

/// The text that a lossy UTF-8 reading of `bytes` gives: the characters that
/// the valid parts encode, and U+FFFD in place of each invalid sequence.
pub uninterp spec fn utf8_lossy(bytes: Seq<u8>) -> Seq<char>;

/// The payload as it is shown to a client: the text that the bytes encode
/// where they are valid UTF-8, and their lossy reading where they are not.
pub open spec fn payload_text(bytes: Seq<u8>) -> Seq<char> {
    if valid_utf8(bytes) {
        decode_utf8(bytes)
    } else {
        utf8_lossy(bytes)
    }
}

/// The text of a message without its line feed.
pub open spec fn wire_text(m: MessageView) -> Seq<char> {
    decimal(m.src_id as nat) + seq![':'] + decimal(m.dst_id as nat) + seq![' '] + payload_text(
        m.data,
    )
}

/// The line that a client is sent for a message.
pub open spec fn wire_line(m: MessageView) -> Seq<char> {
    wire_text(m).push('\n')
}

/// Reads bytes as text with `String::from_utf8_lossy`.
///
/// Trusted: the result is named `utf8_lossy` of the bytes, and bytes that are
/// valid UTF-8 come back as the text they encode, as std documents.
#[verifier::external_body]
fn lossy_text(data: &[u8]) -> (text: String)
    ensures
        text@ == utf8_lossy(data@),
        text@ == payload_text(data@),
{
    String::from_utf8_lossy(data).into_owned()
}

fn digit_str(d: u8) -> (s: &'static str)
    requires
        d < 10,
    ensures
        s@ == seq![digit_char(d as nat)],
{
    proof {
        reveal_strlit("0");
        reveal_strlit("1");
        reveal_strlit("2");
        reveal_strlit("3");
        reveal_strlit("4");
        reveal_strlit("5");
        reveal_strlit("6");
        reveal_strlit("7");
        reveal_strlit("8");
        reveal_strlit("9");
    }
    let s = match d {
        0 => "0",
        1 => "1",
        2 => "2",
        3 => "3",
        4 => "4",
        5 => "5",
        6 => "6",
        7 => "7",
        8 => "8",
        _ => "9",
    };
    assert(s@ =~= seq![digit_char(d as nat)]);
    s
}

/// Appends the decimal numeral of `n` to `out`.
pub fn push_decimal(out: &mut String, n: u16)
    ensures
        final(out)@ == old(out)@ + decimal(n as nat),
    decreases n,
{
    if n >= 10 {
        push_decimal(out, n / 10);
    }
    out.append(digit_str((n % 10) as u8));
    assert(out@ =~= old(out)@ + decimal(n as nat));
}

impl Message {
    /// The message as text: `<source>:<destination> <payload>`.
    pub fn to_string(&self) -> (text: String)
        ensures
            text@ == wire_text(self@),
    {
        proof {
            reveal_strlit(":");
            reveal_strlit(" ");
        }
        let mut text = String::new();
        push_decimal(&mut text, self.src_id());
        text.append(":");
        push_decimal(&mut text, self.dst_id());
        text.append(" ");
        let payload = lossy_text(self.data());
        text.append(payload.as_str());
        assert(text@ =~= wire_text(self@));
        text
    }

    /// The line that carries the message to a client: its text and a line
    /// feed.
    pub fn to_line(&self) -> (line: String)
        ensures
            line@ == wire_line(self@),
    {
        proof {
            reveal_strlit("\n");
        }
        let mut line = self.to_string();
        line.append("\n");
        assert(line@ =~= wire_line(self@));
        line
    }
}

} // verus!
