//! The lines a session prints: the opening line, one line per reply, and the
//! counts of the closing summary.
//!
//! Every line is stated as the concatenation of its fixed words and its
//! fields, numbers in decimal. Addresses and the destination come in as text.
//! The closing line of round-trip figures shows fractions and is the
//! caller's to print, from the exact sums of the summary.

use crate::engine::{ReceivedReply, Report};
use vstd::prelude::*;
use vstd::string::StrSliceExecFns;
use vstd::string::StringExecFns;

verus! {

/// The decimal digit of a value below ten, as a text of one character.
pub open spec fn digit(value: nat) -> Seq<char> {
    "0123456789"@.subrange(value as int, value as int + 1)
}

/// A number in decimal, without sign or leading zeros.
pub open spec fn decimal(value: nat) -> Seq<char>
    decreases value,
{
    if value < 10 {
        digit(value)
    } else {
        decimal(value / 10) + digit(value % 10)
    }
}

/// `PING <dest> (<addr>) <payload_size> data bytes`
pub open spec fn opening(dest: Seq<char>, address: Seq<char>, payload_size: nat) -> Seq<char> {
    "PING "@ + dest + " ("@ + address + ") "@ + decimal(payload_size) + " data bytes"@
}

/// `<payload_size> bytes from <peer>: icmp_seq=<seq> ttl=<ttl> time=<rtt> ms`
pub open spec fn reply(reply: ReceivedReply, peer: Seq<char>) -> Seq<char> {
    decimal(reply.payload_size as nat) + " bytes from "@ + peer + ": icmp_seq="@ + decimal(
        reply.sequence as nat,
    ) + " ttl="@ + decimal(reply.ttl as nat) + " time="@ + decimal(reply.round_trip_ms as nat)
        + " ms"@
}

/// `--- <dest> ping statistics ---`
pub open spec fn heading(dest: Seq<char>) -> Seq<char> {
    "--- "@ + dest + " ping statistics ---"@
}

/// `<transmitted> packets transmitted, <received> received, <loss>% packet
/// loss, time <elapsed> ms`, without the loss where nothing was transmitted.
pub open spec fn counts(report: Report) -> Seq<char> {
    let front = decimal(report.transmitted as nat) + " packets transmitted, "@ + decimal(
        report.received as nat,
    ) + " received, "@;
    let loss = match report.loss_percentage {
        Some(percentage) => decimal(percentage as nat) + "% packet loss, "@,
        None => Seq::empty(),
    };
    front + loss + "time "@ + decimal(report.elapsed_ms as nat) + " ms"@
}

/// Appends `value` in decimal.
pub fn push_decimal(text: &mut String, value: u64)
    ensures
        final(text)@ == old(text)@ + decimal(value as nat),
    decreases value,
{
    if value >= 10 {
        push_decimal(text, value / 10);
    }
    let last = (value % 10) as usize;
    proof {
        reveal_strlit("0123456789");
    }
    text.append("0123456789".substring_ascii(last, last + 1));
    assert(final(text)@ =~= old(text)@ + decimal(value as nat));
}

/// The opening line of a session.
pub fn opening_line(dest: &str, address: &str, payload_size: usize) -> (line: String)
    ensures
        line@ == opening(dest@, address@, payload_size as nat),
{
    let mut line = String::from_str("PING ");
    line.append(dest);
    line.append(" (");
    line.append(address);
    line.append(") ");
    push_decimal(&mut line, payload_size as u64);
    line.append(" data bytes");
    line
}

/// The line for one reply received from `peer`.
pub fn reply_line(received: &ReceivedReply, peer: &str) -> (line: String)
    ensures
        line@ == reply(*received, peer@),
{
    let mut line = String::new();
    push_decimal(&mut line, received.payload_size as u64);
    line.append(" bytes from ");
    line.append(peer);
    line.append(": icmp_seq=");
    push_decimal(&mut line, received.sequence as u64);
    line.append(" ttl=");
    push_decimal(&mut line, received.ttl as u64);
    line.append(" time=");
    push_decimal(&mut line, received.round_trip_ms);
    line.append(" ms");
    assert(line@ =~= reply(*received, peer@));
    line
}

/// The heading of the closing summary.
pub fn summary_heading(dest: &str) -> (line: String)
    ensures
        line@ == heading(dest@),
{
    let mut line = String::from_str("--- ");
    line.append(dest);
    line.append(" ping statistics ---");
    line
}

/// The counts of the closing summary.
pub fn summary_counts(report: &Report) -> (line: String)
    ensures
        line@ == counts(*report),
{
    let mut line = String::new();
    push_decimal(&mut line, report.transmitted);
    line.append(" packets transmitted, ");
    push_decimal(&mut line, report.received);
    line.append(" received, ");
    match report.loss_percentage {
        Some(percentage) => {
            push_decimal(&mut line, percentage);
            line.append("% packet loss, ");
        },
        None => {},
    }
    line.append("time ");
    push_decimal(&mut line, report.elapsed_ms);
    line.append(" ms");
    assert(line@ =~= counts(*report));
    line
}

} // verus!
