//! The identification strings that the two sides exchange before any packet
//! (RFC 4253, section 4.2).

use crate::client::conn::slice_of;
use crate::codec::decode::same_octets;
use crate::codec::encode::extend;
use crate::error::Error;
use vstd::prelude::*;
use vstd::string::StringSliceAdditionalSpecFns;

verus! {

/// The largest length of a line, line end included.
pub const MAX_LINE_LEN: usize = 255;

/// What every identification string begins with.
pub const PREFIX: &'static str = "SSH-";

/// What the identification string of version 2.0 of the protocol begins with.
pub const PREFIX_2_0: &'static str = "SSH-2.0-";

/// What the identification string of a server begins with that speaks
/// version 2.0 and older versions.
pub const PREFIX_1_99: &'static str = "SSH-1.99-";

/// The reason given when a line is longer than [`MAX_LINE_LEN`].
pub const LINE_TOO_LONG: &'static str = "the identification string is too long";

/// The reason given when the peer speaks another version of the protocol.
pub const VERSION_UNSUPPORTED: &'static str = "the peer does not speak version 2.0";

/// The line end.
pub const LINE_FEED: u8 = 0x0a;

/// The octet that may stand before the line end.
pub const CARRIAGE_RETURN: u8 = 0x0d;

/// What stands at the front of what was received before the first packet.
#[derive(Debug, Clone, PartialEq, Eq)]
pub enum Line {
    /// No whole line yet.
    Incomplete,
    /// A line of `consumed` octets that is no identification string. A server
    /// may send such lines before it identifies itself.
    Other { consumed: usize },
    /// The identification string, without the line end, in a line of
    /// `consumed` octets.
    Ident { consumed: usize, ident: Vec<u8> },
}

/// What a [`Line`] holds.
pub enum LineView {
    Incomplete,
    Other { consumed: usize },
    Ident { consumed: usize, ident: Seq<u8> },
}

impl View for Line {
    type V = LineView;

    open spec fn view(&self) -> LineView {
        match self {
            Line::Incomplete => LineView::Incomplete,
            Line::Other { consumed } => LineView::Other { consumed: *consumed },
            Line::Ident { consumed, ident } => LineView::Ident {
                consumed: *consumed,
                ident: ident@,
            },
        }
    }
}

/// The place of the first line feed in `input`, from `from` on.
pub open spec fn line_feed_at(input: Seq<u8>, from: int) -> Option<int>
    decreases input.len() - from,
{
    if from < 0 || from >= input.len() {
        None
    } else if input[from] == LINE_FEED {
        Some(from)
    } else {
        line_feed_at(input, from + 1)
    }
}

/// Whether `line` begins with `prefix`.
pub open spec fn begins_with(line: Seq<u8>, prefix: Seq<u8>) -> bool {
    line.len() >= prefix.len() && line.take(prefix.len() as int) == prefix
}

/// What stands at the front of `input`: the first line, if it is there in
/// full. A line ends with a line feed, before which a carriage return may
/// stand; neither belongs to the identification string. An identification
/// string begins with `SSH-`, and the version that it names must be 2.0, or
/// 1.99, which includes 2.0. No line is longer than 255 octets, line end
/// included.
pub open spec fn first_line(input: Seq<u8>) -> Result<LineView, Error> {
    match line_feed_at(input, 0) {
        None => if input.len() >= MAX_LINE_LEN {
            Err(Error::Protocol(LINE_TOO_LONG))
        } else {
            Ok(LineView::Incomplete)
        },
        Some(end) => if end + 1 > MAX_LINE_LEN {
            Err(Error::Protocol(LINE_TOO_LONG))
        } else {
            let line = if end > 0 && input[end - 1] == CARRIAGE_RETURN {
                input.take(end - 1)
            } else {
                input.take(end)
            };
            let consumed = (end + 1) as usize;
            if !begins_with(line, PREFIX.spec_bytes()) {
                Ok(LineView::Other { consumed })
            } else if begins_with(line, PREFIX_2_0.spec_bytes()) || begins_with(
                line,
                PREFIX_1_99.spec_bytes(),
            ) {
                Ok(LineView::Ident { consumed, ident: line })
            } else {
                Err(Error::Protocol(VERSION_UNSUPPORTED))
            }
        },
    }
}

/// Whether `line` begins with the octets of `prefix`.
pub fn starts_with(line: &[u8], prefix: &str) -> (r: bool)
    ensures
        r == begins_with(line@, prefix.spec_bytes()),
{
    let prefix: &[u8] = prefix.as_bytes();
    if line.len() < prefix.len() {
        return false;
    }
    let head: &[u8] = slice_of(line, 0, prefix.len());
    assert(head@ =~= line@.take(prefix@.len() as int));
    same_octets(head, prefix)
}

/// Finds the first line at the front of `input`.
pub fn read_line(input: &[u8]) -> (r: Result<Line, Error>)
    ensures
        match first_line(input@) {
            Ok(line) => r matches Ok(read) && read@ == line,
            Err(e) => r matches Err(err) && err == e,
        },
{
    let n: usize = input.len();
    let mut end: usize = 0;
    while end < n && input[end] != LINE_FEED
        invariant
            n == input@.len(),
            end <= n,
            line_feed_at(input@, 0) == line_feed_at(input@, end as int),
        decreases n - end,
    {
        end = end + 1;
    }
    if end == n {
        if n >= MAX_LINE_LEN {
            return Err(Error::Protocol(LINE_TOO_LONG));
        }
        return Ok(Line::Incomplete);
    }
    if end + 1 > MAX_LINE_LEN {
        return Err(Error::Protocol(LINE_TOO_LONG));
    }
    let len: usize = if end > 0 && input[end - 1] == CARRIAGE_RETURN {
        end - 1
    } else {
        end
    };
    let line: &[u8] = slice_of(input, 0, len);
    assert(line@ =~= input@.take(len as int));
    let consumed: usize = end + 1;
    if !starts_with(line, PREFIX) {
        Ok(Line::Other { consumed })
    } else if starts_with(line, PREFIX_2_0) || starts_with(line, PREFIX_1_99) {
        let mut ident: Vec<u8> = Vec::new();
        extend(&mut ident, line);
        Ok(Line::Ident { consumed, ident })
    } else {
        Err(Error::Protocol(VERSION_UNSUPPORTED))
    }
}

/// What we send before any packet: our identification string and the line
/// end.
pub fn ident_line(ident: &[u8]) -> (line: Vec<u8>)
    ensures
        line@ == ident@ + seq![CARRIAGE_RETURN, LINE_FEED],
{
    let mut line: Vec<u8> = Vec::new();
    extend(&mut line, ident);
    line.push(CARRIAGE_RETURN);
    line.push(LINE_FEED);
    assert(line@ =~= ident@ + seq![CARRIAGE_RETURN, LINE_FEED]);
    line
}

} // verus!
