//! The duplex session: the decision step of each of the two loops that
//! run concurrently against one connection.
//!
//! The receive loop repeatedly reads a bounded chunk of bytes; each read
//! is classified by [`recv_step`] as text to display, a peer-initiated
//! close (fatal to the whole process) or a transport error (shuts the
//! connection down and stops only that loop). The send loop repeatedly
//! reads a line from the operator; [`send_step`] either recognises the
//! quit command, which ends the session without transmitting anything,
//! or yields the trimmed line's bytes to write to the connection.

use vstd::prelude::*;
use vstd::string::StrSliceExecFns;
use vstd::string::StringExecFns;
use vstd::utf8::decode_utf8;
use vstd::utf8::encode_utf8;
use vstd::utf8::encode_utf8_decode_utf8;
use vstd::utf8::encode_utf8_valid_utf8;
use vstd::utf8::valid_utf8;

use crate::text::lemma_encode_utf8_empty;
use crate::text::lossy_decode;
use crate::text::lossy_of;
use crate::text::trim_line;
use crate::text::trim_of;

verus! {

/// The most bytes one receive operation takes from the connection.
pub const MAX_CHUNK: usize = 50;

/// What the transport handed the receive loop on one read.
#[derive(Debug, PartialEq, Eq)]
pub enum RecvEvent {
    /// The read succeeded and yielded these bytes; an empty chunk is how
    /// the transport signals that the peer closed the connection.
    Chunk(Vec<u8>),
    /// The read failed with a transport-level error.
    ReadError,
}

/// What the receive loop does in response to one read.
#[derive(Debug, PartialEq, Eq)]
pub enum RecvAction {
    /// Show this text under the peer label and keep reading.
    Display(String),
    /// The peer closed the connection: the whole process terminates with
    /// a nonzero status. A one-to-one session has no purpose once the
    /// peer leaves, so this is deliberately fatal, not recoverable.
    PeerClosed,
    /// The read failed: shut down both directions of the connection and
    /// stop this loop only; the process keeps running the send loop.
    TransportError,
}

/// What the send loop does with one line the operator typed.
#[derive(Debug, PartialEq, Eq)]
pub enum SendAction {
    /// The line was the quit command: show the quitting notice and end
    /// the session; nothing is transmitted to the peer.
    Quit,
    /// Write exactly these bytes to the connection and keep reading.
    Transmit(Vec<u8>),
}

/// One step of the receive loop: classifies a read.
///
/// A failed read becomes a transport error, an empty chunk a peer close,
/// and a nonempty chunk is decoded losslessly — never rejected — and
/// displayed; bytes that are valid UTF-8 decode to exactly their
/// characters.
pub fn recv_step(event: RecvEvent) -> (r: RecvAction)
    ensures
        r is TransportError <==> event is ReadError,
        r is PeerClosed <==> (event matches RecvEvent::Chunk(b) && b@.len() == 0),
        r is Display <==> (event matches RecvEvent::Chunk(b) && b@.len() > 0),
        event matches RecvEvent::Chunk(b) ==> (r matches RecvAction::Display(t) ==> t@
            == lossy_of(b@) && (valid_utf8(b@) ==> t@ == decode_utf8(b@))),
{
    match event {
        RecvEvent::Chunk(chunk) => {
            if chunk.len() == 0 {
                RecvAction::PeerClosed
            } else {
                RecvAction::Display(lossy_decode(&chunk))
            }
        },
        RecvEvent::ReadError => RecvAction::TransportError,
    }
}

/// One step of the send loop: decides what to do with one operator line.
///
/// The line is trimmed; if what remains is exactly `!quit` the session
/// ends and nothing is sent, otherwise the trimmed line's UTF-8 bytes are
/// what goes on the wire.
pub fn send_step(line: &str) -> (r: SendAction)
    ensures
        r is Quit <==> trim_of(line@) == "!quit"@,
        r is Transmit <==> trim_of(line@) != "!quit"@,
        r matches SendAction::Transmit(payload) ==> payload@ == encode_utf8(trim_of(line@)),
{
    let trimmed = trim_line(line);
    let quit: String = "!quit".to_owned();
    if trimmed == quit {
        SendAction::Quit
    } else {
        SendAction::Transmit(trimmed.as_str().as_bytes_vec())
    }
}

/// The line shown for received text: the peer label, then the text.
pub fn peer_line(text: &str) -> (r: String)
    ensures
        r@ == "Peer: "@ + text@,
{
    let mut line: String = "Peer: ".to_owned();
    line.append(text);
    line
}

/// Round trip: the bytes the send loop puts on the wire for a line are
/// valid UTF-8 and decode back to exactly the trimmed line, so the peer
/// that receives them in one chunk displays the sender's text unchanged.
pub proof fn lemma_round_trip(line: Seq<char>)
    ensures
        valid_utf8(encode_utf8(trim_of(line))),
        decode_utf8(encode_utf8(trim_of(line))) == trim_of(line),
{
    broadcast use encode_utf8_valid_utf8, encode_utf8_decode_utf8;

}

/// Hands one operator line through both loops: what the send loop
/// transmits is fed, as one chunk, to a receive step, and the displayed
/// text comes back.
///
/// For every line that does not trim to the quit command or to nothing,
/// the peer displays exactly the trimmed line. A quit command is never
/// transmitted, and a line that trims to nothing puts zero bytes on the
/// wire, which a receiver cannot tell from a peer close.
pub fn round_trip(line: &str) -> (r: Option<String>)
    ensures
        r is Some <==> trim_of(line@) != "!quit"@ && trim_of(line@).len() > 0,
        r matches Some(t) ==> t@ == trim_of(line@),
{
    match send_step(line) {
        SendAction::Quit => None,
        SendAction::Transmit(payload) => {
            proof {
                lemma_round_trip(line@);
                lemma_encode_utf8_empty(trim_of(line@));
            }
            match recv_step(RecvEvent::Chunk(payload)) {
                RecvAction::Display(text) => Some(text),
                _ => None,
            }
        },
    }
}

} // verus!
