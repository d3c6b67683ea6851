//! Incoming WebSocket frames and how they display.
//!
//! A frame is either a text payload passed through as-is or a binary
//! payload held as an owned byte sequence. Binary payloads display as
//! lowercase hexadecimal pairs, one pair per byte, in byte order.

use vstd::prelude::*;

verus! {

use vstd::string::StringExecFns;

/// An incoming WebSocket frame, replaced wholesale on each new message
/// event: a text payload, or a binary payload copied into owned bytes.
#[derive(Clone, Debug, PartialEq)]
pub enum WebSocketMessage {
    Text(String),
    Binary(Vec<u8>),
}

/// The payload of one message event, as the platform interop layer
/// hands it over: a payload the platform flagged as a string, with its
/// text if the conversion succeeded, or any other payload, with its
/// bytes if they could be copied out. `None` in either variant stands
/// for a payload that could not be decoded.
#[derive(Clone, Debug, PartialEq)]
pub enum MessageData {
    Text(Option<String>),
    Binary(Option<Vec<u8>>),
}

/// Classifies a string-flagged payload: a decoded text yields exactly
/// that text as a message, an undecodable one yields nothing and the
/// event is dropped.
pub fn process_text(text: Option<String>) -> (r: Option<WebSocketMessage>)
    ensures
        (match text {
            Some(t) => r == Some(WebSocketMessage::Text(t)),
            None => r is None,
        }),
{
    match text {
        Some(t) => Some(WebSocketMessage::Text(t)),
        None => None,
    }
}

/// Classifies a non-string payload: decoded bytes yield exactly those
/// bytes as a binary message, with no change of order or length; an
/// undecodable payload yields nothing and the event is dropped.
pub fn process_binary(bytes: Option<Vec<u8>>) -> (r: Option<WebSocketMessage>)
    ensures
        (match bytes {
            Some(b) => r == Some(WebSocketMessage::Binary(b)),
            None => r is None,
        }),
{
    match bytes {
        Some(b) => Some(WebSocketMessage::Binary(b)),
        None => None,
    }
}

/// Classifies one message event's payload by its kind: a string
/// payload becomes a `Text` message and never a `Binary` one, any
/// other payload becomes a `Binary` message with its bytes unchanged,
/// and a payload that could not be decoded is dropped.
pub fn process_both(data: MessageData) -> (r: Option<WebSocketMessage>)
    ensures
        (match data {
            MessageData::Text(text) => (match text {
                Some(t) => r == Some(WebSocketMessage::Text(t)),
                None => r is None,
            }),
            MessageData::Binary(bytes) => (match bytes {
                Some(b) => r == Some(WebSocketMessage::Binary(b)),
                None => r is None,
            }),
        }),
{
    match data {
        MessageData::Text(text) => process_text(text),
        MessageData::Binary(bytes) => process_binary(bytes),
    }
}

/// The lowercase hexadecimal digit for a value below sixteen.
pub open spec fn hex_digit(n: int) -> char {
    if n == 0 {
        '0'
    } else if n == 1 {
        '1'
    } else if n == 2 {
        '2'
    } else if n == 3 {
        '3'
    } else if n == 4 {
        '4'
    } else if n == 5 {
        '5'
    } else if n == 6 {
        '6'
    } else if n == 7 {
        '7'
    } else if n == 8 {
        '8'
    } else if n == 9 {
        '9'
    } else if n == 10 {
        'a'
    } else if n == 11 {
        'b'
    } else if n == 12 {
        'c'
    } else if n == 13 {
        'd'
    } else if n == 14 {
        'e'
    } else {
        'f'
    }
}

/// The two lowercase hexadecimal digits of one byte, high nibble first.
pub open spec fn hex_pair(b: u8) -> Seq<char> {
    seq![hex_digit(b as int / 16), hex_digit(b as int % 16)]
}

/// A byte sequence rendered as lowercase hexadecimal pairs, in order.
pub open spec fn hex_of_bytes(s: Seq<u8>) -> Seq<char>
    decreases s.len(),
{
    if s.len() == 0 {
        Seq::empty()
    } else {
        hex_of_bytes(s.drop_last()) + hex_pair(s.last())
    }
}

/// The one-character string for a hexadecimal digit value.
fn hex_nibble_str(n: u8) -> (r: &'static str)
    requires
        n < 16,
    ensures
        r@ =~= seq![hex_digit(n as int)],
{
    proof {
        reveal_strlit("0");
        reveal_strlit("1");
        reveal_strlit("2");
        reveal_strlit("3");
        reveal_strlit("4");
        reveal_strlit("5");
        reveal_strlit("6");
        reveal_strlit("7");
        reveal_strlit("8");
        reveal_strlit("9");
        reveal_strlit("a");
        reveal_strlit("b");
        reveal_strlit("c");
        reveal_strlit("d");
        reveal_strlit("e");
        reveal_strlit("f");
    }
    match n {
        0u8 => "0",
        1u8 => "1",
        2u8 => "2",
        3u8 => "3",
        4u8 => "4",
        5u8 => "5",
        6u8 => "6",
        7u8 => "7",
        8u8 => "8",
        9u8 => "9",
        10u8 => "a",
        11u8 => "b",
        12u8 => "c",
        13u8 => "d",
        14u8 => "e",
        _ => "f",
    }
}

impl WebSocketMessage {
    /// The length of the payload, in characters for text and in bytes
    /// for binary data.
    pub open spec fn payload_len(&self) -> nat {
        match self {
            WebSocketMessage::Text(text) => text@.len(),
            WebSocketMessage::Binary(data) => data@.len(),
        }
    }

    /// The text this message displays as: text verbatim, binary as
    /// lowercase hexadecimal pairs.
    pub open spec fn display_seq(&self) -> Seq<char> {
        match self {
            WebSocketMessage::Text(text) => text@,
            WebSocketMessage::Binary(data) => hex_of_bytes(data@),
        }
    }

    /// Whether the payload is empty: the empty text or no bytes.
    pub fn is_empty(&self) -> (r: bool)
        ensures
            r == (self.payload_len() == 0),
    {
        match self {
            WebSocketMessage::Text(text) => text.as_str().is_empty(),
            WebSocketMessage::Binary(data) => data.len() == 0,
        }
    }

    /// Renders the message for display: text is returned verbatim,
    /// binary data as lowercase hexadecimal pairs in byte order.
    pub fn to_string(&self) -> (r: String)
        ensures
            r@ == self.display_seq(),
    {
        match self {
            WebSocketMessage::Text(text) => text.clone(),
            WebSocketMessage::Binary(data) => {
                let mut out = String::new();
                let mut i: usize = 0;
                while i < data.len()
                    invariant
                        i <= data.len(),
                        out@ == hex_of_bytes(data@.take(i as int)),
                    decreases data.len() - i,
                {
                    let b: u8 = data[i];
                    out.append(hex_nibble_str(b / 16));
                    out.append(hex_nibble_str(b % 16));
                    proof {
                        assert(data@.take(i + 1).drop_last() =~= data@.take(i as int));
                        assert(data@.take(i + 1).last() == b);
                        assert(out@ =~= hex_of_bytes(data@.take(i + 1)));
                    }
                    i = i + 1;
                }
                proof {
                    assert(data@.take(data@.len() as int) =~= data@);
                }
                out
            },
        }
    }
}

} // verus!
