//! Error model of the client, as presented to users of the pipeline.

use crate::backoff::BackoffError;
use crate::protocol::ProtocolError;
use vstd::arithmetic::div_mod::lemma_div_decreases;
use vstd::prelude::*;
use vstd::string::{StrSliceExecFns, StringExecFns};

verus! {

/// Context for [`Error::ServerError`]: which topic or partition the failed
/// request was about.
#[derive(Debug, PartialEq, Eq)]
pub enum ServerErrorContext {
    Topic(String),
    Partition(String, i32),
}

/// Payload for [`Error::ServerError`].
///
/// This is data that the server sent and that is still usable despite the
/// error.
#[derive(Debug, PartialEq, Eq)]
pub enum ServerErrorPayload {
    LeaderForward { broker: i32, new_leader: i32 },
    FetchState { high_watermark: i64, last_stable_offset: Option<i64> },
}

/// Failure of a request on an established, live connection.
#[derive(Debug, PartialEq, Eq)]
pub enum RequestError {
    /// The connection is desynchronized and unusable for further requests.
    Poisoned(String),
    /// An I/O error while sending or receiving.
    IO(String),
    /// A structurally malformed response that could not be parsed.
    Protocol(String),
}

/// Error kind of the client pipeline.
#[derive(Debug, PartialEq, Eq)]
pub enum Error {
    /// No connection to any broker could be established.
    Connection(String),
    /// A live connection failed; see [`RequestError`].
    Request(RequestError),
    /// A structurally valid but semantically wrong response, for example
    /// one with the wrong number of topics.
    InvalidResponse(String),
    /// The broker reported an error inside a well-formed response.
    ServerError {
        /// Protocol-level error code.
        protocol_error: ProtocolError,
        /// Server message provided by the broker, if any.
        error_message: Option<String>,
        /// Additional context that we can tell the user about.
        context: Option<ServerErrorContext>,
        /// Additional payload that we can provide the user.
        payload: Option<ServerErrorPayload>,
        /// Whether the error was generated by the client to simulate some
        /// server behaviour or work around a bug.
        is_virtual: bool,
    },
    /// The retry envelope gave up.
    RetryFailed(BackoffError),
}

/// The character of one decimal digit.
pub open spec fn dec_digit_char(d: nat) -> char
    recommends
        d < 10,
{
    if d == 0 {
        '0'
    } else if d == 1 {
        '1'
    } else if d == 2 {
        '2'
    } else if d == 3 {
        '3'
    } else if d == 4 {
        '4'
    } else if d == 5 {
        '5'
    } else if d == 6 {
        '6'
    } else if d == 7 {
        '7'
    } else if d == 8 {
        '8'
    } else {
        '9'
    }
}

/// The decimal rendering of a number, most significant digit first.
pub open spec fn dec_str_spec(n: nat) -> Seq<char>
    decreases n,
{
    if n < 10 {
        seq![dec_digit_char(n)]
    } else {
        dec_str_spec(n / 10).push(dec_digit_char(n % 10))
    }
}

fn dec_digit_str(d: u64) -> (r: &'static str)
    requires
        d < 10,
    ensures
        r@ == seq![dec_digit_char(d as nat)],
{
    proof {
        reveal_strlit("0");
        reveal_strlit("1");
        reveal_strlit("2");
        reveal_strlit("3");
        reveal_strlit("4");
        reveal_strlit("5");
        reveal_strlit("6");
        reveal_strlit("7");
        reveal_strlit("8");
        reveal_strlit("9");
    }
    let r = if d == 0 {
        "0"
    } else if d == 1 {
        "1"
    } else if d == 2 {
        "2"
    } else if d == 3 {
        "3"
    } else if d == 4 {
        "4"
    } else if d == 5 {
        "5"
    } else if d == 6 {
        "6"
    } else if d == 7 {
        "7"
    } else if d == 8 {
        "8"
    } else {
        "9"
    };
    proof {
        assert(r@ =~= seq![dec_digit_char(d as nat)]);
    }
    r
}

/// Renders a number in decimal.
pub fn dec_string(n: u64) -> (r: String)
    ensures
        r@ == dec_str_spec(n as nat),
    decreases n,
{
    if n < 10 {
        String::from_str(dec_digit_str(n))
    } else {
        proof {
            lemma_div_decreases(n as int, 10);
        }
        let mut s = dec_string(n / 10);
        s.append(dec_digit_str(n % 10));
        proof {
            assert(dec_str_spec((n / 10) as nat).push(dec_digit_char((n % 10) as nat)) =~= s@);
        }
        s
    }
}

/// The decimal rendering of a signed number.
pub open spec fn int_str_spec(n: int) -> Seq<char> {
    if n >= 0 {
        dec_str_spec(n as nat)
    } else {
        seq!['-'] + dec_str_spec((-n) as nat)
    }
}

/// Renders a signed number in decimal.
pub fn i32_string(n: i32) -> (r: String)
    ensures
        r@ == int_str_spec(n as int),
{
    if n >= 0 {
        let r = dec_string(n as u64);
        proof {
            assert(r@ =~= int_str_spec(n as int));
        }
        r
    } else {
        let mut r = String::from_str("-");
        let magnitude = -(n as i64);
        let d = dec_string(magnitude as u64);
        r.append(d.as_str());
        proof {
            reveal_strlit("-");
            assert(r@ =~= int_str_spec(n as int));
        }
        r
    }
}

/// Message of the error returned when a response does not hold exactly one
/// topic.
pub open spec fn exactly_one_topic_msg_spec(len: nat) -> Seq<char> {
    "Expected a single topic in response, got "@ + dec_str_spec(len)
}

/// Message of the error returned when a response does not hold exactly one
/// partition.
pub open spec fn exactly_one_partition_msg_spec(len: nat) -> Seq<char> {
    "Expected a single partition in response, got "@ + dec_str_spec(len)
}

impl Error {
    /// The error for a response that held `len` topics where exactly one
    /// was expected.
    pub fn exactly_one_topic(len: usize) -> (r: Self)
        ensures
            r matches Error::InvalidResponse(m) && m@ == exactly_one_topic_msg_spec(len as nat),
    {
        let mut m = String::from_str("Expected a single topic in response, got ");
        let d = dec_string(len as u64);
        m.append(d.as_str());
        Error::InvalidResponse(m)
    }

    /// The error for a response that held `len` partitions where exactly
    /// one was expected.
    pub fn exactly_one_partition(len: usize) -> (r: Self)
        ensures
            r matches Error::InvalidResponse(m) && m@ == exactly_one_partition_msg_spec(
                len as nat,
            ),
    {
        let mut m = String::from_str("Expected a single partition in response, got ");
        let d = dec_string(len as u64);
        m.append(d.as_str());
        Error::InvalidResponse(m)
    }
}

/// Replaces a missing server message with `"n/a"`.
pub fn string_or_na(s: &Option<String>) -> (r: &str)
    ensures
        match s {
            Some(v) => r@ == v@,
            None => r@ == "n/a"@,
        },
{
    match s {
        Some(v) => v.as_str(),
        None => "n/a",
    }
}

} // verus!
