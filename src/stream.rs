//! What a streaming client is sent for each read from the bus.

use vstd::prelude::*;
use crate::text::{decimal, push_decimal};

verus! {

/// One server-push frame: a data frame carrying a serialized event, or an
/// `error`-typed frame carrying a notice.
#[derive(Clone, Debug)]
pub enum StreamFrame {
    Data(String),
    Error(String),
}

impl StreamFrame {
    /// The event type of the frame, if it is not a plain data frame.
    pub fn event_type(&self) -> (r: Option<&'static str>)
        ensures
            match self {
                StreamFrame::Data(_) => r is None,
                StreamFrame::Error(_) => r is Some && r->0@ == "error"@,
            },
    {
        match self {
            StreamFrame::Data(_) => None,
            StreamFrame::Error(_) => {
                proof { reveal_strlit("error"); }
                Some("error")
            },
        }
    }
}

pub open spec fn serialization_notice() -> Seq<char> {
    "internal: serialization error"@
}

pub open spec fn lag_notice(missed: u64) -> Seq<char> {
    "Connection lagged. You missed "@ + decimal(missed as nat) + " messages."@
}

/// The frame for an event, given its serialized form (`None` when the
/// event could not be serialized).
pub fn frame_for_event(serialized: Option<String>) -> (r: StreamFrame)
    ensures
        match serialized {
            Some(json) => r == StreamFrame::Data(json),
            None => r is Error && r->Error_0@ == serialization_notice(),
        },
{
    match serialized {
        Some(json) => StreamFrame::Data(json),
        None => {
            proof { reveal_strlit("internal: serialization error"); }
            StreamFrame::Error(String::from_str("internal: serialization error"))
        },
    }
}

/// The frame telling a subscriber how many events it missed.
pub fn frame_for_lag(missed: u64) -> (r: StreamFrame)
    ensures
        r is Error && r->Error_0@ == lag_notice(missed),
{
    proof {
        reveal_strlit("Connection lagged. You missed ");
        reveal_strlit(" messages.");
    }
    let mut notice = String::from_str("Connection lagged. You missed ");
    push_decimal(&mut notice, missed);
    notice.append(" messages.");
    StreamFrame::Error(notice)
}

} // verus!
