//! Message envelopes: a timestamped category wrapper around content that was
//! serialized elsewhere. Construction takes the stamp as a plain value —
//! seconds since the Unix epoch, read from whatever clock the caller trusts —
//! and performs no content validation.

use vstd::prelude::*;

verus! {

/// A system-level command carried inside a [`SysMsg`].
#[derive(Debug, Clone, Copy, PartialEq, Eq, Structural)]
pub enum SysCommand {
    SetMode,
}

/// A system message: a command tag and the serialized data that goes with it.
#[derive(Debug, Clone)]
pub struct SysMsg {
    pub command: SysCommand,
    pub data: String,
}

/// The category a [`Message`] belongs to.
#[derive(Debug, Clone, Copy, PartialEq, Eq, Structural)]
pub enum MsgType {
    Sys,
    Control,
    Status,
    Telemetry,
}

/// A transport envelope: construction time (seconds since the Unix epoch),
/// a category tag, and opaque, already-serialized content.
#[derive(Debug, Clone)]
pub struct Message {
    timestamp: i64,
    msg_type: MsgType,
    content: String,
}

impl Message {
    /// The stamped construction time, for use in contracts.
    pub closed spec fn spec_timestamp(&self) -> i64 {
        self.timestamp
    }

    /// The category tag, for use in contracts.
    pub closed spec fn spec_msg_type(&self) -> MsgType {
        self.msg_type
    }

    /// The carried content, for use in contracts.
    pub closed spec fn spec_content(&self) -> Seq<char> {
        self.content@
    }

    /// Wrap already-serialized content under a category, stamped with the
    /// given construction time. The content is not validated.
    pub fn new(timestamp: i64, msg_type: MsgType, content: String) -> (m: Message)
        ensures
            m.spec_timestamp() == timestamp,
            m.spec_msg_type() == msg_type,
            m.spec_content() == content@,
    {
        Message { timestamp, msg_type, content }
    }

    /// The stamped construction time.
    pub fn timestamp(&self) -> (t: i64)
        ensures
            t == self.spec_timestamp(),
    {
        self.timestamp
    }

    /// The category tag.
    pub fn msg_type(&self) -> (t: MsgType)
        ensures
            t == self.spec_msg_type(),
    {
        self.msg_type
    }

    /// The carried content.
    pub fn content(&self) -> (c: &String)
        ensures
            c@ == self.spec_content(),
    {
        &self.content
    }
}

} // verus!
