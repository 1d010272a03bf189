//! The canonical inbound message.

use vstd::prelude::*;

verus! {

/// One inbound message, as every channel hands it on.
///
/// `id` is unique within its channel only; `timestamp` is the time of capture
/// in seconds since the epoch.
#[derive(Debug, Clone)]
pub struct ChannelMessage {
    pub id: String,
    pub sender: String,
    pub content: String,
    pub channel: String,
    pub timestamp: u64,
}

/// What a `ChannelMessage` holds, as mathematical values.
pub ghost struct MessageView {
    pub id: Seq<char>,
    pub sender: Seq<char>,
    pub content: Seq<char>,
    pub channel: Seq<char>,
    pub timestamp: u64,
}

impl View for ChannelMessage {
    type V = MessageView;

    open spec fn view(&self) -> MessageView {
        MessageView {
            id: self.id@,
            sender: self.sender@,
            content: self.content@,
            channel: self.channel@,
            timestamp: self.timestamp,
        }
    }
}

} // verus!
