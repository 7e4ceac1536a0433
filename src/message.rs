use vstd::prelude::*;
use crate::text::{message_link_of, message_link};

verus! {

/// A chat message, whatever its source.
pub trait MessageLike {
    spec fn spec_id(&self) -> u64;

    spec fn spec_channel_id(&self) -> u64;

    spec fn spec_guild_id(&self) -> Option<u64>;

    fn id(&self) -> (r: u64)
        ensures
            r == self.spec_id(),
    ;

    fn channel_id(&self) -> (r: u64)
        ensures
            r == self.spec_channel_id(),
    ;

    fn guild_id(&self) -> (r: Option<u64>)
        ensures
            r == self.spec_guild_id(),
    ;

    fn content(&self) -> &str;

    /// Gets the link to the message.
    fn message_link(&self) -> (r: String)
        ensures
            r@ == message_link_of(self.spec_guild_id(), self.spec_channel_id(), self.spec_id()),
    {
        message_link(self.guild_id(), self.channel_id(), self.id())
    }
}

/// A message as cached.
#[derive(Clone, Debug)]
pub struct CachedMessageProto {
    pub id: u64,
    pub channel_id: u64,
    pub guild_id: Option<u64>,
    pub content: String,
}

impl MessageLike for CachedMessageProto {
    open spec fn spec_id(&self) -> u64 {
        self.id
    }

    open spec fn spec_channel_id(&self) -> u64 {
        self.channel_id
    }

    open spec fn spec_guild_id(&self) -> Option<u64> {
        self.guild_id
    }

    fn id(&self) -> (r: u64) {
        self.id
    }

    fn channel_id(&self) -> (r: u64) {
        self.channel_id
    }

    fn guild_id(&self) -> (r: Option<u64>) {
        self.guild_id
    }

    fn content(&self) -> &str {
        self.content.as_str()
    }
}

} // verus!
