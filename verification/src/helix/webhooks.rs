//! Webhook topics: subscriptions to the legacy notification feeds.

use vstd::prelude::*;

verus! {

/// Notifies when a broadcaster bans or un-bans people in their channel.
#[derive(Debug, PartialEq)]
pub struct ChannelBanChangeEventsTopic {
    /// Must be 1.
    first: u32,
    /// User ID of the broadcaster; must match the user ID in the bearer
    /// token.
    pub broadcaster_id: String,
}

/// The one page size the topic accepts.
fn one() -> (r: u32)
    ensures
        r == 1,
{
    1
}

impl ChannelBanChangeEventsTopic {
    /// The page size this topic was built with.
    pub closed spec fn spec_first(self) -> u32 {
        self.first
    }

    /// The broadcaster this topic was built for.
    pub closed spec fn spec_broadcaster_id(self) -> String {
        self.broadcaster_id
    }

    /// Builds the topic for a broadcaster; the page size is always 1.
    pub fn new(broadcaster_id: String) -> (r: ChannelBanChangeEventsTopic)
        ensures
            r.spec_broadcaster_id() == broadcaster_id,
            r.spec_first() == 1,
    {
        ChannelBanChangeEventsTopic { first: one(), broadcaster_id }
    }

    /// The page size, always 1 for a built topic.
    pub fn first(&self) -> (r: u32)
        ensures
            r == self.spec_first(),
    {
        self.first
    }
}

} // verus!
