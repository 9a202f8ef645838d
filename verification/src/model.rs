//! The data the bot reads from the gateway and from channel lookups.
//!
//! Each type keeps only the attributes the bot consults. Every type has a view
//! in which strings are sequences of characters; contracts are stated over
//! those views.

use vstd::prelude::*;

verus! {

/// The author of a message.
#[derive(Debug, Clone, PartialEq, Eq)]
pub struct Author {
    pub name: String,
    pub discriminator: String,
    pub bot: bool,
}

/// What an [`Author`] holds, with its texts as sequences of characters.
pub struct AuthorView {
    pub name: Seq<char>,
    pub discriminator: Seq<char>,
    pub bot: bool,
}

impl View for Author {
    type V = AuthorView;

    open spec fn view(&self) -> AuthorView {
        AuthorView { name: self.name@, discriminator: self.discriminator@, bot: self.bot }
    }
}

/// A message posted in a channel.
#[derive(Debug, Clone, PartialEq, Eq)]
pub struct Message {
    pub author: Author,
    pub content: String,
    pub channel_id: u64,
}

/// What a [`Message`] holds, with its texts as sequences of characters.
pub struct MessageView {
    pub author: AuthorView,
    pub content: Seq<char>,
    pub channel_id: u64,
}

impl View for Message {
    type V = MessageView;

    open spec fn view(&self) -> MessageView {
        MessageView {
            author: self.author@,
            content: self.content@,
            channel_id: self.channel_id,
        }
    }
}

/// A channel as a lookup describes it. Only a text channel of a guild carries
/// the name the bot quotes.
#[derive(Debug, Clone, PartialEq, Eq)]
pub enum Channel {
    GuildText { name: String },
    GuildOther,
    Private,
    Group,
}

/// What a [`Channel`] holds, with its texts as sequences of characters.
pub enum ChannelView {
    GuildText { name: Seq<char> },
    GuildOther,
    Private,
    Group,
}

impl View for Channel {
    type V = ChannelView;

    open spec fn view(&self) -> ChannelView {
        match self {
            Channel::GuildText { name } => ChannelView::GuildText { name: name@ },
            Channel::GuildOther => ChannelView::GuildOther,
            Channel::Private => ChannelView::Private,
            Channel::Group => ChannelView::Group,
        }
    }
}

/// What the gateway delivered. Every kind of event the bot does not act on is
/// `Other`.
#[derive(Debug, Clone, PartialEq, Eq)]
pub enum Event {
    MessageCreate(Message),
    ShardConnected,
    Other,
}

/// What an [`Event`] holds, with its texts as sequences of characters.
pub enum EventView {
    MessageCreate(MessageView),
    ShardConnected,
    Other,
}

impl View for Event {
    type V = EventView;

    open spec fn view(&self) -> EventView {
        match self {
            Event::MessageCreate(message) => EventView::MessageCreate(message@),
            Event::ShardConnected => EventView::ShardConnected,
            Event::Other => EventView::Other,
        }
    }
}

} // verus!
