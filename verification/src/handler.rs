//! The handler of one event, as a machine that never performs a call itself.
//!
//! [`Handler::start`] takes the event and answers with the first [`Action`].
//! The caller performs it. Where the action is a call whose outcome matters
//! (a channel lookup, a message to send), the caller reports the outcome to
//! [`Handler::resume`], which answers with the next action. Every other action
//! ends the handler.

use crate::model::{Channel, ChannelView, Event, EventView, Message, MessageView};
use crate::text::{compose_reply, connected_line, connected_text, is_ping, ping_command, reply_text};
use vstd::prelude::*;

verus! {

/// How a channel lookup ended.
#[derive(Debug, Clone, PartialEq, Eq)]
pub enum Lookup {
    /// The service described the channel.
    Found(Channel),
    /// The service answered, and knows no such channel.
    Absent,
    /// The call itself failed.
    Failed,
}

/// What a [`Lookup`] holds, with its texts as sequences of characters.
pub enum LookupView {
    Found(ChannelView),
    Absent,
    Failed,
}

impl View for Lookup {
    type V = LookupView;

    open spec fn view(&self) -> LookupView {
        match self {
            Lookup::Found(channel) => LookupView::Found(channel@),
            Lookup::Absent => LookupView::Absent,
            Lookup::Failed => LookupView::Failed,
        }
    }
}

/// How sending a message ended.
#[derive(Debug, Clone, Copy, PartialEq, Eq)]
pub enum Delivery {
    Delivered,
    Failed,
}

/// The outcome of a call that the handler asked for.
#[derive(Debug, Clone, PartialEq, Eq)]
pub enum Completion {
    Lookup(Lookup),
    Send(Delivery),
}

/// What a [`Completion`] holds, with its texts as sequences of characters.
pub enum CompletionView {
    Lookup(LookupView),
    Send(Delivery),
}

impl View for Completion {
    type V = CompletionView;

    open spec fn view(&self) -> CompletionView {
        match self {
            Completion::Lookup(lookup) => CompletionView::Lookup(lookup@),
            Completion::Send(delivery) => CompletionView::Send(*delivery),
        }
    }
}

/// The call whose failure ended a handler.
#[derive(Debug, Clone, Copy, PartialEq, Eq)]
pub enum Failure {
    Lookup,
    Send,
}

/// What the caller is to do next.
#[derive(Debug, Clone, PartialEq, Eq)]
pub enum Action {
    /// Look the channel up and report the outcome.
    FetchChannel { channel_id: u64 },
    /// Send `content` as a new message into the channel and report the outcome.
    SendMessage { channel_id: u64, content: String },
    /// Log `line` at the informational level. The handler is over.
    Log { line: String },
    /// A call failed, which is fatal to this handler and to nothing else.
    Abort { failure: Failure },
    /// There is nothing to do.
    Nothing,
}

/// What an [`Action`] holds, with its texts as sequences of characters.
pub enum ActionView {
    FetchChannel { channel_id: u64 },
    SendMessage { channel_id: u64, content: Seq<char> },
    Log { line: Seq<char> },
    Abort { failure: Failure },
    Nothing,
}

impl View for Action {
    type V = ActionView;

    open spec fn view(&self) -> ActionView {
        match self {
            Action::FetchChannel { channel_id } => ActionView::FetchChannel {
                channel_id: *channel_id,
            },
            Action::SendMessage { channel_id, content } => ActionView::SendMessage {
                channel_id: *channel_id,
                content: content@,
            },
            Action::Log { line } => ActionView::Log { line: line@ },
            Action::Abort { failure } => ActionView::Abort { failure: *failure },
            Action::Nothing => ActionView::Nothing,
        }
    }
}

impl ActionView {
    /// Whether the action is a call to the HTTP service.
    pub open spec fn is_http_call(self) -> bool {
        self is FetchChannel || self is SendMessage
    }
}

/// Where the handling of one event stands.
#[derive(Debug, Clone, PartialEq, Eq)]
pub enum Handler {
    /// The lookup of the message's channel is under way.
    AwaitingChannel { message: Message },
    /// The reply is being sent.
    AwaitingSend,
    /// The handler ended by itself.
    Finished,
    /// The handler ended on a failed call.
    Aborted,
}

/// What a [`Handler`] holds, with its texts as sequences of characters.
pub enum HandlerView {
    AwaitingChannel { message: MessageView },
    AwaitingSend,
    Finished,
    Aborted,
}

impl View for Handler {
    type V = HandlerView;

    open spec fn view(&self) -> HandlerView {
        match self {
            Handler::AwaitingChannel { message } => HandlerView::AwaitingChannel {
                message: message@,
            },
            Handler::AwaitingSend => HandlerView::AwaitingSend,
            Handler::Finished => HandlerView::Finished,
            Handler::Aborted => HandlerView::Aborted,
        }
    }
}

/// Whether the bot answers `message`: its content is the ping command and its
/// author is no bot.
pub open spec fn answers(message: MessageView) -> bool {
    message.content == ping_command() && !message.author.bot
}

/// The reply to `message`, posted in a channel named `channel`.
pub open spec fn reply_to(message: MessageView, channel: Seq<char>) -> Seq<char> {
    reply_text(message.author.name, message.author.discriminator, message.content, channel)
}

/// The state and the first action of the handler of `event`, received on the
/// shard `shard_id`.
pub open spec fn start_of(shard_id: u64, event: EventView) -> (HandlerView, ActionView) {
    match event {
        EventView::MessageCreate(message) => if answers(message) {
            (
                HandlerView::AwaitingChannel { message },
                ActionView::FetchChannel { channel_id: message.channel_id },
            )
        } else {
            (HandlerView::Finished, ActionView::Nothing)
        },
        EventView::ShardConnected => (
            HandlerView::Finished,
            ActionView::Log { line: connected_text(shard_id) },
        ),
        EventView::Other => (HandlerView::Finished, ActionView::Nothing),
    }
}

/// The state and the next action of a handler in `state` to which
/// `completion` is reported. A completion that the handler does not wait for
/// changes nothing and asks for nothing.
pub open spec fn resume_of(state: HandlerView, completion: CompletionView) -> (
    HandlerView,
    ActionView,
) {
    match (state, completion) {
        (HandlerView::AwaitingChannel { message }, CompletionView::Lookup(lookup)) => match lookup {
            LookupView::Found(ChannelView::GuildText { name }) => (
                HandlerView::AwaitingSend,
                ActionView::SendMessage {
                    channel_id: message.channel_id,
                    content: reply_to(message, name),
                },
            ),
            LookupView::Failed => (
                HandlerView::Aborted,
                ActionView::Abort { failure: Failure::Lookup },
            ),
            _ => (HandlerView::Finished, ActionView::Nothing),
        },
        (HandlerView::AwaitingSend, CompletionView::Send(delivery)) => match delivery {
            Delivery::Delivered => (HandlerView::Finished, ActionView::Nothing),
            Delivery::Failed => (
                HandlerView::Aborted,
                ActionView::Abort { failure: Failure::Send },
            ),
        },
        _ => (state, ActionView::Nothing),
    }
}

impl Handler {
    /// Starts the handler of `event`, received on the shard `shard_id`.
    pub fn start(shard_id: u64, event: Event) -> (step: (Handler, Action))
        ensures
            (step.0@, step.1@) == start_of(shard_id, event@),
    {
        match event {
            Event::MessageCreate(message) => {
                if is_ping(message.content.as_str()) && !message.author.bot {
                    let channel_id = message.channel_id;
                    (Handler::AwaitingChannel { message }, Action::FetchChannel { channel_id })
                } else {
                    (Handler::Finished, Action::Nothing)
                }
            },
            Event::ShardConnected => (
                Handler::Finished,
                Action::Log { line: connected_line(shard_id) },
            ),
            Event::Other => (Handler::Finished, Action::Nothing),
        }
    }

    /// Reports `completion` to the handler.
    pub fn resume(self, completion: &Completion) -> (step: (Handler, Action))
        ensures
            (step.0@, step.1@) == resume_of(self@, completion@),
    {
        match self {
            Handler::AwaitingChannel { message } => match completion {
                Completion::Lookup(Lookup::Found(Channel::GuildText { name })) => {
                    let content = compose_reply(
                        message.author.name.as_str(),
                        message.author.discriminator.as_str(),
                        message.content.as_str(),
                        name.as_str(),
                    );
                    (
                        Handler::AwaitingSend,
                        Action::SendMessage { channel_id: message.channel_id, content },
                    )
                },
                Completion::Lookup(Lookup::Failed) => (
                    Handler::Aborted,
                    Action::Abort { failure: Failure::Lookup },
                ),
                Completion::Lookup(_) => (Handler::Finished, Action::Nothing),
                Completion::Send(_) => (Handler::AwaitingChannel { message }, Action::Nothing),
            },
            Handler::AwaitingSend => match completion {
                Completion::Send(Delivery::Delivered) => (Handler::Finished, Action::Nothing),
                Completion::Send(Delivery::Failed) => (
                    Handler::Aborted,
                    Action::Abort { failure: Failure::Send },
                ),
                Completion::Lookup(_) => (Handler::AwaitingSend, Action::Nothing),
            },
            Handler::Finished => (Handler::Finished, Action::Nothing),
            Handler::Aborted => (Handler::Aborted, Action::Nothing),
        }
    }

    /// Whether the handler has ended.
    pub fn is_over(&self) -> (over: bool)
        ensures
            over == (self@ is Finished || self@ is Aborted),
    {
        match self {
            Handler::Finished => true,
            Handler::Aborted => true,
            _ => false,
        }
    }
}

} // verus!
