//! Whole runs of a handler: the actions it asks for, in order, when the
//! outcomes of its calls are given in advance.

use crate::handler::{
    answers, resume_of, start_of, Action, ActionView, Completion, CompletionView, Handler,
    HandlerView, LookupView,
};
use crate::model::{ChannelView, Event, EventView, MessageView};
use crate::text::{connected_text, ping_command, reply_text};
use vstd::prelude::*;

verus! {

/// The views of a sequence of completions.
pub open spec fn completion_views(completions: Seq<Completion>) -> Seq<CompletionView> {
    Seq::new(completions.len(), |i: int| completions[i]@)
}

/// The views of a sequence of actions.
pub open spec fn action_views(actions: Seq<Action>) -> Seq<ActionView> {
    Seq::new(actions.len(), |i: int| actions[i]@)
}

/// The actions a handler in `state` asks for while `completions` are reported
/// to it one after the other: one action for each completion.
pub open spec fn trace_from(state: HandlerView, completions: Seq<CompletionView>) -> Seq<
    ActionView,
>
    decreases completions.len(),
{
    if completions.len() == 0 {
        Seq::empty()
    } else {
        let (next, action) = resume_of(state, completions[0]);
        seq![action] + trace_from(next, completions.drop_first())
    }
}

/// The actions the handler of `event` asks for: the first one, then one for
/// each of `completions`.
pub open spec fn trace_of(shard_id: u64, event: EventView, completions: Seq<CompletionView>) -> Seq<
    ActionView,
> {
    let (state, action) = start_of(shard_id, event);
    seq![action] + trace_from(state, completions)
}

/// The completion that reports a channel found to be a text channel of a
/// guild named `name`.
pub open spec fn found_guild_text(name: Seq<char>) -> CompletionView {
    CompletionView::Lookup(LookupView::Found(ChannelView::GuildText { name }))
}

/// Whether the lookup found a text channel of a guild.
pub open spec fn is_guild_text(lookup: LookupView) -> bool {
    match lookup {
        LookupView::Found(ChannelView::GuildText { .. }) => true,
        _ => false,
    }
}

/// A handler that has ended asks for nothing, whatever is reported to it.
pub proof fn ended_handler_is_silent(state: HandlerView, completions: Seq<CompletionView>)
    requires
        state is Finished || state is Aborted,
    ensures
        trace_from(state, completions).len() == completions.len(),
        forall|i: int|
            0 <= i < completions.len() ==> trace_from(state, completions)[i]
                == ActionView::Nothing,
    decreases completions.len(),
{
    if completions.len() > 0 {
        ended_handler_is_silent(state, completions.drop_first());
    }
}

/// After the reply has been handed out, no further message is sent and no
/// channel is looked up, whatever is reported.
pub proof fn sending_handler_calls_no_more(completions: Seq<CompletionView>)
    ensures
        trace_from(HandlerView::AwaitingSend, completions).len() == completions.len(),
        forall|i: int|
            0 <= i < completions.len() ==> !(#[trigger] trace_from(
                HandlerView::AwaitingSend,
                completions,
            )[i]).is_http_call(),
    decreases completions.len(),
{
    if completions.len() > 0 {
        let rest = completions.drop_first();
        let next = resume_of(HandlerView::AwaitingSend, completions[0]).0;
        if next is AwaitingSend {
            sending_handler_calls_no_more(rest);
        } else {
            ended_handler_is_silent(next, rest);
        }
    }
}

/// A message whose content is not the ping command causes no HTTP call, and
/// nothing else either, whoever wrote it and whatever is reported to its
/// handler.
pub proof fn other_content_makes_no_call(
    shard_id: u64,
    message: MessageView,
    completions: Seq<CompletionView>,
)
    requires
        message.content != ping_command(),
    ensures
        ({
            let trace = trace_of(shard_id, EventView::MessageCreate(message), completions);
            &&& trace.len() == completions.len() + 1
            &&& forall|i: int| 0 <= i < trace.len() ==> !(#[trigger] trace[i]).is_http_call()
            &&& forall|i: int| 0 <= i < trace.len() ==> #[trigger] trace[i] == ActionView::Nothing
        }),
{
    ended_handler_is_silent(HandlerView::Finished, completions);
}

/// A ping written by a bot causes no HTTP call, and nothing else either,
/// whatever its other fields hold and whatever is reported to its handler.
pub proof fn ping_of_bot_makes_no_call(
    shard_id: u64,
    message: MessageView,
    completions: Seq<CompletionView>,
)
    requires
        message.content == ping_command(),
        message.author.bot,
    ensures
        ({
            let trace = trace_of(shard_id, EventView::MessageCreate(message), completions);
            &&& trace.len() == completions.len() + 1
            &&& forall|i: int| 0 <= i < trace.len() ==> !(#[trigger] trace[i]).is_http_call()
            &&& forall|i: int| 0 <= i < trace.len() ==> #[trigger] trace[i] == ActionView::Nothing
        }),
{
    ended_handler_is_silent(HandlerView::Finished, completions);
}

/// A ping written by someone who is no bot, in a channel that the lookup
/// finds to be a text channel of a guild named `channel`, is answered by
/// exactly one message: it goes to the channel of the ping and reads
/// `{name}#{discriminator} said "!ping" in {channel}`. The lookup is the only
/// other call. This holds whatever is reported after the lookup.
pub proof fn ping_in_guild_text_is_answered_once(
    shard_id: u64,
    message: MessageView,
    channel: Seq<char>,
    later: Seq<CompletionView>,
)
    requires
        answers(message),
    ensures
        ({
            let trace = trace_of(
                shard_id,
                EventView::MessageCreate(message),
                seq![found_guild_text(channel)] + later,
            );
            &&& trace.len() == later.len() + 2
            &&& trace[0] == ActionView::FetchChannel { channel_id: message.channel_id }
            &&& trace[1] == ActionView::SendMessage {
                channel_id: message.channel_id,
                content: reply_text(
                    message.author.name,
                    message.author.discriminator,
                    ping_command(),
                    channel,
                ),
            }
            &&& forall|i: int|
                0 <= i < trace.len() ==> (#[trigger] trace[i] is SendMessage <==> i == 1)
            &&& forall|i: int|
                0 <= i < trace.len() ==> (#[trigger] trace[i] is FetchChannel <==> i == 0)
        }),
{
    let waiting = HandlerView::AwaitingChannel { message };
    let completions = seq![found_guild_text(channel)] + later;
    assert(completions.drop_first() =~= later);
    sending_handler_calls_no_more(later);
    let trace = trace_of(shard_id, EventView::MessageCreate(message), completions);
    assert forall|i: int| 0 <= i < trace.len() implies (#[trigger] trace[i] is SendMessage <==> i
        == 1) && (trace[i] is FetchChannel <==> i == 0) by {
        if i >= 2 {
            assert(trace[i] == trace_from(HandlerView::AwaitingSend, later)[i - 2]);
        }
    }
}

/// A ping whose channel lookup finds anything but a text channel of a guild
/// (another kind of channel, no channel at all, or no answer) is not
/// answered: no message is sent, whatever is reported afterwards. Unless the
/// lookup itself failed, the handler ends without an error.
pub proof fn ping_elsewhere_is_not_answered(
    shard_id: u64,
    message: MessageView,
    lookup: LookupView,
    later: Seq<CompletionView>,
)
    requires
        answers(message),
        !is_guild_text(lookup),
    ensures
        ({
            let trace = trace_of(
                shard_id,
                EventView::MessageCreate(message),
                seq![CompletionView::Lookup(lookup)] + later,
            );
            &&& trace.len() == later.len() + 2
            &&& trace[0] == ActionView::FetchChannel { channel_id: message.channel_id }
            &&& forall|i: int| 0 <= i < trace.len() ==> !(#[trigger] trace[i] is SendMessage)
            &&& forall|i: int|
                0 <= i < trace.len() ==> (#[trigger] trace[i] is FetchChannel <==> i == 0)
            &&& !(lookup is Failed) ==> forall|i: int|
                0 < i < trace.len() ==> #[trigger] trace[i] == ActionView::Nothing
        }),
{
    let waiting = HandlerView::AwaitingChannel { message };
    let completions = seq![CompletionView::Lookup(lookup)] + later;
    assert(completions.drop_first() =~= later);
    let next = resume_of(waiting, completions[0]).0;
    ended_handler_is_silent(next, later);
    let trace = trace_of(shard_id, EventView::MessageCreate(message), completions);
    assert forall|i: int| 2 <= i < trace.len() implies #[trigger] trace[i]
        == ActionView::Nothing by {
        assert(trace[i] == trace_from(next, later)[i - 2]);
    }
}

/// A shard that connected causes exactly one log line, which reads
/// `Connected on shard {shard_id}`, and no HTTP call.
pub proof fn shard_connected_logs_once(shard_id: u64, completions: Seq<CompletionView>)
    ensures
        ({
            let trace = trace_of(shard_id, EventView::ShardConnected, completions);
            &&& trace.len() == completions.len() + 1
            &&& trace[0] == ActionView::Log { line: connected_text(shard_id) }
            &&& forall|i: int| 0 <= i < trace.len() ==> (#[trigger] trace[i] is Log <==> i == 0)
            &&& forall|i: int| 0 <= i < trace.len() ==> !(#[trigger] trace[i]).is_http_call()
        }),
{
    ended_handler_is_silent(HandlerView::Finished, completions);
}

/// An event that is neither a new message nor a shard that connected causes
/// nothing at all.
pub proof fn other_event_is_ignored(shard_id: u64, completions: Seq<CompletionView>)
    ensures
        ({
            let trace = trace_of(shard_id, EventView::Other, completions);
            &&& trace.len() == completions.len() + 1
            &&& forall|i: int| 0 <= i < trace.len() ==> #[trigger] trace[i] == ActionView::Nothing
        }),
{
    ended_handler_is_silent(HandlerView::Finished, completions);
}

/// Runs the handler of `event` against outcomes given in advance, and
/// returns the actions it asked for: the first one, then one for each of
/// `completions`.
pub fn replay(shard_id: u64, event: Event, completions: &Vec<Completion>) -> (trace: Vec<Action>)
    ensures
        action_views(trace@) == trace_of(shard_id, event@, completion_views(completions@)),
{
    let ghost all = completion_views(completions@);
    let ghost whole = trace_of(shard_id, event@, all);
    let (first_state, first_action) = Handler::start(shard_id, event);
    let mut state = first_state;
    let mut trace: Vec<Action> = Vec::new();
    trace.push(first_action);
    assert(action_views(trace@) =~= seq![start_of(shard_id, event@).1]);
    assert(all.skip(0) =~= all);
    let mut i: usize = 0;
    while i < completions.len()
        invariant
            0 <= i <= completions.len(),
            all == completion_views(completions@),
            whole == action_views(trace@) + trace_from(state@, all.skip(i as int)),
        decreases completions.len() - i,
    {
        let ghost before = action_views(trace@);
        let ghost pending = all.skip(i as int);
        let (next, action) = state.resume(&completions[i]);
        assert(pending[0] == completions[i as int]@);
        assert(pending.drop_first() =~= all.skip(i + 1));
        state = next;
        trace.push(action);
        assert(action_views(trace@) =~= before + seq![action@]);
        assert(whole =~= action_views(trace@) + trace_from(state@, all.skip(i + 1)));
        i += 1;
    }
    assert(action_views(trace@) =~= whole);
    trace
}

} // verus!
