//! Two handlers that run at the same time.
//!
//! Handlers share no state, and the outcome of a call is reported to the
//! handler that asked for it. So however the reports to two handlers are
//! interleaved, each handler asks for what it would ask for alone.

use crate::handler::{answers, reply_to, resume_of, ActionView, CompletionView, HandlerView};
use crate::model::MessageView;
use crate::trace::{found_guild_text, ping_in_guild_text_is_answered_once, trace_from};
use vstd::prelude::*;

verus! {

/// One of two handlers.
pub enum Side {
    First,
    Second,
}

/// The outcome of a call, reported to the handler that asked for it.
pub struct Report {
    pub to: Side,
    pub completion: CompletionView,
}

/// An action, with the handler that asked for it.
pub struct Request {
    pub by: Side,
    pub action: ActionView,
}

/// What two handlers in the states `first` and `second` ask for while
/// `reports` are made one after the other, each to its handler: one request
/// for each report.
pub open spec fn pair_trace(first: HandlerView, second: HandlerView, reports: Seq<Report>) -> Seq<
    Request,
>
    decreases reports.len(),
{
    if reports.len() == 0 {
        Seq::empty()
    } else {
        let later = reports.drop_first();
        match reports[0].to {
            Side::First => {
                let (next, action) = resume_of(first, reports[0].completion);
                seq![Request { by: Side::First, action }] + pair_trace(next, second, later)
            },
            Side::Second => {
                let (next, action) = resume_of(second, reports[0].completion);
                seq![Request { by: Side::Second, action }] + pair_trace(first, next, later)
            },
        }
    }
}

/// The completions reported to the handler `side`, in order.
pub open spec fn reports_to(reports: Seq<Report>, side: Side) -> Seq<CompletionView>
    decreases reports.len(),
{
    if reports.len() == 0 {
        Seq::empty()
    } else if reports[0].to == side {
        seq![reports[0].completion] + reports_to(reports.drop_first(), side)
    } else {
        reports_to(reports.drop_first(), side)
    }
}

/// The actions the handler `side` asked for, in order.
pub open spec fn actions_of(requests: Seq<Request>, side: Side) -> Seq<ActionView>
    decreases requests.len(),
{
    if requests.len() == 0 {
        Seq::empty()
    } else if requests[0].by == side {
        seq![requests[0].action] + actions_of(requests.drop_first(), side)
    } else {
        actions_of(requests.drop_first(), side)
    }
}

/// The message that answers `message` in its own channel, named `channel`.
pub open spec fn reply_action(message: MessageView, channel: Seq<char>) -> ActionView {
    ActionView::SendMessage { channel_id: message.channel_id, content: reply_to(message, channel) }
}

/// There is one request for each report, made by the handler the report
/// went to.
pub proof fn pair_trace_sides(first: HandlerView, second: HandlerView, reports: Seq<Report>)
    ensures
        pair_trace(first, second, reports).len() == reports.len(),
        forall|k: int|
            0 <= k < reports.len() ==> (#[trigger] pair_trace(first, second, reports)[k]).by
                == reports[k].to,
    decreases reports.len(),
{
    if reports.len() > 0 {
        let later = reports.drop_first();
        match reports[0].to {
            Side::First => {
                pair_trace_sides(resume_of(first, reports[0].completion).0, second, later);
            },
            Side::Second => {
                pair_trace_sides(first, resume_of(second, reports[0].completion).0, later);
            },
        }
        let trace = pair_trace(first, second, reports);
        assert forall|k: int| 0 <= k < reports.len() implies (#[trigger] trace[k]).by
            == reports[k].to by {
            if k > 0 {
                assert(reports[k] == later[k - 1]);
            }
        }
    }
}

/// Each of two handlers that run at the same time asks for what it would ask
/// for alone, given the reports made to it, however these are interleaved
/// with the reports to the other.
pub proof fn handlers_do_not_interfere(
    first: HandlerView,
    second: HandlerView,
    reports: Seq<Report>,
)
    ensures
        actions_of(pair_trace(first, second, reports), Side::First) == trace_from(
            first,
            reports_to(reports, Side::First),
        ),
        actions_of(pair_trace(first, second, reports), Side::Second) == trace_from(
            second,
            reports_to(reports, Side::Second),
        ),
    decreases reports.len(),
{
    if reports.len() > 0 {
        let later = reports.drop_first();
        let trace = pair_trace(first, second, reports);
        match reports[0].to {
            Side::First => {
                let (next, action) = resume_of(first, reports[0].completion);
                handlers_do_not_interfere(next, second, later);
                assert(trace.drop_first() =~= pair_trace(next, second, later));
                assert(reports_to(reports, Side::First).drop_first() =~= reports_to(
                    later,
                    Side::First,
                ));
            },
            Side::Second => {
                let (next, action) = resume_of(second, reports[0].completion);
                handlers_do_not_interfere(first, next, later);
                assert(trace.drop_first() =~= pair_trace(first, next, later));
                assert(reports_to(reports, Side::Second).drop_first() =~= reports_to(
                    later,
                    Side::Second,
                ));
            },
        }
    }
}

/// Every request is among the actions of the handler that made it.
pub proof fn request_is_among_its_handlers(requests: Seq<Request>, k: int) -> (i: int)
    requires
        0 <= k < requests.len(),
    ensures
        0 <= i < actions_of(requests, requests[k].by).len(),
        actions_of(requests, requests[k].by)[i] == requests[k].action,
    decreases requests.len(),
{
    let side = requests[k].by;
    let later = requests.drop_first();
    if k == 0 {
        0
    } else {
        let i = request_is_among_its_handlers(later, k - 1);
        if requests[0].by == side {
            i + 1
        } else {
            i
        }
    }
}

/// Two pings, each written by someone who is no bot and each in a channel
/// that its lookup finds to be a text channel of a guild, are each answered
/// by exactly one message, in the channel and with the text that are its
/// own, in whatever order the calls of the two handlers complete. No message
/// goes anywhere else. The two handlers have been started, so that each
/// waits for its lookup; every report is answered by one request of the
/// handler it went to.
pub proof fn concurrent_pings_are_answered_apart(
    first: MessageView,
    second: MessageView,
    first_channel: Seq<char>,
    second_channel: Seq<char>,
    reports: Seq<Report>,
)
    requires
        answers(first),
        answers(second),
        reports_to(reports, Side::First).len() > 0,
        reports_to(reports, Side::First)[0] == found_guild_text(first_channel),
        reports_to(reports, Side::Second).len() > 0,
        reports_to(reports, Side::Second)[0] == found_guild_text(second_channel),
    ensures
        ({
            let requests = pair_trace(
                HandlerView::AwaitingChannel { message: first },
                HandlerView::AwaitingChannel { message: second },
                reports,
            );
            let by_first = actions_of(requests, Side::First);
            let by_second = actions_of(requests, Side::Second);
            &&& requests.len() == reports.len()
            &&& forall|k: int|
                0 <= k < requests.len() ==> (#[trigger] requests[k]).by == reports[k].to
            &&& by_first.len() > 0 && by_first[0] == reply_action(first, first_channel)
            &&& by_second.len() > 0 && by_second[0] == reply_action(second, second_channel)
            &&& forall|i: int|
                0 <= i < by_first.len() ==> (#[trigger] by_first[i] is SendMessage <==> i == 0)
            &&& forall|i: int|
                0 <= i < by_second.len() ==> (#[trigger] by_second[i] is SendMessage <==> i == 0)
            &&& forall|k: int|
                0 <= k < requests.len() && (#[trigger] requests[k]).action is SendMessage
                    ==> requests[k].action == match requests[k].by {
                    Side::First => reply_action(first, first_channel),
                    Side::Second => reply_action(second, second_channel),
                }
        }),
{
    let requests = pair_trace(
        HandlerView::AwaitingChannel { message: first },
        HandlerView::AwaitingChannel { message: second },
        reports,
    );
    let by_first = actions_of(requests, Side::First);
    let by_second = actions_of(requests, Side::Second);
    pair_trace_sides(
        HandlerView::AwaitingChannel { message: first },
        HandlerView::AwaitingChannel { message: second },
        reports,
    );
    handlers_do_not_interfere(
        HandlerView::AwaitingChannel { message: first },
        HandlerView::AwaitingChannel { message: second },
        reports,
    );
    answered_once_after_lookup(first, first_channel, reports_to(reports, Side::First));
    answered_once_after_lookup(second, second_channel, reports_to(reports, Side::Second));
    assert forall|k: int|
        0 <= k < requests.len() && (#[trigger] requests[k]).action is SendMessage implies requests[k].action
        == match requests[k].by {
        Side::First => reply_action(first, first_channel),
        Side::Second => reply_action(second, second_channel),
    } by {
        let i = request_is_among_its_handlers(requests, k);
        match requests[k].by {
            Side::First => {
                assert(by_first[i] is SendMessage);
            },
            Side::Second => {
                assert(by_second[i] is SendMessage);
            },
        }
    }
}

/// A handler that waits for the lookup of the channel of a ping and is told
/// of a text channel of a guild sends its reply, and sends nothing else.
proof fn answered_once_after_lookup(
    message: MessageView,
    channel: Seq<char>,
    completions: Seq<CompletionView>,
)
    requires
        answers(message),
        completions.len() > 0,
        completions[0] == found_guild_text(channel),
    ensures
        ({
            let actions = trace_from(HandlerView::AwaitingChannel { message }, completions);
            &&& actions.len() == completions.len()
            &&& actions[0] == reply_action(message, channel)
            &&& forall|i: int|
                0 <= i < actions.len() ==> (#[trigger] actions[i] is SendMessage <==> i == 0)
        }),
{
    let later = completions.drop_first();
    assert(completions =~= seq![found_guild_text(channel)] + later);
    ping_in_guild_text_is_answered_once(0, message, channel, later);
    let whole = crate::trace::trace_of(
        0,
        crate::model::EventView::MessageCreate(message),
        completions,
    );
    let actions = trace_from(HandlerView::AwaitingChannel { message }, completions);
    assert(whole.drop_first() =~= actions);
    assert forall|i: int| 0 <= i < actions.len() implies (#[trigger] actions[i] is SendMessage <==> i
        == 0) by {
        assert(actions[i] == whole[i + 1]);
    }
}

} // verus!
