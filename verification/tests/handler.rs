use pingbot::handler::{Action, Completion, Delivery, Failure, Handler, Lookup};
use pingbot::model::{Author, Channel, Event, Message};
use pingbot::trace::replay;

fn message(name: &str, discriminator: &str, bot: bool, content: &str, channel_id: u64) -> Message {
    Message {
        author: Author {
            name: name.to_string(),
            discriminator: discriminator.to_string(),
            bot,
        },
        content: content.to_string(),
        channel_id,
    }
}

fn ping(channel_id: u64) -> Event {
    Event::MessageCreate(message("Name", "1234", false, "!ping", channel_id))
}

fn found_text(name: &str) -> Completion {
    Completion::Lookup(Lookup::Found(Channel::GuildText {
        name: name.to_string(),
    }))
}

fn every_completion() -> Vec<Completion> {
    vec![
        found_text("C"),
        Completion::Lookup(Lookup::Found(Channel::GuildOther)),
        Completion::Lookup(Lookup::Found(Channel::Private)),
        Completion::Lookup(Lookup::Found(Channel::Group)),
        Completion::Lookup(Lookup::Absent),
        Completion::Lookup(Lookup::Failed),
        Completion::Send(Delivery::Delivered),
        Completion::Send(Delivery::Failed),
    ]
}

fn is_http_call(action: &Action) -> bool {
    matches!(
        action,
        Action::FetchChannel { .. } | Action::SendMessage { .. }
    )
}

#[test]
fn other_content_starts_nothing() {
    for content in ["", "hello", "!Ping", " !ping", "!ping ", "!pong", "!ping!ping"] {
        let (state, action) =
            Handler::start(0, Event::MessageCreate(message("Name", "1234", false, content, 5)));
        assert_eq!(state, Handler::Finished);
        assert_eq!(action, Action::Nothing);
    }
}

#[test]
fn other_content_makes_no_http_call_whatever_is_reported() {
    let event = Event::MessageCreate(message("Name", "1234", false, "hello", 5));
    let trace = replay(3, event, &every_completion());
    assert_eq!(trace.len(), 9);
    assert!(trace.iter().all(|action| !is_http_call(action)));
}

#[test]
fn ping_of_a_bot_starts_nothing() {
    let (state, action) =
        Handler::start(0, Event::MessageCreate(message("Robot", "0000", true, "!ping", 5)));
    assert_eq!(state, Handler::Finished);
    assert_eq!(action, Action::Nothing);
}

#[test]
fn ping_of_a_bot_makes_no_http_call_whatever_is_reported() {
    let event = Event::MessageCreate(message("Robot", "0000", true, "!ping", 5));
    let trace = replay(3, event, &every_completion());
    assert_eq!(trace.len(), 9);
    assert!(trace.iter().all(|action| !is_http_call(action)));
}

#[test]
fn ping_starts_with_the_lookup_of_its_channel() {
    let (state, action) = Handler::start(0, ping(77));
    assert_eq!(
        state,
        Handler::AwaitingChannel {
            message: message("Name", "1234", false, "!ping", 77)
        }
    );
    assert_eq!(action, Action::FetchChannel { channel_id: 77 });
    assert!(!state.is_over());
}

#[test]
fn ping_in_a_guild_text_channel_is_answered() {
    let (state, _) = Handler::start(0, ping(77));
    let (state, action) = state.resume(&found_text("C"));
    assert_eq!(state, Handler::AwaitingSend);
    assert_eq!(
        action,
        Action::SendMessage {
            channel_id: 77,
            content: "Name#1234 said \"!ping\" in C".to_string(),
        }
    );
    assert!(!state.is_over());
    let (state, action) = state.resume(&Completion::Send(Delivery::Delivered));
    assert_eq!(state, Handler::Finished);
    assert_eq!(action, Action::Nothing);
    assert!(state.is_over());
}

#[test]
fn ping_in_a_guild_text_channel_is_answered_exactly_once() {
    let mut completions = vec![found_text("C")];
    completions.extend(every_completion());
    let trace = replay(0, ping(77), &completions);
    assert_eq!(trace.len(), 10);
    assert_eq!(trace[0], Action::FetchChannel { channel_id: 77 });
    assert_eq!(
        trace[1],
        Action::SendMessage {
            channel_id: 77,
            content: "Name#1234 said \"!ping\" in C".to_string(),
        }
    );
    let sends = trace
        .iter()
        .filter(|action| matches!(action, Action::SendMessage { .. }))
        .count();
    let lookups = trace
        .iter()
        .filter(|action| matches!(action, Action::FetchChannel { .. }))
        .count();
    assert_eq!(sends, 1);
    assert_eq!(lookups, 1);
}

#[test]
fn reply_quotes_author_and_channel_of_the_ping() {
    let event = Event::MessageCreate(message("Ferris", "0042", false, "!ping", 9));
    let trace = replay(
        0,
        event,
        &vec![found_text("rust-lang"), Completion::Send(Delivery::Delivered)],
    );
    assert_eq!(
        trace,
        vec![
            Action::FetchChannel { channel_id: 9 },
            Action::SendMessage {
                channel_id: 9,
                content: "Ferris#0042 said \"!ping\" in rust-lang".to_string(),
            },
            Action::Nothing,
        ]
    );
}

#[test]
fn ping_outside_a_guild_text_channel_is_not_answered() {
    for channel in [Channel::GuildOther, Channel::Private, Channel::Group] {
        let (state, _) = Handler::start(0, ping(77));
        let (state, action) = state.resume(&Completion::Lookup(Lookup::Found(channel)));
        assert_eq!(state, Handler::Finished);
        assert_eq!(action, Action::Nothing);
    }
}

#[test]
fn ping_in_an_unknown_channel_is_not_answered() {
    let (state, _) = Handler::start(0, ping(77));
    let (state, action) = state.resume(&Completion::Lookup(Lookup::Absent));
    assert_eq!(state, Handler::Finished);
    assert_eq!(action, Action::Nothing);
}

#[test]
fn no_message_is_sent_after_a_lookup_that_finds_no_guild_text_channel() {
    let firsts = [
        Completion::Lookup(Lookup::Found(Channel::GuildOther)),
        Completion::Lookup(Lookup::Found(Channel::Private)),
        Completion::Lookup(Lookup::Found(Channel::Group)),
        Completion::Lookup(Lookup::Absent),
        Completion::Lookup(Lookup::Failed),
    ];
    for first in firsts {
        let mut completions = vec![first];
        completions.extend(every_completion());
        let trace = replay(0, ping(77), &completions);
        assert_eq!(trace.len(), 10);
        assert_eq!(trace[0], Action::FetchChannel { channel_id: 77 });
        assert!(trace
            .iter()
            .all(|action| !matches!(action, Action::SendMessage { .. })));
    }
}

#[test]
fn failed_lookup_aborts_the_handler() {
    let (state, _) = Handler::start(0, ping(77));
    let (state, action) = state.resume(&Completion::Lookup(Lookup::Failed));
    assert_eq!(state, Handler::Aborted);
    assert_eq!(
        action,
        Action::Abort {
            failure: Failure::Lookup
        }
    );
    assert!(state.is_over());
}

#[test]
fn failed_send_aborts_the_handler() {
    let (state, _) = Handler::start(0, ping(77));
    let (state, _) = state.resume(&found_text("C"));
    let (state, action) = state.resume(&Completion::Send(Delivery::Failed));
    assert_eq!(state, Handler::Aborted);
    assert_eq!(
        action,
        Action::Abort {
            failure: Failure::Send
        }
    );
    assert!(state.is_over());
}

#[test]
fn shard_connected_is_logged() {
    let (state, action) = Handler::start(12, Event::ShardConnected);
    assert_eq!(state, Handler::Finished);
    assert_eq!(
        action,
        Action::Log {
            line: "Connected on shard 12".to_string()
        }
    );
}

#[test]
fn shard_connected_logs_once_and_makes_no_http_call() {
    let trace = replay(12, Event::ShardConnected, &every_completion());
    assert_eq!(trace.len(), 9);
    assert_eq!(
        trace[0],
        Action::Log {
            line: "Connected on shard 12".to_string()
        }
    );
    let lines = trace
        .iter()
        .filter(|action| matches!(action, Action::Log { .. }))
        .count();
    assert_eq!(lines, 1);
    assert!(trace.iter().all(|action| !is_http_call(action)));
}

#[test]
fn other_events_are_ignored() {
    let (state, action) = Handler::start(12, Event::Other);
    assert_eq!(state, Handler::Finished);
    assert_eq!(action, Action::Nothing);
    let trace = replay(12, Event::Other, &every_completion());
    assert!(trace.iter().all(|action| *action == Action::Nothing));
}

#[test]
fn shard_number_does_not_reach_a_reply() {
    let one = replay(1, ping(77), &vec![found_text("C")]);
    let other = replay(u64::MAX, ping(77), &vec![found_text("C")]);
    assert_eq!(one, other);
}

#[test]
fn completion_that_is_not_awaited_changes_nothing() {
    let (state, _) = Handler::start(0, ping(77));
    let waiting = state.clone();
    let (state, action) = state.resume(&Completion::Send(Delivery::Delivered));
    assert_eq!(state, waiting);
    assert_eq!(action, Action::Nothing);
    let (state, _) = state.resume(&found_text("C"));
    let (state, action) = state.resume(&found_text("D"));
    assert_eq!(state, Handler::AwaitingSend);
    assert_eq!(action, Action::Nothing);
}

#[test]
fn ended_handler_stays_ended() {
    for completion in every_completion() {
        let (state, action) = Handler::Finished.resume(&completion);
        assert_eq!(state, Handler::Finished);
        assert_eq!(action, Action::Nothing);
        let (state, action) = Handler::Aborted.resume(&completion);
        assert_eq!(state, Handler::Aborted);
        assert_eq!(action, Action::Nothing);
    }
}

#[test]
fn replay_without_completions_gives_the_first_action() {
    assert_eq!(
        replay(0, ping(3), &Vec::new()),
        vec![Action::FetchChannel { channel_id: 3 }]
    );
}

fn run_two(order: &[usize]) -> (Vec<Action>, Vec<Action>) {
    let events = [
        Event::MessageCreate(message("Ann", "0001", false, "!ping", 100)),
        Event::MessageCreate(message("Bob", "0002", false, "!ping", 200)),
    ];
    let scripts = [
        vec![found_text("A"), Completion::Send(Delivery::Delivered)],
        vec![found_text("B"), Completion::Send(Delivery::Delivered)],
    ];
    let mut states = Vec::new();
    let mut asked = vec![Vec::new(), Vec::new()];
    for event in events {
        let (state, action) = Handler::start(0, event);
        assert!(matches!(action, Action::FetchChannel { .. }));
        states.push(Some(state));
    }
    let mut next = [0usize, 0usize];
    for &who in order {
        let state = states[who].take().unwrap();
        let (state, action) = state.resume(&scripts[who][next[who]]);
        next[who] += 1;
        asked[who].push(action);
        states[who] = Some(state);
    }
    assert_eq!(states[0], Some(Handler::Finished));
    assert_eq!(states[1], Some(Handler::Finished));
    let second = asked.pop().unwrap();
    let first = asked.pop().unwrap();
    (first, second)
}

#[test]
fn concurrent_pings_are_each_answered_in_their_own_channel() {
    let orders: [[usize; 4]; 6] = [
        [0, 0, 1, 1],
        [0, 1, 0, 1],
        [0, 1, 1, 0],
        [1, 0, 0, 1],
        [1, 0, 1, 0],
        [1, 1, 0, 0],
    ];
    for order in orders {
        let (first, second) = run_two(&order);
        assert_eq!(
            first,
            vec![
                Action::SendMessage {
                    channel_id: 100,
                    content: "Ann#0001 said \"!ping\" in A".to_string(),
                },
                Action::Nothing,
            ]
        );
        assert_eq!(
            second,
            vec![
                Action::SendMessage {
                    channel_id: 200,
                    content: "Bob#0002 said \"!ping\" in B".to_string(),
                },
                Action::Nothing,
            ]
        );
    }
}
