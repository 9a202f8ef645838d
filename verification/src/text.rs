//! The texts the bot reads and writes: the command it answers, the reply to
//! it, and the line logged when a shard connects.

use vstd::prelude::*;

verus! {

/// The command the bot answers: `!ping`.
pub open spec fn ping_command() -> Seq<char> {
    seq!['!', 'p', 'i', 'n', 'g']
}

/// What stands between the author's tag and the quoted content: ` said "`.
pub open spec fn said_infix() -> Seq<char> {
    seq![' ', 's', 'a', 'i', 'd', ' ', '"']
}

/// What stands between the quoted content and the channel's name: `" in `.
pub open spec fn in_infix() -> Seq<char> {
    seq!['"', ' ', 'i', 'n', ' ']
}

/// The reply: `{name}#{discriminator} said "{content}" in {channel}`.
pub open spec fn reply_text(
    name: Seq<char>,
    discriminator: Seq<char>,
    content: Seq<char>,
    channel: Seq<char>,
) -> Seq<char> {
    name + seq!['#'] + discriminator + said_infix() + content + in_infix() + channel
}

/// The character of a decimal digit; `'0'` for anything that is none.
pub open spec fn digit_char(d: nat) -> char {
    if d == 1 {
        '1'
    } else if d == 2 {
        '2'
    } else if d == 3 {
        '3'
    } else if d == 4 {
        '4'
    } else if d == 5 {
        '5'
    } else if d == 6 {
        '6'
    } else if d == 7 {
        '7'
    } else if d == 8 {
        '8'
    } else if d == 9 {
        '9'
    } else {
        '0'
    }
}

/// The decimal numeral of `n`, without sign, padding or leading zeros.
pub open spec fn decimal(n: nat) -> Seq<char>
    decreases n,
{
    if n < 10 {
        seq![digit_char(n)]
    } else {
        decimal(n / 10).push(digit_char(n % 10))
    }
}

/// What precedes the shard's number in the log line: `Connected on shard `.
pub open spec fn connected_prefix() -> Seq<char> {
    seq![
        'C', 'o', 'n', 'n', 'e', 'c', 't', 'e', 'd', ' ', 'o', 'n', ' ', 's', 'h', 'a', 'r', 'd',
        ' ',
    ]
}

/// The log line for a shard that connected: `Connected on shard {shard_id}`.
pub open spec fn connected_text(shard_id: u64) -> Seq<char> {
    connected_prefix() + decimal(shard_id as nat)
}

/// Whether `content` is the ping command: the same characters, in the same
/// case, with nothing before or after.
pub fn is_ping(content: &str) -> (hit: bool)
    ensures
        hit == (content@ == ping_command()),
{
    proof {
        reveal_strlit("!ping");
    }
    let command = String::from_str("!ping");
    let given = String::from_str(content);
    assert(command@ =~= ping_command());
    given == command
}

/// Composes the reply to a ping.
pub fn compose_reply(name: &str, discriminator: &str, content: &str, channel: &str) -> (reply:
    String)
    ensures
        reply@ == reply_text(name@, discriminator@, content@, channel@),
{
    proof {
        reveal_strlit("#");
        reveal_strlit(" said \"");
        reveal_strlit("\" in ");
    }
    let mut reply = String::from_str(name);
    reply.append("#");
    reply.append(discriminator);
    reply.append(" said \"");
    reply.append(content);
    reply.append("\" in ");
    reply.append(channel);
    assert("#"@ =~= seq!['#']);
    assert(" said \""@ =~= said_infix());
    assert("\" in "@ =~= in_infix());
    reply
}

/// The one-character text of a decimal digit.
fn digit_text(d: u64) -> (text: &'static str)
    requires
        d < 10,
    ensures
        text@ == seq![digit_char(d as nat)],
{
    proof {
        reveal_strlit("0");
        reveal_strlit("1");
        reveal_strlit("2");
        reveal_strlit("3");
        reveal_strlit("4");
        reveal_strlit("5");
        reveal_strlit("6");
        reveal_strlit("7");
        reveal_strlit("8");
        reveal_strlit("9");
    }
    let text = if d == 0 {
        "0"
    } else if d == 1 {
        "1"
    } else if d == 2 {
        "2"
    } else if d == 3 {
        "3"
    } else if d == 4 {
        "4"
    } else if d == 5 {
        "5"
    } else if d == 6 {
        "6"
    } else if d == 7 {
        "7"
    } else if d == 8 {
        "8"
    } else {
        "9"
    };
    assert(text@ =~= seq![digit_char(d as nat)]);
    text
}

/// Appends the decimal numeral of `n` to `out`.
fn append_decimal(out: &mut String, n: u64)
    ensures
        final(out)@ == old(out)@ + decimal(n as nat),
    decreases n,
{
    if n >= 10 {
        append_decimal(out, n / 10);
    }
    out.append(digit_text(n % 10));
    assert(out@ =~= old(out)@ + decimal(n as nat));
}

/// Composes the line logged when the shard `shard_id` has connected.
pub fn connected_line(shard_id: u64) -> (line: String)
    ensures
        line@ == connected_text(shard_id),
{
    proof {
        reveal_strlit("Connected on shard ");
    }
    let mut line = String::from_str("Connected on shard ");
    assert(line@ =~= connected_prefix());
    append_decimal(&mut line, shard_id);
    line
}

} // verus!
