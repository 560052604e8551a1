use vstd::prelude::*;

use crate::command::{Command, CommandError};
use crate::session::{step, Action, PlaybackStatus, SessionView, Table};
use crate::track::{line_text, lines_text, queue_text, Track};

verus! {

/// A command on one guild leaves every other guild's session as it was.
pub proof fn lemma_other_guilds_untouched(
    m: Table,
    cmd: Command,
    guild: u64,
    caller: Option<u64>,
    voice: bool,
    resolved: Option<Track>,
    other: u64,
)
    requires
        other != guild,
    ensures
        step(m, cmd, guild, caller, voice, resolved).0.contains_key(other) == m.contains_key(other),
        m.contains_key(other) ==> step(m, cmd, guild, caller, voice, resolved).0[other] == m[other],
{
}

/// Commands on two different guilds commute: running them in either order
/// gives the same table, the same replies and the same actions.
pub proof fn lemma_distinct_guilds_commute(
    m: Table,
    c1: Command,
    g1: u64,
    caller1: Option<u64>,
    voice1: bool,
    resolved1: Option<Track>,
    c2: Command,
    g2: u64,
    caller2: Option<u64>,
    voice2: bool,
    resolved2: Option<Track>,
)
    requires
        g1 != g2,
    ensures
        ({
            let a1 = step(m, c1, g1, caller1, voice1, resolved1);
            let a2 = step(a1.0, c2, g2, caller2, voice2, resolved2);
            let b2 = step(m, c2, g2, caller2, voice2, resolved2);
            let b1 = step(b2.0, c1, g1, caller1, voice1, resolved1);
            &&& a2.0 == b1.0
            &&& a1.1 == b1.1 && a1.2 == b1.2
            &&& a2.1 == b2.1 && a2.2 == b2.2
        }),
{
    let a1 = step(m, c1, g1, caller1, voice1, resolved1);
    let a2 = step(a1.0, c2, g2, caller2, voice2, resolved2);
    let b2 = step(m, c2, g2, caller2, voice2, resolved2);
    let b1 = step(b2.0, c1, g1, caller1, voice1, resolved1);
    assert(a2.0 =~= b1.0);
}

/// `play` on a guild without a session, then a queue listing, shows exactly
/// the one track, with the default title and locator where it has none.
pub proof fn lemma_play_then_list(m: Table, guild: u64, query: String, channel: u64, t: Track, caller: Option<u64>)
    requires
        !m.contains_key(guild),
    ensures
        ({
            let played = step(m, Command::Play { query }, guild, Some(channel), true, Some(t));
            let listed = step(played.0, Command::ListQueue, guild, caller, true, None);
            &&& played.2 == Action::JoinAndEnqueue(channel)
            &&& listed.1 == Ok::<Seq<char>, CommandError>("Current queue:\n"@ + line_text(t))
        }),
{
    assert(lines_text(seq![t]) == line_text(t));
}

/// `skip` on a guild whose queue holds items keeps the session and drops
/// exactly one item, the head.
pub proof fn lemma_skip_drops_head(m: Table, guild: u64, caller: Option<u64>, resolved: Option<Track>)
    requires
        m.contains_key(guild),
        m[guild].queue.len() > 0,
    ensures
        ({
            let s = step(m, Command::Skip, guild, caller, true, resolved);
            &&& s.0.contains_key(guild)
            &&& s.0[guild].queue.len() == m[guild].queue.len() - 1
            &&& s.0[guild].queue == m[guild].queue.drop_first()
            &&& s.0[guild].channel == m[guild].channel
        }),
{
}

/// `skip` on a guild without a session answers "Not in VC" and creates none.
pub proof fn lemma_skip_without_session(m: Table, guild: u64, caller: Option<u64>, resolved: Option<Track>)
    requires
        !m.contains_key(guild),
    ensures
        step(m, Command::Skip, guild, caller, true, resolved) == (
            m,
            Err::<Seq<char>, CommandError>(CommandError::NotInChannel),
            Action::Nothing,
        ),
{
}

/// After `leave` a guild has no session, and the next `play` joins again and
/// starts a new session whose queue holds only the new track.
pub proof fn lemma_leave_then_play(
    m: Table,
    guild: u64,
    caller: Option<u64>,
    query: String,
    channel: u64,
    t: Track,
)
    requires
        m.contains_key(guild),
    ensures
        ({
            let left = step(m, Command::Leave, guild, caller, true, None);
            let played = step(left.0, Command::Play { query }, guild, Some(channel), true, Some(t));
            &&& !left.0.contains_key(guild)
            &&& played.0[guild] == SessionView {
                channel,
                queue: seq![t],
                status: PlaybackStatus::Playing,
            }
            &&& played.2 == Action::JoinAndEnqueue(channel)
        }),
{
}

/// The table after `play` of each track of `ts` in turn, from the caller's channel.
pub open spec fn play_all(m: Table, guild: u64, query: String, channel: u64, ts: Seq<Track>) -> Table
    decreases ts.len(),
{
    if ts.len() == 0 {
        m
    } else {
        step(
            play_all(m, guild, query, channel, ts.drop_last()),
            Command::Play { query },
            guild,
            Some(channel),
            true,
            Some(ts.last()),
        ).0
    }
}

proof fn lemma_play_all_queue(m: Table, guild: u64, query: String, channel: u64, ts: Seq<Track>)
    requires
        !m.contains_key(guild),
        ts.len() > 0,
    ensures
        play_all(m, guild, query, channel, ts).contains_key(guild),
        play_all(m, guild, query, channel, ts)[guild].queue == ts,
    decreases ts.len(),
{
    if ts.len() == 1 {
        assert(ts.drop_last() =~= Seq::<Track>::empty());
        assert(seq![ts.last()] =~= ts);
    } else {
        lemma_play_all_queue(m, guild, query, channel, ts.drop_last());
        assert(ts.drop_last().push(ts.last()) =~= ts);
    }
}

/// Enqueuing tracks on a guild without a session and then listing the queue
/// shows them in the order they were enqueued, one line each.
pub proof fn lemma_enqueue_then_list(
    m: Table,
    guild: u64,
    query: String,
    channel: u64,
    ts: Seq<Track>,
    caller: Option<u64>,
)
    requires
        !m.contains_key(guild),
        ts.len() > 0,
    ensures
        step(play_all(m, guild, query, channel, ts), Command::ListQueue, guild, caller, true, None).1
            == Ok::<Seq<char>, CommandError>(queue_text(ts)),
{
    lemma_play_all_queue(m, guild, query, channel, ts);
}

} // verus!
