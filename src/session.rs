use std::collections::HashMap;
use vstd::prelude::*;
use vstd::string::*;

use crate::command::{Command, CommandError};
use crate::track::{queue_text, render_queue, Track};

verus! {

broadcast use vstd::std_specs::hash::group_hash_axioms;

/// Whether a session's queue is playing or held.
#[derive(Clone, Copy, Debug, PartialEq, Eq, Structural)]
pub enum PlaybackStatus {
    Playing,
    Paused,
}

/// The record of one guild's voice presence: the channel joined, the queue
/// (head first: the head is the track playing or about to play) and whether
/// playback is held.
#[derive(Clone, Debug)]
pub struct Session {
    pub channel: u64,
    pub queue: Vec<Track>,
    pub status: PlaybackStatus,
}

/// A session as a mathematical value.
pub struct SessionView {
    pub channel: u64,
    pub queue: Seq<Track>,
    pub status: PlaybackStatus,
}

impl View for Session {
    type V = SessionView;

    open spec fn view(&self) -> SessionView {
        SessionView { channel: self.channel, queue: self.queue@, status: self.status }
    }
}

/// What the voice engine must do once a command has been decided.
#[derive(Clone, Copy, Debug, PartialEq, Eq, Structural)]
pub enum Action {
    /// Nothing.
    Nothing,
    /// Join this channel, then enqueue the resolved source.
    JoinAndEnqueue(u64),
    /// Enqueue the resolved source on the existing connection.
    Enqueue,
    /// Stop the queue and disconnect.
    StopAndLeave,
    /// Drop the head of the queue.
    Skip,
    /// Hold playback.
    Pause,
    /// Continue playback.
    Resume,
}

/// The reply to a command and the action it asks of the voice engine.
#[derive(Debug)]
pub struct Response {
    pub reply: Result<String, CommandError>,
    pub action: Action,
}

/// A reply as a mathematical value.
pub open spec fn reply_view(r: Result<String, CommandError>) -> Result<Seq<char>, CommandError> {
    match r {
        Ok(s) => Ok(s@),
        Err(e) => Err(e),
    }
}

/// The sessions of all guilds.
pub type Table = Map<u64, SessionView>;

/// The outcome of one step: the table after it, the reply and the action.
pub type Step = (Table, Result<Seq<char>, CommandError>, Action);

/// `play` once the voice manager is known to be there.
pub open spec fn play_step(m: Table, guild: u64, caller: Option<u64>, resolved: Option<Track>) -> Step {
    match caller {
        None => (m, Err(CommandError::NotInChannel), Action::Nothing),
        Some(c) => match resolved {
            None => (m, Err(CommandError::SourceResolution), Action::Nothing),
            Some(t) => if m.contains_key(guild) {
                let s = m[guild];
                (
                    m.insert(guild, SessionView { queue: s.queue.push(t), ..s }),
                    Ok("Successfully queued song"@),
                    Action::Enqueue,
                )
            } else {
                (
                    m.insert(
                        guild,
                        SessionView { channel: c, queue: seq![t], status: PlaybackStatus::Playing },
                    ),
                    Ok("Successfully queued song"@),
                    Action::JoinAndEnqueue(c),
                )
            },
        },
    }
}

/// The queue after a skip: one item fewer from the head, if there is one.
pub open spec fn skipped(q: Seq<Track>) -> Seq<Track> {
    if q.len() > 0 {
        q.drop_first()
    } else {
        q
    }
}

/// A command other than `play` on a guild that has a session.
pub open spec fn session_step(m: Table, guild: u64, cmd: Command) -> Step {
    let s = m[guild];
    match cmd {
        Command::Leave => (m.remove(guild), Ok("Successfully left call"@), Action::StopAndLeave),
        Command::Skip => (
            m.insert(guild, SessionView { queue: skipped(s.queue), ..s }),
            Ok("Successfully skipped song"@),
            Action::Skip,
        ),
        Command::Pause => (
            m.insert(guild, SessionView { status: PlaybackStatus::Paused, ..s }),
            Ok("Successfully paused song"@),
            Action::Pause,
        ),
        Command::Resume => (
            m.insert(guild, SessionView { status: PlaybackStatus::Playing, ..s }),
            Ok("Successfully resumed song"@),
            Action::Resume,
        ),
        _ => (m, Ok(queue_text(s.queue)), Action::Nothing),
    }
}

/// One command against the table of sessions.
pub open spec fn step(
    m: Table,
    cmd: Command,
    guild: u64,
    caller: Option<u64>,
    voice: bool,
    resolved: Option<Track>,
) -> Step {
    if !voice {
        (m, Err(CommandError::Infra), Action::Nothing)
    } else {
        match cmd {
            Command::Play { .. } => play_step(m, guild, caller, resolved),
            _ => if m.contains_key(guild) {
                session_step(m, guild, cmd)
            } else {
                (m, Err(CommandError::NotInChannel), Action::Nothing)
            },
        }
    }
}

/// Whether a command needs a source from the resolver before it is run: a
/// `play` that passed its checks.
pub open spec fn wants_source(cmd: Command, caller: Option<u64>, voice: bool) -> bool {
    voice && caller is Some && cmd is Play
}

/// The query to hand the resolver before `execute`, if the command needs one.
pub fn source_query(cmd: &Command, caller_channel: Option<u64>, voice_available: bool) -> (r: Option<String>)
    ensures
        r is Some <==> wants_source(*cmd, caller_channel, voice_available),
        r is Some ==> r->Some_0@ == cmd->Play_query@,
{
    match cmd {
        Command::Play { query } => if voice_available && caller_channel.is_some() {
            Some(query.clone())
        } else {
            None
        },
        _ => None,
    }
}

/// The table of sessions, one per guild at most. A guild without an entry
/// has no session.
pub struct SessionTable {
    sessions: HashMap<u64, Session>,
}

impl View for SessionTable {
    type V = Table;

    closed spec fn view(&self) -> Table {
        Map::new(|g: u64| self.sessions@.contains_key(g), |g: u64| self.sessions@[g]@)
    }
}

impl SessionTable {
    /// A table with no sessions.
    pub fn new() -> (r: SessionTable)
        ensures
            r@ == Map::<u64, SessionView>::empty(),
    {
        let r = SessionTable { sessions: HashMap::new() };
        proof {
            assert(r@ =~= Map::<u64, SessionView>::empty());
        }
        r
    }

    /// Whether the guild has a session.
    pub fn has_session(&self, guild: u64) -> (r: bool)
        ensures
            r == self@.contains_key(guild),
    {
        self.sessions.contains_key(&guild)
    }

    /// The guild's session, if it has one.
    pub fn get(&self, guild: u64) -> (r: Option<&Session>)
        ensures
            match r {
                Some(s) => self@.contains_key(guild) && s@ == self@[guild],
                None => !self@.contains_key(guild),
            },
    {
        self.sessions.get(&guild)
    }

    fn put(&mut self, guild: u64, s: Session)
        ensures
            final(self)@ == old(self)@.insert(guild, s@),
    {
        let ghost before = self@;
        self.sessions.insert(guild, s);
        proof {
            assert(self@ =~= before.insert(guild, s@));
        }
    }

    fn take(&mut self, guild: u64) -> (r: Option<Session>)
        ensures
            final(self)@ == old(self)@.remove(guild),
            match r {
                Some(s) => old(self)@.contains_key(guild) && s@ == old(self)@[guild],
                None => !old(self)@.contains_key(guild),
            },
    {
        let ghost before = self@;
        let r = self.sessions.remove(&guild);
        proof {
            assert(self@ =~= before.remove(guild));
        }
        r
    }

    /// Appends a resolved track to the guild's queue, joining the caller's
    /// channel first when the guild has no session.
    fn play(&mut self, guild: u64, caller_channel: Option<u64>, resolved: Option<Track>) -> (r: Response)
        ensures
            (final(self)@, reply_view(r.reply), r.action) == play_step(old(self)@, guild, caller_channel, resolved),
    {
        let c = match caller_channel {
            None => return Response { reply: Err(CommandError::NotInChannel), action: Action::Nothing },
            Some(c) => c,
        };
        let t = match resolved {
            None => return Response { reply: Err(CommandError::SourceResolution), action: Action::Nothing },
            Some(t) => t,
        };
        let reply = Ok(String::from_str("Successfully queued song"));
        match self.take(guild) {
            Some(mut s) => {
                let ghost old_s = s@;
                s.queue.push(t);
                proof {
                    assert(s@ == SessionView { queue: old_s.queue.push(t), ..old_s });
                }
                self.put(guild, s);
                proof {
                    assert(self@ =~= old(self)@.insert(guild, SessionView { queue: old_s.queue.push(t), ..old_s }));
                }
                Response { reply, action: Action::Enqueue }
            },
            None => {
                let mut queue: Vec<Track> = Vec::new();
                queue.push(t);
                proof {
                    assert(queue@ =~= seq![t]);
                }
                self.put(guild, Session { channel: c, queue, status: PlaybackStatus::Playing });
                proof {
                    assert(self@ =~= old(self)@.insert(
                        guild,
                        SessionView { channel: c, queue: seq![t], status: PlaybackStatus::Playing },
                    ));
                }
                Response { reply, action: Action::JoinAndEnqueue(c) }
            },
        }
    }
    /// Replaces the guild's queue with the one the voice engine reports (the
    /// engine drops a track from the head once it has finished). A guild
    /// without a session is left without one.
    pub fn observe_queue(&mut self, guild: u64, queue: Vec<Track>)
        ensures
            final(self)@ == if old(self)@.contains_key(guild) {
                old(self)@.insert(guild, SessionView { queue: queue@, ..old(self)@[guild] })
            } else {
                old(self)@
            },
    {
        if let Some(mut s) = self.take(guild) {
            let ghost old_s = s@;
            s.queue = queue;
            self.put(guild, s);
            proof {
                assert(self@ =~= old(self)@.insert(guild, SessionView { queue: queue@, ..old_s }));
            }
        } else {
            proof {
                assert(self@ =~= old(self)@);
            }
        }
    }

    /// Stops the queue and removes the guild's session.
    fn leave(&mut self, guild: u64) -> (r: Response)
        requires
            old(self)@.contains_key(guild),
        ensures
            (final(self)@, reply_view(r.reply), r.action) == session_step(old(self)@, guild, Command::Leave),
    {
        let _ = self.take(guild);
        Response { reply: Ok(String::from_str("Successfully left call")), action: Action::StopAndLeave }
    }

    /// Drops the head of the guild's queue, if there is one.
    fn skip(&mut self, guild: u64) -> (r: Response)
        requires
            old(self)@.contains_key(guild),
        ensures
            (final(self)@, reply_view(r.reply), r.action) == session_step(old(self)@, guild, Command::Skip),
    {
        if let Some(mut s) = self.take(guild) {
            let ghost old_s = s@;
            if s.queue.len() > 0 {
                let _ = s.queue.remove(0);
                proof {
                    assert(s.queue@ =~= old_s.queue.drop_first());
                }
            }
            proof {
                assert(s@ == SessionView { queue: skipped(old_s.queue), ..old_s });
            }
            self.put(guild, s);
            proof {
                assert(self@ =~= old(self)@.insert(guild, SessionView { queue: skipped(old_s.queue), ..old_s }));
            }
        }
        Response { reply: Ok(String::from_str("Successfully skipped song")), action: Action::Skip }
    }

    /// Sets the status of the guild's session.
    fn set_status(&mut self, guild: u64, status: PlaybackStatus)
        requires
            old(self)@.contains_key(guild),
        ensures
            final(self)@ == old(self)@.insert(guild, SessionView { status, ..old(self)@[guild] }),
    {
        if let Some(mut s) = self.take(guild) {
            s.status = status;
            self.put(guild, s);
            proof {
                assert(self@ =~= old(self)@.insert(guild, SessionView { status, ..old(self)@[guild] }));
            }
        }
    }

    /// Holds playback of the guild's queue.
    fn pause(&mut self, guild: u64) -> (r: Response)
        requires
            old(self)@.contains_key(guild),
        ensures
            (final(self)@, reply_view(r.reply), r.action) == session_step(old(self)@, guild, Command::Pause),
    {
        self.set_status(guild, PlaybackStatus::Paused);
        Response { reply: Ok(String::from_str("Successfully paused song")), action: Action::Pause }
    }

    /// Continues playback of the guild's queue.
    fn resume(&mut self, guild: u64) -> (r: Response)
        requires
            old(self)@.contains_key(guild),
        ensures
            (final(self)@, reply_view(r.reply), r.action) == session_step(old(self)@, guild, Command::Resume),
    {
        self.set_status(guild, PlaybackStatus::Playing);
        Response { reply: Ok(String::from_str("Successfully resumed song")), action: Action::Resume }
    }

    /// Lists the guild's queue, head first.
    fn list_queue(&self, guild: u64) -> (r: Response)
        requires
            self@.contains_key(guild),
        ensures
            (self@, reply_view(r.reply), r.action) == session_step(self@, guild, Command::ListQueue),
    {
        match self.get(guild) {
            Some(s) => Response { reply: Ok(render_queue(&s.queue)), action: Action::Nothing },
            None => Response { reply: Err(CommandError::NotInChannel), action: Action::Nothing },
        }
    }

    /// Runs one command for a guild. `caller_channel` is the voice channel the
    /// caller is in, `voice_available` whether the voice manager is there, and
    /// `resolved` the track that the resolver produced for the query that
    /// `source_query` named (it is read only then). Every command but `play`
    /// answers "Not in VC" when the guild has no session, and changes nothing.
    pub fn execute(
        &mut self,
        cmd: &Command,
        guild: u64,
        caller_channel: Option<u64>,
        voice_available: bool,
        resolved: Option<Track>,
    ) -> (r: Response)
        ensures
            (final(self)@, reply_view(r.reply), r.action) == step(
                old(self)@,
                *cmd,
                guild,
                caller_channel,
                voice_available,
                resolved,
            ),
    {
        if !voice_available {
            return Response { reply: Err(CommandError::Infra), action: Action::Nothing };
        }
        if let Command::Play { .. } = cmd {
            return self.play(guild, caller_channel, resolved);
        }
        if !self.has_session(guild) {
            return Response { reply: Err(CommandError::NotInChannel), action: Action::Nothing };
        }
        match cmd {
            Command::Leave => self.leave(guild),
            Command::Skip => self.skip(guild),
            Command::Pause => self.pause(guild),
            Command::Resume => self.resume(guild),
            _ => self.list_queue(guild),
        }
    }
}

} // verus!
