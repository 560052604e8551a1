//! Per-guild voice session orchestration: a command interpreter, a session
//! table with one queue of tracks per guild, and the rules that turn each
//! command into a reply and an action for the voice engine.

mod command;
mod laws;
mod session;
mod track;

pub use command::{
    error_text, first_text, is_locator, normalize_query, normalized, parse_command, parsed_as, ArgValue,
    Command, CommandArg, CommandError,
};
pub use laws::{
    lemma_distinct_guilds_commute, lemma_enqueue_then_list, lemma_leave_then_play,
    lemma_other_guilds_untouched, lemma_play_then_list, lemma_skip_drops_head,
    lemma_skip_without_session, play_all,
};
pub use session::{
    play_step, reply_view, session_step, skipped, source_query, step, wants_source, Action,
    PlaybackStatus, Response, Session, SessionTable, SessionView, Step, Table,
};
pub use track::{
    line_text, lines_text, locator_text, queue_text, render_line, render_queue, title_text, Track,
};
