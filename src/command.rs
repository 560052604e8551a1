use vstd::prelude::*;
use vstd::string::*;

verus! {

/// The value carried by a command argument.
#[derive(Clone, Debug)]
pub enum ArgValue {
    Text(String),
    Integer(i64),
    Boolean(bool),
    Other,
}

/// A named argument of an incoming command, with its value if one was given.
#[derive(Clone, Debug)]
pub struct CommandArg {
    pub name: String,
    pub value: Option<ArgValue>,
}

/// A command, as the interpreter produced it.
#[derive(Clone, Debug)]
pub enum Command {
    Play { query: String },
    Leave,
    Skip,
    Pause,
    Resume,
    ListQueue,
}

/// Why a command produced no effect.
#[derive(Clone, Copy, Debug, PartialEq, Eq, Structural)]
pub enum CommandError {
    /// A required argument is missing or of the wrong type.
    Argument,
    /// The voice manager is not available.
    Infra,
    /// The caller or the guild has no voice presence: a normal negative outcome.
    NotInChannel,
    /// The resolver produced no playable source for the query.
    SourceResolution,
    /// The command name is not one the interpreter knows.
    UnknownCommand,
}

/// The text shown to the caller for each kind of error.
pub open spec fn error_text(e: CommandError) -> Seq<char> {
    match e {
        CommandError::Argument => "Couldn't get argument"@,
        CommandError::Infra => "Couldn't get voice manager"@,
        CommandError::NotInChannel => "Not in VC"@,
        CommandError::SourceResolution => "Couldn't stream source"@,
        CommandError::UnknownCommand => "Unknown command"@,
    }
}

impl CommandError {
    /// The caller-visible message of this error.
    pub fn message(&self) -> (r: String)
        ensures
            r@ == error_text(*self),
    {
        match self {
            CommandError::Argument => String::from_str("Couldn't get argument"),
            CommandError::Infra => String::from_str("Couldn't get voice manager"),
            CommandError::NotInChannel => String::from_str("Not in VC"),
            CommandError::SourceResolution => String::from_str("Couldn't stream source"),
            CommandError::UnknownCommand => String::from_str("Unknown command"),
        }
    }
}

/// A query that already names a playable locator: it starts with `http`.
pub open spec fn is_locator(q: Seq<char>) -> bool {
    q.len() >= 4 && q.take(4) == "http"@
}

/// A query as the resolver receives it: locators unchanged, anything else
/// turned into a search.
pub open spec fn normalized(q: Seq<char>) -> Seq<char> {
    if is_locator(q) {
        q
    } else {
        "ytsearch:"@ + q
    }
}

/// The text of the first argument, when it carries text.
pub open spec fn first_text(args: Seq<CommandArg>) -> Option<Seq<char>> {
    if args.len() == 0 {
        None
    } else {
        match args[0].value {
            Some(ArgValue::Text(s)) => Some(s@),
            _ => None,
        }
    }
}

/// What the interpreter gives for a command name and its arguments.
pub open spec fn parsed_as(name: Seq<char>, args: Seq<CommandArg>, r: Result<Command, CommandError>) -> bool {
    if name == "play"@ {
        match first_text(args) {
            Some(q) => match r {
                Ok(Command::Play { query }) => query@ == normalized(q),
                _ => false,
            },
            None => r == Err::<Command, CommandError>(CommandError::Argument),
        }
    } else if name == "leave"@ {
        r == Ok::<Command, CommandError>(Command::Leave)
    } else if name == "skip"@ {
        r == Ok::<Command, CommandError>(Command::Skip)
    } else if name == "pause"@ {
        r == Ok::<Command, CommandError>(Command::Pause)
    } else if name == "resume"@ {
        r == Ok::<Command, CommandError>(Command::Resume)
    } else if name == "queue"@ {
        r == Ok::<Command, CommandError>(Command::ListQueue)
    } else {
        r == Err::<Command, CommandError>(CommandError::UnknownCommand)
    }
}

fn same_text(a: &str, b: &str) -> (r: bool)
    ensures
        r == (a@ == b@),
{
    let n = a.unicode_len();
    let m = b.unicode_len();
    if n != m {
        return false;
    }
    let mut i: usize = 0;
    while i < n
        invariant
            n == a@.len(),
            n == b@.len(),
            i <= n,
            forall|j: int| 0 <= j < i ==> a@[j] == b@[j],
        decreases n - i,
    {
        if a.get_char(i) != b.get_char(i) {
            return false;
        }
        i += 1;
    }
    proof {
        assert(a@ =~= b@);
    }
    true
}

/// Rewrites a free-text query into the resolver's search form; a query that
/// starts with `http` is passed through unchanged.
pub fn normalize_query(query: &str) -> (r: String)
    ensures
        r@ == normalized(query@),
{
    let n = query.unicode_len();
    let locator = n >= 4 && same_text(query.substring_char(0, 4), "http");
    if locator {
        String::from_str(query)
    } else {
        let mut r = String::from_str("ytsearch:");
        r.append(query);
        r
    }
}

/// Turns a command name and its ordered arguments into a command. Only
/// `play` takes an argument: the first one, which must carry text.
pub fn parse_command(name: &str, args: &Vec<CommandArg>) -> (r: Result<Command, CommandError>)
    ensures
        parsed_as(name@, args@, r),
{
    if same_text(name, "play") {
        if args.len() == 0 {
            return Err(CommandError::Argument);
        }
        match &args[0].value {
            Some(ArgValue::Text(q)) => Ok(Command::Play { query: normalize_query(q.as_str()) }),
            _ => Err(CommandError::Argument),
        }
    } else if same_text(name, "leave") {
        Ok(Command::Leave)
    } else if same_text(name, "skip") {
        Ok(Command::Skip)
    } else if same_text(name, "pause") {
        Ok(Command::Pause)
    } else if same_text(name, "resume") {
        Ok(Command::Resume)
    } else if same_text(name, "queue") {
        Ok(Command::ListQueue)
    } else {
        Err(CommandError::UnknownCommand)
    }
}

} // verus!
