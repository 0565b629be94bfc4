//! What each request of the game host leads to: which command it is, what
//! it does to the registry, and what is answered.
//!
//! Reading a request and sending its answer are left to the caller, and so
//! is the worker on which a move is thought about. Between those steps the
//! caller holds the registry for the length of one call only.

use vstd::prelude::*;
use vstd::string::StringExecFns;

use crate::api::request::Turn;
use crate::api::response::{Info, Move};
use crate::budget::{budget_of, latency_ms, latency_of, turn_budget_ms};
use crate::error::{Error, BAD_REQUEST, NOT_FOUND};
use crate::path::{command_in, snake_in, split_path, trimmed};
use crate::registry::model::{
    acquire_result, after_acquire, after_release, after_remove, after_start, AcquireError,
};
use crate::registry::{Expiry, Registry, EXPIRY_SECS};
use crate::runner::Deadline;
use crate::text::{around, same_text};

verus! {

/// The method of a request, as far as it matters here.
#[derive(Debug, Clone, Copy, PartialEq, Eq)]
pub enum Method {
    Get,
    Post,
    Other,
}

/// What a request asks for.
#[derive(Debug, Clone, Copy, PartialEq, Eq)]
pub enum Action {
    /// The path names no snake.
    Nothing,
    /// The description of the snake.
    Info,
    /// A new game.
    Start,
    /// A move in a game.
    Move,
    /// The end of a game.
    End,
    /// None of these.
    Unknown,
}

/// A request told apart, with what of its path the answer needs.
#[derive(Debug, PartialEq, Eq)]
pub enum Route {
    /// The path names no snake.
    NoSnake,
    /// The description of the snake is asked for.
    Info,
    /// A game starts, played by the snake of this name.
    Start { snake: String },
    /// A move is asked for.
    Move,
    /// A game has ended.
    End,
    /// The command is none that the server knows.
    Unknown { command: String },
}

/// An answer to the host.
#[derive(Debug)]
pub enum Reply {
    /// Success, with nothing to say.
    Empty,
    /// Success, with the description of the snake.
    Info(Info),
    /// Success, with a move.
    Move(Move),
    /// A status and a message in plain text.
    Text { status: u16, message: String },
}

/// What a request with `method` and `command` asks for, where its path
/// names a snake.
pub open spec fn action_of(method: Method, command: Seq<char>) -> Action {
    if method == Method::Get && command.len() == 0 {
        Action::Info
    } else if method == Method::Post && command == "start"@ {
        Action::Start
    } else if method == Method::Post && command == "move"@ {
        Action::Move
    } else if method == Method::Post && command == "end"@ {
        Action::End
    } else {
        Action::Unknown
    }
}

/// What a request with `method` and `path` asks for.
pub open spec fn asked_for(method: Method, path: Seq<char>) -> Action {
    if trimmed(path).len() == 0 {
        Action::Nothing
    } else {
        action_of(method, command_in(path))
    }
}

impl Route {
    /// What this route stands for, without the text it carries.
    pub open spec fn action(&self) -> Action {
        match self {
            Route::NoSnake => Action::Nothing,
            Route::Info => Action::Info,
            Route::Start { .. } => Action::Start,
            Route::Move => Action::Move,
            Route::End => Action::End,
            Route::Unknown { .. } => Action::Unknown,
        }
    }
}

/// Tells a request apart by its method and path.
pub fn route(method: Method, path: &str) -> (route: Route)
    ensures
        route.action() == asked_for(method, path@),
        route matches Route::Start { snake } ==> snake@ == snake_in(path@),
        route matches Route::Unknown { command } ==> command@ == command_in(path@),
{
    let target = match split_path(path) {
        None => {
            return Route::NoSnake;
        },
        Some(target) => target,
    };
    let command = target.command.as_str();
    let is_get = match method {
        Method::Get => true,
        _ => false,
    };
    let is_post = match method {
        Method::Post => true,
        _ => false,
    };
    proof {
        reveal_strlit("start");
        reveal_strlit("move");
        reveal_strlit("end");
    }
    if is_get && command.is_empty() {
        Route::Info
    } else if is_post && same_text(command, "start") {
        Route::Start { snake: target.snake }
    } else if is_post && same_text(command, "move") {
        Route::Move
    } else if is_post && same_text(command, "end") {
        Route::End
    } else {
        Route::Unknown { command: target.command }
    }
}

/// The description of this server's snake.
pub fn server_info() -> (info: Info)
    ensures
        info.apiversion@ == "1"@,
        info.author matches Some(author) && author@ == "jsdw"@,
        info.color matches Some(color) && color@ == "#ff69b4"@,
        info.head is None,
        info.tail is None,
        info.version matches Some(version) && version@ == "0.0.1"@,
{
    Info {
        apiversion: String::from_str("1"),
        author: Some(String::from_str("jsdw")),
        color: Some(String::from_str("#ff69b4")),
        head: None,
        tail: None,
        version: Some(String::from_str("0.0.1")),
    }
}

/// The answer to a request whose path names no snake.
pub fn no_snake_reply() -> (reply: Reply)
    ensures
        reply matches Reply::Text { status, message } && status == BAD_REQUEST && message@
            == "The path must look something like ${snake_name}[/${command}]"@,
{
    Reply::Text {
        status: BAD_REQUEST,
        message: String::from_str("The path must look something like ${snake_name}[/${command}]"),
    }
}

/// The answer to a request with a command that the server does not know.
pub fn unknown_command_reply(command: &str) -> (reply: Reply)
    ensures
        reply matches Reply::Text { status, message } && status == NOT_FOUND && message@
            == "The command '"@ + command@ + "' is not recognised. expected start|move|end"@,
{
    Reply::Text {
        status: NOT_FOUND,
        message: around("The command '", command, "' is not recognised. expected start|move|end"),
    }
}

/// The answer to the start of a game for a snake that the server does not
/// have.
pub fn unknown_snake_reply(snake: &str) -> (reply: Reply)
    ensures
        reply matches Reply::Text { status, message } && status == NOT_FOUND && message@
            == "A snake called '"@ + snake@ + "' does not exist"@,
{
    Reply::Text { status: NOT_FOUND, message: around("A snake called '", snake, "' does not exist") }
}

/// A game starts. `built` is the snake that was made for the name `snake`,
/// or `None` where the server has no snake of that name. The snake is put
/// in play under the game's name, in place of any game of that name, and
/// the removal to carry out `EXPIRY_SECS` seconds later is handed back.
/// Where there is no snake nothing changes and the answer says so.
pub fn start_game<S>(registry: &mut Registry<S>, snake: &str, built: Option<S>, turn: &Turn) -> (started:
    Result<Expiry, Reply>)
    ensures
        match built {
            Some(state) => {
                &&& started matches Ok(expiry)
                &&& expiry.id@ == turn.game.id@
                &&& expiry.after_secs == EXPIRY_SECS
                &&& final(registry)@ == after_start(old(registry)@, turn.game.id@, state)
            },
            None => {
                &&& started matches Err(Reply::Text { status, message })
                &&& status == NOT_FOUND
                &&& message@ == "A snake called '"@ + snake@ + "' does not exist"@
                &&& final(registry)@ == old(registry)@
            },
        },
{
    match built {
        None => Err(unknown_snake_reply(snake)),
        Some(state) => Ok(registry.start(turn.game.id.clone(), state)),
    }
}

/// What the host is told where a move is asked for while the previous one
/// is still thought about.
pub open spec fn busy_message() -> Seq<char> {
    "This snake is busy moving"@
}

/// What the host is told where a move is asked for in a game that is not
/// in play.
pub open spec fn missing_message() -> Seq<char> {
    "This snake doesn't exist"@
}

/// A move begins: the deadline is set from the turn's budget, counted from
/// now, and the state of the game is taken out of the registry. A game
/// that is busy or not in play is refused, and nothing changes.
pub fn begin_move<S>(registry: &mut Registry<S>, turn: &Turn) -> (begun: Result<
    (S, Deadline),
    Error,
>)
    ensures
        final(registry)@ == after_acquire(old(registry)@, turn.game.id@),
        match acquire_result(old(registry)@, turn.game.id@) {
            Ok(state) => begun matches Ok((taken, deadline)) && taken == state
                && deadline.budget() == budget_of(turn.game.timeout, latency_of(turn.you.latency@)),
            Err(AcquireError::Busy) => begun matches Err(Error::Them(status, message))
                && status == BAD_REQUEST && message@ == busy_message(),
            Err(AcquireError::NotFound) => begun matches Err(Error::Them(status, message))
                && status == BAD_REQUEST && message@ == missing_message(),
        },
{
    let latency = latency_ms(turn.you.latency.as_str());
    let deadline = Deadline::starting_now(turn_budget_ms(turn.game.timeout, latency));
    match registry.acquire(turn.game.id.as_str()) {
        Ok(state) => Ok((state, deadline)),
        Err(AcquireError::Busy) => Err(
            Error::Them(BAD_REQUEST, String::from_str("This snake is busy moving")),
        ),
        Err(AcquireError::NotFound) => Err(
            Error::Them(BAD_REQUEST, String::from_str("This snake doesn't exist")),
        ),
    }
}

/// A move is done: the state goes back to the registry, to be dropped
/// there if the game has been removed in the meantime, and the move is
/// the answer.
pub fn finish_move<S>(registry: &mut Registry<S>, id: &str, state: S, best: Move) -> (reply: Reply)
    ensures
        final(registry)@ == after_release(old(registry)@, id@, state),
        reply == Reply::Move(best),
{
    registry.release(id, state);
    Reply::Move(best)
}

/// The worker that thought about a move has died, and the state of the
/// game with it: the game is taken out of play, and the fallback move is
/// the answer.
pub fn abandon_move<S>(registry: &mut Registry<S>, id: &str) -> (reply: Reply)
    ensures
        final(registry)@ == after_remove(old(registry)@, id@),
        reply matches Reply::Move(best) && best@ == Move::fallback(),
{
    registry.remove(id);
    Reply::Move(Move::default())
}

/// A game has ended: it is taken out of play, if it still was in play.
pub fn end_game<S>(registry: &mut Registry<S>, turn: &Turn) -> (reply: Reply)
    ensures
        final(registry)@ == after_remove(old(registry)@, turn.game.id@),
        reply is Empty,
{
    registry.remove(turn.game.id.as_str());
    Reply::Empty
}

} // verus!
