//! The session of one connection, and what each command of the wire protocol does to it
//! and to the store.
//!
//! A session starts out not logged in. `AUTH` logs it in; `SELECT` chooses the namespace
//! that `SETEX`, `GET`, `DEL` and `EXISTS` work on. How commands and replies are framed
//! on the wire is not decided here.

use crate::error::StoreError;
use crate::host::{host_of, value_of, HostModel, HostValue};
use crate::manager::{put_in, remove_in, select, sweep_in, Namespaces};
use crate::namespace::{is_expired, is_live, read};
use crate::plugin::db::{PluginDbGroup, PluginDbManager};
use crate::value::ValueModel;
use vstd::prelude::*;

verus! {

/// One command of the wire protocol.
#[derive(Debug, PartialEq)]
pub enum Command {
    /// `AUTH password`
    Auth(String),
    /// `SELECT namespace`
    Select(String),
    /// `SETEX key value ttl_seconds`
    SetEx { key: String, value: HostValue, ttl_seconds: u64 },
    /// `GET key`
    Get(String),
    /// `DEL key`
    Del(String),
    /// `EXISTS key`
    Exists(String),
    /// `PING`
    Ping,
}

/// What a [`Command`] stands for.
pub enum CommandModel {
    Auth(Seq<char>),
    Select(Seq<char>),
    SetEx { key: Seq<char>, value: HostModel, ttl_seconds: u64 },
    Get(Seq<char>),
    Del(Seq<char>),
    Exists(Seq<char>),
    Ping,
}

impl View for Command {
    type V = CommandModel;

    open spec fn view(&self) -> CommandModel {
        match *self {
            Command::Auth(password) => CommandModel::Auth(password@),
            Command::Select(name) => CommandModel::Select(name@),
            Command::SetEx { key, value, ttl_seconds } => CommandModel::SetEx {
                key: key@,
                value: value@,
                ttl_seconds,
            },
            Command::Get(key) => CommandModel::Get(key@),
            Command::Del(key) => CommandModel::Del(key@),
            Command::Exists(key) => CommandModel::Exists(key@),
            Command::Ping => CommandModel::Ping,
        }
    }
}

/// The answer to a command that succeeded.
#[derive(Debug, PartialEq)]
pub enum Reply {
    /// The command has been carried out: the answer to `AUTH`, `SELECT` and `SETEX`.
    Done,
    /// The value under the key: the answer to `GET` where there is one.
    Value(HostValue),
    /// There is nothing under the key: the answer to `GET` where there is no value. A
    /// stored null is a value and is answered as one.
    Absent,
    /// Yes or no: the answer to `DEL` and `EXISTS`.
    Flag(bool),
    /// The answer to `PING`.
    Pong,
}

/// What a [`Reply`] stands for.
pub enum ReplyModel {
    Done,
    Value(HostModel),
    Absent,
    Flag(bool),
    Pong,
}

impl View for Reply {
    type V = ReplyModel;

    open spec fn view(&self) -> ReplyModel {
        match *self {
            Reply::Done => ReplyModel::Done,
            Reply::Value(value) => ReplyModel::Value(value@),
            Reply::Absent => ReplyModel::Absent,
            Reply::Flag(flag) => ReplyModel::Flag(flag),
            Reply::Pong => ReplyModel::Pong,
        }
    }
}

/// What the answer to a command stands for.
pub open spec fn answer_model(answer: Result<Reply, StoreError>) -> Result<ReplyModel, StoreError> {
    match answer {
        Ok(reply) => Ok(reply@),
        Err(error) => Err(error),
    }
}

/// Where a session stands.
pub enum SessionModel {
    Unauthenticated,
    /// Logged in, with no namespace selected.
    Authenticated,
    /// Logged in, with the namespace of this name selected.
    Selected(Seq<char>),
}

/// A session, a store and the answer to a command.
pub struct Outcome {
    pub session: SessionModel,
    pub spaces: Namespaces,
    pub answer: Result<ReplyModel, StoreError>,
}

/// The answer to a `GET` whose reader was shown `shown`: the value in its host form, or
/// the mark that there is none.
pub open spec fn answer_to_read(shown: Option<ValueModel>) -> ReplyModel {
    match shown {
        Some(v) => ReplyModel::Value(host_of(v)),
        None => ReplyModel::Absent,
    }
}

/// The command failed with `error`: session and store are as they were.
pub open spec fn refused(session: SessionModel, spaces: Namespaces, error: StoreError) -> Outcome {
    Outcome { session, spaces, answer: Err(error) }
}

/// What `command` does, at `now`, to a session and to the store of a server whose
/// password is `password`.
///
/// - `AUTH` succeeds exactly if the password is right. It logs a session in that was
///   not; it never logs one out, and never touches the selection.
/// - `SELECT` and `PING` need a session that is logged in. `SELECT` makes the namespace
///   the selected one, creating it empty if it was not there.
/// - `SETEX`, `GET`, `DEL` and `EXISTS` need a selected namespace, and the store has to
///   have it. `SETEX` also needs a value that can be stored.
pub open spec fn step(
    session: SessionModel,
    spaces: Namespaces,
    password: Seq<char>,
    command: Command,
    now: u64,
) -> Outcome {
    match command {
        Command::Auth(given) => if given@ == password {
            Outcome {
                session: if session is Unauthenticated {
                    SessionModel::Authenticated
                } else {
                    session
                },
                spaces,
                answer: Ok(ReplyModel::Done),
            }
        } else {
            refused(session, spaces, StoreError::AuthenticationFailure)
        },
        Command::Ping => if session is Unauthenticated {
            refused(session, spaces, StoreError::AuthenticationFailure)
        } else {
            Outcome { session, spaces, answer: Ok(ReplyModel::Pong) }
        },
        Command::Select(name) => if session is Unauthenticated {
            refused(session, spaces, StoreError::AuthenticationFailure)
        } else {
            Outcome {
                session: SessionModel::Selected(name@),
                spaces: select(spaces, name@),
                answer: Ok(ReplyModel::Done),
            }
        },
        Command::SetEx { key, value, ttl_seconds } => match session {
            SessionModel::Selected(name) => if !value.convertible() {
                refused(session, spaces, StoreError::ValueConversionFailure)
            } else if !spaces.contains_key(name) {
                refused(session, spaces, StoreError::NamespaceRequiredButUnselected)
            } else {
                Outcome {
                    session,
                    spaces: put_in(spaces, name, key@, value_of(value@)->0, ttl_seconds, now),
                    answer: Ok(ReplyModel::Done),
                }
            },
            _ => refused(session, spaces, StoreError::NamespaceRequiredButUnselected),
        },
        Command::Get(key) => match session {
            SessionModel::Selected(name) => if !spaces.contains_key(name) {
                refused(session, spaces, StoreError::NamespaceRequiredButUnselected)
            } else {
                Outcome {
                    session,
                    spaces: sweep_in(spaces, name, key@, now),
                    answer: Ok(answer_to_read(read(spaces[name], key@, now))),
                }
            },
            _ => refused(session, spaces, StoreError::NamespaceRequiredButUnselected),
        },
        Command::Del(key) => match session {
            SessionModel::Selected(name) => if !spaces.contains_key(name) {
                refused(session, spaces, StoreError::NamespaceRequiredButUnselected)
            } else {
                Outcome {
                    session,
                    spaces: remove_in(spaces, name, key@),
                    answer: Ok(ReplyModel::Flag(is_live(spaces[name], key@, now))),
                }
            },
            _ => refused(session, spaces, StoreError::NamespaceRequiredButUnselected),
        },
        Command::Exists(key) => match session {
            SessionModel::Selected(name) => if !spaces.contains_key(name) {
                refused(session, spaces, StoreError::NamespaceRequiredButUnselected)
            } else {
                Outcome {
                    session,
                    spaces: sweep_in(spaces, name, key@, now),
                    answer: Ok(ReplyModel::Flag(is_live(spaces[name], key@, now))),
                }
            },
            _ => refused(session, spaces, StoreError::NamespaceRequiredButUnselected),
        },
    }
}

/// The answer that goes out once the storage medium has had its say: where the medium
/// failed, the caller is told so whatever the command had come to, and no answer that
/// looks like a success covers it up. Nothing is tried again.
pub fn settle(
    answer: Result<Reply, StoreError>,
    medium_failed: bool,
) -> (settled: Result<Reply, StoreError>)
    ensures
        settled == (if medium_failed {
            Err::<Reply, StoreError>(StoreError::StorageIOFailure)
        } else {
            answer
        }),
{
    if medium_failed {
        Err(StoreError::StorageIOFailure)
    } else {
        answer
    }
}

enum State {
    Unauthenticated,
    Authenticated,
    Selected(PluginDbGroup),
}

/// The record of one connection: whether it has logged in, and which namespace it has
/// selected. The selection belongs to the session, not to the store: two sessions on one
/// store select independently. A connection that closes drops its session, and nothing
/// in the store changes by that.
pub struct Session {
    state: State,
}

impl View for Session {
    type V = SessionModel;

    closed spec fn view(&self) -> SessionModel {
        match self.state {
            State::Unauthenticated => SessionModel::Unauthenticated,
            State::Authenticated => SessionModel::Authenticated,
            State::Selected(group) => SessionModel::Selected(group@),
        }
    }
}

impl Session {
    /// The session of a connection that has just been opened.
    pub fn new() -> (session: Session)
        ensures
            session@ == SessionModel::Unauthenticated,
    {
        Session { state: State::Unauthenticated }
    }

    /// Whether the session has logged in.
    pub fn is_authenticated(&self) -> (yes: bool)
        ensures
            yes == !(self@ is Unauthenticated),
    {
        match self.state {
            State::Unauthenticated => false,
            _ => true,
        }
    }

    /// The name of the selected namespace, where one is selected.
    pub fn selected(&self) -> (name: Option<&String>)
        ensures
            name is Some <==> self@ is Selected,
            name is Some ==> name->0@ == self@->Selected_0,
    {
        match &self.state {
            State::Selected(group) => Some(group.name()),
            _ => None,
        }
    }

    /// Carries out `command` at `now` against the store behind `db`, for a server whose
    /// password is `password`: session, store and answer are what [`step`] says.
    pub fn execute(
        &mut self,
        db: &mut PluginDbManager,
        password: &str,
        command: &Command,
        now: u64,
    ) -> (answer: Result<Reply, StoreError>)
        ensures
            final(self)@ == step(old(self)@, old(db)@, password@, *command, now).session,
            final(db)@ == step(old(self)@, old(db)@, password@, *command, now).spaces,
            answer_model(answer) == step(old(self)@, old(db)@, password@, *command, now).answer,
    {
        match command {
            Command::Auth(given) => {
                if *given == password.to_owned() {
                    if !self.is_authenticated() {
                        self.state = State::Authenticated;
                    }
                    Ok(Reply::Done)
                } else {
                    Err(StoreError::AuthenticationFailure)
                }
            },
            Command::Ping => {
                if self.is_authenticated() {
                    Ok(Reply::Pong)
                } else {
                    Err(StoreError::AuthenticationFailure)
                }
            },
            Command::Select(name) => {
                if self.is_authenticated() {
                    let group = db.open_group(name.clone());
                    self.state = State::Selected(group);
                    Ok(Reply::Done)
                } else {
                    Err(StoreError::AuthenticationFailure)
                }
            },
            Command::SetEx { key, value, ttl_seconds } => match &self.state {
                State::Selected(group) => {
                    if !value.is_convertible() {
                        Err(StoreError::ValueConversionFailure)
                    } else {
                        match group.set(db, key.as_str(), value, *ttl_seconds, now) {
                            Ok(()) => Ok(Reply::Done),
                            Err(_) => Err(StoreError::NamespaceRequiredButUnselected),
                        }
                    }
                },
                _ => Err(StoreError::NamespaceRequiredButUnselected),
            },
            Command::Get(key) => match &self.state {
                State::Selected(group) => match group.get(db, key.as_str(), now) {
                    Ok(Some(value)) => Ok(Reply::Value(value)),
                    Ok(None) => Ok(Reply::Absent),
                    Err(_) => Err(StoreError::NamespaceRequiredButUnselected),
                },
                _ => Err(StoreError::NamespaceRequiredButUnselected),
            },
            Command::Del(key) => match &self.state {
                State::Selected(group) => match group.delete(db, key.as_str(), now) {
                    Ok(existed) => Ok(Reply::Flag(existed)),
                    Err(_) => Err(StoreError::NamespaceRequiredButUnselected),
                },
                _ => Err(StoreError::NamespaceRequiredButUnselected),
            },
            Command::Exists(key) => match &self.state {
                State::Selected(group) => match group.exist(db, key.as_str(), now) {
                    Ok(found) => Ok(Reply::Flag(found)),
                    Err(_) => Err(StoreError::NamespaceRequiredButUnselected),
                },
                _ => Err(StoreError::NamespaceRequiredButUnselected),
            },
        }
    }
}

/// A command that works on a namespace is refused, with
/// [`StoreError::NamespaceRequiredButUnselected`], by every session that has not
/// selected one, a fresh session included. Session and store stay as they are: no
/// namespace is chosen on the caller's behalf.
pub proof fn law_data_commands_need_a_selection(
    session: SessionModel,
    spaces: Namespaces,
    password: Seq<char>,
    command: Command,
    now: u64,
)
    requires
        !(session is Selected),
        command is SetEx || command is Get || command is Del || command is Exists,
    ensures
        step(session, spaces, password, command, now) == refused(
            session,
            spaces,
            StoreError::NamespaceRequiredButUnselected,
        ),
{
}

/// A session that is not logged in can do nothing but log in: every other command is
/// refused and changes nothing, and a wrong password leaves the session where it is,
/// free to try again.
pub proof fn law_unauthenticated_session_can_only_log_in(
    spaces: Namespaces,
    password: Seq<char>,
    command: Command,
    now: u64,
)
    ensures
        ({
            let outcome = step(SessionModel::Unauthenticated, spaces, password, command, now);
            &&& outcome.spaces == spaces
            &&& outcome.answer is Ok <==> command is Auth && command->Auth_0@ == password
            &&& outcome.answer is Ok ==> outcome.session is Authenticated
            &&& outcome.answer is Err ==> outcome.session is Unauthenticated
        }),
{
}

/// `PING` changes neither the session nor the store.
pub proof fn law_ping_changes_nothing(
    session: SessionModel,
    spaces: Namespaces,
    password: Seq<char>,
    now: u64,
)
    ensures
        step(session, spaces, password, Command::Ping, now).session == session,
        step(session, spaces, password, Command::Ping, now).spaces == spaces,
{
}

/// Once a session has selected a namespace, the store has it: no command that works on
/// it is refused for want of a namespace.
pub proof fn law_selected_namespace_is_there(
    session: SessionModel,
    spaces: Namespaces,
    password: Seq<char>,
    select: Command,
    command: Command,
    now: u64,
    later: u64,
)
    requires
        !(session is Unauthenticated),
        select is Select,
        command is Get || command is Del || command is Exists || (command is SetEx
            && command->SetEx_value.convertible()),
    ensures
        ({
            let selected = step(session, spaces, password, select, now);
            &&& selected.answer is Ok
            &&& selected.session == SessionModel::Selected(select->Select_0@)
            &&& step(selected.session, selected.spaces, password, command, later).answer is Ok
        }),
{
}

/// A `GET` never answers with a value that has expired, whether or not anything has
/// looked at the entry since its time passed: the answer is that there is no value, and
/// the entry is gone.
pub proof fn law_get_never_answers_with_expired_value(
    spaces: Namespaces,
    password: Seq<char>,
    name: Seq<char>,
    get: Command,
    now: u64,
)
    requires
        get is Get,
        spaces.contains_key(name),
        spaces[name].contains_key(get->Get_0@),
        is_expired(spaces[name][get->Get_0@], now),
    ensures
        ({
            let outcome = step(SessionModel::Selected(name), spaces, password, get, now);
            &&& outcome.answer == Ok::<ReplyModel, StoreError>(ReplyModel::Absent)
            &&& !outcome.spaces[name].contains_key(get->Get_0@)
        }),
{
}

} // verus!
