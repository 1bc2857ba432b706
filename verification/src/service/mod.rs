//! How the web service comes up, which routes it serves, and how it answers a failed request.
//!
//! Nothing here touches a socket. The embedding program reads files, connects and serves;
//! between two such steps it asks [`startup`] what to do next.

use crate::error::StoreError;
use crate::host::{host_field_pairs, HostField, HostModel, HostValue};
use crate::manager::Namespaces;
use crate::namespace::is_live;
use crate::protocol::{answer_model, step, Command, CommandModel, Reply, SessionModel};
use vstd::prelude::*;
use vstd::string::*;

verus! {

/// Seconds after which a request to the web service is given up.
pub const REQUEST_TIMEOUT_SECS: u64 = 30;

/// Status of the answer to a request that ran out of time.
pub const STATUS_REQUEST_TIMEOUT: u16 = 408;

/// Status of the answer to a request that failed in any other way.
pub const STATUS_INTERNAL_SERVER_ERROR: u16 = 500;

/// What every request handler of the web service can read.
#[derive(Debug, PartialEq)]
pub struct ShareState {
    /// The password with which the service logs in to the store.
    pub connection_password: String,
    /// The port on which the web service listens.
    pub rest_port: u16,
    /// Host and port of the store.
    pub client_addr: (String, u16),
}

/// How far [`startup`] has come.
#[derive(Debug, PartialEq)]
pub enum StartupState {
    /// Nothing has been asked for yet.
    Fresh,
    /// The settings of the web service are being read.
    ReadingRestConfig,
    /// The settings of the store are being read.
    ReadingConfig { rest_port: u16 },
    /// A connection to the store is being opened.
    Connecting { share: ShareState },
    /// The namespace that the service keeps its accounts in is being prepared.
    PreparingSystemDb { share: ShareState },
    /// Startup is over: the service runs, is switched off, or has failed.
    Finished,
}

/// What the embedding program reports back to [`startup`].
#[derive(Debug, PartialEq)]
pub enum StartupEvent {
    Start,
    RestConfigRead { switch: bool, rest_port: u16 },
    RestConfigUnreadable,
    ConfigRead { connection_password: String },
    ConfigUnreadable,
    Connected,
    ConnectionFailed,
    SystemDbReady,
    SystemDbFailed,
}

/// What [`startup`] asks the embedding program to do.
#[derive(Debug, PartialEq)]
pub enum StartupAction {
    /// Read the settings of the web service.
    ReadRestConfig,
    /// Read the settings of the store.
    ReadConfig,
    /// Open a connection to the store and log in.
    Connect { host: String, port: u16, password: String },
    /// Run [`init_service_system_db`] over the connection.
    PrepareSystemDb,
    /// Serve [`routes`] on `share.rest_port`, giving up each request after `timeout_secs`.
    Serve { share: ShareState, timeout_secs: u64 },
    /// The service is switched off: return without having started anything.
    Stop,
    /// The settings of the web service could not be read: hand that failure to the caller.
    Fail,
    /// The store cannot be used: the program cannot go on.
    Abort,
    /// The event was not waited for: do nothing.
    Nothing,
}

/// The transition that [`startup`] makes.
pub open spec fn startup_step(addr: (String, u16), state: StartupState, event: StartupEvent) -> (
    StartupState,
    StartupAction,
) {
    match (state, event) {
        (StartupState::Fresh, StartupEvent::Start) => (
            StartupState::ReadingRestConfig,
            StartupAction::ReadRestConfig,
        ),
        (StartupState::ReadingRestConfig, StartupEvent::RestConfigRead { switch, rest_port }) => if switch {
            (StartupState::ReadingConfig { rest_port }, StartupAction::ReadConfig)
        } else {
            (StartupState::Finished, StartupAction::Stop)
        },
        (StartupState::ReadingRestConfig, StartupEvent::RestConfigUnreadable) => (
            StartupState::Finished,
            StartupAction::Fail,
        ),
        (StartupState::ReadingConfig { rest_port }, StartupEvent::ConfigRead { connection_password }) => (
            StartupState::Connecting {
                share: ShareState { connection_password, rest_port, client_addr: addr },
            },
            StartupAction::Connect { host: addr.0, port: addr.1, password: connection_password },
        ),
        (StartupState::ReadingConfig { rest_port }, StartupEvent::ConfigUnreadable) => (
            StartupState::Finished,
            StartupAction::Abort,
        ),
        (StartupState::Connecting { share }, StartupEvent::Connected) => (
            StartupState::PreparingSystemDb { share },
            StartupAction::PrepareSystemDb,
        ),
        (StartupState::Connecting { share }, StartupEvent::ConnectionFailed) => (
            StartupState::Finished,
            StartupAction::Abort,
        ),
        (StartupState::PreparingSystemDb { share }, StartupEvent::SystemDbReady) => (
            StartupState::Finished,
            StartupAction::Serve { share, timeout_secs: REQUEST_TIMEOUT_SECS },
        ),
        (StartupState::PreparingSystemDb { share }, StartupEvent::SystemDbFailed) => (
            StartupState::Finished,
            StartupAction::Abort,
        ),
        (state, _) => (state, StartupAction::Nothing),
    }
}

/// One step of bringing the web service up: given how far startup has come and what the
/// embedding program reports, says what it is to do next.
///
/// The settings of the web service are read first. Where they switch the service off,
/// startup ends at once and nothing else is touched. Otherwise the store's settings are
/// read, a connection to the store at `addr` is opened with the password found there, the
/// accounts namespace is prepared over it, and only then the routes are served. A store
/// that cannot be read, reached or prepared ends the program; settings of the web service
/// that cannot be read are an error for the caller.
pub fn startup(
    addr: &(String, u16),
    state: StartupState,
    event: StartupEvent,
) -> (next: (StartupState, StartupAction))
    ensures
        next == startup_step(*addr, state, event),
{
    match (state, event) {
        (StartupState::Fresh, StartupEvent::Start) => (
            StartupState::ReadingRestConfig,
            StartupAction::ReadRestConfig,
        ),
        (StartupState::ReadingRestConfig, StartupEvent::RestConfigRead { switch, rest_port }) => {
            if switch {
                (StartupState::ReadingConfig { rest_port }, StartupAction::ReadConfig)
            } else {
                (StartupState::Finished, StartupAction::Stop)
            }
        },
        (StartupState::ReadingRestConfig, StartupEvent::RestConfigUnreadable) => (
            StartupState::Finished,
            StartupAction::Fail,
        ),
        (StartupState::ReadingConfig { rest_port }, StartupEvent::ConfigRead { connection_password }) => {
            let password = connection_password.clone();
            let share = ShareState {
                connection_password,
                rest_port,
                client_addr: (addr.0.clone(), addr.1),
            };
            (
                StartupState::Connecting { share },
                StartupAction::Connect { host: addr.0.clone(), port: addr.1, password },
            )
        },
        (StartupState::ReadingConfig { rest_port }, StartupEvent::ConfigUnreadable) => (
            StartupState::Finished,
            StartupAction::Abort,
        ),
        (StartupState::Connecting { share }, StartupEvent::Connected) => (
            StartupState::PreparingSystemDb { share },
            StartupAction::PrepareSystemDb,
        ),
        (StartupState::Connecting { share }, StartupEvent::ConnectionFailed) => (
            StartupState::Finished,
            StartupAction::Abort,
        ),
        (StartupState::PreparingSystemDb { share }, StartupEvent::SystemDbReady) => (
            StartupState::Finished,
            StartupAction::Serve { share, timeout_secs: REQUEST_TIMEOUT_SECS },
        ),
        (StartupState::PreparingSystemDb { share }, StartupEvent::SystemDbFailed) => (
            StartupState::Finished,
            StartupAction::Abort,
        ),
        (state, _) => (state, StartupAction::Nothing),
    }
}

/// The service is switched off by its own settings: then startup ends at once, and
/// nothing is read, contacted or served.
pub proof fn law_switched_off_service_stops(addr: (String, u16), rest_port: u16)
    ensures
        startup_step(
            addr,
            StartupState::ReadingRestConfig,
            StartupEvent::RestConfigRead { switch: false, rest_port },
        ) == (StartupState::Finished, StartupAction::Stop),
{
}

/// The routes are served only once the accounts namespace has been prepared, always with
/// the same time limit, and on the port that the settings gave.
pub proof fn law_serving_follows_preparation(addr: (String, u16), state: StartupState, event: StartupEvent)
    requires
        startup_step(addr, state, event).1 is Serve,
    ensures
        state is PreparingSystemDb,
        event is SystemDbReady,
        startup_step(addr, state, event).0 is Finished,
        startup_step(addr, state, event).1 == (StartupAction::Serve {
            share: state->PreparingSystemDb_share,
            timeout_secs: REQUEST_TIMEOUT_SECS,
        }),
{
}

/// Once startup is over, no event starts anything again.
pub proof fn law_finished_startup_stays_finished(addr: (String, u16), event: StartupEvent)
    ensures
        startup_step(addr, StartupState::Finished, event) == (
            StartupState::Finished,
            StartupAction::Nothing,
        ),
{
}

/// Who answers the requests of a route.
#[derive(Debug, Clone, Copy, PartialEq, Eq, Structural)]
pub enum Handler {
    /// Says that the service is there.
    Index,
    /// Logs the caller in.
    Auth,
    /// Answers a ping.
    Ping,
    /// Carries out the operation named in the path on the namespace named in the path.
    Controller,
}

/// One route of the web service.
#[derive(Debug, PartialEq)]
pub struct Route {
    /// The path, in which a segment that starts with a colon stands for any text.
    pub path: String,
    /// Whether the route takes `GET` requests.
    pub get: bool,
    /// Whether the route takes `POST` requests.
    pub post: bool,
    pub handler: Handler,
}

/// What a [`Route`] stands for.
pub struct RouteModel {
    pub path: Seq<char>,
    pub get: bool,
    pub post: bool,
    pub handler: Handler,
}

impl View for Route {
    type V = RouteModel;

    open spec fn view(&self) -> RouteModel {
        RouteModel { path: self.path@, get: self.get, post: self.post, handler: self.handler }
    }
}

/// The routes of the web service.
pub open spec fn route_table() -> Seq<RouteModel> {
    seq![
        RouteModel { path: "/"@, get: true, post: true, handler: Handler::Index },
        RouteModel { path: "/auth"@, get: false, post: true, handler: Handler::Auth },
        RouteModel { path: "/ping"@, get: false, post: true, handler: Handler::Ping },
        RouteModel { path: "/:group/:operation"@, get: false, post: true, handler: Handler::Controller },
    ]
}

/// The routes of the web service, in the order in which they are registered: the index
/// under `GET` and `POST`, everything else under `POST` alone.
pub fn routes() -> (routes: Vec<Route>)
    ensures
        routes@.len() == route_table().len(),
        forall|i: int| 0 <= i < routes@.len() ==> (#[trigger] routes@[i])@ == route_table()[i],
{
    let mut routes: Vec<Route> = Vec::new();
    routes.push(Route { path: "/".to_owned(), get: true, post: true, handler: Handler::Index });
    routes.push(Route { path: "/auth".to_owned(), get: false, post: true, handler: Handler::Auth });
    routes.push(Route { path: "/ping".to_owned(), get: false, post: true, handler: Handler::Ping });
    routes.push(
        Route {
            path: "/:group/:operation".to_owned(),
            get: false,
            post: true,
            handler: Handler::Controller,
        },
    );
    routes
}

/// The command that a request to the controller route stands for, by the operation that
/// its path names: `get`, `setex`, `del` or `exists`. Any other name stands for none.
pub open spec fn operation_model(
    operation: Seq<char>,
    key: Seq<char>,
    value: HostModel,
    ttl_seconds: u64,
) -> Option<CommandModel> {
    if operation == "get"@ {
        Some(CommandModel::Get(key))
    } else if operation == "setex"@ {
        Some(CommandModel::SetEx { key, value, ttl_seconds })
    } else if operation == "del"@ {
        Some(CommandModel::Del(key))
    } else if operation == "exists"@ {
        Some(CommandModel::Exists(key))
    } else {
        None
    }
}

/// What an optional command stands for.
pub open spec fn optional_command_model(command: Option<Command>) -> Option<CommandModel> {
    match command {
        Some(c) => Some(c@),
        None => None,
    }
}

/// Turns a request to the controller route into the one command that it stands for.
/// `key`, `value` and `ttl_seconds` go into the command as far as it has a place for
/// them. The namespace that the path names is selected by a command of its own, which
/// the caller sends first.
pub fn operation_command(
    operation: &str,
    key: String,
    value: HostValue,
    ttl_seconds: u64,
) -> (command: Option<Command>)
    ensures
        optional_command_model(command) == operation_model(operation@, key@, value@, ttl_seconds),
{
    let operation = operation.to_owned();
    if operation == "get".to_owned() {
        Some(Command::Get(key))
    } else if operation == "setex".to_owned() {
        Some(Command::SetEx { key, value, ttl_seconds })
    } else if operation == "del".to_owned() {
        Some(Command::Del(key))
    } else if operation == "exists".to_owned() {
        Some(Command::Exists(key))
    } else {
        None
    }
}

/// The answer to a request that failed: its status and its text.
pub open spec fn failure_reply(timed_out: bool, detail: Seq<char>) -> (u16, Seq<char>) {
    if timed_out {
        (STATUS_REQUEST_TIMEOUT, "Request took too long"@)
    } else {
        (STATUS_INTERNAL_SERVER_ERROR, "Unhandled internal error: "@ + detail)
    }
}

/// Answers a request that failed. One that ran out of time is told so, with its own
/// status; any other failure is an internal error whose text ends with `detail`. Every
/// failure gets an answer.
pub fn error_reply(timed_out: bool, detail: &str) -> (reply: (u16, String))
    ensures
        (reply.0, reply.1@) == failure_reply(timed_out, detail@),
{
    if timed_out {
        (STATUS_REQUEST_TIMEOUT, "Request took too long".to_owned())
    } else {
        let mut text = "Unhandled internal error: ".to_owned();
        text.append(detail);
        (STATUS_INTERNAL_SERVER_ERROR, text)
    }
}

/// The namespace that the web service keeps its own data in.
pub const SYSTEM_NAMESPACE: &'static str = "system";

/// The key under which the web service keeps its accounts.
pub const ACCOUNTS_KEY: &'static str = "service@accounts";

/// How far [`init_service_system_db`] has come.
#[derive(Debug, Clone, Copy, PartialEq, Eq, Structural)]
pub enum SystemDbState {
    /// Nothing has been sent yet.
    Fresh,
    /// `SELECT` has been sent.
    Selecting,
    /// `GET` has been sent.
    Probing,
    /// `SETEX` has been sent.
    Writing,
    /// There is nothing more to send.
    Finished,
}

/// What the embedding program reports back to [`init_service_system_db`].
#[derive(Debug, PartialEq)]
pub enum SystemDbEvent {
    Start,
    /// The store's answer to the command that was sent last.
    Answer(Result<Reply, StoreError>),
}

/// What [`init_service_system_db`] asks the embedding program to do.
#[derive(Debug, PartialEq)]
pub enum SystemDbAction {
    /// Send this command to the store and come back with the answer.
    Send(Command),
    /// The work is over, with this result.
    Finish(Result<(), StoreError>),
    /// The event was not waited for: do nothing.
    Nothing,
}

/// What a [`SystemDbAction`] stands for.
pub enum SystemDbActionModel {
    Send(CommandModel),
    Finish(Result<(), StoreError>),
    Nothing,
}

impl View for SystemDbAction {
    type V = SystemDbActionModel;

    open spec fn view(&self) -> SystemDbActionModel {
        match *self {
            SystemDbAction::Send(command) => SystemDbActionModel::Send(command@),
            SystemDbAction::Finish(result) => SystemDbActionModel::Finish(result),
            SystemDbAction::Nothing => SystemDbActionModel::Nothing,
        }
    }
}

/// The store has answered a `GET` with a value that is there.
pub open spec fn found_something(answer: Result<Reply, StoreError>) -> bool {
    answer matches Ok(Reply::Value(_))
}

/// The transition that [`init_service_system_db`] makes.
pub open spec fn system_db_step(state: SystemDbState, event: SystemDbEvent) -> (
    SystemDbState,
    SystemDbActionModel,
) {
    match (state, event) {
        (SystemDbState::Fresh, SystemDbEvent::Start) => (
            SystemDbState::Selecting,
            SystemDbActionModel::Send(CommandModel::Select(SYSTEM_NAMESPACE@)),
        ),
        (SystemDbState::Selecting, SystemDbEvent::Answer(Ok(_))) => (
            SystemDbState::Probing,
            SystemDbActionModel::Send(CommandModel::Get(ACCOUNTS_KEY@)),
        ),
        (SystemDbState::Selecting, SystemDbEvent::Answer(Err(error))) => (
            SystemDbState::Finished,
            SystemDbActionModel::Finish(Err(error)),
        ),
        (SystemDbState::Probing, SystemDbEvent::Answer(answer)) => if found_something(answer) {
            (SystemDbState::Finished, SystemDbActionModel::Finish(Ok(())))
        } else {
            (
                SystemDbState::Writing,
                SystemDbActionModel::Send(
                    CommandModel::SetEx {
                        key: ACCOUNTS_KEY@,
                        value: HostModel::Table(Map::empty()),
                        ttl_seconds: 0,
                    },
                ),
            )
        },
        (SystemDbState::Writing, SystemDbEvent::Answer(_)) => (
            SystemDbState::Finished,
            SystemDbActionModel::Finish(Ok(())),
        ),
        _ => (state, SystemDbActionModel::Nothing),
    }
}

/// One step of preparing the namespace that the web service keeps its accounts in.
///
/// The service selects the namespace [`SYSTEM_NAMESPACE`]; where that fails, so does the
/// preparation, with the same error. It then asks for [`ACCOUNTS_KEY`]. Where a value is
/// there it is left alone. Where none is, or the question itself failed, an empty table
/// that never expires is written under the key, and whatever the answer to that, the
/// preparation has succeeded.
pub fn init_service_system_db(
    state: SystemDbState,
    event: SystemDbEvent,
) -> (next: (SystemDbState, SystemDbAction))
    ensures
        (next.0, next.1@) == system_db_step(state, event),
{
    match (state, event) {
        (SystemDbState::Fresh, SystemDbEvent::Start) => (
            SystemDbState::Selecting,
            SystemDbAction::Send(Command::Select(SYSTEM_NAMESPACE.to_owned())),
        ),
        (SystemDbState::Selecting, SystemDbEvent::Answer(Ok(_))) => (
            SystemDbState::Probing,
            SystemDbAction::Send(Command::Get(ACCOUNTS_KEY.to_owned())),
        ),
        (SystemDbState::Selecting, SystemDbEvent::Answer(Err(error))) => (
            SystemDbState::Finished,
            SystemDbAction::Finish(Err(error)),
        ),
        (SystemDbState::Probing, SystemDbEvent::Answer(answer)) => {
            let found = match answer {
                Ok(Reply::Value(_)) => true,
                _ => false,
            };
            if found {
                (SystemDbState::Finished, SystemDbAction::Finish(Ok(())))
            } else {
                let value = HostValue::Table(Vec::new());
                proof {
                    assert(host_field_pairs(Seq::<HostField>::empty()) =~= Seq::empty());
                    assert(value@ == HostModel::Table(Map::empty()));
                }
                (
                    SystemDbState::Writing,
                    SystemDbAction::Send(
                        Command::SetEx { key: ACCOUNTS_KEY.to_owned(), value, ttl_seconds: 0 },
                    ),
                )
            }
        },
        (SystemDbState::Writing, SystemDbEvent::Answer(_)) => (
            SystemDbState::Finished,
            SystemDbAction::Finish(Ok(())),
        ),
        (state, _) => (state, SystemDbAction::Nothing),
    }
}

/// What the preparation leaves behind. Against a session that is logged in, whatever the
/// store held before: once the three commands have been answered as the store answers
/// them, the accounts key is there, in the system namespace. A value that was there
/// before, a stored null too, is still the one that is there: the key is written
/// exactly if it had no value.
pub proof fn law_prepared_system_db_has_accounts(
    session: SessionModel,
    spaces: Namespaces,
    password: Seq<char>,
    select: Command,
    get: Command,
    setex: Command,
    answer_to_get: Result<Reply, StoreError>,
    now: u64,
)
    requires
        !(session is Unauthenticated),
        select@ == CommandModel::Select(SYSTEM_NAMESPACE@),
        get@ == CommandModel::Get(ACCOUNTS_KEY@),
        setex@ == (CommandModel::SetEx {
            key: ACCOUNTS_KEY@,
            value: HostModel::Table(Map::empty()),
            ttl_seconds: 0,
        }),
        setex is SetEx ==> setex->SetEx_value.convertible(),
        answer_model(answer_to_get) == step(
            step(session, spaces, password, select, now).session,
            step(session, spaces, password, select, now).spaces,
            password,
            get,
            now,
        ).answer,
    ensures
        ({
            let selected = step(session, spaces, password, select, now);
            let probed = step(selected.session, selected.spaces, password, get, now);
            let written = step(probed.session, probed.spaces, password, setex, now);
            let next = system_db_step(SystemDbState::Probing, SystemDbEvent::Answer(answer_to_get));
            &&& selected.answer is Ok
            &&& probed.answer is Ok
            &&& next.0 == SystemDbState::Finished <==> is_live(
                selected.spaces[SYSTEM_NAMESPACE@],
                ACCOUNTS_KEY@,
                now,
            )
            &&& next.0 == SystemDbState::Finished ==> {
                &&& is_live(probed.spaces[SYSTEM_NAMESPACE@], ACCOUNTS_KEY@, now)
                &&& probed.spaces[SYSTEM_NAMESPACE@] == selected.spaces[SYSTEM_NAMESPACE@]
            }
            &&& next.0 != SystemDbState::Finished ==> {
                &&& next.1 == SystemDbActionModel::Send(setex@)
                &&& written.answer is Ok
                &&& forall|later: u64| is_live(written.spaces[SYSTEM_NAMESPACE@], ACCOUNTS_KEY@, later)
            }
        }),
{
}

} // verus!
