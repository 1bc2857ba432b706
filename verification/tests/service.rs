use dorea::error::StoreError;
use dorea::host::HostValue;
use dorea::manager::StoreManager;
use dorea::plugin::db::PluginDbManager;
use dorea::protocol::{Command, Reply, Session};
use dorea::service::{
    error_reply, init_service_system_db, operation_command, routes, startup, Handler, ShareState, StartupAction, StartupEvent,
    StartupState, SystemDbAction, SystemDbEvent, SystemDbState,
};

fn addr() -> (String, u16) {
    ("127.0.0.1".to_string(), 3450)
}

fn share() -> ShareState {
    ShareState { connection_password: "secret".to_string(), rest_port: 3451, client_addr: addr() }
}

#[test]
fn startup_reads_the_rest_settings_first() {
    assert_eq!(
        startup(&addr(), StartupState::Fresh, StartupEvent::Start),
        (StartupState::ReadingRestConfig, StartupAction::ReadRestConfig)
    );
}

#[test]
fn switched_off_service_starts_nothing() {
    assert_eq!(
        startup(
            &addr(),
            StartupState::ReadingRestConfig,
            StartupEvent::RestConfigRead { switch: false, rest_port: 3451 }
        ),
        (StartupState::Finished, StartupAction::Stop)
    );
}

#[test]
fn unreadable_rest_settings_are_the_callers_error() {
    assert_eq!(
        startup(&addr(), StartupState::ReadingRestConfig, StartupEvent::RestConfigUnreadable),
        (StartupState::Finished, StartupAction::Fail)
    );
}

#[test]
fn startup_runs_through_to_serving() {
    let (state, action) = startup(
        &addr(),
        StartupState::ReadingRestConfig,
        StartupEvent::RestConfigRead { switch: true, rest_port: 3451 },
    );
    assert_eq!(action, StartupAction::ReadConfig);
    assert_eq!(state, StartupState::ReadingConfig { rest_port: 3451 });

    let (state, action) =
        startup(&addr(), state, StartupEvent::ConfigRead { connection_password: "secret".to_string() });
    assert_eq!(
        action,
        StartupAction::Connect { host: "127.0.0.1".to_string(), port: 3450, password: "secret".to_string() }
    );
    assert_eq!(state, StartupState::Connecting { share: share() });

    let (state, action) = startup(&addr(), state, StartupEvent::Connected);
    assert_eq!(action, StartupAction::PrepareSystemDb);
    assert_eq!(state, StartupState::PreparingSystemDb { share: share() });

    let (state, action) = startup(&addr(), state, StartupEvent::SystemDbReady);
    assert_eq!(action, StartupAction::Serve { share: share(), timeout_secs: 30 });
    assert_eq!(state, StartupState::Finished);

    assert_eq!(
        startup(&addr(), state, StartupEvent::Start),
        (StartupState::Finished, StartupAction::Nothing)
    );
}

#[test]
fn a_store_that_cannot_be_used_ends_the_program() {
    assert_eq!(
        startup(&addr(), StartupState::ReadingConfig { rest_port: 1 }, StartupEvent::ConfigUnreadable),
        (StartupState::Finished, StartupAction::Abort)
    );
    assert_eq!(
        startup(&addr(), StartupState::Connecting { share: share() }, StartupEvent::ConnectionFailed),
        (StartupState::Finished, StartupAction::Abort)
    );
    assert_eq!(
        startup(&addr(), StartupState::PreparingSystemDb { share: share() }, StartupEvent::SystemDbFailed),
        (StartupState::Finished, StartupAction::Abort)
    );
}

#[test]
fn an_event_that_is_not_waited_for_is_ignored() {
    assert_eq!(
        startup(&addr(), StartupState::Fresh, StartupEvent::Connected),
        (StartupState::Fresh, StartupAction::Nothing)
    );
    assert_eq!(
        startup(&addr(), StartupState::Connecting { share: share() }, StartupEvent::SystemDbReady),
        (StartupState::Connecting { share: share() }, StartupAction::Nothing)
    );
}

#[test]
fn request_timeout_is_thirty_seconds() {
    assert_eq!(dorea::service::REQUEST_TIMEOUT_SECS, 30);
}

#[test]
fn route_table_is_complete() {
    let table = routes();
    assert_eq!(table.len(), 4);
    assert_eq!((table[0].path.as_str(), table[0].get, table[0].post, table[0].handler), ("/", true, true, Handler::Index));
    assert_eq!(
        (table[1].path.as_str(), table[1].get, table[1].post, table[1].handler),
        ("/auth", false, true, Handler::Auth)
    );
    assert_eq!(
        (table[2].path.as_str(), table[2].get, table[2].post, table[2].handler),
        ("/ping", false, true, Handler::Ping)
    );
    assert_eq!(
        (table[3].path.as_str(), table[3].get, table[3].post, table[3].handler),
        ("/:group/:operation", false, true, Handler::Controller)
    );
}

#[test]
fn timeout_gets_its_own_answer() {
    assert_eq!(error_reply(true, "ignored"), (408, "Request took too long".to_string()));
}

#[test]
fn other_failures_are_internal_errors_with_their_text() {
    assert_eq!(error_reply(false, "boom"), (500, "Unhandled internal error: boom".to_string()));
    assert_eq!(error_reply(false, ""), (500, "Unhandled internal error: ".to_string()));
}

#[test]
fn preparation_selects_probes_and_writes() {
    let (state, action) = init_service_system_db(SystemDbState::Fresh, SystemDbEvent::Start);
    assert_eq!(state, SystemDbState::Selecting);
    assert_eq!(action, SystemDbAction::Send(Command::Select("system".to_string())));

    let (state, action) = init_service_system_db(state, SystemDbEvent::Answer(Ok(Reply::Done)));
    assert_eq!(state, SystemDbState::Probing);
    assert_eq!(action, SystemDbAction::Send(Command::Get("service@accounts".to_string())));

    let (state, action) =
        init_service_system_db(state, SystemDbEvent::Answer(Ok(Reply::Absent)));
    assert_eq!(state, SystemDbState::Writing);
    assert_eq!(
        action,
        SystemDbAction::Send(Command::SetEx {
            key: "service@accounts".to_string(),
            value: HostValue::Table(Vec::new()),
            ttl_seconds: 0,
        })
    );

    let (state, action) = init_service_system_db(state, SystemDbEvent::Answer(Ok(Reply::Done)));
    assert_eq!(state, SystemDbState::Finished);
    assert_eq!(action, SystemDbAction::Finish(Ok(())));
}

#[test]
fn preparation_leaves_existing_accounts_alone() {
    let found = Ok(Reply::Value(HostValue::Table(Vec::new())));
    assert_eq!(
        init_service_system_db(SystemDbState::Probing, SystemDbEvent::Answer(found)),
        (SystemDbState::Finished, SystemDbAction::Finish(Ok(())))
    );
}

#[test]
fn preparation_fails_where_select_fails() {
    assert_eq!(
        init_service_system_db(
            SystemDbState::Selecting,
            SystemDbEvent::Answer(Err(StoreError::AuthenticationFailure))
        ),
        (SystemDbState::Finished, SystemDbAction::Finish(Err(StoreError::AuthenticationFailure)))
    );
}

#[test]
fn preparation_writes_where_the_probe_failed() {
    let (state, action) = init_service_system_db(
        SystemDbState::Probing,
        SystemDbEvent::Answer(Err(StoreError::StorageIOFailure)),
    );
    assert_eq!(state, SystemDbState::Writing);
    assert!(matches!(action, SystemDbAction::Send(Command::SetEx { .. })));
}

#[test]
fn preparation_succeeds_whatever_the_answer_to_the_write() {
    assert_eq!(
        init_service_system_db(
            SystemDbState::Writing,
            SystemDbEvent::Answer(Err(StoreError::StorageIOFailure))
        ),
        (SystemDbState::Finished, SystemDbAction::Finish(Ok(())))
    );
}

#[test]
fn preparation_ignores_what_it_does_not_wait_for() {
    assert_eq!(
        init_service_system_db(SystemDbState::Finished, SystemDbEvent::Start),
        (SystemDbState::Finished, SystemDbAction::Nothing)
    );
    assert_eq!(
        init_service_system_db(SystemDbState::Fresh, SystemDbEvent::Answer(Ok(Reply::Pong))),
        (SystemDbState::Fresh, SystemDbAction::Nothing)
    );
}

#[test]
fn preparation_leaves_a_stored_null_alone() {
    let found = Ok(Reply::Value(HostValue::Nil));
    assert_eq!(
        init_service_system_db(SystemDbState::Probing, SystemDbEvent::Answer(found)),
        (SystemDbState::Finished, SystemDbAction::Finish(Ok(())))
    );
}

fn prepare(session: &mut Session, db: &mut PluginDbManager, now: u64) -> Result<(), StoreError> {
    let (mut state, mut action) = init_service_system_db(SystemDbState::Fresh, SystemDbEvent::Start);
    loop {
        match action {
            SystemDbAction::Send(command) => {
                let answer = session.execute(db, "secret", &command, now);
                let next = init_service_system_db(state, SystemDbEvent::Answer(answer));
                state = next.0;
                action = next.1;
            }
            SystemDbAction::Finish(result) => return result,
            SystemDbAction::Nothing => unreachable!(),
        }
    }
}

#[test]
fn preparation_against_a_store_creates_the_accounts_once() {
    let mut db = PluginDbManager::init(StoreManager::new());
    let mut session = Session::new();
    session.execute(&mut db, "secret", &Command::Auth("secret".to_string()), 0).unwrap();

    assert_eq!(prepare(&mut session, &mut db, 0), Ok(()));
    assert_eq!(session.selected(), Some(&"system".to_string()));
    assert_eq!(
        session.execute(&mut db, "secret", &Command::Get("service@accounts".to_string()), u64::MAX),
        Ok(Reply::Value(HostValue::Table(Vec::new())))
    );

    let accounts = HostValue::Text("kept".to_string());
    let write = Command::SetEx { key: "service@accounts".to_string(), value: accounts, ttl_seconds: 0 };
    session.execute(&mut db, "secret", &write, 1).unwrap();
    assert_eq!(prepare(&mut session, &mut db, 2), Ok(()));
    assert_eq!(
        session.execute(&mut db, "secret", &Command::Get("service@accounts".to_string()), 3),
        Ok(Reply::Value(HostValue::Text("kept".to_string())))
    );
}

#[test]
fn preparation_needs_a_login() {
    let mut db = PluginDbManager::init(StoreManager::new());
    let mut session = Session::new();
    assert_eq!(prepare(&mut session, &mut db, 0), Err(StoreError::AuthenticationFailure));
}

#[test]
fn controller_operations_become_commands() {
    let value = HostValue::Text("v".to_string());
    assert_eq!(
        operation_command("get", "k".to_string(), HostValue::Nil, 0),
        Some(Command::Get("k".to_string()))
    );
    assert_eq!(
        operation_command("setex", "k".to_string(), value, 5),
        Some(Command::SetEx { key: "k".to_string(), value: HostValue::Text("v".to_string()), ttl_seconds: 5 })
    );
    assert_eq!(
        operation_command("del", "k".to_string(), HostValue::Nil, 0),
        Some(Command::Del("k".to_string()))
    );
    assert_eq!(
        operation_command("exists", "k".to_string(), HostValue::Nil, 0),
        Some(Command::Exists("k".to_string()))
    );
    assert_eq!(operation_command("GET", "k".to_string(), HostValue::Nil, 0), None);
    assert_eq!(operation_command("", "k".to_string(), HostValue::Nil, 0), None);
    assert_eq!(operation_command("ping", "k".to_string(), HostValue::Nil, 0), None);
}
