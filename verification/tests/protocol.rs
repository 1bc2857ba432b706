use dorea::error::StoreError;
use dorea::host::{HostField, HostValue};
use dorea::manager::StoreManager;
use dorea::plugin::db::PluginDbManager;
use dorea::protocol::{settle, Command, Reply, Session};

const PASSWORD: &str = "secret";

fn store() -> PluginDbManager {
    PluginDbManager::init(StoreManager::new())
}

fn logged_in(db: &mut PluginDbManager) -> Session {
    let mut session = Session::new();
    assert_eq!(session.execute(db, PASSWORD, &Command::Auth(PASSWORD.to_string()), 0), Ok(Reply::Done));
    session
}

fn text(s: &str) -> HostValue {
    HostValue::Text(s.to_string())
}

fn setex(key: &str, value: HostValue, ttl_seconds: u64) -> Command {
    Command::SetEx { key: key.to_string(), value, ttl_seconds }
}

#[test]
fn get_before_select_on_a_fresh_session_is_refused() {
    let mut db = store();
    let mut session = Session::new();
    assert_eq!(
        session.execute(&mut db, PASSWORD, &Command::Get("k".to_string()), 0),
        Err(StoreError::NamespaceRequiredButUnselected)
    );
    assert!(!session.is_authenticated());
    assert_eq!(session.selected(), None);
}

#[test]
fn data_commands_before_select_are_refused_after_login_too() {
    let mut db = store();
    let mut session = logged_in(&mut db);
    let commands = vec![
        Command::Get("k".to_string()),
        setex("k", text("v"), 0),
        Command::Del("k".to_string()),
        Command::Exists("k".to_string()),
    ];
    for command in commands {
        assert_eq!(
            session.execute(&mut db, PASSWORD, &command, 0),
            Err(StoreError::NamespaceRequiredButUnselected)
        );
    }
    assert_eq!(session.selected(), None);
}

#[test]
fn select_set_get_expire() {
    let mut db = store();
    let mut session = logged_in(&mut db);
    assert_eq!(session.execute(&mut db, PASSWORD, &Command::Select("cache".to_string()), 0), Ok(Reply::Done));
    assert_eq!(session.execute(&mut db, PASSWORD, &setex("k", text("v"), 5), 100), Ok(Reply::Done));
    assert_eq!(
        session.execute(&mut db, PASSWORD, &Command::Get("k".to_string()), 100),
        Ok(Reply::Value(text("v")))
    );
    assert_eq!(
        session.execute(&mut db, PASSWORD, &Command::Get("k".to_string()), 106),
        Ok(Reply::Absent)
    );
    assert_eq!(
        session.execute(&mut db, PASSWORD, &Command::Exists("k".to_string()), 106),
        Ok(Reply::Flag(false))
    );
}

#[test]
fn wrong_password_is_reported_and_can_be_tried_again() {
    let mut db = store();
    let mut session = Session::new();
    assert_eq!(
        session.execute(&mut db, PASSWORD, &Command::Auth("guess".to_string()), 0),
        Err(StoreError::AuthenticationFailure)
    );
    assert!(!session.is_authenticated());
    assert_eq!(session.execute(&mut db, PASSWORD, &Command::Auth(PASSWORD.to_string()), 0), Ok(Reply::Done));
    assert!(session.is_authenticated());
}

#[test]
fn select_and_ping_need_a_login() {
    let mut db = store();
    let mut session = Session::new();
    assert_eq!(
        session.execute(&mut db, PASSWORD, &Command::Select("cache".to_string()), 0),
        Err(StoreError::AuthenticationFailure)
    );
    assert_eq!(session.execute(&mut db, PASSWORD, &Command::Ping, 0), Err(StoreError::AuthenticationFailure));
    assert_eq!(session.selected(), None);
}

#[test]
fn ping_answers_pong_and_keeps_the_selection() {
    let mut db = store();
    let mut session = logged_in(&mut db);
    assert_eq!(session.execute(&mut db, PASSWORD, &Command::Ping, 0), Ok(Reply::Pong));
    session.execute(&mut db, PASSWORD, &Command::Select("cache".to_string()), 0).unwrap();
    assert_eq!(session.execute(&mut db, PASSWORD, &Command::Ping, 0), Ok(Reply::Pong));
    assert_eq!(session.selected(), Some(&"cache".to_string()));
}

#[test]
fn selecting_again_changes_the_active_namespace() {
    let mut db = store();
    let mut session = logged_in(&mut db);
    session.execute(&mut db, PASSWORD, &Command::Select("one".to_string()), 0).unwrap();
    session.execute(&mut db, PASSWORD, &setex("k", text("in one"), 0), 0).unwrap();
    session.execute(&mut db, PASSWORD, &Command::Select("two".to_string()), 0).unwrap();
    assert_eq!(session.selected(), Some(&"two".to_string()));
    assert_eq!(
        session.execute(&mut db, PASSWORD, &Command::Get("k".to_string()), 0),
        Ok(Reply::Absent)
    );
    session.execute(&mut db, PASSWORD, &Command::Select("one".to_string()), 0).unwrap();
    assert_eq!(
        session.execute(&mut db, PASSWORD, &Command::Get("k".to_string()), 0),
        Ok(Reply::Value(text("in one")))
    );
}

#[test]
fn a_failed_auth_does_not_log_out() {
    let mut db = store();
    let mut session = logged_in(&mut db);
    session.execute(&mut db, PASSWORD, &Command::Select("cache".to_string()), 0).unwrap();
    assert_eq!(
        session.execute(&mut db, PASSWORD, &Command::Auth("guess".to_string()), 0),
        Err(StoreError::AuthenticationFailure)
    );
    assert!(session.is_authenticated());
    assert_eq!(session.selected(), Some(&"cache".to_string()));
}

#[test]
fn del_reports_whether_the_key_was_there() {
    let mut db = store();
    let mut session = logged_in(&mut db);
    session.execute(&mut db, PASSWORD, &Command::Select("cache".to_string()), 0).unwrap();
    session.execute(&mut db, PASSWORD, &setex("k", HostValue::Boolean(true), 5), 0).unwrap();
    assert_eq!(session.execute(&mut db, PASSWORD, &Command::Exists("k".to_string()), 5), Ok(Reply::Flag(true)));
    assert_eq!(session.execute(&mut db, PASSWORD, &Command::Del("k".to_string()), 5), Ok(Reply::Flag(true)));
    assert_eq!(session.execute(&mut db, PASSWORD, &Command::Del("k".to_string()), 5), Ok(Reply::Flag(false)));
}

#[test]
fn setex_of_a_value_that_cannot_be_stored_is_a_conversion_failure() {
    let mut db = store();
    let mut session = logged_in(&mut db);
    session.execute(&mut db, PASSWORD, &Command::Select("cache".to_string()), 0).unwrap();
    let value = HostValue::Table(vec![HostField { key: "raw".to_string(), value: HostValue::Bytes(vec![7]) }]);
    assert_eq!(
        session.execute(&mut db, PASSWORD, &setex("k", value, 0), 0),
        Err(StoreError::ValueConversionFailure)
    );
    assert_eq!(session.execute(&mut db, PASSWORD, &Command::Exists("k".to_string()), 0), Ok(Reply::Flag(false)));
}

#[test]
fn two_sessions_share_the_store_but_not_the_selection() {
    let mut db = store();
    let mut writer = logged_in(&mut db);
    let mut reader = logged_in(&mut db);
    writer.execute(&mut db, PASSWORD, &Command::Select("cache".to_string()), 0).unwrap();
    writer.execute(&mut db, PASSWORD, &setex("k", text("v"), 0), 0).unwrap();
    assert_eq!(
        reader.execute(&mut db, PASSWORD, &Command::Get("k".to_string()), 0),
        Err(StoreError::NamespaceRequiredButUnselected)
    );
    reader.execute(&mut db, PASSWORD, &Command::Select("cache".to_string()), 0).unwrap();
    assert_eq!(
        reader.execute(&mut db, PASSWORD, &Command::Get("k".to_string()), 0),
        Ok(Reply::Value(text("v")))
    );
}

#[test]
fn session_of_another_store_finds_no_namespace() {
    let mut db = store();
    let mut session = logged_in(&mut db);
    session.execute(&mut db, PASSWORD, &Command::Select("cache".to_string()), 0).unwrap();
    let mut other = store();
    assert_eq!(
        session.execute(&mut other, PASSWORD, &Command::Get("k".to_string()), 0),
        Err(StoreError::NamespaceRequiredButUnselected)
    );
    assert_eq!(
        session.execute(&mut other, PASSWORD, &setex("k", text("v"), 0), 0),
        Err(StoreError::NamespaceRequiredButUnselected)
    );
}

#[test]
fn a_storage_fault_replaces_the_answer() {
    assert_eq!(settle(Ok(Reply::Done), true), Err(StoreError::StorageIOFailure));
    assert_eq!(settle(Err(StoreError::AuthenticationFailure), true), Err(StoreError::StorageIOFailure));
    assert_eq!(settle(Ok(Reply::Flag(true)), false), Ok(Reply::Flag(true)));
    assert_eq!(
        settle(Err(StoreError::NamespaceRequiredButUnselected), false),
        Err(StoreError::NamespaceRequiredButUnselected)
    );
}

#[test]
fn get_tells_a_stored_null_from_no_value() {
    let mut db = store();
    let mut session = logged_in(&mut db);
    session.execute(&mut db, PASSWORD, &Command::Select("cache".to_string()), 0).unwrap();
    session.execute(&mut db, PASSWORD, &setex("null", HostValue::Nil, 0), 0).unwrap();
    assert_eq!(
        session.execute(&mut db, PASSWORD, &Command::Get("null".to_string()), 0),
        Ok(Reply::Value(HostValue::Nil))
    );
    assert_eq!(session.execute(&mut db, PASSWORD, &Command::Get("none".to_string()), 0), Ok(Reply::Absent));
}
