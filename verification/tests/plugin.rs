use dorea::error::StoreError;
use dorea::host::{HostField, HostValue};
use dorea::plugin::chunk::{call_chunk, lua_string, lua_table};
use dorea::plugin::{runtime_result, LoadStep, PluginManager};

fn strings(items: &[&str]) -> Vec<String> {
    items.iter().map(|s| s.to_string()).collect()
}

fn available() -> PluginManager {
    PluginManager::init("plugins".to_string(), Vec::new(), true, true)
}

fn unavailable() -> PluginManager {
    PluginManager::init("plugins".to_string(), Vec::new(), false, false)
}

#[test]
fn sandbox_needs_the_directory_and_the_entry_point() {
    assert!(PluginManager::init("p".to_string(), Vec::new(), true, true).available());
    assert!(!PluginManager::init("p".to_string(), Vec::new(), true, false).available());
    assert!(!PluginManager::init("p".to_string(), Vec::new(), false, true).available());
    assert!(!PluginManager::init("p".to_string(), Vec::new(), false, false).available());
}

#[test]
fn init_keeps_path_and_settings() {
    let loader = vec![HostField { key: "name".to_string(), value: HostValue::Text("demo".to_string()) }];
    let manager = PluginManager::init("plugins".to_string(), loader, true, true);
    assert_eq!(manager.plugin_path(), "plugins");
    assert_eq!(
        manager.loader(),
        &vec![HostField { key: "name".to_string(), value: HostValue::Text("demo".to_string()) }]
    );
}

#[test]
fn loading_binds_the_globals_then_runs_the_script_then_its_hook() {
    assert_eq!(
        available().loading(),
        vec![
            LoadStep::BindRootPath,
            LoadStep::BindGateway,
            LoadStep::BindLogger,
            LoadStep::BindLoader,
            LoadStep::RunEntryPoint,
            LoadStep::RunOnLoad,
        ]
    );
}

#[test]
fn loading_an_unavailable_sandbox_does_nothing() {
    assert_eq!(unavailable().loading(), Vec::new());
}

#[test]
fn call_runs_the_source_only_where_the_sandbox_is_available() {
    assert_eq!(available().call("print(1)"), Some("print(1)"));
    assert_eq!(unavailable().call("print(1)"), None);
}

#[test]
fn names_that_scripts_rely_on() {
    assert_eq!(dorea::plugin::ENTRY_POINT, "init.lua");
    assert_eq!(dorea::plugin::ON_LOAD, "MANAGER.call_onload()");
    assert_eq!(dorea::plugin::ROOT_PATH, "ROOT_PATH");
    assert_eq!(dorea::plugin::DB_MANAGER, "DB_MANAGER");
    assert_eq!(dorea::plugin::LOGGER_IN, "LOGGER_IN");
    assert_eq!(dorea::plugin::PLUGIN_LOADER, "PLUGIN_LOADER");
}

#[test]
fn lua_string_quotes() {
    assert_eq!(lua_string(""), "\"\"");
    assert_eq!(lua_string("a"), "\"a\"");
    assert_eq!(lua_string("x y é"), "\"x y é\"");
}

#[test]
fn lua_string_escapes_quote_backslash_and_line_breaks() {
    assert_eq!(lua_string("say \"hi\""), "\"say \\\"hi\\\"\"");
    assert_eq!(lua_string("back\\slash"), "\"back\\\\slash\"");
    assert_eq!(lua_string("line\nbreak"), "\"line\\nbreak\"");
    assert_eq!(lua_string("carriage\rreturn"), "\"carriage\\rreturn\"");
    assert_eq!(lua_string("\\\""), "\"\\\\\\\"\"");
    assert_eq!(lua_string("tab\tstays"), "\"tab\tstays\"");
}

#[test]
fn lua_string_keeps_script_text_inside_the_literal() {
    assert_eq!(lua_string("\") os.exit() --"), "\"\\\") os.exit() --\"");
    assert_eq!(lua_string("x\\"), "\"x\\\\\"");
}

#[test]
fn lua_table_quotes_and_separates() {
    assert_eq!(lua_table(&strings(&[])), "{}");
    assert_eq!(lua_table(&strings(&["a"])), "{\"a\"}");
    assert_eq!(lua_table(&strings(&["a", "b"])), "{\"a\", \"b\"}");
    assert_eq!(lua_table(&strings(&["", "x y", "é"])), "{\"\", \"x y\", \"é\"}");
    assert_eq!(lua_table(&strings(&["\"", "\\"])), "{\"\\\"\", \"\\\\\"}");
}

#[test]
fn call_chunk_hands_over_the_name_and_every_argument() {
    assert_eq!(call_chunk("stats", &strings(&[])), "MANAGER.call_command(\"stats\", {})");
    assert_eq!(
        call_chunk("stats", &strings(&["stats", "a", "b"])),
        "MANAGER.call_command(\"stats\", {\"stats\", \"a\", \"b\"})"
    );
    assert_eq!(call_chunk("", &strings(&[""])), "MANAGER.call_command(\"\", {\"\"})");
}

#[test]
fn call_chunk_escapes_the_command_too() {
    assert_eq!(
        call_chunk("x\", {}) os.exit() --", &strings(&["a"])),
        "MANAGER.call_command(\"x\\\", {}) os.exit() --\", {\"a\"})"
    );
}

#[test]
fn custom_command_writes_the_call() {
    assert_eq!(
        available().custom_command("echo", strings(&["say \"hi\"", "b\\c"])),
        Some("MANAGER.call_command(\"echo\", {\"say \\\"hi\\\"\", \"b\\\\c\"})".to_string())
    );
}

#[test]
fn custom_command_takes_the_empty_list() {
    assert_eq!(
        available().custom_command("stats", Vec::new()),
        Some("MANAGER.call_command(\"stats\", {})".to_string())
    );
}

#[test]
fn custom_command_on_an_unavailable_sandbox_runs_nothing() {
    assert_eq!(unavailable().custom_command("stats", strings(&["a"])), None);
    assert_eq!(unavailable().custom_command("stats", Vec::new()), None);
}

#[test]
fn a_call_into_an_unavailable_sandbox_succeeds_without_a_result() {
    let sandbox = unavailable();
    assert_eq!(sandbox.outcome(None, String::new()), Ok(String::new()));
    assert_eq!(sandbox.outcome(Some("ignored".to_string()), String::new()), Ok(String::new()));
    assert_eq!(sandbox.outcome(None, ()), Ok(()));
}

#[test]
fn a_call_into_an_available_sandbox_gives_what_the_script_gave() {
    let sandbox = available();
    assert_eq!(sandbox.outcome(Some("text".to_string()), String::new()), Ok("text".to_string()));
    assert_eq!(sandbox.outcome(None, String::new()), Err(StoreError::ExtensionRuntimeFailure));
}

#[test]
fn require_available_reports_a_sandbox_that_is_off() {
    assert_eq!(available().require_available(), Ok(()));
    assert_eq!(unavailable().require_available(), Err(StoreError::ExtensionUnavailable));
}

#[test]
fn an_error_in_the_script_is_an_extension_failure() {
    assert_eq!(runtime_result(Some("text".to_string())), Ok("text".to_string()));
    assert_eq!(runtime_result::<String>(None), Err(StoreError::ExtensionRuntimeFailure));
    assert_eq!(runtime_result(Some(())), Ok(()));
}
