use openmcp::json::{JsonObject, JsonValue};
use openmcp::models::{HostOs, McpServer, TransportKind, WorkspaceProfile};
use openmcp::opencode::{
    apply, discover_installed_server_ids, install_servers, load_config, shape_config, uninstall_servers, ConfigAction,
    ConfigSource,
};

fn server(id: &str, enabled: bool) -> McpServer {
    McpServer {
        id: id.to_owned(),
        transport: TransportKind::Stdio,
        command: "node".to_owned(),
        args: vec![],
        cwd: String::new(),
        env: vec![],
        url: String::new(),
        notes: String::new(),
        enabled,
    }
}

fn profile(servers: Vec<McpServer>) -> WorkspaceProfile {
    let mut p = WorkspaceProfile::default_for(HostOs::Other);
    p.name = "Work".to_owned();
    p.servers = servers;
    p
}

fn text(s: &str) -> JsonValue {
    JsonValue::Text(s.to_owned())
}

fn object(entries: Vec<(&str, JsonValue)>) -> JsonValue {
    let mut o = JsonObject::new();
    for (k, v) in entries {
        o.insert(k.to_owned(), v);
    }
    JsonValue::Object(o)
}

fn file(raw: &str) -> Result<ConfigSource, String> {
    Ok(ConfigSource::Present { raw: raw.to_owned() })
}

fn keys(v: &JsonValue) -> Vec<String> {
    let mut k = v.as_object().expect("object").keys();
    k.sort();
    k
}

fn block(doc: &JsonValue) -> &JsonValue {
    doc.as_object().unwrap().get("mcpServers").unwrap()
}

fn ids(v: &[&str]) -> Vec<String> {
    v.iter().map(|s| s.to_string()).collect()
}

#[test]
fn load_config_bootstraps_missing_file() {
    let loaded = load_config(Ok(ConfigSource::Missing)).expect("missing config should bootstrap");
    assert_eq!(keys(&loaded), vec!["mcpServers"]);
    assert!(keys(block(&loaded)).is_empty());
}

#[test]
fn blank_file_bootstraps_too() {
    let loaded = load_config(file(" \n")).unwrap();
    assert_eq!(keys(&loaded), vec!["mcpServers"]);
}

#[test]
fn read_and_parse_errors_pass_through() {
    assert_eq!(load_config(Err("Refusing to follow symbolic links".to_owned())).unwrap_err(), "Refusing to follow symbolic links");
    assert_eq!(load_config(file("{")).unwrap_err(), "EOF while parsing an object at line 1 column 1");
    assert_eq!(load_config(file("{\"a\": }")).unwrap_err(), "expected value at line 1 column 7");
}

#[test]
fn parsed_outcome_is_shaped() {
    assert_eq!(shape_config(Err("bad".to_owned())).unwrap_err(), "bad");
    assert_eq!(shape_config(Ok(text("x"))).unwrap_err(), "OpenCode config should be a JSON object.");
    let shaped = shape_config(Ok(object(vec![("theme", text("dark"))]))).unwrap();
    assert_eq!(keys(&shaped), vec!["mcpServers", "theme"]);
}

#[test]
fn shape_errors() {
    assert_eq!(load_config(file("\"x\"")).unwrap_err(), "OpenCode config should be a JSON object.");
    assert_eq!(load_config(file("[1, 2]")).unwrap_err(), "OpenCode config should be a JSON object.");
    assert_eq!(
        load_config(file("{\"mcpServers\": []}")).unwrap_err(),
        "OpenCode config mcpServers key exists but is not an object."
    );
}

#[test]
fn missing_block_is_added_and_other_keys_kept() {
    let loaded = load_config(file("{\"theme\": \"dark\", \"size\": 12}")).unwrap();
    assert_eq!(keys(&loaded), vec!["mcpServers", "size", "theme"]);
    let root = loaded.as_object().unwrap();
    assert!(matches!(root.get("theme"), Some(JsonValue::Text(t)) if t == "dark"));
    assert!(matches!(root.get("size"), Some(JsonValue::Number(n)) if n == "12"));
}

#[test]
fn discovered_ids_are_sorted() {
    let doc = "{\"mcpServers\": {\"zeta\": {}, \"alpha\": {}, \"Mid\": {}}}";
    assert_eq!(discover_installed_server_ids(file(doc)).unwrap(), vec!["Mid", "alpha", "zeta"]);
    assert!(discover_installed_server_ids(Ok(ConfigSource::Missing)).unwrap().is_empty());
}

#[test]
fn install_writes_entries_and_reports() {
    let p = profile(vec![server("fs", true), server("git", false)]);
    let doc = "{\"theme\": \"dark\", \"mcpServers\": {\"other\": \"kept\"}}";
    let change = install_servers(&p, "/home/u/.config/opencode/config.json", &ids(&["fs", "git"]), true, file(doc)).unwrap();
    assert_eq!(change.message, "Installed 1 Work server(s) in /home/u/.config/opencode/config.json");
    assert_eq!(keys(&change.document), vec!["mcpServers", "theme"]);
    assert_eq!(keys(block(&change.document)), vec!["fs", "other"]);
}

#[test]
fn install_without_respecting_enabled_counts_disabled_servers() {
    let p = profile(vec![server("fs", true), server("git", false)]);
    let change = install_servers(&p, "cfg.json", &ids(&["fs", "git"]), false, Ok(ConfigSource::Missing)).unwrap();
    assert_eq!(change.message, "Installed 2 Work server(s) in cfg.json");
    assert_eq!(keys(block(&change.document)), vec!["fs", "git"]);
}

#[test]
fn requested_ids_are_trimmed() {
    let p = profile(vec![server("fs", true)]);
    let change = install_servers(&p, "c", &ids(&["  fs "]), true, Ok(ConfigSource::Missing)).unwrap();
    assert_eq!(keys(block(&change.document)), vec!["fs"]);
}

#[test]
fn install_errors() {
    let p = profile(vec![server("fs", false)]);
    assert_eq!(
        install_servers(&p, "c", &[], true, Ok(ConfigSource::Missing)).unwrap_err(),
        "No target server IDs were selected."
    );
    assert_eq!(
        install_servers(&p, "c", &ids(&["fs"]), true, Ok(ConfigSource::Missing)).unwrap_err(),
        "No matching enabled servers were found to install."
    );
    assert_eq!(
        install_servers(&p, "c", &ids(&["fs"]), false, Err("permission denied".to_owned())).unwrap_err(),
        "permission denied"
    );
}

#[test]
fn duplicate_servers_are_each_counted() {
    let p = profile(vec![server("fs", true), server("fs", true)]);
    let change = install_servers(&p, "c", &ids(&["fs"]), true, Ok(ConfigSource::Missing)).unwrap();
    assert_eq!(change.message, "Installed 2 Work server(s) in c");
    assert_eq!(keys(block(&change.document)), vec!["fs"]);
}

#[test]
fn uninstall_counts_distinct_present_ids() {
    let p = profile(vec![]);
    let doc = "{\"mcpServers\": {\"a\": {}, \"b\": {}, \"c\": {}}}";
    let change = uninstall_servers(&p, "cfg", &ids(&["a", " a", "b", "zz"]), file(doc)).unwrap();
    assert_eq!(change.message, "Uninstalled 2 Work server(s) in cfg");
    assert_eq!(keys(block(&change.document)), vec!["c"]);
}

#[test]
fn uninstall_of_absent_ids_fails() {
    let p = profile(vec![]);
    assert_eq!(
        uninstall_servers(&p, "cfg", &ids(&["a"]), Ok(ConfigSource::Missing)).unwrap_err(),
        "No matching server IDs were found to uninstall."
    );
}

#[test]
fn uninstall_undoes_install() {
    let p = profile(vec![server("fs", true)]);
    let doc = "{\"mcpServers\": {\"other\": \"kept\"}}";
    let installed = apply(&p, "c", &ids(&["fs"]), ConfigAction::Install, true, file(doc)).unwrap();
    let removed = apply(&p, "c", &ids(&["fs"]), ConfigAction::Uninstall, true, file(&installed.payload)).unwrap();
    assert_eq!(keys(block(&removed.document)), vec!["other"]);
    assert_eq!(removed.payload, "{\n  \"mcpServers\": {\n    \"other\": \"kept\"\n  }\n}");
    assert_eq!(
        apply(&p, "c", &ids(&["fs"]), ConfigAction::Uninstall, false, file(&removed.payload)).unwrap_err(),
        "No matching server IDs were found to uninstall."
    );
}

#[test]
fn installed_ids_are_found_again() {
    let p = profile(vec![server("web", true), server("db", true)]);
    let change = install_servers(&p, "c", &ids(&["web", "db"]), true, Ok(ConfigSource::Missing)).unwrap();
    let reloaded = load_config(file(&change.payload)).unwrap();
    assert_eq!(keys(&reloaded), vec!["mcpServers"]);
    assert_eq!(keys(block(&reloaded)), vec!["db", "web"]);
    assert_eq!(discover_installed_server_ids(file(&change.payload)).unwrap(), vec!["db", "web"]);
}

#[test]
fn numbers_are_written_back_as_read() {
    let p = profile(vec![server("fs", true)]);
    let doc = "{\"a\": 0.30000000000000004, \"b\": -0.0, \"c\": 1e300, \"d\": 18446744073709551615, \"e\": -9223372036854775808, \"f\": 2.2250738585072014e-308, \"g\": 1.7976931348623157e308, \"h\": 3}";
    let change = install_servers(&p, "c", &ids(&["fs"]), true, file(doc)).unwrap();
    for text in [
        "\"a\": 0.30000000000000004,",
        "\"b\": -0.0,",
        "\"c\": 1e+300,",
        "\"d\": 18446744073709551615,",
        "\"e\": -9223372036854775808,",
        "\"f\": 2.2250738585072014e-308,",
        "\"g\": 1.7976931348623157e+308,",
        "\"h\": 3,",
    ] {
        assert!(change.payload.contains(text), "{text} missing from {}", change.payload);
    }
}
