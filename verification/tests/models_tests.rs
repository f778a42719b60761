use openmcp::ui_text::UiText;
use openmcp::json::{JsonObject, JsonValue};
use openmcp::models::{
    default_opencode_path, AppLocale, AppState, HostOs, McpServer, ProfileScope, TransportKind,
    WorkspaceProfile,
};

fn text_of(v: &JsonValue) -> String {
    match v {
        JsonValue::Text(t) => t.clone(),
        other => panic!("expected text, got {:?}", other),
    }
}

fn object_of(v: &JsonValue) -> &JsonObject {
    v.as_object().expect("expected an object")
}

fn sorted_keys(o: &JsonObject) -> Vec<String> {
    let mut k = o.keys();
    k.sort();
    k
}

fn stdio_server(id: &str) -> McpServer {
    McpServer {
        id: id.to_owned(),
        transport: TransportKind::Stdio,
        command: "node".to_owned(),
        args: vec![],
        cwd: String::new(),
        env: vec![],
        url: String::new(),
        notes: String::new(),
        enabled: true,
    }
}

#[test]
fn scope_labels_and_hints_follow_locale() {
    assert_eq!(ProfileScope::Global.label(AppLocale::English), "Global");
    assert_eq!(ProfileScope::Project.label(AppLocale::English), "Project");
    assert_eq!(ProfileScope::Global.label(AppLocale::Korean), "전역");
    assert_eq!(ProfileScope::Project.label(AppLocale::Korean), "프로젝트");
    assert_eq!(
        ProfileScope::Global.hint(AppLocale::English),
        "Use this when the same MCP server should be available across all OpenCode workspaces."
    );
    assert_eq!(
        ProfileScope::Project.hint(AppLocale::Korean),
        "특정 저장소나 로컬 프로젝트에만 필요한 MCP 서버를 설정할 때 사용하세요."
    );
}

#[test]
fn transport_labels_are_the_same_in_every_locale() {
    for locale in [AppLocale::English, AppLocale::Korean] {
        assert_eq!(TransportKind::Stdio.label(locale), "stdio");
        assert_eq!(TransportKind::Sse.label(locale), "sse");
        assert_eq!(TransportKind::Http.label(locale), "http");
    }
}

#[test]
fn default_locale_is_english() {
    assert_eq!(AppLocale::default(), AppLocale::English);
    let state = AppState::default();
    assert!(state.profiles.is_empty());
    assert_eq!(state.selected_profile, 0);
    assert_eq!(state.locale, AppLocale::English);
}

#[test]
fn default_paths_per_os() {
    assert_eq!(default_opencode_path(HostOs::MacOs), "~/Library/Application Support/OpenCode/config.json");
    assert_eq!(default_opencode_path(HostOs::Windows), r"%APPDATA%\OpenCode\config.json");
    assert_eq!(default_opencode_path(HostOs::Other), "~/.config/opencode/config.json");
}

#[test]
fn default_server_and_profile() {
    let s = McpServer::default();
    assert_eq!(s.id, "filesystem");
    assert_eq!(s.transport, TransportKind::Stdio);
    assert_eq!(s.command, "npx");
    assert_eq!(s.args, vec!["-y", "@modelcontextprotocol/server-filesystem", "."]);
    assert_eq!(s.cwd, ".");
    assert_eq!(s.env, vec![("OPENAI_API_KEY".to_owned(), String::new())]);
    assert!(s.url.is_empty());
    assert!(s.enabled);
    let p = WorkspaceProfile::default_for(HostOs::Other);
    assert_eq!(p.name, "Default OpenCode Profile");
    assert_eq!(p.scope, ProfileScope::Project);
    assert_eq!(p.open_code_path, "~/.config/opencode/config.json");
    assert_eq!(p.servers.len(), 1);
    assert_eq!(p.servers[0].id, "filesystem");
}

#[test]
fn default_server_entry_has_every_field() {
    let v = McpServer::default().to_opencode_value();
    let o = object_of(&v);
    assert_eq!(sorted_keys(o), vec!["_notes", "args", "command", "cwd", "env", "transport"]);
    assert_eq!(text_of(o.get("transport").unwrap()), "stdio");
    assert_eq!(text_of(o.get("command").unwrap()), "npx");
    assert_eq!(text_of(o.get("cwd").unwrap()), ".");
    match o.get("args").unwrap() {
        JsonValue::Array(items) => {
            let texts: Vec<String> = items.iter().map(text_of).collect();
            assert_eq!(texts, vec!["-y", "@modelcontextprotocol/server-filesystem", "."]);
        }
        other => panic!("args should be an array, got {:?}", other),
    }
    let env = object_of(o.get("env").unwrap());
    assert_eq!(sorted_keys(env), vec!["OPENAI_API_KEY"]);
    assert_eq!(text_of(env.get("OPENAI_API_KEY").unwrap()), "");
}

#[test]
fn stdio_entry_leaves_out_empty_optional_fields() {
    let mut s = stdio_server("bare");
    s.cwd = "   ".to_owned();
    s.notes = "\t".to_owned();
    s.env = vec![(" ".to_owned(), "x".to_owned())];
    let v = s.to_opencode_value();
    let o = object_of(&v);
    assert_eq!(sorted_keys(o), vec!["command", "transport"]);
}

#[test]
fn stdio_entry_skips_blank_env_keys_and_later_value_wins() {
    let mut s = stdio_server("envs");
    s.env = vec![
        ("A".to_owned(), "1".to_owned()),
        ("".to_owned(), "ignored".to_owned()),
        ("A".to_owned(), "2".to_owned()),
    ];
    let v = s.to_opencode_value();
    let env = object_of(object_of(&v).get("env").unwrap());
    assert_eq!(sorted_keys(env), vec!["A"]);
    assert_eq!(text_of(env.get("A").unwrap()), "2");
}

#[test]
fn network_entries_always_carry_url_and_notes() {
    let mut s = stdio_server("remote");
    s.transport = TransportKind::Sse;
    s.url = "https://example.com/mcp".to_owned();
    let v = s.to_opencode_value();
    let o = object_of(&v);
    assert_eq!(sorted_keys(o), vec!["_notes", "transport", "url"]);
    assert_eq!(text_of(o.get("transport").unwrap()), "sse");
    assert_eq!(text_of(o.get("url").unwrap()), "https://example.com/mcp");
    assert_eq!(text_of(o.get("_notes").unwrap()), "");
    s.transport = TransportKind::Http;
    let v = s.to_opencode_value();
    assert_eq!(text_of(object_of(&v).get("transport").unwrap()), "http");
}

#[test]
fn env_editing_follows_map_semantics() {
    let mut s = stdio_server("e");
    s.set_env("B".to_owned(), "1".to_owned());
    s.set_env("A".to_owned(), "2".to_owned());
    s.set_env("B".to_owned(), "3".to_owned());
    assert_eq!(s.env, vec![("B".to_owned(), "3".to_owned()), ("A".to_owned(), "2".to_owned())]);
    s.edit_env("B", "C".to_owned(), "4".to_owned());
    assert_eq!(s.env, vec![("A".to_owned(), "2".to_owned()), ("C".to_owned(), "4".to_owned())]);
    s.edit_env("A", "A".to_owned(), "5".to_owned());
    assert_eq!(s.env[0], ("A".to_owned(), "5".to_owned()));
    s.remove_env("A");
    s.remove_env("missing");
    assert_eq!(s.env, vec![("C".to_owned(), "4".to_owned())]);
    s.add_env_placeholder();
    assert_eq!(s.env[1], ("NEW_ENV_2".to_owned(), String::new()));
}

#[test]
fn copies_are_equal() {
    let p = WorkspaceProfile::default_for(HostOs::MacOs);
    let c = p.copy();
    assert_eq!(c.name, p.name);
    assert_eq!(c.open_code_path, p.open_code_path);
    assert_eq!(c.servers.len(), 1);
    assert_eq!(c.servers[0].args, p.servers[0].args);
    assert_eq!(c.servers[0].env, p.servers[0].env);
}

#[test]
fn texts_are_translated_except_shared_names() {
    assert!(AppLocale::English.t(UiText::BtnSave).is_ascii());
    assert!(!AppLocale::Korean.t(UiText::BtnSave).is_ascii());
    assert_eq!(AppLocale::English.t(UiText::TransportSseLabel), AppLocale::Korean.t(UiText::TransportSseLabel));
    assert_eq!(AppLocale::Korean.t(UiText::AppTitle), "OpenMCP");
}

#[test]
fn env_key_check() {
    let mut p = WorkspaceProfile::default_for(HostOs::Other);
    assert!(p.is_well_formed());
    p.servers[0].set_env("A".to_owned(), "1".to_owned());
    assert!(p.servers[0].has_distinct_env_keys());
    p.servers[0].env.push(("A".to_owned(), "2".to_owned()));
    assert!(!p.servers[0].has_distinct_env_keys());
    assert!(!p.is_well_formed());
    let s = AppState { profiles: vec![p], selected_profile: 0, locale: AppLocale::English };
    assert!(!s.is_well_formed());
    let empty = AppState { profiles: vec![], selected_profile: 0, locale: AppLocale::English };
    assert!(!empty.is_well_formed());
}
