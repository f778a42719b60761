use openmcp::app::{generate_config, OpenMcpApp, ServerConfigAction};
use openmcp::models::{AppLocale, AppState, HostOs, McpServer, TransportKind};
use openmcp::opencode::ConfigAction;
use openmcp::storage::{default_state, load_state};
use openmcp::ui_text::UiText;

fn app() -> OpenMcpApp {
    OpenMcpApp::new(default_state(HostOs::Other))
}

fn server(id: &str, enabled: bool) -> McpServer {
    McpServer {
        id: id.to_owned(),
        transport: TransportKind::Stdio,
        command: "node".to_owned(),
        args: vec![],
        cwd: String::new(),
        env: vec![],
        url: String::new(),
        notes: String::new(),
        enabled,
    }
}

#[test]
fn new_app_is_ready() {
    let a = app();
    assert_eq!(a.status, "Ready");
    assert!(!a.dirty);
    assert!(a.managed_server_ids.is_empty());
    assert_eq!(a.txt(UiText::BtnSave), "Save");
    assert_eq!(AppLocale::Korean.t(UiText::BtnSave), "저장");
    assert_eq!(AppLocale::Korean.t(UiText::StatusUnsaved), "저장되지 않음");
}

#[test]
fn refresh_reports_success_and_failure() {
    let mut a = app();
    a.refresh_managed_servers(Ok(vec!["fs".to_owned()]));
    assert_eq!(a.managed_server_ids, vec!["fs"]);
    assert_eq!(a.status, "Loaded OpenCode config state");
    a.refresh_managed_servers(Err("bad json".to_owned()));
    assert!(a.managed_server_ids.is_empty());
    assert_eq!(a.status, "Config read failed: bad json");
}

#[test]
fn selection_is_clamped() {
    let mut a = app();
    a.add_profile(HostOs::Other);
    a.select_profile(7);
    assert_eq!(a.selected_index(), 1);
    assert_eq!(a.selected_profile().name, "Profile 2");
}

#[test]
fn add_duplicate_delete_profiles() {
    let mut a = app();
    a.add_profile(HostOs::MacOs);
    assert_eq!(a.state.profiles.len(), 2);
    assert_eq!(a.state.selected_profile, 1);
    assert_eq!(a.state.profiles[1].name, "Profile 2");
    assert_eq!(a.state.profiles[1].open_code_path, "~/Library/Application Support/OpenCode/config.json");
    assert!(a.dirty);
    assert_eq!(a.status, "New profile created");
    a.duplicate_profile();
    assert_eq!(a.state.profiles[2].name, "Profile 2 Copy");
    assert_eq!(a.state.selected_profile, 2);
    assert!(a.delete_selected_profile());
    assert_eq!(a.state.profiles.len(), 2);
    assert_eq!(a.state.selected_profile, 1);
    assert_eq!(a.status, "Profile deleted");
    a.select_profile(0);
    assert!(a.delete_selected_profile());
    assert_eq!(a.state.profiles[0].name, "Profile 2");
    assert!(!a.delete_selected_profile());
    assert_eq!(a.state.profiles.len(), 1);
    assert_eq!(a.status, "At least one profile must remain");
}

#[test]
fn action_targets() {
    let mut a = app();
    a.selected_profile_mut().servers = vec![server("a", true), server("b", false), server("c", true)];
    assert_eq!(a.target_server_ids_for_action(), vec!["a", "c"]);
    a.managed_server_ids = vec!["c".to_owned(), "zz".to_owned(), "b".to_owned(), "a".to_owned()];
    assert_eq!(a.uninstall_targets(), vec!["c", "a"]);
}

#[test]
fn bulk_uninstall_leaves_disabled_servers_installed() {
    let mut a = app();
    a.selected_profile_mut().servers = vec![server("a", true), server("b", false)];
    a.managed_server_ids = vec!["a".to_owned(), "b".to_owned()];
    assert_eq!(a.uninstall_targets(), vec!["a"]);
}

#[test]
fn outcomes_update_the_status() {
    let mut a = app();
    a.dirty = true;
    assert!(!a.install_enabled_servers(Err("nope".to_owned())));
    assert_eq!(a.status, "Install failed: nope");
    assert!(a.dirty);
    assert!(a.install_enabled_servers(Ok("Installed 1 x server(s) in y".to_owned())));
    assert!(!a.dirty);
    assert!(!a.uninstall_enabled_servers(Err("e".to_owned())));
    assert_eq!(a.status, "Uninstall failed: e");
    assert!(!a.finish_single_server_action(Err("e".to_owned())));
    assert_eq!(a.status, "Operation failed: e");
    a.dirty = true;
    a.save(Ok("/tmp/profiles.json".to_owned()));
    assert_eq!(a.status, "Saved /tmp/profiles.json");
    assert!(!a.dirty);
    a.save(Err("disk full".to_owned()));
    assert_eq!(a.status, "Save failed: disk full");
}

#[test]
fn single_server_requests() {
    let mut a = app();
    a.selected_profile_mut().servers = vec![server("fs", true), server(" ", true)];
    let (action, ids, respect) = a.single_server_request(ServerConfigAction::Uninstall(0)).unwrap();
    assert_eq!(action, ConfigAction::Uninstall);
    assert_eq!(ids, vec!["fs"]);
    assert!(!respect);
    a.selected_profile_mut().servers[0].enabled = false;
    let (action, ids, respect) = a.single_server_request(ServerConfigAction::Install(0)).unwrap();
    assert_eq!(action, ConfigAction::Install);
    assert_eq!(ids, vec!["fs"]);
    assert!(!respect);
    assert!(a.single_server_request(ServerConfigAction::Install(5)).is_none());
    assert_eq!(a.status, "Ready");
    assert!(a.single_server_request(ServerConfigAction::Install(1)).is_none());
    assert_eq!(a.status, "Install/Uninstall failed: server id is empty.");
}

#[test]
fn generated_config_holds_enabled_servers() {
    let v = generate_config(&vec![server("a", true), server("b", false)]);
    let root = v.as_object().unwrap();
    let block = root.get("mcpServers").unwrap().as_object().unwrap();
    assert_eq!(block.keys(), vec!["a"]);
    let mut b = app();
    b.selected_profile_mut().servers[0].env = vec![];
    b.selected_profile_mut().servers[0].args = vec!["-y".to_owned()];
    b.selected_profile_mut().servers[0].notes = "n".to_owned();
    assert_eq!(
        b.generated_json(),
        "{\n  \"mcpServers\": {\n    \"filesystem\": {\n      \"_notes\": \"n\",\n      \"args\": [\n        \"-y\"\n      ],\n      \"command\": \"npx\",\n      \"cwd\": \".\",\n      \"transport\": \"stdio\"\n    }\n  }\n}"
    );
}

#[test]
fn setup_instructions_text() {
    let a = app();
    let text = a.setup_instructions();
    assert!(text.starts_with("1. Open OpenCode settings.\n2. Locate the MCP configuration area for the Project profile."));
    assert!(text.ends_with("Notes:\nPaste the generated JSON into the MCP section used by your OpenCode workspace or app settings."));
    assert!(text.contains("Target path hint:\n~/.config/opencode/config.json\n"));
}

#[test]
fn editing_servers() {
    let mut a = app();
    a.add_server();
    assert_eq!(a.selected_profile().servers[1].id, "server_2");
    assert_eq!(a.status, "Server added");
    a.remove_server(0);
    assert_eq!(a.selected_profile().servers.len(), 1);
    assert_eq!(a.selected_profile().servers[0].id, "server_2");
    assert_eq!(a.status, "Server removed");
}

#[test]
fn validation_uses_the_selected_profile_and_locale() {
    let mut a = app();
    a.state.locale = AppLocale::Korean;
    a.selected_profile_mut().name = String::new();
    assert_eq!(a.validation_messages(), vec!["프로필 이름이 필요합니다."]);
}

#[test]
fn loading_state_falls_back_to_default() {
    let s = load_state(Err("missing".to_owned()), HostOs::Windows);
    assert_eq!(s.profiles.len(), 1);
    assert_eq!(s.profiles[0].open_code_path, r"%APPDATA%\OpenCode\config.json");
    let kept = load_state(Ok(AppState { profiles: vec![], selected_profile: 3, locale: AppLocale::Korean }), HostOs::Other);
    assert_eq!(kept.selected_profile, 3);
    assert_eq!(kept.locale, AppLocale::Korean);
}

#[test]
fn interface_texts() {
    assert_eq!(AppLocale::English.t(UiText::AppSubtitle), "Build OpenCode MCP configs without hand-editing JSON.");
    assert_eq!(AppLocale::Korean.t(UiText::FlowStep4), "4. OpenCode를 다시 로드하고 서버 등록을 확인하세요.");
    assert_eq!(AppLocale::English.t(UiText::StatusEmptyIdFailed), "Install/Uninstall failed: server id is empty.");
}
