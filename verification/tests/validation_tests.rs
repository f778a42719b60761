use openmcp::models::{AppLocale, HostOs, McpServer, TransportKind, WorkspaceProfile};
use openmcp::validation::{issue_message, validation_messages, ServerIssue};

fn server(id: &str) -> McpServer {
    McpServer {
        id: id.to_owned(),
        transport: TransportKind::Stdio,
        command: "node".to_owned(),
        args: vec![],
        cwd: String::new(),
        env: vec![],
        url: String::new(),
        notes: String::new(),
        enabled: true,
    }
}

fn profile(servers: Vec<McpServer>) -> WorkspaceProfile {
    let mut p = WorkspaceProfile::default_for(HostOs::Other);
    p.servers = servers;
    p
}

#[test]
fn default_profile_passes_in_both_languages() {
    let p = WorkspaceProfile::default_for(HostOs::Other);
    assert!(validation_messages(&p, AppLocale::English).is_empty());
    assert!(validation_messages(&p, AppLocale::Korean).is_empty());
}

#[test]
fn blank_profile_name_is_reported_first() {
    let mut p = profile(vec![server("ok")]);
    p.name = "  ".to_owned();
    assert_eq!(validation_messages(&p, AppLocale::English), vec!["Profile name is required."]);
    assert_eq!(validation_messages(&p, AppLocale::Korean), vec!["프로필 이름이 필요합니다."]);
}

#[test]
fn id_problems_in_order() {
    let p = profile(vec![server(" "), server("bad id!"), server("dup"), server("dup")]);
    assert_eq!(
        validation_messages(&p, AppLocale::English),
        vec![
            "Server 1: id is required.",
            "Server 1: id should use letters, numbers, '-' or '_'.",
            "Server 2: id should use letters, numbers, '-' or '_'.",
            "Server 4: duplicate id 'dup'.",
        ]
    );
}

#[test]
fn empty_id_is_required_but_passes_the_character_check() {
    let p = profile(vec![server("")]);
    assert_eq!(validation_messages(&p, AppLocale::English), vec!["Server 1: id is required."]);
}

#[test]
fn blank_ids_are_not_duplicates() {
    let p = profile(vec![server(""), server("")]);
    assert_eq!(
        validation_messages(&p, AppLocale::English),
        vec!["Server 1: id is required.", "Server 2: id is required."]
    );
}

#[test]
fn transport_requirements() {
    let mut stdio = server("a");
    stdio.command = " ".to_owned();
    let mut sse = server("b");
    sse.transport = TransportKind::Sse;
    let mut http = server("c");
    http.transport = TransportKind::Http;
    http.url = "ftp://host".to_owned();
    let mut good = server("d");
    good.transport = TransportKind::Http;
    good.url = "https://host/mcp".to_owned();
    let p = profile(vec![stdio, sse, http, good]);
    assert_eq!(
        validation_messages(&p, AppLocale::English),
        vec![
            "Server 1: command is required for stdio.",
            "Server 2: url is required for network transports.",
            "Server 3: url must start with http:// or https://.",
        ]
    );
    assert_eq!(
        validation_messages(&p, AppLocale::Korean),
        vec![
            "서버 1: stdio는 command가 필요합니다.",
            "서버 2: 네트워크 전송은 URL이 필요합니다.",
            "서버 3: URL은 http:// 또는 https:// 로 시작해야 합니다.",
        ]
    );
}

#[test]
fn url_scheme_is_checked_on_the_untrimmed_url() {
    let mut s = server("a");
    s.transport = TransportKind::Sse;
    s.url = " http://host".to_owned();
    let p = profile(vec![s]);
    assert_eq!(validation_messages(&p, AppLocale::English), vec!["Server 1: url must start with http:// or https://."]);
}

#[test]
fn each_blank_env_key_is_reported() {
    let mut s = server("a");
    s.env = vec![("".to_owned(), "1".to_owned()), ("OK".to_owned(), "2".to_owned()), (" ".to_owned(), "3".to_owned())];
    let p = profile(vec![s]);
    assert_eq!(
        validation_messages(&p, AppLocale::English),
        vec!["Server 1: env key cannot be empty.", "Server 1: env key cannot be empty."]
    );
}

#[test]
fn slots_past_nine_use_decimal_numbers() {
    let mut servers: Vec<McpServer> = (0..11).map(|i| server(&format!("s{i}"))).collect();
    servers[10].id = String::new();
    let p = profile(servers);
    assert_eq!(validation_messages(&p, AppLocale::English), vec!["Server 11: id is required."]);
}

#[test]
fn korean_duplicate_message() {
    assert_eq!(issue_message(AppLocale::Korean, 3, ServerIssue::DuplicateId, "fs"), "서버 3: ID 'fs'가 중복됩니다.");
    assert_eq!(
        issue_message(AppLocale::Korean, 2, ServerIssue::IdCharset, ""),
        "서버 2: ID는 영문, 숫자, '-', '_'만 사용할 수 있습니다."
    );
    assert_eq!(issue_message(AppLocale::English, 120, ServerIssue::EmptyEnvKey, ""), "Server 120: env key cannot be empty.");
}

#[test]
fn message_counts_match_across_languages() {
    let mut a = server("a b");
    a.transport = TransportKind::Http;
    let p = profile(vec![a, server("a b")]);
    assert_eq!(
        validation_messages(&p, AppLocale::English).len(),
        validation_messages(&p, AppLocale::Korean).len()
    );
}
