//! Checks on a workspace profile before its configuration is exported,
//! reported as messages in the user's language.
use vstd::prelude::*;
use vstd::string::*;

use crate::models::{
    AppLocale, McpServer, ProfileModel, ServerModel, TransportKind, WorkspaceProfile,
    server_models,
};
use crate::text::{all_ws, decimal, decimal_text, is_blank, starts_with, texts};

verus! {

/// A problem found with one server of a profile.
#[derive(Debug, Clone, Copy, PartialEq, Eq, Structural)]
pub enum ServerIssue {
    IdRequired,
    IdCharset,
    DuplicateId,
    CommandRequired,
    UrlRequired,
    UrlScheme,
    EmptyEnvKey,
}

/// `c` may appear in a server id: an ASCII letter or digit, `-` or `_`.
pub open spec fn id_char(c: char) -> bool {
    ||| 'a' <= c <= 'z'
    ||| 'A' <= c <= 'Z'
    ||| '0' <= c <= '9'
    ||| c == '-'
    ||| c == '_'
}

/// Every character of `s` may appear in a server id.
pub open spec fn valid_id_chars(s: Seq<char>) -> bool {
    forall|i: int| 0 <= i < s.len() ==> #[trigger] id_char(s[i])
}

/// Some server among `earlier` has the id `id`.
pub open spec fn id_taken(earlier: Seq<ServerModel>, id: Seq<char>) -> bool {
    exists|j: int| 0 <= j < earlier.len() && #[trigger] earlier[j].id == id
}

/// The message for a missing profile name.
pub open spec fn name_required_text(locale: AppLocale) -> Seq<char> {
    match locale {
        AppLocale::Korean => "프로필 이름이 필요합니다."@,
        AppLocale::English => "Profile name is required."@,
    }
}

/// The part of a server message that follows "Server N: ".
pub open spec fn issue_body(locale: AppLocale, issue: ServerIssue, id: Seq<char>) -> Seq<char> {
    match (locale, issue) {
        (AppLocale::English, ServerIssue::IdRequired) => "id is required."@,
        (AppLocale::English, ServerIssue::IdCharset) => "id should use letters, numbers, '-' or '_'."@,
        (AppLocale::English, ServerIssue::DuplicateId) => "duplicate id '"@ + id + "'."@,
        (AppLocale::English, ServerIssue::CommandRequired) => "command is required for stdio."@,
        (AppLocale::English, ServerIssue::UrlRequired) => "url is required for network transports."@,
        (AppLocale::English, ServerIssue::UrlScheme) => "url must start with http:// or https://."@,
        (AppLocale::English, ServerIssue::EmptyEnvKey) => "env key cannot be empty."@,
        (AppLocale::Korean, ServerIssue::IdRequired) => "id가 필요합니다."@,
        (AppLocale::Korean, ServerIssue::IdCharset) => "ID는 영문, 숫자, '-', '_'만 사용할 수 있습니다."@,
        (AppLocale::Korean, ServerIssue::DuplicateId) => "ID '"@ + id + "'가 중복됩니다."@,
        (AppLocale::Korean, ServerIssue::CommandRequired) => "stdio는 command가 필요합니다."@,
        (AppLocale::Korean, ServerIssue::UrlRequired) => "네트워크 전송은 URL이 필요합니다."@,
        (AppLocale::Korean, ServerIssue::UrlScheme) => "URL은 http:// 또는 https:// 로 시작해야 합니다."@,
        (AppLocale::Korean, ServerIssue::EmptyEnvKey) => "환경 변수 키가 비어 있습니다."@,
    }
}

/// The word that opens every server message.
pub open spec fn server_word(locale: AppLocale) -> Seq<char> {
    match locale {
        AppLocale::Korean => "서버 "@,
        AppLocale::English => "Server "@,
    }
}

/// The full message for `issue` on the server in (1-based) position `slot`.
pub open spec fn issue_text(locale: AppLocale, slot: nat, issue: ServerIssue, id: Seq<char>) -> Seq<char> {
    server_word(locale) + decimal(slot) + ": "@ + issue_body(locale, issue, id)
}

/// `seq![m]` when `cond` holds, else nothing.
pub open spec fn issue_if(cond: bool, m: Seq<char>) -> Seq<Seq<char>> {
    if cond { seq![m] } else { seq![] }
}

/// One message for each environment variable with a blank key.
pub open spec fn env_issues(locale: AppLocale, slot: nat, env: Seq<(Seq<char>, Seq<char>)>) -> Seq<Seq<char>>
    decreases env.len(),
{
    if env.len() == 0 {
        seq![]
    } else {
        env_issues(locale, slot, env.drop_last()) + issue_if(
            all_ws(env.last().0),
            issue_text(locale, slot, ServerIssue::EmptyEnvKey, seq![]),
        )
    }
}

/// The messages about the transport settings of a server.
pub open spec fn transport_issues(locale: AppLocale, slot: nat, s: ServerModel) -> Seq<Seq<char>> {
    match s.transport {
        TransportKind::Stdio => issue_if(all_ws(s.command), issue_text(locale, slot, ServerIssue::CommandRequired, seq![])),
        _ => if all_ws(s.url) {
            seq![issue_text(locale, slot, ServerIssue::UrlRequired, seq![])]
        } else {
            issue_if(
                !"http://"@.is_prefix_of(s.url) && !"https://"@.is_prefix_of(s.url),
                issue_text(locale, slot, ServerIssue::UrlScheme, seq![]),
            )
        },
    }
}

/// The messages about the server in position `slot`, given the servers before it.
pub open spec fn server_issues(locale: AppLocale, slot: nat, s: ServerModel, earlier: Seq<ServerModel>) -> Seq<Seq<char>> {
    issue_if(all_ws(s.id), issue_text(locale, slot, ServerIssue::IdRequired, seq![]))
        + issue_if(!valid_id_chars(s.id), issue_text(locale, slot, ServerIssue::IdCharset, seq![]))
        + issue_if(!all_ws(s.id) && id_taken(earlier, s.id), issue_text(locale, slot, ServerIssue::DuplicateId, s.id))
        + transport_issues(locale, slot, s)
        + env_issues(locale, slot, s.env)
}

/// The messages about the first `n` servers of `servers`.
pub open spec fn servers_issues(locale: AppLocale, servers: Seq<ServerModel>, n: nat) -> Seq<Seq<char>>
    decreases n,
{
    if n == 0 {
        seq![]
    } else {
        servers_issues(locale, servers, (n - 1) as nat) + server_issues(
            locale,
            n,
            servers[n - 1],
            servers.take(n - 1),
        )
    }
}

/// Every message about a profile, in the order the checks run.
pub open spec fn profile_issues(locale: AppLocale, p: ProfileModel) -> Seq<Seq<char>> {
    issue_if(all_ws(p.name), name_required_text(locale)) + servers_issues(locale, p.servers, p.servers.len())
}

/// Whether `c` may appear in a server id.
pub fn is_id_char(c: char) -> (r: bool)
    ensures
        r == id_char(c),
{
    ('a' <= c && c <= 'z') || ('A' <= c && c <= 'Z') || ('0' <= c && c <= '9') || c == '-' || c == '_'
}

/// Whether every character of `id` may appear in a server id.
pub fn has_valid_id_chars(id: &str) -> (r: bool)
    ensures
        r == valid_id_chars(id@),
{
    let cs = crate::text::chars_of(id);
    let mut i: usize = 0;
    while i < cs.len()
        invariant
            cs@ == id@,
            i <= cs@.len(),
            forall|j: int| 0 <= j < i ==> id_char(#[trigger] cs@[j]),
        decreases cs@.len() - i,
    {
        if !is_id_char(cs[i]) {
            assert(!id_char(id@[i as int]));
            return false;
        }
        i = i + 1;
    }
    true
}

/// The message for `issue` on the server in position `slot`.
pub fn issue_message(locale: AppLocale, slot: usize, issue: ServerIssue, id: &str) -> (r: String)
    ensures
        r@ == issue_text(locale, slot as nat, issue, id@),
{
    let mut m = match locale {
        AppLocale::Korean => String::from_str("서버 "),
        AppLocale::English => String::from_str("Server "),
    };
    let digits = decimal_text(slot);
    m.append(digits.as_str());
    m.append(": ");
    match (locale, issue) {
        (AppLocale::English, ServerIssue::IdRequired) => m.append("id is required."),
        (AppLocale::English, ServerIssue::IdCharset) => m.append("id should use letters, numbers, '-' or '_'."),
        (AppLocale::English, ServerIssue::DuplicateId) => {
            m.append("duplicate id '");
            m.append(id);
            m.append("'.");
        },
        (AppLocale::English, ServerIssue::CommandRequired) => m.append("command is required for stdio."),
        (AppLocale::English, ServerIssue::UrlRequired) => m.append("url is required for network transports."),
        (AppLocale::English, ServerIssue::UrlScheme) => m.append("url must start with http:// or https://."),
        (AppLocale::English, ServerIssue::EmptyEnvKey) => m.append("env key cannot be empty."),
        (AppLocale::Korean, ServerIssue::IdRequired) => m.append("id가 필요합니다."),
        (AppLocale::Korean, ServerIssue::IdCharset) => m.append("ID는 영문, 숫자, '-', '_'만 사용할 수 있습니다."),
        (AppLocale::Korean, ServerIssue::DuplicateId) => {
            m.append("ID '");
            m.append(id);
            m.append("'가 중복됩니다.");
        },
        (AppLocale::Korean, ServerIssue::CommandRequired) => m.append("stdio는 command가 필요합니다."),
        (AppLocale::Korean, ServerIssue::UrlRequired) => m.append("네트워크 전송은 URL이 필요합니다."),
        (AppLocale::Korean, ServerIssue::UrlScheme) => m.append("URL은 http:// 또는 https:// 로 시작해야 합니다."),
        (AppLocale::Korean, ServerIssue::EmptyEnvKey) => m.append("환경 변수 키가 비어 있습니다."),
    }
    assert(m@ =~= issue_text(locale, slot as nat, issue, id@));
    m
}

/// Whether some server before position `n` has the id of the server at `n`.
fn id_seen_before(servers: &Vec<McpServer>, n: usize) -> (r: bool)
    requires
        n < servers@.len(),
    ensures
        r == id_taken(server_models(servers@).take(n as int), servers@[n as int].id@),
{
    let ghost earlier = server_models(servers@).take(n as int);
    let mut j: usize = 0;
    while j < n
        invariant
            n < servers@.len(),
            earlier == server_models(servers@).take(n as int),
            j <= n,
            forall|k: int| 0 <= k < j ==> #[trigger] earlier[k].id != servers@[n as int].id@,
        decreases n - j,
    {
        if servers[j].id == servers[n].id {
            assert(earlier[j as int].id == servers@[n as int].id@);
            return true;
        }
        j = j + 1;
    }
    false
}

/// Appends `m` to `out` when `cond` holds.
fn push_when(out: &mut Vec<String>, cond: bool, m: String)
    ensures
        texts(final(out)@) == texts(old(out)@) + issue_if(cond, m@),
{
    let ghost before = texts(out@);
    if cond {
        out.push(m);
        assert(texts(out@) =~= before + seq![m@]);
    } else {
        assert(texts(out@) =~= before + Seq::<Seq<char>>::empty());
    }
}

/// The messages about the id of the server at position `n` (numbered `slot`).
fn check_id(servers: &Vec<McpServer>, n: usize, slot: usize, locale: AppLocale, out: &mut Vec<String>)
    requires
        n < servers@.len(),
        slot == n + 1,
    ensures
        texts(final(out)@) == texts(old(out)@)
            + issue_if(all_ws(servers@[n as int].id@), issue_text(locale, slot as nat, ServerIssue::IdRequired, seq![]))
            + issue_if(!valid_id_chars(servers@[n as int].id@), issue_text(locale, slot as nat, ServerIssue::IdCharset, seq![]))
            + issue_if(
                !all_ws(servers@[n as int].id@) && id_taken(server_models(servers@).take(n as int), servers@[n as int].id@),
                issue_text(locale, slot as nat, ServerIssue::DuplicateId, servers@[n as int].id@),
            ),
{
    proof { reveal_strlit(""); }
    let server = &servers[n];
    let id_blank = is_blank(server.id.as_str());
    push_when(out, id_blank, issue_message(locale, slot, ServerIssue::IdRequired, ""));
    push_when(out, !has_valid_id_chars(server.id.as_str()), issue_message(locale, slot, ServerIssue::IdCharset, ""));
    let dup = !id_blank && id_seen_before(servers, n);
    push_when(out, dup, issue_message(locale, slot, ServerIssue::DuplicateId, server.id.as_str()));
}

/// The messages about the transport settings of `server` (numbered `slot`).
fn check_transport(server: &McpServer, slot: usize, locale: AppLocale, out: &mut Vec<String>)
    ensures
        texts(final(out)@) == texts(old(out)@) + transport_issues(locale, slot as nat, server@),
{
    proof { reveal_strlit(""); }
    let ghost before = texts(out@);
    match server.transport {
        TransportKind::Stdio => {
            push_when(out, is_blank(server.command.as_str()), issue_message(locale, slot, ServerIssue::CommandRequired, ""));
        },
        _ => {
            if is_blank(server.url.as_str()) {
                out.push(issue_message(locale, slot, ServerIssue::UrlRequired, ""));
                assert(texts(out@) =~= before + transport_issues(locale, slot as nat, server@));
            } else {
                let bad = !starts_with(server.url.as_str(), "http://") && !starts_with(server.url.as_str(), "https://");
                push_when(out, bad, issue_message(locale, slot, ServerIssue::UrlScheme, ""));
            }
        },
    }
}

/// The messages about the environment keys of `server` (numbered `slot`).
fn check_env(server: &McpServer, slot: usize, locale: AppLocale, out: &mut Vec<String>)
    ensures
        texts(final(out)@) == texts(old(out)@) + env_issues(locale, slot as nat, server@.env),
{
    proof { reveal_strlit(""); }
    let ghost start = texts(out@);
    let ghost env = server@.env;
    let mut k: usize = 0;
    assert(start + env_issues(locale, slot as nat, env.take(0)) =~= start);
    while k < server.env.len()
        invariant
            env == server@.env,
            k <= server.env@.len(),
            texts(out@) == start + env_issues(locale, slot as nat, env.take(k as int)),
        decreases server.env@.len() - k,
    {
        assert(env.take(k + 1).drop_last() =~= env.take(k as int));
        assert(env.take(k + 1).last() == env[k as int]);
        push_when(out, is_blank(server.env[k].0.as_str()), issue_message(locale, slot, ServerIssue::EmptyEnvKey, ""));
        assert(texts(out@) =~= start + env_issues(locale, slot as nat, env.take(k + 1)));
        k = k + 1;
    }
    assert(env.take(env.len() as int) =~= env);
}

/// The messages about the server at position `n` (numbered `n + 1`).
fn check_server(servers: &Vec<McpServer>, n: usize, locale: AppLocale, out: &mut Vec<String>)
    requires
        n < servers@.len(),
    ensures
        texts(final(out)@) == texts(old(out)@) + server_issues(
            locale,
            (n + 1) as nat,
            servers@[n as int]@,
            server_models(servers@).take(n as int),
        ),
{
    let len = servers.len();
    let slot = n + 1;
    let ghost sv = servers@[n as int]@;
    let ghost earlier = server_models(servers@).take(n as int);
    let ghost sl = slot as nat;
    let ghost a = issue_if(all_ws(sv.id), issue_text(locale, sl, ServerIssue::IdRequired, seq![]))
        + issue_if(!valid_id_chars(sv.id), issue_text(locale, sl, ServerIssue::IdCharset, seq![]))
        + issue_if(!all_ws(sv.id) && id_taken(earlier, sv.id), issue_text(locale, sl, ServerIssue::DuplicateId, sv.id));
    let ghost b = transport_issues(locale, sl, sv);
    let ghost c = env_issues(locale, sl, sv.env);
    let ghost start = texts(out@);
    check_id(servers, n, slot, locale, out);
    assert(texts(out@) == start + a);
    check_transport(&servers[n], slot, locale, out);
    assert(texts(out@) == start + a + b);
    check_env(&servers[n], slot, locale, out);
    assert(texts(out@) == start + a + b + c);
    proof {
        vstd::seq_lib::lemma_concat_associative(start, a, b);
        vstd::seq_lib::lemma_concat_associative(start, a + b, c);
        assert(server_issues(locale, sl, sv, earlier) == a + b + c);
    }
}

/// Every problem that blocks exporting `profile`, as messages in `locale`.
pub fn validation_messages(profile: &WorkspaceProfile, locale: AppLocale) -> (r: Vec<String>)
    ensures
        texts(r@) == profile_issues(locale, profile@),
{
    let mut out: Vec<String> = Vec::new();
    if is_blank(profile.name.as_str()) {
        match locale {
            AppLocale::Korean => out.push(String::from_str("프로필 이름이 필요합니다.")),
            AppLocale::English => out.push(String::from_str("Profile name is required.")),
        }
    }
    let ghost head = texts(out@);
    assert(head =~= issue_if(all_ws(profile@.name), name_required_text(locale)));
    let mut n: usize = 0;
    while n < profile.servers.len()
        invariant
            n <= profile.servers@.len(),
            head == issue_if(all_ws(profile@.name), name_required_text(locale)),
            texts(out@) == head + servers_issues(locale, profile@.servers, n as nat),
        decreases profile.servers@.len() - n,
    {
        check_server(&profile.servers, n, locale, &mut out);
        assert(profile@.servers[n as int] == profile.servers@[n as int]@);
        assert(texts(out@) =~= head + servers_issues(locale, profile@.servers, (n + 1) as nat));
        n = n + 1;
    }
    out
}

} // verus!
