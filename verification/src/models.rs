//! The data model: locales, profile scopes, transports, MCP server
//! definitions, workspace profiles and the saved application state.
use vstd::prelude::*;
use vstd::string::*;

use crate::json::{Json, JsonObject, JsonValue};
use crate::text::{all_ws, is_blank, texts};

verus! {

/// The language of the user interface.
#[derive(Debug, Clone, Copy, PartialEq, Eq, Structural)]
pub enum AppLocale {
    English,
    Korean,
}

impl Default for AppLocale {
    fn default() -> (r: Self)
        ensures
            r == AppLocale::English,
    {
        AppLocale::English
    }
}

/// Where a profile applies: every OpenCode workspace, or one project.
#[derive(Debug, Clone, Copy, PartialEq, Eq, Structural)]
pub enum ProfileScope {
    Global,
    Project,
}

/// How OpenCode talks to an MCP server.
#[derive(Debug, Clone, Copy, PartialEq, Eq, Structural)]
pub enum TransportKind {
    Stdio,
    Sse,
    Http,
}

/// The operating system whose conventions decide default paths.
#[derive(Debug, Clone, Copy, PartialEq, Eq, Structural)]
pub enum HostOs {
    MacOs,
    Windows,
    Other,
}

/// The name of a scope as shown in `locale`.
pub open spec fn scope_label(scope: ProfileScope, locale: AppLocale) -> Seq<char> {
    match (scope, locale) {
        (ProfileScope::Global, AppLocale::English) => "Global"@,
        (ProfileScope::Project, AppLocale::English) => "Project"@,
        (ProfileScope::Global, AppLocale::Korean) => "전역"@,
        (ProfileScope::Project, AppLocale::Korean) => "프로젝트"@,
    }
}

/// When to choose a scope, as explained in `locale`.
pub open spec fn scope_hint(scope: ProfileScope, locale: AppLocale) -> Seq<char> {
    match (scope, locale) {
        (ProfileScope::Global, AppLocale::English) =>
            "Use this when the same MCP server should be available across all OpenCode workspaces."@,
        (ProfileScope::Project, AppLocale::English) =>
            "Use this when the MCP server is tied to one repository or local project."@,
        (ProfileScope::Global, AppLocale::Korean) =>
            "하나의 MCP 서버를 모든 OpenCode 작업 공간에서 공유해야 할 때 사용하세요."@,
        (ProfileScope::Project, AppLocale::Korean) =>
            "특정 저장소나 로컬 프로젝트에만 필요한 MCP 서버를 설정할 때 사용하세요."@,
    }
}

/// The wire name of a transport; it is the same in every locale.
pub open spec fn transport_name(kind: TransportKind) -> Seq<char> {
    match kind {
        TransportKind::Stdio => "stdio"@,
        TransportKind::Sse => "sse"@,
        TransportKind::Http => "http"@,
    }
}

impl ProfileScope {
    /// The name of this scope in `locale`.
    pub fn label(self, locale: AppLocale) -> (r: &'static str)
        ensures
            r@ == scope_label(self, locale),
    {
        match (self, locale) {
            (ProfileScope::Global, AppLocale::English) => "Global",
            (ProfileScope::Project, AppLocale::English) => "Project",
            (ProfileScope::Global, AppLocale::Korean) => "전역",
            (ProfileScope::Project, AppLocale::Korean) => "프로젝트",
        }
    }

    /// When to choose this scope, in `locale`.
    pub fn hint(self, locale: AppLocale) -> (r: &'static str)
        ensures
            r@ == scope_hint(self, locale),
    {
        match (self, locale) {
            (ProfileScope::Global, AppLocale::English) => {
                "Use this when the same MCP server should be available across all OpenCode workspaces."
            },
            (ProfileScope::Project, AppLocale::English) => {
                "Use this when the MCP server is tied to one repository or local project."
            },
            (ProfileScope::Global, AppLocale::Korean) => {
                "하나의 MCP 서버를 모든 OpenCode 작업 공간에서 공유해야 할 때 사용하세요."
            },
            (ProfileScope::Project, AppLocale::Korean) => {
                "특정 저장소나 로컬 프로젝트에만 필요한 MCP 서버를 설정할 때 사용하세요."
            },
        }
    }
}

impl TransportKind {
    /// The name of this transport; `locale` does not change it.
    pub fn label(self, locale: AppLocale) -> (r: &'static str)
        ensures
            r@ == transport_name(self),
    {
        match (self, locale) {
            (TransportKind::Stdio, AppLocale::English) => "stdio",
            (TransportKind::Sse, AppLocale::English) => "sse",
            (TransportKind::Http, AppLocale::English) => "http",
            (TransportKind::Stdio, AppLocale::Korean) => "stdio",
            (TransportKind::Sse, AppLocale::Korean) => "sse",
            (TransportKind::Http, AppLocale::Korean) => "http",
        }
    }
}

/// One MCP server definition. `env` holds the environment variables as
/// key/value pairs; keys are meant to be distinct.
#[derive(Debug)]
pub struct McpServer {
    pub id: String,
    pub transport: TransportKind,
    pub command: String,
    pub args: Vec<String>,
    pub cwd: String,
    pub env: Vec<(String, String)>,
    pub url: String,
    pub notes: String,
    pub enabled: bool,
}

/// The model of an MCP server definition: every text by its characters.
pub struct ServerModel {
    pub id: Seq<char>,
    pub transport: TransportKind,
    pub command: Seq<char>,
    pub args: Seq<Seq<char>>,
    pub cwd: Seq<char>,
    pub env: Seq<(Seq<char>, Seq<char>)>,
    pub url: Seq<char>,
    pub notes: Seq<char>,
    pub enabled: bool,
}

/// The texts of a sequence of key/value string pairs.
pub open spec fn pair_texts(v: Seq<(String, String)>) -> Seq<(Seq<char>, Seq<char>)> {
    v.map_values(|p: (String, String)| (p.0@, p.1@))
}

impl View for McpServer {
    type V = ServerModel;

    open spec fn view(&self) -> ServerModel {
        ServerModel {
            id: self.id@,
            transport: self.transport,
            command: self.command@,
            args: texts(self.args@),
            cwd: self.cwd@,
            env: pair_texts(self.env@),
            url: self.url@,
            notes: self.notes@,
            enabled: self.enabled,
        }
    }
}

/// The environment block of a stdio entry: every variable whose key is not
/// blank, a later pair winning over an earlier one with the same key.
pub open spec fn env_json(env: Seq<(Seq<char>, Seq<char>)>) -> Map<Seq<char>, Json>
    decreases env.len(),
{
    if env.len() == 0 {
        Map::empty()
    } else {
        let rest = env_json(env.drop_last());
        let (k, v) = env.last();
        if all_ws(k) {
            rest
        } else {
            rest.insert(k, Json::Text(v))
        }
    }
}

/// Some environment variable has a key that is not blank.
pub open spec fn has_named_env(env: Seq<(Seq<char>, Seq<char>)>) -> bool {
    exists|i: int| 0 <= i < env.len() && !all_ws(#[trigger] env[i].0)
}

/// The JSON array of a sequence of texts.
pub open spec fn text_array(v: Seq<Seq<char>>) -> Json {
    Json::Array(v.map_values(|t: Seq<char>| Json::Text(t)))
}

/// The fields of the OpenCode entry of a stdio server.
pub open spec fn stdio_fields(s: ServerModel) -> Map<Seq<char>, Json> {
    let base = Map::<Seq<char>, Json>::empty().insert("transport"@, Json::Text("stdio"@)).insert(
        "command"@,
        Json::Text(s.command),
    );
    let with_args = if s.args.len() > 0 { base.insert("args"@, text_array(s.args)) } else { base };
    let with_cwd = if !all_ws(s.cwd) { with_args.insert("cwd"@, Json::Text(s.cwd)) } else { with_args };
    let with_env = if has_named_env(s.env) {
        with_cwd.insert("env"@, Json::Object(env_json(s.env)))
    } else {
        with_cwd
    };
    if !all_ws(s.notes) { with_env.insert("_notes"@, Json::Text(s.notes)) } else { with_env }
}

/// The entry that OpenCode's `mcpServers` block holds for a server.
pub open spec fn opencode_entry(s: ServerModel) -> Json {
    match s.transport {
        TransportKind::Stdio => Json::Object(stdio_fields(s)),
        _ => Json::Object(
            Map::<Seq<char>, Json>::empty().insert("transport"@, Json::Text(transport_name(s.transport))).insert(
                "url"@,
                Json::Text(s.url),
            ).insert("_notes"@, Json::Text(s.notes)),
        ),
    }
}

/// A JSON text value holding a copy of `s`.
pub fn text_value(s: &str) -> (r: JsonValue)
    ensures
        r@ == Json::Text(s@),
{
    JsonValue::Text(s.to_owned())
}

/// A copy of a sequence of strings.
pub fn copy_strings(v: &Vec<String>) -> (r: Vec<String>)
    ensures
        texts(r@) == texts(v@),
{
    let mut r: Vec<String> = Vec::new();
    let mut i: usize = 0;
    while i < v.len()
        invariant
            i <= v@.len(),
            r@.len() == i,
            texts(r@) == texts(v@.take(i as int)),
        decreases v@.len() - i,
    {
        let ghost before = r@;
        r.push(v[i].clone());
        assert forall|j: int| 0 <= j <= i implies #[trigger] texts(r@)[j] == texts(v@)[j] by {
            if j < i {
                assert(texts(before)[j] == texts(v@.take(i as int))[j]);
                assert(r@[j] == before[j]);
                assert(v@.take(i as int)[j] == v@[j]);
            }
        }
        assert(texts(r@) =~= texts(v@.take(i + 1)));
        i = i + 1;
    }
    assert(v@.take(v@.len() as int) =~= v@);
    r
}

/// A copy of a sequence of string pairs.
pub fn copy_pairs(v: &Vec<(String, String)>) -> (r: Vec<(String, String)>)
    ensures
        pair_texts(r@) == pair_texts(v@),
{
    let mut r: Vec<(String, String)> = Vec::new();
    let mut i: usize = 0;
    while i < v.len()
        invariant
            i <= v@.len(),
            r@.len() == i,
            pair_texts(r@) == pair_texts(v@.take(i as int)),
        decreases v@.len() - i,
    {
        let ghost before = r@;
        r.push((v[i].0.clone(), v[i].1.clone()));
        assert forall|j: int| 0 <= j <= i implies #[trigger] pair_texts(r@)[j] == pair_texts(v@)[j] by {
            if j < i {
                assert(pair_texts(before)[j] == pair_texts(v@.take(i as int))[j]);
                assert(r@[j] == before[j]);
                assert(v@.take(i as int)[j] == v@[j]);
            } else {
                assert(r@[j].0 == v@[j].0);
                assert(r@[j].1 == v@[j].1);
            }
        }
        assert(pair_texts(r@) =~= pair_texts(v@.take(i + 1)));
        i = i + 1;
    }
    assert(v@.take(v@.len() as int) =~= v@);
    r
}

impl McpServer {
    /// A copy of this definition.
    pub fn copy(&self) -> (r: McpServer)
        ensures
            r@ == self@,
    {
        McpServer {
            id: self.id.clone(),
            transport: self.transport,
            command: self.command.clone(),
            args: copy_strings(&self.args),
            cwd: self.cwd.clone(),
            env: copy_pairs(&self.env),
            url: self.url.clone(),
            notes: self.notes.clone(),
            enabled: self.enabled,
        }
    }

    /// The entry that this server takes in OpenCode's `mcpServers` block.
    pub fn to_opencode_value(&self) -> (r: JsonValue)
        ensures
            r@ == opencode_entry(self@),
    {
        match self.transport {
            TransportKind::Stdio => {
                let mut payload = JsonObject::new();
                payload.insert(String::from_str("transport"), text_value("stdio"));
                payload.insert(String::from_str("command"), text_value(self.command.as_str()));
                if self.args.len() > 0 {
                    let mut items: Vec<JsonValue> = Vec::new();
                    let mut i: usize = 0;
                    while i < self.args.len()
                        invariant
                            i <= self.args@.len(),
                            items@.len() == i,
                            forall|j: int| 0 <= j < i ==> #[trigger] items@[j]@ == Json::Text(self.args@[j]@),
                        decreases self.args@.len() - i,
                    {
                        items.push(text_value(self.args[i].as_str()));
                        i = i + 1;
                    }
                    let arr = JsonValue::Array(items);
                    assert(arr@ == text_array(texts(self.args@))) by {
                        let expected = texts(self.args@).map_values(|t: Seq<char>| Json::Text(t));
                        let got = arr@->Array_0;
                        assert forall|j: int| 0 <= j < got.len() implies got[j] == expected[j] by {
                            assert(items@[j]@ == Json::Text(self.args@[j]@));
                        }
                        assert(got =~= expected);
                    }
                    payload.insert(String::from_str("args"), arr);
                }
                if !is_blank(self.cwd.as_str()) {
                    payload.insert(String::from_str("cwd"), text_value(self.cwd.as_str()));
                }
                let mut env = JsonObject::new();
                let mut named = false;
                let mut i: usize = 0;
                while i < self.env.len()
                    invariant
                        i <= self.env@.len(),
                        env@ == env_json(pair_texts(self.env@.take(i as int))),
                        named == has_named_env(pair_texts(self.env@.take(i as int))),
                    decreases self.env@.len() - i,
                {
                    let ghost pre = pair_texts(self.env@.take(i as int));
                    let ghost post = pair_texts(self.env@.take(i + 1));
                    assert(post.drop_last() =~= pre);
                    assert(post.last() == (self.env@[i as int].0@, self.env@[i as int].1@));
                    if !is_blank(self.env[i].0.as_str()) {
                        env.insert(self.env[i].0.clone(), text_value(self.env[i].1.as_str()));
                        named = true;
                        assert(!all_ws(post[i as int].0));
                    } else {
                        assert(has_named_env(post) == has_named_env(pre)) by {
                            if has_named_env(post) {
                                let j = choose|j: int| 0 <= j < post.len() && !all_ws(#[trigger] post[j].0);
                                assert(pre[j] == post[j]);
                            }
                            if has_named_env(pre) {
                                let j = choose|j: int| 0 <= j < pre.len() && !all_ws(#[trigger] pre[j].0);
                                assert(pre[j] == post[j]);
                            }
                        }
                    }
                    proof {
                        if has_named_env(pre) {
                            let j = choose|j: int| 0 <= j < pre.len() && !all_ws(#[trigger] pre[j].0);
                            assert(pre[j] == post[j]);
                        }
                    }
                    i = i + 1;
                }
                assert(self.env@.take(self.env@.len() as int) =~= self.env@);
                if named {
                    payload.insert(String::from_str("env"), JsonValue::Object(env));
                }
                if !is_blank(self.notes.as_str()) {
                    payload.insert(String::from_str("_notes"), text_value(self.notes.as_str()));
                }
                let r = JsonValue::Object(payload);
                assert(r@ == opencode_entry(self@)) by {
                    assert(payload@ =~= stdio_fields(self@));
                }
                r
            },
            _ => {
                let mut payload = JsonObject::new();
                let name = if self.transport == TransportKind::Sse { "sse" } else { "http" };
                payload.insert(String::from_str("transport"), text_value(name));
                payload.insert(String::from_str("url"), text_value(self.url.as_str()));
                payload.insert(String::from_str("_notes"), text_value(self.notes.as_str()));
                JsonValue::Object(payload)
            },
        }
    }
}

/// The model of the server that a fresh profile starts with.
pub open spec fn default_server_model() -> ServerModel {
    ServerModel {
        id: "filesystem"@,
        transport: TransportKind::Stdio,
        command: "npx"@,
        args: seq!["-y"@, "@modelcontextprotocol/server-filesystem"@, "."@],
        cwd: "."@,
        env: seq![("OPENAI_API_KEY"@, ""@)],
        url: ""@,
        notes: "Example profile. Replace this with the MCP server you actually want to expose in OpenCode."@,
        enabled: true,
    }
}

impl Default for McpServer {
    fn default() -> (r: Self)
        ensures
            r@ == default_server_model(),
            r.wf(),
    {
        let mut args: Vec<String> = Vec::new();
        args.push(String::from_str("-y"));
        args.push(String::from_str("@modelcontextprotocol/server-filesystem"));
        args.push(String::from_str("."));
        let mut env: Vec<(String, String)> = Vec::new();
        env.push((String::from_str("OPENAI_API_KEY"), String::new()));
        let r = McpServer {
            id: String::from_str("filesystem"),
            transport: TransportKind::Stdio,
            command: String::from_str("npx"),
            args,
            cwd: String::from_str("."),
            env,
            url: String::new(),
            notes: String::from_str(
                "Example profile. Replace this with the MCP server you actually want to expose in OpenCode.",
            ),
            enabled: true,
        };
        proof {
            reveal_strlit("");
        }
        assert(r@.url =~= ""@);
        assert(r@.args =~= default_server_model().args);
        assert(r@.env[0].1 =~= ""@);
        assert(r@.env =~= default_server_model().env);
        r
    }
}

/// The keys of an environment list are pairwise distinct, so the list is a
/// map from key to value.
pub open spec fn env_keys_distinct(env: Seq<(Seq<char>, Seq<char>)>) -> bool {
    forall|i: int, j: int| 0 <= i < env.len() && 0 <= j < env.len() && i != j ==> env[i].0 != env[j].0
}

/// Every server of `servers` has pairwise distinct environment keys.
pub open spec fn servers_env_distinct(servers: Seq<ServerModel>) -> bool {
    forall|i: int| 0 <= i < servers.len() ==> env_keys_distinct(#[trigger] servers[i].env)
}

/// The position of the first variable of `env` whose key is `k`, or -1.
pub open spec fn key_index(env: Seq<(Seq<char>, Seq<char>)>, k: Seq<char>) -> int
    decreases env.len(),
{
    if env.len() == 0 {
        -1
    } else if env[0].0 == k {
        0
    } else {
        let r = key_index(env.drop_first(), k);
        if r < 0 { -1 } else { r + 1 }
    }
}

/// `env` with the variable `k` set to `v`: its value replaced where `k` is
/// present, else the pair added at the end.
pub open spec fn env_set(env: Seq<(Seq<char>, Seq<char>)>, k: Seq<char>, v: Seq<char>) -> Seq<(Seq<char>, Seq<char>)> {
    let i = key_index(env, k);
    if i >= 0 { env.update(i, (k, v)) } else { env.push((k, v)) }
}

/// `env` without the variable `k`.
pub open spec fn env_unset(env: Seq<(Seq<char>, Seq<char>)>, k: Seq<char>) -> Seq<(Seq<char>, Seq<char>)> {
    let i = key_index(env, k);
    if i >= 0 { env.remove(i) } else { env }
}

/// `key_index` lies in range and finds the first match.
pub proof fn lemma_key_index(env: Seq<(Seq<char>, Seq<char>)>, k: Seq<char>)
    ensures
        -1 <= key_index(env, k) < env.len(),
        key_index(env, k) >= 0 ==> env[key_index(env, k)].0 == k,
        forall|j: int| 0 <= j < env.len() && (key_index(env, k) < 0 || j < key_index(env, k)) ==> #[trigger] env[j].0 != k,
    decreases env.len(),
{
    if env.len() > 0 && env[0].0 != k {
        lemma_key_index(env.drop_first(), k);
        assert forall|j: int| 0 <= j < env.len() && (key_index(env, k) < 0 || j < key_index(env, k)) implies #[trigger] env[j].0 != k by {
            if j > 0 {
                assert(env[j] == env.drop_first()[j - 1]);
            }
        }
    }
}

/// The first position in `env` whose key is `key`.
fn find_key(env: &Vec<(String, String)>, key: &str) -> (r: Option<usize>)
    ensures
        match r {
            Some(i) => i < env@.len() && key_index(pair_texts(env@), key@) == i,
            None => key_index(pair_texts(env@), key@) < 0,
        },
{
    let ghost pe = pair_texts(env@);
    proof { lemma_key_index(pe, key@); }
    let mut i: usize = 0;
    while i < env.len()
        invariant
            pe == pair_texts(env@),
            i <= env@.len(),
            forall|j: int| 0 <= j < i ==> #[trigger] pe[j].0 != key@,
        decreases env@.len() - i,
    {
        if crate::json::string_equals_str(&env[i].0, key) {
            assert(pe[i as int].0 == key@);
            proof {
                lemma_key_index(pe, key@);
                let ki = key_index(pe, key@);
                if ki < 0 {
                    assert(pe[i as int].0 != key@);
                } else if ki < i {
                    assert(pe[ki].0 != key@);
                } else if ki > i {
                    assert(pe[i as int].0 != key@);
                }
            }
            return Some(i);
        }
        i = i + 1;
    }
    proof {
        if key_index(pe, key@) >= 0 {
            let ki = key_index(pe, key@);
            assert(pe[ki].0 == key@);
        }
    }
    None
}

impl McpServer {
    /// The server is well formed: its environment keys are distinct.
    pub open spec fn wf(&self) -> bool {
        env_keys_distinct(self@.env)
    }

    /// Whether the environment keys are distinct.
    pub fn has_distinct_env_keys(&self) -> (r: bool)
        ensures
            r == self.wf(),
    {
        let ghost pe = pair_texts(self.env@);
        let mut i: usize = 0;
        while i < self.env.len()
            invariant
                pe == pair_texts(self.env@),
                pe == self@.env,
                i <= self.env@.len(),
                forall|j: int| 0 <= j < i ==> key_index(pe, #[trigger] pe[j].0) == j,
            decreases self.env@.len() - i,
        {
            let found = find_key(&self.env, self.env[i].0.as_str());
            assert(pe[i as int].0 == self.env@[i as int].0@);
            match found {
                Some(f) => {
                    if f != i {
                        proof {
                            lemma_key_index(pe, pe[i as int].0);
                            assert(env_keys_distinct(pe) ==> pe[f as int].0 != pe[i as int].0);
                        }
                        return false;
                    }
                },
                None => {
                    proof { lemma_key_index(pe, pe[i as int].0); }
                    assert(false);
                },
            }
            i = i + 1;
        }
        assert forall|a: int, b: int| 0 <= a < pe.len() && 0 <= b < pe.len() && a != b implies pe[a].0 != pe[b].0 by {
            assert(key_index(pe, pe[a].0) == a);
            assert(key_index(pe, pe[b].0) == b);
        }
        true
    }

    /// Sets the environment variable `key` to `value`.
    pub fn set_env(&mut self, key: String, value: String)
        ensures
            old(self).wf() ==> final(self).wf(),
            final(self)@ == (ServerModel { env: env_set(old(self)@.env, key@, value@), ..old(self)@ }),
    {
        let ghost k = key@;
        let ghost v = value@;
        proof { lemma_key_index(pair_texts(self.env@), k); }
        match find_key(&self.env, key.as_str()) {
            Some(i) => {
                self.env.set(i, (key, value));
            },
            None => {
                self.env.push((key, value));
            },
        }
        assert(pair_texts(self.env@) =~= env_set(pair_texts(old(self).env@), k, v));
        proof {
            if old(self).wf() {
                crate::laws::law_env_edits_keep_keys_distinct(old(self)@.env, k, v);
            }
        }
    }

    /// Removes the environment variable `key`.
    pub fn remove_env(&mut self, key: &str)
        ensures
            old(self).wf() ==> final(self).wf(),
            final(self)@ == (ServerModel { env: env_unset(old(self)@.env, key@), ..old(self)@ }),
    {
        proof { lemma_key_index(pair_texts(self.env@), key@); }
        match find_key(&self.env, key) {
            Some(i) => {
                self.env.remove(i);
            },
            None => {},
        }
        assert(pair_texts(self.env@) =~= env_unset(pair_texts(old(self).env@), key@));
        proof {
            if old(self).wf() {
                crate::laws::law_env_edits_keep_keys_distinct(old(self)@.env, key@, Seq::empty());
            }
        }
    }

    /// Applies an edit of the variable `key` on the server's card: renamed to
    /// `new_key` (or left under `key`) and given `value`.
    pub fn edit_env(&mut self, key: &str, new_key: String, value: String)
        ensures
            old(self).wf() ==> final(self).wf(),
            final(self)@ == (ServerModel {
                env: if new_key@ != key@ {
                    env_set(env_unset(old(self)@.env, key@), new_key@, value@)
                } else {
                    env_set(old(self)@.env, key@, value@)
                },
                ..old(self)@
            }),
    {
        if !crate::json::string_equals_str(&new_key, key) {
            self.remove_env(key);
            self.set_env(new_key, value);
        } else {
            self.set_env(new_key, value);
        }
    }

    /// Adds a variable `NEW_ENV_N` with an empty value, N being one more than
    /// the number of variables.
    pub fn add_env_placeholder(&mut self)
        requires
            old(self).env@.len() < usize::MAX,
        ensures
            old(self).wf() ==> final(self).wf(),
            final(self)@ == (ServerModel {
                env: env_set(old(self)@.env, "NEW_ENV_"@ + crate::text::decimal((old(self).env@.len() + 1) as nat), Seq::empty()),
                ..old(self)@
            }),
    {
        let mut key = String::from_str("NEW_ENV_");
        let digits = crate::text::decimal_text(self.env.len() + 1);
        key.append(digits.as_str());
        self.set_env(key, String::new());
    }
}

/// A named group of MCP servers meant for one OpenCode configuration.
#[derive(Debug)]
pub struct WorkspaceProfile {
    pub name: String,
    pub scope: ProfileScope,
    pub target_hint: String,
    pub open_code_path: String,
    pub servers: Vec<McpServer>,
}

/// The model of a workspace profile.
pub struct ProfileModel {
    pub name: Seq<char>,
    pub scope: ProfileScope,
    pub target_hint: Seq<char>,
    pub open_code_path: Seq<char>,
    pub servers: Seq<ServerModel>,
}

/// The models of a sequence of servers.
pub open spec fn server_models(v: Seq<McpServer>) -> Seq<ServerModel> {
    v.map_values(|s: McpServer| s@)
}

impl View for WorkspaceProfile {
    type V = ProfileModel;

    open spec fn view(&self) -> ProfileModel {
        ProfileModel {
            name: self.name@,
            scope: self.scope,
            target_hint: self.target_hint@,
            open_code_path: self.open_code_path@,
            servers: server_models(self.servers@),
        }
    }
}

/// Where OpenCode keeps its configuration by default on `os`.
pub open spec fn default_path_text(os: HostOs) -> Seq<char> {
    match os {
        HostOs::MacOs => "~/Library/Application Support/OpenCode/config.json"@,
        HostOs::Windows => "%APPDATA%\\OpenCode\\config.json"@,
        HostOs::Other => "~/.config/opencode/config.json"@,
    }
}

/// The model of a fresh profile on `os`.
pub open spec fn default_profile_model(os: HostOs) -> ProfileModel {
    ProfileModel {
        name: "Default OpenCode Profile"@,
        scope: ProfileScope::Project,
        target_hint: "Paste the generated JSON into the MCP section used by your OpenCode workspace or app settings."@,
        open_code_path: default_path_text(os),
        servers: seq![default_server_model()],
    }
}

/// The default OpenCode configuration path on `os`.
pub fn default_opencode_path(os: HostOs) -> (r: String)
    ensures
        r@ == default_path_text(os),
{
    match os {
        HostOs::MacOs => String::from_str("~/Library/Application Support/OpenCode/config.json"),
        HostOs::Windows => String::from_str("%APPDATA%\\OpenCode\\config.json"),
        HostOs::Other => String::from_str("~/.config/opencode/config.json"),
    }
}

/// A copy of a sequence of servers.
pub fn copy_servers(v: &Vec<McpServer>) -> (r: Vec<McpServer>)
    ensures
        server_models(r@) == server_models(v@),
{
    let mut r: Vec<McpServer> = Vec::new();
    let mut i: usize = 0;
    while i < v.len()
        invariant
            i <= v@.len(),
            r@.len() == i,
            server_models(r@) == server_models(v@.take(i as int)),
        decreases v@.len() - i,
    {
        let ghost before = r@;
        r.push(v[i].copy());
        assert forall|j: int| 0 <= j <= i implies #[trigger] server_models(r@)[j] == server_models(v@)[j] by {
            if j < i {
                assert(server_models(before)[j] == server_models(v@.take(i as int))[j]);
                assert(r@[j] == before[j]);
                assert(v@.take(i as int)[j] == v@[j]);
            }
        }
        assert(server_models(r@) =~= server_models(v@.take(i + 1)));
        i = i + 1;
    }
    assert(v@.take(v@.len() as int) =~= v@);
    r
}

impl WorkspaceProfile {
    /// The profile is well formed: each of its servers has distinct
    /// environment keys.
    pub open spec fn wf(&self) -> bool {
        servers_env_distinct(self@.servers)
    }

    /// Whether every server of the profile has distinct environment keys.
    pub fn is_well_formed(&self) -> (r: bool)
        ensures
            r == self.wf(),
    {
        let mut i: usize = 0;
        while i < self.servers.len()
            invariant
                i <= self.servers@.len(),
                forall|j: int| 0 <= j < i ==> env_keys_distinct(#[trigger] server_models(self.servers@)[j].env),
            decreases self.servers@.len() - i,
        {
            if !self.servers[i].has_distinct_env_keys() {
                assert(!env_keys_distinct(server_models(self.servers@)[i as int].env));
                return false;
            }
            i = i + 1;
        }
        true
    }

    /// The profile that a fresh state starts with on `os`.
    pub fn default_for(os: HostOs) -> (r: WorkspaceProfile)
        ensures
            r@ == default_profile_model(os),
            r.wf(),
    {
        let mut servers: Vec<McpServer> = Vec::new();
        servers.push(McpServer::default());
        let r = WorkspaceProfile {
            name: String::from_str("Default OpenCode Profile"),
            scope: ProfileScope::Project,
            target_hint: String::from_str(
                "Paste the generated JSON into the MCP section used by your OpenCode workspace or app settings.",
            ),
            open_code_path: default_opencode_path(os),
            servers,
        };
        assert(r@.servers =~= seq![default_server_model()]);
        r
    }

    /// A copy of this profile.
    pub fn copy(&self) -> (r: WorkspaceProfile)
        ensures
            r@ == self@,
    {
        WorkspaceProfile {
            name: self.name.clone(),
            scope: self.scope,
            target_hint: self.target_hint.clone(),
            open_code_path: self.open_code_path.clone(),
            servers: copy_servers(&self.servers),
        }
    }
}

/// Everything the application saves between runs.
#[derive(Debug)]
pub struct AppState {
    pub profiles: Vec<WorkspaceProfile>,
    pub selected_profile: usize,
    pub locale: AppLocale,
}

impl AppState {
    /// The state is well formed: it holds a profile, and every profile is
    /// well formed.
    pub open spec fn wf(&self) -> bool {
        &&& self.profiles@.len() > 0
        &&& forall|i: int| 0 <= i < self.profiles@.len() ==> #[trigger] self.profiles@[i].wf()
    }

    /// Whether the state is well formed.
    pub fn is_well_formed(&self) -> (r: bool)
        ensures
            r == self.wf(),
    {
        if self.profiles.len() == 0 {
            return false;
        }
        let mut i: usize = 0;
        while i < self.profiles.len()
            invariant
                i <= self.profiles@.len(),
                forall|j: int| 0 <= j < i ==> #[trigger] self.profiles@[j].wf(),
            decreases self.profiles@.len() - i,
        {
            if !self.profiles[i].is_well_formed() {
                return false;
            }
            i = i + 1;
        }
        true
    }
}

impl Default for AppState {
    fn default() -> (r: Self)
        ensures
            r.profiles@.len() == 0,
            r.selected_profile == 0,
            r.locale == AppLocale::English,
    {
        AppState { profiles: Vec::new(), selected_profile: 0, locale: AppLocale::English }
    }
}

} // verus!
