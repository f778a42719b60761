//! Reading, editing and describing OpenCode's configuration document.
//!
//! The file itself is read and written by the caller; this module decides
//! what the text that was read means and what the new document is.
use vstd::prelude::*;
use vstd::string::*;

use crate::json::{Json, JsonObject, JsonValue, parse_json, parsed_json, pretty_json, pretty_text};
use crate::models::{McpServer, ServerModel, WorkspaceProfile, opencode_entry, server_models};
use crate::models::HostOs;
use crate::paths::{HostEnv, expand_home, expand_unix, expand_windows, expand_windows_path, opt_text};
use crate::text::{all_ws, decimal, decimal_text, is_blank, sort_distinct, strictly_sorted, texts, trim, trim_text};

verus! {

/// What reading the configuration file gave.
#[derive(Debug)]
pub enum ConfigSource {
    /// Nothing exists at the path.
    Missing,
    /// The file's text.
    Present { raw: String },
}

/// The model of a result that carries a JSON value or an error message.
pub open spec fn json_result(r: Result<JsonValue, String>) -> Result<Json, Seq<char>> {
    match r {
        Ok(v) => Ok(v@),
        Err(e) => Err(e@),
    }
}

/// The configuration that a missing or blank file stands for.
pub open spec fn empty_config() -> Json {
    Json::Object(Map::<Seq<char>, Json>::empty().insert("mcpServers"@, Json::Object(Map::empty())))
}

pub open spec fn not_object_text() -> Seq<char> {
    "OpenCode config should be a JSON object."@
}

pub open spec fn servers_not_object_text() -> Seq<char> {
    "OpenCode config mcpServers key exists but is not an object."@
}

/// What a parsed document means as a configuration.
pub open spec fn shaped_config(v: Json) -> Result<Json, Seq<char>> {
    match v {
        Json::Object(root) => if !root.contains_key("mcpServers"@) {
            Ok(Json::Object(root.insert("mcpServers"@, Json::Object(Map::empty()))))
        } else if root["mcpServers"@] is Object {
            Ok(v)
        } else {
            Err(servers_not_object_text())
        },
        _ => Err(not_object_text()),
    }
}

/// What a parse outcome means as a configuration: the parser's error, or
/// the parsed document shaped as a configuration.
pub open spec fn shaped_outcome(parsed: Result<Json, Seq<char>>) -> Result<Json, Seq<char>> {
    match parsed {
        Err(e) => Err(e),
        Ok(v) => shaped_config(v),
    }
}

/// What reading the configuration gave, as a configuration or an error: a
/// text that is not blank is parsed as JSON and the outcome shaped.
pub open spec fn loaded_config(source: Result<ConfigSource, String>) -> Result<Json, Seq<char>> {
    match source {
        Err(e) => Err(e@),
        Ok(ConfigSource::Missing) => Ok(empty_config()),
        Ok(ConfigSource::Present { raw }) => if all_ws(raw@) {
            Ok(empty_config())
        } else {
            shaped_outcome(parsed_json(raw@))
        },
    }
}

/// A configuration document is an object whose `mcpServers` entry is an object.
pub open spec fn well_shaped(doc: Json) -> bool {
    &&& doc is Object
    &&& doc->Object_0.contains_key("mcpServers"@)
    &&& doc->Object_0["mcpServers"@] is Object
}

/// The `mcpServers` block of a configuration document.
pub open spec fn server_block(doc: Json) -> Map<Seq<char>, Json> {
    doc->Object_0["mcpServers"@]->Object_0
}

/// `doc` with its `mcpServers` block replaced by `block`.
pub open spec fn with_server_block(doc: Json, block: Map<Seq<char>, Json>) -> Json {
    Json::Object(doc->Object_0.insert("mcpServers"@, Json::Object(block)))
}

/// Turns what reading the configuration gave into the configuration document:
/// a missing or blank file stands for an empty `mcpServers` block; any other
/// text is parsed as JSON, and the document shaped by [`shape_config`].
pub fn load_config(source: Result<ConfigSource, String>) -> (r: Result<JsonValue, String>)
    ensures
        json_result(r) == loaded_config(source),
{
    match source {
        Err(e) => Err(e),
        Ok(ConfigSource::Missing) => Ok(empty_config_value()),
        Ok(ConfigSource::Present { raw }) => {
            if is_blank(raw.as_str()) {
                return Ok(empty_config_value());
            }
            let parsed = parse_json(raw.as_str());
            shape_config(parsed)
        },
    }
}

/// What parsing the configuration's text gave, as a configuration: the
/// parser's error, an error where the document is not an object or its
/// `mcpServers` entry is not an object, else the document, with an empty
/// `mcpServers` block added where it has none.
pub fn shape_config(parsed: Result<JsonValue, String>) -> (r: Result<JsonValue, String>)
    ensures
        json_result(r) == shaped_outcome(json_result(parsed)),
{
    match parsed {
        Err(e) => Err(e),
        Ok(JsonValue::Object(mut root)) => {
            match root.get("mcpServers") {
                None => {
                    root.insert(String::from_str("mcpServers"), JsonValue::Object(JsonObject::new()));
                    Ok(JsonValue::Object(root))
                },
                Some(JsonValue::Object(_)) => Ok(JsonValue::Object(root)),
                Some(_) => Err(String::from_str("OpenCode config mcpServers key exists but is not an object.")),
            }
        },
        Ok(_) => Err(String::from_str("OpenCode config should be a JSON object.")),
    }
}

/// `{"mcpServers": {}}`.
fn empty_config_value() -> (r: JsonValue)
    ensures
        r@ == empty_config(),
{
    let mut root = JsonObject::new();
    root.insert(String::from_str("mcpServers"), JsonValue::Object(JsonObject::new()));
    JsonValue::Object(root)
}

/// The ids of the servers installed in the configuration, in increasing order.
pub fn discover_installed_server_ids(source: Result<ConfigSource, String>) -> (r: Result<Vec<String>, String>)
    ensures
        match r {
            Ok(ids) => loaded_config(source) is Ok
                && strictly_sorted(texts(ids@))
                && texts(ids@).to_set() == server_block(loaded_config(source)->Ok_0).dom(),
            Err(e) => loaded_config(source) == Err::<Json, Seq<char>>(e@),
        },
{
    let value = load_config(source);
    match value {
        Err(e) => Err(e),
        Ok(doc) => {
            let ghost d = doc@;
            let keys = match doc.as_object() {
                Some(root) => match root.get("mcpServers") {
                    Some(JsonValue::Object(block)) => block.keys(),
                    _ => {
                        assert(false);
                        Vec::new()
                    },
                },
                None => {
                    assert(false);
                    Vec::new()
                },
            };
            proof {
                let ks = texts(keys@);
                assert forall|a: int, b: int| 0 <= a < ks.len() && 0 <= b < ks.len() && a != b implies ks[a] != ks[b] by {
                    assert(ks[a] == keys@[a]@);
                    assert(ks[b] == keys@[b]@);
                }
                assert(ks.no_duplicates());
                assert forall|k: Seq<char>| ks.to_set().contains(k) <==> server_block(d).contains_key(k) by {
                    if ks.contains(k) {
                        let i = choose|i: int| 0 <= i < ks.len() && ks[i] == k;
                        assert(keys@[i]@ == k);
                    }
                    if server_block(d).contains_key(k) {
                        let i = choose|i: int| 0 <= i < keys@.len() && #[trigger] keys@[i]@ == k;
                        assert(ks[i] == k);
                    }
                }
                assert(ks.to_set() =~= server_block(d).dom());
            }
            Ok(sort_distinct(keys))
        },
    }
}

/// Whether servers are being put into the configuration or taken out of it.
#[derive(Debug, Clone, Copy, PartialEq, Eq, Structural)]
pub enum ConfigAction {
    Install,
    Uninstall,
}

/// A configuration edit that succeeded: the new document, the text to write
/// back, and the message that reports it.
#[derive(Debug)]
pub struct AppliedChange {
    pub document: JsonValue,
    /// The new document as the text to write.
    pub payload: String,
    pub message: String,
}

/// The requested ids, each trimmed.
pub open spec fn trimmed_ids(ids: Seq<Seq<char>>) -> Seq<Seq<char>> {
    ids.map_values(|t: Seq<char>| trim(t))
}

/// The set of requested ids, each trimmed.
pub open spec fn requested_ids(ids: Seq<Seq<char>>) -> Set<Seq<char>> {
    trimmed_ids(ids).to_set()
}

/// An install puts `s` into the configuration: its id was requested and, when
/// only enabled servers count, it is enabled.
pub open spec fn install_picks(s: ServerModel, ids: Set<Seq<char>>, respect_enabled: bool) -> bool {
    ids.contains(s.id) && (!respect_enabled || s.enabled)
}

/// `block` after installing each picked server of `servers` in turn.
pub open spec fn install_into(
    block: Map<Seq<char>, Json>,
    servers: Seq<ServerModel>,
    ids: Set<Seq<char>>,
    respect_enabled: bool,
) -> Map<Seq<char>, Json>
    decreases servers.len(),
{
    if servers.len() == 0 {
        block
    } else {
        let m = install_into(block, servers.drop_last(), ids, respect_enabled);
        if install_picks(servers.last(), ids, respect_enabled) {
            m.insert(servers.last().id, opencode_entry(servers.last()))
        } else {
            m
        }
    }
}

/// How many servers of `servers` an install picks.
pub open spec fn install_count(servers: Seq<ServerModel>, ids: Set<Seq<char>>, respect_enabled: bool) -> nat
    decreases servers.len(),
{
    if servers.len() == 0 {
        0
    } else {
        install_count(servers.drop_last(), ids, respect_enabled) + if install_picks(
            servers.last(),
            ids,
            respect_enabled,
        ) {
            1nat
        } else {
            0nat
        }
    }
}

pub open spec fn no_ids_text() -> Seq<char> {
    "No target server IDs were selected."@
}

pub open spec fn nothing_to_install_text() -> Seq<char> {
    "No matching enabled servers were found to install."@
}

pub open spec fn nothing_to_uninstall_text() -> Seq<char> {
    "No matching server IDs were found to uninstall."@
}

/// The report of a successful edit.
pub open spec fn change_text(action: ConfigAction, changed: nat, profile_name: Seq<char>, path: Seq<char>) -> Seq<char> {
    (match action {
        ConfigAction::Install => "Installed"@,
        ConfigAction::Uninstall => "Uninstalled"@,
    }) + " "@ + decimal(changed) + " "@ + profile_name + " server(s) in "@ + path
}

/// What an edit of the configuration gives: the new document and its report,
/// or the error message.
pub open spec fn applied(
    servers: Seq<ServerModel>,
    profile_name: Seq<char>,
    path: Seq<char>,
    ids: Seq<Seq<char>>,
    action: ConfigAction,
    respect_enabled: bool,
    loaded: Result<Json, Seq<char>>,
) -> Result<(Json, Seq<char>), Seq<char>> {
    if ids.len() == 0 {
        Err(no_ids_text())
    } else {
        match loaded {
            Err(e) => Err(e),
            Ok(doc) => {
                let wanted = requested_ids(ids);
                let block = server_block(doc);
                match action {
                    ConfigAction::Install => {
                        let n = install_count(servers, wanted, respect_enabled);
                        if n == 0 {
                            Err(nothing_to_install_text())
                        } else {
                            Ok(
                                (
                                    with_server_block(doc, install_into(block, servers, wanted, respect_enabled)),
                                    change_text(action, n, profile_name, path),
                                ),
                            )
                        }
                    },
                    ConfigAction::Uninstall => {
                        let n = wanted.intersect(block.dom()).len();
                        if n == 0 {
                            Err(nothing_to_uninstall_text())
                        } else {
                            Ok((with_server_block(doc, block.remove_keys(wanted)), change_text(action, n, profile_name, path)))
                        }
                    },
                }
            },
        }
    }
}

/// The model of the outcome of an edit.
pub open spec fn change_result(r: Result<AppliedChange, String>) -> Result<(Json, Seq<char>), Seq<char>> {
    match r {
        Ok(c) => Ok((c.document@, c.message@)),
        Err(e) => Err(e@),
    }
}

/// Each requested id, trimmed.
fn trim_all(ids: &[String]) -> (r: Vec<String>)
    ensures
        texts(r@) == trimmed_ids(texts(ids@)),
{
    let mut r: Vec<String> = Vec::new();
    let mut i: usize = 0;
    while i < ids.len()
        invariant
            i <= ids@.len(),
            r@.len() == i,
            forall|j: int| 0 <= j < i ==> #[trigger] r@[j]@ == trim(ids@[j]@),
        decreases ids@.len() - i,
    {
        r.push(trim_text(ids[i].as_str()));
        i = i + 1;
    }
    assert(texts(r@) =~= trimmed_ids(texts(ids@)));
    r
}

/// Whether `v` holds the text of `s`.
fn holds_text(v: &Vec<String>, s: &String) -> (r: bool)
    ensures
        r == texts(v@).contains(s@),
{
    let mut i: usize = 0;
    while i < v.len()
        invariant
            i <= v@.len(),
            forall|j: int| 0 <= j < i ==> #[trigger] v@[j]@ != s@,
        decreases v@.len() - i,
    {
        if v[i] == *s {
            assert(texts(v@)[i as int] == s@);
            return true;
        }
        i = i + 1;
    }
    assert(!texts(v@).contains(s@)) by {
        if texts(v@).contains(s@) {
            let j = choose|j: int| 0 <= j < texts(v@).len() && texts(v@)[j] == s@;
            assert(v@[j]@ == s@);
        }
    }
    false
}

/// Installs each picked server of `servers` into `block`; gives how many were picked.
fn install_all(
    block: &mut JsonObject,
    servers: &Vec<McpServer>,
    wanted: &Vec<String>,
    respect_enabled: bool,
) -> (n: usize)
    ensures
        final(block)@ == install_into(old(block)@, server_models(servers@), texts(wanted@).to_set(), respect_enabled),
        n == install_count(server_models(servers@), texts(wanted@).to_set(), respect_enabled),
{
    let ghost ids = texts(wanted@).to_set();
    let ghost all = server_models(servers@);
    let ghost start = block@;
    let mut n: usize = 0;
    let mut i: usize = 0;
    assert(all.take(0) =~= Seq::<ServerModel>::empty());
    while i < servers.len()
        invariant
            ids == texts(wanted@).to_set(),
            all == server_models(servers@),
            i <= servers@.len(),
            n <= i,
            block@ == install_into(start, all.take(i as int), ids, respect_enabled),
            n == install_count(all.take(i as int), ids, respect_enabled),
        decreases servers@.len() - i,
    {
        let server = &servers[i];
        assert(all.take(i + 1).drop_last() =~= all.take(i as int));
        assert(all.take(i + 1).last() == server@);
        let wanted_here = holds_text(wanted, &server.id);
        assert(wanted_here == ids.contains(server@.id));
        if wanted_here && (!respect_enabled || server.enabled) {
            block.insert(server.id.clone(), server.to_opencode_value());
            n = n + 1;
        }
        i = i + 1;
    }
    assert(all.take(servers@.len() as int) =~= all);
    n
}

/// Removes each requested id from `block`; gives how many were there.
fn uninstall_all(block: &mut JsonObject, wanted: &Vec<String>) -> (n: usize)
    ensures
        final(block)@ == old(block)@.remove_keys(texts(wanted@).to_set()),
        n == texts(wanted@).to_set().intersect(old(block)@.dom()).len(),
{
    let ghost start = block@;
    let ghost tw = texts(wanted@);
    let mut n: usize = 0;
    let mut i: usize = 0;
    proof {
        assert(tw.take(0).to_set() =~= Set::<Seq<char>>::empty());
        assert(start.remove_keys(Set::<Seq<char>>::empty()) =~= start);
        assert(Set::<Seq<char>>::empty().intersect(start.dom()) =~= Set::<Seq<char>>::empty());
    }
    while i < wanted.len()
        invariant
            tw == texts(wanted@),
            i <= wanted@.len(),
            n <= i,
            block@ == start.remove_keys(tw.take(i as int).to_set()),
            n == tw.take(i as int).to_set().intersect(start.dom()).len(),
        decreases wanted@.len() - i,
    {
        let ghost s0 = tw.take(i as int).to_set();
        let ghost k = tw[i as int];
        proof {
            vstd::seq_lib::seq_to_set_is_finite(tw.take(i as int));
            assert(tw.take(i + 1).to_set() =~= s0.insert(k)) by {
                let t1 = tw.take(i + 1);
                let t0 = tw.take(i as int);
                assert forall|t: Seq<char>| t1.to_set().contains(t) <==> s0.insert(k).contains(t) by {
                    if t1.contains(t) {
                        let j = choose|j: int| 0 <= j < t1.len() && t1[j] == t;
                        if j < i { assert(t0[j] == t); }
                    }
                    if t0.contains(t) {
                        let j = choose|j: int| 0 <= j < t0.len() && t0[j] == t;
                        assert(t1[j] == t);
                    }
                    if t == k { assert(t1[i as int] == t); }
                }
            }
        }
        let removed = block.remove(wanted[i].as_str());
        proof {
            let s1 = s0.insert(k);
            assert(block@ =~= start.remove_keys(s1));
            if removed {
                assert(!s0.contains(k) && start.dom().contains(k));
                assert(s1.intersect(start.dom()) =~= s0.intersect(start.dom()).insert(k));
                assert(!s0.intersect(start.dom()).contains(k));
            } else {
                assert(s1.intersect(start.dom()) =~= s0.intersect(start.dom()));
            }
        }
        if removed {
            n = n + 1;
        }
        i = i + 1;
    }
    assert(tw.take(wanted@.len() as int) =~= tw);
    n
}

/// The report of a successful edit.
fn change_message(action: ConfigAction, changed: usize, profile_name: &str, path: &str) -> (r: String)
    ensures
        r@ == change_text(action, changed as nat, profile_name@, path@),
{
    let mut m = match action {
        ConfigAction::Install => String::from_str("Installed"),
        ConfigAction::Uninstall => String::from_str("Uninstalled"),
    };
    m.append(" ");
    let digits = decimal_text(changed);
    m.append(digits.as_str());
    m.append(" ");
    m.append(profile_name);
    m.append(" server(s) in ");
    m.append(path);
    m
}

/// Installs or uninstalls the servers of `profile` whose ids are in
/// `server_ids` (each trimmed), in the configuration that reading the file at
/// `path` gave. Unrelated parts of the document are left as they were; only
/// the `mcpServers` block changes.
pub fn apply(
    profile: &WorkspaceProfile,
    path: &str,
    server_ids: &[String],
    action: ConfigAction,
    respect_enabled: bool,
    source: Result<ConfigSource, String>,
) -> (r: Result<AppliedChange, String>)
    ensures
        change_result(r) == applied(
            profile@.servers,
            profile@.name,
            path@,
            texts(server_ids@),
            action,
            respect_enabled,
            loaded_config(source),
        ),
        r matches Ok(c) ==> c.payload@ == pretty_json(c.document@),
{
    if server_ids.len() == 0 {
        return Err(String::from_str("No target server IDs were selected."));
    }
    let wanted = trim_all(server_ids);
    let ghost ids = requested_ids(texts(server_ids@));
    assert(texts(wanted@).to_set() == ids);
    let loaded = load_config(source);
    let doc = match loaded {
        Err(e) => return Err(e),
        Ok(doc) => doc,
    };
    let ghost d = doc@;
    let mut root = match doc {
        JsonValue::Object(root) => root,
        _ => {
            assert(false);
            return Err(String::from_str("OpenCode config should be a JSON object."));
        },
    };
    let mut block = match root.take("mcpServers") {
        Some(JsonValue::Object(block)) => block,
        _ => {
            assert(false);
            return Err(String::from_str("Invalid OpenCode config: mcpServers is not an object."));
        },
    };
    let ghost b0 = block@;
    assert(b0 == server_block(d));
    let changed = match action {
        ConfigAction::Install => {
            let n = install_all(&mut block, &profile.servers, &wanted, respect_enabled);
            if n == 0 {
                return Err(String::from_str("No matching enabled servers were found to install."));
            }
            n
        },
        ConfigAction::Uninstall => {
            let n = uninstall_all(&mut block, &wanted);
            if n == 0 {
                return Err(String::from_str("No matching server IDs were found to uninstall."));
            }
            n
        },
    };
    let ghost b1 = block@;
    root.insert(String::from_str("mcpServers"), JsonValue::Object(block));
    let document = JsonValue::Object(root);
    assert(document@ == with_server_block(d, b1)) by {
        assert(d->Object_0.remove("mcpServers"@).insert("mcpServers"@, Json::Object(b1)) =~= d->Object_0.insert("mcpServers"@, Json::Object(b1)));
    }
    let message = change_message(action, changed, profile.name.as_str(), path);
    let payload = pretty_text(&document);
    Ok(AppliedChange { document, payload, message })
}

/// Installs the servers of `profile` whose ids are in `server_ids`; when
/// `respect_enabled` holds, only the enabled ones.
pub fn install_servers(
    profile: &WorkspaceProfile,
    path: &str,
    server_ids: &[String],
    respect_enabled: bool,
    source: Result<ConfigSource, String>,
) -> (r: Result<AppliedChange, String>)
    ensures
        change_result(r) == applied(
            profile@.servers,
            profile@.name,
            path@,
            texts(server_ids@),
            ConfigAction::Install,
            respect_enabled,
            loaded_config(source),
        ),
        r matches Ok(c) ==> c.payload@ == pretty_json(c.document@),
{
    apply(profile, path, server_ids, ConfigAction::Install, respect_enabled, source)
}

/// Removes the entries whose ids are in `server_ids`.
pub fn uninstall_servers(
    profile: &WorkspaceProfile,
    path: &str,
    server_ids: &[String],
    source: Result<ConfigSource, String>,
) -> (r: Result<AppliedChange, String>)
    ensures
        change_result(r) == applied(
            profile@.servers,
            profile@.name,
            path@,
            texts(server_ids@),
            ConfigAction::Uninstall,
            false,
            loaded_config(source),
        ),
        r matches Ok(c) ==> c.payload@ == pretty_json(c.document@),
{
    apply(profile, path, server_ids, ConfigAction::Uninstall, false, source)
}

/// Calls `dirs::home_dir` and keeps the directory only where its path is
/// valid Unicode. Nothing is claimed of the answer: `dirs` reads it from the
/// environment (`$HOME`, or the user database) at the time of the call.
#[verifier::external_body]
fn home_dir_text() -> (r: Option<String>) {
    match dirs::home_dir() {
        Some(p) => p.to_str().map(str::to_owned),
        None => None,
    }
}

/// The configuration path typed by the user, with the home-directory
/// shorthands of the host expanded. Outside Windows the home directory is the
/// one `dirs` finds at the time of the call.
pub fn normalize_config_path(input: &str, host: &HostEnv) -> (r: String)
    ensures
        host.os == HostOs::Windows ==> r@ == expand_windows(input@, opt_text(host.appdata), opt_text(host.user_profile)),
        host.os != HostOs::Windows ==> exists|home: Option<Seq<char>>| r@ == expand_unix(input@, home),
{
    if host.os == HostOs::Windows {
        expand_windows_path(input, &host.appdata, &host.user_profile)
    } else {
        let home = home_dir_text();
        let r = expand_home(input, home);
        assert(r@ == expand_unix(input@, opt_text(home)));
        r
    }
}

} // verus!
