//! Properties of the library as a whole, stated over the models that the
//! functions' contracts use.
use vstd::prelude::*;

use crate::app::{enabled_entries, generated_config, setup_text};
use crate::json::Json;
use crate::models::{
    AppLocale, HostOs, ProfileModel, scope_label, ServerModel, TransportKind, env_keys_distinct, env_set, env_unset, key_index, lemma_key_index, opencode_entry,
    transport_name,
};
use crate::opencode::{
    ConfigAction, ConfigSource, applied, install_into, install_picks, loaded_config, nothing_to_uninstall_text,
    requested_ids, server_block, shaped_config, well_shaped,
};
use crate::paths::{expand_unix, is_drive_only, joined, state_path_text, strip_repeated};
use crate::text::{all_ws, is_ws, join_spaced, lemma_text_lt_irreflexive, strictly_sorted, words, words_from};
use crate::ui_text::{UiText, ui_text};
use crate::validation::{
    env_issues, id_char, id_taken, profile_issues, server_issues, servers_issues, valid_id_chars,
};

verus! {

/// An install or an uninstall changes only the `mcpServers` block: every
/// other top-level entry of the document is kept as it was.
pub proof fn law_edit_keeps_other_entries(
    servers: Seq<ServerModel>,
    profile_name: Seq<char>,
    path: Seq<char>,
    ids: Seq<Seq<char>>,
    action: ConfigAction,
    respect_enabled: bool,
    source: Result<ConfigSource, String>,
    key: Seq<char>,
)
    requires
        key != "mcpServers"@,
        applied(servers, profile_name, path, ids, action, respect_enabled, loaded_config(source)) is Ok,
    ensures
        ({
            let before = loaded_config(source)->Ok_0->Object_0;
            let after = applied(servers, profile_name, path, ids, action, respect_enabled, loaded_config(source))->Ok_0.0->Object_0;
            &&& after.contains_key(key) == before.contains_key(key)
            &&& before.contains_key(key) ==> after[key] == before[key]
        }),
{
}

/// Every configuration that loading hands back is an object whose
/// `mcpServers` entry is an object.
pub proof fn law_loaded_config_well_shaped(source: Result<ConfigSource, String>)
    ensures
        loaded_config(source) matches Ok(doc) ==> well_shaped(doc),
{
}

/// Texts in strictly increasing order are distinct, so the installed ids that
/// discovery lists hold no id twice.
pub proof fn law_sorted_texts_distinct(s: Seq<Seq<char>>)
    requires
        strictly_sorted(s),
    ensures
        s.no_duplicates(),
{
    assert forall|i: int, j: int| 0 <= i < s.len() && 0 <= j < s.len() && i != j implies s[i] != s[j] by {
        if s[i] == s[j] {
            lemma_text_lt_irreflexive(s[i]);
            if i < j {
                assert(crate::text::text_lt(s[i], s[j]));
            } else {
                assert(crate::text::text_lt(s[j], s[i]));
            }
        }
    }
}

/// The document an edit produces is a well-shaped configuration: shaping it
/// again, as loading does with a parsed document, gives it back unchanged.
pub proof fn law_edit_result_loads_back(
    servers: Seq<ServerModel>,
    profile_name: Seq<char>,
    path: Seq<char>,
    ids: Seq<Seq<char>>,
    action: ConfigAction,
    respect_enabled: bool,
    source: Result<ConfigSource, String>,
)
    requires
        applied(servers, profile_name, path, ids, action, respect_enabled, loaded_config(source)) is Ok,
    ensures
        ({
            let doc = applied(servers, profile_name, path, ids, action, respect_enabled, loaded_config(source))->Ok_0.0;
            &&& well_shaped(doc)
            &&& shaped_config(doc) == Ok::<Json, Seq<char>>(doc)
        }),
{
}

/// Installing puts every picked server into the block under its id; the
/// entry is the server's generated entry unless a later picked server has the
/// same id.
pub proof fn law_install_writes_entries(
    block: Map<Seq<char>, Json>,
    servers: Seq<ServerModel>,
    ids: Set<Seq<char>>,
    respect_enabled: bool,
    i: int,
)
    requires
        0 <= i < servers.len(),
        install_picks(servers[i], ids, respect_enabled),
    ensures
        install_into(block, servers, ids, respect_enabled).contains_key(servers[i].id),
        (forall|j: int| i < j < servers.len() && install_picks(servers[j], ids, respect_enabled) ==> #[trigger] servers[j].id != servers[i].id)
            ==> install_into(block, servers, ids, respect_enabled)[servers[i].id] == opencode_entry(servers[i]),
    decreases servers.len(),
{
    let dl = servers.drop_last();
    if i < servers.len() - 1 {
        law_install_writes_entries(block, dl, ids, respect_enabled, i);
        assert(dl[i] == servers[i]);
        if forall|j: int| i < j < servers.len() && install_picks(servers[j], ids, respect_enabled) ==> #[trigger] servers[j].id != servers[i].id {
            assert forall|j: int| i < j < dl.len() && install_picks(dl[j], ids, respect_enabled) implies #[trigger] dl[j].id != servers[i].id by {
                assert(dl[j] == servers[j]);
            }
            let last = servers.len() - 1;
            if install_picks(servers[last], ids, respect_enabled) {
                assert(servers[last].id != servers[i].id);
            }
        }
    }
}

/// What an install writes is found again: every server the install picked
/// has its id in the `mcpServers` block of the new document, and shaping that
/// document again gives it back unchanged.
pub proof fn law_install_then_discover(
    servers: Seq<ServerModel>,
    profile_name: Seq<char>,
    path: Seq<char>,
    ids: Seq<Seq<char>>,
    respect_enabled: bool,
    source: Result<ConfigSource, String>,
    i: int,
)
    requires
        applied(servers, profile_name, path, ids, ConfigAction::Install, respect_enabled, loaded_config(source)) is Ok,
        0 <= i < servers.len(),
        install_picks(servers[i], requested_ids(ids), respect_enabled),
    ensures
        ({
            let doc = applied(servers, profile_name, path, ids, ConfigAction::Install, respect_enabled, loaded_config(source))->Ok_0.0;
            &&& shaped_config(doc) == Ok::<Json, Seq<char>>(doc)
            &&& server_block(doc).contains_key(servers[i].id)
        }),
{
    let block = server_block(loaded_config(source)->Ok_0);
    law_install_writes_entries(block, servers, requested_ids(ids), respect_enabled, i);
}

/// Installing touches only the ids it installs: every other entry of the
/// block is kept.
pub proof fn law_install_keeps_other_servers(
    block: Map<Seq<char>, Json>,
    servers: Seq<ServerModel>,
    ids: Set<Seq<char>>,
    respect_enabled: bool,
    k: Seq<char>,
)
    requires
        !ids.contains(k),
    ensures
        install_into(block, servers, ids, respect_enabled).contains_key(k) == block.contains_key(k),
        block.contains_key(k) ==> install_into(block, servers, ids, respect_enabled)[k] == block[k],
    decreases servers.len(),
{
    if servers.len() > 0 {
        law_install_keeps_other_servers(block, servers.drop_last(), ids, respect_enabled, k);
    }
}

/// Uninstalling the ids that an install used takes the block back to what it
/// was without them; in particular an install of ids that were absent is
/// undone entirely.
pub proof fn law_uninstall_undoes_install(
    block: Map<Seq<char>, Json>,
    servers: Seq<ServerModel>,
    ids: Set<Seq<char>>,
    respect_enabled: bool,
)
    ensures
        install_into(block, servers, ids, respect_enabled).remove_keys(ids) == block.remove_keys(ids),
        block.dom().disjoint(ids) ==> install_into(block, servers, ids, respect_enabled).remove_keys(ids) == block,
{
    let after = install_into(block, servers, ids, respect_enabled);
    assert forall|k: Seq<char>| #[trigger] after.remove_keys(ids).contains_key(k) == block.remove_keys(ids).contains_key(k) by {
        if !ids.contains(k) {
            law_install_keeps_other_servers(block, servers, ids, respect_enabled, k);
        }
    }
    assert forall|k: Seq<char>| #[trigger] after.remove_keys(ids).contains_key(k) implies after.remove_keys(ids)[k] == block.remove_keys(ids)[k] by {
        law_install_keeps_other_servers(block, servers, ids, respect_enabled, k);
    }
    assert(after.remove_keys(ids) =~= block.remove_keys(ids));
    if block.dom().disjoint(ids) {
        assert(block.remove_keys(ids) =~= block);
    }
}

/// After an uninstall none of the requested ids is left in the block, so
/// uninstalling the same ids again finds nothing.
pub proof fn law_uninstall_removes_requested(
    servers: Seq<ServerModel>,
    profile_name: Seq<char>,
    path: Seq<char>,
    ids: Seq<Seq<char>>,
    source: Result<ConfigSource, String>,
)
    requires
        applied(servers, profile_name, path, ids, ConfigAction::Uninstall, false, loaded_config(source)) is Ok,
    ensures
        ({
            let doc = applied(servers, profile_name, path, ids, ConfigAction::Uninstall, false, loaded_config(source))->Ok_0.0;
            &&& forall|k: Seq<char>| #[trigger] requested_ids(ids).contains(k) ==> !server_block(doc).contains_key(k)
            &&& applied(servers, profile_name, path, ids, ConfigAction::Uninstall, false, Ok(doc))
                == Err::<(Json, Seq<char>), Seq<char>>(nothing_to_uninstall_text())
        }),
{
    let doc = applied(servers, profile_name, path, ids, ConfigAction::Uninstall, false, loaded_config(source))->Ok_0.0;
    let wanted = requested_ids(ids);
    assert(wanted.intersect(server_block(doc).dom()) =~= Set::<Seq<char>>::empty());
}

/// The entry generated for a server always names its transport.
pub proof fn law_entry_names_transport(s: ServerModel)
    ensures
        opencode_entry(s) is Object,
        opencode_entry(s)->Object_0.contains_key("transport"@),
        opencode_entry(s)->Object_0["transport"@] == Json::Text(transport_name(s.transport)),
{
    reveal_strlit("transport");
    reveal_strlit("command");
    reveal_strlit("args");
    reveal_strlit("cwd");
    reveal_strlit("env");
    reveal_strlit("_notes");
    reveal_strlit("url");
    let t = "transport"@;
    assert("command"@ != t) by { assert("command"@.len() != t.len()); }
    assert("args"@ != t) by { assert("args"@.len() != t.len()); }
    assert("cwd"@ != t) by { assert("cwd"@.len() != t.len()); }
    assert("env"@ != t) by { assert("env"@.len() != t.len()); }
    assert("_notes"@ != t) by { assert("_notes"@.len() != t.len()); }
    assert("url"@ != t) by { assert("url"@.len() != t.len()); }
}

/// The generated configuration holds exactly the enabled servers' ids.
pub proof fn law_generated_holds_enabled(servers: Seq<ServerModel>, k: Seq<char>)
    ensures
        generated_config(servers)->Object_0["mcpServers"@]->Object_0.contains_key(k)
            <==> exists|i: int| 0 <= i < servers.len() && #[trigger] servers[i].id == k && servers[i].enabled,
    decreases servers.len(),
{
    law_enabled_entries_domain(servers, k);
}

proof fn law_enabled_entries_domain(servers: Seq<ServerModel>, k: Seq<char>)
    ensures
        enabled_entries(servers).contains_key(k)
            <==> exists|i: int| 0 <= i < servers.len() && #[trigger] servers[i].id == k && servers[i].enabled,
    decreases servers.len(),
{
    if servers.len() > 0 {
        let init = servers.drop_last();
        law_enabled_entries_domain(init, k);
        if exists|i: int| 0 <= i < init.len() && #[trigger] init[i].id == k && init[i].enabled {
            let i = choose|i: int| 0 <= i < init.len() && #[trigger] init[i].id == k && init[i].enabled;
            assert(servers[i] == init[i]);
        }
        if exists|i: int| 0 <= i < servers.len() && #[trigger] servers[i].id == k && servers[i].enabled {
            let i = choose|i: int| 0 <= i < servers.len() && #[trigger] servers[i].id == k && servers[i].enabled;
            if i < servers.len() - 1 {
                assert(init[i] == servers[i]);
            }
        }
    }
}

/// A profile passes validation exactly when its name is not blank and every
/// server has a non-blank id made of letters, digits, `-` and `_` that no
/// earlier server uses, a command (stdio) or an `http://`/`https://` URL
/// (sse and http), and no blank environment key.
pub proof fn law_validation_passes_iff(locale: AppLocale, p: ProfileModel)
    ensures
        (profile_issues(locale, p).len() == 0) <==> {
            &&& !all_ws(p.name)
            &&& forall|i: int| 0 <= i < p.servers.len() ==> #[trigger] server_ok(p.servers[i], p.servers.take(i))
        },
{
    lemma_servers_issues_empty(locale, p.servers, p.servers.len());
}

/// The server passes every check, given the servers before it.
pub open spec fn server_ok(s: ServerModel, earlier: Seq<ServerModel>) -> bool {
    &&& !all_ws(s.id)
    &&& valid_id_chars(s.id)
    &&& !id_taken(earlier, s.id)
    &&& match s.transport {
        TransportKind::Stdio => !all_ws(s.command),
        _ => !all_ws(s.url) && ("http://"@.is_prefix_of(s.url) || "https://"@.is_prefix_of(s.url)),
    }
    &&& forall|j: int| 0 <= j < s.env.len() ==> !all_ws(#[trigger] s.env[j].0)
}

proof fn lemma_env_issues_empty(locale: AppLocale, slot: nat, env: Seq<(Seq<char>, Seq<char>)>)
    ensures
        (env_issues(locale, slot, env).len() == 0) <==> forall|j: int| 0 <= j < env.len() ==> !all_ws(#[trigger] env[j].0),
    decreases env.len(),
{
    if env.len() > 0 {
        lemma_env_issues_empty(locale, slot, env.drop_last());
        if forall|j: int| 0 <= j < env.drop_last().len() ==> !all_ws(#[trigger] env.drop_last()[j].0) {
            if !all_ws(env.last().0) {
                assert forall|j: int| 0 <= j < env.len() implies !all_ws(#[trigger] env[j].0) by {
                    if j < env.len() - 1 {
                        assert(env[j] == env.drop_last()[j]);
                    }
                }
            }
        } else {
            let j = choose|j: int| 0 <= j < env.drop_last().len() && all_ws(#[trigger] env.drop_last()[j].0);
            assert(env[j] == env.drop_last()[j]);
        }
        if forall|j: int| 0 <= j < env.len() ==> !all_ws(#[trigger] env[j].0) {
            assert forall|j: int| 0 <= j < env.drop_last().len() implies !all_ws(#[trigger] env.drop_last()[j].0) by {
                assert(env[j] == env.drop_last()[j]);
            }
            assert(!all_ws(env[env.len() - 1].0));
        }
    }
}

proof fn lemma_server_issues_empty(locale: AppLocale, slot: nat, s: ServerModel, earlier: Seq<ServerModel>)
    ensures
        (server_issues(locale, slot, s, earlier).len() == 0) <==> server_ok(s, earlier),
{
    lemma_env_issues_empty(locale, slot, s.env);
}

proof fn lemma_servers_issues_empty(locale: AppLocale, servers: Seq<ServerModel>, n: nat)
    requires
        n <= servers.len(),
    ensures
        (servers_issues(locale, servers, n).len() == 0) <==> forall|i: int| 0 <= i < n ==> #[trigger] server_ok(servers[i], servers.take(i)),
    decreases n,
{
    if n > 0 {
        lemma_servers_issues_empty(locale, servers, (n - 1) as nat);
        lemma_server_issues_empty(locale, n, servers[n - 1], servers.take(n - 1));
    }
}

/// Every message exists in both languages: a profile gets as many
/// messages in one language as in the other.
pub proof fn law_message_count_independent_of_locale(p: ProfileModel)
    ensures
        profile_issues(AppLocale::English, p).len() == profile_issues(AppLocale::Korean, p).len(),
{
    lemma_servers_count(p.servers, p.servers.len());
}

proof fn lemma_env_count(slot: nat, env: Seq<(Seq<char>, Seq<char>)>)
    ensures
        env_issues(AppLocale::English, slot, env).len() == env_issues(AppLocale::Korean, slot, env).len(),
    decreases env.len(),
{
    if env.len() > 0 {
        lemma_env_count(slot, env.drop_last());
    }
}

proof fn lemma_servers_count(servers: Seq<ServerModel>, n: nat)
    requires
        n <= servers.len(),
    ensures
        servers_issues(AppLocale::English, servers, n).len() == servers_issues(AppLocale::Korean, servers, n).len(),
    decreases n,
{
    if n > 0 {
        lemma_servers_count(servers, (n - 1) as nat);
        lemma_env_count(n, servers[n - 1].env);
    }
}

/// Outside Windows a path that does not begin with `~` is used as typed.
pub proof fn law_plain_paths_unchanged(input: Seq<char>, home: Option<Seq<char>>)
    requires
        !"~"@.is_prefix_of(input),
    ensures
        expand_unix(input, home) == input,
{
    reveal_strlit("~");
    reveal_strlit("~/");
    if input == "~"@ {
        assert("~"@.is_prefix_of(input));
    }
    if "~/"@.is_prefix_of(input) {
        assert(input[0] == '~');
        assert("~"@ =~= input.subrange(0, 1));
    }
}

/// Splitting an argument line that was made by joining words with single
/// spaces gives the words back, when each word is non-empty and holds no
/// whitespace; this is what the editor relies on when it shows the argument
/// list as one line and reads it back.
pub proof fn law_split_join_roundtrip(ws: Seq<Seq<char>>)
    requires
        forall|i: int| 0 <= i < ws.len() ==> #[trigger] ws[i].len() > 0,
        forall|i: int, j: int| 0 <= i < ws.len() && 0 <= j < ws[i].len() ==> !is_ws(#[trigger] ws[i][j]),
    ensures
        words(join_spaced(ws)) == ws,
    decreases ws.len(),
{
    lemma_words_join(ws, seq![]);
    assert(Seq::<Seq<char>>::empty() + ws =~= ws);
}

/// Reading a word of non-whitespace characters extends the word begun.
proof fn lemma_words_word(w: Seq<char>, rest: Seq<char>, cur: Seq<char>)
    requires
        forall|j: int| 0 <= j < w.len() ==> !is_ws(#[trigger] w[j]),
    ensures
        words_from(w + rest, cur) == words_from(rest, cur + w),
    decreases w.len(),
{
    if w.len() > 0 {
        assert((w + rest).drop_first() =~= w.drop_first() + rest);
        assert((w + rest)[0] == w[0]);
        lemma_words_word(w.drop_first(), rest, cur.push(w[0]));
        assert(cur.push(w[0]) + w.drop_first() =~= cur + w);
    } else {
        assert(w + rest =~= rest);
        assert(cur + w =~= cur);
    }
}

proof fn lemma_words_join(ws: Seq<Seq<char>>, done: Seq<Seq<char>>)
    requires
        forall|i: int| 0 <= i < ws.len() ==> #[trigger] ws[i].len() > 0,
        forall|i: int, j: int| 0 <= i < ws.len() && 0 <= j < ws[i].len() ==> !is_ws(#[trigger] ws[i][j]),
    ensures
        done + words_from(join_spaced(ws), seq![]) == done + ws,
    decreases ws.len(),
{
    if ws.len() == 0 {
        assert(words_from(Seq::<char>::empty(), seq![]) =~= Seq::<Seq<char>>::empty());
    } else if ws.len() == 1 {
        assert(forall|j: int| 0 <= j < ws[0].len() ==> !is_ws(#[trigger] ws[0][j]));
        lemma_words_word(ws[0], seq![], seq![]);
        assert(ws[0] + Seq::<char>::empty() =~= ws[0]);
        assert(Seq::<char>::empty() + ws[0] =~= ws[0]);
        assert(ws =~= seq![ws[0]]);
    } else {
        let rest = seq![' '] + join_spaced(ws.drop_first());
        assert(join_spaced(ws) =~= ws[0] + rest);
        assert(forall|j: int| 0 <= j < ws[0].len() ==> !is_ws(#[trigger] ws[0][j]));
        lemma_words_word(ws[0], rest, seq![]);
        assert(Seq::<char>::empty() + ws[0] =~= ws[0]);
        assert(rest.drop_first() =~= join_spaced(ws.drop_first()));
        assert(is_ws(rest[0]));
        assert(words_from(rest, ws[0]) =~= seq![ws[0]] + words_from(join_spaced(ws.drop_first()), seq![]));
        let tail = ws.drop_first();
        assert forall|i: int| 0 <= i < tail.len() implies #[trigger] tail[i].len() > 0 by {
            assert(tail[i] == ws[i + 1]);
        }
        assert forall|i: int, j: int| 0 <= i < tail.len() && 0 <= j < tail[i].len() implies !is_ws(#[trigger] tail[i][j]) by {
            assert(tail[i] == ws[i + 1]);
        }
        lemma_words_join(tail, done.push(ws[0]));
        assert(done + (seq![ws[0]] + words_from(join_spaced(tail), seq![])) =~= done.push(ws[0]) + words_from(join_spaced(tail), seq![]));
        assert(done.push(ws[0]) + tail =~= done + ws);
    }
}

/// Editing the environment variables keeps their keys distinct, so the list
/// behaves as a map from key to value: setting a key leaves one pair for it,
/// holding the new value, and unsetting it leaves none.
pub proof fn law_env_edits_keep_keys_distinct(env: Seq<(Seq<char>, Seq<char>)>, k: Seq<char>, v: Seq<char>)
    requires
        env_keys_distinct(env),
    ensures
        env_keys_distinct(env_set(env, k, v)),
        env_keys_distinct(env_unset(env, k)),
        exists|i: int| 0 <= i < env_set(env, k, v).len() && #[trigger] env_set(env, k, v)[i] == (k, v),
        forall|i: int| 0 <= i < env_unset(env, k).len() ==> #[trigger] env_unset(env, k)[i].0 != k,
{
    lemma_key_index(env, k);
    let ki = key_index(env, k);
    let set = env_set(env, k, v);
    let unset = env_unset(env, k);
    if ki >= 0 {
        assert forall|i: int, j: int| 0 <= i < set.len() && 0 <= j < set.len() && i != j implies set[i].0 != set[j].0 by {
            if i != ki && j != ki {
                assert(set[i] == env[i] && set[j] == env[j]);
            } else if i == ki {
                assert(set[j] == env[j]);
            } else {
                assert(set[i] == env[i]);
            }
        }
        assert(set[ki] == (k, v));
        assert forall|i: int, j: int| 0 <= i < unset.len() && 0 <= j < unset.len() && i != j implies unset[i].0 != unset[j].0 by {
            let a = if i < ki { i } else { i + 1 };
            let b = if j < ki { j } else { j + 1 };
            assert(unset[i] == env[a] && unset[j] == env[b]);
        }
        assert forall|i: int| 0 <= i < unset.len() implies #[trigger] unset[i].0 != k by {
            let a = if i < ki { i } else { i + 1 };
            assert(unset[i] == env[a]);
            assert(env[ki].0 == k);
        }
    } else {
        assert forall|i: int, j: int| 0 <= i < set.len() && 0 <= j < set.len() && i != j implies set[i].0 != set[j].0 by {
            if i < env.len() && j < env.len() {
                assert(set[i] == env[i] && set[j] == env[j]);
            } else if i < env.len() {
                assert(set[i] == env[i]);
            } else {
                assert(set[j] == env[j]);
            }
        }
        assert(set[env.len() as int] == (k, v));
    }
}

/// Every character of `s` is ASCII.
pub open spec fn ascii_text(s: Seq<char>) -> bool {
    forall|i: int| 0 <= i < s.len() ==> (#[trigger] s[i] as u32) < 128
}

/// The texts that read the same in every language: the application's name
/// and the transport names.
pub open spec fn shared_text(key: UiText) -> bool {
    ||| key == UiText::AppTitle
    ||| key == UiText::TransportStdioLabel
    ||| key == UiText::TransportSseLabel
    ||| key == UiText::TransportHttpLabel
}

/// Every text exists in both languages and is translated: the English text is
/// plain ASCII, and the Korean one is not (it holds Hangul), so the two differ;
/// only the application's name and the transport names read the same in both.
#[verifier::rlimit(50)]
pub proof fn law_texts_per_language(key: UiText)
    ensures
        shared_text(key) ==> ui_text(AppLocale::English, key) == ui_text(AppLocale::Korean, key),
        !shared_text(key) ==> ascii_text(ui_text(AppLocale::English, key)) && !ascii_text(ui_text(AppLocale::Korean, key)),
        ui_text(AppLocale::English, key) == ui_text(AppLocale::Korean, key) <==> shared_text(key),
{
    match key {
        UiText::AppTitle => {
            reveal_strlit("OpenMCP");
        },
        UiText::AppSubtitle => {
            reveal_strlit("Build OpenCode MCP configs without hand-editing JSON.");
            reveal_strlit("OpenCode MCP 설정을 JSON을 직접 편집하지 않고 생성하세요.");
            assert(("OpenCode MCP 설정을 JSON을 직접 편집하지 않고 생성하세요."@)[13] as u32 >= 128);
        },
        UiText::BtnSave => {
            reveal_strlit("Save");
            reveal_strlit("저장");
            assert(("저장"@)[0] as u32 >= 128);
        },
        UiText::BtnUninstallEnabled => {
            reveal_strlit("Uninstall Enabled");
            reveal_strlit("활성 서버 제거");
            assert(("활성 서버 제거"@)[0] as u32 >= 128);
        },
        UiText::BtnInstallEnabled => {
            reveal_strlit("Install Enabled");
            reveal_strlit("활성 서버 설치");
            assert(("활성 서버 설치"@)[0] as u32 >= 128);
        },
        UiText::BtnLoadConfig => {
            reveal_strlit("Load Config");
            reveal_strlit("설정 다시 불러오기");
            assert(("설정 다시 불러오기"@)[0] as u32 >= 128);
        },
        UiText::BtnCopySetup => {
            reveal_strlit("Copy Setup");
            reveal_strlit("설치 안내 복사");
            assert(("설치 안내 복사"@)[0] as u32 >= 128);
        },
        UiText::BtnCopyJson => {
            reveal_strlit("Copy JSON");
            reveal_strlit("JSON 복사");
            assert(("JSON 복사"@)[5] as u32 >= 128);
        },
        UiText::Profiles => {
            reveal_strlit("Profiles");
            reveal_strlit("프로필");
            assert(("프로필"@)[0] as u32 >= 128);
        },
        UiText::ProfilesHint => {
            reveal_strlit("Separate project-specific MCP wiring from global setups.");
            reveal_strlit("프로젝트별 MCP 설정과 전역 설정을 분리해서 관리할 수 있습니다.");
            assert(("프로젝트별 MCP 설정과 전역 설정을 분리해서 관리할 수 있습니다."@)[0] as u32 >= 128);
        },
        UiText::BtnNew => {
            reveal_strlit("New");
            reveal_strlit("새로 만들기");
            assert(("새로 만들기"@)[0] as u32 >= 128);
        },
        UiText::BtnDuplicate => {
            reveal_strlit("Duplicate");
            reveal_strlit("복제");
            assert(("복제"@)[0] as u32 >= 128);
        },
        UiText::BtnDelete => {
            reveal_strlit("Delete");
            reveal_strlit("삭제");
            assert(("삭제"@)[0] as u32 >= 128);
        },
        UiText::ProfileSection => {
            reveal_strlit("Profile");
            reveal_strlit("프로필");
            assert(("프로필"@)[0] as u32 >= 128);
        },
        UiText::ScopeLabel => {
            reveal_strlit("Scope");
            reveal_strlit("적용 범위");
            assert(("적용 범위"@)[0] as u32 >= 128);
        },
        UiText::ScopeHintLabel => {
            reveal_strlit("Project or global scope");
            reveal_strlit("프로젝트 또는 전역");
            assert(("프로젝트 또는 전역"@)[0] as u32 >= 128);
        },
        UiText::OpenCodePathLabel => {
            reveal_strlit("OpenCode target path hint");
            reveal_strlit("OpenCode 경로 힌트");
            assert(("OpenCode 경로 힌트"@)[9] as u32 >= 128);
        },
        UiText::OpenCodePathHint => {
            reveal_strlit("Where you expect to paste or merge the config");
            reveal_strlit("설정을 붙여넣거나 병합할 경로를 입력하세요");
            assert(("설정을 붙여넣거나 병합할 경로를 입력하세요"@)[0] as u32 >= 128);
        },
        UiText::OperatorNoteLabel => {
            reveal_strlit("Operator note");
            reveal_strlit("운영 메모");
            assert(("운영 메모"@)[0] as u32 >= 128);
        },
        UiText::OperatorNoteHint => {
            reveal_strlit("Explain where or how this JSON should be applied");
            reveal_strlit("이 JSON 적용 위치/방식을 설명하세요");
            assert(("이 JSON 적용 위치/방식을 설명하세요"@)[0] as u32 >= 128);
        },
        UiText::McpServersSection => {
            reveal_strlit("MCP Servers");
            reveal_strlit("MCP 서버");
            assert(("MCP 서버"@)[4] as u32 >= 128);
        },
        UiText::LanguageSection => {
            reveal_strlit("Language");
            reveal_strlit("언어");
            assert(("언어"@)[0] as u32 >= 128);
        },
        UiText::LanguageValueLabel => {
            reveal_strlit("Select language");
            reveal_strlit("언어 선택");
            assert(("언어 선택"@)[0] as u32 >= 128);
        },
        UiText::ServerCountLabel => {
            reveal_strlit("Server");
            reveal_strlit("서버");
            assert(("서버"@)[0] as u32 >= 128);
        },
        UiText::TransportLabel => {
            reveal_strlit("Transport");
            reveal_strlit("전송 방식");
            assert(("전송 방식"@)[0] as u32 >= 128);
        },
        UiText::TransportStdioLabel => {
            reveal_strlit("stdio");
        },
        UiText::TransportSseLabel => {
            reveal_strlit("sse");
        },
        UiText::TransportHttpLabel => {
            reveal_strlit("http");
        },
        UiText::ServerCardInstalled => {
            reveal_strlit("Installed");
            reveal_strlit("설치됨");
            assert(("설치됨"@)[0] as u32 >= 128);
        },
        UiText::ServerCardNotInstalled => {
            reveal_strlit("Not installed");
            reveal_strlit("미설치");
            assert(("미설치"@)[0] as u32 >= 128);
        },
        UiText::ServerIdLabel => {
            reveal_strlit("Server id");
            reveal_strlit("서버 ID");
            assert(("서버 ID"@)[0] as u32 >= 128);
        },
        UiText::CommandLabel => {
            reveal_strlit("Command");
            reveal_strlit("실행 명령");
            assert(("실행 명령"@)[0] as u32 >= 128);
        },
        UiText::ArgsLabel => {
            reveal_strlit("Arguments");
            reveal_strlit("인자");
            assert(("인자"@)[0] as u32 >= 128);
        },
        UiText::WorkingDirectoryLabel => {
            reveal_strlit("Working directory");
            reveal_strlit("작업 디렉터리");
            assert(("작업 디렉터리"@)[0] as u32 >= 128);
        },
        UiText::EndpointLabel => {
            reveal_strlit("Endpoint URL");
            reveal_strlit("엔드포인트 URL");
            assert(("엔드포인트 URL"@)[0] as u32 >= 128);
        },
        UiText::EnvVarsLabel => {
            reveal_strlit("Environment variables");
            reveal_strlit("환경 변수");
            assert(("환경 변수"@)[0] as u32 >= 128);
        },
        UiText::AddEnvVarButton => {
            reveal_strlit("Add Env Var");
            reveal_strlit("환경 변수 추가");
            assert(("환경 변수 추가"@)[0] as u32 >= 128);
        },
        UiText::NotesLabel => {
            reveal_strlit("Notes");
            reveal_strlit("메모");
            assert(("메모"@)[0] as u32 >= 128);
        },
        UiText::RemoveServerButton => {
            reveal_strlit("Remove");
            reveal_strlit("제거");
            assert(("제거"@)[0] as u32 >= 128);
        },
        UiText::AddServerButton => {
            reveal_strlit("Add MCP Server");
            reveal_strlit("MCP 서버 추가");
            assert(("MCP 서버 추가"@)[4] as u32 >= 128);
        },
        UiText::GeneratedConfigTitle => {
            reveal_strlit("Generated Config");
            reveal_strlit("생성된 설정");
            assert(("생성된 설정"@)[0] as u32 >= 128);
        },
        UiText::GeneratedConfigHint => {
            reveal_strlit("Paste this `mcpServers` block into the place OpenCode expects.");
            reveal_strlit("OpenCode가 기대하는 위치에 `mcpServers` 블록을 붙여 넣으세요.");
            assert(("OpenCode가 기대하는 위치에 `mcpServers` 블록을 붙여 넣으세요."@)[8] as u32 >= 128);
        },
        UiText::ValidationPassed => {
            reveal_strlit("Validation passed");
            reveal_strlit("유효성 검사 통과");
            assert(("유효성 검사 통과"@)[0] as u32 >= 128);
        },
        UiText::ValidationFixHint => {
            reveal_strlit("Fix these issues before exporting");
            reveal_strlit("내보내기 전 오류를 먼저 수정하세요");
            assert(("내보내기 전 오류를 먼저 수정하세요"@)[0] as u32 >= 128);
        },
        UiText::OpenCodeGuideTitle => {
            reveal_strlit("OpenCode Guide");
            reveal_strlit("OpenCode 가이드");
            assert(("OpenCode 가이드"@)[9] as u32 >= 128);
        },
        UiText::FlowTitle => {
            reveal_strlit("Suggested flow");
            reveal_strlit("권장 동작 순서");
            assert(("권장 동작 순서"@)[0] as u32 >= 128);
        },
        UiText::FlowStep1 => {
            reveal_strlit("1. Install the MCP server runtime or binary used by the command.");
            reveal_strlit("1. 명령어에 사용되는 MCP 실행 파일/런타임을 먼저 설치하세요.");
            assert(("1. 명령어에 사용되는 MCP 실행 파일/런타임을 먼저 설치하세요."@)[3] as u32 >= 128);
        },
        UiText::FlowStep2 => {
            reveal_strlit("2. Verify the command runs outside OpenCode first.");
            reveal_strlit("2. OpenCode 외부에서 명령이 정상 동작하는지 먼저 확인하세요.");
            assert(("2. OpenCode 외부에서 명령이 정상 동작하는지 먼저 확인하세요."@)[12] as u32 >= 128);
        },
        UiText::FlowStep3 => {
            reveal_strlit("3. Copy the generated JSON and merge it into your OpenCode config.");
            reveal_strlit("3. 생성된 JSON을 복사해 OpenCode 설정에 병합하세요.");
            assert(("3. 생성된 JSON을 복사해 OpenCode 설정에 병합하세요."@)[3] as u32 >= 128);
        },
        UiText::FlowStep4 => {
            reveal_strlit("4. Reload OpenCode and confirm the server appears.");
            reveal_strlit("4. OpenCode를 다시 로드하고 서버 등록을 확인하세요.");
            assert(("4. OpenCode를 다시 로드하고 서버 등록을 확인하세요."@)[11] as u32 >= 128);
        },
        UiText::FlowScopePrefix => {
            reveal_strlit("Recommended scope");
            reveal_strlit("권장 범위");
            assert(("권장 범위"@)[0] as u32 >= 128);
        },
        UiText::BtnInstallServerCard => {
            reveal_strlit("Install to OpenCode");
            reveal_strlit("OpenCode에 설치");
            assert(("OpenCode에 설치"@)[8] as u32 >= 128);
        },
        UiText::BtnUninstallServerCard => {
            reveal_strlit("Uninstall from OpenCode");
            reveal_strlit("OpenCode에서 제거");
            assert(("OpenCode에서 제거"@)[8] as u32 >= 128);
        },
        UiText::NotesHint => {
            reveal_strlit("Any reminder about installation, auth, or expected capabilities");
            reveal_strlit("설치, 인증, 기대 동작에 대한 메모를 입력하세요");
            assert(("설치, 인증, 기대 동작에 대한 메모를 입력하세요"@)[0] as u32 >= 128);
        },
        UiText::ProfileNameHint => {
            reveal_strlit("Profile name");
            reveal_strlit("프로필 이름");
            assert(("프로필 이름"@)[0] as u32 >= 128);
        },
        UiText::CopyJsonAgain => {
            reveal_strlit("Copy JSON Again");
            reveal_strlit("JSON 다시 복사");
            assert(("JSON 다시 복사"@)[5] as u32 >= 128);
        },
        UiText::ConfigManagerTitle => {
            reveal_strlit("OpenCode Config Manager");
            reveal_strlit("OpenCode 설정 관리자");
            assert(("OpenCode 설정 관리자"@)[9] as u32 >= 128);
        },
        UiText::ReloadInstalledStateButton => {
            reveal_strlit("Reload Installed State");
            reveal_strlit("설치 상태 새로고침");
            assert(("설치 상태 새로고침"@)[0] as u32 >= 128);
        },
        UiText::ManagedPathLabel => {
            reveal_strlit("Managed path");
            reveal_strlit("관리 대상 경로");
            assert(("관리 대상 경로"@)[0] as u32 >= 128);
        },
        UiText::NoServerInConfig => {
            reveal_strlit("No MCP servers found in config.");
            reveal_strlit("설정 파일에서 MCP 서버를 찾지 못했습니다.");
            assert(("설정 파일에서 MCP 서버를 찾지 못했습니다."@)[0] as u32 >= 128);
        },
        UiText::InstalledServerIds => {
            reveal_strlit("Current installed server ids:");
            reveal_strlit("현재 설치된 서버 ID:");
            assert(("현재 설치된 서버 ID:"@)[0] as u32 >= 128);
        },
        UiText::StatusReady => {
            reveal_strlit("Ready");
            reveal_strlit("준비됨");
            assert(("준비됨"@)[0] as u32 >= 128);
        },
        UiText::StatusLoadedConfigState => {
            reveal_strlit("Loaded OpenCode config state");
            reveal_strlit("OpenCode 설정 상태를 읽어왔습니다");
            assert(("OpenCode 설정 상태를 읽어왔습니다"@)[9] as u32 >= 128);
        },
        UiText::StatusConfigReadFailed => {
            reveal_strlit("Config read failed");
            reveal_strlit("설정 읽기 실패");
            assert(("설정 읽기 실패"@)[0] as u32 >= 128);
        },
        UiText::StatusInstallFailed => {
            reveal_strlit("Install failed");
            reveal_strlit("설치 실패");
            assert(("설치 실패"@)[0] as u32 >= 128);
        },
        UiText::StatusUninstallFailed => {
            reveal_strlit("Uninstall failed");
            reveal_strlit("삭제 실패");
            assert(("삭제 실패"@)[0] as u32 >= 128);
        },
        UiText::StatusEmptyIdFailed => {
            reveal_strlit("Install/Uninstall failed: server id is empty.");
            reveal_strlit("설치/삭제 실패: 서버 ID가 비어 있습니다.");
            assert(("설치/삭제 실패: 서버 ID가 비어 있습니다."@)[0] as u32 >= 128);
        },
        UiText::StatusOperationFailed => {
            reveal_strlit("Operation failed");
            reveal_strlit("작업 실패");
            assert(("작업 실패"@)[0] as u32 >= 128);
        },
        UiText::StatusSaveFailed => {
            reveal_strlit("Save failed");
            reveal_strlit("저장 실패");
            assert(("저장 실패"@)[0] as u32 >= 128);
        },
        UiText::StatusSaved => {
            reveal_strlit("Saved");
            reveal_strlit("저장됨");
            assert(("저장됨"@)[0] as u32 >= 128);
        },
        UiText::StatusCopiedJson => {
            reveal_strlit("Generated JSON copied to clipboard");
            reveal_strlit("JSON이 클립보드에 복사됨");
            assert(("JSON이 클립보드에 복사됨"@)[4] as u32 >= 128);
        },
        UiText::StatusCopiedSetup => {
            reveal_strlit("Setup instructions copied to clipboard");
            reveal_strlit("설치 안내가 클립보드에 복사됨");
            assert(("설치 안내가 클립보드에 복사됨"@)[0] as u32 >= 128);
        },
        UiText::StatusProfileCreated => {
            reveal_strlit("New profile created");
            reveal_strlit("새 프로필이 생성됨");
            assert(("새 프로필이 생성됨"@)[0] as u32 >= 128);
        },
        UiText::StatusProfileDuplicated => {
            reveal_strlit("Profile duplicated");
            reveal_strlit("프로필이 복제됨");
            assert(("프로필이 복제됨"@)[0] as u32 >= 128);
        },
        UiText::StatusProfileDeleteBlocked => {
            reveal_strlit("At least one profile must remain");
            reveal_strlit("최소 하나의 프로필은 남겨야 합니다");
            assert(("최소 하나의 프로필은 남겨야 합니다"@)[0] as u32 >= 128);
        },
        UiText::StatusProfileDeleted => {
            reveal_strlit("Profile deleted");
            reveal_strlit("프로필이 삭제됨");
            assert(("프로필이 삭제됨"@)[0] as u32 >= 128);
        },
        UiText::StatusServerRemoved => {
            reveal_strlit("Server removed");
            reveal_strlit("서버가 삭제됨");
            assert(("서버가 삭제됨"@)[0] as u32 >= 128);
        },
        UiText::StatusServerAdded => {
            reveal_strlit("Server added");
            reveal_strlit("서버가 추가됨");
            assert(("서버가 추가됨"@)[0] as u32 >= 128);
        },
        UiText::StatusLanguageChanged => {
            reveal_strlit("Language changed");
            reveal_strlit("언어가 변경됨");
            assert(("언어가 변경됨"@)[0] as u32 >= 128);
        },
        UiText::StatusUnsaved => {
            reveal_strlit("Unsaved changes");
            reveal_strlit("저장되지 않음");
            assert(("저장되지 않음"@)[0] as u32 >= 128);
        },
    }
}

/// Outside Windows, with the home directory `h` known, the path `~` stands
/// for `h`, and `~/rest` for `h`, a `/` and `rest` (where `rest` does not
/// itself begin with another `~/`).
pub proof fn law_home_shorthand_expanded(h: Seq<char>, rest: Seq<char>)
    requires
        !(rest.len() >= 2 && rest[0] == '~' && rest[1] == '/'),
    ensures
        expand_unix(seq!['~'], Some(h)) == h,
        expand_unix(seq!['~', '/'] + rest, Some(h)) == h.push('/') + rest,
{
    reveal_strlit("~");
    reveal_strlit("~/");
    reveal_strlit("/");
    assert("~"@ =~= seq!['~']);
    assert("~/"@ =~= seq!['~', '/']);
    assert("/"@ =~= seq!['/']);
    let input = seq!['~', '/'] + rest;
    assert(input != "~"@) by { assert(input.len() != 1); }
    assert("~/"@.is_prefix_of(input)) by {
        assert(input.subrange(0, 2) =~= "~/"@);
    }
    assert(input.skip(2) =~= rest);
    if "~/"@.is_prefix_of(rest) {
        assert(rest[0] == "~/"@[0] && rest[1] == "~/"@[1]);
    }
    assert(strip_repeated(rest, "~/"@) == rest);
    assert(strip_repeated(input, "~/"@) == rest);
    assert(h + "/"@ + rest =~= h.push('/') + rest);
}

/// Exactly the ASCII letters and digits, `-` and `_` may appear in a server
/// id; so an id passes the character check exactly when each of its
/// characters is one of these.
pub proof fn law_id_characters(c: char, id: Seq<char>)
    ensures
        id_char(c) <==> {
            ||| 0x30 <= (c as u32) <= 0x39
            ||| 0x41 <= (c as u32) <= 0x5A
            ||| 0x61 <= (c as u32) <= 0x7A
            ||| (c as u32) == 0x2D
            ||| (c as u32) == 0x5F
        },
        valid_id_chars(id) <==> forall|i: int| 0 <= i < id.len() ==> {
            ||| 0x30 <= (#[trigger] id[i] as u32) <= 0x39
            ||| 0x41 <= (id[i] as u32) <= 0x5A
            ||| 0x61 <= (id[i] as u32) <= 0x7A
            ||| (id[i] as u32) == 0x2D
            ||| (id[i] as u32) == 0x5F
        },
{
    assert(valid_id_chars(id) ==> forall|i: int| 0 <= i < id.len() ==> {
        ||| 0x30 <= (#[trigger] id[i] as u32) <= 0x39
        ||| 0x41 <= (id[i] as u32) <= 0x5A
        ||| 0x61 <= (id[i] as u32) <= 0x7A
        ||| (id[i] as u32) == 0x2D
        ||| (id[i] as u32) == 0x5F
    }) by {
        if valid_id_chars(id) {
            assert forall|i: int| 0 <= i < id.len() implies {
                ||| 0x30 <= (#[trigger] id[i] as u32) <= 0x39
                ||| 0x41 <= (id[i] as u32) <= 0x5A
                ||| 0x61 <= (id[i] as u32) <= 0x7A
                ||| (id[i] as u32) == 0x2D
                ||| (id[i] as u32) == 0x5F
            } by {
                assert(id_char(id[i]));
                lemma_id_char_code(id[i]);
            }
        }
    }
    assert forall|i: int| 0 <= i < id.len() && ({
        ||| 0x30 <= (#[trigger] id[i] as u32) <= 0x39
        ||| 0x41 <= (id[i] as u32) <= 0x5A
        ||| 0x61 <= (id[i] as u32) <= 0x7A
        ||| (id[i] as u32) == 0x2D
        ||| (id[i] as u32) == 0x5F
    }) implies id_char(id[i]) by {
        lemma_id_char_code(id[i]);
    }
}

/// The character test on server ids, by character code.
proof fn lemma_id_char_code(c: char)
    ensures
        id_char(c) <==> {
            ||| 0x30 <= (c as u32) <= 0x39
            ||| 0x41 <= (c as u32) <= 0x5A
            ||| 0x61 <= (c as u32) <= 0x7A
            ||| (c as u32) == 0x2D
            ||| (c as u32) == 0x5F
        },
{
}

/// The saved state lives in `openmcp/profiles.json` under the configuration
/// directory `d` (a `/` is put between them unless `d` already ends in one),
/// and under the working directory `.` when there is none.
pub proof fn law_state_file_location(d: Seq<char>)
    ensures
        d.len() > 0 && d.last() != '/' ==> state_path_text(Some(d), HostOs::Other) == d + "/openmcp/profiles.json"@,
        state_path_text(None, HostOs::Other) == "./openmcp/profiles.json"@,
        state_path_text(None, HostOs::Windows) == ".\\openmcp\\profiles.json"@,
{
    reveal_strlit("openmcp");
    reveal_strlit("profiles.json");
    reveal_strlit(".");
    reveal_strlit("/openmcp/profiles.json");
    reveal_strlit("./openmcp/profiles.json");
    reveal_strlit(".\\openmcp\\profiles.json");
    reveal_strlit("./openmcp");
    reveal_strlit(".\\openmcp");
    let dir = joined(d, "openmcp"@, HostOs::Other);
    if d.len() > 0 && d.last() != '/' {
        assert(dir == d.push('/') + "openmcp"@);
        assert(dir.last() == 'p');
        assert(joined(dir, "profiles.json"@, HostOs::Other) =~= d + "/openmcp/profiles.json"@);
    }
    let dot = joined("."@, "openmcp"@, HostOs::Other);
    assert(dot =~= "./openmcp"@);
    assert(joined(dot, "profiles.json"@, HostOs::Other) =~= "./openmcp/profiles.json"@);
    let wdot = joined("."@, "openmcp"@, HostOs::Windows);
    assert(!is_drive_only("."@, HostOs::Windows));
    assert(wdot =~= ".\\openmcp"@);
    assert(!is_drive_only(wdot, HostOs::Windows));
    assert(joined(wdot, "profiles.json"@, HostOs::Windows) =~= ".\\openmcp\\profiles.json"@);
}

/// The keys of an OpenCode entry are pairwise distinct texts.
proof fn lemma_entry_keys_distinct()
    ensures
        "transport"@ != "command"@, "transport"@ != "args"@, "transport"@ != "cwd"@,
        "transport"@ != "env"@, "transport"@ != "_notes"@, "transport"@ != "url"@,
        "command"@ != "args"@, "command"@ != "cwd"@, "command"@ != "env"@,
        "command"@ != "_notes"@, "command"@ != "url"@,
        "args"@ != "cwd"@, "args"@ != "env"@, "args"@ != "_notes"@, "args"@ != "url"@,
        "cwd"@ != "env"@, "cwd"@ != "_notes"@, "cwd"@ != "url"@,
        "env"@ != "_notes"@, "env"@ != "url"@, "_notes"@ != "url"@,
{
    reveal_strlit("transport");
    reveal_strlit("command");
    reveal_strlit("args");
    reveal_strlit("cwd");
    reveal_strlit("env");
    reveal_strlit("_notes");
    reveal_strlit("url");
    assert("transport"@.len() == 9 && "command"@.len() == 7 && "args"@.len() == 4 && "_notes"@.len() == 6);
    assert("cwd"@[0] != "env"@[0] && "cwd"@[0] != "url"@[0] && "env"@[0] != "url"@[0]);
}

/// The entry of an sse or http server holds exactly three things: the name
/// of its transport, its URL and its notes.
pub proof fn law_remote_entry(s: ServerModel)
    requires
        s.transport != TransportKind::Stdio,
    ensures
        opencode_entry(s) is Object,
        opencode_entry(s)->Object_0.dom() == set!["transport"@, "url"@, "_notes"@],
        opencode_entry(s)->Object_0["url"@] == Json::Text(s.url),
        opencode_entry(s)->Object_0["_notes"@] == Json::Text(s.notes),
        opencode_entry(s)->Object_0["transport"@] == Json::Text(
            if s.transport == TransportKind::Http { "http"@ } else { "sse"@ },
        ),
{
    lemma_entry_keys_distinct();
    assert(opencode_entry(s)->Object_0.dom() =~= set!["transport"@, "url"@, "_notes"@]);
}

/// The entry of a stdio server names the transport `stdio` and holds the
/// command; it has no URL; it holds the arguments, in order, exactly when
/// there are some, the working directory exactly when it is not blank, and
/// the notes exactly when they are not blank.
pub proof fn law_stdio_entry(s: ServerModel)
    requires
        s.transport == TransportKind::Stdio,
    ensures
        opencode_entry(s) is Object,
        opencode_entry(s)->Object_0["transport"@] == Json::Text("stdio"@),
        opencode_entry(s)->Object_0["command"@] == Json::Text(s.command),
        !opencode_entry(s)->Object_0.contains_key("url"@),
        opencode_entry(s)->Object_0.contains_key("args"@) <==> s.args.len() > 0,
        s.args.len() > 0 ==> {
            let items = opencode_entry(s)->Object_0["args"@];
            &&& items is Array
            &&& items->Array_0.len() == s.args.len()
            &&& forall|i: int| 0 <= i < s.args.len() ==> #[trigger] items->Array_0[i] == Json::Text(s.args[i])
        },
        opencode_entry(s)->Object_0.contains_key("cwd"@) <==> !all_ws(s.cwd),
        !all_ws(s.cwd) ==> opencode_entry(s)->Object_0["cwd"@] == Json::Text(s.cwd),
        opencode_entry(s)->Object_0.contains_key("_notes"@) <==> !all_ws(s.notes),
        !all_ws(s.notes) ==> opencode_entry(s)->Object_0["_notes"@] == Json::Text(s.notes),
{
    lemma_entry_keys_distinct();
}

/// The heading that the setup steps put before the target path, in `locale`.
pub open spec fn path_heading(locale: AppLocale) -> Seq<char> {
    match locale {
        AppLocale::English => "\n\nTarget path hint:\n"@,
        AppLocale::Korean => "\n\n대상 경로:\n"@,
    }
}

/// The heading that the setup steps put before the profile's notes, in `locale`.
pub open spec fn notes_heading(locale: AppLocale) -> Seq<char> {
    match locale {
        AppLocale::English => "\n\nNotes:\n"@,
        AppLocale::Korean => "\n\n메모:\n"@,
    }
}

/// In every language the setup steps end with the target-path heading, the
/// profile's configuration path, the notes heading and the profile's notes,
/// in that order; the steps before them name the profile's scope.
pub proof fn law_setup_text_layout(locale: AppLocale, p: ProfileModel)
    ensures
        exists|steps: Seq<char>|
            setup_text(locale, p) == steps + path_heading(locale) + p.open_code_path + notes_heading(locale) + p.target_hint,
{
    match locale {
        AppLocale::English => {
            let mid = " profile.\n3. Paste the generated JSON into that section or merge the mcpServers block.\n4. If your MCP server uses stdio, confirm the command is available on PATH.\n5. Restart or reload OpenCode after saving.\n\nTarget path hint:\n"@;
            reveal_strlit(" profile.\n3. Paste the generated JSON into that section or merge the mcpServers block.\n4. If your MCP server uses stdio, confirm the command is available on PATH.\n5. Restart or reload OpenCode after saving.\n\nTarget path hint:\n");
            reveal_strlit("\n\nTarget path hint:\n");
            assert(mid =~= mid.take(206) + path_heading(locale));
            let steps = "1. Open OpenCode settings.\n2. Locate the MCP configuration area for the "@ + scope_label(p.scope, locale) + mid.take(206);
            assert(setup_text(locale, p) =~= steps + path_heading(locale) + p.open_code_path + notes_heading(locale) + p.target_hint);
        },
        AppLocale::Korean => {
            let mid = " 프로필의 MCP 설정 영역을 찾습니다.\n3. 생성한 JSON을 붙여넣거나 병합합니다.\n4. stdio 사용 서버는 PATH에 실행 바이너리가 있는지 확인하세요.\n5. 저장 후 OpenCode를 다시 시작/리로드하세요.\n\n대상 경로:\n"@;
            reveal_strlit(" 프로필의 MCP 설정 영역을 찾습니다.\n3. 생성한 JSON을 붙여넣거나 병합합니다.\n4. stdio 사용 서버는 PATH에 실행 바이너리가 있는지 확인하세요.\n5. 저장 후 OpenCode를 다시 시작/리로드하세요.\n\n대상 경로:\n");
            reveal_strlit("\n\n대상 경로:\n");
            assert(mid =~= mid.take(122) + path_heading(locale));
            let steps = "1. OpenCode 설정으로 이동하세요.\n2. "@ + scope_label(p.scope, locale) + mid.take(122);
            assert(setup_text(locale, p) =~= steps + path_heading(locale) + p.open_code_path + notes_heading(locale) + p.target_hint);
        },
    }
}

} // verus!
