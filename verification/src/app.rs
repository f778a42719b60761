//! The state of the editor and the decisions it takes: which profile is
//! selected, what the status line says, which servers an action targets,
//! and how profiles and servers are added, copied and removed.
//!
//! Work that reaches the file system or the clipboard is done by the caller,
//! which hands the outcome back to the methods here.
use vstd::prelude::*;
use vstd::string::*;

use crate::json::{Json, JsonObject, JsonValue, pretty_json, pretty_text};
use crate::models::{
    AppLocale, AppState, HostOs, McpServer, ProfileModel, ServerModel, WorkspaceProfile,
    default_profile_model, default_server_model, opencode_entry, scope_label, server_models,
};
use crate::text::{all_ws, decimal, decimal_text, is_blank, texts};
use crate::ui_text::{UiText, ui_text};
use crate::validation::{profile_issues, validation_messages as profile_validation_messages};

verus! {

/// An install or uninstall asked for from a server's card, by the server's position.
#[derive(Debug, Clone, Copy, PartialEq, Eq, Structural)]
pub enum ServerConfigAction {
    Install(usize),
    Uninstall(usize),
}

/// The editor: the saved state, the status line, whether there are unsaved
/// changes, and the server ids found in the OpenCode configuration.
#[derive(Debug)]
pub struct OpenMcpApp {
    pub state: AppState,
    pub status: String,
    pub dirty: bool,
    pub managed_server_ids: Vec<String>,
}

/// The models of a sequence of profiles.
pub open spec fn profile_models(v: Seq<WorkspaceProfile>) -> Seq<ProfileModel> {
    v.map_values(|p: WorkspaceProfile| p@)
}

/// The position of the profile that is shown: the selected one, or the last
/// one when the selection lies past the end.
pub open spec fn shown_index(selected: nat, len: nat) -> nat {
    if selected < len { selected } else if len == 0 { 0 } else { (len - 1) as nat }
}

/// The ids of the enabled servers, in order.
pub open spec fn enabled_ids(servers: Seq<ServerModel>) -> Seq<Seq<char>>
    decreases servers.len(),
{
    if servers.len() == 0 {
        seq![]
    } else {
        enabled_ids(servers.drop_last()) + if servers.last().enabled {
            seq![servers.last().id]
        } else {
            Seq::<Seq<char>>::empty()
        }
    }
}

/// The `mcpServers` block generated for the enabled servers; a later server
/// replaces an earlier one with the same id.
pub open spec fn enabled_entries(servers: Seq<ServerModel>) -> Map<Seq<char>, Json>
    decreases servers.len(),
{
    if servers.len() == 0 {
        Map::empty()
    } else {
        let m = enabled_entries(servers.drop_last());
        if servers.last().enabled {
            m.insert(servers.last().id, opencode_entry(servers.last()))
        } else {
            m
        }
    }
}

/// The configuration generated for a profile: its enabled servers under `mcpServers`.
pub open spec fn generated_config(servers: Seq<ServerModel>) -> Json {
    Json::Object(Map::<Seq<char>, Json>::empty().insert("mcpServers"@, Json::Object(enabled_entries(servers))))
}

/// Some enabled server of `servers` has the id `id`.
pub open spec fn has_enabled_server_id(servers: Seq<ServerModel>, id: Seq<char>) -> bool {
    exists|j: int| 0 <= j < servers.len() && #[trigger] servers[j].id == id && servers[j].enabled
}

/// The managed ids that belong to enabled servers of the profile, in order.
pub open spec fn owned_ids(managed: Seq<Seq<char>>, servers: Seq<ServerModel>) -> Seq<Seq<char>>
    decreases managed.len(),
{
    if managed.len() == 0 {
        seq![]
    } else {
        owned_ids(managed.drop_last(), servers) + if has_enabled_server_id(servers, managed.last()) {
            seq![managed.last()]
        } else {
            Seq::<Seq<char>>::empty()
        }
    }
}

/// `label: detail`, as the status line shows a failure.
pub open spec fn failure_text(label: Seq<char>, detail: Seq<char>) -> Seq<char> {
    label + ": "@ + detail
}

/// The steps for applying the generated configuration by hand.
pub open spec fn setup_text(locale: AppLocale, p: ProfileModel) -> Seq<char> {
    match locale {
        AppLocale::Korean => "1. OpenCode 설정으로 이동하세요.\n2. "@ + scope_label(p.scope, locale)
            + " 프로필의 MCP 설정 영역을 찾습니다.\n3. 생성한 JSON을 붙여넣거나 병합합니다.\n4. stdio 사용 서버는 PATH에 실행 바이너리가 있는지 확인하세요.\n5. 저장 후 OpenCode를 다시 시작/리로드하세요.\n\n대상 경로:\n"@
            + p.open_code_path + "\n\n메모:\n"@ + p.target_hint,
        AppLocale::English => "1. Open OpenCode settings.\n2. Locate the MCP configuration area for the "@
            + scope_label(p.scope, locale)
            + " profile.\n3. Paste the generated JSON into that section or merge the mcpServers block.\n4. If your MCP server uses stdio, confirm the command is available on PATH.\n5. Restart or reload OpenCode after saving.\n\nTarget path hint:\n"@
            + p.open_code_path + "\n\nNotes:\n"@ + p.target_hint,
    }
}

/// The ids of the enabled servers of `servers`.
fn enabled_server_ids(servers: &Vec<McpServer>) -> (r: Vec<String>)
    ensures
        texts(r@) == enabled_ids(server_models(servers@)),
{
    let ghost all = server_models(servers@);
    let mut r: Vec<String> = Vec::new();
    let mut i: usize = 0;
    assert(all.take(0) =~= Seq::<ServerModel>::empty());
    assert(texts(r@) =~= Seq::<Seq<char>>::empty());
    while i < servers.len()
        invariant
            all == server_models(servers@),
            i <= servers@.len(),
            texts(r@) == enabled_ids(all.take(i as int)),
        decreases servers@.len() - i,
    {
        assert(all.take(i + 1).drop_last() =~= all.take(i as int));
        let ghost before = texts(r@);
        if servers[i].enabled {
            r.push(servers[i].id.clone());
            assert(texts(r@) =~= before + seq![servers@[i as int].id@]);
        } else {
            assert(texts(r@) =~= before + Seq::<Seq<char>>::empty());
        }
        i = i + 1;
    }
    assert(all.take(servers@.len() as int) =~= all);
    r
}

/// The configuration generated for the enabled servers of `servers`.
pub fn generate_config(servers: &Vec<McpServer>) -> (r: JsonValue)
    ensures
        r@ == generated_config(server_models(servers@)),
{
    let ghost all = server_models(servers@);
    let mut block = JsonObject::new();
    let mut i: usize = 0;
    assert(all.take(0) =~= Seq::<ServerModel>::empty());
    while i < servers.len()
        invariant
            all == server_models(servers@),
            i <= servers@.len(),
            block@ == enabled_entries(all.take(i as int)),
        decreases servers@.len() - i,
    {
        assert(all.take(i + 1).drop_last() =~= all.take(i as int));
        if servers[i].enabled {
            block.insert(servers[i].id.clone(), servers[i].to_opencode_value());
        }
        i = i + 1;
    }
    assert(all.take(servers@.len() as int) =~= all);
    let mut root = JsonObject::new();
    root.insert(String::from_str("mcpServers"), JsonValue::Object(block));
    JsonValue::Object(root)
}

/// Whether some enabled server of `servers` has the id `id`.
fn has_enabled_id(servers: &Vec<McpServer>, id: &String) -> (r: bool)
    ensures
        r == has_enabled_server_id(server_models(servers@), id@),
{
    let mut j: usize = 0;
    while j < servers.len()
        invariant
            j <= servers@.len(),
            forall|k: int| 0 <= k < j ==> #[trigger] servers@[k].id@ != id@ || !servers@[k].enabled,
        decreases servers@.len() - j,
    {
        if servers[j].enabled && servers[j].id == *id {
            assert(server_models(servers@)[j as int].id == id@);
            return true;
        }
        j = j + 1;
    }
    assert(!has_enabled_server_id(server_models(servers@), id@)) by {
        if has_enabled_server_id(server_models(servers@), id@) {
            let k = choose|k: int| 0 <= k < servers@.len() && #[trigger] server_models(servers@)[k].id == id@
                && server_models(servers@)[k].enabled;
            assert(servers@[k].id@ == id@);
        }
    }
    false
}

/// `label: detail`.
fn failure_message(label: &str, detail: &str) -> (r: String)
    ensures
        r@ == failure_text(label@, detail@),
{
    let mut m = label.to_owned();
    m.append(": ");
    m.append(detail);
    m
}

/// The whitespace-separated words of an argument line, as the argument list.
pub fn split_shellish(input: &str) -> (r: Vec<String>)
    ensures
        texts(r@) == crate::text::words(input@),
{
    crate::text::split_words(input)
}

impl OpenMcpApp {
    /// The state is well formed: there is a profile to show, and every
    /// server's environment keys are distinct.
    pub open spec fn wf(&self) -> bool {
        self.state.wf()
    }

    /// The position of the profile that is shown.
    pub open spec fn shown(&self) -> nat {
        shown_index(self.state.selected_profile as nat, self.state.profiles@.len())
    }

    /// The model of the profile that is shown.
    pub open spec fn shown_profile(&self) -> ProfileModel {
        self.state.profiles@[self.shown() as int]@
    }

    /// An editor on `state`, with nothing unsaved, no servers known to be
    /// installed yet, and a status line that says it is ready.
    pub fn new(state: AppState) -> (r: OpenMcpApp)
        requires
            state.wf(),
        ensures
            r.wf(),
            r.state == state,
            r.status@ == ui_text(state.locale, UiText::StatusReady),
            !r.dirty,
            r.managed_server_ids@.len() == 0,
    {
        let status = state.locale.t(UiText::StatusReady).to_owned();
        OpenMcpApp { state, status, dirty: false, managed_server_ids: Vec::new() }
    }

    pub fn locale(&self) -> (r: AppLocale)
        ensures
            r == self.state.locale,
    {
        self.state.locale
    }

    /// The text for `key` in the current language.
    pub fn txt(&self, key: UiText) -> (r: &'static str)
        ensures
            r@ == ui_text(self.state.locale, key),
    {
        self.locale().t(key)
    }

    /// The position of the profile that is shown.
    pub fn selected_index(&self) -> (r: usize)
        ensures
            r == self.shown(),
    {
        let len = self.state.profiles.len();
        let sel = self.state.selected_profile;
        if sel < len {
            sel
        } else if len == 0 {
            0
        } else {
            len - 1
        }
    }

    /// The profile that is shown.
    pub fn selected_profile(&self) -> (r: &WorkspaceProfile)
        requires
            self.wf(),
        ensures
            r == self.state.profiles@[self.shown() as int],
    {
        let i = self.selected_index();
        &self.state.profiles[i]
    }

    /// The profile that is shown, to be edited in place.
    pub fn selected_profile_mut(&mut self) -> (r: &mut WorkspaceProfile)
        requires
            old(self).wf(),
        ensures
            *r == old(self).state.profiles@[old(self).shown() as int],
            final(self).state.profiles@ == old(self).state.profiles@.update(old(self).shown() as int, *final(r)),
            final(self).state.selected_profile == old(self).state.selected_profile,
            final(self).state.locale == old(self).state.locale,
            final(self).status == old(self).status,
            final(self).dirty == old(self).dirty,
            final(self).managed_server_ids == old(self).managed_server_ids,
    {
        let i = self.selected_index();
        &mut self.state.profiles[i]
    }

    /// Sets the status line to `key` in the current language.
    pub fn show_status(&mut self, key: UiText)
        ensures
            final(self).status@ == ui_text(old(self).state.locale, key),
            final(self).state == old(self).state,
            final(self).dirty == old(self).dirty,
            final(self).managed_server_ids == old(self).managed_server_ids,
    {
        self.status = self.txt(key).to_owned();
    }

    /// Takes in the ids found in the OpenCode configuration, or none where
    /// reading it failed.
    pub fn record_discovered_ids(&mut self, discovered: Result<Vec<String>, String>)
        ensures
            final(self).managed_server_ids@ == match discovered {
                Ok(ids) => ids@,
                Err(_) => Seq::<String>::empty(),
            },
            final(self).state == old(self).state,
            final(self).status == old(self).status,
            final(self).dirty == old(self).dirty,
    {
        match discovered {
            Ok(ids) => self.managed_server_ids = ids,
            Err(_) => self.managed_server_ids = Vec::new(),
        }
    }

    /// Takes in the result of reading the installed server ids from the
    /// OpenCode configuration of the shown profile, and reports it.
    pub fn refresh_managed_servers(&mut self, discovered: Result<Vec<String>, String>)
        ensures
            final(self).state == old(self).state,
            final(self).dirty == old(self).dirty,
            match discovered {
                Ok(ids) => final(self).managed_server_ids@ == ids@ && final(self).status@ == ui_text(
                    old(self).state.locale,
                    UiText::StatusLoadedConfigState,
                ),
                Err(e) => final(self).managed_server_ids@.len() == 0 && final(self).status@ == failure_text(
                    ui_text(old(self).state.locale, UiText::StatusConfigReadFailed),
                    e@,
                ),
            },
    {
        match discovered {
            Ok(ids) => {
                self.managed_server_ids = ids;
                self.status = self.txt(UiText::StatusLoadedConfigState).to_owned();
            },
            Err(err) => {
                self.status = failure_message(self.txt(UiText::StatusConfigReadFailed), err.as_str());
                self.managed_server_ids = Vec::new();
            },
        }
    }

    /// The ids of the enabled servers of the shown profile.
    pub fn target_server_ids_for_action(&self) -> (r: Vec<String>)
        requires
            self.wf(),
        ensures
            texts(r@) == enabled_ids(self.shown_profile().servers),
    {
        enabled_server_ids(&self.selected_profile().servers)
    }

    /// Takes in the outcome of installing the enabled servers. On success the
    /// report becomes the status and the changes count as saved; the caller
    /// then reloads the installed ids (the answer is `true`).
    pub fn install_enabled_servers(&mut self, outcome: Result<String, String>) -> (reload: bool)
        ensures
            final(self).state == old(self).state,
            final(self).managed_server_ids == old(self).managed_server_ids,
            reload == outcome is Ok,
            match outcome {
                Ok(m) => final(self).status@ == m@ && !final(self).dirty,
                Err(e) => final(self).status@ == failure_text(ui_text(old(self).state.locale, UiText::StatusInstallFailed), e@)
                    && final(self).dirty == old(self).dirty,
            },
    {
        match outcome {
            Ok(message) => {
                self.status = message;
                self.dirty = false;
                true
            },
            Err(message) => {
                self.status = failure_message(self.txt(UiText::StatusInstallFailed), message.as_str());
                false
            },
        }
    }

    /// The installed ids that belong to enabled servers of the shown profile,
    /// which "uninstall enabled" removes; an installed server that is disabled
    /// stays installed.
    pub fn uninstall_targets(&self) -> (r: Vec<String>)
        requires
            self.wf(),
        ensures
            texts(r@) == owned_ids(texts(self.managed_server_ids@), self.shown_profile().servers),
    {
        let profile = self.selected_profile();
        let ghost managed = texts(self.managed_server_ids@);
        let ghost servers = server_models(profile.servers@);
        let mut ids: Vec<String> = Vec::new();
        let mut i: usize = 0;
        assert(managed.take(0) =~= Seq::<Seq<char>>::empty());
        assert(texts(ids@) =~= Seq::<Seq<char>>::empty());
        while i < self.managed_server_ids.len()
            invariant
                managed == texts(self.managed_server_ids@),
                servers == server_models(profile.servers@),
                i <= self.managed_server_ids@.len(),
                texts(ids@) == owned_ids(managed.take(i as int), servers),
            decreases self.managed_server_ids@.len() - i,
        {
            assert(managed.take(i + 1).drop_last() =~= managed.take(i as int));
            assert(managed.take(i + 1).last() == self.managed_server_ids@[i as int]@);
            let ghost before = texts(ids@);
            if has_enabled_id(&profile.servers, &self.managed_server_ids[i]) {
                ids.push(self.managed_server_ids[i].clone());
                assert(texts(ids@) =~= before + seq![self.managed_server_ids@[i as int]@]);
            } else {
                assert(texts(ids@) =~= before + Seq::<Seq<char>>::empty());
            }
            i = i + 1;
        }
        assert(managed.take(self.managed_server_ids@.len() as int) =~= managed);
        ids
    }

    /// Takes in the outcome of uninstalling the targets; like
    /// [`Self::install_enabled_servers`].
    pub fn uninstall_enabled_servers(&mut self, outcome: Result<String, String>) -> (reload: bool)
        ensures
            final(self).state == old(self).state,
            final(self).managed_server_ids == old(self).managed_server_ids,
            reload == outcome is Ok,
            match outcome {
                Ok(m) => final(self).status@ == m@ && !final(self).dirty,
                Err(e) => final(self).status@ == failure_text(ui_text(old(self).state.locale, UiText::StatusUninstallFailed), e@)
                    && final(self).dirty == old(self).dirty,
            },
    {
        match outcome {
            Ok(message) => {
                self.status = message;
                self.dirty = false;
                true
            },
            Err(message) => {
                self.status = failure_message(self.txt(UiText::StatusUninstallFailed), message.as_str());
                false
            },
        }
    }

    /// What a server card's install or uninstall asks for: the action, the
    /// one id it targets, and whether the enabled flag is respected, which it
    /// never is (a card installs its server even when it is disabled). There
    /// is nothing to do when the position is past the last server, and
    /// nothing but a status message when the id is blank.
    pub fn single_server_request(&mut self, action: ServerConfigAction) -> (r: Option<(crate::opencode::ConfigAction, Vec<String>, bool)>)
        requires
            old(self).wf(),
        ensures
            final(self).state == old(self).state,
            final(self).dirty == old(self).dirty,
            final(self).managed_server_ids == old(self).managed_server_ids,
            ({
                let servers = old(self).shown_profile().servers;
                let index = match action {
                    ServerConfigAction::Install(i) => i,
                    ServerConfigAction::Uninstall(i) => i,
                };
                if index >= servers.len() {
                    r is None && final(self).status == old(self).status
                } else if all_ws(servers[index as int].id) {
                    r is None && final(self).status@ == ui_text(old(self).state.locale, UiText::StatusEmptyIdFailed)
                } else {
                    &&& r is Some
                    &&& r->Some_0.0 == match action {
                        ServerConfigAction::Install(_) => crate::opencode::ConfigAction::Install,
                        ServerConfigAction::Uninstall(_) => crate::opencode::ConfigAction::Uninstall,
                    }
                    &&& texts(r->Some_0.1@) == seq![servers[index as int].id]
                    &&& !r->Some_0.2
                    &&& final(self).status == old(self).status
                }
            }),
    {
        let (index, kind) = match action {
            ServerConfigAction::Install(i) => (i, crate::opencode::ConfigAction::Install),
            ServerConfigAction::Uninstall(i) => (i, crate::opencode::ConfigAction::Uninstall),
        };
        let profile = self.selected_profile();
        if index >= profile.servers.len() {
            return None;
        }
        let id = profile.servers[index].id.clone();
        assert(self.shown_profile().servers[index as int].id == id@);
        if is_blank(id.as_str()) {
            self.show_status(UiText::StatusEmptyIdFailed);
            return None;
        }
        let mut ids: Vec<String> = Vec::new();
        ids.push(id);
        assert(texts(ids@) =~= seq![id@]);
        Some((kind, ids, false))
    }

    /// Takes in the outcome of a server card's action: the report becomes the
    /// status, and the caller reloads the installed ids (`true`).
    pub fn finish_single_server_action(&mut self, outcome: Result<String, String>) -> (reload: bool)
        ensures
            final(self).state == old(self).state,
            final(self).dirty == old(self).dirty,
            final(self).managed_server_ids == old(self).managed_server_ids,
            reload == outcome is Ok,
            match outcome {
                Ok(m) => final(self).status@ == m@,
                Err(e) => final(self).status@ == failure_text(ui_text(old(self).state.locale, UiText::StatusOperationFailed), e@),
            },
    {
        match outcome {
            Ok(message) => {
                self.status = message;
                true
            },
            Err(message) => {
                self.status = failure_message(self.txt(UiText::StatusOperationFailed), message.as_str());
                false
            },
        }
    }

    /// Takes in the outcome of saving the state: the file that was written,
    /// or the error.
    pub fn save(&mut self, outcome: Result<String, String>)
        ensures
            final(self).state == old(self).state,
            final(self).managed_server_ids == old(self).managed_server_ids,
            match outcome {
                Ok(path) => final(self).status@ == ui_text(old(self).state.locale, UiText::StatusSaved) + " "@ + path@
                    && !final(self).dirty,
                Err(e) => final(self).status@ == failure_text(ui_text(old(self).state.locale, UiText::StatusSaveFailed), e@)
                    && final(self).dirty == old(self).dirty,
            },
    {
        match outcome {
            Ok(path) => {
                let mut m = self.txt(UiText::StatusSaved).to_owned();
                m.append(" ");
                m.append(path.as_str());
                self.status = m;
                self.dirty = false;
            },
            Err(err) => {
                self.status = failure_message(self.txt(UiText::StatusSaveFailed), err.as_str());
            },
        }
    }

    /// Shows the profile at `index`; the caller then reloads the installed ids.
    pub fn select_profile(&mut self, index: usize)
        ensures
            final(self).state.selected_profile == index,
            final(self).state.profiles == old(self).state.profiles,
            final(self).state.locale == old(self).state.locale,
            final(self).status == old(self).status,
            final(self).dirty == old(self).dirty,
            final(self).managed_server_ids == old(self).managed_server_ids,
    {
        self.state.selected_profile = index;
    }

    /// Adds a fresh profile named after its position and shows it; the caller
    /// then reloads the installed ids.
    pub fn add_profile(&mut self, os: HostOs)
        requires
            old(self).state.profiles@.len() < usize::MAX,
        ensures
            (forall|i: int| 0 <= i < old(self).state.profiles@.len() ==> #[trigger] old(self).state.profiles@[i].wf())
                ==> final(self).wf(),
            final(self).state.profiles@.len() == old(self).state.profiles@.len() + 1,
            final(self).state.profiles@.drop_last() == old(self).state.profiles@,
            final(self).state.profiles@.last()@ == (ProfileModel {
                name: "Profile "@ + decimal((old(self).state.profiles@.len() + 1) as nat),
                ..default_profile_model(os)
            }),
            final(self).state.selected_profile == old(self).state.profiles@.len(),
            final(self).shown() == old(self).state.profiles@.len(),
            final(self).state.locale == old(self).state.locale,
            final(self).dirty,
            final(self).status@ == ui_text(old(self).state.locale, UiText::StatusProfileCreated),
            final(self).managed_server_ids == old(self).managed_server_ids,
    {
        let n = self.state.profiles.len();
        let mut profile = WorkspaceProfile::default_for(os);
        let mut name = String::from_str("Profile ");
        let digits = decimal_text(n + 1);
        name.append(digits.as_str());
        profile.name = name;
        assert(profile.wf());
        self.state.profiles.push(profile);
        assert(self.state.profiles@.drop_last() =~= old(self).state.profiles@);
        assert(forall|i: int| 0 <= i < old(self).state.profiles@.len() ==> self.state.profiles@[i] == old(self).state.profiles@[i]);
        self.state.selected_profile = self.state.profiles.len() - 1;
        self.dirty = true;
        self.show_status(UiText::StatusProfileCreated);
    }

    /// Adds a copy of the shown profile, named with " Copy" after the
    /// copied profile's name, and shows it; the caller then reloads the installed ids.
    pub fn duplicate_profile(&mut self)
        requires
            old(self).wf(),
            old(self).state.profiles@.len() < usize::MAX,
        ensures
            final(self).wf(),
            final(self).state.profiles@.len() == old(self).state.profiles@.len() + 1,
            final(self).state.profiles@.drop_last() == old(self).state.profiles@,
            final(self).state.profiles@.last()@ == (ProfileModel {
                name: old(self).shown_profile().name + " Copy"@,
                ..old(self).shown_profile()
            }),
            final(self).state.selected_profile == old(self).state.profiles@.len(),
            final(self).shown() == old(self).state.profiles@.len(),
            final(self).state.locale == old(self).state.locale,
            final(self).dirty,
            final(self).status@ == ui_text(old(self).state.locale, UiText::StatusProfileDuplicated),
            final(self).managed_server_ids == old(self).managed_server_ids,
    {
        let mut copy = self.selected_profile().copy();
        copy.name.append(" Copy");
        assert(copy.wf()) by {
            assert(old(self).state.profiles@[old(self).shown() as int].wf());
        }
        self.state.profiles.push(copy);
        assert(self.state.profiles@.drop_last() =~= old(self).state.profiles@);
        assert(forall|i: int| 0 <= i < old(self).state.profiles@.len() ==> self.state.profiles@[i] == old(self).state.profiles@[i]);
        self.state.selected_profile = self.state.profiles.len() - 1;
        self.dirty = true;
        self.show_status(UiText::StatusProfileDuplicated);
    }

    /// Deletes the selected profile unless it is the only one, keeping the
    /// selection on a profile that exists. The answer says whether a profile
    /// was deleted, after which the caller reloads the installed ids.
    pub fn delete_selected_profile(&mut self) -> (deleted: bool)
        requires
            old(self).wf(),
            old(self).state.profiles@.len() > 1 ==> old(self).state.selected_profile < old(self).state.profiles@.len(),
        ensures
            final(self).wf(),
            final(self).state.locale == old(self).state.locale,
            final(self).managed_server_ids == old(self).managed_server_ids,
            deleted == (old(self).state.profiles@.len() > 1),
            deleted ==> {
                &&& final(self).state.profiles@ == old(self).state.profiles@.remove(old(self).state.selected_profile as int)
                &&& final(self).state.selected_profile == shown_index(
                    old(self).state.selected_profile as nat,
                    final(self).state.profiles@.len(),
                )
                &&& final(self).state.selected_profile < final(self).state.profiles@.len()
                &&& final(self).dirty
                &&& final(self).status@ == ui_text(old(self).state.locale, UiText::StatusProfileDeleted)
            },
            !deleted ==> {
                &&& final(self).state == old(self).state
                &&& final(self).dirty == old(self).dirty
                &&& final(self).status@ == ui_text(old(self).state.locale, UiText::StatusProfileDeleteBlocked)
            },
    {
        if self.state.profiles.len() <= 1 {
            self.show_status(UiText::StatusProfileDeleteBlocked);
            return false;
        }
        self.state.profiles.remove(self.state.selected_profile);
        let len = self.state.profiles.len();
        if self.state.selected_profile >= len {
            self.state.selected_profile = len - 1;
        }
        self.dirty = true;
        self.show_status(UiText::StatusProfileDeleted);
        true
    }

    /// The configuration generated for the shown profile, as the indented
    /// JSON text that the preview shows and the copy button copies.
    pub fn generated_json(&self) -> (r: String)
        requires
            self.wf(),
        ensures
            r@ == pretty_json(generated_config(self.shown_profile().servers)),
    {
        let config = generate_config(&self.selected_profile().servers);
        pretty_text(&config)
    }

    /// The problems that block exporting the shown profile, in the current language.
    pub fn validation_messages(&self) -> (r: Vec<String>)
        requires
            self.wf(),
        ensures
            texts(r@) == profile_issues(self.state.locale, self.shown_profile()),
    {
        profile_validation_messages(self.selected_profile(), self.state.locale)
    }

    /// The steps for applying the generated configuration by hand, for the shown profile.
    pub fn setup_instructions(&self) -> (r: String)
        requires
            self.wf(),
        ensures
            r@ == setup_text(self.state.locale, self.shown_profile()),
    {
        let profile = self.selected_profile();
        let locale = self.state.locale;
        let mut m = match locale {
            AppLocale::Korean => String::from_str("1. OpenCode 설정으로 이동하세요.\n2. "),
            AppLocale::English => String::from_str("1. Open OpenCode settings.\n2. Locate the MCP configuration area for the "),
        };
        m.append(profile.scope.label(locale));
        match locale {
            AppLocale::Korean => m.append(
                " 프로필의 MCP 설정 영역을 찾습니다.\n3. 생성한 JSON을 붙여넣거나 병합합니다.\n4. stdio 사용 서버는 PATH에 실행 바이너리가 있는지 확인하세요.\n5. 저장 후 OpenCode를 다시 시작/리로드하세요.\n\n대상 경로:\n",
            ),
            AppLocale::English => m.append(
                " profile.\n3. Paste the generated JSON into that section or merge the mcpServers block.\n4. If your MCP server uses stdio, confirm the command is available on PATH.\n5. Restart or reload OpenCode after saving.\n\nTarget path hint:\n",
            ),
        }
        m.append(profile.open_code_path.as_str());
        match locale {
            AppLocale::Korean => m.append("\n\n메모:\n"),
            AppLocale::English => m.append("\n\nNotes:\n"),
        }
        m.append(profile.target_hint.as_str());
        m
    }

    /// Removes the server at `index` from the shown profile.
    pub fn remove_server(&mut self, index: usize)
        requires
            old(self).wf(),
            index < old(self).shown_profile().servers.len(),
        ensures
            final(self).wf(),
            final(self).state.profiles@.len() == old(self).state.profiles@.len(),
            final(self).state.selected_profile == old(self).state.selected_profile,
            final(self).shown_profile() == (ProfileModel {
                servers: old(self).shown_profile().servers.remove(index as int),
                ..old(self).shown_profile()
            }),
            forall|i: int| 0 <= i < old(self).state.profiles@.len() && i != old(self).shown() ==>
                #[trigger] final(self).state.profiles@[i] == old(self).state.profiles@[i],
            final(self).dirty,
            final(self).status@ == ui_text(old(self).state.locale, UiText::StatusServerRemoved),
    {
        let ghost shown = self.shown();
        let profile = self.selected_profile_mut();
        let ghost before = server_models(profile.servers@);
        profile.servers.remove(index);
        assert(server_models(profile.servers@) =~= before.remove(index as int));
        assert(profile.wf()) by {
            assert(old(self).state.profiles@[shown as int].wf());
            assert forall|i: int| 0 <= i < server_models(profile.servers@).len()
                implies crate::models::env_keys_distinct(#[trigger] server_models(profile.servers@)[i].env) by {
                let k = if i < index { i } else { i + 1 };
                assert(server_models(profile.servers@)[i] == before[k]);
            }
        }
        self.dirty = true;
        self.show_status(UiText::StatusServerRemoved);
    }

    /// Adds a server to the shown profile: a copy of the default server whose
    /// id is `server_N`, N being the new number of servers.
    pub fn add_server(&mut self)
        requires
            old(self).wf(),
            old(self).shown_profile().servers.len() < usize::MAX,
        ensures
            final(self).wf(),
            final(self).state.profiles@.len() == old(self).state.profiles@.len(),
            final(self).state.selected_profile == old(self).state.selected_profile,
            final(self).shown_profile() == (ProfileModel {
                servers: old(self).shown_profile().servers.push(
                    ServerModel {
                        id: "server_"@ + decimal((old(self).shown_profile().servers.len() + 1) as nat),
                        ..default_server_model()
                    },
                ),
                ..old(self).shown_profile()
            }),
            forall|i: int| 0 <= i < old(self).state.profiles@.len() && i != old(self).shown() ==>
                #[trigger] final(self).state.profiles@[i] == old(self).state.profiles@[i],
            final(self).dirty,
            final(self).status@ == ui_text(old(self).state.locale, UiText::StatusServerAdded),
    {
        let next_id = self.selected_profile().servers.len() + 1;
        let mut server = McpServer::default();
        let mut id = String::from_str("server_");
        let digits = decimal_text(next_id);
        id.append(digits.as_str());
        server.id = id;
        let profile = self.selected_profile_mut();
        let ghost before = server_models(profile.servers@);
        proof {
            assert(old(self).state.profiles@[old(self).shown() as int].wf());
        }
        profile.servers.push(server);
        assert(server_models(profile.servers@) =~= before.push(server@));
        assert(profile.wf()) by {
            assert forall|i: int| 0 <= i < server_models(profile.servers@).len()
                implies crate::models::env_keys_distinct(#[trigger] server_models(profile.servers@)[i].env) by {
                if i < before.len() {
                    assert(server_models(profile.servers@)[i] == before[i]);
                }
            }
        }
        self.dirty = true;
        self.show_status(UiText::StatusServerAdded);
    }
}

} // verus!
