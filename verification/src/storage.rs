//! The saved application state: where it lives, what a first run starts
//! with, and what a load that fails falls back to.
use vstd::prelude::*;

use crate::models::{AppLocale, AppState, HostOs, WorkspaceProfile, default_profile_model};
use crate::paths::{app_dir_text, join_path, opt_text, state_path_text};

verus! {

/// The state of a first run: one default profile, selected, in English.
pub fn default_state(os: HostOs) -> (r: AppState)
    ensures
        r.profiles@.len() == 1,
        r.profiles@[0]@ == default_profile_model(os),
        r.selected_profile == 0,
        r.locale == AppLocale::English,
        r.wf(),
{
    let mut profiles: Vec<WorkspaceProfile> = Vec::new();
    profiles.push(WorkspaceProfile::default_for(os));
    AppState { profiles, selected_profile: 0, locale: AppLocale::English }
}

/// The state to start from, given what reading and parsing the saved file
/// gave: the saved state, or the first-run state when either step failed.
pub fn load_state(saved: Result<AppState, String>, os: HostOs) -> (r: AppState)
    ensures
        match saved {
            Ok(s) => r == s,
            Err(_) => r.profiles@.len() == 1 && r.profiles@[0]@ == default_profile_model(os)
                && r.selected_profile == 0 && r.locale == AppLocale::English && r.wf(),
        },
{
    match saved {
        Ok(state) => state,
        Err(_) => default_state(os),
    }
}

/// Calls `dirs::config_dir` and keeps the directory only where its path is
/// valid Unicode. Nothing is claimed of the answer: `dirs` derives it from the
/// environment (`$XDG_CONFIG_HOME`, the home directory, or the platform's
/// known folders) at the time of the call.
#[verifier::external_body]
fn config_dir_text() -> (r: Option<String>) {
    match dirs::config_dir() {
        Some(p) => p.to_str().map(str::to_owned),
        None => None,
    }
}

/// The directory of the application's own files, given the user's
/// configuration directory if there is one.
pub fn app_config_dir_in(config_dir: &Option<String>, os: HostOs) -> (r: String)
    ensures
        r@ == app_dir_text(opt_text(*config_dir), os),
{
    match config_dir {
        Some(d) => join_path(d.as_str(), "openmcp", os),
        None => join_path(".", "openmcp", os),
    }
}

/// The file that holds the saved state, given the user's configuration
/// directory if there is one.
pub fn state_file_path_in(config_dir: &Option<String>, os: HostOs) -> (r: String)
    ensures
        r@ == state_path_text(opt_text(*config_dir), os),
{
    let dir = app_config_dir_in(config_dir, os);
    join_path(dir.as_str(), "profiles.json", os)
}

/// The directory of the application's own files, under the configuration
/// directory that `dirs` finds at the time of the call.
pub fn app_config_dir(os: HostOs) -> (r: String)
    ensures
        exists|dir: Option<Seq<char>>| r@ == app_dir_text(dir, os),
{
    let dir = config_dir_text();
    app_config_dir_in(&dir, os)
}

/// The file that holds the saved state, under the configuration directory
/// that `dirs` finds at the time of the call.
pub fn state_file_path(os: HostOs) -> (r: String)
    ensures
        exists|dir: Option<Seq<char>>| r@ == state_path_text(dir, os),
{
    let dir = config_dir_text();
    state_file_path_in(&dir, os)
}

} // verus!
