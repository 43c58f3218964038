use acp_web_frontend::accounts_page::{AccountsPageState, AgentProfileRowState};
use acp_web_frontend::agent_profiles::{
    agent_command_preview, agent_profile_delete_icon, agent_profile_save_icon,
    agent_profile_save_label, agent_profile_values_changed, delete_profile_label,
    preview_argv_arg, profile_mode_from_value, profile_mode_value,
};
use acp_web_frontend::contracts::{AgentProfile, AgentProfileMode};
use acp_web_frontend::icons::AppIcon;

fn sample_agent_profile(mode: AgentProfileMode) -> AgentProfile {
    AgentProfile {
        id: "opencode".to_string(),
        name: "OpenCode ACP".to_string(),
        mode,
        command_argv: vec![
            "opencode".to_string(),
            "acp".to_string(),
            "--port".to_string(),
            "${ACP_PORT}".to_string(),
        ],
    }
}

fn check_argv_boundaries() {
    assert_eq!(
        agent_command_preview(&[
            "agent".to_string(),
            "can't".to_string(),
            r#"dir\name"#.to_string(),
            String::new(),
        ]),
        r#"agent 'can'\''t' 'dir\name' ''"#
    );
}

#[test]
fn agent_profiles_section_builds_with_host_default() {
    let mut state = AccountsPageState::new();
    state.agent_profiles = vec![sample_agent_profile(AgentProfileMode::Host)];
    assert_eq!(state.agent_profile_mode, AgentProfileMode::Host);
}

#[test]
fn agent_profile_state_signals_detect_changes() {
    let mut state = AccountsPageState::new();
    let profile = sample_agent_profile(AgentProfileMode::Host);
    let command_preview = agent_command_preview(&profile.command_argv);
    assert!(!state.agent_profile_deleting(&profile.id));
    state.deleting_agent_profile_id = Some(profile.id.clone());
    assert!(state.agent_profile_deleting(&profile.id));

    let row = AgentProfileRowState::new(&profile);
    assert_eq!(row.command, command_preview);
    assert!(!row.is_dirty(&profile));
    assert!(agent_profile_values_changed("Renamed", &command_preview, profile.mode, &profile));
    assert!(agent_profile_values_changed(&profile.name, "agent acp", profile.mode, &profile));
    assert!(agent_profile_values_changed(
        &profile.name,
        &command_preview,
        AgentProfileMode::Chroot,
        &profile
    ));
}

#[test]
fn agent_profile_action_icons_follow_busy_state() {
    assert_eq!(agent_profile_save_icon(false), AppIcon::Save);
    assert_eq!(agent_profile_save_icon(true), AppIcon::Busy);
    assert_eq!(agent_profile_delete_icon(false), AppIcon::Delete);
    assert_eq!(agent_profile_delete_icon(true), AppIcon::Busy);
}

#[test]
fn host_create_profile_handler_updates_state() {
    let mut state = AccountsPageState::new();
    state.agent_profile_name = "Copilot ACP".to_string();
    state.agent_profile_command = "copilot acp --port ${ACP_PORT}".to_string();
    state.agent_profile_mode = AgentProfileMode::Chroot;
    let request = state.begin_create_agent_profile();
    assert_eq!(
        request,
        Some((
            "Copilot ACP".to_string(),
            "copilot acp --port ${ACP_PORT}".to_string(),
            AgentProfileMode::Chroot
        ))
    );
    state.finish_create_agent_profile(Ok(AgentProfile {
        id: "copilot".to_string(),
        name: "Copilot ACP".to_string(),
        mode: AgentProfileMode::Chroot,
        command_argv: vec!["copilot".to_string(), "acp".to_string()],
    }));
    assert!(state.agent_profile_name.is_empty());
    assert!(state.agent_profile_command.is_empty());
    assert_eq!(state.agent_profile_mode, AgentProfileMode::Host);
    assert_eq!(state.notice.as_deref(), Some("ACP profile saved."));
    assert_eq!(state.agent_profiles.len(), 1);

    state.agent_profile_saving = true;
    state.notice = None;
    assert!(state.begin_create_agent_profile().is_none());
    assert!(state.agent_profile_saving);
    assert!(state.notice.is_none());
    state.agent_profile_saving = false;
}

#[test]
fn host_save_profile_handler_updates_state() {
    let mut state = AccountsPageState::new();
    let profile = sample_agent_profile(AgentProfileMode::Host);
    state.agent_profiles = vec![profile.clone()];
    let mut row = AgentProfileRowState::new(&profile);
    row.name = "OpenCode ACP updated".to_string();
    let request = row.begin_save_agent_profile(&mut state);
    assert_eq!(
        request,
        Some((
            "OpenCode ACP updated".to_string(),
            agent_command_preview(&profile.command_argv),
            AgentProfileMode::Host
        ))
    );
    let mut updated = profile.clone();
    updated.name = "OpenCode ACP updated".to_string();
    row.finish_save_agent_profile(&mut state, Ok(updated));
    assert!(!row.saving);
    assert_eq!(state.notice.as_deref(), Some("ACP profile updated."));
    assert_eq!(state.agent_profiles[0].name, "OpenCode ACP updated");

    row.saving = true;
    state.notice = None;
    assert!(row.begin_save_agent_profile(&mut state).is_none());
    assert!(row.saving);
    assert!(state.notice.is_none());
}

#[test]
fn host_delete_profile_handler_updates_state() {
    let mut state = AccountsPageState::new();
    let profile = sample_agent_profile(AgentProfileMode::Host);
    state.agent_profiles = vec![profile.clone()];
    state.deleting_agent_profile_id = None;
    assert!(state.begin_delete_agent_profile(&profile.id));
    state.finish_delete_agent_profile(&profile.id, Ok(()));
    assert!(state.agent_profiles.is_empty());
    assert_eq!(state.notice.as_deref(), Some("ACP profile deleted."));

    state.deleting_agent_profile_id = Some("other-profile".to_string());
    assert!(!state.begin_delete_agent_profile(&profile.id));
    assert_eq!(state.deleting_agent_profile_id.as_deref(), Some("other-profile"));
}

#[test]
fn profile_mode_helpers_match_api_values() {
    assert_eq!(profile_mode_value(AgentProfileMode::Host), "host");
    assert_eq!(profile_mode_value(AgentProfileMode::Chroot), "chroot");
    assert_eq!(profile_mode_from_value("host"), AgentProfileMode::Host);
    assert_eq!(profile_mode_from_value("chroot"), AgentProfileMode::Chroot);
}

#[test]
fn agent_profiles_agent_command_preview_preserves_argv_boundaries() {
    check_argv_boundaries();
}

#[test]
fn route_agent_command_preview_preserves_argv_boundaries() {
    assert_eq!(
        agent_command_preview(&[
            "gemini".to_string(),
            "acp".to_string(),
            "--config".to_string(),
            "~/Library/Application Support/Gemini/config.json".to_string(),
        ]),
        "gemini acp --config '~/Library/Application Support/Gemini/config.json'"
    );
    check_argv_boundaries();
}

#[test]
fn unknown_mode_values_fall_back_to_host_and_modes_round_trip() {
    assert_eq!(profile_mode_from_value("container"), AgentProfileMode::Host);
    for mode in [AgentProfileMode::Host, AgentProfileMode::Chroot] {
        assert_eq!(profile_mode_from_value(profile_mode_value(mode)), mode);
    }
}

#[test]
fn preview_args_quote_only_when_needed() {
    assert_eq!(preview_argv_arg("plain"), "plain");
    assert_eq!(preview_argv_arg(""), "''");
    assert_eq!(preview_argv_arg("a b"), "'a b'");
    assert_eq!(preview_argv_arg("say \"hi\""), "'say \"hi\"'");
    assert_eq!(agent_profile_save_label(false), "Save profile");
    assert_eq!(delete_profile_label(true), "Deleting…");
}

#[test]
fn deleting_one_profile_keeps_the_others_in_order() {
    let mut state = AccountsPageState::new();
    let mut second = sample_agent_profile(AgentProfileMode::Chroot);
    second.id = "second".to_string();
    let mut third = sample_agent_profile(AgentProfileMode::Host);
    third.id = "third".to_string();
    state.agent_profiles = vec![sample_agent_profile(AgentProfileMode::Host), second, third];
    state.begin_delete_agent_profile("second");
    state.finish_delete_agent_profile("second", Ok(()));
    let ids: Vec<&str> = state.agent_profiles.iter().map(|p| p.id.as_str()).collect();
    assert_eq!(ids, vec!["opencode", "third"]);

    state.begin_delete_agent_profile("third");
    state.finish_delete_agent_profile("third", Err("busy".to_string()));
    assert_eq!(state.agent_profiles.len(), 2);
    assert_eq!(state.error, Some("busy".to_string()));
    assert!(state.deleting_agent_profile_id.is_none());
}

#[test]
fn saving_a_profile_replaces_only_the_first_of_its_id() {
    let mut state = AccountsPageState::new();
    let mut other = sample_agent_profile(AgentProfileMode::Chroot);
    other.id = "other".to_string();
    state.agent_profiles = vec![other.clone(), sample_agent_profile(AgentProfileMode::Host)];
    let mut row = AgentProfileRowState::new(&state.agent_profiles[1].clone());
    row.begin_save_agent_profile(&mut state);
    let mut updated = sample_agent_profile(AgentProfileMode::Chroot);
    updated.name = "Renamed".to_string();
    row.finish_save_agent_profile(&mut state, Ok(updated));
    assert_eq!(state.agent_profiles.len(), 2);
    assert_eq!(state.agent_profiles[0], other);
    assert_eq!(state.agent_profiles[1].name, "Renamed");
    assert_eq!(state.agent_profiles[1].mode, AgentProfileMode::Chroot);

    let mut unknown = sample_agent_profile(AgentProfileMode::Host);
    unknown.id = "missing".to_string();
    row.begin_save_agent_profile(&mut state);
    row.finish_save_agent_profile(&mut state, Ok(unknown));
    assert_eq!(state.agent_profiles.len(), 2);
    assert!(state.agent_profiles.iter().all(|p| p.id != "missing"));
}
