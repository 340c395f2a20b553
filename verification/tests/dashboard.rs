use alvr_dashboard::dashboard::{
    sidebar_action, tab_label, tabs, CloseAction, Dashboard, InstallationTabRequest, Screen,
    SessionFlags, SetupWizardRequest, SidebarAction, Tab,
};
use alvr_dashboard::requests::{debug_tab_request, PathValuePair, ServerRequest, SettingValue};

fn flags(open_setup_wizard: bool, close_with_dashboard: bool) -> SessionFlags {
    SessionFlags { open_setup_wizard, open_close_steamvr_with_dashboard: close_with_dashboard }
}

#[test]
fn new_dashboard_asks_for_session() {
    let mut requests = Vec::new();
    let d = Dashboard::new(&mut requests);
    assert_eq!(requests, vec![ServerRequest::GetSession]);
    assert_eq!(d.selected_tab(), Tab::Devices);
    assert!(d.just_opened());
    assert!(!d.setup_wizard_open());
    assert_eq!(d.session(), None);
    assert_eq!(d.screen(false), Screen::Page(Tab::Devices));
}

#[test]
fn first_session_opens_wizard_only_once() {
    let mut requests = Vec::new();
    let mut d = Dashboard::new(&mut requests);
    d.on_session(flags(true, false));
    assert!(d.setup_wizard_open());
    assert!(!d.just_opened());
    assert_eq!(d.screen(false), Screen::SetupWizard);
    d.on_setup_wizard_request(SetupWizardRequest::Close { finished: false }, &mut requests);
    assert!(!d.setup_wizard_open());
    d.on_session(flags(true, false));
    assert!(!d.setup_wizard_open());
}

#[test]
fn later_session_cannot_open_wizard() {
    let mut requests = Vec::new();
    let mut d = Dashboard::new(&mut requests);
    d.on_session(flags(false, false));
    assert!(!d.setup_wizard_open());
    d.on_session(flags(true, true));
    assert!(!d.setup_wizard_open());
    assert_eq!(d.session(), Some(flags(true, true)));
}

#[test]
fn finishing_wizard_stores_setting() {
    let mut requests = Vec::new();
    let mut d = Dashboard::new(&mut requests);
    d.on_session(flags(true, false));
    d.on_setup_wizard_request(SetupWizardRequest::ServerRequest(ServerRequest::GetDriverList), &mut requests);
    assert!(d.setup_wizard_open());
    d.on_setup_wizard_request(SetupWizardRequest::Close { finished: true }, &mut requests);
    assert!(!d.setup_wizard_open());
    assert_eq!(
        requests,
        vec![
            ServerRequest::GetSession,
            ServerRequest::GetDriverList,
            ServerRequest::SetSessionValues(vec![PathValuePair {
                path: "session_settings.extra.open_setup_wizard".to_string(),
                value: SettingValue::Bool(false),
            }]),
        ]
    );
}

#[test]
fn unfinished_wizard_sends_nothing() {
    let mut requests = Vec::new();
    let mut d = Dashboard::new(&mut requests);
    d.on_setup_wizard_request(SetupWizardRequest::Close { finished: false }, &mut requests);
    assert_eq!(requests, vec![ServerRequest::GetSession]);
}

#[test]
fn installation_page_requests() {
    let mut requests = Vec::new();
    let mut d = Dashboard::new(&mut requests);
    d.on_installation_request(InstallationTabRequest::ServerRequest(ServerRequest::RegisterAlvrDriver), &mut requests);
    assert!(!d.setup_wizard_open());
    d.on_installation_request(InstallationTabRequest::OpenSetupWizard, &mut requests);
    assert!(d.setup_wizard_open());
    assert_eq!(requests, vec![ServerRequest::GetSession, ServerRequest::RegisterAlvrDriver]);
}

#[test]
fn restart_asks_server_and_waits_for_running_restart() {
    let mut requests = Vec::new();
    assert!(!Dashboard::restart_steamvr(&mut requests, false));
    assert!(Dashboard::restart_steamvr(&mut requests, true));
    assert_eq!(requests, vec![ServerRequest::RestartSteamvr, ServerRequest::RestartSteamvr]);
}

#[test]
fn restarting_screen_covers_everything() {
    let mut requests = Vec::new();
    let mut d = Dashboard::new(&mut requests);
    d.on_session(flags(true, false));
    assert_eq!(d.screen(true), Screen::Restarting);
    d.on_setup_wizard_request(SetupWizardRequest::Close { finished: false }, &mut requests);
    d.select_tab(Tab::Logs);
    assert_eq!(d.screen(true), Screen::Restarting);
    assert_eq!(d.screen(false), Screen::Page(Tab::Logs));
}

#[test]
fn tab_selection() {
    let mut requests = Vec::new();
    let mut d = Dashboard::new(&mut requests);
    assert!(d.is_selected(Tab::Devices));
    d.select_tab(Tab::Debug);
    assert!(d.is_selected(Tab::Debug));
    assert!(!d.is_selected(Tab::Devices));
    assert_eq!(d.selected_tab(), Tab::Debug);
}

#[test]
fn tab_order_and_captions() {
    assert_eq!(
        tabs(true),
        vec![Tab::Devices, Tab::Statistics, Tab::Settings, Tab::Installation, Tab::Logs, Tab::Debug, Tab::About]
    );
    assert_eq!(
        tabs(false),
        vec![Tab::Devices, Tab::Statistics, Tab::Settings, Tab::Logs, Tab::Debug, Tab::About]
    );
    assert_eq!(tab_label(Tab::Devices), "🔌  Devices");
    assert_eq!(tab_label(Tab::Statistics), "📈  Statistics");
    assert_eq!(tab_label(Tab::Settings), "🔧  Settings");
    assert_eq!(tab_label(Tab::Installation), "💾  Installation");
    assert_eq!(tab_label(Tab::Logs), "📝  Logs");
    assert_eq!(tab_label(Tab::Debug), "🐞  Debug");
    assert_eq!(tab_label(Tab::About), "ℹ  About");
}

#[test]
fn sidebar_action_depends_on_connection() {
    assert_eq!(sidebar_action(true), SidebarAction::RestartSteamvr);
    assert_eq!(sidebar_action(false), SidebarAction::LaunchSteamvr);
    assert_eq!(SidebarAction::RestartSteamvr.label(), "Restart SteamVR");
    assert_eq!(SidebarAction::LaunchSteamvr.label(), "Launch SteamVR");
}

#[test]
fn shutdown_on_close_follows_session() {
    let mut requests = Vec::new();
    let mut d = Dashboard::new(&mut requests);
    assert!(!d.shutdown_on_close(true));
    d.on_session(flags(false, true));
    assert!(d.shutdown_on_close(true));
    assert!(!d.shutdown_on_close(false));
    d.on_session(flags(false, false));
    assert!(!d.shutdown_on_close(true));
}

#[test]
fn debug_tab_last_button_wins() {
    assert_eq!(debug_tab_request(false, false, false, false), None);
    assert_eq!(debug_tab_request(true, false, false, false), Some(ServerRequest::CaptureFrame));
    assert_eq!(debug_tab_request(false, true, false, false), Some(ServerRequest::InsertIdr));
    assert_eq!(debug_tab_request(false, false, true, false), Some(ServerRequest::StartRecording));
    assert_eq!(debug_tab_request(false, false, false, true), Some(ServerRequest::StopRecording));
    assert_eq!(debug_tab_request(true, true, false, false), Some(ServerRequest::InsertIdr));
    assert_eq!(debug_tab_request(true, true, true, true), Some(ServerRequest::StopRecording));
}

#[test]
fn restarting_frame_sends_nothing() {
    let mut requests = Vec::new();
    let mut d = Dashboard::new(&mut requests);
    d.on_session(flags(false, true));
    let mut gathered = Vec::new();
    assert!(!Dashboard::restart_steamvr(&mut gathered, false));
    let end = d.end_frame(d.screen(true), gathered, true);
    assert_eq!(end.sent, Vec::new());
    assert!(!end.shutdown_steamvr);
}

#[test]
fn frame_sends_gathered_requests_in_order() {
    let mut requests = Vec::new();
    let d = Dashboard::new(&mut requests);
    let gathered = vec![ServerRequest::InsertIdr, ServerRequest::GetDriverList, ServerRequest::InsertIdr];
    let end = d.end_frame(d.screen(false), gathered.clone(), true);
    assert_eq!(end.sent, gathered);
    assert!(!end.shutdown_steamvr);
}

#[test]
fn closing_frame_appends_shutdown() {
    let mut requests = Vec::new();
    let mut d = Dashboard::new(&mut requests);
    d.on_session(flags(false, true));
    let end = d.end_frame(Screen::Page(Tab::Devices), vec![ServerRequest::CaptureFrame], true);
    assert_eq!(end.sent, vec![ServerRequest::CaptureFrame, ServerRequest::ShutdownSteamvr]);
    assert!(end.shutdown_steamvr);
    let end = d.end_frame(Screen::Page(Tab::Devices), vec![ServerRequest::CaptureFrame], false);
    assert_eq!(end.sent, vec![ServerRequest::CaptureFrame]);
    assert!(!end.shutdown_steamvr);
}

#[test]
fn new_version_popup_opens_and_closes() {
    let mut requests = Vec::new();
    let mut d = Dashboard::new(&mut requests);
    assert!(!d.new_version_popup_open());
    d.on_new_version_found();
    assert!(d.new_version_popup_open());
    d.on_new_version_popup_closed(CloseAction::Close, &mut requests);
    assert!(!d.new_version_popup_open());
    assert_eq!(requests, vec![ServerRequest::GetSession]);
    d.on_new_version_found();
    d.on_new_version_popup_closed(CloseAction::CloseWithRequest(ServerRequest::ShutdownSteamvr), &mut requests);
    assert!(!d.new_version_popup_open());
    assert_eq!(requests, vec![ServerRequest::GetSession, ServerRequest::ShutdownSteamvr]);
}
