//! The state machine of the dashboard window. The window itself (panels, tabs,
//! the server connection) lives outside; each frame it hands the events and
//! clicks of that frame to the functions here, which decide the next state and
//! the requests to send to the server.

use vstd::prelude::*;
use crate::requests::{PathValuePair, ServerRequest, SettingValue};

verus! {

/// The pages of the dashboard, in the order the side bar lists them.
#[derive(Clone, Copy, Debug, PartialEq, Eq, Structural, PartialOrd, Ord, Hash)]
pub enum Tab {
    Devices,
    Statistics,
    Settings,
    Installation,
    Logs,
    Debug,
    About,
}

/// The caption of each page in the side bar and in the page header.
pub open spec fn tab_caption(tab: Tab) -> Seq<char> {
    match tab {
        Tab::Devices => "🔌  Devices"@,
        Tab::Statistics => "📈  Statistics"@,
        Tab::Settings => "🔧  Settings"@,
        Tab::Installation => "💾  Installation"@,
        Tab::Logs => "📝  Logs"@,
        Tab::Debug => "🐞  Debug"@,
        Tab::About => "ℹ  About"@,
    }
}

/// The caption of a page.
pub fn tab_label(tab: Tab) -> (label: &'static str)
    ensures
        label@ == tab_caption(tab),
{
    match tab {
        Tab::Devices => "🔌  Devices",
        Tab::Statistics => "📈  Statistics",
        Tab::Settings => "🔧  Settings",
        Tab::Installation => "💾  Installation",
        Tab::Logs => "📝  Logs",
        Tab::Debug => "🐞  Debug",
        Tab::About => "ℹ  About",
    }
}

/// The pages in the order the side bar lists them, every page once. The
/// installation page exists only in the native build (`native`), not in the web
/// build.
pub fn tabs(native: bool) -> (all: Vec<Tab>)
    ensures
        all@ == (if native {
            seq![
                Tab::Devices,
                Tab::Statistics,
                Tab::Settings,
                Tab::Installation,
                Tab::Logs,
                Tab::Debug,
                Tab::About,
            ]
        } else {
            seq![Tab::Devices, Tab::Statistics, Tab::Settings, Tab::Logs, Tab::Debug, Tab::About]
        }),
{
    let mut all = vec![Tab::Devices, Tab::Statistics, Tab::Settings];
    if native {
        all.push(Tab::Installation);
    }
    all.push(Tab::Logs);
    all.push(Tab::Debug);
    all.push(Tab::About);
    all
}

/// The two session settings that the dashboard itself acts upon.
#[derive(Clone, Copy, Debug, PartialEq, Eq, Structural)]
pub struct SessionFlags {
    /// Whether the setup wizard is to be shown when the dashboard opens.
    pub open_setup_wizard: bool,
    /// Whether closing the dashboard also shuts SteamVR down.
    pub open_close_steamvr_with_dashboard: bool,
}

/// The state of the dashboard window.
pub struct Dashboard {
    just_opened: bool,
    selected_tab: Tab,
    setup_wizard_open: bool,
    session: Option<SessionFlags>,
    new_version_popup_open: bool,
}

/// What a [`Dashboard`] holds.
pub struct DashboardView {
    /// No session has arrived since the window opened.
    pub just_opened: bool,
    /// The page shown.
    pub selected_tab: Tab,
    /// The setup wizard covers the window.
    pub setup_wizard_open: bool,
    /// The settings of the last session received, if any.
    pub session: Option<SessionFlags>,
    /// The popup announcing a new version is shown.
    pub new_version_popup_open: bool,
}

impl View for Dashboard {
    type V = DashboardView;

    closed spec fn view(&self) -> DashboardView {
        DashboardView {
            just_opened: self.just_opened,
            selected_tab: self.selected_tab,
            setup_wizard_open: self.setup_wizard_open,
            session: self.session,
            new_version_popup_open: self.new_version_popup_open,
        }
    }
}

/// The state of a window that has just opened.
pub open spec fn opened() -> DashboardView {
    DashboardView {
        just_opened: true,
        selected_tab: Tab::Devices,
        setup_wizard_open: false,
        session: None,
        new_version_popup_open: false,
    }
}

/// The state after a session arrived: the first session decides whether the setup
/// wizard opens, and every session is remembered.
pub open spec fn after_session(v: DashboardView, session: SessionFlags) -> DashboardView {
    DashboardView {
        just_opened: false,
        selected_tab: v.selected_tab,
        setup_wizard_open: v.setup_wizard_open || (v.just_opened && session.open_setup_wizard),
        session: Some(session),
        new_version_popup_open: v.new_version_popup_open,
    }
}

/// The request sent when the setup wizard is finished: it stores that the wizard
/// need not open again.
pub open spec fn is_wizard_done_request(r: ServerRequest) -> bool {
    match r {
        ServerRequest::SetSessionValues(values) => {
            &&& values@.len() == 1
            &&& values@[0].path@ == "session_settings.extra.open_setup_wizard"@
            &&& values@[0].value == SettingValue::Bool(false)
        },
        _ => false,
    }
}

/// What fills the window in a frame.
#[derive(Clone, Copy, Debug, PartialEq, Eq, Structural)]
pub enum Screen {
    /// SteamVR is restarting: a notice covers the window, and the frame sends nothing
    /// (see [`Dashboard::end_frame`]).
    Restarting,
    /// The setup wizard covers the window.
    SetupWizard,
    /// The side bar and the given page.
    Page(Tab),
}

/// The action button at the bottom of the side bar.
#[derive(Clone, Copy, Debug, PartialEq, Eq, Structural)]
pub enum SidebarAction {
    RestartSteamvr,
    LaunchSteamvr,
}

impl SidebarAction {
    /// The caption of the button.
    pub fn label(self) -> (label: &'static str)
        ensures
            label@ == (match self {
                SidebarAction::RestartSteamvr => "Restart SteamVR"@,
                SidebarAction::LaunchSteamvr => "Launch SteamVR"@,
            }),
    {
        match self {
            SidebarAction::RestartSteamvr => "Restart SteamVR",
            SidebarAction::LaunchSteamvr => "Launch SteamVR",
        }
    }
}

/// The side bar's action: restart SteamVR through the server while connected to it,
/// launch SteamVR otherwise.
pub fn sidebar_action(connected: bool) -> (action: SidebarAction)
    ensures
        action == (if connected {
            SidebarAction::RestartSteamvr
        } else {
            SidebarAction::LaunchSteamvr
        }),
{
    if connected {
        SidebarAction::RestartSteamvr
    } else {
        SidebarAction::LaunchSteamvr
    }
}

/// What the setup wizard asks for in a frame.
#[derive(Clone, Debug, PartialEq, Eq)]
pub enum SetupWizardRequest {
    /// A request to forward to the server.
    ServerRequest(ServerRequest),
    /// The wizard is closed, having been finished or not.
    Close { finished: bool },
}

/// What the installation page asks for in a frame.
#[derive(Clone, Debug, PartialEq, Eq)]
pub enum InstallationTabRequest {
    OpenSetupWizard,
    /// A request to forward to the server.
    ServerRequest(ServerRequest),
}

/// How the popup announcing a new version was closed.
#[derive(Clone, Debug, PartialEq, Eq)]
pub enum CloseAction {
    /// Closed without asking anything of the server.
    Close,
    /// Closed with a request to send, such as shutting SteamVR down before updating.
    CloseWithRequest(ServerRequest),
}

/// What a frame hands to the server and the SteamVR launcher when it ends.
#[derive(Clone, Debug, PartialEq, Eq)]
pub struct FrameEnd {
    /// The requests to send, in this order.
    pub sent: Vec<ServerRequest>,
    /// Whether to make sure that SteamVR is shut down.
    pub shutdown_steamvr: bool,
}

impl Dashboard {
    /// Opens the dashboard on the devices page, and asks the server for the session.
    pub fn new(requests: &mut Vec<ServerRequest>) -> (d: Dashboard)
        ensures
            d@ == opened(),
            final(requests)@ == old(requests)@.push(ServerRequest::GetSession),
    {
        requests.push(ServerRequest::GetSession);
        Dashboard {
            just_opened: true,
            selected_tab: Tab::Devices,
            setup_wizard_open: false,
            session: None,
            new_version_popup_open: false,
        }
    }

    /// Takes in a session sent by the server.
    pub fn on_session(&mut self, session: SessionFlags)
        ensures
            final(self)@ == after_session(old(self)@, session),
            final(self)@.selected_tab == old(self)@.selected_tab,
            final(self)@.new_version_popup_open == old(self)@.new_version_popup_open,
            final(self)@.session == Some(session),
            !final(self)@.just_opened,
            final(self)@.setup_wizard_open == (old(self)@.setup_wizard_open || (old(
                self,
            )@.just_opened && session.open_setup_wizard)),
    {
        if self.just_opened {
            if session.open_setup_wizard {
                self.setup_wizard_open = true;
            }
            self.just_opened = false;
        }
        self.session = Some(session);
    }

    /// Starts a restart of SteamVR: asks the server to restart it. `restarting`
    /// tells whether a restart is already under way; if so, the caller must wait
    /// for it to end before it marks the new one as under way. Returns whether to
    /// wait.
    pub fn restart_steamvr(requests: &mut Vec<ServerRequest>, restarting: bool) -> (wait: bool)
        ensures
            final(requests)@ == old(requests)@.push(ServerRequest::RestartSteamvr),
            wait == restarting,
    {
        requests.push(ServerRequest::RestartSteamvr);
        restarting
    }

    /// What fills the window in this frame, given whether SteamVR is restarting.
    pub fn screen(&self, restarting: bool) -> (s: Screen)
        ensures
            s == (if restarting {
                Screen::Restarting
            } else if self@.setup_wizard_open {
                Screen::SetupWizard
            } else {
                Screen::Page(self@.selected_tab)
            }),
    {
        if restarting {
            Screen::Restarting
        } else if self.setup_wizard_open {
            Screen::SetupWizard
        } else {
            Screen::Page(self.selected_tab)
        }
    }

    /// Whether the side bar shows the given page as selected.
    pub fn is_selected(&self, tab: Tab) -> (selected: bool)
        ensures
            selected == (self@.selected_tab == tab),
    {
        self.selected_tab == tab
    }

    /// Takes in a click on a page's tab in the side bar: that page is shown.
    pub fn select_tab(&mut self, tab: Tab)
        ensures
            final(self)@ == (DashboardView { selected_tab: tab, ..old(self)@ }),
    {
        self.selected_tab = tab;
    }

    /// Takes in what the setup wizard asks for: a request is forwarded; closing the
    /// wizard hides it, and when it was finished, stores that it need not open again.
    pub fn on_setup_wizard_request(
        &mut self,
        request: SetupWizardRequest,
        requests: &mut Vec<ServerRequest>,
    )
        ensures
            match request {
                SetupWizardRequest::ServerRequest(r) => {
                    &&& final(self)@ == old(self)@
                    &&& final(requests)@ == old(requests)@.push(r)
                },
                SetupWizardRequest::Close { finished } => {
                    &&& final(self)@ == (DashboardView { setup_wizard_open: false, ..old(self)@ })
                    &&& !finished ==> final(requests)@ == old(requests)@
                    &&& finished ==> {
                        &&& final(requests)@.len() == old(requests)@.len() + 1
                        &&& final(requests)@.drop_last() == old(requests)@
                        &&& is_wizard_done_request(final(requests)@.last())
                    }
                },
            },
    {
        match request {
            SetupWizardRequest::ServerRequest(r) => {
                requests.push(r);
            },
            SetupWizardRequest::Close { finished } => {
                if finished {
                    let mut values = Vec::new();
                    values.push(
                        PathValuePair {
                            path: String::from_str("session_settings.extra.open_setup_wizard"),
                            value: SettingValue::Bool(false),
                        },
                    );
                    requests.push(ServerRequest::SetSessionValues(values));
                    assert(final(requests)@.drop_last() =~= old(requests)@);
                }
                self.setup_wizard_open = false;
            },
        }
    }

    /// Takes in what the installation page asks for: opening the setup wizard, or a
    /// request to forward.
    pub fn on_installation_request(
        &mut self,
        request: InstallationTabRequest,
        requests: &mut Vec<ServerRequest>,
    )
        ensures
            match request {
                InstallationTabRequest::OpenSetupWizard => {
                    &&& final(self)@ == (DashboardView { setup_wizard_open: true, ..old(self)@ })
                    &&& final(requests)@ == old(requests)@
                },
                InstallationTabRequest::ServerRequest(r) => {
                    &&& final(self)@ == old(self)@
                    &&& final(requests)@ == old(requests)@.push(r)
                },
            },
    {
        match request {
            InstallationTabRequest::OpenSetupWizard => {
                self.setup_wizard_open = true;
            },
            InstallationTabRequest::ServerRequest(r) => {
                requests.push(r);
            },
        }
    }

    /// Whether closing the window also shuts SteamVR down: only when the last
    /// session received asks for it.
    pub fn shutdown_on_close(&self, close_requested: bool) -> (shutdown: bool)
        ensures
            shutdown == (close_requested && match self@.session {
                Some(s) => s.open_close_steamvr_with_dashboard,
                None => false,
            }),
    {
        close_requested && match self.session {
            Some(s) => s.open_close_steamvr_with_dashboard,
            None => false,
        }
    }

    /// Takes in the server's news of a new version: the popup announcing it opens.
    pub fn on_new_version_found(&mut self)
        ensures
            final(self)@ == (DashboardView { new_version_popup_open: true, ..old(self)@ }),
    {
        self.new_version_popup_open = true;
    }

    /// Takes in how the popup announcing a new version was closed: it closes, and
    /// the request it closed with, if any, is sent.
    pub fn on_new_version_popup_closed(
        &mut self,
        action: CloseAction,
        requests: &mut Vec<ServerRequest>,
    )
        ensures
            final(self)@ == (DashboardView { new_version_popup_open: false, ..old(self)@ }),
            final(requests)@ == (match action {
                CloseAction::Close => old(requests)@,
                CloseAction::CloseWithRequest(r) => old(requests)@.push(r),
            }),
    {
        if let CloseAction::CloseWithRequest(request) = action {
            requests.push(request);
        }
        self.new_version_popup_open = false;
    }

    /// Ends a frame, given what filled the window, the requests gathered in it and
    /// whether the window is being closed. A frame that showed the restart notice
    /// sends nothing and shuts nothing down. Any other frame sends the gathered
    /// requests once each, in the order gathered, followed by a request to shut
    /// SteamVR down when closing the window does so (see [`Dashboard::shutdown_on_close`]).
    pub fn end_frame(
        &self,
        screen: Screen,
        gathered: Vec<ServerRequest>,
        close_requested: bool,
    ) -> (end: FrameEnd)
        ensures
            screen is Restarting ==> end.sent@ == Seq::<ServerRequest>::empty()
                && !end.shutdown_steamvr,
            !(screen is Restarting) ==> {
                &&& end.shutdown_steamvr == (close_requested && match self@.session {
                    Some(s) => s.open_close_steamvr_with_dashboard,
                    None => false,
                })
                &&& end.sent@ == (if end.shutdown_steamvr {
                    gathered@.push(ServerRequest::ShutdownSteamvr)
                } else {
                    gathered@
                })
            },
    {
        match screen {
            Screen::Restarting => FrameEnd { sent: Vec::new(), shutdown_steamvr: false },
            _ => {
                let shutdown = self.shutdown_on_close(close_requested);
                let mut sent = gathered;
                if shutdown {
                    sent.push(ServerRequest::ShutdownSteamvr);
                }
                FrameEnd { sent, shutdown_steamvr: shutdown }
            },
        }
    }

    /// Whether the popup announcing a new version is shown.
    pub fn new_version_popup_open(&self) -> (open: bool)
        ensures
            open == self@.new_version_popup_open,
    {
        self.new_version_popup_open
    }

    /// The page shown.
    pub fn selected_tab(&self) -> (tab: Tab)
        ensures
            tab == self@.selected_tab,
    {
        self.selected_tab
    }

    /// Whether the setup wizard covers the window.
    pub fn setup_wizard_open(&self) -> (open: bool)
        ensures
            open == self@.setup_wizard_open,
    {
        self.setup_wizard_open
    }

    /// Whether no session has arrived yet.
    pub fn just_opened(&self) -> (fresh: bool)
        ensures
            fresh == self@.just_opened,
    {
        self.just_opened
    }

    /// The settings of the last session received, if any.
    pub fn session(&self) -> (session: Option<SessionFlags>)
        ensures
            session == self@.session,
    {
        self.session
    }
}

/// Only the first session decides whether the setup wizard opens: a later session
/// never opens nor closes it.
pub proof fn only_first_session_opens_wizard(v: DashboardView, first: SessionFlags, later: SessionFlags)
    ensures
        after_session(after_session(v, first), later).setup_wizard_open == after_session(
            v,
            first,
        ).setup_wizard_open,
        !after_session(v, first).just_opened,
{
}

/// Taking in a session never changes the page shown nor the update popup: it
/// changes only whether a session was seen, whether the setup wizard is open (which
/// it can only open, never close) and the remembered session, which becomes the
/// one taken in.
pub proof fn session_keeps_page(v: DashboardView, session: SessionFlags)
    ensures
        after_session(v, session).selected_tab == v.selected_tab,
        after_session(v, session).new_version_popup_open == v.new_version_popup_open,
        after_session(v, session).session == Some(session),
        !after_session(v, session).just_opened,
        v.setup_wizard_open ==> after_session(v, session).setup_wizard_open,
        !v.just_opened ==> after_session(v, session).setup_wizard_open == v.setup_wizard_open,
        !session.open_setup_wizard ==> after_session(v, session).setup_wizard_open
            == v.setup_wizard_open,
{
}

/// In a window that has just opened, the first session opens the setup wizard
/// exactly when it asks for it, and leaves the page unchanged.
pub proof fn first_session_opens_wizard_on_request(session: SessionFlags)
    ensures
        after_session(opened(), session).setup_wizard_open == session.open_setup_wizard,
        after_session(opened(), session).selected_tab == Tab::Devices,
{
}

} // verus!
