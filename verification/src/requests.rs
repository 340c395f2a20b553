//! The requests that the dashboard sends to the streaming server.

use vstd::prelude::*;

verus! {

/// A value to be stored in the session settings.
#[derive(Clone, Debug, PartialEq, Eq)]
pub enum SettingValue {
    Bool(bool),
    /// Any other value, in its JSON text form.
    Json(String),
}

/// A change of one session setting: the dotted path of the setting (such as
/// `session_settings.extra.open_setup_wizard`) and its new value.
#[derive(Clone, Debug, PartialEq, Eq)]
pub struct PathValuePair {
    pub path: String,
    pub value: SettingValue,
}

/// A request from the dashboard to the server. Payloads that the dashboard only
/// forwards, and never looks into, are held in their JSON text form.
#[derive(Clone, Debug, PartialEq, Eq)]
pub enum ServerRequest {
    /// A log entry, as JSON text.
    Log(String),
    GetSession,
    /// A whole session configuration, as JSON text.
    UpdateSession(String),
    SetSessionValues(Vec<PathValuePair>),
    /// A change to the list of known clients; the action is JSON text.
    UpdateClientList { hostname: String, action: String },
    CaptureFrame,
    InsertIdr,
    StartRecording,
    StopRecording,
    AddFirewallRules,
    RemoveFirewallRules,
    GetDriverList,
    RegisterAlvrDriver,
    /// Unregisters the driver at the given path.
    UnregisterDriver(String),
    RestartSteamvr,
    ShutdownSteamvr,
}

/// The request of the debug tab in a frame in which each of its four buttons
/// (capture a frame, insert an IDR frame, start recording, stop recording) was
/// clicked or not. The buttons are handled in that order, so where several were
/// clicked the last of them decides.
pub fn debug_tab_request(
    capture_frame: bool,
    insert_idr: bool,
    start_recording: bool,
    stop_recording: bool,
) -> (request: Option<ServerRequest>)
    ensures
        request == (if stop_recording {
            Some(ServerRequest::StopRecording)
        } else if start_recording {
            Some(ServerRequest::StartRecording)
        } else if insert_idr {
            Some(ServerRequest::InsertIdr)
        } else if capture_frame {
            Some(ServerRequest::CaptureFrame)
        } else {
            None
        }),
{
    let mut request = None;
    if capture_frame {
        request = Some(ServerRequest::CaptureFrame);
    }
    if insert_idr {
        request = Some(ServerRequest::InsertIdr);
    }
    if start_recording {
        request = Some(ServerRequest::StartRecording);
    }
    if stop_recording {
        request = Some(ServerRequest::StopRecording);
    }
    request
}

} // verus!
