//! Decision logic of the ALVR dashboard: its colour palette, the styles and
//! state changes of its widgets, the requests it sends to the server and the
//! state machine that drives the dashboard window.

pub mod theme;
pub mod widgets;
pub mod requests;
pub mod dashboard;
