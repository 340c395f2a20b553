use alvr_dashboard::requests::{PathValuePair, SettingValue};
use alvr_dashboard::theme::Color;
use alvr_dashboard::widgets::{
    button_group_clicked, button_group_option, button_group_style, collapsible_label,
    collapsible_button, collapsible_style, nav_tab_style, option_selected, reset_hover_text,
    sidebar_action_style, steamvr_status, switch_style, switch_toggle, ButtonStyle,
    DisplayString, Stroke,
};

fn option(id: &str, display: &str) -> DisplayString {
    DisplayString { id: id.to_string(), display: display.to_string() }
}

fn options() -> Vec<DisplayString> {
    vec![option("low", "Low"), option("medium", "Medium"), option("high", "High")]
}

#[test]
fn switch_click_flips_and_reports_change() {
    let mut on = false;
    assert!(switch_toggle(&mut on, true));
    assert!(on);
    assert!(!switch_toggle(&mut on, false));
    assert!(on);
    assert!(switch_toggle(&mut on, true));
    assert!(!on);
}

#[test]
fn switch_styles() {
    let on = switch_style(true, false);
    assert_eq!(on.track_fill, Color::AccentDark);
    assert_eq!(on.track_stroke, Stroke { width_tenths: 15, color: Color::Accent });
    assert_eq!(on.halo, Some(Stroke { width_tenths: 10, color: Color::Accent }));
    assert_eq!(on.thumb_fill, Color::Fg);
    assert_eq!(on.thumb_stroke, Stroke { width_tenths: 15, color: Color::Accent });

    let off = switch_style(false, false);
    assert_eq!(off.track_fill, Color::DarkerBg);
    assert_eq!(off.track_stroke, Stroke { width_tenths: 15, color: Color::SeparatorBg });
    assert_eq!(off.halo, None);
    assert_eq!(off.thumb_fill, Color::MutedFg);
    assert_eq!(off.thumb_stroke, Stroke { width_tenths: 10, color: Color::ThumbIdleStroke });

    let hovered = switch_style(false, true);
    assert_eq!(hovered.track_stroke.color, Color::AccentRed);
    assert_eq!(hovered.halo, Some(Stroke { width_tenths: 10, color: Color::AccentRed }));

    // While on, hovering changes nothing.
    assert_eq!(switch_style(true, true), on);
}

#[test]
fn option_selection_compares_identifiers() {
    let sel = "medium".to_string();
    assert!(option_selected(&sel, &"medium".to_string()));
    assert!(!option_selected(&sel, &"Medium".to_string()));
}

#[test]
fn button_group_last_click_wins() {
    let opts = options();
    let mut sel = "low".to_string();
    assert!(button_group_clicked(&opts, &mut sel, &vec![false, true, true]));
    assert_eq!(sel, "high");
    assert!(button_group_clicked(&opts, &mut sel, &vec![true, false, false]));
    assert_eq!(sel, "low");
}

#[test]
fn button_group_without_click_keeps_selection() {
    let opts = options();
    let mut sel = "unknown".to_string();
    assert!(!button_group_clicked(&opts, &mut sel, &vec![false, false, false]));
    assert_eq!(sel, "unknown");
    let mut empty = String::new();
    assert!(!button_group_clicked(&Vec::new(), &mut empty, &Vec::new()));
    assert_eq!(empty, "");
}

#[test]
fn button_group_single_option() {
    let opts = options();
    let mut sel = "low".to_string();
    assert!(button_group_option(&mut sel, &opts[2], true));
    assert_eq!(sel, "high");
    assert!(!button_group_option(&mut sel, &opts[0], false));
    assert_eq!(sel, "high");
}

#[test]
fn button_group_styles() {
    assert_eq!(
        button_group_style(true),
        ButtonStyle {
            text: Some(Color::Fg),
            fill: Color::AccentDark,
            stroke: Stroke { width_tenths: 15, color: Color::Accent },
        }
    );
    assert_eq!(
        button_group_style(false),
        ButtonStyle {
            text: Some(Color::MutedFg),
            fill: Color::LighterBg,
            stroke: Stroke { width_tenths: 10, color: Color::SeparatorBg },
        }
    );
}

#[test]
fn collapsible_caption_and_style() {
    assert_eq!(collapsible_label(true), "Show");
    assert_eq!(collapsible_label(false), "Hide");
    assert_eq!(collapsible_style(true).fill, Color::LighterBg);
    assert_eq!(collapsible_style(true).stroke, Stroke { width_tenths: 10, color: Color::SeparatorBg });
    assert_eq!(collapsible_style(false).fill, Color::AccentDark);
    assert_eq!(collapsible_style(false).stroke, Stroke { width_tenths: 10, color: Color::Accent });
    assert_eq!(collapsible_style(false).text, None);
}

#[test]
fn collapsible_click_stores_new_state() {
    let mut collapsed = true;
    let update = collapsible_button("session_settings.video", &mut collapsed, true).unwrap();
    assert!(!collapsed);
    assert_eq!(update.path, "session_settings.video.gui_collapsed");
    assert_eq!(update.value, SettingValue::Bool(false));
    assert_eq!(collapsible_button("session_settings.video", &mut collapsed, false), None);
    assert!(!collapsed);
}

#[test]
fn collapsible_two_clicks_restore_and_store_old_state() {
    let mut collapsed = false;
    collapsible_button("a", &mut collapsed, true);
    let second = collapsible_button("a", &mut collapsed, true).unwrap();
    assert!(!collapsed);
    assert_eq!(
        second,
        PathValuePair { path: "a.gui_collapsed".to_string(), value: SettingValue::Bool(false) }
    );
}

#[test]
fn collapsible_at_top_level() {
    let mut collapsed = false;
    let update = collapsible_button("", &mut collapsed, true).unwrap();
    assert_eq!(update.path, "gui_collapsed");
    assert_eq!(update.value, SettingValue::Bool(true));
}

#[test]
fn reset_tooltip() {
    assert_eq!(reset_hover_text("90 Hz"), "Reset to 90 Hz");
    assert_eq!(reset_hover_text(""), "Reset to ");
}

#[test]
fn nav_tab_styles() {
    assert_eq!(nav_tab_style(true).fill, Color::AccentDark);
    assert_eq!(nav_tab_style(true).stroke, Stroke { width_tenths: 15, color: Color::Accent });
    assert_eq!(nav_tab_style(false).fill, Color::NavTabIdleFill);
    assert_eq!(nav_tab_style(false).stroke, Stroke { width_tenths: 10, color: Color::NavTabIdleStroke });
    assert_eq!(nav_tab_style(false).text, Some(Color::MutedFg));
    assert_eq!(sidebar_action_style().fill, Color::AccentRedDark);
    assert_eq!(sidebar_action_style().stroke, Stroke { width_tenths: 10, color: Color::AccentRed });
}

#[test]
fn steamvr_status_pill() {
    let up = steamvr_status(true);
    assert_eq!(up.label, "Connected");
    assert_eq!(up.fill, Color::ConnectedFill);
    assert_eq!(up.stroke, Color::OkGreen);
    assert_eq!(up.text, Color::OkGreen);
    let down = steamvr_status(false);
    assert_eq!(down.label, "Disconnected");
    assert_eq!(down.fill, Color::DisconnectedFill);
    assert_eq!(down.stroke, Color::AccentRed);
    assert_eq!(down.text, Color::AccentRed);
}
