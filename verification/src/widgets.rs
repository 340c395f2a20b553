//! Styles and state changes of the dashboard's widgets: the on/off switch, the
//! button group, the collapse button, the reset button, the navigation tabs and
//! the SteamVR status pill.

use vstd::prelude::*;
use crate::requests::{PathValuePair, SettingValue};
use crate::theme::Color;

verus! {

/// An outline: its width in tenths of a point and its colour.
#[derive(Clone, Copy, Debug, PartialEq, Eq, Structural)]
pub struct Stroke {
    pub width_tenths: u8,
    pub color: Color,
}

/// How a button is painted: the colour of its text (the default text colour where
/// there is none), its background and its outline.
#[derive(Clone, Copy, Debug, PartialEq, Eq, Structural)]
pub struct ButtonStyle {
    pub text: Option<Color>,
    pub fill: Color,
    pub stroke: Stroke,
}

// ----------------------------------------------------------------------------
// Switch

/// How an on/off switch is painted.
#[derive(Clone, Copy, Debug, PartialEq, Eq, Structural)]
pub struct SwitchStyle {
    /// Background of the track.
    pub track_fill: Color,
    /// Outline of the track.
    pub track_stroke: Stroke,
    /// Second outline drawn two points around the track, if any.
    pub halo: Option<Stroke>,
    /// Background of the round thumb.
    pub thumb_fill: Color,
    /// Outline of the round thumb.
    pub thumb_stroke: Stroke,
}

/// The state of a switch after a frame in which it was clicked or not: a click flips it.
pub open spec fn switch_after(on: bool, clicked: bool) -> bool {
    if clicked { !on } else { on }
}

/// Applies a frame's click to a switch. Returns whether the switch changed, which
/// is whether it was clicked.
pub fn switch_toggle(on: &mut bool, clicked: bool) -> (changed: bool)
    ensures
        *final(on) == switch_after(*old(on), clicked),
        changed == clicked,
{
    if clicked {
        *on = !*on;
    }
    clicked
}

/// The style of a switch in a given state: an accent-coloured track and halo while
/// on; while off, a dark track whose outline turns red, with a red halo, under the
/// pointer.
pub fn switch_style(on: bool, hovered: bool) -> (s: SwitchStyle)
    ensures
        s.track_fill == (if on { Color::AccentDark } else { Color::DarkerBg }),
        s.track_stroke == (Stroke {
            width_tenths: 15,
            color: if on {
                Color::Accent
            } else if hovered {
                Color::AccentRed
            } else {
                Color::SeparatorBg
            },
        }),
        s.halo == (if on {
            Some(Stroke { width_tenths: 10, color: Color::Accent })
        } else if hovered {
            Some(Stroke { width_tenths: 10, color: Color::AccentRed })
        } else {
            None
        }),
        s.thumb_fill == (if on { Color::Fg } else { Color::MutedFg }),
        s.thumb_stroke == (if on {
            Stroke { width_tenths: 15, color: Color::Accent }
        } else {
            Stroke { width_tenths: 10, color: Color::ThumbIdleStroke }
        }),
{
    let track_fill = if on { Color::AccentDark } else { Color::DarkerBg };
    let track_color = if on {
        Color::Accent
    } else if hovered {
        Color::AccentRed
    } else {
        Color::SeparatorBg
    };
    let halo = if hovered || on {
        Some(Stroke { width_tenths: 10, color: if on { Color::Accent } else { Color::AccentRed } })
    } else {
        None
    };
    let thumb_fill = if on { Color::Fg } else { Color::MutedFg };
    let thumb_stroke = if on {
        Stroke { width_tenths: 15, color: Color::Accent }
    } else {
        Stroke { width_tenths: 10, color: Color::ThumbIdleStroke }
    };
    SwitchStyle {
        track_fill,
        track_stroke: Stroke { width_tenths: 15, color: track_color },
        halo,
        thumb_fill,
        thumb_stroke,
    }
}

/// Clicking a switch twice in a row brings it back to where it was, and a frame
/// without a click leaves it alone.
pub proof fn switch_second_click_restores(on: bool)
    ensures
        switch_after(switch_after(on, true), true) == on,
        switch_after(on, false) == on,
{
}

// ----------------------------------------------------------------------------
// Button group

/// One choice of a button group: the identifier it stands for and the text shown.
#[derive(Clone, Debug, PartialEq, Eq)]
pub struct DisplayString {
    pub id: String,
    pub display: String,
}

/// Whether the option with the given identifier is the current selection.
pub fn option_selected(selection: &String, id: &String) -> (selected: bool)
    ensures
        selected == (selection@ == id@),
{
    selection.eq(id)
}

/// The style of one button of a button group.
pub fn button_group_style(selected: bool) -> (s: ButtonStyle)
    ensures
        s == (if selected {
            ButtonStyle {
                text: Some(Color::Fg),
                fill: Color::AccentDark,
                stroke: Stroke { width_tenths: 15, color: Color::Accent },
            }
        } else {
            ButtonStyle {
                text: Some(Color::MutedFg),
                fill: Color::LighterBg,
                stroke: Stroke { width_tenths: 10, color: Color::SeparatorBg },
            }
        }),
{
    if selected {
        ButtonStyle {
            text: Some(Color::Fg),
            fill: Color::AccentDark,
            stroke: Stroke { width_tenths: 15, color: Color::Accent },
        }
    } else {
        ButtonStyle {
            text: Some(Color::MutedFg),
            fill: Color::LighterBg,
            stroke: Stroke { width_tenths: 10, color: Color::SeparatorBg },
        }
    }
}

/// Applies the click (or its absence) on one option of a button group: a clicked
/// option becomes the selection. Returns whether the option was clicked.
pub fn button_group_option(selection: &mut String, option: &DisplayString, clicked: bool) -> (r: bool)
    ensures
        r == clicked,
        final(selection)@ == (if clicked { option.id@ } else { old(selection)@ }),
{
    if clicked {
        *selection = option.id.clone();
    }
    clicked
}

/// The identifiers of a list of options, in order.
pub open spec fn option_ids(options: Seq<DisplayString>) -> Seq<Seq<char>> {
    options.map_values(|o: DisplayString| o.id@)
}

/// The selection after the options with the given identifiers were each clicked or
/// not, in order: the last clicked option wins, and without a click the selection
/// stays.
pub open spec fn selection_after(
    selection: Seq<char>,
    ids: Seq<Seq<char>>,
    clicks: Seq<bool>,
) -> Seq<char>
    decreases clicks.len(),
{
    if clicks.len() == 0 {
        selection
    } else if clicks.last() {
        ids[clicks.len() - 1]
    } else {
        selection_after(selection, ids, clicks.drop_last())
    }
}

/// A clicked option always becomes the selection: after a run of clicks the
/// selection is the identifier of the last clicked option, whatever the selection
/// was before (also when that option was already selected); without any click it
/// is the selection from before.
pub proof fn last_click_wins(selection: Seq<char>, ids: Seq<Seq<char>>, clicks: Seq<bool>)
    requires
        ids.len() >= clicks.len(),
    ensures
        forall|j: int|
            0 <= j < clicks.len() && #[trigger] clicks[j] && (forall|k: int|
                j < k < clicks.len() ==> !clicks[k]) ==> selection_after(selection, ids, clicks)
                == ids[j],
        !any_clicked(clicks) ==> selection_after(selection, ids, clicks) == selection,
        clicks.len() > 0 && clicks.last() ==> selection_after(selection, ids, clicks) == ids[clicks.len() - 1],
    decreases clicks.len(),
{
    if clicks.len() > 0 {
        let rest = clicks.drop_last();
        last_click_wins(selection, ids, rest);
        let n = clicks.len() - 1;
        assert forall|j: int|
            0 <= j < clicks.len() && #[trigger] clicks[j] && (forall|k: int|
                j < k < clicks.len() ==> !clicks[k]) implies selection_after(selection, ids, clicks)
            == ids[j] by {
            if j < n {
                assert(!clicks[n]);
                assert(rest[j]);
                assert forall|k: int| j < k < rest.len() implies !rest[k] by {
                    assert(!clicks[k]);
                }
            }
        }
        if !any_clicked(clicks) {
            assert(!clicks[n]);
            assert forall|i: int| 0 <= i < rest.len() implies !rest[i] by {
                assert(!clicks[i]);
            }
        }
    }
}

/// Whether any of the clicks happened.
pub open spec fn any_clicked(clicks: Seq<bool>) -> bool {
    exists|i: int| 0 <= i < clicks.len() && clicks[i]
}

/// One frame of a button group, given which of its options were clicked: the last
/// clicked option becomes the selection, and the result says whether any was
/// clicked. A window that draws each button before it knows whether that button
/// was clicked takes the same steps one at a time with [`button_group_option`].
pub fn button_group_clicked(
    options: &Vec<DisplayString>,
    selection: &mut String,
    clicks: &Vec<bool>,
) -> (clicked: bool)
    requires
        clicks.len() == options.len(),
    ensures
        clicked == any_clicked(clicks@),
        final(selection)@ == selection_after(old(selection)@, option_ids(options@), clicks@),
        !any_clicked(clicks@) ==> final(selection)@ == old(selection)@,
        forall|j: int|
            0 <= j < clicks.len() && #[trigger] clicks@[j] && (forall|k: int|
                j < k < clicks.len() ==> !clicks@[k]) ==> final(selection)@ == options@[j].id@,
{
    proof {
        last_click_wins(selection@, option_ids(options@), clicks@);
    }
    let ghost start = selection@;
    let ghost ids = option_ids(options@);
    let mut clicked = false;
    let mut i: usize = 0;
    while i < options.len()
        invariant
            i <= options.len(),
            clicks.len() == options.len(),
            ids == option_ids(options@),
            selection@ == selection_after(start, ids, clicks@.take(i as int)),
            clicked == any_clicked(clicks@.take(i as int)),
        decreases options.len() - i,
    {
        let this = button_group_option(selection, &options[i], clicks[i]);
        clicked = clicked || this;
        proof {
            let prefix = clicks@.take(i as int + 1);
            assert(prefix.drop_last() =~= clicks@.take(i as int));
            assert(prefix.last() == clicks@[i as int]);
            assert(ids[i as int] == options@[i as int].id@);
            if this {
                assert(prefix[i as int]);
            } else if clicked {
                let j = choose|j: int| 0 <= j < i && clicks@.take(i as int)[j];
                assert(prefix[j]);
            } else {
                assert forall|j: int| 0 <= j < prefix.len() implies !prefix[j] by {
                    if j < i {
                        assert(!clicks@.take(i as int)[j]);
                    }
                }
            }
        }
        i = i + 1;
    }
    assert(clicks@.take(clicks.len() as int) =~= clicks@);
    clicked
}

// ----------------------------------------------------------------------------
// Collapse button

/// The caption of the button that shows or hides a settings section.
pub fn collapsible_label(collapsed: bool) -> (label: &'static str)
    ensures
        label@ == (if collapsed { "Show"@ } else { "Hide"@ }),
{
    if collapsed {
        "Show"
    } else {
        "Hide"
    }
}

/// The style of the button that shows or hides a settings section: accented while
/// the section is shown.
pub fn collapsible_style(collapsed: bool) -> (s: ButtonStyle)
    ensures
        s == (if collapsed {
            ButtonStyle {
                text: None,
                fill: Color::LighterBg,
                stroke: Stroke { width_tenths: 10, color: Color::SeparatorBg },
            }
        } else {
            ButtonStyle {
                text: None,
                fill: Color::AccentDark,
                stroke: Stroke { width_tenths: 10, color: Color::Accent },
            }
        }),
{
    if collapsed {
        ButtonStyle {
            text: None,
            fill: Color::LighterBg,
            stroke: Stroke { width_tenths: 10, color: Color::SeparatorBg },
        }
    } else {
        ButtonStyle {
            text: None,
            fill: Color::AccentDark,
            stroke: Stroke { width_tenths: 10, color: Color::Accent },
        }
    }
}

/// The dotted path of the setting `leaf` inside the section at dotted path `parent`
/// (the top level where `parent` is empty).
pub open spec fn child_path(parent: Seq<char>, leaf: Seq<char>) -> Seq<char> {
    if parent.len() == 0 {
        leaf
    } else {
        parent + "."@ + leaf
    }
}

/// The path of a setting inside a section keeps the whole path of the section,
/// then a dot, then the setting's name; at the top level it is the name alone.
pub proof fn child_path_keeps_parent(parent: Seq<char>, leaf: Seq<char>)
    ensures
        parent.len() > 0 ==> child_path(parent, leaf) == parent + "."@ + leaf,
        parent.len() > 0 ==> child_path(parent, leaf).len() == parent.len() + 1 + leaf.len(),
        parent.len() > 0 ==> child_path(parent, leaf).subrange(0, parent.len() as int) == parent,
        parent.len() > 0 ==> child_path(parent, leaf)[parent.len() as int] == '.',
        child_path(parent, leaf).subrange(
            child_path(parent, leaf).len() - leaf.len(),
            child_path(parent, leaf).len() as int,
        ) == leaf,
        parent.len() == 0 ==> child_path(parent, leaf) == leaf,
{
    reveal_strlit(".");
    if parent.len() > 0 {
        let c = child_path(parent, leaf);
        assert(c.subrange(0, parent.len() as int) =~= parent);
        assert(c.subrange(c.len() - leaf.len(), c.len() as int) =~= leaf);
    } else {
        assert(leaf.subrange(0, leaf.len() as int) =~= leaf);
    }
}

/// Applies a frame's click to the show/hide button of the settings section at
/// dotted path `section_path`, whose collapse state is `collapsed`. A click flips
/// the state and returns the session update that stores the new state under the
/// section's `gui_collapsed` setting; without a click nothing changes and there is
/// no update.
pub fn collapsible_button(section_path: &str, collapsed: &mut bool, clicked: bool) -> (request:
    Option<PathValuePair>)
    ensures
        *final(collapsed) == switch_after(*old(collapsed), clicked),
        !clicked ==> request is None,
        clicked ==> (request matches Some(update) && update.path@ == child_path(
            section_path@,
            "gui_collapsed"@,
        ) && update.value == SettingValue::Bool(*final(collapsed))),
        clicked && section_path@.len() > 0 ==> (request matches Some(update) && update.path@
            == section_path@ + "."@ + "gui_collapsed"@),
        clicked && section_path@.len() == 0 ==> (request matches Some(update) && update.path@
            == "gui_collapsed"@),
{
    if clicked {
        *collapsed = !*collapsed;
        let mut path = String::from_str(section_path);
        if !section_path.is_empty() {
            path.append(".");
        }
        path.append("gui_collapsed");
        Some(PathValuePair { path, value: SettingValue::Bool(*collapsed) })
    } else {
        None
    }
}

/// Two clicks in a row on a show/hide button bring the section back to its state,
/// and the second click stores that state again.
pub proof fn collapsible_second_click_restores(collapsed: bool)
    ensures
        switch_after(switch_after(collapsed, true), true) == collapsed,
        SettingValue::Bool(switch_after(switch_after(collapsed, true), true)) == SettingValue::Bool(
            collapsed,
        ),
{
}

// ----------------------------------------------------------------------------
// Reset button

/// The tooltip of a reset button: `Reset to ` followed by the default value.
pub fn reset_hover_text(default_str: &str) -> (text: String)
    ensures
        text@ == "Reset to "@ + default_str@,
{
    let mut text = String::from_str("Reset to ");
    text.append(default_str);
    text
}

// ----------------------------------------------------------------------------
// Navigation tab

/// The style of a tab of the side bar: accented while selected, transparent
/// otherwise.
pub fn nav_tab_style(selected: bool) -> (s: ButtonStyle)
    ensures
        s == (if selected {
            ButtonStyle {
                text: Some(Color::Fg),
                fill: Color::AccentDark,
                stroke: Stroke { width_tenths: 15, color: Color::Accent },
            }
        } else {
            ButtonStyle {
                text: Some(Color::MutedFg),
                fill: Color::NavTabIdleFill,
                stroke: Stroke { width_tenths: 10, color: Color::NavTabIdleStroke },
            }
        }),
{
    if selected {
        ButtonStyle {
            text: Some(Color::Fg),
            fill: Color::AccentDark,
            stroke: Stroke { width_tenths: 15, color: Color::Accent },
        }
    } else {
        ButtonStyle {
            text: Some(Color::MutedFg),
            fill: Color::NavTabIdleFill,
            stroke: Stroke { width_tenths: 10, color: Color::NavTabIdleStroke },
        }
    }
}

/// The style of the action button at the bottom of the side bar.
pub fn sidebar_action_style() -> (s: ButtonStyle)
    ensures
        s == (ButtonStyle {
            text: Some(Color::Fg),
            fill: Color::AccentRedDark,
            stroke: Stroke { width_tenths: 10, color: Color::AccentRed },
        }),
{
    ButtonStyle {
        text: Some(Color::Fg),
        fill: Color::AccentRedDark,
        stroke: Stroke { width_tenths: 10, color: Color::AccentRed },
    }
}

// ----------------------------------------------------------------------------
// SteamVR status pill

/// What the SteamVR status pill shows: its caption and colours.
#[derive(Clone, Copy, Debug, PartialEq, Eq)]
pub struct StatusPill {
    pub label: &'static str,
    pub fill: Color,
    pub stroke: Color,
    pub text: Color,
}

/// The SteamVR status pill: green `Connected` or red `Disconnected`.
pub fn steamvr_status(connected: bool) -> (p: StatusPill)
    ensures
        p.label@ == (if connected { "Connected"@ } else { "Disconnected"@ }),
        p.fill == (if connected { Color::ConnectedFill } else { Color::DisconnectedFill }),
        p.stroke == (if connected { Color::OkGreen } else { crate::theme::ko_red() }),
        p.text == p.stroke,
{
    if connected {
        StatusPill {
            label: "Connected",
            fill: Color::ConnectedFill,
            stroke: Color::OkGreen,
            text: Color::OkGreen,
        }
    } else {
        StatusPill {
            label: "Disconnected",
            fill: Color::DisconnectedFill,
            stroke: Color::AccentRed,
            text: Color::AccentRed,
        }
    }
}

} // verus!
