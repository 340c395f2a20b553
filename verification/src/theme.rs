//! The dashboard's colour palette and corner radii.

use vstd::prelude::*;
use crate::widgets::{ButtonStyle, Stroke};

verus! {

/// A colour as four bytes in premultiplied-alpha order: red, green, blue, alpha.
#[derive(Clone, Copy, Debug, PartialEq, Eq, Structural)]
pub struct Rgba {
    pub r: u8,
    pub g: u8,
    pub b: u8,
    pub a: u8,
}

/// An opaque colour: full alpha.
pub open spec fn rgb(r: u8, g: u8, b: u8) -> Rgba {
    Rgba { r, g, b, a: 255 }
}

/// A colour given with its (already premultiplied) alpha.
pub open spec fn rgba(r: u8, g: u8, b: u8, a: u8) -> Rgba {
    Rgba { r, g, b, a }
}

/// The named colours of the dashboard's palette.
#[derive(Clone, Copy, Debug, PartialEq, Eq, Structural)]
pub enum Color {
    Accent,
    AccentDark,
    AccentRed,
    AccentRedDark,
    Bg,
    LighterBg,
    SectionBg,
    DarkerBg,
    ElevatedBg,
    SeparatorBg,
    MutedFg,
    Fg,
    OkGreen,
    /// Outline of the thumb of a switch that is off.
    ThumbIdleStroke,
    /// Background of a navigation tab that is not selected: fully transparent.
    NavTabIdleFill,
    /// Outline of a navigation tab that is not selected.
    NavTabIdleStroke,
    /// Background of the SteamVR status pill while connected.
    ConnectedFill,
    /// Background of the SteamVR status pill while disconnected.
    DisconnectedFill,
    /// Outline of subsection frames.
    SubsectionStroke,
    /// Outline of a notice box.
    NoticeStroke,
    /// Text of a notice box.
    Black,
    /// The translucent blue line of the window background.
    SaberBlue,
    /// The translucent red line of the window background.
    SaberRed,
    /// The translucent guide line of the window background.
    SaberGuide,
    /// Log entries of error severity.
    LogError,
    /// Log entries of warning severity; also the background of a notice box.
    LogWarning,
    /// Log entries of info severity.
    LogInfo,
    /// Log entries of debug severity.
    LogDebug,
    /// Event entries of the log.
    LogEvent,
    /// Graphs: time spent rendering outside the streamer.
    GraphRenderExternal,
    /// Graphs: label of the external rendering time.
    GraphRenderExternalLabel,
    /// Graphs: idle time, client frame rate and recorded throughput.
    GraphIdle,
    /// Graphs: transcoding time and requested bitrate.
    GraphTranscode,
    /// Graphs: the initially calculated throughput.
    GraphInitialThroughput,
}

/// The colour that each palette entry stands for.
pub open spec fn palette(c: Color) -> Rgba {
    match c {
        Color::Accent => rgb(0, 210, 255),
        Color::AccentDark => rgb(0, 92, 128),
        Color::AccentRed => rgb(255, 43, 92),
        Color::AccentRedDark => rgb(117, 18, 48),
        Color::Bg => rgb(9, 10, 18),
        Color::LighterBg => rgb(17, 19, 34),
        Color::SectionBg => rgb(22, 24, 43),
        Color::DarkerBg => rgb(7, 8, 14),
        Color::ElevatedBg => rgb(30, 33, 56),
        Color::SeparatorBg => rgb(64, 73, 111),
        Color::MutedFg => rgb(171, 181, 210),
        Color::Fg => rgb(246, 249, 255),
        Color::OkGreen => rgb(38, 237, 145),
        Color::ThumbIdleStroke => rgb(95, 103, 136),
        Color::NavTabIdleFill => rgba(0, 0, 0, 0),
        Color::NavTabIdleStroke => rgba(70, 82, 126, 90),
        Color::ConnectedFill => rgba(25, 100, 73, 160),
        Color::DisconnectedFill => rgba(115, 20, 47, 150),
        Color::SubsectionStroke => rgb(78, 91, 138),
        Color::NoticeStroke => rgb(255, 235, 150),
        Color::Black => rgb(0, 0, 0),
        Color::SaberBlue => rgba(0, 210, 255, 42),
        Color::SaberRed => rgba(255, 43, 92, 42),
        Color::SaberGuide => rgba(100, 117, 170, 45),
        Color::LogError => rgb(255, 60, 105),
        Color::LogWarning => rgb(255, 205, 74),
        Color::LogInfo => rgb(0, 210, 255),
        Color::LogDebug => rgb(171, 181, 210),
        Color::LogEvent => rgb(136, 150, 190),
        Color::GraphRenderExternal => rgb(76, 82, 112),
        Color::GraphRenderExternalLabel => rgb(150, 158, 188),
        Color::GraphIdle => rgb(255, 211, 77),
        Color::GraphTranscode => rgb(38, 237, 145),
        Color::GraphInitialThroughput => rgb(136, 150, 190),
    }
}

/// The red that marks a failure; the palette's red accent.
pub open spec fn ko_red() -> Color {
    Color::AccentRed
}

impl Color {
    /// The bytes of this palette entry.
    pub fn to_rgba(self) -> (c: Rgba)
        ensures
            c == palette(self),
    {
        match self {
            Color::Accent => Rgba { r: 0, g: 210, b: 255, a: 255 },
            Color::AccentDark => Rgba { r: 0, g: 92, b: 128, a: 255 },
            Color::AccentRed => Rgba { r: 255, g: 43, b: 92, a: 255 },
            Color::AccentRedDark => Rgba { r: 117, g: 18, b: 48, a: 255 },
            Color::Bg => Rgba { r: 9, g: 10, b: 18, a: 255 },
            Color::LighterBg => Rgba { r: 17, g: 19, b: 34, a: 255 },
            Color::SectionBg => Rgba { r: 22, g: 24, b: 43, a: 255 },
            Color::DarkerBg => Rgba { r: 7, g: 8, b: 14, a: 255 },
            Color::ElevatedBg => Rgba { r: 30, g: 33, b: 56, a: 255 },
            Color::SeparatorBg => Rgba { r: 64, g: 73, b: 111, a: 255 },
            Color::MutedFg => Rgba { r: 171, g: 181, b: 210, a: 255 },
            Color::Fg => Rgba { r: 246, g: 249, b: 255, a: 255 },
            Color::OkGreen => Rgba { r: 38, g: 237, b: 145, a: 255 },
            Color::ThumbIdleStroke => Rgba { r: 95, g: 103, b: 136, a: 255 },
            Color::NavTabIdleFill => Rgba { r: 0, g: 0, b: 0, a: 0 },
            Color::NavTabIdleStroke => Rgba { r: 70, g: 82, b: 126, a: 90 },
            Color::ConnectedFill => Rgba { r: 25, g: 100, b: 73, a: 160 },
            Color::DisconnectedFill => Rgba { r: 115, g: 20, b: 47, a: 150 },
            Color::SubsectionStroke => Rgba { r: 78, g: 91, b: 138, a: 255 },
            Color::NoticeStroke => Rgba { r: 255, g: 235, b: 150, a: 255 },
            Color::Black => Rgba { r: 0, g: 0, b: 0, a: 255 },
            Color::SaberBlue => Rgba { r: 0, g: 210, b: 255, a: 42 },
            Color::SaberRed => Rgba { r: 255, g: 43, b: 92, a: 42 },
            Color::SaberGuide => Rgba { r: 100, g: 117, b: 170, a: 45 },
            Color::LogError => Rgba { r: 255, g: 60, b: 105, a: 255 },
            Color::LogWarning => Rgba { r: 255, g: 205, b: 74, a: 255 },
            Color::LogInfo => Rgba { r: 0, g: 210, b: 255, a: 255 },
            Color::LogDebug => Rgba { r: 171, g: 181, b: 210, a: 255 },
            Color::LogEvent => Rgba { r: 136, g: 150, b: 190, a: 255 },
            Color::GraphRenderExternal => Rgba { r: 76, g: 82, b: 112, a: 255 },
            Color::GraphRenderExternalLabel => Rgba { r: 150, g: 158, b: 188, a: 255 },
            Color::GraphIdle => Rgba { r: 255, g: 211, b: 77, a: 255 },
            Color::GraphTranscode => Rgba { r: 38, g: 237, b: 145, a: 255 },
            Color::GraphInitialThroughput => Rgba { r: 136, g: 150, b: 190, a: 255 },
        }
    }
}

/// Corner radius of sections and widgets.
pub const CORNER_RADIUS: u8 = 18;

/// Corner radius of section frames.
pub const ROUNDING: u8 = CORNER_RADIUS;

/// Corner radius of subsection frames, menus and notices.
pub const ROUNDING_SMALL: u8 = 12;

/// Corner radius of pill-shaped buttons.
pub const PILL_ROUNDING: u8 = 28;

/// Two whole numbers of points: horizontal and vertical.
#[derive(Clone, Copy, Debug, PartialEq, Eq, Structural)]
pub struct Pair {
    pub x: u8,
    pub y: u8,
}

/// How a frame around a group of widgets is painted: background, inner margin
/// (horizontal, vertical) in points, corner radius and outline.
#[derive(Clone, Copy, Debug, PartialEq, Eq, Structural)]
pub struct FrameStyle {
    pub fill: Color,
    pub margin: Pair,
    pub rounding: u8,
    pub stroke: Stroke,
}

/// The frame of a settings section.
pub fn section_frame() -> (f: FrameStyle)
    ensures
        f == (FrameStyle {
            fill: Color::SectionBg,
            margin: Pair { x: 16, y: 14 },
            rounding: ROUNDING,
            stroke: Stroke { width_tenths: 10, color: Color::SeparatorBg },
        }),
{
    FrameStyle {
        fill: Color::SectionBg,
        margin: Pair { x: 16, y: 14 },
        rounding: ROUNDING,
        stroke: Stroke { width_tenths: 10, color: Color::SeparatorBg },
    }
}

/// The frame of a subsection.
pub fn subsection_frame() -> (f: FrameStyle)
    ensures
        f == (FrameStyle {
            fill: Color::ElevatedBg,
            margin: Pair { x: 14, y: 12 },
            rounding: ROUNDING_SMALL,
            stroke: Stroke { width_tenths: 10, color: Color::SubsectionStroke },
        }),
{
    FrameStyle {
        fill: Color::ElevatedBg,
        margin: Pair { x: 14, y: 12 },
        rounding: ROUNDING_SMALL,
        stroke: Stroke { width_tenths: 10, color: Color::SubsectionStroke },
    }
}

/// A pill-shaped frame with the given background and outline colours.
pub fn pill_frame(fill: Color, stroke: Color) -> (f: FrameStyle)
    ensures
        f == (FrameStyle {
            fill,
            margin: Pair { x: 12, y: 5 },
            rounding: PILL_ROUNDING,
            stroke: Stroke { width_tenths: 10, color: stroke },
        }),
{
    FrameStyle {
        fill,
        margin: Pair { x: 12, y: 5 },
        rounding: PILL_ROUNDING,
        stroke: Stroke { width_tenths: 10, color: stroke },
    }
}

/// The frame of a notice box; its text is black at size 11.
pub fn notice_frame() -> (f: FrameStyle)
    ensures
        f == (FrameStyle {
            fill: Color::LogWarning,
            margin: Pair { x: 12, y: 8 },
            rounding: ROUNDING_SMALL,
            stroke: Stroke { width_tenths: 10, color: Color::NoticeStroke },
        }),
{
    FrameStyle {
        fill: Color::LogWarning,
        margin: Pair { x: 12, y: 8 },
        rounding: ROUNDING_SMALL,
        stroke: Stroke { width_tenths: 10, color: Color::NoticeStroke },
    }
}

/// The style of a reset button.
pub fn reset_button_style() -> (s: ButtonStyle)
    ensures
        s == (ButtonStyle {
            text: None,
            fill: Color::LighterBg,
            stroke: Stroke { width_tenths: 10, color: Color::SeparatorBg },
        }),
{
    ButtonStyle {
        text: None,
        fill: Color::LighterBg,
        stroke: Stroke { width_tenths: 10, color: Color::SeparatorBg },
    }
}

/// How widgets in one interaction state are painted. Where a part is `None`, the
/// dark theme's own value stays.
#[derive(Clone, Copy, Debug, PartialEq, Eq, Structural)]
pub struct WidgetLook {
    pub bg_fill: Color,
    pub fg_stroke: Option<Stroke>,
    pub bg_stroke: Stroke,
    pub corner_radius: u8,
    /// How far, in points, the widget grows.
    pub expansion: Option<u8>,
}

/// The dashboard's global style, laid over the dark theme: sizes in points, stroke
/// widths in tenths of a point.
#[derive(Clone, Copy, Debug, PartialEq, Eq, Structural)]
pub struct ThemeStyle {
    pub slider_width: u16,
    pub interact_size: Pair,
    pub item_spacing: Pair,
    pub button_padding: Pair,
    pub window_margin: u8,
    pub body_text_size: u8,
    pub tooltip_delay: u8,
    pub active: WidgetLook,
    pub hovered: WidgetLook,
    pub inactive: WidgetLook,
    pub open: WidgetLook,
    pub noninteractive: WidgetLook,
    pub selection_fill: Color,
    pub selection_stroke: Stroke,
    pub panel_fill: Color,
    pub extreme_bg: Color,
    pub faint_bg: Color,
    pub hyperlink: Color,
    pub window_fill: Color,
    pub window_stroke: Stroke,
    pub window_corner_radius: u8,
    pub menu_corner_radius: u8,
}

/// The dashboard's global style.
pub open spec fn dashboard_theme() -> ThemeStyle {
    ThemeStyle {
        slider_width: 230,
        interact_size: Pair { x: 44, y: 32 },
        item_spacing: Pair { x: 13, y: 13 },
        button_padding: Pair { x: 14, y: 9 },
        window_margin: 10,
        body_text_size: 14,
        tooltip_delay: 0,
        active: WidgetLook {
            bg_fill: Color::Accent,
            fg_stroke: Some(Stroke { width_tenths: 10, color: Color::Fg }),
            bg_stroke: Stroke { width_tenths: 10, color: Color::Accent },
            corner_radius: CORNER_RADIUS,
            expansion: None,
        },
        hovered: WidgetLook {
            bg_fill: Color::ElevatedBg,
            fg_stroke: Some(Stroke { width_tenths: 10, color: Color::Fg }),
            bg_stroke: Stroke { width_tenths: 10, color: Color::Accent },
            corner_radius: CORNER_RADIUS,
            expansion: Some(1),
        },
        inactive: WidgetLook {
            bg_fill: Color::LighterBg,
            fg_stroke: Some(Stroke { width_tenths: 10, color: Color::Fg }),
            bg_stroke: Stroke { width_tenths: 10, color: Color::SeparatorBg },
            corner_radius: CORNER_RADIUS,
            expansion: None,
        },
        open: WidgetLook {
            bg_fill: Color::ElevatedBg,
            fg_stroke: None,
            bg_stroke: Stroke { width_tenths: 10, color: Color::Accent },
            corner_radius: CORNER_RADIUS,
            expansion: None,
        },
        noninteractive: WidgetLook {
            bg_fill: Color::Bg,
            fg_stroke: Some(Stroke { width_tenths: 10, color: Color::Fg }),
            bg_stroke: Stroke { width_tenths: 5, color: Color::SeparatorBg },
            corner_radius: CORNER_RADIUS,
            expansion: None,
        },
        selection_fill: Color::Accent,
        selection_stroke: Stroke { width_tenths: 10, color: Color::Fg },
        panel_fill: Color::Bg,
        extreme_bg: Color::DarkerBg,
        faint_bg: Color::DarkerBg,
        hyperlink: Color::Accent,
        window_fill: Color::SectionBg,
        window_stroke: Stroke { width_tenths: 10, color: Color::SeparatorBg },
        window_corner_radius: ROUNDING,
        menu_corner_radius: ROUNDING_SMALL,
    }
}

/// What the global theme sets, field by field, over egui's dark theme:
/// - interactive widgets are outlined in the accent colour while active, hovered or
///   open, and in the separator grey while idle; non-interactive ones get a half
///   point grey outline;
/// - widget text strokes are the foreground colour, except for open widgets, whose
///   text stroke stays the dark theme's;
/// - only a hovered widget grows, by one point;
/// - every widget state is rounded by the common corner radius;
/// - windows are section-coloured with a grey outline, selections are accent-filled
///   with a foreground outline, hyperlinks are accent-coloured;
/// - the spacings and sizes are the fixed values below.
pub proof fn theme_assignments()
    ensures
        dashboard_theme().active.bg_stroke == (Stroke { width_tenths: 10, color: Color::Accent }),
        dashboard_theme().hovered.bg_stroke == (Stroke { width_tenths: 10, color: Color::Accent }),
        dashboard_theme().open.bg_stroke == (Stroke { width_tenths: 10, color: Color::Accent }),
        dashboard_theme().inactive.bg_stroke == (Stroke { width_tenths: 10, color: Color::SeparatorBg }),
        dashboard_theme().noninteractive.bg_stroke == (Stroke { width_tenths: 5, color: Color::SeparatorBg }),
        dashboard_theme().active.fg_stroke == Some(Stroke { width_tenths: 10, color: Color::Fg }),
        dashboard_theme().hovered.fg_stroke == Some(Stroke { width_tenths: 10, color: Color::Fg }),
        dashboard_theme().inactive.fg_stroke == Some(Stroke { width_tenths: 10, color: Color::Fg }),
        dashboard_theme().noninteractive.fg_stroke == Some(Stroke { width_tenths: 10, color: Color::Fg }),
        dashboard_theme().open.fg_stroke.is_none(),
        dashboard_theme().active.bg_fill == Color::Accent,
        dashboard_theme().hovered.bg_fill == Color::ElevatedBg,
        dashboard_theme().inactive.bg_fill == Color::LighterBg,
        dashboard_theme().open.bg_fill == Color::ElevatedBg,
        dashboard_theme().noninteractive.bg_fill == Color::Bg,
        dashboard_theme().hovered.expansion == Some(1u8),
        dashboard_theme().active.expansion.is_none(),
        dashboard_theme().inactive.expansion.is_none(),
        dashboard_theme().open.expansion.is_none(),
        dashboard_theme().noninteractive.expansion.is_none(),
        dashboard_theme().active.corner_radius == 18,
        dashboard_theme().hovered.corner_radius == 18,
        dashboard_theme().inactive.corner_radius == 18,
        dashboard_theme().open.corner_radius == 18,
        dashboard_theme().noninteractive.corner_radius == 18,
        dashboard_theme().selection_fill == Color::Accent,
        dashboard_theme().selection_stroke == (Stroke { width_tenths: 10, color: Color::Fg }),
        dashboard_theme().panel_fill == Color::Bg,
        dashboard_theme().extreme_bg == Color::DarkerBg,
        dashboard_theme().faint_bg == Color::DarkerBg,
        dashboard_theme().hyperlink == Color::Accent,
        dashboard_theme().window_fill == Color::SectionBg,
        dashboard_theme().window_stroke == (Stroke { width_tenths: 10, color: Color::SeparatorBg }),
        dashboard_theme().window_corner_radius == 18,
        dashboard_theme().menu_corner_radius == 12,
        dashboard_theme().slider_width == 230,
        dashboard_theme().interact_size == (Pair { x: 44, y: 32 }),
        dashboard_theme().item_spacing == (Pair { x: 13, y: 13 }),
        dashboard_theme().button_padding == (Pair { x: 14, y: 9 }),
        dashboard_theme().window_margin == 10,
        dashboard_theme().body_text_size == 14,
        dashboard_theme().tooltip_delay == 0,
{
}

/// The dashboard's global style, to be laid over the dark theme.
pub fn theme_style() -> (t: ThemeStyle)
    ensures
        t == dashboard_theme(),
{
    ThemeStyle {
        slider_width: 230,
        interact_size: Pair { x: 44, y: 32 },
        item_spacing: Pair { x: 13, y: 13 },
        button_padding: Pair { x: 14, y: 9 },
        window_margin: 10,
        body_text_size: 14,
        tooltip_delay: 0,
        active: WidgetLook {
            bg_fill: Color::Accent,
            fg_stroke: Some(Stroke { width_tenths: 10, color: Color::Fg }),
            bg_stroke: Stroke { width_tenths: 10, color: Color::Accent },
            corner_radius: CORNER_RADIUS,
            expansion: None,
        },
        hovered: WidgetLook {
            bg_fill: Color::ElevatedBg,
            fg_stroke: Some(Stroke { width_tenths: 10, color: Color::Fg }),
            bg_stroke: Stroke { width_tenths: 10, color: Color::Accent },
            corner_radius: CORNER_RADIUS,
            expansion: Some(1),
        },
        inactive: WidgetLook {
            bg_fill: Color::LighterBg,
            fg_stroke: Some(Stroke { width_tenths: 10, color: Color::Fg }),
            bg_stroke: Stroke { width_tenths: 10, color: Color::SeparatorBg },
            corner_radius: CORNER_RADIUS,
            expansion: None,
        },
        open: WidgetLook {
            bg_fill: Color::ElevatedBg,
            fg_stroke: None,
            bg_stroke: Stroke { width_tenths: 10, color: Color::Accent },
            corner_radius: CORNER_RADIUS,
            expansion: None,
        },
        noninteractive: WidgetLook {
            bg_fill: Color::Bg,
            fg_stroke: Some(Stroke { width_tenths: 10, color: Color::Fg }),
            bg_stroke: Stroke { width_tenths: 5, color: Color::SeparatorBg },
            corner_radius: CORNER_RADIUS,
            expansion: None,
        },
        selection_fill: Color::Accent,
        selection_stroke: Stroke { width_tenths: 10, color: Color::Fg },
        panel_fill: Color::Bg,
        extreme_bg: Color::DarkerBg,
        faint_bg: Color::DarkerBg,
        hyperlink: Color::Accent,
        window_fill: Color::SectionBg,
        window_stroke: Stroke { width_tenths: 10, color: Color::SeparatorBg },
        window_corner_radius: ROUNDING,
        menu_corner_radius: ROUNDING_SMALL,
    }
}

} // verus!
