//! Code export: renders an override set as a source snippet that builds
//! the equivalent style by hand.
//!
//! This is templating, not logic; its one guarantee is the exact shape of
//! the output: every present key of the set appears in the snippet exactly
//! once, in enumeration order, as one assignment line for its value kind.
//! The weak-text line targets toolkit versions that expose that field; the
//! host used here derives the value instead.

use vstd::prelude::*;
use vstd::string::StringExecFns;

use crate::config::{ConfigModel, ThemeConfig};
use crate::keys::{key_at, AttributeKey, KEY_COUNT};
use crate::values::AttrValue;

verus! {

/// The decimal digit character for a value below ten.
pub open spec fn digit_char(d: nat) -> char {
    if d == 0 {
        '0'
    } else if d == 1 {
        '1'
    } else if d == 2 {
        '2'
    } else if d == 3 {
        '3'
    } else if d == 4 {
        '4'
    } else if d == 5 {
        '5'
    } else if d == 6 {
        '6'
    } else if d == 7 {
        '7'
    } else if d == 8 {
        '8'
    } else {
        '9'
    }
}

/// The decimal digits of a number, most significant first.
pub open spec fn dec_chars(n: nat) -> Seq<char>
    decreases n,
{
    if n < 10 {
        seq![digit_char(n)]
    } else {
        dec_chars(n / 10).push(digit_char(n % 10))
    }
}

/// The fractional part of a width literal: always at least one digit, so
/// the rendering reads as a floating-point literal, trailing zeros
/// otherwise dropped.
pub open spec fn width_frac_chars(frac: nat) -> Seq<char> {
    let d1 = frac / 100;
    let d2 = (frac / 10) % 10;
    let d3 = frac % 10;
    if frac == 0 {
        ".0"@
    } else if d3 != 0 {
        "."@ + seq![digit_char(d1), digit_char(d2), digit_char(d3)]
    } else if d2 != 0 {
        "."@ + seq![digit_char(d1), digit_char(d2)]
    } else {
        "."@ + seq![digit_char(d1)]
    }
}

/// A width in thousandths rendered as a floating-point literal.
pub open spec fn width_lit_chars(w: int) -> Seq<char> {
    let mag = if w < 0 {
        -w
    } else {
        w
    };
    let digits = dec_chars((mag / 1000) as nat) + width_frac_chars((mag % 1000) as nat);
    if w < 0 {
        "-"@ + digits
    } else {
        digits
    }
}

/// The rendering of one value inside its snippet line: the four channel
/// arguments for a color, a floating-point literal for a width, an integer
/// for a radius, a boolean for a flag.
pub open spec fn value_chars(v: AttrValue) -> Seq<char> {
    match v {
        AttrValue::Color(c) => dec_chars(c.r as nat) + ", "@ + dec_chars(c.g as nat) + ", "@
            + dec_chars(c.b as nat) + ", "@ + dec_chars(c.a as nat),
        AttrValue::Width(w) => width_lit_chars(w as int),
        AttrValue::Radius(x) => dec_chars(x as nat),
        AttrValue::Flag(b) => if b {
            "true"@
        } else {
            "false"@
        },
    }
}

/// The snippet assignment target for a key: the text before its value.
pub open spec fn key_snippet_prefix(k: AttributeKey) -> Seq<char> {
    match k {
        AttributeKey::TextColor => "    visuals.override_text_color = Some(egui::Color32::from_rgba_unmultiplied("@,
        AttributeKey::WeakTextColor => "    visuals.weak_text_color = Some(egui::Color32::from_rgba_unmultiplied("@,
        AttributeKey::HyperlinkColor => "    visuals.hyperlink_color = egui::Color32::from_rgba_unmultiplied("@,
        AttributeKey::FaintBgColor => "    visuals.faint_bg_color = egui::Color32::from_rgba_unmultiplied("@,
        AttributeKey::ExtremeBgColor => "    visuals.extreme_bg_color = egui::Color32::from_rgba_unmultiplied("@,
        AttributeKey::CodeBgColor => "    visuals.code_bg_color = egui::Color32::from_rgba_unmultiplied("@,
        AttributeKey::WarnFgColor => "    visuals.warn_fg_color = egui::Color32::from_rgba_unmultiplied("@,
        AttributeKey::ErrorFgColor => "    visuals.error_fg_color = egui::Color32::from_rgba_unmultiplied("@,
        AttributeKey::WindowFill => "    visuals.window_fill = egui::Color32::from_rgba_unmultiplied("@,
        AttributeKey::WindowStrokeColor => "    visuals.window_stroke.color = egui::Color32::from_rgba_unmultiplied("@,
        AttributeKey::WindowStrokeWidth => "    visuals.window_stroke.width = "@,
        AttributeKey::WindowCornerRadius => "    visuals.window_corner_radius = egui::CornerRadius::same("@,
        AttributeKey::WindowShadowSize => "    visuals.window_shadow.spread = "@,
        AttributeKey::PanelFill => "    visuals.panel_fill = egui::Color32::from_rgba_unmultiplied("@,
        AttributeKey::PopupShadowSize => "    visuals.popup_shadow.spread = "@,
        AttributeKey::SelectionBg => "    visuals.selection.bg_fill = egui::Color32::from_rgba_unmultiplied("@,
        AttributeKey::SelectionStrokeColor => "    visuals.selection.stroke.color = egui::Color32::from_rgba_unmultiplied("@,
        AttributeKey::SelectionStrokeWidth => "    visuals.selection.stroke.width = "@,
        AttributeKey::NoninteractiveBgFill => "    visuals.widgets.noninteractive.bg_fill = egui::Color32::from_rgba_unmultiplied("@,
        AttributeKey::NoninteractiveWeakBgFill => "    visuals.widgets.noninteractive.weak_bg_fill = egui::Color32::from_rgba_unmultiplied("@,
        AttributeKey::NoninteractiveBgStrokeColor => "    visuals.widgets.noninteractive.bg_stroke.color = egui::Color32::from_rgba_unmultiplied("@,
        AttributeKey::NoninteractiveBgStrokeWidth => "    visuals.widgets.noninteractive.bg_stroke.width = "@,
        AttributeKey::NoninteractiveCornerRadius => "    visuals.widgets.noninteractive.corner_radius = egui::CornerRadius::same("@,
        AttributeKey::NoninteractiveFgStrokeColor => "    visuals.widgets.noninteractive.fg_stroke.color = egui::Color32::from_rgba_unmultiplied("@,
        AttributeKey::NoninteractiveFgStrokeWidth => "    visuals.widgets.noninteractive.fg_stroke.width = "@,
        AttributeKey::NoninteractiveExpansion => "    visuals.widgets.noninteractive.expansion = "@,
        AttributeKey::InactiveBgFill => "    visuals.widgets.inactive.bg_fill = egui::Color32::from_rgba_unmultiplied("@,
        AttributeKey::InactiveWeakBgFill => "    visuals.widgets.inactive.weak_bg_fill = egui::Color32::from_rgba_unmultiplied("@,
        AttributeKey::InactiveBgStrokeColor => "    visuals.widgets.inactive.bg_stroke.color = egui::Color32::from_rgba_unmultiplied("@,
        AttributeKey::InactiveBgStrokeWidth => "    visuals.widgets.inactive.bg_stroke.width = "@,
        AttributeKey::InactiveCornerRadius => "    visuals.widgets.inactive.corner_radius = egui::CornerRadius::same("@,
        AttributeKey::InactiveFgStrokeColor => "    visuals.widgets.inactive.fg_stroke.color = egui::Color32::from_rgba_unmultiplied("@,
        AttributeKey::InactiveFgStrokeWidth => "    visuals.widgets.inactive.fg_stroke.width = "@,
        AttributeKey::InactiveExpansion => "    visuals.widgets.inactive.expansion = "@,
        AttributeKey::HoveredBgFill => "    visuals.widgets.hovered.bg_fill = egui::Color32::from_rgba_unmultiplied("@,
        AttributeKey::HoveredWeakBgFill => "    visuals.widgets.hovered.weak_bg_fill = egui::Color32::from_rgba_unmultiplied("@,
        AttributeKey::HoveredBgStrokeColor => "    visuals.widgets.hovered.bg_stroke.color = egui::Color32::from_rgba_unmultiplied("@,
        AttributeKey::HoveredBgStrokeWidth => "    visuals.widgets.hovered.bg_stroke.width = "@,
        AttributeKey::HoveredCornerRadius => "    visuals.widgets.hovered.corner_radius = egui::CornerRadius::same("@,
        AttributeKey::HoveredFgStrokeColor => "    visuals.widgets.hovered.fg_stroke.color = egui::Color32::from_rgba_unmultiplied("@,
        AttributeKey::HoveredFgStrokeWidth => "    visuals.widgets.hovered.fg_stroke.width = "@,
        AttributeKey::HoveredExpansion => "    visuals.widgets.hovered.expansion = "@,
        AttributeKey::ActiveBgFill => "    visuals.widgets.active.bg_fill = egui::Color32::from_rgba_unmultiplied("@,
        AttributeKey::ActiveWeakBgFill => "    visuals.widgets.active.weak_bg_fill = egui::Color32::from_rgba_unmultiplied("@,
        AttributeKey::ActiveBgStrokeColor => "    visuals.widgets.active.bg_stroke.color = egui::Color32::from_rgba_unmultiplied("@,
        AttributeKey::ActiveBgStrokeWidth => "    visuals.widgets.active.bg_stroke.width = "@,
        AttributeKey::ActiveCornerRadius => "    visuals.widgets.active.corner_radius = egui::CornerRadius::same("@,
        AttributeKey::ActiveFgStrokeColor => "    visuals.widgets.active.fg_stroke.color = egui::Color32::from_rgba_unmultiplied("@,
        AttributeKey::ActiveFgStrokeWidth => "    visuals.widgets.active.fg_stroke.width = "@,
        AttributeKey::ActiveExpansion => "    visuals.widgets.active.expansion = "@,
        AttributeKey::OpenBgFill => "    visuals.widgets.open.bg_fill = egui::Color32::from_rgba_unmultiplied("@,
        AttributeKey::OpenWeakBgFill => "    visuals.widgets.open.weak_bg_fill = egui::Color32::from_rgba_unmultiplied("@,
        AttributeKey::OpenBgStrokeColor => "    visuals.widgets.open.bg_stroke.color = egui::Color32::from_rgba_unmultiplied("@,
        AttributeKey::OpenBgStrokeWidth => "    visuals.widgets.open.bg_stroke.width = "@,
        AttributeKey::OpenCornerRadius => "    visuals.widgets.open.corner_radius = egui::CornerRadius::same("@,
        AttributeKey::OpenFgStrokeColor => "    visuals.widgets.open.fg_stroke.color = egui::Color32::from_rgba_unmultiplied("@,
        AttributeKey::OpenFgStrokeWidth => "    visuals.widgets.open.fg_stroke.width = "@,
        AttributeKey::OpenExpansion => "    visuals.widgets.open.expansion = "@,
        AttributeKey::ResizeCornerSize => "    visuals.resize_corner_size = "@,
        AttributeKey::TextCursorWidth => "    visuals.text_cursor.stroke.width = "@,
        AttributeKey::ClipRectMargin => "    visuals.clip_rect_margin = "@,
        AttributeKey::ButtonFrame => "    visuals.button_frame = "@,
        AttributeKey::CollapsingHeaderFrame => "    visuals.collapsing_header_frame = "@,
        AttributeKey::IndentHasLeftVline => "    visuals.indent_has_left_vline = "@,
        AttributeKey::Striped => "    visuals.striped = "@,
        AttributeKey::SliderTrailingFill => "    visuals.slider_trailing_fill = "@,
    }
}

/// The text closing a key's snippet line.
pub open spec fn key_snippet_close(k: AttributeKey) -> Seq<char> {
    match k {
        AttributeKey::TextColor => "));\n"@,
        AttributeKey::WeakTextColor => "));\n"@,
        AttributeKey::HyperlinkColor => ");\n"@,
        AttributeKey::FaintBgColor => ");\n"@,
        AttributeKey::ExtremeBgColor => ");\n"@,
        AttributeKey::CodeBgColor => ");\n"@,
        AttributeKey::WarnFgColor => ");\n"@,
        AttributeKey::ErrorFgColor => ");\n"@,
        AttributeKey::WindowFill => ");\n"@,
        AttributeKey::WindowStrokeColor => ");\n"@,
        AttributeKey::WindowStrokeWidth => ";\n"@,
        AttributeKey::WindowCornerRadius => ");\n"@,
        AttributeKey::WindowShadowSize => ";\n"@,
        AttributeKey::PanelFill => ");\n"@,
        AttributeKey::PopupShadowSize => ";\n"@,
        AttributeKey::SelectionBg => ");\n"@,
        AttributeKey::SelectionStrokeColor => ");\n"@,
        AttributeKey::SelectionStrokeWidth => ";\n"@,
        AttributeKey::NoninteractiveBgFill => ");\n"@,
        AttributeKey::NoninteractiveWeakBgFill => ");\n"@,
        AttributeKey::NoninteractiveBgStrokeColor => ");\n"@,
        AttributeKey::NoninteractiveBgStrokeWidth => ";\n"@,
        AttributeKey::NoninteractiveCornerRadius => ");\n"@,
        AttributeKey::NoninteractiveFgStrokeColor => ");\n"@,
        AttributeKey::NoninteractiveFgStrokeWidth => ";\n"@,
        AttributeKey::NoninteractiveExpansion => ";\n"@,
        AttributeKey::InactiveBgFill => ");\n"@,
        AttributeKey::InactiveWeakBgFill => ");\n"@,
        AttributeKey::InactiveBgStrokeColor => ");\n"@,
        AttributeKey::InactiveBgStrokeWidth => ";\n"@,
        AttributeKey::InactiveCornerRadius => ");\n"@,
        AttributeKey::InactiveFgStrokeColor => ");\n"@,
        AttributeKey::InactiveFgStrokeWidth => ";\n"@,
        AttributeKey::InactiveExpansion => ";\n"@,
        AttributeKey::HoveredBgFill => ");\n"@,
        AttributeKey::HoveredWeakBgFill => ");\n"@,
        AttributeKey::HoveredBgStrokeColor => ");\n"@,
        AttributeKey::HoveredBgStrokeWidth => ";\n"@,
        AttributeKey::HoveredCornerRadius => ");\n"@,
        AttributeKey::HoveredFgStrokeColor => ");\n"@,
        AttributeKey::HoveredFgStrokeWidth => ";\n"@,
        AttributeKey::HoveredExpansion => ";\n"@,
        AttributeKey::ActiveBgFill => ");\n"@,
        AttributeKey::ActiveWeakBgFill => ");\n"@,
        AttributeKey::ActiveBgStrokeColor => ");\n"@,
        AttributeKey::ActiveBgStrokeWidth => ";\n"@,
        AttributeKey::ActiveCornerRadius => ");\n"@,
        AttributeKey::ActiveFgStrokeColor => ");\n"@,
        AttributeKey::ActiveFgStrokeWidth => ";\n"@,
        AttributeKey::ActiveExpansion => ";\n"@,
        AttributeKey::OpenBgFill => ");\n"@,
        AttributeKey::OpenWeakBgFill => ");\n"@,
        AttributeKey::OpenBgStrokeColor => ");\n"@,
        AttributeKey::OpenBgStrokeWidth => ";\n"@,
        AttributeKey::OpenCornerRadius => ");\n"@,
        AttributeKey::OpenFgStrokeColor => ");\n"@,
        AttributeKey::OpenFgStrokeWidth => ";\n"@,
        AttributeKey::OpenExpansion => ";\n"@,
        AttributeKey::ResizeCornerSize => ";\n"@,
        AttributeKey::TextCursorWidth => ";\n"@,
        AttributeKey::ClipRectMargin => ";\n"@,
        AttributeKey::ButtonFrame => ";\n"@,
        AttributeKey::CollapsingHeaderFrame => ";\n"@,
        AttributeKey::IndentHasLeftVline => ";\n"@,
        AttributeKey::Striped => ";\n"@,
        AttributeKey::SliderTrailingFill => ";\n"@,
    }
}

impl AttributeKey {
    /// The snippet assignment target for this key.
    pub fn snippet_prefix(self) -> (s: &'static str)
        ensures
            s@ == key_snippet_prefix(self),
    {
        match self {
            AttributeKey::TextColor => "    visuals.override_text_color = Some(egui::Color32::from_rgba_unmultiplied(",
            AttributeKey::WeakTextColor => "    visuals.weak_text_color = Some(egui::Color32::from_rgba_unmultiplied(",
            AttributeKey::HyperlinkColor => "    visuals.hyperlink_color = egui::Color32::from_rgba_unmultiplied(",
            AttributeKey::FaintBgColor => "    visuals.faint_bg_color = egui::Color32::from_rgba_unmultiplied(",
            AttributeKey::ExtremeBgColor => "    visuals.extreme_bg_color = egui::Color32::from_rgba_unmultiplied(",
            AttributeKey::CodeBgColor => "    visuals.code_bg_color = egui::Color32::from_rgba_unmultiplied(",
            AttributeKey::WarnFgColor => "    visuals.warn_fg_color = egui::Color32::from_rgba_unmultiplied(",
            AttributeKey::ErrorFgColor => "    visuals.error_fg_color = egui::Color32::from_rgba_unmultiplied(",
            AttributeKey::WindowFill => "    visuals.window_fill = egui::Color32::from_rgba_unmultiplied(",
            AttributeKey::WindowStrokeColor => "    visuals.window_stroke.color = egui::Color32::from_rgba_unmultiplied(",
            AttributeKey::WindowStrokeWidth => "    visuals.window_stroke.width = ",
            AttributeKey::WindowCornerRadius => "    visuals.window_corner_radius = egui::CornerRadius::same(",
            AttributeKey::WindowShadowSize => "    visuals.window_shadow.spread = ",
            AttributeKey::PanelFill => "    visuals.panel_fill = egui::Color32::from_rgba_unmultiplied(",
            AttributeKey::PopupShadowSize => "    visuals.popup_shadow.spread = ",
            AttributeKey::SelectionBg => "    visuals.selection.bg_fill = egui::Color32::from_rgba_unmultiplied(",
            AttributeKey::SelectionStrokeColor => "    visuals.selection.stroke.color = egui::Color32::from_rgba_unmultiplied(",
            AttributeKey::SelectionStrokeWidth => "    visuals.selection.stroke.width = ",
            AttributeKey::NoninteractiveBgFill => "    visuals.widgets.noninteractive.bg_fill = egui::Color32::from_rgba_unmultiplied(",
            AttributeKey::NoninteractiveWeakBgFill => "    visuals.widgets.noninteractive.weak_bg_fill = egui::Color32::from_rgba_unmultiplied(",
            AttributeKey::NoninteractiveBgStrokeColor => "    visuals.widgets.noninteractive.bg_stroke.color = egui::Color32::from_rgba_unmultiplied(",
            AttributeKey::NoninteractiveBgStrokeWidth => "    visuals.widgets.noninteractive.bg_stroke.width = ",
            AttributeKey::NoninteractiveCornerRadius => "    visuals.widgets.noninteractive.corner_radius = egui::CornerRadius::same(",
            AttributeKey::NoninteractiveFgStrokeColor => "    visuals.widgets.noninteractive.fg_stroke.color = egui::Color32::from_rgba_unmultiplied(",
            AttributeKey::NoninteractiveFgStrokeWidth => "    visuals.widgets.noninteractive.fg_stroke.width = ",
            AttributeKey::NoninteractiveExpansion => "    visuals.widgets.noninteractive.expansion = ",
            AttributeKey::InactiveBgFill => "    visuals.widgets.inactive.bg_fill = egui::Color32::from_rgba_unmultiplied(",
            AttributeKey::InactiveWeakBgFill => "    visuals.widgets.inactive.weak_bg_fill = egui::Color32::from_rgba_unmultiplied(",
            AttributeKey::InactiveBgStrokeColor => "    visuals.widgets.inactive.bg_stroke.color = egui::Color32::from_rgba_unmultiplied(",
            AttributeKey::InactiveBgStrokeWidth => "    visuals.widgets.inactive.bg_stroke.width = ",
            AttributeKey::InactiveCornerRadius => "    visuals.widgets.inactive.corner_radius = egui::CornerRadius::same(",
            AttributeKey::InactiveFgStrokeColor => "    visuals.widgets.inactive.fg_stroke.color = egui::Color32::from_rgba_unmultiplied(",
            AttributeKey::InactiveFgStrokeWidth => "    visuals.widgets.inactive.fg_stroke.width = ",
            AttributeKey::InactiveExpansion => "    visuals.widgets.inactive.expansion = ",
            AttributeKey::HoveredBgFill => "    visuals.widgets.hovered.bg_fill = egui::Color32::from_rgba_unmultiplied(",
            AttributeKey::HoveredWeakBgFill => "    visuals.widgets.hovered.weak_bg_fill = egui::Color32::from_rgba_unmultiplied(",
            AttributeKey::HoveredBgStrokeColor => "    visuals.widgets.hovered.bg_stroke.color = egui::Color32::from_rgba_unmultiplied(",
            AttributeKey::HoveredBgStrokeWidth => "    visuals.widgets.hovered.bg_stroke.width = ",
            AttributeKey::HoveredCornerRadius => "    visuals.widgets.hovered.corner_radius = egui::CornerRadius::same(",
            AttributeKey::HoveredFgStrokeColor => "    visuals.widgets.hovered.fg_stroke.color = egui::Color32::from_rgba_unmultiplied(",
            AttributeKey::HoveredFgStrokeWidth => "    visuals.widgets.hovered.fg_stroke.width = ",
            AttributeKey::HoveredExpansion => "    visuals.widgets.hovered.expansion = ",
            AttributeKey::ActiveBgFill => "    visuals.widgets.active.bg_fill = egui::Color32::from_rgba_unmultiplied(",
            AttributeKey::ActiveWeakBgFill => "    visuals.widgets.active.weak_bg_fill = egui::Color32::from_rgba_unmultiplied(",
            AttributeKey::ActiveBgStrokeColor => "    visuals.widgets.active.bg_stroke.color = egui::Color32::from_rgba_unmultiplied(",
            AttributeKey::ActiveBgStrokeWidth => "    visuals.widgets.active.bg_stroke.width = ",
            AttributeKey::ActiveCornerRadius => "    visuals.widgets.active.corner_radius = egui::CornerRadius::same(",
            AttributeKey::ActiveFgStrokeColor => "    visuals.widgets.active.fg_stroke.color = egui::Color32::from_rgba_unmultiplied(",
            AttributeKey::ActiveFgStrokeWidth => "    visuals.widgets.active.fg_stroke.width = ",
            AttributeKey::ActiveExpansion => "    visuals.widgets.active.expansion = ",
            AttributeKey::OpenBgFill => "    visuals.widgets.open.bg_fill = egui::Color32::from_rgba_unmultiplied(",
            AttributeKey::OpenWeakBgFill => "    visuals.widgets.open.weak_bg_fill = egui::Color32::from_rgba_unmultiplied(",
            AttributeKey::OpenBgStrokeColor => "    visuals.widgets.open.bg_stroke.color = egui::Color32::from_rgba_unmultiplied(",
            AttributeKey::OpenBgStrokeWidth => "    visuals.widgets.open.bg_stroke.width = ",
            AttributeKey::OpenCornerRadius => "    visuals.widgets.open.corner_radius = egui::CornerRadius::same(",
            AttributeKey::OpenFgStrokeColor => "    visuals.widgets.open.fg_stroke.color = egui::Color32::from_rgba_unmultiplied(",
            AttributeKey::OpenFgStrokeWidth => "    visuals.widgets.open.fg_stroke.width = ",
            AttributeKey::OpenExpansion => "    visuals.widgets.open.expansion = ",
            AttributeKey::ResizeCornerSize => "    visuals.resize_corner_size = ",
            AttributeKey::TextCursorWidth => "    visuals.text_cursor.stroke.width = ",
            AttributeKey::ClipRectMargin => "    visuals.clip_rect_margin = ",
            AttributeKey::ButtonFrame => "    visuals.button_frame = ",
            AttributeKey::CollapsingHeaderFrame => "    visuals.collapsing_header_frame = ",
            AttributeKey::IndentHasLeftVline => "    visuals.indent_has_left_vline = ",
            AttributeKey::Striped => "    visuals.striped = ",
            AttributeKey::SliderTrailingFill => "    visuals.slider_trailing_fill = ",
        }
    }

    /// The text closing this key's snippet line.
    pub fn snippet_close(self) -> (s: &'static str)
        ensures
            s@ == key_snippet_close(self),
    {
        match self {
            AttributeKey::TextColor => "));\n",
            AttributeKey::WeakTextColor => "));\n",
            AttributeKey::HyperlinkColor => ");\n",
            AttributeKey::FaintBgColor => ");\n",
            AttributeKey::ExtremeBgColor => ");\n",
            AttributeKey::CodeBgColor => ");\n",
            AttributeKey::WarnFgColor => ");\n",
            AttributeKey::ErrorFgColor => ");\n",
            AttributeKey::WindowFill => ");\n",
            AttributeKey::WindowStrokeColor => ");\n",
            AttributeKey::WindowStrokeWidth => ";\n",
            AttributeKey::WindowCornerRadius => ");\n",
            AttributeKey::WindowShadowSize => ";\n",
            AttributeKey::PanelFill => ");\n",
            AttributeKey::PopupShadowSize => ";\n",
            AttributeKey::SelectionBg => ");\n",
            AttributeKey::SelectionStrokeColor => ");\n",
            AttributeKey::SelectionStrokeWidth => ";\n",
            AttributeKey::NoninteractiveBgFill => ");\n",
            AttributeKey::NoninteractiveWeakBgFill => ");\n",
            AttributeKey::NoninteractiveBgStrokeColor => ");\n",
            AttributeKey::NoninteractiveBgStrokeWidth => ";\n",
            AttributeKey::NoninteractiveCornerRadius => ");\n",
            AttributeKey::NoninteractiveFgStrokeColor => ");\n",
            AttributeKey::NoninteractiveFgStrokeWidth => ";\n",
            AttributeKey::NoninteractiveExpansion => ";\n",
            AttributeKey::InactiveBgFill => ");\n",
            AttributeKey::InactiveWeakBgFill => ");\n",
            AttributeKey::InactiveBgStrokeColor => ");\n",
            AttributeKey::InactiveBgStrokeWidth => ";\n",
            AttributeKey::InactiveCornerRadius => ");\n",
            AttributeKey::InactiveFgStrokeColor => ");\n",
            AttributeKey::InactiveFgStrokeWidth => ";\n",
            AttributeKey::InactiveExpansion => ";\n",
            AttributeKey::HoveredBgFill => ");\n",
            AttributeKey::HoveredWeakBgFill => ");\n",
            AttributeKey::HoveredBgStrokeColor => ");\n",
            AttributeKey::HoveredBgStrokeWidth => ";\n",
            AttributeKey::HoveredCornerRadius => ");\n",
            AttributeKey::HoveredFgStrokeColor => ");\n",
            AttributeKey::HoveredFgStrokeWidth => ";\n",
            AttributeKey::HoveredExpansion => ";\n",
            AttributeKey::ActiveBgFill => ");\n",
            AttributeKey::ActiveWeakBgFill => ");\n",
            AttributeKey::ActiveBgStrokeColor => ");\n",
            AttributeKey::ActiveBgStrokeWidth => ";\n",
            AttributeKey::ActiveCornerRadius => ");\n",
            AttributeKey::ActiveFgStrokeColor => ");\n",
            AttributeKey::ActiveFgStrokeWidth => ";\n",
            AttributeKey::ActiveExpansion => ";\n",
            AttributeKey::OpenBgFill => ");\n",
            AttributeKey::OpenWeakBgFill => ");\n",
            AttributeKey::OpenBgStrokeColor => ");\n",
            AttributeKey::OpenBgStrokeWidth => ";\n",
            AttributeKey::OpenCornerRadius => ");\n",
            AttributeKey::OpenFgStrokeColor => ");\n",
            AttributeKey::OpenFgStrokeWidth => ";\n",
            AttributeKey::OpenExpansion => ";\n",
            AttributeKey::ResizeCornerSize => ";\n",
            AttributeKey::TextCursorWidth => ";\n",
            AttributeKey::ClipRectMargin => ";\n",
            AttributeKey::ButtonFrame => ";\n",
            AttributeKey::CollapsingHeaderFrame => ";\n",
            AttributeKey::IndentHasLeftVline => ";\n",
            AttributeKey::Striped => ";\n",
            AttributeKey::SliderTrailingFill => ";\n",
        }
    }
}

/// The snippet line for one key: target, value, closing text — or nothing
/// when the key is unset.
pub open spec fn attr_line(slot: Option<AttrValue>, k: AttributeKey) -> Seq<char> {
    match slot {
        Some(v) => key_snippet_prefix(k) + value_chars(v) + key_snippet_close(k),
        None => seq![],
    }
}

/// The snippet lines for the first `n` keys, in enumeration order.
pub open spec fn snippet_lines_upto(m: ConfigModel, n: int) -> Seq<char>
    decreases n,
{
    if n <= 0 {
        seq![]
    } else {
        snippet_lines_upto(m, n - 1) + attr_line(m.overrides[n - 1], key_at(n - 1))
    }
}

/// The whole snippet for an override set: a function that starts from the
/// right base style, then assigns every present key, in enumeration order.
pub open spec fn code_chars(m: ConfigModel) -> Seq<char> {
    "fn apply_theme(ctx: &egui::Context) {\n    let mut visuals = if "@ + (if m.dark_mode {
        "true"@
    } else {
        "false"@
    }) + " {\n        egui::Visuals::dark()\n    } else {\n        egui::Visuals::light()\n    };\n\n"@
        + snippet_lines_upto(m, KEY_COUNT as int) + "\n    ctx.set_visuals(visuals);\n}\n"@
}

/// Appends one decimal digit.
fn push_digit(out: &mut String, d: u32)
    requires
        d < 10,
    ensures
        final(out)@ == old(out)@ + seq![digit_char(d as nat)],
{
    proof {
        reveal_strlit("0");
        reveal_strlit("1");
        reveal_strlit("2");
        reveal_strlit("3");
        reveal_strlit("4");
        reveal_strlit("5");
        reveal_strlit("6");
        reveal_strlit("7");
        reveal_strlit("8");
        reveal_strlit("9");
    }
    let s: &str = if d == 0 {
        "0"
    } else if d == 1 {
        "1"
    } else if d == 2 {
        "2"
    } else if d == 3 {
        "3"
    } else if d == 4 {
        "4"
    } else if d == 5 {
        "5"
    } else if d == 6 {
        "6"
    } else if d == 7 {
        "7"
    } else if d == 8 {
        "8"
    } else {
        "9"
    };
    proof {
        assert(s@ =~= seq![digit_char(d as nat)]);
    }
    out.append(s);
}

/// Appends the decimal digits of `n`.
fn push_dec_chars(out: &mut String, n: u32)
    ensures
        final(out)@ == old(out)@ + dec_chars(n as nat),
    decreases n,
{
    if n >= 10 {
        push_dec_chars(out, n / 10);
    }
    push_digit(out, n % 10);
    proof {
        assert(out@ =~= old(out)@ + dec_chars(n as nat));
    }
}

/// Appends a width as a floating-point literal.
fn push_width_chars(out: &mut String, w: i32)
    ensures
        final(out)@ == old(out)@ + width_lit_chars(w as int),
{
    let mag: u32 = if w < 0 {
        out.append("-");
        (-(w as i64)) as u32
    } else {
        w as u32
    };
    push_dec_chars(out, mag / 1000);
    let frac = mag % 1000;
    if frac == 0 {
        out.append(".0");
    } else {
        out.append(".");
        push_digit(out, frac / 100);
        if frac % 10 != 0 {
            push_digit(out, (frac / 10) % 10);
            push_digit(out, frac % 10);
        } else if (frac / 10) % 10 != 0 {
            push_digit(out, (frac / 10) % 10);
        }
    }
    proof {
        assert(out@ =~= old(out)@ + width_lit_chars(w as int));
    }
}

/// Appends the rendering of one value.
fn push_value_chars(out: &mut String, v: &AttrValue)
    ensures
        final(out)@ == old(out)@ + value_chars(*v),
{
    match v {
        AttrValue::Color(c) => {
            push_dec_chars(out, c.r as u32);
            out.append(", ");
            push_dec_chars(out, c.g as u32);
            out.append(", ");
            push_dec_chars(out, c.b as u32);
            out.append(", ");
            push_dec_chars(out, c.a as u32);
            proof {
                assert(out@ =~= old(out)@ + value_chars(*v));
            }
        },
        AttrValue::Width(w) => {
            push_width_chars(out, *w);
        },
        AttrValue::Radius(x) => {
            push_dec_chars(out, *x as u32);
        },
        AttrValue::Flag(b) => {
            out.append(if *b {
                "true"
            } else {
                "false"
            });
        },
    }
}

impl ThemeConfig {
    /// Renders this set as a source snippet: construct the base for the
    /// mode flag, then assign every present key — colors, widths, radii
    /// and flags alike — in enumeration order, exactly once each.
    pub fn to_rust_code(&self) -> (code: String)
        requires
            self@.wf(),
        ensures
            code@ == code_chars(self@),
    {
        let mut out = String::new();
        out.append("fn apply_theme(ctx: &egui::Context) {\n    let mut visuals = if ");
        out.append(if self.dark_mode() {
            "true"
        } else {
            "false"
        });
        out.append(
            " {\n        egui::Visuals::dark()\n    } else {\n        egui::Visuals::light()\n    };\n\n",
        );
        let ghost header = out@;
        let mut i: usize = 0;
        while i < KEY_COUNT
            invariant
                self@.wf(),
                i <= KEY_COUNT,
                out@ == header + snippet_lines_upto(self@, i as int),
            decreases KEY_COUNT - i,
        {
            match self.get_at(i) {
                Some(v) => {
                    let key = AttributeKey::from_index(i);
                    out.append(key.snippet_prefix());
                    push_value_chars(&mut out, &v);
                    out.append(key.snippet_close());
                },
                None => {
                },
            }
            proof {
                assert(out@ =~= header + snippet_lines_upto(self@, i + 1));
            }
            i = i + 1;
        }
        out.append("\n    ctx.set_visuals(visuals);\n}\n");
        proof {
            assert(out@ =~= code_chars(self@));
        }
        out
    }
}

} // verus!
