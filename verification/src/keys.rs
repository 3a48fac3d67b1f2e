//! The closed enumeration of overridable style attributes.
//!
//! Every attribute has a fixed position in the enumeration, a value kind,
//! and the JSON field name under which it is persisted.

use vstd::prelude::*;

verus! {

/// Number of attributes in the enumeration.
pub const KEY_COUNT: usize = 66;

/// The kind of value an attribute carries.
#[derive(Clone, Copy, Debug, PartialEq, Eq, Structural)]
pub enum ValueKind {
    /// An RGBA color.
    Color,
    /// A non-integral size (stroke width, expansion, margin), in thousandths.
    Width,
    /// A small integral size (corner radius, shadow size).
    Radius,
    /// A boolean layout flag.
    Flag,
}

/// One overridable style attribute.
#[derive(Clone, Copy, Debug, PartialEq, Eq, Structural)]
pub enum AttributeKey {
    TextColor,
    WeakTextColor,
    HyperlinkColor,
    FaintBgColor,
    ExtremeBgColor,
    CodeBgColor,
    WarnFgColor,
    ErrorFgColor,
    WindowFill,
    WindowStrokeColor,
    WindowStrokeWidth,
    WindowCornerRadius,
    WindowShadowSize,
    PanelFill,
    PopupShadowSize,
    SelectionBg,
    SelectionStrokeColor,
    SelectionStrokeWidth,
    NoninteractiveBgFill,
    NoninteractiveWeakBgFill,
    NoninteractiveBgStrokeColor,
    NoninteractiveBgStrokeWidth,
    NoninteractiveCornerRadius,
    NoninteractiveFgStrokeColor,
    NoninteractiveFgStrokeWidth,
    NoninteractiveExpansion,
    InactiveBgFill,
    InactiveWeakBgFill,
    InactiveBgStrokeColor,
    InactiveBgStrokeWidth,
    InactiveCornerRadius,
    InactiveFgStrokeColor,
    InactiveFgStrokeWidth,
    InactiveExpansion,
    HoveredBgFill,
    HoveredWeakBgFill,
    HoveredBgStrokeColor,
    HoveredBgStrokeWidth,
    HoveredCornerRadius,
    HoveredFgStrokeColor,
    HoveredFgStrokeWidth,
    HoveredExpansion,
    ActiveBgFill,
    ActiveWeakBgFill,
    ActiveBgStrokeColor,
    ActiveBgStrokeWidth,
    ActiveCornerRadius,
    ActiveFgStrokeColor,
    ActiveFgStrokeWidth,
    ActiveExpansion,
    OpenBgFill,
    OpenWeakBgFill,
    OpenBgStrokeColor,
    OpenBgStrokeWidth,
    OpenCornerRadius,
    OpenFgStrokeColor,
    OpenFgStrokeWidth,
    OpenExpansion,
    ResizeCornerSize,
    TextCursorWidth,
    ClipRectMargin,
    ButtonFrame,
    CollapsingHeaderFrame,
    IndentHasLeftVline,
    Striped,
    SliderTrailingFill,
}

/// Position of a key in the fixed enumeration order.
pub open spec fn key_index(k: AttributeKey) -> int {
    match k {
        AttributeKey::TextColor => 0,
        AttributeKey::WeakTextColor => 1,
        AttributeKey::HyperlinkColor => 2,
        AttributeKey::FaintBgColor => 3,
        AttributeKey::ExtremeBgColor => 4,
        AttributeKey::CodeBgColor => 5,
        AttributeKey::WarnFgColor => 6,
        AttributeKey::ErrorFgColor => 7,
        AttributeKey::WindowFill => 8,
        AttributeKey::WindowStrokeColor => 9,
        AttributeKey::WindowStrokeWidth => 10,
        AttributeKey::WindowCornerRadius => 11,
        AttributeKey::WindowShadowSize => 12,
        AttributeKey::PanelFill => 13,
        AttributeKey::PopupShadowSize => 14,
        AttributeKey::SelectionBg => 15,
        AttributeKey::SelectionStrokeColor => 16,
        AttributeKey::SelectionStrokeWidth => 17,
        AttributeKey::NoninteractiveBgFill => 18,
        AttributeKey::NoninteractiveWeakBgFill => 19,
        AttributeKey::NoninteractiveBgStrokeColor => 20,
        AttributeKey::NoninteractiveBgStrokeWidth => 21,
        AttributeKey::NoninteractiveCornerRadius => 22,
        AttributeKey::NoninteractiveFgStrokeColor => 23,
        AttributeKey::NoninteractiveFgStrokeWidth => 24,
        AttributeKey::NoninteractiveExpansion => 25,
        AttributeKey::InactiveBgFill => 26,
        AttributeKey::InactiveWeakBgFill => 27,
        AttributeKey::InactiveBgStrokeColor => 28,
        AttributeKey::InactiveBgStrokeWidth => 29,
        AttributeKey::InactiveCornerRadius => 30,
        AttributeKey::InactiveFgStrokeColor => 31,
        AttributeKey::InactiveFgStrokeWidth => 32,
        AttributeKey::InactiveExpansion => 33,
        AttributeKey::HoveredBgFill => 34,
        AttributeKey::HoveredWeakBgFill => 35,
        AttributeKey::HoveredBgStrokeColor => 36,
        AttributeKey::HoveredBgStrokeWidth => 37,
        AttributeKey::HoveredCornerRadius => 38,
        AttributeKey::HoveredFgStrokeColor => 39,
        AttributeKey::HoveredFgStrokeWidth => 40,
        AttributeKey::HoveredExpansion => 41,
        AttributeKey::ActiveBgFill => 42,
        AttributeKey::ActiveWeakBgFill => 43,
        AttributeKey::ActiveBgStrokeColor => 44,
        AttributeKey::ActiveBgStrokeWidth => 45,
        AttributeKey::ActiveCornerRadius => 46,
        AttributeKey::ActiveFgStrokeColor => 47,
        AttributeKey::ActiveFgStrokeWidth => 48,
        AttributeKey::ActiveExpansion => 49,
        AttributeKey::OpenBgFill => 50,
        AttributeKey::OpenWeakBgFill => 51,
        AttributeKey::OpenBgStrokeColor => 52,
        AttributeKey::OpenBgStrokeWidth => 53,
        AttributeKey::OpenCornerRadius => 54,
        AttributeKey::OpenFgStrokeColor => 55,
        AttributeKey::OpenFgStrokeWidth => 56,
        AttributeKey::OpenExpansion => 57,
        AttributeKey::ResizeCornerSize => 58,
        AttributeKey::TextCursorWidth => 59,
        AttributeKey::ClipRectMargin => 60,
        AttributeKey::ButtonFrame => 61,
        AttributeKey::CollapsingHeaderFrame => 62,
        AttributeKey::IndentHasLeftVline => 63,
        AttributeKey::Striped => 64,
        AttributeKey::SliderTrailingFill => 65,
    }
}

/// The key at a given position of the enumeration order.
pub open spec fn key_at(i: int) -> AttributeKey {
    if i == 0 {
        AttributeKey::TextColor
    } else if i == 1 {
        AttributeKey::WeakTextColor
    } else if i == 2 {
        AttributeKey::HyperlinkColor
    } else if i == 3 {
        AttributeKey::FaintBgColor
    } else if i == 4 {
        AttributeKey::ExtremeBgColor
    } else if i == 5 {
        AttributeKey::CodeBgColor
    } else if i == 6 {
        AttributeKey::WarnFgColor
    } else if i == 7 {
        AttributeKey::ErrorFgColor
    } else if i == 8 {
        AttributeKey::WindowFill
    } else if i == 9 {
        AttributeKey::WindowStrokeColor
    } else if i == 10 {
        AttributeKey::WindowStrokeWidth
    } else if i == 11 {
        AttributeKey::WindowCornerRadius
    } else if i == 12 {
        AttributeKey::WindowShadowSize
    } else if i == 13 {
        AttributeKey::PanelFill
    } else if i == 14 {
        AttributeKey::PopupShadowSize
    } else if i == 15 {
        AttributeKey::SelectionBg
    } else if i == 16 {
        AttributeKey::SelectionStrokeColor
    } else if i == 17 {
        AttributeKey::SelectionStrokeWidth
    } else if i == 18 {
        AttributeKey::NoninteractiveBgFill
    } else if i == 19 {
        AttributeKey::NoninteractiveWeakBgFill
    } else if i == 20 {
        AttributeKey::NoninteractiveBgStrokeColor
    } else if i == 21 {
        AttributeKey::NoninteractiveBgStrokeWidth
    } else if i == 22 {
        AttributeKey::NoninteractiveCornerRadius
    } else if i == 23 {
        AttributeKey::NoninteractiveFgStrokeColor
    } else if i == 24 {
        AttributeKey::NoninteractiveFgStrokeWidth
    } else if i == 25 {
        AttributeKey::NoninteractiveExpansion
    } else if i == 26 {
        AttributeKey::InactiveBgFill
    } else if i == 27 {
        AttributeKey::InactiveWeakBgFill
    } else if i == 28 {
        AttributeKey::InactiveBgStrokeColor
    } else if i == 29 {
        AttributeKey::InactiveBgStrokeWidth
    } else if i == 30 {
        AttributeKey::InactiveCornerRadius
    } else if i == 31 {
        AttributeKey::InactiveFgStrokeColor
    } else if i == 32 {
        AttributeKey::InactiveFgStrokeWidth
    } else if i == 33 {
        AttributeKey::InactiveExpansion
    } else if i == 34 {
        AttributeKey::HoveredBgFill
    } else if i == 35 {
        AttributeKey::HoveredWeakBgFill
    } else if i == 36 {
        AttributeKey::HoveredBgStrokeColor
    } else if i == 37 {
        AttributeKey::HoveredBgStrokeWidth
    } else if i == 38 {
        AttributeKey::HoveredCornerRadius
    } else if i == 39 {
        AttributeKey::HoveredFgStrokeColor
    } else if i == 40 {
        AttributeKey::HoveredFgStrokeWidth
    } else if i == 41 {
        AttributeKey::HoveredExpansion
    } else if i == 42 {
        AttributeKey::ActiveBgFill
    } else if i == 43 {
        AttributeKey::ActiveWeakBgFill
    } else if i == 44 {
        AttributeKey::ActiveBgStrokeColor
    } else if i == 45 {
        AttributeKey::ActiveBgStrokeWidth
    } else if i == 46 {
        AttributeKey::ActiveCornerRadius
    } else if i == 47 {
        AttributeKey::ActiveFgStrokeColor
    } else if i == 48 {
        AttributeKey::ActiveFgStrokeWidth
    } else if i == 49 {
        AttributeKey::ActiveExpansion
    } else if i == 50 {
        AttributeKey::OpenBgFill
    } else if i == 51 {
        AttributeKey::OpenWeakBgFill
    } else if i == 52 {
        AttributeKey::OpenBgStrokeColor
    } else if i == 53 {
        AttributeKey::OpenBgStrokeWidth
    } else if i == 54 {
        AttributeKey::OpenCornerRadius
    } else if i == 55 {
        AttributeKey::OpenFgStrokeColor
    } else if i == 56 {
        AttributeKey::OpenFgStrokeWidth
    } else if i == 57 {
        AttributeKey::OpenExpansion
    } else if i == 58 {
        AttributeKey::ResizeCornerSize
    } else if i == 59 {
        AttributeKey::TextCursorWidth
    } else if i == 60 {
        AttributeKey::ClipRectMargin
    } else if i == 61 {
        AttributeKey::ButtonFrame
    } else if i == 62 {
        AttributeKey::CollapsingHeaderFrame
    } else if i == 63 {
        AttributeKey::IndentHasLeftVline
    } else if i == 64 {
        AttributeKey::Striped
    } else if i == 65 {
        AttributeKey::SliderTrailingFill
    } else {
        AttributeKey::SliderTrailingFill
    }
}

/// The kind of value each attribute carries.
pub open spec fn key_kind(k: AttributeKey) -> ValueKind {
    match k {
        AttributeKey::TextColor => ValueKind::Color,
        AttributeKey::WeakTextColor => ValueKind::Color,
        AttributeKey::HyperlinkColor => ValueKind::Color,
        AttributeKey::FaintBgColor => ValueKind::Color,
        AttributeKey::ExtremeBgColor => ValueKind::Color,
        AttributeKey::CodeBgColor => ValueKind::Color,
        AttributeKey::WarnFgColor => ValueKind::Color,
        AttributeKey::ErrorFgColor => ValueKind::Color,
        AttributeKey::WindowFill => ValueKind::Color,
        AttributeKey::WindowStrokeColor => ValueKind::Color,
        AttributeKey::WindowStrokeWidth => ValueKind::Width,
        AttributeKey::WindowCornerRadius => ValueKind::Radius,
        AttributeKey::WindowShadowSize => ValueKind::Radius,
        AttributeKey::PanelFill => ValueKind::Color,
        AttributeKey::PopupShadowSize => ValueKind::Radius,
        AttributeKey::SelectionBg => ValueKind::Color,
        AttributeKey::SelectionStrokeColor => ValueKind::Color,
        AttributeKey::SelectionStrokeWidth => ValueKind::Width,
        AttributeKey::NoninteractiveBgFill => ValueKind::Color,
        AttributeKey::NoninteractiveWeakBgFill => ValueKind::Color,
        AttributeKey::NoninteractiveBgStrokeColor => ValueKind::Color,
        AttributeKey::NoninteractiveBgStrokeWidth => ValueKind::Width,
        AttributeKey::NoninteractiveCornerRadius => ValueKind::Radius,
        AttributeKey::NoninteractiveFgStrokeColor => ValueKind::Color,
        AttributeKey::NoninteractiveFgStrokeWidth => ValueKind::Width,
        AttributeKey::NoninteractiveExpansion => ValueKind::Width,
        AttributeKey::InactiveBgFill => ValueKind::Color,
        AttributeKey::InactiveWeakBgFill => ValueKind::Color,
        AttributeKey::InactiveBgStrokeColor => ValueKind::Color,
        AttributeKey::InactiveBgStrokeWidth => ValueKind::Width,
        AttributeKey::InactiveCornerRadius => ValueKind::Radius,
        AttributeKey::InactiveFgStrokeColor => ValueKind::Color,
        AttributeKey::InactiveFgStrokeWidth => ValueKind::Width,
        AttributeKey::InactiveExpansion => ValueKind::Width,
        AttributeKey::HoveredBgFill => ValueKind::Color,
        AttributeKey::HoveredWeakBgFill => ValueKind::Color,
        AttributeKey::HoveredBgStrokeColor => ValueKind::Color,
        AttributeKey::HoveredBgStrokeWidth => ValueKind::Width,
        AttributeKey::HoveredCornerRadius => ValueKind::Radius,
        AttributeKey::HoveredFgStrokeColor => ValueKind::Color,
        AttributeKey::HoveredFgStrokeWidth => ValueKind::Width,
        AttributeKey::HoveredExpansion => ValueKind::Width,
        AttributeKey::ActiveBgFill => ValueKind::Color,
        AttributeKey::ActiveWeakBgFill => ValueKind::Color,
        AttributeKey::ActiveBgStrokeColor => ValueKind::Color,
        AttributeKey::ActiveBgStrokeWidth => ValueKind::Width,
        AttributeKey::ActiveCornerRadius => ValueKind::Radius,
        AttributeKey::ActiveFgStrokeColor => ValueKind::Color,
        AttributeKey::ActiveFgStrokeWidth => ValueKind::Width,
        AttributeKey::ActiveExpansion => ValueKind::Width,
        AttributeKey::OpenBgFill => ValueKind::Color,
        AttributeKey::OpenWeakBgFill => ValueKind::Color,
        AttributeKey::OpenBgStrokeColor => ValueKind::Color,
        AttributeKey::OpenBgStrokeWidth => ValueKind::Width,
        AttributeKey::OpenCornerRadius => ValueKind::Radius,
        AttributeKey::OpenFgStrokeColor => ValueKind::Color,
        AttributeKey::OpenFgStrokeWidth => ValueKind::Width,
        AttributeKey::OpenExpansion => ValueKind::Width,
        AttributeKey::ResizeCornerSize => ValueKind::Width,
        AttributeKey::TextCursorWidth => ValueKind::Width,
        AttributeKey::ClipRectMargin => ValueKind::Width,
        AttributeKey::ButtonFrame => ValueKind::Flag,
        AttributeKey::CollapsingHeaderFrame => ValueKind::Flag,
        AttributeKey::IndentHasLeftVline => ValueKind::Flag,
        AttributeKey::Striped => ValueKind::Flag,
        AttributeKey::SliderTrailingFill => ValueKind::Flag,
    }
}

/// The JSON field name under which an attribute is persisted.
pub open spec fn key_name(k: AttributeKey) -> Seq<char> {
    match k {
        AttributeKey::TextColor => "override_text_color"@,
        AttributeKey::WeakTextColor => "override_weak_text_color"@,
        AttributeKey::HyperlinkColor => "override_hyperlink_color"@,
        AttributeKey::FaintBgColor => "override_faint_bg_color"@,
        AttributeKey::ExtremeBgColor => "override_extreme_bg_color"@,
        AttributeKey::CodeBgColor => "override_code_bg_color"@,
        AttributeKey::WarnFgColor => "override_warn_fg_color"@,
        AttributeKey::ErrorFgColor => "override_error_fg_color"@,
        AttributeKey::WindowFill => "override_window_fill"@,
        AttributeKey::WindowStrokeColor => "override_window_stroke_color"@,
        AttributeKey::WindowStrokeWidth => "override_window_stroke_width"@,
        AttributeKey::WindowCornerRadius => "override_window_corner_radius"@,
        AttributeKey::WindowShadowSize => "override_window_shadow_size"@,
        AttributeKey::PanelFill => "override_panel_fill"@,
        AttributeKey::PopupShadowSize => "override_popup_shadow_size"@,
        AttributeKey::SelectionBg => "override_selection_bg"@,
        AttributeKey::SelectionStrokeColor => "override_selection_stroke_color"@,
        AttributeKey::SelectionStrokeWidth => "override_selection_stroke_width"@,
        AttributeKey::NoninteractiveBgFill => "override_widget_noninteractive_bg_fill"@,
        AttributeKey::NoninteractiveWeakBgFill => "override_widget_noninteractive_weak_bg_fill"@,
        AttributeKey::NoninteractiveBgStrokeColor => "override_widget_noninteractive_bg_stroke_color"@,
        AttributeKey::NoninteractiveBgStrokeWidth => "override_widget_noninteractive_bg_stroke_width"@,
        AttributeKey::NoninteractiveCornerRadius => "override_widget_noninteractive_corner_radius"@,
        AttributeKey::NoninteractiveFgStrokeColor => "override_widget_noninteractive_fg_stroke_color"@,
        AttributeKey::NoninteractiveFgStrokeWidth => "override_widget_noninteractive_fg_stroke_width"@,
        AttributeKey::NoninteractiveExpansion => "override_widget_noninteractive_expansion"@,
        AttributeKey::InactiveBgFill => "override_widget_inactive_bg_fill"@,
        AttributeKey::InactiveWeakBgFill => "override_widget_inactive_weak_bg_fill"@,
        AttributeKey::InactiveBgStrokeColor => "override_widget_inactive_bg_stroke_color"@,
        AttributeKey::InactiveBgStrokeWidth => "override_widget_inactive_bg_stroke_width"@,
        AttributeKey::InactiveCornerRadius => "override_widget_inactive_corner_radius"@,
        AttributeKey::InactiveFgStrokeColor => "override_widget_inactive_fg_stroke_color"@,
        AttributeKey::InactiveFgStrokeWidth => "override_widget_inactive_fg_stroke_width"@,
        AttributeKey::InactiveExpansion => "override_widget_inactive_expansion"@,
        AttributeKey::HoveredBgFill => "override_widget_hovered_bg_fill"@,
        AttributeKey::HoveredWeakBgFill => "override_widget_hovered_weak_bg_fill"@,
        AttributeKey::HoveredBgStrokeColor => "override_widget_hovered_bg_stroke_color"@,
        AttributeKey::HoveredBgStrokeWidth => "override_widget_hovered_bg_stroke_width"@,
        AttributeKey::HoveredCornerRadius => "override_widget_hovered_corner_radius"@,
        AttributeKey::HoveredFgStrokeColor => "override_widget_hovered_fg_stroke_color"@,
        AttributeKey::HoveredFgStrokeWidth => "override_widget_hovered_fg_stroke_width"@,
        AttributeKey::HoveredExpansion => "override_widget_hovered_expansion"@,
        AttributeKey::ActiveBgFill => "override_widget_active_bg_fill"@,
        AttributeKey::ActiveWeakBgFill => "override_widget_active_weak_bg_fill"@,
        AttributeKey::ActiveBgStrokeColor => "override_widget_active_bg_stroke_color"@,
        AttributeKey::ActiveBgStrokeWidth => "override_widget_active_bg_stroke_width"@,
        AttributeKey::ActiveCornerRadius => "override_widget_active_corner_radius"@,
        AttributeKey::ActiveFgStrokeColor => "override_widget_active_fg_stroke_color"@,
        AttributeKey::ActiveFgStrokeWidth => "override_widget_active_fg_stroke_width"@,
        AttributeKey::ActiveExpansion => "override_widget_active_expansion"@,
        AttributeKey::OpenBgFill => "override_widget_open_bg_fill"@,
        AttributeKey::OpenWeakBgFill => "override_widget_open_weak_bg_fill"@,
        AttributeKey::OpenBgStrokeColor => "override_widget_open_bg_stroke_color"@,
        AttributeKey::OpenBgStrokeWidth => "override_widget_open_bg_stroke_width"@,
        AttributeKey::OpenCornerRadius => "override_widget_open_corner_radius"@,
        AttributeKey::OpenFgStrokeColor => "override_widget_open_fg_stroke_color"@,
        AttributeKey::OpenFgStrokeWidth => "override_widget_open_fg_stroke_width"@,
        AttributeKey::OpenExpansion => "override_widget_open_expansion"@,
        AttributeKey::ResizeCornerSize => "override_resize_corner_size"@,
        AttributeKey::TextCursorWidth => "override_text_cursor_width"@,
        AttributeKey::ClipRectMargin => "override_clip_rect_margin"@,
        AttributeKey::ButtonFrame => "override_button_frame"@,
        AttributeKey::CollapsingHeaderFrame => "override_collapsing_header_frame"@,
        AttributeKey::IndentHasLeftVline => "override_indent_has_left_vline"@,
        AttributeKey::Striped => "override_striped"@,
        AttributeKey::SliderTrailingFill => "override_slider_trailing_fill"@,
    }
}

impl AttributeKey {
    /// Position of this key in the fixed enumeration order.
    pub fn index(self) -> (i: usize)
        ensures
            i == key_index(self),
    {
        match self {
            AttributeKey::TextColor => 0,
            AttributeKey::WeakTextColor => 1,
            AttributeKey::HyperlinkColor => 2,
            AttributeKey::FaintBgColor => 3,
            AttributeKey::ExtremeBgColor => 4,
            AttributeKey::CodeBgColor => 5,
            AttributeKey::WarnFgColor => 6,
            AttributeKey::ErrorFgColor => 7,
            AttributeKey::WindowFill => 8,
            AttributeKey::WindowStrokeColor => 9,
            AttributeKey::WindowStrokeWidth => 10,
            AttributeKey::WindowCornerRadius => 11,
            AttributeKey::WindowShadowSize => 12,
            AttributeKey::PanelFill => 13,
            AttributeKey::PopupShadowSize => 14,
            AttributeKey::SelectionBg => 15,
            AttributeKey::SelectionStrokeColor => 16,
            AttributeKey::SelectionStrokeWidth => 17,
            AttributeKey::NoninteractiveBgFill => 18,
            AttributeKey::NoninteractiveWeakBgFill => 19,
            AttributeKey::NoninteractiveBgStrokeColor => 20,
            AttributeKey::NoninteractiveBgStrokeWidth => 21,
            AttributeKey::NoninteractiveCornerRadius => 22,
            AttributeKey::NoninteractiveFgStrokeColor => 23,
            AttributeKey::NoninteractiveFgStrokeWidth => 24,
            AttributeKey::NoninteractiveExpansion => 25,
            AttributeKey::InactiveBgFill => 26,
            AttributeKey::InactiveWeakBgFill => 27,
            AttributeKey::InactiveBgStrokeColor => 28,
            AttributeKey::InactiveBgStrokeWidth => 29,
            AttributeKey::InactiveCornerRadius => 30,
            AttributeKey::InactiveFgStrokeColor => 31,
            AttributeKey::InactiveFgStrokeWidth => 32,
            AttributeKey::InactiveExpansion => 33,
            AttributeKey::HoveredBgFill => 34,
            AttributeKey::HoveredWeakBgFill => 35,
            AttributeKey::HoveredBgStrokeColor => 36,
            AttributeKey::HoveredBgStrokeWidth => 37,
            AttributeKey::HoveredCornerRadius => 38,
            AttributeKey::HoveredFgStrokeColor => 39,
            AttributeKey::HoveredFgStrokeWidth => 40,
            AttributeKey::HoveredExpansion => 41,
            AttributeKey::ActiveBgFill => 42,
            AttributeKey::ActiveWeakBgFill => 43,
            AttributeKey::ActiveBgStrokeColor => 44,
            AttributeKey::ActiveBgStrokeWidth => 45,
            AttributeKey::ActiveCornerRadius => 46,
            AttributeKey::ActiveFgStrokeColor => 47,
            AttributeKey::ActiveFgStrokeWidth => 48,
            AttributeKey::ActiveExpansion => 49,
            AttributeKey::OpenBgFill => 50,
            AttributeKey::OpenWeakBgFill => 51,
            AttributeKey::OpenBgStrokeColor => 52,
            AttributeKey::OpenBgStrokeWidth => 53,
            AttributeKey::OpenCornerRadius => 54,
            AttributeKey::OpenFgStrokeColor => 55,
            AttributeKey::OpenFgStrokeWidth => 56,
            AttributeKey::OpenExpansion => 57,
            AttributeKey::ResizeCornerSize => 58,
            AttributeKey::TextCursorWidth => 59,
            AttributeKey::ClipRectMargin => 60,
            AttributeKey::ButtonFrame => 61,
            AttributeKey::CollapsingHeaderFrame => 62,
            AttributeKey::IndentHasLeftVline => 63,
            AttributeKey::Striped => 64,
            AttributeKey::SliderTrailingFill => 65,
        }
    }

    /// The kind of value this key carries.
    pub fn kind(self) -> (v: ValueKind)
        ensures
            v == key_kind(self),
    {
        match self {
            AttributeKey::TextColor => ValueKind::Color,
            AttributeKey::WeakTextColor => ValueKind::Color,
            AttributeKey::HyperlinkColor => ValueKind::Color,
            AttributeKey::FaintBgColor => ValueKind::Color,
            AttributeKey::ExtremeBgColor => ValueKind::Color,
            AttributeKey::CodeBgColor => ValueKind::Color,
            AttributeKey::WarnFgColor => ValueKind::Color,
            AttributeKey::ErrorFgColor => ValueKind::Color,
            AttributeKey::WindowFill => ValueKind::Color,
            AttributeKey::WindowStrokeColor => ValueKind::Color,
            AttributeKey::WindowStrokeWidth => ValueKind::Width,
            AttributeKey::WindowCornerRadius => ValueKind::Radius,
            AttributeKey::WindowShadowSize => ValueKind::Radius,
            AttributeKey::PanelFill => ValueKind::Color,
            AttributeKey::PopupShadowSize => ValueKind::Radius,
            AttributeKey::SelectionBg => ValueKind::Color,
            AttributeKey::SelectionStrokeColor => ValueKind::Color,
            AttributeKey::SelectionStrokeWidth => ValueKind::Width,
            AttributeKey::NoninteractiveBgFill => ValueKind::Color,
            AttributeKey::NoninteractiveWeakBgFill => ValueKind::Color,
            AttributeKey::NoninteractiveBgStrokeColor => ValueKind::Color,
            AttributeKey::NoninteractiveBgStrokeWidth => ValueKind::Width,
            AttributeKey::NoninteractiveCornerRadius => ValueKind::Radius,
            AttributeKey::NoninteractiveFgStrokeColor => ValueKind::Color,
            AttributeKey::NoninteractiveFgStrokeWidth => ValueKind::Width,
            AttributeKey::NoninteractiveExpansion => ValueKind::Width,
            AttributeKey::InactiveBgFill => ValueKind::Color,
            AttributeKey::InactiveWeakBgFill => ValueKind::Color,
            AttributeKey::InactiveBgStrokeColor => ValueKind::Color,
            AttributeKey::InactiveBgStrokeWidth => ValueKind::Width,
            AttributeKey::InactiveCornerRadius => ValueKind::Radius,
            AttributeKey::InactiveFgStrokeColor => ValueKind::Color,
            AttributeKey::InactiveFgStrokeWidth => ValueKind::Width,
            AttributeKey::InactiveExpansion => ValueKind::Width,
            AttributeKey::HoveredBgFill => ValueKind::Color,
            AttributeKey::HoveredWeakBgFill => ValueKind::Color,
            AttributeKey::HoveredBgStrokeColor => ValueKind::Color,
            AttributeKey::HoveredBgStrokeWidth => ValueKind::Width,
            AttributeKey::HoveredCornerRadius => ValueKind::Radius,
            AttributeKey::HoveredFgStrokeColor => ValueKind::Color,
            AttributeKey::HoveredFgStrokeWidth => ValueKind::Width,
            AttributeKey::HoveredExpansion => ValueKind::Width,
            AttributeKey::ActiveBgFill => ValueKind::Color,
            AttributeKey::ActiveWeakBgFill => ValueKind::Color,
            AttributeKey::ActiveBgStrokeColor => ValueKind::Color,
            AttributeKey::ActiveBgStrokeWidth => ValueKind::Width,
            AttributeKey::ActiveCornerRadius => ValueKind::Radius,
            AttributeKey::ActiveFgStrokeColor => ValueKind::Color,
            AttributeKey::ActiveFgStrokeWidth => ValueKind::Width,
            AttributeKey::ActiveExpansion => ValueKind::Width,
            AttributeKey::OpenBgFill => ValueKind::Color,
            AttributeKey::OpenWeakBgFill => ValueKind::Color,
            AttributeKey::OpenBgStrokeColor => ValueKind::Color,
            AttributeKey::OpenBgStrokeWidth => ValueKind::Width,
            AttributeKey::OpenCornerRadius => ValueKind::Radius,
            AttributeKey::OpenFgStrokeColor => ValueKind::Color,
            AttributeKey::OpenFgStrokeWidth => ValueKind::Width,
            AttributeKey::OpenExpansion => ValueKind::Width,
            AttributeKey::ResizeCornerSize => ValueKind::Width,
            AttributeKey::TextCursorWidth => ValueKind::Width,
            AttributeKey::ClipRectMargin => ValueKind::Width,
            AttributeKey::ButtonFrame => ValueKind::Flag,
            AttributeKey::CollapsingHeaderFrame => ValueKind::Flag,
            AttributeKey::IndentHasLeftVline => ValueKind::Flag,
            AttributeKey::Striped => ValueKind::Flag,
            AttributeKey::SliderTrailingFill => ValueKind::Flag,
        }
    }

    /// The key at a given position of the enumeration order.
    pub fn from_index(i: usize) -> (k: AttributeKey)
        requires
            i < KEY_COUNT,
        ensures
            k == key_at(i as int),
    {
        if i == 0 {
            AttributeKey::TextColor
        } else if i == 1 {
            AttributeKey::WeakTextColor
        } else if i == 2 {
            AttributeKey::HyperlinkColor
        } else if i == 3 {
            AttributeKey::FaintBgColor
        } else if i == 4 {
            AttributeKey::ExtremeBgColor
        } else if i == 5 {
            AttributeKey::CodeBgColor
        } else if i == 6 {
            AttributeKey::WarnFgColor
        } else if i == 7 {
            AttributeKey::ErrorFgColor
        } else if i == 8 {
            AttributeKey::WindowFill
        } else if i == 9 {
            AttributeKey::WindowStrokeColor
        } else if i == 10 {
            AttributeKey::WindowStrokeWidth
        } else if i == 11 {
            AttributeKey::WindowCornerRadius
        } else if i == 12 {
            AttributeKey::WindowShadowSize
        } else if i == 13 {
            AttributeKey::PanelFill
        } else if i == 14 {
            AttributeKey::PopupShadowSize
        } else if i == 15 {
            AttributeKey::SelectionBg
        } else if i == 16 {
            AttributeKey::SelectionStrokeColor
        } else if i == 17 {
            AttributeKey::SelectionStrokeWidth
        } else if i == 18 {
            AttributeKey::NoninteractiveBgFill
        } else if i == 19 {
            AttributeKey::NoninteractiveWeakBgFill
        } else if i == 20 {
            AttributeKey::NoninteractiveBgStrokeColor
        } else if i == 21 {
            AttributeKey::NoninteractiveBgStrokeWidth
        } else if i == 22 {
            AttributeKey::NoninteractiveCornerRadius
        } else if i == 23 {
            AttributeKey::NoninteractiveFgStrokeColor
        } else if i == 24 {
            AttributeKey::NoninteractiveFgStrokeWidth
        } else if i == 25 {
            AttributeKey::NoninteractiveExpansion
        } else if i == 26 {
            AttributeKey::InactiveBgFill
        } else if i == 27 {
            AttributeKey::InactiveWeakBgFill
        } else if i == 28 {
            AttributeKey::InactiveBgStrokeColor
        } else if i == 29 {
            AttributeKey::InactiveBgStrokeWidth
        } else if i == 30 {
            AttributeKey::InactiveCornerRadius
        } else if i == 31 {
            AttributeKey::InactiveFgStrokeColor
        } else if i == 32 {
            AttributeKey::InactiveFgStrokeWidth
        } else if i == 33 {
            AttributeKey::InactiveExpansion
        } else if i == 34 {
            AttributeKey::HoveredBgFill
        } else if i == 35 {
            AttributeKey::HoveredWeakBgFill
        } else if i == 36 {
            AttributeKey::HoveredBgStrokeColor
        } else if i == 37 {
            AttributeKey::HoveredBgStrokeWidth
        } else if i == 38 {
            AttributeKey::HoveredCornerRadius
        } else if i == 39 {
            AttributeKey::HoveredFgStrokeColor
        } else if i == 40 {
            AttributeKey::HoveredFgStrokeWidth
        } else if i == 41 {
            AttributeKey::HoveredExpansion
        } else if i == 42 {
            AttributeKey::ActiveBgFill
        } else if i == 43 {
            AttributeKey::ActiveWeakBgFill
        } else if i == 44 {
            AttributeKey::ActiveBgStrokeColor
        } else if i == 45 {
            AttributeKey::ActiveBgStrokeWidth
        } else if i == 46 {
            AttributeKey::ActiveCornerRadius
        } else if i == 47 {
            AttributeKey::ActiveFgStrokeColor
        } else if i == 48 {
            AttributeKey::ActiveFgStrokeWidth
        } else if i == 49 {
            AttributeKey::ActiveExpansion
        } else if i == 50 {
            AttributeKey::OpenBgFill
        } else if i == 51 {
            AttributeKey::OpenWeakBgFill
        } else if i == 52 {
            AttributeKey::OpenBgStrokeColor
        } else if i == 53 {
            AttributeKey::OpenBgStrokeWidth
        } else if i == 54 {
            AttributeKey::OpenCornerRadius
        } else if i == 55 {
            AttributeKey::OpenFgStrokeColor
        } else if i == 56 {
            AttributeKey::OpenFgStrokeWidth
        } else if i == 57 {
            AttributeKey::OpenExpansion
        } else if i == 58 {
            AttributeKey::ResizeCornerSize
        } else if i == 59 {
            AttributeKey::TextCursorWidth
        } else if i == 60 {
            AttributeKey::ClipRectMargin
        } else if i == 61 {
            AttributeKey::ButtonFrame
        } else if i == 62 {
            AttributeKey::CollapsingHeaderFrame
        } else if i == 63 {
            AttributeKey::IndentHasLeftVline
        } else if i == 64 {
            AttributeKey::Striped
        } else if i == 65 {
            AttributeKey::SliderTrailingFill
        } else {
            AttributeKey::SliderTrailingFill
        }
    }

    /// The JSON field name under which this key is persisted.
    pub fn json_name(self) -> (s: &'static str)
        ensures
            s@ == key_name(self),
    {
        match self {
            AttributeKey::TextColor => "override_text_color",
            AttributeKey::WeakTextColor => "override_weak_text_color",
            AttributeKey::HyperlinkColor => "override_hyperlink_color",
            AttributeKey::FaintBgColor => "override_faint_bg_color",
            AttributeKey::ExtremeBgColor => "override_extreme_bg_color",
            AttributeKey::CodeBgColor => "override_code_bg_color",
            AttributeKey::WarnFgColor => "override_warn_fg_color",
            AttributeKey::ErrorFgColor => "override_error_fg_color",
            AttributeKey::WindowFill => "override_window_fill",
            AttributeKey::WindowStrokeColor => "override_window_stroke_color",
            AttributeKey::WindowStrokeWidth => "override_window_stroke_width",
            AttributeKey::WindowCornerRadius => "override_window_corner_radius",
            AttributeKey::WindowShadowSize => "override_window_shadow_size",
            AttributeKey::PanelFill => "override_panel_fill",
            AttributeKey::PopupShadowSize => "override_popup_shadow_size",
            AttributeKey::SelectionBg => "override_selection_bg",
            AttributeKey::SelectionStrokeColor => "override_selection_stroke_color",
            AttributeKey::SelectionStrokeWidth => "override_selection_stroke_width",
            AttributeKey::NoninteractiveBgFill => "override_widget_noninteractive_bg_fill",
            AttributeKey::NoninteractiveWeakBgFill => "override_widget_noninteractive_weak_bg_fill",
            AttributeKey::NoninteractiveBgStrokeColor => "override_widget_noninteractive_bg_stroke_color",
            AttributeKey::NoninteractiveBgStrokeWidth => "override_widget_noninteractive_bg_stroke_width",
            AttributeKey::NoninteractiveCornerRadius => "override_widget_noninteractive_corner_radius",
            AttributeKey::NoninteractiveFgStrokeColor => "override_widget_noninteractive_fg_stroke_color",
            AttributeKey::NoninteractiveFgStrokeWidth => "override_widget_noninteractive_fg_stroke_width",
            AttributeKey::NoninteractiveExpansion => "override_widget_noninteractive_expansion",
            AttributeKey::InactiveBgFill => "override_widget_inactive_bg_fill",
            AttributeKey::InactiveWeakBgFill => "override_widget_inactive_weak_bg_fill",
            AttributeKey::InactiveBgStrokeColor => "override_widget_inactive_bg_stroke_color",
            AttributeKey::InactiveBgStrokeWidth => "override_widget_inactive_bg_stroke_width",
            AttributeKey::InactiveCornerRadius => "override_widget_inactive_corner_radius",
            AttributeKey::InactiveFgStrokeColor => "override_widget_inactive_fg_stroke_color",
            AttributeKey::InactiveFgStrokeWidth => "override_widget_inactive_fg_stroke_width",
            AttributeKey::InactiveExpansion => "override_widget_inactive_expansion",
            AttributeKey::HoveredBgFill => "override_widget_hovered_bg_fill",
            AttributeKey::HoveredWeakBgFill => "override_widget_hovered_weak_bg_fill",
            AttributeKey::HoveredBgStrokeColor => "override_widget_hovered_bg_stroke_color",
            AttributeKey::HoveredBgStrokeWidth => "override_widget_hovered_bg_stroke_width",
            AttributeKey::HoveredCornerRadius => "override_widget_hovered_corner_radius",
            AttributeKey::HoveredFgStrokeColor => "override_widget_hovered_fg_stroke_color",
            AttributeKey::HoveredFgStrokeWidth => "override_widget_hovered_fg_stroke_width",
            AttributeKey::HoveredExpansion => "override_widget_hovered_expansion",
            AttributeKey::ActiveBgFill => "override_widget_active_bg_fill",
            AttributeKey::ActiveWeakBgFill => "override_widget_active_weak_bg_fill",
            AttributeKey::ActiveBgStrokeColor => "override_widget_active_bg_stroke_color",
            AttributeKey::ActiveBgStrokeWidth => "override_widget_active_bg_stroke_width",
            AttributeKey::ActiveCornerRadius => "override_widget_active_corner_radius",
            AttributeKey::ActiveFgStrokeColor => "override_widget_active_fg_stroke_color",
            AttributeKey::ActiveFgStrokeWidth => "override_widget_active_fg_stroke_width",
            AttributeKey::ActiveExpansion => "override_widget_active_expansion",
            AttributeKey::OpenBgFill => "override_widget_open_bg_fill",
            AttributeKey::OpenWeakBgFill => "override_widget_open_weak_bg_fill",
            AttributeKey::OpenBgStrokeColor => "override_widget_open_bg_stroke_color",
            AttributeKey::OpenBgStrokeWidth => "override_widget_open_bg_stroke_width",
            AttributeKey::OpenCornerRadius => "override_widget_open_corner_radius",
            AttributeKey::OpenFgStrokeColor => "override_widget_open_fg_stroke_color",
            AttributeKey::OpenFgStrokeWidth => "override_widget_open_fg_stroke_width",
            AttributeKey::OpenExpansion => "override_widget_open_expansion",
            AttributeKey::ResizeCornerSize => "override_resize_corner_size",
            AttributeKey::TextCursorWidth => "override_text_cursor_width",
            AttributeKey::ClipRectMargin => "override_clip_rect_margin",
            AttributeKey::ButtonFrame => "override_button_frame",
            AttributeKey::CollapsingHeaderFrame => "override_collapsing_header_frame",
            AttributeKey::IndentHasLeftVline => "override_indent_has_left_vline",
            AttributeKey::Striped => "override_striped",
            AttributeKey::SliderTrailingFill => "override_slider_trailing_fill",
        }
    }
}

/// `key_at` and `key_index` are mutually inverse over the enumeration.
pub proof fn lemma_key_order()
    ensures
        forall|k: AttributeKey| 0 <= #[trigger] key_index(k) < KEY_COUNT,
        forall|k: AttributeKey| key_at(#[trigger] key_index(k)) == k,
        forall|i: int| 0 <= i < KEY_COUNT ==> #[trigger] key_index(key_at(i)) == i,
{
}


/// The character of `s` at distance `p` from the end, or NUL when `s` is shorter.
pub open spec fn tail_char(s: Seq<char>, p: int) -> char {
    if s.len() >= p {
        s[s.len() - p]
    } else {
        '\0'
    }
}

/// A short fingerprint of a field name: its length and three characters
/// counted from the end. The persisted field names all differ in it.
pub open spec fn name_tag(s: Seq<char>) -> (int, char, char, char) {
    (s.len() as int, tail_char(s, 1), tail_char(s, 8), tail_char(s, 15))
}

/// No two attributes share a JSON field name, and none uses one of the two
/// required field names.
pub proof fn lemma_key_names_distinct()
    ensures
        forall|k1: AttributeKey, k2: AttributeKey| key_name(k1) == key_name(k2) ==> k1 == k2,
        forall|k: AttributeKey| #[trigger] key_name(k) != "name"@,
        forall|k: AttributeKey| #[trigger] key_name(k) != "dark_mode"@,
{
    reveal_strlit("override_text_color");
    reveal_strlit("override_weak_text_color");
    reveal_strlit("override_hyperlink_color");
    reveal_strlit("override_faint_bg_color");
    reveal_strlit("override_extreme_bg_color");
    reveal_strlit("override_code_bg_color");
    reveal_strlit("override_warn_fg_color");
    reveal_strlit("override_error_fg_color");
    reveal_strlit("override_window_fill");
    reveal_strlit("override_window_stroke_color");
    reveal_strlit("override_window_stroke_width");
    reveal_strlit("override_window_corner_radius");
    reveal_strlit("override_window_shadow_size");
    reveal_strlit("override_panel_fill");
    reveal_strlit("override_popup_shadow_size");
    reveal_strlit("override_selection_bg");
    reveal_strlit("override_selection_stroke_color");
    reveal_strlit("override_selection_stroke_width");
    reveal_strlit("override_widget_noninteractive_bg_fill");
    reveal_strlit("override_widget_noninteractive_weak_bg_fill");
    reveal_strlit("override_widget_noninteractive_bg_stroke_color");
    reveal_strlit("override_widget_noninteractive_bg_stroke_width");
    reveal_strlit("override_widget_noninteractive_corner_radius");
    reveal_strlit("override_widget_noninteractive_fg_stroke_color");
    reveal_strlit("override_widget_noninteractive_fg_stroke_width");
    reveal_strlit("override_widget_noninteractive_expansion");
    reveal_strlit("override_widget_inactive_bg_fill");
    reveal_strlit("override_widget_inactive_weak_bg_fill");
    reveal_strlit("override_widget_inactive_bg_stroke_color");
    reveal_strlit("override_widget_inactive_bg_stroke_width");
    reveal_strlit("override_widget_inactive_corner_radius");
    reveal_strlit("override_widget_inactive_fg_stroke_color");
    reveal_strlit("override_widget_inactive_fg_stroke_width");
    reveal_strlit("override_widget_inactive_expansion");
    reveal_strlit("override_widget_hovered_bg_fill");
    reveal_strlit("override_widget_hovered_weak_bg_fill");
    reveal_strlit("override_widget_hovered_bg_stroke_color");
    reveal_strlit("override_widget_hovered_bg_stroke_width");
    reveal_strlit("override_widget_hovered_corner_radius");
    reveal_strlit("override_widget_hovered_fg_stroke_color");
    reveal_strlit("override_widget_hovered_fg_stroke_width");
    reveal_strlit("override_widget_hovered_expansion");
    reveal_strlit("override_widget_active_bg_fill");
    reveal_strlit("override_widget_active_weak_bg_fill");
    reveal_strlit("override_widget_active_bg_stroke_color");
    reveal_strlit("override_widget_active_bg_stroke_width");
    reveal_strlit("override_widget_active_corner_radius");
    reveal_strlit("override_widget_active_fg_stroke_color");
    reveal_strlit("override_widget_active_fg_stroke_width");
    reveal_strlit("override_widget_active_expansion");
    reveal_strlit("override_widget_open_bg_fill");
    reveal_strlit("override_widget_open_weak_bg_fill");
    reveal_strlit("override_widget_open_bg_stroke_color");
    reveal_strlit("override_widget_open_bg_stroke_width");
    reveal_strlit("override_widget_open_corner_radius");
    reveal_strlit("override_widget_open_fg_stroke_color");
    reveal_strlit("override_widget_open_fg_stroke_width");
    reveal_strlit("override_widget_open_expansion");
    reveal_strlit("override_resize_corner_size");
    reveal_strlit("override_text_cursor_width");
    reveal_strlit("override_clip_rect_margin");
    reveal_strlit("override_button_frame");
    reveal_strlit("override_collapsing_header_frame");
    reveal_strlit("override_indent_has_left_vline");
    reveal_strlit("override_striped");
    reveal_strlit("override_slider_trailing_fill");
    reveal_strlit("name");
    reveal_strlit("dark_mode");
    assert forall|k1: AttributeKey, k2: AttributeKey| key_name(k1) == key_name(k2) implies k1 == k2 by {
        if k1 != k2 {
            assert(name_tag(key_name(k1)) != name_tag(key_name(k2)));
        }
    }
    assert forall|k: AttributeKey| #[trigger] key_name(k) != "name"@ && key_name(k) != "dark_mode"@ by {
        assert(name_tag(key_name(k)) != name_tag("name"@));
        assert(name_tag(key_name(k)) != name_tag("dark_mode"@));
    }
}

} // verus!
