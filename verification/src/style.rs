//! The two canonical base styles and the merge engine that projects a
//! sparse override set onto a base style.

use vstd::prelude::*;

use crate::config::ThemeConfig;
use crate::keys::{key_at, key_index, key_kind, lemma_key_order, AttributeKey, KEY_COUNT};
use crate::values::{value_kind, AttrValue, Rgba};

verus! {

/// The canonical dark base value of an attribute, matching the host
/// toolkit's built-in dark style.
pub open spec fn base_attr_dark(k: AttributeKey) -> AttrValue {
    match k {
        AttributeKey::TextColor => AttrValue::Color(Rgba { r: 140, g: 140, b: 140, a: 255 }),
        AttributeKey::WeakTextColor => AttrValue::Color(Rgba { r: 140, g: 140, b: 140, a: 255 }),
        AttributeKey::HyperlinkColor => AttrValue::Color(Rgba { r: 90, g: 170, b: 255, a: 255 }),
        AttributeKey::FaintBgColor => AttrValue::Color(Rgba { r: 5, g: 5, b: 5, a: 0 }),
        AttributeKey::ExtremeBgColor => AttrValue::Color(Rgba { r: 10, g: 10, b: 10, a: 255 }),
        AttributeKey::CodeBgColor => AttrValue::Color(Rgba { r: 64, g: 64, b: 64, a: 255 }),
        AttributeKey::WarnFgColor => AttrValue::Color(Rgba { r: 255, g: 143, b: 0, a: 255 }),
        AttributeKey::ErrorFgColor => AttrValue::Color(Rgba { r: 255, g: 0, b: 0, a: 255 }),
        AttributeKey::WindowFill => AttrValue::Color(Rgba { r: 27, g: 27, b: 27, a: 255 }),
        AttributeKey::WindowStrokeColor => AttrValue::Color(Rgba { r: 60, g: 60, b: 60, a: 255 }),
        AttributeKey::WindowStrokeWidth => AttrValue::Width(1000),
        AttributeKey::WindowCornerRadius => AttrValue::Radius(6),
        AttributeKey::WindowShadowSize => AttrValue::Radius(0),
        AttributeKey::PanelFill => AttrValue::Color(Rgba { r: 27, g: 27, b: 27, a: 255 }),
        AttributeKey::PopupShadowSize => AttrValue::Radius(0),
        AttributeKey::SelectionBg => AttrValue::Color(Rgba { r: 0, g: 92, b: 128, a: 255 }),
        AttributeKey::SelectionStrokeColor => AttrValue::Color(Rgba { r: 192, g: 222, b: 255, a: 255 }),
        AttributeKey::SelectionStrokeWidth => AttrValue::Width(1000),
        AttributeKey::NoninteractiveBgFill => AttrValue::Color(Rgba { r: 27, g: 27, b: 27, a: 255 }),
        AttributeKey::NoninteractiveWeakBgFill => AttrValue::Color(Rgba { r: 27, g: 27, b: 27, a: 255 }),
        AttributeKey::NoninteractiveBgStrokeColor => AttrValue::Color(Rgba { r: 60, g: 60, b: 60, a: 255 }),
        AttributeKey::NoninteractiveBgStrokeWidth => AttrValue::Width(1000),
        AttributeKey::NoninteractiveCornerRadius => AttrValue::Radius(2),
        AttributeKey::NoninteractiveFgStrokeColor => AttrValue::Color(Rgba { r: 140, g: 140, b: 140, a: 255 }),
        AttributeKey::NoninteractiveFgStrokeWidth => AttrValue::Width(1000),
        AttributeKey::NoninteractiveExpansion => AttrValue::Width(0),
        AttributeKey::InactiveBgFill => AttrValue::Color(Rgba { r: 60, g: 60, b: 60, a: 255 }),
        AttributeKey::InactiveWeakBgFill => AttrValue::Color(Rgba { r: 60, g: 60, b: 60, a: 255 }),
        AttributeKey::InactiveBgStrokeColor => AttrValue::Color(Rgba { r: 0, g: 0, b: 0, a: 0 }),
        AttributeKey::InactiveBgStrokeWidth => AttrValue::Width(0),
        AttributeKey::InactiveCornerRadius => AttrValue::Radius(2),
        AttributeKey::InactiveFgStrokeColor => AttrValue::Color(Rgba { r: 180, g: 180, b: 180, a: 255 }),
        AttributeKey::InactiveFgStrokeWidth => AttrValue::Width(1000),
        AttributeKey::InactiveExpansion => AttrValue::Width(0),
        AttributeKey::HoveredBgFill => AttrValue::Color(Rgba { r: 70, g: 70, b: 70, a: 255 }),
        AttributeKey::HoveredWeakBgFill => AttrValue::Color(Rgba { r: 70, g: 70, b: 70, a: 255 }),
        AttributeKey::HoveredBgStrokeColor => AttrValue::Color(Rgba { r: 150, g: 150, b: 150, a: 255 }),
        AttributeKey::HoveredBgStrokeWidth => AttrValue::Width(1000),
        AttributeKey::HoveredCornerRadius => AttrValue::Radius(3),
        AttributeKey::HoveredFgStrokeColor => AttrValue::Color(Rgba { r: 240, g: 240, b: 240, a: 255 }),
        AttributeKey::HoveredFgStrokeWidth => AttrValue::Width(1500),
        AttributeKey::HoveredExpansion => AttrValue::Width(1000),
        AttributeKey::ActiveBgFill => AttrValue::Color(Rgba { r: 55, g: 55, b: 55, a: 255 }),
        AttributeKey::ActiveWeakBgFill => AttrValue::Color(Rgba { r: 55, g: 55, b: 55, a: 255 }),
        AttributeKey::ActiveBgStrokeColor => AttrValue::Color(Rgba { r: 255, g: 255, b: 255, a: 255 }),
        AttributeKey::ActiveBgStrokeWidth => AttrValue::Width(1000),
        AttributeKey::ActiveCornerRadius => AttrValue::Radius(2),
        AttributeKey::ActiveFgStrokeColor => AttrValue::Color(Rgba { r: 255, g: 255, b: 255, a: 255 }),
        AttributeKey::ActiveFgStrokeWidth => AttrValue::Width(2000),
        AttributeKey::ActiveExpansion => AttrValue::Width(1000),
        AttributeKey::OpenBgFill => AttrValue::Color(Rgba { r: 27, g: 27, b: 27, a: 255 }),
        AttributeKey::OpenWeakBgFill => AttrValue::Color(Rgba { r: 45, g: 45, b: 45, a: 255 }),
        AttributeKey::OpenBgStrokeColor => AttrValue::Color(Rgba { r: 60, g: 60, b: 60, a: 255 }),
        AttributeKey::OpenBgStrokeWidth => AttrValue::Width(1000),
        AttributeKey::OpenCornerRadius => AttrValue::Radius(2),
        AttributeKey::OpenFgStrokeColor => AttrValue::Color(Rgba { r: 210, g: 210, b: 210, a: 255 }),
        AttributeKey::OpenFgStrokeWidth => AttrValue::Width(1000),
        AttributeKey::OpenExpansion => AttrValue::Width(0),
        AttributeKey::ResizeCornerSize => AttrValue::Width(12000),
        AttributeKey::TextCursorWidth => AttrValue::Width(2000),
        AttributeKey::ClipRectMargin => AttrValue::Width(3000),
        AttributeKey::ButtonFrame => AttrValue::Flag(true),
        AttributeKey::CollapsingHeaderFrame => AttrValue::Flag(false),
        AttributeKey::IndentHasLeftVline => AttrValue::Flag(true),
        AttributeKey::Striped => AttrValue::Flag(false),
        AttributeKey::SliderTrailingFill => AttrValue::Flag(false),
    }
}

/// The canonical light base value of an attribute, matching the host
/// toolkit's built-in light style.
pub open spec fn base_attr_light(k: AttributeKey) -> AttrValue {
    match k {
        AttributeKey::TextColor => AttrValue::Color(Rgba { r: 80, g: 80, b: 80, a: 255 }),
        AttributeKey::WeakTextColor => AttrValue::Color(Rgba { r: 80, g: 80, b: 80, a: 255 }),
        AttributeKey::HyperlinkColor => AttrValue::Color(Rgba { r: 0, g: 155, b: 255, a: 255 }),
        AttributeKey::FaintBgColor => AttrValue::Color(Rgba { r: 5, g: 5, b: 5, a: 0 }),
        AttributeKey::ExtremeBgColor => AttrValue::Color(Rgba { r: 255, g: 255, b: 255, a: 255 }),
        AttributeKey::CodeBgColor => AttrValue::Color(Rgba { r: 230, g: 230, b: 230, a: 255 }),
        AttributeKey::WarnFgColor => AttrValue::Color(Rgba { r: 255, g: 100, b: 0, a: 255 }),
        AttributeKey::ErrorFgColor => AttrValue::Color(Rgba { r: 255, g: 0, b: 0, a: 255 }),
        AttributeKey::WindowFill => AttrValue::Color(Rgba { r: 248, g: 248, b: 248, a: 255 }),
        AttributeKey::WindowStrokeColor => AttrValue::Color(Rgba { r: 190, g: 190, b: 190, a: 255 }),
        AttributeKey::WindowStrokeWidth => AttrValue::Width(1000),
        AttributeKey::WindowCornerRadius => AttrValue::Radius(6),
        AttributeKey::WindowShadowSize => AttrValue::Radius(0),
        AttributeKey::PanelFill => AttrValue::Color(Rgba { r: 248, g: 248, b: 248, a: 255 }),
        AttributeKey::PopupShadowSize => AttrValue::Radius(0),
        AttributeKey::SelectionBg => AttrValue::Color(Rgba { r: 144, g: 209, b: 255, a: 255 }),
        AttributeKey::SelectionStrokeColor => AttrValue::Color(Rgba { r: 0, g: 83, b: 125, a: 255 }),
        AttributeKey::SelectionStrokeWidth => AttrValue::Width(1000),
        AttributeKey::NoninteractiveBgFill => AttrValue::Color(Rgba { r: 248, g: 248, b: 248, a: 255 }),
        AttributeKey::NoninteractiveWeakBgFill => AttrValue::Color(Rgba { r: 248, g: 248, b: 248, a: 255 }),
        AttributeKey::NoninteractiveBgStrokeColor => AttrValue::Color(Rgba { r: 190, g: 190, b: 190, a: 255 }),
        AttributeKey::NoninteractiveBgStrokeWidth => AttrValue::Width(1000),
        AttributeKey::NoninteractiveCornerRadius => AttrValue::Radius(2),
        AttributeKey::NoninteractiveFgStrokeColor => AttrValue::Color(Rgba { r: 80, g: 80, b: 80, a: 255 }),
        AttributeKey::NoninteractiveFgStrokeWidth => AttrValue::Width(1000),
        AttributeKey::NoninteractiveExpansion => AttrValue::Width(0),
        AttributeKey::InactiveBgFill => AttrValue::Color(Rgba { r: 230, g: 230, b: 230, a: 255 }),
        AttributeKey::InactiveWeakBgFill => AttrValue::Color(Rgba { r: 230, g: 230, b: 230, a: 255 }),
        AttributeKey::InactiveBgStrokeColor => AttrValue::Color(Rgba { r: 0, g: 0, b: 0, a: 0 }),
        AttributeKey::InactiveBgStrokeWidth => AttrValue::Width(0),
        AttributeKey::InactiveCornerRadius => AttrValue::Radius(2),
        AttributeKey::InactiveFgStrokeColor => AttrValue::Color(Rgba { r: 60, g: 60, b: 60, a: 255 }),
        AttributeKey::InactiveFgStrokeWidth => AttrValue::Width(1000),
        AttributeKey::InactiveExpansion => AttrValue::Width(0),
        AttributeKey::HoveredBgFill => AttrValue::Color(Rgba { r: 220, g: 220, b: 220, a: 255 }),
        AttributeKey::HoveredWeakBgFill => AttrValue::Color(Rgba { r: 220, g: 220, b: 220, a: 255 }),
        AttributeKey::HoveredBgStrokeColor => AttrValue::Color(Rgba { r: 105, g: 105, b: 105, a: 255 }),
        AttributeKey::HoveredBgStrokeWidth => AttrValue::Width(1000),
        AttributeKey::HoveredCornerRadius => AttrValue::Radius(3),
        AttributeKey::HoveredFgStrokeColor => AttrValue::Color(Rgba { r: 0, g: 0, b: 0, a: 255 }),
        AttributeKey::HoveredFgStrokeWidth => AttrValue::Width(1500),
        AttributeKey::HoveredExpansion => AttrValue::Width(1000),
        AttributeKey::ActiveBgFill => AttrValue::Color(Rgba { r: 165, g: 165, b: 165, a: 255 }),
        AttributeKey::ActiveWeakBgFill => AttrValue::Color(Rgba { r: 165, g: 165, b: 165, a: 255 }),
        AttributeKey::ActiveBgStrokeColor => AttrValue::Color(Rgba { r: 0, g: 0, b: 0, a: 255 }),
        AttributeKey::ActiveBgStrokeWidth => AttrValue::Width(1000),
        AttributeKey::ActiveCornerRadius => AttrValue::Radius(2),
        AttributeKey::ActiveFgStrokeColor => AttrValue::Color(Rgba { r: 0, g: 0, b: 0, a: 255 }),
        AttributeKey::ActiveFgStrokeWidth => AttrValue::Width(2000),
        AttributeKey::ActiveExpansion => AttrValue::Width(1000),
        AttributeKey::OpenBgFill => AttrValue::Color(Rgba { r: 220, g: 220, b: 220, a: 255 }),
        AttributeKey::OpenWeakBgFill => AttrValue::Color(Rgba { r: 220, g: 220, b: 220, a: 255 }),
        AttributeKey::OpenBgStrokeColor => AttrValue::Color(Rgba { r: 160, g: 160, b: 160, a: 255 }),
        AttributeKey::OpenBgStrokeWidth => AttrValue::Width(1000),
        AttributeKey::OpenCornerRadius => AttrValue::Radius(2),
        AttributeKey::OpenFgStrokeColor => AttrValue::Color(Rgba { r: 0, g: 0, b: 0, a: 255 }),
        AttributeKey::OpenFgStrokeWidth => AttrValue::Width(1000),
        AttributeKey::OpenExpansion => AttrValue::Width(0),
        AttributeKey::ResizeCornerSize => AttrValue::Width(12000),
        AttributeKey::TextCursorWidth => AttrValue::Width(2000),
        AttributeKey::ClipRectMargin => AttrValue::Width(3000),
        AttributeKey::ButtonFrame => AttrValue::Flag(true),
        AttributeKey::CollapsingHeaderFrame => AttrValue::Flag(false),
        AttributeKey::IndentHasLeftVline => AttrValue::Flag(true),
        AttributeKey::Striped => AttrValue::Flag(false),
        AttributeKey::SliderTrailingFill => AttrValue::Flag(false),
    }
}

/// The base value of an attribute under the given mode flag.
pub open spec fn base_attr(dark_mode: bool, k: AttributeKey) -> AttrValue {
    if dark_mode {
        base_attr_dark(k)
    } else {
        base_attr_light(k)
    }
}

/// The complete base style row for a mode, in enumeration order.
pub open spec fn base_style(dark_mode: bool) -> Seq<AttrValue> {
    Seq::new(KEY_COUNT as nat, |i: int| base_attr(dark_mode, key_at(i)))
}

/// Every base value is of its attribute's declared kind.
pub proof fn lemma_base_kinds(dark_mode: bool)
    ensures
        forall|k: AttributeKey| value_kind(#[trigger] base_attr(dark_mode, k)) == key_kind(k),
{
}

/// The base value of an attribute under the given mode flag.
pub fn base_attr_of(dark_mode: bool, key: AttributeKey) -> (v: AttrValue)
    ensures
        v == base_attr(dark_mode, key),
{
    match key {
            AttributeKey::TextColor => if dark_mode {
                AttrValue::Color(Rgba { r: 140, g: 140, b: 140, a: 255 })
            } else {
                AttrValue::Color(Rgba { r: 80, g: 80, b: 80, a: 255 })
            },
            AttributeKey::WeakTextColor => if dark_mode {
                AttrValue::Color(Rgba { r: 140, g: 140, b: 140, a: 255 })
            } else {
                AttrValue::Color(Rgba { r: 80, g: 80, b: 80, a: 255 })
            },
            AttributeKey::HyperlinkColor => if dark_mode {
                AttrValue::Color(Rgba { r: 90, g: 170, b: 255, a: 255 })
            } else {
                AttrValue::Color(Rgba { r: 0, g: 155, b: 255, a: 255 })
            },
            AttributeKey::FaintBgColor => if dark_mode {
                AttrValue::Color(Rgba { r: 5, g: 5, b: 5, a: 0 })
            } else {
                AttrValue::Color(Rgba { r: 5, g: 5, b: 5, a: 0 })
            },
            AttributeKey::ExtremeBgColor => if dark_mode {
                AttrValue::Color(Rgba { r: 10, g: 10, b: 10, a: 255 })
            } else {
                AttrValue::Color(Rgba { r: 255, g: 255, b: 255, a: 255 })
            },
            AttributeKey::CodeBgColor => if dark_mode {
                AttrValue::Color(Rgba { r: 64, g: 64, b: 64, a: 255 })
            } else {
                AttrValue::Color(Rgba { r: 230, g: 230, b: 230, a: 255 })
            },
            AttributeKey::WarnFgColor => if dark_mode {
                AttrValue::Color(Rgba { r: 255, g: 143, b: 0, a: 255 })
            } else {
                AttrValue::Color(Rgba { r: 255, g: 100, b: 0, a: 255 })
            },
            AttributeKey::ErrorFgColor => if dark_mode {
                AttrValue::Color(Rgba { r: 255, g: 0, b: 0, a: 255 })
            } else {
                AttrValue::Color(Rgba { r: 255, g: 0, b: 0, a: 255 })
            },
            AttributeKey::WindowFill => if dark_mode {
                AttrValue::Color(Rgba { r: 27, g: 27, b: 27, a: 255 })
            } else {
                AttrValue::Color(Rgba { r: 248, g: 248, b: 248, a: 255 })
            },
            AttributeKey::WindowStrokeColor => if dark_mode {
                AttrValue::Color(Rgba { r: 60, g: 60, b: 60, a: 255 })
            } else {
                AttrValue::Color(Rgba { r: 190, g: 190, b: 190, a: 255 })
            },
            AttributeKey::WindowStrokeWidth => if dark_mode {
                AttrValue::Width(1000)
            } else {
                AttrValue::Width(1000)
            },
            AttributeKey::WindowCornerRadius => if dark_mode {
                AttrValue::Radius(6)
            } else {
                AttrValue::Radius(6)
            },
            AttributeKey::WindowShadowSize => if dark_mode {
                AttrValue::Radius(0)
            } else {
                AttrValue::Radius(0)
            },
            AttributeKey::PanelFill => if dark_mode {
                AttrValue::Color(Rgba { r: 27, g: 27, b: 27, a: 255 })
            } else {
                AttrValue::Color(Rgba { r: 248, g: 248, b: 248, a: 255 })
            },
            AttributeKey::PopupShadowSize => if dark_mode {
                AttrValue::Radius(0)
            } else {
                AttrValue::Radius(0)
            },
            AttributeKey::SelectionBg => if dark_mode {
                AttrValue::Color(Rgba { r: 0, g: 92, b: 128, a: 255 })
            } else {
                AttrValue::Color(Rgba { r: 144, g: 209, b: 255, a: 255 })
            },
            AttributeKey::SelectionStrokeColor => if dark_mode {
                AttrValue::Color(Rgba { r: 192, g: 222, b: 255, a: 255 })
            } else {
                AttrValue::Color(Rgba { r: 0, g: 83, b: 125, a: 255 })
            },
            AttributeKey::SelectionStrokeWidth => if dark_mode {
                AttrValue::Width(1000)
            } else {
                AttrValue::Width(1000)
            },
            AttributeKey::NoninteractiveBgFill => if dark_mode {
                AttrValue::Color(Rgba { r: 27, g: 27, b: 27, a: 255 })
            } else {
                AttrValue::Color(Rgba { r: 248, g: 248, b: 248, a: 255 })
            },
            AttributeKey::NoninteractiveWeakBgFill => if dark_mode {
                AttrValue::Color(Rgba { r: 27, g: 27, b: 27, a: 255 })
            } else {
                AttrValue::Color(Rgba { r: 248, g: 248, b: 248, a: 255 })
            },
            AttributeKey::NoninteractiveBgStrokeColor => if dark_mode {
                AttrValue::Color(Rgba { r: 60, g: 60, b: 60, a: 255 })
            } else {
                AttrValue::Color(Rgba { r: 190, g: 190, b: 190, a: 255 })
            },
            AttributeKey::NoninteractiveBgStrokeWidth => if dark_mode {
                AttrValue::Width(1000)
            } else {
                AttrValue::Width(1000)
            },
            AttributeKey::NoninteractiveCornerRadius => if dark_mode {
                AttrValue::Radius(2)
            } else {
                AttrValue::Radius(2)
            },
            AttributeKey::NoninteractiveFgStrokeColor => if dark_mode {
                AttrValue::Color(Rgba { r: 140, g: 140, b: 140, a: 255 })
            } else {
                AttrValue::Color(Rgba { r: 80, g: 80, b: 80, a: 255 })
            },
            AttributeKey::NoninteractiveFgStrokeWidth => if dark_mode {
                AttrValue::Width(1000)
            } else {
                AttrValue::Width(1000)
            },
            AttributeKey::NoninteractiveExpansion => if dark_mode {
                AttrValue::Width(0)
            } else {
                AttrValue::Width(0)
            },
            AttributeKey::InactiveBgFill => if dark_mode {
                AttrValue::Color(Rgba { r: 60, g: 60, b: 60, a: 255 })
            } else {
                AttrValue::Color(Rgba { r: 230, g: 230, b: 230, a: 255 })
            },
            AttributeKey::InactiveWeakBgFill => if dark_mode {
                AttrValue::Color(Rgba { r: 60, g: 60, b: 60, a: 255 })
            } else {
                AttrValue::Color(Rgba { r: 230, g: 230, b: 230, a: 255 })
            },
            AttributeKey::InactiveBgStrokeColor => if dark_mode {
                AttrValue::Color(Rgba { r: 0, g: 0, b: 0, a: 0 })
            } else {
                AttrValue::Color(Rgba { r: 0, g: 0, b: 0, a: 0 })
            },
            AttributeKey::InactiveBgStrokeWidth => if dark_mode {
                AttrValue::Width(0)
            } else {
                AttrValue::Width(0)
            },
            AttributeKey::InactiveCornerRadius => if dark_mode {
                AttrValue::Radius(2)
            } else {
                AttrValue::Radius(2)
            },
            AttributeKey::InactiveFgStrokeColor => if dark_mode {
                AttrValue::Color(Rgba { r: 180, g: 180, b: 180, a: 255 })
            } else {
                AttrValue::Color(Rgba { r: 60, g: 60, b: 60, a: 255 })
            },
            AttributeKey::InactiveFgStrokeWidth => if dark_mode {
                AttrValue::Width(1000)
            } else {
                AttrValue::Width(1000)
            },
            AttributeKey::InactiveExpansion => if dark_mode {
                AttrValue::Width(0)
            } else {
                AttrValue::Width(0)
            },
            AttributeKey::HoveredBgFill => if dark_mode {
                AttrValue::Color(Rgba { r: 70, g: 70, b: 70, a: 255 })
            } else {
                AttrValue::Color(Rgba { r: 220, g: 220, b: 220, a: 255 })
            },
            AttributeKey::HoveredWeakBgFill => if dark_mode {
                AttrValue::Color(Rgba { r: 70, g: 70, b: 70, a: 255 })
            } else {
                AttrValue::Color(Rgba { r: 220, g: 220, b: 220, a: 255 })
            },
            AttributeKey::HoveredBgStrokeColor => if dark_mode {
                AttrValue::Color(Rgba { r: 150, g: 150, b: 150, a: 255 })
            } else {
                AttrValue::Color(Rgba { r: 105, g: 105, b: 105, a: 255 })
            },
            AttributeKey::HoveredBgStrokeWidth => if dark_mode {
                AttrValue::Width(1000)
            } else {
                AttrValue::Width(1000)
            },
            AttributeKey::HoveredCornerRadius => if dark_mode {
                AttrValue::Radius(3)
            } else {
                AttrValue::Radius(3)
            },
            AttributeKey::HoveredFgStrokeColor => if dark_mode {
                AttrValue::Color(Rgba { r: 240, g: 240, b: 240, a: 255 })
            } else {
                AttrValue::Color(Rgba { r: 0, g: 0, b: 0, a: 255 })
            },
            AttributeKey::HoveredFgStrokeWidth => if dark_mode {
                AttrValue::Width(1500)
            } else {
                AttrValue::Width(1500)
            },
            AttributeKey::HoveredExpansion => if dark_mode {
                AttrValue::Width(1000)
            } else {
                AttrValue::Width(1000)
            },
            AttributeKey::ActiveBgFill => if dark_mode {
                AttrValue::Color(Rgba { r: 55, g: 55, b: 55, a: 255 })
            } else {
                AttrValue::Color(Rgba { r: 165, g: 165, b: 165, a: 255 })
            },
            AttributeKey::ActiveWeakBgFill => if dark_mode {
                AttrValue::Color(Rgba { r: 55, g: 55, b: 55, a: 255 })
            } else {
                AttrValue::Color(Rgba { r: 165, g: 165, b: 165, a: 255 })
            },
            AttributeKey::ActiveBgStrokeColor => if dark_mode {
                AttrValue::Color(Rgba { r: 255, g: 255, b: 255, a: 255 })
            } else {
                AttrValue::Color(Rgba { r: 0, g: 0, b: 0, a: 255 })
            },
            AttributeKey::ActiveBgStrokeWidth => if dark_mode {
                AttrValue::Width(1000)
            } else {
                AttrValue::Width(1000)
            },
            AttributeKey::ActiveCornerRadius => if dark_mode {
                AttrValue::Radius(2)
            } else {
                AttrValue::Radius(2)
            },
            AttributeKey::ActiveFgStrokeColor => if dark_mode {
                AttrValue::Color(Rgba { r: 255, g: 255, b: 255, a: 255 })
            } else {
                AttrValue::Color(Rgba { r: 0, g: 0, b: 0, a: 255 })
            },
            AttributeKey::ActiveFgStrokeWidth => if dark_mode {
                AttrValue::Width(2000)
            } else {
                AttrValue::Width(2000)
            },
            AttributeKey::ActiveExpansion => if dark_mode {
                AttrValue::Width(1000)
            } else {
                AttrValue::Width(1000)
            },
            AttributeKey::OpenBgFill => if dark_mode {
                AttrValue::Color(Rgba { r: 27, g: 27, b: 27, a: 255 })
            } else {
                AttrValue::Color(Rgba { r: 220, g: 220, b: 220, a: 255 })
            },
            AttributeKey::OpenWeakBgFill => if dark_mode {
                AttrValue::Color(Rgba { r: 45, g: 45, b: 45, a: 255 })
            } else {
                AttrValue::Color(Rgba { r: 220, g: 220, b: 220, a: 255 })
            },
            AttributeKey::OpenBgStrokeColor => if dark_mode {
                AttrValue::Color(Rgba { r: 60, g: 60, b: 60, a: 255 })
            } else {
                AttrValue::Color(Rgba { r: 160, g: 160, b: 160, a: 255 })
            },
            AttributeKey::OpenBgStrokeWidth => if dark_mode {
                AttrValue::Width(1000)
            } else {
                AttrValue::Width(1000)
            },
            AttributeKey::OpenCornerRadius => if dark_mode {
                AttrValue::Radius(2)
            } else {
                AttrValue::Radius(2)
            },
            AttributeKey::OpenFgStrokeColor => if dark_mode {
                AttrValue::Color(Rgba { r: 210, g: 210, b: 210, a: 255 })
            } else {
                AttrValue::Color(Rgba { r: 0, g: 0, b: 0, a: 255 })
            },
            AttributeKey::OpenFgStrokeWidth => if dark_mode {
                AttrValue::Width(1000)
            } else {
                AttrValue::Width(1000)
            },
            AttributeKey::OpenExpansion => if dark_mode {
                AttrValue::Width(0)
            } else {
                AttrValue::Width(0)
            },
            AttributeKey::ResizeCornerSize => if dark_mode {
                AttrValue::Width(12000)
            } else {
                AttrValue::Width(12000)
            },
            AttributeKey::TextCursorWidth => if dark_mode {
                AttrValue::Width(2000)
            } else {
                AttrValue::Width(2000)
            },
            AttributeKey::ClipRectMargin => if dark_mode {
                AttrValue::Width(3000)
            } else {
                AttrValue::Width(3000)
            },
            AttributeKey::ButtonFrame => if dark_mode {
                AttrValue::Flag(true)
            } else {
                AttrValue::Flag(true)
            },
            AttributeKey::CollapsingHeaderFrame => if dark_mode {
                AttrValue::Flag(false)
            } else {
                AttrValue::Flag(false)
            },
            AttributeKey::IndentHasLeftVline => if dark_mode {
                AttrValue::Flag(true)
            } else {
                AttrValue::Flag(true)
            },
            AttributeKey::Striped => if dark_mode {
                AttrValue::Flag(false)
            } else {
                AttrValue::Flag(false)
            },
            AttributeKey::SliderTrailingFill => if dark_mode {
                AttrValue::Flag(false)
            } else {
                AttrValue::Flag(false)
            },
    }
}

/// A fully resolved style: one value for every attribute of the
/// enumeration, in enumeration order.
///
/// Both the two canonical base styles and the output of [`apply`] have this
/// shape; a resolved style is never sparse.
#[derive(Debug)]
pub struct StyleSheet {
    attrs: Vec<AttrValue>,
}

impl View for StyleSheet {
    type V = Seq<AttrValue>;

    closed spec fn view(&self) -> Seq<AttrValue> {
        self.attrs@
    }
}

/// Well-formedness of a resolved style row: total over the enumeration,
/// every entry of its attribute's declared kind.
pub open spec fn style_wf(s: Seq<AttrValue>) -> bool {
    &&& s.len() == KEY_COUNT
    &&& forall|i: int|
        0 <= i < KEY_COUNT ==> value_kind(#[trigger] s[i]) == key_kind(key_at(i))
}

impl StyleSheet {
    /// The value of an attribute.
    pub fn get(&self, key: AttributeKey) -> (v: AttrValue)
        requires
            style_wf(self@),
        ensures
            v == self@[key_index(key)],
    {
        proof {
            lemma_key_order();
        }
        self.attrs[key.index()]
    }

    /// The value at a position of the enumeration order.
    pub fn get_at(&self, i: usize) -> (v: AttrValue)
        requires
            style_wf(self@),
            i < KEY_COUNT,
        ensures
            v == self@[i as int],
    {
        self.attrs[i]
    }
}

impl Clone for StyleSheet {
    fn clone(&self) -> (s: Self)
        ensures
            s@ == self@,
    {
        let mut attrs: Vec<AttrValue> = Vec::new();
        let mut i: usize = 0;
        while i < self.attrs.len()
            invariant
                i <= self.attrs@.len(),
                attrs@.len() == i,
                forall|j: int| 0 <= j < i ==> attrs@[j] == self.attrs@[j],
            decreases self.attrs@.len() - i,
        {
            attrs.push(self.attrs[i]);
            i = i + 1;
        }
        let s = StyleSheet { attrs };
        proof {
            assert(s@ =~= self@);
        }
        s
    }
}

impl PartialEq for StyleSheet {
    fn eq(&self, other: &Self) -> (r: bool) {
        if self.attrs.len() != other.attrs.len() {
            return false;
        }
        let mut i: usize = 0;
        while i < self.attrs.len()
            invariant
                i <= self.attrs@.len(),
                self.attrs@.len() == other.attrs@.len(),
                forall|j: int| 0 <= j < i ==> self.attrs@[j] == other.attrs@[j],
            decreases self.attrs@.len() - i,
        {
            if !(self.attrs[i] == other.attrs[i]) {
                return false;
            }
            i = i + 1;
        }
        proof {
            assert(self@ =~= other@);
        }
        true
    }
}

impl vstd::std_specs::cmp::PartialEqSpecImpl for StyleSheet {
    open spec fn obeys_eq_spec() -> bool {
        true
    }

    open spec fn eq_spec(&self, other: &Self) -> bool {
        self@ == other@
    }
}

impl Eq for StyleSheet {

}

/// One of the two canonical base styles, selected by the mode flag.
pub fn resolve_base(dark_mode: bool) -> (s: StyleSheet)
    ensures
        s@ == base_style(dark_mode),
        style_wf(s@),
{
    let mut attrs: Vec<AttrValue> = Vec::new();
    let mut i: usize = 0;
    while i < KEY_COUNT
        invariant
            i <= KEY_COUNT,
            attrs@.len() == i,
            forall|j: int| 0 <= j < i ==> attrs@[j] == base_attr(dark_mode, key_at(j)),
        decreases KEY_COUNT - i,
    {
        attrs.push(base_attr_of(dark_mode, AttributeKey::from_index(i)));
        i = i + 1;
    }
    let s = StyleSheet { attrs };
    proof {
        assert(s@ =~= base_style(dark_mode));
        lemma_base_kinds(dark_mode);
        lemma_key_order();
    }
    s
}

/// What the merge produces at one position: the override when the key is
/// set, the base value otherwise.
pub open spec fn apply_at(
    base: Seq<AttrValue>,
    overrides: Seq<Option<AttrValue>>,
    i: int,
) -> AttrValue {
    match overrides[i] {
        Some(v) => v,
        None => base[i],
    }
}

/// The merge of a whole override row onto a base row.
pub open spec fn apply_model(
    base: Seq<AttrValue>,
    overrides: Seq<Option<AttrValue>>,
) -> Seq<AttrValue> {
    Seq::new(KEY_COUNT as nat, |i: int| apply_at(base, overrides, i))
}

/// Projects an override set onto a base style, producing a fully resolved
/// style: every overridden key takes its override, every other key passes
/// the base value through unchanged.
pub fn apply(base: &StyleSheet, overrides: &ThemeConfig) -> (s: StyleSheet)
    requires
        style_wf(base@),
        overrides@.wf(),
    ensures
        s@ == apply_model(base@, overrides@.overrides),
        style_wf(s@),
{
    let mut attrs: Vec<AttrValue> = Vec::new();
    let mut i: usize = 0;
    while i < KEY_COUNT
        invariant
            style_wf(base@),
            overrides@.wf(),
            i <= KEY_COUNT,
            attrs@.len() == i,
            forall|j: int| 0 <= j < i ==> attrs@[j] == apply_at(base@, overrides@.overrides, j),
        decreases KEY_COUNT - i,
    {
        let v = match overrides.get_at(i) {
            Some(v) => v,
            None => base.get_at(i),
        };
        attrs.push(v);
        i = i + 1;
    }
    let s = StyleSheet { attrs };
    proof {
        assert(s@ =~= apply_model(base@, overrides@.overrides));
    }
    s
}

/// The merge performed one key at a time, in an explicit processing order:
/// each position of `order` names a key whose override, when set, is copied
/// over that key's slot.
pub open spec fn apply_in_order(
    base: Seq<AttrValue>,
    overrides: Seq<Option<AttrValue>>,
    order: Seq<int>,
) -> Seq<AttrValue>
    decreases order.len(),
{
    if order.len() == 0 {
        base
    } else {
        let s = apply_in_order(base, overrides, order.drop_last());
        let i = order.last();
        if 0 <= i < overrides.len() && overrides[i] is Some {
            s.update(i, overrides[i]->0)
        } else {
            s
        }
    }
}

proof fn lemma_apply_in_order_pointwise(
    base: Seq<AttrValue>,
    overrides: Seq<Option<AttrValue>>,
    order: Seq<int>,
)
    requires
        base.len() == KEY_COUNT,
        overrides.len() == KEY_COUNT,
    ensures
        apply_in_order(base, overrides, order).len() == KEY_COUNT,
        forall|p: int|
            0 <= p < KEY_COUNT ==> #[trigger] apply_in_order(base, overrides, order)[p] == (
            if order.contains(p) && overrides[p] is Some {
                overrides[p]->0
            } else {
                base[p]
            }),
    decreases order.len(),
{
    if order.len() == 0 {
        assert(forall|p: int| !order.contains(p));
    } else {
        let rest = order.drop_last();
        lemma_apply_in_order_pointwise(base, overrides, rest);
        assert forall|p: int| 0 <= p < KEY_COUNT implies #[trigger] apply_in_order(
            base,
            overrides,
            order,
        )[p] == (if order.contains(p) && overrides[p] is Some {
            overrides[p]->0
        } else {
            base[p]
        }) by {
            if rest.contains(p) {
                let w = choose|w: int| 0 <= w < rest.len() && rest[w] == p;
                assert(order[w] == p);
                assert(order.contains(p));
            }
            if order.contains(p) && !rest.contains(p) {
                let w = choose|w: int| 0 <= w < order.len() && order[w] == p;
                if w < order.len() - 1 {
                    assert(rest[w] == p);
                    assert(rest.contains(p));
                }
                assert(order.last() == p);
            }
        }
    }
}

/// Independence: processing the keys in any order that covers the whole
/// enumeration — any permutation included — produces exactly the merge
/// result; no key's resolution depends on another key's override.
pub proof fn lemma_apply_order_irrelevant(
    base: Seq<AttrValue>,
    overrides: Seq<Option<AttrValue>>,
    order: Seq<int>,
)
    requires
        base.len() == KEY_COUNT,
        overrides.len() == KEY_COUNT,
        forall|i: int| 0 <= i < KEY_COUNT ==> #[trigger] order.contains(i),
    ensures
        apply_in_order(base, overrides, order) == apply_model(base, overrides),
{
    lemma_apply_in_order_pointwise(base, overrides, order);
    assert(apply_in_order(base, overrides, order) =~= apply_model(base, overrides));
}

/// Totality: the merge output always covers the whole enumeration, each key
/// with a value of its declared kind, whether inherited or overridden.
pub proof fn lemma_apply_total(base: Seq<AttrValue>, overrides: Seq<Option<AttrValue>>)
    requires
        style_wf(base),
        overrides.len() == KEY_COUNT,
        forall|i: int|
            0 <= i < KEY_COUNT ==> (#[trigger] overrides[i] matches Some(v) ==> value_kind(v)
                == key_kind(key_at(i))),
    ensures
        style_wf(apply_model(base, overrides)),
{
}

/// Inheritance: with nothing overridden, the merge returns the base style
/// unchanged, field for field.
pub proof fn lemma_apply_inherits(base: Seq<AttrValue>, overrides: Seq<Option<AttrValue>>)
    requires
        style_wf(base),
        overrides.len() == KEY_COUNT,
        forall|i: int| 0 <= i < KEY_COUNT ==> #[trigger] overrides[i] is None,
    ensures
        apply_model(base, overrides) == base,
{
    assert(apply_model(base, overrides) =~= base);
}

/// Override precedence: a key that is set resolves to exactly the stored
/// value, whatever the base holds there; a key that is not set resolves to
/// exactly the base value.
pub proof fn lemma_apply_precedence(
    base: Seq<AttrValue>,
    overrides: Seq<Option<AttrValue>>,
    key: AttributeKey,
)
    requires
        style_wf(base),
        overrides.len() == KEY_COUNT,
    ensures
        overrides[key_index(key)] matches Some(v) ==> apply_model(base, overrides)[key_index(key)]
            == v,
        overrides[key_index(key)] is None ==> apply_model(base, overrides)[key_index(key)]
            == base[key_index(key)],
{
    lemma_key_order();
}

} // verus!
