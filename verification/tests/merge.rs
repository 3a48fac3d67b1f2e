use egui_thematic::keys::KEY_COUNT;
use egui_thematic::{apply, resolve_base, AttrValue, AttributeKey, Rgba, ThemeConfig, ValueKind};

#[test]
fn apply_is_total_over_all_keys() {
    let base = resolve_base(true);
    let config = ThemeConfig::new();
    let resolved = apply(&base, &config);
    for i in 0..KEY_COUNT {
        let key = AttributeKey::from_index(i);
        let value = resolved.get(key);
        assert_eq!(value.kind(), key.kind());
    }
}

#[test]
fn apply_with_no_overrides_returns_base() {
    for dark in [true, false] {
        let base = resolve_base(dark);
        let config = ThemeConfig::new();
        let resolved = apply(&base, &config);
        assert!(resolved == base);
    }
}

#[test]
fn apply_dark_preset_equals_dark_base() {
    // the dark preset sets no overrides beyond the mode flag
    let preset = ThemeConfig::dark_preset();
    assert!(preset.dark_mode());
    let base = resolve_base(true);
    let resolved = apply(&base, &preset);
    assert!(resolved == base);
}

#[test]
fn override_precedence_beats_any_base() {
    let red = AttrValue::Color(Rgba::new(255, 0, 0, 255));
    for dark in [true, false] {
        let mut config = ThemeConfig::new();
        config.set(AttributeKey::TextColor, red);
        let base = resolve_base(dark);
        let resolved = apply(&base, &config);
        assert_eq!(resolved.get(AttributeKey::TextColor), red);
        // every other field is exactly the base's
        for i in 1..KEY_COUNT {
            let key = AttributeKey::from_index(i);
            assert_eq!(resolved.get(key), base.get(key));
        }
    }
}

#[test]
fn clearing_an_override_restores_inheritance() {
    let mut config = ThemeConfig::new();
    config.set(AttributeKey::PanelFill, AttrValue::Color(Rgba::opaque(1, 2, 3)));
    assert!(config.get(AttributeKey::PanelFill).is_some());
    config.clear(AttributeKey::PanelFill);
    assert!(config.get(AttributeKey::PanelFill).is_none());
    assert!(config.is_empty());
}

#[test]
fn applying_overrides_in_any_order_is_equivalent() {
    // two configs built by setting the same keys in opposite orders
    let entries = [
        (AttributeKey::TextColor, AttrValue::Color(Rgba::opaque(10, 20, 30))),
        (AttributeKey::WindowStrokeWidth, AttrValue::Width(2500)),
        (AttributeKey::WindowCornerRadius, AttrValue::Radius(9)),
        (AttributeKey::Striped, AttrValue::Flag(true)),
    ];
    let mut forward = ThemeConfig::new();
    for (key, value) in entries {
        forward.set(key, value);
    }
    let mut backward = ThemeConfig::new();
    for (key, value) in entries.iter().rev() {
        backward.set(*key, *value);
    }
    assert!(forward == backward);
    let base = resolve_base(false);
    assert!(apply(&base, &forward) == apply(&base, &backward));
}

#[test]
fn base_styles_match_the_toolkit_defaults() {
    let dark = resolve_base(true);
    let light = resolve_base(false);
    assert_eq!(dark.get(AttributeKey::HyperlinkColor), AttrValue::Color(Rgba::opaque(90, 170, 255)));
    assert_eq!(light.get(AttributeKey::HyperlinkColor), AttrValue::Color(Rgba::opaque(0, 155, 255)));
    assert_eq!(dark.get(AttributeKey::WindowFill), AttrValue::Color(Rgba::opaque(27, 27, 27)));
    assert_eq!(light.get(AttributeKey::WindowFill), AttrValue::Color(Rgba::opaque(248, 248, 248)));
    assert_eq!(dark.get(AttributeKey::WindowStrokeWidth), AttrValue::Width(1000));
    assert_eq!(dark.get(AttributeKey::WindowCornerRadius), AttrValue::Radius(6));
    assert_eq!(dark.get(AttributeKey::ButtonFrame), AttrValue::Flag(true));
    assert_eq!(dark.get(AttributeKey::HoveredFgStrokeWidth), AttrValue::Width(1500));
    assert_eq!(light.get(AttributeKey::SelectionBg), AttrValue::Color(Rgba::opaque(144, 209, 255)));
}

#[test]
fn key_table_is_consistent() {
    for i in 0..KEY_COUNT {
        let key = AttributeKey::from_index(i);
        assert_eq!(key.index(), i);
        assert!(key.json_name().starts_with("override_"));
    }
    assert_eq!(AttributeKey::TextColor.kind(), ValueKind::Color);
    assert_eq!(AttributeKey::WindowShadowSize.kind(), ValueKind::Radius);
    assert_eq!(AttributeKey::OpenExpansion.kind(), ValueKind::Width);
    assert_eq!(AttributeKey::SliderTrailingFill.kind(), ValueKind::Flag);
    assert_eq!(AttributeKey::TextColor.json_name(), "override_text_color");
    assert_eq!(
        AttributeKey::NoninteractiveBgStrokeColor.json_name(),
        "override_widget_noninteractive_bg_stroke_color"
    );
}
