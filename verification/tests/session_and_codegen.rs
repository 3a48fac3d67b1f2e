use egui_thematic::{apply, resolve_base, AttrValue, AttributeKey, EditorSession, Rgba,
    ThemeConfig};

#[test]
fn session_starts_on_the_first_preset() {
    let session = EditorSession::new();
    assert_eq!(session.selected_preset(), Some(0));
    assert_eq!(session.current().name().as_str(), "Dark");
    assert!(!session.is_custom());
}

#[test]
fn selecting_a_preset_switches_the_active_set() {
    let mut session = EditorSession::new();
    assert!(session.select_preset(2));
    assert_eq!(session.current().name().as_str(), "Dracula");
    assert!(!session.is_custom());
    assert!(!session.select_preset(99));
    assert_eq!(session.current().name().as_str(), "Dracula");
}

#[test]
fn an_edit_diverges_from_the_preset() {
    let mut session = EditorSession::new();
    session.select_preset(3);
    session.apply_edit(
        AttributeKey::PanelFill,
        Some(AttrValue::Color(Rgba::opaque(9, 9, 9))),
    );
    assert_eq!(session.selected_preset(), None);
    assert!(session.is_custom());
    assert_eq!(
        session.current().get(AttributeKey::PanelFill),
        Some(AttrValue::Color(Rgba::opaque(9, 9, 9)))
    );
}

#[test]
fn the_session_style_tracks_edits() {
    let mut session = EditorSession::new();
    let before = session.current_style();
    assert!(before == resolve_base(true));
    session.apply_edit(
        AttributeKey::TextColor,
        Some(AttrValue::Color(Rgba::opaque(1, 2, 3))),
    );
    let after = session.current_style();
    assert_eq!(after.get(AttributeKey::TextColor), AttrValue::Color(Rgba::opaque(1, 2, 3)));
    session.apply_edit(AttributeKey::TextColor, None);
    assert!(session.current_style() == before);
}

#[test]
fn replacing_the_config_clears_the_selection() {
    let mut session = EditorSession::new();
    session.replace_config(ThemeConfig::randomize_seeded(7));
    assert_eq!(session.selected_preset(), None);
    assert_eq!(session.current().name().as_str(), "Random");
}

#[test]
fn code_export_renders_each_present_key_once() {
    let mut config = ThemeConfig::new();
    config.set_dark_mode(false);
    config.set(AttributeKey::WindowFill, AttrValue::Color(Rgba::new(10, 20, 30, 255)));
    config.set(AttributeKey::TextColor, AttrValue::Color(Rgba::new(1, 2, 3, 4)));
    let code = config.to_rust_code();
    assert!(code.starts_with("fn apply_theme(ctx: &egui::Context) {"));
    assert!(code.contains("let mut visuals = if false {"));
    assert!(code.contains(
        "visuals.override_text_color = Some(egui::Color32::from_rgba_unmultiplied(1, 2, 3, 4));"
    ));
    assert!(code.contains(
        "visuals.window_fill = egui::Color32::from_rgba_unmultiplied(10, 20, 30, 255);"
    ));
    assert_eq!(code.matches("from_rgba_unmultiplied").count(), 2);
    // the text color line comes first: enumeration order
    let text_at = code.find("override_text_color").unwrap();
    let fill_at = code.find("window_fill").unwrap();
    assert!(text_at < fill_at);
    assert!(code.ends_with("    ctx.set_visuals(visuals);\n}\n"));
}

#[test]
fn code_export_of_an_empty_set_is_just_the_frame() {
    let code = ThemeConfig::dark_preset().to_rust_code();
    assert!(code.contains("let mut visuals = if true {"));
    assert!(!code.contains("from_rgba_unmultiplied"));
    assert!(!code.contains("visuals.striped"));
}

#[test]
fn code_export_covers_every_value_kind() {
    let mut config = ThemeConfig::new();
    config.set(AttributeKey::WindowStrokeWidth, AttrValue::Width(1500));
    config.set(AttributeKey::HoveredExpansion, AttrValue::Width(-250));
    config.set(AttributeKey::ClipRectMargin, AttrValue::Width(3000));
    config.set(AttributeKey::WindowCornerRadius, AttrValue::Radius(6));
    config.set(AttributeKey::WindowShadowSize, AttrValue::Radius(8));
    config.set(AttributeKey::Striped, AttrValue::Flag(true));
    config.set(AttributeKey::ButtonFrame, AttrValue::Flag(false));
    config.set(
        AttributeKey::InactiveBgStrokeColor,
        AttrValue::Color(Rgba::new(1, 2, 3, 4)),
    );
    let code = config.to_rust_code();
    assert!(code.contains("    visuals.window_stroke.width = 1.5;\n"));
    assert!(code.contains("    visuals.widgets.hovered.expansion = -0.25;\n"));
    assert!(code.contains("    visuals.clip_rect_margin = 3.0;\n"));
    assert!(code.contains("    visuals.window_corner_radius = egui::CornerRadius::same(6);\n"));
    assert!(code.contains("    visuals.window_shadow.spread = 8;\n"));
    assert!(code.contains("    visuals.striped = true;\n"));
    assert!(code.contains("    visuals.button_frame = false;\n"));
    assert!(code.contains(
        "    visuals.widgets.inactive.bg_stroke.color = egui::Color32::from_rgba_unmultiplied(1, 2, 3, 4);\n"
    ));
    // one line per present key, in enumeration order
    assert_eq!(code.matches("    visuals.").count(), 8);
    let radius_at = code.find("window_corner_radius").unwrap();
    let striped_at = code.find("visuals.striped").unwrap();
    assert!(radius_at < striped_at);
}

#[test]
fn code_export_reflects_every_present_key() {
    // two sets differing only in a non-headline key render differently
    let mut with_flag = ThemeConfig::new();
    with_flag.set(AttributeKey::Striped, AttrValue::Flag(true));
    let mut without_flag = ThemeConfig::new();
    without_flag.set(AttributeKey::Striped, AttrValue::Flag(false));
    assert_ne!(with_flag.to_rust_code(), without_flag.to_rust_code());
    assert_ne!(with_flag.to_rust_code(), ThemeConfig::new().to_rust_code());
}

#[test]
fn apply_only_text_override_keeps_every_other_field() {
    // an override set with only the text color set, applied over both bases
    let mut config = ThemeConfig::new();
    config.set(
        AttributeKey::TextColor,
        AttrValue::Color(Rgba::new(255, 0, 0, 255)),
    );
    for dark in [true, false] {
        let base = resolve_base(dark);
        let resolved = apply(&base, &config);
        assert_eq!(
            resolved.get(AttributeKey::TextColor),
            AttrValue::Color(Rgba::new(255, 0, 0, 255))
        );
        for i in 0..egui_thematic::keys::KEY_COUNT {
            let key = AttributeKey::from_index(i);
            if key != AttributeKey::TextColor {
                assert_eq!(resolved.get(key), base.get(key));
            }
        }
    }
}
