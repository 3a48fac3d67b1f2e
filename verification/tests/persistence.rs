use egui_thematic::{load, save, AttrValue, AttributeKey, LoadError, Rgba, ThemeConfig};

#[test]
fn round_trip_default() {
    let config = ThemeConfig::default();
    let bytes = save(&config);
    let back = load(&bytes).unwrap();
    assert!(back == config);
}

#[test]
fn round_trip_every_preset() {
    for preset in ThemeConfig::all_presets() {
        let bytes = save(&preset);
        let back = load(&bytes).unwrap();
        assert!(back == preset);
    }
}

#[test]
fn round_trip_hundred_randomized_instances() {
    for seed in 0..100u64 {
        let config = ThemeConfig::randomize_seeded(seed);
        let bytes = save(&config);
        let back = load(&bytes).unwrap();
        assert!(back == config);
    }
}

#[test]
fn round_trip_widths_flags_and_radii() {
    let mut config = ThemeConfig::new();
    config.set_name(String::from("weird \"name\"\t\\slash"));
    config.set_dark_mode(false);
    config.set(AttributeKey::WindowStrokeWidth, AttrValue::Width(1500));
    config.set(AttributeKey::SelectionStrokeWidth, AttrValue::Width(0));
    config.set(AttributeKey::NoninteractiveExpansion, AttrValue::Width(-2750));
    config.set(AttributeKey::ResizeCornerSize, AttrValue::Width(999_999_999));
    config.set(AttributeKey::ClipRectMargin, AttrValue::Width(-999_999_999));
    config.set(AttributeKey::TextCursorWidth, AttrValue::Width(123));
    config.set(AttributeKey::WindowCornerRadius, AttrValue::Radius(0));
    config.set(AttributeKey::PopupShadowSize, AttrValue::Radius(255));
    config.set(AttributeKey::Striped, AttrValue::Flag(true));
    config.set(AttributeKey::ButtonFrame, AttrValue::Flag(false));
    let bytes = save(&config);
    let back = load(&bytes).unwrap();
    assert!(back == config);
}

#[test]
fn round_trip_non_ascii_name() {
    let mut config = ThemeConfig::new();
    config.set_name(String::from("th\u{e8}me \u{1F3A8} nocturne"));
    let bytes = save(&config);
    let back = load(&bytes).unwrap();
    assert!(back == config);
}

#[test]
fn saved_document_has_expected_fields() {
    let mut config = ThemeConfig::new();
    config.set_name(String::from("Custom"));
    config.set_dark_mode(false);
    config.set(AttributeKey::WindowFill, AttrValue::Color(Rgba::new(10, 20, 30, 255)));
    let text = String::from_utf8(save(&config)).unwrap();
    assert!(text.contains("\"name\":\"Custom\""));
    assert!(text.contains("\"dark_mode\":false"));
    assert!(text.contains("\"override_window_fill\":[10,20,30,255]"));
    // no other override key is present
    let overrides = text.matches("\"override_").count();
    assert_eq!(overrides, 1);
}

#[test]
fn saved_document_is_wellformed_json() {
    let mut config = ThemeConfig::new();
    config.set_name(String::from("control \u{1} char \"and\" \\ more"));
    config.set(AttributeKey::ActiveExpansion, AttrValue::Width(-1250));
    config.set(AttributeKey::ErrorFgColor, AttrValue::Color(Rgba::opaque(250, 1, 2)));
    let bytes = save(&config);
    let value: serde_json::Value = serde_json::from_slice(&bytes).unwrap();
    assert_eq!(value["name"], "control \u{1} char \"and\" \\ more");
    assert_eq!(value["dark_mode"], true);
    assert_eq!(value["override_widget_active_expansion"].as_f64().unwrap(), -1.25);
}

#[test]
fn loads_documents_with_whitespace_and_any_member_order() {
    let text = "{\n  \"dark_mode\" : true ,\n  \"override_text_color\": [ 1 , 2 , 3 , 255 ],\n  \"name\": \"Night\"\n}\n";
    let config = load(text.as_bytes()).unwrap();
    assert_eq!(config.name().as_str(), "Night");
    assert!(config.dark_mode());
    assert_eq!(
        config.get(AttributeKey::TextColor),
        Some(AttrValue::Color(Rgba::new(1, 2, 3, 255)))
    );
}

#[test]
fn unknown_fields_are_ignored() {
    let text = "{\"name\":\"X\",\"dark_mode\":true,\"override_striped\":true,\
        \"future_field\":{\"nested\":[1,2,{\"deep\":null}],\"text\":\"ok\"},\
        \"another\":-1.5e3}";
    let config = load(text.as_bytes()).unwrap();
    assert_eq!(config.name().as_str(), "X");
    assert_eq!(config.get(AttributeKey::Striped), Some(AttrValue::Flag(true)));
    assert!(config.get(AttributeKey::TextColor).is_none());
}

#[test]
fn missing_required_fields_are_errors() {
    assert_eq!(load(b"{\"dark_mode\":true}"), Err(LoadError::MissingName));
    assert_eq!(load(b"{\"name\":\"X\"}"), Err(LoadError::MissingDarkMode));
    assert_eq!(load(b"{}"), Err(LoadError::MissingName));
}

#[test]
fn malformed_documents_are_errors() {
    assert!(load(b"").is_err());
    assert!(load(b"[1,2]").is_err());
    assert!(load(b"{\"name\":\"X\",\"dark_mode\":true").is_err());
    assert!(load(b"{\"name\":\"X\" \"dark_mode\":true}").is_err());
    assert!(load(b"not json at all").is_err());
}

#[test]
fn wrong_types_for_known_fields_are_errors() {
    // a string where a color array is expected
    let text = b"{\"name\":\"X\",\"dark_mode\":true,\"override_text_color\":\"red\"}";
    assert_eq!(
        load(text),
        Err(LoadError::WrongValue { key: AttributeKey::TextColor })
    );
    // a color byte out of range
    let text = b"{\"name\":\"X\",\"dark_mode\":true,\"override_text_color\":[300,0,0,255]}";
    assert_eq!(
        load(text),
        Err(LoadError::WrongValue { key: AttributeKey::TextColor })
    );
    // a boolean where a number is expected
    let text = b"{\"name\":\"X\",\"dark_mode\":true,\"override_window_corner_radius\":true}";
    assert_eq!(
        load(text),
        Err(LoadError::WrongValue { key: AttributeKey::WindowCornerRadius })
    );
    // a number where a boolean is expected
    let text = b"{\"name\":\"X\",\"dark_mode\":1}";
    assert!(load(text).is_err());
}

#[test]
fn duplicate_fields_are_errors() {
    let text = b"{\"name\":\"X\",\"name\":\"Y\",\"dark_mode\":true}";
    assert_eq!(load(text), Err(LoadError::DuplicateField { which: None }));
    let text = b"{\"name\":\"X\",\"dark_mode\":true,\"override_striped\":true,\"override_striped\":false}";
    assert_eq!(
        load(text),
        Err(LoadError::DuplicateField { which: Some(AttributeKey::Striped) })
    );
}

#[test]
fn trailing_data_is_an_error() {
    let text = b"{\"name\":\"X\",\"dark_mode\":true} extra";
    assert!(matches!(load(text), Err(LoadError::TrailingData { .. })));
    let text = b"{\"name\":\"X\",\"dark_mode\":true}   \n";
    assert!(load(text).is_ok());
}

#[test]
fn bad_strings_are_errors() {
    // lone surrogate escape
    let text = b"{\"name\":\"\\ud800\",\"dark_mode\":true}";
    assert!(load(text).is_err());
    // invalid escape
    let text = b"{\"name\":\"\\x41\",\"dark_mode\":true}";
    assert!(load(text).is_err());
    // raw bytes that are not UTF-8
    let text = b"{\"name\":\"\xff\xfe\",\"dark_mode\":true}";
    assert!(matches!(load(text), Err(LoadError::BadString { .. })));
}

#[test]
fn escape_sequences_decode() {
    let text = b"{\"name\":\"a\\n\\t\\\"b\\\\c\\/\\u0041\\u00e9\",\"dark_mode\":false}";
    let config = load(text).unwrap();
    assert_eq!(config.name().as_str(), "a\n\t\"b\\c/A\u{e9}");
}

#[test]
fn loads_documents_written_with_pretty_printing() {
    // the shape an external pretty printer produces for the same schema
    let mut doc = serde_json::Map::new();
    doc.insert("name".into(), serde_json::Value::String("Pretty".into()));
    doc.insert("dark_mode".into(), serde_json::Value::Bool(true));
    doc.insert(
        "override_selection_bg".into(),
        serde_json::Value::Array(vec![98.into(), 114.into(), 164.into(), 255.into()]),
    );
    doc.insert("override_window_stroke_width".into(), serde_json::Value::from(2.5));
    let text = serde_json::to_string_pretty(&serde_json::Value::Object(doc)).unwrap();
    let config = load(text.as_bytes()).unwrap();
    assert_eq!(config.name().as_str(), "Pretty");
    assert_eq!(
        config.get(AttributeKey::SelectionBg),
        Some(AttrValue::Color(Rgba::new(98, 114, 164, 255)))
    );
    assert_eq!(
        config.get(AttributeKey::WindowStrokeWidth),
        Some(AttrValue::Width(2500))
    );
}

#[test]
fn width_magnitude_is_bounded() {
    // seven whole digits exceed the representable width range
    let text = b"{\"name\":\"X\",\"dark_mode\":true,\"override_resize_corner_size\":1000000}";
    assert_eq!(
        load(text),
        Err(LoadError::WrongValue { key: AttributeKey::ResizeCornerSize })
    );
    let text = b"{\"name\":\"X\",\"dark_mode\":true,\"override_resize_corner_size\":999999.999}";
    let config = load(text).unwrap();
    assert_eq!(
        config.get(AttributeKey::ResizeCornerSize),
        Some(AttrValue::Width(999_999_999))
    );
}

#[test]
fn width_rendering_is_minimal_decimal() {
    let mut config = ThemeConfig::new();
    config.set(AttributeKey::WindowStrokeWidth, AttrValue::Width(1500));
    config.set(AttributeKey::NoninteractiveExpansion, AttrValue::Width(-250));
    config.set(AttributeKey::TextCursorWidth, AttrValue::Width(2000));
    config.set(AttributeKey::ClipRectMargin, AttrValue::Width(12));
    let text = String::from_utf8(save(&config)).unwrap();
    assert!(text.contains("\"override_window_stroke_width\":1.5,"));
    assert!(text.contains("\"override_widget_noninteractive_expansion\":-0.25,"));
    assert!(text.contains("\"override_text_cursor_width\":2,"));
    assert!(text.contains("\"override_clip_rect_margin\":0.012}"));
}

#[test]
fn representable_number_spellings_are_accepted() {
    // trailing zeros, exponents, and mixed forms of representable values
    let text = b"{\"name\":\"X\",\"dark_mode\":true,\
        \"override_window_stroke_width\":1.2500,\
        \"override_selection_stroke_width\":1e1,\
        \"override_widget_hovered_expansion\":-2.5e-1,\
        \"override_resize_corner_size\":12500e-3,\
        \"override_window_corner_radius\":6.000,\
        \"override_window_shadow_size\":2.55e2,\
        \"override_text_color\":[255.0,0e5,1.2e1,25.5E1]}";
    let config = load(text).unwrap();
    assert_eq!(config.get(AttributeKey::WindowStrokeWidth), Some(AttrValue::Width(1250)));
    assert_eq!(config.get(AttributeKey::SelectionStrokeWidth), Some(AttrValue::Width(10_000)));
    assert_eq!(config.get(AttributeKey::HoveredExpansion), Some(AttrValue::Width(-250)));
    assert_eq!(config.get(AttributeKey::ResizeCornerSize), Some(AttrValue::Width(12_500)));
    assert_eq!(config.get(AttributeKey::WindowCornerRadius), Some(AttrValue::Radius(6)));
    assert_eq!(config.get(AttributeKey::WindowShadowSize), Some(AttrValue::Radius(255)));
    assert_eq!(
        config.get(AttributeKey::TextColor),
        Some(AttrValue::Color(Rgba::new(255, 0, 12, 255)))
    );
}

#[test]
fn unrepresentable_number_spellings_are_rejected() {
    // finer than a thousandth
    let text = b"{\"name\":\"X\",\"dark_mode\":true,\"override_clip_rect_margin\":0.0001}";
    assert_eq!(
        load(text),
        Err(LoadError::WrongValue { key: AttributeKey::ClipRectMargin })
    );
    // a fractional radius
    let text = b"{\"name\":\"X\",\"dark_mode\":true,\"override_window_corner_radius\":2.5}";
    assert_eq!(
        load(text),
        Err(LoadError::WrongValue { key: AttributeKey::WindowCornerRadius })
    );
    // an exponent pushing the value out of range
    let text = b"{\"name\":\"X\",\"dark_mode\":true,\"override_resize_corner_size\":1e7}";
    assert_eq!(
        load(text),
        Err(LoadError::WrongValue { key: AttributeKey::ResizeCornerSize })
    );
    // a leading zero, which JSON itself forbids
    let text = b"{\"name\":\"X\",\"dark_mode\":true,\"override_window_corner_radius\":007}";
    assert!(load(text).is_err());
}
