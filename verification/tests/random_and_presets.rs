use egui_thematic::keys::KEY_COUNT;
use egui_thematic::{AttrValue, AttributeKey, Rgba, ThemeConfig};

const HEADLINE_KEYS: [AttributeKey; 10] = [
    AttributeKey::TextColor,
    AttributeKey::WindowFill,
    AttributeKey::PanelFill,
    AttributeKey::SelectionBg,
    AttributeKey::HyperlinkColor,
    AttributeKey::FaintBgColor,
    AttributeKey::ExtremeBgColor,
    AttributeKey::CodeBgColor,
    AttributeKey::WarnFgColor,
    AttributeKey::ErrorFgColor,
];

#[test]
fn randomize_populates_exactly_the_headline_colors() {
    let config = ThemeConfig::randomize();
    assert_eq!(config.name().as_str(), "Random");
    for key in HEADLINE_KEYS {
        match config.get(key) {
            Some(AttrValue::Color(c)) => assert_eq!(c.a, 255),
            other => panic!("headline key not a color: {:?}", other),
        }
    }
    let populated = (0..KEY_COUNT)
        .filter(|i| config.get_at(*i).is_some())
        .count();
    assert_eq!(populated, HEADLINE_KEYS.len());
}

#[test]
fn randomize_alpha_is_always_opaque() {
    for seed in 0..200u64 {
        let config = ThemeConfig::randomize_seeded(seed);
        for i in 0..KEY_COUNT {
            if let Some(AttrValue::Color(c)) = config.get_at(i) {
                assert_eq!(c.a, 255);
            }
        }
    }
}

#[test]
fn randomize_seeded_is_reproducible() {
    let a = ThemeConfig::randomize_seeded(42);
    let b = ThemeConfig::randomize_seeded(42);
    assert!(a == b);
    let c = ThemeConfig::randomize_seeded(43);
    // a different seed almost surely differs in thirty drawn bytes
    assert!(a != c);
}

#[test]
fn randomize_mode_flag_is_roughly_balanced() {
    let mut dark = 0u32;
    for seed in 0..10_000u64 {
        if ThemeConfig::randomize_seeded(seed).dark_mode() {
            dark += 1;
        }
    }
    assert!(4_500 < dark && dark < 5_500, "dark count {dark} outside tolerance");
}

#[test]
fn catalog_has_eleven_presets_in_order() {
    let presets = ThemeConfig::all_presets();
    assert_eq!(presets.len(), 11);
    let names: Vec<&str> = presets.iter().map(|p| p.name().as_str()).collect();
    assert_eq!(
        names,
        [
            "Dark",
            "Light",
            "Dracula",
            "Nord",
            "Gruvbox Dark",
            "Solarized Dark",
            "Solarized Light",
            "Monokai",
            "One Dark",
            "Tokyo Night",
            "Catppuccin Mocha",
        ]
    );
}

#[test]
fn preset_factories_are_value_stable() {
    assert!(ThemeConfig::dracula_preset() == ThemeConfig::dracula_preset());
    assert!(ThemeConfig::light_preset() == ThemeConfig::light_preset());
    assert!(ThemeConfig::dark_preset() != ThemeConfig::light_preset());
}

#[test]
fn dracula_preset_colors() {
    let dracula = ThemeConfig::dracula_preset();
    assert!(dracula.dark_mode());
    assert_eq!(
        dracula.get(AttributeKey::TextColor),
        Some(AttrValue::Color(Rgba::opaque(248, 248, 242)))
    );
    assert_eq!(
        dracula.get(AttributeKey::WindowFill),
        Some(AttrValue::Color(Rgba::opaque(40, 42, 54)))
    );
    assert_eq!(
        dracula.get(AttributeKey::ErrorFgColor),
        Some(AttrValue::Color(Rgba::opaque(255, 85, 85)))
    );
    assert!(dracula.get(AttributeKey::Striped).is_none());
}

#[test]
fn plain_presets_override_nothing() {
    assert!(ThemeConfig::dark_preset().is_empty());
    assert!(ThemeConfig::light_preset().is_empty());
    assert!(!ThemeConfig::nord_preset().is_empty());
}
