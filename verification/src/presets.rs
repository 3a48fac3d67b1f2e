//! The built-in preset palettes: a fixed, ordered catalog of named
//! override sets.
//!
//! The two plain presets override nothing beyond the mode flag; the richer
//! palettes populate the ten headline color keys.

use vstd::prelude::*;
use vstd::string::StringExecFns;

use crate::config::{none_overrides, ConfigModel, ThemeConfig};
use crate::values::{AttrValue, Rgba};

verus! {

/// The override row that populates the ten headline color keys — text,
/// window fill, panel fill, selection background, hyperlink, faint, extreme
/// and code backgrounds, warning and error foreground — with the given
/// colors, in that order, and leaves every other key unset.
pub open spec fn headline_overrides(cs: Seq<Rgba>) -> Seq<Option<AttrValue>> {
    none_overrides().update(0, Some(AttrValue::Color(cs[0]))).update(
        8,
        Some(AttrValue::Color(cs[1])),
    ).update(13, Some(AttrValue::Color(cs[2]))).update(15, Some(AttrValue::Color(cs[3]))).update(
        2,
        Some(AttrValue::Color(cs[4])),
    ).update(3, Some(AttrValue::Color(cs[5]))).update(4, Some(AttrValue::Color(cs[6]))).update(
        5,
        Some(AttrValue::Color(cs[7])),
    ).update(6, Some(AttrValue::Color(cs[8]))).update(7, Some(AttrValue::Color(cs[9])))
}

/// Every row of headline overrides is well-formed: the ten populated keys
/// are color keys and carry color values.
pub proof fn lemma_headline_wf(cs: Seq<Rgba>)
    ensures
        crate::config::overrides_wf(headline_overrides(cs)),
{
}

/// Builds a named override set that populates the ten headline color keys.
pub(crate) fn headline_preset(name: &str, dark_mode: bool, cs: &Vec<Rgba>) -> (c: ThemeConfig)
    requires
        cs@.len() == 10,
    ensures
        c@ == (ConfigModel { name: name@, dark_mode, overrides: headline_overrides(cs@) }),
        c@.wf(),
{
    let mut c = ThemeConfig::new();
    c.set_name(String::from_str(name));
    c.set_dark_mode(dark_mode);
    c.set(crate::keys::AttributeKey::TextColor, AttrValue::Color(cs[0]));
    c.set(crate::keys::AttributeKey::WindowFill, AttrValue::Color(cs[1]));
    c.set(crate::keys::AttributeKey::PanelFill, AttrValue::Color(cs[2]));
    c.set(crate::keys::AttributeKey::SelectionBg, AttrValue::Color(cs[3]));
    c.set(crate::keys::AttributeKey::HyperlinkColor, AttrValue::Color(cs[4]));
    c.set(crate::keys::AttributeKey::FaintBgColor, AttrValue::Color(cs[5]));
    c.set(crate::keys::AttributeKey::ExtremeBgColor, AttrValue::Color(cs[6]));
    c.set(crate::keys::AttributeKey::CodeBgColor, AttrValue::Color(cs[7]));
    c.set(crate::keys::AttributeKey::WarnFgColor, AttrValue::Color(cs[8]));
    c.set(crate::keys::AttributeKey::ErrorFgColor, AttrValue::Color(cs[9]));
    proof {
        assert(c@.overrides =~= headline_overrides(cs@));
    }
    c
}

/// The colors of the Dracula palette, in headline key order.
pub open spec fn dracula_colors() -> Seq<Rgba> {
    seq![
        Rgba { r: 248, g: 248, b: 242, a: 255 },
        Rgba { r: 40, g: 42, b: 54, a: 255 },
        Rgba { r: 68, g: 71, b: 90, a: 255 },
        Rgba { r: 98, g: 114, b: 164, a: 255 },
        Rgba { r: 139, g: 233, b: 253, a: 255 },
        Rgba { r: 68, g: 71, b: 90, a: 255 },
        Rgba { r: 21, g: 22, b: 30, a: 255 },
        Rgba { r: 68, g: 71, b: 90, a: 255 },
        Rgba { r: 241, g: 250, b: 140, a: 255 },
        Rgba { r: 255, g: 85, b: 85, a: 255 },
    ]
}

/// The colors of the Nord palette, in headline key order.
pub open spec fn nord_colors() -> Seq<Rgba> {
    seq![
        Rgba { r: 216, g: 222, b: 233, a: 255 },
        Rgba { r: 46, g: 52, b: 64, a: 255 },
        Rgba { r: 59, g: 66, b: 82, a: 255 },
        Rgba { r: 136, g: 192, b: 208, a: 255 },
        Rgba { r: 136, g: 192, b: 208, a: 255 },
        Rgba { r: 59, g: 66, b: 82, a: 255 },
        Rgba { r: 29, g: 33, b: 42, a: 255 },
        Rgba { r: 59, g: 66, b: 82, a: 255 },
        Rgba { r: 235, g: 203, b: 139, a: 255 },
        Rgba { r: 191, g: 97, b: 106, a: 255 },
    ]
}

/// The colors of the Gruvbox Dark palette, in headline key order.
pub open spec fn gruvbox_dark_colors() -> Seq<Rgba> {
    seq![
        Rgba { r: 235, g: 219, b: 178, a: 255 },
        Rgba { r: 40, g: 40, b: 40, a: 255 },
        Rgba { r: 60, g: 56, b: 54, a: 255 },
        Rgba { r: 102, g: 92, b: 84, a: 255 },
        Rgba { r: 131, g: 165, b: 152, a: 255 },
        Rgba { r: 60, g: 56, b: 54, a: 255 },
        Rgba { r: 29, g: 32, b: 33, a: 255 },
        Rgba { r: 60, g: 56, b: 54, a: 255 },
        Rgba { r: 250, g: 189, b: 47, a: 255 },
        Rgba { r: 251, g: 73, b: 52, a: 255 },
    ]
}

/// The colors of the Solarized Dark palette, in headline key order.
pub open spec fn solarized_dark_colors() -> Seq<Rgba> {
    seq![
        Rgba { r: 131, g: 148, b: 150, a: 255 },
        Rgba { r: 0, g: 43, b: 54, a: 255 },
        Rgba { r: 7, g: 54, b: 66, a: 255 },
        Rgba { r: 88, g: 110, b: 117, a: 255 },
        Rgba { r: 42, g: 161, b: 152, a: 255 },
        Rgba { r: 7, g: 54, b: 66, a: 255 },
        Rgba { r: 0, g: 30, b: 38, a: 255 },
        Rgba { r: 7, g: 54, b: 66, a: 255 },
        Rgba { r: 181, g: 137, b: 0, a: 255 },
        Rgba { r: 220, g: 50, b: 47, a: 255 },
    ]
}

/// The colors of the Solarized Light palette, in headline key order.
pub open spec fn solarized_light_colors() -> Seq<Rgba> {
    seq![
        Rgba { r: 101, g: 123, b: 131, a: 255 },
        Rgba { r: 253, g: 246, b: 227, a: 255 },
        Rgba { r: 238, g: 232, b: 213, a: 255 },
        Rgba { r: 147, g: 161, b: 161, a: 255 },
        Rgba { r: 38, g: 139, b: 210, a: 255 },
        Rgba { r: 238, g: 232, b: 213, a: 255 },
        Rgba { r: 253, g: 246, b: 227, a: 255 },
        Rgba { r: 238, g: 232, b: 213, a: 255 },
        Rgba { r: 181, g: 137, b: 0, a: 255 },
        Rgba { r: 220, g: 50, b: 47, a: 255 },
    ]
}

/// The colors of the Monokai palette, in headline key order.
pub open spec fn monokai_colors() -> Seq<Rgba> {
    seq![
        Rgba { r: 248, g: 248, b: 242, a: 255 },
        Rgba { r: 39, g: 40, b: 34, a: 255 },
        Rgba { r: 73, g: 72, b: 62, a: 255 },
        Rgba { r: 73, g: 72, b: 62, a: 255 },
        Rgba { r: 102, g: 217, b: 239, a: 255 },
        Rgba { r: 73, g: 72, b: 62, a: 255 },
        Rgba { r: 30, g: 31, b: 25, a: 255 },
        Rgba { r: 73, g: 72, b: 62, a: 255 },
        Rgba { r: 230, g: 219, b: 116, a: 255 },
        Rgba { r: 249, g: 38, b: 114, a: 255 },
    ]
}

/// The colors of the One Dark palette, in headline key order.
pub open spec fn one_dark_colors() -> Seq<Rgba> {
    seq![
        Rgba { r: 171, g: 178, b: 191, a: 255 },
        Rgba { r: 40, g: 44, b: 52, a: 255 },
        Rgba { r: 33, g: 37, b: 43, a: 255 },
        Rgba { r: 61, g: 66, b: 77, a: 255 },
        Rgba { r: 97, g: 175, b: 239, a: 255 },
        Rgba { r: 33, g: 37, b: 43, a: 255 },
        Rgba { r: 21, g: 23, b: 27, a: 255 },
        Rgba { r: 33, g: 37, b: 43, a: 255 },
        Rgba { r: 229, g: 192, b: 123, a: 255 },
        Rgba { r: 224, g: 108, b: 117, a: 255 },
    ]
}

/// The colors of the Tokyo Night palette, in headline key order.
pub open spec fn tokyo_night_colors() -> Seq<Rgba> {
    seq![
        Rgba { r: 192, g: 202, b: 245, a: 255 },
        Rgba { r: 26, g: 27, b: 38, a: 255 },
        Rgba { r: 36, g: 40, b: 59, a: 255 },
        Rgba { r: 56, g: 62, b: 90, a: 255 },
        Rgba { r: 122, g: 162, b: 247, a: 255 },
        Rgba { r: 36, g: 40, b: 59, a: 255 },
        Rgba { r: 16, g: 17, b: 28, a: 255 },
        Rgba { r: 36, g: 40, b: 59, a: 255 },
        Rgba { r: 224, g: 175, b: 104, a: 255 },
        Rgba { r: 247, g: 118, b: 142, a: 255 },
    ]
}

/// The colors of the Catppuccin Mocha palette, in headline key order.
pub open spec fn catppuccin_mocha_colors() -> Seq<Rgba> {
    seq![
        Rgba { r: 205, g: 214, b: 244, a: 255 },
        Rgba { r: 30, g: 30, b: 46, a: 255 },
        Rgba { r: 49, g: 50, b: 68, a: 255 },
        Rgba { r: 88, g: 91, b: 112, a: 255 },
        Rgba { r: 137, g: 180, b: 250, a: 255 },
        Rgba { r: 49, g: 50, b: 68, a: 255 },
        Rgba { r: 17, g: 17, b: 27, a: 255 },
        Rgba { r: 49, g: 50, b: 68, a: 255 },
        Rgba { r: 249, g: 226, b: 175, a: 255 },
        Rgba { r: 243, g: 139, b: 168, a: 255 },
    ]
}

/// The model of the preset at a catalog position.
pub open spec fn preset_model(i: int) -> ConfigModel {
    if i == 0 {
        ConfigModel { name: "Dark"@, dark_mode: true, overrides: none_overrides() }
    } else if i == 1 {
        ConfigModel { name: "Light"@, dark_mode: false, overrides: none_overrides() }
    } else if i == 2 {
        ConfigModel { name: "Dracula"@, dark_mode: true, overrides: headline_overrides(dracula_colors()) }
    } else if i == 3 {
        ConfigModel { name: "Nord"@, dark_mode: true, overrides: headline_overrides(nord_colors()) }
    } else if i == 4 {
        ConfigModel { name: "Gruvbox Dark"@, dark_mode: true, overrides: headline_overrides(gruvbox_dark_colors()) }
    } else if i == 5 {
        ConfigModel { name: "Solarized Dark"@, dark_mode: true, overrides: headline_overrides(solarized_dark_colors()) }
    } else if i == 6 {
        ConfigModel { name: "Solarized Light"@, dark_mode: false, overrides: headline_overrides(solarized_light_colors()) }
    } else if i == 7 {
        ConfigModel { name: "Monokai"@, dark_mode: true, overrides: headline_overrides(monokai_colors()) }
    } else if i == 8 {
        ConfigModel { name: "One Dark"@, dark_mode: true, overrides: headline_overrides(one_dark_colors()) }
    } else if i == 9 {
        ConfigModel { name: "Tokyo Night"@, dark_mode: true, overrides: headline_overrides(tokyo_night_colors()) }
    } else if i == 10 {
        ConfigModel { name: "Catppuccin Mocha"@, dark_mode: true, overrides: headline_overrides(catppuccin_mocha_colors()) }
    } else {
        ConfigModel { name: "Dark"@, dark_mode: true, overrides: none_overrides() }
    }
}

/// Number of built-in presets.
pub const PRESET_COUNT: usize = 11;

impl ThemeConfig {
    /// The built-in "Dark" preset.
    pub fn dark_preset() -> (c: ThemeConfig)
        ensures
            c@ == preset_model(0),
            c@.wf(),
    {
        let mut c = ThemeConfig::new();
        c.set_name(String::from_str("Dark"));
        c.set_dark_mode(true);
        c
    }

    /// The built-in "Light" preset.
    pub fn light_preset() -> (c: ThemeConfig)
        ensures
            c@ == preset_model(1),
            c@.wf(),
    {
        let mut c = ThemeConfig::new();
        c.set_name(String::from_str("Light"));
        c.set_dark_mode(false);
        c
    }

    /// The built-in "Dracula" preset.
    pub fn dracula_preset() -> (c: ThemeConfig)
        ensures
            c@ == preset_model(2),
            c@.wf(),
    {
        let mut cs: Vec<Rgba> = Vec::new();
        cs.push(Rgba { r: 248, g: 248, b: 242, a: 255 });
        cs.push(Rgba { r: 40, g: 42, b: 54, a: 255 });
        cs.push(Rgba { r: 68, g: 71, b: 90, a: 255 });
        cs.push(Rgba { r: 98, g: 114, b: 164, a: 255 });
        cs.push(Rgba { r: 139, g: 233, b: 253, a: 255 });
        cs.push(Rgba { r: 68, g: 71, b: 90, a: 255 });
        cs.push(Rgba { r: 21, g: 22, b: 30, a: 255 });
        cs.push(Rgba { r: 68, g: 71, b: 90, a: 255 });
        cs.push(Rgba { r: 241, g: 250, b: 140, a: 255 });
        cs.push(Rgba { r: 255, g: 85, b: 85, a: 255 });
        proof {
            assert(cs@ =~= dracula_colors());
        }
        headline_preset("Dracula", true, &cs)
    }

    /// The built-in "Nord" preset.
    pub fn nord_preset() -> (c: ThemeConfig)
        ensures
            c@ == preset_model(3),
            c@.wf(),
    {
        let mut cs: Vec<Rgba> = Vec::new();
        cs.push(Rgba { r: 216, g: 222, b: 233, a: 255 });
        cs.push(Rgba { r: 46, g: 52, b: 64, a: 255 });
        cs.push(Rgba { r: 59, g: 66, b: 82, a: 255 });
        cs.push(Rgba { r: 136, g: 192, b: 208, a: 255 });
        cs.push(Rgba { r: 136, g: 192, b: 208, a: 255 });
        cs.push(Rgba { r: 59, g: 66, b: 82, a: 255 });
        cs.push(Rgba { r: 29, g: 33, b: 42, a: 255 });
        cs.push(Rgba { r: 59, g: 66, b: 82, a: 255 });
        cs.push(Rgba { r: 235, g: 203, b: 139, a: 255 });
        cs.push(Rgba { r: 191, g: 97, b: 106, a: 255 });
        proof {
            assert(cs@ =~= nord_colors());
        }
        headline_preset("Nord", true, &cs)
    }

    /// The built-in "Gruvbox Dark" preset.
    pub fn gruvbox_dark_preset() -> (c: ThemeConfig)
        ensures
            c@ == preset_model(4),
            c@.wf(),
    {
        let mut cs: Vec<Rgba> = Vec::new();
        cs.push(Rgba { r: 235, g: 219, b: 178, a: 255 });
        cs.push(Rgba { r: 40, g: 40, b: 40, a: 255 });
        cs.push(Rgba { r: 60, g: 56, b: 54, a: 255 });
        cs.push(Rgba { r: 102, g: 92, b: 84, a: 255 });
        cs.push(Rgba { r: 131, g: 165, b: 152, a: 255 });
        cs.push(Rgba { r: 60, g: 56, b: 54, a: 255 });
        cs.push(Rgba { r: 29, g: 32, b: 33, a: 255 });
        cs.push(Rgba { r: 60, g: 56, b: 54, a: 255 });
        cs.push(Rgba { r: 250, g: 189, b: 47, a: 255 });
        cs.push(Rgba { r: 251, g: 73, b: 52, a: 255 });
        proof {
            assert(cs@ =~= gruvbox_dark_colors());
        }
        headline_preset("Gruvbox Dark", true, &cs)
    }

    /// The built-in "Solarized Dark" preset.
    pub fn solarized_dark_preset() -> (c: ThemeConfig)
        ensures
            c@ == preset_model(5),
            c@.wf(),
    {
        let mut cs: Vec<Rgba> = Vec::new();
        cs.push(Rgba { r: 131, g: 148, b: 150, a: 255 });
        cs.push(Rgba { r: 0, g: 43, b: 54, a: 255 });
        cs.push(Rgba { r: 7, g: 54, b: 66, a: 255 });
        cs.push(Rgba { r: 88, g: 110, b: 117, a: 255 });
        cs.push(Rgba { r: 42, g: 161, b: 152, a: 255 });
        cs.push(Rgba { r: 7, g: 54, b: 66, a: 255 });
        cs.push(Rgba { r: 0, g: 30, b: 38, a: 255 });
        cs.push(Rgba { r: 7, g: 54, b: 66, a: 255 });
        cs.push(Rgba { r: 181, g: 137, b: 0, a: 255 });
        cs.push(Rgba { r: 220, g: 50, b: 47, a: 255 });
        proof {
            assert(cs@ =~= solarized_dark_colors());
        }
        headline_preset("Solarized Dark", true, &cs)
    }

    /// The built-in "Solarized Light" preset.
    pub fn solarized_light_preset() -> (c: ThemeConfig)
        ensures
            c@ == preset_model(6),
            c@.wf(),
    {
        let mut cs: Vec<Rgba> = Vec::new();
        cs.push(Rgba { r: 101, g: 123, b: 131, a: 255 });
        cs.push(Rgba { r: 253, g: 246, b: 227, a: 255 });
        cs.push(Rgba { r: 238, g: 232, b: 213, a: 255 });
        cs.push(Rgba { r: 147, g: 161, b: 161, a: 255 });
        cs.push(Rgba { r: 38, g: 139, b: 210, a: 255 });
        cs.push(Rgba { r: 238, g: 232, b: 213, a: 255 });
        cs.push(Rgba { r: 253, g: 246, b: 227, a: 255 });
        cs.push(Rgba { r: 238, g: 232, b: 213, a: 255 });
        cs.push(Rgba { r: 181, g: 137, b: 0, a: 255 });
        cs.push(Rgba { r: 220, g: 50, b: 47, a: 255 });
        proof {
            assert(cs@ =~= solarized_light_colors());
        }
        headline_preset("Solarized Light", false, &cs)
    }

    /// The built-in "Monokai" preset.
    pub fn monokai_preset() -> (c: ThemeConfig)
        ensures
            c@ == preset_model(7),
            c@.wf(),
    {
        let mut cs: Vec<Rgba> = Vec::new();
        cs.push(Rgba { r: 248, g: 248, b: 242, a: 255 });
        cs.push(Rgba { r: 39, g: 40, b: 34, a: 255 });
        cs.push(Rgba { r: 73, g: 72, b: 62, a: 255 });
        cs.push(Rgba { r: 73, g: 72, b: 62, a: 255 });
        cs.push(Rgba { r: 102, g: 217, b: 239, a: 255 });
        cs.push(Rgba { r: 73, g: 72, b: 62, a: 255 });
        cs.push(Rgba { r: 30, g: 31, b: 25, a: 255 });
        cs.push(Rgba { r: 73, g: 72, b: 62, a: 255 });
        cs.push(Rgba { r: 230, g: 219, b: 116, a: 255 });
        cs.push(Rgba { r: 249, g: 38, b: 114, a: 255 });
        proof {
            assert(cs@ =~= monokai_colors());
        }
        headline_preset("Monokai", true, &cs)
    }

    /// The built-in "One Dark" preset.
    pub fn one_dark_preset() -> (c: ThemeConfig)
        ensures
            c@ == preset_model(8),
            c@.wf(),
    {
        let mut cs: Vec<Rgba> = Vec::new();
        cs.push(Rgba { r: 171, g: 178, b: 191, a: 255 });
        cs.push(Rgba { r: 40, g: 44, b: 52, a: 255 });
        cs.push(Rgba { r: 33, g: 37, b: 43, a: 255 });
        cs.push(Rgba { r: 61, g: 66, b: 77, a: 255 });
        cs.push(Rgba { r: 97, g: 175, b: 239, a: 255 });
        cs.push(Rgba { r: 33, g: 37, b: 43, a: 255 });
        cs.push(Rgba { r: 21, g: 23, b: 27, a: 255 });
        cs.push(Rgba { r: 33, g: 37, b: 43, a: 255 });
        cs.push(Rgba { r: 229, g: 192, b: 123, a: 255 });
        cs.push(Rgba { r: 224, g: 108, b: 117, a: 255 });
        proof {
            assert(cs@ =~= one_dark_colors());
        }
        headline_preset("One Dark", true, &cs)
    }

    /// The built-in "Tokyo Night" preset.
    pub fn tokyo_night_preset() -> (c: ThemeConfig)
        ensures
            c@ == preset_model(9),
            c@.wf(),
    {
        let mut cs: Vec<Rgba> = Vec::new();
        cs.push(Rgba { r: 192, g: 202, b: 245, a: 255 });
        cs.push(Rgba { r: 26, g: 27, b: 38, a: 255 });
        cs.push(Rgba { r: 36, g: 40, b: 59, a: 255 });
        cs.push(Rgba { r: 56, g: 62, b: 90, a: 255 });
        cs.push(Rgba { r: 122, g: 162, b: 247, a: 255 });
        cs.push(Rgba { r: 36, g: 40, b: 59, a: 255 });
        cs.push(Rgba { r: 16, g: 17, b: 28, a: 255 });
        cs.push(Rgba { r: 36, g: 40, b: 59, a: 255 });
        cs.push(Rgba { r: 224, g: 175, b: 104, a: 255 });
        cs.push(Rgba { r: 247, g: 118, b: 142, a: 255 });
        proof {
            assert(cs@ =~= tokyo_night_colors());
        }
        headline_preset("Tokyo Night", true, &cs)
    }

    /// The built-in "Catppuccin Mocha" preset.
    pub fn catppuccin_mocha_preset() -> (c: ThemeConfig)
        ensures
            c@ == preset_model(10),
            c@.wf(),
    {
        let mut cs: Vec<Rgba> = Vec::new();
        cs.push(Rgba { r: 205, g: 214, b: 244, a: 255 });
        cs.push(Rgba { r: 30, g: 30, b: 46, a: 255 });
        cs.push(Rgba { r: 49, g: 50, b: 68, a: 255 });
        cs.push(Rgba { r: 88, g: 91, b: 112, a: 255 });
        cs.push(Rgba { r: 137, g: 180, b: 250, a: 255 });
        cs.push(Rgba { r: 49, g: 50, b: 68, a: 255 });
        cs.push(Rgba { r: 17, g: 17, b: 27, a: 255 });
        cs.push(Rgba { r: 49, g: 50, b: 68, a: 255 });
        cs.push(Rgba { r: 249, g: 226, b: 175, a: 255 });
        cs.push(Rgba { r: 243, g: 139, b: 168, a: 255 });
        proof {
            assert(cs@ =~= catppuccin_mocha_colors());
        }
        headline_preset("Catppuccin Mocha", true, &cs)
    }

    /// The fixed, ordered catalog of built-in presets.
    pub fn all_presets() -> (v: Vec<ThemeConfig>)
        ensures
            v@.len() == PRESET_COUNT,
            forall|i: int| 0 <= i < PRESET_COUNT ==> (#[trigger] v@[i])@ == preset_model(i),
            forall|i: int| 0 <= i < PRESET_COUNT ==> (#[trigger] v@[i])@.wf(),
    {
        let mut v: Vec<ThemeConfig> = Vec::new();
        v.push(ThemeConfig::dark_preset());
        v.push(ThemeConfig::light_preset());
        v.push(ThemeConfig::dracula_preset());
        v.push(ThemeConfig::nord_preset());
        v.push(ThemeConfig::gruvbox_dark_preset());
        v.push(ThemeConfig::solarized_dark_preset());
        v.push(ThemeConfig::solarized_light_preset());
        v.push(ThemeConfig::monokai_preset());
        v.push(ThemeConfig::one_dark_preset());
        v.push(ThemeConfig::tokyo_night_preset());
        v.push(ThemeConfig::catppuccin_mocha_preset());
        v
    }
}

} // verus!
