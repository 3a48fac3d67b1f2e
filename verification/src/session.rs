//! Editor session state: the active override set, the preset catalog, and
//! the selection bookkeeping the interactive panel needs.
//!
//! The session holds exactly one active set. A selected preset index may
//! refer to a preset the active set has since diverged from; that is an
//! ordinary state, shown as a custom theme, not an error.

use vstd::prelude::*;

use crate::config::{ConfigModel, ThemeConfig};
use crate::keys::{key_index, key_kind, AttributeKey};
use crate::presets::{preset_model, PRESET_COUNT};
use crate::style::{apply, apply_model, base_style, resolve_base, style_wf, StyleSheet};
use crate::values::{value_kind, value_wf, AttrValue};

verus! {

/// The state behind an interactive theme editor.
pub struct EditorSession {
    config: ThemeConfig,
    presets: Vec<ThemeConfig>,
    selected_preset: Option<usize>,
    show_code_export: bool,
}

impl EditorSession {
    /// Everything the session promises to maintain: a well-formed active
    /// set, the full preset catalog, and a selection inside it.
    pub open spec fn wf(self) -> bool {
        &&& self.config()@.wf()
        &&& self.preset_list()@.len() == PRESET_COUNT
        &&& forall|i: int|
            0 <= i < PRESET_COUNT ==> (#[trigger] self.preset_list()@[i])@ == preset_model(i)
        &&& self.selected() matches Some(i) ==> i < PRESET_COUNT
    }

    /// The active override set.
    pub closed spec fn config(self) -> ThemeConfig {
        self.config
    }

    /// The preset catalog.
    pub closed spec fn preset_list(self) -> Vec<ThemeConfig> {
        self.presets
    }

    /// The selected preset index, if the active set was last loaded from
    /// one.
    pub closed spec fn selected(self) -> Option<usize> {
        self.selected_preset
    }

    /// A fresh session: the first preset active and selected, the
    /// code-export pane hidden.
    pub fn new() -> (s: EditorSession)
        ensures
            s.wf(),
            s.config()@ == preset_model(0),
            s.selected() == Some(0usize),
            !s.code_export_shown(),
    {
        EditorSession {
            config: ThemeConfig::dark_preset(),
            presets: ThemeConfig::all_presets(),
            selected_preset: Some(0),
            show_code_export: false,
        }
    }

    /// The active override set.
    pub fn current(&self) -> (c: &ThemeConfig)
        ensures
            c == self.config(),
    {
        &self.config
    }

    /// The number of presets in the catalog.
    pub fn preset_count(&self) -> (n: usize)
        ensures
            n == self.preset_list()@.len(),
    {
        self.presets.len()
    }

    /// A preset of the catalog.
    pub fn preset(&self, i: usize) -> (c: &ThemeConfig)
        requires
            i < self.preset_list()@.len(),
        ensures
            c == self.preset_list()@[i as int],
    {
        &self.presets[i]
    }

    /// The selected preset index, if any.
    pub fn selected_preset(&self) -> (r: Option<usize>)
        ensures
            r == self.selected(),
    {
        self.selected_preset
    }

    /// Whether the code-export pane is shown.
    pub closed spec fn code_export_shown(self) -> bool {
        self.show_code_export
    }

    /// Whether the code-export pane is shown.
    pub fn show_code_export(&self) -> (r: bool)
        ensures
            r == self.code_export_shown(),
    {
        self.show_code_export
    }

    /// Shows or hides the code-export pane; nothing else changes.
    pub fn set_show_code_export(&mut self, show: bool)
        ensures
            final(self).config() == old(self).config(),
            final(self).preset_list() == old(self).preset_list(),
            final(self).selected() == old(self).selected(),
            final(self).code_export_shown() == show,
    {
        self.show_code_export = show;
    }

    /// Makes a preset the active set and records the selection. Out-of-range
    /// indices are ignored.
    pub fn select_preset(&mut self, i: usize) -> (ok: bool)
        requires
            old(self).wf(),
        ensures
            final(self).wf(),
            ok == (i < old(self).preset_list()@.len()),
            ok ==> final(self).config()@ == (old(self).preset_list()@[i as int])@
                && final(self).selected() == Some(i),
            !ok ==> final(self).config() == old(self).config() && final(self).selected() == old(
                self,
            ).selected(),
            final(self).preset_list() == old(self).preset_list(),
    {
        if i < self.presets.len() {
            self.config = self.presets[i].clone();
            self.selected_preset = Some(i);
            true
        } else {
            false
        }
    }

    /// Applies one editor event: stores or clears an override, and drops
    /// the preset selection, since the set may now diverge from it.
    pub fn apply_edit(&mut self, key: AttributeKey, value: Option<AttrValue>)
        requires
            old(self).wf(),
            value matches Some(v) ==> value_kind(v) == key_kind(key) && value_wf(v),
        ensures
            final(self).wf(),
            final(self).config()@ == (ConfigModel {
                overrides: old(self).config()@.overrides.update(key_index(key), value),
                ..old(self).config()@
            }),
            final(self).selected() is None,
            final(self).preset_list() == old(self).preset_list(),
    {
        match value {
            Some(v) => self.config.set(key, v),
            None => self.config.clear(key),
        }
        self.selected_preset = None;
    }

    /// Replaces the active set wholesale, as a load or randomize does, and
    /// drops the preset selection.
    pub fn replace_config(&mut self, config: ThemeConfig)
        requires
            old(self).wf(),
            config@.wf(),
        ensures
            final(self).wf(),
            final(self).config() == config,
            final(self).selected() is None,
            final(self).preset_list() == old(self).preset_list(),
    {
        self.config = config;
        self.selected_preset = None;
    }

    /// The fully resolved style of the active set over its own mode's base.
    pub fn current_style(&self) -> (s: StyleSheet)
        requires
            self.wf(),
        ensures
            s@ == apply_model(base_style(self.config()@.dark_mode), self.config()@.overrides),
            style_wf(s@),
    {
        let base = resolve_base(self.config.dark_mode());
        apply(&base, &self.config)
    }

    /// Whether the active set still equals the selected preset; a session
    /// whose set has diverged shows as custom.
    pub fn is_custom(&self) -> (r: bool)
        requires
            self.wf(),
        ensures
            r == match self.selected() {
                Some(i) => self.config()@ != (self.preset_list()@[i as int])@,
                None => true,
            },
    {
        match self.selected_preset {
            Some(i) => !(self.config == self.presets[i]),
            None => true,
        }
    }
}

} // verus!
