//! The override set: a named, sparse mapping from attribute keys to typed
//! values, together with the built-in preset palettes.

use vstd::prelude::*;
use vstd::string::StringExecFns;

use crate::keys::{key_at, key_index, key_kind, AttributeKey, KEY_COUNT};
use crate::values::{value_kind, value_wf, AttrValue, Rgba};

verus! {

/// The mathematical model of a [`ThemeConfig`]: a display name, a mode flag,
/// and one optional typed value for each position of the attribute
/// enumeration.
#[verifier::ext_equal]
pub ghost struct ConfigModel {
    pub name: Seq<char>,
    pub dark_mode: bool,
    pub overrides: Seq<Option<AttrValue>>,
}

/// Well-formedness of an override row: one slot per attribute, each
/// populated slot holding a value of the attribute's declared kind.
pub open spec fn overrides_wf(overrides: Seq<Option<AttrValue>>) -> bool {
    &&& overrides.len() == KEY_COUNT
    &&& forall|i: int|
        0 <= i < KEY_COUNT ==> (#[trigger] overrides[i] matches Some(v) ==> value_kind(v)
            == key_kind(key_at(i)) && value_wf(v))
}

impl ConfigModel {
    /// Well-formedness of the override row.
    pub open spec fn wf(self) -> bool {
        overrides_wf(self.overrides)
    }
}

/// An all-empty override row: every attribute inherits the base style.
pub open spec fn none_overrides() -> Seq<Option<AttrValue>> {
    Seq::new(KEY_COUNT as nat, |i: int| None::<AttrValue>)
}

/// A named, sparse set of style overrides.
///
/// A key is either absent (the base style shows through) or present with a
/// fully specified value of its declared kind.
#[derive(Debug)]
pub struct ThemeConfig {
    name: String,
    dark_mode: bool,
    overrides: Vec<Option<AttrValue>>,
}

impl View for ThemeConfig {
    type V = ConfigModel;

    closed spec fn view(&self) -> ConfigModel {
        ConfigModel {
            name: self.name@,
            dark_mode: self.dark_mode,
            overrides: self.overrides@,
        }
    }
}

impl ThemeConfig {
    /// An empty override set: dark mode, named "Dark", nothing overridden.
    pub fn new() -> (c: ThemeConfig)
        ensures
            c@ == (ConfigModel { name: "Dark"@, dark_mode: true, overrides: none_overrides() }),
            c@.wf(),
    {
        let mut overrides: Vec<Option<AttrValue>> = Vec::new();
        let mut i: usize = 0;
        while i < KEY_COUNT
            invariant
                i <= KEY_COUNT,
                overrides@.len() == i,
                forall|j: int| 0 <= j < i ==> overrides@[j] is None,
            decreases KEY_COUNT - i,
        {
            overrides.push(None);
            i = i + 1;
        }
        let c = ThemeConfig { name: String::from_str("Dark"), dark_mode: true, overrides };
        proof {
            assert(c@.overrides =~= none_overrides());
        }
        c
    }

    /// The display name.
    pub fn name(&self) -> (s: &String)
        ensures
            s@ == self@.name,
    {
        &self.name
    }

    /// The mode flag selecting the base style.
    pub fn dark_mode(&self) -> (d: bool)
        ensures
            d == self@.dark_mode,
    {
        self.dark_mode
    }

    /// Renames the set; the overrides are untouched.
    pub fn set_name(&mut self, name: String)
        ensures
            final(self)@ == (ConfigModel { name: name@, ..old(self)@ }),
    {
        self.name = name;
    }

    /// Switches the mode flag; the overrides are untouched.
    pub fn set_dark_mode(&mut self, dark_mode: bool)
        ensures
            final(self)@ == (ConfigModel { dark_mode, ..old(self)@ }),
    {
        self.dark_mode = dark_mode;
    }

    /// The override stored for a key, if any.
    pub fn get(&self, key: AttributeKey) -> (v: Option<AttrValue>)
        requires
            self@.wf(),
        ensures
            v == self@.overrides[key_index(key)],
    {
        proof {
            crate::keys::lemma_key_order();
        }
        self.overrides[key.index()]
    }

    /// The override stored at a position of the enumeration order, if any.
    pub fn get_at(&self, i: usize) -> (v: Option<AttrValue>)
        requires
            self@.wf(),
            i < KEY_COUNT,
        ensures
            v == self@.overrides[i as int],
    {
        self.overrides[i]
    }

    /// Stores an override for a key. The value must be of the key's kind
    /// and within the representable range.
    pub fn set(&mut self, key: AttributeKey, value: AttrValue)
        requires
            old(self)@.wf(),
            value_kind(value) == key_kind(key),
            value_wf(value),
        ensures
            final(self)@ == (ConfigModel {
                overrides: old(self)@.overrides.update(key_index(key), Some(value)),
                ..old(self)@
            }),
            final(self)@.wf(),
    {
        proof {
            crate::keys::lemma_key_order();
        }
        let i = key.index();
        self.overrides.set(i, Some(value));
    }

    /// Removes the override for a key, so that it inherits the base again.
    pub fn clear(&mut self, key: AttributeKey)
        requires
            old(self)@.wf(),
        ensures
            final(self)@ == (ConfigModel {
                overrides: old(self)@.overrides.update(key_index(key), None),
                ..old(self)@
            }),
            final(self)@.wf(),
    {
        proof {
            crate::keys::lemma_key_order();
        }
        let i = key.index();
        self.overrides.set(i, None);
    }

    /// Assembles an override set from already-validated parts.
    pub(crate) fn from_parts(
        name: String,
        dark_mode: bool,
        overrides: Vec<Option<AttrValue>>,
    ) -> (c: ThemeConfig)
        requires
            overrides@.len() == KEY_COUNT,
        ensures
            c@ == (ConfigModel { name: name@, dark_mode, overrides: overrides@ }),
    {
        ThemeConfig { name, dark_mode, overrides }
    }

    /// True when no key is overridden.
    pub fn is_empty(&self) -> (r: bool)
        requires
            self@.wf(),
        ensures
            r == (self@.overrides =~= none_overrides()),
    {
        let mut i: usize = 0;
        while i < KEY_COUNT
            invariant
                self@.wf(),
                i <= KEY_COUNT,
                forall|j: int| 0 <= j < i ==> self@.overrides[j] is None,
            decreases KEY_COUNT - i,
        {
            if self.overrides[i].is_some() {
                return false;
            }
            i = i + 1;
        }
        true
    }
}

impl Clone for ThemeConfig {
    fn clone(&self) -> (c: Self)
        ensures
            c@ == self@,
    {
        let mut overrides: Vec<Option<AttrValue>> = Vec::new();
        let mut i: usize = 0;
        while i < self.overrides.len()
            invariant
                i <= self.overrides@.len(),
                overrides@.len() == i,
                forall|j: int| 0 <= j < i ==> overrides@[j] == self.overrides@[j],
            decreases self.overrides@.len() - i,
        {
            overrides.push(self.overrides[i]);
            i = i + 1;
        }
        let c = ThemeConfig { name: self.name.clone(), dark_mode: self.dark_mode, overrides };
        proof {
            assert(c@.overrides =~= self@.overrides);
        }
        c
    }
}

impl Default for ThemeConfig {
    fn default() -> (c: Self)
        ensures
            c@ == (ConfigModel { name: "Dark"@, dark_mode: true, overrides: none_overrides() }),
            c@.wf(),
    {
        ThemeConfig::new()
    }
}

impl PartialEq for ThemeConfig {
    fn eq(&self, other: &Self) -> (r: bool) {
        if !(self.name == other.name) || self.dark_mode != other.dark_mode {
            return false;
        }
        if self.overrides.len() != other.overrides.len() {
            return false;
        }
        let mut i: usize = 0;
        while i < self.overrides.len()
            invariant
                i <= self.overrides@.len(),
                self.overrides@.len() == other.overrides@.len(),
                self@.name == other@.name,
                self@.dark_mode == other@.dark_mode,
                forall|j: int| 0 <= j < i ==> self.overrides@[j] == other.overrides@[j],
            decreases self.overrides@.len() - i,
        {
            let same = match (self.overrides[i], other.overrides[i]) {
                (None, None) => true,
                (Some(a), Some(b)) => a == b,
                _ => false,
            };
            if !same {
                return false;
            }
            i = i + 1;
        }
        proof {
            assert(self@.overrides =~= other@.overrides);
        }
        true
    }
}

impl vstd::std_specs::cmp::PartialEqSpecImpl for ThemeConfig {
    open spec fn obeys_eq_spec() -> bool {
        true
    }

    open spec fn eq_spec(&self, other: &Self) -> bool {
        self@ == other@
    }
}

impl Eq for ThemeConfig {

}

} // verus!
