//! Theme configuration and merge engine for an immediate-mode GUI style
//! system: a sparse set of typed style overrides, preset palettes, a
//! randomizer, and JSON persistence, with the merge and codec logic verified.

pub mod codegen;
pub mod config;
pub mod json;
pub mod keys;
pub mod presets;
pub mod random;
pub mod session;
pub mod style;
pub mod values;

pub use config::ThemeConfig;
pub use json::parse::{load, LoadError};
pub use json::save;
pub use session::EditorSession;
pub use style::{apply, resolve_base, StyleSheet};
pub use keys::{AttributeKey, ValueKind};
pub use values::{AttrValue, Rgba};
