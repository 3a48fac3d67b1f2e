//! JSON persistence for override sets: a byte-exact writer and a parser,
//! with the round trip proved.
//!
//! [`save`] emits exactly [`format::save_bytes`] of a set's model, and
//! [`parse::load`] decides exactly [`parse_spec::parse_document`];
//! [`roundtrip::lemma_save_parses`] closes the loop, so reloading a saved
//! set always returns the set itself.

pub mod emit;
pub mod format;
pub mod parse;
pub mod parse_spec;
pub mod roundtrip;

use vstd::prelude::*;

use crate::config::ThemeConfig;
use crate::json::format::{member_bytes, members_upto, save_bytes, COMMA, LBRACE, RBRACE};
use crate::keys::{AttributeKey, KEY_COUNT};

verus! {

/// Serializes an override set to its canonical JSON document.
///
/// The output is exactly [`save_bytes`] of the set's model: one compact
/// object holding `name`, `dark_mode`, and one member per populated key in
/// enumeration order.
pub fn save(config: &ThemeConfig) -> (out: Vec<u8>)
    requires
        config@.wf(),
    ensures
        out@ == save_bytes(config@),
{
    let mut out: Vec<u8> = Vec::new();
    out.push(LBRACE);
    emit::push_member_name(&mut out, "name");
    emit::push_quoted(&mut out, config.name().as_str().as_bytes());
    out.push(COMMA);
    emit::push_member_name(&mut out, "dark_mode");
    emit::push_bool(&mut out, config.dark_mode());
    let ghost header = out@;
    proof {
        assert(header =~= seq![LBRACE] + member_bytes(
            "name"@,
            format::quoted(vstd::utf8::encode_utf8(config@.name)),
        ) + seq![COMMA] + member_bytes("dark_mode"@, format::bool_bytes(config@.dark_mode)));
    }
    let mut i: usize = 0;
    while i < KEY_COUNT
        invariant
            config@.wf(),
            i <= KEY_COUNT,
            out@ == header + members_upto(config@, i as int),
        decreases KEY_COUNT - i,
    {
        match config.get_at(i) {
            Some(v) => {
                out.push(COMMA);
                let key = AttributeKey::from_index(i);
                emit::push_member_name(&mut out, key.json_name());
                emit::push_value(&mut out, &v);
            },
            None => {
            },
        }
        proof {
            assert(out@ =~= header + members_upto(config@, i + 1));
        }
        i = i + 1;
    }
    out.push(RBRACE);
    proof {
        assert(out@ =~= save_bytes(config@));
    }
    out
}

} // verus!
