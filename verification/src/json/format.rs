//! The persisted JSON format, defined byte for byte at the specification
//! level: what [`crate::json::save`] emits for a given override set.
//!
//! The document is one compact JSON object: the required `name` and
//! `dark_mode` members first, then one member per populated attribute key,
//! in enumeration order. Colors are four-element arrays, widths are decimal
//! numbers in thousandths, radii are integers, flags are booleans.

use vstd::prelude::*;
use vstd::utf8::encode_utf8;

use crate::config::ConfigModel;
use crate::keys::{key_at, key_name, KEY_COUNT};
use crate::values::{AttrValue, Rgba};

verus! {

pub const QUOTE: u8 = 34;
pub const COMMA: u8 = 44;
pub const COLON: u8 = 58;
pub const LBRACE: u8 = 123;
pub const RBRACE: u8 = 125;
pub const LBRACKET: u8 = 91;
pub const RBRACKET: u8 = 93;
pub const BACKSLASH: u8 = 92;
pub const MINUS: u8 = 45;
pub const DOT: u8 = 46;

/// The decimal digits of a number, most significant first, no leading
/// zeros.
pub open spec fn dec_bytes(n: nat) -> Seq<u8>
    decreases n,
{
    if n < 10 {
        seq![(48 + n) as u8]
    } else {
        dec_bytes(n / 10).push((48 + n % 10) as u8)
    }
}

/// The decimal rendering of a width in thousandths: whole part, then a
/// fractional part with trailing zeros dropped, then a leading minus for
/// negative widths.
pub open spec fn width_frac_bytes(frac: nat) -> Seq<u8> {
    let d1 = frac / 100;
    let d2 = (frac / 10) % 10;
    let d3 = frac % 10;
    if frac == 0 {
        seq![]
    } else if d3 != 0 {
        seq![DOT, (48 + d1) as u8, (48 + d2) as u8, (48 + d3) as u8]
    } else if d2 != 0 {
        seq![DOT, (48 + d1) as u8, (48 + d2) as u8]
    } else {
        seq![DOT, (48 + d1) as u8]
    }
}

/// The decimal rendering of a signed width in thousandths.
pub open spec fn width_bytes(w: int) -> Seq<u8> {
    let mag = if w < 0 {
        -w
    } else {
        w
    };
    let digits = dec_bytes((mag / 1000) as nat) + width_frac_bytes((mag % 1000) as nat);
    if w < 0 {
        seq![MINUS] + digits
    } else {
        digits
    }
}

/// The rendering of a boolean.
pub open spec fn bool_bytes(b: bool) -> Seq<u8> {
    if b {
        seq![116u8, 114u8, 117u8, 101u8]
    } else {
        seq![102u8, 97u8, 108u8, 115u8, 101u8]
    }
}

/// The rendering of a color: a four-element array of channel bytes.
pub open spec fn color_bytes(c: Rgba) -> Seq<u8> {
    seq![LBRACKET] + dec_bytes(c.r as nat) + seq![COMMA] + dec_bytes(c.g as nat) + seq![COMMA]
        + dec_bytes(c.b as nat) + seq![COMMA] + dec_bytes(c.a as nat) + seq![RBRACKET]
}

/// The rendering of one override value.
pub open spec fn value_bytes(v: AttrValue) -> Seq<u8> {
    match v {
        AttrValue::Color(c) => color_bytes(c),
        AttrValue::Width(w) => width_bytes(w as int),
        AttrValue::Radius(x) => dec_bytes(x as nat),
        AttrValue::Flag(b) => bool_bytes(b),
    }
}

/// The lowercase hex digit for a value below sixteen.
pub open spec fn hex_digit(d: nat) -> u8 {
    if d < 10 {
        (48 + d) as u8
    } else {
        (87 + d) as u8
    }
}

/// How one byte of string content is emitted: quotes and backslashes get a
/// backslash escape, control bytes a `\u00XX` escape, everything else —
/// further UTF-8 bytes included — passes through unchanged.
pub open spec fn esc_byte(b: u8) -> Seq<u8> {
    if b == QUOTE {
        seq![BACKSLASH, QUOTE]
    } else if b == BACKSLASH {
        seq![BACKSLASH, BACKSLASH]
    } else if b < 32 {
        seq![BACKSLASH, 117u8, 48u8, 48u8, hex_digit((b / 16) as nat), hex_digit((b % 16) as nat)]
    } else {
        seq![b]
    }
}

/// String content with every byte emitted through [`esc_byte`].
pub open spec fn escape(content: Seq<u8>) -> Seq<u8>
    decreases content.len(),
{
    if content.len() == 0 {
        seq![]
    } else {
        esc_byte(content[0]) + escape(content.drop_first())
    }
}

/// A quoted JSON string with the given content bytes.
pub open spec fn quoted(content: Seq<u8>) -> Seq<u8> {
    seq![QUOTE] + escape(content) + seq![QUOTE]
}

/// One object member: quoted field name, colon, payload.
pub open spec fn member_bytes(name: Seq<char>, payload: Seq<u8>) -> Seq<u8> {
    quoted(encode_utf8(name)) + seq![COLON] + payload
}

/// The members for the first `n` attribute keys, each populated one
/// preceded by a comma, in enumeration order.
pub open spec fn members_upto(m: ConfigModel, n: int) -> Seq<u8>
    decreases n,
{
    if n <= 0 {
        seq![]
    } else {
        members_upto(m, n - 1) + (match m.overrides[n - 1] {
            Some(v) => seq![COMMA] + member_bytes(key_name(key_at(n - 1)), value_bytes(v)),
            None => seq![],
        })
    }
}

/// The whole document for an override set.
pub open spec fn save_bytes(m: ConfigModel) -> Seq<u8> {
    seq![LBRACE] + member_bytes("name"@, quoted(encode_utf8(m.name))) + seq![COMMA] + member_bytes(
        "dark_mode"@,
        bool_bytes(m.dark_mode),
    ) + members_upto(m, KEY_COUNT as int) + seq![RBRACE]
}

} // verus!
