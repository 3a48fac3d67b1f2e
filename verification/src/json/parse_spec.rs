//! The parsing semantics of the persisted format, as total specification
//! functions over the raw bytes.
//!
//! [`parse_document`] is what [`crate::json::load`] is proved to decide:
//! `load` succeeds exactly on the documents this function accepts, with the
//! model it yields. The grammar is the JSON subset the format needs — an
//! object of string, boolean, number and byte-array members — plus
//! arbitrary members with unknown names, which are skipped.

use vstd::prelude::*;
use vstd::utf8::{decode_utf8, encode_scalar, encode_utf8, valid_utf8};

use crate::config::{none_overrides, ConfigModel};
use crate::json::format::{BACKSLASH, COLON, COMMA, DOT, LBRACE, LBRACKET, MINUS, QUOTE, RBRACE,
    RBRACKET};
use crate::keys::{key_at, key_index, key_kind, key_name, AttributeKey, ValueKind, KEY_COUNT};
use crate::values::AttrValue;

verus! {

pub open spec fn is_ws(b: u8) -> bool {
    b == 32 || b == 9 || b == 10 || b == 13
}

pub open spec fn is_digit(b: u8) -> bool {
    48 <= b <= 57
}

/// The first position at or after `i` holding no whitespace.
pub open spec fn skip_ws(s: Seq<u8>, i: int) -> int
    decreases s.len() - i,
{
    if 0 <= i < s.len() && is_ws(s[i]) {
        skip_ws(s, i + 1)
    } else {
        i
    }
}

/// Whether the bytes at `i` are exactly `lit`.
pub open spec fn match_at(s: Seq<u8>, i: int, lit: Seq<u8>) -> bool {
    0 <= i && i + lit.len() <= s.len() && s.subrange(i, i + lit.len() as int) == lit
}

/// The end of the digit run starting at `i`.
pub open spec fn run_end(s: Seq<u8>, i: int) -> int
    decreases s.len() - i,
{
    if 0 <= i < s.len() && is_digit(s[i]) {
        run_end(s, i + 1)
    } else {
        i
    }
}

/// The value of the digits in `[i, j)`, read as a decimal number.
pub open spec fn run_val(s: Seq<u8>, i: int, j: int) -> nat
    decreases j - i,
{
    if i < j {
        run_val(s, i, j - 1) * 10 + (if 0 <= j - 1 < s.len() && is_digit(s[j - 1]) {
            (s[j - 1] - 48) as nat
        } else {
            0
        })
    } else {
        0
    }
}

/// Ten to the `n`.
pub open spec fn pow10(n: nat) -> nat
    decreases n,
{
    if n == 0 {
        1
    } else {
        10 * pow10((n - 1) as nat)
    }
}

/// The exact value of `mantissa` shifted by `shift` decimal places, when
/// that is an integer: multiplying for a shift left, dividing — only when
/// nothing is lost — for a shift right.
pub open spec fn scaled_exact(mantissa: nat, shift: int) -> Option<nat> {
    if mantissa == 0 {
        Some(0)
    } else if shift >= 0 {
        Some(mantissa * pow10(shift as nat))
    } else if mantissa % pow10((-shift) as nat) == 0 {
        Some(mantissa / pow10((-shift) as nat))
    } else {
        None
    }
}

/// A JSON number starting at `i`, read exactly in units of one
/// ten-to-the-`scale`-th: optional minus, an integer part without leading
/// zeros, an optional fraction, an optional exponent. Accepted when the
/// value is a whole number of target units with magnitude at most
/// `limit` — so every spelling of a representable value is read, whatever
/// mix of fraction digits and exponent it uses. The digit runs are bounded
/// generously (ten integer, twelve fraction, three exponent digits), far
/// beyond what any representable value needs.
pub open spec fn parse_scaled(s: Seq<u8>, i: int, scale: int, limit: nat) -> Option<(int, int)> {
    let neg = 0 <= i < s.len() && s[i] == MINUS;
    let i0 = if neg {
        i + 1
    } else {
        i
    };
    if i0 < s.len() && is_digit(s[i0]) {
        let j = run_end(s, i0);
        if s[i0] == 48 && j != i0 + 1 {
            None
        } else if j - i0 > 10 {
            None
        } else {
            let has_frac = j < s.len() && s[j] == DOT && j + 1 < s.len() && is_digit(s[j + 1]);
            let f0 = if has_frac {
                j + 1
            } else {
                j
            };
            let f1 = if has_frac {
                run_end(s, j + 1)
            } else {
                j
            };
            if f1 - f0 > 12 {
                None
            } else {
                let has_e = f1 < s.len() && (s[f1] == 101 || s[f1] == 69);
                let e_neg = has_e && f1 + 1 < s.len() && s[f1 + 1] == MINUS;
                let e_pos = has_e && f1 + 1 < s.len() && s[f1 + 1] == 43;
                let e0 = if e_neg || e_pos {
                    f1 + 2
                } else {
                    f1 + 1
                };
                if has_e && !(e0 < s.len() && is_digit(s[e0])) {
                    None
                } else {
                    let e1 = if has_e {
                        run_end(s, e0)
                    } else {
                        f1
                    };
                    if has_e && e1 - e0 > 3 {
                        None
                    } else {
                        let end = if has_e {
                            e1
                        } else {
                            f1
                        };
                        let frac_len = f1 - f0;
                        let mantissa = run_val(s, i0, j) * pow10(frac_len as nat) + run_val(
                            s,
                            f0,
                            f1,
                        );
                        let exp: int = if has_e {
                            if e_neg {
                                -(run_val(s, e0, e1) as int)
                            } else {
                                run_val(s, e0, e1) as int
                            }
                        } else {
                            0
                        };
                        match scaled_exact(mantissa, exp - frac_len + scale) {
                            Some(mag) => if mag <= limit {
                                Some(
                                    (
                                        if neg {
                                            -(mag as int)
                                        } else {
                                            mag as int
                                        },
                                        end,
                                    ),
                                )
                            } else {
                                None
                            },
                            None => None,
                        }
                    }
                }
            }
        }
    } else {
        None
    }
}

/// A color channel: a number that is a whole value at most 255.
pub open spec fn parse_u8(s: Seq<u8>, i: int) -> Option<(u8, int)> {
    match parse_scaled(s, i, 0, 255) {
        Some((v, j)) => if v >= 0 {
            Some((v as u8, j))
        } else {
            None
        },
        None => None,
    }
}

/// A width: a number that is a whole count of thousandths with magnitude
/// at most 999999999.
pub open spec fn parse_width(s: Seq<u8>, i: int) -> Option<(i32, int)> {
    match parse_scaled(s, i, 3, 999_999_999) {
        Some((v, j)) => Some((v as i32, j)),
        None => None,
    }
}

/// A boolean literal.
pub open spec fn parse_bool(s: Seq<u8>, i: int) -> Option<(bool, int)> {
    if match_at(s, i, crate::json::format::bool_bytes(true)) {
        Some((true, i + 4))
    } else if match_at(s, i, crate::json::format::bool_bytes(false)) {
        Some((false, i + 5))
    } else {
        None
    }
}

/// A color: a bracketed array of exactly four channel integers, with
/// whitespace allowed around every token.
pub open spec fn parse_color(s: Seq<u8>, i: int) -> Option<(crate::values::Rgba, int)> {
    if 0 <= i < s.len() && s[i] == LBRACKET {
        match parse_u8(s, skip_ws(s, i + 1)) {
            Some((r, j1)) => {
                let c1 = skip_ws(s, j1);
                if c1 < s.len() && s[c1] == COMMA {
                    match parse_u8(s, skip_ws(s, c1 + 1)) {
                        Some((g, j2)) => {
                            let c2 = skip_ws(s, j2);
                            if c2 < s.len() && s[c2] == COMMA {
                                match parse_u8(s, skip_ws(s, c2 + 1)) {
                                    Some((b, j3)) => {
                                        let c3 = skip_ws(s, j3);
                                        if c3 < s.len() && s[c3] == COMMA {
                                            match parse_u8(s, skip_ws(s, c3 + 1)) {
                                                Some((a, j4)) => {
                                                    let c4 = skip_ws(s, j4);
                                                    if c4 < s.len() && s[c4] == RBRACKET {
                                                        Some(
                                                            (
                                                                crate::values::Rgba { r, g, b, a },
                                                                c4 + 1,
                                                            ),
                                                        )
                                                    } else {
                                                        None
                                                    }
                                                },
                                                None => None,
                                            }
                                        } else {
                                            None
                                        }
                                    },
                                    None => None,
                                }
                            } else {
                                None
                            }
                        },
                        None => None,
                    }
                } else {
                    None
                }
            },
            None => None,
        }
    } else {
        None
    }
}

pub open spec fn is_hex(b: u8) -> bool {
    is_digit(b) || 97 <= b <= 102 || 65 <= b <= 70
}

pub open spec fn hex_val(b: u8) -> nat {
    if is_digit(b) {
        (b - 48) as nat
    } else if 97 <= b <= 102 {
        (b - 87) as nat
    } else {
        (b - 55) as nat
    }
}

/// The code point named by the four hex digits at `i`.
pub open spec fn hex4_val(s: Seq<u8>, i: int) -> nat {
    hex_val(s[i]) * 4096 + hex_val(s[i + 1]) * 256 + hex_val(s[i + 2]) * 16 + hex_val(s[i + 3])
}

pub open spec fn hex4_at(s: Seq<u8>, i: int) -> bool {
    0 <= i && i + 4 <= s.len() && is_hex(s[i]) && is_hex(s[i + 1]) && is_hex(s[i + 2]) && is_hex(
        s[i + 3],
    )
}

/// The body of a string, after the opening quote: content bytes up to the
/// closing quote, with every escape decoded. Escaped code points are
/// re-encoded as UTF-8; surrogate escapes are rejected.
pub open spec fn parse_string_body(s: Seq<u8>, i: int) -> Option<(Seq<u8>, int)>
    decreases s.len() - i,
{
    if !(0 <= i < s.len()) {
        None
    } else if s[i] == QUOTE {
        Some((seq![], i + 1))
    } else if s[i] == BACKSLASH {
        if i + 1 < s.len() {
            let e = s[i + 1];
            if e == QUOTE || e == BACKSLASH || e == 47 {
                match parse_string_body(s, i + 2) {
                    Some((c, j)) => Some((seq![e] + c, j)),
                    None => None,
                }
            } else if e == 98 || e == 102 || e == 110 || e == 114 || e == 116 {
                let d: u8 = if e == 98 {
                    8
                } else if e == 102 {
                    12
                } else if e == 110 {
                    10
                } else if e == 114 {
                    13
                } else {
                    9
                };
                match parse_string_body(s, i + 2) {
                    Some((c, j)) => Some((seq![d] + c, j)),
                    None => None,
                }
            } else if e == 117 && hex4_at(s, i + 2) {
                let cp = hex4_val(s, i + 2);
                if 0xD800 <= cp < 0xE000 {
                    None
                } else {
                    match parse_string_body(s, i + 6) {
                        Some((c, j)) => Some((encode_scalar(cp as u32) + c, j)),
                        None => None,
                    }
                }
            } else {
                None
            }
        } else {
            None
        }
    } else if s[i] < 32 {
        None
    } else {
        match parse_string_body(s, i + 1) {
            Some((c, j)) => Some((seq![s[i]] + c, j)),
            None => None,
        }
    }
}

/// A quoted string starting at `i`.
pub open spec fn parse_string(s: Seq<u8>, i: int) -> Option<(Seq<u8>, int)> {
    if 0 <= i < s.len() && s[i] == QUOTE {
        parse_string_body(s, i + 1)
    } else {
        None
    }
}

/// A generic JSON number, consumed and discarded: optional sign, integer
/// part, optional fraction, optional exponent.
pub open spec fn skip_number(s: Seq<u8>, i: int) -> Option<int> {
    let i0 = if 0 <= i < s.len() && s[i] == MINUS {
        i + 1
    } else {
        i
    };
    if i0 < s.len() && is_digit(s[i0]) {
        let j = run_end(s, i0);
        let j1 = if j < s.len() && s[j] == DOT && j + 1 < s.len() && is_digit(s[j + 1]) {
            run_end(s, j + 1)
        } else {
            j
        };
        if j1 < s.len() && (s[j1] == 101 || s[j1] == 69) {
            let j2 = if j1 + 1 < s.len() && (s[j1 + 1] == 43 || s[j1 + 1] == MINUS) {
                j1 + 2
            } else {
                j1 + 1
            };
            if j2 < s.len() && is_digit(s[j2]) {
                Some(run_end(s, j2))
            } else {
                None
            }
        } else {
            Some(j1)
        }
    } else {
        None
    }
}

/// A generic JSON value, consumed and discarded. `fuel` bounds the nesting
/// and item count; the caller passes the input length, which is always
/// enough.
pub open spec fn skip_value(s: Seq<u8>, i: int, fuel: nat) -> Option<int>
    decreases fuel, 0int,
{
    if !(0 <= i < s.len()) {
        None
    } else if s[i] == QUOTE {
        match parse_string(s, i) {
            Some((c, j)) => Some(j),
            None => None,
        }
    } else if s[i] == LBRACKET || s[i] == LBRACE {
        let close: u8 = if s[i] == LBRACKET {
            RBRACKET
        } else {
            RBRACE
        };
        let j = skip_ws(s, i + 1);
        if j < s.len() && s[j] == close {
            Some(j + 1)
        } else if fuel > 0 {
            skip_items(s, j, close, (fuel - 1) as nat)
        } else {
            None
        }
    } else if s[i] == 116 || s[i] == 102 {
        match parse_bool(s, i) {
            Some((b, j)) => Some(j),
            None => None,
        }
    } else if s[i] == 110 {
        if match_at(s, i, seq![110u8, 117u8, 108u8, 108u8]) {
            Some(i + 4)
        } else {
            None
        }
    } else {
        skip_number(s, i)
    }
}

/// The items of a generic array or object, consumed and discarded, up to
/// and including the closing bracket or brace.
pub open spec fn skip_items(s: Seq<u8>, i: int, close: u8, fuel: nat) -> Option<int>
    decreases fuel, 1int,
{
    let istart = if close == RBRACE {
        match parse_string(s, i) {
            Some((nm, j)) => {
                let j2 = skip_ws(s, j);
                if j2 < s.len() && s[j2] == COLON {
                    Some(skip_ws(s, j2 + 1))
                } else {
                    None
                }
            },
            None => None,
        }
    } else {
        Some(i)
    };
    match istart {
        Some(iv) => match skip_value(s, iv, fuel) {
            Some(j) => {
                let j2 = skip_ws(s, j);
                if j2 < s.len() && s[j2] == COMMA && fuel > 0 {
                    skip_items(s, skip_ws(s, j2 + 1), close, (fuel - 1) as nat)
                } else if j2 < s.len() && s[j2] == close {
                    Some(j2 + 1)
                } else {
                    None
                }
            },
            None => None,
        },
        None => None,
    }
}

/// The parse state while reading members: which required fields have been
/// seen, and the override row filled so far.
#[verifier::ext_equal]
pub ghost struct PartState {
    pub name: Option<Seq<char>>,
    pub dark_mode: Option<bool>,
    pub overrides: Seq<Option<AttrValue>>,
}

/// The initial parse state: nothing seen.
pub open spec fn empty_state() -> PartState {
    PartState { name: None, dark_mode: None, overrides: none_overrides() }
}

/// The persisted field name of an attribute, as bytes.
pub open spec fn name_bytes(k: AttributeKey) -> Seq<u8> {
    encode_utf8(key_name(k))
}

/// The attribute whose field name matches the given bytes, if any.
pub open spec fn key_lookup(b: Seq<u8>) -> Option<AttributeKey>
    decreases KEY_COUNT as int,
{
    key_lookup_from(b, 0)
}

/// The first attribute at position `n` or later whose field name matches.
pub open spec fn key_lookup_from(b: Seq<u8>, n: int) -> Option<AttributeKey>
    decreases KEY_COUNT - n,
{
    if 0 <= n < KEY_COUNT {
        if b == name_bytes(key_at(n)) {
            Some(key_at(n))
        } else {
            key_lookup_from(b, n + 1)
        }
    } else {
        None
    }
}

/// One member, starting at its opening quote: reads the field name and its
/// value into the parse state. A known name already seen is a duplicate and
/// fails; an unknown name has its value skipped.
#[verifier::opaque]
pub open spec fn parse_member_into(s: Seq<u8>, i: int, st: PartState, fuel: nat) -> Option<
    (PartState, int),
> {
    match parse_string(s, i) {
        Some((nm, j)) => {
            let j2 = skip_ws(s, j);
            if j2 < s.len() && s[j2] == COLON {
                let j3 = skip_ws(s, j2 + 1);
                if nm == encode_utf8("name"@) {
                    if st.name is Some {
                        None
                    } else {
                        match parse_string(s, j3) {
                            Some((content, j4)) => if valid_utf8(content) {
                                Some(
                                    (
                                        PartState { name: Some(decode_utf8(content)), ..st },
                                        j4,
                                    ),
                                )
                            } else {
                                None
                            },
                            None => None,
                        }
                    }
                } else if nm == encode_utf8("dark_mode"@) {
                    if st.dark_mode is Some {
                        None
                    } else {
                        match parse_bool(s, j3) {
                            Some((b, j4)) => Some(
                                (PartState { dark_mode: Some(b), ..st }, j4),
                            ),
                            None => None,
                        }
                    }
                } else {
                    match key_lookup(nm) {
                        Some(k) => if st.overrides[key_index(k)] is Some {
                            None
                        } else {
                            match parse_attr_value(s, j3, key_kind(k)) {
                                Some((v, j4)) => Some(
                                    (
                                        PartState {
                                            overrides: st.overrides.update(
                                                key_index(k),
                                                Some(v),
                                            ),
                                            ..st
                                        },
                                        j4,
                                    ),
                                ),
                                None => None,
                            }
                        },
                        None => match skip_value(s, j3, fuel) {
                            Some(j4) => Some((st, j4)),
                            None => None,
                        },
                    }
                }
            } else {
                None
            }
        },
        None => None,
    }
}

/// The value of an attribute member, parsed according to the key's kind.
pub open spec fn parse_attr_value(s: Seq<u8>, i: int, kind: ValueKind) -> Option<
    (AttrValue, int),
> {
    match kind {
        ValueKind::Color => match parse_color(s, i) {
            Some((c, j)) => Some((AttrValue::Color(c), j)),
            None => None,
        },
        ValueKind::Width => match parse_width(s, i) {
            Some((w, j)) => Some((AttrValue::Width(w), j)),
            None => None,
        },
        ValueKind::Radius => match parse_u8(s, i) {
            Some((x, j)) => Some((AttrValue::Radius(x), j)),
            None => None,
        },
        ValueKind::Flag => match parse_bool(s, i) {
            Some((b, j)) => Some((AttrValue::Flag(b), j)),
            None => None,
        },
    }
}

/// The member list of the document object, starting at the first member's
/// opening quote, up to and including the closing brace.
pub open spec fn parse_members(s: Seq<u8>, i: int, st: PartState, fuel: nat) -> Option<
    (PartState, int),
>
    decreases fuel,
{
    if fuel == 0 {
        None
    } else {
        match parse_member_into(s, i, st, fuel) {
            Some((st2, j)) => {
                let j2 = skip_ws(s, j);
                if j2 < s.len() && s[j2] == COMMA {
                    parse_members(s, skip_ws(s, j2 + 1), st2, (fuel - 1) as nat)
                } else if j2 < s.len() && s[j2] == RBRACE {
                    Some((st2, j2 + 1))
                } else {
                    None
                }
            },
            None => None,
        }
    }
}

/// The finished state turned into a model: both required fields must have
/// been seen.
pub open spec fn finish_state(st: PartState) -> Option<ConfigModel> {
    match st.name {
        Some(name) => match st.dark_mode {
            Some(dark_mode) => Some(ConfigModel { name, dark_mode, overrides: st.overrides }),
            None => None,
        },
        None => None,
    }
}

/// The whole document: one object, required fields present, at most
/// whitespace after the closing brace.
pub open spec fn parse_document(s: Seq<u8>) -> Option<ConfigModel> {
    let i0 = skip_ws(s, 0);
    if i0 < s.len() && s[i0] == LBRACE {
        let i1 = skip_ws(s, i0 + 1);
        if i1 < s.len() && s[i1] == RBRACE {
            if skip_ws(s, i1 + 1) == s.len() {
                finish_state(empty_state())
            } else {
                None
            }
        } else {
            match parse_members(s, i1, empty_state(), s.len() + 1) {
                Some((st, j)) => if skip_ws(s, j) == s.len() {
                    finish_state(st)
                } else {
                    None
                },
                None => None,
            }
        }
    } else {
        None
    }
}

} // verus!
