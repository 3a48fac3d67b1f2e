//! The round trip: a document written by [`crate::json::save`] parses back
//! to exactly the override set it was written from.

use vstd::prelude::*;
use vstd::utf8::{encode_utf8, encode_utf8_decode_utf8, encode_utf8_valid_utf8, valid_utf8};

use crate::config::ConfigModel;
use crate::json::format::{bool_bytes, color_bytes, dec_bytes, esc_byte, escape, member_bytes,
    members_upto, quoted, save_bytes, value_bytes, width_bytes, width_frac_bytes, BACKSLASH,
    COLON, COMMA, DOT, LBRACE, LBRACKET, MINUS, QUOTE, RBRACE, RBRACKET};
use crate::json::parse_spec::{empty_state, finish_state, is_digit, is_ws, key_lookup,
    key_lookup_from, match_at, name_bytes, parse_bool, parse_color, parse_document,
    parse_member_into, parse_members, parse_scaled, parse_string, parse_string_body, parse_u8,
    parse_width, pow10, run_end, run_val, scaled_exact, skip_ws, PartState};
use crate::keys::{key_at, key_index, key_kind, key_name, AttributeKey, KEY_COUNT};
use crate::values::{value_kind, value_wf, AttrValue, Rgba};

verus! {

/// Matching a concatenation is matching both pieces in place.
proof fn lemma_match_split(s: Seq<u8>, i: int, a: Seq<u8>, b: Seq<u8>)
    requires
        match_at(s, i, a + b),
    ensures
        match_at(s, i, a),
        match_at(s, i + a.len(), b),
{
    assert(s.subrange(i, i + a.len() as int) =~= (a + b).subrange(0, a.len() as int));
    assert((a + b).subrange(0, a.len() as int) =~= a);
    assert(s.subrange(i + a.len(), i + a.len() + b.len()) =~= (a + b).subrange(
        a.len() as int,
        (a + b).len() as int,
    ));
    assert((a + b).subrange(a.len() as int, (a + b).len() as int) =~= b);
}

/// The byte under a match is the literal's byte.
proof fn lemma_match_byte(s: Seq<u8>, i: int, lit: Seq<u8>, k: int)
    requires
        match_at(s, i, lit),
        0 <= k < lit.len(),
    ensures
        s[i + k] == lit[k],
{
    assert(s.subrange(i, i + lit.len() as int)[k] == s[i + k]);
}

/// Skipping whitespace stays put on a non-whitespace byte.
proof fn lemma_skip_ws_at(s: Seq<u8>, i: int)
    requires
        0 <= i,
        i >= s.len() || !is_ws(s[i]),
    ensures
        skip_ws(s, i) == i,
{
}

/// The digits of a decimal rendering.
proof fn lemma_dec_bytes_digits(n: nat)
    ensures
        dec_bytes(n).len() >= 1,
        forall|k: int| 0 <= k < dec_bytes(n).len() ==> is_digit(#[trigger] dec_bytes(n)[k]),
        n >= 1 ==> dec_bytes(n)[0] != 48,
        n == 0 ==> dec_bytes(n) =~= seq![48u8],
    decreases n,
{
    if n >= 10 {
        lemma_dec_bytes_digits(n / 10);
        assert forall|k: int| 0 <= k < dec_bytes(n).len() implies is_digit(
            #[trigger] dec_bytes(n)[k],
        ) by {
            if k < dec_bytes(n).len() - 1 {
                assert(dec_bytes(n)[k] == dec_bytes(n / 10)[k]);
            }
        }
        assert(dec_bytes(n)[0] == dec_bytes(n / 10)[0]);
    }
}

/// A short number has a short rendering.
proof fn lemma_dec_bytes_len(n: nat, k: nat)
    requires
        k >= 1,
        n < pow10(k),
    ensures
        dec_bytes(n).len() <= k,
    decreases n,
{
    if n >= 10 {
        assert(pow10(k) == 10 * pow10((k - 1) as nat));
        lemma_dec_bytes_len(n / 10, (k - 1) as nat);
    }
}

/// A digit run bounded on both sides ends exactly at its boundary.
proof fn lemma_run_end_exact(s: Seq<u8>, i: int, e: int)
    requires
        0 <= i <= e <= s.len(),
        forall|p: int| i <= p < e ==> is_digit(s[p]),
        e == s.len() || !is_digit(s[e]),
    ensures
        run_end(s, i) == e,
    decreases e - i,
{
    if i < e {
        lemma_run_end_exact(s, i + 1, e);
    }
}

/// The value read back from a decimal rendering is the number written.
proof fn lemma_run_val_dec(s: Seq<u8>, i: int, n: nat)
    requires
        match_at(s, i, dec_bytes(n)),
    ensures
        run_val(s, i, i + dec_bytes(n).len()) == n,
    decreases n,
{
    lemma_dec_bytes_digits(n);
    let e = i + dec_bytes(n).len();
    if n < 10 {
        lemma_match_byte(s, i, dec_bytes(n), 0);
        assert(run_val(s, i, e) == run_val(s, i, i) * 10 + (s[i] - 48));
    } else {
        assert(dec_bytes(n) =~= dec_bytes(n / 10) + seq![(48 + n % 10) as u8]);
        lemma_match_split(s, i, dec_bytes(n / 10), seq![(48 + n % 10) as u8]);
        lemma_run_val_dec(s, i, n / 10);
        lemma_match_byte(s, i + dec_bytes(n / 10).len(), seq![(48 + n % 10) as u8], 0);
        assert(run_val(s, i, e) == run_val(s, i, e - 1) * 10 + (s[e - 1] - 48));
    }
}

/// A byte position that terminates a number: nothing that could extend
/// its integer part, fraction, or exponent.
pub open spec fn number_boundary(s: Seq<u8>, e: int) -> bool {
    e == s.len() || (!is_digit(s[e]) && s[e] != DOT && s[e] != 101 && s[e] != 69)
}

/// Reading an unscaled decimal rendering back, in target units.
proof fn lemma_parse_scaled_dec(s: Seq<u8>, i: int, n: nat, scale: int, limit: nat)
    requires
        match_at(s, i, dec_bytes(n)),
        dec_bytes(n).len() <= 10,
        0 <= scale,
        n * pow10(scale as nat) <= limit,
        number_boundary(s, i + dec_bytes(n).len()),
    ensures
        parse_scaled(s, i, scale, limit) == Some(
            ((n * pow10(scale as nat)) as int, i + dec_bytes(n).len()),
        ),
{
    lemma_dec_bytes_digits(n);
    let e = i + dec_bytes(n).len();
    assert forall|p: int| i <= p < e implies is_digit(s[p]) by {
        lemma_match_byte(s, i, dec_bytes(n), p - i);
    }
    lemma_run_end_exact(s, i, e);
    lemma_run_val_dec(s, i, n);
    lemma_match_byte(s, i, dec_bytes(n), 0);
    assert(run_val(s, e, e) == 0);
    assert(pow10(0) == 1);
    assert(n * pow10(0nat) + run_val(s, e, e) == n);
    if n == 0 {
        assert(scaled_exact(0, scale) == Some(0nat));
    }
}

/// Reading a color channel back from its rendering.
proof fn lemma_parse_u8_dec(s: Seq<u8>, i: int, v: u8)
    requires
        match_at(s, i, dec_bytes(v as nat)),
        number_boundary(s, i + dec_bytes(v as nat).len()),
    ensures
        parse_u8(s, i) == Some((v, i + dec_bytes(v as nat).len())),
{
    crate::json::parse::lemma_pow10_vals();
    lemma_dec_bytes_len(v as nat, 3);
    lemma_parse_scaled_dec(s, i, v as nat, 0, 255);
    assert((v as nat) * pow10(0nat) == v as nat);
}

/// Reading a boolean back from its rendering.
proof fn lemma_parse_bool_bytes(s: Seq<u8>, i: int, b: bool)
    requires
        match_at(s, i, bool_bytes(b)),
    ensures
        parse_bool(s, i) == Some((b, i + bool_bytes(b).len())),
{
    if b {
    } else {
        lemma_match_byte(s, i, bool_bytes(false), 0);
        if match_at(s, i, bool_bytes(true)) {
            lemma_match_byte(s, i, bool_bytes(true), 0);
        }
    }
}

/// Reading a width back from its rendering.
proof fn lemma_parse_width_bytes(s: Seq<u8>, i: int, w: int)
    requires
        match_at(s, i, width_bytes(w)),
        -999_999_999 <= w <= 999_999_999,
        number_boundary(s, i + width_bytes(w).len()),
    ensures
        parse_width(s, i) == Some((w as i32, i + width_bytes(w).len())),
{
    crate::json::parse::lemma_pow10_vals();
    let mag = if w < 0 {
        -w
    } else {
        w
    };
    let whole = (mag / 1000) as nat;
    let frac = (mag % 1000) as nat;
    let digits = dec_bytes(whole) + width_frac_bytes(frac);
    let i0 = if w < 0 {
        i + 1
    } else {
        i
    };
    let e = i + width_bytes(w).len();
    lemma_dec_bytes_digits(whole);
    if w < 0 {
        lemma_match_split(s, i, seq![MINUS], digits);
        lemma_match_byte(s, i, seq![MINUS], 0);
    }
    assert(match_at(s, i0, digits));
    lemma_match_split(s, i0, dec_bytes(whole), width_frac_bytes(frac));
    let jd = i0 + dec_bytes(whole).len();
    lemma_dec_bytes_len(whole, 6);
    if w >= 0 {
        lemma_match_byte(s, i, dec_bytes(whole), 0);
        assert(s[i] != MINUS);
    }
    assert forall|p: int| i0 <= p < jd implies is_digit(s[p]) by {
        lemma_match_byte(s, i0, dec_bytes(whole), p - i0);
    }
    lemma_run_val_dec(s, i0, whole);
    lemma_match_byte(s, i0, dec_bytes(whole), 0);
    if frac == 0 {
        lemma_run_end_exact(s, i0, jd);
        assert(run_val(s, jd, jd) == 0);
        assert(whole * pow10(0nat) + run_val(s, jd, jd) == whole);
        if whole == 0 {
            assert(scaled_exact(0, 3) == Some(0nat));
            assert(mag == 0);
        } else {
            assert(scaled_exact(whole, 3) == Some(whole * pow10(3nat)));
            assert(whole * pow10(3nat) == mag);
        }
    } else {
        let fb = width_frac_bytes(frac);
        let d1 = frac / 100;
        let d2 = (frac / 10) % 10;
        let d3 = frac % 10;
        lemma_match_byte(s, jd, fb, 0);
        assert(s[jd] == DOT);
        assert(!is_digit(DOT));
        lemma_run_end_exact(s, i0, jd);
        let f0 = jd + 1;
        assert forall|p: int| f0 <= p < e implies is_digit(s[p]) by {
            lemma_match_byte(s, jd, fb, p - jd);
        }
        lemma_run_end_exact(s, f0, e);
        lemma_match_byte(s, jd, fb, 1);
        assert(run_val(s, f0, f0) == 0);
        assert(frac == 100 * d1 + 10 * d2 + d3) by {
            assert(frac == 10 * (frac / 10) + d3);
            assert(frac / 10 == 10 * d1 + d2) by {
                assert(frac / 10 == 10 * ((frac / 10) / 10) + (frac / 10) % 10);
                assert((frac / 10) / 10 == frac / 100) by (nonlinear_arith);
            }
        }
        let fl = (e - f0) as nat;
        let fval = run_val(s, f0, e);
        if d3 != 0 {
            lemma_match_byte(s, jd, fb, 2);
            lemma_match_byte(s, jd, fb, 3);
            assert(run_val(s, f0, f0 + 1) == s[f0] - 48);
            assert(run_val(s, f0, f0 + 2) == run_val(s, f0, f0 + 1) * 10 + (s[f0 + 1] - 48));
            assert(run_val(s, f0, f0 + 3) == run_val(s, f0, f0 + 2) * 10 + (s[f0 + 2] - 48));
            assert(fl == 3 && fval == frac);
            assert((whole * pow10(3nat) + frac) * pow10(0nat) == whole * 1000 + frac);
        } else if d2 != 0 {
            lemma_match_byte(s, jd, fb, 2);
            assert(run_val(s, f0, f0 + 1) == s[f0] - 48);
            assert(run_val(s, f0, f0 + 2) == run_val(s, f0, f0 + 1) * 10 + (s[f0 + 1] - 48));
            assert(fl == 2 && fval == 10 * d1 + d2);
            assert((whole * pow10(2nat) + fval) * pow10(1nat) == whole * 1000 + frac);
        } else {
            assert(run_val(s, f0, f0 + 1) == s[f0] - 48);
            assert(fl == 1 && fval == d1);
            assert((whole * pow10(1nat) + fval) * pow10(2nat) == whole * 1000 + frac);
        }
        let mantissa = whole * pow10(fl) + fval;
        assert(mantissa != 0 ==> scaled_exact(mantissa, 3 - fl) == Some(
            mantissa * pow10((3 - fl) as nat),
        ));
        assert(mantissa != 0);
        assert(mantissa * pow10((3 - fl) as nat) == mag);
        assert(mag <= 999_999_999);
    }
}

/// Reading a color back from its rendering.
proof fn lemma_parse_color_bytes(s: Seq<u8>, i: int, c: Rgba)
    requires
        match_at(s, i, color_bytes(c)),
    ensures
        parse_color(s, i) == Some((c, i + color_bytes(c).len())),
{
    let p0 = seq![LBRACKET];
    let pr = dec_bytes(c.r as nat);
    let pg = dec_bytes(c.g as nat);
    let pb = dec_bytes(c.b as nat);
    let pa = dec_bytes(c.a as nat);
    let cm = seq![COMMA];
    let p9 = seq![RBRACKET];
    lemma_dec_bytes_digits(c.r as nat);
    lemma_dec_bytes_digits(c.g as nat);
    lemma_dec_bytes_digits(c.b as nat);
    lemma_dec_bytes_digits(c.a as nat);
    assert(color_bytes(c) =~= p0 + pr + cm + pg + cm + pb + cm + pa + p9);
    lemma_match_split(s, i, p0 + pr + cm + pg + cm + pb + cm + pa, p9);
    lemma_match_split(s, i, p0 + pr + cm + pg + cm + pb + cm, pa);
    lemma_match_split(s, i, p0 + pr + cm + pg + cm + pb, cm);
    lemma_match_split(s, i, p0 + pr + cm + pg + cm, pb);
    lemma_match_split(s, i, p0 + pr + cm + pg, cm);
    lemma_match_split(s, i, p0 + pr + cm, pg);
    lemma_match_split(s, i, p0 + pr, cm);
    lemma_match_split(s, i, p0, pr);
    let ir = i + 1;
    let ig = ir + pr.len() + 1;
    let ib = ig + pg.len() + 1;
    let ia = ib + pb.len() + 1;
    let iend = ia + pa.len();
    lemma_match_byte(s, i, p0, 0);
    lemma_match_byte(s, ir + pr.len(), cm, 0);
    lemma_match_byte(s, ig + pg.len(), cm, 0);
    lemma_match_byte(s, ib + pb.len(), cm, 0);
    lemma_match_byte(s, iend, p9, 0);
    lemma_match_byte(s, ir, pr, 0);
    lemma_skip_ws_at(s, ir);
    lemma_parse_u8_dec(s, ir, c.r);
    lemma_skip_ws_at(s, ir + pr.len());
    lemma_match_byte(s, ig, pg, 0);
    lemma_skip_ws_at(s, ig);
    lemma_parse_u8_dec(s, ig, c.g);
    lemma_skip_ws_at(s, ig + pg.len());
    lemma_match_byte(s, ib, pb, 0);
    lemma_skip_ws_at(s, ib);
    lemma_parse_u8_dec(s, ib, c.b);
    lemma_skip_ws_at(s, ib + pb.len());
    lemma_match_byte(s, ia, pa, 0);
    lemma_skip_ws_at(s, ia);
    lemma_parse_u8_dec(s, ia, c.a);
    lemma_skip_ws_at(s, iend);
}

/// The value of a hex digit emitted for a nibble is that nibble.
proof fn lemma_hex_digit_val(d: nat)
    requires
        d < 16,
    ensures
        crate::json::parse_spec::is_hex(crate::json::format::hex_digit(d)),
        crate::json::parse_spec::hex_val(crate::json::format::hex_digit(d)) == d,
{
}

/// Reading a string body back from its escaped rendering.
proof fn lemma_parse_escape(s: Seq<u8>, i: int, content: Seq<u8>)
    requires
        match_at(s, i, escape(content) + seq![QUOTE]),
    ensures
        parse_string_body(s, i) == Some((content, i + escape(content).len() + 1)),
    decreases content.len(),
{
    if content.len() == 0 {
        lemma_match_byte(s, i, escape(content) + seq![QUOTE], 0);
    } else {
        let b = content[0];
        let rest = content.drop_first();
        assert(escape(content) == esc_byte(b) + escape(rest));
        assert(escape(content) + seq![QUOTE] =~= esc_byte(b) + (escape(rest) + seq![QUOTE]));
        lemma_match_split(s, i, esc_byte(b), escape(rest) + seq![QUOTE]);
        let inext = i + esc_byte(b).len();
        lemma_parse_escape(s, inext, rest);
        assert(seq![b] + rest =~= content);
        if b == QUOTE || b == BACKSLASH {
            lemma_match_byte(s, i, esc_byte(b), 0);
            lemma_match_byte(s, i, esc_byte(b), 1);
        } else if b < 32 {
            lemma_match_byte(s, i, esc_byte(b), 0);
            lemma_match_byte(s, i, esc_byte(b), 1);
            lemma_match_byte(s, i, esc_byte(b), 2);
            lemma_match_byte(s, i, esc_byte(b), 3);
            lemma_match_byte(s, i, esc_byte(b), 4);
            lemma_match_byte(s, i, esc_byte(b), 5);
            lemma_hex_digit_val((b / 16) as nat);
            lemma_hex_digit_val((b % 16) as nat);
            assert(crate::json::parse_spec::hex4_at(s, i + 2));
            let cp = crate::json::parse_spec::hex4_val(s, i + 2);
            assert(cp == b);
            assert(vstd::utf8::encode_scalar(cp as u32) =~= seq![b]) by {
                assert(cp as u32 as int == b as int);
                assert((b as u32) & 0x7F == b as u32) by (bit_vector)
                    requires
                        b < 32,
                ;
            }
        } else {
            lemma_match_byte(s, i, esc_byte(b), 0);
        }
    }
}

/// Reading a quoted string back from its rendering.
proof fn lemma_parse_string_bytes(s: Seq<u8>, i: int, content: Seq<u8>)
    requires
        match_at(s, i, quoted(content)),
    ensures
        parse_string(s, i) == Some((content, i + quoted(content).len())),
{
    assert(quoted(content) =~= seq![QUOTE] + (escape(content) + seq![QUOTE]));
    lemma_match_split(s, i, seq![QUOTE], escape(content) + seq![QUOTE]);
    lemma_match_byte(s, i, seq![QUOTE], 0);
    lemma_parse_escape(s, i + 1, content);
}

/// Distinct character sequences have distinct encodings.
proof fn lemma_encode_ne(a: Seq<char>, b: Seq<char>)
    requires
        a != b,
    ensures
        encode_utf8(a) != encode_utf8(b),
{
    if encode_utf8(a) == encode_utf8(b) {
        encode_utf8_decode_utf8(a);
        encode_utf8_decode_utf8(b);
    }
}

/// Looking up a key's own field name finds that key.
proof fn lemma_key_lookup_finds(k: AttributeKey)
    ensures
        key_lookup(name_bytes(k)) == Some(k),
{
    crate::keys::lemma_key_names_distinct();
    crate::keys::lemma_key_order();
    lemma_key_lookup_finds_from(k, 0);
}

proof fn lemma_key_lookup_finds_from(k: AttributeKey, n: int)
    requires
        0 <= n <= key_index(k),
        forall|k1: AttributeKey, k2: AttributeKey| key_name(k1) == key_name(k2) ==> k1 == k2,
        key_index(k) < KEY_COUNT,
        forall|q: int| 0 <= q < KEY_COUNT ==> #[trigger] key_index(key_at(q)) == q,
    ensures
        key_lookup_from(name_bytes(k), n) == Some(k),
    decreases KEY_COUNT - n,
{
    if key_at(n) == k {
        assert(key_index(key_at(n)) == n);
    } else {
        assert(key_name(key_at(n)) != key_name(k));
        lemma_encode_ne(key_name(key_at(n)), key_name(k));
        assert(key_index(key_at(n)) == n);
        assert(n < key_index(k));
        lemma_key_lookup_finds_from(k, n + 1);
    }
}

/// Every value rendering is nonempty and starts with no whitespace.
proof fn lemma_value_bytes_head(v: AttrValue)
    ensures
        value_bytes(v).len() >= 1,
        !is_ws(value_bytes(v)[0]),
        value_bytes(v)[0] != QUOTE,
{
    match v {
        AttrValue::Color(_) => {
        },
        AttrValue::Width(w) => {
            lemma_dec_bytes_digits(((if w < 0 {
                -(w as int)
            } else {
                w as int
            }) / 1000) as nat);
        },
        AttrValue::Radius(x) => {
            lemma_dec_bytes_digits(x as nat);
        },
        AttrValue::Flag(_) => {
        },
    }
}

/// One attribute member read back: it stores exactly the written value.
proof fn lemma_member_key(s: Seq<u8>, i: int, st: PartState, k: AttributeKey, v: AttrValue, fuel: nat)
    requires
        st.overrides.len() == KEY_COUNT,
        st.overrides[key_index(k)] is None,
        value_kind(v) == key_kind(k),
        value_wf(v),
        match_at(s, i, member_bytes(key_name(k), value_bytes(v))),
        i + member_bytes(key_name(k), value_bytes(v)).len() < s.len(),
        s[i + member_bytes(key_name(k), value_bytes(v)).len()] == COMMA || s[i + member_bytes(
            key_name(k),
            value_bytes(v),
        ).len()] == RBRACE,
    ensures
        parse_member_into(s, i, st, fuel) == Some(
            (
                PartState { overrides: st.overrides.update(key_index(k), Some(v)), ..st },
                i + member_bytes(key_name(k), value_bytes(v)).len(),
            ),
        ),
{
    reveal(parse_member_into);
    crate::keys::lemma_key_names_distinct();
    let nb = name_bytes(k);
    let payload = value_bytes(v);
    let mb = member_bytes(key_name(k), payload);
    assert(mb =~= quoted(nb) + seq![COLON] + payload);
    lemma_match_split(s, i, quoted(nb) + seq![COLON], payload);
    lemma_match_split(s, i, quoted(nb), seq![COLON]);
    lemma_parse_string_bytes(s, i, nb);
    let j = i + quoted(nb).len();
    lemma_match_byte(s, j, seq![COLON], 0);
    lemma_skip_ws_at(s, j);
    let j3 = j + 1;
    lemma_value_bytes_head(v);
    lemma_match_byte(s, j3, payload, 0);
    lemma_skip_ws_at(s, j3);
    lemma_encode_ne(key_name(k), "name"@);
    lemma_encode_ne(key_name(k), "dark_mode"@);
    lemma_key_lookup_finds(k);
    let e = i + mb.len();
    assert(!is_digit(s[e]) && s[e] != DOT);
    match v {
        AttrValue::Color(c) => {
            lemma_parse_color_bytes(s, j3, c);
        },
        AttrValue::Width(w) => {
            lemma_parse_width_bytes(s, j3, w as int);
        },
        AttrValue::Radius(x) => {
            lemma_parse_u8_dec(s, j3, x);
        },
        AttrValue::Flag(b) => {
            lemma_parse_bool_bytes(s, j3, b);
        },
    }
}

/// The `name` member read back.
proof fn lemma_member_name(s: Seq<u8>, i: int, st: PartState, text: Seq<char>, fuel: nat)
    requires
        st.name is None,
        match_at(s, i, member_bytes("name"@, quoted(encode_utf8(text)))),
    ensures
        parse_member_into(s, i, st, fuel) == Some(
            (
                PartState { name: Some(text), ..st },
                i + member_bytes("name"@, quoted(encode_utf8(text))).len(),
            ),
        ),
{
    reveal(parse_member_into);
    let nb = encode_utf8("name"@);
    let payload = quoted(encode_utf8(text));
    let mb = member_bytes("name"@, payload);
    assert(mb =~= quoted(nb) + seq![COLON] + payload);
    lemma_match_split(s, i, quoted(nb) + seq![COLON], payload);
    lemma_match_split(s, i, quoted(nb), seq![COLON]);
    lemma_parse_string_bytes(s, i, nb);
    let j = i + quoted(nb).len();
    lemma_match_byte(s, j, seq![COLON], 0);
    lemma_skip_ws_at(s, j);
    let j3 = j + 1;
    lemma_match_byte(s, j3, payload, 0);
    assert(payload[0] == QUOTE);
    lemma_skip_ws_at(s, j3);
    lemma_parse_string_bytes(s, j3, encode_utf8(text));
    encode_utf8_valid_utf8(text);
    encode_utf8_decode_utf8(text);
}

/// The `dark_mode` member read back.
proof fn lemma_member_dark(s: Seq<u8>, i: int, st: PartState, b: bool, fuel: nat)
    requires
        st.dark_mode is None,
        match_at(s, i, member_bytes("dark_mode"@, bool_bytes(b))),
    ensures
        parse_member_into(s, i, st, fuel) == Some(
            (
                PartState { dark_mode: Some(b), ..st },
                i + member_bytes("dark_mode"@, bool_bytes(b)).len(),
            ),
        ),
{
    reveal(parse_member_into);
    let nb = encode_utf8("dark_mode"@);
    let payload = bool_bytes(b);
    let mb = member_bytes("dark_mode"@, payload);
    assert(mb =~= quoted(nb) + seq![COLON] + payload);
    lemma_match_split(s, i, quoted(nb) + seq![COLON], payload);
    lemma_match_split(s, i, quoted(nb), seq![COLON]);
    lemma_parse_string_bytes(s, i, nb);
    let j = i + quoted(nb).len();
    lemma_match_byte(s, j, seq![COLON], 0);
    lemma_skip_ws_at(s, j);
    let j3 = j + 1;
    lemma_match_byte(s, j3, payload, 0);
    lemma_skip_ws_at(s, j3);
    reveal_strlit("name");
    reveal_strlit("dark_mode");
    assert("dark_mode"@.len() == 9 && "name"@.len() == 4);
    lemma_encode_ne("dark_mode"@, "name"@);
    lemma_parse_bool_bytes(s, j3, b);
}

/// The attribute members for the keys from position `n` on, each preceded
/// by its separating comma, in enumeration order.
pub open spec fn members_from(m: ConfigModel, n: int) -> Seq<u8>
    decreases KEY_COUNT - n,
{
    if !(0 <= n < KEY_COUNT) {
        seq![]
    } else {
        (match m.overrides[n] {
            Some(v) => seq![COMMA] + member_bytes(key_name(key_at(n)), value_bytes(v)),
            None => seq![],
        }) + members_from(m, n + 1)
    }
}

/// How many keys from position `n` on are populated.
pub open spec fn present_from(m: ConfigModel, n: int) -> nat
    decreases KEY_COUNT - n,
{
    if !(0 <= n < KEY_COUNT) {
        0
    } else {
        (if m.overrides[n] is Some {
            1nat
        } else {
            0nat
        }) + present_from(m, n + 1)
    }
}

/// The prefix-accumulated members equal the suffix-defined members.
proof fn lemma_members_join(m: ConfigModel, j: int)
    requires
        0 <= j <= KEY_COUNT,
    ensures
        members_upto(m, j) + members_from(m, j) == members_from(m, 0),
    decreases j,
{
    if j == 0 {
        assert(members_upto(m, 0) + members_from(m, 0) =~= members_from(m, 0));
    } else {
        lemma_members_join(m, j - 1);
        let entry = match m.overrides[j - 1] {
            Some(v) => seq![COMMA] + member_bytes(key_name(key_at(j - 1)), value_bytes(v)),
            None => seq![],
        };
        assert(members_upto(m, j) =~= members_upto(m, j - 1) + entry);
        assert(members_from(m, j - 1) == entry + members_from(m, j));
        assert(members_upto(m, j) + members_from(m, j) =~= members_upto(m, j - 1) + (entry
            + members_from(m, j)));
    }
}

/// Member lists start with their comma and are at least five bytes per
/// member.
proof fn lemma_members_from_shape(m: ConfigModel, n: int)
    ensures
        members_from(m, n).len() >= 5 * present_from(m, n),
        members_from(m, n).len() > 0 ==> members_from(m, n)[0] == COMMA,
        members_from(m, n).len() == 0 ==> present_from(m, n) == 0,
    decreases KEY_COUNT - n,
{
    if 0 <= n < KEY_COUNT {
        lemma_members_from_shape(m, n + 1);
        match m.overrides[n] {
            Some(v) => {
                lemma_value_bytes_head(v);
                let entry = seq![COMMA] + member_bytes(key_name(key_at(n)), value_bytes(v));
                assert(entry[0] == COMMA);
                assert(entry.len() >= 5);
                assert(members_from(m, n)[0] == entry[0]);
            },
            None => {
                assert(members_from(m, n) =~= members_from(m, n + 1));
            },
        }
    }
}

/// The state after all members of a whole override set have been read.
pub open spec fn final_state(m: ConfigModel) -> PartState {
    PartState { name: Some(m.name), dark_mode: Some(m.dark_mode), overrides: m.overrides }
}

/// The member-list continuation: once the required members are read and
/// the remaining bytes are the attribute members and the closing brace,
/// the member loop finishes with the whole override row.
proof fn lemma_parse_tail(s: Seq<u8>, m: ConfigModel, n: int, st: PartState, j: int, fuel: nat)
    requires
        m.wf(),
        0 <= n <= KEY_COUNT,
        st.name == Some(m.name),
        st.dark_mode == Some(m.dark_mode),
        st.overrides.len() == KEY_COUNT,
        forall|q: int| 0 <= q < n ==> st.overrides[q] == m.overrides[q],
        forall|q: int| n <= q < KEY_COUNT ==> st.overrides[q] is None,
        match_at(s, j, members_from(m, n) + seq![RBRACE]),
        fuel >= 1 + present_from(m, n),
    ensures
        forall|i0: int, st0: PartState|
            parse_member_into(s, i0, st0, fuel) == Some((st, j))
                ==> #[trigger] parse_members(s, i0, st0, fuel) == Some(
                (final_state(m), j + members_from(m, n).len() + 1),
            ),
    decreases KEY_COUNT - n,
{
    crate::keys::lemma_key_order();
    lemma_members_from_shape(m, n);
    if n == KEY_COUNT {
        lemma_match_byte(s, j, members_from(m, n) + seq![RBRACE], 0);
        assert(s[j] == RBRACE);
        lemma_skip_ws_at(s, j);
        assert(st.overrides =~= m.overrides);
        assert(st =~= final_state(m));
        assert forall|i0: int, st0: PartState|
            parse_member_into(s, i0, st0, fuel) == Some((st, j)) implies #[trigger] parse_members(
            s,
            i0,
            st0,
            fuel,
        ) == Some((final_state(m), j + members_from(m, n).len() + 1)) by {
            assert(parse_members(s, i0, st0, fuel) == Some((st, j + 1)));
        }
    } else {
        match m.overrides[n] {
            None => {
                assert(members_from(m, n) =~= members_from(m, n + 1));
                lemma_parse_tail(s, m, n + 1, st, j, fuel);
            },
            Some(v) => {
                let k = key_at(n);
                assert(key_index(k) == n);
                let mb = member_bytes(key_name(k), value_bytes(v));
                let rest = members_from(m, n + 1);
                assert(members_from(m, n) + seq![RBRACE] =~= seq![COMMA] + (mb + (rest + seq![
                    RBRACE,
                ])));
                lemma_match_split(s, j, seq![COMMA], mb + (rest + seq![RBRACE]));
                lemma_match_byte(s, j, seq![COMMA], 0);
                lemma_match_split(s, j + 1, mb, rest + seq![RBRACE]);
                let j1 = j + 1 + mb.len();
                lemma_members_from_shape(m, n + 1);
                lemma_match_byte(s, j1, rest + seq![RBRACE], 0);
                if rest.len() > 0 {
                    assert(s[j1] == COMMA);
                } else {
                    assert(s[j1] == RBRACE);
                }
                let st2 = PartState { overrides: st.overrides.update(n, Some(v)), ..st };
                lemma_member_key(s, j + 1, st, k, v, (fuel - 1) as nat);
                lemma_parse_tail(s, m, n + 1, st2, j1, (fuel - 1) as nat);
                assert forall|i0: int, st0: PartState|
                    parse_member_into(s, i0, st0, fuel) == Some((st, j))
                        implies #[trigger] parse_members(s, i0, st0, fuel) == Some(
                    (final_state(m), j + members_from(m, n).len() + 1),
                ) by {
                    lemma_skip_ws_at(s, j);
                    assert(s[j] == COMMA);
                    let jq = j + 1;
                    lemma_match_byte(s, jq, mb, 0);
                    assert(mb[0] == QUOTE);
                    lemma_skip_ws_at(s, jq);
                    assert(parse_member_into(s, jq, st, (fuel - 1) as nat) == Some((st2, j1)));
                    assert(parse_members(s, jq, st, (fuel - 1) as nat) == Some(
                        (final_state(m), j1 + members_from(m, n + 1).len() + 1),
                    ));
                    assert(parse_members(s, i0, st0, fuel) == parse_members(
                        s,
                        jq,
                        st,
                        (fuel - 1) as nat,
                    ));
                }
            },
        }
    }
}

/// No key's field name matches the given bytes.
proof fn lemma_key_lookup_none(b: Seq<u8>, n: int)
    requires
        forall|k: AttributeKey| name_bytes(k) != b,
        0 <= n,
    ensures
        key_lookup_from(b, n) is None,
    decreases KEY_COUNT - n,
{
    if n < KEY_COUNT {
        lemma_key_lookup_none(b, n + 1);
    }
}

/// A member with an unrecognized field name and a string value is read and
/// ignored: the parse state is unchanged.
proof fn lemma_member_unknown(
    s: Seq<u8>,
    i: int,
    st: PartState,
    fname: Seq<char>,
    text: Seq<char>,
    fuel: nat,
)
    requires
        fname != "name"@,
        fname != "dark_mode"@,
        forall|k: AttributeKey| key_name(k) != fname,
        match_at(s, i, member_bytes(fname, quoted(encode_utf8(text)))),
    ensures
        parse_member_into(s, i, st, fuel) == Some(
            (st, i + member_bytes(fname, quoted(encode_utf8(text))).len()),
        ),
{
    reveal(parse_member_into);
    let nb = encode_utf8(fname);
    let payload = quoted(encode_utf8(text));
    let mb = member_bytes(fname, payload);
    assert(mb =~= quoted(nb) + seq![COLON] + payload);
    lemma_match_split(s, i, quoted(nb) + seq![COLON], payload);
    lemma_match_split(s, i, quoted(nb), seq![COLON]);
    lemma_parse_string_bytes(s, i, nb);
    let j = i + quoted(nb).len();
    lemma_match_byte(s, j, seq![COLON], 0);
    lemma_skip_ws_at(s, j);
    let j3 = j + 1;
    lemma_match_byte(s, j3, payload, 0);
    assert(payload[0] == QUOTE);
    lemma_skip_ws_at(s, j3);
    lemma_encode_ne(fname, "name"@);
    lemma_encode_ne(fname, "dark_mode"@);
    assert forall|k: AttributeKey| name_bytes(k) != nb by {
        lemma_encode_ne(key_name(k), fname);
    }
    lemma_key_lookup_none(nb, 0);
    lemma_parse_string_bytes(s, j3, encode_utf8(text));
}

/// A saved document with one extra, unrecognized string member inserted
/// after the required fields.
pub open spec fn save_bytes_with_extra(m: ConfigModel, fname: Seq<char>, text: Seq<char>) -> Seq<
    u8,
> {
    seq![LBRACE] + member_bytes("name"@, quoted(encode_utf8(m.name))) + seq![COMMA] + member_bytes(
        "dark_mode"@,
        bool_bytes(m.dark_mode),
    ) + seq![COMMA] + member_bytes(fname, quoted(encode_utf8(text))) + members_upto(
        m,
        KEY_COUNT as int,
    ) + seq![RBRACE]
}

/// Forward compatibility: a document holding everything a saved set holds
/// plus one member with an unrecognized name still parses, to the same
/// set; the unknown member is ignored.
#[verifier::rlimit(100)]
pub proof fn lemma_unknown_member_ignored(m: ConfigModel, fname: Seq<char>, text: Seq<char>)
    requires
        m.wf(),
        fname != "name"@,
        fname != "dark_mode"@,
        forall|k: AttributeKey| key_name(k) != fname,
    ensures
        parse_document(save_bytes_with_extra(m, fname, text)) == Some(m),
{
    crate::keys::lemma_key_order();
    let s = save_bytes_with_extra(m, fname, text);
    let pa = seq![LBRACE];
    let pb = member_bytes("name"@, quoted(encode_utf8(m.name)));
    let pc = seq![COMMA];
    let pd = member_bytes("dark_mode"@, bool_bytes(m.dark_mode));
    let px = member_bytes(fname, quoted(encode_utf8(text)));
    let pe = members_upto(m, KEY_COUNT as int);
    let pf = seq![RBRACE];
    assert(s =~= pa + pb + pc + pd + pc + px + pe + pf);
    lemma_members_join(m, KEY_COUNT as int);
    assert(pe =~= members_from(m, 0));
    assert(match_at(s, 0, s)) by {
        assert(s.subrange(0, s.len() as int) =~= s);
    }
    lemma_match_split(s, 0, pa + pb + pc + pd + pc + px + pe, pf);
    lemma_match_split(s, 0, pa + pb + pc + pd + pc + px, pe);
    lemma_match_split(s, 0, pa + pb + pc + pd + pc, px);
    lemma_match_split(s, 0, pa + pb + pc + pd, pc);
    lemma_match_split(s, 0, pa + pb + pc, pd);
    lemma_match_split(s, 0, pa + pb, pc);
    lemma_match_split(s, 0, pa, pb);
    lemma_match_byte(s, 0, pa, 0);
    lemma_skip_ws_at(s, 0);
    let ib: int = 1;
    let ic = ib + pb.len();
    let id = ic + 1;
    let ix0 = id + pd.len();
    let ix = ix0 + 1;
    let ie = ix + px.len();
    lemma_match_byte(s, ib, pb, 0);
    assert(pb[0] == QUOTE);
    lemma_skip_ws_at(s, ib);
    let fuel0 = (s.len() + 1) as nat;
    let st0 = empty_state();
    lemma_member_name(s, ib, st0, m.name, fuel0);
    let st1 = PartState { name: Some(m.name), ..st0 };
    lemma_match_byte(s, ic, pc, 0);
    lemma_skip_ws_at(s, ic);
    lemma_match_byte(s, id, pd, 0);
    assert(pd[0] == QUOTE);
    lemma_skip_ws_at(s, id);
    lemma_member_dark(s, id, st1, m.dark_mode, (fuel0 - 1) as nat);
    let st2 = PartState { dark_mode: Some(m.dark_mode), ..st1 };
    lemma_match_byte(s, ix0, pc, 0);
    lemma_skip_ws_at(s, ix0);
    lemma_match_byte(s, ix, px, 0);
    assert(px[0] == QUOTE);
    lemma_skip_ws_at(s, ix);
    lemma_member_unknown(s, ix, st2, fname, text, (fuel0 - 2) as nat);
    lemma_members_from_shape(m, 0);
    assert(match_at(s, ie, members_from(m, 0) + pf)) by {
        assert(s =~= (pa + pb + pc + pd + pc + px) + (pe + pf));
        lemma_match_split(s, 0, pa + pb + pc + pd + pc + px, pe + pf);
        assert(pe + pf =~= members_from(m, 0) + pf);
    }
    assert(fuel0 - 2 >= 1 + present_from(m, 0)) by {
        assert(5 * present_from(m, 0) <= members_from(m, 0).len());
        assert(s.len() == 4 + pb.len() + pd.len() + px.len() + members_from(m, 0).len());
    }
    lemma_parse_tail(s, m, 0, st2, ie, (fuel0 - 2) as nat);
    let end = ie + members_from(m, 0).len() + 1;
    assert(end == s.len());
    assert(s[0] == LBRACE);
    assert(skip_ws(s, 0) == 0);
    assert(skip_ws(s, 1) == 1);
    assert(s[1] == QUOTE);
    assert(s[1] != RBRACE);
    assert(parse_member_into(s, ib, st0, fuel0) == Some((st1, ic)));
    lemma_match_byte(s, ie, members_from(m, 0) + pf, 0);
    if members_from(m, 0).len() > 0 {
        assert(s[ie] == COMMA);
    } else {
        assert(s[ie] == RBRACE);
    }
    assert(parse_member_into(s, id, st1, (fuel0 - 1) as nat) == Some((st2, ix0)));
    assert(parse_member_into(s, ix, st2, (fuel0 - 2) as nat) == Some((st2, ie)));
    assert(parse_members(s, ix, st2, (fuel0 - 2) as nat) == Some((final_state(m), end)));
    assert(parse_members(s, id, st1, (fuel0 - 1) as nat) == Some((final_state(m), end))) by {
        assert(skip_ws(s, ix0) == ix0);
        assert(s[ix0] == COMMA);
        assert(skip_ws(s, ix0 + 1) == ix);
    }
    assert(parse_members(s, ib, st0, fuel0) == Some((final_state(m), end))) by {
        assert(skip_ws(s, ic) == ic);
        assert(s[ic] == COMMA);
        assert(skip_ws(s, ic + 1) == id);
    }
    assert(skip_ws(s, end) == end);
    assert(finish_state(final_state(m)) == Some(m)) by {
        assert(ConfigModel {
            name: m.name,
            dark_mode: m.dark_mode,
            overrides: m.overrides,
        } =~= m);
    }
}

/// Round trip: the document written for any well-formed override set
/// parses back to exactly that set.
#[verifier::rlimit(100)]
pub proof fn lemma_save_parses(m: ConfigModel)
    requires
        m.wf(),
    ensures
        parse_document(save_bytes(m)) == Some(m),
{
    crate::keys::lemma_key_order();
    let s = save_bytes(m);
    let pa = seq![LBRACE];
    let pb = member_bytes("name"@, quoted(encode_utf8(m.name)));
    let pc = seq![COMMA];
    let pd = member_bytes("dark_mode"@, bool_bytes(m.dark_mode));
    let pe = members_upto(m, KEY_COUNT as int);
    let pf = seq![RBRACE];
    assert(s =~= pa + pb + pc + pd + pe + pf);
    lemma_members_join(m, KEY_COUNT as int);
    assert(pe =~= members_from(m, 0));
    assert(match_at(s, 0, s)) by {
        assert(s.subrange(0, s.len() as int) =~= s);
    }
    lemma_match_split(s, 0, pa + pb + pc + pd + pe, pf);
    lemma_match_split(s, 0, pa + pb + pc + pd, pe);
    lemma_match_split(s, 0, pa + pb + pc, pd);
    lemma_match_split(s, 0, pa + pb, pc);
    lemma_match_split(s, 0, pa, pb);
    lemma_match_byte(s, 0, pa, 0);
    lemma_skip_ws_at(s, 0);
    let ib: int = 1;
    let ic = ib + pb.len();
    let id = ic + 1;
    let ie = id + pd.len();
    lemma_match_byte(s, ib, pb, 0);
    assert(pb[0] == QUOTE);
    lemma_skip_ws_at(s, ib);
    let fuel0 = (s.len() + 1) as nat;
    let st0 = empty_state();
    lemma_member_name(s, ib, st0, m.name, fuel0);
    let st1 = PartState { name: Some(m.name), ..st0 };
    lemma_match_byte(s, ic, pc, 0);
    lemma_skip_ws_at(s, ic);
    lemma_match_byte(s, id, pd, 0);
    assert(pd[0] == QUOTE);
    lemma_skip_ws_at(s, id);
    lemma_member_dark(s, id, st1, m.dark_mode, (fuel0 - 1) as nat);
    let st2 = PartState { dark_mode: Some(m.dark_mode), ..st1 };
    lemma_members_from_shape(m, 0);
    assert(match_at(s, ie, members_from(m, 0) + pf)) by {
        assert(s =~= (pa + pb + pc + pd) + (pe + pf));
        lemma_match_split(s, 0, pa + pb + pc + pd, pe + pf);
        assert(pe + pf =~= members_from(m, 0) + pf);
    }
    assert(fuel0 - 1 >= 1 + present_from(m, 0)) by {
        assert(5 * present_from(m, 0) <= members_from(m, 0).len());
        assert(s.len() == 3 + pb.len() + pd.len() + members_from(m, 0).len());
    }
    lemma_parse_tail(s, m, 0, st2, ie, (fuel0 - 1) as nat);
    let end = ie + members_from(m, 0).len() + 1;
    assert(end == s.len());
    // walk the document parser over the pieces
    assert(s[0] == LBRACE);
    assert(skip_ws(s, 0) == 0);
    assert(skip_ws(s, 1) == 1);
    assert(s[1] == QUOTE);
    assert(s[1] != RBRACE);
    assert(parse_member_into(s, ib, st0, fuel0) == Some((st1, ic)));
    lemma_match_byte(s, ie, members_from(m, 0) + pf, 0);
    if members_from(m, 0).len() > 0 {
        assert(s[ie] == COMMA);
    } else {
        assert(s[ie] == RBRACE);
    }
    assert(parse_member_into(s, id, st1, (fuel0 - 1) as nat) == Some((st2, ie)));
    assert(parse_members(s, id, st1, (fuel0 - 1) as nat) == Some((final_state(m), end)));
    assert(parse_members(s, ib, st0, fuel0) == Some((final_state(m), end))) by {
        assert(skip_ws(s, ic) == ic);
        assert(s[ic] == COMMA);
        assert(skip_ws(s, ic + 1) == id);
    }
    assert(skip_ws(s, end) == end);
    assert(finish_state(final_state(m)) == Some(m)) by {
        assert(ConfigModel {
            name: m.name,
            dark_mode: m.dark_mode,
            overrides: m.overrides,
        } =~= m);
    }
}

} // verus!
