//! The executable JSON writer: produces exactly the bytes that
//! [`crate::json::format`] defines.

use vstd::prelude::*;
use vstd::string::StringSliceAdditionalSpecFns;

use crate::json::format::{
    bool_bytes, color_bytes, dec_bytes, esc_byte, escape, quoted, value_bytes, width_bytes,
    BACKSLASH, COLON, COMMA, DOT, LBRACKET, MINUS, QUOTE, RBRACKET,
};
use crate::keys::{AttributeKey, KEY_COUNT};
use crate::values::{AttrValue, Rgba};

verus! {

/// Appends the decimal digits of `n`.
pub(crate) fn push_dec(out: &mut Vec<u8>, n: u32)
    ensures
        final(out)@ == old(out)@ + dec_bytes(n as nat),
    decreases n,
{
    if n >= 10 {
        push_dec(out, n / 10);
    }
    out.push(48 + (n % 10) as u8);
    proof {
        assert(out@ =~= old(out)@ + dec_bytes(n as nat));
    }
}

/// Appends the decimal rendering of a width in thousandths.
pub(crate) fn push_width(out: &mut Vec<u8>, w: i32)
    ensures
        final(out)@ == old(out)@ + width_bytes(w as int),
{
    let mag: u32 = if w < 0 {
        out.push(MINUS);
        (-(w as i64)) as u32
    } else {
        w as u32
    };
    push_dec(out, mag / 1000);
    let frac = mag % 1000;
    if frac != 0 {
        let d1 = 48 + (frac / 100) as u8;
        let d2 = 48 + ((frac / 10) % 10) as u8;
        let d3 = 48 + (frac % 10) as u8;
        out.push(DOT);
        out.push(d1);
        if frac % 10 != 0 {
            out.push(d2);
            out.push(d3);
        } else if (frac / 10) % 10 != 0 {
            out.push(d2);
        }
    }
    proof {
        assert(out@ =~= old(out)@ + width_bytes(w as int));
    }
}

/// Appends `true` or `false`.
pub(crate) fn push_bool(out: &mut Vec<u8>, b: bool)
    ensures
        final(out)@ == old(out)@ + bool_bytes(b),
{
    if b {
        out.push(116);
        out.push(114);
        out.push(117);
        out.push(101);
    } else {
        out.push(102);
        out.push(97);
        out.push(108);
        out.push(115);
        out.push(101);
    }
    proof {
        assert(out@ =~= old(out)@ + bool_bytes(b));
    }
}

/// Appends a color as a four-element array.
pub(crate) fn push_color(out: &mut Vec<u8>, c: Rgba)
    ensures
        final(out)@ == old(out)@ + color_bytes(c),
{
    out.push(LBRACKET);
    push_dec(out, c.r as u32);
    out.push(COMMA);
    push_dec(out, c.g as u32);
    out.push(COMMA);
    push_dec(out, c.b as u32);
    out.push(COMMA);
    push_dec(out, c.a as u32);
    out.push(RBRACKET);
    proof {
        assert(out@ =~= old(out)@ + color_bytes(c));
    }
}

/// Appends the rendering of one override value.
pub(crate) fn push_value(out: &mut Vec<u8>, v: &AttrValue)
    ensures
        final(out)@ == old(out)@ + value_bytes(*v),
{
    match v {
        AttrValue::Color(c) => push_color(out, *c),
        AttrValue::Width(w) => push_width(out, *w),
        AttrValue::Radius(x) => push_dec(out, *x as u32),
        AttrValue::Flag(b) => push_bool(out, *b),
    }
}

/// Emitting one more content byte extends the escaped rendering by that
/// byte's escape.
proof fn lemma_escape_push(content: Seq<u8>, b: u8)
    ensures
        escape(content.push(b)) == escape(content) + esc_byte(b),
    decreases content.len(),
{
    if content.len() == 0 {
        assert(content.push(b)[0] == b);
        assert(content.push(b).drop_first() =~= Seq::<u8>::empty());
        assert(escape(content.push(b)) == esc_byte(b) + escape(Seq::<u8>::empty()));
        assert(escape(content.push(b)) =~= escape(content) + esc_byte(b));
    } else {
        assert(content.push(b)[0] == content[0]);
        assert(content.push(b).drop_first() =~= content.drop_first().push(b));
        lemma_escape_push(content.drop_first(), b);
        assert(escape(content.push(b)) == esc_byte(content[0]) + (escape(content.drop_first())
            + esc_byte(b)));
        assert(escape(content.push(b)) =~= escape(content) + esc_byte(b));
    }
}

/// Appends string content, escaping each byte as the format requires.
pub(crate) fn push_escaped(out: &mut Vec<u8>, content: &[u8])
    ensures
        final(out)@ == old(out)@ + escape(content@),
{
    let ghost prefix = out@;
    let mut i: usize = 0;
    while i < content.len()
        invariant
            i <= content@.len(),
            out@ == prefix + escape(content@.take(i as int)),
        decreases content@.len() - i,
    {
        let b = content[i];
        if b == QUOTE {
            out.push(BACKSLASH);
            out.push(QUOTE);
        } else if b == BACKSLASH {
            out.push(BACKSLASH);
            out.push(BACKSLASH);
        } else if b < 32 {
            out.push(BACKSLASH);
            out.push(117);
            out.push(48);
            out.push(48);
            let hi = b / 16;
            let lo = b % 16;
            out.push(if hi < 10 { 48 + hi } else { 87 + hi });
            out.push(if lo < 10 { 48 + lo } else { 87 + lo });
        } else {
            out.push(b);
        }
        proof {
            lemma_escape_push(content@.take(i as int), content@[i as int]);
            assert(content@.take(i + 1) =~= content@.take(i as int).push(content@[i as int]));
            assert(out@ =~= prefix + escape(content@.take(i + 1)));
        }
        i = i + 1;
    }
    proof {
        assert(content@.take(content@.len() as int) =~= content@);
    }
}

/// Appends a quoted string with the given content bytes.
pub(crate) fn push_quoted(out: &mut Vec<u8>, content: &[u8])
    ensures
        final(out)@ == old(out)@ + quoted(content@),
{
    out.push(QUOTE);
    push_escaped(out, content);
    out.push(QUOTE);
    proof {
        assert(out@ =~= old(out)@ + quoted(content@));
    }
}

/// Appends a member header for a field: quoted name and colon.
pub(crate) fn push_member_name(out: &mut Vec<u8>, name: &str)
    ensures
        final(out)@ == old(out)@ + quoted(name.spec_bytes()) + seq![COLON],
{
    push_quoted(out, name.as_bytes());
    out.push(COLON);
    proof {
        assert(out@ =~= old(out)@ + quoted(name.spec_bytes()) + seq![COLON]);
    }
}

} // verus!
