//! The executable parser: decides exactly the documents that
//! [`crate::json::parse_spec`] accepts, and returns the same model.

use vstd::prelude::*;

use crate::json::format::{BACKSLASH, COLON, COMMA, DOT, LBRACE, LBRACKET, MINUS, QUOTE, RBRACE,
    RBRACKET};
use crate::json::parse_spec::{empty_state, hex4_val, hex_val, is_digit, is_hex, key_lookup,
    key_lookup_from, match_at, name_bytes, parse_bool, parse_color, parse_document,
    parse_member_into, parse_members, parse_scaled, parse_string, parse_string_body, parse_u8,
    parse_width, pow10, run_end, run_val, skip_items, skip_number, skip_value, skip_ws,
    PartState};
use crate::keys::{AttributeKey, ValueKind, KEY_COUNT};
use crate::values::{value_kind, AttrValue, Rgba};
use vstd::string::StringSliceAdditionalSpecFns;
use vstd::utf8::{decode_utf8, valid_utf8};

verus! {

/// The small powers of ten, spelled out.
pub(crate) proof fn lemma_pow10_vals()
    ensures
        pow10(0) == 1,
        pow10(1) == 10,
        pow10(2) == 100,
        pow10(3) == 1000,
        pow10(4) == 10000,
        pow10(5) == 100000,
        pow10(6) == 1000000,
        pow10(7) == 10000000,
        pow10(8) == 100000000,
        pow10(9) == 1000000000,
        pow10(10) == 10000000000,
        pow10(11) == 100000000000,
        pow10(12) == 1000000000000,
{
    assert(pow10(0) == 1);
    assert(pow10(1) == 10);
    assert(pow10(2) == 100);
    assert(pow10(3) == 1000);
    assert(pow10(4) == 10000);
    assert(pow10(5) == 100000);
    assert(pow10(6) == 1000000);
    assert(pow10(7) == 10000000);
    assert(pow10(8) == 100000000);
    assert(pow10(9) == 1000000000);
    assert(pow10(10) == 10000000000);
    assert(pow10(11) == 100000000000);
    assert(pow10(12) == 1000000000000);
}

/// The larger powers of ten an exact division may need.
pub(crate) proof fn lemma_pow10_vals_large()
    ensures
        pow10(22) == 10_000_000_000_000_000_000_000,
        pow10(31) == 10_000_000_000_000_000_000_000_000_000_000,
{
    lemma_pow10_vals();
    assert(pow10(13) == 10 * pow10(12));
    assert(pow10(14) == 10 * pow10(13));
    assert(pow10(15) == 10 * pow10(14));
    assert(pow10(16) == 10 * pow10(15));
    assert(pow10(17) == 10 * pow10(16));
    assert(pow10(18) == 10 * pow10(17));
    assert(pow10(19) == 10 * pow10(18));
    assert(pow10(20) == 10 * pow10(19));
    assert(pow10(21) == 10 * pow10(20));
    assert(pow10(22) == 10 * pow10(21));
    assert(pow10(23) == 10 * pow10(22));
    assert(pow10(24) == 10 * pow10(23));
    assert(pow10(25) == 10 * pow10(24));
    assert(pow10(26) == 10 * pow10(25));
    assert(pow10(27) == 10 * pow10(26));
    assert(pow10(28) == 10 * pow10(27));
    assert(pow10(29) == 10 * pow10(28));
    assert(pow10(30) == 10 * pow10(29));
    assert(pow10(31) == 10 * pow10(30));
}

/// Powers of ten multiply by adding exponents.
pub(crate) proof fn lemma_pow10_adds(a: nat, b: nat)
    ensures
        pow10(a + b) == pow10(a) * pow10(b),
    decreases a,
{
    if a == 0 {
        assert(pow10(0 + b) == 1 * pow10(b));
    } else {
        lemma_pow10_adds((a - 1) as nat, b);
        assert(((a - 1) as nat) + b == (a + b - 1) as nat);
        assert(pow10((a + b - 1) as nat) == pow10((a - 1) as nat) * pow10(b));
        assert(pow10(a + b) == 10 * pow10((a + b - 1) as nat));
        assert(pow10(a) == 10 * pow10((a - 1) as nat));
        assert((10 * pow10((a - 1) as nat)) * pow10(b) == 10 * (pow10((a - 1) as nat) * pow10(
            b,
        ))) by (nonlinear_arith);
    }
}

/// Everything before the run end is a digit; the run end is not.
proof fn lemma_run_end_props(s: Seq<u8>, i: int)
    requires
        0 <= i <= s.len(),
    ensures
        i <= run_end(s, i) <= s.len(),
        forall|p: int| i <= p < run_end(s, i) ==> is_digit(s[p]),
        run_end(s, i) < s.len() ==> !is_digit(s[run_end(s, i)]),
    decreases s.len() - i,
{
    if i < s.len() && is_digit(s[i]) {
        lemma_run_end_props(s, i + 1);
    }
}

/// A digit run of `k` digits has value below ten to the `k`.
proof fn lemma_run_val_bound(s: Seq<u8>, i: int, j: int)
    requires
        i <= j,
    ensures
        run_val(s, i, j) < pow10((j - i) as nat),
    decreases j - i,
{
    if i < j {
        lemma_run_val_bound(s, i, j - 1);
    }
}

/// Advances past whitespace.
fn ws_to(s: &[u8], i: usize) -> (r: usize)
    requires
        i <= s@.len(),
    ensures
        r == skip_ws(s@, i as int),
        i <= r <= s@.len(),
    decreases s@.len() - i,
{
    if i < s.len() {
        let b = s[i];
        if b == 32 || b == 9 || b == 10 || b == 13 {
            return ws_to(s, i + 1);
        }
    }
    i
}

/// The end of the digit run starting at `i`.
fn run_end_at(s: &[u8], i: usize) -> (r: usize)
    requires
        i <= s@.len(),
    ensures
        r == run_end(s@, i as int),
        i <= r <= s@.len(),
    decreases s@.len() - i,
{
    if i < s.len() && 48 <= s[i] && s[i] <= 57 {
        return run_end_at(s, i + 1);
    }
    i
}

/// Ten to the `n` is monotone in `n`.
proof fn lemma_pow10_mono(a: nat, b: nat)
    requires
        a <= b,
    ensures
        pow10(a) <= pow10(b),
    decreases b,
{
    if a < b {
        lemma_pow10_mono(a, (b - 1) as nat);
        assert(pow10(b) == 10 * pow10((b - 1) as nat));
    }
}

/// Ten to the `n`, for the small exponents a digit run can carry.
fn pow10_u64(k: usize) -> (r: u64)
    requires
        k <= 12,
    ensures
        r == pow10(k as nat),
{
    proof {
        lemma_pow10_vals();
        lemma_pow10_mono(k as nat, 12nat);
    }
    let mut r: u64 = 1;
    let mut n: usize = 0;
    while n < k
        invariant
            n <= k <= 12,
            r == pow10(n as nat),
        decreases k - n,
    {
        proof {
            lemma_pow10_vals();
            lemma_pow10_mono((n + 1) as nat, 12nat);
        }
        r = r * 10;
        n = n + 1;
    }
    r
}

/// Ten to the `n`, wide enough for an exact-division check.
fn pow10_u128(k: u64) -> (r: u128)
    requires
        k <= 22,
    ensures
        r == pow10(k as nat),
{
    proof {
        lemma_pow10_vals_large();
        lemma_pow10_mono(k as nat, 22nat);
    }
    let mut r: u128 = 1;
    let mut n: u64 = 0;
    while n < k
        invariant
            n <= k <= 22,
            r == pow10(n as nat),
        decreases k - n,
    {
        proof {
            lemma_pow10_vals_large();
            lemma_pow10_mono((n + 1) as nat, 22nat);
        }
        r = r * 10;
        n = n + 1;
    }
    r
}

/// The exact value of a short digit run.
fn run_val_at(s: &[u8], i: usize, e: usize) -> (v: u64)
    requires
        i <= e <= s@.len(),
        e - i <= 12,
        forall|p: int| i <= p < e ==> is_digit(s@[p]),
    ensures
        v == run_val(s@, i as int, e as int),
        v < pow10((e - i) as nat),
{
    let mut acc: u64 = 0;
    let mut j: usize = i;
    while j < e
        invariant
            i <= j <= e <= s@.len(),
            e - i <= 12,
            forall|p: int| i <= p < e ==> is_digit(s@[p]),
            acc == run_val(s@, i as int, j as int),
            acc < pow10((j - i) as nat),
        decreases e - j,
    {
        proof {
            lemma_pow10_mono((j - i) as nat, 11nat);
            lemma_pow10_vals();
        }
        let d = s[j] - 48;
        proof {
            assert(is_digit(s@[j as int]));
            assert(run_val(s@, i as int, j + 1) == run_val(s@, i as int, j as int) * 10 + d);
        }
        acc = acc * 10 + d as u64;
        j = j + 1;
    }
    acc
}

/// A positive mantissa times a power of ten is at least that power.
proof fn lemma_scale_up_large(mantissa: nat, k: nat)
    requires
        mantissa >= 1,
    ensures
        mantissa * pow10(k) >= pow10(k),
{
    assert(mantissa * pow10(k) >= 1 * pow10(k)) by (nonlinear_arith)
        requires
            mantissa >= 1,
    ;
}

/// A JSON number, read exactly in units of one ten-to-the-`scale`-th.
#[verifier::rlimit(100)]
fn parse_scaled_at(s: &[u8], i: usize, scale: u32, limit: u64) -> (r: Option<(i64, usize)>)
    requires
        i <= s@.len(),
        scale <= 3,
        limit <= 999_999_999,
    ensures
        match r {
            Some((v, j)) => parse_scaled(s@, i as int, scale as int, limit as nat) == Some(
                (v as int, j as int),
            ) && i <= j <= s@.len() && -(limit as int) <= v <= limit as int,
            None => parse_scaled(s@, i as int, scale as int, limit as nat) is None,
        },
{
    proof {
        lemma_pow10_vals();
        lemma_pow10_vals_large();
    }
    let neg = i < s.len() && s[i] == MINUS;
    let i0 = if neg {
        i + 1
    } else {
        i
    };
    if !(i0 < s.len() && 48 <= s[i0] && s[i0] <= 57) {
        return None;
    }
    let j = run_end_at(s, i0);
    proof {
        lemma_run_end_props(s@, i0 as int);
    }
    if s[i0] == 48 && j != i0 + 1 {
        return None;
    }
    if j - i0 > 10 {
        return None;
    }
    let has_frac = j < s.len() && s[j] == DOT && j + 1 < s.len() && 48 <= s[j + 1] && s[j + 1]
        <= 57;
    let f0 = if has_frac {
        j + 1
    } else {
        j
    };
    let f1 = if has_frac {
        run_end_at(s, j + 1)
    } else {
        j
    };
    proof {
        if has_frac {
            lemma_run_end_props(s@, j + 1);
        }
    }
    if f1 - f0 > 12 {
        return None;
    }
    let has_e = f1 < s.len() && (s[f1] == 101 || s[f1] == 69);
    let mut e_neg = false;
    let mut e0 = f1;
    let mut e1 = f1;
    if has_e {
        e_neg = f1 + 1 < s.len() && s[f1 + 1] == MINUS;
        let e_pos = f1 + 1 < s.len() && s[f1 + 1] == 43;
        e0 = if e_neg || e_pos {
            f1 + 2
        } else {
            f1 + 1
        };
        if !(e0 < s.len() && 48 <= s[e0] && s[e0] <= 57) {
            return None;
        }
        e1 = run_end_at(s, e0);
        proof {
            lemma_run_end_props(s@, e0 as int);
        }
        if e1 - e0 > 3 {
            return None;
        }
    }
    let end = if has_e {
        e1
    } else {
        f1
    };
    // the exact mantissa and decimal shift of the spelled number
    let iv = run_val_at(s, i0, j);
    let fv = if has_frac {
        run_val_at(s, f0, f1)
    } else {
        0
    };
    let fl = f1 - f0;
    let pf = pow10_u64(fl);
    proof {
        lemma_pow10_mono((j - i0) as nat, 10nat);
        lemma_pow10_mono(fl as nat, 12nat);
        lemma_pow10_vals();
        lemma_pow10_vals_large();
        assert(iv * pf < pow10(10nat) * pow10(12nat)) by (nonlinear_arith)
            requires
                iv < pow10(10nat),
                0 < pf <= pow10(12nat),
        ;
        lemma_pow10_adds(10nat, 12nat);
    }
    let mantissa: u128 = (iv as u128) * (pf as u128) + (fv as u128);
    let exp_mag: u64 = if has_e {
        run_val_at(s, e0, e1)
    } else {
        0
    };
    let shift: i64 = (if e_neg {
        -(exp_mag as i64)
    } else {
        exp_mag as i64
    }) - (fl as i64) + (scale as i64);
    let ghost m_spec = (run_val(s@, i0 as int, j as int) * pow10((f1 - f0) as nat) + run_val(
        s@,
        f0 as int,
        f1 as int,
    ));
    proof {
        if !has_frac {
            assert(run_val(s@, f0 as int, f1 as int) == 0);
        }
        assert(mantissa == m_spec);
        assert(mantissa < pow10(22nat)) by {
            lemma_pow10_adds(10nat, 12nat);
            assert(iv * pf + fv < pow10(10nat) * pow10(12nat)) by (nonlinear_arith)
                requires
                    iv < pow10(10nat),
                    0 < pf <= pow10(12nat),
                    fv < pf,
            ;
        }
    }
    let mag: u128 = if mantissa == 0 {
        0
    } else if shift >= 0 {
        if shift > 9 {
            proof {
                lemma_pow10_mono(10nat, shift as nat);
                lemma_scale_up_large(m_spec, shift as nat);
            }
            return None;
        }
        let p = pow10_u128(shift as u64);
        proof {
            lemma_pow10_mono(shift as nat, 9nat);
            assert(mantissa * p < pow10(22nat) * pow10(9nat)) by (nonlinear_arith)
                requires
                    mantissa < pow10(22nat),
                    0 < p <= pow10(9nat),
            ;
            lemma_pow10_adds(22nat, 9nat);
            assert(pow10(31nat) == pow10(22nat) * pow10(9nat));
            assert(pow10(31nat) < 0x100000000000000000000000000000000) by {
                lemma_pow10_vals_large();
                assert(pow10(31nat) == pow10(22nat) * pow10(9nat));
            }
        }
        mantissa * p
    } else {
        let d = (-shift) as u64;
        if d > 22 {
            proof {
                lemma_pow10_mono(23nat, d as nat);
                vstd::arithmetic::div_mod::lemma_small_mod(m_spec, pow10(d as nat));
            }
            return None;
        }
        let div = pow10_u128(d);
        proof {
            lemma_pow10_mono(0nat, d as nat);
        }
        if mantissa % div != 0 {
            return None;
        }
        mantissa / div
    };
    if mag > limit as u128 {
        return None;
    }
    let v: i64 = if neg {
        -(mag as i64)
    } else {
        mag as i64
    };
    Some((v, end))
}

/// A color channel: a whole value at most 255, in any spelling.
fn parse_u8_at(s: &[u8], i: usize) -> (r: Option<(u8, usize)>)
    requires
        i <= s@.len(),
    ensures
        match r {
            Some((v, j)) => parse_u8(s@, i as int) == Some((v, j as int)) && i <= j <= s@.len(),
            None => parse_u8(s@, i as int) is None,
        },
{
    match parse_scaled_at(s, i, 0, 255) {
        Some((v, j)) => if v >= 0 {
            Some((v as u8, j))
        } else {
            None
        },
        None => None,
    }
}

/// A width: a whole count of thousandths, in any spelling.
fn parse_width_at(s: &[u8], i: usize) -> (r: Option<(i32, usize)>)
    requires
        i <= s@.len(),
    ensures
        match r {
            Some((v, j)) => parse_width(s@, i as int) == Some((v, j as int)) && i <= j
                <= s@.len() && -999_999_999 <= v <= 999_999_999,
            None => parse_width(s@, i as int) is None,
        },
{
    match parse_scaled_at(s, i, 3, 999_999_999) {
        Some((v, j)) => Some((v as i32, j)),
        None => None,
    }
}

/// A boolean literal.
fn parse_bool_at(s: &[u8], i: usize) -> (r: Option<(bool, usize)>)
    requires
        i <= s@.len(),
    ensures
        match r {
            Some((v, j)) => parse_bool(s@, i as int) == Some((v, j as int)) && i < j <= s@.len(),
            None => parse_bool(s@, i as int) is None,
        },
{
    if s.len() - i >= 4 && s[i] == 116 && s[i + 1] == 114 && s[i + 2] == 117 && s[i + 3] == 101 {
        proof {
            assert(s@.subrange(i as int, i + 4) =~= crate::json::format::bool_bytes(true));
        }
        Some((true, i + 4))
    } else if s.len() - i >= 5 && s[i] == 102 && s[i + 1] == 97 && s[i + 2] == 108 && s[i + 3]
        == 115 && s[i + 4] == 101 {
        proof {
            assert(s@.subrange(i as int, i + 5) =~= crate::json::format::bool_bytes(false));
            assert(!match_at(s@, i as int, crate::json::format::bool_bytes(true)));
        }
        Some((false, i + 5))
    } else {
        proof {
            if match_at(s@, i as int, crate::json::format::bool_bytes(true)) {
                assert(s@.subrange(i as int, i + 4)[0] == s@[i as int]);
                assert(s@.subrange(i as int, i + 4)[1] == s@[i + 1]);
                assert(s@.subrange(i as int, i + 4)[2] == s@[i + 2]);
                assert(s@.subrange(i as int, i + 4)[3] == s@[i + 3]);
            }
            if match_at(s@, i as int, crate::json::format::bool_bytes(false)) {
                assert(s@.subrange(i as int, i + 5)[0] == s@[i as int]);
                assert(s@.subrange(i as int, i + 5)[1] == s@[i + 1]);
                assert(s@.subrange(i as int, i + 5)[2] == s@[i + 2]);
                assert(s@.subrange(i as int, i + 5)[3] == s@[i + 3]);
                assert(s@.subrange(i as int, i + 5)[4] == s@[i + 4]);
            }
        }
        None
    }
}

/// A color array.
fn parse_color_at(s: &[u8], i: usize) -> (r: Option<(Rgba, usize)>)
    requires
        i <= s@.len(),
    ensures
        match r {
            Some((c, j)) => parse_color(s@, i as int) == Some((c, j as int)) && i <= j
                <= s@.len(),
            None => parse_color(s@, i as int) is None,
        },
{
    if !(i < s.len() && s[i] == LBRACKET) {
        return None;
    }
    let (cr, j1) = match parse_u8_at(s, ws_to(s, i + 1)) {
        Some(p) => p,
        None => {
            return None;
        },
    };
    let c1 = ws_to(s, j1);
    if !(c1 < s.len() && s[c1] == COMMA) {
        return None;
    }
    let (cg, j2) = match parse_u8_at(s, ws_to(s, c1 + 1)) {
        Some(p) => p,
        None => {
            return None;
        },
    };
    let c2 = ws_to(s, j2);
    if !(c2 < s.len() && s[c2] == COMMA) {
        return None;
    }
    let (cb, j3) = match parse_u8_at(s, ws_to(s, c2 + 1)) {
        Some(p) => p,
        None => {
            return None;
        },
    };
    let c3 = ws_to(s, j3);
    if !(c3 < s.len() && s[c3] == COMMA) {
        return None;
    }
    let (ca, j4) = match parse_u8_at(s, ws_to(s, c3 + 1)) {
        Some(p) => p,
        None => {
            return None;
        },
    };
    let c4 = ws_to(s, j4);
    if !(c4 < s.len() && s[c4] == RBRACKET) {
        return None;
    }
    Some((Rgba { r: cr, g: cg, b: cb, a: ca }, c4 + 1))
}

/// The hex digit's value.
fn hexv(b: u8) -> (r: u8)
    requires
        is_hex(b),
    ensures
        r == hex_val(b),
        r < 16,
{
    if b <= 57 {
        b - 48
    } else if b >= 97 {
        b - 87
    } else {
        b - 55
    }
}

fn is_hex_at(s: &[u8], i: usize) -> (r: bool)
    requires
        i < s@.len(),
    ensures
        r == is_hex(s@[i as int]),
{
    let b = s[i];
    (48 <= b && b <= 57) || (97 <= b && b <= 102) || (65 <= b && b <= 70)
}

/// The remaining string body composed behind an already-read prefix.
pub open spec fn psb_compose(s: Seq<u8>, p: int, pre: Seq<u8>) -> Option<(Seq<u8>, int)> {
    match parse_string_body(s, p) {
        Some((c, j)) => Some((pre + c, j)),
        None => None,
    }
}

/// The body of a string, after the opening quote.
fn parse_string_body_at(s: &[u8], i: usize) -> (r: Option<(Vec<u8>, usize)>)
    requires
        i <= s@.len(),
    ensures
        match r {
            Some((c, j)) => parse_string_body(s@, i as int) == Some((c@, j as int)) && i <= j
                <= s@.len(),
            None => parse_string_body(s@, i as int) is None,
        },
{
    let mut out: Vec<u8> = Vec::new();
    let mut p: usize = i;
    loop
        invariant
            i <= p <= s@.len(),
            parse_string_body(s@, i as int) == psb_compose(s@, p as int, out@),
        decreases s@.len() - p,
    {
        if p >= s.len() {
            return None;
        }
        let b = s[p];
        if b == QUOTE {
            proof {
                assert(out@ + Seq::<u8>::empty() =~= out@);
            }
            return Some((out, p + 1));
        }
        let ghost pre = out@;
        let ghost p0 = p as int;
        let ghost delta: Seq<u8>;
        if b == BACKSLASH {
            if s.len() - p < 2 {
                return None;
            }
            let e = s[p + 1];
            if e == QUOTE || e == BACKSLASH || e == 47 {
                out.push(e);
                p = p + 2;
                proof {
                    delta = seq![e];
                }
            } else if e == 98 || e == 102 || e == 110 || e == 114 || e == 116 {
                let d: u8 = if e == 98 {
                    8
                } else if e == 102 {
                    12
                } else if e == 110 {
                    10
                } else if e == 114 {
                    13
                } else {
                    9
                };
                out.push(d);
                p = p + 2;
                proof {
                    delta = seq![d];
                }
            } else if e == 117 {
                if s.len() - p < 6 {
                    return None;
                }
                if !(is_hex_at(s, p + 2) && is_hex_at(s, p + 3) && is_hex_at(s, p + 4)
                    && is_hex_at(s, p + 5)) {
                    return None;
                }
                let cp: u32 = (hexv(s[p + 2]) as u32) * 4096 + (hexv(s[p + 3]) as u32) * 256 + (
                hexv(s[p + 4]) as u32) * 16 + (hexv(s[p + 5]) as u32);
                proof {
                    assert(cp == hex4_val(s@, p0 + 2));
                    assert(cp <= 0xFFFF);
                }
                if 0xD800 <= cp && cp < 0xE000 {
                    return None;
                }
                if cp < 0x80 {
                    out.push((cp & 0x7F) as u8);
                    proof {
                        assert(out@ =~= pre + vstd::utf8::encode_scalar(cp));
                    }
                } else if cp < 0x800 {
                    out.push(0xC0u8 | ((cp >> 6u32) & 0x1F) as u8);
                    out.push(0x80u8 | (cp & 0x3F) as u8);
                    proof {
                        assert(out@ =~= pre + vstd::utf8::encode_scalar(cp));
                    }
                } else {
                    out.push(0xE0u8 | ((cp >> 12u32) & 0x0F) as u8);
                    out.push(0x80u8 | ((cp >> 6u32) & 0x3F) as u8);
                    out.push(0x80u8 | (cp & 0x3F) as u8);
                    proof {
                        assert(out@ =~= pre + vstd::utf8::encode_scalar(cp));
                    }
                }
                p = p + 6;
                proof {
                    delta = vstd::utf8::encode_scalar(cp);
                }
            } else {
                return None;
            }
        } else if b < 32 {
            return None;
        } else {
            out.push(b);
            p = p + 1;
            proof {
                delta = seq![b];
            }
        }
        proof {
            assert(out@ == pre + delta);
            assert(parse_string_body(s@, p0) == (match parse_string_body(s@, p as int) {
                Some((c, j)) => Some((delta + c, j)),
                None => None::<(Seq<u8>, int)>,
            }));
            let ghost inner = parse_string_body(s@, p as int);
            match inner {
                Some((c, j)) => {
                    assert(pre + (delta + c) =~= (pre + delta) + c);
                },
                None => {
                },
            }
        }
    }
}

/// A quoted string.
fn parse_string_at(s: &[u8], i: usize) -> (r: Option<(Vec<u8>, usize)>)
    requires
        i <= s@.len(),
    ensures
        match r {
            Some((c, j)) => parse_string(s@, i as int) == Some((c@, j as int)) && i < j
                <= s@.len(),
            None => parse_string(s@, i as int) is None,
        },
{
    if i < s.len() && s[i] == QUOTE {
        parse_string_body_at(s, i + 1)
    } else {
        None
    }
}

/// A generic number, consumed and discarded.
fn skip_number_at(s: &[u8], i: usize) -> (r: Option<usize>)
    requires
        i <= s@.len(),
    ensures
        match r {
            Some(j) => skip_number(s@, i as int) == Some(j as int) && i <= j <= s@.len(),
            None => skip_number(s@, i as int) is None,
        },
{
    let i0 = if i < s.len() && s[i] == MINUS {
        i + 1
    } else {
        i
    };
    if !(i0 < s.len() && 48 <= s[i0] && s[i0] <= 57) {
        return None;
    }
    let j = run_end_at(s, i0);
    let j1 = if j < s.len() && s[j] == DOT && j + 1 < s.len() && 48 <= s[j + 1] && s[j + 1] <= 57 {
        run_end_at(s, j + 1)
    } else {
        j
    };
    if j1 < s.len() && (s[j1] == 101 || s[j1] == 69) {
        let j2 = if j1 + 1 < s.len() && (s[j1 + 1] == 43 || s[j1 + 1] == MINUS) {
            j1 + 2
        } else {
            j1 + 1
        };
        if j2 < s.len() && 48 <= s[j2] && s[j2] <= 57 {
            Some(run_end_at(s, j2))
        } else {
            None
        }
    } else {
        Some(j1)
    }
}

/// A generic value, consumed and discarded.
fn skip_value_at(s: &[u8], i: usize, fuel: usize) -> (r: Option<usize>)
    requires
        i <= s@.len(),
    ensures
        match r {
            Some(j) => skip_value(s@, i as int, fuel as nat) == Some(j as int) && i <= j
                <= s@.len(),
            None => skip_value(s@, i as int, fuel as nat) is None,
        },
    decreases fuel, 0int,
{
    if i >= s.len() {
        return None;
    }
    let b = s[i];
    if b == QUOTE {
        match parse_string_at(s, i) {
            Some((_, j)) => Some(j),
            None => None,
        }
    } else if b == LBRACKET || b == LBRACE {
        let close: u8 = if b == LBRACKET {
            RBRACKET
        } else {
            RBRACE
        };
        let j = ws_to(s, i + 1);
        if j < s.len() && s[j] == close {
            Some(j + 1)
        } else if fuel > 0 {
            skip_items_at(s, j, close, fuel - 1)
        } else {
            None
        }
    } else if b == 116 || b == 102 {
        match parse_bool_at(s, i) {
            Some((_, j)) => Some(j),
            None => None,
        }
    } else if b == 110 {
        if s.len() - i >= 4 && s[i + 1] == 117 && s[i + 2] == 108 && s[i + 3] == 108 {
            proof {
                assert(s@.subrange(i as int, i + 4) =~= seq![110u8, 117u8, 108u8, 108u8]);
            }
            Some(i + 4)
        } else {
            proof {
                if match_at(s@, i as int, seq![110u8, 117u8, 108u8, 108u8]) {
                    assert(s@.subrange(i as int, i + 4)[1] == s@[i + 1]);
                    assert(s@.subrange(i as int, i + 4)[2] == s@[i + 2]);
                    assert(s@.subrange(i as int, i + 4)[3] == s@[i + 3]);
                }
            }
            None
        }
    } else {
        skip_number_at(s, i)
    }
}

/// The items of a generic array or object, consumed and discarded.
fn skip_items_at(s: &[u8], i: usize, close: u8, fuel: usize) -> (r: Option<usize>)
    requires
        i <= s@.len(),
    ensures
        match r {
            Some(j) => skip_items(s@, i as int, close, fuel as nat) == Some(j as int) && i <= j
                <= s@.len(),
            None => skip_items(s@, i as int, close, fuel as nat) is None,
        },
    decreases fuel, 1int,
{
    let iv = if close == RBRACE {
        match parse_string_at(s, i) {
            Some((_, j)) => {
                let j2 = ws_to(s, j);
                if j2 < s.len() && s[j2] == COLON {
                    ws_to(s, j2 + 1)
                } else {
                    return None;
                }
            },
            None => {
                return None;
            },
        }
    } else {
        i
    };
    match skip_value_at(s, iv, fuel) {
        Some(j) => {
            let j2 = ws_to(s, j);
            if j2 < s.len() && s[j2] == COMMA && fuel > 0 {
                skip_items_at(s, ws_to(s, j2 + 1), close, fuel - 1)
            } else if j2 < s.len() && s[j2] == close {
                Some(j2 + 1)
            } else {
                None
            }
        },
        None => None,
    }
}

/// Why a document was rejected.
#[derive(Clone, Copy, Debug, PartialEq, Eq, Structural)]
pub enum LoadError {
    /// The bytes do not form the expected JSON shape at this offset.
    Syntax { offset: usize },
    /// A string is malformed or not valid UTF-8.
    BadString { offset: usize },
    /// A known field carries a value of the wrong type or out of range.
    WrongValue { key: AttributeKey },
    /// A field appeared twice; `None` names one of the required fields.
    DuplicateField { which: Option<AttributeKey> },
    /// The required `name` field is missing.
    MissingName,
    /// The required `dark_mode` field is missing.
    MissingDarkMode,
    /// Bytes other than whitespace follow the document.
    TrailingData { offset: usize },
}

/// Byte-wise slice equality.
fn bytes_eq(a: &[u8], b: &[u8]) -> (r: bool)
    ensures
        r == (a@ == b@),
{
    if a.len() != b.len() {
        return false;
    }
    let mut i: usize = 0;
    while i < a.len()
        invariant
            i <= a@.len(),
            a@.len() == b@.len(),
            forall|j: int| 0 <= j < i ==> a@[j] == b@[j],
        decreases a@.len() - i,
    {
        if a[i] != b[i] {
            return false;
        }
        i = i + 1;
    }
    proof {
        assert(a@ =~= b@);
    }
    true
}

/// The attribute whose field name matches, if any.
fn lookup_key(nm: &Vec<u8>) -> (r: Option<AttributeKey>)
    ensures
        r == key_lookup(nm@),
{
    let mut k: usize = 0;
    while k < KEY_COUNT
        invariant
            k <= KEY_COUNT,
            key_lookup(nm@) == key_lookup_from(nm@, k as int),
        decreases KEY_COUNT - k,
    {
        let key = AttributeKey::from_index(k);
        if bytes_eq(nm.as_slice(), key.json_name().as_bytes()) {
            return Some(key);
        }
        k = k + 1;
    }
    None
}

/// The parse state while reading members.
struct PartConfig {
    name: Option<String>,
    dark_mode: Option<bool>,
    overrides: Vec<Option<AttrValue>>,
}

/// The model of the parse state.
spec fn part_view(pc: PartConfig) -> PartState {
    PartState {
        name: match pc.name {
            Some(s) => Some(s@),
            None => None,
        },
        dark_mode: pc.dark_mode,
        overrides: pc.overrides@,
    }
}

/// Relies on `core::str::from_utf8` and `str::to_string`: yields the string
/// reading exactly the given bytes when they are valid UTF-8, and nothing
/// otherwise.
#[verifier::external_body]
fn bytes_to_string(v: &Vec<u8>) -> (r: Option<String>)
    ensures
        match r {
            Some(s) => valid_utf8(v@) && s@ == decode_utf8(v@),
            None => !valid_utf8(v@),
        },
{
    match core::str::from_utf8(v.as_slice()) {
        Ok(s) => Some(s.to_string()),
        Err(_) => None,
    }
}

/// One member: reads a field name and its value into the parse state.
fn parse_member_at(s: &[u8], i: usize, pc: &mut PartConfig, fuel: usize) -> (r: Result<
    usize,
    LoadError,
>)
    requires
        i <= s@.len(),
        crate::config::overrides_wf(old(pc).overrides@),
    ensures
        crate::config::overrides_wf(final(pc).overrides@),
        match r {
            Ok(j) => parse_member_into(s@, i as int, part_view(*old(pc)), fuel as nat) == Some(
                (part_view(*final(pc)), j as int),
            ) && i <= j <= s@.len(),
            Err(_) => parse_member_into(s@, i as int, part_view(*old(pc)), fuel as nat) is None,
        },
{
    proof {
        reveal(parse_member_into);
    }
    let (nm, j) = match parse_string_at(s, i) {
        Some(p) => p,
        None => {
            return Err(LoadError::Syntax { offset: i });
        },
    };
    let j2 = ws_to(s, j);
    if !(j2 < s.len() && s[j2] == COLON) {
        return Err(LoadError::Syntax { offset: j2 });
    }
    let j3 = ws_to(s, j2 + 1);
    if bytes_eq(nm.as_slice(), "name".as_bytes()) {
        if pc.name.is_some() {
            return Err(LoadError::DuplicateField { which: None });
        }
        let (content, j4) = match parse_string_at(s, j3) {
            Some(p) => p,
            None => {
                return Err(LoadError::BadString { offset: j3 });
            },
        };
        match bytes_to_string(&content) {
            Some(text) => {
                pc.name = Some(text);
                Ok(j4)
            },
            None => Err(LoadError::BadString { offset: j3 }),
        }
    } else if bytes_eq(nm.as_slice(), "dark_mode".as_bytes()) {
        if pc.dark_mode.is_some() {
            return Err(LoadError::DuplicateField { which: None });
        }
        match parse_bool_at(s, j3) {
            Some((b, j4)) => {
                pc.dark_mode = Some(b);
                Ok(j4)
            },
            None => Err(LoadError::Syntax { offset: j3 }),
        }
    } else {
        match lookup_key(&nm) {
            Some(key) => {
                proof {
                    crate::keys::lemma_key_order();
                    lemma_key_lookup_index(nm@);
                }
                let ki = key.index();
                if pc.overrides[ki].is_some() {
                    return Err(LoadError::DuplicateField { which: Some(key) });
                }
                let (v, j4) = match key.kind() {
                    ValueKind::Color => match parse_color_at(s, j3) {
                        Some((c, j4)) => (AttrValue::Color(c), j4),
                        None => {
                            return Err(LoadError::WrongValue { key });
                        },
                    },
                    ValueKind::Width => match parse_width_at(s, j3) {
                        Some((w, j4)) => (AttrValue::Width(w), j4),
                        None => {
                            return Err(LoadError::WrongValue { key });
                        },
                    },
                    ValueKind::Radius => match parse_u8_at(s, j3) {
                        Some((x, j4)) => (AttrValue::Radius(x), j4),
                        None => {
                            return Err(LoadError::WrongValue { key });
                        },
                    },
                    ValueKind::Flag => match parse_bool_at(s, j3) {
                        Some((b, j4)) => (AttrValue::Flag(b), j4),
                        None => {
                            return Err(LoadError::WrongValue { key });
                        },
                    },
                };
                pc.overrides.set(ki, Some(v));
                proof {
                    assert(value_kind(v) == crate::keys::key_kind(key));
                    assert(crate::values::value_wf(v));
                    assert forall|q: int|
                        0 <= q < KEY_COUNT implies (#[trigger] pc.overrides@[q] matches Some(w)
                        ==> value_kind(w) == crate::keys::key_kind(crate::keys::key_at(q))
                            && crate::values::value_wf(w)) by {
                        if q != ki {
                            assert(pc.overrides@[q] == old(pc).overrides@[q]);
                        }
                    }
                }
                Ok(j4)
            },
            None => match skip_value_at(s, j3, fuel) {
                Some(j4) => Ok(j4),
                None => Err(LoadError::Syntax { offset: j3 }),
            },
        }
    }
}

/// A matched lookup names the key whose field name was matched.
proof fn lemma_key_lookup_index(b: Seq<u8>)
    ensures
        key_lookup(b) matches Some(k) ==> b == name_bytes(k),
{
    lemma_key_lookup_index_from(b, 0);
}

proof fn lemma_key_lookup_index_from(b: Seq<u8>, n: int)
    ensures
        key_lookup_from(b, n) matches Some(k) ==> b == name_bytes(k),
    decreases KEY_COUNT - n,
{
    if 0 <= n < KEY_COUNT && b != name_bytes(crate::keys::key_at(n)) {
        lemma_key_lookup_index_from(b, n + 1);
    }
}

/// Unfolding [`parse_members`] one step: out of fuel.
proof fn lemma_members_zero(s: Seq<u8>, p: int, st: PartState)
    ensures
        parse_members(s, p, st, 0nat) is None,
{
}

/// Unfolding [`parse_members`] one step: the member failed.
proof fn lemma_members_err(s: Seq<u8>, p: int, st: PartState, f: nat)
    requires
        f > 0,
        parse_member_into(s, p, st, f) is None,
    ensures
        parse_members(s, p, st, f) is None,
{
}

/// Unfolding [`parse_members`] one step: a member followed by a comma.
proof fn lemma_members_comma(s: Seq<u8>, p: int, st: PartState, f: nat, st2: PartState, j: int)
    requires
        f > 0,
        parse_member_into(s, p, st, f) == Some((st2, j)),
        0 <= skip_ws(s, j) < s.len(),
        s[skip_ws(s, j)] == COMMA,
    ensures
        parse_members(s, p, st, f) == parse_members(
            s,
            skip_ws(s, skip_ws(s, j) + 1),
            st2,
            (f - 1) as nat,
        ),
{
}

/// Unfolding [`parse_members`] one step: the closing brace.
proof fn lemma_members_close(s: Seq<u8>, p: int, st: PartState, f: nat, st2: PartState, j: int)
    requires
        f > 0,
        parse_member_into(s, p, st, f) == Some((st2, j)),
        0 <= skip_ws(s, j) < s.len(),
        s[skip_ws(s, j)] != COMMA,
    ensures
        s[skip_ws(s, j)] == RBRACE ==> parse_members(s, p, st, f) == Some(
            (st2, skip_ws(s, j) + 1),
        ),
        s[skip_ws(s, j)] != RBRACE ==> parse_members(s, p, st, f) is None,
{
}

/// Unfolding [`parse_members`] one step: the member ran to the input's end.
proof fn lemma_members_end(s: Seq<u8>, p: int, st: PartState, f: nat, st2: PartState, j: int)
    requires
        f > 0,
        parse_member_into(s, p, st, f) == Some((st2, j)),
        skip_ws(s, j) >= s.len(),
    ensures
        parse_members(s, p, st, f) is None,
{
}

/// The member list, up to and including the closing brace.
#[verifier::rlimit(80)]
fn parse_members_at(s: &[u8], i: usize, pc: &mut PartConfig, fuel: usize) -> (r: Result<
    usize,
    LoadError,
>)
    requires
        i <= s@.len(),
        crate::config::overrides_wf(old(pc).overrides@),
    ensures
        crate::config::overrides_wf(final(pc).overrides@),
        match r {
            Ok(j) => parse_members(s@, i as int, part_view(*old(pc)), fuel as nat) == Some(
                (part_view(*final(pc)), j as int),
            ) && i <= j <= s@.len(),
            Err(_) => parse_members(s@, i as int, part_view(*old(pc)), fuel as nat) is None,
        },
{
    let ghost st0 = part_view(*old(pc));
    let mut p: usize = i;
    let mut f: usize = fuel;
    loop
        invariant
            i <= p <= s@.len(),
            st0 == part_view(*old(pc)),
            crate::config::overrides_wf(pc.overrides@),
            parse_members(s@, i as int, st0, fuel as nat) == parse_members(
                s@,
                p as int,
                part_view(*pc),
                f as nat,
            ),
        decreases f,
    {
        if f == 0 {
            proof {
                lemma_members_zero(s@, p as int, part_view(*pc));
            }
            return Err(LoadError::Syntax { offset: p });
        }
        let ghost st_entry = part_view(*pc);
        let ghost p0 = p as int;
        let ghost f0 = f as nat;
        let j = match parse_member_at(s, p, pc, f) {
            Ok(j) => j,
            Err(e) => {
                proof {
                    lemma_members_err(s@, p0, st_entry, f0);
                }
                return Err(e);
            },
        };
        let ghost st2 = part_view(*pc);
        let j2 = ws_to(s, j);
        if j2 < s.len() && s[j2] == COMMA {
            p = ws_to(s, j2 + 1);
            f = f - 1;
            proof {
                lemma_members_comma(s@, p0, st_entry, f0, st2, j as int);
            }
        } else if j2 < s.len() && s[j2] == RBRACE {
            proof {
                lemma_members_close(s@, p0, st_entry, f0, st2, j as int);
            }
            return Ok(j2 + 1);
        } else {
            proof {
                if (j2 as int) < s@.len() {
                    lemma_members_close(s@, p0, st_entry, f0, st2, j as int);
                } else {
                    lemma_members_end(s@, p0, st_entry, f0, st2, j as int);
                }
            }
            return Err(LoadError::Syntax { offset: j2 });
        }
    }
}

/// Parses a JSON document into an override set.
///
/// Succeeds on exactly the documents that [`parse_document`] accepts — one
/// object with the required `name` and `dark_mode` members, any subset of
/// attribute members, and unknown members, which are ignored — and returns
/// the model that it yields. Every failure names its reason.
pub fn load(data: &[u8]) -> (r: Result<crate::config::ThemeConfig, LoadError>)
    requires
        data@.len() < usize::MAX,
    ensures
        match r {
            Ok(c) => parse_document(data@) == Some(c@) && c@.wf(),
            Err(_) => parse_document(data@) is None,
        },
{
    let i0 = ws_to(data, 0);
    if !(i0 < data.len() && data[i0] == LBRACE) {
        return Err(LoadError::Syntax { offset: i0 });
    }
    let i1 = ws_to(data, i0 + 1);
    if i1 < data.len() && data[i1] == RBRACE {
        let t = ws_to(data, i1 + 1);
        if t != data.len() {
            return Err(LoadError::TrailingData { offset: i1 + 1 });
        }
        return Err(LoadError::MissingName);
    }
    let mut overrides: Vec<Option<AttrValue>> = Vec::new();
    let mut k: usize = 0;
    while k < KEY_COUNT
        invariant
            k <= KEY_COUNT,
            overrides@.len() == k,
            forall|j: int| 0 <= j < k ==> overrides@[j] is None,
        decreases KEY_COUNT - k,
    {
        overrides.push(None);
        k = k + 1;
    }
    let mut pc = PartConfig { name: None, dark_mode: None, overrides };
    proof {
        assert(part_view(pc).overrides =~= crate::config::none_overrides());
        assert(part_view(pc) == empty_state());
    }
    let j = match parse_members_at(data, i1, &mut pc, data.len() + 1) {
        Ok(j) => j,
        Err(e) => {
            return Err(e);
        },
    };
    let t = ws_to(data, j);
    if t != data.len() {
        return Err(LoadError::TrailingData { offset: j });
    }
    let name = match pc.name {
        Some(name) => name,
        None => {
            return Err(LoadError::MissingName);
        },
    };
    let dark_mode = match pc.dark_mode {
        Some(d) => d,
        None => {
            return Err(LoadError::MissingDarkMode);
        },
    };
    Ok(crate::config::ThemeConfig::from_parts(name, dark_mode, pc.overrides))
}

} // verus!
