//! The randomizer: builds an override set whose ten headline color keys
//! carry uniformly drawn opaque colors and whose mode flag is a coin flip.
//!
//! The construction from drawn bytes to override set is verified; only the
//! drawing of the bytes is trusted. The seeded entry point's stream is a
//! function of its seed, so the same seed always yields the same set and
//! tests can pin the result down.

use vstd::prelude::*;

use crate::config::{ConfigModel, ThemeConfig};
use crate::presets::{headline_overrides, headline_preset};
use crate::values::{AttrValue, Rgba};

verus! {

/// How many random bytes one sample consumes: three per headline color,
/// plus one for the mode flag.
pub const SAMPLE_LEN: usize = 31;

/// The ten opaque colors held in a sample: three channel bytes each, alpha
/// pinned to fully opaque.
pub open spec fn sample_colors(bytes: Seq<u8>) -> Seq<Rgba> {
    Seq::new(10, |i: int| Rgba { r: bytes[3 * i], g: bytes[3 * i + 1], b: bytes[3 * i + 2], a: 255 })
}

/// The override set a sample of drawn bytes determines: named "Random",
/// mode flag from the last byte's parity, headline colors from the rest.
pub open spec fn random_model(bytes: Seq<u8>) -> ConfigModel {
    ConfigModel {
        name: "Random"@,
        dark_mode: bytes[30] % 2 == 1,
        overrides: headline_overrides(sample_colors(bytes)),
    }
}

/// Randomizer range: whatever bytes were drawn, every populated key of the
/// result carries a color, that color's alpha is fully opaque, and the
/// result is well-formed.
pub proof fn lemma_randomizer_range(bytes: Seq<u8>)
    requires
        bytes.len() == SAMPLE_LEN,
    ensures
        random_model(bytes).wf(),
        forall|i: int|
            0 <= i < random_model(bytes).overrides.len() ==> match #[trigger] random_model(
                bytes,
            ).overrides[i] {
                Some(v) => v matches AttrValue::Color(c) && c.a == 255,
                None => true,
            },
{
    crate::presets::lemma_headline_wf(sample_colors(bytes));
}

/// Builds the override set a sample of drawn bytes determines. This is the
/// deterministic half of the randomizer: same bytes, same result.
pub fn randomize_from(bytes: &Vec<u8>) -> (c: ThemeConfig)
    requires
        bytes@.len() == SAMPLE_LEN,
    ensures
        c@ == random_model(bytes@),
        c@.wf(),
{
    let mut cs: Vec<Rgba> = Vec::new();
    let mut i: usize = 0;
    while i < 10
        invariant
            bytes@.len() == SAMPLE_LEN,
            i <= 10,
            cs@.len() == i,
            forall|j: int| 0 <= j < i ==> cs@[j] == sample_colors(bytes@)[j],
        decreases 10 - i,
    {
        cs.push(Rgba { r: bytes[3 * i], g: bytes[3 * i + 1], b: bytes[3 * i + 2], a: 255 });
        i = i + 1;
    }
    proof {
        assert(cs@ =~= sample_colors(bytes@));
    }
    headline_preset("Random", bytes[30] % 2 == 1, &cs)
}

/// Relies on `rand::thread_rng` and `rand::Rng::gen::<u8>`: returns `n`
/// freshly drawn bytes. Nothing is promised of their values.
#[verifier::external_body]
fn thread_random_bytes(n: usize) -> (r: Vec<u8>)
    ensures
        r@.len() == n as nat,
{
    let mut rng = rand::thread_rng();
    (0..n).map(|_| rand::Rng::gen::<u8>(&mut rng)).collect()
}

/// The byte stream a seeded generator produces: a function of the seed and
/// the count alone.
pub uninterp spec fn seeded_stream(seed: u64, n: nat) -> Seq<u8>;

/// Relies on `rand::rngs::StdRng::seed_from_u64` and `rand::Rng::gen::<u8>`:
/// returns `n` bytes drawn from a generator seeded with `seed`. The
/// generator is a deterministic function of its seed, so the result is
/// named, not promised any values.
#[verifier::external_body]
fn seeded_random_bytes(seed: u64, n: usize) -> (r: Vec<u8>)
    ensures
        r@ == seeded_stream(seed, n as nat),
        r@.len() == n as nat,
{
    let mut rng = <rand::rngs::StdRng as rand::SeedableRng>::seed_from_u64(seed);
    (0..n).map(|_| rand::Rng::gen::<u8>(&mut rng)).collect()
}

impl ThemeConfig {
    /// A freshly drawn random override set: named "Random", a coin-flip
    /// mode, the ten headline color keys populated with opaque colors, and
    /// nothing else set.
    pub fn randomize() -> (c: ThemeConfig)
        ensures
            exists|bytes: Seq<u8>| bytes.len() == SAMPLE_LEN && c@ == random_model(bytes),
            c@.wf(),
    {
        let bytes = thread_random_bytes(SAMPLE_LEN);
        let c = randomize_from(&bytes);
        proof {
            assert(bytes@.len() == SAMPLE_LEN && c@ == random_model(bytes@));
        }
        c
    }

    /// Like [`ThemeConfig::randomize`], but drawn from a generator seeded
    /// with `seed`. The result is a function of the seed: two calls with
    /// one seed give value-equal sets.
    pub fn randomize_seeded(seed: u64) -> (c: ThemeConfig)
        ensures
            c@ == random_model(seeded_stream(seed, SAMPLE_LEN as nat)),
            c@.wf(),
    {
        let bytes = seeded_random_bytes(seed, SAMPLE_LEN);
        randomize_from(&bytes)
    }
}

} // verus!
