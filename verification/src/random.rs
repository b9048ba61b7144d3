//! The get-random-values op: fills the guest's zero-copy buffer with
//! uniform random bytes, from a seeded generator when the embedding was
//! configured with one, else from the platform entropy source.
//!
//! A seeded generator is deterministic: its output is drawn from one
//! keystream that the seed alone determines. The generator consumes that
//! keystream in 32-bit words: each fill copies contiguous keystream bytes
//! from its current word boundary, and a buffer whose length is not a
//! multiple of 4 consumes its partial tail word whole, skipping the
//! word's remaining bytes. The generator is therefore modeled as the
//! seed plus a position counted in words.

use vstd::prelude::*;

use crate::errors::ErrorKind;
use crate::errors::OpError;

verus! {

#[verifier::external_type_specification]
#[verifier::external_body]
pub struct ExStdRng(rand::rngs::StdRng);

/// Byte `pos` of the deterministic keystream that `seed` determines.
pub uninterp spec fn seeded_stream(seed: u64, pos: int) -> u8;

/// How many 32-bit keystream words a fill of `n` bytes consumes.
pub open spec fn word_count(n: int) -> int {
    n / 4 + if n % 4 != 0 {
        1int
    } else {
        0int
    }
}

/// A seeded generator: the standard generator plus the seed it was built
/// from and how many 32-bit keystream words it has consumed.
pub struct SeededRng {
    rng: rand::rngs::StdRng,
    seed: u64,
    pos: u64,
}

impl SeededRng {
    /// The seed this generator was built from.
    pub closed spec fn seed_spec(&self) -> u64 {
        self.seed
    }

    /// How many 32-bit words of the seed's keystream were consumed.
    pub closed spec fn pos_spec(&self) -> u64 {
        self.pos
    }

    pub fn seed(&self) -> (r: u64)
        ensures
            r == self.seed_spec(),
    {
        self.seed
    }

    /// The keystream position, in 32-bit words.
    pub fn position(&self) -> (r: u64)
        ensures
            r == self.pos_spec(),
    {
        self.pos
    }

    /// Relies on rand's `Rng::fill_bytes` over the seeded standard
    /// generator: the bytes drawn are the keystream bytes from the
    /// generator's current word boundary on, and only this module's
    /// functions move that position.
    #[verifier::external_body]
    fn fill_core(&mut self, buf: &mut Vec<u8>)
        ensures
            final(buf)@.len() == old(buf)@.len(),
            forall|i: int|
                0 <= i < final(buf)@.len() ==> final(buf)@[i] == seeded_stream(
                    old(self).seed_spec(),
                    4 * old(self).pos_spec() + i,
                ),
            final(self).seed_spec() == old(self).seed_spec(),
            final(self).pos_spec() == old(self).pos_spec(),
    {
        rand::Rng::fill_bytes(&mut self.rng, buf.as_mut_slice());
    }

    /// Overwrites the buffer with the keystream bytes from the current
    /// word boundary on and advances the position by the words consumed:
    /// one per 4 buffer bytes, a partial tail word counting whole.
    pub fn fill(&mut self, buf: &mut Vec<u8>)
        requires
            old(self).pos_spec() + word_count(old(buf)@.len() as int) <= u64::MAX,
        ensures
            final(buf)@.len() == old(buf)@.len(),
            forall|i: int|
                0 <= i < final(buf)@.len() ==> final(buf)@[i] == seeded_stream(
                    old(self).seed_spec(),
                    4 * old(self).pos_spec() + i,
                ),
            final(self).seed_spec() == old(self).seed_spec(),
            final(self).pos_spec() == old(self).pos_spec() + word_count(old(buf)@.len() as int),
    {
        let n = buf.len();
        let words = n / 4 + if n % 4 != 0 {
            1usize
        } else {
            0usize
        };
        self.fill_core(buf);
        self.pos = self.pos + words as u64;
    }
}

/// Relies on rand's `SeedableRng::seed_from_u64`: the generator built
/// from a seed stands at the start of the keystream that seed
/// determines.
#[verifier::external_body]
pub fn seed_rng(seed: u64) -> (r: SeededRng)
    ensures
        r.seed_spec() == seed,
        r.pos_spec() == 0,
{
    SeededRng {
        rng: <rand::rngs::StdRng as rand::SeedableRng>::seed_from_u64(seed),
        seed,
        pos: 0,
    }
}

/// Relies on rand's `SeedableRng::try_from_rng` over the OS entropy
/// source: a fresh generator seeded by the platform, or nothing if the
/// platform refuses entropy.
#[verifier::external_body]
fn entropy_rng() -> (r: Option<rand::rngs::StdRng>) {
    match <rand::rngs::StdRng as rand::SeedableRng>::try_from_rng(&mut rand::rngs::SysRng) {
        Ok(rng) => Some(rng),
        Err(_) => None,
    }
}

/// Relies on rand's `Rng::fill_bytes`: overwrites every byte of the
/// buffer from the generator's stream; the buffer keeps its length.
#[verifier::external_body]
fn fill_random(rng: &mut rand::rngs::StdRng, buf: &mut Vec<u8>)
    ensures
        final(buf)@.len() == old(buf)@.len(),
{
    rand::Rng::fill_bytes(rng, buf.as_mut_slice());
}

/// Fills the zero-copy buffer with random bytes. A seeded generator,
/// when one is configured, always succeeds: the buffer receives the
/// keystream bytes at the generator's word position and the generator
/// comes back advanced by the words consumed, so consecutive calls read
/// on through the one keystream the seed determines. Without one the
/// platform entropy source is used, whose only failure is the platform
/// refusing entropy. The buffer keeps its length either way.
pub fn op_get_random_values(seeded: Option<SeededRng>, buf: &mut Vec<u8>) -> (r: Result<
    Option<SeededRng>,
    OpError,
>)
    requires
        seeded matches Some(s) ==> s.pos_spec() + word_count(old(buf)@.len() as int) <= u64::MAX,
    ensures
        seeded is Some ==> r is Ok,
        r matches Ok(rng) ==> {
            &&& final(buf)@.len() == old(buf)@.len()
            &&& (rng is Some <==> seeded is Some)
        },
        seeded matches Some(s) ==> (r matches Ok(rng2) && (rng2 matches Some(s2) && {
            &&& s2.seed_spec() == s.seed_spec()
            &&& s2.pos_spec() == s.pos_spec() + word_count(old(buf)@.len() as int)
            &&& forall|i: int|
                0 <= i < final(buf)@.len() ==> final(buf)@[i] == seeded_stream(
                    s.seed_spec(),
                    4 * s.pos_spec() + i,
                )
        })),
        r matches Err(e) ==> e.kind == ErrorKind::Io && *final(buf) == *old(buf),
{
    match seeded {
        Some(mut s) => {
            s.fill(buf);
            Ok(Some(s))
        },
        None => {
            match entropy_rng() {
                Some(mut rng) => {
                    fill_random(&mut rng, buf);
                    Ok(None)
                },
                None => Err(OpError::new(ErrorKind::Io, "no entropy source".to_owned())),
            }
        },
    }
}

} // verus!
