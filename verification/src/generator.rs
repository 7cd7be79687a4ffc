//! Candidate-name generation: a small, seedable pseudo-random stream of
//! fixed-length lowercase-letter suffixes.
//!
//! The generator is pure computation over two 64-bit words, owned by the
//! single acquisition call that created it; it never touches the filesystem
//! and cannot fail. Given a seed, the stream of names it produces is fully
//! determined, which makes the retry protocol testable by seed injection.

use vstd::prelude::*;
use vstd::string::StringExecFns;
use vstd::string::StringSliceAdditionalSpecFns;
use vstd::string::StrSliceExecFns;

verus! {

/// Number of letters in every generated suffix.
pub const SUFFIX_LEN: usize = 12;

/// Salt folded into every derived seed.
pub const SEED_SALT: u64 = 0x12345678;

/// Fixed second seed word. Any nonzero value keeps the initial state away
/// from the all-zero fixed point of the transition.
pub const SEED_MIX: u64 = 0x9e3779b97f4a7c15;

/// The 26-symbol alphabet every suffix letter is drawn from.
pub open spec fn spec_alphabet() -> Seq<char> {
    "abcdefghijklmnopqrstuvwxyz"@
}

/// The letter one raw 64-bit draw maps to.
pub open spec fn spec_letter(v: u64) -> char {
    spec_alphabet()[(v % 26) as int]
}

/// Wrapping sum of a byte sequence, as a 64-bit word.
pub open spec fn spec_byte_sum(bytes: Seq<u8>) -> u64
    decreases bytes.len(),
{
    if bytes.len() == 0 {
        0u64
    } else {
        spec_byte_sum(bytes.drop_last()).wrapping_add(bytes.last() as u64)
    }
}

/// The seed an acquisition derives from its inputs: the wrapping sum of the
/// prefix's UTF-8 bytes folded with a fixed salt. The parent path takes no
/// part.
pub open spec fn seed_of(prefix: Seq<char>) -> u64 {
    spec_byte_sum(vstd::utf8::encode_utf8(prefix)) ^ SEED_SALT
}

/// Derive the generator seed for an acquisition from its parent and prefix.
pub fn random_seed(_parent: &str, prefix: &str) -> (r: u64)
    ensures
        r == seed_of(prefix@),
{
    let bytes = prefix.as_bytes();
    let mut acc: u64 = 0;
    let mut i: usize = 0;
    while i < bytes.len()
        invariant
            i <= bytes@.len(),
            bytes@ == prefix.spec_bytes(),
            acc == spec_byte_sum(bytes@.subrange(0, i as int)),
        decreases bytes@.len() - i,
    {
        acc = acc.wrapping_add(bytes[i] as u64);
        i = i + 1;
        proof {
            assert(bytes@.subrange(0, i as int).drop_last() =~= bytes@.subrange(
                0,
                i as int - 1,
            ));
        }
    }
    proof {
        assert(bytes@.subrange(0, bytes@.len() as int) =~= bytes@);
    }
    acc ^ SEED_SALT
}

/// The per-acquisition generator state: two 64-bit words advanced by a
/// deterministic xorshift transition.
pub struct NameGenerator {
    pub x: u64,
    pub y: u64,
}

impl NameGenerator {
    /// The word that replaces the second state word on one step: the first
    /// word folded with shifted copies of itself and of the second.
    pub open spec fn spec_mix(self) -> u64 {
        let a = self.x ^ (self.x << 23u64);
        let b = a ^ (a >> 17u64);
        b ^ self.y ^ (self.y >> 26u64)
    }

    /// The state after one step: the words swap, the mixed word coming second.
    pub open spec fn spec_step(self) -> NameGenerator {
        NameGenerator { x: self.y, y: self.spec_mix() }
    }

    /// The raw value one step emits: the wrapping sum of the mixed word and
    /// the second state word.
    pub open spec fn spec_output(self) -> u64 {
        self.spec_mix().wrapping_add(self.y)
    }

    /// The initial state a seed gives: the seed itself and the fixed mix word.
    pub open spec fn seeded(seed: u64) -> NameGenerator {
        NameGenerator { x: seed, y: SEED_MIX }
    }

    /// Build a generator from a 64-bit seed.
    pub fn from_seed(seed: u64) -> (g: NameGenerator)
        ensures
            g == NameGenerator::seeded(seed),
    {
        NameGenerator { x: seed, y: SEED_MIX }
    }

    /// Advance the state once and emit the raw 64-bit value.
    pub fn next_raw(&mut self) -> (r: u64)
        ensures
            *final(self) == old(self).spec_step(),
            r == old(self).spec_output(),
    {
        let mut a = self.x ^ (self.x << 23u64);
        a = a ^ (a >> 17u64);
        let t = a ^ self.y ^ (self.y >> 26u64);
        self.x = self.y;
        self.y = t;
        t.wrapping_add(self.x)
    }

    /// Draw `length` letters, advancing the state once for each.
    pub fn next_name(&mut self, length: usize) -> (r: String)
        ensures
            r@ == spec_name(*old(self), length as nat),
            *final(self) == gen_after(*old(self), length as nat),
    {
        let mut s = String::new();
        let mut i: usize = 0;
        while i < length
            invariant
                i <= length,
                *self == gen_after(*old(self), i as nat),
                s@ =~= spec_name(*old(self), i as nat),
            decreases length - i,
        {
            let v = self.next_raw();
            s.append(letter_for(v));
            i = i + 1;
            proof {
                assert(s@ =~= spec_name(*old(self), i as nat));
            }
        }
        proof {
            assert(s@ =~= spec_name(*old(self), length as nat));
        }
        s
    }
}

/// The generator state after `n` steps.
pub open spec fn gen_after(g: NameGenerator, n: nat) -> NameGenerator
    decreases n,
{
    if n == 0 {
        g
    } else {
        gen_after(g, (n - 1) as nat).spec_step()
    }
}

/// The name of `n` letters a generator in state `g` draws.
pub open spec fn spec_name(g: NameGenerator, n: nat) -> Seq<char> {
    Seq::new(n, |i: int| spec_letter(gen_after(g, i as nat).spec_output()))
}

/// The one-letter string a raw draw maps to.
fn letter_for(v: u64) -> (r: &'static str)
    ensures
        r@ =~= seq![spec_letter(v)],
{
    let alphabet = "abcdefghijklmnopqrstuvwxyz";
    proof {
        reveal_strlit("abcdefghijklmnopqrstuvwxyz");
    }
    let i = (v % 26) as usize;
    alphabet.substring_ascii(i, i + 1)
}

} // verus!
