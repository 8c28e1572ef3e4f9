use vstd::prelude::*;

verus! {

/// Replacement state for a zero seed: xorshift never leaves the state 0.
pub const DEFAULT_SEED: u32 = 0x9E3779B9;

/// Number of low bits that a draw drops, so that a draw has 24 bits.
pub const DRAW_SHIFT: u32 = 8;

/// One xorshift32 step with shifts 13, 17 and 5.
pub open spec fn xorshift32(x: u32) -> u32 {
    let a = x ^ (x << 13u32);
    let b = a ^ (a >> 17u32);
    b ^ (b << 5u32)
}

/// The state a generator starts from for a given seed.
pub open spec fn seeded_state(seed: u32) -> u32 {
    if seed == 0 { DEFAULT_SEED } else { seed }
}

/// The 24-bit draw that a step to state `x` hands out.
pub open spec fn draw_of(x: u32) -> u32 {
    x >> 8u32
}

/// A small xorshift32 pseudo-random generator.
pub struct Rng(u32);

impl View for Rng {
    type V = u32;

    closed spec fn view(&self) -> u32 {
        self.0
    }
}

impl Rng {
    #[verifier::type_invariant]
    spec fn state_nonzero(self) -> bool {
        self.0 != 0
    }

    /// A generator seeded with `seed`; a zero seed is replaced by
    /// `DEFAULT_SEED`, since xorshift would stay at 0 forever.
    pub fn new(seed: u32) -> (r: Self)
        ensures
            r@ == seeded_state(seed),
            seed != 0 ==> r@ == seed,
            seed == 0 ==> r@ == 0x9E3779B9u32,
            r@ != 0,
    {
        Rng(if seed == 0 { DEFAULT_SEED } else { seed })
    }

    /// Advances the state by one xorshift32 step and hands out its upper
    /// 24 bits; dividing by 2^24 gives a uniform value in [0, 1).
    pub fn next_u24(&mut self) -> (r: u32)
        ensures
            final(self)@ == xorshift32(old(self)@),
            final(self)@ == ({
                let a = old(self)@ ^ (old(self)@ << 13u32);
                let b = a ^ (a >> 17u32);
                b ^ (b << 5u32)
            }),
            final(self)@ != 0,
            r == draw_of(xorshift32(old(self)@)),
            r == final(self)@ >> 8u32,
            r == xorshift32(old(self)@) >> 8u32,
            r < 0x100_0000,
    {
        proof {
            use_type_invariant(&*self);
            lemma_xorshift_keeps_nonzero(self.0);
        }
        let mut x = self.0;
        x ^= x << 13u32;
        x ^= x >> 17u32;
        x ^= x << 5u32;
        proof {
            assert(x >> 8u32 < 0x100_0000u32) by (bit_vector);
        }
        self.0 = x;
        x >> DRAW_SHIFT
    }
}

/// A nonzero seed is the starting state itself, so different nonzero seeds
/// start different sequences; only the seed 0 is replaced.
pub proof fn lemma_seed_is_start_state(seed: u32, other: u32)
    ensures
        seed != 0 ==> seeded_state(seed) == seed,
        seed == 0 ==> seeded_state(seed) == 0x9E3779B9u32,
        seed != 0 && other != 0 && seed != other ==> seeded_state(seed) != seeded_state(other),
        seeded_state(seed) != 0,
{
}

/// A draw is the upper 24 bits of the state it is taken from: the state lies
/// in the block of 256 values that starts at the draw times 256.
pub proof fn lemma_draw_is_high_bits(x: u32)
    ensures
        draw_of(x) == x >> 8u32,
        draw_of(x) * 256 <= x < draw_of(x) * 256 + 256,
        draw_of(x) < 0x100_0000,
{
    let d = draw_of(x);
    assert(d == x >> 8u32 ==> (d * 256 <= x && x < d * 256 + 256 && d < 0x100_0000u32)) by (bit_vector);
}

/// A xorshift step maps a nonzero state to a nonzero state.
pub proof fn lemma_xorshift_keeps_nonzero(x: u32)
    requires
        x != 0,
    ensures
        xorshift32(x) != 0,
{
    let a = x ^ (x << 13u32);
    let b = a ^ (a >> 17u32);
    assert(a != 0) by (bit_vector)
        requires
            x != 0,
            a == x ^ (x << 13u32),
    ;
    assert(b != 0) by (bit_vector)
        requires
            a != 0,
            b == a ^ (a >> 17u32),
    ;
    assert((b ^ (b << 5u32)) != 0) by (bit_vector)
        requires
            b != 0,
    ;
}

/// Two different states never step to the same state: the xorshift step
/// is a permutation of the 32-bit states.
pub proof fn lemma_xorshift_injective(x: u32, y: u32)
    requires
        xorshift32(x) == xorshift32(y),
    ensures
        x == y,
{
    let z = x ^ y;
    assert(xorshift32(x) ^ xorshift32(y) == xorshift32(z)) by (bit_vector)
        requires
            z == x ^ y,
    ;
    assert(xorshift32(z) == 0) by (bit_vector)
        requires
            xorshift32(x) == xorshift32(y),
            xorshift32(x) ^ xorshift32(y) == xorshift32(z),
    ;
    if z != 0 {
        lemma_xorshift_keeps_nonzero(z);
    }
    assert(x == y) by (bit_vector)
        requires
            z == x ^ y,
            z == 0,
    ;
}

} // verus!
