use vstd::prelude::*;

verus! {

/// The state that a zero seed is replaced by: a xorshift generator never
/// leaves zero.
pub const DEFAULT_STATE: u32 = 0x9E37_79B9;

/// The generator state that `seed` starts from.
pub open spec fn seeded(seed: u32) -> u32 {
    if seed == 0 {
        DEFAULT_STATE
    } else {
        seed
    }
}

/// One xorshift32 step.
pub open spec fn next_state(s: u32) -> u32 {
    let a = s ^ (s << 13u32);
    let b = a ^ (a >> 17u32);
    b ^ (b << 5u32)
}

/// The byte that state `s` yields: its top eight bits.
pub open spec fn byte_of(s: u32) -> u8 {
    (s >> 24u32) as u8
}

/// Starting state for `seed`.
pub fn seed_state(seed: u32) -> (r: u32)
    ensures
        r == seeded(seed),
{
    if seed == 0 {
        DEFAULT_STATE
    } else {
        seed
    }
}

/// Advances the generator state by one step.
pub fn advance(s: u32) -> (r: u32)
    ensures
        r == next_state(s),
{
    let a = s ^ (s << 13u32);
    let b = a ^ (a >> 17u32);
    b ^ (b << 5u32)
}

/// The random byte that state `s` yields.
pub fn output_byte(s: u32) -> (r: u8)
    ensures
        r == byte_of(s),
{
    (s >> 24u32) as u8
}

} // verus!
