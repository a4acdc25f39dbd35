//! Single-bit views of 32-bit register values, and the values shared by all
//! peripherals (event flags, task triggers, counts).
use vstd::prelude::*;

verus! {

/// The word with only bit `n` set.
pub open spec fn bit_mask(n: u32) -> u32 {
    1u32 << n
}

/// Whether bit `n` of `value` is 1.
pub open spec fn bit_is_set(value: u32, n: u32) -> bool {
    value & (1u32 << n) != 0
}

/// `value` with bit `n` forced to `b`, every other bit kept.
pub open spec fn with_bit(value: u32, n: u32, b: bool) -> u32 {
    if b {
        value | (1u32 << n)
    } else {
        value & !(1u32 << n)
    }
}

/// `value` with bit `n` inverted.
pub open spec fn with_bit_flipped(value: u32, n: u32) -> u32 {
    with_bit(value, n, !bit_is_set(value, n))
}

/// Forcing a bit sets that bit to the given value and leaves all the others.
pub proof fn lemma_with_bit(value: u32, n: u32, b: bool)
    requires
        n < 32,
    ensures
        bit_is_set(with_bit(value, n, b), n) == b,
        forall|i: u32|
            i < 32 && i != n ==> #[trigger] bit_is_set(with_bit(value, n, b), i) == bit_is_set(
                value,
                i,
            ),
{
    if b {
        assert(((value | (1u32 << n)) & (1u32 << n) != 0) == true) by (bit_vector)
            requires
                n < 32,
        ;
        assert(forall|i: u32|
            i < 32 && i != n ==> (((value | (1u32 << n)) & (1u32 << i) != 0) == (value & (1u32
                << i) != 0))) by (bit_vector)
            requires
                n < 32,
        ;
    } else {
        assert(((value & !(1u32 << n)) & (1u32 << n) != 0) == false) by (bit_vector)
            requires
                n < 32,
        ;
        assert(forall|i: u32|
            i < 32 && i != n ==> (((value & !(1u32 << n)) & (1u32 << i) != 0) == (value & (1u32
                << i) != 0))) by (bit_vector)
            requires
                n < 32,
        ;
    }
}

/// `value` with the field of width mask `mask` at bit `offset` replaced by
/// the low bits of `field`, as a field write into a register word does it.
pub open spec fn with_field(value: u32, offset: u32, mask: u32, field: u32) -> u32 {
    (value & !(mask << offset)) | ((field & mask) << offset)
}

/// Whether the rate that a BAUDRATE or FREQUENCY word selects,
/// `word * 16 MHz / 2^32`, is within 2.5% of `rate`.
pub open spec fn selects_rate(word: u32, rate: nat) -> bool {
    let scaled = word * 16_000_000int;
    let target = rate * 0x1_0000_0000int;
    &&& scaled - target <= target / 40
    &&& target - scaled <= target / 40
}

/// The value an event register holds while its event is pending.
pub const EVENT_SET: u32 = 1;

/// The value written to an event register to clear it.
pub const EVENT_CLEAR: u32 = 0;

/// The value written to a task register to trigger the task.
pub const TASK_TRIGGER: u32 = 1;

/// Whether an event register reading reports the event as pending: the
/// register reads exactly 1.
pub fn event_is_set(value: u32) -> (active: bool)
    ensures
        active == (value == EVENT_SET),
{
    value == EVENT_SET
}

/// The 32-bit register word that holds a count or an address given as
/// `usize`: its low 32 bits, as the `as u32` conversion keeps them.
pub fn register_word(value: usize) -> (word: u32)
    ensures
        word as int == value as int % 0x1_0000_0000,
{
    let word = value as u32;
    assert((word as u64) == (value as u64) % 0x1_0000_0000u64) by (bit_vector)
        requires
            word == value as u32,
    ;
    word
}

} // verus!
