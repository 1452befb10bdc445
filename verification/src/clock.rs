use vstd::prelude::*;

verus! {

/// The millisecond count after one more timer overflow: the counter
/// advances by one and wraps to zero past `u32::MAX`.
pub fn next_millisecond_count(counter: u32) -> (next: u32)
    ensures
        next == (counter + 1) % 0x1_0000_0000,
        next == spec_next_count(counter),
{
    counter.wrapping_add(1)
}

/// One step of the millisecond counter, as `next_millisecond_count` takes it.
pub open spec fn spec_next_count(counter: u32) -> u32 {
    ((counter + 1) % 0x1_0000_0000) as u32
}

/// The counter after `k` timer overflows, starting from zero.
pub open spec fn count_after(k: nat) -> u32
    decreases k,
{
    if k == 0 {
        0
    } else {
        spec_next_count(count_after((k - 1) as nat))
    }
}

/// Starting from zero, the counter holds the number of timer overflows so
/// far, modulo 2^32.
pub proof fn lemma_count_after(k: nat)
    ensures
        count_after(k) == k % 0x1_0000_0000,
    decreases k,
{
    if k > 0 {
        lemma_count_after((k - 1) as nat);
        vstd::arithmetic::div_mod::lemma_add_mod_noop((k - 1) as int, 1, 0x1_0000_0000);
        assert(1int % 0x1_0000_0000 == 1);
    }
}

} // verus!
