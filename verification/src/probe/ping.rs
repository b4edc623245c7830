use vstd::prelude::*;

verus! {

/// The 16-bit echo sequence number of the ping sent at measurement tick
/// `counter` (ticks count from 1; the sequence wraps modulo 65535).
pub fn sequence_for_tick(counter: u64) -> (seq: u16)
    ensures
        seq as int == counter as int % 65535,
{
    (counter % 65535) as u16
}

/// Law: pings of ticks less than 65535 apart carry different sequence
/// numbers, so a late reply is never taken for a newer ping's.
pub proof fn lemma_tick_sequences_distinct(a: u64, b: u64)
    requires
        a < b,
        b - a < 65535,
    ensures
        a as int % 65535 != b as int % 65535,
{
    vstd::arithmetic::div_mod::lemma_fundamental_div_mod(a as int, 65535);
    vstd::arithmetic::div_mod::lemma_fundamental_div_mod(b as int, 65535);
    let qa = a as int / 65535;
    let qb = b as int / 65535;
    if a as int % 65535 == b as int % 65535 {
        assert(b as int - a as int == 65535 * (qb - qa));
        assert(qb - qa >= 1) by (nonlinear_arith)
            requires
                b as int - a as int == 65535 * (qb - qa),
                a < b,
        ;
        assert(65535 * (qb - qa) >= 65535) by (nonlinear_arith)
            requires
                qb - qa >= 1,
        ;
    }
}

} // verus!
