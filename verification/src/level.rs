//! How loud a run of samples is.

use vstd::prelude::*;

verus! {

/// The distance of a sample from silence.
pub open spec fn magnitude(s: i16) -> nat {
    if s < 0 {
        (-(s as int)) as nat
    } else {
        s as nat
    }
}

/// The largest magnitude among the samples; 0 where there are none.
pub open spec fn peak(samples: Seq<i16>) -> nat
    decreases samples.len(),
{
    if samples.len() == 0 {
        0
    } else {
        let rest = peak(samples.drop_last());
        let last = magnitude(samples.last());
        if last > rest {
            last
        } else {
            rest
        }
    }
}

/// Measures the largest magnitude among the samples.
pub fn peak_of(samples: &[i16]) -> (loudest: u32)
    ensures
        loudest == peak(samples@),
        loudest <= 32768,
{
    let mut loudest: u32 = 0;
    let mut i: usize = 0;
    while i < samples.len()
        invariant
            i <= samples@.len(),
            loudest == peak(samples@.take(i as int)),
            loudest <= 32768,
        decreases samples@.len() - i,
    {
        let s: i16 = samples[i];
        let m: u32 = if s < 0 {
            (-(s as i32)) as u32
        } else {
            s as u32
        };
        proof {
            assert(samples@.take(i + 1).drop_last() =~= samples@.take(i as int));
            assert(samples@.take(i + 1).last() == s);
        }
        if m > loudest {
            loudest = m;
        }
        i = i + 1;
    }
    assert(samples@.take(samples@.len() as int) =~= samples@);
    loudest
}

} // verus!
