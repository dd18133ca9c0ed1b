//! Loudness of a window of signed 16-bit samples, kept exact.
//!
//! The root mean square of a window, normalised to full scale, is
//! `sqrt(sum_squares / count) / FULL_SCALE`. This module computes the two
//! integers under the root; taking the root is left to the caller.

use vstd::prelude::*;

verus! {

/// Magnitude that normalises to one: the largest positive sample.
pub const FULL_SCALE: u16 = 32767;

/// Largest square a sample can have: that of the most negative sample.
pub const PEAK_SQUARE: u128 = 1073741824;

/// The square of one sample.
pub open spec fn square(sample: i16) -> nat {
    (sample as int * sample as int) as nat
}

/// The sum of the squares of all samples.
pub open spec fn energy(samples: Seq<i16>) -> nat
    decreases samples.len(),
{
    if samples.len() == 0 {
        0
    } else {
        energy(samples.drop_last()) + square(samples.last())
    }
}

/// A sample with its sign flipped. The most negative sample has no positive
/// counterpart and stays as it is.
pub open spec fn flipped(sample: i16) -> i16 {
    if sample == i16::MIN {
        sample
    } else {
        (-(sample as int)) as i16
    }
}

/// A window with the sign of every sample flipped.
pub open spec fn negated(samples: Seq<i16>) -> Seq<i16> {
    Seq::new(samples.len(), |i: int| flipped(samples[i]))
}

/// The exact loudness of a window: the sum of its squared samples and the
/// number of samples summed.
#[derive(Clone, Copy, Debug, PartialEq, Eq)]
pub struct Loudness {
    pub sum_squares: u128,
    pub count: usize,
}

impl Loudness {
    /// The sum cannot exceed what `count` samples of the largest magnitude give.
    pub open spec fn wf(self) -> bool {
        self.sum_squares <= self.count * PEAK_SQUARE
    }

    /// This value is the loudness of `samples`.
    pub open spec fn measures(self, samples: Seq<i16>) -> bool {
        &&& self.count == samples.len()
        &&& self.sum_squares == energy(samples)
    }
}

/// A square is the product of the sample with itself, and at most
/// `PEAK_SQUARE`.
proof fn lemma_square_bound(sample: i16)
    ensures
        square(sample) == sample as int * sample as int,
        square(sample) <= PEAK_SQUARE,
{
    let x: int = sample as int;
    assert(0 <= x * x <= 32768 * 32768) by (nonlinear_arith)
        requires
            -32768 <= x <= 32767,
    ;
}

/// Appending one sample adds its square.
proof fn lemma_energy_push(samples: Seq<i16>, sample: i16)
    ensures
        energy(samples.push(sample)) == energy(samples) + square(sample),
{
    assert(samples.push(sample).drop_last() =~= samples);
}

/// Computes the loudness of a window of samples: the exact sum of their
/// squares, and their number. The empty window has sum and number zero, and
/// so no mean.
pub fn measure(samples: &[i16]) -> (loudness: Loudness)
    ensures
        loudness.measures(samples@),
        loudness.wf(),
{
    let mut sum: u128 = 0;
    let mut i: usize = 0;
    while i < samples.len()
        invariant
            i <= samples.len(),
            sum == energy(samples@.take(i as int)),
            sum <= i * PEAK_SQUARE,
        decreases samples.len() - i,
    {
        let x: i16 = samples[i];
        let wide: i64 = x as i64;
        proof {
            lemma_square_bound(x);
            lemma_energy_push(samples@.take(i as int), x);
            assert(samples@.take(i as int).push(x) =~= samples@.take(i + 1));
            assert(wide * wide == square(x));
        }
        let sq: i64 = wide * wide;
        sum = sum + sq as u128;
        i = i + 1;
    }
    proof {
        assert(samples@.take(i as int) =~= samples@);
    }
    Loudness { sum_squares: sum, count: i }
}

/// The distance of a sample from zero.
pub open spec fn magnitude(sample: i16) -> nat {
    if sample < 0 {
        (-(sample as int)) as nat
    } else {
        sample as nat
    }
}

/// The energy of a window is at most `PEAK_SQUARE` for each of its samples:
/// the mean square lies between zero and the square of `FULL_SCALE + 1`, and
/// the normalised root mean square between zero and
/// `(FULL_SCALE + 1) / FULL_SCALE`.
pub proof fn law_energy_is_bounded(samples: Seq<i16>)
    ensures
        0 <= energy(samples) <= samples.len() * PEAK_SQUARE,
        PEAK_SQUARE == (FULL_SCALE + 1) * (FULL_SCALE + 1),
    decreases samples.len(),
{
    if samples.len() > 0 {
        law_energy_is_bounded(samples.drop_last());
        lemma_square_bound(samples.last());
    }
}

/// A window has no energy exactly if every sample in it is zero.
pub proof fn law_silence_has_no_energy(samples: Seq<i16>)
    ensures
        energy(samples) == 0 <==> forall|i: int| 0 <= i < samples.len() ==> samples[i] == 0,
    decreases samples.len(),
{
    if samples.len() > 0 {
        let front = samples.drop_last();
        let x: int = samples.last() as int;
        law_silence_has_no_energy(front);
        lemma_square_bound(samples.last());
        assert(x * x == 0 <==> x == 0) by (nonlinear_arith);
        if energy(samples) == 0 {
            assert forall|i: int| 0 <= i < samples.len() implies samples[i] == 0 by {
                if i < front.len() {
                    assert(front[i] == samples[i]);
                }
            }
        } else if forall|i: int| 0 <= i < samples.len() ==> samples[i] == 0 {
            assert forall|i: int| 0 <= i < front.len() implies front[i] == 0 by {
                assert(front[i] == samples[i]);
            }
        }
    }
}

/// A window that holds one level throughout has the square of that level
/// as its mean square: its energy is that square times its length. At
/// `FULL_SCALE` the normalised root mean square is one.
pub proof fn law_constant_window(samples: Seq<i16>, level: i16)
    requires
        forall|i: int| 0 <= i < samples.len() ==> samples[i] == level,
    ensures
        energy(samples) == samples.len() * square(level),
    decreases samples.len(),
{
    if samples.len() > 0 {
        let front = samples.drop_last();
        assert forall|i: int| 0 <= i < front.len() implies front[i] == level by {
            assert(front[i] == samples[i]);
        }
        law_constant_window(front, level);
        let n: int = front.len() as int;
        let q: int = square(level) as int;
        assert(n * q + q == (n + 1) * q) by (nonlinear_arith);
    }
}

/// Flipping the sign of every sample leaves the energy as it is.
pub proof fn law_sign_flip_keeps_energy(samples: Seq<i16>)
    ensures
        energy(negated(samples)) == energy(samples),
    decreases samples.len(),
{
    if samples.len() > 0 {
        let x: int = samples.last() as int;
        law_sign_flip_keeps_energy(samples.drop_last());
        assert(negated(samples).drop_last() =~= negated(samples.drop_last()));
        lemma_square_bound(samples.last());
        lemma_square_bound(flipped(samples.last()));
        assert((-x) * (-x) == x * x) by (nonlinear_arith);
    }
}

/// The energy of a window of one sample is the square of its magnitude, so
/// its root mean square is that magnitude.
pub proof fn law_single_sample(sample: i16)
    ensures
        energy(seq![sample]) == magnitude(sample) * magnitude(sample),
{
    let x: int = sample as int;
    let window = seq![sample];
    assert(window.drop_last().len() == 0);
    assert(energy(window) == energy(window.drop_last()) + square(window.last()));
    lemma_square_bound(sample);
    assert((-x) * (-x) == x * x) by (nonlinear_arith);
}

} // verus!
