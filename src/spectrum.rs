use vstd::prelude::*;

use crate::error::DspError;
use crate::ratio::Ratio;

verus! {

/// The result of a forward transform: one value per frequency bin, and the
/// sample rate of the signal it came from. Bin `i` stands for the frequency
/// `i * sample_rate / len`.
pub struct Spectrum<U> {
    bins: Vec<U>,
    sample_rate: usize,
}

impl<U> Spectrum<U> {
    pub closed spec fn bins_spec(&self) -> Seq<U> {
        self.bins@
    }

    pub closed spec fn rate_spec(&self) -> nat {
        self.sample_rate as nat
    }

    pub open spec fn len_spec(&self) -> nat {
        self.bins_spec().len()
    }

    /// A spectrum has at least one bin and a positive sample rate.
    pub open spec fn wf(&self) -> bool {
        self.len_spec() > 0 && self.rate_spec() > 0
    }

    /// The numerator of the frequency of `index` over the denominator
    /// `len`: indices wrap around the bins.
    pub open spec fn freq_num(&self, index: nat) -> nat {
        (index % self.len_spec()) * self.rate_spec()
    }

    pub(crate) fn from_bins(bins: Vec<U>, sample_rate: usize) -> (r: Spectrum<U>)
        requires
            bins.len() > 0,
            sample_rate > 0,
        ensures
            r.wf(),
            r.bins_spec() == bins@,
            r.rate_spec() == sample_rate,
    {
        Spectrum { bins, sample_rate }
    }

    /// The number of bins.
    pub fn len(&self) -> (r: usize)
        ensures
            r == self.len_spec(),
    {
        self.bins.len()
    }

    pub fn sample_rate(&self) -> (r: usize)
        ensures
            r == self.rate_spec(),
    {
        self.sample_rate
    }

    /// The bins, in frequency order.
    pub fn bins(&self) -> (r: &Vec<U>)
        ensures
            r@ == self.bins_spec(),
    {
        &self.bins
    }

    /// The frequency in Hz of bin `index mod len`, as the exact ratio
    /// `(index mod len) * sample_rate / len`. Indices at or past `len` wrap.
    pub fn item_freq(&self, index: usize) -> (r: Ratio)
        requires
            self.wf(),
        ensures
            r.num == self.freq_num(index as nat),
            r.den == self.len_spec(),
    {
        let n = self.bins.len();
        let bin = (index % n) as u128;
        let rate = self.sample_rate as u128;
        proof {
            assert(bin * rate <= u64::MAX * u64::MAX) by (nonlinear_arith)
                requires bin <= u64::MAX, rate <= u64::MAX;
        }
        Ratio { num: bin * rate, den: n as u128 }
    }

    /// Like `item_freq`, but `None` for an index past the last bin instead
    /// of wrapping.
    pub fn item_freq_checked(&self, index: usize) -> (r: Option<Ratio>)
        requires
            self.wf(),
        ensures
            r is Some <==> index < self.len_spec(),
            r matches Some(q) ==> q.num == index * self.rate_spec() && q.den == self.len_spec(),
    {
        if index < self.bins.len() {
            proof {
                vstd::arithmetic::div_mod::lemma_small_mod(index as nat, self.len_spec());
            }
            Some(self.item_freq(index))
        } else {
            None
        }
    }

    /// The highest frequency this spectrum represents: the Nyquist
    /// frequency `sample_rate / 2`.
    pub fn max_freq(&self) -> (r: Ratio)
        ensures
            r.num == self.rate_spec(),
            r.den == 2,
    {
        Ratio { num: self.sample_rate as u128, den: 2 }
    }

    /// Writes one real value per bin, `output[i] = magnitude(bin[i])`.
    ///
    /// Fails with `LengthMismatch`, leaving `output` as it was, unless
    /// `output` has exactly one entry per bin.
    pub fn to_real<R, F: Fn(&U) -> R>(&self, output: &mut Vec<R>, magnitude: F) -> (r: Result<(), DspError>)
        requires
            forall|b: &U| magnitude.requires((b,)),
        ensures
            r is Ok <==> old(output).len() == self.len_spec(),
            r is Err ==> r == Err::<(), DspError>(DspError::LengthMismatch) && final(output)@ == old(output)@,
            r is Ok ==> final(output).len() == self.len_spec() && forall|i: int|
                0 <= i < self.len_spec() ==> magnitude.ensures(
                    (&self.bins_spec()[i],),
                    #[trigger] final(output)@[i],
                ),
    {
        let n = self.bins.len();
        if output.len() != n {
            return Err(DspError::LengthMismatch);
        }
        let mut i: usize = 0;
        while i < n
            invariant
                n == self.len_spec(),
                output.len() == n,
                i <= n,
                forall|b: &U| magnitude.requires((b,)),
                forall|j: int| 0 <= j < i ==> magnitude.ensures((&self.bins@[j],), #[trigger] output@[j]),
            decreases n - i,
        {
            let v = magnitude(&self.bins[i]);
            output.set(i, v);
            i = i + 1;
        }
        Ok(())
    }
}

/// Frequencies are cyclic in the index: `item_freq(len + k)` and
/// `item_freq(k)` are the same frequency, for every `k`.
pub proof fn lemma_item_freq_cyclic<U>(s: &Spectrum<U>, k: nat)
    requires
        s.wf(),
    ensures
        s.freq_num(s.len_spec() + k) == s.freq_num(k),
{
    vstd::arithmetic::div_mod::lemma_mod_add_multiples_vanish(k as int, s.len_spec() as int);
}

} // verus!
