use vstd::prelude::*;

use crate::error::DspError;

verus! {

/// An ordered sequence of samples taken at `sample_rate` samples per second.
pub struct Signal<T> {
    samples: Vec<T>,
    sample_rate: usize,
}

impl<T> Signal<T> {
    /// The samples, in order.
    pub closed spec fn samples_spec(&self) -> Seq<T> {
        self.samples@
    }

    pub closed spec fn rate_spec(&self) -> nat {
        self.sample_rate as nat
    }

    /// A signal's sample rate is positive.
    pub open spec fn wf(&self) -> bool {
        self.rate_spec() > 0
    }

    /// A signal holding `samples` at `sample_rate`.
    ///
    /// Fails with `InvalidParameter` when `sample_rate` is zero.
    pub fn new(samples: Vec<T>, sample_rate: usize) -> (r: Result<Signal<T>, DspError>)
        ensures
            r is Ok <==> sample_rate > 0,
            r is Err ==> r == Err::<Signal<T>, DspError>(DspError::InvalidParameter),
            r matches Ok(s) ==> s.wf() && s.samples_spec() == samples@ && s.rate_spec() == sample_rate,
    {
        if sample_rate == 0 {
            return Err(DspError::InvalidParameter);
        }
        Ok(Signal { samples, sample_rate })
    }

    /// A signal with no samples at `sample_rate`.
    ///
    /// Fails with `InvalidParameter` when `sample_rate` is zero.
    pub fn empty(sample_rate: usize) -> (r: Result<Signal<T>, DspError>)
        ensures
            r is Ok <==> sample_rate > 0,
            r is Err ==> r == Err::<Signal<T>, DspError>(DspError::InvalidParameter),
            r matches Ok(s) ==> s.wf() && s.samples_spec().len() == 0 && s.rate_spec() == sample_rate,
    {
        Signal::new(Vec::new(), sample_rate)
    }

    pub fn len(&self) -> (r: usize)
        ensures
            r == self.samples_spec().len(),
    {
        self.samples.len()
    }

    pub fn sample_rate(&self) -> (r: usize)
        ensures
            r == self.rate_spec(),
    {
        self.sample_rate
    }

    pub fn samples(&self) -> (r: &Vec<T>)
        ensures
            r@ == self.samples_spec(),
    {
        &self.samples
    }

    /// A new signal whose `i`-th sample is `scale(samples[i])`, at the same
    /// sample rate. Multiplying by an amount is handed in as `scale`.
    pub fn rescale<F: Fn(&T) -> T>(&self, scale: F) -> (r: Signal<T>)
        requires
            forall|x: &T| scale.requires((x,)),
        ensures
            r.rate_spec() == self.rate_spec(),
            r.samples_spec().len() == self.samples_spec().len(),
            forall|i: int|
                0 <= i < self.samples_spec().len() ==> scale.ensures(
                    (&self.samples_spec()[i],),
                    #[trigger] r.samples_spec()[i],
                ),
    {
        let mut out: Vec<T> = Vec::new();
        let mut i: usize = 0;
        while i < self.samples.len()
            invariant
                i <= self.samples.len(),
                out.len() == i,
                forall|x: &T| scale.requires((x,)),
                forall|j: int| 0 <= j < i ==> scale.ensures((&self.samples@[j],), #[trigger] out@[j]),
            decreases self.samples.len() - i,
        {
            out.push(scale(&self.samples[i]));
            i = i + 1;
        }
        Signal { samples: out, sample_rate: self.sample_rate }
    }
}

} // verus!
