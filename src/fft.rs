use vstd::prelude::*;

use crate::error::DspError;
use crate::signal::Signal;
use crate::spectrum::Spectrum;

verus! {

/// `2^b`.
pub open spec fn pow2(b: nat) -> nat
    decreases b,
{
    if b == 0 { 1 } else { 2 * pow2((b - 1) as nat) }
}

/// Whether `n` is a power of two.
pub open spec fn is_pow2(n: nat) -> bool {
    exists|b: nat| pow2(b) == n
}

/// The lowest `bits` bits of `x`, in reverse order.
pub open spec fn rev_bits(x: nat, bits: nat) -> nat
    decreases bits,
{
    if bits == 0 {
        0
    } else {
        (x % 2) * pow2((bits - 1) as nat) + rev_bits(x / 2, (bits - 1) as nat)
    }
}

/// The sequence `s` in bit-reversed order: entry `i` is `s[rev_bits(i)]`.
pub open spec fn bit_reversed<T>(s: Seq<T>, bits: nat) -> Seq<T> {
    Seq::new(s.len(), |i: int| s[rev_bits(i as nat, bits) as int])
}

proof fn lemma_pow2_pos(b: nat)
    ensures
        pow2(b) >= 1,
    decreases b,
{
    if b > 0 {
        lemma_pow2_pos((b - 1) as nat);
    }
}

proof fn lemma_pow2_increases(a: nat, b: nat)
    requires
        a < b,
    ensures
        pow2(a) < pow2(b),
    decreases b,
{
    lemma_pow2_pos((b - 1) as nat);
    if a < b - 1 {
        lemma_pow2_increases(a, (b - 1) as nat);
    }
}

proof fn lemma_pow2_exceeds(b: nat)
    ensures
        b < pow2(b),
    decreases b,
{
    if b > 0 {
        lemma_pow2_exceeds((b - 1) as nat);
    }
}

proof fn lemma_rev_bits_bound(x: nat, bits: nat)
    ensures
        rev_bits(x, bits) < pow2(bits),
    decreases bits,
{
    if bits > 0 {
        let p = pow2((bits - 1) as nat);
        lemma_rev_bits_bound(x / 2, (bits - 1) as nat);
        assert((x % 2) * p <= p) by (nonlinear_arith)
            requires x % 2 <= 1;
    }
}

/// A number strictly between two consecutive powers of two is none.
proof fn lemma_between_pow2(n: nat, b: nat)
    requires
        pow2(b) < n < 2 * pow2(b),
    ensures
        !is_pow2(n),
{
    assert forall|c: nat| pow2(c) != n by {
        if c <= b {
            if c < b {
                lemma_pow2_increases(c, b);
            }
        } else {
            if c > b + 1 {
                lemma_pow2_increases(b + 1, c);
            }
            assert(pow2(b + 1) == 2 * pow2(b));
        }
    }
}

/// Reversing `b` bits, read from the top: the lowest `b - 1` bits reversed
/// and shifted up by one, below them the top bit.
proof fn lemma_rev_bits_top(x: nat, b: nat)
    requires
        b >= 1,
        x < pow2(b),
    ensures
        rev_bits(x, b) == 2 * rev_bits(x % pow2((b - 1) as nat), (b - 1) as nat) + x / pow2((b - 1) as nat),
    decreases b,
{
    let p = pow2((b - 1) as nat);
    if b == 1 {
        assert(p == 1);
        assert(x % 1 == 0 && x / 1 == x);
        assert(rev_bits(x / 2, 0) == 0);
        assert(rev_bits(0, 0) == 0);
        assert(x % 2 == x);
    } else {
        let q = pow2((b - 2) as nat);
        assert(p == 2 * q);
        lemma_pow2_pos((b - 2) as nat);
        assert(x / 2 < p) by {
            vstd::arithmetic::div_mod::lemma_div_is_ordered(x as int, (pow2(b) - 1) as int, 2);
            vstd::arithmetic::div_mod::lemma_fundamental_div_mod_converse((pow2(b) - 1) as int, 2, (p - 1) as int, 1);
        }
        lemma_rev_bits_top(x / 2, (b - 1) as nat);
        vstd::arithmetic::div_mod::lemma_mod_mod(x as int, 2, q as int);
        vstd::arithmetic::div_mod::lemma_mod_breakdown(x as int, 2, q as int);
        vstd::arithmetic::div_mod::lemma_mod_pos_bound(x as int, 2);
        vstd::arithmetic::div_mod::lemma_fundamental_div_mod_converse(
            (x % p) as int,
            2,
            ((x / 2) % q) as int,
            (x % 2) as int,
        );
        vstd::arithmetic::div_mod::lemma_div_denominator(x as int, 2, q as int);
        let a = x % 2;
        let h = (x / 2) % q;
        assert((x % p) % 2 == a);
        assert((x % p) / 2 == h);
        assert((x / 2) / q == x / p);
        assert(rev_bits(x % p, (b - 1) as nat) == a * q + rev_bits(h, (b - 2) as nat));
        assert(rev_bits(x, b) == a * p + rev_bits(x / 2, (b - 1) as nat));
        assert(a * p == 2 * (a * q)) by (nonlinear_arith)
            requires p == 2 * q;
    }
}

/// Bit reversal undoes itself.
proof fn lemma_rev_bits_involution(x: nat, b: nat)
    requires
        x < pow2(b),
    ensures
        rev_bits(rev_bits(x, b), b) == x,
    decreases b,
{
    if b == 0 {
        assert(rev_bits(0, 0) == 0);
    } else {
        let p = pow2((b - 1) as nat);
        let h = rev_bits(x / 2, (b - 1) as nat);
        let r = rev_bits(x, b);
        lemma_rev_bits_bound(x, b);
        lemma_rev_bits_bound(x / 2, (b - 1) as nat);
        lemma_pow2_pos((b - 1) as nat);
        vstd::arithmetic::div_mod::lemma_mod_pos_bound(x as int, 2);
        vstd::arithmetic::div_mod::lemma_fundamental_div_mod_converse(r as int, p as int, (x % 2) as int, h as int);
        lemma_rev_bits_top(r, b);
        assert(x / 2 < p) by {
            vstd::arithmetic::div_mod::lemma_div_is_ordered(x as int, (pow2(b) - 1) as int, 2);
            vstd::arithmetic::div_mod::lemma_fundamental_div_mod_converse((pow2(b) - 1) as int, 2, (p - 1) as int, 1);
        }
        lemma_rev_bits_involution(x / 2, (b - 1) as nat);
    }
}

/// Putting a sequence of `2^bits` entries in bit-reversed order twice gives
/// it back: the plan's reordering is a permutation, its own inverse.
pub proof fn lemma_bit_reversed_twice<T>(s: Seq<T>, bits: nat)
    requires
        s.len() == pow2(bits),
    ensures
        bit_reversed(bit_reversed(s, bits), bits) == s,
{
    assert forall|i: int| 0 <= i < s.len() implies #[trigger] bit_reversed(bit_reversed(s, bits), bits)[i] == s[i] by {
        lemma_rev_bits_bound(i as nat, bits);
        lemma_rev_bits_involution(i as nat, bits);
    }
    assert(bit_reversed(bit_reversed(s, bits), bits) =~= s);
}

/// The lowest `bits` bits of `x`, in reverse order.
fn reverse_bits(x: usize, bits: usize) -> (r: usize)
    requires
        pow2(bits as nat) <= usize::MAX,
    ensures
        r == rev_bits(x as nat, bits as nat),
{
    let mut r: usize = 0;
    let mut y: usize = x;
    let mut b: usize = 0;
    while b < bits
        invariant
            b <= bits,
            pow2(bits as nat) <= usize::MAX,
            r < pow2(b as nat),
            r * pow2((bits - b) as nat) + rev_bits(y as nat, (bits - b) as nat) == rev_bits(x as nat, bits as nat),
        decreases bits - b,
    {
        let ghost m: nat = (bits - b) as nat;
        proof {
            let p = pow2((m - 1) as nat);
            assert(pow2(m) == 2 * p);
            assert(rev_bits(y as nat, m) == (y as nat % 2) * p + rev_bits(y as nat / 2, (m - 1) as nat));
            assert(r * pow2(m) == (2 * r) * p) by (nonlinear_arith)
                requires pow2(m) == 2 * p;
            assert((2 * r) * p + (y as nat % 2) * p == (2 * r + y as nat % 2) * p) by (nonlinear_arith);
            assert(pow2((b + 1) as nat) == 2 * pow2(b as nat));
            if b + 1 < bits {
                lemma_pow2_increases((b + 1) as nat, bits as nat);
            }
        }
        r = 2 * r + y % 2;
        y = y / 2;
        b = b + 1;
    }
    proof {
        assert(rev_bits(y as nat, 0) == 0);
        assert(pow2(0) == 1);
        assert(r * pow2(0) == r);
    }
    r
}

/// A reusable plan for the forward transform of one fixed length, a power
/// of two. It holds the bit-reversal permutation that orders the input for
/// the in-place radix-2 butterflies.
pub struct ForwardFFT {
    sample_size: usize,
    bits: usize,
    reversal: Vec<usize>,
}

impl ForwardFFT {
    /// The transform length.
    pub closed spec fn size_spec(&self) -> nat {
        self.sample_size as nat
    }

    /// `log2` of the transform length.
    pub closed spec fn bits_spec(&self) -> nat {
        self.bits as nat
    }

    pub closed spec fn reversal_spec(&self) -> Seq<usize> {
        self.reversal@
    }

    /// The length is `2^bits` and the table holds `rev_bits(i, bits)` at `i`.
    pub open spec fn wf(&self) -> bool {
        &&& pow2(self.bits_spec()) == self.size_spec()
        &&& self.reversal_spec().len() == self.size_spec()
        &&& forall|i: int|
            0 <= i < self.size_spec() ==> #[trigger] self.reversal_spec()[i] == rev_bits(i as nat, self.bits_spec())
    }

    /// A plan for transforms of length `sample_size`.
    ///
    /// Fails with `InvalidParameter` unless `sample_size` is a power of two
    /// (zero is none).
    pub fn new(sample_size: usize) -> (r: Result<ForwardFFT, DspError>)
        ensures
            r is Ok <==> is_pow2(sample_size as nat),
            r is Err ==> r == Err::<ForwardFFT, DspError>(DspError::InvalidParameter),
            r matches Ok(p) ==> p.wf() && p.size_spec() == sample_size,
    {
        let mut m: usize = 1;
        let mut bits: usize = 0;
        proof {
            lemma_pow2_pos(0);
        }
        while m < sample_size
            invariant
                m == pow2(bits as nat),
                1 <= m <= usize::MAX,
                bits as nat > 0 ==> pow2((bits - 1) as nat) < sample_size,
            decreases usize::MAX - m,
        {
            if m > usize::MAX / 2 {
                proof {
                    assert(pow2((bits + 1) as nat) == 2 * m);
                    lemma_between_pow2(sample_size as nat, bits as nat);
                }
                return Err(DspError::InvalidParameter);
            }
            proof {
                assert(pow2((bits + 1) as nat) == 2 * pow2(bits as nat));
                lemma_pow2_exceeds(bits as nat);
            }
            m = m * 2;
            bits = bits + 1;
        }
        if m != sample_size {
            proof {
                if bits == 0 {
                    assert forall|c: nat| pow2(c) != sample_size by {
                        lemma_pow2_pos(c);
                    }
                } else {
                    assert(pow2(bits as nat) == 2 * pow2((bits - 1) as nat));
                    lemma_between_pow2(sample_size as nat, (bits - 1) as nat);
                }
            }
            return Err(DspError::InvalidParameter);
        }
        let mut reversal: Vec<usize> = Vec::new();
        let mut i: usize = 0;
        while i < sample_size
            invariant
                i <= sample_size,
                sample_size == pow2(bits as nat),
                reversal.len() == i,
                forall|j: int| 0 <= j < i ==> #[trigger] reversal@[j] == rev_bits(j as nat, bits as nat),
            decreases sample_size - i,
        {
            let r = reverse_bits(i, bits);
            reversal.push(r);
            i = i + 1;
        }
        Ok(ForwardFFT { sample_size, bits, reversal })
    }

    /// The transform length.
    pub fn sample_size(&self) -> (r: usize)
        ensures
            r == self.size_spec(),
    {
        self.sample_size
    }

    /// The number of outputs of the real-input transform: `sample_size / 2 + 1`.
    pub fn real_output_len(&self) -> (r: usize)
        requires
            self.wf(),
        ensures
            r == self.size_spec() / 2 + 1,
    {
        self.sample_size / 2 + 1
    }
    /// The input in bit-reversed order, the order the radix-2 butterflies
    /// consume it in.
    ///
    /// Fails with `LengthMismatch` unless `input` has `sample_size` entries.
    pub fn permute<T: Copy>(&self, input: &Vec<T>) -> (r: Result<Vec<T>, DspError>)
        requires
            self.wf(),
        ensures
            r is Ok <==> input.len() == self.size_spec(),
            r is Err ==> r == Err::<Vec<T>, DspError>(DspError::LengthMismatch),
            r matches Ok(v) ==> v@ == bit_reversed(input@, self.bits_spec()),
    {
        let n = self.sample_size;
        if input.len() != n {
            return Err(DspError::LengthMismatch);
        }
        let mut out: Vec<T> = Vec::new();
        let mut i: usize = 0;
        while i < n
            invariant
                self.wf(),
                n == self.size_spec(),
                input.len() == n,
                i <= n,
                out.len() == i,
                forall|j: int|
                    0 <= j < i ==> #[trigger] out@[j] == input@[rev_bits(j as nat, self.bits_spec()) as int],
            decreases n - i,
        {
            let src = self.reversal[i];
            proof {
                lemma_rev_bits_bound(i as nat, self.bits_spec());
            }
            out.push(input[src]);
            i = i + 1;
        }
        proof {
            assert(out@ =~= bit_reversed(input@, self.bits_spec()));
        }
        Ok(out)
    }

    /// The forward transform of `signal`, as a spectrum with one bin per
    /// sample at the signal's sample rate.
    ///
    /// The samples are put in bit-reversed order and handed to
    /// `butterflies`, which runs the butterfly stages over them and returns
    /// one bin per entry. Fails with `LengthMismatch` unless the signal has
    /// exactly `sample_size` samples; nothing is padded or cut.
    pub fn process<T: Copy, U, F: Fn(Vec<T>) -> Vec<U>>(&self, signal: &Signal<T>, butterflies: F) -> (r: Result<Spectrum<U>, DspError>)
        requires
            self.wf(),
            signal.wf(),
            forall|v: Vec<T>| butterflies.requires((v,)),
            forall|v: Vec<T>, o: Vec<U>| butterflies.ensures((v,), o) ==> o.len() == v.len(),
        ensures
            r is Ok <==> signal.samples_spec().len() == self.size_spec(),
            r is Err ==> r == Err::<Spectrum<U>, DspError>(DspError::LengthMismatch),
            r matches Ok(s) ==> {
                &&& s.wf()
                &&& s.rate_spec() == signal.rate_spec()
                &&& s.len_spec() == self.size_spec()
                &&& exists|v: Vec<T>, o: Vec<U>|
                    v@ == bit_reversed(signal.samples_spec(), self.bits_spec())
                    && o@ == s.bins_spec()
                    && #[trigger] butterflies.ensures((v,), o)
            },
    {
        let ordered = match self.permute(signal.samples()) {
            Ok(v) => v,
            Err(e) => return Err(e),
        };
        let ghost v = ordered;
        let bins = butterflies(ordered);
        proof {
            lemma_pow2_pos(self.bits_spec());
        }
        let s = Spectrum::from_bins(bins, signal.sample_rate());
        proof {
            assert(butterflies.ensures((v,), bins));
        }
        Ok(s)
    }

    /// The real-input transform of `input`, written to `output`: the
    /// `sample_size / 2 + 1` values that `transform` derives from the
    /// bit-reversed input (for instance bin magnitudes). Unlike `process`,
    /// no sample rate is attached.
    ///
    /// Fails with `LengthMismatch`, leaving `output` as it was, unless
    /// `input` has `sample_size` entries and `output` has
    /// `sample_size / 2 + 1`.
    pub fn process_real<T: Copy, F: Fn(Vec<T>) -> Vec<T>>(&self, input: &Vec<T>, output: &mut Vec<T>, transform: F) -> (r: Result<(), DspError>)
        requires
            self.wf(),
            forall|v: Vec<T>| transform.requires((v,)),
            forall|v: Vec<T>, o: Vec<T>| transform.ensures((v,), o) ==> o.len() == v.len() / 2 + 1,
        ensures
            r is Ok <==> (input.len() == self.size_spec() && old(output).len() == self.size_spec() / 2 + 1),
            r is Err ==> r == Err::<(), DspError>(DspError::LengthMismatch) && final(output)@ == old(output)@,
            r is Ok ==> exists|v: Vec<T>|
                v@ == bit_reversed(input@, self.bits_spec()) && #[trigger] transform.ensures((v,), *final(output)),
    {
        if output.len() != self.real_output_len() {
            return Err(DspError::LengthMismatch);
        }
        let ordered = match self.permute(input) {
            Ok(v) => v,
            Err(e) => return Err(e),
        };
        let ghost v = ordered;
        let result = transform(ordered);
        *output = result;
        proof {
            assert(transform.ensures((v,), *output));
        }
        Ok(())
    }
}

} // verus!
