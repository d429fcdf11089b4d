use vstd::prelude::*;

use crate::error::DspError;
use crate::ratio::Ratio;

verus! {

/// The shaping functions a window can have.
#[derive(Debug, Clone, Copy, PartialEq, Eq, Structural)]
pub enum WindowShape {
    Rectangular,
    Triangular,
    Welch,
    Sine,
    Hann,
    Hamming,
    Blackman,
}

/// The weight of one window position, in the exact form this library can
/// give it.
///
/// `Exact(q)` is the weight itself. `Phase(t)` is the normalized position
/// `t = (i - offset) / width` inside the active span, for the shapes whose
/// weight is a trigonometric function of `t`:
/// sine `sin(pi t)`, hann `0.5 (1 - cos(2 pi t))`,
/// hamming `0.54 - 0.46 cos(2 pi t)`,
/// blackman `0.42 - 0.5 cos(2 pi t) + 0.08 cos(4 pi t)`.
#[derive(Debug, Clone, Copy, PartialEq, Eq, Structural)]
pub enum Weight {
    Exact(Ratio),
    Phase(Ratio),
}

/// Whether `(width, offset, window_length)` describes a buildable window:
/// a non-empty active span lying inside a non-empty coefficient sequence.
pub open spec fn valid_span(width: int, offset: int, window_length: int) -> bool {
    &&& width > 0
    &&& window_length > 0
    &&& offset >= 0
    &&& offset + width <= window_length
}

pub open spec fn abs_diff(a: int, b: int) -> int {
    if a >= b { a - b } else { b - a }
}

/// Whether the shape's weight is a trigonometric function of the phase.
pub open spec fn is_trig(shape: WindowShape) -> bool {
    match shape {
        WindowShape::Sine | WindowShape::Hann | WindowShape::Hamming | WindowShape::Blackman => true,
        _ => false,
    }
}

/// The weight at index `i` of a window of the given shape whose active span
/// is `[offset, offset + width)`.
///
/// Outside the span the weight is `0`. Inside it, with `k = i - offset`:
/// rectangular `1`; triangular `1 - |k - w/2| / (w/2)`, that is
/// `(w - |2k - w|) / w`; welch `1 - ((k - w/2) / (w/2))^2`, that is
/// `4k(w - k) / w^2`; the trigonometric shapes the phase `k / w`.
pub open spec fn weight_at(shape: WindowShape, width: nat, offset: nat, i: nat) -> Weight {
    if i < offset || i >= offset + width {
        Weight::Exact(Ratio { num: 0, den: 1 })
    } else {
        let k = i - offset;
        match shape {
            WindowShape::Rectangular => Weight::Exact(Ratio { num: 1, den: 1 }),
            WindowShape::Triangular => Weight::Exact(
                Ratio { num: (width - abs_diff(2 * k, width as int)) as u128, den: width as u128 },
            ),
            WindowShape::Welch => Weight::Exact(
                Ratio { num: (4 * k * (width - k)) as u128, den: (width * width) as u128 },
            ),
            _ => Weight::Phase(Ratio { num: k as u128, den: width as u128 }),
        }
    }
}

/// What a window is: its shape, its span and the length of its coefficient
/// sequence.
pub struct WindowParams {
    pub shape: WindowShape,
    pub width: nat,
    pub offset: nat,
    pub window_length: nat,
}

/// A window function: a coefficient sequence of `window_length` entries,
/// zero outside the active span `[offset, offset + width)` and shaped inside
/// it. `T` is the sample type the coefficients are evaluated in.
pub struct Window<T> {
    shape: WindowShape,
    width: usize,
    offset: usize,
    window_length: usize,
    coefficients: Vec<T>,
}

impl<T> View for Window<T> {
    type V = WindowParams;

    closed spec fn view(&self) -> WindowParams {
        WindowParams {
            shape: self.shape,
            width: self.width as nat,
            offset: self.offset as nat,
            window_length: self.window_length as nat,
        }
    }
}

impl<T> Window<T> {
    /// The coefficient sequence.
    pub closed spec fn coeffs(&self) -> Seq<T> {
        self.coefficients@
    }

    /// The span is valid and there is one coefficient per position.
    pub open spec fn wf(&self) -> bool {
        &&& valid_span(self@.width as int, self@.offset as int, self@.window_length as int)
        &&& self.coeffs().len() == self@.window_length
    }

    /// The exact weight form at index `i` of this window.
    pub open spec fn weight_spec(&self, i: nat) -> Weight {
        weight_at(self@.shape, self@.width, self@.offset, i)
    }
}


/// The exact weight form at index `i` of a window of the given shape and
/// span.
pub fn weight(shape: WindowShape, width: usize, offset: usize, i: usize) -> (r: Weight)
    ensures
        r == weight_at(shape, width as nat, offset as nat, i as nat),
{
    if i < offset || i - offset >= width {
        return Weight::Exact(Ratio { num: 0, den: 1 });
    }
    let k = (i - offset) as u128;
    let w = width as u128;
    match shape {
        WindowShape::Rectangular => Weight::Exact(Ratio { num: 1, den: 1 }),
        WindowShape::Triangular => {
            let d: u128 = if 2 * k >= w { 2 * k - w } else { w - 2 * k };
            Weight::Exact(Ratio { num: w - d, den: w })
        },
        WindowShape::Welch => {
            proof {
                assert(4 * (k * (w - k)) <= w * w) by (nonlinear_arith)
                    requires k < w;
                assert(w * w <= u64::MAX * u64::MAX) by (nonlinear_arith)
                    requires w <= u64::MAX;
                assert(4 * (k * (w - k)) == 4 * k * (w - k)) by (nonlinear_arith);
            }
            Weight::Exact(Ratio { num: 4 * (k * (w - k)), den: w * w })
        },
        _ => Weight::Phase(Ratio { num: k, den: w }),
    }
}

impl<T> Window<T> {
    /// Builds a window of the given shape, evaluating each position's weight
    /// form with `eval`.
    ///
    /// Fails with `InvalidParameter` when `width` or `window_length` is zero
    /// or the span `[offset, offset + width)` does not fit in `window_length`.
    pub fn make<F: Fn(Weight) -> T>(
        shape: WindowShape,
        width: usize,
        offset: usize,
        window_length: usize,
        eval: F,
    ) -> (r: Result<Window<T>, DspError>)
        requires
            forall|w: Weight| eval.requires((w,)),
        ensures
            r is Ok <==> valid_span(width as int, offset as int, window_length as int),
            r is Err ==> r == Err::<Window<T>, DspError>(DspError::InvalidParameter),
            r matches Ok(win) ==> {
                &&& win.wf()
                &&& win@ == (WindowParams {
                    shape,
                    width: width as nat,
                    offset: offset as nat,
                    window_length: window_length as nat,
                })
                &&& forall|i: int|
                    0 <= i < window_length ==> eval.ensures(
                        (weight_at(shape, width as nat, offset as nat, i as nat),),
                        #[trigger] win.coeffs()[i],
                    )
            },
    {
        if width == 0 || window_length == 0 || width > window_length || offset > window_length - width {
            return Err(DspError::InvalidParameter);
        }
        let mut coefficients: Vec<T> = Vec::new();
        let mut i: usize = 0;
        while i < window_length
            invariant
                i <= window_length,
                coefficients.len() == i,
                forall|w: Weight| eval.requires((w,)),
                forall|j: int|
                    0 <= j < i ==> eval.ensures(
                        (weight_at(shape, width as nat, offset as nat, j as nat),),
                        #[trigger] coefficients@[j],
                    ),
            decreases window_length - i,
        {
            let c = eval(weight(shape, width, offset, i));
            coefficients.push(c);
            i = i + 1;
        }
        Ok(Window { shape, width, offset, window_length, coefficients })
    }

    /// The number of coefficients.
    pub fn len(&self) -> (r: usize)
        ensures
            r == self@.window_length,
    {
        self.window_length
    }

    pub fn shape(&self) -> (r: WindowShape)
        ensures
            r == self@.shape,
    {
        self.shape
    }

    pub fn width(&self) -> (r: usize)
        ensures
            r == self@.width,
    {
        self.width
    }

    pub fn offset(&self) -> (r: usize)
        ensures
            r == self@.offset,
    {
        self.offset
    }

    /// The coefficient sequence, in index order.
    pub fn coefficients(&self) -> (r: &Vec<T>)
        ensures
            r@ == self.coeffs(),
    {
        &self.coefficients
    }

    /// Whether index `i` lies in the active span.
    pub fn in_span(&self, i: usize) -> (r: bool)
        ensures
            r == (self@.offset <= i < self@.offset + self@.width),
    {
        i >= self.offset && i - self.offset < self.width
    }

    /// The exact weight form at index `i`.
    pub fn weight_of(&self, i: usize) -> (r: Weight)
        ensures
            r == self.weight_spec(i as nat),
    {
        weight(self.shape, self.width, self.offset, i)
    }

    /// Writes `output[i] = combine(input[i], coefficient[i])` for every index.
    ///
    /// Fails with `LengthMismatch`, leaving `output` as it was, unless both
    /// buffers have exactly `window_length` entries.
    pub fn apply<F: Fn(&T, &T) -> T>(&self, input: &Vec<T>, output: &mut Vec<T>, combine: F) -> (r: Result<(), DspError>)
        requires
            self.wf(),
            forall|a: &T, b: &T| combine.requires((a, b)),
        ensures
            r is Ok <==> (input.len() == self@.window_length && old(output).len() == self@.window_length),
            r is Err ==> r == Err::<(), DspError>(DspError::LengthMismatch) && final(output)@ == old(output)@,
            r is Ok ==> final(output).len() == self@.window_length && forall|i: int|
                0 <= i < self@.window_length ==> combine.ensures(
                    (&input@[i], &self.coeffs()[i]),
                    #[trigger] final(output)@[i],
                ),
    {
        let n = self.window_length;
        if input.len() != n || output.len() != n {
            return Err(DspError::LengthMismatch);
        }
        let mut i: usize = 0;
        while i < n
            invariant
                self.wf(),
                n == self@.window_length,
                input.len() == n,
                output.len() == n,
                i <= n,
                forall|a: &T, b: &T| combine.requires((a, b)),
                forall|j: int|
                    0 <= j < i ==> combine.ensures((&input@[j], &self.coeffs()[j]), #[trigger] output@[j]),
            decreases n - i,
        {
            let v = combine(&input[i], &self.coefficients[i]);
            output.set(i, v);
            i = i + 1;
        }
        Ok(())
    }
}

/// Applying a window to an all-ones input gives back the window's own
/// coefficient sequence exactly, whenever combining `one` with a
/// coefficient yields that coefficient. `output` is what `apply` wrote.
pub proof fn lemma_apply_ones<T, F: Fn(&T, &T) -> T>(
    win: &Window<T>,
    input: Seq<T>,
    output: Seq<T>,
    one: T,
    combine: F,
)
    requires
        win.wf(),
        input.len() == win@.window_length,
        forall|i: int| 0 <= i < input.len() ==> input[i] == one,
        output.len() == win@.window_length,
        forall|i: int|
            0 <= i < output.len() ==> combine.ensures((&input[i], &win.coeffs()[i]), #[trigger] output[i]),
        forall|c: &T, r: T| combine.ensures((&one, c), r) ==> r == *c,
    ensures
        output == win.coeffs(),
{
    assert forall|i: int| 0 <= i < output.len() implies output[i] == win.coeffs()[i] by {
        assert(combine.ensures((&input[i], &win.coeffs()[i]), output[i]));
    }
    assert(output =~= win.coeffs());
}

/// Every shape is symmetric about the middle of its active span: positions
/// `k` and `width - k` of the span have the same exact weight, and for the
/// trigonometric shapes their phases `t` and `1 - t` add up to one, where
/// each of those shapes takes the same value.
pub proof fn lemma_weight_symmetric(shape: WindowShape, width: nat, offset: nat, k: nat)
    requires
        0 < k < width,
        width <= u64::MAX,
    ensures
        match (weight_at(shape, width, offset, offset + k), weight_at(shape, width, offset, offset + (width - k) as nat)) {
            (Weight::Exact(a), Weight::Exact(b)) => !is_trig(shape) && a == b,
            (Weight::Phase(a), Weight::Phase(b)) => is_trig(shape) && a.den == b.den && a.num + b.num == a.den,
            _ => false,
        },
{
    let j = (width - k) as nat;
    assert(4 * k * (width - k) == 4 * j * (width - j)) by (nonlinear_arith)
        requires j == width - k;
    assert(4 * k * (width - k) <= width * width) by (nonlinear_arith)
        requires k < width;
    assert(width * width <= u64::MAX * u64::MAX) by (nonlinear_arith)
        requires width <= u64::MAX;
}

} // verus!
