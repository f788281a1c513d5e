//! A histogram over a fixed number of bins, with the schemes that assign a
//! value to its bin and a bin to its value.

use vstd::prelude::*;
use crate::arith::{
    difference, from_int, index, is_unit, minus, models, narrow, narrowed, of_int, over, plus,
    plus_single, product, quotient, single_sum, sqrt, square_root, sum, times, truncate, Op,
};
use crate::ieee::{
    Double, Single, HALF, INFINITY, NAN, NEG_HALF, NEG_INFINITY, ONE, SINGLE_ONE, ZERO,
};

verus! {

/// How values are assigned to bins.
#[derive(Clone, Copy, Debug)]
pub enum BinScheme {
    /// Bins of one width, from `min` up to `max`.
    Constant { bins: usize, min: Double, max: Double, bucket_width: Double, max_bin_number: usize },
    /// Bins whose width grows by `scale` from each to the next, from zero up
    /// to `max`.
    Linear { bins: usize, max: Double, scale: Double },
}

impl BinScheme {
    /// How many bins the scheme has.
    pub open spec fn bins(self) -> usize {
        match self {
            BinScheme::Constant { bins, .. } => bins,
            BinScheme::Linear { bins, .. } => bins,
        }
    }

    /// A scheme has more than one bin, and the last bin of a constant scheme
    /// is numbered one less than their number.
    pub open spec fn wf(self) -> bool {
        match self {
            BinScheme::Constant { bins, max_bin_number, .. } => bins > 1 && max_bin_number == bins
                - 1,
            BinScheme::Linear { bins, .. } => bins > 1,
        }
    }

    /// The constant scheme of `bins` bins over `min` to `max`: each bin is as
    /// wide as the range divided by their number.
    pub open spec fn constant(
        m: spec_fn(Op) -> u64,
        bins: usize,
        min: Double,
        max: Double,
    ) -> BinScheme {
        BinScheme::Constant {
            bins,
            min,
            max,
            bucket_width: quotient(m, difference(m, max, min), from_int(m, bins as int)),
            max_bin_number: (bins - 1) as usize,
        }
    }

    /// The linear scheme of `bins` bins up to `max`: the scale is `max`
    /// divided by the sum of the numbers below `bins`.
    pub open spec fn linear(m: spec_fn(Op) -> u64, bins: usize, max: Double) -> BinScheme {
        BinScheme::Linear {
            bins,
            max,
            scale: quotient(m, max, from_int(m, bins * (bins - 1) / 2)),
        }
    }

    /// The bin that `x` falls into.
    ///
    /// Constant: the whole multiples of the width that `x` lies above `min`,
    /// held to the last bin. Linear: the last bin for a value above `max`,
    /// else the integer part of `-1/2 + 1/2 * sqrt(1 + 8 * x / scale)`.
    pub open spec fn bin_of(self, m: spec_fn(Op) -> u64, x: Double) -> usize {
        match self {
            BinScheme::Constant { min, bucket_width, max_bin_number, .. } => {
                let bin_number = index(m, quotient(m, difference(m, x, min), bucket_width));
                if bin_number <= max_bin_number {
                    bin_number
                } else {
                    max_bin_number
                }
            },
            BinScheme::Linear { bins, max, scale } => if x.gt(max) {
                (bins - 1) as usize
            } else {
                index(
                    m,
                    sum(
                        m,
                        Double { bits: NEG_HALF },
                        product(
                            m,
                            Double { bits: HALF },
                            square_root(
                                m,
                                sum(
                                    m,
                                    Double { bits: ONE },
                                    quotient(m, product(m, from_int(m, 8), x), scale),
                                ),
                            ),
                        ),
                    ),
                )
            },
        }
    }

    /// The value at which bin `b` starts, and infinity beyond the last bin.
    ///
    /// Constant: `min + b * bucket_width`. Linear: `scale * (b * (b + 1) / 2)`.
    pub open spec fn value_of(self, m: spec_fn(Op) -> u64, b: usize) -> Double {
        match self {
            BinScheme::Constant { max_bin_number, min, bucket_width, .. } => if b
                > max_bin_number {
                Double { bits: INFINITY }
            } else {
                sum(m, min, product(m, from_int(m, b as int), bucket_width))
            },
            BinScheme::Linear { bins, scale, .. } => if b > bins - 1 {
                Double { bits: INFINITY }
            } else {
                product(m, scale, from_int(m, b * (b + 1) / 2))
            },
        }
    }

    /// Whether the scheme is well formed.
    pub fn is_well_formed(&self) -> (ok: bool)
        ensures
            ok == self.wf(),
    {
        match *self {
            BinScheme::Constant { bins, max_bin_number, .. } => bins > 1 && max_bin_number == bins
                - 1,
            BinScheme::Linear { bins, .. } => bins > 1,
        }
    }

    /// The scheme of `bins` bins of one width over `min` to `max`.
    pub fn new_constant<F: Fn(Op) -> u64>(
        bins: usize,
        min: Double,
        max: Double,
        fpu: &F,
    ) -> (scheme: BinScheme)
        requires
            bins > 1,
            is_unit(*fpu),
        ensures
            forall|m: spec_fn(Op) -> u64| #[trigger]
                models(m, *fpu) ==> scheme == BinScheme::constant(m, bins, min, max),
            scheme.wf(),
    {
        BinScheme::Constant {
            bins,
            max,
            min,
            bucket_width: over(fpu, minus(fpu, max, min), of_int(fpu, bins as u128)),
            max_bin_number: bins - 1,
        }
    }

    /// The scheme of `bins` bins of growing width from zero to `max`.
    pub fn new_linear<F: Fn(Op) -> u64>(bins: usize, max: Double, fpu: &F) -> (scheme: BinScheme)
        requires
            bins > 1,
            is_unit(*fpu),
        ensures
            forall|m: spec_fn(Op) -> u64| #[trigger]
                models(m, *fpu) ==> scheme == BinScheme::linear(m, bins, max),
            scheme.wf(),
    {
        let wide = bins as u128;
        assert(wide * (wide - 1) <= u128::MAX) by (nonlinear_arith)
            requires
                1 < wide <= 0xffff_ffff_ffff_ffff,
        ;
        let scale = over(fpu, max, of_int(fpu, wide * (wide - 1) / 2));
        BinScheme::Linear { bins, max, scale }
    }

    /// The bin that `x` falls into. A linear scheme takes no negative value
    /// and no NaN.
    pub fn to_bin<F: Fn(Op) -> u64>(&self, x: Double, fpu: &F) -> (bin: usize)
        requires
            self.wf(),
            is_unit(*fpu),
            *self is Linear ==> x.ge(Double { bits: ZERO }),
        ensures
            forall|m: spec_fn(Op) -> u64| #[trigger] models(m, *fpu) ==> bin == self.bin_of(m, x),
            *self is Constant ==> bin < self.bins(),
            *self matches BinScheme::Linear { max, .. } && x.gt(max) ==> bin == self.bins() - 1,
    {
        match *self {
            BinScheme::Constant { min, bucket_width, max_bin_number, .. } => {
                let bin_number = truncate(fpu, over(fpu, minus(fpu, x, min), bucket_width));
                if bin_number <= max_bin_number {
                    bin_number
                } else {
                    max_bin_number
                }
            },
            BinScheme::Linear { bins, max, scale } => {
                if x.gt(max) {
                    bins - 1
                } else {
                    let inner = plus(
                        fpu,
                        Double { bits: ONE },
                        over(fpu, times(fpu, of_int(fpu, 8), x), scale),
                    );
                    truncate(
                        fpu,
                        plus(
                            fpu,
                            Double { bits: NEG_HALF },
                            times(fpu, Double { bits: HALF }, sqrt(fpu, inner)),
                        ),
                    )
                }
            },
        }
    }

    /// The value at which bin `b` starts, and infinity beyond the last bin.
    pub fn from_bin<F: Fn(Op) -> u64>(&self, b: usize, fpu: &F) -> (value: Double)
        requires
            self.wf(),
            is_unit(*fpu),
        ensures
            forall|m: spec_fn(Op) -> u64| #[trigger]
                models(m, *fpu) ==> value == self.value_of(m, b),
            b >= self.bins() ==> value == (Double { bits: INFINITY }),
    {
        match *self {
            BinScheme::Constant { max_bin_number, min, bucket_width, .. } => {
                if b > max_bin_number {
                    Double { bits: INFINITY }
                } else {
                    plus(fpu, min, times(fpu, of_int(fpu, b as u128), bucket_width))
                }
            },
            BinScheme::Linear { bins, scale, .. } => {
                if b > bins - 1 {
                    Double { bits: INFINITY }
                } else {
                    let wide = b as u128;
                    assert(wide * (wide + 1) <= u128::MAX) by (nonlinear_arith)
                        requires
                            0 <= wide < 0xffff_ffff_ffff_ffff,
                    ;
                    times(fpu, scale, of_int(fpu, (wide * (wide + 1)) / 2))
                }
            },
        }
    }
}

/// The counts of the first `n` bins, added up from zero in their order.
pub open spec fn running(m: spec_fn(Op) -> u64, hist: Seq<Single>, n: int) -> Single
    decreases n,
{
    if n <= 0 {
        Single { bits: 0 }
    } else {
        single_sum(m, running(m, hist, n - 1), hist[n - 1])
    }
}

/// The first bin, from `from` on, with which the running count exceeds
/// `min_count`; the number of bins where there is none.
pub open spec fn crossing(
    m: spec_fn(Op) -> u64,
    hist: Seq<Single>,
    min_count: Single,
    from: int,
) -> int
    decreases hist.len() - from,
{
    if from >= hist.len() {
        hist.len() as int
    } else if running(m, hist, from + 1).gt(min_count) {
        from
    } else {
        crossing(m, hist, min_count, from + 1)
    }
}

/// The state of a histogram.
pub struct HistogramView {
    pub bin_scheme: BinScheme,
    /// How many values each bin has taken.
    pub hist: Seq<Single>,
    /// How many values were recorded in all.
    pub count: Double,
}

impl HistogramView {
    /// The histogram has one count for each bin of a well-formed scheme.
    pub open spec fn wf(self) -> bool {
        self.bin_scheme.wf() && self.hist.len() == self.bin_scheme.bins()
    }

    /// A histogram of the scheme that has taken no value.
    pub open spec fn empty(bin_scheme: BinScheme) -> HistogramView {
        HistogramView {
            bin_scheme,
            hist: Seq::new(bin_scheme.bins() as nat, |i: int| Single { bits: 0 }),
            count: Double { bits: ZERO },
        }
    }

    /// The histogram after it has taken `value`: the bin of the value and the
    /// count in all have each grown by one. A value whose bin lies beyond the
    /// histogram is not taken.
    pub open spec fn recorded(self, m: spec_fn(Op) -> u64, value: Double) -> HistogramView {
        let bin = self.bin_scheme.bin_of(m, value);
        if bin < self.hist.len() {
            HistogramView {
                hist: self.hist.update(
                    bin as int,
                    single_sum(m, self.hist[bin as int], Single { bits: SINGLE_ONE }),
                ),
                count: sum(m, self.count, Double { bits: ONE }),
                ..self
            }
        } else {
            self
        }
    }

    /// The value below which the share `quantile` of the recorded values
    /// lies: a NaN for an empty histogram, an infinity for a share beyond
    /// 0 to 1, else the value of the first bin with which the running count
    /// exceeds that share of the count, and of the last bin where none does.
    pub open spec fn quantile(self, m: spec_fn(Op) -> u64, quantile: Double) -> Double {
        if self.count.magnitude() == 0 {
            Double { bits: NAN }
        } else if quantile.gt(Double { bits: ONE }) {
            Double { bits: INFINITY }
        } else if quantile.lt(Double { bits: ZERO }) {
            Double { bits: NEG_INFINITY }
        } else {
            let min_count = narrowed(m, product(m, quantile, self.count));
            let at = crossing(m, self.hist, min_count, 0);
            if at < self.hist.len() {
                self.bin_scheme.value_of(m, at as usize)
            } else {
                self.bin_scheme.value_of(m, (self.hist.len() - 1) as usize)
            }
        }
    }
}

#[derive(Debug, Clone)]
pub struct Histogram {
    bin_scheme: BinScheme,
    hist: Vec<Single>,
    count: Double,
}

impl View for Histogram {
    type V = HistogramView;

    closed spec fn view(&self) -> HistogramView {
        HistogramView { bin_scheme: self.bin_scheme, hist: self.hist@, count: self.count }
    }
}

impl Histogram {
    /// A histogram of the scheme that has taken no value.
    pub fn new(bin_scheme: BinScheme) -> (histogram: Self)
        requires
            bin_scheme.wf(),
        ensures
            histogram@ == HistogramView::empty(bin_scheme),
            histogram@.wf(),
    {
        let bins = match bin_scheme {
            BinScheme::Constant { bins, .. } => bins,
            BinScheme::Linear { bins, .. } => bins,
        };
        let mut hist: Vec<Single> = Vec::new();
        let mut i: usize = 0;
        while i < bins
            invariant
                i <= bins,
                hist.len() == i,
                forall|j: int| 0 <= j < i ==> hist@[j] == (Single { bits: 0 }),
            decreases bins - i,
        {
            hist.push(Single { bits: 0 });
            i = i + 1;
        }
        assert(hist@ =~= HistogramView::empty(bin_scheme).hist);
        Histogram { bin_scheme, count: Double { bits: ZERO }, hist }
    }

    /// The scheme that assigns the values to the bins.
    pub fn bin_scheme(&self) -> (scheme: BinScheme)
        ensures
            scheme == self@.bin_scheme,
    {
        self.bin_scheme
    }

    /// Takes one value into its bin.
    pub fn record<F: Fn(Op) -> u64>(&mut self, value: Double, fpu: &F)
        requires
            old(self)@.wf(),
            is_unit(*fpu),
            old(self)@.bin_scheme is Linear ==> value.ge(Double { bits: ZERO }),
        ensures
            forall|m: spec_fn(Op) -> u64| #[trigger]
                models(m, *fpu) ==> final(self)@ == old(self)@.recorded(m, value),
            final(self)@.wf(),
            final(self)@.bin_scheme == old(self)@.bin_scheme,
    {
        let bin = self.bin_scheme.to_bin(value, fpu);
        if bin < self.hist.len() {
            let grown = plus_single(fpu, self.hist[bin], Single { bits: SINGLE_ONE });
            self.hist[bin] = grown;
            self.count = plus(fpu, self.count, Double { bits: ONE });
        }
    }

    /// How many values each bin has taken.
    pub fn counts(&self) -> (counts: &[Single])
        ensures
            counts@ == self@.hist,
    {
        self.hist.as_slice()
    }

    /// Forgets every value that was taken.
    pub fn clear(&mut self)
        ensures
            final(self)@ == (HistogramView {
                hist: Seq::new(old(self)@.hist.len(), |i: int| Single { bits: 0 }),
                count: Double { bits: ZERO },
                ..old(self)@
            }),
            old(self)@.wf() ==> final(self)@.wf(),
    {
        let mut i: usize = 0;
        while i < self.hist.len()
            invariant
                i <= self.hist.len(),
                self.hist.len() == old(self).hist.len(),
                self.bin_scheme == old(self).bin_scheme,
                forall|j: int| 0 <= j < i ==> self.hist@[j] == (Single { bits: 0 }),
            decreases self.hist.len() - i,
        {
            self.hist[i] = Single { bits: 0 };
            i = i + 1;
        }
        self.count = Double { bits: ZERO };
        assert(self.hist@ =~= Seq::new(old(self)@.hist.len(), |i: int| Single { bits: 0 }));
    }

    /// The value below which the share `quantile` of the recorded values
    /// lies.
    pub fn value<F: Fn(Op) -> u64>(&self, quantile: Double, fpu: &F) -> (r: Double)
        requires
            self@.wf(),
            is_unit(*fpu),
        ensures
            forall|m: spec_fn(Op) -> u64| #[trigger]
                models(m, *fpu) ==> r == self@.quantile(m, quantile),
            self@.count.magnitude() == 0 ==> r == (Double { bits: NAN }),
            self@.count.magnitude() != 0 && quantile.gt(Double { bits: ONE }) ==> r == (Double {
                bits: INFINITY,
            }),
            self@.count.magnitude() != 0 && !quantile.gt(Double { bits: ONE }) && quantile.lt(
                Double { bits: ZERO },
            ) ==> r == (Double { bits: NEG_INFINITY }),
    {
        if self.count.is_zero() {
            return Double { bits: NAN };
        }
        if quantile.gt(Double { bits: ONE }) {
            return Double { bits: INFINITY };
        }
        if quantile.lt(Double { bits: ZERO }) {
            return Double { bits: NEG_INFINITY };
        }
        let mut sum = Single { bits: 0 };
        let min_count = narrow(fpu, times(fpu, quantile, self.count));
        let mut i: usize = 0;
        while i < self.hist.len()
            invariant
                i <= self.hist.len(),
                is_unit(*fpu),
                self@.wf(),
                self.count.magnitude() != 0,
                !quantile.gt(Double { bits: ONE }),
                !quantile.lt(Double { bits: ZERO }),
                forall|m: spec_fn(Op) -> u64| #[trigger]
                    models(m, *fpu) ==> {
                        &&& min_count == narrowed(m, product(m, quantile, self.count))
                        &&& sum == running(m, self.hist@, i as int)
                        &&& crossing(m, self.hist@, min_count, 0) == crossing(
                            m,
                            self.hist@,
                            min_count,
                            i as int,
                        )
                    },
            decreases self.hist.len() - i,
        {
            sum = plus_single(fpu, sum, self.hist[i]);
            assert forall|m: spec_fn(Op) -> u64| #[trigger] models(m, *fpu) implies sum == running(
                m,
                self.hist@,
                i + 1,
            ) && (sum.gt(min_count) ==> crossing(m, self.hist@, min_count, i as int) == i) && (
            !sum.gt(min_count) ==> crossing(m, self.hist@, min_count, i as int) == crossing(
                m,
                self.hist@,
                min_count,
                i + 1,
            )) by {}
            if sum.gt(min_count) {
                return self.bin_scheme.from_bin(i, fpu);
            }
            i = i + 1;
        }
        self.bin_scheme.from_bin(self.hist.len() - 1, fpu)
    }
}

} // verus!
