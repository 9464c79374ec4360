//! Wavelength grids and sampled spectra.
//!
//! Wavelengths and spectral values are binary64 bit patterns (see
//! [`crate::binary64`]). A spectrum's wavelengths are finite and strictly
//! increasing; its values are carried as given.
use vstd::prelude::*;
use crate::binary64::{
    eq, eq_bits, is_finite, is_finite_bits, is_nan, le, le_bits, lt, lt_bits, rank, POSITIVE_ZERO,
};
use crate::error::{LuxError, LuxResult};

verus! {

/// Every adjacent pair of `ws` is a pair of finite values in strictly
/// increasing order. A sequence of fewer than two items has no pair.
pub open spec fn strictly_increasing(ws: Seq<u64>) -> bool {
    forall|i: int|
        #![trigger ws[i]]
        0 <= i < ws.len() - 1 ==> is_finite(ws[i]) && is_finite(ws[i + 1]) && lt(ws[i], ws[i + 1])
}

/// In a strictly increasing sequence every earlier item is below every later
/// item, and both are finite.
pub proof fn lemma_increasing_ordered(ws: Seq<u64>, i: int, j: int)
    requires
        strictly_increasing(ws),
        0 <= i < j < ws.len(),
    ensures
        lt(ws[i], ws[j]),
        is_finite(ws[i]),
        is_finite(ws[j]),
    decreases j - i,
{
    assert(is_finite(ws[j - 1]));
    assert(is_finite(ws[j]));
    assert(lt(ws[j - 1], ws[j]));
    if i < j - 1 {
        lemma_increasing_ordered(ws, i, j - 1);
    }
}

/// Whether `ws` is strictly increasing (see [`strictly_increasing`]).
pub fn check_increasing(ws: &[u64]) -> (r: bool)
    ensures
        r == strictly_increasing(ws@),
{
    let n = ws.len();
    if n < 2 {
        return true;
    }
    let mut i: usize = 0;
    while i + 1 < n
        invariant
            n == ws@.len(),
            n >= 2,
            i + 1 <= n,
            forall|j: int|
                #![trigger ws@[j]]
                0 <= j < i ==> is_finite(ws@[j]) && is_finite(ws@[j + 1]) && lt(ws@[j], ws@[j + 1]),
        decreases n - i,
    {
        let a = ws[i];
        let b = ws[i + 1];
        if !(is_finite_bits(b) && is_finite_bits(a) && lt_bits(a, b)) {
            assert(!(is_finite(ws@[i as int]) && is_finite(ws@[i + 1]) && lt(ws@[i as int], ws@[i + 1])));
            return false;
        }
        i = i + 1;
    }
    true
}

/// The check on a sequence of wavelengths: empty, then not strictly increasing.
pub open spec fn wavelength_sequence_outcome(ws: Seq<u64>) -> Result<(), LuxError> {
    if ws.len() == 0 {
        Err(LuxError::EmptyInput)
    } else if !strictly_increasing(ws) {
        Err(LuxError::NonMonotonicWavelengths)
    } else {
        Ok(())
    }
}

/// Checks that a wavelength sequence is non-empty and strictly increasing.
pub fn validate_wavelengths(ws: &[u64]) -> (r: LuxResult<()>)
    ensures
        r == wavelength_sequence_outcome(ws@),
{
    if ws.len() == 0 {
        return Err(LuxError::EmptyInput);
    }
    if !check_increasing(ws) {
        return Err(LuxError::NonMonotonicWavelengths);
    }
    Ok(())
}

/// A wavelength range with a step: `start`, `end` and `step` as binary64.
#[derive(Debug, Clone, Copy, PartialEq)]
pub struct WavelengthGrid {
    pub start: u64,
    pub end: u64,
    pub step: u64,
}

/// A grid is valid when its bounds and step are finite, the step is positive,
/// and the end is not before the start.
pub open spec fn grid_valid(start: u64, end: u64, step: u64) -> bool {
    &&& is_finite(start)
    &&& is_finite(end)
    &&& is_finite(step)
    &&& !le(step, POSITIVE_ZERO)
    &&& !lt(end, start)
}

impl WavelengthGrid {
    /// A grid from its start, end and step, refused with `InvalidGridSpec`
    /// unless it is valid.
    pub fn new(start: u64, end: u64, step: u64) -> (r: LuxResult<WavelengthGrid>)
        ensures
            grid_valid(start, end, step) ==> r == Ok::<WavelengthGrid, LuxError>(
                WavelengthGrid { start, end, step },
            ),
            !grid_valid(start, end, step) ==> r == Err::<WavelengthGrid, LuxError>(
                LuxError::InvalidGridSpec,
            ),
    {
        if !is_finite_bits(start) || !is_finite_bits(end) || !is_finite_bits(step) || le_bits(
            step,
            POSITIVE_ZERO,
        ) || lt_bits(end, start) {
            return Err(LuxError::InvalidGridSpec);
        }
        Ok(WavelengthGrid { start, end, step })
    }
}

/// What `Spectrum::new` decides for the given wavelengths and values.
pub open spec fn spectrum_outcome(wavelengths: Seq<u64>, values: Seq<u64>) -> Result<(), LuxError> {
    if wavelengths.len() == 0 || values.len() == 0 {
        Err(LuxError::EmptyInput)
    } else if wavelengths.len() != values.len() {
        Err(
            LuxError::MismatchedLengths {
                wavelengths: wavelengths.len() as usize,
                values: values.len() as usize,
            },
        )
    } else if !strictly_increasing(wavelengths) {
        Err(LuxError::NonMonotonicWavelengths)
    } else {
        Ok(())
    }
}

/// Where a target wavelength falls among a spectrum's wavelengths, for
/// linear interpolation.
#[derive(Debug, Clone, Copy, PartialEq, Eq)]
pub enum Bracket {
    /// The target equals the wavelength at this index, whose value is taken.
    Exact(usize),
    /// The value is interpolated, or extrapolated, on the straight line through
    /// the points at this index and the next.
    Segment(usize),
}

/// The bracket of `target` among `ws` (at least two wavelengths): at or below
/// the first wavelength, the first segment; at or above the last, the last
/// segment; otherwise the index of an equal wavelength, or the segment whose
/// ends lie strictly on either side of the target.
pub open spec fn bracket_of(ws: Seq<u64>, target: u64, r: Bracket) -> bool {
    let last = ws.len() - 1;
    if le(target, ws[0]) {
        r == Bracket::Segment(0)
    } else if le(ws[last], target) {
        r == Bracket::Segment((last - 1) as usize)
    } else {
        match r {
            Bracket::Exact(i) => 0 < i < last && eq(ws[i as int], target),
            Bracket::Segment(i) => 0 <= i < last && lt(ws[i as int], target) && lt(
                target,
                ws[i + 1],
            ),
        }
    }
}

/// Among strictly increasing wavelengths a target has exactly one bracket.
pub proof fn lemma_bracket_unique(ws: Seq<u64>, target: u64, r1: Bracket, r2: Bracket)
    requires
        ws.len() >= 2,
        strictly_increasing(ws),
        bracket_of(ws, target, r1),
        bracket_of(ws, target, r2),
    ensures
        r1 == r2,
{
    let last = ws.len() - 1;
    if !le(target, ws[0]) && !le(ws[last], target) {
        match (r1, r2) {
            (Bracket::Exact(i), Bracket::Exact(j)) => {
                if i < j {
                    lemma_increasing_ordered(ws, i as int, j as int);
                } else if j < i {
                    lemma_increasing_ordered(ws, j as int, i as int);
                }
            },
            (Bracket::Exact(i), Bracket::Segment(j)) => {
                if i < j {
                    lemma_increasing_ordered(ws, i as int, j as int);
                } else if i > j + 1 {
                    lemma_increasing_ordered(ws, j + 1, i as int);
                }
            },
            (Bracket::Segment(i), Bracket::Exact(j)) => {
                if j < i {
                    lemma_increasing_ordered(ws, j as int, i as int);
                } else if j > i + 1 {
                    lemma_increasing_ordered(ws, i + 1, j as int);
                }
            },
            (Bracket::Segment(i), Bracket::Segment(j)) => {
                if i + 1 < j {
                    lemma_increasing_ordered(ws, i + 1, j as int);
                } else if j + 1 < i {
                    lemma_increasing_ordered(ws, j + 1, i as int);
                }
            },
        }
    }
}

/// A target equal to a wavelength strictly inside the sequence is found at
/// that wavelength's index.
pub proof fn lemma_bracket_at_sample(ws: Seq<u64>, i: usize)
    requires
        strictly_increasing(ws),
        0 < i < ws.len() - 1,
    ensures
        bracket_of(ws, ws[i as int], Bracket::Exact(i)),
{
    lemma_increasing_ordered(ws, 0, i as int);
    lemma_increasing_ordered(ws, i as int, ws.len() - 1);
}

/// A grid is accepted exactly when its start, end and step are finite, the
/// step is above zero and the end is not below the start.
pub proof fn law_grid_accepted(start: u64, end: u64, step: u64)
    ensures
        grid_valid(start, end, step) <==> (is_finite(start) && is_finite(end) && is_finite(step)
            && rank(step) > 0 && rank(start) <= rank(end)),
{
    assert(POSITIVE_ZERO & 0x7fff_ffff_ffff_ffffu64 == 0) by (bit_vector);
    assert((POSITIVE_ZERO >> 52u64) & 0x7ffu64 == 0) by (bit_vector);
    assert((POSITIVE_ZERO >> 63u64) == 0) by (bit_vector);
    assert(rank(POSITIVE_ZERO) == 0);
}

/// A spectrum is accepted exactly when it has wavelengths, as many values as
/// wavelengths, and every adjacent pair of wavelengths is finite and strictly
/// increasing; the errors come in the order empty, mismatched, not increasing.
pub proof fn law_spectrum_accepted(w: Seq<u64>, v: Seq<u64>)
    ensures
        spectrum_outcome(w, v) is Ok <==> (w.len() > 0 && w.len() == v.len() && strictly_increasing(w)),
        w.len() == 0 || v.len() == 0 ==> spectrum_outcome(w, v) == Err::<(), LuxError>(
            LuxError::EmptyInput,
        ),
        w.len() > 0 && v.len() > 0 && w.len() != v.len() ==> spectrum_outcome(w, v) == Err::<
            (),
            LuxError,
        >(LuxError::MismatchedLengths { wavelengths: w.len() as usize, values: v.len() as usize }),
        w.len() > 0 && w.len() == v.len() && !strictly_increasing(w) ==> spectrum_outcome(w, v) == Err::<(), LuxError>(LuxError::NonMonotonicWavelengths),
{
}

/// A sequence is strictly increasing exactly when every earlier item is
/// finite and below every later finite item, by the binary64 order.
pub proof fn law_increasing_meaning(w: Seq<u64>)
    ensures
        strictly_increasing(w) <==> forall|i: int, j: int|
            0 <= i < j < w.len() ==> is_finite(#[trigger] w[i]) && is_finite(#[trigger] w[j])
                && rank(w[i]) < rank(w[j]),
{
    if strictly_increasing(w) {
        assert forall|i: int, j: int| 0 <= i < j < w.len() implies is_finite(#[trigger] w[i])
            && is_finite(#[trigger] w[j]) && rank(w[i]) < rank(w[j]) by {
            lemma_increasing_ordered(w, i, j);
        }
    }
    if forall|i: int, j: int|
        0 <= i < j < w.len() ==> is_finite(#[trigger] w[i]) && is_finite(#[trigger] w[j]) && rank(
            w[i],
        ) < rank(w[j]) {
        assert forall|i: int| #![trigger w[i]] 0 <= i < w.len() - 1 implies is_finite(w[i])
            && is_finite(w[i + 1]) && lt(w[i], w[i + 1]) by {
            let a = w[i];
            let b = w[i + 1];
            assert(is_finite(a));
            assert(is_finite(b));
            assert(rank(a) < rank(b));
            assert(!is_nan(a));
        }
    }
}

/// A wavelength sequence is accepted exactly when it is non-empty and every
/// adjacent pair is finite and strictly increasing.
pub proof fn law_wavelength_sequence_accepted(w: Seq<u64>)
    ensures
        wavelength_sequence_outcome(w) is Ok <==> (w.len() > 0 && strictly_increasing(w)),
{
}

/// Where `locate` puts a target among strictly increasing wavelengths: at or
/// below the first, the first segment; at or above the last, the last
/// segment; otherwise an index whose wavelength equals the target, or a
/// segment whose ends are strictly below and above it.
pub proof fn law_bracket_positions(ws: Seq<u64>, target: u64, r: Bracket)
    requires
        ws.len() >= 2,
        strictly_increasing(ws),
        !is_nan(target),
        bracket_of(ws, target, r),
    ensures
        le(target, ws[0]) ==> r == Bracket::Segment(0),
        !le(target, ws[0]) && le(ws[ws.len() - 1], target) ==> r == Bracket::Segment(
            (ws.len() - 2) as usize,
        ),
        lt(ws[0], target) && lt(target, ws[ws.len() - 1]) ==> match r {
            Bracket::Exact(i) => 0 < i < ws.len() - 1 && rank(ws[i as int]) == rank(target),
            Bracket::Segment(i) => i + 1 < ws.len() && rank(ws[i as int]) < rank(target) < rank(
                ws[i + 1],
            ),
        },
{
    lemma_increasing_ordered(ws, 0, ws.len() - 1);
}

/// A spectrum sampled at finite, strictly increasing wavelengths, with one
/// value per wavelength.
#[derive(Debug, PartialEq)]
pub struct Spectrum {
    wavelengths: Vec<u64>,
    values: Vec<u64>,
}

impl View for Spectrum {
    /// The wavelengths and the values.
    type V = (Seq<u64>, Seq<u64>);

    closed spec fn view(&self) -> (Seq<u64>, Seq<u64>) {
        (self.wavelengths@, self.values@)
    }
}

impl Spectrum {
    #[verifier::type_invariant]
    spec fn well_formed(self) -> bool {
        spectrum_outcome(self.wavelengths@, self.values@) is Ok
    }

    /// A spectrum from its wavelengths and values: `EmptyInput` when either is
    /// empty, `MismatchedLengths` when their lengths differ, and
    /// `NonMonotonicWavelengths` unless the wavelengths are finite and
    /// strictly increasing. On success it holds exactly what it was given.
    pub fn new(wavelengths: Vec<u64>, values: Vec<u64>) -> (r: LuxResult<Spectrum>)
        ensures
            match r {
                Ok(s) => spectrum_outcome(wavelengths@, values@) is Ok && s@ == (
                    wavelengths@,
                    values@,
                ),
                Err(e) => spectrum_outcome(wavelengths@, values@) == Err::<(), LuxError>(e),
            },
    {
        if wavelengths.len() == 0 || values.len() == 0 {
            return Err(LuxError::EmptyInput);
        }
        if wavelengths.len() != values.len() {
            return Err(
                LuxError::MismatchedLengths {
                    wavelengths: wavelengths.len(),
                    values: values.len(),
                },
            );
        }
        if !check_increasing(wavelengths.as_slice()) {
            return Err(LuxError::NonMonotonicWavelengths);
        }
        Ok(Spectrum { wavelengths, values })
    }

    /// The bracket of `target` among this spectrum's wavelengths (see
    /// [`bracket_of`]); the wavelengths are searched by bisection.
    pub fn locate(&self, target: u64) -> (r: Bracket)
        requires
            self@.0.len() >= 2,
            !is_nan(target),
        ensures
            bracket_of(self@.0, target, r),
    {
        proof {
            use_type_invariant(self);
        }
        let ws = self.wavelengths.as_slice();
        let n = ws.len();
        proof {
            lemma_increasing_ordered(ws@, 0, n - 1);
        }
        if le_bits(target, ws[0]) {
            return Bracket::Segment(0);
        }
        if le_bits(ws[n - 1], target) {
            return Bracket::Segment(n - 2);
        }
        // The first index whose wavelength is not below the target.
        let mut lo: usize = 0;
        let mut hi: usize = n;
        while lo < hi
            invariant
                0 <= lo <= hi <= n,
                n == ws@.len(),
                strictly_increasing(ws@),
                !is_nan(target),
                forall|j: int| 0 <= j < lo ==> #[trigger] lt(ws@[j], target),
                forall|j: int| hi <= j < n ==> !#[trigger] lt(ws@[j], target),
            decreases hi - lo,
        {
            let mid = lo + (hi - lo) / 2;
            if lt_bits(ws[mid], target) {
                assert forall|j: int| 0 <= j < mid + 1 implies #[trigger] lt(ws@[j], target) by {
                    if j < mid {
                        lemma_increasing_ordered(ws@, j, mid as int);
                    }
                }
                lo = mid + 1;
            } else {
                assert forall|j: int| mid <= j < n implies !#[trigger] lt(ws@[j], target) by {
                    if mid < j {
                        lemma_increasing_ordered(ws@, mid as int, j);
                    }
                }
                hi = mid;
            }
        }
        let idx = lo;
        assert(lt(ws@[0], target));
        assert(!lt(ws@[n - 1], target));
        assert(0 < idx < n);
        proof {
            lemma_increasing_ordered(ws@, 0, idx as int);
        }
        if eq_bits(ws[idx], target) {
            Bracket::Exact(idx)
        } else {
            assert(!lt(ws@[idx as int], target));
            assert(is_finite(ws@[idx as int]));
            assert(!is_nan(ws@[idx as int]));
            assert(rank(target) < rank(ws@[idx as int]));
            Bracket::Segment(idx - 1)
        }
    }

    /// The wavelengths.
    pub fn wavelengths(&self) -> (r: &[u64])
        ensures
            r@ == self@.0,
            spectrum_outcome(self@.0, self@.1) is Ok,
    {
        proof {
            use_type_invariant(self);
        }
        self.wavelengths.as_slice()
    }

    /// The values, one per wavelength.
    pub fn values(&self) -> (r: &[u64])
        ensures
            r@ == self@.1,
    {
        self.values.as_slice()
    }
}

impl Clone for Spectrum {
    /// A copy of this spectrum.
    fn clone(&self) -> (r: Spectrum)
        ensures
            r@ == self@,
    {
        proof {
            use_type_invariant(self);
        }
        Spectrum {
            wavelengths: vstd::slice::slice_to_vec(self.wavelengths.as_slice()),
            values: vstd::slice::slice_to_vec(self.values.as_slice()),
        }
    }
}

/// The index of the first of `spectra`, in order, whose length is not `n`.
pub open spec fn first_length_mismatch(spectra: Seq<Seq<u64>>, n: nat) -> Option<int>
    decreases spectra.len(),
{
    if spectra.len() == 0 {
        None
    } else {
        match first_length_mismatch(spectra.drop_last(), n) {
            Some(i) => Some(i),
            None => if spectra.last().len() != n {
                Some(spectra.len() - 1)
            } else {
                None
            },
        }
    }
}

/// A mismatch found is a valid index whose spectrum has another length, and
/// every earlier spectrum has length `n`; none found means all have length `n`.
pub proof fn lemma_first_length_mismatch(spectra: Seq<Seq<u64>>, n: nat)
    ensures
        match first_length_mismatch(spectra, n) {
            Some(i) => 0 <= i < spectra.len() && spectra[i].len() != n && forall|j: int|
                0 <= j < i ==> #[trigger] spectra[j].len() == n,
            None => forall|j: int| 0 <= j < spectra.len() ==> #[trigger] spectra[j].len() == n,
        },
    decreases spectra.len(),
{
    if spectra.len() > 0 {
        lemma_first_length_mismatch(spectra.drop_last(), n);
        assert forall|j: int| 0 <= j < spectra.len() - 1 implies #[trigger] spectra[j]
            == spectra.drop_last()[j] by {}
    }
}

/// What `SpectralMatrix::new` decides for the given wavelengths and spectra.
pub open spec fn matrix_outcome(wavelengths: Seq<u64>, spectra: Seq<Seq<u64>>) -> Result<
    (),
    LuxError,
> {
    if wavelengths.len() == 0 || spectra.len() == 0 {
        Err(LuxError::EmptyInput)
    } else if first_length_mismatch(spectra, wavelengths.len()) is Some {
        Err(
            LuxError::MismatchedLengths {
                wavelengths: wavelengths.len() as usize,
                values: spectra[first_length_mismatch(spectra, wavelengths.len())->0].len() as usize,
            },
        )
    } else if !strictly_increasing(wavelengths) {
        Err(LuxError::NonMonotonicWavelengths)
    } else {
        Ok(())
    }
}

/// Spectra over common wavelengths are accepted exactly when there are
/// wavelengths and spectra, every spectrum has one value per wavelength, and
/// every adjacent pair of wavelengths is finite and strictly increasing.
pub proof fn law_matrix_accepted(w: Seq<u64>, spectra: Seq<Seq<u64>>)
    ensures
        matrix_outcome(w, spectra) is Ok <==> (w.len() > 0 && spectra.len() > 0 && (forall|k: int|
            0 <= k < spectra.len() ==> #[trigger] spectra[k].len() == w.len()) && strictly_increasing(w)),
        w.len() == 0 || spectra.len() == 0 ==> matrix_outcome(w, spectra) == Err::<(), LuxError>(
            LuxError::EmptyInput,
        ),
        forall|k: int|
            w.len() > 0 && 0 <= k < spectra.len() && #[trigger] spectra[k].len() != w.len() && (
            forall|j: int| 0 <= j < k ==> spectra[j].len() == w.len()) ==> matrix_outcome(w, spectra)
                == Err::<(), LuxError>(
                LuxError::MismatchedLengths {
                    wavelengths: w.len() as usize,
                    values: spectra[k].len() as usize,
                },
            ),
{
    lemma_first_length_mismatch(spectra, w.len());
    assert forall|k: int|
        w.len() > 0 && 0 <= k < spectra.len() && #[trigger] spectra[k].len() != w.len() && (forall|
            j: int,
        | 0 <= j < k ==> spectra[j].len() == w.len()) implies matrix_outcome(w, spectra) == Err::<
        (),
        LuxError,
    >(LuxError::MismatchedLengths { wavelengths: w.len() as usize, values: spectra[k].len() as usize })
        by {
        let f = first_length_mismatch(spectra, w.len());
        assert(f is Some);
        let m = f->0;
        if m < k {
            assert(spectra[m].len() == w.len());
        } else if m > k {
            assert(spectra[k].len() == w.len());
        }
    }
}

/// Several spectra sampled at the same finite, strictly increasing
/// wavelengths, one value per wavelength in each.
#[derive(Debug, PartialEq)]
pub struct SpectralMatrix {
    wavelengths: Vec<u64>,
    spectra: Vec<Vec<u64>>,
}

impl View for SpectralMatrix {
    /// The wavelengths and the spectra's values.
    type V = (Seq<u64>, Seq<Seq<u64>>);

    closed spec fn view(&self) -> (Seq<u64>, Seq<Seq<u64>>) {
        (self.wavelengths@, self.spectra.deep_view())
    }
}

impl SpectralMatrix {
    #[verifier::type_invariant]
    spec fn well_formed(self) -> bool {
        matrix_outcome(self.wavelengths@, self.spectra.deep_view()) is Ok
    }

    /// Spectra over common wavelengths: `EmptyInput` when there are no
    /// wavelengths or no spectra, `MismatchedLengths` (with the length of the
    /// first spectrum that differs) when a spectrum's length is not the number
    /// of wavelengths, and `NonMonotonicWavelengths` unless the wavelengths are
    /// finite and strictly increasing. On success it holds exactly what it was
    /// given.
    pub fn new(wavelengths: Vec<u64>, spectra: Vec<Vec<u64>>) -> (r: LuxResult<SpectralMatrix>)
        ensures
            match r {
                Ok(m) => matrix_outcome(wavelengths@, spectra.deep_view()) is Ok && m@ == (
                    wavelengths@,
                    spectra.deep_view(),
                ),
                Err(e) => matrix_outcome(wavelengths@, spectra.deep_view()) == Err::<(), LuxError>(
                    e,
                ),
            },
    {
        let n = wavelengths.len();
        if n == 0 || spectra.len() == 0 {
            return Err(LuxError::EmptyInput);
        }
        let ghost all = spectra.deep_view();
        let mut i: usize = 0;
        while i < spectra.len()
            invariant
                0 <= i <= spectra.len(),
                n == wavelengths@.len(),
                n > 0,
                all == spectra.deep_view(),
                first_length_mismatch(all.take(i as int), n as nat) is None,
            decreases spectra.len() - i,
        {
            assert(all.take(i + 1).drop_last() =~= all.take(i as int));
            if spectra[i].len() != n {
                assert(first_length_mismatch(all.take(i + 1), n as nat) == Some(i as int));
                proof {
                    lemma_first_length_mismatch(all, n as nat);
                    lemma_first_length_mismatch(all.take(i + 1), n as nat);
                    lemma_prefix_mismatch(all, n as nat, i as int);
                    assert(all[i as int] =~= spectra@[i as int]@);
                }
                return Err(
                    LuxError::MismatchedLengths { wavelengths: n, values: spectra[i].len() },
                );
            }
            i = i + 1;
        }
        assert(all.take(i as int) =~= all);
        if !check_increasing(wavelengths.as_slice()) {
            return Err(LuxError::NonMonotonicWavelengths);
        }
        Ok(SpectralMatrix { wavelengths, spectra })
    }

    /// The common wavelengths.
    pub fn wavelengths(&self) -> (r: &[u64])
        ensures
            r@ == self@.0,
            matrix_outcome(self@.0, self@.1) is Ok,
    {
        proof {
            use_type_invariant(self);
        }
        self.wavelengths.as_slice()
    }

    /// The spectra, each holding one value per wavelength.
    pub fn spectra(&self) -> (r: &[Vec<u64>])
        ensures
            r.deep_view() == self@.1,
    {
        self.spectra.as_slice()
    }

    /// The number of wavelengths.
    pub fn wavelength_count(&self) -> (r: usize)
        ensures
            r == self@.0.len(),
    {
        self.wavelengths.len()
    }

    /// The number of spectra.
    pub fn spectrum_count(&self) -> (r: usize)
        ensures
            r == self@.1.len(),
    {
        self.spectra.len()
    }
}

impl Clone for SpectralMatrix {
    /// A copy of this matrix.
    fn clone(&self) -> (r: SpectralMatrix)
        ensures
            r@ == self@,
    {
        proof {
            use_type_invariant(self);
        }
        let mut spectra: Vec<Vec<u64>> = Vec::new();
        let mut i: usize = 0;
        while i < self.spectra.len()
            invariant
                0 <= i <= self.spectra@.len(),
                spectra@.len() == i,
                forall|j: int| 0 <= j < i ==> #[trigger] spectra@[j]@ == self.spectra@[j]@,
            decreases self.spectra@.len() - i,
        {
            spectra.push(vstd::slice::slice_to_vec(self.spectra[i].as_slice()));
            i = i + 1;
        }
        assert(spectra.deep_view() =~= self.spectra.deep_view()) by {
            assert forall|j: int| 0 <= j < spectra@.len() implies #[trigger] spectra.deep_view()[j]
                == self.spectra.deep_view()[j] by {
                assert(spectra.deep_view()[j] =~= spectra@[j]@);
                assert(self.spectra.deep_view()[j] =~= self.spectra@[j]@);
            }
        }
        SpectralMatrix {
            wavelengths: vstd::slice::slice_to_vec(self.wavelengths.as_slice()),
            spectra,
        }
    }
}

/// A mismatch in a prefix that holds the whole scan is the first mismatch of
/// the whole sequence.
proof fn lemma_prefix_mismatch(all: Seq<Seq<u64>>, n: nat, i: int)
    requires
        0 <= i < all.len(),
        first_length_mismatch(all.take(i + 1), n) == Some(i),
    ensures
        first_length_mismatch(all, n) == Some(i),
    decreases all.len(),
{
    if all.len() > i + 1 {
        assert(all.drop_last().take(i + 1) =~= all.take(i + 1));
        lemma_prefix_mismatch(all.drop_last(), n, i);
    } else {
        assert(all.take(i + 1) =~= all);
    }
}

} // verus!
