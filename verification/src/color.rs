//! Standard observers, their colour-matching functions, the XYZ-to-LMS
//! matrices, and the checks on the inputs of the CIE mesopic adaptation.
use vstd::prelude::*;
use crate::binary64::{
    binary64_of_u32, clamp_bits, clamped, denotes_nat, is_finite, is_finite_bits, le, le_bits, lemma_denotes_nat_ordered,
    lemma_denotes_nat_unique, lt, lt_bits, sign_set, POSITIVE_ZERO,
};
use crate::error::{LuxError, LuxResult};
use crate::observer_data::{
    CIE1931_2_X_BAR, CIE1931_2_Y_BAR, CIE1931_2_Z_BAR, CIE1964_10_X_BAR, CIE1964_10_Y_BAR,
    CIE1964_10_Z_BAR,
};
use crate::spectrum::{
    first_length_mismatch, matrix_outcome, spectrum_outcome, strictly_increasing, SpectralMatrix,
    Spectrum,
};

verus! {

/// The CIE standard colorimetric observers.
#[derive(Debug, Clone, Copy, PartialEq, Eq)]
pub enum Observer {
    /// The CIE 1931 2-degree observer.
    Cie1931_2,
    /// The CIE 1964 10-degree observer.
    Cie1964_10,
}

/// A tabulated observer: colour-matching functions sampled at common
/// wavelengths, and the constant that scales y-bar integrals to photometric
/// units. All values are binary64 bit patterns.
#[derive(Debug, Clone, PartialEq)]
pub struct TristimulusObserver {
    pub wavelengths: Vec<u64>,
    pub x_bar: Vec<u64>,
    pub y_bar: Vec<u64>,
    pub z_bar: Vec<u64>,
    pub k: u64,
}

/// A 3x3 matrix of binary64 values, by rows.
pub type Matrix3 = [[u64; 3]; 3];

/// 683.002, the photometric constant of the 1931 observer's table.
pub const K_CIE1931_2: u64 = 0x4085_5804_1893_74bc;

/// 683.599, the photometric constant of the 1964 observer's table.
pub const K_CIE1964_10: u64 = 0x4085_5cca_c083_126f;

/// The XYZ-to-LMS matrix of the 1931 observer:
/// `[[0.38971, 0.68898, -0.07868], [-0.22981, 1.1834, 0.04641], [0, 0, 1]]`.
pub const XYZ_TO_LMS_CIE1931_2: Matrix3 = [
    [0x3fd8_f102_363b_2570, 0x3fe6_0c1f_c8f3_2379, 0xbfb4_245f_5ad9_6a6a],
    [0xbfcd_6a6a_0125_99ed, 0x3ff2_ef34_d6a1_61e5, 0x3fa7_c30d_306a_2b17],
    [0x0000_0000_0000_0000, 0x0000_0000_0000_0000, 0x3ff0_0000_0000_0000],
];

/// The XYZ-to-LMS matrix of the 1964 observer:
/// `[[0.21701044969138816, 0.8357336701175844, -0.043510597212556935],
///   [-0.4299795075736198, 1.20388945646298, 0.08621089532921128],
///   [0, 0, 0.465792338736113]]`.
pub const XYZ_TO_LMS_CIE1964_10: Matrix3 = [
    [0x3fcb_c6ff_9828_4a3c, 0x3fea_be54_89aa_4644, 0xbfa6_4705_601d_5e65],
    [0xbfdb_84c8_c4be_a5fe, 0x3ff3_4321_9738_1f9a, 0x3fb6_11ea_cfff_728c],
    [0x0000_0000_0000_0000, 0x0000_0000_0000_0000, 0x3fdd_cf8a_ab66_5559],
];

/// The number of samples in a standard observer's table.
pub const STANDARD_SAMPLE_COUNT: usize = 471;

/// The standard tables' wavelengths: 360 nm to 830 nm in steps of 1 nm, each
/// the exact binary64 encoding of its integer value.
pub open spec fn standard_grid(ws: Seq<u64>) -> bool {
    &&& ws.len() == 471
    &&& forall|i: int| 0 <= i < 471 ==> denotes_nat(#[trigger] ws[i], (360 + i) as nat)
}

/// The standard grid is strictly increasing.
pub proof fn lemma_standard_grid_increasing(ws: Seq<u64>)
    requires
        standard_grid(ws),
    ensures
        strictly_increasing(ws),
{
    assert forall|i: int| #![trigger ws[i]] 0 <= i < ws.len() - 1 implies is_finite(ws[i])
        && is_finite(ws[i + 1]) && lt(ws[i], ws[i + 1]) by {
        assert(denotes_nat(ws[i], (360 + i) as nat));
        assert(denotes_nat(ws[i + 1], (360 + (i + 1)) as nat));
        lemma_denotes_nat_ordered(ws[i], (360 + i) as nat, ws[i + 1], (360 + (i + 1)) as nat);
    }
}

/// All standard tables have the same wavelengths: the grid is one sequence.
pub proof fn lemma_standard_grid_unique(a: Seq<u64>, b: Seq<u64>)
    requires
        standard_grid(a),
        standard_grid(b),
    ensures
        a == b,
{
    assert forall|i: int| 0 <= i < a.len() implies #[trigger] a[i] == b[i] by {
        lemma_denotes_nat_unique(a[i], b[i], (360 + i) as nat);
    }
    assert(a =~= b);
}

/// The wavelengths of the standard tables.
fn standard_wavelengths() -> (r: Vec<u64>)
    ensures
        standard_grid(r@),
{
    let mut ws: Vec<u64> = Vec::with_capacity(STANDARD_SAMPLE_COUNT);
    let mut nm: u32 = 360;
    while nm <= 830
        invariant
            360 <= nm <= 831,
            ws@.len() == nm - 360,
            forall|i: int| 0 <= i < ws@.len() ==> denotes_nat(#[trigger] ws@[i], (360 + i) as nat),
        decreases 831 - nm,
    {
        ws.push(binary64_of_u32(nm));
        nm = nm + 1;
    }
    ws
}

/// x-bar of an observer's standard table.
pub open spec fn standard_x_bar(observer: Observer) -> Seq<u64> {
    match observer {
        Observer::Cie1931_2 => CIE1931_2_X_BAR@,
        Observer::Cie1964_10 => CIE1964_10_X_BAR@,
    }
}

/// y-bar of an observer's standard table.
pub open spec fn standard_y_bar(observer: Observer) -> Seq<u64> {
    match observer {
        Observer::Cie1931_2 => CIE1931_2_Y_BAR@,
        Observer::Cie1964_10 => CIE1964_10_Y_BAR@,
    }
}

/// z-bar of an observer's standard table.
pub open spec fn standard_z_bar(observer: Observer) -> Seq<u64> {
    match observer {
        Observer::Cie1931_2 => CIE1931_2_Z_BAR@,
        Observer::Cie1964_10 => CIE1964_10_Z_BAR@,
    }
}

/// The photometric constant of an observer's standard table.
pub open spec fn standard_k(observer: Observer) -> u64 {
    match observer {
        Observer::Cie1931_2 => K_CIE1931_2,
        Observer::Cie1964_10 => K_CIE1964_10,
    }
}

/// The XYZ-to-LMS matrix of an observer.
pub open spec fn standard_xyz_to_lms(observer: Observer) -> Matrix3 {
    match observer {
        Observer::Cie1931_2 => XYZ_TO_LMS_CIE1931_2,
        Observer::Cie1964_10 => XYZ_TO_LMS_CIE1964_10,
    }
}

/// Each observer's standard curves are its own tables, in the order x-bar,
/// y-bar, z-bar; its constant and its XYZ-to-LMS matrix are its own, the
/// matrix given row by row.
pub proof fn law_standard_data_is_the_observer_tables()
    ensures
        standard_x_bar(Observer::Cie1931_2) == CIE1931_2_X_BAR@,
        standard_y_bar(Observer::Cie1931_2) == CIE1931_2_Y_BAR@,
        standard_z_bar(Observer::Cie1931_2) == CIE1931_2_Z_BAR@,
        standard_x_bar(Observer::Cie1964_10) == CIE1964_10_X_BAR@,
        standard_y_bar(Observer::Cie1964_10) == CIE1964_10_Y_BAR@,
        standard_z_bar(Observer::Cie1964_10) == CIE1964_10_Z_BAR@,
        standard_k(Observer::Cie1931_2) == 0x4085_5804_1893_74bcu64,
        standard_k(Observer::Cie1964_10) == 0x4085_5cca_c083_126fu64,
        standard_xyz_to_lms(Observer::Cie1931_2)[0] == [
            0x3fd8_f102_363b_2570u64,
            0x3fe6_0c1f_c8f3_2379u64,
            0xbfb4_245f_5ad9_6a6au64,
        ],
        standard_xyz_to_lms(Observer::Cie1931_2)[1] == [
            0xbfcd_6a6a_0125_99edu64,
            0x3ff2_ef34_d6a1_61e5u64,
            0x3fa7_c30d_306a_2b17u64,
        ],
        standard_xyz_to_lms(Observer::Cie1931_2)[2] == [0u64, 0u64, 0x3ff0_0000_0000_0000u64],
        standard_xyz_to_lms(Observer::Cie1964_10)[0] == [
            0x3fcb_c6ff_9828_4a3cu64,
            0x3fea_be54_89aa_4644u64,
            0xbfa6_4705_601d_5e65u64,
        ],
        standard_xyz_to_lms(Observer::Cie1964_10)[1] == [
            0xbfdb_84c8_c4be_a5feu64,
            0x3ff3_4321_9738_1f9au64,
            0x3fb6_11ea_cfff_728cu64,
        ],
        standard_xyz_to_lms(Observer::Cie1964_10)[2] == [
            0u64,
            0u64,
            0x3fdd_cf8a_ab66_5559u64,
        ],
{
}

/// At 555 nm (sample 195) the 1931 tables hold x-bar 0.5183438, y-bar 1 and
/// z-bar 0.005664359.
pub proof fn law_cie1931_samples_at_555_nm()
    ensures
        CIE1931_2_X_BAR@[195] == 0x3fe0_9645_bca2_b31eu64,
        CIE1931_2_Y_BAR@[195] == 0x3ff0_0000_0000_0000u64,
        CIE1931_2_Z_BAR@[195] == 0x3f77_3382_ca86_5cb7u64,
{
}

/// `o` is the standard table of `observer`.
pub open spec fn is_standard_table(o: TristimulusObserver, observer: Observer) -> bool {
    &&& standard_grid(o.wavelengths@)
    &&& o.x_bar@ == standard_x_bar(observer)
    &&& o.y_bar@ == standard_y_bar(observer)
    &&& o.z_bar@ == standard_z_bar(observer)
    &&& o.k == standard_k(observer)
}

impl Observer {
    /// The observer's standard table, sampled at 1 nm from 360 nm to 830 nm.
    pub fn standard(self) -> (r: LuxResult<TristimulusObserver>)
        ensures
            r matches Ok(o) && is_standard_table(o, self),
            self == Observer::Cie1931_2 ==> (r matches Ok(o) && o.x_bar@ == CIE1931_2_X_BAR@
                && o.y_bar@ == CIE1931_2_Y_BAR@ && o.z_bar@ == CIE1931_2_Z_BAR@ && o.k
                == K_CIE1931_2),
            self == Observer::Cie1964_10 ==> (r matches Ok(o) && o.x_bar@ == CIE1964_10_X_BAR@
                && o.y_bar@ == CIE1964_10_Y_BAR@ && o.z_bar@ == CIE1964_10_Z_BAR@ && o.k
                == K_CIE1964_10),
    {
        let wavelengths = standard_wavelengths();
        let observer = match self {
            Observer::Cie1931_2 => TristimulusObserver {
                wavelengths,
                x_bar: vstd::slice::slice_to_vec(CIE1931_2_X_BAR.as_slice()),
                y_bar: vstd::slice::slice_to_vec(CIE1931_2_Y_BAR.as_slice()),
                z_bar: vstd::slice::slice_to_vec(CIE1931_2_Z_BAR.as_slice()),
                k: K_CIE1931_2,
            },
            Observer::Cie1964_10 => TristimulusObserver {
                wavelengths,
                x_bar: vstd::slice::slice_to_vec(CIE1964_10_X_BAR.as_slice()),
                y_bar: vstd::slice::slice_to_vec(CIE1964_10_Y_BAR.as_slice()),
                z_bar: vstd::slice::slice_to_vec(CIE1964_10_Z_BAR.as_slice()),
                k: K_CIE1964_10,
            },
        };
        Ok(observer)
    }

    /// The observer's colour-matching functions x-bar, y-bar and z-bar, in
    /// this order, over the standard wavelengths.
    pub fn xyzbar(self) -> (r: LuxResult<SpectralMatrix>)
        ensures
            r matches Ok(m) && standard_grid(m@.0) && m@.1 == seq![
                standard_x_bar(self),
                standard_y_bar(self),
                standard_z_bar(self),
            ],
            self == Observer::Cie1931_2 ==> (r matches Ok(m) && m@.1 == seq![
                CIE1931_2_X_BAR@,
                CIE1931_2_Y_BAR@,
                CIE1931_2_Z_BAR@,
            ]),
            self == Observer::Cie1964_10 ==> (r matches Ok(m) && m@.1 == seq![
                CIE1964_10_X_BAR@,
                CIE1964_10_Y_BAR@,
                CIE1964_10_Z_BAR@,
            ]),
    {
        match self.standard() {
            Ok(observer) => {
                proof {
                    lemma_standard_grid_increasing(observer.wavelengths@);
                }
                let r = observer.xyz_spectra();
                proof {
                    let spectra = seq![observer.x_bar@, observer.y_bar@, observer.z_bar@];
                    lemma_three_lengths(spectra, 471);
                }
                r
            },
            Err(e) => Err(e),
        }
    }

    /// The observer's luminous efficiency function (its y-bar) over the
    /// standard wavelengths, with the photometric constant.
    pub fn vlbar(self) -> (r: LuxResult<(Spectrum, u64)>)
        ensures
            r matches Ok((vl, k)) && standard_grid(vl@.0) && vl@.1 == standard_y_bar(self) && k
                == standard_k(self),
            self == Observer::Cie1931_2 ==> (r matches Ok((vl, k)) && vl@.1 == CIE1931_2_Y_BAR@
                && k == K_CIE1931_2),
            self == Observer::Cie1964_10 ==> (r matches Ok((vl, k)) && vl@.1 == CIE1964_10_Y_BAR@
                && k == K_CIE1964_10),
    {
        match self.standard() {
            Ok(observer) => {
                proof {
                    lemma_standard_grid_increasing(observer.wavelengths@);
                }
                match observer.vl_spectrum() {
                    Ok(vl) => Ok((vl, observer.k)),
                    Err(e) => Err(e),
                }
            },
            Err(e) => Err(e),
        }
    }

    /// The observer's XYZ-to-LMS matrix.
    pub fn xyz_to_lms_matrix(self) -> (r: LuxResult<Matrix3>)
        ensures
            r == Ok::<Matrix3, LuxError>(standard_xyz_to_lms(self)),
            self == Observer::Cie1931_2 ==> r == Ok::<Matrix3, LuxError>(XYZ_TO_LMS_CIE1931_2),
            self == Observer::Cie1964_10 ==> r == Ok::<Matrix3, LuxError>(XYZ_TO_LMS_CIE1964_10),
    {
        match self {
            Observer::Cie1931_2 => Ok(XYZ_TO_LMS_CIE1931_2),
            Observer::Cie1964_10 => Ok(XYZ_TO_LMS_CIE1964_10),
        }
    }
}

/// Three spectra of a common length have no length mismatch against it.
proof fn lemma_three_lengths(spectra: Seq<Seq<u64>>, n: nat)
    requires
        spectra.len() == 3,
        spectra[0].len() == n,
        spectra[1].len() == n,
        spectra[2].len() == n,
    ensures
        first_length_mismatch(spectra, n) is None,
{
    reveal_with_fuel(first_length_mismatch, 4);
    assert(spectra.drop_last().drop_last().drop_last() =~= Seq::<Seq<u64>>::empty());
    assert(spectra.drop_last().drop_last().last() == spectra[0]);
    assert(spectra.drop_last().last() == spectra[1]);
}

impl TristimulusObserver {
    /// The luminous efficiency function (y-bar) as a spectrum, with the checks
    /// of `Spectrum::new`.
    pub fn vl_spectrum(&self) -> (r: LuxResult<Spectrum>)
        ensures
            match r {
                Ok(s) => spectrum_outcome(self.wavelengths@, self.y_bar@) is Ok && s@ == (
                    self.wavelengths@,
                    self.y_bar@,
                ),
                Err(e) => spectrum_outcome(self.wavelengths@, self.y_bar@) == Err::<(), LuxError>(e),
            },
    {
        Spectrum::new(
            vstd::slice::slice_to_vec(self.wavelengths.as_slice()),
            vstd::slice::slice_to_vec(self.y_bar.as_slice()),
        )
    }

    /// x-bar as a spectrum, with the checks of `Spectrum::new`.
    pub fn x_bar_spectrum(&self) -> (r: LuxResult<Spectrum>)
        ensures
            match r {
                Ok(s) => spectrum_outcome(self.wavelengths@, self.x_bar@) is Ok && s@ == (
                    self.wavelengths@,
                    self.x_bar@,
                ),
                Err(e) => spectrum_outcome(self.wavelengths@, self.x_bar@) == Err::<(), LuxError>(e),
            },
    {
        Spectrum::new(
            vstd::slice::slice_to_vec(self.wavelengths.as_slice()),
            vstd::slice::slice_to_vec(self.x_bar.as_slice()),
        )
    }

    /// z-bar as a spectrum, with the checks of `Spectrum::new`.
    pub fn z_bar_spectrum(&self) -> (r: LuxResult<Spectrum>)
        ensures
            match r {
                Ok(s) => spectrum_outcome(self.wavelengths@, self.z_bar@) is Ok && s@ == (
                    self.wavelengths@,
                    self.z_bar@,
                ),
                Err(e) => spectrum_outcome(self.wavelengths@, self.z_bar@) == Err::<(), LuxError>(e),
            },
    {
        Spectrum::new(
            vstd::slice::slice_to_vec(self.wavelengths.as_slice()),
            vstd::slice::slice_to_vec(self.z_bar.as_slice()),
        )
    }

    /// x-bar, y-bar and z-bar, in this order, as spectra over the common
    /// wavelengths, with the checks of `SpectralMatrix::new`.
    pub fn xyz_spectra(&self) -> (r: LuxResult<SpectralMatrix>)
        ensures
            ({
                let spectra = seq![self.x_bar@, self.y_bar@, self.z_bar@];
                match r {
                    Ok(m) => matrix_outcome(self.wavelengths@, spectra) is Ok && m@ == (
                        self.wavelengths@,
                        spectra,
                    ),
                    Err(e) => matrix_outcome(self.wavelengths@, spectra) == Err::<(), LuxError>(e),
                }
            }),
    {
        let spectra: Vec<Vec<u64>> = vec![
            vstd::slice::slice_to_vec(self.x_bar.as_slice()),
            vstd::slice::slice_to_vec(self.y_bar.as_slice()),
            vstd::slice::slice_to_vec(self.z_bar.as_slice()),
        ];
        assert(spectra@[0].deep_view() =~= self.x_bar@);
        assert(spectra@[1].deep_view() =~= self.y_bar@);
        assert(spectra@[2].deep_view() =~= self.z_bar@);
        assert(spectra.deep_view() =~= seq![self.x_bar@, self.y_bar@, self.z_bar@]);
        SpectralMatrix::new(vstd::slice::slice_to_vec(self.wavelengths.as_slice()), spectra)
    }
}

/// The view of an optional slice.
pub open spec fn optional_view(values: Option<&[u64]>) -> Option<Seq<u64>> {
    match values {
        Some(v) => Some(v@),
        None => None,
    }
}

/// A photopic luminance is usable when it is finite and positive.
pub open spec fn photopic_usable(value: u64) -> bool {
    is_finite(value) && !le(value, POSITIVE_ZERO)
}

/// A scotopic luminance or S/P ratio is usable when it is finite and not
/// negative.
pub open spec fn non_negative_usable(value: u64) -> bool {
    is_finite(value) && !lt(value, POSITIVE_ZERO)
}

/// The error for the inputs at index `i`, if any: the photopic luminance is
/// checked first, then the scotopic luminance or S/P ratio given.
pub open spec fn mesopic_element_error(
    photopic: Seq<u64>,
    scotopic: Option<Seq<u64>>,
    s_p_ratio: Option<Seq<u64>>,
    i: int,
) -> Option<LuxError> {
    if !photopic_usable(photopic[i]) {
        Some(LuxError::InvalidInput("photopic luminance values must be finite and positive"))
    } else {
        match scotopic {
            Some(ls) => if !non_negative_usable(ls[i]) {
                Some(
                    LuxError::InvalidInput(
                        "scotopic luminance values must be finite and non-negative",
                    ),
                )
            } else {
                None
            },
            None => match s_p_ratio {
                Some(sp) => if !non_negative_usable(sp[i]) {
                    Some(LuxError::InvalidInput("S/P ratio values must be finite and non-negative"))
                } else {
                    None
                },
                None => None,
            },
        }
    }
}

/// The error of the first index, from `i` on, whose inputs are not usable.
pub open spec fn first_mesopic_error(
    photopic: Seq<u64>,
    scotopic: Option<Seq<u64>>,
    s_p_ratio: Option<Seq<u64>>,
    i: int,
) -> Option<LuxError>
    decreases photopic.len() - i,
{
    if i < 0 || i >= photopic.len() {
        None
    } else {
        match mesopic_element_error(photopic, scotopic, s_p_ratio, i) {
            Some(e) => Some(e),
            None => first_mesopic_error(photopic, scotopic, s_p_ratio, i + 1),
        }
    }
}

/// What the checks on the inputs of the CIE mesopic adaptation decide: the
/// photopic luminances must not be empty; exactly one of the scotopic
/// luminances and the S/P ratios must be given, with as many items as the
/// photopic luminances; then every item must be usable.
pub open spec fn mesopic_inputs_outcome(
    photopic: Seq<u64>,
    scotopic: Option<Seq<u64>>,
    s_p_ratio: Option<Seq<u64>>,
) -> Result<(), LuxError> {
    if photopic.len() == 0 {
        Err(LuxError::EmptyInput)
    } else if (scotopic is Some) == (s_p_ratio is Some) {
        Err(LuxError::InvalidInput("provide exactly one of scotopic_luminance or s_p_ratio"))
    } else if scotopic is Some && scotopic->0.len() != photopic.len() {
        Err(
            LuxError::MismatchedLengths {
                wavelengths: photopic.len() as usize,
                values: scotopic->0.len() as usize,
            },
        )
    } else if s_p_ratio is Some && s_p_ratio->0.len() != photopic.len() {
        Err(
            LuxError::MismatchedLengths {
                wavelengths: photopic.len() as usize,
                values: s_p_ratio->0.len() as usize,
            },
        )
    } else {
        match first_mesopic_error(photopic, scotopic, s_p_ratio, 0) {
            Some(e) => Err(e),
            None => Ok(()),
        }
    }
}

/// The inputs at index `i` are usable: a finite, positive photopic luminance,
/// and a finite scotopic luminance or S/P ratio that is not below zero.
proof fn lemma_first_mesopic_error_none(
    p: Seq<u64>,
    s: Option<Seq<u64>>,
    q: Option<Seq<u64>>,
    i: int,
)
    requires
        0 <= i <= p.len(),
        (s is Some) != (q is Some),
        s is Some ==> s->0.len() == p.len(),
        q is Some ==> q->0.len() == p.len(),
    ensures
        first_mesopic_error(p, s, q, i) is None <==> forall|j: int|
            i <= j < p.len() ==> is_finite(#[trigger] p[j]) && !le(p[j], POSITIVE_ZERO) && (s is Some
                ==> is_finite(s->0[j]) && !lt(s->0[j], POSITIVE_ZERO)) && (q is Some ==> is_finite(
                q->0[j],
            ) && !lt(q->0[j], POSITIVE_ZERO)),
    decreases p.len() - i,
{
    if i < p.len() {
        lemma_first_mesopic_error_none(p, s, q, i + 1);
    }
}

/// The mesopic inputs are accepted exactly when there are photopic
/// luminances, exactly one of the scotopic luminances and the S/P ratios is
/// given with as many items, every photopic luminance is finite and positive,
/// and every scotopic luminance or S/P ratio is finite and not below zero.
pub proof fn law_mesopic_inputs_accepted(p: Seq<u64>, s: Option<Seq<u64>>, q: Option<Seq<u64>>)
    ensures
        mesopic_inputs_outcome(p, s, q) is Ok <==> {
            &&& p.len() > 0
            &&& (s is Some) != (q is Some)
            &&& s is Some ==> s->0.len() == p.len()
            &&& q is Some ==> q->0.len() == p.len()
            &&& forall|j: int|
                0 <= j < p.len() ==> is_finite(#[trigger] p[j]) && !le(p[j], POSITIVE_ZERO) && (s
                    is Some ==> is_finite(s->0[j]) && !lt(s->0[j], POSITIVE_ZERO)) && (q is Some
                    ==> is_finite(q->0[j]) && !lt(q->0[j], POSITIVE_ZERO))
        },
        p.len() == 0 ==> mesopic_inputs_outcome(p, s, q) == Err::<(), LuxError>(
            LuxError::EmptyInput,
        ),
{
    if p.len() > 0 && (s is Some) != (q is Some) && (s is Some ==> s->0.len() == p.len()) && (q is Some
        ==> q->0.len() == p.len()) {
        lemma_first_mesopic_error_none(p, s, q, 0);
        assert(mesopic_inputs_outcome(p, s, q) is Ok <==> first_mesopic_error(p, s, q, 0) is None);
    }
}

/// Checks the inputs of the CIE mesopic adaptation (photopic luminances, and
/// either scotopic luminances or S/P ratios) and reports the first problem.
pub fn validate_mesopic_inputs(
    photopic: &[u64],
    scotopic: Option<&[u64]>,
    s_p_ratio: Option<&[u64]>,
) -> (r: LuxResult<()>)
    ensures
        r == mesopic_inputs_outcome(photopic@, optional_view(scotopic), optional_view(s_p_ratio)),
{
    let len = photopic.len();
    if len == 0 {
        return Err(LuxError::EmptyInput);
    }
    if scotopic.is_some() == s_p_ratio.is_some() {
        return Err(LuxError::InvalidInput("provide exactly one of scotopic_luminance or s_p_ratio"));
    }
    if let Some(ls) = scotopic {
        if ls.len() != len {
            return Err(LuxError::MismatchedLengths { wavelengths: len, values: ls.len() });
        }
    }
    if let Some(sp) = s_p_ratio {
        if sp.len() != len {
            return Err(LuxError::MismatchedLengths { wavelengths: len, values: sp.len() });
        }
    }
    let ghost p = photopic@;
    let ghost s = optional_view(scotopic);
    let ghost q = optional_view(s_p_ratio);
    let mut index: usize = 0;
    while index < len
        invariant
            0 <= index <= len,
            len == p.len(),
            p == photopic@,
            s == optional_view(scotopic),
            q == optional_view(s_p_ratio),
            s is Some ==> s->0.len() == len,
            q is Some ==> q->0.len() == len,
            (s is Some) != (q is Some),
            first_mesopic_error(p, s, q, 0) == first_mesopic_error(p, s, q, index as int),
        decreases len - index,
    {
        let lp = photopic[index];
        if !is_finite_bits(lp) || le_bits(lp, POSITIVE_ZERO) {
            return Err(
                LuxError::InvalidInput("photopic luminance values must be finite and positive"),
            );
        }
        match scotopic {
            Some(ls) => {
                let value = ls[index];
                if !is_finite_bits(value) || lt_bits(value, POSITIVE_ZERO) {
                    return Err(
                        LuxError::InvalidInput(
                            "scotopic luminance values must be finite and non-negative",
                        ),
                    );
                }
            },
            None => {
                let ratio = match s_p_ratio {
                    Some(sp) => sp[index],
                    None => 0,
                };
                if !is_finite_bits(ratio) || lt_bits(ratio, POSITIVE_ZERO) {
                    return Err(
                        LuxError::InvalidInput("S/P ratio values must be finite and non-negative"),
                    );
                }
            },
        }
        assert(mesopic_element_error(p, s, q, index as int) is None);
        index = index + 1;
    }
    Ok(())
}

/// A value sampled at `target` from a table that covers `[first, last]`:
/// zero when the target lies outside that range or the value has its sign bit
/// set (a negative value, or negative zero), and the value otherwise.
pub open spec fn clipped_sample(target: u64, value: u64, first: u64, last: u64) -> u64 {
    if lt(target, first) || lt(last, target) || sign_set(value) {
        POSITIVE_ZERO
    } else {
        value
    }
}

/// Values resampled from a table onto `targets`, set to zero outside the
/// table's range `[first, last]` and wherever they are negative.
pub fn clip_to_table_range(targets: &[u64], values: &[u64], first: u64, last: u64) -> (r: Vec<u64>)
    requires
        targets@.len() == values@.len(),
    ensures
        r@.len() == targets@.len(),
        forall|i: int|
            0 <= i < r@.len() ==> #[trigger] r@[i] == clipped_sample(
                targets@[i],
                values@[i],
                first,
                last,
            ),
{
    let mut out: Vec<u64> = Vec::with_capacity(targets.len());
    let mut i: usize = 0;
    while i < targets.len()
        invariant
            0 <= i <= targets@.len(),
            targets@.len() == values@.len(),
            out@.len() == i,
            forall|j: int|
                0 <= j < i ==> #[trigger] out@[j] == clipped_sample(
                    targets@[j],
                    values@[j],
                    first,
                    last,
                ),
        decreases targets@.len() - i,
    {
        let target = targets[i];
        let value = values[i];
        let sample = if lt_bits(target, first) || lt_bits(last, target) || (value >> 63) == 1 {
            POSITIVE_ZERO
        } else {
            value
        };
        out.push(sample);
        i = i + 1;
    }
    out
}

/// The bit pattern of 1.0.
pub const UNIT: u64 = 0x3ff0_0000_0000_0000;

/// The adaptation coefficients of mesopic luminous efficiency curves, each
/// restricted to `[0, 1]` (see [`clamped`]); `EmptyInput` when there are none.
pub fn clamp_adaptation_coefficients(m_values: &[u64]) -> (r: LuxResult<Vec<u64>>)
    ensures
        m_values@.len() == 0 ==> r == Err::<Vec<u64>, LuxError>(LuxError::EmptyInput),
        m_values@.len() > 0 ==> (r matches Ok(v) && v@.len() == m_values@.len() && forall|i: int|
            0 <= i < v@.len() ==> #[trigger] v@[i] == clamped(m_values@[i], POSITIVE_ZERO, UNIT)),
{
    if m_values.len() == 0 {
        return Err(LuxError::EmptyInput);
    }
    assert(le(POSITIVE_ZERO, UNIT)) by (bit_vector);
    let mut out: Vec<u64> = Vec::with_capacity(m_values.len());
    let mut i: usize = 0;
    while i < m_values.len()
        invariant
            0 <= i <= m_values@.len(),
            out@.len() == i,
            le(POSITIVE_ZERO, UNIT),
            forall|j: int|
                0 <= j < i ==> #[trigger] out@[j] == clamped(m_values@[j], POSITIVE_ZERO, UNIT),
        decreases m_values@.len() - i,
    {
        out.push(clamp_bits(m_values[i], POSITIVE_ZERO, UNIT));
        i = i + 1;
    }
    Ok(out)
}

} // verus!
