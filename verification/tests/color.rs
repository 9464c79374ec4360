use lux_rs::color::{validate_mesopic_inputs, XYZ_TO_LMS_CIE1964_10};
use lux_rs::{LuxError, Observer, TristimulusObserver};

fn bits(values: &[f64]) -> Vec<u64> {
    values.iter().map(|v| v.to_bits()).collect()
}

#[test]
fn loads_standard_observer() {
    let observer = Observer::Cie1931_2.standard().unwrap();
    assert_eq!(observer.wavelengths.first().copied().map(f64::from_bits), Some(360.0));
    assert_eq!(observer.wavelengths.last().copied().map(f64::from_bits), Some(830.0));
    assert_eq!(observer.wavelengths.len(), 471);
}

#[test]
fn exposes_xyzbar() {
    let xyzbar = Observer::Cie1931_2.xyzbar().unwrap();
    assert_eq!(xyzbar.wavelength_count(), 471);
    assert_eq!(xyzbar.spectrum_count(), 3);
}

#[test]
fn exposes_vlbar_and_k() {
    let (vl, k) = Observer::Cie1931_2.vlbar().unwrap();
    assert_eq!(vl.wavelengths().len(), 471);
    assert_eq!(f64::from_bits(vl.values()[195]), 1.0);
    assert_eq!(f64::from_bits(k), 683.002);
}

#[test]
fn exposes_xyz_to_lms_matrix_for_1931() {
    let matrix = Observer::Cie1931_2.xyz_to_lms_matrix().unwrap();
    assert_eq!(matrix[0].map(f64::from_bits), [0.38971, 0.68898, -0.07868]);
    assert_eq!(matrix[2].map(f64::from_bits), [0.0, 0.0, 1.0]);
}

#[test]
fn standard_wavelengths_are_whole_nanometres() {
    for observer in [Observer::Cie1931_2, Observer::Cie1964_10] {
        let table = observer.standard().unwrap();
        for (i, &w) in table.wavelengths.iter().enumerate() {
            assert_eq!(f64::from_bits(w), 360.0 + i as f64);
        }
        assert_eq!(table.x_bar.len(), 471);
        assert_eq!(table.y_bar.len(), 471);
        assert_eq!(table.z_bar.len(), 471);
    }
}

#[test]
fn observers_share_their_wavelengths() {
    let a = Observer::Cie1931_2.standard().unwrap();
    let b = Observer::Cie1964_10.standard().unwrap();
    assert_eq!(a.wavelengths, b.wavelengths);
    assert_eq!(f64::from_bits(b.k), 683.599);
}

#[test]
fn xyzbar_holds_the_table_curves_in_order() {
    for observer in [Observer::Cie1931_2, Observer::Cie1964_10] {
        let table = observer.standard().unwrap();
        let xyzbar = observer.xyzbar().unwrap();
        let (vl, _) = observer.vlbar().unwrap();
        assert_eq!(xyzbar.wavelengths(), table.wavelengths.as_slice());
        assert_eq!(xyzbar.spectra()[0], table.x_bar);
        assert_eq!(xyzbar.spectra()[1], table.y_bar);
        assert_eq!(xyzbar.spectra()[2], table.z_bar);
        assert_eq!(vl.values(), table.y_bar.as_slice());
        assert_eq!(vl.wavelengths(), table.wavelengths.as_slice());
    }
}

#[test]
fn y_bar_of_1931_is_one_at_555_nm() {
    let table = Observer::Cie1931_2.standard().unwrap();
    assert_eq!(f64::from_bits(table.wavelengths[195]), 555.0);
    assert_eq!(f64::from_bits(table.y_bar[195]), 1.0);
}

#[test]
fn exposes_xyz_to_lms_matrix_for_1964() {
    let matrix = Observer::Cie1964_10.xyz_to_lms_matrix().unwrap();
    assert_eq!(matrix, XYZ_TO_LMS_CIE1964_10);
    assert_eq!(
        matrix[0].map(f64::from_bits),
        [0.217_010_449_691_388_16, 0.835_733_670_117_584_4, -0.043_510_597_212_556_935]
    );
    assert_eq!(matrix[2].map(f64::from_bits), [0.0, 0.0, 0.465_792_338_736_113]);
}

fn small_observer(y_bar: &[f64], wavelengths: &[f64]) -> TristimulusObserver {
    TristimulusObserver {
        wavelengths: bits(wavelengths),
        x_bar: bits(&[0.1, 0.2, 0.3]),
        y_bar: bits(y_bar),
        z_bar: bits(&[0.3, 0.2, 0.1]),
        k: 683.0f64.to_bits(),
    }
}

#[test]
fn observer_spectra_apply_the_spectrum_checks() {
    let good = small_observer(&[0.5, 1.0, 0.5], &[500.0, 510.0, 520.0]);
    assert_eq!(good.vl_spectrum().unwrap().values(), bits(&[0.5, 1.0, 0.5]).as_slice());
    assert_eq!(good.x_bar_spectrum().unwrap().values(), bits(&[0.1, 0.2, 0.3]).as_slice());
    assert_eq!(good.z_bar_spectrum().unwrap().values(), bits(&[0.3, 0.2, 0.1]).as_slice());
    assert_eq!(good.xyz_spectra().unwrap().spectrum_count(), 3);

    let short = small_observer(&[0.5, 1.0], &[500.0, 510.0, 520.0]);
    assert_eq!(
        short.vl_spectrum().unwrap_err(),
        LuxError::MismatchedLengths { wavelengths: 3, values: 2 }
    );
    assert_eq!(
        short.xyz_spectra().unwrap_err(),
        LuxError::MismatchedLengths { wavelengths: 3, values: 2 }
    );

    let unordered = small_observer(&[0.5, 1.0, 0.5], &[500.0, 520.0, 510.0]);
    assert_eq!(unordered.vl_spectrum().unwrap_err(), LuxError::NonMonotonicWavelengths);
    assert_eq!(unordered.xyz_spectra().unwrap_err(), LuxError::NonMonotonicWavelengths);

    let empty = small_observer(&[], &[]);
    assert_eq!(empty.vl_spectrum().unwrap_err(), LuxError::EmptyInput);
}

#[test]
fn mesopic_inputs_are_checked_in_order() {
    let one = bits(&[1.0]);
    let two = bits(&[1.0, 2.0]);
    assert_eq!(validate_mesopic_inputs(&[], None, Some(&one)), Err(LuxError::EmptyInput));
    assert_eq!(
        validate_mesopic_inputs(&one, None, None),
        Err(LuxError::InvalidInput("provide exactly one of scotopic_luminance or s_p_ratio"))
    );
    assert_eq!(
        validate_mesopic_inputs(&one, Some(&one), Some(&one)),
        Err(LuxError::InvalidInput("provide exactly one of scotopic_luminance or s_p_ratio"))
    );
    assert_eq!(
        validate_mesopic_inputs(&one, Some(&two), None),
        Err(LuxError::MismatchedLengths { wavelengths: 1, values: 2 })
    );
    assert_eq!(
        validate_mesopic_inputs(&one, None, Some(&two)),
        Err(LuxError::MismatchedLengths { wavelengths: 1, values: 2 })
    );
    assert_eq!(validate_mesopic_inputs(&one, None, Some(&one)), Ok(()));
    assert_eq!(validate_mesopic_inputs(&two, Some(&bits(&[0.0, 3.0])), None), Ok(()));
    assert_eq!(
        validate_mesopic_inputs(&bits(&[1.0, 0.0]), None, Some(&two)),
        Err(LuxError::InvalidInput("photopic luminance values must be finite and positive"))
    );
    assert_eq!(
        validate_mesopic_inputs(&bits(&[f64::NAN]), None, Some(&one)),
        Err(LuxError::InvalidInput("photopic luminance values must be finite and positive"))
    );
    assert_eq!(
        validate_mesopic_inputs(&two, Some(&bits(&[1.0, -1.0])), None),
        Err(LuxError::InvalidInput("scotopic luminance values must be finite and non-negative"))
    );
    assert_eq!(
        validate_mesopic_inputs(&two, None, Some(&bits(&[f64::INFINITY, 1.0]))),
        Err(LuxError::InvalidInput("S/P ratio values must be finite and non-negative"))
    );
    // The first bad index decides, whatever comes after it.
    assert_eq!(
        validate_mesopic_inputs(&bits(&[1.0, -2.0]), None, Some(&bits(&[-1.0, 1.0]))),
        Err(LuxError::InvalidInput("S/P ratio values must be finite and non-negative"))
    );
    // Negative zero is not below zero.
    assert_eq!(validate_mesopic_inputs(&one, None, Some(&bits(&[-0.0]))), Ok(()));
}

#[test]
fn resampled_tables_are_clipped_to_their_range() {
    let targets = bits(&[350.0, 360.0, 500.0, 830.0, 831.0, 600.0, 700.0]);
    let values = bits(&[0.5, 0.25, -0.125, 0.75, 0.5, -0.0, f64::NAN]);
    let clipped = lux_rs::color::clip_to_table_range(
        &targets,
        &values,
        360.0f64.to_bits(),
        830.0f64.to_bits(),
    );
    let decoded: Vec<f64> = clipped.iter().map(|&b| f64::from_bits(b)).collect();
    assert_eq!(&decoded[..6], &[0.0, 0.25, 0.0, 0.75, 0.0, 0.0]);
    assert!(decoded[6].is_nan());
    assert_eq!(clipped[5], 0);
}

#[test]
fn adaptation_coefficients_are_clamped_to_the_unit_range() {
    assert_eq!(
        lux_rs::color::clamp_adaptation_coefficients(&[]),
        Err(LuxError::EmptyInput)
    );
    let clamped =
        lux_rs::color::clamp_adaptation_coefficients(&bits(&[0.5, 1.0, -0.25, 2.0, 0.0]))
            .unwrap();
    assert_eq!(clamped, bits(&[0.5, 1.0, 0.0, 1.0, 0.0]));
}

#[test]
fn only_photometric_power_uses_an_observer() {
    let observer = Observer::Cie1931_2.standard().unwrap();
    assert_eq!(lux_rs::PowerType::Photometric.observer_for(None), Err(LuxError::MissingObserver));
    assert_eq!(
        lux_rs::PowerType::Photometric.observer_for(Some(&observer)),
        Ok(Some(&observer))
    );
    assert_eq!(lux_rs::PowerType::Radiometric.observer_for(Some(&observer)), Ok(None));
    assert_eq!(lux_rs::PowerType::Quantal.observer_for(None), Ok(None));
}
