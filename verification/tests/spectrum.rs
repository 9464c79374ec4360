use lux_rs::spectrum::validate_wavelengths;
use lux_rs::{Bracket, LuxError, SpectralMatrix, Spectrum, WavelengthGrid};

fn bits(values: &[f64]) -> Vec<u64> {
    values.iter().map(|v| v.to_bits()).collect()
}

#[test]
fn validates_spectrum_lengths() {
    let result = Spectrum::new(bits(&[400.0]), bits(&[1.0, 2.0]));
    assert!(result.is_err());
}

#[test]
fn spectrum_new_reports_each_error() {
    assert_eq!(Spectrum::new(vec![], bits(&[1.0])).unwrap_err(), LuxError::EmptyInput);
    assert_eq!(Spectrum::new(bits(&[400.0]), vec![]).unwrap_err(), LuxError::EmptyInput);
    assert_eq!(
        Spectrum::new(bits(&[400.0]), bits(&[1.0, 2.0])).unwrap_err(),
        LuxError::MismatchedLengths { wavelengths: 1, values: 2 }
    );
    assert_eq!(
        Spectrum::new(bits(&[400.0, 400.0]), bits(&[1.0, 2.0])).unwrap_err(),
        LuxError::NonMonotonicWavelengths
    );
    assert_eq!(
        Spectrum::new(bits(&[400.0, f64::INFINITY]), bits(&[1.0, 2.0])).unwrap_err(),
        LuxError::NonMonotonicWavelengths
    );
    assert_eq!(
        Spectrum::new(bits(&[f64::NAN, 400.0]), bits(&[1.0, 2.0])).unwrap_err(),
        LuxError::NonMonotonicWavelengths
    );
    // Zeros of either sign are equal, so they are not increasing.
    assert_eq!(
        Spectrum::new(bits(&[-0.0, 0.0]), bits(&[1.0, 2.0])).unwrap_err(),
        LuxError::NonMonotonicWavelengths
    );
    // A single wavelength has no pair to compare.
    assert!(Spectrum::new(bits(&[f64::NAN]), bits(&[1.0])).is_ok());
}

#[test]
fn spectrum_reads_back_what_it_was_given() {
    let wavelengths = bits(&[-3.5, -0.0, 1e-300, 400.0, 1e300]);
    let values = bits(&[1.0, f64::NAN, -2.0, 0.0, f64::INFINITY]);
    let spectrum = Spectrum::new(wavelengths.clone(), values.clone()).unwrap();
    assert_eq!(spectrum.wavelengths(), wavelengths.as_slice());
    assert_eq!(spectrum.values(), values.as_slice());
    let copy = spectrum.clone();
    assert_eq!(copy.wavelengths(), wavelengths.as_slice());
    assert_eq!(copy.values(), values.as_slice());
}

#[test]
fn locate_brackets_targets() {
    let spectrum = Spectrum::new(bits(&[400.0, 410.0, 420.0]), bits(&[1.0, 2.0, 3.0])).unwrap();
    assert_eq!(spectrum.locate(395.0f64.to_bits()), Bracket::Segment(0));
    assert_eq!(spectrum.locate(400.0f64.to_bits()), Bracket::Segment(0));
    assert_eq!(spectrum.locate(405.0f64.to_bits()), Bracket::Segment(0));
    assert_eq!(spectrum.locate(410.0f64.to_bits()), Bracket::Exact(1));
    assert_eq!(spectrum.locate(415.0f64.to_bits()), Bracket::Segment(1));
    assert_eq!(spectrum.locate(420.0f64.to_bits()), Bracket::Segment(1));
    assert_eq!(spectrum.locate(425.0f64.to_bits()), Bracket::Segment(1));
    assert_eq!(spectrum.locate(f64::NEG_INFINITY.to_bits()), Bracket::Segment(0));
    assert_eq!(spectrum.locate(f64::INFINITY.to_bits()), Bracket::Segment(1));
}

#[test]
fn locate_finds_every_interior_sample() {
    let wavelengths: Vec<f64> = (0..50).map(|i| 300.0 + 7.5 * i as f64).collect();
    let spectrum = Spectrum::new(bits(&wavelengths), bits(&vec![1.0; 50])).unwrap();
    for i in 1..49 {
        assert_eq!(spectrum.locate(wavelengths[i].to_bits()), Bracket::Exact(i));
        assert_eq!(spectrum.locate((wavelengths[i] + 1.0).to_bits()), Bracket::Segment(i));
    }
}

#[test]
fn wavelength_grid_checks_its_parameters() {
    let ok = WavelengthGrid::new(360.0f64.to_bits(), 365.0f64.to_bits(), 1.0f64.to_bits()).unwrap();
    assert_eq!(f64::from_bits(ok.start), 360.0);
    assert_eq!(f64::from_bits(ok.end), 365.0);
    assert_eq!(f64::from_bits(ok.step), 1.0);
    assert!(WavelengthGrid::new(1.0f64.to_bits(), 1.0f64.to_bits(), 0.5f64.to_bits()).is_ok());
    for (start, end, step) in [
        (f64::NAN, 365.0, 1.0),
        (360.0, f64::INFINITY, 1.0),
        (360.0, 365.0, f64::NAN),
        (360.0, 365.0, 0.0),
        (360.0, 365.0, -0.0),
        (360.0, 365.0, -1.0),
        (365.0, 360.0, 1.0),
    ] {
        assert_eq!(
            WavelengthGrid::new(start.to_bits(), end.to_bits(), step.to_bits()),
            Err(LuxError::InvalidGridSpec)
        );
    }
}

#[test]
fn wavelength_sequences_are_checked() {
    assert_eq!(validate_wavelengths(&[]), Err(LuxError::EmptyInput));
    assert_eq!(validate_wavelengths(&bits(&[400.0])), Ok(()));
    assert_eq!(validate_wavelengths(&bits(&[400.0, 410.0, 430.0])), Ok(()));
    assert_eq!(
        validate_wavelengths(&bits(&[400.0, 430.0, 410.0])),
        Err(LuxError::NonMonotonicWavelengths)
    );
    assert_eq!(validate_wavelengths(&bits(&[-2.0, -1.0, -0.5, 0.0, 1e-310, 2.0])), Ok(()));
}

#[test]
fn spectral_matrix_checks_and_reads_back() {
    let wavelengths = bits(&[555.0, 556.0]);
    let spectra = vec![bits(&[1.0, 1.0]), bits(&[2.0, 2.0])];
    let matrix = SpectralMatrix::new(wavelengths.clone(), spectra.clone()).unwrap();
    assert_eq!(matrix.wavelength_count(), 2);
    assert_eq!(matrix.spectrum_count(), 2);
    assert_eq!(matrix.wavelengths(), wavelengths.as_slice());
    assert_eq!(matrix.spectra(), spectra.as_slice());
    let copy = matrix.clone();
    assert_eq!(copy.spectra(), spectra.as_slice());

    assert_eq!(SpectralMatrix::new(vec![], vec![]).unwrap_err(), LuxError::EmptyInput);
    assert_eq!(SpectralMatrix::new(wavelengths.clone(), vec![]).unwrap_err(), LuxError::EmptyInput);
    assert_eq!(
        SpectralMatrix::new(
            wavelengths.clone(),
            vec![bits(&[1.0, 1.0]), bits(&[1.0]), bits(&[1.0, 2.0, 3.0])]
        )
        .unwrap_err(),
        LuxError::MismatchedLengths { wavelengths: 2, values: 1 }
    );
    assert_eq!(
        SpectralMatrix::new(bits(&[556.0, 555.0]), spectra).unwrap_err(),
        LuxError::NonMonotonicWavelengths
    );
}
