# lux_rs

Spectral, photometric and colorimetric data handling, with the decisions
verified by Verus.

Wavelengths, spectral values and scale factors are carried as the bit
patterns (`u64`) of IEEE 754 binary64 numbers. `src/binary64.rs` states the
standard's classification (NaN, finite) and ordering of those patterns, so
that every check on a spectrum is proved against the exact meaning of the
values it compares.

- `src/` is the verified library: validation of spectra, spectral matrices and
  wavelength grids; bracketing of interpolation targets; the standard observer
  tables and the XYZ-to-LMS matrices; the syntax of observer tables in text;
  the checks on the inputs of the CIE mesopic adaptation; error messages.
- `app/` holds the numeric kernels, which compute with the decoded binary64
  values: interpolation, wavelength spacing, spectral integration, colour-space
  transforms and mesopic photometry.
- `tests/` runs the library on concrete values.
- `src/observer_data.rs` holds the standard observer tables. They are the
  analytic approximations of the CIE 1931 2-degree and CIE 1964 10-degree
  colour-matching functions by Wyman, Sloan and Shirley (2013), sampled at
  1 nm (the 1931 curves scaled so that y-bar is 1 at 555 nm). They follow the
  tabulated CIE values to within a few per cent of the peak, not exactly, so
  results computed with them differ from those of the tabulated data.
  `extras/observer_tables.py` prints them.
- The mesopic functions in `app/` read the CIE 1951 scotopic table from
  `data/cmfs/ciexyz_1951_20_scotopic.dat` at run time; it is not included.
