//! Spectral, photometric and colorimetric data handling with verified
//! validation, search and parsing logic.
//!
//! Sample values (wavelengths, spectral values, scale factors) are carried as
//! IEEE 754 binary64 bit patterns (`u64`). The `binary64` module gives those
//! patterns their exact meaning for ordering and classification; the numeric
//! kernels that compute with them work on the decoded values.
use vstd::prelude::*;

pub mod binary64;
pub mod color;
pub mod error;
pub mod observer_data;
pub mod photometry;
pub mod spectrum;
pub mod table;
pub mod text;

pub use color::{Matrix3, Observer, TristimulusObserver};
pub use error::{LuxError, LuxResult};
pub use photometry::PowerType;
pub use spectrum::{Bracket, SpectralMatrix, Spectrum, WavelengthGrid};
pub use table::{parse_observer_table, TableRow};

verus! {

} // verus!
