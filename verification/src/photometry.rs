//! Kinds of spectral power.
use vstd::prelude::*;
use crate::color::TristimulusObserver;
use crate::error::{LuxError, LuxResult};

verus! {

/// The kind of power that a spectral power distribution is integrated to.
#[derive(Debug, Clone, Copy, PartialEq, Eq)]
pub enum PowerType {
    /// Radiant power: the values times the wavelength spacing.
    Radiometric,
    /// Luminous power: weighted by the observer's luminous efficiency function
    /// and scaled by its photometric constant; needs an observer.
    Photometric,
    /// Photon count: weighted by wavelength over Planck's constant times the
    /// speed of light.
    Quantal,
}

impl PowerType {
    /// The observer that integrating to this kind of power uses: photometric
    /// power needs one and is refused with `MissingObserver` without it; the
    /// other kinds use none.
    pub fn observer_for<'a>(self, observer: Option<&'a TristimulusObserver>) -> (r: LuxResult<
        Option<&'a TristimulusObserver>,
    >)
        ensures
            self == PowerType::Photometric && observer is None ==> r == Err::<
                Option<&'a TristimulusObserver>,
                LuxError,
            >(LuxError::MissingObserver),
            self == PowerType::Photometric && observer is Some ==> r == Ok::<
                Option<&'a TristimulusObserver>,
                LuxError,
            >(observer),
            self != PowerType::Photometric ==> r == Ok::<Option<&'a TristimulusObserver>, LuxError>(
                None,
            ),
    {
        match self {
            PowerType::Photometric => match observer {
                Some(o) => Ok(Some(o)),
                None => Err(LuxError::MissingObserver),
            },
            _ => Ok(None),
        }
    }
}

} // verus!
