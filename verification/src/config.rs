//! The band analyser's configuration and the rule that decides, before any
//! filter is designed, whether a configuration can be built.

use vstd::prelude::*;

verus! {

/// Half-width of every band, in thousandths of the band's centre
/// frequency: a band around centre `f` reaches from `f * (1000 - 35) / 1000`
/// to `f * (1000 + 35) / 1000`.
pub const BAND_HALF_WIDTH_PER_MILLE: u64 = 35;

/// Why a configuration cannot be built.
#[derive(Clone, Copy, Debug, PartialEq, Eq, Structural)]
pub enum ConfigError {
    /// Fewer than two channels: the spacing between band centres is
    /// undefined.
    TooFewChannels,
    /// The start frequency is not below the end frequency.
    EmptyRange,
    /// The end frequency is not below half the sample rate.
    AboveNyquist,
    /// An edge of some band is not strictly between zero and half the
    /// sample rate.
    BandEdge,
}

/// What an analyser is built from: the number of bands, the centre
/// frequencies of the lowest and the highest band, and the sample rate, all
/// frequencies in whole hertz.
#[derive(Clone, Copy, Debug, PartialEq, Eq, Structural)]
pub struct AnalyzerConfig {
    pub num_channels: usize,
    pub start_hz: u32,
    pub end_hz: u32,
    pub sample_rate: u32,
}

impl AnalyzerConfig {
    /// A configuration can be built if it has at least two channels, if
    /// `0 < start_hz < end_hz < sample_rate / 2`, and if the upper edge of
    /// the highest band, `end_hz * 1035 / 1000`, is below half the sample
    /// rate as well.
    pub open spec fn valid(self) -> bool {
        &&& self.num_channels >= 2
        &&& 0 < self.start_hz < self.end_hz
        &&& 2 * self.end_hz < self.sample_rate
        &&& 2 * (1000 + BAND_HALF_WIDTH_PER_MILLE) * self.end_hz < 1000 * self.sample_rate
    }

    /// The first rule that the configuration breaks, if it breaks any.
    ///
    /// Band centres lie between `start_hz` and `end_hz`, so the lowest band
    /// edge is positive exactly if `start_hz` is, and the highest band edge,
    /// `end_hz * 1035 / 1000`, is below half the sample rate exactly if
    /// `2 * 1035 * end_hz < 1000 * sample_rate`.
    pub open spec fn rejection(self) -> Option<ConfigError> {
        if self.num_channels < 2 {
            Some(ConfigError::TooFewChannels)
        } else if self.start_hz >= self.end_hz {
            Some(ConfigError::EmptyRange)
        } else if 2 * self.end_hz >= self.sample_rate {
            Some(ConfigError::AboveNyquist)
        } else if self.start_hz == 0 || 2 * (1000 + BAND_HALF_WIDTH_PER_MILLE) * self.end_hz >= 1000
            * self.sample_rate {
            Some(ConfigError::BandEdge)
        } else {
            None
        }
    }

    pub fn new(num_channels: usize, start_hz: u32, end_hz: u32, sample_rate: u32) -> (config: Self)
        ensures
            config == (AnalyzerConfig { num_channels, start_hz, end_hz, sample_rate }),
    {
        AnalyzerConfig { num_channels, start_hz, end_hz, sample_rate }
    }

    /// Accepts the configuration, or names the first rule it breaks.
    pub fn validate(&self) -> (r: Result<(), ConfigError>)
        ensures
            r is Ok <==> self.valid(),
            r == match self.rejection() {
                Some(e) => Err::<(), ConfigError>(e),
                None => Ok::<(), ConfigError>(()),
            },
    {
        let end: u64 = self.end_hz as u64;
        let rate: u64 = self.sample_rate as u64;
        if self.num_channels < 2 {
            Err(ConfigError::TooFewChannels)
        } else if self.start_hz >= self.end_hz {
            Err(ConfigError::EmptyRange)
        } else if 2 * end >= rate {
            Err(ConfigError::AboveNyquist)
        } else if self.start_hz == 0 || 2 * (1000 + BAND_HALF_WIDTH_PER_MILLE) * end >= 1000 * rate {
            Err(ConfigError::BandEdge)
        } else {
            Ok(())
        }
    }
}

} // verus!
