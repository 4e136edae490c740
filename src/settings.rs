//! Render settings: the integer options of a render, validated once before
//! any pixel is traced.
use vstd::prelude::*;

verus! {

/// Why a set of render options was refused.
#[derive(Debug, Clone, Copy, PartialEq, Eq, Structural)]
pub enum ConfigError {
    NonPositiveWidth,
    NonPositiveHeight,
    NonPositiveSamples,
    NonPositiveDepth,
}

/// The integer options of a render. Built through `RenderSettings::new`,
/// which checks `is_valid`.
#[derive(Debug, Clone, Copy, PartialEq, Eq, Structural)]
pub struct RenderSettings {
    pub image_width: i32,
    pub image_height: i32,
    pub samples_per_pixel: i32,
    pub max_depth: i32,
}

/// The first option, in the order width, height, samples, depth, that is
/// not positive; `None` when all are.
pub open spec fn first_error(
    image_width: i32,
    image_height: i32,
    samples_per_pixel: i32,
    max_depth: i32,
) -> Option<ConfigError> {
    if image_width <= 0 {
        Some(ConfigError::NonPositiveWidth)
    } else if image_height <= 0 {
        Some(ConfigError::NonPositiveHeight)
    } else if samples_per_pixel <= 0 {
        Some(ConfigError::NonPositiveSamples)
    } else if max_depth <= 0 {
        Some(ConfigError::NonPositiveDepth)
    } else {
        None
    }
}

impl RenderSettings {
    /// Every option is strictly positive.
    pub open spec fn is_valid(&self) -> bool {
        &&& self.image_width > 0
        &&& self.image_height > 0
        &&& self.samples_per_pixel > 0
        &&& self.max_depth > 0
    }

    /// Checks the options in the order width, height, samples, depth and
    /// reports the first one that is not positive.
    pub fn new(image_width: i32, image_height: i32, samples_per_pixel: i32, max_depth: i32) -> (r:
        Result<RenderSettings, ConfigError>)
        ensures
            match first_error(image_width, image_height, samples_per_pixel, max_depth) {
                Some(e) => r == Err::<RenderSettings, ConfigError>(e),
                None => r == Ok::<RenderSettings, ConfigError>(
                    RenderSettings { image_width, image_height, samples_per_pixel, max_depth },
                ),
            },
    {
        if image_width <= 0 {
            Err(ConfigError::NonPositiveWidth)
        } else if image_height <= 0 {
            Err(ConfigError::NonPositiveHeight)
        } else if samples_per_pixel <= 0 {
            Err(ConfigError::NonPositiveSamples)
        } else if max_depth <= 0 {
            Err(ConfigError::NonPositiveDepth)
        } else {
            Ok(RenderSettings { image_width, image_height, samples_per_pixel, max_depth })
        }
    }
}

} // verus!
