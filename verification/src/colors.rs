//! Color resolution: pluggable hue and luminance formulas and the HSV
//! profile that turns them into pixel bytes.

pub mod color;
pub mod profiles;
pub mod shadows;
