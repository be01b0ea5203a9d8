//! Verified core of pxTally, a tool that classifies and tallies the pixels of
//! an image by colour space.
//!
//! The modules hold the integer-valued rules of the tool: hue intervals that
//! wrap around the colour wheel, the hue filters of the cylindrical colour
//! spaces, the tally of distinct colours with their pixel counts, the
//! distribution of those counts over bins, the median bin search, the
//! memoised recolouring of an image, the parser of hue arguments, the
//! overwrite confirmation answers and the choice of the interface language.
pub mod angle;
pub mod config;
pub mod confirm;
pub mod filter;
pub mod locale;
pub mod output;
pub mod recolor;
pub mod stats;
pub mod tally;

pub use angle::{Angle, DegreeRange};
pub use filter::{CielabFilter, CielchFilter, HslFilter, OklabFilter, OklchFilter};
pub use output::ImageData;
pub use tally::ColorTally;
