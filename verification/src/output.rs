//! The image part of an analysis report.
use vstd::prelude::*;

verus! {

/// The size of the analysed image and the pixel total that the ratios of
/// the report are taken against.
#[derive(Debug, Clone, Copy, PartialEq, Eq, Structural)]
pub struct ImageData {
    pub width: u32,
    pub height: u32,
    pub pixels: u128,
}

impl ImageData {
    /// The image part of a report.
    pub fn new(width: u32, height: u32, pixels: u128) -> (r: ImageData)
        ensures
            r == (ImageData { width, height, pixels }),
    {
        ImageData { width, height, pixels }
    }

    /// The image part of a report for an image of the given size, whose
    /// pixel total is `width * height`, or 1 for an empty image so that
    /// ratios stay defined.
    pub fn from_size(width: u32, height: u32) -> (r: ImageData)
        ensures
            r.width == width,
            r.height == height,
            r.pixels == spec_pixel_total(width, height),
    {
        ImageData::new(width, height, pixel_total(width, height))
    }
}

/// `width * height`, or 1 when that product is 0.
pub open spec fn spec_pixel_total(width: u32, height: u32) -> int {
    if width * height == 0 {
        1
    } else {
        width * height
    }
}

/// The pixel total of an image of the given size: `width * height`, or 1
/// when the image is empty.
pub fn pixel_total(width: u32, height: u32) -> (r: u128)
    ensures
        r == spec_pixel_total(width, height),
{
    assert((width as int) * (height as int) <= 0xffff_ffff * 0xffff_ffff) by (nonlinear_arith)
        requires
            width <= 0xffff_ffff,
            height <= 0xffff_ffff,
    ;
    let product = (width as u128) * (height as u128);
    if product == 0 {
        1
    } else {
        product
    }
}

/// Which outputs a tally produces.
#[derive(Debug, Clone, Copy, PartialEq, Eq, Structural)]
pub struct OutputPlan {
    /// Build the JSON report.
    pub build_json: bool,
    /// Print the JSON report to stdout.
    pub print_json: bool,
    /// Write the JSON report to the file given with `--json-output`.
    pub write_json: bool,
    /// Print the formatted text to stdout.
    pub print_text: bool,
}

/// The outputs for the options `--json`, `--json-output <PATH>` and
/// `--no-print`: the JSON report is built when it is printed or written,
/// printed with `--json` (even with `--no-print`), written when a path is
/// given, and the formatted text is printed unless `--no-print` is given.
pub fn output_plan(json: bool, json_output_given: bool, no_print: bool) -> (r: OutputPlan)
    ensures
        r.build_json == (json || json_output_given),
        r.print_json == json,
        r.write_json == json_output_given,
        r.print_text == !no_print,
{
    OutputPlan {
        build_json: json || json_output_given,
        print_json: json,
        write_json: json_output_given,
        print_text: !no_print,
    }
}

} // verus!
