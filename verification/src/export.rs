//! Export of normalised data in formats whose text needs no floating point.

use vstd::prelude::*;

use crate::archiver::types::NormalizedPVData;
use crate::text::{decimal_text, i64_text, push_str};

verus! {

broadcast use vstd::string::group_string_axioms;

/// Width of the SVG canvas.
pub const SVG_WIDTH: i32 = 800;
/// Height of the SVG canvas.
pub const SVG_HEIGHT: i32 = 400;
/// Margin around the plot.
pub const SVG_MARGIN: i32 = 50;
/// Width of the plot area.
pub const SVG_PLOT_WIDTH: i32 = 700;
/// Height of the plot area.
pub const SVG_PLOT_HEIGHT: i32 = 300;

/// The style block of the SVG document.
pub open spec fn svg_style() -> Seq<char> {
    "\n        <style>\n            .axis { stroke: #333; stroke-width: 1; }\n            .data { fill: none; stroke-width: 1.5; }\n            .label { font-family: Arial; font-size: 12px; }\n        </style>\n    "@
}

/// The SVG document for any data: the opening tag with the canvas size, the
/// style block and the closing tag.
pub open spec fn svg_document() -> Seq<char> {
    "<svg xmlns=\"http://www.w3.org/2000/svg\" viewBox=\"0 0 "@ + decimal_text(SVG_WIDTH as int)
        + " "@ + decimal_text(SVG_HEIGHT as int) + "\">"@ + svg_style() + "</svg>"@
}

/// Exports data as an SVG document.
pub fn export_to_svg(data: &[NormalizedPVData]) -> (r: Result<String, String>)
    ensures
        r matches Ok(s) && s@ == svg_document(),
{
    let mut svg = String::from_str("<svg xmlns=\"http://www.w3.org/2000/svg\" viewBox=\"0 0 ");
    let w = i64_text(SVG_WIDTH as i64);
    push_str(&mut svg, w.as_str());
    push_str(&mut svg, " ");
    let h = i64_text(SVG_HEIGHT as i64);
    push_str(&mut svg, h.as_str());
    push_str(&mut svg, "\">");
    push_str(
        &mut svg,
        "\n        <style>\n            .axis { stroke: #333; stroke-width: 1; }\n            .data { fill: none; stroke-width: 1.5; }\n            .label { font-family: Arial; font-size: 12px; }\n        </style>\n    ",
    );
    push_str(&mut svg, "</svg>");
    Ok(svg)
}

} // verus!
