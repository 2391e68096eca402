use vstd::prelude::*;
use vstd::string::StringExecFns;

use crate::shape::Shape;

verus! {

/// One measure in a report: its label, `=`, its value and the unit `m`.
pub open spec fn measure_text(label: Seq<char>, value: Seq<char>) -> Seq<char> {
    label + "="@ + value + "m"@
}

/// The measures of a shape whose values are already written out, in the order
/// the shape declares them, separated by `, `.
pub open spec fn measures_text(shape: Shape<String>) -> Seq<char> {
    match shape {
        Shape::Square { side } => measure_text("s"@, side@),
        Shape::Rectangle { length, width } => measure_text("l"@, length@) + ", "@ + measure_text(
            "w"@,
            width@,
        ),
        Shape::Circle { radius } => measure_text("r"@, radius@),
        Shape::Cube { width, height, depth } => measure_text("w"@, width@) + ", "@ + measure_text(
            "h"@,
            height@,
        ) + ", "@ + measure_text("d"@, depth@),
        Shape::Sphere { radius } => measure_text("r"@, radius@),
    }
}

/// The one-line report on a shape: its kind, its measures and its area, and
/// for a solid its volume too. The volume text is not read for a flat shape.
pub open spec fn description(shape: Shape<String>, area: Seq<char>, volume: Seq<char>) -> Seq<
    char,
> {
    let head = "Aspects of "@ + shape.spec_kind().spec_name() + ": "@ + measures_text(shape)
        + ", area="@ + area + "m2"@;
    if shape.spec_kind().spec_is_solid() {
        head + ", volume="@ + volume + "m3"@
    } else {
        head
    }
}

fn push_measure(out: &mut String, label: &str, value: &String)
    ensures
        final(out)@ == old(out)@ + measure_text(label@, value@),
{
    out.append(label);
    out.append("=");
    out.append(value.as_str());
    out.append("m");
    assert(final(out)@ =~= old(out)@ + measure_text(label@, value@));
}

/// Writes the report on `shape`, whose measures are given as text, with the
/// area and (for a solid) the volume written out by the caller.
pub fn describe(shape: &Shape<String>, area: &str, volume: &str) -> (r: String)
    ensures
        r@ == description(*shape, area@, volume@),
{
    let kind = shape.kind();
    let mut out = String::from_str("Aspects of ");
    out.append(kind.name());
    out.append(": ");
    let ghost start = out@;
    match shape {
        Shape::Square { side } => {
            push_measure(&mut out, "s", side);
        },
        Shape::Rectangle { length, width } => {
            push_measure(&mut out, "l", length);
            out.append(", ");
            push_measure(&mut out, "w", width);
        },
        Shape::Circle { radius } => {
            push_measure(&mut out, "r", radius);
        },
        Shape::Cube { width, height, depth } => {
            push_measure(&mut out, "w", width);
            out.append(", ");
            push_measure(&mut out, "h", height);
            out.append(", ");
            push_measure(&mut out, "d", depth);
        },
        Shape::Sphere { radius } => {
            push_measure(&mut out, "r", radius);
        },
    }
    assert(out@ =~= start + measures_text(*shape));
    out.append(", area=");
    out.append(area);
    out.append("m2");
    if kind.is_solid() {
        out.append(", volume=");
        out.append(volume);
        out.append("m3");
    }
    assert(out@ =~= description(*shape, area@, volume@));
    out
}

} // verus!
