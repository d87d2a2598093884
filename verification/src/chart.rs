//! The path that draws a window as one line across a chart.
//!
//! The chart is 100 units wide. The line enters from the left of it, at
//! `-10.0`, and leaves to the right of it, at `110.0`, so that its ends stay
//! out of sight.

use vstd::prelude::*;

verus! {

/// A point of the line, its coordinates written out as they go into the
/// path.
#[derive(Clone, Debug, PartialEq, Eq)]
pub struct PlotPoint {
    pub x: String,
    pub y: String,
}

/// The text that draws the line on to `point`.
pub open spec fn segment(point: PlotPoint) -> Seq<char> {
    " "@ + point.x@ + ","@ + point.y@
}

/// The text that draws the line through `points`, one after another.
pub open spec fn segments(points: Seq<PlotPoint>) -> Seq<char>
    decreases points.len(),
{
    if points.len() == 0 {
        Seq::empty()
    } else {
        segments(points.drop_last()) + segment(points.last())
    }
}

/// The text that starts the line left of the chart, at the height `y`.
pub open spec fn lead_in(y: Seq<char>) -> Seq<char> {
    " -10.0,"@ + y
}

/// The text that ends the line right of the chart, at the height `y`.
pub open spec fn lead_out(y: Seq<char>) -> Seq<char> {
    " 110.0,"@ + y
}

/// The path data for `points`: the move command alone where there are none;
/// else the move command, the lead-in at the height of the first point, the
/// points, and the lead-out at the height of the last.
pub open spec fn path_of(points: Seq<PlotPoint>) -> Seq<char> {
    if points.len() == 0 {
        "M"@
    } else {
        "M"@ + lead_in(points.first().y@) + segments(points) + lead_out(points.last().y@)
    }
}

/// Writes the path data for `points`.
pub fn path_data(points: &Vec<PlotPoint>) -> (path: String)
    ensures
        path@ == path_of(points@),
{
    let mut path = String::from_str("M");
    let count = points.len();
    if count == 0 {
        return path;
    }
    path.append(" -10.0,");
    path.append(points[0].y.as_str());
    let mut i: usize = 0;
    while i < count
        invariant
            i <= count,
            count == points@.len(),
            count >= 1,
            path@ == "M"@ + lead_in(points@[0].y@) + segments(points@.take(i as int)),
        decreases count - i,
    {
        path.append(" ");
        path.append(points[i].x.as_str());
        path.append(",");
        path.append(points[i].y.as_str());
        proof {
            let done = points@.take(i as int + 1);
            assert(done.drop_last() == points@.take(i as int));
            assert(done.last() == points@[i as int]);
            assert(path@ == "M"@ + lead_in(points@[0].y@) + segments(done));
        }
        i = i + 1;
    }
    assert(points@.take(count as int) == points@);
    path.append(" 110.0,");
    path.append(points[count - 1].y.as_str());
    path
}

} // verus!
