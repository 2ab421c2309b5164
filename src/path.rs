use vstd::prelude::*;

verus! {

/// One instruction of a path, in integer device coordinates.
#[derive(Clone, Copy, Debug, PartialEq, Eq, Structural)]
pub enum PathOp {
    /// Moves the cursor without drawing.
    MoveTo(i32, i32),
    /// A straight segment from the cursor to the point.
    LineTo(i32, i32),
    /// A full circle (sweep 0 to 2π) around the centre.
    Arc { x: i32, y: i32, radius: u32 },
    /// A segment back to the start of the current sub-path.
    Close,
}

/// The path through `points` in order: a move to the first, a line to each
/// later one, and, when `close` is set and there is a point, a closing segment.
pub open spec fn path_of(points: Seq<(i32, i32)>, close: bool) -> Seq<PathOp> {
    let visits = Seq::new(
        points.len(),
        |i: int|
            if i == 0 {
                PathOp::MoveTo(points[i].0, points[i].1)
            } else {
                PathOp::LineTo(points[i].0, points[i].1)
            },
    );
    if close && points.len() > 0 {
        visits.push(PathOp::Close)
    } else {
        visits
    }
}

/// Builds the path through `points`, closed when `close` is set.
pub fn build_path(points: &Vec<(i32, i32)>, close: bool) -> (r: Vec<PathOp>)
    ensures
        r@ == path_of(points@, close),
{
    let mut ops: Vec<PathOp> = Vec::new();
    let n = points.len();
    let mut i: usize = 0;
    while i < n
        invariant
            n == points@.len(),
            i <= n,
            ops@ == path_of(points@.take(i as int), false),
        decreases n - i,
    {
        let p = points[i];
        if i == 0 {
            ops.push(PathOp::MoveTo(p.0, p.1));
        } else {
            ops.push(PathOp::LineTo(p.0, p.1));
        }
        i += 1;
        assert(ops@ =~= path_of(points@.take(i as int), false));
    }
    assert(points@.take(n as int) =~= points@);
    if close && n > 0 {
        ops.push(PathOp::Close);
    }
    assert(ops@ =~= path_of(points@, close));
    ops
}

} // verus!
