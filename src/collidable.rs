use vstd::prelude::*;
use crate::util::Vec2;

verus! {

/// Whether two axis-aligned rectangles, each given as
/// `(left, top, width, height)`, overlap. Touching edges count.
pub open spec fn rects_overlap(r1: (int, int, int, int), r2: (int, int, int, int)) -> bool {
    &&& r1.0 + r1.2 >= r2.0
    &&& r1.0 <= r2.0 + r2.2
    &&& r1.1 + r1.3 >= r2.1
    &&& r1.1 <= r2.1 + r2.3
}

/// The rectangle of an entity centred on `center` with the given size.
pub open spec fn bounds(center: Vec2, size: (u32, u32)) -> (int, int, int, int) {
    (
        center.x - size.0 / 2,
        center.y - size.1 / 2,
        size.0 as int,
        size.1 as int,
    )
}

/// An entity with a centre and a size, tested for overlap with others by its
/// bounding rectangle.
pub trait Collidable {
    spec fn center(&self) -> Vec2;

    spec fn extent(&self) -> (u32, u32);

    fn get_position(&self) -> (r: Vec2)
        ensures
            r == self.center(),
    ;

    fn get_size(&self) -> (r: (u32, u32))
        ensures
            r == self.extent(),
    ;
}

/// Whether the bounding rectangles of `a` and `b` overlap.
pub fn check_collision<A: Collidable, B: Collidable>(a: &A, b: &B) -> (r: bool)
    ensures
        r == rects_overlap(bounds(a.center(), a.extent()), bounds(b.center(), b.extent())),
{
    let p1 = a.get_position();
    let s1 = a.get_size();
    let p2 = b.get_position();
    let s2 = b.get_size();
    let x1: i128 = p1.x as i128 - (s1.0 / 2) as i128;
    let y1: i128 = p1.y as i128 - (s1.1 / 2) as i128;
    let x2: i128 = p2.x as i128 - (s2.0 / 2) as i128;
    let y2: i128 = p2.y as i128 - (s2.1 / 2) as i128;
    x1 + s1.0 as i128 >= x2 && x1 <= x2 + s2.0 as i128 && y1 + s1.1 as i128 >= y2 && y1 <= y2
        + s2.1 as i128
}

/// The overlap test does not depend on the order of its two rectangles.
pub proof fn lemma_overlap_symmetric(r1: (int, int, int, int), r2: (int, int, int, int))
    requires
        r1.2 >= 0 && r1.3 >= 0,
        r2.2 >= 0 && r2.3 >= 0,
    ensures
        rects_overlap(r1, r2) == rects_overlap(r2, r1),
{
}

/// Two rectangles that share a vertical or a horizontal boundary edge (one
/// ends exactly where the other begins, and they meet along the other axis)
/// are reported as overlapping, in either order.
pub proof fn lemma_touching_edges_overlap(r1: (int, int, int, int), r2: (int, int, int, int))
    requires
        r1.2 >= 0 && r1.3 >= 0,
        r2.2 >= 0 && r2.3 >= 0,
        ({
            ||| r1.0 + r1.2 == r2.0 && r1.1 <= r2.1 + r2.3 && r2.1 <= r1.1 + r1.3
            ||| r1.1 + r1.3 == r2.1 && r1.0 <= r2.0 + r2.2 && r2.0 <= r1.0 + r1.2
        }),
    ensures
        rects_overlap(r1, r2),
        rects_overlap(r2, r1),
{
}

} // verus!
