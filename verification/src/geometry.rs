//! Distances between block positions.

use vstd::prelude::*;

verus! {

/// A position coordinate as the signed machine integer it is read as.
pub open spec fn signed(c: usize) -> int {
    (c as isize) as int
}

pub open spec fn abs(v: int) -> int {
    if v < 0 { -v } else { v }
}

/// The taxicab distance between two positions, each coordinate read as a signed
/// machine integer.
pub open spec fn manhattan(p1: [usize; 3], p2: [usize; 3]) -> int {
    abs(signed(p1[0]) - signed(p2[0])) + abs(signed(p1[1]) - signed(p2[1])) + abs(
        signed(p1[2]) - signed(p2[2]),
    )
}

fn abs_diff(a: isize, b: isize) -> (r: isize)
    requires
        abs(a - b) <= isize::MAX,
    ensures
        r == abs(a - b),
{
    let d = a as i128 - b as i128;
    if d < 0 {
        (-d) as isize
    } else {
        d as isize
    }
}

/// The taxicab distance between two block positions, as a `u32` (the value
/// modulo 2^32).
pub fn distance(p1: &[usize; 3], p2: &[usize; 3]) -> (d: u32)
    requires
        manhattan(*p1, *p2) <= isize::MAX,
    ensures
        d == manhattan(*p1, *p2) as u32,
{
    let dx = abs_diff(p1[0] as isize, p2[0] as isize);
    let dy = abs_diff(p1[1] as isize, p2[1] as isize);
    let dz = abs_diff(p1[2] as isize, p2[2] as isize);
    let total = dx + dy + dz;
    total as u32
}

/// Law: the distance from a position to another is the distance back.
pub proof fn law_distance_symmetric(p1: [usize; 3], p2: [usize; 3])
    ensures
        manhattan(p1, p2) == manhattan(p2, p1),
{
}

/// Law: a position is at distance zero from itself, and at a positive distance
/// from any other position (for coordinates within the signed range).
pub proof fn law_distance_zero(p1: [usize; 3], p2: [usize; 3])
    requires
        forall|i: int| 0 <= i < 3 ==> p1[i] <= isize::MAX && p2[i] <= isize::MAX,
    ensures
        (manhattan(p1, p2) == 0) <==> (p1 == p2),
{
    assert(signed(p1[0]) == p1[0] && signed(p2[0]) == p2[0]);
    assert(signed(p1[1]) == p1[1] && signed(p2[1]) == p2[1]);
    assert(signed(p1[2]) == p1[2] && signed(p2[2]) == p2[2]);
    if manhattan(p1, p2) == 0 {
        assert(p1@ =~= p2@);
        vstd::array::axiom_array_ext_equal(p1, p2);
    }
}

/// Law: going through a third position is never shorter.
pub proof fn law_distance_triangle(p1: [usize; 3], p2: [usize; 3], p3: [usize; 3])
    ensures
        manhattan(p1, p3) <= manhattan(p1, p2) + manhattan(p2, p3),
{
}

} // verus!
