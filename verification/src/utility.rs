use vstd::prelude::*;
use crate::point::Point;
use crate::point::has_point;

verus! {

/// Order-sensitive, pairwise equality of two point vectors.
pub fn point_vectors_equal(vec_a: &Vec<Point>, vec_b: &Vec<Point>) -> (r: bool)
    ensures
        r == (vec_a@ == vec_b@),
{
    if vec_a.len() != vec_b.len() {
        return false;
    }
    let mut i: usize = 0;
    while i < vec_a.len()
        invariant
            i <= vec_a@.len(),
            vec_a@.len() == vec_b@.len(),
            forall|j: int| 0 <= j < i ==> vec_a@[j] == vec_b@[j],
        decreases vec_a@.len() - i,
    {
        let pa = vec_a[i];
        let pb = vec_b[i];
        if pa.x != pb.x || pa.y != pb.y {
            return false;
        }
        i += 1;
    }
    proof {
        assert(vec_a@ =~= vec_b@);
    }
    true
}

/// Whether `ps` holds a point equal to `p`.
pub fn points_contain(ps: &Vec<Point>, p: &Point) -> (r: bool)
    ensures
        r == has_point(ps@, p.x as int, p.y as int),
{
    let mut i: usize = 0;
    while i < ps.len()
        invariant
            i <= ps@.len(),
            forall|j: int| 0 <= j < i ==> !(ps@[j].x == p.x && ps@[j].y == p.y),
        decreases ps@.len() - i,
    {
        let q = ps[i];
        if q.x == p.x && q.y == p.y {
            return true;
        }
        i += 1;
    }
    false
}

/// The index of the first point of `ps` equal to `p`, if there is one.
pub fn find_point_index(ps: &Vec<Point>, p: &Point) -> (r: Option<usize>)
    ensures
        match r {
            Some(i) => {
                &&& i < ps@.len()
                &&& ps@[i as int].x == p.x
                &&& ps@[i as int].y == p.y
                &&& forall|j: int| 0 <= j < i ==> !(ps@[j].x == p.x && ps@[j].y == p.y)
            },
            None => !has_point(ps@, p.x as int, p.y as int),
        },
{
    let mut i: usize = 0;
    while i < ps.len()
        invariant
            i <= ps@.len(),
            forall|j: int| 0 <= j < i ==> !(ps@[j].x == p.x && ps@[j].y == p.y),
        decreases ps@.len() - i,
    {
        let q = ps[i];
        if q.x == p.x && q.y == p.y {
            return Some(i);
        }
        i += 1;
    }
    None
}

/// An element-wise copy of a point vector.
pub fn copy_points(ps: &Vec<Point>) -> (r: Vec<Point>)
    ensures
        r@ == ps@,
{
    let mut r: Vec<Point> = Vec::new();
    let mut i: usize = 0;
    while i < ps.len()
        invariant
            i <= ps@.len(),
            r@ == ps@.subrange(0, i as int),
        decreases ps@.len() - i,
    {
        r.push(ps[i]);
        proof {
            assert(r@ =~= ps@.subrange(0, i + 1 as int));
        }
        i += 1;
    }
    proof {
        assert(r@ =~= ps@);
    }
    r
}

} // verus!
