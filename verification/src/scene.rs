//! Intersection of a ray with spheres, and the nearest hit in a scene.
use vstd::prelude::*;
use crate::scalar::{is_positive, less, lt, positive, rank};

verus! {

/// A ray measured against one sphere: the discriminant of the quadratic
/// `|P(t) - center|^2 = radius^2` and its two roots, the smaller one first.
/// All three are bit patterns of single-precision numbers.
#[derive(Clone, Copy, Debug, PartialEq, Eq, Structural)]
pub struct Crossing {
    pub discriminant: u32,
    pub near: u32,
    pub far: u32,
}

/// An intersection: the place of the struck primitive in the scene, and the
/// distance along the ray.
#[derive(Clone, Copy, Debug, PartialEq, Eq, Structural)]
pub struct Hit {
    pub index: usize,
    pub t: u32,
}

/// `t_min < t < t_max`.
pub open spec fn within(t: u32, t_min: u32, t_max: u32) -> bool {
    less(t_min, t) && less(t, t_max)
}

impl Crossing {
    /// The roots are in order: the far one is not below the near one.
    pub open spec fn ordered(self) -> bool {
        !less(self.far, self.near)
    }

    /// The distance at which the ray strikes the sphere inside the open
    /// interval: with a positive discriminant the near root if it lies
    /// inside, else the far root if that one does.
    pub open spec fn hit_within(self, t_min: u32, t_max: u32) -> Option<u32> {
        if !positive(self.discriminant) {
            None
        } else if within(self.near, t_min, t_max) {
            Some(self.near)
        } else if within(self.far, t_min, t_max) {
            Some(self.far)
        } else {
            None
        }
    }

    /// Tests the sphere against the open interval `(t_min, t_max)`.
    pub fn intersect(&self, t_min: u32, t_max: u32) -> (t: Option<u32>)
        ensures
            t == self.hit_within(t_min, t_max),
            !positive(self.discriminant) ==> t is None,
            t matches Some(d) ==> within(d, t_min, t_max) && (d == self.near || d == self.far),
    {
        if !is_positive(self.discriminant) {
            None
        } else if lt(t_min, self.near) && lt(self.near, t_max) {
            Some(self.near)
        } else if lt(t_min, self.far) && lt(self.far, t_max) {
            Some(self.far)
        } else {
            None
        }
    }
}

/// The upper end of the interval that is left once `found` is the closest
/// hit so far.
pub open spec fn limit_after(found: Option<(int, u32)>, t_max: u32) -> u32 {
    match found {
        Some((_, t)) => t,
        None => t_max,
    }
}

/// The hit that a scan of the scene in order keeps: each primitive is tested
/// against the interval that ends at the closest hit before it.
pub open spec fn scan(scene: Seq<Crossing>, t_min: u32, t_max: u32) -> Option<(int, u32)>
    decreases scene.len(),
{
    if scene.len() == 0 {
        None
    } else {
        let before = scan(scene.drop_last(), t_min, t_max);
        match scene.last().hit_within(t_min, limit_after(before, t_max)) {
            Some(t) => Some((scene.len() - 1, t)),
            None => before,
        }
    }
}

/// `found` is the nearest hit of the scene in `(t_min, t_max)`: no primitive
/// is struck closer, and every primitive before it is struck strictly farther.
pub open spec fn is_nearest(
    scene: Seq<Crossing>,
    t_min: u32,
    t_max: u32,
    found: Option<(int, u32)>,
) -> bool {
    match found {
        None => forall|i: int|
            0 <= i < scene.len() ==> (#[trigger] scene[i]).hit_within(t_min, t_max) is None,
        Some((k, t)) => {
            &&& 0 <= k < scene.len()
            &&& scene[k].hit_within(t_min, t_max) == Some(t)
            &&& forall|i: int|
                0 <= i < scene.len() ==> match (#[trigger] scene[i]).hit_within(t_min, t_max) {
                    Some(d) => !less(d, t) && (i < k ==> less(t, d)),
                    None => true,
                }
        },
    }
}

/// The nearest intersection of a ray with the scene inside `(t_min, t_max)`.
pub fn intersect(scene: &Vec<Crossing>, t_min: u32, t_max: u32) -> (hit: Option<Hit>)
    ensures
        match hit {
            Some(h) => scan(scene@, t_min, t_max) == Some((h.index as int, h.t)),
            None => scan(scene@, t_min, t_max) is None,
        },
        scene.len() == 0 ==> hit is None,
        hit matches Some(h) ==> h.index < scene.len() && within(h.t, t_min, t_max),
        (forall|i: int| 0 <= i < scene.len() ==> (#[trigger] scene[i]).ordered()) ==> is_nearest(
            scene@,
            t_min,
            t_max,
            scan(scene@, t_min, t_max),
        ),
{
    let mut closest: u32 = t_max;
    let mut found: Option<Hit> = None;
    let mut i: usize = 0;
    proof {
        assert(scene@.subrange(0, 0) =~= Seq::<Crossing>::empty());
    }
    while i < scene.len()
        invariant
            i <= scene.len(),
            match found {
                Some(h) => scan(scene@.subrange(0, i as int), t_min, t_max) == Some(
                    (h.index as int, h.t),
                ) && closest == h.t && h.index < i && within(h.t, t_min, t_max),
                None => scan(scene@.subrange(0, i as int), t_min, t_max) is None && closest
                    == t_max,
            },
        decreases scene.len() - i,
    {
        proof {
            let next = scene@.subrange(0, i + 1);
            assert(next.drop_last() =~= scene@.subrange(0, i as int));
            assert(next.last() == scene@[i as int]);
        }
        match scene[i].intersect(t_min, closest) {
            Some(t) => {
                proof {
                    crate::scalar::less_is_strict_order(t, closest, t_max);
                }
                closest = t;
                found = Some(Hit { index: i, t });
            },
            None => {},
        }
        i = i + 1;
    }
    proof {
        assert(scene@.subrange(0, scene.len() as int) =~= scene@);
        if forall|i: int| 0 <= i < scene.len() ==> (#[trigger] scene[i]).ordered() {
            scan_finds_nearest(scene@, t_min, t_max);
        }
    }
    found
}

/// Shrinking the interval to an earlier hit loses only hits that are not
/// closer than that hit.
proof fn shrunk_interval(c: Crossing, t_min: u32, t_max: u32, limit: u32)
    requires
        c.ordered(),
        limit == t_max || less(limit, t_max),
    ensures
        c.hit_within(t_min, limit) == match c.hit_within(t_min, t_max) {
            Some(t) => if less(t, limit) {
                Some(t)
            } else {
                None
            },
            None => None,
        },
{
}

/// With the roots of every crossing in order, the scan returns the nearest
/// intersection whatever the order of the primitives; where two primitives
/// are struck at the same distance, the one that stands first is returned;
/// and nothing is returned only where no primitive is struck in the interval.
pub proof fn scan_finds_nearest(scene: Seq<Crossing>, t_min: u32, t_max: u32)
    requires
        forall|i: int| 0 <= i < scene.len() ==> (#[trigger] scene[i]).ordered(),
    ensures
        is_nearest(scene, t_min, t_max, scan(scene, t_min, t_max)),
    decreases scene.len(),
{
    if scene.len() > 0 {
        let front = scene.drop_last();
        let c = scene.last();
        assert(forall|i: int| 0 <= i < front.len() ==> front[i] == scene[i]);
        scan_finds_nearest(front, t_min, t_max);
        let before = scan(front, t_min, t_max);
        let limit = limit_after(before, t_max);
        shrunk_interval(c, t_min, t_max, limit);
        let found = scan(scene, t_min, t_max);
        match found {
            None => {
                assert forall|i: int| 0 <= i < scene.len() implies (#[trigger] scene[i]).hit_within(
                    t_min,
                    t_max,
                ) is None by {
                    if i < front.len() {
                        assert(front[i] == scene[i]);
                    }
                }
            },
            Some((k, t)) => {
                assert forall|i: int| 0 <= i < scene.len() implies match (#[trigger] scene[i]).hit_within(
                    t_min,
                    t_max,
                ) {
                    Some(d) => !less(d, t) && (i < k ==> less(t, d)),
                    None => true,
                } by {
                    if i < front.len() {
                        assert(front[i] == scene[i]);
                    }
                }
            },
        }
    }
}

/// Two scenes that hold the same primitives, in whatever order, are struck
/// at the same nearest distance, or both not at all.
pub proof fn nearest_ignores_order(a: Seq<Crossing>, b: Seq<Crossing>, t_min: u32, t_max: u32)
    requires
        forall|i: int| 0 <= i < a.len() ==> (#[trigger] a[i]).ordered(),
        forall|i: int| 0 <= i < a.len() ==> b.contains(#[trigger] a[i]),
        forall|j: int| 0 <= j < b.len() ==> a.contains(#[trigger] b[j]),
    ensures
        scan(a, t_min, t_max) is None <==> scan(b, t_min, t_max) is None,
        match (scan(a, t_min, t_max), scan(b, t_min, t_max)) {
            (Some((_, ta)), Some((_, tb))) => rank(ta) == rank(tb),
            _ => true,
        },
{
    assert forall|j: int| 0 <= j < b.len() implies (#[trigger] b[j]).ordered() by {
        let i = choose|i: int| 0 <= i < a.len() && a[i] == b[j];
        assert(a[i].ordered());
    }
    scan_finds_nearest(a, t_min, t_max);
    scan_finds_nearest(b, t_min, t_max);
    match scan(a, t_min, t_max) {
        Some((ka, ta)) => {
            assert(b.contains(a[ka]));
            let j = choose|j: int| 0 <= j < b.len() && b[j] == a[ka];
            assert(b[j].hit_within(t_min, t_max) == Some(ta));
        },
        None => {},
    }
    match scan(b, t_min, t_max) {
        Some((kb, tb)) => {
            assert(a.contains(b[kb]));
            let i = choose|i: int| 0 <= i < a.len() && a[i] == b[kb];
            assert(a[i].hit_within(t_min, t_max) == Some(tb));
        },
        None => {},
    }
}

/// A hit lies at a positive distance wherever the interval starts at zero
/// or above.
pub proof fn hit_is_ahead(c: Crossing, t_min: u32, t_max: u32)
    requires
        !less(t_min, crate::scalar::ZERO),
    ensures
        c.hit_within(t_min, t_max) matches Some(t) ==> positive(t),
{
}

/// A scene in which no primitive is struck inside the interval gives no hit.
pub proof fn no_crossing_no_hit(scene: Seq<Crossing>, t_min: u32, t_max: u32)
    requires
        forall|i: int|
            0 <= i < scene.len() ==> (#[trigger] scene[i]).hit_within(t_min, t_max) is None,
    ensures
        scan(scene, t_min, t_max) is None,
    decreases scene.len(),
{
    if scene.len() > 0 {
        let front = scene.drop_last();
        assert(forall|i: int| 0 <= i < front.len() ==> front[i] == scene[i]);
        no_crossing_no_hit(front, t_min, t_max);
        assert(scene.last() == scene[scene.len() - 1]);
    }
}

} // verus!
