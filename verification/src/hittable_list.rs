//! The world: an ordered collection of spheres, and the nearest hit among them.
use vstd::prelude::*;
use crate::hittable::HitRecord;
use crate::interval::Interval;
use crate::scalar::Scalar;
use crate::sphere::lemma_hit_is_least_root;
use crate::sphere::Roots;
use crate::sphere::Sphere;

verus! {

/// The spheres of a scene, in the order in which they were added.
pub struct HittableList {
    spheres: Vec<Sphere>,
}

impl View for HittableList {
    type V = Seq<Sphere>;

    closed spec fn view(&self) -> Seq<Sphere> {
        self.spheres@
    }
}

impl HittableList {
    /// What each sphere alone returns for the ray within `r_t`.
    pub open spec fn candidates(&self, r_t: Interval, roots: Seq<Roots>) -> Seq<Option<HitRecord>> {
        Seq::new(self@.len(), |i: int| self@[i].hit(r_t, &roots[i]))
    }

    /// Whether `c[k]` is the hit to return: none has a smaller parameter, and
    /// every earlier hit has a strictly larger one.
    pub open spec fn nearest_at(c: Seq<Option<HitRecord>>, k: int) -> bool {
        &&& 0 <= k < c.len()
        &&& c[k] is Some
        &&& forall|j: int| 0 <= j < c.len() && c[j] is Some ==> c[k].unwrap().t.le((#[trigger] c[j]).unwrap().t)
        &&& forall|j: int| 0 <= j < k && c[j] is Some ==> c[k].unwrap().t.lt((#[trigger] c[j]).unwrap().t)
    }

    pub fn new() -> (w: HittableList)
        ensures
            w@ == Seq::<Sphere>::empty(),
    {
        HittableList { spheres: Vec::new() }
    }

    pub fn add(&mut self, sphere: Sphere)
        ensures
            final(self)@ == old(self)@.push(sphere),
    {
        self.spheres.push(sphere);
    }

    pub fn len(&self) -> (n: usize)
        ensures
            n == self@.len(),
    {
        self.spheres.len()
    }

    pub fn is_empty(&self) -> (r: bool)
        ensures
            r == (self@.len() == 0),
    {
        self.len() == 0
    }

    pub fn clear(&mut self)
        ensures
            final(self)@ == Seq::<Sphere>::empty(),
    {
        self.spheres.clear();
    }

    /// The spheres, in order.
    pub fn spheres(&self) -> (s: &Vec<Sphere>)
        ensures
            s@ == self@,
    {
        &self.spheres
    }

    /// The nearest hit of a ray within `r_t`, given for each sphere, in
    /// order, the roots of the ray's quadratic. A later sphere replaces an
    /// earlier hit only with a strictly smaller parameter, so that of two
    /// hits at the same parameter the first sphere's is returned.
    pub fn hit(&self, r_t: Interval, roots: &Vec<Roots>) -> (r: Option<HitRecord>)
        requires
            roots.len() == self@.len(),
        ensures
            r is None <==> forall|i: int|
                0 <= i < self@.len() ==> #[trigger] self.candidates(r_t, roots@)[i] is None,
            r is Some ==> exists|k: int|
                HittableList::nearest_at(self.candidates(r_t, roots@), k) && self.candidates(
                    r_t,
                    roots@,
                )[k] == r,
    {
        let ghost c = self.candidates(r_t, roots@);
        let ghost mut k: int = 0;
        let mut best: Option<HitRecord> = None;
        let mut i: usize = 0;
        while i < self.spheres.len()
            invariant
                0 <= i <= self.spheres.len(),
                roots.len() == self@.len(),
                self@ == self.spheres@,
                c == self.candidates(r_t, roots@),
                c.len() == self@.len(),
                best is None ==> forall|j: int| 0 <= j < i ==> #[trigger] c[j] is None,
                best is Some ==> HittableList::nearest_at(c.take(i as int), k) && c[k] == best,
                forall|j: int| 0 <= j < i && c[j] is Some ==> !(#[trigger] c[j]).unwrap().t.is_nan(),
            decreases self.spheres.len() - i,
        {
            let found = self.spheres[i].hit(r_t, &roots[i]);
            assert(found == c[i as int]);
            let ghost before = c.take(i as int);
            let ghost after = c.take(i + 1);
            assert(forall|j: int| 0 <= j < i ==> after[j] == before[j]);
            assert(after[i as int] == c[i as int]);
            match found {
                Some(rec) => {
                    let closer = match best {
                        Some(b) => rec.t.lt(b.t),
                        None => true,
                    };
                    if closer {
                        best = Some(rec);
                        proof {
                            k = i as int;
                        }
                    }
                },
                None => {},
            }
            i = i + 1;
        }
        assert(c.take(i as int) == c);
        best
    }
}

/// The hit that the world returns is the nearest thing on the ray: no
/// sphere whose smaller root is not above its larger one has a root inside
/// the range that comes before it.
pub proof fn lemma_nearest_precedes_every_root(
    world: HittableList,
    r_t: Interval,
    roots: Seq<Roots>,
    k: int,
    j: int,
    root: Scalar,
)
    requires
        roots.len() == world@.len(),
        HittableList::nearest_at(world.candidates(r_t, roots), k),
        0 <= j < world@.len(),
        !roots[j].discriminant.lt(Scalar::zero()),
        roots[j].near.t.is_nan() || roots[j].far.t.is_nan() || roots[j].near.t.le(roots[j].far.t),
        root == roots[j].near.t || root == roots[j].far.t,
        r_t.contains(root),
    ensures
        world.candidates(r_t, roots)[k].unwrap().t.le(root),
{
    let c = world.candidates(r_t, roots);
    lemma_hit_is_least_root(world@[j], r_t, roots[j], root);
    assert(c[j] is Some);
}

/// Of the hit that the world returns, the material is that of the sphere
/// that was hit, and the parameter lies in the range.
pub proof fn lemma_nearest_is_of_its_sphere(
    world: HittableList,
    r_t: Interval,
    roots: Seq<Roots>,
    k: int,
)
    requires
        roots.len() == world@.len(),
        HittableList::nearest_at(world.candidates(r_t, roots), k),
    ensures
        world.candidates(r_t, roots)[k].unwrap().mat == world@[k].material(),
        r_t.contains(world.candidates(r_t, roots)[k].unwrap().t),
{
}

/// At most one candidate is the nearest.
pub proof fn lemma_nearest_is_unique(c: Seq<Option<HitRecord>>, k: int, l: int)
    requires
        HittableList::nearest_at(c, k),
        HittableList::nearest_at(c, l),
    ensures
        k == l,
{
    if k < l {
        assert(c[l].unwrap().t.lt(c[k].unwrap().t));
        assert(c[k].unwrap().t.le(c[l].unwrap().t));
    } else if l < k {
        assert(c[k].unwrap().t.lt(c[l].unwrap().t));
        assert(c[l].unwrap().t.le(c[k].unwrap().t));
    }
}

} // verus!
