//! Intersection records and their always-sorted collection, plus the
//! precomputed shading inputs for a chosen hit.

use vstd::prelude::*;

verus! {

use vstd::assert_multisets_equal;
use vstd::multiset::Multiset;
use vstd::seq_lib::group_to_multiset_ensures;
use crate::fixed::{lemma_fx_mul_s_bound, within, COORD_MAX};
use crate::ray::{spec_position_comp, Ray};
use crate::shapes::shape_enum::{RayInteractable, Shape};
use crate::tuple::{tuple_within, Tuple};

/// A ray parameter and the shape that produced it.
#[derive(Clone, Copy, Debug)]
pub struct Intersection {
    pub t: i64,
    pub object: Shape,
}

/// Ascending by `t`, allowing ties.
pub open spec fn spec_sorted(s: Seq<Intersection>) -> bool {
    forall|i: int, j: int| 0 <= i && i < j && j < s.len() ==> #[trigger] s[i].t <= #[trigger] s[j].t
}

/// The first record at or past index `i` whose `t` is nonnegative.
pub open spec fn spec_hit_from(s: Seq<Intersection>, i: int) -> Option<Intersection>
    decreases s.len() - i,
{
    if i < 0 || i >= s.len() {
        None
    } else if s[i].t >= 0 {
        Some(s[i])
    } else {
        spec_hit_from(s, i + 1)
    }
}

/// The first record in order whose `t` is nonnegative: on a sorted
/// collection, the lowest nonnegative `t`.
pub open spec fn spec_hit(s: Seq<Intersection>) -> Option<Intersection> {
    spec_hit_from(s, 0)
}

/// Insertion after every record whose `t` is at most the new one's:
/// the stable sorted-insertion of one record.
pub open spec fn spec_stable_insert(s: Seq<Intersection>, x: Intersection) -> Seq<Intersection>
    decreases s.len(),
{
    if s.len() == 0 {
        seq![x]
    } else if s[0].t <= x.t {
        seq![s[0]] + spec_stable_insert(s.drop_first(), x)
    } else {
        seq![x] + s
    }
}

/// Insertion sort in the model.  It is stable: each record lands after
/// every earlier record with equal `t`, so ties keep insertion order.
pub open spec fn spec_stable_sort(s: Seq<Intersection>) -> Seq<Intersection>
    decreases s.len(),
{
    if s.len() == 0 {
        Seq::empty()
    } else {
        spec_stable_insert(spec_stable_sort(s.drop_last()), s.last())
    }
}

/// Stable insertion into a sorted sequence keeps it sorted, adds the
/// record to the contents, and begins with the old head or the record.
pub proof fn lemma_stable_insert_props(s: Seq<Intersection>, x: Intersection)
    requires
        spec_sorted(s),
    ensures
        spec_sorted(spec_stable_insert(s, x)),
        spec_stable_insert(s, x).to_multiset() == s.to_multiset().insert(x),
        spec_stable_insert(s, x).len() == s.len() + 1,
        spec_stable_insert(s, x)[0] == x || (s.len() > 0 && spec_stable_insert(s, x)[0] == s[0]),
    decreases s.len(),
{
    broadcast use group_to_multiset_ensures;

    let r = spec_stable_insert(s, x);
    if s.len() == 0 {
        assert(seq![x] =~= Seq::<Intersection>::empty().push(x));
        assert_multisets_equal!(s.to_multiset(), Seq::<Intersection>::empty().to_multiset());
    } else if s[0].t <= x.t {
        let rest = s.drop_first();
        assert(spec_sorted(rest)) by {
            assert(forall|i: int, j: int|
                0 <= i && i < j && j < rest.len() ==> #[trigger] rest[i].t <= #[trigger] rest[j].t)
                by {
                assert(forall|i: int| 0 <= i < rest.len() ==> rest[i] == s[i + 1]);
            }
        }
        lemma_stable_insert_props(rest, x);
        let inner = spec_stable_insert(rest, x);
        assert(spec_sorted(r)) by {
            assert(forall|k: int| 0 <= k < inner.len() ==> r[k + 1] == inner[k]);
            assert(r[0] == s[0]);
            assert(inner[0] == x || inner[0] == rest[0]);
            assert(s[0].t <= inner[0].t);
        }
        assert(r.to_multiset() == s.to_multiset().insert(x)) by {
            vstd::seq_lib::lemma_multiset_commutative(seq![s[0]], inner);
            vstd::seq_lib::lemma_multiset_commutative(seq![s[0]], rest);
            assert(seq![s[0]] + rest =~= s);
            assert(seq![s[0]].to_multiset().add(inner.to_multiset()) =~= seq![
                s[0],
            ].to_multiset().add(rest.to_multiset()).insert(x));
        }
    } else {
        vstd::seq_lib::lemma_multiset_commutative(seq![x], s);
        assert(seq![x].to_multiset() =~= Multiset::<Intersection>::empty().insert(x)) by {
            assert(seq![x] =~= Seq::<Intersection>::empty().push(x));
            assert_multisets_equal!(
                Seq::<Intersection>::empty().to_multiset(),
                Multiset::<Intersection>::empty()
            );
        }
        assert_multisets_equal!(r.to_multiset(), s.to_multiset().insert(x));
    }
}

/// The model sort of any sequence is sorted and keeps the contents.
pub proof fn lemma_stable_sort_props(s: Seq<Intersection>)
    ensures
        spec_sorted(spec_stable_sort(s)),
        spec_stable_sort(s).to_multiset() == s.to_multiset(),
    decreases s.len(),
{
    broadcast use group_to_multiset_ensures;

    if s.len() == 0 {
        assert_multisets_equal!(
            spec_stable_sort(s).to_multiset(), s.to_multiset()
        );
    } else {
        lemma_stable_sort_props(s.drop_last());
        lemma_stable_insert_props(spec_stable_sort(s.drop_last()), s.last());
        assert(s =~= s.drop_last().push(s.last()));
        assert(s.to_multiset() == s.drop_last().to_multiset().insert(s.last()));
    }
}

/// Where a scan finds the first record with `t` above the new one's,
/// the stable insertion is the insertion at that index.
pub proof fn lemma_stable_insert_at(s: Seq<Intersection>, x: Intersection, i: int)
    requires
        0 <= i <= s.len(),
        forall|j: int| 0 <= j < i ==> #[trigger] s[j].t <= x.t,
        i < s.len() ==> s[i].t > x.t,
    ensures
        spec_stable_insert(s, x) == s.insert(i, x),
    decreases s.len(),
{
    s.insert_ensures(i, x);
    if i == 0 {
        if s.len() == 0 {
            assert(spec_stable_insert(s, x) =~= s.insert(0, x));
        } else {
            assert(spec_stable_insert(s, x) =~= s.insert(0, x));
        }
    } else {
        let rest = s.drop_first();
        assert(forall|j: int| 0 <= j < i - 1 ==> #[trigger] rest[j].t <= x.t) by {
            assert(forall|j: int| 0 <= j < rest.len() ==> rest[j] == s[j + 1]);
        }
        lemma_stable_insert_at(rest, x, i - 1);
        rest.insert_ensures(i - 1, x);
        assert(spec_stable_insert(s, x) =~= s.insert(i, x)) by {
            assert(forall|k: int|
                0 <= k < rest.insert(i - 1, x).len() ==> #[trigger] spec_stable_insert(s, x)[k + 1]
                    == rest.insert(i - 1, x)[k]);
        }
    }
}

impl Intersection {
    pub fn new(t: i64, obj: Shape) -> (r: Self)
        ensures
            r == (Intersection { t, object: obj }),
    {
        Intersection { t, object: obj }
    }

    /// The shading inputs for this hit: the world-space point, the eye
    /// vector (the reversed ray direction), and the surface normal
    /// there.  The parameter stays within the range whose points the
    /// normal computation accepts.
    pub fn prepare_computations(&self, ray: Ray) -> (r: Computations)
        requires
            tuple_within(ray.origin, COORD_MAX as int),
            tuple_within(ray.direction, COORD_MAX as int),
            within(self.t as int, 3_000_000_000),
        ensures
            r.t == self.t,
            r.object == self.object,
            r.point.x as int == spec_position_comp(
                ray.origin.x as int,
                ray.direction.x as int,
                self.t as int,
            ),
            r.point.y as int == spec_position_comp(
                ray.origin.y as int,
                ray.direction.y as int,
                self.t as int,
            ),
            r.point.z as int == spec_position_comp(
                ray.origin.z as int,
                ray.direction.z as int,
                self.t as int,
            ),
            r.point.w == ray.origin.w,
            r.eye_v.x as int == -(ray.direction.x as int),
            r.eye_v.y as int == -(ray.direction.y as int),
            r.eye_v.z as int == -(ray.direction.z as int),
            r.eye_v.w as int == -(ray.direction.w as int),
            r.normal_v == self.object.spec_normal(r.point),
    {
        proof {
            lemma_fx_mul_s_bound(
                ray.direction.x as int,
                self.t as int,
                COORD_MAX as int,
                3_000_000_000,
            );
            lemma_fx_mul_s_bound(
                ray.direction.y as int,
                self.t as int,
                COORD_MAX as int,
                3_000_000_000,
            );
            lemma_fx_mul_s_bound(
                ray.direction.z as int,
                self.t as int,
                COORD_MAX as int,
                3_000_000_000,
            );
        }
        let point = ray.position(self.t);
        let eye_v = ray.direction.neg();
        let shape = match self.object {
            Shape::Sphere(sphere) => sphere,
        };
        let normal_v = shape.normal_at(point);
        Computations::new(self.t, self.object, point, eye_v, normal_v)
    }
}

impl PartialEq for Intersection {
    /// Intersections compare by the parameter `t` alone.
    fn eq(&self, other: &Self) -> (r: bool) {
        self.t == other.t
    }
}

impl vstd::std_specs::cmp::PartialEqSpecImpl for Intersection {
    open spec fn obeys_eq_spec() -> bool {
        true
    }

    open spec fn eq_spec(&self, other: &Intersection) -> bool {
        self.t == other.t
    }
}

/// An ordered collection of intersections, kept ascending by `t` after
/// every insertion; ties keep their insertion order.
#[derive(Debug)]
pub struct Intersections {
    intersections: Vec<Intersection>,
}

/// Insert one record into a stably sorted vector at the first position
/// whose `t` exceeds the new one's.
fn insert_sorted(v: Vec<Intersection>, x: Intersection) -> (r: Vec<Intersection>)
    ensures
        r@ == spec_stable_insert(v@, x),
{
    let mut v = v;
    let ghost orig = v@;
    let mut i: usize = 0;
    while i < v.len() && v[i].t <= x.t
        invariant
            v@ == orig,
            i <= v@.len(),
            forall|j: int| 0 <= j < i ==> #[trigger] v@[j].t <= x.t,
        decreases v@.len() - i,
    {
        i = i + 1;
    }
    proof {
        lemma_stable_insert_at(v@, x, i as int);
    }
    v.insert(i, x);
    v
}

impl Intersections {
    /// The collection's contents, in order.
    pub closed spec fn spec_seq(&self) -> Seq<Intersection> {
        self.intersections@
    }

    pub fn new() -> (r: Self)
        ensures
            r.spec_seq() == Seq::<Intersection>::empty(),
    {
        Self { intersections: Vec::<Intersection>::new() }
    }

    /// Wrap and sort a batch of intersections; ties keep the order in
    /// which they arrived.
    pub fn new_from_vec(vec: Vec<Intersection>) -> (r: Self)
        ensures
            r.spec_seq() == spec_stable_sort(vec@),
            spec_sorted(r.spec_seq()),
            r.spec_seq().to_multiset() == vec@.to_multiset(),
    {
        let mut r = Intersections { intersections: vec };
        r.sort();
        r
    }

    pub fn len(&self) -> (r: usize)
        ensures
            r == self.spec_seq().len(),
    {
        self.intersections.len()
    }

    pub fn is_empty(&self) -> (r: bool)
        ensures
            r == (self.spec_seq().len() == 0),
    {
        self.intersections.len() == 0
    }

    /// The record at position `index`.
    pub fn at(&self, index: usize) -> (r: Intersection)
        requires
            index < self.spec_seq().len(),
        ensures
            r == self.spec_seq()[index as int],
    {
        self.intersections[index]
    }

    /// Add one record and restore the order; a tie goes after the
    /// records already present.
    pub fn push(&mut self, i: Intersection)
        ensures
            final(self).spec_seq() == spec_stable_sort(old(self).spec_seq().push(i)),
            spec_sorted(final(self).spec_seq()),
            final(self).spec_seq().to_multiset() == old(self).spec_seq().to_multiset().insert(i),
    {
        proof {
            broadcast use group_to_multiset_ensures;

        }
        self.intersections.push(i);
        self.sort();
    }

    /// Add a batch of records and restore the order; ties keep the
    /// order in which they arrived.
    pub fn push_vec(&mut self, vec: Vec<Intersection>)
        ensures
            final(self).spec_seq() == spec_stable_sort(old(self).spec_seq() + vec@),
            spec_sorted(final(self).spec_seq()),
            final(self).spec_seq().to_multiset() == old(self).spec_seq().to_multiset().add(
                vec@.to_multiset(),
            ),
    {
        let mut k: usize = 0;
        while k < vec.len()
            invariant
                k <= vec.len(),
                self.intersections@ == old(self).spec_seq() + vec@.take(k as int),
            decreases vec.len() - k,
        {
            proof {
                assert((old(self).spec_seq() + vec@.take(k as int)).push(vec@[k as int])
                    =~= old(self).spec_seq() + vec@.take(k as int + 1));
            }
            self.intersections.push(vec[k]);
            k = k + 1;
        }
        proof {
            assert(vec@.take(vec@.len() as int) =~= vec@);
            vstd::seq_lib::lemma_multiset_commutative(old(self).spec_seq(), vec@);
        }
        self.sort();
    }

    /// Sort ascending by `t`.  The result is the model's stable
    /// insertion sort, so records with equal `t` keep their order.
    pub fn sort(&mut self)
        ensures
            final(self).spec_seq() == spec_stable_sort(old(self).spec_seq()),
            spec_sorted(final(self).spec_seq()),
            final(self).spec_seq().to_multiset() == old(self).spec_seq().to_multiset(),
    {
        proof {
            lemma_stable_sort_props(old(self).spec_seq());
        }
        let ghost orig = self.intersections@;
        let mut out: Vec<Intersection> = Vec::new();
        let mut k: usize = 0;
        let n = self.intersections.len();
        while k < n
            invariant
                k <= n,
                n == self.intersections@.len(),
                self.intersections@ == orig,
                out@ == spec_stable_sort(orig.take(k as int)),
            decreases n - k,
        {
            let x = self.intersections[k];
            out = insert_sorted(out, x);
            proof {
                assert(orig.take(k as int + 1).drop_last() =~= orig.take(k as int));
                assert(orig.take(k as int + 1).last() == orig[k as int]);
            }
            k = k + 1;
        }
        proof {
            assert(orig.take(n as int) =~= orig);
        }
        self.intersections = out;
    }

    /// The hit: the first record in order with nonnegative `t`; `None`
    /// when the collection is empty or every `t` is negative.
    pub fn hit(&self) -> (r: Option<Intersection>)
        ensures
            r == spec_hit(self.spec_seq()),
    {
        let mut k: usize = 0;
        while k < self.intersections.len()
            invariant
                k <= self.intersections.len(),
                spec_hit_from(self.intersections@, 0) == spec_hit_from(
                    self.intersections@,
                    k as int,
                ),
            decreases self.intersections.len() - k,
        {
            if self.intersections[k].t >= 0 {
                return Some(self.intersections[k]);
            }
            k = k + 1;
        }
        None
    }
}

/// The precomputed shading inputs for one chosen hit.
pub struct Computations {
    pub t: i64,
    pub object: Shape,
    pub point: Tuple,
    pub eye_v: Tuple,
    pub normal_v: Tuple,
}

impl Computations {
    pub fn new(t: i64, object: Shape, point: Tuple, eye_v: Tuple, normal_v: Tuple) -> (r: Self)
        ensures
            r == (Computations { t, object, point, eye_v, normal_v }),
    {
        Computations { t, object, point, eye_v, normal_v }
    }
}

} // verus!
