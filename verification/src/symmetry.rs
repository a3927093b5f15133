//! What the density field owes to the kernel being a function of distance
//! alone: the order of the particles does not matter, and a mirror image of
//! the particle set has the mirror image of its field.

use vstd::prelude::*;
use vstd::seq_lib::{commutative_foldl, lemma_fold_left_permutation};
use crate::kernel::{kernel_sum, poly6_weight, squared_distance};
use crate::particle::Particle;

verus! {

/// The places of the particles, vertical coordinate first, in their order.
pub open spec fn places(particles: Seq<Particle>) -> Seq<(int, int)> {
    Seq::new(particles.len(), |i: int| (particles[i].y as int, particles[i].x as int))
}

/// Adds to a running sum the weight that a particle at `place` has at the
/// point `(x, y)`.
pub open spec fn add_weight(h: int, y: int, x: int) -> spec_fn(int, (int, int)) -> int {
    |sum: int, place: (int, int)| sum + poly6_weight(h, squared_distance(place.0, place.1, y, x))
}

/// The sum of the weights that particles at `places` have at the point
/// `(x, y)`.
pub open spec fn place_sum(places: Seq<(int, int)>, h: int, y: int, x: int) -> int {
    places.fold_left(0int, add_weight(h, y, x))
}

/// A reflection of the plane: about the horizontal line at `about_y`, about
/// the vertical line at `about_x`, about both (a reflection about their
/// common point), or about neither.
pub struct Mirror {
    pub about_y: Option<int>,
    pub about_x: Option<int>,
}

impl Mirror {
    /// The image of a vertical coordinate.
    pub open spec fn image_y(self, y: int) -> int {
        match self.about_y {
            Some(c) => 2 * c - y,
            None => y,
        }
    }

    /// The image of a horizontal coordinate.
    pub open spec fn image_x(self, x: int) -> int {
        match self.about_x {
            Some(c) => 2 * c - x,
            None => x,
        }
    }

    /// The images of the `places`, in their order.
    pub open spec fn images(self, places: Seq<(int, int)>) -> Seq<(int, int)> {
        Seq::new(places.len(), |i: int| (self.image_y(places[i].0), self.image_x(places[i].1)))
    }

    /// Whether the particle set is its own mirror image: every place holds
    /// as many particles as its image does.
    pub open spec fn symmetric(self, particles: Seq<Particle>) -> bool {
        self.images(places(particles)).to_multiset() == places(particles).to_multiset()
    }

    /// Two particles of which one stands at the image of the other are a
    /// set that is its own mirror image.
    pub proof fn lemma_pair_symmetric(self, a: Particle, b: Particle)
        requires
            b.y == self.image_y(a.y as int),
            b.x == self.image_x(a.x as int),
        ensures
            self.symmetric(seq![a, b]),
    {
        let here = places(seq![a, b]);
        let there = self.images(here);
        assert(there =~= here.reverse());
        here.lemma_reverse_to_multiset();
    }

    /// A reflection keeps distances.
    pub proof fn lemma_distance_kept(self, y1: int, x1: int, y2: int, x2: int)
        ensures
            squared_distance(self.image_y(y1), self.image_x(x1), self.image_y(y2), self.image_x(x2))
                == squared_distance(y1, x1, y2, x2),
    {
        let dy = y1 - y2;
        let dx = x1 - x2;
        assert((-dy) * (-dy) == dy * dy) by (nonlinear_arith);
        assert((-dx) * (-dx) == dx * dx) by (nonlinear_arith);
        assert(self.image_y(y1) - self.image_y(y2) == dy || self.image_y(y1) - self.image_y(y2)
            == -dy);
        assert(self.image_x(x1) - self.image_x(x2) == dx || self.image_x(x1) - self.image_x(x2)
            == -dx);
    }

    /// The mirror image of a particle set has, at the image of a point, the
    /// sum that the set has at the point.
    pub proof fn lemma_place_sum_mirrored(self, places: Seq<(int, int)>, h: int, y: int, x: int)
        ensures
            place_sum(self.images(places), h, self.image_y(y), self.image_x(x)) == place_sum(
                places,
                h,
                y,
                x,
            ),
        decreases places.len(),
    {
        if places.len() > 0 {
            let last = places.last();
            assert(self.images(places).drop_last() =~= self.images(places.drop_last()));
            self.lemma_place_sum_mirrored(places.drop_last(), h, y, x);
            self.lemma_distance_kept(last.0, last.1, y, x);
        }
    }

    /// The density field of a particle set that is its own mirror image is
    /// its own mirror image too: the kernel sum at the image of a point is
    /// the kernel sum at the point.
    pub proof fn lemma_field_symmetric(self, particles: Seq<Particle>, h: int, y: int, x: int)
        requires
            self.symmetric(particles),
        ensures
            kernel_sum(particles, h, self.image_y(y), self.image_x(x)) == kernel_sum(
                particles,
                h,
                y,
                x,
            ),
    {
        let here = places(particles);
        let there = self.images(here);
        let y_image = self.image_y(y);
        let x_image = self.image_x(x);
        lemma_kernel_sum_by_places(particles, h, y, x);
        lemma_kernel_sum_by_places(particles, h, y_image, x_image);
        self.lemma_place_sum_mirrored(here, h, y, x);
        lemma_place_sum_any_order(there, here, h, y_image, x_image);
    }
}

/// The kernel sum of a particle set is the sum over its places: velocities
/// have no part in it.
pub proof fn lemma_kernel_sum_by_places(particles: Seq<Particle>, h: int, y: int, x: int)
    ensures
        kernel_sum(particles, h, y, x) == place_sum(places(particles), h, y, x),
    decreases particles.len(),
{
    if particles.len() > 0 {
        assert(places(particles).drop_last() =~= places(particles.drop_last()));
        lemma_kernel_sum_by_places(particles.drop_last(), h, y, x);
    }
}

/// The sum over places does not depend on their order.
pub proof fn lemma_place_sum_any_order(
    a: Seq<(int, int)>,
    b: Seq<(int, int)>,
    h: int,
    y: int,
    x: int,
)
    requires
        a.to_multiset() == b.to_multiset(),
    ensures
        place_sum(a, h, y, x) == place_sum(b, h, y, x),
{
    assert(commutative_foldl(add_weight(h, y, x)));
    lemma_fold_left_permutation(a, b, add_weight(h, y, x), 0int);
}

/// The kernel sum does not depend on the order of the particles, nor on
/// anything but where they are.
pub proof fn lemma_kernel_sum_any_order(
    a: Seq<Particle>,
    b: Seq<Particle>,
    h: int,
    y: int,
    x: int,
)
    requires
        places(a).to_multiset() == places(b).to_multiset(),
    ensures
        kernel_sum(a, h, y, x) == kernel_sum(b, h, y, x),
{
    lemma_kernel_sum_by_places(a, h, y, x);
    lemma_kernel_sum_by_places(b, h, y, x);
    lemma_place_sum_any_order(places(a), places(b), h, y, x);
}

} // verus!
