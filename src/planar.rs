//! The gravity direction of a planar simulation: two axes, `x` and `y`.
use vstd::prelude::*;

use crate::Scalar;

verus! {

/// A vector of the plane.
#[derive(Clone, Copy, Debug, PartialEq, Eq, Structural)]
pub struct Vector {
    pub x: Scalar,
    pub y: Scalar,
}

impl Vector {
    /// Coordinate `k` of the vector: `x` for 0, `y` for 1.
    pub open spec fn axis(self, k: int) -> Scalar {
        if k == 0 {
            self.x
        } else {
            self.y
        }
    }
}

impl Default for Vector {
    /// The zero vector.
    fn default() -> (r: Vector)
        ensures
            r == (Vector { x: 0, y: 0 }),
    {
        Vector { x: 0, y: 0 }
    }
}

/// One write through the setters of [`GravityDirection`].
pub enum Update {
    /// `set`: the whole vector.
    Whole(Vector),
    /// `set_xy`: both axes.
    Xy(Scalar, Scalar),
    /// `set_x`.
    X(Scalar),
    /// `set_y`.
    Y(Scalar),
}

impl Update {
    /// The vector that this write leaves behind when it lands on `v`.
    pub open spec fn apply(self, v: Vector) -> Vector {
        match self {
            Update::Whole(w) => w,
            Update::Xy(x, y) => Vector { x, y },
            Update::X(x) => Vector { x, y: v.y },
            Update::Y(y) => Vector { x: v.x, y },
        }
    }

    /// Whether this write touches axis `k`.
    pub open spec fn writes(self, k: int) -> bool {
        match self {
            Update::Whole(_) => true,
            Update::Xy(_, _) => true,
            Update::X(_) => k == 0,
            Update::Y(_) => k == 1,
        }
    }

    /// The value that this write gives axis `k`, where it touches it.
    pub open spec fn value(self, k: int) -> Scalar {
        match self {
            Update::Whole(w) => w.axis(k),
            Update::Xy(x, y) => Vector { x, y }.axis(k),
            Update::X(x) => x,
            Update::Y(y) => y,
        }
    }
}

/// The vector after the writes `us`, in order, starting from `start`.
pub open spec fn replay(start: Vector, us: Seq<Update>) -> Vector
    decreases us.len(),
{
    if us.len() == 0 {
        start
    } else {
        us.last().apply(replay(start, us.drop_last()))
    }
}

/// Last write wins: after any sequence of writes, each axis holds the value
/// of the last write that touched it, or its starting value where none did.
/// Nothing else is kept that a later read could see.
pub proof fn lemma_last_write_wins(start: Vector, us: Seq<Update>, k: int)
    requires
        0 <= k < 2,
    ensures
        forall|i: int|
            #![trigger us[i].writes(k)]
            0 <= i < us.len() && us[i].writes(k) && (forall|j: int|
                i < j < us.len() ==> !us[j].writes(k)) ==> replay(start, us).axis(k)
                == us[i].value(k),
        (forall|j: int| 0 <= j < us.len() ==> !us[j].writes(k)) ==> replay(start, us).axis(k)
            == start.axis(k),
    decreases us.len(),
{
    if us.len() > 0 {
        let init = us.drop_last();
        lemma_last_write_wins(start, init, k);
        assert forall|i: int|
            #![trigger us[i].writes(k)]
            0 <= i < us.len() && us[i].writes(k) && (forall|j: int|
                i < j < us.len() ==> !us[j].writes(k)) implies replay(start, us).axis(k)
            == us[i].value(k) by {
            if i < us.len() - 1 {
                assert(init[i] == us[i]);
                assert forall|j: int| i < j < init.len() implies !init[j].writes(k) by {
                    assert(init[j] == us[j]);
                }
            }
        }
        if forall|j: int| 0 <= j < us.len() ==> !us[j].writes(k) {
            assert forall|j: int| 0 <= j < init.len() implies !init[j].writes(k) by {
                assert(init[j] == us[j]);
            }
        }
    }
}

/// The direction, and magnitude, of the gravity that acts on an entity.
#[derive(Clone, Copy, Debug)]
pub struct GravityDirection(pub Vector);

impl Default for GravityDirection {
    /// Gravity of zero along every axis.
    fn default() -> (r: GravityDirection)
        ensures
            r.0 == (Vector { x: 0, y: 0 }),
    {
        GravityDirection(Vector::default())
    }
}

impl GravityDirection {
    /// Makes the component from a vector.
    pub fn new(vec: Vector) -> (r: GravityDirection)
        ensures
            r.0 == vec,
    {
        GravityDirection(vec)
    }

    /// Makes the component from its two coordinates.
    pub fn from_xy(x: Scalar, y: Scalar) -> (r: GravityDirection)
        ensures
            r.0 == (Vector { x, y }),
    {
        GravityDirection(Vector { x, y })
    }

    /// The vector, for reading.
    pub fn as_vector(&self) -> (r: &Vector)
        ensures
            *r == self.0,
    {
        &self.0
    }

    /// The vector, for writing in place.
    pub fn as_vector_mut(&mut self) -> (r: &mut Vector)
        ensures
            *r == old(self).0,
            final(self).0 == *final(r),
    {
        &mut self.0
    }

    /// Replaces the whole vector.
    pub fn set(&mut self, vec: Vector)
        ensures
            final(self).0 == vec,
            final(self).0 == Update::Whole(vec).apply(old(self).0),
    {
        self.0 = vec;
    }

    /// Replaces both coordinates.
    pub fn set_xy(&mut self, x: Scalar, y: Scalar)
        ensures
            final(self).0 == (Vector { x, y }),
            final(self).0 == Update::Xy(x, y).apply(old(self).0),
    {
        self.0.x = x;
        self.0.y = y;
    }

    /// Replaces the `x` coordinate and keeps `y`.
    pub fn set_x(&mut self, x: Scalar)
        ensures
            final(self).0 == (Vector { x, y: old(self).0.y }),
            final(self).0 == Update::X(x).apply(old(self).0),
    {
        self.0.x = x;
    }

    /// Replaces the `y` coordinate and keeps `x`.
    pub fn set_y(&mut self, y: Scalar)
        ensures
            final(self).0 == (Vector { x: old(self).0.x, y }),
            final(self).0 == Update::Y(y).apply(old(self).0),
    {
        self.0.y = y;
    }
}

} // verus!
