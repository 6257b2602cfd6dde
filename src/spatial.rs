//! The gravity direction of a spatial simulation: three axes, `x`, `y` and `z`.
use vstd::prelude::*;

use crate::Scalar;

verus! {

/// A vector of space.
#[derive(Clone, Copy, Debug, PartialEq, Eq, Structural)]
pub struct Vector {
    pub x: Scalar,
    pub y: Scalar,
    pub z: Scalar,
}

impl Vector {
    /// Coordinate `k` of the vector: `x` for 0, `y` for 1, `z` for 2.
    pub open spec fn axis(self, k: int) -> Scalar {
        if k == 0 {
            self.x
        } else if k == 1 {
            self.y
        } else {
            self.z
        }
    }
}

impl Default for Vector {
    /// The zero vector.
    fn default() -> (r: Vector)
        ensures
            r == (Vector { x: 0, y: 0, z: 0 }),
    {
        Vector { x: 0, y: 0, z: 0 }
    }
}

/// One write through the setters of [`GravityDirection`].
pub enum Update {
    /// `set`: the whole vector.
    Whole(Vector),
    /// `set_xyz`: all three axes.
    Xyz(Scalar, Scalar, Scalar),
    /// `set_x`.
    X(Scalar),
    /// `set_y`.
    Y(Scalar),
    /// `set_z`.
    Z(Scalar),
}

impl Update {
    /// The vector that this write leaves behind when it lands on `v`.
    pub open spec fn apply(self, v: Vector) -> Vector {
        match self {
            Update::Whole(w) => w,
            Update::Xyz(x, y, z) => Vector { x, y, z },
            Update::X(x) => Vector { x, y: v.y, z: v.z },
            Update::Y(y) => Vector { x: v.x, y, z: v.z },
            Update::Z(z) => Vector { x: v.x, y: v.y, z },
        }
    }

    /// Whether this write touches axis `k`.
    pub open spec fn writes(self, k: int) -> bool {
        match self {
            Update::Whole(_) => true,
            Update::Xyz(_, _, _) => true,
            Update::X(_) => k == 0,
            Update::Y(_) => k == 1,
            Update::Z(_) => k == 2,
        }
    }

    /// The value that this write gives axis `k`, where it touches it.
    pub open spec fn value(self, k: int) -> Scalar {
        match self {
            Update::Whole(w) => w.axis(k),
            Update::Xyz(x, y, z) => Vector { x, y, z }.axis(k),
            Update::X(x) => x,
            Update::Y(y) => y,
            Update::Z(z) => z,
        }
    }
}

/// The vector after the writes `us`, in order, starting from `start`.
pub open spec fn replay(start: Vector, us: Seq<Update>) -> Vector
    decreases us.len(),
{
    if us.len() == 0 {
        start
    } else {
        us.last().apply(replay(start, us.drop_last()))
    }
}

/// Last write wins: after any sequence of writes, each axis holds the value
/// of the last write that touched it, or its starting value where none did.
/// Nothing else is kept that a later read could see.
pub proof fn lemma_last_write_wins(start: Vector, us: Seq<Update>, k: int)
    requires
        0 <= k < 3,
    ensures
        forall|i: int|
            #![trigger us[i].writes(k)]
            0 <= i < us.len() && us[i].writes(k) && (forall|j: int|
                i < j < us.len() ==> !us[j].writes(k)) ==> replay(start, us).axis(k)
                == us[i].value(k),
        (forall|j: int| 0 <= j < us.len() ==> !us[j].writes(k)) ==> replay(start, us).axis(k)
            == start.axis(k),
    decreases us.len(),
{
    if us.len() > 0 {
        let init = us.drop_last();
        lemma_last_write_wins(start, init, k);
        assert forall|i: int|
            #![trigger us[i].writes(k)]
            0 <= i < us.len() && us[i].writes(k) && (forall|j: int|
                i < j < us.len() ==> !us[j].writes(k)) implies replay(start, us).axis(k)
            == us[i].value(k) by {
            if i < us.len() - 1 {
                assert(init[i] == us[i]);
                assert forall|j: int| i < j < init.len() implies !init[j].writes(k) by {
                    assert(init[j] == us[j]);
                }
            }
        }
        if forall|j: int| 0 <= j < us.len() ==> !us[j].writes(k) {
            assert forall|j: int| 0 <= j < init.len() implies !init[j].writes(k) by {
                assert(init[j] == us[j]);
            }
        }
    }
}

/// The direction, and magnitude, of the gravity that acts on an entity.
#[derive(Clone, Copy, Debug)]
pub struct GravityDirection(pub Vector);

impl Default for GravityDirection {
    /// Gravity of zero along every axis.
    fn default() -> (r: GravityDirection)
        ensures
            r.0 == (Vector { x: 0, y: 0, z: 0 }),
    {
        GravityDirection(Vector::default())
    }
}

impl GravityDirection {
    /// Makes the component from a vector.
    pub fn new(vec: Vector) -> (r: GravityDirection)
        ensures
            r.0 == vec,
    {
        GravityDirection(vec)
    }

    /// Makes the component from its three coordinates.
    pub fn from_xyz(x: Scalar, y: Scalar, z: Scalar) -> (r: GravityDirection)
        ensures
            r.0 == (Vector { x, y, z }),
    {
        GravityDirection(Vector { x, y, z })
    }

    /// The vector, for reading.
    pub fn as_vector(&self) -> (r: &Vector)
        ensures
            *r == self.0,
    {
        &self.0
    }

    /// The vector, for writing in place.
    pub fn as_vector_mut(&mut self) -> (r: &mut Vector)
        ensures
            *r == old(self).0,
            final(self).0 == *final(r),
    {
        &mut self.0
    }

    /// Replaces the whole vector.
    pub fn set(&mut self, vec: Vector)
        ensures
            final(self).0 == vec,
            final(self).0 == Update::Whole(vec).apply(old(self).0),
    {
        self.0 = vec;
    }

    /// Replaces all three coordinates.
    pub fn set_xyz(&mut self, x: Scalar, y: Scalar, z: Scalar)
        ensures
            final(self).0 == (Vector { x, y, z }),
            final(self).0 == Update::Xyz(x, y, z).apply(old(self).0),
    {
        self.0.x = x;
        self.0.y = y;
        self.0.z = z;
    }

    /// Replaces the `x` coordinate and keeps the others.
    pub fn set_x(&mut self, x: Scalar)
        ensures
            final(self).0 == (Vector { x, y: old(self).0.y, z: old(self).0.z }),
            final(self).0 == Update::X(x).apply(old(self).0),
    {
        self.0.x = x;
    }

    /// Replaces the `y` coordinate and keeps the others.
    pub fn set_y(&mut self, y: Scalar)
        ensures
            final(self).0 == (Vector { x: old(self).0.x, y, z: old(self).0.z }),
            final(self).0 == Update::Y(y).apply(old(self).0),
    {
        self.0.y = y;
    }

    /// Replaces the `z` coordinate and keeps the others.
    pub fn set_z(&mut self, z: Scalar)
        ensures
            final(self).0 == (Vector { x: old(self).0.x, y: old(self).0.y, z }),
            final(self).0 == Update::Z(z).apply(old(self).0),
    {
        self.0.z = z;
    }
}

} // verus!
