//! The per-actor field-of-view record: radius, dirty flag, and the set of
//! positions currently in view.

use vstd::prelude::*;

verus! {

use crate::position::Position2d;

/// The field of view of one actor: the radius it can see, whether the cached
/// result is stale, and the set of positions currently in view.
#[derive(Debug, Clone, PartialEq, Eq, Hash)]
pub struct Fov {
    /// The radius of the field of view.
    pub radius: i32,
    /// Whether the field of view needs to be recalculated before use.
    pub is_dirty: bool,
    /// The positions currently in the field of view. Managed by the field
    /// of view engine; read it through `positions` and `contains`.
    pub coordinates: Vec<(i32, i32)>,
}

impl Fov {
    /// The positions currently in view, as a mathematical sequence.
    pub open spec fn coords(self) -> Seq<(i32, i32)> {
        self.coordinates@
    }

    /// Whether the position `p` is in the field of view.
    pub open spec fn contains_pos(self, p: (i32, i32)) -> bool {
        self.coords().contains(p)
    }

    /// Creates a new field of view with the passed `radius`. The dirty flag
    /// starts out set, to trigger an immediate first calculation.
    pub fn new(radius: i32) -> (r: Self)
        ensures
            r.radius == radius,
            r.is_dirty,
            r.coords().len() == 0,
    {
        Self { radius, is_dirty: true, coordinates: Vec::new() }
    }

    /// The positions currently in the field of view.
    pub fn positions(&self) -> (r: &Vec<(i32, i32)>)
        ensures
            r@ == self.coords(),
    {
        &self.coordinates
    }

    /// Adds the passed `position` to the field of view.
    pub fn push_position<P: Position2d>(&mut self, position: &P)
        ensures
            final(self).radius == old(self).radius,
            final(self).is_dirty == old(self).is_dirty,
            final(self).coords() == old(self).coords().push(
                ((position.pos_x() as i32), (position.pos_y() as i32)),
            ),
    {
        self.coordinates.push(position.as_tuple());
    }

    /// Checks if the passed `position` is in the field of view.
    pub fn contains<P: Position2d>(&self, position: &P) -> (r: bool)
        ensures
            r == self.contains_pos(((position.pos_x() as i32), (position.pos_y() as i32))),
    {
        let x = position.x_coordinate();
        let y = position.y_coordinate();
        proof {
            assert(x == position.pos_x() as i32);
            assert(y == position.pos_y() as i32);
        }
        let n = self.coordinates.len();
        let mut i: usize = 0;
        while i < n
            invariant
                n == self.coords().len(),
                0 <= i <= n,
                x == position.pos_x() as i32,
                y == position.pos_y() as i32,
                forall|j: int| 0 <= j < i ==> #[trigger] self.coords()[j] != (x, y),
            decreases n - i,
        {
            let c = self.coordinates[i];
            if c.0 == x && c.1 == y {
                proof {
                    assert(self.coords()[i as int] == (x, y));
                    assert(self.coords().contains((x, y)));
                }
                return true;
            }
            i = i + 1;
        }
        assert(!self.coords().contains((x, y)));
        false
    }

    /// Removes every position currently in the field of view, making it
    /// empty.
    pub fn clear(&mut self)
        ensures
            final(self).radius == old(self).radius,
            final(self).is_dirty == old(self).is_dirty,
            final(self).coords().len() == 0,
    {
        self.coordinates.clear();
    }
}

/// Membership in a sequence extended by `push`: the new sequence contains
/// exactly the old members and the pushed value.
pub proof fn lemma_push_contains(s: Seq<(i32, i32)>, v: (i32, i32), p: (i32, i32))
    ensures
        s.push(v).contains(p) <==> (s.contains(p) || p == v),
{
    if s.contains(p) {
        let i = choose|i: int| 0 <= i < s.len() && s[i] == p;
        assert(s.push(v)[i] == p);
    }
    if p == v {
        assert(s.push(v)[s.len() as int] == p);
    }
    if s.push(v).contains(p) {
        let i = choose|i: int| 0 <= i < s.push(v).len() && s.push(v)[i] == p;
        if i < s.len() {
            assert(s[i] == p);
        }
    }
}

} // verus!
