//! The snake: a non-empty ordered sequence of grid cells, head first.

use vstd::prelude::*;
use crate::geometry::{Rgb, Vector2};

verus! {

/// Some non-head cell of `b` coincides exactly with the head `b[0]`.
pub open spec fn collides(b: Seq<Vector2>) -> bool {
    exists|i: int| 1 <= i < b.len() && #[trigger] b[i] == b[0]
}

/// The body after one follow-the-leader step by `dir`: the head moves by
/// `dir`, and every trailing segment takes the position its predecessor held
/// before the step.
pub open spec fn shifted(b: Seq<Vector2>, dir: Vector2) -> Seq<Vector2> {
    Seq::new(
        b.len(),
        |i: int|
            if i == 0 {
                Vector2 { x: (b[0].x + dir.x) as i32, y: (b[0].y + dir.y) as i32 }
            } else {
                b[i - 1]
            },
    )
}

/// The player's snake, plus a head color and a body color. The body is never
/// empty; `body[0]` is the head. Drawing is left to the embedding program.
pub struct Snake {
    pub body: Vec<Vector2>,
    pub color: Rgb,
    pub grow_color: Rgb,
}

impl Snake {
    /// The body is never empty.
    pub open spec fn well_formed(self) -> bool {
        self.body@.len() >= 1
    }

    /// Some non-head segment shares exact coordinates with the head.
    pub open spec fn self_collides(self) -> bool {
        collides(self.body@)
    }

    pub fn new(x: i32, y: i32, color: Rgb, grow_color: Rgb) -> (s: Snake)
        ensures
            s.body@.len() == 1,
            s.body@[0] == (Vector2 { x, y }),
            s.color == color,
            s.grow_color == grow_color,
            s.well_formed(),
    {
        Snake { body: vec![Vector2 { x, y }], color, grow_color }
    }

    /// Appends a new tail cell with the same coordinates as the current tail;
    /// the two overlap until the next update shifts them apart.
    pub fn grow(&mut self)
        requires
            old(self).well_formed(),
        ensures
            final(self).body@ == old(self).body@.push(
                old(self).body@[old(self).body@.len() - 1],
            ),
            final(self).body@.len() == old(self).body@.len() + 1,
            final(self).color == old(self).color,
            final(self).grow_color == old(self).grow_color,
            final(self).well_formed(),
    {
        let last_segment = self.body[self.body.len() - 1];
        self.body.push(Vector2 { x: last_segment.x, y: last_segment.y });
    }

    /// Linear scan: true iff any non-head cell shares exact coordinates with
    /// the head.
    pub fn check_collision(&self) -> (r: bool)
        requires
            self.well_formed(),
        ensures
            r == self.self_collides(),
    {
        let head = self.body[0];
        let mut i: usize = 1;
        while i < self.body.len()
            invariant
                1 <= i <= self.body@.len(),
                self.body@.len() >= 1,
                head == self.body@[0],
                forall|j: int| 1 <= j < i ==> #[trigger] self.body@[j] != self.body@[0],
            decreases self.body@.len() - i,
        {
            let segment = self.body[i];
            if head.x == segment.x && head.y == segment.y {
                assert(self.body@[i as int] == self.body@[0]);
                return true;
            }
            i += 1;
        }
        false
    }

    /// Shift-register translation: the head moves by `move_dir`; every
    /// trailing segment takes the position its predecessor held before this
    /// update, computed in a single pass over the pre-update positions.
    pub fn update(&mut self, move_dir: Vector2)
        requires
            old(self).well_formed(),
            i32::MIN <= old(self).body@[0].x + move_dir.x <= i32::MAX,
            i32::MIN <= old(self).body@[0].y + move_dir.y <= i32::MAX,
        ensures
            final(self).body@.len() == old(self).body@.len(),
            final(self).body@[0].x == old(self).body@[0].x + move_dir.x,
            final(self).body@[0].y == old(self).body@[0].y + move_dir.y,
            forall|i: int|
                1 <= i < old(self).body@.len() ==> final(self).body@[i] == old(self).body@[i - 1],
            final(self).body@ == shifted(old(self).body@, move_dir),
            final(self).color == old(self).color,
            final(self).grow_color == old(self).grow_color,
            final(self).well_formed(),
    {
        let mut prev_head = self.body[0];
        let new_head = Vector2 { x: prev_head.x + move_dir.x, y: prev_head.y + move_dir.y };
        self.body.set(0, new_head);

        let mut i: usize = 1;
        while i < self.body.len()
            invariant
                1 <= i <= self.body@.len(),
                self.body@.len() == old(self).body@.len(),
                self.body@[0].x == old(self).body@[0].x + move_dir.x,
                self.body@[0].y == old(self).body@[0].y + move_dir.y,
                forall|j: int| 1 <= j < i ==> self.body@[j] == old(self).body@[j - 1],
                forall|j: int| i <= j < self.body@.len() ==> self.body@[j] == old(self).body@[j],
                prev_head == old(self).body@[i - 1],
                self.color == old(self).color,
                self.grow_color == old(self).grow_color,
            decreases self.body@.len() - i,
        {
            let current = self.body[i];
            self.body.set(i, prev_head);
            prev_head = current;
            i += 1;
        }
        proof {
            assert(self.body@ =~= shifted(old(self).body@, move_dir));
        }
    }
}

} // verus!
